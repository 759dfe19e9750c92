use vstd::prelude::*;
use std::collections::hash_map::DefaultHasher;
use std::hash::Hash;
use std::hash::Hasher;
use vstd::std_specs::hash::DefaultHasherAdditionalSpecFns;

verus! {

/// The character of a decimal digit.
pub open spec fn digit_char(d: int) -> char {
    if d == 0 {
        '0'
    } else if d == 1 {
        '1'
    } else if d == 2 {
        '2'
    } else if d == 3 {
        '3'
    } else if d == 4 {
        '4'
    } else if d == 5 {
        '5'
    } else if d == 6 {
        '6'
    } else if d == 7 {
        '7'
    } else if d == 8 {
        '8'
    } else {
        '9'
    }
}

/// The decimal notation of `n`, most significant digit first, without leading zeros.
pub open spec fn decimal(n: nat) -> Seq<char>
    decreases n,
{
    if n < 10 {
        seq![digit_char(n as int)]
    } else {
        decimal(n / 10).push(digit_char((n % 10) as int))
    }
}

fn digit_str(d: u8) -> (s: &'static str)
    requires
        d < 10,
    ensures
        s@ == seq![digit_char(d as int)],
{
    proof {
        reveal_strlit("0");
        reveal_strlit("1");
        reveal_strlit("2");
        reveal_strlit("3");
        reveal_strlit("4");
        reveal_strlit("5");
        reveal_strlit("6");
        reveal_strlit("7");
        reveal_strlit("8");
        reveal_strlit("9");
    }
    if d == 0 {
        "0"
    } else if d == 1 {
        "1"
    } else if d == 2 {
        "2"
    } else if d == 3 {
        "3"
    } else if d == 4 {
        "4"
    } else if d == 5 {
        "5"
    } else if d == 6 {
        "6"
    } else if d == 7 {
        "7"
    } else if d == 8 {
        "8"
    } else {
        "9"
    }
}

/// The decimal notation of `n`, as `u64::to_string` writes it.
pub fn decimal_string(n: u64) -> (s: String)
    ensures
        s@ == decimal(n as nat),
        digits_value(s@) == n,
        forall|i: int| 0 <= i < s@.len() ==> 0 <= #[trigger] digit_value(s@[i]) <= 9,
{
    proof {
        lemma_decimal_reads_back(n as nat);
    }
    // Peel off the low digits; `tail` is the notation of what has been peeled.
    let mut m: u64 = n;
    let mut low_digits: Vec<u8> = Vec::new();
    let ghost mut tail: Seq<char> = Seq::empty();
    while m >= 10
        invariant
            decimal(n as nat) == decimal(m as nat) + tail,
            tail.len() == low_digits@.len(),
            forall|j: int| 0 <= j < low_digits@.len() ==> #[trigger] low_digits@[j] < 10,
            forall|j: int|
                0 <= j < tail.len() ==> #[trigger] tail[j] == digit_char(
                    low_digits@[low_digits@.len() - 1 - j] as int,
                ),
        decreases m,
    {
        let d = (m % 10) as u8;
        proof {
            let old_tail = tail;
            tail = seq![digit_char(d as int)] + old_tail;
            assert(decimal(m as nat) == decimal((m / 10) as nat).push(digit_char(d as int)));
            assert(decimal((m / 10) as nat).push(digit_char(d as int)) + old_tail =~= decimal(
                (m / 10) as nat,
            ) + tail);
        }
        low_digits.push(d);
        m = m / 10;
    }
    let mut s = String::new();
    s.append(digit_str(m as u8));
    assert(decimal(m as nat) == seq![digit_char(m as int)]);
    let k = low_digits.len();
    let mut j: usize = 0;
    while j < k
        invariant
            k == low_digits@.len(),
            j <= k,
            tail.len() == k,
            decimal(n as nat) == decimal(m as nat) + tail,
            decimal(m as nat) == seq![digit_char(m as int)],
            forall|i: int| 0 <= i < low_digits@.len() ==> #[trigger] low_digits@[i] < 10,
            forall|i: int|
                0 <= i < tail.len() ==> #[trigger] tail[i] == digit_char(
                    low_digits@[low_digits@.len() - 1 - i] as int,
                ),
            s@ == decimal(m as nat) + tail.take(j as int),
        decreases k - j,
    {
        let d = low_digits[k - 1 - j];
        s.append(digit_str(d));
        assert(tail.take(j as int).push(tail[j as int]) =~= tail.take(j + 1));
        assert(decimal(m as nat) + tail.take(j as int) + seq![digit_char(d as int)] =~= decimal(
            m as nat,
        ) + tail.take(j + 1));
        j = j + 1;
    }
    assert(tail.take(k as int) =~= tail);
    s
}

/// The digit that a character stands for, or -1 for a character that is no decimal digit.
pub open spec fn digit_value(c: char) -> int {
    if c == '0' {
        0
    } else if c == '1' {
        1
    } else if c == '2' {
        2
    } else if c == '3' {
        3
    } else if c == '4' {
        4
    } else if c == '5' {
        5
    } else if c == '6' {
        6
    } else if c == '7' {
        7
    } else if c == '8' {
        8
    } else if c == '9' {
        9
    } else {
        -1
    }
}

/// The number that a string of decimal digits denotes, most significant digit first.
pub open spec fn digits_value(s: Seq<char>) -> int
    decreases s.len(),
{
    if s.len() == 0 {
        0
    } else {
        digits_value(s.drop_last()) * 10 + digit_value(s.last())
    }
}

/// Reading the notation of `n` back, digit by digit, gives `n`: every
/// character is a decimal digit, and only zero itself begins with `0`.
pub proof fn lemma_decimal_reads_back(n: nat)
    ensures
        digits_value(decimal(n)) == n,
        forall|i: int|
            0 <= i < decimal(n).len() ==> 0 <= #[trigger] digit_value(decimal(n)[i]) <= 9,
        n > 0 ==> decimal(n)[0] != '0',
    decreases n,
{
    if n >= 10 {
        let d = decimal(n);
        let hi = decimal(n / 10);
        lemma_decimal_reads_back(n / 10);
        lemma_decimal_nonempty(n / 10);
        assert(d.drop_last() =~= hi);
        assert(d.last() == digit_char((n % 10) as int));
        assert(digit_value(digit_char((n % 10) as int)) == n % 10);
        assert(n == (n / 10) * 10 + n % 10);
        assert(digits_value(d) == digits_value(d.drop_last()) * 10 + digit_value(d.last()));
        assert(digits_value(d) == (n / 10) * 10 + n % 10);
        assert forall|i: int| 0 <= i < d.len() implies 0 <= #[trigger] digit_value(d[i]) <= 9 by {
            if i < hi.len() {
                assert(d[i] == hi[i]);
            }
        }
        assert(d[0] == hi[0]);
    } else {
        assert(decimal(n)[0] == digit_char(n as int));
        assert(decimal(n).drop_last() =~= Seq::<char>::empty());
        assert(digits_value(Seq::<char>::empty()) == 0);
        assert(digit_value(digit_char(n as int)) == n);
        assert(digits_value(decimal(n)) == digits_value(decimal(n).drop_last()) * 10 + digit_value(
            decimal(n).last(),
        ));
    }
}

/// The notation has at least one character.
pub proof fn lemma_decimal_nonempty(n: nat)
    ensures
        decimal(n).len() >= 1,
    decreases n,
{
    if n >= 10 {
        lemma_decimal_nonempty(n / 10);
    }
}

/// Different numbers have different decimal notations.
pub proof fn lemma_decimal_injective(a: nat, b: nat)
    requires
        decimal(a) == decimal(b),
    ensures
        a == b,
    decreases a,
{
    if a < 10 && b < 10 {
        assert(decimal(a)[0] == digit_char(a as int));
        assert(decimal(b)[0] == digit_char(b as int));
    } else if a < 10 {
        lemma_decimal_nonempty(b / 10);
        assert(decimal(b).len() == decimal(b / 10).len() + 1);
        assert(decimal(a).len() == 1);
    } else if b < 10 {
        lemma_decimal_nonempty(a / 10);
        assert(decimal(a).len() == decimal(a / 10).len() + 1);
        assert(decimal(b).len() == 1);
    } else {
        let da = decimal(a);
        let db = decimal(b);
        assert(da.last() == digit_char((a % 10) as int));
        assert(db.last() == digit_char((b % 10) as int));
        assert(da.drop_last() =~= decimal(a / 10));
        assert(db.drop_last() =~= decimal(b / 10));
        lemma_decimal_injective(a / 10, b / 10);
        assert(a % 10 == b % 10);
        assert(a == 10 * (a / 10) + a % 10);
        assert(b == 10 * (b / 10) + b % 10);
    }
}

/// The byte strings that `Hash for [u8]` hands to a `DefaultHasher` for `data`.
pub uninterp spec fn slice_hash_writes(data: Seq<u8>) -> Seq<Seq<u8>>;

/// Feeds `data` into `state` through std's `<[u8] as Hash>::hash`. Claimed: the
/// byte strings written are a function of `data` alone, named
/// `slice_hash_writes`. How they are split (std documents a length prefix
/// and leaves the rest unspecified) is not stated.
#[verifier::external_body]
fn hash_bytes_into(data: &[u8], state: &mut DefaultHasher)
    ensures
        final(state)@ == old(state)@ + slice_hash_writes(data@),
{
    data.hash(state)
}

/// The identifier of a message whose content is `data`: the decimal notation
/// of the `DefaultHasher` hash of the bytes.
pub open spec fn spec_message_id(data: Seq<u8>) -> Seq<char> {
    decimal(DefaultHasher::spec_finish(slice_hash_writes(data)) as nat)
}

/// Content addressing of gossip messages: hashes the message bytes with a
/// fresh `DefaultHasher` and writes the hash in decimal.
pub fn message_id(data: &[u8]) -> (id: String)
    ensures
        id@ == spec_message_id(data@),
        digits_value(id@) == DefaultHasher::spec_finish(slice_hash_writes(data@)),
{
    let mut state = DefaultHasher::new();
    hash_bytes_into(data, &mut state);
    assert(state@ =~= slice_hash_writes(data@));
    let h = state.finish();
    decimal_string(h)
}

/// Messages with the same content get the same identifier, and messages whose
/// hashes differ get different identifiers.
pub proof fn lemma_message_id_content_addressed(a: Seq<u8>, b: Seq<u8>)
    ensures
        a == b ==> spec_message_id(a) == spec_message_id(b),
        spec_message_id(a) == spec_message_id(b) <==> DefaultHasher::spec_finish(
            slice_hash_writes(a),
        ) == DefaultHasher::spec_finish(slice_hash_writes(b)),
{
    let ha = DefaultHasher::spec_finish(slice_hash_writes(a));
    let hb = DefaultHasher::spec_finish(slice_hash_writes(b));
    if spec_message_id(a) == spec_message_id(b) {
        lemma_decimal_injective(ha as nat, hb as nat);
    }
}

} // verus!
