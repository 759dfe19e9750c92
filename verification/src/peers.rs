use vstd::prelude::*;

verus! {

/// What local peer discovery reports.
pub enum Discovery<P> {
    /// Peers were found.
    Discovered(Vec<P>),
    /// Discovery records of peers lapsed; each comes with whether discovery
    /// still knows the peer through another record.
    Expired(Vec<(P, bool)>),
}

/// A change to the set of peers that messages are flooded to.
#[derive(Debug)]
pub enum ViewChange<P> {
    Add(P),
    Remove(P),
}

/// The additions for discovered peers, in the order reported.
pub open spec fn additions<P>(peers: Seq<P>) -> Seq<ViewChange<P>>
    decreases peers.len(),
{
    if peers.len() == 0 {
        Seq::empty()
    } else {
        seq![ViewChange::Add(peers[0])] + additions(peers.drop_first())
    }
}

/// The removals for lapsed records: a peer leaves the view only when
/// discovery no longer knows it at all; order as reported.
pub open spec fn removals<P>(expired: Seq<(P, bool)>) -> Seq<ViewChange<P>>
    decreases expired.len(),
{
    if expired.len() == 0 {
        Seq::empty()
    } else {
        (if expired[0].1 {
            Seq::empty()
        } else {
            seq![ViewChange::Remove(expired[0].0)]
        }) + removals(expired.drop_first())
    }
}

/// Every discovered peer gets exactly one addition, in the order reported.
pub proof fn lemma_additions_each<P>(peers: Seq<P>)
    ensures
        additions(peers).len() == peers.len(),
        forall|i: int| 0 <= i < peers.len() ==> #[trigger] additions(peers)[i] == ViewChange::Add(
            peers[i],
        ),
    decreases peers.len(),
{
    if peers.len() > 0 {
        lemma_additions_each(peers.drop_first());
        assert forall|i: int| 0 <= i < peers.len() implies #[trigger] additions(peers)[i]
            == ViewChange::Add(peers[i]) by {
            if i > 0 {
                assert(additions(peers)[i] == additions(peers.drop_first())[i - 1]);
            }
        }
    }
}

/// The removals for one lapsed record: none if discovery still knows the peer, else one.
pub proof fn lemma_removals_single<P>(peer: P, still_known: bool)
    ensures
        removals(seq![(peer, still_known)]) == (if still_known {
            Seq::<ViewChange<P>>::empty()
        } else {
            seq![ViewChange::Remove(peer)]
        }),
{
    let es = seq![(peer, still_known)];
    assert(es[0] == (peer, still_known));
    assert(es.drop_first() =~= Seq::<(P, bool)>::empty());
    assert(removals(Seq::<(P, bool)>::empty()) == Seq::<ViewChange<P>>::empty());
    assert(removals(es) =~= (if still_known {
        Seq::<ViewChange<P>>::empty()
    } else {
        seq![ViewChange::Remove(peer)]
    }));
}

/// The records are judged one by one: the removals for two reports in a row
/// are the removals for the first followed by those for the second.
pub proof fn lemma_removals_append<P>(a: Seq<(P, bool)>, b: Seq<(P, bool)>)
    ensures
        removals(a + b) == removals(a) + removals(b),
    decreases a.len(),
{
    if a.len() == 0 {
        assert(a + b =~= b);
        assert(removals(a) + removals(b) =~= removals(b));
    } else {
        assert((a + b)[0] == a[0]);
        assert((a + b).drop_first() =~= a.drop_first() + b);
        lemma_removals_append(a.drop_first(), b);
        let head = if a[0].1 {
            Seq::<ViewChange<P>>::empty()
        } else {
            seq![ViewChange::Remove(a[0].0)]
        };
        assert(head + (removals(a.drop_first()) + removals(b)) =~= (head + removals(
            a.drop_first(),
        )) + removals(b));
    }
}

/// Exactly the lapsed records whose peer discovery no longer knows give a
/// removal of that peer, in the order reported.
pub proof fn lemma_removals_are_unknown_peers<P>(expired: Seq<(P, bool)>)
    ensures
        removals(expired) == expired.filter(|e: (P, bool)| !e.1).map_values(
            |e: (P, bool)| ViewChange::Remove(e.0),
        ),
    decreases expired.len(),
{
    reveal(Seq::filter);
    let pred = |e: (P, bool)| !e.1;
    let f = |e: (P, bool)| ViewChange::Remove(e.0);
    if expired.len() == 0 {
        assert(expired.filter(pred) =~= expired);
        assert(removals(expired) =~= expired.filter(pred).map_values(f));
    } else {
        let front = expired.drop_last();
        let last = expired.last();
        lemma_removals_are_unknown_peers(front);
        assert(front + seq![last] =~= expired);
        lemma_removals_append(front, seq![last]);
        lemma_removals_single(last.0, last.1);
        if pred(last) {
            assert(expired.filter(pred) == front.filter(pred).push(last));
            assert(front.filter(pred).push(last).map_values(f) =~= front.filter(pred).map_values(
                f,
            ).push(f(last)));
            assert(removals(expired) =~= removals(front) + seq![ViewChange::Remove(last.0)]);
        } else {
            assert(expired.filter(pred) == front.filter(pred));
            assert(removals(expired) =~= removals(front));
        }
    }
}

/// How the flood view follows local discovery: every discovered peer is
/// added; a lapsed peer is removed unless discovery still knows it.
pub fn view_changes<P>(event: Discovery<P>) -> (changes: Vec<ViewChange<P>>)
    ensures
        changes@ == (match event {
            Discovery::Discovered(ps) => additions(ps@),
            Discovery::Expired(es) => removals(es@),
        }),
        match event {
            Discovery::Discovered(ps) => changes@.len() == ps@.len() && forall|i: int|
                0 <= i < ps@.len() ==> #[trigger] changes@[i] == ViewChange::Add(ps@[i]),
            Discovery::Expired(es) => changes@ == es@.filter(|e: (P, bool)| !e.1).map_values(
                |e: (P, bool)| ViewChange::Remove(e.0),
            ),
        },
{
    proof {
        match &event {
            Discovery::Discovered(ps) => lemma_additions_each(ps@),
            Discovery::Expired(es) => lemma_removals_are_unknown_peers(es@),
        }
    }
    let mut changes: Vec<ViewChange<P>> = Vec::new();
    match event {
        Discovery::Discovered(ps) => {
            let ghost all = ps@;
            let mut rest = ps;
            while rest.len() > 0
                invariant
                    changes@ + additions(rest@) == additions(all),
                decreases rest@.len(),
            {
                let ghost before = rest@;
                let p = rest.remove(0);
                assert(before.drop_first() =~= rest@);
                assert(changes@.push(ViewChange::Add(p)) + additions(rest@) =~= changes@
                    + additions(before));
                changes.push(ViewChange::Add(p));
            }
            assert(changes@ + additions(rest@) =~= changes@);
        },
        Discovery::Expired(es) => {
            let ghost all = es@;
            let mut rest = es;
            while rest.len() > 0
                invariant
                    changes@ + removals(rest@) == removals(all),
                decreases rest@.len(),
            {
                let ghost before = rest@;
                let (p, still_known) = rest.remove(0);
                assert(before.drop_first() =~= rest@);
                if still_known {
                    assert(changes@ + removals(rest@) =~= changes@ + removals(before));
                } else {
                    assert(changes@.push(ViewChange::Remove(p)) + removals(rest@) =~= changes@
                        + removals(before));
                    changes.push(ViewChange::Remove(p));
                }
            }
            assert(changes@ + removals(rest@) =~= changes@);
        },
    }
    changes
}

} // verus!
