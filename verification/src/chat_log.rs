use vstd::prelude::*;
use crate::message::{Message, display_line_of};

verus! {

/// Rows the chat window starts with: one blank row, thirteen more, and a last one.
pub const INITIAL_ROWS: usize = 15;

/// While at most this many messages have arrived, each new row pushes the top row out.
pub const SCROLL_LIMIT: i32 = 14;

/// How many blank rows stand above the messages once `received` messages have arrived.
pub open spec fn padding(received: int) -> int {
    if received <= SCROLL_LIMIT {
        INITIAL_ROWS - received
    } else {
        1
    }
}

/// The rows of the chat window after the messages whose rows are `history`
/// have arrived: blank rows above, then every message row in arrival order.
pub open spec fn window(history: Seq<Seq<char>>) -> Seq<Seq<char>> {
    Seq::new(padding(history.len() as int) as nat, |i: int| Seq::<char>::empty()) + history
}

/// One arrival as the window performs it: the new row is appended below, and
/// while at most `SCROLL_LIMIT` messages have arrived (this one counted) the top row is removed.
pub open spec fn arrive(rows: Seq<Seq<char>>, received: int, row: Seq<char>) -> Seq<Seq<char>> {
    if received + 1 <= SCROLL_LIMIT {
        rows.push(row).drop_first()
    } else {
        rows.push(row)
    }
}

/// The window after each message of `msgs` has arrived in turn, starting from a fresh window.
pub open spec fn replay(msgs: Seq<Seq<char>>) -> Seq<Seq<char>>
    decreases msgs.len(),
{
    if msgs.len() == 0 {
        window(Seq::empty())
    } else {
        arrive(replay(msgs.drop_last()), msgs.len() - 1, msgs.last())
    }
}

/// The scrolling list of rows of the chat window.
pub struct ChatLog {
    rows: Vec<String>,
    received: i32,
}

impl ChatLog {
    /// The rows, each as its characters.
    pub closed spec fn rows_view(&self) -> Seq<Seq<char>> {
        self.rows@.map_values(|s: String| s@)
    }

    /// How many messages have arrived.
    pub closed spec fn received_count(&self) -> int {
        self.received as int
    }

    /// The rows of the messages that have arrived, oldest first.
    pub open spec fn history(&self) -> Seq<Seq<char>> {
        self.rows_view().skip(padding(self.received_count()))
    }

    /// The window shows blank rows above the row of every message that has arrived.
    pub open spec fn wf(&self) -> bool {
        &&& 0 <= self.received_count()
        &&& self.history().len() == self.received_count()
        &&& self.rows_view() == window(self.history())
    }

    /// A fresh window of `INITIAL_ROWS` blank rows.
    pub fn new() -> (log: ChatLog)
        ensures
            log.wf(),
            log.received_count() == 0,
            log.rows_view() == window(Seq::empty()),
    {
        let mut rows: Vec<String> = Vec::new();
        let mut i: usize = 0;
        while i < INITIAL_ROWS
            invariant
                i <= INITIAL_ROWS,
                rows@.len() == i,
                forall|j: int| 0 <= j < i ==> #[trigger] rows@[j]@ == Seq::<char>::empty(),
            decreases INITIAL_ROWS - i,
        {
            rows.push(String::new());
            i = i + 1;
        }
        let log = ChatLog { rows, received: 0 };
        assert(log.rows_view() =~= window(Seq::empty()));
        assert(log.history() =~= Seq::<Seq<char>>::empty());
        log
    }

    /// The rows of the window, top first.
    pub fn rows(&self) -> (r: &Vec<String>)
        ensures
            r@.map_values(|s: String| s@) == self.rows_view(),
    {
        &self.rows
    }

    /// How many messages have arrived.
    pub fn received(&self) -> (n: i32)
        ensures
            n == self.received_count(),
    {
        self.received
    }

    /// Shows an arriving message: its row goes below the others, and while at
    /// most `SCROLL_LIMIT` messages have arrived the top row is removed, which
    /// the result reports.
    pub fn push_message(&mut self, m: &Message) -> (dropped_top: bool)
        requires
            old(self).wf(),
            old(self).received_count() < i32::MAX,
        ensures
            final(self).wf(),
            final(self).received_count() == old(self).received_count() + 1,
            final(self).history() == old(self).history().push(display_line_of(m@)),
            final(self).rows_view() == arrive(
                old(self).rows_view(),
                old(self).received_count(),
                display_line_of(m@),
            ),
            dropped_top == (final(self).received_count() <= SCROLL_LIMIT),
    {
        let ghost old_rows = self.rows_view();
        let ghost h = self.history();
        let ghost c = self.received_count();
        let line = m.display_line();
        let ghost l = line@;
        self.received = self.received + 1;
        self.rows.push(line);
        let dropped = self.received <= SCROLL_LIMIT;
        if dropped {
            self.rows.remove(0);
        }
        proof {
            lemma_arrive_window(h, l);
            assert(self.rows_view() =~= arrive(old_rows, c, l));
            assert(self.history() =~= h.push(l));
        }
        dropped
    }
}

/// An arrival turns the window of a history into the window of that history
/// with the new row appended.
pub proof fn lemma_arrive_window(history: Seq<Seq<char>>, row: Seq<char>)
    ensures
        arrive(window(history), history.len() as int, row) == window(history.push(row)),
{
    assert(arrive(window(history), history.len() as int, row) =~= window(history.push(row)));
}

/// Whatever messages arrive, the window shows every one of their rows in
/// arrival order, below `padding` blank rows: never fewer than `INITIAL_ROWS`
/// rows in all, and at least one blank row at the top.
pub proof fn lemma_replay_is_window(msgs: Seq<Seq<char>>)
    ensures
        replay(msgs) == window(msgs),
        replay(msgs).len() >= INITIAL_ROWS,
        replay(msgs).len() == (if msgs.len() <= 14 {
            15
        } else {
            msgs.len() + 1
        }),
        forall|i: int|
            0 <= i < msgs.len() ==> #[trigger] replay(msgs)[replay(msgs).len() - msgs.len() + i]
                == msgs[i],
        replay(msgs)[0] == Seq::<char>::empty(),
        replay(msgs).skip(padding(msgs.len() as int)) == msgs,
    decreases msgs.len(),
{
    if msgs.len() > 0 {
        lemma_replay_is_window(msgs.drop_last());
        lemma_arrive_window(msgs.drop_last(), msgs.last());
        assert(msgs.drop_last().push(msgs.last()) =~= msgs);
    }
    assert(window(msgs).skip(padding(msgs.len() as int)) =~= msgs);
    assert forall|i: int| 0 <= i < msgs.len() implies #[trigger] replay(msgs)[replay(msgs).len()
        - msgs.len() + i] == msgs[i] by {
        assert(window(msgs)[padding(msgs.len() as int) + i] == msgs[i]);
    }
}

} // verus!
