//! Messages and the filtered history window.
//!
//! A message carries only what the purge engine reads: its identifier and its
//! creation timestamp in seconds.  A `MessageWindow` is the tail of a
//! channel's history (enumerated newest first) starting at the first message
//! older than a cutoff instant.

use vstd::prelude::*;

verus! {

/// One platform message, reduced to what the engine reads of it.  The
/// identifier doubles as the message's locator: the surrounding process turns
/// it into a followable link.
#[derive(Clone, Copy, Debug, PartialEq, Eq, Structural)]
pub struct Message {
    pub id: u64,
    /// Creation time, in seconds.
    pub timestamp: i64,
}

/// History order: strictly newest first.
pub open spec fn sorted_newest_first(s: Seq<Message>) -> bool {
    forall|i: int, j: int| 0 <= i < j < s.len() ==> s[i].timestamp > s[j].timestamp
}

/// Every message in `s` was created before the instant `before`.
pub open spec fn all_before(s: Seq<Message>, before: int) -> bool {
    forall|i: int| 0 <= i < s.len() ==> s[i].timestamp < before
}

/// The index of the first message (in newest-first order) whose timestamp is
/// strictly below `t`, or the length of the sequence if there is none.
pub open spec fn first_index_older(s: Seq<Message>, t: int) -> int
    decreases s.len(),
{
    if s.len() == 0 {
        0
    } else if s[0].timestamp < t {
        0
    } else {
        1 + first_index_older(s.skip(1), t)
    }
}

/// `first_index_older` is a well-defined cut point: it lies within the
/// sequence, everything before it is at or above `t`, and the element at it
/// (if any) is below `t`.
pub proof fn lemma_first_index_older_bounds(s: Seq<Message>, t: int)
    ensures
        0 <= first_index_older(s, t) <= s.len(),
        forall|j: int| 0 <= j < first_index_older(s, t) ==> s[j].timestamp >= t,
        first_index_older(s, t) < s.len() ==> s[first_index_older(s, t)].timestamp < t,
    decreases s.len(),
{
    if s.len() == 0 {
    } else if s[0].timestamp < t {
    } else {
        lemma_first_index_older_bounds(s.skip(1), t);
        assert forall|j: int| 0 <= j < first_index_older(s, t) implies s[j].timestamp >= t by {
            if j > 0 {
                assert(s.skip(1)[j - 1] == s[j]);
            }
        }
        let k = first_index_older(s, t);
        if k < s.len() {
            assert(s.skip(1)[k - 1] == s[k]);
        }
    }
}

/// A window of channel history: the messages older than `before`, still in
/// newest-first order.
pub struct MessageWindow {
    /// The cutoff instant the window was filtered against.
    pub before: i64,
    /// The retained messages, strictly newest first, all older than `before`.
    pub messages: Vec<Message>,
}

impl MessageWindow {
    /// Well-formedness: newest-first order and the age cutoff hold.
    pub open spec fn wf(self) -> bool {
        &&& sorted_newest_first(self.messages@)
        &&& all_before(self.messages@, self.before as int)
    }

    /// The number of messages in the window.
    pub fn len(&self) -> (n: usize)
        ensures
            n == self.messages@.len(),
    {
        self.messages.len()
    }

    /// Whether the window holds no messages at all; an invocation over an
    /// empty window ends right away, without a prompt.
    pub fn is_empty(&self) -> (r: bool)
        ensures
            r == (self.messages@.len() == 0),
    {
        self.messages.len() == 0
    }
}

/// Filters an enumerated history down to the purge window: skips every
/// message at or after `before` and keeps the rest, from the first message
/// older than `before` onward.
pub fn window_before(history: &Vec<Message>, before: i64) -> (w: MessageWindow)
    requires
        sorted_newest_first(history@),
    ensures
        w.before == before,
        w.messages@ == history@.subrange(
            first_index_older(history@, before as int),
            history@.len() as int,
        ),
        w.wf(),
{
    let n: usize = history.len();
    let mut cut: usize = 0;
    while cut < n && history[cut].timestamp >= before
        invariant
            0 <= cut <= n,
            n == history@.len(),
            forall|j: int| 0 <= j < cut ==> history@[j].timestamp >= before as int,
        decreases n - cut,
    {
        cut = cut + 1;
    }
    proof {
        lemma_first_index_older_bounds(history@, before as int);
        // `cut` satisfies the cut-point characterization, which pins it.
        let k = first_index_older(history@, before as int);
        if k < cut {
            assert(history@[k].timestamp >= before as int);
        }
        if cut < k {
            assert(history@[cut as int].timestamp < before as int);
        }
        assert(cut == k);
    }
    let mut kept: Vec<Message> = Vec::new();
    let mut j: usize = cut;
    while j < n
        invariant
            cut <= j <= n,
            n == history@.len(),
            kept@ == history@.subrange(cut as int, j as int),
        decreases n - j,
    {
        kept.push(history[j]);
        j = j + 1;
        proof {
            assert(kept@ =~= history@.subrange(cut as int, j as int));
        }
    }
    proof {
        let s = history@.subrange(cut as int, n as int);
        assert forall|i: int, jj: int| 0 <= i < jj < s.len() implies s[i].timestamp
            > s[jj].timestamp by {
            assert(s[i] == history@[cut + i]);
            assert(s[jj] == history@[cut + jj]);
        }
        assert forall|i: int| 0 <= i < s.len() implies s[i].timestamp < before as int by {
            assert(s[i] == history@[cut + i]);
            lemma_first_index_older_bounds(history@, before as int);
            if cut + i == cut {
                assert(history@[cut as int].timestamp < before as int);
            } else {
                assert(history@[cut as int].timestamp < before as int);
                assert(history@[cut + i].timestamp < history@[cut as int].timestamp);
            }
        }
    }
    MessageWindow { before, messages: kept }
}

} // verus!
