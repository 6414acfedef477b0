//! The comment queue: pending review comments in submission order, and the
//! counter that numbers them.

use std::collections::VecDeque;
use vstd::prelude::*;

use crate::types::{ReviewComment, ReviewCommentView};

verus! {

/// What is handed in: a comment before it has a number.
pub struct CommentDraft {
    pub file: Seq<char>,
    pub start_line: u32,
    pub end_line: u32,
    pub code_context: Seq<char>,
    pub comment: Seq<char>,
}

impl CommentDraft {
    /// The comment this draft becomes under the number `id`.
    pub open spec fn numbered(self, id: u64) -> ReviewCommentView {
        ReviewCommentView {
            id,
            file: self.file,
            start_line: self.start_line,
            end_line: self.end_line,
            code_context: self.code_context,
            comment: self.comment,
        }
    }
}

/// The number issued after `id`. The counter is 64 bits wide and starts
/// over at zero once every value has been issued.
pub open spec fn following_id(id: u64) -> u64 {
    if id == u64::MAX {
        0
    } else {
        (id + 1) as u64
    }
}

/// The value of a queue: the pending comments, oldest first, and the number
/// the next submission gets.
pub struct QueueState {
    pub pending: Seq<ReviewCommentView>,
    pub next_id: u64,
}

impl QueueState {
    /// The queue a process starts with.
    pub open spec fn initial() -> QueueState {
        QueueState { pending: Seq::empty(), next_id: 1 }
    }

    /// The queue after `draft` was submitted.
    pub open spec fn submit(self, draft: CommentDraft) -> QueueState {
        QueueState {
            pending: self.pending.push(draft.numbered(self.next_id)),
            next_id: following_id(self.next_id),
        }
    }

    /// The comment the next dequeue hands out, if any is pending.
    pub open spec fn front(self) -> Option<ReviewCommentView> {
        if self.pending.len() > 0 {
            Some(self.pending[0])
        } else {
            None
        }
    }

    /// The queue after one dequeue.
    pub open spec fn advance(self) -> QueueState {
        if self.pending.len() > 0 {
            QueueState { pending: self.pending.drop_first(), next_id: self.next_id }
        } else {
            self
        }
    }

    /// The queue after `n` dequeues.
    pub open spec fn advance_by(self, n: nat) -> QueueState
        decreases n,
    {
        if n == 0 {
            self
        } else {
            self.advance().advance_by((n - 1) as nat)
        }
    }

    /// The queue after every draft of `drafts` was submitted, in order.
    pub open spec fn submit_all(self, drafts: Seq<CommentDraft>) -> QueueState
        decreases drafts.len(),
    {
        if drafts.len() == 0 {
            self
        } else {
            self.submit_all(drafts.drop_last()).submit(drafts.last())
        }
    }
}

/// An ordered buffer of review comments with a counter for their numbers.
#[derive(Debug)]
pub struct CommentQueue {
    queue: VecDeque<ReviewComment>,
    next_id: u64,
}

impl View for CommentQueue {
    type V = QueueState;

    closed spec fn view(&self) -> QueueState {
        QueueState {
            pending: Seq::new(self.queue@.len(), |i: int| self.queue@[i]@),
            next_id: self.next_id,
        }
    }
}

impl CommentQueue {
    /// An empty queue whose first comment gets the number 1.
    pub fn new() -> (q: Self)
        ensures
            q@ == QueueState::initial(),
    {
        let q = CommentQueue { queue: VecDeque::new(), next_id: 1 };
        assert(q@.pending =~= Seq::empty());
        q
    }

    /// Appends a comment and returns the number it was given.
    pub fn enqueue(
        &mut self,
        file: String,
        start_line: u32,
        end_line: u32,
        code_context: String,
        comment: String,
    ) -> (id: u64)
        ensures
            id == old(self)@.next_id,
            final(self)@ == old(self)@.submit(
                (CommentDraft {
                    file: file@,
                    start_line,
                    end_line,
                    code_context: code_context@,
                    comment: comment@,
                }),
            ),
    {
        let id: u64 = self.next_id;
        self.next_id = id.wrapping_add(1);
        let entry = ReviewComment { id, file, start_line, end_line, code_context, comment };
        self.queue.push_back(entry);
        assert(self@.pending =~= old(self)@.pending.push(entry@));
        id
    }

    /// Removes and returns the oldest pending comment, if there is one.
    pub fn dequeue(&mut self) -> (r: Option<ReviewComment>)
        ensures
            final(self)@ == old(self)@.advance(),
            match r {
                Some(c) => old(self)@.front() == Some(c@),
                None => old(self)@.front().is_none(),
            },
    {
        let r = self.queue.pop_front();
        assert(self@.pending =~= old(self)@.advance().pending);
        r
    }

    /// The number of pending comments.
    pub fn len(&self) -> (n: usize)
        ensures
            n == self@.pending.len(),
    {
        self.queue.len()
    }
}

/// One call on the queue.
pub enum QueueOp {
    Submit(CommentDraft),
    Dequeue,
}

/// The queue after one call.
pub open spec fn step(s: QueueState, op: QueueOp) -> QueueState {
    match op {
        QueueOp::Submit(draft) => s.submit(draft),
        QueueOp::Dequeue => s.advance(),
    }
}

/// The queue after the calls `ops`, made in order on a fresh queue. Calls
/// made under exclusive access from several contexts form such a sequence.
pub open spec fn replay(ops: Seq<QueueOp>) -> QueueState
    decreases ops.len(),
{
    if ops.len() == 0 {
        QueueState::initial()
    } else {
        step(replay(ops.drop_last()), ops.last())
    }
}

/// Every comment submitted during `ops`, with the number it was given, in
/// the order of submission.
pub open spec fn submitted(ops: Seq<QueueOp>) -> Seq<ReviewCommentView>
    decreases ops.len(),
{
    if ops.len() == 0 {
        Seq::empty()
    } else {
        match ops.last() {
            QueueOp::Submit(draft) => submitted(ops.drop_last()).push(
                draft.numbered(replay(ops.drop_last()).next_id),
            ),
            QueueOp::Dequeue => submitted(ops.drop_last()),
        }
    }
}

/// Every comment that a dequeue handed out during `ops`, in the order of
/// the dequeues.
pub open spec fn delivered(ops: Seq<QueueOp>) -> Seq<ReviewCommentView>
    decreases ops.len(),
{
    if ops.len() == 0 {
        Seq::empty()
    } else {
        match (ops.last(), replay(ops.drop_last()).front()) {
            (QueueOp::Dequeue, Some(c)) => delivered(ops.drop_last()).push(c),
            _ => delivered(ops.drop_last()),
        }
    }
}

/// The numbers count up from one: however submissions and dequeues are
/// interleaved, submission number `k + 1` gets the number `k + 1`, as long
/// as that fits in 64 bits. Until then the counter is one more than the
/// number of submissions.
pub proof fn lemma_ids_count_from_one(ops: Seq<QueueOp>)
    ensures
        forall|k: int|
            0 <= k < submitted(ops).len() && k < u64::MAX ==> #[trigger] submitted(ops)[k].id == k
                + 1,
        submitted(ops).len() < u64::MAX ==> replay(ops).next_id == submitted(ops).len() + 1,
    decreases ops.len(),
{
    if ops.len() > 0 {
        lemma_ids_count_from_one(ops.drop_last());
    }
}

/// No number is issued twice, and a later submission gets a larger number,
/// over any history of at most `u64::MAX` submissions.
pub proof fn lemma_ids_strictly_increase(ops: Seq<QueueOp>)
    requires
        submitted(ops).len() <= u64::MAX,
    ensures
        forall|i: int, j: int|
            0 <= i < j < submitted(ops).len() ==> #[trigger] submitted(ops)[i].id
                < #[trigger] submitted(ops)[j].id,
{
    lemma_ids_count_from_one(ops);
}

/// Strict first-in-first-out: what was handed out, followed by what is
/// pending, is what was submitted, in the order of submission. Nothing is
/// lost, nothing is handed out twice, nothing overtakes.
pub proof fn lemma_fifo(ops: Seq<QueueOp>)
    ensures
        delivered(ops) + replay(ops).pending == submitted(ops),
        delivered(ops).len() + replay(ops).pending.len() == submitted(ops).len(),
    decreases ops.len(),
{
    if ops.len() == 0 {
        assert(delivered(ops) + replay(ops).pending =~= submitted(ops));
    } else {
        let before = ops.drop_last();
        lemma_fifo(before);
        assert(delivered(ops) + replay(ops).pending =~= submitted(ops));
    }
}

/// The pending comments carry the numbers that follow those handed out:
/// with `d` comments delivered, the pending ones are numbered `d + 1`,
/// `d + 2` and so on, over any history of at most `u64::MAX` submissions.
pub proof fn lemma_pending_ids(ops: Seq<QueueOp>)
    requires
        submitted(ops).len() <= u64::MAX,
    ensures
        forall|i: int|
            0 <= i < replay(ops).pending.len() ==> (#[trigger] replay(ops).pending[i]).id
                == delivered(ops).len() + i + 1,
{
    lemma_ids_count_from_one(ops);
    lemma_fifo(ops);
    assert forall|i: int| 0 <= i < replay(ops).pending.len() implies (#[trigger] replay(
        ops,
    ).pending[i]).id == delivered(ops).len() + i + 1 by {
        assert(replay(ops).pending[i] == (delivered(ops) + replay(ops).pending)[
            delivered(ops).len() + i
        ]);
        assert(submitted(ops)[delivered(ops).len() + i].id == delivered(ops).len() + i + 1);
    }
}

/// Submitting adds one pending comment per draft and hands none out.
pub proof fn lemma_submit_all_len(s: QueueState, drafts: Seq<CommentDraft>)
    ensures
        s.submit_all(drafts).pending.len() == s.pending.len() + drafts.len(),
    decreases drafts.len(),
{
    if drafts.len() > 0 {
        lemma_submit_all_len(s, drafts.drop_last());
    }
}

/// Submissions alone: after `m` submissions on a fresh queue, in whatever
/// order exclusive access put the calls, the queue holds all `m` comments
/// in that order, the comment at place `k` with the number `k + 1`, and
/// the next submission gets `m + 1`. This holds for every `m` up to
/// `u64::MAX`, where the 64-bit counter starts over.
pub proof fn lemma_submissions_only(drafts: Seq<CommentDraft>)
    requires
        drafts.len() <= u64::MAX,
    ensures
        QueueState::initial().submit_all(drafts).pending.len() == drafts.len(),
        forall|k: int|
            0 <= k < drafts.len() ==> #[trigger] QueueState::initial().submit_all(
                drafts,
            ).pending[k] == drafts[k].numbered((k + 1) as u64),
        drafts.len() < u64::MAX ==> QueueState::initial().submit_all(drafts).next_id
            == drafts.len() + 1,
    decreases drafts.len(),
{
    if drafts.len() > 0 {
        lemma_submissions_only(drafts.drop_last());
        let before = QueueState::initial().submit_all(drafts.drop_last());
        assert forall|k: int| 0 <= k < drafts.len() implies #[trigger] QueueState::initial().submit_all(
            drafts,
        ).pending[k] == drafts[k].numbered((k + 1) as u64) by {
            if k < drafts.len() - 1 {
                assert(before.pending[k] == drafts.drop_last()[k].numbered((k + 1) as u64));
            }
        }
    }
}

/// Dequeuing at least as often as comments are pending empties the queue,
/// and a dequeue after that finds nothing and changes nothing.
pub proof fn lemma_advance_drains(s: QueueState, n: nat)
    requires
        n >= s.pending.len(),
    ensures
        s.advance_by(n).pending.len() == 0,
        s.advance_by(n).front().is_none(),
        s.advance_by(n).advance() == s.advance_by(n),
        s.advance_by(n).next_id == s.next_id,
    decreases n,
{
    if n > 0 {
        lemma_advance_drains(s.advance(), (n - 1) as nat);
    }
}

/// After as many dequeues as submissions a fresh queue is empty again.
pub proof fn lemma_submit_then_drain(drafts: Seq<CommentDraft>)
    ensures
        QueueState::initial().submit_all(drafts).advance_by(drafts.len()).pending.len() == 0,
        QueueState::initial().submit_all(drafts).advance_by(drafts.len()).front().is_none(),
{
    lemma_submit_all_len(QueueState::initial(), drafts);
    lemma_advance_drains(QueueState::initial().submit_all(drafts), drafts.len());
}

} // verus!
