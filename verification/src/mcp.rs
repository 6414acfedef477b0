//! The tool relay: what an agent gets when it asks for the next comment or
//! for the state of the queue, and the texts the relay advertises.

use vstd::prelude::*;
use vstd::string::*;

use crate::state::CommentQueue;
use crate::types::ReviewComment;

verus! {

/// What the relay does for one request for the next comment.
#[derive(Debug)]
pub enum NextComment {
    /// This comment left the queue and is to be sent as a record.
    Deliver(ReviewComment),
    /// Nothing was pending; this text is to be sent in place of a record.
    Nothing(String),
}

/// The text sent when no comment is pending.
pub open spec fn none_pending_text() -> Seq<char> {
    "No comments pending."@
}

/// The text sent when a comment could not be turned into a record.
pub open spec fn failed_record_text() -> Seq<char> {
    "Serialization error"@
}

/// The character of the decimal digit `d`.
pub open spec fn digit_char(d: nat) -> char {
    if d == 0 {
        '0'
    } else if d == 1 {
        '1'
    } else if d == 2 {
        '2'
    } else if d == 3 {
        '3'
    } else if d == 4 {
        '4'
    } else if d == 5 {
        '5'
    } else if d == 6 {
        '6'
    } else if d == 7 {
        '7'
    } else if d == 8 {
        '8'
    } else {
        '9'
    }
}

/// The decimal digits of `n`, most significant first, without leading
/// zeros.
pub open spec fn decimal(n: nat) -> Seq<char>
    decreases n,
{
    if n < 10 {
        seq![digit_char(n)]
    } else {
        decimal(n / 10).push(digit_char(n % 10))
    }
}

/// The body that reports `pending` pending comments.
pub open spec fn status_text(pending: nat) -> Seq<char> {
    "{\"pending\": "@ + decimal(pending) + "}"@
}

/// Takes the oldest pending comment off the queue for delivery, exactly
/// one per call. On an empty queue the answer is the text that says so,
/// which is no failure, and the queue stays as it was.
pub fn get_next_comment(queue: &mut CommentQueue) -> (next: NextComment)
    ensures
        final(queue)@ == old(queue)@.advance(),
        match next {
            NextComment::Deliver(c) => old(queue)@.front() == Some(c@),
            NextComment::Nothing(text) => {
                &&& old(queue)@.pending.len() == 0
                &&& final(queue)@ == old(queue)@
                &&& text@ == none_pending_text()
            },
        },
{
    match queue.dequeue() {
        Some(comment) => NextComment::Deliver(comment),
        None => NextComment::Nothing(String::from_str("No comments pending.")),
    }
}

/// The reply for a delivered comment: its record where one could be
/// written, else the text that says it could not.
pub fn comment_reply(record: Option<String>) -> (text: String)
    ensures
        text@ == match record {
            Some(r) => r@,
            None => failed_record_text(),
        },
{
    match record {
        Some(r) => r,
        None => String::from_str("Serialization error"),
    }
}

/// The text of one decimal digit.
fn digit_text(d: usize) -> (s: &'static str)
    requires
        d < 10,
    ensures
        s@ == seq![digit_char(d as nat)],
{
    proof {
        reveal_strlit("0");
        reveal_strlit("1");
        reveal_strlit("2");
        reveal_strlit("3");
        reveal_strlit("4");
        reveal_strlit("5");
        reveal_strlit("6");
        reveal_strlit("7");
        reveal_strlit("8");
        reveal_strlit("9");
    }
    let s = if d == 0 {
        "0"
    } else if d == 1 {
        "1"
    } else if d == 2 {
        "2"
    } else if d == 3 {
        "3"
    } else if d == 4 {
        "4"
    } else if d == 5 {
        "5"
    } else if d == 6 {
        "6"
    } else if d == 7 {
        "7"
    } else if d == 8 {
        "8"
    } else {
        "9"
    };
    assert(s@ =~= seq![digit_char(d as nat)]);
    s
}

/// Writes `n` in decimal.
pub fn decimal_text(n: usize) -> (text: String)
    ensures
        text@ == decimal(n as nat),
    decreases n,
{
    if n < 10 {
        String::from_str(digit_text(n))
    } else {
        let mut text = decimal_text(n / 10);
        text.append(digit_text(n % 10));
        assert(text@ =~= decimal(n as nat));
        text
    }
}

/// The body that reports how many comments are pending. The queue is not
/// changed.
pub fn get_queue_status(queue: &CommentQueue) -> (body: String)
    ensures
        body@ == status_text(queue@.pending.len()),
{
    let mut body = String::from_str("{\"pending\": ");
    let count = decimal_text(queue.len());
    body.append(count.as_str());
    body.append("}");
    body
}

/// The text of the instructions the relay advertises.
pub open spec fn instructions_text() -> Seq<char> {
    "Differ review tool. Use get_next_comment to receive code review feedback. Each call removes one comment from the queue and returns it, oldest first. Each comment includes a file path, line range, code context, and the instruction given for it. Process comments one at a time, in the order received."@
}

/// The instructions the relay advertises about itself.
pub fn server_instructions() -> (text: &'static str)
    ensures
        text@ == instructions_text(),
{
    "Differ review tool. Use get_next_comment to receive code review feedback. Each call removes one comment from the queue and returns it, oldest first. Each comment includes a file path, line range, code context, and the instruction given for it. Process comments one at a time, in the order received."
}

/// The text that describes the tool that hands out the next comment.
pub open spec fn next_comment_description_text() -> Seq<char> {
    "Get the next review comment from the queue. Each call removes exactly one comment, in the order the comments were submitted, and returns it with file path, line range, code context, and the feedback given. Returns a notice if no comments are pending. Handle each comment before asking for the next."@
}

/// The description of the tool that hands out the next comment.
pub fn next_comment_description() -> (text: &'static str)
    ensures
        text@ == next_comment_description_text(),
{
    "Get the next review comment from the queue. Each call removes exactly one comment, in the order the comments were submitted, and returns it with file path, line range, code context, and the feedback given. Returns a notice if no comments are pending. Handle each comment before asking for the next."
}

/// The text that describes the tool that reports the queue's length.
pub open spec fn queue_status_description_text() -> Seq<char> {
    "Get the number of pending review comments in the queue. Nothing is removed."@
}

/// The description of the tool that reports the queue's length.
pub fn queue_status_description() -> (text: &'static str)
    ensures
        text@ == queue_status_description_text(),
{
    "Get the number of pending review comments in the queue. Nothing is removed."
}

} // verus!
