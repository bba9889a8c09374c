use vstd::prelude::*;

verus! {

/// Failure of the submission path itself.
#[derive(Clone, Copy, Debug, PartialEq, Eq, Structural)]
pub enum SubmitError {
    /// The work queue no longer accepts items: the worker is gone. Fatal.
    ChannelClosed,
}

/// What a producer observes for one submission: a queue that refused the item
/// is a fatal error; otherwise the reply, or `None` when the reply channel
/// closed without a value.
pub fn submission_result(enqueued: bool, reply: Option<String>) -> (r: Result<
    Option<String>,
    SubmitError,
>)
    ensures
        !enqueued ==> r == Err::<Option<String>, SubmitError>(SubmitError::ChannelClosed),
        enqueued ==> r == Ok::<Option<String>, SubmitError>(reply),
{
    if enqueued {
        Ok(reply)
    } else {
        Err(SubmitError::ChannelClosed)
    }
}

} // verus!
