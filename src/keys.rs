use vstd::prelude::*;

verus! {

/// Byte sent by the Escape key.
pub const ESC: u8 = 27;

/// Byte sent by Ctrl-C while the terminal is in raw mode.
pub const CTRL_C: u8 = 3;

/// A key that asks for the run to stop at once.
pub open spec fn is_exit_key(b: u8) -> bool {
    b == ESC || b == CTRL_C
}

/// Some key of the batch asks for the run to stop.
pub open spec fn has_exit_key(keys: Seq<u8>) -> bool {
    exists|i: int| 0 <= i < keys.len() && is_exit_key(#[trigger] keys[i])
}

/// What one drain of the pending keystrokes found.
#[derive(Clone, Debug, PartialEq, Eq)]
pub enum Poll {
    /// No keystroke was waiting.
    Empty,
    /// Keystrokes were waiting, none of them an exit key.
    Activity,
    /// At least one waiting keystroke was ESC or Ctrl-C.
    ExitRequested,
    /// Reading the input failed; the text describes the failure.
    ReadFailure(String),
}

/// Classifies one drained batch.
///
/// `keys` holds the bytes read before the stream ran dry or failed, in the
/// order they were read; `failure` holds the description of the read error
/// that ended the batch, if one did. An exit key takes priority over
/// everything else, since it was read before any failure; then comes the
/// failure; then plain activity.
pub fn classify_batch(keys: &Vec<u8>, failure: Option<String>) -> (r: Poll)
    ensures
        has_exit_key(keys@) ==> r == Poll::ExitRequested,
        !has_exit_key(keys@) && failure is Some ==> r == Poll::ReadFailure(failure->0),
        !has_exit_key(keys@) && failure is None && keys@.len() > 0 ==> r == Poll::Activity,
        keys@.len() == 0 && failure is None ==> r == Poll::Empty,
{
    let mut i: usize = 0;
    while i < keys.len()
        invariant
            i <= keys@.len(),
            forall|j: int| 0 <= j < i ==> !is_exit_key(#[trigger] keys@[j]),
        decreases keys@.len() - i,
    {
        let b = keys[i];
        if b == ESC || b == CTRL_C {
            return Poll::ExitRequested;
        }
        i = i + 1;
    }
    match failure {
        Some(message) => Poll::ReadFailure(message),
        None => {
            if keys.len() > 0 {
                Poll::Activity
            } else {
                Poll::Empty
            }
        },
    }
}

} // verus!
