//! What is known of a remote message after looking for it, and what is done
//! about it: a message that is there is edited, a message that is gone is
//! made anew, and a lookup that failed is handed on as it is.

use crate::payload::Container;
use vstd::prelude::*;

verus! {

/// How looking for a stored remote message ended.
#[derive(Clone, Copy, Debug, PartialEq, Eq, Structural)]
pub enum Lookup {
    /// The message is there.
    Found,
    /// The remote side says that there is no such message.
    Gone,
    /// The remote side could not be asked, or did not answer.
    Failed,
}

/// A failure of the remote side that may pass: it is handed on to the caller
/// and not tried again here.
#[derive(Clone, Copy, Debug, PartialEq, Eq, Structural)]
pub enum RemoteError {
    Transient,
}

/// What is done to the remote side to show a payload.
#[derive(Debug)]
pub enum SyncStep {
    /// Edit the remote message with this id.
    Edit { remote_id: i64, payload: Container },
    /// Create a remote message; its id is then adopted by the object shown.
    Create { payload: Container },
}

/// The remote message that is edited to show an object: the stored one where
/// it was found; none, so that one is created, where nothing is stored or
/// the stored one is gone. A failed lookup of a stored message is an error.
/// Where nothing is stored nothing was looked for, and the lookup does not
/// count.
pub open spec fn edit_target(stored: Option<i64>, lookup: Lookup) -> Result<Option<i64>, RemoteError> {
    match stored {
        None => Ok(None),
        Some(id) => match lookup {
            Lookup::Found => Ok(Some(id)),
            Lookup::Gone => Ok(None),
            Lookup::Failed => Err(RemoteError::Transient),
        },
    }
}

/// Whether `step` shows `payload` on the remote message `target`, or on a
/// new one where there is no target.
pub open spec fn shows(step: SyncStep, target: Option<i64>, payload: Container) -> bool {
    match target {
        Some(id) => step == (SyncStep::Edit { remote_id: id, payload }),
        None => step == (SyncStep::Create { payload }),
    }
}

/// Decides how a payload is shown, from the remote message that is stored
/// and from how looking for it ended.
pub fn show(stored: Option<i64>, lookup: Lookup, payload: Container) -> (r: Result<SyncStep, RemoteError>)
    ensures
        match edit_target(stored, lookup) {
            Ok(target) => r matches Ok(step) && shows(step, target, payload),
            Err(e) => r == Err::<SyncStep, RemoteError>(e),
        },
{
    match stored {
        None => Ok(SyncStep::Create { payload }),
        Some(id) => match lookup {
            Lookup::Found => Ok(SyncStep::Edit { remote_id: id, payload }),
            Lookup::Gone => Ok(SyncStep::Create { payload }),
            Lookup::Failed => Err(RemoteError::Transient),
        },
    }
}

impl RemoteError {
    /// The message that is logged.
    pub fn message(&self) -> (text: String)
        ensures
            text@ == "the remote side could not be reached"@,
    {
        String::from_str("the remote side could not be reached")
    }
}

/// An object whose stored remote message is gone is given a new one, and that
/// is no error: whatever id was stored, a message is created. Once the object
/// has adopted the id of the message that was created, and that message is
/// found, it is the one that is edited.
pub proof fn lemma_gone_message_is_recreated(stored: Option<i64>, created: i64)
    ensures
        edit_target(stored, Lookup::Gone) == Ok::<Option<i64>, RemoteError>(None),
        edit_target(Some(created), Lookup::Found) == Ok::<Option<i64>, RemoteError>(Some(created)),
{
}

} // verus!
