//! What becomes of the application when its host hands control back.
//!
//! The host registers the plugins, applies the schema and runs the event
//! loop. The application cannot work without its schema, so a host that
//! fails, for whatever reason, ends the process: nothing is tried again and
//! nothing goes on in a reduced form.

use vstd::prelude::*;

verus! {

/// Opening words of the diagnostic with which the application stops.
pub const RUN_FAILED: &'static str = "error while running tauri application";

/// How the application ends once the host has returned.
#[derive(Clone, Debug, PartialEq, Eq)]
pub enum Exit {
    /// The host ended in order.
    Finished,
    /// The host failed: the process stops at once with this diagnostic.
    Abort { diagnostic: String },
}

/// The diagnostic for a failure: the opening words, a colon and a space,
/// then what the host gave as its reason.
pub open spec fn diagnostic_for(reason: Seq<char>) -> Seq<char> {
    RUN_FAILED@ + ": "@ + reason
}

/// Decides how the application ends, from what the host returned: the
/// reason of its failure, or nothing where it ended in order.
///
/// Every failure is fatal. The answer to one is always [`Exit::Abort`], with
/// the diagnostic of [`diagnostic_for`], and only a host that ended in order
/// is answered by [`Exit::Finished`].
pub fn after_run(outcome: Result<(), String>) -> (exit: Exit)
    ensures
        outcome is Ok <==> exit is Finished,
        outcome is Err <==> exit is Abort,
        outcome matches Err(reason) ==> exit matches Exit::Abort { diagnostic }
            && diagnostic@ == diagnostic_for(reason@),
{
    match outcome {
        Ok(_) => Exit::Finished,
        Err(reason) => {
            let mut diagnostic = RUN_FAILED.to_owned();
            diagnostic.append(": ");
            diagnostic.append(reason.as_str());
            Exit::Abort { diagnostic }
        },
    }
}

} // verus!
