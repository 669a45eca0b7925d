//! The engine's error type and its French messages.

use vstd::prelude::*;
use vstd::string::StringExecFns;

verus! {

/// Why a tool call was refused.
#[derive(Debug, Clone, PartialEq, Eq)]
pub enum FiscalError {
    /// No tool carries this name.
    UnknownTool(String),
    /// An argument is missing, of the wrong kind or out of bounds.
    InvalidArgument { name: String, reason: String },
}

/// The character-level content of a [`FiscalError`].
pub enum FiscalErrorView {
    UnknownTool(Seq<char>),
    InvalidArgument { name: Seq<char>, reason: Seq<char> },
}

impl View for FiscalError {
    type V = FiscalErrorView;

    open spec fn view(&self) -> FiscalErrorView {
        match self {
            FiscalError::UnknownTool(name) => FiscalErrorView::UnknownTool(name@),
            FiscalError::InvalidArgument { name, reason } => FiscalErrorView::InvalidArgument {
                name: name@,
                reason: reason@,
            },
        }
    }
}

/// The message of an error, as the engine reports it to its callers.
pub open spec fn error_message(e: FiscalErrorView) -> Seq<char> {
    match e {
        FiscalErrorView::UnknownTool(name) => "outil inconnu : "@ + name,
        FiscalErrorView::InvalidArgument { name, reason } => "argument invalide `"@ + name
            + "` : "@ + reason,
    }
}

/// Builds the error for an invalid argument `name`, explained by `reason`.
pub fn invalid(name: &str, reason: &str) -> (e: FiscalError)
    ensures
        e@ == (FiscalErrorView::InvalidArgument { name: name@, reason: reason@ }),
{
    FiscalError::InvalidArgument { name: String::from_str(name), reason: String::from_str(reason) }
}

impl FiscalError {
    /// The human-readable message of this error.
    pub fn message(&self) -> (m: String)
        ensures
            m@ == error_message(self@),
    {
        match self {
            FiscalError::UnknownTool(name) => String::from_str("outil inconnu : ").concat(
                name.as_str(),
            ),
            FiscalError::InvalidArgument { name, reason } => {
                let m = String::from_str("argument invalide `").concat(name.as_str());
                let m = m.concat("` : ");
                m.concat(reason.as_str())
            },
        }
    }
}

/// An unknown tool is reported as "outil inconnu : " followed by its name;
/// an invalid argument as "argument invalide `", its name, "` : " and the
/// reason.
pub proof fn lemma_error_messages(name: Seq<char>, reason: Seq<char>)
    ensures
        error_message(FiscalErrorView::UnknownTool(name)) == "outil inconnu : "@ + name,
        error_message(FiscalErrorView::InvalidArgument { name, reason }) == "argument invalide `"@
            + name + "` : "@ + reason,
{
}

} // verus!
