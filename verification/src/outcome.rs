//! The per-resource outcome types: what a fetch attempt produced, and why a
//! failed attempt failed.
use vstd::prelude::*;
use vstd::string::StringExecFns;

verus! {

/// Error reported by the fetcher for a single resource.
#[derive(Debug, PartialEq, Eq)]
pub enum FetchError {
    /// The resource does not exist at its resolved location.
    NotFound,
    /// The identifier cannot be turned into a valid lookup key.
    InvalidIdentifier,
    /// The storage collaborator failed to read the resource; carries a
    /// diagnostic message.
    ReadFailure { message: String },
}

/// Why an outcome is a failure: either the fetcher itself reported an error,
/// or the concurrent unit of work did not run to completion at all.
#[derive(Debug, PartialEq, Eq)]
pub enum FailureReason {
    /// The fetcher ran and returned this error.
    Fetch { error: FetchError },
    /// The unit of work was aborted, panicked, or otherwise never produced a
    /// fetcher result.
    ExecutionFailure,
}

impl FailureReason {
    /// A human-readable rendering of the reason, for diagnostic reporting.
    pub fn describe(&self) -> (r: String)
        ensures
            (*self matches FailureReason::Fetch { error: FetchError::NotFound } ==> r@
                == "not found"@),
            (*self matches FailureReason::Fetch { error: FetchError::InvalidIdentifier } ==> r@
                == "invalid identifier"@),
            (*self matches FailureReason::Fetch { error: FetchError::ReadFailure { message } }
                ==> r@ == "read failure: "@ + message@),
            (*self is ExecutionFailure ==> r@ == "execution failure"@),
    {
        match self {
            FailureReason::Fetch { error: FetchError::NotFound } => String::from_str("not found"),
            FailureReason::Fetch { error: FetchError::InvalidIdentifier } => String::from_str(
                "invalid identifier",
            ),
            FailureReason::Fetch { error: FetchError::ReadFailure { message } } => {
                let mut r = String::from_str("read failure: ");
                r.append(message.as_str());
                r
            },
            FailureReason::ExecutionFailure => String::from_str("execution failure"),
        }
    }
}

/// The outcome of one fetch attempt: exactly one is produced per submitted
/// resource identifier.
#[derive(Debug, PartialEq, Eq)]
pub enum FetchOutcome {
    Success { id: String, content: String },
    Failure { id: String, reason: FailureReason },
}

impl FetchOutcome {
    /// The resource identifier this outcome is about, as a sequence of
    /// characters.
    pub open spec fn key(self) -> Seq<char> {
        match self {
            FetchOutcome::Success { id, .. } => id@,
            FetchOutcome::Failure { id, .. } => id@,
        }
    }

    /// The fetched content, meaningful only for a success.
    pub open spec fn content_view(self) -> Seq<char>
        recommends
            self is Success,
    {
        match self {
            FetchOutcome::Success { content, .. } => content@,
            FetchOutcome::Failure { .. } => Seq::empty(),
        }
    }

    /// Whether this outcome is a success, as an executable query.
    pub fn is_ok(&self) -> (r: bool)
        ensures
            r == (*self is Success),
    {
        match self {
            FetchOutcome::Success { .. } => true,
            FetchOutcome::Failure { .. } => false,
        }
    }

    /// The resource identifier this outcome is about.
    pub fn id(&self) -> (r: &String)
        ensures
            r@ == self.key(),
    {
        match self {
            FetchOutcome::Success { id, .. } => id,
            FetchOutcome::Failure { id, .. } => id,
        }
    }
}

} // verus!
