//! The resource fetcher: turns a resource identifier into the lookup key the
//! storage collaborator understands, and turns the collaborator's answer into
//! a fetch result. The read itself is the collaborator's job; the fetcher
//! holds everything that can be decided without it.
use vstd::prelude::*;
use vstd::string::StrSliceExecFns;
use vstd::string::StringExecFns;
use crate::outcome::FetchError;

verus! {

/// An identifier is valid when every character of it may appear in a single
/// path component: no path separator and no NUL byte.
pub open spec fn id_is_valid(id: Seq<char>) -> bool {
    forall|i: int| 0 <= i < id.len() ==> id[i] != '/' && id[i] != '\u{0}'
}

/// The lookup key resolved for a valid identifier: a path under the
/// configured root directory.
pub open spec fn path_for(root: Seq<char>, id: Seq<char>) -> Seq<char> {
    root + "/files/"@ + id + ".txt"@
}

/// What the storage collaborator reports for one lookup key.
pub enum ReadOutcome {
    /// The resource exists and its whole contents were read.
    Content { text: String },
    /// Nothing exists at the resolved location.
    Absent,
    /// The resource exists but could not be read; carries a diagnostic
    /// message.
    Unreadable { message: String },
}

/// Fetches single resources below one configured root directory.
pub struct Fetcher {
    pub root: String,
}

impl Fetcher {
    /// A fetcher that resolves every identifier below `root`.
    pub fn new(root: String) -> (f: Fetcher)
        ensures
            f.root@ == root@,
    {
        Fetcher { root }
    }

    /// Checks the identifier and resolves it to the storage lookup key.
    /// Returns the key exactly for valid identifiers, and
    /// `InvalidIdentifier` for all others.
    pub fn resource_path(&self, id: &str) -> (r: Result<String, FetchError>)
        ensures
            id_is_valid(id@) ==> (r matches Ok(p) && p@ == path_for(self.root@, id@)),
            !id_is_valid(id@) ==> (r matches Err(e) && e is InvalidIdentifier),
    {
        let n = id.unicode_len();
        for i in 0..n
            invariant
                n == id@.len(),
                forall|j: int| 0 <= j < i ==> id@[j] != '/' && id@[j] != '\u{0}',
        {
            let c = id.get_char(i);
            if c == '/' || c == '\u{0}' {
                return Err(FetchError::InvalidIdentifier);
            }
        }
        let mut p = self.root.clone();
        p.append("/files/");
        p.append(id);
        p.append(".txt");
        Ok(p)
    }

    /// Interprets what the storage collaborator reported: contents become a
    /// success, absence becomes `NotFound`, and an unreadable resource
    /// becomes `ReadFailure` with the collaborator's diagnostic.
    pub fn interpret_read(&self, read: ReadOutcome) -> (r: Result<String, FetchError>)
        ensures
            (read matches ReadOutcome::Content { text } ==> (r matches Ok(c) && c == text)),
            (read is Absent ==> (r matches Err(e) && e is NotFound)),
            (read matches ReadOutcome::Unreadable { message } ==> (r matches Err(e)
                && e matches FetchError::ReadFailure { message: m } && m == message)),
    {
        match read {
            ReadOutcome::Content { text } => Ok(text),
            ReadOutcome::Absent => Err(FetchError::NotFound),
            ReadOutcome::Unreadable { message } => Err(FetchError::ReadFailure { message }),
        }
    }
}

} // verus!
