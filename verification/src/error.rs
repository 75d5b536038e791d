//! The errors of the catalog: reading, parsing and snapshot failures,
//! each annotated with the file it arose in before it propagates. Every
//! error aborts the whole build; lookups themselves never fail.

use vstd::prelude::*;

verus! {

/// The kinds of errors that can occur while building the catalog, each
/// carrying the message of the failure.
pub enum OptolithDataErrorKind {
    IOError(String),
    JSONError(String),
    YAMLError(String),
    SnapshotError(String),
}

/// Wraps an error kind with the file where the error occurred.
pub struct OptolithDataError {
    pub kind: OptolithDataErrorKind,
    pub file: Option<String>,
}

impl OptolithDataError {
    /// An error without a file yet.
    pub fn new(kind: OptolithDataErrorKind) -> (r: OptolithDataError)
        ensures
            r.kind == kind,
            r.file is None,
    {
        OptolithDataError { kind, file: None }
    }

    /// The kind of this error.
    pub fn kind(&self) -> (r: &OptolithDataErrorKind)
        ensures
            r == &self.kind,
    {
        &self.kind
    }

    /// The file this error arose in, if one was recorded.
    pub fn file(&self) -> (r: &Option<String>)
        ensures
            r == &self.file,
    {
        &self.file
    }
}

/// Syntactic sugar for a result value that can also be an
/// [OptolithDataError].
pub type OptolithDataResult<T> = Result<T, OptolithDataError>;

/// Annotates a failed result with the file the failure arose in; a
/// successful result is left alone.
pub fn set_file<T>(r: &mut OptolithDataResult<T>, file: String)
    ensures
        (*old(r)) is Ok ==> *final(r) == *old(r),
        (*old(r)) is Err ==> (*final(r)) is Err && ((*final(r))->Err_0).kind == ((*old(r))->Err_0).kind
            && ((*final(r))->Err_0).file == Some(file),
{
    match r {
        Ok(_) => {},
        Err(e) => {
            e.file = Some(file);
        },
    }
}

} // verus!
