use vstd::prelude::*;

verus! {

/// The subsystem's error taxonomy, matched structurally by callers.
///
/// Validation-class errors are user-facing rejections and never mutate
/// anything; transient errors are failed external operations; load errors
/// come from a failed store read during cache population and are safely
/// retryable, since a failed load is never cached.
#[derive(Debug)]
pub enum Error {
    /// A precondition check rejected the request (channel too large,
    /// messages too old, place id unset).  Surfaced to the invoking
    /// operator; no mutation occurred.
    Validation { message: String },
    /// An external operation failed, or the purge protocol gave up after
    /// its attempt bound.  The cache and the store are not corrupted.
    Transient { message: String },
    /// The store read during cache population failed.  Propagated to the
    /// reader; the next read retries the load.
    Load { message: String },
}

impl Error {
    /// The human-readable text the error carries.
    pub open spec fn message_view(&self) -> Seq<char> {
        match self {
            Error::Validation { message } => message@,
            Error::Transient { message } => message@,
            Error::Load { message } => message@,
        }
    }

    /// Borrow the error's text.
    pub fn message(&self) -> (r: &str)
        ensures
            r@ == self.message_view(),
    {
        match self {
            Error::Validation { message } => message.as_str(),
            Error::Transient { message } => message.as_str(),
            Error::Load { message } => message.as_str(),
        }
    }

    /// Flatten the error into a plain string carrier that can cross thread
    /// boundaries without dragging the whole taxonomy along.
    pub fn to_sync_error(&self) -> (r: StringError)
        ensures
            r@ == self.message_view(),
    {
        StringError(self.message().to_owned())
    }
}

/// An error value that carries nothing but a message string.
#[derive(Debug)]
pub struct StringError(pub String);

impl View for StringError {
    type V = Seq<char>;

    open spec fn view(&self) -> Seq<char> {
        self.0@
    }
}

/// Collapses a result to its error policy for guild scans: success and
/// validation-class failures both count as done, everything else propagates.
pub trait ResultCmdExt<T>: Sized {
    fn cmd_ok(self) -> Result<(), Error>;
}

impl<T> ResultCmdExt<T> for Result<T, Error> {
    /// Suppress validation-class errors so that one misconfigured guild does
    /// not block processing the others; propagate transient and load errors.
    fn cmd_ok(self) -> (r: Result<(), Error>)
        ensures
            r is Ok <==> (self is Ok || self->Err_0 is Validation),
            r is Err ==> r->Err_0 == self->Err_0,
    {
        match self {
            Ok(_) => Ok(()),
            Err(e) => match e {
                Error::Validation { .. } => Ok(()),
                _ => Err(e),
            },
        }
    }
}

/// Converts any failure into a validation-class error with a caller-chosen
/// message, keeping a success untouched.
pub trait IntoResultCmdExt<T>: Sized {
    fn to_cmd_err(self, message: String) -> Result<T, Error>;
}

impl<T> IntoResultCmdExt<T> for Result<T, Error> {
    fn to_cmd_err(self, message: String) -> (r: Result<T, Error>)
        ensures
            self is Ok ==> r is Ok && r->Ok_0 == self->Ok_0,
            self is Err ==> r == Err::<T, Error>(Error::Validation { message: message }),
    {
        match self {
            Ok(v) => Ok(v),
            Err(_) => Err(Error::Validation { message }),
        }
    }
}

} // verus!
