//! Error kinds of the library and the rule that sorts a failure of the
//! object store into them.

use vstd::prelude::*;
use vstd::string::StringExecFns;

verus! {

/// Result code of libgit2 for "the requested object could not be found".
pub const CODE_NOT_FOUND: i32 = -3;

/// Result code of libgit2 for "an object exists and prevents the operation".
pub const CODE_EXISTS: i32 = -4;

/// Result code of libgit2 for "a name or revision is not in a valid format".
pub const CODE_INVALID_SPEC: i32 = -12;

/// Result code of libgit2 for "invalid operation or input".
pub const CODE_INVALID: i32 = -21;

/// Result code of libgit2 for a failure without a code of its own.
pub const CODE_GENERIC: i32 = -1;

/// The four kinds of failure a caller can tell apart.
#[derive(Clone, Copy, Debug, PartialEq, Eq, Structural)]
pub enum ErrorKind {
    /// The store failed in a way the input did not cause.
    Generic,
    /// A revision, reference or object does not exist.
    NotFound,
    /// A malformed revision expression or name, or a contradictory request.
    Invalid,
    /// A reference of that name exists and `force` was not given.
    Conflict,
}

/// A failure as the object store reported it.
#[derive(Debug, PartialEq, Eq)]
pub struct StoreFailure {
    /// The store's result code.
    pub code: i32,
    /// The store's message.
    pub message: String,
}

impl StoreFailure {
    pub fn new(code: i32, message: String) -> (f: StoreFailure)
        ensures
            f.code == code,
            f.message == message,
    {
        StoreFailure { code, message }
    }
}

/// What the library was doing when the store failed, and the failure.
#[derive(Debug, PartialEq, Eq)]
pub struct ErrorCtx {
    /// What the library was doing.
    pub ctx: String,
    /// What the store reported.
    pub err: StoreFailure,
}

impl ErrorCtx {
    pub fn new(ctx: String, err: StoreFailure) -> (c: ErrorCtx)
        ensures
            c.ctx == ctx,
            c.err == err,
    {
        ErrorCtx { ctx, err }
    }

    /// The text `"<ctx>: <message>"`.
    pub open spec fn spec_text(&self) -> Seq<char> {
        self.ctx@ + ": "@ + self.err.message@
    }

    pub fn text(&self) -> (s: String)
        ensures
            s@ == self.spec_text(),
    {
        let mut s = self.ctx.clone();
        s.append(": ");
        s.append(self.err.message.as_str());
        s
    }
}

#[derive(Debug, PartialEq, Eq)]
pub enum Error {
    Generic(ErrorCtx),
    NotFound(ErrorCtx),
    Invalid(ErrorCtx),
    Conflict(ErrorCtx),
}

impl Clone for StoreFailure {
    fn clone(&self) -> (r: StoreFailure)
        ensures
            r == *self,
    {
        StoreFailure { code: self.code, message: self.message.clone() }
    }
}

impl Clone for ErrorCtx {
    fn clone(&self) -> (r: ErrorCtx)
        ensures
            r == *self,
    {
        ErrorCtx { ctx: self.ctx.clone(), err: self.err.clone() }
    }
}

impl Clone for Error {
    fn clone(&self) -> (r: Error)
        ensures
            r == *self,
    {
        match self {
            Error::Generic(c) => Error::Generic(c.clone()),
            Error::NotFound(c) => Error::NotFound(c.clone()),
            Error::Invalid(c) => Error::Invalid(c.clone()),
            Error::Conflict(c) => Error::Conflict(c.clone()),
        }
    }
}

/// The kind that a result code of the store is reported as.
pub open spec fn kind_of_code(code: i32) -> ErrorKind {
    if code == CODE_NOT_FOUND {
        ErrorKind::NotFound
    } else if code == CODE_INVALID || code == CODE_INVALID_SPEC {
        ErrorKind::Invalid
    } else if code == CODE_EXISTS {
        ErrorKind::Conflict
    } else {
        ErrorKind::Generic
    }
}

impl Error {
    /// The kind of this error.
    pub open spec fn spec_kind(&self) -> ErrorKind {
        match self {
            Error::Generic(_) => ErrorKind::Generic,
            Error::NotFound(_) => ErrorKind::NotFound,
            Error::Invalid(_) => ErrorKind::Invalid,
            Error::Conflict(_) => ErrorKind::Conflict,
        }
    }

    /// The context carried by this error, whatever its kind.
    pub open spec fn spec_context(&self) -> ErrorCtx {
        match self {
            Error::Generic(c) => *c,
            Error::NotFound(c) => *c,
            Error::Invalid(c) => *c,
            Error::Conflict(c) => *c,
        }
    }

    /// The kind is the one that the store's result code is reported as.
    pub open spec fn follows_code(&self) -> bool {
        self.spec_kind() == kind_of_code(self.spec_context().err.code)
    }

    #[verifier::when_used_as_spec(spec_kind)]
    pub fn kind(&self) -> (k: ErrorKind)
        ensures
            k == self.spec_kind(),
    {
        match self {
            Error::Generic(_) => ErrorKind::Generic,
            Error::NotFound(_) => ErrorKind::NotFound,
            Error::Invalid(_) => ErrorKind::Invalid,
            Error::Conflict(_) => ErrorKind::Conflict,
        }
    }

    pub fn context(&self) -> (c: &ErrorCtx)
        ensures
            *c == self.spec_context(),
    {
        match self {
            Error::Generic(c) => c,
            Error::NotFound(c) => c,
            Error::Invalid(c) => c,
            Error::Conflict(c) => c,
        }
    }

    /// Sorts a failure of the store by its result code: a missing object is
    /// `NotFound`, invalid input or a malformed name is `Invalid`, a name
    /// that is taken is `Conflict`, anything else is `Generic`.
    pub fn from_ctx_and_error(ctx: String, e: StoreFailure) -> (r: Error)
        ensures
            r.spec_kind() == kind_of_code(e.code),
            r.spec_context().ctx == ctx,
            r.spec_context().err == e,
            r.follows_code(),
    {
        let code = e.code;
        let c = ErrorCtx::new(ctx, e);
        if code == CODE_NOT_FOUND {
            Error::NotFound(c)
        } else if code == CODE_INVALID || code == CODE_INVALID_SPEC {
            Error::Invalid(c)
        } else if code == CODE_EXISTS {
            Error::Conflict(c)
        } else {
            Error::Generic(c)
        }
    }

    /// A failure that the library itself found, with no word from the store:
    /// `Generic`, with the context as its message.
    pub fn from_ctx(ctx: &str) -> (r: Error)
        ensures
            r.spec_kind() == ErrorKind::Generic,
            r.spec_context().ctx@ == ctx@,
            r.spec_context().err.code == CODE_GENERIC,
            r.spec_context().err.message@ == ctx@,
            r.follows_code(),
    {
        Error::Generic(
            ErrorCtx::new(String::from_str(ctx), StoreFailure::new(CODE_GENERIC, String::from_str(ctx))),
        )
    }

    /// A request that contradicts itself or is malformed, found by the
    /// library before the store was asked.
    pub fn invalid(ctx: &str) -> (r: Error)
        ensures
            r.spec_kind() == ErrorKind::Invalid,
            r.spec_context().ctx@ == ctx@,
            r.spec_context().err.code == CODE_INVALID,
            r.spec_context().err.message@ == ctx@,
            r.follows_code(),
    {
        Error::Invalid(
            ErrorCtx::new(String::from_str(ctx), StoreFailure::new(CODE_INVALID, String::from_str(ctx))),
        )
    }

    /// The text of this error.
    pub open spec fn spec_message(&self) -> Seq<char> {
        match self {
            Error::Generic(c) => "Generic Error: "@ + c.spec_text(),
            Error::NotFound(c) => c.spec_text() + " not found"@,
            Error::Invalid(c) => "Invalid "@ + c.spec_text(),
            Error::Conflict(c) => "Conflict: "@ + c.spec_text(),
        }
    }

    /// Renders the error as text: the kind's wording around the context
    /// and the store's message.
    pub fn message(&self) -> (s: String)
        ensures
            s@ == self.spec_message(),
    {
        match self {
            Error::Generic(c) => {
                let mut s = String::from_str("Generic Error: ");
                s.append(c.text().as_str());
                s
            },
            Error::NotFound(c) => {
                let mut s = c.text();
                s.append(" not found");
                s
            },
            Error::Invalid(c) => {
                let mut s = String::from_str("Invalid ");
                s.append(c.text().as_str());
                s
            },
            Error::Conflict(c) => {
                let mut s = String::from_str("Conflict: ");
                s.append(c.text().as_str());
                s
            },
        }
    }
}

} // verus!
