//! Turning native failure signals into typed results.
use vstd::prelude::*;

verus! {

/// Why an operation of the binding failed.
#[derive(Debug, Clone, PartialEq, Eq)]
pub enum FontError {
    /// The native call signalled failure (a null pointer or a non-zero
    /// status); `message` is the shared last-error string read at that moment.
    NativeOperationFailed { message: String },
    /// A glyph-level operation was asked about a character that does not fit
    /// in a single UTF-16 code unit.
    InvalidCodepoint,
}

impl FontError {
    /// The failure text carried by a native failure.
    pub fn message(&self) -> (r: Option<&String>)
        ensures
            match self {
                FontError::NativeOperationFailed { message } => r == Some(message),
                FontError::InvalidCodepoint => r.is_none(),
            },
    {
        match self {
            FontError::NativeOperationFailed { message } => Some(message),
            FontError::InvalidCodepoint => None,
        }
    }
}

/// A native failure whose message is one that `last_error` may return.
pub open spec fn native_failure<E: FnOnce() -> String>(r: FontError, last_error: E) -> bool {
    r matches FontError::NativeOperationFailed { message } && last_error.ensures((), message)
}

/// Accepts a handle that a native call returned, `None` standing for a null
/// pointer. On a null pointer the error carries what `last_error` reads, and
/// `last_error` is called only then.
pub fn check_handle<T, E: FnOnce() -> String>(handle: Option<T>, last_error: E) -> (r: Result<
    T,
    FontError,
>)
    requires
        last_error.requires(()),
    ensures
        handle matches Some(h) ==> r == Ok::<T, FontError>(h),
        handle is None ==> (r matches Err(e) && native_failure(e, last_error)),
{
    match handle {
        Some(h) => Ok(h),
        None => Err(FontError::NativeOperationFailed { message: last_error() }),
    }
}

/// Accepts the value produced by a native call that reports its outcome as
/// a status code, zero meaning success. On any other status the error carries
/// what `last_error` reads, and `last_error` is called only then.
pub fn check_status<T, E: FnOnce() -> String>(status: i32, value: T, last_error: E) -> (r: Result<
    T,
    FontError,
>)
    requires
        last_error.requires(()),
    ensures
        status == 0 ==> r == Ok::<T, FontError>(value),
        status != 0 ==> (r matches Err(e) && native_failure(e, last_error)),
{
    if status == 0 {
        Ok(value)
    } else {
        Err(FontError::NativeOperationFailed { message: last_error() })
    }
}

} // verus!
