use vstd::prelude::*;

verus! {

/// Why an operation on a dynamic value or array failed.
#[derive(Clone, Copy, Debug, PartialEq, Eq, Structural)]
pub enum Error {
    /// The tag is not supported for the requested operation, or an array's
    /// element tag or dimension count is not the expected one.
    TypeError,
    /// A reference handle or an array handle that the operation needs is null.
    NullPointer,
    /// A primitive of the runtime reported failure; holds its status code unchanged.
    ExternalError(i32),
}

impl Error {
    /// The error that stands for a failure status of the runtime.
    pub fn from_status(code: i32) -> (e: Error)
        ensures
            e == Error::ExternalError(code),
    {
        Error::ExternalError(code)
    }

    /// The status code behind an `ExternalError`, and nothing for the other kinds.
    pub fn status(&self) -> (code: Option<i32>)
        ensures
            code == match *self {
                Error::ExternalError(c) => Some(c),
                _ => None::<i32>,
            },
    {
        match self {
            Error::ExternalError(c) => Some(*c),
            _ => None,
        }
    }
}

/// What a primitive of the runtime handed back becomes the operation's result:
/// its value on success, and on failure an `ExternalError` with the same status.
pub fn settle<T>(outcome: Result<T, i32>) -> (r: Result<T, Error>)
    ensures
        r == match outcome {
            Ok(v) => Ok::<T, Error>(v),
            Err(code) => Err::<T, Error>(Error::ExternalError(code)),
        },
{
    match outcome {
        Ok(v) => Ok(v),
        Err(code) => Err(Error::ExternalError(code)),
    }
}

} // verus!
