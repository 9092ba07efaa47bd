use vstd::prelude::*;

verus! {

/// A libfabric error, carried as its positive error number (`FI_E*` / errno value).
#[derive(Clone, Copy, Debug, PartialEq, Eq, Structural)]
pub struct Error {
    pub c_err: u32,
}

impl Error {
    /// Builds an error from a positive libfabric error number.
    pub fn from_err_code(code: u32) -> (r: Error)
        ensures
            r.c_err == code,
    {
        Error { c_err: code }
    }
}

/// Interprets the return value of a libfabric call that reports success with `0`
/// and failure with a negated error number.
pub fn check_error(err: isize) -> (r: Result<(), Error>)
    requires
        err <= 0,
        -err <= u32::MAX,
        err > isize::MIN,
    ensures
        err == 0 ==> r == Ok::<(), Error>(()),
        err != 0 ==> r == Err::<(), Error>(Error { c_err: (-err) as u32 }),
{
    if err != 0 {
        Err(Error::from_err_code((-err) as u32))
    } else {
        Ok(())
    }
}

} // verus!
