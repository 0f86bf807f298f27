//! Interoperability with C return values.
use vstd::prelude::*;

verus! {

/// An error that a `libibverbs` call reported: the OS error code, and an
/// explanation where the library has one for the call.
#[derive(Clone, Copy, Debug, PartialEq, Eq)]
pub struct VerbsError {
    /// The OS error code.
    pub code: i32,
    /// A customized explanation of the error.
    pub explanation: Option<&'static str>,
}

/// Converts a C return value to a `Result`: `Ok` for 0, the error code
/// otherwise.
pub fn from_c_ret(ret: i32) -> (r: Result<(), VerbsError>)
    ensures
        r is Ok <==> ret == 0,
        r matches Err(e) ==> e == (VerbsError { code: ret, explanation: None }),
{
    if ret == 0 {
        Ok(())
    } else {
        from_c_err(ret)
    }
}

/// Converts a non-zero C return value to an error.
pub fn from_c_err<T>(code: i32) -> (r: Result<T, VerbsError>)
    ensures
        r == Err::<T, VerbsError>(VerbsError { code, explanation: None }),
{
    Err(VerbsError { code, explanation: None })
}

/// Converts a C return value to a `Result`, with the customized explanation
/// that `explain` gives for the error code, if any.
pub fn from_c_ret_explained(ret: i32, explain: impl FnOnce(i32) -> Option<&'static str>) -> (r:
    Result<(), VerbsError>)
    requires
        ret != 0 ==> call_requires(explain, (ret,)),
    ensures
        r is Ok <==> ret == 0,
        r matches Err(e) ==> e.code == ret && call_ensures(explain, (ret,), e.explanation),
{
    if ret == 0 {
        Ok(())
    } else {
        let msg = explain(ret);
        Err(VerbsError { code: ret, explanation: msg })
    }
}

} // verus!
