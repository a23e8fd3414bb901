//! The reading of what the root-pivot system call returns.

use crate::text::{decimal, push_signed};
use vstd::prelude::*;
use vstd::string::StringExecFns;

verus! {

/// A system call that came back with a code other than zero.
#[derive(Debug)]
pub struct SyscallError {
    code: i64,
}

impl SyscallError {
    /// The code that the call returned.
    pub closed spec fn spec_code(&self) -> i64 {
        self.code
    }

    /// What the error says: the code, in decimal.
    pub open spec fn spec_message(&self) -> Seq<char> {
        "Syscall error: code "@ + decimal(self.spec_code() as int)
    }

    /// The code that the call returned.
    #[verifier::when_used_as_spec(spec_code)]
    pub fn code(&self) -> (code: i64)
        ensures
            code == self.spec_code(),
    {
        self.code
    }

    /// What the error says: the code, in decimal.
    pub fn message(&self) -> (s: String)
        ensures
            s@ == self.spec_message(),
    {
        let mut s = String::from_str("Syscall error: code ");
        push_signed(&mut s, self.code);
        s
    }

    /// What kind of error this is.
    pub fn description(&self) -> (s: &'static str)
        ensures
            s@ == "Syscall error!"@,
    {
        "Syscall error!"
    }
}

/// Reads the code that the root-pivot call returned: zero is success, and
/// any other code is a failure that carries it.
pub fn pivot_root(code: i64) -> (r: Result<i64, SyscallError>)
    ensures
        code == 0 ==> r == Ok::<i64, SyscallError>(0),
        code != 0 ==> r is Err && r->Err_0.spec_code() == code,
{
    if code != 0 {
        Err(SyscallError { code })
    } else {
        Ok(0)
    }
}

} // verus!
