//! Integer-result flattening.
//!
//! In integer-result mode a `Result` crosses the boundary as a signed
//! status code: success is the one reserved value zero, and a failure
//! carries its own non-zero code.  A non-unit success value travels in a
//! separate out-slot that is only written on success — callers must check
//! the status before reading it, which the optional slot models here.

use vstd::prelude::*;

verus! {

/// A boundary error: a non-zero status code.
#[derive(Structural, PartialEq, Eq, Clone, Copy, Debug)]
pub struct IntError {
    pub code: i32,
}

/// A valid boundary error never uses the reserved success value.
pub open spec fn wf_int_error(e: IntError) -> bool {
    e.code != 0
}

/// The reserved success status.
pub open spec fn spec_success_code() -> int {
    0
}

/// Encodes a unit result as a status code: zero on success, the error's
/// own code on failure.
pub fn into_int_result(r: Result<(), IntError>) -> (code: i32)
    requires
        (match r {
            Result::Err(e) => wf_int_error(e),
            Result::Ok(_) => true,
        }),
    ensures
        (match r {
            Result::Ok(_) => code as int == spec_success_code(),
            Result::Err(e) => code == e.code && code != 0,
        }),
{
    match r {
        Result::Ok(_) => 0,
        Result::Err(e) => e.code,
    }
}

/// Decodes a status code into a unit result: the reserved value always
/// reconstructs the success case, every other value its error.
pub fn from_int_result_empty(code: i32) -> (r: Result<(), IntError>)
    ensures
        code == 0 ==> r == Result::<(), IntError>::Ok(()),
        code != 0 ==> r == Result::<(), IntError>::Err(IntError { code }),
{
    if code == 0 {
        Result::Ok(())
    } else {
        Result::Err(IntError { code })
    }
}

/// Encodes a valued result as a status code plus an out-slot: the slot is
/// written only on success.
pub fn into_int_out_result<T>(r: Result<T, IntError>) -> (res: (i32, Option<T>))
    requires
        (match r {
            Result::Err(e) => wf_int_error(e),
            Result::Ok(_) => true,
        }),
    ensures
        (match r {
            Result::Ok(v) => res.0 as int == spec_success_code() && res.1 == Option::Some(v),
            Result::Err(e) => res.0 == e.code && res.0 != 0 && res.1 is None,
        }),
{
    match r {
        Result::Ok(v) => (0, Option::Some(v)),
        Result::Err(e) => (e.code, Option::None),
    }
}

/// Decodes a status code and out-slot: on the reserved value the slot
/// holds the success value; on any other the error is reconstructed and
/// the slot is never read.
pub fn from_int_result<T>(code: i32, ok_out: Option<T>) -> (r: Result<T, IntError>)
    requires
        code == 0 ==> ok_out is Some,
    ensures
        code == 0 ==> r == Result::<T, IntError>::Ok(ok_out->0),
        code != 0 ==> r == Result::<T, IntError>::Err(IntError { code }),
{
    if code == 0 {
        match ok_out {
            Option::Some(v) => Result::Ok(v),
            Option::None => {
                proof {
                    assert(false);
                }
                Result::Err(IntError { code: 1 })
            },
        }
    } else {
        Result::Err(IntError { code })
    }
}

/// Sum-type flattening round trip: for every unit result with a valid
/// error, decoding the encoded status reconstructs it; in particular the
/// reserved success value is distinct from every error encoding and always
/// decodes to the unit success case.
pub fn int_result_round_trip(r: Result<(), IntError>) -> (back: Result<(), IntError>)
    requires
        (match r {
            Result::Err(e) => wf_int_error(e),
            Result::Ok(_) => true,
        }),
    ensures
        back == r,
{
    let back = from_int_result_empty(into_int_result(r));
    proof {
        match r {
            Result::Err(e) => {
                assert(e == (IntError { code: e.code }));
            },
            Result::Ok(u) => {
                assert(u == ());
            },
        }
    }
    back
}

/// The valued round trip: both the success and the error case come back
/// bit-identical through the status-and-slot encoding.
pub fn int_out_result_round_trip<T>(r: Result<T, IntError>) -> (back: Result<T, IntError>)
    requires
        (match r {
            Result::Err(e) => wf_int_error(e),
            Result::Ok(_) => true,
        }),
    ensures
        back == r,
{
    let ghost r0 = r;
    let (code, ok_out) = into_int_out_result(r);
    let back = from_int_result(code, ok_out);
    proof {
        match r0 {
            Result::Err(e) => {
                assert(e == (IntError { code: e.code }));
            },
            Result::Ok(_) => {},
        }
    }
    back
}

} // verus!
