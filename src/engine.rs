use vstd::prelude::*;

use tickv::error_codes::ErrorCode;
use tickv::success_codes::SuccessCode;

verus! {

/// The engine's error vocabulary, with its variants visible to proofs.
#[verifier::external_type_specification]
pub struct ExErrorCode(tickv::error_codes::ErrorCode);

/// The engine's success vocabulary, with its variants visible to proofs.
#[verifier::external_type_specification]
pub struct ExSuccessCode(tickv::success_codes::SuccessCode);

/// The engine asks to be resumed after a flash access completes: it names
/// the access, or reports the operation queued behind one.
pub open spec fn is_not_ready(ret: Result<SuccessCode, ErrorCode>) -> bool {
    match ret {
        Ok(SuccessCode::Queued) => true,
        Err(ErrorCode::ReadNotReady(_)) => true,
        Err(ErrorCode::WriteNotReady(_)) => true,
        Err(ErrorCode::EraseNotReady(_)) => true,
        _ => false,
    }
}

/// The engine has finished the operation, successfully or not.
pub open spec fn is_terminal(ret: Result<SuccessCode, ErrorCode>) -> bool {
    !is_not_ready(ret)
}

} // verus!
