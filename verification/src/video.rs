use vstd::prelude::*;
use crate::error::KvmError;

verus! {

/// What a screenshot attempt may observe before decoding starts.
#[derive(Clone, Copy, Debug, PartialEq, Eq, Structural)]
pub enum CaptureState {
    NoTrack,
    TrackAttached,
}

/// Whether a capture attempt may start at all: without an attached
/// inbound video track there is nothing to read, and the attempt fails
/// with `NoFrame` (the same failure a decode timeout produces).
pub fn capture_precheck(state: CaptureState) -> (r: Result<(), KvmError>)
    ensures
        state == CaptureState::TrackAttached ==> r == Ok::<(), KvmError>(()),
        state == CaptureState::NoTrack ==> r == Err::<(), KvmError>(KvmError::NoFrame),
{
    match state {
        CaptureState::TrackAttached => Ok(()),
        CaptureState::NoTrack => Err(KvmError::NoFrame),
    }
}

/// Settles a capture attempt from what the decoding pipeline handed
/// back within the timeout: the PNG bytes of the first decoded frame,
/// or `NoFrame` when the timeout elapsed with nothing decoded.
pub fn capture_outcome(frame: Option<Vec<u8>>) -> (r: Result<Vec<u8>, KvmError>)
    ensures
        (match frame {
            Some(png) => r matches Ok(v) && v@ == png@,
            None => r == Err::<Vec<u8>, KvmError>(KvmError::NoFrame),
        }),
{
    match frame {
        Some(png) => Ok(png),
        None => Err(KvmError::NoFrame),
    }
}

} // verus!
