//! Camera-side loop-back checking.
//!
//! The display loop-back test points a capture device at the output under
//! test; a frame that decodes but is essentially black means the path is
//! connected without a picture. Frame analysis is pure; the capture loop
//! outside feeds it frames and keeps the latest status as a plain code.

use vstd::prelude::*;

verus! {

/// What the capture device currently shows.
#[derive(Clone, Copy, Debug, PartialEq, Eq, Structural)]
pub enum CameraStatus {
    /// No capture device is open.
    Disconnected,
    /// The device delivers frames, but only black ones.
    Connected,
    /// The device delivers a real picture.
    HasImage,
}

/// Per-channel level below which a pixel counts as black; tolerates
/// sensor noise.
pub open spec fn black_threshold() -> int {
    10
}

/// An RGB image is black when every complete three-byte pixel stays at or
/// below the threshold in all three channels; trailing bytes of a
/// truncated pixel are ignored.
pub open spec fn image_black_spec(data: Seq<u8>) -> bool {
    forall|p: int|
        0 <= p && 3 * p + 2 < data.len() ==> #[trigger] data[3 * p] <= black_threshold() && data[3
            * p + 1] <= black_threshold() && data[3 * p + 2] <= black_threshold()
}

/// Decides whether an RGB frame is essentially black.
pub fn is_image_black(image_data: &[u8]) -> (r: bool)
    ensures
        r == image_black_spec(image_data@),
{
    let n: usize = image_data.len();
    if n < 3 {
        return true;
    }
    let mut i: usize = 0;
    while i <= n - 3
        invariant
            n >= 3,
            n == image_data@.len(),
            0 <= i,
            i % 3 == 0,
            forall|p: int|
                0 <= p && 3 * p < i ==> #[trigger] image_data@[3 * p] <= black_threshold()
                    && image_data@[3 * p + 1] <= black_threshold() && image_data@[3 * p + 2]
                    <= black_threshold(),
        decreases n - i,
    {
        let r = image_data[i];
        let g = image_data[i + 1];
        let b = image_data[i + 2];
        if r > 10 || g > 10 || b > 10 {
            proof {
                let p = i as int / 3;
                assert(3 * p == i);
                assert(!(image_data@[3 * p] <= black_threshold() && image_data@[3 * p + 1]
                    <= black_threshold() && image_data@[3 * p + 2] <= black_threshold()));
            }
            return false;
        }
        proof {
            assert forall|p: int| 0 <= p && 3 * p < i + 3 implies #[trigger] image_data@[3 * p]
                <= black_threshold() && image_data@[3 * p + 1] <= black_threshold() && image_data@[3
                * p + 2] <= black_threshold() by {
                if 3 * p >= i {
                    assert(3 * p == i);
                }
            }
        }
        i = i + 3;
    }
    proof {
        assert forall|p: int| 0 <= p && 3 * p + 2 < n implies #[trigger] image_data@[3 * p]
            <= black_threshold() && image_data@[3 * p + 1] <= black_threshold() && image_data@[3 * p
            + 2] <= black_threshold() by {
            assert(3 * p < i);
        }
    }
    true
}

/// The status after one capture attempt: a failed frame read means the
/// device is gone; a frame that cannot be decoded or is black shows a
/// connected path without a picture; anything else is a live picture.
pub fn classify_frame(frame_ok: bool, decoded_black: Option<bool>) -> (r: CameraStatus)
    ensures
        r == (if !frame_ok {
            CameraStatus::Disconnected
        } else {
            match decoded_black {
                Some(false) => CameraStatus::HasImage,
                _ => CameraStatus::Connected,
            }
        }),
{
    if !frame_ok {
        CameraStatus::Disconnected
    } else {
        match decoded_black {
            Some(false) => CameraStatus::HasImage,
            _ => CameraStatus::Connected,
        }
    }
}

/// The code the shared status cell stores for a status.
pub open spec fn camera_code_spec(status: CameraStatus) -> int {
    match status {
        CameraStatus::Disconnected => 0,
        CameraStatus::Connected => 1,
        CameraStatus::HasImage => 2,
    }
}

/// Encodes a status for the shared status cell.
pub fn set_camera_status(status: CameraStatus) -> (r: i32)
    ensures
        r == camera_code_spec(status),
{
    match status {
        CameraStatus::Disconnected => 0,
        CameraStatus::Connected => 1,
        CameraStatus::HasImage => 2,
    }
}

/// Decodes the shared status cell; an unknown code reads as disconnected.
pub fn get_camera_status(code: i32) -> (r: CameraStatus)
    ensures
        r == (if code == 1 {
            CameraStatus::Connected
        } else if code == 2 {
            CameraStatus::HasImage
        } else {
            CameraStatus::Disconnected
        }),
{
    if code == 1 {
        CameraStatus::Connected
    } else if code == 2 {
        CameraStatus::HasImage
    } else {
        CameraStatus::Disconnected
    }
}

} // verus!
