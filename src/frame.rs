use vstd::prelude::*;

use crate::bytes::{native_bytes_of, words_as_bytes};

verus! {

/// The number of words of a view-projection matrix.
pub const MATRIX_WORDS: usize = 16;

/// The number of words of a camera position.
pub const POSITION_WORDS: usize = 3;

/// Why the per-frame input cannot be written.
#[derive(Clone, Copy, Debug, PartialEq, Eq, Structural)]
pub enum FrameInputError {
    /// The view-projection matrix does not have sixteen entries.
    ViewProjectionLength { len: usize },
    /// The camera position does not have three entries.
    CameraPositionLength { len: usize },
}

/// The per-frame uniform: the matrix, the camera position, and one word of padding (the
/// bit pattern of 0.0).
pub open spec fn frame_words(view_projection: Seq<u32>, camera_position: Seq<u32>) -> Seq<u32> {
    view_projection + camera_position + seq![0u32]
}

pub open spec fn frame_input_error(view_projection: Seq<u32>, camera_position: Seq<u32>) -> Option<FrameInputError> {
    if view_projection.len() != MATRIX_WORDS {
        Some(FrameInputError::ViewProjectionLength { len: view_projection.len() as usize })
    } else if camera_position.len() != POSITION_WORDS {
        Some(FrameInputError::CameraPositionLength { len: camera_position.len() as usize })
    } else {
        None
    }
}

/// The bytes of the per-frame uniform, from the bit patterns of the matrix's sixteen floats
/// and of the camera position's three. Inputs of other lengths are refused.
pub fn frame_uniform_bytes(view_projection: &Vec<u32>, camera_position: &Vec<u32>) -> (r: Result<Vec<u8>, FrameInputError>)
    ensures
        r is Ok <==> frame_input_error(view_projection@, camera_position@) is None,
        r matches Err(e) ==> frame_input_error(view_projection@, camera_position@) == Some(e),
        r matches Ok(b) ==> native_bytes_of(frame_words(view_projection@, camera_position@), b@),
{
    if view_projection.len() != MATRIX_WORDS {
        return Err(FrameInputError::ViewProjectionLength { len: view_projection.len() });
    }
    if camera_position.len() != POSITION_WORDS {
        return Err(FrameInputError::CameraPositionLength { len: camera_position.len() });
    }
    let mut words: Vec<u32> = Vec::new();
    let mut i: usize = 0;
    while i < MATRIX_WORDS
        invariant
            i <= MATRIX_WORDS,
            view_projection@.len() == MATRIX_WORDS,
            words@ == view_projection@.take(i as int),
        decreases MATRIX_WORDS - i,
    {
        words.push(view_projection[i]);
        assert(words@ =~= view_projection@.take(i + 1));
        i += 1;
    }
    let mut j: usize = 0;
    while j < POSITION_WORDS
        invariant
            j <= POSITION_WORDS,
            view_projection@.len() == MATRIX_WORDS,
            camera_position@.len() == POSITION_WORDS,
            words@ == view_projection@ + camera_position@.take(j as int),
        decreases POSITION_WORDS - j,
    {
        words.push(camera_position[j]);
        assert(words@ =~= view_projection@ + camera_position@.take(j + 1));
        j += 1;
    }
    words.push(0);
    assert(words@ =~= frame_words(view_projection@, camera_position@));
    Ok(words_as_bytes(words.as_slice()))
}

} // verus!
