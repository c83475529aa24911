use vstd::prelude::*;

use crate::maths::Int2;

verus! {

/// Decoded pixels: rows of `dimensions.x` texels of `channel_count` bytes.
#[derive(Clone)]
pub struct Image {
    pub data: Vec<u8>,
    pub dimensions: Int2,
    pub channel_count: i32,
}

} // verus!
