//! Adapts decoded raster images to a Sixel encoder.
//!
//! Three parts do the work. The pixel extractor ([`pixels`]) turns a decoded
//! image into a flat buffer of RGB samples. The output sink adapter
//! ([`sink`]) gathers the chunks that the encoder pushes out. The encoding
//! bridge ([`bridge`]) decides, answer by answer, which operation on the
//! encoder or the sink is due next and how the call ends.
//!
//! The encoder and the sink are the caller's: this crate never calls them.

use vstd::prelude::*;
use image::DynamicImage;
use crate::bridge::initial;
use crate::bridge::Bridge;
use crate::pixels::image_height;
use crate::pixels::image_width;
use crate::pixels::is_buffer_of;
use crate::pixels::PixelBuffer;

pub mod bridge;
pub mod error;
pub mod pixels;
pub mod sink;
pub mod text;

verus! {

/// The Sixel adaptation layer.
#[derive(Copy, Clone, Debug)]
pub struct Sixel;

impl Sixel {
    /// Begins one encode call for `image`: its pixel buffer, made afresh, and
    /// a bridge that has acquired nothing and accumulated nothing.
    pub fn begin(image: &DynamicImage) -> (call: (PixelBuffer, Bridge))
        ensures
            call.0.spec_width() == image_width(*image),
            call.0.spec_height() == image_height(*image),
            is_buffer_of(*image, call.0@),
            image_width(*image) == 0 || image_height(*image) == 0 ==> call.0@ == Seq::<u8>::empty(),
            call.1@ == initial(),
    {
        (PixelBuffer::from_image(image), Bridge::new())
    }
}

} // verus!
