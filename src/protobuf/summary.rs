//! Types nested in `Summary`.
use vstd::prelude::*;

verus! {

#[derive(Clone, Debug, PartialEq, Default)]
pub struct Image {
    /// Dimensions of the image.
    pub height: i32,
    pub width: i32,
    /// Valid colorspace values are
    ///   1 - grayscale
    ///   2 - grayscale + alpha
    ///   3 - RGB
    ///   4 - RGBA
    ///   5 - DIGITAL_YUV
    ///   6 - BGRA
    pub colorspace: i32,
    /// Image data in encoded format.  All image formats supported by
    /// image_codec::CoderUtil can be stored here.
    pub encoded_image_string: Vec<u8>,
}

#[derive(Clone, Debug, PartialEq, Default)]
pub struct Audio {
    /// Sample rate of the audio in Hz.
    /// Each value is the bit pattern of an IEEE 754 binary32 number.
    pub sample_rate: u32,
    /// Number of channels of audio.
    pub num_channels: i64,
    /// Length of the audio in frames (samples per channel).
    pub length_frames: i64,
    /// Encoded audio data and its associated RFC 2045 content type (e.g.
    /// "audio/wav").
    pub encoded_audio_string: Vec<u8>,
    pub content_type: String,
}

#[derive(Debug, PartialEq, Default)]
pub struct Value {
    /// This field is deprecated and will not be set.
    pub node_name: String,
    /// Tag name for the data. Used by TensorBoard plugins to organize data. Tags
    /// are often organized by scope (which contains slashes to convey
    /// hierarchy). For example: foo/bar/0
    pub tag: String,
    /// Contains metadata on the summary value such as which plugins may use it.
    /// Take note that many summary values may lack a metadata field. This is
    /// because the FileWriter only keeps a metadata object on the first summary
    /// value with a certain tag for each tag. TensorBoard then remembers which
    /// tags are associated with which plugins. This saves space.
    pub metadata: Option<super::SummaryMetadata>,
    /// Value associated with the tag.
    pub value: Option<super::summary_value::Value>,
}

} // verus!
