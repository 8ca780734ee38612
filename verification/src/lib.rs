//! Best-effort static inspection of encoded video sample chunks.
//!
//! A seek pipeline hands this crate one demuxed sample chunk (Annex-B framed
//! H.264 bytes) at a time and asks, without running a decoder: is this chunk
//! the start of a closed group of pictures, and if so, what are the stream's
//! coded dimensions and pixel-format parameters?
//!
//! The crate is organised along the data path:
//! - [`annexb`]: a streaming splitter that turns raw bytes into NAL units,
//!   fed window by window, with a proof that window boundaries cannot change
//!   the result;
//! - [`sps`]: decoding of a sequence parameter set and the pure mapping from
//!   its bit-fields to externally meaningful encoding details;
//! - [`inspection`]: the per-unit accumulator and the public entry points
//!   that assemble the final verdict;
//! - [`laws`]: proofs of the chunk-level properties the verdict obeys.

pub mod annexb;
pub mod inspection;
pub mod laws;
pub mod sps;

pub use annexb::NalSplitter;
pub use inspection::GopStartDetection;
pub use inspection::H264InspectionState;
pub use inspection::VideoChunkInspection;
pub use inspection::VideoChunkInspectionError;
pub use inspection::VideoCodec;
pub use inspection::inspect_h264_annexb_sample;
pub use inspection::inspect_video_chunk;
pub use sps::ChromaSubsamplingModes;
pub use sps::CropOffsets;
pub use sps::SpsFields;
pub use sps::VideoEncodingDetails;
pub use sps::encoding_details_from_h264_sps;
