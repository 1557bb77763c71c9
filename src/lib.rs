//! Proof-of-payment pipeline: request validation, the argument blob handed to the
//! proof program, journal decoding, the fulfillment wait and the pipeline's stages.
pub mod hexcodec;
pub mod encoding;
pub mod types;
pub mod journal;
pub mod market;
pub mod pipeline;
