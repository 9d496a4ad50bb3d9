//! Response compression: deciding whether an outgoing response should be
//! compressed, with which encoding, and wrapping its body accordingly.
pub mod compressor;
pub mod encoding;
pub mod fairing;
pub mod media;
pub mod negotiate;
pub mod response;
pub mod text;
