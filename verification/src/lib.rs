//! Command-line argument surface for the fge encoder and decoder binaries.
//!
//! A user-supplied token selects either a well-known stream (standard input or
//! standard output) or a filesystem path. Input paths must exist, output paths
//! must not. The resolvers here take the result of the filesystem probe as a
//! plain boolean, so their behaviour is stated and proved for every outcome of
//! that probe; the host binary performs the probe and opens the streams.

pub mod casefold;
pub mod settings;
pub mod source;

pub use settings::Decoder;
pub use settings::Encoder;
pub use source::CliError;
pub use source::Input;
pub use source::Output;
