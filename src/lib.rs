//! Safe, verified core of an address parsing and normalization library.
//!
//! The native parser is an opaque capability: this crate holds everything
//! around it that can be stated and proved, namely the checks on what crosses
//! the native boundary, the conversion of native results into owned values,
//! the one-time initialization guard, and the data-directory lifecycle.
//! Calls into the native library are passed in as closures, so every
//! function here is proved for whatever the native side answers.

pub mod acquire;
pub mod data;
pub mod error;
pub mod init;
pub mod native;
pub mod normalizer;
pub mod parser;
pub mod postal;
pub mod profiling;
pub mod status;
pub mod text;
pub mod types;

pub use error::Error;
pub use normalizer::{AddressNormalizer, NormalizedAddress};
pub use parser::{AddressParser, ParsedAddress};
pub use postal::{LibPostal, LibPostalConfig, LibPostalConfigBuilder};
pub use types::{AddressHint, Country, Language, NormalizationLevel};
