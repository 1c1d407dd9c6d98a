//! A build-time asset pipeline: it stages every file discovered under a
//! source tree, threads each one through an ordered chain of content
//! transforms, and derives a manifest of identifier-to-public-path constants
//! for the transformed tree.

pub mod compress;
pub mod config;
pub mod file;
pub mod hash;
pub mod laws;
pub mod ident;
pub mod paths;

pub use compress::CompressPreprocessor;
pub use compress::ConfigCompressPreprocessorExt;
pub use config::Config;
pub use config::Preprocessor;
pub use config::configure;
pub use file::File;
pub use file::Preprocess;
pub use config::ManifestEntry;
pub use config::RunOutput;
pub use config::SourceFile;
pub use hash::ConfigHashPreprocessorExt;
pub use hash::HashPreprocessor;
pub use ident::sanitize_identifier;
pub use paths::AssetPath;
