//! The compression transform: replaces a staged file's content with its
//! brotli encoding at a high-compression, large-window setting.

use crate::config::Config;
use crate::config::ConfigV;
use crate::config::Preprocessor;
use crate::file::File;
use crate::file::FileV;
use crate::file::Preprocess;
use std::io::Write;
use vstd::prelude::*;

verus! {

/// The brotli encoding of a byte sequence at this pipeline's fixed quality
/// and window settings.
pub uninterp spec fn compressed_of(content: Seq<u8>) -> Seq<u8>;

/// Relies on brotli::CompressorWriter at quality 11 and window 22, writing
/// into a Vec: the encoded bytes depend on the input bytes alone, and writing
/// into a Vec cannot fail.
#[verifier::external_body]
fn brotli_compress(content: &[u8]) -> (r: Vec<u8>)
    ensures
        r@ == compressed_of(content@),
{
    let mut out = Vec::new();
    brotli::CompressorWriter::new(&mut out, 0, 11, 22)
        .write_all(content)
        .expect("error compressing file content");
    out
}

/// The transform that swaps a staged file's content for its compressed
/// encoding; the destination name is untouched.
#[derive(Clone, Copy)]
pub struct CompressPreprocessor;

impl CompressPreprocessor {
    pub fn new() -> (r: CompressPreprocessor)
        ensures
            r == (CompressPreprocessor),
    {
        CompressPreprocessor
    }
}

impl Preprocess for CompressPreprocessor {
    open spec fn spec_preprocess(&self, f: FileV) -> FileV {
        FileV { content: compressed_of(f.content), ..f }
    }

    fn preprocess(&self, file: &mut File) {
        let out = brotli_compress(file.content.as_slice());
        file.content = out;
    }
}

/// Fluent registration of the compression transform.
pub trait ConfigCompressPreprocessorExt: Sized {
    /// What registering the transform does to the configuration.
    spec fn compress_ensures(self, r: Self) -> bool;

    fn compress(self) -> (r: Self)
        ensures
            self.compress_ensures(r),
    ;
}

impl ConfigCompressPreprocessorExt for Config {
    open spec fn compress_ensures(self, r: Config) -> bool {
        r@ == (ConfigV {
            preprocessors: self@.preprocessors.push(
                Preprocessor::Compress(CompressPreprocessor),
            ),
            ..self@
        })
    }

    fn compress(self) -> (r: Config) {
        self.add_preprocessor(Preprocessor::Compress(CompressPreprocessor::new()))
    }
}

} // verus!
