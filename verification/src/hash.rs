//! The hash-rename transform: embeds a hex-encoded checksum of the current
//! content in the destination file name, just before the extension.

use crate::config::Config;
use crate::config::ConfigV;
use crate::config::Preprocessor;
use crate::file::File;
use crate::file::FileV;
use crate::file::Preprocess;
use crate::paths::extension_of;
use crate::paths::spec_extension;
use crate::paths::spec_with_extension;
use crate::paths::with_extension;
use vstd::bytes::spec_u32_to_le_bytes;
use vstd::bytes::u32_to_le_bytes;
use vstd::prelude::*;
use vstd::string::StringExecFns;

verus! {

/// The CRC32 checksum of a byte sequence.
pub uninterp spec fn crc32_of(content: Seq<u8>) -> u32;

/// Relies on crc32fast::hash: the CRC32 checksum of the bytes, a function of
/// the bytes alone.
#[verifier::external_body]
fn crc32(content: &[u8]) -> (r: u32)
    ensures
        r == crc32_of(content@),
{
    crc32fast::hash(content)
}

/// One lowercase hexadecimal digit.
pub open spec fn spec_hex_digit(n: u8) -> char {
    if n == 0 {
        '0'
    } else if n == 1 {
        '1'
    } else if n == 2 {
        '2'
    } else if n == 3 {
        '3'
    } else if n == 4 {
        '4'
    } else if n == 5 {
        '5'
    } else if n == 6 {
        '6'
    } else if n == 7 {
        '7'
    } else if n == 8 {
        '8'
    } else if n == 9 {
        '9'
    } else if n == 10 {
        'a'
    } else if n == 11 {
        'b'
    } else if n == 12 {
        'c'
    } else if n == 13 {
        'd'
    } else if n == 14 {
        'e'
    } else {
        'f'
    }
}

/// Lowercase hexadecimal text: two digits per byte, high nibble first.
pub open spec fn spec_hex(bytes: Seq<u8>) -> Seq<char>
    decreases bytes.len(),
{
    if bytes.len() == 0 {
        Seq::empty()
    } else {
        spec_hex(bytes.drop_last()) + seq![
            spec_hex_digit(bytes.last() / 16),
            spec_hex_digit(bytes.last() % 16),
        ]
    }
}

/// Relies on hex::encode: lowercase hexadecimal, two digits per byte, high
/// nibble first.
#[verifier::external_body]
fn hex_encode(bytes: &[u8]) -> (r: String)
    ensures
        r@ == spec_hex(bytes@),
{
    hex::encode(bytes)
}

/// The text the rename embeds: the content's CRC32 checksum, little-endian,
/// hex-encoded.
pub open spec fn spec_hash_hex(content: Seq<u8>) -> Seq<char> {
    spec_hex(spec_u32_to_le_bytes(crc32_of(content)))
}

/// The rename itself: the checksum slips into the destination file name
/// immediately before its existing extension, or becomes the sole extension
/// when the name has none. Only the destination's file name changes.
pub open spec fn spec_hash_rename(f: FileV) -> FileV {
    let h = spec_hash_hex(f.content);
    let new_ext = match spec_extension(f.dest.last()) {
        Some(e) => h + "."@ + e,
        None => h,
    };
    FileV {
        dest: f.dest.update(f.dest.len() - 1, spec_with_extension(f.dest.last(), new_ext)),
        ..f
    }
}

/// The transform that renames the destination after the content's checksum;
/// the content itself is untouched.
#[derive(Clone, Copy)]
pub struct HashPreprocessor;

impl HashPreprocessor {
    fn new() -> (r: HashPreprocessor)
        ensures
            r == (HashPreprocessor),
    {
        HashPreprocessor
    }
}

impl Preprocess for HashPreprocessor {
    open spec fn spec_preprocess(&self, f: FileV) -> FileV {
        spec_hash_rename(f)
    }

    fn preprocess(&self, file: &mut File) {
        let checksum = crc32(file.content.as_slice());
        let le_bytes = u32_to_le_bytes(checksum);
        let h = hex_encode(le_bytes.as_slice());
        let dest_len = file.dest.len();
        let dest_name = file.dest.get(dest_len - 1);
        proof {
            assert(dest_name@ == old(file)@.dest.last());
        }
        let new_ext = match extension_of(dest_name.as_str()) {
            Some(e) => {
                let mut t = h;
                t.append(".");
                t.append(e.as_str());
                t
            },
            None => h,
        };
        let renamed = with_extension(dest_name.as_str(), new_ext.as_str());
        file.dest.set_last(renamed);
        proof {
            reveal_strlit(".");
            assert(file@ =~= self.spec_preprocess(old(file)@));
            assert(file@.dest.drop_last() =~= old(file)@.dest.drop_last());
        }
    }
}

/// Fluent registration of the hash-rename transform.
pub trait ConfigHashPreprocessorExt: Sized {
    /// What registering the transform does to the configuration.
    spec fn hash_ensures(self, r: Config) -> bool;

    fn hash(self) -> (r: Config)
        ensures
            self.hash_ensures(r),
    ;
}

impl ConfigHashPreprocessorExt for Config {
    open spec fn hash_ensures(self, r: Config) -> bool {
        r@ == (ConfigV {
            preprocessors: self@.preprocessors.push(Preprocessor::Hash(HashPreprocessor)),
            ..self@
        })
    }

    fn hash(self) -> (r: Config) {
        self.add_preprocessor(Preprocessor::Hash(HashPreprocessor::new()))
    }
}

} // verus!
