//! Per-column compression/encoding tags carried by the schema model.

use vstd::prelude::*;

verus! {

/// How a column's values are encoded on disk.  The schema model only
/// stores the tag; the storage engine interprets it.
#[derive(Debug, Clone, Copy, PartialEq, Eq, Hash, Structural)]
pub enum Encoding {
    Default,
    Null,
    Delta,
    Quantile,
    Gzip,
    Bzip,
    Gorilla,
    Snappy,
    Zstd,
    Zlib,
    BitPack,
}

/// The canonical text of an encoding tag.
pub open spec fn spec_encoding_text(e: Encoding) -> Seq<char> {
    match e {
        Encoding::Default => "DEFAULT"@,
        Encoding::Null => "NULL"@,
        Encoding::Delta => "DELTA"@,
        Encoding::Quantile => "QUANTILE"@,
        Encoding::Gzip => "GZIP"@,
        Encoding::Bzip => "BZIP"@,
        Encoding::Gorilla => "GORILLA"@,
        Encoding::Snappy => "SNAPPY"@,
        Encoding::Zstd => "ZSTD"@,
        Encoding::Zlib => "ZLIB"@,
        Encoding::BitPack => "BITPACK"@,
    }
}

impl Encoding {
    /// The canonical text of the encoding tag.
    pub fn as_str(&self) -> (r: &'static str)
        ensures
            r@ == spec_encoding_text(*self),
    {
        match self {
            Encoding::Default => "DEFAULT",
            Encoding::Null => "NULL",
            Encoding::Delta => "DELTA",
            Encoding::Quantile => "QUANTILE",
            Encoding::Gzip => "GZIP",
            Encoding::Bzip => "BZIP",
            Encoding::Gorilla => "GORILLA",
            Encoding::Snappy => "SNAPPY",
            Encoding::Zstd => "ZSTD",
            Encoding::Zlib => "ZLIB",
            Encoding::BitPack => "BITPACK",
        }
    }
}

} // verus!
