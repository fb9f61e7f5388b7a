//! Externally-located tabular files: their schema record and the
//! derived table access options the execution engine consumes.
//!
//! Deriving the options succeeds exactly when the stored file-format
//! and compression tags denote a supported combination; the tags are
//! matched case-insensitively.

use vstd::prelude::*;
use vstd::pervasive::cloned;
use vstd::string::*;
use crate::duration::spec_lower;
use crate::schema::{PhysicalType, TskvTableSchema};

verus! {

/// One column of an external file's physical schema.
#[derive(Debug, PartialEq, Eq)]
pub struct PhysicalField {
    pub name: String,
    pub data_type: PhysicalType,
    pub nullable: bool,
}

impl Clone for PhysicalField {
    /// A clone is the same field.
    fn clone(&self) -> (r: Self)
        ensures
            r == *self,
    {
        PhysicalField { name: self.name.clone(), data_type: self.data_type, nullable: self.nullable }
    }
}

/// Schema of an externally-located tabular file.
#[derive(Debug, PartialEq, Eq)]
pub struct ExternalTableSchema {
    pub db: String,
    pub name: String,
    pub file_compression_type: String,
    pub file_type: String,
    pub location: String,
    pub target_partitions: usize,
    pub table_partition_cols: Vec<String>,
    pub has_header: bool,
    pub delimiter: u8,
    pub schema: Vec<PhysicalField>,
}

impl Clone for ExternalTableSchema {
    /// A clone holds the same values, field for field.
    fn clone(&self) -> (r: Self)
        ensures
            r.db == self.db,
            r.name == self.name,
            r.file_compression_type == self.file_compression_type,
            r.file_type == self.file_type,
            r.location == self.location,
            r.target_partitions == self.target_partitions,
            r.table_partition_cols@ == self.table_partition_cols@,
            r.has_header == self.has_header,
            r.delimiter == self.delimiter,
            r.schema@ == self.schema@,
    {
        let table_partition_cols = self.table_partition_cols.clone();
        proof {
            assert(table_partition_cols@ =~= self.table_partition_cols@) by {
                assert forall|i: int|
                    0 <= i < table_partition_cols@.len() implies table_partition_cols@[i]
                    == self.table_partition_cols@[i] by {
                    assert(cloned::<String>(
                        self.table_partition_cols@[i],
                        table_partition_cols@[i],
                    ));
                }
            }
        }
        let schema = self.schema.clone();
        proof {
            assert(schema@ =~= self.schema@) by {
                assert forall|i: int| 0 <= i < schema@.len() implies schema@[i]
                    == self.schema@[i] by {
                    assert(cloned::<PhysicalField>(self.schema@[i], schema@[i]));
                }
            }
        }
        ExternalTableSchema {
            db: self.db.clone(),
            name: self.name.clone(),
            file_compression_type: self.file_compression_type.clone(),
            file_type: self.file_type.clone(),
            location: self.location.clone(),
            target_partitions: self.target_partitions,
            table_partition_cols,
            has_header: self.has_header,
            delimiter: self.delimiter,
            schema,
        }
    }
}

/// A table is either a time-series table or an external file.
#[derive(Debug, PartialEq, Eq)]
pub enum TableSchema {
    TsKvTableSchema(TskvTableSchema),
    ExternalTableSchema(ExternalTableSchema),
}

impl TableSchema {
    /// The table's name.
    pub fn name(&self) -> (r: String)
        ensures
            match *self {
                TableSchema::TsKvTableSchema(s) => r@ == s.spec_name(),
                TableSchema::ExternalTableSchema(s) => r == s.name,
            },
    {
        match self {
            TableSchema::TsKvTableSchema(schema) => schema.name().clone(),
            TableSchema::ExternalTableSchema(schema) => schema.name.clone(),
        }
    }

    /// The owning database's name.
    pub fn db(&self) -> (r: String)
        ensures
            match *self {
                TableSchema::TsKvTableSchema(s) => r@ == s.spec_db(),
                TableSchema::ExternalTableSchema(s) => r == s.db,
            },
    {
        match self {
            TableSchema::TsKvTableSchema(schema) => schema.db().clone(),
            TableSchema::ExternalTableSchema(schema) => schema.db.clone(),
        }
    }
}

/// Supported file formats of an external table.
#[derive(Debug, Clone, Copy, PartialEq, Eq, Structural)]
pub enum FileKind {
    Csv,
    Json,
    Parquet,
    Avro,
}

/// Supported compressions of an external file.
#[derive(Debug, Clone, Copy, PartialEq, Eq, Structural)]
pub enum CompressionKind {
    Uncompressed,
    Gzip,
    Bzip2,
    Xz,
    Zstd,
}

/// How an external file is read, per format.
#[derive(Debug, Clone, Copy, PartialEq, Eq, Structural)]
pub enum FileFormatOptions {
    Csv { has_header: bool, delimiter: u8, compression: CompressionKind },
    Json { compression: CompressionKind },
    Parquet,
    Avro,
}

/// The derived table access options view the execution engine consumes.
#[derive(Debug, PartialEq, Eq)]
pub struct ListingOptions {
    pub format: FileFormatOptions,
    pub file_extension: String,
    pub table_partition_cols: Vec<String>,
    pub target_partitions: usize,
    pub collect_stat: bool,
}

/// The UTF-8 bytes of a string value.
pub open spec fn spec_str_bytes(s: String) -> Seq<u8> {
    vstd::utf8::encode_utf8(s@)
}

/// The ASCII lower-case image of a byte string.
pub open spec fn spec_lower_seq(s: Seq<u8>) -> Seq<u8> {
    s.map_values(|b: u8| spec_lower(b))
}

/// The bytes of `csv`.
pub open spec fn csv_tag() -> Seq<u8> {
    seq![99u8, 115u8, 118u8]
}

/// The bytes of `json`.
pub open spec fn json_tag() -> Seq<u8> {
    seq![106u8, 115u8, 111u8, 110u8]
}

/// The bytes of `parquet`.
pub open spec fn parquet_tag() -> Seq<u8> {
    seq![112u8, 97u8, 114u8, 113u8, 117u8, 101u8, 116u8]
}

/// The bytes of `avro`.
pub open spec fn avro_tag() -> Seq<u8> {
    seq![97u8, 118u8, 114u8, 111u8]
}

/// The file format a tag denotes, case-insensitively; anything else is
/// unsupported.
pub open spec fn spec_file_kind_of(s: Seq<u8>) -> Option<FileKind> {
    let l = spec_lower_seq(s);
    if l == csv_tag() {
        Some(FileKind::Csv)
    } else if l == json_tag() {
        Some(FileKind::Json)
    } else if l == parquet_tag() {
        Some(FileKind::Parquet)
    } else if l == avro_tag() {
        Some(FileKind::Avro)
    } else {
        None
    }
}

/// The bytes of `uncompressed`.
pub open spec fn uncompressed_tag() -> Seq<u8> {
    seq![117u8, 110u8, 99u8, 111u8, 109u8, 112u8, 114u8, 101u8, 115u8, 115u8, 101u8, 100u8]
}

/// The bytes of `gzip`.
pub open spec fn gzip_tag() -> Seq<u8> {
    seq![103u8, 122u8, 105u8, 112u8]
}

/// The bytes of `gz`.
pub open spec fn gz_tag() -> Seq<u8> {
    seq![103u8, 122u8]
}

/// The bytes of `bzip2`.
pub open spec fn bzip2_tag() -> Seq<u8> {
    seq![98u8, 122u8, 105u8, 112u8, 50u8]
}

/// The bytes of `bz2`.
pub open spec fn bz2_tag() -> Seq<u8> {
    seq![98u8, 122u8, 50u8]
}

/// The bytes of `xz`.
pub open spec fn xz_tag() -> Seq<u8> {
    seq![120u8, 122u8]
}

/// The bytes of `zstd`.
pub open spec fn zstd_tag() -> Seq<u8> {
    seq![122u8, 115u8, 116u8, 100u8]
}

/// The bytes of `zst`.
pub open spec fn zst_tag() -> Seq<u8> {
    seq![122u8, 115u8, 116u8]
}

/// The compression a tag denotes, case-insensitively; the empty tag
/// means uncompressed; anything else is unsupported.
pub open spec fn spec_compression_of(s: Seq<u8>) -> Option<CompressionKind> {
    let l = spec_lower_seq(s);
    if l.len() == 0 || l == uncompressed_tag() {
        Some(CompressionKind::Uncompressed)
    } else if l == gzip_tag() || l == gz_tag() {
        Some(CompressionKind::Gzip)
    } else if l == bzip2_tag() || l == bz2_tag() {
        Some(CompressionKind::Bzip2)
    } else if l == xz_tag() {
        Some(CompressionKind::Xz)
    } else if l == zstd_tag() || l == zst_tag() {
        Some(CompressionKind::Zstd)
    } else {
        None
    }
}

/// Whether a format tolerates a compression: columnar formats are read
/// uncompressed only.
pub open spec fn spec_compatible(k: FileKind, c: CompressionKind) -> bool {
    match k {
        FileKind::Csv => true,
        FileKind::Json => true,
        FileKind::Parquet => c == CompressionKind::Uncompressed,
        FileKind::Avro => c == CompressionKind::Uncompressed,
    }
}

/// The extension suffix of a compression.
pub open spec fn spec_compression_suffix(c: CompressionKind) -> Seq<char> {
    match c {
        CompressionKind::Uncompressed => ""@,
        CompressionKind::Gzip => ".gz"@,
        CompressionKind::Bzip2 => ".bz2"@,
        CompressionKind::Xz => ".xz"@,
        CompressionKind::Zstd => ".zst"@,
    }
}

/// The file extension of a supported, compatible format/compression
/// pair.
pub open spec fn spec_extension(k: FileKind, c: CompressionKind) -> Seq<char> {
    match k {
        FileKind::Csv => ".csv"@ + spec_compression_suffix(c),
        FileKind::Json => ".json"@ + spec_compression_suffix(c),
        FileKind::Parquet => ".parquet"@,
        FileKind::Avro => ".avro"@,
    }
}

/// The ASCII lower-case image of a string's bytes.
fn lower_bytes(s: &str) -> (r: Vec<u8>)
    ensures
        r@ == spec_lower_seq(s.spec_bytes()),
{
    let b = s.as_bytes();
    let n = b.len();
    let mut out: Vec<u8> = Vec::new();
    let mut i: usize = 0;
    while i < n
        invariant
            n == b@.len(),
            0 <= i <= n,
            out@.len() == i,
            forall|j: int| 0 <= j < i ==> out@[j] == spec_lower(#[trigger] b@[j]),
        decreases n - i,
    {
        let c = b[i];
        let l = if 65 <= c && c <= 90 {
            c + 32
        } else {
            c
        };
        out.push(l);
        i = i + 1;
    }
    proof {
        assert(out@ =~= spec_lower_seq(b@));
    }
    out
}

/// Whether `b` holds exactly the bytes of `pat`.
fn bytes_match(b: &Vec<u8>, pat: &[u8]) -> (r: bool)
    ensures
        r == (b@ == pat@),
{
    let n = b.len();
    if n != pat.len() {
        proof {
            assert(b@ != pat@);
        }
        return false;
    }
    let mut i: usize = 0;
    while i < n
        invariant
            n == b@.len(),
            n == pat@.len(),
            0 <= i <= n,
            forall|j: int| 0 <= j < i ==> b@[j] == pat@[j],
        decreases n - i,
    {
        if b[i] != pat[i] {
            return false;
        }
        i = i + 1;
    }
    proof {
        assert(b@ =~= pat@);
    }
    true
}

/// The file format a tag denotes, case-insensitively.
pub fn file_kind_of(tag: &str) -> (r: Option<FileKind>)
    ensures
        r == spec_file_kind_of(tag.spec_bytes()),
{
    let l = lower_bytes(tag);
    if bytes_match(&l, &[99u8, 115u8, 118u8]) {
        proof {
            assert(l@ =~= csv_tag());
        }
        Some(FileKind::Csv)
    } else if bytes_match(&l, &[106u8, 115u8, 111u8, 110u8]) {
        proof {
            assert(l@ =~= json_tag());
        }
        Some(FileKind::Json)
    } else if bytes_match(&l, &[112u8, 97u8, 114u8, 113u8, 117u8, 101u8, 116u8]) {
        proof {
            assert(l@ =~= parquet_tag());
        }
        Some(FileKind::Parquet)
    } else if bytes_match(&l, &[97u8, 118u8, 114u8, 111u8]) {
        proof {
            assert(l@ =~= avro_tag());
        }
        Some(FileKind::Avro)
    } else {
        None
    }
}

/// The compression a tag denotes, case-insensitively.
pub fn compression_of(tag: &str) -> (r: Option<CompressionKind>)
    ensures
        r == spec_compression_of(tag.spec_bytes()),
{
    let l = lower_bytes(tag);
    if l.len() == 0 || bytes_match(
        &l,
        &[117u8, 110u8, 99u8, 111u8, 109u8, 112u8, 114u8, 101u8, 115u8, 115u8, 101u8, 100u8],
    ) {
        Some(CompressionKind::Uncompressed)
    } else if bytes_match(&l, &[103u8, 122u8, 105u8, 112u8]) || bytes_match(&l, &[103u8, 122u8]) {
        Some(CompressionKind::Gzip)
    } else if bytes_match(&l, &[98u8, 122u8, 105u8, 112u8, 50u8]) || bytes_match(
        &l,
        &[98u8, 122u8, 50u8],
    ) {
        Some(CompressionKind::Bzip2)
    } else if bytes_match(&l, &[120u8, 122u8]) {
        Some(CompressionKind::Xz)
    } else if bytes_match(&l, &[122u8, 115u8, 116u8, 100u8]) || bytes_match(
        &l,
        &[122u8, 115u8, 116u8],
    ) {
        Some(CompressionKind::Zstd)
    } else {
        None
    }
}

/// The extension text of a supported, compatible pair.
fn extension_of(k: FileKind, c: CompressionKind) -> (r: String)
    ensures
        r@ == spec_extension(k, c),
{
    let mut s = match k {
        FileKind::Csv => String::from_str(".csv"),
        FileKind::Json => String::from_str(".json"),
        FileKind::Parquet => String::from_str(".parquet"),
        FileKind::Avro => String::from_str(".avro"),
    };
    match k {
        FileKind::Csv | FileKind::Json => {
            match c {
                CompressionKind::Uncompressed => {
                    proof {
                        assert(s@ =~= s@ + ""@) by {
                            reveal_strlit("");
                        }
                    }
                },
                CompressionKind::Gzip => s.append(".gz"),
                CompressionKind::Bzip2 => s.append(".bz2"),
                CompressionKind::Xz => s.append(".xz"),
                CompressionKind::Zstd => s.append(".zst"),
            }
        },
        _ => {},
    }
    s
}

impl ExternalTableSchema {
    /// Derive the table access options view.  This succeeds exactly
    /// when the stored file-format tag and compression tag are
    /// supported and compatible; the derived view carries the format
    /// with the stored reader settings, the full file extension, and
    /// the partitioning of this schema.
    pub fn table_options(&self) -> (r: Result<ListingOptions, String>)
        ensures
            r is Ok <==> (spec_file_kind_of(spec_str_bytes(self.file_type)) matches Some(k)
                && spec_compression_of(spec_str_bytes(self.file_compression_type)) matches Some(c)
                && spec_compatible(k, c)),
            r matches Ok(opts) ==> {
                &&& spec_file_kind_of(spec_str_bytes(self.file_type)) matches Some(k)
                    && spec_compression_of(spec_str_bytes(self.file_compression_type)) matches Some(c)
                    && {
                    &&& opts.format == spec_format_options(k, c, self.has_header, self.delimiter)
                    &&& opts.file_extension@ == spec_extension(k, c)
                }
                &&& opts.table_partition_cols@ == self.table_partition_cols@
                &&& opts.target_partitions == self.target_partitions
                &&& opts.collect_stat == false
            },
    {
        let kind = match file_kind_of(self.file_type.as_str()) {
            Some(k) => k,
            None => {
                return Err(String::from_str("Only known FileTypes can be ListingTables!"));
            },
        };
        let compression = match compression_of(self.file_compression_type.as_str()) {
            Some(c) => c,
            None => {
                return Err(
                    String::from_str("Only known FileCompressionTypes can be ListingTables!"),
                );
            },
        };
        let compatible = match kind {
            FileKind::Csv => true,
            FileKind::Json => true,
            FileKind::Parquet => matches!(compression, CompressionKind::Uncompressed),
            FileKind::Avro => matches!(compression, CompressionKind::Uncompressed),
        };
        if !compatible {
            return Err(
                String::from_str("File compression type can not be set for this file type"),
            );
        }
        let format = match kind {
            FileKind::Csv => FileFormatOptions::Csv {
                has_header: self.has_header,
                delimiter: self.delimiter,
                compression,
            },
            FileKind::Json => FileFormatOptions::Json { compression },
            FileKind::Parquet => FileFormatOptions::Parquet,
            FileKind::Avro => FileFormatOptions::Avro,
        };
        let mut cols: Vec<String> = Vec::new();
        let n = self.table_partition_cols.len();
        let mut i: usize = 0;
        while i < n
            invariant
                n == self.table_partition_cols@.len(),
                0 <= i <= n,
                cols@.len() == i,
                forall|j: int| 0 <= j < i ==> cols@[j] == self.table_partition_cols@[j],
            decreases n - i,
        {
            cols.push(self.table_partition_cols[i].clone());
            i = i + 1;
        }
        proof {
            assert(cols@ =~= self.table_partition_cols@);
        }
        Ok(
            ListingOptions {
                format,
                file_extension: extension_of(kind, compression),
                table_partition_cols: cols,
                target_partitions: self.target_partitions,
                collect_stat: false,
            },
        )
    }
}

/// The reader settings a supported format keeps in the derived view.
pub open spec fn spec_format_options(
    k: FileKind,
    c: CompressionKind,
    has_header: bool,
    delimiter: u8,
) -> FileFormatOptions {
    match k {
        FileKind::Csv => FileFormatOptions::Csv { has_header, delimiter, compression: c },
        FileKind::Json => FileFormatOptions::Json { compression: c },
        FileKind::Parquet => FileFormatOptions::Parquet,
        FileKind::Avro => FileFormatOptions::Avro,
    }
}

} // verus!
