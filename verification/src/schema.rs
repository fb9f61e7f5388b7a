//! The typed catalog model: databases, time-series tables and their columns.
//!
//! A time-series table keeps an ordered list of columns together with a
//! name-to-position index; names are unique inside a table, columns are
//! only appended, and appending an existing name is a no-op.  Field-only
//! derivations (count, dense id-to-position map) ignore tag and time
//! columns.

use vstd::prelude::*;
use vstd::string::*;
use std::collections::HashMap;
use crate::codec::Encoding;
use crate::duration::{Duration, DurationUnit, Precision};
use crate::{ColumnId, SchemaId, ValueType};

verus! {

/// Role of a column in a time-series table: indexed label, mandatory
/// timestamp, or measured value of a primitive type.
#[derive(Debug, Clone, Copy, PartialEq, Eq, Hash, Structural)]
pub enum ColumnType {
    Tag,
    Time,
    Field(ValueType),
}

/// The physical (columnar) type a column takes in the execution engine's
/// schema; tag/time semantics are not recoverable from it alone.
#[derive(Debug, Clone, Copy, PartialEq, Eq, Hash, Structural)]
pub enum PhysicalType {
    Utf8,
    TimestampNanosecond,
    Float64,
    Int64,
    UInt64,
    Boolean,
    Null,
}

/// The physical type a column type maps to.
pub open spec fn spec_to_physical(t: ColumnType) -> PhysicalType {
    match t {
        ColumnType::Tag => PhysicalType::Utf8,
        ColumnType::Time => PhysicalType::TimestampNanosecond,
        ColumnType::Field(ValueType::Float) => PhysicalType::Float64,
        ColumnType::Field(ValueType::Integer) => PhysicalType::Int64,
        ColumnType::Field(ValueType::Unsigned) => PhysicalType::UInt64,
        ColumnType::Field(ValueType::String) => PhysicalType::Utf8,
        ColumnType::Field(ValueType::Boolean) => PhysicalType::Boolean,
        ColumnType::Field(ValueType::Unknown) => PhysicalType::Null,
    }
}

/// The column type a physical type is read back as: exactly the five
/// supported field types; never a tag or time column.
pub open spec fn spec_from_physical(p: PhysicalType) -> Result<ColumnType, &'static str> {
    match p {
        PhysicalType::Float64 => Ok(ColumnType::Field(ValueType::Float)),
        PhysicalType::Int64 => Ok(ColumnType::Field(ValueType::Integer)),
        PhysicalType::UInt64 => Ok(ColumnType::Field(ValueType::Unsigned)),
        PhysicalType::Utf8 => Ok(ColumnType::Field(ValueType::String)),
        PhysicalType::Boolean => Ok(ColumnType::Field(ValueType::Boolean)),
        _ => Err("Error field type not supported"),
    }
}

impl ColumnType {
    /// The physical type this column type maps to.
    pub fn to_physical(&self) -> (r: PhysicalType)
        ensures
            r == spec_to_physical(*self),
    {
        match self {
            ColumnType::Tag => PhysicalType::Utf8,
            ColumnType::Time => PhysicalType::TimestampNanosecond,
            ColumnType::Field(ValueType::Float) => PhysicalType::Float64,
            ColumnType::Field(ValueType::Integer) => PhysicalType::Int64,
            ColumnType::Field(ValueType::Unsigned) => PhysicalType::UInt64,
            ColumnType::Field(ValueType::String) => PhysicalType::Utf8,
            ColumnType::Field(ValueType::Boolean) => PhysicalType::Boolean,
            ColumnType::Field(ValueType::Unknown) => PhysicalType::Null,
        }
    }

    /// Read a column type back from a physical type; fails for physical
    /// types that no supported field type maps to.
    pub fn try_from_physical(p: PhysicalType) -> (r: Result<ColumnType, &'static str>)
        ensures
            r == spec_from_physical(p),
    {
        match p {
            PhysicalType::Float64 => Ok(ColumnType::Field(ValueType::Float)),
            PhysicalType::Int64 => Ok(ColumnType::Field(ValueType::Integer)),
            PhysicalType::UInt64 => Ok(ColumnType::Field(ValueType::Unsigned)),
            PhysicalType::Utf8 => Ok(ColumnType::Field(ValueType::String)),
            PhysicalType::Boolean => Ok(ColumnType::Field(ValueType::Boolean)),
            _ => Err("Error field type not supported"),
        }
    }

    /// Short text of the column type.
    pub fn as_str(&self) -> (r: &'static str)
        ensures
            r@ == spec_type_text(*self),
    {
        match self {
            ColumnType::Tag => "tag",
            ColumnType::Time => "time",
            ColumnType::Field(ValueType::Integer) => "i64",
            ColumnType::Field(ValueType::Unsigned) => "u64",
            ColumnType::Field(ValueType::Float) => "f64",
            ColumnType::Field(ValueType::Boolean) => "bool",
            ColumnType::Field(ValueType::String) => "string",
            ColumnType::Field(ValueType::Unknown) => "Error filed type not supported",
        }
    }

    /// The numeric code of a field type; 0 for anything else.
    pub fn field_type(&self) -> (r: u8)
        ensures
            r == spec_field_type_code(*self),
    {
        match self {
            ColumnType::Field(ValueType::Float) => 0,
            ColumnType::Field(ValueType::Integer) => 1,
            ColumnType::Field(ValueType::Unsigned) => 2,
            ColumnType::Field(ValueType::Boolean) => 3,
            ColumnType::Field(ValueType::String) => 4,
            _ => 0,
        }
    }

    /// The column type a numeric code denotes.
    pub fn from_i32(field_type: i32) -> (r: ColumnType)
        ensures
            r == spec_type_of_code(field_type),
    {
        match field_type {
            0 => ColumnType::Field(ValueType::Float),
            1 => ColumnType::Field(ValueType::Integer),
            2 => ColumnType::Field(ValueType::Unsigned),
            3 => ColumnType::Field(ValueType::Boolean),
            4 => ColumnType::Field(ValueType::String),
            5 => ColumnType::Time,
            _ => ColumnType::Field(ValueType::Unknown),
        }
    }

    /// Whether this is the tag role.
    pub fn is_tag(&self) -> (r: bool)
        ensures
            r == (*self is Tag),
    {
        matches!(self, ColumnType::Tag)
    }

    /// Whether this is the time role.
    pub fn is_time(&self) -> (r: bool)
        ensures
            r == (*self is Time),
    {
        matches!(self, ColumnType::Time)
    }

    /// Whether this is a field role.
    pub fn is_field(&self) -> (r: bool)
        ensures
            r == (*self is Field),
    {
        matches!(self, ColumnType::Field(_))
    }
}

/// The short text of a column type.
pub open spec fn spec_type_text(t: ColumnType) -> Seq<char> {
    match t {
        ColumnType::Tag => "tag"@,
        ColumnType::Time => "time"@,
        ColumnType::Field(ValueType::Integer) => "i64"@,
        ColumnType::Field(ValueType::Unsigned) => "u64"@,
        ColumnType::Field(ValueType::Float) => "f64"@,
        ColumnType::Field(ValueType::Boolean) => "bool"@,
        ColumnType::Field(ValueType::String) => "string"@,
        ColumnType::Field(ValueType::Unknown) => "Error filed type not supported"@,
    }
}

/// The text of a physical type.
pub open spec fn spec_physical_text(p: PhysicalType) -> Seq<char> {
    match p {
        PhysicalType::Utf8 => "Utf8"@,
        PhysicalType::TimestampNanosecond => "Timestamp(Nanosecond)"@,
        PhysicalType::Float64 => "Float64"@,
        PhysicalType::Int64 => "Int64"@,
        PhysicalType::UInt64 => "UInt64"@,
        PhysicalType::Boolean => "Boolean"@,
        PhysicalType::Null => "Null"@,
    }
}

impl PhysicalType {
    /// The text of the physical type.
    pub fn as_str(&self) -> (r: &'static str)
        ensures
            r@ == spec_physical_text(*self),
    {
        match self {
            PhysicalType::Utf8 => "Utf8",
            PhysicalType::TimestampNanosecond => "Timestamp(Nanosecond)",
            PhysicalType::Float64 => "Float64",
            PhysicalType::Int64 => "Int64",
            PhysicalType::UInt64 => "UInt64",
            PhysicalType::Boolean => "Boolean",
            PhysicalType::Null => "Null",
        }
    }
}

/// The numeric code of a field type; 0 for anything else.
pub open spec fn spec_field_type_code(t: ColumnType) -> u8 {
    match t {
        ColumnType::Field(ValueType::Float) => 0u8,
        ColumnType::Field(ValueType::Integer) => 1u8,
        ColumnType::Field(ValueType::Unsigned) => 2u8,
        ColumnType::Field(ValueType::Boolean) => 3u8,
        ColumnType::Field(ValueType::String) => 4u8,
        _ => 0u8,
    }
}

/// The column type a numeric code denotes.
pub open spec fn spec_type_of_code(c: i32) -> ColumnType {
    if c == 0 {
        ColumnType::Field(ValueType::Float)
    } else if c == 1 {
        ColumnType::Field(ValueType::Integer)
    } else if c == 2 {
        ColumnType::Field(ValueType::Unsigned)
    } else if c == 3 {
        ColumnType::Field(ValueType::Boolean)
    } else if c == 4 {
        ColumnType::Field(ValueType::String)
    } else if c == 5 {
        ColumnType::Time
    } else {
        ColumnType::Field(ValueType::Unknown)
    }
}

/// One column of a time-series table.
#[derive(Debug, PartialEq, Eq, Hash)]
pub struct TableColumn {
    pub id: ColumnId,
    pub name: String,
    pub column_type: ColumnType,
    pub encoding: Encoding,
}

impl Clone for TableColumn {
    /// A clone is the same column.
    fn clone(&self) -> (r: Self)
        ensures
            r == *self,
    {
        TableColumn {
            id: self.id,
            name: self.name.clone(),
            column_type: self.column_type,
            encoding: self.encoding,
        }
    }
}

impl TableColumn {
    /// A column with every part given.
    pub fn new(id: ColumnId, name: String, column_type: ColumnType, encoding: Encoding) -> (r:
        TableColumn)
        ensures
            r.id == id,
            r.name == name,
            r.column_type == column_type,
            r.encoding == encoding,
    {
        TableColumn { id, name, column_type, encoding }
    }

    /// A column with id 0 and default encoding, to be filled in by the
    /// catalog collaborator.
    pub fn new_with_default(name: String, column_type: ColumnType) -> (r: TableColumn)
        ensures
            r.id == 0,
            r.name == name,
            r.column_type == column_type,
            r.encoding == Encoding::Default,
    {
        TableColumn { id: 0, name, column_type, encoding: Encoding::Default }
    }

    /// The mandatory timestamp column.
    pub fn new_time_column(id: ColumnId) -> (r: TableColumn)
        ensures
            r.id == id,
            r.name@ == "time"@,
            r.column_type == ColumnType::Time,
            r.encoding == Encoding::Default,
    {
        TableColumn {
            id,
            name: String::from_str("time"),
            column_type: ColumnType::Time,
            encoding: Encoding::Default,
        }
    }

    /// A tag column with default encoding.
    pub fn new_tag_column(id: ColumnId, name: String) -> (r: TableColumn)
        ensures
            r.id == id,
            r.name == name,
            r.column_type == ColumnType::Tag,
            r.encoding == Encoding::Default,
    {
        TableColumn { id, name, column_type: ColumnType::Tag, encoding: Encoding::Default }
    }

    /// Every column may hold no value except the time column.
    pub fn nullable(&self) -> (r: bool)
        ensures
            r == !(self.column_type is Time),
    {
        !matches!(self.column_type, ColumnType::Time)
    }
}

/// Whether the names of `s` are pairwise distinct.
pub open spec fn distinct_names(s: Seq<TableColumn>) -> bool {
    forall|i: int, j: int| 0 <= i < j < s.len() ==> (#[trigger] s[i].name)@ != (#[trigger] s[j].name)@
}

/// Whether some column of `s` is named `name`.
pub open spec fn has_col_named(s: Seq<TableColumn>, name: Seq<char>) -> bool {
    exists|i: int| 0 <= i < s.len() && (#[trigger] s[i].name)@ == name
}

/// Position of the first column of `s` named `name`.
pub open spec fn col_index_of(s: Seq<TableColumn>, name: Seq<char>) -> Option<int>
    decreases s.len(),
{
    if s.len() == 0 {
        None
    } else if s[0].name@ == name {
        Some(0int)
    } else {
        match col_index_of(s.drop_first(), name) {
            Some(i) => Some(i + 1),
            None => None,
        }
    }
}

/// The field columns of `s`, in declaration order.
pub open spec fn field_cols(s: Seq<TableColumn>) -> Seq<TableColumn>
    decreases s.len(),
{
    if s.len() == 0 {
        Seq::empty()
    } else {
        let rest = field_cols(s.drop_last());
        if s.last().column_type is Field {
            rest.push(s.last())
        } else {
            rest
        }
    }
}

/// The ids of the field columns of `s`, in declaration order.
pub open spec fn field_ids(s: Seq<TableColumn>) -> Seq<ColumnId> {
    field_cols(s).map_values(|c: TableColumn| c.id)
}

/// How many entries of `ids` are strictly below `x`: the position `x`
/// takes when the ids are ranked in ascending order.
pub open spec fn rank_of(ids: Seq<ColumnId>, x: ColumnId) -> nat
    decreases ids.len(),
{
    if ids.len() == 0 {
        0
    } else {
        rank_of(ids.drop_last(), x) + if ids.last() < x {
            1nat
        } else {
            0nat
        }
    }
}

/// Schema of one time-series table: ordered columns with unique names,
/// plus the database and table names and a catalog-assigned revision.
#[derive(Debug, Clone, PartialEq, Eq)]
pub struct TskvTableSchema {
    pub db: String,
    pub name: String,
    pub schema_id: SchemaId,
    columns: Vec<TableColumn>,
}

impl Default for TskvTableSchema {
    /// An empty, unnamed schema of the `public` database, revision 0.
    fn default() -> (r: TskvTableSchema)
        ensures
            r.spec_db() == "public"@,
            r.spec_name() == Seq::<char>::empty(),
            r.spec_schema_id() == 0,
            r.spec_columns() == Seq::<TableColumn>::empty(),
            r.wf(),
    {
        TskvTableSchema {
            db: String::from_str("public"),
            name: String::new(),
            schema_id: 0,
            columns: Vec::new(),
        }
    }
}

impl TskvTableSchema {
    /// Column names are pairwise distinct; the name-to-position index is
    /// the first (only) occurrence of each name.
    pub open spec fn wf(self) -> bool {
        distinct_names(self.spec_columns())
    }

    /// The ordered column list.
    pub closed spec fn spec_columns(self) -> Seq<TableColumn> {
        self.columns@
    }

    /// The database name.
    pub closed spec fn spec_db(self) -> Seq<char> {
        self.db@
    }

    /// The table name.
    pub closed spec fn spec_name(self) -> Seq<char> {
        self.name@
    }

    /// The schema revision.
    pub closed spec fn spec_schema_id(self) -> SchemaId {
        self.schema_id
    }

    /// The database name.
    pub fn db(&self) -> (r: &String)
        ensures
            r@ == self.spec_db(),
    {
        &self.db
    }

    /// The table name.
    pub fn name(&self) -> (r: &String)
        ensures
            r@ == self.spec_name(),
    {
        &self.name
    }

    /// The schema revision.
    pub fn schema_id(&self) -> (r: SchemaId)
        ensures
            r == self.spec_schema_id(),
    {
        self.schema_id
    }

    /// A schema with revision 0 over the given columns.
    pub fn new(db: String, name: String, columns: Vec<TableColumn>) -> (r: TskvTableSchema)
        requires
            distinct_names(columns@),
        ensures
            r.spec_db() == db@,
            r.spec_name() == name@,
            r.spec_schema_id() == 0,
            r.spec_columns() == columns@,
            r.wf(),
    {
        TskvTableSchema { db, name, schema_id: 0, columns }
    }

    /// Append a column; a column whose name is already present is not
    /// added and the schema is left exactly as it was.
    pub fn add_column(&mut self, col: TableColumn)
        requires
            old(self).wf(),
        ensures
            final(self).wf(),
            has_col_named(old(self).spec_columns(), col.name@) ==> *final(self) == *old(self),
            !has_col_named(old(self).spec_columns(), col.name@) ==> final(self).spec_columns()
                == old(self).spec_columns().push(col),
            final(self).spec_columns() == append_column(old(self).spec_columns(), col),
            final(self).spec_db() == old(self).spec_db(),
            final(self).spec_name() == old(self).spec_name(),
            final(self).spec_schema_id() == old(self).spec_schema_id(),
    {
        let n = self.columns.len();
        let mut i: usize = 0;
        while i < n
            invariant
                *self == *old(self),
                self.wf(),
                n == self.columns@.len(),
                0 <= i <= n,
                forall|j: int| 0 <= j < i ==> (#[trigger] self.columns@[j].name)@ != col.name@,
            decreases n - i,
        {
            if string_eq(&self.columns[i].name, &col.name) {
                proof {
                    assert(has_col_named(self.columns@, col.name@)) by {
                        assert((self.columns@[i as int].name)@ == col.name@);
                    }
                }
                return ;
            }
            i = i + 1;
        }
        proof {
            assert(!has_col_named(self.columns@, col.name@));
        }
        let ghost olds = self.columns@;
        self.columns.push(col);
        proof {
            assert forall|x: int, y: int|
                0 <= x < y < self.columns@.len() implies (#[trigger] self.columns@[x].name)@ != (
            #[trigger] self.columns@[y].name)@ by {
                if y < olds.len() {
                    assert((olds[x].name)@ != (olds[y].name)@);
                }
            }
        }
    }

    /// The column named `name`, if any.
    pub fn column(&self, name: &str) -> (r: Option<&TableColumn>)
        ensures
            match r {
                Some(c) => has_col_named(self.spec_columns(), name@) && (col_index_of(
                    self.spec_columns(),
                    name@,
                ) matches Some(i) && *c == self.spec_columns()[i]),
                None => !has_col_named(self.spec_columns(), name@),
            },
    {
        match self.column_index(name) {
            Some(i) => Some(&self.columns[i]),
            None => None,
        }
    }

    /// Position of the column named `name`, if any.
    pub fn column_index(&self, name: &str) -> (r: Option<usize>)
        ensures
            match r {
                Some(i) => col_index_of(self.spec_columns(), name@) == Some(i as int) && i
                    < self.spec_columns().len() && (self.spec_columns()[i as int].name)@ == name@
                    && has_col_named(self.spec_columns(), name@),
                None => !has_col_named(self.spec_columns(), name@) && col_index_of(
                    self.spec_columns(),
                    name@,
                ) is None,
            },
    {
        let n = self.columns.len();
        let mut i: usize = 0;
        while i < n
            invariant
                n == self.columns@.len(),
                0 <= i <= n,
                forall|j: int| 0 <= j < i ==> (#[trigger] self.columns@[j].name)@ != name@,
            decreases n - i,
        {
            if str_eq_string(name, &self.columns[i].name) {
                proof {
                    lemma_col_index_first_hit(self.columns@, name@, i as int);
                    assert(has_col_named(self.columns@, name@)) by {
                        assert((self.columns@[i as int].name)@ == name@);
                    }
                }
                return Some(i);
            }
            i = i + 1;
        }
        proof {
            lemma_col_index_none(self.columns@, name@);
        }
        None
    }

    /// The column at position `idx`, if any.
    pub fn column_by_index(&self, idx: usize) -> (r: Option<&TableColumn>)
        ensures
            match r {
                Some(c) => idx < self.spec_columns().len() && *c == self.spec_columns()[idx as int],
                None => idx >= self.spec_columns().len(),
            },
    {
        if idx < self.columns.len() {
            Some(&self.columns[idx])
        } else {
            None
        }
    }

    /// The ordered column list.
    pub fn columns(&self) -> (r: &Vec<TableColumn>)
        ensures
            r@ == self.spec_columns(),
    {
        &self.columns
    }

    /// The field columns only, in declaration order.
    pub fn fields(&self) -> (r: Vec<TableColumn>)
        ensures
            r@ == field_cols(self.spec_columns()),
    {
        let mut out: Vec<TableColumn> = Vec::new();
        let n = self.columns.len();
        let mut i: usize = 0;
        while i < n
            invariant
                n == self.columns@.len(),
                0 <= i <= n,
                out@ == field_cols(self.columns@.take(i as int)),
            decreases n - i,
        {
            proof {
                assert(self.columns@.take(i as int + 1).drop_last() =~= self.columns@.take(
                    i as int,
                ));
                assert(self.columns@.take(i as int + 1).last() == self.columns@[i as int]);
            }
            let c = &self.columns[i];
            if matches!(c.column_type, ColumnType::Field(_)) {
                out.push(c.clone());
                proof {
                    assert(out@ =~= field_cols(self.columns@.take(i as int + 1)));
                }
            }
            i = i + 1;
        }
        proof {
            assert(self.columns@.take(self.columns@.len() as int) =~= self.columns@);
        }
        out
    }

    /// How many columns are field columns.
    pub fn field_num(&self) -> (r: usize)
        ensures
            r == field_cols(self.spec_columns()).len(),
    {
        let n = self.columns.len();
        let mut count: usize = 0;
        let mut i: usize = 0;
        while i < n
            invariant
                n == self.columns@.len(),
                0 <= i <= n,
                count == field_cols(self.columns@.take(i as int)).len(),
                count <= i,
            decreases n - i,
        {
            proof {
                assert(self.columns@.take(i as int + 1).drop_last() =~= self.columns@.take(
                    i as int,
                ));
            }
            if matches!(self.columns[i].column_type, ColumnType::Field(_)) {
                count = count + 1;
            }
            i = i + 1;
        }
        proof {
            assert(self.columns@.take(self.columns@.len() as int) =~= self.columns@);
        }
        count
    }
}

/// Whether two strings hold the same text.
pub fn string_eq(a: &String, b: &String) -> (r: bool)
    ensures
        r == (a@ == b@),
{
    a.eq(b)
}

/// Whether a string slice and a string hold the same text.
pub fn str_eq_string(a: &str, b: &String) -> (r: bool)
    ensures
        r == (a@ == b@),
{
    let owned = a.to_owned();
    owned.eq(b)
}

/// A forward scan that stops at the first name hit finds the position
/// `col_index_of` denotes.
proof fn lemma_col_index_first_hit(s: Seq<TableColumn>, name: Seq<char>, i: int)
    requires
        0 <= i < s.len(),
        s[i].name@ == name,
        forall|j: int| 0 <= j < i ==> (#[trigger] s[j].name)@ != name,
    ensures
        col_index_of(s, name) == Some(i),
    decreases i,
{
    if i > 0 {
        lemma_col_index_first_hit(s.drop_first(), name, i - 1);
    }
}

/// When no column bears the name, `col_index_of` yields nothing.
proof fn lemma_col_index_none(s: Seq<TableColumn>, name: Seq<char>)
    requires
        forall|j: int| 0 <= j < s.len() ==> (#[trigger] s[j].name)@ != name,
    ensures
        col_index_of(s, name) is None,
        !has_col_named(s, name),
    decreases s.len(),
{
    if s.len() > 0 {
        lemma_col_index_none(s.drop_first(), name);
    }
}

/// Options of a database: retention, sharding, partition coverage,
/// replication and timestamp precision.
#[derive(Debug, Clone, Copy, PartialEq, Eq, Hash, Structural)]
pub struct DatabaseOptions {
    pub ttl: Duration,
    pub shard_num: u64,
    pub vnode_duration: Duration,
    pub replica: u64,
    pub precision: Precision,
}

/// The defaults a database is created with: one year of retention and
/// partition coverage, one shard, one replica, nanosecond precision.
pub open spec fn spec_default_database_options() -> DatabaseOptions {
    DatabaseOptions {
        ttl: Duration { time_num: 365, unit: DurationUnit::Day },
        shard_num: 1,
        vnode_duration: Duration { time_num: 365, unit: DurationUnit::Day },
        replica: 1,
        precision: Precision::NS,
    }
}

impl Default for DatabaseOptions {
    /// The documented defaults.
    fn default() -> (r: DatabaseOptions)
        ensures
            r == spec_default_database_options(),
    {
        DatabaseOptions {
            ttl: Duration { time_num: 365, unit: DurationUnit::Day },
            shard_num: 1,
            vnode_duration: Duration { time_num: 365, unit: DurationUnit::Day },
            replica: 1,
            precision: Precision::NS,
        }
    }
}

/// Schema of one database: its name and options.
#[derive(Debug, Clone, PartialEq, Eq, Hash)]
pub struct DatabaseSchema {
    pub name: String,
    pub config: DatabaseOptions,
}

impl DatabaseSchema {
    /// A database schema with the default options.
    pub fn new(name: &str) -> (r: DatabaseSchema)
        ensures
            r.name@ == name@,
            r.config == spec_default_database_options(),
    {
        DatabaseSchema { name: name.to_owned(), config: DatabaseOptions::default() }
    }
}

/// A rank never exceeds the entry count.
proof fn lemma_rank_le_len(ids: Seq<ColumnId>, x: ColumnId)
    ensures
        rank_of(ids, x) <= ids.len(),
    decreases ids.len(),
{
    if ids.len() > 0 {
        lemma_rank_le_len(ids.drop_last(), x);
    }
}

/// An entry of `ids` is never counted below itself, so its rank is
/// strictly below the entry count.
proof fn lemma_rank_contained_lt_len(ids: Seq<ColumnId>, x: ColumnId)
    requires
        ids.contains(x),
    ensures
        rank_of(ids, x) < ids.len(),
    decreases ids.len(),
{
    if ids.last() == x {
        lemma_rank_le_len(ids.drop_last(), x);
    } else {
        assert(ids.drop_last().contains(x)) by {
            let i = choose|i: int| 0 <= i < ids.len() && ids[i] == x;
            assert(ids.drop_last()[i] == x);
        }
        lemma_rank_contained_lt_len(ids.drop_last(), x);
    }
}

/// Ranking is monotone in the probe value.
proof fn lemma_rank_nondecreasing(ids: Seq<ColumnId>, a: ColumnId, b: ColumnId)
    requires
        a <= b,
    ensures
        rank_of(ids, a) <= rank_of(ids, b),
    decreases ids.len(),
{
    if ids.len() > 0 {
        lemma_rank_nondecreasing(ids.drop_last(), a, b);
    }
}

/// A contained entry ranks strictly below any larger probe value.
proof fn lemma_rank_strict_mono(ids: Seq<ColumnId>, a: ColumnId, b: ColumnId)
    requires
        ids.contains(a),
        a < b,
    ensures
        rank_of(ids, a) < rank_of(ids, b),
    decreases ids.len(),
{
    if ids.last() == a {
        lemma_rank_nondecreasing(ids.drop_last(), a, b);
    } else {
        assert(ids.drop_last().contains(a)) by {
            let i = choose|i: int| 0 <= i < ids.len() && ids[i] == a;
            assert(ids.drop_last()[i] == a);
        }
        lemma_rank_strict_mono(ids.drop_last(), a, b);
    }
}

/// The dense positions `fields_id` assigns lie below the field count,
/// and they ascend with the column id: a smaller id always takes a
/// smaller position, whatever order the columns were appended in.
pub proof fn lemma_fields_id_positions(ids: Seq<ColumnId>)
    ensures
        forall|x: ColumnId| ids.contains(x) ==> #[trigger] rank_of(ids, x) < ids.len(),
        forall|x: ColumnId, y: ColumnId|
            ids.contains(x) && x < y ==> #[trigger] rank_of(ids, x) < #[trigger] rank_of(ids, y),
{
    assert forall|x: ColumnId| ids.contains(x) implies #[trigger] rank_of(ids, x)
        < ids.len() by {
        lemma_rank_contained_lt_len(ids, x);
    }
    assert forall|x: ColumnId, y: ColumnId| ids.contains(x) && x < y implies #[trigger] rank_of(
        ids,
        x,
    ) < #[trigger] rank_of(ids, y) by {
        lemma_rank_strict_mono(ids, x, y);
    }
}

/// The schema that a whole sequence of appends leaves behind: each
/// append is a no-op when its name is already present.
pub open spec fn append_column(s: Seq<TableColumn>, c: TableColumn) -> Seq<TableColumn> {
    if has_col_named(s, c.name@) {
        s
    } else {
        s.push(c)
    }
}

/// Fold `append_column` over `cs`, in order.
pub open spec fn append_all(s: Seq<TableColumn>, cs: Seq<TableColumn>) -> Seq<TableColumn>
    decreases cs.len(),
{
    if cs.len() == 0 {
        s
    } else {
        append_column(append_all(s, cs.drop_last()), cs.last())
    }
}

/// A name is found in a concatenation exactly when either part holds it.
proof fn lemma_has_col_named_concat(s1: Seq<TableColumn>, s2: Seq<TableColumn>, name: Seq<char>)
    ensures
        has_col_named(s1 + s2, name) <==> (has_col_named(s1, name) || has_col_named(s2, name)),
{
    if has_col_named(s1, name) {
        let i = choose|i: int| 0 <= i < s1.len() && (#[trigger] s1[i].name)@ == name;
        assert(((s1 + s2)[i].name)@ == name);
    }
    if has_col_named(s2, name) {
        let i = choose|i: int| 0 <= i < s2.len() && (#[trigger] s2[i].name)@ == name;
        assert(((s1 + s2)[i + s1.len()].name)@ == name);
    }
    if has_col_named(s1 + s2, name) {
        let i = choose|i: int| 0 <= i < (s1 + s2).len() && (#[trigger] (s1 + s2)[i].name)@ == name;
        if i < s1.len() {
            assert((s1[i].name)@ == name);
        } else {
            assert((s2[i - s1.len()].name)@ == name);
        }
    }
}

/// Appending columns whose names are pairwise distinct and absent from
/// `s` pushes every one of them.
proof fn lemma_append_all_fresh(s: Seq<TableColumn>, cs: Seq<TableColumn>)
    requires
        distinct_names(cs),
        forall|i: int| 0 <= i < cs.len() ==> !has_col_named(s, (#[trigger] cs[i].name)@),
    ensures
        append_all(s, cs) == s + cs,
    decreases cs.len(),
{
    if cs.len() == 0 {
        assert(s + cs =~= s);
    } else {
        let head = cs.drop_last();
        assert(distinct_names(head)) by {
            assert(forall|i: int, j: int|
                0 <= i < j < head.len() ==> (#[trigger] head[i].name)@ != (
                #[trigger] head[j].name)@);
        }
        assert forall|i: int| 0 <= i < head.len() implies !has_col_named(
            s,
            (#[trigger] head[i].name)@,
        ) by {
            assert(head[i] == cs[i]);
        }
        lemma_append_all_fresh(s, head);
        lemma_has_col_named_concat(s, head, cs.last().name@);
        assert(!has_col_named(head, cs.last().name@)) by {
            if has_col_named(head, cs.last().name@) {
                let i = choose|i: int|
                    0 <= i < head.len() && (#[trigger] head[i].name)@ == cs.last().name@;
                assert((cs[i].name)@ == (cs[cs.len() - 1].name)@);
            }
        }
        assert(append_all(s, cs) == (s + head).push(cs.last()));
        assert((s + head).push(cs.last()) =~= s + cs);
    }
}

/// Appending any sequence of columns with pairwise-distinct names onto
/// an empty table keeps exactly those columns, so the field count that
/// `field_num` reports equals the count of appended field columns.
pub proof fn lemma_append_distinct_field_count(cs: Seq<TableColumn>)
    requires
        distinct_names(cs),
    ensures
        append_all(Seq::<TableColumn>::empty(), cs) == cs,
        field_cols(append_all(Seq::<TableColumn>::empty(), cs)).len() == field_cols(cs).len(),
{
    assert forall|i: int| 0 <= i < cs.len() implies !has_col_named(
        Seq::<TableColumn>::empty(),
        (#[trigger] cs[i].name)@,
    ) by {
    }
    lemma_append_all_fresh(Seq::<TableColumn>::empty(), cs);
    assert(Seq::<TableColumn>::empty() + cs =~= cs);
}

/// How many entries of `ids` lie strictly below `x`.
fn count_less(ids: &Vec<ColumnId>, x: ColumnId) -> (r: usize)
    ensures
        r == rank_of(ids@, x),
{
    let n = ids.len();
    let mut count: usize = 0;
    let mut i: usize = 0;
    while i < n
        invariant
            n == ids@.len(),
            0 <= i <= n,
            count == rank_of(ids@.take(i as int), x),
            count <= i,
        decreases n - i,
    {
        proof {
            assert(ids@.take(i as int + 1).drop_last() =~= ids@.take(i as int));
            assert(ids@.take(i as int + 1).last() == ids@[i as int]);
        }
        if ids[i] < x {
            count = count + 1;
        }
        i = i + 1;
    }
    proof {
        assert(ids@.take(ids@.len() as int) =~= ids@);
    }
    count
}

impl TskvTableSchema {
    /// The dense position map of the field columns: each field id is
    /// sent to its rank in ascending id order, a position in `0..k`
    /// with `k` the field count, whatever order the columns were
    /// appended in.  `lemma_fields_id_positions` bounds and orders the
    /// ranks; `lemma_fields_id_positions_dense` shows every position
    /// below `k` is taken when the ids are duplicate-free; and
    /// `lemma_rank_order_independent` shows the positions depend only
    /// on which ids are present.
    pub fn fields_id(&self) -> (r: HashMap<ColumnId, usize>)
        ensures
            forall|id: ColumnId| #[trigger]
                r@.contains_key(id) <==> field_ids(self.spec_columns()).contains(id),
            forall|id: ColumnId| #[trigger]
                r@.contains_key(id) ==> r@[id] == rank_of(field_ids(self.spec_columns()), id),
    {
        broadcast use vstd::std_specs::hash::group_hash_axioms;

        let n = self.columns.len();
        let mut ids: Vec<ColumnId> = Vec::new();
        let mut i: usize = 0;
        while i < n
            invariant
                n == self.columns@.len(),
                0 <= i <= n,
                ids@ == field_ids(self.columns@.take(i as int)),
            decreases n - i,
        {
            proof {
                assert(self.columns@.take(i as int + 1).drop_last() =~= self.columns@.take(
                    i as int,
                ));
                assert(self.columns@.take(i as int + 1).last() == self.columns@[i as int]);
            }
            if matches!(self.columns[i].column_type, ColumnType::Field(_)) {
                ids.push(self.columns[i].id);
            }
            proof {
                assert(ids@ =~= field_ids(self.columns@.take(i as int + 1)));
            }
            i = i + 1;
        }
        proof {
            assert(self.columns@.take(self.columns@.len() as int) =~= self.columns@);
        }
        let k = ids.len();
        let mut map: HashMap<ColumnId, usize> = HashMap::new();
        let mut j: usize = 0;
        while j < k
            invariant
                k == ids@.len(),
                0 <= j <= k,
                ids@ == field_ids(self.spec_columns()),
                forall|id: ColumnId| #[trigger]
                    map@.contains_key(id) <==> ids@.take(j as int).contains(id),
                forall|id: ColumnId| #[trigger]
                    map@.contains_key(id) ==> map@[id] == rank_of(ids@, id),
            decreases k - j,
        {
            let pos = count_less(&ids, ids[j]);
            map.insert(ids[j], pos);
            proof {
                assert forall|id: ColumnId| #[trigger] map@.contains_key(id) implies ids@.take(
                    j as int + 1,
                ).contains(id) by {
                    if id == ids@[j as int] {
                        assert(ids@.take(j as int + 1)[j as int] == id);
                    } else {
                        let i2 = choose|i2: int|
                            0 <= i2 < j && #[trigger] ids@.take(j as int)[i2] == id;
                        assert(ids@.take(j as int + 1)[i2] == id);
                    }
                }
                assert forall|id: ColumnId| ids@.take(j as int + 1).contains(
                    id,
                ) implies #[trigger] map@.contains_key(id) by {
                    let i2 = choose|i2: int|
                        0 <= i2 < j + 1 && #[trigger] ids@.take(j as int + 1)[i2] == id;
                    if i2 < j {
                        assert(ids@.take(j as int)[i2] == id);
                    }
                }
            }
            j = j + 1;
        }
        proof {
            assert(ids@.take(ids@.len() as int) =~= ids@);
        }
        map
    }

    /// Approximate in-memory footprint: a fixed per-column cost plus a
    /// fixed whole-struct cost, saturating at the address-space bound.
    /// A heuristic only, never an exact memory account.
    pub fn size(&self) -> (r: usize)
        ensures
            r == spec_approx_size(self.spec_columns().len()),
    {
        let n = self.columns.len();
        if n <= (usize::MAX - 8) / 8 {
            8 * n + 8
        } else {
            usize::MAX
        }
    }
}

/// The footprint heuristic `size` reports for `n` columns.
pub open spec fn spec_approx_size(n: nat) -> nat {
    if 8 * n + 8 <= usize::MAX {
        (8 * n + 8) as nat
    } else {
        usize::MAX as nat
    }
}


/// Round trip of the physical mapping: each of the five supported
/// field types survives conversion to its physical type and back
/// unchanged.  `Field(Unknown)` is not among them: its physical image
/// is the null type, which the reverse mapping rejects.
pub proof fn lemma_physical_round_trip(v: ValueType)
    requires
        v != ValueType::Unknown,
    ensures
        spec_from_physical(spec_to_physical(ColumnType::Field(v))) == Ok::<
            ColumnType,
            &'static str,
        >(ColumnType::Field(v)),
{
}

/// The reverse mapping never reconstructs a tag or time column from a
/// physical type alone: a time column's physical image is rejected
/// outright, and a tag's image reads back as a string field.
pub proof fn lemma_physical_never_tag_or_time(p: PhysicalType)
    ensures
        spec_from_physical(p) != Ok::<ColumnType, &'static str>(ColumnType::Tag),
        spec_from_physical(p) != Ok::<ColumnType, &'static str>(ColumnType::Time),
        spec_from_physical(spec_to_physical(ColumnType::Time)) is Err,
{
}


/// A position holding the maximum of a non-empty id sequence.
proof fn lemma_max_index(ids: Seq<ColumnId>) -> (k: int)
    requires
        ids.len() > 0,
    ensures
        0 <= k < ids.len(),
        forall|i: int| 0 <= i < ids.len() ==> #[trigger] ids[i] <= ids[k],
    decreases ids.len(),
{
    if ids.len() == 1 {
        assert(forall|i: int| 0 <= i < ids.len() ==> #[trigger] ids[i] <= ids[0]);
        0
    } else {
        let k0 = lemma_max_index(ids.drop_last());
        if ids.last() >= ids[k0] {
            let k = ids.len() - 1;
            assert forall|i: int| 0 <= i < ids.len() implies #[trigger] ids[i] <= ids[k] by {
                if i < ids.len() - 1 {
                    assert(ids.drop_last()[i] <= ids.drop_last()[k0]);
                }
            }
            k
        } else {
            assert forall|i: int| 0 <= i < ids.len() implies #[trigger] ids[i] <= ids[k0] by {
                if i < ids.len() - 1 {
                    assert(ids.drop_last()[i] <= ids.drop_last()[k0]);
                }
            }
            k0
        }
    }
}

/// When every entry lies strictly below `x`, the rank of `x` is the
/// whole entry count.
proof fn lemma_rank_all_less(ids: Seq<ColumnId>, x: ColumnId)
    requires
        forall|i: int| 0 <= i < ids.len() ==> #[trigger] ids[i] < x,
    ensures
        rank_of(ids, x) == ids.len(),
    decreases ids.len(),
{
    if ids.len() > 0 {
        lemma_rank_all_less(ids.drop_last(), x);
    }
}

/// The maximum of a duplicate-free id sequence ranks last.
proof fn lemma_rank_max(ids: Seq<ColumnId>, k: int)
    requires
        ids.no_duplicates(),
        0 <= k < ids.len(),
        forall|i: int| 0 <= i < ids.len() ==> #[trigger] ids[i] <= ids[k],
    ensures
        rank_of(ids, ids[k]) == ids.len() - 1,
    decreases ids.len(),
{
    if k == ids.len() - 1 {
        assert(forall|i: int|
            0 <= i < ids.drop_last().len() ==> #[trigger] ids.drop_last()[i] < ids[k]);
        lemma_rank_all_less(ids.drop_last(), ids[k]);
    } else {
        assert(ids.last() < ids[k]);
        assert(ids.drop_last().no_duplicates());
        assert(forall|i: int|
            0 <= i < ids.drop_last().len() ==> #[trigger] ids.drop_last()[i]
                <= ids.drop_last()[k]);
        lemma_rank_max(ids.drop_last(), k);
    }
}

/// Removing one entry lowers the rank of `x` by one exactly when the
/// removed entry lay below `x`.
proof fn lemma_rank_remove(ids: Seq<ColumnId>, k: int, x: ColumnId)
    requires
        0 <= k < ids.len(),
    ensures
        rank_of(ids.remove(k), x) + (if ids[k] < x {
            1nat
        } else {
            0nat
        }) == rank_of(ids, x),
    decreases ids.len(),
{
    ids.remove_ensures(k);
    if k == ids.len() - 1 {
        assert(ids.remove(k) =~= ids.drop_last());
    } else {
        assert(ids.remove(k).drop_last() =~= ids.drop_last().remove(k));
        assert(ids.remove(k).last() == ids.last());
        lemma_rank_remove(ids.drop_last(), k, x);
    }
}

/// With duplicate-free ids, every position `p` below the entry count
/// is taken by some id's rank: the positions are exactly `0..k-1`.
pub proof fn lemma_fields_id_positions_dense(ids: Seq<ColumnId>, p: int)
    requires
        ids.no_duplicates(),
        0 <= p < ids.len(),
    ensures
        exists|x: ColumnId| ids.contains(x) && #[trigger] rank_of(ids, x) == p,
    decreases ids.len(),
{
    let k = lemma_max_index(ids);
    let m = ids[k];
    lemma_rank_max(ids, k);
    if p == ids.len() - 1 {
        assert(ids.contains(m) && rank_of(ids, m) == p);
    } else {
        let rest = ids.remove(k);
        ids.remove_ensures(k);
        assert(rest.no_duplicates()) by {
            assert forall|i: int, j: int| 0 <= i < j < rest.len() implies rest[i] != rest[j] by {
                if j < k {
                } else if i < k {
                    assert(rest[j] == ids[j + 1]);
                } else {
                    assert(rest[i] == ids[i + 1]);
                    assert(rest[j] == ids[j + 1]);
                }
            }
        }
        lemma_fields_id_positions_dense(rest, p);
        let x = choose|x: ColumnId| rest.contains(x) && #[trigger] rank_of(rest, x) == p;
        lemma_rank_remove(ids, k, x);
        assert(ids.contains(x)) by {
            let i = choose|i: int| 0 <= i < rest.len() && rest[i] == x;
            if i < k {
                assert(ids[i] == x);
            } else {
                assert(ids[i + 1] == x);
            }
        }
        assert(m >= x);
        if m == x {
            let i = choose|i: int| 0 <= i < rest.len() && rest[i] == x;
            if i < k {
                assert(ids[i] == ids[k] && i != k);
            } else {
                assert(ids[i + 1] == ids[k] && i + 1 != k);
            }
        }
        assert(rank_of(ids, x) == p);
    }
}


/// Two duplicate-free id sequences holding exactly the same ids rank
/// every probe alike: the positions `fields_id` assigns depend only on
/// which field ids are present, never on declaration or append order.
pub proof fn lemma_rank_order_independent(ids1: Seq<ColumnId>, ids2: Seq<ColumnId>, x: ColumnId)
    requires
        ids1.no_duplicates(),
        ids2.no_duplicates(),
        forall|y: ColumnId| ids1.contains(y) <==> ids2.contains(y),
    ensures
        rank_of(ids1, x) == rank_of(ids2, x),
    decreases ids1.len(),
{
    if ids1.len() == 0 {
        if ids2.len() > 0 {
            assert(ids2.contains(ids2[0]));
            assert(ids1.contains(ids2[0]));
        }
        assert(ids2.len() == 0);
    } else {
        let a = ids1.last();
        let head1 = ids1.drop_last();
        assert(ids1.contains(a)) by {
            assert(ids1[ids1.len() - 1] == a);
        }
        assert(ids2.contains(a));
        let k = choose|k: int| 0 <= k < ids2.len() && ids2[k] == a;
        let rest2 = ids2.remove(k);
        ids2.remove_ensures(k);
        assert(head1.no_duplicates()) by {
            assert forall|i: int, j: int| 0 <= i < j < head1.len() implies head1[i]
                != head1[j] by {
                assert(head1[i] == ids1[i] && head1[j] == ids1[j]);
            }
        }
        assert(rest2.no_duplicates()) by {
            assert forall|i: int, j: int| 0 <= i < j < rest2.len() implies rest2[i]
                != rest2[j] by {
                if j < k {
                } else if i < k {
                    assert(rest2[j] == ids2[j + 1]);
                } else {
                    assert(rest2[i] == ids2[i + 1]);
                    assert(rest2[j] == ids2[j + 1]);
                }
            }
        }
        assert forall|y: ColumnId| head1.contains(y) <==> rest2.contains(y) by {
            if head1.contains(y) {
                let i = choose|i: int| 0 <= i < head1.len() && head1[i] == y;
                assert(head1[i] == ids1[i]);
                assert(y != a) by {
                    assert(ids1[i] == head1[i]);
                }
                assert(ids1.contains(y)) by {
                    assert(ids1[i] == y);
                }
                let j = choose|j: int| 0 <= j < ids2.len() && ids2[j] == y;
                if j < k {
                    assert(rest2[j] == ids2[j]);
                    assert(rest2.contains(y)) by {
                        assert(rest2[j] == y);
                    }
                } else {
                    assert(j != k);
                    assert(rest2[j - 1] == ids2[j]);
                    assert(rest2.contains(y)) by {
                        assert(rest2[j - 1] == y);
                    }
                }
            }
            if rest2.contains(y) {
                let i = choose|i: int| 0 <= i < rest2.len() && rest2[i] == y;
                let j = if i < k {
                    i
                } else {
                    i + 1
                };
                assert(ids2[j] == y);
                assert(y != a) by {
                    if y == a {
                        assert(ids2[j] == ids2[k] && j != k);
                    }
                }
                assert(ids2.contains(y)) by {
                    assert(ids2[j] == y);
                }
                let i1 = choose|i1: int| 0 <= i1 < ids1.len() && ids1[i1] == y;
                assert(i1 != ids1.len() - 1);
                assert(head1[i1] == ids1[i1]);
                assert(head1.contains(y)) by {
                    assert(head1[i1] == y);
                }
            }
        }
        lemma_rank_order_independent(head1, rest2, x);
        lemma_rank_remove(ids2, k, x);
    }
}


} // verus!
