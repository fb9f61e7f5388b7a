//! The columnar (arrow) schema view handed to the planning layer: one
//! physical field per column, each carrying the column id under
//! `_field_id` and a tag flag under `_tag` as attached metadata so
//! tag/time semantics survive the mapping to physical types.
//!
//! What arrow builds is opaque here, so the wrappers' results are
//! named: `spec_arrow_field` and `spec_arrow_schema_of` stand for the
//! values arrow constructs from given arguments, and the verified
//! schema view is exact over those names.

use vstd::prelude::*;
use vstd::string::*;
use crate::schema::{spec_to_physical, PhysicalType, TableColumn, TskvTableSchema};
use crate::text::{bool_to_str, spec_bool_text, spec_dec_chars, u64_to_dec_string};

verus! {

/// arrow's schema field; opaque here.
#[verifier::external_type_specification]
#[verifier::external_body]
pub struct ExArrowField(arrow_schema::Field);

/// arrow's schema; opaque here.
#[verifier::external_type_specification]
#[verifier::external_body]
pub struct ExArrowSchema(arrow_schema::Schema);

/// The arrow field built from a name, a physical type, a nullability
/// flag and two metadata entries: a function of these arguments alone.
pub uninterp spec fn spec_arrow_field(
    name: Seq<char>,
    data_type: PhysicalType,
    nullable: bool,
    key1: Seq<char>,
    val1: Seq<char>,
    key2: Seq<char>,
    val2: Seq<char>,
) -> arrow_schema::Field;

/// The name an arrow field was built with.
pub uninterp spec fn spec_arrow_field_name(field: arrow_schema::Field) -> Seq<char>;

/// The arrow schema built over a field list: a function of the fields
/// alone, keeping their order.
pub uninterp spec fn spec_arrow_schema_of(fields: Seq<arrow_schema::Field>) -> arrow_schema::Schema;

/// Relies on arrow_schema::Field::new and with_metadata: the field of
/// the given name, the columnar type its physical type denotes
/// (nanosecond timestamps without a time zone), the given nullability
/// and exactly the two given metadata entries.  The source stores the
/// name unchanged, so the built field bears `name`.
#[verifier::external_body]
fn make_arrow_field(
    name: &String,
    data_type: PhysicalType,
    nullable: bool,
    key1: &String,
    val1: &String,
    key2: &String,
    val2: &String,
) -> (r: arrow_schema::Field)
    ensures
        r == spec_arrow_field(name@, data_type, nullable, key1@, val1@, key2@, val2@),
        spec_arrow_field_name(r) == name@,
{
    let dt = match data_type {
        PhysicalType::Utf8 => arrow_schema::DataType::Utf8,
        PhysicalType::TimestampNanosecond => arrow_schema::DataType::Timestamp(arrow_schema::TimeUnit::Nanosecond, None),
        PhysicalType::Float64 => arrow_schema::DataType::Float64,
        PhysicalType::Int64 => arrow_schema::DataType::Int64,
        PhysicalType::UInt64 => arrow_schema::DataType::UInt64,
        PhysicalType::Boolean => arrow_schema::DataType::Boolean,
        PhysicalType::Null => arrow_schema::DataType::Null,
    };
    let metadata = [(key1.clone(), val1.clone()), (key2.clone(), val2.clone())];
    arrow_schema::Field::new(name.clone(), dt, nullable).with_metadata(metadata.into_iter().collect())
}

/// Relies on arrow_schema::Schema::new: the schema over exactly the
/// given fields, in order.
#[verifier::external_body]
fn make_arrow_schema(fields: Vec<arrow_schema::Field>) -> (r: arrow_schema::Schema)
    ensures
        r == spec_arrow_schema_of(fields@),
{
    arrow_schema::Schema::new(fields)
}

/// Relies on arrow_schema::Field::name: the name the field was built
/// with.
#[verifier::external_body]
fn arrow_field_name(field: &arrow_schema::Field) -> (r: String)
    ensures
        r@ == spec_arrow_field_name(*field),
{
    field.name().clone()
}

/// The arrow field a column maps to: its name, its physical type,
/// nullable unless it is the time column, the column id under
/// `_field_id` and the tag flag under `_tag`.
pub open spec fn spec_column_arrow_field(c: TableColumn) -> arrow_schema::Field {
    spec_arrow_field(
        c.name@,
        spec_to_physical(c.column_type),
        !(c.column_type is Time),
        "_field_id"@,
        spec_dec_chars(c.id as nat),
        "_tag"@,
        spec_bool_text(c.column_type is Tag),
    )
}

/// The arrow fields of a column list, one per column, in order.
pub open spec fn spec_column_arrow_fields(s: Seq<TableColumn>) -> Seq<arrow_schema::Field> {
    s.map_values(|c: TableColumn| spec_column_arrow_field(c))
}

impl TableColumn {
    /// The arrow field of this column, exactly as
    /// `spec_column_arrow_field` lays it out.
    pub fn to_arrow_field(&self) -> (r: arrow_schema::Field)
        ensures
            r == spec_column_arrow_field(*self),
            spec_arrow_field_name(r) == self.name@,
    {
        make_arrow_field(
            &self.name,
            self.column_type.to_physical(),
            self.nullable(),
            &String::from_str("_field_id"),
            &u64_to_dec_string(self.id),
            &String::from_str("_tag"),
            &bool_to_str(self.column_type.is_tag()).to_owned(),
        )
    }
}

impl TskvTableSchema {
    /// The arrow schema view for planning: exactly one field per
    /// column, in declaration order, each carrying its column id and
    /// tag flag as metadata.
    pub fn to_arrow_schema(&self) -> (r: arrow_schema::Schema)
        ensures
            r == spec_arrow_schema_of(spec_column_arrow_fields(self.spec_columns())),
    {
        let cols = self.columns();
        let n = cols.len();
        let mut fields: Vec<arrow_schema::Field> = Vec::new();
        let mut i: usize = 0;
        while i < n
            invariant
                n == cols@.len(),
                cols@ == self.spec_columns(),
                0 <= i <= n,
                fields@ == spec_column_arrow_fields(cols@.take(i as int)),
            decreases n - i,
        {
            fields.push(cols[i].to_arrow_field());
            proof {
                assert(fields@ =~= spec_column_arrow_fields(cols@.take(i as int + 1)));
            }
            i = i + 1;
        }
        proof {
            assert(cols@.take(cols@.len() as int) =~= cols@);
        }
        make_arrow_schema(fields)
    }
}

/// Whether an arrow field is the mandatory time column, by the name it
/// was built with.
pub fn is_time_column(field: &arrow_schema::Field) -> (r: bool)
    ensures
        r == (spec_arrow_field_name(*field) == "time"@),
{
    let time = String::from_str("time");
    let name = arrow_field_name(field);
    time.eq(&name)
}

} // verus!
