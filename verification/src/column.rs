//! Column kinds of a time-series table and what each maps to.
use vstd::prelude::*;

use crate::text::{append_signed_decimal, signed_decimal_chars};

verus! {

/// The unit of a timestamp column.
#[derive(Debug, Clone, Copy, PartialEq, Eq, Structural, Hash, PartialOrd, Ord)]
pub enum TimeUnit {
    Second,
    Millisecond,
    Microsecond,
    Nanosecond,
}

/// The precision of stored timestamps.
#[derive(Debug, Clone, Copy, PartialEq, Eq, Structural, Hash)]
pub enum Precision {
    MS,
    US,
    NS,
}

/// The shape of a geometry value.
#[derive(Debug, Clone, Copy, PartialEq, Eq, Structural, Hash, PartialOrd, Ord)]
pub enum GeometryType {
    Point,
    LineString,
    Polygon,
    MultiPoint,
    MultiLineString,
    MultiPolygon,
    GeometryCollection,
}

/// A geometry field: its shape and spatial reference.
#[derive(Debug, Clone, Copy, PartialEq, Eq, Structural, Hash, PartialOrd, Ord)]
pub struct Geometry {
    pub sub_type: GeometryType,
    pub srid: i16,
}

/// The value type of a field column.
#[derive(Debug, Clone, Copy, PartialEq, Eq, Structural, Hash, PartialOrd, Ord)]
pub enum ValueType {
    Unknown,
    Float,
    Integer,
    Unsigned,
    Boolean,
    String,
    Geometry(Geometry),
}

/// How values are stored physically.
#[derive(Debug, Clone, Copy, PartialEq, Eq, Structural, Hash)]
pub enum PhysicalDType {
    Unknown,
    Float,
    Integer,
    Unsigned,
    Boolean,
    String,
}

/// The compression of a column.
#[derive(Debug, Clone, Copy, PartialEq, Eq, Structural, Hash, PartialOrd, Ord)]
pub enum Encoding {
    Default,
    Null,
    Delta,
    Quantile,
    Gzip,
    Bzip,
    Gorilla,
    Snappy,
    Zstd,
    Zlib,
    BitPack,
    SDT,
    DeadBand,
}

impl ValueType {
    pub open spec fn physical(&self) -> PhysicalDType {
        match self {
            ValueType::Unknown => PhysicalDType::Unknown,
            ValueType::Float => PhysicalDType::Float,
            ValueType::Integer => PhysicalDType::Integer,
            ValueType::Unsigned => PhysicalDType::Unsigned,
            ValueType::Boolean => PhysicalDType::Boolean,
            ValueType::String => PhysicalDType::String,
            ValueType::Geometry(_) => PhysicalDType::String,
        }
    }

    /// How values of this type are stored; geometries are stored as text.
    pub fn to_physical_type(&self) -> (r: PhysicalDType)
        ensures
            r == self.physical(),
    {
        match self {
            ValueType::Unknown => PhysicalDType::Unknown,
            ValueType::Float => PhysicalDType::Float,
            ValueType::Integer => PhysicalDType::Integer,
            ValueType::Unsigned => PhysicalDType::Unsigned,
            ValueType::Boolean => PhysicalDType::Boolean,
            ValueType::String => PhysicalDType::String,
            ValueType::Geometry(_) => PhysicalDType::String,
        }
    }
}

impl GeometryType {
    pub open spec fn name(&self) -> Seq<char> {
        match self {
            GeometryType::Point => "POINT"@,
            GeometryType::LineString => "LINESTRING"@,
            GeometryType::Polygon => "POLYGON"@,
            GeometryType::MultiPoint => "MULTIPOINT"@,
            GeometryType::MultiLineString => "MULTILINESTRING"@,
            GeometryType::MultiPolygon => "MULTIPOLYGON"@,
            GeometryType::GeometryCollection => "GEOMETRYCOLLECTION"@,
        }
    }

    pub fn as_str(&self) -> (r: &'static str)
        ensures
            r@ == self.name(),
    {
        match self {
            GeometryType::Point => "POINT",
            GeometryType::LineString => "LINESTRING",
            GeometryType::Polygon => "POLYGON",
            GeometryType::MultiPoint => "MULTIPOINT",
            GeometryType::MultiLineString => "MULTILINESTRING",
            GeometryType::MultiPolygon => "MULTIPOLYGON",
            GeometryType::GeometryCollection => "GEOMETRYCOLLECTION",
        }
    }
}

impl Geometry {
    /// `Geometry(<SHAPE>, <srid>)`.
    pub open spec fn text(&self) -> Seq<char> {
        "Geometry("@ + self.sub_type.name() + ", "@ + signed_decimal_chars(self.srid as int) + ")"@
    }

    pub fn to_string(&self) -> (r: String)
        ensures
            r@ == self.text(),
    {
        let mut out = "Geometry(".to_owned();
        out.append(self.sub_type.as_str());
        out.append(", ");
        append_signed_decimal(&mut out, self.srid as i64);
        out.append(")");
        out
    }
}

/// The kind of a table column.
#[derive(Debug, Clone, Copy, PartialEq, Eq, Structural, Hash, PartialOrd, Ord)]
pub enum ColumnType {
    Tag,
    Time(TimeUnit),
    Field(ValueType),
}

/// The type name of a column kind.
pub open spec fn column_type_name(t: ColumnType) -> Seq<char> {
    match t {
        ColumnType::Tag => "TAG"@,
        ColumnType::Time(TimeUnit::Second) => "TimestampSecond"@,
        ColumnType::Time(TimeUnit::Millisecond) => "TimestampMillisecond"@,
        ColumnType::Time(TimeUnit::Microsecond) => "TimestampMicrosecond"@,
        ColumnType::Time(TimeUnit::Nanosecond) => "TimestampNanosecond"@,
        ColumnType::Field(ValueType::Integer) => "I64"@,
        ColumnType::Field(ValueType::Unsigned) => "U64"@,
        ColumnType::Field(ValueType::Float) => "F64"@,
        ColumnType::Field(ValueType::Boolean) => "BOOL"@,
        ColumnType::Field(ValueType::String) => "STRING"@,
        ColumnType::Field(ValueType::Geometry(..)) => "GEOMETRY"@,
        ColumnType::Field(ValueType::Unknown) => "Error filed type not supported"@,
    }
}

/// The SQL type of a column kind, with its time unit.
pub open spec fn column_sql_type(t: ColumnType) -> Seq<char> {
    match t {
        ColumnType::Tag => "STRING"@,
        ColumnType::Time(TimeUnit::Second) => "TIMESTAMP(SECOND)"@,
        ColumnType::Time(TimeUnit::Millisecond) => "TIMESTAMP(MILLISECOND)"@,
        ColumnType::Time(TimeUnit::Microsecond) => "TIMESTAMP(MICROSECOND)"@,
        ColumnType::Time(TimeUnit::Nanosecond) => "TIMESTAMP(NANOSECOND)"@,
        ColumnType::Field(ValueType::String) => "STRING"@,
        ColumnType::Field(ValueType::Integer) => "BIGINT"@,
        ColumnType::Field(ValueType::Unsigned) => "BIGINT UNSIGNED"@,
        ColumnType::Field(ValueType::Float) => "DOUBLE"@,
        ColumnType::Field(ValueType::Boolean) => "BOOLEAN"@,
        ColumnType::Field(ValueType::Unknown) => "UNKNOWN"@,
        ColumnType::Field(ValueType::Geometry(g)) => g.text(),
    }
}

/// The wire code of a field's value type.
pub open spec fn field_type_code(t: ColumnType) -> u8 {
    match t {
        ColumnType::Field(ValueType::Float) => 0,
        ColumnType::Field(ValueType::Integer) => 1,
        ColumnType::Field(ValueType::Unsigned) => 2,
        ColumnType::Field(ValueType::Boolean) => 3,
        ColumnType::Field(ValueType::String) => 4,
        ColumnType::Field(ValueType::Geometry(_)) => 4,
        _ => 0,
    }
}

/// The column kind of a wire code.
pub open spec fn column_type_of_code(code: i32) -> ColumnType {
    if code == 0 {
        ColumnType::Field(ValueType::Float)
    } else if code == 1 {
        ColumnType::Field(ValueType::Integer)
    } else if code == 2 {
        ColumnType::Field(ValueType::Unsigned)
    } else if code == 3 {
        ColumnType::Field(ValueType::Boolean)
    } else if code == 4 {
        ColumnType::Field(ValueType::String)
    } else {
        ColumnType::Field(ValueType::Unknown)
    }
}

/// The storage kind of a column.
#[derive(Debug, Clone, Copy, PartialEq, Eq, Structural, Hash)]
pub enum PhysicalCType {
    Tag,
    Time(TimeUnit),
    Field(PhysicalDType),
}

impl PhysicalCType {
    /// A nanosecond timestamp.
    pub fn default_time() -> (r: PhysicalCType)
        ensures
            r == PhysicalCType::Time(TimeUnit::Nanosecond),
    {
        PhysicalCType::Time(TimeUnit::Nanosecond)
    }

    /// Tags are strings and timestamps integers.
    pub fn to_physical_data_type(&self) -> (r: PhysicalDType)
        ensures
            r == match self {
                PhysicalCType::Tag => PhysicalDType::String,
                PhysicalCType::Time(_) => PhysicalDType::Integer,
                PhysicalCType::Field(v) => *v,
            },
    {
        match self {
            PhysicalCType::Tag => PhysicalDType::String,
            PhysicalCType::Time(_) => PhysicalDType::Integer,
            PhysicalCType::Field(v) => *v,
        }
    }
}

impl ColumnType {
    pub fn as_str(&self) -> (r: &'static str)
        ensures
            r@ == column_type_name(*self),
    {
        match self {
            ColumnType::Tag => "TAG",
            ColumnType::Time(unit) => match unit {
                TimeUnit::Second => "TimestampSecond",
                TimeUnit::Millisecond => "TimestampMillisecond",
                TimeUnit::Microsecond => "TimestampMicrosecond",
                TimeUnit::Nanosecond => "TimestampNanosecond",
            },
            ColumnType::Field(ValueType::Integer) => "I64",
            ColumnType::Field(ValueType::Unsigned) => "U64",
            ColumnType::Field(ValueType::Float) => "F64",
            ColumnType::Field(ValueType::Boolean) => "BOOL",
            ColumnType::Field(ValueType::String) => "STRING",
            ColumnType::Field(ValueType::Geometry(..)) => "GEOMETRY",
            ColumnType::Field(ValueType::Unknown) => "Error filed type not supported",
        }
    }

    /// The text that `Display` writes: the type name.
    pub fn to_string(&self) -> (r: String)
        ensures
            r@ == column_type_name(*self),
    {
        self.as_str().to_owned()
    }

    /// `TAG`, `FIELD` or `TIME`.
    pub fn as_column_type_str(&self) -> (r: &'static str)
        ensures
            r@ == match self {
                ColumnType::Tag => "TAG"@,
                ColumnType::Field(_) => "FIELD"@,
                ColumnType::Time(_) => "TIME"@,
            },
    {
        match self {
            ColumnType::Tag => "TAG",
            ColumnType::Field(_) => "FIELD",
            ColumnType::Time(_) => "TIME",
        }
    }

    pub fn field_type(&self) -> (r: u8)
        ensures
            r == field_type_code(*self),
    {
        match self {
            ColumnType::Field(ValueType::Float) => 0,
            ColumnType::Field(ValueType::Integer) => 1,
            ColumnType::Field(ValueType::Unsigned) => 2,
            ColumnType::Field(ValueType::Boolean) => 3,
            ColumnType::Field(ValueType::String) | ColumnType::Field(ValueType::Geometry(_)) => 4,
            _ => 0,
        }
    }

    /// The column kind of a field type code from the wire.
    pub fn from_proto_field_type(field_type: i32) -> (r: ColumnType)
        ensures
            r == column_type_of_code(field_type),
    {
        match field_type {
            0 => ColumnType::Field(ValueType::Float),
            1 => ColumnType::Field(ValueType::Integer),
            2 => ColumnType::Field(ValueType::Unsigned),
            3 => ColumnType::Field(ValueType::Boolean),
            4 => ColumnType::Field(ValueType::String),
            _ => ColumnType::Field(ValueType::Unknown),
        }
    }

    pub fn to_sql_type_str_with_unit(&self) -> (r: String)
        ensures
            r@ == column_sql_type(*self),
    {
        match self {
            ColumnType::Tag => "STRING".to_owned(),
            ColumnType::Time(unit) => match unit {
                TimeUnit::Second => "TIMESTAMP(SECOND)".to_owned(),
                TimeUnit::Millisecond => "TIMESTAMP(MILLISECOND)".to_owned(),
                TimeUnit::Microsecond => "TIMESTAMP(MICROSECOND)".to_owned(),
                TimeUnit::Nanosecond => "TIMESTAMP(NANOSECOND)".to_owned(),
            },
            ColumnType::Field(value_type) => match value_type {
                ValueType::String => "STRING".to_owned(),
                ValueType::Integer => "BIGINT".to_owned(),
                ValueType::Unsigned => "BIGINT UNSIGNED".to_owned(),
                ValueType::Float => "DOUBLE".to_owned(),
                ValueType::Boolean => "BOOLEAN".to_owned(),
                ValueType::Unknown => "UNKNOWN".to_owned(),
                ValueType::Geometry(geo) => geo.to_string(),
            },
        }
    }

    pub fn to_physical_type(&self) -> (r: PhysicalCType)
        ensures
            r == match self {
                ColumnType::Tag => PhysicalCType::Tag,
                ColumnType::Time(u) => PhysicalCType::Time(*u),
                ColumnType::Field(v) => PhysicalCType::Field(v.physical()),
            },
    {
        match self {
            ColumnType::Tag => PhysicalCType::Tag,
            ColumnType::Time(unit) => PhysicalCType::Time(*unit),
            ColumnType::Field(value_type) => PhysicalCType::Field(value_type.to_physical_type()),
        }
    }

    pub fn to_physical_data_type(&self) -> (r: PhysicalDType)
        ensures
            r == match self {
                ColumnType::Tag => PhysicalDType::String,
                ColumnType::Time(_) => PhysicalDType::Integer,
                ColumnType::Field(v) => v.physical(),
            },
    {
        match self {
            ColumnType::Tag => PhysicalDType::String,
            ColumnType::Time(_) => PhysicalDType::Integer,
            ColumnType::Field(value_type) => value_type.to_physical_type(),
        }
    }

    pub fn is_tag(&self) -> (r: bool)
        ensures
            r == (*self is Tag),
    {
        match self {
            ColumnType::Tag => true,
            _ => false,
        }
    }

    pub fn is_time(&self) -> (r: bool)
        ensures
            r == (*self is Time),
    {
        match self {
            ColumnType::Time(_) => true,
            _ => false,
        }
    }

    pub fn is_field(&self) -> (r: bool)
        ensures
            r == (*self is Field),
    {
        match self {
            ColumnType::Field(_) => true,
            _ => false,
        }
    }

    pub open spec fn spec_precision(&self) -> Option<Precision> {
        match self {
            ColumnType::Time(TimeUnit::Millisecond) => Some(Precision::MS),
            ColumnType::Time(TimeUnit::Microsecond) => Some(Precision::US),
            ColumnType::Time(TimeUnit::Nanosecond) => Some(Precision::NS),
            _ => None,
        }
    }

    /// The precision of a timestamp column; seconds have none.
    pub fn precision(&self) -> (r: Option<Precision>)
        ensures
            r == self.spec_precision(),
    {
        match self {
            ColumnType::Time(unit) => match unit {
                TimeUnit::Millisecond => Some(Precision::MS),
                TimeUnit::Microsecond => Some(Precision::US),
                TimeUnit::Nanosecond => Some(Precision::NS),
                _ => None,
            },
            _ => None,
        }
    }

    /// Equal kinds match, and a geometry field accepts string values.
    pub fn matches_type(&self, other: &ColumnType) -> (r: bool)
        ensures
            r == (*self == *other || (*self matches ColumnType::Field(ValueType::Geometry(_))
                && *other == ColumnType::Field(ValueType::String))),
    {
        *self == *other || (match self {
            ColumnType::Field(ValueType::Geometry(_)) => true,
            _ => false,
        } && match other {
            ColumnType::Field(ValueType::String) => true,
            _ => false,
        })
    }

    /// A field of the given value type.
    pub fn from_value_type(value: ValueType) -> (r: ColumnType)
        ensures
            r == ColumnType::Field(value),
    {
        ColumnType::Field(value)
    }
}

/// The time unit a precision stands for.
pub open spec fn precision_unit(p: Precision) -> TimeUnit {
    match p {
        Precision::MS => TimeUnit::Millisecond,
        Precision::US => TimeUnit::Microsecond,
        Precision::NS => TimeUnit::Nanosecond,
    }
}

/// The precision of a timestamp column is that of its own unit: a
/// millisecond, microsecond or nanosecond column has the precision that
/// stands for that unit, so columns of different units never share a
/// precision; a column of seconds has none, and no other column has one.
pub proof fn lemma_precision_names_the_unit(u: TimeUnit, v: TimeUnit, t: ColumnType)
    ensures
        u != TimeUnit::Second ==> (ColumnType::Time(u).spec_precision() matches Some(p) && precision_unit(p)
            == u),
        ColumnType::Time(TimeUnit::Second).spec_precision() is None,
        ColumnType::Time(u).spec_precision() is Some && ColumnType::Time(u).spec_precision()
            == ColumnType::Time(v).spec_precision() ==> u == v,
        !(t is Time) ==> t.spec_precision() is None,
{
}

/// The wire code of a plain field type reads back as the same column kind.
pub proof fn lemma_field_code_roundtrip(v: ValueType)
    requires
        v is Float || v is Integer || v is Unsigned || v is Boolean || v is String,
    ensures
        column_type_of_code(field_type_code(ColumnType::Field(v)) as i32) == ColumnType::Field(v),
{
}

} // verus!
