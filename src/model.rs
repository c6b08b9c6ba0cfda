//! The closed wire vocabularies of an SCPD document and their decoding from
//! the literals that the document spells them with.

use vstd::prelude::*;

verus! {

/// Whether an argument is supplied to an action or returned from it.
#[derive(Debug, Clone, Copy, PartialEq, Eq, Structural)]
pub enum Direction {
    In,
    Out,
}

/// The yes/no flag of the UPnP vocabulary.
#[derive(Debug, Clone, Copy, PartialEq, Eq, Structural)]
pub enum Bool {
    Yes,
    No,
}

/// The primitive data type tags of UPnP state variables.
#[derive(Debug, Clone, Copy, PartialEq, Eq, Structural)]
pub enum DataType {
    Ui1,
    Ui2,
    Ui4,
    Ui8,
    I1,
    I2,
    I4,
    Int,
    R4,
    R8,
    Number,
    Float,
    Fixed14_4,
    Char,
    String,
    Date,
    DateTime,
    DateTimeTz,
    Time,
    TimeTz,
    Boolean,
    BinBase64,
    BinHex,
    Uri,
}

/// Why a document could not be turned into a service description.
#[derive(Debug, PartialEq, Eq)]
pub enum ParseError {
    /// The XML itself is malformed or lacks a required element; the text
    /// is the deserializer's message.
    Malformed(String),
    /// An argument direction other than `in` or `out`.
    InvalidDirection(String),
    /// A flag other than `yes` or `no`.
    InvalidBool(String),
    /// A data type tag outside the UPnP vocabulary.
    InvalidDataType(String),
}

/// The failures of fetching a description and of mapping its types.
#[derive(Debug, PartialEq, Eq)]
pub enum Error {
    /// The transport failed while fetching the document.
    NetworkError(String),
    /// The document does not conform to the SCPD schema.
    ParseError(ParseError),
    /// A state variable's data type has no target type.
    UnsupportedTypeError(DataType),
}

/// Compares a string with a literal of the vocabulary.
fn is_literal(s: &str, lit: &str) -> (r: bool)
    ensures
        r == (s@ == lit@),
{
    let a = s.to_owned();
    let b = lit.to_owned();
    a == b
}

/// The direction that a literal spells, if any.
pub open spec fn direction_of(s: Seq<char>) -> Option<Direction> {
    if s == "in"@ {
        Some(Direction::In)
    } else if s == "out"@ {
        Some(Direction::Out)
    } else {
        None
    }
}

/// The flag that a literal spells, if any.
pub open spec fn bool_of(s: Seq<char>) -> Option<Bool> {
    if s == "yes"@ {
        Some(Bool::Yes)
    } else if s == "no"@ {
        Some(Bool::No)
    } else {
        None
    }
}

/// The data type that a tag spells, if any.
pub open spec fn data_type_of(s: Seq<char>) -> Option<DataType> {
    if s == "ui1"@ {
        Some(DataType::Ui1)
    } else if s == "ui2"@ {
        Some(DataType::Ui2)
    } else if s == "ui4"@ {
        Some(DataType::Ui4)
    } else if s == "ui8"@ {
        Some(DataType::Ui8)
    } else if s == "i1"@ {
        Some(DataType::I1)
    } else if s == "i2"@ {
        Some(DataType::I2)
    } else if s == "i4"@ {
        Some(DataType::I4)
    } else if s == "int"@ {
        Some(DataType::Int)
    } else if s == "r4"@ {
        Some(DataType::R4)
    } else if s == "r8"@ {
        Some(DataType::R8)
    } else if s == "number"@ {
        Some(DataType::Number)
    } else if s == "float"@ {
        Some(DataType::Float)
    } else if s == "fixed14_4"@ {
        Some(DataType::Fixed14_4)
    } else if s == "char"@ {
        Some(DataType::Char)
    } else if s == "string"@ {
        Some(DataType::String)
    } else if s == "date"@ {
        Some(DataType::Date)
    } else if s == "dateTime"@ {
        Some(DataType::DateTime)
    } else if s == "dateTimeTz"@ {
        Some(DataType::DateTimeTz)
    } else if s == "time"@ {
        Some(DataType::Time)
    } else if s == "timeTz"@ {
        Some(DataType::TimeTz)
    } else if s == "boolean"@ {
        Some(DataType::Boolean)
    } else if s == "binBase64"@ {
        Some(DataType::BinBase64)
    } else if s == "binHex"@ {
        Some(DataType::BinHex)
    } else if s == "uri"@ {
        Some(DataType::Uri)
    } else {
        None
    }
}

/// The target type name of a primitive data type; `None` for the tags that
/// have no target type.
pub open spec fn primitive_type_name(dt: DataType) -> Option<Seq<char>> {
    match dt {
        DataType::Ui1 => Some("u8"@),
        DataType::Ui2 => Some("u16"@),
        DataType::Ui4 => Some("u32"@),
        DataType::Ui8 => Some("u64"@),
        DataType::I1 => Some("i8"@),
        DataType::I2 => Some("i16"@),
        DataType::I4 => Some("i32"@),
        DataType::Int => Some("i64"@),
        DataType::Char => Some("char"@),
        DataType::String => Some("String"@),
        DataType::Boolean => Some("upnp::datatypes::Bool"@),
        DataType::Uri => Some("hyper::Uri"@),
        _ => None,
    }
}

/// The tags that have a target type.
pub open spec fn is_supported(dt: DataType) -> bool {
    match dt {
        DataType::Ui1 | DataType::Ui2 | DataType::Ui4 | DataType::Ui8 | DataType::I1
        | DataType::I2 | DataType::I4 | DataType::Int | DataType::Char | DataType::String
        | DataType::Boolean | DataType::Uri => true,
        _ => false,
    }
}

impl Direction {
    pub fn is_in(&self) -> (r: bool)
        ensures
            r == (*self is In),
    {
        match self {
            Direction::In => true,
            Direction::Out => false,
        }
    }

    pub fn is_out(&self) -> (r: bool)
        ensures
            r == (*self is Out),
    {
        !self.is_in()
    }

    /// Decodes `in` or `out`; any other literal is a parse error.
    pub fn from_literal(s: &str) -> (r: Result<Direction, ParseError>)
        ensures
            r matches Ok(d) ==> direction_of(s@) == Some(d),
            r matches Err(e) ==> direction_of(s@) is None && (e matches ParseError::InvalidDirection(
                t,
            ) && t@ == s@),
    {
        if is_literal(s, "in") {
            Ok(Direction::In)
        } else if is_literal(s, "out") {
            Ok(Direction::Out)
        } else {
            Err(ParseError::InvalidDirection(s.to_owned()))
        }
    }
}


impl Bool {
    /// The value of a flag that is absent and defaults to yes.
    pub fn yes() -> (r: Bool)
        ensures
            r == Bool::Yes,
    {
        Bool::Yes
    }

    /// The value of a flag that is absent and defaults to no.
    pub fn no() -> (r: Bool)
        ensures
            r == Bool::No,
    {
        Bool::No
    }

    /// Decodes `yes` or `no`; any other literal is a parse error.
    pub fn from_literal(s: &str) -> (r: Result<Bool, ParseError>)
        ensures
            r matches Ok(b) ==> bool_of(s@) == Some(b),
            r matches Err(e) ==> bool_of(s@) is None && (e matches ParseError::InvalidBool(t)
                && t@ == s@),
    {
        if is_literal(s, "yes") {
            Ok(Bool::Yes)
        } else if is_literal(s, "no") {
            Ok(Bool::No)
        } else {
            Err(ParseError::InvalidBool(s.to_owned()))
        }
    }
}

impl DataType {
    /// Decodes a data type tag; a tag outside the vocabulary is a parse error.
    pub fn from_literal(s: &str) -> (r: Result<DataType, ParseError>)
        ensures
            r matches Ok(d) ==> data_type_of(s@) == Some(d),
            r matches Err(e) ==> data_type_of(s@) is None && (e matches ParseError::InvalidDataType(
                t,
            ) && t@ == s@),
    {
        if is_literal(s, "ui1") {
            Ok(DataType::Ui1)
        } else if is_literal(s, "ui2") {
            Ok(DataType::Ui2)
        } else if is_literal(s, "ui4") {
            Ok(DataType::Ui4)
        } else if is_literal(s, "ui8") {
            Ok(DataType::Ui8)
        } else if is_literal(s, "i1") {
            Ok(DataType::I1)
        } else if is_literal(s, "i2") {
            Ok(DataType::I2)
        } else if is_literal(s, "i4") {
            Ok(DataType::I4)
        } else if is_literal(s, "int") {
            Ok(DataType::Int)
        } else if is_literal(s, "r4") {
            Ok(DataType::R4)
        } else if is_literal(s, "r8") {
            Ok(DataType::R8)
        } else if is_literal(s, "number") {
            Ok(DataType::Number)
        } else if is_literal(s, "float") {
            Ok(DataType::Float)
        } else if is_literal(s, "fixed14_4") {
            Ok(DataType::Fixed14_4)
        } else if is_literal(s, "char") {
            Ok(DataType::Char)
        } else if is_literal(s, "string") {
            Ok(DataType::String)
        } else if is_literal(s, "date") {
            Ok(DataType::Date)
        } else if is_literal(s, "dateTime") {
            Ok(DataType::DateTime)
        } else if is_literal(s, "dateTimeTz") {
            Ok(DataType::DateTimeTz)
        } else if is_literal(s, "time") {
            Ok(DataType::Time)
        } else if is_literal(s, "timeTz") {
            Ok(DataType::TimeTz)
        } else if is_literal(s, "boolean") {
            Ok(DataType::Boolean)
        } else if is_literal(s, "binBase64") {
            Ok(DataType::BinBase64)
        } else if is_literal(s, "binHex") {
            Ok(DataType::BinHex)
        } else if is_literal(s, "uri") {
            Ok(DataType::Uri)
        } else {
            Err(ParseError::InvalidDataType(s.to_owned()))
        }
    }

    /// The target type name of this tag, or an unsupported-type error for the
    /// tags that have none.
    pub fn target_type(&self) -> (r: Result<&'static str, Error>)
        ensures
            r matches Ok(n) ==> primitive_type_name(*self) == Some(n@),
            r matches Err(e) ==> primitive_type_name(*self) is None && e
                == Error::UnsupportedTypeError(*self),
    {
        match self {
            DataType::Ui1 => Ok("u8"),
            DataType::Ui2 => Ok("u16"),
            DataType::Ui4 => Ok("u32"),
            DataType::Ui8 => Ok("u64"),
            DataType::I1 => Ok("i8"),
            DataType::I2 => Ok("i16"),
            DataType::I4 => Ok("i32"),
            DataType::Int => Ok("i64"),
            DataType::Char => Ok("char"),
            DataType::String => Ok("String"),
            DataType::Boolean => Ok("upnp::datatypes::Bool"),
            DataType::Uri => Ok("hyper::Uri"),
            _ => Err(Error::UnsupportedTypeError(*self)),
        }
    }
}

} // verus!
