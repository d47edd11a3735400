//! The shape of a composite type, and the accessors of its fields in order.

use vstd::prelude::*;

verus! {

/// How the fields of a record type are written.
pub enum FieldsShape {
    /// Fields with names, in declaration order.
    Named(Vec<String>),
    /// This many positional fields.
    Unnamed(usize),
    /// No fields at all.
    Unit,
}

/// The kind of type that a comparison is asked for.
pub enum DataShape {
    /// A record type, whose fields are compared in order.
    Struct(FieldsShape),
    /// A sum type: not supported.
    Enum,
    /// A union: not supported.
    Union,
}

/// Why no field list can be given for a type.
#[derive(Clone, Copy, Debug, PartialEq, Eq, Structural)]
pub enum ShapeError {
    /// Only record types can be compared field by field; sum types and
    /// unions cannot.
    NotAStruct,
}

/// The character of a decimal digit.
pub open spec fn digit_char(d: nat) -> char {
    ((d + 48) as u8) as char
}

/// The decimal numeral of `n`, without leading zeros.
pub open spec fn decimal(n: nat) -> Seq<char>
    decreases n,
{
    if n < 10 {
        seq![digit_char(n)]
    } else {
        decimal(n / 10).push(digit_char(n % 10))
    }
}

/// The accessor of each field, in field order: the names of named fields,
/// the positions `0`, `1`, ... of positional ones, and nothing for a type
/// without fields. `None` for a type that is not a record.
pub open spec fn field_accessors(data: DataShape) -> Option<Seq<Seq<char>>> {
    match data {
        DataShape::Struct(FieldsShape::Named(names)) => Some(
            names@.map_values(|s: String| s@),
        ),
        DataShape::Struct(FieldsShape::Unnamed(n)) => Some(
            Seq::new(n as nat, |i: int| decimal(i as nat)),
        ),
        DataShape::Struct(FieldsShape::Unit) => Some(Seq::empty()),
        _ => None,
    }
}

/// Relies on std's `ToString` for `usize`, which writes the number in
/// decimal without leading zeros.
#[verifier::external_body]
fn decimal_string(n: usize) -> (r: String)
    ensures
        r@ == decimal(n as nat),
{
    n.to_string()
}

/// Lists the accessors of the fields of a type, in field order.
pub fn field_names(data: &DataShape) -> (r: Result<Vec<String>, ShapeError>)
    ensures
        r.is_ok() == field_accessors(*data).is_some(),
        r matches Ok(v) ==> field_accessors(*data) == Some(v@.map_values(|s: String| s@)),
        r matches Err(e) ==> e == ShapeError::NotAStruct,
{
    match data {
        DataShape::Struct(FieldsShape::Named(names)) => {
            let mut out: Vec<String> = Vec::new();
            let mut i: usize = 0;
            while i < names.len()
                invariant
                    i <= names@.len(),
                    out@.len() == i,
                    forall|j: int| 0 <= j < i ==> out@[j]@ == names@[j]@,
                decreases names@.len() - i,
            {
                let name = names[i].clone();
                out.push(name);
                i += 1;
            }
            assert(out@.map_values(|s: String| s@) =~= names@.map_values(|s: String| s@));
            Ok(out)
        },
        DataShape::Struct(FieldsShape::Unnamed(n)) => {
            let mut out: Vec<String> = Vec::new();
            let mut i: usize = 0;
            while i < *n
                invariant
                    i <= *n,
                    out@.len() == i,
                    forall|j: int| 0 <= j < i ==> out@[j]@ == decimal(j as nat),
                decreases *n - i,
            {
                out.push(decimal_string(i));
                i += 1;
            }
            assert(out@.map_values(|s: String| s@) =~= Seq::new(*n as nat, |j: int| decimal(j as nat)));
            Ok(out)
        },
        DataShape::Struct(FieldsShape::Unit) => {
            let out: Vec<String> = Vec::new();
            assert(out@.map_values(|s: String| s@) =~= Seq::empty());
            Ok(out)
        },
        _ => Err(ShapeError::NotAStruct),
    }
}

} // verus!
