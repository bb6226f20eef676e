//! Scalar value types of the object model: identifiers, fixed-precision
//! coordinates, timestamps, the closed set of record kinds, and the compact
//! one-character marker under which a relation member's kind is stored.

use vstd::prelude::*;

verus! {

/// Identifier of a record. Identity is always (kind, id): a node and a way
/// may share a numeric id without being related.
pub type ObjId = i64;

/// Fixed-precision latitude, in decimicro-degrees.
#[derive(Clone, Copy, PartialEq, Eq, Structural, Debug, Hash)]
pub struct Lat(pub i32);

/// Fixed-precision longitude, in decimicro-degrees.
#[derive(Clone, Copy, PartialEq, Eq, Structural, Debug, Hash)]
pub struct Lon(pub i32);

/// An edit time, kept opaque by this model: either epoch seconds or an
/// ISO 8601 text, exactly as the producer supplied it.
#[derive(Clone, PartialEq, Debug)]
pub enum TimestampFormat {
    EpochNumber(i64),
    ISOString(String),
}

/// The closed set of record kinds. The domain fixes these three, so the
/// model dispatches by exhaustive match rather than open-ended dispatch.
#[derive(Clone, Copy, PartialEq, Eq, Structural, Debug, Hash)]
pub enum OSMObjectType {
    Node,
    Way,
    Relation,
}

/// A compact member-kind marker that names none of the three record kinds.
/// Such a marker can only come from corrupted data; it is surfaced as a
/// recoverable error, never treated as unreachable.
#[derive(Clone, Copy, PartialEq, Eq, Structural, Debug)]
pub struct InvalidMemberKind {
    pub marker: char,
}

/// The marker character under which a member of the given kind is stored.
pub open spec fn member_kind_char(t: OSMObjectType) -> char {
    match t {
        OSMObjectType::Node => 'n',
        OSMObjectType::Way => 'w',
        OSMObjectType::Relation => 'r',
    }
}

/// The kind a marker character stands for, or the error that the marker is
/// outside the closed set.
pub open spec fn member_kind_of_char(c: char) -> Result<OSMObjectType, InvalidMemberKind> {
    if c == 'n' {
        Ok(OSMObjectType::Node)
    } else if c == 'w' {
        Ok(OSMObjectType::Way)
    } else if c == 'r' {
        Ok(OSMObjectType::Relation)
    } else {
        Err(InvalidMemberKind { marker: c })
    }
}

/// Encodes a member kind as its compact marker character.
pub fn encode_member_kind(t: OSMObjectType) -> (r: char)
    ensures
        r == member_kind_char(t),
{
    match t {
        OSMObjectType::Node => 'n',
        OSMObjectType::Way => 'w',
        OSMObjectType::Relation => 'r',
    }
}

/// Decodes a compact marker character; a marker outside the closed set is a
/// data-corruption condition and is reported as an explicit error.
pub fn decode_member_kind(c: char) -> (r: Result<OSMObjectType, InvalidMemberKind>)
    ensures
        r == member_kind_of_char(c),
{
    if c == 'n' {
        Ok(OSMObjectType::Node)
    } else if c == 'w' {
        Ok(OSMObjectType::Way)
    } else if c == 'r' {
        Ok(OSMObjectType::Relation)
    } else {
        Err(InvalidMemberKind { marker: c })
    }
}

/// Law: the marker of a kind decodes back to that kind, so member kinds
/// round-trip through their compact encoding.
pub proof fn lemma_member_kind_round_trip(t: OSMObjectType)
    ensures
        member_kind_of_char(member_kind_char(t)) == Ok::<OSMObjectType, InvalidMemberKind>(t),
{
}

} // verus!
