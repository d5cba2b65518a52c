//! The kinds of geometry that the engine knows, and the numbers it uses for
//! them.

use vstd::prelude::*;

verus! {

/// The engine's geometry kinds, in the order of their type ids.
#[allow(non_camel_case_types)]
#[derive(Debug, Clone, Copy, PartialEq, Eq, Structural)]
pub enum GEOSGeomTypes {
    GEOS_POINT,
    GEOS_LINESTRING,
    GEOS_LINEARRING,
    GEOS_POLYGON,
    GEOS_MULTIPOINT,
    GEOS_MULTILINESTRING,
    GEOS_MULTIPOLYGON,
    GEOS_GEOMETRYCOLLECTION,
}

/// A failure of the engine with a fixed description.
#[derive(Clone, Copy, PartialEq, Debug)]
pub struct GeosError {
    pub desc: &'static str,
}

impl GEOSGeomTypes {
    /// The number that the engine uses for this kind.
    pub open spec fn spec_type_id(self) -> i32 {
        match self {
            GEOSGeomTypes::GEOS_POINT => 0i32,
            GEOSGeomTypes::GEOS_LINESTRING => 1i32,
            GEOSGeomTypes::GEOS_LINEARRING => 2i32,
            GEOSGeomTypes::GEOS_POLYGON => 3i32,
            GEOSGeomTypes::GEOS_MULTIPOINT => 4i32,
            GEOSGeomTypes::GEOS_MULTILINESTRING => 5i32,
            GEOSGeomTypes::GEOS_MULTIPOLYGON => 6i32,
            GEOSGeomTypes::GEOS_GEOMETRYCOLLECTION => 7i32,
        }
    }

    /// The kind that the engine means by a number, if it means one.
    pub open spec fn spec_from_type_id(id: i32) -> Option<GEOSGeomTypes> {
        if id == 0 {
            Some(GEOSGeomTypes::GEOS_POINT)
        } else if id == 1 {
            Some(GEOSGeomTypes::GEOS_LINESTRING)
        } else if id == 2 {
            Some(GEOSGeomTypes::GEOS_LINEARRING)
        } else if id == 3 {
            Some(GEOSGeomTypes::GEOS_POLYGON)
        } else if id == 4 {
            Some(GEOSGeomTypes::GEOS_MULTIPOINT)
        } else if id == 5 {
            Some(GEOSGeomTypes::GEOS_MULTILINESTRING)
        } else if id == 6 {
            Some(GEOSGeomTypes::GEOS_MULTIPOLYGON)
        } else if id == 7 {
            Some(GEOSGeomTypes::GEOS_GEOMETRYCOLLECTION)
        } else {
            None
        }
    }

    /// Whether a geometry of this kind is made of one coordinate sequence.
    pub open spec fn spec_has_coord_seq(self) -> bool {
        self is GEOS_POINT || self is GEOS_LINESTRING || self is GEOS_LINEARRING
    }

    /// The number that the engine uses for this kind.
    #[verifier::when_used_as_spec(spec_type_id)]
    pub fn type_id(self) -> (id: i32)
        ensures
            id == self.spec_type_id(),
    {
        match self {
            GEOSGeomTypes::GEOS_POINT => 0,
            GEOSGeomTypes::GEOS_LINESTRING => 1,
            GEOSGeomTypes::GEOS_LINEARRING => 2,
            GEOSGeomTypes::GEOS_POLYGON => 3,
            GEOSGeomTypes::GEOS_MULTIPOINT => 4,
            GEOSGeomTypes::GEOS_MULTILINESTRING => 5,
            GEOSGeomTypes::GEOS_MULTIPOLYGON => 6,
            GEOSGeomTypes::GEOS_GEOMETRYCOLLECTION => 7,
        }
    }

    /// Reads a type id that the engine returned: `None` for a number that
    /// names no kind.
    pub fn from_type_id(id: i32) -> (kind: Option<GEOSGeomTypes>)
        ensures
            kind == Self::spec_from_type_id(id),
    {
        match id {
            0 => Some(GEOSGeomTypes::GEOS_POINT),
            1 => Some(GEOSGeomTypes::GEOS_LINESTRING),
            2 => Some(GEOSGeomTypes::GEOS_LINEARRING),
            3 => Some(GEOSGeomTypes::GEOS_POLYGON),
            4 => Some(GEOSGeomTypes::GEOS_MULTIPOINT),
            5 => Some(GEOSGeomTypes::GEOS_MULTILINESTRING),
            6 => Some(GEOSGeomTypes::GEOS_MULTIPOLYGON),
            7 => Some(GEOSGeomTypes::GEOS_GEOMETRYCOLLECTION),
            _ => None,
        }
    }

    /// Whether a geometry of this kind is made of one coordinate sequence:
    /// a point, a line string or a linear ring.
    pub fn has_coord_seq(self) -> (b: bool)
        ensures
            b == self.spec_has_coord_seq(),
    {
        match self {
            GEOSGeomTypes::GEOS_POINT => true,
            GEOSGeomTypes::GEOS_LINESTRING => true,
            GEOSGeomTypes::GEOS_LINEARRING => true,
            _ => false,
        }
    }
}

/// Every kind is found again from its number, and a number that names a kind
/// is that kind's number: the two readings are inverse to each other.
pub proof fn lemma_type_id_round_trip(kind: GEOSGeomTypes, id: i32)
    ensures
        GEOSGeomTypes::spec_from_type_id(kind.spec_type_id()) == Some(kind),
        0 <= kind.spec_type_id() <= 7,
        GEOSGeomTypes::spec_from_type_id(id) matches Some(k) ==> k.spec_type_id() == id,
        GEOSGeomTypes::spec_from_type_id(id) is Some <==> 0 <= id <= 7,
{
}

} // verus!
