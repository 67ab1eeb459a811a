use vstd::prelude::*;

verus! {

/// Lowest tag of the reference-counted range; every tag from here up to `-1`
/// carries a pointer to a counted heap block.
pub const TAG_FIRST: i32 = -10;

pub const TAG_STRING: i32 = -7;

pub const TAG_OBJECT: i32 = -1;

pub const TAG_INT: i32 = 0;

pub const TAG_BOOL: i32 = 1;

pub const TAG_NULL: i32 = 2;

pub const TAG_UNDEFINED: i32 = 3;

pub const TAG_EXCEPTION: i32 = 6;

pub const TAG_FLOAT64: i32 = 7;

/// What a tag says a value is, as far as the host needs to know.
#[derive(Clone, Copy, Debug, PartialEq, Eq, Structural)]
pub enum Kind {
    Integer,
    Float,
    Boolean,
    Null,
    Undefined,
    Exception,
    String,
    Object,
    /// Another reference-counted block (symbol, big number, module, ...).
    OtherCounted,
    /// An engine-internal scalar tag (uninitialized, catch offset).
    OtherScalar,
}

/// True when a value of this tag holds a share of a heap block's count.
pub open spec fn spec_has_ref_count(tag: i32) -> bool {
    TAG_FIRST <= tag < 0
}

pub open spec fn kind_of(tag: i32) -> Kind {
    if tag == TAG_INT {
        Kind::Integer
    } else if tag == TAG_FLOAT64 {
        Kind::Float
    } else if tag == TAG_BOOL {
        Kind::Boolean
    } else if tag == TAG_NULL {
        Kind::Null
    } else if tag == TAG_UNDEFINED {
        Kind::Undefined
    } else if tag == TAG_EXCEPTION {
        Kind::Exception
    } else if tag == TAG_STRING {
        Kind::String
    } else if tag == TAG_OBJECT {
        Kind::Object
    } else if spec_has_ref_count(tag) {
        Kind::OtherCounted
    } else {
        Kind::OtherScalar
    }
}

impl Kind {
    /// Classifies a raw tag.
    pub fn of_tag(tag: i32) -> (k: Kind)
        ensures
            k == kind_of(tag),
    {
        if tag == TAG_INT {
            Kind::Integer
        } else if tag == TAG_FLOAT64 {
            Kind::Float
        } else if tag == TAG_BOOL {
            Kind::Boolean
        } else if tag == TAG_NULL {
            Kind::Null
        } else if tag == TAG_UNDEFINED {
            Kind::Undefined
        } else if tag == TAG_EXCEPTION {
            Kind::Exception
        } else if tag == TAG_STRING {
            Kind::String
        } else if tag == TAG_OBJECT {
            Kind::Object
        } else if TAG_FIRST <= tag && tag < 0 {
            Kind::OtherCounted
        } else {
            Kind::OtherScalar
        }
    }

    /// True for the kinds whose values point at a counted heap block.
    pub fn is_counted(&self) -> (r: bool)
        ensures
            r == (*self is String || *self is Object || *self is OtherCounted),
    {
        match self {
            Kind::String | Kind::Object | Kind::OtherCounted => true,
            _ => false,
        }
    }
}

/// Whether a value of this tag holds a share of a heap block's count.
pub fn has_ref_count(tag: i32) -> (r: bool)
    ensures
        r == spec_has_ref_count(tag),
{
    TAG_FIRST <= tag && tag < 0
}

} // verus!
