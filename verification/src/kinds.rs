//! The DWARF codes that debug-information attributes carry.
use vstd::prelude::*;

verus! {

/// DWARF emission kind for a compile unit.
#[derive(Debug, Clone, Copy, PartialEq, Eq, Structural)]
pub enum DIEmissionKind {
    /// No debug information (MLIR's `None`).
    NoDebug,
    Full,
    LineTablesOnly,
    DebugDirectivesOnly,
}

impl DIEmissionKind {
    /// The code that MLIR receives for this kind.
    pub open spec fn spec_value(self) -> u32 {
        match self {
            DIEmissionKind::NoDebug => 0,
            DIEmissionKind::Full => 1,
            DIEmissionKind::LineTablesOnly => 2,
            DIEmissionKind::DebugDirectivesOnly => 3,
        }
    }

    /// The code that MLIR receives for this kind.
    #[verifier::when_used_as_spec(spec_value)]
    pub fn value(self) -> (r: u32)
        ensures
            r == self.spec_value(),
    {
        match self {
            DIEmissionKind::NoDebug => 0,
            DIEmissionKind::Full => 1,
            DIEmissionKind::LineTablesOnly => 2,
            DIEmissionKind::DebugDirectivesOnly => 3,
        }
    }
}

/// Name table kind for a compile unit.
#[derive(Debug, Clone, Copy, PartialEq, Eq, Structural)]
pub enum DINameTableKind {
    Default,
    GNU,
    /// No name table (MLIR's `None`).
    NoNames,
    Apple,
}

impl DINameTableKind {
    /// The code that MLIR receives for this kind.
    pub open spec fn spec_value(self) -> u32 {
        match self {
            DINameTableKind::Default => 0,
            DINameTableKind::GNU => 1,
            DINameTableKind::NoNames => 2,
            DINameTableKind::Apple => 3,
        }
    }

    /// The code that MLIR receives for this kind.
    #[verifier::when_used_as_spec(spec_value)]
    pub fn value(self) -> (r: u32)
        ensures
            r == self.spec_value(),
    {
        match self {
            DINameTableKind::Default => 0,
            DINameTableKind::GNU => 1,
            DINameTableKind::NoNames => 2,
            DINameTableKind::Apple => 3,
        }
    }
}

/// DWARF type encodings for basic types.
#[derive(Debug, Clone, Copy, PartialEq, Eq, Structural)]
pub enum DITypeEncoding {
    Address,
    Boolean,
    ComplexFloat,
    Float,
    Signed,
    SignedChar,
    Unsigned,
    UnsignedChar,
}

impl DITypeEncoding {
    /// The `DW_ATE_*` code of this encoding.
    pub open spec fn spec_value(self) -> u32 {
        match self {
            DITypeEncoding::Address => 1,
            DITypeEncoding::Boolean => 2,
            DITypeEncoding::ComplexFloat => 3,
            DITypeEncoding::Float => 4,
            DITypeEncoding::Signed => 5,
            DITypeEncoding::SignedChar => 6,
            DITypeEncoding::Unsigned => 7,
            DITypeEncoding::UnsignedChar => 8,
        }
    }

    /// The `DW_ATE_*` code of this encoding.
    #[verifier::when_used_as_spec(spec_value)]
    pub fn value(self) -> (r: u32)
        ensures
            r == self.spec_value(),
    {
        match self {
            DITypeEncoding::Address => 1,
            DITypeEncoding::Boolean => 2,
            DITypeEncoding::ComplexFloat => 3,
            DITypeEncoding::Float => 4,
            DITypeEncoding::Signed => 5,
            DITypeEncoding::SignedChar => 6,
            DITypeEncoding::Unsigned => 7,
            DITypeEncoding::UnsignedChar => 8,
        }
    }
}

/// DWARF tags for types and other entities.
///
/// Only the most common tags are included here. The constructors accept any
/// DWARF tag as a `u32`.
#[derive(Debug, Clone, Copy, PartialEq, Eq, Structural)]
pub enum DITag {
    BaseType,
    ClassType,
    EnumerationType,
    Member,
    PointerType,
    ReferenceType,
    StructureType,
    Typedef,
    UnionType,
    ArrayType,
    SubrangeType,
    ConstType,
    VolatileType,
    RestrictType,
}

impl DITag {
    /// The `DW_TAG_*` code of this tag.
    pub open spec fn spec_value(self) -> u32 {
        match self {
            DITag::BaseType => 0x24,
            DITag::ClassType => 0x02,
            DITag::EnumerationType => 0x04,
            DITag::Member => 0x0d,
            DITag::PointerType => 0x0f,
            DITag::ReferenceType => 0x10,
            DITag::StructureType => 0x13,
            DITag::Typedef => 0x16,
            DITag::UnionType => 0x17,
            DITag::ArrayType => 0x01,
            DITag::SubrangeType => 0x21,
            DITag::ConstType => 0x26,
            DITag::VolatileType => 0x35,
            DITag::RestrictType => 0x37,
        }
    }

    /// The `DW_TAG_*` code of this tag.
    #[verifier::when_used_as_spec(spec_value)]
    pub fn value(self) -> (r: u32)
        ensures
            r == self.spec_value(),
    {
        match self {
            DITag::BaseType => 0x24,
            DITag::ClassType => 0x02,
            DITag::EnumerationType => 0x04,
            DITag::Member => 0x0d,
            DITag::PointerType => 0x0f,
            DITag::ReferenceType => 0x10,
            DITag::StructureType => 0x13,
            DITag::Typedef => 0x16,
            DITag::UnionType => 0x17,
            DITag::ArrayType => 0x01,
            DITag::SubrangeType => 0x21,
            DITag::ConstType => 0x26,
            DITag::VolatileType => 0x35,
            DITag::RestrictType => 0x37,
        }
    }
}

} // verus!
