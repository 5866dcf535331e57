//! The indices that a draw call reads its vertices by.

use vstd::prelude::*;

verus! {

/// The integer type of the indices in an index buffer.
#[derive(Clone, Copy, Debug, PartialEq, Eq, Structural)]
pub enum IndexType {
    U16,
    U32,
}

impl IndexType {
    /// The number of bytes that one index takes.
    pub open spec fn bytes(self) -> usize {
        match self {
            IndexType::U16 => 2,
            IndexType::U32 => 4,
        }
    }

    /// The number of bytes that one index takes.
    pub fn size(self) -> (n: usize)
        ensures
            n == self.bytes(),
    {
        match self {
            IndexType::U16 => 2,
            IndexType::U32 => 4,
        }
    }
}

/// Implemented by the integer types that can be indices.
pub trait Index {
    /// The index type that the integer type stands for.
    spec fn index_type() -> IndexType;

    /// The index type that the integer type stands for.
    fn ty() -> (t: IndexType)
        ensures
            t == Self::index_type(),
    ;
}

impl Index for u16 {
    open spec fn index_type() -> IndexType {
        IndexType::U16
    }

    fn ty() -> (t: IndexType) {
        IndexType::U16
    }
}

impl Index for u32 {
    open spec fn index_type() -> IndexType {
        IndexType::U32
    }

    fn ty() -> (t: IndexType) {
        IndexType::U32
    }
}

} // verus!
