//! The layout of a pipeline: here, the ranges of push constants that it
//! declares.

use vstd::prelude::*;
use vstd::layout::size_of;

verus! {

/// Implemented by a pipeline layout that can say whether push constants of
/// type `Pc` can be used with it.
pub trait PipelineLayoutPushConstantsCompatible<Pc: ?Sized> {
    /// Whether `push_constants` can be used with a pipeline of this layout.
    spec fn compatible(&self, push_constants: &Pc) -> bool;

    /// Returns true if `push_constants` can be used with a pipeline that uses
    /// `self` as layout.
    fn is_compatible(&self, push_constants: &Pc) -> (b: bool)
        ensures
            b == self.compatible(push_constants),
    ;
}

/// A range of bytes that a pipeline layout declares for push constants.
#[derive(Clone, Copy, Debug, PartialEq, Eq, Structural)]
pub struct PipelineLayoutDescPcRange {
    /// Offset in bytes from the start of the push constants to this range.
    pub offset: usize,
    /// Size in bytes of the range.
    pub size: usize,
}

impl PipelineLayoutDescPcRange {
    /// Whether the byte at `byte` lies in the range.
    pub open spec fn contains(&self, byte: int) -> bool {
        self.offset <= byte < self.offset + self.size
    }
}

/// Whether one of `ranges` holds the byte at `byte`.
pub open spec fn declared(ranges: Seq<PipelineLayoutDescPcRange>, byte: int) -> bool {
    exists|i: int| 0 <= i < ranges.len() && #[trigger] ranges[i].contains(byte)
}

/// Whether each of the first `size` bytes lies in one of `ranges`.
pub open spec fn declares_all(ranges: Seq<PipelineLayoutDescPcRange>, size: nat) -> bool {
    forall|byte: int| 0 <= byte < size ==> declared(ranges, byte)
}

/// The layout of a pipeline, as far as push constants go.
#[derive(Debug)]
pub struct PipelineLayout {
    push_constants_ranges: Vec<PipelineLayoutDescPcRange>,
}

impl View for PipelineLayout {
    type V = Seq<PipelineLayoutDescPcRange>;

    closed spec fn view(&self) -> Seq<PipelineLayoutDescPcRange> {
        self.push_constants_ranges@
    }
}

impl PipelineLayout {
    /// A layout that declares `push_constants_ranges`.
    pub fn new(push_constants_ranges: Vec<PipelineLayoutDescPcRange>) -> (layout: PipelineLayout)
        ensures
            layout@ == push_constants_ranges@,
    {
        PipelineLayout { push_constants_ranges }
    }

    /// The index of a declared range that holds the byte at `byte`, if there
    /// is one.
    fn range_of(&self, byte: usize) -> (found: Option<usize>)
        ensures
            match found {
                Some(i) => i < self@.len() && self@[i as int].contains(byte as int),
                None => !declared(self@, byte as int),
            },
    {
        let mut i: usize = 0;
        while i < self.push_constants_ranges.len()
            invariant
                i <= self@.len(),
                forall|j: int| 0 <= j < i ==> !(#[trigger] self@[j]).contains(byte as int),
            decreases self@.len() - i,
        {
            let range = &self.push_constants_ranges[i];
            if range.offset <= byte && byte - range.offset < range.size {
                return Some(i);
            }
            i += 1;
        }
        None
    }

    /// Whether push constants of `size` bytes lie in the declared ranges,
    /// byte for byte.
    pub fn declares(&self, size: usize) -> (b: bool)
        ensures
            b == declares_all(self@, size as nat),
    {
        let mut covered: usize = 0;
        while covered < size
            invariant
                covered <= size,
                forall|byte: int| 0 <= byte < covered ==> declared(self@, byte),
            decreases size - covered,
        {
            match self.range_of(covered) {
                None => {
                    return false;
                },
                Some(i) => {
                    let range = &self.push_constants_ranges[i];
                    let ahead = range.size - (covered - range.offset);
                    let wanted = size - covered;
                    let step = if ahead < wanted {
                        ahead
                    } else {
                        wanted
                    };
                    assert forall|byte: int| covered <= byte < covered + step implies declared(
                        self@,
                        byte,
                    ) by {
                        assert(self@[i as int].contains(byte));
                    }
                    covered += step;
                },
            }
        }
        true
    }
}

impl<Pc> PipelineLayoutPushConstantsCompatible<Pc> for PipelineLayout {
    /// Push constants can be used with the layout where each of their bytes
    /// lies in a range that the layout declares.
    open spec fn compatible(&self, push_constants: &Pc) -> bool {
        declares_all(self@, size_of::<Pc>())
    }

    fn is_compatible(&self, push_constants: &Pc) -> (b: bool) {
        self.declares(core::mem::size_of::<Pc>())
    }
}

} // verus!
