//! Pass-through chunk metadata: the codec never consults it to decide
//! behaviour; it exists so the archive layer can carry format-specific
//! annotations (such as a texture's mip range) alongside a chunk.

use core::ops::Range;
use vstd::prelude::*;

verus! {

/// Relies on the derived `Clone` of `core::ops::Range`, which clones the two
/// endpoints; vstd gives it no specification of its own.
pub assume_specification<Idx>[ <Range<Idx> as core::clone::Clone>::clone ](
    r: &Range<Idx>,
) -> (res: Range<Idx>)
    where Idx: core::clone::Clone
    ensures
        vstd::pervasive::cloned::<Idx>(r.start, res.start),
        vstd::pervasive::cloned::<Idx>(r.end, res.end),
;

/// Extra metadata for a texture-like payload: the half-open range of mip
/// levels this chunk's payload covers (inclusive start, exclusive end).
#[derive(Clone, Debug, Default, Eq, PartialEq)]
pub struct DX10 {
    pub mips: Range<u16>,
}

/// The tagged extra-metadata slot of a chunk. The default is `GNRL`: a
/// general payload with no extra data.
#[non_exhaustive]
#[derive(Clone, Debug, Eq, PartialEq)]
pub enum Extra {
    GNRL,
    DX10(DX10),
}

impl Default for Extra {
    fn default() -> (r: Self)
        ensures
            r == Extra::GNRL,
    {
        Extra::GNRL
    }
}

impl From<DX10> for Extra {
    fn from(value: DX10) -> (r: Self)
    {
        Extra::DX10(value)
    }
}

impl vstd::std_specs::convert::FromSpecImpl<DX10> for Extra {
    open spec fn obeys_from_spec() -> bool {
        true
    }

    open spec fn from_spec(value: DX10) -> Self {
        Extra::DX10(value)
    }
}

} // verus!
