//! Vector paths, and the bookkeeping around their tessellation.
//!
//! A `pathbuilder::Builder` takes drawing commands and leaves a `path::Path`.
//! A tessellator, which is not part of this crate, turns a path into
//! triangles; `tessellate` reads its options, makes its vertices and judges
//! how it ended, and `geometry::GeometryOutput` collects what it hands out.

use vstd::prelude::*;

pub mod additional_geometry;
pub mod geometry;
pub mod path;
pub mod pathbuilder;
pub mod tessellate;
pub mod types;
pub mod vertex;

verus! {

/// The number that holds a version in one word: the major number in the top
/// eight bits, the minor number in the next eight, the patch number in the
/// low sixteen.
pub open spec fn packed_version(major: u8, minor: u8, patch: u16) -> int {
    major * 0x100_0000 + minor * 0x1_0000 + patch
}

/// Packs a version into one word.
pub fn pack_version(major: u8, minor: u8, patch: u16) -> (r: u32)
    ensures
        r == packed_version(major, minor, patch),
{
    let r: u32 = ((major as u32) << 24) | ((minor as u32) << 16) | (patch as u32);
    assert(r == major * 0x100_0000 + minor * 0x1_0000 + patch) by (bit_vector)
        requires
            r == ((major as u32) << 24) | ((minor as u32) << 16) | (patch as u32),
    ;
    r
}

/// The version of this library, 1.0.1, packed into one word.
#[allow(non_snake_case)]
pub fn LyonVersion() -> (r: u32)
    ensures
        r == packed_version(1, 0, 1),
        r == 0x0100_0001,
{
    pack_version(1, 0, 1)
}

} // verus!
