//! Decoders for the binary asset formats of a reverse-engineered game engine:
//! the self-describing token stream that carries a level's object graph, and
//! the fixed-layout headers of the package, resource, texture, actor and
//! collision-mesh assets that surround it.
use vstd::prelude::*;

pub mod actr;
pub mod byteread;
pub mod cmes;
pub mod collision_mesh;
pub mod fetm;
pub mod gcp;
pub mod package;
pub mod resource;
pub mod texr;

verus! {

/// Structural failures shared by every byte-level reader in the crate.
#[derive(Copy, Clone, Debug, PartialEq, Eq, Structural)]
pub enum ParseError {
    UnexpectedEnd,
    BadMagic,
    ZeroFiles,
    ZeroTags,
    ZeroStrings,
    ZeroWidth,
    ZeroHeight,
    ZeroOffset,
    ZeroSize,
    ZeroTriangles,
    ZeroNormals,
    ZeroVertices,
    ZeroGeometry,
}

} // verus!
