//! The collision-mesh asset: the mesh organization selector.
use vstd::prelude::*;

verus! {

/// The three collision-mesh organizations the engine distinguishes.
#[derive(Copy, Clone, Debug, PartialEq, Eq, Structural)]
pub enum Kind {
    Cell,
    AabbTree,
    Heirarchy,
}

impl Kind {
    /// The kind a type word selects, if any.
    pub open spec fn spec_try_from(value: u32) -> Result<Kind, ()> {
        if value == 0 {
            Ok(Kind::Cell)
        } else if value == 1 {
            Ok(Kind::AabbTree)
        } else if value == 2 {
            Ok(Kind::Heirarchy)
        } else {
            Err(())
        }
    }

    /// Decodes the collision-mesh type word.
    pub fn try_from(value: u32) -> (r: Result<Self, ()>)
        ensures
            r == Self::spec_try_from(value),
    {
        match value {
            0 => Ok(Kind::Cell),
            1 => Ok(Kind::AabbTree),
            2 => Ok(Kind::Heirarchy),
            _ => Err(()),
        }
    }
}

} // verus!
