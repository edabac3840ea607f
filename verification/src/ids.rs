//! Plain identifiers shared by the scene, the model and the material set.
use vstd::prelude::*;

verus! {

/// Identifies one object (surface, edge or point) of a model.
#[derive(Clone, Copy, Debug, PartialEq, Eq, Structural)]
pub struct ModelObjectId(pub u32);

impl ModelObjectId {
    /// The raw identifier.
    pub fn value(&self) -> (r: u32)
        ensures
            r == self.0,
    {
        self.0
    }
}

impl From<u32> for ModelObjectId {
    fn from(value: u32) -> (r: Self) {
        ModelObjectId(value)
    }
}

impl vstd::std_specs::convert::FromSpecImpl<u32> for ModelObjectId {
    open spec fn obeys_from_spec() -> bool {
        true
    }

    open spec fn from_spec(v: u32) -> Self {
        ModelObjectId(v)
    }
}

/// Identifies a scene object by the colour it is drawn with in the picking pass.
#[derive(Clone, Copy, Debug, PartialEq, Eq, Structural)]
pub struct ColorId(pub u32);

impl ColorId {
    /// The raw identifier.
    pub fn value(&self) -> (r: u32)
        ensures
            r == self.0,
    {
        self.0
    }

    /// The object a picking-pass pixel shows: 0 is the background, any other
    /// value identifies an object.
    pub fn from_picked(raw: u32) -> (r: Option<ColorId>)
        ensures
            raw == 0 ==> r is None,
            raw != 0 ==> r == Some(ColorId(raw)),
    {
        if raw > 0 {
            Some(ColorId(raw))
        } else {
            None
        }
    }
}

} // verus!
