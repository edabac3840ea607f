//! The lights of a scene. Light parameters are generic: this module keeps
//! the lists and prepares what is uploaded.
use vstd::prelude::*;

verus! {

/// The list that is uploaded for a kind of light: the lights themselves, or
/// the single `fallback` (a light that adds nothing) when there are none, so
/// that the buffer is never empty.
pub open spec fn upload_list<T>(lights: Seq<T>, fallback: T) -> Seq<T> {
    if lights.len() > 0 {
        lights
    } else {
        seq![fallback]
    }
}

/// A copy of the lights, or `[fallback]` when there are none.
pub fn non_empty_or<T: Copy>(lights: &Vec<T>, fallback: T) -> (r: Vec<T>)
    ensures
        r@ == upload_list(lights@, fallback),
{
    if lights.len() == 0 {
        let mut r: Vec<T> = Vec::new();
        r.push(fallback);
        assert(r@ =~= seq![fallback]);
        r
    } else {
        let mut out: Vec<T> = Vec::new();
        let mut i: usize = 0;
        while i < lights.len()
            invariant
                i <= lights@.len(),
                out@ == lights@.take(i as int),
            decreases lights@.len() - i,
        {
            out.push(lights[i]);
            i = i + 1;
            assert(out@ =~= lights@.take(i as int));
        }
        assert(lights@.take(i as int) =~= lights@);
        out
    }
}

/// The ambient, directional and point lights of a scene.
#[derive(Clone, Debug)]
pub struct Lights<A, D, P> {
    pub ambient: Vec<A>,
    pub directional: Vec<D>,
    pub point: Vec<P>,
}

impl<A: Copy, D: Copy, P: Copy> Lights<A, D, P> {
    /// No lights.
    pub fn new() -> (r: Self)
        ensures
            r.ambient@.len() == 0,
            r.directional@.len() == 0,
            r.point@.len() == 0,
    {
        Lights { ambient: Vec::new(), directional: Vec::new(), point: Vec::new() }
    }

    /// No lights.
    pub fn empty() -> (r: Self)
        ensures
            r.ambient@.len() == 0,
            r.directional@.len() == 0,
            r.point@.len() == 0,
    {
        Self::new()
    }

    /// The given lists.
    pub fn from_lists(ambient: Vec<A>, directional: Vec<D>, point: Vec<P>) -> (r: Self)
        ensures
            r.ambient@ == ambient@,
            r.directional@ == directional@,
            r.point@ == point@,
    {
        Lights { ambient, directional, point }
    }

    /// The lights with one more ambient light.
    pub fn ambient(self, light: A) -> (r: Self)
        ensures
            r.ambient@ == self.ambient@.push(light),
            r.directional@ == self.directional@,
            r.point@ == self.point@,
    {
        let Lights { mut ambient, directional, point } = self;
        ambient.push(light);
        Lights { ambient, directional, point }
    }

    /// The lights with one more point light.
    pub fn point(self, light: P) -> (r: Self)
        ensures
            r.ambient@ == self.ambient@,
            r.directional@ == self.directional@,
            r.point@ == self.point@.push(light),
    {
        let Lights { ambient, directional, mut point } = self;
        point.push(light);
        Lights { ambient, directional, point }
    }

    /// The lights with one more directional light.
    pub fn directional(self, light: D) -> (r: Self)
        ensures
            r.ambient@ == self.ambient@,
            r.directional@ == self.directional@.push(light),
            r.point@ == self.point@,
    {
        let Lights { ambient, mut directional, point } = self;
        directional.push(light);
        Lights { ambient, directional, point }
    }

    /// The three lists to upload, each with its fallback light when empty.
    pub fn upload_lists(&self, zero_ambient: A, zero_directional: D, zero_point: P) -> (r: (
        Vec<A>,
        Vec<D>,
        Vec<P>,
    ))
        ensures
            r.0@ == upload_list(self.ambient@, zero_ambient),
            r.1@ == upload_list(self.directional@, zero_directional),
            r.2@ == upload_list(self.point@, zero_point),
    {
        (
            non_empty_or(&self.ambient, zero_ambient),
            non_empty_or(&self.directional, zero_directional),
            non_empty_or(&self.point, zero_point),
        )
    }
}

/// An uploaded light list is never empty, and holds exactly the lights when
/// there are any.
pub proof fn law_upload_list_never_empty<T>(lights: Seq<T>, fallback: T)
    ensures
        upload_list(lights, fallback).len() >= 1,
        lights.len() > 0 ==> upload_list(lights, fallback) == lights,
        lights.len() == 0 ==> upload_list(lights, fallback) == seq![fallback],
{
}

} // verus!
