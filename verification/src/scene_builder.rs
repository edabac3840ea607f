//! Assembling a scene to render: a camera is required, the background has
//! a default, and lights and geometry default to empty ones.
use vstd::prelude::*;

verus! {

/// The parts of a scene gathered before it is built.
#[derive(Debug)]
pub struct SceneBuilder<Cam, Bg, L, G> {
    pub camera: Option<Cam>,
    pub background: Bg,
    pub lights: Option<L>,
    pub geometry: Option<G>,
}

/// A scene ready to render.
#[derive(Debug)]
pub struct Scene<Cam, Bg, L, G> {
    pub background: Bg,
    pub camera: Cam,
    pub lights: L,
    pub geometry: G,
}

impl<Cam, Bg, L, G> SceneBuilder<Cam, Bg, L, G> {
    /// Nothing chosen yet; the background is `background` until another is
    /// set.
    pub fn empty(background: Bg) -> (r: Self)
        ensures
            r == empty_builder::<Cam, Bg, L, G>(background),
    {
        SceneBuilder { camera: None, background, lights: None, geometry: None }
    }

    /// Chooses the camera; the builder is handed back for further choices.
    pub fn camera(&mut self, camera: Cam) -> (r: &mut Self)
        ensures
            *r == after_call(*old(self), BuilderCall::Camera(camera)),
            *final(self) == *final(r),
    {
        self.camera = Some(camera);
        self
    }

    /// Chooses the background.
    pub fn background(&mut self, background: Bg) -> (r: &mut Self)
        ensures
            *r == after_call(*old(self), BuilderCall::Background(background)),
            *final(self) == *final(r),
    {
        self.background = background;
        self
    }

    /// Chooses the lights.
    pub fn lights(&mut self, lights: L) -> (r: &mut Self)
        ensures
            *r == after_call(*old(self), BuilderCall::Lights(lights)),
            *final(self) == *final(r),
    {
        self.lights = Some(lights);
        self
    }

    /// Chooses the geometry.
    pub fn geometry(&mut self, geometry: G) -> (r: &mut Self)
        ensures
            *r == after_call(*old(self), BuilderCall::Geometry(geometry)),
            *final(self) == *final(r),
    {
        self.geometry = Some(geometry);
        self
    }

    /// The scene: the chosen camera (one must have been chosen), the
    /// background, and the chosen lights and geometry or, where none was
    /// chosen, the empty ones given.
    pub fn build(self, no_lights: L, no_geometry: G) -> (r: Scene<Cam, Bg, L, G>)
        requires
            self.camera is Some,
        ensures
            r.camera == self.camera->0,
            r.background == self.background,
            r.lights == match self.lights {
                Some(l) => l,
                None => no_lights,
            },
            r.geometry == match self.geometry {
                Some(g) => g,
                None => no_geometry,
            },
    {
        let SceneBuilder { camera, background, lights, geometry } = self;
        let camera = camera.unwrap();
        let lights = match lights {
            Some(l) => l,
            None => no_lights,
        };
        let geometry = match geometry {
            Some(g) => g,
            None => no_geometry,
        };
        Scene { background, camera, lights, geometry }
    }
}

/// A builder on which nothing was chosen yet.
pub open spec fn empty_builder<Cam, Bg, L, G>(background: Bg) -> SceneBuilder<Cam, Bg, L, G> {
    SceneBuilder { camera: None, background, lights: None, geometry: None }
}

/// One choice made on a builder.
pub enum BuilderCall<Cam, Bg, L, G> {
    Camera(Cam),
    Background(Bg),
    Lights(L),
    Geometry(G),
}

/// The builder after one choice.
pub open spec fn after_call<Cam, Bg, L, G>(
    b: SceneBuilder<Cam, Bg, L, G>,
    call: BuilderCall<Cam, Bg, L, G>,
) -> SceneBuilder<Cam, Bg, L, G> {
    match call {
        BuilderCall::Camera(c) => SceneBuilder { camera: Some(c), ..b },
        BuilderCall::Background(x) => SceneBuilder { background: x, ..b },
        BuilderCall::Lights(l) => SceneBuilder { lights: Some(l), ..b },
        BuilderCall::Geometry(g) => SceneBuilder { geometry: Some(g), ..b },
    }
}

/// The builder after a series of choices, in order.
pub open spec fn after_calls<Cam, Bg, L, G>(
    b: SceneBuilder<Cam, Bg, L, G>,
    calls: Seq<BuilderCall<Cam, Bg, L, G>>,
) -> SceneBuilder<Cam, Bg, L, G>
    decreases calls.len(),
{
    if calls.len() == 0 {
        b
    } else {
        after_call(after_calls(b, calls.drop_last()), calls.last())
    }
}

/// The last camera chosen among `calls`.
pub open spec fn last_camera<Cam, Bg, L, G>(calls: Seq<BuilderCall<Cam, Bg, L, G>>) -> Option<Cam>
    decreases calls.len(),
{
    if calls.len() == 0 {
        None
    } else if let BuilderCall::Camera(c) = calls.last() {
        Some(c)
    } else {
        last_camera(calls.drop_last())
    }
}

/// The last background chosen among `calls`, or `default`.
pub open spec fn last_background<Cam, Bg, L, G>(calls: Seq<BuilderCall<Cam, Bg, L, G>>, default: Bg) -> Bg
    decreases calls.len(),
{
    if calls.len() == 0 {
        default
    } else if let BuilderCall::Background(x) = calls.last() {
        x
    } else {
        last_background(calls.drop_last(), default)
    }
}

/// The last lights chosen among `calls`.
pub open spec fn last_lights<Cam, Bg, L, G>(calls: Seq<BuilderCall<Cam, Bg, L, G>>) -> Option<L>
    decreases calls.len(),
{
    if calls.len() == 0 {
        None
    } else if let BuilderCall::Lights(l) = calls.last() {
        Some(l)
    } else {
        last_lights(calls.drop_last())
    }
}

/// The last geometry chosen among `calls`.
pub open spec fn last_geometry<Cam, Bg, L, G>(calls: Seq<BuilderCall<Cam, Bg, L, G>>) -> Option<G>
    decreases calls.len(),
{
    if calls.len() == 0 {
        None
    } else if let BuilderCall::Geometry(g) = calls.last() {
        Some(g)
    } else {
        last_geometry(calls.drop_last())
    }
}

/// Whatever choices are made on an empty builder, and in whatever order,
/// it holds the last camera, background, lights and geometry chosen (the
/// background it started with when none was chosen); so the scene it
/// builds has those, with the given empty lights and geometry where none
/// were chosen, and it can be built exactly when a camera was chosen.
pub proof fn law_build_takes_last_choices<Cam, Bg, L, G>(
    background: Bg,
    calls: Seq<BuilderCall<Cam, Bg, L, G>>,
)
    ensures
        after_calls(empty_builder::<Cam, Bg, L, G>(background), calls).camera
            == last_camera(calls),
        after_calls(empty_builder::<Cam, Bg, L, G>(background), calls).background
            == last_background(calls, background),
        after_calls(empty_builder::<Cam, Bg, L, G>(background), calls).lights
            == last_lights(calls),
        after_calls(empty_builder::<Cam, Bg, L, G>(background), calls).geometry
            == last_geometry(calls),
    decreases calls.len(),
{
    if calls.len() > 0 {
        law_build_takes_last_choices(background, calls.drop_last());
    }
}

} // verus!
