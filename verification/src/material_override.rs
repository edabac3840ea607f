//! Overriding some properties of a physically based material (used to draw
//! hovered and selected objects): each property the override sets replaces
//! the material's own, the others stay. Colours are either replaced or
//! blended towards a target colour by an amount; the blend itself is
//! colour arithmetic that the caller supplies.
use vstd::prelude::*;
use crate::selection::{spec_highlight, Highlight};

verus! {

/// How an override changes a colour.
#[derive(Clone, Copy, Debug)]
pub enum ColorOverride<Col, Amount> {
    /// The colour is replaced by this one.
    Replace(Col),
    /// The colour is moved towards this one by the amount.
    Blend(Col, Amount),
}

/// The colour `original` becomes under `o`, where `blend` blends colours:
/// `r` is the result.
pub open spec fn color_override_result<Col, Amount, B: Fn(Col, Col, Amount) -> Col>(
    o: ColorOverride<Col, Amount>,
    original: Col,
    blend: B,
    r: Col,
) -> bool {
    match o {
        ColorOverride::Replace(c) => r == c,
        ColorOverride::Blend(target, amount) => call_ensures(blend, (original, target, amount), r),
    }
}

impl<Col: Copy, Amount: Copy> ColorOverride<Col, Amount> {
    /// The colour `original` becomes: the replacement, or the blend of
    /// `original` towards the target by the amount.
    pub fn apply_to<B: Fn(Col, Col, Amount) -> Col>(&self, original: Col, blend: &B) -> (r: Col)
        requires
            forall|a: Col, b: Col, t: Amount| #[trigger] call_requires(*blend, (a, b, t)),
        ensures
            color_override_result(*self, original, *blend, r),
    {
        match *self {
            ColorOverride::Replace(c) => c,
            ColorOverride::Blend(target, amount) => blend(original, target, amount),
        }
    }
}

/// The properties of a physically based material that an override can
/// change: colours, textures (each optional), numbers, render states and the
/// lighting model.
#[derive(Clone, Copy, Debug)]
pub struct MaterialProperties<Col, Tex, Num, States, Lighting> {
    pub albedo: Col,
    pub albedo_texture: Option<Tex>,
    pub metallic: Num,
    pub roughness: Num,
    pub metallic_roughness_texture: Option<Tex>,
    pub occlusion_strength: Num,
    pub occlusion_texture: Option<Tex>,
    pub normal_scale: Num,
    pub normal_texture: Option<Tex>,
    pub render_states: States,
    pub is_transparent: bool,
    pub emissive: Col,
    pub emissive_texture: Option<Tex>,
    pub lighting_model: Lighting,
}

/// Which properties an override sets, and to what.
#[derive(Clone, Copy, Debug)]
pub struct PhysicalMaterialOverride<Col, Amount, Tex, Num, States, Lighting> {
    pub albedo: Option<ColorOverride<Col, Amount>>,
    pub albedo_texture: Option<Option<Tex>>,
    pub metallic: Option<Num>,
    pub roughness: Option<Num>,
    pub metallic_roughness_texture: Option<Option<Tex>>,
    pub occlusion_strength: Option<Num>,
    pub occlusion_texture: Option<Option<Tex>>,
    pub normal_scale: Option<Num>,
    pub normal_texture: Option<Option<Tex>>,
    pub render_states: Option<States>,
    pub is_transparent: Option<bool>,
    pub emissive: Option<ColorOverride<Col, Amount>>,
    pub emissive_texture: Option<Option<Tex>>,
    pub lighting_model: Option<Lighting>,
}

/// The value an override sets, or the one that was there.
pub open spec fn set_or_keep<T>(set: Option<T>, current: T) -> T {
    match set {
        Some(v) => v,
        None => current,
    }
}

/// The colour that stays or that an optional colour override gives.
pub open spec fn color_set_or_keep<Col, Amount, B: Fn(Col, Col, Amount) -> Col>(
    o: Option<ColorOverride<Col, Amount>>,
    original: Col,
    blend: B,
    r: Col,
) -> bool {
    match o {
        Some(c) => color_override_result(c, original, blend, r),
        None => r == original,
    }
}

impl<
    Col: Copy,
    Amount: Copy,
    Tex: Copy,
    Num: Copy,
    States: Copy,
    Lighting: Copy,
> PhysicalMaterialOverride<Col, Amount, Tex, Num, States, Lighting> {
    /// An override that changes nothing.
    pub fn new() -> (r: Self)
        ensures
            r.albedo is None && r.albedo_texture is None && r.metallic is None && r.roughness is None
                && r.metallic_roughness_texture is None && r.occlusion_strength is None
                && r.occlusion_texture is None && r.normal_scale is None && r.normal_texture is None
                && r.render_states is None && r.is_transparent is None && r.emissive is None
                && r.emissive_texture is None && r.lighting_model is None,
    {
        PhysicalMaterialOverride {
            albedo: None,
            albedo_texture: None,
            metallic: None,
            roughness: None,
            metallic_roughness_texture: None,
            occlusion_strength: None,
            occlusion_texture: None,
            normal_scale: None,
            normal_texture: None,
            render_states: None,
            is_transparent: None,
            emissive: None,
            emissive_texture: None,
            lighting_model: None,
        }
    }

    /// The same override, which also sets `albedo`.
    pub fn with_albedo(self, albedo: ColorOverride<Col, Amount>) -> (r: Self)
        ensures
            r == (Self { albedo: Some(albedo), ..self }),
    {
        Self { albedo: Some(albedo), ..self }
    }

    /// The same override, which also sets `albedo_texture`.
    pub fn with_albedo_texture(self, albedo_texture: Option<Tex>) -> (r: Self)
        ensures
            r == (Self { albedo_texture: Some(albedo_texture), ..self }),
    {
        Self { albedo_texture: Some(albedo_texture), ..self }
    }

    /// The same override, which also sets `metallic`.
    pub fn with_metallic(self, metallic: Num) -> (r: Self)
        ensures
            r == (Self { metallic: Some(metallic), ..self }),
    {
        Self { metallic: Some(metallic), ..self }
    }

    /// The same override, which also sets `roughness`.
    pub fn with_roughness(self, roughness: Num) -> (r: Self)
        ensures
            r == (Self { roughness: Some(roughness), ..self }),
    {
        Self { roughness: Some(roughness), ..self }
    }

    /// The same override, which also sets `metallic_roughness_texture`.
    pub fn with_metallic_roughness_texture(self, metallic_roughness_texture: Option<Tex>) -> (r: Self)
        ensures
            r == (Self { metallic_roughness_texture: Some(metallic_roughness_texture), ..self }),
    {
        Self { metallic_roughness_texture: Some(metallic_roughness_texture), ..self }
    }

    /// The same override, which also sets `occlusion_strength`.
    pub fn with_occlusion_strength(self, occlusion_strength: Num) -> (r: Self)
        ensures
            r == (Self { occlusion_strength: Some(occlusion_strength), ..self }),
    {
        Self { occlusion_strength: Some(occlusion_strength), ..self }
    }

    /// The same override, which also sets `occlusion_texture`.
    pub fn with_occlusion_texture(self, occlusion_texture: Option<Tex>) -> (r: Self)
        ensures
            r == (Self { occlusion_texture: Some(occlusion_texture), ..self }),
    {
        Self { occlusion_texture: Some(occlusion_texture), ..self }
    }

    /// The same override, which also sets `normal_scale`.
    pub fn with_normal_scale(self, normal_scale: Num) -> (r: Self)
        ensures
            r == (Self { normal_scale: Some(normal_scale), ..self }),
    {
        Self { normal_scale: Some(normal_scale), ..self }
    }

    /// The same override, which also sets `normal_texture`.
    pub fn with_normal_texture(self, normal_texture: Option<Tex>) -> (r: Self)
        ensures
            r == (Self { normal_texture: Some(normal_texture), ..self }),
    {
        Self { normal_texture: Some(normal_texture), ..self }
    }

    /// The same override, which also sets `render_states`.
    pub fn with_render_states(self, render_states: States) -> (r: Self)
        ensures
            r == (Self { render_states: Some(render_states), ..self }),
    {
        Self { render_states: Some(render_states), ..self }
    }

    /// The same override, which also sets `is_transparent`.
    pub fn with_is_transparent(self, is_transparent: bool) -> (r: Self)
        ensures
            r == (Self { is_transparent: Some(is_transparent), ..self }),
    {
        Self { is_transparent: Some(is_transparent), ..self }
    }

    /// The same override, which also sets `emissive`.
    pub fn with_emissive(self, emissive: ColorOverride<Col, Amount>) -> (r: Self)
        ensures
            r == (Self { emissive: Some(emissive), ..self }),
    {
        Self { emissive: Some(emissive), ..self }
    }

    /// The same override, which also sets `emissive_texture`.
    pub fn with_emissive_texture(self, emissive_texture: Option<Tex>) -> (r: Self)
        ensures
            r == (Self { emissive_texture: Some(emissive_texture), ..self }),
    {
        Self { emissive_texture: Some(emissive_texture), ..self }
    }

    /// The same override, which also sets `lighting_model`.
    pub fn with_lighting_model(self, lighting_model: Lighting) -> (r: Self)
        ensures
            r == (Self { lighting_model: Some(lighting_model), ..self }),
    {
        Self { lighting_model: Some(lighting_model), ..self }
    }

    /// The material with every property this override sets changed, and
    /// every other property as it was.
    pub fn apply_to<B: Fn(Col, Col, Amount) -> Col>(
        &self,
        material: &MaterialProperties<Col, Tex, Num, States, Lighting>,
        blend: &B,
    ) -> (r: MaterialProperties<Col, Tex, Num, States, Lighting>)
        requires
            forall|a: Col, b: Col, t: Amount| #[trigger] call_requires(*blend, (a, b, t)),
        ensures
            color_set_or_keep(self.albedo, material.albedo, *blend, r.albedo),
            r.albedo_texture == set_or_keep(self.albedo_texture, material.albedo_texture),
            r.metallic == set_or_keep(self.metallic, material.metallic),
            r.roughness == set_or_keep(self.roughness, material.roughness),
            r.metallic_roughness_texture == set_or_keep(
                self.metallic_roughness_texture,
                material.metallic_roughness_texture,
            ),
            r.occlusion_strength == set_or_keep(self.occlusion_strength, material.occlusion_strength),
            r.occlusion_texture == set_or_keep(self.occlusion_texture, material.occlusion_texture),
            r.normal_scale == set_or_keep(self.normal_scale, material.normal_scale),
            r.normal_texture == set_or_keep(self.normal_texture, material.normal_texture),
            r.render_states == set_or_keep(self.render_states, material.render_states),
            r.is_transparent == set_or_keep(self.is_transparent, material.is_transparent),
            color_set_or_keep(self.emissive, material.emissive, *blend, r.emissive),
            r.emissive_texture == set_or_keep(self.emissive_texture, material.emissive_texture),
            r.lighting_model == set_or_keep(self.lighting_model, material.lighting_model),
    {
        MaterialProperties {
            albedo: color_set_or_keep_exec(self.albedo, material.albedo, blend),
            albedo_texture: set_or_keep_exec(self.albedo_texture, material.albedo_texture),
            metallic: set_or_keep_exec(self.metallic, material.metallic),
            roughness: set_or_keep_exec(self.roughness, material.roughness),
            metallic_roughness_texture: set_or_keep_exec(
                self.metallic_roughness_texture,
                material.metallic_roughness_texture,
            ),
            occlusion_strength: set_or_keep_exec(self.occlusion_strength, material.occlusion_strength),
            occlusion_texture: set_or_keep_exec(self.occlusion_texture, material.occlusion_texture),
            normal_scale: set_or_keep_exec(self.normal_scale, material.normal_scale),
            normal_texture: set_or_keep_exec(self.normal_texture, material.normal_texture),
            render_states: set_or_keep_exec(self.render_states, material.render_states),
            is_transparent: set_or_keep_exec(self.is_transparent, material.is_transparent),
            emissive: color_set_or_keep_exec(self.emissive, material.emissive, blend),
            emissive_texture: set_or_keep_exec(self.emissive_texture, material.emissive_texture),
            lighting_model: set_or_keep_exec(self.lighting_model, material.lighting_model),
        }
    }
}

/// The value an override sets, or the one that was there.
fn set_or_keep_exec<T: Copy>(set: Option<T>, current: T) -> (r: T)
    ensures
        r == set_or_keep(set, current),
{
    match set {
        Some(v) => v,
        None => current,
    }
}

/// The colour an optional colour override gives, or the one that was there.
fn color_set_or_keep_exec<Col: Copy, Amount: Copy, B: Fn(Col, Col, Amount) -> Col>(
    o: Option<ColorOverride<Col, Amount>>,
    original: Col,
    blend: &B,
) -> (r: Col)
    requires
        forall|a: Col, b: Col, t: Amount| #[trigger] call_requires(*blend, (a, b, t)),
    ensures
        color_set_or_keep(o, original, *blend, r),
{
    match o {
        Some(c) => c.apply_to(original, blend),
        None => original,
    }
}

/// The colours hovered and selected objects glow in.
#[derive(Clone, Copy, Debug)]
pub struct Palette<Col> {
    pub hover_color: Col,
    pub select_color: Col,
}

impl<Col: Copy> Palette<Col> {
    /// The override an object is drawn with: a selected object glows in the
    /// selection colour (whether hovered or not), a hovered one in the hover
    /// colour, and nothing else changes.
    pub fn physical_material_override<
        Amount: Copy,
        Tex: Copy,
        Num: Copy,
        States: Copy,
        Lighting: Copy,
    >(&self, hovered: bool, selected: bool) -> (r: PhysicalMaterialOverride<
        Col,
        Amount,
        Tex,
        Num,
        States,
        Lighting,
    >)
        ensures
            r.emissive == palette_emissive::<Col, Amount>(*self, hovered, selected),
            r.albedo is None && r.albedo_texture is None && r.metallic is None && r.roughness is None
                && r.metallic_roughness_texture is None && r.occlusion_strength is None
                && r.occlusion_texture is None && r.normal_scale is None && r.normal_texture is None
                && r.render_states is None && r.is_transparent is None && r.emissive_texture is None
                && r.lighting_model is None,
    {
        let mut mat = PhysicalMaterialOverride::new();
        if hovered {
            mat.emissive = Some(ColorOverride::Replace(self.hover_color));
        }
        if selected {
            mat.emissive = Some(ColorOverride::Replace(self.select_color));
        }
        mat
    }
}

/// The emissive override the palette gives an object.
pub open spec fn palette_emissive<Col, Amount>(p: Palette<Col>, hovered: bool, selected: bool) -> Option<
    ColorOverride<Col, Amount>,
> {
    if selected {
        Some(ColorOverride::Replace(p.select_color))
    } else if hovered {
        Some(ColorOverride::Replace(p.hover_color))
    } else {
        None
    }
}

/// The palette's override draws an object as its highlight says: in the
/// selection colour when selected (hovered or not), in the hover colour
/// when only hovered, and unchanged otherwise.
pub proof fn law_override_follows_highlight<Col, Amount>(
    p: Palette<Col>,
    hovered: bool,
    selected: bool,
)
    ensures
        spec_highlight(hovered, selected) == Highlight::Select ==> palette_emissive::<Col, Amount>(
            p,
            hovered,
            selected,
        ) == Some(ColorOverride::<Col, Amount>::Replace(p.select_color)),
        spec_highlight(hovered, selected) == Highlight::Hover ==> palette_emissive::<Col, Amount>(
            p,
            hovered,
            selected,
        ) == Some(ColorOverride::<Col, Amount>::Replace(p.hover_color)),
        spec_highlight(hovered, selected) == Highlight::Plain ==> palette_emissive::<Col, Amount>(
            p,
            hovered,
            selected,
        ) is None,
{
}

/// A blend moves from the original colour towards the target: the original
/// is the blend's starting point and the target its end. So with a blend
/// that stays at its starting point (a lerp at amount 0) a blend override
/// leaves the colour as it was, and with one that goes all the way to its
/// end (a lerp at amount 1) it gives the target; a replacement always gives
/// its colour.
pub proof fn law_blend_runs_from_original_to_target<Col, Amount, B: Fn(Col, Col, Amount) -> Col>(
    o: ColorOverride<Col, Amount>,
    original: Col,
    blend: B,
    r: Col,
)
    requires
        color_override_result(o, original, blend, r),
    ensures
        o matches ColorOverride::Replace(c) ==> r == c,
        (o is Blend && forall|from: Col, to: Col, t: Amount, z: Col|
            #[trigger] call_ensures(blend, (from, to, t), z) ==> z == from) ==> r == original,
        (o is Blend && forall|from: Col, to: Col, t: Amount, z: Col|
            #[trigger] call_ensures(blend, (from, to, t), z) ==> z == to) ==> r == o->Blend_0,
{
}

} // verus!
