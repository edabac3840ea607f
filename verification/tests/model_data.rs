use cadit::geometry::{Geometry, Model, ModelEdge, ModelPoint, ModelSurface};
use cadit::ids::{ColorId, ModelObjectId};
use cadit::lights::{non_empty_or, Lights};
use cadit::materials::{MaterialId, MaterialKind, MaterialSet};
use cadit::material_override::{ColorOverride, MaterialProperties, Palette, PhysicalMaterialOverride};

fn surface(id: u32, n: usize, indices: Vec<u32>, material: MaterialId) -> ModelSurface<char> {
    let vertices: Vec<char> = (0..n).map(|i| (b'a' + i as u8) as char).collect();
    ModelSurface::new(ModelObjectId::from(id), vertices, indices, material)
}

#[test]
fn ids_round_trip() {
    let id = ModelObjectId::from(5u32);
    assert_eq!(id.value(), 5);
    assert_eq!(ColorId(9).value(), 9);
    assert_eq!(ColorId::from_picked(0), None);
    assert_eq!(ColorId::from_picked(7), Some(ColorId(7)));
}

#[test]
fn material_ids_report_their_list() {
    let id = MaterialId(MaterialKind::Opaque, 3);
    assert_eq!(id.index(), 3);
    assert!(id.is_opaque());
    assert!(!id.is_translucent());
    let t = MaterialId(MaterialKind::Translucent, 0);
    assert!(t.is_translucent());
    assert!(!t.is_opaque());
}

#[test]
fn material_set_stores_each_material_once() {
    let mut set = MaterialSet::new();
    let a = set.insert(MaterialKind::Opaque, (1, 2, 3, 4, 5));
    let b = set.insert(MaterialKind::Opaque, (1, 2, 3, 4, 6));
    let a_again = set.insert(MaterialKind::Opaque, (1, 2, 3, 4, 5));
    let t = set.insert(MaterialKind::Translucent, (1, 2, 3, 4, 5));
    assert_eq!(a, MaterialId(MaterialKind::Opaque, 0));
    assert_eq!(b, MaterialId(MaterialKind::Opaque, 1));
    assert_eq!(a_again, a);
    assert_eq!(t, MaterialId(MaterialKind::Translucent, 0));
    assert_eq!(
        set.keys_for_upload(MaterialKind::Opaque),
        Some(vec![(1, 2, 3, 4, 5), (1, 2, 3, 4, 6)])
    );
    assert_eq!(set.keys_for_upload(MaterialKind::Translucent), Some(vec![(1, 2, 3, 4, 5)]));
}

#[test]
fn empty_material_lists_upload_nothing() {
    let set = MaterialSet::new();
    assert_eq!(set.keys_for_upload(MaterialKind::Opaque), None);
    assert_eq!(set.keys_for_upload(MaterialKind::Translucent), None);
}

#[test]
fn model_builder_appends_in_order() {
    let m: Model<char, char, u8, u8> = Model::empty()
        .surface(surface(1, 3, vec![0, 1, 2], MaterialId(MaterialKind::Opaque, 0)))
        .surfaces(vec![surface(2, 1, vec![0], MaterialId(MaterialKind::Opaque, 0))])
        .edge(ModelEdge::new(ModelObjectId::from(3), vec!['x'], 7))
        .edges(vec![ModelEdge::new(ModelObjectId::from(4), vec!['y', 'z'], 8)])
        .point(ModelPoint::new(ModelObjectId::from(5), 1))
        .points(vec![ModelPoint::new(ModelObjectId::from(6), 2)]);
    assert_eq!(m.surfaces.len(), 2);
    assert_eq!(m.surfaces[1].id, ModelObjectId::from(2));
    assert_eq!(m.edges.len(), 2);
    assert_eq!(m.edges[1].color(), 8);
    assert_eq!(m.points.iter().map(|p| p.point).collect::<Vec<_>>(), vec![1, 2]);
}

fn two_model_geometry() -> Geometry<char, char, u8, u8> {
    let mut g: Geometry<char, char, u8, u8> = Geometry::new();
    let opaque = g.insert_material(MaterialKind::Opaque, (0, 0, 0, 1, 0));
    let glass = g.insert_material(MaterialKind::Translucent, (0, 0, 0, 2, 0));
    let red = g.insert_material(MaterialKind::Opaque, (9, 0, 0, 1, 0));
    assert_eq!(red.index(), 1);
    g.insert_model(
        Model::empty()
            .surface(surface(1, 3, vec![0, 1, 2], opaque))
            .surface(surface(2, 2, vec![1, 0], glass))
            .edge(ModelEdge::new(ModelObjectId::from(3), vec!['p', 'q'], 1))
            .point(ModelPoint::new(ModelObjectId::from(4), 10)),
    );
    g.insert_model(
        Model::empty()
            .surface(surface(5, 2, vec![1, 1, 0], red))
            .edge(ModelEdge::new(ModelObjectId::from(6), vec!['r', 's', 't'], 2))
            .point(ModelPoint::new(ModelObjectId::from(7), 11)),
    );
    g
}

#[test]
fn opaque_surfaces_are_merged_with_offsets() {
    let g = two_model_geometry();
    let (vertices, indices) = g.merge_surfaces(Some(MaterialKind::Opaque));
    assert_eq!(vertices, vec![('a', 0), ('b', 0), ('c', 0), ('a', 1), ('b', 1)]);
    assert_eq!(indices, vec![0, 1, 2, 4, 4, 3]);
}

#[test]
fn translucent_and_all_surfaces() {
    let g = two_model_geometry();
    let (vertices, indices) = g.merge_surfaces(Some(MaterialKind::Translucent));
    assert_eq!(vertices, vec![('a', 0), ('b', 0)]);
    assert_eq!(indices, vec![1, 0]);
    let (all_v, all_i) = g.merge_surfaces(None);
    assert_eq!(all_v.len(), 7);
    assert_eq!(all_i, vec![0, 1, 2, 4, 3, 6, 6, 5]);
}

#[test]
fn edges_become_line_strips() {
    let g = two_model_geometry();
    let (vertices, indices) = g.merge_edges();
    assert_eq!(vertices, vec![('p', 1), ('q', 1), ('r', 2), ('s', 2), ('t', 2)]);
    assert_eq!(indices, vec![0, 1, u32::MAX, 2, 3, 4, u32::MAX]);
}

#[test]
fn build_arrays_gathers_everything() {
    let g = two_model_geometry();
    let arrays = g.build_arrays();
    assert_eq!(arrays.opaque_materials, Some(vec![(0, 0, 0, 1, 0), (9, 0, 0, 1, 0)]));
    assert_eq!(arrays.translucent_materials, Some(vec![(0, 0, 0, 2, 0)]));
    assert_eq!(arrays.opaque_surfaces.unwrap().1, vec![0, 1, 2, 4, 4, 3]);
    assert_eq!(arrays.translucent_surfaces.unwrap().1, vec![1, 0]);
    assert_eq!(arrays.edges.unwrap().1.len(), 7);
    assert_eq!(arrays.points, Some(vec![10, 11]));
}

#[test]
fn empty_geometry_builds_nothing() {
    let g: Geometry<char, char, u8, u8> = Geometry::new();
    let arrays = g.build_arrays();
    assert!(arrays.opaque_materials.is_none());
    assert!(arrays.opaque_surfaces.is_none());
    assert!(arrays.translucent_materials.is_none());
    assert!(arrays.translucent_surfaces.is_none());
    assert!(arrays.edges.is_none());
    assert!(arrays.points.is_none());
}

#[test]
fn surfaces_without_indices_are_not_uploaded() {
    let mut g: Geometry<char, char, u8, u8> = Geometry::new();
    let m = g.insert_material(MaterialKind::Opaque, (0, 0, 0, 0, 0));
    g.insert_model(Model::empty().surface(surface(1, 3, vec![], m)));
    assert!(g.surface_arrays(Some(MaterialKind::Opaque)).is_none());
    let (v, i) = g.merge_surfaces(Some(MaterialKind::Opaque));
    assert_eq!(v.len(), 3);
    assert!(i.is_empty());
}

#[test]
fn surface_kind_queries() {
    let s = surface(1, 1, vec![0], MaterialId(MaterialKind::Translucent, 2));
    assert!(s.is_translucent());
    assert!(!s.is_opaque());
    assert_eq!(s.material_id(), MaterialId(MaterialKind::Translucent, 2));
}

#[test]
fn light_lists_never_upload_empty() {
    assert_eq!(non_empty_or(&vec![], 0u8), vec![0]);
    assert_eq!(non_empty_or(&vec![3u8, 4], 0), vec![3, 4]);
    let lights: Lights<u8, u16, u32> = Lights::new().ambient(1).directional(2).directional(3);
    let (a, d, p) = lights.upload_lists(0, 0, 0);
    assert_eq!(a, vec![1]);
    assert_eq!(d, vec![2, 3]);
    assert_eq!(p, vec![0]);
    let empty: Lights<u8, u16, u32> = Lights::empty().point(9);
    assert_eq!(empty.upload_lists(0, 0, 0).2, vec![9]);
    let lists: Lights<u8, u16, u32> = Lights::from_lists(vec![1], vec![], vec![]);
    assert_eq!(lists.upload_lists(5, 6, 7), (vec![1], vec![6], vec![7]));
}

#[test]
fn not_a_number_materials_are_never_reused() {
    let nan = f32::NAN.to_bits();
    let mut set = MaterialSet::new();
    let a = set.insert(MaterialKind::Opaque, (nan, 0, 0, 0x3f80_0000, 0));
    let b = set.insert(MaterialKind::Opaque, (nan, 0, 0, 0x3f80_0000, 0));
    assert_eq!(a, MaterialId(MaterialKind::Opaque, 0));
    assert_eq!(b, MaterialId(MaterialKind::Opaque, 1));
    assert_eq!(set.count(MaterialKind::Opaque), 2);
    // An infinite channel is a number and is matched as usual.
    let inf = f32::INFINITY.to_bits();
    let c = set.insert(MaterialKind::Opaque, (inf, 0, 0, 0x3f80_0000, 0));
    let d = set.insert(MaterialKind::Opaque, (inf, 0, 0, 0x3f80_0000, 0));
    assert_eq!(c, d);
    assert_eq!(set.count(MaterialKind::Opaque), 3);
}

#[test]
fn upload_follows_first_insertion_order() {
    let mut set = MaterialSet::new();
    let ops = [
        (MaterialKind::Opaque, (3, 0, 0, 0, 0)),
        (MaterialKind::Translucent, (1, 0, 0, 0, 0)),
        (MaterialKind::Opaque, (1, 0, 0, 0, 0)),
        (MaterialKind::Opaque, (3, 0, 0, 0, 0)),
        (MaterialKind::Opaque, (2, 0, 0, 0, 0)),
    ];
    let ids: Vec<MaterialId> = ops.iter().map(|&(k, key)| set.insert(k, key)).collect();
    let opaque = set.keys_for_upload(MaterialKind::Opaque).unwrap();
    assert_eq!(opaque, vec![(3, 0, 0, 0, 0), (1, 0, 0, 0, 0), (2, 0, 0, 0, 0)]);
    let translucent = set.keys_for_upload(MaterialKind::Translucent).unwrap();
    for (id, &(kind, key)) in ids.iter().zip(ops.iter()) {
        assert_eq!(id.0, kind);
        let list = if id.is_opaque() { &opaque } else { &translucent };
        assert_eq!(list[id.index() as usize], key);
    }
}

#[test]
fn merged_indices_name_the_same_vertices() {
    let mut g: Geometry<char, char, u8, u8> = Geometry::new();
    let m = g.insert_material(MaterialKind::Opaque, (1, 0, 0, 0, 0));
    let first = surface(0, 3, vec![2, 1, 0], m);
    let second = surface(1, 4, vec![3, 0, 1], m);
    g.insert_model(Model::empty().surface(first.clone()).surface(second.clone()));
    let (vertices, indices) = g.merge_surfaces(Some(MaterialKind::Opaque));
    let mut expected = Vec::new();
    for s in [&first, &second] {
        for &i in &s.indices {
            expected.push((s.vertices[i as usize], m.index()));
        }
    }
    let got: Vec<(char, u32)> = indices.iter().map(|&i| vertices[i as usize]).collect();
    assert_eq!(got, expected);
}

fn plain_material() -> MaterialProperties<u8, u16, i32, char, bool> {
    MaterialProperties {
        albedo: 100,
        albedo_texture: Some(1),
        metallic: 2,
        roughness: 3,
        metallic_roughness_texture: None,
        occlusion_strength: 4,
        occlusion_texture: Some(5),
        normal_scale: 6,
        normal_texture: None,
        render_states: 'r',
        is_transparent: false,
        emissive: 0,
        emissive_texture: None,
        lighting_model: true,
    }
}

#[test]
fn override_changes_only_what_it_sets() {
    let blend = |from: u8, to: u8, amount: u8| -> u8 { from / 2 + to / 2 + amount };
    let mut o: PhysicalMaterialOverride<u8, u8, u16, i32, char, bool> = PhysicalMaterialOverride::new();
    assert_eq!(o.apply_to(&plain_material(), &blend).albedo, 100);
    o.albedo = Some(ColorOverride::Blend(200, 1));
    o.roughness = Some(30);
    o.occlusion_texture = Some(None);
    o.emissive = Some(ColorOverride::Replace(9));
    o.is_transparent = Some(true);
    let m = o.apply_to(&plain_material(), &blend);
    assert_eq!(m.albedo, 151);
    assert_eq!(m.roughness, 30);
    assert_eq!(m.occlusion_texture, None);
    assert_eq!(m.emissive, 9);
    assert!(m.is_transparent);
    assert_eq!((m.albedo_texture, m.metallic, m.occlusion_strength, m.normal_scale), (Some(1), 2, 4, 6));
    assert_eq!((m.render_states, m.lighting_model, m.emissive_texture), ('r', true, None));
}

#[test]
fn palette_glows_selected_over_hovered() {
    let p = Palette { hover_color: 1u8, select_color: 2u8 };
    let blend = |a: u8, _b: u8, _t: u8| -> u8 { a };
    let o = |h: bool, s: bool| {
        let ov: PhysicalMaterialOverride<u8, u8, u16, i32, char, bool> = p.physical_material_override(h, s);
        ov.apply_to(&plain_material(), &blend).emissive
    };
    assert_eq!(o(false, false), 0);
    assert_eq!(o(true, false), 1);
    assert_eq!(o(true, true), 2);
    assert_eq!(o(false, true), 2);
}

#[test]
fn override_builders_set_one_property_each() {
    let o: PhysicalMaterialOverride<u8, u8, u16, i32, char, bool> = PhysicalMaterialOverride::new()
        .with_albedo(ColorOverride::Replace(7))
        .with_albedo_texture(Some(3))
        .with_metallic(1)
        .with_roughness(2)
        .with_metallic_roughness_texture(None)
        .with_occlusion_strength(3)
        .with_occlusion_texture(Some(4))
        .with_normal_scale(5)
        .with_normal_texture(Some(6))
        .with_render_states('s')
        .with_is_transparent(true)
        .with_emissive(ColorOverride::Replace(8))
        .with_emissive_texture(Some(9))
        .with_lighting_model(false);
    let blend = |a: u8, _b: u8, _t: u8| -> u8 { a };
    let m = o.apply_to(&plain_material(), &blend);
    assert_eq!((m.albedo, m.albedo_texture, m.metallic, m.roughness), (7, Some(3), 1, 2));
    assert_eq!((m.metallic_roughness_texture, m.occlusion_strength, m.occlusion_texture), (None, 3, Some(4)));
    assert_eq!((m.normal_scale, m.normal_texture, m.render_states, m.is_transparent), (5, Some(6), 's', true));
    assert_eq!((m.emissive, m.emissive_texture, m.lighting_model), (8, Some(9), false));
}
