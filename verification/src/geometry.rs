//! Models (surfaces, edges and points), the geometry that gathers them with
//! a material set, and the assembly of the flat vertex and index arrays that
//! are uploaded for drawing.
//!
//! Vertex data is generic: the library moves it around but never reads it.
use vstd::prelude::*;
use crate::ids::ModelObjectId;
use crate::materials::{stored, MaterialId, MaterialKey, MaterialKind, MaterialSet};

verus! {

/// A triangulated surface of a model: its vertices, the triangle indices
/// into them, and its material.
#[derive(Clone, Debug)]
pub struct ModelSurface<V> {
    pub id: ModelObjectId,
    pub vertices: Vec<V>,
    pub indices: Vec<u32>,
    pub material_id: MaterialId,
}

impl<V> ModelSurface<V> {
    pub fn new(id: ModelObjectId, vertices: Vec<V>, indices: Vec<u32>, material_id: MaterialId) -> (r:
        Self)
        ensures
            r.id == id,
            r.vertices@ == vertices@,
            r.indices@ == indices@,
            r.material_id == material_id,
    {
        ModelSurface { id, vertices, indices, material_id }
    }

    pub fn is_opaque(&self) -> (r: bool)
        ensures
            r == (self.material_id.0 == MaterialKind::Opaque),
    {
        self.material_id.is_opaque()
    }

    pub fn is_translucent(&self) -> (r: bool)
        ensures
            r == (self.material_id.0 == MaterialKind::Translucent),
    {
        self.material_id.is_translucent()
    }

    pub fn material_id(&self) -> (r: MaterialId)
        ensures
            r == self.material_id,
    {
        self.material_id
    }
}

/// A polyline of a model, drawn in one colour.
#[derive(Clone, Debug)]
pub struct ModelEdge<V, C> {
    pub id: ModelObjectId,
    pub vertices: Vec<V>,
    pub color: C,
}

impl<V, C: Copy> ModelEdge<V, C> {
    pub fn new(id: ModelObjectId, vertices: Vec<V>, color: C) -> (r: Self)
        ensures
            r.id == id,
            r.vertices@ == vertices@,
            r.color == color,
    {
        ModelEdge { id, vertices, color }
    }

    pub fn color(&self) -> (r: C)
        ensures
            r == self.color,
    {
        self.color
    }
}

/// A point of a model.
#[derive(Clone, Debug)]
pub struct ModelPoint<P> {
    pub id: ModelObjectId,
    pub point: P,
}

impl<P> ModelPoint<P> {
    pub fn new(id: ModelObjectId, point: P) -> (r: Self)
        ensures
            r.id == id,
            r.point == point,
    {
        ModelPoint { id, point }
    }
}

/// A model: surfaces, edges and points.
#[derive(Clone, Debug)]
pub struct Model<SV, EV, C, P> {
    pub surfaces: Vec<ModelSurface<SV>>,
    pub edges: Vec<ModelEdge<EV, C>>,
    pub points: Vec<ModelPoint<P>>,
}

impl<SV, EV, C, P> Model<SV, EV, C, P> {
    /// A model with nothing in it.
    pub fn empty() -> (r: Self)
        ensures
            r.surfaces@.len() == 0,
            r.edges@.len() == 0,
            r.points@.len() == 0,
    {
        Model { surfaces: Vec::new(), edges: Vec::new(), points: Vec::new() }
    }

    /// The model with one more surface.
    pub fn surface(self, surface: ModelSurface<SV>) -> (r: Self)
        ensures
            r.surfaces@ == self.surfaces@.push(surface),
            r.edges@ == self.edges@,
            r.points@ == self.points@,
    {
        let Model { mut surfaces, edges, points } = self;
        surfaces.push(surface);
        Model { surfaces, edges, points }
    }

    /// The model with more surfaces, appended in order.
    pub fn surfaces(self, new_surfaces: Vec<ModelSurface<SV>>) -> (r: Self)
        ensures
            r.surfaces@ == self.surfaces@ + new_surfaces@,
            r.edges@ == self.edges@,
            r.points@ == self.points@,
    {
        let Model { mut surfaces, edges, points } = self;
        let mut new_surfaces = new_surfaces;
        surfaces.append(&mut new_surfaces);
        Model { surfaces, edges, points }
    }

    /// The model with one more edge.
    pub fn edge(self, edge: ModelEdge<EV, C>) -> (r: Self)
        ensures
            r.surfaces@ == self.surfaces@,
            r.edges@ == self.edges@.push(edge),
            r.points@ == self.points@,
    {
        let Model { surfaces, mut edges, points } = self;
        edges.push(edge);
        Model { surfaces, edges, points }
    }

    /// The model with more edges, appended in order.
    pub fn edges(self, new_edges: Vec<ModelEdge<EV, C>>) -> (r: Self)
        ensures
            r.surfaces@ == self.surfaces@,
            r.edges@ == self.edges@ + new_edges@,
            r.points@ == self.points@,
    {
        let Model { surfaces, mut edges, points } = self;
        let mut new_edges = new_edges;
        edges.append(&mut new_edges);
        Model { surfaces, edges, points }
    }

    /// The model with one more point.
    pub fn point(self, point: ModelPoint<P>) -> (r: Self)
        ensures
            r.surfaces@ == self.surfaces@,
            r.edges@ == self.edges@,
            r.points@ == self.points@.push(point),
    {
        let Model { surfaces, edges, mut points } = self;
        points.push(point);
        Model { surfaces, edges, points }
    }

    /// The model with more points, appended in order.
    pub fn points(self, new_points: Vec<ModelPoint<P>>) -> (r: Self)
        ensures
            r.surfaces@ == self.surfaces@,
            r.edges@ == self.edges@,
            r.points@ == self.points@ + new_points@,
    {
        let Model { surfaces, edges, mut points } = self;
        let mut new_points = new_points;
        points.append(&mut new_points);
        Model { surfaces, edges, points }
    }
}

// ---------------------------------------------------------------------------
// What the assembled arrays are.
// ---------------------------------------------------------------------------

/// All surfaces of the models, model after model.
pub open spec fn flat_surfaces<SV, EV, C, P>(models: Seq<Model<SV, EV, C, P>>) -> Seq<
    ModelSurface<SV>,
>
    decreases models.len(),
{
    if models.len() == 0 {
        Seq::empty()
    } else {
        flat_surfaces(models.drop_last()) + models.last().surfaces@
    }
}

/// All edges of the models, model after model.
pub open spec fn flat_edges<SV, EV, C, P>(models: Seq<Model<SV, EV, C, P>>) -> Seq<ModelEdge<EV, C>>
    decreases models.len(),
{
    if models.len() == 0 {
        Seq::empty()
    } else {
        flat_edges(models.drop_last()) + models.last().edges@
    }
}

/// All points of the models, model after model.
pub open spec fn flat_points<SV, EV, C, P>(models: Seq<Model<SV, EV, C, P>>) -> Seq<P>
    decreases models.len(),
{
    if models.len() == 0 {
        Seq::empty()
    } else {
        flat_points(models.drop_last()) + models.last().points@.map_values(
            |p: ModelPoint<P>| p.point,
        )
    }
}

/// Whether a surface is drawn in a pass that takes materials of `filter`
/// (`None`: every surface).
pub open spec fn selects<SV>(filter: Option<MaterialKind>, s: ModelSurface<SV>) -> bool {
    match filter {
        None => true,
        Some(kind) => s.material_id.0 == kind,
    }
}

/// The vertices of the selected surfaces, in order, each with the index of
/// its surface's material.
pub open spec fn merged_vertices<SV>(ss: Seq<ModelSurface<SV>>, filter: Option<MaterialKind>) -> Seq<
    (SV, u32),
>
    decreases ss.len(),
{
    if ss.len() == 0 {
        Seq::empty()
    } else {
        let prev = merged_vertices(ss.drop_last(), filter);
        let s = ss.last();
        if selects(filter, s) {
            prev + s.vertices@.map_values(|v: SV| (v, s.material_id.1))
        } else {
            prev
        }
    }
}

/// The indices of the selected surfaces, in order, each moved past the
/// vertices of the selected surfaces before it.
pub open spec fn merged_indices<SV>(ss: Seq<ModelSurface<SV>>, filter: Option<MaterialKind>) -> Seq<
    u32,
>
    decreases ss.len(),
{
    if ss.len() == 0 {
        Seq::empty()
    } else {
        let prev = merged_indices(ss.drop_last(), filter);
        let s = ss.last();
        let offset = merged_vertices(ss.drop_last(), filter).len();
        if selects(filter, s) {
            prev + s.indices@.map_values(|i: u32| (i + offset) as u32)
        } else {
            prev
        }
    }
}

/// No vertex count or moved index of the merge exceeds `u32::MAX`.
pub open spec fn merge_fits<SV>(ss: Seq<ModelSurface<SV>>, filter: Option<MaterialKind>) -> bool
    decreases ss.len(),
{
    if ss.len() == 0 {
        true
    } else {
        let s = ss.last();
        let offset = merged_vertices(ss.drop_last(), filter).len();
        &&& merge_fits(ss.drop_last(), filter)
        &&& merged_vertices(ss, filter).len() <= u32::MAX
        &&& selects(filter, s) ==> forall|k: int|
            0 <= k < s.indices@.len() ==> s.indices@[k] + offset <= u32::MAX
    }
}

/// The vertices of the edges, in order, each with its edge's colour.
pub open spec fn merged_edge_vertices<EV, C>(es: Seq<ModelEdge<EV, C>>) -> Seq<(EV, C)>
    decreases es.len(),
{
    if es.len() == 0 {
        Seq::empty()
    } else {
        let e = es.last();
        merged_edge_vertices(es.drop_last()) + e.vertices@.map_values(|v: EV| (v, e.color))
    }
}

/// The line-strip indices of the edges: for each edge the positions of its
/// vertices in the merged array, then the strip-restart marker `u32::MAX`.
pub open spec fn merged_edge_indices<EV, C>(es: Seq<ModelEdge<EV, C>>) -> Seq<u32>
    decreases es.len(),
{
    if es.len() == 0 {
        Seq::empty()
    } else {
        let offset = merged_edge_vertices(es.drop_last()).len();
        merged_edge_indices(es.drop_last()) + Seq::new(
            es.last().vertices@.len(),
            |i: int| (offset + i) as u32,
        ).push(u32::MAX)
    }
}

// ---------------------------------------------------------------------------
// Lemmas on the definitions above.
// ---------------------------------------------------------------------------

proof fn lemma_flat_surfaces_take<SV, EV, C, P>(models: Seq<Model<SV, EV, C, P>>, m: int)
    requires
        0 <= m < models.len(),
    ensures
        flat_surfaces(models.take(m + 1)) == flat_surfaces(models.take(m)) + models[m].surfaces@,
{
    assert(models.take(m + 1).drop_last() =~= models.take(m));
}

proof fn lemma_flat_edges_take<SV, EV, C, P>(models: Seq<Model<SV, EV, C, P>>, m: int)
    requires
        0 <= m < models.len(),
    ensures
        flat_edges(models.take(m + 1)) == flat_edges(models.take(m)) + models[m].edges@,
{
    assert(models.take(m + 1).drop_last() =~= models.take(m));
}

proof fn lemma_flat_points_take<SV, EV, C, P>(models: Seq<Model<SV, EV, C, P>>, m: int)
    requires
        0 <= m < models.len(),
    ensures
        flat_points(models.take(m + 1)) == flat_points(models.take(m)) + models[m].points@.map_values(
            |p: ModelPoint<P>| p.point,
        ),
{
    assert(models.take(m + 1).drop_last() =~= models.take(m));
}

proof fn lemma_flat_surfaces_prefix<SV, EV, C, P>(models: Seq<Model<SV, EV, C, P>>, m: int)
    requires
        0 <= m <= models.len(),
    ensures
        flat_surfaces(models.take(m)).len() <= flat_surfaces(models).len(),
        flat_surfaces(models.take(m)) == flat_surfaces(models).take(
            flat_surfaces(models.take(m)).len() as int,
        ),
        m < models.len() ==> flat_surfaces(models.take(m)).len() + models[m].surfaces@.len()
            <= flat_surfaces(models).len(),
    decreases models.len() - m,
{
    if m == models.len() {
        assert(models.take(m) =~= models);
    } else {
        lemma_flat_surfaces_prefix(models, m + 1);
        lemma_flat_surfaces_take(models, m);
        let a = flat_surfaces(models.take(m));
        let b = flat_surfaces(models.take(m + 1));
        assert(a =~= b.take(a.len() as int));
        assert(a =~= flat_surfaces(models).take(a.len() as int));
    }
}

proof fn lemma_merge_fits_prefix<SV>(ss: Seq<ModelSurface<SV>>, filter: Option<MaterialKind>, n: int)
    requires
        merge_fits(ss, filter),
        0 <= n <= ss.len(),
    ensures
        merge_fits(ss.take(n), filter),
    decreases ss.len(),
{
    if n == ss.len() {
        assert(ss.take(n) =~= ss);
    } else {
        lemma_merge_fits_prefix(ss.drop_last(), filter, n);
        assert(ss.drop_last().take(n) =~= ss.take(n));
    }
}

proof fn lemma_merged_vertices_monotone<SV>(
    ss: Seq<ModelSurface<SV>>,
    filter: Option<MaterialKind>,
    n: int,
)
    requires
        0 <= n <= ss.len(),
    ensures
        merged_vertices(ss.take(n), filter).len() <= merged_vertices(ss, filter).len(),
    decreases ss.len(),
{
    if n < ss.len() {
        lemma_merged_vertices_monotone(ss.drop_last(), filter, n);
        assert(ss.drop_last().take(n) =~= ss.take(n));
    } else {
        assert(ss.take(n) =~= ss);
    }
}

proof fn lemma_merged_edge_vertices_take<EV, C>(es: Seq<ModelEdge<EV, C>>, n: int)
    requires
        0 <= n <= es.len(),
    ensures
        merged_edge_vertices(es.take(n)).len() <= merged_edge_vertices(es).len(),
    decreases es.len(),
{
    if n < es.len() {
        lemma_merged_edge_vertices_take(es.drop_last(), n);
        assert(es.drop_last().take(n) =~= es.take(n));
    } else {
        assert(es.take(n) =~= es);
    }
}

proof fn lemma_flat_edges_prefix<SV, EV, C, P>(models: Seq<Model<SV, EV, C, P>>, m: int)
    requires
        0 <= m <= models.len(),
    ensures
        flat_edges(models.take(m)).len() <= flat_edges(models).len(),
        flat_edges(models.take(m)) == flat_edges(models).take(
            flat_edges(models.take(m)).len() as int,
        ),
        m < models.len() ==> flat_edges(models.take(m)).len() + models[m].edges@.len()
            <= flat_edges(models).len(),
    decreases models.len() - m,
{
    if m == models.len() {
        assert(models.take(m) =~= models);
    } else {
        lemma_flat_edges_prefix(models, m + 1);
        lemma_flat_edges_take(models, m);
        let a = flat_edges(models.take(m));
        let b = flat_edges(models.take(m + 1));
        assert(a =~= b.take(a.len() as int));
        assert(a =~= flat_edges(models).take(a.len() as int));
    }
}

// ---------------------------------------------------------------------------
// The geometry.
// ---------------------------------------------------------------------------

/// The arrays a pass of surfaces draws from: vertices (each with its
/// material index) and triangle indices into them.
pub type SurfaceArrays<SV> = (Vec<(SV, u32)>, Vec<u32>);

/// The models of a scene and the materials their surfaces use.
#[derive(Debug)]
pub struct Geometry<SV, EV, C, P> {
    pub models: Vec<Model<SV, EV, C, P>>,
    pub materials: MaterialSet,
}

impl<SV: Copy, EV: Copy, C: Copy, P: Copy> Geometry<SV, EV, C, P> {
    /// A geometry with no models and no materials.
    pub fn new() -> (r: Self)
        ensures
            r.models@.len() == 0,
            r.materials@.opaque.len() == 0,
            r.materials@.translucent.len() == 0,
            r.materials@.wf(),
    {
        Geometry { models: Vec::new(), materials: MaterialSet::new() }
    }

    /// Stores a material once (see `MaterialSet::insert`).
    pub fn insert_material(&mut self, kind: MaterialKind, key: MaterialKey) -> (id: MaterialId)
        requires
            old(self).materials@.wf(),
            old(self).materials@.list(kind).len() < u32::MAX as nat + 1 || stored(
                old(self).materials@.list(kind),
                key,
            ),
        ensures
            (final(self).materials@, id) == old(self).materials@.inserted(kind, key),
            final(self).materials@.wf(),
            final(self).models@ == old(self).models@,
    {
        self.materials.insert(kind, key)
    }

    /// Adds a model after the ones already there.
    pub fn insert_model(&mut self, model: Model<SV, EV, C, P>)
        ensures
            final(self).models@ == old(self).models@.push(model),
            final(self).materials@ == old(self).materials@,
    {
        self.models.push(model)
    }

    /// The vertex and index arrays of the surfaces that `filter` selects, in
    /// model order: each surface's indices are moved past the vertices of the
    /// selected surfaces before it.
    pub fn merge_surfaces(&self, filter: Option<MaterialKind>) -> (r: SurfaceArrays<SV>)
        requires
            merge_fits(flat_surfaces(self.models@), filter),
        ensures
            r.0@ == merged_vertices(flat_surfaces(self.models@), filter),
            r.1@ == merged_indices(flat_surfaces(self.models@), filter),
    {
        let ghost all = flat_surfaces(self.models@);
        let mut vertices: Vec<(SV, u32)> = Vec::new();
        let mut indices: Vec<u32> = Vec::new();
        let mut offset: u32 = 0;
        let mut m: usize = 0;
        while m < self.models.len()
            invariant
                m <= self.models@.len(),
                all == flat_surfaces(self.models@),
                merge_fits(all, filter),
                vertices@ == merged_vertices(flat_surfaces(self.models@.take(m as int)), filter),
                indices@ == merged_indices(flat_surfaces(self.models@.take(m as int)), filter),
                offset == vertices@.len(),
            decreases self.models@.len() - m,
        {
            let ghost done = flat_surfaces(self.models@.take(m as int));
            proof {
                lemma_flat_surfaces_prefix(self.models@, m as int);
                lemma_flat_surfaces_prefix(self.models@, m as int + 1);
                lemma_flat_surfaces_take(self.models@, m as int);
            }
            let model = &self.models[m];
            let mut s: usize = 0;
            while s < model.surfaces.len()
                invariant
                    s <= model.surfaces@.len(),
                    model == self.models@[m as int],
                    all == flat_surfaces(self.models@),
                    merge_fits(all, filter),
                    done.len() + model.surfaces@.len() <= all.len(),
                    done == all.take(done.len() as int),
                    all.take((done.len() + model.surfaces@.len()) as int) == done + model.surfaces@,
                    vertices@ == merged_vertices(done + model.surfaces@.take(s as int), filter),
                    indices@ == merged_indices(done + model.surfaces@.take(s as int), filter),
                    offset == vertices@.len(),
                decreases model.surfaces@.len() - s,
            {
                let ghost cur = done + model.surfaces@.take(s as int);
                let ghost next = done + model.surfaces@.take(s as int + 1);
                let surface = &model.surfaces[s];
                proof {
                    assert(next =~= cur.push(*surface));
                    assert(next.drop_last() =~= cur);
                    assert(next =~= all.take(next.len() as int)) by {
                        assert(all.take(next.len() as int) =~= all.take(
                            (done.len() + model.surfaces@.len()) as int,
                        ).take(next.len() as int));
                    }
                    lemma_merge_fits_prefix(all, filter, next.len() as int);
                    lemma_merged_vertices_monotone(all, filter, next.len() as int);
                }
                let selected = match filter {
                    None => true,
                    Some(kind) => surface.material_id.0 == kind,
                };
                if selected {
                    let material_index = surface.material_id.1;
                    let ghost v0 = vertices@;
                    let mut v: usize = 0;
                    while v < surface.vertices.len()
                        invariant
                            v <= surface.vertices@.len(),
                            vertices@ == v0 + surface.vertices@.take(v as int).map_values(
                                |x: SV| (x, material_index),
                            ),
                        decreases surface.vertices@.len() - v,
                    {
                        vertices.push((surface.vertices[v], material_index));
                        v = v + 1;
                        assert(vertices@ =~= v0 + surface.vertices@.take(v as int).map_values(
                            |x: SV| (x, material_index),
                        ));
                    }
                    assert(surface.vertices@.take(v as int) =~= surface.vertices@);
                    assert(forall|j: int|
                        0 <= j < surface.indices@.len() ==> surface.indices@[j] + offset
                            <= u32::MAX) by {
                        assert(next.last() == *surface);
                        assert(merge_fits(next, filter));
                    }
                    let ghost i0 = indices@;
                    let mut k: usize = 0;
                    while k < surface.indices.len()
                        invariant
                            k <= surface.indices@.len(),
                            forall|j: int|
                                0 <= j < surface.indices@.len() ==> surface.indices@[j] + offset
                                    <= u32::MAX,
                            indices@ == i0 + surface.indices@.take(k as int).map_values(
                                |x: u32| (x + offset) as u32,
                            ),
                        decreases surface.indices@.len() - k,
                    {
                        assert(surface.indices@[k as int] + offset <= u32::MAX);
                        indices.push(surface.indices[k] + offset);
                        k = k + 1;
                        assert(indices@ =~= i0 + surface.indices@.take(k as int).map_values(
                            |x: u32| (x + offset) as u32,
                        ));
                    }
                    assert(surface.indices@.take(k as int) =~= surface.indices@);
                    assert(merged_vertices(next, filter).len() <= u32::MAX);
                    offset = offset + surface.vertices.len() as u32;
                }
                s = s + 1;
            }
            assert(model.surfaces@.take(s as int) =~= model.surfaces@);
            m = m + 1;
        }
        assert(self.models@.take(m as int) =~= self.models@);
        (vertices, indices)
    }
}


impl<SV: Copy, EV: Copy, C: Copy, P: Copy> Geometry<SV, EV, C, P> {
    /// The vertex array of all edges (each vertex with its edge's colour) and
    /// the line-strip index array: every edge's vertex positions in order,
    /// closed by the restart marker `u32::MAX`.
    pub fn merge_edges(&self) -> (r: (Vec<(EV, C)>, Vec<u32>))
        requires
            merged_edge_vertices(flat_edges(self.models@)).len() <= u32::MAX,
        ensures
            r.0@ == merged_edge_vertices(flat_edges(self.models@)),
            r.1@ == merged_edge_indices(flat_edges(self.models@)),
    {
        let ghost all = flat_edges(self.models@);
        let mut vertices: Vec<(EV, C)> = Vec::new();
        let mut indices: Vec<u32> = Vec::new();
        let mut index: u32 = 0;
        let mut m: usize = 0;
        while m < self.models.len()
            invariant
                m <= self.models@.len(),
                all == flat_edges(self.models@),
                merged_edge_vertices(all).len() <= u32::MAX,
                vertices@ == merged_edge_vertices(flat_edges(self.models@.take(m as int))),
                indices@ == merged_edge_indices(flat_edges(self.models@.take(m as int))),
                index == vertices@.len(),
            decreases self.models@.len() - m,
        {
            let ghost done = flat_edges(self.models@.take(m as int));
            proof {
                lemma_flat_edges_prefix(self.models@, m as int);
                lemma_flat_edges_prefix(self.models@, m as int + 1);
                lemma_flat_edges_take(self.models@, m as int);
            }
            let model = &self.models[m];
            let mut e: usize = 0;
            while e < model.edges.len()
                invariant
                    e <= model.edges@.len(),
                    model == self.models@[m as int],
                    all == flat_edges(self.models@),
                    merged_edge_vertices(all).len() <= u32::MAX,
                    done.len() + model.edges@.len() <= all.len(),
                    all.take((done.len() + model.edges@.len()) as int) == done + model.edges@,
                    vertices@ == merged_edge_vertices(done + model.edges@.take(e as int)),
                    indices@ == merged_edge_indices(done + model.edges@.take(e as int)),
                    index == vertices@.len(),
                decreases model.edges@.len() - e,
            {
                let ghost cur = done + model.edges@.take(e as int);
                let ghost next = done + model.edges@.take(e as int + 1);
                let edge = &model.edges[e];
                proof {
                    assert(next =~= cur.push(*edge));
                    assert(next.drop_last() =~= cur);
                    assert(next =~= all.take(next.len() as int)) by {
                        assert(all.take(next.len() as int) =~= all.take(
                            (done.len() + model.edges@.len()) as int,
                        ).take(next.len() as int));
                    }
                    lemma_merged_edge_vertices_take(all, next.len() as int);
                    assert(merged_edge_vertices(next).len() == index + edge.vertices@.len());
                }
                let color = edge.color;
                let ghost v0 = vertices@;
                let ghost i0 = indices@;
                let ghost start = index as int;
                let mut v: usize = 0;
                while v < edge.vertices.len()
                    invariant
                        v <= edge.vertices@.len(),
                        start + edge.vertices@.len() <= u32::MAX,
                        index == start + v,
                        vertices@ == v0 + edge.vertices@.take(v as int).map_values(
                            |x: EV| (x, color),
                        ),
                        indices@ == i0 + Seq::new(v as nat, |i: int| (start + i) as u32),
                    decreases edge.vertices@.len() - v,
                {
                    vertices.push((edge.vertices[v], color));
                    indices.push(index);
                    index = index + 1;
                    v = v + 1;
                    assert(vertices@ =~= v0 + edge.vertices@.take(v as int).map_values(
                        |x: EV| (x, color),
                    ));
                    assert(indices@ =~= i0 + Seq::new(v as nat, |i: int| (start + i) as u32));
                }
                indices.push(u32::MAX);
                proof {
                    assert(edge.vertices@.take(v as int) =~= edge.vertices@);
                    assert(indices@ =~= merged_edge_indices(next));
                }
                e = e + 1;
            }
            assert(model.edges@.take(e as int) =~= model.edges@);
            m = m + 1;
        }
        assert(self.models@.take(m as int) =~= self.models@);
        (vertices, indices)
    }

    /// The points of all models, model after model.
    pub fn merge_points(&self) -> (r: Vec<P>)
        ensures
            r@ == flat_points(self.models@),
    {
        let mut points: Vec<P> = Vec::new();
        let mut m: usize = 0;
        while m < self.models.len()
            invariant
                m <= self.models@.len(),
                points@ == flat_points(self.models@.take(m as int)),
            decreases self.models@.len() - m,
        {
            proof {
                lemma_flat_points_take(self.models@, m as int);
            }
            let model = &self.models[m];
            let ghost p0 = points@;
            let mut k: usize = 0;
            while k < model.points.len()
                invariant
                    k <= model.points@.len(),
                    model == self.models@[m as int],
                    points@ == p0 + model.points@.take(k as int).map_values(
                        |p: ModelPoint<P>| p.point,
                    ),
                decreases model.points@.len() - k,
            {
                points.push(model.points[k].point);
                k = k + 1;
                assert(points@ =~= p0 + model.points@.take(k as int).map_values(
                    |p: ModelPoint<P>| p.point,
                ));
            }
            assert(model.points@.take(k as int) =~= model.points@);
            m = m + 1;
        }
        assert(self.models@.take(m as int) =~= self.models@);
        points
    }
}

/// Everything a geometry uploads for drawing. A part that would be empty is
/// `None`.
pub struct GeometryArrays<SV, EV, C, P> {
    pub opaque_materials: Option<Vec<MaterialKey>>,
    pub opaque_surfaces: Option<SurfaceArrays<SV>>,
    pub translucent_materials: Option<Vec<MaterialKey>>,
    pub translucent_surfaces: Option<SurfaceArrays<SV>>,
    pub edges: Option<(Vec<(EV, C)>, Vec<u32>)>,
    pub points: Option<Vec<P>>,
}

/// `Some((v, i))` when both arrays hold something, else `None`.
pub open spec fn both_or_none<A, B>(v: Seq<A>, i: Seq<B>) -> Option<(Seq<A>, Seq<B>)> {
    if v.len() > 0 && i.len() > 0 {
        Some((v, i))
    } else {
        None
    }
}

/// The view of a pair of optional arrays.
pub open spec fn view_pair<A, B>(o: Option<(Vec<A>, Vec<B>)>) -> Option<(Seq<A>, Seq<B>)> {
    match o {
        Some((v, i)) => Some((v@, i@)),
        None => None,
    }
}

impl<SV: Copy, EV: Copy, C: Copy, P: Copy> Geometry<SV, EV, C, P> {
    /// The surface arrays of one pass, or `None` when it has no vertices or
    /// no indices.
    pub fn surface_arrays(&self, filter: Option<MaterialKind>) -> (r: Option<SurfaceArrays<SV>>)
        requires
            merge_fits(flat_surfaces(self.models@), filter),
        ensures
            view_pair(r) == both_or_none(
                merged_vertices(flat_surfaces(self.models@), filter),
                merged_indices(flat_surfaces(self.models@), filter),
            ),
    {
        let (vertices, indices) = self.merge_surfaces(filter);
        if vertices.len() > 0 && indices.len() > 0 {
            Some((vertices, indices))
        } else {
            None
        }
    }

    /// The edge arrays, or `None` when there are no edge vertices.
    pub fn edge_arrays(&self) -> (r: Option<(Vec<(EV, C)>, Vec<u32>)>)
        requires
            merged_edge_vertices(flat_edges(self.models@)).len() <= u32::MAX,
        ensures
            view_pair(r) == both_or_none(
                merged_edge_vertices(flat_edges(self.models@)),
                merged_edge_indices(flat_edges(self.models@)),
            ),
    {
        let (vertices, indices) = self.merge_edges();
        if vertices.len() > 0 && indices.len() > 0 {
            Some((vertices, indices))
        } else {
            None
        }
    }

    /// The point array, or `None` when there are no points.
    pub fn point_array(&self) -> (r: Option<Vec<P>>)
        ensures
            flat_points(self.models@).len() == 0 ==> r is None,
            flat_points(self.models@).len() > 0 ==> (r matches Some(v) && v@ == flat_points(
                self.models@,
            )),
    {
        let points = self.merge_points();
        if points.len() > 0 {
            Some(points)
        } else {
            None
        }
    }

    /// All arrays of the geometry: the materials of each list, the opaque and
    /// the translucent surfaces, the edges and the points.
    pub fn build_arrays(&self) -> (r: GeometryArrays<SV, EV, C, P>)
        requires
            merge_fits(flat_surfaces(self.models@), Some(MaterialKind::Opaque)),
            merge_fits(flat_surfaces(self.models@), Some(MaterialKind::Translucent)),
            merged_edge_vertices(flat_edges(self.models@)).len() <= u32::MAX,
        ensures
            self.materials@.opaque.len() == 0 ==> r.opaque_materials is None,
            self.materials@.opaque.len() > 0 ==> (r.opaque_materials matches Some(v) && v@
                == self.materials@.opaque),
            self.materials@.translucent.len() == 0 ==> r.translucent_materials is None,
            self.materials@.translucent.len() > 0 ==> (r.translucent_materials matches Some(v)
                && v@ == self.materials@.translucent),
            view_pair(r.opaque_surfaces) == both_or_none(
                merged_vertices(flat_surfaces(self.models@), Some(MaterialKind::Opaque)),
                merged_indices(flat_surfaces(self.models@), Some(MaterialKind::Opaque)),
            ),
            view_pair(r.translucent_surfaces) == both_or_none(
                merged_vertices(flat_surfaces(self.models@), Some(MaterialKind::Translucent)),
                merged_indices(flat_surfaces(self.models@), Some(MaterialKind::Translucent)),
            ),
            view_pair(r.edges) == both_or_none(
                merged_edge_vertices(flat_edges(self.models@)),
                merged_edge_indices(flat_edges(self.models@)),
            ),
            flat_points(self.models@).len() == 0 ==> r.points is None,
            flat_points(self.models@).len() > 0 ==> (r.points matches Some(v) && v@ == flat_points(
                self.models@,
            )),
    {
        let opaque_surfaces = self.surface_arrays(Some(MaterialKind::Opaque));
        let translucent_surfaces = self.surface_arrays(Some(MaterialKind::Translucent));
        let edges = self.edge_arrays();
        let points = self.point_array();
        GeometryArrays {
            opaque_materials: self.materials.keys_for_upload(MaterialKind::Opaque),
            opaque_surfaces,
            translucent_materials: self.materials.keys_for_upload(MaterialKind::Translucent),
            translucent_surfaces,
            edges,
            points,
        }
    }
}

// ---------------------------------------------------------------------------
// Laws of the merge.
// ---------------------------------------------------------------------------

/// Every surface's indices point into its own vertices.
pub open spec fn surfaces_well_indexed<SV>(ss: Seq<ModelSurface<SV>>) -> bool {
    forall|k: int, j: int|
        0 <= k < ss.len() && 0 <= j < ss[k].indices@.len() ==> (#[trigger] ss[k].indices@[j])
            < ss[k].vertices@.len()
}

/// Merging keeps indices valid: when every surface's indices point into its
/// own vertices, every merged index points into the merged vertex array.
pub proof fn law_merged_indices_in_range<SV>(ss: Seq<ModelSurface<SV>>, filter: Option<MaterialKind>)
    requires
        merge_fits(ss, filter),
        surfaces_well_indexed(ss),
    ensures
        forall|i: int|
            0 <= i < merged_indices(ss, filter).len() ==> (#[trigger] merged_indices(ss, filter)[i])
                < merged_vertices(ss, filter).len(),
    decreases ss.len(),
{
    if ss.len() > 0 {
        let rest = ss.drop_last();
        assert(surfaces_well_indexed(rest)) by {
            assert forall|k: int, j: int|
                0 <= k < rest.len() && 0 <= j < rest[k].indices@.len() implies (#[trigger] rest[k].indices@[j])
                < rest[k].vertices@.len() by {
                assert(rest[k] == ss[k]);
            }
        }
        law_merged_indices_in_range(rest, filter);
        let s = ss.last();
        let offset = merged_vertices(rest, filter).len();
        let prev = merged_indices(rest, filter);
        if selects(filter, s) {
            let added = s.indices@.map_values(|x: u32| (x + offset) as u32);
            assert(merged_indices(ss, filter) == prev + added);
            assert(merged_vertices(ss, filter).len() == offset + s.vertices@.len());
            assert forall|i: int| 0 <= i < merged_indices(ss, filter).len() implies (#[trigger] merged_indices(
                ss,
                filter,
            )[i]) < merged_vertices(ss, filter).len() by {
                if i >= prev.len() {
                    let j = i - prev.len();
                    assert(0 <= j < s.indices@.len());
                    assert(ss[ss.len() - 1] == s);
                    assert(ss[ss.len() - 1].indices@[j] < ss[ss.len() - 1].vertices@.len());
                    assert(s.indices@[j] + offset <= u32::MAX);
                    assert(merged_indices(ss, filter)[i] == added[j]);
                } else {
                    assert(merged_indices(ss, filter)[i] == prev[i]);
                }
            }
        } else {
            assert(merged_indices(ss, filter) == prev);
            assert(merged_vertices(ss, filter) == merged_vertices(rest, filter));
        }
    }
}

/// Every merged vertex carries the index of a material that a selected
/// surface uses, and a pass that selects one kind only draws vertices whose
/// surface has a material of that kind.
pub proof fn law_merged_vertices_from_selected<SV>(
    ss: Seq<ModelSurface<SV>>,
    filter: Option<MaterialKind>,
    i: int,
)
    requires
        0 <= i < merged_vertices(ss, filter).len(),
    ensures
        exists|k: int|
            0 <= k < ss.len() && selects(filter, #[trigger] ss[k]) && ss[k].material_id.1
                == merged_vertices(ss, filter)[i].1,
    decreases ss.len(),
{
    let rest = ss.drop_last();
    let prev = merged_vertices(rest, filter);
    if i < prev.len() {
        law_merged_vertices_from_selected(rest, filter, i);
        let k = choose|k: int|
            0 <= k < rest.len() && selects(filter, #[trigger] rest[k]) && rest[k].material_id.1
                == merged_vertices(rest, filter)[i].1;
        assert(ss[k] == rest[k]);
    } else {
        assert(ss[ss.len() - 1] == ss.last());
    }
}

/// The edge index array has one entry per edge vertex and one restart
/// marker per edge, and every entry that is not the marker points into the
/// merged edge vertex array.
pub proof fn law_edge_strips<EV, C>(es: Seq<ModelEdge<EV, C>>)
    requires
        merged_edge_vertices(es).len() <= u32::MAX,
    ensures
        merged_edge_indices(es).len() == merged_edge_vertices(es).len() + es.len(),
        forall|i: int|
            0 <= i < merged_edge_indices(es).len() ==> (#[trigger] merged_edge_indices(es)[i])
                == u32::MAX || merged_edge_indices(es)[i] < merged_edge_vertices(es).len(),
    decreases es.len(),
{
    if es.len() > 0 {
        let rest = es.drop_last();
        lemma_merged_edge_vertices_take(es, rest.len() as int);
        assert(es.take(rest.len() as int) =~= rest);
        law_edge_strips(rest);
        let offset = merged_edge_vertices(rest).len();
        let n = es.last().vertices@.len();
        let strip = Seq::new(n, |i: int| (offset + i) as u32).push(u32::MAX);
        let prev = merged_edge_indices(rest);
        assert forall|i: int| 0 <= i < merged_edge_indices(es).len() implies (#[trigger] merged_edge_indices(
            es,
        )[i]) == u32::MAX || merged_edge_indices(es)[i] < merged_edge_vertices(es).len() by {
            if i >= prev.len() {
                let j = i - prev.len();
                assert(merged_edge_indices(es)[i] == strip[j]);
            }
        }
    }
}

/// Where the vertices of surface `k` begin in the merged vertex array.
pub open spec fn vertex_offset<SV>(ss: Seq<ModelSurface<SV>>, filter: Option<MaterialKind>, k: int) -> int {
    merged_vertices(ss.take(k), filter).len() as int
}

/// Where the indices of surface `k` begin in the merged index array.
pub open spec fn index_offset<SV>(ss: Seq<ModelSurface<SV>>, filter: Option<MaterialKind>, k: int) -> int {
    merged_indices(ss.take(k), filter).len() as int
}

proof fn lemma_merged_prefix<SV>(ss: Seq<ModelSurface<SV>>, filter: Option<MaterialKind>, n: int)
    requires
        0 <= n <= ss.len(),
    ensures
        merged_vertices(ss.take(n), filter).len() <= merged_vertices(ss, filter).len(),
        merged_indices(ss.take(n), filter).len() <= merged_indices(ss, filter).len(),
        merged_vertices(ss.take(n), filter) == merged_vertices(ss, filter).take(
            merged_vertices(ss.take(n), filter).len() as int,
        ),
        merged_indices(ss.take(n), filter) == merged_indices(ss, filter).take(
            merged_indices(ss.take(n), filter).len() as int,
        ),
    decreases ss.len(),
{
    if n == ss.len() {
        assert(ss.take(n) =~= ss);
        assert(merged_vertices(ss, filter).take(merged_vertices(ss, filter).len() as int)
            =~= merged_vertices(ss, filter));
        assert(merged_indices(ss, filter).take(merged_indices(ss, filter).len() as int)
            =~= merged_indices(ss, filter));
    } else {
        let rest = ss.drop_last();
        lemma_merged_prefix(rest, filter, n);
        assert(rest.take(n) =~= ss.take(n));
        let a = merged_vertices(ss.take(n), filter);
        let b = merged_indices(ss.take(n), filter);
        assert(a =~= merged_vertices(ss, filter).take(a.len() as int));
        assert(b =~= merged_indices(ss, filter).take(b.len() as int));
    }
}

/// Merging keeps every triangle intact: when a selected surface's index `j`
/// names one of its own vertices, the merged index at the place of that
/// index names, in the merged vertex array, that same vertex, carrying the
/// surface's material.
pub proof fn law_merged_indices_follow_vertices<SV>(
    ss: Seq<ModelSurface<SV>>,
    filter: Option<MaterialKind>,
    k: int,
    j: int,
)
    requires
        merge_fits(ss, filter),
        0 <= k < ss.len(),
        selects(filter, ss[k]),
        0 <= j < ss[k].indices@.len(),
        ss[k].indices@[j] < ss[k].vertices@.len(),
    ensures
        index_offset(ss, filter, k) + j < merged_indices(ss, filter).len(),
        merged_indices(ss, filter)[index_offset(ss, filter, k) + j] == ss[k].indices@[j]
            + vertex_offset(ss, filter, k),
        merged_indices(ss, filter)[index_offset(ss, filter, k) + j] < merged_vertices(
            ss,
            filter,
        ).len(),
        merged_vertices(ss, filter)[merged_indices(ss, filter)[index_offset(ss, filter, k)
            + j] as int] == (ss[k].vertices@[ss[k].indices@[j] as int], ss[k].material_id.1),
{
    let t = ss.take(k + 1);
    let s = ss[k];
    assert(t.drop_last() =~= ss.take(k));
    assert(t.last() == s);
    lemma_merge_fits_prefix(ss, filter, k + 1);
    lemma_merged_prefix(ss, filter, k + 1);
    let vo = merged_vertices(ss.take(k), filter).len();
    let io = merged_indices(ss.take(k), filter).len();
    let tv = merged_vertices(t, filter);
    let ti = merged_indices(t, filter);
    assert(tv == merged_vertices(ss.take(k), filter) + s.vertices@.map_values(
        |v: SV| (v, s.material_id.1),
    ));
    assert(ti == merged_indices(ss.take(k), filter) + s.indices@.map_values(
        |i: u32| (i + vo) as u32,
    ));
    assert(s.indices@[j] + vo <= u32::MAX);
    assert(ti[io + j] == s.indices@[j] + vo);
    let m = s.indices@[j] as int;
    assert(tv[vo + m] == (s.vertices@[m], s.material_id.1));
    assert(merged_indices(ss, filter)[io + j] == ti[io + j]);
    assert(merged_vertices(ss, filter)[vo + m] == tv[vo + m]);
}

} // verus!
