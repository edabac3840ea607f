//! Building the objects of a scene from a loaded model: each mesh gets the
//! material its model file names, looked up by name.
use vstd::prelude::*;
use crate::text::str_eq;

verus! {

/// A mesh names a material the model does not define.
#[derive(Debug)]
pub struct MissingMaterial {
    pub material_name: String,
    pub mesh_name: String,
}

/// Where a mesh's material comes from.
#[derive(Clone, Copy, Debug, PartialEq, Eq, Structural)]
pub enum MeshMaterial {
    /// The model's material at this position.
    Defined(usize),
    /// The mesh names no material: the default one.
    Default,
}

/// The position of the last material named `name` (a later definition of a
/// name replaces an earlier one).
pub open spec fn last_named(names: Seq<Seq<char>>, name: Seq<char>) -> Option<int>
    decreases names.len(),
{
    if names.len() == 0 {
        None
    } else if names.last() == name {
        Some(names.len() - 1)
    } else {
        last_named(names.drop_last(), name)
    }
}

/// The views of a list of names.
pub open spec fn name_views(names: Seq<String>) -> Seq<Seq<char>> {
    names.map_values(|n: String| n@)
}

/// The position of the last material named `name`.
pub fn find_material(material_names: &Vec<String>, name: &str) -> (r: Option<usize>)
    ensures
        r matches Some(i) ==> last_named(name_views(material_names@), name@) == Some(i as int),
        r is None ==> last_named(name_views(material_names@), name@) is None,
{
    let ghost all = name_views(material_names@);
    let mut i: usize = material_names.len();
    assert(all.take(i as int) =~= all);
    while i > 0
        invariant
            i <= material_names@.len(),
            all == name_views(material_names@),
            last_named(all, name@) == last_named(all.take(i as int), name@),
        decreases i,
    {
        let ghost prefix = all.take(i as int);
        proof {
            assert(prefix.last() == material_names@[i - 1]@);
            assert(prefix.drop_last() =~= all.take(i - 1));
        }
        if str_eq(material_names[i - 1].as_str(), name) {
            return Some(i - 1);
        }
        i = i - 1;
    }
    proof {
        assert(all.take(0) =~= Seq::<Seq<char>>::empty());
    }
    None
}

/// The material of each mesh, in order: the last model material of the
/// name the mesh asks for, or the default when it asks for none. A mesh
/// that asks for a material the model does not define stops the build with
/// that mesh's error.
pub fn resolve_mesh_materials(
    material_names: &Vec<String>,
    meshes: &Vec<(String, Option<String>)>,
) -> (r: Result<Vec<MeshMaterial>, MissingMaterial>)
    ensures
        r matches Ok(v) ==> v@.len() == meshes@.len() && forall|k: int|
            0 <= k < meshes@.len() ==> (#[trigger] v@[k]) == match meshes@[k].1 {
                None => MeshMaterial::Default,
                Some(name) => MeshMaterial::Defined(
                    last_named(name_views(material_names@), name@)->0 as usize,
                ),
            },
        r matches Ok(_) ==> forall|k: int|
            0 <= k < meshes@.len() ==> (#[trigger] meshes@[k].1 matches Some(name)
                ==> last_named(name_views(material_names@), name@) is Some),
        r matches Err(e) ==> exists|k: int|
            0 <= k < meshes@.len() && (#[trigger] meshes@[k].1 matches Some(name) && last_named(
                name_views(material_names@),
                name@,
            ) is None && e.material_name@ == name@ && e.mesh_name@ == meshes@[k].0@) && forall|j: int|
                0 <= j < k ==> (#[trigger] meshes@[j].1 matches Some(n) ==> last_named(
                    name_views(material_names@),
                    n@,
                ) is Some),
{
    let mut out: Vec<MeshMaterial> = Vec::new();
    let mut k: usize = 0;
    while k < meshes.len()
        invariant
            k <= meshes@.len(),
            out@.len() == k,
            forall|j: int|
                0 <= j < k ==> (#[trigger] out@[j]) == match meshes@[j].1 {
                    None => MeshMaterial::Default,
                    Some(name) => MeshMaterial::Defined(
                        last_named(name_views(material_names@), name@)->0 as usize,
                    ),
                },
            forall|j: int|
                0 <= j < k ==> (#[trigger] meshes@[j].1 matches Some(name) ==> last_named(
                    name_views(material_names@),
                    name@,
                ) is Some),
        decreases meshes@.len() - k,
    {
        match &meshes[k].1 {
            Some(name) => match find_material(material_names, name.as_str()) {
                Some(i) => out.push(MeshMaterial::Defined(i)),
                None => {
                    return Err(
                        MissingMaterial {
                            material_name: name.clone(),
                            mesh_name: meshes[k].0.clone(),
                        },
                    );
                },
            },
            None => out.push(MeshMaterial::Default),
        }
        k = k + 1;
    }
    Ok(out)
}

} // verus!
