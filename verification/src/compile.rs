use std::collections::HashMap;
use vstd::prelude::*;
use vstd::std_specs::hash::*;
use crate::error::ConfigError;
use crate::kernel_scene::{
    KDielectricMat,
    KDiffuseMat,
    KMetalMat,
    KSphere,
    KernelScene,
    KernelSceneView,
    TAG_DIELECTRIC,
    TAG_DIFFUSE,
    TAG_METAL,
};
use crate::scene::{Material, Scene, SceneView, Shape};

verus! {

/// The records that `pick` takes from the materials, in their order.
pub open spec fn picked<T>(materials: Seq<Material>, pick: spec_fn(Material) -> Option<T>) -> Seq<T>
    decreases materials.len(),
{
    if materials.len() == 0 {
        Seq::empty()
    } else {
        let rest = picked(materials.drop_last(), pick);
        match pick(materials.last()) {
            Some(record) => rest.push(record),
            None => rest,
        }
    }
}

/// Takes the record of a diffuse material, and nothing of another.
pub open spec fn diffuse_pick() -> spec_fn(Material) -> Option<KDiffuseMat> {
    |material: Material|
        match material {
            Material::Diffuse(albedo) => Some(KDiffuseMat { albedo }),
            _ => None,
        }
}

/// Takes the record of a metal material, and nothing of another.
pub open spec fn metal_pick() -> spec_fn(Material) -> Option<KMetalMat> {
    |material: Material|
        match material {
            Material::Metal(albedo, roughness) => Some(KMetalMat { albedo, roughness }),
            _ => None,
        }
}

/// Takes the record of a dielectric material, and nothing of another.
pub open spec fn dielectric_pick() -> spec_fn(Material) -> Option<KDielectricMat> {
    |material: Material|
        match material {
            Material::Dielectric(ior) => Some(KDielectricMat { ior }),
            _ => None,
        }
}

/// The diffuse materials among `materials`, in their order.
pub open spec fn diffuse_of(materials: Seq<Material>) -> Seq<KDiffuseMat> {
    picked(materials, diffuse_pick())
}

/// The metal materials among `materials`, in their order.
pub open spec fn metal_of(materials: Seq<Material>) -> Seq<KMetalMat> {
    picked(materials, metal_pick())
}

/// The dielectric materials among `materials`, in their order.
pub open spec fn dielectric_of(materials: Seq<Material>) -> Seq<KDielectricMat> {
    picked(materials, dielectric_pick())
}

/// The tag of a material's kind.
pub open spec fn tag_of(material: Material) -> u32 {
    match material {
        Material::Diffuse(_) => TAG_DIFFUSE,
        Material::Metal(_, _) => TAG_METAL,
        Material::Dielectric(_) => TAG_DIELECTRIC,
    }
}

/// The position that material `i` takes in the array of its kind: the
/// number of materials of that kind registered before it.
pub open spec fn index_of(materials: Seq<Material>, i: int) -> int {
    match materials[i] {
        Material::Diffuse(_) => diffuse_of(materials.take(i)).len() as int,
        Material::Metal(_, _) => metal_of(materials.take(i)).len() as int,
        Material::Dielectric(_) => dielectric_of(materials.take(i)).len() as int,
    }
}

/// The reference by which a sphere names material `i`: the tag of its kind
/// and its position in the array of that kind.
pub open spec fn slot_of(materials: Seq<Material>, i: int) -> (u32, u32) {
    (tag_of(materials[i]), index_of(materials, i) as u32)
}

/// The sphere record of a shape whose material is registered.
pub open spec fn sphere_of(materials: Seq<Material>, shape: Shape) -> KSphere {
    match shape {
        Shape::Sphere(center, radius, material) => KSphere {
            center,
            radius,
            mat_type: slot_of(materials, material as int).0,
            mat_index: slot_of(materials, material as int).1,
        },
    }
}

/// Whether shape `i` refers to a registered material.
pub open spec fn is_resolved(scene: SceneView, i: int) -> bool {
    scene.shapes[i].material() < scene.materials.len()
}

/// Whether every shape refers to a registered material.
pub open spec fn all_resolved(scene: SceneView) -> bool {
    forall|i: int| 0 <= i < scene.shapes.len() ==> is_resolved(scene, i)
}

/// The compiled form of a scene whose shapes all refer to registered
/// materials.
pub open spec fn compiled(scene: SceneView) -> KernelSceneView {
    KernelSceneView {
        spheres: Seq::new(scene.shapes.len(), |i: int| sphere_of(scene.materials, scene.shapes[i])),
        diffuse_mats: diffuse_of(scene.materials),
        metal_mats: metal_of(scene.materials),
        dielectric_mats: dielectric_of(scene.materials),
    }
}

/// The fault of a scene: its first shape that refers to no registered
/// material, if there is one.
pub open spec fn scene_fault(scene: SceneView, e: ConfigError) -> bool {
    exists|i: int|
        {
            &&& 0 <= i < scene.shapes.len()
            &&& !is_resolved(scene, i)
            &&& forall|j: int| 0 <= j < i ==> is_resolved(scene, j)
            &&& e == (ConfigError::UnknownMaterial {
                shape: i as usize,
                material: #[trigger] scene.shapes[i].material(),
            })
        }
}

/// A scene that the compiler takes: its materials and its shapes can be
/// counted in 32 bits, as the kernel's indices are.
pub open spec fn fits_kernel(scene: SceneView) -> bool {
    &&& scene.materials.len() <= u32::MAX
    &&& scene.shapes.len() <= u32::MAX
}

/// Each material goes to the array of its kind and to no other: the three
/// arrays together are as long as the list of materials.
pub proof fn lemma_kind_counts(materials: Seq<Material>)
    ensures
        diffuse_of(materials).len() + metal_of(materials).len() + dielectric_of(materials).len()
            == materials.len(),
    decreases materials.len(),
{
    if materials.len() > 0 {
        lemma_kind_counts(materials.drop_last());
    }
}

/// Taking one more material appends its record, if `pick` takes one of it.
pub proof fn lemma_take_next<T>(
    materials: Seq<Material>,
    pick: spec_fn(Material) -> Option<T>,
    i: int,
)
    requires
        0 <= i < materials.len(),
    ensures
        picked(materials.take(i + 1), pick) == (match pick(materials[i]) {
            Some(record) => picked(materials.take(i), pick).push(record),
            None => picked(materials.take(i), pick),
        }),
{
    let next = materials.take(i + 1);
    assert(next.drop_last() =~= materials.take(i));
    assert(next.last() == materials[i]);
}

/// What `pick` takes from the first `n` materials is the start of what it
/// takes from all.
pub proof fn lemma_picked_prefix<T>(
    materials: Seq<Material>,
    pick: spec_fn(Material) -> Option<T>,
    n: int,
)
    requires
        0 <= n <= materials.len(),
    ensures
        picked(materials.take(n), pick).is_prefix_of(picked(materials, pick)),
    decreases materials.len(),
{
    if n == materials.len() {
        assert(materials.take(n) =~= materials);
    } else {
        lemma_picked_prefix(materials.drop_last(), pick, n);
        assert(materials.drop_last().take(n) =~= materials.take(n));
    }
}

/// The record that `pick` takes of material `i` stands in the array behind
/// the records taken of the materials before it.
pub proof fn lemma_picked_at<T>(
    materials: Seq<Material>,
    pick: spec_fn(Material) -> Option<T>,
    i: int,
)
    requires
        0 <= i < materials.len(),
        pick(materials[i]).is_some(),
    ensures
        picked(materials.take(i), pick).len() < picked(materials, pick).len(),
        picked(materials, pick)[picked(materials.take(i), pick).len() as int] == pick(
            materials[i],
        ).unwrap(),
{
    lemma_take_next(materials, pick, i);
    lemma_picked_prefix(materials, pick, i + 1);
    let upto = picked(materials.take(i + 1), pick);
    let k = picked(materials.take(i), pick).len() as int;
    assert(upto[k] == picked(materials, pick).subrange(0, upto.len() as int)[k]);
}

/// Compiles a scene into the kernel's layout: each material goes to the
/// array of its kind, in the order of registration, and each shape becomes a
/// sphere record that names its material by kind and position. A shape that
/// refers to no registered material is reported, the first such.
pub fn compile(scene: &Scene) -> (res: Result<KernelScene, ConfigError>)
    requires
        fits_kernel(scene@),
    ensures
        res.is_ok() <==> all_resolved(scene@),
        match res {
            Ok(kernel_scene) => kernel_scene@ == compiled(scene@),
            Err(e) => scene_fault(scene@, e),
        },
{
    broadcast use group_hash_axioms;

    let materials = scene.materials();
    let shapes = scene.shapes();
    let mut kernel_scene = KernelScene::new();
    let mut slots: HashMap<usize, (u32, u32)> = HashMap::new();
    let mut i: usize = 0;
    while i < materials.len()
        invariant
            materials@ == scene@.materials,
            materials@.len() <= u32::MAX,
            i <= materials@.len(),
            forall|j: usize| #[trigger] slots@.contains_key(j) <==> j < i,
            forall|j: usize| j < i ==> #[trigger] slots@[j] == slot_of(materials@, j as int),
            kernel_scene@ == (KernelSceneView {
                spheres: Seq::empty(),
                diffuse_mats: diffuse_of(materials@.take(i as int)),
                metal_mats: metal_of(materials@.take(i as int)),
                dielectric_mats: dielectric_of(materials@.take(i as int)),
            }),
        decreases materials@.len() - i,
    {
        proof {
            lemma_kind_counts(materials@.take(i as int));
            lemma_take_next(materials@, diffuse_pick(), i as int);
            lemma_take_next(materials@, metal_pick(), i as int);
            lemma_take_next(materials@, dielectric_pick(), i as int);
        }
        match materials[i] {
            Material::Diffuse(albedo) => {
                let index = kernel_scene.register_diffuse_material(KDiffuseMat { albedo });
                slots.insert(i, (TAG_DIFFUSE, index));
            },
            Material::Metal(albedo, roughness) => {
                let index = kernel_scene.register_metal_material(KMetalMat { albedo, roughness });
                slots.insert(i, (TAG_METAL, index));
            },
            Material::Dielectric(ior) => {
                let index = kernel_scene.register_dielectric_material(KDielectricMat { ior });
                slots.insert(i, (TAG_DIELECTRIC, index));
            },
        }
        i = i + 1;
    }
    assert(materials@.take(i as int) =~= materials@);
    assert(kernel_scene@.spheres =~= Seq::new(0nat, |j: int| sphere_of(materials@, shapes@[j])));
    let mut k: usize = 0;
    while k < shapes.len()
        invariant
            materials@ == scene@.materials,
            shapes@ == scene@.shapes,
            shapes@.len() <= u32::MAX,
            k <= shapes@.len(),
            forall|j: usize| #[trigger] slots@.contains_key(j) <==> j < materials@.len(),
            forall|j: usize|
                j < materials@.len() ==> #[trigger] slots@[j] == slot_of(materials@, j as int),
            forall|j: int| 0 <= j < k ==> is_resolved(scene@, j),
            kernel_scene@ == (KernelSceneView {
                spheres: Seq::new(k as nat, |j: int| sphere_of(materials@, shapes@[j])),
                diffuse_mats: diffuse_of(materials@),
                metal_mats: metal_of(materials@),
                dielectric_mats: dielectric_of(materials@),
            }),
        decreases shapes@.len() - k,
    {
        match shapes[k] {
            Shape::Sphere(center, radius, material) => {
                match slots.get(&material) {
                    Some(slot) => {
                        assert(slots@.contains_key(material));
                        kernel_scene.register_sphere(
                            KSphere { center, radius, mat_type: slot.0, mat_index: slot.1 },
                        );
                        assert(kernel_scene@.spheres =~= Seq::new(
                            (k + 1) as nat,
                            |j: int| sphere_of(materials@, shapes@[j]),
                        ));
                    },
                    None => {
                        assert(!slots@.contains_key(material));
                        assert(!is_resolved(scene@, k as int));
                        return Err(ConfigError::UnknownMaterial { shape: k, material });
                    },
                }
            },
        }
        k = k + 1;
    }
    assert(kernel_scene@.spheres =~= compiled(scene@).spheres);
    Ok(kernel_scene)
}

/// Number of materials of the kind with the given tag.
pub open spec fn count_of(materials: Seq<Material>, tag: u32) -> nat
    decreases materials.len(),
{
    if materials.len() == 0 {
        0
    } else {
        count_of(materials.drop_last(), tag) + if tag_of(materials.last()) == tag {
            1nat
        } else {
            0nat
        }
    }
}

/// Each array of a compiled scene is as long as the scene has materials of
/// that kind.
pub proof fn lemma_array_lengths(scene: SceneView)
    ensures
        compiled(scene).diffuse_mats.len() == count_of(scene.materials, TAG_DIFFUSE),
        compiled(scene).metal_mats.len() == count_of(scene.materials, TAG_METAL),
        compiled(scene).dielectric_mats.len() == count_of(scene.materials, TAG_DIELECTRIC),
        compiled(scene).spheres.len() == scene.shapes.len(),
    decreases scene.materials.len(),
{
    if scene.materials.len() > 0 {
        lemma_array_lengths(
            SceneView { shapes: scene.shapes, materials: scene.materials.drop_last() },
        );
    }
}

/// Every sphere of a compiled scene keeps the centre and the radius of its
/// shape, and its material reference names, within the bounds of the array
/// of that kind, the very material that the shape refers to.
pub proof fn lemma_references_resolve(scene: SceneView, i: int)
    requires
        fits_kernel(scene),
        all_resolved(scene),
        0 <= i < scene.shapes.len(),
    ensures
        ({
            let sphere = compiled(scene).spheres[i];
            let Shape::Sphere(center, radius, material) = scene.shapes[i];
            &&& sphere.center == center
            &&& sphere.radius == radius
            &&& compiled(scene).resolves(sphere.mat_type, sphere.mat_index)
            &&& match scene.materials[material as int] {
                Material::Diffuse(albedo) => sphere.mat_type == TAG_DIFFUSE && compiled(
                    scene,
                ).diffuse_mats[sphere.mat_index as int] == (KDiffuseMat { albedo }),
                Material::Metal(albedo, roughness) => sphere.mat_type == TAG_METAL && compiled(
                    scene,
                ).metal_mats[sphere.mat_index as int] == (KMetalMat { albedo, roughness }),
                Material::Dielectric(ior) => sphere.mat_type == TAG_DIELECTRIC && compiled(
                    scene,
                ).dielectric_mats[sphere.mat_index as int] == (KDielectricMat { ior }),
            }
        }),
{
    assert(is_resolved(scene, i));
    let material = scene.shapes[i].material() as int;
    lemma_kind_counts(scene.materials);
    match scene.materials[material] {
        Material::Diffuse(_) => lemma_picked_at(scene.materials, diffuse_pick(), material),
        Material::Metal(_, _) => lemma_picked_at(scene.materials, metal_pick(), material),
        Material::Dielectric(_) => lemma_picked_at(scene.materials, dielectric_pick(), material),
    }
}

/// The order of registration alone decides where a material goes: what is
/// registered later moves no earlier material.
pub proof fn lemma_registration_is_stable(materials: Seq<Material>, later: Seq<Material>, i: int)
    requires
        0 <= i < materials.len(),
    ensures
        tag_of((materials + later)[i]) == tag_of(materials[i]),
        index_of(materials + later, i) == index_of(materials, i),
{
    assert((materials + later).take(i) =~= materials.take(i));
}

/// Compiling is a function of what the scene holds: two scenes with the
/// same shapes and materials in the same order get the same layout, and a
/// scene has at most one fault.
pub proof fn lemma_compile_is_deterministic(a: SceneView, b: SceneView, ea: ConfigError, eb: ConfigError)
    requires
        a.shapes =~= b.shapes,
        a.materials =~= b.materials,
    ensures
        all_resolved(a) == all_resolved(b),
        compiled(a) == compiled(b),
        scene_fault(a, ea) && scene_fault(b, eb) ==> ea == eb,
        scene_fault(a, ea) ==> !all_resolved(a),
{
    if scene_fault(a, ea) && scene_fault(b, eb) {
        let i = choose|i: int|
            {
                &&& 0 <= i < a.shapes.len()
                &&& !is_resolved(a, i)
                &&& forall|j: int| 0 <= j < i ==> is_resolved(a, j)
                &&& ea == (ConfigError::UnknownMaterial {
                    shape: i as usize,
                    material: #[trigger] a.shapes[i].material(),
                })
            };
        let k = choose|k: int|
            {
                &&& 0 <= k < b.shapes.len()
                &&& !is_resolved(b, k)
                &&& forall|j: int| 0 <= j < k ==> is_resolved(b, j)
                &&& eb == (ConfigError::UnknownMaterial {
                    shape: k as usize,
                    material: #[trigger] b.shapes[k].material(),
                })
            };
        assert(is_resolved(a, k) == is_resolved(b, k));
        assert(is_resolved(a, i) == is_resolved(b, i));
        assert(i == k);
    }
}

} // verus!
