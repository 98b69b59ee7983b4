use vstd::prelude::*;
use crate::vector::Vec3;

verus! {

/// Tag of the diffuse materials in a sphere's material reference.
pub const TAG_DIFFUSE: u32 = 1;

/// Tag of the metal materials in a sphere's material reference.
pub const TAG_METAL: u32 = 2;

/// Tag of the dielectric materials in a sphere's material reference.
pub const TAG_DIELECTRIC: u32 = 3;

/// A diffuse material as the kernel reads it.
#[derive(Clone, Copy, Debug, PartialEq, Eq, Structural)]
pub struct KDiffuseMat {
    pub albedo: Vec3,
}

/// A metal material as the kernel reads it.
#[derive(Clone, Copy, Debug, PartialEq, Eq, Structural)]
pub struct KMetalMat {
    pub albedo: Vec3,
    pub roughness: u32,
}

/// A dielectric material as the kernel reads it.
#[derive(Clone, Copy, Debug, PartialEq, Eq, Structural)]
pub struct KDielectricMat {
    pub ior: u32,
}

/// A sphere as the kernel reads it. Its material is named by the tag of the
/// material's kind and the material's position in the array of that kind.
#[derive(Clone, Copy, Debug, PartialEq, Eq, Structural)]
pub struct KSphere {
    pub center: Vec3,
    pub radius: u32,
    pub mat_type: u32,
    pub mat_index: u32,
}

/// What a compiled scene holds: one array of spheres, and one array of
/// materials for each kind.
pub struct KernelSceneView {
    pub spheres: Seq<KSphere>,
    pub diffuse_mats: Seq<KDiffuseMat>,
    pub metal_mats: Seq<KMetalMat>,
    pub dielectric_mats: Seq<KDielectricMat>,
}

/// The scene in the flat layout that is uploaded to the device.
#[derive(Debug, PartialEq, Eq)]
pub struct KernelScene {
    spheres: Vec<KSphere>,
    diffuse_mats: Vec<KDiffuseMat>,
    metal_mats: Vec<KMetalMat>,
    dielectric_mats: Vec<KDielectricMat>,
}

impl View for KernelScene {
    type V = KernelSceneView;

    closed spec fn view(&self) -> KernelSceneView {
        KernelSceneView {
            spheres: self.spheres@,
            diffuse_mats: self.diffuse_mats@,
            metal_mats: self.metal_mats@,
            dielectric_mats: self.dielectric_mats@,
        }
    }
}

impl KernelSceneView {
    /// The compiled scene that holds nothing.
    pub open spec fn empty() -> KernelSceneView {
        KernelSceneView {
            spheres: Seq::empty(),
            diffuse_mats: Seq::empty(),
            metal_mats: Seq::empty(),
            dielectric_mats: Seq::empty(),
        }
    }

    /// Whether a material reference names an element of the array of its kind.
    pub open spec fn resolves(&self, mat_type: u32, mat_index: u32) -> bool {
        ||| mat_type == TAG_DIFFUSE && mat_index < self.diffuse_mats.len()
        ||| mat_type == TAG_METAL && mat_index < self.metal_mats.len()
        ||| mat_type == TAG_DIELECTRIC && mat_index < self.dielectric_mats.len()
    }
}

impl KernelScene {
    /// The compiled scene that holds nothing.
    pub fn new() -> (scene: KernelScene)
        ensures
            scene@ == KernelSceneView::empty(),
    {
        KernelScene {
            spheres: Vec::new(),
            diffuse_mats: Vec::new(),
            metal_mats: Vec::new(),
            dielectric_mats: Vec::new(),
        }
    }

    /// Appends a diffuse material and returns its position among the
    /// diffuse materials.
    pub fn register_diffuse_material(&mut self, mat: KDiffuseMat) -> (index: u32)
        requires
            old(self)@.diffuse_mats.len() <= u32::MAX,
        ensures
            index == old(self)@.diffuse_mats.len(),
            final(self)@ == (KernelSceneView {
                diffuse_mats: old(self)@.diffuse_mats.push(mat),
                ..old(self)@
            }),
    {
        self.diffuse_mats.push(mat);
        (self.diffuse_mats.len() - 1) as u32
    }

    /// Appends a metal material and returns its position among the metal
    /// materials.
    pub fn register_metal_material(&mut self, mat: KMetalMat) -> (index: u32)
        requires
            old(self)@.metal_mats.len() <= u32::MAX,
        ensures
            index == old(self)@.metal_mats.len(),
            final(self)@ == (KernelSceneView {
                metal_mats: old(self)@.metal_mats.push(mat),
                ..old(self)@
            }),
    {
        self.metal_mats.push(mat);
        (self.metal_mats.len() - 1) as u32
    }

    /// Appends a dielectric material and returns its position among the
    /// dielectric materials.
    pub fn register_dielectric_material(&mut self, mat: KDielectricMat) -> (index: u32)
        requires
            old(self)@.dielectric_mats.len() <= u32::MAX,
        ensures
            index == old(self)@.dielectric_mats.len(),
            final(self)@ == (KernelSceneView {
                dielectric_mats: old(self)@.dielectric_mats.push(mat),
                ..old(self)@
            }),
    {
        self.dielectric_mats.push(mat);
        (self.dielectric_mats.len() - 1) as u32
    }

    /// Appends a sphere and returns its position among the spheres.
    pub fn register_sphere(&mut self, sphere: KSphere) -> (index: u32)
        requires
            old(self)@.spheres.len() <= u32::MAX,
        ensures
            index == old(self)@.spheres.len(),
            final(self)@ == (KernelSceneView {
                spheres: old(self)@.spheres.push(sphere),
                ..old(self)@
            }),
    {
        self.spheres.push(sphere);
        (self.spheres.len() - 1) as u32
    }

    /// The spheres in the order of registration.
    pub fn spheres(&self) -> (spheres: &Vec<KSphere>)
        ensures
            spheres@ == self@.spheres,
    {
        &self.spheres
    }

    /// The diffuse materials in the order of registration.
    pub fn diffuse_mats(&self) -> (mats: &Vec<KDiffuseMat>)
        ensures
            mats@ == self@.diffuse_mats,
    {
        &self.diffuse_mats
    }

    /// The metal materials in the order of registration.
    pub fn metal_mats(&self) -> (mats: &Vec<KMetalMat>)
        ensures
            mats@ == self@.metal_mats,
    {
        &self.metal_mats
    }

    /// The dielectric materials in the order of registration.
    pub fn dielectric_mats(&self) -> (mats: &Vec<KDielectricMat>)
        ensures
            mats@ == self@.dielectric_mats,
    {
        &self.dielectric_mats
    }
}

} // verus!
