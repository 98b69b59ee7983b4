use vstd::prelude::*;
use crate::vector::Vec3;

verus! {

/// How a surface scatters light.
#[derive(Clone, Copy, Debug, PartialEq, Eq, Structural)]
pub enum Material {
    /// A matte surface of the given albedo.
    Diffuse(Vec3),
    /// A mirroring surface of the given albedo and roughness.
    Metal(Vec3, u32),
    /// A transparent body of the given refraction index.
    Dielectric(u32),
}

/// A body of the scene.
#[derive(Clone, Copy, Debug, PartialEq, Eq, Structural)]
pub enum Shape {
    /// A sphere: its centre, its radius, and the position of its material
    /// among the scene's materials. A negative radius turns the surface
    /// inside out, which models a hollow shell.
    Sphere(Vec3, u32, usize),
}

impl Shape {
    /// The position of the shape's material among the scene's materials.
    pub open spec fn material(&self) -> usize {
        match *self {
            Shape::Sphere(_, _, material) => material,
        }
    }
}

/// What a scene holds: its shapes and its materials, each in the order of
/// registration.
pub struct SceneView {
    pub shapes: Seq<Shape>,
    pub materials: Seq<Material>,
}

/// A scene as its author builds it.
#[derive(Debug, PartialEq, Eq)]
pub struct Scene {
    shapes: Vec<Shape>,
    materials: Vec<Material>,
}

impl View for Scene {
    type V = SceneView;

    closed spec fn view(&self) -> SceneView {
        SceneView { shapes: self.shapes@, materials: self.materials@ }
    }
}

impl Scene {
    /// The scene without shapes and materials.
    pub fn new() -> (scene: Scene)
        ensures
            scene@.shapes == Seq::<Shape>::empty(),
            scene@.materials == Seq::<Material>::empty(),
    {
        Scene { shapes: Vec::new(), materials: Vec::new() }
    }

    /// Adds a material behind those already there and returns its position,
    /// by which shapes refer to it.
    pub fn register_material(&mut self, material: Material) -> (id: usize)
        ensures
            id == old(self)@.materials.len(),
            final(self)@.materials == old(self)@.materials.push(material),
            final(self)@.shapes == old(self)@.shapes,
    {
        self.materials.push(material);
        self.materials.len() - 1
    }

    /// Adds a shape behind those already there and returns its position.
    pub fn register_shape(&mut self, shape: Shape) -> (id: usize)
        ensures
            id == old(self)@.shapes.len(),
            final(self)@.shapes == old(self)@.shapes.push(shape),
            final(self)@.materials == old(self)@.materials,
    {
        self.shapes.push(shape);
        self.shapes.len() - 1
    }

    /// The shapes in the order of registration.
    pub fn shapes(&self) -> (shapes: &Vec<Shape>)
        ensures
            shapes@ == self@.shapes,
    {
        &self.shapes
    }

    /// The materials in the order of registration.
    pub fn materials(&self) -> (materials: &Vec<Material>)
        ensures
            materials@ == self@.materials,
    {
        &self.materials
    }
}

} // verus!
