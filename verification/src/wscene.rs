use vstd::prelude::*;
use crate::color::{hex_color_of, hex_to_rgb};
use crate::compile::{all_resolved, compile, compiled, is_resolved, scene_fault};
use crate::config::{CameraConfig, DerivedCamera, KernelConfig, RenderConfig, TileSize};
use crate::error::ConfigError;
use crate::kernel_scene::KernelScene;
use crate::scene::{Material, Scene, SceneView, Shape};
use crate::vector::Vec3;

verus! {

/// The kind of a body, with what the kind needs.
#[derive(Clone, Copy, Debug, PartialEq, Eq, Structural)]
pub enum WObjectType {
    Sphere { position: Vec3, radius: u32 },
}

/// A body of a described scene. Its `material_id` is the position of its
/// material among the described materials, the first being 0.
#[derive(Debug, PartialEq, Eq)]
pub struct WObject {
    pub id: u32,
    pub name: String,
    pub material_id: usize,
    pub obj_type: WObjectType,
}

/// The kind of a material, with what the kind needs. Colours are written
/// in hexadecimal, as `#fa0` or `#ffaa00`.
#[derive(Debug, PartialEq, Eq)]
pub enum WMaterialType {
    Diffuse { color: String },
    Metal { color: String, roughness: u32 },
    Dielectric { ior: u32 },
}

/// A material of a described scene. Bodies refer to it by its position
/// among the described materials; its `id` is a label of the author's and
/// plays no part in that.
#[derive(Debug, PartialEq, Eq)]
pub struct WMaterial {
    pub id: u32,
    pub name: String,
    pub mat_type: WMaterialType,
}

/// The camera of a described scene.
#[derive(Clone, Copy, Debug, PartialEq, Eq, Structural)]
pub struct WCamera {
    pub look_from: Vec3,
    pub look_at: Vec3,
    pub v_up: Vec3,
    pub v_fov: u32,
    pub dof_angle: u32,
    pub dof_distance: u32,
}

/// The tile mode of a described scene.
#[derive(Clone, Copy, Debug, PartialEq, Eq, Structural)]
pub enum WTileSize {
    Full,
    Tile { size: u32 },
}

/// The render settings of a described scene.
#[derive(Clone, Copy, Debug, PartialEq, Eq, Structural)]
pub struct WRenderSettings {
    pub width: u32,
    pub height: u32,
    pub samples: u32,
    pub bounces: u32,
    pub tile_size: WTileSize,
}

/// A scene as a description: what a scene file holds.
#[derive(Debug, PartialEq, Eq)]
pub struct WScene {
    pub objects: Vec<WObject>,
    pub materials: Vec<WMaterial>,
    pub camera: WCamera,
    pub render_settings: WRenderSettings,
}

/// The material that a described material stands for; none if its colour
/// is no colour.
pub open spec fn material_of(material: WMaterial) -> Option<Material> {
    match material.mat_type {
        WMaterialType::Diffuse { color } => match hex_color_of(color@) {
            Some(albedo) => Some(Material::Diffuse(albedo)),
            None => None,
        },
        WMaterialType::Metal { color, roughness } => match hex_color_of(color@) {
            Some(albedo) => Some(Material::Metal(albedo, roughness)),
            None => None,
        },
        WMaterialType::Dielectric { ior } => Some(Material::Dielectric(ior)),
    }
}

/// The materials that the described materials stand for, in their order.
pub open spec fn materials_of(materials: Seq<WMaterial>) -> Seq<Material> {
    Seq::new(materials.len(), |i: int| material_of(materials[i]).unwrap())
}

/// The shape that a described body stands for: it refers to its material
/// by the material's position among the described materials.
pub open spec fn shape_of(object: WObject) -> Shape {
    match object.obj_type {
        WObjectType::Sphere { position, radius } => Shape::Sphere(
            position,
            radius,
            object.material_id,
        ),
    }
}

/// The scene that a description stands for.
pub open spec fn authored(scene: WScene) -> SceneView {
    SceneView {
        shapes: Seq::new(scene.objects@.len(), |i: int| shape_of(scene.objects@[i])),
        materials: materials_of(scene.materials@),
    }
}

/// Whether every colour of the described materials is a colour.
pub open spec fn colors_valid(scene: WScene) -> bool {
    forall|i: int| 0 <= i < scene.materials@.len() ==> material_of(#[trigger] scene.materials@[i]).is_some()
}

/// Whether every body refers to a described material: its `material_id`
/// is a position among the described materials.
pub open spec fn ids_known(scene: WScene) -> bool {
    forall|i: int|
        0 <= i < scene.objects@.len() ==> (#[trigger] scene.objects@[i]).material_id
            < scene.materials@.len()
}

/// The fault of a description: its first material whose colour is no
/// colour; if there is none, the fault of the scene that it stands for,
/// which is its first body that refers to no described material.
pub open spec fn description_fault(scene: WScene, e: ConfigError) -> bool {
    if !colors_valid(scene) {
        exists|i: int|
            {
                &&& 0 <= i < scene.materials@.len()
                &&& material_of(#[trigger] scene.materials@[i]).is_none()
                &&& forall|j: int| 0 <= j < i ==> material_of(#[trigger] scene.materials@[j]).is_some()
                &&& e == ConfigError::InvalidColor { material: i as usize }
            }
    } else {
        scene_fault(authored(scene), e)
    }
}

/// Every body of a description refers to a described material just when
/// every shape of the scene that it stands for is resolved.
pub proof fn lemma_ids_known(scene: WScene)
    ensures
        ids_known(scene) <==> all_resolved(authored(scene)),
{
    let a = authored(scene);
    if ids_known(scene) {
        assert forall|i: int| 0 <= i < a.shapes.len() implies is_resolved(a, i) by {
            assert(scene.objects@[i].material_id < scene.materials@.len());
        }
    }
    if all_resolved(a) {
        assert forall|i: int| 0 <= i < scene.objects@.len() implies (#[trigger] scene.objects@[i]).material_id
            < scene.materials@.len() by {
            assert(is_resolved(a, i));
        }
    }
}

/// Reads the material that a described material stands for.
fn read_material(material: &WMaterial) -> (res: Option<Material>)
    ensures
        res == material_of(*material),
{
    match &material.mat_type {
        WMaterialType::Diffuse { color } => match hex_to_rgb(color.as_str()) {
            Some(albedo) => Some(Material::Diffuse(albedo)),
            None => None,
        },
        WMaterialType::Metal { color, roughness } => match hex_to_rgb(color.as_str()) {
            Some(albedo) => Some(Material::Metal(albedo, *roughness)),
            None => None,
        },
        WMaterialType::Dielectric { ior } => Some(Material::Dielectric(*ior)),
    }
}

impl WScene {
    /// The scene that the description stands for, or the description's fault.
    pub fn to_scene(&self) -> (res: Result<Scene, ConfigError>)
        ensures
            res.is_ok() <==> colors_valid(*self) && ids_known(*self),
            match res {
                Ok(scene) => scene@ == authored(*self) && all_resolved(scene@),
                Err(e) => description_fault(*self, e),
            },
    {
        let mut scene = Scene::new();
        let mut i: usize = 0;
        while i < self.materials.len()
            invariant
                i <= self.materials@.len(),
                scene@.shapes == Seq::<Shape>::empty(),
                scene@.materials == materials_of(self.materials@).take(i as int),
                forall|j: int| 0 <= j < i ==> material_of(#[trigger] self.materials@[j]).is_some(),
            decreases self.materials@.len() - i,
        {
            match read_material(&self.materials[i]) {
                Some(material) => {
                    scene.register_material(material);
                    assert(scene@.materials =~= materials_of(self.materials@).take(i + 1));
                },
                None => {
                    proof {
                        assert(material_of(self.materials@[i as int]).is_none());
                        assert(!colors_valid(*self));
                    }
                    return Err(ConfigError::InvalidColor { material: i });
                },
            }
            i = i + 1;
        }
        proof {
            assert(scene@.materials =~= materials_of(self.materials@));
            assert(colors_valid(*self));
            lemma_ids_known(*self);
        }
        let mut k: usize = 0;
        while k < self.objects.len()
            invariant
                k <= self.objects@.len(),
                colors_valid(*self),
                scene@.materials == materials_of(self.materials@),
                scene@.shapes == Seq::new(k as nat, |j: int| shape_of(self.objects@[j])),
                forall|j: int|
                    0 <= j < k ==> (#[trigger] self.objects@[j]).material_id
                        < self.materials@.len(),
            decreases self.objects@.len() - k,
        {
            let object = &self.objects[k];
            match object.obj_type {
                WObjectType::Sphere { position, radius } => {
                    if object.material_id < self.materials.len() {
                        scene.register_shape(Shape::Sphere(position, radius, object.material_id));
                        assert(scene@.shapes =~= Seq::new(
                            (k + 1) as nat,
                            |j: int| shape_of(self.objects@[j]),
                        ));
                    } else {
                        proof {
                            let a = authored(*self);
                            assert(!ids_known(*self));
                            assert(!is_resolved(a, k as int));
                            assert forall|j: int| 0 <= j < k implies is_resolved(a, j) by {
                                assert(self.objects@[j].material_id < self.materials@.len());
                            }
                            assert(a.shapes[k as int].material() == object.material_id);
                        }
                        return Err(
                            ConfigError::UnknownMaterial { shape: k, material: object.material_id },
                        );
                    }
                },
            }
            k = k + 1;
        }
        proof {
            assert(scene@.shapes =~= authored(*self).shapes);
            assert(ids_known(*self));
        }
        Ok(scene)
    }

    /// Compiles the description into the kernel's layout, or names its fault.
    pub fn get_kernel_scene(&self) -> (res: Result<KernelScene, ConfigError>)
        requires
            self.objects@.len() <= u32::MAX,
            self.materials@.len() <= u32::MAX,
        ensures
            res.is_ok() <==> colors_valid(*self) && ids_known(*self),
            match res {
                Ok(kernel_scene) => kernel_scene@ == compiled(authored(*self)),
                Err(e) => description_fault(*self, e),
            },
    {
        match self.to_scene() {
            Ok(scene) => compile(&scene),
            Err(e) => Err(e),
        }
    }

    /// The render settings that the description asks for.
    pub open spec fn render_config(&self) -> RenderConfig {
        RenderConfig {
            width: self.render_settings.width,
            height: self.render_settings.height,
            samples: self.render_settings.samples,
            bounces: self.render_settings.bounces,
            tile_size: match self.render_settings.tile_size {
                WTileSize::Full => TileSize::Full,
                WTileSize::Tile { size } => TileSize::Tile(size),
            },
        }
    }

    /// The camera settings that the description asks for.
    pub open spec fn camera_config(&self) -> CameraConfig {
        CameraConfig {
            look_from: self.camera.look_from,
            look_at: self.camera.look_at,
            v_up: self.camera.v_up,
            v_fov: self.camera.v_fov,
            dof_angle: self.camera.dof_angle,
            dof_distance: self.camera.dof_distance,
        }
    }

    /// Reads the render settings off the description.
    pub fn get_render_config(&self) -> (config: RenderConfig)
        ensures
            config == self.render_config(),
    {
        RenderConfig {
            width: self.render_settings.width,
            height: self.render_settings.height,
            samples: self.render_settings.samples,
            bounces: self.render_settings.bounces,
            tile_size: match self.render_settings.tile_size {
                WTileSize::Full => TileSize::Full,
                WTileSize::Tile { size } => TileSize::Tile(size),
            },
        }
    }

    /// Reads the camera settings off the description.
    pub fn get_camera_config(&self) -> (config: CameraConfig)
        ensures
            config == self.camera_config(),
    {
        CameraConfig {
            look_from: self.camera.look_from,
            look_at: self.camera.look_at,
            v_up: self.camera.v_up,
            v_fov: self.camera.v_fov,
            dof_angle: self.camera.dof_angle,
            dof_distance: self.camera.dof_distance,
        }
    }

    /// The kernel's configuration for the description, given the geometry
    /// derived from its settings.
    pub fn get_kernel_config(&self, derived: &DerivedCamera) -> (res: Result<
        KernelConfig,
        ConfigError,
    >)
        ensures
            res == KernelConfig::outcome(
                self.render_config(),
                self.camera_config(),
                *derived,
            ),
    {
        let render_config = self.get_render_config();
        let camera_config = self.get_camera_config();
        KernelConfig::new(&render_config, &camera_config, derived)
    }
}

} // verus!
