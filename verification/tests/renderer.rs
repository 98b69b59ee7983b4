use webray::bindings::{execution_bind_group, system_bind_group, user_bind_group};
use webray::buffers::{BufferInit, KernelBuffers};
use webray::config::{CameraConfig, DerivedCamera, RenderConfig, TileSize};
use webray::error::{ConfigError, RenderError};
use webray::kernel::{Action, Event, Phase};
use webray::renderer::{prepare, prepare_described};
use webray::scene::{Material, Scene, Shape};
use webray::tiles::Tile;
use webray::vector::Vec3;
use webray::wscene::{
    WCamera, WMaterial, WMaterialType, WObject, WObjectType, WRenderSettings, WScene, WTileSize,
};

fn vec3(x: f32, y: f32, z: f32) -> Vec3 {
    Vec3::new(x.to_bits(), y.to_bits(), z.to_bits())
}

fn settings() -> RenderConfig {
    RenderConfig { width: 64, height: 64, samples: 16, bounces: 8, tile_size: TileSize::Full }
}

fn camera() -> CameraConfig {
    CameraConfig {
        look_from: vec3(0.0, 0.0, 1.0),
        look_at: vec3(0.0, 0.0, -1.0),
        v_up: vec3(0.0, 1.0, 0.0),
        v_fov: 90.0f32.to_bits(),
        dof_angle: 0.0f32.to_bits(),
        dof_distance: 1.0f32.to_bits(),
    }
}

fn derived() -> DerivedCamera {
    DerivedCamera {
        u: vec3(1.0, 0.0, 0.0),
        v: vec3(0.0, 1.0, 0.0),
        w: vec3(0.0, 0.0, 1.0),
        viewport_width: 2.0f32.to_bits(),
        viewport_height: 2.0f32.to_bits(),
        viewport_u: vec3(2.0, 0.0, 0.0),
        viewport_v: vec3(0.0, -2.0, 0.0),
        delta_u: vec3(0.03125, 0.0, 0.0),
        delta_v: vec3(0.0, -0.03125, 0.0),
        upper_left: vec3(-1.0, 1.0, 0.0),
        pixel_zero: vec3(-0.984375, 0.984375, 0.0),
        defocus_disk_u: vec3(0.0, 0.0, 0.0),
        defocus_disk_v: vec3(0.0, 0.0, 0.0),
    }
}

/// A ground sphere of radius 100 and a metal sphere of radius 0.5.
fn two_spheres() -> Scene {
    let mut scene = Scene::new();
    let ground = scene.register_material(Material::Diffuse(vec3(0.5, 0.5, 0.5)));
    let metal = scene.register_material(Material::Metal(vec3(0.8, 0.6, 0.2), 0.1f32.to_bits()));
    scene.register_shape(Shape::Sphere(vec3(0.0, -100.5, -1.0), 100.0f32.to_bits(), ground));
    scene.register_shape(Shape::Sphere(vec3(0.0, 0.0, -1.0), 0.5f32.to_bits(), metal));
    scene
}

#[test]
fn plan_of_two_spheres_renders_to_16384_bytes() {
    let plan = prepare(&settings(), &camera(), &derived(), &two_spheres()).unwrap();
    assert_eq!((plan.config.image.width, plan.config.image.height), (64, 64));
    assert_eq!(plan.config.result_size(), 16384);
    assert_eq!(plan.scene.spheres().len(), 2);
    assert_eq!(plan.scene.diffuse_mats().len(), 1);
    assert_eq!(plan.scene.metal_mats().len(), 1);
    assert_eq!(plan.scene.dielectric_mats().len(), 0);
    assert_eq!(plan.buffers, KernelBuffers::new(&plan.config.image));
    assert_eq!(plan.buffers.result.init, BufferInit::Sized(16384));
    assert_eq!(plan.bindings.system_binding, Some(system_bind_group()));
    assert_eq!(plan.bindings.user_binding, Some(user_bind_group()));
    assert_eq!(plan.bindings.execution_binding, Some(execution_bind_group()));

    let mut kernel = plan.kernel;
    assert_eq!(kernel.current_phase(), Phase::Dispatch { x: 0, y: 0 });
    assert_eq!(
        kernel.pending(),
        Action::DispatchTile(Tile { x: 0, y: 0, width: 64, height: 64 })
    );
    kernel.advance(Event::Submitted(0));
    kernel.advance(Event::Completed(0));
    kernel.advance(Event::Submitted(1));
    kernel.advance(Event::MapRequested);
    kernel.advance(Event::Completed(1));
    assert_eq!(kernel.pending(), Action::AwaitMap { len: 16384 });
    kernel.advance(Event::Mapped((0..16384).map(|i| (i % 251) as u8).collect()));
    kernel.advance(Event::Unmapped);
    let pixels = kernel.into_result().unwrap().unwrap();
    assert_eq!(pixels.len(), 16384);
    assert_eq!(pixels[300], 49);
}

#[test]
fn fault_of_the_configuration_stops_the_plan() {
    let empty = RenderConfig { width: 0, ..settings() };
    assert_eq!(
        prepare(&empty, &camera(), &derived(), &two_spheres()).err(),
        Some(RenderError::Configuration(ConfigError::EmptyImage))
    );
    let mut nowhere = camera();
    nowhere.look_at = nowhere.look_from;
    assert_eq!(
        prepare(&settings(), &nowhere, &derived(), &two_spheres()).err(),
        Some(RenderError::Configuration(ConfigError::DegenerateCamera))
    );
}

#[test]
fn fault_of_the_scene_stops_the_plan() {
    let mut scene = two_spheres();
    scene.register_shape(Shape::Sphere(vec3(0.0, 0.0, 0.0), 1.0f32.to_bits(), 2));
    assert_eq!(
        prepare(&settings(), &camera(), &derived(), &scene).err(),
        Some(RenderError::Configuration(ConfigError::UnknownMaterial { shape: 2, material: 2 }))
    );
    let empty = RenderConfig { height: 0, ..settings() };
    assert_eq!(
        prepare(&empty, &camera(), &derived(), &scene).err(),
        Some(RenderError::Configuration(ConfigError::EmptyImage))
    );
}

fn described() -> WScene {
    WScene {
        objects: vec![
            WObject {
                id: 0,
                name: "ground".to_string(),
                material_id: 0,
                obj_type: WObjectType::Sphere {
                    position: vec3(0.0, -100.5, -1.0),
                    radius: 100.0f32.to_bits(),
                },
            },
            WObject {
                id: 1,
                name: "ball".to_string(),
                material_id: 1,
                obj_type: WObjectType::Sphere {
                    position: vec3(0.0, 0.0, -1.0),
                    radius: 0.5f32.to_bits(),
                },
            },
        ],
        materials: vec![
            WMaterial {
                id: 1,
                name: "grey".to_string(),
                mat_type: WMaterialType::Diffuse { color: "#808080".to_string() },
            },
            WMaterial {
                id: 2,
                name: "gold".to_string(),
                mat_type: WMaterialType::Metal {
                    color: "#fc3".to_string(),
                    roughness: 0.1f32.to_bits(),
                },
            },
        ],
        camera: WCamera {
            look_from: vec3(0.0, 0.0, 1.0),
            look_at: vec3(0.0, 0.0, -1.0),
            v_up: vec3(0.0, 1.0, 0.0),
            v_fov: 90.0f32.to_bits(),
            dof_angle: 0.0f32.to_bits(),
            dof_distance: 1.0f32.to_bits(),
        },
        render_settings: WRenderSettings {
            width: 128,
            height: 64,
            samples: 4,
            bounces: 4,
            tile_size: WTileSize::Tile { size: 64 },
        },
    }
}

#[test]
fn plan_of_a_described_scene() {
    let plan = prepare_described(&described(), &derived()).unwrap();
    assert_eq!(plan.config.result_size(), 32768);
    assert_eq!(plan.scene, described().get_kernel_scene().unwrap());
    assert_eq!(plan.buffers.result.init, BufferInit::Sized(32768));
    assert_eq!(
        plan.kernel.settings(),
        RenderConfig { width: 128, height: 64, samples: 4, bounces: 4, tile_size: TileSize::Tile(64) }
    );
    assert_eq!(
        plan.kernel.pending(),
        Action::DispatchTile(Tile { x: 0, y: 0, width: 64, height: 64 })
    );
}

#[test]
fn faults_of_a_described_scene() {
    let mut scene = described();
    scene.render_settings.tile_size = WTileSize::Tile { size: 0 };
    scene.objects[0].material_id = 9;
    assert_eq!(
        prepare_described(&scene, &derived()).err(),
        Some(RenderError::Configuration(ConfigError::ZeroTileSize))
    );
    let mut scene = described();
    scene.objects[1].material_id = 9;
    assert_eq!(
        prepare_described(&scene, &derived()).err(),
        Some(RenderError::Configuration(ConfigError::UnknownMaterial { shape: 1, material: 9 }))
    );
    let mut scene = described();
    scene.materials[0].mat_type = WMaterialType::Diffuse { color: "grey".to_string() };
    scene.objects[1].material_id = 9;
    assert_eq!(
        prepare_described(&scene, &derived()).err(),
        Some(RenderError::Configuration(ConfigError::InvalidColor { material: 0 }))
    );
    let mut nan = derived();
    nan.w = vec3(f32::NAN, f32::NAN, f32::NAN);
    assert_eq!(
        prepare_described(&described(), &nan).err(),
        Some(RenderError::Configuration(ConfigError::DegenerateCamera))
    );
}
