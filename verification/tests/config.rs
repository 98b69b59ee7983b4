use webray::config::{
    Camera, CameraConfig, DerivedCamera, Image, KernelConfig, RenderConfig, TileSize, Viewport,
};
use webray::error::ConfigError;
use webray::vector::{numbers_equal, Vec3};

fn vec3(x: f32, y: f32, z: f32) -> Vec3 {
    Vec3::new(x.to_bits(), y.to_bits(), z.to_bits())
}

fn render_config() -> RenderConfig {
    RenderConfig { width: 64, height: 48, samples: 16, bounces: 8, tile_size: TileSize::Tile(16) }
}

fn camera_config() -> CameraConfig {
    CameraConfig {
        look_from: vec3(13.0, 2.0, 3.0),
        look_at: vec3(0.0, 0.0, 0.0),
        v_up: vec3(0.0, 1.0, 0.0),
        v_fov: 20.0f32.to_bits(),
        dof_angle: 0.6f32.to_bits(),
        dof_distance: 10.0f32.to_bits(),
    }
}

fn derived() -> DerivedCamera {
    DerivedCamera {
        u: vec3(1.0, 0.0, 0.0),
        v: vec3(0.0, 1.0, 0.0),
        w: vec3(0.0, 0.0, 1.0),
        viewport_width: 4.0f32.to_bits(),
        viewport_height: 3.0f32.to_bits(),
        viewport_u: vec3(4.0, 0.0, 0.0),
        viewport_v: vec3(0.0, -3.0, 0.0),
        delta_u: vec3(0.0625, 0.0, 0.0),
        delta_v: vec3(0.0, -0.0625, 0.0),
        upper_left: vec3(-2.0, 1.5, -10.0),
        pixel_zero: vec3(-1.96875, 1.46875, -10.0),
        defocus_disk_u: vec3(0.05, 0.0, 0.0),
        defocus_disk_v: vec3(0.0, 0.05, 0.0),
    }
}

#[test]
fn valid_settings_pass() {
    assert_eq!(render_config().validate(), Ok(()));
    let full = RenderConfig { tile_size: TileSize::Full, ..render_config() };
    assert_eq!(full.validate(), Ok(()));
    let one = RenderConfig { width: 1, height: 1, ..render_config() };
    assert_eq!(one.validate(), Ok(()));
}

#[test]
fn each_fault_of_the_settings_is_named() {
    let empty = RenderConfig { width: 0, ..render_config() };
    assert_eq!(empty.validate(), Err(ConfigError::EmptyImage));
    let flat = RenderConfig { height: 0, ..render_config() };
    assert_eq!(flat.validate(), Err(ConfigError::EmptyImage));
    let no_tile = RenderConfig { tile_size: TileSize::Tile(0), ..render_config() };
    assert_eq!(no_tile.validate(), Err(ConfigError::ZeroTileSize));
    let wide = RenderConfig { width: 1 << 30, height: 1, ..render_config() };
    assert_eq!(wide.validate(), Err(ConfigError::ImageTooLarge));
    let widest = RenderConfig { width: (1 << 30) - 1, height: 1, ..render_config() };
    assert_eq!(widest.validate(), Ok(()));
}

#[test]
fn result_size_is_four_bytes_per_pixel() {
    assert_eq!(Image::new(&render_config()).result_size(), 64 * 48 * 4);
    let image = Image { width: 1920, height: 1080, samples: 1, bounces: 1 };
    assert_eq!(image.result_size(), 8_294_400);
    let huge = Image { width: 65536, height: 65536, samples: 1, bounces: 1 };
    assert_eq!(huge.result_size(), 17_179_869_184);
    let config = KernelConfig::new(&render_config(), &camera_config(), &derived()).unwrap();
    assert_eq!(config.result_size(), 12288);
}

#[test]
fn kernel_config_is_put_together_block_by_block() {
    let config = KernelConfig::new(&render_config(), &camera_config(), &derived()).unwrap();
    assert_eq!(config.image, Image { width: 64, height: 48, samples: 16, bounces: 8 });
    assert_eq!(
        config.camera,
        Camera {
            center: vec3(13.0, 2.0, 3.0),
            dof_angle: 0.6f32.to_bits(),
            dof_disk_u: vec3(0.05, 0.0, 0.0),
            dof_disk_v: vec3(0.0, 0.05, 0.0),
        }
    );
    assert_eq!(
        config.viewport,
        Viewport {
            width: 4.0f32.to_bits(),
            height: 3.0f32.to_bits(),
            u: vec3(4.0, 0.0, 0.0),
            v: vec3(0.0, -3.0, 0.0),
            delta_u: vec3(0.0625, 0.0, 0.0),
            delta_v: vec3(0.0, -0.0625, 0.0),
            upper_left: vec3(-2.0, 1.5, -10.0),
        }
    );
    assert_eq!(config.pixel_zero_loc, vec3(-1.96875, 1.46875, -10.0));
}

#[test]
fn camera_without_direction_is_reported() {
    let mut camera = camera_config();
    camera.look_at = camera.look_from;
    assert!(camera.is_degenerate());
    assert_eq!(
        KernelConfig::new(&render_config(), &camera, &derived()),
        Err(ConfigError::DegenerateCamera)
    );
    let zeros = CameraConfig {
        look_from: vec3(0.0, -0.0, 0.0),
        look_at: vec3(-0.0, 0.0, 0.0),
        ..camera_config()
    };
    assert!(zeros.is_degenerate());
    assert!(!camera_config().is_degenerate());
    let nan = CameraConfig {
        look_from: vec3(f32::NAN, 0.0, 0.0),
        look_at: vec3(f32::NAN, 0.0, 0.0),
        ..camera_config()
    };
    assert!(!nan.is_degenerate());
}

#[test]
fn undefined_geometry_is_reported() {
    assert!(!derived().is_undefined());
    let mut d = derived();
    d.u = vec3(f32::NAN, 0.0, 0.0);
    assert!(d.is_undefined());
    assert_eq!(
        KernelConfig::new(&render_config(), &camera_config(), &d),
        Err(ConfigError::DegenerateCamera)
    );
    let mut d = derived();
    d.viewport_height = f32::NAN.to_bits();
    assert!(d.is_undefined());
    let mut d = derived();
    d.defocus_disk_v = vec3(0.0, 0.0, -f32::NAN);
    assert!(d.is_undefined());
    let mut d = derived();
    d.upper_left = vec3(f32::INFINITY, f32::NEG_INFINITY, 0.0);
    assert!(!d.is_undefined());
}

#[test]
fn fault_of_the_settings_comes_before_that_of_the_camera() {
    let mut camera = camera_config();
    camera.look_at = camera.look_from;
    let empty = RenderConfig { width: 0, ..render_config() };
    assert_eq!(KernelConfig::new(&empty, &camera, &derived()), Err(ConfigError::EmptyImage));
}

#[test]
fn numbers_compare_as_numbers() {
    for (a, b) in [
        (1.5f32, 1.5f32),
        (0.0, -0.0),
        (-0.0, 0.0),
        (1.0, 2.0),
        (f32::NAN, f32::NAN),
        (f32::NAN, 1.0),
        (f32::INFINITY, f32::INFINITY),
        (f32::INFINITY, f32::NEG_INFINITY),
        (f32::MIN_POSITIVE, 0.0),
        (-1.0, 1.0),
    ] {
        assert_eq!(numbers_equal(a.to_bits(), b.to_bits()), a == b);
    }
    let a = vec3(1.0, 0.0, -2.0);
    assert!(a.is_same_point(&vec3(1.0, -0.0, -2.0)));
    assert!(!a.is_same_point(&vec3(1.0, 0.0, 2.0)));
}
