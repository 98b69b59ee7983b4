use vstd::prelude::*;
use crate::error::ConfigError;
use crate::vector::{is_nan_bits, numbers_equal, Vec3};

verus! {

/// Byte length of a tightly packed RGBA8 image of the given dimensions.
pub open spec fn image_bytes(width: int, height: int) -> int {
    width * height * 4
}

/// How the image is cut into dispatch units.
#[derive(Clone, Copy, Debug, PartialEq, Eq, Structural)]
pub enum TileSize {
    /// One dispatch covers the whole image.
    Full,
    /// Square tiles with the given edge in pixels; tiles at the far edges are clipped.
    Tile(u32),
}

/// What the caller asks of one render.
#[derive(Clone, Copy, Debug, PartialEq, Eq, Structural)]
pub struct RenderConfig {
    pub width: u32,
    pub height: u32,
    pub samples: u32,
    pub bounces: u32,
    pub tile_size: TileSize,
}

impl RenderConfig {
    /// The settings a render can start from: a non-empty image, a positive
    /// tile edge, a row of pixels whose byte length fits into 32 bits, and a
    /// pixel buffer whose length fits into `usize`.
    pub open spec fn wf(&self) -> bool {
        &&& self.width > 0
        &&& self.height > 0
        &&& (self.tile_size matches TileSize::Tile(size) ==> size > 0)
        &&& self.width * 4 <= u32::MAX
        &&& image_bytes(self.width as int, self.height as int) <= usize::MAX
    }

    /// The fault that `validate` reports, if there is one.
    pub open spec fn fault(&self) -> Option<ConfigError> {
        if self.width == 0 || self.height == 0 {
            Some(ConfigError::EmptyImage)
        } else if self.tile_size == TileSize::Tile(0) {
            Some(ConfigError::ZeroTileSize)
        } else if self.width * 4 > u32::MAX || image_bytes(
            self.width as int,
            self.height as int,
        ) > usize::MAX {
            Some(ConfigError::ImageTooLarge)
        } else {
            None
        }
    }

    /// Checks the settings before a render starts.
    pub fn validate(&self) -> (res: Result<(), ConfigError>)
        ensures
            res.is_ok() <==> self.wf(),
            res == match self.fault() {
                Some(e) => Err::<(), ConfigError>(e),
                None => Ok::<(), ConfigError>(()),
            },
    {
        if self.width == 0 || self.height == 0 {
            return Err(ConfigError::EmptyImage);
        }
        match self.tile_size {
            TileSize::Tile(size) => {
                if size == 0 {
                    return Err(ConfigError::ZeroTileSize);
                }
            },
            TileSize::Full => {},
        }
        let w: u128 = self.width as u128;
        let h: u128 = self.height as u128;
        assert(w * h <= 0xFFFF_FFFF * 0xFFFF_FFFF) by (nonlinear_arith)
            requires
                0 <= w <= 0xFFFF_FFFF,
                0 <= h <= 0xFFFF_FFFF,
        ;
        if self.width > u32::MAX / 4 || w * h * 4 > usize::MAX as u128 {
            return Err(ConfigError::ImageTooLarge);
        }
        Ok(())
    }
}

/// The image block of the kernel's configuration.
#[derive(Clone, Copy, Debug, PartialEq, Eq, Structural)]
pub struct Image {
    pub width: u32,
    pub height: u32,
    pub samples: u32,
    pub bounces: u32,
}

impl Image {
    /// The image block that the given settings describe.
    pub fn new(render_config: &RenderConfig) -> (image: Image)
        ensures
            image == (Image {
                width: render_config.width,
                height: render_config.height,
                samples: render_config.samples,
                bounces: render_config.bounces,
            }),
    {
        Image {
            width: render_config.width,
            height: render_config.height,
            samples: render_config.samples,
            bounces: render_config.bounces,
        }
    }

    /// Byte length of the finished pixel buffer: four bytes per pixel, rows tightly packed.
    pub fn result_size(&self) -> (size: u64)
        requires
            image_bytes(self.width as int, self.height as int) <= u64::MAX,
        ensures
            size == image_bytes(self.width as int, self.height as int),
    {
        let w: u64 = self.width as u64;
        let h: u64 = self.height as u64;
        assert(w * h <= w * h * 4) by (nonlinear_arith)
            requires
                0 <= w,
                0 <= h,
        ;
        w * h * 4
    }
}

/// What the caller says of the camera. Numbers are held as bit patterns.
#[derive(Clone, Copy, Debug, PartialEq, Eq, Structural)]
pub struct CameraConfig {
    pub look_from: Vec3,
    pub look_at: Vec3,
    pub v_up: Vec3,
    /// Vertical field of view, in degrees.
    pub v_fov: u32,
    /// Angle of the defocus cone, in degrees.
    pub dof_angle: u32,
    /// Distance from the camera to the plane in focus.
    pub dof_distance: u32,
}

impl CameraConfig {
    /// Whether the camera looks from the very point it looks at, so that it
    /// has no direction.
    pub open spec fn degenerate(&self) -> bool {
        self.look_from.same_point(&self.look_at)
    }

    /// Tells whether the camera has no direction.
    pub fn is_degenerate(&self) -> (degenerate: bool)
        ensures
            degenerate == self.degenerate(),
    {
        self.look_from.is_same_point(&self.look_at)
    }
}

/// The geometry that follows from the settings of image and camera: the
/// camera's frame, the viewport, and the defocus disk.
#[derive(Clone, Copy, Debug, PartialEq, Eq, Structural)]
pub struct DerivedCamera {
    /// The camera's frame: `u` to the right, `v` up, `w` against the view.
    pub u: Vec3,
    pub v: Vec3,
    pub w: Vec3,
    pub viewport_width: u32,
    pub viewport_height: u32,
    /// The viewport's edges: `viewport_u` across, `viewport_v` down.
    pub viewport_u: Vec3,
    pub viewport_v: Vec3,
    /// The steps from one pixel to the next, across and down.
    pub delta_u: Vec3,
    pub delta_v: Vec3,
    /// The viewport's upper left corner.
    pub upper_left: Vec3,
    /// The centre of the first pixel.
    pub pixel_zero: Vec3,
    pub defocus_disk_u: Vec3,
    pub defocus_disk_v: Vec3,
}

/// Whether one of the three numbers is a NaN.
pub open spec fn vec_has_nan(v: Vec3) -> bool {
    is_nan_bits(v.x) || is_nan_bits(v.y) || is_nan_bits(v.z)
}

/// Tells whether one of the three numbers is a NaN.
fn has_nan(v: &Vec3) -> (nan: bool)
    ensures
        nan == vec_has_nan(*v),
{
    !numbers_equal(v.x, v.x) || !numbers_equal(v.y, v.y) || !numbers_equal(v.z, v.z)
}

impl DerivedCamera {
    /// Whether one of the numbers of the geometry is a NaN. That is what
    /// comes of a camera without direction, or of one whose up vector runs
    /// along its view.
    pub open spec fn undefined(&self) -> bool {
        ||| vec_has_nan(self.u)
        ||| vec_has_nan(self.v)
        ||| vec_has_nan(self.w)
        ||| is_nan_bits(self.viewport_width)
        ||| is_nan_bits(self.viewport_height)
        ||| vec_has_nan(self.viewport_u)
        ||| vec_has_nan(self.viewport_v)
        ||| vec_has_nan(self.delta_u)
        ||| vec_has_nan(self.delta_v)
        ||| vec_has_nan(self.upper_left)
        ||| vec_has_nan(self.pixel_zero)
        ||| vec_has_nan(self.defocus_disk_u)
        ||| vec_has_nan(self.defocus_disk_v)
    }

    /// Tells whether one of the numbers of the geometry is a NaN.
    pub fn is_undefined(&self) -> (undefined: bool)
        ensures
            undefined == self.undefined(),
    {
        has_nan(&self.u) || has_nan(&self.v) || has_nan(&self.w) || !numbers_equal(
            self.viewport_width,
            self.viewport_width,
        ) || !numbers_equal(self.viewport_height, self.viewport_height) || has_nan(
            &self.viewport_u,
        ) || has_nan(&self.viewport_v) || has_nan(&self.delta_u) || has_nan(&self.delta_v)
            || has_nan(&self.upper_left) || has_nan(&self.pixel_zero) || has_nan(
            &self.defocus_disk_u,
        ) || has_nan(&self.defocus_disk_v)
    }
}

/// The camera block of the kernel's configuration.
#[derive(Clone, Copy, Debug, PartialEq, Eq, Structural)]
pub struct Camera {
    pub center: Vec3,
    pub dof_angle: u32,
    pub dof_disk_u: Vec3,
    pub dof_disk_v: Vec3,
}

/// The viewport block of the kernel's configuration.
#[derive(Clone, Copy, Debug, PartialEq, Eq, Structural)]
pub struct Viewport {
    pub width: u32,
    pub height: u32,
    /// The edge across.
    pub u: Vec3,
    /// The edge down.
    pub v: Vec3,
    pub delta_u: Vec3,
    pub delta_v: Vec3,
    pub upper_left: Vec3,
}

/// The configuration that the kernel reads, block by block in this order.
#[derive(Clone, Copy, Debug, PartialEq, Eq, Structural)]
pub struct KernelConfig {
    pub image: Image,
    pub camera: Camera,
    pub viewport: Viewport,
    pub pixel_zero_loc: Vec3,
}

impl KernelConfig {
    /// The configuration that `new` puts together from valid settings.
    pub open spec fn assembled(
        render_config: RenderConfig,
        camera_config: CameraConfig,
        derived: DerivedCamera,
    ) -> KernelConfig {
        KernelConfig {
            image: Image {
                width: render_config.width,
                height: render_config.height,
                samples: render_config.samples,
                bounces: render_config.bounces,
            },
            camera: Camera {
                center: camera_config.look_from,
                dof_angle: camera_config.dof_angle,
                dof_disk_u: derived.defocus_disk_u,
                dof_disk_v: derived.defocus_disk_v,
            },
            viewport: Viewport {
                width: derived.viewport_width,
                height: derived.viewport_height,
                u: derived.viewport_u,
                v: derived.viewport_v,
                delta_u: derived.delta_u,
                delta_v: derived.delta_v,
                upper_left: derived.upper_left,
            },
            pixel_zero_loc: derived.pixel_zero,
        }
    }

    /// The fault that `new` reports, if there is one: that of the render
    /// settings first, then a camera without defined geometry.
    pub open spec fn fault(
        render_config: RenderConfig,
        camera_config: CameraConfig,
        derived: DerivedCamera,
    ) -> Option<ConfigError> {
        match render_config.fault() {
            Some(e) => Some(e),
            None => if camera_config.degenerate() || derived.undefined() {
                Some(ConfigError::DegenerateCamera)
            } else {
                None
            },
        }
    }

    /// What `new` returns: the fault if there is one, else the configuration.
    pub open spec fn outcome(
        render_config: RenderConfig,
        camera_config: CameraConfig,
        derived: DerivedCamera,
    ) -> Result<KernelConfig, ConfigError> {
        match Self::fault(render_config, camera_config, derived) {
            Some(e) => Err(e),
            None => Ok(Self::assembled(render_config, camera_config, derived)),
        }
    }

    /// Puts the kernel's configuration together from the settings and the
    /// geometry derived from them, or names the fault in them.
    pub fn new(
        render_config: &RenderConfig,
        camera_config: &CameraConfig,
        derived: &DerivedCamera,
    ) -> (res: Result<KernelConfig, ConfigError>)
        ensures
            res == Self::outcome(*render_config, *camera_config, *derived),
            res.is_ok() ==> render_config.wf(),
    {
        match render_config.validate() {
            Err(e) => {
                return Err(e);
            },
            Ok(()) => {},
        }
        if camera_config.is_degenerate() || derived.is_undefined() {
            return Err(ConfigError::DegenerateCamera);
        }
        Ok(
            KernelConfig {
                image: Image::new(render_config),
                camera: Camera {
                    center: camera_config.look_from,
                    dof_angle: camera_config.dof_angle,
                    dof_disk_u: derived.defocus_disk_u,
                    dof_disk_v: derived.defocus_disk_v,
                },
                viewport: Viewport {
                    width: derived.viewport_width,
                    height: derived.viewport_height,
                    u: derived.viewport_u,
                    v: derived.viewport_v,
                    delta_u: derived.delta_u,
                    delta_v: derived.delta_v,
                    upper_left: derived.upper_left,
                },
                pixel_zero_loc: derived.pixel_zero,
            },
        )
    }

    /// Byte length of the finished pixel buffer.
    pub fn result_size(&self) -> (size: u64)
        requires
            image_bytes(self.image.width as int, self.image.height as int) <= u64::MAX,
        ensures
            size == image_bytes(self.image.width as int, self.image.height as int),
    {
        self.image.result_size()
    }
}

} // verus!
