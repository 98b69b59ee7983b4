use vstd::prelude::*;
use crate::config::{image_bytes, Image};
use crate::tiles::Tile;
use crate::vector::UVec2;

verus! {

/// Byte length of the execution context: two 32-bit numbers.
pub const EXECUTION_CONTEXT_SIZE: u64 = 8;

/// What a buffer may be used for.
#[derive(Clone, Copy, Debug, PartialEq, Eq, Structural)]
pub struct BufferUsage {
    /// The host may map the buffer and read it.
    pub map_read: bool,
    /// The buffer may be the target of a copy or of a write from the host.
    pub copy_dst: bool,
    /// The buffer may be bound as a uniform.
    pub uniform: bool,
    /// The buffer may be bound as storage.
    pub storage: bool,
}

/// What a texture may be used for.
#[derive(Clone, Copy, Debug, PartialEq, Eq, Structural)]
pub struct TextureUsage {
    /// The kernel may write the texture as a storage texture.
    pub storage_binding: bool,
    /// The texture may be the source of a copy.
    pub copy_src: bool,
}

/// The format of the texels of a texture.
#[derive(Clone, Copy, Debug, PartialEq, Eq, Structural)]
pub enum TextureFormat {
    /// Four channels of eight bits each, read as fractions of one.
    Rgba8Unorm,
}

/// A block of data that the host lays out for the kernel.
#[derive(Clone, Copy, Debug, PartialEq, Eq, Structural)]
pub enum Block {
    Config,
    Spheres,
    DiffuseMats,
    MetalMats,
    DielectricMats,
}

/// What a buffer holds when it is made.
#[derive(Clone, Copy, Debug, PartialEq, Eq, Structural)]
pub enum BufferInit {
    /// So many bytes, which the host does not fill.
    Sized(u64),
    /// The bytes of the block, written as the buffer is made; the buffer is
    /// as long as they are.
    Filled(Block),
}

/// How a buffer is to be made.
#[derive(Clone, Copy, Debug, PartialEq, Eq, Structural)]
pub struct BufferPlan {
    pub init: BufferInit,
    pub usage: BufferUsage,
}

/// How a two-dimensional texture with one mip level and one sample per
/// texel is to be made.
#[derive(Clone, Copy, Debug, PartialEq, Eq, Structural)]
pub struct TexturePlan {
    pub width: u32,
    pub height: u32,
    pub format: TextureFormat,
    pub usage: TextureUsage,
}

/// The resources of one render.
#[derive(Clone, Copy, Debug, PartialEq, Eq, Structural)]
pub struct KernelBuffers {
    /// Receives the copy of the render texture, to be mapped and read.
    pub result: BufferPlan,
    /// The storage texture that the kernel writes the image to.
    pub render: TexturePlan,
    pub config: BufferPlan,
    pub spheres: BufferPlan,
    pub diffuse_mats: BufferPlan,
    pub metal_mats: BufferPlan,
    pub dielectric_mats: BufferPlan,
    /// Rewritten before each dispatch with the origin of the tile.
    pub execution_context: BufferPlan,
}

/// The usage of a buffer that serves none.
pub open spec fn no_usage() -> BufferUsage {
    BufferUsage { map_read: false, copy_dst: false, uniform: false, storage: false }
}

/// A buffer that is made from a block and read by the kernel as storage.
pub open spec fn storage_plan(block: Block) -> BufferPlan {
    BufferPlan { init: BufferInit::Filled(block), usage: BufferUsage { storage: true, ..no_usage() } }
}

impl KernelBuffers {
    /// The resources that a render of the given image needs.
    pub open spec fn planned(image: Image) -> KernelBuffers {
        KernelBuffers {
            result: BufferPlan {
                init: BufferInit::Sized(
                    image_bytes(image.width as int, image.height as int) as u64,
                ),
                usage: BufferUsage { map_read: true, copy_dst: true, ..no_usage() },
            },
            render: TexturePlan {
                width: image.width,
                height: image.height,
                format: TextureFormat::Rgba8Unorm,
                usage: TextureUsage { storage_binding: true, copy_src: true },
            },
            config: BufferPlan {
                init: BufferInit::Filled(Block::Config),
                usage: BufferUsage { uniform: true, ..no_usage() },
            },
            spheres: storage_plan(Block::Spheres),
            diffuse_mats: storage_plan(Block::DiffuseMats),
            metal_mats: storage_plan(Block::MetalMats),
            dielectric_mats: storage_plan(Block::DielectricMats),
            execution_context: BufferPlan {
                init: BufferInit::Sized(EXECUTION_CONTEXT_SIZE),
                usage: BufferUsage { uniform: true, copy_dst: true, ..no_usage() },
            },
        }
    }

    /// Plans the resources of one render: the result buffer of four bytes
    /// per pixel, the render texture of the image's size, one buffer for
    /// each block, and the execution context.
    pub fn new(image: &Image) -> (buffers: KernelBuffers)
        requires
            image_bytes(image.width as int, image.height as int) <= u64::MAX,
        ensures
            buffers == Self::planned(*image),
            buffers.result.init == BufferInit::Sized(
                image_bytes(image.width as int, image.height as int) as u64,
            ),
    {
        let none = BufferUsage { map_read: false, copy_dst: false, uniform: false, storage: false };
        let storage = BufferUsage { storage: true, ..none };
        KernelBuffers {
            result: BufferPlan {
                init: BufferInit::Sized(image.result_size()),
                usage: BufferUsage { map_read: true, copy_dst: true, ..none },
            },
            render: TexturePlan {
                width: image.width,
                height: image.height,
                format: TextureFormat::Rgba8Unorm,
                usage: TextureUsage { storage_binding: true, copy_src: true },
            },
            config: BufferPlan {
                init: BufferInit::Filled(Block::Config),
                usage: BufferUsage { uniform: true, ..none },
            },
            spheres: BufferPlan { init: BufferInit::Filled(Block::Spheres), usage: storage },
            diffuse_mats: BufferPlan { init: BufferInit::Filled(Block::DiffuseMats), usage: storage },
            metal_mats: BufferPlan { init: BufferInit::Filled(Block::MetalMats), usage: storage },
            dielectric_mats: BufferPlan {
                init: BufferInit::Filled(Block::DielectricMats),
                usage: storage,
            },
            execution_context: BufferPlan {
                init: BufferInit::Sized(EXECUTION_CONTEXT_SIZE),
                usage: BufferUsage { uniform: true, copy_dst: true, ..none },
            },
        }
    }
}

/// The four bytes of a 32-bit number, the lowest first.
pub open spec fn le_bytes(x: u32) -> Seq<u8> {
    seq![
        (x % 256) as u8,
        ((x / 256) % 256) as u8,
        ((x / 65536) % 256) as u8,
        (x / 16777216) as u8,
    ]
}

/// What the kernel is told about the dispatch it runs in.
#[derive(Clone, Copy, Debug, PartialEq, Eq, Structural)]
pub struct ExecutionContext {
    /// Column and row of the first pixel of the tile.
    pub tile_position: UVec2,
}

impl ExecutionContext {
    /// The execution context of a tile: the tile's origin.
    pub fn new(tile: &Tile) -> (context: ExecutionContext)
        ensures
            context.tile_position == (UVec2 { x: tile.x, y: tile.y }),
    {
        ExecutionContext { tile_position: UVec2 { x: tile.x, y: tile.y } }
    }

    /// The bytes that the kernel reads: column, then row, each as four
    /// bytes, the lowest first.
    pub open spec fn wgsl_bytes(&self) -> Seq<u8> {
        le_bytes(self.tile_position.x) + le_bytes(self.tile_position.y)
    }

    /// Lays the execution context out for the kernel.
    pub fn as_wgsl_bytes(&self) -> (bytes: Vec<u8>)
        ensures
            bytes@ == self.wgsl_bytes(),
            bytes@.len() == EXECUTION_CONTEXT_SIZE,
    {
        let x = self.tile_position.x;
        let y = self.tile_position.y;
        let mut bytes: Vec<u8> = Vec::new();
        bytes.push((x % 256) as u8);
        bytes.push(((x / 256) % 256) as u8);
        bytes.push(((x / 65536) % 256) as u8);
        bytes.push((x / 16777216) as u8);
        bytes.push((y % 256) as u8);
        bytes.push(((y / 256) % 256) as u8);
        bytes.push(((y / 65536) % 256) as u8);
        bytes.push((y / 16777216) as u8);
        assert(bytes@ =~= self.wgsl_bytes());
        bytes
    }
}

} // verus!
