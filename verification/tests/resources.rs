use webray::bindings::{
    execution_bind_group, execution_bind_group_layout, system_bind_group,
    system_bind_group_layout, user_bind_group, user_bind_group_layout, BindEntry, BindSet,
    BindingType, KernelBindings, LayoutEntry, Resource,
};
use webray::buffers::{
    Block, BufferInit, BufferPlan, BufferUsage, ExecutionContext, KernelBuffers, TextureFormat,
    TexturePlan, TextureUsage, EXECUTION_CONTEXT_SIZE,
};
use webray::config::Image;
use webray::tiles::Tile;
use webray::vector::UVec2;

const NONE: BufferUsage =
    BufferUsage { map_read: false, copy_dst: false, uniform: false, storage: false };

fn image(width: u32, height: u32) -> Image {
    Image { width, height, samples: 8, bounces: 4 }
}

#[test]
fn result_buffer_is_as_long_as_the_image() {
    for (w, h) in [(64u32, 64u32), (1920, 1080), (1, 1), (3, 1000), (65535, 65535)] {
        let buffers = KernelBuffers::new(&image(w, h));
        assert_eq!(
            buffers.result,
            BufferPlan {
                init: BufferInit::Sized(w as u64 * h as u64 * 4),
                usage: BufferUsage { map_read: true, copy_dst: true, ..NONE },
            }
        );
    }
    assert_eq!(KernelBuffers::new(&image(64, 64)).result.init, BufferInit::Sized(16384));
}

#[test]
fn resources_of_a_render() {
    let buffers = KernelBuffers::new(&image(320, 200));
    assert_eq!(
        buffers.render,
        TexturePlan {
            width: 320,
            height: 200,
            format: TextureFormat::Rgba8Unorm,
            usage: TextureUsage { storage_binding: true, copy_src: true },
        }
    );
    assert_eq!(
        buffers.config,
        BufferPlan {
            init: BufferInit::Filled(Block::Config),
            usage: BufferUsage { uniform: true, ..NONE },
        }
    );
    let storage = BufferUsage { storage: true, ..NONE };
    assert_eq!(
        buffers.spheres,
        BufferPlan { init: BufferInit::Filled(Block::Spheres), usage: storage }
    );
    assert_eq!(
        buffers.diffuse_mats,
        BufferPlan { init: BufferInit::Filled(Block::DiffuseMats), usage: storage }
    );
    assert_eq!(
        buffers.metal_mats,
        BufferPlan { init: BufferInit::Filled(Block::MetalMats), usage: storage }
    );
    assert_eq!(
        buffers.dielectric_mats,
        BufferPlan { init: BufferInit::Filled(Block::DielectricMats), usage: storage }
    );
    assert_eq!(
        buffers.execution_context,
        BufferPlan {
            init: BufferInit::Sized(8),
            usage: BufferUsage { uniform: true, copy_dst: true, ..NONE },
        }
    );
    assert_eq!(EXECUTION_CONTEXT_SIZE, 8);
}

#[test]
fn execution_context_is_the_origin_of_the_tile() {
    let tile = Tile { x: 0x0102_0304, y: 256, width: 16, height: 16 };
    let context = ExecutionContext::new(&tile);
    assert_eq!(context.tile_position, UVec2 { x: 0x0102_0304, y: 256 });
    assert_eq!(context.as_wgsl_bytes(), vec![4, 3, 2, 1, 0, 1, 0, 0]);
    let origin = ExecutionContext::new(&Tile { x: 0, y: 0, width: 1, height: 1 });
    assert_eq!(origin.as_wgsl_bytes(), vec![0u8; 8]);
    let last = ExecutionContext { tile_position: UVec2 { x: u32::MAX, y: u32::MAX - 1 } };
    assert_eq!(last.as_wgsl_bytes(), vec![255, 255, 255, 255, 254, 255, 255, 255]);
}

#[test]
fn execution_context_is_laid_out_as_encase_lays_out_a_pair() {
    for (x, y) in [(0u32, 0u32), (1, 2), (256, 65536), (1792, 1024), (u32::MAX, 0x8000_0001)] {
        let mut buffer = encase::UniformBuffer::new(Vec::new());
        buffer.write(&glam::uvec2(x, y)).unwrap();
        let expected: Vec<u8> = buffer.into_inner();
        let context = ExecutionContext { tile_position: UVec2 { x, y } };
        assert_eq!(context.as_wgsl_bytes(), expected);
    }
}

#[test]
fn layouts_of_the_three_sets() {
    assert_eq!(
        system_bind_group_layout(),
        vec![LayoutEntry { binding: 0, ty: BindingType::StorageTexture }]
    );
    assert_eq!(
        user_bind_group_layout(),
        vec![
            LayoutEntry { binding: 0, ty: BindingType::Uniform },
            LayoutEntry { binding: 1, ty: BindingType::ReadOnlyStorage },
            LayoutEntry { binding: 2, ty: BindingType::ReadOnlyStorage },
            LayoutEntry { binding: 3, ty: BindingType::ReadOnlyStorage },
            LayoutEntry { binding: 4, ty: BindingType::ReadOnlyStorage },
        ]
    );
    assert_eq!(
        execution_bind_group_layout(),
        vec![LayoutEntry { binding: 0, ty: BindingType::Uniform }]
    );
}

#[test]
fn resources_of_the_three_sets() {
    assert_eq!(system_bind_group(), vec![BindEntry { binding: 0, resource: Resource::Render }]);
    assert_eq!(
        user_bind_group(),
        vec![
            BindEntry { binding: 0, resource: Resource::Config },
            BindEntry { binding: 1, resource: Resource::Spheres },
            BindEntry { binding: 2, resource: Resource::DiffuseMats },
            BindEntry { binding: 3, resource: Resource::MetalMats },
            BindEntry { binding: 4, resource: Resource::DielectricMats },
        ]
    );
    assert_eq!(
        execution_bind_group(),
        vec![BindEntry { binding: 0, resource: Resource::ExecutionContext }]
    );
}

#[test]
fn bindings_start_unbound_and_bind_the_planned_resources() {
    let mut bindings = KernelBindings::new();
    assert_eq!(bindings.system_layout, system_bind_group_layout());
    assert_eq!(bindings.user_layout, user_bind_group_layout());
    assert_eq!(bindings.execution_layout, execution_bind_group_layout());
    assert_eq!(bindings.system_binding, None);
    assert_eq!(bindings.user_binding, None);
    assert_eq!(bindings.execution_binding, None);
    assert!(bindings.bind_buffers(&KernelBuffers::new(&image(64, 64))));
    assert_eq!(bindings.system_binding, Some(system_bind_group()));
    assert_eq!(bindings.user_binding, Some(user_bind_group()));
    assert_eq!(bindings.execution_binding, Some(execution_bind_group()));
    assert_eq!(bindings.user_layout, user_bind_group_layout());
}

#[test]
fn resources_of_the_wrong_usage_are_not_bound() {
    let good = KernelBuffers::new(&image(64, 64));
    let mut cases = Vec::new();
    let mut b = good;
    b.render.usage.storage_binding = false;
    cases.push(b);
    let mut b = good;
    b.config.usage.uniform = false;
    cases.push(b);
    let mut b = good;
    b.spheres.usage.storage = false;
    cases.push(b);
    let mut b = good;
    b.diffuse_mats.usage.storage = false;
    cases.push(b);
    let mut b = good;
    b.metal_mats.usage.storage = false;
    cases.push(b);
    let mut b = good;
    b.dielectric_mats.usage.storage = false;
    cases.push(b);
    let mut b = good;
    b.execution_context.usage.uniform = false;
    cases.push(b);
    for buffers in cases {
        let mut bindings = KernelBindings::new();
        assert!(!bindings.bind_buffers(&buffers));
        assert_eq!(bindings, KernelBindings::new());
    }
    let mut lax = good;
    lax.result.usage.map_read = false;
    lax.render.usage.copy_src = false;
    assert!(KernelBindings::new().bind_buffers(&lax));
}

#[test]
fn pipeline_layout_lists_the_sets_in_their_order() {
    assert_eq!(
        KernelBindings::new().pipeline_layout(),
        vec![BindSet::System, BindSet::User, BindSet::Execution]
    );
}
