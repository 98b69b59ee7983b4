use vstd::prelude::*;
use crate::bindings::{lemma_planned_buffers_fit, KernelBindings};
use crate::buffers::KernelBuffers;
use crate::compile::{all_resolved, compile, compiled, fits_kernel, scene_fault};
use crate::config::{CameraConfig, DerivedCamera, KernelConfig, RenderConfig};
use crate::error::{ConfigError, RenderError};
use crate::kernel::{initial_phase, Kernel};
use crate::kernel_scene::{KernelScene, KernelSceneView};
use crate::scene::{Scene, SceneView};
use crate::wscene::{authored, colors_valid, description_fault, ids_known, WScene};

verus! {

/// All that is decided about a render before the device is touched.
pub struct RenderPlan {
    /// The configuration that the kernel reads.
    pub config: KernelConfig,
    /// The scene in the kernel's layout.
    pub scene: KernelScene,
    /// The resources to make.
    pub buffers: KernelBuffers,
    /// The sets to bind them to.
    pub bindings: KernelBindings,
    /// The scheduler, at its start.
    pub kernel: Kernel,
}

impl RenderPlan {
    /// Whether the plan is the plan for the given configuration and compiled
    /// scene: the resources are those planned for the image, the three sets
    /// are bound, and the scheduler stands at the first tile.
    pub open spec fn is_plan_for(
        &self,
        render_config: RenderConfig,
        config: KernelConfig,
        scene: KernelSceneView,
    ) -> bool {
        &&& self.config == config
        &&& self.scene@ == scene
        &&& self.buffers == KernelBuffers::planned(config.image)
        &&& self.bindings.layouts_ok()
        &&& self.bindings.bound()
        &&& self.kernel.config() == render_config
        &&& self.kernel.phase() == initial_phase()
        &&& self.kernel.pixels() == Seq::<u8>::empty()
    }
}

/// Puts the plan together once configuration and scene are known to be sound.
fn assemble(render_config: &RenderConfig, config: KernelConfig, scene: KernelScene) -> (plan:
    RenderPlan)
    requires
        render_config.wf(),
        config.image.width == render_config.width,
        config.image.height == render_config.height,
    ensures
        plan.is_plan_for(*render_config, config, scene@),
{
    let buffers = KernelBuffers::new(&config.image);
    let mut bindings = KernelBindings::new();
    proof {
        lemma_planned_buffers_fit(config.image);
    }
    let fits = bindings.bind_buffers(&buffers);
    assert(fits);
    RenderPlan { config, scene, buffers, bindings, kernel: Kernel::started(*render_config) }
}

/// The fault that `prepare` reports, if there is one: that of the settings
/// and the camera first, then that of the scene.
pub open spec fn plan_fault(
    render_config: RenderConfig,
    camera_config: CameraConfig,
    derived: DerivedCamera,
    scene: SceneView,
    e: ConfigError,
) -> bool {
    match KernelConfig::fault(render_config, camera_config, derived) {
        Some(fault) => e == fault,
        None => scene_fault(scene, e),
    }
}

/// Plans the render of a scene: checks the settings and the camera,
/// compiles the scene, plans the resources, binds them, and sets up the
/// scheduler. A fault in the description is named and nothing is planned.
pub fn prepare(
    render_config: &RenderConfig,
    camera_config: &CameraConfig,
    derived: &DerivedCamera,
    scene: &Scene,
) -> (res: Result<RenderPlan, RenderError>)
    requires
        fits_kernel(scene@),
    ensures
        res.is_ok() <==> KernelConfig::fault(*render_config, *camera_config, *derived).is_none()
            && all_resolved(scene@),
        match res {
            Ok(plan) => plan.is_plan_for(
                *render_config,
                KernelConfig::assembled(*render_config, *camera_config, *derived),
                compiled(scene@),
            ),
            Err(RenderError::Configuration(e)) => plan_fault(
                *render_config,
                *camera_config,
                *derived,
                scene@,
                e,
            ),
            Err(RenderError::Readback) => false,
        },
{
    let config = match KernelConfig::new(render_config, camera_config, derived) {
        Ok(config) => config,
        Err(e) => {
            return Err(RenderError::Configuration(e));
        },
    };
    let kernel_scene = match compile(scene) {
        Ok(kernel_scene) => kernel_scene,
        Err(e) => {
            return Err(RenderError::Configuration(e));
        },
    };
    Ok(assemble(render_config, config, kernel_scene))
}

/// The fault that `prepare_described` reports, if there is one: that of
/// the settings and the camera first, then that of the described scene.
pub open spec fn described_plan_fault(scene: WScene, derived: DerivedCamera, e: ConfigError) -> bool {
    match KernelConfig::fault(scene.render_config(), scene.camera_config(), derived) {
        Some(fault) => e == fault,
        None => description_fault(scene, e),
    }
}

/// Plans the render of a described scene, with the settings and the camera
/// that the description holds.
pub fn prepare_described(scene: &WScene, derived: &DerivedCamera) -> (res: Result<
    RenderPlan,
    RenderError,
>)
    requires
        scene.objects@.len() <= u32::MAX,
        scene.materials@.len() <= u32::MAX,
    ensures
        res.is_ok() <==> KernelConfig::fault(
            scene.render_config(),
            scene.camera_config(),
            *derived,
        ).is_none() && colors_valid(*scene) && ids_known(*scene),
        match res {
            Ok(plan) => plan.is_plan_for(
                scene.render_config(),
                KernelConfig::assembled(scene.render_config(), scene.camera_config(), *derived),
                compiled(authored(*scene)),
            ),
            Err(RenderError::Configuration(e)) => described_plan_fault(*scene, *derived, e),
            Err(RenderError::Readback) => false,
        },
{
    let render_config = scene.get_render_config();
    let config = match scene.get_kernel_config(derived) {
        Ok(config) => config,
        Err(e) => {
            return Err(RenderError::Configuration(e));
        },
    };
    let kernel_scene = match scene.get_kernel_scene() {
        Ok(kernel_scene) => kernel_scene,
        Err(e) => {
            return Err(RenderError::Configuration(e));
        },
    };
    Ok(assemble(&render_config, config, kernel_scene))
}

} // verus!
