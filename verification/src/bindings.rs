use vstd::prelude::*;
use crate::buffers::{BufferPlan, KernelBuffers};
use crate::config::Image;

verus! {

/// The three sets into which the kernel's bindings are grouped, by how
/// often what they bind changes.
#[derive(Clone, Copy, Debug, PartialEq, Eq, Structural)]
pub enum BindSet {
    /// The output texture: bound once, written by every invocation.
    System,
    /// The configuration and the scene: bound once, only read.
    User,
    /// The execution context: rewritten before each dispatch.
    Execution,
}

/// The kind of a binding. Every binding is visible to the compute stage
/// only, has no dynamic offset, no minimum size, and is no array.
#[derive(Clone, Copy, Debug, PartialEq, Eq, Structural)]
pub enum BindingType {
    /// A two-dimensional RGBA8 storage texture that the kernel only writes.
    StorageTexture,
    /// A uniform buffer.
    Uniform,
    /// A storage buffer that the kernel only reads.
    ReadOnlyStorage,
}

/// One slot of a set's layout.
#[derive(Clone, Copy, Debug, PartialEq, Eq, Structural)]
pub struct LayoutEntry {
    pub binding: u32,
    pub ty: BindingType,
}

/// A resource of the render, by its role.
#[derive(Clone, Copy, Debug, PartialEq, Eq, Structural)]
pub enum Resource {
    /// A view of the whole render texture.
    Render,
    Config,
    Spheres,
    DiffuseMats,
    MetalMats,
    DielectricMats,
    ExecutionContext,
}

/// One slot of a set, with the resource bound to it, the whole of it.
#[derive(Clone, Copy, Debug, PartialEq, Eq, Structural)]
pub struct BindEntry {
    pub binding: u32,
    pub resource: Resource,
}

/// The index under which the kernel finds a set.
pub open spec fn set_index(set: BindSet) -> u32 {
    match set {
        BindSet::System => 0,
        BindSet::User => 1,
        BindSet::Execution => 2,
    }
}

/// The layout of a set, slot by slot.
pub open spec fn layout_of(set: BindSet) -> Seq<LayoutEntry> {
    match set {
        BindSet::System => seq![LayoutEntry { binding: 0, ty: BindingType::StorageTexture }],
        BindSet::User => seq![
            LayoutEntry { binding: 0, ty: BindingType::Uniform },
            LayoutEntry { binding: 1, ty: BindingType::ReadOnlyStorage },
            LayoutEntry { binding: 2, ty: BindingType::ReadOnlyStorage },
            LayoutEntry { binding: 3, ty: BindingType::ReadOnlyStorage },
            LayoutEntry { binding: 4, ty: BindingType::ReadOnlyStorage },
        ],
        BindSet::Execution => seq![LayoutEntry { binding: 0, ty: BindingType::Uniform }],
    }
}

/// The resources of a set, slot by slot.
pub open spec fn group_of(set: BindSet) -> Seq<BindEntry> {
    match set {
        BindSet::System => seq![BindEntry { binding: 0, resource: Resource::Render }],
        BindSet::User => seq![
            BindEntry { binding: 0, resource: Resource::Config },
            BindEntry { binding: 1, resource: Resource::Spheres },
            BindEntry { binding: 2, resource: Resource::DiffuseMats },
            BindEntry { binding: 3, resource: Resource::MetalMats },
            BindEntry { binding: 4, resource: Resource::DielectricMats },
        ],
        BindSet::Execution => seq![BindEntry { binding: 0, resource: Resource::ExecutionContext }],
    }
}

/// The sets in the order of the pipeline layout.
pub open spec fn pipeline_sets() -> Seq<BindSet> {
    seq![BindSet::System, BindSet::User, BindSet::Execution]
}

/// The plan of the buffer that plays a role; the render texture is no buffer.
pub open spec fn buffer_of(buffers: KernelBuffers, resource: Resource) -> Option<BufferPlan> {
    match resource {
        Resource::Render => None,
        Resource::Config => Some(buffers.config),
        Resource::Spheres => Some(buffers.spheres),
        Resource::DiffuseMats => Some(buffers.diffuse_mats),
        Resource::MetalMats => Some(buffers.metal_mats),
        Resource::DielectricMats => Some(buffers.dielectric_mats),
        Resource::ExecutionContext => Some(buffers.execution_context),
    }
}

/// Whether a resource may be bound to a slot of the given kind: the render
/// texture to a storage texture if it may be written as one, a buffer to a
/// uniform or to storage if its usage says so.
pub open spec fn may_bind(buffers: KernelBuffers, resource: Resource, ty: BindingType) -> bool {
    match ty {
        BindingType::StorageTexture => resource == Resource::Render
            && buffers.render.usage.storage_binding,
        BindingType::Uniform => buffer_of(buffers, resource) matches Some(plan)
            && plan.usage.uniform,
        BindingType::ReadOnlyStorage => buffer_of(buffers, resource) matches Some(plan)
            && plan.usage.storage,
    }
}

/// Whether the resources of a set may be bound as its layout says: slot by
/// slot the same binding number, and a resource that may be bound there.
pub open spec fn set_fits(buffers: KernelBuffers, set: BindSet) -> bool {
    &&& group_of(set).len() == layout_of(set).len()
    &&& forall|i: int|
        0 <= i < layout_of(set).len() ==> {
            &&& (#[trigger] group_of(set)[i]).binding == layout_of(set)[i].binding
            &&& may_bind(buffers, group_of(set)[i].resource, layout_of(set)[i].ty)
        }
}

/// Whether the resources may be bound to all three sets.
pub open spec fn buffers_fit(buffers: KernelBuffers) -> bool {
    &&& set_fits(buffers, BindSet::System)
    &&& set_fits(buffers, BindSet::User)
    &&& set_fits(buffers, BindSet::Execution)
}

/// The layouts of the three sets and, once the resources are bound, the
/// sets themselves.
#[derive(Debug, PartialEq, Eq)]
pub struct KernelBindings {
    pub system_layout: Vec<LayoutEntry>,
    pub system_binding: Option<Vec<BindEntry>>,
    pub user_layout: Vec<LayoutEntry>,
    pub user_binding: Option<Vec<BindEntry>>,
    pub execution_layout: Vec<LayoutEntry>,
    pub execution_binding: Option<Vec<BindEntry>>,
}

impl KernelBindings {
    /// Whether the layouts are those that the kernel expects.
    pub open spec fn layouts_ok(&self) -> bool {
        &&& self.system_layout@ == layout_of(BindSet::System)
        &&& self.user_layout@ == layout_of(BindSet::User)
        &&& self.execution_layout@ == layout_of(BindSet::Execution)
    }

    /// Whether no set is bound yet.
    pub open spec fn unbound(&self) -> bool {
        &&& self.system_binding.is_none()
        &&& self.user_binding.is_none()
        &&& self.execution_binding.is_none()
    }

    /// Whether all three sets are bound as the kernel expects.
    pub open spec fn bound(&self) -> bool {
        &&& self.system_binding matches Some(group) && group@ == group_of(BindSet::System)
        &&& self.user_binding matches Some(group) && group@ == group_of(BindSet::User)
        &&& self.execution_binding matches Some(group) && group@ == group_of(BindSet::Execution)
    }

    /// The layouts of the three sets, with nothing bound yet.
    pub fn new() -> (bindings: KernelBindings)
        ensures
            bindings.layouts_ok(),
            bindings.unbound(),
    {
        KernelBindings {
            system_layout: system_bind_group_layout(),
            system_binding: None,
            user_layout: user_bind_group_layout(),
            user_binding: None,
            execution_layout: execution_bind_group_layout(),
            execution_binding: None,
        }
    }

    /// Binds the resources to the three sets if their usages allow it, and
    /// tells whether they do. Otherwise nothing changes.
    pub fn bind_buffers(&mut self, buffers: &KernelBuffers) -> (fits: bool)
        ensures
            fits == buffers_fit(*buffers),
            final(self).system_layout == old(self).system_layout,
            final(self).user_layout == old(self).user_layout,
            final(self).execution_layout == old(self).execution_layout,
            fits ==> final(self).bound(),
            !fits ==> *final(self) == *old(self),
    {
        let fits = buffers.render.usage.storage_binding && buffers.config.usage.uniform
            && buffers.spheres.usage.storage && buffers.diffuse_mats.usage.storage
            && buffers.metal_mats.usage.storage && buffers.dielectric_mats.usage.storage
            && buffers.execution_context.usage.uniform;
        proof {
            let user = BindSet::User;
            if fits {
                assert(set_fits(*buffers, BindSet::System));
                assert(set_fits(*buffers, BindSet::User));
                assert(set_fits(*buffers, BindSet::Execution));
            } else {
                if !buffers.render.usage.storage_binding {
                    assert(!may_bind(
                        *buffers,
                        group_of(BindSet::System)[0].resource,
                        layout_of(BindSet::System)[0].ty,
                    ));
                } else if !buffers.execution_context.usage.uniform {
                    assert(!may_bind(
                        *buffers,
                        group_of(BindSet::Execution)[0].resource,
                        layout_of(BindSet::Execution)[0].ty,
                    ));
                } else if !buffers.config.usage.uniform {
                    assert(!may_bind(*buffers, group_of(user)[0].resource, layout_of(user)[0].ty));
                } else if !buffers.spheres.usage.storage {
                    assert(!may_bind(*buffers, group_of(user)[1].resource, layout_of(user)[1].ty));
                } else if !buffers.diffuse_mats.usage.storage {
                    assert(!may_bind(*buffers, group_of(user)[2].resource, layout_of(user)[2].ty));
                } else if !buffers.metal_mats.usage.storage {
                    assert(!may_bind(*buffers, group_of(user)[3].resource, layout_of(user)[3].ty));
                } else {
                    assert(!may_bind(*buffers, group_of(user)[4].resource, layout_of(user)[4].ty));
                }
            }
        }
        if fits {
            self.system_binding = Some(system_bind_group());
            self.user_binding = Some(user_bind_group());
            self.execution_binding = Some(execution_bind_group());
        }
        fits
    }

    /// The sets in the order in which the pipeline layout lists them: the
    /// kernel finds each under its place in this list.
    pub fn pipeline_layout(&self) -> (sets: Vec<BindSet>)
        ensures
            sets@ == pipeline_sets(),
            forall|i: int| 0 <= i < sets@.len() ==> set_index(#[trigger] sets@[i]) == i,
    {
        let mut sets: Vec<BindSet> = Vec::new();
        sets.push(BindSet::System);
        sets.push(BindSet::User);
        sets.push(BindSet::Execution);
        assert(sets@ =~= pipeline_sets());
        sets
    }
}

/// The layout of the system set: the output texture.
pub fn system_bind_group_layout() -> (layout: Vec<LayoutEntry>)
    ensures
        layout@ == layout_of(BindSet::System),
{
    let mut layout: Vec<LayoutEntry> = Vec::new();
    layout.push(LayoutEntry { binding: 0, ty: BindingType::StorageTexture });
    assert(layout@ =~= layout_of(BindSet::System));
    layout
}

/// The layout of the user set: the configuration, then the four arrays of
/// the scene.
pub fn user_bind_group_layout() -> (layout: Vec<LayoutEntry>)
    ensures
        layout@ == layout_of(BindSet::User),
{
    let mut layout: Vec<LayoutEntry> = Vec::new();
    layout.push(LayoutEntry { binding: 0, ty: BindingType::Uniform });
    layout.push(LayoutEntry { binding: 1, ty: BindingType::ReadOnlyStorage });
    layout.push(LayoutEntry { binding: 2, ty: BindingType::ReadOnlyStorage });
    layout.push(LayoutEntry { binding: 3, ty: BindingType::ReadOnlyStorage });
    layout.push(LayoutEntry { binding: 4, ty: BindingType::ReadOnlyStorage });
    assert(layout@ =~= layout_of(BindSet::User));
    layout
}

/// The layout of the execution set: the execution context.
pub fn execution_bind_group_layout() -> (layout: Vec<LayoutEntry>)
    ensures
        layout@ == layout_of(BindSet::Execution),
{
    let mut layout: Vec<LayoutEntry> = Vec::new();
    layout.push(LayoutEntry { binding: 0, ty: BindingType::Uniform });
    assert(layout@ =~= layout_of(BindSet::Execution));
    layout
}

/// The system set: the render texture.
pub fn system_bind_group() -> (group: Vec<BindEntry>)
    ensures
        group@ == group_of(BindSet::System),
{
    let mut group: Vec<BindEntry> = Vec::new();
    group.push(BindEntry { binding: 0, resource: Resource::Render });
    assert(group@ =~= group_of(BindSet::System));
    group
}

/// The user set: the configuration, the spheres, and the materials of each kind.
pub fn user_bind_group() -> (group: Vec<BindEntry>)
    ensures
        group@ == group_of(BindSet::User),
{
    let mut group: Vec<BindEntry> = Vec::new();
    group.push(BindEntry { binding: 0, resource: Resource::Config });
    group.push(BindEntry { binding: 1, resource: Resource::Spheres });
    group.push(BindEntry { binding: 2, resource: Resource::DiffuseMats });
    group.push(BindEntry { binding: 3, resource: Resource::MetalMats });
    group.push(BindEntry { binding: 4, resource: Resource::DielectricMats });
    assert(group@ =~= group_of(BindSet::User));
    group
}

/// The execution set: the execution context.
pub fn execution_bind_group() -> (group: Vec<BindEntry>)
    ensures
        group@ == group_of(BindSet::Execution),
{
    let mut group: Vec<BindEntry> = Vec::new();
    group.push(BindEntry { binding: 0, resource: Resource::ExecutionContext });
    assert(group@ =~= group_of(BindSet::Execution));
    group
}

/// The resources that `KernelBuffers::new` plans may be bound to the three
/// sets: what is planned and what is bound agree.
pub proof fn lemma_planned_buffers_fit(image: Image)
    ensures
        buffers_fit(KernelBuffers::planned(image)),
{
    let buffers = KernelBuffers::planned(image);
    assert(set_fits(buffers, BindSet::System));
    assert(set_fits(buffers, BindSet::User));
    assert(set_fits(buffers, BindSet::Execution));
}

/// Every resource of the render but the result buffer is bound, to one slot
/// and no second one.
pub proof fn lemma_each_resource_bound_once(resource: Resource)
    ensures
        exists|set: BindSet, i: int|
            0 <= i < group_of(set).len() && (#[trigger] group_of(set)[i]).resource == resource,
        forall|s1: BindSet, i1: int, s2: BindSet, i2: int|
            0 <= i1 < group_of(s1).len() && 0 <= i2 < group_of(s2).len() && (#[trigger] group_of(
                s1,
            )[i1]).resource == resource && (#[trigger] group_of(s2)[i2]).resource == resource ==> s1
                == s2 && i1 == i2,
{
    match resource {
        Resource::Render => {
            assert(group_of(BindSet::System)[0].resource == resource);
        },
        Resource::Config => {
            assert(group_of(BindSet::User)[0].resource == resource);
        },
        Resource::Spheres => {
            assert(group_of(BindSet::User)[1].resource == resource);
        },
        Resource::DiffuseMats => {
            assert(group_of(BindSet::User)[2].resource == resource);
        },
        Resource::MetalMats => {
            assert(group_of(BindSet::User)[3].resource == resource);
        },
        Resource::DielectricMats => {
            assert(group_of(BindSet::User)[4].resource == resource);
        },
        Resource::ExecutionContext => {
            assert(group_of(BindSet::Execution)[0].resource == resource);
        },
    }
}

} // verus!
