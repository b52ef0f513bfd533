//! Binding-set layouts: ordered lists of resource-kind descriptors whose
//! slot order must match the program's expected argument order exactly, and
//! the catalog of named layouts the pipelines are built from.

use vstd::prelude::*;

verus! {

/// Resource kind bound at one slot of a binding set.
#[derive(Clone, Copy, Debug, PartialEq, Eq, Structural)]
pub enum BindingKind {
    /// A sampled image together with its sampler.
    ImageSampler,
    /// A uniform block (time scalar, parameter block, resolution).
    UniformBlock,
    /// A read-write storage buffer (the per-pixel accumulator).
    StorageBuffer,
}

/// An ordered list of resource-kind descriptors. The position in `slots` is
/// the stable slot index; execution is undefined unless this order matches
/// the program's expected argument order exactly.
#[derive(Debug)]
pub struct BindingSetLayout {
    pub slots: Vec<BindingKind>,
}

/// Which family of binding-set layout a shader segment's pipeline needs.
#[derive(Clone, Copy, Debug, PartialEq, Eq, Structural)]
pub enum PipelineLayoutKind {
    /// Shaders that sample from an image (a video frame, a feedback slot).
    Texture,
    /// Shaders fed from a uniform buffer instead of an image.
    Buffer,
}

/// Group order of a pipeline built for the given layout kind: slot 0 is the
/// image or buffer input, then the time scalar, the parameter block, and the
/// resolution block.
pub open spec fn pipeline_groups_spec(kind: PipelineLayoutKind) -> Seq<BindingKind> {
    match kind {
        PipelineLayoutKind::Texture => seq![
            BindingKind::ImageSampler,
            BindingKind::UniformBlock,
            BindingKind::UniformBlock,
            BindingKind::UniformBlock,
        ],
        PipelineLayoutKind::Buffer => seq![
            BindingKind::UniformBlock,
            BindingKind::UniformBlock,
            BindingKind::UniformBlock,
            BindingKind::UniformBlock,
        ],
    }
}

/// Group order of the feedback pipeline: the previous frame's image, the
/// time scalar, the parameter block, and the per-pixel accumulator.
pub open spec fn feedback_groups_spec() -> Seq<BindingKind> {
    seq![
        BindingKind::ImageSampler,
        BindingKind::UniformBlock,
        BindingKind::UniformBlock,
        BindingKind::StorageBuffer,
    ]
}

/// Immutable named binding-set layouts, keyed by purpose, handed out to
/// pipeline construction. Pure data with no runtime state.
pub struct ResourceLayoutCatalog {
    pub image_sample: BindingSetLayout,
    pub time: BindingSetLayout,
    pub params: BindingSetLayout,
    pub resolution: BindingSetLayout,
    pub atomic_storage: BindingSetLayout,
}

impl ResourceLayoutCatalog {
    /// The catalog's layouts hold exactly the descriptors their purpose
    /// demands.
    pub open spec fn wf(self) -> bool {
        &&& self.image_sample.slots@ == seq![BindingKind::ImageSampler]
        &&& self.time.slots@ == seq![BindingKind::UniformBlock]
        &&& self.params.slots@ == seq![BindingKind::UniformBlock]
        &&& self.resolution.slots@ == seq![BindingKind::UniformBlock]
        &&& self.atomic_storage.slots@ == seq![BindingKind::StorageBuffer]
    }

    /// Builds the catalog of named layouts.
    pub fn create() -> (c: Self)
        ensures
            c.wf(),
    {
        let mut image_sample: Vec<BindingKind> = Vec::new();
        image_sample.push(BindingKind::ImageSampler);
        let mut time: Vec<BindingKind> = Vec::new();
        time.push(BindingKind::UniformBlock);
        let mut params: Vec<BindingKind> = Vec::new();
        params.push(BindingKind::UniformBlock);
        let mut resolution: Vec<BindingKind> = Vec::new();
        resolution.push(BindingKind::UniformBlock);
        let mut atomic_storage: Vec<BindingKind> = Vec::new();
        atomic_storage.push(BindingKind::StorageBuffer);
        proof {
            assert(image_sample@ =~= seq![BindingKind::ImageSampler]);
            assert(time@ =~= seq![BindingKind::UniformBlock]);
            assert(params@ =~= seq![BindingKind::UniformBlock]);
            assert(resolution@ =~= seq![BindingKind::UniformBlock]);
            assert(atomic_storage@ =~= seq![BindingKind::StorageBuffer]);
        }
        ResourceLayoutCatalog {
            image_sample: BindingSetLayout { slots: image_sample },
            time: BindingSetLayout { slots: time },
            params: BindingSetLayout { slots: params },
            resolution: BindingSetLayout { slots: resolution },
            atomic_storage: BindingSetLayout { slots: atomic_storage },
        }
    }
}

/// The ordered binding groups of a pipeline for the given layout kind.
pub fn pipeline_groups(kind: PipelineLayoutKind) -> (g: Vec<BindingKind>)
    ensures
        g@ == pipeline_groups_spec(kind),
{
    let mut g: Vec<BindingKind> = Vec::new();
    match kind {
        PipelineLayoutKind::Texture => {
            g.push(BindingKind::ImageSampler);
        },
        PipelineLayoutKind::Buffer => {
            g.push(BindingKind::UniformBlock);
        },
    }
    g.push(BindingKind::UniformBlock);
    g.push(BindingKind::UniformBlock);
    g.push(BindingKind::UniformBlock);
    proof {
        assert(g@ =~= pipeline_groups_spec(kind));
    }
    g
}

/// The ordered binding groups of the feedback pipeline.
pub fn feedback_groups() -> (g: Vec<BindingKind>)
    ensures
        g@ == feedback_groups_spec(),
{
    let mut g: Vec<BindingKind> = Vec::new();
    g.push(BindingKind::ImageSampler);
    g.push(BindingKind::UniformBlock);
    g.push(BindingKind::UniformBlock);
    g.push(BindingKind::StorageBuffer);
    proof {
        assert(g@ =~= feedback_groups_spec());
    }
    g
}

} // verus!
