//! The effect's pipeline description and the keyed pipeline cache.
//!
//! Built once at startup: a bind-group layout of exactly four fragment-stage
//! bindings, an immutable sampler, and a pipeline descriptor that pairs the
//! host's shared full-screen-triangle vertex stage with the effect's
//! fragment entry point, writing a single color target with no depth,
//! stencil or multisampling. Pipeline compilation is expensive, so
//! descriptors are queued in a cache keyed by the descriptor itself:
//! queueing an identical descriptor again returns the id it already has
//! and compiles nothing.

use vstd::prelude::*;

use crate::uniform::UniformLayout;
use crate::uniform::uniform_size;
use crate::uniform::uniform_size_bytes;

verus! {

/// What one binding of the effect's bind group is.
#[derive(Clone, Copy, PartialEq, Eq, Structural, Debug)]
pub enum BindingKind {
    /// A 2D texture of filterable floats: the source color of the frame.
    Texture2dFloatFilterable,
    /// A filtering sampler for that texture.
    SamplerFiltering,
    /// A uniform buffer of at least `min_size` bytes, without dynamic
    /// offset indexing at bind time.
    UniformBuffer { min_size: u64 },
}

/// One entry of the bind-group layout. The entry's index, kind and stage
/// visibility must agree byte for byte with what the fragment program
/// declares; a mismatch is an unrecoverable setup error.
#[derive(Clone, Copy, PartialEq, Eq, Structural, Debug)]
pub struct BindingEntry {
    pub binding: u32,
    pub kind: BindingKind,
    /// Every binding of this effect is visible to the fragment stage only.
    pub fragment_only: bool,
}

/// The four bindings the effect declares, in their fixed order: source
/// texture, sampler, settings uniform, the host's global per-frame uniform.
pub open spec fn effect_bindings(settings_size: u64, globals_size: u64) -> Seq<BindingEntry> {
    seq![
        BindingEntry { binding: 0, kind: BindingKind::Texture2dFloatFilterable, fragment_only: true },
        BindingEntry { binding: 1, kind: BindingKind::SamplerFiltering, fragment_only: true },
        BindingEntry {
            binding: 2,
            kind: (BindingKind::UniformBuffer { min_size: settings_size }),
            fragment_only: true,
        },
        BindingEntry {
            binding: 3,
            kind: (BindingKind::UniformBuffer { min_size: globals_size }),
            fragment_only: true,
        },
    ]
}

/// Builds the bind-group layout entries for a settings record under the
/// given uniform layout and a host globals block of `globals_size` bytes.
pub fn bind_group_layout_entries(layout: UniformLayout, globals_size: u64) -> (r: Vec<
    BindingEntry,
>)
    ensures
        r@ == effect_bindings(uniform_size(layout) as u64, globals_size),
{
    let settings_size: u64 = uniform_size_bytes(layout) as u64;
    let mut r: Vec<BindingEntry> = Vec::new();
    r.push(
        BindingEntry { binding: 0, kind: BindingKind::Texture2dFloatFilterable, fragment_only: true },
    );
    r.push(BindingEntry { binding: 1, kind: BindingKind::SamplerFiltering, fragment_only: true });
    r.push(
        BindingEntry {
            binding: 2,
            kind: BindingKind::UniformBuffer { min_size: settings_size },
            fragment_only: true,
        },
    );
    r.push(
        BindingEntry {
            binding: 3,
            kind: BindingKind::UniformBuffer { min_size: globals_size },
            fragment_only: true,
        },
    );
    proof {
        assert(r@ =~= effect_bindings(uniform_size(layout) as u64, globals_size));
    }
    r
}

/// The stable entry-point name of the effect's fragment program.
pub fn fragment_entry_point() -> (r: &'static str)
    ensures
        r@ == "fragment"@,
{
    "fragment"
}

/// A graphics pipeline description, reduced to the choices this effect
/// makes. The fragment program itself is an external artifact consumed by
/// handle; its entry point is the name `fragment_entry_point` returns.
#[derive(Debug)]
pub struct PipelineDescriptor {
    /// The bind-group layout the pipeline expects at slot 0.
    pub bindings: Vec<BindingEntry>,
    /// The vertex stage is the host's shared full-screen triangle; the
    /// effect adds no vertex logic of its own.
    pub fullscreen_triangle_vertex: bool,
    /// The single color target's format, as the host's format identifier;
    /// it must match the view's swapchain format.
    pub color_target_format: u32,
    /// Whether a depth/stencil attachment is used. This effect uses none.
    pub has_depth_stencil: bool,
    /// Sample count; 1 means no multisampling beyond the default.
    pub multisample_count: u32,
    /// Number of push-constant ranges; this effect declares none.
    pub push_constant_count: u32,
}

/// Descriptor equality, the key of the pipeline cache.
pub open spec fn descriptor_eq(a: PipelineDescriptor, b: PipelineDescriptor) -> bool {
    &&& a.bindings@ == b.bindings@
    &&& a.fullscreen_triangle_vertex == b.fullscreen_triangle_vertex
    &&& a.color_target_format == b.color_target_format
    &&& a.has_depth_stencil == b.has_depth_stencil
    &&& a.multisample_count == b.multisample_count
    &&& a.push_constant_count == b.push_constant_count
}

/// A descriptor that is exactly the one this effect builds.
pub open spec fn is_effect_descriptor(
    d: PipelineDescriptor,
    layout: UniformLayout,
    globals_size: u64,
    target_format: u32,
) -> bool {
    &&& d.bindings@ == effect_bindings(uniform_size(layout) as u64, globals_size)
    &&& d.fullscreen_triangle_vertex == true
    &&& d.color_target_format == target_format
    &&& d.has_depth_stencil == false
    &&& d.multisample_count == 1
    &&& d.push_constant_count == 0
}

fn bindings_equal(a: &Vec<BindingEntry>, b: &Vec<BindingEntry>) -> (r: bool)
    ensures
        r == (a@ == b@),
{
    if a.len() != b.len() {
        return false;
    }
    let mut i: usize = 0;
    while i < a.len()
        invariant
            i <= a@.len(),
            a@.len() == b@.len(),
            forall|j: int| 0 <= j < i ==> a@[j] == b@[j],
        decreases a@.len() - i,
    {
        if a[i] != b[i] {
            return false;
        }
        i += 1;
    }
    proof {
        assert(a@ =~= b@);
    }
    true
}

impl PipelineDescriptor {
    /// Whether two descriptors describe the same pipeline, so that the
    /// cache may hand out the already compiled one.
    pub fn same_descriptor(&self, other: &PipelineDescriptor) -> (r: bool)
        ensures
            r == descriptor_eq(*self, *other),
    {
        bindings_equal(&self.bindings, &other.bindings)
            && self.fullscreen_triangle_vertex == other.fullscreen_triangle_vertex
            && self.color_target_format == other.color_target_format
            && self.has_depth_stencil == other.has_depth_stencil
            && self.multisample_count == other.multisample_count
            && self.push_constant_count == other.push_constant_count
    }
}

/// Builds the effect's pipeline descriptor.
pub fn effect_pipeline_descriptor(
    layout: UniformLayout,
    globals_size: u64,
    target_format: u32,
) -> (r: PipelineDescriptor)
    ensures
        is_effect_descriptor(r, layout, globals_size, target_format),
{
    PipelineDescriptor {
        bindings: bind_group_layout_entries(layout, globals_size),
        fullscreen_triangle_vertex: true,
        color_target_format: target_format,
        has_depth_stencil: false,
        multisample_count: 1,
        push_constant_count: 0,
    }
}

/// The one-time resources the effect owns: the bind-group layout, the
/// immutable sampler (held as the host's identifier), and the id of the
/// effect's pipeline in the cache. Created once at startup, never mutated,
/// shared read-only by every frame.
pub struct PipelineResources {
    pub bindings: Vec<BindingEntry>,
    pub sampler: u64,
    pub pipeline_id: usize,
}

/// Builds the effect's one-time resources: declares the four-binding
/// layout, keeps the host-created sampler, and queues the effect's pipeline
/// descriptor in the cache. Queueing only registers the descriptor; the
/// pipeline becomes ready on some later frame, and until then the frame
/// node skips. When an equal descriptor is already queued, the cache is
/// left exactly as it was: repeated builds never recompile.
pub fn build_pipeline_resources(
    cache: &mut PipelineCache,
    layout: UniformLayout,
    globals_size: u64,
    target_format: u32,
    sampler: u64,
) -> (r: PipelineResources)
    requires
        old(cache).wf(),
    ensures
        final(cache).wf(),
        r.sampler == sampler,
        r.bindings@ == effect_bindings(uniform_size(layout) as u64, globals_size),
        r.pipeline_id < final(cache).descriptors@.len(),
        is_effect_descriptor(
            final(cache).descriptors@[r.pipeline_id as int],
            layout,
            globals_size,
            target_format,
        ),
        (exists|i: int|
            0 <= i < old(cache).descriptors@.len() && is_effect_descriptor(
                old(cache).descriptors@[i],
                layout,
                globals_size,
                target_format,
            )) ==> final(cache).descriptors@ == old(cache).descriptors@ && final(cache).compiled@
            == old(cache).compiled@,
        !(exists|i: int|
            0 <= i < old(cache).descriptors@.len() && is_effect_descriptor(
                old(cache).descriptors@[i],
                layout,
                globals_size,
                target_format,
            )) ==> r.pipeline_id == old(cache).descriptors@.len() && final(cache).descriptors@.len()
            == old(cache).descriptors@.len() + 1 && final(cache).compiled@ == old(
            cache,
        ).compiled@.push(false),
        final(cache).descriptors@.len() <= old(cache).descriptors@.len() + 1,
{
    let d = effect_pipeline_descriptor(layout, globals_size, target_format);
    let ghost dg = d;
    let bindings = bind_group_layout_entries(layout, globals_size);
    let pipeline_id = cache.queue(d);
    proof {
        let olds = old(cache).descriptors@;
        if exists|i: int|
            0 <= i < olds.len() && is_effect_descriptor(olds[i], layout, globals_size, target_format) {
            let i = choose|i: int|
                0 <= i < olds.len() && is_effect_descriptor(
                    olds[i],
                    layout,
                    globals_size,
                    target_format,
                );
            assert(descriptor_eq(olds[i], dg));
            assert(old(cache).has_match(olds.len() as int, dg));
        }
        if old(cache).has_match(olds.len() as int, dg) {
            let i = choose|i: int| 0 <= i < olds.len() && descriptor_eq(olds[i], dg);
            assert(is_effect_descriptor(olds[i], layout, globals_size, target_format));
        }
        assert(descriptor_eq(cache.descriptors@[pipeline_id as int], dg));
    }
    PipelineResources { bindings, sampler, pipeline_id }
}

/// The process-wide pipeline cache: a table of queued descriptors and, for
/// each, whether its compilation has finished. A descriptor's id is its
/// index in the table. Only the startup builder writes the table; per-frame
/// readers only ask whether an id is ready.
pub struct PipelineCache {
    pub descriptors: Vec<PipelineDescriptor>,
    pub compiled: Vec<bool>,
}

impl PipelineCache {
    /// The two columns of the table stay in step.
    pub open spec fn wf(self) -> bool {
        self.descriptors@.len() == self.compiled@.len()
    }

    /// Whether the pipeline with this id has finished compiling.
    pub open spec fn pipeline_ready(self, id: usize) -> bool {
        id < self.compiled@.len() && self.compiled@[id as int]
    }

    /// Whether some queued descriptor among the first `n` equals `d`.
    pub open spec fn has_match(self, n: int, d: PipelineDescriptor) -> bool {
        exists|i: int| 0 <= i < n && descriptor_eq(self.descriptors@[i], d)
    }

    pub fn new() -> (r: PipelineCache)
        ensures
            r.wf(),
            r.descriptors@.len() == 0,
    {
        PipelineCache { descriptors: Vec::new(), compiled: Vec::new() }
    }

    /// Registers a pipeline descriptor and returns its id. A descriptor
    /// equal to one already queued reuses that entry's id and changes
    /// nothing, so identical requests never recompile; otherwise the
    /// descriptor is appended, not yet compiled.
    pub fn queue(&mut self, d: PipelineDescriptor) -> (id: usize)
        requires
            old(self).wf(),
        ensures
            final(self).wf(),
            id < final(self).descriptors@.len(),
            descriptor_eq(final(self).descriptors@[id as int], d),
            old(self).has_match(old(self).descriptors@.len() as int, d) ==> {
                &&& final(self).descriptors@ == old(self).descriptors@
                &&& final(self).compiled@ == old(self).compiled@
                &&& !old(self).has_match(id as int, d)
            },
            !old(self).has_match(old(self).descriptors@.len() as int, d) ==> {
                &&& id == old(self).descriptors@.len()
                &&& final(self).descriptors@ == old(self).descriptors@.push(d)
                &&& final(self).compiled@ == old(self).compiled@.push(false)
            },
    {
        let mut i: usize = 0;
        while i < self.descriptors.len()
            invariant
                *self == *old(self),
                self.wf(),
                i <= self.descriptors@.len(),
                !self.has_match(i as int, d),
            decreases self.descriptors@.len() - i,
        {
            if self.descriptors[i].same_descriptor(&d) {
                return i;
            }
            proof {
                assert(!self.has_match(i + 1 as int, d));
            }
            i += 1;
        }
        let id = self.descriptors.len();
        self.descriptors.push(d);
        self.compiled.push(false);
        id
    }

    /// Whether the pipeline with this id is ready to draw with. False both
    /// for an id still compiling and for an id never queued.
    pub fn get_ready(&self, id: usize) -> (r: bool)
        ensures
            r == self.pipeline_ready(id),
    {
        id < self.compiled.len() && self.compiled[id]
    }

    /// Records that the host finished compiling the pipeline with this id.
    /// An id that was never queued changes nothing.
    pub fn set_ready(&mut self, id: usize)
        requires
            old(self).wf(),
        ensures
            final(self).wf(),
            final(self).descriptors@ == old(self).descriptors@,
            final(self).compiled@.len() == old(self).compiled@.len(),
            id < old(self).compiled@.len() ==> final(self).compiled@ == old(self).compiled@.update(
                id as int,
                true,
            ),
            id >= old(self).compiled@.len() ==> final(self).compiled@ == old(self).compiled@,
    {
        if id < self.compiled.len() {
            self.compiled.set(id, true);
        }
    }
}

} // verus!
