//! The per-view frame execution node.
//!
//! Once per frame and view, the host's graph executor invokes the node. The
//! node checks that the cached pipeline has compiled and that the settings
//! and global uniform bindings exist; if anything is missing it skips
//! silently, leaving the view untouched, and tries again next frame. When
//! everything is ready it performs the view's double-buffer swap exactly
//! once, builds a transient bind group over the pre-swap source texture,
//! and records a single draw of one full-screen triangle into the
//! destination texture.

use vstd::prelude::*;

use crate::pipeline::PipelineCache;

verus! {

/// The view's double-buffered color targets. The texture the view currently
/// presents is "main"; a post-process pass reads main and writes the other
/// texture, then the roles swap. Texture views are held as the host's
/// opaque identifiers.
#[derive(Clone, Copy, PartialEq, Eq, Structural, Debug)]
pub struct ViewTargetState {
    pub texture_a: u64,
    pub texture_b: u64,
    /// Which of the two textures is currently "main".
    pub main_is_a: bool,
}

/// The texture pair one post-process pass works with: read from `source`,
/// write only into `destination`. Valid for a single pass of a single
/// frame; never persisted.
#[derive(Clone, Copy, PartialEq, Eq, Structural, Debug)]
pub struct PostProcessWrite {
    pub source: u64,
    pub destination: u64,
}

impl ViewTargetState {
    /// The two buffers are distinct textures, so reading the source while
    /// writing the destination never aliases.
    pub open spec fn wf(self) -> bool {
        self.texture_a != self.texture_b
    }

    /// The texture the view currently presents.
    pub open spec fn main_texture(self) -> u64 {
        if self.main_is_a {
            self.texture_a
        } else {
            self.texture_b
        }
    }

    /// The other texture: the one the next pass writes into.
    pub open spec fn other_texture(self) -> u64 {
        if self.main_is_a {
            self.texture_b
        } else {
            self.texture_a
        }
    }

    /// The double-buffer swap: hands out the current source/destination
    /// pair and flips which texture is "main", so the destination just
    /// written becomes the next stage's source. It mutates the view's
    /// notion of the current texture, so a pass must call it exactly once,
    /// immediately before use.
    pub fn post_process_write(&mut self) -> (r: PostProcessWrite)
        ensures
            r.source == old(self).main_texture(),
            r.destination == old(self).other_texture(),
            final(self).texture_a == old(self).texture_a,
            final(self).texture_b == old(self).texture_b,
            final(self).main_is_a == !old(self).main_is_a,
            final(self).main_texture() == r.destination,
    {
        let r = PostProcessWrite {
            source: if self.main_is_a {
                self.texture_a
            } else {
                self.texture_b
            },
            destination: if self.main_is_a {
                self.texture_b
            } else {
                self.texture_a
            },
        };
        self.main_is_a = !self.main_is_a;
        r
    }
}

/// After the swap, the destination just written is the new main texture
/// and the old source is free: the next pass on this view reads what this
/// pass wrote and writes over what this pass read. So consecutive draws
/// ping-pong between the two textures and never alias a read with a write.
pub proof fn lemma_swap_makes_destination_the_next_source(v: ViewTargetState, w: ViewTargetState)
    requires
        w.texture_a == v.texture_a,
        w.texture_b == v.texture_b,
        w.main_is_a == !v.main_is_a,
    ensures
        w.main_texture() == v.other_texture(),
        w.other_texture() == v.main_texture(),
{
}

/// The transient bind group built anew each frame, in the fixed order the
/// bind-group layout declares: source texture, sampler, settings uniform,
/// global uniform. It cannot be cached across frames because the source
/// texture changes with every swap.
#[derive(Clone, Copy, PartialEq, Eq, Structural, Debug)]
pub struct BindGroupRecord {
    pub source_texture: u64,
    pub sampler: u64,
    pub settings_binding: u64,
    pub globals_binding: u64,
}

/// One bound resource, as the host's identifier.
#[derive(Clone, Copy, PartialEq, Eq, Structural, Debug)]
pub enum BindingResource {
    TextureView(u64),
    Sampler(u64),
    Buffer(u64),
}

impl BindGroupRecord {
    /// The resources in binding order 0 to 3, matching the layout's order
    /// entry for entry.
    pub fn resources_in_order(&self) -> (r: Vec<BindingResource>)
        ensures
            r@ == seq![
                BindingResource::TextureView(self.source_texture),
                BindingResource::Sampler(self.sampler),
                BindingResource::Buffer(self.settings_binding),
                BindingResource::Buffer(self.globals_binding),
            ],
    {
        let mut r: Vec<BindingResource> = Vec::new();
        r.push(BindingResource::TextureView(self.source_texture));
        r.push(BindingResource::Sampler(self.sampler));
        r.push(BindingResource::Buffer(self.settings_binding));
        r.push(BindingResource::Buffer(self.globals_binding));
        proof {
            assert(r@ =~= seq![
                BindingResource::TextureView(self.source_texture),
                BindingResource::Sampler(self.sampler),
                BindingResource::Buffer(self.settings_binding),
                BindingResource::Buffer(self.globals_binding),
            ]);
        }
        r
    }
}

/// Everything one invocation of the node records when it draws: one render
/// pass writing only the destination target, one bind group at slot 0, and
/// one draw of three vertices and one instance.
#[derive(Clone, Copy, PartialEq, Eq, Structural, Debug)]
pub struct DrawRecord {
    /// The cached pipeline the pass binds.
    pub pipeline_id: usize,
    /// The transient bind group, bound at `bind_group_slot`.
    pub bind_group: BindGroupRecord,
    pub bind_group_slot: u32,
    /// The color attachment: the destination texture, never the source.
    pub target: u64,
    pub first_vertex: u32,
    pub vertex_count: u32,
    pub first_instance: u32,
    pub instance_count: u32,
}

/// What one invocation of the node did: either nothing at all, or exactly
/// one recorded draw.
#[derive(Clone, Copy, PartialEq, Eq, Structural, Debug)]
pub enum FrameOutput {
    /// A resource was missing; no draw was recorded and the view was left
    /// untouched. Not an error: the effect resumes by itself once the
    /// resource appears.
    Skipped,
    /// All resources were ready; the single draw described here was
    /// recorded.
    Draw(DrawRecord),
}

/// Runs the node's logic for one view and one frame.
///
/// The node skips, mutating nothing, unless the pipeline has compiled and
/// both uniform bindings exist. When it draws, it swaps the view's buffers
/// exactly once and the record pins every command: the bind group reads the
/// pre-swap main texture, the pass writes the other texture (which the swap
/// has made the new main), and the draw covers three vertices and one
/// instance.
pub fn run_frame(
    cache: &PipelineCache,
    pipeline_id: usize,
    sampler: u64,
    settings_binding: Option<u64>,
    globals_binding: Option<u64>,
    view: &mut ViewTargetState,
) -> (out: FrameOutput)
    ensures
        !(cache.pipeline_ready(pipeline_id) && settings_binding is Some && globals_binding is Some)
            ==> out == FrameOutput::Skipped && *final(view) == *old(view),
        (cache.pipeline_ready(pipeline_id) && settings_binding is Some && globals_binding is Some)
            ==> {
            &&& out == FrameOutput::Draw(
                (DrawRecord {
                    pipeline_id,
                    bind_group: (BindGroupRecord {
                        source_texture: old(view).main_texture(),
                        sampler,
                        settings_binding: settings_binding->Some_0,
                        globals_binding: globals_binding->Some_0,
                    }),
                    bind_group_slot: 0,
                    target: old(view).other_texture(),
                    first_vertex: 0,
                    vertex_count: 3,
                    first_instance: 0,
                    instance_count: 1,
                }),
            )
            &&& final(view).texture_a == old(view).texture_a
            &&& final(view).texture_b == old(view).texture_b
            &&& final(view).main_is_a == !old(view).main_is_a
        },
        old(view).wf() ==> (out matches FrameOutput::Draw(d) ==> d.target
            != d.bind_group.source_texture),
{
    if !cache.get_ready(pipeline_id) {
        return FrameOutput::Skipped;
    }
    let sb = match settings_binding {
        Some(b) => b,
        None => {
            return FrameOutput::Skipped;
        },
    };
    let gb = match globals_binding {
        Some(b) => b,
        None => {
            return FrameOutput::Skipped;
        },
    };
    let pass = view.post_process_write();
    FrameOutput::Draw(
        DrawRecord {
            pipeline_id,
            bind_group: BindGroupRecord {
                source_texture: pass.source,
                sampler,
                settings_binding: sb,
                globals_binding: gb,
            },
            bind_group_slot: 0,
            target: pass.destination,
            first_vertex: 0,
            vertex_count: 3,
            first_instance: 0,
            instance_count: 1,
        },
    )
}

} // verus!
