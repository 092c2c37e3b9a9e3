//! Mock graphics device: a submission-ordered command log together with the
//! per-image layout state machine and the chain of completion tokens.
//!
//! The log is append-only. Its central invariant is the layout-transition
//! sequencing rule: a draw that samples an image in `ShaderReadOnlyOptimal`
//! layout is never recorded before the barrier that moved the image into
//! that layout was submitted.

use vstd::prelude::*;

verus! {

/// The layouts an image can be in. Only the two edges
/// `Undefined -> TransferDstOptimal` and
/// `TransferDstOptimal -> ShaderReadOnlyOptimal` are ever taken by the
/// upload path; the set of transitions is closed by design.
#[derive(Clone, Copy, PartialEq, Eq, Structural, Debug)]
pub enum ImageLayout {
    Undefined,
    TransferDstOptimal,
    ShaderReadOnlyOptimal,
    ColourAttachmentOptimal,
    PresentSrc,
}

/// The closed set of supported layout-transition edges. Requesting any
/// other edge is a programming error, kept out by `requires` clauses.
pub open spec fn transition_allowed(from: ImageLayout, to: ImageLayout) -> bool {
    ||| (from is Undefined && to is TransferDstOptimal)
    ||| (from is TransferDstOptimal && to is ShaderReadOnlyOptimal)
}

/// One recorded-and-submitted GPU command.
#[derive(Clone, Copy, PartialEq, Eq, Structural, Debug)]
pub enum GpuCommand {
    /// Pipeline barrier transitioning `image` between layouts.
    Barrier { image: usize, from_layout: ImageLayout, to_layout: ImageLayout },
    /// Copy from a staging buffer into an image.
    CopyBufferToImage { buffer: u64, image: usize },
    /// Copy between two buffers.
    CopyBufferToBuffer { src: u64, dst: u64 },
    /// Begin a render pass against one framebuffer.
    BeginRenderPass { framebuffer: u64 },
    EndRenderPass,
    /// Indexed draw sampling `image`.
    DrawIndexed { image: usize, index_count: u32, instance_count: u32 },
    /// Present one swapchain image.
    Present { image_index: usize },
}

/// True when `c` is a barrier that moves `image` into `ShaderReadOnlyOptimal`.
pub open spec fn is_shader_read_barrier_for(c: GpuCommand, image: usize) -> bool {
    match c {
        GpuCommand::Barrier { image: i, to_layout, .. } => {
            i == image && to_layout is ShaderReadOnlyOptimal
        },
        _ => false,
    }
}

/// True when `c` is a draw that samples `image`.
pub open spec fn is_draw_of(c: GpuCommand, image: usize) -> bool {
    match c {
        GpuCommand::DrawIndexed { image: i, .. } => i == image,
        _ => false,
    }
}

/// The layout-transition sequencing property: every draw sampling an image
/// comes after a submitted barrier that moved that image into
/// `ShaderReadOnlyOptimal`.
pub open spec fn draws_sequenced(log: Seq<GpuCommand>) -> bool {
    forall|i: int, image: usize|
        0 <= i < log.len() && #[trigger] is_draw_of(log[i], image) ==> exists|j: int|
            0 <= j < i && #[trigger] is_shader_read_barrier_for(log[j], image)
}

/// The mock device. Commands are appended in submission order; image ids
/// index into `layouts`; completion tokens resolve in submission order.
pub struct GpuContext {
    log: Vec<GpuCommand>,
    layouts: Vec<ImageLayout>,
    image_live: Vec<bool>,
    buffers_created: u64,
    buffers_destroyed: u64,
    framebuffers_created: u64,
    framebuffers_destroyed: u64,
    next_token: u64,
    resolved_below: u64,
}

impl GpuContext {
    /// Every draw in the log is preceded by its shader-read barrier, every
    /// image in `ShaderReadOnlyOptimal` layout got there through a submitted
    /// barrier, and the bookkeeping counters are consistent. Established by
    /// `new` and preserved by every method.
    pub closed spec fn wf(self) -> bool {
        &&& self.layouts@.len() == self.image_live@.len()
        &&& draws_sequenced(self.log@)
        &&& forall|id: usize|
            id < self.layouts@.len() && self.layouts@[id as int] is ShaderReadOnlyOptimal
                ==> exists|j: int|
                0 <= j < self.log@.len() && #[trigger] is_shader_read_barrier_for(
                    self.log@[j],
                    id,
                )
        &&& self.buffers_destroyed <= self.buffers_created
        &&& self.framebuffers_destroyed <= self.framebuffers_created
        &&& self.resolved_below <= self.next_token
    }

    /// The submission-ordered command history.
    pub closed spec fn commands(self) -> Seq<GpuCommand> {
        self.log@
    }

    /// How many images have been created on this device.
    pub closed spec fn num_images(self) -> nat {
        self.layouts@.len()
    }

    /// The current layout of image `id`.
    pub closed spec fn layout_of(self, id: usize) -> ImageLayout {
        self.layouts@[id as int]
    }

    /// Whether image `id` has not been destroyed yet.
    pub closed spec fn image_is_live(self, id: usize) -> bool {
        self.image_live@[id as int]
    }

    pub closed spec fn spec_buffers_created(self) -> u64 {
        self.buffers_created
    }

    pub closed spec fn spec_buffers_destroyed(self) -> u64 {
        self.buffers_destroyed
    }

    pub closed spec fn spec_framebuffers_created(self) -> u64 {
        self.framebuffers_created
    }

    pub closed spec fn spec_framebuffers_destroyed(self) -> u64 {
        self.framebuffers_destroyed
    }

    /// Tokens handed out so far; token `t` exists when `t < spec_next_token()`.
    pub closed spec fn spec_next_token(self) -> u64 {
        self.next_token
    }

    /// Tokens resolve in submission order; all tokens below this bound have
    /// resolved.
    pub closed spec fn spec_resolved_below(self) -> u64 {
        self.resolved_below
    }

    /// True when the GPU has finished the work behind token `t`.
    pub open spec fn token_resolved(self, t: u64) -> bool {
        t < self.spec_resolved_below()
    }

    /// True when no submitted work is outstanding.
    pub open spec fn is_idle(self) -> bool {
        self.spec_resolved_below() == self.spec_next_token()
    }

    /// Everything this context tracks besides the command log and image
    /// table is unchanged.
    pub open spec fn counters_unchanged(self, other: GpuContext) -> bool {
        &&& self.spec_buffers_created() == other.spec_buffers_created()
        &&& self.spec_buffers_destroyed() == other.spec_buffers_destroyed()
        &&& self.spec_framebuffers_created() == other.spec_framebuffers_created()
        &&& self.spec_framebuffers_destroyed() == other.spec_framebuffers_destroyed()
        &&& self.spec_next_token() == other.spec_next_token()
        &&& self.spec_resolved_below() == other.spec_resolved_below()
    }

    pub fn new() -> (r: GpuContext)
        ensures
            r.wf(),
            r.commands() == Seq::<GpuCommand>::empty(),
            r.num_images() == 0,
            r.spec_buffers_created() == 0,
            r.spec_buffers_destroyed() == 0,
            r.spec_framebuffers_created() == 0,
            r.spec_framebuffers_destroyed() == 0,
            r.spec_next_token() == 0,
            r.spec_resolved_below() == 0,
    {
        GpuContext {
            log: Vec::new(),
            layouts: Vec::new(),
            image_live: Vec::new(),
            buffers_created: 0,
            buffers_destroyed: 0,
            framebuffers_created: 0,
            framebuffers_destroyed: 0,
            next_token: 0,
            resolved_below: 0,
        }
    }

    /// Allocate a fresh image in `Undefined` layout and return its id.
    pub fn create_image(&mut self) -> (id: usize)
        requires
            old(self).wf(),
        ensures
            final(self).wf(),
            id == old(self).num_images(),
            final(self).num_images() == old(self).num_images() + 1,
            final(self).layout_of(id) is Undefined,
            final(self).image_is_live(id),
            forall|i: usize|
                i < old(self).num_images() ==> #[trigger] final(self).layout_of(i) == old(
                    self,
                ).layout_of(i) && final(self).image_is_live(i) == old(self).image_is_live(i),
            final(self).commands() == old(self).commands(),
            final(self).counters_unchanged(*old(self)),
    {
        let id = self.layouts.len();
        self.layouts.push(ImageLayout::Undefined);
        self.image_live.push(true);
        proof {
            assert(self.log@ == old(self).log@);
            assert forall|i: usize|
                i < self.layouts@.len() && self.layouts@[i as int] is ShaderReadOnlyOptimal
                    implies exists|j: int|
                0 <= j < self.log@.len() && #[trigger] is_shader_read_barrier_for(
                    self.log@[j],
                    i,
                ) by {
                assert(i < old(self).layouts@.len());
                let j = choose|j: int|
                    0 <= j < old(self).log@.len() && #[trigger] is_shader_read_barrier_for(
                        old(self).log@[j],
                        i,
                    );
                assert(is_shader_read_barrier_for(self.log@[j], i));
            }
        }
        id
    }

    /// Record and submit a pipeline barrier moving image `id` along one of
    /// the two supported transition edges.
    pub fn transition_image(&mut self, id: usize, to_layout: ImageLayout)
        requires
            old(self).wf(),
            id < old(self).num_images(),
            old(self).image_is_live(id),
            transition_allowed(old(self).layout_of(id), to_layout),
        ensures
            final(self).wf(),
            final(self).num_images() == old(self).num_images(),
            final(self).layout_of(id) == to_layout,
            forall|i: usize|
                i < old(self).num_images() && i != id ==> #[trigger] final(self).layout_of(i)
                    == old(self).layout_of(i),
            forall|i: usize|
                i < old(self).num_images() ==> #[trigger] final(self).image_is_live(i) == old(
                    self,
                ).image_is_live(i),
            final(self).commands() == old(self).commands().push(
                GpuCommand::Barrier { image: id, from_layout: old(self).layout_of(id), to_layout },
            ),
            final(self).counters_unchanged(*old(self)),
    {
        let from_layout = self.layouts[id];
        self.log.push(GpuCommand::Barrier { image: id, from_layout, to_layout });
        self.layouts.set(id, to_layout);
        proof {
            assert forall|i: int, image: usize|
                0 <= i < self.log@.len() && #[trigger] is_draw_of(self.log@[i], image)
                    implies exists|j: int|
                0 <= j < i && #[trigger] is_shader_read_barrier_for(self.log@[j], image) by {
                if i < old(self).log@.len() {
                    assert(is_draw_of(old(self).log@[i], image));
                    let j = choose|j: int|
                        0 <= j < i && #[trigger] is_shader_read_barrier_for(
                            old(self).log@[j],
                            image,
                        );
                    assert(is_shader_read_barrier_for(self.log@[j], image));
                }
            }
            assert forall|idx: usize|
                idx < self.layouts@.len() && self.layouts@[idx as int] is ShaderReadOnlyOptimal
                    implies exists|j: int|
                0 <= j < self.log@.len() && #[trigger] is_shader_read_barrier_for(
                    self.log@[j],
                    idx,
                ) by {
                if idx == id {
                    assert(is_shader_read_barrier_for(self.log@[self.log@.len() - 1], idx));
                } else {
                    let j = choose|j: int|
                        0 <= j < old(self).log@.len() && #[trigger] is_shader_read_barrier_for(
                            old(self).log@[j],
                            idx,
                        );
                    assert(is_shader_read_barrier_for(self.log@[j], idx));
                }
            }
        }
    }

    /// Record and submit a copy from a staging buffer into image `id`. The
    /// image must currently be a transfer destination.
    pub fn copy_buffer_to_image(&mut self, buffer: u64, id: usize)
        requires
            old(self).wf(),
            id < old(self).num_images(),
            old(self).image_is_live(id),
            old(self).layout_of(id) is TransferDstOptimal,
        ensures
            final(self).wf(),
            final(self).num_images() == old(self).num_images(),
            forall|i: usize|
                i < old(self).num_images() ==> #[trigger] final(self).layout_of(i) == old(
                    self,
                ).layout_of(i) && final(self).image_is_live(i) == old(self).image_is_live(i),
            final(self).commands() == old(self).commands().push(
                GpuCommand::CopyBufferToImage { buffer, image: id },
            ),
            final(self).counters_unchanged(*old(self)),
    {
        self.log.push(GpuCommand::CopyBufferToImage { buffer, image: id });
        proof {
            self.lemma_push_keeps_sequencing(*old(self));
            assert(old(self).log@.is_prefix_of(self.log@));
            self.lemma_extend_keeps_barrier_witness(*old(self));
        }
    }

    /// Record and submit a copy between two buffers.
    pub fn copy_buffer_to_buffer(&mut self, src: u64, dst: u64)
        requires
            old(self).wf(),
        ensures
            final(self).wf(),
            final(self).num_images() == old(self).num_images(),
            forall|i: usize|
                i < old(self).num_images() ==> #[trigger] final(self).layout_of(i) == old(
                    self,
                ).layout_of(i) && final(self).image_is_live(i) == old(self).image_is_live(i),
            final(self).commands() == old(self).commands().push(
                GpuCommand::CopyBufferToBuffer { src, dst },
            ),
            final(self).counters_unchanged(*old(self)),
    {
        self.log.push(GpuCommand::CopyBufferToBuffer { src, dst });
        proof {
            self.lemma_push_keeps_sequencing(*old(self));
            assert(old(self).log@.is_prefix_of(self.log@));
            self.lemma_extend_keeps_barrier_witness(*old(self));
        }
    }

    /// Record an indexed draw that samples image `id`. The image must be in
    /// `ShaderReadOnlyOptimal` layout, which by this context's invariant
    /// means its shader-read barrier has already been submitted.
    pub fn draw_indexed(&mut self, id: usize, index_count: u32, instance_count: u32)
        requires
            old(self).wf(),
            id < old(self).num_images(),
            old(self).image_is_live(id),
            old(self).layout_of(id) is ShaderReadOnlyOptimal,
        ensures
            final(self).wf(),
            final(self).num_images() == old(self).num_images(),
            forall|i: usize|
                i < old(self).num_images() ==> #[trigger] final(self).layout_of(i) == old(
                    self,
                ).layout_of(i) && final(self).image_is_live(i) == old(self).image_is_live(i),
            final(self).commands() == old(self).commands().push(
                GpuCommand::DrawIndexed { image: id, index_count, instance_count },
            ),
            final(self).counters_unchanged(*old(self)),
    {
        self.log.push(GpuCommand::DrawIndexed { image: id, index_count, instance_count });
        proof {
            let ghost prev = old(self).log@;
            assert forall|i: int, image: usize|
                0 <= i < self.log@.len() && #[trigger] is_draw_of(self.log@[i], image)
                    implies exists|j: int|
                0 <= j < i && #[trigger] is_shader_read_barrier_for(self.log@[j], image) by {
                if i < prev.len() {
                    assert(is_draw_of(prev[i], image));
                    let j = choose|j: int|
                        0 <= j < i && #[trigger] is_shader_read_barrier_for(prev[j], image);
                    assert(is_shader_read_barrier_for(self.log@[j], image));
                } else {
                    assert(image == id);
                    let j = choose|j: int|
                        0 <= j < prev.len() && #[trigger] is_shader_read_barrier_for(
                            prev[j],
                            id,
                        );
                    assert(is_shader_read_barrier_for(self.log@[j], image));
                }
            }
            assert(old(self).log@.is_prefix_of(self.log@));
            self.lemma_extend_keeps_barrier_witness(*old(self));
        }
    }

    /// Record the begin of a render pass against one framebuffer.
    pub fn begin_render_pass(&mut self, framebuffer: u64)
        requires
            old(self).wf(),
        ensures
            final(self).wf(),
            final(self).num_images() == old(self).num_images(),
            forall|i: usize|
                i < old(self).num_images() ==> #[trigger] final(self).layout_of(i) == old(
                    self,
                ).layout_of(i) && final(self).image_is_live(i) == old(self).image_is_live(i),
            final(self).commands() == old(self).commands().push(
                GpuCommand::BeginRenderPass { framebuffer },
            ),
            final(self).counters_unchanged(*old(self)),
    {
        self.log.push(GpuCommand::BeginRenderPass { framebuffer });
        proof {
            self.lemma_push_keeps_sequencing(*old(self));
            assert(old(self).log@.is_prefix_of(self.log@));
            self.lemma_extend_keeps_barrier_witness(*old(self));
        }
    }

    /// Record the end of the current render pass.
    pub fn end_render_pass(&mut self)
        requires
            old(self).wf(),
        ensures
            final(self).wf(),
            final(self).num_images() == old(self).num_images(),
            forall|i: usize|
                i < old(self).num_images() ==> #[trigger] final(self).layout_of(i) == old(
                    self,
                ).layout_of(i) && final(self).image_is_live(i) == old(self).image_is_live(i),
            final(self).commands() == old(self).commands().push(GpuCommand::EndRenderPass),
            final(self).counters_unchanged(*old(self)),
    {
        self.log.push(GpuCommand::EndRenderPass);
        proof {
            self.lemma_push_keeps_sequencing(*old(self));
            assert(old(self).log@.is_prefix_of(self.log@));
            self.lemma_extend_keeps_barrier_witness(*old(self));
        }
    }

    /// Record a present of one swapchain image.
    pub fn present(&mut self, image_index: usize)
        requires
            old(self).wf(),
        ensures
            final(self).wf(),
            final(self).num_images() == old(self).num_images(),
            forall|i: usize|
                i < old(self).num_images() ==> #[trigger] final(self).layout_of(i) == old(
                    self,
                ).layout_of(i) && final(self).image_is_live(i) == old(self).image_is_live(i),
            final(self).commands() == old(self).commands().push(
                GpuCommand::Present { image_index },
            ),
            final(self).counters_unchanged(*old(self)),
    {
        self.log.push(GpuCommand::Present { image_index });
        proof {
            self.lemma_push_keeps_sequencing(*old(self));
            assert(old(self).log@.is_prefix_of(self.log@));
            self.lemma_extend_keeps_barrier_witness(*old(self));
        }
    }

    /// Extending the log keeps every recorded barrier as a witness for the
    /// images already in `ShaderReadOnlyOptimal` layout.
    proof fn lemma_extend_keeps_barrier_witness(&self, prev: GpuContext)
        requires
            forall|id: usize|
                id < prev.layouts@.len() && prev.layouts@[id as int] is ShaderReadOnlyOptimal
                    ==> exists|j: int|
                    0 <= j < prev.log@.len() && #[trigger] is_shader_read_barrier_for(
                        prev.log@[j],
                        id,
                    ),
            self.layouts@ == prev.layouts@,
            prev.log@.is_prefix_of(self.log@),
        ensures
            forall|id: usize|
                id < self.layouts@.len() && self.layouts@[id as int] is ShaderReadOnlyOptimal
                    ==> exists|j: int|
                    0 <= j < self.log@.len() && #[trigger] is_shader_read_barrier_for(
                        self.log@[j],
                        id,
                    ),
    {
        assert forall|id: usize|
            id < self.layouts@.len() && self.layouts@[id as int] is ShaderReadOnlyOptimal
                implies exists|j: int|
            0 <= j < self.log@.len() && #[trigger] is_shader_read_barrier_for(
                self.log@[j],
                id,
            ) by {
            let j = choose|j: int|
                0 <= j < prev.log@.len() && #[trigger] is_shader_read_barrier_for(
                    prev.log@[j],
                    id,
                );
            assert(is_shader_read_barrier_for(self.log@[j], id));
        }
    }

    /// Appending a non-draw command preserves the sequencing property.
    proof fn lemma_push_keeps_sequencing(&self, prev: GpuContext)
        requires
            draws_sequenced(prev.log@),
            prev.log@.len() < self.log@.len(),
            self.log@ == prev.log@.push(self.log@[self.log@.len() - 1]),
            forall|image: usize| !(#[trigger] is_draw_of(self.log@[self.log@.len() - 1], image)),
        ensures
            draws_sequenced(self.log@),
    {
        assert forall|i: int, image: usize|
            0 <= i < self.log@.len() && #[trigger] is_draw_of(self.log@[i], image)
                implies exists|j: int|
            0 <= j < i && #[trigger] is_shader_read_barrier_for(self.log@[j], image) by {
            assert(i < prev.log@.len());
            assert(is_draw_of(prev.log@[i], image));
            let j = choose|j: int|
                0 <= j < i && #[trigger] is_shader_read_barrier_for(prev.log@[j], image);
            assert(is_shader_read_barrier_for(self.log@[j], image));
        }
    }

    /// Note a buffer allocation.
    pub fn note_buffer_created(&mut self) -> (id: u64)
        requires
            old(self).wf(),
            old(self).spec_buffers_created() < u64::MAX,
        ensures
            final(self).wf(),
            id == old(self).spec_buffers_created(),
            final(self).spec_buffers_created() == old(self).spec_buffers_created() + 1,
            final(self).spec_buffers_destroyed() == old(self).spec_buffers_destroyed(),
            final(self).spec_framebuffers_created() == old(self).spec_framebuffers_created(),
            final(self).spec_framebuffers_destroyed() == old(self).spec_framebuffers_destroyed(),
            final(self).spec_next_token() == old(self).spec_next_token(),
            final(self).spec_resolved_below() == old(self).spec_resolved_below(),
            final(self).commands() == old(self).commands(),
            final(self).num_images() == old(self).num_images(),
            forall|i: usize|
                i < old(self).num_images() ==> #[trigger] final(self).layout_of(i) == old(
                    self,
                ).layout_of(i) && final(self).image_is_live(i) == old(self).image_is_live(i),
    {
        let id = self.buffers_created;
        self.buffers_created = self.buffers_created + 1;
        id
    }

    /// Note a buffer release.
    pub fn note_buffer_destroyed(&mut self)
        requires
            old(self).wf(),
            old(self).spec_buffers_destroyed() < old(self).spec_buffers_created(),
        ensures
            final(self).wf(),
            final(self).spec_buffers_destroyed() == old(self).spec_buffers_destroyed() + 1,
            final(self).spec_buffers_created() == old(self).spec_buffers_created(),
            final(self).spec_framebuffers_created() == old(self).spec_framebuffers_created(),
            final(self).spec_framebuffers_destroyed() == old(self).spec_framebuffers_destroyed(),
            final(self).spec_next_token() == old(self).spec_next_token(),
            final(self).spec_resolved_below() == old(self).spec_resolved_below(),
            final(self).commands() == old(self).commands(),
            final(self).num_images() == old(self).num_images(),
            forall|i: usize|
                i < old(self).num_images() ==> #[trigger] final(self).layout_of(i) == old(
                    self,
                ).layout_of(i) && final(self).image_is_live(i) == old(self).image_is_live(i),
    {
        self.buffers_destroyed = self.buffers_destroyed + 1;
    }

    /// Note a framebuffer allocation.
    pub fn note_framebuffer_created(&mut self) -> (id: u64)
        requires
            old(self).wf(),
            old(self).spec_framebuffers_created() < u64::MAX,
        ensures
            final(self).wf(),
            id == old(self).spec_framebuffers_created(),
            final(self).spec_framebuffers_created() == old(self).spec_framebuffers_created() + 1,
            final(self).spec_framebuffers_destroyed() == old(self).spec_framebuffers_destroyed(),
            final(self).spec_buffers_created() == old(self).spec_buffers_created(),
            final(self).spec_buffers_destroyed() == old(self).spec_buffers_destroyed(),
            final(self).spec_next_token() == old(self).spec_next_token(),
            final(self).spec_resolved_below() == old(self).spec_resolved_below(),
            final(self).commands() == old(self).commands(),
            final(self).num_images() == old(self).num_images(),
            forall|i: usize|
                i < old(self).num_images() ==> #[trigger] final(self).layout_of(i) == old(
                    self,
                ).layout_of(i) && final(self).image_is_live(i) == old(self).image_is_live(i),
    {
        let id = self.framebuffers_created;
        self.framebuffers_created = self.framebuffers_created + 1;
        id
    }

    /// Note a framebuffer release.
    pub fn note_framebuffer_destroyed(&mut self)
        requires
            old(self).wf(),
            old(self).spec_framebuffers_destroyed() < old(self).spec_framebuffers_created(),
        ensures
            final(self).wf(),
            final(self).spec_framebuffers_destroyed() == old(self).spec_framebuffers_destroyed()
                + 1,
            final(self).spec_framebuffers_created() == old(self).spec_framebuffers_created(),
            final(self).spec_buffers_created() == old(self).spec_buffers_created(),
            final(self).spec_buffers_destroyed() == old(self).spec_buffers_destroyed(),
            final(self).spec_next_token() == old(self).spec_next_token(),
            final(self).spec_resolved_below() == old(self).spec_resolved_below(),
            final(self).commands() == old(self).commands(),
            final(self).num_images() == old(self).num_images(),
            forall|i: usize|
                i < old(self).num_images() ==> #[trigger] final(self).layout_of(i) == old(
                    self,
                ).layout_of(i) && final(self).image_is_live(i) == old(self).image_is_live(i),
    {
        self.framebuffers_destroyed = self.framebuffers_destroyed + 1;
    }

    /// Submit work and hand back its completion token. Tokens resolve in
    /// submission order, so the new token is outstanding until all earlier
    /// ones and itself have completed.
    pub fn submit(&mut self) -> (token: u64)
        requires
            old(self).wf(),
            old(self).spec_next_token() < u64::MAX,
        ensures
            final(self).wf(),
            token == old(self).spec_next_token(),
            final(self).spec_next_token() == old(self).spec_next_token() + 1,
            final(self).spec_resolved_below() == old(self).spec_resolved_below(),
            !final(self).token_resolved(token),
            final(self).spec_buffers_created() == old(self).spec_buffers_created(),
            final(self).spec_buffers_destroyed() == old(self).spec_buffers_destroyed(),
            final(self).spec_framebuffers_created() == old(self).spec_framebuffers_created(),
            final(self).spec_framebuffers_destroyed() == old(self).spec_framebuffers_destroyed(),
            final(self).commands() == old(self).commands(),
            final(self).num_images() == old(self).num_images(),
            forall|i: usize|
                i < old(self).num_images() ==> #[trigger] final(self).layout_of(i) == old(
                    self,
                ).layout_of(i) && final(self).image_is_live(i) == old(self).image_is_live(i),
    {
        let token = self.next_token;
        self.next_token = self.next_token + 1;
        token
    }

    /// The mock fence trigger: the GPU reports the oldest outstanding
    /// submission as finished.
    pub fn complete_oldest(&mut self)
        requires
            old(self).wf(),
            old(self).spec_resolved_below() < old(self).spec_next_token(),
        ensures
            final(self).wf(),
            final(self).spec_resolved_below() == old(self).spec_resolved_below() + 1,
            final(self).spec_next_token() == old(self).spec_next_token(),
            final(self).spec_buffers_created() == old(self).spec_buffers_created(),
            final(self).spec_buffers_destroyed() == old(self).spec_buffers_destroyed(),
            final(self).spec_framebuffers_created() == old(self).spec_framebuffers_created(),
            final(self).spec_framebuffers_destroyed() == old(self).spec_framebuffers_destroyed(),
            final(self).commands() == old(self).commands(),
            final(self).num_images() == old(self).num_images(),
            forall|i: usize|
                i < old(self).num_images() ==> #[trigger] final(self).layout_of(i) == old(
                    self,
                ).layout_of(i) && final(self).image_is_live(i) == old(self).image_is_live(i),
    {
        self.resolved_below = self.resolved_below + 1;
    }

    /// Block until every outstanding submission has completed. Used at
    /// shutdown, before any GPU object is destroyed.
    pub fn wait_idle(&mut self)
        requires
            old(self).wf(),
        ensures
            final(self).wf(),
            final(self).is_idle(),
            final(self).spec_next_token() == old(self).spec_next_token(),
            final(self).spec_buffers_created() == old(self).spec_buffers_created(),
            final(self).spec_buffers_destroyed() == old(self).spec_buffers_destroyed(),
            final(self).spec_framebuffers_created() == old(self).spec_framebuffers_created(),
            final(self).spec_framebuffers_destroyed() == old(self).spec_framebuffers_destroyed(),
            final(self).commands() == old(self).commands(),
            final(self).num_images() == old(self).num_images(),
            forall|i: usize|
                i < old(self).num_images() ==> #[trigger] final(self).layout_of(i) == old(
                    self,
                ).layout_of(i) && final(self).image_is_live(i) == old(self).image_is_live(i),
            forall|t: u64| old(self).token_resolved(t) ==> final(self).token_resolved(t),
    {
        self.resolved_below = self.next_token;
    }

    /// Destroy image `id`. Only valid once the device is idle, so no
    /// command still in flight references the image.
    pub fn destroy_image(&mut self, id: usize)
        requires
            old(self).wf(),
            id < old(self).num_images(),
            old(self).image_is_live(id),
            old(self).is_idle(),
        ensures
            final(self).wf(),
            final(self).num_images() == old(self).num_images(),
            !final(self).image_is_live(id),
            forall|i: usize|
                i < old(self).num_images() ==> #[trigger] final(self).layout_of(i) == old(
                    self,
                ).layout_of(i),
            forall|i: usize|
                i < old(self).num_images() && i != id ==> #[trigger] final(self).image_is_live(i)
                    == old(self).image_is_live(i),
            final(self).commands() == old(self).commands(),
            final(self).counters_unchanged(*old(self)),
    {
        self.image_live.set(id, false);
        proof {
            assert(self.log@ == old(self).log@);
            assert(self.layouts@ == old(self).layouts@);
            assert(old(self).log@.is_prefix_of(self.log@));
            self.lemma_extend_keeps_barrier_witness(*old(self));
        }
    }

    /// Executable view of an image's current layout.
    pub fn current_layout(&self, id: usize) -> (l: ImageLayout)
        requires
            id < self.num_images(),
        ensures
            l == self.layout_of(id),
    {
        self.layouts[id]
    }

    /// Executable check of a token.
    pub fn is_token_resolved(&self, t: u64) -> (r: bool)
        ensures
            r == self.token_resolved(t),
    {
        t < self.resolved_below
    }

    /// The counter bounds that well-formedness carries.
    pub proof fn lemma_wf_counters(&self)
        requires
            self.wf(),
        ensures
            self.spec_buffers_destroyed() <= self.spec_buffers_created(),
            self.spec_framebuffers_destroyed() <= self.spec_framebuffers_created(),
            self.spec_resolved_below() <= self.spec_next_token(),
    {
    }

    /// How many commands have been submitted.
    pub fn command_count(&self) -> (r: usize)
        ensures
            r == self.commands().len(),
    {
        self.log.len()
    }

    /// Read back one submitted command.
    pub fn command_at(&self, i: usize) -> (r: GpuCommand)
        requires
            i < self.commands().len(),
        ensures
            r == self.commands()[i as int],
    {
        self.log[i]
    }

    pub fn image_count(&self) -> (r: usize)
        ensures
            r == self.num_images(),
    {
        self.layouts.len()
    }

    pub fn buffers_created(&self) -> (r: u64)
        ensures
            r == self.spec_buffers_created(),
    {
        self.buffers_created
    }

    pub fn buffers_destroyed(&self) -> (r: u64)
        ensures
            r == self.spec_buffers_destroyed(),
    {
        self.buffers_destroyed
    }

    pub fn framebuffers_created(&self) -> (r: u64)
        ensures
            r == self.spec_framebuffers_created(),
    {
        self.framebuffers_created
    }

    pub fn framebuffers_destroyed(&self) -> (r: u64)
        ensures
            r == self.spec_framebuffers_destroyed(),
    {
        self.framebuffers_destroyed
    }

    /// The layout-transition sequencing law: in every reachable command
    /// history, a draw that samples an image appears only after the barrier
    /// that moved that image into `ShaderReadOnlyOptimal`.
    pub fn check_draws_sequenced(&self)
        requires
            self.wf(),
        ensures
            draws_sequenced(self.commands()),
    {
    }
}

} // verus!
