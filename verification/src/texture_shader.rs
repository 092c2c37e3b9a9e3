//! The textured-quad shader set: per-texture descriptor bindings, the
//! shared unit-quad vertex and index buffers, per-frame uniform storage,
//! and instanced sprite batches. Draws against unknown references degrade
//! to a no-op instead of failing; an instanced batch that would exceed its
//! fixed capacity is rejected loudly rather than silently truncated.

use crate::buffer::BufferUsage;
use crate::buffer::MemoryBoundBuffer;
use crate::gpu::GpuCommand;
use crate::gpu::GpuContext;
use crate::gpu_image::GpuImage;
use crate::math::Rational;
use crate::renderpass::RenderPass;
use crate::renderpass::RenderPassTarget;
use crate::renderpass::SampleCount;
use vstd::prelude::*;

verus! {

/// The most instances one batch may hold.
pub const MAX_INSTANCES: usize = 8096;

/// One corner of the textured quad.
#[derive(Clone, Copy)]
pub struct Vertex {
    pub pos: [Rational; 2],
    pub uvs: [Rational; 2],
}

/// Per-instance data of an instanced sprite: model, colour and sprite
/// sheet cell, four components each.
#[derive(Clone, Copy)]
pub struct TextureInstanceData {
    pub model: [Rational; 4],
    pub colour: [Rational; 4],
    pub sprite_sheet: [Rational; 4],
}

/// Rejected operations of this shader set.
#[derive(Debug)]
pub enum ShaderError {
    InstanceCapacityExceeded,
    UnknownBuffer,
}

/// A texture binding: the reference it is bound under and the image it
/// samples.
pub struct DescriptorBinding {
    pub reference: String,
    pub image: usize,
}

/// The ghost image of one binding.
pub struct BindingView {
    pub reference: Seq<char>,
    pub image: usize,
}

pub open spec fn binding_view(b: DescriptorBinding) -> BindingView {
    BindingView { reference: b.reference@, image: b.image }
}

/// Whether some binding carries this reference.
pub open spec fn has_binding(bs: Seq<BindingView>, reference: Seq<char>) -> bool {
    exists|i: int| 0 <= i < bs.len() && bs[i].reference == reference
}

/// The image bound under a reference, unique by the shader's invariant.
pub open spec fn bound_image(bs: Seq<BindingView>, reference: Seq<char>) -> Option<usize> {
    if has_binding(bs, reference) {
        Some(bs[choose|i: int| 0 <= i < bs.len() && bs[i].reference == reference].image)
    } else {
        None
    }
}

/// One instanced sprite batch: its reference, the pending per-instance
/// data, and the host-visible buffer it is flushed into each frame.
pub struct InstancedBatch {
    pub reference: String,
    pub pending: Vec<TextureInstanceData>,
    pub buffer: MemoryBoundBuffer<Rational>,
}

pub struct TextureShader {
    target: RenderPassTarget,
    descriptor_sets: Vec<DescriptorBinding>,
    instanced_descriptor_sets: Vec<DescriptorBinding>,
    batches: Vec<InstancedBatch>,
    vertex_buffer: MemoryBoundBuffer<Vertex>,
    index_buffer: MemoryBoundBuffer<u32>,
    uniform_buffer: MemoryBoundBuffer<Rational>,
}

impl TextureShader {
    pub closed spec fn spec_target(self) -> RenderPassTarget {
        self.target
    }

    pub closed spec fn spec_bindings(self) -> Seq<BindingView> {
        self.descriptor_sets@.map_values(|b: DescriptorBinding| binding_view(b))
    }

    pub closed spec fn spec_instanced_bindings(self) -> Seq<BindingView> {
        self.instanced_descriptor_sets@.map_values(|b: DescriptorBinding| binding_view(b))
    }

    /// The pending instance counts per batch reference.
    pub closed spec fn spec_batches(self) -> Seq<(Seq<char>, int)> {
        self.batches@.map_values(|b: InstancedBatch| (b.reference@, b.pending@.len() as int))
    }

    /// References are unique within each binding table and batch list.
    pub open spec fn wf(self) -> bool {
        &&& forall|i: int, j: int|
            0 <= i < j < self.spec_bindings().len() ==> self.spec_bindings()[i].reference != self
                .spec_bindings()[j].reference
        &&& forall|i: int, j: int|
            0 <= i < j < self.spec_instanced_bindings().len() ==> self.spec_instanced_bindings()[
                i
            ].reference != self.spec_instanced_bindings()[j].reference
        &&& forall|i: int, j: int|
            0 <= i < j < self.spec_batches().len() ==> self.spec_batches()[i].0 != self
                .spec_batches()[j].0
        &&& forall|i: int|
            0 <= i < self.spec_batches().len() ==> (#[trigger] self.spec_batches()[i].1)
                <= MAX_INSTANCES
    }

    /// Every bound image is live in shader-read layout on `gpu`, so a draw
    /// through any binding satisfies the device's sequencing rule.
    pub open spec fn valid_in(self, gpu: GpuContext) -> bool {
        &&& forall|i: int|
            0 <= i < self.spec_bindings().len() ==> ((#[trigger] self.spec_bindings()[i].image)
                < gpu.num_images() && gpu.image_is_live(self.spec_bindings()[i].image)
                && gpu.layout_of(self.spec_bindings()[i].image) is ShaderReadOnlyOptimal)
        &&& forall|i: int|
            0 <= i < self.spec_instanced_bindings().len() ==> ((#[trigger] self
                .spec_instanced_bindings()[i].image) < gpu.num_images() && gpu.image_is_live(
                self.spec_instanced_bindings()[i].image,
            ) && gpu.layout_of(self.spec_instanced_bindings()[i].image) is ShaderReadOnlyOptimal)
    }

    /// The standard quad indices, staged through a transfer-source buffer
    /// into a device-local index buffer; the staging buffer is destroyed
    /// once the copy is recorded and submitted.
    pub fn create_index_buffer(gpu: &mut GpuContext) -> (r: MemoryBoundBuffer<u32>)
        requires
            old(gpu).wf(),
            old(gpu).spec_buffers_created() + 2 <= u64::MAX,
        ensures
            final(gpu).wf(),
            r.spec_slots().len() == 1,
            r.spec_slots()[0] == seq![0u32, 1u32, 2u32, 2u32, 3u32, 0u32],
            r.spec_kind() is DeviceLocal,
            !r.is_destroyed(),
            final(gpu).spec_buffers_created() == old(gpu).spec_buffers_created() + 2,
            final(gpu).spec_buffers_destroyed() == old(gpu).spec_buffers_destroyed() + 1,
            final(gpu).spec_framebuffers_created() == old(gpu).spec_framebuffers_created(),
            final(gpu).spec_framebuffers_destroyed() == old(gpu).spec_framebuffers_destroyed(),
            final(gpu).spec_next_token() == old(gpu).spec_next_token(),
            final(gpu).spec_resolved_below() == old(gpu).spec_resolved_below(),
            final(gpu).num_images() == old(gpu).num_images(),
            forall|i: usize|
                i < old(gpu).num_images() ==> #[trigger] final(gpu).layout_of(i) == old(
                    gpu,
                ).layout_of(i) && final(gpu).image_is_live(i) == old(gpu).image_is_live(i),
            old(gpu).commands().is_prefix_of(final(gpu).commands()),
    {
        proof {
            old(gpu).lemma_wf_counters();
        }
        let mut indices: Vec<u32> = Vec::new();
        indices.push(0);
        indices.push(1);
        indices.push(2);
        indices.push(2);
        indices.push(3);
        indices.push(0);
        proof {
            assert(indices@ =~= seq![0u32, 1u32, 2u32, 2u32, 3u32, 0u32]);
        }
        let usage_src = BufferUsage::index_transfer_src_buffer();
        let usage_dst = BufferUsage::index_transfer_dst_buffer();
        let mut staging: MemoryBoundBuffer<u32> = MemoryBoundBuffer::cpu_buffer(
            gpu,
            usage_src,
            1,
            indices,
        );
        let mut buffer: MemoryBoundBuffer<u32> = MemoryBoundBuffer::device_local_buffer(
            gpu,
            usage_dst,
            1,
        );
        buffer.copy_from(gpu, &staging, 0);
        staging.destroy(gpu);
        proof {
            assert(buffer.spec_slots()[0] =~= seq![0u32, 1u32, 2u32, 2u32, 3u32, 0u32]);
        }
        buffer
    }

    /// The unit quad with its texture coordinates, staged like the index
    /// buffer.
    pub fn create_vertex_buffer(gpu: &mut GpuContext) -> (r: MemoryBoundBuffer<Vertex>)
        requires
            old(gpu).wf(),
            old(gpu).spec_buffers_created() + 2 <= u64::MAX,
        ensures
            final(gpu).wf(),
            r.spec_slots().len() == 1,
            r.spec_slots()[0].len() == 4,
            r.spec_kind() is DeviceLocal,
            !r.is_destroyed(),
            ({
                let q = r.spec_slots()[0];
                &&& q[0].pos[0].pair() == (1int, 2int) && q[0].pos[1].pair() == (1int, 2int)
                &&& q[0].uvs[0].pair() == (99int, 100int) && q[0].uvs[1].pair() == (0int, 1int)
                &&& q[1].pos[0].pair() == (-1int, 2int) && q[1].pos[1].pair() == (1int, 2int)
                &&& q[1].uvs[0].pair() == (0int, 1int) && q[1].uvs[1].pair() == (0int, 1int)
                &&& q[2].pos[0].pair() == (-1int, 2int) && q[2].pos[1].pair() == (-1int, 2int)
                &&& q[2].uvs[0].pair() == (0int, 1int) && q[2].uvs[1].pair() == (99int, 100int)
                &&& q[3].pos[0].pair() == (1int, 2int) && q[3].pos[1].pair() == (-1int, 2int)
                &&& q[3].uvs[0].pair() == (99int, 100int) && q[3].uvs[1].pair() == (99int, 100int)
            }),
            final(gpu).spec_buffers_created() == old(gpu).spec_buffers_created() + 2,
            final(gpu).spec_buffers_destroyed() == old(gpu).spec_buffers_destroyed() + 1,
            final(gpu).spec_framebuffers_created() == old(gpu).spec_framebuffers_created(),
            final(gpu).spec_framebuffers_destroyed() == old(gpu).spec_framebuffers_destroyed(),
            final(gpu).spec_next_token() == old(gpu).spec_next_token(),
            final(gpu).spec_resolved_below() == old(gpu).spec_resolved_below(),
            final(gpu).num_images() == old(gpu).num_images(),
            forall|i: usize|
                i < old(gpu).num_images() ==> #[trigger] final(gpu).layout_of(i) == old(
                    gpu,
                ).layout_of(i) && final(gpu).image_is_live(i) == old(gpu).image_is_live(i),
            old(gpu).commands().is_prefix_of(final(gpu).commands()),
    {
        proof {
            old(gpu).lemma_wf_counters();
        }
        let half = match Rational::new(1, 2) {
            Some(v) => v,
            None => Rational::from_int(0),
        };
        let neg_half = match Rational::new(-1, 2) {
            Some(v) => v,
            None => Rational::from_int(0),
        };
        let uv_hi = match Rational::new(99, 100) {
            Some(v) => v,
            None => Rational::from_int(0),
        };
        let zero = Rational::from_int(0);
        let mut quad: Vec<Vertex> = Vec::new();
        quad.push(Vertex { pos: [half, half], uvs: [uv_hi, zero] });
        quad.push(Vertex { pos: [neg_half, half], uvs: [zero, zero] });
        quad.push(Vertex { pos: [neg_half, neg_half], uvs: [zero, uv_hi] });
        quad.push(Vertex { pos: [half, neg_half], uvs: [uv_hi, uv_hi] });
        let usage_src = BufferUsage::vertex_transfer_src_buffer();
        let usage_dst = BufferUsage::vertex_transfer_dst_buffer();
        let mut staging: MemoryBoundBuffer<Vertex> = MemoryBoundBuffer::cpu_buffer(
            gpu,
            usage_src,
            1,
            quad,
        );
        let mut buffer: MemoryBoundBuffer<Vertex> = MemoryBoundBuffer::device_local_buffer(
            gpu,
            usage_dst,
            1,
        );
        buffer.copy_from(gpu, &staging, 0);
        staging.destroy(gpu);
        buffer
    }

    /// Build the shader set: the render target for `image_count` swapchain
    /// images, the shared quad buffers, one uniform slot per image, and
    /// the fallback texture bound under the empty reference.
    pub fn new(
        gpu: &mut GpuContext,
        render_pass: RenderPass,
        image_count: usize,
        width: u32,
        height: u32,
        msaa: SampleCount,
        default_texture: &GpuImage,
    ) -> (r: TextureShader)
        requires
            old(gpu).wf(),
            image_count >= 1,
            old(gpu).spec_buffers_created() + 5 <= u64::MAX,
            old(gpu).spec_framebuffers_created() + RenderPassTarget::objects_per_build(
                msaa,
                image_count,
            ) <= u64::MAX,
            default_texture.spec_id() < old(gpu).num_images(),
            old(gpu).image_is_live(default_texture.spec_id()),
            old(gpu).layout_of(default_texture.spec_id()) is ShaderReadOnlyOptimal,
        ensures
            final(gpu).wf(),
            r.wf(),
            r.valid_in(*final(gpu)),
            r.spec_target().counts_match(image_count),
            r.spec_target().spec_msaa() == msaa,
            r.spec_target().spec_width() == width,
            r.spec_target().spec_height() == height,
            r.spec_bindings() == seq![
                BindingView { reference: Seq::<char>::empty(), image: default_texture.spec_id() },
            ],
            r.spec_instanced_bindings() == seq![
                BindingView { reference: Seq::<char>::empty(), image: default_texture.spec_id() },
            ],
            r.spec_batches() == Seq::<(Seq<char>, int)>::empty(),
            r.spec_uniform_slots().len() == image_count,
            !r.spec_vertex_destroyed(),
            !r.spec_index_destroyed(),
            !r.uniform_slots_destroyed(),
            final(gpu).spec_buffers_created() == old(gpu).spec_buffers_created() + 5,
            final(gpu).spec_buffers_destroyed() == old(gpu).spec_buffers_destroyed() + 2,
            final(gpu).spec_framebuffers_created() == old(gpu).spec_framebuffers_created()
                + RenderPassTarget::objects_per_build(msaa, image_count),
            final(gpu).spec_framebuffers_destroyed() == old(gpu).spec_framebuffers_destroyed(),
            final(gpu).spec_next_token() == old(gpu).spec_next_token(),
            final(gpu).spec_resolved_below() == old(gpu).spec_resolved_below(),
            final(gpu).num_images() == old(gpu).num_images(),
            forall|i: usize|
                i < old(gpu).num_images() ==> #[trigger] final(gpu).layout_of(i) == old(
                    gpu,
                ).layout_of(i) && final(gpu).image_is_live(i) == old(gpu).image_is_live(i),
            old(gpu).commands().is_prefix_of(final(gpu).commands()),
    {
        let target = RenderPassTarget::create_frame_buffers(
            gpu,
            render_pass,
            image_count,
            width,
            height,
            msaa,
        );
        let vertex_buffer = TextureShader::create_vertex_buffer(gpu);
        let index_buffer = TextureShader::create_index_buffer(gpu);
        let uniform_usage = BufferUsage::uniform_buffer();
        let uniform_data: Vec<Rational> = Vec::new();
        let uniform_buffer: MemoryBoundBuffer<Rational> = MemoryBoundBuffer::cpu_buffer(
            gpu,
            uniform_usage,
            image_count,
            uniform_data,
        );
        let mut descriptor_sets: Vec<DescriptorBinding> = Vec::new();
        descriptor_sets.push(
            DescriptorBinding { reference: String::new(), image: default_texture.get_image() },
        );
        let mut instanced_descriptor_sets: Vec<DescriptorBinding> = Vec::new();
        instanced_descriptor_sets.push(
            DescriptorBinding { reference: String::new(), image: default_texture.get_image() },
        );
        let r = TextureShader {
            target,
            descriptor_sets,
            instanced_descriptor_sets,
            batches: Vec::new(),
            vertex_buffer,
            index_buffer,
            uniform_buffer,
        };
        proof {
            assert(r.spec_bindings() =~= seq![
                BindingView {
                    reference: Seq::<char>::empty(),
                    image: default_texture.spec_id(),
                },
            ]);
            assert(r.spec_instanced_bindings() =~= seq![
                BindingView {
                    reference: Seq::<char>::empty(),
                    image: default_texture.spec_id(),
                },
            ]);
            assert(r.spec_batches() =~= Seq::<(Seq<char>, int)>::empty());
        }
        r
    }

    /// Bind a texture under a new reference in both the plain and the
    /// instanced table; an already-bound reference is left untouched.
    pub fn add_texture(
        &mut self,
        gpu: &GpuContext,
        texture_reference: String,
        texture_image: &GpuImage,
    )
        requires
            old(self).wf(),
            old(self).valid_in(*gpu),
            texture_image.spec_id() < gpu.num_images(),
            gpu.image_is_live(texture_image.spec_id()),
            gpu.layout_of(texture_image.spec_id()) is ShaderReadOnlyOptimal,
        ensures
            final(self).wf(),
            final(self).valid_in(*gpu),
            final(self).spec_target() == old(self).spec_target(),
            final(self).spec_batches() == old(self).spec_batches(),
            final(self).spec_bindings() == if has_binding(
                old(self).spec_bindings(),
                texture_reference@,
            ) {
                old(self).spec_bindings()
            } else {
                old(self).spec_bindings().push(
                    BindingView {
                        reference: texture_reference@,
                        image: texture_image.spec_id(),
                    },
                )
            },
            final(self).spec_instanced_bindings() == if has_binding(
                old(self).spec_instanced_bindings(),
                texture_reference@,
            ) {
                old(self).spec_instanced_bindings()
            } else {
                old(self).spec_instanced_bindings().push(
                    BindingView {
                        reference: texture_reference@,
                        image: texture_image.spec_id(),
                    },
                )
            },
            has_binding(final(self).spec_bindings(), texture_reference@),
            has_binding(final(self).spec_instanced_bindings(), texture_reference@),
            final(self).spec_uniform_slots() == old(self).spec_uniform_slots(),
            final(self).uniform_slots_destroyed() == old(self).uniform_slots_destroyed(),
            final(self).spec_vertex_destroyed() == old(self).spec_vertex_destroyed(),
            final(self).spec_index_destroyed() == old(self).spec_index_destroyed(),
    {
        let present = self.has_descriptor(&texture_reference);
        if !present {
            self.descriptor_sets.push(
                DescriptorBinding {
                    reference: texture_reference.clone(),
                    image: texture_image.get_image(),
                },
            );
            proof {
                assert(self.spec_bindings() =~= old(self).spec_bindings().push(
                    BindingView {
                        reference: texture_reference@,
                        image: texture_image.spec_id(),
                    },
                ));
                let n = old(self).spec_bindings().len() as int;
                assert(self.spec_bindings()[n].reference == texture_reference@);
                assert forall|i: int, j: int|
                    0 <= i < j < self.spec_bindings().len() implies self.spec_bindings()[
                    i
                ].reference != self.spec_bindings()[j].reference by {
                    if j < n {
                        assert(self.spec_bindings()[i] == old(self).spec_bindings()[i]);
                        assert(self.spec_bindings()[j] == old(self).spec_bindings()[j]);
                    } else {
                        assert(self.spec_bindings()[i] == old(self).spec_bindings()[i]);
                        if old(self).spec_bindings()[i].reference == texture_reference@ {
                            assert(has_binding(old(self).spec_bindings(), texture_reference@));
                        }
                    }
                }
            }
        }
        let present_instanced = self.has_instanced_descriptor(&texture_reference);
        if !present_instanced {
            self.instanced_descriptor_sets.push(
                DescriptorBinding {
                    reference: texture_reference,
                    image: texture_image.get_image(),
                },
            );
            proof {
                let pre = old(self).spec_instanced_bindings();
                assert(self.spec_instanced_bindings() =~= pre.push(
                    BindingView {
                        reference: texture_reference@,
                        image: texture_image.spec_id(),
                    },
                ));
                let n = pre.len() as int;
                assert(self.spec_instanced_bindings()[n].reference == texture_reference@);
                assert forall|i: int, j: int|
                    0 <= i < j < self.spec_instanced_bindings().len() implies self
                    .spec_instanced_bindings()[i].reference != self.spec_instanced_bindings()[
                    j
                ].reference by {
                    if j < n {
                        assert(self.spec_instanced_bindings()[i] == pre[i]);
                        assert(self.spec_instanced_bindings()[j] == pre[j]);
                    } else {
                        assert(self.spec_instanced_bindings()[i] == pre[i]);
                        if pre[i].reference == texture_reference@ {
                            assert(has_binding(pre, texture_reference@));
                        }
                    }
                }
            }
        }
        proof {
            assert(self.spec_batches() =~= old(self).spec_batches());
        }
    }

    /// Whether a plain-draw binding exists for this reference.
    fn has_descriptor(&self, reference: &String) -> (r: bool)
        ensures
            r == has_binding(self.spec_bindings(), reference@),
    {
        let mut i: usize = 0;
        while i < self.descriptor_sets.len()
            invariant
                i <= self.spec_bindings().len(),
                self.descriptor_sets@.len() == self.spec_bindings().len(),
                forall|k: int| 0 <= k < i ==> self.spec_bindings()[k].reference != reference@,
            decreases self.spec_bindings().len() - i,
        {
            proof {
                assert(self.spec_bindings()[i as int] == binding_view(
                    self.descriptor_sets@[i as int],
                ));
            }
            if self.descriptor_sets[i].reference.eq(reference) {
                proof {
                    assert(has_binding(self.spec_bindings(), reference@));
                }
                return true;
            }
            i = i + 1;
        }
        false
    }

    /// Whether an instanced-draw binding exists for this reference.
    fn has_instanced_descriptor(&self, reference: &String) -> (r: bool)
        ensures
            r == has_binding(self.spec_instanced_bindings(), reference@),
    {
        let mut i: usize = 0;
        while i < self.instanced_descriptor_sets.len()
            invariant
                i <= self.spec_instanced_bindings().len(),
                self.instanced_descriptor_sets@.len() == self.spec_instanced_bindings().len(),
                forall|k: int|
                    0 <= k < i ==> self.spec_instanced_bindings()[k].reference != reference@,
            decreases self.spec_instanced_bindings().len() - i,
        {
            proof {
                assert(self.spec_instanced_bindings()[i as int] == binding_view(
                    self.instanced_descriptor_sets@[i as int],
                ));
            }
            if self.instanced_descriptor_sets[i].reference.eq(reference) {
                proof {
                    assert(has_binding(self.spec_instanced_bindings(), reference@));
                }
                return true;
            }
            i = i + 1;
        }
        false
    }

    /// The framebuffer colour attachment for one acquired image index.
    pub fn get_texture(&self, current_buffer: usize) -> (r: u64)
        requires
            current_buffer < self.spec_target().spec_colour_attachments().len(),
        ensures
            r == self.spec_target().spec_colour_attachments()[current_buffer as int],
    {
        self.target.colour_attachment(current_buffer)
    }

    /// Begin this shader's render pass against the framebuffer of the
    /// acquired image.
    pub fn begin_renderpass(&self, gpu: &mut GpuContext, current_buffer: usize)
        requires
            old(gpu).wf(),
            current_buffer < self.spec_target().spec_framebuffers().len(),
        ensures
            final(gpu).wf(),
            final(gpu).commands() == old(gpu).commands().push(
                GpuCommand::BeginRenderPass {
                    framebuffer: self.spec_target().spec_framebuffers()[current_buffer as int],
                },
            ),
            final(gpu).counters_unchanged(*old(gpu)),
            final(gpu).num_images() == old(gpu).num_images(),
            forall|i: usize|
                i < old(gpu).num_images() ==> #[trigger] final(gpu).layout_of(i) == old(
                    gpu,
                ).layout_of(i) && final(gpu).image_is_live(i) == old(gpu).image_is_live(i),
    {
        let fb = self.target.framebuffer(current_buffer);
        gpu.begin_render_pass(fb);
    }

    /// Record one quad draw sampling the texture bound under
    /// `texture_reference`. An unknown reference draws nothing and reports
    /// `false`; callers fall back rather than fail.
    pub fn draw_texture(&self, gpu: &mut GpuContext, texture_reference: &String) -> (drew: bool)
        requires
            old(gpu).wf(),
            self.wf(),
            self.valid_in(*old(gpu)),
        ensures
            final(gpu).wf(),
            drew == has_binding(self.spec_bindings(), texture_reference@),
            drew ==> final(gpu).commands() == old(gpu).commands().push(
                GpuCommand::DrawIndexed {
                    image: bound_image(self.spec_bindings(), texture_reference@)->Some_0,
                    index_count: 6,
                    instance_count: 1,
                },
            ),
            !drew ==> final(gpu).commands() == old(gpu).commands(),
            final(gpu).counters_unchanged(*old(gpu)),
            final(gpu).num_images() == old(gpu).num_images(),
            forall|i: usize|
                i < old(gpu).num_images() ==> #[trigger] final(gpu).layout_of(i) == old(
                    gpu,
                ).layout_of(i) && final(gpu).image_is_live(i) == old(gpu).image_is_live(i),
    {
        let mut i: usize = 0;
        while i < self.descriptor_sets.len()
            invariant
                *gpu == *old(gpu),
                old(gpu).wf(),
                self.wf(),
                self.valid_in(*old(gpu)),
                i <= self.spec_bindings().len(),
                self.descriptor_sets@.len() == self.spec_bindings().len(),
                forall|k: int|
                    0 <= k < i ==> self.spec_bindings()[k].reference != texture_reference@,
            decreases self.spec_bindings().len() - i,
        {
            proof {
                assert(self.spec_bindings()[i as int] == binding_view(
                    self.descriptor_sets@[i as int],
                ));
            }
            if self.descriptor_sets[i].reference.eq(texture_reference) {
                proof {
                    assert(has_binding(self.spec_bindings(), texture_reference@));
                    let w = choose|k: int|
                        0 <= k < self.spec_bindings().len() && self.spec_bindings()[
                        k
                    ].reference == texture_reference@;
                    if w < i as int {
                        assert(self.spec_bindings()[w].reference != self.spec_bindings()[
                        i as int].reference);
                    }
                    if (i as int) < w {
                        assert(self.spec_bindings()[i as int].reference != self.spec_bindings()[
                        w].reference);
                    }
                    assert(w == i as int);
                    assert(bound_image(self.spec_bindings(), texture_reference@) == Some(
                        self.spec_bindings()[i as int].image,
                    ));
                }
                let image = self.descriptor_sets[i].image;
                gpu.draw_indexed(image, 6, 1);
                return true;
            }
            i = i + 1;
        }
        proof {
            assert(!has_binding(self.spec_bindings(), texture_reference@));
        }
        false
    }

    /// Record one quad draw per glyph of a piece of wrapped text, all
    /// sampling the font's atlas texture. An unknown font draws nothing.
    pub fn draw_text(&self, gpu: &mut GpuContext, font: &String, glyph_count: usize) -> (drew:
        bool)
        requires
            old(gpu).wf(),
            self.wf(),
            self.valid_in(*old(gpu)),
        ensures
            final(gpu).wf(),
            drew == has_binding(self.spec_bindings(), font@),
            drew ==> final(gpu).commands() == old(gpu).commands() + Seq::new(
                glyph_count as nat,
                |k: int|
                    GpuCommand::DrawIndexed {
                        image: bound_image(self.spec_bindings(), font@)->Some_0,
                        index_count: 6,
                        instance_count: 1,
                    },
            ),
            !drew ==> final(gpu).commands() == old(gpu).commands(),
            final(gpu).counters_unchanged(*old(gpu)),
            final(gpu).num_images() == old(gpu).num_images(),
            forall|i: usize|
                i < old(gpu).num_images() ==> #[trigger] final(gpu).layout_of(i) == old(
                    gpu,
                ).layout_of(i) && final(gpu).image_is_live(i) == old(gpu).image_is_live(i),
    {
        let mut i: usize = 0;
        while i < self.descriptor_sets.len()
            invariant
                *gpu == *old(gpu),
                old(gpu).wf(),
                self.wf(),
                self.valid_in(*old(gpu)),
                i <= self.spec_bindings().len(),
                self.descriptor_sets@.len() == self.spec_bindings().len(),
                forall|k: int| 0 <= k < i ==> self.spec_bindings()[k].reference != font@,
            decreases self.spec_bindings().len() - i,
        {
            proof {
                assert(self.spec_bindings()[i as int] == binding_view(
                    self.descriptor_sets@[i as int],
                ));
            }
            if self.descriptor_sets[i].reference.eq(font) {
                proof {
                    assert(has_binding(self.spec_bindings(), font@));
                    let w = choose|k: int|
                        0 <= k < self.spec_bindings().len() && self.spec_bindings()[
                        k
                    ].reference == font@;
                    if w < i as int {
                        assert(self.spec_bindings()[w].reference != self.spec_bindings()[
                        i as int].reference);
                    }
                    if (i as int) < w {
                        assert(self.spec_bindings()[i as int].reference != self.spec_bindings()[
                        w].reference);
                    }
                    assert(w == i as int);
                    assert(bound_image(self.spec_bindings(), font@) == Some(
                        self.spec_bindings()[i as int].image,
                    ));
                }
                let image = self.descriptor_sets[i].image;
                let ghost cmd = GpuCommand::DrawIndexed {
                    image: self.spec_bindings()[i as int].image,
                    index_count: 6,
                    instance_count: 1,
                };
                let mut g: usize = 0;
                while g < glyph_count
                    invariant
                        g <= glyph_count,
                        gpu.wf(),
                        image == self.spec_bindings()[i as int].image,
                        i < self.spec_bindings().len(),
                        self.valid_in(*old(gpu)),
                        gpu.num_images() == old(gpu).num_images(),
                        forall|k: usize|
                            k < old(gpu).num_images() ==> #[trigger] gpu.layout_of(k) == old(
                                gpu,
                            ).layout_of(k) && gpu.image_is_live(k) == old(gpu).image_is_live(k),
                        gpu.counters_unchanged(*old(gpu)),
                        gpu.commands() == old(gpu).commands() + Seq::new(
                            g as nat,
                            |k: int| cmd,
                        ),
                        cmd == (GpuCommand::DrawIndexed {
                            image: self.spec_bindings()[i as int].image,
                            index_count: 6,
                            instance_count: 1,
                        }),
                    decreases glyph_count - g,
                {
                    gpu.draw_indexed(image, 6, 1);
                    g = g + 1;
                    proof {
                        assert(gpu.commands() =~= old(gpu).commands() + Seq::new(
                            g as nat,
                            |k: int| cmd,
                        ));
                    }
                }
                return true;
            }
            i = i + 1;
        }
        proof {
            assert(!has_binding(self.spec_bindings(), font@));
            assert(gpu.commands() =~= old(gpu).commands());
        }
        false
    }

    /// Rebuild the render target against a new extent after swapchain
    /// recreation: everything is torn down and created again, one
    /// framebuffer per swapchain image.
    pub fn recreate(&mut self, gpu: &mut GpuContext, image_count: usize, width: u32, height: u32)
        requires
            old(gpu).wf(),
            old(self).wf(),
            image_count >= 1,
            old(self).spec_target().counts_match(image_count),
            old(gpu).spec_framebuffers_destroyed() + old(self).spec_target().spec_framebuffers().len()
                + old(self).spec_target().spec_colour_attachments().len() + old(
                self,
            ).spec_target().spec_msaa_attachments().len() <= old(gpu).spec_framebuffers_created(),
            old(gpu).spec_framebuffers_created() + RenderPassTarget::objects_per_build(
                old(self).spec_target().spec_msaa(),
                image_count,
            ) <= u64::MAX,
        ensures
            final(gpu).wf(),
            final(self).wf(),
            final(self).spec_target().counts_match(image_count),
            final(self).spec_target().spec_msaa() == old(self).spec_target().spec_msaa(),
            final(self).spec_target().spec_width() == width,
            final(self).spec_target().spec_height() == height,
            final(self).spec_bindings() == old(self).spec_bindings(),
            final(self).spec_instanced_bindings() == old(self).spec_instanced_bindings(),
            final(self).spec_batches() == old(self).spec_batches(),
            final(self).spec_uniform_slots() == old(self).spec_uniform_slots(),
            final(self).uniform_slots_destroyed() == old(self).uniform_slots_destroyed(),
            final(self).spec_vertex_destroyed() == old(self).spec_vertex_destroyed(),
            final(self).spec_index_destroyed() == old(self).spec_index_destroyed(),
            forall|i: int|
                0 <= i < old(self).spec_batches().len() ==> #[trigger] final(self).spec_batch_buffer_destroyed(i)
                    == old(self).spec_batch_buffer_destroyed(i) && final(self).spec_batch_slot_count(i)
                    == old(self).spec_batch_slot_count(i),
            final(gpu).spec_framebuffers_destroyed() == old(gpu).spec_framebuffers_destroyed()
                + RenderPassTarget::objects_per_build(
                old(self).spec_target().spec_msaa(),
                image_count,
            ),
            final(gpu).spec_framebuffers_created() == old(gpu).spec_framebuffers_created()
                + RenderPassTarget::objects_per_build(
                old(self).spec_target().spec_msaa(),
                image_count,
            ),
            final(gpu).spec_buffers_created() == old(gpu).spec_buffers_created(),
            final(gpu).spec_buffers_destroyed() == old(gpu).spec_buffers_destroyed(),
            final(gpu).spec_next_token() == old(gpu).spec_next_token(),
            final(gpu).spec_resolved_below() == old(gpu).spec_resolved_below(),
            final(gpu).commands() == old(gpu).commands(),
            final(gpu).num_images() == old(gpu).num_images(),
            forall|i: usize|
                i < old(gpu).num_images() ==> #[trigger] final(gpu).layout_of(i) == old(
                    gpu,
                ).layout_of(i) && final(gpu).image_is_live(i) == old(gpu).image_is_live(i),
            forall|gpu2: GpuContext| old(self).valid_in(gpu2) ==> final(self).valid_in(gpu2),
    {
        self.target.recreate(gpu, image_count, width, height);
        proof {
            assert(self.spec_bindings() =~= old(self).spec_bindings());
            assert(self.spec_instanced_bindings() =~= old(self).spec_instanced_bindings());
            assert(self.spec_batches() =~= old(self).spec_batches());
        }
    }

    /// Write this frame's uniform data into its own slot, leaving every
    /// other frame's slot untouched.
    pub fn update_uniform(&mut self, current_buffer: usize, data: Vec<Rational>)
        requires
            !old(self).uniform_slots_destroyed(),
            current_buffer < old(self).spec_uniform_slots().len(),
        ensures
            final(self).spec_uniform_slots() == old(self).spec_uniform_slots().update(
                current_buffer as int,
                data@,
            ),
            !final(self).uniform_slots_destroyed(),
            final(self).spec_bindings() == old(self).spec_bindings(),
            final(self).spec_instanced_bindings() == old(self).spec_instanced_bindings(),
            final(self).spec_batches() == old(self).spec_batches(),
            final(self).spec_target() == old(self).spec_target(),
            final(self).spec_vertex_destroyed() == old(self).spec_vertex_destroyed(),
            final(self).spec_index_destroyed() == old(self).spec_index_destroyed(),
            forall|i: int|
                0 <= i < old(self).spec_batches().len() ==> #[trigger] final(self).spec_batch_buffer_destroyed(i)
                    == old(self).spec_batch_buffer_destroyed(i) && final(self).spec_batch_slot_count(i)
                    == old(self).spec_batch_slot_count(i),
    {
        self.uniform_buffer.fill_buffer(current_buffer, data);
        proof {
            assert(self.spec_bindings() =~= old(self).spec_bindings());
            assert(self.spec_instanced_bindings() =~= old(self).spec_instanced_bindings());
            assert(self.spec_batches() =~= old(self).spec_batches());
        }
    }

    /// The per-frame uniform slots.
    pub closed spec fn spec_uniform_slots(self) -> Seq<Seq<Rational>> {
        self.uniform_buffer.spec_slots()
    }

    pub closed spec fn uniform_slots_destroyed(self) -> bool {
        self.uniform_buffer.is_destroyed()
    }

    /// Register an instanced sprite batch under a new reference, with a
    /// host-visible buffer of one slot per swapchain image. An existing
    /// reference is left untouched.
    pub fn add_instanced_buffer(
        &mut self,
        gpu: &mut GpuContext,
        image_views: usize,
        reference: String,
    )
        requires
            old(self).wf(),
            old(gpu).wf(),
            image_views >= 1,
            old(gpu).spec_buffers_created() < u64::MAX,
        ensures
            final(self).wf(),
            final(gpu).wf(),
            final(self).spec_bindings() == old(self).spec_bindings(),
            final(self).spec_instanced_bindings() == old(self).spec_instanced_bindings(),
            final(self).spec_target() == old(self).spec_target(),
            final(self).spec_batches() == if exists|i: int|
                0 <= i < old(self).spec_batches().len() && (#[trigger] old(self).spec_batches()[
                    i
                ].0) == reference@ {
                old(self).spec_batches()
            } else {
                old(self).spec_batches().push((reference@, 0int))
            },
            final(self).spec_uniform_slots() == old(self).spec_uniform_slots(),
            final(self).uniform_slots_destroyed() == old(self).uniform_slots_destroyed(),
            final(self).spec_vertex_destroyed() == old(self).spec_vertex_destroyed(),
            final(self).spec_index_destroyed() == old(self).spec_index_destroyed(),
            forall|i: int|
                0 <= i < old(self).spec_batches().len() ==> #[trigger] final(self).spec_batch_buffer_destroyed(i)
                    == old(self).spec_batch_buffer_destroyed(i) && final(self).spec_batch_slot_count(i)
                    == old(self).spec_batch_slot_count(i),
            final(self).spec_batches().len() > old(self).spec_batches().len() ==> !final(self).spec_batch_buffer_destroyed(old(self).spec_batches().len() as int) && final(self).spec_batch_slot_count(old(self).spec_batches().len() as int) == image_views,
            final(gpu).spec_buffers_created() == old(gpu).spec_buffers_created() + (
            if exists|i: int|
                0 <= i < old(self).spec_batches().len() && (#[trigger] old(self).spec_batches()[
                    i
                ].0) == reference@ {
                0int
            } else {
                1int
            }),
            final(gpu).spec_buffers_destroyed() == old(gpu).spec_buffers_destroyed(),
            final(gpu).commands() == old(gpu).commands(),
            final(gpu).num_images() == old(gpu).num_images(),
            forall|i: usize|
                i < old(gpu).num_images() ==> #[trigger] final(gpu).layout_of(i) == old(
                    gpu,
                ).layout_of(i) && final(gpu).image_is_live(i) == old(gpu).image_is_live(i),
            final(gpu).spec_next_token() == old(gpu).spec_next_token(),
            final(gpu).spec_resolved_below() == old(gpu).spec_resolved_below(),
            final(gpu).spec_framebuffers_created() == old(gpu).spec_framebuffers_created(),
            final(gpu).spec_framebuffers_destroyed() == old(gpu).spec_framebuffers_destroyed(),
    {
        let ghost b0 = self.spec_batches();
        let mut i: usize = 0;
        while i < self.batches.len()
            invariant
                *self == *old(self),
                *gpu == *old(gpu),
                old(self).wf(),
                old(gpu).wf(),
                old(gpu).spec_buffers_created() < u64::MAX,
                self.spec_batches() == b0,
                self.batches@.len() == b0.len(),
                i <= b0.len(),
                forall|k: int| 0 <= k < i ==> b0[k].0 != reference@,
            decreases b0.len() - i,
        {
            proof {
                assert(self.spec_batches()[i as int].0 == self.batches@[i as int].reference@);
            }
            if self.batches[i].reference.eq(&reference) {
                proof {
                    assert(exists|k: int| 0 <= k < b0.len() && (#[trigger] b0[k].0) == reference@);
                }
                return ;
            }
            i = i + 1;
        }
        let usage = BufferUsage::vertex_transfer_src_buffer();
        let data: Vec<Rational> = Vec::new();
        let buffer: MemoryBoundBuffer<Rational> = MemoryBoundBuffer::cpu_buffer(
            gpu,
            usage,
            image_views,
            data,
        );
        self.batches.push(InstancedBatch { reference, pending: Vec::new(), buffer });
        proof {
            assert(self.spec_batches() =~= b0.push((reference@, 0int)));
            assert(!(exists|k: int| 0 <= k < b0.len() && (#[trigger] b0[k].0) == reference@));
            assert(self.spec_bindings() =~= old(self).spec_bindings());
            assert(self.spec_instanced_bindings() =~= old(self).spec_instanced_bindings());
            let n = b0.len() as int;
            assert forall|a: int, b: int|
                0 <= a < b < self.spec_batches().len() implies self.spec_batches()[a].0 != self
                .spec_batches()[b].0 by {
                if b < n {
                    assert(self.spec_batches()[a] == b0[a] && self.spec_batches()[b] == b0[b]);
                } else {
                    assert(self.spec_batches()[a] == b0[a]);
                    if b0[a].0 == reference@ {
                        assert(exists|k: int|
                            0 <= k < b0.len() && (#[trigger] b0[k].0) == reference@);
                    }
                }
            }
        }
    }

    /// Queue one instance into a batch. Fails loudly on an unknown batch
    /// or when the batch is at its fixed capacity — never truncates
    /// silently.
    pub fn add_instanced_draw(&mut self, buffer_reference: &String, data: TextureInstanceData) -> (r:
        Result<(), ShaderError>)
        requires
            old(self).wf(),
        ensures
            final(self).wf(),
            final(self).spec_bindings() == old(self).spec_bindings(),
            final(self).spec_instanced_bindings() == old(self).spec_instanced_bindings(),
            final(self).spec_target() == old(self).spec_target(),
            final(self).spec_uniform_slots() == old(self).spec_uniform_slots(),
            final(self).uniform_slots_destroyed() == old(self).uniform_slots_destroyed(),
            final(self).spec_vertex_destroyed() == old(self).spec_vertex_destroyed(),
            final(self).spec_index_destroyed() == old(self).spec_index_destroyed(),
            final(self).spec_batches().len() == old(self).spec_batches().len(),
            forall|i: int|
                0 <= i < old(self).spec_batches().len() ==> #[trigger] final(self).spec_batch_buffer_destroyed(i)
                    == old(self).spec_batch_buffer_destroyed(i) && final(self).spec_batch_slot_count(i)
                    == old(self).spec_batch_slot_count(i),
            ({
                let found = exists|i: int|
                    0 <= i < old(self).spec_batches().len() && (#[trigger] old(
                        self,
                    ).spec_batches()[i].0) == buffer_reference@;
                if !found {
                    r == Result::<(), ShaderError>::Err(ShaderError::UnknownBuffer) && final(self).spec_batches() == old(self).spec_batches()
                } else {
                    let i = choose|i: int|
                        0 <= i < old(self).spec_batches().len() && (#[trigger] old(
                            self,
                        ).spec_batches()[i].0) == buffer_reference@;
                    if old(self).spec_batches()[i].1 >= MAX_INSTANCES {
                        r == Result::<(), ShaderError>::Err(ShaderError::InstanceCapacityExceeded)
                            && final(self).spec_batches() == old(self).spec_batches()
                    } else {
                        r is Ok && final(self).spec_batches() == old(self).spec_batches().update(
                            i,
                            (buffer_reference@, old(self).spec_batches()[i].1 + 1),
                        )
                    }
                }
            }),
    {
        let ghost b0 = self.spec_batches();
        let mut i: usize = 0;
        while i < self.batches.len()
            invariant
                *self == *old(self),
                old(self).wf(),
                self.spec_batches() == b0,
                self.batches@.len() == b0.len(),
                i <= b0.len(),
                forall|k: int| 0 <= k < i ==> b0[k].0 != buffer_reference@,
            decreases b0.len() - i,
        {
            proof {
                assert(self.spec_batches()[i as int].0 == self.batches@[i as int].reference@);
                assert(self.spec_batches()[i as int].1 == self.batches@[i as int].pending@.len());
            }
            if self.batches[i].reference.eq(buffer_reference) {
                proof {
                    assert(exists|k: int|
                        0 <= k < b0.len() && (#[trigger] b0[k].0) == buffer_reference@);
                    let w = choose|k: int|
                        0 <= k < b0.len() && (#[trigger] b0[k].0) == buffer_reference@;
                    if w < i as int {
                        assert(b0[w].0 != b0[i as int].0);
                    }
                    if (i as int) < w {
                        assert(b0[i as int].0 != b0[w].0);
                    }
                    assert(w == i as int);
                }
                if self.batches[i].pending.len() >= MAX_INSTANCES {
                    return Err(ShaderError::InstanceCapacityExceeded);
                }
                let batch = &mut self.batches[i];
                batch.pending.push(data);
                proof {
                    assert(self.spec_batches() =~= b0.update(
                        i as int,
                        (buffer_reference@, b0[i as int].1 + 1),
                    ));
                    assert forall|a: int, b: int|
                        0 <= a < b < self.spec_batches().len() implies self.spec_batches()[a].0
                        != self.spec_batches()[b].0 by {
                        assert(self.spec_batches()[a].0 == b0[a].0);
                        assert(self.spec_batches()[b].0 == b0[b].0);
                    }
                    assert(self.spec_bindings() =~= old(self).spec_bindings());
                    assert(self.spec_instanced_bindings() =~= old(self).spec_instanced_bindings());
                }
                return Ok(());
            }
            i = i + 1;
        }
        proof {
            assert(!(exists|k: int| 0 <= k < b0.len() && (#[trigger] b0[k].0) == buffer_reference@));
        }
        Err(ShaderError::UnknownBuffer)
    }

    /// Flush a batch's queued instances into its per-frame slot and record
    /// one instanced draw sampling the bound texture. An unknown or empty
    /// batch, or a frame index outside the buffer, draws nothing.
    pub fn draw_instanced(
        &mut self,
        gpu: &mut GpuContext,
        current_buffer: usize,
        buffer_reference: &String,
        texture_reference: &String,
    ) -> (drew: bool)
        requires
            old(self).wf(),
            old(gpu).wf(),
            old(self).valid_in(*old(gpu)),
            has_binding(old(self).spec_instanced_bindings(), texture_reference@),
        ensures
            final(self).wf(),
            final(gpu).wf(),
            final(self).valid_in(*final(gpu)),
            final(self).spec_bindings() == old(self).spec_bindings(),
            final(self).spec_instanced_bindings() == old(self).spec_instanced_bindings(),
            final(self).spec_target() == old(self).spec_target(),
            final(self).spec_uniform_slots() == old(self).spec_uniform_slots(),
            final(self).uniform_slots_destroyed() == old(self).uniform_slots_destroyed(),
            final(self).spec_vertex_destroyed() == old(self).spec_vertex_destroyed(),
            final(self).spec_index_destroyed() == old(self).spec_index_destroyed(),
            final(self).spec_batches().len() == old(self).spec_batches().len(),
            forall|i: int|
                0 <= i < old(self).spec_batches().len() ==> #[trigger] final(self).spec_batch_buffer_destroyed(i)
                    == old(self).spec_batch_buffer_destroyed(i) && final(self).spec_batch_slot_count(i)
                    == old(self).spec_batch_slot_count(i),
            drew ==> ({
                let i = choose|i: int|
                    0 <= i < old(self).spec_batches().len() && (#[trigger] old(
                        self,
                    ).spec_batches()[i].0) == buffer_reference@;
                &&& 0 <= i < old(self).spec_batches().len()
                &&& old(self).spec_batches()[i].1 > 0
                &&& final(self).spec_batches() == old(self).spec_batches().update(
                    i,
                    (buffer_reference@, 0int),
                )
                &&& final(gpu).commands() == old(gpu).commands().push(
                    GpuCommand::DrawIndexed {
                        image: bound_image(
                            old(self).spec_instanced_bindings(),
                            texture_reference@,
                        )->Some_0,
                        index_count: 6,
                        instance_count: old(self).spec_batches()[i].1 as u32,
                    },
                )
            }),
            !drew ==> final(self).spec_batches() == old(self).spec_batches() && final(gpu).commands() == old(gpu).commands(),
            drew <==> ((exists|i: int|
                0 <= i < old(self).spec_batches().len() && (#[trigger] old(self).spec_batches()[
                    i
                ].0) == buffer_reference@) && ({
                let i = choose|i: int|
                    0 <= i < old(self).spec_batches().len() && (#[trigger] old(
                        self,
                    ).spec_batches()[i].0) == buffer_reference@;
                &&& old(self).spec_batches()[i].1 > 0
                &&& !old(self).spec_batch_buffer_destroyed(i)
                &&& current_buffer < old(self).spec_batch_slot_count(i)
            })),
            final(gpu).counters_unchanged(*old(gpu)),
            final(gpu).num_images() == old(gpu).num_images(),
            forall|i: usize|
                i < old(gpu).num_images() ==> #[trigger] final(gpu).layout_of(i) == old(
                    gpu,
                ).layout_of(i) && final(gpu).image_is_live(i) == old(gpu).image_is_live(i),
    {
        let ghost b0 = self.spec_batches();
        let image = match self.find_instanced_image(texture_reference) {
            Some(id) => id,
            None => {
                return false;
            },
        };
        let mut i: usize = 0;
        while i < self.batches.len()
            invariant
                *self == *old(self),
                *gpu == *old(gpu),
                old(self).wf(),
                old(gpu).wf(),
                old(self).valid_in(*old(gpu)),
                self.spec_batches() == b0,
                self.batches@.len() == b0.len(),
                i <= b0.len(),
                image == bound_image(
                    old(self).spec_instanced_bindings(),
                    texture_reference@,
                )->Some_0,
                image < old(gpu).num_images(),
                old(gpu).image_is_live(image),
                old(gpu).layout_of(image) is ShaderReadOnlyOptimal,
                forall|k: int| 0 <= k < i ==> b0[k].0 != buffer_reference@,
            decreases b0.len() - i,
        {
            proof {
                assert(self.spec_batches()[i as int].0 == self.batches@[i as int].reference@);
                assert(self.spec_batches()[i as int].1 == self.batches@[i as int].pending@.len());
            }
            if self.batches[i].reference.eq(buffer_reference) {
                proof {
                    assert(exists|k: int|
                        0 <= k < b0.len() && (#[trigger] b0[k].0) == buffer_reference@);
                    let w = choose|k: int|
                        0 <= k < b0.len() && (#[trigger] b0[k].0) == buffer_reference@;
                    if w < i as int {
                        assert(b0[w].0 != b0[i as int].0);
                    }
                    if (i as int) < w {
                        assert(b0[i as int].0 != b0[w].0);
                    }
                    assert(w == i as int);
                }
                proof {
                    assert(old(self).spec_batch_buffer_destroyed(i as int) == self.batches@[
                        i as int].buffer.is_destroyed());
                    assert(old(self).spec_batch_slot_count(i as int) == self.batches@[
                        i as int].buffer.spec_slots().len());
                }
                let n = self.batches[i].pending.len();
                if n == 0 {
                    return false;
                }
                if self.batches[i].buffer.is_buffer_destroyed() {
                    return false;
                }
                if current_buffer >= self.batches[i].buffer.slot_count() {
                    return false;
                }
                let flat = flatten_instances(&self.batches[i].pending);
                let batch = &mut self.batches[i];
                batch.buffer.fill_buffer(current_buffer, flat);
                batch.pending = Vec::new();
                proof {
                    assert(n <= MAX_INSTANCES);
                    assert(self.spec_batches() =~= b0.update(
                        i as int,
                        (buffer_reference@, 0int),
                    ));
                    assert forall|a: int, b: int|
                        0 <= a < b < self.spec_batches().len() implies self.spec_batches()[a].0
                        != self.spec_batches()[b].0 by {
                        assert(self.spec_batches()[a].0 == b0[a].0);
                        assert(self.spec_batches()[b].0 == b0[b].0);
                    }
                    assert(self.spec_bindings() =~= old(self).spec_bindings());
                    assert(self.spec_instanced_bindings() =~= old(self).spec_instanced_bindings());
                }
                gpu.draw_indexed(image, 6, n as u32);
                return true;
            }
            i = i + 1;
        }
        false
    }

    /// The image bound for instanced draws under this reference.
    fn find_instanced_image(&self, reference: &String) -> (r: Option<usize>)
        requires
            self.wf(),
        ensures
            r == bound_image(self.spec_instanced_bindings(), reference@),
    {
        let mut i: usize = 0;
        while i < self.instanced_descriptor_sets.len()
            invariant
                self.wf(),
                i <= self.spec_instanced_bindings().len(),
                self.instanced_descriptor_sets@.len() == self.spec_instanced_bindings().len(),
                forall|k: int|
                    0 <= k < i ==> self.spec_instanced_bindings()[k].reference != reference@,
            decreases self.spec_instanced_bindings().len() - i,
        {
            proof {
                assert(self.spec_instanced_bindings()[i as int] == binding_view(
                    self.instanced_descriptor_sets@[i as int],
                ));
            }
            if self.instanced_descriptor_sets[i].reference.eq(reference) {
                proof {
                    let bs = self.spec_instanced_bindings();
                    assert(has_binding(bs, reference@));
                    let w = choose|k: int| 0 <= k < bs.len() && bs[k].reference == reference@;
                    if w < i as int {
                        assert(bs[w].reference != bs[i as int].reference);
                    }
                    if (i as int) < w {
                        assert(bs[i as int].reference != bs[w].reference);
                    }
                    assert(w == i as int);
                }
                return Some(self.instanced_descriptor_sets[i].image);
            }
            i = i + 1;
        }
        proof {
            assert(!has_binding(self.spec_instanced_bindings(), reference@));
        }
        None
    }

    /// Tear down every buffer of this shader set and its render target.
    /// Only valid once the device is idle.
    pub fn destroy(&mut self, gpu: &mut GpuContext)
        requires
            old(self).wf(),
            old(gpu).wf(),
            old(gpu).is_idle(),
            !old(self).spec_vertex_destroyed(),
            !old(self).spec_index_destroyed(),
            !old(self).uniform_slots_destroyed(),
            forall|i: int|
                0 <= i < old(self).spec_batch_buffer_count() ==> !(#[trigger] old(
                    self,
                ).spec_batch_buffer_destroyed(i)),
            old(gpu).spec_buffers_destroyed() + 3 + old(self).spec_batch_buffer_count() <= old(
                gpu,
            ).spec_buffers_created(),
            old(gpu).spec_framebuffers_destroyed() + old(
                self,
            ).spec_target().spec_framebuffers().len() + old(
                self,
            ).spec_target().spec_colour_attachments().len() + old(
                self,
            ).spec_target().spec_msaa_attachments().len() <= old(gpu).spec_framebuffers_created(),
        ensures
            final(gpu).wf(),
            final(gpu).is_idle(),
            final(gpu).commands() == old(gpu).commands(),
            final(gpu).spec_buffers_destroyed() == old(gpu).spec_buffers_destroyed() + 3 + old(
                self,
            ).spec_batch_buffer_count(),
            final(gpu).spec_buffers_created() == old(gpu).spec_buffers_created(),
            final(gpu).spec_framebuffers_destroyed() == old(gpu).spec_framebuffers_destroyed()
                + old(self).spec_target().spec_framebuffers().len() + old(
                self,
            ).spec_target().spec_colour_attachments().len() + old(
                self,
            ).spec_target().spec_msaa_attachments().len(),
            final(gpu).spec_framebuffers_created() == old(gpu).spec_framebuffers_created(),
            final(gpu).num_images() == old(gpu).num_images(),
            forall|i: usize|
                i < old(gpu).num_images() ==> #[trigger] final(gpu).layout_of(i) == old(
                    gpu,
                ).layout_of(i) && final(gpu).image_is_live(i) == old(gpu).image_is_live(i),
    {
        proof {
            old(gpu).lemma_wf_counters();
        }
        self.uniform_buffer.destroy(gpu);
        self.index_buffer.destroy(gpu);
        self.vertex_buffer.destroy(gpu);
        let ghost nb = self.batches@.len() as int;
        proof {
            assert(self.batches@ == old(self).batches@);
            assert forall|i: int|
                0 <= i < self.batches@.len() implies !(#[trigger] self.batches@[
                i
            ].buffer.is_destroyed()) by {
                assert(!old(self).spec_batch_buffer_destroyed(i));
            }
        }
        while self.batches.len() > 0
            invariant
                gpu.wf(),
                gpu.is_idle(),
                self.batches@.len() <= nb,
                forall|i: int|
                    0 <= i < self.batches@.len() ==> !(#[trigger] self.batches@[
                    i
                ].buffer.is_destroyed()),
                self.spec_target() == old(self).spec_target(),
                old(gpu).spec_framebuffers_destroyed() + old(
                    self,
                ).spec_target().spec_framebuffers().len() + old(
                    self,
                ).spec_target().spec_colour_attachments().len() + old(
                    self,
                ).spec_target().spec_msaa_attachments().len() <= old(
                    gpu,
                ).spec_framebuffers_created(),
                gpu.commands() == old(gpu).commands(),
                gpu.spec_buffers_destroyed() == old(gpu).spec_buffers_destroyed() + 3 + (nb
                    - self.batches@.len()),
                old(gpu).spec_buffers_destroyed() + 3 + nb <= old(gpu).spec_buffers_created(),
                gpu.spec_buffers_created() == old(gpu).spec_buffers_created(),
                gpu.spec_framebuffers_destroyed() == old(gpu).spec_framebuffers_destroyed(),
                gpu.spec_framebuffers_created() == old(gpu).spec_framebuffers_created(),
                gpu.spec_next_token() == old(gpu).spec_next_token(),
                gpu.spec_resolved_below() == old(gpu).spec_resolved_below(),
                gpu.num_images() == old(gpu).num_images(),
                forall|i: usize|
                    i < old(gpu).num_images() ==> #[trigger] gpu.layout_of(i) == old(
                        gpu,
                    ).layout_of(i) && gpu.image_is_live(i) == old(gpu).image_is_live(i),
            decreases self.batches@.len(),
        {
            let ghost pre = self.batches@;
            let popped = self.batches.pop();
            proof {
                assert(self.batches@ =~= pre.drop_last());
            }
            match popped {
                Some(mut batch) => {
                    proof {
                        assert(batch == pre[pre.len() - 1]);
                    }
                    batch.buffer.destroy(gpu);
                },
                None => {},
            }
        }
        self.target.destroy(gpu);
    }

    pub closed spec fn spec_vertex_destroyed(self) -> bool {
        self.vertex_buffer.is_destroyed()
    }

    pub closed spec fn spec_index_destroyed(self) -> bool {
        self.index_buffer.is_destroyed()
    }

    pub closed spec fn spec_batch_buffer_count(self) -> int {
        self.spec_batches().len() as int
    }

    pub closed spec fn spec_batch_buffer_destroyed(self, i: int) -> bool {
        self.batches@[i].buffer.is_destroyed()
    }

    /// How many per-frame slots batch `i`'s buffer was sized with.
    pub closed spec fn spec_batch_slot_count(self, i: int) -> int {
        self.batches@[i].buffer.spec_slots().len() as int
    }
}

/// The flat layout of queued instances: twelve components each, model
/// first, then colour, then the sprite-sheet cell.
pub open spec fn flat_layout(instances: Seq<TextureInstanceData>, r: Seq<Rational>) -> bool {
    &&& r.len() == 12 * instances.len()
    &&& forall|k: int, c: int|
        0 <= k < instances.len() && 0 <= c < 4 ==> #[trigger] r[12 * k + c]
            == instances[k].model[c]
    &&& forall|k: int, c: int|
        0 <= k < instances.len() && 0 <= c < 4 ==> #[trigger] r[12 * k + 4 + c]
            == instances[k].colour[c]
    &&& forall|k: int, c: int|
        0 <= k < instances.len() && 0 <= c < 4 ==> #[trigger] r[12 * k + 8 + c]
            == instances[k].sprite_sheet[c]
}

/// Lay a batch's instances out as the flat stream the vertex stage reads:
/// model, colour and sprite-sheet cell, four components each.
pub fn flatten_instances(instances: &Vec<TextureInstanceData>) -> (r: Vec<Rational>)
    ensures
        flat_layout(instances@, r@),
{
    let mut out: Vec<Rational> = Vec::new();
    let mut i: usize = 0;
    while i < instances.len()
        invariant
            i <= instances@.len(),
            out@.len() == 12 * i,
            forall|k: int, c: int|
                0 <= k < i && 0 <= c < 4 ==> #[trigger] out@[12 * k + c] == instances@[k].model[c],
            forall|k: int, c: int|
                0 <= k < i && 0 <= c < 4 ==> #[trigger] out@[12 * k + 4 + c] == instances@[
                    k
                ].colour[c],
            forall|k: int, c: int|
                0 <= k < i && 0 <= c < 4 ==> #[trigger] out@[12 * k + 8 + c] == instances@[
                    k
                ].sprite_sheet[c],
        decreases instances@.len() - i,
    {
        let inst = instances[i];
        let mut c: usize = 0;
        while c < 4
            invariant
                c <= 4,
                i < instances@.len(),
                inst == instances@[i as int],
                out@.len() == 12 * i + c,
                forall|k: int, d: int|
                    0 <= k < i && 0 <= d < 4 ==> #[trigger] out@[12 * k + d] == instances@[
                        k
                    ].model[d],
                forall|k: int, d: int|
                    0 <= k < i && 0 <= d < 4 ==> #[trigger] out@[12 * k + 4 + d] == instances@[
                        k
                    ].colour[d],
                forall|k: int, d: int|
                    0 <= k < i && 0 <= d < 4 ==> #[trigger] out@[12 * k + 8 + d] == instances@[
                        k
                    ].sprite_sheet[d],
                forall|d: int| 0 <= d < c ==> #[trigger] out@[12 * i + d] == inst.model[d],
            decreases 4 - c,
        {
            out.push(inst.model[c]);
            c = c + 1;
        }
        c = 0;
        while c < 4
            invariant
                c <= 4,
                i < instances@.len(),
                inst == instances@[i as int],
                out@.len() == 12 * i + 4 + c,
                forall|k: int, d: int|
                    0 <= k < i && 0 <= d < 4 ==> #[trigger] out@[12 * k + d] == instances@[
                        k
                    ].model[d],
                forall|k: int, d: int|
                    0 <= k < i && 0 <= d < 4 ==> #[trigger] out@[12 * k + 4 + d] == instances@[
                        k
                    ].colour[d],
                forall|k: int, d: int|
                    0 <= k < i && 0 <= d < 4 ==> #[trigger] out@[12 * k + 8 + d] == instances@[
                        k
                    ].sprite_sheet[d],
                forall|d: int| 0 <= d < 4 ==> #[trigger] out@[12 * i + d] == inst.model[d],
                forall|d: int| 0 <= d < c ==> #[trigger] out@[12 * i + 4 + d] == inst.colour[d],
            decreases 4 - c,
        {
            out.push(inst.colour[c]);
            c = c + 1;
        }
        c = 0;
        while c < 4
            invariant
                c <= 4,
                i < instances@.len(),
                inst == instances@[i as int],
                out@.len() == 12 * i + 8 + c,
                forall|k: int, d: int|
                    0 <= k < i && 0 <= d < 4 ==> #[trigger] out@[12 * k + d] == instances@[
                        k
                    ].model[d],
                forall|k: int, d: int|
                    0 <= k < i && 0 <= d < 4 ==> #[trigger] out@[12 * k + 4 + d] == instances@[
                        k
                    ].colour[d],
                forall|k: int, d: int|
                    0 <= k < i && 0 <= d < 4 ==> #[trigger] out@[12 * k + 8 + d] == instances@[
                        k
                    ].sprite_sheet[d],
                forall|d: int| 0 <= d < 4 ==> #[trigger] out@[12 * i + d] == inst.model[d],
                forall|d: int| 0 <= d < 4 ==> #[trigger] out@[12 * i + 4 + d] == inst.colour[d],
                forall|d: int|
                    0 <= d < c ==> #[trigger] out@[12 * i + 8 + d] == inst.sprite_sheet[d],
            decreases 4 - c,
        {
            out.push(inst.sprite_sheet[c]);
            c = c + 1;
        }
        i = i + 1;
    }
    out
}

} // verus!
