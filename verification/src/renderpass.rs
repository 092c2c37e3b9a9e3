//! Render pass descriptions and the per-swapchain-image render target:
//! one framebuffer and one colour attachment per presentable image, plus a
//! multisample attachment each when multisampling is on, all torn down and
//! rebuilt together whenever the swapchain is recreated.

use crate::gpu::GpuContext;
use crate::gpu::ImageLayout;
use crate::gpu_image::ImageFormat;
use vstd::prelude::*;

verus! {

#[derive(Clone, Copy, PartialEq, Eq, Structural, Debug)]
pub enum SampleCount {
    OneBit,
    TwoBit,
    FourBit,
    EightBit,
}

#[derive(Clone, Copy, PartialEq, Eq, Structural, Debug)]
pub enum AttachmentLoadOp {
    Clear,
    Load,
    DontCare,
}

#[derive(Clone, Copy, PartialEq, Eq, Structural, Debug)]
pub enum AttachmentStoreOp {
    Store,
    DontCare,
}

/// How one attachment of a render pass is treated.
#[derive(Clone, Copy, PartialEq, Eq, Structural, Debug)]
pub struct AttachmentDescription {
    pub format: ImageFormat,
    pub samples: SampleCount,
    pub load_op: AttachmentLoadOp,
    pub store_op: AttachmentStoreOp,
    pub stencil_load_op: AttachmentLoadOp,
    pub stencil_store_op: AttachmentStoreOp,
    pub initial_layout: ImageLayout,
    pub final_layout: ImageLayout,
}

/// A reference from a subpass to an attachment, with the layout the
/// attachment is in during the subpass.
#[derive(Clone, Copy, PartialEq, Eq, Structural, Debug)]
pub struct AttachmentReference {
    pub attachment: u32,
    pub layout: ImageLayout,
}

/// Stands in for the external pseudo-subpass in dependencies.
pub const SUBPASS_EXTERNAL: u32 = 0xffff_ffff;

/// An execution dependency between two subpasses.
#[derive(Clone, Copy, PartialEq, Eq, Structural, Debug)]
pub struct SubpassDependency {
    pub src_subpass: u32,
    pub dst_subpass: u32,
}

/// A compiled render pass object.
#[derive(Debug)]
pub struct RenderPass {
    attachments: Vec<AttachmentDescription>,
    colour_references: Vec<AttachmentReference>,
    dependencies: Vec<SubpassDependency>,
    num_attachments: u32,
}

/// The attachment description of the single presentable colour target:
/// cleared on load, stored, stencil ignored, ending ready to present.
pub open spec fn presentable_colour_attachment(format: ImageFormat) -> AttachmentDescription {
    AttachmentDescription {
        format,
        samples: SampleCount::OneBit,
        load_op: AttachmentLoadOp::Clear,
        store_op: AttachmentStoreOp::Store,
        stencil_load_op: AttachmentLoadOp::DontCare,
        stencil_store_op: AttachmentStoreOp::DontCare,
        initial_layout: ImageLayout::Undefined,
        final_layout: ImageLayout::PresentSrc,
    }
}

impl RenderPass {
    pub closed spec fn spec_attachments(self) -> Seq<AttachmentDescription> {
        self.attachments@
    }

    pub closed spec fn spec_colour_references(self) -> Seq<AttachmentReference> {
        self.colour_references@
    }

    pub closed spec fn spec_dependencies(self) -> Seq<SubpassDependency> {
        self.dependencies@
    }

    pub closed spec fn spec_num_attachments(self) -> u32 {
        self.num_attachments
    }

    /// Wrap an existing pass object, keeping only its attachment count.
    pub fn new_from_renderpass(num_attachments: u32) -> (r: RenderPass)
        ensures
            r.spec_num_attachments() == num_attachments,
            r.spec_attachments() == Seq::<AttachmentDescription>::empty(),
            r.spec_colour_references() == Seq::<AttachmentReference>::empty(),
            r.spec_dependencies() == Seq::<SubpassDependency>::empty(),
    {
        RenderPass {
            attachments: Vec::new(),
            colour_references: Vec::new(),
            dependencies: Vec::new(),
            num_attachments,
        }
    }

    /// Build the standard single-subpass presentation pass: one colour
    /// attachment cleared on load and left in present layout, referenced in
    /// colour-attachment layout, with the external-in and external-out
    /// dependencies around the subpass.
    pub fn new(format: ImageFormat) -> (r: RenderPass)
        ensures
            r.spec_num_attachments() == 1,
            r.spec_attachments() == seq![presentable_colour_attachment(format)],
            r.spec_colour_references() == seq![
                AttachmentReference {
                    attachment: 0,
                    layout: ImageLayout::ColourAttachmentOptimal,
                },
            ],
            r.spec_dependencies() == seq![
                SubpassDependency { src_subpass: SUBPASS_EXTERNAL, dst_subpass: 0 },
                SubpassDependency { src_subpass: 0, dst_subpass: SUBPASS_EXTERNAL },
            ],
    {
        let mut attachments: Vec<AttachmentDescription> = Vec::new();
        attachments.push(
            AttachmentDescription {
                format,
                samples: SampleCount::OneBit,
                load_op: AttachmentLoadOp::Clear,
                store_op: AttachmentStoreOp::Store,
                stencil_load_op: AttachmentLoadOp::DontCare,
                stencil_store_op: AttachmentStoreOp::DontCare,
                initial_layout: ImageLayout::Undefined,
                final_layout: ImageLayout::PresentSrc,
            },
        );
        let mut colour_references: Vec<AttachmentReference> = Vec::new();
        colour_references.push(
            AttachmentReference { attachment: 0, layout: ImageLayout::ColourAttachmentOptimal },
        );
        let mut dependencies: Vec<SubpassDependency> = Vec::new();
        dependencies.push(SubpassDependency { src_subpass: SUBPASS_EXTERNAL, dst_subpass: 0 });
        dependencies.push(SubpassDependency { src_subpass: 0, dst_subpass: SUBPASS_EXTERNAL });
        let r = RenderPass { attachments, colour_references, dependencies, num_attachments: 1 };
        proof {
            assert(r.spec_attachments() =~= seq![presentable_colour_attachment(format)]);
            assert(r.spec_colour_references() =~= seq![
                AttachmentReference {
                    attachment: 0,
                    layout: ImageLayout::ColourAttachmentOptimal,
                },
            ]);
            assert(r.spec_dependencies() =~= seq![
                SubpassDependency { src_subpass: SUBPASS_EXTERNAL, dst_subpass: 0 },
                SubpassDependency { src_subpass: 0, dst_subpass: SUBPASS_EXTERNAL },
            ]);
        }
        r
    }

    pub fn get_num_attachments(&self) -> (r: u32)
        ensures
            r == self.spec_num_attachments(),
    {
        self.num_attachments
    }
}

/// The per-swapchain-image target of a render pass: its framebuffers, the
/// colour attachment behind each, and (when multisampling) the resolve
/// attachment kept in lock-step with each framebuffer.
pub struct RenderPassTarget {
    render_pass: RenderPass,
    framebuffers: Vec<u64>,
    colour_attachments: Vec<u64>,
    msaa_attachments: Vec<u64>,
    msaa: SampleCount,
    width: u32,
    height: u32,
}

impl RenderPassTarget {
    pub closed spec fn spec_render_pass(self) -> RenderPass {
        self.render_pass
    }

    pub closed spec fn spec_framebuffers(self) -> Seq<u64> {
        self.framebuffers@
    }

    pub closed spec fn spec_colour_attachments(self) -> Seq<u64> {
        self.colour_attachments@
    }

    pub closed spec fn spec_msaa_attachments(self) -> Seq<u64> {
        self.msaa_attachments@
    }

    pub closed spec fn spec_msaa(self) -> SampleCount {
        self.msaa
    }

    pub closed spec fn spec_width(self) -> u32 {
        self.width
    }

    pub closed spec fn spec_height(self) -> u32 {
        self.height
    }

    /// One framebuffer and one colour attachment per swapchain image, and
    /// one multisample attachment each exactly when multisampling is on.
    pub open spec fn counts_match(self, image_count: usize) -> bool {
        &&& self.spec_framebuffers().len() == image_count
        &&& self.spec_colour_attachments().len() == image_count
        &&& self.spec_msaa_attachments().len() == if self.spec_msaa() is OneBit {
            0int
        } else {
            image_count as int
        }
    }

    /// How many GPU objects one build of this target creates (and one
    /// teardown destroys).
    pub open spec fn objects_per_build(msaa: SampleCount, image_count: usize) -> int {
        if msaa is OneBit {
            2 * image_count
        } else {
            3 * image_count
        }
    }

    /// Allocate the attachments and framebuffers for `image_count`
    /// swapchain images against the given extent, taking ownership of the
    /// render pass they are built for.
    pub fn create_frame_buffers(
        gpu: &mut GpuContext,
        render_pass: RenderPass,
        image_count: usize,
        width: u32,
        height: u32,
        msaa: SampleCount,
    ) -> (r: RenderPassTarget)
        requires
            old(gpu).wf(),
            image_count >= 1,
            old(gpu).spec_framebuffers_created() + RenderPassTarget::objects_per_build(
                msaa,
                image_count,
            ) <= u64::MAX,
        ensures
            final(gpu).wf(),
            r.counts_match(image_count),
            r.spec_msaa() == msaa,
            r.spec_width() == width,
            r.spec_height() == height,
            r.spec_render_pass() == render_pass,
            final(gpu).spec_framebuffers_created() == old(gpu).spec_framebuffers_created()
                + RenderPassTarget::objects_per_build(msaa, image_count),
            final(gpu).spec_framebuffers_destroyed() == old(gpu).spec_framebuffers_destroyed(),
            final(gpu).spec_buffers_created() == old(gpu).spec_buffers_created(),
            final(gpu).spec_buffers_destroyed() == old(gpu).spec_buffers_destroyed(),
            final(gpu).spec_next_token() == old(gpu).spec_next_token(),
            final(gpu).spec_resolved_below() == old(gpu).spec_resolved_below(),
            final(gpu).commands() == old(gpu).commands(),
            final(gpu).num_images() == old(gpu).num_images(),
            forall|i: usize|
                i < old(gpu).num_images() ==> #[trigger] final(gpu).layout_of(i) == old(
                    gpu,
                ).layout_of(i) && final(gpu).image_is_live(i) == old(gpu).image_is_live(i),
    {
        let use_msaa = !matches!(msaa, SampleCount::OneBit);
        let mut framebuffers: Vec<u64> = Vec::new();
        let mut colour_attachments: Vec<u64> = Vec::new();
        let mut msaa_attachments: Vec<u64> = Vec::new();
        let mut i: usize = 0;
        while i < image_count
            invariant
                gpu.wf(),
                i <= image_count,
                image_count >= 1,
                use_msaa == !(msaa is OneBit),
                framebuffers@.len() == i,
                colour_attachments@.len() == i,
                msaa_attachments@.len() == if use_msaa {
                    i as int
                } else {
                    0int
                },
                gpu.spec_framebuffers_created() == old(gpu).spec_framebuffers_created() + (
                if use_msaa {
                    3 * i
                } else {
                    2 * i
                }),
                old(gpu).spec_framebuffers_created() + RenderPassTarget::objects_per_build(
                    msaa,
                    image_count,
                ) <= u64::MAX,
                gpu.spec_framebuffers_destroyed() == old(gpu).spec_framebuffers_destroyed(),
                gpu.spec_buffers_created() == old(gpu).spec_buffers_created(),
                gpu.spec_buffers_destroyed() == old(gpu).spec_buffers_destroyed(),
                gpu.spec_next_token() == old(gpu).spec_next_token(),
                gpu.spec_resolved_below() == old(gpu).spec_resolved_below(),
                gpu.commands() == old(gpu).commands(),
                gpu.num_images() == old(gpu).num_images(),
                forall|k: usize|
                    k < old(gpu).num_images() ==> #[trigger] gpu.layout_of(k) == old(
                        gpu,
                    ).layout_of(k) && gpu.image_is_live(k) == old(gpu).image_is_live(k),
            decreases image_count - i,
        {
            let colour = gpu.note_framebuffer_created();
            colour_attachments.push(colour);
            if use_msaa {
                let msaa_image = gpu.note_framebuffer_created();
                msaa_attachments.push(msaa_image);
            }
            let fb = gpu.note_framebuffer_created();
            framebuffers.push(fb);
            i = i + 1;
        }
        RenderPassTarget {
            render_pass,
            framebuffers,
            colour_attachments,
            msaa_attachments,
            msaa,
            width,
            height,
        }
    }

    /// Tear down every framebuffer, colour attachment and multisample
    /// attachment of this target, in lock-step.
    pub fn destroy(&mut self, gpu: &mut GpuContext)
        requires
            old(gpu).wf(),
            old(gpu).spec_framebuffers_destroyed() + old(self).spec_framebuffers().len() + old(
                self,
            ).spec_colour_attachments().len() + old(self).spec_msaa_attachments().len() <= old(
                gpu,
            ).spec_framebuffers_created(),
        ensures
            final(gpu).wf(),
            final(self).spec_framebuffers().len() == 0,
            final(self).spec_colour_attachments().len() == 0,
            final(self).spec_msaa_attachments().len() == 0,
            final(self).spec_msaa() == old(self).spec_msaa(),
            final(self).spec_width() == old(self).spec_width(),
            final(self).spec_height() == old(self).spec_height(),
            final(self).spec_render_pass() == old(self).spec_render_pass(),
            final(gpu).spec_framebuffers_destroyed() == old(gpu).spec_framebuffers_destroyed()
                + old(self).spec_framebuffers().len() + old(self).spec_colour_attachments().len()
                + old(self).spec_msaa_attachments().len(),
            final(gpu).spec_framebuffers_created() == old(gpu).spec_framebuffers_created(),
            final(gpu).spec_buffers_created() == old(gpu).spec_buffers_created(),
            final(gpu).spec_buffers_destroyed() == old(gpu).spec_buffers_destroyed(),
            final(gpu).spec_next_token() == old(gpu).spec_next_token(),
            final(gpu).spec_resolved_below() == old(gpu).spec_resolved_below(),
            final(gpu).commands() == old(gpu).commands(),
            final(gpu).num_images() == old(gpu).num_images(),
            forall|i: usize|
                i < old(gpu).num_images() ==> #[trigger] final(gpu).layout_of(i) == old(
                    gpu,
                ).layout_of(i) && final(gpu).image_is_live(i) == old(gpu).image_is_live(i),
    {
        let ghost fb0 = self.framebuffers@.len() as int;
        let ghost ca0 = self.colour_attachments@.len() as int;
        let ghost ma0 = self.msaa_attachments@.len() as int;
        while self.framebuffers.len() > 0
            invariant
                gpu.wf(),
                fb0 >= 0,
                ca0 >= 0,
                ma0 >= 0,
                self.framebuffers@.len() <= fb0,
                self.colour_attachments@ == old(self).colour_attachments@,
                self.msaa_attachments@ == old(self).msaa_attachments@,
                self.msaa == old(self).msaa,
                self.width == old(self).width,
                self.height == old(self).height,
                self.render_pass == old(self).render_pass,
                gpu.spec_framebuffers_destroyed() == old(gpu).spec_framebuffers_destroyed() + (fb0
                    - self.framebuffers@.len()),
                old(gpu).spec_framebuffers_destroyed() + fb0 + ca0 + ma0 <= old(
                    gpu,
                ).spec_framebuffers_created(),
                gpu.spec_framebuffers_created() == old(gpu).spec_framebuffers_created(),
                gpu.spec_buffers_created() == old(gpu).spec_buffers_created(),
                gpu.spec_buffers_destroyed() == old(gpu).spec_buffers_destroyed(),
                gpu.spec_next_token() == old(gpu).spec_next_token(),
                gpu.spec_resolved_below() == old(gpu).spec_resolved_below(),
                gpu.commands() == old(gpu).commands(),
                gpu.num_images() == old(gpu).num_images(),
                forall|i: usize|
                    i < old(gpu).num_images() ==> #[trigger] gpu.layout_of(i) == old(
                        gpu,
                    ).layout_of(i) && gpu.image_is_live(i) == old(gpu).image_is_live(i),
            decreases self.framebuffers@.len(),
        {
            let _ = self.framebuffers.pop();
            gpu.note_framebuffer_destroyed();
        }
        while self.colour_attachments.len() > 0
            invariant
                gpu.wf(),
                fb0 >= 0,
                ca0 >= 0,
                ma0 >= 0,
                self.framebuffers@.len() == 0,
                self.colour_attachments@.len() <= ca0,
                self.msaa_attachments@ == old(self).msaa_attachments@,
                self.msaa == old(self).msaa,
                self.width == old(self).width,
                self.height == old(self).height,
                self.render_pass == old(self).render_pass,
                gpu.spec_framebuffers_destroyed() == old(gpu).spec_framebuffers_destroyed() + fb0
                    + (ca0 - self.colour_attachments@.len()),
                old(gpu).spec_framebuffers_destroyed() + fb0 + ca0 + ma0 <= old(
                    gpu,
                ).spec_framebuffers_created(),
                gpu.spec_framebuffers_created() == old(gpu).spec_framebuffers_created(),
                gpu.spec_buffers_created() == old(gpu).spec_buffers_created(),
                gpu.spec_buffers_destroyed() == old(gpu).spec_buffers_destroyed(),
                gpu.spec_next_token() == old(gpu).spec_next_token(),
                gpu.spec_resolved_below() == old(gpu).spec_resolved_below(),
                gpu.commands() == old(gpu).commands(),
                gpu.num_images() == old(gpu).num_images(),
                forall|i: usize|
                    i < old(gpu).num_images() ==> #[trigger] gpu.layout_of(i) == old(
                        gpu,
                    ).layout_of(i) && gpu.image_is_live(i) == old(gpu).image_is_live(i),
            decreases self.colour_attachments@.len(),
        {
            let _ = self.colour_attachments.pop();
            gpu.note_framebuffer_destroyed();
        }
        while self.msaa_attachments.len() > 0
            invariant
                gpu.wf(),
                fb0 >= 0,
                ca0 >= 0,
                ma0 >= 0,
                self.framebuffers@.len() == 0,
                self.colour_attachments@.len() == 0,
                self.msaa_attachments@.len() <= ma0,
                self.msaa == old(self).msaa,
                self.width == old(self).width,
                self.height == old(self).height,
                self.render_pass == old(self).render_pass,
                gpu.spec_framebuffers_destroyed() == old(gpu).spec_framebuffers_destroyed() + fb0
                    + ca0 + (ma0 - self.msaa_attachments@.len()),
                old(gpu).spec_framebuffers_destroyed() + fb0 + ca0 + ma0 <= old(
                    gpu,
                ).spec_framebuffers_created(),
                gpu.spec_framebuffers_created() == old(gpu).spec_framebuffers_created(),
                gpu.spec_buffers_created() == old(gpu).spec_buffers_created(),
                gpu.spec_buffers_destroyed() == old(gpu).spec_buffers_destroyed(),
                gpu.spec_next_token() == old(gpu).spec_next_token(),
                gpu.spec_resolved_below() == old(gpu).spec_resolved_below(),
                gpu.commands() == old(gpu).commands(),
                gpu.num_images() == old(gpu).num_images(),
                forall|i: usize|
                    i < old(gpu).num_images() ==> #[trigger] gpu.layout_of(i) == old(
                        gpu,
                    ).layout_of(i) && gpu.image_is_live(i) == old(gpu).image_is_live(i),
            decreases self.msaa_attachments@.len(),
        {
            let _ = self.msaa_attachments.pop();
            gpu.note_framebuffer_destroyed();
        }
    }

    /// Rebuild against a new extent: tear every framebuffer and attachment
    /// down and create the same number again, so nothing leaks across a
    /// recreation. Counts afterwards again equal the swapchain image count.
    pub fn recreate(&mut self, gpu: &mut GpuContext, image_count: usize, width: u32, height: u32)
        requires
            old(gpu).wf(),
            image_count >= 1,
            old(self).counts_match(image_count),
            old(gpu).spec_framebuffers_destroyed() + old(self).spec_framebuffers().len() + old(
                self,
            ).spec_colour_attachments().len() + old(self).spec_msaa_attachments().len() <= old(
                gpu,
            ).spec_framebuffers_created(),
            old(gpu).spec_framebuffers_created() + RenderPassTarget::objects_per_build(
                old(self).spec_msaa(),
                image_count,
            ) <= u64::MAX,
        ensures
            final(gpu).wf(),
            final(self).counts_match(image_count),
            final(self).spec_msaa() == old(self).spec_msaa(),
            final(self).spec_width() == width,
            final(self).spec_height() == height,
            final(self).spec_render_pass() == old(self).spec_render_pass(),
            final(gpu).spec_framebuffers_destroyed() == old(gpu).spec_framebuffers_destroyed()
                + RenderPassTarget::objects_per_build(old(self).spec_msaa(), image_count),
            final(gpu).spec_framebuffers_created() == old(gpu).spec_framebuffers_created()
                + RenderPassTarget::objects_per_build(old(self).spec_msaa(), image_count),
            final(gpu).spec_buffers_created() == old(gpu).spec_buffers_created(),
            final(gpu).spec_buffers_destroyed() == old(gpu).spec_buffers_destroyed(),
            final(gpu).spec_next_token() == old(gpu).spec_next_token(),
            final(gpu).spec_resolved_below() == old(gpu).spec_resolved_below(),
            final(gpu).commands() == old(gpu).commands(),
            final(gpu).num_images() == old(gpu).num_images(),
            forall|i: usize|
                i < old(gpu).num_images() ==> #[trigger] final(gpu).layout_of(i) == old(
                    gpu,
                ).layout_of(i) && final(gpu).image_is_live(i) == old(gpu).image_is_live(i),
    {
        self.destroy(gpu);
        self.width = width;
        self.height = height;
        let ghost mid_gpu = *gpu;
        let use_msaa = !matches!(self.msaa, SampleCount::OneBit);
        let mut i: usize = 0;
        while i < image_count
            invariant
                gpu.wf(),
                i <= image_count,
                image_count >= 1,
                use_msaa == !(self.msaa is OneBit),
                self.msaa == old(self).msaa,
                self.width == width,
                self.height == height,
                self.render_pass == old(self).render_pass,
                self.framebuffers@.len() == i,
                self.colour_attachments@.len() == i,
                self.msaa_attachments@.len() == if use_msaa {
                    i as int
                } else {
                    0int
                },
                gpu.spec_framebuffers_created() == mid_gpu.spec_framebuffers_created() + (
                if use_msaa {
                    3 * i
                } else {
                    2 * i
                }),
                mid_gpu.spec_framebuffers_created() + RenderPassTarget::objects_per_build(
                    old(self).spec_msaa(),
                    image_count,
                ) <= u64::MAX,
                gpu.spec_framebuffers_destroyed() == mid_gpu.spec_framebuffers_destroyed(),
                gpu.spec_buffers_created() == mid_gpu.spec_buffers_created(),
                gpu.spec_buffers_destroyed() == mid_gpu.spec_buffers_destroyed(),
                gpu.spec_next_token() == mid_gpu.spec_next_token(),
                gpu.spec_resolved_below() == mid_gpu.spec_resolved_below(),
                gpu.commands() == mid_gpu.commands(),
                gpu.num_images() == mid_gpu.num_images(),
                forall|k: usize|
                    k < mid_gpu.num_images() ==> #[trigger] gpu.layout_of(k) == mid_gpu.layout_of(
                        k,
                    ) && gpu.image_is_live(k) == mid_gpu.image_is_live(k),
            decreases image_count - i,
        {
            let colour = gpu.note_framebuffer_created();
            self.colour_attachments.push(colour);
            if use_msaa {
                let msaa_image = gpu.note_framebuffer_created();
                self.msaa_attachments.push(msaa_image);
            }
            let fb = gpu.note_framebuffer_created();
            self.framebuffers.push(fb);
            i = i + 1;
        }
        self.width = width;
        self.height = height;
    }

    /// The framebuffer to render into for one acquired image index.
    pub fn framebuffer(&self, index: usize) -> (r: u64)
        requires
            index < self.spec_framebuffers().len(),
        ensures
            r == self.spec_framebuffers()[index as int],
    {
        self.framebuffers[index]
    }

    /// The colour attachment behind one framebuffer.
    pub fn colour_attachment(&self, index: usize) -> (r: u64)
        requires
            index < self.spec_colour_attachments().len(),
        ensures
            r == self.spec_colour_attachments()[index as int],
    {
        self.colour_attachments[index]
    }

    pub fn framebuffer_count(&self) -> (r: usize)
        ensures
            r == self.spec_framebuffers().len(),
    {
        self.framebuffers.len()
    }
}

} // verus!
