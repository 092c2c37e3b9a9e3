//! Device images and the staged upload path: allocate in `Undefined`
//! layout, barrier to `TransferDstOptimal`, copy the staging buffer in,
//! barrier to `ShaderReadOnlyOptimal`, then release the staging buffer.
//! Each step is recorded and submitted before the next starts.

use crate::buffer::BufferUsage;
use crate::buffer::MemoryBoundBuffer;
use crate::gpu::GpuCommand;
use crate::gpu::GpuContext;
use crate::gpu::ImageLayout;
use crate::gpu::transition_allowed;
use vstd::prelude::*;

verus! {

/// Pixel formats the upload path accepts.
#[derive(Clone, Copy, PartialEq, Eq, Structural, Debug)]
pub enum ImageFormat {
    R8G8B8A8Unorm,
    B8G8R8A8Unorm,
    D16Unorm,
}

/// A device image together with its view and backing memory, identified by
/// the id the device handed out. The pixel data it was uploaded from is
/// kept as a ghost value so contracts can speak of the payload.
pub struct GpuImage {
    id: usize,
    width: u32,
    height: u32,
    format: ImageFormat,
    pixels: Ghost<Seq<u8>>,
}

/// The exact command triple that a staged upload records, in order: the
/// barrier into `TransferDstOptimal`, the copy, and the barrier into
/// `ShaderReadOnlyOptimal`.
pub open spec fn upload_commands(image: usize, staging: u64) -> Seq<GpuCommand> {
    seq![
        GpuCommand::Barrier {
            image,
            from_layout: ImageLayout::Undefined,
            to_layout: ImageLayout::TransferDstOptimal,
        },
        GpuCommand::CopyBufferToImage { buffer: staging, image },
        GpuCommand::Barrier {
            image,
            from_layout: ImageLayout::TransferDstOptimal,
            to_layout: ImageLayout::ShaderReadOnlyOptimal,
        },
    ]
}

impl GpuImage {
    pub closed spec fn spec_id(self) -> usize {
        self.id
    }

    pub closed spec fn spec_width(self) -> u32 {
        self.width
    }

    pub closed spec fn spec_height(self) -> u32 {
        self.height
    }

    pub closed spec fn spec_format(self) -> ImageFormat {
        self.format
    }

    /// The RGBA8 payload the image was uploaded from.
    pub closed spec fn spec_pixels(self) -> Seq<u8> {
        self.pixels@
    }

    /// What callers may observe of an image: dimensions and payload, but
    /// not the device-assigned handle.
    pub open spec fn payload_view(self) -> (u32, u32, Seq<u8>) {
        (self.spec_width(), self.spec_height(), self.spec_pixels())
    }

    pub fn get_image(&self) -> (r: usize)
        ensures
            r == self.spec_id(),
    {
        self.id
    }

    pub fn width(&self) -> (r: u32)
        ensures
            r == self.spec_width(),
    {
        self.width
    }

    pub fn height(&self) -> (r: u32)
        ensures
            r == self.spec_height(),
    {
        self.height
    }

    pub fn format(&self) -> (r: ImageFormat)
        ensures
            r == self.spec_format(),
    {
        self.format
    }

    /// A second handle to the same image: same id, dimensions and payload.
    pub fn duplicate(&self) -> (r: GpuImage)
        ensures
            r == *self,
    {
        GpuImage {
            id: self.id,
            width: self.width,
            height: self.height,
            format: self.format,
            pixels: Ghost(self.pixels@),
        }
    }

    /// Allocate a device image in `Undefined` layout with nothing uploaded
    /// yet. The caller drives it through the transfer edges itself:
    /// barrier to `TransferDstOptimal`, copy, barrier to
    /// `ShaderReadOnlyOptimal`.
    pub fn create_undefined(
        gpu: &mut GpuContext,
        width: u32,
        height: u32,
        format: ImageFormat,
    ) -> (r: GpuImage)
        requires
            old(gpu).wf(),
        ensures
            final(gpu).wf(),
            r.spec_id() == old(gpu).num_images(),
            r.spec_width() == width,
            r.spec_height() == height,
            r.spec_format() == format,
            r.spec_pixels() == Seq::<u8>::empty(),
            final(gpu).num_images() == old(gpu).num_images() + 1,
            final(gpu).layout_of(r.spec_id()) is Undefined,
            final(gpu).image_is_live(r.spec_id()),
            forall|i: usize|
                i < old(gpu).num_images() ==> #[trigger] final(gpu).layout_of(i) == old(
                    gpu,
                ).layout_of(i) && final(gpu).image_is_live(i) == old(gpu).image_is_live(i),
            final(gpu).commands() == old(gpu).commands(),
            final(gpu).counters_unchanged(*old(gpu)),
    {
        let id = gpu.create_image();
        GpuImage { id, width, height, format, pixels: Ghost(Seq::empty()) }
    }

    /// Synchronous device-local upload of an RGBA8 pixel buffer. Allocates
    /// the image, records the two supported layout transitions around the
    /// staging copy, and destroys the staging buffer afterwards. On return
    /// the image is ready to be sampled.
    pub fn create_from_bytes(
        gpu: &mut GpuContext,
        pixels: Vec<u8>,
        width: u32,
        height: u32,
        format: ImageFormat,
    ) -> (r: GpuImage)
        requires
            old(gpu).wf(),
            pixels@.len() == 4 * width * height,
            old(gpu).spec_buffers_created() < u64::MAX,
        ensures
            final(gpu).wf(),
            r.spec_id() == old(gpu).num_images(),
            r.spec_width() == width,
            r.spec_height() == height,
            r.spec_format() == format,
            r.spec_pixels() == pixels@,
            final(gpu).num_images() == old(gpu).num_images() + 1,
            final(gpu).layout_of(r.spec_id()) is ShaderReadOnlyOptimal,
            final(gpu).image_is_live(r.spec_id()),
            forall|i: usize|
                i < old(gpu).num_images() ==> #[trigger] final(gpu).layout_of(i) == old(
                    gpu,
                ).layout_of(i) && final(gpu).image_is_live(i) == old(gpu).image_is_live(i),
            final(gpu).commands() == old(gpu).commands() + upload_commands(
                r.spec_id(),
                old(gpu).spec_buffers_created(),
            ),
            final(gpu).spec_buffers_created() == old(gpu).spec_buffers_created() + 1,
            final(gpu).spec_buffers_destroyed() == old(gpu).spec_buffers_destroyed() + 1,
            final(gpu).spec_framebuffers_created() == old(gpu).spec_framebuffers_created(),
            final(gpu).spec_framebuffers_destroyed() == old(gpu).spec_framebuffers_destroyed(),
            final(gpu).spec_next_token() == old(gpu).spec_next_token(),
            final(gpu).spec_resolved_below() == old(gpu).spec_resolved_below(),
    {
        proof {
            old(gpu).lemma_wf_counters();
        }
        let ghost pixel_view = pixels@;
        let staging_usage = BufferUsage::transfer_src_buffer();
        let mut staging: MemoryBoundBuffer<u8> = MemoryBoundBuffer::cpu_buffer(
            gpu,
            staging_usage,
            1,
            pixels,
        );
        let id = gpu.create_image();
        gpu.transition_image(id, ImageLayout::TransferDstOptimal);
        let staging_id = staging.internal_object();
        gpu.copy_buffer_to_image(staging_id, id);
        gpu.transition_image(id, ImageLayout::ShaderReadOnlyOptimal);
        staging.destroy(gpu);
        proof {
            assert(gpu.commands() =~= old(gpu).commands() + upload_commands(
                id,
                old(gpu).spec_buffers_created(),
            ));
        }
        GpuImage { id, width, height, format, pixels: Ghost(pixel_view) }
    }

    /// Record and submit a barrier that moves this image along one of the
    /// supported transition edges. Any other edge is unimplemented by
    /// design and excluded by the precondition.
    pub fn transition_layout(&self, gpu: &mut GpuContext, new_layout: ImageLayout)
        requires
            old(gpu).wf(),
            self.spec_id() < old(gpu).num_images(),
            old(gpu).image_is_live(self.spec_id()),
            transition_allowed(old(gpu).layout_of(self.spec_id()), new_layout),
        ensures
            final(gpu).wf(),
            final(gpu).num_images() == old(gpu).num_images(),
            final(gpu).layout_of(self.spec_id()) == new_layout,
            forall|i: usize|
                i < old(gpu).num_images() && i != self.spec_id() ==> #[trigger] final(gpu).layout_of(i)
                    == old(gpu).layout_of(i),
            forall|i: usize|
                i < old(gpu).num_images() ==> #[trigger] final(gpu).image_is_live(i) == old(
                    gpu,
                ).image_is_live(i),
            final(gpu).commands() == old(gpu).commands().push(
                GpuCommand::Barrier {
                    image: self.spec_id(),
                    from_layout: old(gpu).layout_of(self.spec_id()),
                    to_layout: new_layout,
                },
            ),
            final(gpu).counters_unchanged(*old(gpu)),
    {
        gpu.transition_image(self.id, new_layout);
    }

    /// Release view, image and memory. Only valid once the device is idle,
    /// so nothing in flight still references the image.
    pub fn destroy(&self, gpu: &mut GpuContext)
        requires
            old(gpu).wf(),
            self.spec_id() < old(gpu).num_images(),
            old(gpu).image_is_live(self.spec_id()),
            old(gpu).is_idle(),
        ensures
            final(gpu).wf(),
            final(gpu).num_images() == old(gpu).num_images(),
            !final(gpu).image_is_live(self.spec_id()),
            forall|i: usize|
                i < old(gpu).num_images() ==> #[trigger] final(gpu).layout_of(i) == old(
                    gpu,
                ).layout_of(i),
            forall|i: usize|
                i < old(gpu).num_images() && i != self.spec_id() ==> #[trigger] final(gpu).image_is_live(i)
                    == old(gpu).image_is_live(i),
            final(gpu).commands() == old(gpu).commands(),
            final(gpu).counters_unchanged(*old(gpu)),
    {
        gpu.destroy_image(self.id);
    }
}

/// Pick the memory type for an allocation: the index whose bit is set in
/// the allocation's `type_bits` and whose property flags contain all of
/// `properties`. Scanning keeps the last match, as the device-facing code
/// did; `None` means the required memory type is missing, which is fatal
/// for initialization.
pub fn find_memory_type(type_bits: u32, properties: u32, memory_types: &Vec<u32>) -> (r: Option<
    usize,
>)
    requires
        memory_types@.len() <= 32,
    ensures
        match r {
            Some(i) => {
                &&& i < memory_types@.len()
                &&& memory_type_matches(type_bits, properties, memory_types@, i as int)
                &&& forall|j: int|
                    i < j < memory_types@.len() ==> !memory_type_matches(
                        type_bits,
                        properties,
                        memory_types@,
                        j,
                    )
            },
            None => forall|j: int|
                0 <= j < memory_types@.len() ==> !memory_type_matches(
                    type_bits,
                    properties,
                    memory_types@,
                    j,
                ),
        },
{
    let mut result: Option<usize> = None;
    let mut i: usize = 0;
    while i < memory_types.len()
        invariant
            i <= memory_types@.len(),
            memory_types@.len() <= 32,
            match result {
                Some(k) => {
                    &&& k < i
                    &&& memory_type_matches(type_bits, properties, memory_types@, k as int)
                    &&& forall|j: int|
                        k < j < i ==> !memory_type_matches(type_bits, properties, memory_types@, j)
                },
                None => forall|j: int|
                    0 <= j < i ==> !memory_type_matches(type_bits, properties, memory_types@, j),
            },
        decreases memory_types@.len() - i,
    {
        let flags = memory_types[i];
        if type_bits & (1u32 << (i as u32)) != 0 && flags & properties == properties {
            result = Some(i);
        }
        i = i + 1;
    }
    result
}

/// The graphics capability bit of a queue family's flags.
pub const QUEUE_GRAPHICS_BIT: u32 = 1;

/// Whether a queue family's flags advertise graphics work; used when the
/// device's queue families are picked.
pub fn has_graphics_bit(queue_flags: u32) -> (r: bool)
    ensures
        r == (queue_flags & QUEUE_GRAPHICS_BIT != 0),
{
    queue_flags & QUEUE_GRAPHICS_BIT != 0
}

/// Whether memory type `j` suits an allocation with the given type bits
/// and required property flags.
pub open spec fn memory_type_matches(
    type_bits: u32,
    properties: u32,
    memory_types: Seq<u32>,
    j: int,
) -> bool {
    &&& type_bits & (1u32 << (j as u32)) != 0
    &&& memory_types[j] & properties == properties
}

} // verus!
