//! Typed GPU buffers: host-visible staging memory written by the CPU, and
//! device-local memory filled through recorded copy commands. A buffer is
//! divided into one slot per swapchain image so per-frame writes never
//! touch another frame's data.

use crate::gpu::GpuCommand;
use crate::gpu::GpuContext;
use vstd::prelude::*;

verus! {

/// Usage flags of a buffer, mirroring the transfer/vertex/index/uniform
/// bits that the device API distinguishes.
#[derive(Clone, Copy, PartialEq, Eq, Structural, Debug)]
pub struct BufferUsage {
    pub transfer_src: bool,
    pub transfer_dst: bool,
    pub vertex: bool,
    pub index: bool,
    pub uniform: bool,
}

impl BufferUsage {
    /// Staging-only usage: the source side of a copy.
    pub fn transfer_src_buffer() -> (r: BufferUsage)
        ensures
            r == (BufferUsage {
                transfer_src: true,
                transfer_dst: false,
                vertex: false,
                index: false,
                uniform: false,
            }),
    {
        BufferUsage {
            transfer_src: true,
            transfer_dst: false,
            vertex: false,
            index: false,
            uniform: false,
        }
    }

    /// Vertex buffer that can be copied from.
    pub fn vertex_transfer_src_buffer() -> (r: BufferUsage)
        ensures
            r == (BufferUsage {
                transfer_src: true,
                transfer_dst: false,
                vertex: true,
                index: false,
                uniform: false,
            }),
    {
        BufferUsage {
            transfer_src: true,
            transfer_dst: false,
            vertex: true,
            index: false,
            uniform: false,
        }
    }

    /// Vertex buffer that is copied into.
    pub fn vertex_transfer_dst_buffer() -> (r: BufferUsage)
        ensures
            r == (BufferUsage {
                transfer_src: false,
                transfer_dst: true,
                vertex: true,
                index: false,
                uniform: false,
            }),
    {
        BufferUsage {
            transfer_src: false,
            transfer_dst: true,
            vertex: true,
            index: false,
            uniform: false,
        }
    }

    /// Index buffer that can be copied from.
    pub fn index_transfer_src_buffer() -> (r: BufferUsage)
        ensures
            r == (BufferUsage {
                transfer_src: true,
                transfer_dst: false,
                vertex: false,
                index: true,
                uniform: false,
            }),
    {
        BufferUsage {
            transfer_src: true,
            transfer_dst: false,
            vertex: false,
            index: true,
            uniform: false,
        }
    }

    /// Index buffer that is copied into.
    pub fn index_transfer_dst_buffer() -> (r: BufferUsage)
        ensures
            r == (BufferUsage {
                transfer_src: false,
                transfer_dst: true,
                vertex: false,
                index: true,
                uniform: false,
            }),
    {
        BufferUsage {
            transfer_src: false,
            transfer_dst: true,
            vertex: false,
            index: true,
            uniform: false,
        }
    }

    /// Uniform buffer written by the CPU each frame.
    pub fn uniform_buffer() -> (r: BufferUsage)
        ensures
            r == (BufferUsage {
                transfer_src: false,
                transfer_dst: false,
                vertex: false,
                index: false,
                uniform: true,
            }),
    {
        BufferUsage {
            transfer_src: false,
            transfer_dst: false,
            vertex: false,
            index: false,
            uniform: true,
        }
    }
}

/// Which heap a buffer's memory lives in.
#[derive(Clone, Copy, PartialEq, Eq, Structural, Debug)]
pub enum MemoryKind {
    HostVisible,
    DeviceLocal,
}

/// A typed buffer bound to its memory. `slots` holds one element vector per
/// swapchain image; staging and one-shot buffers have a single slot.
pub struct MemoryBoundBuffer<T> {
    id: u64,
    usage: BufferUsage,
    kind: MemoryKind,
    slots: Vec<Vec<T>>,
    destroyed: bool,
}

/// The contents of a buffer as one sequence per slot.
pub open spec fn slot_views<T>(slots: Seq<Vec<T>>) -> Seq<Seq<T>> {
    slots.map_values(|v: Vec<T>| v@)
}

impl<T: Copy> MemoryBoundBuffer<T> {
    pub closed spec fn spec_id(self) -> u64 {
        self.id
    }

    pub closed spec fn spec_usage(self) -> BufferUsage {
        self.usage
    }

    pub closed spec fn spec_kind(self) -> MemoryKind {
        self.kind
    }

    /// The per-slot contents.
    pub closed spec fn spec_slots(self) -> Seq<Seq<T>> {
        slot_views(self.slots@)
    }

    /// A destroyed buffer may no longer be read, written or copied from.
    pub closed spec fn is_destroyed(self) -> bool {
        self.destroyed
    }

    /// Create a host-visible buffer of `count` slots and immediately write
    /// `data` into every slot.
    pub fn cpu_buffer(gpu: &mut GpuContext, usage: BufferUsage, count: usize, data: Vec<T>) -> (r:
        MemoryBoundBuffer<T>)
        requires
            old(gpu).wf(),
            old(gpu).spec_buffers_created() < u64::MAX,
            count >= 1,
        ensures
            final(gpu).wf(),
            r.spec_id() == old(gpu).spec_buffers_created(),
            r.spec_usage() == usage,
            r.spec_kind() is HostVisible,
            r.spec_slots().len() == count,
            forall|i: int| 0 <= i < count ==> #[trigger] r.spec_slots()[i] == data@,
            !r.is_destroyed(),
            final(gpu).spec_buffers_created() == old(gpu).spec_buffers_created() + 1,
            final(gpu).spec_buffers_destroyed() == old(gpu).spec_buffers_destroyed(),
            final(gpu).spec_framebuffers_created() == old(gpu).spec_framebuffers_created(),
            final(gpu).spec_framebuffers_destroyed() == old(gpu).spec_framebuffers_destroyed(),
            final(gpu).spec_next_token() == old(gpu).spec_next_token(),
            final(gpu).spec_resolved_below() == old(gpu).spec_resolved_below(),
            final(gpu).commands() == old(gpu).commands(),
            final(gpu).num_images() == old(gpu).num_images(),
            forall|i: usize|
                i < old(gpu).num_images() ==> #[trigger] final(gpu).layout_of(i) == old(
                    gpu,
                ).layout_of(i) && final(gpu).image_is_live(i) == old(gpu).image_is_live(i),
    {
        let id = gpu.note_buffer_created();
        let mut slots: Vec<Vec<T>> = Vec::new();
        let mut i: usize = 0;
        while i < count
            invariant
                i <= count,
                slots@.len() == i,
                forall|k: int| 0 <= k < i ==> #[trigger] slots@[k]@ == data@,
            decreases count - i,
        {
            let slot = copy_vec(&data);
            slots.push(slot);
            i = i + 1;
        }
        let r = MemoryBoundBuffer {
            id,
            usage,
            kind: MemoryKind::HostVisible,
            slots,
            destroyed: false,
        };
        proof {
            assert forall|i: int| 0 <= i < count implies #[trigger] r.spec_slots()[i] == data@ by {
                assert(r.spec_slots()[i] == r.slots@[i]@);
            }
        }
        r
    }

    /// Create a device-local buffer of `count` empty slots; its contents
    /// arrive only through recorded copy commands.
    pub fn device_local_buffer(gpu: &mut GpuContext, usage: BufferUsage, count: usize) -> (r:
        MemoryBoundBuffer<T>)
        requires
            old(gpu).wf(),
            old(gpu).spec_buffers_created() < u64::MAX,
            count >= 1,
        ensures
            final(gpu).wf(),
            r.spec_id() == old(gpu).spec_buffers_created(),
            r.spec_usage() == usage,
            r.spec_kind() is DeviceLocal,
            r.spec_slots().len() == count,
            forall|i: int| 0 <= i < count ==> (#[trigger] r.spec_slots()[i]) == Seq::<T>::empty(),
            !r.is_destroyed(),
            final(gpu).spec_buffers_created() == old(gpu).spec_buffers_created() + 1,
            final(gpu).spec_buffers_destroyed() == old(gpu).spec_buffers_destroyed(),
            final(gpu).spec_framebuffers_created() == old(gpu).spec_framebuffers_created(),
            final(gpu).spec_framebuffers_destroyed() == old(gpu).spec_framebuffers_destroyed(),
            final(gpu).spec_next_token() == old(gpu).spec_next_token(),
            final(gpu).spec_resolved_below() == old(gpu).spec_resolved_below(),
            final(gpu).commands() == old(gpu).commands(),
            final(gpu).num_images() == old(gpu).num_images(),
            forall|i: usize|
                i < old(gpu).num_images() ==> #[trigger] final(gpu).layout_of(i) == old(
                    gpu,
                ).layout_of(i) && final(gpu).image_is_live(i) == old(gpu).image_is_live(i),
    {
        let id = gpu.note_buffer_created();
        let mut slots: Vec<Vec<T>> = Vec::new();
        let mut i: usize = 0;
        while i < count
            invariant
                i <= count,
                slots@.len() == i,
                forall|k: int| 0 <= k < i ==> (#[trigger] slots@[k]@) == Seq::<T>::empty(),
            decreases count - i,
        {
            slots.push(Vec::new());
            i = i + 1;
        }
        let r = MemoryBoundBuffer {
            id,
            usage,
            kind: MemoryKind::DeviceLocal,
            slots,
            destroyed: false,
        };
        proof {
            assert forall|i: int|
                0 <= i < count implies (#[trigger] r.spec_slots()[i]) == Seq::<T>::empty() by {
                assert(r.spec_slots()[i] == r.slots@[i]@);
            }
        }
        r
    }

    /// Overwrite slot `index` with fresh data, leaving every other slot
    /// untouched. This is the per-frame uniform write: safe without waiting
    /// because each slot belongs to exactly one in-flight frame.
    pub fn fill_buffer(&mut self, index: usize, data: Vec<T>)
        requires
            !old(self).is_destroyed(),
            index < old(self).spec_slots().len(),
        ensures
            final(self).spec_slots() == old(self).spec_slots().update(index as int, data@),
            final(self).spec_id() == old(self).spec_id(),
            final(self).spec_usage() == old(self).spec_usage(),
            final(self).spec_kind() == old(self).spec_kind(),
            !final(self).is_destroyed(),
    {
        self.slots.set(index, data);
        proof {
            assert(self.spec_slots() =~= old(self).spec_slots().update(index as int, data@));
        }
    }

    /// Release the buffer's memory. Must not be called twice, and the
    /// caller is responsible for only destroying a staging buffer after the
    /// copy reading from it has been submitted.
    pub fn destroy(&mut self, gpu: &mut GpuContext)
        requires
            old(gpu).wf(),
            !old(self).is_destroyed(),
            old(gpu).spec_buffers_destroyed() < old(gpu).spec_buffers_created(),
        ensures
            final(gpu).wf(),
            final(self).is_destroyed(),
            final(self).spec_id() == old(self).spec_id(),
            final(gpu).spec_buffers_destroyed() == old(gpu).spec_buffers_destroyed() + 1,
            final(gpu).spec_buffers_created() == old(gpu).spec_buffers_created(),
            final(gpu).spec_framebuffers_created() == old(gpu).spec_framebuffers_created(),
            final(gpu).spec_framebuffers_destroyed() == old(gpu).spec_framebuffers_destroyed(),
            final(gpu).spec_next_token() == old(gpu).spec_next_token(),
            final(gpu).spec_resolved_below() == old(gpu).spec_resolved_below(),
            final(gpu).commands() == old(gpu).commands(),
            final(gpu).num_images() == old(gpu).num_images(),
            forall|i: usize|
                i < old(gpu).num_images() ==> #[trigger] final(gpu).layout_of(i) == old(
                    gpu,
                ).layout_of(i) && final(gpu).image_is_live(i) == old(gpu).image_is_live(i),
    {
        self.destroyed = true;
        gpu.note_buffer_destroyed();
    }

    /// Record a GPU-side copy of slot 0 of `src` into slot `dst_slot` of
    /// this buffer. The source must still be alive when the copy is
    /// submitted, which the borrow here enforces.
    pub fn copy_from(&mut self, gpu: &mut GpuContext, src: &MemoryBoundBuffer<T>, dst_slot: usize)
        requires
            old(gpu).wf(),
            !old(self).is_destroyed(),
            !src.is_destroyed(),
            src.spec_usage().transfer_src,
            src.spec_slots().len() >= 1,
            dst_slot < old(self).spec_slots().len(),
        ensures
            final(gpu).wf(),
            final(self).spec_slots() == old(self).spec_slots().update(
                dst_slot as int,
                src.spec_slots()[0],
            ),
            final(self).spec_id() == old(self).spec_id(),
            final(self).spec_usage() == old(self).spec_usage(),
            final(self).spec_kind() == old(self).spec_kind(),
            !final(self).is_destroyed(),
            final(gpu).commands() == old(gpu).commands().push(
                GpuCommand::CopyBufferToBuffer { src: src.spec_id(), dst: old(self).spec_id() },
            ),
            final(gpu).counters_unchanged(*old(gpu)),
            final(gpu).num_images() == old(gpu).num_images(),
            forall|i: usize|
                i < old(gpu).num_images() ==> #[trigger] final(gpu).layout_of(i) == old(
                    gpu,
                ).layout_of(i) && final(gpu).image_is_live(i) == old(gpu).image_is_live(i),
    {
        gpu.copy_buffer_to_buffer(src.id, self.id);
        let data = copy_vec(&src.slots[0]);
        self.slots.set(dst_slot, data);
        proof {
            assert(src.spec_slots()[0] == src.slots@[0]@);
            assert(self.spec_slots() =~= old(self).spec_slots().update(
                dst_slot as int,
                src.spec_slots()[0],
            ));
        }
    }

    /// Read one slot back; used by callers that inspect host-visible data.
    pub fn slot(&self, index: usize) -> (r: &Vec<T>)
        requires
            index < self.spec_slots().len(),
        ensures
            r@ == self.spec_slots()[index as int],
    {
        proof {
            assert(self.spec_slots()[index as int] == self.slots@[index as int]@);
        }
        &self.slots[index]
    }

    /// Whether this buffer has been destroyed.
    pub fn is_buffer_destroyed(&self) -> (r: bool)
        ensures
            r == self.is_destroyed(),
    {
        self.destroyed
    }

    /// The device handle behind this buffer.
    pub fn internal_object(&self) -> (r: u64)
        ensures
            r == self.spec_id(),
    {
        self.id
    }

    /// How many slots the buffer was sized with.
    pub fn slot_count(&self) -> (r: usize)
        ensures
            r == self.spec_slots().len(),
    {
        self.slots.len()
    }
}

/// Element-wise copy of a vector, pinned to produce the same view.
pub fn copy_vec<T: Copy>(v: &Vec<T>) -> (r: Vec<T>)
    ensures
        r@ == v@,
{
    let mut r: Vec<T> = Vec::new();
    let mut i: usize = 0;
    while i < v.len()
        invariant
            i <= v.len(),
            r@.len() == i,
            forall|k: int| 0 <= k < i ==> #[trigger] r@[k] == v@[k],
        decreases v.len() - i,
    {
        r.push(v[i]);
        i = i + 1;
    }
    proof {
        assert(r@ =~= v@);
    }
    r
}

} // verus!
