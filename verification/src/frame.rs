//! Per-frame scheduling: CPU work for the next frame may start before
//! earlier frames' GPU work finishes, but never more than
//! frames-in-flight deep. The scheduler retains one completion token per
//! outstanding frame; a frame slot is reused only once the token of the
//! frame that last used it — frames-in-flight frames ago — has resolved.

use crate::gpu::GpuContext;
use vstd::prelude::*;

verus! {

/// Tracks the chain of per-frame completion tokens. `pending` holds the
/// tokens of the outstanding frames, oldest first, never more than
/// `frames_in_flight`; `frame_tokens` is the ghost history of every
/// submitted frame's token.
pub struct FrameScheduler {
    frames_in_flight: usize,
    frame_number: u64,
    cur_slot: usize,
    pending: Vec<u64>,
    frame_tokens: Ghost<Seq<u64>>,
}

impl FrameScheduler {
    pub closed spec fn spec_frames_in_flight(self) -> usize {
        self.frames_in_flight
    }

    /// How many frames have been submitted so far.
    pub closed spec fn spec_frame_number(self) -> u64 {
        self.frame_number
    }

    /// The frame slot (uniform-buffer index, command-buffer index) the next
    /// frame will use.
    pub closed spec fn spec_cur_slot(self) -> usize {
        self.cur_slot
    }

    /// The completion token of each submitted frame, in frame order.
    pub closed spec fn spec_frame_tokens(self) -> Seq<u64> {
        self.frame_tokens@
    }

    /// The tokens of the outstanding frames, oldest first.
    pub closed spec fn spec_pending(self) -> Seq<u64> {
        self.pending@
    }

    /// The scheduler's shape: the pending queue holds exactly the tokens of
    /// the last `min(frame_number, frames_in_flight)` frames, and the slot
    /// counter stays below the frame depth.
    pub open spec fn wf(self) -> bool {
        &&& self.spec_frames_in_flight() >= 1
        &&& self.spec_cur_slot() < self.spec_frames_in_flight()
        &&& self.spec_frame_tokens().len() == self.spec_frame_number()
        &&& self.spec_pending().len() == if self.spec_frame_number()
            < self.spec_frames_in_flight() {
            self.spec_frame_number() as int
        } else {
            self.spec_frames_in_flight() as int
        }
        &&& self.spec_pending() == self.spec_frame_tokens().subrange(
            self.spec_frame_tokens().len() - self.spec_pending().len(),
            self.spec_frame_tokens().len() as int,
        )
    }

    /// A scheduler for `frames_in_flight` simultaneously outstanding
    /// frames; this equals the swapchain image count.
    pub fn new(frames_in_flight: usize) -> (r: FrameScheduler)
        requires
            frames_in_flight >= 1,
        ensures
            r.wf(),
            r.spec_frames_in_flight() == frames_in_flight,
            r.spec_frame_number() == 0,
            r.spec_cur_slot() == 0,
            r.spec_frame_tokens() == Seq::<u64>::empty(),
    {
        let r = FrameScheduler {
            frames_in_flight,
            frame_number: 0,
            cur_slot: 0,
            pending: Vec::new(),
            frame_tokens: Ghost(Seq::empty()),
        };
        proof {
            assert(r.spec_pending() =~= r.spec_frame_tokens().subrange(0, 0));
        }
        r
    }

    /// Whether the next frame may begin: true once fewer than
    /// frames-in-flight frames are outstanding, or the oldest outstanding
    /// frame — the one that last used this frame's slot — has completed.
    /// While this is false the caller must wait on the GPU, not reuse the
    /// slot's resources.
    pub fn begin_frame(&self, gpu: &GpuContext) -> (r: Option<usize>)
        requires
            self.wf(),
        ensures
            r is Some <==> (self.spec_frame_number() < self.spec_frames_in_flight()
                || gpu.token_resolved(
                self.spec_frame_tokens()[self.spec_frame_number() - self.spec_frames_in_flight()],
            )),
            r is Some ==> r == Some(self.spec_cur_slot()),
    {
        if self.pending.len() < self.frames_in_flight {
            Some(self.cur_slot)
        } else {
            let oldest = self.pending[0];
            if gpu.is_token_resolved(oldest) {
                proof {
                    assert(self.spec_pending()[0] == self.spec_frame_tokens()[
                        self.spec_frame_number() - self.spec_frames_in_flight()]);
                }
                Some(self.cur_slot)
            } else {
                None
            }
        }
    }

    /// Submit the current frame's commands. The new submission's token
    /// resolves only after every earlier one, so it is chained after the
    /// previous frame's retained token. Requires what `begin_frame`
    /// checked: the slot being reused has no unresolved token.
    pub fn end_frame(&mut self, gpu: &mut GpuContext) -> (token: u64)
        requires
            old(self).wf(),
            old(gpu).wf(),
            old(gpu).spec_next_token() < u64::MAX,
            old(self).spec_frame_number() < u64::MAX,
            old(self).spec_frame_number() >= old(self).spec_frames_in_flight() ==> old(
                gpu,
            ).token_resolved(
                old(self).spec_frame_tokens()[old(self).spec_frame_number() - old(
                    self,
                ).spec_frames_in_flight()],
            ),
        ensures
            final(self).wf(),
            final(gpu).wf(),
            token == old(gpu).spec_next_token(),
            final(gpu).spec_next_token() == old(gpu).spec_next_token() + 1,
            final(gpu).spec_resolved_below() == old(gpu).spec_resolved_below(),
            final(self).spec_frame_number() == old(self).spec_frame_number() + 1,
            final(self).spec_frames_in_flight() == old(self).spec_frames_in_flight(),
            final(self).spec_frame_tokens() == old(self).spec_frame_tokens().push(token),
            final(self).spec_cur_slot() == (if old(self).spec_cur_slot() + 1 == old(
                self,
            ).spec_frames_in_flight() {
                0int
            } else {
                old(self).spec_cur_slot() + 1
            }),
            final(gpu).spec_buffers_created() == old(gpu).spec_buffers_created(),
            final(gpu).spec_buffers_destroyed() == old(gpu).spec_buffers_destroyed(),
            final(gpu).spec_framebuffers_created() == old(gpu).spec_framebuffers_created(),
            final(gpu).spec_framebuffers_destroyed() == old(gpu).spec_framebuffers_destroyed(),
            final(gpu).commands() == old(gpu).commands(),
            final(gpu).num_images() == old(gpu).num_images(),
            forall|i: usize|
                i < old(gpu).num_images() ==> #[trigger] final(gpu).layout_of(i) == old(
                    gpu,
                ).layout_of(i) && final(gpu).image_is_live(i) == old(gpu).image_is_live(i),
    {
        if self.pending.len() == self.frames_in_flight {
            let _ = self.pending.remove(0);
        }
        let token = gpu.submit();
        self.pending.push(token);
        self.frame_number = self.frame_number + 1;
        self.cur_slot = if self.cur_slot + 1 == self.frames_in_flight {
            0
        } else {
            self.cur_slot + 1
        };
        proof {
            self.frame_tokens@ = old(self).frame_tokens@.push(token);
            assert(self.spec_pending() =~= self.spec_frame_tokens().subrange(
                self.spec_frame_tokens().len() - self.spec_pending().len(),
                self.spec_frame_tokens().len() as int,
            ));
        }
        token
    }

    /// Block until every outstanding frame has completed; used at shutdown
    /// before destroying GPU objects.
    pub fn wait_idle(&self, gpu: &mut GpuContext)
        requires
            old(gpu).wf(),
        ensures
            final(gpu).wf(),
            final(gpu).is_idle(),
            final(gpu).spec_next_token() == old(gpu).spec_next_token(),
            final(gpu).spec_buffers_created() == old(gpu).spec_buffers_created(),
            final(gpu).spec_buffers_destroyed() == old(gpu).spec_buffers_destroyed(),
            final(gpu).spec_framebuffers_created() == old(gpu).spec_framebuffers_created(),
            final(gpu).spec_framebuffers_destroyed() == old(gpu).spec_framebuffers_destroyed(),
            final(gpu).commands() == old(gpu).commands(),
            final(gpu).num_images() == old(gpu).num_images(),
            forall|i: usize|
                i < old(gpu).num_images() ==> #[trigger] final(gpu).layout_of(i) == old(
                    gpu,
                ).layout_of(i) && final(gpu).image_is_live(i) == old(gpu).image_is_live(i),
    {
        gpu.wait_idle();
    }

    pub fn frames_in_flight(&self) -> (r: usize)
        ensures
            r == self.spec_frames_in_flight(),
    {
        self.frames_in_flight
    }

    pub fn frame_number(&self) -> (r: u64)
        ensures
            r == self.spec_frame_number(),
    {
        self.frame_number
    }

    pub fn current_slot(&self) -> (r: usize)
        ensures
            r == self.spec_cur_slot(),
    {
        self.cur_slot
    }
}

/// Frame pacing is exactly frames-in-flight deep: with depth `f`, frame
/// `N + f` may begin (and so reuse frame `N`'s uniform slot and command
/// buffer) if and only if frame `N`'s completion token has resolved —
/// waiting on frame `N`, not on any later frame.
pub proof fn lemma_reuse_waits_for_matching_frame(s: FrameScheduler, gpu: GpuContext, n: int)
    requires
        s.wf(),
        s.spec_frame_number() == n + s.spec_frames_in_flight(),
        0 <= n,
    ensures
        (s.spec_frame_number() < s.spec_frames_in_flight() || gpu.token_resolved(
            s.spec_frame_tokens()[s.spec_frame_number() - s.spec_frames_in_flight()],
        )) <==> gpu.token_resolved(s.spec_frame_tokens()[n]),
{
}

} // verus!
