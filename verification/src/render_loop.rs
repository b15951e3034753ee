//! The orchestrator: one object that owns the whole per-frame decision.
//!
//! Each tick advances the animation state machine, decides which texture
//! slots need an upload, and every twentieth tick whether the backing
//! store must be resynchronized. The host performs what the returned
//! actions say — upload, resize, draw with the given blend weight — and
//! reschedules the next tick for as long as the loop is running. With no
//! slides at all no loop is created, so nothing is ever scheduled and no
//! GPU resource is ever allocated.

use vstd::prelude::*;

use crate::image_set::ImageSet;
use crate::loader::ImageLoader;
use crate::resize::RESIZE_CHECK_PERIOD;
use crate::resize::ResizeMonitor;
use crate::scheduler::AnimationScheduler;
use crate::scheduler::initial_view;
use crate::scheduler::spec_tick;
use crate::scheduler::view_wf;
use crate::texture::TextureManager;

verus! {

/// What the host must do after one tick: upload the named slide into a
/// slot, resynchronize the backing store to a new size, and draw with
/// the blend weight `mix_numer / mix_denom` (zero when the denominator
/// is zero, which only happens for an instantaneous transition whose
/// numerator is then zero as well).
pub struct TickActions {
    pub upload_slot0: Option<usize>,
    pub upload_slot1: Option<usize>,
    pub resize_to: Option<(u32, u32)>,
    pub mix_numer: u64,
    pub mix_denom: u64,
}

/// The render loop's state: the slides, their readiness flags, the
/// animation scheduler, the texture-slot bookkeeping, the resize cache,
/// the tick counter that throttles resize checks, and whether the loop
/// is still alive.
pub struct RenderLoop {
    pub images: ImageSet,
    pub loader: ImageLoader,
    pub scheduler: AnimationScheduler,
    pub textures: TextureManager,
    pub resize: ResizeMonitor,
    pub frame_count: u64,
    pub running: bool,
}

/// Whether an upload of slide `slide` is due for a slot that holds
/// `bound`: due exactly when the slide is decoded and the slot does not
/// already hold it.
pub open spec fn upload_due(ready: Seq<bool>, bound: Option<usize>, slide: usize) -> bool {
    ready[slide as int] && bound != Some(slide)
}

impl RenderLoop {
    /// A texture slot only ever holds a slide that exists and whose
    /// decode had finished when it was uploaded.
    pub open spec fn slot_wf(self, bound: Option<usize>) -> bool {
        bound matches Some(i) ==> i < self.images@.len() && self.loader@[i as int]
    }

    /// The loop's invariant: the scheduler is well-formed and sized to
    /// the slide sequence, there is one readiness flag per slide, and
    /// each texture slot respects `slot_wf`.
    pub open spec fn wf(self) -> bool {
        &&& view_wf(self.scheduler@)
        &&& self.scheduler@.slide_count == self.images@.len()
        &&& self.loader@.len() == self.images@.len()
        &&& self.slot_wf(self.textures.slot0_bound)
        &&& self.slot_wf(self.textures.slot1_bound)
    }

    /// Mounts the loop, or refuses to: with an empty slide sequence the
    /// subsystem is a no-op and nothing is created or scheduled. With at
    /// least one slide, the loop starts holding slide zero, with no
    /// slide uploaded, no decode reported, the resize cache at the
    /// surface's initial size, and the hold period measured from `now`.
    pub fn new(
        images: ImageSet,
        interval_ms: u64,
        transition_ms: u64,
        initial_width: u32,
        initial_height: u32,
        now: u64,
    ) -> (r: Option<RenderLoop>)
        ensures
            r is Some <==> images@.len() > 0,
            r matches Some(rl) ==> {
                &&& rl.wf()
                &&& rl.images@ == images@
                &&& rl.scheduler@ == initial_view(
                    images@.len() as int,
                    interval_ms as int,
                    transition_ms as int,
                    now as int,
                )
                &&& forall|i: int| 0 <= i < rl.loader@.len() ==> !rl.loader@[i]
                &&& rl.textures.slot0_bound is None
                &&& rl.textures.slot1_bound is None
                &&& rl.resize.cached_width == initial_width
                &&& rl.resize.cached_height == initial_height
                &&& rl.frame_count == 0
                &&& rl.running
            },
    {
        if images.is_empty() {
            return None;
        }
        let count = images.len();
        let loader = ImageLoader::new(count);
        let scheduler = AnimationScheduler::new(count, interval_ms, transition_ms, now);
        let textures = TextureManager::new();
        let resize = ResizeMonitor::new(initial_width, initial_height);
        Some(
            RenderLoop {
                images,
                loader,
                scheduler,
                textures,
                resize,
                frame_count: 0,
                running: true,
            },
        )
    }

    /// Records that slide `slide`'s decode has finished. The host polls
    /// its decode facility and reports completions here; a report never
    /// un-readies another slide.
    pub fn note_image_ready(&mut self, slide: usize)
        requires
            old(self).wf(),
            slide < old(self).loader@.len(),
        ensures
            final(self).wf(),
            final(self).loader@ == old(self).loader@.update(slide as int, true),
            final(self).images@ == old(self).images@,
            final(self).scheduler == old(self).scheduler,
            final(self).textures == old(self).textures,
            final(self).resize == old(self).resize,
            final(self).frame_count == old(self).frame_count,
            final(self).running == old(self).running,
    {
        self.loader.note_ready(slide);
    }

    /// One tick at timestamp `now`, with the surface's live logical size.
    ///
    /// In order: the tick counter advances; the scheduler takes one step
    /// of its state machine; each slot is brought toward the slide it
    /// must now show, with an upload requested exactly when that slide
    /// is decoded and the slot holds something else; every twentieth
    /// tick the live size is compared against the cache and a resync
    /// requested exactly on a mismatch. The returned actions carry those
    /// two upload decisions, the resync decision, and the exact blend
    /// weight for the draw call.
    pub fn tick(&mut self, now: u64, live_width: u32, live_height: u32) -> (actions: TickActions)
        requires
            old(self).wf(),
            old(self).running,
            old(self).frame_count < u64::MAX,
            now >= old(self).scheduler@.last_switch_time,
            now >= old(self).scheduler@.transition_start_time,
        ensures
            final(self).wf(),
            final(self).running,
            final(self).images@ == old(self).images@,
            final(self).loader@ == old(self).loader@,
            final(self).frame_count == old(self).frame_count + 1,
            final(self).scheduler@ == spec_tick(old(self).scheduler@, now as int),
            final(self).scheduler@.last_switch_time <= now,
            final(self).scheduler@.transition_start_time <= now,
            ({
                let cur = final(self).scheduler.current_idx;
                let nxt = final(self).scheduler.next_idx;
                let due0 = upload_due(old(self).loader@, old(self).textures.slot0_bound, cur);
                let due1 = upload_due(old(self).loader@, old(self).textures.slot1_bound, nxt);
                &&& actions.upload_slot0 == (if due0 {
                    Some(cur)
                } else {
                    None::<usize>
                })
                &&& actions.upload_slot1 == (if due1 {
                    Some(nxt)
                } else {
                    None::<usize>
                })
                &&& final(self).textures.slot0_bound == (if due0 {
                    Some(cur)
                } else {
                    old(self).textures.slot0_bound
                })
                &&& final(self).textures.slot1_bound == (if due1 {
                    Some(nxt)
                } else {
                    old(self).textures.slot1_bound
                })
            }),
            actions.resize_to is Some <==> ((old(self).frame_count + 1) % (
            RESIZE_CHECK_PERIOD as int) == 0 && (live_width != old(self).resize.cached_width
                || live_height != old(self).resize.cached_height)),
            actions.resize_to is Some ==> actions.resize_to == Some((live_width, live_height))
                && final(self).resize.cached_width == live_width
                && final(self).resize.cached_height == live_height,
            actions.resize_to is None ==> final(self).resize == old(self).resize,
            actions.mix_numer == final(self).scheduler.mix_numer,
            actions.mix_denom == final(self).scheduler.transition_ms,
            actions.mix_numer <= actions.mix_denom,
            final(self).scheduler@.phase is Holding ==> actions.mix_numer == 0,
    {
        self.frame_count = self.frame_count + 1;
        self.scheduler.tick(now);

        let resize_to = self.resize.poll(self.frame_count, live_width, live_height);

        let cur = self.scheduler.current_idx;
        let nxt = self.scheduler.next_idx;
        let ready0 = self.loader.is_ready(cur);
        let ready1 = self.loader.is_ready(nxt);
        let due0 = self.textures.ensure_uploaded(0, cur, ready0);
        let due1 = self.textures.ensure_uploaded(1, nxt, ready1);

        TickActions {
            upload_slot0: if due0 {
                Some(cur)
            } else {
                None
            },
            upload_slot1: if due1 {
                Some(nxt)
            } else {
                None
            },
            resize_to,
            mix_numer: self.scheduler.mix_numer,
            mix_denom: self.scheduler.transition_ms,
        }
    }

    /// Tears the loop down: after this no further tick is permitted, so
    /// the host can cancel its pending frame callback and release the
    /// program, both textures and the vertex buffer exactly once.
    pub fn stop(&mut self)
        ensures
            !final(self).running,
            final(self).images@ == old(self).images@,
            final(self).loader@ == old(self).loader@,
            final(self).scheduler == old(self).scheduler,
            final(self).textures == old(self).textures,
            final(self).resize == old(self).resize,
            final(self).frame_count == old(self).frame_count,
    {
        self.running = false;
    }
}

} // verus!
