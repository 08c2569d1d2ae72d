//! Single-item staging slot handing the most recent raw frame from a
//! producer to a polling consumer, with enable/disable lifecycle, a
//! staleness timeout, and duplicate suppression.

use vstd::prelude::*;

verus! {

/// Mathematical model of a staging slot: what is staged (if anything),
/// when it was staged, the slot's timeout and whether the channel is on.
pub struct FrameModel {
    pub enable: bool,
    pub staged: Option<Seq<u8>>,
    pub last_update: int,
    pub timeout: int,
}

/// Staging slot for one media channel. The producer overwrites freely
/// (`update`); the consumer polls (`take`) and receives a frame at most
/// once. The slot owns a copy of the published bytes, so no address can
/// dangle between publication and consumption.
pub struct FrameRaw {
    /// Channel on/off. While off, published frames are dropped.
    pub enable: bool,
    /// The staged frame, if one is pending.
    pub buf: Option<Vec<u8>>,
    /// Time of the most recent publication, in milliseconds.
    pub last_update: u64,
    /// Maximum age, in milliseconds, at which a staged frame may still be
    /// delivered.
    pub timeout: u64,
}

impl View for FrameRaw {
    type V = FrameModel;

    open spec fn view(&self) -> FrameModel {
        FrameModel {
            enable: self.enable,
            staged: match self.buf {
                Some(b) => Some(b@),
                None => None,
            },
            last_update: self.last_update as int,
            timeout: self.timeout as int,
        }
    }
}

/// A staged frame is fresh at `now` while its age does not exceed the
/// timeout; an age exactly equal to the timeout is still fresh.
pub open spec fn fresh_at(m: FrameModel, now: int) -> bool {
    now - m.last_update <= m.timeout
}

/// A frame is pending when one is staged and non-empty.
pub open spec fn has_frame(m: FrameModel) -> bool {
    &&& m.staged is Some
    &&& m.staged->Some_0.len() > 0
}

/// Slot state after `set_enable(value)`: any staged frame is discarded, so
/// a frame published before the toggle can never be read after it.
pub open spec fn set_enable_model(m: FrameModel, value: bool) -> FrameModel {
    FrameModel { enable: value, staged: None, ..m }
}

/// Slot state after `update(data, now)`: while enabled the slot records the
/// bytes and the time, overwriting any unconsumed frame; while disabled the
/// call is a no-op.
pub open spec fn update_model(m: FrameModel, data: Seq<u8>, now: int) -> FrameModel {
    if m.enable {
        FrameModel { staged: Some(data), last_update: now, ..m }
    } else {
        m
    }
}

/// `take` reaches a pending frame — and therefore discards it from the
/// slot — when the channel is enabled and a non-empty frame is staged.
/// Freshness and novelty decide only whether the frame is delivered.
pub open spec fn take_clears(m: FrameModel) -> bool {
    &&& m.enable
    &&& has_frame(m)
}

/// `take` delivers the staged frame when one is reachable, still fresh,
/// and differs from the consumer's previously seen bytes.
pub open spec fn take_delivers(m: FrameModel, prev: Seq<u8>, now: int) -> bool {
    &&& take_clears(m)
    &&& fresh_at(m, now)
    &&& m.staged->Some_0 != prev
}

/// What `take(prev)` at time `now` hands the consumer: the staged bytes,
/// or nothing.
pub open spec fn take_result_model(m: FrameModel, prev: Seq<u8>, now: int) -> Option<Seq<u8>> {
    if take_delivers(m, prev, now) {
        Some(m.staged->Some_0)
    } else {
        None
    }
}

/// Slot state after `take`: the pending frame is discarded whether it was
/// delivered, suppressed as a duplicate, or withheld as stale — the stale
/// or duplicate frame is dropped either way, so no outdated bytes linger
/// in the slot. A `take` that found nothing reachable leaves the slot
/// untouched.
pub open spec fn take_model(m: FrameModel) -> FrameModel {
    if take_clears(m) {
        FrameModel { staged: None, ..m }
    } else {
        m
    }
}

/// A whole run of publications, oldest first, folded over the slot model.
pub open spec fn update_seq_model(m: FrameModel, frames: Seq<Seq<u8>>, times: Seq<int>) -> FrameModel
    decreases frames.len(),
{
    if frames.len() == 0 {
        m
    } else {
        update_seq_model(update_model(m, frames[0], times[0]), frames.skip(1), times.skip(1))
    }
}

proof fn lemma_update_seq_staged(m: FrameModel, frames: Seq<Seq<u8>>, times: Seq<int>)
    requires
        frames.len() > 0,
        times.len() == frames.len(),
    ensures
        m.enable ==> update_seq_model(m, frames, times) == (FrameModel {
            staged: Some(frames.last()),
            last_update: times.last(),
            ..m
        }),
        !m.enable ==> update_seq_model(m, frames, times) == m,
    decreases frames.len(),
{
    if frames.len() == 1 {
        assert(frames.skip(1).len() == 0);
    } else {
        let m1 = update_model(m, frames[0], times[0]);
        lemma_update_seq_staged(m1, frames.skip(1), times.skip(1));
        assert(frames.skip(1).last() == frames.last());
        assert(times.skip(1).last() == times.last());
    }
}

/// Law: for any run of publications without an intervening `take`, only
/// the most recently published frame can be observed by the consumer; and
/// on an enabled channel the last frame, when non-empty, fresh and new to
/// the consumer, is exactly what `take` delivers.
pub proof fn lemma_latest_publish_wins(
    m: FrameModel,
    frames: Seq<Seq<u8>>,
    times: Seq<int>,
    prev: Seq<u8>,
    now: int,
)
    requires
        frames.len() > 0,
        times.len() == frames.len(),
    ensures
        take_result_model(update_seq_model(m, frames, times), prev, now) matches Some(d)
            ==> d == frames.last(),
        m.enable && frames.last().len() > 0 && now - times.last() <= m.timeout
            && frames.last() != prev
            ==> take_result_model(update_seq_model(m, frames, times), prev, now)
                == Some(frames.last()),
{
    lemma_update_seq_staged(m, frames, times);
}

/// Law: `take` called twice in a row without an intervening `update`
/// yields absent the second time — the first `take` either discarded the
/// pending frame or found nothing reachable.
pub proof fn lemma_take_twice_absent(m: FrameModel, prev: Seq<u8>, now: int)
    ensures
        take_result_model(take_model(m), prev, now) is None,
{
}

/// Law: a frame published while the channel is disabled is never
/// observable, even if the channel is re-enabled afterward without a new
/// publication.
pub proof fn lemma_disabled_publish_invisible(
    m: FrameModel,
    data: Seq<u8>,
    t: int,
    prev: Seq<u8>,
    now: int,
)
    requires
        !m.enable,
    ensures
        take_result_model(update_model(m, data, t), prev, now) is None,
        take_result_model(set_enable_model(update_model(m, data, t), true), prev, now) is None,
{
}

/// Law: a staged frame whose age exceeds the timeout at the time of `take`
/// is never returned (an age exactly equal to the timeout still is), and
/// the stale frame is discarded from the slot all the same.
pub proof fn lemma_stale_frame_absent(m: FrameModel, prev: Seq<u8>, now: int)
    requires
        now - m.last_update > m.timeout,
    ensures
        take_result_model(m, prev, now) is None,
        take_clears(m) ==> take_model(m).staged is None,
{
}

/// Law: a staged frame identical to the consumer's previously seen bytes
/// is suppressed.
pub proof fn lemma_duplicate_suppressed(m: FrameModel, now: int)
    requires
        m.staged is Some,
    ensures
        take_result_model(m, m.staged->Some_0, now) is None,
{
}

/// Law: a fresh staged frame that differs from the previously seen bytes is
/// delivered as-is.
pub proof fn lemma_changed_frame_delivered(m: FrameModel, prev: Seq<u8>, now: int)
    requires
        m.enable,
        has_frame(m),
        fresh_at(m, now),
        m.staged->Some_0 != prev,
    ensures
        take_result_model(m, prev, now) == Some(m.staged->Some_0),
{
}

impl FrameRaw {
    /// A fresh slot: disabled, empty, with the given staleness timeout in
    /// milliseconds.
    pub fn new(timeout: u64) -> (r: FrameRaw)
        ensures
            r@ == (FrameModel { enable: false, staged: None, last_update: 0, timeout: timeout as int }),
    {
        FrameRaw { enable: false, buf: None, last_update: 0, timeout }
    }

    /// Turn the channel on or off. Either way any staged frame is dropped,
    /// so a stale address can never be read across the toggle.
    pub fn set_enable(&mut self, value: bool)
        ensures
            final(self)@ == set_enable_model(old(self)@, value),
    {
        self.enable = value;
        self.buf = None;
    }

    /// Publish a frame at time `now` (milliseconds). The producer always
    /// wins: an unconsumed previous frame is overwritten, and the producer
    /// is never blocked by a lagging consumer. While the channel is
    /// disabled the frame is dropped.
    pub fn update(&mut self, data: Vec<u8>, now: u64)
        ensures
            final(self)@ == update_model(old(self)@, data@, now as int),
    {
        if !self.enable {
            return;
        }
        self.buf = Some(data);
        self.last_update = now;
    }

    /// Poll for a fresh frame at time `now` (milliseconds).
    ///
    /// Returns `None` when the channel is disabled, nothing non-empty is
    /// staged, the staged frame's age exceeds the timeout (an age exactly
    /// equal to the timeout still delivers), or the staged bytes equal
    /// `prev` byte for byte (duplicate suppression). Otherwise copies the
    /// frame into `dst` and `prev` and returns `Some(())`. Any reachable
    /// frame — delivered, suppressed as a duplicate, or withheld as stale
    /// — is discarded from the slot, so a second `take` without an
    /// intervening `update` yields `None` and no outdated bytes linger.
    pub fn take(&mut self, dst: &mut Vec<u8>, prev: &mut Vec<u8>, now: u64) -> (r: Option<()>)
        ensures
            final(self)@ == take_model(old(self)@),
            r is Some <==> take_delivers(old(self)@, old(prev)@, now as int),
            r is Some ==> {
                &&& final(dst)@ == old(self)@.staged->Some_0
                &&& final(prev)@ == old(self)@.staged->Some_0
            },
            r is None ==> final(dst)@ == old(dst)@ && final(prev)@ == old(prev)@,
    {
        if !self.enable {
            return None;
        }
        let expired = now > self.last_update && now - self.last_update > self.timeout;
        let n = match &self.buf {
            Some(b) => b.len(),
            None => 0,
        };
        if self.buf.is_none() || n == 0 {
            return None;
        }
        if expired {
            self.buf = None;
            return None;
        }
        let is_duplicate = match &self.buf {
            Some(b) => *prev == *b,
            None => false,
        };
        if is_duplicate {
            proof {
                assert(old(prev)@ =~= self.buf->Some_0@);
            }
            self.buf = None;
            return None;
        }
        dst.clear();
        prev.clear();
        let mut i: usize = 0;
        while i < n
            invariant
                i <= n,
                self.buf == old(self).buf,
                self.buf matches Some(b) && b@.len() == n,
                dst@ == self.buf->Some_0@.subrange(0, i as int),
                prev@ == self.buf->Some_0@.subrange(0, i as int),
            decreases n - i,
        {
            let b = match &self.buf {
                Some(b) => b[i],
                None => 0,
            };
            dst.push(b);
            prev.push(b);
            i += 1;
            proof {
                assert(dst@ =~= self.buf->Some_0@.subrange(0, i as int));
                assert(prev@ =~= self.buf->Some_0@.subrange(0, i as int));
            }
        }
        proof {
            assert(dst@ =~= self.buf->Some_0@);
            assert(prev@ =~= self.buf->Some_0@);
        }
        self.buf = None;
        Some(())
    }

    /// Drop any staged frame without delivering it.
    pub fn release(&mut self)
        ensures
            final(self)@ == (FrameModel { staged: None, ..old(self)@ }),
    {
        self.buf = None;
    }
}

} // verus!
