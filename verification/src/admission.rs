//! The global cap on concurrently active instances.
//!
//! One counter guards admission: a request is admitted only while the
//! count is below the cap, and every admitted request gives its slot
//! back on every terminal path.  The handler drives one shared atomic
//! with exactly these transitions; their logic is verified here.

use vstd::prelude::*;

verus! {

/// The admission state: how many instances are active, under which cap.
#[derive(Clone, Copy, PartialEq, Eq, Structural, Debug)]
pub struct InstanceCounter {
    pub active: u32,
    pub max: u32,
}

impl InstanceCounter {
    /// The admission invariant: the count never exceeds the cap.
    pub open spec fn wf(self) -> bool {
        self.active <= self.max
    }

    /// A fresh counter with no active instance.
    pub fn new(max: u32) -> (r: Self)
        ensures
            r.active == 0,
            r.max == max,
            r.wf(),
    {
        InstanceCounter { active: 0, max }
    }

    /// Admit one request if the cap allows it: admitted if and only if
    /// the count was below the cap, and then the count rises by one.
    pub fn try_admit(&mut self) -> (admitted: bool)
        requires
            old(self).wf(),
        ensures
            final(self).max == old(self).max,
            admitted == (old(self).active < old(self).max),
            admitted ==> final(self).active == old(self).active + 1,
            !admitted ==> final(self).active == old(self).active,
            final(self).wf(),
    {
        if self.active < self.max {
            self.active = self.active + 1;
            true
        } else {
            false
        }
    }

    /// Give one slot back, on any terminal path of an admitted request.
    pub fn release(&mut self)
        requires
            old(self).wf(),
            old(self).active > 0,
        ensures
            final(self).max == old(self).max,
            final(self).active == old(self).active - 1,
            final(self).wf(),
    {
        self.active = self.active - 1;
    }
}

/// One admission-relevant event of the handler.
pub enum GateEvent {
    /// A request arrives and asks for a slot.
    Arrive,
    /// An admitted request reaches a terminal path and gives its slot back.
    Depart,
}

/// The count after one event: an arrival in a full state is refused and
/// leaves the count alone; a departure of the last instance leaves zero.
pub open spec fn spec_step(active: int, max: int, ev: GateEvent) -> int {
    match ev {
        GateEvent::Arrive => if active < max {
            active + 1
        } else {
            active
        },
        GateEvent::Depart => if active > 0 {
            active - 1
        } else {
            active
        },
    }
}

/// The count after a whole interleaving of events.
pub open spec fn spec_run(active: int, max: int, evs: Seq<GateEvent>) -> int
    decreases evs.len(),
{
    if evs.len() == 0 {
        active
    } else {
        spec_run(spec_step(active, max, evs[0]), max, evs.drop_first())
    }
}

/// Admission bound.  From any state within bounds, after every
/// interleaving of arrivals and departures the count is still within
/// `0 ..= max` — so `active` never observably exceeds the cap.
pub proof fn lemma_admission_bounded(active: int, max: int, evs: Seq<GateEvent>)
    requires
        0 <= active <= max,
    ensures
        0 <= spec_run(active, max, evs) <= max,
    decreases evs.len(),
{
    if evs.len() > 0 {
        lemma_admission_bounded(spec_step(active, max, evs[0]), max, evs.drop_first());
    }
}

/// Admission bound, sharpened: an arrival in a full state is refused
/// outright and leaves the count at the cap.
pub proof fn lemma_full_state_refuses(max: int)
    ensures
        spec_step(max, max, GateEvent::Arrive) == max,
{
}

} // verus!
