//! Which journeys have background work scheduled: one schedule runs at the
//! time of each journey's next action, the other every minute.  The tasks
//! themselves are run by the caller; this keeps the books.

use vstd::prelude::*;

use crate::assoc::TextSet;

verus! {

/// The journeys with background work scheduled, by id.
pub struct Timer {
    background: TextSet,
    minutely: TextSet,
}

impl Timer {
    /// The journeys scheduled at their next action.
    pub closed spec fn background_spec(&self) -> Set<Seq<char>> {
        self.background.view_set()
    }

    /// The journeys scheduled every minute.
    pub closed spec fn minutely_spec(&self) -> Set<Seq<char>> {
        self.minutely.view_set()
    }

    /// Nothing scheduled.
    pub fn new() -> (r: Timer)
        ensures
            r.background_spec() == Set::<Seq<char>>::empty(),
            r.minutely_spec() == Set::<Seq<char>>::empty(),
    {
        Timer { background: TextSet::new(), minutely: TextSet::new() }
    }

    /// Schedules the journey at its next action.
    pub fn register_background(&mut self, journey_id: String)
        ensures
            final(self).background_spec() == old(self).background_spec().insert(journey_id@),
            final(self).minutely_spec() == old(self).minutely_spec(),
    {
        self.background.insert(journey_id);
    }

    /// Stops scheduling the journey at its next action; returns whether it
    /// was scheduled, in which case its task is to be stopped.
    pub fn unregister_background(&mut self, journey_id: &str) -> (r: bool)
        ensures
            r == old(self).background_spec().contains(journey_id@),
            final(self).background_spec() == old(self).background_spec().remove(journey_id@),
            final(self).minutely_spec() == old(self).minutely_spec(),
    {
        let had = self.background.contains(journey_id);
        self.background.remove(journey_id);
        had
    }

    /// Whether the journey is scheduled every minute.
    pub fn has_in_minutely(&self, journey_id: &str) -> (r: bool)
        ensures
            r == self.minutely_spec().contains(journey_id@),
    {
        self.minutely.contains(journey_id)
    }

    /// Schedules the journey every minute.
    pub fn register_minutely(&mut self, journey_id: String)
        ensures
            final(self).minutely_spec() == old(self).minutely_spec().insert(journey_id@),
            final(self).background_spec() == old(self).background_spec(),
    {
        self.minutely.insert(journey_id);
    }

    /// Stops scheduling the journey every minute; returns whether it was
    /// scheduled, in which case its task is to be stopped.
    pub fn unregister_minutely(&mut self, journey_id: &str) -> (r: bool)
        ensures
            r == old(self).minutely_spec().contains(journey_id@),
            final(self).minutely_spec() == old(self).minutely_spec().remove(journey_id@),
            final(self).background_spec() == old(self).background_spec(),
    {
        let had = self.minutely.contains(journey_id);
        self.minutely.remove(journey_id);
        had
    }

    /// Whether the work scheduled at a journey's next action runs: not when
    /// the journey is already done every minute.
    pub fn background_due(&self, journey_id: &str) -> (r: bool)
        ensures
            r == !self.minutely_spec().contains(journey_id@),
    {
        !self.minutely.contains(journey_id)
    }
}

/// Scheduling a journey every minute and then stopping it leaves the
/// schedule as it was, when it was not scheduled before.
pub proof fn lemma_minutely_undo(s: Set<Seq<char>>, id: Seq<char>)
    requires
        !s.contains(id),
    ensures
        s.insert(id).remove(id) == s,
{
    assert(s.insert(id).remove(id) =~= s);
}

} // verus!
