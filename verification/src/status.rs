//! Communication status kinds and the status condition a caller can wait on.

use vstd::prelude::*;

verus! {

/// The communication statuses an entity can report.
#[derive(Clone, Copy, Debug, PartialEq, Eq, Structural)]
pub enum StatusKind {
    InconsistentTopic,
    OfferedDeadlineMissed,
    RequestedDeadlineMissed,
    OfferedIncompatibleQos,
    RequestedIncompatibleQos,
    SampleLost,
    SampleRejected,
    DataOnReaders,
    DataAvailable,
    LivelinessLost,
    LivelinessChanged,
    PublicationMatched,
    SubscriptionMatched,
}

/// An observable switch that trips when an enabled status changes.
pub struct StatusCondition {
    pub enabled_statuses: Vec<StatusKind>,
    pub trigger_value: bool,
}

impl StatusCondition {
    /// A fresh condition with no enabled statuses.
    pub fn new() -> (r: StatusCondition)
        ensures
            r.enabled_statuses@ == Seq::<StatusKind>::empty(),
            !r.trigger_value,
    {
        let r = StatusCondition { enabled_statuses: Vec::new(), trigger_value: false };
        proof {
            assert(r.enabled_statuses@ =~= Seq::<StatusKind>::empty());
        }
        r
    }

    /// The statuses the condition watches.
    pub fn get_enabled_statuses(&self) -> (r: &Vec<StatusKind>)
        ensures
            r == self.enabled_statuses,
    {
        &self.enabled_statuses
    }

    /// Watch this set of statuses from now on.
    pub fn set_enabled_statuses(&mut self, mask: Vec<StatusKind>)
        ensures
            final(self).enabled_statuses == mask,
            final(self).trigger_value == old(self).trigger_value,
    {
        self.enabled_statuses = mask;
    }

    /// Whether the condition has tripped.
    pub fn get_trigger_value(&self) -> (r: bool)
        ensures
            r == self.trigger_value,
    {
        self.trigger_value
    }
}

} // verus!
