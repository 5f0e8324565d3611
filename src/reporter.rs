//! A reporter that keeps what it is handed.

use vstd::prelude::*;

use crate::outside::failure;
use crate::watcher::{ActiveAlert, AlertReporter};

verus! {

/// Keeps every alert handed to it, in order. One that refuses keeps them
/// too but answers each delivery with an error.
pub struct RecordingReporter {
    pub alerts: Vec<ActiveAlert>,
    pub refuse: bool,
}

impl RecordingReporter {
    /// A reporter that accepts every alert.
    pub fn new() -> (r: RecordingReporter)
        ensures
            r.delivered() == Seq::<Seq<char>>::empty(),
            !r.refuse,
    {
        RecordingReporter { alerts: Vec::new(), refuse: false }
    }

    /// A reporter that fails every delivery.
    pub fn refusing() -> (r: RecordingReporter)
        ensures
            r.delivered() == Seq::<Seq<char>>::empty(),
            r.refuse,
    {
        RecordingReporter { alerts: Vec::new(), refuse: true }
    }
}

impl AlertReporter for RecordingReporter {
    open spec fn delivered(&self) -> Seq<Seq<char>> {
        self.alerts@.map_values(|a: ActiveAlert| a@)
    }

    fn report(&mut self, alert: &ActiveAlert) -> (r: Result<(), anyhow::Error>)
        ensures
            r is Err <==> old(self).refuse,
            final(self).refuse == old(self).refuse,
    {
        self.alerts.push(alert.duplicate());
        proof {
            assert(self.delivered() =~= old(self).delivered().push(alert@));
        }
        if self.refuse {
            Err(failure("the reporter refuses every alert"))
        } else {
            Ok(())
        }
    }
}

} // verus!
