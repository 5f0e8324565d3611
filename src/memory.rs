//! Watching how much of the installed memory is in use.

use core::time::Duration;
use vstd::prelude::*;

use crate::outside::{duration_from_secs, failure, memory_totals, secs_duration};
use crate::text::{over_threshold, over_threshold_message};
use crate::usage::{spec_used_percent, used_percent};
use crate::watcher::{self, ActiveAlert};

verus! {

/// How often to look at memory.
pub struct Configuration {
    pub period_secs: u64,
}

/// How much memory is in use, as a whole percentage of what is installed.
#[derive(Clone, Copy, Debug, PartialEq, Eq)]
pub struct CheckResult {
    pub usage_percent: u64,
}

/// The check result for `total` bytes of installed memory of which `unused`
/// serve no purpose; an error when no memory is reported.
pub fn usage_from_totals(total: u64, unused: u64) -> (r: Result<CheckResult, anyhow::Error>)
    ensures
        r is Ok <==> total > 0,
        r matches Ok(c) ==> spec_used_percent(total as nat, unused as nat) == Some(
            c.usage_percent as nat,
        ),
        r matches Ok(c) ==> c.usage_percent <= 100,
{
    match used_percent(total, unused) {
        Some(p) => Ok(CheckResult { usage_percent: p }),
        None => Err(failure("the system reports no memory")),
    }
}

pub struct Checker {
    pub configuration: Configuration,
}

impl watcher::Checker for Checker {
    type CheckResult = CheckResult;

    type Configuration = Configuration;

    open spec fn spec_period(&self) -> Duration {
        secs_duration(self.configuration.period_secs)
    }

    open spec fn spec_new(configuration: Configuration) -> Self {
        Checker { configuration }
    }

    fn check(&self) -> (r: Result<CheckResult, anyhow::Error>)
        ensures
            r matches Ok(c) ==> c.usage_percent <= 100,
    {
        match memory_totals() {
            Ok(totals) => usage_from_totals(totals.total, totals.unused),
            Err(e) => Err(e),
        }
    }

    fn period(&self) -> (d: Duration) {
        duration_from_secs(self.configuration.period_secs)
    }

    fn new(configuration: Configuration) -> (r: Self) {
        Checker { configuration }
    }
}

/// Fires when more memory is in use than a threshold allows.
pub struct Alert {
    pub threshold_percent: u64,
}

impl watcher::Alert for Alert {
    type Checker = Checker;

    open spec fn spec_triggered(&self, check_result: CheckResult) -> Option<Seq<char>> {
        if check_result.usage_percent > self.threshold_percent {
            Some(
                over_threshold_message(
                    "memory"@,
                    check_result.usage_percent as nat,
                    self.threshold_percent as nat,
                ),
            )
        } else {
            None
        }
    }

    fn is_triggered(&self, check_result: &CheckResult) -> (r: Option<ActiveAlert>) {
        if check_result.usage_percent > self.threshold_percent {
            Some(
                ActiveAlert {
                    message: over_threshold(
                        "memory",
                        check_result.usage_percent,
                        self.threshold_percent,
                    ),
                },
            )
        } else {
            None
        }
    }
}

} // verus!
