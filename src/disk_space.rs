//! Watching how full a file system is.

use core::time::Duration;
use vstd::prelude::*;

use crate::outside::{duration_from_secs, failure, file_system_blocks, secs_duration};
use crate::text::{over_threshold, over_threshold_message};
use crate::usage::{spec_used_percent, used_percent};
use crate::watcher::{self, ActiveAlert};

verus! {

/// Which file system to watch, and how often.
pub struct Configuration {
    /// Any path on the file system.
    pub path: String,
    pub period_secs: u64,
}

/// How full the file system is, as a whole percentage of its blocks.
#[derive(Clone, Copy, Debug, PartialEq, Eq)]
pub struct CheckResult {
    pub usage_percent: u64,
}

/// The check result for a file system of `total` blocks of which `available`
/// are free for use; an error when the file system reports no blocks.
pub fn usage_from_blocks(total: u64, available: u64) -> (r: Result<CheckResult, anyhow::Error>)
    ensures
        r is Ok <==> total > 0,
        r matches Ok(c) ==> spec_used_percent(total as nat, available as nat) == Some(
            c.usage_percent as nat,
        ),
        r matches Ok(c) ==> c.usage_percent <= 100,
{
    match used_percent(total, available) {
        Some(p) => Ok(CheckResult { usage_percent: p }),
        None => Err(failure("the file system reports no blocks")),
    }
}

pub struct Checker {
    pub configuration: Configuration,
}

impl watcher::Checker for Checker {
    type CheckResult = CheckResult;

    type Configuration = Configuration;

    open spec fn spec_period(&self) -> Duration {
        secs_duration(self.configuration.period_secs)
    }

    open spec fn spec_new(configuration: Configuration) -> Self {
        Checker { configuration }
    }

    fn check(&self) -> (r: Result<CheckResult, anyhow::Error>)
        ensures
            r matches Ok(c) ==> c.usage_percent <= 100,
    {
        match file_system_blocks(self.configuration.path.as_str()) {
            Ok(counts) => usage_from_blocks(counts.total, counts.available),
            Err(e) => Err(e),
        }
    }

    fn period(&self) -> (d: Duration) {
        duration_from_secs(self.configuration.period_secs)
    }

    fn new(configuration: Configuration) -> (r: Self) {
        Checker { configuration }
    }
}

/// Fires when the file system is fuller than a threshold.
pub struct Alert {
    pub threshold_percent: u64,
}

impl watcher::Alert for Alert {
    type Checker = Checker;

    open spec fn spec_triggered(&self, check_result: CheckResult) -> Option<Seq<char>> {
        if check_result.usage_percent > self.threshold_percent {
            Some(
                over_threshold_message(
                    "disk"@,
                    check_result.usage_percent as nat,
                    self.threshold_percent as nat,
                ),
            )
        } else {
            None
        }
    }

    fn is_triggered(&self, check_result: &CheckResult) -> (r: Option<ActiveAlert>) {
        if check_result.usage_percent > self.threshold_percent {
            Some(
                ActiveAlert {
                    message: over_threshold(
                        "disk",
                        check_result.usage_percent,
                        self.threshold_percent,
                    ),
                },
            )
        } else {
            None
        }
    }
}

} // verus!
