//! Configuration-driven periodic monitoring: checkers observe the system,
//! alerts decide over what was observed, and watchers tie the two together
//! and hand every firing alert to a reporter.

pub mod disk_space;
pub mod memory;
pub mod outside;
pub mod reporter;
pub mod text;
pub mod usage;
pub mod watcher;
