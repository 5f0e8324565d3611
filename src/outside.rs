//! The calls this library makes into std and into outside crates, each with
//! the contract the rest of the library relies on.

use vstd::prelude::*;

verus! {

/// `anyhow::Error`, the error type that checkers and reporters fail with.
/// The library carries such values through without looking inside them.
#[verifier::external_type_specification]
#[verifier::external_body]
pub struct ExAnyhowError(anyhow::Error);

/// Relies on `anyhow::Error::msg`: an error carrying the given message.
#[verifier::external_body]
pub(crate) fn failure(message: &str) -> (e: anyhow::Error) {
    anyhow::Error::msg(String::from(message))
}

/// Relies on `Hasher::write_u8`: feeds one byte to the hasher.
#[verifier::external_body]
pub(crate) fn hash_tag<H: core::hash::Hasher>(state: &mut H, tag: u8) {
    state.write_u8(tag)
}

/// The duration of the given number of whole seconds.
pub uninterp spec fn secs_duration(secs: u64) -> core::time::Duration;

/// Relies on `Duration::from_secs`: the duration of `secs` whole seconds,
/// which depends on `secs` alone.
#[verifier::external_body]
pub(crate) fn duration_from_secs(secs: u64) -> (d: core::time::Duration)
    ensures
        d == secs_duration(secs),
{
    core::time::Duration::from_secs(secs)
}

/// Block counts of a mounted file system, in units of its fragment size.
pub struct BlockCounts {
    pub total: u64,
    pub available: u64,
}

/// Relies on `nix::sys::statvfs::statvfs`: the block counts of the file
/// system that holds `path`, or the operating system's error. What they are
/// depends on the machine, so nothing more is stated.
#[verifier::external_body]
pub(crate) fn file_system_blocks(path: &str) -> (r: Result<BlockCounts, anyhow::Error>) {
    let stats = nix::sys::statvfs::statvfs(path).map_err(anyhow::Error::from)?;
    Ok(BlockCounts { total: stats.blocks() as u64, available: stats.blocks_available() as u64 })
}

/// Installed and unused memory, in bytes.
pub struct MemoryTotals {
    pub total: u64,
    pub unused: u64,
}

/// Relies on `nix::sys::sysinfo::sysinfo`: the installed and the unused RAM,
/// or the operating system's error. What they are depends on the machine, so
/// nothing more is stated.
#[verifier::external_body]
pub(crate) fn memory_totals() -> (r: Result<MemoryTotals, anyhow::Error>) {
    let info = nix::sys::sysinfo::sysinfo().map_err(anyhow::Error::from)?;
    Ok(MemoryTotals { total: info.ram_total(), unused: info.ram_unused() })
}

} // verus!
