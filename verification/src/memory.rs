//! Main memory and swap space in whole megabytes.

use crate::units::left_of;
use vstd::prelude::*;

verus! {

/// `bytes` in whole megabytes, the rest dropped.
pub open spec fn whole_megabytes(bytes: u64) -> u64 {
    (bytes / 1024 / 1024) as u64
}

/// A snapshot of main memory and swap space, in whole megabytes.
#[derive(Clone, Copy, Debug, PartialEq, Eq)]
pub struct MemoryInfo {
    /// Total memory.
    pub total: u64,
    /// Memory in use.
    pub used: u64,
    /// Memory not in use.
    pub free: u64,
    /// Total swap space, on a system that has any.
    pub swap_total: Option<u64>,
    /// Swap space in use, on a system that has any.
    pub swap_used: Option<u64>,
    /// Swap space not in use, on a system that has any.
    pub swap_free: Option<u64>,
}

impl MemoryInfo {
    /// The snapshot for the given byte counts. Each count is converted on its
    /// own, and what is free is the converted total less the converted used
    /// amount. A system whose swap space is less than a megabyte has none.
    pub open spec fn of(total: u64, used: u64, swap_total: u64, swap_used: u64) -> MemoryInfo {
        let has_swap = whole_megabytes(swap_total) > 0;
        MemoryInfo {
            total: whole_megabytes(total),
            used: whole_megabytes(used),
            free: left_of(whole_megabytes(total), whole_megabytes(used)),
            swap_total: if has_swap {
                Some(whole_megabytes(swap_total))
            } else {
                None
            },
            swap_used: if has_swap {
                Some(whole_megabytes(swap_used))
            } else {
                None
            },
            swap_free: if has_swap {
                Some(left_of(whole_megabytes(swap_total), whole_megabytes(swap_used)))
            } else {
                None
            },
        }
    }

    /// Makes a snapshot of the byte counts that the system reports.
    pub fn new(total: u64, used: u64, swap_total: u64, swap_used: u64) -> (info: MemoryInfo)
        ensures
            info == MemoryInfo::of(total, used, swap_total, swap_used),
    {
        let total_mb: u64 = total / 1024 / 1024;
        let used_mb: u64 = used / 1024 / 1024;
        let swap_total_mb: u64 = swap_total / 1024 / 1024;
        let swap_used_mb: u64 = swap_used / 1024 / 1024;
        let has_swap = swap_total_mb > 0;
        MemoryInfo {
            total: total_mb,
            used: used_mb,
            free: total_mb.saturating_sub(used_mb),
            swap_total: if has_swap {
                Some(swap_total_mb)
            } else {
                None
            },
            swap_used: if has_swap {
                Some(swap_used_mb)
            } else {
                None
            },
            swap_free: if has_swap {
                Some(swap_total_mb.saturating_sub(swap_used_mb))
            } else {
                None
            },
        }
    }
}

/// A snapshot accounts for all of the memory: where no more is in use than
/// there is, used and free memory add up to the total, and so for swap space.
pub proof fn lemma_memory_adds_up(total: u64, used: u64, swap_total: u64, swap_used: u64)
    ensures
        ({
            let info = MemoryInfo::of(total, used, swap_total, swap_used);
            &&& used <= total ==> info.used + info.free == info.total
            &&& info.free <= info.total
            &&& info.swap_total is Some <==> info.swap_used is Some
            &&& info.swap_total is Some <==> info.swap_free is Some
            &&& info.swap_total matches Some(all) ==> all > 0 && info.swap_free->0 <= all
            &&& info.swap_total is Some && swap_used <= swap_total ==> info.swap_used->0
                + info.swap_free->0 == info.swap_total->0
        }),
{
}

} // verus!
