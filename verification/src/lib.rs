//! Point-in-time GPU detection: the decisions and conversions behind a
//! fallback chain of probing backends, stated and proved with Verus.
//!
//! No uniform way to ask an operating system for its GPU exists, so a query
//! tries several backends in an order that depends on the OS family and stops
//! at the first that succeeds. This crate holds what such a query decides and
//! computes: the order of the backends, the chain that walks it, the rule by
//! which each backend makes a record of what its facility handed over, and
//! the normalizer that gives every record the same units. Reading a facility
//! is the caller's part: the caller hands its readings over as plain values.
//! Only the vendor's management library is read by the crate itself.
//!
//! Beside the GPU the crate holds the arithmetic and the choices behind the
//! snapshots of memory, disks, network interfaces and processes.

pub mod backend;
pub mod chain;
pub mod disk;
pub mod gpu;
pub mod memory;
pub mod network;
pub mod process;
pub mod search;
pub mod text;
pub mod units;

pub use crate::backend::Reading;
pub use crate::chain::{Backend, OsFamily};
pub use crate::gpu::{GpuInfo, ProbeError};

pub use crate::disk::{DiskDetail, DiskInfo};
pub use crate::memory::MemoryInfo;

use crate::backend::resolves;
use crate::chain::backend_order;
use crate::disk::DiskReading;
use crate::network::{active_among, active_network, ActiveNetwork, Interface};
use crate::process::{root_in, roots, selected, ProcessEntry};
use vstd::prelude::*;

verus! {

/// The entry point for queries about the system.
#[derive(Clone, Copy, Debug)]
pub struct SystemInfo;

impl SystemInfo {
    /// Detects a GPU on `os`. `read` reads the facility of the backend that
    /// it is asked for; it is asked for the backends of `os` in their order
    /// until one of them gives a record. No GPU is no error: where every
    /// backend fails, or `os` has none, the answer is `None`.
    pub fn gpu<R: Fn(Backend) -> Reading>(os: OsFamily, read: R) -> (found: Option<GpuInfo>)
        requires
            forall|b: Backend| b.supports(os) ==> call_requires(read, (b,)),
        ensures
            resolves(backend_order(os), read, found),
    {
        GpuInfo::new(os, read)
    }

    /// Main memory and swap space in whole megabytes, of the byte counts that
    /// the system reports.
    pub fn memory(total: u64, used: u64, swap_total: u64, swap_used: u64) -> (info: MemoryInfo)
        ensures
            info == MemoryInfo::of(total, used, swap_total, swap_used),
    {
        MemoryInfo::new(total, used, swap_total, swap_used)
    }

    /// The disks and their space in whole gigabytes, of what the system
    /// reports of each disk.
    pub fn disk(readings: &Vec<DiskReading>) -> (info: DiskInfo)
        ensures
            info.summarizes(readings@),
    {
        DiskInfo::new(readings)
    }

    /// The network interface that is in use, among the interfaces that the
    /// system reports.
    pub fn current_network(interfaces: &Vec<Interface>) -> (active: ActiveNetwork)
        ensures
            active == active_among(interfaces@),
    {
        active_network(interfaces)
    }

    /// The places of the processes that stand at the top, among the
    /// processes that the system reports: those without a parent that is
    /// reported too.
    pub fn process_all(entries: &Vec<ProcessEntry>) -> (places: Vec<usize>)
        ensures
            places@ == selected(entries@.len(), root_in(entries@)),
    {
        roots(entries)
    }
}

} // verus!
