//! The vendor's management library: the one backend that reports memory in
//! use and load beside the name and the total memory.
//!
//! The library is reached through the crate nvml-wrapper, which loads it when
//! it is asked to. What the calls into that crate return depends on the
//! machine, and nothing is claimed of it: the rule that makes a record of a
//! reading is proved for every reading.

use crate::gpu::{named, outcome_view, GpuInfo, GpuRecord, Outcome, ProbeError};
use nvml_wrapper::error::NvmlError;
use nvml_wrapper::{Device, Nvml};
use vstd::prelude::*;

verus! {

/// `Nvml` of nvml-wrapper: the vendor's library, loaded and initialized.
#[verifier::external_type_specification]
#[verifier::external_body]
pub struct ExNvml(Nvml);

/// `Device` of nvml-wrapper: the handle of one device.
#[verifier::external_type_specification]
#[verifier::external_body]
pub struct ExDevice<'nvml>(Device<'nvml>);

/// `NvmlError` of nvml-wrapper: why a call failed.
#[verifier::external_type_specification]
#[verifier::external_body]
pub struct ExNvmlError(NvmlError);

/// What the library reports of the device at index 0.
#[derive(Clone, Debug, PartialEq, Eq)]
pub struct DeviceSample {
    /// The device's name.
    pub name: String,
    /// Total memory, in bytes.
    pub memory_total: u64,
    /// Memory in use, in bytes.
    pub memory_used: u64,
    /// Load in percent, where the library could tell it.
    pub utilization: Option<u32>,
}

/// How far a query of the vendor's management library got.
#[derive(Clone, Debug, PartialEq, Eq)]
pub enum NvmlReading {
    /// The library could not be initialized.
    InitFailed,
    /// It was initialized and has no device at index 0.
    NoDevice,
    /// The device would not tell its name or its memory counters.
    QueryFailed,
    /// The device answered.
    Sample(DeviceSample),
}

/// The outcome of the backend for a reading: `Unavailable` without the
/// library or without a device, `QueryFailed` where the device refused, and
/// for a sample the normalized record, a sample without a name being a
/// `ParseFailed`.
pub open spec fn nvml_outcome(reading: NvmlReading) -> Result<GpuRecord, ProbeError> {
    match reading {
        NvmlReading::InitFailed => Err(ProbeError::Unavailable),
        NvmlReading::NoDevice => Err(ProbeError::Unavailable),
        NvmlReading::QueryFailed => Err(ProbeError::QueryFailed),
        NvmlReading::Sample(sample) => named(
            sample.name@,
            GpuRecord::normalized(
                sample.name@,
                Some(sample.memory_total),
                Some(sample.memory_used),
                sample.utilization,
            ),
        ),
    }
}

/// A record of this backend knows its total and its used memory; and it knows
/// its free memory, which is the one less the other, unless the device
/// reported more memory in use than it has.
pub proof fn lemma_nvml_record_is_complete(reading: NvmlReading)
    requires
        nvml_outcome(reading) is Ok,
    ensures
        ({
            let record = nvml_outcome(reading)->Ok_0;
            &&& record.wf()
            &&& record.memory_total is Some
            &&& record.memory_used is Some
            &&& record.memory_used->0 <= record.memory_total->0 ==> record.memory_free == Some(
                (record.memory_total->0 - record.memory_used->0) as u64,
            )
        }),
{
}

/// Two samples of one device under a different load, which agree on the name
/// and the total memory, give records with the same model and the same total.
pub proof fn lemma_nvml_static_fields(a: DeviceSample, b: DeviceSample)
    requires
        a.name@ == b.name@,
        a.memory_total == b.memory_total,
    ensures
        nvml_outcome(NvmlReading::Sample(a)) is Ok <==> nvml_outcome(NvmlReading::Sample(b)) is Ok,
        nvml_outcome(NvmlReading::Sample(a)) matches Ok(x) ==> {
            &&& nvml_outcome(NvmlReading::Sample(b)) matches Ok(y)
            &&& x.model == y.model
            &&& x.memory_total == y.memory_total
        },
{
}

/// `Nvml::init` of nvml-wrapper: loads the vendor's library and initializes
/// it. Whether that succeeds depends on the machine; nothing is claimed of
/// the result.
#[verifier::external_body]
fn nvml_init() -> (res: Result<Nvml, NvmlError>) {
    Nvml::init()
}

/// `Nvml::device_by_index` of nvml-wrapper: the handle of the device at
/// `index`. Whether there is one depends on the machine; nothing is claimed
/// of the result.
#[verifier::external_body]
fn nvml_device<'nvml>(nvml: &'nvml Nvml, index: u32) -> (res: Result<Device<'nvml>, NvmlError>) {
    nvml.device_by_index(index)
}

/// `Device::name` of nvml-wrapper: the device's name, as its driver states
/// it. Nothing is claimed of the result.
#[verifier::external_body]
fn device_name(device: &Device<'_>) -> (res: Result<String, NvmlError>) {
    device.name()
}

/// `Device::memory_info` of nvml-wrapper: of the memory counters that the
/// driver states, the total and the used amount in bytes, in this order.
/// Nothing is claimed of the result.
#[verifier::external_body]
fn device_memory(device: &Device<'_>) -> (res: Result<(u64, u64), NvmlError>) {
    device.memory_info().map(|memory| (memory.total, memory.used))
}

/// `Device::utilization_rates` of nvml-wrapper: of the rates that the driver
/// states, the share of time in which the GPU was busy, in percent. Nothing
/// is claimed of the result.
#[verifier::external_body]
fn device_utilization(device: &Device<'_>) -> (res: Result<u32, NvmlError>) {
    device.utilization_rates().map(|rates| rates.gpu)
}

impl NvmlReading {
    /// Reads the vendor's management library: the device at index 0, its
    /// name, its memory counters and its load. The library is released
    /// before the reading is handed back. What is read depends on the
    /// machine; whatever it is, a record that the backend makes of it is well
    /// formed and knows its total and its used memory.
    pub fn read() -> (reading: NvmlReading)
        ensures
            nvml_outcome(reading) matches Ok(record) ==> record.wf() && record.memory_total
                is Some && record.memory_used is Some,
    {
        let nvml = match nvml_init() {
            Ok(nvml) => nvml,
            Err(_) => {
                return NvmlReading::InitFailed;
            },
        };
        let device = match nvml_device(&nvml, 0) {
            Ok(device) => device,
            Err(_) => {
                return NvmlReading::NoDevice;
            },
        };
        let name = match device_name(&device) {
            Ok(name) => name,
            Err(_) => {
                return NvmlReading::QueryFailed;
            },
        };
        let (memory_total, memory_used) = match device_memory(&device) {
            Ok(counters) => counters,
            Err(_) => {
                return NvmlReading::QueryFailed;
            },
        };
        let utilization = match device_utilization(&device) {
            Ok(rate) => Some(rate),
            Err(_) => None,
        };
        NvmlReading::Sample(DeviceSample { name, memory_total, memory_used, utilization })
    }
}

impl GpuInfo {
    /// Probes this backend: reads the vendor's management library and makes
    /// the backend's outcome of what was read. Whatever was read, a record
    /// that comes of it is well formed and knows its total and its used
    /// memory.
    pub fn probe_nvml() -> (res: Outcome)
        ensures
            exists|reading: NvmlReading| outcome_view(res) == #[trigger] nvml_outcome(reading),
            res matches Ok(info) ==> info.wf() && info.memory_total is Some && info.memory_used
                is Some,
    {
        let reading = NvmlReading::read();
        GpuInfo::from_nvml(&reading)
    }

    /// Makes the backend's outcome of a reading of the vendor's management
    /// library.
    pub fn from_nvml(reading: &NvmlReading) -> (res: Outcome)
        ensures
            outcome_view(res) == nvml_outcome(*reading),
            res matches Ok(info) ==> info.wf(),
    {
        match reading {
            NvmlReading::InitFailed => Err(ProbeError::Unavailable),
            NvmlReading::NoDevice => Err(ProbeError::Unavailable),
            NvmlReading::QueryFailed => Err(ProbeError::QueryFailed),
            NvmlReading::Sample(sample) => GpuInfo::normalize(
                sample.name.clone(),
                Some(sample.memory_total),
                Some(sample.memory_used),
                sample.utilization,
            ),
        }
    }
}

} // verus!
