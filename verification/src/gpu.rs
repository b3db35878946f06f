//! The GPU record, the ways a probe can fail, and the normalizer that turns
//! raw readings into a record.

use crate::units::{bytes_to_mb, mb_hundredths};
use vstd::prelude::*;

verus! {

/// Why a backend gave no record. The three kinds serve diagnostics only: a
/// fallback chain moves on in the same way after each of them.
#[derive(Clone, Copy, Debug, PartialEq, Eq, Structural)]
pub enum ProbeError {
    /// The facility, tool or service is not present.
    Unavailable,
    /// It is present and answered with a failure status.
    QueryFailed,
    /// It answered, in a shape that was not expected.
    ParseFailed,
}

/// What one successful probe found out about a GPU.
///
/// Memory sizes are in hundredths of a megabyte. A record is made anew by each
/// query and holds values of one backend only.
#[derive(Clone, Debug, PartialEq, Eq)]
pub struct GpuInfo {
    /// Display name of the device; never empty.
    pub model: String,
    /// Total memory.
    pub memory_total: Option<u64>,
    /// Memory in use.
    pub memory_used: Option<u64>,
    /// Memory not in use: total less used, where both are known.
    pub memory_free: Option<u64>,
    /// Load in percent, from 0 to 100.
    pub usage: Option<u8>,
}

/// The mathematical content of a `GpuInfo`.
pub struct GpuRecord {
    pub model: Seq<char>,
    pub memory_total: Option<u64>,
    pub memory_used: Option<u64>,
    pub memory_free: Option<u64>,
    pub usage: Option<u8>,
}

/// The free memory that follows from a total and a used amount: their
/// difference, where both are known and the used amount is not the larger.
pub open spec fn free_memory(total: Option<u64>, used: Option<u64>) -> Option<u64> {
    match (total, used) {
        (Some(t), Some(u)) => if u <= t {
            Some((t - u) as u64)
        } else {
            None
        },
        _ => None,
    }
}

/// A raw load reading as a percentage: itself where it is at most 100, and
/// nothing otherwise.
pub open spec fn usage_percent(raw: Option<u32>) -> Option<u8> {
    match raw {
        Some(p) => if p <= 100 {
            Some(p as u8)
        } else {
            None
        },
        None => None,
    }
}

/// A byte count, where there is one, in hundredths of a megabyte.
pub open spec fn bytes_as_mb(bytes: Option<u64>) -> Option<u64> {
    match bytes {
        Some(b) => Some(mb_hundredths(b as nat) as u64),
        None => None,
    }
}

impl GpuRecord {
    /// The invariant of a record: a name that is not empty, a load of at most
    /// 100 percent, and free memory that is exactly the total less the used
    /// memory where both are known, and unknown otherwise.
    pub open spec fn wf(self) -> bool {
        &&& self.model.len() > 0
        &&& self.usage matches Some(p) ==> p <= 100
        &&& self.memory_free == free_memory(self.memory_total, self.memory_used)
    }

    /// The record with the given name, sizes in hundredths of a megabyte and
    /// raw load.
    pub open spec fn assemble(
        model: Seq<char>,
        total: Option<u64>,
        used: Option<u64>,
        usage: Option<u32>,
    ) -> GpuRecord {
        GpuRecord {
            model,
            memory_total: total,
            memory_used: used,
            memory_free: free_memory(total, used),
            usage: usage_percent(usage),
        }
    }

    /// The record that the normalizer makes of a name, raw byte counts and a
    /// raw load.
    pub open spec fn normalized(
        model: Seq<char>,
        total_bytes: Option<u64>,
        used_bytes: Option<u64>,
        usage: Option<u32>,
    ) -> GpuRecord {
        GpuRecord::assemble(model, bytes_as_mb(total_bytes), bytes_as_mb(used_bytes), usage)
    }
}

impl View for GpuInfo {
    type V = GpuRecord;

    open spec fn view(&self) -> GpuRecord {
        GpuRecord {
            model: self.model@,
            memory_total: self.memory_total,
            memory_used: self.memory_used,
            memory_free: self.memory_free,
            usage: self.usage,
        }
    }
}

/// The outcome of one probe.
pub type Outcome = Result<GpuInfo, ProbeError>;

/// The mathematical content of an outcome.
pub open spec fn outcome_view(outcome: Outcome) -> Result<GpuRecord, ProbeError> {
    match outcome {
        Ok(info) => Ok(info@),
        Err(e) => Err(e),
    }
}

/// The mathematical content of what a query found.
pub open spec fn found_view(found: Option<GpuInfo>) -> Option<GpuRecord> {
    match found {
        Some(info) => Some(info@),
        None => None,
    }
}

/// The outcome for a device of the given name: a record, unless the name is
/// empty.
pub open spec fn named(model: Seq<char>, record: GpuRecord) -> Result<GpuRecord, ProbeError> {
    if model.len() > 0 {
        Ok(record)
    } else {
        Err(ProbeError::ParseFailed)
    }
}

/// Every record that `assemble` makes under a name that is not empty is well
/// formed.
pub proof fn lemma_assemble_wf(
    model: Seq<char>,
    total: Option<u64>,
    used: Option<u64>,
    usage: Option<u32>,
)
    requires
        model.len() > 0,
    ensures
        GpuRecord::assemble(model, total, used, usage).wf(),
{
}

/// In a well-formed record with a known total and a known used amount that
/// does not exceed it, free memory is known and the three add up.
pub proof fn lemma_free_is_total_less_used(record: GpuRecord)
    requires
        record.wf(),
        record.memory_total is Some,
        record.memory_used is Some,
        record.memory_used->0 <= record.memory_total->0,
    ensures
        record.memory_free is Some,
        record.memory_free->0 + record.memory_used->0 == record.memory_total->0,
{
}

/// A well-formed record never states free memory that it cannot account for:
/// where free memory is known, so are the total and the used amount, and the
/// three add up.
pub proof fn lemma_free_is_never_invented(record: GpuRecord)
    requires
        record.wf(),
        record.memory_free is Some,
    ensures
        record.memory_total is Some,
        record.memory_used is Some,
        record.memory_free->0 + record.memory_used->0 == record.memory_total->0,
{
}

/// The model and the total memory of a normalized record depend on the name
/// and the total byte count alone: two readings that agree on these give the
/// same model and the same total, whatever else they hold.
pub proof fn lemma_normalized_static_fields(
    model: Seq<char>,
    total_bytes: Option<u64>,
    used_a: Option<u64>,
    usage_a: Option<u32>,
    used_b: Option<u64>,
    usage_b: Option<u32>,
)
    ensures
        GpuRecord::normalized(model, total_bytes, used_a, usage_a).model == GpuRecord::normalized(
            model,
            total_bytes,
            used_b,
            usage_b,
        ).model,
        GpuRecord::normalized(model, total_bytes, used_a, usage_a).memory_total
            == GpuRecord::normalized(model, total_bytes, used_b, usage_b).memory_total,
{
}

impl GpuInfo {
    /// Whether the record keeps its invariant.
    pub open spec fn wf(&self) -> bool {
        self@.wf()
    }

    /// Makes a record of a name, sizes in hundredths of a megabyte and a raw
    /// load. Free memory is derived from the two sizes; a load above 100 is
    /// dropped. An empty name is refused as `ParseFailed`.
    pub fn assemble(
        model: String,
        total: Option<u64>,
        used: Option<u64>,
        usage: Option<u32>,
    ) -> (res: Outcome)
        ensures
            outcome_view(res) == named(model@, GpuRecord::assemble(model@, total, used, usage)),
            res matches Ok(info) ==> info.wf(),
    {
        if model.as_str().is_empty() {
            return Err(ProbeError::ParseFailed);
        }
        let memory_free: Option<u64> = match (total, used) {
            (Some(t), Some(u)) => if u <= t {
                Some(t - u)
            } else {
                None
            },
            _ => None,
        };
        let usage: Option<u8> = match usage {
            Some(p) => if p <= 100 {
                Some(p as u8)
            } else {
                None
            },
            None => None,
        };
        Ok(GpuInfo { model, memory_total: total, memory_used: used, memory_free, usage })
    }

    /// The record normalizer: makes a record of a name, raw byte counts and a
    /// raw load. Each byte count is converted to hundredths of a megabyte,
    /// free memory is the converted total less the converted used amount, and
    /// the load is passed through. An empty name is refused as `ParseFailed`.
    pub fn normalize(
        model: String,
        total_bytes: Option<u64>,
        used_bytes: Option<u64>,
        usage: Option<u32>,
    ) -> (res: Outcome)
        ensures
            outcome_view(res) == named(
                model@,
                GpuRecord::normalized(model@, total_bytes, used_bytes, usage),
            ),
            res matches Ok(info) ==> info.wf(),
    {
        let total: Option<u64> = match total_bytes {
            Some(b) => Some(bytes_to_mb(b)),
            None => None,
        };
        let used: Option<u64> = match used_bytes {
            Some(b) => Some(bytes_to_mb(b)),
            None => None,
        };
        GpuInfo::assemble(model, total, used, usage)
    }
}

} // verus!
