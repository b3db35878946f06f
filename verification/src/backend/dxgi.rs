//! The display adapters as the OS enumerates them. An adapter's description
//! comes as a buffer of UTF-16 code units of fixed size, the name followed by
//! zeros; beside it stands the size of the dedicated video memory.

use crate::gpu::{named, outcome_view, GpuInfo, GpuRecord, Outcome, ProbeError};
use crate::search::{first, first_from, lemma_first_from};
use vstd::prelude::*;
use vstd::slice::slice_subrange;

verus! {

/// What the adapter at index 0 states of itself.
#[derive(Clone, Debug, PartialEq, Eq)]
pub struct AdapterDescription {
    /// The description buffer, as it came.
    pub description: Vec<u16>,
    /// Dedicated video memory, in bytes.
    pub dedicated_video_memory: u64,
}

/// How far the enumeration of display adapters got.
#[derive(Clone, Debug, PartialEq, Eq)]
pub enum DxgiReading {
    /// The enumeration interface could not be created.
    FactoryFailed,
    /// There is no adapter at index 0.
    NoAdapter,
    /// The adapter would not describe itself.
    DescriptionFailed,
    /// The adapter's description.
    Adapter(AdapterDescription),
}

/// The condition of being zero.
pub open spec fn is_zero() -> spec_fn(u16) -> bool {
    |unit: u16| unit == 0
}

/// The code units of `units` before its first zero: all of them where it
/// holds none.
pub open spec fn before_zero(units: Seq<u16>) -> Seq<u16> {
    units.take(first(units, is_zero()))
}

/// What stands before the first zero holds no zero, and it is followed by a
/// zero unless it is the whole buffer.
pub proof fn lemma_before_zero(units: Seq<u16>)
    ensures
        before_zero(units).len() <= units.len(),
        forall|k: int| 0 <= k < before_zero(units).len() ==> before_zero(units)[k] == units[k],
        forall|k: int| 0 <= k < before_zero(units).len() ==> units[k] != 0,
        before_zero(units).len() < units.len() ==> units[before_zero(units).len() as int] == 0,
{
    lemma_first_from(units, is_zero(), 0);
    let n = first(units, is_zero());
    assert forall|k: int| 0 <= k < n implies units[k] != 0 by {
        assert(!is_zero()(units[k]));
    }
}

/// What `String::from_utf16_lossy` of std makes of a sequence of UTF-16 code
/// units: the text that they stand for, with U+FFFD in place of what is no
/// valid UTF-16. The proofs know this text by its name only.
pub uninterp spec fn utf16_lossy(units: Seq<u16>) -> Seq<char>;

/// `String::from_utf16_lossy` of std. The contract claims that the text which
/// it returns depends on the code units alone, and gives that text its name.
#[verifier::external_body]
fn decode_utf16_lossy(units: &[u16]) -> (text: String)
    ensures
        text@ == utf16_lossy(units@),
{
    String::from_utf16_lossy(units)
}

/// The name that a description buffer holds: the text of its code units up
/// to the first zero.
pub open spec fn description_text(description: Seq<u16>) -> Seq<char> {
    utf16_lossy(before_zero(description))
}

/// The outcome for an adapter of the given name and memory size: the
/// normalized record with that total, or `ParseFailed` for an empty name.
pub open spec fn adapter_outcome(model: Seq<char>, dedicated_video_memory: u64) -> Result<
    GpuRecord,
    ProbeError,
> {
    named(model, GpuRecord::normalized(model, Some(dedicated_video_memory), None, None))
}

/// The outcome of the backend for a reading: `Unavailable` without the
/// enumeration interface or without an adapter, `QueryFailed` where the
/// adapter gave no description, and otherwise the outcome for the adapter's
/// name and memory.
pub open spec fn dxgi_outcome(reading: DxgiReading) -> Result<GpuRecord, ProbeError> {
    match reading {
        DxgiReading::FactoryFailed => Err(ProbeError::Unavailable),
        DxgiReading::NoAdapter => Err(ProbeError::Unavailable),
        DxgiReading::DescriptionFailed => Err(ProbeError::QueryFailed),
        DxgiReading::Adapter(adapter) => adapter_outcome(
            description_text(adapter.description@),
            adapter.dedicated_video_memory,
        ),
    }
}

/// Finds the code units before the first zero.
pub fn description_prefix(description: &[u16]) -> (prefix: &[u16])
    ensures
        prefix@ == before_zero(description@),
{
    let n: usize = description.len();
    let mut i: usize = 0;
    while i < n && description[i] != 0
        invariant
            n == description@.len(),
            i <= n,
            first(description@, is_zero()) == first_from(description@, is_zero(), i as int),
        decreases n - i,
    {
        i += 1;
    }
    slice_subrange(description, 0, i)
}

impl GpuInfo {
    /// Makes a record of an adapter's decoded name and its dedicated video
    /// memory in bytes. The record holds the name and the total memory; an
    /// empty name is refused as `ParseFailed`.
    pub fn from_adapter(model: String, dedicated_video_memory: u64) -> (res: Outcome)
        ensures
            outcome_view(res) == adapter_outcome(model@, dedicated_video_memory),
            res matches Ok(info) ==> info.wf(),
    {
        GpuInfo::normalize(model, Some(dedicated_video_memory), None, None)
    }

    /// Makes the backend's outcome of a reading of the display adapters.
    pub fn from_dxgi(reading: &DxgiReading) -> (res: Outcome)
        ensures
            outcome_view(res) == dxgi_outcome(*reading),
            res matches Ok(info) ==> info.wf(),
    {
        match reading {
            DxgiReading::FactoryFailed => Err(ProbeError::Unavailable),
            DxgiReading::NoAdapter => Err(ProbeError::Unavailable),
            DxgiReading::DescriptionFailed => Err(ProbeError::QueryFailed),
            DxgiReading::Adapter(adapter) => {
                let prefix = description_prefix(adapter.description.as_slice());
                let model = decode_utf16_lossy(prefix);
                GpuInfo::from_adapter(model, adapter.dedicated_video_memory)
            },
        }
    }
}

} // verus!
