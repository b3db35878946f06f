//! The instrumentation service of the OS and its video controllers. It knows
//! a name and the memory that the adapter declares, and nothing of memory in
//! use or of load.

use crate::gpu::{named, outcome_view, GpuInfo, GpuRecord, Outcome, ProbeError};
use vstd::prelude::*;

verus! {

/// One video controller as the service lists it.
#[derive(Clone, Debug, PartialEq, Eq)]
pub struct VideoController {
    /// The controller's name, where the service states one.
    pub name: Option<String>,
    /// The adapter's memory in bytes, where the service states it.
    pub adapter_ram: Option<u64>,
}

/// How far a query for the video controllers got.
#[derive(Clone, Debug, PartialEq, Eq)]
pub enum WmiReading {
    /// The service could not be reached.
    ConnectionFailed,
    /// The service was reached and the query failed.
    QueryFailed,
    /// The query's rows, in the order in which they came.
    Rows(Vec<VideoController>),
}

/// The name under which a controller is reported: its own, and `Unknown`
/// where it has none or an empty one.
pub open spec fn controller_model(name: Option<String>) -> Seq<char> {
    match name {
        Some(text) => if text@.len() > 0 {
            text@
        } else {
            "Unknown"@
        },
        None => "Unknown"@,
    }
}

/// The outcome for the rows of an answer: the record of the first row, and
/// `Unavailable` where there is none.
pub open spec fn rows_outcome(rows: Seq<VideoController>) -> Result<GpuRecord, ProbeError> {
    if rows.len() == 0 {
        Err(ProbeError::Unavailable)
    } else {
        named(
            controller_model(rows[0].name),
            GpuRecord::normalized(controller_model(rows[0].name), rows[0].adapter_ram, None, None),
        )
    }
}

/// The outcome of the backend for a reading: `Unavailable` without the
/// service, `QueryFailed` where the query failed, and otherwise the outcome
/// for the rows.
pub open spec fn wmi_outcome(reading: WmiReading) -> Result<GpuRecord, ProbeError> {
    match reading {
        WmiReading::ConnectionFailed => Err(ProbeError::Unavailable),
        WmiReading::QueryFailed => Err(ProbeError::QueryFailed),
        WmiReading::Rows(rows) => rows_outcome(rows@),
    }
}

/// Where the service answers with a row, the backend succeeds. Its record
/// is made of the first row alone, and says nothing of memory in use, of free
/// memory or of load.
pub proof fn lemma_first_row_decides(first: VideoController, rest: Seq<VideoController>)
    ensures
        rows_outcome(seq![first] + rest) == rows_outcome(seq![first]),
        rows_outcome(seq![first] + rest) matches Ok(record) && record.wf()
            && record.memory_used is None && record.memory_free is None && record.usage is None,
{
    reveal_strlit("Unknown");
}

impl GpuInfo {
    /// Makes the backend's outcome of a reading of the instrumentation
    /// service.
    pub fn from_wmi(reading: &WmiReading) -> (res: Outcome)
        ensures
            outcome_view(res) == wmi_outcome(*reading),
            res matches Ok(info) ==> info.wf(),
    {
        match reading {
            WmiReading::ConnectionFailed => Err(ProbeError::Unavailable),
            WmiReading::QueryFailed => Err(ProbeError::QueryFailed),
            WmiReading::Rows(rows) => {
                if rows.len() == 0 {
                    return Err(ProbeError::Unavailable);
                }
                let first = &rows[0];
                let model: String = match &first.name {
                    Some(text) => if text.as_str().is_empty() {
                        "Unknown".to_owned()
                    } else {
                        text.clone()
                    },
                    None => "Unknown".to_owned(),
                };
                GpuInfo::normalize(model, first.adapter_ram, None, None)
            },
        }
    }
}

} // verus!
