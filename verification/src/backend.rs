//! The five backends. Each module holds the plain values that one facility
//! hands over and the rule that makes a record, or a failure, of them.
//! Reading a facility is left to the caller, with one exception: the vendor's
//! management library is read here, through the crate that wraps it.

pub mod dxgi;
pub mod iokit;
pub mod lspci;
pub mod nvml;
pub mod wmi;

use crate::backend::dxgi::{dxgi_outcome, DxgiReading};
use crate::backend::iokit::{iokit_outcome, RegistryReading};
use crate::backend::lspci::{lspci_outcome, ToolRun};
use crate::backend::nvml::{nvml_outcome, NvmlReading};
use crate::backend::wmi::{wmi_outcome, WmiReading};
use crate::chain::{
    backend_order, backends_for, can_fail, first_success, lemma_order_lists_supported, Backend,
    OsFamily,
};
use crate::gpu::{outcome_view, GpuInfo, GpuRecord, Outcome, ProbeError};
use vstd::prelude::*;

verus! {

/// What a caller read from the facility of one backend.
#[derive(Clone, Debug, PartialEq, Eq)]
pub enum Reading {
    /// From the vendor's management library.
    Nvml(NvmlReading),
    /// From the instrumentation service of the OS.
    Wmi(WmiReading),
    /// From the display adapters.
    Dxgi(DxgiReading),
    /// From the device listing tool.
    Lspci(ToolRun),
    /// From the service registry of the OS.
    IoKit(RegistryReading),
}

impl Reading {
    /// The backend whose facility the reading is from.
    pub open spec fn source(self) -> Backend {
        match self {
            Reading::Nvml(_) => Backend::VendorManagementLibrary,
            Reading::Wmi(_) => Backend::OsDeviceRegistry,
            Reading::Dxgi(_) => Backend::DisplayAdapterDescriptor,
            Reading::Lspci(_) => Backend::DeviceInventoryText,
            Reading::IoKit(_) => Backend::PlatformRegistryIoKit,
        }
    }

    /// The outcome of the reading's backend for it.
    pub open spec fn outcome(self) -> Result<GpuRecord, ProbeError> {
        match self {
            Reading::Nvml(reading) => nvml_outcome(reading),
            Reading::Wmi(reading) => wmi_outcome(reading),
            Reading::Dxgi(reading) => dxgi_outcome(reading),
            Reading::Lspci(run) => lspci_outcome(run),
            Reading::IoKit(reading) => iokit_outcome(reading),
        }
    }

    /// Tells the backend whose facility the reading is from.
    pub fn backend(&self) -> (backend: Backend)
        ensures
            backend == self.source(),
    {
        match self {
            Reading::Nvml(_) => Backend::VendorManagementLibrary,
            Reading::Wmi(_) => Backend::OsDeviceRegistry,
            Reading::Dxgi(_) => Backend::DisplayAdapterDescriptor,
            Reading::Lspci(_) => Backend::DeviceInventoryText,
            Reading::IoKit(_) => Backend::PlatformRegistryIoKit,
        }
    }
}

/// Whether `read` can hand over, for `backend`, a reading of which the
/// backend makes a failure.
pub open spec fn can_read_failure<R: Fn(Backend) -> Reading>(read: R, backend: Backend) -> bool {
    exists|reading: Reading| call_ensures(read, (backend,), reading) && reading.outcome() is Err
}

/// Whether `info` was found at place `i` of `order`: `read` handed over
/// `reading` for the backend at that place, the backend makes the record of
/// `info` of it, and every backend before that place was read with a failure.
pub open spec fn found_at<R: Fn(Backend) -> Reading>(
    order: Seq<Backend>,
    read: R,
    info: GpuInfo,
    i: int,
    reading: Reading,
) -> bool {
    &&& 0 <= i < order.len()
    &&& call_ensures(read, (order[i],), reading)
    &&& reading.outcome() == Ok::<GpuRecord, ProbeError>(info@)
    &&& forall|j: int| 0 <= j < i ==> can_read_failure(read, #[trigger] order[j])
}

/// How a query over `order` can end when `read` does the reading: with a
/// record that is well formed and was found at some place of the list; or
/// with nothing, every backend of the list having been read with a failure.
pub open spec fn resolves<R: Fn(Backend) -> Reading>(
    order: Seq<Backend>,
    read: R,
    found: Option<GpuInfo>,
) -> bool {
    match found {
        Some(info) => {
            &&& info.wf()
            &&& exists|i: int, reading: Reading| found_at(order, read, info, i, reading)
        },
        None => forall|j: int| 0 <= j < order.len() ==> can_read_failure(read, #[trigger] order[j]),
    }
}

/// Whether `res` is what the backend of `reading` makes of it, a record
/// among the outcomes being well formed.
pub open spec fn outcome_of(reading: Reading, res: Outcome) -> bool {
    &&& outcome_view(res) == reading.outcome()
    &&& res matches Ok(info) ==> info.wf()
}

/// What stays the same of a device from one query to the next: the model and
/// the total memory of the record that is made of a reading, and nothing for a
/// reading of which a failure is made.
pub open spec fn static_part(outcome: Result<GpuRecord, ProbeError>) -> Option<
    (Seq<char>, Option<u64>),
> {
    match outcome {
        Ok(record) => Some((record.model, record.memory_total)),
        Err(_) => None,
    }
}

/// Whether `read` is steady: whether any two readings that it can hand over
/// for one backend agree in their static part.
pub open spec fn steady<R: Fn(Backend) -> Reading>(read: R) -> bool {
    forall|backend: Backend, a: Reading, b: Reading|
        #![trigger call_ensures(read, (backend,), a), call_ensures(read, (backend,), b)]
        call_ensures(read, (backend,), a) && call_ensures(read, (backend,), b) ==> static_part(
            a.outcome(),
        ) == static_part(b.outcome())
}

/// Fallback order: where the reading of the first backend cannot be a
/// failure, a query ends with a record that was found at the first place.
pub proof fn lemma_first_backend_decides<R: Fn(Backend) -> Reading>(
    order: Seq<Backend>,
    read: R,
    found: Option<GpuInfo>,
)
    requires
        resolves(order, read, found),
        order.len() > 0,
        !can_read_failure(read, order[0]),
    ensures
        found matches Some(info) && exists|reading: Reading|
            found_at(order, read, info, 0, reading),
{
    if let Some(info) = found {
        let (i, reading) = choose|i: int, reading: Reading|
            found_at(order, read, info, i, reading);
        assert(i == 0);
    }
}

/// No GPU is no error: where no backend of the list can be read with a
/// success, a query ends with nothing; and so does every query over an empty
/// list.
pub proof fn lemma_nothing_found_where_no_reading_succeeds<R: Fn(Backend) -> Reading>(
    order: Seq<Backend>,
    read: R,
    found: Option<GpuInfo>,
)
    requires
        resolves(order, read, found),
        forall|j: int, reading: Reading|
            0 <= j < order.len() && call_ensures(read, (#[trigger] order[j],), reading)
                ==> #[trigger] reading.outcome() is Err,
    ensures
        found is None,
{
    if let Some(info) = found {
        let (i, reading) = choose|i: int, reading: Reading|
            found_at(order, read, info, i, reading);
        assert(reading.outcome() is Err);
    }
}

/// Idempotence: two queries over one list with one steady reader end alike.
/// Both find a record or neither does, and two records that they find have
/// the same model and the same total memory.
pub proof fn lemma_queries_agree<R: Fn(Backend) -> Reading>(
    order: Seq<Backend>,
    read: R,
    first: Option<GpuInfo>,
    second: Option<GpuInfo>,
)
    requires
        resolves(order, read, first),
        resolves(order, read, second),
        steady(read),
    ensures
        first is Some <==> second is Some,
        first matches Some(a) ==> second matches Some(b) && a.model@ == b.model@
            && a.memory_total == b.memory_total,
{
    match (first, second) {
        (Some(a), Some(b)) => {
            let (i, ra) = choose|i: int, reading: Reading| found_at(order, read, a, i, reading);
            let (k, rb) = choose|k: int, reading: Reading| found_at(order, read, b, k, reading);
            if k < i {
                lemma_steady_backend_cannot_do_both(read, order[k], rb);
            } else if i < k {
                lemma_steady_backend_cannot_do_both(read, order[i], ra);
            } else {
                assert(static_part(ra.outcome()) == static_part(rb.outcome()));
            }
        },
        (Some(a), None) => {
            let (i, ra) = choose|i: int, reading: Reading| found_at(order, read, a, i, reading);
            lemma_steady_backend_cannot_do_both(read, order[i], ra);
        },
        (None, Some(b)) => {
            let (k, rb) = choose|k: int, reading: Reading| found_at(order, read, b, k, reading);
            lemma_steady_backend_cannot_do_both(read, order[k], rb);
        },
        (None, None) => {},
    }
}

/// A backend that a steady reader reads with a success is never read with a
/// failure.
proof fn lemma_steady_backend_cannot_do_both<R: Fn(Backend) -> Reading>(
    read: R,
    backend: Backend,
    good: Reading,
)
    requires
        steady(read),
        call_ensures(read, (backend,), good),
        good.outcome() is Ok,
    ensures
        !can_read_failure(read, backend),
{
    if can_read_failure(read, backend) {
        let bad = choose|reading: Reading|
            call_ensures(read, (backend,), reading) && reading.outcome() is Err;
        assert(static_part(good.outcome()) == static_part(bad.outcome()));
    }
}

impl GpuInfo {
    /// Makes of a reading the outcome of the backend that it is from.
    pub fn from_reading(reading: &Reading) -> (res: Outcome)
        ensures
            outcome_view(res) == reading.outcome(),
            res matches Ok(info) ==> info.wf(),
    {
        match reading {
            Reading::Nvml(reading) => GpuInfo::from_nvml(reading),
            Reading::Wmi(reading) => GpuInfo::from_wmi(reading),
            Reading::Dxgi(reading) => GpuInfo::from_dxgi(reading),
            Reading::Lspci(run) => GpuInfo::from_lspci(run),
            Reading::IoKit(reading) => GpuInfo::from_iokit(reading),
        }
    }

    /// A GPU query over `order`: has `read` read the facility of one backend
    /// after the other, and returns the record of the first reading of which
    /// its backend makes one. No facility is read twice, and none after a
    /// success.
    pub fn query<R: Fn(Backend) -> Reading>(order: Vec<Backend>, read: R) -> (found: Option<
        GpuInfo,
    >)
        requires
            forall|b: Backend| order@.contains(b) ==> call_requires(read, (b,)),
        ensures
            resolves(order@, read, found),
    {
        let ghost list = order@;
        let ghost readable: spec_fn(Backend) -> bool = |backend: Backend|
            call_requires(read, (backend,));
        let ghost read_as: spec_fn(Backend, Outcome) -> bool = |backend: Backend, res: Outcome|
            exists|reading: Reading|
                call_ensures(read, (backend,), reading) && #[trigger] outcome_of(reading, res);
        let probe = |backend: Backend| -> (res: Outcome)
            requires
                readable(backend),
            ensures
                read_as(backend, res),
            {
                let reading = read(backend);
                let res = GpuInfo::from_reading(&reading);
                proof {
                    assert(outcome_of(reading, res));
                }
                res
            };
        let res = first_success(order, probe);
        proof {
            let attempts = res.attempts as int;
            let failed = if res.found is Some {
                attempts - 1
            } else {
                attempts
            };
            assert forall|j: int| 0 <= j < failed implies can_read_failure(
                read,
                #[trigger] list[j],
            ) by {
                assert(can_fail(probe, list[j]));
                let e = choose|e: ProbeError|
                    call_ensures(probe, (list[j],), Err::<GpuInfo, ProbeError>(e));
                let reading = choose|reading: Reading|
                    call_ensures(read, (list[j],), reading) && #[trigger] outcome_of(
                        reading,
                        Err::<GpuInfo, ProbeError>(e),
                    );
                assert(reading.outcome() is Err);
            }
            if res.found is Some {
                let info = res.found->0;
                let reading = choose|reading: Reading|
                    call_ensures(read, (list[attempts - 1],), reading) && #[trigger] outcome_of(
                        reading,
                        Ok::<GpuInfo, ProbeError>(info),
                    );
                assert(found_at(list, read, info, attempts - 1, reading));
            }
        }
        res.found
    }

    /// A GPU query on `os`: a query over the backends of `os`, in their
    /// order. On a system without backends nothing is read and nothing found.
    pub fn new<R: Fn(Backend) -> Reading>(os: OsFamily, read: R) -> (found: Option<GpuInfo>)
        requires
            forall|b: Backend| b.supports(os) ==> call_requires(read, (b,)),
        ensures
            resolves(backend_order(os), read, found),
    {
        let order = backends_for(os);
        proof {
            lemma_order_lists_supported(os);
            assert forall|b: Backend| order@.contains(b) implies call_requires(read, (b,)) by {
                assert(b.supports(os));
            }
        }
        GpuInfo::query(order, read)
    }

    /// A GPU query on Windows: the vendor's management library, then the
    /// instrumentation service, then the display adapters.
    pub fn from_windows<R: Fn(Backend) -> Reading>(read: R) -> (found: Option<GpuInfo>)
        requires
            forall|b: Backend| b.supports(OsFamily::Windows) ==> call_requires(read, (b,)),
        ensures
            resolves(backend_order(OsFamily::Windows), read, found),
    {
        GpuInfo::new(OsFamily::Windows, read)
    }

    /// A GPU query on Linux: the vendor's management library, then the text
    /// of the device listing tool.
    pub fn from_linux<R: Fn(Backend) -> Reading>(read: R) -> (found: Option<GpuInfo>)
        requires
            forall|b: Backend| b.supports(OsFamily::Linux) ==> call_requires(read, (b,)),
        ensures
            resolves(backend_order(OsFamily::Linux), read, found),
    {
        GpuInfo::new(OsFamily::Linux, read)
    }
}

} // verus!
