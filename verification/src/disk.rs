//! Disks and their space in whole gigabytes.

use crate::units::left_of;
use crate::text::chars_of;
use vstd::prelude::*;
use vstd::string::StrSliceExecFns;

verus! {

/// Bytes in one gigabyte.
pub const BYTES_PER_GB: u64 = 1024 * 1024 * 1024;

/// What the system reports of one disk.
#[derive(Clone, Debug, PartialEq, Eq)]
pub struct DiskReading {
    /// The disk's name.
    pub name: String,
    /// Where the disk is mounted.
    pub mount_point: String,
    /// The disk's size, in bytes.
    pub total_space: u64,
    /// The space that is available on it, in bytes.
    pub available_space: u64,
}

/// One disk, its space in whole gigabytes.
#[derive(Clone, Debug, PartialEq, Eq)]
pub struct DiskDetail {
    /// The disk's name.
    pub name: String,
    /// Where the disk is mounted, without a backslash at the end.
    pub mount: String,
    /// The disk's size.
    pub total_space: u64,
    /// The space in use.
    pub used_space: u64,
    /// The space not in use.
    pub free_space: u64,
}

/// The mathematical content of a `DiskDetail`.
pub struct DiskDetailView {
    pub name: Seq<char>,
    pub mount: Seq<char>,
    pub total_space: u64,
    pub used_space: u64,
    pub free_space: u64,
}

impl View for DiskDetail {
    type V = DiskDetailView;

    open spec fn view(&self) -> DiskDetailView {
        DiskDetailView {
            name: self.name@,
            mount: self.mount@,
            total_space: self.total_space,
            used_space: self.used_space,
            free_space: self.free_space,
        }
    }
}

/// All disks together, their space in whole gigabytes.
#[derive(Clone, Debug, PartialEq, Eq)]
pub struct DiskInfo {
    /// The sizes of the disks, added up.
    pub total_space: u64,
    /// The space in use on them, added up.
    pub total_used_space: u64,
    /// The space not in use on them, added up.
    pub total_free_space: u64,
    /// The whole number of times that the space in use holds the total
    /// space, in percent: 100 where all space is in use, 0 where less is.
    pub total_usage: u64,
    /// The disks, in the order in which they were reported.
    pub disks: Vec<DiskDetail>,
}

/// `bytes` in whole gigabytes, the rest dropped.
pub open spec fn whole_gigabytes(bytes: u64) -> u64 {
    (bytes / 1_073_741_824) as u64
}

/// `text` without the backslashes at its end.
pub open spec fn without_trailing_backslashes(text: Seq<char>) -> Seq<char>
    decreases text.len(),
{
    if text.len() > 0 && text.last() == '\\' {
        without_trailing_backslashes(text.drop_last())
    } else {
        text
    }
}

/// The detail for a reading: the size and the available space converted each
/// on its own, and the space in use the difference of the two.
pub open spec fn detail_of(reading: DiskReading) -> DiskDetailView {
    DiskDetailView {
        name: reading.name@,
        mount: without_trailing_backslashes(reading.mount_point@),
        total_space: whole_gigabytes(reading.total_space),
        used_space: left_of(
            whole_gigabytes(reading.total_space),
            whole_gigabytes(reading.available_space),
        ),
        free_space: whole_gigabytes(reading.available_space),
    }
}

/// `a` and `b` added up, the sum held at `u64::MAX`.
pub open spec fn capped_sum(a: u64, b: u64) -> u64 {
    if a + b <= u64::MAX {
        (a + b) as u64
    } else {
        u64::MAX
    }
}

/// The sums over `details` of their sizes, of their space in use and of their
/// space not in use, each held at `u64::MAX`.
pub open spec fn totals(details: Seq<DiskDetailView>) -> (u64, u64, u64)
    decreases details.len(),
{
    if details.len() == 0 {
        (0, 0, 0)
    } else {
        let before = totals(details.drop_last());
        let last = details.last();
        (
            capped_sum(before.0, last.total_space),
            capped_sum(before.1, last.used_space),
            capped_sum(before.2, last.free_space),
        )
    }
}

/// The sums over `details` of their sizes, of their space in use and of their
/// space not in use, as numbers without a bound.
pub open spec fn sums(details: Seq<DiskDetailView>) -> (nat, nat, nat)
    decreases details.len(),
{
    if details.len() == 0 {
        (0, 0, 0)
    } else {
        let before = sums(details.drop_last());
        let last = details.last();
        (
            before.0 + last.total_space as nat,
            before.1 + last.used_space as nat,
            before.2 + last.free_space as nat,
        )
    }
}

/// `n`, held at `u64::MAX`.
pub open spec fn capped(n: nat) -> u64 {
    if n <= u64::MAX {
        n as u64
    } else {
        u64::MAX
    }
}

/// The totals are the sums, each held at `u64::MAX`: a total is exact
/// wherever the sum can be held at all.
pub proof fn lemma_totals_are_capped_sums(details: Seq<DiskDetailView>)
    ensures
        totals(details).0 == capped(sums(details).0),
        totals(details).1 == capped(sums(details).1),
        totals(details).2 == capped(sums(details).2),
    decreases details.len(),
{
    if details.len() > 0 {
        lemma_totals_are_capped_sums(details.drop_last());
    }
}

/// Space in use as a share of the total, in percent and in whole multiples of
/// the total; 0 where there is no space at all.
pub open spec fn whole_usage(used: u64, total: u64) -> u64 {
    if total > 0 {
        (used / total * 100) as u64
    } else {
        0
    }
}

/// The details of `disks`, one by one.
pub open spec fn detail_views(disks: Seq<DiskDetail>) -> Seq<DiskDetailView> {
    disks.map_values(|disk: DiskDetail| disk@)
}

/// The details that are made of `readings`, one by one.
pub open spec fn details_of(readings: Seq<DiskReading>) -> Seq<DiskDetailView> {
    readings.map_values(|reading: DiskReading| detail_of(reading))
}

/// No disk has more space in use than it has, and its used and its free
/// space add up to its size unless more is reported available than there is.
pub proof fn lemma_detail_adds_up(reading: DiskReading)
    ensures
        detail_of(reading).used_space <= detail_of(reading).total_space,
        reading.available_space <= reading.total_space ==> detail_of(reading).used_space
            + detail_of(reading).free_space == detail_of(reading).total_space,
{
}

/// Takes the backslashes off the end of a mount point.
pub fn trim_mount(mount_point: &str) -> (mount: String)
    ensures
        mount@ == without_trailing_backslashes(mount_point@),
{
    let chars = chars_of(mount_point);
    let mut end: usize = chars.len();
    assert(chars@.take(end as int) =~= chars@);
    while end > 0 && chars[end - 1] == '\\'
        invariant
            chars@ == mount_point@,
            end <= chars@.len(),
            without_trailing_backslashes(chars@) == without_trailing_backslashes(
                chars@.take(end as int),
            ),
        decreases end,
    {
        assert(chars@.take(end as int).drop_last() =~= chars@.take(end - 1));
        end -= 1;
    }
    mount_point.substring_char(0, end).to_owned()
}

impl DiskDetail {
    /// Makes the detail of one disk of what the system reports of it.
    pub fn new(reading: &DiskReading) -> (detail: DiskDetail)
        ensures
            detail@ == detail_of(*reading),
    {
        let total: u64 = reading.total_space / BYTES_PER_GB;
        let free: u64 = reading.available_space / BYTES_PER_GB;
        DiskDetail {
            name: reading.name.clone(),
            mount: trim_mount(reading.mount_point.as_str()),
            total_space: total,
            used_space: total.saturating_sub(free),
            free_space: free,
        }
    }
}

impl DiskInfo {
    /// Whether the summary is that of `readings`: it holds the detail of each
    /// reading, in their order, the three sums over the details, and the
    /// usage that follows from the sums.
    pub open spec fn summarizes(self, readings: Seq<DiskReading>) -> bool {
        &&& detail_views(self.disks@) == details_of(readings)
        &&& (self.total_space, self.total_used_space, self.total_free_space) == totals(
            details_of(readings),
        )
        &&& self.total_usage == whole_usage(self.total_used_space, self.total_space)
    }

    /// Makes the summary of all disks of what the system reports of each.
    pub fn new(readings: &Vec<DiskReading>) -> (info: DiskInfo)
        ensures
            info.summarizes(readings@),
    {
        let n: usize = readings.len();
        let mut disks: Vec<DiskDetail> = Vec::new();
        let mut total: u64 = 0;
        let mut used: u64 = 0;
        let mut free: u64 = 0;
        let mut i: usize = 0;
        while i < n
            invariant
                n == readings@.len(),
                i <= n,
                detail_views(disks@) == details_of(readings@.take(i as int)),
                (total, used, free) == totals(details_of(readings@.take(i as int))),
            decreases n - i,
        {
            let detail = DiskDetail::new(&readings[i]);
            let ghost before = disks@;
            proof {
                let now = details_of(readings@.take(i + 1));
                assert(now.drop_last() =~= details_of(readings@.take(i as int)));
            }
            total = total.saturating_add(detail.total_space);
            used = used.saturating_add(detail.used_space);
            free = free.saturating_add(detail.free_space);
            disks.push(detail);
            assert(detail_views(disks@) =~= detail_views(before).push(detail@));
            i += 1;
        }
        assert(readings@.take(n as int) =~= readings@);
        let total_usage: u64 = if total > 0 {
            assert(used / total <= 1) by {
                let details = details_of(readings@);
                assert forall|k: int| 0 <= k < details.len() implies details[k].used_space
                    <= details[k].total_space by {
                    lemma_detail_adds_up(readings@[k]);
                }
                lemma_totals_used_within_total(details);
                assert(used / total <= 1) by (nonlinear_arith)
                    requires
                        0 <= used <= total,
                        total > 0,
                ;
            }
            used / total * 100
        } else {
            0
        };
        DiskInfo {
            total_space: total,
            total_used_space: used,
            total_free_space: free,
            total_usage,
            disks,
        }
    }
}

/// Where no disk has more space in use than it has, the space in use on all
/// of them is no more than their total space.
pub proof fn lemma_totals_used_within_total(details: Seq<DiskDetailView>)
    requires
        forall|k: int| 0 <= k < details.len() ==> details[k].used_space <= details[k].total_space,
    ensures
        totals(details).1 <= totals(details).0,
    decreases details.len(),
{
    if details.len() > 0 {
        let before = details.drop_last();
        assert forall|k: int| 0 <= k < before.len() implies before[k].used_space
            <= before[k].total_space by {
            assert(before[k] == details[k]);
        }
        lemma_totals_used_within_total(before);
    }
}

} // verus!
