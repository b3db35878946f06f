//! The text that the device listing tool prints in its verbose form.
//!
//! The text is a run of sections with a blank line between them, one section
//! for each device. The first line of a section is its header: the device's
//! address, its class and its name, with colons between them. The lines after
//! the header are the section's body.

use crate::gpu::{outcome_view, GpuInfo, GpuRecord, Outcome, ProbeError};
use crate::search::{first, first_from, lemma_first_after_head, lemma_first_from};
use crate::text::{
    chars_of, contains_folded, cuts, ends_with, leading_number, ranges_within,
    slice_contains_folded, slice_ends_with, slice_leading_number, slice_split, slice_trim,
    slice_words, split, trim, words,
};
use crate::units::{whole_mb, whole_mb_hundredths};
use vstd::prelude::*;
use vstd::slice::slice_subrange;
use vstd::string::StrSliceExecFns;

verus! {

/// How a run of the device listing tool ended.
#[derive(Clone, Debug, PartialEq, Eq)]
pub enum ToolRun {
    /// The tool could not be started.
    Missing,
    /// The tool ran and reported failure by its exit status.
    Failed,
    /// The tool ran and printed this text.
    Output(String),
}

/// The sections of a listing: what lies between its blank lines.
pub open spec fn sections(text: Seq<char>) -> Seq<Seq<char>> {
    split(text, "\n\n"@)
}

/// The lines of a section. The first of them is the header.
pub open spec fn lines(section: Seq<char>) -> Seq<Seq<char>> {
    split(section, "\n"@)
}

/// Whether a header names a display device: whether it holds `vga` or
/// `3d controller`, in letters of either case.
pub open spec fn is_display_header(header: Seq<char>) -> bool {
    contains_folded(header, "vga"@) || contains_folded(header, "3d controller"@)
}

/// The condition, on a section, of having a header that names a display
/// device.
pub open spec fn display_section() -> spec_fn(Seq<char>) -> bool {
    |section: Seq<char>| is_display_header(lines(section)[0])
}

/// The model that a header names: its third field, the fields being what
/// lies between the colons, without the white space around it. A header with
/// fewer than three fields names no model, nor does one whose third field is
/// blank.
pub open spec fn header_model(header: Seq<char>) -> Option<Seq<char>> {
    let fields = split(header, ":"@);
    if fields.len() >= 3 && trim(fields[2]).len() > 0 {
        Some(trim(fields[2]))
    } else {
        None
    }
}

/// Whether a word states a size in megabytes: whether it ends in `M` or in
/// `MB`.
pub open spec fn is_size_word(word: Seq<char>) -> bool {
    ends_with(word, "M"@) || ends_with(word, "MB"@)
}

/// The condition of stating a size in megabytes.
pub open spec fn size_word() -> spec_fn(Seq<char>) -> bool {
    |word: Seq<char>| is_size_word(word)
}

/// Whether a line states a memory size: whether it holds `memory`, in letters
/// of either case, and a word that states a size.
pub open spec fn is_memory_line(line: Seq<char>) -> bool {
    contains_folded(line, "memory"@) && first(words(line), size_word()) < words(line).len()
}

/// The condition of stating a memory size.
pub open spec fn memory_line() -> spec_fn(Seq<char>) -> bool {
    |line: Seq<char>| is_memory_line(line)
}

/// The size, in hundredths of a megabyte, that a word states: the number
/// that its leading digits write, taken as megabytes. A word that does not
/// start with a digit states none, nor does one whose number is too large to
/// be held.
pub open spec fn word_size(word: Seq<char>) -> Option<u64> {
    match leading_number(word) {
        Some(mb) => whole_mb_hundredths(mb),
        None => None,
    }
}

/// The size that a memory line states: that of its first word that states a
/// size.
pub open spec fn line_size(line: Seq<char>) -> Option<u64> {
    word_size(words(line)[first(words(line), size_word())])
}

/// The total memory that a section states: the size of the first line of its
/// body that states a memory size, and nothing where the body has no such
/// line.
pub open spec fn section_memory(section: Seq<char>) -> Option<u64> {
    let k = first_from(lines(section), memory_line(), 1);
    if k < lines(section).len() {
        line_size(lines(section)[k])
    } else {
        None
    }
}

/// The outcome for a section whose header names a display device: a record
/// of the model that the header names and of the memory that the body states,
/// or `ParseFailed` where the header names no model.
pub open spec fn section_outcome(section: Seq<char>) -> Result<GpuRecord, ProbeError> {
    match header_model(lines(section)[0]) {
        Some(model) => Ok(GpuRecord::assemble(model, section_memory(section), None, None)),
        None => Err(ProbeError::ParseFailed),
    }
}

/// The outcome for the sections of a listing: that of the first section
/// whose header names a display device, and `ParseFailed` where there is no
/// such section.
pub open spec fn sections_outcome(sections: Seq<Seq<char>>) -> Result<GpuRecord, ProbeError> {
    let k = first(sections, display_section());
    if k < sections.len() {
        section_outcome(sections[k])
    } else {
        Err(ProbeError::ParseFailed)
    }
}

/// The outcome for a listing: that for its sections.
pub open spec fn listing_outcome(text: Seq<char>) -> Result<GpuRecord, ProbeError> {
    sections_outcome(sections(text))
}

/// A section whose header names a display device decides, be it with a
/// record or with a failure: the sections after it are not looked at.
pub proof fn lemma_first_display_section_decides(section: Seq<char>, rest: Seq<Seq<char>>)
    requires
        is_display_header(lines(section)[0]),
    ensures
        sections_outcome(seq![section] + rest) == section_outcome(section),
{
    lemma_first_after_head(section, rest, display_section());
}

/// A section whose header names no display device is passed over, whatever
/// its body holds: the outcome is that of the sections after it.
pub proof fn lemma_other_sections_are_skipped(section: Seq<char>, rest: Seq<Seq<char>>)
    requires
        !is_display_header(lines(section)[0]),
    ensures
        sections_outcome(seq![section] + rest) == sections_outcome(rest),
{
    lemma_first_after_head(section, rest, display_section());
}

/// The outcome of the backend for a run of the tool: `Unavailable` where the
/// tool is missing, `QueryFailed` where it failed, and otherwise the outcome
/// for the text that it printed.
pub open spec fn lspci_outcome(run: ToolRun) -> Result<GpuRecord, ProbeError> {
    match run {
        ToolRun::Missing => Err(ProbeError::Unavailable),
        ToolRun::Failed => Err(ProbeError::QueryFailed),
        ToolRun::Output(text) => listing_outcome(text@),
    }
}

/// A record of this backend holds a model and, at most, the total memory. A
/// body that states no memory size is no failure: whether a section gives a
/// record depends on its header alone, and where no line of the body states a
/// memory size the record's total memory is unknown.
pub proof fn lemma_memory_is_optional(section: Seq<char>)
    ensures
        section_outcome(section) is Ok <==> header_model(lines(section)[0]) is Some,
        section_outcome(section) matches Ok(record) ==> {
            &&& record.wf()
            &&& record.model == header_model(lines(section)[0])->0
            &&& record.memory_total == section_memory(section)
            &&& record.memory_used is None
            &&& record.memory_free is None
            &&& record.usage is None
        },
        (forall|k: int|
            1 <= k < lines(section).len() ==> !is_memory_line(#[trigger] lines(section)[k]))
            ==> section_memory(section) is None,
{
    if lines(section).len() >= 1 {
        lemma_first_from(lines(section), memory_line(), 1);
    }
}

/// Tests whether a header names a display device.
pub fn names_display_device(header: &[char]) -> (b: bool)
    ensures
        b == is_display_header(header@),
{
    let vga = chars_of("vga");
    let controller_3d = chars_of("3d controller");
    slice_contains_folded(header, vga.as_slice()) || slice_contains_folded(
        header,
        controller_3d.as_slice(),
    )
}

/// Finds the model that a header names, as a range of the header.
pub fn model_range(header: &[char]) -> (range: Option<(usize, usize)>)
    ensures
        match range {
            Some((a, b)) => a < b <= header@.len() && header_model(header@) == Some(
                header@.subrange(a as int, b as int),
            ),
            None => header_model(header@) is None,
        },
{
    let colon = chars_of(":");
    let fields = slice_split(header, colon.as_slice());
    if fields.len() < 3 {
        return None;
    }
    let (lo, hi) = fields[2];
    let field = slice_subrange(header, lo, hi);
    let (a, b) = slice_trim(field);
    if a == b {
        return None;
    }
    Some((lo + a, lo + b))
}

/// Tests whether a word states a size in megabytes.
pub fn states_size(word: &[char]) -> (b: bool)
    ensures
        b == is_size_word(word@),
{
    let mega = chars_of("M");
    let megabyte = chars_of("MB");
    slice_ends_with(word, mega.as_slice()) || slice_ends_with(word, megabyte.as_slice())
}

/// Reads the size that a line states, if it is a memory line. The outer
/// `None` says that the line is no memory line.
pub fn memory_line_size(line: &[char]) -> (size: Option<Option<u64>>)
    ensures
        size is Some <==> is_memory_line(line@),
        size matches Some(stated) ==> stated == line_size(line@),
{
    let memory = chars_of("memory");
    if !slice_contains_folded(line, memory.as_slice()) {
        return None;
    }
    let ranges = slice_words(line);
    let n: usize = ranges.len();
    let mut k: usize = 0;
    while k < n
        invariant
            contains_folded(line@, "memory"@),
            n == ranges@.len(),
            k <= n,
            ranges_within(line@, ranges@),
            cuts(line@, ranges@) == words(line@),
            first(words(line@), size_word()) == first_from(words(line@), size_word(), k as int),
        decreases n - k,
    {
        let (lo, hi) = ranges[k];
        let word = slice_subrange(line, lo, hi);
        let stated = states_size(word);
        if stated {
            let size: Option<u64> = match slice_leading_number(word) {
                Some(mb) => whole_mb(mb),
                None => None,
            };
            return Some(size);
        }
        k += 1;
    }
    None
}

/// Reads the total memory that a section states, given the ranges of the
/// section's lines.
fn stated_memory(section: &[char], line_ranges: &Vec<(usize, usize)>) -> (size: Option<u64>)
    requires
        ranges_within(section@, line_ranges@),
        cuts(section@, line_ranges@) == lines(section@),
    ensures
        size == section_memory(section@),
{
    let n: usize = line_ranges.len();
    if n <= 1 {
        return None;
    }
    let mut k: usize = 1;
    while k < n
        invariant
            n == line_ranges@.len(),
            1 <= k <= n,
            ranges_within(section@, line_ranges@),
            cuts(section@, line_ranges@) == lines(section@),
            first_from(lines(section@), memory_line(), 1) == first_from(
                lines(section@),
                memory_line(),
                k as int,
            ),
        decreases n - k,
    {
        let (lo, hi) = line_ranges[k];
        let line = slice_subrange(section, lo, hi);
        let size = memory_line_size(line);
        match size {
            Some(stated) => {
                return stated;
            },
            None => {},
        }
        k += 1;
    }
    None
}

impl GpuInfo {
    /// Reads a listing: finds the first section whose header names a display
    /// device and makes a record of its model and of the memory that its body
    /// states.
    pub fn from_listing(text: &str) -> (res: Outcome)
        ensures
            outcome_view(res) == listing_outcome(text@),
            res matches Ok(info) ==> info.wf(),
    {
        let blank_line = chars_of("\n\n");
        let line_end = chars_of("\n");
        let chars = chars_of(text);
        let all = chars.as_slice();
        let section_ranges = slice_split(all, blank_line.as_slice());
        let n: usize = section_ranges.len();
        let mut k: usize = 0;
        while k < n
            invariant
                line_end@ == "\n"@,
                all@ == text@,
                n == section_ranges@.len(),
                k <= n,
                ranges_within(all@, section_ranges@),
                cuts(all@, section_ranges@) == sections(text@),
                first(sections(text@), display_section()) == first_from(
                    sections(text@),
                    display_section(),
                    k as int,
                ),
            decreases n - k,
        {
            let (lo, hi) = section_ranges[k];
            let section = slice_subrange(all, lo, hi);
            let line_ranges = slice_split(section, line_end.as_slice());
            let (header_lo, header_hi) = line_ranges[0];
            let header = slice_subrange(section, header_lo, header_hi);
            let display = names_display_device(header);
            if display {
                let (a, b) = match model_range(header) {
                    Some(range) => range,
                    None => {
                        return Err(ProbeError::ParseFailed);
                    },
                };
                let base: usize = lo + header_lo;
                assert(header@.subrange(a as int, b as int) =~= text@.subrange(base + a, base + b));
                let model: String = text.substring_char(base + a, base + b).to_owned();
                let total = stated_memory(section, &line_ranges);
                return GpuInfo::assemble(model, total, None, None);
            }
            k += 1;
        }
        Err(ProbeError::ParseFailed)
    }

    /// Makes the backend's outcome of a run of the device listing tool.
    pub fn from_lspci(run: &ToolRun) -> (res: Outcome)
        ensures
            outcome_view(res) == lspci_outcome(*run),
            res matches Ok(info) ==> info.wf(),
    {
        match run {
            ToolRun::Missing => Err(ProbeError::Unavailable),
            ToolRun::Failed => Err(ProbeError::QueryFailed),
            ToolRun::Output(text) => GpuInfo::from_listing(text.as_str()),
        }
    }
}

} // verus!
