//! The service registry of the OS and its PCI devices. Each entry carries
//! properties; an entry describes a GPU where its class code marks a display
//! controller and its model property holds a name.

use crate::gpu::{found_view, outcome_view, GpuInfo, GpuRecord, Outcome, ProbeError};
use crate::search::{first, first_from, lemma_first_after_head, lemma_first_from};
use crate::text::chars_of;
use crate::units::{whole_mb, whole_mb_hundredths};
use vstd::prelude::*;
use vstd::string::{StrSliceExecFns, StringSliceAdditionalSpecFns};
use vstd::utf8::{decode_utf8, valid_utf8};

verus! {

/// The properties of one registry entry that the backend reads.
#[derive(Clone, Debug, PartialEq, Eq)]
pub struct RegistryEntry {
    /// The `class-code` property, where the entry has one that is a number.
    pub class_code: Option<u32>,
    /// The bytes of the `model` property, where the entry has one.
    pub model: Option<Vec<u8>>,
    /// The video memory in megabytes, where the entry states it.
    pub vram_total_mb: Option<i64>,
}

/// How far a walk over the registry's PCI devices got.
#[derive(Clone, Debug, PartialEq, Eq)]
pub enum RegistryReading {
    /// The registry would not match the device class.
    MatchingFailed,
    /// The entries, in the order in which the registry gave them.
    Entries(Vec<RegistryEntry>),
}

/// The class marker of a display controller, which stands in bits 16 to 23 of
/// a class code.
pub const DISPLAY_CLASS: u32 = 0x03;

/// Whether a class code marks a display controller: whether its bits 16 to 23
/// hold `DISPLAY_CLASS`.
pub open spec fn is_display_class(code: u32) -> bool {
    code & 0xFF0000 == 0x030000
}

/// Tests whether a class code marks a display controller.
pub fn is_display_controller(code: u32) -> (b: bool)
    ensures
        b == is_display_class(code),
        b == ((code / 0x10000) % 0x100 == DISPLAY_CLASS),
{
    assert((code & 0xFF0000 == 0x030000) == ((code / 0x10000) % 0x100 == 0x03)) by (bit_vector);
    (code & 0xFF0000) == 0x030000
}

/// The condition of being the character NUL.
pub open spec fn is_nul() -> spec_fn(char) -> bool {
    |c: char| c == '\0'
}

/// The characters of `text` before its first NUL: all of them where it holds
/// none.
pub open spec fn before_nul(text: Seq<char>) -> Seq<char> {
    text.take(first(text, is_nul()))
}

/// What stands before the first NUL holds no NUL, and it is followed by a
/// NUL unless it is the whole text.
pub proof fn lemma_before_nul(text: Seq<char>)
    ensures
        before_nul(text).len() <= text.len(),
        forall|k: int| 0 <= k < before_nul(text).len() ==> before_nul(text)[k] == text[k],
        forall|k: int| 0 <= k < before_nul(text).len() ==> text[k] != '\0',
        before_nul(text).len() < text.len() ==> text[before_nul(text).len() as int] == '\0',
{
    lemma_first_from(text, is_nul(), 0);
    let n = first(text, is_nul());
    assert forall|k: int| 0 <= k < n implies text[k] != '\0' by {
        assert(!is_nul()(text[k]));
    }
}

/// The name that a model property holds: its bytes read as UTF-8, up to the
/// first NUL. A property that is missing or is not UTF-8 holds no name.
pub open spec fn model_text(model: Option<Vec<u8>>) -> Seq<char> {
    match model {
        Some(bytes) => if valid_utf8(bytes@) {
            before_nul(decode_utf8(bytes@))
        } else {
            seq![]
        },
        None => seq![],
    }
}

/// A video memory property in hundredths of a megabyte. A size that is not
/// positive counts as unknown, and so does one too large to be held.
pub open spec fn vram_total(vram_total_mb: Option<i64>) -> Option<u64> {
    match vram_total_mb {
        Some(mb) => if mb > 0 {
            whole_mb_hundredths(mb as nat)
        } else {
            None
        },
        None => None,
    }
}

/// Whether an entry qualifies: it is a display controller and has a name.
pub open spec fn qualifies(entry: RegistryEntry) -> bool {
    &&& entry.class_code matches Some(code)
    &&& is_display_class(code)
    &&& model_text(entry.model).len() > 0
}

/// The condition of qualifying.
pub open spec fn qualifying() -> spec_fn(RegistryEntry) -> bool {
    |entry: RegistryEntry| qualifies(entry)
}

/// The record of an entry that qualifies: its name and its video memory.
pub open spec fn entry_record(entry: RegistryEntry) -> Option<GpuRecord> {
    if qualifies(entry) {
        Some(
            GpuRecord::assemble(
                model_text(entry.model),
                vram_total(entry.vram_total_mb),
                None,
                None,
            ),
        )
    } else {
        None
    }
}

/// The outcome for the entries of the registry: the record of the first
/// entry that qualifies, and `Unavailable` where none does.
pub open spec fn entries_outcome(entries: Seq<RegistryEntry>) -> Result<GpuRecord, ProbeError> {
    let k = first(entries, qualifying());
    if k < entries.len() {
        Ok(entry_record(entries[k])->0)
    } else {
        Err(ProbeError::Unavailable)
    }
}

/// The outcome of the backend for a reading: `QueryFailed` where the registry
/// would not match, and otherwise the outcome for the entries.
pub open spec fn iokit_outcome(reading: RegistryReading) -> Result<GpuRecord, ProbeError> {
    match reading {
        RegistryReading::MatchingFailed => Err(ProbeError::QueryFailed),
        RegistryReading::Entries(entries) => entries_outcome(entries@),
    }
}

/// An entry that qualifies decides: the entries after it are not looked at.
pub proof fn lemma_first_qualifying_entry_decides(entry: RegistryEntry, rest: Seq<RegistryEntry>)
    requires
        qualifies(entry),
    ensures
        entries_outcome(seq![entry] + rest) == Ok::<GpuRecord, ProbeError>(
            entry_record(entry)->0,
        ),
        entry_record(entry)->0.wf(),
{
    lemma_first_after_head(entry, rest, qualifying());
}

/// An entry that is no display controller is passed over, whatever else it
/// holds, and so is a display controller without a name: the outcome is that
/// of the entries after it.
pub proof fn lemma_other_entries_are_skipped(entry: RegistryEntry, rest: Seq<RegistryEntry>)
    requires
        !qualifies(entry),
    ensures
        entries_outcome(seq![entry] + rest) == entries_outcome(rest),
{
    lemma_first_after_head(entry, rest, qualifying());
}

/// `core::str::from_utf8` of std. The contract claims that it accepts
/// exactly the byte sequences that are well-formed UTF-8, and that the string
/// slice which it returns is made of the bytes that it was given.
#[verifier::external_body]
fn decode_utf8_strict(bytes: &[u8]) -> (text: Option<&str>)
    ensures
        text is Some <==> valid_utf8(bytes@),
        text matches Some(s) ==> s.spec_bytes() == bytes@,
{
    match core::str::from_utf8(bytes) {
        Ok(s) => Some(s),
        Err(_) => None,
    }
}

impl RegistryEntry {
    /// Decides on one entry: its record where it qualifies, and nothing where
    /// it does not. A walk over the registry can stop at the first entry for
    /// which this gives a record.
    pub fn qualify(&self) -> (res: Option<GpuInfo>)
        ensures
            found_view(res) == entry_record(*self),
            res matches Some(info) ==> info.wf(),
    {
        broadcast use vstd::utf8::encode_utf8_decode_utf8;

        let code: u32 = match self.class_code {
            Some(code) => code,
            None => {
                return None;
            },
        };
        if !is_display_controller(code) {
            return None;
        }
        let bytes: &Vec<u8> = match &self.model {
            Some(bytes) => bytes,
            None => {
                return None;
            },
        };
        let text: &str = match decode_utf8_strict(bytes.as_slice()) {
            Some(text) => text,
            None => {
                return None;
            },
        };
        let chars = chars_of(text);
        let n: usize = chars.len();
        let mut k: usize = 0;
        while k < n && chars[k] != '\0'
            invariant
                n == chars@.len(),
                k <= n,
                first(chars@, is_nul()) == first_from(chars@, is_nul(), k as int),
            decreases n - k,
        {
            k += 1;
        }
        if k == 0 {
            return None;
        }
        let model: String = text.substring_char(0, k).to_owned();
        let total: Option<u64> = match self.vram_total_mb {
            Some(mb) => if mb > 0 {
                whole_mb(mb as u64)
            } else {
                None
            },
            None => None,
        };
        match GpuInfo::assemble(model, total, None, None) {
            Ok(info) => Some(info),
            Err(_) => None,
        }
    }
}

impl GpuInfo {
    /// Makes the backend's outcome of a reading of the service registry.
    pub fn from_iokit(reading: &RegistryReading) -> (res: Outcome)
        ensures
            outcome_view(res) == iokit_outcome(*reading),
            res matches Ok(info) ==> info.wf(),
    {
        match reading {
            RegistryReading::MatchingFailed => Err(ProbeError::QueryFailed),
            RegistryReading::Entries(entries) => {
                let n: usize = entries.len();
                let mut i: usize = 0;
                while i < n
                    invariant
                        *reading == RegistryReading::Entries(*entries),
                        n == entries@.len(),
                        i <= n,
                        first(entries@, qualifying()) == first_from(
                            entries@,
                            qualifying(),
                            i as int,
                        ),
                    decreases n - i,
                {
                    if let Some(info) = entries[i].qualify() {
                        return Ok(info);
                    }
                    i += 1;
                }
                Err(ProbeError::Unavailable)
            },
        }
    }
}

} // verus!
