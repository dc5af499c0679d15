//! The pure rules of the PDF-metadata subsystem: the stored settings
//! record, the parsing and rendering of its boolean flag as it stands
//! in the document's metadata, the write-attempt plan (try a direct
//! write, fall back to injecting an empty packet, retry once), and the
//! name rule that accepts a PDF file argument. All file access and
//! every call into the metadata libraries stays outside this crate;
//! the functions here decide, on plain values, what those calls found
//! or what is done next.

use vstd::prelude::*;

use crate::classify::lower_seq;

verus! {

/// Settings stored in a document's metadata.
#[derive(Clone, Copy, Debug, PartialEq, Eq, Structural)]
pub struct LegatoMetadata {
    /// Whether the first page lies on the left of a two-page spread;
    /// absent when the document does not say.
    pub starts_on_left: Option<bool>,
}

impl Default for LegatoMetadata {
    /// The record of a document that stores no settings.
    fn default() -> (m: LegatoMetadata)
        ensures
            m.starts_on_left is None,
    {
        LegatoMetadata { starts_on_left: None }
    }
}

/// The bytes of "true".
pub open spec fn flag_true_bytes() -> Seq<u8> {
    seq![('t' as u8), ('r' as u8), ('u' as u8), ('e' as u8)]
}

/// The bytes of "false".
pub open spec fn flag_false_bytes() -> Seq<u8> {
    seq![('f' as u8), ('a' as u8), ('l' as u8), ('s' as u8), ('e' as u8)]
}

/// What a stored flag value means: exactly "true" or "false" parse;
/// anything else counts as absent.
pub open spec fn spec_parse_flag(v: Seq<u8>) -> Option<bool> {
    if v == flag_true_bytes() {
        Some(true)
    } else if v == flag_false_bytes() {
        Some(false)
    } else {
        None
    }
}

/// Compare two byte strings.
fn bytes_eq(a: &[u8], b: &[u8]) -> (r: bool)
    ensures
        r == (a@ == b@),
{
    if a.len() != b.len() {
        return false;
    }
    let n = a.len();
    let mut i: usize = 0;
    while i < n
        invariant
            n == a@.len(),
            n == b@.len(),
            i <= n,
            forall|k: int| 0 <= k < i ==> a@[k] == b@[k],
        decreases n - i,
    {
        if a[i] != b[i] {
            return false;
        }
        i = i + 1;
    }
    proof {
        assert(a@ =~= b@);
    }
    true
}

/// Parse the stored flag value (given as its raw bytes): "true" and
/// "false" yield the flag, any other value yields absent.
pub fn parse_flag_value(v: &[u8]) -> (r: Option<bool>)
    ensures
        r == spec_parse_flag(v@),
{
    let true_bytes: Vec<u8> = vec![('t' as u8), ('r' as u8), ('u' as u8), ('e' as u8)];
    let false_bytes: Vec<u8> = vec![
        ('f' as u8),
        ('a' as u8),
        ('l' as u8),
        ('s' as u8),
        ('e' as u8),
    ];
    proof {
        assert(true_bytes@ =~= flag_true_bytes());
        assert(false_bytes@ =~= flag_false_bytes());
    }
    if bytes_eq(v, true_bytes.as_slice()) {
        Some(true)
    } else if bytes_eq(v, false_bytes.as_slice()) {
        Some(false)
    } else {
        None
    }
}

/// The settings read from a document whose metadata held the given
/// flag property, or held none.
pub fn metadata_from_property(v: Option<&Vec<u8>>) -> (m: LegatoMetadata)
    ensures
        m.starts_on_left == (match v {
            Some(bytes) => spec_parse_flag(bytes@),
            None => None::<bool>,
        }),
{
    match v {
        Some(bytes) => LegatoMetadata { starts_on_left: parse_flag_value(bytes.as_slice()) },
        None => LegatoMetadata { starts_on_left: None },
    }
}

/// Render the flag as it is stored in the document's metadata.
pub fn render_flag(b: bool) -> (r: Vec<u8>)
    ensures
        r@ == (if b {
            flag_true_bytes()
        } else {
            flag_false_bytes()
        }),
        spec_parse_flag(r@) == Some(b),
{
    if b {
        let v: Vec<u8> = vec![('t' as u8), ('r' as u8), ('u' as u8), ('e' as u8)];
        proof {
            assert(v@ =~= flag_true_bytes());
        }
        v
    } else {
        let v: Vec<u8> = vec![('f' as u8), ('a' as u8), ('l' as u8), ('s' as u8), ('e' as u8)];
        proof {
            assert(v@ =~= flag_false_bytes());
            assert(flag_false_bytes() != flag_true_bytes());
        }
        v
    }
}

/// Where a metadata write stands. A write runs: direct write; on
/// failure, injection of an empty packet; on success there, one retry
/// of the direct write. Each failure mode is its own terminal state,
/// since each is reported differently.
#[derive(Clone, Copy, Debug, PartialEq, Eq, Structural)]
pub enum XmpWritePhase {
    /// The first direct write is next.
    Direct,
    /// The direct write failed; injecting an empty packet is next.
    Injecting,
    /// Injection succeeded; the retried direct write is next.
    Retry,
    /// The metadata is written.
    Done,
    /// Injection failed: the document cannot carry the metadata.
    FailedInject,
    /// The retried write failed even after injection.
    FailedRetry,
}

/// The phase after the pending attempt of `p` reports `ok`; terminal
/// phases stay as they are.
pub open spec fn spec_advance_write(p: XmpWritePhase, ok: bool) -> XmpWritePhase {
    match p {
        XmpWritePhase::Direct => if ok {
            XmpWritePhase::Done
        } else {
            XmpWritePhase::Injecting
        },
        XmpWritePhase::Injecting => if ok {
            XmpWritePhase::Retry
        } else {
            XmpWritePhase::FailedInject
        },
        XmpWritePhase::Retry => if ok {
            XmpWritePhase::Done
        } else {
            XmpWritePhase::FailedRetry
        },
        _ => p,
    }
}

/// A phase at which the write plan has stopped, well or badly.
pub open spec fn is_terminal_phase(p: XmpWritePhase) -> bool {
    p == XmpWritePhase::Done || p == XmpWritePhase::FailedInject || p == XmpWritePhase::FailedRetry
}

/// Advance the write plan one step: the pending attempt of phase `p`
/// reported `ok`; the result says what to do next.
pub fn advance_write_phase(p: XmpWritePhase, ok: bool) -> (r: XmpWritePhase)
    ensures
        r == spec_advance_write(p, ok),
{
    match p {
        XmpWritePhase::Direct => if ok {
            XmpWritePhase::Done
        } else {
            XmpWritePhase::Injecting
        },
        XmpWritePhase::Injecting => if ok {
            XmpWritePhase::Retry
        } else {
            XmpWritePhase::FailedInject
        },
        XmpWritePhase::Retry => if ok {
            XmpWritePhase::Done
        } else {
            XmpWritePhase::FailedRetry
        },
        XmpWritePhase::Done => XmpWritePhase::Done,
        XmpWritePhase::FailedInject => XmpWritePhase::FailedInject,
        XmpWritePhase::FailedRetry => XmpWritePhase::FailedRetry,
    }
}

/// Every write plan stops after at most three attempts, whatever each
/// attempt reports.
pub proof fn lemma_write_plan_stops(a: bool, b: bool, c: bool)
    ensures
        is_terminal_phase(
            spec_advance_write(spec_advance_write(spec_advance_write(XmpWritePhase::Direct, a), b), c),
        ),
{
}

/// The bytes of ".pdf".
pub open spec fn dot_pdf_bytes() -> Seq<u8> {
    seq![('.' as u8), ('p' as u8), ('d' as u8), ('f' as u8)]
}

/// The name (given as its raw bytes) ends in ".pdf", compared without
/// regard to ASCII case.
pub open spec fn spec_is_pdf_name(name: Seq<u8>) -> bool {
    name.len() >= 4 && lower_seq(name).subrange(name.len() - 4, name.len() as int)
        == dot_pdf_bytes()
}

/// Accept a file argument by its name: it must end in ".pdf" in any
/// ASCII case.
pub fn is_pdf_file_name(name: &[u8]) -> (r: bool)
    ensures
        r == spec_is_pdf_name(name@),
{
    let n = name.len();
    if n < 4 {
        return false;
    }
    let lower = crate::classify::to_lower(name);
    let suffix: Vec<u8> = vec![('.' as u8), ('p' as u8), ('d' as u8), ('f' as u8)];
    proof {
        assert(suffix@ =~= dot_pdf_bytes());
    }
    let mut i: usize = 0;
    let mut ok = true;
    while i < 4
        invariant
            n == name@.len(),
            n >= 4,
            lower@ == lower_seq(name@),
            suffix@ == dot_pdf_bytes(),
            i <= 4,
            ok ==> forall|k: int| 0 <= k < i ==> lower@[n - 4 + k] == suffix@[k],
            !ok ==> !spec_is_pdf_name(name@),
        decreases 4 - i,
    {
        if lower[n - 4 + i] != suffix[i] {
            proof {
                assert(lower_seq(name@).subrange(n as int - 4, n as int)[i as int] == lower@[n - 4
                    + i]);
            }
            ok = false;
            i = 4;
        } else {
            i = i + 1;
        }
    }
    if ok {
        proof {
            assert(lower_seq(name@).subrange(n as int - 4, n as int) =~= dot_pdf_bytes());
        }
        true
    } else {
        false
    }
}

} // verus!
