//! Size-bounded log compaction: once the log file has grown past `MAX_SIZE`
//! bytes, it is rewritten as a banner followed by its last `KEEP_SIZE`
//! bytes; smaller files are left untouched.

use vstd::prelude::*;
use crate::text::{ascii_bytes_of, dec_digits, is_ascii_bytes, lit_bytes, u64_dec};

verus! {

/// Largest size, in bytes, the log file may reach before it is compacted.
pub const MAX_SIZE: u64 = 1_048_576;

/// Number of trailing bytes kept when the log file is compacted.
pub const KEEP_SIZE: u64 = 10_240;

/// The banner written at the head of a compacted log file: the truncation
/// timestamp, the original size and the retained size.
pub open spec fn banner_bytes(ts: Seq<u8>, orig_size: int, kept: int) -> Seq<u8> {
    ascii_bytes_of("=== Log truncated at "@) + ts + ascii_bytes_of(" (was "@) + dec_digits(
        orig_size,
    ) + ascii_bytes_of(" bytes, keeping last "@) + dec_digits(kept) + ascii_bytes_of(
        " bytes) ===\n"@,
    )
}

/// What compaction makes of a log file's whole contents: files at or below
/// `MAX_SIZE` are untouched; larger files become a banner followed by their
/// last `KEEP_SIZE` bytes.
pub open spec fn compacted(content: Seq<u8>, ts: Seq<u8>) -> Seq<u8> {
    if content.len() <= MAX_SIZE {
        content
    } else {
        banner_bytes(ts, content.len() as int, KEEP_SIZE as int) + content.skip(
            content.len() - KEEP_SIZE,
        )
    }
}

/// An oversized log file shrinks to the banner plus its last `KEEP_SIZE`
/// bytes, kept byte for byte; a file within bounds is left as it is.
pub proof fn lemma_compaction(content: Seq<u8>, ts: Seq<u8>)
    ensures
        content.len() <= MAX_SIZE ==> compacted(content, ts) == content,
        content.len() > MAX_SIZE ==> compacted(content, ts).len() == banner_bytes(
            ts,
            content.len() as int,
            KEEP_SIZE as int,
        ).len() + KEEP_SIZE,
        content.len() > MAX_SIZE ==> compacted(content, ts).skip(
            compacted(content, ts).len() - KEEP_SIZE,
        ) =~= content.skip(content.len() - KEEP_SIZE),
{
}

/// Decides whether a log file of the given size must be compacted and, if
/// so, from which offset its tail is retained.
pub fn truncate_plan(file_size: u64) -> (r: Option<u64>)
    ensures
        (file_size <= MAX_SIZE) <==> (r is None),
        r matches Some(seek) ==> seek == if file_size > KEEP_SIZE {
            file_size - KEEP_SIZE
        } else {
            0
        },
{
    if file_size <= MAX_SIZE {
        None
    } else if file_size > KEEP_SIZE {
        Some(file_size - KEEP_SIZE)
    } else {
        Some(0)
    }
}

/// Builds the replacement contents of a compacted log file from the retained
/// tail of the original, the original's size, and an ASCII timestamp.
pub fn compact_contents(tail: &Vec<u8>, orig_size: u64, ts: &Vec<u8>) -> (r: Vec<u8>)
    requires
        is_ascii_bytes(ts@),
    ensures
        r@ == banner_bytes(ts@, orig_size as int, tail@.len() as int) + tail@,
{
    proof {
        reveal_strlit("=== Log truncated at ");
        reveal_strlit(" (was ");
        reveal_strlit(" bytes, keeping last ");
        reveal_strlit(" bytes) ===\n");
    }
    let mut out = lit_bytes("=== Log truncated at ");
    let mut piece = vstd::slice::slice_to_vec(ts.as_slice());
    out.append(&mut piece);
    let mut piece = lit_bytes(" (was ");
    out.append(&mut piece);
    let mut piece = u64_dec(orig_size);
    out.append(&mut piece);
    let mut piece = lit_bytes(" bytes, keeping last ");
    out.append(&mut piece);
    let mut piece = u64_dec(tail.len() as u64);
    out.append(&mut piece);
    let mut piece = lit_bytes(" bytes) ===\n");
    out.append(&mut piece);
    let mut piece = vstd::slice::slice_to_vec(tail.as_slice());
    out.append(&mut piece);
    out
}

/// Relies on chrono's Local::now and DateTime::format with a fixed
/// year-month-day hour:minute:second format: the rendering is plain ASCII.
/// The value depends on the clock, so nothing more is promised of it.
#[verifier::external_body]
pub(crate) fn local_timestamp_bytes() -> (r: Vec<u8>)
    ensures
        is_ascii_bytes(r@),
{
    chrono::Local::now().format("%Y-%m-%d %H:%M:%S").to_string().into_bytes()
}

/// Builds the replacement contents of a compacted log file, stamped with the
/// current local time.
pub fn compact_tail(tail: &Vec<u8>, orig_size: u64) -> (r: Vec<u8>)
    ensures
        exists|ts: Seq<u8>|
            is_ascii_bytes(ts) && r@ == #[trigger] banner_bytes(
                ts,
                orig_size as int,
                tail@.len() as int,
            ) + tail@,
{
    let ts = local_timestamp_bytes();
    let out = compact_contents(tail, orig_size, &ts);
    proof {
        assert(is_ascii_bytes(ts@) && out@ == banner_bytes(
            ts@,
            orig_size as int,
            tail@.len() as int,
        ) + tail@);
    }
    out
}

/// The separator written to the log before a new supervisor session starts
/// appending, so one file can hold several runs with clear boundaries.
pub open spec fn separator_bytes(ts: Seq<u8>) -> Seq<u8> {
    ascii_bytes_of("\n\n=== Server started at "@) + ts + ascii_bytes_of(" ===\n"@)
}

/// Builds the session separator for a given ASCII timestamp.
pub fn build_separator(ts: &Vec<u8>) -> (r: Vec<u8>)
    requires
        is_ascii_bytes(ts@),
    ensures
        r@ == separator_bytes(ts@),
{
    proof {
        reveal_strlit("\n\n=== Server started at ");
        reveal_strlit(" ===\n");
    }
    let mut out = lit_bytes("\n\n=== Server started at ");
    let mut piece = vstd::slice::slice_to_vec(ts.as_slice());
    out.append(&mut piece);
    let mut piece = lit_bytes(" ===\n");
    out.append(&mut piece);
    out
}

/// Builds the session separator stamped with the current local time.
pub fn session_separator() -> (r: Vec<u8>)
    ensures
        exists|ts: Seq<u8>| is_ascii_bytes(ts) && r@ == #[trigger] separator_bytes(ts),
{
    let ts = local_timestamp_bytes();
    let out = build_separator(&ts);
    proof {
        assert(is_ascii_bytes(ts@) && out@ == separator_bytes(ts@));
    }
    out
}

} // verus!
