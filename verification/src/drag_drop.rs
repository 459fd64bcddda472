//! Drag & drop: what one dropped entry becomes, and how the drops that
//! arrived since the previous frame are gathered into one batch.

use vstd::prelude::*;

verus! {

/// One message sent by the platform drop hook.
#[derive(Debug)]
pub enum DragDropMessage {
    /// Paths that were dropped, in the order the platform listed them.
    Paths(Vec<String>),
    /// How many dropped paths had to be rejected because they were not UTF-8.
    RejectedNonUtf8(usize),
}

/// Everything dropped since the previous frame.
#[derive(Debug)]
pub struct PendingDrop {
    pub paths: Vec<String>,
    pub rejected_non_utf8: usize,
}

/// The paths carried by one message.
pub open spec fn message_paths(m: DragDropMessage) -> Seq<String> {
    match m {
        DragDropMessage::Paths(batch) => batch@,
        DragDropMessage::RejectedNonUtf8(_) => Seq::empty(),
    }
}

/// The rejection count carried by one message.
pub open spec fn message_rejected(m: DragDropMessage) -> int {
    match m {
        DragDropMessage::Paths(_) => 0,
        DragDropMessage::RejectedNonUtf8(n) => n as int,
    }
}

/// All paths carried by a run of messages, in arrival order.
pub open spec fn dropped_paths(ms: Seq<DragDropMessage>) -> Seq<String>
    decreases ms.len(),
{
    if ms.len() == 0 {
        Seq::empty()
    } else {
        message_paths(ms[0]) + dropped_paths(ms.drop_first())
    }
}

/// The total rejection count of a run of messages.
pub open spec fn rejected_total(ms: Seq<DragDropMessage>) -> int
    decreases ms.len(),
{
    if ms.len() == 0 {
        0
    } else {
        message_rejected(ms[0]) + rejected_total(ms.drop_first())
    }
}

/// Gathers the messages received since the previous frame, in arrival order.
///
/// Returns `None` when no dropped paths were received and no dropped paths
/// were rejected; otherwise all paths in arrival order and the total number
/// of rejected paths.
pub fn collect_pending(messages: Vec<DragDropMessage>) -> (r: Option<PendingDrop>)
    requires
        rejected_total(messages@) <= usize::MAX,
    ensures
        r is None <==> dropped_paths(messages@).len() == 0 && rejected_total(messages@) == 0,
        r matches Some(p) ==> p.paths@ == dropped_paths(messages@) && p.rejected_non_utf8
            == rejected_total(messages@),
{
    let ghost all = messages@;
    proof {
        lemma_rejected_total_nonneg(all);
    }
    let mut rest = messages;
    let mut paths: Vec<String> = Vec::new();
    let mut rejected: usize = 0;
    while rest.len() > 0
        invariant
            paths@ + dropped_paths(rest@) == dropped_paths(all),
            rejected + rejected_total(rest@) == rejected_total(all),
            rejected_total(all) <= usize::MAX,
            rejected_total(rest@) >= 0,
        decreases rest.len(),
    {
        proof {
            lemma_rejected_total_nonneg(rest@.drop_first());
        }
        let ghost before = rest@;
        let m = rest.remove(0);
        assert(rest@ =~= before.drop_first());
        match m {
            DragDropMessage::Paths(batch) => {
                let mut batch = batch;
                let ghost pb = paths@;
                paths.append(&mut batch);
                assert(paths@ + dropped_paths(rest@) =~= pb + (message_paths(before[0])
                    + dropped_paths(before.drop_first())));
            },
            DragDropMessage::RejectedNonUtf8(count) => {
                assert(paths@ + dropped_paths(rest@) =~= paths@ + (message_paths(before[0])
                    + dropped_paths(before.drop_first())));
                rejected = rejected + count;
            },
        }
    }
    if paths.len() == 0 && rejected == 0 {
        None
    } else {
        Some(PendingDrop { paths, rejected_non_utf8: rejected })
    }
}

/// A rejection total is never negative.
proof fn lemma_rejected_total_nonneg(ms: Seq<DragDropMessage>)
    ensures
        rejected_total(ms) >= 0,
    decreases ms.len(),
{
    if ms.len() > 0 {
        lemma_rejected_total_nonneg(ms.drop_first());
    }
}

/// A UTF-16 code unit that opens a surrogate pair.
pub open spec fn is_high_surrogate(u: u16) -> bool {
    0xD800 <= u <= 0xDBFF
}

/// A UTF-16 code unit that closes a surrogate pair.
pub open spec fn is_low_surrogate(u: u16) -> bool {
    0xDC00 <= u <= 0xDFFF
}

/// The text that a run of UTF-16 code units encodes, or `None` when a
/// surrogate stands unpaired.
pub open spec fn decode_utf16(u: Seq<u16>) -> Option<Seq<char>>
    decreases u.len(),
{
    if u.len() == 0 {
        Some(Seq::empty())
    } else if !is_high_surrogate(u[0]) && !is_low_surrogate(u[0]) {
        match decode_utf16(u.drop_first()) {
            Some(rest) => Some(seq![u[0] as char] + rest),
            None => None,
        }
    } else if is_high_surrogate(u[0]) && u.len() >= 2 && is_low_surrogate(u[1]) {
        match decode_utf16(u.subrange(2, u.len() as int)) {
            Some(rest) => Some(
                seq![(0x10000 + (u[0] - 0xD800) * 0x400 + (u[1] - 0xDC00)) as char] + rest,
            ),
            None => None,
        }
    } else {
        None
    }
}

/// Decodes the first `n` code units of `units` with `String::from_utf16`.
/// The contract claims what the standard library documents: the result is
/// the UTF-16 decoding of those units, and the call fails exactly when the
/// units hold an unpaired surrogate.
#[verifier::external_body]
fn decode_utf16_prefix(units: &[u16], n: usize) -> (r: Option<String>)
    requires
        n <= units@.len(),
    ensures
        match r {
            Some(s) => decode_utf16(units@.subrange(0, n as int)) == Some(s@),
            None => decode_utf16(units@.subrange(0, n as int)) is None,
        },
{
    match String::from_utf16(&units[..n]) {
        Ok(s) => Some(s),
        Err(_) => None,
    }
}

/// What one entry of a platform drop becomes.
#[derive(Debug, PartialEq, Eq)]
pub enum DroppedItem {
    Path(String),
    Skip,
    RejectedNonUtf8,
}

/// The path text an entry yields, given the probed length, the count the copy
/// call reported, and the filled buffer; `None` when the entry is skipped.
pub open spec fn drop_item_path(len: usize, written_raw: usize, buf: Seq<u16>) -> Option<Seq<char>> {
    if len == 0 || written_raw == 0 {
        None
    } else {
        let written = if written_raw > buf.len() { buf.len() as int } else { written_raw as int };
        match decode_utf16(buf.subrange(0, written)) {
            Some(s) => if s.len() == 0 { None } else { Some(s) },
            None => None,
        }
    }
}

/// Classifies a single file entry returned by the platform drop query.
///
/// `len` is the character count from the probe call (no terminator),
/// `written_raw` the count returned by the copy call, `buf` the buffer that
/// was filled, `i` the entry's position in the drop. A zero length or a zero
/// copy count skips the entry; a copy count larger than the buffer is clamped
/// to the buffer; text that does not decode, or decodes to nothing, is
/// skipped; anything else is a path. Decoded text is always valid UTF-8, so
/// this never yields `RejectedNonUtf8`.
pub fn classify_drop_item(len: usize, written_raw: usize, buf: &[u16], i: u32) -> (d: DroppedItem)
    ensures
        match d {
            DroppedItem::Path(p) => drop_item_path(len, written_raw, buf@) == Some(p@),
            DroppedItem::Skip => drop_item_path(len, written_raw, buf@) is None,
            DroppedItem::RejectedNonUtf8 => false,
        },
{
    if len == 0 {
        return DroppedItem::Skip;
    }
    if written_raw == 0 {
        return DroppedItem::Skip;
    }
    let written = if written_raw > buf.len() {
        buf.len()
    } else {
        written_raw
    };
    match decode_utf16_prefix(buf, written) {
        None => DroppedItem::Skip,
        Some(s) => {
            if s.as_str().is_empty() {
                DroppedItem::Skip
            } else {
                DroppedItem::Path(s)
            }
        },
    }
}

} // verus!
