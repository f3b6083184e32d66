//! How serialized entries are delimited in the attribute files: each entry is
//! followed by a few zero bytes and the separator `#END#`, so that payload,
//! padding and separator together grow by `MAX_ALIGN` bytes.
use vstd::prelude::*;
use vstd::slice::slice_subrange;

verus! {

/// Bytes added after every payload: padding and separator.
pub const MAX_ALIGN: usize = 8;

/// Length of the separator.
pub const SEPARATOR_LEN: usize = 5;

/// The separator `#END#`.
pub open spec fn separator() -> Seq<u8> {
    seq![35u8, 69u8, 78u8, 68u8, 35u8]
}

/// What follows a payload: three zero bytes, then the separator.
pub open spec fn trailer() -> Seq<u8> {
    seq![0u8, 0u8, 0u8] + separator()
}

/// Whether the separator occurs in `s` at position `i`.
pub open spec fn sep_at(s: Seq<u8>, i: int) -> bool {
    0 <= i && i + 5 <= s.len() && s.subrange(i, i + 5) == separator()
}

/// Whether `s` holds the separator nowhere.
pub open spec fn sep_free(s: Seq<u8>) -> bool {
    forall|k: int| !#[trigger] sep_at(s, k)
}

/// The separator `#END#`.
pub fn separator_bytes() -> (r: Vec<u8>)
    ensures
        r@ == separator(),
{
    let r = vec![35u8, 69u8, 78u8, 68u8, 35u8];
    assert(r@ =~= separator());
    r
}

/// The bytes written after a payload: padding to `MAX_ALIGN`, then the separator.
pub fn entry_trailer() -> (r: Vec<u8>)
    ensures
        r@ == trailer(),
{
    let r = vec![0u8, 0u8, 0u8, 35u8, 69u8, 78u8, 68u8, 35u8];
    assert(r@ =~= trailer());
    r
}

/// Whether the separator occurs in `s` at position `i`.
pub fn sep_at_exec(s: &[u8], i: usize) -> (r: bool)
    ensures
        r == sep_at(s@, i as int),
{
    let n = s.len();
    if i > n || n - i < 5 {
        return false;
    }
    let r = s[i] == 35u8 && s[i + 1] == 69u8 && s[i + 2] == 78u8 && s[i + 3] == 68u8 && s[i + 4]
        == 35u8;
    if r {
        assert(s@.subrange(i as int, i + 5) =~= separator());
    } else {
        assert(s@.subrange(i as int, i + 5) != separator()) by {
            if s@.subrange(i as int, i + 5) == separator() {
                assert(s@.subrange(i as int, i + 5)[0] == s@[i as int]);
                assert(s@.subrange(i as int, i + 5)[1] == s@[i + 1]);
                assert(s@.subrange(i as int, i + 5)[2] == s@[i + 2]);
                assert(s@.subrange(i as int, i + 5)[3] == s@[i + 3]);
                assert(s@.subrange(i as int, i + 5)[4] == s@[i + 4]);
            }
        }
    }
    r
}

/// Whether a buffer read so far ends with the separator, i.e. holds a whole entry.
pub fn entry_complete(buf: &[u8]) -> (r: bool)
    ensures
        r == (buf@.len() >= 5 && sep_at(buf@, buf@.len() - 5)),
{
    let n = buf.len();
    if n < 5 {
        return false;
    }
    sep_at_exec(buf, n - 5)
}

/// The payload of a whole entry: all but its last `MAX_ALIGN` bytes.
pub fn entry_payload(buf: &[u8]) -> (r: &[u8])
    requires
        buf@.len() >= MAX_ALIGN,
    ensures
        r@ == buf@.subrange(0, buf@.len() - MAX_ALIGN),
{
    slice_subrange(buf, 0, buf.len() - MAX_ALIGN)
}

/// Where the entry that starts at `start` ends: just past the first separator
/// found after `start`; `None` when no separator follows.
pub fn next_entry_end(input: &[u8], start: usize) -> (r: Option<usize>)
    requires
        start < usize::MAX,
    ensures
        r matches Some(e) ==> {
            &&& start < e - 5
            &&& sep_at(input@, e - 5)
            &&& forall|k: int| start < k < e - 5 ==> !#[trigger] sep_at(input@, k)
        },
        r is None ==> forall|k: int| start < k ==> !#[trigger] sep_at(input@, k),
{
    let n = input.len();
    let mut end = start + 1;
    while end < n && !sep_at_exec(input, end)
        invariant
            n == input@.len(),
            start < end,
            forall|k: int| start < k < end ==> !#[trigger] sep_at(input@, k),
        decreases n - end,
    {
        end = end + 1;
    }
    if end >= n {
        return None;
    }
    Some(end + 5)
}

/// A payload that holds no separator, written after any bytes and followed by
/// its trailer and any further bytes, is found again: searching from where it
/// starts, the first separator is the trailer's, and the entry without its
/// last `MAX_ALIGN` bytes is the payload.
pub proof fn lemma_framed_entry_found(before: Seq<u8>, payload: Seq<u8>, rest: Seq<u8>)
    requires
        sep_free(payload),
    ensures
        ({
            let s = before + payload + trailer() + rest;
            let start = before.len() as int;
            let end = start + payload.len() + 8;
            &&& sep_at(s, end - 5)
            &&& forall|k: int| start <= k < end - 5 ==> !#[trigger] sep_at(s, k)
            &&& s.subrange(start, end - MAX_ALIGN) == payload
        }),
{
    let s = before + payload + trailer() + rest;
    let b = before.len() as int;
    let p = payload.len() as int;
    assert(s.subrange(b + p + 3, b + p + 8) =~= separator());
    assert(s.subrange(b, b + p) =~= payload);
    assert forall|k: int| b <= k < b + p + 3 implies !#[trigger] sep_at(s, k) by {
        if k + 5 <= b + p {
            assert(s.subrange(k, k + 5) =~= payload.subrange(k - b, k - b + 5));
            assert(!sep_at(payload, k - b));
        } else {
            let j = if k < b + p { b + p } else { k };
            assert(s[j] == 0u8);
            if sep_at(s, k) {
                assert(s.subrange(k, k + 5)[j - k] == s[j]);
                assert(separator()[j - k] != 0u8);
            }
        }
    }
}

/// The bytes of several entries written one after another.
pub open spec fn frames(payloads: Seq<Seq<u8>>) -> Seq<u8>
    decreases payloads.len(),
{
    if payloads.len() == 0 {
        Seq::empty()
    } else {
        frames(payloads.drop_last()) + payloads.last() + trailer()
    }
}

proof fn lemma_frames_concat(a: Seq<Seq<u8>>, b: Seq<Seq<u8>>)
    ensures
        frames(a + b) == frames(a) + frames(b),
    decreases b.len(),
{
    if b.len() == 0 {
        assert(a + b =~= a);
        assert(frames(a) + frames(b) =~= frames(a));
    } else {
        lemma_frames_concat(a, b.drop_last());
        assert((a + b).drop_last() =~= a + b.drop_last());
        assert((a + b).last() == b.last());
        assert(frames(a + b.drop_last()) + b.last() + trailer() =~= frames(a) + (frames(
            b.drop_last(),
        ) + b.last() + trailer()));
    }
}

/// Every entry of a file written entry by entry is found again, in order: the
/// scan for the entry that starts where the one before it ended stops at the
/// end of that entry, and its payload is the one written.
pub proof fn lemma_frames_read_back(payloads: Seq<Seq<u8>>, i: int)
    requires
        0 <= i < payloads.len(),
        forall|j: int| 0 <= j < payloads.len() ==> sep_free(#[trigger] payloads[j]),
    ensures
        ({
            let s = frames(payloads);
            let start = frames(payloads.take(i)).len() as int;
            let end = start + payloads[i].len() + 8;
            &&& end == frames(payloads.take(i + 1)).len()
            &&& sep_at(s, end - 5)
            &&& forall|k: int| start <= k < end - 5 ==> !#[trigger] sep_at(s, k)
            &&& s.subrange(start, end - MAX_ALIGN) == payloads[i]
        }),
{
    let before = payloads.take(i);
    let after = payloads.skip(i + 1);
    assert(payloads =~= before + seq![payloads[i]] + after);
    lemma_frames_concat(before + seq![payloads[i]], after);
    lemma_frames_concat(before, seq![payloads[i]]);
    assert(seq![payloads[i]].drop_last() =~= Seq::<Seq<u8>>::empty());
    assert(frames(Seq::<Seq<u8>>::empty()) =~= Seq::<u8>::empty());
    assert(frames(seq![payloads[i]]) == frames(seq![payloads[i]].drop_last()) + payloads[i] + trailer());
    assert(frames(seq![payloads[i]]) =~= payloads[i] + trailer());
    assert(payloads.take(i + 1) =~= before + seq![payloads[i]]);
    let s = frames(payloads);
    assert(s =~= frames(before) + payloads[i] + trailer() + frames(after));
    lemma_framed_entry_found(frames(before), payloads[i], frames(after));
}

} // verus!
