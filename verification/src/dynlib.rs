//! Shared helpers for runtime library loading: candidate names, C-string
//! decoding and the errors reported when a library or symbol is missing.

use vstd::prelude::*;
use vstd::utf8::{
    char_is_scalar, char_u32_cast, decode_utf8, encode_scalar, encode_utf8,
    encode_utf8_decode_utf8, encode_utf8_valid_utf8, last_continuation_byte,
    leading_byte_width_1, leading_byte_width_2, leading_byte_width_3, leading_byte_width_4,
    second_last_continuation_byte, third_last_continuation_byte, valid_utf8,
};

use crate::error::GpuError;
use crate::text::push_str;

verus! {

/// Candidate library names for NVML on the current platform.
pub fn nvml_candidates() -> (r: &'static [&'static str])
    ensures
        r@.len() == 2,
        r@[0]@ == "libnvidia-ml.so.1"@,
        r@[1]@ == "libnvidia-ml.so"@,
{
    &["libnvidia-ml.so.1", "libnvidia-ml.so"]
}

/// AMD SMI sonames / common absolute ROCm install paths.
pub fn amdsmi_candidates() -> (r: &'static [&'static str])
    ensures
        r@.len() == 4,
        r@[0]@ == "libamd_smi.so"@,
        r@[1]@ == "libamd_smi.so.1"@,
        r@[2]@ == "/opt/rocm/lib/libamd_smi.so"@,
        r@[3]@ == "/opt/rocm/lib/libamd_smi.so.1"@,
{
    &["libamd_smi.so", "libamd_smi.so.1", "/opt/rocm/lib/libamd_smi.so", "/opt/rocm/lib/libamd_smi.so.1"]
}

/// Level Zero loader sonames.
pub fn level_zero_candidates() -> (r: &'static [&'static str])
    ensures
        r@.len() == 2,
        r@[0]@ == "libze_loader.so.1"@,
        r@[1]@ == "libze_loader.so"@,
{
    &["libze_loader.so.1", "libze_loader.so"]
}

/// Index of the first NUL byte at or after `i`, or `buf.len()` when there is none.
pub open spec fn nul_index_from(buf: Seq<u8>, i: int) -> int
    decreases buf.len() - i,
{
    if i < 0 || i >= buf.len() {
        buf.len() as int
    } else if buf[i] == 0 {
        i
    } else {
        nul_index_from(buf, i + 1)
    }
}

/// Length of the C string held in `buf`: the bytes before the first NUL.
pub open spec fn c_string_end(buf: Seq<u8>) -> int {
    nul_index_from(buf, 0)
}

/// The first NUL at or after `i` bounds a run of non-NUL bytes.
pub proof fn lemma_nul_index_from(buf: Seq<u8>, i: int)
    requires
        0 <= i <= buf.len(),
    ensures
        i <= nul_index_from(buf, i) <= buf.len(),
        forall|j: int| i <= j < nul_index_from(buf, i) ==> buf[j] != 0,
        nul_index_from(buf, i) < buf.len() ==> buf[nul_index_from(buf, i)] == 0,
    decreases buf.len() - i,
{
    if i < buf.len() && buf[i] != 0 {
        lemma_nul_index_from(buf, i + 1);
    }
}

/// The end of a C string is the first NUL byte, or the buffer's end.
pub proof fn lemma_c_string_end(buf: Seq<u8>)
    ensures
        0 <= c_string_end(buf) <= buf.len(),
        forall|j: int| 0 <= j < c_string_end(buf) ==> buf[j] != 0,
        c_string_end(buf) < buf.len() ==> buf[c_string_end(buf)] == 0,
{
    lemma_nul_index_from(buf, 0);
}

/// What `String::from_utf8_lossy` yields for the given bytes.
pub uninterp spec fn utf8_lossy(bytes: Seq<u8>) -> Seq<char>;

/// Decodes bytes as UTF-8, replacing invalid sequences.
///
/// Trusted: `String::from_utf8_lossy` returns a string that depends on the bytes
/// alone; for valid UTF-8 it is exactly the decoded text (std documentation).
/// How invalid sequences are replaced is left to the name `utf8_lossy`.
#[verifier::external_body]
fn decode_utf8_lossy(bytes: &[u8]) -> (r: String)
    ensures
        r@ == utf8_lossy(bytes@),
        valid_utf8(bytes@) ==> r@ == decode_utf8(bytes@),
        (forall|j: int| 0 <= j < bytes@.len() ==> bytes@[j] != 0) ==> (forall|k: int|
            0 <= k < r@.len() ==> r@[k] != '\0'),
{
    String::from_utf8_lossy(bytes).into_owned()
}

/// The text of the C string held in `buf`: the bytes before its first NUL,
/// decoded as UTF-8 (lossily, where they are not valid UTF-8).
pub open spec fn c_string_text(buf: Seq<u8>) -> Seq<char> {
    let head = buf.take(c_string_end(buf));
    if valid_utf8(head) {
        decode_utf8(head)
    } else {
        utf8_lossy(head)
    }
}

/// Decode a NUL-terminated C buffer into an owned Rust string.
pub fn c_string_from_buf(buf: &[u8]) -> (r: String)
    ensures
        r@ == c_string_text(buf@),
        forall|k: int| 0 <= k < r@.len() ==> r@[k] != '\0',
        r@ == utf8_lossy(buf@.take(c_string_end(buf@))),
        valid_utf8(buf@.take(c_string_end(buf@))) ==> r@ == decode_utf8(
            buf@.take(c_string_end(buf@)),
        ),
{
    let mut end: usize = 0;
    while end < buf.len()
        invariant
            end <= buf.len(),
            nul_index_from(buf@, end as int) == c_string_end(buf@),
        ensures
            end == buf.len() || buf@[end as int] == 0,
            nul_index_from(buf@, end as int) == c_string_end(buf@),
        decreases buf.len() - end,
    {
        if buf[end] == 0 {
            break;
        }
        end = end + 1;
    }
    assert(end as int == c_string_end(buf@));
    let head = &buf[0..end];
    assert(head@ =~= buf@.take(end as int));
    proof {
        lemma_nul_index_from(buf@, 0);
    }
    decode_utf8_lossy(head)
}

/// Joins string views with a separator.
pub open spec fn join(parts: Seq<Seq<char>>, sep: Seq<char>) -> Seq<char>
    decreases parts.len(),
{
    if parts.len() == 0 {
        Seq::empty()
    } else if parts.len() == 1 {
        parts[0]
    } else {
        join(parts.drop_last(), sep) + sep + parts.last()
    }
}

/// The views of a list of string slices.
pub open spec fn str_views(strs: Seq<&str>) -> Seq<Seq<char>> {
    strs.map_values(|s: &str| s@)
}

/// Joins string slices with `sep`, as `[&str]::join` does.
pub fn join_strs(strs: &[&str], sep: &str) -> (r: String)
    ensures
        r@ == join(str_views(strs@), sep@),
{
    let mut out = String::new();
    let mut i: usize = 0;
    while i < strs.len()
        invariant
            i <= strs.len(),
            out@ == join(str_views(strs@).take(i as int), sep@),
        decreases strs.len() - i,
    {
        let ghost views = str_views(strs@);
        assert(views.take(i + 1).drop_last() =~= views.take(i as int));
        if i > 0 {
            push_str(&mut out, sep);
        } else {
            assert(views.take(1).len() == 1);
        }
        push_str(&mut out, strs[i]);
        if i == 0 {
            assert(out@ =~= join(views.take(1), sep@));
        } else {
            assert(out@ =~= join(views.take(i + 1), sep@));
        }
        i = i + 1;
    }
    assert(str_views(strs@).take(strs.len() as int) =~= str_views(strs@));
    out
}

/// The error reported when none of `candidates` could be opened: the
/// candidates joined by `", "`.
pub fn library_not_found(candidates: &[&str]) -> (r: GpuError)
    ensures
        r matches GpuError::LibraryNotFound { candidates: c } && c@ == join(
            str_views(candidates@),
            ", "@,
        ),
{
    GpuError::LibraryNotFound { candidates: join_strs(candidates, ", ") }
}

/// `s` with every trailing NUL character removed.
pub open spec fn trim_trailing_nuls(s: Seq<char>) -> Seq<char>
    decreases s.len(),
{
    if s.len() > 0 && s.last() == '\0' {
        trim_trailing_nuls(s.drop_last())
    } else {
        s
    }
}

/// Validates bytes as UTF-8.
///
/// Trusted: `std::str::from_utf8` succeeds exactly on valid UTF-8 and then
/// views the same text (std documentation).
#[verifier::external_body]
fn str_from_utf8(bytes: &[u8]) -> (r: Option<&str>)
    ensures
        r is Some <==> valid_utf8(bytes@),
        r matches Some(s) ==> s@ == decode_utf8(bytes@),
{
    std::str::from_utf8(bytes).ok()
}

/// The symbol name shown in a missing-symbol error: the UTF-8 text of `name`
/// (or `?` when it is not UTF-8) without its trailing NULs.
pub open spec fn symbol_display(name: Seq<u8>) -> Seq<char> {
    if valid_utf8(name) {
        trim_trailing_nuls(decode_utf8(name))
    } else {
        "?"@
    }
}

/// The error reported when a required symbol `name` is absent from `library`.
pub fn missing_symbol(name: &[u8], library: &str) -> (r: GpuError)
    ensures
        r matches GpuError::MissingSymbol { name: n, library: l } && n@ == symbol_display(name@)
            && l@ == library@,
{
    let text: &str = match str_from_utf8(name) {
        Some(s) => s,
        None => "?",
    };
    proof {
        reveal_strlit("?");
        assert(trim_trailing_nuls("?"@) == "?"@);
    }
    let mut end: usize = text.unicode_len();
    assert(text@.take(end as int) =~= text@);
    while end > 0
        invariant
            end <= text@.len(),
            trim_trailing_nuls(text@.take(end as int)) == trim_trailing_nuls(text@),
        ensures
            end <= text@.len(),
            trim_trailing_nuls(text@.take(end as int)) == trim_trailing_nuls(text@),
            end == 0 || text@[end - 1] != '\0',
        decreases end,
    {
        if text.get_char(end - 1) != '\0' {
            break;
        }
        assert(text@.take(end as int).drop_last() =~= text@.take(end - 1));
        end = end - 1;
    }
    assert(text@.take(end as int) =~= text@.subrange(0, end as int));
    let trimmed = text.substring_char(0, end);
    assert(trimmed@.len() == 0 || trimmed@.last() != '\0');
    assert(trim_trailing_nuls(trimmed@) == trimmed@);
    GpuError::MissingSymbol { name: String::from_str(trimmed), library: String::from_str(library) }
}

} // verus!

verus! {

/// Law: a C string ends at its first NUL — whatever follows the terminator is
/// ignored, and text without a NUL is taken whole.
pub proof fn law_c_string_stops_at_nul(text: Seq<u8>, rest: Seq<u8>)
    requires
        forall|j: int| 0 <= j < text.len() ==> text[j] != 0,
    ensures
        (text + seq![0u8] + rest).take(c_string_end(text + seq![0u8] + rest)) == text,
        text.take(c_string_end(text)) == text,
{
    let buf = text + seq![0u8] + rest;
    lemma_c_string_end(buf);
    lemma_c_string_end(text);
    let e = c_string_end(buf);
    if e < text.len() {
        assert(buf[e] == text[e]);
    } else if e > text.len() {
        assert(buf[text.len() as int] == 0);
    }
    assert(buf.take(e) =~= text);
    let f = c_string_end(text);
    if f < text.len() {
        assert(text[f] == 0);
    }
    assert(text.take(f) =~= text);
}

/// The UTF-8 bytes of a character other than NUL are all non-zero.
proof fn lemma_encoded_bytes_nonzero(v: u32)
    by (bit_vector)
    requires
        0 < v,
    ensures
        v <= 0x7F ==> leading_byte_width_1(v) != 0,
        leading_byte_width_2(v) != 0,
        leading_byte_width_3(v) != 0,
        leading_byte_width_4(v) != 0,
        last_continuation_byte(v) != 0,
        second_last_continuation_byte(v) != 0,
        third_last_continuation_byte(v) != 0,
{
}

/// Text without a NUL character encodes to bytes without a zero byte.
proof fn lemma_encode_utf8_no_nul(text: Seq<char>)
    requires
        forall|k: int| 0 <= k < text.len() ==> text[k] != '\0',
    ensures
        forall|j: int| 0 <= j < encode_utf8(text).len() ==> encode_utf8(text)[j] != 0,
    decreases text.len(),
{
    if text.len() > 0 {
        let c = text[0];
        let v = c as u32;
        char_u32_cast(c, v);
        char_is_scalar(c);
        assert(v != 0);
        lemma_encoded_bytes_nonzero(v);
        let head = encode_scalar(v);
        assert(forall|j: int| 0 <= j < head.len() ==> head[j] != 0);
        let rest = text.drop_first();
        assert(forall|k: int| 0 <= k < rest.len() ==> rest[k] == text[k + 1]);
        lemma_encode_utf8_no_nul(rest);
        let all = encode_utf8(text);
        assert(all == head + encode_utf8(rest));
        assert forall|j: int| 0 <= j < all.len() implies all[j] != 0 by {
            if j >= head.len() {
                assert(all[j] == encode_utf8(rest)[j - head.len()]);
            }
        }
    }
}

/// Law: a string without NUL characters survives a round trip through a C
/// buffer. Its UTF-8 bytes read back as the same text, whether the buffer ends
/// right after them or holds a NUL terminator followed by anything.
pub proof fn law_c_string_round_trip(text: Seq<char>, tail: Seq<u8>)
    requires
        forall|k: int| 0 <= k < text.len() ==> text[k] != '\0',
    ensures
        c_string_text(encode_utf8(text) + seq![0u8] + tail) == text,
        c_string_text(encode_utf8(text)) == text,
{
    let bytes = encode_utf8(text);
    lemma_encode_utf8_no_nul(text);
    law_c_string_stops_at_nul(bytes, tail);
    encode_utf8_valid_utf8(text);
    encode_utf8_decode_utf8(text);
}

} // verus!
