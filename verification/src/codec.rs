//! Deterministic binary encoding of envelopes.
//!
//! Integers are fixed-width little-endian; strings are length-prefixed
//! UTF-8; lists are count-prefixed; variants are tag-prefixed. The spec
//! functions here define the byte format; the executable encoder and
//! decoder are proved against them, and the decoding of every encoding
//! is proved to give back the original value.

use vstd::prelude::*;
use vstd::bytes::*;
use vstd::utf8::{encode_utf8, decode_utf8, valid_utf8, encode_utf8_valid_utf8,
    encode_utf8_decode_utf8};
use crate::wire::{SearchOptionsView, SearchResultView, TextRangeView, TextChangeView,
    FileChangeTypeView, CoreRequestView, CoreResponseView, NotificationView, IpcPayloadView,
    IpcMessageView};

verus! {

// ---------------------------------------------------------------------
// Spec-level encoders
// ---------------------------------------------------------------------

pub open spec fn enc_bool(b: bool) -> Seq<u8> {
    seq![if b { 1u8 } else { 0u8 }]
}

pub open spec fn enc_u64(x: u64) -> Seq<u8> {
    spec_u64_to_le_bytes(x)
}

pub open spec fn enc_u128(x: u128) -> Seq<u8> {
    spec_u128_to_le_bytes(x)
}

pub open spec fn enc_usize(x: usize) -> Seq<u8> {
    spec_u64_to_le_bytes(x as u64)
}

pub open spec fn enc_str(s: Seq<char>) -> Seq<u8> {
    enc_u64(encode_utf8(s).len() as u64) + encode_utf8(s)
}

pub open spec fn enc_opt_str(o: Option<Seq<char>>) -> Seq<u8> {
    match o {
        None => seq![0u8],
        Some(s) => seq![1u8] + enc_str(s),
    }
}

pub open spec fn enc_opt_usize(o: Option<usize>) -> Seq<u8> {
    match o {
        None => seq![0u8],
        Some(x) => seq![1u8] + enc_usize(x),
    }
}

pub open spec fn enc_str_items(v: Seq<Seq<char>>) -> Seq<u8>
    decreases v.len(),
{
    if v.len() == 0 {
        Seq::empty()
    } else {
        enc_str(v[0]) + enc_str_items(v.drop_first())
    }
}

pub open spec fn enc_str_list(v: Seq<Seq<char>>) -> Seq<u8> {
    enc_u64(v.len() as u64) + enc_str_items(v)
}

// ---------------------------------------------------------------------
// Well-formedness: what the length prefixes can represent
// ---------------------------------------------------------------------

pub open spec fn wf_str(s: Seq<char>) -> bool {
    encode_utf8(s).len() <= usize::MAX
}

pub open spec fn wf_opt_str(o: Option<Seq<char>>) -> bool {
    match o {
        None => true,
        Some(s) => wf_str(s),
    }
}

pub open spec fn wf_str_list(v: Seq<Seq<char>>) -> bool {
    &&& v.len() <= usize::MAX
    &&& forall|i: int| 0 <= i < v.len() ==> wf_str(#[trigger] v[i])
}

// ---------------------------------------------------------------------
// Spec-level decoders. Each returns the decoded value and the position
// just past its encoding, or `None` when the bytes do not parse.
// ---------------------------------------------------------------------

pub open spec fn dec_byte_s(b: Seq<u8>, pos: int) -> Option<(u8, int)> {
    if 0 <= pos && pos + 1 <= b.len() {
        Some((b[pos], pos + 1))
    } else {
        None
    }
}

pub open spec fn dec_bool_s(b: Seq<u8>, pos: int) -> Option<(bool, int)> {
    match dec_byte_s(b, pos) {
        Some((x, p)) => if x == 0 {
            Some((false, p))
        } else if x == 1 {
            Some((true, p))
        } else {
            None
        },
        None => None,
    }
}

pub open spec fn dec_u64_s(b: Seq<u8>, pos: int) -> Option<(u64, int)> {
    if 0 <= pos && pos + 8 <= b.len() {
        Some((spec_u64_from_le_bytes(b.subrange(pos, pos + 8)), pos + 8))
    } else {
        None
    }
}

pub open spec fn dec_u128_s(b: Seq<u8>, pos: int) -> Option<(u128, int)> {
    if 0 <= pos && pos + 16 <= b.len() {
        Some((spec_u128_from_le_bytes(b.subrange(pos, pos + 16)), pos + 16))
    } else {
        None
    }
}

pub open spec fn dec_usize_s(b: Seq<u8>, pos: int) -> Option<(usize, int)> {
    match dec_u64_s(b, pos) {
        Some((x, p)) => if x <= usize::MAX as u64 {
            Some((x as usize, p))
        } else {
            None
        },
        None => None,
    }
}

pub open spec fn dec_str_s(b: Seq<u8>, pos: int) -> Option<(Seq<char>, int)> {
    match dec_u64_s(b, pos) {
        Some((n, p)) => if n <= usize::MAX as u64 && p + n <= b.len() {
            let bs = b.subrange(p, p + n);
            if valid_utf8(bs) {
                Some((decode_utf8(bs), p + n))
            } else {
                None
            }
        } else {
            None
        },
        None => None,
    }
}

pub open spec fn dec_opt_str_s(b: Seq<u8>, pos: int) -> Option<(Option<Seq<char>>, int)> {
    match dec_byte_s(b, pos) {
        Some((tag, p)) => if tag == 0 {
            Some((None, p))
        } else if tag == 1 {
            match dec_str_s(b, p) {
                Some((s, q)) => Some((Some(s), q)),
                None => None,
            }
        } else {
            None
        },
        None => None,
    }
}

pub open spec fn dec_opt_usize_s(b: Seq<u8>, pos: int) -> Option<(Option<usize>, int)> {
    match dec_byte_s(b, pos) {
        Some((tag, p)) => if tag == 0 {
            Some((None, p))
        } else if tag == 1 {
            match dec_usize_s(b, p) {
                Some((x, q)) => Some((Some(x), q)),
                None => None,
            }
        } else {
            None
        },
        None => None,
    }
}

pub open spec fn dec_str_items_s(b: Seq<u8>, pos: int, n: nat) -> Option<(Seq<Seq<char>>, int)>
    decreases n,
{
    if n == 0 {
        Some((Seq::empty(), pos))
    } else {
        match dec_str_s(b, pos) {
            Some((s, p)) => match dec_str_items_s(b, p, (n - 1) as nat) {
                Some((v, q)) => Some((seq![s] + v, q)),
                None => None,
            },
            None => None,
        }
    }
}

pub open spec fn dec_str_list_s(b: Seq<u8>, pos: int) -> Option<(Seq<Seq<char>>, int)> {
    match dec_u64_s(b, pos) {
        Some((n, p)) => if n <= usize::MAX as u64 {
            dec_str_items_s(b, p, n as nat)
        } else {
            None
        },
        None => None,
    }
}

// ---------------------------------------------------------------------
// Round-trip lemmas: the decoder applied at an occurrence of an encoding
// yields back the encoded value and stops just past it.
// ---------------------------------------------------------------------

/// Splits a subrange known to equal a concatenation into its two halves.
proof fn lemma_split2(b: Seq<u8>, pos: int, s1: Seq<u8>, s2: Seq<u8>)
    requires
        0 <= pos,
        pos + s1.len() + s2.len() <= b.len(),
        b.subrange(pos, pos + s1.len() + s2.len()) == s1 + s2,
    ensures
        b.subrange(pos, pos + s1.len()) =~= s1,
        b.subrange(pos + s1.len(), pos + s1.len() + s2.len()) =~= s2,
{
    let l1 = s1.len() as int;
    let l2 = s2.len() as int;
    assert forall|i: int| 0 <= i < l1 implies b[pos + i] == s1[i] by {
        assert(b.subrange(pos, pos + l1 + l2)[i] == b[pos + i]);
        assert((s1 + s2)[i] == s1[i]);
    }
    assert forall|i: int| 0 <= i < l2 implies b[pos + l1 + i] == s2[i] by {
        assert(b.subrange(pos, pos + l1 + l2)[l1 + i] == b[pos + l1 + i]);
        assert((s1 + s2)[l1 + i] == s2[i]);
    }
}

pub proof fn lemma_dec_byte(b: Seq<u8>, pos: int, x: u8)
    requires
        0 <= pos,
        pos + 1 <= b.len(),
        b.subrange(pos, pos + 1) == seq![x],
    ensures
        dec_byte_s(b, pos) == Some((x, pos + 1)),
{
    assert(b[pos] == b.subrange(pos, pos + 1)[0]);
}

pub proof fn lemma_dec_bool(b: Seq<u8>, pos: int, v: bool)
    requires
        0 <= pos,
        pos + enc_bool(v).len() <= b.len(),
        b.subrange(pos, pos + enc_bool(v).len()) == enc_bool(v),
    ensures
        dec_bool_s(b, pos) == Some((v, pos + 1)),
{
    lemma_dec_byte(b, pos, if v { 1u8 } else { 0u8 });
}

pub proof fn lemma_dec_u64(b: Seq<u8>, pos: int, x: u64)
    requires
        0 <= pos,
        pos + 8 <= b.len(),
        b.subrange(pos, pos + 8) == enc_u64(x),
    ensures
        dec_u64_s(b, pos) == Some((x, pos + 8)),
        enc_u64(x).len() == 8,
{
    lemma_auto_spec_u64_to_from_le_bytes();
}

pub proof fn lemma_dec_u128(b: Seq<u8>, pos: int, x: u128)
    requires
        0 <= pos,
        pos + 16 <= b.len(),
        b.subrange(pos, pos + 16) == enc_u128(x),
    ensures
        dec_u128_s(b, pos) == Some((x, pos + 16)),
        enc_u128(x).len() == 16,
{
    lemma_auto_spec_u128_to_from_le_bytes();
    assert(spec_u128_to_le_bytes(x).len() == 16);
    assert(spec_u128_from_le_bytes(spec_u128_to_le_bytes(x)) == x);
}

pub proof fn lemma_dec_usize(b: Seq<u8>, pos: int, x: usize)
    requires
        0 <= pos,
        pos + 8 <= b.len(),
        b.subrange(pos, pos + 8) == enc_usize(x),
    ensures
        dec_usize_s(b, pos) == Some((x, pos + 8)),
        enc_usize(x).len() == 8,
{
    lemma_dec_u64(b, pos, x as u64);
}

pub proof fn lemma_dec_str(b: Seq<u8>, pos: int, s: Seq<char>)
    requires
        wf_str(s),
        0 <= pos,
        pos + enc_str(s).len() <= b.len(),
        b.subrange(pos, pos + enc_str(s).len()) == enc_str(s),
    ensures
        dec_str_s(b, pos) == Some((s, pos + enc_str(s).len())),
        enc_str(s).len() == 8 + encode_utf8(s).len(),
{
    let bytes = encode_utf8(s);
    let n = bytes.len() as u64;
    lemma_auto_spec_u64_to_from_le_bytes();
    lemma_split2(b, pos, enc_u64(n), bytes);
    lemma_dec_u64(b, pos, n);
    encode_utf8_valid_utf8(s);
    encode_utf8_decode_utf8(s);
}

pub proof fn lemma_dec_opt_str(b: Seq<u8>, pos: int, o: Option<Seq<char>>)
    requires
        wf_opt_str(o),
        0 <= pos,
        pos + enc_opt_str(o).len() <= b.len(),
        b.subrange(pos, pos + enc_opt_str(o).len()) == enc_opt_str(o),
    ensures
        dec_opt_str_s(b, pos) == Some((o, pos + enc_opt_str(o).len())),
{
    match o {
        None => {
            lemma_dec_byte(b, pos, 0u8);
        },
        Some(s) => {
            lemma_split2(b, pos, seq![1u8], enc_str(s));
            lemma_dec_byte(b, pos, 1u8);
            lemma_dec_str(b, pos + 1, s);
        },
    }
}

pub proof fn lemma_dec_opt_usize(b: Seq<u8>, pos: int, o: Option<usize>)
    requires
        0 <= pos,
        pos + enc_opt_usize(o).len() <= b.len(),
        b.subrange(pos, pos + enc_opt_usize(o).len()) == enc_opt_usize(o),
    ensures
        dec_opt_usize_s(b, pos) == Some((o, pos + enc_opt_usize(o).len())),
{
    lemma_auto_spec_u64_to_from_le_bytes();
    match o {
        None => {
            lemma_dec_byte(b, pos, 0u8);
        },
        Some(x) => {
            lemma_split2(b, pos, seq![1u8], enc_usize(x));
            lemma_dec_byte(b, pos, 1u8);
            lemma_dec_usize(b, pos + 1, x);
        },
    }
}

pub proof fn lemma_dec_str_items(b: Seq<u8>, pos: int, v: Seq<Seq<char>>)
    requires
        wf_str_list(v),
        0 <= pos,
        pos + enc_str_items(v).len() <= b.len(),
        b.subrange(pos, pos + enc_str_items(v).len()) == enc_str_items(v),
    ensures
        dec_str_items_s(b, pos, v.len()) == Some((v, pos + enc_str_items(v).len())),
    decreases v.len(),
{
    if v.len() == 0 {
        assert(v =~= Seq::<Seq<char>>::empty());
    } else {
        let s = v[0];
        let rest = v.drop_first();
        lemma_split2(b, pos, enc_str(s), enc_str_items(rest));
        lemma_dec_str(b, pos, s);
        let p = pos + enc_str(s).len();
        lemma_dec_str_items(b, p, rest);
        assert(seq![s] + rest =~= v);
    }
}

pub proof fn lemma_dec_str_list(b: Seq<u8>, pos: int, v: Seq<Seq<char>>)
    requires
        wf_str_list(v),
        0 <= pos,
        pos + enc_str_list(v).len() <= b.len(),
        b.subrange(pos, pos + enc_str_list(v).len()) == enc_str_list(v),
    ensures
        dec_str_list_s(b, pos) == Some((v, pos + enc_str_list(v).len())),
{
    lemma_auto_spec_u64_to_from_le_bytes();
    lemma_split2(b, pos, enc_u64(v.len() as u64), enc_str_items(v));
    lemma_dec_u64(b, pos, v.len() as u64);
    lemma_dec_str_items(b, pos + 8, v);
}

// ---------------------------------------------------------------------
// Composite wire types
// ---------------------------------------------------------------------

pub open spec fn enc_range(r: TextRangeView) -> Seq<u8> {
    enc_usize(r.start_line) + enc_usize(r.start_column) + enc_usize(r.end_line) + enc_usize(
        r.end_column,
    )
}

pub open spec fn enc_change(c: TextChangeView) -> Seq<u8> {
    enc_range(c.range) + enc_str(c.new_text) + enc_str(c.old_text)
}

pub open spec fn enc_change_items(v: Seq<TextChangeView>) -> Seq<u8>
    decreases v.len(),
{
    if v.len() == 0 {
        Seq::empty()
    } else {
        enc_change(v[0]) + enc_change_items(v.drop_first())
    }
}

pub open spec fn enc_change_list(v: Seq<TextChangeView>) -> Seq<u8> {
    enc_u64(v.len() as u64) + enc_change_items(v)
}

pub open spec fn enc_result(r: SearchResultView) -> Seq<u8> {
    enc_str(r.path) + enc_usize(r.line_number) + enc_usize(r.column) + enc_str(r.line_text)
        + enc_str(r.match_text)
}

pub open spec fn enc_result_items(v: Seq<SearchResultView>) -> Seq<u8>
    decreases v.len(),
{
    if v.len() == 0 {
        Seq::empty()
    } else {
        enc_result(v[0]) + enc_result_items(v.drop_first())
    }
}

pub open spec fn enc_result_list(v: Seq<SearchResultView>) -> Seq<u8> {
    enc_u64(v.len() as u64) + enc_result_items(v)
}

pub open spec fn enc_options(o: SearchOptionsView) -> Seq<u8> {
    enc_bool(o.case_sensitive) + enc_bool(o.whole_word) + enc_bool(o.regex) + enc_opt_str(
        o.include_pattern,
    ) + enc_opt_str(o.exclude_pattern) + enc_opt_usize(o.max_results)
}

pub open spec fn enc_fct(f: FileChangeTypeView) -> Seq<u8> {
    match f {
        FileChangeTypeView::Created => seq![0u8],
        FileChangeTypeView::Modified => seq![1u8],
        FileChangeTypeView::Deleted => seq![2u8],
        FileChangeTypeView::Renamed { old_path, new_path } => seq![3u8] + enc_str(old_path)
            + enc_str(new_path),
    }
}

pub open spec fn wf_change(c: TextChangeView) -> bool {
    wf_str(c.new_text) && wf_str(c.old_text)
}

pub open spec fn wf_change_list(v: Seq<TextChangeView>) -> bool {
    &&& v.len() <= usize::MAX
    &&& forall|i: int| 0 <= i < v.len() ==> wf_change(#[trigger] v[i])
}

pub open spec fn wf_result(r: SearchResultView) -> bool {
    wf_str(r.path) && wf_str(r.line_text) && wf_str(r.match_text)
}

pub open spec fn wf_result_list(v: Seq<SearchResultView>) -> bool {
    &&& v.len() <= usize::MAX
    &&& forall|i: int| 0 <= i < v.len() ==> wf_result(#[trigger] v[i])
}

pub open spec fn wf_options(o: SearchOptionsView) -> bool {
    wf_opt_str(o.include_pattern) && wf_opt_str(o.exclude_pattern)
}

pub open spec fn wf_fct(f: FileChangeTypeView) -> bool {
    match f {
        FileChangeTypeView::Renamed { old_path, new_path } => wf_str(old_path) && wf_str(new_path),
        _ => true,
    }
}

pub open spec fn dec_range_s(b: Seq<u8>, pos: int) -> Option<(TextRangeView, int)> {
    match dec_usize_s(b, pos) {
        Some((sl, p1)) => match dec_usize_s(b, p1) {
            Some((sc, p2)) => match dec_usize_s(b, p2) {
                Some((el, p3)) => match dec_usize_s(b, p3) {
                    Some((ec, p4)) => Some(
                        (
                            TextRangeView {
                                start_line: sl,
                                start_column: sc,
                                end_line: el,
                                end_column: ec,
                            },
                            p4,
                        ),
                    ),
                    None => None,
                },
                None => None,
            },
            None => None,
        },
        None => None,
    }
}

pub open spec fn dec_change_s(b: Seq<u8>, pos: int) -> Option<(TextChangeView, int)> {
    match dec_range_s(b, pos) {
        Some((r, p1)) => match dec_str_s(b, p1) {
            Some((nt, p2)) => match dec_str_s(b, p2) {
                Some((ot, p3)) => Some(
                    (TextChangeView { range: r, new_text: nt, old_text: ot }, p3),
                ),
                None => None,
            },
            None => None,
        },
        None => None,
    }
}

pub open spec fn dec_change_items_s(b: Seq<u8>, pos: int, n: nat) -> Option<
    (Seq<TextChangeView>, int),
>
    decreases n,
{
    if n == 0 {
        Some((Seq::empty(), pos))
    } else {
        match dec_change_s(b, pos) {
            Some((c, p)) => match dec_change_items_s(b, p, (n - 1) as nat) {
                Some((v, q)) => Some((seq![c] + v, q)),
                None => None,
            },
            None => None,
        }
    }
}

pub open spec fn dec_change_list_s(b: Seq<u8>, pos: int) -> Option<(Seq<TextChangeView>, int)> {
    match dec_u64_s(b, pos) {
        Some((n, p)) => if n <= usize::MAX as u64 {
            dec_change_items_s(b, p, n as nat)
        } else {
            None
        },
        None => None,
    }
}

pub open spec fn dec_result_s(b: Seq<u8>, pos: int) -> Option<(SearchResultView, int)> {
    match dec_str_s(b, pos) {
        Some((path, p1)) => match dec_usize_s(b, p1) {
            Some((ln, p2)) => match dec_usize_s(b, p2) {
                Some((col, p3)) => match dec_str_s(b, p3) {
                    Some((lt, p4)) => match dec_str_s(b, p4) {
                        Some((mt, p5)) => Some(
                            (
                                SearchResultView {
                                    path: path,
                                    line_number: ln,
                                    column: col,
                                    line_text: lt,
                                    match_text: mt,
                                },
                                p5,
                            ),
                        ),
                        None => None,
                    },
                    None => None,
                },
                None => None,
            },
            None => None,
        },
        None => None,
    }
}

pub open spec fn dec_result_items_s(b: Seq<u8>, pos: int, n: nat) -> Option<
    (Seq<SearchResultView>, int),
>
    decreases n,
{
    if n == 0 {
        Some((Seq::empty(), pos))
    } else {
        match dec_result_s(b, pos) {
            Some((c, p)) => match dec_result_items_s(b, p, (n - 1) as nat) {
                Some((v, q)) => Some((seq![c] + v, q)),
                None => None,
            },
            None => None,
        }
    }
}

pub open spec fn dec_result_list_s(b: Seq<u8>, pos: int) -> Option<(Seq<SearchResultView>, int)> {
    match dec_u64_s(b, pos) {
        Some((n, p)) => if n <= usize::MAX as u64 {
            dec_result_items_s(b, p, n as nat)
        } else {
            None
        },
        None => None,
    }
}

pub open spec fn dec_options_s(b: Seq<u8>, pos: int) -> Option<(SearchOptionsView, int)> {
    match dec_bool_s(b, pos) {
        Some((cs, p1)) => match dec_bool_s(b, p1) {
            Some((ww, p2)) => match dec_bool_s(b, p2) {
                Some((rx, p3)) => match dec_opt_str_s(b, p3) {
                    Some((inc, p4)) => match dec_opt_str_s(b, p4) {
                        Some((exc, p5)) => match dec_opt_usize_s(b, p5) {
                            Some((mr, p6)) => Some(
                                (
                                    SearchOptionsView {
                                        case_sensitive: cs,
                                        whole_word: ww,
                                        regex: rx,
                                        include_pattern: inc,
                                        exclude_pattern: exc,
                                        max_results: mr,
                                    },
                                    p6,
                                ),
                            ),
                            None => None,
                        },
                        None => None,
                    },
                    None => None,
                },
                None => None,
            },
            None => None,
        },
        None => None,
    }
}

pub open spec fn dec_fct_s(b: Seq<u8>, pos: int) -> Option<(FileChangeTypeView, int)> {
    match dec_byte_s(b, pos) {
        Some((tag, p)) => if tag == 0 {
            Some((FileChangeTypeView::Created, p))
        } else if tag == 1 {
            Some((FileChangeTypeView::Modified, p))
        } else if tag == 2 {
            Some((FileChangeTypeView::Deleted, p))
        } else if tag == 3 {
            match dec_str_s(b, p) {
                Some((op, p1)) => match dec_str_s(b, p1) {
                    Some((np, p2)) => Some(
                        (FileChangeTypeView::Renamed { old_path: op, new_path: np }, p2),
                    ),
                    None => None,
                },
                None => None,
            }
        } else {
            None
        },
        None => None,
    }
}

// ---------------------------------------------------------------------
// Round-trip lemmas for the composite types
// ---------------------------------------------------------------------

pub proof fn lemma_dec_range(b: Seq<u8>, pos: int, r: TextRangeView)
    requires
        0 <= pos,
        pos + enc_range(r).len() <= b.len(),
        b.subrange(pos, pos + enc_range(r).len()) == enc_range(r),
    ensures
        dec_range_s(b, pos) == Some((r, pos + enc_range(r).len())),
        enc_range(r).len() == 32,
{
    lemma_auto_spec_u64_to_from_le_bytes();
    let e1 = enc_usize(r.start_line);
    let e2 = enc_usize(r.start_column);
    let e3 = enc_usize(r.end_line);
    let e4 = enc_usize(r.end_column);
    lemma_split2(b, pos, e1 + e2 + e3, e4);
    lemma_split2(b, pos, e1 + e2, e3);
    lemma_split2(b, pos, e1, e2);
    lemma_dec_usize(b, pos, r.start_line);
    lemma_dec_usize(b, pos + 8, r.start_column);
    lemma_dec_usize(b, pos + 16, r.end_line);
    lemma_dec_usize(b, pos + 24, r.end_column);
}

pub proof fn lemma_dec_change(b: Seq<u8>, pos: int, c: TextChangeView)
    requires
        wf_change(c),
        0 <= pos,
        pos + enc_change(c).len() <= b.len(),
        b.subrange(pos, pos + enc_change(c).len()) == enc_change(c),
    ensures
        dec_change_s(b, pos) == Some((c, pos + enc_change(c).len())),
{
    let e1 = enc_range(c.range);
    let e2 = enc_str(c.new_text);
    let e3 = enc_str(c.old_text);
    lemma_split2(b, pos, e1 + e2, e3);
    lemma_split2(b, pos, e1, e2);
    lemma_dec_range(b, pos, c.range);
    lemma_dec_str(b, pos + 32, c.new_text);
    lemma_dec_str(b, pos + 32 + e2.len(), c.old_text);
}

pub proof fn lemma_dec_change_items(b: Seq<u8>, pos: int, v: Seq<TextChangeView>)
    requires
        wf_change_list(v),
        0 <= pos,
        pos + enc_change_items(v).len() <= b.len(),
        b.subrange(pos, pos + enc_change_items(v).len()) == enc_change_items(v),
    ensures
        dec_change_items_s(b, pos, v.len()) == Some((v, pos + enc_change_items(v).len())),
    decreases v.len(),
{
    if v.len() == 0 {
        assert(v =~= Seq::<TextChangeView>::empty());
    } else {
        let c = v[0];
        let rest = v.drop_first();
        lemma_split2(b, pos, enc_change(c), enc_change_items(rest));
        lemma_dec_change(b, pos, c);
        lemma_dec_change_items(b, pos + enc_change(c).len(), rest);
        assert(seq![c] + rest =~= v);
    }
}

pub proof fn lemma_dec_change_list(b: Seq<u8>, pos: int, v: Seq<TextChangeView>)
    requires
        wf_change_list(v),
        0 <= pos,
        pos + enc_change_list(v).len() <= b.len(),
        b.subrange(pos, pos + enc_change_list(v).len()) == enc_change_list(v),
    ensures
        dec_change_list_s(b, pos) == Some((v, pos + enc_change_list(v).len())),
{
    lemma_auto_spec_u64_to_from_le_bytes();
    lemma_split2(b, pos, enc_u64(v.len() as u64), enc_change_items(v));
    lemma_dec_u64(b, pos, v.len() as u64);
    lemma_dec_change_items(b, pos + 8, v);
}

pub proof fn lemma_dec_result(b: Seq<u8>, pos: int, r: SearchResultView)
    requires
        wf_result(r),
        0 <= pos,
        pos + enc_result(r).len() <= b.len(),
        b.subrange(pos, pos + enc_result(r).len()) == enc_result(r),
    ensures
        dec_result_s(b, pos) == Some((r, pos + enc_result(r).len())),
{
    lemma_auto_spec_u64_to_from_le_bytes();
    let e1 = enc_str(r.path);
    let e2 = enc_usize(r.line_number);
    let e3 = enc_usize(r.column);
    let e4 = enc_str(r.line_text);
    let e5 = enc_str(r.match_text);
    lemma_split2(b, pos, e1 + e2 + e3 + e4, e5);
    lemma_split2(b, pos, e1 + e2 + e3, e4);
    lemma_split2(b, pos, e1 + e2, e3);
    lemma_split2(b, pos, e1, e2);
    lemma_dec_str(b, pos, r.path);
    lemma_dec_usize(b, pos + e1.len(), r.line_number);
    lemma_dec_usize(b, pos + e1.len() + 8, r.column);
    lemma_dec_str(b, pos + e1.len() + 16, r.line_text);
    lemma_dec_str(b, pos + e1.len() + 16 + e4.len(), r.match_text);
}

pub proof fn lemma_dec_result_items(b: Seq<u8>, pos: int, v: Seq<SearchResultView>)
    requires
        wf_result_list(v),
        0 <= pos,
        pos + enc_result_items(v).len() <= b.len(),
        b.subrange(pos, pos + enc_result_items(v).len()) == enc_result_items(v),
    ensures
        dec_result_items_s(b, pos, v.len()) == Some((v, pos + enc_result_items(v).len())),
    decreases v.len(),
{
    if v.len() == 0 {
        assert(v =~= Seq::<SearchResultView>::empty());
    } else {
        let c = v[0];
        let rest = v.drop_first();
        lemma_split2(b, pos, enc_result(c), enc_result_items(rest));
        lemma_dec_result(b, pos, c);
        lemma_dec_result_items(b, pos + enc_result(c).len(), rest);
        assert(seq![c] + rest =~= v);
    }
}

pub proof fn lemma_dec_result_list(b: Seq<u8>, pos: int, v: Seq<SearchResultView>)
    requires
        wf_result_list(v),
        0 <= pos,
        pos + enc_result_list(v).len() <= b.len(),
        b.subrange(pos, pos + enc_result_list(v).len()) == enc_result_list(v),
    ensures
        dec_result_list_s(b, pos) == Some((v, pos + enc_result_list(v).len())),
{
    lemma_auto_spec_u64_to_from_le_bytes();
    lemma_split2(b, pos, enc_u64(v.len() as u64), enc_result_items(v));
    lemma_dec_u64(b, pos, v.len() as u64);
    lemma_dec_result_items(b, pos + 8, v);
}

pub proof fn lemma_dec_options(b: Seq<u8>, pos: int, o: SearchOptionsView)
    requires
        wf_options(o),
        0 <= pos,
        pos + enc_options(o).len() <= b.len(),
        b.subrange(pos, pos + enc_options(o).len()) == enc_options(o),
    ensures
        dec_options_s(b, pos) == Some((o, pos + enc_options(o).len())),
{
    let e1 = enc_bool(o.case_sensitive);
    let e2 = enc_bool(o.whole_word);
    let e3 = enc_bool(o.regex);
    let e4 = enc_opt_str(o.include_pattern);
    let e5 = enc_opt_str(o.exclude_pattern);
    let e6 = enc_opt_usize(o.max_results);
    lemma_split2(b, pos, e1 + e2 + e3 + e4 + e5, e6);
    lemma_split2(b, pos, e1 + e2 + e3 + e4, e5);
    lemma_split2(b, pos, e1 + e2 + e3, e4);
    lemma_split2(b, pos, e1 + e2, e3);
    lemma_split2(b, pos, e1, e2);
    lemma_dec_bool(b, pos, o.case_sensitive);
    lemma_dec_bool(b, pos + 1, o.whole_word);
    lemma_dec_bool(b, pos + 2, o.regex);
    lemma_dec_opt_str(b, pos + 3, o.include_pattern);
    lemma_dec_opt_str(b, pos + 3 + e4.len(), o.exclude_pattern);
    lemma_dec_opt_usize(b, pos + 3 + e4.len() + e5.len(), o.max_results);
}

pub proof fn lemma_dec_fct(b: Seq<u8>, pos: int, f: FileChangeTypeView)
    requires
        wf_fct(f),
        0 <= pos,
        pos + enc_fct(f).len() <= b.len(),
        b.subrange(pos, pos + enc_fct(f).len()) == enc_fct(f),
    ensures
        dec_fct_s(b, pos) == Some((f, pos + enc_fct(f).len())),
{
    match f {
        FileChangeTypeView::Created => {
            lemma_dec_byte(b, pos, 0u8);
        },
        FileChangeTypeView::Modified => {
            lemma_dec_byte(b, pos, 1u8);
        },
        FileChangeTypeView::Deleted => {
            lemma_dec_byte(b, pos, 2u8);
        },
        FileChangeTypeView::Renamed { old_path, new_path } => {
            let e1 = enc_str(old_path);
            let e2 = enc_str(new_path);
            lemma_split2(b, pos, seq![3u8] + e1, e2);
            lemma_split2(b, pos, seq![3u8], e1);
            lemma_dec_byte(b, pos, 3u8);
            lemma_dec_str(b, pos + 1, old_path);
            lemma_dec_str(b, pos + 1 + e1.len(), new_path);
        },
    }
}

// ---------------------------------------------------------------------
// The tagged unions and the envelope
// ---------------------------------------------------------------------

pub open spec fn enc_req(r: CoreRequestView) -> Seq<u8> {
    match r {
        CoreRequestView::Ping => seq![0u8],
        CoreRequestView::Sleep { millis } => seq![1u8] + enc_u64(millis),
        CoreRequestView::OpenBuffer { path } => seq![2u8] + enc_str(path),
        CoreRequestView::SaveBuffer { buffer_id, content } => seq![3u8] + enc_str(buffer_id)
            + enc_str(content),
        CoreRequestView::CloseBuffer { buffer_id } => seq![4u8] + enc_str(buffer_id),
        CoreRequestView::Search { query, options } => seq![5u8] + enc_str(query) + enc_options(
            options,
        ),
        CoreRequestView::LspRequest { server, method, params } => seq![6u8] + enc_str(server)
            + enc_str(method) + enc_str(params),
        CoreRequestView::GetProjectFiles { root_path } => seq![7u8] + enc_str(root_path),
        CoreRequestView::GetStats => seq![8u8],
    }
}

pub open spec fn enc_resp(r: CoreResponseView) -> Seq<u8> {
    match r {
        CoreResponseView::Pong => seq![0u8],
        CoreResponseView::BufferOpened { buffer_id, content } => seq![1u8] + enc_str(buffer_id)
            + enc_str(content),
        CoreResponseView::BufferSaved { buffer_id } => seq![2u8] + enc_str(buffer_id),
        CoreResponseView::BufferClosed { buffer_id } => seq![3u8] + enc_str(buffer_id),
        CoreResponseView::SearchResults { results } => seq![4u8] + enc_result_list(results),
        CoreResponseView::LspResponse { result } => seq![5u8] + enc_str(result),
        CoreResponseView::ProjectFiles { files } => seq![6u8] + enc_str_list(files),
        CoreResponseView::Stats { cancels, deadlines, backpressure } => seq![7u8] + enc_u64(
            cancels,
        ) + enc_u64(deadlines) + enc_u64(backpressure),
        CoreResponseView::Success => seq![8u8],
        CoreResponseView::Error { message } => seq![9u8] + enc_str(message),
    }
}

pub open spec fn enc_notif(n: NotificationView) -> Seq<u8> {
    match n {
        NotificationView::BufferChanged { buffer_id, changes } => seq![0u8] + enc_str(buffer_id)
            + enc_change_list(changes),
        NotificationView::DiagnosticsUpdate { uri, diagnostics } => seq![1u8] + enc_str(uri)
            + enc_str_list(diagnostics),
        NotificationView::FileSystemChanged { path, change_type } => seq![2u8] + enc_str(path)
            + enc_fct(change_type),
    }
}

pub open spec fn enc_payload(p: IpcPayloadView) -> Seq<u8> {
    match p {
        IpcPayloadView::Request(r) => seq![0u8] + enc_req(r),
        IpcPayloadView::Response(r) => seq![1u8] + enc_resp(r),
        IpcPayloadView::Notification(n) => seq![2u8] + enc_notif(n),
        IpcPayloadView::Cancel(id) => seq![3u8] + enc_u128(id),
    }
}

pub open spec fn enc_msg(m: IpcMessageView) -> Seq<u8> {
    enc_u128(m.id) + enc_u64(m.deadline_millis) + enc_payload(m.payload)
}

pub open spec fn wf_req(r: CoreRequestView) -> bool {
    match r {
        CoreRequestView::Ping => true,
        CoreRequestView::Sleep { millis } => true,
        CoreRequestView::OpenBuffer { path } => wf_str(path),
        CoreRequestView::SaveBuffer { buffer_id, content } => wf_str(buffer_id) && wf_str(content),
        CoreRequestView::CloseBuffer { buffer_id } => wf_str(buffer_id),
        CoreRequestView::Search { query, options } => wf_str(query) && wf_options(options),
        CoreRequestView::LspRequest { server, method, params } => wf_str(server) && wf_str(method)
            && wf_str(params),
        CoreRequestView::GetProjectFiles { root_path } => wf_str(root_path),
        CoreRequestView::GetStats => true,
    }
}

pub open spec fn wf_resp(r: CoreResponseView) -> bool {
    match r {
        CoreResponseView::Pong => true,
        CoreResponseView::BufferOpened { buffer_id, content } => wf_str(buffer_id) && wf_str(
            content,
        ),
        CoreResponseView::BufferSaved { buffer_id } => wf_str(buffer_id),
        CoreResponseView::BufferClosed { buffer_id } => wf_str(buffer_id),
        CoreResponseView::SearchResults { results } => wf_result_list(results),
        CoreResponseView::LspResponse { result } => wf_str(result),
        CoreResponseView::ProjectFiles { files } => wf_str_list(files),
        CoreResponseView::Stats { cancels, deadlines, backpressure } => true,
        CoreResponseView::Success => true,
        CoreResponseView::Error { message } => wf_str(message),
    }
}

pub open spec fn wf_notif(n: NotificationView) -> bool {
    match n {
        NotificationView::BufferChanged { buffer_id, changes } => wf_str(buffer_id)
            && wf_change_list(changes),
        NotificationView::DiagnosticsUpdate { uri, diagnostics } => wf_str(uri) && wf_str_list(
            diagnostics,
        ),
        NotificationView::FileSystemChanged { path, change_type } => wf_str(path) && wf_fct(
            change_type,
        ),
    }
}

pub open spec fn wf_payload(p: IpcPayloadView) -> bool {
    match p {
        IpcPayloadView::Request(r) => wf_req(r),
        IpcPayloadView::Response(r) => wf_resp(r),
        IpcPayloadView::Notification(n) => wf_notif(n),
        IpcPayloadView::Cancel(id) => true,
    }
}

pub open spec fn wf_msg(m: IpcMessageView) -> bool {
    wf_payload(m.payload)
}

pub open spec fn dec_req_s(b: Seq<u8>, pos: int) -> Option<(CoreRequestView, int)> {
    match dec_byte_s(b, pos) {
        Some((tag, p)) => if tag == 0 {
            Some((CoreRequestView::Ping, p))
        } else if tag == 1 {
            match dec_u64_s(b, p) {
                Some((millis, q)) => Some((CoreRequestView::Sleep { millis }, q)),
                None => None,
            }
        } else if tag == 2 {
            match dec_str_s(b, p) {
                Some((path, q)) => Some((CoreRequestView::OpenBuffer { path }, q)),
                None => None,
            }
        } else if tag == 3 {
            match dec_str_s(b, p) {
                Some((buffer_id, q)) => match dec_str_s(b, q) {
                    Some((content, q2)) => Some(
                        (CoreRequestView::SaveBuffer { buffer_id, content }, q2),
                    ),
                    None => None,
                },
                None => None,
            }
        } else if tag == 4 {
            match dec_str_s(b, p) {
                Some((buffer_id, q)) => Some((CoreRequestView::CloseBuffer { buffer_id }, q)),
                None => None,
            }
        } else if tag == 5 {
            match dec_str_s(b, p) {
                Some((query, q)) => match dec_options_s(b, q) {
                    Some((options, q2)) => Some((CoreRequestView::Search { query, options }, q2)),
                    None => None,
                },
                None => None,
            }
        } else if tag == 6 {
            match dec_str_s(b, p) {
                Some((server, q)) => match dec_str_s(b, q) {
                    Some((method, q2)) => match dec_str_s(b, q2) {
                        Some((params, q3)) => Some(
                            (CoreRequestView::LspRequest { server, method, params }, q3),
                        ),
                        None => None,
                    },
                    None => None,
                },
                None => None,
            }
        } else if tag == 7 {
            match dec_str_s(b, p) {
                Some((root_path, q)) => Some((CoreRequestView::GetProjectFiles { root_path }, q)),
                None => None,
            }
        } else if tag == 8 {
            Some((CoreRequestView::GetStats, p))
        } else {
            None
        },
        None => None,
    }
}

pub open spec fn dec_resp_s(b: Seq<u8>, pos: int) -> Option<(CoreResponseView, int)> {
    match dec_byte_s(b, pos) {
        Some((tag, p)) => if tag == 0 {
            Some((CoreResponseView::Pong, p))
        } else if tag == 1 {
            match dec_str_s(b, p) {
                Some((buffer_id, q)) => match dec_str_s(b, q) {
                    Some((content, q2)) => Some(
                        (CoreResponseView::BufferOpened { buffer_id, content }, q2),
                    ),
                    None => None,
                },
                None => None,
            }
        } else if tag == 2 {
            match dec_str_s(b, p) {
                Some((buffer_id, q)) => Some((CoreResponseView::BufferSaved { buffer_id }, q)),
                None => None,
            }
        } else if tag == 3 {
            match dec_str_s(b, p) {
                Some((buffer_id, q)) => Some((CoreResponseView::BufferClosed { buffer_id }, q)),
                None => None,
            }
        } else if tag == 4 {
            match dec_result_list_s(b, p) {
                Some((results, q)) => Some((CoreResponseView::SearchResults { results }, q)),
                None => None,
            }
        } else if tag == 5 {
            match dec_str_s(b, p) {
                Some((result, q)) => Some((CoreResponseView::LspResponse { result }, q)),
                None => None,
            }
        } else if tag == 6 {
            match dec_str_list_s(b, p) {
                Some((files, q)) => Some((CoreResponseView::ProjectFiles { files }, q)),
                None => None,
            }
        } else if tag == 7 {
            match dec_u64_s(b, p) {
                Some((cancels, q)) => match dec_u64_s(b, q) {
                    Some((deadlines, q2)) => match dec_u64_s(b, q2) {
                        Some((backpressure, q3)) => Some(
                            (CoreResponseView::Stats { cancels, deadlines, backpressure }, q3),
                        ),
                        None => None,
                    },
                    None => None,
                },
                None => None,
            }
        } else if tag == 8 {
            Some((CoreResponseView::Success, p))
        } else if tag == 9 {
            match dec_str_s(b, p) {
                Some((message, q)) => Some((CoreResponseView::Error { message }, q)),
                None => None,
            }
        } else {
            None
        },
        None => None,
    }
}

pub open spec fn dec_notif_s(b: Seq<u8>, pos: int) -> Option<(NotificationView, int)> {
    match dec_byte_s(b, pos) {
        Some((tag, p)) => if tag == 0 {
            match dec_str_s(b, p) {
                Some((buffer_id, q)) => match dec_change_list_s(b, q) {
                    Some((changes, q2)) => Some(
                        (NotificationView::BufferChanged { buffer_id, changes }, q2),
                    ),
                    None => None,
                },
                None => None,
            }
        } else if tag == 1 {
            match dec_str_s(b, p) {
                Some((uri, q)) => match dec_str_list_s(b, q) {
                    Some((diagnostics, q2)) => Some(
                        (NotificationView::DiagnosticsUpdate { uri, diagnostics }, q2),
                    ),
                    None => None,
                },
                None => None,
            }
        } else if tag == 2 {
            match dec_str_s(b, p) {
                Some((path, q)) => match dec_fct_s(b, q) {
                    Some((change_type, q2)) => Some(
                        (NotificationView::FileSystemChanged { path, change_type }, q2),
                    ),
                    None => None,
                },
                None => None,
            }
        } else {
            None
        },
        None => None,
    }
}

pub open spec fn dec_payload_s(b: Seq<u8>, pos: int) -> Option<(IpcPayloadView, int)> {
    match dec_byte_s(b, pos) {
        Some((tag, p)) => if tag == 0 {
            match dec_req_s(b, p) {
                Some((r, q)) => Some((IpcPayloadView::Request(r), q)),
                None => None,
            }
        } else if tag == 1 {
            match dec_resp_s(b, p) {
                Some((r, q)) => Some((IpcPayloadView::Response(r), q)),
                None => None,
            }
        } else if tag == 2 {
            match dec_notif_s(b, p) {
                Some((n, q)) => Some((IpcPayloadView::Notification(n), q)),
                None => None,
            }
        } else if tag == 3 {
            match dec_u128_s(b, p) {
                Some((id, q)) => Some((IpcPayloadView::Cancel(id), q)),
                None => None,
            }
        } else {
            None
        },
        None => None,
    }
}

pub open spec fn dec_msg_s(b: Seq<u8>, pos: int) -> Option<(IpcMessageView, int)> {
    match dec_u128_s(b, pos) {
        Some((id, p)) => match dec_u64_s(b, p) {
            Some((deadline_millis, q)) => match dec_payload_s(b, q) {
                Some((payload, q2)) => Some(
                    (IpcMessageView { id, deadline_millis, payload }, q2),
                ),
                None => None,
            },
            None => None,
        },
        None => None,
    }
}

pub proof fn lemma_dec_req(b: Seq<u8>, pos: int, r: CoreRequestView)
    requires
        wf_req(r),
        0 <= pos,
        pos + enc_req(r).len() <= b.len(),
        b.subrange(pos, pos + enc_req(r).len()) == enc_req(r),
    ensures
        dec_req_s(b, pos) == Some((r, pos + enc_req(r).len())),
{
    match r {
        CoreRequestView::Ping => {
            lemma_dec_byte(b, pos, 0u8);
        },
        CoreRequestView::Sleep { millis } => {
            lemma_auto_spec_u64_to_from_le_bytes();
            lemma_split2(b, pos, seq![1u8], enc_u64(millis));
            lemma_dec_byte(b, pos, 1u8);
            lemma_dec_u64(b, pos + 1, millis);
        },
        CoreRequestView::OpenBuffer { path } => {
            lemma_split2(b, pos, seq![2u8], enc_str(path));
            lemma_dec_byte(b, pos, 2u8);
            lemma_dec_str(b, pos + 1, path);
        },
        CoreRequestView::SaveBuffer { buffer_id, content } => {
            let e1 = enc_str(buffer_id);
            let e2 = enc_str(content);
            lemma_split2(b, pos, seq![3u8] + e1, e2);
            lemma_split2(b, pos, seq![3u8], e1);
            lemma_dec_byte(b, pos, 3u8);
            lemma_dec_str(b, pos + 1, buffer_id);
            lemma_dec_str(b, pos + 1 + e1.len(), content);
        },
        CoreRequestView::CloseBuffer { buffer_id } => {
            lemma_split2(b, pos, seq![4u8], enc_str(buffer_id));
            lemma_dec_byte(b, pos, 4u8);
            lemma_dec_str(b, pos + 1, buffer_id);
        },
        CoreRequestView::Search { query, options } => {
            let e1 = enc_str(query);
            let e2 = enc_options(options);
            lemma_split2(b, pos, seq![5u8] + e1, e2);
            lemma_split2(b, pos, seq![5u8], e1);
            lemma_dec_byte(b, pos, 5u8);
            lemma_dec_str(b, pos + 1, query);
            lemma_dec_options(b, pos + 1 + e1.len(), options);
        },
        CoreRequestView::LspRequest { server, method, params } => {
            let e1 = enc_str(server);
            let e2 = enc_str(method);
            let e3 = enc_str(params);
            lemma_split2(b, pos, seq![6u8] + e1 + e2, e3);
            lemma_split2(b, pos, seq![6u8] + e1, e2);
            lemma_split2(b, pos, seq![6u8], e1);
            lemma_dec_byte(b, pos, 6u8);
            lemma_dec_str(b, pos + 1, server);
            lemma_dec_str(b, pos + 1 + e1.len(), method);
            lemma_dec_str(b, pos + 1 + e1.len() + e2.len(), params);
        },
        CoreRequestView::GetProjectFiles { root_path } => {
            lemma_split2(b, pos, seq![7u8], enc_str(root_path));
            lemma_dec_byte(b, pos, 7u8);
            lemma_dec_str(b, pos + 1, root_path);
        },
        CoreRequestView::GetStats => {
            lemma_dec_byte(b, pos, 8u8);
        },
    }
}

pub proof fn lemma_dec_resp(b: Seq<u8>, pos: int, r: CoreResponseView)
    requires
        wf_resp(r),
        0 <= pos,
        pos + enc_resp(r).len() <= b.len(),
        b.subrange(pos, pos + enc_resp(r).len()) == enc_resp(r),
    ensures
        dec_resp_s(b, pos) == Some((r, pos + enc_resp(r).len())),
{
    match r {
        CoreResponseView::Pong => {
            lemma_dec_byte(b, pos, 0u8);
        },
        CoreResponseView::BufferOpened { buffer_id, content } => {
            let e1 = enc_str(buffer_id);
            let e2 = enc_str(content);
            lemma_split2(b, pos, seq![1u8] + e1, e2);
            lemma_split2(b, pos, seq![1u8], e1);
            lemma_dec_byte(b, pos, 1u8);
            lemma_dec_str(b, pos + 1, buffer_id);
            lemma_dec_str(b, pos + 1 + e1.len(), content);
        },
        CoreResponseView::BufferSaved { buffer_id } => {
            lemma_split2(b, pos, seq![2u8], enc_str(buffer_id));
            lemma_dec_byte(b, pos, 2u8);
            lemma_dec_str(b, pos + 1, buffer_id);
        },
        CoreResponseView::BufferClosed { buffer_id } => {
            lemma_split2(b, pos, seq![3u8], enc_str(buffer_id));
            lemma_dec_byte(b, pos, 3u8);
            lemma_dec_str(b, pos + 1, buffer_id);
        },
        CoreResponseView::SearchResults { results } => {
            lemma_split2(b, pos, seq![4u8], enc_result_list(results));
            lemma_dec_byte(b, pos, 4u8);
            lemma_dec_result_list(b, pos + 1, results);
        },
        CoreResponseView::LspResponse { result } => {
            lemma_split2(b, pos, seq![5u8], enc_str(result));
            lemma_dec_byte(b, pos, 5u8);
            lemma_dec_str(b, pos + 1, result);
        },
        CoreResponseView::ProjectFiles { files } => {
            lemma_split2(b, pos, seq![6u8], enc_str_list(files));
            lemma_dec_byte(b, pos, 6u8);
            lemma_dec_str_list(b, pos + 1, files);
        },
        CoreResponseView::Stats { cancels, deadlines, backpressure } => {
            lemma_auto_spec_u64_to_from_le_bytes();
            let e1 = enc_u64(cancels);
            let e2 = enc_u64(deadlines);
            let e3 = enc_u64(backpressure);
            lemma_split2(b, pos, seq![7u8] + e1 + e2, e3);
            lemma_split2(b, pos, seq![7u8] + e1, e2);
            lemma_split2(b, pos, seq![7u8], e1);
            lemma_dec_byte(b, pos, 7u8);
            lemma_dec_u64(b, pos + 1, cancels);
            lemma_dec_u64(b, pos + 9, deadlines);
            lemma_dec_u64(b, pos + 17, backpressure);
        },
        CoreResponseView::Success => {
            lemma_dec_byte(b, pos, 8u8);
        },
        CoreResponseView::Error { message } => {
            lemma_split2(b, pos, seq![9u8], enc_str(message));
            lemma_dec_byte(b, pos, 9u8);
            lemma_dec_str(b, pos + 1, message);
        },
    }
}

pub proof fn lemma_dec_notif(b: Seq<u8>, pos: int, n: NotificationView)
    requires
        wf_notif(n),
        0 <= pos,
        pos + enc_notif(n).len() <= b.len(),
        b.subrange(pos, pos + enc_notif(n).len()) == enc_notif(n),
    ensures
        dec_notif_s(b, pos) == Some((n, pos + enc_notif(n).len())),
{
    match n {
        NotificationView::BufferChanged { buffer_id, changes } => {
            let e1 = enc_str(buffer_id);
            let e2 = enc_change_list(changes);
            lemma_split2(b, pos, seq![0u8] + e1, e2);
            lemma_split2(b, pos, seq![0u8], e1);
            lemma_dec_byte(b, pos, 0u8);
            lemma_dec_str(b, pos + 1, buffer_id);
            lemma_dec_change_list(b, pos + 1 + e1.len(), changes);
        },
        NotificationView::DiagnosticsUpdate { uri, diagnostics } => {
            let e1 = enc_str(uri);
            let e2 = enc_str_list(diagnostics);
            lemma_split2(b, pos, seq![1u8] + e1, e2);
            lemma_split2(b, pos, seq![1u8], e1);
            lemma_dec_byte(b, pos, 1u8);
            lemma_dec_str(b, pos + 1, uri);
            lemma_dec_str_list(b, pos + 1 + e1.len(), diagnostics);
        },
        NotificationView::FileSystemChanged { path, change_type } => {
            let e1 = enc_str(path);
            let e2 = enc_fct(change_type);
            lemma_split2(b, pos, seq![2u8] + e1, e2);
            lemma_split2(b, pos, seq![2u8], e1);
            lemma_dec_byte(b, pos, 2u8);
            lemma_dec_str(b, pos + 1, path);
            lemma_dec_fct(b, pos + 1 + e1.len(), change_type);
        },
    }
}

pub proof fn lemma_dec_payload(b: Seq<u8>, pos: int, p: IpcPayloadView)
    requires
        wf_payload(p),
        0 <= pos,
        pos + enc_payload(p).len() <= b.len(),
        b.subrange(pos, pos + enc_payload(p).len()) == enc_payload(p),
    ensures
        dec_payload_s(b, pos) == Some((p, pos + enc_payload(p).len())),
{
    match p {
        IpcPayloadView::Request(r) => {
            lemma_split2(b, pos, seq![0u8], enc_req(r));
            lemma_dec_byte(b, pos, 0u8);
            lemma_dec_req(b, pos + 1, r);
        },
        IpcPayloadView::Response(r) => {
            lemma_split2(b, pos, seq![1u8], enc_resp(r));
            lemma_dec_byte(b, pos, 1u8);
            lemma_dec_resp(b, pos + 1, r);
        },
        IpcPayloadView::Notification(n) => {
            lemma_split2(b, pos, seq![2u8], enc_notif(n));
            lemma_dec_byte(b, pos, 2u8);
            lemma_dec_notif(b, pos + 1, n);
        },
        IpcPayloadView::Cancel(id) => {
            lemma_auto_spec_u128_to_from_le_bytes();
            assert(spec_u128_to_le_bytes(id).len() == 16);
            lemma_split2(b, pos, seq![3u8], enc_u128(id));
            lemma_dec_byte(b, pos, 3u8);
            lemma_dec_u128(b, pos + 1, id);
        },
    }
}

pub proof fn lemma_dec_msg(b: Seq<u8>, pos: int, m: IpcMessageView)
    requires
        wf_msg(m),
        0 <= pos,
        pos + enc_msg(m).len() <= b.len(),
        b.subrange(pos, pos + enc_msg(m).len()) == enc_msg(m),
    ensures
        dec_msg_s(b, pos) == Some((m, pos + enc_msg(m).len())),
{
    lemma_auto_spec_u64_to_from_le_bytes();
    lemma_auto_spec_u128_to_from_le_bytes();
    assert(spec_u128_to_le_bytes(m.id).len() == 16);
    let e1 = enc_u128(m.id);
    let e2 = enc_u64(m.deadline_millis);
    let e3 = enc_payload(m.payload);
    lemma_split2(b, pos, e1 + e2, e3);
    lemma_split2(b, pos, e1, e2);
    lemma_dec_u128(b, pos, m.id);
    lemma_dec_u64(b, pos + 16, m.deadline_millis);
    lemma_dec_payload(b, pos + 24, m.payload);
}

/// Round-trip law of the envelope codec: decoding an encoded envelope
/// yields back that envelope and consumes exactly its bytes.
pub proof fn lemma_message_round_trip(m: IpcMessageView)
    requires
        wf_msg(m),
    ensures
        dec_msg_s(enc_msg(m), 0) == Some((m, enc_msg(m).len() as int)),
{
    let b = enc_msg(m);
    assert(b.subrange(0, b.len() as int) =~= b);
    lemma_dec_msg(b, 0, m);
}

// ---------------------------------------------------------------------
// Appending one item extends an item-list encoding on the right.
// ---------------------------------------------------------------------

pub proof fn lemma_enc_str_items_snoc(v: Seq<Seq<char>>, x: Seq<char>)
    ensures
        enc_str_items(v + seq![x]) == enc_str_items(v) + enc_str(x),
    decreases v.len(),
{
    if v.len() == 0 {
        assert(v + seq![x] =~= seq![x]);
        assert((v + seq![x])[0] == x);
        assert((v + seq![x]).drop_first() =~= Seq::<Seq<char>>::empty());
        assert(enc_str_items((v + seq![x]).drop_first()) == Seq::<u8>::empty());
        assert(enc_str_items(v + seq![x]) =~= enc_str(x));
        assert(enc_str_items(v) + enc_str(x) =~= enc_str(x));
    } else {
        assert((v + seq![x])[0] == v[0]);
        assert((v + seq![x]).drop_first() =~= v.drop_first() + seq![x]);
        lemma_enc_str_items_snoc(v.drop_first(), x);
        assert(enc_str_items(v + seq![x]) == enc_str(v[0]) + enc_str_items(v.drop_first() + seq![x]));
        assert(enc_str_items(v + seq![x]) =~= enc_str_items(v) + enc_str(x));
    }
}

pub proof fn lemma_enc_change_items_snoc(v: Seq<TextChangeView>, x: TextChangeView)
    ensures
        enc_change_items(v + seq![x]) == enc_change_items(v) + enc_change(x),
    decreases v.len(),
{
    if v.len() == 0 {
        assert(v + seq![x] =~= seq![x]);
        assert((v + seq![x])[0] == x);
        assert((v + seq![x]).drop_first() =~= Seq::<TextChangeView>::empty());
        assert(enc_change_items((v + seq![x]).drop_first()) == Seq::<u8>::empty());
        assert(enc_change_items(v + seq![x]) =~= enc_change(x));
        assert(enc_change_items(v) + enc_change(x) =~= enc_change(x));
    } else {
        assert((v + seq![x])[0] == v[0]);
        assert((v + seq![x]).drop_first() =~= v.drop_first() + seq![x]);
        lemma_enc_change_items_snoc(v.drop_first(), x);
        assert(enc_change_items(v + seq![x]) == enc_change(v[0]) + enc_change_items(v.drop_first() + seq![x]));
        assert(enc_change_items(v + seq![x]) =~= enc_change_items(v) + enc_change(x));
    }
}

pub proof fn lemma_enc_result_items_snoc(v: Seq<SearchResultView>, x: SearchResultView)
    ensures
        enc_result_items(v + seq![x]) == enc_result_items(v) + enc_result(x),
    decreases v.len(),
{
    if v.len() == 0 {
        assert(v + seq![x] =~= seq![x]);
        assert((v + seq![x])[0] == x);
        assert((v + seq![x]).drop_first() =~= Seq::<SearchResultView>::empty());
        assert(enc_result_items((v + seq![x]).drop_first()) == Seq::<u8>::empty());
        assert(enc_result_items(v + seq![x]) =~= enc_result(x));
        assert(enc_result_items(v) + enc_result(x) =~= enc_result(x));
    } else {
        assert((v + seq![x])[0] == v[0]);
        assert((v + seq![x]).drop_first() =~= v.drop_first() + seq![x]);
        lemma_enc_result_items_snoc(v.drop_first(), x);
        assert(enc_result_items(v + seq![x]) == enc_result(v[0]) + enc_result_items(v.drop_first() + seq![x]));
        assert(enc_result_items(v + seq![x]) =~= enc_result_items(v) + enc_result(x));
    }
}

} // verus!
