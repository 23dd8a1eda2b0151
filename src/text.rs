//! Plain-text reduction of node sequences and byte-offset slicing of source text.
use vstd::prelude::*;
use vstd::string::{StringExecFns, StringSliceAdditionalSpecFns};
use vstd::utf8::{decode_utf8, encode_utf8, is_char_boundary};
use crate::raw::RawNode;

verus! {

broadcast use vstd::utf8::group_utf8_lib;

/// The literal text of a node sequence: the values of its `Text` nodes in
/// order; every other node contributes nothing.
pub open spec fn text_of(nodes: Seq<RawNode>) -> Seq<char>
    decreases nodes.len(),
{
    if nodes.len() == 0 {
        Seq::empty()
    } else {
        text_of(nodes.drop_last()) + match nodes.last() {
            RawNode::Text { value } => value@,
            _ => Seq::empty(),
        }
    }
}

/// Concatenates the literal text of `nodes`, discarding all markup structure.
pub fn reduce_nodes_to_text(nodes: &Vec<RawNode>) -> (r: String)
    ensures
        r@ == text_of(nodes@),
{
    let mut out = String::new();
    let mut i: usize = 0;
    while i < nodes.len()
        invariant
            i <= nodes.len(),
            out@ == text_of(nodes@.subrange(0, i as int)),
        decreases nodes.len() - i,
    {
        assert(nodes@.subrange(0, i + 1).drop_last() =~= nodes@.subrange(0, i as int));
        match &nodes[i] {
            RawNode::Text { value } => out.append(value.as_str()),
            _ => {
                assert(out@ =~= out@ + Seq::<char>::empty());
            },
        }
        i = i + 1;
    }
    assert(nodes@.subrange(0, nodes.len() as int) =~= nodes@);
    out
}

/// The number of bytes in the UTF-8 encoding of `s`.
pub open spec fn byte_len(s: Seq<char>) -> nat {
    encode_utf8(s).len()
}

/// The number of bytes in `text`.
pub fn text_byte_len(text: &str) -> (r: usize)
    ensures
        r == byte_len(text@),
{
    text.as_bytes().len()
}

/// True when `[start, end)` is a byte range of `text` that begins and ends on
/// character boundaries.
pub open spec fn valid_byte_range(text: Seq<char>, start: int, end: int) -> bool {
    &&& 0 <= start <= end <= byte_len(text)
    &&& is_char_boundary(encode_utf8(text), start)
    &&& is_char_boundary(encode_utf8(text), end)
}

/// The characters encoded by bytes `[start, end)` of `text`.
pub open spec fn byte_slice(text: Seq<char>, start: int, end: int) -> Seq<char> {
    decode_utf8(encode_utf8(text).subrange(start, end))
}

/// The part of `text` between byte offsets `start` and `end`, if that range
/// lies within the text and on character boundaries.
pub fn slice_bytes<'a>(text: &'a str, start: usize, end: usize) -> (r: Option<&'a str>)
    ensures
        r is Some <==> valid_byte_range(text@, start as int, end as int),
        r matches Some(s) ==> s@ == byte_slice(text@, start as int, end as int) && byte_len(s@)
            == end - start,
{
    if start <= end && text.is_char_boundary(start) && text.is_char_boundary(end) {
        let ghost bytes = text.spec_bytes();
        assert(vstd::utf8::valid_utf8(bytes));
        let (_, rest) = text.split_at(start);
        let ghost rb = rest.spec_bytes();
        assert(rb =~= bytes.subrange(start as int, bytes.len() as int));
        assert(vstd::utf8::valid_utf8(rb));
        proof {
            if end < bytes.len() {
                assert(rb[end - start] == bytes[end as int]);
                vstd::utf8::is_char_boundary_iff_not_is_continuation_byte(bytes, end as int);
                vstd::utf8::is_char_boundary_iff_not_is_continuation_byte(rb, end - start);
                assert(is_char_boundary(rb, end - start));
            } else {
                assert(is_char_boundary(rb, rb.len() as int));
            }
        }
        let (mid, _) = rest.split_at(end - start);
        assert(mid.spec_bytes() =~= bytes.subrange(start as int, end as int));
        assert(mid@ == decode_utf8(encode_utf8(mid@)));
        Some(mid)
    } else {
        None
    }
}

} // verus!
