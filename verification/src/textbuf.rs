//! Cutting and joining strings at byte offsets.

use vstd::prelude::*;
use vstd::string::*;
use vstd::utf8::*;

verus! {

/// The bytes of a text with `start..end` replaced by `insert`.
pub open spec fn spliced(b: Seq<u8>, start: int, end: int, insert: Seq<u8>) -> Seq<u8> {
    b.take(start) + insert + b.skip(end)
}

/// `String::push` appends the given character to the end of the string.
pub assume_specification[ String::push ](s: &mut String, c: char)
    ensures
        final(s)@ == old(s)@.push(c),
;

/// `std::str::from_utf8` gives the text that the bytes encode, or an error where they are not
/// UTF-8.
#[verifier::external_body]
pub(crate) fn utf8_text(bytes: &Vec<u8>) -> (text: Option<String>)
    ensures
        match text {
            Some(s) => encode_utf8(s@) == bytes@,
            None => !valid_utf8(bytes@),
        },
{
    match std::str::from_utf8(bytes) {
        Ok(s) => Some(s.to_owned()),
        Err(_) => None,
    }
}

/// Encoding a joined text joins the encodings.
pub proof fn lemma_encode_concat(s: Seq<char>, t: Seq<char>)
    ensures
        encode_utf8(s + t) == encode_utf8(s) + encode_utf8(t),
    decreases s.len(),
{
    if s.len() == 0 {
        assert(s + t =~= t);
        assert(encode_utf8(s) + encode_utf8(t) =~= encode_utf8(t));
    } else {
        lemma_encode_concat(s.drop_first(), t);
        assert((s + t).drop_first() =~= s.drop_first() + t);
        let head = encode_scalar(s[0] as u32);
        assert(head + encode_utf8(s.drop_first()) + encode_utf8(t) =~= head + (encode_utf8(
            s.drop_first(),
        ) + encode_utf8(t)));
    }
}

/// Where two texts meet lies a character boundary.
pub proof fn lemma_join_boundary(s: Seq<char>, t: Seq<char>)
    ensures
        is_char_boundary(encode_utf8(s + t), encode_utf8(s).len() as int),
    decreases s.len(),
{
    encode_utf8_valid_utf8(s + t);
    if s.len() > 0 {
        let u = s + t;
        assert(u.drop_first() =~= s.drop_first() + t);
        lemma_join_boundary(s.drop_first(), t);
        encode_utf8_first_scalar(u);
        let head = encode_scalar(u[0] as u32);
        assert(pop_first_scalar(encode_utf8(u)) =~= encode_utf8(u.drop_first()));
        lemma_encode_concat(s, t);
        assert(encode_utf8(s).len() == head.len() + encode_utf8(s.drop_first()).len());
    }
}

/// The text with `start..end` replaced by `insert`.
pub fn splice(text: &str, start: usize, end: usize, insert: &str) -> (out: String)
    requires
        start <= end <= encode_utf8(text@).len(),
        is_char_boundary(encode_utf8(text@), start as int),
        is_char_boundary(encode_utf8(text@), end as int),
    ensures
        encode_utf8(out@) == spliced(
            encode_utf8(text@),
            start as int,
            end as int,
            encode_utf8(insert@),
        ),
        is_char_boundary(encode_utf8(out@), start as int),
        is_char_boundary(encode_utf8(out@), start + encode_utf8(insert@).len()),
        start + encode_utf8(insert@).len() <= encode_utf8(out@).len() <= usize::MAX,
{
    let ghost b = encode_utf8(text@);
    let (left, _) = text.split_at(start);
    let (_, right) = text.split_at(end);
    let mut out: String = left.to_owned();
    out.append(insert);
    out.append(right);
    proof {
        assert(out@ == left@ + insert@ + right@);
        lemma_encode_concat(left@ + insert@, right@);
        lemma_encode_concat(left@, insert@);
        lemma_join_boundary(left@, insert@ + right@);
        assert(left@ + (insert@ + right@) =~= left@ + insert@ + right@);
        lemma_join_boundary(left@ + insert@, right@);
        assert(b.take(start as int) =~= b.subrange(0, start as int));
        assert(b.skip(end as int) =~= b.subrange(end as int, b.len() as int));
    }
    let _len: usize = out.as_str().as_bytes().len();
    out
}

/// The text between two boundaries.
pub fn slice(text: &str, start: usize, end: usize) -> (out: String)
    requires
        start <= end <= encode_utf8(text@).len(),
        is_char_boundary(encode_utf8(text@), start as int),
        is_char_boundary(encode_utf8(text@), end as int),
    ensures
        encode_utf8(out@) == encode_utf8(text@).subrange(start as int, end as int),
{
    let ghost b = encode_utf8(text@);
    let (upto, _) = text.split_at(end);
    proof {
        encode_utf8_valid_utf8(text@);
        encode_utf8_valid_utf8(upto@);
        let head = encode_utf8(upto@);
        is_char_boundary_start_end_of_seq(head);
        if start < end {
            is_char_boundary_iff_not_is_continuation_byte(b, start as int);
            is_char_boundary_iff_not_is_continuation_byte(head, start as int);
        }
    }
    let (_, mid) = upto.split_at(start);
    proof {
        assert(encode_utf8(mid@) =~= b.subrange(start as int, end as int));
    }
    mid.to_owned()
}

/// What lies between two boundaries of a text is a text.
pub proof fn lemma_subrange_valid(b: Seq<u8>, start: int, end: int)
    requires
        valid_utf8(b),
        0 <= start <= end <= b.len(),
        is_char_boundary(b, start),
        is_char_boundary(b, end),
    ensures
        valid_utf8(b.subrange(start, end)),
{
    let head = b.subrange(0, end);
    valid_utf8_split(b, end);
    is_char_boundary_start_end_of_seq(head);
    if start < end {
        is_char_boundary_iff_not_is_continuation_byte(b, start);
        is_char_boundary_iff_not_is_continuation_byte(head, start);
    }
    valid_utf8_split(head, start);
    assert(head.subrange(start, head.len() as int) =~= b.subrange(start, end));
}

/// Splicing a text into a text at boundaries gives a text, with boundaries around the insert.
pub proof fn lemma_spliced_valid(b: Seq<u8>, start: int, end: int, insert: Seq<u8>)
    requires
        valid_utf8(b),
        valid_utf8(insert),
        0 <= start <= end <= b.len(),
        is_char_boundary(b, start),
        is_char_boundary(b, end),
    ensures
        valid_utf8(spliced(b, start, end, insert)),
        is_char_boundary(spliced(b, start, end, insert), start),
        is_char_boundary(spliced(b, start, end, insert), start + insert.len()),
{
    valid_utf8_split(b, start);
    valid_utf8_split(b, end);
    let left = b.take(start);
    let right = b.skip(end);
    assert(left =~= b.subrange(0, start));
    assert(right =~= b.subrange(end, b.len() as int));
    decode_utf8_encode_utf8(left);
    decode_utf8_encode_utf8(right);
    decode_utf8_encode_utf8(insert);
    let l = decode_utf8(left);
    let i = decode_utf8(insert);
    let r = decode_utf8(right);
    lemma_encode_concat(l, i);
    lemma_encode_concat(l + i, r);
    encode_utf8_valid_utf8(l + i + r);
    lemma_join_boundary(l, i + r);
    assert(l + (i + r) =~= l + i + r);
    lemma_join_boundary(l + i, r);
}

} // verus!
