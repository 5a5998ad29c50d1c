//! Byte strings and texts: equality, prefixes and containment. A text is
//! read through its UTF-8 bytes, and every answer is stated of its
//! characters.

use vstd::prelude::*;
use vstd::string::*;
use vstd::utf8::*;

verus! {

/// The texts of a list of strings.
pub open spec fn texts(names: Seq<String>) -> Seq<Seq<char>> {
    Seq::new(names.len(), |i: int| names[i]@)
}

/// Whether two byte strings are equal. Every position is read whatever the
/// earlier ones held.
pub fn same_bytes(left: &[u8], right: &[u8]) -> (same: bool)
    ensures
        same == (left@ == right@),
{
    if left.len() != right.len() {
        return false;
    }
    let mut same = true;
    let mut i: usize = 0;
    while i < left.len()
        invariant
            left@.len() == right@.len(),
            i <= left@.len(),
            same == (forall|k: int| 0 <= k < i ==> left@[k] == right@[k]),
        decreases left@.len() - i,
    {
        let here = left[i] == right[i];
        same = same && here;
        i = i + 1;
    }
    proof {
        if same {
            assert(left@ =~= right@);
        }
    }
    same
}

/// Whether two texts are equal, character for character.
pub fn same_text(left: &str, right: &str) -> (same: bool)
    ensures
        same == (left@ == right@),
{
    let same = same_bytes(left.as_bytes(), right.as_bytes());
    proof {
        encode_utf8_decode_utf8(left@);
        encode_utf8_decode_utf8(right@);
    }
    same
}

/// Whether `bytes` begins with `head`.
pub fn starts_with_bytes(bytes: &[u8], head: &[u8]) -> (begins: bool)
    ensures
        begins == (head@.len() <= bytes@.len() && bytes@.subrange(0, head@.len() as int)
            == head@),
{
    if head.len() > bytes.len() {
        return false;
    }
    let mut i: usize = 0;
    while i < head.len()
        invariant
            head@.len() <= bytes@.len(),
            i <= head@.len(),
            forall|k: int| 0 <= k < i ==> bytes@[k] == head@[k],
        decreases head@.len() - i,
    {
        if bytes[i] != head[i] {
            proof {
                assert(bytes@.subrange(0, head@.len() as int)[i as int] == bytes@[i as int]);
            }
            return false;
        }
        i = i + 1;
    }
    proof {
        assert(bytes@.subrange(0, head@.len() as int) =~= head@);
    }
    true
}

/// The UTF-8 bytes of two texts joined are the bytes of the one followed
/// by the bytes of the other.
pub proof fn lemma_encode_joined(first: Seq<char>, second: Seq<char>)
    ensures
        encode_utf8(first + second) == encode_utf8(first) + encode_utf8(second),
    decreases first.len(),
{
    if first.len() == 0 {
        assert(first + second =~= second);
        assert(encode_utf8(first) + encode_utf8(second) =~= encode_utf8(second));
    } else {
        let joined = first + second;
        assert(joined[0] == first[0]);
        assert(joined.drop_first() =~= first.drop_first() + second);
        lemma_encode_joined(first.drop_first(), second);
        assert(encode_utf8(joined) =~= encode_utf8(first) + encode_utf8(second));
    }
}

/// Where well-formed bytes begin with well-formed bytes, the beginning
/// ends between two characters.
proof fn lemma_prefix_ends_at_boundary(bytes: Seq<u8>, n: int)
    requires
        valid_utf8(bytes),
        0 <= n <= bytes.len(),
        valid_utf8(bytes.subrange(0, n)),
    ensures
        is_char_boundary(bytes, n),
    decreases bytes.len(),
{
    if n != 0 {
        let head = bytes.subrange(0, n);
        assert(head.len() == n);
        assert(valid_first_scalar(head));
        let k = length_of_first_scalar(head);
        assert(head[0] == bytes[0]);
        assert(k == length_of_first_scalar(bytes));
        assert(1 <= k <= n);
        let tail = pop_first_scalar(bytes);
        assert(valid_utf8(tail));
        assert(tail.subrange(0, n - k) =~= pop_first_scalar(head));
        lemma_prefix_ends_at_boundary(tail, n - k);
    }
}

/// The rest of `text` after `prefix`, exactly where `text` begins with it.
pub fn strip_prefix<'a>(text: &'a str, prefix: &str) -> (rest: Option<&'a str>)
    ensures
        rest is Some <==> prefix@.is_prefix_of(text@),
        rest is Some ==> rest->Some_0@ == text@.skip(prefix@.len() as int),
{
    let bytes = text.as_bytes();
    let head = prefix.as_bytes();
    let n = head.len();
    proof {
        encode_utf8_valid_utf8(text@);
        encode_utf8_valid_utf8(prefix@);
        encode_utf8_decode_utf8(text@);
        encode_utf8_decode_utf8(prefix@);
    }
    if !starts_with_bytes(bytes, head) {
        proof {
            if prefix@.is_prefix_of(text@) {
                let tail = text@.skip(prefix@.len() as int);
                assert(text@ =~= prefix@ + tail);
                lemma_encode_joined(prefix@, tail);
                assert((head@ + encode_utf8(tail)).subrange(0, head@.len() as int) =~= head@);
            }
        }
        return None;
    }
    proof {
        lemma_prefix_ends_at_boundary(bytes@, n as int);
    }
    let (_, rest) = text.split_at(n);
    proof {
        decode_utf8_split(bytes@, n as int);
        encode_utf8_decode_utf8(rest@);
        assert(text@ =~= prefix@ + rest@);
        assert(text@.skip(prefix@.len() as int) =~= rest@);
    }
    Some(rest)
}

/// Whether `needle` stands in `hay` at offset `at`.
pub open spec fn occurs_at(needle: Seq<u8>, hay: Seq<u8>, at: int) -> bool {
    0 <= at && at + needle.len() <= hay.len() && hay.subrange(at, at + needle.len()) == needle
}

/// Whether `needle` stands somewhere in `hay` as a contiguous run.
pub open spec fn occurs_in(needle: Seq<u8>, hay: Seq<u8>) -> bool {
    exists|at: int| occurs_at(needle, hay, at)
}

/// Whether the characters of `wanted` stand in `stored` at offset `at`.
pub open spec fn text_occurs_at(wanted: Seq<char>, stored: Seq<char>, at: int) -> bool {
    0 <= at && at + wanted.len() <= stored.len() && stored.subrange(at, at + wanted.len())
        == wanted
}

/// Whether the characters of `wanted` stand somewhere in `stored` as a
/// contiguous run.
pub open spec fn text_occurs_in(wanted: Seq<char>, stored: Seq<char>) -> bool {
    exists|at: int| text_occurs_at(wanted, stored, at)
}

/// Whether `needle` stands in `hay` at `at`, read byte by byte.
fn stands_at(needle: &[u8], hay: &[u8], at: usize) -> (found: bool)
    requires
        at + needle@.len() <= hay@.len(),
    ensures
        found == occurs_at(needle@, hay@, at as int),
{
    let hay_len = hay.len();
    let mut i: usize = 0;
    while i < needle.len()
        invariant
            hay_len == hay@.len(),
            at + needle@.len() <= hay@.len(),
            i <= needle@.len(),
            forall|k: int| 0 <= k < i ==> hay@[at + k] == needle@[k],
        decreases needle@.len() - i,
    {
        if hay[at + i] != needle[i] {
            proof {
                let window = hay@.subrange(at as int, at + needle@.len());
                assert(window[i as int] == hay@[at + i]);
            }
            return false;
        }
        i = i + 1;
    }
    proof {
        assert(hay@.subrange(at as int, at + needle@.len()) =~= needle@);
    }
    true
}

/// Whether `needle` stands somewhere in `hay`.
pub fn contains_bytes(hay: &[u8], needle: &[u8]) -> (found: bool)
    ensures
        found == occurs_in(needle@, hay@),
{
    if needle.len() > hay.len() {
        proof {
            assert forall|at: int| !occurs_at(needle@, hay@, at) by {}
        }
        return false;
    }
    let last = hay.len() - needle.len();
    let mut at: usize = 0;
    loop
        invariant
            last == hay@.len() - needle@.len(),
            at <= last,
            forall|k: int| 0 <= k < at ==> !occurs_at(needle@, hay@, k),
        decreases last - at,
    {
        if stands_at(needle, hay, at) {
            return true;
        }
        if at == last {
            proof {
                assert forall|k: int| !occurs_at(needle@, hay@, k) by {}
            }
            return false;
        }
        at = at + 1;
    }
}

/// Matching by characters is matching by bytes: the characters of one
/// text stand in another exactly where its UTF-8 bytes stand in the bytes
/// of the other.
pub proof fn lemma_text_occurs_by_bytes(stored: Seq<char>, wanted: Seq<char>)
    ensures
        text_occurs_in(wanted, stored) <==> occurs_in(encode_utf8(wanted), encode_utf8(stored)),
{
    let whole = encode_utf8(stored);
    let part = encode_utf8(wanted);
    encode_utf8_valid_utf8(stored);
    encode_utf8_valid_utf8(wanted);
    encode_utf8_decode_utf8(stored);
    encode_utf8_decode_utf8(wanted);
    if exists|at: int| text_occurs_at(wanted, stored, at) {
        let at = choose|at: int| text_occurs_at(wanted, stored, at);
        let before = stored.take(at);
        let after = stored.skip(at + wanted.len());
        assert(stored =~= before + (wanted + after));
        lemma_encode_joined(before, wanted + after);
        lemma_encode_joined(wanted, after);
        let k = encode_utf8(before).len() as int;
        assert(whole.subrange(k, k + part.len()) =~= part);
        assert(occurs_at(part, whole, k));
    }
    if occurs_in(part, whole) {
        let k = choose|k: int| occurs_at(part, whole, k);
        if wanted.len() == 0 {
            assert(stored.subrange(0, 0) =~= wanted);
            assert(text_occurs_at(wanted, stored, 0));
        } else {
            assert(part.len() > 0) by {
                encode_utf8_first_scalar(wanted);
            }
            is_char_boundary_start_end_of_seq(part);
            is_char_boundary_iff_not_is_continuation_byte(part, 0);
            assert(whole.subrange(k, k + part.len())[0] == whole[k]);
            is_char_boundary_iff_not_is_continuation_byte(whole, k);
            valid_utf8_split(whole, k);
            decode_utf8_split(whole, k);
            let tail = whole.subrange(k, whole.len() as int);
            assert(tail.subrange(0, part.len() as int) =~= part);
            lemma_prefix_ends_at_boundary(tail, part.len() as int);
            decode_utf8_split(tail, part.len() as int);
            let before = decode_utf8(whole.subrange(0, k));
            let after = decode_utf8(tail.subrange(part.len() as int, tail.len() as int));
            assert(stored =~= before + (wanted + after));
            let at = before.len() as int;
            assert(stored.subrange(at, at + wanted.len()) =~= wanted);
            assert(text_occurs_at(wanted, stored, at));
        }
    }
}

/// Whether the characters of `wanted` stand somewhere in `stored`.
pub fn contains_text(stored: &str, wanted: &str) -> (found: bool)
    ensures
        found == text_occurs_in(wanted@, stored@),
{
    proof {
        lemma_text_occurs_by_bytes(stored@, wanted@);
    }
    contains_bytes(stored.as_bytes(), wanted.as_bytes())
}

} // verus!
