//! Text helpers: comparing strings and decoding byte fields.

use vstd::prelude::*;

verus! {

/// Whether two strings hold the same characters.
pub fn same_text(a: &str, b: &str) -> (r: bool)
    ensures
        r == (a@ == b@),
{
    let x = a.as_bytes();
    let y = b.as_bytes();
    let eq = same_bytes(x, y);
    proof {
        vstd::utf8::encode_utf8_decode_utf8(a@);
        vstd::utf8::encode_utf8_decode_utf8(b@);
    }
    eq
}

/// Whether two byte slices are equal.
pub fn same_bytes(x: &[u8], y: &[u8]) -> (r: bool)
    ensures
        r == (x@ == y@),
{
    if x.len() != y.len() {
        return false;
    }
    let mut i: usize = 0;
    while i < x.len()
        invariant
            i <= x@.len(),
            x@.len() == y@.len(),
            forall|j: int| 0 <= j < i ==> x@[j] == y@[j],
        decreases x@.len() - i,
    {
        if x[i] != y[i] {
            return false;
        }
        i = i + 1;
    }
    assert(x@ =~= y@);
    true
}

/// What `String::from_utf8_lossy` makes of a byte sequence: the bytes read
/// as UTF-8, each invalid sequence replaced by U+FFFD.
pub uninterp spec fn utf8_lossy(bytes: Seq<u8>) -> Seq<char>;

/// Decodes bytes as UTF-8, replacing invalid sequences, by
/// `String::from_utf8_lossy`. The contract names the result and states what
/// the documentation promises of valid input: it is decoded unchanged. What
/// the function makes of invalid input is left unsaid.
#[verifier::external_body]
pub(crate) fn decode_utf8_lossy(bytes: &[u8]) -> (text: String)
    ensures
        text@ == utf8_lossy(bytes@),
        vstd::utf8::valid_utf8(bytes@) ==> text@ == vstd::utf8::decode_utf8(bytes@),
{
    String::from_utf8_lossy(bytes).into_owned()
}

/// The non-empty runs of non-zero bytes of `s`, in order: `s` split at every
/// zero byte, empty pieces left out.
pub open spec fn nonempty_fields(s: Seq<u8>) -> Seq<Seq<u8>>
    decreases s.len(),
{
    if s.len() == 0 {
        Seq::empty()
    } else {
        let prev = nonempty_fields(s.drop_last());
        if s.last() == 0 {
            prev
        } else if s.len() >= 2 && s[s.len() - 2] != 0 {
            prev.drop_last().push(prev.last().push(s.last()))
        } else {
            prev.push(seq![s.last()])
        }
    }
}

/// The contents of a sequence of byte vectors.
pub open spec fn byte_vec_views(v: Seq<Vec<u8>>) -> Seq<Seq<u8>> {
    v.map_values(|x: Vec<u8>| x@)
}

/// Splits `bytes` at every zero byte and keeps the non-empty pieces.
pub fn split_fields(bytes: &[u8]) -> (fields: Vec<Vec<u8>>)
    ensures
        byte_vec_views(fields@) == nonempty_fields(bytes@),
{
    let mut out: Vec<Vec<u8>> = Vec::new();
    let mut cur: Vec<u8> = Vec::new();
    let mut i: usize = 0;
    assert(bytes@.take(0) =~= Seq::<u8>::empty());
    while i < bytes.len()
        invariant
            i <= bytes@.len(),
            cur@.len() > 0 <==> (i > 0 && bytes@[i - 1] != 0),
            nonempty_fields(bytes@.take(i as int)) == if cur@.len() > 0 {
                byte_vec_views(out@).push(cur@)
            } else {
                byte_vec_views(out@)
            },
        decreases bytes@.len() - i,
    {
        let b = bytes[i];
        let ghost prefix = bytes@.take(i + 1);
        assert(prefix.drop_last() =~= bytes@.take(i as int));
        assert(prefix.last() == b);
        if b == 0 {
            if cur.len() > 0 {
                let ghost old_out = out@;
                out.push(cur);
                assert(byte_vec_views(out@) =~= byte_vec_views(old_out).push(cur@));
                cur = Vec::new();
            }
        } else {
            let ghost old_cur = cur@;
            cur.push(b);
            proof {
                if i > 0 {
                    assert(prefix[prefix.len() - 2] == bytes@[i - 1]);
                }
                assert(cur@ =~= old_cur.push(b));
                if old_cur.len() > 0 {
                    assert(byte_vec_views(out@).push(old_cur).drop_last() =~= byte_vec_views(out@));
                } else {
                    assert(seq![b] =~= cur@);
                }
            }
        }
        i = i + 1;
    }
    assert(bytes@.take(bytes@.len() as int) =~= bytes@);
    if cur.len() > 0 {
        let ghost old_out = out@;
        out.push(cur);
        assert(byte_vec_views(out@) =~= byte_vec_views(old_out).push(cur@));
    }
    out
}

} // verus!
