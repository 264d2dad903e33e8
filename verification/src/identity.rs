//! Content-addressed identities for file contents.
//!
//! A `ContentIdentity` is the lowercase hexadecimal SHA-1 digest of a file's
//! bytes wrapped in a length-prefixed `blob` frame. The framing must match the
//! object-identity scheme of the version-control system byte for byte, so that
//! an identity computed here can be compared directly against one reported by
//! a remote party.

use vstd::prelude::*;

verus! {

/// The 20-byte SHA-1 digest of a byte sequence, named but not defined here:
/// the digest is computed by an outside implementation and is a function of
/// the input bytes alone.
pub uninterp spec fn sha1_digest(data: Seq<u8>) -> Seq<u8>;

/// Relies on `sha1::Sha1` (the RustCrypto `Digest::digest` one-shot): the
/// digest depends on the input bytes alone, and is always 20 bytes long.
#[verifier::external_body]
fn sha1_of(data: &[u8]) -> (r: Vec<u8>)
    ensures
        r@ == sha1_digest(data@),
        r@.len() == 20,
{
    <sha1::Sha1 as sha1::Digest>::digest(data).to_vec()
}

/// Relies on std's `String::push`: appends exactly the one character.
#[verifier::external_body]
fn string_push(s: &mut String, c: char)
    ensures
        final(s)@ == old(s)@.push(c),
{
    s.push(c);
}

/// The decimal ASCII digits of `n`, most significant first, no sign and no
/// leading zeros (a lone `0` for zero).
pub open spec fn dec_digits(n: nat) -> Seq<u8>
    decreases n,
{
    if n < 10 {
        seq![(48 + n) as u8]
    } else {
        dec_digits(n / 10).push((48 + n % 10) as u8)
    }
}

/// A number no larger than another is rendered with no more digits.
proof fn lemma_dec_digits_len_monotone(m: nat, n: nat)
    requires
        m <= n,
    ensures
        dec_digits(m).len() <= dec_digits(n).len(),
    decreases n,
{
    if n >= 10 && m >= 10 {
        lemma_dec_digits_len_monotone(m / 10, n / 10);
    }
}

/// Appends the decimal ASCII digits of `n`.
fn push_decimal(out: &mut Vec<u8>, n: usize)
    ensures
        final(out)@ == old(out)@ + dec_digits(n as nat),
    decreases n,
{
    if n < 10 {
        out.push(48 + n as u8);
        assert(final(out)@ =~= old(out)@ + dec_digits(n as nat));
    } else {
        push_decimal(out, n / 10);
        out.push(48 + (n % 10) as u8);
        assert(final(out)@ =~= old(out)@ + dec_digits(n as nat));
    }
}

/// The framed digest input: the literal tag `blob `, the decimal byte length,
/// one null separator, then the raw content. Any deviation from this exact
/// framing would produce identities that no longer match the remote party's.
pub open spec fn blob_frame(content: Seq<u8>) -> Seq<u8> {
    seq![98u8, 108u8, 111u8, 98u8, 32u8] + dec_digits(content.len()) + seq![0u8] + content
}

/// Builds the framed digest input for `content`.
fn frame_blob(content: &Vec<u8>) -> (r: Vec<u8>)
    ensures
        r@ == blob_frame(content@),
{
    let mut out: Vec<u8> = Vec::new();
    out.push(98);
    out.push(108);
    out.push(111);
    out.push(98);
    out.push(32);
    push_decimal(&mut out, content.len());
    out.push(0);
    out.extend_from_slice(content.as_slice());
    assert(out@ =~= blob_frame(content@));
    out
}

/// The sixteen lowercase hexadecimal digit characters.
pub open spec fn hex_digit(v: u8) -> char
    recommends
        v < 16,
{
    if v == 0 { '0' }
    else if v == 1 { '1' }
    else if v == 2 { '2' }
    else if v == 3 { '3' }
    else if v == 4 { '4' }
    else if v == 5 { '5' }
    else if v == 6 { '6' }
    else if v == 7 { '7' }
    else if v == 8 { '8' }
    else if v == 9 { '9' }
    else if v == 10 { 'a' }
    else if v == 11 { 'b' }
    else if v == 12 { 'c' }
    else if v == 13 { 'd' }
    else if v == 14 { 'e' }
    else { 'f' }
}

/// Lowercase hexadecimal rendering of a byte sequence, two digits per byte.
pub open spec fn hex_of(data: Seq<u8>) -> Seq<char>
    decreases data.len(),
{
    if data.len() == 0 {
        Seq::empty()
    } else {
        hex_of(data.drop_last()) + seq![
            hex_digit(data.last() >> 4u8),
            hex_digit(data.last() & 0x0fu8),
        ]
    }
}

/// Hexadecimal rendering is two characters per byte.
pub proof fn lemma_hex_of_len(data: Seq<u8>)
    ensures
        hex_of(data).len() == 2 * data.len(),
    decreases data.len(),
{
    if data.len() > 0 {
        lemma_hex_of_len(data.drop_last());
    }
}

/// One exec hex digit.
fn hex_digit_char(v: u8) -> (c: char)
    requires
        v < 16,
    ensures
        c == hex_digit(v),
{
    if v == 0 { '0' }
    else if v == 1 { '1' }
    else if v == 2 { '2' }
    else if v == 3 { '3' }
    else if v == 4 { '4' }
    else if v == 5 { '5' }
    else if v == 6 { '6' }
    else if v == 7 { '7' }
    else if v == 8 { '8' }
    else if v == 9 { '9' }
    else if v == 10 { 'a' }
    else if v == 11 { 'b' }
    else if v == 12 { 'c' }
    else if v == 13 { 'd' }
    else if v == 14 { 'e' }
    else { 'f' }
}

/// Renders a byte sequence as lowercase hexadecimal.
fn hex_string(data: &Vec<u8>) -> (r: String)
    ensures
        r@ == hex_of(data@),
{
    let mut out = String::new();
    let len = data.len();
    for i in 0..len
        invariant
            len == data@.len(),
            out@ == hex_of(data@.take(i as int)),
    {
        let b = data[i];
        assert((b >> 4u8) < 16 && (b & 0x0fu8) < 16) by (bit_vector);
        string_push(&mut out, hex_digit_char(b >> 4u8));
        string_push(&mut out, hex_digit_char(b & 0x0fu8));
        assert(data@.take(i + 1).drop_last() =~= data@.take(i as int));
        assert(out@ =~= hex_of(data@.take(i + 1)));
    }
    assert(data@.take(len as int) =~= data@);
    out
}

/// The content identity of a byte content: the lowercase hexadecimal SHA-1
/// digest of its `blob` frame.
pub open spec fn identity_of(content: Seq<u8>) -> Seq<char> {
    hex_of(sha1_digest(blob_frame(content)))
}

/// Computes the content identity of `content`; always forty hexadecimal
/// characters.
pub fn content_identity(content: &Vec<u8>) -> (r: String)
    ensures
        r@ == identity_of(content@),
        r@.len() == 40,
{
    let framed = frame_blob(content);
    let digest = sha1_of(framed.as_slice());
    proof {
        lemma_hex_of_len(digest@);
    }
    hex_string(&digest)
}

/// Law: a content identity is a function of the byte content alone — hashing
/// the same bytes twice gives the same identity.
pub proof fn lemma_identity_stable(a: Seq<u8>, b: Seq<u8>)
    requires
        a == b,
    ensures
        identity_of(a) == identity_of(b),
{
}

/// Law: the blob framing is injective — different contents are always handed
/// to the digest as different byte sequences. That a change of content also
/// changes the digest itself is collision-freedom of SHA-1, which is assumed
/// of the outside implementation, not proved here.
pub proof fn lemma_blob_frame_injective(a: Seq<u8>, b: Seq<u8>)
    requires
        blob_frame(a) == blob_frame(b),
    ensures
        a == b,
{
    let la = a.len();
    let lb = b.len();
    assert(blob_frame(a).len() == 6 + dec_digits(la).len() + la);
    assert(blob_frame(b).len() == 6 + dec_digits(lb).len() + lb);
    if la < lb {
        lemma_dec_digits_len_monotone(la, lb);
        assert(blob_frame(a).len() < blob_frame(b).len());
    }
    if lb < la {
        lemma_dec_digits_len_monotone(lb, la);
        assert(blob_frame(b).len() < blob_frame(a).len());
    }
    assert(la == lb);
    lemma_dec_digits_len_monotone(la, lb);
    let head: int = 6 + dec_digits(la).len() as int;
    assert(blob_frame(a).skip(head) =~= a);
    assert(blob_frame(b).skip(head) =~= b);
    assert(a =~= b);
}

} // verus!
