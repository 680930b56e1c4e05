//! A fetched object's payload: its media type and raw bytes, with the
//! conversions callers ask for, and a helper to combine paged deletion
//! results.

use vstd::prelude::*;
use vstd::utf8::decode_utf8;
use vstd::utf8::valid_utf8;

verus! {

/// The error the standard library reports for bytes that are not valid
/// UTF-8, surfaced unchanged.
#[verifier::external_type_specification]
#[verifier::external_body]
pub struct ExFromUtf8Error(std::string::FromUtf8Error);

/// The error type of the fallible slice-encoding entry point of the
/// encoding crate; the conversion offered here never produces it.
#[verifier::external_type_specification]
#[verifier::external_body]
pub struct ExEncodeSliceError(base64::EncodeSliceError);

/// What standard (padded) base64 encoding returns for a byte sequence; the
/// result is a function of the bytes alone.
pub uninterp spec fn base64_of(bytes: Seq<u8>) -> Seq<char>;

/// Relies on the standard (padded) base64 engine's `encode`: the encoding
/// of the given bytes, empty exactly for empty input.
#[verifier::external_body]
fn base64_encode(bytes: &[u8]) -> (r: String)
    ensures
        r@ == base64_of(bytes@),
        bytes@.len() == 0 ==> r@.len() == 0,
{
    base64::Engine::encode(&base64::engine::general_purpose::STANDARD, bytes)
}

/// Relies on `String::from_utf8`: succeeds exactly on valid UTF-8 input,
/// returning its decoding.
#[verifier::external_body]
fn vec_into_utf8(buf: Vec<u8>) -> (r: Result<String, std::string::FromUtf8Error>)
    ensures
        r is Ok <==> valid_utf8(buf@),
        r matches Ok(s) ==> s@ == decode_utf8(buf@),
{
    String::from_utf8(buf)
}

/// An object fetched from the object store: its media type and its bytes.
pub struct S3Object {
    content_type: String,
    buf: Vec<u8>,
}

impl S3Object {
    /// The object's media type.
    pub closed spec fn spec_content_type(&self) -> Seq<char> {
        self.content_type@
    }

    /// The object's raw bytes.
    pub closed spec fn spec_buf(&self) -> Seq<u8> {
        self.buf@
    }

    /// Package a fetched object's media type and raw bytes.
    pub fn new(content_type: String, buf: Vec<u8>) -> (r: S3Object)
        ensures
            r.spec_content_type() == content_type@,
            r.spec_buf() == buf@,
    {
        S3Object { content_type, buf }
    }

    /// The media type the object was stored with.
    pub fn content_type(&self) -> (r: &str)
        ensures
            r@ == self.spec_content_type(),
    {
        self.content_type.as_str()
    }

    /// The media type and the raw bytes.
    pub fn into_bytes(self) -> (r: (String, Vec<u8>))
        ensures
            r.0@ == self.spec_content_type(),
            r.1@ == self.spec_buf(),
    {
        (self.content_type, self.buf)
    }

    /// The media type and the bytes decoded as text; fails exactly when the
    /// bytes are not valid UTF-8.
    pub fn into_string(self) -> (r: Result<(String, String), std::string::FromUtf8Error>)
        ensures
            r is Ok <==> valid_utf8(self.spec_buf()),
            r matches Ok(p) ==> p.0@ == self.spec_content_type() && p.1@ == decode_utf8(
                self.spec_buf(),
            ),
    {
        match vec_into_utf8(self.buf) {
            Ok(s) => Ok((self.content_type, s)),
            Err(e) => Err(e),
        }
    }

    /// The media type and the base64 encoding of the bytes; always
    /// succeeds.
    pub fn into_base64_string(self) -> (r: Result<(String, String), base64::EncodeSliceError>)
        ensures
            r is Ok,
            r matches Ok(p) ==> p.0@ == self.spec_content_type() && p.1@ == base64_of(
                self.spec_buf(),
            ),
    {
        let encoded = base64_encode(self.buf.as_slice());
        Ok((self.content_type, encoded))
    }
}

/// What percent-encoding returns for a byte sequence; the result is a
/// function of the bytes alone.
pub uninterp spec fn url_encoded(bytes: Seq<u8>) -> Seq<char>;

/// Relies on `urlencoding::encode_binary`: the percent-encoding of the
/// bytes, empty exactly for empty input.
#[verifier::external_body]
fn url_encode(bytes: &[u8]) -> (r: String)
    ensures
        r@ == url_encoded(bytes@),
        bytes@.len() == 0 ==> r@.len() == 0,
{
    urlencoding::encode_binary(bytes).into_owned()
}

/// The copy-source location for copying an object between buckets: the
/// percent-encoded source bucket and source key, joined by a slash.
pub fn copy_source(source_bucket: &[u8], source_key: &[u8]) -> (r: String)
    ensures
        r@ == url_encoded(source_bucket@) + seq!['/'] + url_encoded(source_key@),
{
    let mut joined = url_encode(source_bucket);
    joined.push('/');
    let encoded_key = url_encode(source_key);
    joined.append(encoded_key.as_str());
    proof {
        assert(url_encoded(source_bucket@).push('/') + url_encoded(source_key@)
            =~= url_encoded(source_bucket@) + seq!['/'] + url_encoded(source_key@));
    }
    joined
}

/// The key with a listing prefix removed: present exactly when the key
/// starts with the prefix, and then the remainder after it.
pub fn strip_key_prefix(key: &str, prefix: &str) -> (r: Option<String>)
    ensures
        r is Some <==> prefix@.is_prefix_of(key@),
        r matches Some(t) ==> t@ == key@.subrange(prefix@.len() as int, key@.len() as int),
{
    let n = key.unicode_len();
    let p = prefix.unicode_len();
    if p > n {
        return None;
    }
    let mut i: usize = 0;
    while i < p
        invariant
            n == key@.len(),
            p == prefix@.len(),
            i <= p <= n,
            forall|j: int| 0 <= j < i ==> key@[j] == prefix@[j],
        decreases p - i,
    {
        if key.get_char(i) != prefix.get_char(i) {
            proof {
                assert(key@.subrange(0, p as int)[i as int] != prefix@[i as int]);
            }
            return None;
        }
        i += 1;
    }
    proof {
        assert(key@.subrange(0, p as int) =~= prefix@);
    }
    let rest = key.substring_char(p, n);
    Some(rest.to_owned())
}

/// The destination key for one listed object when a whole prefix is
/// copied: the part of the key after the source prefix, re-rooted under
/// the destination prefix; absent exactly when the key does not start
/// with the source prefix.
pub fn copy_destination_key(key: &str, source_prefix: &str, dst_prefix: &str) -> (r: Option<
    String,
>)
    ensures
        r is Some <==> source_prefix@.is_prefix_of(key@),
        r matches Some(t) ==> t@ == dst_prefix@ + seq!['/'] + key@.subrange(
            source_prefix@.len() as int,
            key@.len() as int,
        ),
{
    match strip_key_prefix(key, source_prefix) {
        None => None,
        Some(rest) => {
            let mut dst = dst_prefix.to_owned();
            dst.push('/');
            dst.append(rest.as_str());
            proof {
                assert(dst_prefix@.push('/') + rest@ =~= dst_prefix@ + seq!['/'] + rest@);
            }
            Some(dst)
        },
    }
}

/// Fold the second batch of a paged result into the first: with nothing on
/// either side nothing changes; one present batch ends up in `first`; two
/// present batches are concatenated into `first`, draining `second`.
pub fn merge<T>(first: &mut Option<Vec<T>>, second: &mut Option<Vec<T>>)
    ensures
        (*old(first)) is None && (*old(second)) is None ==> (*final(first)) is None
            && (*final(second)) is None,
        (*old(first)) is None && (*old(second)) is Some ==> *final(first) == *old(second)
            && (*final(second)) is None,
        (*old(first)) is Some && (*old(second)) is None ==> *final(first) == *old(first)
            && (*final(second)) is None,
        (*old(first)) is Some && (*old(second)) is Some ==> (*final(first)) is Some
            && (*final(first))->0@ == (*old(first))->0@ + (*old(second))->0@
            && (*final(second)) is Some && (*final(second))->0@.len() == 0,
{
    if first.is_none() {
        if second.is_some() {
            core::mem::swap(first, second);
        }
    } else {
        if second.is_some() {
            let l = first.as_mut().unwrap();
            let r = second.as_mut().unwrap();
            l.append(r);
        }
    }
}

} // verus!
