//! The wire format of requests and responses.
//!
//! A message is a 32-bit little-endian variant tag followed by its body. A
//! byte payload is a 64-bit little-endian length followed by that many bytes;
//! a file size is a 64-bit little-endian integer. Bytes after a complete
//! message are not looked at.

use vstd::prelude::*;
use vstd::bytes::{
    lemma_auto_spec_u32_to_from_le_bytes, lemma_auto_spec_u64_to_from_le_bytes,
    spec_u32_from_le_bytes, spec_u32_to_le_bytes, spec_u64_from_le_bytes, spec_u64_to_le_bytes,
    u32_from_le_bytes, u32_to_le_bytes, u64_from_le_bytes, u64_to_le_bytes,
};
use vstd::slice::{slice_subrange, slice_to_vec};
use crate::messages::{Request, RequestView, Response, ResponseRef, ResponseView};

verus! {

/// Tag of the first variant of either message kind.
pub const TAG_FIRST: u32 = 0;

/// Tag of the second variant of either message kind.
pub const TAG_SECOND: u32 = 1;

/// Why a received payload could not be read.
#[derive(Debug, Clone, Copy, PartialEq, Eq, Structural)]
pub enum CodecError {
    /// The bytes are cut short, carry a tag of no variant, or a length that
    /// runs past their end.
    Malformed,
}

/// A length-prefixed payload on the wire.
pub open spec fn blob_bytes(data: Seq<u8>) -> Seq<u8> {
    spec_u64_to_le_bytes(data.len() as u64) + data
}

/// The encoding of a request.
pub open spec fn request_bytes(r: RequestView) -> Seq<u8> {
    match r {
        RequestView::GetFileSize { path } => spec_u32_to_le_bytes(TAG_FIRST) + blob_bytes(path),
        RequestView::GetFileContent { path } => spec_u32_to_le_bytes(TAG_SECOND) + blob_bytes(
            path,
        ),
    }
}

/// The encoding of a response.
pub open spec fn response_bytes(r: ResponseView) -> Seq<u8> {
    match r {
        ResponseView::FileSize(size) => spec_u32_to_le_bytes(TAG_FIRST) + spec_u64_to_le_bytes(
            size,
        ),
        ResponseView::FileContent(data) => spec_u32_to_le_bytes(TAG_SECOND) + blob_bytes(data),
    }
}

/// The tag at the head of `bytes`, if four bytes are there.
pub open spec fn parse_tag(bytes: Seq<u8>) -> Option<u32> {
    if bytes.len() >= 4 {
        Some(spec_u32_from_le_bytes(bytes.subrange(0, 4)))
    } else {
        None
    }
}

/// The 64-bit integer that follows the tag, if eight bytes are there.
pub open spec fn parse_word(bytes: Seq<u8>) -> Option<u64> {
    if bytes.len() >= 12 {
        Some(spec_u64_from_le_bytes(bytes.subrange(4, 12)))
    } else {
        None
    }
}

/// The length-prefixed payload that follows the tag, if all of it is there.
pub open spec fn parse_blob(bytes: Seq<u8>) -> Option<Seq<u8>> {
    match parse_word(bytes) {
        Some(len) => if 12 + len <= bytes.len() {
            Some(bytes.subrange(12, 12 + len))
        } else {
            None
        },
        None => None,
    }
}

/// The request that `bytes` begin with, if they begin with one.
pub open spec fn parse_request(bytes: Seq<u8>) -> Option<RequestView> {
    match (parse_tag(bytes), parse_blob(bytes)) {
        (Some(tag), Some(path)) => if tag == TAG_FIRST {
            Some(RequestView::GetFileSize { path })
        } else if tag == TAG_SECOND {
            Some(RequestView::GetFileContent { path })
        } else {
            None
        },
        _ => None,
    }
}

/// The response that `bytes` begin with, if they begin with one.
pub open spec fn parse_response(bytes: Seq<u8>) -> Option<ResponseView> {
    match parse_tag(bytes) {
        Some(tag) => if tag == TAG_FIRST {
            match parse_word(bytes) {
                Some(size) => Some(ResponseView::FileSize(size)),
                None => None,
            }
        } else if tag == TAG_SECOND {
            match parse_blob(bytes) {
                Some(data) => Some(ResponseView::FileContent(data)),
                None => None,
            }
        } else {
            None
        },
        None => None,
    }
}

/// What the request decoder answers on `bytes`: the request they begin
/// with, or `Malformed` where they begin with none.
pub open spec fn is_request_decoding(bytes: Seq<u8>, r: Result<Request, CodecError>) -> bool {
    match r {
        Ok(request) => parse_request(bytes) == Some(request@),
        Err(e) => parse_request(bytes) is None && e == CodecError::Malformed,
    }
}

/// What the owning response decoder answers on `bytes`.
pub open spec fn is_response_decoding(bytes: Seq<u8>, r: Result<Response, CodecError>) -> bool {
    match r {
        Ok(response) => parse_response(bytes) == Some(response@),
        Err(e) => parse_response(bytes) is None && e == CodecError::Malformed,
    }
}

/// What the borrowing response decoder answers on `bytes`.
pub open spec fn is_response_ref_decoding<'a>(
    bytes: Seq<u8>,
    r: Result<ResponseRef<'a>, CodecError>,
) -> bool {
    match r {
        Ok(response) => parse_response(bytes) == Some(response@),
        Err(e) => parse_response(bytes) is None && e == CodecError::Malformed,
    }
}

fn put_blob(out: &mut Vec<u8>, data: &[u8])
    ensures
        final(out)@ == old(out)@ + blob_bytes(data@),
{
    let len: u64 = data.len() as u64;
    let prefix = u64_to_le_bytes(len);
    out.extend_from_slice(prefix.as_slice());
    out.extend_from_slice(data);
    assert(out@ =~= old(out)@ + blob_bytes(data@));
}

/// Encodes a request.
pub fn encode_request(request: &Request) -> (out: Vec<u8>)
    ensures
        out@ == request_bytes(request@),
        parse_request(out@) == Some(request@),
{
    let mut out = match request {
        Request::GetFileSize { .. } => u32_to_le_bytes(TAG_FIRST),
        Request::GetFileContent { .. } => u32_to_le_bytes(TAG_SECOND),
    };
    put_blob(&mut out, request.path());
    proof {
        lemma_request_fits(*request);
        lemma_request_round_trip(request@, Seq::empty());
        assert(request_bytes(request@) + Seq::<u8>::empty() =~= request_bytes(request@));
    }
    out
}

/// Encodes a response.
pub fn encode_response(response: &Response) -> (out: Vec<u8>)
    ensures
        out@ == response_bytes(response@),
        parse_response(out@) == Some(response@),
{
    let out = match response {
        Response::FileSize(size) => {
            let mut out = u32_to_le_bytes(TAG_FIRST);
            let word = u64_to_le_bytes(*size);
            out.extend_from_slice(word.as_slice());
            assert(out@ =~= response_bytes(response@));
            out
        },
        Response::FileContent(data) => {
            let mut out = u32_to_le_bytes(TAG_SECOND);
            put_blob(&mut out, data.as_slice());
            out
        },
    };
    proof {
        lemma_response_fits(*response);
        lemma_response_round_trip(response@, Seq::empty());
        assert(response_bytes(response@) + Seq::<u8>::empty() =~= response_bytes(response@));
    }
    out
}

fn read_tag(bytes: &[u8]) -> (tag: Option<u32>)
    ensures
        tag == parse_tag(bytes@),
{
    if bytes.len() < 4 {
        None
    } else {
        Some(u32_from_le_bytes(slice_subrange(bytes, 0, 4)))
    }
}

fn read_word(bytes: &[u8]) -> (word: Option<u64>)
    ensures
        word == parse_word(bytes@),
{
    if bytes.len() < 12 {
        None
    } else {
        Some(u64_from_le_bytes(slice_subrange(bytes, 4, 12)))
    }
}

fn read_blob<'a>(bytes: &'a [u8]) -> (blob: Option<&'a [u8]>)
    ensures
        match blob {
            Some(data) => parse_blob(bytes@) == Some(data@),
            None => parse_blob(bytes@) is None,
        },
{
    match read_word(bytes) {
        None => None,
        Some(len) => {
            let rest: usize = bytes.len() - 12;
            if len > rest as u64 {
                None
            } else {
                let end: usize = 12 + len as usize;
                Some(slice_subrange(bytes, 12, end))
            }
        },
    }
}

/// Decodes the request at the head of `bytes`, or reports that there is none.
pub fn decode_request(bytes: &[u8]) -> (r: Result<Request, CodecError>)
    ensures
        is_request_decoding(bytes@, r),
        r is Ok <==> parse_request(bytes@) is Some,
{
    let tag = read_tag(bytes);
    let blob = read_blob(bytes);
    match (tag, blob) {
        (Some(tag), Some(path)) => {
            if tag == TAG_FIRST {
                Ok(Request::GetFileSize { path: slice_to_vec(path) })
            } else if tag == TAG_SECOND {
                Ok(Request::GetFileContent { path: slice_to_vec(path) })
            } else {
                Err(CodecError::Malformed)
            }
        },
        _ => Err(CodecError::Malformed),
    }
}

/// Decodes the response at the head of `bytes` in place: a byte payload is
/// borrowed from `bytes`, not copied.
pub fn decode_response_ref<'a>(bytes: &'a [u8]) -> (r: Result<ResponseRef<'a>, CodecError>)
    ensures
        is_response_ref_decoding(bytes@, r),
        r is Ok <==> parse_response(bytes@) is Some,
{
    match read_tag(bytes) {
        None => Err(CodecError::Malformed),
        Some(tag) => {
            if tag == TAG_FIRST {
                match read_word(bytes) {
                    Some(size) => Ok(ResponseRef::FileSize(size)),
                    None => Err(CodecError::Malformed),
                }
            } else if tag == TAG_SECOND {
                match read_blob(bytes) {
                    Some(data) => Ok(ResponseRef::FileContent(data)),
                    None => Err(CodecError::Malformed),
                }
            } else {
                Err(CodecError::Malformed)
            }
        },
    }
}

/// Decodes the response at the head of `bytes` into an owning value.
pub fn decode_response(bytes: &[u8]) -> (r: Result<Response, CodecError>)
    ensures
        is_response_decoding(bytes@, r),
        r is Ok <==> parse_response(bytes@) is Some,
{
    match decode_response_ref(bytes) {
        Ok(response) => Ok(response.to_owned()),
        Err(e) => Err(e),
    }
}

proof fn lemma_blob_after_tag(tag: u32, data: Seq<u8>, tail: Seq<u8>)
    requires
        data.len() <= u64::MAX,
    ensures
        parse_tag(spec_u32_to_le_bytes(tag) + blob_bytes(data) + tail) == Some(tag),
        parse_blob(spec_u32_to_le_bytes(tag) + blob_bytes(data) + tail) == Some(data),
{
    lemma_auto_spec_u32_to_from_le_bytes();
    lemma_auto_spec_u64_to_from_le_bytes();
    let head = spec_u32_to_le_bytes(tag);
    let len = spec_u64_to_le_bytes(data.len() as u64);
    let all = head + blob_bytes(data) + tail;
    assert(all.subrange(0, 4) =~= head);
    assert(all.subrange(4, 12) =~= len);
    assert(all.subrange(12, 12 + data.len() as int) =~= data);
}

proof fn lemma_word_after_tag(tag: u32, word: u64, tail: Seq<u8>)
    ensures
        parse_tag(spec_u32_to_le_bytes(tag) + spec_u64_to_le_bytes(word) + tail) == Some(tag),
        parse_word(spec_u32_to_le_bytes(tag) + spec_u64_to_le_bytes(word) + tail) == Some(word),
{
    lemma_auto_spec_u32_to_from_le_bytes();
    lemma_auto_spec_u64_to_from_le_bytes();
    let head = spec_u32_to_le_bytes(tag);
    let body = spec_u64_to_le_bytes(word);
    let all = head + body + tail;
    assert(all.subrange(0, 4) =~= head);
    assert(all.subrange(4, 12) =~= body);
}

/// Decoding undoes encoding, for every request whose path fits the length
/// prefix, whatever bytes follow the encoding.
pub proof fn lemma_request_round_trip(r: RequestView, tail: Seq<u8>)
    requires
        r.fits(),
    ensures
        parse_request(request_bytes(r) + tail) == Some(r),
{
    match r {
        RequestView::GetFileSize { path } => lemma_blob_after_tag(TAG_FIRST, path, tail),
        RequestView::GetFileContent { path } => lemma_blob_after_tag(TAG_SECOND, path, tail),
    }
}

/// Decoding undoes encoding, for every response whose payload fits the length
/// prefix, whatever bytes follow the encoding. The borrowing and the owning
/// decoder both answer with this parse, so either reads what the owning
/// encoder wrote: same variant, same size, the same payload byte for byte.
pub proof fn lemma_response_round_trip(r: ResponseView, tail: Seq<u8>)
    requires
        r.fits(),
    ensures
        parse_response(response_bytes(r) + tail) == Some(r),
{
    match r {
        ResponseView::FileSize(size) => lemma_word_after_tag(TAG_FIRST, size, tail),
        ResponseView::FileContent(data) => lemma_blob_after_tag(TAG_SECOND, data, tail),
    }
}

/// Decoding undoes encoding for every request that can be built: whatever
/// the decoder answers on the encoding of a request is that request, kind
/// and path.
pub proof fn lemma_every_request_round_trips(request: Request, decoded: Result<Request, CodecError>)
    requires
        is_request_decoding(request_bytes(request@), decoded),
    ensures
        parse_request(request_bytes(request@)) == Some(request@),
        decoded is Ok,
        decoded.unwrap()@ == request@,
{
    lemma_request_fits(request);
    lemma_request_round_trip(request@, Seq::empty());
    assert(request_bytes(request@) + Seq::<u8>::empty() =~= request_bytes(request@));
}

/// Decoding undoes encoding for every response that can be built: whatever
/// the owning decoder answers on the encoding of a response is that
/// response, variant and payload.
pub proof fn lemma_every_response_round_trips(
    response: Response,
    decoded: Result<Response, CodecError>,
)
    requires
        is_response_decoding(response_bytes(response@), decoded),
    ensures
        parse_response(response_bytes(response@)) == Some(response@),
        decoded is Ok,
        decoded.unwrap()@ == response@,
{
    lemma_response_fits(response);
    lemma_response_round_trip(response@, Seq::empty());
    assert(response_bytes(response@) + Seq::<u8>::empty() =~= response_bytes(response@));
}

/// The borrowing decoder reads what the owning encoder wrote: whatever it
/// answers on the encoding of a response has the same variant and, byte for
/// byte, the same payload.
pub proof fn lemma_borrowed_reads_owned<'a>(
    response: Response,
    decoded: Result<ResponseRef<'a>, CodecError>,
)
    requires
        is_response_ref_decoding(response_bytes(response@), decoded),
    ensures
        decoded is Ok,
        decoded.unwrap()@ == response@,
{
    lemma_response_fits(response);
    lemma_response_round_trip(response@, Seq::empty());
    assert(response_bytes(response@) + Seq::<u8>::empty() =~= response_bytes(response@));
}

/// Every owned request fits the length prefix.
pub proof fn lemma_request_fits(request: Request)
    ensures
        request@.fits(),
{
    match request {
        Request::GetFileSize { path } => { assert(path@.len() == path.len()); },
        Request::GetFileContent { path } => { assert(path@.len() == path.len()); },
    }
}

/// Every response, owned or borrowed, fits the length prefix.
pub proof fn lemma_response_fits(response: Response)
    ensures
        response@.fits(),
{
    match response {
        Response::FileSize(_) => {},
        Response::FileContent(data) => { assert(data@.len() == data.len()); },
    }
}

/// A message is decoded only from bytes that begin with its encoding: what a
/// decoder returns is the one request whose encoding heads the input.
pub proof fn lemma_request_parse_is_prefix(bytes: Seq<u8>, r: RequestView)
    requires
        parse_request(bytes) == Some(r),
    ensures
        r.fits(),
        request_bytes(r).len() <= bytes.len(),
        bytes.subrange(0, request_bytes(r).len() as int) == request_bytes(r),
{
    lemma_auto_spec_u32_to_from_le_bytes();
    lemma_auto_spec_u64_to_from_le_bytes();
    let n = parse_word(bytes).unwrap();
    let path = r.path();
    assert(path.len() == n);
    assert(spec_u32_to_le_bytes(spec_u32_from_le_bytes(bytes.subrange(0, 4))) == bytes.subrange(
        0,
        4,
    ));
    assert(spec_u64_to_le_bytes(spec_u64_from_le_bytes(bytes.subrange(4, 12))) == bytes.subrange(
        4,
        12,
    ));
    assert(bytes.subrange(0, request_bytes(r).len() as int) =~= request_bytes(r));
}

/// A response is decoded only from bytes that begin with its encoding.
pub proof fn lemma_response_parse_is_prefix(bytes: Seq<u8>, r: ResponseView)
    requires
        parse_response(bytes) == Some(r),
    ensures
        r.fits(),
        response_bytes(r).len() <= bytes.len(),
        bytes.subrange(0, response_bytes(r).len() as int) == response_bytes(r),
{
    lemma_auto_spec_u32_to_from_le_bytes();
    lemma_auto_spec_u64_to_from_le_bytes();
    assert(spec_u32_to_le_bytes(spec_u32_from_le_bytes(bytes.subrange(0, 4))) == bytes.subrange(
        0,
        4,
    ));
    assert(spec_u64_to_le_bytes(spec_u64_from_le_bytes(bytes.subrange(4, 12))) == bytes.subrange(
        4,
        12,
    ));
    assert(bytes.subrange(0, response_bytes(r).len() as int) =~= response_bytes(r));
}

} // verus!
