//! The media stream engine: parsing the `Range` header, turning it
//! into a byte window checked against the file length, planning the
//! chunked read, and building the response envelope.

use vstd::prelude::*;

use crate::authentication::StoreError;
use crate::response::{ApiError, STATUS_OK, STATUS_PARTIAL_CONTENT};
use crate::text::{
    dec_numeral, dec_value, is_u64_numeral, parse_u64, spec_split2, split_exact2, str_eq,
    u64_to_string,
};
use crate::video::{Video, VideoToken};

verus! {

/// Size of the buffers the stream hands out: one megabyte.
pub const CHUNK_SIZE: u64 = 1048576;

/// A half-open byte window `[offset, end)` of a file.
#[derive(Clone, Copy, Debug)]
pub struct ByteWindow {
    pub offset: u64,
    pub end: u64,
}

impl ByteWindow {
    /// Number of bytes the window covers.
    pub fn size(&self) -> (n: u64)
        requires
            self.offset <= self.end,
        ensures
            n == self.end - self.offset,
    {
        self.end - self.offset
    }
}

/// A parsed `Range` header: either bound may be absent.
#[derive(Debug)]
pub struct Range {
    pub start: Option<u64>,
    pub end: Option<u64>,
}

/// The three distinguishable ways a range request can be wrong: the
/// header shape, the start bound, or the end bound.
#[derive(Debug)]
pub enum RangeError {
    Format,
    Start,
    End,
}

/// What parsing a present `Range` header value decides. The unit must
/// be `bytes`, there must be exactly one `=` and one `-`, and each
/// bound present must be a decimal number that fits. A suffix form
/// (empty start with an end) is a format error, not a last-N-bytes
/// request.
pub open spec fn spec_parse_range(h: Seq<char>) -> Result<Range, RangeError> {
    match spec_split2(h, '=') {
        None => Err(RangeError::Format),
        Some(p) => if p.0 != "bytes"@ {
            Err(RangeError::Format)
        } else {
            match spec_split2(p.1, '-') {
                None => Err(RangeError::Format),
                Some(q) => if q.0.len() == 0 && q.1.len() > 0 {
                    Err(RangeError::Format)
                } else if q.0.len() > 0 && !is_u64_numeral(q.0) {
                    Err(RangeError::Start)
                } else if q.1.len() > 0 && !is_u64_numeral(q.1) {
                    Err(RangeError::End)
                } else {
                    Ok(
                        Range {
                            start: if q.0.len() == 0 {
                                None
                            } else {
                                Some(dec_value(q.0) as u64)
                            },
                            end: if q.1.len() == 0 {
                                None
                            } else {
                                Some(dec_value(q.1) as u64)
                            },
                        },
                    )
                },
            }
        },
    }
}

/// Parses a `Range` header value.
pub fn parse_range(h: &str) -> (r: Result<Range, RangeError>)
    ensures
        r == spec_parse_range(h@),
{
    let eq_parts = match split_exact2(h, '=') {
        None => {
            return Err(RangeError::Format);
        },
        Some(p) => p,
    };
    if !str_eq(eq_parts.0.as_str(), "bytes") {
        return Err(RangeError::Format);
    }
    let dash_parts = match split_exact2(eq_parts.1.as_str(), '-') {
        None => {
            return Err(RangeError::Format);
        },
        Some(p) => p,
    };
    let start_empty = dash_parts.0.as_str().is_empty();
    let end_empty = dash_parts.1.as_str().is_empty();
    if start_empty && !end_empty {
        return Err(RangeError::Format);
    }
    let start = if start_empty {
        None
    } else {
        match parse_u64(dash_parts.0.as_str()) {
            Some(v) => Some(v),
            None => {
                return Err(RangeError::Start);
            },
        }
    };
    let end = if end_empty {
        None
    } else {
        match parse_u64(dash_parts.1.as_str()) {
            Some(v) => Some(v),
            None => {
                return Err(RangeError::End);
            },
        }
    };
    Ok(Range { start, end })
}

/// Parses an optional `Range` header; an absent header is the valid
/// "whole file" case, not an error.
pub fn parse_range_header(header: Option<&str>) -> (r: Result<Option<Range>, RangeError>)
    ensures
        match header {
            None => r == Ok::<Option<Range>, RangeError>(None),
            Some(h) => match spec_parse_range(h@) {
                Ok(rg) => r == Ok::<Option<Range>, RangeError>(Some(rg)),
                Err(e) => r == Err::<Option<Range>, RangeError>(e),
            },
        },
{
    match header {
        None => Ok(None),
        Some(h) => match parse_range(h) {
            Ok(rg) => Ok(Some(rg)),
            Err(e) => Err(e),
        },
    }
}

/// The byte window a request is entitled to, checked against the file
/// length. No range means the whole file; a lone start runs to the end
/// of the file; a present end is inclusive. A start or end at or past
/// the file length is rejected as a Start or End error respectively,
/// before any byte is read; so are an end before the start and a
/// fully unbounded range of an empty file.
pub open spec fn spec_window(range: Option<Range>, len: u64) -> Result<ByteWindow, RangeError> {
    match range {
        None => Ok(ByteWindow { offset: 0, end: len }),
        Some(rq) => if rq.start matches Some(s) && s >= len {
            Err(RangeError::Start)
        } else if rq.end matches Some(e) && e >= len {
            Err(RangeError::End)
        } else if rq.start matches Some(s) && rq.end matches Some(e) && e < s {
            Err(RangeError::End)
        } else if len == 0 {
            Err(RangeError::Start)
        } else {
            let o = match rq.start {
                Some(s) => s,
                None => 0,
            };
            let x = match rq.end {
                Some(e) => (e + 1) as u64,
                None => len,
            };
            Ok(ByteWindow { offset: o, end: x })
        },
    }
}

/// Computes the window for a request.
pub fn compute_window(range: &Option<Range>, len: u64) -> (r: Result<ByteWindow, RangeError>)
    ensures
        r == spec_window(*range, len),
        r matches Ok(w) ==> w.offset <= w.end <= len,
{
    match range {
        None => Ok(ByteWindow { offset: 0, end: len }),
        Some(rq) => {
            if let Some(s) = rq.start {
                if s >= len {
                    return Err(RangeError::Start);
                }
            }
            if let Some(e) = rq.end {
                if e >= len {
                    return Err(RangeError::End);
                }
            }
            if let (Some(s), Some(e)) = (rq.start, rq.end) {
                if e < s {
                    return Err(RangeError::End);
                }
            }
            if len == 0 {
                return Err(RangeError::Start);
            }
            let o = match rq.start {
                Some(s) => s,
                None => 0,
            };
            let x = match rq.end {
                Some(e) => e + 1,
                None => len,
            };
            Ok(ByteWindow { offset: o, end: x })
        },
    }
}

/// A start or end at or past the file length is rejected at setup,
/// before any byte is streamed.
pub proof fn lemma_out_of_bounds_rejected(range: Range, len: u64)
    ensures
        match range.start {
            Some(s) => s >= len ==> spec_window(Some(range), len) == Err::<
                ByteWindow,
                RangeError,
            >(RangeError::Start),
            None => true,
        },
        match range.end {
            Some(e) => match range.start {
                Some(s) => (s < len && e >= len) ==> spec_window(Some(range), len) == Err::<
                    ByteWindow,
                    RangeError,
                >(RangeError::End),
                None => e >= len ==> spec_window(Some(range), len) == Err::<
                    ByteWindow,
                    RangeError,
                >(RangeError::End),
            },
            None => true,
        },
{
}

/// The chunks cover the window exactly: consecutive, in order, with no
/// overlap and no gap, every chunk a megabyte except a shorter final
/// one.
pub open spec fn chunks_cover(chunks: Seq<ByteWindow>, w: ByteWindow) -> bool {
    &&& (chunks.len() == 0 <==> w.offset == w.end)
    &&& (chunks.len() > 0 ==> chunks[0].offset == w.offset && chunks[chunks.len() - 1].end
        == w.end)
    &&& (forall|i: int|
        0 <= i < chunks.len() ==> w.offset <= (#[trigger] chunks[i]).offset && chunks[i].end
            <= w.end)
    &&& (forall|i: int|
        0 <= i < chunks.len() ==> (#[trigger] chunks[i]).offset < chunks[i].end)
    &&& (forall|i: int|
        0 <= i < chunks.len() ==> (#[trigger] chunks[i]).end - chunks[i].offset <= CHUNK_SIZE)
    &&& (forall|i: int|
        0 <= i < chunks.len() - 1 ==> (#[trigger] chunks[i]).end == chunks[i + 1].offset)
    &&& (forall|i: int|
        0 <= i < chunks.len() - 1 ==> (#[trigger] chunks[i]).end - chunks[i].offset == CHUNK_SIZE)
}

/// Plans the read: the window as consecutive megabyte chunks, the last
/// one sized to exactly fill the remainder.
pub fn chunk_plan(w: &ByteWindow) -> (chunks: Vec<ByteWindow>)
    requires
        w.offset <= w.end,
    ensures
        chunks_cover(chunks@, *w),
{
    let mut chunks: Vec<ByteWindow> = Vec::new();
    let mut pos: u64 = w.offset;
    while w.end - pos > CHUNK_SIZE
        invariant
            w.offset <= pos <= w.end,
            chunks@.len() == 0 <==> pos == w.offset,
            chunks@.len() > 0 ==> chunks@[0].offset == w.offset && chunks@[chunks@.len()
                - 1].end == pos,
            forall|i: int|
                0 <= i < chunks@.len() ==> w.offset <= (#[trigger] chunks@[i]).offset
                    && chunks@[i].end <= pos,
            forall|i: int|
                0 <= i < chunks@.len() ==> (#[trigger] chunks@[i]).end - chunks@[i].offset
                    == CHUNK_SIZE,
            forall|i: int|
                0 <= i < chunks@.len() - 1 ==> (#[trigger] chunks@[i]).end == chunks@[i
                    + 1].offset,
        decreases w.end - pos,
    {
        chunks.push(ByteWindow { offset: pos, end: pos + CHUNK_SIZE });
        pos = pos + CHUNK_SIZE;
    }
    if pos < w.end {
        chunks.push(ByteWindow { offset: pos, end: w.end });
    }
    chunks
}

/// Total number of bytes a sequence of chunks covers.
pub open spec fn total_size(chunks: Seq<ByteWindow>) -> int
    decreases chunks.len(),
{
    if chunks.len() == 0 {
        0
    } else {
        total_size(chunks.drop_last()) + chunks.last().end - chunks.last().offset
    }
}

proof fn lemma_chain_total(chunks: Seq<ByteWindow>, a: int, b: int)
    requires
        chunks.len() > 0,
        chunks[0].offset == a,
        chunks[chunks.len() - 1].end == b,
        forall|i: int| 0 <= i < chunks.len() ==> (#[trigger] chunks[i]).offset <= chunks[i].end,
        forall|i: int|
            0 <= i < chunks.len() - 1 ==> (#[trigger] chunks[i]).end == chunks[i + 1].offset,
    ensures
        total_size(chunks) == b - a,
    decreases chunks.len(),
{
    let rest = chunks.drop_last();
    if chunks.len() == 1 {
        assert(rest.len() == 0);
        assert(total_size(rest) == 0);
        assert(total_size(chunks) == total_size(rest) + chunks.last().end - chunks.last().offset);
    } else {
        assert(forall|i: int| 0 <= i < rest.len() ==> rest[i] == chunks[i]);
        lemma_chain_total(rest, a, chunks[chunks.len() - 2].end as int);
        assert(chunks[chunks.len() - 2].end == chunks.last().offset);
        assert(total_size(chunks) == total_size(rest) + chunks.last().end - chunks.last().offset);
    }
}

/// A plan that covers a window emits exactly as many bytes as the
/// window holds — together with the chaining in `chunks_cover`, the
/// stream matches the `Content-Length` it announced, with no overlap
/// and no gap.
pub proof fn lemma_chunks_emit_window_size(chunks: Seq<ByteWindow>, w: ByteWindow)
    requires
        chunks_cover(chunks, w),
        w.offset <= w.end,
    ensures
        total_size(chunks) == w.end - w.offset,
{
    if chunks.len() > 0 {
        lemma_chain_total(chunks, w.offset as int, w.end as int);
    }
}

/// Copies the window out of an in-memory byte sequence — the verified
/// core of one chunk read.
pub fn slice_window(data: &Vec<u8>, w: &ByteWindow) -> (r: Vec<u8>)
    requires
        w.offset <= w.end,
        w.end <= data@.len(),
    ensures
        r@ == data@.subrange(w.offset as int, w.end as int),
{
    let dlen: usize = data.len();
    let mut out: Vec<u8> = Vec::new();
    let mut i: u64 = w.offset;
    proof {
        assert(data@.subrange(w.offset as int, w.offset as int) =~= Seq::<u8>::empty());
    }
    while i < w.end
        invariant
            w.offset <= i <= w.end <= data@.len(),
            data@.len() == dlen,
            out@ == data@.subrange(w.offset as int, i as int),
        decreases w.end - i,
    {
        assert(i < dlen as u64);
        let b = data[i as usize];
        proof {
            assert(b == data@[i as int]);
            assert(data@.subrange(w.offset as int, i as int + 1) =~= data@.subrange(
                w.offset as int,
                i as int,
            ).push(data@[i as int]));
        }
        out.push(b);
        i += 1;
    }
    out
}

/// The characters after the last `.` of a name; the whole name when it
/// has no dot.
pub open spec fn spec_extension(s: Seq<char>) -> Seq<char>
    decreases s.len(),
{
    if s.len() == 0 {
        Seq::empty()
    } else if s.last() == '.' {
        Seq::empty()
    } else {
        spec_extension(s.drop_last()).push(s.last())
    }
}

proof fn lemma_extension_is_suffix(s: Seq<char>, cut: int)
    requires
        0 <= cut <= s.len(),
        forall|j: int| cut <= j < s.len() ==> s[j] != '.',
        cut == 0 || s[cut - 1] == '.',
    ensures
        spec_extension(s) == s.subrange(cut, s.len() as int),
    decreases s.len(),
{
    if s.len() == cut {
        assert(s.subrange(cut, s.len() as int) =~= Seq::<char>::empty());
    } else {
        assert(s.last() != '.');
        lemma_extension_is_suffix(s.drop_last(), cut);
        assert(s.drop_last().subrange(cut, s.len() - 1) =~= s.subrange(cut, s.len() - 1));
        assert(s.subrange(cut, s.len() - 1).push(s.last()) =~= s.subrange(cut, s.len() as int));
    }
}

/// The delivery name's extension, used to pick the content type.
pub fn extension_of(s: &str) -> (r: String)
    ensures
        r@ == spec_extension(s@),
{
    let n = s.unicode_len();
    let mut cut: usize = n;
    while cut > 0 && s.get_char(cut - 1) != '.'
        invariant
            n == s@.len(),
            cut <= n,
            forall|j: int| cut <= j < n ==> s@[j] != '.',
        decreases cut,
    {
        cut -= 1;
    }
    proof {
        lemma_extension_is_suffix(s@, cut as int);
    }
    s.substring_char(cut, n).to_owned()
}

/// The content type served for a file extension; unrecognized
/// extensions fall back to the opaque byte type.
pub open spec fn spec_mime(ext: Seq<char>) -> Seq<char> {
    if ext == "mp4"@ {
        "video/mp4"@
    } else if ext == "mkv"@ {
        "video/x-matroska"@
    } else if ext == "webm"@ {
        "video/webm"@
    } else if ext == "mp3"@ {
        "audio/mpeg"@
    } else if ext == "aac"@ {
        "audio/aac"@
    } else if ext == "jpg"@ || ext == "jpeg"@ {
        "image/jpeg"@
    } else if ext == "png"@ {
        "image/png"@
    } else {
        "application/octet-stream"@
    }
}

pub fn content_type_for(ext: &str) -> (r: String)
    ensures
        r@ == spec_mime(ext@),
{
    if str_eq(ext, "mp4") {
        "video/mp4".to_owned()
    } else if str_eq(ext, "mkv") {
        "video/x-matroska".to_owned()
    } else if str_eq(ext, "webm") {
        "video/webm".to_owned()
    } else if str_eq(ext, "mp3") {
        "audio/mpeg".to_owned()
    } else if str_eq(ext, "aac") {
        "audio/aac".to_owned()
    } else if str_eq(ext, "jpg") {
        "image/jpeg".to_owned()
    } else if str_eq(ext, "jpeg") {
        "image/jpeg".to_owned()
    } else if str_eq(ext, "png") {
        "image/png".to_owned()
    } else {
        "application/octet-stream".to_owned()
    }
}

/// The `Content-Range` header value for a window of a file:
/// `bytes <first>-<last>/<length>` with an inclusive last byte.
pub open spec fn spec_content_range(w: ByteWindow, len: u64) -> Seq<char> {
    "bytes "@ + dec_numeral(w.offset as int) + "-"@ + dec_numeral(w.end - 1) + "/"@ + dec_numeral(
        len as int,
    )
}

pub fn content_range_value(w: &ByteWindow, len: u64) -> (r: String)
    requires
        1 <= w.end,
    ensures
        r@ == spec_content_range(*w, len),
{
    let mut s = "bytes ".to_owned();
    let first = u64_to_string(w.offset);
    s.append(first.as_str());
    s.append("-");
    let last = u64_to_string(w.end - 1);
    s.append(last.as_str());
    s.append("/");
    let whole = u64_to_string(len);
    s.append(whole.as_str());
    s
}

/// The `Content-Disposition` header value offering the delivery name.
pub open spec fn spec_content_disposition(name: Seq<char>) -> Seq<char> {
    "inline; filename=\""@ + name + "\""@
}

/// What a media request can fail with before any byte is sent.
#[derive(Debug)]
pub enum StreamError {
    /// A store or I/O failure, reported as a 500-class envelope.
    ApiError(ApiError),
    /// A bad or unsatisfiable range, reported as a 400-class envelope.
    RangeError(RangeError),
    /// Unknown token or video.
    NotFound,
}

/// The response to one media request: status, headers and the byte
/// window to stream. The `Accept-Ranges: bytes` header is always sent
/// along with these.
#[derive(Debug)]
pub struct MediaStream {
    pub status: u16,
    pub content_length: u64,
    pub content_range: Option<String>,
    pub content_type: String,
    pub content_disposition: String,
    pub window: ByteWindow,
}

impl MediaStream {
    /// Builds the whole response envelope for a video of byte length
    /// `len`: 206 with a `Content-Range` exactly when a range was
    /// requested, else 200; the content length is the window size; the
    /// name and content type come from the video's delivery name.
    pub fn from_video(range: Option<Range>, video: &Video, len: u64) -> (r: Result<
        MediaStream,
        StreamError,
    >)
        requires
            video.file is Right,
        ensures
            match spec_window(range, len) {
                Err(e) => r matches Err(StreamError::RangeError(e2)) && e2 == e,
                Ok(w) => r matches Ok(ms) && {
                    &&& ms.window == w
                    &&& ms.window.offset <= ms.window.end <= len
                    &&& ms.status == if range is Some {
                        STATUS_PARTIAL_CONTENT
                    } else {
                        STATUS_OK
                    }
                    &&& ms.content_length == w.end - w.offset
                    &&& (match ms.content_range {
                        Some(cr) => range is Some && cr@ == spec_content_range(w, len),
                        None => range is None,
                    })
                    &&& ms.content_disposition@ == spec_content_disposition(
                        video.spec_download_name(),
                    )
                    &&& ms.content_type@ == spec_mime(spec_extension(video.spec_download_name()))
                },
            },
    {
        let name = video.download_name();
        let ranged = range.is_some();
        let w = match compute_window(&range, len) {
            Ok(w) => w,
            Err(e) => {
                return Err(StreamError::RangeError(e));
            },
        };
        let content_range = if ranged {
            assert(w.end >= 1);
            Some(content_range_value(&w, len))
        } else {
            None
        };
        let ext = extension_of(name.as_str());
        let content_type = content_type_for(ext.as_str());
        let mut content_disposition = "inline; filename=\"".to_owned();
        content_disposition.append(name.as_str());
        content_disposition.append("\"");
        Ok(
            MediaStream {
                status: if ranged {
                    STATUS_PARTIAL_CONTENT
                } else {
                    STATUS_OK
                },
                content_length: w.size(),
                content_range,
                content_type,
                content_disposition,
                window: w,
            },
        )
    }

    /// The stream itself, as a plan: one seek to the window's offset,
    /// then these chunks in order.
    pub fn gen_stream(&self) -> (chunks: Vec<ByteWindow>)
        requires
            self.window.offset <= self.window.end,
        ensures
            chunks_cover(chunks@, self.window),
    {
        chunk_plan(&self.window)
    }
}

/// What a presented media token resolves to: the id of the one video
/// it was minted for, and only while it is alive and matches exactly.
pub open spec fn spec_token_video(found: Option<VideoToken>, presented: Seq<char>, now: i64) -> Option<
    Seq<char>,
> {
    match found {
        None => None,
        Some(vt) => if vt.token.valid_spec(presented, now) {
            Some(vt.video@)
        } else {
            None
        },
    }
}

/// Resolves a presented media token against the store's answer: an
/// unknown, expired or mismatched token is not found; a store failure
/// stays a 500-class error.
pub fn resolve_media_token(
    found: Result<Option<VideoToken>, StoreError>,
    presented: &str,
    now: i64,
) -> (r: Result<String, StreamError>)
    ensures
        match found {
            Err(e) => r matches Err(StreamError::ApiError(a)) && a.error@ == "database_error"@
                && a.message@ == e.message@ && a.status == 500,
            Ok(f) => match spec_token_video(f, presented@, now) {
                Some(id) => r matches Ok(v) && v@ == id,
                None => r matches Err(e2) && e2 is NotFound,
            },
        },
{
    match found {
        Err(e) => Err(StreamError::ApiError(ApiError::internal("database_error", e.message))),
        Ok(None) => Err(StreamError::NotFound),
        Ok(Some(vt)) => {
            if vt.token.valid_at(presented, now) {
                Ok(vt.video)
            } else {
                Err(StreamError::NotFound)
            }
        },
    }
}

/// Maps the store's answer for the video record behind a resolved
/// token: an absent video (or one whose file record did not resolve)
/// is not found; a store failure stays a 500-class error.
pub fn resolve_video_record(lookup: Result<Option<Video>, StoreError>) -> (r: Result<
    Video,
    StreamError,
>)
    ensures
        match lookup {
            Err(e) => r matches Err(StreamError::ApiError(a)) && a.error@ == "database_error"@
                && a.message@ == e.message@ && a.status == 500,
            Ok(None) => r matches Err(e2) && e2 is NotFound,
            Ok(Some(v)) => r == Ok::<Video, StreamError>(v),
        },
{
    match lookup {
        Err(e) => Err(StreamError::ApiError(ApiError::internal("database_error", e.message))),
        Ok(None) => Err(StreamError::NotFound),
        Ok(Some(v)) => Ok(v),
    }
}

/// A media token is scoped to the video it was minted for: it never
/// resolves to any other video's id.
pub proof fn lemma_token_scoped_to_its_video(
    found: Option<VideoToken>,
    presented: Seq<char>,
    now: i64,
    other: Seq<char>,
)
    requires
        match found {
            Some(vt) => vt.video@ != other,
            None => true,
        },
    ensures
        spec_token_video(found, presented, now) != Some(other),
{
}

} // verus!
