use vstd::prelude::*;
use vstd::string::*;
use vstd::utf8::encode_utf8;

use crate::preview::{PreviewFrames, PreviewStreamKind};
use crate::text::{decimal_bytes, push_decimal_ascii};

verus! {

broadcast use vstd::string::group_string_axioms;

/// The request methods the web UI tells apart.
#[derive(Clone, Copy, Debug, PartialEq, Eq, Structural)]
pub enum HttpMethod {
    Get,
    Post,
    Other,
}

/// Endpoints of the settings web UI.
#[derive(Clone, Copy, Debug, PartialEq, Eq, Structural)]
pub enum Route {
    Home,
    GetSettings,
    GetDetectionPreview,
    GetMaskPreview,
    GetHMaskPreview,
    GetSMaskPreview,
    GetVMaskPreview,
    GetDetectionStream,
    GetMaskStream,
    GetHMaskStream,
    GetSMaskStream,
    GetVMaskStream,
    GetLatestLogs,
    GetPlayback,
    PostSettings,
    PostPlayback,
    NotFound,
}

/// The endpoint a request for `path` with `method` is served by.
pub open spec fn spec_route(method: HttpMethod, path: Seq<char>) -> Route {
    match method {
        HttpMethod::Get => {
            if path == "/"@ {
                Route::Home
            } else if path == "/api/settings"@ {
                Route::GetSettings
            } else if path == "/api/preview/detection.jpg"@ {
                Route::GetDetectionPreview
            } else if path == "/api/preview/mask.jpg"@ {
                Route::GetMaskPreview
            } else if path == "/api/preview/mask-h.jpg"@ {
                Route::GetHMaskPreview
            } else if path == "/api/preview/mask-s.jpg"@ {
                Route::GetSMaskPreview
            } else if path == "/api/preview/mask-v.jpg"@ {
                Route::GetVMaskPreview
            } else if path == "/api/stream/detection.mjpg"@ {
                Route::GetDetectionStream
            } else if path == "/api/stream/mask.mjpg"@ {
                Route::GetMaskStream
            } else if path == "/api/stream/mask-h.mjpg"@ {
                Route::GetHMaskStream
            } else if path == "/api/stream/mask-s.mjpg"@ {
                Route::GetSMaskStream
            } else if path == "/api/stream/mask-v.mjpg"@ {
                Route::GetVMaskStream
            } else if path == "/api/logs/latest"@ {
                Route::GetLatestLogs
            } else if path == "/api/playback"@ {
                Route::GetPlayback
            } else {
                Route::NotFound
            }
        },
        HttpMethod::Post => {
            if path == "/api/settings"@ {
                Route::PostSettings
            } else if path == "/api/playback"@ {
                Route::PostPlayback
            } else {
                Route::NotFound
            }
        },
        HttpMethod::Other => Route::NotFound,
    }
}

/// Whether two string slices hold the same characters.
pub fn str_equal(a: &str, b: &str) -> (r: bool)
    ensures
        r == (a@ == b@),
{
    let n = a.unicode_len();
    let m = b.unicode_len();
    if n != m {
        return false;
    }
    let mut i: usize = 0;
    while i < n
        invariant
            n == a@.len(),
            m == b@.len(),
            n == m,
            i <= n,
            forall|j: int| 0 <= j < i ==> a@[j] == b@[j],
        decreases n - i,
    {
        if a.get_char(i) != b.get_char(i) {
            return false;
        }
        i = i + 1;
    }
    assert(a@ =~= b@);
    true
}

impl Route {
    /// Route a request by method and path (without query string).
    pub fn from_method_path(method: HttpMethod, path: &str) -> (r: Route)
        ensures
            r == spec_route(method, path@),
    {
        match method {
            HttpMethod::Get => {
                if str_equal(path, "/") {
                    Route::Home
                } else if str_equal(path, "/api/settings") {
                    Route::GetSettings
                } else if str_equal(path, "/api/preview/detection.jpg") {
                    Route::GetDetectionPreview
                } else if str_equal(path, "/api/preview/mask.jpg") {
                    Route::GetMaskPreview
                } else if str_equal(path, "/api/preview/mask-h.jpg") {
                    Route::GetHMaskPreview
                } else if str_equal(path, "/api/preview/mask-s.jpg") {
                    Route::GetSMaskPreview
                } else if str_equal(path, "/api/preview/mask-v.jpg") {
                    Route::GetVMaskPreview
                } else if str_equal(path, "/api/stream/detection.mjpg") {
                    Route::GetDetectionStream
                } else if str_equal(path, "/api/stream/mask.mjpg") {
                    Route::GetMaskStream
                } else if str_equal(path, "/api/stream/mask-h.mjpg") {
                    Route::GetHMaskStream
                } else if str_equal(path, "/api/stream/mask-s.mjpg") {
                    Route::GetSMaskStream
                } else if str_equal(path, "/api/stream/mask-v.mjpg") {
                    Route::GetVMaskStream
                } else if str_equal(path, "/api/logs/latest") {
                    Route::GetLatestLogs
                } else if str_equal(path, "/api/playback") {
                    Route::GetPlayback
                } else {
                    Route::NotFound
                }
            },
            HttpMethod::Post => {
                if str_equal(path, "/api/settings") {
                    Route::PostSettings
                } else if str_equal(path, "/api/playback") {
                    Route::PostPlayback
                } else {
                    Route::NotFound
                }
            },
            HttpMethod::Other => Route::NotFound,
        }
    }
}

/// The part of a request target before the first `?`.
pub open spec fn spec_request_path(url: Seq<char>) -> Seq<char>
    decreases url.len(),
{
    if url.len() == 0 {
        url
    } else if url[0] == '?' {
        Seq::empty()
    } else {
        seq![url[0]] + spec_request_path(url.drop_first())
    }
}

proof fn lemma_request_path_prefix(url: Seq<char>, i: int)
    requires
        0 <= i <= url.len(),
        forall|j: int| 0 <= j < i ==> url[j] != '?',
        i == url.len() || url[i] == '?',
    ensures
        spec_request_path(url) == url.take(i),
    decreases i,
{
    if i == 0 {
        assert(url.take(0) =~= Seq::<char>::empty());
        if url.len() > 0 {
            assert(url[0] == '?');
        }
    } else {
        lemma_request_path_prefix(url.drop_first(), i - 1);
        assert(url.take(i) =~= seq![url[0]] + url.drop_first().take(i - 1));
    }
}

/// The path of a request target: everything before the query string.
pub fn request_path(url: &str) -> (r: &str)
    ensures
        r@ == spec_request_path(url@),
{
    let n = url.unicode_len();
    let mut i: usize = 0;
    while i < n && url.get_char(i) != '?'
        invariant
            n == url@.len(),
            i <= n,
            forall|j: int| 0 <= j < i ==> url@[j] != '?',
        decreases n - i,
    {
        i = i + 1;
    }
    proof {
        lemma_request_path_prefix(url@, i as int);
        assert(url@.take(i as int) =~= url@.subrange(0, i as int));
    }
    url.substring_char(0, i)
}

/// A query string never changes the endpoint a request goes to.
pub proof fn lemma_query_ignored(method: HttpMethod, path: Seq<char>, query: Seq<char>)
    requires
        !path.contains('?'),
    ensures
        spec_request_path(path + seq!['?'] + query) == path,
        spec_route(method, spec_request_path(path + seq!['?'] + query)) == spec_route(
            method,
            path,
        ),
{
    let url = path + seq!['?'] + query;
    assert forall|j: int| 0 <= j < path.len() implies url[j] != '?' by {
        assert(url[j] == path[j]);
        if path[j] == '?' {
            assert(path.contains('?'));
        }
    }
    assert(url[path.len() as int] == '?');
    lemma_request_path_prefix(url, path.len() as int);
    assert(url.take(path.len() as int) =~= path);
}

/// The bytes of an ASCII character sequence.
pub open spec fn ascii_bytes(s: Seq<char>) -> Seq<u8> {
    s.map_values(|c: char| c as u8)
}

fn push_bytes(out: &mut Vec<u8>, bytes: &[u8])
    ensures
        final(out)@ == old(out)@ + bytes@,
{
    let n = bytes.len();
    for i in 0..n
        invariant
            n == bytes@.len(),
            out@ == old(out)@ + bytes@.take(i as int),
    {
        out.push(bytes[i]);
        assert(bytes@.take(i + 1) =~= bytes@.take(i as int).push(bytes@[i as int]));
    }
    assert(bytes@.take(n as int) =~= bytes@);
}

fn push_ascii(out: &mut Vec<u8>, s: &str)
    requires
        is_ascii(s),
    ensures
        final(out)@ == old(out)@ + ascii_bytes(s@),
{
    let bytes = s.as_bytes();
    assert(bytes@ =~= ascii_bytes(s@));
    push_bytes(out, bytes);
}

/// One part of a `multipart/x-mixed-replace` MJPEG stream carrying `jpeg`.
pub open spec fn spec_mjpeg_chunk(jpeg: Seq<u8>) -> Seq<u8> {
    ascii_bytes("--frame\r\n"@) + ascii_bytes("Content-Type: image/jpeg\r\n"@) + ascii_bytes(
        "Content-Length: "@,
    ) + decimal_bytes(jpeg.len()) + ascii_bytes("\r\n\r\n"@) + jpeg + ascii_bytes("\r\n"@)
}

/// Frame one JPEG image as an MJPEG stream part.
pub fn build_mjpeg_chunk(jpeg: &[u8]) -> (r: Vec<u8>)
    ensures
        r@ == spec_mjpeg_chunk(jpeg@),
{
    let mut chunk: Vec<u8> = Vec::new();
    proof {
        reveal_strlit("--frame\r\n");
        reveal_strlit("Content-Type: image/jpeg\r\n");
        reveal_strlit("Content-Length: ");
        reveal_strlit("\r\n\r\n");
        reveal_strlit("\r\n");
    }
    push_ascii(&mut chunk, "--frame\r\n");
    push_ascii(&mut chunk, "Content-Type: image/jpeg\r\n");
    push_ascii(&mut chunk, "Content-Length: ");
    push_decimal_ascii(jpeg.len(), &mut chunk);
    push_ascii(&mut chunk, "\r\n\r\n");
    push_bytes(&mut chunk, jpeg);
    push_ascii(&mut chunk, "\r\n");
    chunk
}

} // verus!

verus! {

/// The MJPEG part being sent on one stream and how much of it is out.
pub struct MjpegChunkReader {
    last_frame: u64,
    chunk: Vec<u8>,
    offset: usize,
}

impl MjpegChunkReader {
    #[verifier::type_invariant]
    spec fn offset_in_chunk(self) -> bool {
        self.offset <= self.chunk@.len()
    }

    /// Frame number of the image the current part carries.
    pub closed spec fn frame(self) -> u64 {
        self.last_frame
    }

    /// Bytes of the current part not yet handed out.
    pub closed spec fn remaining(self) -> Seq<u8> {
        self.chunk@.skip(self.offset as int)
    }

    /// A reader that has sent nothing and needs a first frame.
    pub fn new() -> (r: Self)
        ensures
            r.frame() == 0,
            r.remaining() == Seq::<u8>::empty(),
    {
        let r = MjpegChunkReader { last_frame: 0, chunk: Vec::new(), offset: 0 };
        assert(r.remaining() =~= Seq::<u8>::empty());
        r
    }

    /// Frame number of the image the current part carries.
    pub fn last_frame(&self) -> (r: u64)
        ensures
            r == self.frame(),
    {
        self.last_frame
    }

    /// Whether the current part has been sent completely.
    pub fn needs_refill(&self) -> (r: bool)
        ensures
            r == (self.remaining().len() == 0),
    {
        proof {
            use_type_invariant(self);
        }
        self.offset >= self.chunk.len()
    }

    /// Start sending the part for frame `frame`.
    pub fn load_frame(&mut self, frame: u64, jpeg: &[u8])
        ensures
            final(self).frame() == frame,
            final(self).remaining() == spec_mjpeg_chunk(jpeg@),
    {
        let chunk = build_mjpeg_chunk(jpeg);
        *self = MjpegChunkReader { last_frame: frame, chunk, offset: 0 };
        assert(self.chunk@.skip(0) =~= self.chunk@);
    }

    /// Load the stream's next frame from `frames` when one newer than the
    /// frame last loaded is there; returns whether one was loaded. Frame
    /// numbers on a stream only go up, so no frame is sent twice and none
    /// out of order.
    pub fn refill_from(&mut self, frames: &PreviewFrames, kind: PreviewStreamKind) -> (loaded: bool)
        ensures
            loaded == frames@.has_fresh(kind, old(self).frame()),
            loaded ==> final(self).frame() == frames@.frame_count && final(self).frame() > old(
                self,
            ).frame() && final(self).remaining() == spec_mjpeg_chunk(frames@.preview(kind)->0),
            !loaded ==> final(self).frame() == old(self).frame() && final(self).remaining()
                == old(self).remaining(),
    {
        if !frames.has_fresh(kind, self.last_frame) {
            return false;
        }
        let frame = frames.frame_count();
        match frames.preview(kind) {
            Some(jpeg) => {
                self.load_frame(frame, jpeg.as_slice());
                true
            },
            None => false,
        }
    }

    /// Copy as much of the rest of the part into `buf` as fits; the bytes
    /// handed out, followed by what remains, are what remained before.
    pub fn read_into(&mut self, buf: &mut [u8]) -> (n: usize)
        ensures
            n as int == if old(self).remaining().len() < old(buf)@.len() {
                old(self).remaining().len() as int
            } else {
                old(buf)@.len() as int
            },
            final(buf)@.len() == old(buf)@.len(),
            final(buf)@.take(n as int) == old(self).remaining().take(n as int),
            final(buf)@.skip(n as int) == old(buf)@.skip(n as int),
            final(self).remaining() == old(self).remaining().skip(n as int),
            final(self).frame() == old(self).frame(),
    {
        proof {
            use_type_invariant(&*self);
        }
        let available = self.chunk.len() - self.offset;
        let n = if available < buf.len() {
            available
        } else {
            buf.len()
        };
        let ghost rem = old(self).remaining();
        let mut i: usize = 0;
        while i < n
            invariant
                i <= n,
                n <= available,
                n <= buf@.len(),
                available == self.chunk@.len() - self.offset,
                self.chunk@.len() == self.chunk.len(),
                rem == self.chunk@.skip(self.offset as int),
                self.offset <= self.chunk@.len(),
                buf@.len() == old(buf)@.len(),
                forall|j: int| 0 <= j < i ==> buf@[j] == rem[j],
                forall|j: int| i <= j < buf@.len() ==> buf@[j] == old(buf)@[j],
            decreases n - i,
        {
            buf[i] = self.chunk[self.offset + i];
            i = i + 1;
        }
        self.offset = self.offset + n;
        assert(buf@.take(n as int) =~= rem.take(n as int));
        assert(buf@.skip(n as int) =~= old(buf)@.skip(n as int));
        assert(self.chunk@.skip(self.offset as int) =~= rem.skip(n as int));
        n
    }
}

impl Route {
    /// The stream whose latest single image this route serves.
    pub fn snapshot_stream(self) -> (r: Option<PreviewStreamKind>)
        ensures
            r == match self {
                Route::GetDetectionPreview => Some(PreviewStreamKind::Detection),
                Route::GetMaskPreview => Some(PreviewStreamKind::Mask),
                Route::GetHMaskPreview => Some(PreviewStreamKind::HMask),
                Route::GetSMaskPreview => Some(PreviewStreamKind::SMask),
                Route::GetVMaskPreview => Some(PreviewStreamKind::VMask),
                _ => None,
            },
    {
        match self {
            Route::GetDetectionPreview => Some(PreviewStreamKind::Detection),
            Route::GetMaskPreview => Some(PreviewStreamKind::Mask),
            Route::GetHMaskPreview => Some(PreviewStreamKind::HMask),
            Route::GetSMaskPreview => Some(PreviewStreamKind::SMask),
            Route::GetVMaskPreview => Some(PreviewStreamKind::VMask),
            _ => None,
        }
    }

    /// The stream this route serves as a live MJPEG feed.
    pub fn live_stream(self) -> (r: Option<PreviewStreamKind>)
        ensures
            r == match self {
                Route::GetDetectionStream => Some(PreviewStreamKind::Detection),
                Route::GetMaskStream => Some(PreviewStreamKind::Mask),
                Route::GetHMaskStream => Some(PreviewStreamKind::HMask),
                Route::GetSMaskStream => Some(PreviewStreamKind::SMask),
                Route::GetVMaskStream => Some(PreviewStreamKind::VMask),
                _ => None,
            },
    {
        match self {
            Route::GetDetectionStream => Some(PreviewStreamKind::Detection),
            Route::GetMaskStream => Some(PreviewStreamKind::Mask),
            Route::GetHMaskStream => Some(PreviewStreamKind::HMask),
            Route::GetSMaskStream => Some(PreviewStreamKind::SMask),
            Route::GetVMaskStream => Some(PreviewStreamKind::VMask),
            _ => None,
        }
    }
}

/// Response body type of a web UI reply.
#[derive(Clone, Copy, Debug, PartialEq, Eq, Structural)]
pub enum ReplyContent {
    Html,
    Json,
    Jpeg,
    PlainText,
}

impl ReplyContent {
    pub open spec fn spec_header_value(self) -> Seq<char> {
        match self {
            ReplyContent::Html => "text/html; charset=UTF-8"@,
            ReplyContent::Json => "application/json"@,
            ReplyContent::Jpeg => "image/jpeg"@,
            ReplyContent::PlainText => "text/plain; charset=UTF-8"@,
        }
    }

    /// The `Content-Type` header value for this body type.
    pub fn header_value(self) -> (r: &'static str)
        ensures
            r@ == self.spec_header_value(),
    {
        match self {
            ReplyContent::Html => "text/html; charset=UTF-8",
            ReplyContent::Json => "application/json",
            ReplyContent::Jpeg => "image/jpeg",
            ReplyContent::PlainText => "text/plain; charset=UTF-8",
        }
    }
}

/// Status line, content type, caching and body of a web UI reply.
#[derive(Clone, Debug)]
pub struct HttpReply {
    pub status: u16,
    pub content: ReplyContent,
    pub no_store: bool,
    pub body: Vec<u8>,
}

/// The latest preview image, or 503 while there is none yet.
pub fn preview_response(bytes: Option<Vec<u8>>) -> (r: HttpReply)
    ensures
        match bytes {
            Some(b) => r.status == 200 && r.content == ReplyContent::Jpeg && r.no_store && r.body@
                == b@,
            None => r.status == 503 && r.content == ReplyContent::PlainText && !r.no_store
                && r.body@ == ascii_bytes("No preview frame yet"@),
        },
{
    match bytes {
        Some(b) => HttpReply { status: 200, content: ReplyContent::Jpeg, no_store: true, body: b },
        None => {
            let mut body: Vec<u8> = Vec::new();
            proof {
                reveal_strlit("No preview frame yet");
            }
            push_ascii(&mut body, "No preview frame yet");
            HttpReply { status: 503, content: ReplyContent::PlainText, no_store: false, body }
        },
    }
}

/// The latest runtime log as JSON (already serialized), or 503 while there
/// is none yet.
pub fn log_response(log_json: Option<String>) -> (r: HttpReply)
    ensures
        match log_json {
            Some(text) => r.status == 200 && r.content == ReplyContent::Json && r.no_store
                && r.body@ == encode_utf8(text@),
            None => r.status == 503 && r.content == ReplyContent::PlainText && !r.no_store
                && r.body@ == ascii_bytes("No runtime log yet"@),
        },
{
    match log_json {
        Some(text) => {
            let mut body: Vec<u8> = Vec::new();
            push_bytes(&mut body, text.as_str().as_bytes());
            HttpReply { status: 200, content: ReplyContent::Json, no_store: true, body }
        },
        None => {
            let mut body: Vec<u8> = Vec::new();
            proof {
                reveal_strlit("No runtime log yet");
            }
            push_ascii(&mut body, "No runtime log yet");
            HttpReply { status: 503, content: ReplyContent::PlainText, no_store: false, body }
        },
    }
}

} // verus!
