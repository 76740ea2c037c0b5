//! The thumbnail and preview requests as step machines: each step says what
//! the caller must do next (read a cached file, ask Telegram, download), and
//! the caller reports back what came of it.

use vstd::prelude::*;
use crate::fs::{MediaInfo, extension_fits, transfer_size, transfer_size_spec};
use crate::models::{Failure, Status, failure};
use crate::preview::{
    base64_standard, cache_file_name, cached_thumbnail_mime, data_url, is_inline_image,
    is_inline_image_spec, preview_answer, preview_extension, preview_extension_spec,
    preview_mime_spec, thumbnail_answer, thumbnail_extension, thumbnail_extension_spec,
    thumbnail_mime_spec,
};
use crate::text::{after_last_dot, int_decimal, lowercase, matches_at};

verus! {

/// The characters of each name in a directory listing.
pub open spec fn names_view(names: Seq<String>) -> Seq<Seq<char>> {
    names.map_values(|s: String| s@)
}

/// A file name under which the thumbnail of message `message_id` may be
/// cached: the id, a dot, then anything.
pub open spec fn is_cached_name(name: Seq<char>, message_id: i32) -> bool {
    matches_at(name, int_decimal(message_id as int) + "."@, 0)
}

/// The file name a thumbnail is cached under: the id, a dot and the
/// extension.
pub open spec fn thumbnail_file_name(message_id: i32, ext: Seq<char>) -> Seq<char> {
    int_decimal(message_id as int) + "."@ + ext
}

/// The first index at or after `from` of a name under which the thumbnail
/// of `message_id` may be cached.
pub open spec fn first_cached_from(names: Seq<Seq<char>>, message_id: i32, from: int) -> Option<int>
    decreases names.len() - from,
{
    if from < 0 || from >= names.len() {
        None
    } else if is_cached_name(names[from], message_id) {
        Some(from)
    } else {
        first_cached_from(names, message_id, from + 1)
    }
}

/// The data URL answered for a cached thumbnail file: its MIME type goes by
/// the text after the last dot of its name.
pub open spec fn cached_thumbnail_reply(name: Seq<char>, bytes: Seq<u8>) -> Seq<char> {
    "data:"@ + thumbnail_mime_spec(after_last_dot(name)) + ";base64,"@ + base64_standard(bytes)
}

/// The answer for a freshly downloaded thumbnail with extension `ext`: a
/// data URL of its bytes, or empty when they could not be read.
pub open spec fn downloaded_thumbnail_reply(ext: Seq<char>, bytes: Option<Seq<u8>>) -> Seq<char> {
    match bytes {
        Some(b) => "data:"@ + thumbnail_mime_spec(ext) + ";base64,"@ + base64_standard(b),
        None => Seq::empty(),
    }
}

/// The first cached file of the thumbnail of `message_id` at or after
/// index `from` of a directory listing.
pub fn find_cached_thumbnail(names: &Vec<String>, message_id: i32, from: usize) -> (res: Option<
    usize,
>)
    ensures
        match first_cached_from(names_view(names@), message_id, from as int) {
            Some(i) => res == Some(i as usize),
            None => res is None,
        },
{
    let ghost nv = names_view(names@);
    let mut i = from;
    while i < names.len()
        invariant
            from <= i,
            nv == names_view(names@),
            first_cached_from(nv, message_id, from as int) == first_cached_from(
                nv,
                message_id,
                i as int,
            ),
        decreases names.len() - i,
    {
        if cached_thumbnail_mime(names[i].as_str(), message_id).is_some() {
            return Some(i);
        }
        i += 1;
    }
    None
}

/// Where a thumbnail request stands.
pub enum Thumbnail {
    /// Reading the cached file at this index of the listing.
    ReadingCached { index: usize },
    /// Waiting for the folder to resolve.
    Resolving,
    /// Waiting for the message.
    Fetching,
    /// Waiting for the image to download into the cache, under extension `ext`.
    Downloading { ext: String },
    /// Waiting for the bytes of the downloaded image.
    ReadingDownload { ext: String },
    Finished,
}

/// A thumbnail request: the message, the names in the thumbnail cache when
/// the request came, whether a Telegram client is connected, and the state.
pub struct ThumbnailRequest {
    pub message_id: i32,
    pub cached: Vec<String>,
    pub has_client: bool,
    pub state: Thumbnail,
}

/// What the caller reports back during a thumbnail request.
pub enum ThumbnailEvent {
    /// The bytes of the file asked for, or `None` when it could not be read.
    Read(Option<Vec<u8>>),
    /// Resolving the folder succeeded or failed with this text.
    Resolved(Result<(), String>),
    /// Fetching the message succeeded, with its media (`None` when there is
    /// no such message or it has none), or failed with this text.
    Fetched(Result<Option<MediaInfo>, String>),
    /// Whether the download into the cache succeeded.
    Downloaded(bool),
}

/// What a thumbnail request asks the caller to do next.
pub enum ThumbnailStep {
    /// Read the cached file of this name.
    ReadCached { file_name: String },
    Resolve,
    Fetch,
    /// Download the message's media into the cache under this name.
    Download { file_name: String },
    /// Read the file just downloaded under this name.
    ReadDownloaded { file_name: String },
    /// Answer.
    Done { reply: Result<String, Failure> },
}

/// The events that a thumbnail request expects in each state.
pub open spec fn thumbnail_accepts(state: Thumbnail, ev: ThumbnailEvent) -> bool {
    match state {
        Thumbnail::ReadingCached { .. } => ev is Read,
        Thumbnail::Resolving => ev is Resolved,
        Thumbnail::Fetching => ev is Fetched,
        Thumbnail::Downloading { .. } => ev is Downloaded,
        Thumbnail::ReadingDownload { .. } => ev is Read,
        Thumbnail::Finished => false,
    }
}

/// A thumbnail request whose state is reachable: a cached file it reads is
/// in the listing and may hold the thumbnail.
pub open spec fn thumbnail_wf(req: ThumbnailRequest) -> bool {
    req.state matches Thumbnail::ReadingCached { index } ==> index < req.cached.len()
        && is_cached_name(req.cached@[index as int]@, req.message_id)
}

/// How many more events a thumbnail request can take at most.
pub open spec fn thumbnail_events_left(req: ThumbnailRequest) -> int {
    match req.state {
        Thumbnail::ReadingCached { index } => req.cached.len() - index + 4,
        Thumbnail::Resolving => 4,
        Thumbnail::Fetching => 3,
        Thumbnail::Downloading { .. } => 2,
        Thumbnail::ReadingDownload { .. } => 1,
        Thumbnail::Finished => 0,
    }
}

/// What the request does once the cache has nothing more to offer: without
/// a client it answers empty, with one it resolves the folder.
pub open spec fn after_cache(res: (ThumbnailRequest, ThumbnailStep)) -> bool {
    if res.0.has_client {
        res.0.state is Resolving && res.1 is Resolve
    } else {
        &&& res.0.state is Finished
        &&& res.1 matches ThumbnailStep::Done { reply: Ok(s) } && s@ == Seq::<char>::empty()
    }
}

/// The request reads the cached file at index `i`.
pub open spec fn reads_cached(res: (ThumbnailRequest, ThumbnailStep), i: int) -> bool {
    &&& res.0.state == (Thumbnail::ReadingCached { index: i as usize })
    &&& res.1 matches ThumbnailStep::ReadCached { file_name } && file_name@ == res.0.cached@[i]@
}

/// The request answers `reply` and is finished.
pub open spec fn answers(res: (ThumbnailRequest, ThumbnailStep), reply: Seq<char>) -> bool {
    &&& res.0.state is Finished
    &&& res.1 matches ThumbnailStep::Done { reply: Ok(s) } && s@ == reply
}

/// The request fails with `status` and `message`, and is finished.
pub open spec fn refuses(
    res: (ThumbnailRequest, ThumbnailStep),
    status: Status,
    message: Seq<char>,
) -> bool {
    &&& res.0.state is Finished
    &&& res.1 matches ThumbnailStep::Done { reply: Err(f) } && f.status == status && f.message@
        == message
}

/// Reads the cached file at index `i` if there is one, else goes on as
/// `after_cache` says.
fn cached_or_onwards(
    message_id: i32,
    cached: Vec<String>,
    has_client: bool,
    found: Option<usize>,
) -> (res: (ThumbnailRequest, ThumbnailStep))
    requires
        found matches Some(i) ==> i < cached.len() && is_cached_name(cached@[i as int]@, message_id),
    ensures
        res.0.message_id == message_id,
        res.0.cached@ == cached@,
        res.0.has_client == has_client,
        thumbnail_wf(res.0),
        match found {
            Some(i) => reads_cached(res, i as int),
            None => after_cache(res),
        },
{
    match found {
        Some(i) => {
            let file_name = cached[i].clone();
            (
                ThumbnailRequest {
                    message_id,
                    cached,
                    has_client,
                    state: Thumbnail::ReadingCached { index: i },
                },
                ThumbnailStep::ReadCached { file_name },
            )
        },
        None => {
            if has_client {
                (
                    ThumbnailRequest { message_id, cached, has_client, state: Thumbnail::Resolving },
                    ThumbnailStep::Resolve,
                )
            } else {
                (
                    ThumbnailRequest { message_id, cached, has_client, state: Thumbnail::Finished },
                    ThumbnailStep::Done { reply: Ok(String::new()) },
                )
            }
        },
    }
}

proof fn lemma_first_cached_is_cached(names: Seq<Seq<char>>, message_id: i32, from: int)
    ensures
        first_cached_from(names, message_id, from) matches Some(i) ==> from <= i < names.len()
            && is_cached_name(names[i], message_id),
    decreases names.len() - from,
{
    if 0 <= from < names.len() && !is_cached_name(names[from], message_id) {
        lemma_first_cached_is_cached(names, message_id, from + 1);
    }
}

/// Starts a thumbnail request for `message_id`, given the names in the
/// thumbnail cache: the first cached file of that message is read before
/// anything else; without one, a request with no client answers empty and
/// one with a client resolves the folder.
pub fn thumbnail_start(message_id: i32, cached: Vec<String>, has_client: bool) -> (res: (
    ThumbnailRequest,
    ThumbnailStep,
))
    ensures
        res.0.message_id == message_id,
        res.0.cached@ == cached@,
        res.0.has_client == has_client,
        thumbnail_wf(res.0),
        match first_cached_from(names_view(cached@), message_id, 0) {
            Some(i) => reads_cached(res, i),
            None => after_cache(res),
        },
{
    let found = find_cached_thumbnail(&cached, message_id, 0);
    proof {
        lemma_first_cached_is_cached(names_view(cached@), message_id, 0);
    }
    cached_or_onwards(message_id, cached, has_client, found)
}

/// The bytes of an optional buffer.
pub open spec fn bytes_view(bytes: Option<Vec<u8>>) -> Option<Seq<u8>> {
    match bytes {
        Some(b) => Some(b@),
        None => None,
    }
}

/// A finished request that answers `reply`.
fn finish_with(message_id: i32, cached: Vec<String>, has_client: bool, reply: String) -> (res: (
    ThumbnailRequest,
    ThumbnailStep,
))
    ensures
        res.0.message_id == message_id,
        res.0.cached@ == cached@,
        res.0.has_client == has_client,
        answers(res, reply@),
{
    (
        ThumbnailRequest { message_id, cached, has_client, state: Thumbnail::Finished },
        ThumbnailStep::Done { reply: Ok(reply) },
    )
}

/// One step of a thumbnail request.
///
/// A cached file that reads is answered as a data URL; one that does not
/// read gives way to the next cached file of the message, then to Telegram.
/// A folder that does not resolve is a bad request and a failed fetch an
/// internal error; a message without an image answers empty. An image is
/// downloaded into the cache under the message id and its extension, and
/// answered as a data URL of what was saved, or empty when the download or
/// the read failed.
pub fn thumbnail_next(req: ThumbnailRequest, ev: ThumbnailEvent) -> (res: (
    ThumbnailRequest,
    ThumbnailStep,
))
    requires
        thumbnail_wf(req),
        thumbnail_accepts(req.state, ev),
    ensures
        res.0.message_id == req.message_id,
        res.0.cached@ == req.cached@,
        res.0.has_client == req.has_client,
        thumbnail_wf(res.0),
        0 <= thumbnail_events_left(res.0) < thumbnail_events_left(req),
        res.1 is Done <==> res.0.state is Finished,
        match (req.state, ev) {
            (Thumbnail::ReadingCached { index }, ThumbnailEvent::Read(Some(b))) => answers(
                res,
                cached_thumbnail_reply(req.cached@[index as int]@, b@),
            ),
            (Thumbnail::ReadingCached { index }, ThumbnailEvent::Read(None)) => match first_cached_from(
                names_view(req.cached@),
                req.message_id,
                index + 1,
            ) {
                Some(j) => reads_cached(res, j),
                None => after_cache(res),
            },
            (Thumbnail::Resolving, ThumbnailEvent::Resolved(Ok(()))) => res.0.state is Fetching
                && res.1 is Fetch,
            (Thumbnail::Resolving, ThumbnailEvent::Resolved(Err(e))) => refuses(
                res,
                Status::BadRequest,
                e@,
            ),
            (Thumbnail::Fetching, ThumbnailEvent::Fetched(Err(e))) => refuses(
                res,
                Status::InternalServerError,
                e@,
            ),
            (Thumbnail::Fetching, ThumbnailEvent::Fetched(Ok(None))) => answers(
                res,
                Seq::empty(),
            ),
            (Thumbnail::Fetching, ThumbnailEvent::Fetched(Ok(Some(m)))) => match thumbnail_extension_spec(
                m,
            ) {
                None => answers(res, Seq::empty()),
                Some(x) => {
                    &&& res.0.state matches Thumbnail::Downloading { ext } && ext@ == x
                    &&& res.1 matches ThumbnailStep::Download { file_name } && file_name@
                        == thumbnail_file_name(req.message_id, x)
                },
            },
            (Thumbnail::Downloading { .. }, ThumbnailEvent::Downloaded(false)) => answers(
                res,
                Seq::empty(),
            ),
            (Thumbnail::Downloading { ext }, ThumbnailEvent::Downloaded(true)) => {
                &&& res.0.state matches Thumbnail::ReadingDownload { ext: e } && e@ == ext@
                &&& res.1 matches ThumbnailStep::ReadDownloaded { file_name } && file_name@
                    == thumbnail_file_name(req.message_id, ext@)
            },
            (Thumbnail::ReadingDownload { ext }, ThumbnailEvent::Read(bytes)) => answers(
                res,
                downloaded_thumbnail_reply(ext@, bytes_view(bytes)),
            ),
            _ => true,
        },
{
    let ThumbnailRequest { message_id, cached, has_client, state } = req;
    match ev {
        ThumbnailEvent::Read(bytes) => match state {
            Thumbnail::ReadingCached { index } => match bytes {
                Some(b) => {
                    let mime = match cached_thumbnail_mime(cached[index].as_str(), message_id) {
                        Some(m) => m,
                        None => String::new(),
                    };
                    let url = data_url(mime.as_str(), b.as_slice());
                    finish_with(message_id, cached, has_client, url)
                },
                None => {
                    let found = find_cached_thumbnail(&cached, message_id, index + 1);
                    proof {
                        lemma_first_cached_is_cached(names_view(cached@), message_id, index + 1);
                    }
                    cached_or_onwards(message_id, cached, has_client, found)
                },
            },
            Thumbnail::ReadingDownload { ext } => {
                let reply = thumbnail_answer(ext.as_str(), bytes);
                finish_with(message_id, cached, has_client, reply)
            },
            // not reached: `thumbnail_accepts` pairs each state with its event
            _ => finish_with(message_id, cached, has_client, String::new()),
        },
        ThumbnailEvent::Resolved(r) => match r {
            Ok(()) => (
                ThumbnailRequest { message_id, cached, has_client, state: Thumbnail::Fetching },
                ThumbnailStep::Fetch,
            ),
            Err(e) => (
                ThumbnailRequest { message_id, cached, has_client, state: Thumbnail::Finished },
                ThumbnailStep::Done { reply: Err(failure(Status::BadRequest, e)) },
            ),
        },
        ThumbnailEvent::Fetched(r) => match r {
            Ok(Some(m)) => match thumbnail_extension(&m) {
                Some(ext) => {
                    let file_name = cache_file_name(message_id, ext.as_str());
                    (
                        ThumbnailRequest {
                            message_id,
                            cached,
                            has_client,
                            state: Thumbnail::Downloading { ext },
                        },
                        ThumbnailStep::Download { file_name },
                    )
                },
                None => finish_with(message_id, cached, has_client, String::new()),
            },
            Ok(None) => finish_with(message_id, cached, has_client, String::new()),
            Err(e) => (
                ThumbnailRequest { message_id, cached, has_client, state: Thumbnail::Finished },
                ThumbnailStep::Done { reply: Err(failure(Status::InternalServerError, e)) },
            ),
        },
        ThumbnailEvent::Downloaded(ok) => match state {
            Thumbnail::Downloading { ext } => {
                if ok {
                    let file_name = cache_file_name(message_id, ext.as_str());
                    (
                        ThumbnailRequest {
                            message_id,
                            cached,
                            has_client,
                            state: Thumbnail::ReadingDownload { ext },
                        },
                        ThumbnailStep::ReadDownloaded { file_name },
                    )
                } else {
                    finish_with(message_id, cached, has_client, String::new())
                }
            },
            // not reached: `thumbnail_accepts` pairs each state with its event
            _ => finish_with(message_id, cached, has_client, String::new()),
        },
    }
}

proof fn lemma_first_cached_found(names: Seq<Seq<char>>, message_id: i32, from: int, k: int)
    requires
        0 <= from <= k < names.len(),
        is_cached_name(names[k], message_id),
    ensures
        first_cached_from(names, message_id, from) is Some,
    decreases k - from,
{
    if !is_cached_name(names[from], message_id) {
        lemma_first_cached_found(names, message_id, from + 1, k);
    }
}

/// The text after the last dot of `p`, a dot and a dot-free `e` is `e`.
proof fn lemma_after_last_dot_of_suffix(p: Seq<char>, e: Seq<char>)
    requires
        forall|i: int| 0 <= i < e.len() ==> e[i] != '.',
    ensures
        after_last_dot(p + "."@ + e) == e,
    decreases e.len(),
{
    reveal_strlit(".");
    let s = p + "."@ + e;
    if e.len() == 0 {
        assert(s.last() == '.');
    } else {
        assert(s.drop_last() =~= p + "."@ + e.drop_last());
        lemma_after_last_dot_of_suffix(p, e.drop_last());
        assert(e.drop_last().push(e.last()) =~= e);
    }
}

/// A thumbnail that a request downloaded and read is answered again, as the
/// very same data URL, by the next request for that message, straight from
/// the cache and before any call to Telegram: when the cache listing holds
/// the file it was saved under (the message id, a dot and the extension
/// chosen for its media), every name in the listing that starts with the id
/// and a dot is that file, and reading the file gives the bytes that were
/// read after the download.
pub proof fn law_cached_thumbnail_comes_back(
    names: Seq<Seq<char>>,
    message_id: i32,
    media: MediaInfo,
    ext: Seq<char>,
    bytes: Seq<u8>,
)
    requires
        thumbnail_extension_spec(media) == Some(ext),
        names.contains(thumbnail_file_name(message_id, ext)),
        forall|i: int|
            0 <= i < names.len() && is_cached_name(#[trigger] names[i], message_id) ==> names[i]
                == thumbnail_file_name(message_id, ext),
    ensures
        first_cached_from(names, message_id, 0) matches Some(i) && names[i] == thumbnail_file_name(
            message_id,
            ext,
        ),
        cached_thumbnail_reply(thumbnail_file_name(message_id, ext), bytes)
            == downloaded_thumbnail_reply(ext, Some(bytes)),
{
    reveal_strlit("jpg");
    reveal_strlit("png");
    reveal_strlit("gif");
    reveal_strlit("webp");
    assert(forall|i: int| 0 <= i < ext.len() ==> ext[i] != '.');
    let p = int_decimal(message_id as int);
    let file = thumbnail_file_name(message_id, ext);
    lemma_after_last_dot_of_suffix(p, ext);
    let k = choose|k: int| 0 <= k < names.len() && names[k] == file;
    assert(file.subrange(0, (p + "."@).len() as int) =~= p + "."@);
    assert(is_cached_name(names[k], message_id));
    lemma_first_cached_found(names, message_id, 0, k);
    lemma_first_cached_is_cached(names, message_id, 0);
}

/// Where a preview request stands. `ext` is the extension of the cached
/// copy, `size` what a download of the media counts against the transfer
/// allowance, and `path` where the cached copy lies.
pub enum Preview {
    Resolving,
    Fetching,
    CheckingCache { ext: String, size: u64 },
    CheckingQuota { ext: String, path: String, size: u64 },
    Downloading { ext: String, path: String, size: u64 },
    /// Reading an image to send inline; `counted` is what the download, if
    /// one was made, counts.
    Reading { ext: String, path: String, counted: Option<u64> },
    Finished,
}

/// A preview request: the message and the state.
pub struct PreviewRequest {
    pub message_id: i32,
    pub state: Preview,
}

/// What the caller reports back during a preview request.
pub enum PreviewEvent {
    /// Resolving the folder succeeded or failed with this text.
    Resolved(Result<(), String>),
    /// Fetching the message succeeded, with its media (`None` when there is
    /// no such message or it has none), or failed with this text.
    Fetched(Result<Option<MediaInfo>, String>),
    /// Where the cached copy lies, and whether it is there.
    Cached { path: String, exists: bool },
    /// Whether the transfer allowance admits the download, or why not.
    Quota(Result<(), String>),
    /// The download into the cache succeeded or failed with this text.
    Downloaded(Result<(), String>),
    /// The bytes of the cached copy, or `None` when it could not be read.
    Read(Option<Vec<u8>>),
}

/// What a preview request asks the caller to do next.
pub enum PreviewStep {
    Resolve,
    Fetch,
    /// Look for the cached copy of this name in the preview cache.
    CheckCache { file_name: String },
    /// Ask the transfer allowance for this many bytes.
    CheckQuota { size: u64 },
    /// Download the message's media to this path.
    Download { path: String },
    /// Read the file at this path.
    ReadFile { path: String },
    /// Count `counted_down` bytes as downloaded, if any, and answer.
    Done { counted_down: Option<u64>, reply: Result<String, Failure> },
}

/// The events that a preview request expects in each state.
pub open spec fn preview_accepts(state: Preview, ev: PreviewEvent) -> bool {
    match state {
        Preview::Resolving => ev is Resolved,
        Preview::Fetching => ev is Fetched,
        Preview::CheckingCache { .. } => ev is Cached,
        Preview::CheckingQuota { .. } => ev is Quota,
        Preview::Downloading { .. } => ev is Downloaded,
        Preview::Reading { .. } => ev is Read,
        Preview::Finished => false,
    }
}

/// How many more events a preview request can take at most.
pub open spec fn preview_events_left(state: Preview) -> int {
    match state {
        Preview::Resolving => 6,
        Preview::Fetching => 5,
        Preview::CheckingCache { .. } => 4,
        Preview::CheckingQuota { .. } => 3,
        Preview::Downloading { .. } => 2,
        Preview::Reading { .. } => 1,
        Preview::Finished => 0,
    }
}

/// What may be the extension of the cached copy of `media`: see
/// `preview_extension`.
pub open spec fn preview_ext_fits(media: MediaInfo, x: Seq<char>) -> bool {
    match media {
        MediaInfo::Document { name, .. } => exists|e: Option<Seq<char>>|
            extension_fits(name@, e) && x == preview_extension_spec(media, e),
        _ => x == preview_extension_spec(media, None),
    }
}

/// The answer once the cached copy at `path` is there: an image (by its
/// extension in lower case) whose bytes were read is sent inline as a data
/// URL; anything else is sent as its path.
pub open spec fn ready_preview_reply(path: Seq<char>, ext: Seq<char>, bytes: Option<Seq<u8>>) -> Seq<
    char,
> {
    if is_inline_image_spec(lowercase(ext)) {
        match bytes {
            Some(b) => "data:"@ + preview_mime_spec(lowercase(ext)) + ";base64,"@ + base64_standard(b),
            None => path,
        }
    } else {
        path
    }
}

/// The request answers `reply`, counting `counted` bytes, and is finished.
pub open spec fn preview_answers(
    res: (PreviewRequest, PreviewStep),
    counted: Option<u64>,
    reply: Seq<char>,
) -> bool {
    &&& res.0.state is Finished
    &&& res.1 matches PreviewStep::Done { counted_down, reply: Ok(s) } && counted_down == counted
        && s@ == reply
}

/// The request fails with `status` and `message`, counts nothing, and is
/// finished.
pub open spec fn preview_refuses(
    res: (PreviewRequest, PreviewStep),
    status: Status,
    message: Seq<char>,
) -> bool {
    &&& res.0.state is Finished
    &&& res.1 matches PreviewStep::Done { counted_down: None, reply: Err(f) } && f.status == status
        && f.message@ == message
}

/// Once the cached copy is there: an inline image is read first; anything
/// else is answered with its path.
pub open spec fn preview_ready(
    res: (PreviewRequest, PreviewStep),
    ext: Seq<char>,
    path: Seq<char>,
    counted: Option<u64>,
) -> bool {
    if is_inline_image_spec(lowercase(ext)) {
        &&& res.0.state matches Preview::Reading { ext: e, path: p, counted: c } && e@ == ext && p@
            == path && c == counted
        &&& res.1 matches PreviewStep::ReadFile { path: p } && p@ == path
    } else {
        preview_answers(res, counted, path)
    }
}

/// The text of a preview that could not be had.
pub open spec fn preview_missing() -> Seq<char> {
    "File not found or failed to download"@
}

/// Starts a preview request: without a client it answers empty; with one,
/// the folder is resolved first.
pub fn preview_start(message_id: i32, has_client: bool) -> (res: (PreviewRequest, PreviewStep))
    ensures
        res.0.message_id == message_id,
        has_client ==> res.0.state is Resolving && res.1 is Resolve,
        !has_client ==> preview_answers(res, None, Seq::empty()),
{
    if has_client {
        (PreviewRequest { message_id, state: Preview::Resolving }, PreviewStep::Resolve)
    } else {
        (
            PreviewRequest { message_id, state: Preview::Finished },
            PreviewStep::Done { counted_down: None, reply: Ok(String::new()) },
        )
    }
}

/// The step once the cached copy at `path` is there.
fn preview_when_ready(message_id: i32, ext: String, path: String, counted: Option<u64>) -> (res: (
    PreviewRequest,
    PreviewStep,
))
    ensures
        res.0.message_id == message_id,
        preview_ready(res, ext@, path@, counted),
{
    if is_inline_image(ext.as_str()) {
        let p = path.clone();
        (
            PreviewRequest { message_id, state: Preview::Reading { ext, path, counted } },
            PreviewStep::ReadFile { path: p },
        )
    } else {
        (
            PreviewRequest { message_id, state: Preview::Finished },
            PreviewStep::Done { counted_down: counted, reply: Ok(path) },
        )
    }
}

/// A finished preview request that fails with `status` and `message`.
fn preview_failed(message_id: i32, status: Status, message: String) -> (res: (
    PreviewRequest,
    PreviewStep,
))
    ensures
        res.0.message_id == message_id,
        preview_refuses(res, status, message@),
{
    (
        PreviewRequest { message_id, state: Preview::Finished },
        PreviewStep::Done { counted_down: None, reply: Err(failure(status, message)) },
    )
}

/// One step of a preview request.
///
/// A folder that does not resolve is a bad request and a failed fetch an
/// internal error. The media's cached copy, named by the message id and
/// its extension, is used when it is there; otherwise it is downloaded if
/// the transfer allowance admits it, and counted once saved. A message
/// without media, a refused allowance or a failed download answer that the
/// file was not found. An image is sent inline as a data URL when it reads;
/// anything else is sent as the path of its cached copy.
pub fn preview_next(req: PreviewRequest, ev: PreviewEvent) -> (res: (PreviewRequest, PreviewStep))
    requires
        preview_accepts(req.state, ev),
    ensures
        res.0.message_id == req.message_id,
        0 <= preview_events_left(res.0.state) < preview_events_left(req.state),
        res.1 is Done <==> res.0.state is Finished,
        match (req.state, ev) {
            (Preview::Resolving, PreviewEvent::Resolved(Ok(()))) => res.0.state is Fetching
                && res.1 is Fetch,
            (Preview::Resolving, PreviewEvent::Resolved(Err(e))) => preview_refuses(
                res,
                Status::BadRequest,
                e@,
            ),
            (Preview::Fetching, PreviewEvent::Fetched(Err(e))) => preview_refuses(
                res,
                Status::InternalServerError,
                e@,
            ),
            (Preview::Fetching, PreviewEvent::Fetched(Ok(None))) => preview_refuses(
                res,
                Status::InternalServerError,
                preview_missing(),
            ),
            (Preview::Fetching, PreviewEvent::Fetched(Ok(Some(m)))) => {
                &&& res.0.state matches Preview::CheckingCache { ext, size } && preview_ext_fits(
                    m,
                    ext@,
                ) && size == transfer_size_spec(m)
                &&& res.1 matches PreviewStep::CheckCache { file_name } && res.0.state matches Preview::CheckingCache {
                    ext,
                    ..
                } && file_name@ == int_decimal(req.message_id as int) + "."@ + ext@
            },
            (Preview::CheckingCache { ext, .. }, PreviewEvent::Cached { path, exists: true }) => preview_ready(
                res,
                ext@,
                path@,
                None,
            ),
            (Preview::CheckingCache { ext, size }, PreviewEvent::Cached { path, exists: false }) => {
                &&& res.0.state matches Preview::CheckingQuota { ext: e, path: p, size: n } && e@
                    == ext@ && p@ == path@ && n == size
                &&& res.1 == (PreviewStep::CheckQuota { size })
            },
            (Preview::CheckingQuota { ext, path, size }, PreviewEvent::Quota(Ok(()))) => {
                &&& res.0.state matches Preview::Downloading { ext: e, path: p, size: n } && e@
                    == ext@ && p@ == path@ && n == size
                &&& res.1 matches PreviewStep::Download { path: p } && p@ == path@
            },
            (Preview::CheckingQuota { .. }, PreviewEvent::Quota(Err(_))) => preview_refuses(
                res,
                Status::InternalServerError,
                preview_missing(),
            ),
            (Preview::Downloading { ext, path, size }, PreviewEvent::Downloaded(Ok(()))) => preview_ready(
                res,
                ext@,
                path@,
                Some(size),
            ),
            (Preview::Downloading { .. }, PreviewEvent::Downloaded(Err(_))) => preview_refuses(
                res,
                Status::InternalServerError,
                preview_missing(),
            ),
            (Preview::Reading { ext, path, counted }, PreviewEvent::Read(bytes)) => preview_answers(
                res,
                counted,
                ready_preview_reply(path@, ext@, bytes_view(bytes)),
            ),
            _ => true,
        },
{
    let PreviewRequest { message_id, state } = req;
    match ev {
        PreviewEvent::Resolved(r) => match r {
            Ok(()) => (PreviewRequest { message_id, state: Preview::Fetching }, PreviewStep::Fetch),
            Err(e) => preview_failed(message_id, Status::BadRequest, e),
        },
        PreviewEvent::Fetched(r) => match r {
            Ok(Some(m)) => {
                let ext = preview_extension(&m);
                let size = transfer_size(&m);
                let file_name = cache_file_name(message_id, ext.as_str());
                (
                    PreviewRequest { message_id, state: Preview::CheckingCache { ext, size } },
                    PreviewStep::CheckCache { file_name },
                )
            },
            Ok(None) => preview_failed(
                message_id,
                Status::InternalServerError,
                String::from_str("File not found or failed to download"),
            ),
            Err(e) => preview_failed(message_id, Status::InternalServerError, e),
        },
        PreviewEvent::Cached { path, exists } => match state {
            Preview::CheckingCache { ext, size } => {
                if exists {
                    preview_when_ready(message_id, ext, path, None)
                } else {
                    (
                        PreviewRequest {
                            message_id,
                            state: Preview::CheckingQuota { ext, path, size },
                        },
                        PreviewStep::CheckQuota { size },
                    )
                }
            },
            // not reached: `preview_accepts` pairs each state with its event
            _ => preview_failed(message_id, Status::InternalServerError, String::new()),
        },
        PreviewEvent::Quota(r) => match state {
            Preview::CheckingQuota { ext, path, size } => match r {
                Ok(()) => {
                    let p = path.clone();
                    (
                        PreviewRequest {
                            message_id,
                            state: Preview::Downloading { ext, path, size },
                        },
                        PreviewStep::Download { path: p },
                    )
                },
                Err(_) => preview_failed(
                    message_id,
                    Status::InternalServerError,
                    String::from_str("File not found or failed to download"),
                ),
            },
            // not reached: `preview_accepts` pairs each state with its event
            _ => preview_failed(message_id, Status::InternalServerError, String::new()),
        },
        PreviewEvent::Downloaded(r) => match state {
            Preview::Downloading { ext, path, size } => match r {
                Ok(()) => preview_when_ready(message_id, ext, path, Some(size)),
                Err(_) => preview_failed(
                    message_id,
                    Status::InternalServerError,
                    String::from_str("File not found or failed to download"),
                ),
            },
            // not reached: `preview_accepts` pairs each state with its event
            _ => preview_failed(message_id, Status::InternalServerError, String::new()),
        },
        PreviewEvent::Read(bytes) => match state {
            Preview::Reading { ext, path, counted } => {
                let reply = preview_answer(true, path, ext.as_str(), bytes);
                (
                    PreviewRequest { message_id, state: Preview::Finished },
                    PreviewStep::Done { counted_down: counted, reply },
                )
            },
            // not reached: `preview_accepts` pairs each state with its event
            _ => preview_failed(message_id, Status::InternalServerError, String::new()),
        },
    }
}

} // verus!
