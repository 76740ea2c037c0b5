//! Decisions of the folder and file handlers: how a folder channel is named
//! and recognised, what a created or deleted channel must look like, and how
//! a message becomes a file record.

use vstd::prelude::*;
use crate::models::{
    FileMetadata, FileView, Failure, FolderMetadata, FolderView, Status, failure_text, opt_view,
};
use crate::text::{
    all_ascii, ascii_lowercase, chars_of, component_extension, contains_spec, contains_str,
    digit_char, i64_to_string, int_decimal, is_single_component, lowercase, matches_at,
    path_extension, replace_all, replace_spec, string_from_chars, to_lowercase, trim, trim_spec,
};
use crate::utils::PeerInfo;

verus! {

/// Body of the folder creation request.
pub struct CreateFolderPayload {
    pub name: String,
}

/// Body of the folder deletion request.
pub struct DeleteFolderPayload {
    pub folder_id: i64,
}

/// Body of the upload request: a local path and the target folder
/// (`None` for "Saved Messages").
pub struct UploadFilePayload {
    pub path: String,
    pub folder_id: Option<i64>,
}

/// Body of the file deletion request.
pub struct DeleteFilePayload {
    pub message_id: i32,
    pub folder_id: Option<i64>,
}

/// Body of the download request.
pub struct DownloadFilePayload {
    pub message_id: i32,
    pub save_path: String,
    pub folder_id: Option<i64>,
}

/// Body of the move request.
pub struct MoveFilesPayload {
    pub message_ids: Vec<i32>,
    pub source_folder_id: Option<i64>,
    pub target_folder_id: Option<i64>,
}

/// Query of the global search request.
pub struct SearchGlobalParams {
    pub query: String,
}

/// The tag appended to a folder's name to make its channel title.
pub open spec fn folder_tag() -> Seq<char> {
    " [TD]"@
}

/// The channel title for a folder name: the name, a space and `[TD]`.
pub fn folder_title(name: &str) -> (res: String)
    ensures
        res@ == name@ + folder_tag(),
{
    let mut t = String::from_str(name);
    t.append(" [TD]");
    t
}

/// The marker written into a folder channel's description.
pub open spec fn folder_marker() -> Seq<char> {
    "[telegram-drive-folder]"@
}

/// The description given to a new folder channel.
pub fn folder_about() -> (res: String)
    ensures
        res@ == "Telegram Drive Storage Folder\n"@ + folder_marker(),
{
    let mut t = String::from_str("Telegram Drive Storage Folder\n");
    t.append("[telegram-drive-folder]");
    t
}

/// The folder record for channel `id` named `name`.
pub fn new_folder(id: i64, name: String) -> (res: FolderMetadata)
    ensures
        res@ == (FolderView { id: id, name: name@, parent_id: None }),
{
    FolderMetadata { id, name, parent_id: None }
}

/// The system clock read against the Unix epoch
/// (`SystemTime::now().duration_since(UNIX_EPOCH)`): the whole seconds
/// since the epoch, or `None` when the clock is set before it. Nothing is
/// stated of the value: it is the time.
#[verifier::external_body]
fn system_clock() -> Option<u64> {
    std::time::SystemTime::now().duration_since(std::time::UNIX_EPOCH).ok().map(|d| d.as_secs())
}

/// The id of a folder made without a Telegram connection, from a clock
/// reading: the whole seconds since the epoch, cast to `i64`; no id when the
/// clock is set before the epoch.
pub fn mock_folder_id_from(reading: Option<u64>) -> (res: Option<i64>)
    ensures
        res == (match reading {
            Some(secs) => Some(secs as i64),
            None => None::<i64>,
        }),
{
    match reading {
        Some(secs) => Some(secs as i64),
        None => None,
    }
}

/// The id of a folder made without a Telegram connection, by the system
/// clock (see `mock_folder_id_from`).
pub fn mock_folder_id() -> Option<i64> {
    let reading = system_clock();
    mock_folder_id_from(reading)
}

/// A folder record made without a Telegram connection, with the id that
/// `mock_folder_id` gives; none when the clock is set before the epoch.
pub fn mock_folder(name: String) -> (res: Option<FolderMetadata>)
    ensures
        res matches Some(f) ==> f.name@ == name@ && f.parent_id is None,
{
    match mock_folder_id() {
        Some(id) => Some(new_folder(id, name)),
        None => None,
    }
}

/// A chat that Telegram reports.
pub enum ChatInfo {
    Channel { id: i64, access_hash: Option<i64> },
    Other,
}

/// Telegram's answer to creating a channel.
pub enum ChannelCreation {
    /// An `Updates` answer and the first chat it lists.
    Updates { first_chat: Option<ChatInfo> },
    /// Any other kind of answer.
    Other,
}

/// The id and access hash of a newly created folder channel; a missing
/// access hash counts as 0.
pub fn created_channel(resp: &ChannelCreation) -> (res: Result<(i64, i64), Failure>)
    ensures
        match *resp {
            ChannelCreation::Updates { first_chat: Some(ChatInfo::Channel { id, access_hash }) } => res
                == Ok::<(i64, i64), Failure>(
                (
                    id,
                    match access_hash {
                        Some(h) => h,
                        None => 0i64,
                    },
                ),
            ),
            ChannelCreation::Updates { first_chat: Some(ChatInfo::Other) } => res matches Err(f)
                && f.status == Status::BadRequest && f.message@ == "Created chat is not a channel"@,
            ChannelCreation::Updates { first_chat: None } => res matches Err(f) && f.status
                == Status::InternalServerError && f.message@ == "No chat in updates"@,
            ChannelCreation::Other => res matches Err(f) && f.status == Status::InternalServerError
                && f.message@ == "Unexpected response (not Updates::Updates)"@,
        },
{
    match resp {
        ChannelCreation::Updates { first_chat } => match first_chat {
            Some(ChatInfo::Channel { id, access_hash }) => Ok(
                (
                    *id,
                    match access_hash {
                        Some(h) => *h,
                        None => 0,
                    },
                ),
            ),
            Some(ChatInfo::Other) => Err(
                failure_text(Status::BadRequest, "Created chat is not a channel"),
            ),
            None => Err(failure_text(Status::InternalServerError, "No chat in updates")),
        },
        ChannelCreation::Other => Err(
            failure_text(Status::InternalServerError, "Unexpected response (not Updates::Updates)"),
        ),
    }
}

/// The channel id and access hash of a folder that is to be deleted: only
/// a channel with a known access hash can be.
pub fn folder_channel(peer: &PeerInfo) -> (res: Result<(i64, i64), Failure>)
    ensures
        match *peer {
            PeerInfo::Channel { id, access_hash: Some(h), .. } => res == Ok::<(i64, i64), Failure>(
                (id, h),
            ),
            PeerInfo::Channel { access_hash: None, .. } => res matches Err(f) && f.status
                == Status::BadRequest && f.message@ == "No access hash for channel"@,
            _ => res matches Err(f) && f.status == Status::BadRequest && f.message@
                == "Only channels (folders) can be deleted."@,
        },
{
    match peer {
        PeerInfo::Channel { id, access_hash, .. } => match access_hash {
            Some(h) => Ok((*id, *h)),
            None => Err(failure_text(Status::BadRequest, "No access hash for channel")),
        },
        _ => Err(failure_text(Status::BadRequest, "Only channels (folders) can be deleted.")),
    }
}

/// A move within one folder is done without touching Telegram.
pub fn is_same_folder(payload: &MoveFilesPayload) -> (res: bool)
    ensures
        res == (payload.source_folder_id == payload.target_folder_id),
{
    payload.source_folder_id == payload.target_folder_id
}


/// What a message's media is, as far as the handlers look at it.
pub enum MediaInfo {
    /// A document: its file name (empty when it has none), its size in
    /// bytes and its MIME type.
    Document { name: String, size: i64, mime_type: Option<String> },
    /// A photo.
    Photo,
    /// Any other media (a contact, a location, ...).
    Other,
}

/// The bytes that transferring a media is counted as: a document's size, a
/// flat mebibyte for a photo, nothing for other media.
pub open spec fn transfer_size_spec(m: MediaInfo) -> u64 {
    match m {
        MediaInfo::Document { size, .. } => size as u64,
        MediaInfo::Photo => 1048576u64,
        MediaInfo::Other => 0u64,
    }
}

/// The bytes that transferring a media is counted as.
pub fn transfer_size(m: &MediaInfo) -> (res: u64)
    ensures
        res == transfer_size_spec(*m),
{
    match m {
        MediaInfo::Document { size, .. } => *size as u64,
        MediaInfo::Photo => 1024 * 1024,
        MediaInfo::Other => 0,
    }
}

/// What may be the extension found for a file name: see `path_extension`.
/// For a name that is one path component it is exactly
/// `component_extension`.
pub open spec fn extension_fits(name: Seq<char>, ext: Option<Seq<char>>) -> bool {
    &&& !contains_spec(name, "."@) ==> ext is None
    &&& ext matches Some(e) ==> contains_spec(name, "."@ + e) && !contains_spec(e, "."@)
    &&& is_single_component(name) ==> ext == component_extension(name)
}

/// The file record of a message with id `id` in folder `folder_id`, carrying
/// `media`, dated `created_at`, for a given extension of a document's name.
pub open spec fn media_file_spec(
    id: i64,
    folder_id: Option<i64>,
    media: MediaInfo,
    created_at: Seq<char>,
    ext: Option<Seq<char>>,
) -> FileView {
    match media {
        MediaInfo::Document { name, size, mime_type } => FileView {
            id: id,
            folder_id: folder_id,
            name: name@,
            size: size as u64,
            mime_type: opt_view(mime_type),
            file_ext: ext,
            created_at: created_at,
            icon_type: "file"@,
        },
        MediaInfo::Photo => FileView {
            id: id,
            folder_id: folder_id,
            name: "Photo.jpg"@,
            size: 0,
            mime_type: Some("image/jpeg"@),
            file_ext: Some("jpg"@),
            created_at: created_at,
            icon_type: "file"@,
        },
        MediaInfo::Other => FileView {
            id: id,
            folder_id: folder_id,
            name: "Unknown"@,
            size: 0,
            mime_type: None,
            file_ext: None,
            created_at: created_at,
            icon_type: "file"@,
        },
    }
}

fn clone_opt_string(o: &Option<String>) -> (res: Option<String>)
    ensures
        opt_view(res) == opt_view(*o),
{
    match o {
        Some(s) => Some(s.clone()),
        None => None,
    }
}

/// The file record of a message, given the extension of a document's name.
pub fn media_file_record(
    message_id: i32,
    folder_id: Option<i64>,
    media: &MediaInfo,
    created_at: String,
    ext: Option<String>,
) -> (res: FileMetadata)
    ensures
        res@ == media_file_spec(message_id as i64, folder_id, *media, created_at@, opt_view(ext)),
        res.id == message_id as i64,
        res.folder_id == folder_id,
        res.created_at@ == created_at@,
        media matches MediaInfo::Document { size, .. } ==> res.size == size as u64,
{
    match media {
        MediaInfo::Document { name, size, mime_type } => FileMetadata {
            id: message_id as i64,
            folder_id,
            name: name.clone(),
            size: *size as u64,
            mime_type: clone_opt_string(mime_type),
            file_ext: ext,
            created_at,
            icon_type: String::from_str("file"),
        },
        MediaInfo::Photo => FileMetadata {
            id: message_id as i64,
            folder_id,
            name: String::from_str("Photo.jpg"),
            size: 0,
            mime_type: Some(String::from_str("image/jpeg")),
            file_ext: Some(String::from_str("jpg")),
            created_at,
            icon_type: String::from_str("file"),
        },
        MediaInfo::Other => FileMetadata {
            id: message_id as i64,
            folder_id,
            name: String::from_str("Unknown"),
            size: 0,
            mime_type: None,
            file_ext: None,
            created_at,
            icon_type: String::from_str("file"),
        },
    }
}

/// The RFC 3339 text of a Unix time in UTC, to the second, as chrono's
/// `DateTime::<Utc>::to_rfc3339_opts(SecondsFormat::Secs, true)` writes it
/// (`YYYY-MM-DDTHH:MM:SSZ`).
pub uninterp spec fn rfc3339_utc_text(secs: i32) -> Seq<char>;

/// The two decimal digits of `n` (`0 <= n < 100`).
pub open spec fn two_digits(n: int) -> Seq<char> {
    seq![digit_char((n / 10) as nat), digit_char((n % 10) as nat)]
}

/// `HH:MM:SS`, the time of day in UTC of a Unix time.
pub open spec fn utc_clock_text(secs: int) -> Seq<char> {
    let day_seconds = secs % 86400;
    two_digits(day_seconds / 3600) + seq![':'] + two_digits(day_seconds % 3600 / 60) + seq![':']
        + two_digits(day_seconds % 60)
}

/// The shape of an RFC 3339 UTC time with a four-digit year: `YYYY-MM-DD`,
/// then `T`, the time of day of `secs`, and `Z`.
pub open spec fn is_utc_timestamp_text(t: Seq<char>, secs: int) -> bool {
    &&& t.len() == 20
    &&& t[4] == '-'
    &&& t[7] == '-'
    &&& t.subrange(10, 20) == seq!['T'] + utc_clock_text(secs) + seq!['Z']
}

/// The RFC 3339 text of a Unix time in UTC, to the second. chrono holds
/// every `i32` time (its range spans years -262144 to 262143), and those
/// times fall in the years 1901 to 2038, written with four digits. The
/// calendar date is named, not described.
#[verifier::external_body]
fn format_rfc3339_utc(secs: i32) -> (res: Option<String>)
    ensures
        res is Some,
        res matches Some(t) ==> t@ == rfc3339_utc_text(secs) && is_utc_timestamp_text(t@, secs as int),
{
    match chrono::DateTime::<chrono::Utc>::from_timestamp(secs as i64, 0) {
        Some(d) => Some(d.to_rfc3339_opts(chrono::SecondsFormat::Secs, true)),
        None => None,
    }
}

/// The date text of a message sent at a Unix time (Telegram's `i32`): its
/// RFC 3339 UTC time to the second.
pub fn message_date_text(unix_seconds: i32) -> (res: String)
    ensures
        res@ == rfc3339_utc_text(unix_seconds),
        is_utc_timestamp_text(res@, unix_seconds as int),
{
    match format_rfc3339_utc(unix_seconds) {
        Some(t) => t,
        None => String::new(),
    }
}

/// The file record of a listed message that carries media, sent at Unix
/// time `date`.
pub fn file_from_media(
    message_id: i32,
    folder_id: Option<i64>,
    media: &MediaInfo,
    date: i32,
) -> (res: FileMetadata)
    ensures
        res@ == media_file_spec(
            message_id as i64,
            folder_id,
            *media,
            rfc3339_utc_text(date),
            res@.file_ext,
        ),
        is_utc_timestamp_text(res@.created_at, date as int),
        media matches MediaInfo::Document { name, .. } ==> extension_fits(name@, res@.file_ext),
        res.id == message_id as i64,
        res.folder_id == folder_id,
        media matches MediaInfo::Document { size, .. } ==> res.size == size as u64,
{
    let ext = match media {
        MediaInfo::Document { name, .. } => path_extension(name.as_str()),
        _ => None,
    };
    let created_at = message_date_text(date);
    media_file_record(message_id, folder_id, media, created_at, ext)
}

/// The peer that a raw message belongs to.
pub enum RawPeer {
    User(i64),
    Chat(i64),
    Channel(i64),
}

/// An attribute of a raw document.
pub enum DocAttribute {
    Filename(String),
    Other,
}

/// A raw document as Telegram sends it.
pub struct RawDocument {
    pub attributes: Vec<DocAttribute>,
    pub size: i64,
    pub mime_type: String,
}

/// The media of a raw message.
pub enum RawMedia {
    /// Document media and its document, when it is a full one.
    Document(Option<RawDocument>),
    Other,
}

/// A raw message found by a search.
pub struct RawMessage {
    pub id: i32,
    pub date: i32,
    pub peer: RawPeer,
    pub media: Option<RawMedia>,
}

/// The first file name among a document's attributes.
pub open spec fn first_filename(attrs: Seq<DocAttribute>) -> Option<Seq<char>>
    decreases attrs.len(),
{
    if attrs.len() == 0 {
        None
    } else {
        match attrs[0] {
            DocAttribute::Filename(n) => Some(n@),
            DocAttribute::Other => first_filename(attrs.drop_first()),
        }
    }
}

/// A document's name: its first file name attribute, else `Unknown`.
pub open spec fn document_name_spec(doc: RawDocument) -> Seq<char> {
    match first_filename(doc.attributes@) {
        Some(n) => n,
        None => "Unknown"@,
    }
}

/// The id of the chat a raw message belongs to.
pub open spec fn raw_peer_id(p: RawPeer) -> i64 {
    match p {
        RawPeer::User(id) => id,
        RawPeer::Chat(id) => id,
        RawPeer::Channel(id) => id,
    }
}

/// The document that a raw message carries, if it carries a full one.
pub open spec fn message_document(m: RawMessage) -> Option<RawDocument> {
    match m.media {
        Some(RawMedia::Document(Some(doc))) => Some(doc),
        _ => None,
    }
}

/// The file record of a raw message that carries document `doc`, for a
/// given extension of its name.
pub open spec fn raw_file_spec(m: RawMessage, doc: RawDocument, ext: Option<Seq<char>>) -> FileView {
    FileView {
        id: m.id as i64,
        folder_id: Some(raw_peer_id(m.peer)),
        name: document_name_spec(doc),
        size: doc.size as u64,
        mime_type: Some(doc.mime_type@),
        file_ext: ext,
        created_at: int_decimal(m.date as int),
        icon_type: "file"@,
    }
}

/// A document's name: its first file name attribute, else `Unknown`.
pub fn document_name(doc: &RawDocument) -> (res: String)
    ensures
        res@ == document_name_spec(*doc),
{
    let mut i: usize = 0;
    assert(doc.attributes@.skip(0) =~= doc.attributes@);
    while i < doc.attributes.len()
        invariant
            i <= doc.attributes.len(),
            first_filename(doc.attributes@) == first_filename(doc.attributes@.skip(i as int)),
        decreases doc.attributes.len() - i,
    {
        assert(doc.attributes@.skip(i as int).drop_first() =~= doc.attributes@.skip(i + 1));
        match &doc.attributes[i] {
            DocAttribute::Filename(n) => {
                return n.clone();
            },
            DocAttribute::Other => {},
        }
        i += 1;
    }
    String::from_str("Unknown")
}

/// The file record of a raw message carrying a document, given the
/// extension of the document's name.
pub fn raw_file_record(m: &RawMessage, doc: &RawDocument, ext: Option<String>) -> (res: FileMetadata)
    ensures
        res@ == raw_file_spec(*m, *doc, opt_view(ext)),
        res.id == m.id as i64,
        res.size == doc.size as u64,
        res.mime_type matches Some(t) && t@ == doc.mime_type@,
        res.folder_id == Some(
            match m.peer {
                RawPeer::User(id) => id,
                RawPeer::Chat(id) => id,
                RawPeer::Channel(id) => id,
            },
        ),
{
    let folder_id = match m.peer {
        RawPeer::User(id) => id,
        RawPeer::Chat(id) => id,
        RawPeer::Channel(id) => id,
    };
    FileMetadata {
        id: m.id as i64,
        folder_id: Some(folder_id),
        name: document_name(doc),
        size: doc.size as u64,
        mime_type: Some(doc.mime_type.clone()),
        file_ext: ext,
        created_at: i64_to_string(m.date as i64),
        icon_type: String::from_str("file"),
    }
}

/// A search hit's file record, if the message carries a full document.
pub fn extract_file(m: &RawMessage) -> (res: Option<FileMetadata>)
    ensures
        res is Some <==> message_document(*m) is Some,
        res matches Some(f) ==> f@ == raw_file_spec(*m, message_document(*m)->0, f@.file_ext)
            && extension_fits(document_name_spec(message_document(*m)->0), f@.file_ext),
        res matches Some(f) ==> f.id == m.id as i64 && f.size == message_document(*m)->0.size as u64,
{
    match &m.media {
        Some(RawMedia::Document(Some(doc))) => {
            let name = document_name(doc);
            let ext = path_extension(name.as_str());
            Some(raw_file_record(m, doc, ext))
        },
        _ => None,
    }
}


/// An entry of a search answer.
pub enum RawMessageEntry {
    Message(RawMessage),
    Other,
}

/// Telegram's answer to a global search.
pub enum SearchResponse {
    Messages(Vec<RawMessageEntry>),
    Slice(Vec<RawMessageEntry>),
    Other,
}

/// The entries of a search answer (none for other kinds of answer).
pub open spec fn search_entries(resp: SearchResponse) -> Seq<RawMessageEntry> {
    match resp {
        SearchResponse::Messages(v) => v@,
        SearchResponse::Slice(v) => v@,
        SearchResponse::Other => Seq::empty(),
    }
}

/// The messages among search entries that carry a full document, in order.
pub open spec fn document_messages(entries: Seq<RawMessageEntry>) -> Seq<RawMessage>
    decreases entries.len(),
{
    if entries.len() == 0 {
        Seq::empty()
    } else {
        let rest = document_messages(entries.drop_last());
        match entries.last() {
            RawMessageEntry::Message(m) => if message_document(m) is Some {
                rest.push(m)
            } else {
                rest
            },
            RawMessageEntry::Other => rest,
        }
    }
}

/// The files found by a global search: one record per message that
/// carries a full document, in the order of the answer.
pub fn search_results(resp: SearchResponse) -> (res: Vec<FileMetadata>)
    ensures
        res@.len() == document_messages(search_entries(resp)).len(),
        forall|i: int|
            #![trigger res@[i]]
            0 <= i < res@.len() ==> {
                let m = document_messages(search_entries(resp))[i];
                &&& res@[i]@ == raw_file_spec(m, message_document(m)->0, res@[i]@.file_ext)
                &&& extension_fits(document_name_spec(message_document(m)->0), res@[i]@.file_ext)
                &&& res@[i].id == m.id as i64
                &&& res@[i].size == message_document(m)->0.size as u64
            },
{
    let entries = match resp {
        SearchResponse::Messages(v) => v,
        SearchResponse::Slice(v) => v,
        SearchResponse::Other => Vec::new(),
    };
    let ghost es = entries@;
    let mut files: Vec<FileMetadata> = Vec::new();
    let mut i: usize = 0;
    while i < entries.len()
        invariant
            i <= entries.len(),
            es == entries@,
            files@.len() == document_messages(es.take(i as int)).len(),
            forall|k: int|
                #![trigger files@[k]]
                0 <= k < files@.len() ==> {
                    let m = document_messages(es.take(i as int))[k];
                    &&& files@[k]@ == raw_file_spec(m, message_document(m)->0, files@[k]@.file_ext)
                    &&& extension_fits(
                        document_name_spec(message_document(m)->0),
                        files@[k]@.file_ext,
                    )
                    &&& files@[k].id == m.id as i64
                    &&& files@[k].size == message_document(m)->0.size as u64
                },
        decreases entries.len() - i,
    {
        let ghost before = document_messages(es.take(i as int));
        assert(es.take(i + 1).drop_last() =~= es.take(i as int));
        assert(es.take(i + 1).last() == es[i as int]);
        match &entries[i] {
            RawMessageEntry::Message(m) => {
                match extract_file(m) {
                    Some(f) => {
                        files.push(f);
                    },
                    None => {},
                }
            },
            RawMessageEntry::Other => {},
        }
        i += 1;
        proof {
            let after = document_messages(es.take(i as int));
            assert forall|k: int| 0 <= k < before.len() implies after[k] == before[k] by {}
        }
    }
    assert(es.take(entries.len() as int) =~= es);
    files
}

/// The record of a search hit names the message it came from and the chat
/// that holds it, and carries the size and MIME type of the document the
/// message carries, whatever the extension found for its name.
pub proof fn law_search_records_keep_the_document(
    m: RawMessage,
    doc: RawDocument,
    ext: Option<Seq<char>>,
)
    ensures
        raw_file_spec(m, doc, ext).id == m.id as i64,
        raw_file_spec(m, doc, ext).size == doc.size as u64,
        raw_file_spec(m, doc, ext).mime_type == Some(doc.mime_type@),
        raw_file_spec(m, doc, ext).folder_id == Some(
            match m.peer {
                RawPeer::User(id) => id,
                RawPeer::Chat(id) => id,
                RawPeer::Channel(id) => id,
            },
        ),
{
}

/// The record of a listed message names that message and the listed folder,
/// and keeps the date it is given, whatever media the message carries; a
/// document's record has the document's size.
pub proof fn law_listed_records_keep_message_and_folder(
    id: i64,
    folder_id: Option<i64>,
    media: MediaInfo,
    created_at: Seq<char>,
    ext: Option<Seq<char>>,
)
    ensures
        media_file_spec(id, folder_id, media, created_at, ext).id == id,
        media_file_spec(id, folder_id, media, created_at, ext).folder_id == folder_id,
        media_file_spec(id, folder_id, media, created_at, ext).created_at == created_at,
        media matches MediaInfo::Document { size, .. } ==> media_file_spec(
            id,
            folder_id,
            media,
            created_at,
            ext,
        ).size == size as u64,
{
}

/// What a listed record says of its media: a document keeps its name, MIME
/// type and the extension found for it; a photo is `Photo.jpg`, of type
/// `image/jpeg` with extension `jpg`; other media is `Unknown` with no type
/// or extension; photos and other media report 0 bytes. Every record is a
/// `file`.
pub proof fn law_listed_records_describe_their_media(
    id: i64,
    folder_id: Option<i64>,
    media: MediaInfo,
    created_at: Seq<char>,
    ext: Option<Seq<char>>,
)
    ensures
        media_file_spec(id, folder_id, media, created_at, ext).icon_type == "file"@,
        match media {
            MediaInfo::Document { name, mime_type, .. } => {
                &&& media_file_spec(id, folder_id, media, created_at, ext).name == name@
                &&& media_file_spec(id, folder_id, media, created_at, ext).mime_type == opt_view(
                    mime_type,
                )
                &&& media_file_spec(id, folder_id, media, created_at, ext).file_ext == ext
            },
            MediaInfo::Photo => {
                &&& media_file_spec(id, folder_id, media, created_at, ext).name == "Photo.jpg"@
                &&& media_file_spec(id, folder_id, media, created_at, ext).size == 0
                &&& media_file_spec(id, folder_id, media, created_at, ext).mime_type == Some(
                    "image/jpeg"@,
                )
                &&& media_file_spec(id, folder_id, media, created_at, ext).file_ext == Some("jpg"@)
            },
            MediaInfo::Other => {
                &&& media_file_spec(id, folder_id, media, created_at, ext).name == "Unknown"@
                &&& media_file_spec(id, folder_id, media, created_at, ext).size == 0
                &&& media_file_spec(id, folder_id, media, created_at, ext).mime_type is None
                &&& media_file_spec(id, folder_id, media, created_at, ext).file_ext is None
            },
        },
{
}

/// What transferring a media counts against the allowance: a document its
/// size in bytes (as `u64`), a photo 1 MiB, anything else nothing.
pub proof fn law_transfer_sizes(media: MediaInfo)
    ensures
        match media {
            MediaInfo::Document { size, .. } => transfer_size_spec(media) == size as u64,
            MediaInfo::Photo => transfer_size_spec(media) == 1024 * 1024,
            MediaInfo::Other => transfer_size_spec(media) == 0,
        },
{
}

/// The name shown for a folder whose channel title carries the tag: every
/// ` [TD]`, ` [td]`, `[TD]` and `[td]` removed (in that order), then trimmed.
pub open spec fn display_name_spec(title: Seq<char>) -> Seq<char> {
    trim_spec(
        replace_spec(
            replace_spec(
                replace_spec(replace_spec(title, " [TD]"@, Seq::empty()), " [td]"@, Seq::empty()),
                "[TD]"@,
                Seq::empty(),
            ),
            "[td]"@,
            Seq::empty(),
        ),
    )
}

/// The name shown for a tagged folder channel.
pub fn folder_display_name(title: &str) -> (res: String)
    ensures
        res@ == display_name_spec(title@),
{
    proof {
        reveal_strlit(" [TD]");
        reveal_strlit(" [td]");
        reveal_strlit("[TD]");
        reveal_strlit("[td]");
    }
    let empty: Vec<char> = Vec::new();
    let t0 = chars_of(title);
    let t1 = replace_all(&t0, &chars_of(" [TD]"), &empty);
    let t2 = replace_all(&t1, &chars_of(" [td]"), &empty);
    let t3 = replace_all(&t2, &chars_of("[TD]"), &empty);
    let t4 = replace_all(&t3, &chars_of("[td]"), &empty);
    assert(empty@ =~= Seq::<char>::empty());
    let s4 = string_from_chars(&t4);
    trim(s4.as_str())
}

/// A channel title marks a folder when its lower-case form contains `[td]`.
pub open spec fn is_tagged_title(title: Seq<char>) -> bool {
    contains_spec(lowercase(title), "[td]"@)
}

/// Every channel title whose lower-case form contains `[td]`, in any script,
/// is tagged as a folder, and no other title is.
pub proof fn law_tagged_titles_by_lower_case(title: Seq<char>)
    ensures
        is_tagged_title(title) <==> contains_spec(lowercase(title), "[td]"@),
{
}

/// A channel description marks a folder when it contains the marker.
pub fn has_folder_marker(about: &str) -> (res: bool)
    ensures
        res == contains_spec(about@, folder_marker()),
{
    contains_str(about, "[telegram-drive-folder]")
}

/// What a folder scan does with one dialog.
pub enum ScanDecision {
    /// The dialog is a folder, recognised by its title.
    Folder(FolderMetadata),
    /// The dialog is a channel whose description has to be read.
    CheckAbout { channel_id: i64, access_hash: i64 },
    /// The dialog is not a channel.
    Skip,
}

/// What a folder scan does with a dialog's peer: a channel whose title is
/// tagged is a folder named by `display_name_spec`; any other channel has
/// its description read (a missing access hash counts as 0); other peers
/// are skipped.
pub fn scan_dialog(peer: &PeerInfo) -> (res: ScanDecision)
    ensures
        match *peer {
            PeerInfo::Channel { id, access_hash, title } => if is_tagged_title(title@) {
                res matches ScanDecision::Folder(f) && f@ == (FolderView {
                    id: id,
                    name: display_name_spec(title@),
                    parent_id: None,
                })
            } else {
                res == (ScanDecision::CheckAbout {
                    channel_id: id,
                    access_hash: match access_hash {
                        Some(h) => h,
                        None => 0i64,
                    },
                })
            },
            _ => res is Skip,
        },
        peer matches PeerInfo::Channel { title, .. } ==> (all_ascii(title@) ==> (is_tagged_title(
            title@,
        ) <==> contains_spec(ascii_lowercase(title@), "[td]"@))),
        peer matches PeerInfo::Channel { title, .. } ==> (res is Folder <==> contains_spec(
            lowercase(title@),
            "[td]"@,
        )),
{
    match peer {
        PeerInfo::Channel { id, access_hash, title } => {
            let lowered = to_lowercase(title.as_str());
            if contains_str(lowered.as_str(), "[td]") {
                ScanDecision::Folder(new_folder(*id, folder_display_name(title.as_str())))
            } else {
                ScanDecision::CheckAbout {
                    channel_id: *id,
                    access_hash: match access_hash {
                        Some(h) => *h,
                        None => 0,
                    },
                }
            }
        },
        _ => ScanDecision::Skip,
    }
}

/// A channel that was not recognised by its title is a folder, under its
/// full title, when its description carries the marker.
pub fn folder_from_about(id: i64, title: &str, about: &str) -> (res: Option<FolderMetadata>)
    ensures
        res is Some <==> contains_spec(about@, folder_marker()),
        res matches Some(f) ==> f@ == (FolderView { id: id, name: title@, parent_id: None }),
{
    if has_folder_marker(about) {
        Some(new_folder(id, String::from_str(title)))
    } else {
        None
    }
}


proof fn lemma_replace_absent(s: Seq<char>, p: Seq<char>, r: Seq<char>)
    requires
        p.len() > 0,
        forall|i: int| !matches_at(s, p, i),
    ensures
        replace_spec(s, p, r) == s,
    decreases s.len(),
{
    if s.len() > 0 {
        let t = s.drop_first();
        assert forall|i: int| !matches_at(t, p, i) by {
            if matches_at(t, p, i) {
                assert(s.subrange(i + 1, i + 1 + p.len()) =~= t.subrange(i, i + p.len()));
                assert(matches_at(s, p, i + 1));
            }
        }
        lemma_replace_absent(t, p, r);
        assert(s =~= seq![s[0]] + t);
    }
}

proof fn lemma_replace_at_end(s: Seq<char>, p: Seq<char>, r: Seq<char>)
    requires
        p.len() > 0,
        forall|i: int| 0 <= i < s.len() ==> !matches_at(s + p, p, i),
        forall|i: int| !matches_at(s, p, i),
    ensures
        replace_spec(s + p, p, r) == s + r,
    decreases s.len(),
{
    if s.len() == 0 {
        assert(s + p =~= p);
        assert(p.subrange(0, p.len() as int) =~= p);
        assert(p.skip(p.len() as int) =~= Seq::<char>::empty());
        assert(s + r =~= r);
        assert(r + Seq::<char>::empty() =~= r);
        assert(replace_spec(Seq::<char>::empty(), p, r) == Seq::<char>::empty());
        assert(matches_at(p, p, 0));
        assert(replace_spec(p, p, r) == r + replace_spec(p.skip(p.len() as int), p, r));
    } else {
        let t = s.drop_first();
        assert((s + p).drop_first() =~= t + p);
        assert forall|i: int| 0 <= i < t.len() implies !matches_at(t + p, p, i) by {
            if matches_at(t + p, p, i) {
                assert((s + p).subrange(i + 1, i + 1 + p.len()) =~= (t + p).subrange(i, i + p.len()));
                assert(matches_at(s + p, p, i + 1));
            }
        }
        assert forall|i: int| !matches_at(t, p, i) by {
            if matches_at(t, p, i) {
                assert(s.subrange(i + 1, i + 1 + p.len()) =~= t.subrange(i, i + p.len()));
                assert(matches_at(s, p, i + 1));
            }
        }
        lemma_replace_at_end(t, p, r);
        assert((s + p)[0] == s[0]);
        assert(!matches_at(s + p, p, 0));
        assert(replace_spec(s + p, p, r) == seq![(s + p)[0]] + replace_spec((s + p).drop_first(), p, r));
        assert(seq![s[0]] + (t + r) =~= s + r);
    }
}

proof fn lemma_spaced_tag_holds_tag(s: Seq<char>, spaced: Seq<char>, tag: Seq<char>, i: int)
    requires
        spaced.len() == tag.len() + 1,
        spaced.skip(1) == tag,
        matches_at(s, spaced, i),
    ensures
        matches_at(s, tag, i + 1),
{
    assert(s.subrange(i + 1, i + 1 + tag.len()) =~= s.subrange(i, i + spaced.len()).skip(1));
}

/// A folder created under a name is listed back under that name, trimmed:
/// the display name of its channel title is the trimmed name, as long as
/// the name does not itself hold a `[TD]` or `[td]` tag.
pub proof fn law_display_name_of_title(name: Seq<char>)
    requires
        !contains_spec(name, "[TD]"@),
        !contains_spec(name, "[td]"@),
    ensures
        display_name_spec(name + folder_tag()) == trim_spec(name),
{
    reveal_strlit(" [TD]");
    reveal_strlit(" [td]");
    reveal_strlit("[TD]");
    reveal_strlit("[td]");
    let up: Seq<char> = "[TD]"@;
    let low: Seq<char> = "[td]"@;
    let sup: Seq<char> = " [TD]"@;
    let slow: Seq<char> = " [td]"@;
    assert(sup.skip(1) =~= up);
    assert(slow.skip(1) =~= low);
    let empty = Seq::<char>::empty();
    assert forall|i: int| !matches_at(name, up, i) by {
        if matches_at(name, up, i) {
            assert(contains_spec(name, up));
        }
    }
    assert forall|i: int| !matches_at(name, low, i) by {
        if matches_at(name, low, i) {
            assert(contains_spec(name, low));
        }
    }
    assert forall|i: int| !matches_at(name, sup, i) by {
        if matches_at(name, sup, i) {
            lemma_spaced_tag_holds_tag(name, sup, up, i);
        }
    }
    assert forall|i: int| !matches_at(name, slow, i) by {
        if matches_at(name, slow, i) {
            lemma_spaced_tag_holds_tag(name, slow, low, i);
        }
    }
    let title = name + sup;
    assert forall|i: int| 0 <= i < name.len() implies !matches_at(title, sup, i) by {
        if matches_at(title, sup, i) {
            if i + 5 <= name.len() {
                assert(name.subrange(i, i + 5) =~= title.subrange(i, i + 5));
                assert(matches_at(name, sup, i));
            } else {
                let j = name.len() - i;
                assert(title[name.len() as int] == ' ');
                assert(title.subrange(i, i + 5)[j] == title[name.len() as int]);
                assert(sup[j] != ' ');
            }
        }
    }
    lemma_replace_at_end(name, sup, empty);
    assert(name + empty =~= name);
    lemma_replace_absent(name, slow, empty);
    lemma_replace_absent(name, up, empty);
    lemma_replace_absent(name, low, empty);
}


proof fn lemma_ascii_lowercase_append(a: Seq<char>, b: Seq<char>)
    ensures
        ascii_lowercase(a + b) == ascii_lowercase(a) + ascii_lowercase(b),
{
    assert(ascii_lowercase(a + b) =~= ascii_lowercase(a) + ascii_lowercase(b));
}

proof fn lemma_tag_in_lowercase(s: Seq<char>, tag: Seq<char>, i: int)
    requires
        matches_at(s, tag, i),
        ascii_lowercase(tag) == "[td]"@,
    ensures
        matches_at(ascii_lowercase(s), "[td]"@, i),
{
    let w = s.subrange(i, i + tag.len());
    assert(ascii_lowercase(s).subrange(i, i + tag.len()) =~= ascii_lowercase(w));
}

/// A folder created under a name comes back under that name: the title of
/// its channel carries the tag in lower case (which is how the scan, on
/// ASCII titles, recognises it; see `scan_dialog`), and the title's display
/// name is the name itself. This holds for ASCII names that are already
/// trimmed and whose lower-case form holds no `[td]`.
pub proof fn law_created_folder_comes_back(name: Seq<char>)
    requires
        all_ascii(name),
        trim_spec(name) == name,
        !contains_spec(ascii_lowercase(name), "[td]"@),
    ensures
        all_ascii(name + folder_tag()),
        contains_spec(ascii_lowercase(name + folder_tag()), "[td]"@),
        display_name_spec(name + folder_tag()) == name,
{
    reveal_strlit(" [TD]");
    reveal_strlit("[TD]");
    reveal_strlit("[td]");
    let tag: Seq<char> = " [TD]"@;
    let title = name + tag;
    assert forall|i: int| 0 <= i < title.len() implies (#[trigger] title[i] as int) < 128 by {
        if i < name.len() {
            assert(title[i] == name[i]);
        }
    }
    lemma_ascii_lowercase_append(name, tag);
    let low_tag = ascii_lowercase(tag);
    assert(low_tag =~= seq![' ', '[', 't', 'd', ']']);
    let lt = ascii_lowercase(title);
    let k: int = name.len() as int;
    assert(lt.subrange(k + 1, k + 5) =~= "[td]"@);
    assert(matches_at(lt, "[td]"@, k + 1));
    assert(ascii_lowercase("[TD]"@) =~= "[td]"@);
    assert(ascii_lowercase("[td]"@) =~= "[td]"@);
    assert forall|i: int| !matches_at(name, "[TD]"@, i) by {
        if matches_at(name, "[TD]"@, i) {
            lemma_tag_in_lowercase(name, "[TD]"@, i);
        }
    }
    assert forall|i: int| !matches_at(name, "[td]"@, i) by {
        if matches_at(name, "[td]"@, i) {
            lemma_tag_in_lowercase(name, "[td]"@, i);
        }
    }
    law_display_name_of_title(name);
}

} // verus!
