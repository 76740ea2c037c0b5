//! Records that the handlers send back to the frontend, and the shape of a
//! refused request.

use vstd::prelude::*;

verus! {

/// A drive folder (a Telegram channel), as listed to the frontend.
#[derive(Debug)]
pub struct FolderMetadata {
    pub id: i64,
    pub name: String,
    pub parent_id: Option<i64>,
}

/// A stored file (a message that carries media), as listed to the frontend.
#[derive(Debug)]
pub struct FileMetadata {
    pub id: i64,
    pub folder_id: Option<i64>,
    pub name: String,
    pub size: u64,
    pub mime_type: Option<String>,
    pub file_ext: Option<String>,
    pub created_at: String,
    pub icon_type: String,
}

/// One page of a folder listing.
#[derive(Debug)]
pub struct FilePage {
    pub files: Vec<FileMetadata>,
    pub has_more: bool,
    pub next_offset: i32,
    pub total_fetched: i32,
}

/// The answer to a sign-in step.
#[derive(Debug)]
pub struct AuthResult {
    pub success: bool,
    pub next_step: Option<String>,
    pub error: Option<String>,
}

/// Mathematical view of a folder record.
pub struct FolderView {
    pub id: i64,
    pub name: Seq<char>,
    pub parent_id: Option<i64>,
}

/// Mathematical view of a file record.
pub struct FileView {
    pub id: i64,
    pub folder_id: Option<i64>,
    pub name: Seq<char>,
    pub size: u64,
    pub mime_type: Option<Seq<char>>,
    pub file_ext: Option<Seq<char>>,
    pub created_at: Seq<char>,
    pub icon_type: Seq<char>,
}

/// Mathematical view of a listing page.
pub struct PageView {
    pub files: Seq<FileView>,
    pub has_more: bool,
    pub next_offset: i32,
    pub total_fetched: i32,
}

/// Mathematical view of a sign-in answer.
pub struct AuthResultView {
    pub success: bool,
    pub next_step: Option<Seq<char>>,
    pub error: Option<Seq<char>>,
}

/// The view of an optional string.
pub open spec fn opt_view(o: Option<String>) -> Option<Seq<char>> {
    match o {
        Some(s) => Some(s@),
        None => None,
    }
}

impl View for FolderMetadata {
    type V = FolderView;

    open spec fn view(&self) -> FolderView {
        FolderView { id: self.id, name: self.name@, parent_id: self.parent_id }
    }
}

impl View for FileMetadata {
    type V = FileView;

    open spec fn view(&self) -> FileView {
        FileView {
            id: self.id,
            folder_id: self.folder_id,
            name: self.name@,
            size: self.size,
            mime_type: opt_view(self.mime_type),
            file_ext: opt_view(self.file_ext),
            created_at: self.created_at@,
            icon_type: self.icon_type@,
        }
    }
}

/// The views of a sequence of file records.
pub open spec fn files_view(v: Seq<FileMetadata>) -> Seq<FileView> {
    v.map_values(|f: FileMetadata| f@)
}

impl View for FilePage {
    type V = PageView;

    open spec fn view(&self) -> PageView {
        PageView {
            files: files_view(self.files@),
            has_more: self.has_more,
            next_offset: self.next_offset,
            total_fetched: self.total_fetched,
        }
    }
}

impl View for AuthResult {
    type V = AuthResultView;

    open spec fn view(&self) -> AuthResultView {
        AuthResultView {
            success: self.success,
            next_step: opt_view(self.next_step),
            error: opt_view(self.error),
        }
    }
}

/// The HTTP status of a refused request.
#[derive(PartialEq, Eq, Structural, Clone, Copy, Debug)]
pub enum Status {
    BadRequest,
    Forbidden,
    NotFound,
    InternalServerError,
}

impl Status {
    /// The numeric HTTP status code.
    pub fn code(&self) -> (res: u16)
        ensures
            res == match *self {
                Status::BadRequest => 400u16,
                Status::Forbidden => 403u16,
                Status::NotFound => 404u16,
                Status::InternalServerError => 500u16,
            },
    {
        match self {
            Status::BadRequest => 400,
            Status::Forbidden => 403,
            Status::NotFound => 404,
            Status::InternalServerError => 500,
        }
    }
}

/// A refused request: its status and the plain-text message sent back.
#[derive(Debug)]
pub struct Failure {
    pub status: Status,
    pub message: String,
}

/// Builds a refusal from a status and a message.
pub fn failure(status: Status, message: String) -> (res: Failure)
    ensures
        res.status == status,
        res.message@ == message@,
{
    Failure { status, message }
}

/// Builds a refusal whose message is a fixed text.
pub fn failure_text(status: Status, message: &str) -> (res: Failure)
    ensures
        res.status == status,
        res.message@ == message@,
{
    Failure { status, message: String::from_str(message) }
}

/// Builds a refusal whose message is `prefix` followed by `detail`.
pub fn failure_with(status: Status, prefix: &str, detail: &str) -> (res: Failure)
    ensures
        res.status == status,
        res.message@ == prefix@ + detail@,
{
    let mut m = String::from_str(prefix);
    m.append(detail);
    Failure { status, message: m }
}

} // verus!
