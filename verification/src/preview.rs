//! Decisions of the preview and thumbnail handlers: which extension a cached
//! copy gets, which files are shown inline as images, and how an image is
//! turned into a data URL.

use base64::Engine;
use vstd::prelude::*;
use crate::fs::{MediaInfo, extension_fits};
use crate::models::{Failure, Status, failure_text, opt_view};
use crate::text::{
    after_last_dot, after_last_dot_str, chars_of, component_extension, i64_to_string, int_decimal,
    is_single_component, lowercase, all_ascii, ascii_lowercase, matches_at, matches_at_exec, path_extension, to_lowercase,
};

verus! {

/// Query of the preview request.
pub struct GetPreviewParams {
    pub message_id: i32,
    pub folder_id: Option<i64>,
}

/// Query of the thumbnail request.
pub struct GetThumbnailParams {
    pub message_id: i32,
    pub folder_id: Option<i64>,
}

/// The extension for a MIME type, when a document's name has none.
pub open spec fn mime_extension_spec(mime: Option<Seq<char>>) -> Seq<char> {
    match mime {
        Some(m) => if m == "image/jpeg"@ {
            "jpg"@
        } else if m == "image/png"@ {
            "png"@
        } else if m == "video/mp4"@ {
            "mp4"@
        } else {
            "bin"@
        },
        None => "bin"@,
    }
}

/// The extension of a preview's cached copy, given the extension found in a
/// document's name: that extension if non-empty, else one for the MIME type;
/// `jpg` for a photo and `bin` for other media.
pub open spec fn preview_extension_spec(media: MediaInfo, name_ext: Option<Seq<char>>) -> Seq<
    char,
> {
    match media {
        MediaInfo::Document { mime_type, .. } => {
            let e = match name_ext {
                Some(e) => e,
                None => Seq::empty(),
            };
            if e.len() > 0 {
                e
            } else {
                mime_extension_spec(opt_view(mime_type))
            }
        },
        MediaInfo::Photo => "jpg"@,
        MediaInfo::Other => "bin"@,
    }
}

/// The extension of a preview's cached copy, given the extension found in a
/// document's name.
pub fn preview_extension_with(media: &MediaInfo, name_ext: Option<String>) -> (res: String)
    ensures
        res@ == preview_extension_spec(*media, opt_view(name_ext)),
{
    match media {
        MediaInfo::Document { mime_type, .. } => {
            let e = match name_ext {
                Some(e) => e,
                None => String::new(),
            };
            let ev = chars_of(e.as_str());
            if ev.len() > 0 {
                e
            } else {
                match mime_type {
                    Some(m) => {
                        if m.eq(&String::from_str("image/jpeg")) {
                            String::from_str("jpg")
                        } else if m.eq(&String::from_str("image/png")) {
                            String::from_str("png")
                        } else if m.eq(&String::from_str("video/mp4")) {
                            String::from_str("mp4")
                        } else {
                            String::from_str("bin")
                        }
                    },
                    None => String::from_str("bin"),
                }
            }
        },
        MediaInfo::Photo => String::from_str("jpg"),
        MediaInfo::Other => String::from_str("bin"),
    }
}

/// The extension of a preview's cached copy.
pub fn preview_extension(media: &MediaInfo) -> (res: String)
    ensures
        match *media {
            MediaInfo::Document { name, .. } => exists|e: Option<Seq<char>>|
                extension_fits(name@, e) && res@ == preview_extension_spec(*media, e),
            _ => res@ == preview_extension_spec(*media, None),
        },
        media matches MediaInfo::Document { name, .. } ==> (is_single_component(name@) ==> res@
            == preview_extension_spec(*media, component_extension(name@))),
{
    let name_ext = match media {
        MediaInfo::Document { name, .. } => path_extension(name.as_str()),
        _ => None,
    };
    let ghost e = opt_view(name_ext);
    let r = preview_extension_with(media, name_ext);
    proof {
        if let MediaInfo::Document { name, .. } = media {
            assert(extension_fits(name@, e) && r@ == preview_extension_spec(*media, e));
        }
    }
    r
}

/// The file name of a cached copy: the message id, a dot and the extension.
pub fn cache_file_name(message_id: i32, ext: &str) -> (res: String)
    ensures
        res@ == int_decimal(message_id as int) + "."@ + ext@,
{
    let mut s = i64_to_string(message_id as i64);
    s.append(".");
    s.append(ext);
    s
}

/// A lower-case extension that the preview shows inline as an image.
pub open spec fn is_inline_image_spec(lower_ext: Seq<char>) -> bool {
    ||| lower_ext == "jpg"@
    ||| lower_ext == "jpeg"@
    ||| lower_ext == "png"@
    ||| lower_ext == "gif"@
    ||| lower_ext == "webp"@
    ||| lower_ext == "bmp"@
    ||| lower_ext == "svg"@
}

/// Whether a preview with this extension is sent inline as an image
/// (the extension is compared in lower case).
pub fn is_inline_image(ext: &str) -> (res: bool)
    ensures
        res == is_inline_image_spec(lowercase(ext@)),
        all_ascii(ext@) ==> (res <==> {
            let l = ascii_lowercase(ext@);
            ||| l == "jpg"@
            ||| l == "jpeg"@
            ||| l == "png"@
            ||| l == "gif"@
            ||| l == "webp"@
            ||| l == "bmp"@
            ||| l == "svg"@
        }),
{
    let l = to_lowercase(ext);
    l.eq(&String::from_str("jpg")) || l.eq(&String::from_str("jpeg")) || l.eq(
        &String::from_str("png"),
    ) || l.eq(&String::from_str("gif")) || l.eq(&String::from_str("webp")) || l.eq(
        &String::from_str("bmp"),
    ) || l.eq(&String::from_str("svg"))
}

/// The seven image extensions that a preview sends inline, whatever their
/// case: `jpg`, `jpeg`, `png`, `gif`, `webp`, `bmp` and `svg`; and no other
/// extension.
pub proof fn law_inline_image_extensions(lower_ext: Seq<char>)
    ensures
        is_inline_image_spec("jpg"@),
        is_inline_image_spec("jpeg"@),
        is_inline_image_spec("png"@),
        is_inline_image_spec("gif"@),
        is_inline_image_spec("webp"@),
        is_inline_image_spec("bmp"@),
        is_inline_image_spec("svg"@),
        is_inline_image_spec(lower_ext) ==> lower_ext.len() == 3 || lower_ext.len() == 4,
{
    reveal_strlit("jpg");
    reveal_strlit("jpeg");
    reveal_strlit("png");
    reveal_strlit("gif");
    reveal_strlit("webp");
    reveal_strlit("bmp");
    reveal_strlit("svg");
}

proof fn lemma_image_types_start_with_image()
    ensures
        matches_at("image/png"@, "image/"@, 0),
        matches_at("image/gif"@, "image/"@, 0),
        matches_at("image/webp"@, "image/"@, 0),
        "image/gif"@ != "image/png"@,
        "image/webp"@ != "image/png"@,
        "image/webp"@ != "image/gif"@,
{
    reveal_strlit("image/");
    reveal_strlit("image/png");
    reveal_strlit("image/gif");
    reveal_strlit("image/webp");
    assert("image/png"@.subrange(0, 6) =~= "image/"@);
    assert("image/gif"@.subrange(0, 6) =~= "image/"@);
    assert("image/webp"@.subrange(0, 6) =~= "image/"@);
    assert("image/gif"@[6] != "image/png"@[6]);
    assert("image/webp"@[6] != "image/png"@[6]);
    assert("image/webp"@[6] != "image/gif"@[6]);
}

/// Every document whose MIME type starts with `image/` gets a thumbnail:
/// `png`, `gif` or `webp` for those three types, `jpg` for any other image;
/// a photo gets `jpg`; anything else gets none.
pub proof fn law_image_media_get_thumbnails(media: MediaInfo)
    ensures
        media is Photo ==> thumbnail_extension_spec(media) == Some("jpg"@),
        media is Other ==> thumbnail_extension_spec(media) is None,
        media matches MediaInfo::Document { mime_type: Some(m), .. } ==> {
            &&& thumbnail_extension_spec(media) is Some <==> matches_at(m@, "image/"@, 0)
            &&& m@ == "image/png"@ ==> thumbnail_extension_spec(media) == Some("png"@)
            &&& m@ == "image/gif"@ ==> thumbnail_extension_spec(media) == Some("gif"@)
            &&& m@ == "image/webp"@ ==> thumbnail_extension_spec(media) == Some("webp"@)
            &&& matches_at(m@, "image/"@, 0) && m@ != "image/png"@ && m@ != "image/gif"@ && m@
                != "image/webp"@ ==> thumbnail_extension_spec(media) == Some("jpg"@)
        },
        media matches MediaInfo::Document { mime_type: None, .. } ==> thumbnail_extension_spec(
            media,
        ) is None,
{
    reveal_strlit("image/");
    lemma_image_types_start_with_image();
}

/// The extension of a preview's cached copy: a document's non-empty name
/// extension; failing that, `jpg`, `png` or `mp4` for the MIME types
/// `image/jpeg`, `image/png` and `video/mp4`, and `bin` for any other or
/// none; `jpg` for a photo and `bin` for other media.
pub proof fn law_preview_extension_choice(media: MediaInfo, name_ext: Option<Seq<char>>)
    ensures
        media is Photo ==> preview_extension_spec(media, name_ext) == "jpg"@,
        media is Other ==> preview_extension_spec(media, name_ext) == "bin"@,
        media is Document && name_ext is Some && name_ext->0.len() > 0 ==> preview_extension_spec(
            media,
            name_ext,
        ) == name_ext->0,
        match media {
            MediaInfo::Document { mime_type, .. } => (name_ext is None || name_ext == Some(
                Seq::<char>::empty(),
            )) ==> preview_extension_spec(media, name_ext) == match mime_type {
                Some(m) => if m@ == "image/jpeg"@ {
                    "jpg"@
                } else if m@ == "image/png"@ {
                    "png"@
                } else if m@ == "video/mp4"@ {
                    "mp4"@
                } else {
                    "bin"@
                },
                None => "bin"@,
            },
            _ => true,
        },
{
}

/// The MIME types of preview images: `image/png`, `image/gif`,
/// `image/webp`, `image/bmp` and `image/svg+xml` for those extensions (in
/// lower case), and `image/jpeg` for any other.
pub proof fn law_preview_mime_types(lower_ext: Seq<char>)
    ensures
        preview_mime_spec("png"@) == "image/png"@,
        preview_mime_spec("gif"@) == "image/gif"@,
        preview_mime_spec("webp"@) == "image/webp"@,
        preview_mime_spec("bmp"@) == "image/bmp"@,
        preview_mime_spec("svg"@) == "image/svg+xml"@,
        lower_ext != "png"@ && lower_ext != "gif"@ && lower_ext != "webp"@ && lower_ext != "bmp"@
            && lower_ext != "svg"@ ==> preview_mime_spec(lower_ext) == "image/jpeg"@,
{
    reveal_strlit("png");
    reveal_strlit("gif");
    reveal_strlit("webp");
    reveal_strlit("bmp");
    reveal_strlit("svg");
    assert("gif"@[0] != "png"@[0]);
    assert("webp"@.len() != "png"@.len() && "webp"@.len() != "gif"@.len());
    assert("bmp"@[0] != "png"@[0] && "bmp"@[0] != "gif"@[0]);
    assert("svg"@[0] != "png"@[0] && "svg"@[0] != "gif"@[0] && "svg"@[0] != "bmp"@[0]);
}

/// The MIME types of thumbnails: `image/png`, `image/gif` and `image/webp`
/// for those extensions, and `image/jpeg` for any other.
pub proof fn law_thumbnail_mime_types(ext: Seq<char>)
    ensures
        thumbnail_mime_spec("png"@) == "image/png"@,
        thumbnail_mime_spec("gif"@) == "image/gif"@,
        thumbnail_mime_spec("webp"@) == "image/webp"@,
        ext != "png"@ && ext != "gif"@ && ext != "webp"@ ==> thumbnail_mime_spec(ext)
            == "image/jpeg"@,
{
    reveal_strlit("png");
    reveal_strlit("gif");
    reveal_strlit("webp");
    assert("gif"@[0] != "png"@[0]);
    assert("webp"@.len() != "png"@.len() && "webp"@.len() != "gif"@.len());
}

/// The MIME type of an inline preview image, by lower-case extension.
pub open spec fn preview_mime_spec(lower_ext: Seq<char>) -> Seq<char> {
    if lower_ext == "png"@ {
        "image/png"@
    } else if lower_ext == "gif"@ {
        "image/gif"@
    } else if lower_ext == "webp"@ {
        "image/webp"@
    } else if lower_ext == "bmp"@ {
        "image/bmp"@
    } else if lower_ext == "svg"@ {
        "image/svg+xml"@
    } else {
        "image/jpeg"@
    }
}

/// The MIME type of an inline preview image (the extension in lower case).
pub fn preview_mime(ext: &str) -> (res: String)
    ensures
        res@ == preview_mime_spec(lowercase(ext@)),
{
    let l = to_lowercase(ext);
    if l.eq(&String::from_str("png")) {
        String::from_str("image/png")
    } else if l.eq(&String::from_str("gif")) {
        String::from_str("image/gif")
    } else if l.eq(&String::from_str("webp")) {
        String::from_str("image/webp")
    } else if l.eq(&String::from_str("bmp")) {
        String::from_str("image/bmp")
    } else if l.eq(&String::from_str("svg")) {
        String::from_str("image/svg+xml")
    } else {
        String::from_str("image/jpeg")
    }
}

/// The MIME type of a thumbnail, by extension.
pub open spec fn thumbnail_mime_spec(ext: Seq<char>) -> Seq<char> {
    if ext == "png"@ {
        "image/png"@
    } else if ext == "gif"@ {
        "image/gif"@
    } else if ext == "webp"@ {
        "image/webp"@
    } else {
        "image/jpeg"@
    }
}

/// The MIME type of a thumbnail, by extension.
pub fn thumbnail_mime(ext: &str) -> (res: String)
    ensures
        res@ == thumbnail_mime_spec(ext@),
{
    let e = String::from_str(ext);
    if e.eq(&String::from_str("png")) {
        String::from_str("image/png")
    } else if e.eq(&String::from_str("gif")) {
        String::from_str("image/gif")
    } else if e.eq(&String::from_str("webp")) {
        String::from_str("image/webp")
    } else {
        String::from_str("image/jpeg")
    }
}

/// The extension a thumbnail is cached under, or `None` when the media is
/// not an image: `jpg` for a photo; for a document with an `image/` MIME
/// type, `png`, `gif` or `webp` for those types and `jpg` otherwise.
pub open spec fn thumbnail_extension_spec(media: MediaInfo) -> Option<Seq<char>> {
    match media {
        MediaInfo::Photo => Some("jpg"@),
        MediaInfo::Document { mime_type, .. } => {
            let m = match opt_view(mime_type) {
                Some(m) => m,
                None => Seq::empty(),
            };
            if matches_at(m, "image/"@, 0) {
                if m == "image/png"@ {
                    Some("png"@)
                } else if m == "image/gif"@ {
                    Some("gif"@)
                } else if m == "image/webp"@ {
                    Some("webp"@)
                } else {
                    Some("jpg"@)
                }
            } else {
                None
            }
        },
        MediaInfo::Other => None,
    }
}

/// The extension a thumbnail is cached under, or `None` when the media is
/// not an image.
pub fn thumbnail_extension(media: &MediaInfo) -> (res: Option<String>)
    ensures
        opt_view(res) == thumbnail_extension_spec(*media),
        *media is Photo ==> opt_view(res) == Some("jpg"@),
        *media is Other ==> res is None,
        media matches MediaInfo::Document { mime_type, .. } ==> match mime_type {
            Some(m) => {
                &&& res is Some <==> matches_at(m@, "image/"@, 0)
                &&& m@ == "image/png"@ ==> opt_view(res) == Some("png"@)
                &&& m@ == "image/gif"@ ==> opt_view(res) == Some("gif"@)
                &&& m@ == "image/webp"@ ==> opt_view(res) == Some("webp"@)
                &&& matches_at(m@, "image/"@, 0) && m@ != "image/png"@ && m@ != "image/gif"@ && m@
                    != "image/webp"@ ==> opt_view(res) == Some("jpg"@)
            },
            None => res is None,
        },
{
    match media {
        MediaInfo::Photo => Some(String::from_str("jpg")),
        MediaInfo::Document { mime_type, .. } => {
            proof {
                lemma_image_types_start_with_image();
                reveal_strlit("image/");
            }
            let m = match mime_type {
                Some(m) => m.clone(),
                None => String::new(),
            };
            let mv = chars_of(m.as_str());
            let prefix = chars_of("image/");
            if matches_at_exec(&mv, &prefix, 0) {
                if m.eq(&String::from_str("image/png")) {
                    Some(String::from_str("png"))
                } else if m.eq(&String::from_str("image/gif")) {
                    Some(String::from_str("gif"))
                } else if m.eq(&String::from_str("image/webp")) {
                    Some(String::from_str("webp"))
                } else {
                    Some(String::from_str("jpg"))
                }
            } else {
                None
            }
        },
        MediaInfo::Other => None,
    }
}

/// The MIME type of a cached thumbnail file of message `message_id`, if the
/// file name is that id followed by a dot.
pub fn cached_thumbnail_mime(file_name: &str, message_id: i32) -> (res: Option<String>)
    ensures
        res is Some <==> matches_at(file_name@, int_decimal(message_id as int) + "."@, 0),
        res matches Some(m) ==> m@ == thumbnail_mime_spec(after_last_dot(file_name@)),
{
    proof {
        reveal_strlit("");
    }
    let prefix = cache_file_name(message_id, "");
    let fv = chars_of(file_name);
    let pv = chars_of(prefix.as_str());
    assert(pv@ =~= int_decimal(message_id as int) + "."@);
    if matches_at_exec(&fv, &pv, 0) {
        let ext = after_last_dot_str(file_name);
        Some(thumbnail_mime(ext.as_str()))
    } else {
        None
    }
}

/// The base64 digit for a six-bit value (RFC 4648 standard alphabet).
pub open spec fn base64_digit(v: int) -> char {
    if v < 26 {
        (65 + v) as char
    } else if v < 52 {
        (97 + v - 26) as char
    } else if v < 62 {
        (48 + v - 52) as char
    } else if v == 62 {
        '+'
    } else {
        '/'
    }
}

/// Standard base64 with padding (RFC 4648, section 4): each group of three
/// bytes becomes four digits; a last group of one or two bytes becomes two
/// or three digits followed by `=` padding.
pub open spec fn base64_standard(bytes: Seq<u8>) -> Seq<char>
    decreases bytes.len(),
{
    if bytes.len() == 0 {
        Seq::empty()
    } else if bytes.len() == 1 {
        let n = bytes[0] as int * 65536;
        seq![base64_digit(n / 262144), base64_digit((n / 4096) % 64), '=', '=']
    } else if bytes.len() == 2 {
        let n = bytes[0] as int * 65536 + bytes[1] as int * 256;
        seq![
            base64_digit(n / 262144),
            base64_digit((n / 4096) % 64),
            base64_digit((n / 64) % 64),
            '=',
        ]
    } else {
        let n = bytes[0] as int * 65536 + bytes[1] as int * 256 + bytes[2] as int;
        seq![
            base64_digit(n / 262144),
            base64_digit((n / 4096) % 64),
            base64_digit((n / 64) % 64),
            base64_digit(n % 64),
        ] + base64_standard(bytes.skip(3))
    }
}

/// Standard base64 (with padding) of some bytes, by the `base64` crate's
/// `STANDARD` engine (standard alphabet, padded).
#[verifier::external_body]
fn base64_encode(bytes: &[u8]) -> (res: String)
    ensures
        res@ == base64_standard(bytes@),
{
    base64::engine::general_purpose::STANDARD.encode(bytes)
}

/// A `data:` URL holding some bytes of the given MIME type.
pub fn data_url(mime: &str, bytes: &[u8]) -> (res: String)
    ensures
        res@ == "data:"@ + mime@ + ";base64,"@ + base64_standard(bytes@),
{
    let mut s = String::from_str("data:");
    s.append(mime);
    s.append(";base64,");
    let b = base64_encode(bytes);
    s.append(b.as_str());
    s
}


/// The answer to a preview request once the cached copy at `path` is known
/// to be there (`ready`) or not. An image (by extension, in lower case) is
/// sent inline as a data URL when its bytes could be read (`bytes`); any
/// other ready file, or an image that could not be read, is sent as its path.
pub fn preview_answer(ready: bool, path: String, ext: &str, bytes: Option<Vec<u8>>) -> (res: Result<
    String,
    Failure,
>)
    ensures
        !ready ==> (res matches Err(f) && f.status == Status::InternalServerError && f.message@
            == "File not found or failed to download"@),
        ready && !is_inline_image_spec(lowercase(ext@)) ==> (res matches Ok(p) && p@ == path@),
        ready && is_inline_image_spec(lowercase(ext@)) ==> match bytes {
            Some(b) => res matches Ok(u) && u@ == "data:"@ + preview_mime_spec(lowercase(ext@))
                + ";base64,"@ + base64_standard(b@),
            None => res matches Ok(p) && p@ == path@,
        },
{
    if !ready {
        return Err(failure_text(Status::InternalServerError, "File not found or failed to download"));
    }
    if is_inline_image(ext) {
        match bytes {
            Some(b) => {
                let mime = preview_mime(ext);
                Ok(data_url(mime.as_str(), b.as_slice()))
            },
            None => Ok(path),
        }
    } else {
        Ok(path)
    }
}

/// The answer to a thumbnail request for an image cached with extension
/// `ext`: a data URL when its bytes could be read, else an empty answer.
pub fn thumbnail_answer(ext: &str, bytes: Option<Vec<u8>>) -> (res: String)
    ensures
        match bytes {
            Some(b) => res@ == "data:"@ + thumbnail_mime_spec(ext@) + ";base64,"@ + base64_standard(
                b@,
            ),
            None => res@ == Seq::<char>::empty(),
        },
{
    match bytes {
        Some(b) => {
            let mime = thumbnail_mime(ext);
            data_url(mime.as_str(), b.as_slice())
        },
        None => String::new(),
    }
}

} // verus!
