use telegram_drive::auth::{
    client_init_next, client_init_start, ClientInit, ClientInitEvent, ClientInitStep,
    check_password_precheck, check_password_reply, check_request_code, clean_proxy_url,
    connect_reply, connection_next, connection_start, sign_in_precheck, sign_in_reply,
    AuthRequestCodePayload, CodeRequestRetry, ConnectionCheck, ConnectionEvent, ConnectionStep,
    SetProxyPayload, SignInOutcome,
};
use telegram_drive::fs::{
    created_channel, extract_file, file_from_media, folder_about, folder_channel,
    folder_display_name, folder_from_about, folder_title, is_same_folder, media_file_record,
    message_date_text, mock_folder, mock_folder_id_from, scan_dialog, search_results, transfer_size, ChannelCreation, ChatInfo,
    DocAttribute, MediaInfo, MoveFilesPayload, RawDocument, RawMedia, RawMessage,
    RawMessageEntry, RawPeer, ScanDecision, SearchResponse,
};
use telegram_drive::listing::{page_bounds, FilePager, GetFilesParams};
use telegram_drive::transfer::{
    download_next, download_start, transfer_retry_next, transfer_retry_start, upload_next,
    upload_start, Download, DownloadEvent, DownloadStep, RetryStep, TransferRetry, Upload,
    UploadEvent, UploadStep,
};
use telegram_drive::models::{FileMetadata, FilePage, Status};
use telegram_drive::preview::{
    cache_file_name, preview_answer, thumbnail_answer, cached_thumbnail_mime, data_url, is_inline_image,
    preview_extension, preview_extension_with, preview_mime, thumbnail_extension, thumbnail_mime,
};
use telegram_drive::text::{after_last_dot_str, chars_of, i64_to_string, is_blank_str, parse_i64, replace_all, trim};
use telegram_drive::viewer::{
    find_cached_thumbnail, preview_next, preview_start, thumbnail_next, thumbnail_start, Preview, PreviewEvent,
    PreviewStep, Thumbnail, ThumbnailEvent, ThumbnailStep,
};
use telegram_drive::utils::{data_dir, folder_not_found, map_error, peer_key, PeerCache, PeerInfo};

fn s(x: &str) -> String {
    x.to_string()
}

fn doc(name: &str, size: i64, mime: Option<&str>) -> MediaInfo {
    MediaInfo::Document { name: s(name), size, mime_type: mime.map(s) }
}

// ---------------------------------------------------------------- errors

#[test]
fn map_error_reads_flood_wait_seconds() {
    assert_eq!(map_error("RPC error 420: FLOOD_WAIT (caused by upload) (value: 35)"), "FLOOD_WAIT_35");
    assert_eq!(map_error("FLOOD_WAIT (value: -5)"), "FLOOD_WAIT_-5");
    assert_eq!(map_error("FLOOD_WAIT (value: +7)"), "FLOOD_WAIT_7");
}

#[test]
fn map_error_defaults_to_sixty_seconds() {
    assert_eq!(map_error("FLOOD_WAIT"), "FLOOD_WAIT_60");
    assert_eq!(map_error("FLOOD_WAIT (value: abc)"), "FLOOD_WAIT_60");
    assert_eq!(map_error("FLOOD_WAIT (value: 12"), "FLOOD_WAIT_60");
    assert_eq!(map_error("FLOOD_WAIT (value: 99999999999999999999)"), "FLOOD_WAIT_60");
    assert_eq!(map_error("FLOOD_WAIT (value: )"), "FLOOD_WAIT_60");
}

#[test]
fn map_error_passes_other_errors_through() {
    assert_eq!(map_error("connection reset (value: 3)"), "connection reset (value: 3)");
    assert_eq!(map_error(""), "");
    assert_eq!(map_error("flood_wait (value: 3)"), "flood_wait (value: 3)");
}

// ---------------------------------------------------------------- text

#[test]
fn trim_and_blank_follow_unicode_white_space() {
    assert_eq!(trim("  a b \t\n"), "a b");
    assert_eq!(trim("\u{3000}x\u{a0}"), "x");
    assert_eq!(trim("   "), "");
    assert!(is_blank_str(" \t\u{2003}"));
    assert!(is_blank_str(""));
    assert!(!is_blank_str(" . "));
}

#[test]
fn replace_is_left_to_right_without_overlap() {
    let out = replace_all(&chars_of("aaaa"), &chars_of("aa"), &chars_of("b"));
    assert_eq!(out, chars_of("bb"));
    let out = replace_all(&chars_of("abcabc"), &chars_of("ca"), &chars_of(""));
    assert_eq!(out, chars_of("abbc"));
}

#[test]
fn integers_print_and_parse_like_std() {
    assert_eq!(i64_to_string(0), "0");
    assert_eq!(i64_to_string(-120), "-120");
    assert_eq!(i64_to_string(i64::MIN), i64::MIN.to_string());
    assert_eq!(i64_to_string(i64::MAX), i64::MAX.to_string());
    for t in ["0", "+5", "-5", "007", "9223372036854775807", "-9223372036854775808",
              "9223372036854775808", "-", "+", "", " 1", "1_0", "12a", "--1"] {
        assert_eq!(parse_i64(&chars_of(t)), t.parse::<i64>().ok(), "input {:?}", t);
    }
}

// ---------------------------------------------------------------- auth

#[test]
fn blank_proxy_clears_it() {
    assert_eq!(clean_proxy_url(SetProxyPayload { proxy_url: Some(s("  \t")) }), None);
    assert_eq!(clean_proxy_url(SetProxyPayload { proxy_url: None }), None);
    assert_eq!(
        clean_proxy_url(SetProxyPayload { proxy_url: Some(s(" socks5://h:1080")) }),
        Some(s(" socks5://h:1080"))
    );
}

#[test]
fn code_request_needs_an_api_hash() {
    let p = AuthRequestCodePayload { phone: s("+100"), api_id: 1, api_hash: s("   ") };
    let f = check_request_code(&p).unwrap_err();
    assert_eq!(f.status, Status::BadRequest);
    assert_eq!(f.status.code(), 400);
    assert_eq!(f.message, "API Hash cannot be empty.");
    let p = AuthRequestCodePayload { phone: s("+100"), api_id: 1, api_hash: s("abc") };
    assert!(check_request_code(&p).is_ok());
}

#[test]
fn code_request_retries_restart_errors_once() {
    let mut r = CodeRequestRetry::new();
    assert_eq!(r.attempt(), 1);
    assert!(r.on_error("AUTH_RESTART").is_none());
    assert_eq!(r.attempt(), 2);
    let f = r.on_error("RPC 500 internal").unwrap();
    assert_eq!(f.status, Status::InternalServerError);
    assert_eq!(f.message, "Telegram Error after retry: RPC 500 internal");
}

#[test]
fn code_request_stops_on_other_errors() {
    let mut r = CodeRequestRetry::new();
    let f = r.on_error("FLOOD_WAIT (value: 9)").unwrap();
    assert_eq!(f.message, "FLOOD_WAIT_9");
    assert_eq!(f.status.code(), 500);
    assert_eq!(r.attempt(), 1);
}

#[test]
fn sign_in_answers() {
    let ok = sign_in_reply(SignInOutcome::SignedIn).unwrap();
    assert!(ok.success);
    assert_eq!(ok.next_step, Some(s("dashboard")));
    assert_eq!(ok.error, None);
    let pw = sign_in_reply(SignInOutcome::PasswordRequired).unwrap();
    assert!(!pw.success);
    assert_eq!(pw.next_step, Some(s("password")));
    let f = sign_in_reply(SignInOutcome::Failed(s("PHONE_CODE_INVALID"))).unwrap_err();
    assert_eq!(f.message, "Sign in failed: PHONE_CODE_INVALID");
    assert_eq!(f.status, Status::InternalServerError);
}

#[test]
fn sign_in_and_password_prechecks() {
    assert_eq!(sign_in_precheck(false, true).unwrap_err().message, "Client not initialized");
    assert_eq!(
        sign_in_precheck(true, false).unwrap_err().message,
        "No login session found (restart flow)"
    );
    assert!(sign_in_precheck(true, true).is_ok());
    assert_eq!(check_password_precheck(false, false).unwrap_err().message, "Client not initialized");
    assert_eq!(
        check_password_precheck(true, false).unwrap_err().message,
        "No password session found"
    );
    assert!(check_password_precheck(true, true).is_ok());
    assert!(check_password_reply(Ok(())).unwrap().success);
    let f = check_password_reply(Err(s("PASSWORD_HASH_INVALID"))).unwrap_err();
    assert_eq!(f.message, "2FA Failed: PASSWORD_HASH_INVALID");
}

#[test]
fn connect_answers() {
    assert_eq!(connect_reply(Ok(())).unwrap(), true);
    let f = connect_reply(Err(s("disk full"))).unwrap_err();
    assert_eq!(f.message, "disk full");
    assert_eq!(f.status.code(), 500);
}

fn reply_of(step: &ConnectionStep) -> Option<Result<bool, String>> {
    match step {
        ConnectionStep::Reply(Ok(b)) => Some(Ok(*b)),
        ConnectionStep::Reply(Err(f)) => Some(Err(f.message.clone())),
        _ => None,
    }
}

#[test]
fn connection_check_pings_twice_then_reconnects() {
    let (st, step) = connection_start(true);
    assert!(matches!(step, ConnectionStep::Ping));
    let (st, step) = connection_next(st, ConnectionEvent::Ping(false));
    assert!(matches!(step, ConnectionStep::WaitThenPing { seconds: 3 }));
    let (st, step) = connection_next(st, ConnectionEvent::Ping(false));
    assert!(matches!(step, ConnectionStep::ReadSavedApiId));
    let (st, step) = connection_next(st, ConnectionEvent::SavedApiId(Some(77)));
    assert!(matches!(step, ConnectionStep::Reconnect { api_id: 77 }));
    let (st, step) = connection_next(st, ConnectionEvent::Reconnected(Ok(())));
    assert!(matches!(step, ConnectionStep::Ping));
    let (st, step) = connection_next(st, ConnectionEvent::Ping(true));
    assert_eq!(reply_of(&step), Some(Ok(true)));
    assert_eq!(st, ConnectionCheck::Finished);
}

#[test]
fn connection_check_failures() {
    let (st, _) = connection_start(false);
    let (_, step) = connection_next(st, ConnectionEvent::SavedApiId(None));
    assert_eq!(reply_of(&step), Some(Ok(false)));

    let (st, _) = connection_start(false);
    let (st, _) = connection_next(st, ConnectionEvent::SavedApiId(Some(1)));
    let (_, step) = connection_next(st, ConnectionEvent::Reconnected(Err(s("bad session"))));
    assert_eq!(reply_of(&step), Some(Err(s("Auto-reconnect failed: bad session"))));

    let (st, _) = connection_start(false);
    let (st, _) = connection_next(st, ConnectionEvent::SavedApiId(Some(1)));
    let (st, _) = connection_next(st, ConnectionEvent::Reconnected(Ok(())));
    let (_, step) = connection_next(st, ConnectionEvent::Ping(false));
    assert_eq!(reply_of(&step), Some(Err(s("Reconnect succeeded but ping failed."))));

    let (st, _) = connection_start(true);
    let (_, step) = connection_next(st, ConnectionEvent::Ping(true));
    assert_eq!(reply_of(&step), Some(Ok(true)));
}

// ---------------------------------------------------------------- peers

#[test]
fn peer_cache_read_after_write() {
    let mut c: PeerCache<String> = PeerCache::new();
    assert!(c.is_empty());
    let chan = PeerInfo::Channel { id: -1001, access_hash: Some(9), title: s("A [TD]") };
    let key = peer_key(&chan);
    assert_eq!(key, Some(-1001));
    assert!(!c.record_dialog(key, s("peer-a"), 5));
    assert!(c.record_dialog(peer_key(&PeerInfo::User { id: 5 }), s("me"), 5));
    assert!(!c.record_dialog(peer_key(&PeerInfo::Group), s("group"), 5));
    assert_eq!(c.get(-1001), Some(&s("peer-a")));
    assert_eq!(c.get(5), Some(&s("me")));
    assert!(!c.is_empty());
    c.remove(-1001);
    assert_eq!(c.get(-1001), None);
    c.insert(5, s("me2"));
    assert_eq!(c.get(5), Some(&s("me2")));
    c.clear();
    assert!(c.is_empty());
    assert_eq!(c.get(5), None);
}

#[test]
fn folder_not_found_message() {
    assert_eq!(folder_not_found(-100123), "Folder/Chat -100123 not found");
    assert_eq!(data_dir(None, true, Some(s("/home/u/.local/share/telegram-drive"))), "/app/data");
    assert_eq!(
        data_dir(None, false, Some(s("/home/u/.local/share/telegram-drive"))),
        "/home/u/.local/share/telegram-drive"
    );
    assert_eq!(data_dir(None, false, None), "/app/data");
    assert_eq!(data_dir(Some(s("/srv/drive")), true, Some(s("/x"))), "/srv/drive");
}

// ---------------------------------------------------------------- folders

#[test]
fn folder_titles_round_trip() {
    assert_eq!(folder_title("Work"), "Work [TD]");
    assert_eq!(folder_display_name(&folder_title("  Work ")), "Work");
    assert_eq!(folder_display_name(&folder_title("")), "");
    assert_eq!(folder_display_name(" My [td]stuff [TD] "), "Mystuff");
    assert_eq!(folder_display_name("DOCS [Td]"), "DOCS [Td]");
    assert_eq!(folder_about(), "Telegram Drive Storage Folder\n[telegram-drive-folder]");
}

#[test]
fn created_channel_answers() {
    let ok = ChannelCreation::Updates { first_chat: Some(ChatInfo::Channel { id: 42, access_hash: None }) };
    assert_eq!(created_channel(&ok).unwrap(), (42, 0));
    let ok = ChannelCreation::Updates { first_chat: Some(ChatInfo::Channel { id: 42, access_hash: Some(-3) }) };
    assert_eq!(created_channel(&ok).unwrap(), (42, -3));
    let f = created_channel(&ChannelCreation::Updates { first_chat: Some(ChatInfo::Other) }).unwrap_err();
    assert_eq!((f.status, f.message.as_str()), (Status::BadRequest, "Created chat is not a channel"));
    let f = created_channel(&ChannelCreation::Updates { first_chat: None }).unwrap_err();
    assert_eq!((f.status, f.message.as_str()), (Status::InternalServerError, "No chat in updates"));
    let f = created_channel(&ChannelCreation::Other).unwrap_err();
    assert_eq!(f.message, "Unexpected response (not Updates::Updates)");
}

#[test]
fn only_channels_with_hash_are_deleted() {
    let c = PeerInfo::Channel { id: 7, access_hash: Some(11), title: s("x") };
    assert_eq!(folder_channel(&c).unwrap(), (7, 11));
    let c = PeerInfo::Channel { id: 7, access_hash: None, title: s("x") };
    assert_eq!(folder_channel(&c).unwrap_err().message, "No access hash for channel");
    let f = folder_channel(&PeerInfo::User { id: 1 }).unwrap_err();
    assert_eq!((f.status, f.message.as_str()), (Status::BadRequest, "Only channels (folders) can be deleted."));
}

#[test]
fn moves_within_a_folder_are_noops() {
    let p = MoveFilesPayload { message_ids: vec![1, 2], source_folder_id: Some(3), target_folder_id: Some(3) };
    assert!(is_same_folder(&p));
    let p = MoveFilesPayload { message_ids: vec![1], source_folder_id: None, target_folder_id: Some(3) };
    assert!(!is_same_folder(&p));
    let p = MoveFilesPayload { message_ids: vec![], source_folder_id: None, target_folder_id: None };
    assert!(is_same_folder(&p));
}

#[test]
fn mock_folders_keep_their_name() {
    let f = mock_folder(s("Offline")).expect("the clock is past the epoch");
    assert_eq!(f.name, "Offline");
    assert_eq!(f.parent_id, None);
    assert!(f.id > 1_600_000_000);
}

#[test]
fn scan_recognises_tagged_titles() {
    let c = PeerInfo::Channel { id: 1, access_hash: Some(2), title: s("Photos [TD]") };
    match scan_dialog(&c) {
        ScanDecision::Folder(f) => {
            assert_eq!(f.id, 1);
            assert_eq!(f.name, "Photos");
            assert_eq!(f.parent_id, None);
        }
        _ => panic!("expected a folder"),
    }
    let c = PeerInfo::Channel { id: 1, access_hash: None, title: s("Notes [Td]") };
    match scan_dialog(&c) {
        ScanDecision::Folder(f) => assert_eq!(f.name, "Notes [Td]"),
        _ => panic!("expected a folder"),
    }
    let c = PeerInfo::Channel { id: 4, access_hash: None, title: s("News") };
    assert!(matches!(scan_dialog(&c), ScanDecision::CheckAbout { channel_id: 4, access_hash: 0 }));
    assert!(matches!(scan_dialog(&PeerInfo::User { id: 4 }), ScanDecision::Skip));
    assert!(matches!(scan_dialog(&PeerInfo::Group), ScanDecision::Skip));
}

#[test]
fn description_marker_makes_a_folder() {
    let f = folder_from_about(9, "Old one", "Telegram Drive Storage Folder\n[telegram-drive-folder]").unwrap();
    assert_eq!((f.id, f.name.as_str()), (9, "Old one"));
    assert!(folder_from_about(9, "x", "just a channel").is_none());
}

// ---------------------------------------------------------------- files

#[test]
fn transfer_sizes() {
    assert_eq!(transfer_size(&doc("a.bin", 123, None)), 123);
    assert_eq!(transfer_size(&doc("a.bin", -1, None)), u64::MAX);
    assert_eq!(transfer_size(&MediaInfo::Photo), 1024 * 1024);
    assert_eq!(transfer_size(&MediaInfo::Other), 0);
}

#[test]
fn file_records_of_media() {
    let f = file_from_media(15, Some(-100), &doc("report.final.pdf", 2048, Some("application/pdf")), 1704067200);
    assert_eq!(f.id, 15);
    assert_eq!(f.folder_id, Some(-100));
    assert_eq!(f.name, "report.final.pdf");
    assert_eq!(f.size, 2048);
    assert_eq!(f.mime_type, Some(s("application/pdf")));
    assert_eq!(f.file_ext, Some(s("pdf")));
    assert_eq!(f.created_at, "2024-01-01T00:00:00Z");
    assert_eq!(f.icon_type, "file");
    let f = file_from_media(3, None, &doc("README", 1, None), 0);
    assert_eq!(f.file_ext, None);
    assert_eq!(f.created_at, "1970-01-01T00:00:00Z");
    let f = file_from_media(3, None, &MediaInfo::Photo, 0);
    assert_eq!((f.name.as_str(), f.size, f.mime_type.as_deref(), f.file_ext.as_deref()), ("Photo.jpg", 0, Some("image/jpeg"), Some("jpg")));
    let f = file_from_media(3, None, &MediaInfo::Other, 0);
    assert_eq!((f.name.as_str(), f.mime_type, f.file_ext), ("Unknown", None, None));
    let f = media_file_record(1, None, &doc("a.b", 1, None), s("d"), Some(s("zz")));
    assert_eq!(f.file_ext, Some(s("zz")));
}

fn raw(id: i32, attrs: Vec<DocAttribute>, media: bool) -> RawMessage {
    RawMessage {
        id,
        date: 1700000000,
        peer: RawPeer::Channel(-100555),
        media: if media {
            Some(RawMedia::Document(Some(RawDocument { attributes: attrs, size: 10, mime_type: s("text/plain") })))
        } else {
            Some(RawMedia::Other)
        },
    }
}

#[test]
fn search_hits_become_file_records() {
    let m = raw(4, vec![DocAttribute::Other, DocAttribute::Filename(s("notes.txt")), DocAttribute::Filename(s("x.md"))], true);
    let f = extract_file(&m).unwrap();
    assert_eq!(f.id, 4);
    assert_eq!(f.name, "notes.txt");
    assert_eq!(f.file_ext, Some(s("txt")));
    assert_eq!(f.folder_id, Some(-100555));
    assert_eq!(f.created_at, "1700000000");
    assert_eq!(f.mime_type, Some(s("text/plain")));
    let nameless = extract_file(&raw(5, vec![], true)).unwrap();
    assert_eq!(nameless.name, "Unknown");
    assert_eq!(nameless.file_ext, None);
    assert!(extract_file(&raw(6, vec![], false)).is_none());
    let empty_doc = RawMessage { id: 1, date: 0, peer: RawPeer::User(1), media: Some(RawMedia::Document(None)) };
    assert!(extract_file(&empty_doc).is_none());

    let resp = SearchResponse::Slice(vec![
        RawMessageEntry::Message(raw(1, vec![DocAttribute::Filename(s("a.zip"))], true)),
        RawMessageEntry::Other,
        RawMessageEntry::Message(raw(2, vec![], false)),
        RawMessageEntry::Message(raw(3, vec![DocAttribute::Filename(s("b.tar.gz"))], true)),
    ]);
    let hits = search_results(resp);
    assert_eq!(hits.len(), 2);
    assert_eq!((hits[0].id, hits[0].name.as_str()), (1, "a.zip"));
    assert_eq!((hits[1].id, hits[1].file_ext.as_deref()), (3, Some("gz")));
    assert!(search_results(SearchResponse::Other).is_empty());
}

// ---------------------------------------------------------------- listing

fn file(id: i64) -> FileMetadata {
    FileMetadata {
        id,
        folder_id: None,
        name: format!("f{}", id),
        size: 1,
        mime_type: None,
        file_ext: None,
        created_at: s("t"),
        icon_type: s("file"),
    }
}

/// Runs a pager over a history (`true` = a message with media), as the
/// listing handler does.
fn run_pager(history: &[bool], offset: i32, limit: i32) -> FilePage {
    let mut p = FilePager::new(offset, limit);
    let mut next = 0usize;
    while !p.is_done() {
        let ev = if next < history.len() {
            Some(if history[next] { Some(file(next as i64)) } else { None })
        } else {
            None
        };
        next += 1;
        p.feed(ev);
    }
    p.finish()
}

fn ids(p: &FilePage) -> Vec<i64> {
    p.files.iter().map(|f| f.id).collect()
}

#[test]
fn page_bounds_defaults_and_cap() {
    assert_eq!(page_bounds(&GetFilesParams { folder_id: None, offset: None, limit: None }), (0, 50));
    assert_eq!(page_bounds(&GetFilesParams { folder_id: None, offset: Some(7), limit: Some(1000) }), (7, 500));
    assert_eq!(page_bounds(&GetFilesParams { folder_id: None, offset: Some(-2), limit: Some(-3) }), (-2, -3));
}

#[test]
fn pages_cover_the_history_without_gaps() {
    let h = [true, false, true, true, false, false, true];
    let p1 = run_pager(&h, 0, 2);
    assert_eq!(ids(&p1), vec![0, 2]);
    assert!(p1.has_more);
    assert_eq!(p1.next_offset, 3);
    assert_eq!(p1.total_fetched, 2);
    let p2 = run_pager(&h, p1.next_offset, 2);
    assert_eq!(ids(&p2), vec![3, 6]);
    assert!(p2.has_more);
    assert_eq!(p2.next_offset, 7);
    let p3 = run_pager(&h, p2.next_offset, 2);
    assert!(p3.files.is_empty());
    assert!(!p3.has_more);
    assert_eq!(p3.next_offset, 7);
}

#[test]
fn page_edge_cases() {
    let h = [true, true];
    let past = run_pager(&h, 5, 3);
    assert!(past.files.is_empty());
    assert!(!past.has_more);
    assert_eq!(past.next_offset, 5);
    let short = run_pager(&h, 1, 3);
    assert_eq!(ids(&short), vec![1]);
    assert!(!short.has_more);
    assert_eq!(short.next_offset, 2);
    let none = run_pager(&h, 0, 0);
    assert!(none.files.is_empty());
    assert!(none.has_more);
    assert_eq!(none.next_offset, 0);
    let neg = run_pager(&h, -4, 1);
    assert_eq!(ids(&neg), vec![0]);
    assert_eq!(neg.next_offset, -3);
}

// ---------------------------------------------------------------- previews

#[test]
fn preview_extensions() {
    assert_eq!(preview_extension(&doc("clip", 1, Some("video/mp4"))), "mp4");
    assert_eq!(preview_extension(&doc("scan", 1, Some("image/jpeg"))), "jpg");
    assert_eq!(preview_extension(&doc("pic", 1, Some("image/png"))), "png");
    assert_eq!(preview_extension(&doc("blob", 1, Some("text/plain"))), "bin");
    assert_eq!(preview_extension(&doc("blob", 1, None)), "bin");
    assert_eq!(preview_extension(&doc("a.PNG", 1, Some("video/mp4"))), "PNG");
    assert_eq!(preview_extension(&MediaInfo::Photo), "jpg");
    assert_eq!(preview_extension(&MediaInfo::Other), "bin");
    assert_eq!(preview_extension_with(&doc("x", 1, Some("image/png")), Some(s(""))), "png");
    assert_eq!(cache_file_name(-7, "jpg"), "-7.jpg");
}

#[test]
fn inline_images_and_their_mime() {
    assert!(is_inline_image("PNG"));
    assert!(is_inline_image("jpeg"));
    assert!(is_inline_image("Svg"));
    assert!(!is_inline_image("pdf"));
    assert!(!is_inline_image("mp4"));
    assert_eq!(preview_mime("SVG"), "image/svg+xml");
    assert_eq!(preview_mime("bmp"), "image/bmp");
    assert_eq!(preview_mime("jpeg"), "image/jpeg");
    assert_eq!(preview_mime("WebP"), "image/webp");
}

#[test]
fn thumbnails() {
    assert_eq!(thumbnail_extension(&MediaInfo::Photo), Some(s("jpg")));
    assert_eq!(thumbnail_extension(&doc("a", 1, Some("image/gif"))), Some(s("gif")));
    assert_eq!(thumbnail_extension(&doc("a", 1, Some("image/heic"))), Some(s("jpg")));
    assert_eq!(thumbnail_extension(&doc("a", 1, Some("video/mp4"))), None);
    assert_eq!(thumbnail_extension(&doc("a", 1, None)), None);
    assert_eq!(thumbnail_extension(&MediaInfo::Other), None);
    assert_eq!(thumbnail_mime("png"), "image/png");
    assert_eq!(thumbnail_mime("PNG"), "image/jpeg");
    assert_eq!(cached_thumbnail_mime("42.png", 42), Some(s("image/png")));
    assert_eq!(cached_thumbnail_mime("42.tar.webp", 42), Some(s("image/webp")));
    assert_eq!(cached_thumbnail_mime("420.png", 42), None);
    assert_eq!(cached_thumbnail_mime("42png", 42), None);
    assert_eq!(cached_thumbnail_mime("-3.gif", -3), Some(s("image/gif")));
    assert_eq!(after_last_dot_str("a.b.c"), "c");
    assert_eq!(after_last_dot_str("abc"), "abc");
    assert_eq!(after_last_dot_str("abc."), "");
}

#[test]
fn data_urls_use_standard_base64() {
    assert_eq!(data_url("image/png", b"hi"), "data:image/png;base64,aGk=");
    assert_eq!(data_url("image/jpeg", b""), "data:image/jpeg;base64,");
    assert_eq!(data_url("image/gif", &[0xff, 0xfe, 0xfd]), "data:image/gif;base64,//79");
}

#[test]
fn preview_answers() {
    let f = preview_answer(false, s("/c/1.png"), "png", None).unwrap_err();
    assert_eq!((f.status.code(), f.message.as_str()), (500, "File not found or failed to download"));
    assert_eq!(preview_answer(true, s("/c/1.pdf"), "pdf", Some(vec![1, 2])).unwrap(), "/c/1.pdf");
    assert_eq!(preview_answer(true, s("/c/1.PNG"), "PNG", None).unwrap(), "/c/1.PNG");
    assert_eq!(
        preview_answer(true, s("/c/1.PNG"), "PNG", Some(b"hi".to_vec())).unwrap(),
        "data:image/png;base64,aGk="
    );
    assert_eq!(thumbnail_answer("webp", Some(b"hi".to_vec())), "data:image/webp;base64,aGk=");
    assert_eq!(thumbnail_answer("jpg", None), "");
}

#[test]
fn client_init_reuses_or_recreates_the_session() {
    let (st, step) = client_init_start(true);
    assert!(matches!(step, ClientInitStep::UseExisting));
    assert_eq!(st, ClientInit::Finished);

    let (st, step) = client_init_start(false);
    assert!(matches!(step, ClientInitStep::StopOldRunner));
    let (st, step) = client_init_next(st, ClientInitEvent::OldRunnerSignalled(true));
    assert!(matches!(step, ClientInitStep::Pause { millis: 100 }));
    let (st, step) = client_init_next(st, ClientInitEvent::Paused);
    assert!(matches!(step, ClientInitStep::EnsureDataDir));
    let (st, step) = client_init_next(st, ClientInitEvent::DataDir(Ok(())));
    assert!(matches!(step, ClientInitStep::OpenSession));
    let (st, step) = client_init_next(st, ClientInitEvent::Session(Err(s("corrupt"))));
    assert!(matches!(step, ClientInitStep::RemoveSessionFiles));
    let (st, step) = client_init_next(st, ClientInitEvent::SessionRemoved);
    assert!(matches!(step, ClientInitStep::OpenSession));
    let (st, step) = client_init_next(st, ClientInitEvent::Session(Err(s("still bad"))));
    match step {
        ClientInitStep::Fail(m) => assert_eq!(m, "Failed to open session after recreation: still bad"),
        _ => panic!("expected a failure"),
    }
    assert_eq!(st, ClientInit::Finished);

    let (st, _) = client_init_start(false);
    let (st, step) = client_init_next(st, ClientInitEvent::OldRunnerSignalled(false));
    assert!(matches!(step, ClientInitStep::EnsureDataDir));
    let (_, step) = client_init_next(st, ClientInitEvent::DataDir(Err(s("denied"))));
    match step {
        ClientInitStep::Fail(m) => assert_eq!(m, "Failed to create app data dir: denied"),
        _ => panic!("expected a failure"),
    }

    let (st, _) = client_init_start(false);
    let (st, _) = client_init_next(st, ClientInitEvent::OldRunnerSignalled(false));
    let (st, _) = client_init_next(st, ClientInitEvent::DataDir(Ok(())));
    let (st, step) = client_init_next(st, ClientInitEvent::Session(Ok(())));
    assert!(matches!(step, ClientInitStep::StartClient));
    assert_eq!(st, ClientInit::Finished);
}

#[test]
fn mock_ids_read_the_clock() {
    assert_eq!(mock_folder_id_from(Some(1700000000)), Some(1700000000));
    assert_eq!(mock_folder_id_from(Some(0)), Some(0));
    assert_eq!(mock_folder_id_from(Some(u64::MAX)), Some(-1));
    assert_eq!(mock_folder_id_from(None), None);
}

#[test]
fn message_dates_in_utc() {
    assert_eq!(message_date_text(1704067200), "2024-01-01T00:00:00Z");
    assert_eq!(message_date_text(1123456789), "2005-08-07T23:19:49Z");
    assert_eq!(message_date_text(0), "1970-01-01T00:00:00Z");
    assert_eq!(message_date_text(-1), "1969-12-31T23:59:59Z");
    assert_eq!(message_date_text(i32::MAX), "2038-01-19T03:14:07Z");
    assert_eq!(message_date_text(i32::MIN), "1901-12-13T20:45:52Z");
}

#[test]
fn plain_names_keep_their_extension() {
    assert_eq!(preview_extension(&doc("report.pdf", 1, Some("application/pdf"))), "pdf");
    assert_eq!(preview_extension(&doc("a.", 1, Some("image/png"))), "png");
    let f = file_from_media(1, None, &doc("x.tar.gz", 1, None), 0);
    assert_eq!(f.file_ext, Some(s("gz")));
    assert_eq!(preview_extension(&doc(".bashrc", 1, None)), "bin");
    let f = file_from_media(1, None, &doc(".bashrc", 1, None), 0);
    assert_eq!(f.file_ext, None);
    let f = file_from_media(1, None, &doc(".tar.gz", 1, None), 0);
    assert_eq!(f.file_ext, Some(s("gz")));
    let f = file_from_media(1, None, &doc("..", 1, None), 0);
    assert_eq!(f.file_ext, None);
    let f = file_from_media(1, None, &doc("notes.", 1, None), 0);
    assert_eq!(f.file_ext, Some(s("")));
    assert_eq!(preview_extension(&doc(".tar.gz", 1, None)), "gz");
}

#[test]
fn created_folders_are_found_again_by_the_scan() {
    for name in ["Work", "My Photos 2024", "a.b [x]"] {
        let c = PeerInfo::Channel { id: 77, access_hash: Some(1), title: folder_title(name) };
        match scan_dialog(&c) {
            ScanDecision::Folder(f) => {
                assert_eq!(f.id, 77);
                assert_eq!(f.name, name);
                assert_eq!(f.parent_id, None);
            }
            _ => panic!("expected a folder for {:?}", name),
        }
    }
}

#[test]
fn transfer_retries_back_off() {
    let (st, step) = transfer_retry_start(2, 2000);
    assert!(matches!(step, RetryStep::Attempt));
    let (st, step) = transfer_retry_next(st, Err(s("timeout")));
    assert!(matches!(step, RetryStep::WaitThenAttempt { millis: 2000 }));
    assert_eq!(st, TransferRetry::Attempting { retries_left: 1, delay_ms: 4000 });
    let (st, step) = transfer_retry_next(st, Err(s("timeout")));
    assert!(matches!(step, RetryStep::WaitThenAttempt { millis: 4000 }));
    let (st, step) = transfer_retry_next(st, Err(s("broken pipe")));
    match step {
        RetryStep::GiveUp(e) => assert_eq!(e, "broken pipe"),
        _ => panic!("expected to give up"),
    }
    assert_eq!(st, TransferRetry::Finished);
    let (st, _) = transfer_retry_start(0, u64::MAX);
    let (_, step) = transfer_retry_next(st, Ok(()));
    assert!(matches!(step, RetryStep::Succeeded));
    let (st, _) = transfer_retry_start(1, u64::MAX);
    let (st, _) = transfer_retry_next(st, Err(s("x")));
    assert_eq!(st, TransferRetry::Attempting { retries_left: 0, delay_ms: u64::MAX });
}

fn done_reply(step: UploadStep) -> (Option<u64>, Result<String, (u16, String)>) {
    match step {
        UploadStep::Done { counted_up, reply } => (counted_up, reply.map_err(|f| (f.status.code(), f.message))),
        _ => panic!("expected the end of the upload"),
    }
}

#[test]
fn upload_sequence() {
    let (st, _) = upload_start();
    let (st, step) = upload_next(st, UploadEvent::Size(Ok(10)));
    assert!(matches!(step, UploadStep::CheckQuota { size: 10 }));
    let (st, step) = upload_next(st, UploadEvent::Quota(Ok(())));
    assert!(matches!(step, UploadStep::CheckClient));
    let (st, step) = upload_next(st, UploadEvent::Client(true));
    assert!(matches!(step, UploadStep::Upload));
    let (st, step) = upload_next(st, UploadEvent::Uploaded(Err(s("reset"))));
    assert!(matches!(step, UploadStep::WaitThenUpload { millis: 2000 }));
    let (st, step) = upload_next(st, UploadEvent::Uploaded(Ok(())));
    assert!(matches!(step, UploadStep::Resolve));
    let (st, step) = upload_next(st, UploadEvent::Resolved(Ok(())));
    assert!(matches!(step, UploadStep::Send));
    let (st, step) = upload_next(st, UploadEvent::Sent(Ok(())));
    assert_eq!(st, Upload::Finished);
    assert_eq!(done_reply(step), (Some(10), Ok(s("File uploaded successfully"))));

    let (st, _) = upload_start();
    let (_, step) = upload_next(st, UploadEvent::Size(Err(s("No such file"))));
    assert_eq!(done_reply(step), (None, Err((400, s("No such file")))));

    let (st, _) = upload_start();
    let (st, _) = upload_next(st, UploadEvent::Size(Ok(10)));
    let (_, step) = upload_next(st, UploadEvent::Quota(Err(s("limit reached"))));
    assert_eq!(done_reply(step), (None, Err((403, s("limit reached")))));

    let (st, _) = upload_start();
    let (st, _) = upload_next(st, UploadEvent::Size(Ok(7)));
    let (st, _) = upload_next(st, UploadEvent::Quota(Ok(())));
    let (_, step) = upload_next(st, UploadEvent::Client(false));
    assert_eq!(done_reply(step), (Some(7), Ok(s("Mock upload successful"))));

    let (st, _) = upload_start();
    let (st, _) = upload_next(st, UploadEvent::Size(Ok(7)));
    let (st, _) = upload_next(st, UploadEvent::Quota(Ok(())));
    let (mut st, _) = upload_next(st, UploadEvent::Client(true));
    for _ in 0..2 {
        let (next, step) = upload_next(st, UploadEvent::Uploaded(Err(s("FLOOD_WAIT (value: 5)"))));
        assert!(matches!(step, UploadStep::WaitThenUpload { .. }));
        st = next;
    }
    let (_, step) = upload_next(st, UploadEvent::Uploaded(Err(s("FLOOD_WAIT (value: 5)"))));
    assert_eq!(done_reply(step), (None, Err((500, s("FLOOD_WAIT_5")))));
}

fn download_reply(step: DownloadStep) -> (Option<u64>, Result<String, (u16, String)>) {
    match step {
        DownloadStep::Done { counted_down, reply } => {
            (counted_down, reply.map_err(|f| (f.status.code(), f.message)))
        }
        _ => panic!("expected the end of the download"),
    }
}

#[test]
fn download_sequence() {
    let (st, step) = download_start(true);
    assert!(matches!(step, DownloadStep::Resolve));
    let (st, step) = download_next(st, DownloadEvent::Resolved(Ok(())));
    assert!(matches!(step, DownloadStep::Fetch));
    let (st, step) = download_next(st, DownloadEvent::Fetched(Ok(Some(MediaInfo::Photo))));
    assert!(matches!(step, DownloadStep::CheckQuota { size: 1048576 }));
    let (st, step) = download_next(st, DownloadEvent::Quota(Ok(())));
    assert!(matches!(step, DownloadStep::Download));
    let (st, step) = download_next(st, DownloadEvent::Downloaded(Ok(())));
    assert_eq!(st, Download::Finished);
    assert_eq!(download_reply(step), (Some(1048576), Ok(s("Download successful"))));

    let (st, _) = download_start(false);
    let (_, step) = download_next(st, DownloadEvent::MockWritten(Ok(())));
    assert_eq!(download_reply(step), (None, Ok(s("Download successful"))));

    let (st, _) = download_start(true);
    let (st, _) = download_next(st, DownloadEvent::Resolved(Ok(())));
    let (_, step) = download_next(st, DownloadEvent::Fetched(Ok(None)));
    assert_eq!(download_reply(step), (None, Err((404, s("Not found")))));

    let (st, _) = download_start(true);
    let (_, step) = download_next(st, DownloadEvent::Resolved(Err(s("Folder/Chat 5 not found"))));
    assert_eq!(download_reply(step), (None, Err((400, s("Folder/Chat 5 not found")))));

    let (st, _) = download_start(true);
    let (st, _) = download_next(st, DownloadEvent::Resolved(Ok(())));
    let (st, _) = download_next(st, DownloadEvent::Fetched(Ok(Some(doc("a", 9, None)))));
    let (mut st, _) = download_next(st, DownloadEvent::Quota(Ok(())));
    let mut waits = Vec::new();
    loop {
        let (next, step) = download_next(st, DownloadEvent::Downloaded(Err(s("io"))));
        st = next;
        match step {
            DownloadStep::WaitThenDownload { millis } => waits.push(millis),
            other => {
                assert_eq!(download_reply(other), (None, Err((500, s("io")))));
                break;
            }
        }
    }
    assert_eq!(waits, vec![2000, 4000]);
}

// ---------------------------------------------------------------- thumbnail and preview requests

fn thumbnail_reply(step: ThumbnailStep) -> Result<String, (Status, String)> {
    match step {
        ThumbnailStep::Done { reply } => reply.map_err(|f| (f.status, f.message)),
        _ => panic!("expected an answer"),
    }
}

fn preview_reply(step: PreviewStep) -> (Option<u64>, Result<String, (Status, String)>) {
    match step {
        PreviewStep::Done { counted_down, reply } => (counted_down, reply.map_err(|f| (f.status, f.message))),
        _ => panic!("expected an answer"),
    }
}

#[test]
fn cached_thumbnails_are_found_in_listing_order() {
    let names = vec![s("12.png"), s("7.jpg"), s("71.jpg"), s("7.webp")];
    assert_eq!(find_cached_thumbnail(&names, 7, 0), Some(1));
    assert_eq!(find_cached_thumbnail(&names, 7, 2), Some(3));
    assert_eq!(find_cached_thumbnail(&names, 7, 4), None);
    assert_eq!(find_cached_thumbnail(&names, 99, 0), None);
    assert_eq!(find_cached_thumbnail(&vec![s("-3.gif")], -3, 0), Some(0));
}

#[test]
fn thumbnails_come_from_the_cache_first() {
    let (req, step) = thumbnail_start(7, vec![s("71.jpg"), s("7.png")], false);
    match &step {
        ThumbnailStep::ReadCached { file_name } => assert_eq!(file_name, "7.png"),
        _ => panic!("expected a cache read"),
    }
    let (req, step) = thumbnail_next(req, ThumbnailEvent::Read(Some(vec![1, 2, 3])));
    assert!(matches!(req.state, Thumbnail::Finished));
    assert_eq!(thumbnail_reply(step), Ok(s("data:image/png;base64,AQID")));
}

#[test]
fn unreadable_cached_thumbnails_are_passed_over() {
    let (req, _) = thumbnail_start(7, vec![s("7.gif"), s("x"), s("7.jpg")], true);
    let (req, step) = thumbnail_next(req, ThumbnailEvent::Read(None));
    match &step {
        ThumbnailStep::ReadCached { file_name } => assert_eq!(file_name, "7.jpg"),
        _ => panic!("expected a cache read"),
    }
    let (req, step) = thumbnail_next(req, ThumbnailEvent::Read(None));
    assert!(matches!(step, ThumbnailStep::Resolve));
    assert!(matches!(req.state, Thumbnail::Resolving));
}

#[test]
fn thumbnails_without_a_client_are_empty() {
    let (req, step) = thumbnail_start(7, vec![s("8.jpg")], false);
    assert!(matches!(req.state, Thumbnail::Finished));
    assert_eq!(thumbnail_reply(step), Ok(s("")));
}

#[test]
fn thumbnails_are_downloaded_into_the_cache() {
    let (req, step) = thumbnail_start(5, vec![], true);
    assert!(matches!(step, ThumbnailStep::Resolve));
    let (req, step) = thumbnail_next(req, ThumbnailEvent::Resolved(Ok(())));
    assert!(matches!(step, ThumbnailStep::Fetch));
    let (req, step) =
        thumbnail_next(req, ThumbnailEvent::Fetched(Ok(Some(doc("a.webp", 10, Some("image/webp"))))));
    match &step {
        ThumbnailStep::Download { file_name } => assert_eq!(file_name, "5.webp"),
        _ => panic!("expected a download"),
    }
    let (req, step) = thumbnail_next(req, ThumbnailEvent::Downloaded(true));
    match &step {
        ThumbnailStep::ReadDownloaded { file_name } => assert_eq!(file_name, "5.webp"),
        _ => panic!("expected a read"),
    }
    let (_, step) = thumbnail_next(req, ThumbnailEvent::Read(Some(b"abc".to_vec())));
    assert_eq!(thumbnail_reply(step), Ok(s("data:image/webp;base64,YWJj")));
}

#[test]
fn thumbnail_requests_that_fail() {
    let (req, _) = thumbnail_start(5, vec![], true);
    let (_, step) = thumbnail_next(req, ThumbnailEvent::Resolved(Err(s("Folder not found"))));
    assert_eq!(thumbnail_reply(step), Err((Status::BadRequest, s("Folder not found"))));

    let (req, _) = thumbnail_start(5, vec![], true);
    let (req, _) = thumbnail_next(req, ThumbnailEvent::Resolved(Ok(())));
    let (_, step) = thumbnail_next(req, ThumbnailEvent::Fetched(Err(s("RPC error"))));
    assert_eq!(thumbnail_reply(step), Err((Status::InternalServerError, s("RPC error"))));

    for media in [None, Some(doc("a.pdf", 1, Some("application/pdf"))), Some(doc("a.png", 1, None)), Some(MediaInfo::Other)] {
        let (req, _) = thumbnail_start(5, vec![], true);
        let (req, _) = thumbnail_next(req, ThumbnailEvent::Resolved(Ok(())));
        let (_, step) = thumbnail_next(req, ThumbnailEvent::Fetched(Ok(media)));
        assert_eq!(thumbnail_reply(step), Ok(s("")));
    }

    let (req, _) = thumbnail_start(5, vec![], true);
    let (req, _) = thumbnail_next(req, ThumbnailEvent::Resolved(Ok(())));
    let (req, _) = thumbnail_next(req, ThumbnailEvent::Fetched(Ok(Some(MediaInfo::Photo))));
    let (_, step) = thumbnail_next(req, ThumbnailEvent::Downloaded(false));
    assert_eq!(thumbnail_reply(step), Ok(s("")));

    let (req, _) = thumbnail_start(5, vec![], true);
    let (req, _) = thumbnail_next(req, ThumbnailEvent::Resolved(Ok(())));
    let (req, _) = thumbnail_next(req, ThumbnailEvent::Fetched(Ok(Some(MediaInfo::Photo))));
    let (req, _) = thumbnail_next(req, ThumbnailEvent::Downloaded(true));
    let (_, step) = thumbnail_next(req, ThumbnailEvent::Read(None));
    assert_eq!(thumbnail_reply(step), Ok(s("")));
}

#[test]
fn a_cached_thumbnail_comes_back_the_same() {
    let bytes = vec![137u8, 80, 78, 71, 13, 10];
    let (req, _) = thumbnail_start(42, vec![], true);
    let (req, _) = thumbnail_next(req, ThumbnailEvent::Resolved(Ok(())));
    let (req, step) = thumbnail_next(req, ThumbnailEvent::Fetched(Ok(Some(doc("cat", 9, Some("image/gif"))))));
    let saved = match &step {
        ThumbnailStep::Download { file_name } => file_name.clone(),
        _ => panic!("expected a download"),
    };
    let (req, _) = thumbnail_next(req, ThumbnailEvent::Downloaded(true));
    let (_, step) = thumbnail_next(req, ThumbnailEvent::Read(Some(bytes.clone())));
    let first = thumbnail_reply(step).unwrap();
    assert_eq!(first, "data:image/gif;base64,iVBORw0K");

    let (req, step) = thumbnail_start(42, vec![s("7.jpg"), s("420.png"), saved.clone()], true);
    match &step {
        ThumbnailStep::ReadCached { file_name } => assert_eq!(file_name, &saved),
        _ => panic!("expected a cache read"),
    }
    let (_, step) = thumbnail_next(req, ThumbnailEvent::Read(Some(bytes)));
    assert_eq!(thumbnail_reply(step), Ok(first));
}

#[test]
fn previews_without_a_client_are_empty() {
    let (req, step) = preview_start(3, false);
    assert!(matches!(req.state, Preview::Finished));
    assert_eq!(preview_reply(step), (None, Ok(s(""))));
}

#[test]
fn previewed_images_are_downloaded_counted_and_inlined() {
    let (req, step) = preview_start(9, true);
    assert!(matches!(step, PreviewStep::Resolve));
    let (req, step) = preview_next(req, PreviewEvent::Resolved(Ok(())));
    assert!(matches!(step, PreviewStep::Fetch));
    let (req, step) = preview_next(req, PreviewEvent::Fetched(Ok(Some(doc("pic.PNG", 2048, Some("image/png"))))));
    match &step {
        PreviewStep::CheckCache { file_name } => assert_eq!(file_name, "9.PNG"),
        _ => panic!("expected a cache check"),
    }
    let (req, step) = preview_next(req, PreviewEvent::Cached { path: s("/c/9.PNG"), exists: false });
    assert!(matches!(step, PreviewStep::CheckQuota { size: 2048 }));
    let (req, step) = preview_next(req, PreviewEvent::Quota(Ok(())));
    match &step {
        PreviewStep::Download { path } => assert_eq!(path, "/c/9.PNG"),
        _ => panic!("expected a download"),
    }
    let (req, step) = preview_next(req, PreviewEvent::Downloaded(Ok(())));
    match &step {
        PreviewStep::ReadFile { path } => assert_eq!(path, "/c/9.PNG"),
        _ => panic!("expected a read"),
    }
    let (req, step) = preview_next(req, PreviewEvent::Read(Some(b"hi".to_vec())));
    assert!(matches!(req.state, Preview::Finished));
    assert_eq!(preview_reply(step), (Some(2048), Ok(s("data:image/png;base64,aGk="))));
}

#[test]
fn cached_previews_are_not_downloaded_again() {
    let (req, _) = preview_start(4, true);
    let (req, _) = preview_next(req, PreviewEvent::Resolved(Ok(())));
    let (req, _) = preview_next(req, PreviewEvent::Fetched(Ok(Some(doc("report.pdf", 10, None)))));
    let (_, step) = preview_next(req, PreviewEvent::Cached { path: s("/c/4.pdf"), exists: true });
    assert_eq!(preview_reply(step), (None, Ok(s("/c/4.pdf"))));

    let (req, _) = preview_start(4, true);
    let (req, _) = preview_next(req, PreviewEvent::Resolved(Ok(())));
    let (req, step) = preview_next(req, PreviewEvent::Fetched(Ok(Some(MediaInfo::Photo))));
    match &step {
        PreviewStep::CheckCache { file_name } => assert_eq!(file_name, "4.jpg"),
        _ => panic!("expected a cache check"),
    }
    let (req, step) = preview_next(req, PreviewEvent::Cached { path: s("/c/4.jpg"), exists: true });
    assert!(matches!(step, PreviewStep::ReadFile { .. }));
    let (_, step) = preview_next(req, PreviewEvent::Read(None));
    assert_eq!(preview_reply(step), (None, Ok(s("/c/4.jpg"))));
}

#[test]
fn preview_requests_that_fail() {
    let missing = (None, Err((Status::InternalServerError, s("File not found or failed to download"))));

    let (req, _) = preview_start(4, true);
    let (_, step) = preview_next(req, PreviewEvent::Resolved(Err(s("Folder not found"))));
    assert_eq!(preview_reply(step), (None, Err((Status::BadRequest, s("Folder not found")))));

    let (req, _) = preview_start(4, true);
    let (req, _) = preview_next(req, PreviewEvent::Resolved(Ok(())));
    let (_, step) = preview_next(req, PreviewEvent::Fetched(Err(s("RPC error"))));
    assert_eq!(preview_reply(step), (None, Err((Status::InternalServerError, s("RPC error")))));

    let (req, _) = preview_start(4, true);
    let (req, _) = preview_next(req, PreviewEvent::Resolved(Ok(())));
    let (_, step) = preview_next(req, PreviewEvent::Fetched(Ok(None)));
    assert_eq!(preview_reply(step), missing.clone());

    let (req, _) = preview_start(4, true);
    let (req, _) = preview_next(req, PreviewEvent::Resolved(Ok(())));
    let (req, _) = preview_next(req, PreviewEvent::Fetched(Ok(Some(doc("v.mp4", 5, Some("video/mp4"))))));
    let (req, _) = preview_next(req, PreviewEvent::Cached { path: s("/c/4.mp4"), exists: false });
    let (_, step) = preview_next(req, PreviewEvent::Quota(Err(s("Daily limit reached"))));
    assert_eq!(preview_reply(step), missing.clone());

    let (req, _) = preview_start(4, true);
    let (req, _) = preview_next(req, PreviewEvent::Resolved(Ok(())));
    let (req, _) = preview_next(req, PreviewEvent::Fetched(Ok(Some(doc("v.mp4", 5, Some("video/mp4"))))));
    let (req, _) = preview_next(req, PreviewEvent::Cached { path: s("/c/4.mp4"), exists: false });
    let (req, _) = preview_next(req, PreviewEvent::Quota(Ok(())));
    let (_, step) = preview_next(req, PreviewEvent::Downloaded(Err(s("timeout"))));
    assert_eq!(preview_reply(step), missing);

    let (req, _) = preview_start(4, true);
    let (req, _) = preview_next(req, PreviewEvent::Resolved(Ok(())));
    let (req, _) = preview_next(req, PreviewEvent::Fetched(Ok(Some(doc("v.mp4", 5, Some("video/mp4"))))));
    let (req, _) = preview_next(req, PreviewEvent::Cached { path: s("/c/4.mp4"), exists: false });
    let (req, _) = preview_next(req, PreviewEvent::Quota(Ok(())));
    let (_, step) = preview_next(req, PreviewEvent::Downloaded(Ok(())));
    assert_eq!(preview_reply(step), (Some(5), Ok(s("/c/4.mp4"))));
}
