use dim::posters::poster_file_name;
use dim::bootstrap::{extraction_target, needs_bootstrap, TOOL_MODE};
use dim::library::{scan_after_insert, scan_request_for, scanner_id, Library, MediaType};
use dim::routes::{
    get_all_library, get_media_by_id, insert_media_by_lib_id, library_delete, library_post,
    service_not_available, service_not_found, unprocessable_entity, update_media_by_id, RouteStatus,
};
use dim::shared::CloneOnDeref;

fn lib(id: i32, kind: &str) -> Library {
    Library { id, name: "Films".to_string(), location: "/media/films".to_string(), media_type: kind.to_string() }
}

#[test]
fn media_kinds() {
    assert_eq!(MediaType::from_library_kind("movie"), MediaType::Movie);
    assert_eq!(MediaType::from_library_kind("movies"), MediaType::Movie);
    assert_eq!(MediaType::from_library_kind("tv"), MediaType::TV);
    assert_eq!(MediaType::from_library_kind("Movie"), MediaType::TV);
    assert_eq!(MediaType::from_library_kind(""), MediaType::TV);
    assert_eq!(MediaType::from_library_kind("moviess"), MediaType::TV);
}

#[test]
fn scanner_ids() {
    assert_eq!(scanner_id(7), 7);
    assert_eq!(scanner_id(0), 0);
    assert_eq!(scanner_id(-1), u32::MAX);
    assert_eq!(scanner_id(i32::MIN), 0x8000_0000);
}

#[test]
fn scan_request_for_library() {
    let r = scan_request_for(&lib(3, "movies"));
    assert_eq!(r.library_id, 3);
    assert_eq!(r.media_type, MediaType::Movie);
    assert_eq!(r.location, "/media/films");
}

#[test]
fn scan_after_insert_takes_first_row() {
    assert!(scan_after_insert(vec![]).is_none());
    let r = scan_after_insert(vec![lib(9, "tv"), lib(8, "movie")]).unwrap();
    assert_eq!(r.library_id, 9);
    assert_eq!(r.media_type, MediaType::TV);
}

#[test]
fn write_routes() {
    assert_eq!(library_post::<usize, ()>(Ok(1)), Ok(RouteStatus::Success));
    assert_eq!(library_post::<usize, ()>(Err(())), Err(RouteStatus::NotImplemented));
    assert_eq!(library_delete::<usize, ()>(Ok(0)), Ok(RouteStatus::Success));
    assert_eq!(library_delete::<usize, ()>(Err(())), Err(RouteStatus::NotFound));
    assert_eq!(insert_media_by_lib_id::<usize, ()>(Ok(1)), Ok(RouteStatus::Success));
    assert_eq!(insert_media_by_lib_id::<usize, ()>(Err(())), Err(RouteStatus::NotFound));
    assert_eq!(update_media_by_id::<usize, ()>(Ok(1)), Ok(RouteStatus::Success));
    assert_eq!(update_media_by_id::<usize, ()>(Err(())), Err(RouteStatus::NotFound));
}

#[test]
fn read_routes() {
    assert_eq!(get_all_library::<Vec<i32>, ()>(Ok(vec![1, 2])), Ok(vec![1, 2]));
    assert_eq!(get_all_library::<Vec<i32>, ()>(Err(())), Err(RouteStatus::NotFound));
    assert_eq!(get_media_by_id::<i32, ()>(Ok(5)), Ok(5));
    assert_eq!(get_media_by_id::<i32, ()>(Err(())), Err(RouteStatus::NotFound));
}

#[test]
fn status_codes() {
    assert_eq!(RouteStatus::Success.code(), 200);
    assert_eq!(RouteStatus::NotFound.code(), 404);
    assert_eq!(RouteStatus::NotImplemented.code(), 501);
}

#[test]
fn catchers() {
    let a = service_not_available();
    assert_eq!((a.kind, a.error.as_str()), (503, "Database is down"));
    let b = service_not_found();
    assert_eq!((b.kind, b.error.as_str()), (404, "Endpoint not found"));
    let c = unprocessable_entity();
    assert_eq!((c.kind, c.error.as_str()), (422, "Invalid json supplied"));
}

#[test]
fn bootstrap_decision() {
    assert!(!needs_bootstrap(true, true));
    assert!(needs_bootstrap(true, false));
    assert!(needs_bootstrap(false, true));
    assert!(needs_bootstrap(false, false));
}

#[test]
fn archive_entries_kept() {
    assert_eq!(extraction_target("ffmpeg"), Some("utils/ffmpeg".to_string()));
    assert_eq!(extraction_target("ffprobe"), Some("utils/ffprobe".to_string()));
    assert_eq!(extraction_target("readme.txt"), None);
    assert_eq!(extraction_target("ffmpeg-10bit"), None);
    assert_eq!(extraction_target(""), None);
    assert_eq!(TOOL_MODE, 0o755);
}

#[test]
fn clone_on_deref() {
    let c = CloneOnDeref::new(vec![1, 2, 3]);
    assert_eq!(c.get(), vec![1, 2, 3]);
    assert_eq!(c.get(), c.get());
}

#[test]
fn poster_names() {
    assert_eq!(poster_file_name(None), None);
    assert_eq!(poster_file_name(Some(vec![])), None);
    assert_eq!(
        poster_file_name(Some(vec!["t".to_string(), "p".to_string(), "abc.jpg".to_string()])),
        Some("abc.jpg".to_string())
    );
    assert_eq!(poster_file_name(Some(vec!["a".to_string(), String::new()])), Some(String::new()));
}
