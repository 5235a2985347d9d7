use directshare::deliver::attachment_header;
use directshare::deliver::not_found_page;
use directshare::deliver::resolve_open_failure;
use directshare::deliver::response;
use directshare::deliver::route;
use directshare::deliver::BodyPlan;
use directshare::deliver::RequestMethod;
use directshare::deliver::StatOutcome;
use directshare::map::PathMap;

fn registry_with(path: &str) -> (PathMap, String) {
    let mut map = PathMap::new(8);
    let key = map.register(path.to_string());
    (map, format!("/{key}"))
}

#[test]
fn unknown_key_is_not_found_with_empty_body() {
    let (map, _) = registry_with("some/file.txt");
    let plan = response(&map, RequestMethod::Get, "/unregistered", StatOutcome::Missing);
    assert_eq!(plan.status, 404);
    assert_eq!(plan.content_length, None);
    assert_eq!(plan.content_disposition, None);
    assert_eq!(plan.body, BodyPlan::Empty);
}

#[test]
fn empty_path_is_not_found() {
    let (map, _) = registry_with("some/file.txt");
    let plan = response(&map, RequestMethod::Get, "", StatOutcome::Missing);
    assert_eq!(plan.status, 404);
    assert_eq!(plan.body, BodyPlan::Empty);
}

#[test]
fn non_get_is_not_found_on_known_and_unknown_keys() {
    let (map, raw) = registry_with("some/file.txt");
    for raw_path in [raw.as_str(), "/unregistered"] {
        let plan = response(&map, RequestMethod::Other, raw_path, StatOutcome::File { size: 10 });
        assert_eq!(plan.status, 404);
        assert_eq!(plan.content_length, None);
        assert_eq!(plan.content_disposition, None);
        assert_eq!(plan.body, BodyPlan::Empty);
    }
}

#[test]
fn registered_file_gets_length_and_attachment_header() {
    let (map, raw) = registry_with("data/report.pdf");
    let plan = response(&map, RequestMethod::Get, &raw, StatOutcome::File { size: 1234 });
    assert_eq!(plan.status, 200);
    assert_eq!(plan.content_length, Some(1234));
    assert_eq!(
        plan.content_disposition,
        Some("attachment; filename=report.pdf".to_string())
    );
    assert_eq!(plan.body, BodyPlan::FileStream { path: "data/report.pdf".to_string() });
}

#[test]
fn registered_directory_gets_tar_attachment_without_length() {
    let (map, raw) = registry_with("shared/photos");
    let plan = response(&map, RequestMethod::Get, &raw, StatOutcome::Directory);
    assert_eq!(plan.status, 200);
    assert_eq!(plan.content_length, None);
    assert_eq!(
        plan.content_disposition,
        Some("attachment; filename=photos.tar".to_string())
    );
    assert_eq!(plan.body, BodyPlan::TarStream { path: "shared/photos".to_string() });
}

#[test]
fn failed_stat_is_not_found() {
    let (map, raw) = registry_with("gone/away.bin");
    let plan = response(&map, RequestMethod::Get, &raw, StatOutcome::Missing);
    assert_eq!(plan.status, 404);
    assert_eq!(plan.body, BodyPlan::Empty);
}

#[test]
fn fallback_filename_when_path_has_no_component() {
    let (map, raw) = registry_with("/");
    let plan = response(&map, RequestMethod::Get, &raw, StatOutcome::File { size: 5 });
    assert_eq!(
        plan.content_disposition,
        Some("attachment; filename=file".to_string())
    );
}

#[test]
fn route_resolves_only_get_on_known_keys() {
    let (map, raw) = registry_with("a/b.txt");
    assert_eq!(route(&map, RequestMethod::Get, &raw), Some("a/b.txt".to_string()));
    assert_eq!(route(&map, RequestMethod::Other, &raw), None);
    assert_eq!(route(&map, RequestMethod::Get, "/missing"), None);
}

#[test]
fn open_failure_becomes_not_found() {
    let (map, raw) = registry_with("x/y.txt");
    let plan = response(&map, RequestMethod::Get, &raw, StatOutcome::File { size: 9 });
    let kept = resolve_open_failure(plan.clone(), true);
    assert_eq!(kept, plan);
    let failed = resolve_open_failure(plan, false);
    assert_eq!(failed, not_found_page());
}

#[test]
fn attachment_header_value() {
    assert_eq!(attachment_header("notes.txt"), "attachment; filename=notes.txt");
    assert_eq!(attachment_header(""), "attachment; filename=");
}
