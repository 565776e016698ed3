use catalog::artifact_store::LocalFsStore;
use catalog::events::{CatalogEvent, VersionPublished, VersionUnyanked, VersionYanked};
use catalog::identity::{extract, extract_optional, MissingIdentity};
use catalog::ids::{trace_id, trace_id_or};
use catalog::models::ApiResponse;
use catalog::text::{count_occurrences, chars_of, str_contains, to_hex_lower, trimmed, u64_to_string, i64_to_string};

const USER: &str = "67e55044-10b1-426f-9247-bb680e5fe0c8";
const USER_VALUE: u128 = 0x67e5504410b1426f9247bb680e5fe0c8;

#[test]
fn identity_comes_from_gateway_headers() {
    let id = extract(Some(USER), Some("a@b.c"), None).unwrap();
    assert_eq!(id.user_id, USER_VALUE);
    assert_eq!(id.email, "a@b.c");
    assert_eq!(id.username, "");
    assert!(extract(None, Some("a@b.c"), Some("alice")).is_err());
    let missing = extract(Some("not-a-uuid"), None, None).unwrap_err();
    assert_eq!(missing.status_code(), 401);
    assert_eq!(
        missing.message(),
        "missing or invalid X-User-Id — request did not come through the gateway"
    );
    assert!(extract_optional(Some("nope"), None, None).0.is_none());
    assert_eq!(extract_optional(Some(USER), None, Some("alice")).0.unwrap().username, "alice");
    assert_eq!(MissingIdentity.status_code(), 401);
}

#[test]
fn trace_ids_reuse_valid_request_ids() {
    assert_eq!(trace_id_or(Some(USER), 5), USER_VALUE);
    assert_eq!(trace_id_or(Some("garbage"), 5), 5);
    assert_eq!(trace_id_or(None, 5), 5);
    assert_eq!(trace_id(Some(USER)), USER_VALUE);
    let fresh = trace_id(None);
    assert_eq!((fresh >> 76) & 0xf, 4);
    assert_eq!((fresh >> 62) & 0x3, 2);
}

#[test]
fn artifact_paths_and_urls() {
    let store = LocalFsStore::new("/var/artifacts".to_string());
    let path = store.path_for("abc");
    assert_eq!(path, "/var/artifacts/abc.tar.gz");
    let url = LocalFsStore::url_for(&path);
    assert_eq!(url, "file:///var/artifacts/abc.tar.gz");
    assert_eq!(LocalFsStore::path_for_url(&url), path);
    assert_eq!(LocalFsStore::path_for_url("/plain/path"), "/plain/path");
    assert_eq!(LocalFsStore::new("store/".to_string()).path_for("k"), "store/k.tar.gz");
    assert_eq!(LocalFsStore::new(String::new()).path_for("k"), "k.tar.gz");
}

#[test]
fn event_subjects() {
    assert_eq!(VersionPublished::subject(), "version.published");
    assert_eq!(VersionYanked::subject(), "version.yanked");
    assert_eq!(VersionUnyanked::subject(), "version.unyanked");
    let e = CatalogEvent::Unyanked(VersionUnyanked {
        project_id: 1,
        version_id: 2,
        version_tag: "v".to_string(),
        developer_id: 3,
    });
    assert_eq!(e.subject(), "version.unyanked");
}

#[test]
fn response_envelopes() {
    let ok = ApiResponse::success(5u32, "OK");
    assert!(ok.success);
    assert_eq!(ok.data, Some(5));
    assert_eq!(ok.message, "OK");
    let err = ApiResponse::error("nope");
    assert!(!err.success);
    assert!(err.data.is_none());
    assert_eq!(err.message, "nope");
}

#[test]
fn text_helpers() {
    assert_eq!(trimmed("\u{3000} hi \t"), "hi");
    assert!(str_contains("fn main() { \"PORT\" }", "\"PORT\""));
    assert!(!str_contains("port", "PORT"));
    assert_eq!(count_occurrences(&chars_of("aaaa"), &chars_of("aa")), 2);
    assert_eq!(to_hex_lower(&[0x00, 0xab, 0x0f]), "00ab0f");
    assert_eq!(u64_to_string(0), "0");
    assert_eq!(u64_to_string(18446744073709551615), "18446744073709551615");
    assert_eq!(i64_to_string(-9223372036854775808), "-9223372036854775808");
}
