use r2_webdav::dav::{decimal_text, render_directory, DavBuilder, ObjectInfo};
use r2_webdav::gate::{authorize, challenge, cors_origin, credential_header};
use r2_webdav::listing::{list_prefix, Listing};
use r2_webdav::headers::{allowed_headers, content_headers, exposed_headers, methods, options_headers, HttpMeta};
use r2_webdav::methods::{
    delete_plan, delete_targets, fixed_status, get_plan, reason, lock_body, mkcol_marker, mkcol_status, propfind_object, propfind_plan,
    propfind_self, put_target, route, DavMethod, GetPlan, PropfindPlan,
};
use r2_webdav::path::{first_path_segment, key_from_path, trim_leading_slashes};
use r2_webdav::tree::{child_fragments, propfind_listing, relative_path};

fn object(key: &str, size: u64) -> ObjectInfo {
    ObjectInfo {
        key: key.to_string(),
        size,
        etag: format!("etag-{}", key),
        uploaded: "2024-01-02 03:04:05 UTC".to_string(),
        content_type: Some("text/plain".to_string()),
        resource_type: None,
    }
}

fn hrefs(doc: &str) -> Vec<String> {
    doc.split("<href>")
        .skip(1)
        .map(|s| s.split("</href>").next().unwrap().to_string())
        .collect()
}

#[test]
fn credential_header_is_basic_base64() {
    assert_eq!(credential_header("user", "pass"), "Basic dXNlcjpwYXNz");
    assert_eq!(credential_header("", ""), "Basic Og==");
}

#[test]
fn only_the_exact_credential_passes() {
    assert!(authorize(Some("Basic dXNlcjpwYXNz"), "user", "pass"));
    assert!(!authorize(None, "user", "pass"));
    assert!(!authorize(Some(""), "user", "pass"));
    assert!(!authorize(Some("Basic dXNlcjpwYXNz "), "user", "pass"));
    assert!(!authorize(Some("basic dXNlcjpwYXNz"), "user", "pass"));
    assert!(!authorize(Some("Basic dXNlcjp3cm9uZw=="), "user", "pass"));
    assert!(!authorize(Some("Bearer dXNlcjpwYXNz"), "user", "pass"));
    let (name, value) = challenge();
    assert_eq!(name, "WWW-Authenticate");
    assert_eq!(value, "Basic realm=\"webdav\"");
}

#[test]
fn cors_origin_echoes_or_stars() {
    assert_eq!(cors_origin(Some("https://a.example")), "https://a.example");
    assert_eq!(cors_origin(None), "*");
    assert_eq!(allowed_headers().len(), 6);
    assert_eq!(exposed_headers()[9], "X-WebDAV-Status");
}

#[test]
fn keys_are_trimmed_paths() {
    assert_eq!(key_from_path("/docs/a.txt"), "docs/a.txt");
    assert_eq!(key_from_path("//docs/sub//"), "docs/sub");
    assert_eq!(key_from_path("/"), "");
    assert_eq!(key_from_path(""), "");
    assert_eq!(trim_leading_slashes("//a/"), "a/");
    assert_eq!(first_path_segment("sub/c.txt"), "sub");
    assert_eq!(first_path_segment("plain"), "plain");
    assert_eq!(relative_path("docs", "docs/sub/c.txt"), "sub/c.txt");
    assert_eq!(relative_path("", "a/b"), "a/b");
}

#[test]
fn decimal_text_writes_digits() {
    assert_eq!(decimal_text(0), "0");
    assert_eq!(decimal_text(7), "7");
    assert_eq!(decimal_text(1234), "1234");
    assert_eq!(decimal_text(u64::MAX), u64::MAX.to_string());
}

#[test]
fn builder_renders_object_properties() {
    let o = ObjectInfo {
        key: "a.txt".to_string(),
        size: 42,
        etag: "abc".to_string(),
        uploaded: "T".to_string(),
        content_type: None,
        resource_type: Some("<x/>".to_string()),
    };
    let xml = DavBuilder::new().object("/a.txt", Some(&o)).build();
    assert!(xml.starts_with("<response><href>/a.txt</href>"));
    assert!(xml.contains("<resourcetype><x/></resourcetype>"));
    assert!(xml.contains("<creationdate>T</creationdate>"));
    assert!(xml.contains("<getcontentlength>42</getcontentlength>"));
    assert!(xml.contains("<getlastmodified>T</getlastmodified>"));
    assert!(xml.contains("<getetag>abc</getetag>"));
    assert!(xml.contains("<getcontenttype>application/octet-stream</getcontenttype>"));
    assert!(xml.contains("<exclusive/>"));
    assert!(xml.contains("<shared/>"));
    assert!(xml.contains("<lockdiscovery/>"));
    assert!(xml.ends_with("<status>HTTP/1.1 200 OK</status></propstat></response>"));
}

#[test]
fn builder_renders_directory_defaults() {
    let xml = render_directory("/docs", "NOW");
    assert!(xml.contains("<href>/docs</href>"));
    assert!(xml.contains("<resourcetype><collection /></resourcetype>"));
    assert!(xml.contains("<creationdate>NOW</creationdate>"));
    assert!(xml.contains("<getcontentlength></getcontentlength>"));
    assert!(xml.contains("<getetag></getetag>"));
    let fresh = DavBuilder::new();
    assert_eq!(fresh.creation_date, fresh.get_last_modified);
    assert_eq!(fresh.resource_type, "<collection />");
}

#[test]
fn propfind_depth_zero_on_object_has_one_response() {
    let o = object("docs/a.txt", 3);
    let doc = propfind_object("docs/a.txt", Some(&o)).unwrap();
    assert_eq!(doc.matches("<response>").count(), 1);
    assert_eq!(hrefs(&doc), vec!["/docs/a.txt".to_string()]);
    assert!(doc.starts_with("<?xml version=\"1.0\" encoding=\"utf-8\"?><multistatus xmlns=\"DAV:\">"));
    assert!(doc.ends_with("</multistatus>"));
    assert!(propfind_object("docs/missing", None).is_none());
}

#[test]
fn propfind_depth_zero_on_directory_is_self_only() {
    let doc = propfind_self("docs", "NOW");
    assert_eq!(hrefs(&doc), vec!["/docs".to_string()]);
}

#[test]
fn propfind_depth_one_synthesizes_one_subdirectory() {
    let objects = vec![
        object("docs/a.txt", 1),
        object("docs/b.txt", 2),
        object("docs/sub/c.txt", 3),
        object("docs/sub/d.txt", 4),
    ];
    let doc = propfind_listing("docs", &objects, "NOW").unwrap();
    assert_eq!(
        hrefs(&doc),
        vec![
            "/docs".to_string(),
            "/docs/a.txt".to_string(),
            "/docs/b.txt".to_string(),
            "/docs/sub".to_string(),
        ]
    );
    assert!(!doc.contains("/docs/sub/c.txt"));
}

#[test]
fn propfind_directories_appear_at_first_introduction() {
    let objects = vec![object("x/y/1", 1), object("top", 2), object("x/z", 3), object("x/y/2", 4)];
    let children = child_fragments("", &objects, "NOW");
    assert_eq!(hrefs(&children), vec!["/x".to_string(), "/top".to_string()]);
}

#[test]
fn propfind_depth_one_on_empty_prefix_is_not_found() {
    assert!(propfind_listing("nothing", &Vec::new(), "NOW").is_none());
}

#[test]
fn propfind_plan_follows_depth() {
    assert!(matches!(propfind_plan("/docs/", Some("infinity")), PropfindPlan::Reject(501)));
    assert!(matches!(propfind_plan("/docs/", Some("2")), PropfindPlan::Reject(403)));
    assert!(matches!(propfind_plan("/", Some("infinity")), PropfindPlan::Reject(501)));
    assert!(matches!(propfind_plan("/docs/", Some("0")), PropfindPlan::SelfOnly(k) if k == "docs"));
    assert!(matches!(propfind_plan("/docs/", None), PropfindPlan::Listing(k) if k == "docs"));
    assert!(matches!(propfind_plan("/docs/a.txt", Some("2")), PropfindPlan::Object(k) if k == "docs/a.txt"));
}

#[test]
fn mkcol_twice_conflicts() {
    let marker = mkcol_marker("/new").unwrap();
    assert_eq!(marker, "new/");
    let mut store: Vec<String> = Vec::new();
    let first = mkcol_status(store.contains(&marker));
    store.push(marker.clone());
    let second = mkcol_status(store.contains(&marker));
    assert_eq!(first, 201);
    assert_eq!(second, 409);
}

#[test]
fn mkcol_and_put_reject_empty_key() {
    assert!(mkcol_marker("/").is_none());
    assert!(mkcol_marker("").is_none());
    assert!(put_target("/").is_none());
}

#[test]
fn delete_targets_cover_children_then_key() {
    let listed = vec!["dir/a".to_string(), "dir/b/c".to_string()];
    let targets = delete_targets("dir", &listed).unwrap();
    assert_eq!(targets, vec!["dir/a".to_string(), "dir/b/c".to_string(), "dir".to_string()]);
    assert!(delete_targets("gone", &Vec::new()).is_none());
}

#[test]
fn put_then_get_reach_the_same_key() {
    let put = put_target("/docs/a.txt").unwrap();
    match get_plan("/docs/a.txt", false) {
        GetPlan::Fetch(k) => assert_eq!(k, put),
        _ => panic!("expected a fetch"),
    }
    let meta = HttpMeta {
        content_type: Some("text/markdown".to_string()),
        content_disposition: None,
        content_encoding: Some("gzip".to_string()),
        content_language: None,
        cache_control: None,
        cache_expiry: None,
    };
    let h = content_headers(&meta);
    assert_eq!(h.len(), 2);
    assert_eq!((h[0].name.as_str(), h[0].value.as_str()), ("Content-Type", "text/markdown"));
    assert_eq!((h[1].name.as_str(), h[1].value.as_str()), ("Content-Encoding", "gzip"));
}

#[test]
fn get_headers_default_to_binary() {
    let meta = HttpMeta {
        content_type: None,
        content_disposition: Some("inline".to_string()),
        content_encoding: None,
        content_language: Some("en".to_string()),
        cache_control: Some("no-cache".to_string()),
        cache_expiry: Some("T".to_string()),
    };
    let h: Vec<(String, String)> = content_headers(&meta).into_iter().map(|h| (h.name, h.value)).collect();
    assert_eq!(h[0], ("Content-Type".to_string(), "application/octet-stream".to_string()));
    assert_eq!(h.len(), 5);
    assert_eq!(h[4], ("Cache-Expires".to_string(), "T".to_string()));
}

#[test]
fn get_with_range_is_refused() {
    assert!(matches!(get_plan("/a.txt", true), GetPlan::RangeRejected));
    assert!(matches!(get_plan("/docs/", true), GetPlan::DirectoryPage));
    assert!(matches!(get_plan("/docs/", false), GetPlan::DirectoryPage));
}

#[test]
fn options_advertise_dav() {
    let h = options_headers();
    assert_eq!(h.len(), 2);
    assert_eq!((h[0].name.as_str(), h[0].value.as_str()), ("DAV", "1, 2"));
    assert_eq!(h[1].name, "Allow");
    assert_eq!(h[1].value, "GET, DELETE, PROPPATCH, HEAD, OPTIONS, MKCOL, PROPFIND, COPY, MOVE");
    assert_eq!(methods().len(), 9);
}

#[test]
fn lock_echoes_depth_and_timeout() {
    let body = lock_body(None, None);
    assert!(body.contains("<D:depth>0</D:depth>"));
    assert!(body.contains("<D:timeout>Infinite</D:timeout>"));
    let body = lock_body(Some("infinity"), Some("Second-60"));
    assert!(body.contains("<D:depth>infinity</D:depth>"));
    assert!(body.contains("<D:timeout>Second-60</D:timeout>"));
}

#[test]
fn routes_known_methods() {
    assert_eq!(route("PROPFIND"), Some(DavMethod::Propfind));
    assert_eq!(route("UNLOCK"), Some(DavMethod::Unlock));
    assert_eq!(route("PUT"), Some(DavMethod::Put));
    assert_eq!(route("PATCH"), None);
    assert_eq!(route("get"), None);
}

#[test]
fn listing_gathers_pages_until_not_truncated() {
    assert_eq!(list_prefix(""), None);
    assert_eq!(list_prefix("docs"), Some("docs".to_string()));
    let mut listing = Listing::new();
    assert!(listing.absorb(vec![object("docs/a", 1), object("docs/b", 2)], true));
    assert!(!listing.absorb(vec![object("docs/c", 3)], false));
    let keys: Vec<&str> = listing.objects.iter().map(|o| o.key.as_str()).collect();
    assert_eq!(keys, vec!["docs/a", "docs/b", "docs/c"]);
}

#[test]
fn root_listing_uses_bare_child_hrefs() {
    let objects = vec![object("a.txt", 1), object("dir/b.txt", 2)];
    let doc = propfind_listing("", &objects, "NOW").unwrap();
    assert_eq!(hrefs(&doc), vec!["/".to_string(), "/a.txt".to_string(), "/dir".to_string()]);
}

#[test]
fn untyped_marker_is_a_directory_type() {
    let o = ObjectInfo {
        key: "docs/".to_string(),
        size: 0,
        etag: "e".to_string(),
        uploaded: "T".to_string(),
        content_type: None,
        resource_type: None,
    };
    let xml = DavBuilder::new().object("/docs/", Some(&o)).build();
    assert!(xml.contains("<getcontenttype>httpd/unix-directory</getcontenttype>"));
    let typed = object("docs/a.txt", 1);
    let xml = DavBuilder::new().object("/docs/a.txt", Some(&typed)).build();
    assert!(xml.contains("<getcontenttype>text/plain</getcontenttype>"));
}

#[test]
fn directory_fragment_has_one_date() {
    let mut b = DavBuilder::new();
    assert!(!b.creation_date.is_empty());
    b.creation_date = "A".to_string();
    b.get_last_modified = "B".to_string();
    let xml = b.object("/d", None).build();
    assert!(xml.contains("<creationdate>A</creationdate>"));
    assert!(xml.contains("<getlastmodified>A</getlastmodified>"));
}

#[test]
fn delete_plan_removes_leaf_alone() {
    let listed = vec!["x/a".to_string()];
    assert_eq!(delete_plan("x", true, &Vec::new()), Some(vec!["x".to_string()]));
    assert_eq!(delete_plan("x", false, &listed), Some(vec!["x/a".to_string(), "x".to_string()]));
    assert_eq!(delete_plan("x", false, &Vec::new()), None);
}

#[test]
fn fixed_statuses_per_route() {
    assert_eq!(fixed_status(None), Some(405));
    assert_eq!(fixed_status(route("UNLOCK")), Some(204));
    assert_eq!(fixed_status(route("COPY")), Some(501));
    assert_eq!(fixed_status(route("MOVE")), Some(501));
    assert_eq!(fixed_status(route("PROPPATCH")), Some(501));
    assert_eq!(fixed_status(route("GET")), None);
    assert_eq!(reason(501), "Not Implemented");
    assert_eq!(reason(403), "Forbidden");
    assert_eq!(reason(404), "Not Found");
    assert_eq!(reason(409), "Conflict");
}
