//! Tests for path splitting, request resolution and path realization.

use rpm_server::http::{RequestUri, Status};
use rpm_server::paths::{
    classify_segment, convert_string_com, drop_non_string_comp, join_path, path_components,
    Component,
};
use rpm_server::resolver::{has_rpm_extension, parse_request, RepoRequest};

fn abs(path: &str) -> RequestUri {
    RequestUri::AbsolutePath(path.to_owned())
}

#[test]
fn one_segment_resolves_to_repo_only() {
    let r = parse_request(&abs("/acme")).unwrap();
    assert_eq!(r.repo_name, "acme");
    assert_eq!(r.file_name, None);
}

#[test]
fn two_segments_resolve_to_repo_and_file() {
    let r = parse_request(&abs("/acme/pkg-1.0.rpm")).unwrap();
    assert_eq!(r.repo_name, "acme");
    assert_eq!(r.file_name, Some("pkg-1.0.rpm".to_owned()));
}

#[test]
fn trailing_slash_is_ignored() {
    let r = parse_request(&abs("/acme/")).unwrap();
    assert_eq!(r.repo_name, "acme");
    assert_eq!(r.file_name, None);
}

#[test]
fn repeated_slashes_are_ignored() {
    let r = parse_request(&abs("//acme///pkg.rpm")).unwrap();
    assert_eq!(r.repo_name, "acme");
    assert_eq!(r.file_name, Some("pkg.rpm".to_owned()));
}

#[test]
fn parent_references_are_discarded_before_counting() {
    let r = parse_request(&abs("/../acme")).unwrap();
    assert_eq!(r.repo_name, "acme");
    assert_eq!(r.file_name, None);

    let r = parse_request(&abs("/acme/../pkg.rpm")).unwrap();
    assert_eq!(r.repo_name, "acme");
    assert_eq!(r.file_name, Some("pkg.rpm".to_owned()));
}

#[test]
fn current_dir_references_are_discarded() {
    let r = parse_request(&abs("/./acme/./pkg.rpm")).unwrap();
    assert_eq!(r.repo_name, "acme");
    assert_eq!(r.file_name, Some("pkg.rpm".to_owned()));
}

#[test]
fn empty_path_is_rejected() {
    for p in ["", "/", "//", "/..", "/./.."] {
        let e = parse_request(&abs(p)).unwrap_err();
        assert_eq!(e.code, Status::BadRequest);
        assert_eq!(e.error, "Invalid path specified");
    }
}

#[test]
fn three_segments_are_rejected() {
    let e = parse_request(&abs("/a/b/c")).unwrap_err();
    assert_eq!(e.code, Status::BadRequest);
}

#[test]
fn non_path_uris_are_rejected() {
    for uri in [
        RequestUri::Star,
        RequestUri::AbsoluteUri,
        RequestUri::Authority("example.com:80".to_owned()),
    ] {
        let e = parse_request(&uri).unwrap_err();
        assert_eq!(e.code, Status::BadRequest);
        assert_eq!(e.error, "Invalid URI specified");
    }
}

#[test]
fn components_classify_every_segment() {
    let comps = path_components("/a/./../b");
    assert_eq!(
        comps,
        vec![
            Component::RootDir,
            Component::Normal("a".to_owned()),
            Component::CurDir,
            Component::ParentDir,
            Component::Normal("b".to_owned()),
        ]
    );
}

#[test]
fn classify_segment_cases() {
    assert_eq!(classify_segment(""), None);
    assert_eq!(classify_segment("."), Some(Component::CurDir));
    assert_eq!(classify_segment(".."), Some(Component::ParentDir));
    assert_eq!(
        classify_segment("...rpm"),
        Some(Component::Normal("...rpm".to_owned()))
    );
}

#[test]
fn component_filter_and_conversion() {
    let keep = Component::Normal("acme".to_owned());
    assert!(drop_non_string_comp(&keep));
    assert!(!drop_non_string_comp(&Component::RootDir));
    assert!(!drop_non_string_comp(&Component::CurDir));
    assert!(!drop_non_string_comp(&Component::ParentDir));
    assert_eq!(convert_string_com(&keep), "acme");
}

#[test]
fn join_inserts_single_separator() {
    assert_eq!(join_path("/srv", "acme"), "/srv/acme");
    assert_eq!(join_path("/srv/", "acme"), "/srv/acme");
    assert_eq!(join_path("", "acme"), "acme");
}

#[test]
fn repo_path_joins_root_and_name() {
    let req = RepoRequest {
        repo_name: "acme".to_owned(),
        file_name: None,
    };
    assert_eq!(req.repo_path(&"/srv".to_owned()), "/srv/acme");
}

#[test]
fn ensure_repo_exists_lists_layout_in_order() {
    let req = RepoRequest {
        repo_name: "acme".to_owned(),
        file_name: None,
    };
    let dirs = req.ensure_repo_exists(&"/srv".to_owned());
    assert_eq!(dirs, vec!["/srv/acme".to_owned(), "/srv/acme/rpms".to_owned()]);
}

#[test]
fn ensure_repo_exists_is_deterministic() {
    let req = RepoRequest {
        repo_name: "acme".to_owned(),
        file_name: None,
    };
    let first = req.ensure_repo_exists(&"/srv".to_owned());
    let second = req.ensure_repo_exists(&"/srv".to_owned());
    assert_eq!(first, second);
}

#[test]
fn file_path_accepts_rpm_suffix() {
    let req = RepoRequest {
        repo_name: "acme".to_owned(),
        file_name: Some("pkg-1.0.rpm".to_owned()),
    };
    assert_eq!(
        req.file_path(&"/srv".to_owned()).unwrap(),
        "/srv/acme/rpms/pkg-1.0.rpm"
    );
}

#[test]
fn file_path_accepts_multiple_dots() {
    let req = RepoRequest {
        repo_name: "acme".to_owned(),
        file_name: Some("pkg.tar.rpm".to_owned()),
    };
    assert_eq!(
        req.file_path(&"/srv".to_owned()).unwrap(),
        "/srv/acme/rpms/pkg.tar.rpm"
    );
}

#[test]
fn file_path_rejects_wrong_extension() {
    for name in ["pkg-1.0.tar", "pkg", "rpm", ".rpm", "pkg.rpmx", "pkg.RPM"] {
        let req = RepoRequest {
            repo_name: "acme".to_owned(),
            file_name: Some(name.to_owned()),
        };
        let e = req.file_path(&"/srv".to_owned()).unwrap_err();
        assert_eq!(e.code, Status::BadRequest);
        assert_eq!(e.error, "Unexpected file name, it must be rpm file");
    }
}

#[test]
fn file_path_rejects_missing_file_name() {
    let req = RepoRequest {
        repo_name: "acme".to_owned(),
        file_name: None,
    };
    let e = req.file_path(&"/srv".to_owned()).unwrap_err();
    assert_eq!(e.code, Status::BadRequest);
    assert_eq!(e.error, "No file name specified, an rpm file is required");
}

#[test]
fn rpm_extension_rule() {
    assert!(has_rpm_extension("a.rpm"));
    assert!(has_rpm_extension("a..rpm"));
    assert!(has_rpm_extension("..rpm"));
    assert!(!has_rpm_extension(".rpm"));
    assert!(!has_rpm_extension("rpm"));
    assert!(!has_rpm_extension("a.tar"));
    assert!(!has_rpm_extension(""));
}
