//! Sidecar policy tests: target selection, naming, and missing-set decisions.

use sidecar_hasher::digest::Algo;
use sidecar_hasher::policy::{
    algo_ext, algo_label, algorithms, ends_with_bytes, has_extension, is_sidecar_name, is_target,
    missing_algorithms, required_work, sidecar_name, SidecarPresence,
};

fn presence(md5: bool, sha1: bool, sha256: bool, sha512: bool) -> SidecarPresence {
    SidecarPresence { md5, sha1, sha256, sha512 }
}

#[test]
fn extensions_and_labels() {
    assert_eq!(algo_ext(Algo::Md5), b"md5".to_vec());
    assert_eq!(algo_ext(Algo::Sha1), b"sha1".to_vec());
    assert_eq!(algo_ext(Algo::Sha256), b"sha256".to_vec());
    assert_eq!(algo_ext(Algo::Sha512), b"sha512".to_vec());
    assert_eq!(algo_label(Algo::Md5), "md5");
    assert_eq!(algo_label(Algo::Sha1), "sha1");
    assert_eq!(algo_label(Algo::Sha256), "sha256");
    assert_eq!(algo_label(Algo::Sha512), "sha512");
}

#[test]
fn suffix_checks() {
    assert!(ends_with_bytes(b"artifact.jar.md5", b"md5"));
    assert!(ends_with_bytes(b"md5", b"md5"));
    assert!(ends_with_bytes(b"xmd5", b"md5"));
    assert!(!ends_with_bytes(b"md", b"md5"));
    assert!(!ends_with_bytes(b"artifact.jar", b"md5"));
}

#[test]
fn sidecar_files_are_excluded() {
    // a checksum file is never itself a hashing target
    assert!(is_sidecar_name(b"artifact.jar.sha256"));
    assert!(!is_target(b"artifact.jar.sha256", true));
    assert!(is_sidecar_name(b"artifact.jar.md5"));
    assert!(is_sidecar_name(b"artifact.jar.sha1"));
    assert!(is_sidecar_name(b"artifact.jar.sha512"));
    assert!(!is_sidecar_name(b"artifact.jar"));
}

#[test]
fn only_regular_files_are_targets() {
    assert!(is_target(b"artifact.jar", true));
    assert!(!is_target(b"artifact.jar", false));
}

#[test]
fn extension_detection() {
    assert!(has_extension(b"lib-1.0.jar"));
    assert!(has_extension(b"a.b"));
    assert!(!has_extension(b"README"));
    // a single leading dot marks a hidden file, not an extension
    assert!(!has_extension(b".gitignore"));
    assert!(has_extension(b".tar.gz"));
}

#[test]
fn sidecar_name_appends_algorithm_extension() {
    assert_eq!(
        sidecar_name(b"lib-1.0.jar", Algo::Md5),
        Some(b"lib-1.0.jar.md5".to_vec())
    );
    assert_eq!(
        sidecar_name(b"lib-1.0.jar", Algo::Sha512),
        Some(b"lib-1.0.jar.sha512".to_vec())
    );
    assert_eq!(sidecar_name(b"README", Algo::Md5), None);
}

#[test]
fn fresh_file_needs_all_four() {
    let missing = missing_algorithms(&presence(false, false, false, false));
    assert_eq!(missing, vec![Algo::Md5, Algo::Sha1, Algo::Sha256, Algo::Sha512]);
    assert_eq!(missing, algorithms());
}

#[test]
fn partial_completion_computes_only_the_absent() {
    // pre-existing artifact.jar.md5: exactly the other three are planned
    let missing = missing_algorithms(&presence(true, false, false, false));
    assert_eq!(missing, vec![Algo::Sha1, Algo::Sha256, Algo::Sha512]);
}

#[test]
fn complete_file_needs_nothing() {
    let missing = missing_algorithms(&presence(true, true, true, true));
    assert_eq!(missing, Vec::new());
}

#[test]
fn required_work_combines_exclusion_and_presence() {
    let none = presence(false, false, false, false);
    assert_eq!(required_work(b"artifact.jar", true, &none), algorithms());
    assert_eq!(required_work(b"artifact.jar.sha256", true, &none), Vec::new());
    assert_eq!(required_work(b"artifact.jar", false, &none), Vec::new());
    assert_eq!(
        required_work(b"artifact.jar", true, &presence(true, true, false, true)),
        vec![Algo::Sha256]
    );
}
