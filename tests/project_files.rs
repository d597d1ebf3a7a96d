use qtex::bundle::{bundle_name, in_bundle, is_bundled_extension, select_bundle, BundleError};
use qtex::install::{
    get_qtex_dir, get_versions_dir, is_stale_version, join_path, qtex_dir_in, stale_given, strip_tag,
    update_status, versions_dir_in, UpdateStatus,
};
use qtex::report::{findings_report, push_decimal, validation_result, Finding};
use qtex::text::{extension, file_name, same_text};

#[test]
fn names_and_extensions() {
    assert_eq!(file_name("/a/b/main.tex"), "main.tex");
    assert_eq!(file_name("C:\\x\\y.bib"), "y.bib");
    assert_eq!(file_name("plain"), "plain");
    assert_eq!(file_name("dir/"), "");
    assert_eq!(extension("/a/b/main.tex"), Some("tex"));
    assert_eq!(extension("/a/archive.tar.gz"), Some("gz"));
    assert_eq!(extension("/a/.bashrc"), None);
    assert_eq!(extension("/a/v1.0/README"), None);
    assert_eq!(extension("/a/trail."), Some(""));
    assert!(same_text("abc", "abc"));
    assert!(!same_text("abc", "abd"));
}

#[test]
fn bundle_selection_folds_case() {
    assert!(in_bundle("/p/Main.TEX", "output.pdf", false));
    assert!(in_bundle("/p/Main.TEX", "output.pdf", true));
    assert!(in_bundle("/p/data.CSV", "output.pdf", false));
    assert!(!in_bundle("/p/data.CSV", "output.pdf", true));
    assert!(!in_bundle("/p/output.pdf", "output.pdf", false));
    assert!(in_bundle("/p/figure.pdf", "output.pdf", false));
    assert!(!in_bundle("/p/notes.md", "output.pdf", false));
    assert!(!in_bundle("/p/README", "output.pdf", false));
    assert!(is_bundled_extension("tikz"));
    assert!(!is_bundled_extension("TIKZ"));
}

#[test]
fn select_bundle_keeps_order_and_reports_empty() {
    let paths: Vec<String> = ["/p/a.tex", "/p/output.pdf", "/p/x.md", "/p/img/b.PNG"]
        .iter()
        .map(|s| s.to_string())
        .collect();
    let picked = select_bundle(&paths, "output.pdf", false).unwrap();
    assert_eq!(picked, vec!["/p/a.tex".to_string(), "/p/img/b.PNG".to_string()]);
    let only_tex = select_bundle(&paths, "output.pdf", true).unwrap();
    assert_eq!(only_tex, vec!["/p/a.tex".to_string()]);
    let none: Vec<String> = vec!["/p/x.md".to_string()];
    assert_eq!(select_bundle(&none, "output.pdf", false), Err(BundleError::NoFiles));
    assert_eq!(select_bundle(&Vec::new(), "output.pdf", true), Err(BundleError::NoFiles));
}

#[test]
fn bundle_names_use_forward_slashes() {
    assert_eq!(bundle_name("chapters\\one.tex"), "chapters/one.tex");
    assert_eq!(bundle_name("a/b.tex"), "a/b.tex");
    assert_eq!(bundle_name(""), "");
}

#[test]
fn install_directories() {
    assert_eq!(join_path("/home/u", ".qtex"), "/home/u/.qtex");
    assert_eq!(join_path("/home/u/", ".qtex"), "/home/u/.qtex");
    assert_eq!(join_path("", "x"), "x");
    assert_eq!(qtex_dir_in(None), "./.qtex");
    assert_eq!(versions_dir_in(Some("/home/u".to_string())), "/home/u/.qtex/versions");
    assert!(get_qtex_dir().ends_with(".qtex"));
    assert!(get_versions_dir().ends_with(".qtex/versions"));
}

#[test]
fn stale_versions() {
    assert!(is_stale_version("0.1.0", "0.2.0"));
    assert!(!is_stale_version("0.3.0", "0.2.0"));
    assert!(!is_stale_version("0.2.0", "0.2.0"));
    assert!(!is_stale_version("latest", "0.2.0"));
    assert!(is_stale_version("0.1.0", "dev"));
    assert!(!is_stale_version("junk", "dev"));
}

#[test]
fn release_tags() {
    assert_eq!(strip_tag("v1.2.3"), "1.2.3");
    assert_eq!(strip_tag("vv2"), "2");
    assert_eq!(strip_tag("1.0"), "1.0");
    assert_eq!(update_status("v1.2.3", "1.2.3"), UpdateStatus::UpToDate);
    assert_eq!(update_status("v1.3.0", "1.2.3"), UpdateStatus::Available);
    assert_eq!(update_status("v", "1.2.3"), UpdateStatus::Unknown);
    assert_eq!(update_status("", "1.2.3"), UpdateStatus::Unknown);
}

#[test]
fn validation_reports() {
    let mut s = String::new();
    push_decimal(&mut s, 0);
    push_decimal(&mut s, 4294967295);
    assert_eq!(s, "04294967295");
    let fs = vec![
        Finding { line: Some(12), message: "Undefined control sequence".to_string() },
        Finding { line: None, message: "Missing \\end{document}".to_string() },
    ];
    assert_eq!(
        findings_report(&fs),
        "[Line Some(12)] Undefined control sequence\n[Line None] Missing \\end{document}"
    );
    assert_eq!(findings_report(&Vec::new()), "");
    assert_eq!(validation_result(true, &fs), Ok(()));
    assert_eq!(validation_result(false, &Vec::new()), Err(String::new()));
    assert_eq!(
        validation_result(false, &fs[..1].iter().map(|f| Finding { line: f.line, message: f.message.clone() }).collect()),
        Err("[Line Some(12)] Undefined control sequence".to_string())
    );
}

#[test]
fn stale_decisions() {
    assert!(!stale_given(false, true, true, false));
    assert!(stale_given(true, true, true, false));
    assert!(!stale_given(true, true, false, false));
    assert!(stale_given(true, false, false, false));
    assert!(!stale_given(true, false, true, true));
}
