use brew_front::install::{InstallError, ReInstallError, UnInstallError};
use brew_front::json::{same_text, JsonValue};
use brew_front::listing::{join_listings, list, package_lines};
use brew_front::package::{
    info_state_of, InstalledPackage, InstalledPackageCreateError, NotInstalledPackage, Package,
    PackageCreateError, PackageType,
};
use brew_front::tool::{action_args, info_args, list_args, ToolOutput};

fn ok(stdout: &str) -> ToolOutput {
    ToolOutput { success: true, stdout: stdout.to_string(), stderr: String::new() }
}

fn failed(stderr: &str) -> ToolOutput {
    ToolOutput { success: false, stdout: String::new(), stderr: stderr.to_string() }
}

const BOTH_KINDS: &str = r#"{"formulae":[{"name":"julia","installed":[{"version":"1.10"}]}],"casks":[{"token":"julia","installed":null}]}"#;
const FORMULA_ONLY: &str = r#"{"formulae":[{"name":"julia","installed":[{"version":"1.10"}]}],"casks":[]}"#;
const CASK_ONLY_ABSENT: &str = r#"{"formulae":[],"casks":[{"token":"julia","installed":null}]}"#;

#[test]
fn julia_scope_decides() {
    assert_eq!(
        Package::new("julia", Some(PackageType::Formula), ok(FORMULA_ONLY)),
        Some(Ok(Package::Installed(InstalledPackage::new_without_check("julia", PackageType::Formula))))
    );
    assert_eq!(
        Package::new("julia", Some(PackageType::Cask), ok(CASK_ONLY_ABSENT)),
        Some(Ok(Package::NotInstalled(NotInstalledPackage::new_without_check("julia", PackageType::Cask))))
    );
}

#[test]
fn unscoped_lookup_prefers_formula() {
    assert_eq!(
        Package::new("julia", None, ok(BOTH_KINDS)),
        Some(Ok(Package::Installed(InstalledPackage::new_without_check("julia", PackageType::Formula))))
    );
}

#[test]
fn unknown_name_fails_with_diagnostic() {
    let r = Package::new("no-such-package", None, failed("Error: No available formula or cask"));
    assert_eq!(
        r,
        Some(Err(PackageCreateError { msg: "Error: No available formula or cask".to_string() }))
    );
}

#[test]
fn malformed_documents_are_refused() {
    assert_eq!(Package::new("x", None, ok("not json")), None);
    assert_eq!(Package::new("x", None, ok(r#"{"formulae":[],"casks":[]}"#)), None);
    assert_eq!(Package::new("x", None, ok(r#"{"formulae":[]}"#)), None);
    assert_eq!(Package::new("x", None, ok(r#"{"formulae":[{"name":"x"}],"casks":[]}"#)), None);
    assert_eq!(Package::new("x", None, ok(r#"{"formulae":[{"installed":"1.0"}],"casks":[]}"#)), None);
    assert_eq!(Package::new("x", None, ok(r#"{"formulae":[3],"casks":[]}"#)), None);
    assert_eq!(Package::new("x", None, ok(r#"{"formulae":[],"casks":[{"token":"x"}]}"#)), None);
}

#[test]
fn answer_outside_the_scope_is_refused() {
    assert_eq!(Package::new("julia", Some(PackageType::Cask), ok(FORMULA_ONLY)), None);
    assert_eq!(Package::new("julia", Some(PackageType::Formula), ok(CASK_ONLY_ABSENT)), None);
}

#[test]
fn cask_installed_needs_a_version_string() {
    let doc = r#"{"formulae":[],"casks":[{"token":"x","installed":false}]}"#;
    assert_eq!(
        Package::new("x", None, ok(doc)),
        Some(Ok(Package::NotInstalled(NotInstalledPackage::new_without_check("x", PackageType::Cask))))
    );
}

#[test]
fn info_state_reads_a_built_tree() {
    let entry = JsonValue::Object(vec![(
        "installed".to_string(),
        JsonValue::Array(vec![JsonValue::Str("1.0".to_string())]),
    )]);
    let doc = JsonValue::Object(vec![
        ("casks".to_string(), JsonValue::Array(vec![])),
        ("formulae".to_string(), JsonValue::Array(vec![entry])),
    ]);
    assert_eq!(info_state_of(&doc), Some((PackageType::Formula, true)));
    assert_eq!(
        Package::from_info("jq", Some(PackageType::Formula), &doc),
        Some(Package::Installed(InstalledPackage::new_without_check("jq", PackageType::Formula)))
    );
    assert_eq!(Package::from_info("jq", Some(PackageType::Cask), &doc), None);
    assert_eq!(info_state_of(&JsonValue::Null), None);
}

#[test]
fn json_get_finds_members() {
    let doc = JsonValue::Object(vec![
        ("a".to_string(), JsonValue::Bool(true)),
        ("b".to_string(), JsonValue::Number("12".to_string())),
    ]);
    assert_eq!(doc.get("b"), Some(&JsonValue::Number("12".to_string())));
    assert_eq!(doc.get("c"), None);
    assert_eq!(JsonValue::Array(vec![]).get("a"), None);
    assert!(same_text("abc", "abc"));
    assert!(!same_text("abc", "abd"));
    assert!(!same_text("abc", "ab"));
}

#[test]
fn require_installed_outcomes() {
    assert_eq!(
        InstalledPackage::new("julia", Some(PackageType::Cask), ok(CASK_ONLY_ABSENT)),
        Some(Err(InstalledPackageCreateError::NotInstalled))
    );
    assert_eq!(
        InstalledPackage::new("julia", None, ok(FORMULA_ONLY)),
        Some(Ok(InstalledPackage::new_without_check("julia", PackageType::Formula)))
    );
    assert_eq!(
        InstalledPackage::new("nope", None, failed("no such package")),
        Some(Err(InstalledPackageCreateError::CreateError(PackageCreateError {
            msg: "no such package".to_string()
        })))
    );
    assert_eq!(InstalledPackage::new("x", None, ok("[]")), None);
}

#[test]
fn error_messages() {
    let e = InstalledPackageCreateError::CreateError(PackageCreateError { msg: "boom".to_string() });
    assert_eq!(e.message(), "The package couldn't create because boom");
    assert_eq!(InstalledPackageCreateError::NotInstalled.message(), "The package was not installed");
    assert_eq!(PackageCreateError { msg: "m".to_string() }.message(), "m");
}

#[test]
fn flags_and_arguments() {
    assert_eq!(PackageType::Formula.flag(), "--formula");
    assert_eq!(PackageType::Cask.flag(), "--cask");
    assert_eq!(info_args("wget", None), vec!["info", "--json=v2", "wget"]);
    assert_eq!(info_args("wget", Some(PackageType::Cask)), vec!["info", "--cask", "--json=v2", "wget"]);
    assert_eq!(action_args("search", PackageType::Formula, "wg"), vec!["search", "--formula", "wg"]);
    assert_eq!(list_args(PackageType::Cask), vec!["list", "--cask"]);
    let p = NotInstalledPackage::new_without_check("wget", PackageType::Formula);
    assert_eq!(p.install_args(), vec!["install", "--formula", "wget"]);
    let q = InstalledPackage::new_without_check("warp", PackageType::Cask);
    assert_eq!(q.uninstall_args(), vec!["uninstall", "--cask", "warp"]);
    assert_eq!(q.reinstall_args(), vec!["reinstall", "--cask", "warp"]);
}

#[test]
fn install_then_uninstall_round_trip() {
    let p = NotInstalledPackage::new_without_check("wget", PackageType::Formula);
    let installed = p.install(ok("")).unwrap();
    assert_eq!(installed, InstalledPackage::new_without_check("wget", PackageType::Formula));
    let back = installed.uninstall(ok("")).unwrap();
    assert_eq!(back, NotInstalledPackage::new_without_check("wget", PackageType::Formula));
}

#[test]
fn failed_transitions_carry_the_diagnostic() {
    let p = NotInstalledPackage::new_without_check("wget", PackageType::Formula);
    assert_eq!(p.install(failed("install failed")), Err(InstallError { msg: "install failed".to_string() }));
    let q = InstalledPackage::new_without_check("warp", PackageType::Cask);
    assert_eq!(q.uninstall(failed("busy")), Err(UnInstallError { msg: "busy".to_string() }));
    let q = InstalledPackage::new_without_check("warp", PackageType::Cask);
    let e = q.reinstall(failed("no network")).unwrap_err();
    assert_eq!(e, ReInstallError { msg: "no network".to_string() });
    assert_eq!(e.message(), "no network");
}

#[test]
fn reinstall_returns_the_same_package() {
    let q = InstalledPackage::new_without_check("warp", PackageType::Cask);
    assert_eq!(q.reinstall(ok("done")), Ok(InstalledPackage::new_without_check("warp", PackageType::Cask)));
}

#[test]
fn lines_are_split_like_the_manager_prints_them() {
    assert_eq!(package_lines("a\nb\n"), vec!["a", "b"]);
    assert_eq!(package_lines("a\r\nb"), vec!["a", "b"]);
    assert_eq!(package_lines(""), Vec::<String>::new());
    assert_eq!(package_lines("\n"), vec![""]);
    assert_eq!(package_lines("a\n\nb"), vec!["a", "", "b"]);
    assert_eq!(package_lines("a\r"), vec!["a\r"]);
    assert_eq!(package_lines("x\ny"), "x\ny".lines().collect::<Vec<_>>());
}

#[test]
fn listing_both_kinds_keeps_order() {
    let formulae = list(PackageType::Formula, "git\njq\n");
    let casks = list(PackageType::Cask, "warp\n");
    assert_eq!(
        formulae,
        vec![
            InstalledPackage::new_without_check("git", PackageType::Formula),
            InstalledPackage::new_without_check("jq", PackageType::Formula),
        ]
    );
    let all = join_listings(formulae, casks);
    assert_eq!(all.len(), 3);
    assert_eq!(
        all,
        vec![
            InstalledPackage::new_without_check("git", PackageType::Formula),
            InstalledPackage::new_without_check("jq", PackageType::Formula),
            InstalledPackage::new_without_check("warp", PackageType::Cask),
        ]
    );
    assert_eq!(list(PackageType::Cask, ""), vec![]);
}
