use types_installer::filter::{install_list, is_type_package, type_package_name};
use types_installer::manifest::{collect_deps, unpack_deps, ManifestDependencies};
use types_installer::plan::{install_command, install_invocations, plan, ManifestError, Outcome};

fn group(entries: &[(&str, &str)]) -> Option<Vec<(String, String)>> {
    Some(entries.iter().map(|(n, v)| (n.to_string(), v.to_string())).collect())
}

fn strings(items: &[&str]) -> Vec<String> {
    items.iter().map(|s| s.to_string()).collect()
}

fn installs(outcome: &Outcome) -> Vec<String> {
    match outcome {
        Outcome::Install(list) => list.clone(),
        _ => Vec::new(),
    }
}

#[test]
fn lodash_with_typed_dev_dependency() {
    let m = ManifestDependencies {
        dependencies: group(&[("lodash", "^4.0.0")]),
        dev_dependencies: group(&[("@types/node", "^10.0.0")]),
    };
    assert_eq!(collect_deps(&m), strings(&["lodash", "@types/node"]));
    let outcome = plan(Ok(m));
    assert!(matches!(outcome, Outcome::Install(_)));
    assert_eq!(installs(&outcome), strings(&["@types/lodash"]));
    assert_eq!(outcome.exit_code(), 0);
}

#[test]
fn count_with_disjoint_groups() {
    let m = ManifestDependencies {
        dependencies: group(&[("react", "^16"), ("@types/jest", "^24"), ("express", "4")]),
        dev_dependencies: group(&[("mocha", "^6"), ("@types/chai", "^4")]),
    };
    let outcome = plan(Ok(m));
    assert_eq!(installs(&outcome), strings(&["@types/react", "@types/express", "@types/mocha"]));
    assert_eq!(outcome.invocations().len(), 3);
}

#[test]
fn all_typed_installs_nothing() {
    let m = ManifestDependencies {
        dependencies: group(&[("@types/node", "^10.0.0")]),
        dev_dependencies: group(&[("@types/react", "^16.0.0"), ("@types/lodash", "^4")]),
    };
    let outcome = plan(Ok(m));
    assert!(matches!(outcome, Outcome::NothingToInstall));
    assert_eq!(outcome.exit_code(), 0);
    assert!(outcome.invocations().is_empty());
}

#[test]
fn absent_groups_install_nothing() {
    let m = ManifestDependencies { dependencies: None, dev_dependencies: None };
    assert!(collect_deps(&m).is_empty());
    let outcome = plan(Ok(m));
    assert!(matches!(outcome, Outcome::NothingToInstall));
    assert_eq!(outcome.exit_code(), 0);
    assert!(outcome.invocations().is_empty());
}

#[test]
fn empty_groups_install_nothing() {
    let m = ManifestDependencies { dependencies: group(&[]), dev_dependencies: None };
    let outcome = plan(Ok(m));
    assert!(matches!(outcome, Outcome::NothingToInstall));
    assert_eq!(outcome.exit_code(), 0);
}

#[test]
fn missing_manifest_is_fatal() {
    let outcome = plan(Err(ManifestError::ManifestNotFound));
    assert!(matches!(outcome, Outcome::Fatal(ManifestError::ManifestNotFound)));
    assert_eq!(outcome.exit_code(), 1);
    assert!(outcome.invocations().is_empty());
}

#[test]
fn parse_error_is_fatal() {
    let outcome = plan(Err(ManifestError::ManifestParseError("expected value".to_string())));
    match &outcome {
        Outcome::Fatal(ManifestError::ManifestParseError(d)) => assert_eq!(d, "expected value"),
        _ => panic!("parse error not fatal"),
    }
    assert_eq!(outcome.exit_code(), 1);
    assert!(outcome.invocations().is_empty());
}

#[test]
fn duplicate_names_are_kept() {
    let m = ManifestDependencies {
        dependencies: group(&[("lodash", "^4")]),
        dev_dependencies: group(&[("lodash", "^4")]),
    };
    assert_eq!(collect_deps(&m), strings(&["lodash", "lodash"]));
    assert_eq!(installs(&plan(Ok(m))), strings(&["@types/lodash", "@types/lodash"]));
}

#[test]
fn unpack_keeps_group_order() {
    let g = group(&[("b", "1"), ("a", "2"), ("c", "3")]);
    assert_eq!(unpack_deps(&g), strings(&["b", "a", "c"]));
    assert!(unpack_deps(&None).is_empty());
}

#[test]
fn type_prefix_detection() {
    assert!(is_type_package("@types/node"));
    assert!(is_type_package("@types/"));
    assert!(!is_type_package("@types"));
    assert!(!is_type_package("@typesx/node"));
    assert!(!is_type_package("lodash"));
    assert!(!is_type_package(""));
    assert!(!is_type_package("@babel/core"));
}

#[test]
fn type_package_names() {
    assert_eq!(type_package_name("lodash"), "@types/lodash");
    assert_eq!(type_package_name("ünïcode"), "@types/ünïcode");
    assert_eq!(type_package_name(""), "@types/");
}

#[test]
fn install_list_filters_and_maps_in_order() {
    let names = strings(&["a", "@types/b", "c", "@types/d"]);
    assert_eq!(install_list(&names), strings(&["@types/a", "@types/c"]));
    assert!(install_list(&Vec::new()).is_empty());
}

#[test]
fn one_command_per_package() {
    let list = strings(&["@types/lodash", "@types/react"]);
    let commands = install_invocations(&list);
    assert_eq!(commands.len(), list.len());
    assert_eq!(commands[0], strings(&["npm", "install", "@types/lodash", "--save-dev"]));
    assert_eq!(commands[1], strings(&["npm", "install", "@types/react", "--save-dev"]));
    assert_eq!(install_command("x"), strings(&["npm", "install", "x", "--save-dev"]));
}

#[test]
fn install_outcome_invocations() {
    let outcome = plan(Ok(ManifestDependencies {
        dependencies: group(&[("lodash", "^4.0.0")]),
        dev_dependencies: None,
    }));
    assert_eq!(
        outcome.invocations(),
        vec![strings(&["npm", "install", "@types/lodash", "--save-dev"])]
    );
}
