use substreams_bridge::locator::{
    is_valid_package_name, parse_standard_package_and_version, resolve_package, LocatorError,
    PackageLocation,
};
use substreams_bridge::package::{Module, Package};

#[test]
fn name_and_version_resolve_to_the_registry() {
    match resolve_package("foo@v1.2.3") {
        PackageLocation::Registry(url) => assert_eq!(url, "https://spkg.io/v1/packages/foo/v1.2.3"),
        _ => panic!("expected a registry address"),
    }
}

#[test]
fn name_alone_resolves_to_latest() {
    match resolve_package("foo") {
        PackageLocation::Registry(url) => assert_eq!(url, "https://spkg.io/v1/packages/foo/latest"),
        _ => panic!("expected a registry address"),
    }
    assert!(matches!(
        parse_standard_package_and_version("foo@"),
        Ok((name, version)) if name == "foo" && version == "latest"
    ));
    assert!(matches!(
        parse_standard_package_and_version("foo@latest"),
        Ok((name, version)) if name == "foo" && version == "latest"
    ));
}

#[test]
fn name_with_a_space_fails_name_validation() {
    match parse_standard_package_and_version("Foo Bar") {
        Err(LocatorError::InvalidName(name)) => assert_eq!(name, "Foo Bar"),
        _ => panic!("expected an invalid name"),
    }
}

#[test]
fn version_that_is_no_semver_fails_version_validation() {
    match parse_standard_package_and_version("foo@not-a-version") {
        Err(LocatorError::InvalidVersion(version)) => assert_eq!(version, "not-a-version"),
        _ => panic!("expected an invalid version"),
    }
}

#[test]
fn more_than_one_at_sign_breaks_the_convention() {
    match parse_standard_package_and_version("foo@1.0.0@x") {
        Err(LocatorError::Convention(input)) => assert_eq!(input, "foo@1.0.0@x"),
        _ => panic!("expected a broken convention"),
    }
}

#[test]
fn version_without_prefix_is_accepted() {
    assert!(matches!(
        parse_standard_package_and_version("injective-common@0.2.3"),
        Ok((name, version)) if name == "injective-common" && version == "0.2.3"
    ));
}

#[test]
fn only_one_leading_v_is_stripped() {
    assert!(matches!(
        parse_standard_package_and_version("foo@vv1.2.3"),
        Err(LocatorError::InvalidVersion(_))
    ));
    assert!(matches!(
        parse_standard_package_and_version("foo@1.2.3-dev"),
        Ok((_, version)) if version == "1.2.3-dev"
    ));
}

#[test]
fn package_names_follow_the_pattern() {
    assert!(is_valid_package_name("a"));
    assert!(is_valid_package_name("Foo_bar-9"));
    assert!(!is_valid_package_name(""));
    assert!(!is_valid_package_name("9foo"));
    assert!(!is_valid_package_name("_foo"));
    assert!(!is_valid_package_name("foo.spkg"));
    assert!(!is_valid_package_name("foo\n"));
    assert!(!is_valid_package_name("f\u{e9}"));
    assert!(is_valid_package_name(&"a".repeat(64)));
    assert!(!is_valid_package_name(&"a".repeat(65)));
}

#[test]
fn addresses_and_paths_are_kept_as_they_are() {
    match resolve_package("https://example.com/pkg.spkg") {
        PackageLocation::Url(url) => assert_eq!(url, "https://example.com/pkg.spkg"),
        _ => panic!("expected an address"),
    }
    match resolve_package("http://example.com/pkg.spkg") {
        PackageLocation::Url(url) => assert_eq!(url, "http://example.com/pkg.spkg"),
        _ => panic!("expected an address"),
    }
    match resolve_package("./local/pkg.spkg") {
        PackageLocation::File(path) => assert_eq!(path, "./local/pkg.spkg"),
        _ => panic!("expected a file path"),
    }
}

#[test]
fn packages_refuse_duplicate_module_names() {
    let twice = vec![
        Module { name: "a".to_string(), initial_block: 1 },
        Module { name: "b".to_string(), initial_block: 2 },
        Module { name: "a".to_string(), initial_block: 3 },
    ];
    assert!(Package::new(twice).is_none());
    let once = vec![
        Module { name: "a".to_string(), initial_block: 1 },
        Module { name: "b".to_string(), initial_block: 2 },
    ];
    let pkg = Package::new(once).unwrap();
    assert_eq!(pkg.len(), 2);
    assert_eq!(pkg.find_module("b").unwrap().initial_block, 2);
    assert!(pkg.find_module("c").is_none());
}

#[test]
fn locator_error_messages() {
    assert_eq!(
        LocatorError::Convention("a@b@c".to_string()).message(),
        "package name: a@b@c does not follow the convention of <package>@<version>"
    );
    assert_eq!(
        LocatorError::InvalidName("Foo Bar".to_string()).message(),
        "package name Foo Bar does not match regexp ^([a-zA-Z][a-zA-Z0-9_-]{0,63})$"
    );
    assert_eq!(
        LocatorError::InvalidVersion("x".to_string()).message(),
        "version 'x' is not valid Semver format"
    );
}

#[test]
fn locator_that_only_begins_with_http_is_a_file() {
    match resolve_package("httpfile.spkg") {
        PackageLocation::File(path) => assert_eq!(path, "httpfile.spkg"),
        _ => panic!("expected a file path"),
    }
    match resolve_package("Foo Bar") {
        PackageLocation::File(path) => assert_eq!(path, "Foo Bar"),
        _ => panic!("expected a file path"),
    }
}
