use cargo_index_transit::dotcrate::{
    parse_requirement, parse_version, Dependency, ManifestError, NormalizedManifest, Package,
};
use cargo_index_transit::features::{
    is_namespaced_spec, partition_features, uses_extended_syntax, FeatureSpec,
};
use cargo_index_transit::index::Entry;
use cargo_index_transit::publish::{CrateVersion, DependencyKind, CRATES_IO_INDEX};
use cargo_index_transit::text::{contains, starts_with};

fn package(name: &str, version: &str) -> Package {
    Package {
        rust_version: None,
        name: name.to_string(),
        version: semver::Version::parse(version).unwrap(),
        links: None,
        authors: None,
        description: None,
        homepage: None,
        documentation: None,
        readme: None,
        keywords: None,
        categories: None,
        license: None,
        license_file: None,
        repository: None,
    }
}

fn dep(req: &str) -> Dependency {
    Dependency {
        version: semver::VersionReq::parse(req).unwrap(),
        registry_index: None,
        features: None,
        optional: None,
        public: None,
        default_features: None,
        package: None,
        target: None,
    }
}

fn manifest() -> NormalizedManifest {
    NormalizedManifest {
        package: package("a", "1.0.0"),
        dependencies: None,
        dev_dependencies: None,
        build_dependencies: None,
        features: None,
    }
}

fn strings(xs: &[&str]) -> Vec<String> {
    xs.iter().map(|s| s.to_string()).collect()
}

fn feature(name: &str, specs: &[&str]) -> (String, Vec<String>) {
    (name.to_string(), strings(specs))
}

fn optional_b_with_feature(specs: &[&str]) -> NormalizedManifest {
    let mut b = dep("^1.0");
    b.optional = Some(true);
    let mut m = manifest();
    m.dependencies = Some(vec![("b".to_string(), b)]);
    m.features = Some(vec![feature("x", specs)]);
    m
}

#[test]
fn implicit_dep_feature_goes_to_features2() {
    let m = optional_b_with_feature(&["dep:b"]);
    let p = CrateVersion::new(m.clone(), (None, None), CRATES_IO_INDEX);
    assert_eq!(p.dependencies.len(), 1);
    assert_eq!(p.dependencies[0].name, "b");
    assert!(p.dependencies[0].optional);

    let e = Entry::from_publish(p, [0; 32]);
    assert_eq!(e.features2, Some(vec![feature("x", &["dep:b"])]));
    assert!(e.features.is_empty());
    assert_eq!(e.schema_version, Some(2));
    assert!(e.dependencies[0].optional);
    assert_eq!(e.name, "a");
    assert_eq!(e.version, semver::Version::new(1, 0, 0));
}

#[test]
fn plain_feature_stays_in_features() {
    let m = optional_b_with_feature(&["b"]);
    let e = Entry::from_manifest(m, CRATES_IO_INDEX, [0; 32]);
    assert_eq!(e.features, vec![feature("x", &["b"])]);
    assert_eq!(e.features2, None);
    assert_eq!(e.schema_version, None);
}

#[test]
fn normal_entry_precedes_dev_entry_of_same_name() {
    let mut m = manifest();
    m.dev_dependencies = Some(vec![("b".to_string(), dep("^2"))]);
    m.dependencies = Some(vec![("b".to_string(), dep("^1"))]);
    let e = Entry::from_manifest(m, CRATES_IO_INDEX, [0; 32]);
    let normal = e
        .dependencies
        .iter()
        .position(|d| d.name == "b" && d.kind == Some(DependencyKind::Normal))
        .unwrap();
    let dev = e
        .dependencies
        .iter()
        .position(|d| d.name == "b" && d.kind == Some(DependencyKind::Dev))
        .unwrap();
    assert!(normal < dev);
    assert_eq!(e.dependencies.len(), 2);
}

#[test]
fn take_dependencies_orders_normal_dev_build() {
    let mut m = manifest();
    m.build_dependencies = Some(vec![("z".to_string(), dep("1"))]);
    m.dev_dependencies = Some(vec![("y".to_string(), dep("1")), ("c".to_string(), dep("1"))]);
    m.dependencies = Some(vec![("x".to_string(), dep("1")), ("a".to_string(), dep("1"))]);
    let taken = m.take_dependencies();
    let order: Vec<(&str, DependencyKind)> =
        taken.iter().map(|(n, _, k)| (n.as_str(), *k)).collect();
    assert_eq!(
        order,
        vec![
            ("x", DependencyKind::Normal),
            ("a", DependencyKind::Normal),
            ("y", DependencyKind::Dev),
            ("c", DependencyKind::Dev),
            ("z", DependencyKind::Build),
        ]
    );
    assert!(m.dependencies.is_none());
    assert!(m.dev_dependencies.is_none());
    assert!(m.build_dependencies.is_none());
    assert!(m.take_dependencies().is_empty());
}

#[test]
fn scalar_dependency_fields_carry_over() {
    let mut d = dep(">=1.2, <2");
    d.optional = Some(true);
    d.default_features = Some(false);
    d.features = Some(strings(&["f1", "f2"]));
    d.target = Some("x86_64-apple-darwin".to_string());
    let mut m = manifest();
    m.dependencies = Some(vec![("d".to_string(), d), ("plain".to_string(), dep("0.3"))]);
    let p = CrateVersion::new(m, (None, None), CRATES_IO_INDEX);
    let out = &p.dependencies[0];
    assert_eq!(out.requirements, semver::VersionReq::parse(">=1.2, <2").unwrap());
    assert!(out.optional);
    assert!(!out.default_features);
    assert_eq!(out.features, strings(&["f1", "f2"]));
    assert_eq!(out.target.as_deref(), Some("x86_64-apple-darwin"));
    assert_eq!(out.kind, DependencyKind::Normal);
    let plain = &p.dependencies[1];
    assert!(!plain.optional);
    assert!(plain.default_features);
    assert!(plain.features.is_empty());
    assert_eq!(plain.explicit_name_in_toml, None);
    assert_eq!(plain.name, "plain");
}

#[test]
fn renamed_dependency_keeps_both_names() {
    let mut d = dep("1");
    d.package = Some("real-crate".to_string());
    let mut m = manifest();
    m.dependencies = Some(vec![("alias".to_string(), d)]);
    let p = CrateVersion::new(m, (None, None), CRATES_IO_INDEX);
    assert_eq!(p.dependencies[0].name, "real-crate");
    assert_eq!(p.dependencies[0].explicit_name_in_toml.as_deref(), Some("alias"));
    let e = Entry::from_publish(p, [0; 32]);
    assert_eq!(e.dependencies[0].name, "real-crate");
    assert_eq!(e.dependencies[0].package.as_deref(), Some("alias"));
}

#[test]
fn dev_and_build_dependencies_are_never_optional_in_index() {
    let mut dev = dep("1");
    dev.optional = Some(true);
    let mut build = dep("1");
    build.optional = Some(true);
    let mut m = manifest();
    m.dev_dependencies = Some(vec![("d".to_string(), dev)]);
    m.build_dependencies = Some(vec![("b".to_string(), build)]);
    let p = CrateVersion::new(m, (None, None), CRATES_IO_INDEX);
    assert!(p.dependencies[0].optional);
    assert!(p.dependencies[1].optional);
    let e = Entry::from_publish(p, [0; 32]);
    assert_eq!(e.dependencies[0].kind, Some(DependencyKind::Dev));
    assert_eq!(e.dependencies[1].kind, Some(DependencyKind::Build));
    assert!(!e.dependencies[0].optional);
    assert!(!e.dependencies[1].optional);
    assert_eq!(e.dependencies[0].public, None);
}

#[test]
fn registry_recorded_only_when_it_differs_from_target() {
    let mut other = dep("1");
    other.registry_index = Some("https://example.com/index".to_string());
    let mut m = manifest();
    m.dependencies = Some(vec![("home".to_string(), dep("1")), ("other".to_string(), other)]);
    let p = CrateVersion::new(m.clone(), (None, None), CRATES_IO_INDEX);
    assert_eq!(p.dependencies[0].registry, None);
    assert_eq!(p.dependencies[1].registry.as_deref(), Some("https://example.com/index"));

    let p = CrateVersion::new(m, (None, None), "https://example.com/index");
    assert_eq!(p.dependencies[0].registry.as_deref(), Some(CRATES_IO_INDEX));
    assert_eq!(p.dependencies[1].registry, None);
    let e = Entry::from_publish(p, [0; 32]);
    assert_eq!(e.dependencies[0].registry.as_deref(), Some(CRATES_IO_INDEX));
    assert_eq!(e.dependencies[1].registry, None);
}

#[test]
fn metadata_is_copied_with_defaults() {
    let mut m = manifest();
    m.package.description = Some("desc".to_string());
    m.package.license = Some("MIT".to_string());
    m.package.keywords = Some(strings(&["k"]));
    m.package.links = Some("z".to_string());
    let p = CrateVersion::new(
        m,
        (Some("README.md".to_string()), Some("# hello".to_string())),
        CRATES_IO_INDEX,
    );
    assert_eq!(p.description.as_deref(), Some("desc"));
    assert_eq!(p.license.as_deref(), Some("MIT"));
    assert_eq!(p.keywords, strings(&["k"]));
    assert!(p.authors.is_empty());
    assert!(p.categories.is_empty());
    assert!(p.features.is_empty());
    assert_eq!(p.readme_file.as_deref(), Some("README.md"));
    assert_eq!(p.readme.as_deref(), Some("# hello"));
    let e = Entry::from_publish(p, [7; 32]);
    assert_eq!(e.links.as_deref(), Some("z"));
    assert!(!e.yanked);
}

#[test]
fn checksum_passes_through_as_lower_hex() {
    let mut sum = [0u8; 32];
    for (i, b) in sum.iter_mut().enumerate() {
        *b = (i as u8).wrapping_mul(17);
    }
    sum[0] = 0xAB;
    let e = Entry::from_manifest(manifest(), CRATES_IO_INDEX, sum);
    assert_eq!(e.checksum, sum);
    let hex = e.checksum_hex();
    assert_eq!(hex.len(), 64);
    assert!(hex.starts_with("ab112233"));
    assert!(hex.ends_with("0f"));
    assert_eq!(hex, sum.iter().map(|b| format!("{b:02x}")).collect::<String>());
}

#[test]
fn features_route_independently() {
    let m = {
        let mut m = optional_b_with_feature(&["b"]);
        m.features = Some(vec![
            feature("local", &["other"]),
            feature("strong", &["b/f"]),
            feature("weak", &["b?/f"]),
            feature("implicit", &["dep:b"]),
            feature("mixed", &["other", "b?/g"]),
        ]);
        m
    };
    let e = Entry::from_manifest(m, CRATES_IO_INDEX, [0; 32]);
    assert_eq!(
        e.features,
        vec![feature("local", &["other"]), feature("strong", &["b/f"])]
    );
    assert_eq!(
        e.features2,
        Some(vec![
            feature("weak", &["b?/f"]),
            feature("implicit", &["dep:b"]),
            feature("mixed", &["other", "b?/g"]),
        ])
    );
    assert_eq!(e.schema_version, Some(2));
}

#[test]
fn no_features_means_first_schema() {
    let e = Entry::from_manifest(manifest(), CRATES_IO_INDEX, [0; 32]);
    assert!(e.features.is_empty());
    assert_eq!(e.features2, None);
    assert_eq!(e.schema_version, None);
    assert!(e.dependencies.is_empty());
}

#[test]
fn namespaced_spec_forms() {
    assert!(is_namespaced_spec("dep:b"));
    assert!(is_namespaced_spec("b?/f"));
    assert!(is_namespaced_spec("?/"));
    assert!(!is_namespaced_spec("b"));
    assert!(!is_namespaced_spec("b/f"));
    assert!(!is_namespaced_spec("dep"));
    assert!(!is_namespaced_spec("xdep:b"));
    assert!(!is_namespaced_spec(""));
    assert!(uses_extended_syntax(&strings(&["a", "b/c", "dep:d"])));
    assert!(!uses_extended_syntax(&strings(&["a", "b/c"])));
    assert!(!uses_extended_syntax(&Vec::new()));
}

#[test]
fn partition_keeps_order() {
    let (primary, extended) = partition_features(vec![
        feature("a", &[]),
        feature("b", &["dep:x"]),
        feature("c", &["y"]),
        feature("d", &["z?/w"]),
    ]);
    assert_eq!(primary, vec![feature("a", &[]), feature("c", &["y"])]);
    assert_eq!(extended, vec![feature("b", &["dep:x"]), feature("d", &["z?/w"])]);
}

#[test]
fn text_search() {
    assert!(starts_with("dep:x", "dep:"));
    assert!(starts_with("abc", ""));
    assert!(!starts_with("de", "dep:"));
    assert!(contains("a?/b", "?/"));
    assert!(contains("ab", "ab"));
    assert!(contains("", ""));
    assert!(!contains("a?b/", "?/"));
    assert!(contains("héllo?/", "?/"));
}

#[test]
fn version_is_trimmed_before_parsing() {
    assert_eq!(parse_version("  1.2.3\n").unwrap(), semver::Version::new(1, 2, 3));
    assert_eq!(parse_version("1.0.0").unwrap(), semver::Version::new(1, 0, 0));
    assert_eq!(
        parse_version(" 1.x "),
        Err(ManifestError::InvalidVersion(" 1.x ".to_string()))
    );
    assert_eq!(parse_version(""), Err(ManifestError::InvalidVersion(String::new())));
}

#[test]
fn requirement_errors_carry_the_text() {
    assert_eq!(parse_requirement("^1.0").unwrap(), semver::VersionReq::parse("^1.0").unwrap());
    assert_eq!(
        parse_requirement("not a req"),
        Err(ManifestError::InvalidRequirement("not a req".to_string()))
    );
}

#[test]
fn feature_specs_parse_by_form() {
    assert_eq!(FeatureSpec::parse("serde"), FeatureSpec::Local("serde".to_string()));
    assert_eq!(FeatureSpec::parse("dep:serde"), FeatureSpec::ImplicitDep("serde".to_string()));
    assert_eq!(
        FeatureSpec::parse("serde/std"),
        FeatureSpec::Strong("serde".to_string(), "std".to_string())
    );
    assert_eq!(
        FeatureSpec::parse("serde?/std"),
        FeatureSpec::Weak("serde".to_string(), "std".to_string())
    );
    assert_eq!(
        FeatureSpec::parse("a/b/c"),
        FeatureSpec::Strong("a".to_string(), "b/c".to_string())
    );
    assert_eq!(FeatureSpec::parse(""), FeatureSpec::Local(String::new()));
    assert_eq!(FeatureSpec::parse("dep:"), FeatureSpec::ImplicitDep(String::new()));
}

#[test]
fn feature_specs_render_back() {
    for text in ["serde", "dep:serde", "serde/std", "serde?/std", "a/b?/c", "?/x", ""] {
        assert_eq!(FeatureSpec::parse(text).render(), text);
    }
    assert_eq!(
        FeatureSpec::Weak("p".to_string(), "f".to_string()).render(),
        "p?/f"
    );
}

#[test]
fn unicode_white_space_around_version_is_ignored() {
    assert_eq!(
        parse_version("\u{3000}\u{a0}2.0.1\u{2028}\t").unwrap(),
        semver::Version::new(2, 0, 1)
    );
    assert_eq!(
        parse_version("\u{200b}2.0.1"),
        Err(ManifestError::InvalidVersion("\u{200b}2.0.1".to_string()))
    );
}

#[test]
fn padded_and_bare_versions_parse_alike() {
    for bare in ["1.2.3", "0.0.1-alpha.1+build.5", "1.x"] {
        let padded = format!(" \t{bare}\u{3000}\n");
        assert_eq!(parse_version(&padded).ok(), parse_version(bare).ok());
    }
    assert_eq!(
        parse_version(" 0.0.1-alpha.1+build.5 ").unwrap(),
        semver::Version::parse("0.0.1-alpha.1+build.5").unwrap()
    );
}
