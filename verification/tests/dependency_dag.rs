use lana_core::dependency_dag::{
    find_violations, get_tier, is_valid_dependency, tier_name, DependencyInfo, PackageInfo, Tier,
    TierError,
};

fn dep(name: &str, path: Option<&str>) -> DependencyInfo {
    DependencyInfo { name: name.to_string(), relative_path: path.map(|p| p.to_string()) }
}

#[test]
fn tiers_by_first_directory() {
    assert_eq!(get_tier("lib/es-entity").unwrap(), Tier::Lib);
    assert_eq!(get_tier("core/credit").unwrap(), Tier::Core);
    assert_eq!(get_tier("lana/app").unwrap(), Tier::Lana);
    assert!(matches!(get_tier(""), Err(TierError::EmptyPath)));
    match get_tier("dev/check-dependency-dag") {
        Err(TierError::UnknownTier(p)) => assert_eq!(p, "dev/check-dependency-dag"),
        other => panic!("unexpected {:?}", other),
    }
    // the directory must end with a slash
    assert!(get_tier("library").is_err());
    assert!(get_tier("lib").is_err());
}

#[test]
fn dependencies_go_down_or_sideways() {
    assert!(is_valid_dependency(Tier::Lana, Tier::Core));
    assert!(is_valid_dependency(Tier::Core, Tier::Lib));
    assert!(is_valid_dependency(Tier::Core, Tier::Core));
    assert!(!is_valid_dependency(Tier::Lib, Tier::Core));
    assert!(!is_valid_dependency(Tier::Core, Tier::Lana));
}

#[test]
fn violations_are_reported_in_order() {
    let packages = vec![
        PackageInfo {
            name: "es-entity".to_string(),
            relative_path: "lib/es-entity".to_string(),
            dependencies: vec![dep("core-credit", Some("core/credit")), dep("serde", None)],
        },
        PackageInfo {
            name: "check".to_string(),
            relative_path: "dev/check".to_string(),
            dependencies: vec![dep("lana-app", Some("lana/app"))],
        },
        PackageInfo {
            name: "core-credit".to_string(),
            relative_path: "core/credit".to_string(),
            dependencies: vec![
                dep("es-entity", Some("lib/es-entity")),
                dep("lana-app", Some("lana/app")),
                dep("tool", Some("tools/x")),
            ],
        },
    ];
    let violations = find_violations(&packages);
    let messages: Vec<String> = violations.iter().map(|v| v.message()).collect();
    assert_eq!(
        messages,
        vec![
            "es-entity (Lib) cannot depend on core-credit (Core)".to_string(),
            "core-credit (Core) cannot depend on lana-app (Lana)".to_string(),
        ]
    );
    assert_eq!(tier_name(Tier::Core), format!("{:?}", Tier::Core));
}

#[test]
fn no_violations_in_a_well_layered_workspace() {
    let packages = vec![PackageInfo {
        name: "lana-app".to_string(),
        relative_path: "lana/app".to_string(),
        dependencies: vec![dep("core-credit", Some("core/credit")), dep("lib-x", Some("lib/x"))],
    }];
    assert!(find_violations(&packages).is_empty());
}

#[test]
fn tier_error_messages() {
    assert_eq!(get_tier("").unwrap_err().message(), "Empty path provided");
    assert_eq!(get_tier("tools/x").unwrap_err().message(), "Unknown tier for path: 'tools/x'");
}
