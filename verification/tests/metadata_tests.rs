use cross::metadata::{
    metadata_query_args, path_parent_exec, resolve_target_directory, CargoMetadata, Package,
};
use cross::platform::{Target, TargetList};

fn pkg(id: &str, manifest_path: &str, source: Option<&str>) -> Package {
    Package {
        id: id.to_string(),
        manifest_path: manifest_path.to_string(),
        source: source.map(|s| s.to_string()),
    }
}

#[test]
fn path_parent_drops_last_component() {
    assert_eq!(path_parent_exec("/work/dep/Cargo.toml"), "/work/dep");
    assert_eq!(path_parent_exec("dep/Cargo.toml"), "dep");
    assert_eq!(path_parent_exec("Cargo.toml"), "");
}

#[test]
fn crate_path_present_iff_source_unset() {
    let local = pkg("dep 0.1.0", "/work/dep/Cargo.toml", None);
    assert_eq!(local.crate_path(), Some("/work/dep".to_string()));
    let registry = pkg("serde 1.0.0", "/registry/serde/Cargo.toml", Some("registry"));
    assert_eq!(registry.crate_path(), None);
}

#[test]
fn path_dependencies_excludes_members_and_sourced() {
    let m = CargoMetadata {
        workspace_root: "/work".to_string(),
        target_directory: "/work/target".to_string(),
        packages: vec![
            pkg("app 0.1.0", "/work/app/Cargo.toml", None),
            pkg("local-a 0.1.0", "/deps/a/Cargo.toml", None),
            pkg("serde 1.0.0", "/registry/serde/Cargo.toml", Some("registry")),
            pkg("local-b 0.2.0", "/deps/b/Cargo.toml", None),
        ],
        workspace_members: vec!["app 0.1.0".to_string()],
    };
    // members are excluded by membership, sourced packages by their source,
    // and the two local dependencies keep their package-list order
    assert_eq!(
        m.path_dependencies(),
        vec!["/deps/a".to_string(), "/deps/b".to_string()]
    );
}

#[test]
fn path_dependencies_excludes_member_whatever_its_source() {
    let m = CargoMetadata {
        workspace_root: "/work".to_string(),
        target_directory: "/work/target".to_string(),
        packages: vec![pkg("app 0.1.0", "/work/app/Cargo.toml", None)],
        workspace_members: vec!["app 0.1.0".to_string()],
    };
    assert_eq!(m.path_dependencies(), Vec::<String>::new());
}

#[test]
fn non_workspace_members_filters_by_membership_only() {
    let m = CargoMetadata {
        workspace_root: "/work".to_string(),
        target_directory: "/work/target".to_string(),
        packages: vec![
            pkg("app 0.1.0", "/work/app/Cargo.toml", None),
            pkg("serde 1.0.0", "/registry/serde/Cargo.toml", Some("registry")),
        ],
        workspace_members: vec!["app 0.1.0".to_string()],
    };
    let outside = m.non_workspace_members();
    assert_eq!(outside.len(), 1);
    assert_eq!(outside[0].id, "serde 1.0.0");
}

#[test]
fn target_directory_explicit_relative_resolves_against_cwd() {
    let got = resolve_target_directory(Some(&"out".to_string()), "/home/me/project", "/work/target");
    assert_eq!(got, "/home/me/project/out");
}

#[test]
fn target_directory_explicit_absolute_kept() {
    let got = resolve_target_directory(Some(&"/tmp/out".to_string()), "/home/me/project", "/work/target");
    assert_eq!(got, "/tmp/out");
}

#[test]
fn target_directory_default_when_not_overridden() {
    let got = resolve_target_directory(None, "/home/me/project", "/work/target");
    assert_eq!(got, "/work/target");
}

#[test]
fn metadata_query_with_context_and_manifest() {
    let manifest = "/work/Cargo.toml".to_string();
    let got = metadata_query_args(Some(&manifest), true, None);
    assert_eq!(
        got,
        vec![
            "metadata".to_string(),
            "--format-version=1".to_string(),
            "--manifest-path".to_string(),
            "/work/Cargo.toml".to_string(),
        ]
    );
}

#[test]
fn metadata_query_without_context_skips_deps() {
    let got = metadata_query_args(None, false, None);
    assert_eq!(
        got,
        vec![
            "metadata".to_string(),
            "--format-version=1".to_string(),
            "--no-deps".to_string(),
        ]
    );
}

#[test]
fn metadata_query_with_target_filter() {
    let l = TargetList { triples: vec!["aarch64-unknown-linux-gnu".to_string()], installed: Vec::new() };
    let t = Target::from("aarch64-unknown-linux-gnu", &l);
    let got = metadata_query_args(None, true, Some(&t));
    assert_eq!(
        got,
        vec![
            "metadata".to_string(),
            "--format-version=1".to_string(),
            "--filter-platform".to_string(),
            "aarch64-unknown-linux-gnu".to_string(),
        ]
    );
}
