use cross::platform::{Host, Target, TargetList};

fn list(triples: &[&str]) -> TargetList {
    TargetList {
        triples: triples.iter().map(|t| t.to_string()).collect(),
        installed: Vec::new(),
    }
}

#[test]
fn host_triple_round_trip() {
    let known = [
        "x86_64-apple-darwin",
        "aarch64-apple-darwin",
        "x86_64-unknown-linux-gnu",
        "aarch64-unknown-linux-gnu",
        "x86_64-unknown-linux-musl",
        "aarch64-unknown-linux-musl",
        "x86_64-pc-windows-msvc",
    ];
    for triple in known {
        let host = Host::from_triple(triple);
        assert!(!matches!(host, Host::Other(_)));
        assert_eq!(host.triple(), triple);
    }
    let other = Host::from_triple("riscv64gc-unknown-linux-gnu");
    assert!(matches!(other, Host::Other(_)));
    assert_eq!(other.triple(), "riscv64gc-unknown-linux-gnu");
}

#[test]
fn classify_target_round_trip() {
    let l = list(&["aarch64-unknown-linux-gnu", "x86_64-unknown-linux-gnu"]);
    let builtin = Target::from("aarch64-unknown-linux-gnu", &l);
    assert!(builtin.is_builtin());
    assert_eq!(builtin.triple(), "aarch64-unknown-linux-gnu");
    let custom = Target::from("my-own-target", &l);
    assert!(!custom.is_builtin());
    assert_eq!(custom.triple(), "my-own-target");
}

#[test]
fn predicates_on_common_triples() {
    let l = list(&[
        "aarch64-unknown-linux-gnu",
        "x86_64-apple-darwin",
        "thumbv7em-none-eabi",
        "arm-linux-androideabi",
        "x86_64-unknown-linux-gnu",
        "x86_64-pc-windows-msvc",
        "sparcv9-sun-solaris",
        "x86_64-unknown-freebsd",
        "wasm32-unknown-emscripten",
    ]);

    let aarch64_linux = Target::from("aarch64-unknown-linux-gnu", &l);
    assert!(aarch64_linux.is_linux());
    assert!(!aarch64_linux.is_android());
    assert!(aarch64_linux.needs_docker());
    assert!(aarch64_linux.needs_interpreter());
    assert!(!aarch64_linux.needs_docker_privileged());

    let host_linux = Target::from("x86_64-unknown-linux-gnu", &l);
    assert!(host_linux.needs_docker());
    assert!(!host_linux.needs_interpreter());

    let apple = Target::from("x86_64-apple-darwin", &l);
    assert!(apple.is_apple());
    assert!(!apple.is_linux());
    assert!(apple.needs_docker());
    assert!(!apple.needs_interpreter());

    let bare = Target::from("thumbv7em-none-eabi", &l);
    assert!(bare.is_bare_metal());
    assert!(bare.needs_docker());
    assert!(bare.needs_interpreter());

    let android_arm = Target::from("arm-linux-androideabi", &l);
    assert!(android_arm.is_android());
    assert!(!android_arm.is_linux());
    assert!(android_arm.needs_docker());
    assert!(android_arm.needs_docker_privileged());

    let windows = Target::from("x86_64-pc-windows-msvc", &l);
    assert!(windows.is_windows());
    assert!(windows.needs_docker());
    assert!(!windows.needs_interpreter());

    let solaris = Target::from("sparcv9-sun-solaris", &l);
    assert!(solaris.is_solaris());
    assert!(solaris.needs_docker());
    assert!(!solaris.needs_interpreter());

    let bsd = Target::from("x86_64-unknown-freebsd", &l);
    assert!(bsd.is_bsd());
    assert!(bsd.needs_docker());

    let emscripten = Target::from("wasm32-unknown-emscripten", &l);
    assert!(emscripten.is_emscripten());
    assert!(emscripten.needs_docker());
}

#[test]
fn custom_target_always_needs_docker() {
    let l = list(&[]);
    let custom = Target::from("my-target-spec", &l);
    assert!(!custom.is_builtin());
    assert!(custom.needs_docker());
}

#[test]
fn target_from_host_keeps_triple() {
    let l = list(&["x86_64-unknown-linux-gnu"]);
    let host = Host::from_triple("aarch64-unknown-linux-musl");
    let t = Target::from_host(&host, &l);
    assert!(t.is_builtin());
    assert_eq!(t.triple(), "aarch64-unknown-linux-musl");

    let other = Host::from_triple("riscv64gc-unknown-linux-gnu");
    let t2 = Target::from_host(&other, &l);
    assert!(!t2.is_builtin());
    assert_eq!(t2.triple(), "riscv64gc-unknown-linux-gnu");
}

#[test]
fn default_policy_follows_target_only() {
    let l = list(&["aarch64-unknown-linux-gnu", "x86_64-unknown-linux-gnu"]);
    let host = Host::from_triple("x86_64-unknown-linux-gnu");
    let target = Target::from("aarch64-unknown-linux-gnu", &l);

    assert!(!host.is_supported(None, None));
    assert!(host.is_supported(Some(&target), None));
    // any non-matching compatibility value still selects the default policy
    assert!(!host.is_supported(None, Some("0.2.0")));
}

#[test]
fn legacy_policy_per_host_family() {
    let l = list(&["aarch64-unknown-linux-gnu", "x86_64-pc-windows-msvc"]);
    let legacy = Some("0.2.1");

    let linux = Host::from_triple("x86_64-unknown-linux-gnu");
    assert!(linux.is_supported(None, legacy));

    let apple = Host::from_triple("x86_64-apple-darwin");
    assert!(!apple.is_supported(None, legacy));
    let target = Target::from("aarch64-unknown-linux-gnu", &l);
    assert!(apple.is_supported(Some(&target), legacy));

    let windows = Host::from_triple("x86_64-pc-windows-msvc");
    assert!(!windows.is_supported(None, legacy));
    // the windows host special-cases a target equal to its own triple
    let same = Target::from("x86_64-pc-windows-msvc", &l);
    assert!(!windows.is_supported(Some(&same), legacy));
    assert!(windows.is_supported(Some(&target), legacy));

    let unknown = Host::from_triple("some-strange-host");
    assert!(!unknown.is_supported(Some(&target), legacy));
}

#[test]
fn target_list_membership_and_installed() {
    let l = TargetList {
        triples: vec![
            "aarch64-unknown-linux-gnu".to_string(),
            "x86_64-unknown-linux-gnu".to_string(),
        ],
        installed: vec!["x86_64-unknown-linux-gnu".to_string()],
    };
    assert!(l.contains("aarch64-unknown-linux-gnu"));
    assert!(!l.contains("wasm32-unknown-unknown"));
    let installed = Target::from("x86_64-unknown-linux-gnu", &l);
    let missing = Target::from("aarch64-unknown-linux-gnu", &l);
    assert!(l.is_installed(&installed));
    assert!(!l.is_installed(&missing));
}
