use cross::engine::plan_execution;
use cross::platform::{Host, Target, TargetList};
use cross::subcommand::Subcommand;

fn list(triples: &[&str]) -> TargetList {
    TargetList {
        triples: triples.iter().map(|t| t.to_string()).collect(),
        installed: Vec::new(),
    }
}

fn args(a: &[&str]) -> Vec<String> {
    a.iter().map(|s| s.to_string()).collect()
}

#[test]
fn build_without_target_passes_through() {
    let l = list(&["x86_64-unknown-linux-gnu"]);
    let host = Host::from_triple("x86_64-unknown-linux-gnu");
    let resolved = Target::from("x86_64-unknown-linux-gnu", &l);
    let original = args(&["build", "--release"]);

    let decision = plan_execution(
        &host,
        None,
        &resolved,
        Some(Subcommand::Build),
        None,
        true,
        &original,
    );
    assert!(!decision.isolation);
    assert_eq!(decision.args, original);
}

#[test]
fn build_for_foreign_target_isolates_with_one_target_flag() {
    let l = list(&["x86_64-unknown-linux-gnu", "aarch64-unknown-linux-gnu"]);
    let host = Host::from_triple("x86_64-unknown-linux-gnu");
    let target = Target::from("aarch64-unknown-linux-gnu", &l);
    let original = args(&["build", "--release"]);

    let decision = plan_execution(
        &host,
        Some(&target),
        &target,
        Some(Subcommand::Build),
        None,
        true,
        &original,
    );
    assert!(decision.isolation);
    assert_eq!(
        decision.args,
        args(&["build", "--release", "--target", "aarch64-unknown-linux-gnu"])
    );
    let occurrences = decision
        .args
        .iter()
        .filter(|a| a.starts_with("--target"))
        .count();
    assert_eq!(occurrences, 1);
}

#[test]
fn failed_image_probe_falls_back_to_original_arguments() {
    let l = list(&["x86_64-unknown-linux-gnu", "aarch64-unknown-linux-gnu"]);
    let host = Host::from_triple("x86_64-unknown-linux-gnu");
    let target = Target::from("aarch64-unknown-linux-gnu", &l);
    let original = args(&["build", "--release"]);

    let decision = plan_execution(
        &host,
        Some(&target),
        &target,
        Some(Subcommand::Build),
        None,
        false,
        &original,
    );
    assert!(!decision.isolation);
    assert_eq!(decision.args, original);
}

#[test]
fn metadata_verb_loses_target_flag_whatever_the_outcome() {
    let l = list(&["x86_64-unknown-linux-gnu", "aarch64-unknown-linux-gnu"]);
    let host = Host::from_triple("x86_64-unknown-linux-gnu");
    let target = Target::from("aarch64-unknown-linux-gnu", &l);
    let original = args(&["metadata", "--target=anything", "--offline"]);

    let decision = plan_execution(
        &host,
        Some(&target),
        &target,
        Some(Subcommand::Metadata),
        None,
        true,
        &original,
    );
    assert!(decision.isolation);
    assert_eq!(decision.args, args(&["metadata", "--offline"]));
}

#[test]
fn legacy_apple_host_without_target_passes_through() {
    let l = list(&["x86_64-apple-darwin"]);
    let host = Host::from_triple("x86_64-apple-darwin");
    let resolved = Target::from("x86_64-apple-darwin", &l);
    let original = args(&["build"]);

    let decision = plan_execution(
        &host,
        None,
        &resolved,
        Some(Subcommand::Build),
        Some("0.2.1"),
        true,
        &original,
    );
    assert!(!decision.isolation);
    assert_eq!(decision.args, original);
}

#[test]
fn legacy_linux_host_without_target_isolates() {
    let l = list(&["x86_64-unknown-linux-gnu"]);
    let host = Host::from_triple("x86_64-unknown-linux-gnu");
    let resolved = Target::from("x86_64-unknown-linux-gnu", &l);
    let original = args(&["build"]);

    let decision = plan_execution(
        &host,
        None,
        &resolved,
        Some(Subcommand::Build),
        Some("0.2.1"),
        true,
        &original,
    );
    assert!(decision.isolation);
    assert_eq!(
        decision.args,
        args(&["build", "--target", "x86_64-unknown-linux-gnu"])
    );
}
