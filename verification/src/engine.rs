//! The orchestration decisions: target and toolchain resolution, the
//! install-if-missing checks, the isolation dispatch gate, and the final
//! execution plan. Every subprocess result enters as a plain value and every
//! decision leaves as one.

use vstd::prelude::*;
use vstd::string::StrSliceExecFns;
use vstd::string::StringExecFns;

use crate::args::{clone_args, rewritten_args_spec, filter_args};
use crate::platform::{
    deref_str, deref_target, host_triple_spec, is_supported_spec, list_contains, triples_contain,
    Host, Target, TargetList,
};
use crate::subcommand::Subcommand;

verus! {

/// The position of the first occurrence of `c` in `s`, or the length of `s`
/// when there is none.
pub open spec fn first_index_of(s: Seq<char>, c: char) -> int
    decreases s.len(),
{
    if s.len() == 0 {
        0
    } else if s[0] == c {
        0
    } else {
        1 + first_index_of(s.subrange(1, s.len() as int), c)
    }
}

/// When position `j` holds the first occurrence of `c`, that is what
/// `first_index_of` finds.
proof fn lemma_first_index_at(s: Seq<char>, c: char, j: int)
    requires
        0 <= j < s.len(),
        s[j] == c,
        forall|k: int| 0 <= k < j ==> s[k] != c,
    ensures
        first_index_of(s, c) == j,
    decreases s.len(),
{
    if j > 0 {
        let t = s.subrange(1, s.len() as int);
        lemma_first_index_at(t, c, j - 1);
    }
}

/// Without any occurrence, `first_index_of` reaches the end.
proof fn lemma_first_index_none(s: Seq<char>, c: char)
    requires
        forall|k: int| 0 <= k < s.len() ==> s[k] != c,
    ensures
        first_index_of(s, c) == s.len(),
    decreases s.len(),
{
    if s.len() > 0 {
        lemma_first_index_none(s.subrange(1, s.len() as int), c);
    }
}

/// The toolchain a run must use: the default identifier as the sysroot names
/// it, unless the user requested a channel, in which case the channel
/// replaces only the identifier's first hyphen-delimited segment and every
/// later segment (date, host) is preserved.
pub open spec fn toolchain_name_spec(channel: Option<Seq<char>>, default_toolchain: Seq<char>) -> Seq<char> {
    match channel {
        None => default_toolchain,
        Some(c) => {
            let i = first_index_of(default_toolchain, '-');
            if i == default_toolchain.len() {
                c
            } else {
                c + default_toolchain.subrange(i, default_toolchain.len() as int)
            }
        },
    }
}

/// Resolves the toolchain identifier for the run.
pub fn toolchain_name(channel: Option<&String>, default_toolchain: &str) -> (r: String)
    ensures
        channel is None ==> r@ == toolchain_name_spec(None, default_toolchain@),
        channel is Some ==> r@ == toolchain_name_spec(Some(channel->0@), default_toolchain@),
{
    if channel.is_none() {
        return default_toolchain.to_owned();
    }
    let c: &String = channel.unwrap();
    let len = default_toolchain.unicode_len();
    let mut i: usize = 0;
    while i < len
        invariant
            channel is Some,
            c == channel->0,
            len == default_toolchain@.len(),
            0 <= i <= len,
            forall|k: int| 0 <= k < i ==> default_toolchain@[k] != '-',
        decreases len - i,
    {
        if default_toolchain.get_char(i) == '-' {
            proof {
                lemma_first_index_at(default_toolchain@, '-', i as int);
            }
            let suffix = default_toolchain.substring_char(i, len);
            let mut r = c.clone();
            r.append(suffix);
            return r;
        }
        i = i + 1;
    }
    proof {
        lemma_first_index_none(default_toolchain@, '-');
    }
    c.clone()
}

/// Whether the toolchain still has to be installed: it is missing from the
/// installed-toolchain list.
pub fn needs_toolchain_install(installed: &Vec<String>, toolchain: &str) -> (r: bool)
    ensures
        r == !list_contains(installed.deep_view(), toolchain@),
{
    !triples_contain(installed, toolchain)
}

/// Whether the alternate sysroot builder is used: an explicit configuration
/// override wins; otherwise it is needed exactly when the target is not a
/// builtin or the toolchain's available-target list lacks it.
pub fn uses_xargo(config_override: Option<bool>, target: &Target, available_targets: &TargetList) -> (r: bool)
    ensures
        r == match config_override {
            Some(b) => b,
            None => !target.is_builtin_spec() || !list_contains(
                available_targets.triples.deep_view(),
                target.triple_spec(),
            ),
        },
{
    match config_override {
        Some(b) => b,
        None => !target.is_builtin() || !available_targets.contains(target.triple()),
    }
}

/// The one install step the target stage performs, in its fixed order: the
/// prebuilt target when the normal builder is used and the target is
/// available but not yet installed; else the source component when it is
/// missing (the alternate builder needs source, not a prebuilt target); else
/// nothing.
#[derive(Debug, Clone, Copy, PartialEq, Eq, Structural)]
pub enum TargetSetupAction {
    InstallTarget,
    InstallRustSrc,
    Nothing,
}

pub open spec fn target_setup_action_spec(
    uses_xargo: bool,
    target_available: bool,
    target_installed: bool,
    rust_src_installed: bool,
) -> TargetSetupAction {
    if !uses_xargo && !target_installed && target_available {
        TargetSetupAction::InstallTarget
    } else if !rust_src_installed {
        TargetSetupAction::InstallRustSrc
    } else {
        TargetSetupAction::Nothing
    }
}

/// Decides the target stage's install step from the queried state. A later
/// step never runs when an earlier one already satisfied the need.
pub fn target_setup_action(
    uses_xargo: bool,
    target_available: bool,
    target_installed: bool,
    rust_src_installed: bool,
) -> (r: TargetSetupAction)
    ensures
        r == target_setup_action_spec(
            uses_xargo,
            target_available,
            target_installed,
            rust_src_installed,
        ),
{
    if !uses_xargo && !target_installed && target_available {
        TargetSetupAction::InstallTarget
    } else if !rust_src_installed {
        TargetSetupAction::InstallRustSrc
    } else {
        TargetSetupAction::Nothing
    }
}

/// Whether the lint component must be installed: only for the lint verb, and
/// only when it is missing.
pub fn needs_clippy_install(subcommand: Option<Subcommand>, clippy_installed: bool) -> (r: bool)
    ensures
        r == (subcommand == Some(Subcommand::Clippy) && !clippy_installed),
{
    match subcommand {
        Some(sc) => matches!(sc, Subcommand::Clippy) && !clippy_installed,
        None => false,
    }
}

/// The isolation capability a missing subcommand defaults to: none.
pub open spec fn subcommand_needs_docker(sc: Option<Subcommand>) -> bool {
    match sc {
        Some(s) => !(s is Other),
        None => false,
    }
}

/// The emulation capability a missing subcommand defaults to: none.
pub open spec fn subcommand_needs_interpreter(sc: Option<Subcommand>) -> bool {
    match sc {
        Some(s) => s is Run || s is Test || s is Bench,
        None => false,
    }
}

/// The dispatch gate: isolation is used iff the availability probe succeeded
/// and both the target and the subcommand ask for isolation.
pub fn uses_isolation(image_exists: bool, target: &Target, subcommand: Option<Subcommand>) -> (r: bool)
    ensures
        r == (image_exists && target.needs_docker_spec() && subcommand_needs_docker(subcommand)),
{
    let sc_needs = match subcommand {
        Some(sc) => sc.needs_docker(),
        None => false,
    };
    image_exists && target.needs_docker() && sc_needs
}

/// Whether the emulation handler must be registered before dispatching into
/// isolation: the host reports it is needed, the subcommand executes
/// binaries, the target cannot run natively, and no handler is registered
/// yet.
pub fn must_register_interpreter(
    host_needs_interpreter: bool,
    subcommand: Option<Subcommand>,
    target: &Target,
    already_registered: bool,
) -> (r: bool)
    ensures
        r == (host_needs_interpreter && subcommand_needs_interpreter(subcommand)
            && target.needs_interpreter_spec() && !already_registered),
{
    let sc_needs = match subcommand {
        Some(sc) => sc.needs_interpreter(),
        None => false,
    };
    host_needs_interpreter && sc_needs && target.needs_interpreter() && !already_registered
}

/// Resolves the target of the run: the explicit argument wins, else the
/// project configuration's target, else the host's own triple classified
/// against the shipped target list.
pub fn resolve_target(
    explicit: Option<Target>,
    config_target: Option<Target>,
    host: &Host,
    target_list: &TargetList,
) -> (r: Target)
    ensures
        explicit is Some ==> r == explicit->0,
        explicit is None && config_target is Some ==> r == config_target->0,
        explicit is None && config_target is None ==> {
            &&& r.triple_spec() == host_triple_spec(*host)
            &&& r.is_builtin_spec() == list_contains(
                target_list.triples.deep_view(),
                host_triple_spec(*host),
            )
        },
{
    match explicit {
        Some(t) => t,
        None => match config_target {
            Some(t) => t,
            None => Target::from(host.triple(), target_list),
        },
    }
}

/// Where the project configuration file is looked for: the explicit override
/// wins, else the fixed file name at the workspace root.
pub fn config_file_path(env_override: Option<&String>, workspace_root: &str) -> (r: String)
    ensures
        r@ == match env_override {
            Some(p) => p@,
            None => workspace_root@ + "/Cross.toml"@,
        },
{
    match env_override {
        Some(p) => p.clone(),
        None => {
            let mut r = workspace_root.to_owned();
            r.append("/Cross.toml");
            r
        },
    }
}

/// How a run is executed once every stage has reported: inside the isolated
/// environment or natively, and with which argument list.
#[derive(Debug)]
pub struct ExecutionDecision {
    pub isolation: bool,
    pub args: Vec<String>,
}

/// Builds the final execution decision. The support gate sees the target as
/// the user supplied it — absent when neither the argument list nor the
/// project configuration named one — while dispatch and rewrite work on the
/// resolved target (the supplied one, or the host's own triple). Isolation is
/// used only when the support test, the image lookup, the resolved target and
/// the subcommand all ask for it; the rewritten argument list reaches only the
/// isolated path, while the native fallback always receives the user's
/// original arguments unchanged.
pub fn plan_execution(
    host: &Host,
    supplied_target: Option<&Target>,
    resolved_target: &Target,
    subcommand: Option<Subcommand>,
    compatibility: Option<&str>,
    image_exists: bool,
    original_args: &Vec<String>,
) -> (r: ExecutionDecision)
    ensures
        r.isolation == (is_supported_spec(
            *host,
            deref_target(supplied_target),
            deref_str(compatibility),
        ) && image_exists && resolved_target.needs_docker_spec() && subcommand_needs_docker(
            subcommand,
        )),
        r.isolation ==> r.args.deep_view() == rewritten_args_spec(
            original_args.deep_view(),
            subcommand,
            resolved_target.triple_spec(),
        ),
        !r.isolation ==> r.args.deep_view() == original_args.deep_view(),
{
    let supported = host.is_supported(supplied_target, compatibility);
    if supported && uses_isolation(image_exists, resolved_target, subcommand) {
        let rewritten = filter_args(original_args, subcommand, resolved_target.triple());
        ExecutionDecision { isolation: true, args: rewritten }
    } else {
        ExecutionDecision { isolation: false, args: clone_args(original_args) }
    }
}

} // verus!
