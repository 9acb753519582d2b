//! The platform model: classification of host and target triples and the
//! capability predicates derived from them.

use vstd::prelude::*;
use vstd::string::StrSliceExecFns;

use crate::strings::{contains_seq, starts_with_seq, str_contains, str_eq, str_starts_with};

verus! {

/// The platform executing the tool: a closed set of recognized triples plus
/// an open catch-all for everything else.
#[derive(Debug, Clone, PartialEq)]
pub enum Host {
    Other(String),
    X86_64AppleDarwin,
    Aarch64AppleDarwin,
    X86_64UnknownLinuxGnu,
    Aarch64UnknownLinuxGnu,
    X86_64UnknownLinuxMusl,
    Aarch64UnknownLinuxMusl,
    X86_64PcWindowsMsvc,
}

/// The triple string a host stands for.
pub open spec fn host_triple_spec(h: Host) -> Seq<char> {
    match h {
        Host::X86_64AppleDarwin => "x86_64-apple-darwin"@,
        Host::Aarch64AppleDarwin => "aarch64-apple-darwin"@,
        Host::X86_64UnknownLinuxGnu => "x86_64-unknown-linux-gnu"@,
        Host::Aarch64UnknownLinuxGnu => "aarch64-unknown-linux-gnu"@,
        Host::X86_64UnknownLinuxMusl => "x86_64-unknown-linux-musl"@,
        Host::Aarch64UnknownLinuxMusl => "aarch64-unknown-linux-musl"@,
        Host::X86_64PcWindowsMsvc => "x86_64-pc-windows-msvc"@,
        Host::Other(s) => s@,
    }
}

/// Which closed variant, if any, a triple string is recognized as.
pub open spec fn recognized_host(s: Seq<char>) -> Option<Host> {
    if s == "x86_64-apple-darwin"@ {
        Some(Host::X86_64AppleDarwin)
    } else if s == "x86_64-unknown-linux-gnu"@ {
        Some(Host::X86_64UnknownLinuxGnu)
    } else if s == "x86_64-unknown-linux-musl"@ {
        Some(Host::X86_64UnknownLinuxMusl)
    } else if s == "x86_64-pc-windows-msvc"@ {
        Some(Host::X86_64PcWindowsMsvc)
    } else if s == "aarch64-apple-darwin"@ {
        Some(Host::Aarch64AppleDarwin)
    } else if s == "aarch64-unknown-linux-gnu"@ {
        Some(Host::Aarch64UnknownLinuxGnu)
    } else if s == "aarch64-unknown-linux-musl"@ {
        Some(Host::Aarch64UnknownLinuxMusl)
    } else {
        None
    }
}

/// The exact legacy-compatibility version string: only this value selects the
/// old per-host-family support table.
pub open spec fn legacy_version() -> Seq<char> {
    "0.2.1"@
}

/// The host/target support gate. `target == None` means the target is the
/// host itself. Under the default policy the host's identity is irrelevant:
/// isolation applies iff a target was supplied and that target asks for it.
/// The legacy table (selected only by the exact legacy version string) keeps
/// the old per-family rules.
pub open spec fn is_supported_spec(h: Host, target: Option<Target>, compat: Option<Seq<char>>) -> bool {
    if compat == Some(legacy_version()) {
        match h {
            Host::X86_64AppleDarwin | Host::Aarch64AppleDarwin => match target {
                Some(t) => t.needs_docker_spec(),
                None => false,
            },
            Host::X86_64UnknownLinuxGnu
            | Host::Aarch64UnknownLinuxGnu
            | Host::X86_64UnknownLinuxMusl
            | Host::Aarch64UnknownLinuxMusl => match target {
                Some(t) => t.needs_docker_spec(),
                None => true,
            },
            Host::X86_64PcWindowsMsvc => match target {
                Some(t) => t.triple_spec() != "x86_64-pc-windows-msvc"@ && t.needs_docker_spec(),
                None => false,
            },
            Host::Other(_) => false,
        }
    } else {
        match target {
            Some(t) => t.needs_docker_spec(),
            None => false,
        }
    }
}

/// The target value behind an optional reference, for stating contracts.
pub open spec fn deref_target(t: Option<&Target>) -> Option<Target> {
    match t {
        Some(x) => Some(*x),
        None => None,
    }
}

/// The string view behind an optional reference, for stating contracts.
pub open spec fn deref_str(s: Option<&str>) -> Option<Seq<char>> {
    match s {
        Some(x) => Some(x@),
        None => None,
    }
}

impl Host {
    /// Whether this `(host, target)` pair runs under isolation.
    /// `compatibility` is the legacy-mode selector, resolved once at startup
    /// from the environment and passed in as a plain value.
    pub fn is_supported(&self, target: Option<&Target>, compatibility: Option<&str>) -> (r: bool)
        ensures
            r == is_supported_spec(*self, deref_target(target), deref_str(compatibility)),
    {
        let legacy = match compatibility {
            Some(v) => str_eq(v, "0.2.1"),
            None => false,
        };
        if legacy {
            match self {
                Host::X86_64AppleDarwin | Host::Aarch64AppleDarwin => match target {
                    Some(t) => t.needs_docker(),
                    None => false,
                },
                Host::X86_64UnknownLinuxGnu
                | Host::Aarch64UnknownLinuxGnu
                | Host::X86_64UnknownLinuxMusl
                | Host::Aarch64UnknownLinuxMusl => match target {
                    Some(t) => t.needs_docker(),
                    None => true,
                },
                Host::X86_64PcWindowsMsvc => match target {
                    Some(t) => !str_eq(t.triple(), "x86_64-pc-windows-msvc") && t.needs_docker(),
                    None => false,
                },
                Host::Other(_) => false,
            }
        } else {
            match target {
                Some(t) => t.needs_docker(),
                None => false,
            }
        }
    }

    /// The host as its target triple string.
    pub fn triple(&self) -> (r: &str)
        ensures
            r@ == host_triple_spec(*self),
    {
        match self {
            Host::X86_64AppleDarwin => "x86_64-apple-darwin",
            Host::Aarch64AppleDarwin => "aarch64-apple-darwin",
            Host::X86_64UnknownLinuxGnu => "x86_64-unknown-linux-gnu",
            Host::Aarch64UnknownLinuxGnu => "aarch64-unknown-linux-gnu",
            Host::X86_64UnknownLinuxMusl => "x86_64-unknown-linux-musl",
            Host::Aarch64UnknownLinuxMusl => "aarch64-unknown-linux-musl",
            Host::X86_64PcWindowsMsvc => "x86_64-pc-windows-msvc",
            Host::Other(s) => s.as_str(),
        }
    }

    /// Total classification of a host triple string; unrecognized triples map
    /// to `Other`, never to an error. The triple string always survives the
    /// round trip.
    pub fn from_triple(s: &str) -> (r: Host)
        ensures
            match recognized_host(s@) {
                Some(h) => r == h,
                None => r is Other,
            },
            host_triple_spec(r) == s@,
    {
        if str_eq(s, "x86_64-apple-darwin") {
            Host::X86_64AppleDarwin
        } else if str_eq(s, "x86_64-unknown-linux-gnu") {
            Host::X86_64UnknownLinuxGnu
        } else if str_eq(s, "x86_64-unknown-linux-musl") {
            Host::X86_64UnknownLinuxMusl
        } else if str_eq(s, "x86_64-pc-windows-msvc") {
            Host::X86_64PcWindowsMsvc
        } else if str_eq(s, "aarch64-apple-darwin") {
            Host::Aarch64AppleDarwin
        } else if str_eq(s, "aarch64-unknown-linux-gnu") {
            Host::Aarch64UnknownLinuxGnu
        } else if str_eq(s, "aarch64-unknown-linux-musl") {
            Host::Aarch64UnknownLinuxMusl
        } else {
            Host::Other(s.to_owned())
        }
    }
}

/// The compiler's shipped target list, handed in by the caller (it comes from
/// compiler introspection, never hardcoded here), with the membership and
/// installed tests the engine needs.
#[derive(Debug, Clone)]
pub struct TargetList {
    pub triples: Vec<String>,
    pub installed: Vec<String>,
}

/// Membership of a triple in a list of triples.
pub open spec fn list_contains(l: Seq<Seq<char>>, t: Seq<char>) -> bool {
    exists|i: int| 0 <= i < l.len() && l[i] == t
}

/// Linear membership scan of a triple in a vector of triples.
pub fn triples_contain(l: &Vec<String>, t: &str) -> (r: bool)
    ensures
        r == list_contains(l.deep_view(), t@),
{
    let mut i: usize = 0;
    while i < l.len()
        invariant
            0 <= i <= l@.len(),
            forall|j: int| 0 <= j < i ==> l.deep_view()[j] != t@,
        decreases l@.len() - i,
    {
        if str_eq(l[i].as_str(), t) {
            assert(l.deep_view()[i as int] == t@);
            return true;
        }
        i = i + 1;
    }
    false
}

impl TargetList {
    /// Whether the compiler ships target data for this triple.
    pub fn contains(&self, triple: &str) -> (r: bool)
        ensures
            r == list_contains(self.triples.deep_view(), triple@),
    {
        triples_contain(&self.triples, triple)
    }

    /// Whether this target's standard library is already installed for the
    /// queried toolchain.
    pub fn is_installed(&self, target: &Target) -> (r: bool)
        ensures
            r == list_contains(self.installed.deep_view(), target.triple_spec()),
    {
        triples_contain(&self.installed, target.triple())
    }
}

/// The platform being compiled for: a triple the compiler ships data for
/// (`BuiltIn`) or anything else (`Custom`).
#[derive(Debug, Clone, PartialEq, Eq, Hash)]
pub enum Target {
    BuiltIn { triple: String },
    Custom { triple: String },
}

impl Target {
    /// The triple string this target stands for.
    pub open spec fn triple_spec(self) -> Seq<char> {
        match self {
            Target::BuiltIn { triple } => triple@,
            Target::Custom { triple } => triple@,
        }
    }

    pub open spec fn is_builtin_spec(self) -> bool {
        self is BuiltIn
    }

    pub open spec fn is_apple_spec(self) -> bool {
        contains_seq(self.triple_spec(), "apple"@)
    }

    pub open spec fn is_bare_metal_spec(self) -> bool {
        contains_seq(self.triple_spec(), "thumb"@)
    }

    pub open spec fn is_bsd_spec(self) -> bool {
        contains_seq(self.triple_spec(), "bsd"@) || contains_seq(self.triple_spec(), "dragonfly"@)
    }

    pub open spec fn is_solaris_spec(self) -> bool {
        contains_seq(self.triple_spec(), "solaris"@)
    }

    pub open spec fn is_android_spec(self) -> bool {
        contains_seq(self.triple_spec(), "android"@)
    }

    pub open spec fn is_emscripten_spec(self) -> bool {
        contains_seq(self.triple_spec(), "emscripten"@)
    }

    pub open spec fn is_linux_spec(self) -> bool {
        contains_seq(self.triple_spec(), "linux"@) && !self.is_android_spec()
    }

    pub open spec fn is_windows_spec(self) -> bool {
        contains_seq(self.triple_spec(), "windows"@)
    }

    /// The isolation predicate: a pure function of the triple string and the
    /// builtin/custom tag, nothing else.
    pub open spec fn needs_docker_spec(self) -> bool {
        ||| self.is_linux_spec()
        ||| self.is_android_spec()
        ||| self.is_bare_metal_spec()
        ||| self.is_bsd_spec()
        ||| self.is_solaris_spec()
        ||| !self.is_builtin_spec()
        ||| self.is_windows_spec()
        ||| self.is_emscripten_spec()
        ||| self.is_apple_spec()
    }

    /// The emulation predicate: a pure function of the triple string alone.
    pub open spec fn needs_interpreter_spec(self) -> bool {
        let native = starts_with_seq(self.triple_spec(), "x86_64"@)
            || starts_with_seq(self.triple_spec(), "i586"@)
            || starts_with_seq(self.triple_spec(), "i686"@);
        !native && (self.is_linux_spec() || self.is_windows_spec() || self.is_bare_metal_spec())
    }

    /// The privileged-isolation predicate: a pure function of the triple
    /// string alone.
    pub open spec fn needs_docker_privileged_spec(self) -> bool {
        let arch_32bit = starts_with_seq(self.triple_spec(), "arm"@)
            || starts_with_seq(self.triple_spec(), "i586"@)
            || starts_with_seq(self.triple_spec(), "i686"@);
        arch_32bit && self.is_android_spec()
    }

    pub fn new_built_in(triple: &str) -> (r: Self)
        ensures
            r.is_builtin_spec(),
            r.triple_spec() == triple@,
    {
        Target::BuiltIn { triple: triple.to_owned() }
    }

    pub fn new_custom(triple: &str) -> (r: Self)
        ensures
            !r.is_builtin_spec(),
            r.triple_spec() == triple@,
    {
        Target::Custom { triple: triple.to_owned() }
    }

    pub fn triple(&self) -> (r: &str)
        ensures
            r@ == self.triple_spec(),
    {
        match self {
            Target::BuiltIn { triple } => triple.as_str(),
            Target::Custom { triple } => triple.as_str(),
        }
    }

    pub fn is_apple(&self) -> (r: bool)
        ensures
            r == self.is_apple_spec(),
    {
        str_contains(self.triple(), "apple")
    }

    pub fn is_bare_metal(&self) -> (r: bool)
        ensures
            r == self.is_bare_metal_spec(),
    {
        str_contains(self.triple(), "thumb")
    }

    pub fn is_builtin(&self) -> (r: bool)
        ensures
            r == self.is_builtin_spec(),
    {
        matches!(self, Target::BuiltIn { .. })
    }

    pub fn is_bsd(&self) -> (r: bool)
        ensures
            r == self.is_bsd_spec(),
    {
        str_contains(self.triple(), "bsd") || str_contains(self.triple(), "dragonfly")
    }

    pub fn is_solaris(&self) -> (r: bool)
        ensures
            r == self.is_solaris_spec(),
    {
        str_contains(self.triple(), "solaris")
    }

    pub fn is_android(&self) -> (r: bool)
        ensures
            r == self.is_android_spec(),
    {
        str_contains(self.triple(), "android")
    }

    pub fn is_emscripten(&self) -> (r: bool)
        ensures
            r == self.is_emscripten_spec(),
    {
        str_contains(self.triple(), "emscripten")
    }

    pub fn is_linux(&self) -> (r: bool)
        ensures
            r == self.is_linux_spec(),
    {
        str_contains(self.triple(), "linux") && !self.is_android()
    }

    pub fn is_windows(&self) -> (r: bool)
        ensures
            r == self.is_windows_spec(),
    {
        str_contains(self.triple(), "windows")
    }

    /// Whether building for this target requires the isolated environment.
    pub fn needs_docker(&self) -> (r: bool)
        ensures
            r == self.needs_docker_spec(),
    {
        self.is_linux() || self.is_android() || self.is_bare_metal() || self.is_bsd()
            || self.is_solaris() || !self.is_builtin() || self.is_windows()
            || self.is_emscripten() || self.is_apple()
    }

    /// Whether foreign binaries for this target need an emulation handler
    /// registered before they can run.
    pub fn needs_interpreter(&self) -> (r: bool)
        ensures
            r == self.needs_interpreter_spec(),
    {
        let native = str_starts_with(self.triple(), "x86_64")
            || str_starts_with(self.triple(), "i586")
            || str_starts_with(self.triple(), "i686");
        !native && (self.is_linux() || self.is_windows() || self.is_bare_metal())
    }

    /// Whether the isolated environment must run privileged for this target.
    pub fn needs_docker_privileged(&self) -> (r: bool)
        ensures
            r == self.needs_docker_privileged_spec(),
    {
        let arch_32bit = str_starts_with(self.triple(), "arm")
            || str_starts_with(self.triple(), "i586")
            || str_starts_with(self.triple(), "i686");
        arch_32bit && self.is_android()
    }

    /// Classification against the compiler's shipped target list: `BuiltIn`
    /// iff the list contains the triple, and the triple string survives the
    /// round trip unchanged.
    pub fn from(triple: &str, target_list: &TargetList) -> (r: Target)
        ensures
            r.triple_spec() == triple@,
            r.is_builtin_spec() == list_contains(target_list.triples.deep_view(), triple@),
    {
        if target_list.contains(triple) {
            Target::new_built_in(triple)
        } else {
            Target::new_custom(triple)
        }
    }

    /// The target a host compiles for when no explicit target is given: the
    /// host's own triple, classified against the shipped list only when the
    /// host itself was unrecognized.
    pub fn from_host(host: &Host, target_list: &TargetList) -> (r: Target)
        ensures
            r.triple_spec() == host_triple_spec(*host),
            !(host is Other) ==> r.is_builtin_spec(),
            host is Other ==> r.is_builtin_spec() == list_contains(
                target_list.triples.deep_view(),
                host_triple_spec(*host),
            ),
    {
        match host {
            Host::Other(_) => Target::from(host.triple(), target_list),
            _ => Target::new_built_in(host.triple()),
        }
    }
}

/// The capability predicates depend on the triple string (and, for the
/// isolation predicate, the builtin tag) alone: two targets with the same
/// triple agree on every one of them. No environment enters; only the
/// host/target support gate takes the compatibility selector, and it takes it
/// as an explicit argument.
pub proof fn lemma_capabilities_pure(a: Target, b: Target)
    requires
        a.triple_spec() == b.triple_spec(),
    ensures
        a.needs_interpreter_spec() == b.needs_interpreter_spec(),
        a.needs_docker_privileged_spec() == b.needs_docker_privileged_spec(),
        a.is_builtin_spec() == b.is_builtin_spec() ==> a.needs_docker_spec()
            == b.needs_docker_spec(),
{
}

/// Under the legacy table an Apple-family host with no target supplied never
/// runs under isolation.
pub proof fn lemma_legacy_apple_no_target(h: Host)
    requires
        h is X86_64AppleDarwin || h is Aarch64AppleDarwin,
    ensures
        !is_supported_spec(h, None, Some(legacy_version())),
{
}

} // verus!
