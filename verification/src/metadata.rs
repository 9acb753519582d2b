//! The project metadata model: workspace root, target output directory,
//! package list, and the derivation of local path dependencies. Paths are
//! held as plain strings with `/` as the separator; the subprocess that
//! fetches the metadata lives outside and hands these values in.

use vstd::prelude::*;
use vstd::string::StrSliceExecFns;
use vstd::string::StringExecFns;

use crate::platform::{list_contains, triples_contain, Target};

verus! {

/// The directory a path names once its last component is dropped: everything
/// before the final `/`, or the empty string when there is no separator.
pub open spec fn path_parent(s: Seq<char>) -> Seq<char>
    decreases s.len(),
{
    if s.len() == 0 {
        s
    } else if s[s.len() - 1] == '/' {
        s.subrange(0, s.len() - 1)
    } else {
        path_parent(s.subrange(0, s.len() - 1))
    }
}

/// When position `j` holds the last `/` of `s`, the parent is the prefix
/// before `j`.
proof fn lemma_path_parent_at(s: Seq<char>, j: int)
    requires
        0 <= j < s.len(),
        s[j] == '/',
        forall|k: int| j < k < s.len() ==> s[k] != '/',
    ensures
        path_parent(s) == s.subrange(0, j),
    decreases s.len(),
{
    if j == s.len() - 1 {
    } else {
        let t = s.subrange(0, s.len() - 1);
        assert(t[j] == '/');
        lemma_path_parent_at(t, j);
        assert(t.subrange(0, j) =~= s.subrange(0, j));
    }
}

/// A path without any separator has the empty parent.
proof fn lemma_path_parent_none(s: Seq<char>)
    requires
        forall|k: int| 0 <= k < s.len() ==> s[k] != '/',
    ensures
        path_parent(s).len() == 0,
    decreases s.len(),
{
    if s.len() > 0 {
        lemma_path_parent_none(s.subrange(0, s.len() - 1));
    }
}

/// Drops the final component of a path string.
pub fn path_parent_exec(p: &str) -> (r: String)
    ensures
        r@ == path_parent(p@),
{
    let len = p.unicode_len();
    let mut i: usize = len;
    while i > 0
        invariant
            len == p@.len(),
            0 <= i <= len,
            forall|k: int| i <= k < len ==> p@[k] != '/',
        decreases i,
    {
        if p.get_char(i - 1) == '/' {
            let parent = p.substring_char(0, i - 1);
            proof {
                lemma_path_parent_at(p@, i - 1);
            }
            return parent.to_owned();
        }
        i = i - 1;
    }
    proof {
        lemma_path_parent_none(p@);
        assert(path_parent(p@) =~= ""@) by {
            reveal_strlit("");
        }
    }
    "".to_owned()
}

/// One package of the project: its identifier, the path of its manifest file,
/// and its source indicator (unset for local path dependencies and for
/// workspace members).
#[derive(Debug)]
pub struct Package {
    pub id: String,
    pub manifest_path: String,
    pub source: Option<String>,
}

impl Clone for Package {
    fn clone(&self) -> (r: Self)
        ensures
            r == *self,
    {
        Package {
            id: self.id.clone(),
            manifest_path: self.manifest_path.clone(),
            source: match &self.source {
                Some(s) => Some(s.clone()),
                None => None,
            },
        }
    }
}

impl Package {
    /// The directory holding the package's manifest, present exactly when the
    /// source indicator is unset (a local package).
    pub fn crate_path(&self) -> (r: Option<String>)
        ensures
            r is Some <==> self.source is None,
            r is Some ==> r->0@ == path_parent(self.manifest_path@),
    {
        match &self.source {
            None => Some(path_parent_exec(self.manifest_path.as_str())),
            Some(_) => None,
        }
    }
}

/// Whether a package's identifier is listed among the workspace members.
pub open spec fn is_workspace_member_spec(members: Seq<Seq<char>>, p: Package) -> bool {
    list_contains(members, p.id@)
}

/// A package is a local path dependency iff it is absent from the
/// workspace-member list and its source indicator is unset. Membership takes
/// precedence: a member is excluded whatever its source says.
pub open spec fn is_path_dependency_spec(members: Seq<Seq<char>>, p: Package) -> bool {
    !is_workspace_member_spec(members, p) && p.source is None
}

/// A workspace-member package is never a path dependency, and neither is any
/// package carrying a source indicator, whatever the other test says.
pub proof fn lemma_path_dependency_exclusions(members: Seq<Seq<char>>, p: Package)
    ensures
        is_workspace_member_spec(members, p) ==> !is_path_dependency_spec(members, p),
        p.source is Some ==> !is_path_dependency_spec(members, p),
{
}

/// Appending one element extends a filtered sequence by that element exactly
/// when the predicate admits it.
proof fn lemma_filter_step<A>(s: Seq<A>, pred: spec_fn(A) -> bool, i: int)
    requires
        0 <= i < s.len(),
    ensures
        s.subrange(0, i + 1).filter(pred) == if pred(s[i]) {
            s.subrange(0, i).filter(pred).push(s[i])
        } else {
            s.subrange(0, i).filter(pred)
        },
{
    reveal(Seq::filter);
    let t = s.subrange(0, i + 1);
    assert(t.drop_last() =~= s.subrange(0, i));
    assert(t.last() == s[i]);
}

/// The project metadata, fetched once per run and immutable thereafter.
#[derive(Debug)]
pub struct CargoMetadata {
    pub workspace_root: String,
    pub target_directory: String,
    pub packages: Vec<Package>,
    pub workspace_members: Vec<String>,
}

impl CargoMetadata {
    pub open spec fn members_view(self) -> Seq<Seq<char>> {
        self.workspace_members.deep_view()
    }

    /// The packages that are not workspace members, in package-list order.
    pub fn non_workspace_members(&self) -> (r: Vec<Package>)
        ensures
            r@ == self.packages@.filter(
                |p: Package| !is_workspace_member_spec(self.members_view(), p),
            ),
    {
        let ghost pred = |p: Package| !is_workspace_member_spec(self.members_view(), p);
        let mut r: Vec<Package> = Vec::new();
        let mut i: usize = 0;
        proof {
            assert(self.packages@.subrange(0, 0).filter(pred) =~= Seq::<Package>::empty());
        }
        while i < self.packages.len()
            invariant
                0 <= i <= self.packages@.len(),
                pred == (|p: Package| !is_workspace_member_spec(self.members_view(), p)),
                r@ == self.packages@.subrange(0, i as int).filter(pred),
            decreases self.packages@.len() - i,
        {
            let p = &self.packages[i];
            proof {
                lemma_filter_step(self.packages@, pred, i as int);
            }
            if !triples_contain(&self.workspace_members, p.id.as_str()) {
                r.push(p.clone());
            }
            i = i + 1;
        }
        proof {
            assert(self.packages@.subrange(0, self.packages@.len() as int) =~= self.packages@);
        }
        r
    }

    /// The manifest directory of every local path dependency: every package
    /// that is neither a workspace member nor carries a source indicator, in
    /// package-list order. Packages that live inside the same on-disk
    /// workspace without being declared members are not filtered out; that is
    /// a known limitation kept on purpose.
    pub fn path_dependencies(&self) -> (r: Vec<String>)
        ensures
            r.deep_view() == self.packages@.filter(
                |p: Package| is_path_dependency_spec(self.members_view(), p),
            ).map_values(|p: Package| path_parent(p.manifest_path@)),
    {
        let ghost pred = |p: Package| is_path_dependency_spec(self.members_view(), p);
        let ghost f = |p: Package| path_parent(p.manifest_path@);
        let mut r: Vec<String> = Vec::new();
        let mut i: usize = 0;
        proof {
            assert(self.packages@.subrange(0, 0).filter(pred) =~= Seq::<Package>::empty());
            assert(r.deep_view() =~= self.packages@.subrange(0, 0).filter(pred).map_values(f));
        }
        while i < self.packages.len()
            invariant
                0 <= i <= self.packages@.len(),
                pred == (|p: Package| is_path_dependency_spec(self.members_view(), p)),
                f == (|p: Package| path_parent(p.manifest_path@)),
                r.deep_view() == self.packages@.subrange(0, i as int).filter(pred).map_values(f),
            decreases self.packages@.len() - i,
        {
            let p = &self.packages[i];
            proof {
                lemma_filter_step(self.packages@, pred, i as int);
            }
            let is_member = triples_contain(&self.workspace_members, p.id.as_str());
            let ghost prev = r.deep_view();
            if !is_member {
                match p.crate_path() {
                    Some(dir) => {
                        r.push(dir);
                        proof {
                            let fs = self.packages@.subrange(0, i as int).filter(pred);
                            assert(r.deep_view() =~= prev.push(f(self.packages@[i as int])));
                            assert(fs.push(self.packages@[i as int]).map_values(f)
                                =~= fs.map_values(f).push(f(self.packages@[i as int])));
                        }
                    },
                    None => {
                    },
                }
            }
            i = i + 1;
        }
        proof {
            assert(self.packages@.subrange(0, self.packages@.len() as int) =~= self.packages@);
        }
        r
    }
}

/// A path is relative when it does not begin with the separator.
pub open spec fn is_relative_path(p: Seq<char>) -> bool {
    !(p.len() > 0 && p[0] == '/')
}

/// Joining a relative path onto a base directory.
pub open spec fn join_path(base: Seq<char>, rel: Seq<char>) -> Seq<char> {
    base + "/"@ + rel
}

/// The target output directory a run uses: an explicit request wins over the
/// discovered default, and an explicit relative path is resolved against the
/// invocation's working directory — deliberately never against the workspace
/// root.
pub fn resolve_target_directory(explicit: Option<&String>, cwd: &str, default_dir: &str) -> (r:
    String)
    ensures
        r@ == match explicit {
            Some(p) => if is_relative_path(p@) {
                join_path(cwd@, p@)
            } else {
                p@
            },
            None => default_dir@,
        },
{
    match explicit {
        Some(p) => {
            let relative = p.as_str().unicode_len() == 0 || p.as_str().get_char(0) != '/';
            if relative {
                let mut joined = cwd.to_owned();
                joined.append("/");
                joined.append(p.as_str());
                joined
            } else {
                p.clone()
            }
        },
        None => default_dir.to_owned(),
    }
}

/// The argument list of the metadata query: always the fixed schema version;
/// an explicit manifest path when an invocation context supplies one; a
/// dependency-free query when there is no context at all (lightweight
/// self-introspection); and a platform filter when a target narrows the
/// graph.
pub open spec fn metadata_query_args_spec(
    manifest: Option<Seq<char>>,
    explicit_context: bool,
    target: Option<Seq<char>>,
) -> Seq<Seq<char>> {
    let base = seq!["metadata"@, "--format-version=1"@];
    let with_manifest = if explicit_context {
        match manifest {
            Some(m) => base + seq!["--manifest-path"@, m],
            None => base,
        }
    } else {
        base + seq!["--no-deps"@]
    };
    match target {
        Some(t) => with_manifest + seq!["--filter-platform"@, t],
        None => with_manifest,
    }
}

/// Builds the metadata query's argument list. `manifest_path` is consulted
/// only when `explicit_context` says an invocation context was supplied.
pub fn metadata_query_args(
    manifest_path: Option<&String>,
    explicit_context: bool,
    target: Option<&Target>,
) -> (r: Vec<String>)
    ensures
        r.deep_view() == metadata_query_args_spec(
            match manifest_path {
                Some(m) => Some(m@),
                None => None,
            },
            explicit_context,
            match target {
                Some(t) => Some(t.triple_spec()),
                None => None,
            },
        ),
{
    let mut r: Vec<String> = Vec::new();
    r.push("metadata".to_owned());
    r.push("--format-version=1".to_owned());
    if explicit_context {
        match manifest_path {
            Some(m) => {
                r.push("--manifest-path".to_owned());
                r.push(m.clone());
            },
            None => {},
        }
    } else {
        r.push("--no-deps".to_owned());
    }
    match target {
        Some(t) => {
            r.push("--filter-platform".to_owned());
            r.push(t.triple().to_owned());
        },
        None => {},
    }
    proof {
        assert(r.deep_view() =~= metadata_query_args_spec(
            match manifest_path {
                Some(m) => Some(m@),
                None => None,
            },
            explicit_context,
            match target {
                Some(t) => Some(t.triple_spec()),
                None => None,
            },
        ));
    }
    r
}

} // verus!
