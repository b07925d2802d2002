use vstd::prelude::*;
use vstd::string::StrSliceExecFns;
use vstd::string::StringExecFns;
use ignore::gitignore::Gitignore;

verus! {

// ---------------------------------------------------------------------------
// The outside collaborators, declared for the verifier.
// ---------------------------------------------------------------------------

/// `ignore`'s compiled matcher for one pattern file, opaque to the verifier.
#[verifier::external_type_specification]
#[verifier::external_body]
pub struct ExGitignore(Gitignore);

/// `git2`'s repository handle, opaque to the verifier.
#[verifier::external_type_specification]
#[verifier::external_body]
pub struct ExRepository(git2::Repository);

/// The verdict a compiled matcher gives for a path relative to its root:
/// true exactly when the path, or one of its parent segments, is explicitly
/// ignored. The verdict depends on the matcher and the queried path alone.
pub uninterp spec fn matcher_ignores(m: Gitignore, rel: Seq<char>, is_dir: bool) -> bool;

/// Relies on ignore::gitignore::Gitignore::matched_path_or_any_parents: it
/// tests the path and each of its parent segments against the compiled globs,
/// and its verdict is a function of the matcher and the path alone. It panics
/// when the path is still rooted after the matcher's own prefix stripping —
/// which first drops a leading `./`, then the matcher's root as a byte
/// prefix, then at most one further `/`. A path the matcher accepts (see
/// `matcher_testable`) can never end up rooted that way, whatever the
/// matcher's root is, so only such paths are admitted here.
#[verifier::external_body]
fn matcher_is_ignore(m: &Gitignore, rel: &str, is_dir: bool) -> (r: bool)
    requires
        matcher_testable(rel@),
    ensures
        r == matcher_ignores(*m, rel@, is_dir),
{
    match m.matched_path_or_any_parents(std::path::Path::new(rel), is_dir) {
        ignore::Match::Ignore(_) => true,
        ignore::Match::Whitelist(_) => false,
        ignore::Match::None => false,
    }
}

/// Relies on the derived Clone of ignore::gitignore::Gitignore, which copies
/// the compiled globs and root unchanged: the clone is indistinguishable from
/// the original.
pub assume_specification[ <Gitignore as Clone>::clone ](m: &Gitignore) -> (r: Gitignore)
    ensures
        r == *m,
;

/// Relies on ignore::gitignore::GitignoreBuilder (new, add, build): reads the
/// pattern file and compiles a matcher rooted at `root`. The result depends on
/// what is on disk, so nothing is promised of it; a read or parse failure
/// comes back as None.
#[verifier::external_body]
fn compile_matcher(root: &str, file: &str) -> (r: Option<Gitignore>) {
    let mut b = ignore::gitignore::GitignoreBuilder::new(root);
    match b.add(file) {
        Some(_) => None,
        None => match b.build() {
            Ok(m) => Some(m),
            Err(_) => None,
        },
    }
}

/// Relies on std::path::Path::exists: true when the path points at an
/// existing filesystem entity. The answer depends on the disk, so nothing is
/// promised of it.
#[verifier::external_body]
fn path_exists(p: &str) -> (r: bool) {
    std::path::Path::new(p).exists()
}

/// Relies on git2::Repository::discover: walks upward from the start path
/// looking for repository metadata. The answer depends on the disk, so
/// nothing is promised of it; a discovery failure comes back as None.
#[verifier::external_body]
fn discover_repository(start: &str) -> (r: Option<git2::Repository>) {
    git2::Repository::discover(start).ok()
}

/// Relies on git2::Repository::workdir: the repository's working directory,
/// when it has one. None also stands for a directory that is not unicode.
#[verifier::external_body]
fn repository_workdir(repo: &git2::Repository) -> (r: Option<String>) {
    match repo.workdir() {
        Some(p) => match p.to_str() {
            Some(s) => Some(s.to_string()),
            None => None,
        },
        None => None,
    }
}

/// Relies on git2::Repository::path: the repository's metadata directory.
/// None stands for a directory that is not unicode.
#[verifier::external_body]
fn repository_metadata_dir(repo: &git2::Repository) -> (r: Option<String>) {
    match repo.path().to_str() {
        Some(s) => Some(s.to_string()),
        None => None,
    }
}

// ---------------------------------------------------------------------------
// Paths and relativization.
// ---------------------------------------------------------------------------

/// True when `root` is a character-for-character prefix of `path`.
pub open spec fn starts_with_seq(path: Seq<char>, root: Seq<char>) -> bool {
    path.len() >= root.len() && path.subrange(0, root.len() as int) == root
}

/// True when `path` names the directory `root` itself or something below it.
pub open spec fn is_under(path: Seq<char>, root: Seq<char>) -> bool {
    starts_with_seq(path, root) && (path.len() == root.len() || path[root.len() as int] == '/')
}

/// An absolute path: one that begins with the separator.
pub open spec fn is_absolute(path: Seq<char>) -> bool {
    path.len() > 0 && path[0] == '/'
}

/// A path the matcher accepts: relative, without a leading `./` and without
/// a doubled separator. The matcher's own prefix stripping drops a leading
/// `./`, then its root as a byte prefix, then at most one further `/`; a
/// path of this shape can never be left rooted by those strips, whatever
/// the root is, so the matcher never refuses it.
pub open spec fn matcher_testable(path: Seq<char>) -> bool {
    &&& !is_absolute(path)
    &&& !(path.len() >= 2 && path[0] == '.' && path[1] == '/')
    &&& forall|i: int| 0 <= i < path.len() - 1 ==> !(#[trigger] path[i] == '/' && path[i + 1] == '/')
}

/// The candidate path relative to `root`; a path that is not under `root`
/// comes back unmodified, as the fallback.
pub open spec fn spec_relativize(path: Seq<char>, root: Seq<char>) -> Seq<char> {
    if !is_under(path, root) {
        path
    } else if path.len() == root.len() {
        Seq::empty()
    } else {
        path.subrange(root.len() as int + 1, path.len() as int)
    }
}

/// Computes the candidate path relative to one matcher root; a path that is
/// not under the root comes back unmodified.
pub fn relativize<'a>(path: &'a str, root: &str) -> (r: &'a str)
    ensures
        r@ == spec_relativize(path@, root@),
{
    let n = root.unicode_len();
    let m = path.unicode_len();
    if m < n {
        return path;
    }
    let mut k: usize = 0;
    while k < n
        invariant
            n == root@.len(),
            m == path@.len(),
            n <= m,
            k <= n,
            forall|j: int| 0 <= j < k ==> path@[j] == root@[j],
        decreases n - k,
    {
        if path.get_char(k) != root.get_char(k) {
            proof {
                let ps = path@.subrange(0, n as int);
                assert(ps[k as int] == path@[k as int]);
                assert(ps != root@);
            }
            return path;
        }
        k += 1;
    }
    proof {
        assert(path@.subrange(0, n as int) =~= root@);
    }
    if m == n {
        let r = path.substring_char(n, n);
        proof {
            assert(r@ =~= Seq::<char>::empty());
        }
        return r;
    }
    if path.get_char(n) == '/' {
        path.substring_char(n + 1, m)
    } else {
        path
    }
}

/// Whether the path begins with the separator.
pub fn is_absolute_path(p: &str) -> (r: bool)
    ensures
        r == is_absolute(p@),
{
    p.unicode_len() > 0 && p.get_char(0) == '/'
}

/// Whether a relativized path is one the matcher accepts: relative, without
/// a leading `./` and without a doubled separator.
pub fn is_matcher_testable(p: &str) -> (r: bool)
    ensures
        r == matcher_testable(p@),
{
    let n = p.unicode_len();
    if n > 0 && p.get_char(0) == '/' {
        return false;
    }
    if n >= 2 && p.get_char(0) == '.' && p.get_char(1) == '/' {
        return false;
    }
    if n < 2 {
        return true;
    }
    let mut i: usize = 0;
    while i < n - 1
        invariant
            n == p@.len(),
            2 <= n,
            i <= n - 1,
            forall|j: int| 0 <= j < i ==> !(#[trigger] p@[j] == '/' && p@[j + 1] == '/'),
        decreases n - i,
    {
        if p.get_char(i) == '/' && p.get_char(i + 1) == '/' {
            return false;
        }
        i += 1;
    }
    true
}

/// A directory and a name below it, joined with the separator.
pub fn join_path(dir: &str, name: &str) -> (r: String)
    ensures
        r@ == dir@ + "/"@ + name@,
{
    let mut s = dir.to_owned();
    s.append("/");
    s.append(name);
    s
}

// ---------------------------------------------------------------------------
// The ignore context.
// ---------------------------------------------------------------------------

/// The set of ignore rules visible at one point in a directory walk: the
/// enclosing repository's exclude rules, if any, and one layer per directory
/// whose own ignore file was seen on the way down, shallowest first.
pub struct GitignoreCtx {
    repo_root: Option<String>,
    repo_exclude: Option<Gitignore>,
    dir_ignores: Vec<(String, Gitignore)>,
}

/// The mathematical content of a context: the repository root and exclude
/// matcher, when discovered, and the ordered directory layers, shallowest
/// first, each a root paired with its compiled matcher.
pub struct CtxView {
    pub repo_root: Option<Seq<char>>,
    pub repo_exclude: Option<Gitignore>,
    pub layers: Seq<(Seq<char>, Gitignore)>,
}

impl View for GitignoreCtx {
    type V = CtxView;

    closed spec fn view(&self) -> CtxView {
        CtxView {
            repo_root: match self.repo_root {
                Some(s) => Some(s@),
                None => None,
            },
            repo_exclude: self.repo_exclude,
            layers: self.dir_ignores@.map_values(|p: (String, Gitignore)| (p.0@, p.1)),
        }
    }
}

impl CtxView {
    /// The repository root and its exclude matcher are set together or not at
    /// all.
    pub open spec fn wf(self) -> bool {
        self.repo_root is Some <==> self.repo_exclude is Some
    }

    /// The repository exclude rules' verdict for a candidate path: false when
    /// no repository was discovered, and false for a relativized path the
    /// matcher does not accept (see `matcher_testable`) — a rule source that
    /// cannot be consulted is simply absent.
    pub open spec fn repo_query(self, path: Seq<char>, is_dir: bool) -> bool {
        match (self.repo_root, self.repo_exclude) {
            (Some(root), Some(m)) => {
                let rel = spec_relativize(path, root);
                matcher_testable(rel) && matcher_ignores(m, rel, is_dir)
            },
            _ => false,
        }
    }

    /// Directory layer `i`'s verdict for a candidate path, under the same
    /// fallback policy as the repository rules.
    pub open spec fn layer_query(self, i: int, path: Seq<char>, is_dir: bool) -> bool {
        let rel = spec_relativize(path, self.layers[i].0);
        matcher_testable(rel) && matcher_ignores(self.layers[i].1, rel, is_dir)
    }

    /// Whether the accumulated rules mark a candidate path ignored: the
    /// repository exclude rules, or any directory layer. An "ignored" verdict
    /// from any one source wins outright; no source's whitelist verdict can
    /// veto another source's verdict.
    pub open spec fn spec_is_ignored(self, path: Seq<char>, is_dir: bool) -> bool {
        self.repo_query(path, is_dir) || exists|i: int|
            0 <= i < self.layers.len() && #[trigger] self.layer_query(i, path, is_dir)
    }
}

impl GitignoreCtx {
    /// A context with no repository-level rules and no directory layers.
    pub fn empty() -> (r: Self)
        ensures
            r@.repo_root is None,
            r@.repo_exclude is None,
            r@.layers.len() == 0,
            r@.wf(),
    {
        GitignoreCtx { repo_root: None, repo_exclude: None, dir_ignores: Vec::new() }
    }

    /// A context holding repository-level rules rooted at `root`, and no
    /// directory layers yet.
    pub fn with_repo(root: String, matcher: Gitignore) -> (r: Self)
        ensures
            r@.repo_root == Some(root@),
            r@.repo_exclude == Some(matcher),
            r@.layers.len() == 0,
            r@.wf(),
    {
        GitignoreCtx {
            repo_root: Some(root),
            repo_exclude: Some(matcher),
            dir_ignores: Vec::new(),
        }
    }

    /// The number of directory layers accumulated so far.
    pub fn layer_count(&self) -> (n: usize)
        ensures
            n == self@.layers.len(),
    {
        self.dir_ignores.len()
    }

    /// Whether repository-level rules are present.
    pub fn has_repo_rules(&self) -> (r: bool)
        ensures
            r == (self@.repo_exclude is Some),
    {
        self.repo_exclude.is_some()
    }

    /// A structurally equal copy: the same repository fields and the same
    /// layers. The source context stays usable on its own.
    fn duplicate(&self) -> (r: Self)
        ensures
            r@ == self@,
    {
        let repo_root = match &self.repo_root {
            Some(s) => Some(s.clone()),
            None => None,
        };
        let repo_exclude = match &self.repo_exclude {
            Some(m) => Some(m.clone()),
            None => None,
        };
        let mut layers: Vec<(String, Gitignore)> = Vec::new();
        let mut i: usize = 0;
        while i < self.dir_ignores.len()
            invariant
                i <= self.dir_ignores.len(),
                layers@.len() == i,
                forall|j: int| 0 <= j < i ==> layers@[j] == self.dir_ignores@[j],
            decreases self.dir_ignores.len() - i,
    {
            let p = &self.dir_ignores[i];
            layers.push((p.0.clone(), p.1.clone()));
            i += 1;
        }
        let r = GitignoreCtx { repo_root, repo_exclude, dir_ignores: layers };
        proof {
            assert(layers@ =~= self.dir_ignores@);
        }
        r
    }

    /// A context like this one with one more directory layer when a matcher
    /// for `dir` was handed over, and equal to this one otherwise. The source
    /// context is never changed.
    pub fn with_matcher(&self, dir: &str, matcher: Option<Gitignore>) -> (r: Self)
        ensures
            r@.repo_root == self@.repo_root,
            r@.repo_exclude == self@.repo_exclude,
            (match matcher {
                Some(m) => r@.layers == self@.layers.push((dir@, m)),
                None => r@.layers == self@.layers,
            }),
            self@.wf() ==> r@.wf(),
    {
        let mut next = self.duplicate();
        match matcher {
            Some(m) => {
                let ghost pushed = m;
                next.dir_ignores.push((dir.to_owned(), m));
                proof {
                    assert(next@.layers =~= self@.layers.push((dir@, pushed)));
                }
            },
            None => {},
        }
        next
    }

    /// A context for descending into `dir`: when `<dir>/.gitignore` exists
    /// and compiles, a matcher for it, rooted at `dir`, is layered on; a
    /// missing or broken ignore file adds nothing and never stops the walk.
    pub fn with_dir(&self, dir: &str) -> (r: Self)
        ensures
            r@.repo_root == self@.repo_root,
            r@.repo_exclude == self@.repo_exclude,
            r@.layers == self@.layers || (exists|m: Gitignore|
                r@.layers == self@.layers.push((dir@, m))),
            self@.wf() ==> r@.wf(),
    {
        let gi_path = join_path(dir, ".gitignore");
        if path_exists(gi_path.as_str()) {
            let compiled = compile_matcher(dir, gi_path.as_str());
            let ghost c = compiled;
            let r = self.with_matcher(dir, compiled);
            proof {
                match c {
                    Some(m) => {
                        assert(r@.layers == self@.layers.push((dir@, m)));
                    },
                    None => {},
                }
            }
            r
        } else {
            self.with_matcher(dir, None)
        }
    }

    /// Whether the accumulated rules mark `path` ignored: the repository
    /// exclude rules are consulted first, then the directory layers, deepest
    /// first, stopping at the first "ignored" verdict.
    pub fn is_ignored(&self, path: &str, is_dir: bool) -> (r: bool)
        ensures
            r == self@.spec_is_ignored(path@, is_dir),
    {
        match (&self.repo_root, &self.repo_exclude) {
            (Some(root), Some(m)) => {
                let rel = relativize(path, root.as_str());
                if is_matcher_testable(rel) && matcher_is_ignore(m, rel, is_dir) {
                    return true;
                }
            },
            _ => {},
        }
        assert(!self@.repo_query(path@, is_dir));
        let ghost v = self@;
        let mut i: usize = self.dir_ignores.len();
        while i > 0
            invariant
                v == self@,
                i <= self.dir_ignores.len(),
                self.dir_ignores@.len() == v.layers.len(),
                forall|j: int| i <= j < v.layers.len() ==> !v.layer_query(j, path@, is_dir),
            decreases i,
        {
            i -= 1;
            let p = &self.dir_ignores[i];
            let rel = relativize(path, p.0.as_str());
            if is_matcher_testable(rel) {
                if matcher_is_ignore(&p.1, rel, is_dir) {
                    proof {
                        assert(v.layer_query(i as int, path@, is_dir));
                    }
                    return true;
                }
            }
        }
        false
    }
}

/// An initial context for a listing that starts at `start_path`: repository
/// discovery runs once; when it yields a working directory whose local
/// exclude file (under the metadata directory) compiles, the context carries
/// those repository-level rules. Absence of a repository, and every failure
/// on the way, is a normal outcome, never an error.
pub fn build_gitignore_context(start_path: &str) -> (r: GitignoreCtx)
    ensures
        r@.layers.len() == 0,
        r@.wf(),
{
    match discover_repository(start_path) {
        Some(repo) => match repository_workdir(&repo) {
            Some(workdir) => match repository_metadata_dir(&repo) {
                Some(meta) => {
                    let info_dir = join_path(meta.as_str(), "info");
                    let exclude_path = join_path(info_dir.as_str(), "exclude");
                    match compile_matcher(workdir.as_str(), exclude_path.as_str()) {
                        Some(m) => GitignoreCtx::with_repo(workdir, m),
                        None => GitignoreCtx::empty(),
                    }
                },
                None => GitignoreCtx::empty(),
            },
            None => GitignoreCtx::empty(),
        },
        None => GitignoreCtx::empty(),
    }
}

// ---------------------------------------------------------------------------
// Laws of the query.
// ---------------------------------------------------------------------------

/// Law: when the repository exclude rules mark a path ignored, the query
/// answers true, regardless of the contents of any directory layer.
pub proof fn lemma_repo_exclude_precedence(v: CtxView, path: Seq<char>, is_dir: bool)
    requires
        v.repo_query(path, is_dir),
    ensures
        v.spec_is_ignored(path, is_dir),
{
}

/// Law: when any single directory layer marks a path ignored — in particular
/// the deeper of two nested layers — the query answers true, whatever every
/// other layer would report.
pub proof fn lemma_layer_precedence(v: CtxView, i: int, path: Seq<char>, is_dir: bool)
    requires
        0 <= i < v.layers.len(),
        v.layer_query(i, path, is_dir),
    ensures
        v.spec_is_ignored(path, is_dir),
{
}

/// Law: the query is a function of the context and its inputs alone; two
/// results computed for the same context, path and kind are equal.
pub proof fn lemma_query_deterministic(
    v: CtxView,
    path: Seq<char>,
    is_dir: bool,
    r1: bool,
    r2: bool,
)
    requires
        r1 == v.spec_is_ignored(path, is_dir),
        r2 == v.spec_is_ignored(path, is_dir),
    ensures
        r1 == r2,
{
}

/// Law: two contexts with the same repository fields and the same layers
/// answer every query alike; extending for a directory without an ignore file
/// therefore leaves behavior unchanged.
pub proof fn lemma_same_rules_same_answers(a: CtxView, b: CtxView, path: Seq<char>, is_dir: bool)
    requires
        a.repo_root == b.repo_root,
        a.repo_exclude == b.repo_exclude,
        a.layers == b.layers,
    ensures
        a.spec_is_ignored(path, is_dir) == b.spec_is_ignored(path, is_dir),
{
    assert(a == b);
}

/// Law: extending a context never un-ignores a path: whatever the old
/// context marked ignored stays ignored once a layer is appended.
pub proof fn lemma_extend_preserves_ignored(
    v: CtxView,
    w: CtxView,
    dir: Seq<char>,
    m: Gitignore,
    path: Seq<char>,
    is_dir: bool,
)
    requires
        w.repo_root == v.repo_root,
        w.repo_exclude == v.repo_exclude,
        w.layers == v.layers.push((dir, m)),
        v.spec_is_ignored(path, is_dir),
    ensures
        w.spec_is_ignored(path, is_dir),
{
    if v.repo_query(path, is_dir) {
        assert(w.repo_query(path, is_dir));
    } else {
        let i = choose|i: int| 0 <= i < v.layers.len() && #[trigger] v.layer_query(
            i,
            path,
            is_dir,
        );
        assert(w.layers[i] == v.layers[i]);
        assert(w.layer_query(i, path, is_dir));
    }
}

/// Law: a candidate path that is under no matcher's root, and that the
/// matcher accepts as it stands (relative, no leading `./`, no doubled
/// separator), is tested unmodified against every matcher, instead of
/// failing. A candidate the matcher refuses is never handed to it: that rule
/// source is skipped, and the walk goes on.
pub proof fn lemma_fallback_tests_unmodified(v: CtxView, path: Seq<char>, is_dir: bool)
    requires
        matcher_testable(path),
        (match v.repo_root {
            Some(root) => !is_under(path, root),
            None => true,
        }),
        forall|i: int| 0 <= i < v.layers.len() ==> !is_under(path, #[trigger] v.layers[i].0),
    ensures
        v.spec_is_ignored(path, is_dir) == ((match (v.repo_root, v.repo_exclude) {
            (Some(_), Some(m)) => matcher_ignores(m, path, is_dir),
            _ => false,
        }) || exists|i: int|
            0 <= i < v.layers.len() && matcher_ignores(#[trigger] v.layers[i].1, path, is_dir)),
{
    assert forall|i: int| 0 <= i < v.layers.len() implies #[trigger] v.layer_query(
        i,
        path,
        is_dir,
    ) == matcher_ignores(v.layers[i].1, path, is_dir) by {
        assert(spec_relativize(path, v.layers[i].0) == path);
    }
    if exists|i: int| 0 <= i < v.layers.len() && #[trigger] v.layer_query(i, path, is_dir) {
        let i = choose|i: int| 0 <= i < v.layers.len() && #[trigger] v.layer_query(
            i,
            path,
            is_dir,
        );
        assert(matcher_ignores(v.layers[i].1, path, is_dir));
    }
    if exists|i: int|
        0 <= i < v.layers.len() && matcher_ignores(#[trigger] v.layers[i].1, path, is_dir) {
        let i = choose|i: int|
            0 <= i < v.layers.len() && matcher_ignores(#[trigger] v.layers[i].1, path, is_dir);
        assert(v.layer_query(i, path, is_dir));
    }
}

} // verus!
