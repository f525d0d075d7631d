use vstd::prelude::*;
use vstd::string::*;

verus! {

/// The host used when a declaration names none.
pub open spec fn default_host() -> Seq<char> {
    "github.com"@
}

/// One declared dependency: where it lives remotely and what to pin it to.
#[derive(Debug, PartialEq, Eq)]
pub struct DependencyData {
    /// Directory name under `deps/`; unique within its manifest.
    pub name: String,
    /// Host of the remote; `None` means the default public host.
    pub host: Option<String>,
    /// Owner (namespace) and repository identifiers on the host.
    pub repository: (String, String),
    /// Branch, tag or commit to check out; `None` keeps the default branch tip.
    pub revision: Option<String>,
}

/// A manifest entry, as it is nested in the manifest document.
#[derive(Debug, PartialEq, Eq)]
pub struct Dependency {
    pub dependency: DependencyData,
}

/// A project's manifest: its declared dependencies, in declaration order.
#[derive(Debug, PartialEq, Eq)]
pub struct Depman {
    pub dependencies: Vec<Dependency>,
}

pub open spec fn host_of(d: DependencyData) -> Seq<char> {
    match d.host {
        Some(h) => h@,
        None => default_host(),
    }
}

/// `https://<host>/<owner>/<repository>.git`
pub open spec fn remote_url_of(d: DependencyData) -> Seq<char> {
    "https://"@ + host_of(d) + "/"@ + d.repository.0@ + "/"@ + d.repository.1@ + ".git"@
}

/// `<base>/deps`
pub open spec fn deps_dir_of(base: Seq<char>) -> Seq<char> {
    base + "/deps"@
}

/// `<base>/deps/<name>`
pub open spec fn dependency_dir_of(base: Seq<char>, name: Seq<char>) -> Seq<char> {
    deps_dir_of(base) + "/"@ + name
}

/// `<dir>/.c3pm.toml`
pub open spec fn manifest_path_of(dir: Seq<char>) -> Seq<char> {
    dir + "/.c3pm.toml"@
}

impl DependencyData {
    pub fn default() -> (r: DependencyData)
        ensures
            r.name@ == Seq::<char>::empty(),
            r.host is None,
            r.repository.0@ == Seq::<char>::empty(),
            r.repository.1@ == Seq::<char>::empty(),
            r.revision is None,
    {
        DependencyData {
            name: String::new(),
            host: None,
            repository: (String::new(), String::new()),
            revision: None,
        }
    }

    /// A declaration on the default host.
    pub fn new(name: String, version: Option<String>, repository: (String, String)) -> (r:
        DependencyData)
        ensures
            r.name == name,
            r.host is None,
            r.repository == repository,
            r.revision == version,
    {
        DependencyData { name, host: None, repository, revision: version }
    }

    /// The remote location to clone from.
    pub fn remote_url(&self) -> (r: String)
        ensures
            r@ == remote_url_of(*self),
    {
        let mut s = String::from_str("https://");
        match &self.host {
            Some(h) => s.append(h.as_str()),
            None => s.append("github.com"),
        }
        s.append("/");
        s.append(self.repository.0.as_str());
        s.append("/");
        s.append(self.repository.1.as_str());
        s.append(".git");
        s
    }
}

impl Dependency {
    pub fn default() -> (r: Dependency)
        ensures
            r.dependency.name@ == Seq::<char>::empty(),
            r.dependency.host is None,
            r.dependency.repository.0@ == Seq::<char>::empty(),
            r.dependency.repository.1@ == Seq::<char>::empty(),
            r.dependency.revision is None,
    {
        Dependency { dependency: DependencyData::default() }
    }

    /// A declaration on the default host pinned to `version`.
    pub fn new(name: &str, version: &str, repository: (&str, &str)) -> (r: Dependency)
        ensures
            r.dependency.name@ == name@,
            r.dependency.host is None,
            r.dependency.repository.0@ == repository.0@,
            r.dependency.repository.1@ == repository.1@,
            r.dependency.revision matches Some(v) && v@ == version@,
    {
        Dependency {
            dependency: DependencyData::new(
                name.to_owned(),
                Some(version.to_owned()),
                (repository.0.to_owned(), repository.1.to_owned()),
            ),
        }
    }
}

impl Depman {
    pub fn new(dependencies: Vec<Dependency>) -> (r: Depman)
        ensures
            r.dependencies == dependencies,
    {
        Depman { dependencies }
    }
}

/// The directory that holds a project's fetched dependencies.
pub fn deps_path(base: &str) -> (r: String)
    ensures
        r@ == deps_dir_of(base@),
{
    let mut s = base.to_owned();
    s.append("/deps");
    s
}

/// The directory a dependency named `name` of the project at `base` is fetched into.
pub fn dependency_path(base: &str, name: &str) -> (r: String)
    ensures
        r@ == dependency_dir_of(base@, name@),
{
    let mut s = deps_path(base);
    s.append("/");
    s.append(name);
    s
}

/// Where the manifest of the project at `dir` is found.
pub fn manifest_path(dir: &str) -> (r: String)
    ensures
        r@ == manifest_path_of(dir@),
{
    let mut s = dir.to_owned();
    s.append("/.c3pm.toml");
    s
}

/// The text after the last `/` of `s` (all of `s` when it has none).
pub open spec fn after_last_slash(s: Seq<char>) -> Seq<char>
    decreases s.len(),
{
    if s.len() == 0 {
        s
    } else if s.last() == '/' {
        Seq::empty()
    } else {
        after_last_slash(s.drop_last()).push(s.last())
    }
}

/// `s` with every trailing `.git` removed.
pub open spec fn strip_git_suffixes(s: Seq<char>) -> Seq<char>
    decreases s.len(),
{
    if s.len() >= 4 && s.subrange(s.len() - 4, s.len() as int) == ".git"@ {
        strip_git_suffixes(s.subrange(0, s.len() - 4))
    } else {
        s
    }
}

proof fn lemma_after_last_slash(s: Seq<char>, k: int)
    requires
        0 <= k <= s.len(),
        k == 0 || s[k - 1] == '/',
        forall|j: int| k <= j < s.len() ==> s[j] != '/',
    ensures
        after_last_slash(s) == s.subrange(k, s.len() as int),
    decreases s.len(),
{
    if s.len() > k {
        lemma_after_last_slash(s.drop_last(), k);
        assert(s.subrange(k, s.len() as int) =~= s.drop_last().subrange(k, s.len() - 1).push(
            s.last(),
        ));
    } else if k > 0 {
        assert(s.subrange(k, s.len() as int) =~= Seq::<char>::empty());
    }
}

fn has_git_suffix(s: &str) -> (r: bool)
    ensures
        r == (s@.len() >= 4 && s@.subrange(s@.len() - 4, s@.len() as int) == ".git"@),
{
    proof {
        reveal_strlit(".git");
    }
    let n = s.unicode_len();
    if n < 4 {
        return false;
    }
    let r = s.get_char(n - 4) == '.' && s.get_char(n - 3) == 'g' && s.get_char(n - 2) == 'i'
        && s.get_char(n - 1) == 't';
    assert(r ==> s@.subrange(n - 4, n as int) =~= ".git"@);
    assert(s@.subrange(n - 4, n as int) == ".git"@ ==> s@[n - 4] == ".git"@[0] && s@[n - 3]
        == ".git"@[1] && s@[n - 2] == ".git"@[2] && s@[n - 1] == ".git"@[3]);
    r
}

/// The name a repository is fetched under: the last segment of its URL, without
/// its `.git` suffix.
pub fn repository_name(url: &str) -> (r: String)
    ensures
        r@ == strip_git_suffixes(after_last_slash(url@)),
{
    let n = url.unicode_len();
    let mut k = n;
    while k > 0 && url.get_char(k - 1) != '/'
        invariant
            k <= n,
            n == url@.len(),
            forall|j: int| k <= j < n ==> url@[j] != '/',
        decreases k,
    {
        k = k - 1;
    }
    proof {
        lemma_after_last_slash(url@, k as int);
    }
    let mut cur: &str = url.substring_char(k, n);
    while has_git_suffix(cur)
        invariant
            strip_git_suffixes(cur@) == strip_git_suffixes(after_last_slash(url@)),
        decreases cur@.len(),
    {
        let m = cur.unicode_len();
        cur = cur.substring_char(0, m - 4);
    }
    cur.to_owned()
}

} // verus!
