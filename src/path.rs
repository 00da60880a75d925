use vstd::prelude::*;

verus! {

/// A path is absolute when it starts at the root separator.
pub open spec fn is_absolute(p: Seq<char>) -> bool {
    p.len() > 0 && p[0] == '/'
}

/// Appending `part` to `base`: an absolute `part` replaces `base`; otherwise
/// exactly one separator stands between the two.
pub open spec fn join_spec(base: Seq<char>, part: Seq<char>) -> Seq<char> {
    if is_absolute(part) {
        part
    } else if base.len() == 0 {
        part
    } else if base.last() == '/' {
        base + part
    } else {
        base + seq!['/'] + part
    }
}

fn starts_with_separator(p: &str) -> (r: bool)
    ensures
        r == is_absolute(p@),
{
    if p.is_empty() {
        false
    } else {
        p.get_char(0) == '/'
    }
}

fn ends_with_separator(p: &str) -> (r: bool)
    ensures
        r == (p@.len() > 0 && p@.last() == '/'),
{
    let n = p.unicode_len();
    if n == 0 {
        false
    } else {
        p.get_char(n - 1) == '/'
    }
}

/// Appends one path segment (or a whole relative path) to `base`.
pub fn join(base: &str, part: &str) -> (r: String)
    ensures
        r@ == join_spec(base@, part@),
{
    if starts_with_separator(part) || base.is_empty() {
        return String::from_str(part);
    }
    let mut r = String::from_str(base);
    if !ends_with_separator(base) {
        r.append("/");
        proof {
            reveal_strlit("/");
        }
    }
    r.append(part);
    r
}

/// Makes `path` absolute by resolving it against the working directory `cwd`.
pub fn absolutize(cwd: &str, path: &str) -> (r: String)
    ensures
        is_absolute(path@) ==> r@ == path@,
        !is_absolute(path@) ==> r@ == join_spec(cwd@, path@),
{
    if starts_with_separator(path) {
        String::from_str(path)
    } else {
        join(cwd, path)
    }
}

/// A variable's value counts only when it is present and non-empty.
pub open spec fn given(v: Option<Seq<char>>) -> bool {
    v is Some && v->0.len() > 0
}

pub open spec fn opt_view(v: Option<&str>) -> Option<Seq<char>> {
    match v {
        Some(s) => Some(s@),
        None => None,
    }
}

/// The package cache root: the override directory (resolved against the
/// working directory) when one is given, else `.cargo` under the user's home.
pub open spec fn cache_root_spec(
    cwd: Seq<char>,
    cargo_home: Option<Seq<char>>,
    user_home: Option<Seq<char>>,
) -> Option<Seq<char>> {
    if given(cargo_home) {
        Some(join_spec(cwd, cargo_home->0))
    } else if given(user_home) {
        Some(join_spec(user_home->0, ".cargo"@))
    } else {
        None
    }
}

/// Finds the package cache root from the working directory, the override
/// variable and the user's home directory; `None` when neither is known.
pub fn cargo_home(cwd: &str, cargo_home_var: Option<&str>, user_home: Option<&str>) -> (r: Option<
    String,
>)
    ensures
        r is Some <==> cache_root_spec(cwd@, opt_view(cargo_home_var), opt_view(user_home)) is Some,
        r is Some ==> r->0@ == cache_root_spec(
            cwd@,
            opt_view(cargo_home_var),
            opt_view(user_home),
        )->0,
{
    match cargo_home_var {
        Some(h) => {
            if !h.is_empty() {
                return Some(join(cwd, h));
            }
        },
        None => {},
    }
    match user_home {
        Some(h) => {
            if !h.is_empty() {
                return Some(join(h, ".cargo"));
            }
        },
        None => {},
    }
    None
}

/// Two names joined by a dash, as in `host-hash` and `name-version`.
pub open spec fn dash_join_spec(a: Seq<char>, b: Seq<char>) -> Seq<char> {
    a + seq!['-'] + b
}

/// Where the package manager unpacks a registry package: under the cache
/// root, `registry/src/<host>-<hash>/<name>-<version>`.
pub open spec fn source_path_spec(
    root: Seq<char>,
    host: Seq<char>,
    hash: Seq<char>,
    name: Seq<char>,
    version: Seq<char>,
) -> Seq<char> {
    join_spec(
        join_spec(join_spec(join_spec(root, "registry"@), "src"@), dash_join_spec(host, hash)),
        dash_join_spec(name, version),
    )
}

/// Joins two names with a dash.
pub fn dash_join(a: &str, b: &str) -> (r: String)
    ensures
        r@ == dash_join_spec(a@, b@),
{
    let mut r = String::from_str(a);
    r.append("-");
    proof {
        reveal_strlit("-");
    }
    r.append(b);
    r
}

/// Composes the directory that holds the unpacked source of package
/// `name`-`version` from the registry whose directory key is `host`-`hash`.
pub fn compose_source_path(
    cache_root: &str,
    host: &str,
    hash: &str,
    name: &str,
    version: &str,
) -> (r: String)
    ensures
        r@ == source_path_spec(cache_root@, host@, hash@, name@, version@),
{
    let registry = join(cache_root, "registry");
    let sources = join(registry.as_str(), "src");
    let source_dir = dash_join(host, hash);
    let package_dir = dash_join(name, version);
    let dir = join(sources.as_str(), source_dir.as_str());
    join(dir.as_str(), package_dir.as_str())
}

/// One path component: non-empty and free of separators.
pub open spec fn is_segment(s: Seq<char>) -> bool {
    s.len() > 0 && forall|i: int| 0 <= i < s.len() ==> s[i] != '/'
}

/// No two separators stand next to each other.
pub open spec fn no_double_separator(p: Seq<char>) -> bool {
    forall|i: int| 0 <= i < p.len() - 1 ==> !(#[trigger] p[i] == '/' && p[i + 1] == '/')
}

/// The base with exactly one separator at its end.
pub open spec fn with_separator(base: Seq<char>) -> Seq<char> {
    if base.last() == '/' {
        base
    } else {
        base + seq!['/']
    }
}

proof fn lemma_concat_no_double(a: Seq<char>, b: Seq<char>)
    requires
        no_double_separator(a),
        no_double_separator(b),
        !(a.len() > 0 && b.len() > 0 && a.last() == '/' && b[0] == '/'),
    ensures
        no_double_separator(a + b),
{
    let c = a + b;
    assert forall|i: int| 0 <= i < c.len() - 1 implies !(#[trigger] c[i] == '/' && c[i + 1]
        == '/') by {
        if i + 1 < a.len() {
            assert(c[i] == a[i] && c[i + 1] == a[i + 1]);
        } else if i >= a.len() {
            assert(c[i] == b[i - a.len()] && c[i + 1] == b[i - a.len() + 1]);
        } else {
            assert(c[i] == a.last() && c[i + 1] == b[0]);
        }
    }
}

proof fn lemma_join_segment(base: Seq<char>, seg: Seq<char>)
    requires
        base.len() > 0,
        no_double_separator(base),
        is_segment(seg),
    ensures
        join_spec(base, seg) == with_separator(base) + seg,
        no_double_separator(join_spec(base, seg)),
        join_spec(base, seg).len() > 0,
        join_spec(base, seg).last() != '/',
{
    let sep = seq!['/'];
    assert(seg[0] != '/');
    assert(no_double_separator(seg));
    if base.last() != '/' {
        assert(no_double_separator(sep));
        lemma_concat_no_double(base, sep);
        assert((base + sep).last() == '/');
        lemma_concat_no_double(base + sep, seg);
    } else {
        lemma_concat_no_double(base, seg);
    }
    let r = join_spec(base, seg);
    assert(r.last() == seg.last());
}

proof fn lemma_dash_join_segment(a: Seq<char>, b: Seq<char>)
    requires
        is_segment(a),
        is_segment(b),
    ensures
        is_segment(dash_join_spec(a, b)),
{
    let d = dash_join_spec(a, b);
    assert forall|i: int| 0 <= i < d.len() implies d[i] != '/' by {
        if i < a.len() {
            assert(d[i] == a[i]);
        } else if i == a.len() {
            assert(d[i] == '-');
        } else {
            assert(d[i] == b[i - a.len() - 1]);
        }
    }
}

/// The cache layout: for a non-empty cache root without doubled separators
/// and for names that are single path components, the source directory is
/// exactly `root/registry/src/host-hash/name-version`, with one separator
/// between components, none doubled and none at the end.
pub proof fn lemma_source_path_layout(
    root: Seq<char>,
    host: Seq<char>,
    hash: Seq<char>,
    name: Seq<char>,
    version: Seq<char>,
)
    requires
        root.len() > 0,
        no_double_separator(root),
        is_segment(host),
        is_segment(hash),
        is_segment(name),
        is_segment(version),
    ensures
        source_path_spec(root, host, hash, name, version) == with_separator(root) + "registry"@
            + seq!['/'] + "src"@ + seq!['/'] + host + seq!['-'] + hash + seq!['/'] + name + seq![
            '-',
        ] + version,
        no_double_separator(source_path_spec(root, host, hash, name, version)),
        source_path_spec(root, host, hash, name, version).last() != '/',
{
    reveal_strlit("registry");
    reveal_strlit("src");
    let registry = "registry"@;
    let src = "src"@;
    assert(is_segment(registry));
    assert(is_segment(src));
    lemma_dash_join_segment(host, hash);
    lemma_dash_join_segment(name, version);
    let p1 = join_spec(root, registry);
    lemma_join_segment(root, registry);
    let p2 = join_spec(p1, src);
    lemma_join_segment(p1, src);
    let p3 = join_spec(p2, dash_join_spec(host, hash));
    lemma_join_segment(p2, dash_join_spec(host, hash));
    lemma_join_segment(p3, dash_join_spec(name, version));
    assert(source_path_spec(root, host, hash, name, version) =~= with_separator(root) + registry
        + seq!['/'] + src + seq!['/'] + host + seq!['-'] + hash + seq!['/'] + name + seq!['-']
        + version);
}

} // verus!
