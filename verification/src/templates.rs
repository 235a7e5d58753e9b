//! The descriptor template engine: substitutes `{KEY}` placeholders in a
//! format string with values resolved from a product identifier and its
//! optional build-provenance record.
//!
//! Substitution is a single left-to-right pass: at each position, if the
//! text starts with a catalog token the token is replaced by its resolved
//! value and the scan continues after the token; otherwise one character is
//! copied. A value is never rescanned, so no key's expansion can trigger
//! another substitution, and tokens not in the catalog are left untouched.

use vstd::prelude::*;

use crate::decimal::{decimal_string, spec_decimal};
use crate::product::{
    spec_render_name, spec_resolved_version, ProductName, ProductNameModel,
};

verus! {

/// A substitution catalog: each entry is a placeholder token and the value
/// that replaces it.
pub type Catalog = Seq<(Seq<char>, Seq<char>)>;

/// Preset: name and version only.
pub const DESCRIPTOR_SHORT: &'static str = "{NAME} v{VERSION}";

/// Preset: name, version and the short commit hash.
pub const DESCRIPTOR_DEFAULT: &'static str = "{NAME} v{VERSION} ({GIT_COMMIT})";

/// Preset: as the default, with a star marking a dirty working tree.
pub const DESCRIPTOR_DEFAULT_DIRTY: &'static str =
    "{NAME} v{VERSION} ({GIT_COMMIT}{GIT_DIRTY_STAR})";

/// Preset: name, version, branch, short commit hash and build host.
pub const DESCRIPTOR_LONG: &'static str =
    "{NAME} v{VERSION} ({GIT_BRANCH} {GIT_COMMIT}{GIT_DIRTY_STAR}) built on {HOST}";

/// Preset: everything the long preset has, plus the long commit hash and the
/// build host's details.
pub const DESCRIPTOR_FULL: &'static str =
    "{NAME} v{VERSION} ({GIT_BRANCH} {GIT_COMMIT_LONG}{GIT_DIRTY_STAR}) built on {HOST} ({OS} {OS_VERSION}, {CPU_ARCH}, {CPU_COUNT} cpus, {MEMORY})";

/// Preset: a user-agent style identity string.
pub const DESCRIPTOR_USER_AGENT: &'static str = "{NAME}/{VERSION} ({OS} {OS_VERSION}; {CPU_ARCH})";

/// Preset: a short git reference with branch, short commit hash and dirty
/// marker.
pub const DESCRIPTOR_GIT_REF_SHORT: &'static str = "{GIT_BRANCH}@{GIT_COMMIT}{GIT_DIRTY_STAR}";

/// Whether `t` occurs in `s` starting exactly at position `i`.
pub open spec fn spec_token_at(s: Seq<char>, i: int, t: Seq<char>) -> bool {
    &&& 0 <= i
    &&& i + t.len() <= s.len()
    &&& s.subrange(i, i + t.len()) == t
}

/// The first catalog entry at index `j` or later whose token occurs in `s`
/// at position `i`, if any.
pub open spec fn find_match(s: Seq<char>, i: int, pairs: Catalog, j: int) -> Option<int>
    decreases pairs.len() - j,
{
    if j < 0 || j >= pairs.len() {
        None
    } else if spec_token_at(s, i, pairs[j].0) {
        Some(j)
    } else {
        find_match(s, i, pairs, j + 1)
    }
}

/// The rendering of `s` from position `i` on: a matched catalog token is
/// replaced by its value and skipped, any other character is copied. The
/// bounds on `step` only keep the definition total; a matched token always
/// lies within `s`, and no catalog token is empty.
pub open spec fn render_from(s: Seq<char>, i: int, pairs: Catalog) -> Seq<char>
    decreases s.len() - i,
{
    if i < 0 || i >= s.len() {
        Seq::empty()
    } else {
        match find_match(s, i, pairs, 0) {
            Some(j) => {
                let tok_len = pairs[j].0.len() as int;
                let step = if tok_len < 1 {
                    1int
                } else {
                    tok_len
                };
                let next = if i + step > s.len() {
                    s.len() as int
                } else {
                    i + step
                };
                pairs[j].1 + render_from(s, next, pairs)
            },
            None => seq![s[i]] + render_from(s, i + 1, pairs),
        }
    }
}

/// The substitution pairs as ghost sequences of characters.
pub open spec fn pairs_view(pairs: Seq<(&'static str, String)>) -> Catalog {
    Seq::new(pairs.len(), |k: int| (pairs[k].0@, pairs[k].1@))
}

/// Whether `tok` occurs in `s` starting exactly at position `i`.
fn is_token_at(s: &str, s_len: usize, i: usize, tok: &str) -> (b: bool)
    requires
        s_len == s@.len(),
        i <= s_len,
    ensures
        b == spec_token_at(s@, i as int, tok@),
{
    let tok_len = tok.unicode_len();
    if s_len - i < tok_len {
        return false;
    }
    let mut k: usize = 0;
    while k < tok_len
        invariant
            k <= tok_len,
            tok_len == tok@.len(),
            s_len == s@.len(),
            i + tok_len <= s_len,
            forall|m: int| 0 <= m < k ==> s@[i + m] == tok@[m],
        decreases tok_len - k,
    {
        if s.get_char(i + k) != tok.get_char(k) {
            proof {
                assert(s@.subrange(i as int, i + tok@.len())[k as int] == s@[i + k]);
            }
            return false;
        }
        k = k + 1;
    }
    proof {
        assert(s@.subrange(i as int, i + tok@.len()) =~= tok@);
    }
    true
}

/// The first catalog entry whose token occurs in `s` at position `i`,
/// if any.
fn find_match_exec(s: &str, s_len: usize, i: usize, pairs: &Vec<(&'static str, String)>) -> (r:
    Option<usize>)
    requires
        s_len == s@.len(),
        i <= s_len,
    ensures
        match r {
            Some(j) => {
                &&& j < pairs@.len()
                &&& find_match(s@, i as int, pairs_view(pairs@), 0) == Some(j as int)
                &&& spec_token_at(s@, i as int, pairs_view(pairs@)[j as int].0)
            },
            None => find_match(s@, i as int, pairs_view(pairs@), 0) is None,
        },
{
    let n = pairs.len();
    let mut j: usize = 0;
    while j < n
        invariant
            j <= n,
            n == pairs@.len(),
            s_len == s@.len(),
            i <= s_len,
            find_match(s@, i as int, pairs_view(pairs@), 0) == find_match(
                s@,
                i as int,
                pairs_view(pairs@),
                j as int,
            ),
        decreases n - j,
    {
        if is_token_at(s, s_len, i, pairs[j].0) {
            proof {
                assert(pairs_view(pairs@)[j as int].0 == pairs@[j as int].0@);
            }
            return Some(j);
        }
        proof {
            assert(pairs_view(pairs@)[j as int].0 == pairs@[j as int].0@);
        }
        j = j + 1;
    }
    None
}

/// Substitutes every catalog token occurring in `fmt` with its value, in one
/// left-to-right, non-recursive pass; text outside catalog tokens is copied
/// unchanged.
fn substitute(fmt: &str, pairs: &Vec<(&'static str, String)>) -> (r: String)
    ensures
        r@ == render_from(fmt@, 0, pairs_view(pairs@)),
{
    let ghost pv = pairs_view(pairs@);
    let s_len = fmt.unicode_len();
    let mut out = String::new();
    let mut i: usize = 0;
    proof {
        assert(out@ + render_from(fmt@, 0, pv) =~= render_from(fmt@, 0, pv));
    }
    while i < s_len
        invariant
            i <= s_len,
            s_len == fmt@.len(),
            pv == pairs_view(pairs@),
            out@ + render_from(fmt@, i as int, pv) == render_from(fmt@, 0, pv),
        decreases s_len - i,
    {
        match find_match_exec(fmt, s_len, i, pairs) {
            Some(j) => {
                let tok: &'static str = pairs[j].0;
                let tok_len = tok.unicode_len();
                let step = if tok_len == 0 {
                    1
                } else {
                    tok_len
                };
                proof {
                    assert(pv[j as int].0 == pairs@[j as int].0@);
                    assert(pv[j as int].1 == pairs@[j as int].1@);
                    assert(i + step <= s_len);
                    assert(render_from(fmt@, i as int, pv) == pv[j as int].1 + render_from(
                        fmt@,
                        i + step,
                        pv,
                    ));
                }
                out.append(pairs[j].1.as_str());
                proof {
                    assert(out@ + render_from(fmt@, i + step, pv) =~= render_from(fmt@, 0, pv));
                }
                i = i + step;
            },
            None => {
                let c = fmt.substring_char(i, i + 1);
                proof {
                    assert(c@ =~= seq![fmt@[i as int]]);
                    assert(render_from(fmt@, i as int, pv) == seq![fmt@[i as int]] + render_from(
                        fmt@,
                        i + 1,
                        pv,
                    ));
                }
                out.append(c);
                proof {
                    assert(out@ + render_from(fmt@, i + 1, pv) =~= render_from(fmt@, 0, pv));
                }
                i = i + 1;
            },
        }
    }
    proof {
        assert(out@ + render_from(fmt@, i as int, pv) =~= out@);
    }
    out
}

/// The text of an optional string, or nothing when it is absent.
pub open spec fn opt_text(o: Option<Seq<char>>) -> Seq<char> {
    match o {
        Some(s) => s,
        None => Seq::empty(),
    }
}

/// The items joined with a comma and a space between each two neighbours.
pub open spec fn comma_joined(items: Seq<Seq<char>>) -> Seq<char>
    decreases items.len(),
{
    if items.len() == 0 {
        Seq::empty()
    } else if items.len() == 1 {
        items[0]
    } else {
        comma_joined(items.drop_last()) + ", "@ + items.last()
    }
}

/// The value of the branch key: the build record's branch, if any.
pub open spec fn spec_value_branch(p: ProductNameModel) -> Seq<char> {
    match p.build {
        Some(b) => opt_text(b.branch),
        None => Seq::empty(),
    }
}

/// The value of the commit key: the build record's short commit hash.
pub open spec fn spec_value_commit(p: ProductNameModel) -> Seq<char> {
    match p.build {
        Some(b) => b.commit_short,
        None => Seq::empty(),
    }
}

/// The value of the long-commit key: the build record's long commit hash.
pub open spec fn spec_value_commit_long(p: ProductNameModel) -> Seq<char> {
    match p.build {
        Some(b) => b.commit_long,
        None => Seq::empty(),
    }
}

/// The value of the dirty key: the word `dirty` when the build record's
/// dirty flag is set, else nothing.
pub open spec fn spec_value_dirty(p: ProductNameModel) -> Seq<char> {
    match p.build {
        Some(b) => if b.dirty {
            "dirty"@
        } else {
            Seq::empty()
        },
        None => Seq::empty(),
    }
}

/// The value of the dirty-marker key: a star when the build record's dirty
/// flag is set, else nothing.
pub open spec fn spec_value_dirty_star(p: ProductNameModel) -> Seq<char> {
    match p.build {
        Some(b) => if b.dirty {
            "*"@
        } else {
            Seq::empty()
        },
        None => Seq::empty(),
    }
}

/// The value of the message key: the build record's commit message, if any.
pub open spec fn spec_value_message(p: ProductNameModel) -> Seq<char> {
    match p.build {
        Some(b) => opt_text(b.message),
        None => Seq::empty(),
    }
}

/// The value of the author key: the build record's author name, if any.
pub open spec fn spec_value_author(p: ProductNameModel) -> Seq<char> {
    match p.build {
        Some(b) => opt_text(b.author_name),
        None => Seq::empty(),
    }
}

/// The value of the author-email key: the build record's author email,
/// if any.
pub open spec fn spec_value_author_email(p: ProductNameModel) -> Seq<char> {
    match p.build {
        Some(b) => opt_text(b.author_email),
        None => Seq::empty(),
    }
}

/// The value of the tags key: the build record's tags, comma-joined.
pub open spec fn spec_value_tags(p: ProductNameModel) -> Seq<char> {
    match p.build {
        Some(b) => comma_joined(b.tags),
        None => Seq::empty(),
    }
}

/// The value of the remote key: the build record's remote URL, if any.
pub open spec fn spec_value_remote(p: ProductNameModel) -> Seq<char> {
    match p.build {
        Some(b) => opt_text(b.remote_url),
        None => Seq::empty(),
    }
}

/// The value of the commit-count key: the build record's commit count as a
/// decimal numeral, if any.
pub open spec fn spec_value_commit_count(p: ProductNameModel) -> Seq<char> {
    match p.build {
        Some(b) => match b.commit_count {
            Some(c) => spec_decimal(c as nat),
            None => Seq::empty(),
        },
        None => Seq::empty(),
    }
}

/// The value of the host key: the build host's name.
pub open spec fn spec_value_host(p: ProductNameModel) -> Seq<char> {
    match p.build {
        Some(b) => b.agent.hostname,
        None => Seq::empty(),
    }
}

/// The value of the OS key: the build host's operating system name.
pub open spec fn spec_value_os(p: ProductNameModel) -> Seq<char> {
    match p.build {
        Some(b) => b.agent.os_name,
        None => Seq::empty(),
    }
}

/// The value of the OS-version key.
pub open spec fn spec_value_os_version(p: ProductNameModel) -> Seq<char> {
    match p.build {
        Some(b) => b.agent.os_version,
        None => Seq::empty(),
    }
}

/// The value of the long OS-version key.
pub open spec fn spec_value_os_long(p: ProductNameModel) -> Seq<char> {
    match p.build {
        Some(b) => b.agent.os_long_version,
        None => Seq::empty(),
    }
}

/// The value of the CPU-architecture key.
pub open spec fn spec_value_cpu_arch(p: ProductNameModel) -> Seq<char> {
    match p.build {
        Some(b) => b.agent.cpu_arch,
        None => Seq::empty(),
    }
}

/// The value of the CPU-count key: the build host's CPU count as a decimal
/// numeral.
pub open spec fn spec_value_cpu_count(p: ProductNameModel) -> Seq<char> {
    match p.build {
        Some(b) => spec_decimal(b.agent.cpu_count as nat),
        None => Seq::empty(),
    }
}

/// The value of the memory key: the build host's human-readable total
/// memory.
pub open spec fn spec_value_memory(p: ProductNameModel) -> Seq<char> {
    match p.build {
        Some(b) => b.agent.total_memory,
        None => Seq::empty(),
    }
}

/// The fixed substitution catalog for an identifier: every recognized
/// placeholder token with its resolved value. Keys whose underlying data is
/// absent resolve to the empty string.
pub open spec fn catalog_pairs(p: ProductNameModel) -> Catalog {
    seq![
        ("{NAME}"@, spec_render_name(p)),
        ("{VERSION}"@, spec_resolved_version(p)),
        ("{GIT_BRANCH}"@, spec_value_branch(p)),
        ("{GIT_COMMIT}"@, spec_value_commit(p)),
        ("{GIT_COMMIT_LONG}"@, spec_value_commit_long(p)),
        ("{GIT_DIRTY}"@, spec_value_dirty(p)),
        ("{GIT_DIRTY_STAR}"@, spec_value_dirty_star(p)),
        ("{GIT_MESSAGE}"@, spec_value_message(p)),
        ("{GIT_AUTHOR}"@, spec_value_author(p)),
        ("{GIT_AUTHOR_EMAIL}"@, spec_value_author_email(p)),
        ("{GIT_TAGS}"@, spec_value_tags(p)),
        ("{GIT_REMOTE}"@, spec_value_remote(p)),
        ("{GIT_COMMIT_COUNT}"@, spec_value_commit_count(p)),
        ("{HOST}"@, spec_value_host(p)),
        ("{OS}"@, spec_value_os(p)),
        ("{OS_VERSION}"@, spec_value_os_version(p)),
        ("{OS_LONG}"@, spec_value_os_long(p)),
        ("{CPU_ARCH}"@, spec_value_cpu_arch(p)),
        ("{CPU_COUNT}"@, spec_value_cpu_count(p)),
        ("{MEMORY}"@, spec_value_memory(p)),
    ]
}

/// The rendering of a format string for an identifier: every catalog token
/// replaced by its resolved value in a single pass, everything else copied.
pub open spec fn spec_render(fmt: Seq<char>, p: ProductNameModel) -> Seq<char> {
    render_from(fmt, 0, catalog_pairs(p))
}

/// A copy of an optional string's text, or an empty string when it is
/// absent.
fn text_or_empty(o: &Option<String>) -> (r: String)
    ensures
        r@ == opt_text(o.deep_view()),
{
    match o {
        Some(s) => s.clone(),
        None => String::new(),
    }
}

/// The items joined with a comma and a space between each two neighbours.
fn comma_join(items: &Vec<String>) -> (r: String)
    ensures
        r@ == comma_joined(items.deep_view()),
{
    let mut r = String::new();
    let n = items.len();
    let mut i: usize = 0;
    proof {
        assert(items.deep_view().subrange(0, 0) =~= Seq::<Seq<char>>::empty());
    }
    while i < n
        invariant
            i <= n,
            n == items@.len(),
            r@ == comma_joined(items.deep_view().subrange(0, i as int)),
        decreases n - i,
    {
        if i > 0 {
            r.append(", ");
        }
        r.append(items[i].as_str());
        proof {
            let grown = items.deep_view().subrange(0, i + 1);
            assert(grown.drop_last() =~= items.deep_view().subrange(0, i as int));
            assert(grown.last() == items.deep_view()[i as int]);
            assert(r@ =~= comma_joined(grown));
        }
        i = i + 1;
    }
    proof {
        assert(items.deep_view().subrange(0, n as int) =~= items.deep_view());
    }
    r
}

/// The substitution catalog for an identifier, with every value resolved.
fn build_catalog(name: &ProductName) -> (pairs: Vec<(&'static str, String)>)
    ensures
        pairs_view(pairs@) == catalog_pairs(name@),
{
    let v_name = name.render_name();
    let v_version = name.resolved_version();
    let v_branch = match &name.build {
        Some(b) => text_or_empty(&b.branch),
        None => String::new(),
    };
    let v_commit = match &name.build {
        Some(b) => b.commit_short.clone(),
        None => String::new(),
    };
    let v_commit_long = match &name.build {
        Some(b) => b.commit_long.clone(),
        None => String::new(),
    };
    let v_dirty = match &name.build {
        Some(b) => if b.dirty {
            "dirty".to_owned()
        } else {
            String::new()
        },
        None => String::new(),
    };
    let v_dirty_star = match &name.build {
        Some(b) => if b.dirty {
            "*".to_owned()
        } else {
            String::new()
        },
        None => String::new(),
    };
    let v_message = match &name.build {
        Some(b) => text_or_empty(&b.message),
        None => String::new(),
    };
    let v_author = match &name.build {
        Some(b) => text_or_empty(&b.author_name),
        None => String::new(),
    };
    let v_author_email = match &name.build {
        Some(b) => text_or_empty(&b.author_email),
        None => String::new(),
    };
    let v_tags = match &name.build {
        Some(b) => comma_join(&b.tags),
        None => String::new(),
    };
    let v_remote = match &name.build {
        Some(b) => text_or_empty(&b.remote_url),
        None => String::new(),
    };
    let v_commit_count = match &name.build {
        Some(b) => match b.commit_count {
            Some(c) => decimal_string(c),
            None => String::new(),
        },
        None => String::new(),
    };
    let v_host = match &name.build {
        Some(b) => b.agent.hostname.clone(),
        None => String::new(),
    };
    let v_os = match &name.build {
        Some(b) => b.agent.os_name.clone(),
        None => String::new(),
    };
    let v_os_version = match &name.build {
        Some(b) => b.agent.os_version.clone(),
        None => String::new(),
    };
    let v_os_long = match &name.build {
        Some(b) => b.agent.os_long_version.clone(),
        None => String::new(),
    };
    let v_cpu_arch = match &name.build {
        Some(b) => b.agent.cpu_arch.clone(),
        None => String::new(),
    };
    let v_cpu_count = match &name.build {
        Some(b) => decimal_string(b.agent.cpu_count),
        None => String::new(),
    };
    let v_memory = match &name.build {
        Some(b) => b.agent.total_memory.clone(),
        None => String::new(),
    };
    let mut v: Vec<(&'static str, String)> = Vec::new();
    v.push(("{NAME}", v_name));
    v.push(("{VERSION}", v_version));
    v.push(("{GIT_BRANCH}", v_branch));
    v.push(("{GIT_COMMIT}", v_commit));
    v.push(("{GIT_COMMIT_LONG}", v_commit_long));
    v.push(("{GIT_DIRTY}", v_dirty));
    v.push(("{GIT_DIRTY_STAR}", v_dirty_star));
    v.push(("{GIT_MESSAGE}", v_message));
    v.push(("{GIT_AUTHOR}", v_author));
    v.push(("{GIT_AUTHOR_EMAIL}", v_author_email));
    v.push(("{GIT_TAGS}", v_tags));
    v.push(("{GIT_REMOTE}", v_remote));
    v.push(("{GIT_COMMIT_COUNT}", v_commit_count));
    v.push(("{HOST}", v_host));
    v.push(("{OS}", v_os));
    v.push(("{OS_VERSION}", v_os_version));
    v.push(("{OS_LONG}", v_os_long));
    v.push(("{CPU_ARCH}", v_cpu_arch));
    v.push(("{CPU_COUNT}", v_cpu_count));
    v.push(("{MEMORY}", v_memory));
    proof {
        assert(pairs_view(v@) =~= catalog_pairs(name@));
    }
    v
}

/// Substitutes every placeholder of the fixed catalog occurring in the
/// format string with its value resolved from the identifier, in a single
/// non-recursive pass. Missing data yields empty substitutions; tokens not
/// in the catalog are left untouched. Never fails.
pub fn render(fmt: &str, name: &ProductName) -> (r: String)
    ensures
        r@ == spec_render(fmt@, name@),
{
    let pairs = build_catalog(name);
    substitute(fmt, &pairs)
}

/// With no build record, every git- and build-related key resolves to the
/// empty string, while the name and version keys keep their values.
pub proof fn lemma_no_build_values_empty(p: ProductNameModel)
    requires
        p.build is None,
    ensures
        catalog_pairs(p)[0].1 == spec_render_name(p),
        catalog_pairs(p)[1].1 == spec_resolved_version(p),
        spec_resolved_version(p) == p.version,
        forall|j: int|
            2 <= j < catalog_pairs(p).len() ==> catalog_pairs(p)[j].1 == Seq::<char>::empty(),
{
}

/// A placeholder token: an opening brace, then a key, then a closing brace
/// that is the token's only closing brace.
spec fn brace_token(t: Seq<char>) -> bool {
    &&& t.len() >= 2
    &&& t[0] == '{'
    &&& t[t.len() - 1] == '}'
    &&& forall|m: int| 0 <= m < t.len() - 1 ==> t[m] != '}'
}

/// Of two placeholder tokens at one position, the shorter is a prefix of the
/// longer; its final closing brace then stands inside the longer one, which
/// only its end allows, so the tokens are the same.
proof fn lemma_brace_prefix_agrees(s: Seq<char>, i: int, a: Seq<char>, b: Seq<char>)
    requires
        brace_token(a),
        brace_token(b),
        spec_token_at(s, i, a),
        spec_token_at(s, i, b),
        a.len() <= b.len(),
    ensures
        a == b,
{
    assert forall|m: int| 0 <= m < a.len() implies a[m] == b[m] by {
        assert(s.subrange(i, i + a.len() as int)[m] == s[i + m]);
        assert(s.subrange(i, i + b.len() as int)[m] == s[i + m]);
    }
    assert(b[a.len() - 1] == '}');
    assert(a.len() == b.len());
    assert(a =~= b);
}

/// Two placeholder tokens occurring at the same position are the same token.
proof fn lemma_brace_tokens_agree(s: Seq<char>, i: int, a: Seq<char>, b: Seq<char>)
    requires
        brace_token(a),
        brace_token(b),
        spec_token_at(s, i, a),
        spec_token_at(s, i, b),
    ensures
        a == b,
{
    if a.len() <= b.len() {
        lemma_brace_prefix_agrees(s, i, a, b);
    } else {
        lemma_brace_prefix_agrees(s, i, b, a);
    }
}

/// Every catalog entry's token is a placeholder token.
proof fn lemma_catalog_tokens_are_braced(p: ProductNameModel)
    ensures
        brace_token(catalog_pairs(p)[0].0),
        brace_token(catalog_pairs(p)[1].0),
        brace_token(catalog_pairs(p)[2].0),
        brace_token(catalog_pairs(p)[3].0),
        brace_token(catalog_pairs(p)[4].0),
        brace_token(catalog_pairs(p)[5].0),
        brace_token(catalog_pairs(p)[6].0),
        brace_token(catalog_pairs(p)[7].0),
        brace_token(catalog_pairs(p)[8].0),
        brace_token(catalog_pairs(p)[9].0),
        brace_token(catalog_pairs(p)[10].0),
        brace_token(catalog_pairs(p)[11].0),
        brace_token(catalog_pairs(p)[12].0),
        brace_token(catalog_pairs(p)[13].0),
        brace_token(catalog_pairs(p)[14].0),
        brace_token(catalog_pairs(p)[15].0),
        brace_token(catalog_pairs(p)[16].0),
        brace_token(catalog_pairs(p)[17].0),
        brace_token(catalog_pairs(p)[18].0),
        brace_token(catalog_pairs(p)[19].0),
{
    reveal_strlit("{NAME}");
    reveal_strlit("{VERSION}");
    reveal_strlit("{GIT_BRANCH}");
    reveal_strlit("{GIT_COMMIT}");
    reveal_strlit("{GIT_COMMIT_LONG}");
    reveal_strlit("{GIT_DIRTY}");
    reveal_strlit("{GIT_DIRTY_STAR}");
    reveal_strlit("{GIT_MESSAGE}");
    reveal_strlit("{GIT_AUTHOR}");
    reveal_strlit("{GIT_AUTHOR_EMAIL}");
    reveal_strlit("{GIT_TAGS}");
    reveal_strlit("{GIT_REMOTE}");
    reveal_strlit("{GIT_COMMIT_COUNT}");
    reveal_strlit("{HOST}");
    reveal_strlit("{OS}");
    reveal_strlit("{OS_VERSION}");
    reveal_strlit("{OS_LONG}");
    reveal_strlit("{CPU_ARCH}");
    reveal_strlit("{CPU_COUNT}");
    reveal_strlit("{MEMORY}");
}

/// A catalog index pinned to the token it holds.
proof fn lemma_catalog_entry_cases(p: ProductNameModel, k: int)
    requires
        0 <= k < catalog_pairs(p).len(),
    ensures
        (k == 0 && catalog_pairs(p)[0].0 == "{NAME}"@)
        || (k == 1 && catalog_pairs(p)[1].0 == "{VERSION}"@)
        || (k == 2 && catalog_pairs(p)[2].0 == "{GIT_BRANCH}"@)
        || (k == 3 && catalog_pairs(p)[3].0 == "{GIT_COMMIT}"@)
        || (k == 4 && catalog_pairs(p)[4].0 == "{GIT_COMMIT_LONG}"@)
        || (k == 5 && catalog_pairs(p)[5].0 == "{GIT_DIRTY}"@)
        || (k == 6 && catalog_pairs(p)[6].0 == "{GIT_DIRTY_STAR}"@)
        || (k == 7 && catalog_pairs(p)[7].0 == "{GIT_MESSAGE}"@)
        || (k == 8 && catalog_pairs(p)[8].0 == "{GIT_AUTHOR}"@)
        || (k == 9 && catalog_pairs(p)[9].0 == "{GIT_AUTHOR_EMAIL}"@)
        || (k == 10 && catalog_pairs(p)[10].0 == "{GIT_TAGS}"@)
        || (k == 11 && catalog_pairs(p)[11].0 == "{GIT_REMOTE}"@)
        || (k == 12 && catalog_pairs(p)[12].0 == "{GIT_COMMIT_COUNT}"@)
        || (k == 13 && catalog_pairs(p)[13].0 == "{HOST}"@)
        || (k == 14 && catalog_pairs(p)[14].0 == "{OS}"@)
        || (k == 15 && catalog_pairs(p)[15].0 == "{OS_VERSION}"@)
        || (k == 16 && catalog_pairs(p)[16].0 == "{OS_LONG}"@)
        || (k == 17 && catalog_pairs(p)[17].0 == "{CPU_ARCH}"@)
        || (k == 18 && catalog_pairs(p)[18].0 == "{CPU_COUNT}"@)
        || (k == 19 && catalog_pairs(p)[19].0 == "{MEMORY}"@),
{
    reveal_strlit("{NAME}");
    reveal_strlit("{VERSION}");
    reveal_strlit("{GIT_BRANCH}");
    reveal_strlit("{GIT_COMMIT}");
    reveal_strlit("{GIT_COMMIT_LONG}");
    reveal_strlit("{GIT_DIRTY}");
    reveal_strlit("{GIT_DIRTY_STAR}");
    reveal_strlit("{GIT_MESSAGE}");
    reveal_strlit("{GIT_AUTHOR}");
    reveal_strlit("{GIT_AUTHOR_EMAIL}");
    reveal_strlit("{GIT_TAGS}");
    reveal_strlit("{GIT_REMOTE}");
    reveal_strlit("{GIT_COMMIT_COUNT}");
    reveal_strlit("{HOST}");
    reveal_strlit("{OS}");
    reveal_strlit("{OS_VERSION}");
    reveal_strlit("{OS_LONG}");
    reveal_strlit("{CPU_ARCH}");
    reveal_strlit("{CPU_COUNT}");
    reveal_strlit("{MEMORY}");
    if k == 0 {
        assert(catalog_pairs(p)[0].0 == "{NAME}"@);
    } else if k == 1 {
        assert(catalog_pairs(p)[1].0 == "{VERSION}"@);
    } else if k == 2 {
        assert(catalog_pairs(p)[2].0 == "{GIT_BRANCH}"@);
    } else if k == 3 {
        assert(catalog_pairs(p)[3].0 == "{GIT_COMMIT}"@);
    } else if k == 4 {
        assert(catalog_pairs(p)[4].0 == "{GIT_COMMIT_LONG}"@);
    } else if k == 5 {
        assert(catalog_pairs(p)[5].0 == "{GIT_DIRTY}"@);
    } else if k == 6 {
        assert(catalog_pairs(p)[6].0 == "{GIT_DIRTY_STAR}"@);
    } else if k == 7 {
        assert(catalog_pairs(p)[7].0 == "{GIT_MESSAGE}"@);
    } else if k == 8 {
        assert(catalog_pairs(p)[8].0 == "{GIT_AUTHOR}"@);
    } else if k == 9 {
        assert(catalog_pairs(p)[9].0 == "{GIT_AUTHOR_EMAIL}"@);
    } else if k == 10 {
        assert(catalog_pairs(p)[10].0 == "{GIT_TAGS}"@);
    } else if k == 11 {
        assert(catalog_pairs(p)[11].0 == "{GIT_REMOTE}"@);
    } else if k == 12 {
        assert(catalog_pairs(p)[12].0 == "{GIT_COMMIT_COUNT}"@);
    } else if k == 13 {
        assert(catalog_pairs(p)[13].0 == "{HOST}"@);
    } else if k == 14 {
        assert(catalog_pairs(p)[14].0 == "{OS}"@);
    } else if k == 15 {
        assert(catalog_pairs(p)[15].0 == "{OS_VERSION}"@);
    } else if k == 16 {
        assert(catalog_pairs(p)[16].0 == "{OS_LONG}"@);
    } else if k == 17 {
        assert(catalog_pairs(p)[17].0 == "{CPU_ARCH}"@);
    } else if k == 18 {
        assert(catalog_pairs(p)[18].0 == "{CPU_COUNT}"@);
    } else if k == 19 {
        assert(catalog_pairs(p)[19].0 == "{MEMORY}"@);
    }
}

/// At any position of any string, at most one catalog token matches: every
/// token is brace-delimited with its only closing brace at the end, so two
/// tokens at one position coincide, and the catalog lists no token twice.
/// Which key a position is substituted for therefore does not depend on the
/// order the catalog enumerates the keys in.
#[verifier::rlimit(100)]
pub proof fn lemma_catalog_match_unique(
    p: ProductNameModel,
    s: Seq<char>,
    i: int,
    j: int,
    k: int,
)
    requires
        0 <= j < catalog_pairs(p).len(),
        0 <= k < catalog_pairs(p).len(),
        spec_token_at(s, i, catalog_pairs(p)[j].0),
        spec_token_at(s, i, catalog_pairs(p)[k].0),
    ensures
        j == k,
{
    reveal_strlit("{NAME}");
    reveal_strlit("{VERSION}");
    reveal_strlit("{GIT_BRANCH}");
    reveal_strlit("{GIT_COMMIT}");
    reveal_strlit("{GIT_COMMIT_LONG}");
    reveal_strlit("{GIT_DIRTY}");
    reveal_strlit("{GIT_DIRTY_STAR}");
    reveal_strlit("{GIT_MESSAGE}");
    reveal_strlit("{GIT_AUTHOR}");
    reveal_strlit("{GIT_AUTHOR_EMAIL}");
    reveal_strlit("{GIT_TAGS}");
    reveal_strlit("{GIT_REMOTE}");
    reveal_strlit("{GIT_COMMIT_COUNT}");
    reveal_strlit("{HOST}");
    reveal_strlit("{OS}");
    reveal_strlit("{OS_VERSION}");
    reveal_strlit("{OS_LONG}");
    reveal_strlit("{CPU_ARCH}");
    reveal_strlit("{CPU_COUNT}");
    reveal_strlit("{MEMORY}");
    assert("{NAME}"@.len() == 6);
    assert("{NAME}"@[1] == 'N');
    assert("{NAME}"@[5] == '}');
    assert("{VERSION}"@.len() == 9);
    assert("{VERSION}"@[1] == 'V');
    assert("{VERSION}"@[5] == 'I');
    assert("{GIT_BRANCH}"@.len() == 12);
    assert("{GIT_BRANCH}"@[1] == 'G');
    assert("{GIT_BRANCH}"@[5] == 'B');
    assert("{GIT_COMMIT}"@.len() == 12);
    assert("{GIT_COMMIT}"@[1] == 'G');
    assert("{GIT_COMMIT}"@[5] == 'C');
    assert("{GIT_COMMIT_LONG}"@.len() == 17);
    assert("{GIT_COMMIT_LONG}"@[1] == 'G');
    assert("{GIT_COMMIT_LONG}"@[5] == 'C');
    assert("{GIT_DIRTY}"@.len() == 11);
    assert("{GIT_DIRTY}"@[1] == 'G');
    assert("{GIT_DIRTY}"@[5] == 'D');
    assert("{GIT_DIRTY_STAR}"@.len() == 16);
    assert("{GIT_DIRTY_STAR}"@[1] == 'G');
    assert("{GIT_DIRTY_STAR}"@[5] == 'D');
    assert("{GIT_MESSAGE}"@.len() == 13);
    assert("{GIT_MESSAGE}"@[1] == 'G');
    assert("{GIT_MESSAGE}"@[5] == 'M');
    assert("{GIT_AUTHOR}"@.len() == 12);
    assert("{GIT_AUTHOR}"@[1] == 'G');
    assert("{GIT_AUTHOR}"@[5] == 'A');
    assert("{GIT_AUTHOR_EMAIL}"@.len() == 18);
    assert("{GIT_AUTHOR_EMAIL}"@[1] == 'G');
    assert("{GIT_AUTHOR_EMAIL}"@[5] == 'A');
    assert("{GIT_TAGS}"@.len() == 10);
    assert("{GIT_TAGS}"@[1] == 'G');
    assert("{GIT_TAGS}"@[5] == 'T');
    assert("{GIT_REMOTE}"@.len() == 12);
    assert("{GIT_REMOTE}"@[1] == 'G');
    assert("{GIT_REMOTE}"@[5] == 'R');
    assert("{GIT_COMMIT_COUNT}"@.len() == 18);
    assert("{GIT_COMMIT_COUNT}"@[1] == 'G');
    assert("{GIT_COMMIT_COUNT}"@[5] == 'C');
    assert("{HOST}"@.len() == 6);
    assert("{HOST}"@[1] == 'H');
    assert("{HOST}"@[5] == '}');
    assert("{OS}"@.len() == 4);
    assert("{OS}"@[1] == 'O');
    assert("{OS_VERSION}"@.len() == 12);
    assert("{OS_VERSION}"@[1] == 'O');
    assert("{OS_VERSION}"@[5] == 'E');
    assert("{OS_LONG}"@.len() == 9);
    assert("{OS_LONG}"@[1] == 'O');
    assert("{OS_LONG}"@[5] == 'O');
    assert("{CPU_ARCH}"@.len() == 10);
    assert("{CPU_ARCH}"@[1] == 'C');
    assert("{CPU_ARCH}"@[5] == 'A');
    assert("{CPU_COUNT}"@.len() == 11);
    assert("{CPU_COUNT}"@[1] == 'C');
    assert("{CPU_COUNT}"@[5] == 'C');
    assert("{MEMORY}"@.len() == 8);
    assert("{MEMORY}"@[1] == 'M');
    assert("{MEMORY}"@[5] == 'R');
    lemma_catalog_tokens_are_braced(p);
    lemma_brace_tokens_agree(s, i, catalog_pairs(p)[j].0, catalog_pairs(p)[k].0);
    lemma_catalog_entry_cases(p, j);
    lemma_catalog_entry_cases(p, k);
}

} // verus!
