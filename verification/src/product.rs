//! The hierarchical product identifier: a dotted base name plus an ordered
//! list of extension segments, a fallback version string, and an optional
//! build-provenance record.

use vstd::prelude::*;

verus! {

/// Build-host metadata attached to a build-provenance record.
#[derive(Debug)]
pub struct BuildAgent {
    pub hostname: String,
    pub os_name: String,
    pub os_version: String,
    pub os_long_version: String,
    pub cpu_arch: String,
    pub cpu_count: u64,
    pub total_memory: String,
}

/// Mathematical model of a [`BuildAgent`].
pub struct BuildAgentModel {
    pub hostname: Seq<char>,
    pub os_name: Seq<char>,
    pub os_version: Seq<char>,
    pub os_long_version: Seq<char>,
    pub cpu_arch: Seq<char>,
    pub cpu_count: u64,
    pub total_memory: Seq<char>,
}

impl View for BuildAgent {
    type V = BuildAgentModel;

    open spec fn view(&self) -> BuildAgentModel {
        BuildAgentModel {
            hostname: self.hostname@,
            os_name: self.os_name@,
            os_version: self.os_version@,
            os_long_version: self.os_long_version@,
            cpu_arch: self.cpu_arch@,
            cpu_count: self.cpu_count,
            total_memory: self.total_memory@,
        }
    }
}

impl DeepView for BuildAgent {
    type V = BuildAgentModel;

    open spec fn deep_view(&self) -> BuildAgentModel {
        self.view()
    }
}

/// Version-control and build-host metadata recorded at build time.
/// Every field that the build environment may fail to supply is optional;
/// rendering degrades to the empty string for absent data.
#[derive(Debug)]
pub struct BuildProvenance {
    pub version: Option<String>,
    pub branch: Option<String>,
    pub commit_short: String,
    pub commit_long: String,
    pub dirty: bool,
    pub message: Option<String>,
    pub author_name: Option<String>,
    pub author_email: Option<String>,
    pub tags: Vec<String>,
    pub remote_url: Option<String>,
    pub commit_count: Option<u64>,
    pub agent: BuildAgent,
}

/// Mathematical model of a [`BuildProvenance`].
pub struct BuildProvenanceModel {
    pub version: Option<Seq<char>>,
    pub branch: Option<Seq<char>>,
    pub commit_short: Seq<char>,
    pub commit_long: Seq<char>,
    pub dirty: bool,
    pub message: Option<Seq<char>>,
    pub author_name: Option<Seq<char>>,
    pub author_email: Option<Seq<char>>,
    pub tags: Seq<Seq<char>>,
    pub remote_url: Option<Seq<char>>,
    pub commit_count: Option<u64>,
    pub agent: BuildAgentModel,
}

impl View for BuildProvenance {
    type V = BuildProvenanceModel;

    open spec fn view(&self) -> BuildProvenanceModel {
        BuildProvenanceModel {
            version: self.version.deep_view(),
            branch: self.branch.deep_view(),
            commit_short: self.commit_short@,
            commit_long: self.commit_long@,
            dirty: self.dirty,
            message: self.message.deep_view(),
            author_name: self.author_name.deep_view(),
            author_email: self.author_email.deep_view(),
            tags: self.tags.deep_view(),
            remote_url: self.remote_url.deep_view(),
            commit_count: self.commit_count,
            agent: self.agent@,
        }
    }
}

impl DeepView for BuildProvenance {
    type V = BuildProvenanceModel;

    open spec fn deep_view(&self) -> BuildProvenanceModel {
        self.view()
    }
}

/// A hierarchical product identifier: a required base segment (reverse-DNS
/// style), zero or more extension segments in append order, a fallback
/// version string, and an optional build-provenance record.
#[derive(Debug)]
pub struct ProductName {
    pub base: String,
    pub ext: Vec<String>,
    pub version: String,
    pub build: Option<BuildProvenance>,
}

impl DeepView for ProductName {
    type V = ProductNameModel;

    open spec fn deep_view(&self) -> ProductNameModel {
        self.view()
    }
}

/// Mathematical model of a [`ProductName`].
pub struct ProductNameModel {
    pub base: Seq<char>,
    pub ext: Seq<Seq<char>>,
    pub version: Seq<char>,
    pub build: Option<BuildProvenanceModel>,
}

impl View for ProductName {
    type V = ProductNameModel;

    open spec fn view(&self) -> ProductNameModel {
        ProductNameModel {
            base: self.base@,
            ext: self.ext.deep_view(),
            version: self.version@,
            build: self.build.deep_view(),
        }
    }
}

/// A clone of a `String` is the same string.
proof fn lemma_cloned_string(a: String, b: String)
    requires
        cloned::<String>(a, b),
    ensures
        b@ == a@,
{
}

/// A clone of an `Option<String>` carries the same character data.
proof fn lemma_cloned_opt_string(a: Option<String>, b: Option<String>)
    requires
        a is Some <==> b is Some,
        a is Some ==> cloned::<String>(a->0, b->0),
    ensures
        b.deep_view() == a.deep_view(),
{
    if a is Some {
        lemma_cloned_string(a->0, b->0);
    }
}

/// Clones an optional string, preserving its character data.
fn clone_opt_string(a: &Option<String>) -> (r: Option<String>)
    ensures
        r.deep_view() == a.deep_view(),
{
    let r = a.clone();
    proof {
        lemma_cloned_opt_string(*a, r);
    }
    r
}

/// Clones a vector of strings, preserving its character data.
fn clone_string_vec(a: &Vec<String>) -> (r: Vec<String>)
    ensures
        r.deep_view() == a.deep_view(),
{
    let r = a.clone();
    proof {
        assert forall|i: int| 0 <= i < a@.len() implies r.deep_view()[i] == a.deep_view()[i] by {
            lemma_cloned_string(a@[i], r@[i]);
        }
        assert(r.deep_view() =~= a.deep_view());
    }
    r
}

impl Clone for BuildAgent {
    /// A copy whose model equals the receiver's.
    fn clone(&self) -> (r: Self)
        ensures
            r@ == self@,
    {
        BuildAgent {
            hostname: self.hostname.clone(),
            os_name: self.os_name.clone(),
            os_version: self.os_version.clone(),
            os_long_version: self.os_long_version.clone(),
            cpu_arch: self.cpu_arch.clone(),
            cpu_count: self.cpu_count,
            total_memory: self.total_memory.clone(),
        }
    }
}

impl Clone for BuildProvenance {
    /// A copy whose model equals the receiver's.
    fn clone(&self) -> (r: Self)
        ensures
            r@ == self@,
    {
        BuildProvenance {
            version: clone_opt_string(&self.version),
            branch: clone_opt_string(&self.branch),
            commit_short: self.commit_short.clone(),
            commit_long: self.commit_long.clone(),
            dirty: self.dirty,
            message: clone_opt_string(&self.message),
            author_name: clone_opt_string(&self.author_name),
            author_email: clone_opt_string(&self.author_email),
            tags: clone_string_vec(&self.tags),
            remote_url: clone_opt_string(&self.remote_url),
            commit_count: self.commit_count,
            agent: self.agent.clone(),
        }
    }
}

/// Clones an optional build-provenance record, preserving its model.
fn clone_opt_build(a: &Option<BuildProvenance>) -> (r: Option<BuildProvenance>)
    ensures
        r.deep_view() == a.deep_view(),
{
    match a {
        Some(b) => Some(b.clone()),
        None => None,
    }
}

impl Clone for ProductName {
    /// A copy whose model equals the receiver's.
    fn clone(&self) -> (r: Self)
        ensures
            r@ == self@,
    {
        ProductName {
            base: self.base.clone(),
            ext: clone_string_vec(&self.ext),
            version: self.version.clone(),
            build: clone_opt_build(&self.build),
        }
    }
}

/// The extension segments, each prefixed with a dot, concatenated in append
/// order: the part of the rendered name that follows the base.
pub open spec fn dot_joined(ext: Seq<Seq<char>>) -> Seq<char>
    decreases ext.len(),
{
    if ext.len() == 0 {
        Seq::empty()
    } else {
        dot_joined(ext.drop_last()) + seq!['.'] + ext.last()
    }
}

/// The rendered name of an identifier: the base, then each extension
/// prefixed with a dot, in append order.
pub open spec fn spec_render_name(p: ProductNameModel) -> Seq<char> {
    p.base + dot_joined(p.ext)
}

/// The version an identifier resolves to: the build record's version when a
/// record is present and supplies one, else the identifier's own fallback.
pub open spec fn spec_resolved_version(p: ProductNameModel) -> Seq<char> {
    match p.build {
        Some(b) => match b.version {
            Some(v) => v,
            None => p.version,
        },
        None => p.version,
    }
}

/// The model of the identifier that `with` returns: one more extension
/// segment at the end, everything else unchanged.
pub open spec fn spec_with(p: ProductNameModel, ext: Seq<char>) -> ProductNameModel {
    ProductNameModel { ext: p.ext.push(ext), ..p }
}

/// Extending an identifier extends its rendered name by a dot and the new
/// segment: for any base and any extensions taken in append order, the
/// rendered name is the base followed by each extension prefixed with a dot.
pub proof fn lemma_render_name_appends(p: ProductNameModel, ext: Seq<char>)
    ensures
        spec_render_name(spec_with(p, ext)) == spec_render_name(p) + seq!['.'] + ext,
{
    assert(p.ext.push(ext).drop_last() =~= p.ext);
    assert(spec_render_name(spec_with(p, ext)) =~= spec_render_name(p) + seq!['.'] + ext);
}

/// Deriving never touches the receiver: two identifiers derived from the
/// same receiver each hold the receiver's segments plus their own new one,
/// share everything else, and differ from one another whenever the new
/// segments differ.
pub proof fn lemma_with_independent(p: ProductNameModel, e1: Seq<char>, e2: Seq<char>)
    ensures
        spec_with(p, e1).base == p.base,
        spec_with(p, e1).version == p.version,
        spec_with(p, e1).build == p.build,
        spec_with(p, e1).ext == p.ext.push(e1),
        spec_with(p, e2).ext == p.ext.push(e2),
        e1 != e2 ==> spec_with(p, e1).ext != spec_with(p, e2).ext,
{
    assert(p.ext.push(e1)[p.ext.len() as int] == e1);
    assert(p.ext.push(e2)[p.ext.len() as int] == e2);
}

impl ProductName {
    /// A fresh identifier with the given base segment, fallback version, and
    /// optional build-provenance record; the extension list starts empty.
    pub fn new(base: &str, version: &str, build: Option<BuildProvenance>) -> (r: ProductName)
        ensures
            r@.base == base@,
            r@.ext == Seq::<Seq<char>>::empty(),
            r@.version == version@,
            r@.build == build.deep_view(),
    {
        let r = ProductName {
            base: base.to_owned(),
            ext: Vec::new(),
            version: version.to_owned(),
            build,
        };
        proof {
            assert(r@.ext =~= Seq::<Seq<char>>::empty());
        }
        r
    }

    /// A new identifier equal to the receiver plus one more extension
    /// segment; the receiver itself is never changed.
    pub fn with(&self, ext: &str) -> (r: ProductName)
        ensures
            r@ == spec_with(self@, ext@),
    {
        let mut e = clone_string_vec(&self.ext);
        e.push(ext.to_owned());
        let r = ProductName {
            base: self.base.clone(),
            ext: e,
            version: self.version.clone(),
            build: clone_opt_build(&self.build),
        };
        proof {
            assert(r@.ext =~= self@.ext.push(ext@));
        }
        r
    }

    /// The rendered name: the base, then each extension prefixed with a dot,
    /// in append order. Deterministic; used both as the on-disk namespace
    /// segment and as the name placeholder in descriptor templates.
    pub fn render_name(&self) -> (r: String)
        ensures
            r@ == spec_render_name(self@),
    {
        let mut r = self.base.clone();
        proof {
            assert(self@.ext.subrange(0, 0) =~= Seq::<Seq<char>>::empty());
            assert(r@ =~= self@.base + dot_joined(self@.ext.subrange(0, 0)));
        }
        let n = self.ext.len();
        let mut i: usize = 0;
        while i < n
            invariant
                i <= n,
                n == self.ext.len(),
                r@ == self@.base + dot_joined(self@.ext.subrange(0, i as int)),
            decreases n - i,
        {
            r.append(".");
            r.append(self.ext[i].as_str());
            proof {
                reveal_strlit(".");
                let head = self@.ext.subrange(0, i as int);
                let grown = self@.ext.subrange(0, i + 1);
                assert(grown.drop_last() =~= head);
                assert("."@ =~= seq!['.']);
                assert(r@ =~= self@.base + dot_joined(grown));
            }
            i = i + 1;
        }
        proof {
            assert(self@.ext.subrange(0, n as int) =~= self@.ext);
        }
        r
    }

    /// The version this identifier resolves to: the build record's version
    /// when one is present and supplies it, else the fallback version field.
    pub fn resolved_version(&self) -> (r: String)
        ensures
            r@ == spec_resolved_version(self@),
    {
        match &self.build {
            Some(b) => match &b.version {
                Some(v) => v.clone(),
                None => self.version.clone(),
            },
            None => self.version.clone(),
        }
    }
}

} // verus!
