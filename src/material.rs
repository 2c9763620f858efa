use vstd::prelude::*;
use crate::environment::{Environment, anchor_label, environment_of, environment_order, root_count};

verus! {

/// What is known of the material supplied for one environment.
pub struct BundleModel {
    pub roots: Seq<Seq<u8>>,
    pub ca_cbor: Seq<u8>,
}

/// The trust anchors and the CA certificate bundle of one environment.
struct Bundle {
    roots: Vec<Vec<u8>>,
    ca_cbor: Vec<u8>,
}

impl Bundle {
    spec fn model(&self) -> BundleModel {
        BundleModel { roots: self.roots.deep_view(), ca_cbor: self.ca_cbor@ }
    }
}

/// The trust material available to this program: for each environment that
/// is enabled, the DER bytes of its trust anchors and the CBOR bundle of its
/// CA certificates. An environment without material is not enabled.
pub struct TrustMaterial {
    dev: Option<Bundle>,
    om_nipr: Option<Bundle>,
    om_sipr: Option<Bundle>,
    nipr: Option<Bundle>,
    sipr: Option<Bundle>,
}

spec fn anchors_fit(b: Option<Bundle>, e: Environment) -> bool {
    b is Some ==> b->0.roots@.len() == root_count(e)
}

spec fn model_of(b: Option<Bundle>) -> Option<BundleModel> {
    match b {
        Some(b) => Some(b.model()),
        None => None,
    }
}

impl TrustMaterial {
    /// The material supplied for `e`, or `None` where `e` is not enabled.
    pub closed spec fn supplied(&self, e: Environment) -> Option<BundleModel> {
        match e {
            Environment::Dev => model_of(self.dev),
            Environment::OmNipr => model_of(self.om_nipr),
            Environment::OmSipr => model_of(self.om_sipr),
            Environment::Nipr => model_of(self.nipr),
            Environment::Sipr => model_of(self.sipr),
        }
    }

    /// Each enabled environment has exactly as many trust anchors as it is known to have.
    pub open spec fn wf(&self) -> bool {
        forall|e: Environment|
            #[trigger] self.supplied(e) is Some ==> self.supplied(e)->0.roots.len() == root_count(e)
    }

    #[verifier::type_invariant]
    spec fn inv(&self) -> bool {
        &&& anchors_fit(self.dev, Environment::Dev)
        &&& anchors_fit(self.om_nipr, Environment::OmNipr)
        &&& anchors_fit(self.om_sipr, Environment::OmSipr)
        &&& anchors_fit(self.nipr, Environment::Nipr)
        &&& anchors_fit(self.sipr, Environment::Sipr)
    }

    proof fn lemma_inv_wf(&self)
        requires
            self.inv(),
        ensures
            self.wf(),
    {
        assert forall|e: Environment| #[trigger] self.supplied(e) is Some implies self.supplied(
            e,
        )->0.roots.len() == root_count(e) by {
            match e {
                Environment::Dev => assert(self.dev->0.model().roots.len() == self.dev->0.roots@.len()),
                Environment::OmNipr => assert(self.om_nipr->0.model().roots.len() == self.om_nipr->0.roots@.len()),
                Environment::OmSipr => assert(self.om_sipr->0.model().roots.len() == self.om_sipr->0.roots@.len()),
                Environment::Nipr => assert(self.nipr->0.model().roots.len() == self.nipr->0.roots@.len()),
                Environment::Sipr => assert(self.sipr->0.model().roots.len() == self.sipr->0.roots@.len()),
            }
        }
    }

    /// Material with no environment enabled.
    pub fn new() -> (r: TrustMaterial)
        ensures
            r.wf(),
            forall|e: Environment| #[trigger] r.supplied(e) is None,
    {
        TrustMaterial { dev: None, om_nipr: None, om_sipr: None, nipr: None, sipr: None }
    }

    /// Enables `e` with the given trust anchors and CA bundle. Refused, leaving
    /// the material as it was, unless `roots` holds exactly as many anchors as
    /// `e` has.
    pub fn supply(&mut self, e: Environment, roots: Vec<Vec<u8>>, ca_cbor: Vec<u8>) -> (ok: bool)
        ensures
            ok == (roots@.len() == root_count(e)),
            ok ==> final(self).supplied(e) == Some(
                BundleModel { roots: roots.deep_view(), ca_cbor: ca_cbor@ },
            ),
            !ok ==> final(self).supplied(e) == old(self).supplied(e),
            forall|f: Environment| f != e ==> #[trigger] final(self).supplied(f) == old(self).supplied(f),
    {
        proof {
            use_type_invariant(&*self);
        }
        if roots.len() != e.root_count() {
            return false;
        }
        let b = Some(Bundle { roots, ca_cbor });
        match e {
            Environment::Dev => self.dev = b,
            Environment::OmNipr => self.om_nipr = b,
            Environment::OmSipr => self.om_sipr = b,
            Environment::Nipr => self.nipr = b,
            Environment::Sipr => self.sipr = b,
        }
        true
    }

    /// Whether `e` is enabled.
    pub fn is_enabled(&self, e: Environment) -> (r: bool)
        ensures
            r == self.supplied(e) is Some,
    {
        self.bundle(e).is_some()
    }

    fn bundle(&self, e: Environment) -> (r: &Option<Bundle>)
        ensures
            model_of(*r) == self.supplied(e),
    {
        match e {
            Environment::Dev => &self.dev,
            Environment::OmNipr => &self.om_nipr,
            Environment::OmSipr => &self.om_sipr,
            Environment::Nipr => &self.nipr,
            Environment::Sipr => &self.sipr,
        }
    }
}

/// The roots that the environments of `order` contribute, in that order.
pub open spec fn roots_in(m: TrustMaterial, order: Seq<Environment>) -> Seq<Seq<u8>>
    decreases order.len(),
{
    if order.len() == 0 {
        seq![]
    } else {
        roots_in(m, order.drop_last()) + match m.supplied(order.last()) {
            Some(b) => b.roots,
            None => seq![],
        }
    }
}

/// All roots of the enabled environments, environment by environment.
pub open spec fn enabled_roots(m: TrustMaterial) -> Seq<Seq<u8>> {
    roots_in(m, environment_order())
}

/// How many roots the environments of `order` that are enabled have in all.
pub open spec fn root_total_in(m: TrustMaterial, order: Seq<Environment>) -> nat
    decreases order.len(),
{
    if order.len() == 0 {
        0
    } else {
        root_total_in(m, order.drop_last()) + if m.supplied(order.last()) is Some {
            root_count(order.last())
        } else {
            0
        }
    }
}

proof fn lemma_roots_in_len(m: TrustMaterial, order: Seq<Environment>)
    requires
        m.wf(),
    ensures
        roots_in(m, order).len() == root_total_in(m, order),
    decreases order.len(),
{
    if order.len() > 0 {
        lemma_roots_in_len(m, order.drop_last());
    }
}

/// The number of roots of well-formed material is the sum of the anchor
/// counts of its enabled environments: 2 for `Dev`, 3 for each other one.
pub proof fn lemma_enabled_root_count(m: TrustMaterial)
    requires
        m.wf(),
    ensures
        enabled_roots(m).len() == root_total_in(m, environment_order()),
{
    lemma_roots_in_len(m, environment_order());
}

/// Appends a copy of each vector of `src` to `out`.
fn append_copies(out: &mut Vec<Vec<u8>>, src: &Vec<Vec<u8>>)
    ensures
        final(out).deep_view() == old(out).deep_view() + src.deep_view(),
{
    let ghost start = out.deep_view();
    let mut j: usize = 0;
    while j < src.len()
        invariant
            j <= src@.len(),
            out.deep_view() == start + src.deep_view().take(j as int),
        decreases src@.len() - j,
    {
        let c = src[j].clone();
        let ghost before = out.deep_view();
        assert(c.deep_view() =~= src@[j as int].deep_view());
        out.push(c);
        assert(out.deep_view() =~= before.push(c.deep_view()));
        assert(src.deep_view().take(j + 1) =~= src.deep_view().take(j as int).push(c.deep_view()));
        assert(out.deep_view() =~= start + src.deep_view().take(j + 1));
        j = j + 1;
    }
    assert(src.deep_view().take(j as int) =~= src.deep_view());
}

/// Returns the DER bytes of every trust anchor of the enabled environments:
/// those of `Dev`, then `OmNipr`, `OmSipr`, `Nipr` and `Sipr`, each
/// environment's in its own order. The bytes are not parsed.
pub fn get_roots(material: &TrustMaterial) -> (r: Vec<Vec<u8>>)
    ensures
        r.deep_view() == enabled_roots(*material),
{
    let order = Environment::all();
    let mut r: Vec<Vec<u8>> = Vec::new();
    let mut i: usize = 0;
    assert(r.deep_view() =~= seq![]);
    while i < order.len()
        invariant
            order@ == environment_order(),
            i <= order@.len(),
            r.deep_view() == roots_in(*material, order@.take(i as int)),
        decreases order@.len() - i,
    {
        let e = order[i];
        assert(order@.take(i + 1).drop_last() =~= order@.take(i as int));
        match material.bundle(e) {
            Some(b) => append_copies(&mut r, &b.roots),
            None => {
                assert(r.deep_view() =~= r.deep_view() + seq![]);
            },
        }
        i = i + 1;
    }
    assert(order@.take(i as int) =~= order@);
    r
}

/// A trust anchor as it is handed to the path validation library: a name
/// and the certificate's DER bytes.
pub struct AnchorFile {
    pub filename: String,
    pub bytes: Vec<u8>,
}

/// What registering an environment with the path validation library takes:
/// its trust anchors, in order, and the CBOR bundle of its CA certificates.
pub struct CertvalPlan {
    pub anchors: Vec<AnchorFile>,
    pub ca_cbor: Vec<u8>,
}

/// Why an environment could not be prepared.
#[derive(Clone, Copy, Debug, PartialEq, Eq, Structural)]
pub enum PrepareError {
    /// The selector names no environment that is enabled.
    Unrecognized,
}

/// `p` registers the material `b` of environment `e`.
pub open spec fn plan_matches(p: CertvalPlan, e: Environment, b: BundleModel) -> bool {
    &&& p.anchors@.len() == b.roots.len()
    &&& forall|i: int|
        0 <= i < p.anchors@.len() ==> (#[trigger] p.anchors@[i]).filename@ == anchor_label(e, i)
            && p.anchors@[i].bytes@ == b.roots[i]
    &&& p.ca_cbor@ == b.ca_cbor
}

/// The environment that selector `s` picks: one that it names and that is enabled.
pub open spec fn selected(m: TrustMaterial, s: Seq<char>) -> Option<Environment> {
    match environment_of(s) {
        Some(e) => if m.supplied(e) is Some {
            Some(e)
        } else {
            None
        },
        None => None,
    }
}

/// Works out what registering the environment that `env` names takes: each
/// of its trust anchors under its own file name, and its CA bundle. Fails
/// with `Unrecognized` where `env` names no enabled environment.
pub fn plan_certval_environment(material: &TrustMaterial, env: &str) -> (r: Result<
    CertvalPlan,
    PrepareError,
>)
    ensures
        match selected(*material, env@) {
            Some(e) => r is Ok && plan_matches(r->Ok_0, e, material.supplied(e)->0),
            None => r == Err::<CertvalPlan, PrepareError>(PrepareError::Unrecognized),
        },
{
    proof {
        use_type_invariant(material);
        material.lemma_inv_wf();
    }
    let e = match Environment::from_selector(env) {
        Some(e) => e,
        None => return Err(PrepareError::Unrecognized),
    };
    let b = match material.bundle(e) {
        Some(b) => b,
        None => return Err(PrepareError::Unrecognized),
    };
    assert(b.roots@.len() == b.model().roots.len());
    let mut anchors: Vec<AnchorFile> = Vec::new();
    let mut i: usize = 0;
    while i < b.roots.len()
        invariant
            b.roots@.len() == root_count(e),
            i <= b.roots@.len(),
            anchors@.len() == i,
            forall|k: int|
                0 <= k < i ==> (#[trigger] anchors@[k]).filename@ == anchor_label(e, k)
                    && anchors@[k].bytes@ == b.model().roots[k],
        decreases b.roots@.len() - i,
    {
        let bytes = b.roots[i].clone();
        assert(bytes@ =~= b.model().roots[i as int]);
        let label = e.anchor_label(i);
        let filename = label.to_owned();
        assert(filename@ == anchor_label(e, i as int));
        let ghost before = anchors@;
        anchors.push(AnchorFile { filename, bytes });
        assert forall|k: int| 0 <= k < i + 1 implies (#[trigger] anchors@[k]).filename@ == anchor_label(
            e,
            k,
        ) && anchors@[k].bytes@ == b.model().roots[k] by {
            if k < i {
                assert(anchors@[k] == before[k]);
            }
        }
        i = i + 1;
    }
    let ca_cbor = b.ca_cbor.clone();
    Ok(CertvalPlan { anchors, ca_cbor })
}

} // verus!
