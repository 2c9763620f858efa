use vstd::prelude::*;
use vstd::string::*;

verus! {

/// The PKI environments that trust material can be supplied for.
#[derive(Clone, Copy, Debug, PartialEq, Eq, Structural)]
pub enum Environment {
    Dev,
    OmNipr,
    OmSipr,
    Nipr,
    Sipr,
}

/// The order in which environments contribute their roots.
pub open spec fn environment_order() -> Seq<Environment> {
    seq![Environment::Dev, Environment::OmNipr, Environment::OmSipr, Environment::Nipr, Environment::Sipr]
}

/// The selector string that names an environment.
pub open spec fn selector_of(e: Environment) -> Seq<char> {
    match e {
        Environment::Dev => "DEV"@,
        Environment::OmNipr => "OM_NIPR"@,
        Environment::OmSipr => "OM_SIPR"@,
        Environment::Nipr => "NIPR"@,
        Environment::Sipr => "SIPR"@,
    }
}

/// The environment a selector string names, if any.
pub open spec fn environment_of(s: Seq<char>) -> Option<Environment> {
    if s == "DEV"@ {
        Some(Environment::Dev)
    } else if s == "OM_NIPR"@ {
        Some(Environment::OmNipr)
    } else if s == "OM_SIPR"@ {
        Some(Environment::OmSipr)
    } else if s == "NIPR"@ {
        Some(Environment::Nipr)
    } else if s == "SIPR"@ {
        Some(Environment::Sipr)
    } else {
        None
    }
}

/// How many trust anchors an environment has.
pub open spec fn root_count(e: Environment) -> nat {
    match e {
        Environment::Dev => 2,
        _ => 3,
    }
}

/// The file name under which a trust anchor of an environment is registered.
pub open spec fn anchor_label(e: Environment, i: int) -> Seq<char> {
    match e {
        Environment::Dev => "dev root"@,
        Environment::OmNipr => if i == 0 {
            "om nipr root 3"@
        } else if i == 1 {
            "om nipr root 5"@
        } else {
            "om nipr root 6"@
        },
        Environment::OmSipr => if i == 0 {
            "om sipr root 1"@
        } else if i == 1 {
            "om sipr root 2"@
        } else {
            "om sipr root 4"@
        },
        Environment::Nipr => if i == 0 {
            "nipr root 3"@
        } else if i == 1 {
            "nipr root 5"@
        } else {
            "nipr root 6"@
        },
        Environment::Sipr => if i == 0 {
            "sipr root 1"@
        } else if i == 1 {
            "sipr root 2"@
        } else {
            "sipr root 4"@
        },
    }
}

/// Where the DER file of a trust anchor lies, relative to the package.
pub open spec fn root_file(e: Environment, i: int) -> Seq<char> {
    match e {
        Environment::Dev => if i == 0 {
            "roots/NIPR/dev/DOD_ENG_Root-3.der"@
        } else {
            "roots/NIPR/dev/DOD_ENG_Root-6.der"@
        },
        Environment::OmNipr => if i == 0 {
            "roots/NIPR/om/DOD_JITC_Root_CA-3.der"@
        } else if i == 1 {
            "roots/NIPR/om/DOD_JITC_Root_CA-5.der"@
        } else {
            "roots/NIPR/om/DOD_JITC_Root_CA-6.der"@
        },
        Environment::OmSipr => if i == 0 {
            "roots/SIPR/om/NSS_JITC_Root_CA-1.der"@
        } else if i == 1 {
            "roots/SIPR/om/NSS_JITC_Root_CA-2.der"@
        } else {
            "roots/SIPR/om/NSS_JITC_Root_CA-4.der"@
        },
        Environment::Nipr => if i == 0 {
            "roots/NIPR/prod/DOD_Root_CA-3.der"@
        } else if i == 1 {
            "roots/NIPR/prod/DOD_Root_CA-5.der"@
        } else {
            "roots/NIPR/prod/DOD_Root_CA-6.der"@
        },
        Environment::Sipr => if i == 0 {
            "roots/SIPR/prod/NSS_Root_CA-1.der"@
        } else if i == 1 {
            "roots/SIPR/prod/NSS_Root_CA-2.der"@
        } else {
            "roots/SIPR/prod/NSS_Root_CA-4.der"@
        },
    }
}

/// Where the CBOR bundle of an environment's CA certificates lies, relative to the package.
pub open spec fn ca_bundle_file(e: Environment) -> Seq<char> {
    match e {
        Environment::Dev => "cas/NIPR/dev/dev.cbor"@,
        Environment::OmNipr => "cas/NIPR/om/om.cbor"@,
        Environment::OmSipr => "cas/SIPR/om/om.cbor"@,
        Environment::Nipr => "cas/NIPR/prod/prod.cbor"@,
        Environment::Sipr => "cas/SIPR/prod/prod.cbor"@,
    }
}

/// Character-wise equality of two strings.
fn same_text(a: &str, b: &str) -> (r: bool)
    ensures
        r == (a@ == b@),
{
    let n = a.unicode_len();
    if n != b.unicode_len() {
        return false;
    }
    let mut i: usize = 0;
    while i < n
        invariant
            n == a@.len(),
            n == b@.len(),
            i <= n,
            forall|j: int| 0 <= j < i ==> a@[j] == b@[j],
        decreases n - i,
    {
        if a.get_char(i) != b.get_char(i) {
            return false;
        }
        i = i + 1;
    }
    assert(a@ =~= b@);
    true
}

impl Environment {
    /// All environments, in the order in which they contribute their roots.
    pub fn all() -> (r: Vec<Environment>)
        ensures
            r@ == environment_order(),
    {
        let r = vec![Environment::Dev, Environment::OmNipr, Environment::OmSipr, Environment::Nipr, Environment::Sipr];
        assert(r@ =~= environment_order());
        r
    }

    /// Parses a selector string (`"DEV"`, `"OM_NIPR"`, `"OM_SIPR"`, `"NIPR"`, `"SIPR"`).
    pub fn from_selector(s: &str) -> (r: Option<Environment>)
        ensures
            r == environment_of(s@),
    {
        if same_text(s, "DEV") {
            Some(Environment::Dev)
        } else if same_text(s, "OM_NIPR") {
            Some(Environment::OmNipr)
        } else if same_text(s, "OM_SIPR") {
            Some(Environment::OmSipr)
        } else if same_text(s, "NIPR") {
            Some(Environment::Nipr)
        } else if same_text(s, "SIPR") {
            Some(Environment::Sipr)
        } else {
            None
        }
    }

    /// The selector string that names this environment.
    pub fn selector(&self) -> (r: &'static str)
        ensures
            r@ == selector_of(*self),
    {
        match self {
            Environment::Dev => "DEV",
            Environment::OmNipr => "OM_NIPR",
            Environment::OmSipr => "OM_SIPR",
            Environment::Nipr => "NIPR",
            Environment::Sipr => "SIPR",
        }
    }

    /// How many trust anchors this environment has.
    pub fn root_count(&self) -> (r: usize)
        ensures
            r == root_count(*self),
    {
        match self {
            Environment::Dev => 2,
            _ => 3,
        }
    }

    /// The file name under which trust anchor `i` of this environment is registered.
    pub fn anchor_label(&self, i: usize) -> (r: &'static str)
        requires
            i < root_count(*self),
        ensures
            r@ == anchor_label(*self, i as int),
    {
        match self {
            Environment::Dev => "dev root",
            Environment::OmNipr => if i == 0 {
                "om nipr root 3"
            } else if i == 1 {
                "om nipr root 5"
            } else {
                "om nipr root 6"
            },
            Environment::OmSipr => if i == 0 {
                "om sipr root 1"
            } else if i == 1 {
                "om sipr root 2"
            } else {
                "om sipr root 4"
            },
            Environment::Nipr => if i == 0 {
                "nipr root 3"
            } else if i == 1 {
                "nipr root 5"
            } else {
                "nipr root 6"
            },
            Environment::Sipr => if i == 0 {
                "sipr root 1"
            } else if i == 1 {
                "sipr root 2"
            } else {
                "sipr root 4"
            },
        }
    }

    /// Where the DER file of trust anchor `i` of this environment lies.
    pub fn root_file(&self, i: usize) -> (r: &'static str)
        requires
            i < root_count(*self),
        ensures
            r@ == root_file(*self, i as int),
    {
        match self {
            Environment::Dev => if i == 0 {
                "roots/NIPR/dev/DOD_ENG_Root-3.der"
            } else {
                "roots/NIPR/dev/DOD_ENG_Root-6.der"
            },
            Environment::OmNipr => if i == 0 {
                "roots/NIPR/om/DOD_JITC_Root_CA-3.der"
            } else if i == 1 {
                "roots/NIPR/om/DOD_JITC_Root_CA-5.der"
            } else {
                "roots/NIPR/om/DOD_JITC_Root_CA-6.der"
            },
            Environment::OmSipr => if i == 0 {
                "roots/SIPR/om/NSS_JITC_Root_CA-1.der"
            } else if i == 1 {
                "roots/SIPR/om/NSS_JITC_Root_CA-2.der"
            } else {
                "roots/SIPR/om/NSS_JITC_Root_CA-4.der"
            },
            Environment::Nipr => if i == 0 {
                "roots/NIPR/prod/DOD_Root_CA-3.der"
            } else if i == 1 {
                "roots/NIPR/prod/DOD_Root_CA-5.der"
            } else {
                "roots/NIPR/prod/DOD_Root_CA-6.der"
            },
            Environment::Sipr => if i == 0 {
                "roots/SIPR/prod/NSS_Root_CA-1.der"
            } else if i == 1 {
                "roots/SIPR/prod/NSS_Root_CA-2.der"
            } else {
                "roots/SIPR/prod/NSS_Root_CA-4.der"
            },
        }
    }

    /// Where the CBOR bundle of this environment's CA certificates lies.
    pub fn ca_bundle_file(&self) -> (r: &'static str)
        ensures
            r@ == ca_bundle_file(*self),
    {
        match self {
            Environment::Dev => "cas/NIPR/dev/dev.cbor",
            Environment::OmNipr => "cas/NIPR/om/om.cbor",
            Environment::OmSipr => "cas/SIPR/om/om.cbor",
            Environment::Nipr => "cas/NIPR/prod/prod.cbor",
            Environment::Sipr => "cas/SIPR/prod/prod.cbor",
        }
    }
}

/// The selector of every environment parses back to that environment.
pub proof fn lemma_selector_round_trip(e: Environment)
    ensures
        environment_of(selector_of(e)) == Some(e),
{
    reveal_strlit("DEV");
    reveal_strlit("OM_NIPR");
    reveal_strlit("OM_SIPR");
    reveal_strlit("NIPR");
    reveal_strlit("SIPR");
    assert("DEV"@.len() == 3);
    assert("NIPR"@.len() == 4 && "SIPR"@.len() == 4);
    assert("OM_NIPR"@.len() == 7 && "OM_SIPR"@.len() == 7);
    assert("NIPR"@[0] != "SIPR"@[0]);
    assert("OM_NIPR"@[3] != "OM_SIPR"@[3]);
}

} // verus!
