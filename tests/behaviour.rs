use pb_pki::{
    configured_builder, trust_roots, get_reqwest_client_native, get_reqwest_client_rustls, get_roots, plan_certval_environment,
    Environment, PrepareError, TrustMaterial,
};

/// The DER encoding of the ISRG Root X2 certificate.
const ISRG_ROOT_X2: [u8; 543] = [
    0x30, 0x82, 0x02, 0x1b, 0x30, 0x82, 0x01, 0xa1, 0xa0, 0x03, 0x02, 0x01, 0x02, 0x02, 0x10, 0x41,
    0xd2, 0x9d, 0xd1, 0x72, 0xea, 0xee, 0xa7, 0x80, 0xc1, 0x2c, 0x6c, 0xe9, 0x2f, 0x87, 0x52, 0x30,
    0x0a, 0x06, 0x08, 0x2a, 0x86, 0x48, 0xce, 0x3d, 0x04, 0x03, 0x03, 0x30, 0x4f, 0x31, 0x0b, 0x30,
    0x09, 0x06, 0x03, 0x55, 0x04, 0x06, 0x13, 0x02, 0x55, 0x53, 0x31, 0x29, 0x30, 0x27, 0x06, 0x03,
    0x55, 0x04, 0x0a, 0x13, 0x20, 0x49, 0x6e, 0x74, 0x65, 0x72, 0x6e, 0x65, 0x74, 0x20, 0x53, 0x65,
    0x63, 0x75, 0x72, 0x69, 0x74, 0x79, 0x20, 0x52, 0x65, 0x73, 0x65, 0x61, 0x72, 0x63, 0x68, 0x20,
    0x47, 0x72, 0x6f, 0x75, 0x70, 0x31, 0x15, 0x30, 0x13, 0x06, 0x03, 0x55, 0x04, 0x03, 0x13, 0x0c,
    0x49, 0x53, 0x52, 0x47, 0x20, 0x52, 0x6f, 0x6f, 0x74, 0x20, 0x58, 0x32, 0x30, 0x1e, 0x17, 0x0d,
    0x32, 0x30, 0x30, 0x39, 0x30, 0x34, 0x30, 0x30, 0x30, 0x30, 0x30, 0x30, 0x5a, 0x17, 0x0d, 0x34,
    0x30, 0x30, 0x39, 0x31, 0x37, 0x31, 0x36, 0x30, 0x30, 0x30, 0x30, 0x5a, 0x30, 0x4f, 0x31, 0x0b,
    0x30, 0x09, 0x06, 0x03, 0x55, 0x04, 0x06, 0x13, 0x02, 0x55, 0x53, 0x31, 0x29, 0x30, 0x27, 0x06,
    0x03, 0x55, 0x04, 0x0a, 0x13, 0x20, 0x49, 0x6e, 0x74, 0x65, 0x72, 0x6e, 0x65, 0x74, 0x20, 0x53,
    0x65, 0x63, 0x75, 0x72, 0x69, 0x74, 0x79, 0x20, 0x52, 0x65, 0x73, 0x65, 0x61, 0x72, 0x63, 0x68,
    0x20, 0x47, 0x72, 0x6f, 0x75, 0x70, 0x31, 0x15, 0x30, 0x13, 0x06, 0x03, 0x55, 0x04, 0x03, 0x13,
    0x0c, 0x49, 0x53, 0x52, 0x47, 0x20, 0x52, 0x6f, 0x6f, 0x74, 0x20, 0x58, 0x32, 0x30, 0x76, 0x30,
    0x10, 0x06, 0x07, 0x2a, 0x86, 0x48, 0xce, 0x3d, 0x02, 0x01, 0x06, 0x05, 0x2b, 0x81, 0x04, 0x00,
    0x22, 0x03, 0x62, 0x00, 0x04, 0xcd, 0x9b, 0xd5, 0x9f, 0x80, 0x83, 0x0a, 0xec, 0x09, 0x4a, 0xf3,
    0x16, 0x4a, 0x3e, 0x5c, 0xcf, 0x77, 0xac, 0xde, 0x67, 0x05, 0x0d, 0x1d, 0x07, 0xb6, 0xdc, 0x16,
    0xfb, 0x5a, 0x8b, 0x14, 0xdb, 0xe2, 0x71, 0x60, 0xc4, 0xba, 0x45, 0x95, 0x11, 0x89, 0x8e, 0xea,
    0x06, 0xdf, 0xf7, 0x2a, 0x16, 0x1c, 0xa4, 0xb9, 0xc5, 0xc5, 0x32, 0xe0, 0x03, 0xe0, 0x1e, 0x82,
    0x18, 0x38, 0x8b, 0xd7, 0x45, 0xd8, 0x0a, 0x6a, 0x6e, 0xe6, 0x00, 0x77, 0xfb, 0x02, 0x51, 0x7d,
    0x22, 0xd8, 0x0a, 0x6e, 0x9a, 0x5b, 0x77, 0xdf, 0xf0, 0xfa, 0x41, 0xec, 0x39, 0xdc, 0x75, 0xca,
    0x68, 0x07, 0x0c, 0x1f, 0xea, 0xa3, 0x42, 0x30, 0x40, 0x30, 0x0e, 0x06, 0x03, 0x55, 0x1d, 0x0f,
    0x01, 0x01, 0xff, 0x04, 0x04, 0x03, 0x02, 0x01, 0x06, 0x30, 0x0f, 0x06, 0x03, 0x55, 0x1d, 0x13,
    0x01, 0x01, 0xff, 0x04, 0x05, 0x30, 0x03, 0x01, 0x01, 0xff, 0x30, 0x1d, 0x06, 0x03, 0x55, 0x1d,
    0x0e, 0x04, 0x16, 0x04, 0x14, 0x7c, 0x42, 0x96, 0xae, 0xde, 0x4b, 0x48, 0x3b, 0xfa, 0x92, 0xf8,
    0x9e, 0x8c, 0xcf, 0x6d, 0x8b, 0xa9, 0x72, 0x37, 0x95, 0x30, 0x0a, 0x06, 0x08, 0x2a, 0x86, 0x48,
    0xce, 0x3d, 0x04, 0x03, 0x03, 0x03, 0x68, 0x00, 0x30, 0x65, 0x02, 0x30, 0x7b, 0x79, 0x4e, 0x46,
    0x50, 0x84, 0xc2, 0x44, 0x87, 0x46, 0x1b, 0x45, 0x70, 0xff, 0x58, 0x99, 0xde, 0xf4, 0xfd, 0xa4,
    0xd2, 0x55, 0xa6, 0x20, 0x2d, 0x74, 0xd6, 0x34, 0xbc, 0x41, 0xa3, 0x50, 0x5f, 0x01, 0x27, 0x56,
    0xb4, 0xbe, 0x27, 0x75, 0x06, 0xaf, 0x12, 0x2e, 0x75, 0x98, 0x8d, 0xfc, 0x02, 0x31, 0x00, 0x8b,
    0xf5, 0x77, 0x6c, 0xd4, 0xc8, 0x65, 0xaa, 0xe0, 0x0b, 0x2c, 0xee, 0x14, 0x9d, 0x27, 0x37, 0xa4,
    0xf9, 0x53, 0xa5, 0x51, 0xe4, 0x29, 0x83, 0xd7, 0xf8, 0x90, 0x31, 0x5b, 0x42, 0x9f, 0x0a, 0xf5,
    0xfe, 0xae, 0x00, 0x68, 0xe7, 0x8c, 0x49, 0x0f, 0xb6, 0x6f, 0x5b, 0x5b, 0x15, 0xf2, 0xe7,
];

fn anchors(tag: u8, n: usize) -> Vec<Vec<u8>> {
    (0..n).map(|i| vec![0x30, tag, i as u8]).collect()
}

#[test]
fn selectors_parse_to_their_environments() {
    assert_eq!(Environment::from_selector("DEV"), Some(Environment::Dev));
    assert_eq!(Environment::from_selector("OM_NIPR"), Some(Environment::OmNipr));
    assert_eq!(Environment::from_selector("OM_SIPR"), Some(Environment::OmSipr));
    assert_eq!(Environment::from_selector("NIPR"), Some(Environment::Nipr));
    assert_eq!(Environment::from_selector("SIPR"), Some(Environment::Sipr));
}

#[test]
fn unknown_selectors_are_refused() {
    assert_eq!(Environment::from_selector("dev"), None);
    assert_eq!(Environment::from_selector(""), None);
    assert_eq!(Environment::from_selector("DEVX"), None);
    assert_eq!(Environment::from_selector("OM"), None);
    assert_eq!(Environment::from_selector("NIPR "), None);
}

#[test]
fn selector_round_trip() {
    for e in Environment::all() {
        assert_eq!(Environment::from_selector(e.selector()), Some(e));
    }
}

#[test]
fn anchor_counts() {
    let counts: Vec<usize> = Environment::all().iter().map(|e| e.root_count()).collect();
    assert_eq!(counts, vec![2, 3, 3, 3, 3]);
}

#[test]
fn file_locations() {
    assert_eq!(Environment::Dev.root_file(0), "roots/NIPR/dev/DOD_ENG_Root-3.der");
    assert_eq!(Environment::Sipr.root_file(2), "roots/SIPR/prod/NSS_Root_CA-4.der");
    assert_eq!(Environment::OmSipr.ca_bundle_file(), "cas/SIPR/om/om.cbor");
    assert_eq!(Environment::Nipr.ca_bundle_file(), "cas/NIPR/prod/prod.cbor");
}

#[test]
fn supply_refuses_wrong_anchor_count() {
    let mut m = TrustMaterial::new();
    assert!(!m.supply(Environment::Dev, anchors(1, 3), vec![]));
    assert!(!m.is_enabled(Environment::Dev));
    assert!(!m.supply(Environment::Nipr, anchors(4, 2), vec![]));
    assert!(!m.is_enabled(Environment::Nipr));
    assert!(m.supply(Environment::Nipr, anchors(4, 3), vec![]));
    assert!(m.is_enabled(Environment::Nipr));
    assert!(!m.is_enabled(Environment::Sipr));
}

#[test]
fn no_material_gives_no_roots() {
    assert!(get_roots(&TrustMaterial::new()).is_empty());
}

#[test]
fn roots_come_in_environment_order() {
    let mut m = TrustMaterial::new();
    assert!(m.supply(Environment::Sipr, anchors(5, 3), vec![]));
    assert!(m.supply(Environment::Dev, anchors(1, 2), vec![]));
    let mut expected = anchors(1, 2);
    expected.extend(anchors(5, 3));
    assert_eq!(get_roots(&m), expected);
}

#[test]
fn later_supply_replaces_earlier() {
    let mut m = TrustMaterial::new();
    assert!(m.supply(Environment::OmNipr, anchors(2, 3), vec![]));
    assert!(m.supply(Environment::OmNipr, anchors(9, 3), vec![]));
    assert_eq!(get_roots(&m), anchors(9, 3));
}

#[test]
fn plan_for_dev() {
    let mut m = TrustMaterial::new();
    assert!(m.supply(Environment::Dev, anchors(1, 2), vec![0xa1, 0x01]));
    let plan = plan_certval_environment(&m, "DEV").unwrap();
    assert_eq!(plan.anchors.len(), 2);
    assert_eq!(plan.anchors[0].filename, "dev root");
    assert_eq!(plan.anchors[1].filename, "dev root");
    assert_eq!(plan.anchors[0].bytes, vec![0x30, 1, 0]);
    assert_eq!(plan.anchors[1].bytes, vec![0x30, 1, 1]);
    assert_eq!(plan.ca_cbor, vec![0xa1, 0x01]);
}

#[test]
fn plan_labels_name_each_anchor() {
    let mut m = TrustMaterial::new();
    assert!(m.supply(Environment::OmNipr, anchors(2, 3), vec![]));
    assert!(m.supply(Environment::Sipr, anchors(5, 3), vec![]));
    let names: Vec<String> = plan_certval_environment(&m, "OM_NIPR")
        .unwrap()
        .anchors
        .into_iter()
        .map(|a| a.filename)
        .collect();
    assert_eq!(names, vec!["om nipr root 3", "om nipr root 5", "om nipr root 6"]);
    let names: Vec<String> = plan_certval_environment(&m, "SIPR")
        .unwrap()
        .anchors
        .into_iter()
        .map(|a| a.filename)
        .collect();
    assert_eq!(names, vec!["sipr root 1", "sipr root 2", "sipr root 4"]);
}

#[test]
fn plan_refuses_unknown_selector() {
    let mut m = TrustMaterial::new();
    assert!(m.supply(Environment::Dev, anchors(1, 2), vec![]));
    assert_eq!(plan_certval_environment(&m, "PROD").err(), Some(PrepareError::Unrecognized));
    assert_eq!(plan_certval_environment(&m, "dev").err(), Some(PrepareError::Unrecognized));
}

#[test]
fn plan_refuses_environment_not_enabled() {
    let mut m = TrustMaterial::new();
    assert!(m.supply(Environment::Dev, anchors(1, 2), vec![]));
    assert_eq!(plan_certval_environment(&m, "NIPR").err(), Some(PrepareError::Unrecognized));
    assert_eq!(get_roots(&m).len(), 2);
}

#[test]
fn rustls_client_builds_without_roots() {
    assert!(get_reqwest_client_rustls(30, None, &TrustMaterial::new()).is_ok());
}

#[test]
fn native_client_builds_without_roots() {
    assert!(get_reqwest_client_native(30, None, &TrustMaterial::new()).is_ok());
}

#[test]
fn rustls_client_refuses_malformed_root() {
    let mut m = TrustMaterial::new();
    assert!(m.supply(Environment::Dev, anchors(1, 2), vec![]));
    assert!(get_reqwest_client_rustls(30, None, &m).is_err());
}

#[test]
fn native_client_refuses_malformed_root() {
    let mut m = TrustMaterial::new();
    assert!(m.supply(Environment::Dev, anchors(1, 2), vec![]));
    assert!(get_reqwest_client_native(30, None, &m).is_err());
}

#[test]
fn clients_trust_well_formed_roots() {
    let mut m = TrustMaterial::new();
    assert!(m.supply(Environment::Dev, vec![ISRG_ROOT_X2.to_vec(), ISRG_ROOT_X2.to_vec()], vec![]));
    assert!(get_reqwest_client_rustls(30, None, &m).is_ok());
    assert!(get_reqwest_client_native(30, None, &m).is_ok());
}

#[test]
fn configured_builder_refuses_malformed_root() {
    let mut m = TrustMaterial::new();
    assert!(m.supply(Environment::Dev, vec![ISRG_ROOT_X2.to_vec(), vec![0x30, 0x01, 0x00]], vec![]));
    assert!(configured_builder(30, None, true, &m).is_err());
    assert!(trust_roots(reqwest::Client::builder(), &vec![ISRG_ROOT_X2.to_vec()]).is_ok());
}

#[test]
fn configured_builder_succeeds_without_roots() {
    assert!(configured_builder(30, None, true, &TrustMaterial::new()).is_ok());
    assert!(configured_builder(30, None, false, &TrustMaterial::new()).is_ok());
    assert!(trust_roots(reqwest::Client::builder(), &Vec::new()).is_ok());
}
