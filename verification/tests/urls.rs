use pubchem_client::urls::{url_cas, url_cid, url_formula, url_listkey, url_properties, url_sdf};

#[test]
fn url_for_name_resolution_is_byte_exact() {
    assert_eq!(
        url_cid("aspirin"),
        "https://pubchem.ncbi.nlm.nih.gov/rest/pug/compound/name/aspirin/cids/JSON"
    );
}

#[test]
fn url_for_properties_is_byte_exact() {
    assert_eq!(
        url_properties(2244),
        "https://pubchem.ncbi.nlm.nih.gov/rest/pug/compound/cid/2244/property/InChIKey,CanonicalSMILES/JSON"
    );
}

#[test]
fn url_for_cas_uses_view_base() {
    assert_eq!(
        url_cas(2244),
        "https://pubchem.ncbi.nlm.nih.gov/rest/pug_view/data/compound/2244/JSON?heading=CAS"
    );
}

#[test]
fn url_for_cas_renders_negative_identifier() {
    assert_eq!(
        url_cas(-1),
        "https://pubchem.ncbi.nlm.nih.gov/rest/pug_view/data/compound/-1/JSON?heading=CAS"
    );
}

#[test]
fn url_for_structure_names_2d_record() {
    assert_eq!(
        url_sdf(2244),
        "https://pubchem.ncbi.nlm.nih.gov/rest/pug/compound/cid/2244/SDF?record_type=2d"
    );
}

#[test]
fn url_for_formula_search_caps_records() {
    assert_eq!(
        url_formula("C10H21N"),
        "https://pubchem.ncbi.nlm.nih.gov/rest/pug/compound/fastformula/C10H21N/cids/JSON?MaxRecords=5"
    );
}

#[test]
fn url_for_poll_carries_job_key() {
    assert_eq!(
        url_listkey("1748569479215796481"),
        "https://pubchem.ncbi.nlm.nih.gov/rest/pug/compound/listkey/1748569479215796481/cids/JSON"
    );
}

#[test]
fn url_renders_large_identifier() {
    assert_eq!(
        url_sdf(123456789012),
        "https://pubchem.ncbi.nlm.nih.gov/rest/pug/compound/cid/123456789012/SDF?record_type=2d"
    );
}
