//! Query URLs for the five operations, byte-exact by construction.
//!
//! No escaping is performed: names and formulas are expected to be
//! alphanumeric with limited punctuation, and a malformed character yields a
//! malformed request upstream, not a local error.
use vstd::prelude::*;
use vstd::string::StringExecFns;
use crate::numtext::{dec_str, i64_to_string};

verus! {

/// Base path of the PUG REST interface.
pub open spec fn pug_rest() -> Seq<char> {
    "https://pubchem.ncbi.nlm.nih.gov/rest/pug/"@
}

/// Base path of the PUG View interface.
pub open spec fn pug_view() -> Seq<char> {
    "https://pubchem.ncbi.nlm.nih.gov/rest/pug_view/"@
}

/// URL resolving a compound name to its identifiers.
pub fn url_cid(name: &str) -> (r: String)
    ensures
        r@ == pug_rest() + "compound/name/"@ + name@ + "/cids/JSON"@,
{
    let mut s = "https://pubchem.ncbi.nlm.nih.gov/rest/pug/".to_owned();
    s.append("compound/name/");
    s.append(name);
    s.append("/cids/JSON");
    s
}

/// URL fetching the CAS registry number of a compound (view interface).
pub fn url_cas(cid: i64) -> (r: String)
    ensures
        r@ == pug_view() + "data/compound/"@ + dec_str(cid as int) + "/JSON?heading=CAS"@,
{
    let mut s = "https://pubchem.ncbi.nlm.nih.gov/rest/pug_view/".to_owned();
    s.append("data/compound/");
    s.append(i64_to_string(cid).as_str());
    s.append("/JSON?heading=CAS");
    s
}

/// URL fetching the InChIKey and canonical SMILES of a compound.
pub fn url_properties(cid: i64) -> (r: String)
    ensures
        r@ == pug_rest() + "compound/cid/"@ + dec_str(cid as int)
            + "/property/InChIKey,CanonicalSMILES/JSON"@,
{
    let mut s = "https://pubchem.ncbi.nlm.nih.gov/rest/pug/".to_owned();
    s.append("compound/cid/");
    s.append(i64_to_string(cid).as_str());
    s.append("/property/InChIKey,CanonicalSMILES/JSON");
    s
}

/// URL fetching the two-dimensional structure block of a compound.
pub fn url_sdf(cid: i64) -> (r: String)
    ensures
        r@ == pug_rest() + "compound/cid/"@ + dec_str(cid as int) + "/SDF?record_type=2d"@,
{
    let mut s = "https://pubchem.ncbi.nlm.nih.gov/rest/pug/".to_owned();
    s.append("compound/cid/");
    s.append(i64_to_string(cid).as_str());
    s.append("/SDF?record_type=2d");
    s
}

/// URL searching compounds by molecular formula, capped at five records.
pub fn url_formula(formula: &str) -> (r: String)
    ensures
        r@ == pug_rest() + "compound/fastformula/"@ + formula@ + "/cids/JSON?MaxRecords=5"@,
{
    let mut s = "https://pubchem.ncbi.nlm.nih.gov/rest/pug/".to_owned();
    s.append("compound/fastformula/");
    s.append(formula);
    s.append("/cids/JSON?MaxRecords=5");
    s
}

/// URL polling a queued formula search by its job key.
pub fn url_listkey(key: &str) -> (r: String)
    ensures
        r@ == pug_rest() + "compound/listkey/"@ + key@ + "/cids/JSON"@,
{
    let mut s = "https://pubchem.ncbi.nlm.nih.gov/rest/pug/".to_owned();
    s.append("compound/listkey/");
    s.append(key);
    s.append("/cids/JSON");
    s
}

} // verus!
