//! Response extractors: one per operation, each navigating the fixed path
//! of keys and indices that the upstream service documents for that
//! operation's body.
//!
//! A non-OK status yields the operation's sentinel without looking at the
//! body; an unparseable body yields `ExtractError::Parse`; a missing or
//! ill-typed hop yields `ExtractError::Shape`.
use vstd::prelude::*;
use crate::ExtractError;
use crate::jsonval::{
    Json, get, at, str_of, num_of, parse_json, json_of, spec_get, spec_at, spec_str_of,
    spec_num_of,
};

verus! {

/// The status code on which a body is parsed at all.
pub const STATUS_OK: u16 = 200;

/// One object hop, lifted over a failed earlier hop.
pub open spec fn hop(o: Option<Json>, key: Seq<char>) -> Option<Json> {
    match o {
        Some(j) => spec_get(j, key),
        None => None,
    }
}

/// One array hop, lifted over a failed earlier hop.
pub open spec fn hop_at(o: Option<Json>, i: int) -> Option<Json> {
    match o {
        Some(j) => spec_at(j, i),
        None => None,
    }
}

/// The value behind a borrowed optional, for relating exec hops to spec hops.
pub open spec fn deref_opt(o: Option<&Json>) -> Option<Json> {
    match o {
        Some(j) => Some(*j),
        None => None,
    }
}

pub(crate) fn ehop<'a>(o: Option<&'a Json>, key: &String) -> (r: Option<&'a Json>)
    ensures
        deref_opt(r) == hop(deref_opt(o), key@),
{
    match o {
        Some(j) => get(j, key),
        None => None,
    }
}

pub(crate) fn ehop_at<'a>(o: Option<&'a Json>, i: usize) -> (r: Option<&'a Json>)
    ensures
        deref_opt(r) == hop_at(deref_opt(o), i as int),
{
    match o {
        Some(j) => at(j, i),
        None => None,
    }
}

/// The compound identifier inside a name-resolution body:
/// `IdentifierList → CID → [0]`, a number.
pub open spec fn spec_cid_value(j: Json) -> Option<i64> {
    match hop_at(hop(hop(Some(j), "IdentifierList"@), "CID"@), 0) {
        Some(v) => spec_num_of(v),
        None => None,
    }
}

/// What the identifier extractor returns for a status and a body.
pub open spec fn spec_extract_cid(status: u16, body: Seq<char>) -> Result<i64, ExtractError> {
    if status != 200 {
        Ok(-1i64)
    } else {
        match json_of(body) {
            None => Err(ExtractError::Parse),
            Some(j) => match spec_cid_value(j) {
                Some(n) => Ok(n),
                None => Err(ExtractError::Shape),
            },
        }
    }
}

/// The compound identifier of the first match for a name query, `-1` on a
/// non-OK status.
pub fn extract_cid(status: u16, body: &str) -> (r: Result<i64, ExtractError>)
    ensures
        r == spec_extract_cid(status, body@),
{
    if status != STATUS_OK {
        return Ok(-1);
    }
    let parsed = match parse_json(body) {
        Some(j) => j,
        None => {
            return Err(ExtractError::Parse);
        },
    };
    let p = ehop(Some(&parsed), &"IdentifierList".to_owned());
    let p = ehop(p, &"CID".to_owned());
    let p = ehop_at(p, 0);
    match p {
        Some(v) => match num_of(v) {
            Some(n) => Ok(n),
            None => Err(ExtractError::Shape),
        },
        None => Err(ExtractError::Shape),
    }
}

/// The CAS registry number inside a view body: `Record → Section[0] →
/// Section[0] → Section[0] → Information[0] → Value → StringWithMarkup[0] →
/// String`, a string.
pub open spec fn spec_cas_value(j: Json) -> Option<Seq<char>> {
    let p = hop(Some(j), "Record"@);
    let p = hop_at(hop(p, "Section"@), 0);
    let p = hop_at(hop(p, "Section"@), 0);
    let p = hop_at(hop(p, "Section"@), 0);
    let p = hop_at(hop(p, "Information"@), 0);
    let p = hop(p, "Value"@);
    let p = hop_at(hop(p, "StringWithMarkup"@), 0);
    let p = hop(p, "String"@);
    match p {
        Some(v) => spec_str_of(v),
        None => None,
    }
}

/// What the CAS extractor returns for a status and a body.
pub open spec fn spec_extract_cas(status: u16, body: Seq<char>) -> Result<
    Seq<char>,
    ExtractError,
> {
    if status != 200 {
        Ok("NA"@)
    } else {
        match json_of(body) {
            None => Err(ExtractError::Parse),
            Some(j) => match spec_cas_value(j) {
                Some(s) => Ok(s),
                None => Err(ExtractError::Shape),
            },
        }
    }
}

/// The CAS registry number of a compound, `"NA"` on a non-OK status.
pub fn extract_cas(status: u16, body: &str) -> (r: Result<String, ExtractError>)
    ensures
        (match r {
            Ok(s) => spec_extract_cas(status, body@) == Ok::<Seq<char>, ExtractError>(s@),
            Err(e) => spec_extract_cas(status, body@) == Err::<Seq<char>, ExtractError>(e),
        }),
{
    if status != STATUS_OK {
        return Ok("NA".to_owned());
    }
    let parsed = match parse_json(body) {
        Some(j) => j,
        None => {
            return Err(ExtractError::Parse);
        },
    };
    let p = ehop(Some(&parsed), &"Record".to_owned());
    let p = ehop_at(ehop(p, &"Section".to_owned()), 0);
    let p = ehop_at(ehop(p, &"Section".to_owned()), 0);
    let p = ehop_at(ehop(p, &"Section".to_owned()), 0);
    let p = ehop_at(ehop(p, &"Information".to_owned()), 0);
    let p = ehop(p, &"Value".to_owned());
    let p = ehop_at(ehop(p, &"StringWithMarkup".to_owned()), 0);
    let p = ehop(p, &"String".to_owned());
    match p {
        Some(v) => match str_of(v) {
            Some(s) => Ok(s.clone()),
            None => Err(ExtractError::Shape),
        },
        None => Err(ExtractError::Shape),
    }
}

/// The property record inside a properties body: `PropertyTable →
/// Properties → [0]`, holding the `CanonicalSMILES` and `InChIKey` strings.
pub open spec fn spec_properties_value(j: Json) -> Option<(Seq<char>, Seq<char>)> {
    let p = hop_at(hop(hop(Some(j), "PropertyTable"@), "Properties"@), 0);
    match (hop(p, "CanonicalSMILES"@), hop(p, "InChIKey"@)) {
        (Some(s), Some(k)) => match (spec_str_of(s), spec_str_of(k)) {
            (Some(smiles), Some(inchikey)) => Some((smiles, inchikey)),
            _ => None,
        },
        _ => None,
    }
}

/// What the properties extractor returns for a status and a body.
pub open spec fn spec_extract_properties(status: u16, body: Seq<char>) -> Result<
    (Seq<char>, Seq<char>),
    ExtractError,
> {
    if status != 200 {
        Ok(("NA"@, "NA"@))
    } else {
        match json_of(body) {
            None => Err(ExtractError::Parse),
            Some(j) => match spec_properties_value(j) {
                Some(pair) => Ok(pair),
                None => Err(ExtractError::Shape),
            },
        }
    }
}

/// The canonical SMILES and InChIKey of a compound, in that order;
/// `("NA", "NA")` on a non-OK status.
pub fn extract_properties(status: u16, body: &str) -> (r: Result<(String, String), ExtractError>)
    ensures
        (match r {
            Ok(pair) => spec_extract_properties(status, body@) == Ok::<
                (Seq<char>, Seq<char>),
                ExtractError,
            >((pair.0@, pair.1@)),
            Err(e) => spec_extract_properties(status, body@) == Err::<
                (Seq<char>, Seq<char>),
                ExtractError,
            >(e),
        }),
{
    if status != STATUS_OK {
        return Ok(("NA".to_owned(), "NA".to_owned()));
    }
    let parsed = match parse_json(body) {
        Some(j) => j,
        None => {
            return Err(ExtractError::Parse);
        },
    };
    let p = ehop(Some(&parsed), &"PropertyTable".to_owned());
    let p = ehop_at(ehop(p, &"Properties".to_owned()), 0);
    let smiles = match ehop(p, &"CanonicalSMILES".to_owned()) {
        Some(v) => match str_of(v) {
            Some(s) => s.clone(),
            None => {
                return Err(ExtractError::Shape);
            },
        },
        None => {
            return Err(ExtractError::Shape);
        },
    };
    let inchikey = match ehop(p, &"InChIKey".to_owned()) {
        Some(v) => match str_of(v) {
            Some(s) => s.clone(),
            None => {
                return Err(ExtractError::Shape);
            },
        },
        None => {
            return Err(ExtractError::Shape);
        },
    };
    Ok((smiles, inchikey))
}

/// The structure body, verbatim: whatever the status, the text is handed
/// back unchanged, and no parse or shape error can arise.
pub fn extract_sdf(_status: u16, body: &str) -> (r: String)
    ensures
        r@ == body@,
{
    body.to_owned()
}

} // verus!
