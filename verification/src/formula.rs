//! The formula-search steps: the first response either resolves directly to
//! a list of compound identifiers or demands exactly one poll with the job
//! key the service issued; the poll response resolves to the final list.
//!
//! A job still pending after the one poll yields whatever partial or empty
//! list its body holds: the design never polls twice.
use vstd::prelude::*;
use crate::ExtractError;
use crate::jsonval::{Json, json_of, parse_json, spec_str_of, str_of, num_of, spec_num_of};
use crate::numtext::{dec_str, i64_to_string};
use crate::extract::{hop, ehop, spec_extract_cid, spec_extract_cas, spec_extract_properties,
    STATUS_OK};

verus! {

/// What one formula-search response demands next.
pub enum FormulaStep {
    /// The search is over; these are the identifier texts, at most five.
    Done(Vec<String>),
    /// The service queued the search under this job key: poll once.
    Poll(String),
}

/// The spec-level form of `FormulaStep`.
pub enum FormulaStepView {
    Done(Seq<Seq<char>>),
    Poll(Seq<char>),
}

impl View for FormulaStep {
    type V = FormulaStepView;

    open spec fn view(&self) -> FormulaStepView {
        match self {
            FormulaStep::Done(cids) => FormulaStepView::Done(
                cids@.map_values(|s: String| s@),
            ),
            FormulaStep::Poll(k) => FormulaStepView::Poll(k@),
        }
    }
}

/// The literal text with which the service reports a queued search.
pub open spec fn running_msg() -> Seq<char> {
    "Your request is running"@
}

/// Whether a parsed first response reports a queued search: its
/// `Waiting → Message` is exactly the running text.
pub open spec fn spec_waiting(j: Json) -> bool {
    match hop(hop(Some(j), "Waiting"@), "Message"@) {
        Some(m) => spec_str_of(m) == Some(running_msg()),
        None => false,
    }
}

/// The job key of a queued search: `Waiting → ListKey`, a string.
pub open spec fn spec_listkey(j: Json) -> Option<Seq<char>> {
    match hop(hop(Some(j), "Waiting"@), "ListKey"@) {
        Some(v) => spec_str_of(v),
        None => None,
    }
}

/// The identifier of a number value, as decimal text; zero stands in for a
/// non-number, which `all_nums` rules out wherever this is used.
pub open spec fn num_val(j: Json) -> i64 {
    match spec_num_of(j) {
        Some(n) => n,
        None => 0,
    }
}

/// Whether every element of the sequence is a number value.
pub open spec fn all_nums(a: Seq<Json>) -> bool {
    forall|i: int| 0 <= i < a.len() ==> a[i] is Num
}

/// The decimal texts of a sequence of number values.
pub open spec fn texts_of(a: Seq<Json>) -> Seq<Seq<char>> {
    a.map_values(|j: Json| dec_str(num_val(j) as int))
}

/// The capped identifier list of a resolved body: the first five elements
/// of `IdentifierList → CID`, as decimal texts. A body without that list
/// resolves to the empty sequence; a list with a non-number element is a
/// shape error.
pub open spec fn spec_cid_texts(j: Json) -> Result<Seq<Seq<char>>, ExtractError> {
    match hop(hop(Some(j), "IdentifierList"@), "CID"@) {
        Some(v) => match v {
            Json::Arr(a) => {
                let capped = if a@.len() <= 5 {
                    a@
                } else {
                    a@.take(5)
                };
                if all_nums(capped) {
                    Ok(texts_of(capped))
                } else {
                    Err(ExtractError::Shape)
                }
            },
            _ => Err(ExtractError::Shape),
        },
        None => Ok(Seq::empty()),
    }
}

/// What the first formula-search step yields for a status and a body.
pub open spec fn spec_formula_first(status: u16, body: Seq<char>) -> Result<
    FormulaStepView,
    ExtractError,
> {
    if status != 200 {
        Ok(FormulaStepView::Done(Seq::empty()))
    } else {
        match json_of(body) {
            None => Err(ExtractError::Parse),
            Some(j) => if spec_waiting(j) {
                match spec_listkey(j) {
                    Some(k) => Ok(FormulaStepView::Poll(k)),
                    None => Err(ExtractError::Shape),
                }
            } else {
                match spec_cid_texts(j) {
                    Ok(cids) => Ok(FormulaStepView::Done(cids)),
                    Err(e) => Err(e),
                }
            },
        }
    }
}

/// What the poll step yields for a status and a body.
pub open spec fn spec_formula_poll(status: u16, body: Seq<char>) -> Result<
    Seq<Seq<char>>,
    ExtractError,
> {
    if status != 200 {
        Ok(Seq::empty())
    } else {
        match json_of(body) {
            None => Err(ExtractError::Parse),
            Some(j) => spec_cid_texts(j),
        }
    }
}

/// The capped identifier list of a parsed body, against `spec_cid_texts`.
pub fn cid_texts(j: &Json) -> (r: Result<Vec<String>, ExtractError>)
    ensures
        (match r {
            Ok(v) => spec_cid_texts(*j) == Ok::<Seq<Seq<char>>, ExtractError>(
                v@.map_values(|s: String| s@),
            ),
            Err(e) => spec_cid_texts(*j) == Err::<Seq<Seq<char>>, ExtractError>(e),
        }),
{
    let p = ehop(Some(j), &"IdentifierList".to_owned());
    let p = ehop(p, &"CID".to_owned());
    match p {
        Some(v) => match v {
            Json::Arr(a) => {
                let cap: usize = if a.len() <= 5 {
                    a.len()
                } else {
                    5
                };
                let ghost capped: Seq<Json> = if a@.len() <= 5 {
                    a@
                } else {
                    a@.take(5)
                };
                proof {
                    assert(capped =~= a@.take(cap as int));
                }
                let mut out: Vec<String> = Vec::new();
                let mut i: usize = 0;
                while i < cap
                    invariant
                        cap <= a@.len(),
                        i <= cap,
                        cap == capped.len(),
                        capped == a@.take(cap as int),
                        spec_cid_texts(*j) == (if all_nums(capped) {
                            Ok::<Seq<Seq<char>>, ExtractError>(texts_of(capped))
                        } else {
                            Err::<Seq<Seq<char>>, ExtractError>(ExtractError::Shape)
                        }),
                        out@.len() == i,
                        forall|k: int| 0 <= k < i ==> capped[k] is Num,
                        out@.map_values(|s: String| s@) =~= texts_of(capped.take(i as int)),
                    decreases cap - i,
                {
                    proof {
                        assert(capped[i as int] == a@[i as int]);
                    }
                    match num_of(&a[i]) {
                        Some(n) => {
                            let ghost prev = out@;
                            out.push(i64_to_string(n));
                            proof {
                                assert(spec_num_of(capped[i as int]) == Some(n));
                                let f = |s: String| s@;
                                assert forall|k: int| 0 <= k < i + 1 implies out@.map_values(f)[k]
                                    == texts_of(capped.take(i as int + 1))[k] by {
                                    if k < i {
                                        assert(prev.map_values(f)[k] == texts_of(
                                            capped.take(i as int),
                                        )[k]);
                                    }
                                }
                                assert(out@.map_values(f) =~= texts_of(capped.take(i as int + 1)));
                            }
                        },
                        None => {
                            proof {
                                assert(!(capped[i as int] is Num));
                                assert(!all_nums(capped));
                            }
                            return Err(ExtractError::Shape);
                        },
                    }
                    i += 1;
                }
                proof {
                    assert(capped.take(cap as int) =~= capped);
                    assert(all_nums(capped));
                }
                Ok(out)
            },
            _ => Err(ExtractError::Shape),
        },
        None => {
            let r: Vec<String> = Vec::new();
            proof {
                assert(r@.map_values(|s: String| s@) =~= Seq::<Seq<char>>::empty());
            }
            Ok(r)
        },
    }
}

/// The first formula-search step: on a non-OK status the empty list; on a
/// queued response, the demand to poll once with the job key; otherwise the
/// body's own identifier list, capped at five.
pub fn formula_first(status: u16, body: &str) -> (r: Result<FormulaStep, ExtractError>)
    ensures
        (match r {
            Ok(step) => spec_formula_first(status, body@) == Ok::<FormulaStepView, ExtractError>(
                step@,
            ),
            Err(e) => spec_formula_first(status, body@) == Err::<FormulaStepView, ExtractError>(e),
        }),
{
    if status != STATUS_OK {
        let empty: Vec<String> = Vec::new();
        proof {
            assert(empty@.map_values(|s: String| s@) =~= Seq::<Seq<char>>::empty());
        }
        return Ok(FormulaStep::Done(empty));
    }
    let parsed = match parse_json(body) {
        Some(j) => j,
        None => {
            return Err(ExtractError::Parse);
        },
    };
    let msg = ehop(ehop(Some(&parsed), &"Waiting".to_owned()), &"Message".to_owned());
    let waiting = match msg {
        Some(m) => match str_of(m) {
            Some(s) => *s == "Your request is running".to_owned(),
            None => false,
        },
        None => false,
    };
    if waiting {
        match ehop(ehop(Some(&parsed), &"Waiting".to_owned()), &"ListKey".to_owned()) {
            Some(v) => match str_of(v) {
                Some(k) => Ok(FormulaStep::Poll(k.clone())),
                None => Err(ExtractError::Shape),
            },
            None => Err(ExtractError::Shape),
        }
    } else {
        match cid_texts(&parsed) {
            Ok(cids) => Ok(FormulaStep::Done(cids)),
            Err(e) => Err(e),
        }
    }
}

/// The poll step: the final identifier list of the poll response, capped at
/// five; the empty list on a non-OK status.
pub fn formula_poll(status: u16, body: &str) -> (r: Result<Vec<String>, ExtractError>)
    ensures
        (match r {
            Ok(v) => spec_formula_poll(status, body@) == Ok::<Seq<Seq<char>>, ExtractError>(
                v@.map_values(|s: String| s@),
            ),
            Err(e) => spec_formula_poll(status, body@) == Err::<Seq<Seq<char>>, ExtractError>(e),
        }),
{
    if status != STATUS_OK {
        let empty: Vec<String> = Vec::new();
        proof {
            assert(empty@.map_values(|s: String| s@) =~= Seq::<Seq<char>>::empty());
        }
        return Ok(empty);
    }
    let parsed = match parse_json(body) {
        Some(j) => j,
        None => {
            return Err(ExtractError::Parse);
        },
    };
    cid_texts(&parsed)
}

/// On any non-OK status each extractor yields its sentinel, never an error:
/// `-1` for the identifier, `"NA"` for the CAS text, the `"NA"` pair for the
/// properties, and the empty list for both formula-search steps.
pub proof fn lemma_non_ok_status_yields_sentinel(status: u16, body: Seq<char>)
    requires
        status != 200,
    ensures
        spec_extract_cid(status, body) == Ok::<i64, ExtractError>(-1i64),
        spec_extract_cas(status, body) == Ok::<Seq<char>, ExtractError>("NA"@),
        spec_extract_properties(status, body) == Ok::<(Seq<char>, Seq<char>), ExtractError>(
            ("NA"@, "NA"@),
        ),
        spec_formula_first(status, body) == Ok::<FormulaStepView, ExtractError>(
            FormulaStepView::Done(Seq::empty()),
        ),
        spec_formula_poll(status, body) == Ok::<Seq<Seq<char>>, ExtractError>(Seq::empty()),
{
}

/// A resolved identifier list never exceeds five entries.
pub proof fn lemma_cid_list_capped(j: Json, cids: Seq<Seq<char>>)
    requires
        spec_cid_texts(j) == Ok::<Seq<Seq<char>>, ExtractError>(cids),
    ensures
        cids.len() <= 5,
{
}

/// A first response whose body carries the running message and a string job
/// key demands a poll with exactly that key — and nothing else, so the
/// search makes exactly one poll request; the final result is then whatever
/// identifier list the poll response resolves to, capped at five.
pub proof fn lemma_waiting_body_polls_once(
    body: Seq<char>,
    j: Json,
    k: Seq<char>,
    poll_status: u16,
    poll_body: Seq<char>,
    poll_j: Json,
)
    requires
        json_of(body) == Some(j),
        spec_waiting(j),
        spec_listkey(j) == Some(k),
        poll_status == 200,
        json_of(poll_body) == Some(poll_j),
    ensures
        spec_formula_first(200, body) == Ok::<FormulaStepView, ExtractError>(
            FormulaStepView::Poll(k),
        ),
        spec_formula_poll(poll_status, poll_body) == spec_cid_texts(poll_j),
        (spec_cid_texts(poll_j) matches Ok(cids) ==> cids.len() <= 5),
{
}

/// A first response whose body lacks the running message resolves directly:
/// the result is the body's own identifier list (possibly empty), capped at
/// five, and no poll step exists to make.
pub proof fn lemma_direct_body_resolves_without_poll(body: Seq<char>, j: Json)
    requires
        json_of(body) == Some(j),
        !spec_waiting(j),
    ensures
        spec_formula_first(200, body) == (match spec_cid_texts(j) {
            Ok(cids) => Ok::<FormulaStepView, ExtractError>(FormulaStepView::Done(cids)),
            Err(e) => Err::<FormulaStepView, ExtractError>(e),
        }),
        (spec_cid_texts(j) matches Ok(cids) ==> cids.len() <= 5),
{
}

} // verus!
