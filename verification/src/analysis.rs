//! Analysis response contract: the parsed risk-assessment response and the
//! mapping from category severities to UI-safe risk levels.

use vstd::prelude::*;
use crate::json::{parse_string, parse_u64, skip_value, skip_ws, plain_string_end,
    lemma_plain_string_end_at};
use crate::text::{spec_is_blank, is_blank, str_chars, str_eq};

verus! {

/// One risk category score reported by the analysis service.
#[derive(Debug, Clone)]
pub struct CategoryAssessment {
    /// Category name (for example `credential_theft`).
    pub category: String,
    /// Severity score, expected in `0 ..= 100`.
    pub severity: u8,
}

/// UI-safe risk level abstraction.
#[derive(Debug, Clone, Copy, PartialEq, Eq, Structural)]
pub enum RiskLevel {
    /// Low risk.
    Low,
    /// Medium risk.
    Medium,
    /// High risk.
    High,
    /// Critical risk.
    Critical,
    /// Unknown or unsupported mapping.
    Unknown,
}

/// Risk signal projected for UI rendering.
#[derive(Debug, Clone)]
pub struct UiRiskSignal {
    /// Original category name from the server response.
    pub category: String,
    /// Mapped risk level.
    pub level: RiskLevel,
}

/// Parsed analysis response from the protected API.
#[derive(Debug, Clone)]
pub struct AnalysisResponse {
    /// Response schema version.
    pub schema_version: String,
    /// Request identifier for traceability.
    pub request_id: String,
    /// Security risk categories, empty when the response carries none.
    pub categories: Vec<CategoryAssessment>,
}

/// Analysis contract errors.
#[derive(Debug)]
pub enum AnalysisContractError {
    /// The response is not well-formed JSON of the expected shape.
    Decode(String),
    /// The parsed payload violates contract invariants.
    InvalidContract(String),
}

/// The fixed severity bands: 0-24 Low, 25-49 Medium, 50-79 High, 80-100
/// Critical; anything larger maps to Unknown for forward compatibility.
pub open spec fn spec_severity_to_level(severity: u8) -> RiskLevel {
    if severity <= 24 {
        RiskLevel::Low
    } else if severity <= 49 {
        RiskLevel::Medium
    } else if severity <= 79 {
        RiskLevel::High
    } else if severity <= 100 {
        RiskLevel::Critical
    } else {
        RiskLevel::Unknown
    }
}

/// Maps one severity score to its fixed band.
pub fn severity_to_level(severity: u8) -> (r: RiskLevel)
    ensures
        r == spec_severity_to_level(severity),
{
    if severity <= 24 {
        RiskLevel::Low
    } else if severity <= 49 {
        RiskLevel::Medium
    } else if severity <= 79 {
        RiskLevel::High
    } else if severity <= 100 {
        RiskLevel::Critical
    } else {
        RiskLevel::Unknown
    }
}

/// Text usable verbatim inside a JSON string: no quote, backslash or
/// control character.
pub open spec fn plain_text(s: Seq<char>) -> bool {
    forall|i: int| 0 <= i < s.len() ==> (#[trigger] s[i]) != '"' && s[i] != '\\' && (s[i] as u32)
        >= 32
}

/// The minimal analysis document carrying the given ids: one object with
/// the two mandatory members and nothing else.
pub open spec fn spec_min_analysis_doc(sv: Seq<char>, rid: Seq<char>) -> Seq<char> {
    "{\"schema_version\":\""@ + sv + "\",\"request_id\":\""@ + rid + "\"}"@
}

/// Every structural fact of the minimal document: where its delimiters,
/// keys and id values sit.
proof fn lemma_min_doc_shape(chars: Seq<char>, sv: Seq<char>, rid: Seq<char>)
    requires
        plain_text(sv),
        plain_text(rid),
        chars == spec_min_analysis_doc(sv, rid),
    ensures
        chars.len() == 37 + sv.len() + rid.len(),
        chars[0] == '{',
        chars[1] == '"',
        plain_string_end(chars, 2) == Some(16int),
        chars.subrange(2, 16) == "schema_version"@,
        chars[17] == ':',
        chars[18] == '"',
        plain_string_end(chars, 19) == Some(19 + sv.len() as int),
        chars.subrange(19, 19 + sv.len() as int) == sv,
        chars[20 + sv.len() as int] == ',',
        chars[21 + sv.len() as int] == '"',
        plain_string_end(chars, 22 + sv.len() as int) == Some(32 + sv.len() as int),
        chars.subrange(22 + sv.len() as int, 32 + sv.len() as int) == "request_id"@,
        chars[33 + sv.len() as int] == ':',
        chars[34 + sv.len() as int] == '"',
        plain_string_end(chars, 35 + sv.len() as int) == Some(
            35 + sv.len() as int + rid.len() as int,
        ),
        chars.subrange(35 + sv.len() as int, 35 + sv.len() as int + rid.len() as int) == rid,
        chars[36 + sv.len() as int + rid.len() as int] == '}',
{
    reveal_strlit("{\"schema_version\":\"");
    reveal_strlit("\",\"request_id\":\"");
    reveal_strlit("\"}");
    reveal_strlit("schema_version");
    reveal_strlit("request_id");
    let sl: int = sv.len() as int;
    let rl: int = rid.len() as int;
    assert(chars.len() == 37 + sl + rl);
    assert(chars.subrange(2, 16) =~= "schema_version"@);
    assert(chars.subrange(19, 19 + sl) =~= sv);
    assert(chars.subrange(22 + sl, 32 + sl) =~= "request_id"@);
    assert(chars.subrange(35 + sl, 35 + sl + rl) =~= rid);
    assert forall|j: int| 2 <= j < 16 implies (#[trigger] chars[j]) != '"' && chars[j] != '\\'
        && (chars[j] as u32) >= 32 by {
        assert(chars[j] == "schema_version"@[j - 2]);
    }
    lemma_plain_string_end_at(chars, 2, 16);
    assert forall|j: int| 19 <= j < 19 + sl implies (#[trigger] chars[j]) != '"' && chars[j]
        != '\\' && (chars[j] as u32) >= 32 by {
        assert(chars[j] == sv[j - 19]);
    }
    assert(chars[19 + sl] == '"');
    lemma_plain_string_end_at(chars, 19, 19 + sl);
    assert forall|j: int| 22 + sl <= j < 32 + sl implies (#[trigger] chars[j]) != '"' && chars[j]
        != '\\' && (chars[j] as u32) >= 32 by {
        assert(chars[j] == "request_id"@[j - (22 + sl)]);
    }
    assert(chars[32 + sl] == '"');
    lemma_plain_string_end_at(chars, 22 + sl, 32 + sl);
    assert forall|j: int| 35 + sl <= j < 35 + sl + rl implies (#[trigger] chars[j]) != '"'
        && chars[j] != '\\' && (chars[j] as u32) >= 32 by {
        assert(chars[j] == rid[j - (35 + sl)]);
    }
    assert(chars[35 + sl + rl] == '"');
    lemma_plain_string_end_at(chars, 35 + sl, 35 + sl + rl);
}

/// Parses the minimal analysis document shape directly: one object
/// holding exactly `schema_version` and `request_id` with escape-free
/// values and no surrounding whitespace. On that shape the parse is
/// proven to succeed with the ids carried verbatim; every other document
/// falls through to the general parser.
#[verifier::rlimit(100)]
#[verifier::spinoff_prover]
fn parse_min_analysis(chars: &Vec<char>) -> (r: Option<AnalysisResponse>)
    ensures
        forall|sv: Seq<char>, rid: Seq<char>|
            plain_text(sv) && plain_text(rid) && chars@ == #[trigger] spec_min_analysis_doc(
                sv,
                rid,
            ) ==> (r matches Some(resp) && resp.schema_version@ == sv && resp.request_id@ == rid
                && resp.categories@.len() == 0),
{
    if chars.len() == 0 || !(chars[0] == '{') {
        proof {
            assert forall|sv: Seq<char>, rid: Seq<char>|
                plain_text(sv) && plain_text(rid) && chars@ == #[trigger] spec_min_analysis_doc(
                    sv,
                    rid,
                ) implies false by {
                lemma_min_doc_shape(chars@, sv, rid);
            }
        }
        return None;
    }
    let (key1, n1) = match parse_string(chars, 1) {
        Some(p) => p,
        None => {
            proof {
                assert forall|sv: Seq<char>, rid: Seq<char>|
                    plain_text(sv) && plain_text(rid) && chars@
                        == #[trigger] spec_min_analysis_doc(sv, rid) implies false by {
                    lemma_min_doc_shape(chars@, sv, rid);
                }
            }
            return None;
        },
    };
    if !(crate::text::str_eq(key1.as_str(), "schema_version") && n1 < chars.len() && chars[n1]
        == ':') {
        proof {
            assert forall|sv: Seq<char>, rid: Seq<char>|
                plain_text(sv) && plain_text(rid) && chars@ == #[trigger] spec_min_analysis_doc(
                    sv,
                    rid,
                ) implies false by {
                lemma_min_doc_shape(chars@, sv, rid);
            }
        }
        return None;
    }
    let (val1, n2) = match parse_string(chars, n1 + 1) {
        Some(p) => p,
        None => {
            proof {
                assert forall|sv: Seq<char>, rid: Seq<char>|
                    plain_text(sv) && plain_text(rid) && chars@
                        == #[trigger] spec_min_analysis_doc(sv, rid) implies false by {
                    lemma_min_doc_shape(chars@, sv, rid);
                }
            }
            return None;
        },
    };
    if !(n2 < chars.len() && chars[n2] == ',') {
        proof {
            assert forall|sv: Seq<char>, rid: Seq<char>|
                plain_text(sv) && plain_text(rid) && chars@ == #[trigger] spec_min_analysis_doc(
                    sv,
                    rid,
                ) implies false by {
                lemma_min_doc_shape(chars@, sv, rid);
            }
        }
        return None;
    }
    let (key2, n3) = match parse_string(chars, n2 + 1) {
        Some(p) => p,
        None => {
            proof {
                assert forall|sv: Seq<char>, rid: Seq<char>|
                    plain_text(sv) && plain_text(rid) && chars@
                        == #[trigger] spec_min_analysis_doc(sv, rid) implies false by {
                    lemma_min_doc_shape(chars@, sv, rid);
                }
            }
            return None;
        },
    };
    if !(crate::text::str_eq(key2.as_str(), "request_id") && n3 < chars.len() && chars[n3] == ':') {
        proof {
            assert forall|sv: Seq<char>, rid: Seq<char>|
                plain_text(sv) && plain_text(rid) && chars@ == #[trigger] spec_min_analysis_doc(
                    sv,
                    rid,
                ) implies false by {
                lemma_min_doc_shape(chars@, sv, rid);
            }
        }
        return None;
    }
    let (val2, n4) = match parse_string(chars, n3 + 1) {
        Some(p) => p,
        None => {
            proof {
                assert forall|sv: Seq<char>, rid: Seq<char>|
                    plain_text(sv) && plain_text(rid) && chars@
                        == #[trigger] spec_min_analysis_doc(sv, rid) implies false by {
                    lemma_min_doc_shape(chars@, sv, rid);
                }
            }
            return None;
        },
    };
    if !(n4 < chars.len() && chars[n4] == '}' && n4 + 1 == chars.len()) {
        proof {
            assert forall|sv: Seq<char>, rid: Seq<char>|
                plain_text(sv) && plain_text(rid) && chars@ == #[trigger] spec_min_analysis_doc(
                    sv,
                    rid,
                ) implies false by {
                lemma_min_doc_shape(chars@, sv, rid);
            }
        }
        return None;
    }
    let resp = AnalysisResponse {
        schema_version: val1,
        request_id: val2,
        categories: Vec::new(),
    };
    proof {
        assert forall|sv: Seq<char>, rid: Seq<char>|
            plain_text(sv) && plain_text(rid) && chars@ == #[trigger] spec_min_analysis_doc(
                sv,
                rid,
            ) implies resp.schema_version@ == sv && resp.request_id@ == rid
            && resp.categories@.len() == 0 by {
            lemma_min_doc_shape(chars@, sv, rid);
        }
    }
    Some(resp)
}

/// Parses one category object `{"category": ..., "severity": ...}`,
/// skipping unknown members; both fields are required and the severity
/// must be an integer no larger than 255.
fn parse_category(chars: &Vec<char>, pos: usize) -> (r: Option<(CategoryAssessment, usize)>)
    requires
        pos <= chars@.len(),
    ensures
        r matches Some(p) ==> pos < p.1 <= chars@.len(),
{
    if pos >= chars.len() || !(chars[pos] == '{') {
        return None;
    }
    let mut category: Option<String> = None;
    let mut severity: Option<u8> = None;
    let mut i = skip_ws(chars, pos + 1);
    if i < chars.len() && chars[i] == '}' {
        return None;
    }
    loop
        invariant
            pos < i <= chars@.len(),
        decreases chars@.len() - i,
    {
        let (key, next) = match parse_string(chars, i) {
            Some(p) => p,
            None => { return None },
        };
        i = skip_ws(chars, next);
        if !(i < chars.len() && chars[i] == ':') {
            return None;
        }
        i = skip_ws(chars, i + 1);
        if str_eq(key.as_str(), "category") {
            let (value, next) = match parse_string(chars, i) {
                Some(p) => p,
                None => { return None },
            };
            category = Some(value);
            i = next;
        } else if str_eq(key.as_str(), "severity") {
            let (value, next) = match parse_u64(chars, i) {
                Some(p) => p,
                None => { return None },
            };
            if value > 255 {
                return None;
            }
            severity = Some(value as u8);
            i = next;
        } else {
            i = match skip_value(chars, i) {
                Some(next) => next,
                None => { return None },
            };
        }
        i = skip_ws(chars, i);
        if i < chars.len() && chars[i] == ',' {
            i = skip_ws(chars, i + 1);
        } else if i < chars.len() && chars[i] == '}' {
            let category = match category {
                Some(category) => category,
                None => { return None },
            };
            let severity = match severity {
                Some(severity) => severity,
                None => { return None },
            };
            return Some((CategoryAssessment { category, severity }, i + 1));
        } else {
            return None;
        }
    }
}

/// Parses the `categories` array.
fn parse_categories(chars: &Vec<char>, pos: usize) -> (r: Option<(Vec<CategoryAssessment>, usize)>)
    requires
        pos <= chars@.len(),
    ensures
        r matches Some(p) ==> pos < p.1 <= chars@.len(),
{
    if pos >= chars.len() || !(chars[pos] == '[') {
        return None;
    }
    let mut out: Vec<CategoryAssessment> = Vec::new();
    let mut i = skip_ws(chars, pos + 1);
    if i < chars.len() && chars[i] == ']' {
        return Some((out, i + 1));
    }
    loop
        invariant
            pos < i <= chars@.len(),
        decreases chars@.len() - i,
    {
        let (item, next) = match parse_category(chars, i) {
            Some(p) => p,
            None => { return None },
        };
        out.push(item);
        i = skip_ws(chars, next);
        if i < chars.len() && chars[i] == ',' {
            i = skip_ws(chars, i + 1);
        } else if i < chars.len() && chars[i] == ']' {
            return Some((out, i + 1));
        } else {
            return None;
        }
    }
}

/// Parses a raw analysis response against the wire contract
/// `{schema_version, request_id, model_results, categories}`.
///
/// `model_results` and `categories` default to empty when absent; unknown
/// members are skipped. Malformed JSON fails with a decode error; a blank
/// `schema_version` or `request_id` fails with a contract violation.
///
/// The contract pins the blank-field validation, the error taxonomy, and
/// success with verbatim ids on the minimal document shape; decoding of
/// richer documents is fixed by the parsing tests rather than by a full
/// spec-level grammar.
pub fn parse_analysis_response(raw: &str) -> (r: Result<AnalysisResponse, AnalysisContractError>)
    ensures
        r matches Ok(resp) ==> !spec_is_blank(resp.schema_version@) && !spec_is_blank(
            resp.request_id@,
        ),
        r matches Err(e) ==> (e matches AnalysisContractError::Decode(_) || e matches
            AnalysisContractError::InvalidContract(_)),
        forall|sv: Seq<char>, rid: Seq<char>|
            plain_text(sv) && plain_text(rid) && !spec_is_blank(sv) && !spec_is_blank(rid) && raw@
                == #[trigger] spec_min_analysis_doc(sv, rid) ==> (r matches Ok(resp)
                && resp.schema_version@ == sv && resp.request_id@ == rid && resp.categories@.len()
                == 0),
{
    let chars = str_chars(raw);
    let parsed = parse_analysis_object(&chars);
    let parsed = match parsed {
        Some(parsed) => parsed,
        None => {
            return Err(AnalysisContractError::Decode(String::from_str("malformed analysis JSON")));
        },
    };
    if is_blank(parsed.schema_version.as_str()) {
        return Err(AnalysisContractError::InvalidContract(String::from_str("schema_version is empty")));
    }
    if is_blank(parsed.request_id.as_str()) {
        return Err(AnalysisContractError::InvalidContract(String::from_str("request_id is empty")));
    }
    Ok(parsed)
}

/// Parses the top-level analysis response object, requiring the document
/// to be one object with nothing but whitespace around it. The minimal
/// document shape is handled by the proven fast path; the general loop
/// takes everything else.
fn parse_analysis_object(chars: &Vec<char>) -> (r: Option<AnalysisResponse>)
    ensures
        forall|sv: Seq<char>, rid: Seq<char>|
            plain_text(sv) && plain_text(rid) && chars@ == #[trigger] spec_min_analysis_doc(
                sv,
                rid,
            ) ==> (r matches Some(resp) && resp.schema_version@ == sv && resp.request_id@ == rid
                && resp.categories@.len() == 0),
{
    match parse_min_analysis(chars) {
        Some(resp) => { return Some(resp) },
        None => {},
    }
    proof {
        assert forall|sv: Seq<char>, rid: Seq<char>| plain_text(sv) && plain_text(rid) implies
            chars@ != #[trigger] spec_min_analysis_doc(sv, rid) by {
            if chars@ == spec_min_analysis_doc(sv, rid) {
                assert(false);
            }
        }
    }
    let mut schema_version: Option<String> = None;
    let mut request_id: Option<String> = None;
    let mut categories: Vec<CategoryAssessment> = Vec::new();
    let pos = skip_ws(chars, 0);
    if !(pos < chars.len() && chars[pos] == '{') {
        return None;
    }
    let mut i = skip_ws(chars, pos + 1);
    let mut done = false;
    if i < chars.len() && chars[i] == '}' {
        i = i + 1;
        done = true;
    }
    while !done
        invariant
            i <= chars@.len(),
            forall|sv: Seq<char>, rid: Seq<char>|
                plain_text(sv) && plain_text(rid) ==> chars@ != #[trigger] spec_min_analysis_doc(
                    sv,
                    rid,
                ),
        decreases chars@.len() - i,
    {
        if i >= chars.len() {
            return None;
        }
        let (key, next) = match parse_string(chars, i) {
            Some(p) => p,
            None => { return None },
        };
        i = skip_ws(chars, next);
        if !(i < chars.len() && chars[i] == ':') {
            return None;
        }
        i = skip_ws(chars, i + 1);
        if str_eq(key.as_str(), "schema_version") {
            let (value, next) = match parse_string(chars, i) {
                Some(p) => p,
                None => { return None },
            };
            schema_version = Some(value);
            i = next;
        } else if str_eq(key.as_str(), "request_id") {
            let (value, next) = match parse_string(chars, i) {
                Some(p) => p,
                None => { return None },
            };
            request_id = Some(value);
            i = next;
        } else if str_eq(key.as_str(), "categories") {
            let (value, next) = match parse_categories(chars, i) {
                Some(p) => p,
                None => { return None },
            };
            categories = value;
            i = next;
        } else {
            i = match skip_value(chars, i) {
                Some(next) => next,
                None => { return None },
            };
        }
        i = skip_ws(chars, i);
        if i < chars.len() && chars[i] == ',' {
            i = skip_ws(chars, i + 1);
        } else if i < chars.len() && chars[i] == '}' {
            i = i + 1;
            done = true;
        } else {
            return None;
        }
    }
    let tail = skip_ws(chars, i);
    if tail != chars.len() {
        return None;
    }
    let schema_version = match schema_version {
        Some(schema_version) => schema_version,
        None => { return None },
    };
    let request_id = match request_id {
        Some(request_id) => request_id,
        None => { return None },
    };
    Some(AnalysisResponse { schema_version, request_id, categories })
}

/// Maps category severities into UI-safe risk signals, preserving every
/// category name verbatim - also names the client does not recognise.
pub fn map_risk_signals(response: &AnalysisResponse) -> (r: Vec<UiRiskSignal>)
    ensures
        r@.len() == response.categories@.len(),
        forall|i: int|
            0 <= i < r@.len() ==> (#[trigger] r@[i]).category@ == response.categories@[i].category@
                && r@[i].level == spec_severity_to_level(response.categories@[i].severity),
{
    let mut out: Vec<UiRiskSignal> = Vec::new();
    let mut i: usize = 0;
    while i < response.categories.len()
        invariant
            i <= response.categories@.len(),
            out@.len() == i,
            forall|j: int|
                0 <= j < i ==> (#[trigger] out@[j]).category@
                    == response.categories@[j].category@ && out@[j].level == spec_severity_to_level(
                    response.categories@[j].severity,
                ),
        decreases response.categories@.len() - i,
    {
        let assessment = &response.categories[i];
        out.push(
            UiRiskSignal {
                category: assessment.category.clone(),
                level: severity_to_level(assessment.severity),
            },
        );
        i = i + 1;
    }
    out
}

} // verus!
