//! What every Wycheproof test suite has in common: the suite header, the
//! per-case header, the three-valued expected result, and the text that
//! describes one case.

use crate::model::views;
use crate::text::{push_signed_decimal, same_text, signed_decimal};
use vstd::prelude::*;
use vstd::string::*;

verus! {

/// The expected outcome of a test case.
#[derive(Clone, Copy, Debug, PartialEq, Eq, Structural)]
pub enum CaseResult {
    /// The operation must succeed.
    Valid,
    /// The operation must fail.
    Invalid,
    /// Legal but discouraged parameters: an implementation may go either way.
    Acceptable,
}

/// The header of a test suite.
#[derive(Debug, PartialEq, Eq)]
pub struct Suite {
    /// The algorithm under test, as the suite names it.
    pub algorithm: String,
    /// The version of the generator that wrote the suite.
    pub generator_version: String,
    /// The names of the flags that the suite annotates, in the order of the
    /// decoded `notes` object.
    pub notes: Vec<String>,
}

/// A [`Suite`] as specifications see it.
pub struct SuiteView {
    pub algorithm: Seq<char>,
    pub generator_version: Seq<char>,
    pub notes: Seq<Seq<char>>,
}

impl View for Suite {
    type V = SuiteView;

    open spec fn view(&self) -> SuiteView {
        SuiteView {
            algorithm: self.algorithm@,
            generator_version: self.generator_version@,
            notes: views(self.notes@),
        }
    }
}

/// The header of a test group.
#[derive(Debug, PartialEq, Eq)]
pub struct Group {
    /// The kind of test that the group holds, as the suite names it.
    pub group_type: String,
}

/// A [`Group`] as specifications see it.
pub struct GroupView {
    pub group_type: Seq<char>,
}

impl View for Group {
    type V = GroupView;

    open spec fn view(&self) -> GroupView {
        GroupView { group_type: self.group_type@ }
    }
}

/// The header of a test case.
#[derive(Debug, PartialEq, Eq)]
pub struct Case {
    /// The identifier of the case within its suite.
    pub case_id: i64,
    /// What the case is about.
    pub comment: String,
    /// The expected outcome.
    pub result: CaseResult,
    /// The flags set on the case.
    pub flags: Vec<String>,
}

/// A [`Case`] as specifications see it.
pub struct CaseView {
    pub case_id: int,
    pub comment: Seq<char>,
    pub result: CaseResult,
    pub flags: Seq<Seq<char>>,
}

impl View for Case {
    type V = CaseView;

    open spec fn view(&self) -> CaseView {
        CaseView {
            case_id: self.case_id as int,
            comment: self.comment@,
            result: self.result,
            flags: views(self.flags@),
        }
    }
}

/// The expected result that the text `s` names.
pub open spec fn result_named(s: Seq<char>) -> Option<CaseResult> {
    if s == "valid"@ {
        Some(CaseResult::Valid)
    } else if s == "invalid"@ {
        Some(CaseResult::Invalid)
    } else if s == "acceptable"@ {
        Some(CaseResult::Acceptable)
    } else {
        None
    }
}

/// Reads an expected result from its name: `valid`, `invalid` or `acceptable`.
pub fn parse_result(s: &str) -> (r: Option<CaseResult>)
    ensures
        r == result_named(s@),
{
    if same_text(s, "valid") {
        Some(CaseResult::Valid)
    } else if same_text(s, "invalid") {
        Some(CaseResult::Invalid)
    } else if same_text(s, "acceptable") {
        Some(CaseResult::Acceptable)
    } else {
        None
    }
}

/// The byte that stands for an expected result: 0 for invalid, 1 otherwise.
pub open spec fn result_byte(result: CaseResult) -> u8 {
    match result {
        CaseResult::Invalid => 0,
        _ => 1,
    }
}

/// The expected result of `case` as a single byte.
pub fn case_result(case: &Case) -> (r: u8)
    ensures
        r == result_byte(case.result),
{
    match case.result {
        CaseResult::Invalid => 0,
        _ => 1,
    }
}

/// `parts` with `sep` between each two neighbours.
pub open spec fn joined(parts: Seq<Seq<char>>, sep: Seq<char>) -> Seq<char>
    decreases parts.len(),
{
    if parts.len() == 0 {
        Seq::empty()
    } else if parts.len() == 1 {
        parts[0]
    } else {
        joined(parts.drop_last(), sep) + sep + parts.last()
    }
}

/// The text that describes `case` of `suite`: the algorithm, the generator
/// version in parentheses, the case number, the flags in brackets and the
/// comment.
pub open spec fn description_text(suite: SuiteView, case: CaseView) -> Seq<char> {
    suite.algorithm + " ("@ + suite.generator_version + ") case "@ + signed_decimal(case.case_id)
        + " ["@ + joined(case.flags, ","@) + "] "@ + case.comment
}

/// Appends `parts`, separated by commas, to `out`.
fn push_joined(out: &mut String, parts: &Vec<String>)
    ensures
        final(out)@ == old(out)@ + joined(views(parts@), ","@),
{
    let ghost before = out@;
    let ghost texts = views(parts@);
    let mut i: usize = 0;
    while i < parts.len()
        invariant
            i <= parts.len(),
            texts == views(parts@),
            out@ == before + joined(texts.take(i as int), ","@),
        decreases parts.len() - i,
    {
        let ghost sofar = texts.take(i as int);
        if i > 0 {
            out.append(",");
        }
        out.append(parts[i].as_str());
        proof {
            let next = texts.take(i + 1);
            assert(next.drop_last() =~= sofar);
        }
        i += 1;
    }
    assert(texts.take(parts.len() as int) =~= texts);
}

/// Builds the description of one case of a suite.
pub fn description(suite: &Suite, case: &Case) -> (r: String)
    ensures
        r@ == description_text(suite@, case@),
{
    let mut out = String::new();
    out.append(suite.algorithm.as_str());
    out.append(" (");
    out.append(suite.generator_version.as_str());
    out.append(") case ");
    push_signed_decimal(&mut out, case.case_id);
    out.append(" [");
    push_joined(&mut out, &case.flags);
    out.append("] ");
    out.append(case.comment.as_str());
    out
}

} // verus!
