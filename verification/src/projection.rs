//! From a decoded suite to its test records.
//!
//! Every group must name a curve that the requested algorithm begins with, and
//! an approved hash function. Where all do, each case that is not marked
//! acceptable becomes one record, in document order. Where one does not, the
//! first such group is reported and no record is given.

use crate::model::views;
use crate::ecdsa::{TestCaseView, TestGroup, TestGroupView, TestKeyView, TestSuite, TestSuiteView};
use crate::test_info::{TestInfo, TestInfoView};
use crate::text::{decimal, push_decimal, same_text, starts_with};
use crate::wycheproof::{
    case_result, description, description_text, result_byte, CaseResult, SuiteView,
};
use vstd::prelude::*;
use vstd::string::*;

verus! {

/// Whether `sha` names one of the approved hash functions.
pub open spec fn approved_hash(sha: Seq<char>) -> bool {
    sha == "SHA-224"@ || sha == "SHA-256"@ || sha == "SHA-384"@ || sha == "SHA-512"@
}

/// Tests a hash function's name against the approved ones.
pub fn is_approved_hash(sha: &str) -> (r: bool)
    ensures
        r == approved_hash(sha@),
{
    same_text(sha, "SHA-224") || same_text(sha, "SHA-256") || same_text(sha, "SHA-384")
        || same_text(sha, "SHA-512")
}

/// What is expected of every group of a suite.
#[derive(Clone, Copy, Debug, PartialEq, Eq, Structural)]
pub enum Expectation {
    /// The requested algorithm begins with the name of the group's curve.
    CurvePrefix,
    /// The group's hash function is an approved one.
    ApprovedHash,
}

/// A group that does not meet an expectation.
#[derive(Debug, PartialEq, Eq)]
pub struct SchemaViolation {
    /// The index of the group in the suite.
    pub group: usize,
    /// The expectation that the group does not meet.
    pub expectation: Expectation,
    /// The curve that the group names.
    pub curve: String,
    /// The hash function that the group names.
    pub sha: String,
    /// The algorithm that was requested.
    pub algorithm: String,
}

/// A [`SchemaViolation`] as specifications see it.
pub struct SchemaViolationView {
    pub group: int,
    pub expectation: Expectation,
    pub curve: Seq<char>,
    pub sha: Seq<char>,
    pub algorithm: Seq<char>,
}

impl View for SchemaViolation {
    type V = SchemaViolationView;

    open spec fn view(&self) -> SchemaViolationView {
        SchemaViolationView {
            group: self.group as int,
            expectation: self.expectation,
            curve: self.curve@,
            sha: self.sha@,
            algorithm: self.algorithm@,
        }
    }
}

/// The line that reports `violation`: the group by its index, curve and hash
/// function, then the expectation that it does not meet.
pub open spec fn violation_text(violation: SchemaViolationView) -> Seq<char> {
    "group "@ + decimal(violation.group as nat) + " (curve "@ + violation.curve + ", hash "@
        + violation.sha + "): "@ + match violation.expectation {
        Expectation::CurvePrefix => "the algorithm "@ + violation.algorithm
            + " does not begin with the name of the curve"@,
        Expectation::ApprovedHash => "the hash function is not one of SHA-224, SHA-256, SHA-384, SHA-512"@,
    }
}

impl SchemaViolation {
    /// A line of text that reports the violation.
    pub fn message(&self) -> (r: String)
        ensures
            r@ == violation_text(self@),
    {
        let mut out = String::new();
        out.append("group ");
        push_decimal(&mut out, self.group as u64);
        out.append(" (curve ");
        out.append(self.curve.as_str());
        out.append(", hash ");
        out.append(self.sha.as_str());
        out.append("): ");
        match self.expectation {
            Expectation::CurvePrefix => {
                out.append("the algorithm ");
                out.append(self.algorithm.as_str());
                out.append(" does not begin with the name of the curve");
            },
            Expectation::ApprovedHash => {
                out.append("the hash function is not one of SHA-224, SHA-256, SHA-384, SHA-512");
            },
        }
        out
    }
}

/// The expectation that `group` does not meet, the curve's being tested
/// first, or `None` where it meets both.
pub open spec fn broken(group: TestGroupView, algorithm: Seq<char>) -> Option<Expectation> {
    if !group.key.curve.is_prefix_of(algorithm) {
        Some(Expectation::CurvePrefix)
    } else if !approved_hash(group.sha) {
        Some(Expectation::ApprovedHash)
    } else {
        None
    }
}

/// The index of the first of `groups` that does not meet an expectation.
pub open spec fn first_broken(groups: Seq<TestGroupView>, algorithm: Seq<char>) -> Option<int>
    decreases groups.len(),
{
    if groups.len() == 0 {
        None
    } else {
        match first_broken(groups.drop_last(), algorithm) {
            Some(i) => Some(i),
            None => if broken(groups.last(), algorithm) is Some {
                Some(groups.len() - 1)
            } else {
                None
            },
        }
    }
}

/// The report on group `i` of `groups`.
pub open spec fn violation_at(
    groups: Seq<TestGroupView>,
    algorithm: Seq<char>,
    i: int,
) -> SchemaViolationView {
    SchemaViolationView {
        group: i,
        expectation: broken(groups[i], algorithm).unwrap(),
        curve: groups[i].key.curve,
        sha: groups[i].sha,
        algorithm,
    }
}

/// Whether a case becomes a record: every case does but the acceptable ones.
/// What is to become of those is not settled; until it is, they are passed
/// over.
pub open spec fn emitted(case: TestCaseView) -> bool {
    case.case.result != CaseResult::Acceptable
}

/// The five byte fields of the record of `case` under `key`.
pub open spec fn record_data(key: TestKeyView, case: TestCaseView) -> Seq<Seq<u8>> {
    seq![key.wx, key.wy, case.msg, case.sig, seq![result_byte(case.case.result)]]
}

/// The record of `case`, which stands under `key` in `suite`.
pub open spec fn record_of(suite: SuiteView, key: TestKeyView, case: TestCaseView) -> TestInfoView {
    TestInfoView { data: record_data(key, case), desc: description_text(suite, case.case) }
}

/// The records of the cases `tests` under `key`: those that are emitted, in order.
pub open spec fn case_records(
    suite: SuiteView,
    key: TestKeyView,
    tests: Seq<TestCaseView>,
) -> Seq<TestInfoView> {
    tests.filter(|c: TestCaseView| emitted(c)).map_values(
        |c: TestCaseView| record_of(suite, key, c),
    )
}

/// The records of `groups`: those of each group, one group after the other.
pub open spec fn group_records(suite: SuiteView, groups: Seq<TestGroupView>) -> Seq<TestInfoView> {
    groups.map_values(|g: TestGroupView| case_records(suite, g.key, g.tests)).flatten()
}

/// The records of a suite.
pub open spec fn records(suite: TestSuiteView) -> Seq<TestInfoView> {
    group_records(suite.suite, suite.test_groups)
}

/// What a suite gives for `algorithm`: its records where every group meets
/// both expectations, else the report on the first group that does not.
pub open spec fn projected(suite: TestSuiteView, algorithm: Seq<char>) -> Result<
    Seq<TestInfoView>,
    SchemaViolationView,
> {
    match first_broken(suite.test_groups, algorithm) {
        Some(i) => Err(violation_at(suite.test_groups, algorithm, i)),
        None => Ok(records(suite)),
    }
}

/// One more case at the end adds its record at the end, or nothing where it
/// is not emitted.
pub proof fn lemma_case_records_push(
    suite: SuiteView,
    key: TestKeyView,
    tests: Seq<TestCaseView>,
    case: TestCaseView,
)
    ensures
        case_records(suite, key, tests.push(case)) == if emitted(case) {
            case_records(suite, key, tests).push(record_of(suite, key, case))
        } else {
            case_records(suite, key, tests)
        },
{
    tests.lemma_filter_push(case, |c: TestCaseView| emitted(c));
}

/// No cases give no records.
pub proof fn lemma_case_records_empty(suite: SuiteView, key: TestKeyView)
    ensures
        case_records(suite, key, Seq::empty()) == Seq::<TestInfoView>::empty(),
{
    reveal(Seq::filter);
}

/// One more group at the end adds its records at the end.
pub proof fn lemma_group_records_push(
    suite: SuiteView,
    groups: Seq<TestGroupView>,
    group: TestGroupView,
)
    ensures
        group_records(suite, groups.push(group)) == group_records(suite, groups) + case_records(
            suite,
            group.key,
            group.tests,
        ),
{
    let each = |g: TestGroupView| case_records(suite, g.key, g.tests);
    assert(groups.push(group).map_values(each) =~= groups.map_values(each).push(each(group)));
    groups.map_values(each).lemma_flatten_push(each(group));
}

/// No groups give no records.
pub proof fn lemma_group_records_empty(suite: SuiteView)
    ensures
        group_records(suite, Seq::empty()) == Seq::<TestInfoView>::empty(),
{
}

/// A group that does not meet an expectation, after groups that all do, is
/// the first such group of the whole sequence.
pub proof fn lemma_first_broken_found(groups: Seq<TestGroupView>, algorithm: Seq<char>, i: int)
    requires
        0 <= i < groups.len(),
        first_broken(groups.take(i), algorithm) is None,
        broken(groups[i], algorithm) is Some,
    ensures
        first_broken(groups, algorithm) == Some(i),
    decreases groups.len(),
{
    if i < groups.len() - 1 {
        assert(groups.drop_last().take(i) =~= groups.take(i));
        lemma_first_broken_found(groups.drop_last(), algorithm, i);
    }
}

fn violation(
    index: usize,
    expectation: Expectation,
    group: &TestGroup,
    algorithm: &str,
) -> (r: SchemaViolation)
    ensures
        r@ == (SchemaViolationView {
            group: index as int,
            expectation,
            curve: group@.key.curve,
            sha: group@.sha,
            algorithm: algorithm@,
        }),
{
    SchemaViolation {
        group: index,
        expectation,
        curve: group.key.curve.clone(),
        sha: group.sha.clone(),
        algorithm: algorithm.to_owned(),
    }
}

/// Turns a decoded suite into its records for `algorithm`.
///
/// Gives the records exactly where every group names a curve that
/// `algorithm` begins with and an approved hash function; else the first
/// group that does not, with the expectation it misses.
pub fn project(suite: &TestSuite, algorithm: &str) -> (r: Result<Vec<TestInfo>, SchemaViolation>)
    ensures
        match r {
            Ok(infos) => projected(suite@, algorithm@) == Ok::<
                Seq<TestInfoView>,
                SchemaViolationView,
            >(views(infos@)),
            Err(e) => projected(suite@, algorithm@) == Err::<
                Seq<TestInfoView>,
                SchemaViolationView,
            >(e@),
        },
{
    let ghost groups = suite@.test_groups;
    let ghost header = suite@.suite;
    let mut infos: Vec<TestInfo> = Vec::new();
    let mut i: usize = 0;
    proof {
        lemma_group_records_empty(header);
    }
    while i < suite.test_groups.len()
        invariant
            i <= suite.test_groups.len(),
            groups == suite@.test_groups,
            header == suite@.suite,
            first_broken(groups.take(i as int), algorithm@) is None,
            views(infos@) == group_records(header, groups.take(i as int)),
        decreases suite.test_groups.len() - i,
    {
        let group = &suite.test_groups[i];
        if !starts_with(algorithm, group.key.curve.as_str()) {
            proof {
                lemma_first_broken_found(groups, algorithm@, i as int);
            }
            return Err(violation(i, Expectation::CurvePrefix, group, algorithm));
        }
        if !is_approved_hash(group.sha.as_str()) {
            proof {
                lemma_first_broken_found(groups, algorithm@, i as int);
            }
            return Err(violation(i, Expectation::ApprovedHash, group, algorithm));
        }
        let ghost done = group_records(header, groups.take(i as int));
        let mut j: usize = 0;
        proof {
            lemma_case_records_empty(header, group@.key);
        }
        while j < group.tests.len()
            invariant
                j <= group.tests.len(),
                header == suite@.suite,
                views(infos@) == done + case_records(
                    header,
                    group@.key,
                    group@.tests.take(j as int),
                ),
            decreases group.tests.len() - j,
        {
            let test = &group.tests[j];
            proof {
                assert(group@.tests.take(j + 1) =~= group@.tests.take(j as int).push(test@));
                lemma_case_records_push(header, group@.key, group@.tests.take(j as int), test@);
            }
            match test.case.result {
                CaseResult::Acceptable => {},
                _ => {
                    let info = TestInfo {
                        data: vec![
                            group.key.wx.clone(),
                            group.key.wy.clone(),
                            test.msg.clone(),
                            test.sig.clone(),
                            vec![case_result(&test.case)],
                        ],
                        desc: description(&suite.suite, &test.case),
                    };
                    proof {
                        assert(info.data@[4]@ =~= seq![result_byte(test@.case.result)]);
                        assert(views(info.data@) =~= record_data(group@.key, test@));
                    }
                    let ghost before = views(infos@);
                    infos.push(info);
                    assert(views(infos@) =~= before.push(info@));
                },
            }
            j += 1;
        }
        proof {
            assert(group@.tests.take(group.tests.len() as int) =~= group@.tests);
            assert(groups.take(i + 1) =~= groups.take(i as int).push(group@));
            lemma_group_records_push(header, groups.take(i as int), group@);
            assert(groups.take(i + 1).drop_last() =~= groups.take(i as int));
        }
        i += 1;
    }
    assert(groups.take(suite.test_groups.len() as int) =~= groups);
    Ok(infos)
}

} // verus!
