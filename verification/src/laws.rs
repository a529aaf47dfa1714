//! What holds of every generation: which cases become records, in which
//! order, with which fields, and when no record is given at all.

use crate::ecdsa::{
    decoded, generated, outcome, GenerateError, GenerateErrorView, SchemaVersion, TestCaseView,
    TestGroupView, TestKeyView, TestSuiteView,
};
use crate::test_info::{TestInfo, TestInfoView};
use crate::projection::{
    approved_hash, broken, case_records, emitted, first_broken, group_records,
    lemma_case_records_empty, lemma_case_records_push, lemma_group_records_empty,
    lemma_group_records_push, projected, record_of, records,
};
use crate::wycheproof::{result_byte, CaseResult, SuiteView};
use vstd::prelude::*;

verus! {

/// Where a case stands in a suite: the index of its group, and its own index
/// among the cases of that group.
pub struct Place {
    pub group: int,
    pub case: int,
}

/// Whether `a` comes before `b` in document order.
pub open spec fn precedes(a: Place, b: Place) -> bool {
    a.group < b.group || (a.group == b.group && a.case < b.case)
}

/// Whether `place` is the place of a case of `groups`.
pub open spec fn in_suite(groups: Seq<TestGroupView>, place: Place) -> bool {
    &&& 0 <= place.group < groups.len()
    &&& 0 <= place.case < groups[place.group].tests.len()
}

/// The case that stands at `place`.
pub open spec fn case_at(groups: Seq<TestGroupView>, place: Place) -> TestCaseView {
    groups[place.group].tests[place.case]
}

/// The indices of the emitted cases among `tests`, ascending.
pub open spec fn kept(tests: Seq<TestCaseView>) -> Seq<int>
    decreases tests.len(),
{
    if tests.len() == 0 {
        Seq::empty()
    } else if emitted(tests.last()) {
        kept(tests.drop_last()).push(tests.len() - 1)
    } else {
        kept(tests.drop_last())
    }
}

/// The places of the emitted cases of `groups`, in document order. The place
/// at index `k` is where record `k` comes from.
pub open spec fn places(groups: Seq<TestGroupView>) -> Seq<Place>
    decreases groups.len(),
{
    if groups.len() == 0 {
        Seq::empty()
    } else {
        places(groups.drop_last()) + kept(groups.last().tests).map_values(
            |j: int| Place { group: groups.len() - 1, case: j },
        )
    }
}

/// The number of cases of `groups` that are not marked acceptable.
pub open spec fn emitted_count(groups: Seq<TestGroupView>) -> nat
    decreases groups.len(),
{
    if groups.len() == 0 {
        0
    } else {
        emitted_count(groups.drop_last()) + groups.last().tests.filter(
            |c: TestCaseView| emitted(c),
        ).len()
    }
}

/// Whether entry `k` of `kept(tests)` is the index of an emitted case whose
/// record is record `k` of the group.
pub open spec fn kept_at(suite: SuiteView, key: TestKeyView, tests: Seq<TestCaseView>, k: int) -> bool {
    let j = kept(tests)[k];
    &&& 0 <= j < tests.len()
    &&& emitted(tests[j])
    &&& case_records(suite, key, tests)[k] == record_of(suite, key, tests[j])
}

/// Within one group: the kept indices are those of the emitted cases,
/// ascending, and record `k` is the record of the case at kept index `k`.
proof fn lemma_kept(suite: SuiteView, key: TestKeyView, tests: Seq<TestCaseView>)
    ensures
        kept(tests).len() == case_records(suite, key, tests).len(),
        kept(tests).len() == tests.filter(|c: TestCaseView| emitted(c)).len(),
        forall|k: int| 0 <= k < kept(tests).len() ==> #[trigger] kept_at(suite, key, tests, k),
        forall|a: int, b: int|
            0 <= a < b < kept(tests).len() ==> (#[trigger] kept(tests)[a]) < (#[trigger] kept(
                tests,
            )[b]),
        forall|j: int|
            0 <= j < tests.len() && emitted(#[trigger] tests[j]) ==> exists|k: int|
                0 <= k < kept(tests).len() && kept(tests)[k] == j,
    decreases tests.len(),
{
    if tests.len() == 0 {
        lemma_case_records_empty(suite, key);
        reveal(Seq::filter);
    } else {
        let rest = tests.drop_last();
        let last = tests.last();
        lemma_kept(suite, key, rest);
        assert(tests =~= rest.push(last));
        lemma_case_records_push(suite, key, rest, last);
        rest.lemma_filter_push(last, |c: TestCaseView| emitted(c));
        assert forall|k: int| 0 <= k < kept(tests).len() implies #[trigger] kept_at(
            suite,
            key,
            tests,
            k,
        ) by {
            if k < kept(rest).len() {
                assert(kept_at(suite, key, rest, k));
            }
        }
        assert forall|a: int, b: int| 0 <= a < b < kept(tests).len() implies (#[trigger] kept(
            tests,
        )[a]) < (#[trigger] kept(tests)[b]) by {
            assert(kept_at(suite, key, rest, a));
        }
        assert forall|j: int| 0 <= j < tests.len() && emitted(#[trigger] tests[j]) implies exists|
            k: int,
        |
            0 <= k < kept(tests).len() && kept(tests)[k] == j by {
            if j < rest.len() {
                let k = choose|k: int| 0 <= k < kept(rest).len() && kept(rest)[k] == j;
                assert(kept(tests)[k] == j);
            } else {
                assert(kept(tests)[kept(tests).len() - 1] == j);
            }
        }
    }
}

/// Whether entry `k` of `places(groups)` is the place of an emitted case
/// whose record is record `k` of `groups`.
pub open spec fn placed(suite: SuiteView, groups: Seq<TestGroupView>, k: int) -> bool {
    let place = places(groups)[k];
    &&& in_suite(groups, place)
    &&& emitted(case_at(groups, place))
    &&& group_records(suite, groups)[k] == record_of(
        suite,
        groups[place.group].key,
        case_at(groups, place),
    )
}

/// Over all groups: the places are those of the emitted cases, in document
/// order, and record `k` is the record of the case at place `k`.
proof fn lemma_places(suite: SuiteView, groups: Seq<TestGroupView>)
    ensures
        places(groups).len() == group_records(suite, groups).len(),
        places(groups).len() == emitted_count(groups),
        forall|k: int| 0 <= k < places(groups).len() ==> #[trigger] placed(suite, groups, k),
        forall|a: int, b: int|
            0 <= a < b < places(groups).len() ==> precedes(
                #[trigger] places(groups)[a],
                #[trigger] places(groups)[b],
            ),
        forall|place: Place|
            in_suite(groups, place) && emitted(#[trigger] case_at(groups, place)) ==> exists|
                k: int,
            |
                0 <= k < places(groups).len() && places(groups)[k] == place,
    decreases groups.len(),
{
    if groups.len() == 0 {
        lemma_group_records_empty(suite);
    } else {
        let rest = groups.drop_last();
        let last = groups.last();
        let g = groups.len() - 1;
        let head = places(rest);
        lemma_places(suite, rest);
        lemma_kept(suite, last.key, last.tests);
        assert(groups =~= rest.push(last));
        lemma_group_records_push(suite, rest, last);
        assert forall|k: int| 0 <= k < places(groups).len() implies #[trigger] placed(
            suite,
            groups,
            k,
        ) by {
            if k < head.len() {
                assert(placed(suite, rest, k));
            } else {
                assert(kept_at(suite, last.key, last.tests, k - head.len()));
            }
        }
        assert forall|a: int, b: int| 0 <= a < b < places(groups).len() implies precedes(
            #[trigger] places(groups)[a],
            #[trigger] places(groups)[b],
        ) by {
            if a < head.len() {
                assert(placed(suite, rest, a));
            }
        }
        assert forall|place: Place|
            in_suite(groups, place) && emitted(
                #[trigger] case_at(groups, place),
            ) implies exists|k: int| 0 <= k < places(groups).len() && places(groups)[k] == place by {
            if place.group < g {
                assert(case_at(rest, place) == case_at(groups, place));
                let k = choose|k: int| 0 <= k < head.len() && head[k] == place;
                assert(places(groups)[k] == place);
            } else {
                let k = choose|k: int|
                    0 <= k < kept(last.tests).len() && kept(last.tests)[k] == place.case;
                assert(places(groups)[head.len() + k] == place);
            }
        }
    }
}

/// The index of the first group that does not meet an expectation is that of
/// such a group, and every group before it meets both; where there is no such
/// index, every group meets both.
pub proof fn lemma_first_broken_is_least(groups: Seq<TestGroupView>, algorithm: Seq<char>)
    ensures
        match first_broken(groups, algorithm) {
            Some(i) => {
                &&& 0 <= i < groups.len()
                &&& broken(groups[i], algorithm) is Some
                &&& forall|j: int| 0 <= j < i ==> broken(#[trigger] groups[j], algorithm) is None
            },
            None => forall|j: int|
                0 <= j < groups.len() ==> broken(#[trigger] groups[j], algorithm) is None,
        },
    decreases groups.len(),
{
    if groups.len() > 0 {
        let rest = groups.drop_last();
        lemma_first_broken_is_least(rest, algorithm);
        assert(forall|j: int| 0 <= j < rest.len() ==> rest[j] == groups[j]);
    }
}

/// The place of the case that record `k` of `suite` comes from.
pub open spec fn origin(suite: TestSuiteView, k: int) -> Place {
    places(suite.test_groups)[k]
}

/// Whether `record` is the record of the case that stands at `place` in `suite`.
pub open spec fn is_record_of(suite: TestSuiteView, record: TestInfoView, place: Place) -> bool {
    &&& in_suite(suite.test_groups, place)
    &&& record == record_of(
        suite.suite,
        suite.test_groups[place.group].key,
        case_at(suite.test_groups, place),
    )
}

/// Two generations from the same bytes, for the same algorithm and in the
/// same layout, give the same: the same records with the same bytes and the
/// same text, or the same error. The key size plays no part.
pub proof fn lemma_generation_is_deterministic(
    data: Seq<u8>,
    algorithm: Seq<char>,
    version: SchemaVersion,
    first: Result<Vec<TestInfo>, GenerateError>,
    second: Result<Vec<TestInfo>, GenerateError>,
)
    requires
        outcome(first) == generated(data, algorithm, version),
        outcome(second) == generated(data, algorithm, version),
    ensures
        outcome(first) == outcome(second),
{
}

/// A suite has as many records as it has cases that are not marked
/// acceptable, and no record comes from an acceptable case.
pub proof fn lemma_acceptable_cases_are_left_out(suite: TestSuiteView)
    ensures
        records(suite).len() == emitted_count(suite.test_groups),
        forall|k: int|
            0 <= k < records(suite).len() ==> {
                &&& is_record_of(suite, records(suite)[k], #[trigger] origin(suite, k))
                &&& case_at(suite.test_groups, origin(suite, k)).case.result
                    != CaseResult::Acceptable
            },
{
    lemma_places(suite.suite, suite.test_groups);
    assert forall|k: int| 0 <= k < records(suite).len() implies {
        &&& is_record_of(suite, records(suite)[k], #[trigger] origin(suite, k))
        &&& case_at(suite.test_groups, origin(suite, k)).case.result != CaseResult::Acceptable
    } by {
        assert(placed(suite.suite, suite.test_groups, k));
    }
}

/// The records stand in document order: of two records, the earlier comes
/// from the earlier group, or from the earlier case of the same group. And
/// every case that is not marked acceptable has its record.
pub proof fn lemma_records_keep_document_order(suite: TestSuiteView)
    ensures
        forall|k: int|
            0 <= k < records(suite).len() ==> is_record_of(
                suite,
                records(suite)[k],
                #[trigger] origin(suite, k),
            ),
        forall|a: int, b: int|
            0 <= a < b < records(suite).len() ==> precedes(
                #[trigger] origin(suite, a),
                #[trigger] origin(suite, b),
            ),
        forall|place: Place|
            in_suite(suite.test_groups, place) && emitted(
                #[trigger] case_at(suite.test_groups, place),
            ) ==> exists|k: int| 0 <= k < records(suite).len() && origin(suite, k) == place,
{
    lemma_places(suite.suite, suite.test_groups);
    assert forall|k: int| 0 <= k < records(suite).len() implies is_record_of(
        suite,
        records(suite)[k],
        #[trigger] origin(suite, k),
    ) by {
        assert(placed(suite.suite, suite.test_groups, k));
    }
    assert forall|place: Place|
        in_suite(suite.test_groups, place) && emitted(
            #[trigger] case_at(suite.test_groups, place),
        ) implies exists|k: int| 0 <= k < records(suite).len() && origin(suite, k) == place by {
        let k = choose|k: int|
            0 <= k < places(suite.test_groups).len() && places(suite.test_groups)[k] == place;
        assert(origin(suite, k) == place);
    }
}

/// The five byte fields of a record are, in order: the x-coordinate and the
/// y-coordinate of the key of the group it comes from, the message and the
/// signature of the case it comes from, and the one byte that stands for the
/// expected result of that case.
pub proof fn lemma_record_fields(suite: TestSuiteView, k: int)
    requires
        0 <= k < records(suite).len(),
    ensures
        is_record_of(suite, records(suite)[k], origin(suite, k)),
        ({
            let key = suite.test_groups[origin(suite, k).group].key;
            let case = case_at(suite.test_groups, origin(suite, k));
            records(suite)[k].data == seq![
                key.wx,
                key.wy,
                case.msg,
                case.sig,
                seq![result_byte(case.case.result)],
            ]
        }),
{
    lemma_places(suite.suite, suite.test_groups);
    assert(placed(suite.suite, suite.test_groups, k));
}

/// Records are given only where the requested algorithm begins with the
/// curve name of every group: a suite with a group whose curve name is no
/// prefix of the algorithm gives a violation, never a record.
pub proof fn lemma_curves_prefix_algorithm(suite: TestSuiteView, algorithm: Seq<char>)
    ensures
        projected(suite, algorithm) is Ok ==> forall|i: int|
            0 <= i < suite.test_groups.len() ==> (#[trigger] suite.test_groups[i]).key.curve.is_prefix_of(
                algorithm,
            ),
        (exists|i: int|
            0 <= i < suite.test_groups.len() && !(#[trigger] suite.test_groups[i]).key.curve.is_prefix_of(
                algorithm,
            )) ==> projected(suite, algorithm) is Err,
{
    lemma_first_broken_is_least(suite.test_groups, algorithm);
}

/// A suite with a group whose hash function is not an approved one gives a
/// violation, never a record.
pub proof fn lemma_hashes_are_approved(suite: TestSuiteView, algorithm: Seq<char>)
    ensures
        projected(suite, algorithm) is Ok ==> forall|i: int|
            0 <= i < suite.test_groups.len() ==> approved_hash(
                (#[trigger] suite.test_groups[i]).sha,
            ),
        (exists|i: int|
            0 <= i < suite.test_groups.len() && !approved_hash(
                (#[trigger] suite.test_groups[i]).sha,
            )) ==> projected(suite, algorithm) is Err,
{
    lemma_first_broken_is_least(suite.test_groups, algorithm);
}

/// In either layout, bytes give records only where they hold a suite all of
/// whose groups name a curve that begins the algorithm and an approved hash
/// function; the records are then those of that suite.
pub proof fn lemma_generated_records(data: Seq<u8>, algorithm: Seq<char>, version: SchemaVersion)
    ensures
        generated(data, algorithm, version) is Ok ==> {
            &&& decoded(data, version) matches Some(suite)
            &&& generated(data, algorithm, version) == Ok::<Seq<TestInfoView>, GenerateErrorView>(
                records(suite),
            )
            &&& forall|i: int|
                0 <= i < suite.test_groups.len() ==> {
                    &&& (#[trigger] suite.test_groups[i]).key.curve.is_prefix_of(algorithm)
                    &&& approved_hash(suite.test_groups[i].sha)
                }
        },
{
    if decoded(data, version) is Some {
        lemma_curves_prefix_algorithm(decoded(data, version).unwrap(), algorithm);
        lemma_hashes_are_approved(decoded(data, version).unwrap(), algorithm);
    }
}

/// In either layout, a suite document with a group whose curve name is no
/// prefix of the algorithm gives a violation and no record.
pub proof fn lemma_foreign_curve_fails(
    data: Seq<u8>,
    algorithm: Seq<char>,
    version: SchemaVersion,
    i: int,
)
    ensures
        decoded(data, version) matches Some(suite) && 0 <= i < suite.test_groups.len()
            && !suite.test_groups[i].key.curve.is_prefix_of(algorithm) ==> generated(
            data,
            algorithm,
            version,
        ) matches Err(GenerateErrorView::Schema(_)),
{
    if decoded(data, version) is Some {
        lemma_curves_prefix_algorithm(decoded(data, version).unwrap(), algorithm);
    }
}

/// In either layout, a suite document with a group whose hash function is
/// not an approved one gives a violation and no record.
pub proof fn lemma_unapproved_hash_fails(
    data: Seq<u8>,
    algorithm: Seq<char>,
    version: SchemaVersion,
    i: int,
)
    ensures
        decoded(data, version) matches Some(suite) && 0 <= i < suite.test_groups.len()
            && !approved_hash(suite.test_groups[i].sha) ==> generated(
            data,
            algorithm,
            version,
        ) matches Err(GenerateErrorView::Schema(_)),
{
    if decoded(data, version) is Some {
        lemma_hashes_are_approved(decoded(data, version).unwrap(), algorithm);
    }
}

} // verus!
