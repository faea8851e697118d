use vstd::prelude::*;
use vstd::string::*;

use crate::error::AllureError;
use crate::report::TestInfo;

verus! {

/// The path of the report tree, relative to the report's root.
pub open spec fn manifest_path_spec() -> Seq<char> {
    seq!['d', 'a', 't', 'a', '/', 'p', 'a', 'c', 'k', 'a', 'g', 'e', 's', '.', 'j', 's', 'o', 'n']
}

/// The directory of the detail records, relative to the report's root, with its
/// trailing separator.
pub open spec fn test_cases_dir() -> Seq<char> {
    seq!['d', 'a', 't', 'a', '/', 't', 'e', 's', 't', '-', 'c', 'a', 's', 'e', 's', '/']
}

/// The extension of a detail record.
pub open spec fn json_extension() -> Seq<char> {
    seq!['.', 'j', 's', 'o', 'n']
}

/// The path of the report tree, relative to the report's root: `data/packages.json`.
pub fn manifest_path() -> (r: String)
    ensures
        r@ == manifest_path_spec(),
{
    proof {
        reveal_strlit("data/packages.json");
        assert("data/packages.json"@ =~= manifest_path_spec());
    }
    String::from_str("data/packages.json")
}

/// The path of the detail record of test `uid`, relative to the report's root:
/// `data/test-cases/<uid>.json`.
pub fn test_case_path(uid: &String) -> (r: String)
    ensures
        r@ == test_cases_dir() + uid@ + json_extension(),
{
    proof {
        reveal_strlit("data/test-cases/");
        reveal_strlit(".json");
        assert("data/test-cases/"@ =~= test_cases_dir());
        assert(".json"@ =~= json_extension());
    }
    let mut path = String::from_str("data/test-cases/");
    path.append(uid.as_str());
    path.append(".json");
    path
}

/// Fail-fast joining of `results`: all their values in order where every one is
/// `Ok`, else the first error.
pub open spec fn fail_fast<T, F>(results: Seq<Result<T, F>>) -> Result<Seq<T>, F>
    decreases results.len(),
{
    if results.len() == 0 {
        Ok(Seq::empty())
    } else {
        match fail_fast(results.drop_last()) {
            Err(e) => Err(e),
            Ok(done) => match results.last() {
                Ok(t) => Ok(done.push(t)),
                Err(e) => Err(e),
            },
        }
    }
}

/// Once a prefix of `results` fails, every longer prefix fails with the same error.
proof fn lemma_fail_fast_stops<T, F>(results: Seq<Result<T, F>>, n: int, m: int)
    requires
        0 <= n <= m <= results.len(),
        fail_fast(results.take(n)) is Err,
    ensures
        fail_fast(results.take(m)) == fail_fast(results.take(n)),
    decreases m - n,
{
    if m > n {
        lemma_fail_fast_stops(results, n, m - 1);
        assert(results.take(m).drop_last() =~= results.take(m - 1));
    }
}

/// A fail-fast join succeeds only with one value for each result, each the value of
/// the result at its place; where any result failed, the join fails, with the error of
/// the first result that failed.
pub proof fn lemma_fail_fast<T, F>(results: Seq<Result<T, F>>)
    ensures
        fail_fast(results) matches Ok(v) ==> v.len() == results.len() && forall|i: int|
            0 <= i < results.len() ==> results[i] == Ok::<T, F>(#[trigger] v[i]),
        (exists|k: int| 0 <= k < results.len() && (#[trigger] results[k]) is Err) ==> fail_fast(
            results,
        ) is Err,
        fail_fast(results) matches Err(e) ==> exists|k: int|
            0 <= k < results.len() && results[k] == Err::<T, F>(e) && forall|j: int|
                0 <= j < k ==> (#[trigger] results[j]) is Ok,
    decreases results.len(),
{
    if results.len() > 0 {
        let init = results.drop_last();
        lemma_fail_fast(init);
        let last = results.len() - 1;
        match fail_fast(init) {
            Ok(v) => {
                assert forall|k: int| 0 <= k < results.len() && (#[trigger] results[k]) is Err implies k == last by {
                    if k < last {
                        assert(init[k] == results[k]);
                        assert(init[k] == Ok::<T, F>(v[k]));
                    }
                }
                if results.last() is Err {
                    assert forall|j: int| 0 <= j < last implies (#[trigger] results[j]) is Ok by {
                        assert(init[j] == results[j]);
                        assert(init[j] == Ok::<T, F>(v[j]));
                    }
                }
            },
            Err(e) => {
                let k = choose|k: int|
                    0 <= k < init.len() && init[k] == Err::<T, F>(e) && forall|j: int|
                        0 <= j < k ==> (#[trigger] init[j]) is Ok;
                assert(results[k] == init[k]);
                assert forall|j: int| 0 <= j < k implies (#[trigger] results[j]) is Ok by {
                    assert(init[j] == results[j]);
                }
            },
        }
    }
}

/// Joins the results of all tests of a run: every test, in the given order, where all
/// of them were read; otherwise the first failure, and nothing of the others.
pub fn collect_test_infos<E>(results: Vec<Result<TestInfo, AllureError<E>>>) -> (r: Result<
    Vec<TestInfo>,
    AllureError<E>,
>)
    ensures
        match r {
            Ok(v) => fail_fast(results@) == Ok::<Seq<TestInfo>, AllureError<E>>(v@),
            Err(e) => fail_fast(results@) == Err::<Seq<TestInfo>, AllureError<E>>(e),
        },
{
    let ghost all = results@;
    let mut done: Vec<TestInfo> = Vec::new();
    assert(all.take(0) =~= Seq::<Result<TestInfo, AllureError<E>>>::empty());
    for x in it: results
        invariant
            it.seq() == all,
            it.index() <= all.len(),
            fail_fast(all.take(it.index() as int)) == Ok::<Seq<TestInfo>, AllureError<E>>(done@),
    {
        let ghost i = it.index() as int;
        assert(all.take(i + 1).drop_last() =~= all.take(i));
        match x {
            Ok(info) => {
                done.push(info);
            },
            Err(e) => {
                proof {
                    lemma_fail_fast_stops(all, i + 1, all.len() as int);
                    assert(all.take(all.len() as int) =~= all);
                }
                return Err(e);
            },
        }
    }
    assert(all.take(all.len() as int) =~= all);
    Ok(done)
}

} // verus!
