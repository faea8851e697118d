use vstd::prelude::*;

use crate::models::AllureJson;

verus! {

/// The ids that discovery yields for `node`: those of its children's subtrees from
/// left to right, then its own id where it is a test.
pub open spec fn uids_of(node: AllureJson) -> Seq<Seq<char>>
    decreases node, 0nat,
{
    let own = if node.is_test() { seq![node.uid@] } else { Seq::empty() };
    match node.childrens {
        Some(c) => uids_of_first(c@, c@.len()) + own,
        None => own,
    }
}

/// The ids that discovery yields for the first `n` trees of `nodes`, in order.
pub open spec fn uids_of_first(nodes: Seq<AllureJson>, n: nat) -> Seq<Seq<char>>
    decreases nodes, n,
{
    if n == 0 || n > nodes.len() {
        Seq::empty()
    } else {
        uids_of_first(nodes, (n - 1) as nat) + uids_of(nodes[n - 1])
    }
}

/// The number of test nodes in the tree rooted at `node`, at any depth.
pub open spec fn test_count(node: AllureJson) -> nat
    decreases node, 0nat,
{
    let own: nat = if node.is_test() { 1 } else { 0 };
    match node.childrens {
        Some(c) => test_count_first(c@, c@.len()) + own,
        None => own,
    }
}

/// The number of test nodes in the first `n` trees of `nodes`.
pub open spec fn test_count_first(nodes: Seq<AllureJson>, n: nat) -> nat
    decreases nodes, n,
{
    if n == 0 || n > nodes.len() {
        0
    } else {
        test_count_first(nodes, (n - 1) as nat) + test_count(nodes[n - 1])
    }
}

/// Whether the tree rooted at `node` holds, at any depth, a test node with id `id`.
pub open spec fn has_test(node: AllureJson, id: Seq<char>) -> bool
    decreases node, 0nat,
{
    let own = node.is_test() && node.uid@ == id;
    match node.childrens {
        Some(c) => own || has_test_first(c@, c@.len(), id),
        None => own,
    }
}

/// Whether one of the first `n` trees of `nodes` holds a test node with id `id`.
pub open spec fn has_test_first(nodes: Seq<AllureJson>, n: nat, id: Seq<char>) -> bool
    decreases nodes, n,
{
    if n == 0 || n > nodes.len() {
        false
    } else {
        has_test_first(nodes, (n - 1) as nat, id) || has_test(nodes[n - 1], id)
    }
}

proof fn lemma_contains_concat(a: Seq<Seq<char>>, b: Seq<Seq<char>>, id: Seq<char>)
    ensures
        (a + b).contains(id) <==> (a.contains(id) || b.contains(id)),
{
    if (a + b).contains(id) {
        let k = choose|k: int| 0 <= k < (a + b).len() && (a + b)[k] == id;
        if k < a.len() {
            assert(a[k] == id);
        } else {
            assert(b[k - a.len()] == id);
        }
    }
    if a.contains(id) {
        let k = choose|k: int| 0 <= k < a.len() && a[k] == id;
        assert((a + b)[k] == id);
    }
    if b.contains(id) {
        let k = choose|k: int| 0 <= k < b.len() && b[k] == id;
        assert((a + b)[k + a.len()] == id);
    }
}

/// Discovery yields one id per test node of the tree, whatever its depth, and an id
/// occurs in the result exactly where the tree holds a test node with that id.
pub proof fn lemma_discovery_exact(node: AllureJson)
    ensures
        uids_of(node).len() == test_count(node),
        forall|id: Seq<char>| uids_of(node).contains(id) <==> has_test(node, id),
    decreases node, 0nat,
{
    let own = if node.is_test() { seq![node.uid@] } else { Seq::<Seq<char>>::empty() };
    assert forall|id: Seq<char>| own.contains(id) <==> (node.is_test() && node.uid@ == id) by {
        if node.is_test() && node.uid@ == id {
            assert(own[0] == id);
        }
    }
    match node.childrens {
        Some(c) => {
            assert(decreases_to!(node => node.childrens));
            assert(decreases_to!(node.childrens => c));
            assert(decreases_to!(c => c@));
            lemma_discovery_exact_first(c@, c@.len());
            assert forall|id: Seq<char>| uids_of(node).contains(id) <==> has_test(node, id) by {
                lemma_contains_concat(uids_of_first(c@, c@.len()), own, id);
                assert(uids_of(node) == uids_of_first(c@, c@.len()) + own);
                assert(uids_of_first(c@, c@.len()).contains(id) <==> has_test_first(c@, c@.len(), id));
                assert(own.contains(id) <==> (node.is_test() && node.uid@ == id));
            }
        },
        None => {},
    }
}

/// The same as `lemma_discovery_exact`, for the first `n` trees of `nodes`.
pub proof fn lemma_discovery_exact_first(nodes: Seq<AllureJson>, n: nat)
    ensures
        uids_of_first(nodes, n).len() == test_count_first(nodes, n),
        forall|id: Seq<char>|
            uids_of_first(nodes, n).contains(id) <==> has_test_first(nodes, n, id),
    decreases nodes, n,
{
    if n == 0 || n > nodes.len() {
    } else {
        lemma_discovery_exact_first(nodes, (n - 1) as nat);
        lemma_discovery_exact(nodes[n - 1]);
        assert forall|id: Seq<char>|
            uids_of_first(nodes, n).contains(id) <==> has_test_first(nodes, n, id) by {
            lemma_contains_concat(uids_of_first(nodes, (n - 1) as nat), uids_of(nodes[n - 1]), id);
            assert(uids_of_first(nodes, n) == uids_of_first(nodes, (n - 1) as nat) + uids_of(nodes[n - 1]));
            assert(uids_of_first(nodes, (n - 1) as nat).contains(id) <==> has_test_first(nodes, (n - 1) as nat, id));
            assert(uids_of(nodes[n - 1]).contains(id) <==> has_test(nodes[n - 1], id));
        }
    }
}

/// A tree without test nodes yields no ids.
pub proof fn lemma_discovery_empty(node: AllureJson)
    requires
        test_count(node) == 0,
    ensures
        uids_of(node) == Seq::<Seq<char>>::empty(),
{
    lemma_discovery_exact(node);
}

/// The views of a sequence of strings.
pub open spec fn views(v: Seq<String>) -> Seq<Seq<char>> {
    v.map_values(|s: String| s@)
}

/// Returns the ids of all tests in the tree rooted at `allure_json`.
pub fn get_test_uids_recursively(allure_json: &AllureJson) -> (r: Vec<String>)
    ensures
        views(r@) == uids_of(*allure_json),
    decreases *allure_json,
{
    let mut uids: Vec<String> = Vec::new();
    match &allure_json.childrens {
        Some(children) => {
            let n = children.len();
            for i in 0..n
                invariant
                    n == children@.len(),
                    allure_json.childrens == Some(*children),
                    views(uids@) == uids_of_first(children@, i as nat),
            {
                proof {
                    let kids = allure_json.childrens->0;
                    assert(decreases_to!(*allure_json => allure_json.childrens));
                    assert(decreases_to!(allure_json.childrens => kids));
                    assert(decreases_to!(kids => kids@));
                    assert(decreases_to!(kids@ => kids@[i as int]));
                }
                let mut sub = get_test_uids_recursively(&children[i]);
                let ghost before = uids@;
                uids.append(&mut sub);
                assert(views(uids@) =~= views(before) + uids_of(children@[i as int]));
            }
        },
        None => {},
    }
    let ghost before = uids@;
    if allure_json.flaky.is_some() {
        uids.push(allure_json.uid.clone());
        assert(views(uids@) =~= views(before) + seq![allure_json.uid@]);
    } else {
        assert(views(uids@) =~= views(before) + Seq::<Seq<char>>::empty());
    }
    uids
}

} // verus!
