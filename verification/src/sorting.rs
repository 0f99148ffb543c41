//! Executions in the order of their keys.

use vstd::prelude::*;
use crate::common::{execution_views, Execution, ExecutionView};

verus! {

/// No execution stands before one with a smaller key.
pub open spec fn sorted_by_order(s: Seq<ExecutionView>) -> bool {
    forall|i: int, j: int| 0 <= i < j < s.len() ==> s[i].order <= s[j].order
}

/// The place at which an execution with key `key` is put into `s`: behind
/// the last execution whose key is not greater.
pub open spec fn insert_position(s: Seq<ExecutionView>, key: u64) -> nat
    decreases s.len(),
{
    if s.len() == 0 {
        0
    } else if s.last().order <= key {
        s.len()
    } else {
        insert_position(s.drop_last(), key)
    }
}

/// The executions in ascending order of their keys; executions with equal
/// keys keep the order they came in.
pub open spec fn sort_by_order(s: Seq<ExecutionView>) -> Seq<ExecutionView>
    decreases s.len(),
{
    if s.len() == 0 {
        Seq::empty()
    } else {
        let front = sort_by_order(s.drop_last());
        front.insert(insert_position(front, s.last().order) as int, s.last())
    }
}

/// The place of insertion lies within the sequence; in a sorted sequence
/// every key before it is not greater and every key from it on is greater.
pub proof fn lemma_insert_position(s: Seq<ExecutionView>, key: u64)
    ensures
        insert_position(s, key) <= s.len(),
        sorted_by_order(s) ==> forall|i: int|
            0 <= i < insert_position(s, key) ==> (#[trigger] s[i]).order <= key,
        forall|i: int| insert_position(s, key) <= i < s.len() ==> (#[trigger] s[i]).order > key,
    decreases s.len(),
{
    if s.len() > 0 && s.last().order > key {
        let front = s.drop_last();
        lemma_insert_position(front, key);
        assert forall|i: int| insert_position(s, key) <= i < s.len() implies (#[trigger] s[i]).order
            > key by {
            if i < front.len() {
                assert(front[i] == s[i]);
            }
        }
        if sorted_by_order(s) {
            assert(sorted_by_order(front)) by {
                assert forall|i: int, j: int| 0 <= i < j < front.len() implies front[i].order
                    <= front[j].order by {
                    assert(front[i] == s[i]);
                    assert(front[j] == s[j]);
                }
            }
            assert forall|i: int| 0 <= i < insert_position(s, key) implies (#[trigger] s[i]).order
                <= key by {
                assert(front[i] == s[i]);
            }
        }
    } else if s.len() > 0 {
        if sorted_by_order(s) {
            assert forall|i: int| 0 <= i < s.len() implies (#[trigger] s[i]).order <= key by {
                if i < s.len() - 1 {
                    assert(s[i].order <= s[s.len() - 1].order);
                }
            }
        }
    }
}

/// Sorting keeps every execution, as often as it occurred, and puts them in
/// ascending order of their keys.
pub proof fn lemma_sort_by_order(s: Seq<ExecutionView>)
    ensures
        sort_by_order(s).len() == s.len(),
        sorted_by_order(sort_by_order(s)),
        sort_by_order(s).to_multiset() == s.to_multiset(),
    decreases s.len(),
{
    if s.len() == 0 {
        assert(s =~= Seq::<ExecutionView>::empty());
    } else {
        let front = sort_by_order(s.drop_last());
        let e = s.last();
        let p = insert_position(front, e.order) as int;
        lemma_sort_by_order(s.drop_last());
        lemma_insert_position(front, e.order);
        let after = front.insert(p, e);
        assert(sorted_by_order(after)) by {
            assert forall|i: int, j: int| 0 <= i < j < after.len() implies after[i].order
                <= after[j].order by {
                if j < p {
                    assert(after[i] == front[i] && after[j] == front[j]);
                } else if j == p {
                    assert(after[i] == front[i]);
                } else if i < p {
                    assert(after[i] == front[i] && after[j] == front[j - 1]);
                } else if i == p {
                    assert(after[j] == front[j - 1]);
                } else {
                    assert(after[i] == front[i - 1] && after[j] == front[j - 1]);
                }
            }
        }
        vstd::seq_lib::to_multiset_insert(front, p, e);
        assert(s =~= s.drop_last().push(e));
        vstd::seq_lib::to_multiset_build(s.drop_last(), e);
    }
}

/// A copy of the bytes.
pub fn duplicate_bytes(bytes: &Vec<u8>) -> (r: Vec<u8>)
    ensures
        r@ == bytes@,
{
    let mut v: Vec<u8> = Vec::new();
    let mut i: usize = 0;
    while i < bytes.len()
        invariant
            i <= bytes.len(),
            v@ == bytes@.subrange(0, i as int),
        decreases bytes.len() - i,
    {
        v.push(bytes[i]);
        assert(bytes@.subrange(0, i as int).push(bytes@[i as int]) =~= bytes@.subrange(0, i + 1));
        i += 1;
    }
    assert(bytes@.subrange(0, bytes@.len() as int) =~= bytes@);
    v
}

/// A copy of the execution.
pub fn duplicate_execution(e: &Execution) -> (r: Execution)
    ensures
        r@ == e@,
{
    Execution { order: e.order, contract: e.contract.clone(), msg: duplicate_bytes(&e.msg) }
}

/// The place at which an execution with key `key` is put into the sorted
/// executions.
fn position_for(sorted: &Vec<Execution>, key: u64) -> (r: usize)
    ensures
        r == insert_position(execution_views(sorted@), key),
        r <= sorted.len(),
{
    let ghost all = execution_views(sorted@);
    let mut pos: usize = sorted.len();
    assert(all.subrange(0, pos as int) =~= all);
    while pos > 0 && sorted[pos - 1].order > key
        invariant
            pos <= sorted.len(),
            all == execution_views(sorted@),
            insert_position(all, key) == insert_position(all.subrange(0, pos as int), key),
        decreases pos,
    {
        assert(all.subrange(0, pos as int).drop_last() =~= all.subrange(0, pos - 1));
        assert(all.subrange(0, pos as int).last() == sorted@[pos - 1]@);
        pos -= 1;
    }
    proof {
        if pos > 0 {
            assert(all.subrange(0, pos as int).last() == sorted@[pos - 1]@);
        }
    }
    pos
}

/// Copies of the executions in ascending order of their keys; executions
/// with equal keys keep the order they came in.
pub fn sorted_executions(executions: &Vec<Execution>) -> (r: Vec<Execution>)
    ensures
        execution_views(r@) == sort_by_order(execution_views(executions@)),
        r@.len() == executions@.len(),
{
    let ghost all = execution_views(executions@);
    let mut result: Vec<Execution> = Vec::new();
    let mut i: usize = 0;
    assert(all.subrange(0, 0) =~= Seq::<ExecutionView>::empty());
    assert(execution_views(result@) =~= Seq::<ExecutionView>::empty());
    while i < executions.len()
        invariant
            i <= executions.len(),
            all == execution_views(executions@),
            result@.len() == i,
            execution_views(result@) == sort_by_order(all.subrange(0, i as int)),
        decreases executions.len() - i,
    {
        let e = duplicate_execution(&executions[i]);
        let pos = position_for(&result, e.order);
        proof {
            let prefix = all.subrange(0, i + 1);
            assert(prefix.drop_last() =~= all.subrange(0, i as int));
            assert(prefix.last() == e@);
            assert(execution_views(result@.insert(pos as int, e)) =~= execution_views(
                result@,
            ).insert(pos as int, e@));
        }
        result.insert(pos, e);
        i += 1;
    }
    assert(all.subrange(0, executions@.len() as int) =~= all);
    result
}

} // verus!
