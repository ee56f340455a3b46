use vstd::prelude::*;
use crate::kv_map::lookup;

verus! {

/// The mapping that results from applying the writes `ops`, in order, to `m`.
/// Each write is a `(key, value)` pair; the mutex of the store turns any set
/// of concurrent writes into such a sequence.
pub open spec fn apply_sets(
    m: Map<Seq<char>, Seq<char>>,
    ops: Seq<(Seq<char>, Seq<char>)>,
) -> Map<Seq<char>, Seq<char>>
    decreases ops.len(),
{
    if ops.len() == 0 {
        m
    } else {
        apply_sets(m, ops.drop_last()).insert(ops.last().0, ops.last().1)
    }
}

/// A key that no write names is not found, after any sequence of writes to an
/// empty store.
pub proof fn lemma_never_set_not_found(ops: Seq<(Seq<char>, Seq<char>)>, key: Seq<char>)
    requires
        forall|i: int| 0 <= i < ops.len() ==> (#[trigger] ops[i]).0 != key,
    ensures
        lookup(apply_sets(Map::empty(), ops), key) is None,
    decreases ops.len(),
{
    if ops.len() > 0 {
        let rest = ops.drop_last();
        assert forall|i: int| 0 <= i < rest.len() implies (#[trigger] rest[i]).0 != key by {
            assert(rest[i] == ops[i]);
        }
        lemma_never_set_not_found(rest, key);
        assert(ops.last() == ops[ops.len() - 1]);
    }
}

/// After a write of `value` to `key`, a lookup of `key` gives `value`.
pub proof fn lemma_set_then_get(m: Map<Seq<char>, Seq<char>>, key: Seq<char>, value: Seq<char>)
    ensures
        lookup(m.insert(key, value), key) == Some(value),
{
}

/// Of two writes to one key, the later one decides what a lookup gives,
/// whatever the key held before: the earlier write leaves no trace.
pub proof fn lemma_overwrite(
    m: Map<Seq<char>, Seq<char>>,
    key: Seq<char>,
    v1: Seq<char>,
    v2: Seq<char>,
)
    ensures
        m.insert(key, v1).insert(key, v2) == m.insert(key, v2),
        lookup(m.insert(key, v1).insert(key, v2), key) == Some(v2),
{
    assert(m.insert(key, v1).insert(key, v2) =~= m.insert(key, v2));
}

/// Last write wins: where `ops[i]` writes `value` to `key` and no later write
/// names `key`, a lookup of `key` after all of `ops` gives `value`, however
/// many writes to `key` came before.
pub proof fn lemma_last_write_wins(
    m: Map<Seq<char>, Seq<char>>,
    ops: Seq<(Seq<char>, Seq<char>)>,
    i: int,
    key: Seq<char>,
    value: Seq<char>,
)
    requires
        0 <= i < ops.len(),
        ops[i] == (key, value),
        forall|j: int| i < j < ops.len() ==> (#[trigger] ops[j]).0 != key,
    ensures
        lookup(apply_sets(m, ops), key) == Some(value),
    decreases ops.len(),
{
    let rest = ops.drop_last();
    if i == ops.len() - 1 {
        assert(ops.last() == ops[i]);
    } else {
        assert(rest[i] == ops[i]);
        assert forall|j: int| i < j < rest.len() implies (#[trigger] rest[j]).0 != key by {
            assert(rest[j] == ops[j]);
        }
        lemma_last_write_wins(m, rest, i, key, value);
        assert(ops.last() == ops[ops.len() - 1]);
    }
}

/// Two writes to one key from independent callers: whatever order the lock
/// puts them in, and whatever writes to other keys come between, a lookup of
/// the key after both gives exactly one of the two values, never nothing.
pub proof fn lemma_concurrent_sets(
    m: Map<Seq<char>, Seq<char>>,
    ops: Seq<(Seq<char>, Seq<char>)>,
    key: Seq<char>,
    v1: Seq<char>,
    v2: Seq<char>,
)
    requires
        ops.contains((key, v1)),
        ops.contains((key, v2)),
        forall|j: int|
            0 <= j < ops.len() && (#[trigger] ops[j]).0 == key ==> ops[j].1 == v1 || ops[j].1 == v2,
    ensures
        lookup(apply_sets(m, ops), key) == Some(v1) || lookup(apply_sets(m, ops), key) == Some(v2),
    decreases ops.len(),
{
    let last = ops.len() - 1;
    if ops[last].0 == key {
        lemma_last_write_wins(m, ops, last, key, ops[last].1);
    } else {
        let rest = ops.drop_last();
        let i1 = choose|i: int| 0 <= i < ops.len() && ops[i] == (key, v1);
        let i2 = choose|i: int| 0 <= i < ops.len() && ops[i] == (key, v2);
        assert(rest[i1] == ops[i1]);
        assert(rest[i2] == ops[i2]);
        assert forall|j: int|
            0 <= j < rest.len() && (#[trigger] rest[j]).0 == key implies rest[j].1 == v1
                || rest[j].1 == v2 by {
            assert(rest[j] == ops[j]);
        }
        lemma_concurrent_sets(m, rest, key, v1, v2);
        assert(ops.last() == ops[last]);
    }
}

} // verus!
