use vstd::prelude::*;

verus! {

/// A map after the first `n` entries of a batch are written into it, in
/// order: each value takes the place of whatever its key had before.
pub open spec fn spec_write_first<V>(
    map: Map<Seq<char>, V>,
    keys: Seq<Seq<char>>,
    values: Seq<V>,
    n: nat,
) -> Map<Seq<char>, V>
    decreases n,
{
    if n == 0 {
        map
    } else {
        spec_write_first(map, keys, values, (n - 1) as nat).insert(keys[n - 1], values[n - 1])
    }
}

/// Whether `i` is the last place at which `key` stands among the first `n`
/// keys of a batch.
pub open spec fn last_of(keys: Seq<Seq<char>>, key: Seq<char>, n: nat, i: int) -> bool {
    &&& 0 <= i < n
    &&& keys[i] == key
    &&& forall|j: int| i < j < n ==> #[trigger] keys[j] != key
}

/// Whether `key` stands nowhere among the first `n` keys of a batch.
pub open spec fn not_among(keys: Seq<Seq<char>>, key: Seq<char>, n: nat) -> bool {
    forall|j: int| 0 <= j < n ==> #[trigger] keys[j] != key
}

/// Last write wins: after a batch is written, a key of the batch has the
/// value of its last entry in the batch, and a key that is not in the batch
/// has what it had before.
pub proof fn lemma_last_write_wins<V>(
    map: Map<Seq<char>, V>,
    keys: Seq<Seq<char>>,
    values: Seq<V>,
    n: nat,
    key: Seq<char>,
)
    requires
        n <= keys.len(),
    ensures
        not_among(keys, key, n) ==> {
            let after = spec_write_first(map, keys, values, n);
            &&& after.contains_key(key) == map.contains_key(key)
            &&& after[key] == map[key]
        },
        forall|i: int| #[trigger]
            last_of(keys, key, n, i) ==> {
                let after = spec_write_first(map, keys, values, n);
                after.contains_key(key) && after[key] == values[i]
            },
    decreases n,
{
    if n > 0 {
        let m = (n - 1) as nat;
        lemma_last_write_wins(map, keys, values, m, key);
        let after = spec_write_first(map, keys, values, n);
        if not_among(keys, key, n) {
            assert(not_among(keys, key, m));
            assert(keys[n - 1] != key);
        }
        assert forall|i: int| #[trigger] last_of(keys, key, n, i) implies after.contains_key(key)
            && after[key] == values[i] by {
            if i < n - 1 {
                assert(keys[n - 1] != key);
                assert(last_of(keys, key, m, i));
            }
        }
    }
}

/// A map after the first `n` entries of a batch are written into it, in
/// order, but for the entries under the key `skipped`: those are left out.
pub open spec fn spec_write_first_except<V>(
    map: Map<Seq<char>, V>,
    keys: Seq<Seq<char>>,
    values: Seq<V>,
    n: nat,
    skipped: Seq<char>,
) -> Map<Seq<char>, V>
    decreases n,
{
    if n == 0 {
        map
    } else if keys[n - 1] == skipped {
        spec_write_first_except(map, keys, values, (n - 1) as nat, skipped)
    } else {
        spec_write_first_except(map, keys, values, (n - 1) as nat, skipped).insert(
            keys[n - 1],
            values[n - 1],
        )
    }
}

/// Leaving a key out touches nothing else: under the key that is left out the
/// map has what it had before the batch, and under every other key it has
/// what it would have with the whole batch written.
pub proof fn lemma_write_except<V>(
    map: Map<Seq<char>, V>,
    keys: Seq<Seq<char>>,
    values: Seq<V>,
    n: nat,
    skipped: Seq<char>,
    key: Seq<char>,
)
    ensures
        ({
            let after = spec_write_first_except(map, keys, values, n, skipped);
            &&& after.contains_key(skipped) == map.contains_key(skipped)
            &&& after[skipped] == map[skipped]
        }),
        key != skipped ==> {
            let after = spec_write_first_except(map, keys, values, n, skipped);
            let whole = spec_write_first(map, keys, values, n);
            &&& after.contains_key(key) == whole.contains_key(key)
            &&& after[key] == whole[key]
        },
    decreases n,
{
    if n > 0 {
        lemma_write_except(map, keys, values, (n - 1) as nat, skipped, key);
    }
}

} // verus!
