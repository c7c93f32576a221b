//! Validation of whole values: traits for schemas, and validation of collections of them.

use vstd::prelude::*;

use crate::error::{IndexedValidationError, KeyedValidationError, ValidationErrors};

verus! {

/// Validate a schema with context.
pub trait ValidateWithContext {
    /// Validation context.
    type Context;

    /// Validation error.
    type Error;

    /// Whether `r` is an outcome that [`ValidateWithContext::validate_sync_with_context`] gives
    /// for this value in `context`. An implementation that does not define it states nothing of
    /// its outcome.
    open spec fn sync_outcome(
        &self,
        context: &Self::Context,
        r: Result<(), ValidationErrors<Self::Error>>,
    ) -> bool {
        true
    }

    /// Validate schema using only synchronous validators with context.
    fn validate_sync_with_context(&self, context: &Self::Context) -> (r: Result<
        (),
        ValidationErrors<Self::Error>,
    >)
        ensures
            self.sync_outcome(context, r),
    ;
}

/// Validate a schema.
pub trait Validate: ValidateWithContext<Context = ()> {
    /// Validate schema using only synchronous validators.
    ///
    /// The outcome is that of [`ValidateWithContext::validate_sync_with_context`] with the unit
    /// context.
    fn validate_sync(&self) -> (r: Result<(), ValidationErrors<Self::Error>>)
        ensures
            self.sync_outcome(&(), r),
    {
        self.validate_sync_with_context(&())
    }
}

/// The errors of a validation outcome: none for `Ok`.
pub open spec fn outcome_errors<E>(r: Result<(), ValidationErrors<E>>) -> Seq<E> {
    match r {
        Ok(_) => Seq::empty(),
        Err(es) => es@,
    }
}

/// The errors of the elements of a sequence, in element order, each with the index of its element.
pub open spec fn indexed_errors<E>(outcomes: Seq<Result<(), ValidationErrors<E>>>) -> Seq<
    IndexedValidationError<E>,
>
    decreases outcomes.len(),
{
    if outcomes.len() == 0 {
        Seq::empty()
    } else {
        let n = (outcomes.len() - 1) as int;
        indexed_errors(outcomes.drop_last()) + outcome_errors(outcomes[n]).map_values(
            |e: E| IndexedValidationError { index: n as usize, error: e },
        )
    }
}

/// The errors of the entries of a sequence of keyed outcomes, in entry order, each with the key
/// of its entry.
pub open spec fn keyed_errors<K, E>(outcomes: Seq<(K, Result<(), ValidationErrors<E>>)>) -> Seq<
    KeyedValidationError<K, E>,
>
    decreases outcomes.len(),
{
    if outcomes.len() == 0 {
        Seq::empty()
    } else {
        let n = (outcomes.len() - 1) as int;
        keyed_errors(outcomes.drop_last()) + outcome_errors(outcomes[n].1).map_values(
            |e: E| KeyedValidationError { key: outcomes[n].0, error: e },
        )
    }
}

/// Whether `r` is what collecting the indexed errors `errors` gives: valid when there are none,
/// else exactly those errors.
pub open spec fn collects_indexed<E>(
    r: Result<(), ValidationErrors<IndexedValidationError<E>>>,
    errors: Seq<IndexedValidationError<E>>,
) -> bool {
    if errors.len() == 0 {
        r is Ok
    } else {
        r matches Err(es) && es@ == errors
    }
}

/// The elements of `v` in reverse order.
fn reversed<T>(v: Vec<T>) -> (r: Vec<T>)
    ensures
        r@ == v@.reverse(),
{
    let ghost all = v@;
    let mut v = v;
    let mut r: Vec<T> = Vec::new();
    while v.len() > 0
        invariant
            all.len() == v@.len() + r@.len(),
            v@ == all.take(v@.len() as int),
            r@ == all.reverse().take(r@.len() as int),
        decreases v.len(),
    {
        let x = v.pop().unwrap();
        r.push(x);
        assert(v@ =~= all.take(v@.len() as int));
        assert(r@ =~= all.reverse().take(r@.len() as int));
    }
    assert(r@ =~= all.reverse());
    r
}

/// Combines the outcomes of validating the elements of a sequence: valid when no element has an
/// error, else every error of every element, in order, with the index of its element.
pub fn collect_indexed_errors<E>(outcomes: Vec<Result<(), ValidationErrors<E>>>) -> (r: Result<
    (),
    ValidationErrors<IndexedValidationError<E>>,
>)
    ensures
        indexed_errors(outcomes@).len() == 0 ==> r is Ok,
        indexed_errors(outcomes@).len() != 0 ==> (r matches Err(es) && es@ == indexed_errors(
            outcomes@,
        )),
{
    let ghost all = outcomes@;
    let mut outcomes = reversed(outcomes);
    let mut errors: Vec<IndexedValidationError<E>> = Vec::new();
    let mut index: usize = 0;
    let n = outcomes.len();
    assert(all.take(0) =~= Seq::<Result<(), ValidationErrors<E>>>::empty());
    while index < n
        invariant
            n == all.len(),
            index <= n,
            outcomes@.len() == n - index,
            forall|j: int| 0 <= j < n - index ==> #[trigger] outcomes@[j] == all[n - 1 - j],
            errors@ == indexed_errors(all.take(index as int)),
        decreases n - index,
    {
        let outcome = outcomes.pop().unwrap();
        assert(outcome == all[index as int]);
        let ghost before = errors@;
        if let Err(es) = outcome {
            let mut es = reversed(es.into_vec());
            let ghost ev = es@;
            let m = es.len();
            let mut k: usize = 0;
            while k < m
                invariant
                    m == ev.len(),
                    k <= m,
                    es@.len() == m - k,
                    forall|j: int| 0 <= j < m - k ==> #[trigger] es@[j] == ev[j],
                    errors@ == before + ev.reverse().take(k as int).map_values(
                        |e: E| IndexedValidationError { index: index, error: e },
                    ),
                decreases m - k,
            {
                let e = es.pop().unwrap();
                errors.push(IndexedValidationError { index, error: e });
                proof {
                    assert(ev.reverse().take(k + 1) =~= ev.reverse().take(k as int).push(e));
                }
                k = k + 1;
                assert(errors@ =~= before + ev.reverse().take(k as int).map_values(
                    |e: E| IndexedValidationError { index: index, error: e },
                ));
            }
            assert(ev.reverse().take(m as int) =~= ev.reverse());
        }
        proof {
            let t = all.take(index + 1);
            assert(t.drop_last() =~= all.take(index as int));
            assert(t[index as int] == outcome);
        }
        index = index + 1;
    }
    assert(all.take(n as int) =~= all);
    if errors.len() == 0 {
        Ok(())
    } else {
        Err(ValidationErrors::from_vec(errors))
    }
}

/// Whether `actual` holds the errors of `expected`, in order, each with a clone of its key.
pub open spec fn clones_of<K: Clone, E>(
    actual: Seq<KeyedValidationError<K, E>>,
    expected: Seq<KeyedValidationError<K, E>>,
) -> bool {
    &&& actual.len() == expected.len()
    &&& forall|i: int|
        0 <= i < actual.len() ==> #[trigger] actual[i].error == expected[i].error && cloned(
            expected[i].key,
            actual[i].key,
        )
}

/// Appends the errors `es`, in order, each with a clone of `key`.
fn push_keyed_errors<K: Clone, E>(
    errors: &mut Vec<KeyedValidationError<K, E>>,
    key: &K,
    es: ValidationErrors<E>,
)
    ensures
        final(errors)@.len() == old(errors)@.len() + es@.len(),
        forall|i: int| 0 <= i < old(errors)@.len() ==> #[trigger] final(errors)@[i] == old(errors)@[i],
        forall|i: int|
            0 <= i < es@.len() ==> #[trigger] final(errors)@[old(errors)@.len() + i].error == es@[i]
                && cloned(*key, final(errors)@[old(errors)@.len() + i].key),
{
    let ghost orig = es@;
    let ghost before = errors@;
    let mut es = reversed(es.into_vec());
    let ghost ev = es@;
    let m = es.len();
    let mut k: usize = 0;
    while k < m
        invariant
            m == ev.len(),
            ev == orig.reverse(),
            k <= m,
            es@.len() == m - k,
            forall|j: int| 0 <= j < m - k ==> #[trigger] es@[j] == ev[j],
            errors@.len() == before.len() + k,
            forall|i: int| 0 <= i < before.len() ==> #[trigger] errors@[i] == before[i],
            forall|i: int|
                0 <= i < k ==> #[trigger] errors@[before.len() + i].error == orig[i] && cloned(
                    *key,
                    errors@[before.len() + i].key,
                ),
        decreases m - k,
    {
        let e = es.pop().unwrap();
        assert(e == orig[k as int]);
        let cloned_key = K::clone(key);
        assert(cloned(*key, cloned_key));
        let ghost prev = errors@;
        errors.push(KeyedValidationError { key: cloned_key, error: e });
        proof {
            assert forall|i: int| 0 <= i < k + 1 implies #[trigger] errors@[before.len() + i].error
                == orig[i] && cloned(*key, errors@[before.len() + i].key) by {
                if i < k {
                    assert(errors@[before.len() + i] == prev[before.len() + i]);
                }
            }
            assert forall|i: int| 0 <= i < before.len() implies #[trigger] errors@[i]
                == before[i] by {
                assert(errors@[i] == prev[i]);
            }
        }
        k = k + 1;
    }
}

proof fn lemma_clones_extend<K: Clone, E>(
    before: Seq<KeyedValidationError<K, E>>,
    expected_before: Seq<KeyedValidationError<K, E>>,
    errors: Seq<KeyedValidationError<K, E>>,
    key: K,
    added_errors: Seq<E>,
)
    requires
        clones_of(before, expected_before),
        errors.len() == before.len() + added_errors.len(),
        forall|i: int| 0 <= i < before.len() ==> #[trigger] errors[i] == before[i],
        forall|i: int|
            0 <= i < added_errors.len() ==> #[trigger] errors[before.len() + i].error
                == added_errors[i] && cloned(key, errors[before.len() + i].key),
    ensures
        clones_of(
            errors,
            expected_before + added_errors.map_values(
                |e: E| KeyedValidationError { key: key, error: e },
            ),
        ),
{
    let added = added_errors.map_values(|e: E| KeyedValidationError { key: key, error: e });
    let expected = expected_before + added;
    assert forall|i: int| 0 <= i < errors.len() implies #[trigger] errors[i].error
        == expected[i].error && cloned(expected[i].key, errors[i].key) by {
        if i < before.len() {
            assert(errors[i] == before[i]);
            assert(before[i].error == expected_before[i].error);
            assert(expected[i] == expected_before[i]);
        } else {
            let j = i - before.len();
            assert(errors[before.len() + j].error == added_errors[j]);
            assert(expected[i] == added[j]);
        }
    }
}

/// Combines the outcomes of validating the entries of a keyed collection: valid when no entry
/// has an error, else every error of every entry, in order, with a clone of the key of its
/// entry.
pub fn collect_keyed_errors<K: Clone, E>(
    outcomes: Vec<(K, Result<(), ValidationErrors<E>>)>,
) -> (r: Result<(), ValidationErrors<KeyedValidationError<K, E>>>)
    ensures
        keyed_errors(outcomes@).len() == 0 ==> r is Ok,
        keyed_errors(outcomes@).len() != 0 ==> (r matches Err(es) && clones_of(
            es@,
            keyed_errors(outcomes@),
        )),
{
    let ghost all = outcomes@;
    let mut outcomes = reversed(outcomes);
    let mut errors: Vec<KeyedValidationError<K, E>> = Vec::new();
    let mut index: usize = 0;
    let n = outcomes.len();
    assert(all.take(0) =~= Seq::<(K, Result<(), ValidationErrors<E>>)>::empty());
    while index < n
        invariant
            n == all.len(),
            index <= n,
            outcomes@.len() == n - index,
            forall|j: int| 0 <= j < n - index ==> #[trigger] outcomes@[j] == all[n - 1 - j],
            clones_of(errors@, keyed_errors(all.take(index as int))),
        decreases n - index,
    {
        let (key, outcome) = outcomes.pop().unwrap();
        assert(key == all[index as int].0 && outcome == all[index as int].1);
        let ghost before = errors@;
        let ghost expected_before = keyed_errors(all.take(index as int));
        proof {
            let t = all.take(index + 1);
            assert(t.drop_last() =~= all.take(index as int));
            assert(t[index as int] == all[index as int]);
        }
        if let Err(es) = outcome {
            let ghost orig = es@;
            push_keyed_errors(&mut errors, &key, es);
            proof {
                lemma_clones_extend(before, expected_before, errors@, key, orig);
                assert(expected_before + orig.map_values(
                    |e: E| KeyedValidationError { key: key, error: e },
                ) =~= keyed_errors(all.take(index + 1)));
            }
        } else {
            assert(keyed_errors(all.take(index + 1)) =~= expected_before);
            assert(clones_of(errors@, keyed_errors(all.take(index + 1))));
        }
        index = index + 1;
    }
    assert(all.take(n as int) =~= all);
    if errors.len() == 0 {
        Ok(())
    } else {
        Err(ValidationErrors::from_vec(errors))
    }
}

impl<T: ValidateWithContext> ValidateWithContext for Vec<T> {
    type Context = T::Context;

    type Error = IndexedValidationError<T::Error>;

    /// Each element is validated in `context`, and the errors of all elements are collected, in
    /// element order, each with the index of its element.
    open spec fn sync_outcome(
        &self,
        context: &Self::Context,
        r: Result<(), ValidationErrors<Self::Error>>,
    ) -> bool {
        exists|outcomes: Seq<Result<(), ValidationErrors<T::Error>>>|
            {
                &&& outcomes.len() == self@.len()
                &&& forall|i: int|
                    0 <= i < outcomes.len() ==> #[trigger] self@[i].sync_outcome(
                        context,
                        outcomes[i],
                    )
                &&& #[trigger] collects_indexed(r, indexed_errors(outcomes))
            }
    }

    fn validate_sync_with_context(&self, context: &Self::Context) -> (r: Result<
        (),
        ValidationErrors<Self::Error>,
    >)
        ensures
            r matches Err(es) ==> es@.len() > 0 && forall|i: int|
                0 <= i < es@.len() ==> #[trigger] es@[i].index < self@.len(),
    {
        let mut outcomes: Vec<Result<(), ValidationErrors<T::Error>>> = Vec::new();
        let n = self.len();
        let mut i: usize = 0;
        while i < n
            invariant
                n == self@.len(),
                i <= n,
                outcomes@.len() == i,
                forall|j: int|
                    0 <= j < i ==> #[trigger] self@[j].sync_outcome(context, outcomes@[j]),
            decreases n - i,
        {
            let outcome = self[i].validate_sync_with_context(context);
            outcomes.push(outcome);
            i = i + 1;
        }
        let ghost all = outcomes@;
        let r = collect_indexed_errors(outcomes);
        proof {
            lemma_indexed_errors_indices(all);
            assert(collects_indexed(r, indexed_errors(all)));
        }
        r
    }
}

/// Every error in `indexed_errors(outcomes)` has the index of an outcome.
pub proof fn lemma_indexed_errors_indices<E>(outcomes: Seq<Result<(), ValidationErrors<E>>>)
    requires
        outcomes.len() <= usize::MAX,
    ensures
        forall|i: int|
            0 <= i < indexed_errors(outcomes).len() ==> #[trigger] indexed_errors(outcomes)[i].index
                < outcomes.len(),
    decreases outcomes.len(),
{
    if outcomes.len() > 0 {
        let n = (outcomes.len() - 1) as int;
        lemma_indexed_errors_indices(outcomes.drop_last());
        let prefix = indexed_errors(outcomes.drop_last());
        let added = outcome_errors(outcomes[n]).map_values(
            |e: E| IndexedValidationError { index: n as usize, error: e },
        );
        assert forall|i: int|
            0 <= i < indexed_errors(outcomes).len() implies #[trigger] indexed_errors(
            outcomes,
        )[i].index < outcomes.len() by {
            if i < prefix.len() {
                assert(indexed_errors(outcomes)[i] == prefix[i]);
            } else {
                assert(indexed_errors(outcomes)[i] == added[i - prefix.len()]);
            }
        }
    }
}

/// Whether the key type and the hasher of a `HashMap<K, V>` follow the model that vstd gives
/// hash maps.
pub open spec fn hash_map_modelled<K>() -> bool {
    vstd::std_specs::hash::obeys_key_model::<K>()
        && vstd::std_specs::hash::builds_valid_hashers::<std::collections::hash_map::RandomState>()
}

/// Whether `r` is what collecting the keyed outcomes `outcomes` gives: valid when they hold no
/// error, else their errors, in order, each with a clone of its key.
pub open spec fn collects_keyed<K: Clone, E>(
    r: Result<(), ValidationErrors<KeyedValidationError<K, E>>>,
    outcomes: Seq<(K, Result<(), ValidationErrors<E>>)>,
) -> bool {
    if keyed_errors(outcomes).len() == 0 {
        r is Ok
    } else {
        r matches Err(es) && clones_of(es@, keyed_errors(outcomes))
    }
}

/// Whether `entries` lists the entries of `m`, each once, in some order.
pub open spec fn lists_entries<K, V>(m: Map<K, V>, entries: Seq<(K, V)>) -> bool {
    &&& entries.len() == m.len()
    &&& forall|i: int|
        0 <= i < entries.len() ==> m.contains_key(#[trigger] entries[i].0) && m[entries[i].0]
            == entries[i].1
    &&& forall|k: K|
        #[trigger] m.contains_key(k) ==> exists|i: int| 0 <= i < entries.len() && entries[i].0 == k
}

/// Whether `r` is the outcome of validating the entries `entries` in `context`, with
/// `outcomes` the outcome of each entry, with a clone of its key.
pub open spec fn entries_outcome<K: Clone, V: ValidateWithContext>(
    entries: Seq<(K, V)>,
    context: &V::Context,
    outcomes: Seq<(K, Result<(), ValidationErrors<V::Error>>)>,
    r: Result<(), ValidationErrors<KeyedValidationError<K, V::Error>>>,
) -> bool {
    &&& outcomes.len() == entries.len()
    &&& forall|i: int|
        0 <= i < outcomes.len() ==> cloned(entries[i].0, #[trigger] outcomes[i].0)
            && entries[i].1.sync_outcome(context, outcomes[i].1)
    &&& collects_keyed(r, outcomes)
}

/// `Iterator::collect` of a hash map's iterator into a vector: the entries that the iterator
/// yields, in the order in which it yields them (what vstd calls its remaining items).
#[verifier::external_body]
fn collect_entries<'a, K, V>(iter: std::collections::hash_map::Iter<'a, K, V>) -> (r: Vec<
    (&'a K, &'a V),
>)
    ensures
        r@ == vstd::std_specs::iter::IteratorSpec::remaining(&iter),
{
    iter.collect()
}

/// What a map's iterator yields, where the key type and hasher follow vstd's model: every entry
/// of the map once, in some order.
proof fn lemma_iter_entries<K, V>(m: &std::collections::HashMap<K, V>, entries: Seq<(&K, &V)>)
    requires
        hash_map_modelled::<K>(),
        entries == vstd::std_specs::iter::IteratorSpec::remaining(
            &vstd::std_specs::hash::spec_hash_map_iter(m),
        ),
    ensures
        entries.len() == m@.len(),
        forall|i: int|
            0 <= i < entries.len() ==> m@.contains_key(*entries[i].0) && m@[*entries[i].0]
                == *entries[i].1,
        forall|k: K|
            #[trigger] m@.contains_key(k) ==> exists|i: int|
                0 <= i < entries.len() && *entries[i].0 == k,
{
    broadcast use vstd::std_specs::hash::axiom_spec_hash_map_iter;

    assert forall|k: K| #[trigger] m@.contains_key(k) implies exists|i: int|
        0 <= i < entries.len() && *entries[i].0 == k by {
        assert(entries.contains((&k, &m@[k])));
        let i = choose|i: int| 0 <= i < entries.len() && entries[i] == (&k, &m@[k]);
        assert(*entries[i].0 == k);
    }
}

impl<K: Clone, V: ValidateWithContext> ValidateWithContext for std::collections::HashMap<K, V> {
    type Context = V::Context;

    type Error = KeyedValidationError<K, V::Error>;

    /// Each entry's value is validated in `context`, and the errors of all entries are
    /// collected, in the order in which the map is walked, each with a clone of its key. Which
    /// entries are walked is stated where the key type and hasher follow vstd's model.
    open spec fn sync_outcome(
        &self,
        context: &Self::Context,
        r: Result<(), ValidationErrors<Self::Error>>,
    ) -> bool {
        exists|
            entries: Seq<(K, V)>,
            outcomes: Seq<(K, Result<(), ValidationErrors<V::Error>>)>,
        |
            {
                &&& hash_map_modelled::<K>() ==> lists_entries(self@, entries)
                &&& #[trigger] entries_outcome(entries, context, outcomes, r)
            }
    }

    fn validate_sync_with_context(&self, context: &Self::Context) -> (r: Result<
        (),
        ValidationErrors<Self::Error>,
    >)
        ensures
            r matches Err(es) ==> es@.len() > 0,
    {
        let iter = self.iter();
        let entries = collect_entries(iter);
        proof {
            if hash_map_modelled::<K>() {
                lemma_iter_entries(self, entries@);
            }
        }
        let mut outcomes: Vec<(K, Result<(), ValidationErrors<V::Error>>)> = Vec::new();
        let n = entries.len();
        let mut i: usize = 0;
        while i < n
            invariant
                n == entries@.len(),
                i <= n,
                outcomes@.len() == i,
                forall|j: int|
                    0 <= j < i ==> cloned(*entries@[j].0, #[trigger] outcomes@[j].0) && (
                    *entries@[j].1).sync_outcome(context, outcomes@[j].1),
            decreases n - i,
        {
            let (key, value) = entries[i];
            let cloned_key = K::clone(key);
            assert(cloned(*key, cloned_key));
            let outcome = value.validate_sync_with_context(context);
            let ghost prev = outcomes@;
            outcomes.push((cloned_key, outcome));
            proof {
                assert forall|j: int| 0 <= j < i + 1 implies cloned(
                    *entries@[j].0,
                    #[trigger] outcomes@[j].0,
                ) && (*entries@[j].1).sync_outcome(context, outcomes@[j].1) by {
                    if j < i {
                        assert(outcomes@[j] == prev[j]);
                        assert(cloned(*entries@[j].0, prev[j].0));
                    } else {
                        assert(outcomes@[j] == (cloned_key, outcome));
                        assert(*entries@[j].0 == *key);
                    }
                }
            }
            i = i + 1;
        }
        let ghost all = outcomes@;
        let ghost listed = entries@.map_values(|e: (&K, &V)| (*e.0, *e.1));
        proof {
            if hash_map_modelled::<K>() {
                assert forall|k: K| #[trigger] self@.contains_key(k) implies exists|j: int|
                    0 <= j < listed.len() && listed[j].0 == k by {
                    let j = choose|j: int| 0 <= j < entries@.len() && *entries@[j].0 == k;
                    assert(listed[j].0 == k);
                }
                assert forall|j: int| 0 <= j < listed.len() implies self@.contains_key(
                    #[trigger] listed[j].0,
                ) && self@[listed[j].0] == listed[j].1 by {
                    assert(listed[j] == (*entries@[j].0, *entries@[j].1));
                }
                assert(lists_entries(self@, listed));
            }
            assert forall|j: int| 0 <= j < all.len() implies cloned(
                listed[j].0,
                #[trigger] all[j].0,
            ) && listed[j].1.sync_outcome(context, all[j].1) by {
                assert(all[j] == outcomes@[j]);
                assert(listed[j] == (*entries@[j].0, *entries@[j].1));
                assert(cloned(*entries@[j].0, outcomes@[j].0));
            }
        }
        let r = collect_keyed_errors(outcomes);
        assert(entries_outcome(listed, context, all, r));
        r
    }
}

} // verus!
