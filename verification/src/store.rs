//! The variable store: names bound to the JSON values that scripts returned.

use serde_json::Value;
use vstd::prelude::*;

verus! {

/// `serde_json::Value`, a JSON value. The library carries such values from
/// the backend to the store and back and never looks inside one.
#[verifier::external_type_specification]
#[verifier::external_body]
pub struct ExValue(serde_json::Value);

/// Calls `Value::clone` of serde_json, which that crate derives: the copy is
/// the same JSON value as the one it was made from.
#[verifier::external_body]
pub(crate) fn copy_value(v: &Value) -> (r: Value)
    ensures
        r == *v,
{
    v.clone()
}

/// The texts of a sequence of strings.
pub open spec fn texts(v: Seq<String>) -> Seq<Seq<char>> {
    Seq::new(v.len(), |i: int| v[i]@)
}

/// Names bound to JSON values. A name is bound at most once; binding it
/// again replaces the value and keeps the name's place.
#[derive(Debug)]
pub struct VarStore {
    names: Vec<String>,
    values: Vec<Value>,
}

impl VarStore {
    /// The name in place `i`.
    pub closed spec fn key(&self, i: int) -> Seq<char> {
        self.names@[i]@
    }

    /// The value in place `i`.
    pub closed spec fn value_at(&self, i: int) -> Value {
        self.values@[i]
    }

    /// How many names are bound.
    pub closed spec fn count(&self) -> int {
        self.names@.len() as int
    }

    /// Validity: every name has its value, and no name occurs twice.
    pub closed spec fn wf(&self) -> bool {
        &&& self.names@.len() == self.values@.len()
        &&& forall|i: int, j: int|
            0 <= i < j < self.count() ==> #[trigger] self.key(i) != #[trigger] self.key(j)
    }

    /// Whether `k` is bound.
    pub closed spec fn bound(&self, k: Seq<char>) -> bool {
        exists|i: int| 0 <= i < self.count() && #[trigger] self.key(i) == k
    }

    /// The place of `k`, where it is bound.
    pub closed spec fn place(&self, k: Seq<char>) -> int {
        choose|i: int| 0 <= i < self.count() && #[trigger] self.key(i) == k
    }

    /// The store as a map from names to values.
    pub closed spec fn view(&self) -> Map<Seq<char>, Value> {
        Map::new(|k: Seq<char>| self.bound(k), |k: Seq<char>| self.value_at(self.place(k)))
    }

    /// The bound names in the order in which they were first bound.
    pub closed spec fn keys(&self) -> Seq<Seq<char>> {
        Seq::new(self.names@.len(), |i: int| self.key(i))
    }

    /// The bound values in the order of [`Self::keys`].
    pub open spec fn values_in_order(&self) -> Seq<Value> {
        Seq::new(self.keys().len(), |i: int| self@[self.keys()[i]])
    }

    /// Whether this store is `before` with `name` bound to `value`: a name
    /// that was bound keeps its place, a new one goes to the end.
    pub open spec fn is_insert_of(&self, before: VarStore, name: Seq<char>, value: Value) -> bool {
        &&& self.wf()
        &&& self@ == before@.insert(name, value)
        &&& self.keys() == (if before@.contains_key(name) {
            before.keys()
        } else {
            before.keys().push(name)
        })
    }

    /// The name in place `i` is bound, to the value in place `i`.
    proof fn lemma_place(&self, i: int)
        requires
            self.wf(),
            0 <= i < self.count(),
        ensures
            self.bound(self.key(i)),
            self.place(self.key(i)) == i,
            self@.contains_key(self.key(i)),
            self@[self.key(i)] == self.value_at(i),
    {
        let k = self.key(i);
        let p = self.place(k);
        assert(0 <= p < self.count() && self.key(p) == k);
        if p < i {
            assert(self.key(p) != self.key(i));
        } else if i < p {
            assert(self.key(i) != self.key(p));
        }
    }

    /// The names and the map describe the same bindings: the names are
    /// pairwise different, and they are exactly the map's domain.
    pub proof fn lemma_keys_are_domain(&self)
        requires
            self.wf(),
        ensures
            self.keys().no_duplicates(),
            forall|k: Seq<char>| self.keys().contains(k) <==> self@.contains_key(k),
    {
        assert forall|i: int, j: int|
            0 <= i < self.keys().len() && 0 <= j < self.keys().len() && i != j implies self.keys()[i]
            != self.keys()[j] by {
            if i < j {
                assert(self.key(i) != self.key(j));
            } else {
                assert(self.key(j) != self.key(i));
            }
        }
        assert forall|k: Seq<char>| self.keys().contains(k) <==> self@.contains_key(k) by {
            if self.keys().contains(k) {
                let i = choose|i: int| 0 <= i < self.keys().len() && self.keys()[i] == k;
                assert(self.key(i) == k);
            }
            if self@.contains_key(k) {
                let i = self.place(k);
                assert(self.keys()[i] == k);
            }
        }
    }

    /// A name that was just bound is bound to exactly that value, and every
    /// other name is bound, or unbound, as it was before.
    pub proof fn lemma_insert_then_get(
        before: VarStore,
        after: VarStore,
        name: Seq<char>,
        value: Value,
    )
        requires
            after.is_insert_of(before, name, value),
        ensures
            after@.contains_key(name),
            after@[name] == value,
            forall|k: Seq<char>|
                k != name ==> (after@.contains_key(k) <==> before@.contains_key(k)),
            forall|k: Seq<char>|
                k != name && before@.contains_key(k) ==> after@[k] == before@[k],
    {
    }

    /// An empty store.
    pub fn new() -> (r: Self)
        ensures
            r.wf(),
            r@ == Map::<Seq<char>, Value>::empty(),
            r.keys() == Seq::<Seq<char>>::empty(),
    {
        let r = VarStore { names: Vec::new(), values: Vec::new() };
        proof {
            assert(r@ =~= Map::<Seq<char>, Value>::empty());
            assert(r.keys() =~= Seq::<Seq<char>>::empty());
        }
        r
    }

    /// The number of bound names.
    pub fn len(&self) -> (r: usize)
        requires
            self.wf(),
        ensures
            r == self.keys().len(),
    {
        self.names.len()
    }

    /// The place of `name` among the bound names, if it is bound.
    fn find(&self, name: &String) -> (r: Option<usize>)
        requires
            self.wf(),
        ensures
            match r {
                Some(i) => i < self.count() && self.key(i as int) == name@,
                None => !self.bound(name@),
            },
    {
        let mut i: usize = 0;
        while i < self.names.len()
            invariant
                i <= self.count(),
                forall|j: int| 0 <= j < i ==> #[trigger] self.key(j) != name@,
            decreases self.count() - i,
        {
            if self.names[i] == *name {
                return Some(i);
            }
            i += 1;
        }
        None
    }

    /// The value bound to `name`; `None` where the name is unbound, which a
    /// bound JSON `null` or empty string is not.
    pub fn get(&self, name: &str) -> (r: Option<&Value>)
        requires
            self.wf(),
        ensures
            match r {
                Some(v) => self@.contains_key(name@) && *v == self@[name@],
                None => !self@.contains_key(name@),
            },
    {
        let key = name.to_owned();
        match self.find(&key) {
            Some(i) => {
                proof {
                    self.lemma_place(i as int);
                }
                Some(&self.values[i])
            },
            None => None,
        }
    }

    /// Whether `name` is bound.
    pub fn contains(&self, name: &str) -> (r: bool)
        requires
            self.wf(),
        ensures
            r == self@.contains_key(name@),
    {
        let key = name.to_owned();
        self.find(&key).is_some()
    }

    /// Binds `name` to `value`. A name that was bound keeps its place and
    /// loses its former value; a new name goes to the end.
    pub fn insert(&mut self, name: String, value: Value)
        requires
            old(self).wf(),
        ensures
            final(self).is_insert_of(*old(self), name@, value),
    {
        let ghost before = *self;
        match self.find(&name) {
            Some(i) => {
                self.values.set(i, value);
                proof {
                    before.lemma_place(i as int);
                    assert forall|j: int| 0 <= j < self.count() implies self.key(j) == before.key(
                        j,
                    ) by {}
                    assert(self.wf()) by {
                        assert forall|a: int, b: int| 0 <= a < b < self.count() implies self.key(a)
                            != self.key(b) by {
                            assert(before.key(a) != before.key(b));
                        }
                    }
                    assert forall|k: Seq<char>| self.bound(k) == before.bound(k) by {
                        if self.bound(k) {
                            let p = self.place(k);
                            assert(before.key(p) == k);
                        }
                        if before.bound(k) {
                            let p = before.place(k);
                            assert(self.key(p) == k);
                        }
                    }
                    assert forall|k: Seq<char>| self.bound(k) implies self.value_at(self.place(k))
                        == before@.insert(name@, value)[k] by {
                        let p = self.place(k);
                        assert(before.key(p) == k);
                        before.lemma_place(p);
                        self.lemma_place(p);
                    }
                    assert(self@ =~= before@.insert(name@, value));
                    assert(self.keys() =~= before.keys());
                }
            },
            None => {
                self.names.push(name);
                self.values.push(value);
                proof {
                    let n = before.count();
                    assert forall|j: int| 0 <= j < n implies self.key(j) == before.key(j) by {}
                    assert(self.key(n) == name@);
                    assert(self.wf()) by {
                        assert forall|a: int, b: int| 0 <= a < b < self.count() implies self.key(a)
                            != self.key(b) by {
                            if b < n {
                                assert(before.key(a) != before.key(b));
                            } else {
                                assert(before.key(a) != name@);
                            }
                        }
                    }
                    assert forall|k: Seq<char>| self.bound(k) == (before.bound(k) || k == name@) by {
                        if self.bound(k) {
                            let p = self.place(k);
                            if p < n {
                                assert(before.key(p) == k);
                            }
                        }
                        if before.bound(k) {
                            let p = before.place(k);
                            assert(self.key(p) == k);
                        }
                        if k == name@ {
                            assert(self.key(n) == k);
                        }
                    }
                    assert forall|k: Seq<char>| self.bound(k) implies self.value_at(self.place(k))
                        == before@.insert(name@, value)[k] by {
                        let p = self.place(k);
                        self.lemma_place(p);
                        if p < n {
                            assert(before.key(p) == k);
                            before.lemma_place(p);
                        }
                    }
                    assert(self@ =~= before@.insert(name@, value));
                    assert(self.keys() =~= before.keys().push(name@));
                }
            },
        }
    }

    /// The bound names with their values, in the order of [`Self::keys`].
    pub fn bindings(&self) -> (r: (Vec<String>, Vec<Value>))
        requires
            self.wf(),
        ensures
            texts(r.0@) == self.keys(),
            r.1@ == self.values_in_order(),
    {
        let mut names: Vec<String> = Vec::new();
        let mut values: Vec<Value> = Vec::new();
        let mut i: usize = 0;
        while i < self.names.len()
            invariant
                self.wf(),
                i <= self.count(),
                names@.len() == i,
                values@.len() == i,
                forall|j: int| 0 <= j < i ==> (#[trigger] names@[j])@ == self.key(j),
                forall|j: int| 0 <= j < i ==> #[trigger] values@[j] == self.value_at(j),
            decreases self.count() - i,
        {
            names.push(self.names[i].clone());
            values.push(copy_value(&self.values[i]));
            i += 1;
        }
        proof {
            assert forall|j: int| 0 <= j < self.keys().len() implies #[trigger] values@[j]
                == self@[self.keys()[j]] by {
                self.lemma_place(j);
            }
            assert(texts(names@) =~= self.keys());
            assert(values@ =~= self.values_in_order());
        }
        (names, values)
    }
}

} // verus!
