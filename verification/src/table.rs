//! Collections keyed by text, kept in vectors.

use vstd::prelude::*;
use vstd::string::*;

verus! {

/// The character sequences of a sequence of strings, in the same order.
pub open spec fn texts(names: Seq<String>) -> Seq<Seq<char>> {
    names.map_values(|s: String| s@)
}

/// Looks `key` up in a list of names: the first index that holds it, if any.
pub fn position(names: &Vec<String>, key: &str) -> (found: Option<usize>)
    ensures
        found is Some <==> texts(names@).contains(key@),
        found matches Some(i) ==> i < names.len() && texts(names@)[i as int] == key@,
        found matches Some(i) ==> forall|j: int| 0 <= j < i ==> texts(names@)[j] != key@,
{
    let wanted = String::from_str(key);
    let mut i: usize = 0;
    while i < names.len()
        invariant
            i <= names.len(),
            wanted@ == key@,
            forall|j: int| 0 <= j < i ==> texts(names@)[j] != key@,
        decreases names.len() - i,
    {
        if names[i] == wanted {
            assert(texts(names@)[i as int] == key@);
            return Some(i);
        }
        i += 1;
    }
    None
}

/// Removing one element of a sequence without repeats removes exactly that
/// element from its set.
pub proof fn lemma_remove_distinct<A>(s: Seq<A>, i: int)
    requires
        s.no_duplicates(),
        0 <= i < s.len(),
    ensures
        s.remove(i).no_duplicates(),
        s.remove(i).to_set() == s.to_set().remove(s[i]),
{
    let r = s.remove(i);
    assert forall|x: A| r.to_set().contains(x) <==> s.to_set().remove(s[i]).contains(x) by {
        if s.to_set().remove(s[i]).contains(x) {
            let at = choose|a: int| 0 <= a < s.len() && s[a] == x;
            let moved = if at < i { at } else { at - 1 };
            assert(r[moved] == x);
        }
    }
}

/// Appending a new element to a sequence without repeats adds it to its set.
pub proof fn lemma_push_distinct<A>(s: Seq<A>, x: A)
    requires
        s.no_duplicates(),
        !s.contains(x),
    ensures
        s.push(x).no_duplicates(),
        s.push(x).to_set() == s.to_set().insert(x),
{
    let p = s.push(x);
    assert forall|y: A| p.to_set().contains(y) <==> s.to_set().insert(x).contains(y) by {
        if s.to_set().insert(x).contains(y) {
            if y == x {
                assert(p[s.len() as int] == y);
            } else {
                let at = choose|a: int| 0 <= a < s.len() && s[a] == y;
                assert(p[at] == y);
            }
        }
    }
}

/// The first `k + 1` elements of a sequence hold what the first `k` hold, and
/// the element at `k`.
pub proof fn lemma_take_step<A>(s: Seq<A>, k: int)
    requires
        0 <= k < s.len(),
    ensures
        forall|x: A| #[trigger] s.take(k + 1).contains(x) <==> s.take(k).contains(x) || x == s[k],
{
    assert forall|x: A| #[trigger] s.take(k + 1).contains(x) <==> s.take(k).contains(x) || x
        == s[k] by {
        if x == s[k] {
            assert(s.take(k + 1)[k] == x);
        }
    }
}

/// In a sequence without repeats, the element at `k` is not among the first
/// `k`.
pub proof fn lemma_take_fresh<A>(s: Seq<A>, k: int)
    requires
        s.no_duplicates(),
        0 <= k < s.len(),
    ensures
        !s.take(k).contains(s[k]),
{
}

/// A finite set of names.
pub struct NameSet {
    names: Vec<String>,
}

impl View for NameSet {
    type V = Set<Seq<char>>;

    closed spec fn view(&self) -> Set<Seq<char>> {
        texts(self.names@).to_set()
    }
}

impl NameSet {
    /// No name is stored twice.
    #[verifier::type_invariant]
    spec fn distinct(&self) -> bool {
        texts(self.names@).no_duplicates()
    }

    /// A name set is finite.
    pub proof fn lemma_finite(&self)
        ensures
            self@.finite(),
    {
    }

    /// The empty set.
    pub fn new() -> (s: Self)
        ensures
            s@ == Set::<Seq<char>>::empty(),
    {
        NameSet { names: Vec::new() }
    }

    /// Whether `name` is in the set.
    pub fn contains(&self, name: &str) -> (found: bool)
        ensures
            found == self@.contains(name@),
    {
        position(&self.names, name).is_some()
    }

    /// Adds `name`; tells whether it was new.
    pub fn insert(&mut self, name: String) -> (added: bool)
        ensures
            final(self)@ == old(self)@.insert(name@),
            added == !old(self)@.contains(name@),
    {
        proof {
            use_type_invariant(&*self);
        }
        match position(&self.names, name.as_str()) {
            Some(_) => false,
            None => {
                proof {
                    lemma_push_distinct(texts(self.names@), name@);
                    assert(texts(self.names@.push(name)) =~= texts(self.names@).push(name@));
                }
                let mut names = Vec::new();
                std::mem::swap(&mut names, &mut self.names);
                names.push(name);
                self.names = names;
                true
            },
        }
    }

    /// Takes `name` out; tells whether it was there.
    pub fn remove(&mut self, name: &str) -> (removed: bool)
        ensures
            final(self)@ == old(self)@.remove(name@),
            removed == old(self)@.contains(name@),
    {
        proof {
            use_type_invariant(&*self);
        }
        match position(&self.names, name) {
            Some(i) => {
                proof {
                    lemma_remove_distinct(texts(self.names@), i as int);
                    assert(texts(self.names@.remove(i as int)) =~= texts(self.names@).remove(
                        i as int,
                    ));
                }
                let mut names = Vec::new();
                std::mem::swap(&mut names, &mut self.names);
                names.remove(i);
                self.names = names;
                true
            },
            None => false,
        }
    }

    /// Whether the set holds no name.
    pub fn is_empty(&self) -> (empty: bool)
        ensures
            empty == self@.is_empty(),
    {
        let empty = self.names.len() == 0;
        proof {
            if !empty {
                assert(texts(self.names@)[0] == self.names[0]@);
                assert(self@.contains(self.names[0]@));
            }
        }
        empty
    }

    /// How many names the set holds.
    pub fn len(&self) -> (n: usize)
        ensures
            n == self@.len(),
    {
        proof {
            use_type_invariant(self);
            texts(self.names@).unique_seq_to_set();
        }
        self.names.len()
    }

    /// Gives the set up for its names, each once, in no particular order.
    pub fn into_vec(self) -> (names: Vec<String>)
        ensures
            texts(names@).no_duplicates(),
            texts(names@).to_set() == self@,
    {
        proof {
            use_type_invariant(&self);
        }
        self.names
    }

    /// The names of the set, each once, in no particular order.
    pub fn as_vec(&self) -> (names: &Vec<String>)
        ensures
            texts(names@).no_duplicates(),
            texts(names@).to_set() == self@,
    {
        proof {
            use_type_invariant(self);
        }
        &self.names
    }
}

/// The map that a list of distinct keys and the list of their values stand for.
pub open spec fn entries<V>(keys: Seq<Seq<char>>, values: Seq<V>) -> Map<Seq<char>, V> {
    Map::new(|k: Seq<char>| keys.contains(k), |k: Seq<char>| values[keys.index_of(k)])
}

/// A finite map from names to values.
pub struct Table<V> {
    keys: Vec<String>,
    values: Vec<V>,
}

impl<V> View for Table<V> {
    type V = Map<Seq<char>, V>;

    closed spec fn view(&self) -> Map<Seq<char>, V> {
        entries(texts(self.keys@), self.values@)
    }
}

impl<V> Table<V> {
    /// Every key has its value, and no key is stored twice.
    #[verifier::type_invariant]
    spec fn paired(&self) -> bool {
        &&& self.keys@.len() == self.values@.len()
        &&& texts(self.keys@).no_duplicates()
    }

    /// A table has finitely many keys.
    pub proof fn lemma_finite(&self)
        ensures
            self@.dom().finite(),
    {
        assert(self@.dom() =~= texts(self.keys@).to_set());
    }

    /// The empty table.
    pub fn new() -> (t: Self)
        ensures
            t@ == Map::<Seq<char>, V>::empty(),
    {
        Table { keys: Vec::new(), values: Vec::new() }
    }

    /// Empties the table and hands out what it held.
    fn drain(&mut self) -> (parts: (Vec<String>, Vec<V>))
        ensures
            parts.0 == old(self).keys,
            parts.1 == old(self).values,
            final(self)@ == Map::<Seq<char>, V>::empty(),
    {
        let mut whole = Table::new();
        std::mem::swap(self, &mut whole);
        (whole.keys, whole.values)
    }

    /// Whether `key` has a value.
    pub fn contains_key(&self, key: &str) -> (found: bool)
        ensures
            found == self@.contains_key(key@),
    {
        position(&self.keys, key).is_some()
    }

    /// The value of `key`, if it has one.
    pub fn get(&self, key: &str) -> (value: Option<&V>)
        ensures
            value is Some <==> self@.contains_key(key@),
            value matches Some(v) ==> *v == self@[key@],
    {
        proof {
            use_type_invariant(self);
        }
        match position(&self.keys, key) {
            Some(i) => Some(&self.values[i]),
            None => None,
        }
    }

    /// Takes `key` out with its value, if it has one.
    pub fn remove(&mut self, key: &str) -> (value: Option<V>)
        ensures
            final(self)@ == old(self)@.remove(key@),
            value is Some <==> old(self)@.contains_key(key@),
            value matches Some(v) ==> v == old(self)@[key@],
    {
        proof {
            use_type_invariant(&*self);
        }
        match position(&self.keys, key) {
            Some(i) => {
                proof {
                    lemma_remove_distinct(texts(self.keys@), i as int);
                    assert(texts(self.keys@.remove(i as int)) =~= texts(self.keys@).remove(
                        i as int,
                    ));
                }
                let (mut keys, mut values) = self.drain();
                keys.remove(i);
                let value = values.remove(i);
                *self = Table { keys, values };
                Some(value)
            },
            None => None,
        }
    }

    /// Gives `key` the value `value`; hands back the value it had, if any.
    pub fn insert(&mut self, key: String, value: V) -> (previous: Option<V>)
        ensures
            final(self)@ == old(self)@.insert(key@, value),
            previous is Some <==> old(self)@.contains_key(key@),
            previous matches Some(v) ==> v == old(self)@[key@],
    {
        let previous = self.remove(key.as_str());
        proof {
            use_type_invariant(&*self);
            assert(self@.contains_key(key@) == texts(self.keys@).contains(key@));
            lemma_push_distinct(texts(self.keys@), key@);
            assert(texts(self.keys@.push(key)) =~= texts(self.keys@).push(key@));
            assert(old(self)@.remove(key@).insert(key@, value) =~= old(self)@.insert(key@, value));
        }
        let (mut keys, mut values) = self.drain();
        keys.push(key);
        values.push(value);
        *self = Table { keys, values };
        previous
    }

    /// Takes some key out with its value; `None` when the table is empty.
    pub fn pop(&mut self) -> (entry: Option<(String, V)>)
        ensures
            entry is None <==> old(self)@.dom().is_empty(),
            entry is None ==> final(self)@ == old(self)@,
            entry matches Some((k, v)) ==> old(self)@.contains_key(k@) && old(self)@[k@] == v
                && final(self)@ == old(self)@.remove(k@),
    {
        proof {
            use_type_invariant(&*self);
        }
        let n = self.keys.len();
        if n == 0 {
            return None;
        }
        proof {
            let i = (n - 1) as int;
            lemma_remove_distinct(texts(self.keys@), i);
            assert(texts(self.keys@.remove(i)) =~= texts(self.keys@).remove(i));
        }
        let (mut keys, mut values) = self.drain();
        let k = keys.remove(n - 1);
        let v = values.remove(n - 1);
        *self = Table { keys, values };
        Some((k, v))
    }

    /// Whether the table holds no key.
    pub fn is_empty(&self) -> (empty: bool)
        ensures
            empty == self@.dom().is_empty(),
    {
        let empty = self.keys.len() == 0;
        proof {
            if !empty {
                assert(texts(self.keys@)[0] == self.keys[0]@);
                assert(self@.dom().contains(self.keys[0]@));
            }
        }
        empty
    }
}

} // verus!
