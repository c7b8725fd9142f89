use vstd::prelude::*;

verus! {

/// A byte buffer carried as an extension value.
#[derive(Clone)]
pub struct BytesExt {
    pub bytes: Vec<u8>,
}

/// A scalar extension value. A float is carried as its IEEE-754 bit pattern.
#[derive(Clone)]
pub enum ExtensionPrimitive {
    Str(String),
    I64(i64),
    U64(u64),
    F64(u64),
    Bool(bool),
    Bytes(BytesExt),
}

/// An extension value: a scalar, or a map or list of scalars.
#[derive(Clone)]
pub enum ExtensionValue {
    Str(String),
    I64(i64),
    U64(u64),
    F64(u64),
    Bool(bool),
    Bytes(BytesExt),
    Dict(Vec<(String, ExtensionPrimitive)>),
    List(Vec<ExtensionPrimitive>),
}

/// The keys of a nested map are distinct.
pub open spec fn dict_keys_distinct(d: Seq<(String, ExtensionPrimitive)>) -> bool {
    forall|i: int, j: int| 0 <= i < d.len() && 0 <= j < d.len() && i != j ==> (#[trigger] d[i]).0@ != (#[trigger] d[j]).0@
}

/// A value is well formed when a nested map it holds has distinct keys.
pub open spec fn value_ok(v: ExtensionValue) -> bool {
    v matches ExtensionValue::Dict(d) ==> dict_keys_distinct(d@)
}

pub open spec fn values_ok(s: Seq<(String, ExtensionValue)>) -> bool {
    forall|i: int| 0 <= i < s.len() ==> value_ok((#[trigger] s[i]).1)
}

pub open spec fn entries_map(s: Seq<(String, ExtensionValue)>) -> Map<Seq<char>, ExtensionValue>
    decreases s.len(),
{
    if s.len() == 0 {
        Map::empty()
    } else {
        entries_map(s.drop_last()).insert(s.last().0@, s.last().1)
    }
}

pub open spec fn keys_distinct(s: Seq<(String, ExtensionValue)>) -> bool {
    forall|i: int, j: int| 0 <= i < s.len() && 0 <= j < s.len() && i != j ==> (#[trigger] s[i]).0@ != (#[trigger] s[j]).0@
}

proof fn lemma_entries_dom(s: Seq<(String, ExtensionValue)>, k: Seq<char>)
    ensures
        entries_map(s).contains_key(k) <==> exists|i: int| 0 <= i < s.len() && (#[trigger] s[i]).0@ == k,
    decreases s.len(),
{
    if s.len() > 0 {
        lemma_entries_dom(s.drop_last(), k);
        if entries_map(s).contains_key(k) && s.last().0@ != k {
            let i = choose|i: int| 0 <= i < s.drop_last().len() && (#[trigger] s.drop_last()[i]).0@ == k;
            assert(s[i].0@ == k);
        }
        if exists|i: int| 0 <= i < s.len() && (#[trigger] s[i]).0@ == k {
            let i = choose|i: int| 0 <= i < s.len() && (#[trigger] s[i]).0@ == k;
            if i < s.len() - 1 {
                assert(s.drop_last()[i].0@ == k);
            }
        }
    }
}

proof fn lemma_entries_update(s: Seq<(String, ExtensionValue)>, i: int, e: (String, ExtensionValue))
    requires
        keys_distinct(s),
        0 <= i < s.len(),
        e.0@ == s[i].0@,
    ensures
        entries_map(s.update(i, e)) == entries_map(s).insert(e.0@, e.1),
    decreases s.len(),
{
    let t = s.update(i, e);
    if i == s.len() - 1 {
        assert(t.drop_last() =~= s.drop_last());
        assert(entries_map(t) =~= entries_map(s).insert(e.0@, e.1));
    } else {
        assert(t.drop_last() =~= s.drop_last().update(i, e));
        assert(keys_distinct(s.drop_last())) by {
            assert forall|a: int, b: int| 0 <= a < s.drop_last().len() && 0 <= b < s.drop_last().len() && a != b
                implies (#[trigger] s.drop_last()[a]).0@ != (#[trigger] s.drop_last()[b]).0@ by {
                assert(s[a] == s.drop_last()[a] && s[b] == s.drop_last()[b]);
            }
        }
        lemma_entries_update(s.drop_last(), i, e);
        assert(s[s.len() - 1].0@ != s[i].0@);
        assert(entries_map(t) =~= entries_map(s).insert(e.0@, e.1));
    }
}

proof fn lemma_entries_get(s: Seq<(String, ExtensionValue)>, i: int)
    requires
        keys_distinct(s),
        0 <= i < s.len(),
    ensures
        entries_map(s).contains_key(s[i].0@),
        entries_map(s)[s[i].0@] == s[i].1,
    decreases s.len(),
{
    if i < s.len() - 1 {
        let d = s.drop_last();
        assert(keys_distinct(d)) by {
            assert forall|a: int, b: int| 0 <= a < d.len() && 0 <= b < d.len() && a != b
                implies (#[trigger] d[a]).0@ != (#[trigger] d[b]).0@ by {
                assert(s[a] == d[a] && s[b] == d[b]);
            }
        }
        lemma_entries_get(d, i);
        assert(s[s.len() - 1].0@ != s[i].0@);
    }
}

/// The side-channel data of a request: string keys, each present once,
/// kept in the order they were first added.
#[derive(Clone)]
pub struct Extensions {
    entries: Vec<(String, ExtensionValue)>,
}

impl Extensions {
    pub closed spec fn view(&self) -> Map<Seq<char>, ExtensionValue> {
        entries_map(self.entries@)
    }

    pub closed spec fn well_formed(&self) -> bool {
        keys_distinct(self.entries@) && values_ok(self.entries@)
    }

    pub fn new() -> (r: Self)
        ensures
            r.view() == Map::<Seq<char>, ExtensionValue>::empty(),
            r.well_formed(),
    {
        Extensions { entries: Vec::new() }
    }

    pub fn len(&self) -> (r: usize)
        requires
            self.well_formed(),
        ensures
            r == self.view().len(),
    {
        proof {
            self.lemma_len();
        }
        self.entries.len()
    }

    proof fn lemma_len(&self)
        requires
            self.well_formed(),
        ensures
            self.view().len() == self.entries@.len(),
            self.view().dom().finite(),
        decreases self.entries@.len(),
    {
        let s = self.entries@;
        lemma_entries_len(s);
    }

    fn find(&self, key: &str) -> (r: Option<usize>)
        ensures
            match r {
                Some(i) => i < self.entries@.len() && self.entries@[i as int].0@ == key@,
                None => forall|i: int| 0 <= i < self.entries@.len() ==> (#[trigger] self.entries@[i]).0@ != key@,
            },
    {
        let mut i: usize = 0;
        while i < self.entries.len()
            invariant
                i <= self.entries@.len(),
                forall|j: int| 0 <= j < i ==> (#[trigger] self.entries@[j]).0@ != key@,
            decreases self.entries@.len() - i,
        {
            let k = self.entries[i].0.as_str();
            let wanted = key.to_owned();
            let have = k.to_owned();
            if have == wanted {
                return Some(i);
            }
            i = i + 1;
        }
        None
    }

    /// Whether a key is present.
    pub fn contains_key(&self, key: &str) -> (r: bool)
        ensures
            r == self.view().contains_key(key@),
    {
        proof {
            lemma_entries_dom(self.entries@, key@);
        }
        self.find(key).is_some()
    }

    /// The value a key holds, if any.
    pub fn get(&self, key: &str) -> (r: Option<&ExtensionValue>)
        requires
            self.well_formed(),
        ensures
            r is Some <==> self.view().contains_key(key@),
            r is Some ==> *r->Some_0 == self.view()[key@],
    {
        proof {
            lemma_entries_dom(self.entries@, key@);
        }
        match self.find(key) {
            Some(i) => {
                proof {
                    lemma_entries_get(self.entries@, i as int);
                }
                Some(&self.entries[i].1)
            },
            None => None,
        }
    }

    /// The entries, in the order their keys were first added.
    pub fn entries(&self) -> (r: &Vec<(String, ExtensionValue)>)
        ensures
            entries_map(r@) == self.view(),
    {
        &self.entries
    }

    /// Sets a key to a value, replacing what it held.
    pub fn insert(&mut self, key: String, value: ExtensionValue)
        requires
            old(self).well_formed(),
            value_ok(value),
        ensures
            final(self).well_formed(),
            final(self).view() == old(self).view().insert(key@, value),
    {
        match self.find(key.as_str()) {
            Some(i) => {
                proof {
                    lemma_entries_update(self.entries@, i as int, (key, value));
                }
                self.entries.set(i, (key, value));
                assert(values_ok(self.entries@)) by {
                    assert forall|a: int| 0 <= a < self.entries@.len() implies value_ok((#[trigger] self.entries@[a]).1) by {
                        if a != i {
                            assert(self.entries@[a] == old(self).entries@[a]);
                        }
                    }
                }
                assert(keys_distinct(self.entries@)) by {
                    assert forall|a: int, b: int| 0 <= a < self.entries@.len() && 0 <= b < self.entries@.len() && a != b
                        implies (#[trigger] self.entries@[a]).0@ != (#[trigger] self.entries@[b]).0@ by {
                        assert(old(self).entries@[a].0@ == self.entries@[a].0@);
                        assert(old(self).entries@[b].0@ == self.entries@[b].0@);
                    }
                }
            },
            None => {
                let ghost before = self.entries@;
                self.entries.push((key, value));
                assert(self.entries@.drop_last() =~= before);
                assert(values_ok(self.entries@)) by {
                    assert forall|a: int| 0 <= a < self.entries@.len() implies value_ok((#[trigger] self.entries@[a]).1) by {
                        if a < before.len() {
                            assert(self.entries@[a] == before[a]);
                        }
                    }
                }
            },
        }
    }

    /// Writes every entry of `top` over this map: keys of `top` win.
    pub fn merge_from(&mut self, top: Extensions)
        requires
            old(self).well_formed(),
            top.well_formed(),
        ensures
            final(self).well_formed(),
            final(self).view() == old(self).view().union_prefer_right(top.view()),
    {
        let mut rest = top.entries;
        let ghost full = rest@;
        let ghost base = self.view();
        while rest.len() > 0
            invariant
                self.well_formed(),
                keys_distinct(full),
                values_ok(full),
                rest@.len() <= full.len(),
                rest@ == full.subrange(0, rest@.len() as int),
                base.union_prefer_right(entries_map(full)) == self.view().union_prefer_right(entries_map(rest@)),
            decreases rest@.len(),
        {
            let ghost before = rest@;
            let (k, v) = rest.pop().unwrap();
            assert(rest@ == before.drop_last());
            assert(rest@ == full.subrange(0, rest@.len() as int));
            proof {
                lemma_entries_dom(rest@, k@);
                assert(!entries_map(rest@).contains_key(k@)) by {
                    if entries_map(rest@).contains_key(k@) {
                        let i = choose|i: int| 0 <= i < rest@.len() && (#[trigger] rest@[i]).0@ == k@;
                        assert(full[i] == rest@[i]);
                        assert(full[rest@.len() as int] == (k, v));
                    }
                }
            }
            let ghost mid = self.view();
            assert(value_ok(full[rest@.len() as int].1));
            self.insert(k, v);
            assert(self.view().union_prefer_right(entries_map(rest@)) =~= mid.union_prefer_right(entries_map(before)));
        }
        assert(entries_map(rest@) =~= Map::<Seq<char>, ExtensionValue>::empty());
        assert(self.view().union_prefer_right(entries_map(rest@)) =~= self.view());
    }
}

proof fn lemma_entries_len(s: Seq<(String, ExtensionValue)>)
    requires
        keys_distinct(s),
    ensures
        entries_map(s).len() == s.len(),
        entries_map(s).dom().finite(),
    decreases s.len(),
{
    if s.len() > 0 {
        let d = s.drop_last();
        assert(keys_distinct(d)) by {
            assert forall|a: int, b: int| 0 <= a < d.len() && 0 <= b < d.len() && a != b
                implies (#[trigger] d[a]).0@ != (#[trigger] d[b]).0@ by {
                assert(s[a] == d[a] && s[b] == d[b]);
            }
        }
        lemma_entries_len(d);
        lemma_entries_dom(d, s.last().0@);
        if entries_map(d).contains_key(s.last().0@) {
            let i = choose|i: int| 0 <= i < d.len() && (#[trigger] d[i]).0@ == s.last().0@;
            assert(s[i] == d[i]);
        }
    }
}

} // verus!
