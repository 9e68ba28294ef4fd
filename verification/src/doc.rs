//! Shadow documents: open, backend-defined key-value payloads.
//!
//! The backend owns the schema of the `desired` and `reported` documents, so
//! the agent models them as ordered key-value documents with typed accessors
//! for the keys it understands and verbatim pass-through for the rest,
//! notably the chaos-flag sub-document. Lookup takes the first entry whose
//! key matches; well-formed documents never carry a key twice, so this is
//! simply the entry with that key.
use vstd::prelude::*;

verus! {

/// A leaf value inside a sub-document, as specifications see it.
pub enum ScalarV {
    Num(u64),
    Flag(bool),
    Text(Seq<char>),
}

/// A value of a top-level document, as specifications see it: a leaf, or a
/// flat sub-document.
pub enum DocValueV {
    Num(u64),
    Flag(bool),
    Text(Seq<char>),
    Doc(Seq<(Seq<char>, ScalarV)>),
}

/// A leaf value inside a sub-document.
pub enum Scalar {
    Num(u64),
    Flag(bool),
    Text(String),
}

/// A sub-document: one level of scalar key-value pairs. Deep enough for
/// every payload the backend sends under a single key, such as chaos flags.
pub struct FlatDoc {
    pub entries: Vec<(String, Scalar)>,
}

/// A value of a top-level document.
pub enum DocValue {
    Num(u64),
    Flag(bool),
    Text(String),
    Doc(FlatDoc),
}

/// A top-level shadow document: ordered key-value pairs.
pub struct Document {
    pub entries: Vec<(String, DocValue)>,
}

impl View for Scalar {
    type V = ScalarV;

    open spec fn view(&self) -> ScalarV {
        match *self {
            Scalar::Num(n) => ScalarV::Num(n),
            Scalar::Flag(b) => ScalarV::Flag(b),
            Scalar::Text(ref s) => ScalarV::Text(s@),
        }
    }
}

impl View for FlatDoc {
    type V = Seq<(Seq<char>, ScalarV)>;

    open spec fn view(&self) -> Seq<(Seq<char>, ScalarV)> {
        self.entries@.map_values(|p: (String, Scalar)| (p.0@, p.1@))
    }
}

impl View for DocValue {
    type V = DocValueV;

    open spec fn view(&self) -> DocValueV {
        match *self {
            DocValue::Num(n) => DocValueV::Num(n),
            DocValue::Flag(b) => DocValueV::Flag(b),
            DocValue::Text(ref s) => DocValueV::Text(s@),
            DocValue::Doc(ref d) => DocValueV::Doc(d@),
        }
    }
}

impl View for Document {
    type V = Seq<(Seq<char>, DocValueV)>;

    open spec fn view(&self) -> Seq<(Seq<char>, DocValueV)> {
        self.entries@.map_values(|p: (String, DocValue)| (p.0@, p.1@))
    }
}

/// The value under the first entry whose key is `k`, if any.
pub open spec fn lookup<V>(s: Seq<(Seq<char>, V)>, k: Seq<char>) -> Option<V>
    decreases s.len(),
{
    if s.len() == 0 {
        None
    } else if s[0].0 == k {
        Some(s[0].1)
    } else {
        lookup(s.drop_first(), k)
    }
}

/// Whether some entry carries the key `k`.
pub open spec fn has_key<V>(s: Seq<(Seq<char>, V)>, k: Seq<char>) -> bool {
    lookup(s, k) is Some
}

/// The numeric value under key `k`, if the key is present and its value is
/// numeric.
pub open spec fn num_at(s: Seq<(Seq<char>, DocValueV)>, k: Seq<char>) -> Option<u64> {
    match lookup(s, k) {
        Some(DocValueV::Num(n)) => Some(n),
        _ => None,
    }
}

/// Replacing the value of the first entry that carries a key changes what
/// lookup finds under that key and nothing else.
proof fn lemma_lookup_update<V>(s: Seq<(Seq<char>, V)>, i: int, v: V)
    requires
        0 <= i < s.len(),
        forall|j: int| 0 <= j < i ==> s[j].0 != s[i].0,
    ensures
        lookup(s.update(i, (s[i].0, v)), s[i].0) == Some(v),
        forall|k: Seq<char>|
            k != s[i].0 ==> #[trigger] lookup(s.update(i, (s[i].0, v)), k) == lookup(s, k),
    decreases i,
{
    let p = (s[i].0, v);
    let t = s.update(i, p);
    if i == 0 {
        assert forall|k: Seq<char>| k != s[0].0 implies #[trigger] lookup(t, k) == lookup(
            s,
            k,
        ) by {
            assert(t.drop_first() =~= s.drop_first());
        }
    } else {
        let s1 = s.drop_first();
        assert forall|j: int| 0 <= j < i - 1 implies (#[trigger] s1[j]).0 != s1[i - 1].0 by {
            assert(s1[j] == s[j + 1]);
            assert(s1[i - 1] == s[i]);
        }
        lemma_lookup_update(s1, i - 1, v);
        assert(s1[i - 1] == s[i]);
        assert(t.drop_first() =~= s1.update(i - 1, p));
        assert(t[0] == s[0]);
        assert(s[0].0 != s[i].0);
        assert(lookup(t, s[i].0) == Some(v));
        assert forall|k: Seq<char>| k != s[i].0 implies #[trigger] lookup(t, k) == lookup(
            s,
            k,
        ) by {
            if k != s[0].0 {
                assert(lookup(t, k) == lookup(s1.update(i - 1, p), k));
                assert(lookup(s, k) == lookup(s1, k));
            }
        }
    }
}

/// Appending an entry whose key is absent makes lookup find it under that
/// key and changes nothing else.
proof fn lemma_lookup_push<V>(s: Seq<(Seq<char>, V)>, key: Seq<char>, v: V)
    requires
        forall|j: int| 0 <= j < s.len() ==> s[j].0 != key,
    ensures
        lookup(s.push((key, v)), key) == Some(v),
        forall|k: Seq<char>| k != key ==> #[trigger] lookup(s.push((key, v)), k) == lookup(s, k),
    decreases s.len(),
{
    let t = s.push((key, v));
    if s.len() == 0 {
        assert(t[0] == (key, v));
        assert(t.drop_first() =~= Seq::<(Seq<char>, V)>::empty());
        assert(lookup(t, key) == Some(v));
        assert forall|k: Seq<char>| k != key implies #[trigger] lookup(t, k) == lookup(s, k) by {
            assert(lookup(t, k) == lookup(t.drop_first(), k));
        }
    } else {
        let s1 = s.drop_first();
        assert forall|j: int| 0 <= j < s1.len() implies s1[j].0 != key by {
            assert(s1[j] == s[j + 1]);
        }
        lemma_lookup_push(s1, key, v);
        assert(t[0] == s[0]);
        assert(t.drop_first() =~= s1.push((key, v)));
        assert(s[0].0 != key);
        assert(lookup(t, key) == Some(v));
        assert forall|k: Seq<char>| k != key implies #[trigger] lookup(t, k) == lookup(s, k) by {
            if k != s[0].0 {
                assert(lookup(t, k) == lookup(s1.push((key, v)), k));
                assert(lookup(s, k) == lookup(s1, k));
            }
        }
    }
}

impl Document {
    /// A document with no entries: every lookup misses.
    pub fn empty() -> (d: Document)
        ensures
            d@ =~= Seq::<(Seq<char>, DocValueV)>::empty(),
            forall|k: Seq<char>| lookup(d@, k) is None,
    {
        let d = Document { entries: Vec::new() };
        proof {
            assert(d@ =~= Seq::<(Seq<char>, DocValueV)>::empty());
        }
        d
    }

    /// The value stored under `key`, if any.
    pub fn get(&self, key: &str) -> (r: Option<&DocValue>)
        ensures
            match r {
                Some(v) => lookup(self@, key@) == Some(v@),
                None => lookup(self@, key@) is None,
            },
    {
        let k = key.to_owned();
        let n = self.entries.len();
        let mut i: usize = 0;
        proof {
            assert(self@.skip(0) =~= self@);
        }
        while i < n
            invariant
                i <= n,
                n == self.entries@.len(),
                k@ == key@,
                lookup(self@, key@) == lookup(self@.skip(i as int), key@),
            decreases n - i,
        {
            proof {
                assert(self@[i as int] == (self.entries@[i as int].0@, self.entries@[i as int].1@));
                assert(self@.skip(i as int)[0] == self@[i as int]);
            }
            if self.entries[i].0 == k {
                return Some(&self.entries[i].1);
            }
            proof {
                assert(self@.skip(i as int).drop_first() =~= self@.skip(i as int + 1));
            }
            i = i + 1;
        }
        proof {
            assert(self@.skip(n as int) =~= Seq::<(Seq<char>, DocValueV)>::empty());
        }
        None
    }

    /// The numeric value stored under `key`, if the key is present and
    /// carries a number.
    pub fn get_num(&self, key: &str) -> (r: Option<u64>)
        ensures
            r == num_at(self@, key@),
    {
        match self.get(key) {
            Some(v) => match v {
                DocValue::Num(n) => Some(*n),
                _ => None,
            },
            None => None,
        }
    }

    /// Whether `key` is present at all.
    pub fn contains_key(&self, key: &str) -> (r: bool)
        ensures
            r == has_key(self@, key@),
    {
        match self.get(key) {
            Some(_) => true,
            None => false,
        }
    }

    /// Store `value` under `key`: replace the value of the first entry with
    /// that key, or append a new entry if the key is absent. Every other
    /// key keeps its value.
    pub fn set(&mut self, key: &str, value: DocValue)
        ensures
            lookup(final(self)@, key@) == Some(value@),
            forall|k2: Seq<char>|
                k2 != key@ ==> #[trigger] lookup(final(self)@, k2) == lookup(old(self)@, k2),
    {
        let k = key.to_owned();
        let n = self.entries.len();
        let mut i: usize = 0;
        while i < n
            invariant
                i <= n,
                n == self.entries@.len(),
                k@ == key@,
                *self == *old(self),
                forall|j: int| 0 <= j < i ==> self@[j].0 != key@,
            decreases n - i,
        {
            proof {
                assert(self@[i as int] == (self.entries@[i as int].0@, self.entries@[i as int].1@));
            }
            if self.entries[i].0 == k {
                self.entries[i].1 = value;
                proof {
                    assert(self@ =~= old(self)@.update(i as int, (old(self)@[i as int].0, value@)));
                    lemma_lookup_update(old(self)@, i as int, value@);
                    assert(old(self)@[i as int].0 == key@);
                }
                return ;
            }
            i = i + 1;
        }
        self.entries.push((k, value));
        proof {
            assert(self@ =~= old(self)@.push((key@, value@)));
            lemma_lookup_push(old(self)@, key@, value@);
        }
    }
}

impl FlatDoc {
    /// A sub-document with no entries.
    pub fn empty() -> (d: FlatDoc)
        ensures
            d@ =~= Seq::<(Seq<char>, ScalarV)>::empty(),
            forall|k: Seq<char>| lookup(d@, k) is None,
    {
        let d = FlatDoc { entries: Vec::new() };
        proof {
            assert(d@ =~= Seq::<(Seq<char>, ScalarV)>::empty());
        }
        d
    }

    /// The scalar stored under `key`, if any.
    pub fn get(&self, key: &str) -> (r: Option<&Scalar>)
        ensures
            match r {
                Some(v) => lookup(self@, key@) == Some(v@),
                None => lookup(self@, key@) is None,
            },
    {
        let k = key.to_owned();
        let n = self.entries.len();
        let mut i: usize = 0;
        proof {
            assert(self@.skip(0) =~= self@);
        }
        while i < n
            invariant
                i <= n,
                n == self.entries@.len(),
                k@ == key@,
                lookup(self@, key@) == lookup(self@.skip(i as int), key@),
            decreases n - i,
        {
            proof {
                assert(self@[i as int] == (self.entries@[i as int].0@, self.entries@[i as int].1@));
                assert(self@.skip(i as int)[0] == self@[i as int]);
            }
            if self.entries[i].0 == k {
                return Some(&self.entries[i].1);
            }
            proof {
                assert(self@.skip(i as int).drop_first() =~= self@.skip(i as int + 1));
            }
            i = i + 1;
        }
        proof {
            assert(self@.skip(n as int) =~= Seq::<(Seq<char>, ScalarV)>::empty());
        }
        None
    }

    /// The boolean stored under `key`, if the key is present and carries a
    /// boolean.
    pub fn get_flag(&self, key: &str) -> (r: Option<bool>)
        ensures
            r == match lookup(self@, key@) {
                Some(ScalarV::Flag(b)) => Some(b),
                _ => None,
            },
    {
        match self.get(key) {
            Some(v) => match v {
                Scalar::Flag(b) => Some(*b),
                _ => None,
            },
            None => None,
        }
    }

    /// Store `value` under `key`, as `Document::set` does.
    pub fn set(&mut self, key: &str, value: Scalar)
        ensures
            lookup(final(self)@, key@) == Some(value@),
            forall|k2: Seq<char>|
                k2 != key@ ==> #[trigger] lookup(final(self)@, k2) == lookup(old(self)@, k2),
    {
        let k = key.to_owned();
        let n = self.entries.len();
        let mut i: usize = 0;
        while i < n
            invariant
                i <= n,
                n == self.entries@.len(),
                k@ == key@,
                *self == *old(self),
                forall|j: int| 0 <= j < i ==> self@[j].0 != key@,
            decreases n - i,
        {
            proof {
                assert(self@[i as int] == (self.entries@[i as int].0@, self.entries@[i as int].1@));
            }
            if self.entries[i].0 == k {
                self.entries[i].1 = value;
                proof {
                    assert(self@ =~= old(self)@.update(i as int, (old(self)@[i as int].0, value@)));
                    lemma_lookup_update(old(self)@, i as int, value@);
                    assert(old(self)@[i as int].0 == key@);
                }
                return ;
            }
            i = i + 1;
        }
        self.entries.push((k, value));
        proof {
            assert(self@ =~= old(self)@.push((key@, value@)));
            lemma_lookup_push(old(self)@, key@, value@);
        }
    }
}

/// A field-for-field copy of a scalar, equal to the original in view.
pub fn clone_scalar(v: &Scalar) -> (r: Scalar)
    ensures
        r@ == v@,
{
    match v {
        Scalar::Num(n) => Scalar::Num(*n),
        Scalar::Flag(b) => Scalar::Flag(*b),
        Scalar::Text(s) => Scalar::Text(s.clone()),
    }
}

/// An entry-for-entry copy of a sub-document, equal to the original in view.
pub fn clone_flat_doc(d: &FlatDoc) -> (r: FlatDoc)
    ensures
        r@ == d@,
{
    let n = d.entries.len();
    let mut entries: Vec<(String, Scalar)> = Vec::new();
    let mut i: usize = 0;
    while i < n
        invariant
            i <= n,
            n == d.entries@.len(),
            entries@.len() == i,
            forall|j: int|
                0 <= j < i ==> (#[trigger] entries@[j].0@, entries@[j].1@) == (
                d.entries@[j].0@,
                d.entries@[j].1@,
                ),
        decreases n - i,
    {
        let key = d.entries[i].0.clone();
        let val = clone_scalar(&d.entries[i].1);
        entries.push((key, val));
        i = i + 1;
    }
    let r = FlatDoc { entries };
    proof {
        assert forall|j: int| 0 <= j < r@.len() implies r@[j] == d@[j] by {
            assert((r.entries@[j].0@, r.entries@[j].1@) == (d.entries@[j].0@, d.entries@[j].1@));
        }
        assert(r@ =~= d@);
    }
    r
}

/// A copy of a document value, equal to the original in view.
pub fn clone_doc_value(v: &DocValue) -> (r: DocValue)
    ensures
        r@ == v@,
{
    match v {
        DocValue::Num(n) => DocValue::Num(*n),
        DocValue::Flag(b) => DocValue::Flag(*b),
        DocValue::Text(s) => DocValue::Text(s.clone()),
        DocValue::Doc(d) => DocValue::Doc(clone_flat_doc(d)),
    }
}

/// An entry-for-entry copy of a document, equal to the original in view.
pub fn clone_document(d: &Document) -> (r: Document)
    ensures
        r@ == d@,
{
    let n = d.entries.len();
    let mut entries: Vec<(String, DocValue)> = Vec::new();
    let mut i: usize = 0;
    while i < n
        invariant
            i <= n,
            n == d.entries@.len(),
            entries@.len() == i,
            forall|j: int|
                0 <= j < i ==> (#[trigger] entries@[j].0@, entries@[j].1@) == (
                d.entries@[j].0@,
                d.entries@[j].1@,
                ),
        decreases n - i,
    {
        let key = d.entries[i].0.clone();
        let val = clone_doc_value(&d.entries[i].1);
        entries.push((key, val));
        i = i + 1;
    }
    let r = Document { entries };
    proof {
        assert forall|j: int| 0 <= j < r@.len() implies r@[j] == d@[j] by {
            assert((r.entries@[j].0@, r.entries@[j].1@) == (d.entries@[j].0@, d.entries@[j].1@));
        }
        assert(r@ =~= d@);
    }
    r
}

} // verus!
