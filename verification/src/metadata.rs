use vstd::prelude::*;

verus! {

/// Document metadata: a mapping from key to the ordered sequence of
/// values seen for that key, with keys unique and kept in first-seen
/// order. The wrapped library hands metadata over as a flat string
/// array of alternating keys and values; [`Metadata::from_flat`] decodes
/// that wire shape.
#[derive(Debug, Clone, PartialEq)]
pub struct Metadata {
    entries: Vec<(String, Vec<String>)>,
}

impl View for Metadata {
    type V = Seq<(Seq<char>, Seq<Seq<char>>)>;

    closed spec fn view(&self) -> Seq<(Seq<char>, Seq<Seq<char>>)> {
        Seq::new(
            self.entries@.len(),
            |i: int| (self.entries@[i].0@, self.entries@[i].1.deep_view()),
        )
    }
}

/// No key occurs twice among the entries.
pub open spec fn keys_unique(s: Seq<(Seq<char>, Seq<Seq<char>>)>) -> bool {
    forall|i: int, j: int| 0 <= i < j < s.len() ==> s[i].0 != s[j].0
}

/// The values recorded under a key: those of its first entry, or `None`
/// when no entry carries the key.
pub open spec fn spec_lookup(
    s: Seq<(Seq<char>, Seq<Seq<char>>)>,
    k: Seq<char>,
) -> Option<Seq<Seq<char>>>
    decreases s.len(),
{
    if s.len() == 0 {
        None
    } else if s[0].0 == k {
        Some(s[0].1)
    } else {
        spec_lookup(s.skip(1), k)
    }
}

/// Recording one value under a key: the value is appended to the key's
/// entry if one exists, otherwise a new entry for the key goes to the
/// end.
pub open spec fn spec_add(
    s: Seq<(Seq<char>, Seq<Seq<char>>)>,
    k: Seq<char>,
    v: Seq<char>,
) -> Seq<(Seq<char>, Seq<Seq<char>>)>
    decreases s.len(),
{
    if s.len() == 0 {
        seq![(k, seq![v])]
    } else if s[0].0 == k {
        seq![(s[0].0, s[0].1.push(v))] + s.skip(1)
    } else {
        seq![s[0]] + spec_add(s.skip(1), k, v)
    }
}

/// Decoding the first `n` key/value pairs of the flat metadata array,
/// in order.
pub open spec fn spec_decode_pairs(
    flat: Seq<Seq<char>>,
    n: int,
) -> Seq<(Seq<char>, Seq<Seq<char>>)>
    decreases n,
{
    if n <= 0 {
        Seq::empty()
    } else {
        spec_add(spec_decode_pairs(flat, n - 1), flat[2 * (n - 1)], flat[2 * (n - 1) + 1])
    }
}

/// Decoding the whole flat metadata array: its elements are read as
/// alternating keys and values; a trailing key without a value is
/// ignored.
pub open spec fn spec_decode(flat: Seq<Seq<char>>) -> Seq<(Seq<char>, Seq<Seq<char>>)> {
    spec_decode_pairs(flat, flat.len() as int / 2)
}

/// Adding a value records it under its key: afterwards the key's values
/// are its old values extended by the new one, or a one-value sequence
/// when the key was fresh. Together with
/// [`lemma_add_preserves_other_keys`] this pins what one decoded
/// key/value pair does to the whole mapping.
pub proof fn lemma_add_records_value(
    s: Seq<(Seq<char>, Seq<Seq<char>>)>,
    k: Seq<char>,
    v: Seq<char>,
)
    ensures
        spec_lookup(spec_add(s, k, v), k) == match spec_lookup(s, k) {
            Some(vs) => Some(vs.push(v)),
            None => Some(seq![v]),
        },
    decreases s.len(),
{
    if s.len() == 0 {
    } else if s[0].0 == k {
    } else {
        lemma_add_records_value(s.skip(1), k, v);
        assert((seq![s[0]] + spec_add(s.skip(1), k, v)).skip(1) =~= spec_add(s.skip(1), k, v));
    }
}

/// Adding a value under one key changes what no other key maps to.
pub proof fn lemma_add_preserves_other_keys(
    s: Seq<(Seq<char>, Seq<Seq<char>>)>,
    k: Seq<char>,
    v: Seq<char>,
    k2: Seq<char>,
)
    requires
        k2 != k,
    ensures
        spec_lookup(spec_add(s, k, v), k2) == spec_lookup(s, k2),
    decreases s.len(),
{
    if s.len() == 0 {
        let a = spec_add(s, k, v);
        assert(a[0] == (k, seq![v]));
        assert(a.len() == 1);
        assert(a.skip(1) =~= Seq::<(Seq<char>, Seq<Seq<char>>)>::empty());
        assert(spec_lookup(a, k2) == spec_lookup(a.skip(1), k2));
        assert(spec_lookup(a.skip(1), k2) is None);
    } else if s[0].0 == k {
        let a = seq![(s[0].0, s[0].1.push(v))] + s.skip(1);
        assert(spec_add(s, k, v) == a);
        assert(a[0] == (s[0].0, s[0].1.push(v)));
        assert(a.skip(1) =~= s.skip(1));
    } else {
        lemma_add_preserves_other_keys(s.skip(1), k, v, k2);
        let a = seq![s[0]] + spec_add(s.skip(1), k, v);
        assert(spec_add(s, k, v) == a);
        assert(a[0] == s[0]);
        assert(a.skip(1) =~= spec_add(s.skip(1), k, v));
    }
}

/// A scan that misses the key on a prefix looks the key up in the rest.
proof fn lemma_lookup_skip(s: Seq<(Seq<char>, Seq<Seq<char>>)>, k: Seq<char>, i: int)
    requires
        0 <= i <= s.len(),
        forall|m: int| 0 <= m < i ==> s[m].0 != k,
    ensures
        spec_lookup(s, k) == spec_lookup(s.skip(i), k),
    decreases i,
{
    if i > 0 {
        lemma_lookup_skip(s.skip(1), k, i - 1);
        assert(s.skip(1).skip(i - 1) =~= s.skip(i));
    } else {
        assert(s.skip(0) =~= s);
    }
}

/// When the key's first entry sits at index `i`, adding a value updates
/// exactly that entry.
proof fn lemma_add_found(s: Seq<(Seq<char>, Seq<Seq<char>>)>, k: Seq<char>, v: Seq<char>, i: int)
    requires
        0 <= i < s.len(),
        s[i].0 == k,
        forall|m: int| 0 <= m < i ==> s[m].0 != k,
    ensures
        spec_add(s, k, v) == s.update(i, (s[i].0, s[i].1.push(v))),
    decreases i,
{
    if i == 0 {
        assert(spec_add(s, k, v) =~= s.update(0, (s[0].0, s[0].1.push(v))));
    } else {
        lemma_add_found(s.skip(1), k, v, i - 1);
        assert(spec_add(s, k, v) =~= s.update(i, (s[i].0, s[i].1.push(v))));
    }
}

/// When no entry carries the key, adding a value appends a new entry.
proof fn lemma_add_missing(s: Seq<(Seq<char>, Seq<Seq<char>>)>, k: Seq<char>, v: Seq<char>)
    requires
        forall|m: int| 0 <= m < s.len() ==> s[m].0 != k,
    ensures
        spec_add(s, k, v) == s.push((k, seq![v])),
    decreases s.len(),
{
    if s.len() == 0 {
        assert(spec_add(s, k, v) =~= s.push((k, seq![v])));
    } else {
        lemma_add_missing(s.skip(1), k, v);
        assert(spec_add(s, k, v) =~= s.push((k, seq![v])));
    }
}

impl Metadata {
    /// Keys are unique among the entries.
    pub open spec fn wf(self) -> bool {
        keys_unique(self@)
    }

    /// Creates an empty metadata mapping.
    pub fn new() -> (r: Self)
        ensures
            r@.len() == 0,
            r.wf(),
    {
        Metadata { entries: Vec::new() }
    }

    /// Returns the number of keys.
    pub fn len(&self) -> (r: usize)
        ensures
            r == self@.len(),
    {
        self.entries.len()
    }

    /// Returns true when no entry is recorded.
    pub fn is_empty(&self) -> (r: bool)
        ensures
            r == (self@.len() == 0),
    {
        self.entries.len() == 0
    }

    /// Returns the entry at the index: its key and its values in the
    /// order they were added. Entries sit in first-seen key order.
    pub fn entry_at(&self, i: usize) -> (r: &(String, Vec<String>))
        requires
            i < self@.len(),
        ensures
            (r.0@, r.1.deep_view()) == self@[i as int],
    {
        &self.entries[i]
    }

    /// The index of the first entry carrying the key, if any.
    fn find_key(&self, key: &String) -> (r: Option<usize>)
        ensures
            match r {
                Some(i) => {
                    &&& i < self@.len()
                    &&& self@[i as int].0 == key@
                    &&& forall|m: int| 0 <= m < i ==> self@[m].0 != key@
                },
                None => forall|m: int| 0 <= m < self@.len() ==> self@[m].0 != key@,
            },
    {
        let mut i: usize = 0;
        while i < self.entries.len()
            invariant
                i <= self.entries.len(),
                self@.len() == self.entries@.len(),
                forall|m: int| 0 <= m < i ==> self@[m].0 != key@,
            decreases self.entries.len() - i,
        {
            assert(self@[i as int].0 == self.entries@[i as int].0@);
            if self.entries[i].0 == *key {
                return Some(i);
            }
            i += 1;
        }
        None
    }

    /// Returns the values recorded under the key, in the order they were
    /// added, or `None` when the key is unknown.
    pub fn get(&self, key: &str) -> (r: Option<&Vec<String>>)
        ensures
            match r {
                Some(v) => spec_lookup(self@, key@) == Some(v.deep_view()),
                None => spec_lookup(self@, key@) is None,
            },
    {
        let owned: String = key.to_owned();
        match self.find_key(&owned) {
            Some(i) => {
                proof {
                    lemma_lookup_skip(self@, key@, i as int);
                    assert(self@.skip(i as int)[0] == self@[i as int]);
                }
                Some(&self.entries[i].1)
            }
            None => {
                proof {
                    lemma_lookup_skip(self@, key@, self@.len() as int);
                }
                None
            }
        }
    }

    /// Records one value under a key: appended to the key's entry when
    /// the key is known, otherwise as a fresh entry at the end.
    pub fn add_value(&mut self, key: String, value: String)
        ensures
            final(self)@ == spec_add(old(self)@, key@, value@),
            old(self).wf() ==> final(self).wf(),
    {
        match self.find_key(&key) {
            Some(i) => {
                let (pk, mut pv) = self.entries.remove(i);
                pv.push(value);
                let ghost pk_view = pk@;
                let ghost pv_view = pv.deep_view();
                self.entries.insert(i, (pk, pv));
                proof {
                    lemma_add_found(old(self)@, key@, value@, i as int);
                    let target = old(self)@.update(
                        i as int,
                        (old(self)@[i as int].0, old(self)@[i as int].1.push(value@)),
                    );
                    assert(pv_view =~= old(self)@[i as int].1.push(value@));
                    assert forall|j: int| 0 <= j < self@.len() implies self@[j] == target[j] by {
                        if j != i {
                            assert(self.entries@[j] == old(self).entries@[j]);
                        }
                    }
                    assert(self@ =~= target);
                }
            }
            None => {
                let mut values: Vec<String> = Vec::new();
                values.push(value);
                let ghost values_view = values.deep_view();
                self.entries.push((key, values));
                proof {
                    lemma_add_missing(old(self)@, key@, value@);
                    let target = old(self)@.push((key@, seq![value@]));
                    assert(values_view =~= seq![value@]);
                    assert forall|j: int| 0 <= j < self@.len() implies self@[j] == target[j] by {
                        if j < old(self)@.len() {
                            assert(self.entries@[j] == old(self).entries@[j]);
                        }
                    }
                    assert(self@ =~= target);
                }
            }
        }
    }

    /// Decodes the wrapped library's flat metadata array: elements are
    /// read pairwise as key then value, values of a repeated key collect
    /// in order under one entry, and a trailing key without a value is
    /// ignored.
    pub fn from_flat(flat: &Vec<String>) -> (r: Metadata)
        ensures
            r@ == spec_decode(flat.deep_view()),
            r.wf(),
    {
        let mut md = Metadata::new();
        let n = flat.len() / 2;
        let mut idx: usize = 0;
        assert(md@ =~= spec_decode_pairs(flat.deep_view(), 0));
        while idx < n
            invariant
                flat@.len() <= usize::MAX,
                n == flat@.len() / 2,
                idx <= n,
                md@ == spec_decode_pairs(flat.deep_view(), idx as int),
                md.wf(),
            decreases n - idx,
        {
            proof {
                assert(2 * (flat@.len() / 2) <= flat@.len());
                assert(2 * idx + 1 < flat@.len());
            }
            let k = flat[2 * idx].clone();
            let v = flat[2 * idx + 1].clone();
            proof {
                assert(flat.deep_view()[2 * idx as int] == flat@[2 * idx as int]@);
                assert(flat.deep_view()[2 * idx as int + 1] == flat@[2 * idx as int + 1]@);
            }
            md.add_value(k, v);
            idx += 1;
        }
        assert(md@ == spec_decode(flat.deep_view()));
        md
    }
}

} // verus!
