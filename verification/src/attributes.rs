//! Attribute values and the attribute mapping carried by measurement points.
//!
//! Attributes form a mapping from string names to typed values, with unique
//! keys and insert-or-replace semantics; the order of entries is irrelevant.
//! The mapping is stored as a flat list of entries whose keys are pairwise
//! distinct, and is specified as a [`Map`] from key to value.

use vstd::prelude::*;

use crate::text::spec_decimal;
use crate::text::u64_to_string;

verus! {

/// An attribute value of any supported attribute type.
///
/// The `F64` variant carries a 64-bit floating-point value as its raw bit
/// pattern; producers and exporters convert at the boundary.
#[derive(Debug, Clone, PartialEq)]
pub enum AttributeValue {
    /// A 64-bit floating-point value, held as its bit pattern.
    F64(u64),
    /// A 64-bit unsigned integer.
    U64(u64),
    /// A boolean.
    Bool(bool),
    /// A string.
    String(String),
}

/// The display string of an attribute value, where one can be computed
/// without floating-point formatting.
pub open spec fn spec_display(v: AttributeValue) -> Option<Seq<char>> {
    match v {
        AttributeValue::F64(_) => None,
        AttributeValue::U64(x) => Some(spec_decimal(x as nat)),
        AttributeValue::Bool(b) => Some(if b {
            "true"@
        } else {
            "false"@
        }),
        AttributeValue::String(s) => Some(s@),
    }
}

impl AttributeValue {
    /// An exact copy of this value.
    pub fn duplicate(&self) -> (r: AttributeValue)
        ensures
            r == *self,
    {
        match self {
            AttributeValue::F64(b) => AttributeValue::F64(*b),
            AttributeValue::U64(x) => AttributeValue::U64(*x),
            AttributeValue::Bool(b) => AttributeValue::Bool(*b),
            AttributeValue::String(s) => AttributeValue::String(s.clone()),
        }
    }

    /// Renders this value as a display string for exporters. Integer,
    /// boolean and string values render exactly; floating-point values
    /// return `None` and are rendered by the (unverified) exporter edge.
    pub fn display_string(&self) -> (r: Option<String>)
        ensures
            match r {
                Some(s) => spec_display(*self) == Some(s@),
                None => spec_display(*self) is None,
            },
    {
        match self {
            AttributeValue::F64(_) => None,
            AttributeValue::U64(x) => Some(u64_to_string(*x)),
            AttributeValue::Bool(b) => Some(
                if *b {
                    "true".to_owned()
                } else {
                    "false".to_owned()
                },
            ),
            AttributeValue::String(s) => Some(s.clone()),
        }
    }
}

/// Whether the keys of an entry list are pairwise distinct.
pub open spec fn unique_keys(s: Seq<(String, AttributeValue)>) -> bool {
    forall|i: int, j: int| 0 <= i < j < s.len() ==> s[i].0@ != s[j].0@
}

/// The mapping that an entry list denotes; on duplicate keys the later
/// entry wins.
pub open spec fn entries_map(s: Seq<(String, AttributeValue)>) -> Map<
    Seq<char>,
    AttributeValue,
>
    decreases s.len(),
{
    if s.len() == 0 {
        Map::empty()
    } else {
        entries_map(s.drop_last()).insert(s.last().0@, s.last().1)
    }
}

/// Appending an entry inserts its key into the denoted mapping.
pub proof fn lemma_entries_map_push(s: Seq<(String, AttributeValue)>, e: (String, AttributeValue))
    ensures
        entries_map(s.push(e)) == entries_map(s).insert(e.0@, e.1),
{
    assert(s.push(e).drop_last() =~= s);
    assert(s.push(e).last() == e);
}

/// Replacing the entry that holds a key updates that key in the denoted
/// mapping, and keeps the keys pairwise distinct.
pub proof fn lemma_entries_map_update(
    s: Seq<(String, AttributeValue)>,
    i: int,
    e: (String, AttributeValue),
)
    requires
        unique_keys(s),
        0 <= i < s.len(),
        e.0@ == s[i].0@,
    ensures
        unique_keys(s.update(i, e)),
        entries_map(s.update(i, e)) == entries_map(s).insert(e.0@, e.1),
    decreases s.len(),
{
    let t = s.update(i, e);
    assert forall|p: int, q: int| 0 <= p < q < t.len() implies t[p].0@ != t[q].0@ by {
        assert(s[p].0@ != s[q].0@);
    }
    if i == s.len() - 1 {
        assert(t.drop_last() =~= s.drop_last());
        assert(entries_map(t) == entries_map(s.drop_last()).insert(e.0@, e.1));
        assert(entries_map(s) == entries_map(s.drop_last()).insert(s[i].0@, s[i].1));
        assert(entries_map(s.drop_last()).insert(s[i].0@, s[i].1).insert(e.0@, e.1)
            =~= entries_map(s.drop_last()).insert(e.0@, e.1));
    } else {
        let last = s.last();
        assert(t.drop_last() =~= s.drop_last().update(i, e));
        assert(unique_keys(s.drop_last())) by {
            assert(forall|p: int|
                0 <= p < s.len() - 1 ==> s.drop_last()[p] == s[p]);
        }
        assert(s.drop_last()[i] == s[i]);
        lemma_entries_map_update(s.drop_last(), i, e);
        assert(t.last() == last);
        assert(entries_map(t) == entries_map(s.drop_last()).insert(e.0@, e.1).insert(
            last.0@,
            last.1,
        ));
        // the two keys differ, so the inserts commute
        assert(e.0@ != last.0@);
        assert(entries_map(s.drop_last()).insert(e.0@, e.1).insert(last.0@, last.1)
            =~= entries_map(s.drop_last()).insert(last.0@, last.1).insert(e.0@, e.1));
    }
}

/// On an entry list with pairwise-distinct keys, the denoted mapping holds
/// exactly the listed keys, maps each to its listed value, and its domain
/// has one element per entry.
pub proof fn lemma_entries_map_properties(s: Seq<(String, AttributeValue)>)
    requires
        unique_keys(s),
    ensures
        forall|k: Seq<char>|
            entries_map(s).contains_key(k) <==> (exists|i: int|
                0 <= i < s.len() && s[i].0@ == k),
        forall|i: int|
            0 <= i < s.len() ==> entries_map(s).contains_key(#[trigger] s[i].0@)
                && entries_map(s)[s[i].0@] == s[i].1,
        entries_map(s).dom().finite(),
        entries_map(s).dom().len() == s.len(),
    decreases s.len(),
{
    if s.len() == 0 {
        assert(entries_map(s).dom() =~= Set::<Seq<char>>::empty());
    } else {
        let d = s.drop_last();
        let last = s.last();
        assert(unique_keys(d)) by {
            assert(forall|p: int| 0 <= p < s.len() - 1 ==> d[p] == s[p]);
        }
        lemma_entries_map_properties(d);
        assert(forall|p: int| 0 <= p < s.len() - 1 ==> d[p] == s[p]);
        assert(forall|p: int| 0 <= p < s.len() - 1 ==> s[p].0@ != last.0@);
        assert(!entries_map(d).contains_key(last.0@));
        assert(entries_map(s).dom() =~= entries_map(d).dom().insert(last.0@));
        assert forall|k: Seq<char>| entries_map(s).contains_key(k) implies (exists|i: int|
            0 <= i < s.len() && s[i].0@ == k) by {
            if k == last.0@ {
                assert(s[s.len() - 1].0@ == k);
            } else {
                let i = choose|i: int| 0 <= i < d.len() && d[i].0@ == k;
                assert(s[i].0@ == k);
            }
        }
    }
}

/// Inserting the entries of a list one after another, first entry first.
pub open spec fn insert_all(
    m: Map<Seq<char>, AttributeValue>,
    s: Seq<(String, AttributeValue)>,
) -> Map<Seq<char>, AttributeValue>
    decreases s.len(),
{
    if s.len() == 0 {
        m
    } else {
        insert_all(m, s.drop_last()).insert(s.last().0@, s.last().1)
    }
}

/// Folding a list of entries into a mapping overrides the mapping with the
/// mapping the list denotes.
pub proof fn lemma_insert_all_union(
    m: Map<Seq<char>, AttributeValue>,
    s: Seq<(String, AttributeValue)>,
)
    ensures
        insert_all(m, s) == m.union_prefer_right(entries_map(s)),
    decreases s.len(),
{
    if s.len() == 0 {
        assert(m.union_prefer_right(Map::empty()) =~= m);
    } else {
        lemma_insert_all_union(m, s.drop_last());
        assert(m.union_prefer_right(entries_map(s.drop_last())).insert(s.last().0@, s.last().1)
            =~= m.union_prefer_right(entries_map(s.drop_last()).insert(s.last().0@, s.last().1)));
    }
}

/// A mapping from attribute name to attribute value, keys unique,
/// insert-or-replace on conflict.
#[derive(Debug)]
pub struct AttributeMap {
    entries: Vec<(String, AttributeValue)>,
}

impl Clone for AttributeMap {
    /// An exact copy: the clone holds the same entries and denotes the
    /// same mapping.
    fn clone(&self) -> (r: Self)
        ensures
            r.entry_seq() == self.entry_seq(),
            r@ == self@,
    {
        proof {
            use_type_invariant(self);
        }
        let n = self.entries.len();
        let mut entries: Vec<(String, AttributeValue)> = Vec::new();
        let mut i: usize = 0;
        while i < n
            invariant
                n == self.entries@.len(),
                unique_keys(self.entries@),
                i <= n,
                entries@.len() == i,
                forall|j: int| 0 <= j < i ==> entries@[j] == self.entries@[j],
            decreases n - i,
        {
            let e = &self.entries[i];
            entries.push((e.0.clone(), e.1.duplicate()));
            i = i + 1;
        }
        proof {
            assert(entries@ =~= self.entries@);
        }
        AttributeMap { entries }
    }
}

impl View for AttributeMap {
    type V = Map<Seq<char>, AttributeValue>;

    closed spec fn view(&self) -> Map<Seq<char>, AttributeValue> {
        entries_map(self.entries@)
    }
}

impl AttributeMap {
    #[verifier::type_invariant]
    spec fn inv(self) -> bool {
        unique_keys(self.entries@)
    }

    /// The entries, as they are stored.
    pub closed spec fn entry_seq(&self) -> Seq<(String, AttributeValue)> {
        self.entries@
    }

    /// An empty mapping.
    pub fn new() -> (r: AttributeMap)
        ensures
            r@ == Map::<Seq<char>, AttributeValue>::empty(),
            r.entry_seq() == Seq::<(String, AttributeValue)>::empty(),
    {
        AttributeMap { entries: Vec::new() }
    }

    /// The number of attributes held.
    pub fn len(&self) -> (r: usize)
        ensures
            r == self@.dom().len(),
            r == self.entry_seq().len(),
    {
        proof {
            use_type_invariant(self);
            lemma_entries_map_properties(self.entries@);
        }
        self.entries.len()
    }

    /// Whether no attribute is held.
    pub fn is_empty(&self) -> (r: bool)
        ensures
            r == (self.entry_seq().len() == 0),
            r == (self@ == Map::<Seq<char>, AttributeValue>::empty()),
    {
        proof {
            use_type_invariant(self);
            lemma_entries_map_properties(self.entries@);
            if self.entry_seq().len() == 0 {
                assert(self@ =~= Map::<Seq<char>, AttributeValue>::empty());
            } else {
                assert(self@.contains_key(self.entry_seq()[0].0@));
            }
        }
        self.entries.len() == 0
    }

    /// The entries, for iteration by exporters. The ensures republish what
    /// the internal invariant guarantees of the entry list.
    pub fn entries(&self) -> (r: &Vec<(String, AttributeValue)>)
        ensures
            r@ == self.entry_seq(),
            unique_keys(self.entry_seq()),
            self@ == entries_map(self.entry_seq()),
            forall|i: int|
                0 <= i < self.entry_seq().len() ==> self@.contains_key(
                    #[trigger] self.entry_seq()[i].0@,
                ) && self@[self.entry_seq()[i].0@] == self.entry_seq()[i].1,
            forall|k: Seq<char>|
                self@.contains_key(k) <==> (exists|i: int|
                    0 <= i < self.entry_seq().len() && self.entry_seq()[i].0@ == k),
            self@.dom().finite(),
            self@.dom().len() == self.entry_seq().len(),
    {
        proof {
            use_type_invariant(self);
            lemma_entries_map_properties(self.entries@);
        }
        &self.entries
    }

    /// Inserts an attribute; if one with the same key exists, its value is
    /// replaced.
    pub fn insert(&mut self, key: String, value: AttributeValue)
        ensures
            final(self)@ == old(self)@.insert(key@, value),
    {
        proof {
            use_type_invariant(&*self);
        }
        let mut entries: Vec<(String, AttributeValue)> = Vec::new();
        core::mem::swap(&mut entries, &mut self.entries);
        let ghost s0 = entries@;
        let n = entries.len();
        let mut i: usize = 0;
        while i < n
            invariant
                n == s0.len(),
                entries@ == s0,
                old(self)@ == entries_map(s0),
                unique_keys(s0),
                i <= n,
                forall|j: int| 0 <= j < i ==> s0[j].0@ != key@,
            decreases n - i,
        {
            if entries[i].0 == key {
                proof {
                    lemma_entries_map_update(s0, i as int, (key, value));
                }
                entries.set(i, (key, value));
                self.entries = entries;
                return ;
            }
            i = i + 1;
        }
        proof {
            lemma_entries_map_push(s0, (key, value));
            assert(unique_keys(s0.push((key, value)))) by {
                assert(forall|j: int| 0 <= j < s0.len() ==> s0.push((key, value))[j] == s0[j]);
            }
        }
        entries.push((key, value));
        self.entries = entries;
    }

    /// Takes the entries out, for consumption by a merge.
    pub fn into_entries(self) -> (r: Vec<(String, AttributeValue)>)
        ensures
            r@ == self.entry_seq(),
            unique_keys(r@),
            entries_map(r@) == self@,
    {
        proof {
            use_type_invariant(&self);
        }
        self.entries
    }

    /// Looks an attribute up by name.
    pub fn get(&self, key: &str) -> (r: Option<&AttributeValue>)
        ensures
            match r {
                Some(v) => self@.contains_key(key@) && *v == self@[key@],
                None => !self@.contains_key(key@),
            },
    {
        proof {
            use_type_invariant(self);
            lemma_entries_map_properties(self.entries@);
        }
        let owned = key.to_owned();
        let n = self.entries.len();
        let mut i: usize = 0;
        while i < n
            invariant
                n == self.entry_seq().len(),
                owned@ == key@,
                i <= n,
                forall|j: int| 0 <= j < i ==> self.entry_seq()[j].0@ != key@,
                unique_keys(self.entry_seq()),
                self@ == entries_map(self.entry_seq()),
                forall|p: int|
                    0 <= p < self.entry_seq().len() ==> self@.contains_key(
                        #[trigger] self.entry_seq()[p].0@,
                    ) && self@[self.entry_seq()[p].0@] == self.entry_seq()[p].1,
                forall|k: Seq<char>|
                    self@.contains_key(k) ==> (exists|p: int|
                        0 <= p < self.entry_seq().len() && self.entry_seq()[p].0@ == k),
            decreases n - i,
        {
            if self.entries[i].0 == owned {
                return Some(&self.entries[i].1);
            }
            i = i + 1;
        }
        None
    }
}

/// Attribute overwrite law: inserting twice under one key keeps only the
/// later value, and leaves exactly one attribute under that key.
pub proof fn lemma_attribute_overwrite(
    m: Map<Seq<char>, AttributeValue>,
    k: Seq<char>,
    a: AttributeValue,
    b: AttributeValue,
)
    ensures
        m.insert(k, a).insert(k, b) == m.insert(k, b),
        m.insert(k, b)[k] == b,
        m.insert(k, b).dom() == m.dom().insert(k),
{
    assert(m.insert(k, a).insert(k, b) =~= m.insert(k, b));
    assert(m.insert(k, b).dom() =~= m.dom().insert(k));
}

} // verus!
