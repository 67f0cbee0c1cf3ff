//! Loosely typed settings: the values a module accepts and reports, and the
//! keyed bag that carries them.

use vstd::prelude::*;
use crate::text::{str_eq, string_views};

verus! {

/// One loosely typed setting.
///
/// Numbers come in three shapes: a non-negative integer, a negative integer, and
/// any other number. Such a number is held twice over: as the bits of its
/// binary64 form (IEEE 754), so that it can be given back as it was, and in
/// thousandths, rounded towards negative infinity, by which it is compared.
/// Whoever makes the value gives the two together. A table holds its entries
/// in the order in which they were given.
#[derive(Debug, PartialEq, Eq)]
pub enum SettingValue {
    Null,
    Bool(bool),
    Unsigned(u64),
    Signed(i64),
    Real { bits: u64, thousandths: i64 },
    Text(String),
    List(Vec<SettingValue>),
    Table(Vec<(String, SettingValue)>),
}

/// What a `SettingValue` stands for.
pub enum SettingModel {
    Null,
    Bool(bool),
    Unsigned(u64),
    Signed(i64),
    Real { bits: u64, thousandths: i64 },
    Text(Seq<char>),
    List(Seq<SettingModel>),
    Table(Seq<(Seq<char>, SettingModel)>),
}

/// The model of a value, list elements included.
pub open spec fn model_of(value: SettingValue) -> SettingModel
    decreases value,
{
    match value {
        SettingValue::Null => SettingModel::Null,
        SettingValue::Bool(b) => SettingModel::Bool(b),
        SettingValue::Unsigned(n) => SettingModel::Unsigned(n),
        SettingValue::Signed(n) => SettingModel::Signed(n),
        SettingValue::Real { bits, thousandths } => SettingModel::Real { bits, thousandths },
        SettingValue::Text(s) => SettingModel::Text(s@),
        SettingValue::List(items) => SettingModel::List(
            Seq::new(
                items@.len(),
                |i: int|
                    if 0 <= i < items@.len() {
                        model_of(items@[i])
                    } else {
                        SettingModel::Null
                    },
            ),
        ),
        SettingValue::Table(entries) => SettingModel::Table(
            Seq::new(
                entries@.len(),
                |i: int|
                    if 0 <= i < entries@.len() {
                        (entries@[i].0@, model_of(entries@[i].1))
                    } else {
                        (Seq::empty(), SettingModel::Null)
                    },
            ),
        ),
    }
}

impl View for SettingValue {
    type V = SettingModel;

    open spec fn view(&self) -> SettingModel {
        model_of(*self)
    }
}

impl SettingModel {
    /// The number, where the value is a non-negative integer.
    pub open spec fn as_u64(self) -> Option<u64> {
        match self {
            SettingModel::Unsigned(n) => Some(n),
            _ => None,
        }
    }

    /// The number in thousandths, where the value is a number of any shape.
    /// Integers too large to be counted in thousandths stop at the nearest
    /// bound of `i64`.
    pub open spec fn as_thousandths(self) -> Option<i64> {
        match self {
            SettingModel::Unsigned(n) => Some(clamp_i64(n * 1000)),
            SettingModel::Signed(n) => Some(clamp_i64(n * 1000)),
            SettingModel::Real { thousandths, .. } => Some(thousandths),
            _ => None,
        }
    }

    /// The characters, where the value is a text.
    pub open spec fn as_str(self) -> Option<Seq<char>> {
        match self {
            SettingModel::Text(s) => Some(s),
            _ => None,
        }
    }

    /// The elements, where the value is a list.
    pub open spec fn as_array(self) -> Option<Seq<SettingModel>> {
        match self {
            SettingModel::List(items) => Some(items),
            _ => None,
        }
    }
}

/// `x`, or the bound of `i64` that it lies beyond.
pub open spec fn clamp_i64(x: int) -> i64 {
    if x > i64::MAX {
        i64::MAX
    } else if x < i64::MIN {
        i64::MIN
    } else {
        x as i64
    }
}

/// The texts among `items`, in their order; every other element is passed over.
pub open spec fn texts_in(items: Seq<SettingModel>) -> Seq<Seq<char>> {
    items.filter_map(|item: SettingModel| item.as_str())
}

impl SettingValue {
    /// A deep copy.
    pub fn duplicate(&self) -> (r: SettingValue)
        ensures
            r@ == self@,
        decreases self,
    {
        match self {
            SettingValue::Null => SettingValue::Null,
            SettingValue::Bool(b) => SettingValue::Bool(*b),
            SettingValue::Unsigned(n) => SettingValue::Unsigned(*n),
            SettingValue::Signed(n) => SettingValue::Signed(*n),
            SettingValue::Real { bits, thousandths } => SettingValue::Real {
                bits: *bits,
                thousandths: *thousandths,
            },
            SettingValue::Text(s) => SettingValue::Text(s.clone()),
            SettingValue::List(items) => {
                let mut out: Vec<SettingValue> = Vec::new();
                let mut i: usize = 0;
                while i < items.len()
                    invariant
                        i <= items.len(),
                        decreases_to!(self => items),
                        out@.len() == i,
                        forall|j: int| 0 <= j < i ==> (#[trigger] out@[j])@ == items@[j]@,
                    decreases items.len() - i,
                {
                    proof {
                        vstd::std_specs::vec::axiom_vec_index_decreases(*items, i as int);
                    }
                    let copy = items[i].duplicate();
                    out.push(copy);
                    i += 1;
                }
                let r = SettingValue::List(out);
                assert(r@->List_0 =~= self@->List_0);
                r
            },
            SettingValue::Table(entries) => {
                let mut out: Vec<(String, SettingValue)> = Vec::new();
                let mut i: usize = 0;
                while i < entries.len()
                    invariant
                        i <= entries.len(),
                        decreases_to!(self => entries),
                        out@.len() == i,
                        forall|j: int|
                            0 <= j < i ==> (#[trigger] out@[j]).0@ == entries@[j].0@ && out@[j].1@
                                == entries@[j].1@,
                    decreases entries.len() - i,
                {
                    proof {
                        vstd::std_specs::vec::axiom_vec_index_decreases(*entries, i as int);
                    }
                    let key = entries[i].0.clone();
                    let value = entries[i].1.duplicate();
                    out.push((key, value));
                    i += 1;
                }
                let r = SettingValue::Table(out);
                assert(r@->Table_0 =~= self@->Table_0);
                r
            },
        }
    }

    /// The number, where the value is a non-negative integer.
    pub fn as_u64(&self) -> (r: Option<u64>)
        ensures
            r == self@.as_u64(),
    {
        match self {
            SettingValue::Unsigned(n) => Some(*n),
            _ => None,
        }
    }

    /// The number in thousandths, where the value is a number of any shape.
    pub fn as_thousandths(&self) -> (r: Option<i64>)
        ensures
            r == self@.as_thousandths(),
    {
        match self {
            SettingValue::Unsigned(n) => {
                if *n > 9_223_372_036_854_775u64 {
                    Some(i64::MAX)
                } else {
                    Some((*n * 1000) as i64)
                }
            },
            SettingValue::Signed(n) => {
                if *n > 9_223_372_036_854_775i64 {
                    Some(i64::MAX)
                } else if *n < -9_223_372_036_854_775i64 {
                    Some(i64::MIN)
                } else {
                    Some(*n * 1000)
                }
            },
            SettingValue::Real { bits: _, thousandths } => Some(*thousandths),
            _ => None,
        }
    }

    /// The text, where the value is one.
    pub fn as_str(&self) -> (r: Option<&String>)
        ensures
            match r {
                Some(s) => self@.as_str() == Some(s@),
                None => self@.as_str() is None,
            },
    {
        match self {
            SettingValue::Text(s) => Some(s),
            _ => None,
        }
    }

    /// The elements, where the value is a list.
    pub fn as_array(&self) -> (r: Option<&Vec<SettingValue>>)
        ensures
            match r {
                Some(items) => self@.as_array() == Some(list_models(items@)),
                None => self@.as_array() is None,
            },
    {
        match self {
            SettingValue::List(items) => {
                assert(list_models(items@) =~= self@->List_0);
                Some(items)
            },
            _ => None,
        }
    }

    /// The texts among the elements of a list, in their order.
    pub fn text_items(items: &Vec<SettingValue>) -> (r: Vec<String>)
        ensures
            string_views(r@) == texts_in(list_models(items@)),
    {
        let mut out: Vec<String> = Vec::new();
        let mut i: usize = 0;
        let ghost models = list_models(items@);
        proof {
            reveal(Seq::filter_map);
            assert(models.take(0) =~= Seq::empty());
            assert(string_views(out@) =~= Seq::empty());
        }
        while i < items.len()
            invariant
                i <= items.len(),
                models == list_models(items@),
                string_views(out@) == texts_in(models.take(i as int)),
            decreases items.len() - i,
        {
            let ghost before = out@;
            match items[i].as_str() {
                Some(s) => {
                    out.push(s.clone());
                },
                None => {},
            }
            proof {
                reveal(Seq::filter_map);
                let next = models.take(i + 1);
                assert(next.drop_last() =~= models.take(i as int));
                assert(next.last() == items@[i as int]@);
                if items@[i as int]@.as_str() is Some {
                    assert(string_views(out@) =~= string_views(before).push(
                        items@[i as int]@.as_str()->0,
                    ));
                    assert(texts_in(models.take(i as int)) + seq![items@[i as int]@.as_str()->0]
                        =~= texts_in(models.take(i as int)).push(items@[i as int]@.as_str()->0));
                }
            }
            i += 1;
        }
        proof {
            assert(models.take(i as int) =~= models);
        }
        out
    }
}

/// The models of the elements of a list.
pub open spec fn list_models(items: Seq<SettingValue>) -> Seq<SettingModel> {
    items.map_values(|item: SettingValue| item@)
}

impl Clone for SettingValue {
    fn clone(&self) -> (r: SettingValue)
        ensures
            r@ == self@,
    {
        self.duplicate()
    }
}

/// A settings entry as it is modelled: the key's characters and the value's model.
pub type EntryModel = (Seq<char>, SettingModel);

/// The models of a run of entries.
pub open spec fn entry_models(entries: Seq<(String, SettingValue)>) -> Seq<EntryModel> {
    entries.map_values(|e: (String, SettingValue)| (e.0@, e.1@))
}

/// The value that `key` has in a run of entries: that of the last entry with
/// this key, if there is one.
pub open spec fn lookup(entries: Seq<EntryModel>, key: Seq<char>) -> Option<SettingModel>
    decreases entries.len(),
{
    if entries.len() == 0 {
        None
    } else if entries.last().0 == key {
        Some(entries.last().1)
    } else {
        lookup(entries.drop_last(), key)
    }
}

/// The mapping that a run of entries stands for.
pub open spec fn bag_of(entries: Seq<EntryModel>) -> Map<Seq<char>, SettingModel> {
    Map::new(|k: Seq<char>| lookup(entries, k) is Some, |k: Seq<char>| lookup(entries, k)->0)
}

/// Replacing the value of the last entry that has a key gives that key the new
/// value and leaves every other key alone.
proof fn lemma_lookup_update(entries: Seq<EntryModel>, i: int, entry: EntryModel, key: Seq<char>)
    requires
        0 <= i < entries.len(),
        entries[i].0 == entry.0,
        forall|j: int| i < j < entries.len() ==> (#[trigger] entries[j]).0 != entry.0,
    ensures
        lookup(entries.update(i, entry), key) == if key == entry.0 {
            Some(entry.1)
        } else {
            lookup(entries, key)
        },
    decreases entries.len(),
{
    let updated = entries.update(i, entry);
    if i == entries.len() - 1 {
        assert(updated.drop_last() =~= entries.drop_last());
    } else {
        assert(updated.drop_last() =~= entries.drop_last().update(i, entry));
        assert(updated.last() == entries.last());
        assert(entries[entries.len() - 1].0 != entry.0);
        lemma_lookup_update(entries.drop_last(), i, entry, key);
    }
}

/// A key that no entry has is not in the mapping.
proof fn lemma_lookup_absent(entries: Seq<EntryModel>, key: Seq<char>)
    requires
        forall|j: int| 0 <= j < entries.len() ==> (#[trigger] entries[j]).0 != key,
    ensures
        lookup(entries, key) is None,
    decreases entries.len(),
{
    if entries.len() > 0 {
        assert(entries[entries.len() - 1].0 != key);
        lemma_lookup_absent(entries.drop_last(), key);
    }
}

/// Entries after the last one with a key do not matter to that key.
proof fn lemma_lookup_last_match(entries: Seq<EntryModel>, i: int, key: Seq<char>)
    requires
        0 <= i < entries.len(),
        entries[i].0 == key,
        forall|j: int| i < j < entries.len() ==> (#[trigger] entries[j]).0 != key,
    ensures
        lookup(entries, key) == Some(entries[i].1),
    decreases entries.len(),
{
    if i < entries.len() - 1 {
        assert(entries[entries.len() - 1].0 != key);
        lemma_lookup_last_match(entries.drop_last(), i, key);
    }
}

/// A keyed bag of settings. A key has one value: the one given last.
///
/// The bag is a list of entries that is searched by key, and its view is the
/// mapping from keys to values. A hash map keyed by `String` would not do:
/// nothing says how a `String` is hashed, so nothing could be proved of what
/// such a map holds; and the bag has to hand out its entries and copy itself.
#[derive(Debug)]
pub struct Settings {
    entries: Vec<(String, SettingValue)>,
}

impl View for Settings {
    type V = Map<Seq<char>, SettingModel>;

    open spec fn view(&self) -> Map<Seq<char>, SettingModel> {
        bag_of(self.listing())
    }
}

impl Settings {
    /// The entries as they are stored, oldest first.
    pub closed spec fn listing(&self) -> Seq<EntryModel> {
        entry_models(self.entries@)
    }

    /// An empty bag.
    pub fn new() -> (r: Settings)
        ensures
            r@ == Map::<Seq<char>, SettingModel>::empty(),
            r.listing() == Seq::<EntryModel>::empty(),
    {
        let r = Settings { entries: Vec::new() };
        assert(r.listing() =~= Seq::<EntryModel>::empty());
        assert(r@ =~= Map::<Seq<char>, SettingModel>::empty());
        r
    }

    /// The position of the last entry whose key is `key`.
    fn position(&self, key: &str) -> (r: Option<usize>)
        ensures
            match r {
                Some(i) => i < self.listing().len() && self.listing()[i as int].0 == key@
                    && forall|j: int|
                    i < j < self.listing().len() ==> (#[trigger] self.listing()[j]).0 != key@,
                None => forall|j: int|
                    0 <= j < self.listing().len() ==> (#[trigger] self.listing()[j]).0 != key@,
            },
    {
        let mut i: usize = self.entries.len();
        while i > 0
            invariant
                i <= self.entries.len(),
                forall|j: int|
                    i <= j < self.listing().len() ==> (#[trigger] self.listing()[j]).0 != key@,
            decreases i,
        {
            i -= 1;
            if str_eq(self.entries[i].0.as_str(), key) {
                return Some(i);
            }
        }
        None
    }

    /// The value of `key`, if it has one.
    pub fn get(&self, key: &str) -> (r: Option<&SettingValue>)
        ensures
            match r {
                Some(v) => self@.contains_key(key@) && self@[key@] == v@,
                None => !self@.contains_key(key@),
            },
    {
        match self.position(key) {
            Some(i) => {
                proof {
                    lemma_lookup_last_match(self.listing(), i as int, key@);
                }
                Some(&self.entries[i].1)
            },
            None => {
                proof {
                    lemma_lookup_absent(self.listing(), key@);
                }
                None
            },
        }
    }

    /// Whether `key` has a value.
    pub fn contains_key(&self, key: &str) -> (r: bool)
        ensures
            r == self@.contains_key(key@),
    {
        self.get(key).is_some()
    }

    /// Gives `key` the value `value`, in place of the one it had, if any.
    pub fn insert(&mut self, key: String, value: SettingValue)
        ensures
            final(self)@ == old(self)@.insert(key@, value@),
    {
        let ghost before = self.listing();
        match self.position(key.as_str()) {
            Some(i) => {
                self.entries.set(i, (key, value));
                proof {
                    assert(self.listing() =~= before.update(i as int, (key@, value@)));
                    assert forall|k: Seq<char>|
                        lookup(self.listing(), k) == if k == key@ {
                            Some(value@)
                        } else {
                            lookup(before, k)
                        } by {
                        lemma_lookup_update(before, i as int, (key@, value@), k);
                    }
                }
            },
            None => {
                self.entries.push((key, value));
                proof {
                    assert(self.listing() =~= before.push((key@, value@)));
                    assert(self.listing().drop_last() =~= before);
                }
            },
        }
        assert(self@ =~= bag_of(before).insert(key@, value@));
    }

    /// The entries as they are stored, oldest first. Where a key occurs twice,
    /// its last entry counts.
    pub fn entries(&self) -> (r: &Vec<(String, SettingValue)>)
        ensures
            entry_models(r@) == self.listing(),
    {
        &self.entries
    }

    /// A deep copy.
    pub fn duplicate(&self) -> (r: Settings)
        ensures
            r@ == self@,
            r.listing() == self.listing(),
    {
        let mut out: Vec<(String, SettingValue)> = Vec::new();
        let mut i: usize = 0;
        while i < self.entries.len()
            invariant
                i <= self.entries.len(),
                out@.len() == i,
                forall|j: int|
                    0 <= j < i ==> (#[trigger] out@[j]).0@ == self.entries@[j].0@ && out@[j].1@
                        == self.entries@[j].1@,
            decreases self.entries.len() - i,
        {
            let key = self.entries[i].0.clone();
            let value = self.entries[i].1.duplicate();
            out.push((key, value));
            i += 1;
        }
        let r = Settings { entries: out };
        assert(r.listing() =~= self.listing());
        r
    }

    /// Takes over every entry of `other`: a key that `other` has gets the value
    /// it has there, every other key keeps its own.
    pub fn merge(&mut self, other: &Settings)
        ensures
            final(self)@ == old(self)@.union_prefer_right(other@),
    {
        let mut i: usize = 0;
        let ghost start = self@;
        let ghost incoming = other.listing();
        assert(incoming.take(0) =~= Seq::<EntryModel>::empty());
        assert(self@ =~= start.union_prefer_right(bag_of(incoming.take(0))));
        while i < other.entries.len()
            invariant
                i <= other.entries.len(),
                incoming == other.listing(),
                self@ == start.union_prefer_right(bag_of(incoming.take(i as int))),
            decreases other.entries.len() - i,
        {
            let key = other.entries[i].0.clone();
            let value = other.entries[i].1.duplicate();
            proof {
                let next = incoming.take(i + 1);
                assert(next.drop_last() =~= incoming.take(i as int));
                assert(next.last() == (key@, value@));
                assert(bag_of(next) =~= bag_of(incoming.take(i as int)).insert(key@, value@));
            }
            self.insert(key, value);
            assert(self@ =~= start.union_prefer_right(bag_of(incoming.take(i + 1))));
            i += 1;
        }
        assert(incoming.take(i as int) =~= incoming);
    }
}

impl Clone for Settings {
    fn clone(&self) -> (r: Settings)
        ensures
            r@ == self@,
    {
        self.duplicate()
    }
}

} // verus!
