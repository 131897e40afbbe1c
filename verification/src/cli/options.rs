//! Comma-separated options: `key=value` pairs and bare flags.
use vstd::prelude::*;

use crate::text::{
    join, law_split_undoes_join, lemma_first_index, lemma_first_index_unique, opt_text, same_text,
    split, split_once, split_once_text, split_text, texts,
};

verus! {

/// One option: its key and its value.
pub type Entry = (Seq<char>, Seq<char>);

/// The option that one part of a specification gives: what stands before and
/// after its first `=`, or the whole part with the value `true`.
pub open spec fn option_of(part: Seq<char>) -> Entry {
    match split_once(part, '=') {
        Some((key, value)) => (key, value),
        None => (part, "true"@),
    }
}

/// The position of `key` among the entries, or their number where it is not
/// there.
pub open spec fn position(entries: Seq<Entry>, key: Seq<char>) -> int
    decreases entries.len(),
{
    if entries.len() == 0 {
        0
    } else if entries[0].0 == key {
        0
    } else {
        1 + position(entries.drop_first(), key)
    }
}

/// The entries after `key` was given `value`: in place where the key is there
/// already, else behind the others.
pub open spec fn put(entries: Seq<Entry>, entry: Entry) -> Seq<Entry> {
    let i = position(entries, entry.0);
    if 0 <= i < entries.len() {
        entries.update(i, entry)
    } else {
        entries.push(entry)
    }
}

/// The entries that the parts give, one after the other.
pub open spec fn collect(parts: Seq<Seq<char>>) -> Seq<Entry>
    decreases parts.len(),
{
    if parts.len() == 0 {
        Seq::empty()
    } else {
        put(collect(parts.drop_last()), option_of(parts.last()))
    }
}

/// The options of a comma-separated list. The empty text has none.
pub open spec fn options_of(s: Seq<char>) -> Seq<Entry> {
    if s.len() == 0 {
        Seq::empty()
    } else {
        collect(split(s, ','))
    }
}

/// The value of `key`.
pub open spec fn lookup(entries: Seq<Entry>, key: Seq<char>) -> Option<Seq<char>> {
    let i = position(entries, key);
    if 0 <= i < entries.len() {
        Some(entries[i].1)
    } else {
        None
    }
}

/// Whether `key` was given.
pub open spec fn given(entries: Seq<Entry>, key: Seq<char>) -> bool {
    lookup(entries, key) is Some
}

/// Whether no key occurs twice.
pub open spec fn keys_are_unique(entries: Seq<Entry>) -> bool {
    forall|i: int, j: int|
        0 <= i < j < entries.len() ==> (#[trigger] entries[i]).0 != (#[trigger] entries[j]).0
}

/// The value that the last part with this key gives it.
pub open spec fn last_value(parts: Seq<Seq<char>>, key: Seq<char>) -> Option<Seq<char>>
    decreases parts.len(),
{
    if parts.len() == 0 {
        None
    } else if option_of(parts.last()).0 == key {
        Some(option_of(parts.last()).1)
    } else {
        last_value(parts.drop_last(), key)
    }
}

proof fn lemma_position(entries: Seq<Entry>, key: Seq<char>)
    ensures
        0 <= position(entries, key) <= entries.len(),
        position(entries, key) < entries.len() ==> entries[position(entries, key)].0 == key,
        forall|j: int| 0 <= j < position(entries, key) ==> (#[trigger] entries[j]).0 != key,
    decreases entries.len(),
{
    if entries.len() > 0 && entries[0].0 != key {
        let rest = entries.drop_first();
        lemma_position(rest, key);
        assert forall|j: int| 0 <= j < position(entries, key) implies (#[trigger] entries[j]).0
            != key by {
            if j > 0 {
                assert(rest[j - 1] == entries[j]);
            }
        }
    }
}

proof fn lemma_position_unique(entries: Seq<Entry>, key: Seq<char>, i: int)
    requires
        0 <= i <= entries.len(),
        forall|j: int| 0 <= j < i ==> (#[trigger] entries[j]).0 != key,
        i < entries.len() ==> entries[i].0 == key,
    ensures
        position(entries, key) == i,
{
    lemma_position(entries, key);
    let p = position(entries, key);
    if p < i {
        assert(entries[p].0 != key);
    }
    if i < p {
        assert(entries[i].0 != key);
    }
}

/// Giving a key a value sets that key and leaves the others as they were.
proof fn lemma_lookup_put(entries: Seq<Entry>, entry: Entry, key: Seq<char>)
    ensures
        lookup(put(entries, entry), key) == if key == entry.0 {
            Some(entry.1)
        } else {
            lookup(entries, key)
        },
{
    let after = put(entries, entry);
    let i = position(entries, entry.0);
    lemma_position(entries, entry.0);
    lemma_position(entries, key);
    if key == entry.0 {
        assert forall|j: int| 0 <= j < i implies (#[trigger] after[j]).0 != key by {
            assert(after[j] == entries[j]);
        }
        lemma_position_unique(after, key, i);
    } else {
        let p = position(entries, key);
        if p < entries.len() {
            assert forall|j: int| 0 <= j < p implies (#[trigger] after[j]).0 != key by {
                if j != i {
                    assert(after[j] == entries[j]);
                }
            }
            assert(after[p] == entries[p]);
            lemma_position_unique(after, key, p);
        } else {
            assert forall|j: int| 0 <= j < after.len() implies (#[trigger] after[j]).0 != key by {
                if j != i {
                    assert(after[j] == entries[j]);
                }
            }
            lemma_position_unique(after, key, after.len() as int);
        }
    }
}

/// Where an option is given more than once, the last one counts.
pub proof fn law_last_option_wins(parts: Seq<Seq<char>>, key: Seq<char>)
    ensures
        lookup(collect(parts), key) == last_value(parts, key),
    decreases parts.len(),
{
    if parts.len() > 0 {
        law_last_option_wins(parts.drop_last(), key);
        lemma_lookup_put(collect(parts.drop_last()), option_of(parts.last()), key);
    }
}

/// No key occurs twice among collected options.
pub proof fn law_keys_are_unique(parts: Seq<Seq<char>>)
    ensures
        keys_are_unique(collect(parts)),
    decreases parts.len(),
{
    if parts.len() > 0 {
        let before = collect(parts.drop_last());
        let entry = option_of(parts.last());
        law_keys_are_unique(parts.drop_last());
        lemma_position(before, entry.0);
        let p = position(before, entry.0);
        let after = put(before, entry);
        assert forall|i: int, j: int| 0 <= i < j < after.len() implies (#[trigger] after[i]).0 != (
        #[trigger] after[j]).0 by {
            if i != p {
                assert(after[i] == before[i]);
            }
            if j != p {
                assert(after[j] == before[j]);
            }
            if i == p && p < before.len() {
                assert(before[i].0 == entry.0);
            }
            if j == p && p < before.len() {
                assert(before[j].0 == entry.0);
            }
        }
    }
}

/// Options with keys that differ are kept as they come.
pub proof fn law_distinct_options_keep_their_order(parts: Seq<Seq<char>>)
    requires
        keys_are_unique(parts.map_values(|p: Seq<char>| option_of(p))),
    ensures
        collect(parts) == parts.map_values(|p: Seq<char>| option_of(p)),
    decreases parts.len(),
{
    let f = |p: Seq<char>| option_of(p);
    let all = parts.map_values(f);
    if parts.len() > 0 {
        let before = parts.drop_last();
        assert(before.map_values(f) =~= all.drop_last());
        assert forall|i: int, j: int| 0 <= i < j < all.drop_last().len() implies (
        #[trigger] all.drop_last()[i]).0 != (#[trigger] all.drop_last()[j]).0 by {
            assert(all[i].0 != all[j].0);
        }
        law_distinct_options_keep_their_order(before);
        let entry = option_of(parts.last());
        assert forall|j: int| 0 <= j < before.len() implies (#[trigger] collect(before)[j]).0
            != entry.0 by {
            assert(collect(before)[j] == all[j]);
            assert(all[all.len() - 1] == entry);
        }
        lemma_position_unique(collect(before), entry.0, before.len() as int);
    }
    assert(collect(parts) =~= all);
}

/// The part that gives `key` the value `value`.
pub open spec fn keyed(key: Seq<char>, value: Seq<char>) -> Seq<char> {
    key + seq!['='] + value
}

/// The part for an optional value.
pub open spec fn optional(key: Seq<char>, value: Option<Seq<char>>) -> Seq<Seq<char>> {
    match value {
        Some(v) => seq![keyed(key, v)],
        None => Seq::empty(),
    }
}

/// The part for a flag.
pub open spec fn flag(key: Seq<char>, on: bool) -> Seq<Seq<char>> {
    if on {
        seq![key]
    } else {
        Seq::empty()
    }
}

/// Whether a text can stand in a specification as a value.
pub open spec fn is_plain(s: Seq<char>) -> bool {
    !s.contains(',')
}

/// Whether an optional text can stand in a specification as a value.
pub open spec fn opt_is_plain(s: Option<Seq<char>>) -> bool {
    s matches Some(t) ==> is_plain(t)
}

/// Whether a text can stand in a specification as a key.
pub open spec fn is_key(s: Seq<char>) -> bool {
    !s.contains(',') && !s.contains('=')
}

/// A part with `=` gives what stands around its first one; a part without it
/// is a flag.
pub proof fn law_option_of(key: Seq<char>, value: Seq<char>)
    requires
        !key.contains('='),
    ensures
        option_of(keyed(key, value)) == (key, value),
        option_of(key) == (key, "true"@),
{
    let s = keyed(key, value);
    assert forall|j: int| 0 <= j < key.len() implies s[j] != '=' by {
        assert(s[j] == key[j]);
        assert(key.contains(key[j]));
    }
    lemma_first_index_unique(s, '=', key.len() as int);
    assert(s.take(key.len() as int) =~= key);
    assert(s.skip(key.len() as int + 1) =~= value);
    lemma_first_index(key, '=');
}

pub proof fn lemma_last_value_concat(a: Seq<Seq<char>>, b: Seq<Seq<char>>, key: Seq<char>)
    ensures
        last_value(a + b, key) == match last_value(b, key) {
            Some(v) => Some(v),
            None => last_value(a, key),
        },
    decreases b.len(),
{
    if b.len() == 0 {
        assert(a + b =~= a);
    } else {
        assert((a + b).drop_last() =~= a + b.drop_last());
        lemma_last_value_concat(a, b.drop_last(), key);
    }
}

pub proof fn lemma_last_value_optional(name: Seq<char>, value: Option<Seq<char>>, key: Seq<char>)
    requires
        !name.contains('='),
    ensures
        last_value(optional(name, value), key) == if key == name {
            value
        } else {
            None
        },
{
    if let Some(v) = value {
        law_option_of(name, v);
        let parts = optional(name, value);
        assert(parts.last() == keyed(name, v));
        assert(parts.drop_last() =~= Seq::empty());
        reveal_with_fuel(last_value, 2);
    }
}

pub proof fn lemma_last_value_flag(name: Seq<char>, on: bool, key: Seq<char>)
    requires
        !name.contains('='),
    ensures
        last_value(flag(name, on), key) == if on && key == name {
            Some("true"@)
        } else {
            None
        },
{
    if on {
        law_option_of(name, Seq::empty());
        let parts = flag(name, on);
        assert(parts.drop_last() =~= Seq::empty());
        reveal_with_fuel(last_value, 2);
    }
}

/// Whether no part of a specification holds a comma.
pub open spec fn all_plain(parts: Seq<Seq<char>>) -> bool {
    forall|i: int| 0 <= i < parts.len() ==> is_plain(#[trigger] parts[i])
}

pub proof fn lemma_plain_concat(a: Seq<Seq<char>>, b: Seq<Seq<char>>)
    requires
        all_plain(a),
        all_plain(b),
    ensures
        all_plain(a + b),
{
    assert forall|i: int| 0 <= i < (a + b).len() implies is_plain(#[trigger] (a + b)[i]) by {
        if i < a.len() {
            assert((a + b)[i] == a[i]);
        } else {
            assert((a + b)[i] == b[i - a.len()]);
        }
    }
}

pub proof fn lemma_plain_optional(name: Seq<char>, value: Option<Seq<char>>)
    requires
        is_plain(name),
        opt_is_plain(value),
    ensures
        all_plain(optional(name, value)),
{
    if let Some(v) = value {
        let s = keyed(name, v);
        assert forall|j: int| 0 <= j < s.len() implies s[j] != ',' by {
            if j < name.len() {
                assert(s[j] == name[j]);
                assert(name.contains(name[j]));
            } else if j > name.len() {
                assert(s[j] == v[j - name.len() - 1]);
                assert(v.contains(v[j - name.len() - 1]));
            }
        }
    }
}

/// The options of a joined list are those of its parts.
pub proof fn law_options_of_joined_parts(parts: Seq<Seq<char>>)
    requires
        all_plain(parts),
        parts.len() > 0,
        parts.len() == 1 ==> parts[0].len() > 0,
    ensures
        options_of(join(parts, ',')) == collect(parts),
{
    assert forall|i: int| 0 <= i < parts.len() implies !(#[trigger] parts[i]).contains(',') by {
        assert(is_plain(parts[i]));
    }
    law_split_undoes_join(parts, ',');
}

/// A list of options in which no key occurs twice.
pub struct Options {
    entries: Vec<(String, String)>,
}

impl View for Options {
    type V = Seq<Entry>;

    closed spec fn view(&self) -> Seq<Entry> {
        self.entries@.map_values(|e: (String, String)| (e.0@, e.1@))
    }
}

impl Options {
    fn find(&self, key: &str) -> (r: usize)
        ensures
            r == position(self@, key@),
            r <= self.entries@.len(),
    {
        let mut i: usize = 0;
        while i < self.entries.len() && !same_text(self.entries[i].0.as_str(), key)
            invariant
                i <= self.entries@.len(),
                forall|j: int| 0 <= j < i ==> (#[trigger] self@[j]).0 != key@,
            decreases self.entries@.len() - i,
        {
            assert(self@[i as int].0 == self.entries@[i as int].0@);
            i += 1;
        }
        proof {
            if i < self.entries@.len() {
                assert(self@[i as int].0 == self.entries@[i as int].0@);
            }
            lemma_position_unique(self@, key@, i as int);
        }
        i
    }

    fn insert(&mut self, key: String, value: String)
        ensures
            final(self)@ == put(old(self)@, (key@, value@)),
    {
        let i: usize = self.find(key.as_str());
        if i < self.entries.len() {
            self.entries.set(i, (key, value));
        } else {
            self.entries.push((key, value));
        }
        assert(self@ =~= put(old(self)@, (key@, value@)));
    }

    /// The value of `key`, where it was given.
    pub fn get(&self, key: &str) -> (r: Option<String>)
        ensures
            opt_text(r) == lookup(self@, key@),
    {
        let i: usize = self.find(key);
        if i < self.entries.len() {
            assert(self@[i as int].1 == self.entries@[i as int].1@);
            Some(self.entries[i].1.as_str().to_owned())
        } else {
            None
        }
    }

    /// Whether `key` was given.
    pub fn contains_key(&self, key: &str) -> (r: bool)
        ensures
            r == given(self@, key@),
    {
        self.find(key) < self.entries.len()
    }

    /// Whether no option was given.
    pub fn is_empty(&self) -> (r: bool)
        ensures
            r == (self@.len() == 0),
    {
        self.entries.len() == 0
    }

    /// The number of options.
    pub fn len(&self) -> (r: usize)
        ensures
            r == self@.len(),
    {
        self.entries.len()
    }

    /// The key of the option at `i`.
    pub fn key(&self, i: usize) -> (r: &str)
        requires
            i < self@.len(),
        ensures
            r@ == self@[i as int].0,
    {
        self.entries[i].0.as_str()
    }

    /// The value of the option at `i`.
    pub fn value(&self, i: usize) -> (r: &str)
        requires
            i < self@.len(),
        ensures
            r@ == self@[i as int].1,
    {
        self.entries[i].1.as_str()
    }
}

/// Reads a comma-separated list of options.
pub fn parse_opts(s: &str) -> (r: Options)
    ensures
        r@ == options_of(s@),
        keys_are_unique(r@),
{
    let mut opts = Options { entries: Vec::new() };
    assert(opts@ =~= Seq::empty());
    let none: String = String::new();
    if same_text(s, none.as_str()) {
        assert(s@ =~= Seq::empty());
        return opts;
    }
    proof {
        if s@.len() == 0 {
            assert(s@ =~= Seq::empty());
        }
    }
    let parts = split_text(s, ',');
    let ghost pieces = texts(parts@);
    let mut i: usize = 0;
    assert(pieces.take(0) =~= Seq::empty());
    while i < parts.len()
        invariant
            i <= parts@.len(),
            pieces == texts(parts@),
            opts@ == collect(pieces.take(i as int)),
        decreases parts@.len() - i,
    {
        proof {
            assert(pieces.take(i + 1).drop_last() =~= pieces.take(i as int));
            assert(pieces.take(i + 1).last() == parts@[i as int]@);
        }
        let part = parts[i].as_str();
        match split_once_text(part, '=') {
            Some((key, value)) => {
                opts.insert(key, value);
            },
            None => {
                opts.insert(part.to_owned(), "true".to_owned());
            },
        }
        i += 1;
    }
    proof {
        assert(pieces.take(parts@.len() as int) =~= pieces);
        law_keys_are_unique(pieces);
    }
    opts
}

} // verus!
