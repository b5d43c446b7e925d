//! The table of strings that an evaluation makes up for itself.
//!
//! The table is a `lasso::Rodeo`. Verus does not look inside it: what it holds
//! is named by [`rodeo_strings`], and each call into it goes through one of
//! the small functions below, whose contracts are taken on trust from the
//! interner's source.

use lasso::Key;
use vstd::prelude::*;

verus! {

/// `lasso::Spur`, the key of the table. Nothing is said of it.
#[verifier::external_type_specification]
#[verifier::external_body]
pub struct ExSpur(lasso::Spur);

/// `lasso::Rodeo`, the table. Nothing is said of what is inside it.
#[verifier::external_type_specification]
#[verifier::external_body]
#[verifier::reject_recursive_types(K)]
#[verifier::reject_recursive_types(S)]
pub struct ExRodeo<K, S>(lasso::Rodeo<K, S>);

/// The strings that a `Rodeo` holds, in the order in which they were first
/// interned. The key of a string is its position here.
pub uninterp spec fn rodeo_strings(rodeo: lasso::Rodeo) -> Seq<Seq<char>>;

/// The number of strings that a table keyed by `lasso::Spur` can hold.
pub const MAX_INTERNED: usize = 0xFFFF_FFFF;

/// `Rodeo::default`: a table that holds no string.
#[verifier::external_body]
fn rodeo_default() -> (rodeo: lasso::Rodeo)
    ensures
        rodeo_strings(rodeo) == Seq::<Seq<char>>::empty(),
{
    lasso::Rodeo::default()
}

/// `Rodeo::get`, with the key turned into its position by `Key::into_usize`:
/// the position of `value` among the strings held, or `None` if it is not
/// among them.
#[verifier::external_body]
fn rodeo_get(rodeo: &lasso::Rodeo, value: &str) -> (key: Option<usize>)
    ensures
        match key {
            Some(k) => k < rodeo_strings(*rodeo).len() && rodeo_strings(*rodeo)[k as int]
                == value@,
            None => !rodeo_strings(*rodeo).contains(value@),
        },
{
    rodeo.get(value).map(Key::into_usize)
}

/// `Rodeo::get_or_intern`, with the key turned into its position by
/// `Key::into_usize`. A string that is held keeps its position and nothing
/// changes; another one is put behind the last and gets that position. The
/// call panics when the table is full, which `requires` leaves out, and when
/// memory runs out.
#[verifier::external_body]
fn rodeo_get_or_intern(rodeo: &mut lasso::Rodeo, value: &str) -> (key: usize)
    requires
        rodeo_strings(*old(rodeo)).contains(value@) || rodeo_strings(*old(rodeo)).len()
            < MAX_INTERNED,
    ensures
        key < rodeo_strings(*final(rodeo)).len(),
        rodeo_strings(*final(rodeo))[key as int] == value@,
        rodeo_strings(*old(rodeo)).contains(value@) ==> rodeo_strings(*final(rodeo))
            == rodeo_strings(*old(rodeo)),
        !rodeo_strings(*old(rodeo)).contains(value@) ==> rodeo_strings(*final(rodeo))
            == rodeo_strings(*old(rodeo)).push(value@),
{
    rodeo.get_or_intern(value).into_usize()
}

/// `Rodeo::try_resolve`, on the key that `Key::try_from_usize` makes of a
/// position: the string at that position, or `None` if no string stands
/// there.
#[verifier::external_body]
fn rodeo_try_resolve(rodeo: &lasso::Rodeo, key: usize) -> (value: Option<&str>)
    ensures
        match value {
            Some(v) => key < rodeo_strings(*rodeo).len() && v@ == rodeo_strings(*rodeo)[key as int],
            None => key >= rodeo_strings(*rodeo).len(),
        },
{
    lasso::Spur::try_from_usize(key).and_then(|key| rodeo.try_resolve(&key))
}

/// `Rodeo::len`: the number of strings held.
#[verifier::external_body]
fn rodeo_len(rodeo: &lasso::Rodeo) -> (len: usize)
    ensures
        len == rodeo_strings(*rodeo).len(),
{
    rodeo.len()
}

/// The key of `value` in a table that holds it: the position at which it
/// stands.
pub open spec fn key_of(strings: Seq<Seq<char>>, value: Seq<char>) -> int {
    choose|k: int| 0 <= k < strings.len() && strings[k] == value
}

/// Whether looking `value` up in a table may give `key`: the key is a position
/// at which the string stands, and there is none only if the string stands
/// nowhere.
pub open spec fn looked_up(strings: Seq<Seq<char>>, value: Seq<char>, key: Option<usize>) -> bool {
    match key {
        Some(k) => string_at(strings, k) == Some(value),
        None => !strings.contains(value),
    }
}

/// The table after `value` was interned: unchanged if it held the string,
/// else longer by that string.
pub open spec fn after_intern(strings: Seq<Seq<char>>, value: Seq<char>) -> Seq<Seq<char>> {
    if strings.contains(value) {
        strings
    } else {
        strings.push(value)
    }
}

/// The string that stands for `key`, if any does.
pub open spec fn string_at(strings: Seq<Seq<char>>, key: usize) -> Option<Seq<char>> {
    if key < strings.len() {
        Some(strings[key as int])
    } else {
        None
    }
}

/// What holds of the strings of every table: none stands there twice, and
/// there are no more of them than there are keys.
pub open spec fn is_table(strings: Seq<Seq<char>>) -> bool {
    strings.no_duplicates() && strings.len() <= MAX_INTERNED
}

/// In a table without repetitions a string stands at one position only, so
/// finding it anywhere is finding its key.
pub proof fn lemma_key_is_position(strings: Seq<Seq<char>>, k: int)
    requires
        strings.no_duplicates(),
        0 <= k < strings.len(),
    ensures
        strings.contains(strings[k]),
        key_of(strings, strings[k]) == k,
{
}

/// In a table a string has one key: whatever a lookup gives is that key, and
/// a lookup finds every string that stands in the table.
pub proof fn lemma_looked_up(strings: Seq<Seq<char>>, value: Seq<char>, key: Option<usize>)
    requires
        is_table(strings),
    ensures
        looked_up(strings, value, key) <==> key == if strings.contains(value) {
            Some(key_of(strings, value) as usize)
        } else {
            None
        },
{
    if let Some(k) = key {
        if k < strings.len() {
            lemma_key_is_position(strings, k as int);
        }
    }
    if strings.contains(value) {
        lemma_key_is_position(strings, key_of(strings, value));
    }
}

/// Interning keeps a table free of repetitions.
pub proof fn lemma_intern_keeps_distinct(strings: Seq<Seq<char>>, value: Seq<char>)
    requires
        strings.no_duplicates(),
    ensures
        after_intern(strings, value).no_duplicates(),
        after_intern(strings, value).contains(value),
{
    let after = after_intern(strings, value);
    if !strings.contains(value) {
        assert(after[strings.len() as int] == value);
        assert forall|i: int, j: int| 0 <= i < after.len() && 0 <= j < after.len() && i != j
            implies after[i] != after[j] by {
            if i < strings.len() {
                assert(strings.contains(strings[i]));
            }
            if j < strings.len() {
                assert(strings.contains(strings[j]));
            }
        }
    }
}

/// The strings that one evaluation has made up, each under a small key that
/// stays the same for as long as the table lives.
pub struct Interner {
    rodeo: lasso::Rodeo,
}

impl View for Interner {
    type V = Seq<Seq<char>>;

    /// The strings held, each at the position that is its key.
    closed spec fn view(&self) -> Seq<Seq<char>> {
        rodeo_strings(self.rodeo)
    }
}

impl Interner {
    /// No string is held twice, so that a string has one key, and no more
    /// strings are held than there are keys.
    pub open spec fn wf(&self) -> bool {
        is_table(self@)
    }

    /// Whether `value` can be interned: it is held already, or a key is left.
    pub open spec fn has_room_for(&self, value: Seq<char>) -> bool {
        self@.contains(value) || self@.len() < MAX_INTERNED
    }

    /// A table that holds no string.
    pub fn new() -> (interner: Self)
        ensures
            interner@ == Seq::<Seq<char>>::empty(),
            interner.wf(),
    {
        Interner { rodeo: rodeo_default() }
    }

    /// The number of strings held.
    pub fn len(&self) -> (len: usize)
        ensures
            len == self@.len(),
    {
        rodeo_len(&self.rodeo)
    }

    /// The key of `value`, if the table holds it.
    pub fn get(&self, value: &str) -> (key: Option<usize>)
        ensures
            looked_up(self@, value@, key),
    {
        rodeo_get(&self.rodeo, value)
    }

    /// The string that stands for `key`, if any does.
    pub fn resolve(&self, key: usize) -> (value: Option<String>)
        ensures
            match value {
                Some(v) => string_at(self@, key) == Some(v@),
                None => string_at(self@, key).is_none(),
            },
    {
        match rodeo_try_resolve(&self.rodeo, key) {
            Some(v) => Some(v.to_owned()),
            None => None,
        }
    }

    /// The key of `value`, which is interned first if the table does not hold
    /// it. Keys given out before stay as they are.
    pub fn intern(&mut self, value: &str) -> (key: usize)
        requires
            old(self).wf(),
            old(self).has_room_for(value@),
        ensures
            final(self).wf(),
            final(self)@ == after_intern(old(self)@, value@),
            key == key_of(final(self)@, value@),
    {
        proof {
            lemma_intern_keeps_distinct(self@, value@);
        }
        let key = rodeo_get_or_intern(&mut self.rodeo, value);
        proof {
            lemma_key_is_position(self@, key as int);
        }
        key
    }
}

} // verus!
