//! Type-erased stores for runtime values.
//!
//! A store maps owned string keys to values whose static type has been erased
//! down to a checkable kind tag.  Retrieval names the expected type again; the
//! store answers with a borrowed reference only when the key is present and
//! the tag matches.  Three stores exist: an owning map with last-write-wins
//! overwrite, a read-only slice with first-match lookup, and an always-empty
//! store for callers without any allocation facility.

use vstd::prelude::*;

use crate::text::str_eq;

verus! {

/// Returned by [`Values::get_value`].
#[derive(Debug, PartialEq, Eq, Hash, PartialOrd, Ord, Structural)]
pub enum ValueError {
    /// Returned in cases there is no value with the given key.
    NotPresent,
    /// Returned if the given value doesn't have the provided type.
    WrongType,
}

/// A runtime value with its static type erased down to a kind tag.
#[derive(Debug)]
pub enum Value {
    /// An unsigned byte.
    U8(u8),
    /// An unsigned 32-bit number.
    U32(u32),
    /// A boolean.
    Bool(bool),
    /// A borrowed string with static lifetime.
    Str(&'static str),
    /// An owned string.
    Text(String),
}

/// The kind tag of an erased value.
#[derive(Debug)]
pub enum ValueTag {
    /// Tag of [`Value::U8`].
    U8,
    /// Tag of [`Value::U32`].
    U32,
    /// Tag of [`Value::Bool`].
    Bool,
    /// Tag of [`Value::Str`].
    Str,
    /// Tag of [`Value::Text`].
    Text,
}

/// The kind tag carried by an erased value.
pub open spec fn tag_of(v: Value) -> ValueTag {
    match v {
        Value::U8(_) => ValueTag::U8,
        Value::U32(_) => ValueTag::U32,
        Value::Bool(_) => ValueTag::Bool,
        Value::Str(_) => ValueTag::Str,
        Value::Text(_) => ValueTag::Text,
    }
}

/// A type that can be stored in a value store: it has a stable kind tag, can
/// be erased into a [`Value`], and can be recovered from one by checking that
/// tag.  Erasure loses no information: two values with the same erased form
/// are the same value.
pub trait Stored: Sized {
    /// The kind tag of every erased value of this type.
    spec fn tag() -> ValueTag;

    /// The erased form of this value.
    spec fn erased(self) -> Value;

    /// Erasure always carries the type's own tag.
    proof fn lemma_erased_tag(self)
        ensures
            tag_of(self.erased()) == Self::tag(),
    ;

    /// Erasure is injective: equal erased forms come from equal values.
    proof fn lemma_erased_injective(self, other: Self)
        ensures
            self.erased() == other.erased() ==> self == other,
    ;

    /// Erases this value.
    fn erase(self) -> (v: Value)
        ensures
            v == self.erased(),
    ;

    /// Recovers a borrowed value of this type from an erased value, exactly
    /// when the kind tag matches.
    fn from_erased(v: &Value) -> (r: Option<&Self>)
        ensures
            (r is Some) == (tag_of(*v) == Self::tag()),
            r matches Some(x) ==> (*x).erased() == *v,
    ;
}

impl Stored for u8 {
    open spec fn tag() -> ValueTag {
        ValueTag::U8
    }

    open spec fn erased(self) -> Value {
        Value::U8(self)
    }

    proof fn lemma_erased_tag(self) {
    }

    proof fn lemma_erased_injective(self, other: Self) {
    }

    fn erase(self) -> (v: Value) {
        Value::U8(self)
    }

    fn from_erased(v: &Value) -> (r: Option<&Self>) {
        match v {
            Value::U8(x) => Some(x),
            _ => None,
        }
    }
}

impl Stored for u32 {
    open spec fn tag() -> ValueTag {
        ValueTag::U32
    }

    open spec fn erased(self) -> Value {
        Value::U32(self)
    }

    proof fn lemma_erased_tag(self) {
    }

    proof fn lemma_erased_injective(self, other: Self) {
    }

    fn erase(self) -> (v: Value) {
        Value::U32(self)
    }

    fn from_erased(v: &Value) -> (r: Option<&Self>) {
        match v {
            Value::U32(x) => Some(x),
            _ => None,
        }
    }
}

impl Stored for bool {
    open spec fn tag() -> ValueTag {
        ValueTag::Bool
    }

    open spec fn erased(self) -> Value {
        Value::Bool(self)
    }

    proof fn lemma_erased_tag(self) {
    }

    proof fn lemma_erased_injective(self, other: Self) {
    }

    fn erase(self) -> (v: Value) {
        Value::Bool(self)
    }

    fn from_erased(v: &Value) -> (r: Option<&Self>) {
        match v {
            Value::Bool(x) => Some(x),
            _ => None,
        }
    }
}

impl Stored for &'static str {
    open spec fn tag() -> ValueTag {
        ValueTag::Str
    }

    open spec fn erased(self) -> Value {
        Value::Str(self)
    }

    proof fn lemma_erased_tag(self) {
    }

    proof fn lemma_erased_injective(self, other: Self) {
    }

    fn erase(self) -> (v: Value) {
        Value::Str(self)
    }

    fn from_erased(v: &Value) -> (r: Option<&Self>) {
        match v {
            Value::Str(x) => Some(x),
            _ => None,
        }
    }
}

impl Stored for String {
    open spec fn tag() -> ValueTag {
        ValueTag::Text
    }

    open spec fn erased(self) -> Value {
        Value::Text(self)
    }

    proof fn lemma_erased_tag(self) {
    }

    proof fn lemma_erased_injective(self, other: Self) {
    }

    fn erase(self) -> (v: Value) {
        Value::Text(self)
    }

    fn from_erased(v: &Value) -> (r: Option<&Self>) {
        match v {
            Value::Text(x) => Some(x),
            _ => None,
        }
    }
}

/// Used to store values of any storable type at runtime.
///
/// A store is modelled as a mathematical map from key text to erased values.
/// Writable stores overwrite on insertion; read-only stores ignore it.
pub trait Values {
    /// The entries of the store: what a lookup at each key would find.
    spec fn entries(&self) -> Map<Seq<char>, Value>;

    /// Whether [`Values::add_value`] stores its entry (writable store) or
    /// does nothing (read-only store).
    spec fn writable(&self) -> bool;

    /// Add a new entry, overwriting any prior value at that key.  On a
    /// read-only store this does nothing.
    fn add_value<T: Stored>(&mut self, key: &str, value: T)
        ensures
            final(self).writable() == old(self).writable(),
            old(self).writable() ==> final(self).entries() == old(self).entries().insert(
                key@,
                value.erased(),
            ),
            !old(self).writable() ==> final(self).entries() == old(self).entries(),
    ;

    /// Retrieve an entry added with the [`add_value`][Self::add_value] method
    /// or already present in the store.  Fails with
    /// [`ValueError::NotPresent`] exactly when the key is absent, and with
    /// [`ValueError::WrongType`] exactly when the key is present but its
    /// erased value carries another type's tag.
    fn get_value<T: Stored>(&self, key: &str) -> (r: Result<&T, ValueError>)
        ensures
            match r {
                Ok(x) => self.entries().contains_key(key@)
                    && (*x).erased() == self.entries()[key@],
                Err(ValueError::NotPresent) => !self.entries().contains_key(key@),
                Err(ValueError::WrongType) => self.entries().contains_key(key@)
                    && tag_of(self.entries()[key@]) != T::tag(),
            },
    ;
}

/// The entries described by a sequence of key/value pairs where a later pair
/// overwrites an earlier one with the same key.
pub open spec fn map_of(s: Seq<(String, Value)>) -> Map<Seq<char>, Value>
    decreases s.len(),
{
    if s.len() == 0 {
        Map::empty()
    } else {
        map_of(s.drop_last()).insert(s.last().0@, s.last().1)
    }
}

/// No pair of `s` repeats a key.
pub open spec fn distinct_keys(s: Seq<(String, Value)>) -> bool {
    forall|i: int, j: int| 0 <= i < j < s.len() ==> s[i].0@ != s[j].0@
}

proof fn lemma_map_of_found(s: Seq<(String, Value)>, i: int)
    requires
        distinct_keys(s),
        0 <= i < s.len(),
    ensures
        map_of(s).contains_key(s[i].0@),
        map_of(s)[s[i].0@] == s[i].1,
    decreases s.len(),
{
    if i + 1 == s.len() {
    } else {
        assert(distinct_keys(s.drop_last()));
        assert(s.drop_last()[i] == s[i]);
        lemma_map_of_found(s.drop_last(), i);
        assert(s.last().0@ != s[i].0@);
    }
}

proof fn lemma_map_of_absent(s: Seq<(String, Value)>, k: Seq<char>)
    requires
        forall|i: int| 0 <= i < s.len() ==> s[i].0@ != k,
    ensures
        !map_of(s).contains_key(k),
    decreases s.len(),
{
    if s.len() > 0 {
        lemma_map_of_absent(s.drop_last(), k);
    }
}

proof fn lemma_map_of_update(s: Seq<(String, Value)>, i: int, p: (String, Value))
    requires
        distinct_keys(s),
        0 <= i < s.len(),
        p.0@ == s[i].0@,
    ensures
        map_of(s.update(i, p)) =~= map_of(s).insert(p.0@, p.1),
    decreases s.len(),
{
    let t = s.update(i, p);
    if i + 1 == s.len() {
        assert(t.drop_last() =~= s.drop_last());
        assert(t.last() == p);
    } else {
        assert(t.drop_last() =~= s.drop_last().update(i, p));
        assert(distinct_keys(s.drop_last()));
        assert(s.drop_last()[i] == s[i]);
        lemma_map_of_update(s.drop_last(), i, p);
        assert(t.last() == s.last());
        assert(s.last().0@ != p.0@);
    }
}

proof fn lemma_map_of_push(s: Seq<(String, Value)>, p: (String, Value))
    ensures
        map_of(s.push(p)) == map_of(s).insert(p.0@, p.1),
{
    assert(s.push(p).drop_last() =~= s);
    assert(s.push(p).last() == p);
}

/// An owning value store: a concrete map from owned keys to erased values,
/// with at most one entry per key and last-write-wins overwrite.
pub struct ValueMap {
    entries: Vec<(String, Value)>,
}

impl ValueMap {
    #[verifier::type_invariant]
    spec fn inv(self) -> bool {
        distinct_keys(self.entries@)
    }

    /// Creates an empty store.
    pub fn new() -> (r: ValueMap)
        ensures
            r.entries() == Map::<Seq<char>, Value>::empty(),
            r.writable(),
    {
        ValueMap { entries: Vec::new() }
    }
}

impl Values for ValueMap {
    closed spec fn entries(&self) -> Map<Seq<char>, Value> {
        map_of(self.entries@)
    }

    open spec fn writable(&self) -> bool {
        true
    }

    fn add_value<T: Stored>(&mut self, key: &str, value: T) {
        proof {
            use_type_invariant(&*self);
        }
        let pair = (key.to_owned(), value.erase());
        let mut v: Vec<(String, Value)> = Vec::new();
        core::mem::swap(&mut v, &mut self.entries);
        let mut i: usize = 0;
        let n = v.len();
        while i < n
            invariant
                n == v@.len(),
                0 <= i <= n,
                distinct_keys(v@),
                v@ == old(self).entries@,
                pair.0@ == key@,
                pair.1 == value.erased(),
                forall|j: int| 0 <= j < i ==> v@[j].0@ != key@,
            decreases n - i,
        {
            if str_eq(v[i].0.as_str(), key) {
                proof {
                    lemma_map_of_update(v@, i as int, pair);
                }
                let slot = &mut v[i];
                *slot = pair;
                proof {
                    assert(distinct_keys(v@));
                }
                core::mem::swap(&mut v, &mut self.entries);
                return ;
            }
            i += 1;
        }
        proof {
            lemma_map_of_push(v@, pair);
            assert(distinct_keys(v@.push(pair)));
        }
        v.push(pair);
        core::mem::swap(&mut v, &mut self.entries);
    }

    fn get_value<T: Stored>(&self, key: &str) -> (r: Result<&T, ValueError>) {
        proof {
            use_type_invariant(&*self);
        }
        let n = self.entries.len();
        let mut i: usize = 0;
        while i < n
            invariant
                n == self.entries@.len(),
                0 <= i <= n,
                distinct_keys(self.entries@),
                forall|j: int| 0 <= j < i ==> self.entries@[j].0@ != key@,
            decreases n - i,
        {
            if str_eq(self.entries[i].0.as_str(), key) {
                proof {
                    lemma_map_of_found(self.entries@, i as int);
                }
                return match T::from_erased(&self.entries[i].1) {
                    Some(x) => Ok(x),
                    None => Err(ValueError::WrongType),
                };
            }
            i += 1;
        }
        proof {
            lemma_map_of_absent(self.entries@, key@);
        }
        Err(ValueError::NotPresent)
    }
}

/// The entries described by a read-only sequence of key/value pairs where the
/// first pair with a key wins.
pub open spec fn slice_map_of(s: Seq<(&str, Value)>) -> Map<Seq<char>, Value>
    decreases s.len(),
{
    if s.len() == 0 {
        Map::empty()
    } else {
        slice_map_of(s.drop_first()).insert(s[0].0@, s[0].1)
    }
}

/// First-match law of the read-only store: the entry a lookup finds is the
/// first pair carrying its key, so among duplicate keys the earliest pair
/// wins.
pub proof fn lemma_slice_first_match(s: Seq<(&str, Value)>, i: int)
    requires
        0 <= i < s.len(),
        forall|j: int| 0 <= j < i ==> s[j].0@ != s[i].0@,
    ensures
        slice_map_of(s).contains_key(s[i].0@),
        slice_map_of(s)[s[i].0@] == s[i].1,
    decreases s.len(),
{
    if i > 0 {
        assert(s.drop_first()[i - 1] == s[i]);
        assert(forall|j: int|
            0 <= j < i - 1 ==> s.drop_first()[j] == s[j + 1] && s[j + 1].0@ != s[i].0@);
        lemma_slice_first_match(s.drop_first(), i - 1);
        assert(s[0].0@ != s[i].0@);
    }
}

proof fn lemma_slice_map_of_absent(s: Seq<(&str, Value)>, k: Seq<char>)
    requires
        forall|i: int| 0 <= i < s.len() ==> s[i].0@ != k,
    ensures
        !slice_map_of(s).contains_key(k),
    decreases s.len(),
{
    if s.len() > 0 {
        assert(forall|i: int| 0 <= i < s.drop_first().len() ==> s.drop_first()[i] == s[i + 1]);
        lemma_slice_map_of_absent(s.drop_first(), k);
    }
}

/// A read-only value store over a borrowed list of key/value pairs.  Lookup
/// is a linear scan returning the first matching key; additions are ignored.
pub struct ValueSlice<'a> {
    /// The borrowed pairs, earliest first.
    pub pairs: &'a [(&'a str, Value)],
}

impl<'a> ValueSlice<'a> {
    /// Wraps a borrowed list of pairs as a read-only store.
    pub fn new(pairs: &'a [(&'a str, Value)]) -> (r: ValueSlice<'a>)
        ensures
            r.entries() == slice_map_of(pairs@),
            !r.writable(),
    {
        ValueSlice { pairs }
    }
}

impl<'a> Values for ValueSlice<'a> {
    open spec fn entries(&self) -> Map<Seq<char>, Value> {
        slice_map_of(self.pairs@)
    }

    open spec fn writable(&self) -> bool {
        false
    }

    /// This method does nothing on this type.
    fn add_value<T: Stored>(&mut self, _key: &str, _value: T) {
    }

    fn get_value<T: Stored>(&self, key: &str) -> (r: Result<&T, ValueError>) {
        let n = self.pairs.len();
        let mut i: usize = 0;
        while i < n
            invariant
                n == self.pairs@.len(),
                0 <= i <= n,
                forall|j: int| 0 <= j < i ==> self.pairs@[j].0@ != key@,
            decreases n - i,
        {
            if str_eq(self.pairs[i].0, key) {
                proof {
                    lemma_slice_first_match(self.pairs@, i as int);
                }
                return match T::from_erased(&self.pairs[i].1) {
                    Some(x) => Ok(x),
                    None => Err(ValueError::WrongType),
                };
            }
            i += 1;
        }
        proof {
            lemma_slice_map_of_absent(self.pairs@, key@);
        }
        Err(ValueError::NotPresent)
    }
}

/// The always-empty store for callers without any allocation facility:
/// additions are ignored and every lookup fails with
/// [`ValueError::NotPresent`].
pub struct NoValues;

impl Values for NoValues {
    open spec fn entries(&self) -> Map<Seq<char>, Value> {
        Map::empty()
    }

    open spec fn writable(&self) -> bool {
        false
    }

    /// This method does nothing on this type.
    fn add_value<T: Stored>(&mut self, _key: &str, _value: T) {
    }

    fn get_value<T: Stored>(&self, _key: &str) -> (r: Result<&T, ValueError>) {
        Err(ValueError::NotPresent)
    }
}

/// Round-trip law of a writable store: after storing `x` under a key, a
/// lookup at that key expecting `x`'s own type cannot fail, and whatever
/// borrowed value it hands back is `x` itself.
pub proof fn lemma_add_then_get<T: Stored>(m: Map<Seq<char>, Value>, k: Seq<char>, x: T, y: T)
    requires
        y.erased() == m.insert(k, x.erased())[k],
    ensures
        m.insert(k, x.erased()).contains_key(k),
        tag_of(m.insert(k, x.erased())[k]) == T::tag(),
        y == x,
{
    x.lemma_erased_tag();
    x.lemma_erased_injective(y);
}

/// Wrong-type law: a key holding an erased value of one type answers a
/// lookup that expects a type with another tag with a tag mismatch, so by
/// the lookup contract the result is [`ValueError::WrongType`].
pub proof fn lemma_get_other_type<T: Stored, U: Stored>(m: Map<Seq<char>, Value>, k: Seq<char>, x: T)
    requires
        m.contains_key(k),
        m[k] == x.erased(),
        T::tag() != U::tag(),
    ensures
        tag_of(m[k]) != U::tag(),
{
    x.lemma_erased_tag();
}

/// Overwrite law of a writable store: storing twice under the same key
/// leaves the later value, never the earlier one.
pub proof fn lemma_overwrite(m: Map<Seq<char>, Value>, k: Seq<char>, v1: Value, v2: Value)
    ensures
        m.insert(k, v1).insert(k, v2)[k] == v2,
        m.insert(k, v1).insert(k, v2) =~= m.insert(k, v2),
{
}

} // verus!
