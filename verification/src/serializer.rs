//! The key-value serializer: it flattens typed attributes into one JSON map.

use vstd::prelude::*;
use crate::attribute::{Attribute, AttributeValue};
use crate::json::{
    json_entries, json_from_bool, json_from_i64, json_from_str, json_from_u64, json_from_unit,
    json_map_insert, json_map_new, json_model, json_null, Entries, JsonMap, JsonModel,
};

verus! {

/// Whether some attribute of `attributes` is named `key`.
pub open spec fn names(attributes: Seq<Attribute>, key: Seq<char>) -> bool {
    exists|index: int| 0 <= index < attributes.len() && attributes[index].key@ == key
}

/// Whether `attributes[index]` is named `key` and no attribute after it is.
pub open spec fn is_last_named(attributes: Seq<Attribute>, index: int, key: Seq<char>) -> bool {
    &&& 0 <= index < attributes.len()
    &&& attributes[index].key@ == key
    &&& forall|later: int| index < later < attributes.len() ==> attributes[later].key@ != key
}

/// The index of the last attribute of `attributes` that is named `key`,
/// where there is one.
pub open spec fn last_named(attributes: Seq<Attribute>, key: Seq<char>) -> int {
    choose|index: int| is_last_named(attributes, index, key)
}

/// The entries of a map that held `base` and into which `attributes` were
/// emitted, first to last. A name that some attribute bears maps to the
/// value of the last attribute that bears it: later wins. Every other name
/// is as it was in `base`.
pub open spec fn emitted(base: Entries, attributes: Seq<Attribute>) -> Entries {
    Map::new(
        |key: Seq<char>| base.contains_key(key) || names(attributes, key),
        |key: Seq<char>|
            if names(attributes, key) {
                attributes[last_named(attributes, key)].value.model()
            } else {
                base[key]
            },
    )
}

/// The entries of a message whose event carries `event` and whose logging
/// scopes contribute `context`: the context is laid down first and the event
/// on top of it, so that what the event says of a name decides over what it
/// inherits. Within each layer, later wins.
pub open spec fn merged(event: Seq<Attribute>, context: Seq<Attribute>) -> Entries {
    emitted(emitted(Entries::empty(), context), event)
}

/// The entries that stand in for attributes that could not be collected: a
/// single entry `err` with the description of what failed.
pub open spec fn failure(description: Seq<char>) -> Entries {
    Entries::empty().insert("err"@, JsonModel::Text(description))
}

/// The entries of a message, given what came of collecting each layer of
/// attributes. A layer that failed replaces everything by `failure`; where
/// both failed, the event's failure is the one reported.
pub open spec fn serialized(
    event: Result<Vec<Attribute>, String>,
    context: Result<Vec<Attribute>, String>,
) -> Entries {
    match (event, context) {
        (Err(description), _) => failure(description@),
        (Ok(_), Err(description)) => failure(description@),
        (Ok(event), Ok(context)) => merged(event@, context@),
    }
}

/// Among the attributes that bear a name, one is the last, and
/// `last_named` is its index.
pub proof fn lemma_last_named(attributes: Seq<Attribute>, key: Seq<char>)
    requires
        names(attributes, key),
    ensures
        is_last_named(attributes, last_named(attributes, key), key),
    decreases attributes.len(),
{
    let last = attributes.len() - 1;
    if attributes[last].key@ == key {
        assert(is_last_named(attributes, last, key));
    } else {
        let front = attributes.drop_last();
        let some = choose|index: int| 0 <= index < attributes.len() && attributes[index].key@ == key;
        assert(front[some].key@ == key);
        lemma_last_named(front, key);
        let found = last_named(front, key);
        assert forall|later: int| found < later < attributes.len() implies attributes[later].key@
            != key by {
            if later < last {
                assert(front[later].key@ != key);
            }
        }
        assert(is_last_named(attributes, found, key));
    }
}

/// No two attributes are both the last to bear a name.
pub proof fn lemma_last_named_is_unique(
    attributes: Seq<Attribute>,
    index: int,
    other: int,
    key: Seq<char>,
)
    requires
        is_last_named(attributes, index, key),
        is_last_named(attributes, other, key),
    ensures
        index == other,
{
}

/// Later wins: after emitting `attributes`, a name maps to the value of the
/// last attribute that bears it, whatever the map held before.
pub proof fn lemma_emitted_last_wins(base: Entries, attributes: Seq<Attribute>, index: int)
    requires
        is_last_named(attributes, index, attributes[index].key@),
    ensures
        emitted(base, attributes).contains_key(attributes[index].key@),
        emitted(base, attributes)[attributes[index].key@] == attributes[index].value.model(),
{
    let key = attributes[index].key@;
    lemma_last_named(attributes, key);
    lemma_last_named_is_unique(attributes, index, last_named(attributes, key), key);
}

/// Emitting one attribute more is an insertion: the attribute's value takes
/// the place of whatever its name mapped to, and nothing else changes.
pub proof fn lemma_emitted_one_more(base: Entries, attributes: Seq<Attribute>, next: Attribute)
    ensures
        emitted(base, attributes.push(next)) == emitted(base, attributes).insert(
            next.key@,
            next.value.model(),
        ),
{
    let longer = attributes.push(next);
    let before = emitted(base, attributes);
    let after = emitted(base, longer);
    let stepped = before.insert(next.key@, next.value.model());
    assert(is_last_named(longer, attributes.len() as int, next.key@));
    assert forall|key: Seq<char>| names(longer, key) == (names(attributes, key) || key
        == next.key@) by {
        if names(attributes, key) {
            let index = choose|index: int|
                0 <= index < attributes.len() && attributes[index].key@ == key;
            assert(longer[index].key@ == key);
        }
        if names(longer, key) && key != next.key@ {
            let index = choose|index: int| 0 <= index < longer.len() && longer[index].key@ == key;
            assert(attributes[index].key@ == key);
        }
    }
    assert forall|key: Seq<char>| after.contains_key(key) implies after[key] == stepped[key] by {
        if key == next.key@ {
            lemma_emitted_last_wins(base, longer, attributes.len() as int);
        } else if names(attributes, key) {
            lemma_last_named(attributes, key);
            lemma_last_named(longer, key);
            let index = last_named(attributes, key);
            assert(is_last_named(longer, index, key));
            lemma_last_named_is_unique(longer, index, last_named(longer, key), key);
        }
    }
    assert(after =~= stepped);
}

/// The override law: where an attribute of the event and an attribute of the
/// context share a name, the message holds the value of the event's
/// attribute. Should the event bear the name more than once, this holds of
/// the last such attribute.
pub proof fn lemma_event_overrides_context(
    event: Seq<Attribute>,
    context: Seq<Attribute>,
    event_index: int,
    context_index: int,
)
    requires
        0 <= context_index < context.len(),
        is_last_named(event, event_index, context[context_index].key@),
    ensures
        merged(event, context).contains_key(event[event_index].key@),
        merged(event, context)[event[event_index].key@] == event[event_index].value.model(),
{
    lemma_emitted_last_wins(emitted(Entries::empty(), context), event, event_index);
}

/// What the context contributes: a name that the event does not bear maps to
/// the value of the last attribute of the context that bears it.
pub proof fn lemma_context_shows_through(
    event: Seq<Attribute>,
    context: Seq<Attribute>,
    context_index: int,
)
    requires
        is_last_named(context, context_index, context[context_index].key@),
        !names(event, context[context_index].key@),
    ensures
        merged(event, context).contains_key(context[context_index].key@),
        merged(event, context)[context[context_index].key@]
            == context[context_index].value.model(),
{
    lemma_emitted_last_wins(Entries::empty(), context, context_index);
}

/// A message holds the names of its event and of its context, and no others.
pub proof fn lemma_merged_names(event: Seq<Attribute>, context: Seq<Attribute>, key: Seq<char>)
    ensures
        merged(event, context).contains_key(key) == (names(event, key) || names(context, key)),
{
}

/// Accumulates attributes into a JSON map.
#[derive(Debug)]
pub struct Serializer {
    pub map: JsonMap,
}

impl View for Serializer {
    type V = Entries;

    open spec fn view(&self) -> Entries {
        json_entries(self.map)
    }
}

impl Clone for Serializer {
    fn clone(&self) -> (copy: Serializer)
        ensures
            copy@ == self@,
    {
        Serializer { map: self.map.clone() }
    }
}

impl Default for Serializer {
    /// A serializer that holds no entries yet.
    fn default() -> (serializer: Serializer)
        ensures
            serializer@ == Entries::empty(),
    {
        Serializer::new()
    }
}

impl Serializer {
    /// A serializer that holds no entries yet.
    pub fn new() -> (serializer: Serializer)
        ensures
            serializer@ == Entries::empty(),
    {
        Serializer { map: json_map_new() }
    }

    /// Stores `value` under `key`, in place of any value stored there before.
    pub fn emit(&mut self, key: &str, value: serde_json::Value)
        ensures
            final(self)@ == old(self)@.insert(key@, json_model(value)),
    {
        let _ = json_map_insert(&mut self.map, key.to_owned(), value);
    }

    /// Stores text that the caller has rendered as a plain string.
    pub fn emit_arguments(&mut self, key: &str, rendered: &str)
        ensures
            final(self)@ == old(self)@.insert(key@, JsonModel::Text(rendered@)),
    {
        self.emit(key, json_from_str(rendered));
    }

    /// Stores a `u8` as the JSON number of the same sign and magnitude.
    pub fn emit_u8(&mut self, key: &str, value: u8)
        ensures
            final(self)@ == old(self)@.insert(key@, JsonModel::Integer(value as int)),
    {
        self.emit(key, json_from_u64(value as u64));
    }

    /// Stores a `u16` as the JSON number of the same sign and magnitude.
    pub fn emit_u16(&mut self, key: &str, value: u16)
        ensures
            final(self)@ == old(self)@.insert(key@, JsonModel::Integer(value as int)),
    {
        self.emit(key, json_from_u64(value as u64));
    }

    /// Stores a `u32` as the JSON number of the same sign and magnitude.
    pub fn emit_u32(&mut self, key: &str, value: u32)
        ensures
            final(self)@ == old(self)@.insert(key@, JsonModel::Integer(value as int)),
    {
        self.emit(key, json_from_u64(value as u64));
    }

    /// Stores a `u64` as the JSON number of the same sign and magnitude.
    pub fn emit_u64(&mut self, key: &str, value: u64)
        ensures
            final(self)@ == old(self)@.insert(key@, JsonModel::Integer(value as int)),
    {
        self.emit(key, json_from_u64(value));
    }

    /// Stores an `i8` as the JSON number of the same sign and magnitude.
    pub fn emit_i8(&mut self, key: &str, value: i8)
        ensures
            final(self)@ == old(self)@.insert(key@, JsonModel::Integer(value as int)),
    {
        self.emit(key, json_from_i64(value as i64));
    }

    /// Stores an `i16` as the JSON number of the same sign and magnitude.
    pub fn emit_i16(&mut self, key: &str, value: i16)
        ensures
            final(self)@ == old(self)@.insert(key@, JsonModel::Integer(value as int)),
    {
        self.emit(key, json_from_i64(value as i64));
    }

    /// Stores an `i32` as the JSON number of the same sign and magnitude.
    pub fn emit_i32(&mut self, key: &str, value: i32)
        ensures
            final(self)@ == old(self)@.insert(key@, JsonModel::Integer(value as int)),
    {
        self.emit(key, json_from_i64(value as i64));
    }

    /// Stores an `i64` as the JSON number of the same sign and magnitude.
    pub fn emit_i64(&mut self, key: &str, value: i64)
        ensures
            final(self)@ == old(self)@.insert(key@, JsonModel::Integer(value as int)),
    {
        self.emit(key, json_from_i64(value));
    }

    /// Stores an `isize` as the JSON number of the same sign and magnitude.
    pub fn emit_isize(&mut self, key: &str, value: isize)
        ensures
            final(self)@ == old(self)@.insert(key@, JsonModel::Integer(value as int)),
    {
        self.emit(key, json_from_i64(value as i64));
    }

    /// Stores a `usize` as the JSON number of the same sign and magnitude.
    pub fn emit_usize(&mut self, key: &str, value: usize)
        ensures
            final(self)@ == old(self)@.insert(key@, JsonModel::Integer(value as int)),
    {
        self.emit(key, json_from_u64(value as u64));
    }

    /// Stores a boolean.
    pub fn emit_bool(&mut self, key: &str, value: bool)
        ensures
            final(self)@ == old(self)@.insert(key@, JsonModel::Bool(value)),
    {
        self.emit(key, json_from_bool(value));
    }

    /// Stores a string.
    pub fn emit_str(&mut self, key: &str, value: &str)
        ensures
            final(self)@ == old(self)@.insert(key@, JsonModel::Text(value@)),
    {
        self.emit(key, json_from_str(value));
    }

    /// Stores the unit value, which JSON renders as `null`.
    pub fn emit_unit(&mut self, key: &str)
        ensures
            final(self)@ == old(self)@.insert(key@, JsonModel::Null),
    {
        self.emit(key, json_from_unit());
    }

    /// Stores the absence of a value, which JSON renders as `null`.
    pub fn emit_none(&mut self, key: &str)
        ensures
            final(self)@ == old(self)@.insert(key@, JsonModel::Null),
    {
        let _ = json_map_insert(&mut self.map, key.to_owned(), json_null());
    }

    /// Stores one attribute, by the form of its value.
    pub fn emit_attribute(&mut self, attribute: &Attribute)
        ensures
            final(self)@ == old(self)@.insert(attribute.key@, attribute.value.model()),
    {
        let key = attribute.key.as_str();
        match &attribute.value {
            AttributeValue::I8(n) => self.emit_i8(key, *n),
            AttributeValue::I16(n) => self.emit_i16(key, *n),
            AttributeValue::I32(n) => self.emit_i32(key, *n),
            AttributeValue::I64(n) => self.emit_i64(key, *n),
            AttributeValue::Isize(n) => self.emit_isize(key, *n),
            AttributeValue::U8(n) => self.emit_u8(key, *n),
            AttributeValue::U16(n) => self.emit_u16(key, *n),
            AttributeValue::U32(n) => self.emit_u32(key, *n),
            AttributeValue::U64(n) => self.emit_u64(key, *n),
            AttributeValue::Usize(n) => self.emit_usize(key, *n),
            AttributeValue::Bool(b) => self.emit_bool(key, *b),
            AttributeValue::Str(s) => self.emit_str(key, s.as_str()),
            AttributeValue::Arguments(s) => self.emit_arguments(key, s.as_str()),
            AttributeValue::Unit => self.emit_unit(key),
            AttributeValue::Absent => self.emit_none(key),
            AttributeValue::Json(value) => self.emit(key, value.clone()),
        }
    }

    /// Stores each of `attributes`, first to last.
    pub fn emit_all(&mut self, attributes: &Vec<Attribute>)
        ensures
            final(self)@ == emitted(old(self)@, attributes@),
    {
        let mut i: usize = 0;
        while i < attributes.len()
            invariant
                i <= attributes.len(),
                self@ == emitted(old(self)@, attributes@.take(i as int)),
            decreases attributes.len() - i,
        {
            self.emit_attribute(&attributes[i]);
            proof {
                lemma_emitted_one_more(old(self)@, attributes@.take(i as int), attributes[i as int]);
                assert(attributes@.take(i as int).push(attributes[i as int]) == attributes@.take(
                    i + 1,
                ));
            }
            i += 1;
        }
        proof {
            assert(attributes@.take(i as int) == attributes@);
        }
    }

    /// The map with everything stored so far.
    pub fn into_map(self) -> (map: JsonMap)
        ensures
            json_entries(map) == self@,
    {
        self.map
    }
}

/// The map that stands in for attributes that could not be collected.
pub fn error_map(description: &str) -> (map: JsonMap)
    ensures
        json_entries(map) == failure(description@),
{
    let mut serializer = Serializer::new();
    serializer.emit_str("err", description);
    serializer.into_map()
}

/// Flattens the attributes of an event and of its context into one map.
///
/// Each layer is either the attributes that were collected from it, in the
/// order in which they were emitted, or a description of why collecting them
/// failed. A failure does not lose the event: the map then holds the
/// description in place of the attributes.
pub fn serialize(
    event: &Result<Vec<Attribute>, String>,
    context: &Result<Vec<Attribute>, String>,
) -> (map: JsonMap)
    ensures
        json_entries(map) == serialized(*event, *context),
{
    match event {
        Err(description) => error_map(description.as_str()),
        Ok(event) => match context {
            Err(description) => error_map(description.as_str()),
            Ok(context) => {
                let mut serializer = Serializer::new();
                serializer.emit_all(context);
                serializer.emit_all(event);
                serializer.into_map()
            },
        },
    }
}

} // verus!
