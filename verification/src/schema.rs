use crate::error::SchemaError;
use crate::json::JsonValue;
use std::collections::HashMap;
use vstd::prelude::*;
use vstd::std_specs::hash::*;

verus! {

broadcast use vstd::std_specs::hash::group_hash_axioms;

/// Payload schemas by the identity of the type they describe. An entry, once
/// stored, is never changed or removed.
#[derive(Debug)]
pub struct SchemaCache {
    entries: HashMap<u64, JsonValue>,
}

impl View for SchemaCache {
    type V = Map<u64, JsonValue>;

    closed spec fn view(&self) -> Map<u64, JsonValue> {
        self.entries@
    }
}

/// The cache after a request for `type_id`, where the generator would give
/// `generated`: a hit changes nothing, a miss stores a schema that was
/// generated, and a failure stores nothing.
pub open spec fn after_request(
    cache: Map<u64, JsonValue>,
    type_id: u64,
    generated: Result<JsonValue, SchemaError>,
) -> Map<u64, JsonValue> {
    if cache.contains_key(type_id) {
        cache
    } else {
        match generated {
            Ok(schema) => cache.insert(type_id, schema),
            Err(_) => cache,
        }
    }
}

/// The answer to a request for `type_id`, where the generator would give
/// `generated`: the stored schema on a hit, else what was generated.
pub open spec fn answer(
    cache: Map<u64, JsonValue>,
    type_id: u64,
    generated: Result<JsonValue, SchemaError>,
) -> Result<JsonValue, SchemaError> {
    if cache.contains_key(type_id) {
        Ok(cache[type_id])
    } else {
        generated
    }
}

/// What a borrowed answer says.
pub open spec fn owned(result: Result<&JsonValue, SchemaError>) -> Result<JsonValue, SchemaError> {
    match result {
        Ok(schema) => Ok(*schema),
        Err(e) => Err(e),
    }
}

impl SchemaCache {
    /// An empty cache.
    pub fn new() -> (cache: Self)
        ensures
            cache@ == Map::<u64, JsonValue>::empty(),
    {
        SchemaCache { entries: HashMap::new() }
    }

    /// The number of schemas stored.
    pub fn len(&self) -> (n: usize)
        ensures
            n == self@.len(),
    {
        self.entries.len()
    }

    /// Whether a schema is stored for `type_id`.
    pub fn contains(&self, type_id: u64) -> (hit: bool)
        ensures
            hit == self@.contains_key(type_id),
    {
        self.entries.contains_key(&type_id)
    }

    /// The schema stored for `type_id`, if any.
    pub fn get(&self, type_id: u64) -> (schema: Option<&JsonValue>)
        ensures
            schema is Some <==> self@.contains_key(type_id),
            schema is Some ==> *schema->Some_0 == self@[type_id],
    {
        self.entries.get(&type_id)
    }

    /// Settles a miss for `type_id` with what the generator gave: a schema is
    /// stored and returned, a failure is returned and nothing is stored.
    pub fn settle(&mut self, type_id: u64, generated: Result<JsonValue, SchemaError>) -> (result:
        Result<&JsonValue, SchemaError>)
        requires
            !old(self)@.contains_key(type_id),
        ensures
            final(self)@ == after_request(old(self)@, type_id, generated),
            owned(result) == answer(old(self)@, type_id, generated),
    {
        match generated {
            Ok(schema) => {
                self.entries.insert(type_id, schema);
                match self.entries.get(&type_id) {
                    Some(stored) => Ok(stored),
                    // The entry was stored a line above.
                    None => Err(SchemaError::Serialization(String::new())),
                }
            },
            Err(e) => Err(e),
        }
    }

    /// The schema for `type_id`: the stored one where there is one, without
    /// calling `generator`; else the one that `generator` gives, which is
    /// stored before it is returned. Where `generator` fails, its error is
    /// returned and nothing is stored, so that a later request tries again.
    pub fn get_or_generate<F: FnOnce() -> Result<JsonValue, SchemaError>>(
        &mut self,
        type_id: u64,
        generator: F,
    ) -> (result: Result<&JsonValue, SchemaError>)
        requires
            !old(self)@.contains_key(type_id) ==> generator.requires(()),
        ensures
            old(self)@.contains_key(type_id) ==> final(self)@ == old(self)@ && owned(result)
                == Ok::<JsonValue, SchemaError>(old(self)@[type_id]),
            !old(self)@.contains_key(type_id) ==> exists|generated: Result<JsonValue, SchemaError>|
                generator.ensures((), generated) && final(self)@ == #[trigger] after_request(
                    old(self)@,
                    type_id,
                    generated,
                ) && owned(result) == answer(old(self)@, type_id, generated),
    {
        if self.entries.contains_key(&type_id) {
            match self.entries.get(&type_id) {
                Some(stored) => Ok(stored),
                // The key was found a line above.
                None => Err(SchemaError::Serialization(String::new())),
            }
        } else {
            let generated = generator();
            self.settle(type_id, generated)
        }
    }

    /// A request that succeeded is answered the same way ever after, whatever
    /// the generator would give then, and leaves the cache as it is; a
    /// request that failed leaves the cache as it was.
    pub proof fn lemma_idempotent(
        cache: Map<u64, JsonValue>,
        type_id: u64,
        first: Result<JsonValue, SchemaError>,
        second: Result<JsonValue, SchemaError>,
    )
        ensures
            answer(cache, type_id, first) is Ok ==> answer(
                after_request(cache, type_id, first),
                type_id,
                second,
            ) == answer(cache, type_id, first) && after_request(
                after_request(cache, type_id, first),
                type_id,
                second,
            ) == after_request(cache, type_id, first),
            answer(cache, type_id, first) is Err ==> after_request(cache, type_id, first) == cache,
    {
    }
}

} // verus!
