//! Mappings between objects of two dependent systems.

use crate::json::{JsonValue, JsonView};
use crate::models::annotation_type::text_updated;
use crate::time::Timestamp;
use vstd::prelude::*;

verus! {

/// A mapping between an object of one dependent system and an object of another.
pub struct DependentSystemObjectMap {
    pub dependent_system_object_map_id: i64,
    pub dependent_system_one_id: i32,
    pub dependent_system_two_id: i32,
    pub object_one_id: i64,
    pub object_two_id: i64,
    pub mapping_type: String,
    pub metadata: JsonValue,
    pub created_at: Timestamp,
    pub updated_at: Timestamp,
}

/// A mapping to create; the type defaults to "bidirectional" and the
/// metadata to an empty object.
pub struct NewDependentSystemObjectMap {
    pub dependent_system_one_id: i32,
    pub dependent_system_two_id: i32,
    pub object_one_id: i64,
    pub object_two_id: i64,
    pub mapping_type: Option<String>,
    pub metadata: Option<JsonValue>,
}

/// A mapping with the names of both systems.
pub struct DependentSystemObjectMapWithSystems {
    pub dependent_system_object_map_id: i64,
    pub dependent_system_one_id: i32,
    pub dependent_system_two_id: i32,
    pub object_one_id: i64,
    pub object_two_id: i64,
    pub mapping_type: String,
    pub metadata: JsonValue,
    pub created_at: Timestamp,
    pub updated_at: Timestamp,
    pub system_one_name: String,
    pub system_two_name: String,
}

/// How many mappings join two systems, and of how many types.
pub struct MappingStats {
    pub system_one_name: String,
    pub system_two_name: String,
    pub mapping_count: Option<i64>,
    pub unique_types: Option<i64>,
}

impl NewDependentSystemObjectMap {
    /// A bidirectional mapping with no metadata, as created when a lookup
    /// finds none in either direction.
    pub fn bidirectional(
        dependent_system_one_id: i32,
        dependent_system_two_id: i32,
        object_one_id: i64,
        object_two_id: i64,
    ) -> (r: NewDependentSystemObjectMap)
        ensures
            r.dependent_system_one_id == dependent_system_one_id,
            r.dependent_system_two_id == dependent_system_two_id,
            r.object_one_id == object_one_id,
            r.object_two_id == object_two_id,
            r.mapping_type is Some,
            r.mapping_type->0@ == "bidirectional"@,
            r.metadata is None,
    {
        NewDependentSystemObjectMap {
            dependent_system_one_id,
            dependent_system_two_id,
            object_one_id,
            object_two_id,
            mapping_type: Some(String::from_str("bidirectional")),
            metadata: None,
        }
    }

    /// The mapping type to store: the given one, or "bidirectional".
    pub fn effective_mapping_type(&self) -> (r: String)
        ensures
            r@ == match self.mapping_type { Some(t) => t@, None => "bidirectional"@ },
    {
        match &self.mapping_type {
            Some(t) => t.clone(),
            None => String::from_str("bidirectional"),
        }
    }

    /// The metadata to store: the given value, or an empty object.
    pub fn effective_metadata(&self) -> (r: JsonValue)
        ensures
            r@ == match self.metadata { Some(m) => m@, None => JsonView::Object(Seq::empty()) },
    {
        match &self.metadata {
            Some(m) => m.copy(),
            None => JsonValue::empty_object(),
        }
    }
}

impl DependentSystemObjectMap {
    /// Applies a partial update: a given type or metadata replaces the stored one.
    pub fn record_update(&mut self, mapping_type: Option<&str>, metadata: Option<JsonValue>)
        ensures
            final(self).dependent_system_object_map_id == old(self).dependent_system_object_map_id,
            final(self).dependent_system_one_id == old(self).dependent_system_one_id,
            final(self).dependent_system_two_id == old(self).dependent_system_two_id,
            final(self).object_one_id == old(self).object_one_id,
            final(self).object_two_id == old(self).object_two_id,
            text_updated(final(self).mapping_type@, old(self).mapping_type@, mapping_type),
            final(self).metadata == match metadata { Some(m) => m, None => old(self).metadata },
            final(self).created_at == old(self).created_at,
            final(self).updated_at == old(self).updated_at,
    {
        if let Some(t) = mapping_type {
            self.mapping_type = String::from_str(t);
        }
        if let Some(m) = metadata {
            self.metadata = m;
        }
    }

    /// The other side of the mapping: the second system and its object.
    pub fn find_reverse_mapping(&self) -> (r: Option<(i32, i64)>)
        ensures
            r == Some((self.dependent_system_two_id, self.object_two_id)),
    {
        Some((self.dependent_system_two_id, self.object_two_id))
    }
}

} // verus!
