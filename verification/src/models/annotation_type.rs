//! Annotation types: the categories under which tasks are annotated.

use crate::time::Timestamp;
use vstd::prelude::*;

verus! {

/// A category of task annotations.
pub struct AnnotationType {
    pub annotation_type_id: i32,
    pub name: String,
    pub description: Option<String>,
    pub created_at: Timestamp,
    pub updated_at: Timestamp,
}

/// An annotation type to create.
pub struct NewAnnotationType {
    pub name: String,
    pub description: Option<String>,
}

/// An annotation type with the number of annotations that use it.
pub struct AnnotationTypeWithStats {
    pub annotation_type_id: i32,
    pub name: String,
    pub description: Option<String>,
    pub created_at: Timestamp,
    pub updated_at: Timestamp,
    pub annotation_count: Option<i64>,
}

/// `new` is `old` with the given text put in, where one is given.
pub open spec fn text_updated(new: Seq<char>, old: Seq<char>, given: Option<&str>) -> bool {
    match given {
        Some(t) => new == t@,
        None => new == old,
    }
}

/// `new` is `Some(text)` where a text is given, and `old` otherwise.
pub open spec fn optional_text_updated(new: Option<String>, old: Option<String>, given: Option<&str>) -> bool {
    match given {
        Some(t) => new is Some && new->0@ == t@,
        None => new == old,
    }
}

impl AnnotationType {
    /// Applies a partial update: each field that is given replaces the
    /// stored one, the rest stay.
    pub fn record_update(&mut self, name: Option<&str>, description: Option<&str>)
        ensures
            final(self).annotation_type_id == old(self).annotation_type_id,
            text_updated(final(self).name@, old(self).name@, name),
            optional_text_updated(final(self).description, old(self).description, description),
            final(self).created_at == old(self).created_at,
            final(self).updated_at == old(self).updated_at,
    {
        if let Some(n) = name {
            self.name = String::from_str(n);
        }
        if let Some(d) = description {
            self.description = Some(String::from_str(d));
        }
    }
}

} // verus!
