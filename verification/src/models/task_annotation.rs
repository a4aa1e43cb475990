//! Annotations: JSON documents attached to tasks under an annotation type.

use crate::json::JsonValue;
use crate::time::Timestamp;
use vstd::prelude::*;

verus! {

/// A JSON annotation of a task.
pub struct TaskAnnotation {
    pub task_annotation_id: i64,
    pub task_id: i64,
    pub annotation_type_id: i32,
    pub annotation: JsonValue,
    pub created_at: Timestamp,
    pub updated_at: Timestamp,
}

/// An annotation to create.
pub struct NewTaskAnnotation {
    pub task_id: i64,
    pub annotation_type_id: i32,
    pub annotation: JsonValue,
}

/// An annotation with its type's name and description.
pub struct TaskAnnotationWithType {
    pub task_annotation_id: i64,
    pub task_id: i64,
    pub annotation_type_id: i32,
    pub annotation: JsonValue,
    pub annotation_type_name: String,
    pub annotation_type_description: Option<String>,
    pub created_at: Timestamp,
    pub updated_at: Timestamp,
}

/// How many annotations use an annotation type.
pub struct AnnotationTypeCount {
    pub annotation_type_id: i32,
    pub annotation_type_name: String,
    pub usage_count: i64,
}

} // verus!
