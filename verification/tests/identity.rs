use tasker_core::models::entities::step_execution_batch::StepExecutionBatch;
use tasker_core::models::task::Task;
use uuid::Uuid;

#[test]
fn test_batch_uuid_generation() {
    let uuid1 = StepExecutionBatch::generate_batch_uuid();
    let uuid2 = StepExecutionBatch::generate_batch_uuid();

    // Should generate unique UUIDs
    assert_ne!(uuid1, uuid2);

    // Should be valid UUID format
    assert!(Uuid::parse_str(&uuid1).is_ok());
    assert!(Uuid::parse_str(&uuid2).is_ok());
}

#[test]
fn batch_uuid_is_lowercase_hyphenated_version_4() {
    let id = StepExecutionBatch::generate_batch_uuid();
    assert_eq!(id.len(), 36);
    for (i, c) in id.chars().enumerate() {
        if i == 8 || i == 13 || i == 18 || i == 23 {
            assert_eq!(c, '-');
        } else {
            assert!(c.is_ascii_digit() || ('a'..='f').contains(&c));
        }
    }
    assert_eq!(&id[14..15], "4");
    assert!(matches!(&id[19..20], "8" | "9" | "a" | "b"));
    assert_eq!(Uuid::parse_str(&id).unwrap().get_version_num(), 4);
}

#[test]
fn test_identity_hash_generation() {
    let context: Option<serde_json::Value> = Some(serde_json::from_str(r#"{"key": "value"}"#).unwrap());
    let hash1 = Task::generate_identity_hash(1, &context);
    let hash2 = Task::generate_identity_hash(1, &context);
    let hash3 = Task::generate_identity_hash(2, &context);

    // Same inputs should produce same hash
    assert_eq!(hash1, hash2);

    // Different inputs should produce different hash
    assert_ne!(hash1, hash3);
}

#[test]
fn identity_hash_is_sixteen_hex_digits() {
    let with_context: Option<serde_json::Value> = Some(serde_json::from_str(r#"{"a": [1, 2]}"#).unwrap());
    for hash in [
        Task::generate_identity_hash(7, &None),
        Task::generate_identity_hash(7, &with_context),
        Task::generate_identity_hash(-1, &None),
    ] {
        assert_eq!(hash.len(), 16);
        assert!(hash.chars().all(|c| c.is_ascii_digit() || ('a'..='f').contains(&c)));
    }
    assert_ne!(Task::generate_identity_hash(7, &None), Task::generate_identity_hash(7, &with_context));
}
