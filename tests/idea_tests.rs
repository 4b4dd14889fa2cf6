use idea_board::{Idea, IdeaRecord, RecordId};

#[test]
fn test_idea_creation() {
    let idea = Idea {
        id: None,
        title: "Test Idea".to_string(),
        description: "A test description".to_string(),
        tags: vec!["test".to_string(), "rust".to_string()],
        what_must_be_true: vec![],
        development_notes: String::new(),
    };

    assert_eq!(idea.title, "Test Idea");
    assert_eq!(idea.tags.len(), 2);
    assert!(idea.id.is_none());
}

#[test]
fn test_idea_with_development_fields() {
    let idea = Idea {
        id: Some("ideas:test123".to_string()),
        title: "Developed Idea".to_string(),
        description: "Has development fields".to_string(),
        tags: vec![],
        what_must_be_true: vec![
            "Must be tested".to_string(),
            "Must be documented".to_string(),
        ],
        development_notes: "These are my notes".to_string(),
    };

    assert_eq!(idea.what_must_be_true.len(), 2);
    assert_eq!(idea.development_notes, "These are my notes");
    assert!(idea.id.is_some());
}

#[test]
fn test_idea_equality() {
    let idea1 = Idea {
        id: Some("ideas:1".to_string()),
        title: "Same".to_string(),
        description: "Same".to_string(),
        tags: vec![],
        what_must_be_true: vec![],
        development_notes: String::new(),
    };

    let idea2 = Idea {
        id: Some("ideas:1".to_string()),
        title: "Same".to_string(),
        description: "Same".to_string(),
        tags: vec![],
        what_must_be_true: vec![],
        development_notes: String::new(),
    };

    assert_eq!(idea1, idea2);
}

#[test]
fn ideas_differing_in_one_field_are_not_equal() {
    let base = Idea {
        id: Some("ideas:1".to_string()),
        title: "Same".to_string(),
        description: "Same".to_string(),
        tags: vec!["a".to_string()],
        what_must_be_true: vec!["x".to_string()],
        development_notes: "n".to_string(),
    };
    let mut other = base.clone();
    other.id = None;
    assert_ne!(base, other);
    let mut other = base.clone();
    other.tags = vec!["b".to_string()];
    assert_ne!(base, other);
    let mut other = base.clone();
    other.what_must_be_true = vec!["x".to_string(), "y".to_string()];
    assert_ne!(base, other);
    let mut other = base.clone();
    other.development_notes = String::new();
    assert_ne!(base, other);
    assert_eq!(base, base.clone());
}

#[test]
fn test_idea_record_creation() {
    let record = IdeaRecord {
        id: None,
        title: "Test Record".to_string(),
        description: "Server-side record".to_string(),
        tags: vec!["server".to_string()],
        what_must_be_true: vec!["Must work on server".to_string()],
        development_notes: "Server notes".to_string(),
    };

    assert_eq!(record.title, "Test Record");
    assert!(record.id.is_none());
}

#[test]
fn test_idea_from_record_conversion() {
    let record = IdeaRecord {
        id: Some(RecordId::new("ideas", "test123")),
        title: "Convert Me".to_string(),
        description: "Test conversion".to_string(),
        tags: vec!["convert".to_string()],
        what_must_be_true: vec!["Must convert".to_string()],
        development_notes: "Conversion notes".to_string(),
    };

    let idea: Idea = record.into();
    assert_eq!(idea.title, "Convert Me");
    assert!(idea.id.is_some());
    assert!(idea.id.unwrap().contains("ideas:test123"));
    assert_eq!(idea.what_must_be_true[0], "Must convert");
}

#[test]
fn record_without_id_converts_to_idea_without_id() {
    let record = IdeaRecord::unidentified(
        "T".to_string(),
        "D".to_string(),
        vec!["t".to_string()],
        vec![],
        String::new(),
    );
    let idea = Idea::from_record(record);
    assert_eq!(idea.id, None);
    assert_eq!(idea.tags, vec!["t".to_string()]);
}

#[test]
fn record_id_renders_with_one_colon() {
    assert_eq!(RecordId::new("ideas", "abc").render(), "ideas:abc");
}

#[test]
fn records_with_different_ids_convert_to_different_ideas() {
    let make = |table: &str, key: &str| IdeaRecord {
        id: Some(RecordId::new(table, key)),
        title: "T".to_string(),
        description: "D".to_string(),
        tags: vec![],
        what_must_be_true: vec![],
        development_notes: String::new(),
    };
    let a = Idea::from_record(make("ab", "c"));
    let b = Idea::from_record(make("a", "bc"));
    assert_ne!(a, b);
    assert_eq!(a.id.as_deref(), Some("ab:c"));
    assert!(RecordId::new("t", "k").same_as(&RecordId::new("t", "k")));
    assert!(!RecordId::new("t", "k").same_as(&RecordId::new("t", "j")));
}
