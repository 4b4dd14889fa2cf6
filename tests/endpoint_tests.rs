use idea_board::{IdeaRecord, RecordId};
use idea_board::endpoints::idea_from_lookup;
use idea_board::endpoints::{
    delete_idea_server, get_all_ideas_server, get_idea_by_id_server, submit_idea_server,
    update_idea_server,
};
use idea_board::error::{ErrorKind, IdeaError};
use idea_board::ident::parse_id;
use idea_board::store::IdeaStore;

fn strings(v: &[&str]) -> Vec<String> {
    v.iter().map(|s| s.to_string()).collect()
}

fn kind_of<T>(r: Result<T, IdeaError>) -> ErrorKind {
    match r {
        Ok(_) => panic!("expected an error"),
        Err(e) => e.kind(),
    }
}

#[test]
fn end_to_end_submit_list_update_delete() {
    let mut store = IdeaStore::new();
    let idea = submit_idea_server(&mut store, "Test Idea".to_string(), "d".to_string(), strings(&["a", "b"]))
        .unwrap();
    let id = idea.id.clone().unwrap();
    assert!(!id.is_empty());
    assert_eq!(idea.tags, strings(&["a", "b"]));

    let all = get_all_ideas_server(&store).unwrap();
    assert!(all.contains(&idea));

    update_idea_server(
        &mut store,
        id.clone(),
        "Test Idea".to_string(),
        "d".to_string(),
        strings(&["a", "b"]),
        strings(&["x", "y"]),
        "n".to_string(),
    )
    .unwrap();
    let fetched = get_idea_by_id_server(&store, id.clone()).unwrap();
    assert_eq!(fetched.what_must_be_true.len(), 2);
    assert_eq!(fetched.development_notes, "n");

    delete_idea_server(&mut store, id.clone()).unwrap();
    assert_eq!(kind_of(get_idea_by_id_server(&store, id)), ErrorKind::NotFound);
}

#[test]
fn submit_then_get_gives_the_idea_with_empty_development_fields() {
    let mut store = IdeaStore::new();
    let idea = submit_idea_server(&mut store, "T".to_string(), "D".to_string(), strings(&["x"])).unwrap();
    let fetched = get_idea_by_id_server(&store, idea.id.clone().unwrap()).unwrap();
    assert_eq!(fetched, idea);
    assert_eq!(fetched.title, "T");
    assert_eq!(fetched.description, "D");
    assert_eq!(fetched.tags, strings(&["x"]));
    assert!(fetched.what_must_be_true.is_empty());
    assert_eq!(fetched.development_notes, "");
    assert!(fetched.id.unwrap().starts_with("ideas:"));
}

#[test]
fn list_of_empty_store_is_empty() {
    let store = IdeaStore::new();
    assert_eq!(get_all_ideas_server(&store).unwrap(), vec![]);
}

#[test]
fn list_gives_every_submitted_idea_in_order() {
    let mut store = IdeaStore::new();
    let a = submit_idea_server(&mut store, "A".to_string(), String::new(), vec![]).unwrap();
    let b = submit_idea_server(&mut store, "B".to_string(), String::new(), vec![]).unwrap();
    assert_eq!(get_all_ideas_server(&store).unwrap(), vec![a, b]);
}

#[test]
fn malformed_ids_are_refused_by_get_update_and_delete() {
    let mut store = IdeaStore::new();
    submit_idea_server(&mut store, "kept".to_string(), String::new(), vec![]).unwrap();
    for bad in ["", "ideas", "ideas:", ":abc", "a:b:c", "::", "ideas:0:"] {
        assert_eq!(kind_of(get_idea_by_id_server(&store, bad.to_string())), ErrorKind::InvalidId);
        assert_eq!(
            kind_of(update_idea_server(
                &mut store,
                bad.to_string(),
                String::new(),
                String::new(),
                vec![],
                vec![],
                String::new()
            )),
            ErrorKind::InvalidId
        );
        assert_eq!(kind_of(delete_idea_server(&mut store, bad.to_string())), ErrorKind::InvalidId);
    }
    assert_eq!(get_all_ideas_server(&store).unwrap().len(), 1);
}

#[test]
fn malformed_id_error_message_names_the_id() {
    let store = IdeaStore::new();
    let e = get_idea_by_id_server(&store, "a:b:c".to_string()).unwrap_err();
    assert_eq!(e.message(), "Invalid ID format: a:b:c");
}

#[test]
fn get_of_unknown_id_is_not_found() {
    let store = IdeaStore::new();
    let e = get_idea_by_id_server(&store, "ideas:missing".to_string()).unwrap_err();
    assert_eq!(e.kind(), ErrorKind::NotFound);
    assert_eq!(e.message(), "Idea not found: ideas:missing");
}

#[test]
fn update_of_unknown_id_is_not_found() {
    let mut store = IdeaStore::new();
    let r = update_idea_server(
        &mut store,
        "ideas:missing".to_string(),
        "t".to_string(),
        String::new(),
        vec![],
        vec![],
        String::new(),
    );
    assert_eq!(kind_of(r), ErrorKind::NotFound);
    assert!(get_all_ideas_server(&store).unwrap().is_empty());
}

#[test]
fn update_to_empty_checklist_and_notes_is_reflected() {
    let mut store = IdeaStore::new();
    let idea = submit_idea_server(&mut store, "T".to_string(), "D".to_string(), vec![]).unwrap();
    let id = idea.id.unwrap();
    update_idea_server(
        &mut store,
        id.clone(),
        "T".to_string(),
        "D".to_string(),
        vec![],
        strings(&["one"]),
        "notes".to_string(),
    )
    .unwrap();
    let answer = update_idea_server(
        &mut store,
        id.clone(),
        "T2".to_string(),
        "D2".to_string(),
        strings(&["t"]),
        vec![],
        String::new(),
    )
    .unwrap();
    let fetched = get_idea_by_id_server(&store, id.clone()).unwrap();
    assert_eq!(fetched, answer);
    assert_eq!(fetched.id, Some(id));
    assert_eq!(fetched.title, "T2");
    assert_eq!(fetched.description, "D2");
    assert_eq!(fetched.tags, strings(&["t"]));
    assert!(fetched.what_must_be_true.is_empty());
    assert_eq!(fetched.development_notes, "");
}

#[test]
fn delete_of_unknown_id_succeeds_and_changes_nothing() {
    let mut store = IdeaStore::new();
    let idea = submit_idea_server(&mut store, "kept".to_string(), String::new(), vec![]).unwrap();
    assert!(delete_idea_server(&mut store, "ideas:missing".to_string()).is_ok());
    assert_eq!(get_all_ideas_server(&store).unwrap(), vec![idea]);
}

#[test]
fn delete_then_get_is_not_found_and_others_stay() {
    let mut store = IdeaStore::new();
    let a = submit_idea_server(&mut store, "A".to_string(), String::new(), vec![]).unwrap();
    let b = submit_idea_server(&mut store, "B".to_string(), String::new(), vec![]).unwrap();
    delete_idea_server(&mut store, a.id.clone().unwrap()).unwrap();
    assert_eq!(kind_of(get_idea_by_id_server(&store, a.id.unwrap())), ErrorKind::NotFound);
    assert_eq!(get_idea_by_id_server(&store, b.id.clone().unwrap()).unwrap(), b);
}

#[test]
fn id_of_another_table_names_nothing_here() {
    let mut store = IdeaStore::new();
    submit_idea_server(&mut store, "A".to_string(), String::new(), vec![]).unwrap();
    assert_eq!(kind_of(get_idea_by_id_server(&store, "other:0".to_string())), ErrorKind::NotFound);
}

#[test]
fn parse_id_splits_at_the_colon() {
    let rid = parse_id("ideas:xyz").unwrap();
    assert_eq!(rid.table().as_str(), "ideas");
    assert_eq!(rid.key().as_str(), "xyz");
    let rid = parse_id("t:k").unwrap();
    assert_eq!(rid.render(), "t:k");
    assert_eq!(kind_of(parse_id("ideasxyz")), ErrorKind::InvalidId);
    assert_eq!(kind_of(parse_id("ideas:x:y")), ErrorKind::InvalidId);
}

#[test]
fn lookup_answer_converts_found_record_or_reports_not_found() {
    let record = IdeaRecord {
        id: Some(RecordId::new("ideas", "test")),
        title: "Old Idea".to_string(),
        description: "From before development fields existed".to_string(),
        tags: strings(&["old"]),
        what_must_be_true: vec![],
        development_notes: String::new(),
    };
    let idea = idea_from_lookup("ideas:test".to_string(), Some(record)).unwrap();
    assert_eq!(idea.id.as_deref(), Some("ideas:test"));
    assert_eq!(idea.title, "Old Idea");
    assert_eq!(idea.tags, strings(&["old"]));
    let e = idea_from_lookup("ideas:none".to_string(), None).unwrap_err();
    assert_eq!(e.kind(), ErrorKind::NotFound);
    assert_eq!(e.message(), "Idea not found: ideas:none");
}
