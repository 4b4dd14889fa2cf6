use idea_board::development::{DevelopmentPhase, IdeaDevelopment};
use idea_board::error::IdeaError;
use idea_board::home::Home;
use idea_board::form::{keep_nonempty, parse_tags, split_commas, IdeaForm};
use idea_board::list_view::{IdeaList, ListPhase};
use idea_board::Idea;

fn strings(v: &[&str]) -> Vec<String> {
    v.iter().map(|s| s.to_string()).collect()
}

fn sample_idea() -> Idea {
    Idea {
        id: Some("ideas:7".to_string()),
        title: "T".to_string(),
        description: "D".to_string(),
        tags: strings(&["a"]),
        what_must_be_true: strings(&["first"]),
        development_notes: "notes".to_string(),
    }
}

#[test]
fn split_commas_keeps_empty_pieces() {
    assert_eq!(split_commas(""), strings(&[""]));
    assert_eq!(split_commas("a,b"), strings(&["a", "b"]));
    assert_eq!(split_commas("a,,b,"), strings(&["a", "", "b", ""]));
    assert_eq!(split_commas(" x , y"), strings(&[" x ", " y"]));
}

#[test]
fn keep_nonempty_drops_empty_strings() {
    assert_eq!(keep_nonempty(strings(&["", "a", "", "b", ""])), strings(&["a", "b"]));
    assert!(keep_nonempty(strings(&["", ""])).is_empty());
}

#[test]
fn parse_tags_trims_and_drops_empty_tags() {
    assert_eq!(parse_tags(" rust , web,, ideas ,"), strings(&["rust", "web", "ideas"]));
    assert_eq!(parse_tags("  one\t"), strings(&["one"]));
    assert!(parse_tags("").is_empty());
    assert!(parse_tags(" , ,").is_empty());
    assert_eq!(parse_tags("a b,c"), strings(&["a b", "c"]));
}

#[test]
fn form_submission_success_clears_inputs() {
    let mut form = IdeaForm::new();
    form.title = "Title".to_string();
    form.description = "Desc".to_string();
    form.tags_input = "x, y".to_string();
    let req = form.begin_submit();
    assert!(form.is_submitting);
    assert_eq!(req.title, "Title");
    assert_eq!(req.description, "Desc");
    assert_eq!(req.tags, strings(&["x", "y"]));
    let refresh = form.finish_submit(Ok(sample_idea()));
    assert!(refresh);
    assert!(!form.is_submitting);
    assert_eq!(form.title, "");
    assert_eq!(form.description, "");
    assert_eq!(form.tags_input, "");
    assert_eq!(form.message, "idea submitted successfully");
}

#[test]
fn form_submission_failure_keeps_inputs() {
    let mut form = IdeaForm::new();
    form.title = "Title".to_string();
    let _ = form.begin_submit();
    let refresh = form.finish_submit(Err(IdeaError::Storage { message: "down".to_string() }));
    assert!(!refresh);
    assert!(!form.is_submitting);
    assert_eq!(form.title, "Title");
    assert_eq!(form.message, "error: down");
}

#[test]
fn list_loads_ideas_or_shows_failure() {
    let mut list = IdeaList::new();
    assert!(matches!(list.phase, ListPhase::Loading));
    list.loaded(Ok(vec![sample_idea()]));
    match &list.phase {
        ListPhase::Ready(v) => assert_eq!(v, &vec![sample_idea()]),
        _ => panic!("expected ready"),
    }
    list.refresh();
    assert!(matches!(list.phase, ListPhase::Loading));
    list.loaded(Err(IdeaError::Storage { message: "gone".to_string() }));
    match &list.phase {
        ListPhase::Failed(m) => assert_eq!(m, "Failed to load ideas: gone"),
        _ => panic!("expected failure"),
    }
}

#[test]
fn delete_needs_an_id_and_a_confirmation() {
    let mut list = IdeaList::new();
    let mut unsaved = sample_idea();
    unsaved.id = None;
    assert!(!list.request_delete(&unsaved));
    assert_eq!(list.confirm_delete(true), None);

    assert!(list.request_delete(&sample_idea()));
    assert_eq!(list.confirm_delete(false), None);
    assert_eq!(list.pending_delete, None);

    assert!(list.request_delete(&sample_idea()));
    assert_eq!(list.confirm_delete(true), Some("ideas:7".to_string()));
    assert!(list.delete_finished(Ok(())));
    assert!(matches!(list.phase, ListPhase::Loading));
    assert!(!list.delete_finished(Err(IdeaError::NotFound { id: "ideas:7".to_string() })));
}

#[test]
fn development_view_seeds_buffers_and_saves_every_edit() {
    let mut view = IdeaDevelopment::new();
    assert!(view.add_statement().is_none());
    view.loaded(Ok(sample_idea()));
    assert!(matches!(view.phase, DevelopmentPhase::Ready));
    assert_eq!(view.what_must_be_true, strings(&["first"]));
    assert_eq!(view.development_notes, "notes");

    assert!(view.add_statement().is_none());
    view.new_statement = "second".to_string();
    let req = view.add_statement().unwrap();
    assert!(view.is_saving);
    assert_eq!(view.new_statement, "");
    assert_eq!(req.id, "ideas:7");
    assert_eq!(req.title, "T");
    assert_eq!(req.description, "D");
    assert_eq!(req.tags, strings(&["a"]));
    assert_eq!(req.what_must_be_true, strings(&["first", "second"]));
    assert_eq!(req.development_notes, "notes");
    view.save_finished();
    assert!(!view.is_saving);

    let req = view.edit_statement(0, "changed".to_string()).unwrap();
    assert_eq!(req.what_must_be_true, strings(&["changed", "second"]));
    let req = view.remove_statement(1).unwrap();
    assert_eq!(req.what_must_be_true, strings(&["changed"]));
    let req = view.edit_notes("more".to_string()).unwrap();
    assert_eq!(req.development_notes, "more");
    assert_eq!(req.what_must_be_true, strings(&["changed"]));
}

#[test]
fn development_view_shows_load_failure() {
    let mut view = IdeaDevelopment::new();
    view.loaded(Err(IdeaError::InvalidId { id: "bad".to_string() }));
    match &view.phase {
        DevelopmentPhase::Failed(m) => assert_eq!(m, "Failed to load idea: Invalid ID format: bad"),
        _ => panic!("expected failure"),
    }
    assert!(view.idea.is_none());
    assert!(view.edit_notes("x".to_string()).is_none());
    assert!(!view.is_saving);
}

#[test]
fn home_toggles_form_and_bumps_refresh_counter() {
    let mut home = Home::new();
    assert_eq!(home.refresh_trigger, 0);
    assert!(!home.show_form);
    home.open_form();
    assert!(home.show_form);
    home.cancel_form();
    assert!(!home.show_form);
    home.open_form();
    home.submit_succeeded();
    assert!(!home.show_form);
    assert_eq!(home.refresh_trigger, 1);
    home.delete_succeeded();
    assert_eq!(home.refresh_trigger, 2);
    home.refresh_trigger = u32::MAX;
    home.delete_succeeded();
    assert_eq!(home.refresh_trigger, 0);
}

#[test]
fn parse_tags_trims_unicode_whitespace() {
    assert_eq!(parse_tags("\u{3000}x\u{a0}, \u{2003}y\n"), strings(&["x", "y"]));
    assert_eq!(parse_tags("\u{200b}z"), strings(&["\u{200b}z"]));
}

#[test]
fn form_request_tags_are_trimmed_and_nonempty() {
    let mut form = IdeaForm::new();
    form.tags_input = " a, b,,c ,".to_string();
    let req = form.begin_submit();
    assert_eq!(req.tags, strings(&["a", "b", "c"]));
}
