use chopsticks::{App, Mode, Snippet};

fn snip(priority: i64, cmd: &str, description: &str) -> Snippet {
    Snippet::new(priority, cmd.to_string(), description.to_string())
}

fn three() -> Vec<Snippet> {
    vec![snip(1, "ls -la", "list all"), snip(2, "git status", "repo state"), snip(3, "cargo test", "run tests")]
}

fn started(list: Vec<Snippet>) -> App {
    let mut app = App::new();
    app.init(list);
    app
}

#[test]
fn new_app_is_browsing_and_empty() {
    let app = App::new();
    assert!(!app.quit);
    assert!(!app.terminal_restored);
    assert!(!app.is_editing());
    assert!(app.editor().is_none());
    assert!(app.error_msg.is_none());
    assert!(app.snippets.is_empty());
    assert_eq!(app.state, None);
    let d = App::default();
    assert!(!d.is_editing());
    assert_eq!(d.state, None);
}

#[test]
fn init_selects_first_entry() {
    let app = started(three());
    assert_eq!(app.state, Some(0));
    assert_eq!(app.snippets.len(), 3);
}

#[test]
fn init_with_empty_list_selects_nothing() {
    let app = started(Vec::new());
    assert_eq!(app.state, None);
}

#[test]
fn navigation_stays_in_bounds() {
    let mut app = started(three());
    app.select_previous();
    assert_eq!(app.state, Some(0));
    app.select_next();
    app.select_next();
    assert_eq!(app.state, Some(2));
    app.select_next();
    assert_eq!(app.state, Some(2));
    app.select_previous();
    assert_eq!(app.state, Some(1));
    assert_eq!(app.selected_index(), Some(1));
}

#[test]
fn search_filters_by_cmd_or_description() {
    let mut app = started(three());
    app.set_search("git".to_string());
    assert_eq!(app.visible(), vec![1]);
    assert_eq!(app.state, Some(0));
    assert_eq!(app.selected_index(), Some(1));
    app.set_search("all".to_string());
    assert_eq!(app.visible(), vec![0]);
    app.set_search("t".to_string());
    assert_eq!(app.visible(), vec![0, 1, 2]);
    app.set_search("GIT".to_string());
    assert!(app.visible().is_empty());
    assert_eq!(app.state, None);
    app.select_next();
    assert_eq!(app.state, None);
    app.set_search(String::new());
    assert_eq!(app.visible(), vec![0, 1, 2]);
    assert_eq!(app.state, Some(0));
}

#[test]
fn editor_present_exactly_while_editing() {
    let mut app = started(three());
    assert!(app.editor().is_none());
    app.begin_add();
    assert!(app.is_editing());
    assert_eq!(app.editor().map(|s| s.as_str()), Some(""));
    app.set_editor_text("draft".to_string());
    assert_eq!(app.editor().map(|s| s.as_str()), Some("draft"));
    app.cancel_edit();
    assert!(!app.is_editing());
    assert!(app.editor().is_none());
    assert_eq!(app.snippets.len(), 3);
    app.begin_edit();
    assert!(app.is_editing());
    assert!(app.editor().is_some());
    app.commit_edit(Some(snip(9, "ls", "short")));
    assert!(!app.is_editing());
    assert!(app.editor().is_none());
}

#[test]
fn begin_edit_seeds_editor_with_rendered_snippet() {
    let mut app = started(three());
    app.select_next();
    app.begin_edit();
    let expected = "priority = 2\ncmd = '''git status'''\ndescription = '''repo state'''";
    assert_eq!(app.editor().map(|s| s.as_str()), Some(expected));
    match &app.mode {
        Mode::Editing { target, .. } => assert_eq!(*target, Some(1)),
        Mode::Browsing => panic!("not editing"),
    }
}

#[test]
fn begin_edit_without_selection_does_nothing() {
    let mut app = started(Vec::new());
    app.begin_edit();
    assert!(!app.is_editing());
}

#[test]
fn commit_replaces_edited_snippet() {
    let mut app = started(three());
    app.select_next();
    app.begin_edit();
    app.commit_edit(Some(snip(7, "git log", "history")));
    assert!(app.snippets[1] == snip(7, "git log", "history"));
    assert_eq!(app.snippets.len(), 3);
    assert_eq!(app.state, Some(1));
}

#[test]
fn commit_adds_new_snippet_at_end() {
    let mut app = started(three());
    app.begin_add();
    app.commit_edit(Some(snip(4, "make", "build")));
    assert_eq!(app.snippets.len(), 4);
    assert!(app.snippets[3] == snip(4, "make", "build"));
    assert!(app.error_msg.is_none());
}

#[test]
fn commit_of_bad_text_keeps_editing_with_message() {
    let mut app = started(three());
    app.begin_add();
    app.set_editor_text("not a snippet".to_string());
    app.commit_edit(None);
    assert!(app.is_editing());
    assert_eq!(app.editor().map(|s| s.as_str()), Some("not a snippet"));
    assert_eq!(
        app.error_msg.as_deref(),
        Some("the text is not a snippet: it needs priority, cmd and description")
    );
    assert_eq!(app.snippets.len(), 3);
    app.commit_edit(Some(snip(4, "make", "build")));
    assert!(app.error_msg.is_none());
    assert!(!app.is_editing());
}

#[test]
fn commit_that_filters_out_selection_clamps_it() {
    let mut app = started(three());
    app.set_search("git".to_string());
    assert_eq!(app.state, Some(0));
    app.begin_edit();
    app.commit_edit(Some(snip(2, "hg status", "repo state")));
    assert!(app.visible().is_empty());
    assert_eq!(app.state, None);
}

#[test]
fn commit_while_browsing_does_nothing() {
    let mut app = started(three());
    app.commit_edit(Some(snip(4, "make", "build")));
    assert_eq!(app.snippets.len(), 3);
    assert!(!app.is_editing());
}

#[test]
fn removing_keeps_selection_valid() {
    let mut app = started(three());
    app.select_next();
    app.select_next();
    app.remove_selected();
    assert_eq!(app.snippets.len(), 2);
    assert_eq!(app.state, Some(1));
    assert!(app.snippets[1] == snip(2, "git status", "repo state"));
    app.remove_selected();
    assert_eq!(app.state, Some(0));
    app.remove_selected();
    assert!(app.snippets.is_empty());
    assert_eq!(app.state, None);
    app.remove_selected();
    assert_eq!(app.state, None);
}

#[test]
fn removing_while_editing_does_nothing() {
    let mut app = started(three());
    app.begin_add();
    app.remove_selected();
    assert_eq!(app.snippets.len(), 3);
}

#[test]
fn dismiss_clears_message() {
    let mut app = started(three());
    app.begin_add();
    app.commit_edit(None);
    assert!(app.error_msg.is_some());
    app.dismiss_error();
    assert!(app.error_msg.is_none());
}

#[test]
fn quit_gives_current_list_until_written() {
    let mut app = started(three());
    app.begin_add();
    app.commit_edit(Some(snip(4, "make", "build")));
    app.set_search("git".to_string());
    let file = app.quit().expect("quitting gives the content");
    assert!(!app.quit);
    assert!(file.to_snippets() == app.snippets);
    assert_eq!(file.to_snippets().len(), 4);
    app.finish_quit(false);
    assert!(!app.quit);
    let again = app.quit().expect("a failed write leaves the content to write");
    assert!(again.to_snippets() == app.snippets);
    app.finish_quit(true);
    assert!(app.quit);
    assert!(app.quit().is_none());
    app.finish_quit(false);
    assert!(app.quit);
}

#[test]
fn init_keeps_an_edit_under_way() {
    let mut app = started(three());
    app.select_next();
    app.begin_edit();
    app.set_editor_text("draft".to_string());
    app.init(three());
    assert!(app.is_editing());
    assert_eq!(app.editor().map(|s| s.as_str()), Some("draft"));
    match &app.mode {
        Mode::Editing { target, .. } => assert_eq!(*target, Some(1)),
        Mode::Browsing => panic!("not editing"),
    }
    app.init(vec![snip(1, "a", "b")]);
    assert_eq!(app.editor().map(|s| s.as_str()), Some("draft"));
    match &app.mode {
        Mode::Editing { target, .. } => assert_eq!(*target, None),
        Mode::Browsing => panic!("not editing"),
    }
    assert_eq!(app.state, Some(0));
}

#[test]
fn well_formed_check() {
    let mut app = started(three());
    assert!(app.is_well_formed());
    app.state = Some(3);
    assert!(!app.is_well_formed());
}

#[test]
fn navigation_keeps_message() {
    let mut app = started(three());
    app.error_msg = Some("note".to_string());
    app.select_next();
    app.select_previous();
    app.remove_selected();
    assert_eq!(app.error_msg.as_deref(), Some("note"));
}

#[test]
fn add_then_quit_then_restart() {
    let mut app = started(chopsticks::SnippetFile::new().to_snippets());
    assert_eq!(app.state, None);
    app.begin_add();
    app.commit_edit(Some(snip(5, "ls -la", "list all")));
    let file = app.quit().expect("first quit saves");
    app.finish_quit(true);
    assert!(app.quit);
    let reloaded = file.to_snippets();
    assert!(reloaded == vec![snip(5, "ls -la", "list all")]);
    let next = started(reloaded);
    assert_eq!(next.state, Some(0));
}
