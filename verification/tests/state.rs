use dir_browser::path_data::PathData;
use dir_browser::state::AppData;
use dir_browser::state::ListError;
use dir_browser::state::SelectionState;
use dir_browser::state::UiAction;
use dir_browser::state::UiEvent;

fn paths(texts: &[&str]) -> Vec<PathData> {
    texts.iter().map(|t| PathData::new(String::from(*t))).collect()
}

fn texts(items: &[PathData]) -> Vec<String> {
    items.iter().map(|p| String::from(p.as_text())).collect()
}

fn initial() -> AppData {
    AppData::new(
        PathData::new(String::from("/home/user/.password-store")),
        paths(&["/home/user/.password-store/mail", "/home/user/.password-store/web"]),
    )
}

#[test]
fn new_state_is_idle_with_empty_filter() {
    let data = initial();
    assert_eq!(data.input, "");
    assert_eq!(data.git_path.as_text(), "/home/user/.password-store");
    assert_eq!(data.selection, SelectionState::Idle);
    assert_eq!(data.last_error, None);
    assert_eq!(data.items.len(), 2);
}

#[test]
fn browse_awaits_dialog_and_changes_nothing_else() {
    let mut data = initial();
    let before = texts(&data.items);
    let action = data.handle_event(UiEvent::BrowseRequested);
    assert!(matches!(action, UiAction::ShowDirectoryPicker));
    assert_eq!(data.selection, SelectionState::AwaitingDialogResult);
    assert_eq!(texts(&data.items), before);
    assert_eq!(data.git_path.as_text(), "/home/user/.password-store");
}

#[test]
fn dialog_cancel_returns_to_idle_without_changes() {
    let mut data = initial();
    data.handle_event(UiEvent::BrowseRequested);
    let action = data.handle_event(UiEvent::DialogCancelled);
    assert!(matches!(action, UiAction::NoAction));
    assert_eq!(data.selection, SelectionState::Idle);
    assert_eq!(data.git_path.as_text(), "/home/user/.password-store");
}

#[test]
fn selected_root_leaves_snapshot_stale_until_reload() {
    let mut data = initial();
    let before = texts(&data.items);

    data.handle_event(UiEvent::BrowseRequested);
    let action = data.handle_event(UiEvent::DirectorySelected(PathData::new(String::from(
        "/tmp/newroot",
    ))));
    assert!(matches!(action, UiAction::NoAction));

    // Before any reload the materialized snapshot still reflects the
    // previous root's listing.
    assert_eq!(data.git_path.as_text(), "/tmp/newroot");
    assert_eq!(texts(&data.items), before);

    // A reload asks for the new root's entries...
    let action = data.handle_event(UiEvent::ReloadRequested);
    match action {
        UiAction::ReadDirectory(root) => assert_eq!(root.as_text(), "/tmp/newroot"),
        _ => panic!("reload must ask for a directory read"),
    }

    // ...and their delivery materializes the snapshot, filtered by the
    // current filter text.
    data.handle_event(UiEvent::FilterChanged(String::from("a")));
    let entries = paths(&["/tmp/newroot/a.txt", "/tmp/newroot/b.bin"]);
    let action = data.handle_event(UiEvent::DirectoryRead(Ok(entries)));
    assert!(matches!(action, UiAction::NoAction));
    assert_eq!(texts(&data.items), vec!["/tmp/newroot/a.txt".to_string()]);
}

#[test]
fn filter_edit_does_not_touch_snapshot() {
    let mut data = initial();
    let before = texts(&data.items);
    let action = data.handle_event(UiEvent::FilterChanged(String::from("mail")));
    assert!(matches!(action, UiAction::NoAction));
    assert_eq!(data.input, "mail");
    assert_eq!(texts(&data.items), before);
}

#[test]
fn reload_materializes_snapshot_with_current_filter() {
    let mut data = initial();
    data.handle_event(UiEvent::FilterChanged(String::from("web")));
    let action = data.handle_event(UiEvent::ReloadRequested);
    match action {
        UiAction::ReadDirectory(root) => {
            assert_eq!(root.as_text(), "/home/user/.password-store")
        },
        _ => panic!("reload must ask for a directory read"),
    }
    let entries = paths(&[
        "/home/user/.password-store/mail",
        "/home/user/.password-store/web",
        "/home/user/.password-store/webmail",
    ]);
    data.handle_event(UiEvent::DirectoryRead(Ok(entries)));
    assert_eq!(
        texts(&data.items),
        vec![
            "/home/user/.password-store/web".to_string(),
            "/home/user/.password-store/webmail".to_string()
        ]
    );
}

#[test]
fn missing_root_signals_not_found_and_keeps_state() {
    let mut data = initial();
    let before = texts(&data.items);
    data.handle_event(UiEvent::ReloadRequested);
    let action = data.handle_event(UiEvent::DirectoryRead(Err(ListError::NotFound)));
    assert!(matches!(action, UiAction::NoAction));
    assert_eq!(data.last_error, Some(ListError::NotFound));
    assert_eq!(texts(&data.items), before);
    assert_eq!(data.git_path.as_text(), "/home/user/.password-store");
}

#[test]
fn other_listing_failures_are_recorded_too() {
    let mut data = initial();
    data.handle_event(UiEvent::DirectoryRead(Err(ListError::NotADirectory)));
    assert_eq!(data.last_error, Some(ListError::NotADirectory));
    data.handle_event(UiEvent::DirectoryRead(Err(ListError::PermissionDenied)));
    assert_eq!(data.last_error, Some(ListError::PermissionDenied));
    data.handle_event(UiEvent::DirectoryRead(Err(ListError::Other)));
    assert_eq!(data.last_error, Some(ListError::Other));
}

#[test]
fn successful_reload_clears_the_recorded_error() {
    let mut data = initial();
    data.handle_event(UiEvent::DirectoryRead(Err(ListError::NotFound)));
    assert_eq!(data.last_error, Some(ListError::NotFound));
    data.handle_event(UiEvent::DirectoryRead(Ok(paths(&["/x"]))));
    assert_eq!(data.last_error, None);
    assert_eq!(texts(&data.items), vec!["/x".to_string()]);
}
