//! Tests of the widget states: input converters, text field and text
//! input wrappers, the row view, and the file-explorer state machine.

use remy_widgets::{
    DefaultFileExplorerInputConverter, DefaultTextFieldInputConverter,
    DefaultTextInputInputConverter, DefaultTypingBehaviour, Event, FileDialogType,
    FileExplorerCommand, FileExplorerEvent, FileExplorerState, FileInformation, FileType,
    GenericKeyEventKind, Key, MemoryClipboard, RemyWidgetCommandConverter, RemyWidgetState,
    RowViewState, SimpleCursorToCharIndexMapper, TextFieldState, TextInputAction, TextInputEvent,
    TextInputState, TypingBehaviour, UserAction,
};

type Behaviour = DefaultTypingBehaviour<SimpleCursorToCharIndexMapper, MemoryClipboard>;

fn press(key: Key) -> Event {
    Event::KeyPress { ctrl: false, shift: false, alt: false, key, kind: GenericKeyEventKind::Press }
}

fn press_ctrl(key: Key) -> Event {
    Event::KeyPress { ctrl: true, shift: false, alt: false, key, kind: GenericKeyEventKind::Press }
}

fn press_shift(key: Key) -> Event {
    Event::KeyPress { ctrl: false, shift: true, alt: false, key, kind: GenericKeyEventKind::Press }
}

fn field_convert(event: Event) -> Option<UserAction> {
    let state = TextFieldState::new(Behaviour::empty());
    <DefaultTextFieldInputConverter as RemyWidgetCommandConverter<TextFieldState<Behaviour>>>::convert(
        event, &state,
    )
}

fn input_convert(event: Event) -> Option<TextInputAction> {
    let state = TextInputState::new(Behaviour::empty());
    <DefaultTextInputInputConverter as RemyWidgetCommandConverter<TextInputState<Behaviour>>>::convert(
        event, &state,
    )
}

fn entry(file_type: FileType, name: &str) -> FileInformation {
    FileInformation { file_type, name: name.to_string() }
}

#[test]
fn text_field_converter_maps_keys() {
    assert_eq!(field_convert(press(Key::Backspace)), Some(UserAction::Remove));
    assert_eq!(field_convert(press(Key::Delete)), Some(UserAction::Delete));
    assert_eq!(field_convert(press(Key::Insert)), Some(UserAction::ToggleInsert));
    assert_eq!(field_convert(press(Key::ArrowLeft)), Some(UserAction::CursorLeft));
    assert_eq!(field_convert(press_shift(Key::ArrowLeft)), Some(UserAction::CursorLeftSelect));
    assert_eq!(field_convert(press(Key::ArrowRight)), Some(UserAction::CursorRight));
    assert_eq!(field_convert(press_shift(Key::ArrowRight)), Some(UserAction::CursorRightSelect));
    assert_eq!(field_convert(press(Key::Home)), Some(UserAction::ToStart));
    assert_eq!(field_convert(press_shift(Key::Home)), Some(UserAction::ToStartSelect));
    assert_eq!(field_convert(press(Key::End)), Some(UserAction::ToEnd));
    assert_eq!(field_convert(press_shift(Key::End)), Some(UserAction::ToEndSelect));
    assert_eq!(field_convert(press(Key::Character('q'))), Some(UserAction::Typing('q')));
    assert_eq!(field_convert(press_ctrl(Key::Character('c'))), Some(UserAction::Copy));
    assert_eq!(field_convert(press_ctrl(Key::Character('v'))), Some(UserAction::Paste));
    assert_eq!(field_convert(press_ctrl(Key::Character('x'))), Some(UserAction::Cut));
    assert_eq!(field_convert(press_ctrl(Key::Character('a'))), Some(UserAction::SelectAll));
    assert_eq!(field_convert(press(Key::PageUp)), None);
    assert_eq!(field_convert(Event::Null), None);
}

#[test]
fn text_input_converter_adds_submit_and_cancel() {
    assert_eq!(input_convert(press(Key::Esc)), Some(TextInputAction::Esc));
    assert_eq!(input_convert(press(Key::Enter)), Some(TextInputAction::Enter));
    assert_eq!(
        input_convert(press(Key::Character('h'))),
        Some(TextInputAction::Other(UserAction::Typing('h')))
    );
    assert_eq!(input_convert(press(Key::Menu)), None);
}

#[test]
fn text_input_action_into_user_action() {
    assert_eq!(UserAction::from(TextInputAction::Esc), UserAction::Null);
    assert_eq!(UserAction::from(TextInputAction::Enter), UserAction::Null);
    assert_eq!(
        UserAction::from(TextInputAction::Other(UserAction::Remove)),
        UserAction::Remove
    );
    assert_eq!(UserAction::from(TextInputAction::Null), UserAction::Null);
}

#[test]
fn text_field_state_types_and_reads_back() {
    let mut state = TextFieldState::new(Behaviour::empty());
    state.handle_native_event(Some(UserAction::Typing('h'))).unwrap();
    state.handle_native_event(Some(UserAction::Typing('i'))).unwrap();
    assert_eq!(state.text(), "hi");
    assert_eq!(state.get_cursor_location(10), 2);
    let (text, selection) = state.get_visible_text(10);
    assert_eq!(text, "hi");
    assert_eq!(selection, None);
    state.handle_native_event(None).unwrap();
    assert_eq!(state.text(), "hi");
}

#[test]
fn text_input_state_submits_its_buffer() {
    let mut state = TextInputState::new(Behaviour::empty());
    match state.handle_native_event(Some(TextInputAction::Other(UserAction::Typing('a')))) {
        TextInputEvent::Typing => {}
        _ => panic!("typing must report Typing"),
    }
    match state.handle_native_event(Some(TextInputAction::Enter)) {
        TextInputEvent::Submitted(text) => assert_eq!(text, "a"),
        _ => panic!("Enter must submit"),
    }
    match state.handle_native_event(Some(TextInputAction::Esc)) {
        TextInputEvent::Cancelled => {}
        _ => panic!("Esc must cancel"),
    }
    assert_eq!(state.text(), "a");
}

#[test]
fn row_view_state_selection() {
    let mut state = RowViewState::default();
    assert_eq!(state.selected(), None);
    assert!(!state.is_selected(0));
    state.select(Some(2));
    assert_eq!(state.selected(), Some(2));
    assert!(state.is_selected(2));
    assert!(!state.is_selected(1));
    state.select(None);
    assert_eq!(state.selected(), None);
}

#[test]
fn file_type_predicates() {
    assert!(FileType::File.is_file());
    assert!(!FileType::File.is_dir());
    assert!(!FileType::File.is_symlink());
    assert!(FileType::FileSymlink.is_file());
    assert!(FileType::FileSymlink.is_symlink());
    assert!(FileType::Directory.is_dir());
    assert!(!FileType::Directory.is_symlink());
    assert!(FileType::DirectorySymlink.is_dir());
    assert!(FileType::DirectorySymlink.is_symlink());
}

#[test]
fn file_dialog_type_rules() {
    assert!(FileDialogType::AskFilename.show_filenames());
    assert!(!FileDialogType::AskFilename.allow_selecting_directory());
    assert!(FileDialogType::AskFilename.allow_selecting_files());
    assert!(!FileDialogType::AskDirectory.show_filenames());
    assert!(FileDialogType::AskDirectory.allow_selecting_directory());
    assert!(!FileDialogType::AskDirectory.allow_selecting_files());
    assert!(FileDialogType::AskSaveAsFilename.show_filenames());
    assert!(!FileDialogType::AskSaveAsFilename.allow_selecting_directory());
    assert!(FileDialogType::AskSaveAsFilename.allow_selecting_files());
}

#[test]
fn file_information_order_is_type_then_name() {
    let file_a = entry(FileType::File, "a");
    let file_b = entry(FileType::File, "b");
    let dir_a = entry(FileType::Directory, "a");
    let link = entry(FileType::FileSymlink, "a");
    assert!(file_a.precedes(&file_b));
    assert!(!file_b.precedes(&file_a));
    assert!(!file_a.precedes(&file_a));
    assert!(file_b.precedes(&dir_a));
    assert!(file_a.precedes(&link));
    assert!(link.precedes(&dir_a));
    // A proper prefix comes first.
    assert!(entry(FileType::File, "ab").precedes(&entry(FileType::File, "abc")));
    assert!(!entry(FileType::File, "abc").precedes(&entry(FileType::File, "ab")));
}

fn fresh_explorer(files: Vec<FileInformation>) -> FileExplorerState<Behaviour> {
    FileExplorerState::new(
        vec!["home".to_string(), "user".to_string()],
        FileDialogType::AskFilename,
        Ok(files),
    )
}

#[test]
fn explorer_new_selects_first_entry() {
    let state = fresh_explorer(vec![entry(FileType::File, "a.txt")]);
    assert_eq!(state.table_state().selected(), Some(0));
    assert_eq!(state.files().len(), 1);
    assert!(state.io_error().is_none());
}

#[test]
fn explorer_new_keeps_listing_error() {
    let state: FileExplorerState<Behaviour> = FileExplorerState::new(
        vec!["root".to_string()],
        FileDialogType::AskDirectory,
        Err("denied".to_string()),
    );
    assert_eq!(state.io_error().as_deref(), Some("denied"));
    assert_eq!(state.files().len(), 0);
    assert_eq!(state.table_state().selected(), None);
}

#[test]
fn explorer_arrows_move_selection_within_bounds() {
    let mut state = fresh_explorer(vec![
        entry(FileType::File, "a"),
        entry(FileType::File, "b"),
    ]);
    let outcome = state.handle_native_event(Some(FileExplorerCommand::ArrowUp));
    assert_eq!(outcome.event, FileExplorerEvent::Selecting);
    assert_eq!(state.table_state().selected(), Some(0));
    state.handle_native_event(Some(FileExplorerCommand::ArrowDown));
    assert_eq!(state.table_state().selected(), Some(1));
    state.handle_native_event(Some(FileExplorerCommand::ArrowDown));
    assert_eq!(state.table_state().selected(), Some(1));
    state.handle_native_event(Some(FileExplorerCommand::ArrowUp));
    assert_eq!(state.table_state().selected(), Some(0));
}

#[test]
fn explorer_confirm_respects_dialog_type() {
    // A filename dialog must not select a directory...
    let mut state = fresh_explorer(vec![entry(FileType::Directory, "sub")]);
    let outcome = state.handle_native_event(Some(FileExplorerCommand::Confirm));
    assert_eq!(outcome.event, FileExplorerEvent::Selecting);

    // ...but selects a file, handing back the full path.
    let mut state = fresh_explorer(vec![entry(FileType::File, "a.txt")]);
    let outcome = state.handle_native_event(Some(FileExplorerCommand::Confirm));
    assert_eq!(
        outcome.event,
        FileExplorerEvent::Selected(vec![
            "home".to_string(),
            "user".to_string(),
            "a.txt".to_string()
        ])
    );
}

#[test]
fn explorer_exit_cancels() {
    let mut state = fresh_explorer(vec![]);
    let outcome = state.handle_native_event(Some(FileExplorerCommand::Exit));
    assert_eq!(outcome.event, FileExplorerEvent::Cancelled);
}

#[test]
fn explorer_directory_up_requests_parent_and_reselects() {
    let mut state = fresh_explorer(vec![entry(FileType::File, "a")]);
    let outcome = state.handle_native_event(Some(FileExplorerCommand::DirectoryUp));
    assert_eq!(outcome.event, FileExplorerEvent::Selecting);
    assert_eq!(outcome.request, Some(vec!["home".to_string()]));
    // The parent listing arrives: the directory we came from is selected.
    state.apply_listing(Ok(vec![
        entry(FileType::Directory, "opt"),
        entry(FileType::Directory, "user"),
    ]));
    assert_eq!(state.directory(), &vec!["home".to_string()]);
    assert_eq!(state.table_state().selected(), Some(1));
    assert!(state.io_error().is_none());
}

#[test]
fn explorer_directory_down_requests_child() {
    let mut state = fresh_explorer(vec![entry(FileType::Directory, "sub")]);
    let outcome = state.handle_native_event(Some(FileExplorerCommand::DirectoryDown));
    assert_eq!(
        outcome.request,
        Some(vec!["home".to_string(), "user".to_string(), "sub".to_string()])
    );
    state.apply_listing(Ok(vec![entry(FileType::File, "inner.txt")]));
    assert_eq!(
        state.directory(),
        &vec!["home".to_string(), "user".to_string(), "sub".to_string()]
    );
    assert_eq!(state.table_state().selected(), Some(0));
}

#[test]
fn explorer_directory_down_ignores_files_and_symlinks() {
    let mut state = fresh_explorer(vec![entry(FileType::DirectorySymlink, "link")]);
    let outcome = state.handle_native_event(Some(FileExplorerCommand::DirectoryDown));
    assert_eq!(outcome.request, None);
}

#[test]
fn explorer_failed_listing_keeps_state_and_error() {
    let mut state = fresh_explorer(vec![entry(FileType::File, "a")]);
    state.handle_native_event(Some(FileExplorerCommand::DirectoryUp));
    state.apply_listing(Err("gone".to_string()));
    assert_eq!(state.directory(), &vec!["home".to_string(), "user".to_string()]);
    assert_eq!(state.files().len(), 1);
    assert_eq!(state.io_error().as_deref(), Some("gone"));
}

#[test]
fn explorer_filename_dialog_flow() {
    let mut state = fresh_explorer(vec![]);
    state.handle_native_event(Some(FileExplorerCommand::EnterFileName));
    assert!(state.dialog_view(10).is_some());
    // While the dialog is open, the converter feeds it.
    let cmd = <DefaultFileExplorerInputConverter as RemyWidgetCommandConverter<
        FileExplorerState<Behaviour>,
    >>::convert(press(Key::Character('x')), &state);
    assert_eq!(
        cmd,
        Some(FileExplorerCommand::FileNameDialogInput(TextInputAction::Other(
            UserAction::Typing('x')
        )))
    );
    state.handle_native_event(Some(FileExplorerCommand::FileNameDialogInput(
        TextInputAction::Other(UserAction::Typing('x')),
    )));
    let outcome = state.handle_native_event(Some(FileExplorerCommand::FileNameDialogInput(
        TextInputAction::Enter,
    )));
    assert_eq!(
        outcome.event,
        FileExplorerEvent::Selected(vec![
            "home".to_string(),
            "user".to_string(),
            "x".to_string()
        ])
    );
    // Esc dismisses the dialog.
    state.handle_native_event(Some(FileExplorerCommand::FileNameDialogInput(
        TextInputAction::Esc,
    )));
    assert!(state.dialog_view(10).is_none());
}

#[test]
fn explorer_converter_without_dialog_maps_keys() {
    let state = fresh_explorer(vec![]);
    let convert = |event| {
        <DefaultFileExplorerInputConverter as RemyWidgetCommandConverter<
            FileExplorerState<Behaviour>,
        >>::convert(event, &state)
    };
    assert_eq!(convert(press(Key::ArrowUp)), Some(FileExplorerCommand::ArrowUp));
    assert_eq!(convert(press(Key::ArrowDown)), Some(FileExplorerCommand::ArrowDown));
    assert_eq!(convert(press(Key::ArrowLeft)), Some(FileExplorerCommand::DirectoryUp));
    assert_eq!(convert(press(Key::ArrowRight)), Some(FileExplorerCommand::DirectoryDown));
    assert_eq!(convert(press(Key::Enter)), Some(FileExplorerCommand::Confirm));
    assert_eq!(convert(press(Key::Esc)), Some(FileExplorerCommand::Exit));
    assert_eq!(convert(press(Key::Character('n'))), Some(FileExplorerCommand::EnterFileName));
    assert_eq!(convert(press(Key::Character('z'))), None);
}
