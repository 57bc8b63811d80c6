//! Tests of the editing engine: the cursor, the windowing algorithm, and
//! the typing behaviour with an in-memory clipboard.

use remy_widgets::CursorToCharIndexMapper;
use remy_widgets::{
    char_display_width, get_max_index_within_width, get_min_index_within_width, Cursor,
    CursorCoordinate, CursorError, DefaultTypingBehaviour, MemoryClipboard,
    SimpleCursorToCharIndexMapper, TypingBehaviour, UserAction,
};

type Behaviour = DefaultTypingBehaviour<SimpleCursorToCharIndexMapper, MemoryClipboard>;

fn behaviour_over(text: &str) -> Behaviour {
    DefaultTypingBehaviour::new(text.to_string(), MemoryClipboard::new())
}

fn chars_of(text: &str) -> Vec<char> {
    text.chars().collect()
}

#[test]
fn char_widths_ascii_and_wide() {
    assert_eq!(char_display_width('a'), 1);
    assert_eq!(char_display_width(' '), 1);
    assert_eq!(char_display_width('~'), 1);
    // An East Asian wide glyph takes two columns, a control character none.
    assert_eq!(char_display_width('\u{3042}'), 2);
    assert_eq!(char_display_width('\n'), 0);
}

#[test]
fn cursor_new_starts_at_zero() {
    let cursor = Cursor::new("hello".to_string());
    assert_eq!(cursor.get_position(), CursorCoordinate(0));
    assert_eq!(cursor.text(), "hello");
}

#[test]
fn cursor_movement_stays_in_bounds() {
    let mut cursor = Cursor::new("ab".to_string());
    assert!(!cursor.move_left());
    assert_eq!(cursor.get_position(), CursorCoordinate(0));
    cursor.move_right();
    cursor.move_right();
    cursor.move_right();
    assert_eq!(cursor.get_position(), CursorCoordinate(2));
    assert!(cursor.move_left());
    assert_eq!(cursor.get_position(), CursorCoordinate(1));
    cursor.move_to_end();
    assert_eq!(cursor.get_position(), CursorCoordinate(2));
    cursor.move_to_start();
    assert_eq!(cursor.get_position(), CursorCoordinate(0));
}

#[test]
fn cursor_set_position_rejects_out_of_range() {
    let mut cursor = Cursor::new("abc".to_string());
    assert_eq!(cursor.set_position(CursorCoordinate(3)), Ok(()));
    assert_eq!(
        cursor.set_position(CursorCoordinate(4)),
        Err(CursorError::InvalidCursorPosition)
    );
    // The failed call left the position alone.
    assert_eq!(cursor.get_position(), CursorCoordinate(3));
}

#[test]
fn cursor_insert_and_delete_char() {
    let mut cursor = Cursor::new("ace".to_string());
    cursor.set_position(CursorCoordinate(1)).unwrap();
    cursor.insert_char_at_cursor('b');
    assert_eq!(cursor.text(), "abce");
    // The position did not move: the cursor still sits before 'b'.
    assert_eq!(cursor.get_position(), CursorCoordinate(1));
    assert!(cursor.delete_char_at_cursor());
    assert_eq!(cursor.text(), "ace");
    cursor.move_to_end();
    assert!(!cursor.delete_char_at_cursor());
    assert_eq!(cursor.text(), "ace");
}

#[test]
fn cursor_replace_char() {
    let mut cursor = Cursor::new("abc".to_string());
    cursor.set_position(CursorCoordinate(1)).unwrap();
    assert_eq!(cursor.replace_char_at_cursor('x'), Some('b'));
    assert_eq!(cursor.text(), "axc");
    cursor.move_to_end();
    assert_eq!(cursor.replace_char_at_cursor('y'), None);
    assert_eq!(cursor.text(), "axc");
}

#[test]
fn cursor_insert_string_returns_end_coordinate() {
    let mut cursor = Cursor::new("ad".to_string());
    cursor.set_position(CursorCoordinate(1)).unwrap();
    let end = cursor.insert_string_at_cursor("bc");
    assert_eq!(cursor.text(), "abcd");
    assert_eq!(end, CursorCoordinate(3));
}

#[test]
fn cursor_insert_then_delete_restores_text() {
    // Inserting a string and deleting the same coordinate range restores
    // the original text exactly, at every valid position.
    let original = "wide\u{3042}text";
    let len = original.chars().count();
    for pos in 0..=len {
        let mut cursor = Cursor::new(original.to_string());
        cursor.set_position(CursorCoordinate(pos)).unwrap();
        let end = cursor.insert_string_at_cursor("xy\u{3042}");
        cursor.delete_string_at_cursor(end);
        assert_eq!(cursor.text(), original);
    }
}

#[test]
fn cursor_delete_string_either_order_and_clamped() {
    let mut cursor = Cursor::new("abcdef".to_string());
    cursor.set_position(CursorCoordinate(4)).unwrap();
    cursor.delete_string_at_cursor(CursorCoordinate(2));
    assert_eq!(cursor.text(), "abef");

    let mut cursor = Cursor::new("abcdef".to_string());
    cursor.set_position(CursorCoordinate(4)).unwrap();
    cursor.delete_string_at_cursor(CursorCoordinate(100));
    assert_eq!(cursor.text(), "abcd");
}

#[test]
fn cursor_substring_multibyte() {
    let cursor = Cursor::new("h\u{e9}llo".to_string());
    assert_eq!(
        cursor.get_substring(CursorCoordinate(1), CursorCoordinate(3)),
        "\u{e9}l"
    );
    assert_eq!(cursor.text(), "h\u{e9}llo");
}

#[test]
fn mapper_reports_byte_offsets() {
    let text = chars_of("h\u{e9}llo");
    assert_eq!(
        SimpleCursorToCharIndexMapper::map(CursorCoordinate(0), &text),
        0
    );
    assert_eq!(
        SimpleCursorToCharIndexMapper::map(CursorCoordinate(1), &text),
        1
    );
    // The accented character is two bytes long in UTF-8.
    assert_eq!(
        SimpleCursorToCharIndexMapper::map(CursorCoordinate(2), &text),
        3
    );
    assert_eq!(
        SimpleCursorToCharIndexMapper::map(CursorCoordinate(5), &text),
        "h\u{e9}llo".len()
    );
    assert_eq!(SimpleCursorToCharIndexMapper::string_length(&text), 5);
}

#[test]
fn max_reach_counts_columns_not_chars() {
    let text = chars_of("a\u{3042}b");
    // From the start, one column is left after 'a'; the wide glyph needs two.
    assert_eq!(
        get_max_index_within_width(CursorCoordinate(0), &text, 2),
        CursorCoordinate(1)
    );
    assert_eq!(
        get_max_index_within_width(CursorCoordinate(0), &text, 3),
        CursorCoordinate(2)
    );
    assert_eq!(
        get_max_index_within_width(CursorCoordinate(0), &text, 4),
        CursorCoordinate(3)
    );
}

#[test]
fn min_reach_counts_columns_backward() {
    let text = chars_of("a\u{3042}b");
    assert_eq!(
        get_min_index_within_width(CursorCoordinate(3), &text, 1),
        CursorCoordinate(2)
    );
    assert_eq!(
        get_min_index_within_width(CursorCoordinate(3), &text, 3),
        CursorCoordinate(1)
    );
    assert_eq!(
        get_min_index_within_width(CursorCoordinate(3), &text, 4),
        CursorCoordinate(0)
    );
}

#[test]
fn visible_text_whole_fit() {
    // Text "hello", cursor at 0, width 10: the whole text is shown.
    let mut behaviour = behaviour_over("hello");
    let (text, selection) = behaviour.get_visible_text(10);
    assert_eq!(text, "hello");
    assert_eq!(selection, None);
    assert_eq!(behaviour.get_cursor_position(10), 0);
}

#[test]
fn visible_text_scrolls_right_to_cursor() {
    // Text "abcdef", cursor at the end, width 3: the window becomes [3, 6),
    // showing "def" with the cursor at column 3.
    let mut behaviour = behaviour_over("abcdef");
    behaviour.handle_user_action(UserAction::ToEnd).unwrap();
    let (text, selection) = behaviour.get_visible_text(3);
    assert_eq!(text, "def");
    assert_eq!(selection, None);
    assert_eq!(behaviour.get_cursor_position(3), 3);
}

#[test]
fn visible_text_window_is_stable_inside() {
    let mut behaviour = behaviour_over("abcdef");
    let (text, _) = behaviour.get_visible_text(3);
    assert_eq!(text, "abc");
    // Moving within the window keeps it unchanged.
    behaviour.handle_user_action(UserAction::CursorRight).unwrap();
    behaviour.handle_user_action(UserAction::CursorRight).unwrap();
    let (text, _) = behaviour.get_visible_text(3);
    assert_eq!(text, "abc");
    assert_eq!(behaviour.get_cursor_position(3), 2);
}

#[test]
fn visible_text_scrolls_back_left() {
    let mut behaviour = behaviour_over("abcdef");
    behaviour.handle_user_action(UserAction::ToEnd).unwrap();
    let (text, _) = behaviour.get_visible_text(3);
    assert_eq!(text, "def");
    // Jumping back to the start puts the cursor ahead of the anchor: the
    // cursor becomes the new left edge.
    behaviour.handle_user_action(UserAction::ToStart).unwrap();
    let (text, _) = behaviour.get_visible_text(3);
    assert_eq!(text, "abc");
    assert_eq!(behaviour.get_cursor_position(3), 0);
}

#[test]
fn visible_text_clips_selection_to_window() {
    // Text "abcdef" with selection (1, 4) and window [2, 5): the selection
    // is clipped to the window and reported relative to it.
    let mut cursor = Cursor::new("abcdef".to_string());
    cursor.set_position(CursorCoordinate(5)).unwrap();
    let (text, col, selection) = cursor.get_visible_text::<SimpleCursorToCharIndexMapper>(
        3,
        Some((CursorCoordinate(1), CursorCoordinate(4))),
    );
    assert_eq!(text, "cde");
    assert_eq!(col, 3);
    assert_eq!(selection, Some((0, 2)));
}

#[test]
fn visible_text_drops_selection_outside_window() {
    let mut cursor = Cursor::new("abcdef".to_string());
    cursor.set_position(CursorCoordinate(5)).unwrap();
    let (text, _, selection) = cursor.get_visible_text::<SimpleCursorToCharIndexMapper>(
        3,
        Some((CursorCoordinate(0), CursorCoordinate(1))),
    );
    assert_eq!(text, "cde");
    assert_eq!(selection, None);
}

#[test]
fn typing_inserts_and_advances() {
    // Text "", type 'a', 'b', 'c': buffer "abc", cursor at 3.
    let mut behaviour = behaviour_over("");
    behaviour.handle_user_action(UserAction::Typing('a')).unwrap();
    behaviour.handle_user_action(UserAction::Typing('b')).unwrap();
    behaviour.handle_user_action(UserAction::Typing('c')).unwrap();
    assert_eq!(behaviour.get_text(), "abc");
    assert_eq!(behaviour.get_cursor_position(100), 3);
}

#[test]
fn typing_overwrite_mode_replaces_in_place() {
    let mut behaviour = behaviour_over("abc");
    behaviour.handle_user_action(UserAction::ToggleInsert).unwrap();
    behaviour.handle_user_action(UserAction::Typing('x')).unwrap();
    assert_eq!(behaviour.get_text(), "xbc");
    assert_eq!(behaviour.get_cursor_position(100), 1);
    // At the end of the text, overwrite typing changes nothing.
    behaviour.handle_user_action(UserAction::ToEnd).unwrap();
    behaviour.handle_user_action(UserAction::Typing('y')).unwrap();
    assert_eq!(behaviour.get_text(), "xbc");
}

#[test]
fn typing_over_selection_consumes_it() {
    let mut behaviour = behaviour_over("abcdef");
    behaviour.handle_user_action(UserAction::CursorRightSelect).unwrap();
    behaviour.handle_user_action(UserAction::CursorRightSelect).unwrap();
    behaviour.handle_user_action(UserAction::Typing('x')).unwrap();
    assert_eq!(behaviour.get_text(), "xcdef");
    assert_eq!(behaviour.get_cursor_position(100), 1);
}

#[test]
fn typing_overwrite_with_selection_does_not_advance() {
    // With a selection present and overwrite mode on, the typed character
    // replaces the selection and the cursor stays put; only insert mode
    // advances past it.
    let mut behaviour = behaviour_over("abcdef");
    behaviour.handle_user_action(UserAction::ToggleInsert).unwrap();
    behaviour.handle_user_action(UserAction::CursorRightSelect).unwrap();
    behaviour.handle_user_action(UserAction::CursorRightSelect).unwrap();
    behaviour.handle_user_action(UserAction::Typing('x')).unwrap();
    assert_eq!(behaviour.get_text(), "xcdef");
    assert_eq!(behaviour.get_cursor_position(100), 0);
}

#[test]
fn movement_sequence_stays_in_bounds() {
    let mut behaviour = behaviour_over("ab");
    let moves = [
        UserAction::CursorLeft,
        UserAction::CursorRight,
        UserAction::CursorRight,
        UserAction::CursorRight,
        UserAction::ToStart,
        UserAction::CursorLeft,
        UserAction::ToEnd,
        UserAction::CursorRight,
    ];
    for action in moves {
        behaviour.handle_user_action(action).unwrap();
        let pos = behaviour.get_cursor_position(100);
        assert!(pos <= behaviour.get_text().chars().count());
    }
}

#[test]
fn backspace_at_start_is_noop() {
    // Backspace at position 0 on non-empty text: no-op, position stays 0.
    let mut behaviour = behaviour_over("hello");
    behaviour.handle_user_action(UserAction::Remove).unwrap();
    assert_eq!(behaviour.get_text(), "hello");
    assert_eq!(behaviour.get_cursor_position(100), 0);
}

#[test]
fn backspace_deletes_before_cursor() {
    let mut behaviour = behaviour_over("abc");
    behaviour.handle_user_action(UserAction::CursorRight).unwrap();
    behaviour.handle_user_action(UserAction::CursorRight).unwrap();
    behaviour.handle_user_action(UserAction::Remove).unwrap();
    assert_eq!(behaviour.get_text(), "ac");
    assert_eq!(behaviour.get_cursor_position(100), 1);
}

#[test]
fn delete_removes_at_cursor() {
    let mut behaviour = behaviour_over("abc");
    behaviour.handle_user_action(UserAction::Delete).unwrap();
    assert_eq!(behaviour.get_text(), "bc");
    assert_eq!(behaviour.get_cursor_position(100), 0);
    behaviour.handle_user_action(UserAction::ToEnd).unwrap();
    behaviour.handle_user_action(UserAction::Delete).unwrap();
    assert_eq!(behaviour.get_text(), "bc");
}

#[test]
fn selection_collapses_to_none_when_empty() {
    // Extending right then back left over the same unit leaves no
    // selection: an empty range is never observable.
    let mut behaviour = behaviour_over("abc");
    behaviour.handle_user_action(UserAction::CursorRightSelect).unwrap();
    behaviour.handle_user_action(UserAction::CursorLeftSelect).unwrap();
    // Deleting "the selection" now must delete nothing via the selection
    // path; backspace instead steps left from position 0, a no-op.
    behaviour.handle_user_action(UserAction::Remove).unwrap();
    assert_eq!(behaviour.get_text(), "abc");
}

#[test]
fn select_all_keeps_cursor_position() {
    let mut behaviour = behaviour_over("abc");
    behaviour.handle_user_action(UserAction::CursorRight).unwrap();
    behaviour.handle_user_action(UserAction::SelectAll).unwrap();
    assert_eq!(behaviour.get_cursor_position(100), 1);
    // The whole buffer is selected: typing replaces everything.
    behaviour.handle_user_action(UserAction::Typing('z')).unwrap();
    assert_eq!(behaviour.get_text(), "z");
}

#[test]
fn copy_paste_round_trip_keeps_buffer() {
    // Text "hello", select-all, Copy, then Paste: buffer stays "hello" and
    // the cursor ends up at the end.
    let mut behaviour = behaviour_over("hello");
    behaviour.handle_user_action(UserAction::SelectAll).unwrap();
    behaviour.handle_user_action(UserAction::Copy).unwrap();
    behaviour.handle_user_action(UserAction::Paste).unwrap();
    assert_eq!(behaviour.get_text(), "hello");
    assert_eq!(behaviour.get_cursor_position(100), 5);
}

#[test]
fn cut_removes_selection_and_paste_reinserts() {
    let mut behaviour = behaviour_over("abcdef");
    behaviour.handle_user_action(UserAction::CursorRightSelect).unwrap();
    behaviour.handle_user_action(UserAction::CursorRightSelect).unwrap();
    behaviour.handle_user_action(UserAction::Cut).unwrap();
    assert_eq!(behaviour.get_text(), "cdef");
    assert_eq!(behaviour.get_cursor_position(100), 0);
    behaviour.handle_user_action(UserAction::ToEnd).unwrap();
    behaviour.handle_user_action(UserAction::Paste).unwrap();
    assert_eq!(behaviour.get_text(), "cdefab");
}

#[test]
fn cut_without_selection_is_noop() {
    let mut behaviour = behaviour_over("abc");
    assert_eq!(behaviour.handle_user_action(UserAction::Cut), Ok(()));
    assert_eq!(behaviour.get_text(), "abc");
}

#[test]
fn paste_from_empty_clipboard_fails_and_changes_nothing() {
    let mut behaviour = behaviour_over("abc");
    behaviour.handle_user_action(UserAction::SelectAll).unwrap();
    let result = behaviour.handle_user_action(UserAction::Paste);
    assert!(result.is_err());
    // The failed paste left the buffer (and the selection) untouched: the
    // next typed character still replaces the whole selection.
    assert_eq!(behaviour.get_text(), "abc");
    behaviour.handle_user_action(UserAction::Typing('q')).unwrap();
    assert_eq!(behaviour.get_text(), "q");
}

#[test]
fn toggle_insert_clears_selection() {
    let mut behaviour = behaviour_over("abc");
    behaviour.handle_user_action(UserAction::CursorRightSelect).unwrap();
    behaviour.handle_user_action(UserAction::ToggleInsert).unwrap();
    // With the selection gone, backspace deletes one character only.
    behaviour.handle_user_action(UserAction::Remove).unwrap();
    assert_eq!(behaviour.get_text(), "bc");
}

#[test]
fn select_to_boundaries() {
    let mut behaviour = behaviour_over("abcd");
    behaviour.handle_user_action(UserAction::CursorRight).unwrap();
    behaviour.handle_user_action(UserAction::CursorRight).unwrap();
    behaviour.handle_user_action(UserAction::ToEndSelect).unwrap();
    behaviour.handle_user_action(UserAction::Remove).unwrap();
    assert_eq!(behaviour.get_text(), "ab");

    let mut behaviour = behaviour_over("abcd");
    behaviour.handle_user_action(UserAction::CursorRight).unwrap();
    behaviour.handle_user_action(UserAction::CursorRight).unwrap();
    behaviour.handle_user_action(UserAction::ToStartSelect).unwrap();
    behaviour.handle_user_action(UserAction::Remove).unwrap();
    assert_eq!(behaviour.get_text(), "cd");
}

#[test]
fn null_action_changes_nothing() {
    let mut behaviour = behaviour_over("abc");
    behaviour.handle_user_action(UserAction::Null).unwrap();
    assert_eq!(behaviour.get_text(), "abc");
    assert_eq!(behaviour.get_cursor_position(100), 0);
}

#[test]
fn empty_behaviour_is_empty() {
    let behaviour = Behaviour::empty();
    assert_eq!(behaviour.get_text(), "");
}

#[test]
fn wide_glyph_window_width() {
    // Each wide glyph takes two columns: width 4 shows only two of them.
    let mut behaviour = behaviour_over("\u{3042}\u{3044}\u{3046}");
    let (text, _) = behaviour.get_visible_text(4);
    assert_eq!(text, "\u{3042}\u{3044}");
}
