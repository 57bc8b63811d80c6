//! A small text-widget toolkit built around a verified single-line text
//! editing engine: a cursor over a text buffer, selection handling, an
//! insert/overwrite typing behaviour, and a display-width-bounded windowing
//! algorithm that keeps the cursor visible while scrolling as little as
//! possible.
//!
//! Rendering and platform input translation are deliberately out of scope;
//! the library exposes plain values (visible substring, cursor column,
//! selection span) for a renderer to draw.

mod actions;
mod chars;
mod error;
mod events;
mod width;
mod window;
mod cursor;
mod mapper;
mod typing;
mod widget_core;
mod row_view;
mod text_field;
mod text_input;
mod explorer;

pub use actions::UserAction;
pub use error::ClipboardError;
pub use error::CursorError;
pub use events::GenericEvent;
pub use events::GenericEvent as Event;
pub use events::GenericKeyEventKind;
pub use events::GenericKeyEventKind as KeyEventKind;
pub use events::Key;

pub use width::char_display_width;
pub use width::char_width_of;
pub use width::lemma_seq_width_concat;
pub use width::lemma_seq_width_singleton;
pub use width::lemma_seq_width_split;
pub use width::seq_width;

pub use cursor::clamp_coord;
pub use cursor::clip_selection_to_window;
pub use cursor::insert_text;
pub use cursor::lemma_insert_then_delete;
pub use cursor::remove_text;
pub use cursor::Cursor;
pub use cursor::CursorCoordinate;

pub use window::get_max_index_within_width;
pub use window::get_min_index_within_width;
pub use window::get_text_window;
pub use window::lemma_max_reach_of;
pub use window::lemma_max_reach_props;
pub use window::lemma_min_reach_of;
pub use window::lemma_min_reach_props;
pub use window::lemma_window_spec_props;
pub use window::lemma_window_stability;
pub use window::lemma_window_whole_text_fit;
pub use window::max_reach;
pub use window::min_reach;
pub use window::window_spec;
pub use window::CursorWindow;

pub use mapper::CursorToCharIndexMapper;
pub use mapper::SimpleCursorToCharIndexMapper;

pub use typing::action_transition;
pub use typing::delete_selection_step;
pub use typing::normalized_sel;
pub use typing::paste_step;
pub use typing::remove_step;
pub use typing::typing_step;
pub use typing::ClipboardProvider;
pub use typing::DefaultTypingBehaviour;
pub use typing::MemoryClipboard;
pub use typing::TypingBehaviour;

pub use widget_core::RemyWidgetCommandConverter;
pub use widget_core::RemyWidgetState;

pub use row_view::CellAlignment;
pub use row_view::RowViewState;

pub use text_field::text_field_action_of;
pub use text_field::DefaultTextFieldInputConverter;
pub use text_field::TextFieldState;

pub use text_input::text_input_action_of;
pub use text_input::DefaultTextInputInputConverter;
pub use text_input::TextInputAction;
pub use text_input::TextInputEvent;
pub use text_input::TextInputState;

pub use explorer::explorer_command_of;
pub use explorer::file_info_lt;
pub use explorer::file_type_rank;
pub use explorer::find_name;
pub use explorer::lex_lt;
pub use explorer::path_model;
pub use explorer::DefaultFileExplorerInputConverter;
pub use explorer::FileDialogType;
pub use explorer::FileExplorer;
pub use explorer::FileExplorerCommand;
pub use explorer::FileExplorerEvent;
pub use explorer::FileExplorerOutcome;
pub use explorer::FileExplorerState;
pub use explorer::FileInformation;
pub use explorer::FileType;
