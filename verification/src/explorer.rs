//! The file-explorer state machine. Filesystem traversal stays outside this
//! library: the state machine works on a directory given as path
//! components and a listing of `FileInformation` handed in by the caller,
//! and when navigation needs another directory's contents it emits a
//! listing request that the caller answers through `apply_listing`.

use vstd::prelude::*;

use crate::chars::string_to_chars;
use crate::events::{GenericEvent, Key};
use crate::row_view::RowViewState;
use crate::text_input::{
    text_input_action_of, DefaultTextInputInputConverter, TextInputAction, TextInputEvent,
    TextInputState,
};
use crate::typing::TypingBehaviour;
use crate::widget_core::{RemyWidgetCommandConverter, RemyWidgetState};

verus! {

/// What a directory entry is: a file or a directory, reached directly or
/// through a symlink.
#[derive(Debug, PartialEq, Eq, Copy, Clone, Structural)]
pub enum FileType {
    File,
    Directory,
    FileSymlink,
    DirectorySymlink,
}

/// The sort rank of a file type: files first, then file symlinks, then
/// directories, then directory symlinks.
pub open spec fn file_type_rank(t: FileType) -> int {
    match t {
        FileType::File => 0,
        FileType::FileSymlink => 1,
        FileType::Directory => 2,
        FileType::DirectorySymlink => 3,
    }
}

impl FileType {
    /// Whether the entry is reached through a symlink.
    pub fn is_symlink(&self) -> (r: bool)
        ensures
            r == (self is FileSymlink || self is DirectorySymlink),
    {
        matches!(self, FileType::FileSymlink | FileType::DirectorySymlink)
    }

    /// Whether the entry is a directory.
    pub fn is_dir(&self) -> (r: bool)
        ensures
            r == (self is Directory || self is DirectorySymlink),
    {
        matches!(self, FileType::Directory | FileType::DirectorySymlink)
    }

    /// Whether the entry is a file.
    pub fn is_file(&self) -> (r: bool)
        ensures
            r == (self is File || self is FileSymlink),
    {
        matches!(self, FileType::File | FileType::FileSymlink)
    }

    /// The entry's sort rank.
    pub fn rank(&self) -> (r: u8)
        ensures
            r as int == file_type_rank(*self),
    {
        match self {
            FileType::File => 0,
            FileType::FileSymlink => 1,
            FileType::Directory => 2,
            FileType::DirectorySymlink => 3,
        }
    }
}

/// Lexicographic order on character sequences, by Unicode scalar value;
/// a proper prefix comes first.
pub open spec fn lex_lt(a: Seq<char>, b: Seq<char>) -> bool
    decreases a.len(),
{
    if b.len() == 0 {
        false
    } else if a.len() == 0 {
        true
    } else if a[0] == b[0] {
        lex_lt(a.drop_first(), b.drop_first())
    } else {
        a[0] < b[0]
    }
}

/// Once the first `i` characters agree, the order is decided at index `i`:
/// by whichever sequence ends there, or by the characters at `i`.
proof fn lemma_lex_lt_at(a: Seq<char>, b: Seq<char>, i: int)
    requires
        0 <= i <= a.len(),
        i <= b.len(),
        forall|j: int| 0 <= j < i ==> a[j] == b[j],
        i < a.len() && i < b.len() ==> a[i] != b[i],
    ensures
        lex_lt(a, b) == (if i >= b.len() {
            false
        } else if i >= a.len() {
            true
        } else {
            a[i] < b[i]
        }),
    decreases i,
{
    if i == 0 {
    } else {
        assert(a[0] == b[0]);
        let a2 = a.drop_first();
        let b2 = b.drop_first();
        assert(forall|j: int| 0 <= j < i - 1 ==> a2[j] == b2[j]);
        lemma_lex_lt_at(a2, b2, i - 1);
    }
}

/// One directory entry: its type and its name.
#[derive(Debug, Clone, PartialEq, Eq)]
pub struct FileInformation {
    pub file_type: FileType,
    pub name: String,
}

/// The listing order: by file type rank first, then by name.
pub open spec fn file_info_lt(a_type: FileType, a_name: Seq<char>, b_type: FileType, b_name: Seq<char>) -> bool {
    file_type_rank(a_type) < file_type_rank(b_type) || (file_type_rank(a_type) == file_type_rank(
        b_type,
    ) && lex_lt(a_name, b_name))
}

/// Whether `a` comes strictly before `b` by Unicode scalar value.
fn lex_less(a: &str, b: &str) -> (r: bool)
    ensures
        r == lex_lt(a@, b@),
{
    let av = string_to_chars(a);
    let bv = string_to_chars(b);
    let mut i: usize = 0;
    while i < av.len() && i < bv.len() && av[i] == bv[i]
        invariant
            i <= av@.len(),
            i <= bv@.len(),
            av@ == a@,
            bv@ == b@,
            forall|j: int| 0 <= j < i ==> a@[j] == b@[j],
        decreases av@.len() - i,
    {
        i = i + 1;
    }
    proof {
        lemma_lex_lt_at(a@, b@, i as int);
    }
    if i >= bv.len() {
        false
    } else if i >= av.len() {
        true
    } else {
        av[i] < bv[i]
    }
}

impl FileInformation {
    /// Whether this entry sorts strictly before `other`: by file type rank
    /// first, then by name.
    pub fn precedes(&self, other: &FileInformation) -> (r: bool)
        ensures
            r == file_info_lt(self.file_type, self.name@, other.file_type, other.name@),
    {
        let mine = self.file_type.rank();
        let theirs = other.file_type.rank();
        if mine < theirs {
            true
        } else if mine > theirs {
            false
        } else {
            lex_less(self.name.as_str(), other.name.as_str())
        }
    }
}

/// What a file dialog is for; it decides what may be selected and shown.
#[derive(Debug, Copy, Clone, Eq, PartialEq, Structural)]
pub enum FileDialogType {
    AskFilename,
    AskDirectory,
    AskSaveAsFilename,
}

impl FileDialogType {
    /// Whether plain files are listed at all.
    pub fn show_filenames(&self) -> (r: bool)
        ensures
            r == (self is AskFilename || self is AskSaveAsFilename),
    {
        match self {
            FileDialogType::AskFilename => true,
            FileDialogType::AskDirectory => false,
            FileDialogType::AskSaveAsFilename => true,
        }
    }

    /// Whether confirming on a directory selects it.
    pub fn allow_selecting_directory(&self) -> (r: bool)
        ensures
            r == (self is AskDirectory),
    {
        match self {
            FileDialogType::AskFilename => false,
            FileDialogType::AskDirectory => true,
            FileDialogType::AskSaveAsFilename => false,
        }
    }

    /// Whether confirming on a file selects it.
    pub fn allow_selecting_files(&self) -> (r: bool)
        ensures
            r == (self is AskFilename || self is AskSaveAsFilename),
    {
        match self {
            FileDialogType::AskFilename => true,
            FileDialogType::AskDirectory => false,
            FileDialogType::AskSaveAsFilename => true,
        }
    }
}

/// What the explorer tells its owner after one command: still choosing, a
/// path was selected (given as path components), or the dialog was
/// dismissed.
#[derive(Debug, Clone, PartialEq, Eq)]
pub enum FileExplorerEvent {
    Selecting,
    Selected(Vec<String>),
    Cancelled,
}

/// The explorer's command vocabulary.
#[derive(Debug, Copy, Clone, PartialEq, Eq, Structural)]
pub enum FileExplorerCommand {
    ArrowUp,
    ArrowDown,
    DirectoryUp,
    DirectoryDown,
    Exit,
    Confirm,
    EnterFileName,
    FileNameDialogInput(TextInputAction),
}

/// A path as a sequence of character sequences, one per component.
pub open spec fn path_model(v: Seq<String>) -> Seq<Seq<char>> {
    v.map_values(|s: String| s@)
}

/// The index of the first entry with the given name, if any.
pub open spec fn find_name(files: Seq<FileInformation>, name: Seq<char>) -> Option<int>
    decreases files.len(),
{
    if files.len() == 0 {
        None
    } else if files[0].name@ == name {
        Some(0int)
    } else {
        match find_name(files.drop_first(), name) {
            None => None,
            Some(i) => Some(i + 1),
        }
    }
}

/// When the first `i` entries miss the name, the search result is the
/// search result of the rest, shifted by `i`.
proof fn lemma_find_name_skip(files: Seq<FileInformation>, name: Seq<char>, i: int)
    requires
        0 <= i <= files.len(),
        forall|j: int| 0 <= j < i ==> files[j].name@ != name,
    ensures
        find_name(files, name) == match find_name(files.skip(i), name) {
            None => None::<int>,
            Some(k) => Some(k + i),
        },
    decreases i,
{
    if i == 0 {
        assert(files.skip(0) =~= files);
    } else {
        assert(files[0].name@ != name);
        let rest = files.drop_first();
        assert(rest =~= files.skip(1));
        assert(forall|j: int| 0 <= j < i - 1 ==> rest[j].name@ != name);
        lemma_find_name_skip(rest, name, i - 1);
        assert(rest.skip(i - 1) =~= files.skip(i));
    }
}

/// Copies the first `n` path components.
fn clone_components(v: &Vec<String>, n: usize) -> (r: Vec<String>)
    requires
        n <= v@.len(),
    ensures
        path_model(r@) == path_model(v@).subrange(0, n as int),
{
    let mut r: Vec<String> = Vec::new();
    proof {
        assert(path_model(r@) =~= path_model(v@).subrange(0, 0));
    }
    let mut i: usize = 0;
    while i < n
        invariant
            i <= n <= v@.len(),
            r@.len() == i as int,
            path_model(r@) == path_model(v@).subrange(0, i as int),
        decreases n - i,
    {
        let cloned = v[i].clone();
        let ghost r_prev = r@;
        r.push(cloned);
        i = i + 1;
        proof {
            assert(r@ == r_prev.push(cloned));
            assert forall|k: int| 0 <= k < i as int implies path_model(r@)[k] == path_model(
                v@,
            ).subrange(0, i as int)[k] by {
                assert(path_model(r@)[k] == r@[k]@);
                if k < i - 1 {
                    assert(r@[k] == r_prev.push(cloned)[k]);
                    assert(r@[k] == r_prev[k]);
                    assert(path_model(r_prev)[k] == r_prev[k]@);
                } else {
                    assert(r@[k]@ == v@[k]@);
                }
            }
            assert(path_model(r@) =~= path_model(v@).subrange(0, i as int));
        }
    }
    r
}

/// The index of the first entry named `name`, or 0 when there is none.
fn find_index(files: &Vec<FileInformation>, name: &String) -> (r: usize)
    ensures
        r as int == match find_name(files@, name@) {
            Some(i) => i,
            None => 0int,
        },
        r <= files@.len(),
{
    let mut i: usize = 0;
    while i < files.len()
        invariant
            i <= files@.len(),
            forall|j: int| 0 <= j < i ==> files@[j].name@ != name@,
        decreases files@.len() - i,
    {
        if files[i].name == *name {
            proof {
                lemma_find_name_skip(files@, name@, i as int);
                assert(files@.skip(i as int)[0] == files@[i as int]);
            }
            return i;
        }
        i = i + 1;
    }
    proof {
        lemma_find_name_skip(files@, name@, files@.len() as int);
        assert(files@.skip(files@.len() as int) =~= Seq::<FileInformation>::empty());
    }
    0
}

/// The explorer's answer to one command: an event for the owner, and a
/// listing request when navigation moved to another directory. The owner
/// reads that directory and answers through `apply_listing`.
pub struct FileExplorerOutcome {
    pub event: FileExplorerEvent,
    pub request: Option<Vec<String>>,
}

/// The command a normalized event means for the explorer: while the
/// filename dialog is open, everything goes to it; otherwise arrows move
/// and navigate, Enter confirms, Esc leaves, and `n` opens the dialog.
pub open spec fn explorer_command_of(event: GenericEvent, dialog_open: bool) -> Option<
    FileExplorerCommand,
> {
    if dialog_open {
        match text_input_action_of(event) {
            None => None,
            Some(a) => Some(FileExplorerCommand::FileNameDialogInput(a)),
        }
    } else {
        match event {
            GenericEvent::KeyPress { key, .. } => match key {
                Key::ArrowUp => Some(FileExplorerCommand::ArrowUp),
                Key::ArrowDown => Some(FileExplorerCommand::ArrowDown),
                Key::ArrowLeft => Some(FileExplorerCommand::DirectoryUp),
                Key::ArrowRight => Some(FileExplorerCommand::DirectoryDown),
                Key::Enter => Some(FileExplorerCommand::Confirm),
                Key::Esc => Some(FileExplorerCommand::Exit),
                Key::Character(c) => if c == 'n' {
                    Some(FileExplorerCommand::EnterFileName)
                } else {
                    None
                },
                _ => None,
            },
            GenericEvent::Null => None,
        }
    }
}

/// The default event-to-command translation for the explorer.
pub struct DefaultFileExplorerInputConverter;

impl<T: TypingBehaviour> RemyWidgetCommandConverter<FileExplorerState<T>>
    for DefaultFileExplorerInputConverter {
    type Event = FileExplorerCommand;

    fn convert(event: GenericEvent, state: &FileExplorerState<T>) -> (r: Option<
        FileExplorerCommand,
    >)
        ensures
            r == explorer_command_of(event, state.has_name_dialog()),
    {
        match &state.filename_input_state {
            Some(inner_state) => {
                let inner = <DefaultTextInputInputConverter as RemyWidgetCommandConverter<
                    TextInputState<T>,
                >>::convert(event, inner_state);
                match inner {
                    None => None,
                    Some(a) => Some(FileExplorerCommand::FileNameDialogInput(a)),
                }
            },
            None => {
                match event {
                    GenericEvent::KeyPress { key, .. } => {
                        match key {
                            Key::ArrowUp => Some(FileExplorerCommand::ArrowUp),
                            Key::ArrowDown => Some(FileExplorerCommand::ArrowDown),
                            Key::ArrowLeft => Some(FileExplorerCommand::DirectoryUp),
                            Key::ArrowRight => Some(FileExplorerCommand::DirectoryDown),
                            Key::Enter => Some(FileExplorerCommand::Confirm),
                            Key::Esc => Some(FileExplorerCommand::Exit),
                            Key::Character(c) => if c == 'n' {
                                Some(FileExplorerCommand::EnterFileName)
                            } else {
                                None
                            },
                            _ => None,
                        }
                    },
                    GenericEvent::Null => None,
                }
            },
        }
    }
}

/// The explorer's state: the directory being shown (as path components),
/// its listing, what is selected, the purpose of the dialog, an optional
/// filename input, the last I/O error, and the pending listing request.
pub struct FileExplorerState<T: TypingBehaviour> {
    table_state: RowViewState,
    directory: Vec<String>,
    files: Vec<FileInformation>,
    io_error: Option<String>,
    filename_input_state: Option<TextInputState<T>>,
    dialog_type: FileDialogType,
    pending_directory: Option<Vec<String>>,
    pending_select: Option<String>,
}

impl<T: TypingBehaviour> FileExplorerState<T> {
    /// The shown directory, as path components.
    pub closed spec fn directory_model(&self) -> Seq<Seq<char>> {
        path_model(self.directory@)
    }

    /// The directory's listing, as handed in.
    pub closed spec fn files_model(&self) -> Seq<FileInformation> {
        self.files@
    }

    /// The selected listing index, if any.
    pub closed spec fn selected_model(&self) -> Option<usize> {
        self.table_state.selected_model()
    }

    /// The last I/O error, if any.
    pub closed spec fn io_error_model(&self) -> Option<Seq<char>> {
        match self.io_error {
            None => None,
            Some(s) => Some(s@),
        }
    }

    /// What the dialog is for.
    pub closed spec fn dialog(&self) -> FileDialogType {
        self.dialog_type
    }

    /// Whether the filename dialog is open.
    pub closed spec fn has_name_dialog(&self) -> bool {
        self.filename_input_state is Some
    }

    /// The filename dialog's buffer, when the dialog is open.
    pub closed spec fn name_dialog_text(&self) -> Option<Seq<char>> {
        match self.filename_input_state {
            None => None,
            Some(st) => Some(st.text_model()),
        }
    }

    /// The directory whose listing was requested and not yet applied.
    pub closed spec fn pending_directory_model(&self) -> Option<Seq<Seq<char>>> {
        match self.pending_directory {
            None => None,
            Some(d) => Some(path_model(d@)),
        }
    }

    /// The entry to select once the requested listing arrives.
    pub closed spec fn pending_select_model(&self) -> Option<Seq<char>> {
        match self.pending_select {
            None => None,
            Some(s) => Some(s@),
        }
    }

    /// The filename dialog's invariants hold.
    pub closed spec fn dialog_wf(&self) -> bool {
        match self.filename_input_state {
            None => true,
            Some(st) => st.wf(),
        }
    }

    /// The selection stays within (or just past) the listing, and the
    /// dialog's own invariants hold.
    pub open spec fn wf(&self) -> bool {
        &&& match self.selected_model() {
            None => true,
            Some(s) => s <= self.files_model().len(),
        }
        &&& self.dialog_wf()
    }

    /// A fresh explorer over `directory` whose listing was just read: on
    /// success the first entry is selected; on failure the listing is empty
    /// and the error is kept for display.
    pub fn new(
        directory: Vec<String>,
        dialog_type: FileDialogType,
        listing: Result<Vec<FileInformation>, String>,
    ) -> (r: Self)
        ensures
            r.wf(),
            r.dialog() == dialog_type,
            r.directory_model() == path_model(directory@),
            !r.has_name_dialog(),
            r.pending_directory_model() is None,
            match listing {
                Ok(files) => r.files_model() == files@ && r.selected_model() == Some(0usize)
                    && r.io_error_model() is None,
                Err(msg) => r.files_model() == Seq::<FileInformation>::empty()
                    && r.selected_model() is None && r.io_error_model() == Some(msg@),
            },
    {
        match listing {
            Ok(files) => FileExplorerState {
                table_state: RowViewState { selected: Some(0), view_offset: 0 },
                directory,
                files,
                io_error: None,
                filename_input_state: None,
                dialog_type,
                pending_directory: None,
                pending_select: None,
            },
            Err(msg) => FileExplorerState {
                table_state: RowViewState { selected: None, view_offset: 0 },
                directory,
                files: Vec::new(),
                io_error: Some(msg),
                filename_input_state: None,
                dialog_type,
                pending_directory: None,
                pending_select: None,
            },
        }
    }

    /// The shown directory's components.
    pub fn directory(&self) -> (r: &Vec<String>)
        ensures
            path_model(r@) == self.directory_model(),
    {
        &self.directory
    }

    /// The listing being shown.
    pub fn files(&self) -> (r: &Vec<FileInformation>)
        ensures
            r@ == self.files_model(),
    {
        &self.files
    }

    /// The last I/O error, for display.
    pub fn io_error(&self) -> (r: &Option<String>)
        ensures
            match r {
                None => self.io_error_model() is None,
                Some(s) => self.io_error_model() == Some(s@),
            },
    {
        &self.io_error
    }

    /// What the dialog is for.
    pub fn dialog_type(&self) -> (r: FileDialogType)
        ensures
            r == self.dialog(),
    {
        self.dialog_type
    }

    /// The table's selection and scroll state.
    pub fn table_state(&self) -> (r: RowViewState)
        ensures
            r.selected_model() == self.selected_model(),
    {
        self.table_state
    }

    /// The filename dialog's visible text, selection span and cursor
    /// offset for `width` columns, when the dialog is open.
    pub fn dialog_view(&mut self, width: usize) -> (r: Option<
        (String, Option<(usize, usize)>, usize),
    >)
        requires
            old(self).wf(),
        ensures
            final(self).wf(),
            r is Some <==> old(self).has_name_dialog(),
            final(self).has_name_dialog() == old(self).has_name_dialog(),
            final(self).name_dialog_text() == old(self).name_dialog_text(),
            final(self).files_model() == old(self).files_model(),
            final(self).directory_model() == old(self).directory_model(),
            final(self).selected_model() == old(self).selected_model(),
    {
        match &mut self.filename_input_state {
            None => None,
            Some(st) => {
                let (text, sel) = st.get_visible_text(width);
                let cursor = st.get_cursor_location(width);
                Some((text, sel, cursor))
            },
        }
    }

    /// Applies the answer to the pending listing request: on success the
    /// explorer moves to the requested directory and selects the remembered
    /// entry (or the first one); on failure it stays where it was and keeps
    /// the error for display. An unrequested listing is ignored.
    pub fn apply_listing(&mut self, listing: Result<Vec<FileInformation>, String>)
        requires
            old(self).wf(),
        ensures
            final(self).wf(),
            final(self).dialog() == old(self).dialog(),
            final(self).has_name_dialog() == old(self).has_name_dialog(),
            final(self).name_dialog_text() == old(self).name_dialog_text(),
            final(self).pending_directory_model() is None,
            final(self).pending_select_model() is None,
            match old(self).pending_directory_model() {
                None => final(self).directory_model() == old(self).directory_model() && final(self).files_model() == old(self).files_model() && final(self).selected_model() == old(self).selected_model() && final(self).io_error_model() == old(self).io_error_model(),
                Some(dir) => match listing {
                    Err(msg) => final(self).io_error_model() == Some(msg@) && final(self).directory_model() == old(self).directory_model() && final(self).files_model()
                        == old(self).files_model() && final(self).selected_model() == old(self).selected_model(),
                    Ok(files) => final(self).directory_model() == dir && final(self).files_model()
                        == files@ && final(self).io_error_model() is None && final(self).selected_model() == Some(
                        (match old(self).pending_select_model() {
                            Some(name) => match find_name(files@, name) {
                                Some(i) => i,
                                None => 0int,
                            },
                            None => 0int,
                        }) as usize,
                    ),
                },
            },
    {
        let pending = self.pending_directory.take();
        let to_select = self.pending_select.take();
        match pending {
            None => {},
            Some(dir) => {
                match listing {
                    Err(msg) => {
                        self.io_error = Some(msg);
                    },
                    Ok(files) => {
                        let sel = match to_select {
                            None => 0,
                            Some(name) => find_index(&files, &name),
                        };
                        self.directory = dir;
                        self.files = files;
                        self.io_error = None;
                        self.table_state = RowViewState { selected: Some(sel), view_offset: 0 };
                    },
                }
            },
        }
    }

    /// The shown directory with `name` appended, as path components.
    fn joined_path(&self, name: String) -> (r: Vec<String>)
        ensures
            path_model(r@) == self.directory_model().push(name@),
    {
        let mut path = clone_components(&self.directory, self.directory.len());
        path.push(name);
        proof {
            assert(path_model(self.directory@).subrange(0, self.directory@.len() as int)
                =~= path_model(self.directory@));
            assert(path_model(path@) =~= self.directory_model().push(name@));
        }
        path
    }
}

impl<T: TypingBehaviour> RemyWidgetState for FileExplorerState<T> {
    type Command = FileExplorerCommand;

    type EventOutput = FileExplorerOutcome;

    open spec fn wf_state(&self) -> bool {
        self.wf()
    }

    /// One step of the explorer: arrows move the selection, left and right
    /// request the parent or the selected directory, Enter confirms what
    /// the dialog type allows, Esc leaves, `n` opens the filename dialog,
    /// and dialog input is fed through until it submits a name or is
    /// dismissed. Any command clears the displayed error.
    fn handle_native_event(&mut self, event: Option<FileExplorerCommand>) -> (r:
        FileExplorerOutcome)
        ensures
            match event {
                None => r.event is Selecting && r.request is None,
                Some(cmd) => {
                    &&& final(self).dialog() == old(self).dialog()
                    &&& final(self).io_error_model() is None
                    &&& final(self).directory_model() == old(self).directory_model()
                    &&& final(self).files_model() == old(self).files_model()
                    &&& match cmd {
                        FileExplorerCommand::ArrowUp => r.event is Selecting && r.request is None
                            && final(self).selected_model() == (match old(self).selected_model() {
                            Some(s) => if s > 0 {
                                Some((s - 1) as usize)
                            } else {
                                Some(s)
                            },
                            None => None::<usize>,
                        }),
                        FileExplorerCommand::ArrowDown => r.event is Selecting && r.request is None
                            && final(self).selected_model() == (match old(self).selected_model() {
                            Some(s) => if s + 1 < old(self).files_model().len() {
                                Some((s + 1) as usize)
                            } else {
                                Some(s)
                            },
                            None => None::<usize>,
                        }),
                        FileExplorerCommand::DirectoryUp => r.event is Selecting && ({
                            if old(self).directory_model().len() > 0 {
                                let parent = old(self).directory_model().subrange(
                                    0,
                                    old(self).directory_model().len() - 1,
                                );
                                &&& r.request matches Some(p) && path_model(p@) == parent
                                &&& final(self).pending_directory_model() == Some(parent)
                                &&& final(self).pending_select_model() == Some(
                                    old(self).directory_model().last(),
                                )
                            } else {
                                &&& r.request is None
                                &&& final(self).pending_directory_model() == old(self).pending_directory_model()
                            }
                        }),
                        FileExplorerCommand::DirectoryDown => r.event is Selecting && ({
                            let sel = old(self).selected_model();
                            let files = old(self).files_model();
                            if sel matches Some(s) && s < files.len() && files[
                                s as int
                            ].file_type is Directory {
                                let child = old(self).directory_model().push(
                                    files[sel->0 as int].name@,
                                );
                                &&& r.request matches Some(p) && path_model(p@) == child
                                &&& final(self).pending_directory_model() == Some(child)
                                &&& final(self).pending_select_model() is None
                            } else {
                                r.request is None
                            }
                        }),
                        FileExplorerCommand::Exit => r.event is Cancelled && r.request is None,
                        FileExplorerCommand::Confirm => r.request is None && ({
                            let sel = old(self).selected_model();
                            let files = old(self).files_model();
                            if sel matches Some(s) && s < files.len() {
                                let entry = files[sel->0 as int];
                                let entry_is_dir = entry.file_type is Directory
                                    || entry.file_type is DirectorySymlink;
                                let entry_is_file = entry.file_type is File
                                    || entry.file_type is FileSymlink;
                                if (entry_is_dir && !(old(self).dialog() is AskDirectory)) || (
                                entry_is_file && old(self).dialog() is AskDirectory) {
                                    r.event is Selecting
                                } else {
                                    r.event matches FileExplorerEvent::Selected(p) && path_model(
                                        p@,
                                    ) == old(self).directory_model().push(entry.name@)
                                }
                            } else {
                                r.event is Selecting
                            }
                        }),
                        FileExplorerCommand::EnterFileName => r.event is Selecting
                            && r.request is None && final(self).has_name_dialog() && final(self).name_dialog_text() == Some(Seq::<char>::empty()),
                        FileExplorerCommand::FileNameDialogInput(inner) => r.request is None && (
                        !old(self).has_name_dialog() ==> r.event is Selecting) && (old(self).has_name_dialog() ==> match inner {
                            TextInputAction::Enter => r.event
                                matches FileExplorerEvent::Selected(p) && old(self).name_dialog_text() matches Some(t) && path_model(p@) == old(self).directory_model().push(t) && final(self).has_name_dialog(),
                            TextInputAction::Esc => r.event is Selecting && !final(self).has_name_dialog(),
                            _ => r.event is Selecting && final(self).has_name_dialog(),
                        }),
                    }
                },
            },
    {
        match event {
            None => FileExplorerOutcome { event: FileExplorerEvent::Selecting, request: None },
            Some(cmd) => {
                self.io_error = None;
                match cmd {
                    FileExplorerCommand::ArrowUp => {
                        match self.table_state.selected {
                            Some(s) => {
                                if s > 0 {
                                    self.table_state.selected = Some(s - 1);
                                }
                            },
                            None => {},
                        }
                        FileExplorerOutcome { event: FileExplorerEvent::Selecting, request: None }
                    },
                    FileExplorerCommand::ArrowDown => {
                        match self.table_state.selected {
                            Some(s) => {
                                if s < self.files.len() && s + 1 < self.files.len() {
                                    self.table_state.selected = Some(s + 1);
                                }
                            },
                            None => {},
                        }
                        FileExplorerOutcome { event: FileExplorerEvent::Selecting, request: None }
                    },
                    FileExplorerCommand::DirectoryUp => {
                        let n = self.directory.len();
                        if n > 0 {
                            let parent_request = clone_components(&self.directory, n - 1);
                            let parent_pending = clone_components(&self.directory, n - 1);
                            let last = self.directory[n - 1].clone();
                            self.pending_directory = Some(parent_pending);
                            self.pending_select = Some(last);
                            FileExplorerOutcome {
                                event: FileExplorerEvent::Selecting,
                                request: Some(parent_request),
                            }
                        } else {
                            FileExplorerOutcome {
                                event: FileExplorerEvent::Selecting,
                                request: None,
                            }
                        }
                    },
                    FileExplorerCommand::DirectoryDown => {
                        let sel = self.table_state.selected;
                        match sel {
                            Some(s) => {
                                if s < self.files.len() && matches!(
                                    self.files[s].file_type,
                                    FileType::Directory,
                                ) {
                                    let child_request = self.joined_path(
                                        self.files[s].name.clone(),
                                    );
                                    let child_pending = self.joined_path(
                                        self.files[s].name.clone(),
                                    );
                                    self.pending_directory = Some(child_pending);
                                    self.pending_select = None;
                                    FileExplorerOutcome {
                                        event: FileExplorerEvent::Selecting,
                                        request: Some(child_request),
                                    }
                                } else {
                                    FileExplorerOutcome {
                                        event: FileExplorerEvent::Selecting,
                                        request: None,
                                    }
                                }
                            },
                            None => FileExplorerOutcome {
                                event: FileExplorerEvent::Selecting,
                                request: None,
                            },
                        }
                    },
                    FileExplorerCommand::Exit => FileExplorerOutcome {
                        event: FileExplorerEvent::Cancelled,
                        request: None,
                    },
                    FileExplorerCommand::Confirm => {
                        let sel = self.table_state.selected;
                        match sel {
                            Some(s) => {
                                if s < self.files.len() {
                                    let entry_type = self.files[s].file_type;
                                    let entry_is_dir = entry_type.is_dir();
                                    let entry_is_file = entry_type.is_file();
                                    if (entry_is_dir && !self.dialog_type.allow_selecting_directory())
                                        || (entry_is_file && !self.dialog_type.allow_selecting_files()) {
                                        FileExplorerOutcome {
                                            event: FileExplorerEvent::Selecting,
                                            request: None,
                                        }
                                    } else {
                                        let path = self.joined_path(self.files[s].name.clone());
                                        FileExplorerOutcome {
                                            event: FileExplorerEvent::Selected(path),
                                            request: None,
                                        }
                                    }
                                } else {
                                    FileExplorerOutcome {
                                        event: FileExplorerEvent::Selecting,
                                        request: None,
                                    }
                                }
                            },
                            None => FileExplorerOutcome {
                                event: FileExplorerEvent::Selecting,
                                request: None,
                            },
                        }
                    },
                    FileExplorerCommand::EnterFileName => {
                        self.filename_input_state = Some(TextInputState::default());
                        FileExplorerOutcome { event: FileExplorerEvent::Selecting, request: None }
                    },
                    FileExplorerCommand::FileNameDialogInput(inner) => {
                        let result = match &mut self.filename_input_state {
                            None => None,
                            Some(st) => Some(st.handle_native_event(Some(inner))),
                        };
                        match result {
                            None => FileExplorerOutcome {
                                event: FileExplorerEvent::Selecting,
                                request: None,
                            },
                            Some(TextInputEvent::Submitted(filename)) => {
                                let path = self.joined_path(filename);
                                FileExplorerOutcome {
                                    event: FileExplorerEvent::Selected(path),
                                    request: None,
                                }
                            },
                            Some(TextInputEvent::Cancelled) => {
                                self.filename_input_state = None;
                                FileExplorerOutcome {
                                    event: FileExplorerEvent::Selecting,
                                    request: None,
                                }
                            },
                            Some(TextInputEvent::Typing) => FileExplorerOutcome {
                                event: FileExplorerEvent::Selecting,
                                request: None,
                            },
                        }
                    },
                }
            },
        }
    }
}

/// The file-explorer widget front: rendering-policy only, parameterized by
/// the typing behaviour its filename dialog uses.
#[derive(Debug)]
pub struct FileExplorer<T: TypingBehaviour> {
    _behaviour: core::marker::PhantomData<T>,
}

impl<T: TypingBehaviour> FileExplorer<T> {
    /// A fresh widget front.
    pub fn new() -> (r: Self) {
        FileExplorer { _behaviour: core::marker::PhantomData }
    }
}

} // verus!
