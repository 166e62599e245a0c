use vstd::prelude::*;
use crate::command::{CommandError, CommandRequest, LaunchRequest, command_outcome, parse_command};
use crate::drives::{DriveEntry, Drives};
use crate::explorer::{EntryRef, Explorer, PasteJob};
use crate::field::{Command, InputMode, Key, KeyPress, PathField, field_after_key};
use crate::help_overview::HelpOverview;
use crate::focus::{CurrentWidget, FocusableWidget, widget_after};
use crate::listing::{EntryType, FileEntry};
use crate::log_panel::LogPanel;
use crate::open_files::{FileOptions, handle_file_open};
use crate::paths::{parent_of, parent_path};
use crate::quick_access::{QAFileEntry, QuickAccess, visited};
use crate::selection::{fresh_selection, start_selection};

verus! {

/// Work outside the process that a key asks for. The caller performs it and
/// hands the outcome back to the matching method of `App`.
#[derive(Debug, Clone)]
pub enum Action {
    /// Nothing to do.
    Idle,
    /// Save the quick-access bookmarks; the application stops.
    Quit,
    /// Go to the path typed in the path field, if it exists: to the path
    /// itself when it is a directory, else to its parent (see `directory_of`
    /// and `navigate_to`).
    OpenPath(String),
    /// Go to this directory (see `navigate_to`).
    Navigate(String),
    /// List this directory again for the directory table (see `relist`).
    Relist(String),
    /// Start a program on a file.
    Launch(LaunchRequest),
    /// Copy `source` to `destination`, then hand the outcome to
    /// `finish_paste`.
    Paste(PasteJob),
    /// Remove an entry, then hand the outcome to `finish_delete`.
    Delete(EntryRef),
    /// Create an empty file that must not exist yet (see `finish_command`).
    CreateFile(String),
    /// List the mounted volumes again (see `Drives::refresh`).
    RefreshDrives,
}

/// Every panel and the focus between them.
pub struct App {
    pub exit: bool,
    pub quick_access: QuickAccess,
    pub path_field: PathField,
    pub command: Command,
    pub explorer: Explorer,
    pub drives: Drives,
    pub focus_on: CurrentWidget,
    pub include_hidden: bool,
    pub log_panel: LogPanel,
    pub help_overview: HelpOverview,
    pub help_shown: bool,
    pub file_options: FileOptions,
}

impl FocusableWidget for Explorer {
    open spec fn focused(&self) -> bool {
        self.in_focus
    }

    fn on_focus(&self) -> (r: bool) {
        self.in_focus
    }
}

impl FocusableWidget for Drives {
    open spec fn focused(&self) -> bool {
        self.in_focus
    }

    fn on_focus(&self) -> (r: bool) {
        self.in_focus
    }
}

impl FocusableWidget for QuickAccess {
    open spec fn focused(&self) -> bool {
        self.in_focus
    }

    fn on_focus(&self) -> (r: bool) {
        self.in_focus
    }
}

impl FocusableWidget for PathField {
    open spec fn focused(&self) -> bool {
        self.in_focus
    }

    fn on_focus(&self) -> (r: bool) {
        self.in_focus
    }
}

impl FocusableWidget for Command {
    open spec fn focused(&self) -> bool {
        self.in_focus
    }

    fn on_focus(&self) -> (r: bool) {
        self.in_focus
    }
}

/// Whether the panel `w` holds its focus flag.
pub open spec fn flag_of(app: App, w: CurrentWidget) -> bool {
    match w {
        CurrentWidget::Explorer => app.explorer.in_focus,
        CurrentWidget::PathField => app.path_field.in_focus,
        CurrentWidget::Drives => app.drives.in_focus,
        CurrentWidget::QuickAccess => app.quick_access.in_focus,
        CurrentWidget::CommandBar => app.command.in_focus,
    }
}

/// Exactly the focused panel holds its focus flag.
pub open spec fn focus_consistent(app: App) -> bool {
    &&& app.explorer.in_focus == (app.focus_on == CurrentWidget::Explorer)
    &&& app.path_field.in_focus == (app.focus_on == CurrentWidget::PathField)
    &&& app.drives.in_focus == (app.focus_on == CurrentWidget::Drives)
    &&& app.quick_access.in_focus == (app.focus_on == CurrentWidget::QuickAccess)
    &&& app.command.in_focus == (app.focus_on == CurrentWidget::CommandBar)
}

/// A text field is in editing mode only while it holds the focus.
pub open spec fn editing_confined(app: App) -> bool {
    &&& app.path_field.input_mode == InputMode::Editing ==> app.focus_on == CurrentWidget::PathField
    &&& app.command.input_mode == InputMode::Editing ==> app.focus_on == CurrentWidget::CommandBar
}

/// The focused panel is a text field in editing mode.
pub open spec fn typing(app: App) -> bool {
    ||| app.focus_on == CurrentWidget::PathField && app.path_field.input_mode == InputMode::Editing
    ||| app.focus_on == CurrentWidget::CommandBar && app.command.input_mode == InputMode::Editing
}

/// Everything but the focus flags and the text fields' modes is alike.
pub open spec fn same_but_focus(a: App, b: App) -> bool {
    &&& a.exit == b.exit
    &&& a.include_hidden == b.include_hidden
    &&& a.log_panel == b.log_panel
    &&& a.help_shown == b.help_shown
    &&& a.help_overview == b.help_overview
    &&& a.file_options == b.file_options
    &&& a.quick_access.entries == b.quick_access.entries
    &&& a.quick_access.selected == b.quick_access.selected
    &&& a.path_field.input == b.path_field.input
    &&& a.command.input == b.command.input
    &&& a.explorer.root_path == b.explorer.root_path
    &&& a.explorer.include_hidden == b.explorer.include_hidden
    &&& a.explorer.files == b.explorer.files
    &&& a.explorer.selected == b.explorer.selected
    &&& a.explorer.clipboard == b.explorer.clipboard
    &&& a.drives.drives == b.drives.drives
    &&& a.drives.selected == b.drives.selected
}

/// Everything but the directory table, the log and the focus is alike.
pub open spec fn others_kept(a: App, b: App) -> bool {
    &&& a.exit == b.exit
    &&& a.include_hidden == b.include_hidden
    &&& a.help_shown == b.help_shown
    &&& a.help_overview == b.help_overview
    &&& a.file_options == b.file_options
    &&& a.quick_access == b.quick_access
    &&& a.drives == b.drives
    &&& a.path_field == b.path_field
    &&& a.command == b.command
}

/// The contents of every panel are alike: listings, selections, clipboard,
/// bookmarks, the command bar's text and the settings. Focus flags, modes,
/// the log and the path field may differ.
pub open spec fn panels_kept(a: App, b: App) -> bool {
    &&& a.include_hidden == b.include_hidden
    &&& a.file_options == b.file_options
    &&& a.explorer.root_path == b.explorer.root_path
    &&& a.explorer.include_hidden == b.explorer.include_hidden
    &&& a.explorer.files == b.explorer.files
    &&& a.explorer.selected == b.explorer.selected
    &&& a.explorer.clipboard == b.explorer.clipboard
    &&& a.quick_access.entries == b.quick_access.entries
    &&& a.quick_access.selected == b.quick_access.selected
    &&& a.drives.drives == b.drives.drives
    &&& a.drives.selected == b.drives.selected
    &&& a.command.input == b.command.input
}

/// Flips the focused panel's focus flag; a text field that loses it leaves
/// editing mode.
pub fn focus_toggler(app: &mut App)
    ensures
        final(app).focus_on == old(app).focus_on,
        same_but_focus(*final(app), *old(app)),
        forall|w: CurrentWidget| #[trigger] flag_of(*final(app), w)
            == if w == old(app).focus_on { !flag_of(*old(app), w) } else { flag_of(*old(app), w) },
        final(app).path_field.input_mode == if old(app).focus_on == CurrentWidget::PathField
            && old(app).path_field.in_focus { InputMode::Normal } else { old(app).path_field.input_mode },
        final(app).command.input_mode == if old(app).focus_on == CurrentWidget::CommandBar
            && old(app).command.in_focus { InputMode::Normal } else { old(app).command.input_mode },
{
    match app.focus_on {
        CurrentWidget::CommandBar => {
            app.command.in_focus = !app.command.in_focus;
            if !app.command.in_focus {
                app.command.input_mode = InputMode::Normal;
            }
        },
        CurrentWidget::Explorer => app.explorer.in_focus = !app.explorer.in_focus,
        CurrentWidget::PathField => {
            app.path_field.in_focus = !app.path_field.in_focus;
            if !app.path_field.in_focus {
                app.path_field.input_mode = InputMode::Normal;
            }
        },
        CurrentWidget::QuickAccess => app.quick_access.in_focus = !app.quick_access.in_focus,
        CurrentWidget::Drives => app.drives.in_focus = !app.drives.in_focus,
    }
}

/// Moves the focus to `widg`: the panel that held it loses its flag (and a text
/// field its editing mode), then `widg` gets it.
pub fn focus_to(app: &mut App, widg: CurrentWidget)
    requires
        focus_consistent(*old(app)),
        editing_confined(*old(app)),
    ensures
        final(app).focus_on == widg,
        focus_consistent(*final(app)),
        editing_confined(*final(app)),
        same_but_focus(*final(app), *old(app)),
        final(app).path_field.input_mode == InputMode::Normal,
        final(app).command.input_mode == InputMode::Normal,
{
    let ghost start = *app;
    proof {
        assert(flag_of(start, start.focus_on));
    }
    focus_toggler(app);
    let ghost mid = *app;
    proof {
        assert forall|w: CurrentWidget| !(#[trigger] flag_of(mid, w)) by {
            assert(flag_of(start, w) == (w == start.focus_on));
        }
    }
    app.focus_on = widg;
    let ghost moved = *app;
    proof {
        assert forall|w: CurrentWidget| !(#[trigger] flag_of(moved, w)) by {
            assert(!flag_of(mid, w));
        }
        assert(!flag_of(moved, widg));
    }
    focus_toggler(app);
    proof {
        assert(!flag_of(moved, CurrentWidget::Explorer));
        assert(!flag_of(moved, CurrentWidget::PathField));
        assert(!flag_of(moved, CurrentWidget::Drives));
        assert(!flag_of(moved, CurrentWidget::QuickAccess));
        assert(!flag_of(moved, CurrentWidget::CommandBar));
        assert(flag_of(*app, CurrentWidget::Explorer) == (widg == CurrentWidget::Explorer));
        assert(flag_of(*app, CurrentWidget::PathField) == (widg == CurrentWidget::PathField));
        assert(flag_of(*app, CurrentWidget::Drives) == (widg == CurrentWidget::Drives));
        assert(flag_of(*app, CurrentWidget::QuickAccess) == (widg == CurrentWidget::QuickAccess));
        assert(flag_of(*app, CurrentWidget::CommandBar) == (widg == CurrentWidget::CommandBar));
    }
}

/// The directory a path stands for: the path itself when it is a directory,
/// else the directory that holds it (`.` where it has none).
pub open spec fn directory_for(path: Seq<char>, is_dir: bool) -> Seq<char> {
    if is_dir {
        path
    } else {
        match parent_path(path) {
            Some(p) => p,
            None => "."@,
        }
    }
}

/// The directory a path stands for (see `directory_for`).
pub fn directory_of(path: &String, is_dir: bool) -> (r: String)
    ensures
        r@ == directory_for(path@, is_dir),
{
    if is_dir {
        path.clone()
    } else {
        match parent_of(path) {
            Some(p) => p,
            None => String::from_str("."),
        }
    }
}

/// What Enter asks for, by the focused panel.
pub open spec fn enter_outcome(app: App, r: Action) -> bool {
    match app.focus_on {
        CurrentWidget::PathField => r == Action::OpenPath(app.path_field.input.value),
        CurrentWidget::Explorer => match app.explorer.selected {
            None => r is Idle,
            Some(i) => {
                let e = app.explorer.files@[i as int];
                let path = crate::paths::joined_path(app.explorer.root_path@, e.name@);
                if e.e_type == EntryType::Dir {
                    r is Navigate && r->Navigate_0@ == path
                } else {
                    match crate::paths::path_extension(path) {
                        None => r is Idle,
                        Some(ext) => match crate::open_files::option_for(app.file_options, crate::open_files::lower_of(ext)) {
                            None => r is Idle,
                            Some(cmd) => r is Launch && crate::command::launch_of(cmd@, path, r->Launch_0),
                        },
                    }
                }
            },
        },
        CurrentWidget::Drives => match app.drives.selected {
            None => r is Idle,
            Some(i) => r == Action::Navigate(app.drives.drives@[i as int].mount_point),
        },
        CurrentWidget::QuickAccess => match app.quick_access.selected {
            None => r is Idle,
            Some(i) => r == Action::Navigate(app.quick_access.entries@[i as int].path),
        },
        CurrentWidget::CommandBar => match r {
            Action::CreateFile(path) => command_outcome(app.command.input.value@, app.path_field.input.value@,
                Ok(CommandRequest::CreateFile { path })),
            Action::Idle => exists|e: crate::command::CommandError|
                command_outcome(app.command.input.value@, app.path_field.input.value@, Err(e)),
            _ => false,
        },
    }
}

/// Runs the command bar's text on Enter, in the path field's directory: a
/// command that is accepted is handed back as the file operation it asks for;
/// one that is not leaves its text for correction and says why in the log.
pub fn handle_command_enter(app: &mut App) -> (r: Action)
    requires
        old(app).well_formed(),
    ensures
        final(app).well_formed(),
        r is CreateFile ==> command_outcome(old(app).command.input.value@, old(app).path_field.input.value@,
            Ok(CommandRequest::CreateFile { path: r->CreateFile_0 })),
        r is CreateFile ==> final(app).log_panel == old(app).log_panel,
        r is Idle ==> exists|e: CommandError| {
            &&& command_outcome(old(app).command.input.value@, old(app).path_field.input.value@, Err(e))
            &&& final(app).log_panel.msg@ == crate::command::command_error_message(e)
        },
        r is CreateFile || r is Idle,
        final(app).command == old(app).command,
        final(app).path_field == old(app).path_field,
        final(app).explorer == old(app).explorer,
        final(app).quick_access == old(app).quick_access,
        final(app).focus_on == old(app).focus_on,
        final(app).exit == old(app).exit,
        final(app).help_shown == old(app).help_shown,
        others_kept(*final(app), *old(app)),
{
    match parse_command(&app.command.input.value, &app.path_field.input.value) {
        Ok(CommandRequest::CreateFile { path }) => Action::CreateFile(path),
        Err(e) => {
            app.log_panel.set_log(e.message());
            Action::Idle
        },
    }
}

impl App {
    pub open spec fn well_formed(&self) -> bool {
        &&& self.explorer.well_formed()
        &&& self.quick_access.well_formed()
        &&& self.drives.well_formed()
        &&& self.path_field.well_formed()
        &&& self.command.well_formed()
        &&& focus_consistent(*self)
        &&& editing_confined(*self)
        &&& self.help_overview.well_formed()
    }

    /// The application at start: the directory table lists `path` and holds
    /// the focus, the path field shows `path`, the command bar is empty.
    pub fn new(
        path: &String,
        include_hidden: bool,
        entries: Vec<FileEntry>,
        bookmarks: Vec<QAFileEntry>,
        drives: Vec<DriveEntry>,
        file_options: FileOptions,
        help_max_scroll: u16,
    ) -> (r: App)
        requires
            path@.len() < usize::MAX,
        ensures
            r.well_formed(),
            r.focus_on == CurrentWidget::Explorer,
            r.path_field.input.value@ == path@,
            r.explorer.root_path@ == path@,
            r.explorer.files@ == crate::explorer::listing_rows(entries@, include_hidden),
            r.quick_access.entries == bookmarks,
            r.drives.drives == drives,
            !r.exit,
            !r.help_shown,
    {
        let app = App {
            exit: false,
            quick_access: QuickAccess::new(bookmarks),
            path_field: PathField::new(path),
            command: Command::new(),
            explorer: Explorer::new(path, include_hidden, entries),
            drives: Drives::new(drives),
            focus_on: CurrentWidget::Explorer,
            include_hidden,
            log_panel: LogPanel::new(),
            help_overview: HelpOverview::new(help_max_scroll),
            help_shown: false,
            file_options,
        };
        app
    }

    /// Goes to the directory `dir`, listed as `entries`: the path field shows
    /// it, the directory table lists it and takes the focus, and the visit is
    /// recorded among the bookmarks (`alive` tells for each bookmark whether
    /// its directory still exists).
    pub fn navigate_to(&mut self, dir: &String, entries: Vec<FileEntry>, alive: &Vec<bool>)
        requires
            old(self).well_formed(),
            dir@.len() < usize::MAX,
            alive@.len() == old(self).quick_access.entries@.len(),
        ensures
            final(self).well_formed(),
            final(self).path_field.input.value@ == dir@,
            final(self).explorer.root_path@ == dir@,
            final(self).explorer.files@ == crate::explorer::listing_rows(entries@, old(self).include_hidden),
            final(self).explorer.selected == start_selection(final(self).explorer.files@.len()),
            final(self).explorer.clipboard == old(self).explorer.clipboard,
            final(self).focus_on == CurrentWidget::Explorer,
            old(self).quick_access.entries@.len() + 1 < usize::MAX ==> visited(
                old(self).quick_access.entries@, alive@, dir@, final(self).quick_access.entries@),
    {
        self.path_field.set_value(dir.clone());
        self.explorer.refresh(dir, self.include_hidden, entries);
        focus_to(self, CurrentWidget::Explorer);
        if self.quick_access.entries.len() < usize::MAX - 1 {
            self.quick_access.record_visit(dir, alive);
        }
    }

    /// Lists `dir`, read as `entries`, in the directory table; the focus stays.
    pub fn relist(&mut self, dir: &String, entries: Vec<FileEntry>)
        requires
            old(self).well_formed(),
        ensures
            final(self).well_formed(),
            final(self).explorer.root_path@ == dir@,
            final(self).explorer.files@ == crate::explorer::listing_rows(entries@, old(self).include_hidden),
            final(self).explorer.selected == start_selection(final(self).explorer.files@.len()),
            final(self).explorer.clipboard == old(self).explorer.clipboard,
            final(self).explorer.in_focus == old(self).explorer.in_focus,
            final(self).explorer.include_hidden == old(self).explorer.include_hidden,
            final(self).focus_on == old(self).focus_on,
            final(self).log_panel == old(self).log_panel,
            others_kept(*final(self), *old(self)),
    {
        self.explorer.refresh(dir, self.include_hidden, entries);
    }

    /// Shows `msg` in the log.
    pub fn report(&mut self, msg: String)
        requires
            old(self).well_formed(),
        ensures
            final(self).well_formed(),
            final(self).log_panel.msg == msg,
    {
        self.log_panel.set_log(msg);
    }

    /// Takes back the outcome of a paste's copy: `copy_error` tells why it
    /// failed, if it did, and goes to the log. What follows is handed back: the
    /// removal of a cut's source whose copy went through (see
    /// `Explorer::finish_paste`), else listing the directory again, so that a
    /// paste always ends with a fresh listing.
    pub fn finish_paste(&mut self, copy_error: Option<String>) -> (r: Action)
        requires
            old(self).well_formed(),
        ensures
            final(self).well_formed(),
            final(self).explorer.clipboard == crate::explorer::clipboard_after_paste(
                old(self).explorer.clipboard, copy_error.is_none()),
            match crate::explorer::removal_after_paste(old(self).explorer.clipboard, copy_error.is_none()) {
                Some((path, kind)) => r is Delete && r->Delete_0.path@ == path && r->Delete_0.kind == kind,
                None => r == Action::Relist(old(self).explorer.root_path),
            },
            copy_error.is_some() ==> final(self).log_panel.msg == copy_error->Some_0,
            copy_error.is_none() ==> final(self).log_panel == old(self).log_panel,
            final(self).explorer.files == old(self).explorer.files,
            final(self).explorer.root_path == old(self).explorer.root_path,
            final(self).explorer.selected == old(self).explorer.selected,
            final(self).explorer.in_focus == old(self).explorer.in_focus,
            final(self).explorer.include_hidden == old(self).explorer.include_hidden,
            final(self).focus_on == old(self).focus_on,
            others_kept(*final(self), *old(self)),
    {
        let copied = copy_error.is_none();
        if let Some(msg) = copy_error {
            self.log_panel.set_log(msg);
        }
        match self.explorer.finish_paste(copied) {
            Some(removal) => Action::Delete(removal),
            None => Action::Relist(self.explorer.root_path.clone()),
        }
    }

    /// Takes back the outcome of a removal: `error` tells why it failed, if it
    /// did, and goes to the log. Listing the directory again follows either way.
    pub fn finish_delete(&mut self, error: Option<String>) -> (r: Action)
        requires
            old(self).well_formed(),
        ensures
            final(self).well_formed(),
            r == Action::Relist(old(self).explorer.root_path),
            error.is_some() ==> final(self).log_panel.msg == error->Some_0,
            error.is_none() ==> final(self).log_panel == old(self).log_panel,
            final(self).explorer == old(self).explorer,
            final(self).focus_on == old(self).focus_on,
            others_kept(*final(self), *old(self)),
    {
        if let Some(msg) = error {
            self.log_panel.set_log(msg);
        }
        Action::Relist(self.explorer.root_path.clone())
    }

    /// Takes back whether the file the command bar asked for was created: the
    /// log says so, the command text is cleared, and the directory table lists
    /// the path field's directory, read as `entries`.
    pub fn finish_command(&mut self, created: bool, entries: Vec<FileEntry>)
        requires
            old(self).well_formed(),
        ensures
            final(self).well_formed(),
            final(self).log_panel.msg@ == crate::command::creation_message(created),
            final(self).command.input.value@ == Seq::<char>::empty(),
            final(self).explorer.root_path@ == old(self).path_field.input.value@,
            final(self).explorer.files@ == crate::explorer::listing_rows(entries@, old(self).include_hidden),
            final(self).explorer.selected == start_selection(final(self).explorer.files@.len()),
            final(self).explorer.clipboard == old(self).explorer.clipboard,
            final(self).focus_on == old(self).focus_on,
            final(self).path_field == old(self).path_field,
            final(self).quick_access == old(self).quick_access,
    {
        self.log_panel.set_log(crate::command::creation_report(created));
        self.command.input.reset();
        let dir = self.path_field.input.value.clone();
        self.explorer.refresh(&dir, self.include_hidden, entries);
    }

    fn enter_key(&mut self) -> (r: Action)
        requires
            old(self).well_formed(),
        ensures
            final(self).well_formed(),
            enter_outcome(*old(self), r),
            final(self).focus_on == old(self).focus_on,
            final(self).explorer == old(self).explorer,
            final(self).quick_access.entries == old(self).quick_access.entries,
            final(self).exit == old(self).exit,
            final(self).help_shown == old(self).help_shown,
            final(self).path_field == old(self).path_field,
            final(self).command == old(self).command,
            old(self).focus_on != CurrentWidget::CommandBar || r is CreateFile ==> final(self).log_panel == old(self).log_panel,
            old(self).focus_on == CurrentWidget::CommandBar && r is Idle ==> exists|e: CommandError|
                final(self).log_panel.msg@ == crate::command::command_error_message(e),
            old(self).focus_on == CurrentWidget::QuickAccess && old(self).quick_access.selected.is_some()
                ==> final(self).quick_access.selected == start_selection(old(self).quick_access.entries@.len()),
    {
        match self.focus_on {
            CurrentWidget::PathField => Action::OpenPath(self.path_field.input.value.clone()),
            CurrentWidget::Explorer => match self.explorer.selected_entry() {
                None => Action::Idle,
                Some(e) => {
                    if e.kind == EntryType::Dir {
                        Action::Navigate(e.path)
                    } else {
                        match handle_file_open(&e.path, &self.file_options) {
                            Some(l) => Action::Launch(l),
                            None => Action::Idle,
                        }
                    }
                },
            },
            CurrentWidget::Drives => match self.drives.selected {
                None => Action::Idle,
                Some(i) => Action::Navigate(self.drives.drives[i].mount_point.clone()),
            },
            CurrentWidget::QuickAccess => match self.quick_access.selected {
                None => Action::Idle,
                Some(i) => {
                    let path = self.quick_access.entries[i].path.clone();
                    self.quick_access.selected = fresh_selection(self.quick_access.entries.len());
                    Action::Navigate(path)
                },
            },
            CurrentWidget::CommandBar => handle_command_enter(self),
        }
    }

    /// Handles one key press. While help is shown, `q` closes it and `j`/`k`
    /// scroll it; nothing else happens. Otherwise Tab moves the focus on and
    /// Enter asks for the focused panel's action (see `enter_outcome`); unless
    /// a text field is being edited, `:` and `a` start editing the command bar
    /// and the path field, Backspace goes to the parent directory, `h` shows
    /// help and `q` quits; every other key goes to the focused panel. The log
    /// is cleared first.
    pub fn handle_key(&mut self, press: KeyPress) -> (r: Action)
        requires
            old(self).well_formed(),
        ensures
            final(self).well_formed(),
            old(self).help_shown ==> {
                &&& r is Idle
                &&& final(self).help_shown == (press.key != Key::Char('q'))
                &&& final(self).help_overview.max_scroll == old(self).help_overview.max_scroll
                &&& final(self).help_overview.scroll == if press.key == Key::Char('j') || press.key == Key::Down {
                    if old(self).help_overview.scroll < old(self).help_overview.max_scroll {
                        (old(self).help_overview.scroll + 1) as u16
                    } else {
                        old(self).help_overview.scroll
                    }
                } else if press.key == Key::Char('k') || press.key == Key::Up {
                    if old(self).help_overview.scroll > 0 { (old(self).help_overview.scroll - 1) as u16 } else { 0u16 }
                } else {
                    old(self).help_overview.scroll
                }
                &&& final(self).focus_on == old(self).focus_on
                &&& final(self).explorer == old(self).explorer
                &&& final(self).path_field == old(self).path_field
                &&& final(self).command == old(self).command
                &&& final(self).exit == old(self).exit
                &&& panels_kept(*final(self), *old(self))
            },
            !old(self).help_shown && (press.key == Key::Tab || !typing(*old(self)) && (press.key == Key::Char(':')
                || press.key == Key::Char('a') || press.key == Key::Char('h') || press.key == Key::Char('q')
                || press.key == Key::Backspace)) ==> {
                &&& panels_kept(*final(self), *old(self))
                &&& press.key != Key::Backspace ==> final(self).path_field.input == old(self).path_field.input
                &&& press.key != Key::Char('q') ==> final(self).exit == old(self).exit
                &&& press.key != Key::Char('h') ==> !final(self).help_shown
            },
            old(self).help_shown || press.key != Key::Enter || old(self).focus_on != CurrentWidget::CommandBar || r is CreateFile
                ==> final(self).log_panel.msg@ == Seq::<char>::empty(),
            !old(self).help_shown && press.key == Key::Enter && old(self).focus_on == CurrentWidget::CommandBar && r is Idle
                ==> exists|e: CommandError| final(self).log_panel.msg@ == crate::command::command_error_message(e),
            !old(self).help_shown && press.key == Key::Tab ==> r is Idle && final(self).focus_on == widget_after(old(self).focus_on),
            !old(self).help_shown && press.key == Key::Enter ==> {
                &&& enter_outcome(*old(self), r)
                &&& final(self).quick_access.entries == old(self).quick_access.entries
                &&& final(self).explorer == old(self).explorer
                &&& final(self).focus_on == old(self).focus_on
                &&& final(self).command == old(self).command
                &&& final(self).path_field == old(self).path_field
                &&& final(self).exit == old(self).exit && !final(self).help_shown
            },
            !old(self).help_shown && !typing(*old(self)) && press.key == Key::Char(':') ==> r is Idle
                && final(self).focus_on == CurrentWidget::CommandBar && final(self).command.input_mode == InputMode::Editing,
            !old(self).help_shown && !typing(*old(self)) && press.key == Key::Char('a') ==> r is Idle
                && final(self).focus_on == CurrentWidget::PathField && final(self).path_field.input_mode == InputMode::Editing,
            !old(self).help_shown && !typing(*old(self)) && press.key == Key::Char('h') ==> r is Idle && final(self).help_shown,
            !old(self).help_shown && !typing(*old(self)) && press.key == Key::Char('q') ==> r is Quit && final(self).exit,
            !old(self).help_shown && !typing(*old(self)) && press.key == Key::Backspace ==> match parent_path(old(self).path_field.input.value@) {
                Some(p) => r is Relist && r->Relist_0@ == p && (p.len() < usize::MAX ==> final(self).path_field.input.value@ == p),
                None => r is Idle,
            },
            !old(self).help_shown && !(press.key == Key::Tab || press.key == Key::Enter) && (typing(*old(self)) || !(press.key == Key::Char(':')
                || press.key == Key::Char('a') || press.key == Key::Char('h') || press.key == Key::Char('q') || press.key == Key::Backspace)) ==> {
                &&& final(self).focus_on == old(self).focus_on
                &&& final(self).exit == old(self).exit
                &&& !final(self).help_shown
                &&& final(self).quick_access.entries == old(self).quick_access.entries
                &&& old(self).focus_on == CurrentWidget::Explorer
                    ==> crate::explorer::explorer_key_outcome(old(self).explorer, final(self).explorer, press.key, r)
                &&& old(self).focus_on == CurrentWidget::Drives ==> if press.key == Key::Char('r') { r is RefreshDrives } else { r is Idle }
                &&& old(self).focus_on == CurrentWidget::Drives ==> crate::selection::list_key_outcome(old(self).drives.selected,
                    final(self).drives.selected, old(self).drives.drives@.len(), press.key)
                &&& old(self).focus_on == CurrentWidget::QuickAccess ==> r is Idle && crate::selection::list_key_outcome(
                    old(self).quick_access.selected, final(self).quick_access.selected, old(self).quick_access.entries@.len(), press.key)
                &&& old(self).focus_on == CurrentWidget::PathField ==> r is Idle
                    && (final(self).path_field.input_mode, final(self).path_field.input.value@, final(self).path_field.input.cursor as nat)
                    == field_after_key(old(self).path_field.input_mode, old(self).path_field.input.value@,
                        old(self).path_field.input.cursor as nat, press)
                &&& old(self).focus_on == CurrentWidget::CommandBar ==> r is Idle
                    && (final(self).command.input_mode, final(self).command.input.value@, final(self).command.input.cursor as nat)
                    == field_after_key(old(self).command.input_mode, old(self).command.input.value@,
                        old(self).command.input.cursor as nat, press)
            },
    {
        let k = press.key;
        self.log_panel.clear_log();
        if self.help_shown {
            if k == Key::Char('q') {
                self.help_shown = false;
            } else if k == Key::Char('j') || k == Key::Down {
                self.help_overview.scroll_down();
            } else if k == Key::Char('k') || k == Key::Up {
                self.help_overview.scroll_up();
            }
            return Action::Idle;
        }
        let typing = (self.focus_on == CurrentWidget::CommandBar && self.command.input_mode == InputMode::Editing)
            || (self.focus_on == CurrentWidget::PathField && self.path_field.input_mode == InputMode::Editing);
        if k == Key::Tab {
            let next = self.focus_on.next();
            focus_to(self, next);
            return Action::Idle;
        }
        if k == Key::Enter {
            return self.enter_key();
        }
        if !typing {
            if k == Key::Char(':') {
                focus_to(self, CurrentWidget::CommandBar);
                self.command.input_mode = InputMode::Editing;
                return Action::Idle;
            } else if k == Key::Char('a') {
                focus_to(self, CurrentWidget::PathField);
                self.path_field.input_mode = InputMode::Editing;
                return Action::Idle;
            } else if k == Key::Char('h') {
                self.help_shown = true;
                return Action::Idle;
            } else if k == Key::Char('q') {
                self.exit = true;
                return Action::Quit;
            } else if k == Key::Backspace {
                return match parent_of(&self.path_field.input.value) {
                    Some(p) => {
                        if p.as_str().unicode_len() < usize::MAX {
                            self.path_field.set_value(p.clone());
                        }
                        Action::Relist(p)
                    },
                    None => Action::Idle,
                };
            }
        }
        match self.focus_on {
            CurrentWidget::Explorer => self.explorer.handle_input(k),
            CurrentWidget::PathField => {
                self.path_field.handle_input(press);
                Action::Idle
            },
            CurrentWidget::CommandBar => {
                self.command.handle_input(press);
                Action::Idle
            },
            CurrentWidget::Drives => self.drives.handle_input(k),
            CurrentWidget::QuickAccess => {
                self.quick_access.handle_input(k);
                Action::Idle
            },
        }
    }
}

} // verus!
