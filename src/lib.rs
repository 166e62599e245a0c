//! A terminal file manager's core: panels with selectable rows, editable
//! fields, the directory table's clipboard protocol, quick-access bookkeeping,
//! the command bar's interpreter and the focus coordinator.
//!
//! Everything that touches the filesystem or the terminal is performed by the
//! caller: the functions here decide what to do and take the outcome back as
//! plain values.

pub mod selection;
pub mod paths;
pub mod listing;
pub mod explorer;
pub mod field;
pub mod command;
pub mod open_files;
pub mod log_panel;
pub mod drives;
pub mod quick_access;
pub mod help_overview;
pub mod focus;
pub mod state;

pub use selection::{next_selection, previous_selection, fresh_selection};
pub use listing::{
    EntryType, FileEntry, PathFacts, SizeLabel, find_length, get_data, get_files, leave_hidden,
    only_hidden,
};
pub use explorer::{Clipboard, EntryRef, Explorer, PasteJob, paste_name};
pub use quick_access::{QAFileEntry, QuickAccess, QUICK_ACCESS_LIMIT, top_entries, update_qa_files};
pub use field::{Command, EditRequest, InputMode, Key, KeyPress, PathField, TextInput};
pub use command::{
    CommandError, CommandRequest, LaunchRequest, creation_report, launch_request, parse_command,
    split_command, split_words,
};
pub use open_files::{FileOptions, command_for, handle_file_open, launch_for_extension};
pub use log_panel::LogPanel;
pub use drives::{DriveEntry, Drives};
pub use focus::{CurrentWidget, FocusableWidget};
pub use state::{Action, App, directory_of, focus_to, focus_toggler, handle_command_enter};
pub use help_overview::HelpOverview;
