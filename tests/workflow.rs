use columbus::{
    get_data, get_files, leave_hidden, only_hidden, find_length, PathFacts, SizeLabel, EntryType,
    FileEntry, split_command, split_words, parse_command, CommandRequest, CommandError,
    creation_report, handle_file_open, launch_request, launch_for_extension, FileOptions,
    TextInput, EditRequest, Key, KeyPress, InputMode, PathField, Command, CurrentWidget,
    App, Action, focus_to, directory_of, QAFileEntry, DriveEntry, handle_command_enter, HelpOverview,
};

/// The press of a key without modifiers, with the edit tui-input maps it to.
fn press(k: Key) -> KeyPress {
    let edit = match k {
        Key::Char(c) => Some(EditRequest::InsertChar(c)),
        Key::Backspace => Some(EditRequest::DeletePrevChar),
        Key::Delete => Some(EditRequest::DeleteNextChar),
        Key::Left => Some(EditRequest::GoToPrevChar),
        Key::Right => Some(EditRequest::GoToNextChar),
        Key::Home => Some(EditRequest::GoToStart),
        Key::End => Some(EditRequest::GoToEnd),
        _ => None,
    };
    KeyPress { key: k, edit }
}

fn entry(name: &str, kind: EntryType, hidden: bool) -> FileEntry {
    FileEntry {
        e_type: kind,
        name: name.to_string(),
        size: String::new(),
        modified_at: String::new(),
        hidden,
        is_exec: false,
    }
}

fn names(v: &[FileEntry]) -> Vec<String> {
    v.iter().map(|e| e.name.clone()).collect()
}

fn app_at(root: &str, entries: Vec<FileEntry>) -> App {
    App::new(
        &root.to_string(),
        false,
        entries,
        vec![],
        vec![DriveEntry { name: "sda1".to_string(), mount_point: "/".to_string() }],
        FileOptions::empty(),
        10,
    )
}

#[test]
fn directories_come_before_files_in_order_met() {
    let raw = vec![
        entry("a.txt", EntryType::File, false),
        entry("x", EntryType::Dir, false),
        entry("b.txt", EntryType::File, false),
        entry("y", EntryType::Dir, false),
    ];
    assert_eq!(names(&get_files(raw)), vec!["x", "y", "a.txt", "b.txt"]);
}

#[test]
fn hidden_entries_are_filtered() {
    let raw = vec![
        entry(".cache", EntryType::Dir, true),
        entry("notes.md", EntryType::File, false),
        entry(".env", EntryType::File, true),
    ];
    assert_eq!(names(&leave_hidden(&raw)), vec!["notes.md"]);
    assert_eq!(names(&only_hidden(&raw)), vec![".cache", ".env"]);
    assert_eq!(names(&get_data(raw.clone(), false, false).unwrap()), vec!["notes.md"]);
    assert_eq!(names(&get_data(raw.clone(), true, false).unwrap()), vec![".cache", "notes.md", ".env"]);
    assert_eq!(names(&get_data(raw, true, true).unwrap()), vec![".cache", ".env"]);
}

#[test]
fn empty_listing_is_an_error() {
    let raw = vec![entry(".hidden", EntryType::File, true)];
    assert_eq!(get_data(raw, false, false).unwrap_err(), "No Files or Directories found!");
    assert!(get_data(vec![], true, false).is_err());
}

#[test]
fn size_labels() {
    let dir = PathFacts { is_dir: true, len: 4096, tree_len: Some(12000) };
    let file = PathFacts { is_dir: false, len: 2048, tree_len: None };
    assert_eq!(find_length(None, false, false), SizeLabel::Unknown);
    assert_eq!(find_length(Some(dir), false, false), SizeLabel::Deferred);
    assert_eq!(find_length(Some(dir), true, true), SizeLabel::Exact(12000));
    assert_eq!(find_length(Some(PathFacts { tree_len: None, ..dir }), true, false), SizeLabel::Human(0));
    assert_eq!(find_length(Some(file), false, true), SizeLabel::Exact(2048));
    assert_eq!(find_length(Some(file), true, false), SizeLabel::Human(2048));
}

#[test]
fn row_cells() {
    let e = FileEntry {
        e_type: EntryType::Dir,
        name: "src".to_string(),
        size: "...".to_string(),
        modified_at: "Jan  1 2024 10:00".to_string(),
        hidden: false,
        is_exec: true,
    };
    assert_eq!(
        e.ref_array(),
        ["Dir".to_string(), "src".to_string(), "...".to_string(), "Jan  1 2024 10:00".to_string()]
    );
}

#[test]
fn split_command_words() {
    let (cmd, args) = split_command(&"code -n --wait".to_string());
    assert_eq!(cmd, "code");
    assert_eq!(args, vec!["-n", "--wait"]);
    let (cmd, args) = split_command(&"vim".to_string());
    assert_eq!(cmd, "vim");
    assert!(args.is_empty());
    assert_eq!(split_words(&"a  b".to_string()), vec!["a", "", "b"]);
    assert_eq!(split_words(&"".to_string()), vec![""]);
}

#[test]
fn launch_appends_file() {
    let l = launch_request(&"xdg-open --new".to_string(), &"/tmp/a.pdf".to_string());
    assert_eq!(l.program, "xdg-open");
    assert_eq!(l.args, vec!["--new", "/tmp/a.pdf"]);
}

#[test]
fn file_open_by_extension() {
    let mut options = FileOptions::empty();
    options.txt = Some("vim -p".to_string());
    options.gitignore = Some("nano".to_string());
    let l = handle_file_open(&"/tmp/a.txt".to_string(), &options).unwrap();
    assert_eq!(l.program, "vim");
    assert_eq!(l.args, vec!["-p", "/tmp/a.txt"]);
    assert!(handle_file_open(&"/tmp/a.pdf".to_string(), &options).is_none());
    let l = handle_file_open(&"/tmp/REPORT.TXT".to_string(), &options).unwrap();
    assert_eq!(l.program, "vim");
    assert_eq!(l.args, vec!["-p", "/tmp/REPORT.TXT"]);
    assert!(handle_file_open(&"/tmp/README".to_string(), &options).is_none());
    // A leading dot starts a name, not an extension.
    assert!(handle_file_open(&"/repo/.gitignore".to_string(), &options).is_none());
    let l = launch_for_extension(&"gitignore".to_string(), &options, &"/repo/x.gitignore".to_string()).unwrap();
    assert_eq!(l.program, "nano");
    assert_eq!(l.args, vec!["/repo/x.gitignore"]);
}

#[test]
fn command_parsing() {
    let dir = "/work".to_string();
    match parse_command(&"n newfile.txt".to_string(), &dir) {
        Ok(CommandRequest::CreateFile { path }) => assert_eq!(path, "/work/newfile.txt"),
        Err(e) => panic!("unexpected error {:?}", e),
    }
    assert_eq!(parse_command(&"x newfile.txt".to_string(), &dir).unwrap_err(), CommandError::UnknownVerb);
    assert_eq!(parse_command(&"n".to_string(), &dir).unwrap_err(), CommandError::MissingArgument);
    assert_eq!(parse_command(&"n ".to_string(), &dir).unwrap_err(), CommandError::MissingArgument);
    assert_eq!(parse_command(&"".to_string(), &dir).unwrap_err(), CommandError::UnknownVerb);
    assert_eq!(parse_command(&"   ".to_string(), &dir).unwrap_err(), CommandError::UnknownVerb);
    match parse_command(&"  n \t  spaced.txt  ".to_string(), &dir) {
        Ok(CommandRequest::CreateFile { path }) => assert_eq!(path, "/work/spaced.txt"),
        Err(e) => panic!("unexpected error {:?}", e),
    }
    assert_eq!(
        columbus::command::split_whitespace_words(&" a  bc\td ".to_string()),
        vec!["a", "bc", "d"]
    );
    assert_eq!(CommandError::UnknownVerb.message(), "Unknown command");
    assert_eq!(CommandError::MissingArgument.message(), "The command needs a file name");
    assert_eq!(creation_report(true), "The file created successfully");
    assert_eq!(creation_report(false), "The file already exists");
}

#[test]
fn text_input_edits() {
    let mut t = TextInput::new(&"held".to_string());
    assert_eq!(t.cursor, 4);
    t.handle(EditRequest::GoToPrevChar);
    t.handle(EditRequest::GoToPrevChar);
    t.handle(EditRequest::InsertChar('X'));
    assert_eq!(t.value, "heXld");
    assert_eq!(t.cursor, 3);
    t.handle(EditRequest::DeletePrevChar);
    assert_eq!(t.value, "held");
    t.handle(EditRequest::DeleteNextChar);
    assert_eq!(t.value, "hed");
    t.handle(EditRequest::GoToStart);
    assert_eq!(t.cursor, 0);
    t.handle(EditRequest::DeletePrevChar);
    assert_eq!(t.value, "hed");
    t.handle(EditRequest::GoToEnd);
    assert_eq!(t.cursor, 3);
    t.set_value(&"one two three".to_string());
    t.handle(EditRequest::DeletePrevWord);
    assert_eq!(t.value, "one two ");
    assert_eq!(t.cursor, 8);
    t.handle(EditRequest::GoToStart);
    t.handle(EditRequest::GoToNextWord);
    assert_eq!(t.cursor, 4);
    t.handle(EditRequest::DeleteTillEnd);
    assert_eq!(t.value, "one ");
    t.handle(EditRequest::DeleteLine);
    assert_eq!(t.value, "");
    assert_eq!(t.cursor, 0);
    t.set_value(&"ünï".to_string());
    assert_eq!(t.value, "ünï");
    assert_eq!(t.cursor, 3);
    t.reset();
    assert_eq!(t.value, "");
}

#[test]
fn field_modes() {
    let mut f = PathField::new(&"/tmp".to_string());
    f.handle_input(press(Key::Char('x')));
    assert_eq!(f.input.value, "/tmp");
    f.handle_input(press(Key::Char('a')));
    assert_eq!(f.input_mode, InputMode::Editing);
    f.handle_input(press(Key::Char('/')));
    f.handle_input(press(Key::Char('a')));
    assert_eq!(f.input.value, "/tmp/a");
    f.handle_input(press(Key::Esc));
    assert_eq!(f.input_mode, InputMode::Normal);
    f.handle_input(press(Key::Backspace));
    assert_eq!(f.input.value, "/tmp/a");
    let mut c = Command::new();
    c.set_value("hi".to_string());
    assert_eq!(c.input.value, "hi");
    c.handle_input(press(Key::Char('a')));
    c.handle_input(KeyPress { key: Key::Char('w'), edit: Some(EditRequest::DeletePrevWord) });
    assert_eq!(c.input.value, "");
}

#[test]
fn tab_cycles_through_five_panels() {
    let mut w = CurrentWidget::PathField;
    let mut seen = vec![w];
    for _ in 0..4 {
        w = w.next();
        seen.push(w);
    }
    assert_eq!(w.next(), CurrentWidget::PathField);
    assert_eq!(
        seen,
        vec![
            CurrentWidget::PathField,
            CurrentWidget::CommandBar,
            CurrentWidget::Explorer,
            CurrentWidget::QuickAccess,
            CurrentWidget::Drives
        ]
    );
}

#[test]
fn focus_moves_flags_and_ends_editing() {
    let mut app = app_at("/home", vec![]);
    assert!(app.explorer.in_focus);
    app.handle_key(press(Key::Char('a')));
    assert_eq!(app.focus_on, CurrentWidget::PathField);
    assert_eq!(app.path_field.input_mode, InputMode::Editing);
    assert!(app.path_field.in_focus && !app.explorer.in_focus);
    app.handle_key(press(Key::Tab));
    assert_eq!(app.focus_on, CurrentWidget::CommandBar);
    assert_eq!(app.path_field.input_mode, InputMode::Normal);
    assert!(app.command.in_focus && !app.path_field.in_focus);
    app.handle_key(press(Key::Tab));
    assert_eq!(app.focus_on, CurrentWidget::Explorer);
    app.handle_key(press(Key::Tab));
    assert_eq!(app.focus_on, CurrentWidget::QuickAccess);
    app.handle_key(press(Key::Tab));
    assert_eq!(app.focus_on, CurrentWidget::Drives);
    assert!(app.drives.in_focus && !app.quick_access.in_focus);
    focus_to(&mut app, CurrentWidget::QuickAccess);
    assert!(app.quick_access.in_focus && !app.drives.in_focus);
}

#[test]
fn scenario_enter_directory_and_back() {
    let raw = vec![entry("a.txt", EntryType::File, false), entry("b", EntryType::Dir, false)];
    let mut app = app_at("/data", raw.clone());
    assert_eq!(names(&app.explorer.files), vec!["b", "a.txt"]);
    assert_eq!(app.explorer.selected, Some(0));
    let action = app.handle_key(press(Key::Enter));
    let dir = match action {
        Action::Navigate(d) => d,
        other => panic!("unexpected action {:?}", other),
    };
    assert_eq!(dir, "/data/b");
    app.navigate_to(&dir, vec![], &vec![]);
    assert_eq!(app.explorer.root_path, "/data/b");
    assert!(app.explorer.files.is_empty());
    assert_eq!(app.explorer.selected, None);
    assert_eq!(app.path_field.input.value, "/data/b");
    assert_eq!(app.quick_access.entries.len(), 1);
    let action = app.handle_key(press(Key::Backspace));
    let parent = match action {
        Action::Relist(d) => d,
        other => panic!("unexpected action {:?}", other),
    };
    assert_eq!(parent, "/data");
    assert_eq!(app.path_field.input.value, "/data");
    app.relist(&parent, raw);
    assert_eq!(app.explorer.files.len(), 2);
    assert_eq!(names(&app.explorer.files), vec!["b", "a.txt"]);
}

#[test]
fn scenario_command_creates_file_once() {
    let mut app = app_at("/data", vec![entry("a.txt", EntryType::File, false)]);
    app.handle_key(press(Key::Char(':')));
    assert_eq!(app.focus_on, CurrentWidget::CommandBar);
    for c in "n newfile.txt".chars() {
        assert!(matches!(app.handle_key(press(Key::Char(c))), Action::Idle));
    }
    assert_eq!(app.command.input.value, "n newfile.txt");
    let action = app.handle_key(press(Key::Enter));
    match action {
        Action::CreateFile(p) => assert_eq!(p, "/data/newfile.txt"),
        other => panic!("unexpected action {:?}", other),
    }
    app.finish_command(true, vec![entry("a.txt", EntryType::File, false), entry("newfile.txt", EntryType::File, false)]);
    assert_eq!(app.log_panel.msg, "The file created successfully");
    assert_eq!(app.command.input.value, "");
    assert_eq!(names(&app.explorer.files), vec!["a.txt", "newfile.txt"]);
    for c in "n newfile.txt".chars() {
        app.handle_key(press(Key::Char(c)));
    }
    assert!(matches!(app.handle_key(press(Key::Enter)), Action::CreateFile(_)));
    app.finish_command(false, vec![entry("a.txt", EntryType::File, false), entry("newfile.txt", EntryType::File, false)]);
    assert_eq!(app.log_panel.msg, "The file already exists");
    assert_eq!(app.explorer.files.len(), 2);
}

#[test]
fn command_error_keeps_text() {
    let mut app = app_at("/data", vec![]);
    app.handle_key(press(Key::Char(':')));
    for c in "zz top".chars() {
        app.handle_key(press(Key::Char(c)));
    }
    assert!(matches!(app.handle_key(press(Key::Enter)), Action::Idle));
    assert_eq!(app.log_panel.msg, "Unknown command");
    assert_eq!(app.command.input.value, "zz top");
}

#[test]
fn help_overlay_keys() {
    let mut app = app_at("/data", vec![]);
    app.handle_key(press(Key::Char('h')));
    assert!(app.help_shown);
    app.handle_key(press(Key::Char('j')));
    app.handle_key(press(Key::Down));
    assert_eq!(app.help_overview.scroll, 2);
    app.handle_key(press(Key::Char('k')));
    assert_eq!(app.help_overview.scroll, 1);
    assert!(matches!(app.handle_key(press(Key::Tab)), Action::Idle));
    assert_eq!(app.focus_on, CurrentWidget::Explorer);
    app.handle_key(press(Key::Char('q')));
    assert!(!app.help_shown);
    assert!(matches!(app.handle_key(press(Key::Char('q'))), Action::Quit));
    assert!(app.exit);
}

#[test]
fn explorer_keys_through_app() {
    let mut app = app_at("/data", vec![entry("a.txt", EntryType::File, false), entry("b.txt", EntryType::File, false)]);
    app.handle_key(press(Key::Char('j')));
    assert_eq!(app.explorer.selected, Some(1));
    app.handle_key(press(Key::Char('c')));
    match app.handle_key(press(Key::Char('v'))) {
        Action::Paste(job) => {
            assert_eq!(job.source, "/data/b.txt");
            assert_eq!(job.destination, "/data/Copy-b.txt");
        }
        other => panic!("unexpected action {:?}", other),
    }
    match app.handle_key(press(Key::Delete)) {
        Action::Delete(t) => assert_eq!(t.path, "/data/b.txt"),
        other => panic!("unexpected action {:?}", other),
    }
    assert!(matches!(app.handle_key(press(Key::Char('r'))), Action::Relist(_)));
}

#[test]
fn enter_on_drive_and_bookmark() {
    let mut app = App::new(
        &"/data".to_string(),
        false,
        vec![],
        vec![QAFileEntry { name: "etc".to_string(), path: "/etc".to_string(), count: 2 }],
        vec![DriveEntry { name: "sdb1".to_string(), mount_point: "/mnt/usb".to_string() }],
        FileOptions::empty(),
        0,
    );
    focus_to(&mut app, CurrentWidget::Drives);
    match app.handle_key(press(Key::Enter)) {
        Action::Navigate(d) => assert_eq!(d, "/mnt/usb"),
        other => panic!("unexpected action {:?}", other),
    }
    assert!(matches!(app.handle_key(press(Key::Char('r'))), Action::RefreshDrives));
    focus_to(&mut app, CurrentWidget::QuickAccess);
    match app.handle_key(press(Key::Enter)) {
        Action::Navigate(d) => assert_eq!(d, "/etc"),
        other => panic!("unexpected action {:?}", other),
    }
    app.navigate_to(&"/etc".to_string(), vec![], &vec![true]);
    assert_eq!(app.quick_access.entries.len(), 1);
    assert_eq!(app.quick_access.entries[0].count, 3);
    assert_eq!(app.focus_on, CurrentWidget::Explorer);
}

#[test]
fn path_field_enter_and_directory_of() {
    let mut app = app_at("/data", vec![]);
    focus_to(&mut app, CurrentWidget::PathField);
    match app.handle_key(press(Key::Enter)) {
        Action::OpenPath(p) => assert_eq!(p, "/data"),
        other => panic!("unexpected action {:?}", other),
    }
    assert_eq!(directory_of(&"/data/x.txt".to_string(), false), "/data");
    assert_eq!(directory_of(&"/data".to_string(), true), "/data");
    assert_eq!(directory_of(&"/".to_string(), false), ".");
}

#[test]
fn help_scroll_stays_in_bounds() {
    let mut h = HelpOverview::new(2);
    h.scroll_up();
    assert_eq!(h.scroll, 0);
    h.scroll_down();
    h.scroll_down();
    h.scroll_down();
    assert_eq!(h.scroll, 2);
    h.scroll_up();
    assert_eq!(h.scroll, 1);
}

#[test]
fn command_enter_reports_missing_name() {
    let mut app = app_at("/data", vec![]);
    app.command.set_value("n".to_string());
    assert!(matches!(handle_command_enter(&mut app), Action::Idle));
    assert_eq!(app.log_panel.msg, "The command needs a file name");
    assert_eq!(app.command.input.value, "n");
    app.command.set_value("n x.txt".to_string());
    match handle_command_enter(&mut app) {
        Action::CreateFile(p) => assert_eq!(p, "/data/x.txt"),
        other => panic!("unexpected action {:?}", other),
    }
}

#[test]
fn typed_keys_stay_in_the_field() {
    let mut app = app_at("/data", vec![]);
    app.handle_key(press(Key::Char(':')));
    for c in "qha:".chars() {
        assert!(matches!(app.handle_key(press(Key::Char(c))), Action::Idle));
    }
    assert!(!app.exit);
    assert!(!app.help_shown);
    assert_eq!(app.focus_on, CurrentWidget::CommandBar);
    assert_eq!(app.command.input.value, "qha:");
}

#[test]
fn paste_and_delete_end_with_relisting() {
    let mut app = app_at("/data", vec![entry("a.txt", EntryType::File, false)]);
    app.handle_key(press(Key::Char('x')));
    assert!(matches!(app.handle_key(press(Key::Char('v'))), Action::Paste(_)));
    match app.finish_paste(Some("Error in copying file /data/a.txt".to_string())) {
        Action::Relist(d) => assert_eq!(d, "/data"),
        other => panic!("unexpected action {:?}", other),
    }
    assert_eq!(app.log_panel.msg, "Error in copying file /data/a.txt");
    match app.finish_paste(None) {
        Action::Delete(t) => assert_eq!(t.path, "/data/a.txt"),
        other => panic!("unexpected action {:?}", other),
    }
    match app.finish_paste(None) {
        Action::Relist(d) => assert_eq!(d, "/data"),
        other => panic!("unexpected action {:?}", other),
    }
    match app.finish_delete(Some("Could not delete /data/a.txt".to_string())) {
        Action::Relist(d) => assert_eq!(d, "/data"),
        other => panic!("unexpected action {:?}", other),
    }
    assert_eq!(app.log_panel.msg, "Could not delete /data/a.txt");
}

#[test]
fn accepted_command_resets_table_selection() {
    let mut app = app_at("/data", vec![entry("a.txt", EntryType::File, false), entry("b.txt", EntryType::File, false)]);
    app.handle_key(press(Key::Char('j')));
    assert_eq!(app.explorer.selected, Some(1));
    app.finish_command(true, vec![entry("a.txt", EntryType::File, false), entry("b.txt", EntryType::File, false)]);
    assert_eq!(app.explorer.selected, Some(0));
}

#[test]
fn enter_keeps_bookmarks() {
    let mut app = App::new(
        &"/data".to_string(),
        false,
        vec![entry("f.txt", EntryType::File, false)],
        vec![QAFileEntry { name: "etc".to_string(), path: "/etc".to_string(), count: 2 }],
        vec![],
        FileOptions::empty(),
        0,
    );
    assert!(matches!(app.handle_key(press(Key::Enter)), Action::Idle));
    assert_eq!(app.quick_access.entries.len(), 1);
    assert_eq!(app.quick_access.entries[0].count, 2);
}

#[test]
fn control_keys_edit_without_typing() {
    let mut app = app_at("/data", vec![]);
    app.handle_key(press(Key::Char(':')));
    for c in "n a.txt".chars() {
        app.handle_key(press(Key::Char(c)));
    }
    app.handle_key(KeyPress { key: Key::Char('w'), edit: Some(EditRequest::DeletePrevWord) });
    assert_eq!(app.command.input.value, "n a.");
    app.handle_key(KeyPress { key: Key::Char('u'), edit: Some(EditRequest::DeleteLine) });
    assert_eq!(app.command.input.value, "");
    app.handle_key(KeyPress { key: Key::Char('q'), edit: None });
    assert!(!app.exit);
    assert_eq!(app.command.input.value, "");
}

#[test]
fn global_keys_keep_panel_contents() {
    let mut app = app_at("/data", vec![entry("a.txt", EntryType::File, false)]);
    app.handle_key(press(Key::Char('c')));
    app.handle_key(press(Key::Tab));
    app.handle_key(press(Key::Char('h')));
    app.handle_key(press(Key::Char('q')));
    assert!(app.explorer.paste_job().is_some());
    assert_eq!(app.explorer.files.len(), 1);
}
