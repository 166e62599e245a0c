use columbus::{
    next_selection, previous_selection, fresh_selection, EntryType, Explorer, FileEntry, Clipboard,
    paste_name, Drives, DriveEntry, QuickAccess, QAFileEntry, update_qa_files, LogPanel,
    top_entries, Action, Key,
};

fn entry(name: &str, kind: EntryType, hidden: bool) -> FileEntry {
    FileEntry {
        e_type: kind,
        name: name.to_string(),
        size: String::new(),
        modified_at: String::new(),
        hidden,
        is_exec: false,
    }
}

fn three_files() -> Vec<FileEntry> {
    vec![
        entry("a.txt", EntryType::File, false),
        entry("b.txt", EntryType::File, false),
        entry("c.txt", EntryType::File, false),
    ]
}

#[test]
fn next_wraps_after_len_steps() {
    for len in 1usize..6 {
        for start in 0..len {
            let mut sel = Some(start);
            for _ in 0..len {
                sel = next_selection(sel, len);
            }
            assert_eq!(sel, Some(start));
        }
    }
}

#[test]
fn previous_wraps_after_len_steps() {
    for len in 1usize..6 {
        for start in 0..len {
            let mut sel = Some(start);
            for _ in 0..len {
                sel = previous_selection(sel, len);
            }
            assert_eq!(sel, Some(start));
        }
    }
}

#[test]
fn next_and_previous_wrap_at_the_ends() {
    assert_eq!(next_selection(Some(2), 3), Some(0));
    assert_eq!(previous_selection(Some(0), 3), Some(2));
    assert_eq!(next_selection(Some(0), 3), Some(1));
    assert_eq!(previous_selection(Some(2), 3), Some(1));
}

#[test]
fn empty_list_keeps_no_selection() {
    assert_eq!(next_selection(None, 0), None);
    assert_eq!(previous_selection(None, 0), None);
    assert_eq!(fresh_selection(0), None);
    assert_eq!(fresh_selection(4), Some(0));
}

#[test]
fn refresh_resets_selection_on_shorter_list() {
    let root = "/data".to_string();
    let mut ex = Explorer::new(&root, false, three_files());
    ex.next_row();
    ex.next_row();
    assert_eq!(ex.selected, Some(2));
    ex.refresh(&root, false, vec![entry("only.txt", EntryType::File, false)]);
    assert_eq!(ex.selected, Some(0));
    assert_eq!(ex.files.len(), 1);
}

#[test]
fn deleting_last_entry_leaves_valid_empty_table() {
    let root = "/data".to_string();
    let mut ex = Explorer::new(&root, false, vec![entry("last.txt", EntryType::File, false)]);
    let target = ex.delete_target().unwrap();
    assert_eq!(target.path, "/data/last.txt");
    assert_eq!(target.kind, EntryType::File);
    ex.refresh(&root, false, vec![]);
    assert!(ex.files.is_empty());
    assert_eq!(ex.selected, None);
    ex.next_row();
    ex.previous_row();
    assert_eq!(ex.selected, None);
    assert!(ex.delete_target().is_none());
}

#[test]
fn paste_name_adds_copy_prefix_until_unique() {
    let none: Vec<FileEntry> = vec![entry("other.txt", EntryType::File, false)];
    assert_eq!(paste_name(&"report.txt".to_string(), &none), "report.txt");
    let one = vec![entry("report.txt", EntryType::File, false)];
    assert_eq!(paste_name(&"report.txt".to_string(), &one), "Copy-report.txt");
    let two = vec![
        entry("Copy-report.txt", EntryType::File, false),
        entry("report.txt", EntryType::File, false),
    ];
    assert_eq!(paste_name(&"report.txt".to_string(), &two), "Copy-Copy-report.txt");
}

#[test]
fn paste_into_directory_with_same_name() {
    let root = "/dest".to_string();
    let mut ex = Explorer::new(&root, false, vec![entry("report.txt", EntryType::File, false)]);
    ex.handle_copy();
    let job = ex.paste_job().unwrap();
    assert_eq!(job.source, "/dest/report.txt");
    assert_eq!(job.target_name, "Copy-report.txt");
    assert_eq!(job.destination, "/dest/Copy-report.txt");
    assert_eq!(job.kind, EntryType::File);
}

#[test]
fn cut_then_paste_removes_source_once() {
    let mut ex = Explorer::new(&"/src".to_string(), false, vec![entry("dir1", EntryType::Dir, false)]);
    ex.handle_cut();
    match &ex.clipboard {
        Clipboard::Holding { source, is_cut, kind, .. } => {
            assert_eq!(source, "/src/dir1");
            assert!(*is_cut);
            assert_eq!(*kind, EntryType::Dir);
        }
        Clipboard::Empty => panic!("clipboard should hold the cut entry"),
    }
    ex.refresh(&"/dst".to_string(), false, vec![]);
    let job = ex.paste_job().unwrap();
    assert_eq!(job.destination, "/dst/dir1");
    let removal = ex.finish_paste(true).unwrap();
    assert_eq!(removal.path, "/src/dir1");
    assert_eq!(removal.kind, EntryType::Dir);
    // The clipboard still names the source, now as a plain copy.
    assert!(ex.finish_paste(true).is_none());
    assert!(ex.paste_job().is_some());
}

#[test]
fn copy_then_paste_keeps_source() {
    let mut ex = Explorer::new(&"/src".to_string(), false, vec![entry("a.txt", EntryType::File, false)]);
    ex.handle_copy();
    assert!(ex.paste_job().is_some());
    assert!(ex.finish_paste(true).is_none());
    assert!(ex.paste_job().is_some());
}

#[test]
fn failed_copy_of_cut_removes_nothing() {
    let mut ex = Explorer::new(&"/src".to_string(), false, vec![entry("a.txt", EntryType::File, false)]);
    ex.handle_cut();
    assert!(ex.finish_paste(false).is_none());
    match &ex.clipboard {
        Clipboard::Holding { is_cut, .. } => assert!(*is_cut),
        Clipboard::Empty => panic!("clipboard should hold the cut entry"),
    }
}

#[test]
fn empty_clipboard_pastes_nothing() {
    let ex = Explorer::new(&"/src".to_string(), false, three_files());
    assert!(ex.paste_job().is_none());
}

#[test]
fn quick_access_counts_repeat_visits() {
    let mut entries = vec![QAFileEntry { name: "home".to_string(), path: "/home".to_string(), count: 5 }];
    let path = "/home/user/projects".to_string();
    for _ in 0..3 {
        let alive = vec![true; entries.len()];
        update_qa_files(&mut entries, &path, &alive);
    }
    assert_eq!(entries.len(), 2);
    let matching: Vec<&QAFileEntry> = entries.iter().filter(|e| e.path == path).collect();
    assert_eq!(matching.len(), 1);
    assert_eq!(matching[0].count, 3);
    assert_eq!(matching[0].name, "projects");
    assert_eq!(entries[0].count, 5);
}

#[test]
fn quick_access_root_uses_full_path_as_name() {
    let mut entries: Vec<QAFileEntry> = vec![];
    update_qa_files(&mut entries, &"/".to_string(), &vec![]);
    assert_eq!(entries.len(), 1);
    assert_eq!(entries[0].name, "/");
    assert_eq!(entries[0].count, 1);
}

#[test]
fn quick_access_prunes_missing_directories() {
    let mut entries = vec![
        QAFileEntry { name: "gone".to_string(), path: "/gone".to_string(), count: 9 },
        QAFileEntry { name: "tmp".to_string(), path: "/tmp".to_string(), count: 1 },
    ];
    update_qa_files(&mut entries, &"/tmp".to_string(), &vec![false, true]);
    assert_eq!(entries.len(), 1);
    assert_eq!(entries[0].path, "/tmp");
    assert_eq!(entries[0].count, 2);
}

#[test]
fn quick_access_count_saturates() {
    let mut entries = vec![QAFileEntry { name: "x".to_string(), path: "/x".to_string(), count: u32::MAX }];
    update_qa_files(&mut entries, &"/x".to_string(), &vec![true]);
    assert_eq!(entries[0].count, u32::MAX);
}

#[test]
fn quick_access_table_moves_and_records() {
    let mut qa = QuickAccess::new(vec![
        QAFileEntry { name: "a".to_string(), path: "/a".to_string(), count: 1 },
        QAFileEntry { name: "b".to_string(), path: "/b".to_string(), count: 1 },
    ]);
    assert_eq!(qa.selected, Some(0));
    qa.previous_row();
    assert_eq!(qa.selected, Some(1));
    qa.record_visit(&"/c".to_string(), &vec![true, false]);
    assert_eq!(qa.entries.len(), 2);
    assert_eq!(qa.selected, Some(1));
    assert_eq!(qa.entries[1].path, "/c");
    assert_eq!(qa.entries[0].ref_array(), ["a".to_string()]);
}

#[test]
fn panel_key_handlers() {
    let mut d = Drives::new(vec![
        DriveEntry { name: "a".to_string(), mount_point: "/a".to_string() },
        DriveEntry { name: "b".to_string(), mount_point: "/b".to_string() },
    ]);
    assert!(matches!(d.handle_input(Key::Char('k')), Action::Idle));
    assert_eq!(d.selected, Some(1));
    assert!(matches!(d.handle_input(Key::Char('r')), Action::RefreshDrives));
    let mut qa = QuickAccess::new(vec![QAFileEntry { name: "a".to_string(), path: "/a".to_string(), count: 1 }]);
    qa.handle_input(Key::Down);
    assert_eq!(qa.selected, Some(0));
    let mut ex = Explorer::new(&"/r".to_string(), false, three_files());
    assert!(matches!(ex.handle_input(Key::Up), Action::Idle));
    assert_eq!(ex.selected, Some(2));
    ex.handle_input(Key::Char('x'));
    match ex.handle_input(Key::Char('v')) {
        Action::Paste(job) => {
            assert_eq!(job.source, "/r/c.txt");
            assert_eq!(job.target_name, "Copy-c.txt");
        }
        other => panic!("unexpected action {:?}", other),
    }
    match ex.handle_input(Key::Char('r')) {
        Action::Relist(d) => assert_eq!(d, "/r"),
        other => panic!("unexpected action {:?}", other),
    }
}

#[test]
fn drives_table_moves_and_refreshes() {
    let mut d = Drives::new(vec![
        DriveEntry { name: "sda1".to_string(), mount_point: "/".to_string() },
        DriveEntry { name: "sdb1".to_string(), mount_point: "/mnt/usb".to_string() },
    ]);
    d.next_row();
    assert_eq!(d.selected, Some(1));
    d.next_row();
    assert_eq!(d.selected, Some(0));
    d.refresh(vec![]);
    assert_eq!(d.selected, None);
    d.next_row();
    assert_eq!(d.selected, None);
    let e = DriveEntry { name: "n".to_string(), mount_point: "/m".to_string() };
    assert_eq!(e.ref_array(), ["n".to_string(), "/m".to_string()]);
}

#[test]
fn log_panel_sets_and_clears() {
    let mut log = LogPanel::new();
    assert_eq!(log.msg, "");
    log.set_log("copy failed".to_string());
    assert_eq!(log.msg, "copy failed");
    log.clear_log();
    assert_eq!(log.msg, "");
}

#[test]
fn bookmarks_ranked_and_cut_to_twenty() {
    let stored: Vec<QAFileEntry> = (0..25u32)
        .map(|i| QAFileEntry { name: format!("d{}", i), path: format!("/d{}", i), count: (i * 7) % 25 })
        .collect();
    let top = top_entries(&stored);
    assert_eq!(top.len(), 20);
    for w in top.windows(2) {
        assert!(w[0].count >= w[1].count);
    }
    assert_eq!(top[0].count, 24);
    assert_eq!(top[19].count, 5);
    let few = vec![
        QAFileEntry { name: "a".to_string(), path: "/a".to_string(), count: 1 },
        QAFileEntry { name: "b".to_string(), path: "/b".to_string(), count: 4 },
    ];
    let top = top_entries(&few);
    assert_eq!(top.len(), 2);
    assert_eq!(top[0].name, "b");
    assert_eq!(top[1].name, "a");
    assert!(top_entries(&vec![]).is_empty());
}

#[test]
fn quick_access_matches_equal_paths() {
    let mut entries = vec![QAFileEntry { name: "b".to_string(), path: "/a/b/".to_string(), count: 1 }];
    update_qa_files(&mut entries, &"/a/b".to_string(), &vec![true]);
    assert_eq!(entries.len(), 1);
    assert_eq!(entries[0].count, 2);
    update_qa_files(&mut entries, &"/a/./b".to_string(), &vec![true]);
    assert_eq!(entries.len(), 1);
    assert_eq!(entries[0].count, 3);
}
