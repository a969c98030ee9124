use system_cleaner::catalog::{join_path, operation_actions, Action};
use system_cleaner::engine::{
    deletion_message, home_or_default, matching_positions, select_matching, Directive, FileEntry, SystemCleaner,
};
use system_cleaner::pattern::{name_matches, text_equals};
use system_cleaner::run::{RunControl, RunError};
use system_cleaner::size_text::decimal_string;
use system_cleaner::stats::CleaningStats;

fn entry(path: &str, size: u64) -> FileEntry {
    let name = path.rsplit('/').next().unwrap().to_string();
    FileEntry::new(path.to_string(), name, size)
}

fn names(v: &[FileEntry]) -> Vec<String> {
    v.iter().map(|e| e.name.clone()).collect()
}

fn lines(c: &SystemCleaner) -> Vec<String> {
    (0..c.log_count()).map(|i| c.log_line(i)).collect()
}

#[test]
fn format_bytes_zero() {
    assert_eq!(SystemCleaner::format_bytes(0), "0.00 B");
}

#[test]
fn format_bytes_kilobytes() {
    assert_eq!(SystemCleaner::format_bytes(1536), "1.50 KB");
}

#[test]
fn format_bytes_one_terabyte() {
    assert_eq!(SystemCleaner::format_bytes(1099511627776), "1.00 TB");
}

#[test]
fn format_bytes_stops_at_terabytes() {
    assert_eq!(SystemCleaner::format_bytes(u64::MAX), "16777216.00 TB");
    assert_eq!(SystemCleaner::format_bytes(1099511627776 * 2048), "2048.00 TB");
}

#[test]
fn format_bytes_unit_edges() {
    assert_eq!(SystemCleaner::format_bytes(1023), "1023.00 B");
    assert_eq!(SystemCleaner::format_bytes(1024), "1.00 KB");
    assert_eq!(SystemCleaner::format_bytes(1048576), "1.00 MB");
    assert_eq!(SystemCleaner::format_bytes(1073741824 * 3 / 2), "1.50 GB");
    assert_eq!(SystemCleaner::format_bytes(1048575), "1024.00 KB");
}

#[test]
fn format_bytes_agrees_with_float_rendering() {
    let units = ["B", "KB", "MB", "GB", "TB"];
    let mut samples: Vec<u64> = (0..5000u64).collect();
    samples.extend([1152u64, 1048576 + 5243, 123456789, 987654321012, 5 * 1099511627776 + 7]);
    for b in samples {
        let mut size = b as f64;
        let mut k = 0;
        while size >= 1024.0 && k < units.len() - 1 {
            size /= 1024.0;
            k += 1;
        }
        assert_eq!(SystemCleaner::format_bytes(b), format!("{:.2} {}", size, units[k]), "bytes = {}", b);
    }
}

#[test]
fn decimal_string_digits() {
    assert_eq!(decimal_string(0), "0");
    assert_eq!(decimal_string(907), "907");
    assert_eq!(decimal_string(u64::MAX), "18446744073709551615");
}

#[test]
fn pattern_suffix_over_log_names() {
    assert!(name_matches("a.log", "*.log"));
    assert!(!name_matches("a.logx", "*.log"));
    assert!(name_matches(".log", "*.log"));
    let es = vec![entry("/d/a.log", 1), entry("/d/a.logx", 2), entry("/d/.log", 3)];
    let sel = select_matching(&es, "*.log");
    assert_eq!(names(&sel), vec![".log".to_string(), "a.log".to_string()].into_iter().rev().collect::<Vec<_>>());
}

#[test]
fn pattern_shapes() {
    assert!(name_matches("notes.txt~", "*~"));
    assert!(name_matches("core.dump", "core*"));
    assert!(!name_matches("xcore", "core*"));
    assert!(name_matches("my_cache_file", "*cache*"));
    assert!(!name_matches("my_cach_file", "*cache*"));
    assert!(name_matches("recently-used.xbel", "recently-used.xbel"));
    assert!(!name_matches("recently-used.xbel.bak", "recently-used.xbel"));
    assert!(name_matches("anything", "*"));
    assert!(name_matches("", "*"));
    assert!(name_matches("**", "**"));
    assert!(name_matches("x", "**"));
    assert!(!name_matches("", "a*"));
}

#[test]
fn text_equality() {
    assert!(text_equals("trash", "trash"));
    assert!(!text_equals("trash", "trash2"));
    assert!(!text_equals("vim", "vin"));
}

#[test]
fn stats_counters() {
    let mut s = CleaningStats::new(1700000000);
    assert_eq!((s.files_deleted, s.bytes_freed, s.directories_cleaned), (0, 0, 0));
    assert_eq!(s.timestamp, 1700000000);
    s.add_file(10);
    s.add_file(5);
    s.add_directory();
    assert_eq!((s.files_deleted, s.bytes_freed, s.directories_cleaned), (2, 15, 1));
}

#[test]
fn deletion_message_text() {
    assert_eq!(deletion_message(&"file1".to_string(), 1536), "Deleted: file1 (1.50 KB)");
}

#[test]
fn home_falls_back_to_tmp() {
    assert_eq!(home_or_default(None), "/tmp");
    assert_eq!(home_or_default(Some("/home/u".to_string())), "/home/u");
}

#[test]
fn live_failures_are_skipped() {
    let mut c = SystemCleaner::new(false, false, 0);
    let es = vec![entry("/r/a", 4), entry("/r/b", 6), entry("/r/c", 8)];
    c.record_removals(&es, &vec![true, false, true]);
    let s = c.get_stats_sync();
    assert_eq!((s.files_deleted, s.bytes_freed), (2, 12));
    assert_eq!(lines(&c), vec!["Deleted: a (4.00 B)", "Deleted: c (8.00 B)"]);
}

#[test]
fn room_for_totals() {
    let mut c = SystemCleaner::new(false, false, 0);
    assert!(c.can_record(&vec![entry("/r/a", u64::MAX)]));
    assert!(!c.can_record(&vec![entry("/r/a", u64::MAX), entry("/r/b", 1)]));
    c.record_removals(&vec![entry("/r/a", 7)], &vec![true]);
    assert!(!c.can_record(&vec![entry("/r/b", u64::MAX - 6)]));
    assert!(c.can_record(&vec![entry("/r/b", u64::MAX - 7)]));
    assert!(c.can_record(&Vec::new()));
}

#[test]
fn dry_run_matches_live_outcome() {
    let es = vec![entry("/r/x/deep", 2048), entry("/r/top", 3)];
    let mut dry = SystemCleaner::new(false, true, 0);
    dry.record_removals(&es, &vec![false, false]);
    let mut live = SystemCleaner::new(false, false, 0);
    live.record_removals(&es, &vec![true, true]);
    assert_eq!(lines(&dry), lines(&live));
    let (d, l) = (dry.get_stats_sync(), live.get_stats_sync());
    assert_eq!((d.files_deleted, d.bytes_freed), (l.files_deleted, l.bytes_freed));
    assert!(!dry.removes_files());
    assert!(live.removes_files());
}

#[test]
fn rerun_adds_nothing() {
    let es = vec![entry("/r/a", 4), entry("/r/b", 6)];
    let mut dry = SystemCleaner::new(false, true, 0);
    dry.record_removals(&es, &vec![true, true]);
    dry.record_removals(&es, &vec![true, true]);
    let s = dry.get_stats_sync();
    assert_eq!((s.files_deleted, s.bytes_freed), (2, 10));
    let mut live = SystemCleaner::new(false, false, 0);
    live.record_removals(&es, &vec![true, true]);
    live.record_removals(&Vec::new(), &Vec::new());
    let s = live.get_stats_sync();
    assert_eq!((s.files_deleted, s.bytes_freed), (2, 10));
    assert_eq!(live.log_count(), 2);
}

#[test]
fn log_keeps_emission_order() {
    let mut c = SystemCleaner::new(true, true, 0);
    c.log("first");
    c.record_removals(&vec![entry("/r/deep/one", 1), entry("/r/two", 2)], &vec![false, false]);
    c.log("last");
    assert_eq!(lines(&c), vec!["first", "Deleted: one (1.00 B)", "Deleted: two (2.00 B)", "last"]);
}

#[test]
fn directives_follow_mode_and_tool_presence() {
    let dry = SystemCleaner::new(false, true, 0);
    let live = SystemCleaner::new(false, false, 0);
    let tool = Action::RunTool("dnf".to_string(), vec!["clean".to_string()]);
    let gate = Action::RequireTool("dnf".to_string());
    assert_eq!(dry.directive(&tool, true), Directive::Skip);
    assert_eq!(live.directive(&tool, true), Directive::Proceed);
    assert_eq!(live.directive(&gate, false), Directive::StopOperation);
    assert_eq!(live.directive(&gate, true), Directive::Proceed);
    assert_eq!(dry.directive(&gate, true), Directive::Proceed);
    assert_eq!(dry.directive(&Action::Announce("x".to_string()), false), Directive::Proceed);
    assert_eq!(dry.directive(&Action::PurgeDirectory("/tmp".to_string()), false), Directive::Proceed);
}

#[test]
fn catalog_entries() {
    let v = operation_actions("vim", "/home/u").unwrap();
    assert_eq!(v.len(), 4);
    match &v[3] {
        Action::PurgePattern(root, pat) => {
            assert_eq!(root, "/home/u/.vim");
            assert_eq!(pat, "*.swp");
        }
        other => panic!("unexpected {:?}", other),
    }
    assert!(operation_actions("no_such_thing", "/home/u").is_none());
    let c = SystemCleaner::new(false, false, 0);
    match &c.clean_trash("/h")[1] {
        Action::PurgeDirectory(d) => assert_eq!(d, "/h/.local/share/Trash"),
        other => panic!("unexpected {:?}", other),
    }
    assert_eq!(c.clean_system_cache("/h").len(), 4);
    assert_eq!(c.clean_apt("/h").len(), 4);
    match &c.clean_firefox_cache("/h")[1] {
        Action::PurgeNamedDirectories(d, n) => {
            assert_eq!(d, "/h/.mozilla/firefox");
            assert_eq!(n, "cache2");
        }
        other => panic!("unexpected {:?}", other),
    }
}

#[test]
fn run_control_single_run_and_order() {
    let mut rc = RunControl::new();
    let ids: Vec<String> = ["vim", "bogus", "trash"].iter().map(|s| s.to_string()).collect();
    assert_eq!(rc.start_run(&ids), Ok(()));
    assert_eq!(rc.start_run(&ids), Err(RunError::AlreadyRunning));
    assert_eq!(rc.next_operation(), Some("vim".to_string()));
    assert_eq!(rc.next_operation(), Some("trash".to_string()));
    assert!(!rc.is_completed());
    assert_eq!(rc.next_operation(), None);
    assert!(rc.is_completed());
    assert_eq!(rc.start_run(&ids), Ok(()));
}

#[test]
fn run_control_abort_stops_between_operations() {
    let mut rc = RunControl::new();
    let ids: Vec<String> = ["apt", "dnf"].iter().map(|s| s.to_string()).collect();
    rc.start_run(&ids).unwrap();
    assert_eq!(rc.next_operation(), Some("apt".to_string()));
    rc.request_abort();
    assert_eq!(rc.next_operation(), None);
    assert!(rc.is_completed());
}

/// Files of an in-memory tree: the files beneath `root`, with their sizes.
fn files_under(fs: &[(String, u64)], root: &str) -> Vec<FileEntry> {
    let prefix = format!("{}/", root);
    fs.iter().filter(|(p, _)| p.starts_with(&prefix)).map(|(p, s)| entry(p, *s)).collect()
}

#[test]
fn trash_and_vim_dry_run_end_to_end() {
    let home = "/home/u";
    let fs: Vec<(String, u64)> = vec![
        (format!("{}/.local/share/Trash/file1", home), 10),
        (format!("{}/.vim/session.swp", home), 5),
    ];
    let before = fs.clone();
    let mut cleaner = SystemCleaner::new(true, true, 0);
    let mut rc = RunControl::new();
    rc.start_run(&vec!["trash".to_string(), "vim".to_string()]).unwrap();
    while let Some(id) = rc.next_operation() {
        for a in operation_actions(&id, home).unwrap() {
            if cleaner.directive(&a, false) != Directive::Proceed {
                continue;
            }
            match a {
                Action::Announce(m) => cleaner.log(&m),
                Action::PurgeDirectory(root) => {
                    let es = files_under(&fs, &root);
                    let removed = vec![false; es.len()];
                    cleaner.record_removals(&es, &removed);
                }
                Action::PurgePattern(root, pat) => {
                    let es = select_matching(&files_under(&fs, &root), &pat);
                    let removed = vec![false; es.len()];
                    cleaner.record_removals(&es, &removed);
                }
                other => panic!("unexpected {:?}", other),
            }
        }
    }
    assert!(rc.is_completed());
    let s = cleaner.get_stats_sync();
    assert_eq!((s.files_deleted, s.bytes_freed, s.directories_cleaned), (2, 15, 0));
    assert!(!cleaner.removes_files());
    assert_eq!(fs, before);
}

#[test]
fn begin_run_resets_the_cleaner() {
    let mut rc = RunControl::new();
    let mut c = SystemCleaner::new(true, false, 0);
    c.log("old line");
    c.record_removals(&vec![entry("/r/a", 3)], &vec![true]);
    let ids = vec!["trash".to_string()];
    assert_eq!(rc.begin_run(&mut c, true, 42, &ids), Ok(()));
    assert_eq!(c.log_count(), 0);
    assert_eq!(c.get_stats_sync().files_deleted, 0);
    assert_eq!(c.get_stats_sync().timestamp, 42);
    assert!(c.is_dry_run());
    c.log("kept");
    assert_eq!(rc.begin_run(&mut c, false, 43, &ids), Err(RunError::AlreadyRunning));
    assert_eq!(c.log_count(), 1);
    assert!(c.is_dry_run());
}

/// Runs the steps of `id` with tools present, logging announcements and recording
/// tool steps that would be carried out; returns the log and the tools run.
fn walk_steps(cleaner: &mut SystemCleaner, id: &str) -> Vec<String> {
    let mut spawned = Vec::new();
    for a in operation_actions(id, "/home/u").unwrap() {
        match cleaner.directive(&a, true) {
            Directive::StopOperation => break,
            Directive::Skip => continue,
            Directive::Proceed => {}
        }
        match a {
            Action::Announce(m) => cleaner.log(&m),
            Action::RunTool(t, _) => spawned.push(t),
            _ => {}
        }
    }
    spawned
}

#[test]
fn clipboard_dry_run_logs_like_live() {
    let mut dry = SystemCleaner::new(false, true, 0);
    let mut live = SystemCleaner::new(false, false, 0);
    assert!(walk_steps(&mut dry, "clipboard").is_empty());
    assert_eq!(walk_steps(&mut live, "clipboard"), vec!["xclip".to_string()]);
    assert_eq!(lines(&dry), vec!["📋 Clearing Clipboard...".to_string()]);
    assert_eq!(lines(&dry), lines(&live));
}

#[test]
fn pycache_purges_only_compiled_files() {
    let v = operation_actions("pycache", "/home/u").unwrap();
    assert_eq!(v.len(), 2);
    match &v[1] {
        Action::PurgePattern(root, pat) => {
            assert_eq!(root, "/home/u");
            assert_eq!(pat, "*.pyc");
        }
        other => panic!("unexpected {:?}", other),
    }
    let es = vec![entry("/home/u/p/__pycache__", 1), entry("/home/u/p/m.pyc", 2)];
    let mut c = SystemCleaner::new(false, true, 0);
    let mut removed = 0;
    for a in v {
        if let Action::PurgePattern(_, pat) = a {
            let sel = select_matching(&es, &pat);
            removed += sel.len();
            assert_eq!(names(&sel), vec!["m.pyc".to_string()]);
            c.record_removals(&sel, &vec![false; sel.len()]);
        }
    }
    assert_eq!(removed, 1);
    assert_eq!(c.get_stats_sync().bytes_freed, 2);
}

#[test]
fn positions_of_matching_entries() {
    let es = vec![entry("/d/a.log", 1), entry("/d/a.logx", 2), entry("/d/.log", 3), entry("/d/b", 4)];
    assert_eq!(matching_positions(&es, "*.log"), vec![0, 2]);
    assert_eq!(matching_positions(&es, "b"), vec![3]);
    assert!(matching_positions(&es, "zzz").is_empty());
}

#[test]
fn join_adds_one_separator() {
    assert_eq!(join_path("/home/u", ".vim"), "/home/u/.vim");
    assert_eq!(join_path("/home/u/", ".vim"), "/home/u/.vim");
    assert_eq!(join_path("", ".vim"), "/.vim");
    match &operation_actions("vim", "/home/u/").unwrap()[3] {
        Action::PurgePattern(root, _) => assert_eq!(root, "/home/u/.vim"),
        other => panic!("unexpected {:?}", other),
    }
}

/// Runs `ids` over an in-memory tree; a live run removes what it records.
fn run_in_memory(dry_run: bool, ids: &[&str], fs: &mut Vec<(String, u64)>) -> SystemCleaner {
    let home = "/home/u";
    let mut cleaner = SystemCleaner::new(false, dry_run, 0);
    let mut rc = RunControl::new();
    let ids: Vec<String> = ids.iter().map(|s| s.to_string()).collect();
    rc.begin_run(&mut cleaner, dry_run, 0, &ids).unwrap();
    while let Some(id) = rc.next_operation() {
        for a in operation_actions(&id, home).unwrap() {
            if cleaner.directive(&a, false) != Directive::Proceed {
                continue;
            }
            let es = match a {
                Action::Announce(m) => {
                    cleaner.log(&m);
                    continue;
                }
                Action::PurgeDirectory(root) => files_under(fs, &root),
                Action::PurgePattern(root, pat) => select_matching(&files_under(fs, &root), &pat),
                _ => continue,
            };
            let removed = vec![!dry_run; es.len()];
            if !dry_run {
                fs.retain(|(p, _)| !es.iter().any(|e| &e.path == p));
            }
            cleaner.record_removals(&es, &removed);
        }
    }
    cleaner
}

#[test]
fn overlapping_operations_dry_run_matches_live() {
    let fs: Vec<(String, u64)> = vec![
        ("/home/u/.cache/thumbnails/t.png".to_string(), 3),
        ("/home/u/.cache/x".to_string(), 4),
        ("/home/u/.vim/s.swp".to_string(), 5),
    ];
    let ids = ["tmp", "var_cache", "thumbnails", "vim"];
    let mut dry_fs = fs.clone();
    let dry = run_in_memory(true, &ids, &mut dry_fs);
    let mut live_fs = fs.clone();
    let live = run_in_memory(false, &ids, &mut live_fs);
    assert_eq!(dry_fs, fs);
    assert!(live_fs.is_empty());
    assert_eq!(lines(&dry), lines(&live));
    let (d, l) = (dry.get_stats_sync(), live.get_stats_sync());
    assert_eq!((d.files_deleted, d.bytes_freed), (3, 12));
    assert_eq!((l.files_deleted, l.bytes_freed), (3, 12));
}
