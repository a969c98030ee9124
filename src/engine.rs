use vstd::prelude::*;

use crate::catalog::{actions_view, operation_actions, operation_spec, Action, ActionView};
use crate::pattern::{glob_matches, name_matches};
use crate::size_text::{format_size, size_text};
use crate::stats::CleaningStats;

verus! {

/// A file found under a purge root: where it is, its name and its size in bytes.
#[derive(Debug)]
pub struct FileEntry {
    pub path: String,
    pub name: String,
    pub size: u64,
}

impl FileEntry {
    pub fn new(path: String, name: String, size: u64) -> (r: Self)
        ensures
            r.path == path,
            r.name == name,
            r.size == size,
    {
        FileEntry { path, name, size }
    }

    /// A field-by-field copy.
    pub fn duplicate(&self) -> (r: Self)
        ensures
            r == *self,
    {
        FileEntry { path: self.path.clone(), name: self.name.clone(), size: self.size }
    }
}

/// The log line for one removed file.
pub open spec fn deletion_line(name: Seq<char>, size: nat) -> Seq<char> {
    "Deleted: "@ + name + " ("@ + size_text(size) + ")"@
}

/// What a cleaner has recorded so far: totals, log lines in order of emission, and
/// the paths that a dry run treats as already removed.
pub struct CleanModel {
    pub files: nat,
    pub bytes: nat,
    pub lines: Seq<Seq<char>>,
    pub gone: Seq<Seq<char>>,
}

/// Whether entry `e` counts as removed: a dry run counts each path once, a live run
/// counts what the file system actually removed.
pub open spec fn counts_as_removed(dry_run: bool, gone: Seq<Seq<char>>, e: FileEntry, removed: bool) -> bool {
    if dry_run {
        !gone.contains(e.path@)
    } else {
        removed
    }
}

pub open spec fn after_entry(dry_run: bool, m: CleanModel, e: FileEntry, removed: bool) -> CleanModel {
    if counts_as_removed(dry_run, m.gone, e, removed) {
        CleanModel {
            files: m.files + 1,
            bytes: m.bytes + e.size as nat,
            lines: m.lines.push(deletion_line(e.name@, e.size as nat)),
            gone: if dry_run {
                m.gone.push(e.path@)
            } else {
                m.gone
            },
        }
    } else {
        m
    }
}

/// The record after the entries of one snapshot are handled in order; `rm[i]` tells
/// whether the live removal of `es[i]` succeeded.
pub open spec fn after_entries(dry_run: bool, m: CleanModel, es: Seq<FileEntry>, rm: Seq<bool>) -> CleanModel
    decreases es.len(),
{
    if es.len() == 0 {
        m
    } else {
        after_entry(
            dry_run,
            after_entries(dry_run, m, es.drop_last(), rm.subrange(0, es.len() - 1)),
            es.last(),
            rm[es.len() - 1],
        )
    }
}

pub open spec fn total_size(es: Seq<FileEntry>) -> nat
    decreases es.len(),
{
    if es.len() == 0 {
        0
    } else {
        total_size(es.drop_last()) + es.last().size as nat
    }
}

/// The entries whose name matches `pat`, in their order.
pub open spec fn matching(es: Seq<FileEntry>, pat: Seq<char>) -> Seq<FileEntry>
    decreases es.len(),
{
    if es.len() == 0 {
        Seq::empty()
    } else if glob_matches(es.last().name@, pat) {
        matching(es.drop_last(), pat).push(es.last())
    } else {
        matching(es.drop_last(), pat)
    }
}

pub proof fn lemma_total_size_prefix(es: Seq<FileEntry>, i: int)
    requires
        0 <= i <= es.len(),
    ensures
        total_size(es.subrange(0, i)) <= total_size(es),
    decreases es.len(),
{
    if i < es.len() {
        assert(es.drop_last().subrange(0, i) =~= es.subrange(0, i));
        lemma_total_size_prefix(es.drop_last(), i);
    } else {
        assert(es.subrange(0, i) =~= es);
    }
}

/// Keeps the entries of `entries` whose name matches `pattern`.
pub fn select_matching(entries: &Vec<FileEntry>, pattern: &str) -> (r: Vec<FileEntry>)
    ensures
        r@ == matching(entries@, pattern@),
{
    let mut r: Vec<FileEntry> = Vec::new();
    let mut i: usize = 0;
    while i < entries.len()
        invariant
            i <= entries.len(),
            r@ == matching(entries@.subrange(0, i as int), pattern@),
        decreases entries.len() - i,
    {
        let e = &entries[i];
        assert(entries@.subrange(0, i + 1).drop_last() =~= entries@.subrange(0, i as int));
        if name_matches(e.name.as_str(), pattern) {
            r.push(e.duplicate());
        }
        i = i + 1;
    }
    assert(entries@.subrange(0, entries.len() as int) =~= entries@);
    r
}

/// The positions in `entries` of the entries whose name matches `pattern`, in order:
/// the entries at those positions are `matching(entries, pattern)`.
pub fn matching_positions(entries: &Vec<FileEntry>, pattern: &str) -> (r: Vec<usize>)
    ensures
        r@.len() == matching(entries@, pattern@).len(),
        forall|k: int|
            #![trigger r@[k]]
            0 <= k < r@.len() ==> r@[k] < entries@.len() && entries@[r@[k] as int] == matching(
                entries@,
                pattern@,
            )[k],
{
    let mut r: Vec<usize> = Vec::new();
    let mut i: usize = 0;
    while i < entries.len()
        invariant
            i <= entries.len(),
            r@.len() == matching(entries@.subrange(0, i as int), pattern@).len(),
            forall|k: int|
                #![trigger r@[k]]
                0 <= k < r@.len() ==> r@[k] < i && entries@[r@[k] as int] == matching(
                    entries@.subrange(0, i as int),
                    pattern@,
                )[k],
        decreases entries.len() - i,
    {
        let ghost pre = entries@.subrange(0, i as int);
        let ghost next = entries@.subrange(0, i + 1);
        let ghost r0 = r@;
        assert(next.drop_last() =~= pre);
        assert(next.last() == entries@[i as int]);
        if name_matches(entries[i].name.as_str(), pattern) {
            assert(matching(next, pattern@) == matching(pre, pattern@).push(entries@[i as int]));
            r.push(i);
            assert forall|k: int| 0 <= k < r@.len() implies #[trigger] r@[k] < i + 1 && entries@[r@[k] as int]
                == matching(next, pattern@)[k] by {
                if k < r0.len() {
                    assert(r@[k] == r0[k]);
                    assert(r0[k] < i);
                } else {
                    assert(r@[k] == i);
                }
            }
        } else {
            assert(matching(next, pattern@) == matching(pre, pattern@));
            assert forall|k: int| 0 <= k < r@.len() implies #[trigger] r@[k] < i + 1 && entries@[r@[k] as int]
                == matching(next, pattern@)[k] by {
                assert(r0[k] < i);
            }
        }
        i = i + 1;
    }
    assert(entries@.subrange(0, entries.len() as int) =~= entries@);
    r
}

/// The message logged for a removed file: `Deleted: <name> (<size>)`.
pub fn deletion_message(name: &String, size: u64) -> (r: String)
    ensures
        r@ == deletion_line(name@, size as nat),
{
    let mut s = String::from_str("Deleted: ");
    s.append(name.as_str());
    s.append(" (");
    let t = format_size(size);
    s.append(t.as_str());
    s.append(")");
    s
}

/// Relies on `dirs::home_dir`: the current user's home directory, read from `$HOME`
/// or else from the user database. Either source that is empty gives `None`, so a
/// directory that is found is not empty (nor is its lossy text).
#[verifier::external_body]
fn lookup_home() -> (r: Option<String>)
    ensures
        r matches Some(h) ==> h@.len() > 0,
{
    dirs::home_dir().map(|p| p.to_string_lossy().into_owned())
}

/// The home directory to work under: the one found, or `/tmp` when none was.
pub fn home_or_default(found: Option<String>) -> (r: String)
    ensures
        r@ == (match found {
            Some(h) => h@,
            None => "/tmp"@,
        }),
        (found matches Some(h) ==> h@.len() > 0) ==> r@.len() > 0,
{
    proof {
        reveal_strlit("/tmp");
    }
    match found {
        Some(h) => h,
        None => String::from_str("/tmp"),
    }
}

/// What the worker does with one step of an operation.
#[derive(Clone, Copy, Debug, PartialEq, Eq, Structural)]
pub enum Directive {
    /// Carry the step out.
    Proceed,
    /// Leave this step out and go on with the next.
    Skip,
    /// Leave this step and the rest of the operation out.
    StopOperation,
}

/// A tool gate passes when the tool is present; a tool is run only in a live run;
/// every other step is carried out.
pub open spec fn directive_spec(dry_run: bool, a: ActionView, tool_present: bool) -> Directive {
    match a {
        ActionView::RequireTool(_) => if tool_present {
            Directive::Proceed
        } else {
            Directive::StopOperation
        },
        ActionView::RunTool(_, _) => if dry_run {
            Directive::Skip
        } else {
            Directive::Proceed
        },
        _ => Directive::Proceed,
    }
}

/// The cleaning engine of one run: its mode, its totals and its log.
pub struct SystemCleaner {
    verbose: bool,
    dry_run: bool,
    stats: CleaningStats,
    logs: Vec<String>,
    simulated: Vec<String>,
}

impl SystemCleaner {
    pub closed spec fn stats_spec(&self) -> CleaningStats {
        self.stats
    }

    pub closed spec fn dry_run_spec(&self) -> bool {
        self.dry_run
    }

    pub closed spec fn verbose_spec(&self) -> bool {
        self.verbose
    }

    /// The totals, the log lines and the paths a dry run has counted as removed.
    pub closed spec fn model(&self) -> CleanModel {
        CleanModel {
            files: self.stats.files_deleted as nat,
            bytes: self.stats.bytes_freed as nat,
            lines: self.logs@.map_values(|l: String| l@),
            gone: self.simulated@.map_values(|p: String| p@),
        }
    }

    /// A cleaner with zero totals and an empty log, its totals stamped with
    /// `timestamp` (seconds since the Unix epoch).
    pub fn new(verbose: bool, dry_run: bool, timestamp: i64) -> (r: Self)
        ensures
            r.verbose_spec() == verbose,
            r.dry_run_spec() == dry_run,
            r.stats_spec().directories_cleaned == 0,
            r.stats_spec().timestamp == timestamp,
            r.model() == (CleanModel { files: 0, bytes: 0, lines: Seq::empty(), gone: Seq::empty() }),
    {
        let r = SystemCleaner {
            verbose,
            dry_run,
            stats: CleaningStats::new(timestamp),
            logs: Vec::new(),
            simulated: Vec::new(),
        };
        assert(r.model().lines =~= Seq::empty());
        assert(r.model().gone =~= Seq::empty());
        r
    }

    /// The home directory of the current user, or `/tmp` when it cannot be found.
    pub fn get_home_dir(&self) -> (r: String)
        ensures
            r@.len() > 0,
    {
        home_or_default(lookup_home())
    }

    /// `bytes` in B, KB, MB, GB or TB (base 1024, stopping at TB), two decimals.
    pub fn format_bytes(bytes: u64) -> (r: String)
        ensures
            r@ == size_text(bytes as nat),
    {
        format_size(bytes)
    }

    /// A copy of the totals as they stand.
    pub fn get_stats_sync(&self) -> (r: CleaningStats)
        ensures
            r == self.stats_spec(),
            r.files_deleted == self.model().files,
            r.bytes_freed == self.model().bytes,
    {
        self.stats
    }

    /// Appends `message` to the log.
    pub fn log(&mut self, message: &str)
        ensures
            final(self).model() == (CleanModel { lines: old(self).model().lines.push(message@), ..old(self).model() }),
            final(self).stats_spec() == old(self).stats_spec(),
            final(self).dry_run_spec() == old(self).dry_run_spec(),
            final(self).verbose_spec() == old(self).verbose_spec(),
    {
        self.logs.push(String::from_str(message));
        assert(self.model().lines =~= old(self).model().lines.push(message@));
    }

    /// Number of log lines so far.
    pub fn log_count(&self) -> (r: usize)
        ensures
            r == self.model().lines.len(),
    {
        self.logs.len()
    }

    /// The log line at position `i`.
    pub fn log_line(&self, i: usize) -> (r: String)
        requires
            i < self.model().lines.len(),
        ensures
            r@ == self.model().lines[i as int],
    {
        self.logs[i].clone()
    }

    /// Whether a dry run has already counted `path` as removed.
    fn was_simulated(&self, path: &String) -> (r: bool)
        ensures
            r == self.model().gone.contains(path@),
    {
        let mut i: usize = 0;
        while i < self.simulated.len()
            invariant
                i <= self.simulated.len(),
                forall|k: int| 0 <= k < i ==> self.simulated@[k]@ != path@,
            decreases self.simulated.len() - i,
        {
            if self.simulated[i] == *path {
                assert(self.model().gone[i as int] == path@);
                return true;
            }
            i = i + 1;
        }
        false
    }

    /// Whether this run removes files from storage (false in a dry run).
    pub fn removes_files(&self) -> (r: bool)
        ensures
            r == !self.dry_run_spec(),
    {
        !self.dry_run
    }

    /// How to handle step `a`; `tool_present` tells, for a tool gate, whether the
    /// tool was found on the search path.
    pub fn directive(&self, a: &Action, tool_present: bool) -> (r: Directive)
        ensures
            r == directive_spec(self.dry_run_spec(), a@, tool_present),
    {
        match a {
            Action::RequireTool(_) => if tool_present {
                Directive::Proceed
            } else {
                Directive::StopOperation
            },
            Action::RunTool(_, _) => if self.dry_run {
                Directive::Skip
            } else {
                Directive::Proceed
            },
            _ => Directive::Proceed,
        }
    }

    /// Steps that purge the cache directories /var/cache, /tmp, /var/tmp and
    /// `home`/.cache.
    pub fn clean_system_cache(&self, home: &str) -> (r: Vec<Action>)
        ensures
            operation_spec("var_cache"@, home@) == Some(actions_view(r@)),
    {
        match operation_actions("var_cache", home) {
            Some(v) => v,
            None => Vec::new(),
        }
    }

    /// Steps that empty the trash under `home`.
    pub fn clean_trash(&self, home: &str) -> (r: Vec<Action>)
        ensures
            operation_spec("trash"@, home@) == Some(actions_view(r@)),
    {
        match operation_actions("trash", home) {
            Some(v) => v,
            None => Vec::new(),
        }
    }

    /// Steps that purge /var/log and remove the `*.log` files under `home`/.local/share
    /// and `home`/.config.
    pub fn clean_logs(&self, home: &str) -> (r: Vec<Action>)
        ensures
            operation_spec("logs"@, home@) == Some(actions_view(r@)),
    {
        match operation_actions("logs", home) {
            Some(v) => v,
            None => Vec::new(),
        }
    }

    /// Steps that purge the three thumbnail caches under `home`.
    pub fn clean_thumbnails(&self, home: &str) -> (r: Vec<Action>)
        ensures
            operation_spec("thumbnails"@, home@) == Some(actions_view(r@)),
    {
        match operation_actions("thumbnails", home) {
            Some(v) => v,
            None => Vec::new(),
        }
    }

    /// Steps that clear the clipboard with xclip when it is installed; a dry run
    /// only announces it.
    pub fn clean_clipboard(&self, home: &str) -> (r: Vec<Action>)
        ensures
            operation_spec("clipboard"@, home@) == Some(actions_view(r@)),
    {
        match operation_actions("clipboard", home) {
            Some(v) => v,
            None => Vec::new(),
        }
    }

    /// Steps that remove the recently-used documents list under `home`.
    pub fn clean_recent_docs(&self, home: &str) -> (r: Vec<Action>)
        ensures
            operation_spec("recent_docs"@, home@) == Some(actions_view(r@)),
    {
        match operation_actions("recent_docs", home) {
            Some(v) => v,
            None => Vec::new(),
        }
    }

    /// Steps of the broken-shortcut scan: an announcement, and no removal.
    pub fn clean_broken_desktop_files(&self, home: &str) -> (r: Vec<Action>)
        ensures
            operation_spec("broken_desktop"@, home@) == Some(actions_view(r@)),
    {
        match operation_actions("broken_desktop", home) {
            Some(v) => v,
            None => Vec::new(),
        }
    }

    /// Steps that remove the compiled Python files (`*.pyc`) under `home`.
    pub fn clean_python_cache(&self, home: &str) -> (r: Vec<Action>)
        ensures
            operation_spec("pycache"@, home@) == Some(actions_view(r@)),
    {
        match operation_actions("pycache", home) {
            Some(v) => v,
            None => Vec::new(),
        }
    }

    /// Steps that remove Vim swap files under `home` and `home`/.vim.
    pub fn clean_vim(&self, home: &str) -> (r: Vec<Action>)
        ensures
            operation_spec("vim"@, home@) == Some(actions_view(r@)),
    {
        match operation_actions("vim", home) {
            Some(v) => v,
            None => Vec::new(),
        }
    }

    /// Steps that remove backup files (`*~`, `*.bak`) under `home`.
    pub fn clean_backup_files(&self, home: &str) -> (r: Vec<Action>)
        ensures
            operation_spec("backup_files"@, home@) == Some(actions_view(r@)),
    {
        match operation_actions("backup_files", home) {
            Some(v) => v,
            None => Vec::new(),
        }
    }

    /// Steps that run `apt-get autoremove -y` and then `apt-get clean`, when apt-get
    /// is installed.
    pub fn clean_apt(&self, home: &str) -> (r: Vec<Action>)
        ensures
            operation_spec("apt"@, home@) == Some(actions_view(r@)),
    {
        match operation_actions("apt", home) {
            Some(v) => v,
            None => Vec::new(),
        }
    }

    /// Steps that run `dnf autoremove -y` and then `dnf clean all`, when dnf is
    /// installed.
    pub fn clean_dnf(&self, home: &str) -> (r: Vec<Action>)
        ensures
            operation_spec("dnf"@, home@) == Some(actions_view(r@)),
    {
        match operation_actions("dnf", home) {
            Some(v) => v,
            None => Vec::new(),
        }
    }

    /// Steps that, when flatpak is installed, remove unused runtimes and purge
    /// `home`/.var/app.
    pub fn clean_flatpak(&self, home: &str) -> (r: Vec<Action>)
        ensures
            operation_spec("flatpak"@, home@) == Some(actions_view(r@)),
    {
        match operation_actions("flatpak", home) {
            Some(v) => v,
            None => Vec::new(),
        }
    }

    /// Steps that purge every `cache2` directory beneath the Firefox profiles
    /// under `home`.
    pub fn clean_firefox_cache(&self, home: &str) -> (r: Vec<Action>)
        ensures
            operation_spec("firefox_cache"@, home@) == Some(actions_view(r@)),
    {
        match operation_actions("firefox_cache", home) {
            Some(v) => v,
            None => Vec::new(),
        }
    }

    /// Steps that purge the Chrome cache under `home`.
    pub fn clean_chrome_cache(&self, home: &str) -> (r: Vec<Action>)
        ensures
            operation_spec("chrome_cache"@, home@) == Some(actions_view(r@)),
    {
        match operation_actions("chrome_cache", home) {
            Some(v) => v,
            None => Vec::new(),
        }
    }

    /// Steps that purge the Brave cache under `home`.
    pub fn clean_brave_cache(&self, home: &str) -> (r: Vec<Action>)
        ensures
            operation_spec("brave_cache"@, home@) == Some(actions_view(r@)),
    {
        match operation_actions("brave_cache", home) {
            Some(v) => v,
            None => Vec::new(),
        }
    }

    /// Whether this is a dry run.
    pub fn is_dry_run(&self) -> (r: bool)
        ensures
            r == self.dry_run_spec(),
    {
        self.dry_run
    }

    /// Whether messages go to the console when nobody else receives them.
    pub fn is_verbose(&self) -> (r: bool)
        ensures
            r == self.verbose_spec(),
    {
        self.verbose
    }

    /// Whether the totals have room for every file of `entries`, so that
    /// `record_removals` may be called with them.
    pub fn can_record(&self, entries: &Vec<FileEntry>) -> (r: bool)
        ensures
            r == (self.model().files + entries.len() <= u64::MAX && self.model().bytes + total_size(
                entries@,
            ) <= u64::MAX),
    {
        if self.stats.files_deleted > u64::MAX - entries.len() as u64 {
            return false;
        }
        let mut total: u64 = self.stats.bytes_freed;
        let mut i: usize = 0;
        while i < entries.len()
            invariant
                i <= entries.len(),
                total == self.model().bytes + total_size(entries@.subrange(0, i as int)),
            decreases entries.len() - i,
        {
            assert(entries@.subrange(0, i + 1).drop_last() =~= entries@.subrange(0, i as int));
            proof {
                lemma_total_size_prefix(entries@, i + 1);
            }
            if total > u64::MAX - entries[i].size {
                return false;
            }
            total = total + entries[i].size;
            i = i + 1;
        }
        assert(entries@.subrange(0, entries.len() as int) =~= entries@);
        true
    }

    /// Records the outcome for one snapshot of files, in order. In a live run
    /// `removed[i]` tells whether removing `entries[i]` succeeded; a dry run ignores
    /// it and counts every path it has not counted before. Each counted file adds
    /// one log line `Deleted: <name> (<size>)` and its size to the totals; the
    /// others leave no trace.
    pub fn record_removals(&mut self, entries: &Vec<FileEntry>, removed: &Vec<bool>)
        requires
            removed.len() == entries.len(),
            old(self).model().files + entries.len() <= u64::MAX,
            old(self).model().bytes + total_size(entries@) <= u64::MAX,
        ensures
            final(self).model() == after_entries(old(self).dry_run_spec(), old(self).model(), entries@, removed@),
            final(self).stats_spec().directories_cleaned == old(self).stats_spec().directories_cleaned,
            final(self).stats_spec().timestamp == old(self).stats_spec().timestamp,
            final(self).dry_run_spec() == old(self).dry_run_spec(),
            final(self).verbose_spec() == old(self).verbose_spec(),
    {
        let mut i: usize = 0;
        while i < entries.len()
            invariant
                i <= entries.len(),
                removed.len() == entries.len(),
                self.dry_run == old(self).dry_run,
                self.verbose == old(self).verbose,
                self.stats.directories_cleaned == old(self).stats.directories_cleaned,
                self.stats.timestamp == old(self).stats.timestamp,
                old(self).model().files + entries.len() <= u64::MAX,
                old(self).model().bytes + total_size(entries@) <= u64::MAX,
                self.model() == after_entries(
                    self.dry_run,
                    old(self).model(),
                    entries@.subrange(0, i as int),
                    removed@.subrange(0, i as int),
                ),
                self.model().files <= old(self).model().files + i,
                self.model().bytes <= old(self).model().bytes + total_size(entries@.subrange(0, i as int)),
            decreases entries.len() - i,
        {
            let e = &entries[i];
            proof {
                let pre = entries@.subrange(0, i + 1);
                assert(pre.drop_last() =~= entries@.subrange(0, i as int));
                assert(removed@.subrange(0, i + 1).subrange(0, i as int) =~= removed@.subrange(0, i as int));
                assert(pre.last() == entries@[i as int]);
                lemma_total_size_prefix(entries@, i + 1);
            }
            let counted = if self.dry_run {
                !self.was_simulated(&e.path)
            } else {
                removed[i]
            };
            if counted {
                let ghost before = self.model();
                let line = deletion_message(&e.name, e.size);
                self.logs.push(line);
                self.stats.add_file(e.size);
                if self.dry_run {
                    self.simulated.push(e.path.clone());
                }
                assert(self.model().lines =~= before.lines.push(deletion_line(e.name@, e.size as nat)));
                if self.dry_run {
                    assert(self.model().gone =~= before.gone.push(e.path@));
                } else {
                    assert(self.model().gone =~= before.gone);
                }
            }
            i = i + 1;
        }
        assert(entries@.subrange(0, entries.len() as int) =~= entries@);
        assert(removed@.subrange(0, entries.len() as int) =~= removed@);
    }
}

/// The paths of the entries, in order.
pub open spec fn entry_paths(es: Seq<FileEntry>) -> Seq<Seq<char>> {
    es.map_values(|e: FileEntry| e.path@)
}

/// The entries whose live removal failed: what is left of them afterwards.
pub open spec fn survivors(es: Seq<FileEntry>, rm: Seq<bool>) -> Seq<FileEntry>
    decreases es.len(),
{
    if es.len() == 0 {
        Seq::empty()
    } else if rm[es.len() - 1] {
        survivors(es.drop_last(), rm.subrange(0, es.len() - 1))
    } else {
        survivors(es.drop_last(), rm.subrange(0, es.len() - 1)).push(es.last())
    }
}

/// The entries of `es` whose path is not in `gone`, in order: what a live run still
/// finds of a snapshot after removing the files at `gone` earlier in the run.
pub open spec fn unseen(es: Seq<FileEntry>, gone: Seq<Seq<char>>) -> Seq<FileEntry>
    decreases es.len(),
{
    if es.len() == 0 {
        Seq::empty()
    } else if gone.contains(es.last().path@) {
        unseen(es.drop_last(), gone)
    } else {
        unseen(es.drop_last(), gone).push(es.last())
    }
}

proof fn lemma_unseen_paths_from(es: Seq<FileEntry>, gone: Seq<Seq<char>>, p: Seq<char>)
    requires
        forall|j: int| 0 <= j < es.len() ==> (#[trigger] es[j]).path@ != p,
    ensures
        !entry_paths(unseen(es, gone)).contains(p),
    decreases es.len(),
{
    if es.len() > 0 {
        let pre = es.drop_last();
        assert forall|j: int| 0 <= j < pre.len() implies (#[trigger] pre[j]).path@ != p by {
            assert(pre[j] == es[j]);
        }
        lemma_unseen_paths_from(pre, gone, p);
        let u = unseen(pre, gone);
        if !gone.contains(es.last().path@) {
            assert(entry_paths(u.push(es.last())) =~= entry_paths(u).push(es.last().path@));
        }
    }
}

/// A dry run over a snapshot that lists each file once records the same totals and
/// the same log lines as a live run in which every removal succeeds, over what a
/// live run still finds of that snapshot: the files not removed earlier in the run.
/// Afterwards the dry run treats exactly the removed files as gone.
pub proof fn lemma_dry_run_matches_live(m: CleanModel, es: Seq<FileEntry>, rm_dry: Seq<bool>, rm_live: Seq<bool>)
    requires
        rm_dry.len() == es.len(),
        rm_live.len() == unseen(es, m.gone).len(),
        forall|i: int| 0 <= i < rm_live.len() ==> rm_live[i],
        forall|i: int, j: int| 0 <= i < j < es.len() ==> es[i].path@ != es[j].path@,
    ensures
        after_entries(true, m, es, rm_dry).files == after_entries(false, m, unseen(es, m.gone), rm_live).files,
        after_entries(true, m, es, rm_dry).bytes == after_entries(false, m, unseen(es, m.gone), rm_live).bytes,
        after_entries(true, m, es, rm_dry).lines == after_entries(false, m, unseen(es, m.gone), rm_live).lines,
        after_entries(true, m, es, rm_dry).gone == m.gone + entry_paths(unseen(es, m.gone)),
    decreases es.len(),
{
    if es.len() > 0 {
        let n = es.len() - 1;
        let pre = es.drop_last();
        let last = es.last();
        let u = unseen(pre, m.gone);
        let rl = rm_live.subrange(0, u.len() as int);
        lemma_dry_run_matches_live(m, pre, rm_dry.subrange(0, n), rl);
        let d = after_entries(true, m, pre, rm_dry.subrange(0, n));
        assert(d.gone == m.gone + entry_paths(u));
        if m.gone.contains(last.path@) {
            assert(rm_live =~= rl);
            let k = choose|k: int| 0 <= k < m.gone.len() && m.gone[k] == last.path@;
            assert(d.gone[k] == last.path@);
        } else {
            assert forall|j: int| 0 <= j < pre.len() implies (#[trigger] pre[j]).path@ != last.path@ by {
                assert(pre[j] == es[j]);
            }
            lemma_unseen_paths_from(pre, m.gone, last.path@);
            assert(!d.gone.contains(last.path@)) by {
                if d.gone.contains(last.path@) {
                    let k = choose|k: int| 0 <= k < d.gone.len() && d.gone[k] == last.path@;
                    if k < m.gone.len() {
                        assert(m.gone[k] == last.path@);
                    } else {
                        assert(entry_paths(u)[k - m.gone.len()] == last.path@);
                    }
                }
            }
            let ue = u.push(last);
            assert(ue.drop_last() =~= u);
            assert(rm_live.subrange(0, u.len() as int) =~= rl);
            assert(rm_live[u.len() as int]);
            assert(m.gone + entry_paths(ue) =~= (m.gone + entry_paths(u)).push(last.path@));
        }
    } else {
        assert(m.gone + entry_paths(es) =~= m.gone);
        assert(m.gone + entry_paths(unseen(es, m.gone)) =~= m.gone);
    }
}

/// The record after a dry run purges the snapshots `snaps`, one after another, all
/// taken of the file system as it was when the run started.
pub open spec fn dry_run_over(m: CleanModel, snaps: Seq<Seq<FileEntry>>) -> CleanModel
    decreases snaps.len(),
{
    if snaps.len() == 0 {
        m
    } else {
        let s = snaps.last();
        after_entries(true, dry_run_over(m, snaps.drop_last()), s, Seq::new(s.len(), |i: int| false))
    }
}

/// The record after a live run in which every removal succeeds purges the same
/// snapshots: each purge finds only the files that earlier purges (and the paths in
/// `m.gone`) have not removed. Here `gone` lists every path removed so far.
pub open spec fn live_run_over(m: CleanModel, snaps: Seq<Seq<FileEntry>>) -> CleanModel
    decreases snaps.len(),
{
    if snaps.len() == 0 {
        m
    } else {
        let p = live_run_over(m, snaps.drop_last());
        let s = unseen(snaps.last(), p.gone);
        let a = after_entries(false, p, s, Seq::new(s.len(), |i: int| true));
        CleanModel { gone: p.gone + entry_paths(s), ..a }
    }
}

/// Over a whole run, a dry run records the same totals and the same log lines as a
/// live run in which every removal succeeds, when each snapshot lists each path once:
/// files met again by a later purge are counted once, as a live run finds them gone.
pub proof fn lemma_dry_run_matches_live_run(m: CleanModel, snaps: Seq<Seq<FileEntry>>)
    requires
        forall|k: int, i: int, j: int|
            0 <= k < snaps.len() && 0 <= i < j < snaps[k].len() ==> (#[trigger] snaps[k][i]).path@
                != (#[trigger] snaps[k][j]).path@,
    ensures
        dry_run_over(m, snaps) == live_run_over(m, snaps),
    decreases snaps.len(),
{
    if snaps.len() > 0 {
        let pre = snaps.drop_last();
        assert forall|k: int, i: int, j: int|
            0 <= k < pre.len() && 0 <= i < j < pre[k].len() implies (#[trigger] pre[k][i]).path@
                != (#[trigger] pre[k][j]).path@ by {
            assert(pre[k] == snaps[k]);
            assert(snaps[k][i] == pre[k][i] && snaps[k][j] == pre[k][j]);
        }
        lemma_dry_run_matches_live_run(m, pre);
        let p = dry_run_over(m, pre);
        let last = snaps.last();
        assert forall|i: int, j: int| 0 <= i < j < last.len() implies last[i].path@ != last[j].path@ by {
            assert(last == snaps[snaps.len() - 1]);
            assert(snaps[snaps.len() - 1][i] == last[i] && snaps[snaps.len() - 1][j] == last[j]);
        }
        let s = unseen(last, p.gone);
        lemma_dry_run_matches_live(p, last, Seq::new(last.len(), |i: int| false), Seq::new(s.len(), |i: int| true));
    }
}

/// The mode of a run changes one thing only: a live run carries tool steps out and a
/// dry run skips them. Every other step, announcements and tool gates included, is
/// handled alike, so a dry run logs each announcement that a live run logs.
pub proof fn lemma_mode_only_affects_tools(a: ActionView, tool_present: bool)
    ensures
        a is RunTool ==> directive_spec(true, a, tool_present) == Directive::Skip
            && directive_spec(false, a, tool_present) == Directive::Proceed,
        !(a is RunTool) ==> directive_spec(true, a, tool_present) == directive_spec(false, a, tool_present),
{
}

/// In a dry run nothing is spawned: a tool step is never carried out.
pub proof fn lemma_dry_run_spawns_nothing(a: ActionView, tool_present: bool)
    ensures
        a is RunTool ==> directive_spec(true, a, tool_present) != Directive::Proceed,
{
}

/// A dry-run record never grows again for files that it already counts as gone.
pub proof fn lemma_dry_run_counted_files_stay(m: CleanModel, es: Seq<FileEntry>, rm: Seq<bool>)
    requires
        forall|i: int| 0 <= i < es.len() ==> m.gone.contains(#[trigger] es[i].path@),
    ensures
        after_entries(true, m, es, rm) == m,
    decreases es.len(),
{
    if es.len() > 0 {
        let n = es.len() - 1;
        assert forall|i: int| 0 <= i < es.drop_last().len() implies m.gone.contains(
            #[trigger] es.drop_last()[i].path@,
        ) by {
            assert(es.drop_last()[i] == es[i]);
        }
        lemma_dry_run_counted_files_stay(m, es.drop_last(), rm.subrange(0, n));
        assert(m.gone.contains(es[n].path@));
    }
}

/// After a dry run over a snapshot every file of it counts as gone, and what was
/// gone before stays gone.
pub proof fn lemma_dry_run_marks_gone(m: CleanModel, es: Seq<FileEntry>, rm: Seq<bool>)
    ensures
        forall|i: int| 0 <= i < es.len() ==> after_entries(true, m, es, rm).gone.contains(#[trigger] es[i].path@),
        forall|p: Seq<char>| m.gone.contains(p) ==> after_entries(true, m, es, rm).gone.contains(p),
    decreases es.len(),
{
    if es.len() > 0 {
        let n = es.len() - 1;
        let pre = es.drop_last();
        let d = after_entries(true, m, pre, rm.subrange(0, n));
        lemma_dry_run_marks_gone(m, pre, rm.subrange(0, n));
        let a = after_entries(true, m, es, rm);
        assert forall|p: Seq<char>| d.gone.contains(p) implies a.gone.contains(p) by {
            if !counts_as_removed(true, d.gone, es.last(), rm[n]) {
            } else {
                let k = choose|k: int| 0 <= k < d.gone.len() && d.gone[k] == p;
                assert(a.gone[k] == p);
            }
        }
        assert forall|i: int| 0 <= i < es.len() implies a.gone.contains(#[trigger] es[i].path@) by {
            if i < n {
                assert(pre[i] == es[i]);
                assert(d.gone.contains(pre[i].path@));
            } else {
                if counts_as_removed(true, d.gone, es.last(), rm[n]) {
                    assert(a.gone[a.gone.len() - 1] == es[i].path@);
                }
            }
        }
    }
}

/// Running the same dry-run purge twice adds nothing the second time.
pub proof fn lemma_dry_run_rerun_adds_nothing(m: CleanModel, es: Seq<FileEntry>, rm1: Seq<bool>, rm2: Seq<bool>)
    ensures
        after_entries(true, after_entries(true, m, es, rm1), es, rm2) == after_entries(true, m, es, rm1),
{
    lemma_dry_run_marks_gone(m, es, rm1);
    lemma_dry_run_counted_files_stay(after_entries(true, m, es, rm1), es, rm2);
}

/// When every live removal of a snapshot succeeds nothing of it is left, so running
/// the same purge again over what is left adds no file, no byte and no line.
pub proof fn lemma_live_rerun_adds_nothing(m: CleanModel, es: Seq<FileEntry>, rm: Seq<bool>, rm2: Seq<bool>)
    requires
        rm.len() == es.len(),
        forall|i: int| 0 <= i < es.len() ==> rm[i],
    ensures
        survivors(es, rm).len() == 0,
        after_entries(false, after_entries(false, m, es, rm), survivors(es, rm), rm2) == after_entries(
            false,
            m,
            es,
            rm,
        ),
    decreases es.len(),
{
    if es.len() > 0 {
        let n = es.len() - 1;
        lemma_live_rerun_adds_nothing(m, es.drop_last(), rm.subrange(0, n), rm2);
        assert(rm[n]);
    }
}

/// Handling two snapshots one after the other is handling their concatenation: the
/// lines of the first come before those of the second, each in snapshot order.
pub proof fn lemma_entries_in_sequence(
    dry_run: bool,
    m: CleanModel,
    a: Seq<FileEntry>,
    b: Seq<FileEntry>,
    ra: Seq<bool>,
    rb: Seq<bool>,
)
    requires
        ra.len() == a.len(),
        rb.len() == b.len(),
    ensures
        after_entries(dry_run, m, a + b, ra + rb) == after_entries(dry_run, after_entries(dry_run, m, a, ra), b, rb),
    decreases b.len(),
{
    if b.len() == 0 {
        assert(a + b =~= a);
        assert(ra + rb =~= ra);
    } else {
        let n = b.len() - 1;
        lemma_entries_in_sequence(dry_run, m, a, b.drop_last(), ra, rb.subrange(0, n));
        assert((a + b).drop_last() =~= a + b.drop_last());
        assert((ra + rb).subrange(0, a.len() + n) =~= ra + rb.subrange(0, n));
    }
}

/// Lines once logged stay, in place: a record only appends.
pub proof fn lemma_lines_only_grow(dry_run: bool, m: CleanModel, es: Seq<FileEntry>, rm: Seq<bool>)
    ensures
        m.lines.len() <= after_entries(dry_run, m, es, rm).lines.len(),
        after_entries(dry_run, m, es, rm).lines.subrange(0, m.lines.len() as int) == m.lines,
        m.files <= after_entries(dry_run, m, es, rm).files,
        m.bytes <= after_entries(dry_run, m, es, rm).bytes,
    decreases es.len(),
{
    if es.len() > 0 {
        let n = es.len() - 1;
        lemma_lines_only_grow(dry_run, m, es.drop_last(), rm.subrange(0, n));
        let d = after_entries(dry_run, m, es.drop_last(), rm.subrange(0, n));
        let a = after_entries(dry_run, m, es, rm);
        if counts_as_removed(dry_run, d.gone, es.last(), rm[n]) {
            assert(a.lines.subrange(0, m.lines.len() as int) =~= d.lines.subrange(0, m.lines.len() as int));
        }
    } else {
        assert(m.lines.subrange(0, m.lines.len() as int) =~= m.lines);
    }
}

} // verus!
