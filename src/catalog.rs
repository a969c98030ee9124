use vstd::prelude::*;

use crate::pattern::text_equals;

verus! {

/// One step of a cleaning operation.
#[derive(Debug)]
pub enum Action {
    /// Emit a progress message.
    Announce(String),
    /// Remove every file beneath a root, keeping the root.
    PurgeDirectory(String),
    /// Remove the files beneath a root whose name matches a pattern.
    PurgePattern(String, String),
    /// Purge every directory with the given name found beneath a root.
    PurgeNamedDirectories(String, String),
    /// Go on only when the tool is on the search path.
    RequireTool(String),
    /// Run a tool with fixed arguments (live runs only).
    RunTool(String, Vec<String>),
}

pub enum ActionView {
    Announce(Seq<char>),
    PurgeDirectory(Seq<char>),
    PurgePattern(Seq<char>, Seq<char>),
    PurgeNamedDirectories(Seq<char>, Seq<char>),
    RequireTool(Seq<char>),
    RunTool(Seq<char>, Seq<Seq<char>>),
}

pub open spec fn texts(v: Seq<String>) -> Seq<Seq<char>> {
    v.map_values(|s: String| s@)
}

impl View for Action {
    type V = ActionView;

    open spec fn view(&self) -> ActionView {
        match self {
            Action::Announce(m) => ActionView::Announce(m@),
            Action::PurgeDirectory(d) => ActionView::PurgeDirectory(d@),
            Action::PurgePattern(d, p) => ActionView::PurgePattern(d@, p@),
            Action::PurgeNamedDirectories(d, n) => ActionView::PurgeNamedDirectories(d@, n@),
            Action::RequireTool(t) => ActionView::RequireTool(t@),
            Action::RunTool(t, a) => ActionView::RunTool(t@, texts(a@)),
        }
    }
}

pub open spec fn actions_view(v: Seq<Action>) -> Seq<ActionView> {
    v.map_values(|a: Action| a@)
}

/// `rel` beneath the directory `home`, with one `/` between them: none is added
/// when `home` already ends in one.
pub open spec fn join(home: Seq<char>, rel: Seq<char>) -> Seq<char> {
    if home.len() > 0 && home.last() == '/' {
        home + rel
    } else {
        home + "/"@ + rel
    }
}

pub open spec fn purge_under(home: Seq<char>, rel: Seq<char>) -> ActionView {
    ActionView::PurgeDirectory(join(home, rel))
}

pub open spec fn pattern_under(home: Seq<char>, rel: Seq<char>, pat: Seq<char>) -> ActionView {
    ActionView::PurgePattern(join(home, rel), pat)
}

/// The fixed catalog: for each known operation identifier, its steps, with the
/// user's files under `home`. Unknown identifiers have no entry.
pub open spec fn operation_spec(id: Seq<char>, home: Seq<char>) -> Option<Seq<ActionView>> {
    if id == "tmp"@ || id == "var_cache"@ {
        Some(seq![
            ActionView::PurgeDirectory("/var/cache"@),
            ActionView::PurgeDirectory("/tmp"@),
            ActionView::PurgeDirectory("/var/tmp"@),
            purge_under(home, ".cache"@),
        ])
    } else if id == "trash"@ {
        Some(seq![ActionView::Announce("🗑️ Emptying Trash..."@), purge_under(home, ".local/share/Trash"@)])
    } else if id == "logs"@ {
        Some(seq![
            ActionView::Announce("📜 Cleaning System Logs..."@),
            ActionView::PurgeDirectory("/var/log"@),
            pattern_under(home, ".local/share"@, "*.log"@),
            pattern_under(home, ".config"@, "*.log"@),
        ])
    } else if id == "thumbnails"@ {
        Some(seq![
            ActionView::Announce("🖼️ Cleaning Thumbnails..."@),
            purge_under(home, ".thumbnails"@),
            purge_under(home, ".cache/thumbnails"@),
            purge_under(home, ".local/share/thumbnails"@),
        ])
    } else if id == "clipboard"@ {
        Some(seq![
            ActionView::RequireTool("xclip"@),
            ActionView::Announce("📋 Clearing Clipboard..."@),
            ActionView::RunTool("xclip"@, seq!["-selection"@, "clipboard"@, "/dev/null"@]),
        ])
    } else if id == "recent_docs"@ {
        Some(seq![pattern_under(home, ".local/share"@, "recently-used.xbel"@)])
    } else if id == "broken_desktop"@ {
        Some(seq![ActionView::Announce("🔗 Scanning broken shortcuts..."@)])
    } else if id == "pycache"@ {
        Some(seq![
            ActionView::Announce("🐍 Cleaning Python Cache..."@),
            ActionView::PurgePattern(home, "*.pyc"@),
        ])
    } else if id == "vim"@ {
        Some(seq![
            ActionView::Announce("📝 Cleaning Vim Swap files..."@),
            ActionView::PurgePattern(home, "*.swp"@),
            ActionView::PurgePattern(home, "*.swo"@),
            pattern_under(home, ".vim"@, "*.swp"@),
        ])
    } else if id == "backup_files"@ {
        Some(seq![
            ActionView::Announce("💾 Cleaning Backup files..."@),
            ActionView::PurgePattern(home, "*~"@),
            ActionView::PurgePattern(home, "*.bak"@),
        ])
    } else if id == "apt"@ {
        Some(seq![
            ActionView::RequireTool("apt-get"@),
            ActionView::Announce("📦 Running APT cleanup..."@),
            ActionView::RunTool("apt-get"@, seq!["autoremove"@, "-y"@]),
            ActionView::RunTool("apt-get"@, seq!["clean"@]),
        ])
    } else if id == "dnf"@ {
        Some(seq![
            ActionView::RequireTool("dnf"@),
            ActionView::Announce("📦 Running DNF cleanup..."@),
            ActionView::RunTool("dnf"@, seq!["autoremove"@, "-y"@]),
            ActionView::RunTool("dnf"@, seq!["clean"@, "all"@]),
        ])
    } else if id == "flatpak"@ {
        Some(seq![
            ActionView::RequireTool("flatpak"@),
            ActionView::Announce("📦 Cleaning Flatpak cache..."@),
            ActionView::RunTool("flatpak"@, seq!["uninstall"@, "--unused"@, "-y"@]),
            purge_under(home, ".var/app"@),
        ])
    } else if id == "firefox_cache"@ {
        Some(seq![
            ActionView::Announce("🔥 Cleaning Firefox Cache..."@),
            ActionView::PurgeNamedDirectories(join(home, ".mozilla/firefox"@), "cache2"@),
        ])
    } else if id == "chrome_cache"@ {
        Some(seq![
            ActionView::Announce("🌐 Cleaning Chrome Cache..."@),
            purge_under(home, ".config/google-chrome/Default/Cache"@),
        ])
    } else if id == "brave_cache"@ {
        Some(seq![
            ActionView::Announce("🦁 Cleaning Brave Cache..."@),
            purge_under(home, ".config/BraveSoftware/Brave-Browser/Default/Cache"@),
        ])
    } else {
        None
    }
}

/// `rel` beneath the directory `home`.
pub fn join_path(home: &str, rel: &str) -> (r: String)
    ensures
        r@ == join(home@, rel@),
{
    let mut s = String::from_str(home);
    let n = home.unicode_len();
    if n == 0 || home.get_char(n - 1) != '/' {
        s.append("/");
    }
    s.append(rel);
    s
}

fn announce(m: &str) -> (r: Action)
    ensures
        r@ == ActionView::Announce(m@),
{
    Action::Announce(String::from_str(m))
}

fn purge(d: &str) -> (r: Action)
    ensures
        r@ == ActionView::PurgeDirectory(d@),
{
    Action::PurgeDirectory(String::from_str(d))
}

fn purge_home(home: &str, rel: &str) -> (r: Action)
    ensures
        r@ == purge_under(home@, rel@),
{
    Action::PurgeDirectory(join_path(home, rel))
}

fn pattern(root: String, pat: &str) -> (r: Action)
    ensures
        r@ == ActionView::PurgePattern(root@, pat@),
{
    Action::PurgePattern(root, String::from_str(pat))
}

fn require(t: &str) -> (r: Action)
    ensures
        r@ == ActionView::RequireTool(t@),
{
    Action::RequireTool(String::from_str(t))
}

fn tool1(t: &str, a: &str) -> (r: Action)
    ensures
        r@ == ActionView::RunTool(t@, seq![a@]),
{
    let args = vec![String::from_str(a)];
    assert(texts(args@) =~= seq![a@]);
    Action::RunTool(String::from_str(t), args)
}

fn tool2(t: &str, a: &str, b: &str) -> (r: Action)
    ensures
        r@ == ActionView::RunTool(t@, seq![a@, b@]),
{
    let args = vec![String::from_str(a), String::from_str(b)];
    assert(texts(args@) =~= seq![a@, b@]);
    Action::RunTool(String::from_str(t), args)
}

fn tool3(t: &str, a: &str, b: &str, c: &str) -> (r: Action)
    ensures
        r@ == ActionView::RunTool(t@, seq![a@, b@, c@]),
{
    let args = vec![String::from_str(a), String::from_str(b), String::from_str(c)];
    assert(texts(args@) =~= seq![a@, b@, c@]);
    Action::RunTool(String::from_str(t), args)
}

/// The steps of operation `id`, with the user's files under `home`; `None` for an
/// identifier outside the catalog.
pub fn operation_actions(id: &str, home: &str) -> (r: Option<Vec<Action>>)
    ensures
        match r {
            Some(v) => operation_spec(id@, home@) == Some(actions_view(v@)),
            None => operation_spec(id@, home@) is None,
        },
{
    let v: Vec<Action> = if text_equals(id, "tmp") || text_equals(id, "var_cache") {
        vec![purge("/var/cache"), purge("/tmp"), purge("/var/tmp"), purge_home(home, ".cache")]
    } else if text_equals(id, "trash") {
        vec![announce("🗑️ Emptying Trash..."), purge_home(home, ".local/share/Trash")]
    } else if text_equals(id, "logs") {
        vec![
            announce("📜 Cleaning System Logs..."),
            purge("/var/log"),
            pattern(join_path(home, ".local/share"), "*.log"),
            pattern(join_path(home, ".config"), "*.log"),
        ]
    } else if text_equals(id, "thumbnails") {
        vec![
            announce("🖼️ Cleaning Thumbnails..."),
            purge_home(home, ".thumbnails"),
            purge_home(home, ".cache/thumbnails"),
            purge_home(home, ".local/share/thumbnails"),
        ]
    } else if text_equals(id, "clipboard") {
        vec![
            require("xclip"),
            announce("📋 Clearing Clipboard..."),
            tool3("xclip", "-selection", "clipboard", "/dev/null"),
        ]
    } else if text_equals(id, "recent_docs") {
        vec![pattern(join_path(home, ".local/share"), "recently-used.xbel")]
    } else if text_equals(id, "broken_desktop") {
        vec![announce("🔗 Scanning broken shortcuts...")]
    } else if text_equals(id, "pycache") {
        vec![
            announce("🐍 Cleaning Python Cache..."),
            pattern(String::from_str(home), "*.pyc"),
        ]
    } else if text_equals(id, "vim") {
        vec![
            announce("📝 Cleaning Vim Swap files..."),
            pattern(String::from_str(home), "*.swp"),
            pattern(String::from_str(home), "*.swo"),
            pattern(join_path(home, ".vim"), "*.swp"),
        ]
    } else if text_equals(id, "backup_files") {
        vec![
            announce("💾 Cleaning Backup files..."),
            pattern(String::from_str(home), "*~"),
            pattern(String::from_str(home), "*.bak"),
        ]
    } else if text_equals(id, "apt") {
        vec![
            require("apt-get"),
            announce("📦 Running APT cleanup..."),
            tool2("apt-get", "autoremove", "-y"),
            tool1("apt-get", "clean"),
        ]
    } else if text_equals(id, "dnf") {
        vec![
            require("dnf"),
            announce("📦 Running DNF cleanup..."),
            tool2("dnf", "autoremove", "-y"),
            tool2("dnf", "clean", "all"),
        ]
    } else if text_equals(id, "flatpak") {
        vec![
            require("flatpak"),
            announce("📦 Cleaning Flatpak cache..."),
            tool3("flatpak", "uninstall", "--unused", "-y"),
            purge_home(home, ".var/app"),
        ]
    } else if text_equals(id, "firefox_cache") {
        vec![
            announce("🔥 Cleaning Firefox Cache..."),
            Action::PurgeNamedDirectories(join_path(home, ".mozilla/firefox"), String::from_str("cache2")),
        ]
    } else if text_equals(id, "chrome_cache") {
        vec![
            announce("🌐 Cleaning Chrome Cache..."),
            purge_home(home, ".config/google-chrome/Default/Cache"),
        ]
    } else if text_equals(id, "brave_cache") {
        vec![
            announce("🦁 Cleaning Brave Cache..."),
            purge_home(home, ".config/BraveSoftware/Brave-Browser/Default/Cache"),
        ]
    } else {
        return None;
    };
    assert(actions_view(v@) =~= operation_spec(id@, home@)->Some_0);
    Some(v)
}

/// Whether `id` names an operation of the catalog.
pub open spec fn is_known_operation(id: Seq<char>) -> bool {
    operation_spec(id, Seq::empty()) is Some
}

/// Whether `id` names an operation of the catalog.
pub fn is_known(id: &str) -> (r: bool)
    ensures
        r == is_known_operation(id@),
{
    proof {
        reveal_strlit("");
    }
    operation_actions(id, "").is_some()
}

} // verus!
