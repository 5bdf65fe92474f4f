//! Configuration schema definitions.

use vstd::prelude::*;
use crate::text::{clone_strings, str_eq, owned, strings_of, str_views, views};

verus! {

/// Root configuration structure.
#[derive(Debug, Clone)]
pub struct Config {
    pub general: GeneralConfig,
    pub aria2: Aria2Config,
    pub scheduler: SchedulerConfig,
    pub postprocess: PostprocessConfig,
    pub hooks: HooksConfig,
    pub ui: UiConfig,
    pub notifications: NotificationsConfig,
    pub integration: IntegrationConfig,
}

impl Config {
    /// Whether every section holds its default values.
    pub open spec fn is_default(self) -> bool {
        &&& self.general.is_default()
        &&& self.aria2.is_default()
        &&& self.scheduler.is_default()
        &&& self.postprocess.is_default()
        &&& self.hooks.is_default()
        &&& self.ui.is_default()
        &&& self.notifications.is_default()
        &&& self.integration.is_default()
    }
}

impl Default for Config {
    fn default() -> (c: Config)
        ensures
            c.is_default(),
    {
        Config {
            general: GeneralConfig::default(),
            aria2: Aria2Config::default(),
            scheduler: SchedulerConfig::default(),
            postprocess: PostprocessConfig::default(),
            hooks: HooksConfig::default(),
            ui: UiConfig::default(),
            notifications: NotificationsConfig::default(),
            integration: IntegrationConfig::default(),
        }
    }
}

/// General settings.
#[derive(Debug, Clone)]
pub struct GeneralConfig {
    pub download_dir: String,
    pub max_concurrent: usize,
    pub clipboard_monitor: bool,
    pub clipboard_patterns: Vec<String>,
    pub data_dir: String,
}

impl GeneralConfig {
    pub open spec fn is_default(self) -> bool {
        &&& self.download_dir@ == "~/Downloads"@
        &&& self.max_concurrent == 5
        &&& !self.clipboard_monitor
        &&& self.clipboard_patterns@.len() == 0
        &&& self.data_dir@ == "~/.local/share/rustaria"@
    }
}

impl Default for GeneralConfig {
    fn default() -> (c: GeneralConfig)
        ensures
            c.is_default(),
    {
        GeneralConfig {
            download_dir: owned("~/Downloads"),
            max_concurrent: 5,
            clipboard_monitor: false,
            clipboard_patterns: Vec::new(),
            data_dir: owned("~/.local/share/rustaria"),
        }
    }
}

/// aria2 connection settings.
#[derive(Debug, Clone)]
pub struct Aria2Config {
    pub rpc_url: String,
    pub rpc_secret: String,
    pub auto_start: bool,
    pub binary_path: String,
    pub extra_args: Vec<String>,
}

impl Aria2Config {
    pub open spec fn is_default(self) -> bool {
        &&& self.rpc_url@ == "http://127.0.0.1:6800/jsonrpc"@
        &&& self.rpc_secret@.len() == 0
        &&& self.auto_start
        &&& self.binary_path@.len() == 0
        &&& views(self.extra_args@) == seq![
            "--max-connection-per-server=16"@,
            "--split=16"@,
        ]
    }
}

impl Default for Aria2Config {
    fn default() -> (c: Aria2Config)
        ensures
            c.is_default(),
    {
        let extra_args = strings_of(&["--max-connection-per-server=16", "--split=16"]);
        assert(str_views(seq!["--max-connection-per-server=16", "--split=16"]) =~= seq![
            "--max-connection-per-server=16"@,
            "--split=16"@,
        ]);
        Aria2Config {
            rpc_url: owned("http://127.0.0.1:6800/jsonrpc"),
            rpc_secret: String::new(),
            auto_start: true,
            binary_path: String::new(),
            extra_args,
        }
    }
}

/// Scheduler settings.
#[derive(Debug, Clone)]
pub struct SchedulerConfig {
    pub enabled: bool,
    pub active_window: Option<String>,
    pub bandwidth_limit: u64,
}

impl SchedulerConfig {
    pub open spec fn is_default(self) -> bool {
        !self.enabled && self.active_window is None && self.bandwidth_limit == 0
    }
}

impl Default for SchedulerConfig {
    fn default() -> (c: SchedulerConfig)
        ensures
            c.is_default(),
    {
        SchedulerConfig { enabled: false, active_window: None, bandwidth_limit: 0 }
    }
}

/// The characters of each category name and of each of its extensions.
pub open spec fn categories_view(c: Seq<(String, Vec<String>)>) -> Seq<(Seq<char>, Seq<Seq<char>>)> {
    c.map_values(|e: (String, Vec<String>)| (e.0@, views(e.1@)))
}

/// The categories and extensions that the default configuration sorts by.
pub open spec fn default_categories() -> Seq<(Seq<char>, Seq<Seq<char>>)> {
    seq![
        ("video"@, seq!["mp4"@, "mkv"@, "avi"@, "mov"@, "webm"@]),
        ("audio"@, seq!["mp3"@, "flac"@, "wav"@, "aac"@, "ogg"@]),
        ("documents"@, seq!["pdf"@, "doc"@, "docx"@, "xls"@, "xlsx"@, "ppt"@, "pptx"@]),
        ("archives"@, seq!["zip"@, "tar"@, "gz"@, "rar"@, "7z"@]),
    ]
}

/// Whether no category name occurs twice.
pub open spec fn category_names_distinct(c: Seq<(String, Vec<String>)>) -> bool {
    forall|i: int, j: int| 0 <= i < j < c.len() ==> (#[trigger] c[i]).0@ != (#[trigger] c[j]).0@
}

/// The categories that files are sorted into, each with the extensions it
/// lists, in order: a file goes to the first category that lists its
/// extension. No category name occurs twice, as no key of the configuration
/// file's table does.
#[derive(Debug)]
pub struct Categories {
    entries: Vec<(String, Vec<String>)>,
}

impl View for Categories {
    type V = Seq<(String, Vec<String>)>;

    closed spec fn view(&self) -> Seq<(String, Vec<String>)> {
        self.entries@
    }
}

impl Categories {
    #[verifier::type_invariant]
    spec fn inv(self) -> bool {
        category_names_distinct(self.entries@)
    }

    /// The categories `pairs`, in their order; `None` where a name occurs
    /// twice.
    pub fn new(pairs: Vec<(String, Vec<String>)>) -> (r: Option<Categories>)
        ensures
            r is Some <==> category_names_distinct(pairs@),
            r matches Some(c) ==> c@ == pairs@,
    {
        let n = pairs.len();
        for i in 0..n
            invariant
                n == pairs@.len(),
                forall|a: int, b: int|
                    0 <= a < b < n && a < i ==> (#[trigger] pairs@[a]).0@ != (#[trigger] pairs@[b]).0@,
        {
            for j in i + 1..n
                invariant
                    n == pairs@.len(),
                    i < n,
                    forall|a: int, b: int|
                        0 <= a < b < n && a < i ==> (#[trigger] pairs@[a]).0@ != (#[trigger] pairs@[b]).0@,
                    forall|b: int| i < b < j ==> pairs@[i as int].0@ != (#[trigger] pairs@[b]).0@,
            {
                if str_eq(pairs[i].0.as_str(), pairs[j].0.as_str()) {
                    assert(!category_names_distinct(pairs@)) by {
                        assert(pairs@[i as int].0@ == pairs@[j as int].0@);
                    }
                    return None;
                }
            }
        }
        Some(Categories { entries: pairs })
    }

    /// The categories, in order (no name occurring twice).
    pub fn entries(&self) -> (r: &Vec<(String, Vec<String>)>)
        ensures
            r@ == self@,
            category_names_distinct(r@),
    {
        proof {
            use_type_invariant(self);
        }
        &self.entries
    }

    /// A copy of the categories: the same names and extensions.
    pub fn copy(&self) -> (r: Categories)
        ensures
            categories_view(r@) == categories_view(self@),
    {
        proof {
            use_type_invariant(self);
        }
        let mut entries: Vec<(String, Vec<String>)> = Vec::new();
        let n = self.entries.len();
        for i in 0..n
            invariant
                n == self.entries@.len(),
                category_names_distinct(self.entries@),
                entries@.len() == i,
                forall|j: int|
                    0 <= j < i ==> (#[trigger] entries@[j]).0@ == self.entries@[j].0@ && views(
                        entries@[j].1@,
                    ) == views(self.entries@[j].1@),
        {
            let name = owned(self.entries[i].0.as_str());
            let exts = clone_strings(&self.entries[i].1);
            entries.push((name, exts));
        }
        assert(categories_view(entries@) =~= categories_view(self.entries@));
        assert(category_names_distinct(entries@)) by {
            assert forall|a: int, b: int| 0 <= a < b < entries@.len() implies (#[trigger] entries@[a]).0@
                != (#[trigger] entries@[b]).0@ by {
                assert(self.entries@[a].0@ != self.entries@[b].0@);
            }
        }
        Categories { entries }
    }

    /// The number of categories.
    pub fn len(&self) -> (n: usize)
        ensures
            n == self@.len(),
    {
        self.entries.len()
    }
}

impl Clone for Categories {
    fn clone(&self) -> (r: Categories)
        ensures
            categories_view(r@) == categories_view(self@),
    {
        self.copy()
    }
}

/// Post-processing settings.
#[derive(Debug, Clone)]
pub struct PostprocessConfig {
    pub auto_organize: bool,
    pub categories: Categories,
    pub auto_extract: bool,
    pub merge_media: bool,
    pub ffmpeg_path: String,
}

impl PostprocessConfig {
    pub open spec fn is_default(self) -> bool {
        &&& self.auto_organize
        &&& categories_view(self.categories@) == default_categories()
        &&& !self.auto_extract
        &&& self.merge_media
        &&& self.ffmpeg_path@.len() == 0
    }
}

impl Default for PostprocessConfig {
    fn default() -> (c: PostprocessConfig)
        ensures
            c.is_default(),
            category_names_distinct(c.categories@),
    {
        let video = strings_of(&["mp4", "mkv", "avi", "mov", "webm"]);
        let audio = strings_of(&["mp3", "flac", "wav", "aac", "ogg"]);
        let documents = strings_of(&["pdf", "doc", "docx", "xls", "xlsx", "ppt", "pptx"]);
        let archives = strings_of(&["zip", "tar", "gz", "rar", "7z"]);
        assert(str_views(seq!["mp4", "mkv", "avi", "mov", "webm"]) =~= seq![
            "mp4"@,
            "mkv"@,
            "avi"@,
            "mov"@,
            "webm"@,
        ]);
        assert(str_views(seq!["mp3", "flac", "wav", "aac", "ogg"]) =~= seq![
            "mp3"@,
            "flac"@,
            "wav"@,
            "aac"@,
            "ogg"@,
        ]);
        assert(str_views(seq!["pdf", "doc", "docx", "xls", "xlsx", "ppt", "pptx"]) =~= seq![
            "pdf"@,
            "doc"@,
            "docx"@,
            "xls"@,
            "xlsx"@,
            "ppt"@,
            "pptx"@,
        ]);
        assert(str_views(seq!["zip", "tar", "gz", "rar", "7z"]) =~= seq![
            "zip"@,
            "tar"@,
            "gz"@,
            "rar"@,
            "7z"@,
        ]);
        let mut categories: Vec<(String, Vec<String>)> = Vec::new();
        categories.push((owned("video"), video));
        categories.push((owned("audio"), audio));
        categories.push((owned("documents"), documents));
        categories.push((owned("archives"), archives));
        assert(categories_view(categories@) =~= default_categories());
        proof {
            reveal_strlit("video");
            reveal_strlit("audio");
            reveal_strlit("documents");
            reveal_strlit("archives");
            let names = seq!["video"@, "audio"@, "documents"@, "archives"@];
            assert forall|i: int, j: int| 0 <= i < j < categories@.len() implies (#[trigger] categories@[i]).0@
                != (#[trigger] categories@[j]).0@ by {
                assert(categories@[i].0@ == names[i]);
                assert(categories@[j].0@ == names[j]);
                assert(names[0][0] != names[1][0]);
                assert(names[0].len() != names[2].len());
                assert(names[0].len() != names[3].len());
                assert(names[1].len() != names[2].len());
                assert(names[1].len() != names[3].len());
                assert(names[2].len() != names[3].len());
            }
        }
        PostprocessConfig {
            auto_organize: true,
            categories: Categories { entries: categories },
            auto_extract: false,
            merge_media: true,
            ffmpeg_path: String::new(),
        }
    }
}

/// Hook scripts.
#[derive(Debug, Clone)]
pub struct HooksConfig {
    pub on_complete: Option<String>,
    pub on_error: Option<String>,
    pub on_queue_empty: Option<String>,
}

impl HooksConfig {
    pub open spec fn is_default(self) -> bool {
        self.on_complete is None && self.on_error is None && self.on_queue_empty is None
    }
}

impl Default for HooksConfig {
    fn default() -> (c: HooksConfig)
        ensures
            c.is_default(),
    {
        HooksConfig { on_complete: None, on_error: None, on_queue_empty: None }
    }
}

/// UI settings.
#[derive(Debug, Clone)]
pub struct UiConfig {
    pub theme: String,
    pub refresh_rate: u64,
    pub show_graph: bool,
}

impl UiConfig {
    pub open spec fn is_default(self) -> bool {
        self.theme@ == "dark"@ && self.refresh_rate == 250 && self.show_graph
    }
}

impl Default for UiConfig {
    fn default() -> (c: UiConfig)
        ensures
            c.is_default(),
    {
        UiConfig { theme: owned("dark"), refresh_rate: 250, show_graph: true }
    }
}

/// Notification settings.
#[derive(Debug, Clone)]
pub struct NotificationsConfig {
    pub enabled: bool,
    pub on_complete: bool,
    pub on_error: bool,
    pub on_queue_empty: bool,
}

impl NotificationsConfig {
    pub open spec fn is_default(self) -> bool {
        self.enabled && self.on_complete && self.on_error && !self.on_queue_empty
    }
}

impl Default for NotificationsConfig {
    fn default() -> (c: NotificationsConfig)
        ensures
            c.is_default(),
    {
        NotificationsConfig {
            enabled: true,
            on_complete: true,
            on_error: true,
            on_queue_empty: false,
        }
    }
}

/// Integration settings.
#[derive(Debug, Clone)]
pub struct IntegrationConfig {
    pub native_messaging: bool,
    pub media_sniffer: bool,
}

impl IntegrationConfig {
    pub open spec fn is_default(self) -> bool {
        self.native_messaging && !self.media_sniffer
    }
}

impl Default for IntegrationConfig {
    fn default() -> (c: IntegrationConfig)
        ensures
            c.is_default(),
    {
        IntegrationConfig { native_messaging: true, media_sniffer: false }
    }
}

} // verus!
