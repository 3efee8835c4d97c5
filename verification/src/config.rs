//! Configuration: defaults, clamping, and where the files live.
use vstd::prelude::*;

verus! {

/// Top-level configuration for keycap.
#[derive(Debug)]
pub struct Config {
    pub global: GlobalConfig,
    pub display: DisplayConfig,
    pub timeline: TimelineConfig,
    pub combo: ComboConfig,
    pub screens: Vec<ScreenConfig>,
}

#[derive(Debug)]
pub struct GlobalConfig {
    pub mode: String,
    pub launch_at_startup: bool,
    pub log_level: String,
}

#[derive(Debug)]
pub struct DisplayConfig {
    pub font_size: u32,
    pub font_family: String,
    pub text_color: String,
    pub bg_color: String,
    pub border_radius: u32,
    pub padding: u32,
    pub key_spacing: u32,
    pub shadow: bool,
}

#[derive(Debug)]
pub struct TimelineConfig {
    pub max_keys: usize,
    pub fade_duration_ms: u64,
    pub linger_duration_ms: u64,
    pub scroll_direction: String,
}

#[derive(Debug)]
pub struct ComboConfig {
    pub show_only_combos: bool,
    pub modifier_style: String,
}

#[derive(Debug)]
pub struct ScreenConfig {
    pub monitor_name: String,
    pub enabled: bool,
    pub anchor: String,
    pub offset_x: i32,
    pub offset_y: i32,
}

/// `v` limited to the closed range `lo..=hi`.
pub open spec fn clamped(v: int, lo: int, hi: int) -> int {
    if v < lo {
        lo
    } else if v > hi {
        hi
    } else {
        v
    }
}

fn clamp_u32(v: u32, lo: u32, hi: u32) -> (r: u32)
    requires
        lo <= hi,
    ensures
        r == clamped(v as int, lo as int, hi as int),
{
    if v < lo {
        lo
    } else if v > hi {
        hi
    } else {
        v
    }
}

fn clamp_u64(v: u64, lo: u64, hi: u64) -> (r: u64)
    requires
        lo <= hi,
    ensures
        r == clamped(v as int, lo as int, hi as int),
{
    if v < lo {
        lo
    } else if v > hi {
        hi
    } else {
        v
    }
}

fn clamp_usize(v: usize, lo: usize, hi: usize) -> (r: usize)
    requires
        lo <= hi,
    ensures
        r == clamped(v as int, lo as int, hi as int),
{
    if v < lo {
        lo
    } else if v > hi {
        hi
    } else {
        v
    }
}

// ─── Clone ─────────────────────────────────────────────────

impl Clone for GlobalConfig {
    fn clone(&self) -> (r: Self)
        ensures
            r == *self,
    {
        GlobalConfig {
            mode: self.mode.clone(),
            launch_at_startup: self.launch_at_startup,
            log_level: self.log_level.clone(),
        }
    }
}

impl Clone for DisplayConfig {
    fn clone(&self) -> (r: Self)
        ensures
            r == *self,
    {
        DisplayConfig {
            font_size: self.font_size,
            font_family: self.font_family.clone(),
            text_color: self.text_color.clone(),
            bg_color: self.bg_color.clone(),
            border_radius: self.border_radius,
            padding: self.padding,
            key_spacing: self.key_spacing,
            shadow: self.shadow,
        }
    }
}

impl Clone for TimelineConfig {
    fn clone(&self) -> (r: Self)
        ensures
            r == *self,
    {
        TimelineConfig {
            max_keys: self.max_keys,
            fade_duration_ms: self.fade_duration_ms,
            linger_duration_ms: self.linger_duration_ms,
            scroll_direction: self.scroll_direction.clone(),
        }
    }
}

impl Clone for ComboConfig {
    fn clone(&self) -> (r: Self)
        ensures
            r == *self,
    {
        ComboConfig {
            show_only_combos: self.show_only_combos,
            modifier_style: self.modifier_style.clone(),
        }
    }
}

impl Clone for ScreenConfig {
    fn clone(&self) -> (r: Self)
        ensures
            r == *self,
    {
        ScreenConfig {
            monitor_name: self.monitor_name.clone(),
            enabled: self.enabled,
            anchor: self.anchor.clone(),
            offset_x: self.offset_x,
            offset_y: self.offset_y,
        }
    }
}

impl Clone for Config {
    fn clone(&self) -> (r: Self)
        ensures
            r.global == self.global,
            r.display == self.display,
            r.timeline == self.timeline,
            r.combo == self.combo,
            r.screens@ == self.screens@,
    {
        let mut screens: Vec<ScreenConfig> = Vec::new();
        for i in 0..self.screens.len()
            invariant
                screens@ == self.screens@.take(i as int),
        {
            screens.push(self.screens[i].clone());
            assert(self.screens@.take(i + 1) == self.screens@.take(i as int).push(self.screens@[i as int]));
        }
        assert(self.screens@.take(self.screens@.len() as int) == self.screens@);
        Config {
            global: self.global.clone(),
            display: self.display.clone(),
            timeline: self.timeline.clone(),
            combo: self.combo.clone(),
            screens,
        }
    }
}

// ─── Defaults ────────────────────────────────────────────

pub fn default_mode() -> (r: String)
    ensures
        r@ == "timeline"@,
{
    String::from_str("timeline")
}

pub fn default_log_level() -> (r: String)
    ensures
        r@ == "info"@,
{
    String::from_str("info")
}

pub fn default_font_size() -> (r: u32)
    ensures
        r == 24,
{
    24
}

pub fn default_font_family() -> (r: String)
    ensures
        r@ == "monospace"@,
{
    String::from_str("monospace")
}

pub fn default_text_color() -> (r: String)
    ensures
        r@ == "#ffffff"@,
{
    String::from_str("#ffffff")
}

pub fn default_bg_color() -> (r: String)
    ensures
        r@ == "#00000080"@,
{
    String::from_str("#00000080")
}

pub fn default_border_radius() -> (r: u32)
    ensures
        r == 8,
{
    8
}

pub fn default_padding() -> (r: u32)
    ensures
        r == 12,
{
    12
}

pub fn default_key_spacing() -> (r: u32)
    ensures
        r == 6,
{
    6
}

pub fn default_shadow() -> (r: bool)
    ensures
        r,
{
    true
}

pub fn default_max_keys() -> (r: usize)
    ensures
        r == 10,
{
    10
}

pub fn default_fade_duration_ms() -> (r: u64)
    ensures
        r == 300,
{
    300
}

pub fn default_linger_duration_ms() -> (r: u64)
    ensures
        r == 2000,
{
    2000
}

pub fn default_scroll_direction() -> (r: String)
    ensures
        r@ == "left"@,
{
    String::from_str("left")
}

pub fn default_modifier_style() -> (r: String)
    ensures
        r@ == "symbol"@,
{
    String::from_str("symbol")
}

pub fn default_anchor() -> (r: String)
    ensures
        r@ == "bottom-center"@,
{
    String::from_str("bottom-center")
}

pub fn default_true() -> (r: bool)
    ensures
        r,
{
    true
}

// ─── Default trait ────────────────────────────────────────

/// The global section as the defaults give it.
pub open spec fn is_default_global(g: GlobalConfig) -> bool {
    &&& g.mode@ == "timeline"@
    &&& !g.launch_at_startup
    &&& g.log_level@ == "info"@
}

/// The display section as the defaults give it.
pub open spec fn is_default_display(d: DisplayConfig) -> bool {
    &&& d.font_size == 24
    &&& d.font_family@ == "monospace"@
    &&& d.text_color@ == "#ffffff"@
    &&& d.bg_color@ == "#00000080"@
    &&& d.border_radius == 8
    &&& d.padding == 12
    &&& d.key_spacing == 6
    &&& d.shadow
}

/// The timeline section as the defaults give it.
pub open spec fn is_default_timeline(t: TimelineConfig) -> bool {
    &&& t.max_keys == 10
    &&& t.fade_duration_ms == 300
    &&& t.linger_duration_ms == 2000
    &&& t.scroll_direction@ == "left"@
}

/// The combo section as the defaults give it.
pub open spec fn is_default_combo(c: ComboConfig) -> bool {
    &&& !c.show_only_combos
    &&& c.modifier_style@ == "symbol"@
}

/// The whole configuration as the defaults give it: every section at its
/// defaults and no per-screen entries.
pub open spec fn is_default_config(c: Config) -> bool {
    &&& is_default_global(c.global)
    &&& is_default_display(c.display)
    &&& is_default_timeline(c.timeline)
    &&& is_default_combo(c.combo)
    &&& c.screens@.len() == 0
}

impl Default for Config {
    fn default() -> (r: Self)
        ensures
            is_default_config(r),
    {
        Config {
            global: GlobalConfig::default(),
            display: DisplayConfig::default(),
            timeline: TimelineConfig::default(),
            combo: ComboConfig::default(),
            screens: Vec::new(),
        }
    }
}

impl Default for GlobalConfig {
    fn default() -> (r: Self)
        ensures
            is_default_global(r),
    {
        GlobalConfig { mode: default_mode(), launch_at_startup: false, log_level: default_log_level() }
    }
}

impl Default for DisplayConfig {
    fn default() -> (r: Self)
        ensures
            is_default_display(r),
    {
        DisplayConfig {
            font_size: default_font_size(),
            font_family: default_font_family(),
            text_color: default_text_color(),
            bg_color: default_bg_color(),
            border_radius: default_border_radius(),
            padding: default_padding(),
            key_spacing: default_key_spacing(),
            shadow: default_shadow(),
        }
    }
}

impl Default for TimelineConfig {
    fn default() -> (r: Self)
        ensures
            is_default_timeline(r),
    {
        TimelineConfig {
            max_keys: default_max_keys(),
            fade_duration_ms: default_fade_duration_ms(),
            linger_duration_ms: default_linger_duration_ms(),
            scroll_direction: default_scroll_direction(),
        }
    }
}

impl Default for ComboConfig {
    fn default() -> (r: Self)
        ensures
            is_default_combo(r),
    {
        ComboConfig { show_only_combos: false, modifier_style: default_modifier_style() }
    }
}

// ─── Validation ───────────────────────────────────────────

/// What `validate` makes of a configuration: the numeric settings clamped
/// to their sensible ranges, everything else as it was.
pub open spec fn validated(c: Config) -> Config {
    Config {
        display: DisplayConfig {
            font_size: clamped(c.display.font_size as int, 8, 200) as u32,
            border_radius: clamped(c.display.border_radius as int, 0, 100) as u32,
            padding: clamped(c.display.padding as int, 0, 200) as u32,
            key_spacing: clamped(c.display.key_spacing as int, 0, 200) as u32,
            ..c.display
        },
        timeline: TimelineConfig {
            max_keys: clamped(c.timeline.max_keys as int, 1, 50) as usize,
            fade_duration_ms: clamped(c.timeline.fade_duration_ms as int, 0, 5000) as u64,
            linger_duration_ms: clamped(c.timeline.linger_duration_ms as int, 100, 30000) as u64,
            ..c.timeline
        },
        ..c
    }
}

/// Every clamped setting lies within its range.
pub open spec fn within_ranges(c: Config) -> bool {
    &&& 8 <= c.display.font_size <= 200
    &&& c.display.border_radius <= 100
    &&& c.display.padding <= 200
    &&& c.display.key_spacing <= 200
    &&& 1 <= c.timeline.max_keys <= 50
    &&& c.timeline.fade_duration_ms <= 5000
    &&& 100 <= c.timeline.linger_duration_ms <= 30000
}

/// The file name of the configuration, next to the executable.
pub open spec fn config_file_name() -> Seq<char> {
    "keycap.toml"@
}

/// The file name of the log, next to the executable.
pub open spec fn log_file_name() -> Seq<char> {
    "keycap.log"@
}

/// The directory the files live in: the executable's directory where it is
/// known, the current directory (`.`) where it is not.
pub open spec fn dir_or_current(exe_dir: Option<&str>) -> Seq<char> {
    match exe_dir {
        Some(d) => d@,
        None => "."@,
    }
}

/// A path separator of some platform.
pub open spec fn is_separator(c: char) -> bool {
    c == '/' || c == '\\'
}

/// A plain file name: not empty, not `.` or `..`, and free of separators
/// and of `:` (so that no platform reads a root, a drive or another prefix
/// into it).
pub open spec fn is_plain_file_name(name: Seq<char>) -> bool {
    &&& name.len() > 0
    &&& name != "."@
    &&& name != ".."@
    &&& forall|i: int| 0 <= i < name.len() ==> !is_separator(#[trigger] name[i]) && name[i] != ':'
}

/// A drive letter and a colon, such as `C:`.
pub open spec fn is_bare_drive(dir: Seq<char>) -> bool {
    &&& dir.len() == 2
    &&& dir[1] == ':'
    &&& (('a' <= dir[0] && dir[0] <= 'z') || ('A' <= dir[0] && dir[0] <= 'Z'))
}

/// A path that may carry a verbatim prefix (`\\?\`, either separator).
pub open spec fn maybe_verbatim(dir: Seq<char>) -> bool {
    &&& dir.len() >= 4
    &&& is_separator(dir[0])
    &&& is_separator(dir[1])
    &&& dir[2] == '?'
    &&& is_separator(dir[3])
}

/// `path` ends with `name`.
pub open spec fn ends_with(path: Seq<char>, name: Seq<char>) -> bool {
    path.len() >= name.len() && path.subrange(path.len() - name.len(), path.len() as int) == name
}

/// The plain file name `name` pushed onto the directory `dir`:
/// - onto an empty directory, the name alone;
/// - onto a directory ending in `/`, the directory then the name;
/// - onto one ending in `\` or a bare drive (`C:`), the directory then the
///   name, or with a `/` between (platforms that do not treat these as
///   separators or drives);
/// - onto any other directory, the directory, one separator (`/` or `\`,
///   the platform's own) and the name;
/// - onto a directory with a verbatim prefix, whose components are
///   rebuilt, a path that ends in the name.
pub open spec fn pushed_onto(path: Seq<char>, dir: Seq<char>, name: Seq<char>) -> bool {
    if maybe_verbatim(dir) {
        ends_with(path, name)
    } else if dir.len() == 0 {
        path == name
    } else if dir.last() == '/' {
        path == dir + name
    } else if dir.last() == '\\' || is_bare_drive(dir) {
        path == dir + name || path == dir + seq!['/'] + name
    } else {
        path == dir + seq!['/'] + name || path == dir + seq!['\\'] + name
    }
}

/// `PathBuf::push` of the plain file name `name` onto the directory `dir`,
/// read back as a string (lossless: both parts are UTF-8). Pushing a
/// relative path extends the existing path: a separator is put in unless
/// the path is empty or already ends in a separator (on Windows also
/// unless it is a bare drive such as `C:`), the separator being the
/// platform's own (`/`, or `\` on Windows, where both count as
/// separators). A path with a Windows verbatim prefix is instead rebuilt
/// from its components with the name appended; for it only that the
/// result ends in the name is claimed. The name has no separator, no `:`
/// and is not `.` or `..`, so no platform reads it as absolute, rooted or
/// prefixed, which would make it replace the path.
#[verifier::external_body]
fn push_file_name(dir: &str, name: &str) -> (r: String)
    requires
        is_plain_file_name(name@),
    ensures
        pushed_onto(r@, dir@, name@),
{
    let mut p = std::path::PathBuf::from(dir);
    p.push(name);
    p.to_string_lossy().into_owned()
}

impl Config {
    /// Return the path to `keycap.toml` next to the current executable,
    /// given the executable's directory (`None` where it cannot be found).
    pub fn config_path(exe_dir: Option<&str>) -> (r: String)
        ensures
            pushed_onto(r@, dir_or_current(exe_dir), config_file_name()),
    {
        proof {
            reveal_strlit("keycap.toml");
            reveal_strlit(".");
            reveal_strlit("..");
        }
        Self::file_in_dir(exe_dir, "keycap.toml")
    }

    /// Return the path to `keycap.log` next to the current executable,
    /// given the executable's directory (`None` where it cannot be found).
    pub fn log_path(exe_dir: Option<&str>) -> (r: String)
        ensures
            pushed_onto(r@, dir_or_current(exe_dir), log_file_name()),
    {
        proof {
            reveal_strlit("keycap.log");
            reveal_strlit(".");
            reveal_strlit("..");
        }
        Self::file_in_dir(exe_dir, "keycap.log")
    }

    fn file_in_dir(exe_dir: Option<&str>, name: &str) -> (r: String)
        requires
            is_plain_file_name(name@),
        ensures
            pushed_onto(r@, dir_or_current(exe_dir), name@),
    {
        match exe_dir {
            Some(d) => push_file_name(d, name),
            None => push_file_name(".", name),
        }
    }

    /// The configuration that loading yields: the one read and parsed from
    /// the file, or the defaults where the file could not be read or parsed.
    pub fn loaded_or_default(parsed: Option<Config>) -> (r: Config)
        ensures
            match parsed {
                Some(c) => r == c,
                None => is_default_config(r),
            },
    {
        match parsed {
            Some(c) => c,
            None => Config::default(),
        }
    }

    /// Validate config values and clamp to sensible ranges.
    pub fn validate(&mut self)
        ensures
            *final(self) == validated(*old(self)),
            within_ranges(*final(self)),
    {
        self.display.font_size = clamp_u32(self.display.font_size, 8, 200);
        self.display.border_radius = clamp_u32(self.display.border_radius, 0, 100);
        self.display.padding = clamp_u32(self.display.padding, 0, 200);
        self.display.key_spacing = clamp_u32(self.display.key_spacing, 0, 200);
        self.timeline.max_keys = clamp_usize(self.timeline.max_keys, 1, 50);
        self.timeline.fade_duration_ms = clamp_u64(self.timeline.fade_duration_ms, 0, 5000);
        self.timeline.linger_duration_ms = clamp_u64(self.timeline.linger_duration_ms, 100, 30000);
    }
}

// ─── Laws ─────────────────────────────────────────────────

/// Where the executable's directory is unknown, the files are `keycap.toml`
/// and `keycap.log` in the current directory (`.` and one separator).
pub proof fn lemma_paths_fall_back_to_current_dir(config: Seq<char>, log: Seq<char>)
    requires
        pushed_onto(config, dir_or_current(None), config_file_name()),
        pushed_onto(log, dir_or_current(None), log_file_name()),
    ensures
        config == "./keycap.toml"@ || config == ".\\keycap.toml"@,
        log == "./keycap.log"@ || log == ".\\keycap.log"@,
{
    reveal_strlit(".");
    reveal_strlit("./keycap.toml");
    reveal_strlit(".\\keycap.toml");
    reveal_strlit("./keycap.log");
    reveal_strlit(".\\keycap.log");
    reveal_strlit("keycap.toml");
    reveal_strlit("keycap.log");
    assert("."@ + seq!['/'] + "keycap.toml"@ =~= "./keycap.toml"@);
    assert("."@ + seq!['\\'] + "keycap.toml"@ =~= ".\\keycap.toml"@);
    assert("."@ + seq!['/'] + "keycap.log"@ =~= "./keycap.log"@);
    assert("."@ + seq!['\\'] + "keycap.log"@ =~= ".\\keycap.log"@);
}

/// `path` is `dir`, then at most one separator, then `name`.
pub open spec fn in_directory(path: Seq<char>, dir: Seq<char>, name: Seq<char>) -> bool {
    &&& path.len() >= dir.len() + name.len()
    &&& path.subrange(0, dir.len() as int) == dir
    &&& ends_with(path, name)
    &&& (path.len() == dir.len() + name.len() || (path.len() == dir.len() + name.len() + 1
        && is_separator(path[dir.len() as int])))
}

proof fn lemma_pushed_in_directory(path: Seq<char>, dir: Seq<char>, name: Seq<char>)
    requires
        !maybe_verbatim(dir),
        pushed_onto(path, dir, name),
    ensures
        in_directory(path, dir, name),
        (dir.len() == 0 || dir.last() == '/') ==> path.len() == dir.len() + name.len(),
        (dir.len() > 0 && !is_separator(dir.last()) && !is_bare_drive(dir)) ==> path.len()
            == dir.len() + name.len() + 1,
{
    assert(path.subrange(0, dir.len() as int) =~= dir);
    assert(path.subrange(path.len() - name.len(), path.len() as int) =~= name);
}

/// The configuration and the log file lie in the same directory: for every
/// directory without a verbatim prefix, each path is the directory, then at
/// most one separator, then its own file name. There is no separator where
/// the directory is empty or ends in `/`, and exactly one where it is an
/// ordinary directory (not ending in a separator, not a bare drive).
pub proof fn lemma_paths_share_directory(exe_dir: Seq<char>, config: Seq<char>, log: Seq<char>)
    requires
        !maybe_verbatim(exe_dir),
        pushed_onto(config, exe_dir, config_file_name()),
        pushed_onto(log, exe_dir, log_file_name()),
    ensures
        in_directory(config, exe_dir, config_file_name()),
        in_directory(log, exe_dir, log_file_name()),
        (exe_dir.len() == 0 || exe_dir.last() == '/') ==> config.len() == exe_dir.len()
            + config_file_name().len() && log.len() == exe_dir.len() + log_file_name().len(),
        (exe_dir.len() > 0 && !is_separator(exe_dir.last()) && !is_bare_drive(exe_dir)) ==> config.len()
            == exe_dir.len() + config_file_name().len() + 1 && log.len() == exe_dir.len()
            + log_file_name().len() + 1,
{
    lemma_pushed_in_directory(config, exe_dir, config_file_name());
    lemma_pushed_in_directory(log, exe_dir, log_file_name());
}

/// Validating twice is the same as validating once.
pub proof fn lemma_validate_idempotent(c: Config)
    ensures
        validated(validated(c)) == validated(c),
{
}

/// A configuration whose settings already lie within range is left as it is.
pub proof fn lemma_validate_keeps_valid(c: Config)
    requires
        within_ranges(c),
    ensures
        validated(c) == c,
{
}

/// The defaults lie within range, so validation leaves them unchanged.
pub proof fn lemma_defaults_are_valid(c: Config)
    requires
        is_default_config(c),
    ensures
        within_ranges(c),
        validated(c) == c,
{
}

} // verus!
