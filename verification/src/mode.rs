//! Display modes: what the overlay shows for the keys that were captured.
use vstd::prelude::*;

use crate::config::{ComboConfig, Config, TimelineConfig};
use crate::key::{is_modifier_key, key_label, key_to_label, Key, KeyEvent};

verus! {

/// How opaque a label is drawn. `Fading` stands for the opacity
/// `1 - elapsed_ms / duration_ms`, with `0 < elapsed_ms < duration_ms`.
#[derive(Debug, Clone, Copy, PartialEq, Eq, Structural)]
pub enum Opacity {
    Full,
    Fading { elapsed_ms: u64, duration_ms: u64 },
    Clear,
}

/// Render output a mode produces: a key label to display and its opacity.
#[derive(Debug)]
pub struct KeyLabel {
    pub text: String,
    pub opacity: Opacity,
}

/// The opacity of a label `age` milliseconds old: fully opaque while it
/// lingers, then fading linearly over `fade` milliseconds, then clear.
pub open spec fn opacity_at(age: int, linger: int, fade: int) -> Opacity {
    if age <= linger {
        Opacity::Full
    } else if age - linger < fade {
        Opacity::Fading { elapsed_ms: (age - linger) as u64, duration_ms: fade as u64 }
    } else {
        Opacity::Clear
    }
}

/// `now - then`, or zero where `then` is later.
pub open spec fn elapsed_since(now: u64, then: u64) -> int {
    if now >= then {
        now - then
    } else {
        0
    }
}

/// The last `n` items of `s` (all of them where there are no more than `n`).
pub open spec fn keep_last<A>(s: Seq<A>, n: nat) -> Seq<A> {
    if s.len() <= n {
        s
    } else {
        s.skip(s.len() - n)
    }
}

/// The index of the most recent entry for `key`, if there is one.
pub open spec fn latest_entry_of(entries: Seq<(Key, Seq<char>, u64)>, key: Key) -> Option<int>
    decreases entries.len(),
{
    if entries.len() == 0 {
        None
    } else if entries.last().0 == key {
        Some(entries.len() - 1)
    } else {
        latest_entry_of(entries.drop_last(), key)
    }
}

/// The entries with the most recent entry for `key` (if any) restamped
/// with the time `now_ms`, so that its linger time starts over.
pub open spec fn restamped(entries: Seq<(Key, Seq<char>, u64)>, key: Key, now_ms: u64) -> Seq<
    (Key, Seq<char>, u64),
> {
    match latest_entry_of(entries, key) {
        Some(i) => entries.update(i, (key, entries[i].1, now_ms)),
        None => entries,
    }
}

/// The timeline after an event: a press appends the key with its label and
/// the time of the press and keeps only the `max_keys` most recent entries;
/// a release restamps the key's most recent entry with the release time
/// (the label lingers from the release on).
pub open spec fn timeline_after(
    entries: Seq<(Key, Seq<char>, u64)>,
    max_keys: nat,
    event: KeyEvent,
    now_ms: u64,
) -> Seq<(Key, Seq<char>, u64)> {
    match event {
        KeyEvent::Press(key) => keep_last(entries.push((key, key_label(key), now_ms)), max_keys),
        KeyEvent::Release(key) => restamped(entries, key, now_ms),
    }
}

/// What the timeline renders: one label per entry, in order, with the
/// entry's text and the opacity for its age.
pub open spec fn timeline_rendered(
    labels: Seq<KeyLabel>,
    entries: Seq<(Key, Seq<char>, u64)>,
    settings: TimelineConfig,
    now_ms: u64,
) -> bool {
    &&& labels.len() == entries.len()
    &&& forall|i: int|
        0 <= i < labels.len() ==> {
            &&& (#[trigger] labels[i]).text@ == entries[i].1
            &&& labels[i].opacity == opacity_at(
                elapsed_since(now_ms, entries[i].2),
                settings.linger_duration_ms as int,
                settings.fade_duration_ms as int,
            )
        }
}

proof fn lemma_latest_entry_found(entries: Seq<(Key, Seq<char>, u64)>, key: Key, k: int)
    requires
        0 <= k < entries.len(),
        entries[k].0 == key,
        forall|j: int| k < j < entries.len() ==> (#[trigger] entries[j]).0 != key,
    ensures
        latest_entry_of(entries, key) == Some(k),
    decreases entries.len(),
{
    if k < entries.len() - 1 {
        assert(entries[entries.len() - 1].0 != key);
        lemma_latest_entry_found(entries.drop_last(), key, k);
    }
}

proof fn lemma_latest_entry_absent(entries: Seq<(Key, Seq<char>, u64)>, key: Key)
    requires
        forall|j: int| 0 <= j < entries.len() ==> (#[trigger] entries[j]).0 != key,
    ensures
        latest_entry_of(entries, key) is None,
    decreases entries.len(),
{
    if entries.len() > 0 {
        assert(entries[entries.len() - 1].0 != key);
        lemma_latest_entry_absent(entries.drop_last(), key);
    }
}

fn opacity_of(age: u64, linger: u64, fade: u64) -> (r: Opacity)
    ensures
        r == opacity_at(age as int, linger as int, fade as int),
{
    if age <= linger {
        Opacity::Full
    } else if age - linger < fade {
        Opacity::Fading { elapsed_ms: age - linger, duration_ms: fade }
    } else {
        Opacity::Clear
    }
}

/// Common interface for display modes. Time is given in milliseconds on
/// a clock of the caller's choosing.
pub trait DisplayMode {
    /// Push a captured key event into the mode.
    fn push_event(&mut self, event: KeyEvent, now_ms: u64);

    /// Produce the current list of labels to render, given the time.
    fn render(&self, now_ms: u64) -> Vec<KeyLabel>;

    /// Reset mode state (e.g. on mode switch).
    fn reset(&mut self);
}

// ─── Timeline Mode ────────────────────────────────────────

struct Entry {
    key: Key,
    label: String,
    /// When this key was first pressed (or released, for linger timing).
    timestamp_ms: u64,
}

/// The most recent key presses, oldest first, each fading out after it
/// has lingered (from its press, or from the key's release).
pub struct TimelineMode {
    entries: std::collections::VecDeque<Entry>,
    config: TimelineConfig,
}

impl TimelineMode {
    /// The entries, oldest first: each key, its label's text and the time
    /// its linger started (its press, or its latest release).
    pub closed spec fn entries(&self) -> Seq<(Key, Seq<char>, u64)> {
        self.entries@.map_values(|e: Entry| (e.key, e.label@, e.timestamp_ms))
    }

    /// The timeline settings in use.
    pub closed spec fn settings(&self) -> TimelineConfig {
        self.config
    }

    pub fn new(config: &Config) -> (r: Self)
        ensures
            r.entries().len() == 0,
            r.settings() == config.timeline,
    {
        TimelineMode { entries: std::collections::VecDeque::new(), config: config.timeline.clone() }
    }

    pub fn update_config(&mut self, config: &Config)
        ensures
            final(self).entries() == old(self).entries(),
            final(self).settings() == config.timeline,
    {
        self.config = config.timeline.clone();
    }
}

impl DisplayMode for TimelineMode {
    fn push_event(&mut self, event: KeyEvent, now_ms: u64)
        ensures
            final(self).settings() == old(self).settings(),
            final(self).entries() == timeline_after(
                old(self).entries(),
                old(self).settings().max_keys as nat,
                event,
                now_ms,
            ),
    {
        match event {
            KeyEvent::Press(key) => {
                let label = key_to_label(key);
                let ghost appended = self.entries().push((key, key_label(key), now_ms));
                self.entries.push_back(Entry { key, label, timestamp_ms: now_ms });
                assert(self.entries() =~= appended);
                // Trim to max_keys
                while self.entries.len() > self.config.max_keys
                    invariant
                        self.config == old(self).config,
                        self.entries().len() <= appended.len(),
                        self.entries().len() >= appended.len() || self.entries().len()
                            >= self.config.max_keys,
                        self.entries() =~= appended.skip(appended.len() - self.entries().len()),
                    decreases self.entries@.len(),
                {
                    let ghost prev = self.entries();
                    self.entries.pop_front();
                    assert(self.entries() =~= prev.subrange(1, prev.len() as int));
                    assert(self.entries() =~= appended.skip(appended.len() - self.entries().len()));
                }
            },
            KeyEvent::Release(key) => {
                // Restart the linger time of the key's most recent entry.
                let n = self.entries.len();
                let mut i = n;
                while i > 0
                    invariant
                        i <= n,
                        event == KeyEvent::Release(key),
                        n == self.entries@.len(),
                        self.entries() == old(self).entries(),
                        self.config == old(self).config,
                        forall|j: int| i <= j < n ==> (#[trigger] self.entries()[j]).0 != key,
                    decreases i,
                {
                    if self.entries[i - 1].key == key {
                        proof {
                            lemma_latest_entry_found(self.entries(), key, i - 1);
                        }
                        let ghost before = self.entries();
                        let removed = self.entries.remove(i - 1);
                        if let Some(e) = removed {
                            self.entries.insert(i - 1, Entry { key, label: e.label, timestamp_ms: now_ms });
                        }
                        assert(self.entries() =~= restamped(before, key, now_ms));
                        return;
                    }
                    i = i - 1;
                }
                proof {
                    lemma_latest_entry_absent(self.entries(), key);
                }
            },
        }
    }

    fn render(&self, now_ms: u64) -> (r: Vec<KeyLabel>)
        ensures
            timeline_rendered(r@, self.entries(), self.settings(), now_ms),
    {
        let mut labels: Vec<KeyLabel> = Vec::new();
        let n = self.entries.len();
        for i in 0..n
            invariant
                n == self.entries@.len(),
                labels@.len() == i,
                forall|j: int|
                    0 <= j < i ==> {
                        &&& (#[trigger] labels@[j]).text@ == self.entries()[j].1
                        &&& labels@[j].opacity == opacity_at(
                            elapsed_since(now_ms, self.entries()[j].2),
                            self.settings().linger_duration_ms as int,
                            self.settings().fade_duration_ms as int,
                        )
                    },
        {
            let e = &self.entries[i];
            let age = if now_ms >= e.timestamp_ms {
                now_ms - e.timestamp_ms
            } else {
                0
            };
            let opacity = opacity_of(age, self.config.linger_duration_ms, self.config.fade_duration_ms);
            labels.push(KeyLabel { text: e.label.clone(), opacity });
        }
        labels
    }

    fn reset(&mut self)
        ensures
            final(self).entries().len() == 0,
            final(self).settings() == old(self).settings(),
    {
        self.entries.clear();
    }
}

// ─── Combo Mode ───────────────────────────────────────────

/// Keeps the held entries of keys other than `key`.
pub open spec fn other_than(key: Key) -> spec_fn((Key, u64)) -> bool {
    |e: (Key, u64)| e.0 != key
}

/// Selects the modifier keys.
pub open spec fn modifier_pred() -> spec_fn(Key) -> bool {
    |k: Key| is_modifier_key(k)
}

/// Selects the keys that are not modifiers.
pub open spec fn non_modifier_pred() -> spec_fn(Key) -> bool {
    |k: Key| !is_modifier_key(k)
}

/// No key is held twice.
pub open spec fn keys_distinct(held: Seq<(Key, u64)>) -> bool {
    forall|i: int, j: int| 0 <= i < j < held.len() ==> #[trigger] held[i].0 != #[trigger] held[j].0
}

/// The held keys after an event: a press moves the key to the end with the
/// time of the press, a release takes it out.
pub open spec fn combo_after(held: Seq<(Key, u64)>, event: KeyEvent, now_ms: u64) -> Seq<(Key, u64)> {
    match event {
        KeyEvent::Press(key) => held.filter(other_than(key)).push((key, now_ms)),
        KeyEvent::Release(key) => held.filter(other_than(key)),
    }
}

/// The keys in the order they are shown: the modifiers first, then the
/// other keys, each group in the order the keys were pressed.
pub open spec fn combo_order(keys: Seq<Key>) -> Seq<Key> {
    keys.filter(modifier_pred()) + keys.filter(non_modifier_pred())
}

/// The text shown for a key in a combination under a modifier style:
/// `symbol` shows the modifiers as ⌃ ⌥ ⇧ ⌘, `text` as Ctrl Alt Shift Cmd,
/// and every other key (and every key under any other style) by its label.
pub open spec fn combo_key_text(style: Seq<char>, key: Key) -> Seq<char> {
    if style == "symbol"@ && is_modifier_key(key) {
        match key {
            Key::ControlLeft | Key::ControlRight => "⌃"@,
            Key::Alt | Key::AltGr => "⌥"@,
            Key::ShiftLeft | Key::ShiftRight => "⇧"@,
            _ => "⌘"@,
        }
    } else if style == "text"@ && is_modifier_key(key) {
        match key {
            Key::ControlLeft | Key::ControlRight => "Ctrl"@,
            Key::Alt | Key::AltGr => "Alt"@,
            Key::ShiftLeft | Key::ShiftRight => "Shift"@,
            _ => "Cmd"@,
        }
    } else {
        key_label(key)
    }
}

/// `parts` joined with `sep` between neighbours.
pub open spec fn joined(parts: Seq<Seq<char>>, sep: Seq<char>) -> Seq<char>
    decreases parts.len(),
{
    if parts.len() == 0 {
        Seq::empty()
    } else if parts.len() == 1 {
        parts[0]
    } else {
        joined(parts.drop_last(), sep) + sep + parts.last()
    }
}

/// The combination text: the keys in display order, each as its
/// combination text, joined by ` + `.
pub open spec fn combo_text(keys: Seq<Key>, style: Seq<char>) -> Seq<char> {
    joined(combo_order(keys).map_values(|k: Key| combo_key_text(style, k)), " + "@)
}

/// Whether a combination is shown at all: some key is held and, where only
/// combinations are to be shown, a modifier and a non-modifier both are.
pub open spec fn combo_shown(keys: Seq<Key>, only_combos: bool) -> bool {
    &&& keys.len() > 0
    &&& only_combos ==> {
        &&& exists|i: int| 0 <= i < keys.len() && is_modifier_key(#[trigger] keys[i])
        &&& exists|i: int| 0 <= i < keys.len() && !is_modifier_key(#[trigger] keys[i])
    }
}

/// What the combo mode renders for the held keys: nothing, or a single
/// fully opaque label with the combination text.
pub open spec fn combo_rendered(labels: Seq<KeyLabel>, keys: Seq<Key>, settings: ComboConfig) -> bool {
    if combo_shown(keys, settings.show_only_combos) {
        &&& labels.len() == 1
        &&& labels[0].text@ == combo_text(keys, settings.modifier_style@)
        &&& labels[0].opacity == Opacity::Full
    } else {
        labels.len() == 0
    }
}

/// The currently held keys, each with the time it was pressed.
pub struct ComboMode {
    held: Vec<(Key, u64)>,
    config: ComboConfig,
}

fn string_is(s: &String, lit: &str) -> (r: bool)
    ensures
        r == (s@ == lit@),
{
    let other = String::from_str(lit);
    s.eq(&other)
}

impl ComboMode {
    #[verifier::type_invariant]
    spec fn no_key_twice(self) -> bool {
        keys_distinct(self.held@)
    }

    /// The held keys, oldest press first, with their press times.
    pub closed spec fn held(&self) -> Seq<(Key, u64)> {
        self.held@
    }

    /// The held keys, oldest press first.
    pub open spec fn held_keys(&self) -> Seq<Key> {
        self.held().map_values(|e: (Key, u64)| e.0)
    }

    /// The combo settings in use.
    pub closed spec fn settings(&self) -> ComboConfig {
        self.config
    }

    pub fn new(config: &Config) -> (r: Self)
        ensures
            r.held().len() == 0,
            r.settings() == config.combo,
    {
        ComboMode { held: Vec::new(), config: config.combo.clone() }
    }

    pub fn update_config(&mut self, config: &Config)
        ensures
            final(self).held() == old(self).held(),
            final(self).settings() == config.combo,
    {
        proof {
            use_type_invariant(&*self);
        }
        self.config = config.combo.clone();
    }

    /// Whether a key is a modifier (Control, Alt, Shift or Meta).
    pub fn is_modifier(key: Key) -> (r: bool)
        ensures
            r == is_modifier_key(key),
    {
        match key {
            Key::ControlLeft | Key::ControlRight | Key::Alt | Key::AltGr | Key::ShiftLeft
            | Key::ShiftRight | Key::MetaLeft | Key::MetaRight => true,
            _ => false,
        }
    }

    /// The text of a key in a combination, under the configured modifier style.
    pub fn format_key(&self, key: Key) -> (r: String)
        ensures
            r@ == combo_key_text(self.settings().modifier_style@, key),
            !is_modifier_key(key) || (self.settings().modifier_style@ != "symbol"@
                && self.settings().modifier_style@ != "text"@) ==> r@ == key_label(key),
    {
        let style = &self.config.modifier_style;
        if string_is(style, "symbol") {
            match key {
                Key::ControlLeft | Key::ControlRight => String::from_str("⌃"),
                Key::Alt | Key::AltGr => String::from_str("⌥"),
                Key::ShiftLeft | Key::ShiftRight => String::from_str("⇧"),
                Key::MetaLeft | Key::MetaRight => String::from_str("⌘"),
                _ => key_to_label(key),
            }
        } else if string_is(style, "text") {
            match key {
                Key::ControlLeft | Key::ControlRight => String::from_str("Ctrl"),
                Key::Alt | Key::AltGr => String::from_str("Alt"),
                Key::ShiftLeft | Key::ShiftRight => String::from_str("Shift"),
                Key::MetaLeft | Key::MetaRight => String::from_str("Cmd"),
                _ => key_to_label(key),
            }
        } else {
            key_to_label(key)
        }
    }

    /// The held entries without `key`, in their order.
    fn without_key(&self, key: Key) -> (r: Vec<(Key, u64)>)
        ensures
            r@ == self.held().filter(other_than(key)),
            keys_distinct(r@),
            forall|k: int| 0 <= k < r@.len() ==> (#[trigger] r@[k]).0 != key,
    {
        proof {
            use_type_invariant(self);
        }
        let mut kept: Vec<(Key, u64)> = Vec::new();
        let n = self.held.len();
        for i in 0..n
            invariant
                n == self.held@.len(),
                keys_distinct(self.held@),
                kept@ == self.held@.take(i as int).filter(other_than(key)),
                keys_distinct(kept@),
                forall|k: int| 0 <= k < kept@.len() ==> (#[trigger] kept@[k]).0 != key,
                forall|k: int, j: int|
                    0 <= k < kept@.len() && i <= j < n ==> (#[trigger] kept@[k]).0 != #[trigger] self.held@[j].0,
        {
            let e = self.held[i];
            proof {
                reveal_with_fuel(Seq::<_>::filter, 1);
                assert(self.held@.take(i + 1).drop_last() =~= self.held@.take(i as int));
            }
            if e.0 != key {
                kept.push(e);
            }
        }
        assert(self.held@.take(n as int) =~= self.held@);
        kept
    }
}

impl DisplayMode for ComboMode {
    fn push_event(&mut self, event: KeyEvent, now_ms: u64)
        ensures
            final(self).held() == combo_after(old(self).held(), event, now_ms),
            final(self).settings() == old(self).settings(),
            keys_distinct(final(self).held()),
    {
        match event {
            KeyEvent::Press(key) => {
                // Keep only the most recent press for each key
                let mut kept = self.without_key(key);
                kept.push((key, now_ms));
                self.held = kept;
            },
            KeyEvent::Release(key) => {
                let kept = self.without_key(key);
                self.held = kept;
            },
        }
    }

    fn render(&self, now_ms: u64) -> (r: Vec<KeyLabel>)
        ensures
            combo_rendered(r@, self.held_keys(), self.settings()),
    {
        let mut labels: Vec<KeyLabel> = Vec::new();
        if self.held.len() == 0 {
            return labels;
        }
        let ghost keys = self.held_keys();
        // Modifiers first, each group in press order.
        let mut modifiers: Vec<Key> = Vec::new();
        let mut others: Vec<Key> = Vec::new();
        let n = self.held.len();
        for i in 0..n
            invariant
                n == self.held@.len(),
                keys == self.held_keys(),
                keys.len() == n,
                modifiers@ == keys.take(i as int).filter(modifier_pred()),
                others@ == keys.take(i as int).filter(non_modifier_pred()),
                modifiers@.len() > 0 <==> exists|j: int| 0 <= j < i && is_modifier_key(#[trigger] keys[j]),
                others@.len() > 0 <==> exists|j: int| 0 <= j < i && !is_modifier_key(#[trigger] keys[j]),
        {
            let k = self.held[i].0;
            proof {
                reveal_with_fuel(Seq::<_>::filter, 1);
                assert(keys[i as int] == k);
                assert(keys.take(i + 1).drop_last() =~= keys.take(i as int));
            }
            if Self::is_modifier(k) {
                modifiers.push(k);
            } else {
                others.push(k);
            }
        }
        assert(keys.take(n as int) =~= keys);
        if self.config.show_only_combos {
            let has_mod = modifiers.len() > 0;
            let has_key = others.len() > 0;
            if !(has_mod && has_key) {
                return labels;
            }
        }
        let mut ordered = modifiers;
        let mut rest = others;
        ordered.append(&mut rest);
        assert(ordered@ =~= combo_order(keys));
        let ghost style = self.settings().modifier_style@;
        let ghost parts = ordered@.map_values(|k: Key| combo_key_text(style, k));
        let mut text = String::new();
        let m = ordered.len();
        for i in 0..m
            invariant
                m == ordered@.len(),
                parts == ordered@.map_values(|k: Key| combo_key_text(style, k)),
                style == self.settings().modifier_style@,
                text@ == joined(parts.take(i as int), " + "@),
        {
            let part = self.format_key(ordered[i]);
            assert(parts.take(i + 1).drop_last() =~= parts.take(i as int));
            if i > 0 {
                text.append(" + ");
            }
            text.append(part.as_str());
            proof {
                if i == 0 {
                    assert(text@ =~= parts.take(1)[0]);
                }
            }
        }
        assert(parts.take(m as int) =~= parts);
        labels.push(KeyLabel { text, opacity: Opacity::Full });
        labels
    }

    fn reset(&mut self)
        ensures
            final(self).held().len() == 0,
            final(self).settings() == old(self).settings(),
    {
        self.held = Vec::new();
    }
}

// ─── Factory ──────────────────────────────────────────────

/// One of the two display modes.
pub enum Mode {
    Timeline(TimelineMode),
    Combo(ComboMode),
}

impl DisplayMode for Mode {
    fn push_event(&mut self, event: KeyEvent, now_ms: u64)
        ensures
            match (*old(self), *final(self)) {
                (Mode::Timeline(a), Mode::Timeline(b)) => {
                    &&& b.entries() == timeline_after(a.entries(), a.settings().max_keys as nat, event, now_ms)
                    &&& b.settings() == a.settings()
                },
                (Mode::Combo(a), Mode::Combo(b)) => {
                    &&& b.held() == combo_after(a.held(), event, now_ms)
                    &&& b.settings() == a.settings()
                },
                _ => false,
            },
    {
        match self {
            Mode::Timeline(m) => m.push_event(event, now_ms),
            Mode::Combo(m) => m.push_event(event, now_ms),
        }
    }

    fn render(&self, now_ms: u64) -> (r: Vec<KeyLabel>)
        ensures
            match *self {
                Mode::Timeline(m) => timeline_rendered(r@, m.entries(), m.settings(), now_ms),
                Mode::Combo(m) => combo_rendered(r@, m.held_keys(), m.settings()),
            },
    {
        match self {
            Mode::Timeline(m) => m.render(now_ms),
            Mode::Combo(m) => m.render(now_ms),
        }
    }

    fn reset(&mut self)
        ensures
            match (*old(self), *final(self)) {
                (Mode::Timeline(a), Mode::Timeline(b)) => b.entries().len() == 0 && b.settings() == a.settings(),
                (Mode::Combo(a), Mode::Combo(b)) => b.held().len() == 0 && b.settings() == a.settings(),
                _ => false,
            },
    {
        match self {
            Mode::Timeline(m) => m.reset(),
            Mode::Combo(m) => m.reset(),
        }
    }
}

/// The mode the configuration names: `combo` selects the combo mode, any
/// other name the timeline. Either starts empty.
pub fn create_mode(config: &Config) -> (r: Mode)
    ensures
        match r {
            Mode::Combo(m) => config.global.mode@ == "combo"@ && m.held().len() == 0 && m.settings()
                == config.combo,
            Mode::Timeline(m) => config.global.mode@ != "combo"@ && m.entries().len() == 0
                && m.settings() == config.timeline,
        },
{
    if string_is(&config.global.mode, "combo") {
        Mode::Combo(ComboMode::new(config))
    } else {
        Mode::Timeline(TimelineMode::new(config))
    }
}

// ─── Laws ─────────────────────────────────────────────────

/// A press adds the key and its label as the newest entry, keeps the older
/// entries in order, and leaves at most `max_keys` entries (where at least
/// one is allowed).
pub proof fn lemma_timeline_press(entries: Seq<(Key, Seq<char>, u64)>, max_keys: nat, key: Key, now_ms: u64)
    requires
        max_keys >= 1,
    ensures
        ({
            let after = timeline_after(entries, max_keys, KeyEvent::Press(key), now_ms);
            &&& after.len() <= max_keys
            &&& after.len() == if entries.len() + 1 <= max_keys {
                entries.len() + 1
            } else {
                max_keys
            }
            &&& after.last() == (key, key_label(key), now_ms)
            &&& forall|i: int|
                0 <= i < after.len() - 1 ==> #[trigger] after[i] == entries[entries.len() + 1 - after.len()
                    + i]
        }),
{
}

/// A release keeps every entry's key and label and their order; it gives
/// the key's most recent entry the release time and leaves every other
/// entry's time as it was. Where the key has no entry, nothing changes.
pub proof fn lemma_timeline_release(entries: Seq<(Key, Seq<char>, u64)>, max_keys: nat, key: Key, now_ms: u64)
    ensures
        ({
            let after = timeline_after(entries, max_keys, KeyEvent::Release(key), now_ms);
            &&& after.len() == entries.len()
            &&& forall|i: int|
                0 <= i < entries.len() ==> (#[trigger] after[i]).0 == entries[i].0 && after[i].1
                    == entries[i].1
            &&& match latest_entry_of(entries, key) {
                Some(k) => {
                    &&& 0 <= k < entries.len()
                    &&& entries[k].0 == key
                    &&& after[k].2 == now_ms
                    &&& forall|j: int| k < j < entries.len() ==> (#[trigger] entries[j]).0 != key
                    &&& forall|j: int| 0 <= j < entries.len() && j != k ==> (#[trigger] after[j]) == entries[j]
                },
                None => {
                    &&& after == entries
                    &&& forall|j: int| 0 <= j < entries.len() ==> (#[trigger] entries[j]).0 != key
                },
            }
        }),
{
    lemma_latest_entry_facts(entries, key);
}

proof fn lemma_latest_entry_facts(entries: Seq<(Key, Seq<char>, u64)>, key: Key)
    ensures
        match latest_entry_of(entries, key) {
            Some(k) => {
                &&& 0 <= k < entries.len()
                &&& entries[k].0 == key
                &&& forall|j: int| k < j < entries.len() ==> (#[trigger] entries[j]).0 != key
            },
            None => forall|j: int| 0 <= j < entries.len() ==> (#[trigger] entries[j]).0 != key,
        },
    decreases entries.len(),
{
    if entries.len() > 0 {
        lemma_latest_entry_facts(entries.drop_last(), key);
        if entries.last().0 != key {
            assert forall|j: int| 0 <= j < entries.len() - 1 implies (#[trigger] entries[j]) == entries.drop_last()[j] by {}
        }
    }
}

/// `later` is drawn no more opaque than `earlier`.
pub open spec fn no_more_opaque(later: Opacity, earlier: Opacity) -> bool {
    match (later, earlier) {
        (Opacity::Clear, _) => true,
        (Opacity::Fading { .. }, Opacity::Full) => true,
        (
            Opacity::Fading { elapsed_ms: e2, duration_ms: d2 },
            Opacity::Fading { elapsed_ms: e1, duration_ms: d1 },
        ) => d1 == d2 && e1 <= e2,
        (Opacity::Full, Opacity::Full) => true,
        _ => false,
    }
}

/// As a label ages it never becomes more opaque: full while it lingers,
/// then fading, then clear.
pub proof fn lemma_opacity_never_increases(age1: int, age2: int, linger: int, fade: int)
    requires
        0 <= age1 <= age2,
        0 <= linger,
        0 <= fade,
        age2 <= u64::MAX,
        fade <= u64::MAX,
    ensures
        no_more_opaque(opacity_at(age2, linger, fade), opacity_at(age1, linger, fade)),
{
}

/// A label is fully opaque while it lingers and clear once the fade is over.
pub proof fn lemma_opacity_bounds(age: int, linger: int, fade: int)
    requires
        0 <= linger,
        0 <= age <= u64::MAX,
        0 <= fade <= u64::MAX,
    ensures
        age <= linger ==> opacity_at(age, linger, fade) == Opacity::Full,
        age >= linger + fade && age > linger ==> opacity_at(age, linger, fade) == Opacity::Clear,
        (opacity_at(age, linger, fade) matches Opacity::Fading { elapsed_ms, duration_ms } ==> 0
            < elapsed_ms < duration_ms),
{
}

/// While a label fades, its opacity is `Fading` with the time since the
/// linger ended and the full configured fade duration: the opacity drawn
/// is `1 - (age - linger) / fade`, for every linger and fade.
pub proof fn lemma_fading_uses_configured_fade(age: int, linger: int, fade: int)
    requires
        0 <= linger,
        linger < age < linger + fade,
        age <= u64::MAX,
        fade <= u64::MAX,
    ensures
        opacity_at(age, linger, fade) == (Opacity::Fading {
            elapsed_ms: (age - linger) as u64,
            duration_ms: fade as u64,
        }),
{
}

/// What the timeline renders for an entry `age` milliseconds old: fully
/// opaque up to the linger time, then fading with elapsed time
/// `age - linger` out of the configured fade duration, then clear.
pub proof fn lemma_rendered_opacity(
    labels: Seq<KeyLabel>,
    entries: Seq<(Key, Seq<char>, u64)>,
    settings: TimelineConfig,
    now_ms: u64,
    i: int,
)
    requires
        timeline_rendered(labels, entries, settings, now_ms),
        0 <= i < entries.len(),
    ensures
        ({
            let age = elapsed_since(now_ms, entries[i].2);
            let linger = settings.linger_duration_ms as int;
            let fade = settings.fade_duration_ms as int;
            &&& labels[i].text@ == entries[i].1
            &&& age <= linger ==> labels[i].opacity == Opacity::Full
            &&& linger < age < linger + fade ==> labels[i].opacity == (Opacity::Fading {
                elapsed_ms: (age - linger) as u64,
                duration_ms: settings.fade_duration_ms,
            })
            &&& age >= linger + fade && age > linger ==> labels[i].opacity == Opacity::Clear
        }),
{
    assert(labels[i].text@ == entries[i].1);
}

/// Each modifier is shown by the symbol (under `symbol`) or the name (under
/// `text`) of its pair, the same for both keys of the pair.
pub proof fn lemma_modifier_styles()
    ensures
        combo_key_text("symbol"@, Key::ControlLeft) == "⌃"@,
        combo_key_text("symbol"@, Key::ControlRight) == "⌃"@,
        combo_key_text("symbol"@, Key::Alt) == "⌥"@,
        combo_key_text("symbol"@, Key::AltGr) == "⌥"@,
        combo_key_text("symbol"@, Key::ShiftLeft) == "⇧"@,
        combo_key_text("symbol"@, Key::ShiftRight) == "⇧"@,
        combo_key_text("symbol"@, Key::MetaLeft) == "⌘"@,
        combo_key_text("symbol"@, Key::MetaRight) == "⌘"@,
        combo_key_text("text"@, Key::ControlLeft) == "Ctrl"@,
        combo_key_text("text"@, Key::ControlRight) == "Ctrl"@,
        combo_key_text("text"@, Key::Alt) == "Alt"@,
        combo_key_text("text"@, Key::AltGr) == "Alt"@,
        combo_key_text("text"@, Key::ShiftLeft) == "Shift"@,
        combo_key_text("text"@, Key::ShiftRight) == "Shift"@,
        combo_key_text("text"@, Key::MetaLeft) == "Cmd"@,
        combo_key_text("text"@, Key::MetaRight) == "Cmd"@,
{
    reveal_strlit("symbol");
    reveal_strlit("text");
    assert("text"@[0] != "symbol"@[0]);
}

proof fn lemma_filter_idempotent<A>(s: Seq<A>, p: spec_fn(A) -> bool)
    ensures
        s.filter(p).filter(p) == s.filter(p),
    decreases s.len(),
{
    reveal_with_fuel(Seq::<_>::filter, 1);
    if s.len() > 0 {
        lemma_filter_idempotent(s.drop_last(), p);
        let f = s.drop_last().filter(p);
        if p(s.last()) {
            assert(f.push(s.last()).drop_last() =~= f);
        }
    }
}

proof fn lemma_filter_keeps_all<A>(s: Seq<A>, p: spec_fn(A) -> bool)
    requires
        forall|i: int| 0 <= i < s.len() ==> p(#[trigger] s[i]),
    ensures
        s.filter(p) == s,
    decreases s.len(),
{
    reveal_with_fuel(Seq::<_>::filter, 1);
    if s.len() > 0 {
        lemma_filter_keeps_all(s.drop_last(), p);
        assert(s.drop_last().push(s.last()) =~= s);
    }
}

/// Releasing a key just pressed takes it out again: the other keys stay as
/// they were before the press, and where the key was not held before, the
/// held keys are exactly as before.
pub proof fn lemma_press_then_release(held: Seq<(Key, u64)>, key: Key, t1: u64, t2: u64)
    ensures
        combo_after(combo_after(held, KeyEvent::Press(key), t1), KeyEvent::Release(key), t2)
            == held.filter(other_than(key)),
        (forall|i: int| 0 <= i < held.len() ==> (#[trigger] held[i]).0 != key) ==> combo_after(
            combo_after(held, KeyEvent::Press(key), t1),
            KeyEvent::Release(key),
            t2,
        ) == held,
{
    let f = held.filter(other_than(key));
    reveal_with_fuel(Seq::<_>::filter, 1);
    assert(f.push((key, t1)).drop_last() =~= f);
    lemma_filter_idempotent(held, other_than(key));
    if forall|i: int| 0 <= i < held.len() ==> (#[trigger] held[i]).0 != key {
        assert forall|i: int| 0 <= i < held.len() implies (other_than(key))(#[trigger] held[i]) by {}
        lemma_filter_keeps_all(held, other_than(key));
    }
}

/// A pressed key is held afterwards, as the newest entry.
pub proof fn lemma_press_holds_key(held: Seq<(Key, u64)>, key: Key, now_ms: u64)
    ensures
        combo_after(held, KeyEvent::Press(key), now_ms).last() == (key, now_ms),
        forall|i: int|
            0 <= i < combo_after(held, KeyEvent::Press(key), now_ms).len() - 1 ==> (
            #[trigger] combo_after(held, KeyEvent::Press(key), now_ms)[i]).0 != key,
{
    let f = held.filter(other_than(key));
    assert forall|i: int| 0 <= i < f.len() implies (#[trigger] f[i]).0 != key by {
        held.lemma_filter_pred(other_than(key), i);
    }
    assert forall|i: int| 0 <= i < f.push((key, now_ms)).len() - 1 implies (#[trigger] f.push(
        (key, now_ms),
    )[i]).0 != key by {
        assert(f.push((key, now_ms))[i] == f[i]);
    }
}

/// A key that is not a modifier, and every key under a style other than
/// `symbol` or `text` (compared exactly), is shown by its label.
pub proof fn lemma_plain_key_text(style: Seq<char>, key: Key)
    requires
        !is_modifier_key(key) || (style != "symbol"@ && style != "text"@),
    ensures
        combo_key_text(style, key) == key_label(key),
{
}

proof fn lemma_partition_len(keys: Seq<Key>)
    ensures
        keys.filter(modifier_pred()).len() + keys.filter(non_modifier_pred()).len() == keys.len(),
    decreases keys.len(),
{
    reveal_with_fuel(Seq::<_>::filter, 1);
    if keys.len() > 0 {
        lemma_partition_len(keys.drop_last());
    }
}

/// The shown order puts every modifier before every other key, loses no
/// key and adds none.
pub proof fn lemma_combo_order(keys: Seq<Key>)
    ensures
        combo_order(keys).len() == keys.len(),
        forall|k: Key| keys.contains(k) <==> combo_order(keys).contains(k),
        forall|i: int, j: int|
            0 <= i < j < combo_order(keys).len() && !is_modifier_key(#[trigger] combo_order(keys)[i])
                ==> !is_modifier_key(#[trigger] combo_order(keys)[j]),
{
    let a = keys.filter(modifier_pred());
    let b = keys.filter(non_modifier_pred());
    let o = combo_order(keys);
    lemma_partition_len(keys);
    assert forall|i: int| 0 <= i < a.len() implies is_modifier_key(#[trigger] a[i]) by {
        keys.lemma_filter_pred(modifier_pred(), i);
    }
    assert forall|i: int| 0 <= i < b.len() implies !is_modifier_key(#[trigger] b[i]) by {
        keys.lemma_filter_pred(non_modifier_pred(), i);
    }
    assert forall|i: int, j: int|
        0 <= i < j < o.len() && !is_modifier_key(#[trigger] o[i]) implies !is_modifier_key(#[trigger] o[j]) by {
        if i < a.len() {
            assert(o[i] == a[i]);
        } else {
            assert(o[j] == b[j - a.len()]);
        }
    }
    assert forall|k: Key| keys.contains(k) <==> o.contains(k) by {
        if keys.contains(k) {
            let i = choose|i: int| 0 <= i < keys.len() && keys[i] == k;
            if is_modifier_key(k) {
                keys.lemma_filter_contains(modifier_pred(), i);
                let j = choose|j: int| 0 <= j < a.len() && a[j] == k;
                assert(o[j] == k);
            } else {
                keys.lemma_filter_contains(non_modifier_pred(), i);
                let j = choose|j: int| 0 <= j < b.len() && b[j] == k;
                assert(o[a.len() + j] == k);
            }
        }
        if o.contains(k) {
            let j = choose|j: int| 0 <= j < o.len() && o[j] == k;
            if j < a.len() {
                assert(a[j] == k);
                assert(a.contains(k));
                keys.lemma_filter_contains_rev(modifier_pred(), k);
            } else {
                assert(b[j - a.len()] == k);
                assert(b.contains(k));
                keys.lemma_filter_contains_rev(non_modifier_pred(), k);
            }
        }
    }
}

} // verus!
