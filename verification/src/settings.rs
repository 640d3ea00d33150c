//! User preferences: the single source of truth for everything the UI can change.
//!
//! Only preferences live here — never text the user typed. Reading and writing the
//! store is the app's business; these are the values and the rules over them.

use vstd::prelude::*;

use crate::text::str_eq;

verus! {

/// Apps where the hotkey does nothing: terminals (the selection keys mean something
/// else there) and password managers. Each entry records the defaults version that
/// introduced it, so an existing install picks up later additions exactly once.
pub const DEFAULT_EXCLUDED: [(&'static str, u32); 14] = [
    // Terminals
    ("com.apple.Terminal", 1),
    ("com.googlecode.iterm2", 1),
    ("dev.warp.Warp-Stable", 2),
    ("com.mitchellh.ghostty", 2),
    ("net.kovidgoyal.kitty", 2),
    ("org.alacritty", 2),
    ("com.github.wez.wezterm", 2),
    // Password managers
    ("com.apple.keychainaccess", 1),
    ("com.apple.Passwords", 2),
    ("com.1password.1password", 1),
    ("com.agilebits.onepassword7", 1),
    ("com.bitwarden.desktop", 2),
    ("org.keepassxc.keepassxc", 2),
    ("in.sinew.Enpass-Desktop", 2),
];

/// Bump when entries are added to [`DEFAULT_EXCLUDED`].
pub const DEFAULTS_VERSION: u32 = 2;

pub const DEFAULT_SHORTCUT: &'static str = "Alt+Shift+Space";

/// The identifiers of the default exceptions, in order.
pub open spec fn default_ids() -> Seq<Seq<char>> {
    DEFAULT_EXCLUDED@.map_values(|e: (&'static str, u32)| e.0@)
}

/// Whether `bundle_id` is one of the default exceptions.
pub fn is_default_excluded(bundle_id: &str) -> (r: bool)
    ensures
        r == default_ids().contains(bundle_id@),
{
    let mut i: usize = 0;
    while i < DEFAULT_EXCLUDED.len()
        invariant
            i <= DEFAULT_EXCLUDED@.len(),
            forall|j: int| 0 <= j < i ==> default_ids()[j] != bundle_id@,
        decreases DEFAULT_EXCLUDED.len() - i,
    {
        if str_eq(DEFAULT_EXCLUDED[i].0, bundle_id) {
            assert(default_ids()[i as int] == bundle_id@);
            return true;
        }
        i += 1;
    }
    false
}

#[derive(Clone, Copy, Debug, PartialEq, Eq, Structural)]
pub enum Language {
    Ar,
    En,
}

/// Which of the three shortcuts a binding belongs to.
#[derive(Clone, Copy, Debug, PartialEq, Eq, Structural)]
pub enum Binding {
    Convert,
    Undo,
    Pause,
}

impl Binding {
    pub const ALL: [Binding; 3] = [Binding::Convert, Binding::Undo, Binding::Pause];
}

#[derive(Clone, Debug)]
pub struct Settings {
    // عام
    pub launch_at_login: bool,
    pub show_tray_icon: bool,
    pub language: Language,
    pub switch_input_source: bool,
    pub show_hud: bool,
    pub sound: bool,
    pub auto_update: bool,
    // الاختصارات — an empty string means "not bound".
    pub shortcut_convert: String,
    pub shortcut_undo: String,
    pub shortcut_pause: String,
    // التخطيطات — an input source id, or empty to follow whatever macOS has enabled.
    pub arabic_layout: String,
    pub latin_layout: String,
    // الاستثناءات — bundle identifiers. Names and icons are resolved live.
    pub excluded_apps: Vec<String>,
    // Not shown in the UI.
    pub paused: bool,
    /// Set once the welcome window has been completed or skipped.
    pub welcomed: bool,
    /// When updates were last checked, in milliseconds since the Unix epoch.
    pub last_update_check: Option<u64>,
    /// The [`DEFAULTS_VERSION`] these settings have seen. Files written before it
    /// existed had the first set of defaults, hence 1 there, not the current version.
    pub defaults_version: u32,
}

/// A list of strings, as character sequences.
pub open spec fn ids(list: Seq<String>) -> Seq<Seq<char>> {
    list.map_values(|id: String| id@)
}

/// The excluded bundle identifiers, as character sequences.
pub open spec fn exclusions(s: Settings) -> Seq<Seq<char>> {
    ids(s.excluded_apps@)
}

/// The defaults version that settings files written before it existed are taken to have.
pub fn first_defaults() -> (r: u32)
    ensures
        r == 1,
{
    1
}

/// Everything but the exceptions and their version is the same in `a` and `b`.
pub open spec fn same_but_exclusions(a: Settings, b: Settings) -> bool {
    &&& a.launch_at_login == b.launch_at_login
    &&& a.show_tray_icon == b.show_tray_icon
    &&& a.language == b.language
    &&& a.switch_input_source == b.switch_input_source
    &&& a.show_hud == b.show_hud
    &&& a.sound == b.sound
    &&& a.auto_update == b.auto_update
    &&& a.shortcut_convert@ == b.shortcut_convert@
    &&& a.shortcut_undo@ == b.shortcut_undo@
    &&& a.shortcut_pause@ == b.shortcut_pause@
    &&& a.arabic_layout@ == b.arabic_layout@
    &&& a.latin_layout@ == b.latin_layout@
    &&& a.paused == b.paused
    &&& a.welcomed == b.welcomed
    &&& a.last_update_check == b.last_update_check
}

/// The accelerator bound to `which`.
pub open spec fn spec_binding(s: Settings, which: Binding) -> Seq<char> {
    match which {
        Binding::Convert => s.shortcut_convert@,
        Binding::Undo => s.shortcut_undo@,
        Binding::Pause => s.shortcut_pause@,
    }
}

/// The exceptions after adopting the first `k` default entries newer than `version`
/// that are not already listed.
pub open spec fn adopt_prefix(list: Seq<Seq<char>>, version: u32, k: nat) -> Seq<Seq<char>>
    decreases k,
{
    if k == 0 {
        list
    } else {
        let prev = adopt_prefix(list, version, (k - 1) as nat);
        let (id, since) = DEFAULT_EXCLUDED@[k - 1];
        if since > version && !prev.contains(id@) {
            prev.push(id@)
        } else {
            prev
        }
    }
}

/// The defaults version settings are on after adopting the new defaults.
pub open spec fn version_after_adopt(version: u32) -> u32 {
    if version < DEFAULTS_VERSION {
        DEFAULTS_VERSION
    } else {
        version
    }
}

/// The exceptions after adopting every default entry newer than `version`.
pub open spec fn adopted(list: Seq<Seq<char>>, version: u32) -> Seq<Seq<char>> {
    adopt_prefix(list, version, DEFAULT_EXCLUDED@.len())
}

impl Default for Settings {
    fn default() -> (r: Settings)
        ensures
            !r.launch_at_login,
            r.show_tray_icon,
            r.language == Language::Ar,
            r.switch_input_source,
            r.show_hud,
            !r.sound,
            r.auto_update,
            r.shortcut_convert@ == DEFAULT_SHORTCUT@,
            r.shortcut_undo@.len() == 0,
            r.shortcut_pause@.len() == 0,
            r.arabic_layout@.len() == 0,
            r.latin_layout@.len() == 0,
            exclusions(r) == default_ids(),
            !r.paused,
            !r.welcomed,
            r.last_update_check is None,
            r.defaults_version == DEFAULTS_VERSION,
    {
        let mut excluded_apps: Vec<String> = Vec::new();
        let mut i: usize = 0;
        while i < DEFAULT_EXCLUDED.len()
            invariant
                i <= DEFAULT_EXCLUDED@.len(),
                ids(excluded_apps@) == default_ids().take(i as int),
            decreases DEFAULT_EXCLUDED.len() - i,
        {
            let entry = DEFAULT_EXCLUDED[i];
            let id = entry.0.to_owned();
            assert(id@ == default_ids()[i as int]);
            let ghost before = ids(excluded_apps@);
            excluded_apps.push(id);
            assert(ids(excluded_apps@) =~= before.push(id@));
            assert(default_ids().take(i + 1) =~= default_ids().take(i as int).push(id@));
            i += 1;
        }
        assert(default_ids().take(DEFAULT_EXCLUDED@.len() as int) =~= default_ids());
        Settings {
            launch_at_login: false,
            show_tray_icon: true,
            language: Language::Ar,
            switch_input_source: true,
            show_hud: true,
            sound: false,
            auto_update: true,
            shortcut_convert: DEFAULT_SHORTCUT.to_owned(),
            shortcut_undo: String::new(),
            shortcut_pause: String::new(),
            arabic_layout: String::new(),
            latin_layout: String::new(),
            excluded_apps,
            paused: false,
            welcomed: false,
            last_update_check: None,
            defaults_version: DEFAULTS_VERSION,
        }
    }
}

impl Settings {
    pub fn binding(&self, which: Binding) -> (r: &str)
        ensures
            r@ == spec_binding(*self, which),
    {
        match which {
            Binding::Convert => self.shortcut_convert.as_str(),
            Binding::Undo => self.shortcut_undo.as_str(),
            Binding::Pause => self.shortcut_pause.as_str(),
        }
    }

    pub fn set_binding(&mut self, which: Binding, accelerator: String)
        ensures
            spec_binding(*final(self), which) == accelerator@,
            forall|other: Binding|
                other != which ==> spec_binding(*final(self), other) == spec_binding(
                    *old(self),
                    other,
                ),
            same_but_bindings(*old(self), *final(self)),
    {
        match which {
            Binding::Convert => self.shortcut_convert = accelerator,
            Binding::Undo => self.shortcut_undo = accelerator,
            Binding::Pause => self.shortcut_pause = accelerator,
        }
    }

    /// Adds the default exceptions introduced since these settings were written. One the
    /// user removed after it arrived is not brought back: each is offered only once.
    pub fn adopt_new_defaults(&mut self) -> (r: bool)
        ensures
            r == (old(self).defaults_version < DEFAULTS_VERSION),
            r ==> exclusions(*final(self)) == adopted(
                exclusions(*old(self)),
                old(self).defaults_version,
            ),
            !r ==> exclusions(*final(self)) == exclusions(*old(self)),
            final(self).defaults_version == version_after_adopt(old(self).defaults_version),
            same_but_exclusions(*old(self), *final(self)),
    {
        if self.defaults_version >= DEFAULTS_VERSION {
            return false;
        }
        let version = self.defaults_version;
        let mut i: usize = 0;
        while i < DEFAULT_EXCLUDED.len()
            invariant
                i <= DEFAULT_EXCLUDED@.len(),
                version == old(self).defaults_version,
                self.defaults_version == version,
                exclusions(*self) == adopt_prefix(exclusions(*old(self)), version, i as nat),
                same_but_exclusions(*old(self), *self),
            decreases DEFAULT_EXCLUDED.len() - i,
        {
            let (id, since) = DEFAULT_EXCLUDED[i];
            if since > version && !contains_id(&self.excluded_apps, id) {
                let ghost before = exclusions(*self);
                self.excluded_apps.push(id.to_owned());
                assert(exclusions(*self) =~= before.push(id@));
            }
            i += 1;
        }
        self.defaults_version = DEFAULTS_VERSION;
        true
    }
}

/// Everything but the three shortcuts is the same in `a` and `b`.
pub open spec fn same_but_bindings(a: Settings, b: Settings) -> bool {
    &&& a.launch_at_login == b.launch_at_login
    &&& a.show_tray_icon == b.show_tray_icon
    &&& a.language == b.language
    &&& a.switch_input_source == b.switch_input_source
    &&& a.show_hud == b.show_hud
    &&& a.sound == b.sound
    &&& a.auto_update == b.auto_update
    &&& a.arabic_layout@ == b.arabic_layout@
    &&& a.latin_layout@ == b.latin_layout@
    &&& exclusions(a) == exclusions(b)
    &&& a.paused == b.paused
    &&& a.welcomed == b.welcomed
    &&& a.last_update_check == b.last_update_check
    &&& a.defaults_version == b.defaults_version
}

/// Whether `list` holds `id`.
pub fn contains_id(list: &Vec<String>, id: &str) -> (r: bool)
    ensures
        r == ids(list@).contains(id@),
{
    let mut i: usize = 0;
    while i < list.len()
        invariant
            i <= list.len(),
            forall|j: int| 0 <= j < i ==> list@[j]@ != id@,
        decreases list.len() - i,
    {
        if str_eq(list[i].as_str(), id) {
            assert(ids(list@)[i as int] == id@);
            return true;
        }
        i += 1;
    }
    assert forall|j: int| 0 <= j < list@.len() implies #[trigger] ids(list@)[j] != id@ by {
        assert(list@[j]@ != id@);
    }
    false
}

/// `list` without any copy of `id`.
pub open spec fn without(list: Seq<Seq<char>>, id: Seq<char>) -> Seq<Seq<char>>
    decreases list.len(),
{
    if list.len() == 0 {
        list
    } else {
        let prev = without(list.drop_last(), id);
        if list.last() == id {
            prev
        } else {
            prev.push(list.last())
        }
    }
}

impl Settings {
    /// Adds an app to the exceptions, unless it is already there.
    pub fn exclude(&mut self, id: String)
        ensures
            exclusions(*final(self)) == if exclusions(*old(self)).contains(id@) {
                exclusions(*old(self))
            } else {
                exclusions(*old(self)).push(id@)
            },
            same_but_exclusions(*old(self), *final(self)),
            final(self).defaults_version == old(self).defaults_version,
    {
        if !contains_id(&self.excluded_apps, id.as_str()) {
            let ghost before = exclusions(*self);
            let ghost v = id@;
            self.excluded_apps.push(id);
            assert(exclusions(*self) =~= before.push(v));
        }
    }

    /// Takes an app off the exceptions, every copy of it.
    pub fn unexclude(&mut self, id: &str)
        ensures
            exclusions(*final(self)) == without(exclusions(*old(self)), id@),
            same_but_exclusions(*old(self), *final(self)),
            final(self).defaults_version == old(self).defaults_version,
    {
        let mut kept: Vec<String> = Vec::new();
        let mut i: usize = 0;
        let old_list = &self.excluded_apps;
        while i < old_list.len()
            invariant
                i <= old_list.len(),
                ids(old_list@) == exclusions(*old(self)),
                ids(kept@) == without(ids(old_list@).take(i as int), id@),
            decreases old_list.len() - i,
        {
            assert(ids(old_list@).take(i + 1).drop_last() =~= ids(old_list@).take(i as int));
            assert(ids(old_list@).take(i + 1).last() == old_list@[i as int]@);
            if !str_eq(old_list[i].as_str(), id) {
                let ghost before = ids(kept@);
                kept.push(old_list[i].clone());
                assert(ids(kept@) =~= before.push(old_list@[i as int]@));
            }
            i += 1;
        }
        assert(ids(old_list@).take(old_list.len() as int) =~= ids(old_list@));
        self.excluded_apps = kept;
    }
}

/// What a change of settings asks of the rest of the app.
pub struct SyncPlan {
    /// Switch launching at login on (`true`) or off, when that preference changed.
    pub autostart: Option<bool>,
    /// Register the global shortcuts again, when any of them changed.
    pub rebind: bool,
}

/// What going from `previous` to `next` asks for: the login item only when that preference
/// changed, the shortcuts only when one of them did.
pub fn sync_plan(previous: &Settings, next: &Settings) -> (r: SyncPlan)
    ensures
        r.autostart == (if previous.launch_at_login != next.launch_at_login {
            Some(next.launch_at_login)
        } else {
            None
        }),
        r.rebind == (exists|b: Binding| spec_binding(*previous, b) != spec_binding(*next, b)),
{
    let autostart = if previous.launch_at_login != next.launch_at_login {
        Some(next.launch_at_login)
    } else {
        None
    };
    let c = !str_eq(previous.shortcut_convert.as_str(), next.shortcut_convert.as_str());
    let u = !str_eq(previous.shortcut_undo.as_str(), next.shortcut_undo.as_str());
    let p = !str_eq(previous.shortcut_pause.as_str(), next.shortcut_pause.as_str());
    proof {
        if c {
            assert(spec_binding(*previous, Binding::Convert) != spec_binding(*next, Binding::Convert));
        }
        if u {
            assert(spec_binding(*previous, Binding::Undo) != spec_binding(*next, Binding::Undo));
        }
        if p {
            assert(spec_binding(*previous, Binding::Pause) != spec_binding(*next, Binding::Pause));
        }
    }
    SyncPlan { autostart, rebind: c || u || p }
}

/// The shortcuts to register, in the order of [`Binding::ALL`]: every binding with an
/// accelerator. An empty one means "not bound".
pub open spec fn spec_to_register(s: Settings) -> Seq<(Binding, Seq<char>)> {
    let all = seq![Binding::Convert, Binding::Undo, Binding::Pause];
    all.filter(|b: Binding| spec_binding(s, b).len() > 0).map_values(
        |b: Binding| (b, spec_binding(s, b)),
    )
}

pub fn to_register(settings: &Settings) -> (r: Vec<(Binding, String)>)
    ensures
        r@.map_values(|p: (Binding, String)| (p.0, p.1@)) == spec_to_register(*settings),
{
    let mut out: Vec<(Binding, String)> = Vec::new();
    let c = settings.binding(Binding::Convert);
    let u = settings.binding(Binding::Undo);
    let p = settings.binding(Binding::Pause);
    if c.unicode_len() > 0 {
        out.push((Binding::Convert, c.to_owned()));
    }
    if u.unicode_len() > 0 {
        out.push((Binding::Undo, u.to_owned()));
    }
    if p.unicode_len() > 0 {
        out.push((Binding::Pause, p.to_owned()));
    }
    let ghost all = seq![Binding::Convert, Binding::Undo, Binding::Pause];
    let ghost pred = |b: Binding| spec_binding(*settings, b).len() > 0;
    assert(all.drop_last().drop_last().drop_last() =~= Seq::<Binding>::empty());
    assert(all.drop_last().drop_last() =~= seq![Binding::Convert]);
    assert(all.drop_last() =~= seq![Binding::Convert, Binding::Undo]);
    reveal_with_fuel(Seq::filter, 4);
    assert(r_view(out@) =~= spec_to_register(*settings));
    out
}

pub open spec fn r_view(v: Seq<(Binding, String)>) -> Seq<(Binding, Seq<char>)> {
    v.map_values(|p: (Binding, String)| (p.0, p.1@))
}

/// Whether the shortcuts macOS refused include `binding`.
pub fn was_refused(refused: &Vec<Binding>, binding: Binding) -> (r: bool)
    ensures
        r == refused@.contains(binding),
{
    let mut i: usize = 0;
    while i < refused.len()
        invariant
            i <= refused.len(),
            forall|j: int| 0 <= j < i ==> refused@[j] != binding,
        decreases refused.len() - i,
    {
        if refused[i] == binding {
            assert(refused@[i as int] == binding);
            return true;
        }
        i += 1;
    }
    false
}

} // verus!
