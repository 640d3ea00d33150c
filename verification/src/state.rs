//! The first, in-memory form of the preferences: the conversion switch, the pause,
//! and the apps where the hotkey does nothing.

use vstd::prelude::*;

use crate::settings::ids;

verus! {

/// Apps where the hotkey does nothing: terminals (word selection keys mean something
/// else there) and password managers.
pub const DEFAULT_EXCLUDED: [&'static str; 5] = [
    "com.apple.Terminal",
    "com.googlecode.iterm2",
    "com.apple.keychainaccess",
    "com.1password.1password",
    "com.agilebits.onepassword7",
];

/// User preferences, held in memory.
#[derive(Clone, Debug)]
pub struct Settings {
    pub switch_input_source: bool,
    pub paused: bool,
    pub excluded_apps: Vec<String>,
}

impl Default for Settings {
    fn default() -> (r: Settings)
        ensures
            r.switch_input_source,
            !r.paused,
            ids(r.excluded_apps@) == DEFAULT_EXCLUDED@.map_values(|id: &'static str| id@),
    {
        let ghost defaults = DEFAULT_EXCLUDED@.map_values(|id: &'static str| id@);
        let mut excluded_apps: Vec<String> = Vec::new();
        let mut i: usize = 0;
        while i < DEFAULT_EXCLUDED.len()
            invariant
                i <= DEFAULT_EXCLUDED@.len(),
                defaults == DEFAULT_EXCLUDED@.map_values(|id: &'static str| id@),
                ids(excluded_apps@) == defaults.take(i as int),
            decreases DEFAULT_EXCLUDED.len() - i,
        {
            let id = DEFAULT_EXCLUDED[i].to_owned();
            assert(id@ == defaults[i as int]);
            let ghost before = ids(excluded_apps@);
            excluded_apps.push(id);
            assert(ids(excluded_apps@) =~= before.push(id@));
            assert(defaults.take(i + 1) =~= defaults.take(i as int).push(id@));
            i += 1;
        }
        assert(defaults.take(DEFAULT_EXCLUDED@.len() as int) =~= defaults);
        Settings { switch_input_source: true, paused: false, excluded_apps }
    }
}

} // verus!
