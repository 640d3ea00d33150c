//! Updates: when to check, what a check or an install leads to, and what the user is told.
//! Talking to the update server, the dialogs and the timers are the app's business.
//!
//! - **Automatic** (when enabled): a check shortly after launch, then daily. It never
//!   interrupts: a found update becomes a menu item and a line in Settings.
//! - **From the menu**: a native dialog answers — install, up to date, or failed.
//! - **From Settings**: the row itself shows the state, with a button to install.

use vstd::prelude::*;

use crate::menu_text::{strings, strings_of, table_of};
use crate::settings::Language;
use crate::text::{opt_view, replace, spec_replace};

verus! {

/// Automatic checks are at least this far apart, across relaunches too (ms).
pub const CHECK_INTERVAL_MS: u64 = 86400000;

#[derive(Clone, Copy, Debug, PartialEq, Eq, Structural)]
pub enum Trigger {
    Automatic,
    Menu,
    Settings,
}

#[derive(Clone, Copy, Debug, PartialEq, Eq, Structural)]
pub enum Phase {
    Idle,
    Checking,
    UpToDate,
    Available,
    Installing,
    Failed,
}

impl Default for Phase {
    fn default() -> (r: Phase)
        ensures
            r == Phase::Idle,
    {
        Phase::Idle
    }
}

/// What Settings shows.
#[derive(Clone, Debug)]
pub struct Status {
    pub phase: Phase,
    /// The version on offer, while `phase` is `Available` or `Installing`.
    pub version: Option<String>,
    /// Milliseconds since the Unix epoch.
    pub last_checked: Option<u64>,
}

impl Default for Status {
    fn default() -> (r: Status)
        ensures
            r.phase == Phase::Idle,
            r.version is None,
            r.last_checked is None,
    {
        Status { phase: Phase::Idle, version: None, last_checked: None }
    }
}

impl Status {
    /// Moves to `phase`, offering `version`, with the time of the last check as recorded.
    pub fn set(&mut self, phase: Phase, version: Option<String>, last_checked: Option<u64>)
        ensures
            final(self).phase == phase,
            final(self).version == version,
            final(self).last_checked == last_checked,
    {
        self.phase = phase;
        self.version = version;
        self.last_checked = last_checked;
    }

    /// The status as Settings shows it: before any check this run, the time of the last
    /// check comes from the preferences.
    pub fn with_fallback(&self, recorded: Option<u64>) -> (r: Status)
        ensures
            r.phase == self.phase,
            opt_view(r.version) == opt_view(self.version),
            r.last_checked == (match self.last_checked {
                Some(t) => Some(t),
                None => recorded,
            }),
    {
        Status {
            phase: self.phase,
            version: match &self.version {
                Some(v) => Some(v.clone()),
                None => None,
            },
            last_checked: match self.last_checked {
                Some(t) => Some(t),
                None => recorded,
            },
        }
    }

    /// The version on offer, for the menu.
    pub fn available_version(&self) -> (r: Option<String>)
        ensures
            opt_view(r) == (if self.phase == Phase::Available {
                opt_view(self.version)
            } else {
                None
            }),
    {
        if self.phase == Phase::Available {
            match &self.version {
                Some(v) => Some(v.clone()),
                None => None,
            }
        } else {
            None
        }
    }

    /// A check already running, or an install: a new check waits for it to finish.
    pub fn is_busy(&self) -> (r: bool)
        ensures
            r == (self.phase == Phase::Checking || self.phase == Phase::Installing),
    {
        self.phase == Phase::Checking || self.phase == Phase::Installing
    }
}

/// Whether an automatic check is due at `now`: never checked, or the last check is a
/// day old. A clock that went backwards makes nothing due.
pub open spec fn spec_check_due(last: Option<u64>, now: u64) -> bool {
    match last {
        None => true,
        Some(t) => now >= t && now - t >= CHECK_INTERVAL_MS,
    }
}

pub fn check_due(last: Option<u64>, now_ms: u64) -> (r: bool)
    ensures
        r == spec_check_due(last, now_ms),
{
    match last {
        None => true,
        Some(t) => now_ms.saturating_sub(t) >= CHECK_INTERVAL_MS,
    }
}

/// What the update server answered.
pub enum CheckResult {
    /// A newer release, and the version running now.
    Found { version: String, current: String },
    UpToDate,
    Failed,
}

#[derive(Clone, Copy, Debug, PartialEq, Eq, Structural)]
pub enum DialogKind {
    Info,
    Warning,
    Error,
}

/// A native dialog to show.
pub enum Dialog {
    /// Install now or later.
    Ask { title: &'static str, body: String, install: &'static str, later: &'static str },
    /// A message with one button.
    Inform { kind: DialogKind, title: &'static str, body: String },
}

/// A dialog as (kind, title, body, install and later labels); asking has no kind.
pub open spec fn dialog_view(d: Dialog) -> (Option<DialogKind>, Seq<char>, Seq<char>, Seq<char>, Seq<char>) {
    match d {
        Dialog::Ask { title, body, install, later } => (None, title@, body@, install@, later@),
        Dialog::Inform { kind, title, body } => (Some(kind), title@, body@, Seq::empty(), Seq::empty()),
    }
}

pub open spec fn opt_dialog_view(d: Option<Dialog>) -> Option<
    (Option<DialogKind>, Seq<char>, Seq<char>, Seq<char>, Seq<char>),
> {
    match d {
        Some(d) => Some(dialog_view(d)),
        None => None,
    }
}

/// What follows a check: the new phase, the version on offer, and, only for a check the
/// user asked for from the menu, the dialog that answers it.
pub struct Reaction {
    pub phase: Phase,
    pub version: Option<String>,
    pub dialog: Option<Dialog>,
}

pub open spec fn check_result_view(r: CheckResult) -> Option<Option<(Seq<char>, Seq<char>)>> {
    match r {
        CheckResult::Found { version, current } => Some(Some((version@, current@))),
        CheckResult::UpToDate => Some(None),
        CheckResult::Failed => None,
    }
}

/// The reaction to a check, with the result as: a release found (its version and the one
/// running), up to date, or failed (`None`). `running` is the app's own version.
pub open spec fn spec_after_check(
    result: Option<Option<(Seq<char>, Seq<char>)>>,
    trigger: Trigger,
    language: Language,
    running: Seq<char>,
) -> (Phase, Option<Seq<char>>, Option<(Option<DialogKind>, Seq<char>, Seq<char>, Seq<char>, Seq<char>)>) {
    let text = strings_of(table_of(language));
    let asked = trigger == Trigger::Menu;
    match result {
        Some(Some((version, current))) => (
            Phase::Available,
            Some(version),
            if asked {
                Some(
                    (
                        None,
                        text.update_available_title@,
                        spec_replace(
                            spec_replace(text.update_available_body@, "{version}"@, version),
                            "{current}"@,
                            current,
                        ),
                        text.install_and_restart@,
                        text.later@,
                    ),
                )
            } else {
                None
            },
        ),
        Some(None) => (
            Phase::UpToDate,
            None,
            if asked {
                Some(
                    (
                        Some(DialogKind::Info),
                        text.up_to_date_title@,
                        spec_replace(text.up_to_date_body@, "{current}"@, running),
                        Seq::empty(),
                        Seq::empty(),
                    ),
                )
            } else {
                None
            },
        ),
        None => (
            Phase::Failed,
            None,
            if asked {
                Some(
                    (
                        Some(DialogKind::Warning),
                        text.check_failed_title@,
                        text.update_failed_body@,
                        Seq::empty(),
                        Seq::empty(),
                    ),
                )
            } else {
                None
            },
        ),
    }
}

pub fn after_check(result: &CheckResult, trigger: Trigger, language: Language, running: &str) -> (r:
    Reaction)
    ensures
        (r.phase, opt_view(r.version), opt_dialog_view(r.dialog)) == spec_after_check(
            check_result_view(*result),
            trigger,
            language,
            running@,
        ),
{
    let text = strings(language);
    let asked = trigger == Trigger::Menu;
    proof {
        reveal_strlit("{version}");
        reveal_strlit("{current}");
    }
    match result {
        CheckResult::Found { version, current } => {
            let dialog = if asked {
                let body = replace(
                    replace(text.update_available_body, "{version}", version.as_str()).as_str(),
                    "{current}",
                    current.as_str(),
                );
                Some(
                    Dialog::Ask {
                        title: text.update_available_title,
                        body,
                        install: text.install_and_restart,
                        later: text.later,
                    },
                )
            } else {
                None
            };
            Reaction { phase: Phase::Available, version: Some(version.clone()), dialog }
        },
        CheckResult::UpToDate => {
            let dialog = if asked {
                Some(
                    Dialog::Inform {
                        kind: DialogKind::Info,
                        title: text.up_to_date_title,
                        body: replace(text.up_to_date_body, "{current}", running),
                    },
                )
            } else {
                None
            };
            Reaction { phase: Phase::UpToDate, version: None, dialog }
        },
        CheckResult::Failed => {
            let dialog = if asked {
                Some(
                    Dialog::Inform {
                        kind: DialogKind::Warning,
                        title: text.check_failed_title,
                        body: text.update_failed_body.to_owned(),
                    },
                )
            } else {
                None
            };
            Reaction { phase: Phase::Failed, version: None, dialog }
        },
    }
}

/// After a failed install the update stays on offer, and the user is told.
pub fn install_failed(version: String, language: Language) -> (r: Reaction)
    ensures
        r.phase == Phase::Available,
        r.version == Some(version),
        opt_dialog_view(r.dialog) == Some(
            (
                Some(DialogKind::Error),
                strings_of(table_of(language)).install_failed_title@,
                strings_of(table_of(language)).update_failed_body@,
                Seq::<char>::empty(),
                Seq::<char>::empty(),
            ),
        ),
{
    let text = strings(language);
    Reaction {
        phase: Phase::Available,
        version: Some(version),
        dialog: Some(
            Dialog::Inform {
                kind: DialogKind::Error,
                title: text.install_failed_title,
                body: text.update_failed_body.to_owned(),
            },
        ),
    }
}

} // verus!
