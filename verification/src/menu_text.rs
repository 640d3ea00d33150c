//! The handful of strings that live outside the webview.
//!
//! The tray menu and the notice panel are native, so they cannot read the page's
//! translation files. This table mirrors the `menu.*`, `hud.*` and `updateDialog.*` keys there;
//! the two are kept in step by hand.

use vstd::prelude::*;

use crate::settings::Language;

verus! {

pub struct Strings {
    pub name: &'static str,
    pub ready: &'static str,
    pub needs_permission: &'static str,
    pub paused: &'static str,
    pub hint: &'static str,
    pub undo: &'static str,
    pub grant_permission: &'static str,
    pub switch_layout: &'static str,
    pub pause: &'static str,
    pub resume: &'static str,
    pub settings: &'static str,
    pub check_updates: &'static str,
    /// `{version}`
    pub install_update: &'static str,
    pub quit: &'static str,
    pub hud_undone: &'static str,
    pub hud_blocked: &'static str,
    pub hud_too_long: &'static str,
    pub hud_no_text: &'static str,
    pub update_available_title: &'static str,
    /// `{version}`, `{current}`
    pub update_available_body: &'static str,
    pub install_and_restart: &'static str,
    pub later: &'static str,
    pub up_to_date_title: &'static str,
    /// `{current}`
    pub up_to_date_body: &'static str,
    pub check_failed_title: &'static str,
    pub install_failed_title: &'static str,
    pub update_failed_body: &'static str,
    pub ok: &'static str,
}

/// The Arabic strings, in field order.
pub const AR: [&'static str; 28] = [
    "بدّل",
    "جاهز",
    "تحتاج صلاحية",
    "متوقف مؤقتًا",
    "حوّل التحديد أو آخر كلمة",
    "تراجع",
    "امنح الصلاحية…",
    "بدّل لغة لوحة المفاتيح بعد التحويل",
    "أوقف بدّل مؤقتًا",
    "استأنف بدّل",
    "الإعدادات…",
    "تحقّق من التحديثات…",
    "ثبّت التحديث {version}…",
    "إنهاء بدّل",
    "تم التراجع",
    "حقل محمي — لم يُحوَّل شيء",
    "التحديد طويل جدًا",
    "لا يوجد نص لتحويله",
    "يتوفر إصدار جديد من بدّل",
    "الإصدار {version} متاح، ولديك {current}. يُعاد تشغيل بدّل بعد التثبيت.",
    "ثبّت وأعد التشغيل",
    "لاحقًا",
    "بدّل محدَّث",
    "لديك أحدث إصدار ({current}).",
    "تعذّر التحقق من التحديثات",
    "تعذّر تثبيت التحديث",
    "تحقّق من اتصالك بالإنترنت، ثم حاول مرة أخرى.",
    "حسنًا",
];

/// The English strings, in field order.
pub const EN: [&'static str; 28] = [
    "Baddel",
    "Ready",
    "Needs Permission",
    "Paused",
    "Convert the selection or last word",
    "Undo",
    "Grant Permission…",
    "Switch keyboard layout after converting",
    "Pause Baddel",
    "Resume Baddel",
    "Settings…",
    "Check for Updates…",
    "Install Update {version}…",
    "Quit Baddel",
    "Undone",
    "Protected field — nothing converted",
    "Selection is too long",
    "No text to convert",
    "A New Version of Baddel Is Available",
    "Version {version} is available — you have {current}. Baddel restarts after installing.",
    "Install and Restart",
    "Later",
    "Baddel Is Up to Date",
    "You have the latest version ({current}).",
    "Couldn’t Check for Updates",
    "Couldn’t Install the Update",
    "Check your internet connection, then try again.",
    "OK",
];

/// The strings of a table, field by field.
pub open spec fn strings_of(t: Seq<&'static str>) -> Strings {
    Strings {
        name: t[0],
        ready: t[1],
        needs_permission: t[2],
        paused: t[3],
        hint: t[4],
        undo: t[5],
        grant_permission: t[6],
        switch_layout: t[7],
        pause: t[8],
        resume: t[9],
        settings: t[10],
        check_updates: t[11],
        install_update: t[12],
        quit: t[13],
        hud_undone: t[14],
        hud_blocked: t[15],
        hud_too_long: t[16],
        hud_no_text: t[17],
        update_available_title: t[18],
        update_available_body: t[19],
        install_and_restart: t[20],
        later: t[21],
        up_to_date_title: t[22],
        up_to_date_body: t[23],
        check_failed_title: t[24],
        install_failed_title: t[25],
        update_failed_body: t[26],
        ok: t[27],
    }
}

/// The table for `language`.
pub open spec fn table_of(language: Language) -> Seq<&'static str> {
    match language {
        Language::Ar => AR@,
        Language::En => EN@,
    }
}

/// Builds the strings of a table.
fn from_table(t: &[&'static str; 28]) -> (r: Strings)
    ensures
        r == strings_of(t@),
{
    Strings {
        name: t[0],
        ready: t[1],
        needs_permission: t[2],
        paused: t[3],
        hint: t[4],
        undo: t[5],
        grant_permission: t[6],
        switch_layout: t[7],
        pause: t[8],
        resume: t[9],
        settings: t[10],
        check_updates: t[11],
        install_update: t[12],
        quit: t[13],
        hud_undone: t[14],
        hud_blocked: t[15],
        hud_too_long: t[16],
        hud_no_text: t[17],
        update_available_title: t[18],
        update_available_body: t[19],
        install_and_restart: t[20],
        later: t[21],
        up_to_date_title: t[22],
        up_to_date_body: t[23],
        check_failed_title: t[24],
        install_failed_title: t[25],
        update_failed_body: t[26],
        ok: t[27],
    }
}

pub fn strings(language: Language) -> (r: Strings)
    ensures
        r == strings_of(table_of(language)),
{
    match language {
        Language::Ar => from_table(&AR),
        Language::En => from_table(&EN),
    }
}

} // verus!
