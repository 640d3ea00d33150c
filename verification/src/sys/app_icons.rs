//! Resolving a bundle identifier to the name and icon macOS shows for that app.
//! Looking the app up is the app's business; this is how the answer is put together.

use vstd::prelude::*;

use crate::text::opt_view;

verus! {

/// An installed app, as the exceptions list shows it.
#[derive(Clone, Debug)]
pub struct AppInfo {
    pub id: String,
    pub name: String,
    /// `data:image/png;base64,…`, or `None` when the app is not installed.
    pub icon: Option<String>,
}

/// The file name of `path` without its extension, as `Path::file_stem` gives it.
pub uninterp spec fn path_file_stem(path: Seq<char>) -> Option<Seq<char>>;

/// The part of `path` after its last `/`: all of it when it has none.
pub open spec fn after_last_slash(path: Seq<char>) -> Seq<char>
    decreases path.len(),
{
    if path.len() == 0 {
        path
    } else if path.last() == '/' {
        Seq::empty()
    } else {
        after_last_slash(path.drop_last()).push(path.last())
    }
}

/// `name` up to its last `.`, when it has one.
pub open spec fn before_last_dot(name: Seq<char>) -> Option<Seq<char>>
    decreases name.len(),
{
    if name.len() == 0 {
        None
    } else if name.last() == '.' {
        Some(name.drop_last())
    } else {
        before_last_dot(name.drop_last())
    }
}

/// The stem of `path` in the plain case, where its last component is a file name that
/// does not start with a dot: that name up to its last dot, or the whole name when it has
/// none ("/Applications/Safari.app" gives "Safari"). `None` for the other paths (an empty
/// last component, one starting with a dot, `.` and `..`), which std settles by rules of
/// its own.
pub open spec fn plain_file_stem(path: Seq<char>) -> Option<Seq<char>> {
    let name = after_last_slash(path);
    if name.len() == 0 || name[0] == '.' {
        None
    } else {
        match before_last_dot(name) {
            Some(stem) => Some(stem),
            None => Some(name),
        }
    }
}

/// The stem `Path::file_stem` gives: the plain case as [`plain_file_stem`] states it, the
/// rest by std's rules.
pub open spec fn spec_file_stem(path: Seq<char>) -> Option<Seq<char>> {
    if plain_file_stem(path) is Some {
        plain_file_stem(path)
    } else {
        path_file_stem(path)
    }
}

/// `std::path::Path::file_stem` on `path`. In the plain case its documentation settles
/// the answer: a last component that does not start with a dot gives the part before its
/// final `.`, or all of it when there is no dot. For other paths the contract only names
/// the answer: the rules for trailing separators, `.`, `..` and names starting with a dot
/// are std's.
#[verifier::external_body]
fn file_stem(path: &str) -> (r: Option<String>)
    ensures
        opt_view(r) == path_file_stem(path@),
        plain_file_stem(path@) is Some ==> opt_view(r) == plain_file_stem(path@),
{
    match std::path::Path::new(path).file_stem() {
        Some(stem) => Some(stem.to_string_lossy().into_owned()),
        None => None,
    }
}

/// The name shown in Finder: the bundle's own file name without its extension,
/// or the whole path when it has none.
pub open spec fn spec_name_of(path: Seq<char>) -> Seq<char> {
    match spec_file_stem(path) {
        Some(stem) => stem,
        None => path,
    }
}

pub fn name_of(path: &str) -> (r: String)
    ensures
        r@ == spec_name_of(path@),
{
    match file_stem(path) {
        Some(stem) => stem,
        None => path.to_owned(),
    }
}

/// Looks up an app by bundle identifier, given where macOS found it (`path`) and the icon
/// drawn from there. An app that is no longer installed still belongs in the list — it
/// keeps its identifier as its name and gets no icon.
pub fn info(bundle_id: &str, path: Option<&str>, icon: Option<String>) -> (r: AppInfo)
    ensures
        r.id@ == bundle_id@,
        match path {
            Some(p) => r.name@ == spec_name_of(p@) && r.icon == icon,
            None => r.name@ == bundle_id@ && r.icon is None,
        },
{
    match path {
        Some(path) => AppInfo { id: bundle_id.to_owned(), name: name_of(path), icon },
        None => AppInfo { id: bundle_id.to_owned(), name: bundle_id.to_owned(), icon: None },
    }
}

/// Reads an app bundle the user picked in the open panel, given the `CFBundleIdentifier`
/// its `Info.plist` holds (`None` when it is not an application bundle) and its icon.
pub fn info_at(path: &str, bundle_id: Option<String>, icon: Option<String>) -> (r: Option<AppInfo>)
    ensures
        match bundle_id {
            Some(id) => r matches Some(i) && i.id@ == id@ && i.name@ == spec_name_of(path@)
                && i.icon == icon,
            None => r is None,
        },
{
    let id = bundle_id?;
    Some(AppInfo { id, name: name_of(path), icon })
}

proof fn lemma_after_last_slash(p: Seq<char>, t: Seq<char>)
    requires
        forall|i: int| 0 <= i < t.len() ==> #[trigger] t[i] != '/',
    ensures
        after_last_slash(p + seq!['/'] + t) == t,
    decreases t.len(),
{
    let s = p + seq!['/'] + t;
    if t.len() == 0 {
        assert(s.last() == '/');
    } else {
        let t2 = t.drop_last();
        assert forall|i: int| 0 <= i < t2.len() implies #[trigger] t2[i] != '/' by {
            assert(t2[i] == t[i]);
        }
        lemma_after_last_slash(p, t2);
        assert(s.drop_last() =~= p + seq!['/'] + t2);
        assert(s.last() == t.last());
        assert(t2.push(t.last()) =~= t);
    }
}

proof fn lemma_before_last_dot(x: Seq<char>, y: Seq<char>)
    requires
        forall|i: int| 0 <= i < y.len() ==> #[trigger] y[i] != '.',
    ensures
        before_last_dot(x + seq!['.'] + y) == Some(x),
    decreases y.len(),
{
    let s = x + seq!['.'] + y;
    if y.len() == 0 {
        assert(s.last() == '.');
        assert(s.drop_last() =~= x);
    } else {
        let y2 = y.drop_last();
        assert forall|i: int| 0 <= i < y2.len() implies #[trigger] y2[i] != '.' by {
            assert(y2[i] == y[i]);
        }
        lemma_before_last_dot(x, y2);
        assert(s.drop_last() =~= x + seq!['.'] + y2);
        assert(s.last() == y.last());
    }
}

/// An application bundle is shown under its own name: "/Applications/Safari.app" is
/// "Safari", wherever the bundle lies.
pub proof fn law_bundle_shown_by_name(dir: Seq<char>, name: Seq<char>)
    requires
        name.len() > 0,
        forall|i: int| 0 <= i < name.len() ==> #[trigger] name[i] != '/' && name[i] != '.',
    ensures
        spec_name_of(dir + seq!['/'] + name + seq!['.', 'a', 'p', 'p']) == name,
{
    let file = name + seq!['.', 'a', 'p', 'p'];
    assert forall|i: int| 0 <= i < file.len() implies #[trigger] file[i] != '/' by {
        if i >= name.len() {
            assert(file[i] == seq!['.', 'a', 'p', 'p'][i - name.len()]);
        }
    }
    assert(dir + seq!['/'] + name + seq!['.', 'a', 'p', 'p'] =~= dir + seq!['/'] + file);
    lemma_after_last_slash(dir, file);
    let app = seq!['a', 'p', 'p'];
    assert forall|i: int| 0 <= i < app.len() implies #[trigger] app[i] != '.' by {}
    lemma_before_last_dot(name, app);
    assert(file =~= name + seq!['.'] + app);
    assert(file[0] == name[0]);
}

} // verus!
