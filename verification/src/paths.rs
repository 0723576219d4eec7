//! Paths as they are shown and as they are used.
//!
//! A path under the user's home directory is shown with `~` in place of the
//! home directory. Only absolute paths go to the file system, so a shown path
//! is turned back before any use.

use vstd::prelude::*;
use vstd::string::*;
use crate::text::has_prefix;

verus! {

/// Whether `path` is `home` itself or lies below it: `home`, then nothing or
/// a `/` and the rest. A path whose name merely begins like `home`, such as
/// `/home/user2` beside `/home/u`, is not below it.
pub open spec fn under_home(path: Seq<char>, home: Seq<char>) -> bool {
    home.is_prefix_of(path) && (path.len() == home.len() || path[home.len() as int] == '/')
}

/// The form in which `path` is shown: where `path` is `home` or lies below
/// it, that leading part becomes `~`; any other path is shown as it is. A
/// later occurrence of `home` inside the path is never touched.
pub open spec fn display_form(path: Seq<char>, home: Seq<char>) -> Seq<char> {
    if under_home(path, home) {
        seq!['~'] + path.skip(home.len() as int)
    } else {
        path
    }
}

/// Whether `display` is `~` alone or begins with `~/`.
pub open spec fn names_home(display: Seq<char>) -> bool {
    display.len() >= 1 && display[0] == '~' && (display.len() == 1 || display[1] == '/')
}

/// Whether `display` begins with `~\`.
pub open spec fn names_home_backslash(display: Seq<char>) -> bool {
    display.len() >= 2 && display[0] == '~' && display[1] == '\\'
}

/// The path that `display` stands for: a leading `~`, alone or followed by
/// `/`, becomes `home`; anything else is left as it is.
pub open spec fn absolute_form(display: Seq<char>, home: Seq<char>) -> Seq<char> {
    if names_home(display) {
        home + display.skip(1)
    } else {
        display
    }
}

/// Calls `shellexpand::tilde_with_context` with a home directory that is
/// always `home`. Not proved: that the call expands a leading `~` exactly
/// when it stands alone or before `/`, and returns every other input
/// unchanged. Before `\` the crate expands on Windows only, so for such an
/// input the contract allows both results.
#[verifier::external_body]
fn expand_tilde(display: &str, home: &str) -> (out: String)
    ensures
        !names_home_backslash(display@) ==> out@ == absolute_form(display@, home@),
        names_home_backslash(display@) ==> out@ == display@ || out@ == home@ + display@.skip(1),
{
    shellexpand::tilde_with_context(display, || Some(home)).into_owned()
}

/// Whether `path` is `home` itself or lies below it.
pub fn is_under_home(path: &str, home: &str) -> (under: bool)
    ensures
        under == under_home(path@, home@),
{
    if has_prefix(path, home) {
        let from: usize = home.unicode_len();
        from == path.unicode_len() || path.get_char(from) == '/'
    } else {
        false
    }
}

/// Turns an absolute path into the form in which it is shown.
pub fn path_userlocal(path: String, home: &str) -> (shown: String)
    ensures
        shown@ == display_form(path@, home@),
{
    if is_under_home(path.as_str(), home) {
        let from: usize = home.unicode_len();
        let to: usize = path.as_str().unicode_len();
        let rest = path.as_str().substring_char(from, to);
        proof {
            reveal_strlit("~");
            assert("~"@ =~= seq!['~']);
            assert(path@.subrange(from as int, to as int) =~= path@.skip(home@.len() as int));
        }
        String::from_str("~").concat(rest)
    } else {
        path
    }
}

/// Turns a shown path back into the path it stands for.
///
/// A path without a leading `~` comes back unchanged, so a path that was
/// never shortened is accepted as well.
pub fn path_absolute(display: &str, home: &str) -> (path: String)
    ensures
        !names_home_backslash(display@) ==> path@ == absolute_form(display@, home@),
        names_home_backslash(display@) ==> path@ == display@ || path@ == home@ + display@.skip(1),
{
    expand_tilde(display, home)
}

/// Showing a path that is the home directory or lies below it, and turning
/// the shown form back, gives the path again.
pub proof fn lemma_round_trip_under_home(path: Seq<char>, home: Seq<char>)
    requires
        under_home(path, home),
    ensures
        names_home(display_form(path, home)),
        !names_home_backslash(display_form(path, home)),
        absolute_form(display_form(path, home), home) == path,
{
    let shown = display_form(path, home);
    let rest = path.skip(home.len() as int);
    assert(shown == seq!['~'] + rest);
    assert(shown[0] == '~');
    if path.len() > home.len() {
        assert(shown[1] == rest[0]);
        assert(rest[0] == path[home.len() as int]);
    }
    assert(shown.skip(1) =~= rest);
    assert(home =~= path.subrange(0, home.len() as int));
    assert(home + rest =~= path);
}

/// A path that is neither the home directory nor below it, and does not
/// begin with `~`, is shown as it is and comes back as it is. This holds
/// also of a path whose name merely begins like the home directory.
pub proof fn lemma_round_trip_elsewhere(path: Seq<char>, home: Seq<char>)
    requires
        !under_home(path, home),
        path.len() == 0 || path[0] != '~',
    ensures
        display_form(path, home) == path,
        !names_home_backslash(display_form(path, home)),
        absolute_form(display_form(path, home), home) == path,
{
}

/// Whatever the home directory is, an absolute path comes back: showing it
/// and turning the shown form back gives the path again.
pub proof fn lemma_round_trip_absolute(path: Seq<char>, home: Seq<char>)
    requires
        path.len() > 0,
        path[0] == '/',
    ensures
        !names_home_backslash(display_form(path, home)),
        absolute_form(display_form(path, home), home) == path,
{
    if under_home(path, home) {
        lemma_round_trip_under_home(path, home);
    } else {
        lemma_round_trip_elsewhere(path, home);
    }
}

/// What is shown is either the path itself or begins with `~` followed by
/// nothing or by `/`: no part of a name is ever cut off.
pub proof fn lemma_display_cuts_at_names(path: Seq<char>, home: Seq<char>)
    ensures
        display_form(path, home) == path || names_home(display_form(path, home)),
{
    if under_home(path, home) {
        lemma_round_trip_under_home(path, home);
    }
}

/// Only a leading occurrence of the home directory is replaced: what follows
/// it is shown unchanged, whatever it contains.
pub proof fn lemma_display_keeps_rest(path: Seq<char>, home: Seq<char>)
    requires
        under_home(path, home),
    ensures
        display_form(path, home).len() == 1 + path.len() - home.len(),
        display_form(path, home).skip(1) == path.skip(home.len() as int),
{
    assert(display_form(path, home).skip(1) =~= path.skip(home.len() as int));
}

} // verus!
