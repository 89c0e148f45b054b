//! What the session starts from: the desktop identifier reported by the
//! environment, and the list of profiles offered by the package-list tool.

use vstd::prelude::*;

use crate::catalog::{catalog_profile_names, catalog_profiles};
use crate::text::{contains_str, ends_with_str, has_infix, has_suffix};

verus! {

/// Identifier used when the environment reports no desktop.
pub const UNKNOWN_DESKTOP: &'static str = "Unknown";

/// What `str::lines` yields for a text.
pub uninterp spec fn lines_of(s: Seq<char>) -> Seq<Seq<char>>;

/// What `str::trim` returns for a text.
pub uninterp spec fn trimmed(s: Seq<char>) -> Seq<char>;

/// Relies on `str::lines`: the text's lines, without their line endings.
#[verifier::external_body]
fn split_lines(s: &str) -> (r: Vec<String>)
    ensures
        r@.map_values(|l: String| l@) == lines_of(s@),
{
    s.lines().map(|l| l.to_string()).collect()
}

/// Relies on `str::trim`: the text without leading and trailing white space.
#[verifier::external_body]
fn trim_text(s: &str) -> (r: &str)
    ensures
        r@ == trimmed(s@),
{
    s.trim()
}

/// The part of a session value after its last `:` (all of it without one).
pub open spec fn last_segment(s: Seq<char>) -> Seq<char>
    decreases s.len(),
{
    if s.len() == 0 {
        s
    } else if s.last() == ':' {
        Seq::empty()
    } else {
        last_segment(s.drop_last()).push(s.last())
    }
}

/// The desktop identifier for a session value such as "ubuntu:GNOME".
pub open spec fn desktop_of(value: Option<Seq<char>>) -> Seq<char> {
    match value {
        Some(s) => last_segment(s),
        None => UNKNOWN_DESKTOP@,
    }
}

/// A trimmed line of the listing that names a desktop profile.
pub open spec fn is_profile_line(t: Seq<char>) -> bool {
    has_suffix(t, "-Desktop"@) || has_suffix(t, "-Window-Manager"@) || has_infix(t, "i3"@)
}

/// The trimmed profile lines among `lines`, in order.
pub open spec fn profile_lines(lines: Seq<Seq<char>>) -> Seq<Seq<char>>
    decreases lines.len(),
{
    if lines.len() == 0 {
        Seq::empty()
    } else {
        let rest = profile_lines(lines.drop_last());
        let t = trimmed(lines.last());
        if is_profile_line(t) {
            rest.push(t)
        } else {
            rest
        }
    }
}

/// The profiles to offer: those of a successful listing, or the catalog's
/// when the listing failed or named none.
pub open spec fn offered_profiles(listing: Option<Seq<char>>) -> Seq<Seq<char>> {
    match listing {
        None => catalog_profiles(),
        Some(out) => if profile_lines(lines_of(out)).len() == 0 {
            catalog_profiles()
        } else {
            profile_lines(lines_of(out))
        },
    }
}

/// The desktop identifier for the session value `value` (`None` where the
/// environment has none): the part after the last `:`.
pub fn desktop_from_session(value: Option<&str>) -> (r: String)
    ensures
        r@ == desktop_of(
            match value {
                Some(s) => Some(s@),
                None => None,
            },
        ),
{
    match value {
        None => String::from_str(UNKNOWN_DESKTOP),
        Some(s) => {
            let n = s.unicode_len();
            let mut start: usize = 0;
            let mut i: usize = 0;
            while i < n
                invariant
                    n == s@.len(),
                    start <= i <= n,
                    last_segment(s@.subrange(0, i as int)) == s@.subrange(start as int, i as int),
                decreases n - i,
            {
                let c = s.get_char(i);
                assert(s@.subrange(0, i + 1).drop_last() == s@.subrange(0, i as int));
                if c == ':' {
                    start = i + 1;
                } else {
                    assert(s@.subrange(start as int, i + 1) == s@.subrange(
                        start as int,
                        i as int,
                    ).push(c));
                }
                i = i + 1;
            }
            assert(s@.subrange(0, n as int) == s@);
            String::from_str(s.substring_char(start, n))
        },
    }
}

/// The profiles to offer as targets, from the output of the package-list
/// tool's listing (`None` where it could not be run or failed): its lines
/// that name a profile, trimmed, or the catalog's profiles where there are none.
pub fn get_available_des(listing: Option<&str>) -> (r: Vec<String>)
    ensures
        r@.map_values(|p: String| p@) == offered_profiles(
            match listing {
                Some(s) => Some(s@),
                None => None,
            },
        ),
        r.len() > 0,
{
    match listing {
        None => catalog_profile_names(),
        Some(out) => {
            let lines = split_lines(out);
            let ghost views = lines@.map_values(|l: String| l@);
            let mut found: Vec<String> = Vec::new();
            let mut i: usize = 0;
            while i < lines.len()
                invariant
                    i <= lines.len(),
                    views == lines@.map_values(|l: String| l@),
                    views == lines_of(out@),
                    found@.map_values(|p: String| p@) == profile_lines(views.subrange(0, i as int)),
                decreases lines.len() - i,
            {
                let t = trim_text(lines[i].as_str());
                assert(views.subrange(0, i + 1).drop_last() == views.subrange(0, i as int));
                assert(views.subrange(0, i + 1).last() == lines[i as int]@);
                let keep = ends_with_str(t, "-Desktop") || ends_with_str(t, "-Window-Manager")
                    || contains_str(t, "i3");
                if keep {
                    found.push(String::from_str(t));
                    assert(found@.map_values(|p: String| p@) == profile_lines(
                        views.subrange(0, i as int),
                    ).push(t@));
                }
                i = i + 1;
            }
            assert(views.subrange(0, lines.len() as int) == views);
            if found.len() == 0 {
                catalog_profile_names()
            } else {
                found
            }
        },
    }
}

} // verus!
