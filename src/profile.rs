//! From the desktop identifier reported by the session to a catalog profile,
//! and from profiles to the default script file name.

use vstd::prelude::*;

use crate::catalog::{
    catalog, catalog_entry, catalog_profiles, install_group, is_catalog_profile, CATALOG_LEN,
    SENTINEL_PROFILE,
};
use crate::text::{ends_with_str, has_prefix, has_suffix, starts_with_str, str_equal};

verus! {

/// What `str::to_uppercase` returns for the given characters.
pub uninterp spec fn upper_of(s: Seq<char>) -> Seq<char>;

/// Relies on `str::to_uppercase`: the Unicode upper-case form, a function of
/// the characters alone; the empty string stays empty.
#[verifier::external_body]
fn to_upper(s: &str) -> (r: String)
    ensures
        r@ == upper_of(s@),
        s@.len() == 0 ==> r@.len() == 0,
{
    s.to_uppercase()
}

/// First catalog profile at or after `i` that starts with `u`.
pub open spec fn prefix_match_from(u: Seq<char>, i: nat) -> Seq<char>
    decreases catalog().len() - i,
{
    if i >= catalog().len() {
        SENTINEL_PROFILE@
    } else if has_prefix(catalog()[i as int].0, u) {
        catalog()[i as int].0
    } else {
        prefix_match_from(u, i + 1)
    }
}

/// The profile for an already upper-cased desktop identifier.
pub open spec fn resolve_spec(u: Seq<char>) -> Seq<char> {
    if u.len() == 0 {
        SENTINEL_PROFILE@
    } else if u == "COSMIC"@ {
        "COSMIC-Desktop"@
    } else if u == "I3"@ {
        "i3-Window-Manager"@
    } else {
        prefix_match_from(u, 0)
    }
}

/// A profile name without its trailing `-Desktop` or `-Window-Manager`.
pub open spec fn fragment(p: Seq<char>) -> Seq<char> {
    if has_suffix(p, "-Desktop"@) {
        p.subrange(0, p.len() - "-Desktop"@.len())
    } else if has_suffix(p, "-Window-Manager"@) {
        p.subrange(0, p.len() - "-Window-Manager"@.len())
    } else {
        p
    }
}

/// Default script file name for a switch from `from` to `to`.
pub open spec fn initial_filename(from: Seq<char>, to: Seq<char>) -> Seq<char> {
    if from == SENTINEL_PROFILE@ {
        "de_switcher_from_Unknown_to_"@ + fragment(to) + ".sh"@
    } else {
        "de_switcher_"@ + fragment(from) + "_to_"@ + fragment(to) + ".sh"@
    }
}

proof fn lemma_prefix_match_closed(u: Seq<char>, i: nat)
    ensures
        is_catalog_profile(prefix_match_from(u, i)) || prefix_match_from(u, i) == SENTINEL_PROFILE@,
    decreases catalog().len() - i,
{
    if i < catalog().len() {
        if has_prefix(catalog()[i as int].0, u) {
            assert(catalog_profiles()[i as int] == catalog()[i as int].0);
        } else {
            lemma_prefix_match_closed(u, i + 1);
        }
    }
}

/// Every desktop identifier resolves to a profile of the catalog or to the
/// sentinel profile, and the empty identifier resolves to the sentinel.
pub proof fn lemma_resolve_closed(raw: Seq<char>)
    ensures
        is_catalog_profile(resolve_spec(upper_of(raw))) || resolve_spec(upper_of(raw))
            == SENTINEL_PROFILE@,
        resolve_spec(Seq::empty()) == SENTINEL_PROFILE@,
{
    let u = upper_of(raw);
    if u.len() != 0 && u != "COSMIC"@ && u != "I3"@ {
        lemma_prefix_match_closed(u, 0);
    }
    assert(install_group("COSMIC-Desktop"@) is Some);
    assert(install_group("i3-Window-Manager"@) is Some);
}

/// The profile for an upper-cased desktop identifier `upper`.
pub fn resolve_uppercased(upper: &str) -> (r: String)
    ensures
        r@ == resolve_spec(upper@),
{
    if upper.unicode_len() == 0 {
        return String::from_str(SENTINEL_PROFILE);
    }
    if str_equal(upper, "COSMIC") {
        return String::from_str("COSMIC-Desktop");
    }
    if str_equal(upper, "I3") {
        return String::from_str("i3-Window-Manager");
    }
    let mut i: usize = 0;
    while i < CATALOG_LEN
        invariant
            i <= CATALOG_LEN,
            upper@.len() > 0,
            upper@ != "COSMIC"@,
            upper@ != "I3"@,
            prefix_match_from(upper@, i as nat) == resolve_spec(upper@),
        decreases CATALOG_LEN - i,
    {
        let e = catalog_entry(i);
        if starts_with_str(e.0, upper) {
            return String::from_str(e.0);
        }
        i = i + 1;
    }
    String::from_str(SENTINEL_PROFILE)
}

/// Maps a desktop identifier reported by the session (e.g. "KDE") to a
/// catalog profile, or to the sentinel profile when none matches.
pub fn map_raw_de_to_profile(raw_de: &str) -> (r: String)
    ensures
        r@ == resolve_spec(upper_of(raw_de@)),
        raw_de@.len() == 0 ==> r@ == SENTINEL_PROFILE@,
{
    let upper = to_upper(raw_de);
    resolve_uppercased(upper.as_str())
}

/// The human-readable part of a profile name used in file names.
pub fn filename_fragment(profile: &str) -> (r: String)
    ensures
        r@ == fragment(profile@),
{
    let n = profile.unicode_len();
    if ends_with_str(profile, "-Desktop") {
        let k = "-Desktop".unicode_len();
        String::from_str(profile.substring_char(0, n - k))
    } else if ends_with_str(profile, "-Window-Manager") {
        let k = "-Window-Manager".unicode_len();
        String::from_str(profile.substring_char(0, n - k))
    } else {
        String::from_str(profile)
    }
}

/// The default file name for a script switching from `from_profile` to
/// `to_profile`.
pub fn generate_initial_filename(from_profile: &str, to_profile: &str) -> (r: String)
    ensures
        r@ == initial_filename(from_profile@, to_profile@),
{
    let to = filename_fragment(to_profile);
    if str_equal(from_profile, SENTINEL_PROFILE) {
        let mut r = String::from_str("de_switcher_from_Unknown_to_");
        r.append(to.as_str());
        r.append(".sh");
        r
    } else {
        let from = filename_fragment(from_profile);
        let mut r = String::from_str("de_switcher_");
        r.append(from.as_str());
        r.append("_to_");
        r.append(to.as_str());
        r.append(".sh");
        r
    }
}

} // verus!
