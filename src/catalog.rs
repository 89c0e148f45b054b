//! The fixed catalog: desktop profiles with their display managers, the
//! profiles installed through a package group, and the package managers.

use vstd::prelude::*;

use crate::text::str_equal;

verus! {

/// The profile reported when the running desktop cannot be identified.
pub const SENTINEL_PROFILE: &'static str = "Unknown-Desktop";

/// Display manager used for a profile that the catalog does not list.
pub const DEFAULT_DISPLAY_MANAGER: &'static str = "lightdm";

/// Number of (profile, display manager) pairs in the catalog.
pub const CATALOG_LEN: usize = 9;

/// Number of supported package managers.
pub const PKG_MANAGER_COUNT: usize = 3;

/// The package manager that needs `sudo` in front of it.
pub const BASE_PKG_MANAGER: &'static str = "pacman";

/// The catalog, in its enumeration order.
pub open spec fn catalog() -> Seq<(Seq<char>, Seq<char>)> {
    seq![
        ("KDE-Desktop"@, "sddm"@),
        ("GNOME-Desktop"@, "gdm"@),
        ("XFCE4-Desktop"@, "lightdm"@),
        ("Cinnamon-Desktop"@, "lightdm"@),
        ("MATE-Desktop"@, "lightdm"@),
        ("Budgie-Desktop"@, "lightdm"@),
        ("LXQT-Desktop"@, "sddm"@),
        ("LXDE-Desktop"@, "lightdm"@),
        ("i3-Window-Manager"@, "lightdm"@),
    ]
}

/// The profile names of the catalog, in order.
pub open spec fn catalog_profiles() -> Seq<Seq<char>> {
    catalog().map_values(|e: (Seq<char>, Seq<char>)| e.0)
}

/// Profiles installed from one package group instead of their package list.
pub open spec fn install_group(profile: Seq<char>) -> Option<Seq<char>> {
    if profile == "COSMIC-Desktop"@ {
        Some("cosmic"@)
    } else if profile == "i3-Window-Manager"@ {
        Some("i3-gaps"@)
    } else {
        None
    }
}

/// A profile that the catalog knows: a display-manager entry or a group override.
pub open spec fn is_catalog_profile(p: Seq<char>) -> bool {
    catalog_profiles().contains(p) || install_group(p) is Some
}

/// Display manager of the first catalog entry at or after `i` named `profile`.
pub open spec fn dm_from(profile: Seq<char>, i: nat) -> Seq<char>
    decreases catalog().len() - i,
{
    if i >= catalog().len() {
        DEFAULT_DISPLAY_MANAGER@
    } else if catalog()[i as int].0 == profile {
        catalog()[i as int].1
    } else {
        dm_from(profile, i + 1)
    }
}

/// Display manager of a profile, or the default one when it is not listed.
pub open spec fn display_manager(profile: Seq<char>) -> Seq<char> {
    dm_from(profile, 0)
}

/// The supported package managers, in cycling order.
pub open spec fn pkg_managers() -> Seq<Seq<char>> {
    seq!["pacman"@, "yay"@, "paru"@]
}

/// The catalog entry at position `i`.
pub fn catalog_entry(i: usize) -> (r: (&'static str, &'static str))
    requires
        i < CATALOG_LEN,
    ensures
        r.0@ == catalog()[i as int].0,
        r.1@ == catalog()[i as int].1,
{
    match i {
        0 => ("KDE-Desktop", "sddm"),
        1 => ("GNOME-Desktop", "gdm"),
        2 => ("XFCE4-Desktop", "lightdm"),
        3 => ("Cinnamon-Desktop", "lightdm"),
        4 => ("MATE-Desktop", "lightdm"),
        5 => ("Budgie-Desktop", "lightdm"),
        6 => ("LXQT-Desktop", "sddm"),
        7 => ("LXDE-Desktop", "lightdm"),
        _ => ("i3-Window-Manager", "lightdm"),
    }
}

/// The catalog's profile names in catalog order: the fallback list of targets.
pub fn catalog_profile_names() -> (r: Vec<String>)
    ensures
        r@.map_values(|s: String| s@) == catalog_profiles(),
{
    let mut r: Vec<String> = Vec::new();
    let mut i: usize = 0;
    while i < CATALOG_LEN
        invariant
            i <= CATALOG_LEN,
            r@.map_values(|s: String| s@) == catalog_profiles().subrange(0, i as int),
        decreases CATALOG_LEN - i,
    {
        let e = catalog_entry(i);
        r.push(String::from_str(e.0));
        assert(catalog_profiles().subrange(0, i + 1) == catalog_profiles().subrange(
            0,
            i as int,
        ).push(e.0@));
        assert(r@.map_values(|s: String| s@) == catalog_profiles().subrange(0, i + 1));
        i = i + 1;
    }
    assert(catalog_profiles().subrange(0, CATALOG_LEN as int) == catalog_profiles());
    r
}

/// The package group that installs `profile`, where the catalog names one.
pub fn install_group_for(profile: &str) -> (r: Option<&'static str>)
    ensures
        match install_group(profile@) {
            Some(g) => r is Some && r->0@ == g,
            None => r is None,
        },
{
    if str_equal(profile, "COSMIC-Desktop") {
        Some("cosmic")
    } else if str_equal(profile, "i3-Window-Manager") {
        Some("i3-gaps")
    } else {
        None
    }
}

/// The display manager to enable for `profile`.
pub fn display_manager_for(profile: &str) -> (r: &'static str)
    ensures
        r@ == display_manager(profile@),
{
    let mut i: usize = 0;
    while i < CATALOG_LEN
        invariant
            i <= CATALOG_LEN,
            dm_from(profile@, i as nat) == display_manager(profile@),
        decreases CATALOG_LEN - i,
    {
        let e = catalog_entry(i);
        if str_equal(e.0, profile) {
            return e.1;
        }
        i = i + 1;
    }
    DEFAULT_DISPLAY_MANAGER
}

/// The package manager at position `i` of the cycling order.
pub fn package_manager_name(i: usize) -> (r: &'static str)
    requires
        i < PKG_MANAGER_COUNT,
    ensures
        r@ == pkg_managers()[i as int],
{
    match i {
        0 => "pacman",
        1 => "yay",
        _ => "paru",
    }
}

} // verus!
