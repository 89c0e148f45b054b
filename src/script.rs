//! Synthesis of the switch script: a pure function of the current profile,
//! the target profile and the package manager.

use vstd::prelude::*;

use crate::catalog::{
    display_manager, display_manager_for, install_group, install_group_for, BASE_PKG_MANAGER,
    SENTINEL_PROFILE,
};
use crate::text::str_equal;

verus! {

/// File name written into the script's header; the caller replaces it with
/// the name of the file that the script is saved to.
pub const SCRIPT_NAME_PLACEHOLDER: &'static str = "de_switch_script.sh";

// Fixed pieces of the script text, in the order in which they appear.

pub const HEADER_TOP: &'static str = "#!/bin/bash\n# ----------------------------------------------------\n# Generated by de-switcher\n# Target DE: ";

pub const HEADER_PM: &'static str = "\n# Package Manager: ";

pub const HEADER_REVIEW: &'static str = "\n#\n# REVIEW THIS SCRIPT BEFORE RUNNING:\n# bash ";

pub const HEADER_PREPARE: &'static str = "\n# ----------------------------------------------------\necho \"Preparing to switch from ";

pub const HEADER_END: &'static str = "...\"\n\n";

pub const REMOVAL_HEAD: &'static str = "# 1. REMOVE CURRENT DE PACKAGES\n# This assumes the current DE profile is one of the recognized eos-packagelist profiles.\n# CAUTION: This operation removes package dependencies recursively.\n\n";

pub const REMOVAL_PROFILE: &'static str = "CURRENT_DE_PROFILE=\"";

pub const REMOVAL_LIST: &'static str = "\"\necho \"Creating package list for removal: $CURRENT_DE_PROFILE...\"\n\n# eos-packagelist runs as user\neos-packagelist \"$CURRENT_DE_PROFILE\" > /tmp/old_de_packages.txt\n\necho \"Removing old DE packages (may prompt for password)...\"\n# -Rcs: Remove, cascade, remove dependencies only required by package(s) being removed\n";

pub const REMOVAL_COMMAND: &'static str = " -Rcs - < /tmp/old_de_packages.txt\nrm /tmp/old_de_packages.txt\n\n";

pub const SKIP_OPEN: &'static str = "# Nothing to remove: the current profile is unknown or is the target.\necho \"Skipping old DE removal (Current DE profile: ";

pub const SKIP_CLOSE: &'static str = " is Unknown or matches target).\"\n\n";

pub const INSTALL_HEAD: &'static str = "# 2. INSTALL NEW DE PACKAGES\n";

pub const GROUP_ECHO: &'static str = "echo \"Installing special package group: ";

pub const LINE_END_QUOTED: &'static str = "\"\n";

pub const INSTALL_FLAG: &'static str = " -S ";

pub const LINE_END: &'static str = "\n";

pub const LIST_ECHO: &'static str = "echo \"Installing packages for ";

pub const LIST_ECHO_END: &'static str = " using eos-packagelist...\"\n";

pub const LIST_INSTALL: &'static str = " -S $(eos-packagelist --install \"";

pub const LIST_INSTALL_END: &'static str = "\")\n";

pub const DM_HEAD: &'static str = "\n# 3. ENABLE THE APPROPRIATE DISPLAY MANAGER\necho \"Enabling Display Manager: ";

pub const DM_SWITCH: &'static str = "\"\n\n# Disable any currently enabled display-manager service\nsudo systemctl disable --force $(systemctl list-units --type=service --state=enabled --no-pager | grep \"display-manager\" | awk '{print $1}') 2>/dev/null\n\n# Enable the new display manager\nsudo systemctl enable ";

pub const REBOOT_STEP: &'static str = "\n# 4. Final message and reboot\necho \"\"\necho \"!!! Installation and configuration complete. !!!\"\necho \"!!! You MUST reboot now to finish the switch. !!!\"\n\n# Prompt for reboot\nread -r -p \"Do you want to reboot now? [y/N]: \" response\ncase \"$response\" in\n    [yY][eE][sS]|[yY])\n        sudo reboot\n        ;;\n    *)\n        echo \"Please reboot manually to complete the switch.\"\n        ;;\nesac\n";

/// What `str::replace` returns for a text, a pattern and a replacement.
pub uninterp spec fn replaced(s: Seq<char>, from: Seq<char>, to: Seq<char>) -> Seq<char>;

/// Relies on `str::replace`: every match of `from` in `s` replaced by `to`.
#[verifier::external_body]
pub(crate) fn replace_all(s: &str, from: &str, to: &str) -> (r: String)
    ensures
        r@ == replaced(s@, from@, to@),
{
    s.replace(from, to)
}

/// Prefix that runs a package-manager command with root rights: only the base
/// package manager needs it, the helpers escalate on their own.
pub open spec fn sudo_prefix(pm: Seq<char>) -> Seq<char> {
    if pm == BASE_PKG_MANAGER@ {
        "sudo "@
    } else {
        ""@
    }
}

/// Whether the script removes the current profile's packages.
pub open spec fn removal_active(current: Seq<char>, target: Seq<char>) -> bool {
    current != SENTINEL_PROFILE@ && current != target
}

/// Header comments naming target and package manager, and the opening message.
pub open spec fn header_text(current: Seq<char>, target: Seq<char>, pm: Seq<char>) -> Seq<char> {
    HEADER_TOP@ + target + HEADER_PM@ + pm + HEADER_REVIEW@ + SCRIPT_NAME_PLACEHOLDER@
        + HEADER_PREPARE@ + current + " to "@ + target + " using "@ + pm + HEADER_END@
}

/// The removal step when it is active.
pub open spec fn active_removal_text(current: Seq<char>, pm: Seq<char>) -> Seq<char> {
    REMOVAL_HEAD@ + REMOVAL_PROFILE@ + current + REMOVAL_LIST@ + sudo_prefix(pm) + pm
        + REMOVAL_COMMAND@
}

/// The removal step when there is nothing to remove: comments and a message.
pub open spec fn skip_removal_text(current: Seq<char>) -> Seq<char> {
    REMOVAL_HEAD@ + SKIP_OPEN@ + current + SKIP_CLOSE@
}

/// The removal step: active or skipping.
pub open spec fn removal_text(current: Seq<char>, target: Seq<char>, pm: Seq<char>) -> Seq<char> {
    if removal_active(current, target) {
        active_removal_text(current, pm)
    } else {
        skip_removal_text(current)
    }
}

/// The install step: the override group where there is one, else the
/// profile's package list.
pub open spec fn install_text(target: Seq<char>, pm: Seq<char>) -> Seq<char> {
    match install_group(target) {
        Some(g) => INSTALL_HEAD@ + GROUP_ECHO@ + g + LINE_END_QUOTED@ + sudo_prefix(pm) + pm
            + INSTALL_FLAG@ + g + LINE_END@,
        None => INSTALL_HEAD@ + LIST_ECHO@ + target + LIST_ECHO_END@ + sudo_prefix(pm) + pm
            + LIST_INSTALL@ + target + LIST_INSTALL_END@,
    }
}

/// The step that enables the target's display manager in place of the
/// enabled one.
pub open spec fn display_manager_text(target: Seq<char>) -> Seq<char> {
    DM_HEAD@ + display_manager(target) + DM_SWITCH@ + display_manager(target) + LINE_END@
}

/// The whole script: header, removal, install, display manager, reboot.
pub open spec fn script_text(current: Seq<char>, target: Seq<char>, pm: Seq<char>) -> Seq<char> {
    header_text(current, target, pm) + removal_text(current, target, pm) + install_text(target, pm)
        + display_manager_text(target) + REBOOT_STEP@
}

/// The script is a function of its three inputs: equal inputs give equal text.
pub proof fn lemma_generate_deterministic(
    current: Seq<char>,
    target: Seq<char>,
    pm: Seq<char>,
    first: Seq<char>,
    second: Seq<char>,
)
    requires
        first == script_text(current, target, pm),
        second == script_text(current, target, pm),
    ensures
        first == second,
{
}

/// When the current profile is the target or the sentinel, the removal step
/// of the script is the skipping one: no removal command is emitted.
pub proof fn lemma_no_removal_for_same_or_unknown(
    current: Seq<char>,
    target: Seq<char>,
    pm: Seq<char>,
)
    requires
        current == target || current == SENTINEL_PROFILE@,
    ensures
        !removal_active(current, target),
        removal_text(current, target, pm) == skip_removal_text(current),
        script_text(current, target, pm) == header_text(current, target, pm) + skip_removal_text(
            current,
        ) + install_text(target, pm) + display_manager_text(target) + REBOOT_STEP@,
{
}

/// The `sudo` prefix for package manager `pm`.
fn sudo_for(pm: &str) -> (r: &'static str)
    ensures
        r@ == sudo_prefix(pm@),
{
    if str_equal(pm, BASE_PKG_MANAGER) {
        "sudo "
    } else {
        ""
    }
}

fn header_section(current: &str, target: &str, pm: &str) -> (r: String)
    ensures
        r@ == header_text(current@, target@, pm@),
{
    let mut s = String::from_str(HEADER_TOP);
    s.append(target);
    s.append(HEADER_PM);
    s.append(pm);
    s.append(HEADER_REVIEW);
    s.append(SCRIPT_NAME_PLACEHOLDER);
    s.append(HEADER_PREPARE);
    s.append(current);
    s.append(" to ");
    s.append(target);
    s.append(" using ");
    s.append(pm);
    s.append(HEADER_END);
    s
}

fn removal_section(current: &str, target: &str, pm: &str) -> (r: String)
    ensures
        r@ == removal_text(current@, target@, pm@),
{
    let active = !str_equal(current, SENTINEL_PROFILE) && !str_equal(current, target);
    let mut s = String::from_str(REMOVAL_HEAD);
    if active {
        s.append(REMOVAL_PROFILE);
        s.append(current);
        s.append(REMOVAL_LIST);
        s.append(sudo_for(pm));
        s.append(pm);
        s.append(REMOVAL_COMMAND);
    } else {
        s.append(SKIP_OPEN);
        s.append(current);
        s.append(SKIP_CLOSE);
    }
    s
}

fn install_section(target: &str, pm: &str) -> (r: String)
    ensures
        r@ == install_text(target@, pm@),
{
    let sudo = sudo_for(pm);
    let mut s = String::from_str(INSTALL_HEAD);
    match install_group_for(target) {
        Some(g) => {
            s.append(GROUP_ECHO);
            s.append(g);
            s.append(LINE_END_QUOTED);
            s.append(sudo);
            s.append(pm);
            s.append(INSTALL_FLAG);
            s.append(g);
            s.append(LINE_END);
        },
        None => {
            s.append(LIST_ECHO);
            s.append(target);
            s.append(LIST_ECHO_END);
            s.append(sudo);
            s.append(pm);
            s.append(LIST_INSTALL);
            s.append(target);
            s.append(LIST_INSTALL_END);
        },
    }
    s
}

fn display_manager_section(target: &str) -> (r: String)
    ensures
        r@ == display_manager_text(target@),
{
    let dm = display_manager_for(target);
    let mut s = String::from_str(DM_HEAD);
    s.append(dm);
    s.append(DM_SWITCH);
    s.append(dm);
    s.append(LINE_END);
    s
}

/// The script that switches from `current` to `target` with the package
/// manager `pm`.
pub fn generate(current: &str, target: &str, pm: &str) -> (r: String)
    ensures
        r@ == script_text(current@, target@, pm@),
{
    let mut s = header_section(current, target, pm);
    let removal = removal_section(current, target, pm);
    s.append(removal.as_str());
    let install = install_section(target, pm);
    s.append(install.as_str());
    let dm = display_manager_section(target);
    s.append(dm.as_str());
    s.append(REBOOT_STEP);
    s
}

} // verus!
