use de_switcher::{generate, SCRIPT_NAME_PLACEHOLDER};

#[test]
fn generate_is_deterministic() {
    let a = generate("KDE-Desktop", "GNOME-Desktop", "paru");
    let b = generate("KDE-Desktop", "GNOME-Desktop", "paru");
    assert_eq!(a, b);
}

#[test]
fn generate_header_names_target_and_manager() {
    let s = generate("KDE-Desktop", "GNOME-Desktop", "pacman");
    assert!(s.starts_with("#!/bin/bash\n"));
    assert!(s.contains("# Target DE: GNOME-Desktop\n"));
    assert!(s.contains("# Package Manager: pacman\n"));
    assert!(s.contains(&format!("# bash {}\n", SCRIPT_NAME_PLACEHOLDER)));
    assert!(s.contains("echo \"Preparing to switch from KDE-Desktop to GNOME-Desktop using pacman...\""));
}

#[test]
fn generate_active_removal_with_sudo_for_pacman() {
    let s = generate("KDE-Desktop", "GNOME-Desktop", "pacman");
    assert!(s.contains("CURRENT_DE_PROFILE=\"KDE-Desktop\"\n"));
    assert!(s.contains("\nsudo pacman -Rcs - < /tmp/old_de_packages.txt\n"));
    assert!(!s.contains("Skipping old DE removal"));
    assert!(s.contains("\nsudo pacman -S $(eos-packagelist --install \"GNOME-Desktop\")\n"));
}

#[test]
fn generate_helpers_run_without_sudo() {
    let s = generate("KDE-Desktop", "XFCE4-Desktop", "yay");
    assert!(s.contains("\nyay -Rcs - < /tmp/old_de_packages.txt\n"));
    assert!(s.contains("\nyay -S $(eos-packagelist --install \"XFCE4-Desktop\")\n"));
    assert!(!s.contains("sudo yay"));
    assert!(s.contains("sudo systemctl enable lightdm\n"));
}

#[test]
fn generate_group_install_for_override() {
    let s = generate("KDE-Desktop", "i3-Window-Manager", "paru");
    assert!(s.contains("echo \"Installing special package group: i3-gaps\"\nparu -S i3-gaps\n"));
    assert!(!s.contains("--install"));
    let c = generate("GNOME-Desktop", "COSMIC-Desktop", "pacman");
    assert!(c.contains("\nsudo pacman -S cosmic\n"));
    assert!(c.contains("sudo systemctl enable lightdm\n"));
}

#[test]
fn generate_skips_removal_when_target_is_current() {
    let s = generate("GNOME-Desktop", "GNOME-Desktop", "pacman");
    assert!(!s.contains("-Rcs"));
    assert!(!s.contains("/tmp/old_de_packages.txt"));
    assert!(s.contains("Skipping old DE removal (Current DE profile: GNOME-Desktop is Unknown or matches target)."));
}

#[test]
fn generate_skips_removal_for_unknown_current() {
    let s = generate("Unknown-Desktop", "KDE-Desktop", "yay");
    assert!(!s.contains("-Rcs"));
    assert!(!s.contains("CURRENT_DE_PROFILE="));
    assert!(s.contains("Skipping old DE removal (Current DE profile: Unknown-Desktop"));
    assert!(s.contains("sudo systemctl enable sddm\n"));
}

#[test]
fn generate_display_manager_and_reboot_steps() {
    let s = generate("KDE-Desktop", "GNOME-Desktop", "pacman");
    assert!(s.contains("echo \"Enabling Display Manager: gdm\"\n"));
    assert!(s.contains("awk '{print $1}'"));
    assert!(s.contains("sudo systemctl enable gdm\n"));
    assert!(s.contains("[yY][eE][sS]|[yY])\n        sudo reboot\n"));
    assert!(s.ends_with("esac\n"));
}
