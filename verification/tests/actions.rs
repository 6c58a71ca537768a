use ro_start::actions::QuickAction;

#[test]
fn update_manager_per_desktop() {
    let action = QuickAction::UpdateSystem;
    assert_eq!(action.command("KDE Plasma"), "discover");
    assert_eq!(action.command("GNOME"), "gnome-software");
    assert_eq!(action.command("Xfce"), "xfce4-appfinder");
    assert_eq!(action.command("Cinnamon"), "mintupdate");
    assert_eq!(action.command("MATE"), "mintupdate");
    assert_eq!(action.command("Budgie"), "mintupdate");
    assert_eq!(action.command("Sway"), "gnome-software");
    assert_eq!(action.command("Unknown"), "gnome-software");
    assert_eq!(action.command(""), "gnome-software");
}

#[test]
fn software_center_per_desktop() {
    let action = QuickAction::SoftwareCenter;
    assert_eq!(action.command("KDE Plasma"), "discover");
    assert_eq!(action.command("GNOME"), "gnome-software");
    assert_eq!(action.command("Xfce"), "xfce4-appfinder");
    assert_eq!(action.command("Cinnamon"), "mintinstall");
    assert_eq!(action.command("MATE"), "mintinstall");
    assert_eq!(action.command("Budgie"), "mintinstall");
    assert_eq!(action.command("LXQt"), "gnome-software");
}

#[test]
fn settings_per_desktop() {
    let action = QuickAction::SystemSettings;
    assert_eq!(action.command("KDE Plasma"), "systemsettings5");
    assert_eq!(action.command("GNOME"), "gnome-control-center");
    assert_eq!(action.command("Xfce"), "xfce4-settings-manager");
    assert_eq!(action.command("Cinnamon"), "cinnamon-settings");
    assert_eq!(action.command("MATE"), "mate-control-center");
    assert_eq!(action.command("Budgie"), "gnome-control-center");
    assert_eq!(action.command("Hyprland"), "gnome-control-center");
}

#[test]
fn desktop_names_are_matched_exactly() {
    assert_eq!(QuickAction::UpdateSystem.command("kde plasma"), "gnome-software");
    assert_eq!(QuickAction::SystemSettings.command("KDE Plasma "), "gnome-control-center");
    assert_eq!(QuickAction::SoftwareCenter.command("mate"), "gnome-software");
}

#[test]
fn report_after_a_start() {
    let cases = [
        (QuickAction::UpdateSystem, "Update Manager opened"),
        (QuickAction::SoftwareCenter, "Software Center opened"),
        (QuickAction::SystemSettings, "System Settings opened"),
    ];
    for (action, body) in cases {
        let n = action.report(true);
        assert_eq!(n.summary, "Success");
        assert_eq!(n.body, body);
        assert_eq!(n.icon, "ro-start");
        assert_eq!(n.timeout_ms, 5000);
    }
}

#[test]
fn report_after_a_failed_start() {
    let cases = [
        (QuickAction::UpdateSystem, "Failed to open update manager"),
        (QuickAction::SoftwareCenter, "Failed to open software center"),
        (QuickAction::SystemSettings, "Failed to open system settings"),
    ];
    for (action, body) in cases {
        let n = action.report(false);
        assert_eq!(n.summary, "Error");
        assert_eq!(n.body, body);
    }
}
