use ro_start::system::{classify_desktop, Readings, SystemInfo, SystemState};

#[test]
fn test_format_memory_mb() {
    // 512 MB used / 1024 MB total (values in bytes)
    let result = SystemState::format_memory(512 * 1024 * 1024, 900 * 1024 * 1024);
    assert!(result.contains("512 MB"));
    assert!(result.contains("900 MB"));
}

#[test]
fn test_format_memory_gb() {
    // 4 GB used / 16 GB total (values in bytes)
    let result = SystemState::format_memory(4 * 1024 * 1024 * 1024, 16 * 1024 * 1024 * 1024);
    assert!(result.contains("4.0 GB"));
    assert!(result.contains("16.0 GB"));
}

#[test]
fn test_system_info_populated() {
    let state = SystemState::new();
    let info = state.get_system_info(None, None);

    // All fields should have non-empty values
    assert!(!info.cpu_name.is_empty());
    assert!(!info.cpu_info.is_empty());
    assert!(!info.memory_info.is_empty());
    assert!(!info.os_name.is_empty());
    assert!(!info.kernel_version.is_empty());
    assert!(!info.hostname.is_empty());
    assert!(info.total_memory > 0);
}

fn as_floats(used_bytes: u64, total_bytes: u64) -> String {
    let used_mb = used_bytes / (1024 * 1024);
    let total_mb = total_bytes / (1024 * 1024);
    if total_mb >= 1024 {
        format!(
            "{:.1} GB / {:.1} GB",
            used_mb as f64 / 1024.0,
            total_mb as f64 / 1024.0
        )
    } else {
        format!("{} MB / {} MB", used_mb, total_mb)
    }
}

const MIB: u64 = 1024 * 1024;

#[test]
fn format_memory_exact_texts() {
    assert_eq!(SystemState::format_memory(512 * MIB, 900 * MIB), "512 MB / 900 MB");
    assert_eq!(SystemState::format_memory(4096 * MIB, 16384 * MIB), "4.0 GB / 16.0 GB");
    assert_eq!(SystemState::format_memory(0, 0), "0 MB / 0 MB");
    assert_eq!(SystemState::format_memory(MIB - 1, MIB), "0 MB / 1 MB");
    assert_eq!(SystemState::format_memory(1536 * MIB, 2048 * MIB), "1.5 GB / 2.0 GB");
    assert_eq!(SystemState::format_memory(100 * MIB, 1024 * MIB), "0.1 GB / 1.0 GB");
}

#[test]
fn format_memory_changes_unit_at_1024_mebibytes() {
    assert_eq!(SystemState::format_memory(1023 * MIB, 1023 * MIB), "1023 MB / 1023 MB");
    assert_eq!(SystemState::format_memory(1023 * MIB, 1024 * MIB - 1), "1023 MB / 1023 MB");
    assert_eq!(SystemState::format_memory(1023 * MIB, 1024 * MIB), "1.0 GB / 1.0 GB");
    assert_eq!(SystemState::format_memory(3000 * MIB, 1000 * MIB), "3000 MB / 1000 MB");
}

#[test]
fn format_memory_rounds_a_tie_to_the_even_tenth() {
    assert_eq!(SystemState::format_memory(256 * MIB, 1280 * MIB), "0.2 GB / 1.2 GB");
    assert_eq!(SystemState::format_memory(768 * MIB, 1792 * MIB), "0.8 GB / 1.8 GB");
    assert_eq!(SystemState::format_memory(257 * MIB, 1281 * MIB), "0.3 GB / 1.3 GB");
    assert_eq!(SystemState::format_memory(255 * MIB, 1279 * MIB), "0.2 GB / 1.2 GB");
}

#[test]
fn format_memory_agrees_with_floating_point_for_every_remainder() {
    for whole in [0u64, 1, 2, 9, 10, 99, 100, 12345] {
        for rest in 0..1024u64 {
            let used = (whole * 1024 + rest) * MIB;
            let total = (whole * 1024 + 1024 + rest) * MIB;
            assert_eq!(SystemState::format_memory(used, total), as_floats(used, total));
        }
    }
}

#[test]
fn format_memory_agrees_with_floating_point_for_large_and_odd_values() {
    let values = [
        0u64,
        1,
        MIB - 1,
        MIB,
        1023 * MIB + 17,
        1024 * MIB,
        1024 * MIB + 1,
        8 * 1024 * MIB + 123456789,
        u64::MAX / 2,
        u64::MAX - 1,
        u64::MAX,
    ];
    for used in values {
        for total in values {
            assert_eq!(SystemState::format_memory(used, total), as_floats(used, total));
        }
    }
}

#[test]
fn desktop_from_the_current_desktop() {
    assert_eq!(SystemState::detect_desktop_environment(Some("KDE"), None), "KDE Plasma");
    assert_eq!(SystemState::detect_desktop_environment(Some("GNOME"), None), "GNOME");
    assert_eq!(SystemState::detect_desktop_environment(Some("ubuntu:GNOME"), None), "GNOME");
    assert_eq!(SystemState::detect_desktop_environment(Some("XFCE"), None), "Xfce");
    assert_eq!(SystemState::detect_desktop_environment(Some("LXDE"), None), "LXDE");
    assert_eq!(SystemState::detect_desktop_environment(Some("LXQt"), None), "LXQt");
    assert_eq!(SystemState::detect_desktop_environment(Some("X-Cinnamon"), None), "Cinnamon");
    assert_eq!(SystemState::detect_desktop_environment(Some("MATE"), None), "MATE");
    assert_eq!(SystemState::detect_desktop_environment(Some("Budgie:GNOME"), None), "GNOME");
    assert_eq!(SystemState::detect_desktop_environment(Some("Budgie"), None), "Budgie");
    assert_eq!(SystemState::detect_desktop_environment(Some("Deepin"), None), "Deepin");
    assert_eq!(SystemState::detect_desktop_environment(Some("sway"), None), "Sway");
    assert_eq!(SystemState::detect_desktop_environment(Some("Hyprland"), None), "Hyprland");
    assert_eq!(SystemState::detect_desktop_environment(Some("i3"), None), "i3");
    assert_eq!(SystemState::detect_desktop_environment(Some("COSMIC"), None), "COSMIC");
    assert_eq!(SystemState::detect_desktop_environment(Some("Pantheon"), None), "Pantheon");
    assert_eq!(SystemState::detect_desktop_environment(Some("plasmadesktop"), None), "KDE Plasma");
}

#[test]
fn desktop_session_counts_only_without_a_current_desktop() {
    assert_eq!(SystemState::detect_desktop_environment(None, Some("plasma-kde")), "KDE Plasma");
    assert_eq!(SystemState::detect_desktop_environment(Some("GNOME"), Some("xfce")), "GNOME");
    assert_eq!(SystemState::detect_desktop_environment(Some(""), Some("xfce")), "Unknown");
}

#[test]
fn desktop_unknown_or_unlisted() {
    assert_eq!(SystemState::detect_desktop_environment(None, None), "Unknown");
    assert_eq!(SystemState::detect_desktop_environment(Some(""), None), "Unknown");
    assert_eq!(SystemState::detect_desktop_environment(Some("Enlightenment"), None), "Enlightenment");
    assert_eq!(SystemState::detect_desktop_environment(None, Some("  ")), "  ");
}

#[test]
fn desktop_first_listed_word_decides() {
    // "gnome" stands before "mate" and "xfce" in the list.
    assert_eq!(SystemState::detect_desktop_environment(Some("MATE:GNOME"), None), "GNOME");
    assert_eq!(SystemState::detect_desktop_environment(Some("xfce-kde"), None), "KDE Plasma");
    // "mate" is part of "automated".
    assert_eq!(SystemState::detect_desktop_environment(Some("Automated"), None), "MATE");
}

#[test]
fn desktop_is_told_in_any_case_of_letters() {
    assert_eq!(SystemState::detect_desktop_environment(Some("kDe"), None), "KDE Plasma");
    // U+212A KELVIN SIGN has the lowercase form 'k'.
    assert_eq!(SystemState::detect_desktop_environment(Some("\u{212a}DE"), None), "KDE Plasma");
}

#[test]
fn classify_goes_by_the_lowered_text() {
    assert_eq!(classify_desktop("KDE", "kde"), "KDE Plasma");
    assert_eq!(classify_desktop("KDE", "KDE"), "KDE");
    assert_eq!(classify_desktop("", "kde"), "Unknown");
    assert_eq!(classify_desktop("Something", "something"), "Something");
}

fn readings() -> Readings {
    Readings {
        cpu_brand: Some("Fast CPU 3000".to_string()),
        cpu_usage: "12.5".to_string(),
        total_memory: 16384 * MIB,
        used_memory: 4096 * MIB,
        os_name: Some("Ubuntu".to_string()),
        os_version: Some("24.04".to_string()),
        kernel_version: Some("6.8.0-48-generic".to_string()),
        host_name: Some("box".to_string()),
    }
}

#[test]
fn snapshot_of_a_machine_that_tells_everything() {
    let info = SystemInfo::from_readings(readings(), Some("ubuntu:GNOME"), None);
    assert_eq!(info.cpu_name, "Fast CPU 3000");
    assert_eq!(info.cpu_usage, "12.5");
    assert_eq!(info.cpu_info, "12.5% (Fast CPU 3000)");
    assert_eq!(info.total_memory, 16384 * MIB);
    assert_eq!(info.used_memory, 4096 * MIB);
    assert_eq!(info.memory_info, "4.0 GB / 16.0 GB");
    assert_eq!(info.os_name, "Ubuntu");
    assert_eq!(info.os_version, "24.04");
    assert_eq!(info.desktop_environment, "GNOME");
    assert_eq!(info.kernel_version, "6.8.0-48-generic");
    assert_eq!(info.hostname, "box");
}

#[test]
fn snapshot_of_a_machine_that_tells_nothing() {
    let silent = Readings {
        cpu_brand: None,
        cpu_usage: "0.0".to_string(),
        total_memory: 0,
        used_memory: 0,
        os_name: None,
        os_version: None,
        kernel_version: None,
        host_name: None,
    };
    let info = SystemInfo::from_readings(silent, None, None);
    assert_eq!(info.cpu_name, "Unknown CPU");
    assert_eq!(info.cpu_info, "0.0% (Unknown CPU)");
    assert_eq!(info.memory_info, "0 MB / 0 MB");
    assert_eq!(info.os_name, "Linux");
    assert_eq!(info.os_version, "Unknown");
    assert_eq!(info.desktop_environment, "Unknown");
    assert_eq!(info.kernel_version, "Unknown");
    assert_eq!(info.hostname, "localhost");
}

#[test]
fn snapshot_of_this_machine_is_consistent() {
    let mut state = SystemState::new();
    state.refresh();
    let info = state.get_system_info(Some("KDE"), Some("gnome"));
    assert_eq!(info.cpu_info, format!("{}% ({})", info.cpu_usage, info.cpu_name));
    assert_eq!(
        info.memory_info,
        SystemState::format_memory(info.used_memory, info.total_memory)
    );
    assert_eq!(info.desktop_environment, "KDE Plasma");
    if let Ok(load) = info.cpu_usage.parse::<f64>() {
        if load.is_finite() {
            assert_eq!(info.cpu_usage.chars().rev().nth(1), Some('.'));
        }
    }
}

#[test]
fn readings_of_this_machine_give_the_same_snapshot() {
    let state = SystemState::default();
    let readings = state.readings();
    let total = readings.total_memory;
    let brand = readings.cpu_brand.clone();
    let info = SystemInfo::from_readings(readings, None, Some("sway"));
    assert_eq!(info.total_memory, total);
    assert_eq!(info.cpu_name, brand.unwrap_or("Unknown CPU".to_string()));
    assert_eq!(info.desktop_environment, "Sway");
}
