use mac_cleaner::catalogue::{
    get_browser_targets, get_dev_targets, get_docker_targets, get_general_targets,
    get_system_data_targets, get_xcode_targets,
};
use mac_cleaner::installers::{get_macos_targets, AppEntry};
use mac_cleaner::targets::{CleanTarget, RiskLevel, TargetType};

fn names(ts: &[CleanTarget]) -> Vec<&str> {
    ts.iter().map(|t| t.name.as_str()).collect()
}

#[test]
fn new_target_defaults() {
    let t = CleanTarget::new("Cat", "Name", "/p".to_string(), "Desc");
    assert_eq!(t.category, "Cat");
    assert_eq!(t.name, "Name");
    assert_eq!(t.path, "/p");
    assert_eq!(t.description, "Desc");
    assert_eq!(t.explanation, "");
    assert!(!t.requires_sudo);
    assert_eq!(t.risk_level, RiskLevel::Low);
    assert!(matches!(t.target_type, TargetType::Directory));
}

#[test]
fn builders_change_one_field_each() {
    let t = CleanTarget::new("C", "N", "/p".to_string(), "D")
        .with_sudo()
        .with_risk(RiskLevel::High)
        .with_explanation("why")
        .with_command("docker", &["system", "prune"]);
    assert!(t.requires_sudo);
    assert_eq!(t.risk_level, RiskLevel::High);
    assert_eq!(t.explanation, "why");
    match &t.target_type {
        TargetType::Command { program, args } => {
            assert_eq!(program, "docker");
            assert_eq!(args, &vec!["system".to_string(), "prune".to_string()]);
        }
        _ => panic!("expected a command"),
    }
    let f = t.full_delete();
    assert!(matches!(f.target_type, TargetType::DirectoryFull));
    assert_eq!(f.name, "N");
    assert!(f.requires_sudo);
}

#[test]
fn risk_labels() {
    assert_eq!(RiskLevel::Low.to_string(), "LOW");
    assert_eq!(RiskLevel::Medium.to_string(), "MEDIUM");
    assert_eq!(RiskLevel::High.to_string(), "HIGH");
}

#[test]
fn general_targets_live_in_home() {
    let ts = get_general_targets("/Users/me");
    assert_eq!(names(&ts), vec!["User Caches", "User Logs", "Trash"]);
    assert_eq!(ts[0].path, "/Users/me/Library/Caches");
    assert_eq!(ts[1].path, "/Users/me/Library/Logs");
    assert_eq!(ts[2].path, "/Users/me/.Trash");
    assert_eq!(ts[2].risk_level, RiskLevel::Medium);
    assert!(ts.iter().all(|t| t.category == "System" && !t.requires_sudo));
    assert!(ts.iter().all(|t| !t.explanation.is_empty()));
    assert!(ts[0].explanation.starts_with("Кэши пользовательских приложений"));
}

#[test]
fn xcode_and_dev_targets() {
    let x = get_xcode_targets("/h");
    assert_eq!(x.len(), 5);
    assert_eq!(x[1].name, "Xcode DerivedData");
    assert_eq!(x[1].path, "/h/Library/Developer/Xcode/DerivedData");
    assert_eq!(x[4].risk_level, RiskLevel::Medium);
    assert!(x.iter().all(|t| t.category == "Xcode"));
    let d = get_dev_targets("/h");
    assert_eq!(names(&d), vec!["Homebrew Cache", "CocoaPods Cache", "Yarn Cache", "NPM Cache", "Gradle Cache"]);
    assert_eq!(d[3].path, "/h/.npm");
    assert_eq!(d[4].path, "/h/.gradle/caches");
}

#[test]
fn system_data_targets_need_rights_outside_home() {
    let s = get_system_data_targets("/h");
    assert_eq!(s.len(), 10);
    let sudo: Vec<&str> = s.iter().filter(|t| t.requires_sudo).map(|t| t.path.as_str()).collect();
    assert_eq!(
        sudo,
        vec![
            "/Library/Caches",
            "/private/var/log",
            "/private/var/tmp",
            "/Library/Logs/DiagnosticReports",
            "/private/var/db/diagnostics",
            "/Library/Updates"
        ]
    );
    assert_eq!(s[8].name, "Diagnostics Data");
    assert_eq!(s[8].risk_level, RiskLevel::Medium);
    assert_eq!(s[6].path, "/h/Library/Containers/com.apple.mail/Data/Library/Mail Downloads");
}

#[test]
fn browser_and_docker_targets() {
    let b = get_browser_targets("/h");
    assert_eq!(b.len(), 5);
    assert_eq!(b[1].path, "/h/Library/Application Support/Google/Chrome/Default/Service Worker/CacheStorage");
    let d = get_docker_targets("/h");
    assert_eq!(d.len(), 1);
    assert_eq!(d[0].risk_level, RiskLevel::High);
    assert_eq!(d[0].path, "/h/Library/Containers/com.docker.docker");
    match &d[0].target_type {
        TargetType::Command { program, args } => {
            assert_eq!(program, "docker");
            assert_eq!(args.join(" "), "system prune -af --volumes");
        }
        _ => panic!("expected a command"),
    }
    assert!(d[0].explanation.contains("ДАННЫЕ БУДУТ ПОТЕРЯНЫ"));
    assert!(d[0].explanation.starts_with("⚠️  АГРЕССИВНАЯ ОЧИСТКА DOCKER!\n\nУдаляет ВСЁ:\n• Все"));
}

#[test]
fn macos_installers_are_found_by_name() {
    let entries = vec![
        AppEntry { name: "Install macOS Sonoma.app".to_string(), path: "/Applications/Install macOS Sonoma.app".to_string() },
        AppEntry { name: "Safari.app".to_string(), path: "/Applications/Safari.app".to_string() },
        AppEntry { name: "Install macOS Ventura".to_string(), path: "/Applications/Install macOS Ventura".to_string() },
        AppEntry { name: "Install macOS X.app.app".to_string(), path: "/Applications/Install macOS X.app.app".to_string() },
    ];
    let ts = get_macos_targets(&entries);
    assert_eq!(names(&ts), vec!["Installer: Install macOS Sonoma", "Installer: Install macOS X"]);
    let t = &ts[0];
    assert_eq!(t.category, "macOS");
    assert_eq!(t.path, "/Applications/Install macOS Sonoma.app");
    assert_eq!(t.description, "Old macOS installer (12-15 GB)");
    assert_eq!(t.risk_level, RiskLevel::Medium);
    assert!(matches!(t.target_type, TargetType::DirectoryFull));
    assert_eq!(
        t.explanation,
        "Установщик: Install macOS Sonoma.app. Занимает 12-15 GB.\nМожно удалить если не планируете переустановку.\nСкачивается заново через App Store."
    );
    assert!(get_macos_targets(&Vec::new()).is_empty());
}
