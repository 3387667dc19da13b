//! The catalogue of cleanup targets, one list per category.

use vstd::prelude::*;

use crate::paths::{join, joined};
use crate::text::has_prefix;
use crate::targets::{fresh_target, views, CleanTarget, RiskLevel, TargetKind, TargetView};

verus! {

/// A catalogue entry: a fresh target with an explanation.
pub open spec fn entry(
    category: Seq<char>,
    name: Seq<char>,
    path: Seq<char>,
    description: Seq<char>,
    explanation: Seq<char>,
) -> TargetView {
    TargetView { explanation, ..fresh_target(category, name, path, description) }
}

/// The catalogue of the everyday caches, logs and Trash, for the home directory `home`.
pub open spec fn general_targets(home: Seq<char>) -> Seq<TargetView> {
    seq![
        entry("System"@, "User Caches"@, joined(home, "Library/Caches"@), "Application caches"@, "Кэши пользовательских приложений (Chrome, Slack, Spotify и др.).\nБезопасно — приложения пересоздадут кэши. Может замедлить первый запуск."@),
        entry("System"@, "User Logs"@, joined(home, "Library/Logs"@), "Application and system logs"@, "Логи пользовательских приложений. Безопасно — новые создадутся автоматически."@),
        TargetView { risk_level: RiskLevel::Medium, ..entry("System"@, "Trash"@, joined(home, ".Trash"@), "Deleted files in Trash"@, "Содержимое Корзины macOS. После очистки файлы НЕВОЗМОЖНО восстановить!"@) },
    ]
}

/// The catalogue of the Xcode build artefacts, for the home directory `home`.
pub open spec fn xcode_targets(home: Seq<char>) -> Seq<TargetView> {
    seq![
        entry("Xcode"@, "Xcode Archives"@, joined(home, "Library/Developer/Xcode/Archives"@), "Old Xcode build archives"@, "Архивы сборок для App Store. Если уже загружены — не нужны. Сотни МБ каждый."@),
        entry("Xcode"@, "Xcode DerivedData"@, joined(home, "Library/Developer/Xcode/DerivedData"@), "Xcode build cache"@, "Кэш сборки Xcode. Часто 10-50 GB! Безопасно — Xcode пересоберёт при необходимости."@),
        entry("Xcode"@, "iOS DeviceSupport"@, joined(home, "Library/Developer/Xcode/iOS DeviceSupport"@), "iOS device debug symbols"@, "Debug-символы iOS устройств. ~2-5 GB на версию. Скачаются заново при подключении."@),
        entry("Xcode"@, "watchOS DevSupport"@, joined(home, "Library/Developer/Xcode/watchOS DeviceSupport"@), "watchOS device debug symbols"@, "Debug-символы watchOS. Скачаются заново при необходимости."@),
        TargetView { risk_level: RiskLevel::Medium, ..entry("Xcode"@, "CoreSimulator"@, joined(home, "Library/Developer/CoreSimulator/Devices"@), "iOS Simulator data"@, "Данные iOS симуляторов. Безопасно, но установленные в симулятор приложения будут потеряны."@) },
    ]
}

/// The catalogue of the package caches of developer tools, for the home directory `home`.
pub open spec fn dev_targets(home: Seq<char>) -> Seq<TargetView> {
    seq![
        entry("Developer Tools"@, "Homebrew Cache"@, joined(home, "Library/Caches/Homebrew"@), "Homebrew package cache"@, "Скачанные пакеты Homebrew. Безопасно — скачаются заново."@),
        entry("Developer Tools"@, "CocoaPods Cache"@, joined(home, "Library/Caches/CocoaPods"@), "CocoaPods package cache"@, "Кэш CocoaPods. Безопасно — скачается при pod install."@),
        entry("Developer Tools"@, "Yarn Cache"@, joined(home, "Library/Caches/Yarn"@), "Yarn package cache"@, "Кэш Yarn. Безопасно — пакеты скачаются заново."@),
        entry("Developer Tools"@, "NPM Cache"@, joined(home, ".npm"@), "NPM package cache"@, "Кэш NPM. Безопасно — скачается при npm install."@),
        entry("Developer Tools"@, "Gradle Cache"@, joined(home, ".gradle/caches"@), "Gradle package cache"@, "Кэш Gradle (Android). Безопасно — скачается при следующей сборке."@),
    ]
}

/// The catalogue of the system-wide data: caches, logs, crash reports, updates, for the home directory `home`.
pub open spec fn system_data_targets(home: Seq<char>) -> Seq<TargetView> {
    seq![
        TargetView { requires_sudo: true, ..entry("System Data"@, "System Caches"@, "/Library/Caches"@, "System-wide application caches"@, "Кэши системных демонов и приложений. Безопасно — пересоздадутся автоматически.\nТребует прав администратора."@) },
        TargetView { requires_sudo: true, ..entry("System Data"@, "System Logs"@, "/private/var/log"@, "System log files"@, "Системные логи macOS: ядро, демоны, установщики.\nБезопасно — новые создадутся автоматически."@) },
        TargetView { requires_sudo: true, ..entry("System Data"@, "System Temp Files"@, "/private/var/tmp"@, "Temporary system files"@, "Временные файлы системных процессов. Обычно безопасно удалять."@) },
        entry("System Data"@, "Crash Reports"@, joined(home, "Library/Logs/DiagnosticReports"@), "User crash reports"@, "Отчёты о крашах приложений. Полезны для отладки, но обычно не нужны."@),
        TargetView { requires_sudo: true, ..entry("System Data"@, "System Crash Reports"@, "/Library/Logs/DiagnosticReports"@, "System crash reports"@, "Системные отчёты о крашах. Безопасно удалять."@) },
        entry("System Data"@, "Saved App State"@, joined(home, "Library/Saved Application State"@), "Saved window positions"@, "Сохранённое состояние окон (позиция, размер). Приложения откроются с настройками по умолчанию."@),
        entry("System Data"@, "Mail Downloads"@, joined(home, "Library/Containers/com.apple.mail/Data/Library/Mail Downloads"@), "Downloaded attachments"@, "Скачанные вложения из писем Mail.app. Оригиналы на сервере."@),
        entry("System Data"@, "QuickLook Cache"@, joined(home, "Library/Caches/com.apple.QuickLook.thumbnailcache"@), "Preview thumbnails"@, "Кэш миниатюр Quick Look. Пересоздаётся автоматически."@),
        TargetView { requires_sudo: true, risk_level: RiskLevel::Medium, ..entry("System Data"@, "Diagnostics Data"@, "/private/var/db/diagnostics"@, "System diagnostics"@, "Данные unified logging macOS. Могут занимать несколько ГБ.\nУдаление безопасно, но затрудняет диагностику через Console.app."@) },
        TargetView { requires_sudo: true, ..entry("System Data"@, "Software Updates"@, "/Library/Updates"@, "Pending macOS updates"@, "Скачанные обновления macOS. Безопасно — скачаются заново из App Store."@) },
    ]
}

/// The catalogue of the browser caches, for the home directory `home`.
pub open spec fn browser_targets(home: Seq<char>) -> Seq<TargetView> {
    seq![
        entry("Browsers"@, "Chrome Cache"@, joined(home, "Library/Caches/Google/Chrome"@), "Chrome browser cache"@, "Кэш Chrome. Безопасно — страницы загрузятся заново.\nЛогины, закладки и пароли НЕ затрагиваются."@),
        entry("Browsers"@, "Chrome SW Cache"@, joined(home, "Library/Application Support/Google/Chrome/Default/Service Worker/CacheStorage"@), "Chrome offline data"@, "Кэш Service Worker'ов (оффлайн-данные PWA). Безопасно, но PWA потеряют оффлайн-доступ."@),
        entry("Browsers"@, "Safari Cache"@, joined(home, "Library/Caches/com.apple.Safari"@), "Safari browser cache"@, "Кэш Safari. Безопасно — данные загрузятся заново."@),
        entry("Browsers"@, "Firefox Cache"@, joined(home, "Library/Caches/Firefox"@), "Firefox browser cache"@, "Кэш Firefox. Безопасно — страницы загрузятся заново."@),
        entry("Browsers"@, "Edge Cache"@, joined(home, "Library/Caches/Microsoft Edge"@), "Edge browser cache"@, "Кэш Microsoft Edge. Безопасно удалять."@),
    ]
}

/// The catalogue of the Docker data, pruned through the `docker` program, for the home directory `home`.
pub open spec fn docker_targets(home: Seq<char>) -> Seq<TargetView> {
    seq![
        TargetView { risk_level: RiskLevel::High, kind: TargetKind::Command { program: "docker"@, args: seq!["system"@, "prune"@, "-af"@, "--volumes"@] }, ..entry("Docker"@, "Docker System Prune"@, joined(home, "Library/Containers/com.docker.docker"@), "All Docker data"@, "⚠️  АГРЕССИВНАЯ ОЧИСТКА DOCKER!\n\nУдаляет ВСЁ:\n• Все остановленные контейнеры\n• Все неиспользуемые сети\n• ВСЕ образы (images) — придётся скачивать заново\n• ВСЕ тома (volumes) — ДАННЫЕ БУДУТ ПОТЕРЯНЫ!\n\nПосле очистки: docker pull, docker-compose up заново.\nИспользуйте только если в volumes нет важных данных."@) },
    ]
}

/// The targets of the `System` category, for the home directory `home`.
pub fn get_general_targets(home: &str) -> (targets: Vec<CleanTarget>)
    ensures
        views(targets@) == general_targets(home@),
{
    let category = "System";
    let mut targets: Vec<CleanTarget> = Vec::new();
    targets.push(CleanTarget::new(category, "User Caches", join(home, "Library/Caches"), "Application caches").with_explanation("Кэши пользовательских приложений (Chrome, Slack, Spotify и др.).\nБезопасно — приложения пересоздадут кэши. Может замедлить первый запуск."));
    targets.push(CleanTarget::new(category, "User Logs", join(home, "Library/Logs"), "Application and system logs").with_explanation("Логи пользовательских приложений. Безопасно — новые создадутся автоматически."));
    targets.push(CleanTarget::new(category, "Trash", join(home, ".Trash"), "Deleted files in Trash").with_risk(RiskLevel::Medium).with_explanation("Содержимое Корзины macOS. После очистки файлы НЕВОЗМОЖНО восстановить!"));
    assert(views(targets@) =~= general_targets(home@));
    targets
}

/// The targets of the `Xcode` category, for the home directory `home`.
pub fn get_xcode_targets(home: &str) -> (targets: Vec<CleanTarget>)
    ensures
        views(targets@) == xcode_targets(home@),
{
    let category = "Xcode";
    let mut targets: Vec<CleanTarget> = Vec::new();
    targets.push(CleanTarget::new(category, "Xcode Archives", join(home, "Library/Developer/Xcode/Archives"), "Old Xcode build archives").with_explanation("Архивы сборок для App Store. Если уже загружены — не нужны. Сотни МБ каждый."));
    targets.push(CleanTarget::new(category, "Xcode DerivedData", join(home, "Library/Developer/Xcode/DerivedData"), "Xcode build cache").with_explanation("Кэш сборки Xcode. Часто 10-50 GB! Безопасно — Xcode пересоберёт при необходимости."));
    targets.push(CleanTarget::new(category, "iOS DeviceSupport", join(home, "Library/Developer/Xcode/iOS DeviceSupport"), "iOS device debug symbols").with_explanation("Debug-символы iOS устройств. ~2-5 GB на версию. Скачаются заново при подключении."));
    targets.push(CleanTarget::new(category, "watchOS DevSupport", join(home, "Library/Developer/Xcode/watchOS DeviceSupport"), "watchOS device debug symbols").with_explanation("Debug-символы watchOS. Скачаются заново при необходимости."));
    targets.push(CleanTarget::new(category, "CoreSimulator", join(home, "Library/Developer/CoreSimulator/Devices"), "iOS Simulator data").with_risk(RiskLevel::Medium).with_explanation("Данные iOS симуляторов. Безопасно, но установленные в симулятор приложения будут потеряны."));
    assert(views(targets@) =~= xcode_targets(home@));
    targets
}

/// The targets of the `Developer Tools` category, for the home directory `home`.
pub fn get_dev_targets(home: &str) -> (targets: Vec<CleanTarget>)
    ensures
        views(targets@) == dev_targets(home@),
{
    let category = "Developer Tools";
    let mut targets: Vec<CleanTarget> = Vec::new();
    targets.push(CleanTarget::new(category, "Homebrew Cache", join(home, "Library/Caches/Homebrew"), "Homebrew package cache").with_explanation("Скачанные пакеты Homebrew. Безопасно — скачаются заново."));
    targets.push(CleanTarget::new(category, "CocoaPods Cache", join(home, "Library/Caches/CocoaPods"), "CocoaPods package cache").with_explanation("Кэш CocoaPods. Безопасно — скачается при pod install."));
    targets.push(CleanTarget::new(category, "Yarn Cache", join(home, "Library/Caches/Yarn"), "Yarn package cache").with_explanation("Кэш Yarn. Безопасно — пакеты скачаются заново."));
    targets.push(CleanTarget::new(category, "NPM Cache", join(home, ".npm"), "NPM package cache").with_explanation("Кэш NPM. Безопасно — скачается при npm install."));
    targets.push(CleanTarget::new(category, "Gradle Cache", join(home, ".gradle/caches"), "Gradle package cache").with_explanation("Кэш Gradle (Android). Безопасно — скачается при следующей сборке."));
    assert(views(targets@) =~= dev_targets(home@));
    targets
}

/// The targets of the `System Data` category, for the home directory `home`.
pub fn get_system_data_targets(home: &str) -> (targets: Vec<CleanTarget>)
    ensures
        views(targets@) == system_data_targets(home@),
{
    let category = "System Data";
    let mut targets: Vec<CleanTarget> = Vec::new();
    targets.push(CleanTarget::new(category, "System Caches", "/Library/Caches".to_owned(), "System-wide application caches").with_sudo().with_explanation("Кэши системных демонов и приложений. Безопасно — пересоздадутся автоматически.\nТребует прав администратора."));
    targets.push(CleanTarget::new(category, "System Logs", "/private/var/log".to_owned(), "System log files").with_sudo().with_explanation("Системные логи macOS: ядро, демоны, установщики.\nБезопасно — новые создадутся автоматически."));
    targets.push(CleanTarget::new(category, "System Temp Files", "/private/var/tmp".to_owned(), "Temporary system files").with_sudo().with_explanation("Временные файлы системных процессов. Обычно безопасно удалять."));
    targets.push(CleanTarget::new(category, "Crash Reports", join(home, "Library/Logs/DiagnosticReports"), "User crash reports").with_explanation("Отчёты о крашах приложений. Полезны для отладки, но обычно не нужны."));
    targets.push(CleanTarget::new(category, "System Crash Reports", "/Library/Logs/DiagnosticReports".to_owned(), "System crash reports").with_sudo().with_explanation("Системные отчёты о крашах. Безопасно удалять."));
    targets.push(CleanTarget::new(category, "Saved App State", join(home, "Library/Saved Application State"), "Saved window positions").with_explanation("Сохранённое состояние окон (позиция, размер). Приложения откроются с настройками по умолчанию."));
    targets.push(CleanTarget::new(category, "Mail Downloads", join(home, "Library/Containers/com.apple.mail/Data/Library/Mail Downloads"), "Downloaded attachments").with_explanation("Скачанные вложения из писем Mail.app. Оригиналы на сервере."));
    targets.push(CleanTarget::new(category, "QuickLook Cache", join(home, "Library/Caches/com.apple.QuickLook.thumbnailcache"), "Preview thumbnails").with_explanation("Кэш миниатюр Quick Look. Пересоздаётся автоматически."));
    targets.push(CleanTarget::new(category, "Diagnostics Data", "/private/var/db/diagnostics".to_owned(), "System diagnostics").with_sudo().with_risk(RiskLevel::Medium).with_explanation("Данные unified logging macOS. Могут занимать несколько ГБ.\nУдаление безопасно, но затрудняет диагностику через Console.app."));
    targets.push(CleanTarget::new(category, "Software Updates", "/Library/Updates".to_owned(), "Pending macOS updates").with_sudo().with_explanation("Скачанные обновления macOS. Безопасно — скачаются заново из App Store."));
    assert(views(targets@) =~= system_data_targets(home@));
    targets
}

/// The targets of the `Browsers` category, for the home directory `home`.
pub fn get_browser_targets(home: &str) -> (targets: Vec<CleanTarget>)
    ensures
        views(targets@) == browser_targets(home@),
{
    let category = "Browsers";
    let mut targets: Vec<CleanTarget> = Vec::new();
    targets.push(CleanTarget::new(category, "Chrome Cache", join(home, "Library/Caches/Google/Chrome"), "Chrome browser cache").with_explanation("Кэш Chrome. Безопасно — страницы загрузятся заново.\nЛогины, закладки и пароли НЕ затрагиваются."));
    targets.push(CleanTarget::new(category, "Chrome SW Cache", join(home, "Library/Application Support/Google/Chrome/Default/Service Worker/CacheStorage"), "Chrome offline data").with_explanation("Кэш Service Worker'ов (оффлайн-данные PWA). Безопасно, но PWA потеряют оффлайн-доступ."));
    targets.push(CleanTarget::new(category, "Safari Cache", join(home, "Library/Caches/com.apple.Safari"), "Safari browser cache").with_explanation("Кэш Safari. Безопасно — данные загрузятся заново."));
    targets.push(CleanTarget::new(category, "Firefox Cache", join(home, "Library/Caches/Firefox"), "Firefox browser cache").with_explanation("Кэш Firefox. Безопасно — страницы загрузятся заново."));
    targets.push(CleanTarget::new(category, "Edge Cache", join(home, "Library/Caches/Microsoft Edge"), "Edge browser cache").with_explanation("Кэш Microsoft Edge. Безопасно удалять."));
    assert(views(targets@) =~= browser_targets(home@));
    targets
}

/// The targets of the `Docker` category, for the home directory `home`.
pub fn get_docker_targets(home: &str) -> (targets: Vec<CleanTarget>)
    ensures
        views(targets@) == docker_targets(home@),
{
    let category = "Docker";
    let args: &[&str] = &["system", "prune", "-af", "--volumes"];
    assert(args@.map_values(|a: &str| a@) =~= seq!["system"@, "prune"@, "-af"@, "--volumes"@]);
    let mut targets: Vec<CleanTarget> = Vec::new();
    targets.push(CleanTarget::new(category, "Docker System Prune", join(home, "Library/Containers/com.docker.docker"), "All Docker data").with_risk(RiskLevel::High).with_command("docker", args).with_explanation("⚠️  АГРЕССИВНАЯ ОЧИСТКА DOCKER!\n\nУдаляет ВСЁ:\n• Все остановленные контейнеры\n• Все неиспользуемые сети\n• ВСЕ образы (images) — придётся скачивать заново\n• ВСЕ тома (volumes) — ДАННЫЕ БУДУТ ПОТЕРЯНЫ!\n\nПосле очистки: docker pull, docker-compose up заново.\nИспользуйте только если в volumes нет важных данных."));
    assert(views(targets@) =~= docker_targets(home@));
    targets
}
/// Every target of `ts` belongs to the category `c`.
pub open spec fn all_in_category(ts: Seq<TargetView>, c: Seq<char>) -> bool {
    forall|i: int| 0 <= i < ts.len() ==> #[trigger] ts[i].category == c
}

/// Each list of the catalogue holds targets of its own category only, and
/// as many as the category has.
pub proof fn law_catalogue_categories(home: Seq<char>)
    ensures
        all_in_category(general_targets(home), "System"@),
        all_in_category(xcode_targets(home), "Xcode"@),
        all_in_category(dev_targets(home), "Developer Tools"@),
        all_in_category(system_data_targets(home), "System Data"@),
        all_in_category(browser_targets(home), "Browsers"@),
        all_in_category(docker_targets(home), "Docker"@),
        general_targets(home).len() == 3,
        xcode_targets(home).len() == 5,
        dev_targets(home).len() == 5,
        system_data_targets(home).len() == 10,
        browser_targets(home).len() == 5,
        docker_targets(home).len() == 1,
{
    assert forall|i: int| 0 <= i < 3 implies #[trigger] general_targets(home)[i].category
        == "System"@ by {
        assert(i == 0 || i == 1 || i == 2);
    }
    assert forall|i: int| 0 <= i < 5 implies #[trigger] xcode_targets(home)[i].category
        == "Xcode"@ by {
        assert(i == 0 || i == 1 || i == 2 || i == 3 || i == 4);
    }
    assert forall|i: int| 0 <= i < 5 implies #[trigger] dev_targets(home)[i].category
        == "Developer Tools"@ by {
        assert(i == 0 || i == 1 || i == 2 || i == 3 || i == 4);
    }
    assert forall|i: int| 0 <= i < 10 implies #[trigger] system_data_targets(home)[i].category
        == "System Data"@ by {
        assert(i == 0 || i == 1 || i == 2 || i == 3 || i == 4 || i == 5 || i == 6 || i == 7 || i
            == 8 || i == 9);
    }
    assert forall|i: int| 0 <= i < 5 implies #[trigger] browser_targets(home)[i].category
        == "Browsers"@ by {
        assert(i == 0 || i == 1 || i == 2 || i == 3 || i == 4);
    }
    assert forall|i: int| 0 <= i < 1 implies #[trigger] docker_targets(home)[i].category
        == "Docker"@ by {
        assert(i == 0);
    }
}

/// The path `q` lies inside the directory `p`.
pub open spec fn inside(q: Seq<char>, p: Seq<char>) -> bool {
    has_prefix(q, p + seq!['/'])
}

/// Two paths name different places, neither inside the other: cleaning
/// one leaves the other alone.
pub open spec fn apart(p: Seq<char>, q: Seq<char>) -> bool {
    p != q && !inside(q, p) && !inside(p, q)
}

/// The targets of `ts` lie apart from one another.
pub open spec fn paths_apart(ts: Seq<TargetView>) -> bool {
    forall|i: int, j: int|
        0 <= i < j < ts.len() ==> apart(#[trigger] ts[i].path, #[trigger] ts[j].path)
}

/// Paths that differ at a position both reach lie apart.
proof fn lemma_apart_at(a: Seq<char>, b: Seq<char>, k: int)
    requires
        0 <= k < a.len(),
        k < b.len(),
        a[k] != b[k],
    ensures
        apart(a, b),
{
    if has_prefix(b, a + seq!['/']) {
        assert(b.subrange(0, a.len() + 1int)[k] == (a + seq!['/'])[k]);
    }
    if has_prefix(a, b + seq!['/']) {
        assert(a.subrange(0, b.len() + 1int)[k] == (b + seq!['/'])[k]);
    }
}

/// Relative paths that lie apart still lie apart once joined to the same
/// directory.
proof fn lemma_joined_apart(home: Seq<char>, a: Seq<char>, b: Seq<char>)
    requires
        a.len() > 0,
        b.len() > 0,
        a[0] != '/',
        b[0] != '/',
        apart(a, b),
    ensures
        apart(joined(home, a), joined(home, b)),
{
    let base = if home.len() > 0 && home.last() != '/' {
        home + seq!['/']
    } else {
        home
    };
    let n: int = base.len() as int;
    let la: int = a.len() as int;
    let lb: int = b.len() as int;
    assert(joined(home, a) =~= base + a);
    assert(joined(home, b) =~= base + b);
    let ja = base + a;
    let jb = base + b;
    if ja == jb {
        assert(ja.subrange(n, ja.len() as int) =~= a);
        assert(jb.subrange(n, jb.len() as int) =~= b);
    }
    if has_prefix(jb, ja + seq!['/']) {
        assert(jb.subrange(n, n + la + 1) =~= b.subrange(0, la + 1));
        assert((ja + seq!['/']).subrange(n, n + la + 1) =~= a + seq!['/']);
        assert(jb.subrange(0, ja.len() + 1int).subrange(n, n + la + 1) =~= jb.subrange(
            n,
            n + la + 1,
        ));
    }
    if has_prefix(ja, jb + seq!['/']) {
        assert(ja.subrange(n, n + lb + 1) =~= a.subrange(0, lb + 1));
        assert((jb + seq!['/']).subrange(n, n + lb + 1) =~= b + seq!['/']);
        assert(ja.subrange(0, jb.len() + 1int).subrange(n, n + lb + 1) =~= ja.subrange(
            n,
            n + lb + 1,
        ));
    }
}

/// Relative paths that differ at a position both reach lie apart once
/// joined to the same directory.
proof fn lemma_rel_apart(home: Seq<char>, a: Seq<char>, b: Seq<char>, k: int)
    requires
        0 <= k < a.len(),
        k < b.len(),
        a[k] != b[k],
        a[0] != '/',
        b[0] != '/',
    ensures
        apart(joined(home, a), joined(home, b)),
        apart(joined(home, b), joined(home, a)),
{
    lemma_apart_at(a, b, k);
    lemma_apart_at(b, a, k);
    lemma_joined_apart(home, a, b);
    lemma_joined_apart(home, b, a);
}

proof fn lemma_general_apart(home: Seq<char>)
    ensures
        paths_apart(general_targets(home)),
{
    reveal_strlit(".Trash");
    reveal_strlit("Library/Caches");
    reveal_strlit("Library/Logs");
    lemma_rel_apart(home, "Library/Caches"@, "Library/Logs"@, 8);
    lemma_rel_apart(home, "Library/Caches"@, ".Trash"@, 0);
    lemma_rel_apart(home, "Library/Logs"@, ".Trash"@, 0);
    let ts = general_targets(home);
    assert forall|i: int, j: int| 0 <= i < j < ts.len() implies apart(
        #[trigger] ts[i].path,
        #[trigger] ts[j].path,
    ) by {
        assert(i == 0 || i == 1);
        assert(j == 1 || j == 2);
    }
}

proof fn lemma_xcode_apart(home: Seq<char>)
    ensures
        paths_apart(xcode_targets(home)),
{
    reveal_strlit("Library/Developer/CoreSimulator/Devices");
    reveal_strlit("Library/Developer/Xcode/Archives");
    reveal_strlit("Library/Developer/Xcode/DerivedData");
    reveal_strlit("Library/Developer/Xcode/iOS DeviceSupport");
    reveal_strlit("Library/Developer/Xcode/watchOS DeviceSupport");
    lemma_rel_apart(home, "Library/Developer/Xcode/Archives"@, "Library/Developer/Xcode/DerivedData"@, 24);
    lemma_rel_apart(home, "Library/Developer/Xcode/Archives"@, "Library/Developer/Xcode/iOS DeviceSupport"@, 24);
    lemma_rel_apart(home, "Library/Developer/Xcode/Archives"@, "Library/Developer/Xcode/watchOS DeviceSupport"@, 24);
    lemma_rel_apart(home, "Library/Developer/Xcode/Archives"@, "Library/Developer/CoreSimulator/Devices"@, 18);
    lemma_rel_apart(home, "Library/Developer/Xcode/DerivedData"@, "Library/Developer/Xcode/iOS DeviceSupport"@, 24);
    lemma_rel_apart(home, "Library/Developer/Xcode/DerivedData"@, "Library/Developer/Xcode/watchOS DeviceSupport"@, 24);
    lemma_rel_apart(home, "Library/Developer/Xcode/DerivedData"@, "Library/Developer/CoreSimulator/Devices"@, 18);
    lemma_rel_apart(home, "Library/Developer/Xcode/iOS DeviceSupport"@, "Library/Developer/Xcode/watchOS DeviceSupport"@, 24);
    lemma_rel_apart(home, "Library/Developer/Xcode/iOS DeviceSupport"@, "Library/Developer/CoreSimulator/Devices"@, 18);
    lemma_rel_apart(home, "Library/Developer/Xcode/watchOS DeviceSupport"@, "Library/Developer/CoreSimulator/Devices"@, 18);
    let ts = xcode_targets(home);
    assert forall|i: int, j: int| 0 <= i < j < ts.len() implies apart(
        #[trigger] ts[i].path,
        #[trigger] ts[j].path,
    ) by {
        assert(i == 0 || i == 1 || i == 2 || i == 3);
        assert(j == 1 || j == 2 || j == 3 || j == 4);
    }
}

proof fn lemma_dev_apart(home: Seq<char>)
    ensures
        paths_apart(dev_targets(home)),
{
    reveal_strlit(".gradle/caches");
    reveal_strlit(".npm");
    reveal_strlit("Library/Caches/CocoaPods");
    reveal_strlit("Library/Caches/Homebrew");
    reveal_strlit("Library/Caches/Yarn");
    lemma_rel_apart(home, "Library/Caches/Homebrew"@, "Library/Caches/CocoaPods"@, 15);
    lemma_rel_apart(home, "Library/Caches/Homebrew"@, "Library/Caches/Yarn"@, 15);
    lemma_rel_apart(home, "Library/Caches/Homebrew"@, ".npm"@, 0);
    lemma_rel_apart(home, "Library/Caches/Homebrew"@, ".gradle/caches"@, 0);
    lemma_rel_apart(home, "Library/Caches/CocoaPods"@, "Library/Caches/Yarn"@, 15);
    lemma_rel_apart(home, "Library/Caches/CocoaPods"@, ".npm"@, 0);
    lemma_rel_apart(home, "Library/Caches/CocoaPods"@, ".gradle/caches"@, 0);
    lemma_rel_apart(home, "Library/Caches/Yarn"@, ".npm"@, 0);
    lemma_rel_apart(home, "Library/Caches/Yarn"@, ".gradle/caches"@, 0);
    lemma_rel_apart(home, ".npm"@, ".gradle/caches"@, 1);
    let ts = dev_targets(home);
    assert forall|i: int, j: int| 0 <= i < j < ts.len() implies apart(
        #[trigger] ts[i].path,
        #[trigger] ts[j].path,
    ) by {
        assert(i == 0 || i == 1 || i == 2 || i == 3);
        assert(j == 1 || j == 2 || j == 3 || j == 4);
    }
}

proof fn lemma_browser_apart(home: Seq<char>)
    ensures
        paths_apart(browser_targets(home)),
{
    reveal_strlit("Library/Application Support/Google/Chrome/Default/Service Worker/CacheStorage");
    reveal_strlit("Library/Caches/Firefox");
    reveal_strlit("Library/Caches/Google/Chrome");
    reveal_strlit("Library/Caches/Microsoft Edge");
    reveal_strlit("Library/Caches/com.apple.Safari");
    lemma_rel_apart(home, "Library/Caches/Google/Chrome"@, "Library/Application Support/Google/Chrome/Default/Service Worker/CacheStorage"@, 8);
    lemma_rel_apart(home, "Library/Caches/Google/Chrome"@, "Library/Caches/com.apple.Safari"@, 15);
    lemma_rel_apart(home, "Library/Caches/Google/Chrome"@, "Library/Caches/Firefox"@, 15);
    lemma_rel_apart(home, "Library/Caches/Google/Chrome"@, "Library/Caches/Microsoft Edge"@, 15);
    lemma_rel_apart(home, "Library/Application Support/Google/Chrome/Default/Service Worker/CacheStorage"@, "Library/Caches/com.apple.Safari"@, 8);
    lemma_rel_apart(home, "Library/Application Support/Google/Chrome/Default/Service Worker/CacheStorage"@, "Library/Caches/Firefox"@, 8);
    lemma_rel_apart(home, "Library/Application Support/Google/Chrome/Default/Service Worker/CacheStorage"@, "Library/Caches/Microsoft Edge"@, 8);
    lemma_rel_apart(home, "Library/Caches/com.apple.Safari"@, "Library/Caches/Firefox"@, 15);
    lemma_rel_apart(home, "Library/Caches/com.apple.Safari"@, "Library/Caches/Microsoft Edge"@, 15);
    lemma_rel_apart(home, "Library/Caches/Firefox"@, "Library/Caches/Microsoft Edge"@, 15);
    let ts = browser_targets(home);
    assert forall|i: int, j: int| 0 <= i < j < ts.len() implies apart(
        #[trigger] ts[i].path,
        #[trigger] ts[j].path,
    ) by {
        assert(i == 0 || i == 1 || i == 2 || i == 3);
        assert(j == 1 || j == 2 || j == 3 || j == 4);
    }
}

proof fn lemma_system_data_apart(home: Seq<char>)
    ensures
        forall|i: int, j: int|
            0 <= i < j < system_data_targets(home).len() && #[trigger] system_data_targets(home)[i].requires_sudo
                == #[trigger] system_data_targets(home)[j].requires_sudo ==> apart(
                system_data_targets(home)[i].path,
                system_data_targets(home)[j].path,
            ),
{
    reveal_strlit("/Library/Caches");
    reveal_strlit("/Library/Logs/DiagnosticReports");
    reveal_strlit("/Library/Updates");
    reveal_strlit("/private/var/db/diagnostics");
    reveal_strlit("/private/var/log");
    reveal_strlit("/private/var/tmp");
    reveal_strlit("Library/Caches/com.apple.QuickLook.thumbnailcache");
    reveal_strlit("Library/Containers/com.apple.mail/Data/Library/Mail Downloads");
    reveal_strlit("Library/Logs/DiagnosticReports");
    reveal_strlit("Library/Saved Application State");
    lemma_rel_apart(home, "Library/Logs/DiagnosticReports"@, "Library/Saved Application State"@, 8);
    lemma_rel_apart(home, "Library/Logs/DiagnosticReports"@, "Library/Containers/com.apple.mail/Data/Library/Mail Downloads"@, 8);
    lemma_rel_apart(home, "Library/Logs/DiagnosticReports"@, "Library/Caches/com.apple.QuickLook.thumbnailcache"@, 8);
    lemma_rel_apart(home, "Library/Saved Application State"@, "Library/Containers/com.apple.mail/Data/Library/Mail Downloads"@, 8);
    lemma_rel_apart(home, "Library/Saved Application State"@, "Library/Caches/com.apple.QuickLook.thumbnailcache"@, 8);
    lemma_rel_apart(home, "Library/Containers/com.apple.mail/Data/Library/Mail Downloads"@, "Library/Caches/com.apple.QuickLook.thumbnailcache"@, 9);
    lemma_apart_at("/Library/Caches"@, "/private/var/log"@, 1);
    lemma_apart_at("/Library/Caches"@, "/private/var/tmp"@, 1);
    lemma_apart_at("/Library/Caches"@, "/Library/Logs/DiagnosticReports"@, 9);
    lemma_apart_at("/Library/Caches"@, "/private/var/db/diagnostics"@, 1);
    lemma_apart_at("/Library/Caches"@, "/Library/Updates"@, 9);
    lemma_apart_at("/private/var/log"@, "/private/var/tmp"@, 13);
    lemma_apart_at("/private/var/log"@, "/Library/Logs/DiagnosticReports"@, 1);
    lemma_apart_at("/private/var/log"@, "/private/var/db/diagnostics"@, 13);
    lemma_apart_at("/private/var/log"@, "/Library/Updates"@, 1);
    lemma_apart_at("/private/var/tmp"@, "/Library/Logs/DiagnosticReports"@, 1);
    lemma_apart_at("/private/var/tmp"@, "/private/var/db/diagnostics"@, 13);
    lemma_apart_at("/private/var/tmp"@, "/Library/Updates"@, 1);
    lemma_apart_at("/Library/Logs/DiagnosticReports"@, "/private/var/db/diagnostics"@, 1);
    lemma_apart_at("/Library/Logs/DiagnosticReports"@, "/Library/Updates"@, 9);
    lemma_apart_at("/private/var/db/diagnostics"@, "/Library/Updates"@, 1);
    let ts = system_data_targets(home);
    assert forall|i: int, j: int| 0 <= i < j < ts.len() && #[trigger] ts[i].requires_sudo == #[trigger] ts[j].requires_sudo implies apart(ts[i].path, ts[j].path) by {
        assert(i == 0 || i == 1 || i == 2 || i == 3 || i == 4 || i == 5 || i == 6 || i == 7 || i == 8);
        assert(j == 1 || j == 2 || j == 3 || j == 4 || j == 5 || j == 6 || j == 7 || j == 8 || j == 9);
    }
}

/// No target of a category lies inside another target of that category, nor
/// names the same place, for every home directory: emptying one never wipes
/// another. Among the system data this holds between the targets under the
/// home directory and between the system-wide ones.
pub proof fn law_catalogue_targets_lie_apart(home: Seq<char>)
    ensures
        paths_apart(general_targets(home)),
        paths_apart(xcode_targets(home)),
        paths_apart(dev_targets(home)),
        paths_apart(browser_targets(home)),
        paths_apart(docker_targets(home)),
        forall|i: int, j: int|
            0 <= i < j < system_data_targets(home).len() && #[trigger] system_data_targets(home)[i].requires_sudo
                == #[trigger] system_data_targets(home)[j].requires_sudo ==> apart(
                system_data_targets(home)[i].path,
                system_data_targets(home)[j].path,
            ),
{
    lemma_general_apart(home);
    lemma_xcode_apart(home);
    lemma_dev_apart(home);
    lemma_browser_apart(home);
    lemma_system_data_apart(home);
}

} // verus!
