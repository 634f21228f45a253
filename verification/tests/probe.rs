use webview2::detection::{DisableProbe, InstallProbe};
use webview2::host::{HostAction, HostEvent, RegistryData, RootKey, ValueKind};
use webview2::scan::Rule;

const WOW64: &str =
    r"SOFTWARE\WOW6432Node\Microsoft\EdgeUpdate\Clients\{F3017226-FE2A-4295-8BDF-00C3A9A7E4C5}";
const MACHINE: &str =
    r"SOFTWARE\Microsoft\EdgeUpdate\Clients\{F3017226-FE2A-4295-8BDF-00C3A9A7E4C5}";
const USER: &str =
    r"Software\Microsoft\EdgeUpdate\Clients\{F3017226-FE2A-4295-8BDF-00C3A9A7E4C5}";
const POLICY: &str = r"Software\Policies\Microsoft\Edge\WebView2";
const SETTING: &str = r"Software\Microsoft\Edge\WebView2";
const FEATURE: &str = r"SOFTWARE\Policies\Microsoft\EdgeWebView";
const IFEO: &str =
    r"SOFTWARE\Microsoft\Windows NT\CurrentVersion\Image File Execution Options\msedgewebview2.exe";

fn open(root: RootKey, path: &str) -> Option<HostAction> {
    Some(HostAction::OpenKey { root, path: path.to_string() })
}

fn read(root: RootKey, path: &str, name: &str, kind: ValueKind) -> Option<HostAction> {
    Some(HostAction::ReadValue {
        root,
        path: path.to_string(),
        name: name.to_string(),
        kind,
    })
}

fn loader_in(dir: &str) -> Option<HostAction> {
    Some(HostAction::FileExists {
        dir: dir.to_string(),
        file: "WebView2Loader.dll".to_string(),
    })
}

fn text(text: &str) -> HostEvent {
    HostEvent::ValueRead(Some(RegistryData::Sz(text.to_string())))
}

fn dir(dir: &str) -> HostEvent {
    HostEvent::Directory(Some(dir.to_string()))
}

/// A probe that has just found a version.
fn version_found() -> InstallProbe {
    InstallProbe::start().step(HostEvent::KeyOpened(true)).step(text("1.0"))
}

#[test]
fn closed_keys_are_passed_over() {
    let probe = InstallProbe::start();
    assert_eq!(probe.action(), open(RootKey::LocalMachine, WOW64));
    let probe = probe.step(HostEvent::KeyOpened(false));
    assert_eq!(probe.action(), open(RootKey::LocalMachine, MACHINE));
    let probe = probe.step(HostEvent::KeyOpened(false));
    assert_eq!(probe.action(), open(RootKey::CurrentUser, USER));
    let probe = probe.step(HostEvent::KeyOpened(false));
    assert_eq!(probe.action(), None);
    assert!(!probe.found());
}

#[test]
fn open_keys_are_read() {
    let probe = InstallProbe::start().step(HostEvent::KeyOpened(true));
    assert_eq!(probe.action(), read(RootKey::LocalMachine, WOW64, "pv", ValueKind::Sz));
    let probe = probe.step(text("0.0.0.0"));
    assert_eq!(probe.action(), open(RootKey::LocalMachine, MACHINE));
    let probe = probe.step(HostEvent::KeyOpened(true)).step(HostEvent::ValueRead(None));
    assert_eq!(probe.action(), open(RootKey::CurrentUser, USER));
    let probe = probe.step(HostEvent::KeyOpened(true)).step(text("120.0.2210.91"));
    assert_eq!(probe.action(), Some(HostAction::SystemDirectory));
    assert!(!probe.found());
}

#[test]
fn first_loader_ends_the_search() {
    let probe = version_found().step(dir("A"));
    assert_eq!(probe.action(), Some(HostAction::Wow64Directory));
    let probe = probe.step(dir("B"));
    assert_eq!(probe.action(), loader_in("A"));
    let probe = probe.step(HostEvent::FileChecked(true));
    assert_eq!(probe.action(), None);
    assert!(probe.found());
}

#[test]
fn missing_loaders_end_the_search_too() {
    let probe = version_found().step(dir("A")).step(dir("B"));
    let probe = probe.step(HostEvent::FileChecked(false));
    assert_eq!(probe.action(), loader_in("B"));
    let probe = probe.step(HostEvent::FileChecked(false));
    assert_eq!(probe.action(), None);
    assert!(probe.found());
}

#[test]
fn missing_directories_are_left_out() {
    let probe = version_found().step(HostEvent::Directory(None)).step(dir("B"));
    assert_eq!(probe.action(), loader_in("B"));
    let probe = version_found()
        .step(HostEvent::Directory(None))
        .step(HostEvent::Directory(None));
    assert_eq!(probe.action(), None);
    assert!(probe.found());
}

#[test]
fn unasked_replies_change_nothing() {
    let probe = InstallProbe::start().step(HostEvent::FileChecked(true)).step(text("1.0"));
    assert_eq!(probe.action(), open(RootKey::LocalMachine, WOW64));
    let probe = version_found().step(HostEvent::KeyOpened(false));
    assert_eq!(probe.action(), Some(HostAction::SystemDirectory));
}

#[test]
fn disable_probe_asks_in_order() {
    let mut probe = DisableProbe::start();
    for root in [RootKey::CurrentUser, RootKey::LocalMachine] {
        assert_eq!(probe.action(), open(root, POLICY));
        probe = probe.step(HostEvent::KeyOpened(true));
        assert_eq!(
            probe.action(),
            read(root, POLICY, "BrowserExecutableFolder", ValueKind::Sz)
        );
        probe = probe.step(HostEvent::ValueRead(None));
        assert_eq!(
            probe.action(),
            read(root, POLICY, "ReleaseChannelPreference", ValueKind::Dword)
        );
        probe = probe.step(HostEvent::ValueRead(Some(RegistryData::Dword(0))));
    }
    assert_eq!(probe.action(), open(RootKey::CurrentUser, SETTING));
    probe = probe.step(HostEvent::KeyOpened(true));
    assert_eq!(
        probe.action(),
        read(RootKey::CurrentUser, SETTING, "BrowserExecutableFolder", ValueKind::Sz)
    );
    probe = probe.step(text(r"C:\Edge"));
    assert_eq!(probe.action(), open(RootKey::LocalMachine, FEATURE));
    probe = probe.step(HostEvent::KeyOpened(true));
    assert_eq!(
        probe.action(),
        read(RootKey::LocalMachine, FEATURE, "Enabled", ValueKind::Dword)
    );
    probe = probe.step(HostEvent::ValueRead(Some(RegistryData::Dword(1))));
    assert_eq!(probe.action(), open(RootKey::LocalMachine, IFEO));
    probe = probe.step(HostEvent::KeyOpened(true));
    assert_eq!(
        probe.action(),
        read(RootKey::LocalMachine, IFEO, "Debugger", ValueKind::Sz)
    );
    probe = probe.step(text(""));
    assert_eq!(probe.action(), None);
    assert_eq!(probe.reason(), None);
}

#[test]
fn disable_probe_stops_at_first_cause() {
    let probe = DisableProbe::start();
    assert_eq!(probe.reason(), None);
    let probe = probe.step(HostEvent::KeyOpened(true)).step(text(""));
    assert_eq!(probe.action(), None);
    assert_eq!(
        probe.reason().as_deref(),
        Some("通过组策略禁用 (BrowserExecutableFolder 为空)")
    );
}

#[test]
fn rules() {
    let sz = |text: &str| Some(RegistryData::Sz(text.to_string()));
    let readings = [
        sz("1.0"),
        sz("0.0.0.0"),
        sz(""),
        Some(RegistryData::Dword(0)),
        Some(RegistryData::Dword(1)),
        Some(RegistryData::Other),
        None,
    ];
    let table = [
        (Rule::RealVersion, [true, false, false, false, false, false, false]),
        (Rule::EmptyText, [false, false, true, false, false, false, false]),
        (Rule::NonEmptyText, [true, true, false, false, false, false, false]),
        (Rule::ZeroDword, [false, false, false, true, false, false, false]),
        (Rule::Ignored, [false, false, false, false, false, false, false]),
    ];
    for (rule, expected) in table {
        for (reading, met) in readings.iter().zip(expected) {
            assert_eq!(rule.is_met(reading), met, "{:?} {:?}", rule, reading);
        }
    }
}
