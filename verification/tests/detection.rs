use webview2::criteria::{ifeo_path, intercepted_reason, DisableCause};
use webview2::detection::{is_webview2_disabled, is_webview2_installed};
use webview2::host::{
    FileRecord, HostSnapshot, KeyRecord, RegistryData, RootKey, ValueRecord,
};

const WOW64: &str =
    r"SOFTWARE\WOW6432Node\Microsoft\EdgeUpdate\Clients\{F3017226-FE2A-4295-8BDF-00C3A9A7E4C5}";
const MACHINE: &str =
    r"SOFTWARE\Microsoft\EdgeUpdate\Clients\{F3017226-FE2A-4295-8BDF-00C3A9A7E4C5}";
const USER: &str =
    r"Software\Microsoft\EdgeUpdate\Clients\{F3017226-FE2A-4295-8BDF-00C3A9A7E4C5}";
const POLICY: &str = r"Software\Policies\Microsoft\Edge\WebView2";
const SETTING: &str = r"Software\Microsoft\Edge\WebView2";
const FEATURE: &str = r"SOFTWARE\Policies\Microsoft\EdgeWebView";
const IFEO: &str =
    r"SOFTWARE\Microsoft\Windows NT\CurrentVersion\Image File Execution Options\msedgewebview2.exe";

const FOLDER_REASON: &str = "通过组策略禁用 (BrowserExecutableFolder 为空)";
const FEATURE_REASON: &str = "WebView2 已被组策略禁用";
const IFEO_REASON: &str =
    "WebView2 进程 (msedgewebview2.exe) 已被 IFEO 禁用\r\n(可能使用了 Edge Blocker 等工具)";

fn sz(text: &str) -> RegistryData {
    RegistryData::Sz(text.to_string())
}

fn key(root: RootKey, path: &str, name: &str, data: RegistryData) -> KeyRecord {
    KeyRecord {
        root,
        path: path.to_string(),
        values: vec![ValueRecord { name: name.to_string(), data }],
    }
}

fn host(keys: Vec<KeyRecord>) -> HostSnapshot {
    HostSnapshot { keys, system_dir: None, wow64_dir: None, files: vec![] }
}

fn disabled(keys: Vec<KeyRecord>) -> Option<String> {
    is_webview2_disabled(&host(keys))
}

fn installed(keys: Vec<KeyRecord>) -> bool {
    is_webview2_installed(&host(keys))
}

#[test]
fn installed_from_each_location() {
    assert!(installed(vec![key(RootKey::LocalMachine, WOW64, "pv", sz("120.0.2210.91"))]));
    assert!(installed(vec![key(RootKey::LocalMachine, MACHINE, "pv", sz("120.0.2210.91"))]));
    assert!(installed(vec![key(RootKey::CurrentUser, USER, "pv", sz("120.0.2210.91"))]));
}

#[test]
fn not_installed_on_empty_registry() {
    assert!(!installed(vec![]));
}

#[test]
fn location_belongs_to_its_root() {
    assert!(!installed(vec![key(RootKey::CurrentUser, WOW64, "pv", sz("1.0"))]));
    assert_eq!(
        disabled(vec![key(RootKey::LocalMachine, SETTING, "BrowserExecutableFolder", sz(""))]),
        None
    );
}

#[test]
fn case_of_names_does_not_count() {
    assert!(installed(vec![key(RootKey::CurrentUser, MACHINE, "pv", sz("120.0.2210.91"))]));
    assert!(installed(vec![key(RootKey::LocalMachine, USER, "pv", sz("120.0.2210.91"))]));
    assert!(installed(vec![key(
        RootKey::LocalMachine,
        &WOW64.to_ascii_lowercase(),
        "PV",
        sz("1.0")
    )]));
    assert_eq!(
        disabled(vec![key(
            RootKey::LocalMachine,
            r"SOFTWARE\Policies\Microsoft\Edge\WebView2",
            "BROWSEREXECUTABLEFOLDER",
            sz("")
        )])
        .as_deref(),
        Some(FOLDER_REASON)
    );
    assert_eq!(
        disabled(vec![key(
            RootKey::LocalMachine,
            &IFEO.to_ascii_uppercase(),
            "debugger",
            sz("x")
        )])
        .as_deref(),
        Some(IFEO_REASON)
    );
}

#[test]
fn other_names_stay_apart() {
    for name in ["", "p", "pvv", "pw", " pv"] {
        assert!(!installed(vec![key(RootKey::LocalMachine, MACHINE, name, sz("1.0"))]));
    }
    let brackets = MACHINE.replace('{', "[").replace('}', "]");
    assert!(!installed(vec![key(RootKey::LocalMachine, &brackets, "pv", sz("1.0"))]));
    let control = MACHINE.replace('-', "\r");
    assert!(!installed(vec![key(RootKey::LocalMachine, &control, "pv", sz("1.0"))]));
}

#[test]
fn version_must_be_real() {
    assert!(!installed(vec![key(RootKey::LocalMachine, MACHINE, "pv", sz(""))]));
    assert!(!installed(vec![key(RootKey::LocalMachine, MACHINE, "pv", sz("0.0.0.0"))]));
    assert!(!installed(vec![key(RootKey::LocalMachine, MACHINE, "pv", RegistryData::Dword(120))]));
    assert!(!installed(vec![key(RootKey::LocalMachine, MACHINE, "pv", RegistryData::Other)]));
    assert!(!installed(vec![key(RootKey::LocalMachine, MACHINE, "version", sz("1.0"))]));
    assert!(installed(vec![key(RootKey::LocalMachine, MACHINE, "pv", sz("0.0.0.1"))]));
}

#[test]
fn later_location_makes_up_for_earlier() {
    assert!(installed(vec![
        key(RootKey::LocalMachine, WOW64, "pv", sz("0.0.0.0")),
        key(RootKey::LocalMachine, MACHINE, "pv", sz("")),
        key(RootKey::CurrentUser, USER, "pv", sz("1.0")),
    ]));
}

#[test]
fn loader_library_changes_nothing() {
    let version = || vec![key(RootKey::CurrentUser, USER, "pv", sz("1.0"))];
    let loader = || {
        vec![FileRecord {
            dir: r"C:\Windows\SysWOW64".to_string(),
            file: "WebView2Loader.dll".to_string(),
        }]
    };
    for keys in [version(), vec![]] {
        let expected = !keys.is_empty();
        let with_loader = HostSnapshot {
            keys,
            system_dir: Some(r"C:\Windows\System32".to_string()),
            wow64_dir: Some(r"C:\Windows\SysWOW64".to_string()),
            files: loader(),
        };
        assert_eq!(is_webview2_installed(&with_loader), expected);
        let without = HostSnapshot { files: vec![], ..with_loader };
        assert_eq!(is_webview2_installed(&without), expected);
    }
}

#[test]
fn not_disabled_on_empty_registry() {
    assert_eq!(disabled(vec![]), None);
}

#[test]
fn empty_browser_folder_disables() {
    for (root, path) in [
        (RootKey::CurrentUser, POLICY),
        (RootKey::LocalMachine, POLICY),
        (RootKey::CurrentUser, SETTING),
    ] {
        assert_eq!(
            disabled(vec![key(root, path, "BrowserExecutableFolder", sz(""))]).as_deref(),
            Some(FOLDER_REASON)
        );
        assert_eq!(
            disabled(vec![key(root, path, "BrowserExecutableFolder", sz(r"C:\Edge"))]),
            None
        );
        assert_eq!(
            disabled(vec![key(root, path, "BrowserExecutableFolder", RegistryData::Dword(0))]),
            None
        );
    }
    assert_eq!(
        disabled(vec![key(RootKey::LocalMachine, SETTING, "BrowserExecutableFolder", sz(""))]),
        None
    );
}

#[test]
fn channel_preference_is_ignored() {
    for data in [RegistryData::Dword(0), RegistryData::Dword(1), sz("")] {
        assert_eq!(
            disabled(vec![key(RootKey::CurrentUser, POLICY, "ReleaseChannelPreference", data)]),
            None
        );
    }
    assert_eq!(
        disabled(vec![
            key(
                RootKey::CurrentUser,
                POLICY,
                "ReleaseChannelPreference",
                RegistryData::Dword(0)
            ),
            key(RootKey::LocalMachine, FEATURE, "Enabled", RegistryData::Dword(0)),
        ])
        .as_deref(),
        Some(FEATURE_REASON)
    );
}

#[test]
fn zero_feature_flag_disables() {
    assert_eq!(
        disabled(vec![key(RootKey::LocalMachine, FEATURE, "Enabled", RegistryData::Dword(0))])
            .as_deref(),
        Some(FEATURE_REASON)
    );
    assert_eq!(
        disabled(vec![key(RootKey::LocalMachine, FEATURE, "Enabled", RegistryData::Dword(1))]),
        None
    );
    assert_eq!(
        disabled(vec![key(RootKey::LocalMachine, FEATURE, "Enabled", sz("0"))]),
        None
    );
    assert_eq!(
        disabled(vec![key(RootKey::CurrentUser, FEATURE, "Enabled", RegistryData::Dword(0))]),
        None
    );
}

#[test]
fn debugger_disables() {
    assert_eq!(
        disabled(vec![key(RootKey::LocalMachine, IFEO, "Debugger", sz("systray.exe"))]).as_deref(),
        Some(IFEO_REASON)
    );
    assert_eq!(
        disabled(vec![key(RootKey::LocalMachine, IFEO, "Debugger", sz(""))]),
        None
    );
}

#[test]
fn browser_process_is_not_looked_at() {
    let path = ifeo_path("msedge.exe");
    assert_eq!(
        disabled(vec![key(RootKey::LocalMachine, &path, "Debugger", sz("systray.exe"))]),
        None
    );
}

#[test]
fn first_reason_counts() {
    let folder = || key(RootKey::LocalMachine, POLICY, "BrowserExecutableFolder", sz(""));
    let setting = || key(RootKey::CurrentUser, SETTING, "BrowserExecutableFolder", sz(""));
    let feature = || key(RootKey::LocalMachine, FEATURE, "Enabled", RegistryData::Dword(0));
    let debugger = || key(RootKey::LocalMachine, IFEO, "Debugger", sz("x"));
    assert_eq!(
        disabled(vec![debugger(), feature(), folder()]).as_deref(),
        Some(FOLDER_REASON)
    );
    assert_eq!(
        disabled(vec![debugger(), feature(), setting()]).as_deref(),
        Some(FOLDER_REASON)
    );
    assert_eq!(disabled(vec![debugger(), feature()]).as_deref(), Some(FEATURE_REASON));
}

#[test]
fn first_record_counts() {
    assert!(!installed(vec![
        key(RootKey::CurrentUser, USER, "pv", sz("")),
        key(RootKey::CurrentUser, USER, "pv", sz("1.0")),
    ]));
}

#[test]
fn texts() {
    assert_eq!(ifeo_path("msedgewebview2.exe"), IFEO);
    assert_eq!(
        intercepted_reason("X"),
        "X 已被 IFEO 禁用\r\n(可能使用了 Edge Blocker 等工具)"
    );
    assert_eq!(DisableCause::BrowserFolder.reason(), FOLDER_REASON);
    assert_eq!(DisableCause::Feature.reason(), FEATURE_REASON);
    assert_eq!(DisableCause::ImageFileOptions.reason(), IFEO_REASON);
}
