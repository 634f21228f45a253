//! What it takes for the WebView2 runtime to be installed or disabled, and the
//! registry searches that find out.

use vstd::prelude::*;
use vstd::string::StringExecFns;

use crate::host::{value_read, DataModel, RegistryModel, RootKey, ValueKind};
use crate::scan::{
    checks_model, first_finding, KeyCheck, KeyCheckModel, Rule, ValueCheck, ValueCheckModel,
    NO_VERSION,
};

verus! {

/// The key of a runtime that 32-bit programs installed for the machine.
pub const RUNTIME_WOW64: &'static str =
    "SOFTWARE\\WOW6432Node\\Microsoft\\EdgeUpdate\\Clients\\{F3017226-FE2A-4295-8BDF-00C3A9A7E4C5}";

/// The key of a runtime that is installed for the machine.
pub const RUNTIME_MACHINE: &'static str =
    "SOFTWARE\\Microsoft\\EdgeUpdate\\Clients\\{F3017226-FE2A-4295-8BDF-00C3A9A7E4C5}";

/// The key of a runtime that is installed for the user.
pub const RUNTIME_USER: &'static str =
    "Software\\Microsoft\\EdgeUpdate\\Clients\\{F3017226-FE2A-4295-8BDF-00C3A9A7E4C5}";

/// The value that holds the version of the runtime.
pub const VERSION_VALUE: &'static str = "pv";

/// The library that is looked for once a version was found.
pub const LOADER_DLL: &'static str = "WebView2Loader.dll";

/// The key of the group policy.
pub const POLICY: &'static str = "Software\\Policies\\Microsoft\\Edge\\WebView2";

/// The key of the user's own setting.
pub const USER_SETTING: &'static str = "Software\\Microsoft\\Edge\\WebView2";

/// The value that disables the runtime by being empty.
pub const BROWSER_FOLDER: &'static str = "BrowserExecutableFolder";

/// A preference that disables nothing.
pub const CHANNEL_PREFERENCE: &'static str = "ReleaseChannelPreference";

/// The key of the policy on the feature as a whole.
pub const FEATURE: &'static str = "SOFTWARE\\Policies\\Microsoft\\EdgeWebView";

/// The value that disables the feature by being zero.
pub const FEATURE_ENABLED: &'static str = "Enabled";

/// The key whose subkeys hold the execution options of a program.
pub const IFEO_PREFIX: &'static str =
    "SOFTWARE\\Microsoft\\Windows NT\\CurrentVersion\\Image File Execution Options\\";

/// The program of the runtime.
pub const RUNTIME_EXE: &'static str = "msedgewebview2.exe";

/// The program of the runtime, as the user is told of it.
pub const RUNTIME_EXE_NAME: &'static str = "WebView2 进程 (msedgewebview2.exe)";

/// The value that keeps a program from starting by naming another.
pub const DEBUGGER: &'static str = "Debugger";

/// What the user is told if the browser folder is set to nothing.
pub const BROWSER_FOLDER_REASON: &'static str = "通过组策略禁用 (BrowserExecutableFolder 为空)";

/// What the user is told if the feature is switched off.
pub const FEATURE_REASON: &'static str = "WebView2 已被组策略禁用";

/// What the user is told of a program that is kept from starting, after its name.
pub const INTERCEPTED_REASON: &'static str =
    " 已被 IFEO 禁用\r\n(可能使用了 Edge Blocker 等工具)";

/// The path of the execution options of a program.
pub fn ifeo_path(exe_name: &str) -> (path: String)
    ensures
        path@ == IFEO_PREFIX@ + exe_name@,
{
    IFEO_PREFIX.to_owned().concat(exe_name)
}

/// What the user is told if a program is kept from starting.
pub fn intercepted_reason(display_name: &str) -> (reason: String)
    ensures
        reason@ == display_name@ + INTERCEPTED_REASON@,
{
    display_name.to_owned().concat(INTERCEPTED_REASON)
}

/// A version of the runtime is recorded under the key: its value `pv` is a
/// string, is not empty and is not `0.0.0.0`.
pub open spec fn version_recorded(
    registry: RegistryModel,
    root: RootKey,
    path: Seq<char>,
) -> bool {
    value_read(registry, root, path, VERSION_VALUE@, ValueKind::Sz) matches Some(
        DataModel::Sz(version),
    ) && version.len() > 0 && version != NO_VERSION@
}

/// The runtime is installed, for the machine or for the user.
pub open spec fn installed(registry: RegistryModel) -> bool {
    ||| version_recorded(registry, RootKey::LocalMachine, RUNTIME_WOW64@)
    ||| version_recorded(registry, RootKey::LocalMachine, RUNTIME_MACHINE@)
    ||| version_recorded(registry, RootKey::CurrentUser, RUNTIME_USER@)
}

/// The browser folder is set under the key, and set to nothing.
pub open spec fn folder_emptied(registry: RegistryModel, root: RootKey, path: Seq<char>) -> bool {
    value_read(registry, root, path, BROWSER_FOLDER@, ValueKind::Sz) == Some(
        DataModel::Sz(Seq::<char>::empty()),
    )
}

/// The feature is switched off by policy.
pub open spec fn feature_off(registry: RegistryModel) -> bool {
    value_read(
        registry,
        RootKey::LocalMachine,
        FEATURE@,
        FEATURE_ENABLED@,
        ValueKind::Dword,
    ) == Some(DataModel::Dword(0))
}

/// The program is kept from starting.
pub open spec fn intercepted(registry: RegistryModel, exe_name: Seq<char>) -> bool {
    value_read(
        registry,
        RootKey::LocalMachine,
        IFEO_PREFIX@ + exe_name,
        DEBUGGER@,
        ValueKind::Sz,
    ) matches Some(DataModel::Sz(debugger)) && debugger.len() > 0
}

/// What disables the runtime.
#[derive(Clone, Copy, PartialEq, Eq, Structural, Debug)]
pub enum DisableCause {
    /// The browser folder is set to nothing.
    BrowserFolder,
    /// The feature is switched off.
    Feature,
    /// The program is kept from starting.
    ImageFileOptions,
}

/// What disables the runtime on a registry, if anything does. An emptied
/// browser folder counts before the policy on the feature, and that before an
/// intercepted program.
pub open spec fn disable_cause(registry: RegistryModel) -> Option<DisableCause> {
    if {
        ||| folder_emptied(registry, RootKey::CurrentUser, POLICY@)
        ||| folder_emptied(registry, RootKey::LocalMachine, POLICY@)
        ||| folder_emptied(registry, RootKey::CurrentUser, USER_SETTING@)
    } {
        Some(DisableCause::BrowserFolder)
    } else if feature_off(registry) {
        Some(DisableCause::Feature)
    } else if intercepted(registry, RUNTIME_EXE@) {
        Some(DisableCause::ImageFileOptions)
    } else {
        None
    }
}

/// What the user is told of a cause.
pub open spec fn reason_text(cause: DisableCause) -> Seq<char> {
    match cause {
        DisableCause::BrowserFolder => BROWSER_FOLDER_REASON@,
        DisableCause::Feature => FEATURE_REASON@,
        DisableCause::ImageFileOptions => RUNTIME_EXE_NAME@ + INTERCEPTED_REASON@,
    }
}

/// What the user is told of an optional cause.
pub open spec fn reason_of(cause: Option<DisableCause>) -> Option<Seq<char>> {
    match cause {
        Some(cause) => Some(reason_text(cause)),
        None => None,
    }
}

/// Why the runtime is disabled on a registry, in words.
pub open spec fn disabled_reason(registry: RegistryModel) -> Option<Seq<char>> {
    reason_of(disable_cause(registry))
}

impl DisableCause {
    /// What the user is told of the cause.
    pub fn reason(&self) -> (reason: String)
        ensures
            reason@ == reason_text(*self),
    {
        match self {
            DisableCause::BrowserFolder => BROWSER_FOLDER_REASON.to_owned(),
            DisableCause::Feature => FEATURE_REASON.to_owned(),
            DisableCause::ImageFileOptions => intercepted_reason(RUNTIME_EXE_NAME),
        }
    }
}

/// The check for a version under a key.
pub open spec fn version_check(root: RootKey, path: Seq<char>) -> KeyCheckModel<()> {
    KeyCheckModel {
        root,
        path,
        values: seq![
            ValueCheckModel { name: VERSION_VALUE@, kind: ValueKind::Sz, rule: Rule::RealVersion },
        ],
        finding: (),
    }
}

/// The keys that can hold a version, in the order of the search.
pub open spec fn install_table() -> Seq<KeyCheckModel<()>> {
    seq![
        version_check(RootKey::LocalMachine, RUNTIME_WOW64@),
        version_check(RootKey::LocalMachine, RUNTIME_MACHINE@),
        version_check(RootKey::CurrentUser, RUNTIME_USER@),
    ]
}

/// The check of the browser folder.
pub open spec fn folder_value() -> ValueCheckModel {
    ValueCheckModel { name: BROWSER_FOLDER@, kind: ValueKind::Sz, rule: Rule::EmptyText }
}

/// The check of a policy key.
pub open spec fn policy_check(root: RootKey) -> KeyCheckModel<DisableCause> {
    KeyCheckModel {
        root,
        path: POLICY@,
        values: seq![
            folder_value(),
            ValueCheckModel {
                name: CHANNEL_PREFERENCE@,
                kind: ValueKind::Dword,
                rule: Rule::Ignored,
            },
        ],
        finding: DisableCause::BrowserFolder,
    }
}

/// The keys that can disable the runtime, in the order of the search.
pub open spec fn disable_table() -> Seq<KeyCheckModel<DisableCause>> {
    seq![
        policy_check(RootKey::CurrentUser),
        policy_check(RootKey::LocalMachine),
        KeyCheckModel {
            root: RootKey::CurrentUser,
            path: USER_SETTING@,
            values: seq![folder_value()],
            finding: DisableCause::BrowserFolder,
        },
        KeyCheckModel {
            root: RootKey::LocalMachine,
            path: FEATURE@,
            values: seq![
                ValueCheckModel {
                    name: FEATURE_ENABLED@,
                    kind: ValueKind::Dword,
                    rule: Rule::ZeroDword,
                },
            ],
            finding: DisableCause::Feature,
        },
        KeyCheckModel {
            root: RootKey::LocalMachine,
            path: IFEO_PREFIX@ + RUNTIME_EXE@,
            values: seq![
                ValueCheckModel { name: DEBUGGER@, kind: ValueKind::Sz, rule: Rule::NonEmptyText },
            ],
            finding: DisableCause::ImageFileOptions,
        },
    ]
}

/// A key is told by its only value.
proof fn single_value_hit<F>(check: KeyCheckModel<F>, registry: RegistryModel)
    requires
        check.values.len() == 1,
    ensures
        check.hit(registry) == check.value_hit(registry, 0),
{
    if check.value_hit(registry, 0) {
        assert(check.hit(registry));
    }
}

/// The search for a version succeeds exactly where the runtime is installed.
pub proof fn install_search_is_exact(registry: RegistryModel)
    ensures
        first_finding(install_table(), registry, 0) is Some <==> installed(registry),
{
    let table = install_table();
    reveal_with_fuel(first_finding, 4);
    single_value_hit(table[0], registry);
    single_value_hit(table[1], registry);
    single_value_hit(table[2], registry);
}

/// A policy key is told by the browser folder alone.
proof fn policy_hit(root: RootKey, registry: RegistryModel)
    ensures
        policy_check(root).hit(registry) == folder_emptied(registry, root, POLICY@),
{
    let check = policy_check(root);
    assert(!check.value_hit(registry, 1));
    assert(check.value_hit(registry, 0) == folder_emptied(registry, root, POLICY@)) by {
        assert(forall|text: Seq<char>| text.len() == 0 ==> text =~= Seq::<char>::empty());
    }
    if check.value_hit(registry, 0) {
        assert(check.hit(registry));
    }
}

/// The search for a cause finds the one that counts first.
pub proof fn disable_search_is_exact(registry: RegistryModel)
    ensures
        first_finding(disable_table(), registry, 0) == disable_cause(registry),
{
    let table = disable_table();
    reveal_with_fuel(first_finding, 6);
    policy_hit(RootKey::CurrentUser, registry);
    policy_hit(RootKey::LocalMachine, registry);
    single_value_hit(table[2], registry);
    single_value_hit(table[3], registry);
    single_value_hit(table[4], registry);
    assert(table[2].value_hit(registry, 0) == folder_emptied(
        registry,
        RootKey::CurrentUser,
        USER_SETTING@,
    )) by {
        assert(forall|text: Seq<char>| text.len() == 0 ==> text =~= Seq::<char>::empty());
    }
}

/// A check of one value of a key.
fn one_value<F>(
    root: RootKey,
    path: String,
    name: &str,
    kind: ValueKind,
    rule: Rule,
    finding: F,
) -> (check: KeyCheck<F>)
    ensures
        check@ == (KeyCheckModel {
            root,
            path: path@,
            values: seq![ValueCheckModel { name: name@, kind, rule }],
            finding,
        }),
{
    let mut values: Vec<ValueCheck> = Vec::new();
    values.push(ValueCheck { name: name.to_owned(), kind, rule });
    let check = KeyCheck { root, path, values, finding };
    assert(check@.values =~= seq![ValueCheckModel { name: name@, kind, rule }]);
    check
}

/// The check of a policy key.
fn policy_key(root: RootKey) -> (check: KeyCheck<DisableCause>)
    ensures
        check@ == policy_check(root),
{
    let mut values: Vec<ValueCheck> = Vec::new();
    values.push(
        ValueCheck {
            name: BROWSER_FOLDER.to_owned(),
            kind: ValueKind::Sz,
            rule: Rule::EmptyText,
        },
    );
    values.push(
        ValueCheck {
            name: CHANNEL_PREFERENCE.to_owned(),
            kind: ValueKind::Dword,
            rule: Rule::Ignored,
        },
    );
    let check = KeyCheck {
        root,
        path: POLICY.to_owned(),
        values,
        finding: DisableCause::BrowserFolder,
    };
    assert(check@.values =~= policy_check(root).values);
    check
}

/// The keys that can hold a version.
pub fn install_checks() -> (checks: Vec<KeyCheck<()>>)
    ensures
        checks_model(checks@) == install_table(),
{
    let mut checks: Vec<KeyCheck<()>> = Vec::new();
    checks.push(
        one_value(
            RootKey::LocalMachine,
            RUNTIME_WOW64.to_owned(),
            VERSION_VALUE,
            ValueKind::Sz,
            Rule::RealVersion,
            (),
        ),
    );
    checks.push(
        one_value(
            RootKey::LocalMachine,
            RUNTIME_MACHINE.to_owned(),
            VERSION_VALUE,
            ValueKind::Sz,
            Rule::RealVersion,
            (),
        ),
    );
    checks.push(
        one_value(
            RootKey::CurrentUser,
            RUNTIME_USER.to_owned(),
            VERSION_VALUE,
            ValueKind::Sz,
            Rule::RealVersion,
            (),
        ),
    );
    assert(checks_model(checks@) =~= install_table());
    checks
}

/// The keys that can disable the runtime.
pub fn disable_checks() -> (checks: Vec<KeyCheck<DisableCause>>)
    ensures
        checks_model(checks@) == disable_table(),
{
    let mut checks: Vec<KeyCheck<DisableCause>> = Vec::new();
    checks.push(policy_key(RootKey::CurrentUser));
    checks.push(policy_key(RootKey::LocalMachine));
    checks.push(
        one_value(
            RootKey::CurrentUser,
            USER_SETTING.to_owned(),
            BROWSER_FOLDER,
            ValueKind::Sz,
            Rule::EmptyText,
            DisableCause::BrowserFolder,
        ),
    );
    checks.push(
        one_value(
            RootKey::LocalMachine,
            FEATURE.to_owned(),
            FEATURE_ENABLED,
            ValueKind::Dword,
            Rule::ZeroDword,
            DisableCause::Feature,
        ),
    );
    checks.push(
        one_value(
            RootKey::LocalMachine,
            ifeo_path(RUNTIME_EXE),
            DEBUGGER,
            ValueKind::Sz,
            Rule::NonEmptyText,
            DisableCause::ImageFileOptions,
        ),
    );
    assert(checks_model(checks@) =~= disable_table());
    checks
}

} // verus!
