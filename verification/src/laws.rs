//! What holds of the searches as a whole, and of the records, the readings and the
//! replies that they rest on.

use vstd::prelude::*;

use crate::criteria::{
    disable_cause, disable_search_is_exact, disable_table, disabled_reason, ifeo_path,
    install_table, installed, intercepted_reason, version_recorded, DisableCause, BROWSER_FOLDER,
    BROWSER_FOLDER_REASON, CHANNEL_PREFERENCE, DEBUGGER, FEATURE, FEATURE_ENABLED, FEATURE_REASON,
    IFEO_PREFIX, INTERCEPTED_REASON, POLICY, RUNTIME_EXE, RUNTIME_EXE_NAME, RUNTIME_MACHINE,
    RUNTIME_USER, RUNTIME_WOW64, USER_SETTING,
};
use crate::detection::{
    install_reply_keeps_answer, install_search_answers, is_webview2_disabled, is_webview2_installed,
    DisableProbe, InstallModel, InstallProbe,
};
use crate::host::{
    folded, folded_char, key_opens, keys_model, value_read, values_model, ActionModel, DataModel,
    EventModel, HostAction, HostEvent, HostModel, HostSnapshot, KeyModel, KeyRecord, RegistryData, RegistryModel, RootKey, ValueKind,
    ValueRecord,
};
use crate::scan::{
    first_finding, reply_keeps_answer, step_keeps_wf, KeyCheck, KeyCheckModel, RegistryScan, Rule,
    ScanModel, ScanPoint, NO_VERSION,
};

verus! {

/// Where the replies of a host lead a registry search in the end.
pub open spec fn scan_outcome<F>(scan: ScanModel<F>, host: HostModel) -> ScanModel<F>
    decreases scan.keys_left(), scan.values_left(),
    when scan.wf()
    via scan_outcome_ends::<F>
{
    if scan.action() is Some {
        scan_outcome(scan.step(host.reply(scan.action()->0)), host)
    } else {
        scan
    }
}

#[via_fn]
proof fn scan_outcome_ends<F>(scan: ScanModel<F>, host: HostModel) {
    if scan.action() is Some {
        reply_keeps_answer(scan, host);
    }
}

/// Where the replies of a host lead a search for the runtime in the end.
pub open spec fn install_outcome(probe: InstallModel, host: HostModel) -> InstallModel
    decreases probe.stages_left(), probe.places_left(), probe.questions_left(),
    when probe.wf()
    via install_outcome_ends
{
    if probe.action() is Some {
        install_outcome(probe.step(host.reply(probe.action()->0)), host)
    } else {
        probe
    }
}

#[via_fn]
proof fn install_outcome_ends(probe: InstallModel, host: HostModel) {
    if probe.action() is Some {
        install_reply_keeps_answer(probe, host);
    }
}

/// A registry search ends, and with the finding of the first key that has a
/// telling value.
pub proof fn scan_ends_with_answer<F>(scan: ScanModel<F>, host: HostModel)
    requires
        scan.wf(),
    ensures
        scan_outcome(scan, host).point == (ScanPoint::Finished {
            finding: scan.answer(host.registry),
        }),
    decreases scan.keys_left(), scan.values_left(),
{
    if scan.action() is Some {
        reply_keeps_answer(scan, host);
        step_keeps_wf(scan, host.reply(scan.action()->0));
        scan_ends_with_answer(scan.step(host.reply(scan.action()->0)), host);
    }
}

/// A search for the runtime ends, and with what it was to find out.
proof fn install_ends_with_answer(probe: InstallModel, host: HostModel)
    requires
        probe.wf(),
    ensures
        install_outcome(probe, host) == (InstallModel::Finished { found: probe.answer(host) }),
    decreases probe.stages_left(), probe.places_left(), probe.questions_left(),
{
    if probe.action() is Some {
        install_reply_keeps_answer(probe, host);
        install_ends_with_answer(probe.step(host.reply(probe.action()->0)), host);
    }
}

/// On every host the search for the runtime ends, and finds it exactly if it is
/// installed.
pub proof fn install_probe_decides(host: HostModel)
    ensures
        install_outcome(InstallModel::start(), host) == (InstallModel::Finished {
            found: installed(host.registry),
        }),
{
    install_search_answers(host);
    install_ends_with_answer(InstallModel::start(), host);
}

/// On every host the search for a cause ends, and with the cause that counts
/// first, if there is one.
pub proof fn disable_probe_decides(host: HostModel)
    ensures
        scan_outcome(ScanModel::start(disable_table()), host).point == (ScanPoint::Finished {
            finding: disable_cause(host.registry),
        }),
{
    disable_search_is_exact(host.registry);
    scan_ends_with_answer(ScanModel::start(disable_table()), host);
}

/// The event is a reply to the action, whatever it says.
pub open spec fn answers(action: ActionModel, event: EventModel) -> bool {
    match action {
        ActionModel::OpenKey { .. } => event is KeyOpened,
        ActionModel::ReadValue { .. } => event is ValueRead,
        ActionModel::SystemDirectory => event is Directory,
        ActionModel::Wow64Directory => event is Directory,
        ActionModel::FileExists { .. } => event is FileChecked,
    }
}

/// Every reply brings the end of a registry search closer, also on a host that
/// changes while it is asked: no key is opened twice and no value read twice.
pub proof fn scan_moves_on<F>(scan: ScanModel<F>, event: EventModel)
    requires
        scan.wf(),
        scan.action() matches Some(action) && answers(action, event),
    ensures
        decreases_to!(scan.keys_left(), scan.values_left()
            => scan.step(event).keys_left(), scan.step(event).values_left()),
{
}

/// Every reply brings the end of a search for the runtime closer, also on a host
/// that changes while it is asked.
pub proof fn install_probe_moves_on(probe: InstallModel, event: EventModel)
    requires
        probe.wf(),
        probe.action() matches Some(action) && answers(action, event),
    ensures
        probe.step(event).is_closer_than(probe),
{
    if let InstallModel::Registry { scan } = probe {
        scan_moves_on(scan, event);
    }
}

/// The first telling value ends a registry search with the finding of its key:
/// no key that follows is opened.
pub proof fn first_telling_value_decides<F>(scan: ScanModel<F>, reading: Option<DataModel>)
    requires
        scan.wf(),
        scan.point matches ScanPoint::Reading { key, value }
            && scan.checks[key].values[value].rule.holds(reading),
    ensures
        ({
            let next = scan.step(EventModel::ValueRead(reading));
            &&& next.action() is None
            &&& next.point == (ScanPoint::Finished {
                finding: Some(scan.checks[scan.point->Reading_key].finding),
            })
        }),
{
}

/// Once a version was found, no reply whatsoever makes the search fail: neither
/// a missing directory nor a missing library counts against the runtime.
pub proof fn loader_never_counts(probe: InstallModel, event: EventModel)
    requires
        !(probe is Registry),
        probe != (InstallModel::Finished { found: false }),
    ensures
        !(probe.step(event) is Registry),
        probe.step(event) != (InstallModel::Finished { found: false }),
{
}

/// Hosts with the same registry have the same verdict, whatever their
/// directories and files.
pub proof fn only_registry_counts(probe: InstallModel, host: HostModel, other: HostModel)
    requires
        probe.wf(),
        host.registry == other.registry,
    ensures
        install_outcome(probe, host) == install_outcome(probe, other),
{
    install_ends_with_answer(probe, host);
    install_ends_with_answer(probe, other);
}

/// As long as no version was found, the search asks for keys and values alone.
pub proof fn files_are_asked_for_last(probe: InstallModel, event: EventModel)
    requires
        probe.wf(),
        probe is Registry,
    ensures
        probe.action() matches Some(action) && (action is OpenKey || action is ReadValue),
        probe.step(event) is Registry || probe.step(event) == (InstallModel::Finished {
            found: false,
        }) || probe.step(event) is SystemDirectory && probe.action()->0 is ReadValue,
{
}

/// A value is read only in the key that was opened last, and only if it could be
/// opened.
pub proof fn reads_follow_opening<F>(scan: ScanModel<F>, event: EventModel)
    requires
        scan.wf(),
        scan.step(event) != scan,
        scan.step(event).action() matches Some(action) && action is ReadValue,
    ensures
        match scan.action() {
            Some(ActionModel::OpenKey { root, path }) => {
                &&& event == EventModel::KeyOpened(true)
                &&& scan.step(event).action()->0->ReadValue_root == root
                &&& scan.step(event).action()->0->ReadValue_path == path
            },
            Some(ActionModel::ReadValue { root, path, .. }) => {
                &&& scan.step(event).action()->0->ReadValue_root == root
                &&& scan.step(event).action()->0->ReadValue_path == path
            },
            _ => false,
        },
{
}

/// Two registries hold the same under a key.
pub open spec fn same_key(
    registry: RegistryModel,
    other: RegistryModel,
    root: RootKey,
    path: Seq<char>,
) -> bool {
    &&& key_opens(registry, root, path) == key_opens(other, root, path)
    &&& key_opens(registry, root, path) ==> registry[(root, folded(path))] == other[(
        root,
        folded(path),
    )]
}

/// The case of the letters in the name of a key or a value makes no difference
/// to what a host replies.
pub proof fn case_does_not_count(
    host: HostModel,
    root: RootKey,
    path: Seq<char>,
    name: Seq<char>,
    kind: ValueKind,
    other_path: Seq<char>,
    other_name: Seq<char>,
)
    requires
        folded(path) == folded(other_path),
        folded(name) == folded(other_name),
    ensures
        host.reply(ActionModel::OpenKey { root, path }) == host.reply(
            ActionModel::OpenKey { root, path: other_path },
        ),
        host.reply(ActionModel::ReadValue { root, path, name, kind }) == host.reply(
            ActionModel::ReadValue { root, path: other_path, name: other_name, kind },
        ),
{
}

/// Nothing but the three keys of the runtime decides whether it is installed.
pub proof fn installed_depends_on(registry: RegistryModel, other: RegistryModel)
    requires
        same_key(registry, other, RootKey::LocalMachine, RUNTIME_WOW64@),
        same_key(registry, other, RootKey::LocalMachine, RUNTIME_MACHINE@),
        same_key(registry, other, RootKey::CurrentUser, RUNTIME_USER@),
    ensures
        installed(registry) == installed(other),
{
}

/// Nothing but the policies, the setting of the user and the execution options
/// of the runtime's own program decides whether it is disabled, and why. The
/// options of the browser's program in particular do not.
pub proof fn disabled_depends_on(registry: RegistryModel, other: RegistryModel)
    requires
        same_key(registry, other, RootKey::CurrentUser, POLICY@),
        same_key(registry, other, RootKey::LocalMachine, POLICY@),
        same_key(registry, other, RootKey::CurrentUser, USER_SETTING@),
        same_key(registry, other, RootKey::LocalMachine, FEATURE@),
        same_key(registry, other, RootKey::LocalMachine, IFEO_PREFIX@ + RUNTIME_EXE@),
    ensures
        disabled_reason(registry) == disabled_reason(other),
{
}

/// The preferred release channel disables nothing, whatever it is set to.
pub proof fn channel_preference_disables_nothing(registry: RegistryModel, other: RegistryModel)
    requires
        forall|root: RootKey, path: Seq<char>, name: Seq<char>, kind: ValueKind|
            folded(name) != folded(CHANNEL_PREFERENCE@) ==> #[trigger] value_read(
                registry,
                root,
                path,
                name,
                kind,
            ) == value_read(other, root, path, name, kind),
    ensures
        disabled_reason(registry) == disabled_reason(other),
{
    reveal_strlit("ReleaseChannelPreference");
    reveal_strlit("BrowserExecutableFolder");
    reveal_strlit("Enabled");
    reveal_strlit("Debugger");
    assert(folded(BROWSER_FOLDER@).len() != folded(CHANNEL_PREFERENCE@).len());
    assert(folded(FEATURE_ENABLED@).len() != folded(CHANNEL_PREFERENCE@).len());
    assert(folded(DEBUGGER@).len() != folded(CHANNEL_PREFERENCE@).len());
}

/// Where none of its three keys can be opened the runtime is not installed.
pub proof fn not_installed_without_keys(registry: RegistryModel)
    requires
        !key_opens(registry, RootKey::LocalMachine, RUNTIME_WOW64@),
        !key_opens(registry, RootKey::LocalMachine, RUNTIME_MACHINE@),
        !key_opens(registry, RootKey::CurrentUser, RUNTIME_USER@),
    ensures
        !installed(registry),
{
}

/// Where none of the keys that can disable it can be opened the runtime is not
/// disabled.
pub proof fn not_disabled_without_keys(registry: RegistryModel)
    requires
        !key_opens(registry, RootKey::CurrentUser, POLICY@),
        !key_opens(registry, RootKey::LocalMachine, POLICY@),
        !key_opens(registry, RootKey::CurrentUser, USER_SETTING@),
        !key_opens(registry, RootKey::LocalMachine, FEATURE@),
        !key_opens(registry, RootKey::LocalMachine, IFEO_PREFIX@ + RUNTIME_EXE@),
    ensures
        disabled_reason(registry) is None,
{
}

/// Two letters are taken for the same exactly if they are the same or one is a
/// capital from `A` to `Z` and the other its small letter.
pub proof fn letters_agree_but_for_case(c: char, d: char)
    ensures
        folded_char(c) == folded_char(d) <==> {
            ||| c == d
            ||| 'A' <= c <= 'Z' && d as u32 == c as u32 + 32
            ||| 'A' <= d <= 'Z' && c as u32 == d as u32 + 32
        },
{
}

/// Two names are taken for the same exactly if they are equally long and agree
/// letter by letter but for the case of `A` to `Z`.
pub proof fn names_agree_but_for_case(name: Seq<char>, other: Seq<char>)
    ensures
        folded(name) == folded(other) <==> name.len() == other.len() && forall|i: int|
            0 <= i < name.len() ==> {
                ||| #[trigger] name[i] == other[i]
                ||| 'A' <= name[i] <= 'Z' && other[i] as u32 == name[i] as u32 + 32
                ||| 'A' <= other[i] <= 'Z' && name[i] as u32 == other[i] as u32 + 32
            },
{
    if folded(name) == folded(other) {
        assert(folded(name).len() == folded(other).len());
        assert forall|i: int| 0 <= i < name.len() implies {
            ||| #[trigger] name[i] == other[i]
            ||| 'A' <= name[i] <= 'Z' && other[i] as u32 == name[i] as u32 + 32
            ||| 'A' <= other[i] <= 'Z' && name[i] as u32 == other[i] as u32 + 32
        } by {
            assert(folded(name)[i] == folded(other)[i]);
            letters_agree_but_for_case(name[i], other[i]);
        }
    } else if name.len() == other.len() && forall|i: int|
        0 <= i < name.len() ==> {
            ||| #[trigger] name[i] == other[i]
            ||| 'A' <= name[i] <= 'Z' && other[i] as u32 == name[i] as u32 + 32
            ||| 'A' <= other[i] <= 'Z' && name[i] as u32 == other[i] as u32 + 32
        } {
        assert forall|i: int| 0 <= i < name.len() implies folded(name)[i] == folded(other)[i] by {
            assert(name[i] == name[i]);
            letters_agree_but_for_case(name[i], other[i]);
        }
        assert(folded(name) =~= folded(other));
    }
}

/// Every recorded value can be read by its name, wherever it stands among the
/// records of its key, unless an earlier record has the same name.
pub proof fn every_value_is_found(values: Seq<ValueRecord>, i: int)
    requires
        0 <= i < values.len(),
        forall|j: int|
            0 <= j < i ==> folded(#[trigger] values[j].name@) != folded(values[i].name@),
    ensures
        values_model(values).contains_key(folded(values[i].name@)),
        values_model(values)[folded(values[i].name@)] == (match values[i].data {
            RegistryData::Sz(text) => DataModel::Sz(text@),
            RegistryData::Dword(number) => DataModel::Dword(number),
            RegistryData::Other => DataModel::Other,
        }),
    decreases values.len(),
{
    if i > 0 {
        let rest = values.drop_first();
        assert(folded(values[0].name@) != folded(values[i].name@));
        assert forall|j: int| 0 <= j < i - 1 implies folded(#[trigger] rest[j].name@) != folded(
            rest[i - 1].name@,
        ) by {
            assert(rest[j] == values[j + 1]);
        }
        assert(rest[i - 1] == values[i]);
        every_value_is_found(rest, i - 1);
    }
}

/// No value is found that was not recorded.
pub proof fn no_value_is_made_up(values: Seq<ValueRecord>, name: Seq<char>)
    ensures
        values_model(values).contains_key(name) <==> exists|i: int|
            0 <= i < values.len() && folded(#[trigger] values[i].name@) == name,
    decreases values.len(),
{
    if values.len() > 0 {
        let rest = values.drop_first();
        no_value_is_made_up(rest, name);
        if values_model(rest).contains_key(name) {
            let i = choose|i: int|
                0 <= i < rest.len() && folded(#[trigger] rest[i].name@) == name;
            assert(folded(values[i + 1].name@) == name);
        }
        if exists|i: int| 0 <= i < values.len() && folded(#[trigger] values[i].name@) == name {
            let i = choose|i: int|
                0 <= i < values.len() && folded(#[trigger] values[i].name@) == name;
            if i > 0 {
                assert(folded(rest[i - 1].name@) == name);
            }
        }
    }
}

/// Every recorded key can be opened by its path, wherever it stands among the
/// records, and holds what was recorded of it, unless an earlier record is of
/// the same key.
pub proof fn every_key_is_found(keys: Seq<KeyRecord>, i: int)
    requires
        0 <= i < keys.len(),
        forall|j: int|
            0 <= j < i ==> (#[trigger] keys[j]).root != keys[i].root || folded(keys[j].path@)
                != folded(keys[i].path@),
    ensures
        keys_model(keys).contains_key((keys[i].root, folded(keys[i].path@))),
        keys_model(keys)[(keys[i].root, folded(keys[i].path@))] == values_model(keys[i].values@),
    decreases keys.len(),
{
    if i > 0 {
        let rest = keys.drop_first();
        assert(keys[0].root != keys[i].root || folded(keys[0].path@) != folded(keys[i].path@));
        assert forall|j: int| 0 <= j < i - 1 implies (#[trigger] rest[j]).root != rest[i - 1].root
            || folded(rest[j].path@) != folded(rest[i - 1].path@) by {
            assert(rest[j] == keys[j + 1]);
        }
        assert(rest[i - 1] == keys[i]);
        every_key_is_found(rest, i - 1);
    }
}

/// No key can be opened that was not recorded.
pub proof fn no_key_is_made_up(keys: Seq<KeyRecord>, root: RootKey, path: Seq<char>)
    ensures
        keys_model(keys).contains_key((root, path)) <==> exists|i: int|
            0 <= i < keys.len() && (#[trigger] keys[i]).root == root && folded(keys[i].path@)
                == path,
    decreases keys.len(),
{
    if keys.len() > 0 {
        let rest = keys.drop_first();
        no_key_is_made_up(rest, root, path);
        if keys_model(rest).contains_key((root, path)) {
            let i = choose|i: int|
                0 <= i < rest.len() && (#[trigger] rest[i]).root == root && folded(rest[i].path@)
                    == path;
            assert(keys[i + 1] == rest[i]);
        }
        if exists|i: int|
            0 <= i < keys.len() && (#[trigger] keys[i]).root == root && folded(keys[i].path@)
                == path {
            let i = choose|i: int|
                0 <= i < keys.len() && (#[trigger] keys[i]).root == root && folded(keys[i].path@)
                    == path;
            if i > 0 {
                assert(rest[i - 1] == keys[i]);
            }
        }
    }
}

/// A read gives what the registry holds under the key and the name, and only if
/// it is of the kind that was asked for.
pub proof fn reads_give_what_is_there(
    registry: RegistryModel,
    root: RootKey,
    path: Seq<char>,
    name: Seq<char>,
    kind: ValueKind,
    data: DataModel,
)
    ensures
        value_read(registry, root, path, name, kind) == Some(data) <==> {
            &&& registry.contains_key((root, folded(path)))
            &&& registry[(root, folded(path))].contains_key(folded(name))
            &&& registry[(root, folded(path))][folded(name)] == data
            &&& kind == ValueKind::Sz ==> data is Sz
            &&& kind == ValueKind::Dword ==> data is Dword
        },
{
}

/// A rule is met by exactly the readings that it is named after, whatever their
/// length and their characters.
pub proof fn rules_mean_what_they_say(rule: Rule, reading: Option<RegistryData>, met: bool)
    requires
        call_ensures(Rule::is_met, (&rule, &reading), met),
    ensures
        met <==> match rule {
            Rule::RealVersion => reading matches Some(RegistryData::Sz(text)) && text@.len() > 0
                && text@ != "0.0.0.0"@,
            Rule::EmptyText => reading matches Some(RegistryData::Sz(text)) && text@.len() == 0,
            Rule::NonEmptyText => reading matches Some(RegistryData::Sz(text)) && text@.len() > 0,
            Rule::ZeroDword => reading matches Some(RegistryData::Dword(number)) && number == 0,
            Rule::Ignored => false,
        },
{
}

/// The runtime is installed exactly if one of its three keys can be opened and
/// holds a string `pv` that is neither empty nor `0.0.0.0`, whatever its length
/// and its characters.
pub proof fn installed_by_a_version(registry: RegistryModel)
    ensures
        ({
            let version_at = |root: RootKey, path: Seq<char>|
                {
                    &&& registry.contains_key((root, folded(path)))
                    &&& registry[(root, folded(path))].contains_key(folded("pv"@))
                    &&& registry[(root, folded(path))][folded("pv"@)] matches DataModel::Sz(version)
                    &&& version.len() > 0
                    &&& version != "0.0.0.0"@
                };
            installed(registry) <==> {
                ||| version_at(
                    RootKey::LocalMachine,
                    "SOFTWARE\\WOW6432Node\\Microsoft\\EdgeUpdate\\Clients\\{F3017226-FE2A-4295-8BDF-00C3A9A7E4C5}"@,
                )
                ||| version_at(
                    RootKey::LocalMachine,
                    "SOFTWARE\\Microsoft\\EdgeUpdate\\Clients\\{F3017226-FE2A-4295-8BDF-00C3A9A7E4C5}"@,
                )
                ||| version_at(
                    RootKey::CurrentUser,
                    "Software\\Microsoft\\EdgeUpdate\\Clients\\{F3017226-FE2A-4295-8BDF-00C3A9A7E4C5}"@,
                )
            }
        }),
{
}

/// A key of any other path does not make the runtime installed, that of another
/// product in particular.
pub proof fn other_products_do_not_count(root: RootKey, path: Seq<char>, key: KeyModel)
    requires
        folded(path) != folded(
            "SOFTWARE\\WOW6432Node\\Microsoft\\EdgeUpdate\\Clients\\{F3017226-FE2A-4295-8BDF-00C3A9A7E4C5}"@,
        ),
        folded(path) != folded(
            "SOFTWARE\\Microsoft\\EdgeUpdate\\Clients\\{F3017226-FE2A-4295-8BDF-00C3A9A7E4C5}"@,
        ),
        folded(path) != folded(
            "Software\\Microsoft\\EdgeUpdate\\Clients\\{F3017226-FE2A-4295-8BDF-00C3A9A7E4C5}"@,
        ),
    ensures
        !installed(Map::empty().insert((root, folded(path)), key)),
{
}

/// Why the runtime is disabled, by what the registry holds: a browser folder
/// that is a string of length zero under one of three keys, then the number zero
/// for the feature, then any string of at least one character for the debugger
/// of the runtime's program; and not at all without any of these.
pub proof fn disabled_by_what_is_set(registry: RegistryModel)
    ensures
        ({
            let holds = |
                root: RootKey,
                path: Seq<char>,
                name: Seq<char>,
                test: spec_fn(DataModel) -> bool,
            |
                {
                    &&& registry.contains_key((root, folded(path)))
                    &&& registry[(root, folded(path))].contains_key(folded(name))
                    &&& test(registry[(root, folded(path))][folded(name)])
                };
            let empty = |data: DataModel| data matches DataModel::Sz(text) && text.len() == 0;
            let filled = |data: DataModel| data matches DataModel::Sz(text) && text.len() > 0;
            let zero = |data: DataModel| data matches DataModel::Dword(number) && number == 0;
            let policy = "Software\\Policies\\Microsoft\\Edge\\WebView2"@;
            let setting = "Software\\Microsoft\\Edge\\WebView2"@;
            let folder = {
                ||| holds(RootKey::CurrentUser, policy, "BrowserExecutableFolder"@, empty)
                ||| holds(RootKey::LocalMachine, policy, "BrowserExecutableFolder"@, empty)
                ||| holds(RootKey::CurrentUser, setting, "BrowserExecutableFolder"@, empty)
            };
            let feature = holds(
                RootKey::LocalMachine,
                "SOFTWARE\\Policies\\Microsoft\\EdgeWebView"@,
                "Enabled"@,
                zero,
            );
            let debugger = holds(
                RootKey::LocalMachine,
                "SOFTWARE\\Microsoft\\Windows NT\\CurrentVersion\\Image File Execution Options\\"@
                    + "msedgewebview2.exe"@,
                "Debugger"@,
                filled,
            );
            let folder_text = "通过组策略禁用 (BrowserExecutableFolder 为空)"@;
            let feature_text = "WebView2 已被组策略禁用"@;
            let debugger_text = "WebView2 进程 (msedgewebview2.exe)"@
                + " 已被 IFEO 禁用\r\n(可能使用了 Edge Blocker 等工具)"@;
            &&& folder <==> disabled_reason(registry) == Some(folder_text)
            &&& !folder && feature <==> disabled_reason(registry) == Some(feature_text)
            &&& !folder && !feature && debugger <==> disabled_reason(registry) == Some(
                debugger_text,
            )
            &&& !folder && !feature && !debugger <==> disabled_reason(registry) is None
        }),
{
    reveal_strlit("通过组策略禁用 (BrowserExecutableFolder 为空)");
    reveal_strlit("WebView2 已被组策略禁用");
    reveal_strlit("WebView2 进程 (msedgewebview2.exe)");
    reveal_strlit(" 已被 IFEO 禁用\r\n(可能使用了 Edge Blocker 等工具)");
    assert(forall|text: Seq<char>| text.len() == 0 ==> text =~= Seq::<char>::empty());
    assert(BROWSER_FOLDER_REASON@.len() != FEATURE_REASON@.len());
    assert(BROWSER_FOLDER_REASON@.len() != (RUNTIME_EXE_NAME@ + INTERCEPTED_REASON@).len());
    assert(FEATURE_REASON@.len() != (RUNTIME_EXE_NAME@ + INTERCEPTED_REASON@).len());
}

/// A recorded host opens a key exactly if one of its records is of that key.
pub proof fn recorded_keys_open(
    host: HostSnapshot,
    root: RootKey,
    path: String,
    event: HostEvent,
)
    requires
        call_ensures(HostSnapshot::reply, (&host, &HostAction::OpenKey { root, path }), event),
    ensures
        event matches HostEvent::KeyOpened(opened) && (opened <==> exists|i: int|
            0 <= i < host.keys@.len() && (#[trigger] host.keys@[i]).root == root && folded(
                host.keys@[i].path@,
            ) == folded(path@)),
{
    let action = HostAction::OpenKey { root, path };
    assert(event@ == host@.reply(action@));
    no_key_is_made_up(host.keys@, root, folded(path@));
}

/// A read of a recorded host gives the data of the first record of the name in
/// the first record of the key, if it is of the kind that was asked for. It does
/// not matter what else was recorded, nor where.
pub proof fn recorded_values_are_read(
    host: HostSnapshot,
    root: RootKey,
    path: String,
    name: String,
    kind: ValueKind,
    event: HostEvent,
    i: int,
    j: int,
)
    requires
        call_ensures(
            HostSnapshot::reply,
            (&host, &HostAction::ReadValue { root, path, name, kind }),
            event,
        ),
        0 <= i < host.keys@.len(),
        host.keys@[i].root == root,
        folded(host.keys@[i].path@) == folded(path@),
        forall|k: int|
            0 <= k < i ==> (#[trigger] host.keys@[k]).root != root || folded(host.keys@[k].path@)
                != folded(path@),
        0 <= j < host.keys@[i].values@.len(),
        folded(host.keys@[i].values@[j].name@) == folded(name@),
        forall|k: int|
            0 <= k < j ==> folded(#[trigger] host.keys@[i].values@[k].name@) != folded(name@),
    ensures
        event matches HostEvent::ValueRead(reading) && match host.keys@[i].values@[j].data {
            RegistryData::Sz(text) => if kind == ValueKind::Sz {
                reading matches Some(RegistryData::Sz(read)) && read@ == text@
            } else {
                reading is None
            },
            RegistryData::Dword(number) => if kind == ValueKind::Dword {
                reading matches Some(RegistryData::Dword(read)) && read == number
            } else {
                reading is None
            },
            RegistryData::Other => reading is None,
        },
{
    let action = HostAction::ReadValue { root, path, name, kind };
    assert(event@ == host@.reply(action@));
    every_key_is_found(host.keys@, i);
    every_value_is_found(host.keys@[i].values@, j);
}

/// A read of a recorded host gives nothing that was not recorded.
pub proof fn unrecorded_values_are_not_read(
    host: HostSnapshot,
    root: RootKey,
    path: String,
    name: String,
    kind: ValueKind,
    event: HostEvent,
)
    requires
        call_ensures(
            HostSnapshot::reply,
            (&host, &HostAction::ReadValue { root, path, name, kind }),
            event,
        ),
        forall|i: int, j: int|
            #![trigger host.keys@[i].values@[j]]
            0 <= i < host.keys@.len() && 0 <= j < host.keys@[i].values@.len() && host.keys@[i].root
                == root && folded(host.keys@[i].path@) == folded(path@) ==> folded(
                host.keys@[i].values@[j].name@,
            ) != folded(name@),
    ensures
        event matches HostEvent::ValueRead(reading) && reading is None,
{
    let action = HostAction::ReadValue { root, path, name, kind };
    assert(event@ == host@.reply(action@));
    recorded_value(host, root, path@, name@, kind);
}

/// A recorded host has the directories and the files that were recorded.
pub proof fn recorded_files_exist(
    host: HostSnapshot,
    dir: String,
    file: String,
    system: HostEvent,
    wow64: HostEvent,
    there: HostEvent,
)
    requires
        call_ensures(HostSnapshot::reply, (&host, &HostAction::SystemDirectory), system),
        call_ensures(HostSnapshot::reply, (&host, &HostAction::Wow64Directory), wow64),
        call_ensures(HostSnapshot::reply, (&host, &HostAction::FileExists { dir, file }), there),
    ensures
        system matches HostEvent::Directory(reply) && match host.system_dir {
            Some(recorded) => reply matches Some(dir) && dir@ == recorded@,
            None => reply is None,
        },
        wow64 matches HostEvent::Directory(reply) && match host.wow64_dir {
            Some(recorded) => reply matches Some(dir) && dir@ == recorded@,
            None => reply is None,
        },
        there matches HostEvent::FileChecked(there_is) && (there_is <==> exists|i: int|
            0 <= i < host.files@.len() && folded((#[trigger] host.files@[i]).dir@) == folded(dir@)
                && folded(host.files@[i].file@) == folded(file@)),
{
    let action = HostAction::FileExists { dir, file };
    assert(there@ == host@.reply(action@));
    assert(system@ == host@.reply(HostAction::SystemDirectory@));
    assert(wow64@ == host@.reply(HostAction::Wow64Directory@));
    if exists|i: int|
        0 <= i < host.files@.len() && folded((#[trigger] host.files@[i]).dir@) == folded(dir@)
            && folded(host.files@[i].file@) == folded(file@) {
        let i = choose|i: int|
            0 <= i < host.files@.len() && folded((#[trigger] host.files@[i]).dir@) == folded(dir@)
                && folded(host.files@[i].file@) == folded(file@);
        assert(host.files@[i].dir@ == host.files@[i].dir@);
        assert(host@.files.contains((folded(dir@), folded(file@))));
    }
}

/// The first record of a key, if there is one.
proof fn first_key(keys: Seq<KeyRecord>, root: RootKey, path: Seq<char>) -> (i: int)
    requires
        exists|i: int|
            0 <= i < keys.len() && (#[trigger] keys[i]).root == root && folded(keys[i].path@)
                == path,
    ensures
        0 <= i < keys.len(),
        keys[i].root == root,
        folded(keys[i].path@) == path,
        forall|j: int|
            0 <= j < i ==> (#[trigger] keys[j]).root != root || folded(keys[j].path@) != path,
    decreases keys.len(),
{
    if keys[0].root == root && folded(keys[0].path@) == path {
        0
    } else {
        let rest = keys.drop_first();
        let k = choose|i: int|
            0 <= i < keys.len() && (#[trigger] keys[i]).root == root && folded(keys[i].path@)
                == path;
        assert(rest[k - 1] == keys[k]);
        let i = first_key(rest, root, path);
        assert forall|j: int| 0 <= j < i + 1 implies (#[trigger] keys[j]).root != root || folded(
            keys[j].path@,
        ) != path by {
            if j > 0 {
                assert(rest[j - 1] == keys[j]);
            }
        }
        i + 1
    }
}

/// The first record of a value, if there is one.
proof fn first_value(values: Seq<ValueRecord>, name: Seq<char>) -> (i: int)
    requires
        exists|i: int| 0 <= i < values.len() && folded(#[trigger] values[i].name@) == name,
    ensures
        0 <= i < values.len(),
        folded(values[i].name@) == name,
        forall|j: int| 0 <= j < i ==> folded(#[trigger] values[j].name@) != name,
    decreases values.len(),
{
    if folded(values[0].name@) == name {
        0
    } else {
        let rest = values.drop_first();
        let k = choose|i: int|
            0 <= i < values.len() && folded(#[trigger] values[i].name@) == name;
        assert(rest[k - 1] == values[k]);
        assert(folded(rest[k - 1].name@) == name);
        let i = first_value(rest, name);
        assert forall|j: int| 0 <= j < i + 1 implies folded(#[trigger] values[j].name@)
            != name by {
            if j > 0 {
                assert(rest[j - 1] == values[j]);
            }
        }
        i + 1
    }
}

/// The record at `i` and `j` is the first of the key and of the name in it, and
/// of the kind.
spec fn record_at(
    host: HostSnapshot,
    root: RootKey,
    path: Seq<char>,
    name: Seq<char>,
    kind: ValueKind,
    i: int,
    j: int,
) -> bool {
    &&& 0 <= i < host.keys@.len()
    &&& host.keys@[i].root == root
    &&& folded(host.keys@[i].path@) == folded(path)
    &&& forall|k: int|
        0 <= k < i ==> (#[trigger] host.keys@[k]).root != root || folded(host.keys@[k].path@)
            != folded(path)
    &&& 0 <= j < host.keys@[i].values@.len()
    &&& folded(host.keys@[i].values@[j].name@) == folded(name)
    &&& forall|k: int|
        0 <= k < j ==> folded(#[trigger] host.keys@[i].values@[k].name@) != folded(name)
    &&& host.keys@[i].values@[j].data@.is_of(kind)
}

/// A read of a recorded host gives the data of the record, if there is one.
proof fn recorded_value(
    host: HostSnapshot,
    root: RootKey,
    path: Seq<char>,
    name: Seq<char>,
    kind: ValueKind,
)
    ensures
        match value_read(host@.registry, root, path, name, kind) {
            Some(data) => exists|i: int, j: int| #[trigger]
                record_at(host, root, path, name, kind, i, j) && host.keys@[i].values@[j].data@
                    == data,
            None => forall|i: int, j: int| !#[trigger]
                record_at(host, root, path, name, kind, i, j),
        },
        forall|i: int, j: int| #[trigger]
            record_at(host, root, path, name, kind, i, j) ==> value_read(
                host@.registry,
                root,
                path,
                name,
                kind,
            ) == Some(host.keys@[i].values@[j].data@),
{
    no_key_is_made_up(host.keys@, root, folded(path));
    assert forall|i: int, j: int| #[trigger]
        record_at(host, root, path, name, kind, i, j) implies value_read(
        host@.registry,
        root,
        path,
        name,
        kind,
    ) == Some(host.keys@[i].values@[j].data@) by {
        every_key_is_found(host.keys@, i);
        every_value_is_found(host.keys@[i].values@, j);
    }
    if value_read(host@.registry, root, path, name, kind) is Some {
        let i = first_key(host.keys@, root, folded(path));
        every_key_is_found(host.keys@, i);
        no_value_is_made_up(host.keys@[i].values@, folded(name));
        let j = first_value(host.keys@[i].values@, folded(name));
        every_value_is_found(host.keys@[i].values@, j);
        assert(record_at(host, root, path, name, kind, i, j));
    }
}

/// The verdicts on a recorded host are those on the registry that its records of
/// keys describe, in words where there are any.
pub proof fn verdicts_are_on_the_records(
    host: HostSnapshot,
    present: bool,
    reason: Option<String>,
)
    requires
        call_ensures(is_webview2_installed, (&host,), present),
        call_ensures(is_webview2_disabled, (&host,), reason),
    ensures
        present == installed(keys_model(host.keys@)),
        match reason {
            Some(text) => disabled_reason(keys_model(host.keys@)) == Some(text@),
            None => disabled_reason(keys_model(host.keys@)) is None,
        },
{
}

/// On a recorded host the runtime is installed exactly if the first record of
/// one of its three keys has a first record of `pv` that is a string, and
/// neither empty nor `0.0.0.0`.
pub proof fn installed_by_the_records(host: HostSnapshot, present: bool)
    requires
        call_ensures(is_webview2_installed, (&host,), present),
    ensures
        present <==> exists|i: int, j: int|
            #![trigger host.keys@[i].values@[j]]
            {
                let key = host.keys@[i];
                &&& 0 <= i < host.keys@.len()
                &&& 0 <= j < key.values@.len()
                &&& {
                    ||| key.root == RootKey::LocalMachine && folded(key.path@) == folded(
                        "SOFTWARE\\WOW6432Node\\Microsoft\\EdgeUpdate\\Clients\\{F3017226-FE2A-4295-8BDF-00C3A9A7E4C5}"@,
                    )
                    ||| key.root == RootKey::LocalMachine && folded(key.path@) == folded(
                        "SOFTWARE\\Microsoft\\EdgeUpdate\\Clients\\{F3017226-FE2A-4295-8BDF-00C3A9A7E4C5}"@,
                    )
                    ||| key.root == RootKey::CurrentUser && folded(key.path@) == folded(
                        "Software\\Microsoft\\EdgeUpdate\\Clients\\{F3017226-FE2A-4295-8BDF-00C3A9A7E4C5}"@,
                    )
                }
                &&& forall|k: int|
                    0 <= k < i ==> (#[trigger] host.keys@[k]).root != key.root || folded(
                        host.keys@[k].path@,
                    ) != folded(key.path@)
                &&& folded(key.values@[j].name@) == folded("pv"@)
                &&& forall|k: int|
                    0 <= k < j ==> folded(#[trigger] key.values@[k].name@) != folded("pv"@)
                &&& key.values@[j].data matches RegistryData::Sz(version)
                &&& version@.len() > 0
                &&& version@ != "0.0.0.0"@
            },
{
    let sz = ValueKind::Sz;
    recorded_value(host, RootKey::LocalMachine, RUNTIME_WOW64@, "pv"@, sz);
    recorded_value(host, RootKey::LocalMachine, RUNTIME_MACHINE@, "pv"@, sz);
    recorded_value(host, RootKey::CurrentUser, RUNTIME_USER@, "pv"@, sz);
    assert forall|i: int, j: int|
        #![trigger host.keys@[i].values@[j]]
        {
            let key = host.keys@[i];
            &&& 0 <= i < host.keys@.len()
            &&& 0 <= j < key.values@.len()
            &&& {
                ||| key.root == RootKey::LocalMachine && folded(key.path@) == folded(
                    RUNTIME_WOW64@,
                )
                ||| key.root == RootKey::LocalMachine && folded(key.path@) == folded(
                    RUNTIME_MACHINE@,
                )
                ||| key.root == RootKey::CurrentUser && folded(key.path@) == folded(RUNTIME_USER@)
            }
            &&& forall|k: int|
                0 <= k < i ==> (#[trigger] host.keys@[k]).root != key.root || folded(
                    host.keys@[k].path@,
                ) != folded(key.path@)
            &&& folded(key.values@[j].name@) == folded("pv"@)
            &&& forall|k: int|
                0 <= k < j ==> folded(#[trigger] key.values@[k].name@) != folded("pv"@)
            &&& key.values@[j].data matches RegistryData::Sz(version)
            &&& version@.len() > 0
            &&& version@ != NO_VERSION@
        } implies present by {
        let root = host.keys@[i].root;
        if root == RootKey::LocalMachine && folded(host.keys@[i].path@) == folded(
            RUNTIME_WOW64@,
        ) {
            assert(record_at(host, root, RUNTIME_WOW64@, "pv"@, sz, i, j));
        } else if root == RootKey::LocalMachine {
            assert(record_at(host, root, RUNTIME_MACHINE@, "pv"@, sz, i, j));
        } else {
            assert(record_at(host, root, RUNTIME_USER@, "pv"@, sz, i, j));
        }
    }
    if present {
        let (root, path) = if version_recorded(
            host@.registry,
            RootKey::LocalMachine,
            RUNTIME_WOW64@,
        ) {
            (RootKey::LocalMachine, RUNTIME_WOW64@)
        } else if version_recorded(host@.registry, RootKey::LocalMachine, RUNTIME_MACHINE@) {
            (RootKey::LocalMachine, RUNTIME_MACHINE@)
        } else {
            (RootKey::CurrentUser, RUNTIME_USER@)
        };
        let (i, j) = choose|i: int, j: int| #[trigger]
            record_at(host, root, path, "pv"@, sz, i, j) && host.keys@[i].values@[j].data@
                == value_read(host@.registry, root, path, "pv"@, sz)->0;
        assert(record_at(host, root, path, "pv"@, sz, i, j));
        assert(host.keys@[i].values@[j].data is Sz);
    }
}

/// The keys of the runtime are opened one after another, and `pv` is read in
/// each that could be opened. The search fails if the last could not be.
pub proof fn install_probe_opens_keys(
    start: InstallProbe,
    first: Option<HostAction>,
    probe: InstallProbe,
    root: RootKey,
    path: String,
    opened: bool,
    next: InstallProbe,
    action: Option<HostAction>,
    found: bool,
)
    requires
        call_ensures(InstallProbe::start, (), start),
        call_ensures(InstallProbe::action, (&start,), first),
        call_ensures(
            InstallProbe::action,
            (&probe,),
            Some(HostAction::OpenKey { root, path }),
        ),
        call_ensures(InstallProbe::step, (probe, HostEvent::KeyOpened(opened)), next),
        call_ensures(InstallProbe::action, (&next,), action),
        call_ensures(InstallProbe::found, (&next,), found),
    ensures
        ({
            let keys = seq![
                (
                    RootKey::LocalMachine,
                    "SOFTWARE\\WOW6432Node\\Microsoft\\EdgeUpdate\\Clients\\{F3017226-FE2A-4295-8BDF-00C3A9A7E4C5}"@,
                ),
                (
                    RootKey::LocalMachine,
                    "SOFTWARE\\Microsoft\\EdgeUpdate\\Clients\\{F3017226-FE2A-4295-8BDF-00C3A9A7E4C5}"@,
                ),
                (
                    RootKey::CurrentUser,
                    "Software\\Microsoft\\EdgeUpdate\\Clients\\{F3017226-FE2A-4295-8BDF-00C3A9A7E4C5}"@,
                ),
            ];
            &&& first matches Some(HostAction::OpenKey { root: r, path: p }) && (r, p@) == keys[0]
            &&& exists|k: int|
                0 <= k < 3 && #[trigger] keys[k] == (root, path@) && if opened {
                    action matches Some(HostAction::ReadValue { root: r, path: p, name, kind })
                        && (r, p@) == keys[k] && name@ == "pv"@ && kind == ValueKind::Sz
                } else if k < 2 {
                    action matches Some(HostAction::OpenKey { root: r, path: p }) && (r, p@)
                        == keys[k + 1]
                } else {
                    action is None
                }
            &&& !found
        }),
{
    let table = install_table();
    let event = HostEvent::KeyOpened(opened);
    assert(next@ == probe@.step(event@));
    assert(probe@.action() == Some(ActionModel::OpenKey { root, path: path@ }));
    let keys = seq![
        (RootKey::LocalMachine, RUNTIME_WOW64@),
        (RootKey::LocalMachine, RUNTIME_MACHINE@),
        (RootKey::CurrentUser, RUNTIME_USER@),
    ];
    match probe@ {
        InstallModel::Registry { scan } => {
            let k = scan.point->Opening_key;
            assert(keys[k] == (root, path@));
            assert(keys[k] == (table[k].root, table[k].path));
        },
        _ => {},
    }
}

/// A version that is neither empty nor `0.0.0.0` ends the search of the
/// registry, whatever its length and its characters. Any other reading leads to
/// the next key, or to failure after the last.
pub proof fn install_probe_reads_versions(
    probe: InstallProbe,
    root: RootKey,
    path: String,
    name: String,
    kind: ValueKind,
    reading: Option<RegistryData>,
    next: InstallProbe,
    action: Option<HostAction>,
    found: bool,
)
    requires
        call_ensures(
            InstallProbe::action,
            (&probe,),
            Some(HostAction::ReadValue { root, path, name, kind }),
        ),
        call_ensures(InstallProbe::step, (probe, HostEvent::ValueRead(reading)), next),
        call_ensures(InstallProbe::action, (&next,), action),
        call_ensures(InstallProbe::found, (&next,), found),
    ensures
        ({
            let keys = seq![
                (
                    RootKey::LocalMachine,
                    "SOFTWARE\\WOW6432Node\\Microsoft\\EdgeUpdate\\Clients\\{F3017226-FE2A-4295-8BDF-00C3A9A7E4C5}"@,
                ),
                (
                    RootKey::LocalMachine,
                    "SOFTWARE\\Microsoft\\EdgeUpdate\\Clients\\{F3017226-FE2A-4295-8BDF-00C3A9A7E4C5}"@,
                ),
                (
                    RootKey::CurrentUser,
                    "Software\\Microsoft\\EdgeUpdate\\Clients\\{F3017226-FE2A-4295-8BDF-00C3A9A7E4C5}"@,
                ),
            ];
            let telling = reading matches Some(RegistryData::Sz(version)) && version@.len() > 0
                && version@ != "0.0.0.0"@;
            &&& name@ == "pv"@
            &&& kind == ValueKind::Sz
            &&& exists|k: int|
                0 <= k < 3 && #[trigger] keys[k] == (root, path@) && if telling {
                    action == Some(HostAction::SystemDirectory)
                } else if k < 2 {
                    action matches Some(HostAction::OpenKey { root: r, path: p }) && (r, p@)
                        == keys[k + 1]
                } else {
                    action is None
                }
            &&& !found
        }),
{
    let table = install_table();
    let event = HostEvent::ValueRead(reading);
    assert(next@ == probe@.step(event@));
    assert(probe@.action() == Some(
        ActionModel::ReadValue { root, path: path@, name: name@, kind },
    ));
    let keys = seq![
        (RootKey::LocalMachine, RUNTIME_WOW64@),
        (RootKey::LocalMachine, RUNTIME_MACHINE@),
        (RootKey::CurrentUser, RUNTIME_USER@),
    ];
    match probe@ {
        InstallModel::Registry { scan } => {
            let k = scan.point->Reading_key;
            assert(keys[k] == (root, path@));
            assert(keys[k] == (table[k].root, table[k].path));
            assert(table[k].values.len() == 1);
        },
        _ => {},
    }
}

/// After a version was found, the two system directories are looked up, and
/// `WebView2Loader.dll` is looked for in those that there are, one after another
/// until it is found. The search succeeds in any case.
pub proof fn install_probe_looks_for_the_loader(
    probe: InstallProbe,
    system: Option<String>,
    looked_up: InstallProbe,
    second: Option<HostAction>,
    wow64: Option<String>,
    searching: InstallProbe,
    third: Option<HostAction>,
    searching_found: bool,
    there: bool,
    later: InstallProbe,
    fourth: Option<HostAction>,
    later_found: bool,
    there_then: bool,
    last: InstallProbe,
    fifth: Option<HostAction>,
    last_found: bool,
)
    requires
        call_ensures(InstallProbe::action, (&probe,), Some(HostAction::SystemDirectory)),
        call_ensures(InstallProbe::step, (probe, HostEvent::Directory(system)), looked_up),
        call_ensures(InstallProbe::action, (&looked_up,), second),
        call_ensures(InstallProbe::step, (looked_up, HostEvent::Directory(wow64)), searching),
        call_ensures(InstallProbe::action, (&searching,), third),
        call_ensures(InstallProbe::found, (&searching,), searching_found),
        call_ensures(InstallProbe::step, (searching, HostEvent::FileChecked(there)), later),
        call_ensures(InstallProbe::action, (&later,), fourth),
        call_ensures(InstallProbe::found, (&later,), later_found),
        call_ensures(InstallProbe::step, (later, HostEvent::FileChecked(there_then)), last),
        call_ensures(InstallProbe::action, (&last,), fifth),
        call_ensures(InstallProbe::found, (&last,), last_found),
    ensures
        second == Some(HostAction::Wow64Directory),
        match (system, wow64) {
            (Some(one), Some(two)) => {
                &&& third matches Some(HostAction::FileExists { dir, file }) && dir@ == one@
                    && file@ == "WebView2Loader.dll"@
                &&& !searching_found
                &&& there ==> fourth is None && later_found
                &&& !there ==> !later_found && (fourth matches Some(
                    HostAction::FileExists { dir, file },
                ) && dir@ == two@ && file@ == "WebView2Loader.dll"@)
                &&& fifth is None
                &&& last_found
            },
            (Some(one), None) => {
                &&& third matches Some(HostAction::FileExists { dir, file }) && dir@ == one@
                    && file@ == "WebView2Loader.dll"@
                &&& !searching_found
                &&& fourth is None
                &&& later_found
            },
            (None, Some(two)) => {
                &&& third matches Some(HostAction::FileExists { dir, file }) && dir@ == two@
                    && file@ == "WebView2Loader.dll"@
                &&& !searching_found
                &&& fourth is None
                &&& later_found
            },
            (None, None) => {
                &&& third is None
                &&& searching_found
            },
        },
{
    let first_event = HostEvent::Directory(system);
    let second_event = HostEvent::Directory(wow64);
    let third_event = HostEvent::FileChecked(there);
    let fourth_event = HostEvent::FileChecked(there_then);
    assert(probe@.action() == Some(ActionModel::SystemDirectory));
    assert(probe@ == InstallModel::SystemDirectory);
    assert(looked_up@ == probe@.step(first_event@));
    assert(searching@ == looked_up@.step(second_event@));
    assert(later@ == searching@.step(third_event@));
    assert(last@ == later@.step(fourth_event@));
}

/// A search that has something left to ask has not found the runtime, and one
/// that has found it has nothing left to ask.
pub proof fn install_probe_finds_at_the_end(
    probe: InstallProbe,
    action: Option<HostAction>,
    found: bool,
)
    requires
        call_ensures(InstallProbe::action, (&probe,), action),
        call_ensures(InstallProbe::found, (&probe,), found),
    ensures
        action is Some ==> !found,
        found ==> action is None,
{
}

/// The keys that can disable the runtime are opened one after another, and the
/// first of their values is read in each that could be opened. Nothing disables
/// it if the last could not be.
pub proof fn disable_probe_opens_keys(
    start: DisableProbe,
    first: Option<HostAction>,
    probe: DisableProbe,
    root: RootKey,
    path: String,
    opened: bool,
    next: DisableProbe,
    action: Option<HostAction>,
    reason: Option<String>,
)
    requires
        call_ensures(DisableProbe::start, (), start),
        call_ensures(DisableProbe::action, (&start,), first),
        call_ensures(
            DisableProbe::action,
            (&probe,),
            Some(HostAction::OpenKey { root, path }),
        ),
        call_ensures(DisableProbe::step, (probe, HostEvent::KeyOpened(opened)), next),
        call_ensures(DisableProbe::action, (&next,), action),
        call_ensures(DisableProbe::reason, (&next,), reason),
    ensures
        ({
            let keys = seq![
                (RootKey::CurrentUser, "Software\\Policies\\Microsoft\\Edge\\WebView2"@),
                (RootKey::LocalMachine, "Software\\Policies\\Microsoft\\Edge\\WebView2"@),
                (RootKey::CurrentUser, "Software\\Microsoft\\Edge\\WebView2"@),
                (RootKey::LocalMachine, "SOFTWARE\\Policies\\Microsoft\\EdgeWebView"@),
                (
                    RootKey::LocalMachine,
                    "SOFTWARE\\Microsoft\\Windows NT\\CurrentVersion\\Image File Execution Options\\"@
                        + "msedgewebview2.exe"@,
                ),
            ];
            let values = seq![
                ("BrowserExecutableFolder"@, ValueKind::Sz),
                ("BrowserExecutableFolder"@, ValueKind::Sz),
                ("BrowserExecutableFolder"@, ValueKind::Sz),
                ("Enabled"@, ValueKind::Dword),
                ("Debugger"@, ValueKind::Sz),
            ];
            &&& first matches Some(HostAction::OpenKey { root: r, path: p }) && (r, p@) == keys[0]
            &&& exists|k: int|
                0 <= k < 5 && #[trigger] keys[k] == (root, path@) && if opened {
                    action matches Some(HostAction::ReadValue { root: r, path: p, name, kind })
                        && (r, p@) == keys[k] && (name@, kind) == values[k]
                } else if k < 4 {
                    action matches Some(HostAction::OpenKey { root: r, path: p }) && (r, p@)
                        == keys[k + 1]
                } else {
                    action is None
                }
            &&& reason is None
        }),
{
    let table = disable_table();
    let event = HostEvent::KeyOpened(opened);
    assert(next@ == probe@.step(event@));
    assert(probe@.action() == Some(ActionModel::OpenKey { root, path: path@ }));
    let keys = seq![
        (RootKey::CurrentUser, POLICY@),
        (RootKey::LocalMachine, POLICY@),
        (RootKey::CurrentUser, USER_SETTING@),
        (RootKey::LocalMachine, FEATURE@),
        (RootKey::LocalMachine, IFEO_PREFIX@ + RUNTIME_EXE@),
    ];
    let k = probe@.point->Opening_key;
    assert(keys[k] == (root, path@));
    assert(keys[k] == (table[k].root, table[k].path));
}

/// A browser folder that is a string of length zero, a feature that is the
/// number zero and a debugger that is a string of at least one character end the
/// search, each with its own reason. Any other reading, and any of the preferred
/// release channel, leads on to the next value or key, or to the end without a
/// reason.
pub proof fn disable_probe_reads_values(
    probe: DisableProbe,
    root: RootKey,
    path: String,
    name: String,
    kind: ValueKind,
    reading: Option<RegistryData>,
    next: DisableProbe,
    action: Option<HostAction>,
    reason: Option<String>,
)
    requires
        call_ensures(
            DisableProbe::action,
            (&probe,),
            Some(HostAction::ReadValue { root, path, name, kind }),
        ),
        call_ensures(DisableProbe::step, (probe, HostEvent::ValueRead(reading)), next),
        call_ensures(DisableProbe::action, (&next,), action),
        call_ensures(DisableProbe::reason, (&next,), reason),
    ensures
        ({
            let keys = seq![
                (RootKey::CurrentUser, "Software\\Policies\\Microsoft\\Edge\\WebView2"@),
                (RootKey::LocalMachine, "Software\\Policies\\Microsoft\\Edge\\WebView2"@),
                (RootKey::CurrentUser, "Software\\Microsoft\\Edge\\WebView2"@),
                (RootKey::LocalMachine, "SOFTWARE\\Policies\\Microsoft\\EdgeWebView"@),
                (
                    RootKey::LocalMachine,
                    "SOFTWARE\\Microsoft\\Windows NT\\CurrentVersion\\Image File Execution Options\\"@
                        + "msedgewebview2.exe"@,
                ),
            ];
            let empty = reading matches Some(RegistryData::Sz(text)) && text@.len() == 0;
            let filled = reading matches Some(RegistryData::Sz(text)) && text@.len() > 0;
            let zero = reading matches Some(RegistryData::Dword(number)) && number == 0;
            exists|k: int|
                0 <= k < 5 && #[trigger] keys[k] == (root, path@) && {
                    let folder = k < 3 && name@ == "BrowserExecutableFolder"@ && kind
                        == ValueKind::Sz;
                    let channel = k < 2 && name@ == "ReleaseChannelPreference"@ && kind
                        == ValueKind::Dword;
                    let feature = k == 3 && name@ == "Enabled"@ && kind == ValueKind::Dword;
                    let debugger = k == 4 && name@ == "Debugger"@ && kind == ValueKind::Sz;
                    &&& folder || channel || feature || debugger
                    &&& if folder && empty {
                        action is None && (reason matches Some(text) && text@
                            == "通过组策略禁用 (BrowserExecutableFolder 为空)"@)
                    } else if feature && zero {
                        action is None && (reason matches Some(text) && text@
                            == "WebView2 已被组策略禁用"@)
                    } else if debugger && filled {
                        action is None && (reason matches Some(text) && text@
                            == "WebView2 进程 (msedgewebview2.exe)"@
                            + " 已被 IFEO 禁用\r\n(可能使用了 Edge Blocker 等工具)"@)
                    } else if folder && k < 2 {
                        reason is None && (action matches Some(
                            HostAction::ReadValue { root: r, path: p, name: n, kind: d },
                        ) && (r, p@) == keys[k] && n@ == "ReleaseChannelPreference"@ && d
                            == ValueKind::Dword)
                    } else if k < 4 {
                        reason is None && (action matches Some(
                            HostAction::OpenKey { root: r, path: p },
                        ) && (r, p@) == keys[k + 1])
                    } else {
                        reason is None && action is None
                    }
                }
        }),
{
    let table = disable_table();
    let event = HostEvent::ValueRead(reading);
    assert(next@ == probe@.step(event@));
    assert(probe@.action() == Some(
        ActionModel::ReadValue { root, path: path@, name: name@, kind },
    ));
    let keys = seq![
        (RootKey::CurrentUser, POLICY@),
        (RootKey::LocalMachine, POLICY@),
        (RootKey::CurrentUser, USER_SETTING@),
        (RootKey::LocalMachine, FEATURE@),
        (RootKey::LocalMachine, IFEO_PREFIX@ + RUNTIME_EXE@),
    ];
    reveal_strlit("ReleaseChannelPreference");
    reveal_strlit("BrowserExecutableFolder");
    assert(BROWSER_FOLDER@.len() != CHANNEL_PREFERENCE@.len());
    let k = probe@.point->Reading_key;
    assert(keys[k] == (root, path@));
    assert(keys[k] == (table[k].root, table[k].path));
    assert(table[0].values.len() == 2 && table[1].values.len() == 2);
    assert(table[2].values.len() == 1 && table[3].values.len() == 1 && table[4].values.len() == 1);
}

/// A search that has something left to ask gives no reason.
pub proof fn disable_probe_gives_reasons_at_the_end(
    probe: DisableProbe,
    action: Option<HostAction>,
    reason: Option<String>,
)
    requires
        call_ensures(DisableProbe::action, (&probe,), action),
        call_ensures(DisableProbe::reason, (&probe,), reason),
    ensures
        action is Some ==> reason is None,
{
}

/// The texts are put together from what they are given, whatever that is.
pub proof fn texts_hold_what_they_are_given(
    exe_name: &str,
    path: String,
    display_name: &str,
    reason: String,
)
    requires
        call_ensures(ifeo_path, (exe_name,), path),
        call_ensures(intercepted_reason, (display_name,), reason),
    ensures
        path@
            == "SOFTWARE\\Microsoft\\Windows NT\\CurrentVersion\\Image File Execution Options\\"@
            + exe_name@,
        reason@ == display_name@ + " 已被 IFEO 禁用\r\n(可能使用了 Edge Blocker 等工具)"@,
{
}

/// A rule holds of exactly the data that it is named after.
pub proof fn rules_hold_of_what_they_say(rule: Rule, reading: Option<DataModel>)
    ensures
        rule.holds(reading) <==> match rule {
            Rule::RealVersion => reading matches Some(DataModel::Sz(text)) && text.len() > 0 && text
                != "0.0.0.0"@,
            Rule::EmptyText => reading matches Some(DataModel::Sz(text)) && text.len() == 0,
            Rule::NonEmptyText => reading matches Some(DataModel::Sz(text)) && text.len() > 0,
            Rule::ZeroDword => reading matches Some(DataModel::Dword(number)) && number == 0,
            Rule::Ignored => false,
        },
{
}

/// A search finds what goes with the first key that has a telling value among
/// all that it is given, and nothing exactly if no key has one.
pub proof fn searches_find_the_first_key<F>(
    checks: Seq<KeyCheckModel<F>>,
    host: HostModel,
    finding: Option<F>,
)
    requires
        scan_outcome(ScanModel::start(checks), host).point == (ScanPoint::Finished { finding }),
    ensures
        match finding {
            Some(found) => exists|k: int, j: int|
                #![trigger checks[k].values[j]]
                0 <= k < checks.len() && 0 <= j < checks[k].values.len() && checks[k].values[j].rule.holds(
                    value_read(
                        host.registry,
                        checks[k].root,
                        checks[k].path,
                        checks[k].values[j].name,
                        checks[k].values[j].kind,
                    ),
                ) && found == checks[k].finding && forall|i: int, l: int|
                    #![trigger checks[i].values[l]]
                    0 <= i < k && 0 <= l < checks[i].values.len() ==> !checks[i].values[l].rule.holds(
                        value_read(
                            host.registry,
                            checks[i].root,
                            checks[i].path,
                            checks[i].values[l].name,
                            checks[i].values[l].kind,
                        ),
                    ),
            None => forall|i: int, l: int|
                #![trigger checks[i].values[l]]
                0 <= i < checks.len() && 0 <= l < checks[i].values.len() ==> !checks[i].values[l].rule.holds(
                    value_read(
                        host.registry,
                        checks[i].root,
                        checks[i].path,
                        checks[i].values[l].name,
                        checks[i].values[l].kind,
                    ),
                ),
        },
{
    scan_ends_with_answer(ScanModel::start(checks), host);
    let registry = host.registry;
    first_finding_is_first(checks, registry, 0);
    assert forall|i: int, l: int|
        #![trigger checks[i].values[l]]
        checks[i].value_hit(registry, l) == checks[i].values[l].rule.holds(
            value_read(
                registry,
                checks[i].root,
                checks[i].path,
                checks[i].values[l].name,
                checks[i].values[l].kind,
            ),
        ) by {}
    if let Some(found) = finding {
        let (k, j) = choose|k: int, j: int| #[trigger]
            checks[k].value_hit(registry, j) && 0 <= k < checks.len() && 0 <= j
                < checks[k].values.len() && found == checks[k].finding && forall|i: int, l: int|
                0 <= i < k && 0 <= l < checks[i].values.len() ==> !#[trigger] checks[i].value_hit(
                    registry,
                    l,
                );
        assert(checks[k].values[j] == checks[k].values[j]);
    }
}

/// The first finding from a key on is of the first key from there on that has a
/// telling value.
proof fn first_finding_is_first<F>(
    checks: Seq<KeyCheckModel<F>>,
    registry: RegistryModel,
    from: int,
)
    requires
        0 <= from,
    ensures
        match first_finding(checks, registry, from) {
            Some(found) => exists|k: int, j: int| #[trigger]
                checks[k].value_hit(registry, j) && from <= k < checks.len() && 0 <= j
                    < checks[k].values.len() && found == checks[k].finding && forall|
                    i: int,
                    l: int,
                |
                    from <= i < k && 0 <= l < checks[i].values.len()
                        ==> !#[trigger] checks[i].value_hit(registry, l),
            None => forall|i: int, l: int|
                from <= i < checks.len() && 0 <= l < checks[i].values.len()
                    ==> !#[trigger] checks[i].value_hit(registry, l),
        },
    decreases checks.len() - from,
{
    if from < checks.len() {
        if checks[from].hit(registry) {
            let j = choose|j: int|
                0 <= j < checks[from].values.len() && #[trigger] checks[from].value_hit(
                    registry,
                    j,
                );
            assert(checks[from].value_hit(registry, j));
        } else {
            first_finding_is_first(checks, registry, from + 1);
        }
    }
}

/// A search is made of the checks that it is given, all of them and as they are.
pub proof fn checks_are_taken_as_they_are<F: Copy>(
    checks: Vec<KeyCheck<F>>,
    scan: RegistryScan<F>,
    action: Option<HostAction>,
    finding: Option<F>,
    k: int,
    j: int,
)
    requires
        call_ensures(RegistryScan::<F>::start, (checks,), scan),
        call_ensures(RegistryScan::<F>::action, (&scan,), action),
        call_ensures(RegistryScan::<F>::finding, (&scan,), finding),
    ensures
        scan@.checks.len() == checks@.len(),
        0 <= k < checks@.len() ==> {
            &&& scan@.checks[k].root == checks@[k].root
            &&& scan@.checks[k].path == checks@[k].path@
            &&& scan@.checks[k].finding == checks@[k].finding
            &&& scan@.checks[k].values.len() == checks@[k].values@.len()
            &&& 0 <= j < checks@[k].values@.len() ==> {
                &&& scan@.checks[k].values[j].name == checks@[k].values@[j].name@
                &&& scan@.checks[k].values[j].kind == checks@[k].values@[j].kind
                &&& scan@.checks[k].values[j].rule == checks@[k].values@[j].rule
            }
        },
        if checks@.len() > 0 {
            action matches Some(HostAction::OpenKey { root, path }) && root == checks@[0].root
                && path@ == checks@[0].path@
        } else {
            action is None
        },
        finding is None,
{
}

/// A search at a key asks for that key. It goes on with the first value of a key
/// that could be opened, if it has any, and else with the key that follows.
pub proof fn searches_go_from_key_to_key<F>(scan: ScanModel<F>, key: int, opened: bool)
    requires
        scan.wf(),
        scan.point == (ScanPoint::<F>::Opening { key }),
    ensures
        ({
            let check = scan.checks[key];
            let next = scan.step(EventModel::KeyOpened(opened));
            &&& scan.action() == Some(ActionModel::OpenKey { root: check.root, path: check.path })
            &&& next.checks == scan.checks
            &&& if opened && check.values.len() > 0 {
                next.action() == Some(
                    ActionModel::ReadValue {
                        root: check.root,
                        path: check.path,
                        name: check.values[0].name,
                        kind: check.values[0].kind,
                    },
                )
            } else if key + 1 < scan.checks.len() {
                next.action() == Some(
                    ActionModel::OpenKey {
                        root: scan.checks[key + 1].root,
                        path: scan.checks[key + 1].path,
                    },
                )
            } else {
                next.action() is None && next.point == (ScanPoint::<F>::Finished { finding: None })
            }
        }),
{
}

/// A search at a value asks for that value. It ends with what goes with the key
/// if the reading is telling, and else goes on with the value that follows, or
/// with the key that follows the last.
pub proof fn searches_go_from_value_to_value<F>(
    scan: ScanModel<F>,
    key: int,
    value: int,
    reading: Option<DataModel>,
)
    requires
        scan.wf(),
        scan.point == (ScanPoint::<F>::Reading { key, value }),
    ensures
        ({
            let check = scan.checks[key];
            let next = scan.step(EventModel::ValueRead(reading));
            &&& scan.action() == Some(
                ActionModel::ReadValue {
                    root: check.root,
                    path: check.path,
                    name: check.values[value].name,
                    kind: check.values[value].kind,
                },
            )
            &&& next.checks == scan.checks
            &&& if check.values[value].rule.holds(reading) {
                next.action() is None && next.point == (ScanPoint::Finished {
                    finding: Some(check.finding),
                })
            } else if value + 1 < check.values.len() {
                next.action() == Some(
                    ActionModel::ReadValue {
                        root: check.root,
                        path: check.path,
                        name: check.values[value + 1].name,
                        kind: check.values[value + 1].kind,
                    },
                )
            } else if key + 1 < scan.checks.len() {
                next.action() == Some(
                    ActionModel::OpenKey {
                        root: scan.checks[key + 1].root,
                        path: scan.checks[key + 1].path,
                    },
                )
            } else {
                next.action() is None && next.point == (ScanPoint::<F>::Finished { finding: None })
            }
        }),
{
}

/// A reply to something that was not asked changes nothing.
pub proof fn unasked_replies_change_nothing<F>(
    scan: ScanModel<F>,
    probe: InstallModel,
    event: EventModel,
)
    requires
        scan.wf(),
        probe.wf(),
        scan.action() matches Some(action) ==> !answers(action, event),
        probe.action() matches Some(action) ==> !answers(action, event),
    ensures
        scan.step(event) == scan,
        probe.step(event) == probe,
{
    if let InstallModel::Registry { scan: inner } = probe {
        assert(inner.step(event) == inner);
    }
}

/// Every cause is given in its own words.
pub proof fn causes_have_their_words(
    folder: String,
    feature: String,
    options: String,
)
    requires
        call_ensures(DisableCause::reason, (&DisableCause::BrowserFolder,), folder),
        call_ensures(DisableCause::reason, (&DisableCause::Feature,), feature),
        call_ensures(DisableCause::reason, (&DisableCause::ImageFileOptions,), options),
    ensures
        folder@ == "通过组策略禁用 (BrowserExecutableFolder 为空)"@,
        feature@ == "WebView2 已被组策略禁用"@,
        options@ == "WebView2 进程 (msedgewebview2.exe)"@
            + " 已被 IFEO 禁用\r\n(可能使用了 Edge Blocker 等工具)"@,
{
}

} // verus!
