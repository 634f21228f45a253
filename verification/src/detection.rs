//! Finding out whether the WebView2 runtime is installed, and whether it is
//! disabled, one question to the host at a time.

use vstd::prelude::*;

use crate::criteria::{
    disable_cause, disable_checks, disable_search_is_exact, disable_table, disabled_reason,
    install_checks, install_search_is_exact, install_table, installed, reason_of, DisableCause,
    LOADER_DLL,
};
use crate::host::{
    action_model, text_model, ActionModel, EventModel, HostAction, HostEvent, HostModel,
    HostSnapshot, RegistryModel,
};
use crate::scan::{reply_keeps_answer, step_keeps_wf, RegistryScan, ScanModel, ScanPoint};

verus! {

/// How far the search for the runtime has come.
#[verifier::ext_equal]
pub enum InstallModel {
    /// The registry is searched for a version.
    Registry { scan: ScanModel<()> },
    /// A version was found; the system directory is to be looked up.
    SystemDirectory,
    /// The directory of 32-bit programs is to be looked up next.
    Wow64Directory { dirs: Seq<Seq<char>> },
    /// The loader library is to be looked for in the directory at `at`.
    Loader { dirs: Seq<Seq<char>>, at: int },
    /// The search is over.
    Finished { found: bool },
}

/// The directories with one more, if the host has it.
pub open spec fn with_dir(dirs: Seq<Seq<char>>, dir: Option<Seq<char>>) -> Seq<Seq<char>> {
    match dir {
        Some(dir) => dirs.push(dir),
        None => dirs,
    }
}

impl InstallModel {
    /// The search where a registry search has come to.
    pub open spec fn at_scan(scan: ScanModel<()>) -> InstallModel {
        match scan.point {
            ScanPoint::Finished { finding: Some(_) } => InstallModel::SystemDirectory,
            ScanPoint::Finished { finding: None } => InstallModel::Finished { found: false },
            _ => InstallModel::Registry { scan },
        }
    }

    /// The search at a directory, or at its end.
    pub open spec fn at_dir(dirs: Seq<Seq<char>>, at: int) -> InstallModel {
        if at < dirs.len() {
            InstallModel::Loader { dirs, at }
        } else {
            InstallModel::Finished { found: true }
        }
    }

    /// The search before anything was asked.
    pub open spec fn start() -> InstallModel {
        InstallModel::at_scan(ScanModel::start(install_table()))
    }

    /// The positions lie within what is searched.
    pub open spec fn wf(self) -> bool {
        match self {
            InstallModel::Registry { scan } => scan.wf() && scan.action() is Some,
            InstallModel::Loader { dirs, at } => 0 <= at < dirs.len(),
            _ => true,
        }
    }

    /// What is searched are the keys of the runtime, and then at most two
    /// directories.
    pub open spec fn in_bounds(self) -> bool {
        match self {
            InstallModel::Registry { scan } => scan.checks == install_table(),
            InstallModel::Wow64Directory { dirs } => dirs.len() <= 1,
            InstallModel::Loader { dirs, .. } => dirs.len() <= 2,
            _ => true,
        }
    }

    /// What is to be asked next.
    pub open spec fn action(self) -> Option<ActionModel> {
        match self {
            InstallModel::Registry { scan } => scan.action(),
            InstallModel::SystemDirectory => Some(ActionModel::SystemDirectory),
            InstallModel::Wow64Directory { .. } => Some(ActionModel::Wow64Directory),
            InstallModel::Loader { dirs, at } => Some(
                ActionModel::FileExists { dir: dirs[at], file: LOADER_DLL@ },
            ),
            InstallModel::Finished { .. } => None,
        }
    }

    /// The search after a reply. Directories and files are asked for only once
    /// a version was found; the first library that exists ends the search, and
    /// so does the last that does not. A reply to something that was not asked
    /// changes nothing.
    pub open spec fn step(self, event: EventModel) -> InstallModel {
        match (self, event) {
            (InstallModel::Registry { scan }, _) => InstallModel::at_scan(scan.step(event)),
            (InstallModel::SystemDirectory, EventModel::Directory(dir)) => {
                InstallModel::Wow64Directory { dirs: with_dir(Seq::empty(), dir) }
            },
            (InstallModel::Wow64Directory { dirs }, EventModel::Directory(dir)) => {
                InstallModel::at_dir(with_dir(dirs, dir), 0)
            },
            (InstallModel::Loader { dirs, at }, EventModel::FileChecked(exists)) => if exists {
                InstallModel::Finished { found: true }
            } else {
                InstallModel::at_dir(dirs, at + 1)
            },
            _ => self,
        }
    }

    /// What the search finds on a host that does not change any more.
    pub open spec fn answer(self, host: HostModel) -> bool {
        match self {
            InstallModel::Registry { scan } => scan.answer(host.registry) is Some,
            InstallModel::Finished { found } => found,
            _ => true,
        }
    }

    /// The stages that are left.
    pub open spec fn stages_left(self) -> int {
        match self {
            InstallModel::Registry { .. } => 3,
            InstallModel::SystemDirectory => 2,
            InstallModel::Wow64Directory { .. } => 1,
            _ => 0,
        }
    }

    /// The places that are left of the stage.
    pub open spec fn places_left(self) -> int {
        match self {
            InstallModel::Registry { scan } => scan.keys_left(),
            InstallModel::Loader { dirs, at } => dirs.len() - at,
            _ => 0,
        }
    }

    /// The questions that are left of the place.
    pub open spec fn questions_left(self) -> int {
        match self {
            InstallModel::Registry { scan } => scan.values_left(),
            _ => 0,
        }
    }

    /// Less is left than of `other`.
    pub open spec fn is_closer_than(self, other: InstallModel) -> bool {
        decreases_to!(other.stages_left(), other.places_left(), other.questions_left()
            => self.stages_left(), self.places_left(), self.questions_left())
    }
}

/// The replies of a host lead the search to whether the runtime is installed on
/// it, and to the end after finitely many questions.
pub proof fn install_reply_keeps_answer(probe: InstallModel, host: HostModel)
    requires
        probe.wf(),
        probe.action() is Some,
    ensures
        ({
            let next = probe.step(host.reply(probe.action()->0));
            &&& next.wf()
            &&& next.answer(host) == probe.answer(host)
            &&& next.is_closer_than(probe)
        }),
{
    if let InstallModel::Registry { scan } = probe {
        reply_keeps_answer(scan, host);
        step_keeps_wf(scan, host.reply(scan.action()->0));
    }
}

/// The search for the runtime finds it exactly where it is installed.
pub proof fn install_search_answers(host: HostModel)
    ensures
        InstallModel::start().wf(),
        InstallModel::start().answer(host) == installed(host.registry),
{
    install_search_is_exact(host.registry);
}

/// The stage of a search for the runtime, as it is stored.
#[derive(Debug)]
enum InstallStage {
    Registry { scan: RegistryScan<()> },
    SystemDirectory,
    Wow64Directory { dirs: Vec<String> },
    Loader { dirs: Vec<String>, at: usize },
    Finished { found: bool },
}

/// The content of a list of directories.
pub open spec fn dirs_model(dirs: Seq<String>) -> Seq<Seq<char>> {
    Seq::new(dirs.len(), |i: int| dirs[i]@)
}

/// A search for the runtime.
#[derive(Debug)]
pub struct InstallProbe {
    stage: InstallStage,
}

impl View for InstallProbe {
    type V = InstallModel;

    closed spec fn view(&self) -> InstallModel {
        match self.stage {
            InstallStage::Registry { scan } => InstallModel::Registry { scan: scan@ },
            InstallStage::SystemDirectory => InstallModel::SystemDirectory,
            InstallStage::Wow64Directory { dirs } => InstallModel::Wow64Directory {
                dirs: dirs_model(dirs@),
            },
            InstallStage::Loader { dirs, at } => InstallModel::Loader {
                dirs: dirs_model(dirs@),
                at: at as int,
            },
            InstallStage::Finished { found } => InstallModel::Finished { found },
        }
    }
}

impl InstallProbe {
    /// The search stays within what it searches.
    #[verifier::type_invariant]
    spec fn inv(self) -> bool {
        self@.wf() && self@.in_bounds()
    }

    /// A search that has asked nothing yet.
    pub fn start() -> (probe: InstallProbe)
        ensures
            probe@ == InstallModel::start(),
            probe@.wf(),
            probe@.in_bounds(),
            forall|host: HostModel| #[trigger]
                probe@.answer(host) == installed(host.registry),
    {
        let probe = InstallProbe::at_scan(RegistryScan::start(install_checks()));
        proof {
            assert forall|host: HostModel| #[trigger]
                probe@.answer(host) == installed(host.registry) by {
                install_search_answers(host);
            }
        }
        probe
    }

    /// The search where a registry search has come to.
    fn at_scan(scan: RegistryScan<()>) -> (probe: InstallProbe)
        requires
            scan@.wf(),
            scan@.checks == install_table(),
        ensures
            probe@ == InstallModel::at_scan(scan@),
    {
        if !scan.is_finished() {
            InstallProbe { stage: InstallStage::Registry { scan } }
        } else if scan.finding().is_some() {
            InstallProbe { stage: InstallStage::SystemDirectory }
        } else {
            InstallProbe { stage: InstallStage::Finished { found: false } }
        }
    }

    /// The search at a directory, or at its end.
    fn at_dir(dirs: Vec<String>, at: usize) -> (probe: InstallProbe)
        requires
            dirs@.len() <= 2,
        ensures
            probe@ == InstallModel::at_dir(dirs_model(dirs@), at as int),
    {
        if at < dirs.len() {
            InstallProbe { stage: InstallStage::Loader { dirs, at } }
        } else {
            InstallProbe { stage: InstallStage::Finished { found: true } }
        }
    }

    /// What is to be asked of the host next; nothing once the search is over.
    pub fn action(&self) -> (action: Option<HostAction>)
        ensures
            action_model(action) == self@.action(),
            self@.wf(),
            self@.in_bounds(),
    {
        proof {
            use_type_invariant(self);
        }
        match &self.stage {
            InstallStage::Registry { scan } => scan.action(),
            InstallStage::SystemDirectory => Some(HostAction::SystemDirectory),
            InstallStage::Wow64Directory { .. } => Some(HostAction::Wow64Directory),
            InstallStage::Loader { dirs, at } => Some(
                HostAction::FileExists { dir: dirs[*at].clone(), file: LOADER_DLL.to_owned() },
            ),
            InstallStage::Finished { .. } => None,
        }
    }

    /// The search after a reply of the host.
    pub fn step(self, event: HostEvent) -> (next: InstallProbe)
        ensures
            next@ == self@.step(event@),
            next@.wf(),
            next@.in_bounds(),
    {
        proof {
            use_type_invariant(&self);
        }
        match (self.stage, event) {
            (InstallStage::Registry { scan }, event) => InstallProbe::at_scan(scan.step(event)),
            (InstallStage::SystemDirectory, HostEvent::Directory(dir)) => {
                let mut dirs: Vec<String> = Vec::new();
                push_dir(&mut dirs, dir);
                InstallProbe { stage: InstallStage::Wow64Directory { dirs } }
            },
            (InstallStage::Wow64Directory { dirs }, HostEvent::Directory(dir)) => {
                let mut dirs = dirs;
                push_dir(&mut dirs, dir);
                InstallProbe::at_dir(dirs, 0)
            },
            (InstallStage::Loader { dirs, at }, HostEvent::FileChecked(exists)) => {
                if exists {
                    InstallProbe { stage: InstallStage::Finished { found: true } }
                } else {
                    assert(at < dirs.len());
                    InstallProbe::at_dir(dirs, at + 1)
                }
            },
            (stage, _) => InstallProbe { stage },
        }
    }

    /// Whether the search is over and found the runtime.
    pub fn found(&self) -> (found: bool)
        ensures
            found == (self@ == InstallModel::Finished { found: true }),
    {
        matches!(self.stage, InstallStage::Finished { found: true })
    }
}

/// Adds a directory, if the host has it.
fn push_dir(dirs: &mut Vec<String>, dir: Option<String>)
    ensures
        dirs_model(final(dirs)@) == with_dir(dirs_model(old(dirs)@), text_model(dir)),
{
    match dir {
        Some(dir) => {
            dirs.push(dir);
            assert(dirs_model(dirs@) =~= dirs_model(old(dirs)@).push(dir@));
        },
        None => {},
    }
}

/// A search for what disables the runtime.
#[derive(Debug)]
pub struct DisableProbe {
    scan: RegistryScan<DisableCause>,
}

impl View for DisableProbe {
    type V = ScanModel<DisableCause>;

    closed spec fn view(&self) -> ScanModel<DisableCause> {
        self.scan@
    }
}

impl DisableProbe {
    /// The search stays within what it searches.
    #[verifier::type_invariant]
    spec fn inv(self) -> bool {
        self@.wf() && self@.checks == disable_table()
    }

    /// A search that has asked nothing yet.
    pub fn start() -> (probe: DisableProbe)
        ensures
            probe@ == ScanModel::start(disable_table()),
            probe@.wf(),
            probe@.checks == disable_table(),
            forall|registry: RegistryModel| #[trigger]
                probe@.answer(registry) == disable_cause(registry),
    {
        let probe = DisableProbe { scan: RegistryScan::start(disable_checks()) };
        proof {
            assert forall|registry: RegistryModel| #[trigger]
                probe@.answer(registry) == disable_cause(registry) by {
                disable_search_is_exact(registry);
            }
        }
        probe
    }

    /// What is to be asked of the host next; nothing once the search is over.
    pub fn action(&self) -> (action: Option<HostAction>)
        ensures
            action_model(action) == self@.action(),
            self@.wf(),
            self@.checks == disable_table(),
    {
        proof {
            use_type_invariant(self);
        }
        self.scan.action()
    }

    /// The search after a reply of the host.
    pub fn step(self, event: HostEvent) -> (next: DisableProbe)
        ensures
            next@ == self@.step(event@),
            next@.wf(),
            next@.checks == disable_table(),
    {
        proof {
            use_type_invariant(&self);
        }
        DisableProbe { scan: self.scan.step(event) }
    }

    /// Why the runtime is disabled, in words: nothing while the search goes on,
    /// nor if nothing disables it.
    pub fn reason(&self) -> (reason: Option<String>)
        ensures
            text_model(reason) == reason_of(
                match self@.point {
                    ScanPoint::Finished { finding } => finding,
                    _ => None,
                },
            ),
    {
        match self.scan.finding() {
            Some(cause) => Some(cause.reason()),
            None => None,
        }
    }
}

/// Whether the runtime is installed on a recorded host.
pub fn is_webview2_installed(host: &HostSnapshot) -> (r: bool)
    ensures
        r == installed(host@.registry),
{
    let mut probe = InstallProbe::start();
    loop
        invariant
            probe@.wf(),
            probe@.answer(host@) == installed(host@.registry),
        decreases probe@.stages_left(), probe@.places_left(), probe@.questions_left(),
    {
        match probe.action() {
            Some(action) => {
                proof {
                    install_reply_keeps_answer(probe@, host@);
                }
                probe = probe.step(host.reply(&action));
            },
            None => {
                return probe.found();
            },
        }
    }
}

/// Why the runtime is disabled on a recorded host, in words, if it is.
pub fn is_webview2_disabled(host: &HostSnapshot) -> (r: Option<String>)
    ensures
        text_model(r) == disabled_reason(host@.registry),
{
    let mut probe = DisableProbe::start();
    loop
        invariant
            probe@.wf(),
            probe@.answer(host@.registry) == disable_cause(host@.registry),
        decreases probe@.keys_left(), probe@.values_left(),
    {
        match probe.action() {
            Some(action) => {
                proof {
                    reply_keeps_answer(probe@, host@);
                }
                probe = probe.step(host.reply(&action));
            },
            None => {
                return probe.reason();
            },
        }
    }
}

} // verus!
