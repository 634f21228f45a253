//! A search through the registry for the first key with a telling value.

use vstd::prelude::*;

use crate::host::{
    action_model, key_opens, reading_model, value_read, ActionModel, DataModel, EventModel, HostAction,
    HostEvent, HostModel, RegistryData, RegistryModel, RootKey, ValueKind,
};

verus! {

/// The version that an uninstalled runtime leaves behind.
pub const NO_VERSION: &'static str = "0.0.0.0";

/// What makes a value telling. A value that could not be read, or is of another
/// type than the rule speaks of, never is.
#[derive(Clone, Copy, PartialEq, Eq, Structural, Debug)]
pub enum Rule {
    /// A string that is neither empty nor [`NO_VERSION`].
    RealVersion,
    /// The empty string.
    EmptyText,
    /// A string that is not empty.
    NonEmptyText,
    /// The number zero.
    ZeroDword,
    /// Nothing: the value is read and not acted on.
    Ignored,
}

impl Rule {
    /// The reading is telling.
    pub open spec fn holds(self, reading: Option<DataModel>) -> bool {
        match self {
            Rule::RealVersion => reading matches Some(DataModel::Sz(text)) && text.len() > 0 && text
                != NO_VERSION@,
            Rule::EmptyText => reading matches Some(DataModel::Sz(text)) && text.len() == 0,
            Rule::NonEmptyText => reading matches Some(DataModel::Sz(text)) && text.len() > 0,
            Rule::ZeroDword => reading == Some(DataModel::Dword(0)),
            Rule::Ignored => false,
        }
    }

    /// Whether the reading is telling.
    pub fn is_met(&self, reading: &Option<RegistryData>) -> (r: bool)
        ensures
            r == self.holds(reading_model(*reading)),
    {
        match reading {
            Some(RegistryData::Sz(text)) => match self {
                Rule::RealVersion => !text.as_str().is_empty() && *text != NO_VERSION.to_owned(),
                Rule::EmptyText => text.as_str().is_empty(),
                Rule::NonEmptyText => !text.as_str().is_empty(),
                Rule::ZeroDword => false,
                Rule::Ignored => false,
            },
            Some(RegistryData::Dword(number)) => match self {
                Rule::ZeroDword => *number == 0,
                _ => false,
            },
            Some(RegistryData::Other) => false,
            None => false,
        }
    }
}

/// A value to read, and what makes it telling.
#[derive(Debug)]
pub struct ValueCheck {
    pub name: String,
    pub kind: ValueKind,
    pub rule: Rule,
}

/// The mathematical content of a [`ValueCheck`].
#[verifier::ext_equal]
pub struct ValueCheckModel {
    pub name: Seq<char>,
    pub kind: ValueKind,
    pub rule: Rule,
}

impl View for ValueCheck {
    type V = ValueCheckModel;

    open spec fn view(&self) -> ValueCheckModel {
        ValueCheckModel { name: self.name@, kind: self.kind, rule: self.rule }
    }
}

/// A key to open, the values to read in it one after another, and what it
/// means if one of them is telling.
#[derive(Debug)]
pub struct KeyCheck<F> {
    pub root: RootKey,
    pub path: String,
    pub values: Vec<ValueCheck>,
    pub finding: F,
}

/// The mathematical content of a [`KeyCheck`].
#[verifier::ext_equal]
pub struct KeyCheckModel<F> {
    pub root: RootKey,
    pub path: Seq<char>,
    pub values: Seq<ValueCheckModel>,
    pub finding: F,
}

impl<F> View for KeyCheck<F> {
    type V = KeyCheckModel<F>;

    open spec fn view(&self) -> KeyCheckModel<F> {
        KeyCheckModel {
            root: self.root,
            path: self.path@,
            values: Seq::new(self.values@.len(), |i: int| self.values@[i]@),
            finding: self.finding,
        }
    }
}

/// The mathematical content of a list of checks.
pub open spec fn checks_model<F>(checks: Seq<KeyCheck<F>>) -> Seq<KeyCheckModel<F>> {
    Seq::new(checks.len(), |i: int| checks[i]@)
}

impl<F> KeyCheckModel<F> {
    /// The value at `value` is telling.
    pub open spec fn value_hit(self, registry: RegistryModel, value: int) -> bool {
        self.values[value].rule.holds(
            value_read(
                registry,
                self.root,
                self.path,
                self.values[value].name,
                self.values[value].kind,
            ),
        )
    }

    /// One of the values from `from` on is telling.
    pub open spec fn hit_from(self, registry: RegistryModel, from: int) -> bool {
        exists|value: int|
            from <= value < self.values.len() && #[trigger] self.value_hit(registry, value)
    }

    /// One of the values is telling.
    pub open spec fn hit(self, registry: RegistryModel) -> bool {
        self.hit_from(registry, 0)
    }
}

/// The finding of the first key from `from` on that has a telling value.
pub open spec fn first_finding<F>(
    checks: Seq<KeyCheckModel<F>>,
    registry: RegistryModel,
    from: int,
) -> Option<F>
    decreases checks.len() - from,
{
    if from < 0 || from >= checks.len() {
        None
    } else if checks[from].hit(registry) {
        Some(checks[from].finding)
    } else {
        first_finding(checks, registry, from + 1)
    }
}

/// How far a search has come.
#[verifier::ext_equal]
pub enum ScanPoint<F> {
    /// The key is to be opened.
    Opening { key: int },
    /// The key is open and the value is to be read.
    Reading { key: int, value: int },
    /// The search is over.
    Finished { finding: Option<F> },
}

/// The mathematical content of a [`RegistryScan`].
#[verifier::ext_equal]
pub struct ScanModel<F> {
    pub checks: Seq<KeyCheckModel<F>>,
    pub point: ScanPoint<F>,
}

impl<F> ScanModel<F> {
    /// The search at `key`, or its end.
    pub open spec fn at_key(self, key: int) -> ScanModel<F> {
        ScanModel {
            point: if key < self.checks.len() {
                ScanPoint::Opening { key }
            } else {
                ScanPoint::Finished { finding: None }
            },
            ..self
        }
    }

    /// The search at a value of an open key, or at the key that follows.
    pub open spec fn at_value(self, key: int, value: int) -> ScanModel<F> {
        if value < self.checks[key].values.len() {
            ScanModel { point: ScanPoint::Reading { key, value }, ..self }
        } else {
            self.at_key(key + 1)
        }
    }

    /// The search before anything was asked.
    pub open spec fn start(checks: Seq<KeyCheckModel<F>>) -> ScanModel<F> {
        ScanModel { checks, point: ScanPoint::Finished { finding: None } }.at_key(0)
    }

    /// The positions lie within the checks.
    pub open spec fn wf(self) -> bool {
        match self.point {
            ScanPoint::Opening { key } => 0 <= key < self.checks.len(),
            ScanPoint::Reading { key, value } => 0 <= key < self.checks.len() && 0 <= value
                < self.checks[key].values.len(),
            ScanPoint::Finished { .. } => true,
        }
    }

    /// What is to be asked next.
    pub open spec fn action(self) -> Option<ActionModel> {
        match self.point {
            ScanPoint::Opening { key } => Some(
                ActionModel::OpenKey { root: self.checks[key].root, path: self.checks[key].path },
            ),
            ScanPoint::Reading { key, value } => Some(
                ActionModel::ReadValue {
                    root: self.checks[key].root,
                    path: self.checks[key].path,
                    name: self.checks[key].values[value].name,
                    kind: self.checks[key].values[value].kind,
                },
            ),
            ScanPoint::Finished { .. } => None,
        }
    }

    /// The search after a reply. A key that cannot be opened is passed over, a
    /// telling value ends the search, and any other leads to the value that
    /// follows. A reply to something that was not asked changes nothing.
    pub open spec fn step(self, event: EventModel) -> ScanModel<F> {
        match (self.point, event) {
            (ScanPoint::Opening { key }, EventModel::KeyOpened(opened)) => if opened {
                self.at_value(key, 0)
            } else {
                self.at_key(key + 1)
            },
            (ScanPoint::Reading { key, value }, EventModel::ValueRead(reading)) => if self.checks[key].values[value].rule.holds(
            reading) {
                ScanModel {
                    point: ScanPoint::Finished { finding: Some(self.checks[key].finding) },
                    ..self
                }
            } else {
                self.at_value(key, value + 1)
            },
            _ => self,
        }
    }

    /// What the search finds on a registry that does not change any more.
    pub open spec fn answer(self, registry: RegistryModel) -> Option<F> {
        match self.point {
            ScanPoint::Opening { key } => first_finding(self.checks, registry, key),
            ScanPoint::Reading { key, value } => if self.checks[key].hit_from(registry, value) {
                Some(self.checks[key].finding)
            } else {
                first_finding(self.checks, registry, key + 1)
            },
            ScanPoint::Finished { finding } => finding,
        }
    }

    /// The keys that are left.
    pub open spec fn keys_left(self) -> int {
        match self.point {
            ScanPoint::Opening { key } => self.checks.len() - key,
            ScanPoint::Reading { key, .. } => self.checks.len() - key,
            ScanPoint::Finished { .. } => 0,
        }
    }

    /// The questions that are left of the key.
    pub open spec fn values_left(self) -> int {
        match self.point {
            ScanPoint::Opening { key } => 1 + self.checks[key].values.len() as int,
            ScanPoint::Reading { key, value } => self.checks[key].values.len() - value,
            ScanPoint::Finished { .. } => 0,
        }
    }
}

/// A reply never takes a search out of its checks.
pub proof fn step_keeps_wf<F>(scan: ScanModel<F>, event: EventModel)
    requires
        scan.wf(),
    ensures
        scan.step(event).wf(),
        scan.step(event).checks == scan.checks,
{
}

/// The replies of a host lead a search to the finding of the first key on it
/// that has a telling value, and to the end after finitely many questions.
pub proof fn reply_keeps_answer<F>(scan: ScanModel<F>, host: HostModel)
    requires
        scan.wf(),
        scan.action() is Some,
    ensures
        ({
            let next = scan.step(host.reply(scan.action()->0));
            &&& next.answer(host.registry) == scan.answer(host.registry)
            &&& 0 <= next.keys_left() <= scan.keys_left()
            &&& next.keys_left() == scan.keys_left() ==> 0 <= next.values_left()
                < scan.values_left()
        }),
{
    reveal_with_fuel(first_finding, 2);
    let registry = host.registry;
    match scan.point {
        ScanPoint::Opening { key } => {
            let check = scan.checks[key];
            if !key_opens(registry, check.root, check.path) {
                assert(!check.hit(registry));
            }
        },
        ScanPoint::Reading { key, value } => {
            let check = scan.checks[key];
            if check.value_hit(registry, value) {
                assert(check.hit_from(registry, value));
            } else {
                assert(check.hit_from(registry, value) == check.hit_from(registry, value + 1));
            }
        },
        ScanPoint::Finished { .. } => {},
    }
}

/// How far a search has come, as it is stored.
#[derive(Debug)]
enum Point<F> {
    Opening { key: usize },
    Reading { key: usize, value: usize },
    Finished { finding: Option<F> },
}

/// A search through the registry.
#[derive(Debug)]
pub struct RegistryScan<F> {
    checks: Vec<KeyCheck<F>>,
    point: Point<F>,
}

impl<F> View for RegistryScan<F> {
    type V = ScanModel<F>;

    closed spec fn view(&self) -> ScanModel<F> {
        ScanModel {
            checks: checks_model(self.checks@),
            point: match self.point {
                Point::Opening { key } => ScanPoint::Opening { key: key as int },
                Point::Reading { key, value } => ScanPoint::Reading {
                    key: key as int,
                    value: value as int,
                },
                Point::Finished { finding } => ScanPoint::Finished { finding },
            },
        }
    }
}

impl<F> RegistryScan<F> {
    /// The search stays within what it searches.
    #[verifier::type_invariant]
    spec fn inv(self) -> bool {
        self@.wf()
    }
}

impl<F: Copy> RegistryScan<F> {
    /// A search that has asked nothing yet.
    pub fn start(checks: Vec<KeyCheck<F>>) -> (scan: RegistryScan<F>)
        ensures
            scan@ == ScanModel::start(checks_model(checks@)),
            scan@.wf(),
    {
        if checks.len() > 0 {
            RegistryScan { checks, point: Point::Opening { key: 0 } }
        } else {
            RegistryScan { checks, point: Point::Finished { finding: None } }
        }
    }

    /// What is to be asked next; nothing once the search is over.
    pub fn action(&self) -> (action: Option<HostAction>)
        ensures
            action_model(action) == self@.action(),
            self@.wf(),
    {
        proof {
            use_type_invariant(self);
        }
        match &self.point {
            Point::Opening { key } => {
                let check = &self.checks[*key];
                Some(HostAction::OpenKey { root: check.root, path: check.path.clone() })
            },
            Point::Reading { key, value } => {
                let check = &self.checks[*key];
                Some(
                    HostAction::ReadValue {
                        root: check.root,
                        path: check.path.clone(),
                        name: check.values[*value].name.clone(),
                        kind: check.values[*value].kind,
                    },
                )
            },
            Point::Finished { .. } => None,
        }
    }

    /// The search at a key, or its end.
    fn at_key(self, key: usize) -> (next: RegistryScan<F>)
        ensures
            next@ == self@.at_key(key as int),
    {
        if key < self.checks.len() {
            RegistryScan { checks: self.checks, point: Point::Opening { key } }
        } else {
            RegistryScan { checks: self.checks, point: Point::Finished { finding: None } }
        }
    }

    /// The search at a value of an open key, or at the key that follows.
    fn at_value(self, key: usize, value: usize) -> (next: RegistryScan<F>)
        requires
            key < self@.checks.len(),
        ensures
            next@ == self@.at_value(key as int, value as int),
    {
        assert(key < self.checks.len());
        if value < self.checks[key].values.len() {
            RegistryScan { checks: self.checks, point: Point::Reading { key, value } }
        } else {
            self.at_key(key + 1)
        }
    }

    /// The search after a reply of the host.
    pub fn step(self, event: HostEvent) -> (next: RegistryScan<F>)
        ensures
            next@ == self@.step(event@),
            next@.wf(),
    {
        proof {
            use_type_invariant(&self);
        }
        match (&self.point, &event) {
            (Point::Opening { key }, HostEvent::KeyOpened(opened)) => {
                let key: usize = *key;
                assert(key < self.checks.len());
                if *opened {
                    self.at_value(key, 0)
                } else {
                    self.at_key(key + 1)
                }
            },
            (Point::Reading { key, value }, HostEvent::ValueRead(reading)) => {
                let key: usize = *key;
                let value: usize = *value;
                assert(value < self.checks@[key as int].values.len());
                if self.checks[key].values[value].rule.is_met(reading) {
                    let finding = self.checks[key].finding;
                    RegistryScan {
                        checks: self.checks,
                        point: Point::Finished { finding: Some(finding) },
                    }
                } else {
                    self.at_value(key, value + 1)
                }
            },
            _ => self,
        }
    }

    /// Whether the search is over.
    pub fn is_finished(&self) -> (r: bool)
        ensures
            r == (self@.action() is None),
    {
        matches!(self.point, Point::Finished { .. })
    }

    /// What the search found: nothing while it goes on, nor if no key had a
    /// telling value.
    pub fn finding(&self) -> (finding: Option<F>)
        ensures
            finding == (match self@.point {
                ScanPoint::Finished { finding } => finding,
                _ => None,
            }),
    {
        match &self.point {
            Point::Finished { finding } => *finding,
            _ => None,
        }
    }
}

} // verus!
