//! What a probe can ask of a host, what the host can reply, and a host whose
//! contents are known in advance.

use vstd::prelude::*;
use vstd::string::StrSliceExecFns;

verus! {

/// A letter as names are compared by: `A` to `Z` count as `a` to `z`.
pub open spec fn folded_char(c: char) -> char {
    if 'A' <= c <= 'Z' {
        (c as u32 + 32) as char
    } else {
        c
    }
}

/// A name as names are compared by: a Windows host finds keys, values and files
/// whatever the case of the letters they are asked for with. All keys and values
/// that are asked for here have ASCII names, so no other letters are folded.
pub open spec fn folded(name: Seq<char>) -> Seq<char> {
    name.map_values(|c: char| folded_char(c))
}

/// The code of a letter as names are compared by.
fn folded_code(c: char) -> (code: u32)
    ensures
        code == folded_char(c) as u32,
{
    let code: u32 = c as u32;
    if 'A' <= c && c <= 'Z' {
        code + 32
    } else {
        code
    }
}

/// Whether two names differ at most in the case of the letters `A` to `Z`.
fn same_name(name: &String, other: &String) -> (r: bool)
    ensures
        r == (folded(name@) == folded(other@)),
{
    let len: usize = name.as_str().unicode_len();
    if len != other.as_str().unicode_len() {
        assert(folded(name@).len() != folded(other@).len());
        return false;
    }
    let mut i: usize = 0;
    while i < len
        invariant
            i <= len,
            len == name@.len(),
            len == other@.len(),
            forall|j: int| 0 <= j < i ==> #[trigger] folded(name@)[j] == folded(other@)[j],
        decreases len - i,
    {
        if folded_code(name.as_str().get_char(i)) != folded_code(other.as_str().get_char(i)) {
            assert(folded(name@)[i as int] != folded(other@)[i as int]);
            return false;
        }
        i = i + 1;
    }
    assert(folded(name@) =~= folded(other@));
    true
}

/// A predefined root of the registry.
#[derive(Clone, Copy, PartialEq, Eq, Structural, Debug)]
pub enum RootKey {
    /// Settings of the machine.
    LocalMachine,
    /// Settings of the current user.
    CurrentUser,
}

/// The type that a registry read is restricted to.
#[derive(Clone, Copy, PartialEq, Eq, Structural, Debug)]
pub enum ValueKind {
    /// A string.
    Sz,
    /// A 32-bit number.
    Dword,
}

/// The data of a registry value.
#[derive(PartialEq, Eq, Debug)]
pub enum RegistryData {
    /// A string.
    Sz(String),
    /// A 32-bit number.
    Dword(u32),
    /// Data of any other type.
    Other,
}

/// The mathematical content of a [`RegistryData`].
#[verifier::ext_equal]
pub enum DataModel {
    Sz(Seq<char>),
    Dword(u32),
    Other,
}

impl DataModel {
    /// A read that is restricted to `kind` accepts the data.
    pub open spec fn is_of(self, kind: ValueKind) -> bool {
        match kind {
            ValueKind::Sz => self is Sz,
            ValueKind::Dword => self is Dword,
        }
    }
}

impl View for RegistryData {
    type V = DataModel;

    open spec fn view(&self) -> DataModel {
        match *self {
            RegistryData::Sz(text) => DataModel::Sz(text@),
            RegistryData::Dword(number) => DataModel::Dword(number),
            RegistryData::Other => DataModel::Other,
        }
    }
}

impl RegistryData {
    /// The data again.
    pub fn copied(&self) -> (copy: RegistryData)
        ensures
            copy@ == self@,
    {
        match self {
            RegistryData::Sz(text) => RegistryData::Sz(text.clone()),
            RegistryData::Dword(number) => RegistryData::Dword(*number),
            RegistryData::Other => RegistryData::Other,
        }
    }

    /// A read that is restricted to `kind` accepts the data.
    pub fn is_of(&self, kind: ValueKind) -> (r: bool)
        ensures
            r == self@.is_of(kind),
    {
        match kind {
            ValueKind::Sz => matches!(self, RegistryData::Sz(_)),
            ValueKind::Dword => matches!(self, RegistryData::Dword(_)),
        }
    }
}

/// The content of an optional reading.
pub open spec fn reading_model(reading: Option<RegistryData>) -> Option<DataModel> {
    match reading {
        Some(data) => Some(data@),
        None => None,
    }
}

/// The content of an optional string.
pub open spec fn text_model(text: Option<String>) -> Option<Seq<char>> {
    match text {
        Some(text) => Some(text@),
        None => None,
    }
}

/// Something to ask of the host.
#[derive(PartialEq, Eq, Debug)]
pub enum HostAction {
    /// Open a registry key for reading.
    OpenKey { root: RootKey, path: String },
    /// Read a value of the key that was opened last, which is the one named.
    ReadValue { root: RootKey, path: String, name: String, kind: ValueKind },
    /// Look up the system directory.
    SystemDirectory,
    /// Look up the system directory of 32-bit programs.
    Wow64Directory,
    /// See whether `file` exists in `dir`.
    FileExists { dir: String, file: String },
}

/// The mathematical content of a [`HostAction`].
#[verifier::ext_equal]
pub enum ActionModel {
    OpenKey { root: RootKey, path: Seq<char> },
    ReadValue { root: RootKey, path: Seq<char>, name: Seq<char>, kind: ValueKind },
    SystemDirectory,
    Wow64Directory,
    FileExists { dir: Seq<char>, file: Seq<char> },
}

impl View for HostAction {
    type V = ActionModel;

    open spec fn view(&self) -> ActionModel {
        match *self {
            HostAction::OpenKey { root, path } => ActionModel::OpenKey { root, path: path@ },
            HostAction::ReadValue { root, path, name, kind } => ActionModel::ReadValue {
                root,
                path: path@,
                name: name@,
                kind,
            },
            HostAction::SystemDirectory => ActionModel::SystemDirectory,
            HostAction::Wow64Directory => ActionModel::Wow64Directory,
            HostAction::FileExists { dir, file } => ActionModel::FileExists {
                dir: dir@,
                file: file@,
            },
        }
    }
}

/// The content of an optional action.
pub open spec fn action_model(action: Option<HostAction>) -> Option<ActionModel> {
    match action {
        Some(action) => Some(action@),
        None => None,
    }
}

/// What the host replied to an action.
#[derive(PartialEq, Eq, Debug)]
pub enum HostEvent {
    /// Whether the key could be opened.
    KeyOpened(bool),
    /// The value, unless it could not be read as the kind that was asked for.
    ValueRead(Option<RegistryData>),
    /// The directory, unless the host has none.
    Directory(Option<String>),
    /// Whether the file exists.
    FileChecked(bool),
}

/// The mathematical content of a [`HostEvent`].
#[verifier::ext_equal]
pub enum EventModel {
    KeyOpened(bool),
    ValueRead(Option<DataModel>),
    Directory(Option<Seq<char>>),
    FileChecked(bool),
}

impl View for HostEvent {
    type V = EventModel;

    open spec fn view(&self) -> EventModel {
        match *self {
            HostEvent::KeyOpened(opened) => EventModel::KeyOpened(opened),
            HostEvent::ValueRead(reading) => EventModel::ValueRead(reading_model(reading)),
            HostEvent::Directory(dir) => EventModel::Directory(text_model(dir)),
            HostEvent::FileChecked(exists) => EventModel::FileChecked(exists),
        }
    }
}

/// The values of a key, by folded name.
pub type KeyModel = Map<Seq<char>, DataModel>;

/// The keys of a registry, by root and folded path.
pub type RegistryModel = Map<(RootKey, Seq<char>), KeyModel>;

/// A host that does not change while it is asked.
#[verifier::ext_equal]
pub struct HostModel {
    /// The keys that can be opened.
    pub registry: RegistryModel,
    /// The system directory.
    pub system_dir: Option<Seq<char>>,
    /// The system directory of 32-bit programs.
    pub wow64_dir: Option<Seq<char>>,
    /// The files that exist, as folded directory and folded name.
    pub files: Set<(Seq<char>, Seq<char>)>,
}

/// The key `path` below `root` can be opened.
pub open spec fn key_opens(registry: RegistryModel, root: RootKey, path: Seq<char>) -> bool {
    registry.contains_key((root, folded(path)))
}

/// What a read of the value `name`, restricted to `kind`, gives on the key
/// `path` below `root`: nothing if the key cannot be opened, has no such value
/// or has one of another kind.
pub open spec fn value_read(
    registry: RegistryModel,
    root: RootKey,
    path: Seq<char>,
    name: Seq<char>,
    kind: ValueKind,
) -> Option<DataModel> {
    let key = registry[(root, folded(path))];
    if key_opens(registry, root, path) && key.contains_key(folded(name)) && key[folded(
        name,
    )].is_of(kind) {
        Some(key[folded(name)])
    } else {
        None
    }
}

impl HostModel {
    /// The reply of the host to an action.
    pub open spec fn reply(self, action: ActionModel) -> EventModel {
        match action {
            ActionModel::OpenKey { root, path } => EventModel::KeyOpened(
                key_opens(self.registry, root, path),
            ),
            ActionModel::ReadValue { root, path, name, kind } => EventModel::ValueRead(
                value_read(self.registry, root, path, name, kind),
            ),
            ActionModel::SystemDirectory => EventModel::Directory(self.system_dir),
            ActionModel::Wow64Directory => EventModel::Directory(self.wow64_dir),
            ActionModel::FileExists { dir, file } => EventModel::FileChecked(
                self.files.contains((folded(dir), folded(file))),
            ),
        }
    }
}

/// A recorded registry value.
#[derive(Debug)]
pub struct ValueRecord {
    pub name: String,
    pub data: RegistryData,
}

/// A recorded registry key.
#[derive(Debug)]
pub struct KeyRecord {
    pub root: RootKey,
    pub path: String,
    pub values: Vec<ValueRecord>,
}

/// A recorded file.
#[derive(Debug)]
pub struct FileRecord {
    pub dir: String,
    pub file: String,
}

/// A host whose contents were recorded. The case of the letters `A` to `Z` in
/// recorded names does not count, as on a Windows host. Of two records of the
/// same key or the same value the first counts.
#[derive(Debug)]
pub struct HostSnapshot {
    pub keys: Vec<KeyRecord>,
    pub system_dir: Option<String>,
    pub wow64_dir: Option<String>,
    pub files: Vec<FileRecord>,
}

/// The values that a list of records describes.
pub open spec fn values_model(values: Seq<ValueRecord>) -> KeyModel
    decreases values.len(),
{
    if values.len() == 0 {
        Map::empty()
    } else {
        values_model(values.drop_first()).insert(folded(values[0].name@), values[0].data@)
    }
}

/// The keys that a list of records describes.
pub open spec fn keys_model(keys: Seq<KeyRecord>) -> RegistryModel
    decreases keys.len(),
{
    if keys.len() == 0 {
        Map::empty()
    } else {
        keys_model(keys.drop_first()).insert(
            (keys[0].root, folded(keys[0].path@)),
            values_model(keys[0].values@),
        )
    }
}

impl View for HostSnapshot {
    type V = HostModel;

    open spec fn view(&self) -> HostModel {
        HostModel {
            registry: keys_model(self.keys@),
            system_dir: text_model(self.system_dir),
            wow64_dir: text_model(self.wow64_dir),
            files: Set::new(
                |f: (Seq<char>, Seq<char>)|
                    exists|i: int|
                        0 <= i < self.files@.len() && folded(#[trigger] self.files@[i].dir@) == f.0
                            && folded(self.files@[i].file@) == f.1,
            ),
        }
    }
}

impl KeyRecord {
    /// The data of a value of the key.
    fn find_value(&self, name: &String) -> (r: Option<&RegistryData>)
        ensures
            match r {
                Some(data) => values_model(self.values@).contains_key(folded(name@))
                    && values_model(self.values@)[folded(name@)] == data@,
                None => !values_model(self.values@).contains_key(folded(name@)),
            },
    {
        let mut i: usize = 0;
        proof {
            assert(self.values@.skip(0) =~= self.values@);
        }
        while i < self.values.len()
            invariant
                i <= self.values@.len(),
                values_model(self.values@).contains_key(folded(name@)) == values_model(
                    self.values@.skip(i as int),
                ).contains_key(folded(name@)),
                values_model(self.values@).contains_key(folded(name@)) ==> values_model(
                    self.values@,
                )[folded(name@)] == values_model(self.values@.skip(i as int))[folded(name@)],
            decreases self.values@.len() - i,
        {
            proof {
                assert(self.values@.skip(i as int).drop_first() =~= self.values@.skip(i + 1));
            }
            if same_name(&self.values[i].name, name) {
                return Some(&self.values[i].data);
            }
            i = i + 1;
        }
        None
    }
}

impl HostSnapshot {
    /// The record of a key.
    fn find_key(&self, root: RootKey, path: &String) -> (r: Option<&KeyRecord>)
        ensures
            match r {
                Some(key) => self@.registry.contains_key((root, folded(path@)))
                    && self@.registry[(root, folded(path@))] == values_model(key.values@),
                None => !self@.registry.contains_key((root, folded(path@))),
            },
    {
        let mut i: usize = 0;
        proof {
            assert(self.keys@.skip(0) =~= self.keys@);
        }
        while i < self.keys.len()
            invariant
                i <= self.keys@.len(),
                keys_model(self.keys@).contains_key((root, folded(path@))) == keys_model(
                    self.keys@.skip(i as int),
                ).contains_key((root, folded(path@))),
                keys_model(self.keys@).contains_key((root, folded(path@))) ==> keys_model(
                    self.keys@,
                )[(root, folded(path@))] == keys_model(self.keys@.skip(i as int))[(root, folded(path@))],
            decreases self.keys@.len() - i,
        {
            proof {
                assert(self.keys@.skip(i as int).drop_first() =~= self.keys@.skip(i + 1));
            }
            if self.keys[i].root == root && same_name(&self.keys[i].path, path) {
                return Some(&self.keys[i]);
            }
            i = i + 1;
        }
        None
    }

    /// Whether a file was recorded.
    fn has_file(&self, dir: &String, file: &String) -> (r: bool)
        ensures
            r == self@.files.contains((folded(dir@), folded(file@))),
    {
        let mut i: usize = 0;
        while i < self.files.len()
            invariant
                i <= self.files@.len(),
                forall|j: int|
                    0 <= j < i ==> !(folded(#[trigger] self.files@[j].dir@) == folded(dir@)
                        && folded(self.files@[j].file@) == folded(file@)),
            decreases self.files@.len() - i,
        {
            if same_name(&self.files[i].dir, dir) && same_name(&self.files[i].file, file) {
                return true;
            }
            i = i + 1;
        }
        false
    }

    /// The reply of the recorded host to an action.
    pub fn reply(&self, action: &HostAction) -> (event: HostEvent)
        ensures
            event@ == self@.reply(action@),
    {
        match action {
            HostAction::OpenKey { root, path } => {
                HostEvent::KeyOpened(self.find_key(*root, path).is_some())
            },
            HostAction::ReadValue { root, path, name, kind } => {
                if let Some(key) = self.find_key(*root, path) {
                    if let Some(data) = key.find_value(name) {
                        if data.is_of(*kind) {
                            return HostEvent::ValueRead(Some(data.copied()));
                        }
                    }
                }
                HostEvent::ValueRead(None)
            },
            HostAction::SystemDirectory => HostEvent::Directory(self.system_dir.clone()),
            HostAction::Wow64Directory => HostEvent::Directory(self.wow64_dir.clone()),
            HostAction::FileExists { dir, file } => {
                HostEvent::FileChecked(self.has_file(dir, file))
            },
        }
    }
}

} // verus!
