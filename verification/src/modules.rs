//! The module kinds, their names and the files that hold their snapshots.

use crate::json::{items_of, json_items_member, json_parse, json_strings, member, parse_document, strings_of};
use crate::seq_lemmas::lemma_filter_push;
use crate::text::{optional_chars, spec_ends_with, str_eq, strip_suffix};
use serde_json::Value;
use vstd::prelude::*;

verus! {

/// The views of a sequence of strings.
pub open spec fn views(strings: Seq<String>) -> Seq<Seq<char>> {
    strings.map_values(|s: String| s@)
}

/// A category of telemetry. The set is closed: a name outside it is rejected, never
/// mapped to a default.
#[derive(Debug, Clone, Copy, PartialEq, Eq, Structural)]
pub enum Module {
    Battery,
    CPU,
    Disks,
    Displays,
    GPUs,
    Media,
    Memory,
    Networks,
    Processes,
    Sensors,
    System,
}

/// How many module kinds there are.
pub const MODULE_COUNT: usize = 11;

impl Module {
    /// The name of the kind, as used on the wire and in file names.
    pub open spec fn wire_name(self) -> Seq<char> {
        match self {
            Module::Battery => "battery"@,
            Module::CPU => "cpu"@,
            Module::Disks => "disks"@,
            Module::Displays => "displays"@,
            Module::GPUs => "gpus"@,
            Module::Media => "media"@,
            Module::Memory => "memory"@,
            Module::Networks => "networks"@,
            Module::Processes => "processes"@,
            Module::Sensors => "sensors"@,
            Module::System => "system"@,
        }
    }

    /// The name of the variant, as used in messages.
    pub open spec fn variant_name(self) -> Seq<char> {
        match self {
            Module::Battery => "Battery"@,
            Module::CPU => "CPU"@,
            Module::Disks => "Disks"@,
            Module::Displays => "Displays"@,
            Module::GPUs => "GPUs"@,
            Module::Media => "Media"@,
            Module::Memory => "Memory"@,
            Module::Networks => "Networks"@,
            Module::Processes => "Processes"@,
            Module::Sensors => "Sensors"@,
            Module::System => "System"@,
        }
    }

    /// The place of the kind in the fixed order of kinds.
    pub open spec fn spec_index(self) -> int {
        match self {
            Module::Battery => 0,
            Module::CPU => 1,
            Module::Disks => 2,
            Module::Displays => 3,
            Module::GPUs => 4,
            Module::Media => 5,
            Module::Memory => 6,
            Module::Networks => 7,
            Module::Processes => 8,
            Module::Sensors => 9,
            Module::System => 10,
        }
    }

    /// The kind at a place of the fixed order.
    pub open spec fn spec_from_index(i: int) -> Module {
        if i == 0 {
            Module::Battery
        } else if i == 1 {
            Module::CPU
        } else if i == 2 {
            Module::Disks
        } else if i == 3 {
            Module::Displays
        } else if i == 4 {
            Module::GPUs
        } else if i == 5 {
            Module::Media
        } else if i == 6 {
            Module::Memory
        } else if i == 7 {
            Module::Networks
        } else if i == 8 {
            Module::Processes
        } else if i == 9 {
            Module::Sensors
        } else {
            Module::System
        }
    }

    /// The kind that a name stands for, where it stands for one.
    pub open spec fn spec_parse(s: Seq<char>) -> Option<Module> {
        if exists|m: Module| m.wire_name() == s {
            Some(choose|m: Module| m.wire_name() == s)
        } else {
            None
        }
    }

    /// The text of the rejection of a name that stands for no kind.
    pub open spec fn invalid_message(s: Seq<char>) -> Seq<char> {
        "Invalid module: "@ + s
    }

    /// What decoding a name gives: the kind, or the rejection of the name.
    pub open spec fn spec_from_str(s: Seq<char>) -> Result<Module, Seq<char>> {
        match Self::spec_parse(s) {
            Some(m) => Ok(m),
            None => Err(Self::invalid_message(s)),
        }
    }

    /// The wire name as a static string.
    pub fn as_str(&self) -> (r: &'static str)
        ensures
            r@ == self.wire_name(),
    {
        match self {
            Module::Battery => "battery",
            Module::CPU => "cpu",
            Module::Disks => "disks",
            Module::Displays => "displays",
            Module::GPUs => "gpus",
            Module::Media => "media",
            Module::Memory => "memory",
            Module::Networks => "networks",
            Module::Processes => "processes",
            Module::Sensors => "sensors",
            Module::System => "system",
        }
    }

    /// The wire name as an owned string.
    pub fn to_string(&self) -> (r: String)
        ensures
            r@ == self.wire_name(),
    {
        self.as_str().to_owned()
    }

    /// The name of the variant as a static string.
    pub fn debug_name(&self) -> (r: &'static str)
        ensures
            r@ == self.variant_name(),
    {
        match self {
            Module::Battery => "Battery",
            Module::CPU => "CPU",
            Module::Disks => "Disks",
            Module::Displays => "Displays",
            Module::GPUs => "GPUs",
            Module::Media => "Media",
            Module::Memory => "Memory",
            Module::Networks => "Networks",
            Module::Processes => "Processes",
            Module::Sensors => "Sensors",
            Module::System => "System",
        }
    }

    /// The place of the kind in the fixed order of kinds.
    pub fn index(&self) -> (r: usize)
        ensures
            r == self.spec_index(),
            r < MODULE_COUNT,
    {
        match self {
            Module::Battery => 0,
            Module::CPU => 1,
            Module::Disks => 2,
            Module::Displays => 3,
            Module::GPUs => 4,
            Module::Media => 5,
            Module::Memory => 6,
            Module::Networks => 7,
            Module::Processes => 8,
            Module::Sensors => 9,
            Module::System => 10,
        }
    }

    /// The kind at a place of the fixed order.
    pub fn from_index(i: usize) -> (r: Module)
        requires
            i < MODULE_COUNT,
        ensures
            r == Self::spec_from_index(i as int),
            r.spec_index() == i,
    {
        if i == 0 {
            Module::Battery
        } else if i == 1 {
            Module::CPU
        } else if i == 2 {
            Module::Disks
        } else if i == 3 {
            Module::Displays
        } else if i == 4 {
            Module::GPUs
        } else if i == 5 {
            Module::Media
        } else if i == 6 {
            Module::Memory
        } else if i == 7 {
            Module::Networks
        } else if i == 8 {
            Module::Processes
        } else if i == 9 {
            Module::Sensors
        } else {
            Module::System
        }
    }

    /// Every kind once, in the fixed order.
    pub fn all() -> (r: Vec<Module>)
        ensures
            r@.len() == MODULE_COUNT,
            forall|i: int| 0 <= i < MODULE_COUNT ==> (#[trigger] r@[i]).spec_index() == i,
            forall|m: Module| r@[m.spec_index()] == m,
    {
        let mut kinds: Vec<Module> = Vec::new();
        let mut i: usize = 0;
        while i < MODULE_COUNT
            invariant
                i <= MODULE_COUNT,
                kinds@.len() == i,
                forall|j: int| 0 <= j < i ==> (#[trigger] kinds@[j]).spec_index() == j,
            decreases MODULE_COUNT - i,
        {
            kinds.push(Module::from_index(i));
            i = i + 1;
        }
        proof {
            assert forall|m: Module| kinds@[m.spec_index()] == m by {
                lemma_index_is_one_to_one(kinds@[m.spec_index()], m);
            }
        }
        kinds
    }

    /// Decodes a name and fails closed: a name that stands for no kind gives `None`.
    pub fn parse(s: &str) -> (r: Option<Module>)
        ensures
            r == Self::spec_parse(s@),
            r matches Some(m) ==> m.wire_name() == s@,
            r is None ==> forall|m: Module| m.wire_name() != s@,
    {
        let found = if str_eq(s, "battery") {
            Some(Module::Battery)
        } else if str_eq(s, "cpu") {
            Some(Module::CPU)
        } else if str_eq(s, "disks") {
            Some(Module::Disks)
        } else if str_eq(s, "displays") {
            Some(Module::Displays)
        } else if str_eq(s, "gpus") {
            Some(Module::GPUs)
        } else if str_eq(s, "media") {
            Some(Module::Media)
        } else if str_eq(s, "memory") {
            Some(Module::Memory)
        } else if str_eq(s, "networks") {
            Some(Module::Networks)
        } else if str_eq(s, "processes") {
            Some(Module::Processes)
        } else if str_eq(s, "sensors") {
            Some(Module::Sensors)
        } else if str_eq(s, "system") {
            Some(Module::System)
        } else {
            None
        };
        proof {
            match found {
                Some(m) => {
                    assert(m.wire_name() == s@);
                    lemma_module_names_distinct(choose|o: Module| o.wire_name() == s@, m);
                },
                None => {
                    assert forall|o: Module| o.wire_name() != s@ by {}
                },
            }
        }
        found
    }

    /// Decodes a name; one that stands for no kind is rejected with a message that
    /// quotes it.
    pub fn from_str(s: &str) -> (r: Result<Module, String>)
        ensures
            Self::spec_from_str(s@) == (match r {
                Ok(m) => Ok::<Module, Seq<char>>(m),
                Err(e) => Err::<Module, Seq<char>>(e@),
            }),
    {
        match Self::parse(s) {
            Some(m) => Ok(m),
            None => {
                let mut message = "Invalid module: ".to_owned();
                message.append(s);
                Err(message)
            },
        }
    }
}

/// No two kinds share a name.
pub proof fn lemma_module_names_distinct(a: Module, b: Module)
    requires
        a.wire_name() == b.wire_name(),
    ensures
        a == b,
{
    reveal_strlit("battery");
    reveal_strlit("cpu");
    reveal_strlit("disks");
    reveal_strlit("displays");
    reveal_strlit("gpus");
    reveal_strlit("media");
    reveal_strlit("memory");
    reveal_strlit("networks");
    reveal_strlit("processes");
    reveal_strlit("sensors");
    reveal_strlit("system");
    // The length and the characters at two places tell all names apart.
    assert(a.wire_name().len() >= 3 && b.wire_name().len() >= 3);
    assert(a.wire_name()[0] != ' ' && b.wire_name()[0] != ' ');
    assert(a.wire_name()[1] != ' ' && b.wire_name()[1] != ' ');
}

/// No two kinds share a place in the fixed order.
pub proof fn lemma_index_is_one_to_one(a: Module, b: Module)
    requires
        a.spec_index() == b.spec_index(),
    ensures
        a == b,
{
}

/// Decoding the name of a kind gives that kind back.
pub proof fn law_module_round_trip(m: Module)
    ensures
        Module::spec_parse(m.wire_name()) == Some(m),
        Module::spec_from_str(m.wire_name()) == Ok::<Module, Seq<char>>(m),
{
    let found = choose|o: Module| o.wire_name() == m.wire_name();
    lemma_module_names_distinct(found, m);
}


/// The modules that a request names: the `modules` member of its data.
#[derive(Debug, Clone, PartialEq, Eq)]
pub struct RequestModules {
    pub modules: Vec<String>,
}

impl RequestModules {
    /// The names that a request's data gives: its `modules` member, where that is an
    /// array of strings.
    pub open spec fn spec_from_json(data: Value) -> Option<Seq<Seq<char>>> {
        match json_items_member(data, "modules"@) {
            Some(items) => json_strings(items),
            None => None,
        }
    }

    /// Reads the names out of a request's data. `None` where the data has no `modules`
    /// member, or where that member is not an array of strings.
    pub fn from_json(data: &Value) -> (r: Option<RequestModules>)
        ensures
            Self::spec_from_json(*data) == (match r {
                Some(request) => Some(views(request.modules@)),
                None => None,
            }),
    {
        match member(data, "modules") {
            Some(found) => match items_of(found) {
                Some(items) => match strings_of(items) {
                    Some(modules) => Some(RequestModules { modules }),
                    None => None,
                },
                None => None,
            },
            None => None,
        }
    }
}

/// A change of one module's snapshot: the module's name and its new payload.
#[derive(Debug, Clone, PartialEq, Eq)]
pub struct ModuleUpdate {
    pub module: String,
    pub data: Value,
}

/// Why a module's snapshot could not be had.
#[derive(Debug, Clone, Copy, PartialEq, Eq, Structural)]
pub enum BadModuleData {
    /// There is no snapshot of the module.
    Missing { module: Module },
    /// What is stored for the module is not JSON.
    Malformed { module: Module },
}

impl BadModuleData {
    /// The module that the error is about.
    pub open spec fn spec_module(self) -> Module {
        match self {
            BadModuleData::Missing { module } => module,
            BadModuleData::Malformed { module } => module,
        }
    }

    /// The text of the error.
    pub open spec fn spec_message(self) -> Seq<char> {
        match self {
            BadModuleData::Missing { module } => "No data for '"@ + module.variant_name()
                + "' module"@,
            BadModuleData::Malformed { module } => "Failed to parse '"@ + module.variant_name()
                + "' module data"@,
        }
    }

    /// The module that the error is about.
    pub fn module(&self) -> (r: Module)
        ensures
            r == self.spec_module(),
    {
        match self {
            BadModuleData::Missing { module } => *module,
            BadModuleData::Malformed { module } => *module,
        }
    }

    /// The text of the error.
    pub fn to_string(&self) -> (r: String)
        ensures
            r@ == self.spec_message(),
    {
        match self {
            BadModuleData::Missing { module } => {
                let mut message = "No data for '".to_owned();
                message.append(module.debug_name());
                message.append("' module");
                message
            },
            BadModuleData::Malformed { module } => {
                let mut message = "Failed to parse '".to_owned();
                message.append(module.debug_name());
                message.append("' module data");
                message
            },
        }
    }
}

/// The directory of the snapshot files, below the data directory.
pub open spec fn spec_modules_path(data_path: Seq<char>) -> Seq<char> {
    data_path + "/modules"@
}

/// The name of a module's snapshot file.
pub open spec fn spec_file_name(module: Module) -> Seq<char> {
    module.wire_name() + ".json"@
}

/// The path of a module's snapshot file, below the data directory.
pub open spec fn spec_modules_data_path(data_path: Seq<char>, module: Module) -> Seq<char> {
    spec_modules_path(data_path) + "/"@ + spec_file_name(module)
}

/// The directory of the snapshot files, below the data directory.
pub fn get_modules_path(data_path: &str) -> (r: String)
    ensures
        r@ == spec_modules_path(data_path@),
{
    let mut path = data_path.to_owned();
    path.append("/modules");
    path
}

/// The path of a module's snapshot file, below the data directory.
pub fn get_modules_data_path(data_path: &str, module: &Module) -> (r: String)
    ensures
        r@ == spec_modules_data_path(data_path@, *module),
{
    let mut path = get_modules_path(data_path);
    path.append("/");
    path.append(module.as_str());
    path.append(".json");
    assert(path@ =~= spec_modules_data_path(data_path@, *module));
    path
}

/// What a module's snapshot file holds before anything was written to it: an empty
/// list for the processes, an empty object for every other kind.
pub open spec fn spec_default_contents(module: Module) -> Seq<char> {
    match module {
        Module::Processes => "[]"@,
        _ => "{}"@,
    }
}

/// What a module's snapshot file holds before anything was written to it.
pub fn default_contents(module: &Module) -> (r: &'static str)
    ensures
        r@ == spec_default_contents(*module),
{
    match module {
        Module::Processes => "[]",
        _ => "{}",
    }
}

/// A file to create: its path and what to write to it.
#[derive(Debug, Clone, PartialEq, Eq)]
pub struct NewFile {
    pub path: String,
    pub contents: String,
}

/// The file that `setup_modules_data` creates for a module.
pub open spec fn spec_new_file(data_path: Seq<char>, module: Module) -> (Seq<char>, Seq<char>) {
    (spec_modules_data_path(data_path, module), spec_default_contents(module))
}

/// The files that `setup_modules_data` creates where the modules at the places
/// `from..` of the fixed order are looked at: one for each that has no file yet.
pub open spec fn spec_setup_from(data_path: Seq<char>, present: Seq<bool>, from: int) -> Seq<
    (Seq<char>, Seq<char>),
>
    decreases MODULE_COUNT - from,
{
    if from >= MODULE_COUNT || from < 0 {
        Seq::empty()
    } else if from < present.len() && present[from] {
        spec_setup_from(data_path, present, from + 1)
    } else {
        seq![spec_new_file(data_path, Module::spec_from_index(from))] + spec_setup_from(
            data_path,
            present,
            from + 1,
        )
    }
}

/// The view of a list of files to create.
pub open spec fn new_files_view(files: Seq<NewFile>) -> Seq<(Seq<char>, Seq<char>)> {
    files.map_values(|f: NewFile| (f.path@, f.contents@))
}

/// Decides which snapshot files to create so that every module kind has one.
/// `present[i]` says whether the file of the kind at place `i` exists; a kind beyond
/// the end of `present` counts as absent. The result lists, in the fixed order, each
/// absent kind's path with its default contents. Existing files are left alone.
pub fn setup_modules_data(data_path: &str, present: &Vec<bool>) -> (r: Vec<NewFile>)
    ensures
        new_files_view(r@) == spec_setup_from(data_path@, present@, 0),
{
    let mut files: Vec<NewFile> = Vec::new();
    let mut i: usize = 0;
    while i < MODULE_COUNT
        invariant
            i <= MODULE_COUNT,
            new_files_view(files@) + spec_setup_from(data_path@, present@, i as int)
                == spec_setup_from(data_path@, present@, 0),
        decreases MODULE_COUNT - i,
    {
        let exists = i < present.len() && present[i];
        if !exists {
            let module = Module::from_index(i);
            let file = NewFile {
                path: get_modules_data_path(data_path, &module),
                contents: default_contents(&module).to_owned(),
            };
            let ghost before = files@;
            files.push(file);
            proof {
                let rest = spec_setup_from(data_path@, present@, i + 1);
                let entry = spec_new_file(data_path@, module);
                assert(new_files_view(files@) =~= new_files_view(before) + seq![entry]);
                assert(new_files_view(files@) + rest =~= new_files_view(before) + (seq![entry]
                    + rest));
            }
        }
        i = i + 1;
    }
    proof {
        assert(new_files_view(files@) + Seq::<(Seq<char>, Seq<char>)>::empty()
            =~= new_files_view(files@));
    }
    files
}

/// What reading a module's snapshot gives, from what its file holds (`None` where the
/// file is missing or unreadable).
pub open spec fn spec_module_data(module: Module, contents: Option<Seq<char>>) -> Result<
    Value,
    BadModuleData,
> {
    match contents {
        None => Err(BadModuleData::Missing { module }),
        Some(text) => match json_parse(text) {
            Some(doc) => Ok(doc),
            None => Err(BadModuleData::Malformed { module }),
        },
    }
}

/// Reads a module's snapshot from what its file holds. `contents` is `None` where the
/// file is missing or cannot be read: that is `Missing`. A text that is not JSON is
/// `Malformed`. Any other text gives the document it parses to.
pub fn get_module_data(module: &Module, contents: Option<&str>) -> (r: Result<Value, BadModuleData>)
    ensures
        r == spec_module_data(*module, optional_chars(contents)),
{
    match contents {
        None => Err(BadModuleData::Missing { module: *module }),
        Some(text) => match parse_document(text) {
            Ok(doc) => Ok(doc),
            Err(_) => Err(BadModuleData::Malformed { module: *module }),
        },
    }
}

/// The change that a notification about a module's file stands for: the module's name
/// with the document that the file holds.
pub open spec fn spec_module_update(module: Module, contents: Option<Seq<char>>) -> Result<
    (Seq<char>, Value),
    BadModuleData,
> {
    match spec_module_data(module, contents) {
        Ok(data) => Ok((module.wire_name(), data)),
        Err(e) => Err(e),
    }
}

/// Makes the change event for a module whose file was reported as changed, from what
/// the file holds now (`None` where it is missing or cannot be read). A file that
/// cannot be had gives the error, so that the event is passed over.
pub fn module_update(module: &Module, contents: Option<&str>) -> (r: Result<
    ModuleUpdate,
    BadModuleData,
>)
    ensures
        spec_module_update(*module, optional_chars(contents)) == (match r {
            Ok(update) => Ok::<(Seq<char>, Value), BadModuleData>((update.module@, update.data)),
            Err(e) => Err::<(Seq<char>, Value), BadModuleData>(e),
        }),
{
    match get_module_data(module, contents) {
        Ok(data) => Ok(ModuleUpdate { module: module.to_string(), data }),
        Err(e) => Err(e),
    }
}

/// The module whose snapshot a file of the given name holds: the name is the
/// module's name followed by `.json`.
pub open spec fn spec_module_for_file_name(file_name: Seq<char>) -> Option<Module> {
    if spec_ends_with(file_name, ".json"@) {
        Module::spec_parse(file_name.subrange(0, file_name.len() - ".json"@.len()))
    } else {
        None
    }
}

/// Tells which module a changed file belongs to, by its name (the last component of
/// its path). `None` for a file that is no module's snapshot.
pub fn module_for_file_name(file_name: &str) -> (r: Option<Module>)
    ensures
        r == spec_module_for_file_name(file_name@),
        r matches Some(module) ==> file_name@ == spec_file_name(module),
{
    match strip_suffix(file_name, ".json") {
        Some(stem) => Module::parse(stem),
        None => None,
    }
}

/// The modules, out of those watched, that a list of changed file names reports:
/// for each file name in turn, each watched module whose snapshot file it is.
pub open spec fn spec_watched_changes(file_names: Seq<Seq<char>>, watched: Seq<Module>) -> Seq<
    Module,
>
    decreases file_names.len(),
{
    if file_names.len() == 0 {
        Seq::empty()
    } else {
        spec_watched_changes(file_names.drop_last(), watched) + watched.filter(
            |m: Module| spec_file_name(m) == file_names.last(),
        )
    }
}

/// Correlates one filesystem notification with the watched modules. `file_names`
/// holds the last path component of each path that the notification names. The result
/// lists, for each file name in turn, the watched modules whose snapshot file it is, in
/// the order in which they are watched.
pub fn watch_modules(file_names: &Vec<String>, watched: &Vec<Module>) -> (r: Vec<Module>)
    ensures
        r@ == spec_watched_changes(views(file_names@), watched@),
{
    let mut changed: Vec<Module> = Vec::new();
    let mut i: usize = 0;
    while i < file_names.len()
        invariant
            i <= file_names.len(),
            changed@ == spec_watched_changes(views(file_names@).take(i as int), watched@),
        decreases file_names.len() - i,
    {
        let ghost name = file_names@[i as int]@;
        let ghost before = changed@;
        let ghost wanted = |m: Module| spec_file_name(m) == name;
        let mut j: usize = 0;
        while j < watched.len()
            invariant
                j <= watched.len(),
                i < file_names.len(),
                name == file_names@[i as int]@,
                wanted == (|m: Module| spec_file_name(m) == name),
                changed@ == before + watched@.take(j as int).filter(wanted),
            decreases watched.len() - j,
        {
            let mut file = watched[j].to_string();
            file.append(".json");
            let hit = str_eq(file_names[i].as_str(), file.as_str());
            proof {
                let head = watched@.take(j as int);
                assert(watched@.take(j + 1) =~= head.push(watched@[j as int]));
                lemma_filter_push(head, watched@[j as int], wanted);
            }
            if hit {
                changed.push(watched[j]);
            }
            j = j + 1;
        }
        proof {
            let names = views(file_names@);
            assert(watched@.take(watched@.len() as int) =~= watched@);
            assert(names.take(i + 1).drop_last() =~= names.take(i as int));
            assert(names.take(i + 1).last() == name);
        }
        i = i + 1;
    }
    proof {
        assert(views(file_names@).take(file_names@.len() as int) =~= views(file_names@));
    }
    changed
}

/// The snapshot of the displays: an object without members.
#[derive(Debug, Clone, Copy, PartialEq, Eq, Structural)]
pub struct ModuleDisplays {}

/// The snapshot of the graphics processors: an object without members.
#[derive(Debug, Clone, Copy, PartialEq, Eq, Structural)]
pub struct ModuleGPUs {}

/// The snapshot of the media: an object without members.
#[derive(Debug, Clone, Copy, PartialEq, Eq, Structural)]
pub struct ModuleMedia {}

/// The snapshot of the sensors: an object without members.
#[derive(Debug, Clone, Copy, PartialEq, Eq, Structural)]
pub struct ModuleSensors {}

} // verus!
