//! Device catalogue: what the host reported at one enumeration, the device
//! records derived from it, and lookup of an input device by name.
//!
//! A manager is one snapshot.  The caller takes a fresh snapshot for every
//! enumeration; nothing is cached here.

use vstd::prelude::*;
use vstd::string::StringExecFns;
use crate::device::AudioDevice;
use crate::device::AudioDeviceView;
use crate::device::DeviceType;
use crate::device::device_views;
use crate::error::AudioError;
use crate::text::chars_of;
use crate::text::contains;
use crate::text::is_substring;
use crate::text::lowercase;
use crate::text::to_lowercase;

verus! {

/// What the host audio subsystem reported at one enumeration.
///
/// A list is `None` where the host could not enumerate that direction at all;
/// an entry is `None` where a device's name could not be read.
pub struct HostSnapshot {
    pub inputs: Option<Vec<Option<String>>>,
    pub outputs: Option<Vec<Option<String>>>,
    /// Name of the host's default input device, if it has one.
    pub default_input: Option<String>,
    /// Name of the host's default output device, if it has one.
    pub default_output: Option<String>,
}

/// Mathematical value of a [`HostSnapshot`].  A direction that could not be
/// enumerated is an empty list.
pub struct HostView {
    pub inputs: Seq<Option<Seq<char>>>,
    pub outputs: Seq<Option<Seq<char>>>,
    pub default_input: Option<Seq<char>>,
    pub default_output: Option<Seq<char>>,
}

/// The view of a name that may be missing.
pub open spec fn name_view(name: Option<String>) -> Option<Seq<char>> {
    match name {
        Some(text) => Some(text@),
        None => None,
    }
}

/// The views of the names of one direction; empty where there is no list.
pub open spec fn names_view(list: Option<Vec<Option<String>>>) -> Seq<Option<Seq<char>>> {
    match list {
        Some(names) => names@.map_values(|n: Option<String>| name_view(n)),
        None => Seq::empty(),
    }
}

impl View for HostSnapshot {
    type V = HostView;

    open spec fn view(&self) -> HostView {
        HostView {
            inputs: names_view(self.inputs),
            outputs: names_view(self.outputs),
            default_input: name_view(self.default_input),
            default_output: name_view(self.default_output),
        }
    }
}

/// Number of keywords that mark a virtual device.
pub const VIRTUAL_KEYWORD_COUNT: usize = 7;

/// Names of known loopback and virtual-cable products, and generic marks of
/// virtual devices.  A device whose name holds one of them, letter case
/// aside, counts as virtual.  This is a heuristic on names, not a fact about
/// the device.
pub open spec fn virtual_keywords() -> Seq<Seq<char>> {
    seq![
        "VB-Cable"@,
        "CABLE Output"@,
        "CABLE Input"@,
        "BlackHole"@,
        "virtual"@,
        "loopback"@,
        "monitor"@,
    ]
}

/// The keywords in lower case.
pub open spec fn lowered_keywords() -> Seq<Seq<char>> {
    virtual_keywords().map_values(|k: Seq<char>| lowercase(k))
}

/// One of `keywords` stands in `name`.
pub open spec fn holds_keyword(name: Seq<char>, keywords: Seq<Seq<char>>) -> bool {
    exists|k: int| 0 <= k < keywords.len() && is_substring(#[trigger] keywords[k], name)
}

/// The name holds one of the virtual-device keywords, letter case aside.
pub open spec fn is_virtual_name(name: Seq<char>) -> bool {
    holds_keyword(lowercase(name), lowered_keywords())
}

/// Prefix of the identifiers of one direction.
pub open spec fn id_prefix(direction: DeviceType) -> Seq<char> {
    match direction {
        DeviceType::Input => "input_"@,
        DeviceType::Output => "output_"@,
    }
}

/// Identifier of a device: the prefix of its direction, then its name.
pub open spec fn device_id(direction: DeviceType, name: Seq<char>) -> Seq<char> {
    id_prefix(direction) + name
}

/// An identifier tells the direction and the name: two devices have the same
/// identifier only if they agree in both.  So the identifiers of a catalogue
/// are distinct as far as the host reports no name twice in one direction.
pub proof fn lemma_device_id_identifies(
    first: DeviceType,
    first_name: Seq<char>,
    second: DeviceType,
    second_name: Seq<char>,
)
    requires
        device_id(first, first_name) == device_id(second, second_name),
    ensures
        first == second,
        first_name == second_name,
{
    reveal_strlit("input_");
    reveal_strlit("output_");
    let a = device_id(first, first_name);
    let b = device_id(second, second_name);
    assert(a[0] == id_prefix(first)[0]);
    assert(b[0] == id_prefix(second)[0]);
    assert(first == second);
    let prefix = id_prefix(first);
    assert(a.len() == prefix.len() + first_name.len());
    assert(b.len() == prefix.len() + second_name.len());
    assert(first_name.len() == second_name.len());
    assert forall|i: int| 0 <= i < first_name.len() implies first_name[i] == second_name[i] by {
        assert(a[prefix.len() + i] == first_name[i]);
        assert(b[prefix.len() + i] == second_name[i]);
    }
    assert(first_name =~= second_name);
}

/// The record of the device of that direction and name, where
/// `default_name` is the name of the host's default device of the direction.
pub open spec fn device_record(
    direction: DeviceType,
    name: Seq<char>,
    default_name: Option<Seq<char>>,
) -> AudioDeviceView {
    AudioDeviceView {
        id: device_id(direction, name),
        name,
        device_type: direction,
        is_virtual: is_virtual_name(name),
        is_default: default_name == Some(name),
    }
}

/// Maps a listed name to its record, and an unreadable name to nothing.
pub open spec fn record_of(direction: DeviceType, default_name: Option<Seq<char>>) -> spec_fn(
    Option<Seq<char>>,
) -> Option<AudioDeviceView> {
    |name: Option<Seq<char>>|
        match name {
            Some(text) => Some(device_record(direction, text, default_name)),
            None => None,
        }
}

/// The records of one direction, in enumeration order; devices with an
/// unreadable name are left out.
pub open spec fn records(
    direction: DeviceType,
    names: Seq<Option<Seq<char>>>,
    default_name: Option<Seq<char>>,
) -> Seq<AudioDeviceView> {
    names.filter_map(record_of(direction, default_name))
}

/// The whole catalogue: inputs first, then outputs.
pub open spec fn catalog(host: HostView) -> Seq<AudioDeviceView> {
    records(DeviceType::Input, host.inputs, host.default_input) + records(
        DeviceType::Output,
        host.outputs,
        host.default_output,
    )
}

/// No readable name occurs twice in `names`.
pub open spec fn distinct_names(names: Seq<Option<Seq<char>>>) -> bool {
    forall|i: int, j: int|
        0 <= i < j < names.len() && names[i] is Some ==> #[trigger] names[i] != #[trigger] names[j]
}

/// Every record of a direction is the record of a listed name.
proof fn lemma_records_are_listed(
    direction: DeviceType,
    names: Seq<Option<Seq<char>>>,
    default_name: Option<Seq<char>>,
    i: int,
)
    requires
        0 <= i < records(direction, names, default_name).len(),
    ensures
        records(direction, names, default_name)[i] == device_record(
            direction,
            records(direction, names, default_name)[i].name,
            default_name,
        ),
        exists|k: int|
            0 <= k < names.len() && #[trigger] names[k] == Some(
                records(direction, names, default_name)[i].name,
            ),
    decreases names.len(),
{
    let pick = record_of(direction, default_name);
    if names.len() > 0 {
        let head = names.drop_last();
        let before = records(direction, head, default_name);
        if i < before.len() {
            lemma_records_are_listed(direction, head, default_name, i);
            let k = choose|k: int|
                0 <= k < head.len() && #[trigger] head[k] == Some(before[i].name);
            assert(names[k] == head[k]);
            match pick(names.last()) {
                Some(record) => {
                    assert(records(direction, names, default_name)[i] == before[i]);
                },
                None => {},
            }
        } else {
            assert(names[names.len() - 1] == names.last());
        }
    }
}

/// Where no readable name occurs twice, no two records of a direction have
/// the same name.
proof fn lemma_record_names_distinct(
    direction: DeviceType,
    names: Seq<Option<Seq<char>>>,
    default_name: Option<Seq<char>>,
    i: int,
    j: int,
)
    requires
        distinct_names(names),
        0 <= i < j < records(direction, names, default_name).len(),
    ensures
        records(direction, names, default_name)[i].name != records(
            direction,
            names,
            default_name,
        )[j].name,
    decreases names.len(),
{
    let pick = record_of(direction, default_name);
    if names.len() > 0 {
        let head = names.drop_last();
        let before = records(direction, head, default_name);
        assert(distinct_names(head)) by {
            assert forall|a: int, b: int|
                0 <= a < b < head.len() && head[a] is Some implies #[trigger] head[a]
                != #[trigger] head[b] by {
                assert(names[a] == head[a]);
                assert(names[b] == head[b]);
            }
        }
        if j < before.len() {
            lemma_record_names_distinct(direction, head, default_name, i, j);
            match pick(names.last()) {
                Some(record) => {
                    assert(records(direction, names, default_name)[i] == before[i]);
                    assert(records(direction, names, default_name)[j] == before[j]);
                },
                None => {},
            }
        } else {
            // The later record is that of the last name; the earlier one is
            // that of a name listed before it.
            lemma_records_are_listed(direction, head, default_name, i);
            let k = choose|k: int|
                0 <= k < head.len() && #[trigger] head[k] == Some(before[i].name);
            assert(names[k] == head[k]);
            assert(names[names.len() - 1] == names.last());
            assert(names[k] != names[names.len() - 1]);
            assert(records(direction, names, default_name)[i] == before[i]);
        }
    }
}

/// Identifiers are unique within a catalogue, provided the host lists no
/// readable name twice in one direction.
pub proof fn lemma_catalog_ids_unique(host: HostView, i: int, j: int)
    requires
        distinct_names(host.inputs),
        distinct_names(host.outputs),
        0 <= i < j < catalog(host).len(),
    ensures
        catalog(host)[i].id != catalog(host)[j].id,
{
    let inputs = records(DeviceType::Input, host.inputs, host.default_input);
    let outputs = records(DeviceType::Output, host.outputs, host.default_output);
    let first = catalog(host)[i];
    let second = catalog(host)[j];
    if j < inputs.len() {
        lemma_records_are_listed(DeviceType::Input, host.inputs, host.default_input, i);
        lemma_records_are_listed(DeviceType::Input, host.inputs, host.default_input, j);
        lemma_record_names_distinct(DeviceType::Input, host.inputs, host.default_input, i, j);
    } else if i >= inputs.len() {
        let a = i - inputs.len();
        let b = j - inputs.len();
        lemma_records_are_listed(DeviceType::Output, host.outputs, host.default_output, a);
        lemma_records_are_listed(DeviceType::Output, host.outputs, host.default_output, b);
        lemma_record_names_distinct(DeviceType::Output, host.outputs, host.default_output, a, b);
    } else {
        let b = j - inputs.len();
        lemma_records_are_listed(DeviceType::Input, host.inputs, host.default_input, i);
        lemma_records_are_listed(DeviceType::Output, host.outputs, host.default_output, b);
    }
    if first.id == second.id {
        lemma_device_id_identifies(first.device_type, first.name, second.device_type, second.name);
    }
}

/// Selects the virtual devices of a catalogue.
pub open spec fn virtual_only() -> spec_fn(AudioDeviceView) -> bool {
    |d: AudioDeviceView| d.is_virtual
}

/// `at` is the position of the first device in `names` whose name is exactly
/// `name`.
pub open spec fn is_first_named(names: Seq<Option<Seq<char>>>, name: Seq<char>, at: int) -> bool {
    &&& 0 <= at < names.len()
    &&& names[at] == Some(name)
    &&& forall|j: int| 0 <= j < at ==> names[j] != Some(name)
}

/// No device in `names` has exactly the name `name`.
pub open spec fn none_named(names: Seq<Option<Seq<char>>>, name: Seq<char>) -> bool {
    forall|j: int| 0 <= j < names.len() ==> names[j] != Some(name)
}

/// The `k`-th keyword.
fn virtual_keyword(k: usize) -> (keyword: &'static str)
    requires
        k < VIRTUAL_KEYWORD_COUNT,
    ensures
        keyword@ == virtual_keywords()[k as int],
{
    if k == 0 {
        "VB-Cable"
    } else if k == 1 {
        "CABLE Output"
    } else if k == 2 {
        "CABLE Input"
    } else if k == 3 {
        "BlackHole"
    } else if k == 4 {
        "virtual"
    } else if k == 5 {
        "loopback"
    } else {
        "monitor"
    }
}

/// The views of a list of character vectors.
pub open spec fn char_views(list: Seq<Vec<char>>) -> Seq<Seq<char>> {
    list.map_values(|v: Vec<char>| v@)
}

/// Whether one of `keywords` stands in `name`.  Both are compared as they
/// are: the caller brings them to one letter case.
pub fn holds_any_keyword(name: &[char], keywords: &[Vec<char>]) -> (r: bool)
    ensures
        r == holds_keyword(name@, char_views(keywords@)),
{
    let count: usize = keywords.len();
    let mut k: usize = 0;
    while k < count
        invariant
            count == keywords@.len(),
            k <= count,
            forall|i: int| 0 <= i < k ==> !is_substring(#[trigger] char_views(keywords@)[i], name@),
        decreases count - k,
    {
        if contains(name, keywords[k].as_slice()) {
            proof {
                assert(is_substring(char_views(keywords@)[k as int], name@));
            }
            return true;
        }
        k = k + 1;
    }
    false
}

/// Identifier of a device of that direction and name.
pub fn make_device_id(direction: DeviceType, name: &str) -> (id: String)
    ensures
        id@ == device_id(direction, name@),
{
    match direction {
        DeviceType::Input => String::from_str("input_").concat(name),
        DeviceType::Output => String::from_str("output_").concat(name),
    }
}

/// Whether `name` is the name in `default_name`.
fn is_named(default_name: &Option<String>, name: &String) -> (r: bool)
    ensures
        r == (name_view(*default_name) == Some(name@)),
{
    match default_name {
        Some(text) => *text == *name,
        None => false,
    }
}

/// Appends to `devices` the records of one direction.
fn push_records(
    devices: &mut Vec<AudioDevice>,
    direction: DeviceType,
    names: &Option<Vec<Option<String>>>,
    default_name: &Option<String>,
)
    ensures
        device_views(final(devices)@) == device_views(old(devices)@) + records(
            direction,
            names_view(*names),
            name_view(*default_name),
        ),
{
    let ghost before: Seq<AudioDeviceView> = device_views(devices@);
    let ghost listed: Seq<Option<Seq<char>>> = names_view(*names);
    let ghost default_view: Option<Seq<char>> = name_view(*default_name);
    let ghost pick = record_of(direction, default_view);
    match names {
        None => {
            proof {
                assert(device_views(devices@) =~= before + records(direction, listed, default_view));
            }
        },
        Some(list) => {
            let count: usize = list.len();
            let mut i: usize = 0;
            proof {
                assert(listed.take(0) =~= Seq::empty());
                assert(device_views(devices@) =~= before + listed.take(0).filter_map(pick));
            }
            while i < count
                invariant
                    count == list@.len(),
                    i <= count,
                    listed == names_view(Some(*list)),
                    listed.len() == count,
                    default_view == name_view(*default_name),
                    pick == record_of(direction, default_view),
                    device_views(devices@) == before + listed.take(i as int).filter_map(pick),
                decreases count - i,
            {
                let ghost so_far: Seq<AudioDeviceView> = device_views(devices@);
                let ghost held: Seq<AudioDevice> = devices@;
                proof {
                    listed.lemma_filter_map_take_succ(pick, i as int);
                    assert(listed[i as int] == name_view(list@[i as int]));
                }
                match &list[i] {
                    Some(name) => {
                        let device = AudioDevice {
                            id: make_device_id(direction, name.as_str()),
                            name: name.clone(),
                            device_type: direction,
                            is_virtual: AudioDeviceManager::is_virtual_device(name.as_str()),
                            is_default: is_named(default_name, name),
                        };
                        proof {
                            assert(device@ == device_record(direction, name@, default_view));
                        }
                        devices.push(device);
                        proof {
                            assert(device_views(devices@) =~= so_far.push(device@));
                        }
                    },
                    None => {},
                }
                i = i + 1;
            }
            proof {
                assert(listed.take(count as int) =~= listed);
            }
        },
    }
}

/// The device catalogue over one host snapshot.
pub struct AudioDeviceManager {
    host: HostSnapshot,
}

impl View for AudioDeviceManager {
    type V = HostView;

    closed spec fn view(&self) -> HostView {
        self.host@
    }
}

impl AudioDeviceManager {
    /// A catalogue over `host`.
    pub fn new(host: HostSnapshot) -> (manager: AudioDeviceManager)
        ensures
            manager@ == host@,
    {
        AudioDeviceManager { host }
    }

    /// Whether the name marks a virtual device: it holds one of the keywords of
    /// [`virtual_keywords`], letter case aside.
    pub fn is_virtual_device(name: &str) -> (r: bool)
        ensures
            r == is_virtual_name(name@),
    {
        let lowered: String = to_lowercase(name);
        let lowered_name: Vec<char> = chars_of(lowered.as_str());
        let mut keywords: Vec<Vec<char>> = Vec::new();
        let mut k: usize = 0;
        while k < VIRTUAL_KEYWORD_COUNT
            invariant
                k <= VIRTUAL_KEYWORD_COUNT,
                keywords@.len() == k,
                forall|i: int| 0 <= i < k ==> (#[trigger] keywords@[i])@ == lowered_keywords()[i],
            decreases VIRTUAL_KEYWORD_COUNT - k,
        {
            let keyword: String = to_lowercase(virtual_keyword(k));
            keywords.push(chars_of(keyword.as_str()));
            k = k + 1;
        }
        proof {
            assert(char_views(keywords@) =~= lowered_keywords());
        }
        holds_any_keyword(lowered_name.as_slice(), keywords.as_slice())
    }

    /// All devices: the inputs in enumeration order, then the outputs.
    /// Devices whose name could not be read are left out, and a direction
    /// that could not be enumerated contributes nothing; neither is an error.
    pub fn get_all_devices(&self) -> (result: Result<Vec<AudioDevice>, AudioError>)
        ensures
            result is Ok,
            device_views(result->Ok_0@) == catalog(self@),
    {
        let mut devices: Vec<AudioDevice> = Vec::new();
        proof {
            assert(device_views(devices@) =~= Seq::empty());
        }
        push_records(&mut devices, DeviceType::Input, &self.host.inputs, &self.host.default_input);
        push_records(
            &mut devices,
            DeviceType::Output,
            &self.host.outputs,
            &self.host.default_output,
        );
        proof {
            assert(device_views(devices@) =~= catalog(self@));
        }
        Ok(devices)
    }

    /// Whether `name` is the name of the host's default input device, as of
    /// this snapshot.
    pub fn is_default_input(&self, name: &str) -> (r: bool)
        ensures
            r == (self@.default_input == Some(name@)),
    {
        let wanted: String = String::from_str(name);
        is_named(&self.host.default_input, &wanted)
    }

    /// Whether `name` is the name of the host's default output device, as of
    /// this snapshot.
    pub fn is_default_output(&self, name: &str) -> (r: bool)
        ensures
            r == (self@.default_output == Some(name@)),
    {
        let wanted: String = String::from_str(name);
        is_named(&self.host.default_output, &wanted)
    }

    /// Position, in enumeration order, of the first input device whose name
    /// is exactly `name` (letter case counts).  Fails with
    /// [`AudioError::DeviceNotFound`] exactly when no input device has that
    /// name.
    pub fn get_input_device_by_name(&self, name: &str) -> (result: Result<usize, AudioError>)
        ensures
            match result {
                Ok(at) => is_first_named(self@.inputs, name@, at as int),
                Err(e) => e == AudioError::DeviceNotFound && none_named(self@.inputs, name@),
            },
            self@.inputs.len() == 0 ==> result == Err::<usize, AudioError>(
                AudioError::DeviceNotFound,
            ),
    {
        let wanted: String = String::from_str(name);
        match &self.host.inputs {
            None => Err(AudioError::DeviceNotFound),
            Some(list) => {
                let count: usize = list.len();
                let mut i: usize = 0;
                while i < count
                    invariant
                        count == list@.len(),
                        i <= count,
                        wanted@ == name@,
                        self@.inputs == names_view(Some(*list)),
                        forall|j: int| 0 <= j < i ==> self@.inputs[j] != Some(name@),
                    decreases count - i,
                {
                    proof {
                        assert(self@.inputs[i as int] == name_view(list@[i as int]));
                    }
                    if is_named(&list[i], &wanted) {
                        return Ok(i);
                    }
                    i = i + 1;
                }
                Err(AudioError::DeviceNotFound)
            },
        }
    }

    /// The virtual devices of the catalogue, in catalogue order.
    pub fn get_virtual_devices(&self) -> (result: Result<Vec<AudioDevice>, AudioError>)
        ensures
            result is Ok,
            device_views(result->Ok_0@) == catalog(self@).filter(virtual_only()),
    {
        let all: Vec<AudioDevice> = match self.get_all_devices() {
            Ok(devices) => devices,
            Err(e) => {
                return Err(e);
            },
        };
        let ghost views: Seq<AudioDeviceView> = device_views(all@);
        let mut picked: Vec<AudioDevice> = Vec::new();
        let count: usize = all.len();
        let mut i: usize = 0;
        proof {
            reveal(Seq::filter);
            assert(views.take(0) =~= Seq::empty());
            assert(device_views(picked@) =~= views.take(0).filter(virtual_only()));
        }
        while i < count
            invariant
                count == all@.len(),
                i <= count,
                views == device_views(all@),
                views == catalog(self@),
                device_views(picked@) == views.take(i as int).filter(virtual_only()),
            decreases count - i,
        {
            let ghost so_far: Seq<AudioDeviceView> = device_views(picked@);
            proof {
                assert(views.take(i + 1) =~= views.take(i as int).push(views[i as int]));
                views.take(i as int).lemma_filter_push(views[i as int], virtual_only());
            }
            if all[i].is_virtual {
                let copy: AudioDevice = all[i].duplicate();
                picked.push(copy);
                proof {
                    assert(device_views(picked@) =~= so_far.push(copy@));
                }
            }
            i = i + 1;
        }
        proof {
            assert(views.take(count as int) =~= views);
        }
        Ok(picked)
    }

    /// Whether the catalogue holds a virtual device.
    pub fn has_virtual_audio_driver(&self) -> (r: bool)
        ensures
            r == exists|i: int|
                0 <= i < catalog(self@).len() && (#[trigger] catalog(self@)[i]).is_virtual,
    {
        match self.get_virtual_devices() {
            Ok(devices) => {
                proof {
                    lemma_filter_nonempty(catalog(self@), virtual_only());
                }
                devices.len() > 0
            },
            Err(_) => false,
        }
    }
}

/// A filtered sequence is non-empty exactly when some element passes.
proof fn lemma_filter_nonempty<A>(s: Seq<A>, pred: spec_fn(A) -> bool)
    ensures
        s.filter(pred).len() > 0 <==> exists|i: int| 0 <= i < s.len() && pred(#[trigger] s[i]),
    decreases s.len(),
{
    reveal(Seq::filter);
    if s.len() > 0 {
        lemma_filter_nonempty(s.drop_last(), pred);
        if exists|i: int| 0 <= i < s.len() && pred(#[trigger] s[i]) {
            let i = choose|i: int| 0 <= i < s.len() && pred(#[trigger] s[i]);
            if i < s.len() - 1 {
                assert(s.drop_last()[i] == s[i]);
            }
        }
        if s.filter(pred).len() > 0 && !pred(s.last()) {
            let i = choose|i: int| 0 <= i < s.drop_last().len() && pred(#[trigger] s.drop_last()[i]);
            assert(s[i] == s.drop_last()[i]);
        }
    }
}

} // verus!
