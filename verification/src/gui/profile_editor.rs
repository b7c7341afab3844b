//! Profile editor component: the fields of a profile as text, and the checks
//! that turn them back into a profile.
use vstd::prelude::*;
use vstd::string::*;

use crate::config::{
    device_match_text, same_mapping, same_mappings, same_profile, DeviceMatch, Mapping, OutputConfig,
    Profile,
};
use crate::events::{EventCode, EventType};
use crate::gui::mapping_editor::is_key_named;
use crate::text::starts_with;

verus! {

/// Simplified mapping entry for the editor: a key remapped to another.
#[derive(Debug)]
pub struct MappingEntry {
    pub from_code: String,
    pub to_code: String,
}

impl Clone for MappingEntry {
    fn clone(&self) -> (r: Self)
        ensures
            r == *self,
    {
        MappingEntry { from_code: self.from_code.clone(), to_code: self.to_code.clone() }
    }
}

/// Profile editor state.
#[derive(Debug, Clone)]
pub struct ProfileEditor {
    /// Profile name
    pub name: String,
    /// Whether this is a new profile
    pub is_new: bool,
    /// Input device path or name
    pub input_device: String,
    /// Output device name
    pub output_name: String,
    /// Whether to grab the device
    pub grab: bool,
    /// Whether the profile is enabled
    pub enabled: bool,
    /// Simple key mappings
    pub mappings: Vec<MappingEntry>,
    /// Error message
    pub error: Option<String>,
}

/// The source and target names of the simple mappings among `ms`, in order;
/// the other kinds of mapping are not shown in this editor.
pub open spec fn simple_pairs(ms: Seq<Mapping>) -> Seq<(Seq<char>, Seq<char>)>
    decreases ms.len(),
{
    if ms.len() == 0 {
        Seq::empty()
    } else {
        let rest = simple_pairs(ms.drop_last());
        match ms.last() {
            Mapping::Simple { from, to } => rest.push((from.code@, to.code@)),
            _ => rest,
        }
    }
}

/// The source and target texts of editor entries.
pub open spec fn entry_pairs(es: Seq<MappingEntry>) -> Seq<(Seq<char>, Seq<char>)> {
    es.map_values(|e: MappingEntry| (e.from_code@, e.to_code@))
}

/// The entries whose source and target are both filled in, in order.
pub open spec fn filled_entries(es: Seq<MappingEntry>) -> Seq<MappingEntry>
    decreases es.len(),
{
    if es.len() == 0 {
        es
    } else {
        let rest = filled_entries(es.drop_last());
        let e = es.last();
        if e.from_code@.len() > 0 && e.to_code@.len() > 0 {
            rest.push(e)
        } else {
            rest
        }
    }
}

/// The device match that an input field names: a path when it starts with
/// `/dev/`, a name otherwise.
pub open spec fn device_field_match(field: Seq<char>, m: DeviceMatch) -> bool {
    if "/dev/"@.is_prefix_of(field) {
        m matches DeviceMatch::Path { path } && path@ == field
    } else {
        m matches DeviceMatch::Name { name } && name@ == field
    }
}

/// Why the editor's fields do not make a profile, if they do not.
pub open spec fn profile_problem(e: ProfileEditor) -> Option<Seq<char>> {
    if e.name@.len() == 0 {
        Some("Profile name is required"@)
    } else if e.input_device@.len() == 0 {
        Some("Input device is required"@)
    } else {
        None
    }
}

/// The profile that the editor's fields make.
pub open spec fn built_from_fields(e: ProfileEditor, p: Profile) -> bool {
    let kept = filled_entries(e.mappings@);
    &&& p.name@ == e.name@
    &&& p.enabled == e.enabled
    &&& p.grab == e.grab
    &&& device_field_match(e.input_device@, p.input_device)
    &&& if e.output_name@.len() == 0 {
        p.output_device.name is None
    } else {
        p.output_device.name matches Some(n) && n@ == e.output_name@
    }
    &&& p.mappings@.len() == kept.len()
    &&& forall|i: int|
        0 <= i < kept.len() ==> (#[trigger] p.mappings@[i] matches Mapping::Simple { from, to }
            && is_key_named(from, kept[i].from_code@) && is_key_named(to, kept[i].to_code@))
}

/// A new, empty editor: a new profile, enabled, not grabbing its device.
pub open spec fn fresh_profile_editor(e: ProfileEditor) -> bool {
    &&& e.name@.len() == 0
    &&& e.is_new
    &&& e.input_device@.len() == 0
    &&& e.output_name@.len() == 0
    &&& !e.grab
    &&& e.enabled
    &&& e.mappings@.len() == 0
    &&& e.error is None
}

/// The editor opened on an existing profile: its fields as text, and its
/// simple mappings.
pub open spec fn editor_of_profile(p: Profile, e: ProfileEditor) -> bool {
    &&& e.name@ == p.name@
    &&& !e.is_new
    &&& e.input_device@ == device_match_text(p.input_device)
    &&& e.output_name@ == match p.output_device.name {
        Some(n) => n@,
        None => Seq::<char>::empty(),
    }
    &&& e.grab == p.grab
    &&& e.enabled == p.enabled
    &&& entry_pairs(e.mappings@) == simple_pairs(p.mappings@)
    &&& e.error is None
}

/// Profiles holding the same mappings show the same simple mappings.
pub proof fn lemma_same_mappings_pairs(a: Seq<Mapping>, b: Seq<Mapping>)
    requires
        same_mappings(a, b),
    ensures
        simple_pairs(a) == simple_pairs(b),
    decreases a.len(),
{
    if a.len() > 0 {
        assert(same_mapping(a.last(), b.last()));
        lemma_same_mappings_pairs(a.drop_last(), b.drop_last());
    }
}

/// An editor opened on a copy of a profile is one opened on the profile.
pub proof fn lemma_editor_of_same_profile(p: Profile, q: Profile, e: ProfileEditor)
    requires
        same_profile(p, q),
        editor_of_profile(q, e),
    ensures
        editor_of_profile(p, e),
{
    lemma_same_mappings_pairs(p.mappings@, q.mappings@);
}

/// A profile that the editor shows in full: a name; a device matched by a
/// `/dev/` path, or by a name that does not start like one; an output name
/// that is absent or not empty; and only simple mappings between key codes
/// with names.
pub open spec fn editable_profile(p: Profile) -> bool {
    &&& p.name@.len() > 0
    &&& match p.input_device {
        DeviceMatch::Path { path } => "/dev/"@.is_prefix_of(path@),
        DeviceMatch::Name { name } => name@.len() > 0 && !"/dev/"@.is_prefix_of(name@),
        DeviceMatch::Id { .. } => false,
    }
    &&& match p.output_device.name {
        Some(n) => n@.len() > 0,
        None => true,
    }
    &&& forall|i: int|
        0 <= i < p.mappings@.len() ==> (#[trigger] p.mappings@[i] matches Mapping::Simple {
            from,
            to,
        } && from.event_type == EventType::Key && to.event_type == EventType::Key
            && from.code@.len() > 0 && to.code@.len() > 0)
}

/// Two profiles read the same: the same texts, flags, device match and
/// simple mappings.
pub open spec fn reads_alike(p: Profile, q: Profile) -> bool {
    &&& q.name@ == p.name@
    &&& q.enabled == p.enabled
    &&& q.grab == p.grab
    &&& match p.input_device {
        DeviceMatch::Path { path } => q.input_device matches DeviceMatch::Path { path: r }
            && r@ == path@,
        DeviceMatch::Name { name } => q.input_device matches DeviceMatch::Name { name: r }
            && r@ == name@,
        DeviceMatch::Id { vendor, product, name } => q.input_device == p.input_device,
    }
    &&& match p.output_device.name {
        Some(n) => q.output_device.name matches Some(m) && m@ == n@,
        None => q.output_device.name is None,
    }
    &&& q.mappings@.len() == p.mappings@.len()
    &&& forall|i: int|
        0 <= i < p.mappings@.len() ==> (#[trigger] p.mappings@[i] matches Mapping::Simple {
            from: f1,
            to: t1,
        } && q.mappings@[i] matches Mapping::Simple { from: f2, to: t2 } && f2.event_type
            == f1.event_type && f2.code@ == f1.code@ && t2.event_type == t1.event_type
            && t2.code@ == t1.code@)
}

/// The simple mappings of a list of simple mappings are all of them.
proof fn lemma_all_simple_pairs(ms: Seq<Mapping>)
    requires
        forall|i: int| 0 <= i < ms.len() ==> (#[trigger] ms[i]) is Simple,
    ensures
        simple_pairs(ms).len() == ms.len(),
        forall|i: int|
            0 <= i < ms.len() ==> (#[trigger] simple_pairs(ms)[i]) == (
                ms[i]->Simple_from.code@,
                ms[i]->Simple_to.code@,
            ),
    decreases ms.len(),
{
    if ms.len() > 0 {
        let rest = ms.drop_last();
        assert forall|i: int| 0 <= i < rest.len() implies (#[trigger] rest[i]) is Simple by {
            assert(rest[i] == ms[i]);
        }
        lemma_all_simple_pairs(rest);
        assert(ms.last() == ms[ms.len() - 1]);
    }
}

/// Entries whose two fields are all filled in are all kept.
proof fn lemma_all_filled(es: Seq<MappingEntry>)
    requires
        forall|i: int|
            0 <= i < es.len() ==> (#[trigger] es[i]).from_code@.len() > 0 && es[i].to_code@.len()
                > 0,
    ensures
        filled_entries(es) == es,
    decreases es.len(),
{
    if es.len() > 0 {
        let rest = es.drop_last();
        assert forall|i: int| 0 <= i < rest.len() implies (#[trigger] rest[i]).from_code@.len() > 0
            && rest[i].to_code@.len() > 0 by {
            assert(rest[i] == es[i]);
        }
        lemma_all_filled(rest);
        assert(es[es.len() - 1] == es.last());
        assert(rest.push(es.last()) =~= es);
    }
}

/// A profile that the editor shows in full opens into fields that build:
/// saving it straight away succeeds.
pub proof fn law_editable_profile_builds(p: Profile, e: ProfileEditor)
    requires
        editable_profile(p),
        editor_of_profile(p, e),
    ensures
        profile_problem(e) is None,
{
    reveal_strlit("/dev/");
    assert(e.input_device@.len() > 0);
}

/// Opening a profile in the editor and building it again gives the profile
/// back, for a profile that the editor shows in full.
pub proof fn law_editor_round_trip(p: Profile, e: ProfileEditor, q: Profile)
    requires
        editable_profile(p),
        editor_of_profile(p, e),
        built_from_fields(e, q),
    ensures
        profile_problem(e) is None,
        reads_alike(p, q),
{
    let ms = p.mappings@;
    let es = e.mappings@;
    reveal_strlit("/dev/");
    assert(e.input_device@.len() > 0);
    assert forall|i: int| 0 <= i < ms.len() implies (#[trigger] ms[i]) is Simple by {}
    lemma_all_simple_pairs(ms);
    assert(entry_pairs(es) == simple_pairs(ms));
    assert(es.len() == ms.len()) by {
        assert(entry_pairs(es).len() == es.len());
    }
    assert forall|i: int| 0 <= i < es.len() implies (#[trigger] es[i]).from_code@.len() > 0
        && es[i].to_code@.len() > 0 by {
        assert(entry_pairs(es)[i] == (es[i].from_code@, es[i].to_code@));
        assert(simple_pairs(ms)[i] == (ms[i]->Simple_from.code@, ms[i]->Simple_to.code@));
    }
    lemma_all_filled(es);
    assert forall|i: int| 0 <= i < ms.len() implies (#[trigger] ms[i] matches Mapping::Simple {
        from: f1,
        to: t1,
    } && q.mappings@[i] matches Mapping::Simple { from: f2, to: t2 } && f2.event_type
        == f1.event_type && f2.code@ == f1.code@ && t2.event_type == t1.event_type && t2.code@
        == t1.code@) by {
        assert(entry_pairs(es)[i] == (es[i].from_code@, es[i].to_code@));
        assert(simple_pairs(ms)[i] == (ms[i]->Simple_from.code@, ms[i]->Simple_to.code@));
        assert(filled_entries(es)[i] == es[i]);
        assert(q.mappings@[i] matches Mapping::Simple { from, to } && is_key_named(
            from,
            es[i].from_code@,
        ) && is_key_named(to, es[i].to_code@));
    }
}

/// Editor entries for the simple mappings of a list.
fn simple_entries(ms: &Vec<Mapping>) -> (r: Vec<MappingEntry>)
    ensures
        entry_pairs(r@) == simple_pairs(ms@),
{
    let mut r: Vec<MappingEntry> = Vec::new();
    let mut i: usize = 0;
    while i < ms.len()
        invariant
            0 <= i <= ms@.len(),
            entry_pairs(r@) == simple_pairs(ms@.take(i as int)),
        decreases ms@.len() - i,
    {
        proof {
            assert(ms@.take(i + 1).drop_last() =~= ms@.take(i as int));
        }
        let ghost before = r@;
        match &ms[i] {
            Mapping::Simple { from, to } => {
                r.push(MappingEntry { from_code: from.code.clone(), to_code: to.code.clone() });
                assert(entry_pairs(r@) =~= entry_pairs(before).push((from.code@, to.code@)));
            },
            _ => {},
        }
        i = i + 1;
    }
    assert(ms@.take(ms@.len() as int) =~= ms@);
    r
}

/// Simple key mappings for the entries whose two fields are filled in.
fn filled_mappings(es: &Vec<MappingEntry>) -> (r: Vec<Mapping>)
    ensures
        r@.len() == filled_entries(es@).len(),
        forall|i: int|
            0 <= i < r@.len() ==> (#[trigger] r@[i] matches Mapping::Simple { from, to }
                && is_key_named(from, filled_entries(es@)[i].from_code@) && is_key_named(
                to,
                filled_entries(es@)[i].to_code@,
            )),
{
    let mut r: Vec<Mapping> = Vec::new();
    let mut i: usize = 0;
    while i < es.len()
        invariant
            0 <= i <= es@.len(),
            r@.len() == filled_entries(es@.take(i as int)).len(),
            forall|j: int|
                0 <= j < r@.len() ==> (#[trigger] r@[j] matches Mapping::Simple { from, to }
                    && is_key_named(from, filled_entries(es@.take(i as int))[j].from_code@)
                    && is_key_named(to, filled_entries(es@.take(i as int))[j].to_code@)),
        decreases es@.len() - i,
    {
        proof {
            assert(es@.take(i + 1).drop_last() =~= es@.take(i as int));
        }
        let e = &es[i];
        if !e.from_code.as_str().is_empty() && !e.to_code.as_str().is_empty() {
            r.push(
                Mapping::simple(
                    EventCode::key(e.from_code.as_str()),
                    EventCode::key(e.to_code.as_str()),
                ),
            );
        }
        i = i + 1;
    }
    assert(es@.take(es@.len() as int) =~= es@);
    r
}

impl ProfileEditor {
    /// Create a new empty profile editor: a new, enabled profile that does
    /// not grab its device.
    pub fn new() -> (r: Self)
        ensures
            fresh_profile_editor(r),
    {
        ProfileEditor {
            name: String::new(),
            is_new: true,
            input_device: String::new(),
            output_name: String::new(),
            grab: false,
            enabled: true,
            mappings: Vec::new(),
            error: None,
        }
    }

    /// Create an editor from an existing profile; only its simple mappings
    /// are shown.
    pub fn from_profile(profile: Profile) -> (r: Self)
        ensures
            editor_of_profile(profile, r),
    {
        let mappings = simple_entries(&profile.mappings);
        let input_device = profile.input_device.display();
        let output_name = match profile.output_device.name {
            Some(n) => n,
            None => String::new(),
        };
        ProfileEditor {
            name: profile.name,
            is_new: false,
            input_device,
            output_name,
            grab: profile.grab,
            enabled: profile.enabled,
            mappings,
            error: None,
        }
    }

    /// The editor's heading: `Create New Profile` for a new profile, `Edit
    /// Profile` otherwise.
    pub fn title(&self) -> (r: &'static str)
        ensures
            r@ == if self.is_new {
                "Create New Profile"@
            } else {
                "Edit Profile"@
            },
    {
        if self.is_new {
            "Create New Profile"
        } else {
            "Edit Profile"
        }
    }

    /// Build a profile from the editor's fields, or say which required field
    /// is empty.
    pub fn build_profile(&self) -> (r: Result<Profile, String>)
        ensures
            match r {
                Ok(p) => profile_problem(*self) is None && built_from_fields(*self, p),
                Err(e) => profile_problem(*self) == Some(e@),
            },
    {
        if self.name.as_str().is_empty() {
            return Err(String::from_str("Profile name is required"));
        }
        if self.input_device.as_str().is_empty() {
            return Err(String::from_str("Input device is required"));
        }
        let input_device = if starts_with(self.input_device.as_str(), "/dev/") {
            DeviceMatch::by_path(self.input_device.as_str())
        } else {
            DeviceMatch::by_name(self.input_device.as_str())
        };
        let output_device = if self.output_name.as_str().is_empty() {
            OutputConfig::default()
        } else {
            OutputConfig::with_name(self.output_name.as_str())
        };
        let mappings = filled_mappings(&self.mappings);
        Ok(
            Profile {
                name: self.name.clone(),
                enabled: self.enabled,
                input_device,
                output_device,
                grab: self.grab,
                mappings,
            },
        )
    }
}

impl Default for ProfileEditor {
    fn default() -> (r: Self)
        ensures
            fresh_profile_editor(r),
    {
        Self::new()
    }
}

} // verus!
