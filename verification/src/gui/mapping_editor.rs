//! Mapping editor component: text fields for each kind of mapping, and the
//! checks that turn them into a mapping.
use vstd::prelude::*;
use vstd::string::*;

use crate::config::{MacroStep, Mapping};
use crate::events::{EventCode, EventType};
use crate::text::{dec_str, lemma_parse_dec_str, parse_unsigned, parse_unsigned_str, u64_to_string};

verus! {

/// Type of macro step.
#[derive(Debug, Clone, Copy, PartialEq, Eq, Structural)]
pub enum MacroStepType {
    Press,
    Release,
    Delay,
}

/// The label a step type is shown by.
pub open spec fn macro_step_type_text(t: MacroStepType) -> Seq<char> {
    match t {
        MacroStepType::Press => "Press"@,
        MacroStepType::Release => "Release"@,
        MacroStepType::Delay => "Delay"@,
    }
}

impl MacroStepType {
    /// The step type's label.
    pub fn to_string(&self) -> (r: String)
        ensures
            r@ == macro_step_type_text(*self),
    {
        match self {
            MacroStepType::Press => String::from_str("Press"),
            MacroStepType::Release => String::from_str("Release"),
            MacroStepType::Delay => String::from_str("Delay"),
        }
    }
}

/// Type of mapping.
#[derive(Debug, Clone, Copy, PartialEq, Eq, Structural)]
pub enum MappingType {
    Simple,
    Macro,
    Conditional,
    Combo,
}

/// The label a mapping type is shown by.
pub open spec fn mapping_type_text(t: MappingType) -> Seq<char> {
    match t {
        MappingType::Simple => "Simple (1:1)"@,
        MappingType::Macro => "Macro (sequence)"@,
        MappingType::Conditional => "Tap/Hold"@,
        MappingType::Combo => "Combo (chord)"@,
    }
}

impl MappingType {
    /// The mapping type's label.
    pub fn to_string(&self) -> (r: String)
        ensures
            r@ == mapping_type_text(*self),
    {
        match self {
            MappingType::Simple => String::from_str("Simple (1:1)"),
            MappingType::Macro => String::from_str("Macro (sequence)"),
            MappingType::Conditional => String::from_str("Tap/Hold"),
            MappingType::Combo => String::from_str("Combo (chord)"),
        }
    }
}

/// Entry for a macro step.
#[derive(Debug)]
pub struct MacroStepEntry {
    pub step_type: MacroStepType,
    pub code: String,
    pub delay_ms: String,
}

impl Clone for MacroStepEntry {
    fn clone(&self) -> (r: Self)
        ensures
            r == *self,
    {
        MacroStepEntry {
            step_type: self.step_type,
            code: self.code.clone(),
            delay_ms: self.delay_ms.clone(),
        }
    }
}

/// Mapping editor messages.
#[derive(Debug)]
pub enum MappingEditorMessage {
    /// Mapping type changed
    TypeChanged(MappingType),
    /// From code changed
    FromCodeChanged(String),
    /// To code changed
    ToCodeChanged(String),
    /// Tap code changed
    TapCodeChanged(String),
    /// Hold code changed
    HoldCodeChanged(String),
    /// Threshold changed
    ThresholdChanged(String),
    /// Add macro step
    AddMacroStep,
    /// Remove macro step
    RemoveMacroStep(usize),
    /// Macro step type changed
    MacroStepTypeChanged(usize, MacroStepType),
    /// Macro step code changed
    MacroStepCodeChanged(usize, String),
    /// Macro step delay changed
    MacroStepDelayChanged(usize, String),
    /// Add combo key
    AddComboKey,
    /// Remove combo key
    RemoveComboKey(usize),
    /// Combo key changed
    ComboKeyChanged(usize, String),
    /// Save mapping
    Save,
    /// Cancel
    Cancel,
}

/// What a mapping editor holds.
pub struct MappingEditorView {
    pub mapping: MappingType,
    pub from_code: Seq<char>,
    pub to_code: Seq<char>,
    pub macro_steps: Seq<MacroStepEntry>,
    pub tap_code: Seq<char>,
    pub hold_code: Seq<char>,
    pub threshold_ms: Seq<char>,
    pub combo_keys: Seq<Seq<char>>,
    pub error: Option<Seq<char>>,
}

/// Mapping editor component.
pub struct MappingEditor {
    /// Current mapping being edited
    mapping: MappingType,
    /// From event code
    from_code: String,
    /// To event code
    to_code: String,
    /// Macro steps
    macro_steps: Vec<MacroStepEntry>,
    /// Tap code (for conditional)
    tap_code: String,
    /// Hold code (for conditional)
    hold_code: String,
    /// Hold threshold
    threshold_ms: String,
    /// Combo keys
    combo_keys: Vec<String>,
    /// Error message
    error: Option<String>,
}

/// The texts of a list of strings.
pub open spec fn texts(s: Seq<String>) -> Seq<Seq<char>> {
    s.map_values(|x: String| x@)
}

impl View for MappingEditor {
    type V = MappingEditorView;

    closed spec fn view(&self) -> MappingEditorView {
        MappingEditorView {
            mapping: self.mapping,
            from_code: self.from_code@,
            to_code: self.to_code@,
            macro_steps: self.macro_steps@,
            tap_code: self.tap_code@,
            hold_code: self.hold_code@,
            threshold_ms: self.threshold_ms@,
            combo_keys: texts(self.combo_keys@),
            error: match self.error {
                Some(e) => Some(e@),
                None => None,
            },
        }
    }
}

/// A fresh editor: a simple mapping with empty fields, a 300 ms threshold
/// and two empty combo keys.
pub open spec fn fresh_editor() -> MappingEditorView {
    MappingEditorView {
        mapping: MappingType::Simple,
        from_code: Seq::empty(),
        to_code: Seq::empty(),
        macro_steps: Seq::empty(),
        tap_code: Seq::empty(),
        hold_code: Seq::empty(),
        threshold_ms: "300"@,
        combo_keys: seq![Seq::empty(), Seq::empty()],
        error: None,
    }
}

/// The editor entry for a macro step: press or release with the key, or a
/// delay with its milliseconds written out.
pub open spec fn entry_matches_step(e: MacroStepEntry, s: MacroStep) -> bool {
    match s {
        MacroStep::Key { code, value } => {
            &&& e.step_type == if value == 1 {
                MacroStepType::Press
            } else {
                MacroStepType::Release
            }
            &&& e.code@ == code@
            &&& e.delay_ms@ == Seq::<char>::empty()
        },
        MacroStep::Delay { delay_ms } => {
            &&& e.step_type == MacroStepType::Delay
            &&& e.code@ == Seq::<char>::empty()
            &&& e.delay_ms@ == dec_str(delay_ms as nat)
        },
    }
}

/// The editor that a mapping opens as.
pub open spec fn editor_for(m: Mapping, v: MappingEditorView) -> bool {
    let f = fresh_editor();
    match m {
        Mapping::Simple { from, to } => v == MappingEditorView {
            mapping: MappingType::Simple,
            from_code: from.code@,
            to_code: to.code@,
            ..f
        },
        Mapping::Macro { trigger, sequence } => {
            &&& v.macro_steps.len() == sequence@.len()
            &&& forall|i: int|
                0 <= i < v.macro_steps.len() ==> entry_matches_step(
                    #[trigger] v.macro_steps[i],
                    sequence@[i],
                )
            &&& v == MappingEditorView {
                mapping: MappingType::Macro,
                from_code: trigger.code@,
                macro_steps: v.macro_steps,
                ..f
            }
        },
        Mapping::Conditional { trigger, tap, hold, threshold_ms } => v == MappingEditorView {
            mapping: MappingType::Conditional,
            from_code: trigger.code@,
            tap_code: match tap {
                Some(c) => c.code@,
                None => Seq::empty(),
            },
            hold_code: match hold {
                Some(c) => c.code@,
                None => Seq::empty(),
            },
            threshold_ms: dec_str(threshold_ms as nat),
            ..f
        },
        Mapping::Combo { keys, output, .. } => v == MappingEditorView {
            mapping: MappingType::Combo,
            to_code: output.code@,
            combo_keys: keys@.map_values(|k: EventCode| k.code@),
            ..f
        },
    }
}

/// The problem with one macro step, if any.
pub open spec fn step_problem(e: MacroStepEntry) -> Option<Seq<char>> {
    match e.step_type {
        MacroStepType::Press | MacroStepType::Release => if e.code@.len() == 0 {
            Some("Key code is required"@)
        } else {
            None
        },
        MacroStepType::Delay => if parse_unsigned(e.delay_ms@, u32::MAX as nat) is None {
            Some("Invalid delay"@)
        } else {
            None
        },
    }
}

/// The problem with the first macro step that has one, if any.
pub open spec fn steps_problem(s: Seq<MacroStepEntry>) -> Option<Seq<char>>
    decreases s.len(),
{
    if s.len() == 0 {
        None
    } else {
        match steps_problem(s.drop_last()) {
            Some(p) => Some(p),
            None => step_problem(s.last()),
        }
    }
}

/// The non-empty combo keys, in order.
pub open spec fn nonempty_keys(ks: Seq<Seq<char>>) -> Seq<Seq<char>>
    decreases ks.len(),
{
    if ks.len() == 0 {
        ks
    } else {
        let rest = nonempty_keys(ks.drop_last());
        if ks.last().len() == 0 {
            rest
        } else {
            rest.push(ks.last())
        }
    }
}

/// Why the editor's fields do not make a mapping, if they do not.
pub open spec fn build_problem(v: MappingEditorView) -> Option<Seq<char>> {
    match v.mapping {
        MappingType::Simple => if v.from_code.len() == 0 {
            Some("From code is required"@)
        } else if v.to_code.len() == 0 {
            Some("To code is required"@)
        } else {
            None
        },
        MappingType::Macro => if v.from_code.len() == 0 {
            Some("Trigger code is required"@)
        } else if v.macro_steps.len() == 0 {
            Some("At least one macro step is required"@)
        } else {
            steps_problem(v.macro_steps)
        },
        MappingType::Conditional => if v.from_code.len() == 0 {
            Some("Trigger code is required"@)
        } else if v.tap_code.len() == 0 && v.hold_code.len() == 0 {
            Some("At least tap or hold must be specified"@)
        } else if parse_unsigned(v.threshold_ms, u32::MAX as nat) is None {
            Some("Invalid threshold"@)
        } else {
            None
        },
        MappingType::Combo => if v.to_code.len() == 0 {
            Some("Output code is required"@)
        } else if nonempty_keys(v.combo_keys).len() < 2 {
            Some("At least 2 combo keys are required"@)
        } else {
            None
        },
    }
}

/// `c` is the key event code named `name`.
pub open spec fn is_key_named(c: EventCode, name: Seq<char>) -> bool {
    c.event_type == EventType::Key && c.code@ == name
}

/// The macro step that an editor entry makes.
pub open spec fn step_from_entry(e: MacroStepEntry, s: MacroStep) -> bool {
    match e.step_type {
        MacroStepType::Press => s matches MacroStep::Key { code, value } && code@ == e.code@
            && value == 1,
        MacroStepType::Release => s matches MacroStep::Key { code, value } && code@ == e.code@
            && value == 0,
        MacroStepType::Delay => s matches MacroStep::Delay { delay_ms } && Some(delay_ms as nat)
            == parse_unsigned(e.delay_ms@, u32::MAX as nat),
    }
}

/// `c` is the optional key event code for a field: none when it is empty.
pub open spec fn optional_key(c: Option<EventCode>, field: Seq<char>) -> bool {
    if field.len() == 0 {
        c is None
    } else {
        c matches Some(k) && is_key_named(k, field)
    }
}

/// The mapping that the editor's fields make.
pub open spec fn built_from_editor(v: MappingEditorView, m: Mapping) -> bool {
    match v.mapping {
        MappingType::Simple => m matches Mapping::Simple { from, to } && is_key_named(
            from,
            v.from_code,
        ) && is_key_named(to, v.to_code),
        MappingType::Macro => m matches Mapping::Macro { trigger, sequence } && is_key_named(
            trigger,
            v.from_code,
        ) && sequence@.len() == v.macro_steps.len() && forall|i: int|
            0 <= i < sequence@.len() ==> step_from_entry(
                v.macro_steps[i],
                #[trigger] sequence@[i],
            ),
        MappingType::Conditional => m matches Mapping::Conditional {
            trigger,
            tap,
            hold,
            threshold_ms,
        } && is_key_named(trigger, v.from_code) && optional_key(tap, v.tap_code) && optional_key(
            hold,
            v.hold_code,
        ) && Some(threshold_ms as nat) == parse_unsigned(v.threshold_ms, u32::MAX as nat),
        MappingType::Combo => m matches Mapping::Combo { keys, output, order_sensitive } && {
            let names = nonempty_keys(v.combo_keys);
            &&& !order_sensitive
            &&& is_key_named(output, v.to_code)
            &&& keys@.len() == names.len()
            &&& forall|i: int| 0 <= i < keys@.len() ==> is_key_named(#[trigger] keys@[i], names[i])
        },
    }
}

/// A key code with a name.
pub open spec fn named_key(c: EventCode) -> bool {
    c.event_type == EventType::Key && c.code@.len() > 0
}

/// A macro step that the editor shows as it is: a press or release of a
/// named key, or a delay.
pub open spec fn editable_step(s: MacroStep) -> bool {
    match s {
        MacroStep::Key { code, value } => code@.len() > 0 && (value == 0 || value == 1),
        MacroStep::Delay { .. } => true,
    }
}

/// A mapping that the editor shows in full: named key codes throughout, a
/// macro with steps that are presses, releases or delays, a tap/hold key
/// with a tap or a hold action, a combo of at least two keys that does not
/// depend on their order.
pub open spec fn editable_mapping(m: Mapping) -> bool {
    match m {
        Mapping::Simple { from, to } => named_key(from) && named_key(to),
        Mapping::Macro { trigger, sequence } => named_key(trigger) && sequence@.len() > 0 && forall|
            i: int,
        |
            0 <= i < sequence@.len() ==> editable_step(#[trigger] sequence@[i]),
        Mapping::Conditional { trigger, tap, hold, .. } => {
            &&& named_key(trigger)
            &&& (tap is Some || hold is Some)
            &&& (tap matches Some(c) ==> named_key(c))
            &&& (hold matches Some(c) ==> named_key(c))
        },
        Mapping::Combo { keys, output, order_sensitive } => {
            &&& !order_sensitive
            &&& named_key(output)
            &&& keys@.len() >= 2
            &&& forall|i: int| 0 <= i < keys@.len() ==> named_key(#[trigger] keys@[i])
        },
    }
}

/// Two codes of the same type and name.
pub open spec fn same_code(a: EventCode, b: EventCode) -> bool {
    a.event_type == b.event_type && a.code@ == b.code@
}

/// Two macro steps that do the same.
pub open spec fn same_step(a: MacroStep, b: MacroStep) -> bool {
    match a {
        MacroStep::Key { code, value } => b matches MacroStep::Key { code: c, value: v } && c@
            == code@ && v == value,
        MacroStep::Delay { delay_ms } => b matches MacroStep::Delay { delay_ms: d } && d
            == delay_ms,
    }
}

/// Two optional codes that are both absent or of the same type and name.
pub open spec fn same_optional_code(a: Option<EventCode>, b: Option<EventCode>) -> bool {
    match a {
        Some(c) => b matches Some(d) && same_code(c, d),
        None => b is None,
    }
}

/// Two mappings that read alike: the same kind, codes, steps and settings.
pub open spec fn mappings_alike(m: Mapping, n: Mapping) -> bool {
    match m {
        Mapping::Simple { from, to } => n matches Mapping::Simple { from: f, to: t } && same_code(
            from,
            f,
        ) && same_code(to, t),
        Mapping::Macro { trigger, sequence } => n matches Mapping::Macro {
            trigger: t,
            sequence: q,
        } && same_code(trigger, t) && q@.len() == sequence@.len() && forall|i: int|
            0 <= i < sequence@.len() ==> same_step(#[trigger] sequence@[i], q@[i]),
        Mapping::Conditional { trigger, tap, hold, threshold_ms } => n matches Mapping::Conditional {
            trigger: t,
            tap: a,
            hold: h,
            threshold_ms: ms,
        } && same_code(trigger, t) && same_optional_code(tap, a) && same_optional_code(hold, h)
            && ms == threshold_ms,
        Mapping::Combo { keys, output, order_sensitive } => n matches Mapping::Combo {
            keys: k,
            output: o,
            order_sensitive: x,
        } && x == order_sensitive && same_code(output, o) && k@.len() == keys@.len() && forall|
            i: int,
        | 0 <= i < keys@.len() ==> same_code(#[trigger] keys@[i], k@[i]),
    }
}

/// Steps that each have no problem have none together.
proof fn lemma_no_step_problem(s: Seq<MacroStepEntry>)
    requires
        forall|i: int| 0 <= i < s.len() ==> step_problem(#[trigger] s[i]) is None,
    ensures
        steps_problem(s) is None,
    decreases s.len(),
{
    if s.len() > 0 {
        let rest = s.drop_last();
        assert forall|i: int| 0 <= i < rest.len() implies step_problem(#[trigger] rest[i]) is None by {
            assert(rest[i] == s[i]);
        }
        lemma_no_step_problem(rest);
        assert(s.last() == s[s.len() - 1]);
    }
}

/// Keys that are all named are all kept.
proof fn lemma_all_named(ks: Seq<Seq<char>>)
    requires
        forall|i: int| 0 <= i < ks.len() ==> (#[trigger] ks[i]).len() > 0,
    ensures
        nonempty_keys(ks) == ks,
    decreases ks.len(),
{
    if ks.len() > 0 {
        let rest = ks.drop_last();
        assert forall|i: int| 0 <= i < rest.len() implies (#[trigger] rest[i]).len() > 0 by {
            assert(rest[i] == ks[i]);
        }
        lemma_all_named(rest);
        assert(ks[ks.len() - 1] == ks.last());
        assert(rest.push(ks.last()) =~= ks);
    }
}

/// A mapping that the editor shows in full opens into fields that build:
/// saving it straight away succeeds.
pub proof fn law_editable_mapping_builds(m: Mapping, v: MappingEditorView)
    requires
        editable_mapping(m),
        editor_for(m, v),
    ensures
        build_problem(v) is None,
{
    match m {
        Mapping::Macro { trigger, sequence } => {
            let es = v.macro_steps;
            assert forall|i: int| 0 <= i < es.len() implies step_problem(#[trigger] es[i]) is None by {
                assert(entry_matches_step(es[i], sequence@[i]));
                assert(editable_step(sequence@[i]));
                match sequence@[i] {
                    MacroStep::Key { code, value } => {},
                    MacroStep::Delay { delay_ms } => {
                        lemma_parse_dec_str(delay_ms as nat, u32::MAX as nat);
                    },
                }
            }
            lemma_no_step_problem(es);
        },
        Mapping::Conditional { trigger, tap, hold, threshold_ms } => {
            lemma_parse_dec_str(threshold_ms as nat, u32::MAX as nat);
        },
        Mapping::Combo { keys, output, order_sensitive } => {
            let names = keys@.map_values(|k: EventCode| k.code@);
            assert(v.combo_keys == names);
            assert forall|i: int| 0 <= i < names.len() implies (#[trigger] names[i]).len() > 0 by {
                assert(named_key(keys@[i]));
            }
            lemma_all_named(names);
        },
        _ => {},
    }
}

/// Opening a mapping in the editor and saving it again gives the mapping
/// back, for a mapping that the editor shows in full.
pub proof fn law_mapping_editor_round_trip(m: Mapping, v: MappingEditorView, n: Mapping)
    requires
        editable_mapping(m),
        editor_for(m, v),
        built_from_editor(v, n),
    ensures
        build_problem(v) is None,
        mappings_alike(m, n),
{
    match m {
        Mapping::Simple { from, to } => {},
        Mapping::Macro { trigger, sequence } => {
            let es = v.macro_steps;
            assert forall|i: int| 0 <= i < es.len() implies step_problem(#[trigger] es[i]) is None by {
                assert(entry_matches_step(es[i], sequence@[i]));
                assert(editable_step(sequence@[i]));
                match sequence@[i] {
                    MacroStep::Key { code, value } => {},
                    MacroStep::Delay { delay_ms } => {
                        lemma_parse_dec_str(delay_ms as nat, u32::MAX as nat);
                    },
                }
            }
            lemma_no_step_problem(es);
            if let Mapping::Macro { trigger: t, sequence: q } = n {
                assert forall|i: int| 0 <= i < sequence@.len() implies same_step(
                    #[trigger] sequence@[i],
                    q@[i],
                ) by {
                    assert(entry_matches_step(es[i], sequence@[i]));
                    assert(step_from_entry(es[i], q@[i]));
                    assert(editable_step(sequence@[i]));
                    match sequence@[i] {
                        MacroStep::Key { code, value } => {},
                        MacroStep::Delay { delay_ms } => {
                            lemma_parse_dec_str(delay_ms as nat, u32::MAX as nat);
                        },
                    }
                }
            }
        },
        Mapping::Conditional { trigger, tap, hold, threshold_ms } => {
            lemma_parse_dec_str(threshold_ms as nat, u32::MAX as nat);
        },
        Mapping::Combo { keys, output, order_sensitive } => {
            let names = keys@.map_values(|k: EventCode| k.code@);
            assert(v.combo_keys == names);
            assert forall|i: int| 0 <= i < names.len() implies (#[trigger] names[i]).len() > 0 by {
                assert(named_key(keys@[i]));
            }
            lemma_all_named(names);
            if let Mapping::Combo { keys: k, output: o, order_sensitive: x } = n {
                assert forall|i: int| 0 <= i < keys@.len() implies same_code(
                    #[trigger] keys@[i],
                    k@[i],
                ) by {
                    assert(named_key(keys@[i]));
                    assert(is_key_named(k@[i], names[i]));
                }
            }
        },
    }
}

impl MappingEditor {
    /// Create a new empty mapping editor.
    pub fn new() -> (r: Self)
        ensures
            r@ == fresh_editor(),
    {
        let r = MappingEditor {
            mapping: MappingType::Simple,
            from_code: String::new(),
            to_code: String::new(),
            macro_steps: Vec::new(),
            tap_code: String::new(),
            hold_code: String::new(),
            threshold_ms: String::from_str("300"),
            combo_keys: vec![String::new(), String::new()],
            error: None,
        };
        assert(r@.combo_keys =~= fresh_editor().combo_keys);
        assert(r@ =~= fresh_editor());
        r
    }

    /// Create an editor from an existing mapping.
    pub fn from_mapping(mapping: &Mapping) -> (r: Self)
        ensures
            editor_for(*mapping, r@),
    {
        match mapping {
            Mapping::Simple { from, to } => {
                let mut ed = Self::new();
                ed.from_code = from.code.clone();
                ed.to_code = to.code.clone();
                assert(ed@ =~= (MappingEditorView {
                    mapping: MappingType::Simple,
                    from_code: from.code@,
                    to_code: to.code@,
                    ..fresh_editor()
                }));
                ed
            },
            Mapping::Macro { trigger, sequence } => {
                let mut steps: Vec<MacroStepEntry> = Vec::new();
                let mut i: usize = 0;
                while i < sequence.len()
                    invariant
                        0 <= i <= sequence@.len(),
                        steps@.len() == i,
                        forall|j: int|
                            0 <= j < i ==> entry_matches_step(#[trigger] steps@[j], sequence@[j]),
                    decreases sequence@.len() - i,
                {
                    let entry = match &sequence[i] {
                        MacroStep::Key { code, value } => MacroStepEntry {
                            step_type: if *value == 1 {
                                MacroStepType::Press
                            } else {
                                MacroStepType::Release
                            },
                            code: code.clone(),
                            delay_ms: String::new(),
                        },
                        MacroStep::Delay { delay_ms } => MacroStepEntry {
                            step_type: MacroStepType::Delay,
                            code: String::new(),
                            delay_ms: u64_to_string(*delay_ms as u64),
                        },
                    };
                    steps.push(entry);
                    i = i + 1;
                }
                let mut ed = Self::new();
                ed.mapping = MappingType::Macro;
                ed.from_code = trigger.code.clone();
                ed.macro_steps = steps;
                assert(ed@ =~= (MappingEditorView {
                    mapping: MappingType::Macro,
                    from_code: trigger.code@,
                    macro_steps: ed@.macro_steps,
                    ..fresh_editor()
                }));
                ed
            },
            Mapping::Conditional { trigger, tap, hold, threshold_ms } => {
                let mut ed = Self::new();
                ed.mapping = MappingType::Conditional;
                ed.from_code = trigger.code.clone();
                ed.tap_code = match tap {
                    Some(c) => c.code.clone(),
                    None => String::new(),
                };
                ed.hold_code = match hold {
                    Some(c) => c.code.clone(),
                    None => String::new(),
                };
                ed.threshold_ms = u64_to_string(*threshold_ms as u64);
                assert(ed@ =~= (MappingEditorView {
                    mapping: MappingType::Conditional,
                    from_code: trigger.code@,
                    tap_code: match tap {
                        Some(c) => c.code@,
                        None => Seq::empty(),
                    },
                    hold_code: match hold {
                        Some(c) => c.code@,
                        None => Seq::empty(),
                    },
                    threshold_ms: dec_str(*threshold_ms as nat),
                    ..fresh_editor()
                }));
                ed
            },
            Mapping::Combo { keys, output, .. } => {
                let mut names: Vec<String> = Vec::new();
                let mut i: usize = 0;
                while i < keys.len()
                    invariant
                        0 <= i <= keys@.len(),
                        names@.len() == i,
                        forall|j: int| 0 <= j < i ==> (#[trigger] names@[j])@ == keys@[j].code@,
                    decreases keys@.len() - i,
                {
                    names.push(keys[i].code.clone());
                    i = i + 1;
                }
                assert(texts(names@) =~= keys@.map_values(|k: EventCode| k.code@));
                let mut ed = Self::new();
                ed.mapping = MappingType::Combo;
                ed.to_code = output.code.clone();
                ed.combo_keys = names;
                assert(ed@ =~= (MappingEditorView {
                    mapping: MappingType::Combo,
                    to_code: output.code@,
                    combo_keys: keys@.map_values(|k: EventCode| k.code@),
                    ..fresh_editor()
                }));
                ed
            },
        }
    }
}


/// A problem found among the first steps is the first problem of them all.
proof fn lemma_steps_problem_prefix(s: Seq<MacroStepEntry>, k: int)
    requires
        0 <= k <= s.len(),
        steps_problem(s.take(k)) is Some,
    ensures
        steps_problem(s) == steps_problem(s.take(k)),
    decreases s.len(),
{
    if k == s.len() {
        assert(s.take(k) =~= s);
    } else {
        assert(s.drop_last().take(k) =~= s.take(k));
        lemma_steps_problem_prefix(s.drop_last(), k);
    }
}

/// Turns the editor's macro step entries into macro steps, stopping at the
/// first entry that has a problem.
fn build_steps(entries: &Vec<MacroStepEntry>) -> (r: Result<Vec<MacroStep>, String>)
    ensures
        match r {
            Ok(steps) => {
                &&& steps_problem(entries@) is None
                &&& steps@.len() == entries@.len()
                &&& forall|i: int|
                    0 <= i < steps@.len() ==> step_from_entry(
                        entries@[i],
                        #[trigger] steps@[i],
                    )
            },
            Err(e) => steps_problem(entries@) == Some(e@),
        },
{
    let mut steps: Vec<MacroStep> = Vec::new();
    let mut i: usize = 0;
    while i < entries.len()
        invariant
            0 <= i <= entries@.len(),
            steps_problem(entries@.take(i as int)) is None,
            steps@.len() == i,
            forall|j: int| 0 <= j < i ==> step_from_entry(entries@[j], #[trigger] steps@[j]),
        decreases entries@.len() - i,
    {
        let entry = &entries[i];
        proof {
            assert(entries@.take(i + 1).drop_last() =~= entries@.take(i as int));
            assert(entries@.take(i + 1).last() == entries@[i as int]);
        }
        let step = match entry.step_type {
            MacroStepType::Press | MacroStepType::Release => {
                if entry.code.as_str().is_empty() {
                    proof {
                        lemma_steps_problem_prefix(entries@, i + 1);
                    }
                    return Err(String::from_str("Key code is required"));
                }
                match entry.step_type {
                    MacroStepType::Press => MacroStep::press(entry.code.as_str()),
                    _ => MacroStep::release(entry.code.as_str()),
                }
            },
            MacroStepType::Delay => {
                match parse_unsigned_str(entry.delay_ms.as_str(), u32::MAX) {
                    Some(ms) => MacroStep::delay(ms),
                    None => {
                        proof {
                            lemma_steps_problem_prefix(entries@, i + 1);
                        }
                        return Err(String::from_str("Invalid delay"));
                    },
                }
            },
        };
        steps.push(step);
        i = i + 1;
    }
    assert(entries@.take(entries@.len() as int) =~= entries@);
    Ok(steps)
}

/// Key event codes for the non-empty combo key fields, in order.
fn nonempty_key_codes(keys: &Vec<String>) -> (r: Vec<EventCode>)
    ensures
        r@.len() == nonempty_keys(texts(keys@)).len(),
        forall|i: int|
            0 <= i < r@.len() ==> is_key_named(#[trigger] r@[i], nonempty_keys(texts(keys@))[i]),
{
    let ghost ks = texts(keys@);
    let mut r: Vec<EventCode> = Vec::new();
    let mut i: usize = 0;
    while i < keys.len()
        invariant
            0 <= i <= keys@.len(),
            ks == texts(keys@),
            r@.len() == nonempty_keys(ks.take(i as int)).len(),
            forall|j: int|
                0 <= j < r@.len() ==> is_key_named(
                    #[trigger] r@[j],
                    nonempty_keys(ks.take(i as int))[j],
                ),
        decreases keys@.len() - i,
    {
        proof {
            assert(ks.take(i + 1).drop_last() =~= ks.take(i as int));
            assert(ks.take(i + 1).last() == keys@[i as int]@);
        }
        if !keys[i].as_str().is_empty() {
            r.push(EventCode::key(keys[i].as_str()));
        }
        i = i + 1;
    }
    assert(ks.take(keys@.len() as int) =~= ks);
    r
}

impl MappingEditor {
    /// Builds the mapping that the editor's fields describe, or says what is
    /// missing or malformed.
    pub fn build_mapping(&self) -> (r: Result<Mapping, String>)
        ensures
            match r {
                Ok(m) => build_problem(self@) is None && built_from_editor(self@, m),
                Err(e) => build_problem(self@) == Some(e@),
            },
    {
        match self.mapping {
            MappingType::Simple => {
                if self.from_code.as_str().is_empty() {
                    return Err(String::from_str("From code is required"));
                }
                if self.to_code.as_str().is_empty() {
                    return Err(String::from_str("To code is required"));
                }
                Ok(
                    Mapping::simple(
                        EventCode::key(self.from_code.as_str()),
                        EventCode::key(self.to_code.as_str()),
                    ),
                )
            },
            MappingType::Macro => {
                if self.from_code.as_str().is_empty() {
                    return Err(String::from_str("Trigger code is required"));
                }
                if self.macro_steps.len() == 0 {
                    return Err(String::from_str("At least one macro step is required"));
                }
                let steps = build_steps(&self.macro_steps)?;
                Ok(Mapping::macro_seq(EventCode::key(self.from_code.as_str()), steps))
            },
            MappingType::Conditional => {
                if self.from_code.as_str().is_empty() {
                    return Err(String::from_str("Trigger code is required"));
                }
                if self.tap_code.as_str().is_empty() && self.hold_code.as_str().is_empty() {
                    return Err(String::from_str("At least tap or hold must be specified"));
                }
                let threshold = match parse_unsigned_str(self.threshold_ms.as_str(), u32::MAX) {
                    Some(t) => t,
                    None => {
                        return Err(String::from_str("Invalid threshold"));
                    },
                };
                let tap = if self.tap_code.as_str().is_empty() {
                    None
                } else {
                    Some(EventCode::key(self.tap_code.as_str()))
                };
                let hold = if self.hold_code.as_str().is_empty() {
                    None
                } else {
                    Some(EventCode::key(self.hold_code.as_str()))
                };
                Ok(
                    Mapping::conditional(
                        EventCode::key(self.from_code.as_str()),
                        tap,
                        hold,
                        threshold,
                    ),
                )
            },
            MappingType::Combo => {
                if self.to_code.as_str().is_empty() {
                    return Err(String::from_str("Output code is required"));
                }
                let keys = nonempty_key_codes(&self.combo_keys);
                if keys.len() < 2 {
                    return Err(String::from_str("At least 2 combo keys are required"));
                }
                Ok(Mapping::combo(keys, EventCode::key(self.to_code.as_str())))
            },
        }
    }
}

/// The editor after a message: each field message sets its field, the list
/// messages edit their list where the index is in range (a combo keeps at
/// least two key fields), and saving or cancelling leaves it as it is.
pub open spec fn editor_updated(
    v: MappingEditorView,
    m: MappingEditorMessage,
    w: MappingEditorView,
) -> bool {
    match m {
        MappingEditorMessage::TypeChanged(t) => w == MappingEditorView { mapping: t, ..v },
        MappingEditorMessage::FromCodeChanged(s) => w == MappingEditorView { from_code: s@, ..v },
        MappingEditorMessage::ToCodeChanged(s) => w == MappingEditorView { to_code: s@, ..v },
        MappingEditorMessage::TapCodeChanged(s) => w == MappingEditorView { tap_code: s@, ..v },
        MappingEditorMessage::HoldCodeChanged(s) => w == MappingEditorView { hold_code: s@, ..v },
        MappingEditorMessage::ThresholdChanged(s) => w == MappingEditorView {
            threshold_ms: s@,
            ..v
        },
        MappingEditorMessage::AddMacroStep => {
            &&& w == MappingEditorView { macro_steps: w.macro_steps, ..v }
            &&& w.macro_steps.len() == v.macro_steps.len() + 1
            &&& w.macro_steps.drop_last() == v.macro_steps
            &&& w.macro_steps.last().step_type == MacroStepType::Press
            &&& w.macro_steps.last().code@ == Seq::<char>::empty()
            &&& w.macro_steps.last().delay_ms@ == "50"@
        },
        MappingEditorMessage::RemoveMacroStep(i) => w == if i < v.macro_steps.len() {
            MappingEditorView { macro_steps: v.macro_steps.remove(i as int), ..v }
        } else {
            v
        },
        MappingEditorMessage::MacroStepTypeChanged(i, t) => w == if i < v.macro_steps.len() {
            MappingEditorView {
                macro_steps: v.macro_steps.update(
                    i as int,
                    MacroStepEntry { step_type: t, ..v.macro_steps[i as int] },
                ),
                ..v
            }
        } else {
            v
        },
        MappingEditorMessage::MacroStepCodeChanged(i, s) => w == if i < v.macro_steps.len() {
            MappingEditorView {
                macro_steps: v.macro_steps.update(
                    i as int,
                    MacroStepEntry { code: s, ..v.macro_steps[i as int] },
                ),
                ..v
            }
        } else {
            v
        },
        MappingEditorMessage::MacroStepDelayChanged(i, s) => w == if i < v.macro_steps.len() {
            MappingEditorView {
                macro_steps: v.macro_steps.update(
                    i as int,
                    MacroStepEntry { delay_ms: s, ..v.macro_steps[i as int] },
                ),
                ..v
            }
        } else {
            v
        },
        MappingEditorMessage::AddComboKey => w == MappingEditorView {
            combo_keys: v.combo_keys.push(Seq::empty()),
            ..v
        },
        MappingEditorMessage::RemoveComboKey(i) => w == if v.combo_keys.len() > 2 && i
            < v.combo_keys.len() {
            MappingEditorView { combo_keys: v.combo_keys.remove(i as int), ..v }
        } else {
            v
        },
        MappingEditorMessage::ComboKeyChanged(i, s) => w == if i < v.combo_keys.len() {
            MappingEditorView { combo_keys: v.combo_keys.update(i as int, s@), ..v }
        } else {
            v
        },
        MappingEditorMessage::Save | MappingEditorMessage::Cancel => w == v,
    }
}

impl MappingEditor {
    /// Applies a message to the editor.
    pub fn update(&mut self, message: MappingEditorMessage)
        ensures
            editor_updated(old(self)@, message, final(self)@),
    {
        match message {
            MappingEditorMessage::TypeChanged(t) => {
                self.mapping = t;
            },
            MappingEditorMessage::FromCodeChanged(s) => {
                self.from_code = s;
            },
            MappingEditorMessage::ToCodeChanged(s) => {
                self.to_code = s;
            },
            MappingEditorMessage::TapCodeChanged(s) => {
                self.tap_code = s;
            },
            MappingEditorMessage::HoldCodeChanged(s) => {
                self.hold_code = s;
            },
            MappingEditorMessage::ThresholdChanged(s) => {
                self.threshold_ms = s;
            },
            MappingEditorMessage::AddMacroStep => {
                self.macro_steps.push(
                    MacroStepEntry {
                        step_type: MacroStepType::Press,
                        code: String::new(),
                        delay_ms: String::from_str("50"),
                    },
                );
                assert(self@.macro_steps.drop_last() =~= old(self)@.macro_steps);
            },
            MappingEditorMessage::RemoveMacroStep(i) => {
                if i < self.macro_steps.len() {
                    self.macro_steps.remove(i);
                }
            },
            MappingEditorMessage::MacroStepTypeChanged(i, t) => {
                if i < self.macro_steps.len() {
                    let mut e = self.macro_steps[i].clone();
                    e.step_type = t;
                    self.macro_steps.set(i, e);
                }
            },
            MappingEditorMessage::MacroStepCodeChanged(i, s) => {
                if i < self.macro_steps.len() {
                    let mut e = self.macro_steps[i].clone();
                    e.code = s;
                    self.macro_steps.set(i, e);
                }
            },
            MappingEditorMessage::MacroStepDelayChanged(i, s) => {
                if i < self.macro_steps.len() {
                    let mut e = self.macro_steps[i].clone();
                    e.delay_ms = s;
                    self.macro_steps.set(i, e);
                }
            },
            MappingEditorMessage::AddComboKey => {
                self.combo_keys.push(String::new());
                assert(self@.combo_keys =~= old(self)@.combo_keys.push(Seq::empty()));
            },
            MappingEditorMessage::RemoveComboKey(i) => {
                if self.combo_keys.len() > 2 && i < self.combo_keys.len() {
                    self.combo_keys.remove(i);
                    assert(self@.combo_keys =~= old(self)@.combo_keys.remove(i as int));
                }
            },
            MappingEditorMessage::ComboKeyChanged(i, s) => {
                if i < self.combo_keys.len() {
                    let ghost t = s@;
                    self.combo_keys.set(i, s);
                    assert(self@.combo_keys =~= old(self)@.combo_keys.update(i as int, t));
                }
            },
            MappingEditorMessage::Save | MappingEditorMessage::Cancel => {},
        }
    }
}

impl Default for MappingEditor {
    fn default() -> (r: Self)
        ensures
            r@ == fresh_editor(),
    {
        Self::new()
    }
}

} // verus!
