//! Combo mapping: several keys held together produce one output key.
use std::collections::HashSet;
use vstd::prelude::*;
use vstd::string::*;

use super::{key_code_or_number, parse_key_or_number, MappingHandler};
use crate::error::RemapperError;
use crate::events::{contents, ev, event_code_text, EventCode, EventType, InputEvent};
use crate::keycodes::{key_code_of_name, parse_key_code_numeric};

verus! {

broadcast use vstd::std_specs::hash::group_hash_axioms;

/// The keys' codes in the order the keys were given, counting only names
/// that the key table knows (a key given by number is left out).
pub open spec fn expected_key_order(keys: Seq<EventCode>) -> Seq<u16>
    decreases keys.len(),
{
    if keys.len() == 0 {
        Seq::empty()
    } else {
        let rest = expected_key_order(keys.drop_last());
        match key_code_of_name(keys.last().code@) {
            Some(c) => rest.push(c),
            None => rest,
        }
    }
}

/// `s` without any occurrence of `x`, in order.
pub open spec fn without(s: Seq<u16>, x: u16) -> Seq<u16>
    decreases s.len(),
{
    if s.len() == 0 {
        s
    } else {
        let rest = without(s.drop_last(), x);
        if s.last() == x {
            rest
        } else {
            rest.push(s.last())
        }
    }
}

/// Every key can be read (key table, or else a number).
pub open spec fn keys_readable(keys: Seq<EventCode>) -> bool {
    forall|i: int| 0 <= i < keys.len() ==> (#[trigger] key_code_or_number(keys[i].code@)) is Some
}

/// The codes of the keys, when every key can be read.
pub open spec fn key_codes_of(keys: Seq<EventCode>) -> Seq<u16> {
    keys.map_values(|k: EventCode| key_code_or_number(k.code@).unwrap())
}

/// Position `i` holds the first key that cannot be read.
pub open spec fn first_bad_key(keys: Seq<EventCode>, i: int) -> bool {
    &&& 0 <= i < keys.len()
    &&& key_code_or_number(keys[i].code@) is None
    &&& forall|j: int| 0 <= j < i ==> (#[trigger] key_code_or_number(keys[j].code@)) is Some
}

/// `m` is the message of the first key that cannot be read.
pub open spec fn bad_key_message(keys: Seq<EventCode>, m: Seq<char>) -> bool {
    exists|i: int| first_bad_key(keys, i) && m == "Unknown key: "@ + (#[trigger] keys[i]).code@
}

/// Whether the held keys complete the combo: as many keys held as the combo
/// has, and either pressed in the expected order (when order matters) or
/// exactly the combo's keys.
pub open spec fn combo_complete(
    key_set: Set<u16>,
    expected: Seq<u16>,
    order_sensitive: bool,
    held: Set<u16>,
    order: Seq<u16>,
) -> bool {
    &&& held.len() == key_set.len()
    &&& if order_sensitive {
        order == expected
    } else {
        held == key_set
    }
}

/// One step of a combo. From the keys held, the order they were pressed in
/// and whether the output is down, a press or release of `code` gives the
/// new held keys, press order, output state and the events to emit.
///
/// A press that completes the combo while the output is up presses the
/// output. A release of any key while the output is down releases it and
/// forgets the press order.
pub open spec fn combo_step(
    key_set: Set<u16>,
    expected: Seq<u16>,
    order_sensitive: bool,
    output: u16,
    held: Set<u16>,
    order: Seq<u16>,
    triggered: bool,
    value: i32,
    code: u16,
) -> (Set<u16>, Seq<u16>, bool, Seq<(EventType, u16, i32)>) {
    if value == 1 {
        let held2 = held.insert(code);
        let order2 = if order_sensitive {
            order.push(code)
        } else {
            order
        };
        if combo_complete(key_set, expected, order_sensitive, held2, order2) && !triggered {
            (held2, order2, true, seq![ev(EventType::Key, output, 1), ev(EventType::Syn, 0, 0)])
        } else {
            (held2, order2, triggered, Seq::empty())
        }
    } else if value == 0 {
        let held2 = held.remove(code);
        if triggered {
            (
                held2,
                Seq::empty(),
                false,
                seq![ev(EventType::Key, output, 0), ev(EventType::Syn, 0, 0)],
            )
        } else {
            (
                held2,
                if order_sensitive {
                    without(order, code)
                } else {
                    order
                },
                false,
                Seq::empty(),
            )
        }
    } else {
        (held, order, triggered, Seq::empty())
    }
}

/// A combo mapping is refused with message `m`: fewer than two keys, or else
/// a key (the first such) or the output cannot be read.
pub open spec fn combo_rejects(keys: Seq<EventCode>, output: EventCode, m: Seq<char>) -> bool {
    if keys.len() < 2 {
        m == "Combo must have at least 2 keys"@
    } else if !keys_readable(keys) {
        bad_key_message(keys, m)
    } else {
        key_code_or_number(output.code@) is None && m == "Unknown key: "@ + output.code@
    }
}

/// Handler for combo (chord) mappings.
pub struct ComboHandler {
    /// Required keys for the combo
    keys: Vec<EventCode>,
    /// Codes of the required keys, in the order given
    key_list: Vec<u16>,
    /// Required key codes (numeric)
    key_codes: HashSet<u16>,
    /// Codes that the keys' names give, in order, for checking press order
    expected_order: Vec<u16>,
    /// First key code (for ordering check)
    first_key: u16,
    /// Output event code
    output: EventCode,
    /// Output code (numeric)
    output_code: u16,
    /// Whether key order matters
    order_sensitive: bool,
    /// Currently held keys
    held_keys: HashSet<u16>,
    /// Order in which keys were pressed (if order sensitive)
    press_order: Vec<u16>,
    /// Whether combo has been triggered
    combo_triggered: bool,
}

impl ComboHandler {
    /// The handler is the one built from the given keys, output and order
    /// sensitivity, with nothing held.
    pub open spec fn built_from(
        &self,
        keys: Seq<EventCode>,
        output: EventCode,
        order_sensitive: bool,
    ) -> bool {
        &&& keys.len() >= 2
        &&& keys_readable(keys)
        &&& key_code_or_number(output.code@) == Some(self.output_code_spec())
        &&& self.key_set() == key_codes_of(keys).to_set()
        &&& self.expected_spec() == expected_key_order(keys)
        &&& self.keys_spec() == keys
        &&& self.output_spec() == output
        &&& self.order_sensitive_spec() == order_sensitive
        &&& self.held() == Set::<u16>::empty()
        &&& self.order().len() == 0
        &&& !self.triggered()
    }

    /// The required keys.
    pub closed spec fn keys_spec(&self) -> Seq<EventCode> {
        self.keys@
    }

    /// The set of required key codes.
    pub closed spec fn key_set(&self) -> Set<u16> {
        self.key_codes@
    }

    /// The press order that an order-sensitive combo expects.
    pub closed spec fn expected_spec(&self) -> Seq<u16> {
        self.expected_order@
    }

    /// The output event code.
    pub closed spec fn output_spec(&self) -> EventCode {
        self.output
    }

    /// The output code number.
    pub closed spec fn output_code_spec(&self) -> u16 {
        self.output_code
    }

    /// Whether key order matters.
    pub closed spec fn order_sensitive_spec(&self) -> bool {
        self.order_sensitive
    }

    /// The keys held.
    pub closed spec fn held(&self) -> Set<u16> {
        self.held_keys@
    }

    /// The order in which held keys were pressed.
    pub closed spec fn order(&self) -> Seq<u16> {
        self.press_order@
    }

    /// Whether the output key is down.
    pub closed spec fn triggered(&self) -> bool {
        self.combo_triggered
    }

    /// The handler's invariant: the key set is the set of the key list and
    /// both sets are finite.
    #[verifier::type_invariant]
    spec fn wf(&self) -> bool {
        &&& self.key_codes@ == self.key_list@.to_set()
        &&& self.key_codes@.finite()
        &&& self.held_keys@.finite()
    }

    /// The configuration is unchanged from `other`.
    pub open spec fn same_config(&self, other: &Self) -> bool {
        &&& self.keys_spec() == other.keys_spec()
        &&& self.key_set() == other.key_set()
        &&& self.expected_spec() == other.expected_spec()
        &&& self.output_spec() == other.output_spec()
        &&& self.output_code_spec() == other.output_code_spec()
        &&& self.order_sensitive_spec() == other.order_sensitive_spec()
    }

    /// Create a new combo handler; at least two keys are needed, and every
    /// key and the output must be readable.
    pub fn new(keys: Vec<EventCode>, output: EventCode, order_sensitive: bool) -> (r: Result<
        Self,
        RemapperError,
    >)
        ensures
            match r {
                Ok(h) => h.built_from(keys@, output, order_sensitive),
                Err(e) => e matches RemapperError::InvalidMapping(m) && combo_rejects(
                    keys@,
                    output,
                    m@,
                ),
            },
    {
        if keys.len() < 2 {
            return Err(
                RemapperError::InvalidMapping(String::from_str("Combo must have at least 2 keys")),
            );
        }
        let mut key_list: Vec<u16> = Vec::new();
        let mut key_codes: HashSet<u16> = HashSet::new();
        let mut expected_order: Vec<u16> = Vec::new();
        let mut first_key: u16 = 0;
        let mut i: usize = 0;
        while i < keys.len()
            invariant
                0 <= i <= keys@.len(),
                keys@.len() >= 2,
                key_list@.len() == i,
                forall|j: int|
                    0 <= j < i ==> (#[trigger] key_code_or_number(keys@[j].code@)) is Some,
                forall|j: int|
                    0 <= j < i ==> key_list@[j] == key_code_or_number(keys@[j].code@).unwrap(),
                key_codes@ == key_list@.to_set(),
                key_codes@.finite(),
                expected_order@ == expected_key_order(keys@.take(i as int)),
            decreases keys@.len() - i,
        {
            let code = match parse_key_or_number(keys[i].code.as_str()) {
                Some(c) => c,
                None => {
                    let mut msg = String::from_str("Unknown key: ");
                    msg.append(keys[i].code.as_str());
                    assert(first_bad_key(keys@, i as int));
                    assert(!keys_readable(keys@));
                    assert(bad_key_message(keys@, msg@));
                    return Err(RemapperError::InvalidMapping(msg));
                },
            };
            if i == 0 {
                first_key = code;
            }
            assert(keys@.take(i + 1).drop_last() =~= keys@.take(i as int));
            match parse_key_code_numeric(keys[i].code.as_str()) {
                Some(c) => expected_order.push(c),
                None => {},
            }
            proof {
                key_list@.lemma_push_to_set_commute(code);
                vstd::seq_lib::seq_to_set_is_finite(key_list@.push(code));
            }
            key_list.push(code);
            key_codes.insert(code);
            i = i + 1;
        }
        assert(keys@.take(keys@.len() as int) =~= keys@);
        assert(key_list@ =~= key_codes_of(keys@));
        let output_code = match parse_key_or_number(output.code.as_str()) {
            Some(c) => c,
            None => {
                let mut msg = String::from_str("Unknown key: ");
                msg.append(output.code.as_str());
                return Err(RemapperError::InvalidMapping(msg));
            },
        };
        let held_keys: HashSet<u16> = HashSet::new();
        Ok(
            ComboHandler {
                keys,
                key_list,
                key_codes,
                expected_order,
                first_key,
                output,
                output_code,
                order_sensitive,
                held_keys,
                press_order: Vec::new(),
                combo_triggered: false,
            },
        )
    }

    /// Parse a key event code to its numeric value.
    pub fn parse_key_code(code: &EventCode) -> (r: Result<u16, RemapperError>)
        ensures
            match r {
                Ok(c) => key_code_or_number(code.code@) == Some(c),
                Err(e) => {
                    &&& key_code_or_number(code.code@) is None
                    &&& e matches RemapperError::InvalidMapping(m) && m@ == "Unknown key: "@
                        + code.code@
                },
            },
    {
        match parse_key_or_number(code.code.as_str()) {
            Some(c) => Ok(c),
            None => {
                let mut msg = String::from_str("Unknown key: ");
                msg.append(code.code.as_str());
                Err(RemapperError::InvalidMapping(msg))
            },
        }
    }

    /// Check if the combo is complete.
    pub fn is_combo_complete(&self) -> (r: bool)
        ensures
            r == combo_complete(
                self.key_set(),
                self.expected_spec(),
                self.order_sensitive_spec(),
                self.held(),
                self.order(),
            ),
    {
        proof {
            use_type_invariant(self);
        }
        if self.held_keys.len() != self.key_codes.len() {
            return false;
        }
        if self.order_sensitive {
            u16_seq_eq(&self.press_order, &self.expected_order)
        } else {
            let mut i: usize = 0;
            while i < self.key_list.len()
                invariant
                    0 <= i <= self.key_list@.len(),
                    !self.order_sensitive,
                    self.key_codes@ == self.key_list@.to_set(),
                    forall|j: int| 0 <= j < i ==> self.held_keys@.contains(#[trigger] self.key_list@[j]),
                decreases self.key_list@.len() - i,
            {
                if !self.held_keys.contains(&self.key_list[i]) {
                    assert(self.key_list@.contains(self.key_list@[i as int]));
                    assert(self.key_codes@.contains(self.key_list@[i as int]));
                    assert(self.held_keys@ != self.key_codes@);
                    return false;
                }
                i = i + 1;
            }
            proof {
                assert(self.key_codes@.subset_of(self.held_keys@)) by {
                    assert forall|x: u16| self.key_codes@.contains(x) implies self.held_keys@.contains(
                        x,
                    ) by {
                        let k = choose|k: int| 0 <= k < self.key_list@.len() && self.key_list@[k] == x;
                    }
                }
                vstd::set_lib::lemma_subset_equality(self.key_codes@, self.held_keys@);
            }
            true
        }
    }

    /// Whether the event is a key of the combo.
    pub fn handles(&self, event: &InputEvent) -> (r: bool)
        ensures
            r == (event.event_type == EventType::Key && self.key_set().contains(event.code)),
    {
        event.event_type == EventType::Key && self.key_codes.contains(&event.code)
    }

    /// Process a press or release of a key.
    pub fn process(&mut self, event: InputEvent) -> (r: Vec<InputEvent>)
        ensures
            final(self).same_config(old(self)),
            (final(self).held(), final(self).order(), final(self).triggered(), contents(r@))
                == combo_step(
                old(self).key_set(),
                old(self).expected_spec(),
                old(self).order_sensitive_spec(),
                old(self).output_code_spec(),
                old(self).held(),
                old(self).order(),
                old(self).triggered(),
                event.value,
                event.code,
            ),
    {
        proof {
            use_type_invariant(&*self);
        }
        let ghost step = combo_step(
            self.key_codes@,
            self.expected_order@,
            self.order_sensitive,
            self.output_code,
            self.held_keys@,
            self.press_order@,
            self.combo_triggered,
            event.value,
            event.code,
        );
        if event.value == 1 {
            let mut held: HashSet<u16> = HashSet::new();
            std::mem::swap(&mut held, &mut self.held_keys);
            held.insert(event.code);
            self.held_keys = held;
            if self.order_sensitive {
                let mut order: Vec<u16> = Vec::new();
                std::mem::swap(&mut order, &mut self.press_order);
                order.push(event.code);
                self.press_order = order;
            }
            if self.is_combo_complete() && !self.combo_triggered {
                self.combo_triggered = true;
                let r = vec![
                    InputEvent::new(EventType::Key, self.output_code, 1),
                    InputEvent::sync(),
                ];
                assert(contents(r@) =~= step.3);
                return r;
            }
            let r: Vec<InputEvent> = Vec::new();
            assert(contents(r@) =~= step.3);
            r
        } else if event.value == 0 {
            let mut held: HashSet<u16> = HashSet::new();
            std::mem::swap(&mut held, &mut self.held_keys);
            held.remove(&event.code);
            self.held_keys = held;
            if self.combo_triggered {
                self.combo_triggered = false;
                self.press_order = Vec::new();
                let r = vec![
                    InputEvent::new(EventType::Key, self.output_code, 0),
                    InputEvent::sync(),
                ];
                assert(contents(r@) =~= step.3);
                assert(self.press_order@ =~= step.1);
                return r;
            }
            if self.order_sensitive {
                let kept = u16_without(&self.press_order, event.code);
                self.press_order = kept;
            }
            let r: Vec<InputEvent> = Vec::new();
            assert(contents(r@) =~= step.3);
            r
        } else {
            let r: Vec<InputEvent> = Vec::new();
            assert(contents(r@) =~= step.3);
            r
        }
    }

    /// Release every key and forget the press order and the output.
    pub fn reset(&mut self)
        ensures
            final(self).same_config(old(self)),
            final(self).held() == Set::<u16>::empty(),
            final(self).order().len() == 0,
            !final(self).triggered(),
    {
        proof {
            use_type_invariant(&*self);
        }
        self.held_keys = HashSet::new();
        self.press_order = Vec::new();
        self.combo_triggered = false;
    }

    /// `"<key>+<key>... -> <output> (order_sensitive=<bool>)"`.
    pub fn description(&self) -> (r: String)
        ensures
            r@ == joined_key_names(self.keys_spec()) + " -> "@ + event_code_text(self.output_spec())
                + " (order_sensitive="@ + (if self.order_sensitive_spec() {
                "true"@
            } else {
                "false"@
            }) + ")"@,
    {
        let mut s = String::new();
        let mut i: usize = 0;
        while i < self.keys.len()
            invariant
                0 <= i <= self.keys@.len(),
                s@ == joined_key_names(self.keys@.take(i as int)),
            decreases self.keys@.len() - i,
        {
            assert(self.keys@.take(i + 1).drop_last() =~= self.keys@.take(i as int));
            if i > 0 {
                s.append("+");
            }
            s.append(self.keys[i].code.as_str());
            i = i + 1;
        }
        assert(self.keys@.take(self.keys@.len() as int) =~= self.keys@);
        s.append(" -> ");
        let out = self.output.to_string();
        s.append(out.as_str());
        s.append(" (order_sensitive=");
        if self.order_sensitive {
            s.append("true");
        } else {
            s.append("false");
        }
        s.append(")");
        s
    }
}

/// The keys' names joined with `+`.
pub open spec fn joined_key_names(keys: Seq<EventCode>) -> Seq<char>
    decreases keys.len(),
{
    if keys.len() == 0 {
        Seq::empty()
    } else if keys.len() == 1 {
        keys[0].code@
    } else {
        joined_key_names(keys.drop_last()) + "+"@ + keys.last().code@
    }
}

/// Whether two vectors hold the same codes in the same order.
fn u16_seq_eq(a: &Vec<u16>, b: &Vec<u16>) -> (r: bool)
    ensures
        r == (a@ == b@),
{
    if a.len() != b.len() {
        return false;
    }
    let mut i: usize = 0;
    while i < a.len()
        invariant
            a@.len() == b@.len(),
            0 <= i <= a@.len(),
            forall|j: int| 0 <= j < i ==> a@[j] == b@[j],
        decreases a@.len() - i,
    {
        if a[i] != b[i] {
            return false;
        }
        i = i + 1;
    }
    assert(a@ =~= b@);
    true
}

/// The codes of `v` other than `x`, in order.
fn u16_without(v: &Vec<u16>, x: u16) -> (r: Vec<u16>)
    ensures
        r@ == without(v@, x),
{
    let mut r: Vec<u16> = Vec::new();
    let mut i: usize = 0;
    while i < v.len()
        invariant
            0 <= i <= v@.len(),
            r@ == without(v@.take(i as int), x),
        decreases v@.len() - i,
    {
        assert(v@.take(i + 1).drop_last() =~= v@.take(i as int));
        if v[i] != x {
            r.push(v[i]);
        }
        i = i + 1;
    }
    assert(v@.take(v@.len() as int) =~= v@);
    r
}

/// The output is pressed at most once and only while it is up, and released
/// only while it is down: whatever a step emits, the output key's state
/// afterwards is the step's `triggered` flag.
pub proof fn law_output_follows_triggered(
    key_set: Set<u16>,
    expected: Seq<u16>,
    order_sensitive: bool,
    output: u16,
    held: Set<u16>,
    order: Seq<u16>,
    triggered: bool,
    value: i32,
    code: u16,
)
    ensures
        ({
            let s = combo_step(
                key_set,
                expected,
                order_sensitive,
                output,
                held,
                order,
                triggered,
                value,
                code,
            );
            &&& s.3 == seq![ev(EventType::Key, output, 1), ev(EventType::Syn, 0, 0)] ==> !triggered
                && s.2
            &&& s.3 == seq![ev(EventType::Key, output, 0), ev(EventType::Syn, 0, 0)] ==> triggered
                && !s.2
            &&& s.3.len() == 0 ==> (s.2 == triggered || (value == 0 && !triggered && !s.2))
            &&& s.3.len() == 0 || s.3.len() == 2
        }),
{
    let press = seq![ev(EventType::Key, output, 1), ev(EventType::Syn, 0, 0)];
    let release = seq![ev(EventType::Key, output, 0), ev(EventType::Syn, 0, 0)];
    assert(press[0] != release[0]);
    assert(press.len() == 2 && release.len() == 2);
}

/// While the output is down, releasing any key releases the output.
pub proof fn law_release_releases_output(
    key_set: Set<u16>,
    expected: Seq<u16>,
    order_sensitive: bool,
    output: u16,
    held: Set<u16>,
    order: Seq<u16>,
    code: u16,
)
    ensures
        combo_step(key_set, expected, order_sensitive, output, held, order, true, 0, code) == (
            held.remove(code),
            Seq::<u16>::empty(),
            false,
            seq![ev(EventType::Key, output, 0), ev(EventType::Syn, 0, 0)],
        ),
{
}

impl MappingHandler for ComboHandler {
    fn handles(&self, event: &InputEvent) -> (r: bool)
        ensures
            r == (event.event_type == EventType::Key && self.key_set().contains(event.code)),
    {
        ComboHandler::handles(self, event)
    }

    fn process(&mut self, event: InputEvent) -> (r: Vec<InputEvent>)
        ensures
            final(self).same_config(old(self)),
            (final(self).held(), final(self).order(), final(self).triggered(), contents(r@))
                == combo_step(
                old(self).key_set(),
                old(self).expected_spec(),
                old(self).order_sensitive_spec(),
                old(self).output_code_spec(),
                old(self).held(),
                old(self).order(),
                old(self).triggered(),
                event.value,
                event.code,
            ),
    {
        ComboHandler::process(self, event)
    }

    fn reset(&mut self)
        ensures
            final(self).same_config(old(self)),
            final(self).held() == Set::<u16>::empty(),
            final(self).order().len() == 0,
            !final(self).triggered(),
    {
        ComboHandler::reset(self)
    }

    fn description(&self) -> (r: String)
        ensures
            r@ == joined_key_names(self.keys_spec()) + " -> "@ + event_code_text(self.output_spec())
                + " (order_sensitive="@ + (if self.order_sensitive_spec() {
                "true"@
            } else {
                "false"@
            }) + ")"@,
    {
        ComboHandler::description(self)
    }
}

/// A combo whose key order does not matter is complete exactly when every
/// one of its keys, and no other, is held.
pub proof fn law_unordered_combo_complete_when_all_held(
    key_set: Set<u16>,
    expected: Seq<u16>,
    held: Set<u16>,
    order: Seq<u16>,
)
    ensures
        combo_complete(key_set, expected, false, held, order) == (held == key_set),
{
}

/// A press of a key of a combo whose order does not matter presses the
/// output, once, exactly when the keys held after it are the combo's whole
/// key set and the output is up; with any of the combo's keys still up it
/// emits nothing.
pub proof fn law_unordered_combo_press(
    key_set: Set<u16>,
    expected: Seq<u16>,
    output: u16,
    held: Set<u16>,
    order: Seq<u16>,
    triggered: bool,
    code: u16,
)
    requires
        key_set.contains(code),
    ensures
        ({
            let (held2, _, triggered2, out) = combo_step(
                key_set,
                expected,
                false,
                output,
                held,
                order,
                triggered,
                1,
                code,
            );
            &&& held2 == held.insert(code)
            &&& out == if held2 == key_set && !triggered {
                seq![ev(EventType::Key, output, 1), ev(EventType::Syn, 0, 0)]
            } else {
                Seq::<(EventType, u16, i32)>::empty()
            }
            &&& triggered2 == (triggered || held2 == key_set)
            &&& (exists|k: u16| key_set.contains(k) && !held2.contains(k)) ==> out.len() == 0
        }),
{
}

/// A press of a combo whose order matters presses the output, once, exactly
/// when the output is up, as many keys are held as the combo has, and the
/// keys were pressed in the expected order.
pub proof fn law_ordered_combo_press(
    key_set: Set<u16>,
    expected: Seq<u16>,
    output: u16,
    held: Set<u16>,
    order: Seq<u16>,
    triggered: bool,
    code: u16,
)
    ensures
        ({
            let (held2, order2, _, out) = combo_step(
                key_set,
                expected,
                true,
                output,
                held,
                order,
                triggered,
                1,
                code,
            );
            &&& held2 == held.insert(code)
            &&& order2 == order.push(code)
            &&& out == if !triggered && held2.len() == key_set.len() && order2 == expected {
                seq![ev(EventType::Key, output, 1), ev(EventType::Syn, 0, 0)]
            } else {
                Seq::<(EventType, u16, i32)>::empty()
            }
        }),
{
}

/// Releasing a key while the output is down releases the output and
/// forgets the press order.
pub proof fn law_combo_release_while_triggered(
    key_set: Set<u16>,
    expected: Seq<u16>,
    order_sensitive: bool,
    output: u16,
    held: Set<u16>,
    order: Seq<u16>,
    code: u16,
)
    ensures
        combo_step(key_set, expected, order_sensitive, output, held, order, true, 0, code) == (
            held.remove(code),
            Seq::<u16>::empty(),
            false,
            seq![ev(EventType::Key, output, 0), ev(EventType::Syn, 0, 0)],
        ),
{
}

} // verus!
