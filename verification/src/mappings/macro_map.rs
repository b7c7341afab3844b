//! Macro mapping: pressing the trigger plays a sequence of key events.
use vstd::prelude::*;
use vstd::string::*;

use super::{key_code_or_number, parse_key_or_number, MappingHandler};
use crate::config::MacroStep;
use crate::error::RemapperError;
use crate::events::{contents, ev, event_code_text, EventCode, EventType, InputEvent};
use crate::text::{dec_str, push_dec};

verus! {

/// A macro step with its key read to a number.
#[derive(Debug, Clone, Copy, PartialEq, Eq, Structural)]
pub enum CompiledStep {
    /// Key event with code and value
    Key { code: u16, value: i32 },
    /// Delay in milliseconds
    Delay(u32),
}

/// A macro step read to a number, if its key can be read.
pub open spec fn compile_step(s: MacroStep) -> Option<CompiledStep> {
    match s {
        MacroStep::Key { code, value } => match key_code_or_number(code@) {
            Some(c) => Some(CompiledStep::Key { code: c, value }),
            None => None,
        },
        MacroStep::Delay { delay_ms } => Some(CompiledStep::Delay(delay_ms)),
    }
}

/// Every step of the sequence can be read.
pub open spec fn compiles(steps: Seq<MacroStep>) -> bool {
    forall|i: int| 0 <= i < steps.len() ==> (#[trigger] compile_step(steps[i])) is Some
}

/// The steps read to numbers.
pub open spec fn compiled(steps: Seq<MacroStep>) -> Seq<CompiledStep> {
    steps.map_values(|s: MacroStep| compile_step(s).unwrap())
}

/// Position `i` is the first step that cannot be read.
pub open spec fn first_bad_step(steps: Seq<MacroStep>, i: int) -> bool {
    &&& 0 <= i < steps.len()
    &&& compile_step(steps[i]) is None
    &&& forall|j: int| 0 <= j < i ==> (#[trigger] compile_step(steps[j])) is Some
}

/// The message given for a key name that cannot be read.
pub open spec fn unknown_key_text(code: Seq<char>) -> Seq<char> {
    "Unknown key: "@ + code
}

/// The message given for a step whose key cannot be read.
pub open spec fn step_error_text(s: MacroStep) -> Seq<char> {
    match s {
        MacroStep::Key { code, .. } => unknown_key_text(code@),
        MacroStep::Delay { .. } => Seq::empty(),
    }
}

/// `m` is the message of the first step of `steps` that cannot be read.
pub open spec fn bad_step_message(steps: Seq<MacroStep>, m: Seq<char>) -> bool {
    exists|i: int| first_bad_step(steps, i) && m == step_error_text(#[trigger] steps[i])
}

/// The events that a compiled sequence plays: each key step followed by a
/// synchronization event; delays play no event.
pub open spec fn expand(cs: Seq<CompiledStep>) -> Seq<(EventType, u16, i32)>
    decreases cs.len(),
{
    if cs.len() == 0 {
        Seq::empty()
    } else {
        expand(cs.drop_last()) + match cs.last() {
            CompiledStep::Key { code, value } => seq![
                ev(EventType::Key, code, value),
                ev(EventType::Syn, 0, 0),
            ],
            CompiledStep::Delay(_) => Seq::empty(),
        }
    }
}

/// The delays of a compiled sequence, in order.
pub open spec fn delays_of(cs: Seq<CompiledStep>) -> Seq<u32>
    decreases cs.len(),
{
    if cs.len() == 0 {
        Seq::empty()
    } else {
        delays_of(cs.drop_last()) + match cs.last() {
            CompiledStep::Key { .. } => Seq::empty(),
            CompiledStep::Delay(ms) => seq![ms],
        }
    }
}

/// How a macro trigger is read: it must be a key event, named by the key
/// table or by a number.
pub open spec fn macro_trigger_code(c: EventCode) -> Option<u16> {
    if c.event_type != EventType::Key {
        None
    } else {
        key_code_or_number(c.code@)
    }
}

/// The message given for a macro trigger that cannot be read.
pub open spec fn macro_trigger_error(c: EventCode) -> Seq<char> {
    if c.event_type != EventType::Key {
        "Macro trigger must be a key event"@
    } else {
        unknown_key_text(c.code@)
    }
}

/// A macro mapping is refused with message `m`: the trigger cannot be read,
/// or else a step's key cannot be read and `m` names the first such step.
pub open spec fn macro_rejects(trigger: EventCode, steps: Seq<MacroStep>, m: Seq<char>) -> bool {
    if macro_trigger_code(trigger) is None {
        m == macro_trigger_error(trigger)
    } else {
        !compiles(steps) && bad_step_message(steps, m)
    }
}

/// Handler for macro mappings.
pub struct MacroHandler {
    /// Trigger event code
    trigger: EventCode,
    /// Trigger event code (numeric)
    trigger_code: u16,
    /// Sequence of steps to execute
    sequence: Vec<MacroStep>,
    /// Compiled sequence (code, value pairs and delays)
    compiled: Vec<CompiledStep>,
    /// Whether the trigger is currently held
    trigger_held: bool,
}

impl MacroHandler {
    /// The handler is the one built from `trigger` and `steps`, with the
    /// trigger released.
    pub open spec fn built_from(&self, trigger: EventCode, steps: Seq<MacroStep>) -> bool {
        &&& macro_trigger_code(trigger) == Some(self.trigger_code_spec())
        &&& compiles(steps)
        &&& self.compiled_spec() == compiled(steps)
        &&& self.trigger_spec() == trigger
        &&& self.sequence_spec() == steps
        &&& !self.held()
    }

    /// The trigger event code.
    pub closed spec fn trigger_spec(&self) -> EventCode {
        self.trigger
    }

    /// The trigger code number.
    pub closed spec fn trigger_code_spec(&self) -> u16 {
        self.trigger_code
    }

    /// The sequence as configured.
    pub closed spec fn sequence_spec(&self) -> Seq<MacroStep> {
        self.sequence@
    }

    /// The sequence read to numbers.
    pub closed spec fn compiled_spec(&self) -> Seq<CompiledStep> {
        self.compiled@
    }

    /// Whether the trigger is held.
    pub closed spec fn held(&self) -> bool {
        self.trigger_held
    }

    /// Create a new macro handler; the trigger and every key of the sequence
    /// must be readable.
    pub fn new(trigger: EventCode, sequence: Vec<MacroStep>) -> (r: Result<Self, RemapperError>)
        ensures
            match r {
                Ok(h) => h.built_from(trigger, sequence@),
                Err(e) => e matches RemapperError::InvalidMapping(m) && macro_rejects(
                    trigger,
                    sequence@,
                    m@,
                ),
            },
    {
        let trigger_code = match Self::parse_key_code(&trigger) {
            Ok(c) => c,
            Err(e) => return Err(e),
        };
        let compiled = match Self::compile_sequence(&sequence) {
            Ok(c) => c,
            Err(e) => return Err(e),
        };
        Ok(MacroHandler { trigger, trigger_code, sequence, compiled, trigger_held: false })
    }

    /// Read a macro trigger to its key code.
    pub fn parse_key_code(code: &EventCode) -> (r: Result<u16, RemapperError>)
        ensures
            match r {
                Ok(c) => macro_trigger_code(*code) == Some(c),
                Err(e) => {
                    &&& macro_trigger_code(*code) is None
                    &&& e matches RemapperError::InvalidMapping(m) && m@ == macro_trigger_error(
                        *code,
                    )
                },
            },
    {
        if code.event_type != EventType::Key {
            return Err(
                RemapperError::InvalidMapping(String::from_str("Macro trigger must be a key event")),
            );
        }
        match parse_key_or_number(code.code.as_str()) {
            Some(c) => Ok(c),
            None => {
                let mut msg = String::from_str("Unknown key: ");
                msg.append(code.code.as_str());
                Err(RemapperError::InvalidMapping(msg))
            },
        }
    }

    /// Read every step of a sequence; the first step whose key cannot be read
    /// gives the error.
    pub fn compile_sequence(sequence: &Vec<MacroStep>) -> (r: Result<
        Vec<CompiledStep>,
        RemapperError,
    >)
        ensures
            match r {
                Ok(v) => compiles(sequence@) && v@ == compiled(sequence@),
                Err(e) => {
                    &&& !compiles(sequence@)
                    &&& e matches RemapperError::InvalidMapping(m) && bad_step_message(sequence@, m@)
                },
            },
    {
        let mut out: Vec<CompiledStep> = Vec::new();
        let mut i: usize = 0;
        while i < sequence.len()
            invariant
                0 <= i <= sequence@.len(),
                out@.len() == i,
                forall|j: int| 0 <= j < i ==> (#[trigger] compile_step(sequence@[j])) is Some,
                forall|j: int| 0 <= j < i ==> out@[j] == compile_step(sequence@[j]).unwrap(),
            decreases sequence@.len() - i,
        {
            match &sequence[i] {
                MacroStep::Key { code, value } => match parse_key_or_number(code.as_str()) {
                    Some(c) => {
                        out.push(CompiledStep::Key { code: c, value: *value });
                    },
                    None => {
                        let mut msg = String::from_str("Unknown key: ");
                        msg.append(code.as_str());
                        assert(first_bad_step(sequence@, i as int));
                        return Err(RemapperError::InvalidMapping(msg));
                    },
                },
                MacroStep::Delay { delay_ms } => {
                    out.push(CompiledStep::Delay(*delay_ms));
                },
            }
            i = i + 1;
        }
        assert(out@ =~= compiled(sequence@));
        Ok(out)
    }

    /// Whether the event is the trigger key.
    pub fn handles(&self, event: &InputEvent) -> (r: bool)
        ensures
            r == (event.event_type == EventType::Key && event.code == self.trigger_code_spec()),
    {
        event.event_type == EventType::Key && event.code == self.trigger_code
    }

    /// Whether processing the event starts the sequence: a press while the
    /// trigger is not held.
    pub fn triggers_on(&self, event: &InputEvent) -> (r: bool)
        ensures
            r == (event.value == 1 && !self.held()),
    {
        event.value == 1 && !self.trigger_held
    }

    /// A press of the trigger plays the sequence once; the trigger is then
    /// held until a release; repeats play nothing.
    pub fn process(&mut self, event: InputEvent) -> (r: Vec<InputEvent>)
        ensures
            final(self).trigger_spec() == old(self).trigger_spec(),
            final(self).trigger_code_spec() == old(self).trigger_code_spec(),
            final(self).sequence_spec() == old(self).sequence_spec(),
            final(self).compiled_spec() == old(self).compiled_spec(),
            if event.value == 1 && !old(self).held() {
                final(self).held() && contents(r@) == expand(old(self).compiled_spec())
            } else if event.value == 0 {
                !final(self).held() && r@.len() == 0
            } else {
                final(self).held() == old(self).held() && r@.len() == 0
            },
    {
        if event.value == 1 && !self.trigger_held {
            self.trigger_held = true;
            self.execute_sequence()
        } else if event.value == 0 {
            self.trigger_held = false;
            Vec::new()
        } else {
            Vec::new()
        }
    }

    /// The events of the sequence: each key step followed by a
    /// synchronization event.
    fn execute_sequence(&self) -> (r: Vec<InputEvent>)
        ensures
            contents(r@) == expand(self.compiled@),
    {
        let mut events: Vec<InputEvent> = Vec::new();
        let mut i: usize = 0;
        while i < self.compiled.len()
            invariant
                0 <= i <= self.compiled@.len(),
                contents(events@) == expand(self.compiled@.take(i as int)),
            decreases self.compiled@.len() - i,
        {
            let ghost before = events@;
            assert(self.compiled@.take(i + 1).drop_last() =~= self.compiled@.take(i as int));
            match self.compiled[i] {
                CompiledStep::Key { code, value } => {
                    events.push(InputEvent::new(EventType::Key, code, value));
                    events.push(InputEvent::sync());
                },
                CompiledStep::Delay(_) => {},
            }
            assert(contents(events@) =~= expand(self.compiled@.take(i + 1)));
            i = i + 1;
        }
        assert(self.compiled@.take(self.compiled@.len() as int) =~= self.compiled@);
        events
    }

    /// The delays of the sequence, in order, which the caller waits out when
    /// the sequence plays.
    pub fn delays(&self) -> (r: Vec<u32>)
        ensures
            r@ == delays_of(self.compiled_spec()),
    {
        let mut out: Vec<u32> = Vec::new();
        let mut i: usize = 0;
        while i < self.compiled.len()
            invariant
                0 <= i <= self.compiled@.len(),
                out@ == delays_of(self.compiled@.take(i as int)),
            decreases self.compiled@.len() - i,
        {
            assert(self.compiled@.take(i + 1).drop_last() =~= self.compiled@.take(i as int));
            match self.compiled[i] {
                CompiledStep::Key { .. } => {},
                CompiledStep::Delay(ms) => {
                    out.push(ms);
                },
            }
            assert(out@ =~= delays_of(self.compiled@.take(i + 1)));
            i = i + 1;
        }
        assert(self.compiled@.take(self.compiled@.len() as int) =~= self.compiled@);
        out
    }

    /// Release the trigger.
    pub fn reset(&mut self)
        ensures
            !final(self).held(),
            final(self).trigger_spec() == old(self).trigger_spec(),
            final(self).trigger_code_spec() == old(self).trigger_code_spec(),
            final(self).sequence_spec() == old(self).sequence_spec(),
            final(self).compiled_spec() == old(self).compiled_spec(),
    {
        self.trigger_held = false;
    }

    /// `"<trigger> -> [macro with <n> steps]"`.
    pub fn description(&self) -> (r: String)
        ensures
            r@ == event_code_text(self.trigger_spec()) + " -> [macro with "@ + dec_str(
                self.sequence_spec().len(),
            ) + " steps]"@,
    {
        let mut s = self.trigger.to_string();
        s.append(" -> [macro with ");
        push_dec(&mut s, self.sequence.len() as u64);
        s.append(" steps]");
        s
    }
}

impl MappingHandler for MacroHandler {
    fn handles(&self, event: &InputEvent) -> (r: bool)
        ensures
            r == (event.event_type == EventType::Key && event.code == self.trigger_code_spec()),
    {
        MacroHandler::handles(self, event)
    }

    fn process(&mut self, event: InputEvent) -> (r: Vec<InputEvent>)
        ensures
            final(self).trigger_spec() == old(self).trigger_spec(),
            final(self).trigger_code_spec() == old(self).trigger_code_spec(),
            final(self).sequence_spec() == old(self).sequence_spec(),
            final(self).compiled_spec() == old(self).compiled_spec(),
            if event.value == 1 && !old(self).held() {
                final(self).held() && contents(r@) == expand(old(self).compiled_spec())
            } else if event.value == 0 {
                !final(self).held() && r@.len() == 0
            } else {
                final(self).held() == old(self).held() && r@.len() == 0
            },
    {
        MacroHandler::process(self, event)
    }

    fn reset(&mut self)
        ensures
            !final(self).held(),
            final(self).trigger_spec() == old(self).trigger_spec(),
            final(self).trigger_code_spec() == old(self).trigger_code_spec(),
            final(self).sequence_spec() == old(self).sequence_spec(),
            final(self).compiled_spec() == old(self).compiled_spec(),
    {
        MacroHandler::reset(self)
    }

    fn description(&self) -> (r: String)
        ensures
            r@ == event_code_text(self.trigger_spec()) + " -> [macro with "@ + dec_str(
                self.sequence_spec().len(),
            ) + " steps]"@,
    {
        MacroHandler::description(self)
    }
}

} // verus!
