//! Simple 1:1 mapping: one event code is replaced by another, keeping the
//! event's value.
use vstd::prelude::*;
use vstd::string::*;

use super::{
    abs_code_or_number, key_code_or_number, number_code, parse_abs_or_number, parse_key_or_number,
    parse_number_code, parse_rel_or_number, rel_code_or_number, MappingHandler,
};
use crate::error::RemapperError;
use crate::keycodes::{abs_code_of_name, key_code_of_name, rel_code_of_name};
use crate::events::{contents, ev, event_code_text, EventCode, EventType, InputEvent};

verus! {

/// The numeric code that a simple mapping reads an event code as: by the
/// key, absolute-axis or relative-axis table for those types (or else as a
/// number), and as a number for any other type.
pub open spec fn simple_code(c: EventCode) -> Option<u16> {
    match c.event_type {
        EventType::Key => key_code_or_number(c.code@),
        EventType::Abs => abs_code_or_number(c.code@),
        EventType::Rel => rel_code_or_number(c.code@),
        _ => number_code(c.code@),
    }
}

/// The message given for an event code that a simple mapping cannot read.
pub open spec fn simple_code_error(c: EventCode) -> Seq<char> {
    match c.event_type {
        EventType::Key => "Unknown key code: "@ + c.code@,
        EventType::Abs => "Unknown abs code: "@ + c.code@,
        EventType::Rel => "Unknown rel code: "@ + c.code@,
        _ => "Cannot parse event code: "@ + event_code_text(c),
    }
}

/// Handler for simple 1:1 mappings.
pub struct SimpleHandler {
    /// Source event code
    from: EventCode,
    /// Source event code (numeric)
    from_code: u16,
    /// Target event code
    to: EventCode,
    /// Target event code (numeric)
    to_code: u16,
}

/// A simple mapping from `from` to `to` is refused with message `m`: one of
/// the codes cannot be read, and `m` names the first that cannot.
pub open spec fn simple_rejects(from: EventCode, to: EventCode, m: Seq<char>) -> bool {
    &&& (simple_code(from) is None || simple_code(to) is None)
    &&& m == if simple_code(from) is None {
        simple_code_error(from)
    } else {
        simple_code_error(to)
    }
}

impl SimpleHandler {
    /// The handler is the one built from `from` and `to`: both codes read,
    /// and kept with their numbers.
    pub open spec fn built_from(&self, from: EventCode, to: EventCode) -> bool {
        &&& simple_code(from) == Some(self.from_code_spec())
        &&& simple_code(to) == Some(self.to_code_spec())
        &&& self.from_spec() == from
        &&& self.to_spec() == to
    }

    /// The source event code.
    pub closed spec fn from_spec(&self) -> EventCode {
        self.from
    }

    /// The target event code.
    pub closed spec fn to_spec(&self) -> EventCode {
        self.to
    }

    /// The source code number.
    pub closed spec fn from_code_spec(&self) -> u16 {
        self.from_code
    }

    /// The target code number.
    pub closed spec fn to_code_spec(&self) -> u16 {
        self.to_code
    }

    /// Create a new simple mapping handler; both codes must be readable.
    pub fn new(from: EventCode, to: EventCode) -> (r: Result<Self, RemapperError>)
        ensures
            match r {
                Ok(h) => h.built_from(from, to),
                Err(e) => e matches RemapperError::InvalidMapping(m) && simple_rejects(from, to, m@),
            },
    {
        let from_code = match Self::parse_code(&from) {
            Ok(c) => c,
            Err(e) => return Err(e),
        };
        let to_code = match Self::parse_code(&to) {
            Ok(c) => c,
            Err(e) => return Err(e),
        };
        Ok(SimpleHandler { from, from_code, to, to_code })
    }

    /// Parse an event code to its numeric value.
    pub fn parse_code(code: &EventCode) -> (r: Result<u16, RemapperError>)
        ensures
            match r {
                Ok(c) => simple_code(*code) == Some(c),
                Err(e) => {
                    &&& simple_code(*code) is None
                    &&& e matches RemapperError::InvalidMapping(m) && m@ == simple_code_error(*code)
                },
            },
    {
        let parsed = match code.event_type {
            EventType::Key => parse_key_or_number(code.code.as_str()),
            EventType::Abs => parse_abs_or_number(code.code.as_str()),
            EventType::Rel => parse_rel_or_number(code.code.as_str()),
            _ => parse_number_code(code.code.as_str()),
        };
        match parsed {
            Some(c) => Ok(c),
            None => {
                let mut msg = match code.event_type {
                    EventType::Key => String::from_str("Unknown key code: "),
                    EventType::Abs => String::from_str("Unknown abs code: "),
                    EventType::Rel => String::from_str("Unknown rel code: "),
                    _ => String::from_str("Cannot parse event code: "),
                };
                match code.event_type {
                    EventType::Key | EventType::Abs | EventType::Rel => {
                        msg.append(code.code.as_str());
                    },
                    _ => {
                        let shown = code.to_string();
                        msg.append(shown.as_str());
                    },
                }
                Err(RemapperError::InvalidMapping(msg))
            },
        }
    }

    /// Whether the event is the mapping's source: same type and code.
    pub fn handles(&self, event: &InputEvent) -> (r: bool)
        ensures
            r == (event.event_type == self.from_spec().event_type && event.code
                == self.from_code_spec()),
    {
        event.event_type == self.from.event_type && event.code == self.from_code
    }

    /// The remapped event: the target type and code, the same value.
    pub fn process(&mut self, event: InputEvent) -> (r: Vec<InputEvent>)
        ensures
            contents(r@) == seq![ev(old(self).to_spec().event_type, old(self).to_code_spec(), event.value)],
            *final(self) == *old(self),
    {
        let out = InputEvent::new(self.to.event_type, self.to_code, event.value);
        let r = vec![out];
        assert(contents(r@) =~= seq![ev(self.to.event_type, self.to_code, event.value)]);
        r
    }

    /// A simple mapping has no state to reset.
    pub fn reset(&mut self)
        ensures
            *final(self) == *old(self),
    {
    }

    /// `"<from> -> <to>"`.
    pub fn description(&self) -> (r: String)
        ensures
            r@ == event_code_text(self.from_spec()) + " -> "@ + event_code_text(self.to_spec()),
    {
        let mut s = self.from.to_string();
        s.append(" -> ");
        let to = self.to.to_string();
        s.append(to.as_str());
        s
    }
}

impl MappingHandler for SimpleHandler {
    fn handles(&self, event: &InputEvent) -> (r: bool)
        ensures
            r == (event.event_type == self.from_spec().event_type && event.code
                == self.from_code_spec()),
    {
        SimpleHandler::handles(self, event)
    }

    fn process(&mut self, event: InputEvent) -> (r: Vec<InputEvent>)
        ensures
            contents(r@) == seq![ev(old(self).to_spec().event_type, old(self).to_code_spec(), event.value)],
            *final(self) == *old(self),
    {
        SimpleHandler::process(self, event)
    }

    fn reset(&mut self)
        ensures
            *final(self) == *old(self),
    {
        SimpleHandler::reset(self)
    }

    fn description(&self) -> (r: String)
        ensures
            r@ == event_code_text(self.from_spec()) + " -> "@ + event_code_text(self.to_spec()),
    {
        SimpleHandler::description(self)
    }
}

/// The code that the key, absolute-axis or relative-axis table gives an
/// event code of that type; none for other types or names the table lacks.
pub open spec fn table_code(c: EventCode) -> Option<u16> {
    match c.event_type {
        EventType::Key => key_code_of_name(c.code@),
        EventType::Abs => abs_code_of_name(c.code@),
        EventType::Rel => rel_code_of_name(c.code@),
        _ => None,
    }
}

/// A key, absolute-axis or relative-axis name that its table knows is read
/// by a simple mapping as that table's code.
pub proof fn law_simple_code_reads_table(c: EventCode)
    requires
        table_code(c) is Some,
    ensures
        simple_code(c) == table_code(c),
{
}

/// A simple mapping between codes that their tables know is built, and the
/// handler maps the first table code to the second.
pub proof fn law_simple_mapping_of_table_codes_builds(
    h: SimpleHandler,
    from: EventCode,
    to: EventCode,
    m: Seq<char>,
)
    requires
        table_code(from) is Some,
        table_code(to) is Some,
    ensures
        !simple_rejects(from, to, m),
        h.built_from(from, to) ==> h.from_code_spec() == table_code(from)->0
            && h.to_code_spec() == table_code(to)->0,
{
}

} // verus!
