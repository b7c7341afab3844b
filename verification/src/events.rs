//! Event types, event codes and input events, and their conversions to and
//! from the numeric form that platform backends exchange.
use vstd::prelude::*;
use vstd::string::*;

use crate::clock::unix_time_now;
use crate::keycodes::{key_code_of_name, parse_key_code_numeric};
use crate::platform::PlatformInputEvent;
use crate::text::{int_str, push_dec, push_int};

verus! {

/// Event type categories (EV_KEY, EV_ABS, EV_REL, ...).
#[derive(Debug, Clone, Copy, PartialEq, Eq, Hash, Structural)]
pub enum EventType {
    /// Synchronization events
    Syn,
    /// Key/button events
    Key,
    /// Relative axis events (mouse movement)
    Rel,
    /// Absolute axis events (joystick, touchscreen)
    Abs,
    /// Miscellaneous events
    Msc,
    /// Switch events
    Sw,
    /// LED events
    Led,
    /// Sound events
    Snd,
    /// Repeat events
    Rep,
    /// Force feedback events
    Ff,
    /// Power events
    Pwr,
    /// Force feedback status
    FfStatus,
}

/// The kernel's number for an event type.
pub open spec fn event_type_number(t: EventType) -> u16 {
    match t {
        EventType::Syn => 0,
        EventType::Key => 1,
        EventType::Rel => 2,
        EventType::Abs => 3,
        EventType::Msc => 4,
        EventType::Sw => 5,
        EventType::Led => 17,
        EventType::Snd => 18,
        EventType::Rep => 20,
        EventType::Ff => 21,
        EventType::Pwr => 22,
        EventType::FfStatus => 23,
    }
}

/// The event type that the kernel numbers `code`, if there is one.
pub open spec fn event_type_of_number(code: u16) -> Option<EventType> {
    if code == 0 {
        Some(EventType::Syn)
    } else if code == 1 {
        Some(EventType::Key)
    } else if code == 2 {
        Some(EventType::Rel)
    } else if code == 3 {
        Some(EventType::Abs)
    } else if code == 4 {
        Some(EventType::Msc)
    } else if code == 5 {
        Some(EventType::Sw)
    } else if code == 17 {
        Some(EventType::Led)
    } else if code == 18 {
        Some(EventType::Snd)
    } else if code == 20 {
        Some(EventType::Rep)
    } else if code == 21 {
        Some(EventType::Ff)
    } else if code == 22 {
        Some(EventType::Pwr)
    } else if code == 23 {
        Some(EventType::FfStatus)
    } else {
        None
    }
}

/// The name of an event type as the kernel headers spell it.
pub open spec fn event_type_name(t: EventType) -> Seq<char> {
    match t {
        EventType::Syn => "EV_SYN"@,
        EventType::Key => "EV_KEY"@,
        EventType::Rel => "EV_REL"@,
        EventType::Abs => "EV_ABS"@,
        EventType::Msc => "EV_MSC"@,
        EventType::Sw => "EV_SW"@,
        EventType::Led => "EV_LED"@,
        EventType::Snd => "EV_SND"@,
        EventType::Rep => "EV_REP"@,
        EventType::Ff => "EV_FF"@,
        EventType::Pwr => "EV_PWR"@,
        EventType::FfStatus => "EV_FF_STATUS"@,
    }
}

impl EventType {
    /// Convert from numeric event type code.
    pub fn from_code(code: u16) -> (r: Option<Self>)
        ensures
            r == event_type_of_number(code),
    {
        match code {
            0 => Some(EventType::Syn),
            1 => Some(EventType::Key),
            2 => Some(EventType::Rel),
            3 => Some(EventType::Abs),
            4 => Some(EventType::Msc),
            5 => Some(EventType::Sw),
            17 => Some(EventType::Led),
            18 => Some(EventType::Snd),
            20 => Some(EventType::Rep),
            21 => Some(EventType::Ff),
            22 => Some(EventType::Pwr),
            23 => Some(EventType::FfStatus),
            _ => None,
        }
    }

    /// Convert to numeric event type code.
    pub fn to_code(self) -> (r: u16)
        ensures
            r == event_type_number(self),
    {
        match self {
            EventType::Syn => 0,
            EventType::Key => 1,
            EventType::Rel => 2,
            EventType::Abs => 3,
            EventType::Msc => 4,
            EventType::Sw => 5,
            EventType::Led => 17,
            EventType::Snd => 18,
            EventType::Rep => 20,
            EventType::Ff => 21,
            EventType::Pwr => 22,
            EventType::FfStatus => 23,
        }
    }

    /// The type's name, such as `EV_KEY`.
    pub fn to_string(&self) -> (r: String)
        ensures
            r@ == event_type_name(*self),
    {
        match self {
            EventType::Syn => String::from_str("EV_SYN"),
            EventType::Key => String::from_str("EV_KEY"),
            EventType::Rel => String::from_str("EV_REL"),
            EventType::Abs => String::from_str("EV_ABS"),
            EventType::Msc => String::from_str("EV_MSC"),
            EventType::Sw => String::from_str("EV_SW"),
            EventType::Led => String::from_str("EV_LED"),
            EventType::Snd => String::from_str("EV_SND"),
            EventType::Rep => String::from_str("EV_REP"),
            EventType::Ff => String::from_str("EV_FF"),
            EventType::Pwr => String::from_str("EV_PWR"),
            EventType::FfStatus => String::from_str("EV_FF_STATUS"),
        }
    }
}

/// Reading an event type's number back gives the same type, and a number
/// that names a type is that type's number.
pub proof fn lemma_event_type_code_roundtrip(t: EventType, code: u16)
    ensures
        event_type_of_number(event_type_number(t)) == Some(t),
        event_type_of_number(code) matches Some(u) ==> event_type_number(u) == code,
{
}

/// Event code identifying a specific key, axis or button by name.
#[derive(Debug)]
pub struct EventCode {
    /// Event type (EV_KEY, EV_ABS, etc.)
    pub event_type: EventType,
    /// Event code name (e.g., "BTN_A", "KEY_ESC", "ABS_X")
    pub code: String,
}

impl Clone for EventCode {
    fn clone(&self) -> (r: Self)
        ensures
            r == *self,
    {
        EventCode { event_type: self.event_type, code: self.code.clone() }
    }
}

/// `"<type>:<code>"`, the way an event code is shown.
pub open spec fn event_code_text(c: EventCode) -> Seq<char> {
    event_type_name(c.event_type) + ":"@ + c.code@
}

impl EventCode {
    /// Create a new event code.
    pub fn new(event_type: EventType, code: &str) -> (r: Self)
        ensures
            r.event_type == event_type,
            r.code@ == code@,
    {
        EventCode { event_type, code: String::from_str(code) }
    }

    /// Create a key event code.
    pub fn key(code: &str) -> (r: Self)
        ensures
            r.event_type == EventType::Key,
            r.code@ == code@,
    {
        Self::new(EventType::Key, code)
    }

    /// Create an absolute axis event code.
    pub fn abs(code: &str) -> (r: Self)
        ensures
            r.event_type == EventType::Abs,
            r.code@ == code@,
    {
        Self::new(EventType::Abs, code)
    }

    /// Create a relative axis event code.
    pub fn rel(code: &str) -> (r: Self)
        ensures
            r.event_type == EventType::Rel,
            r.code@ == code@,
    {
        Self::new(EventType::Rel, code)
    }

    /// Parse the code's name to a numeric key code.
    pub fn to_key_code(&self) -> (r: Option<u16>)
        ensures
            r == key_code_of_name(self.code@),
    {
        parse_key_code_numeric(self.code.as_str())
    }

    /// The code shown as `"<type>:<code>"`, such as `EV_KEY:BTN_A`.
    pub fn to_string(&self) -> (r: String)
        ensures
            r@ == event_code_text(*self),
    {
        let mut s = self.event_type.to_string();
        s.append(":");
        s.append(self.code.as_str());
        s
    }
}

/// Input event with type, code, value and timestamp.
#[derive(Debug, Clone, Copy)]
pub struct InputEvent {
    /// Event type
    pub event_type: EventType,
    /// Event code (raw numeric value)
    pub code: u16,
    /// Event value
    pub value: i32,
    /// Timestamp seconds
    pub time_sec: i64,
    /// Timestamp microseconds
    pub time_usec: i64,
}

/// What an event says, leaving out when it was made.
pub open spec fn ev(event_type: EventType, code: u16, value: i32) -> (EventType, u16, i32) {
    (event_type, code, value)
}

/// The contents of a sequence of events, leaving out their timestamps.
pub open spec fn contents(s: Seq<InputEvent>) -> Seq<(EventType, u16, i32)> {
    s.map_values(|e: InputEvent| e.content())
}

/// The kernel's number for the event type that a platform event carries;
/// unknown numbers read as synchronization events.
pub open spec fn event_type_of_platform_number(n: u16) -> EventType {
    match event_type_of_number(n) {
        Some(t) => t,
        None => EventType::Syn,
    }
}

/// `"<type> code=<code> value=<value>"`, the way an event is shown.
pub open spec fn input_event_text(e: InputEvent) -> Seq<char> {
    event_type_name(e.event_type) + " code="@ + int_str(e.code as int) + " value="@ + int_str(
        e.value as int,
    )
}

impl InputEvent {
    /// What the event says: its type, code and value.
    pub open spec fn content(self) -> (EventType, u16, i32) {
        (self.event_type, self.code, self.value)
    }

    /// Create a new input event stamped with the current time.
    pub fn new(event_type: EventType, code: u16, value: i32) -> (r: Self)
        ensures
            r.event_type == event_type,
            r.code == code,
            r.value == value,
            0 <= r.time_usec < 1_000_000,
    {
        let (secs, micros) = unix_time_now();
        InputEvent { event_type, code, value, time_sec: secs, time_usec: micros }
    }

    /// Create a sync event stamped with the current time.
    pub fn sync() -> (r: Self)
        ensures
            r.content() == ev(EventType::Syn, 0, 0),
            0 <= r.time_usec < 1_000_000,
    {
        Self::new(EventType::Syn, 0, 0)
    }

    /// Create a key press event.
    pub fn key_press(code: u16) -> (r: Self)
        ensures
            r.content() == ev(EventType::Key, code, 1),
            0 <= r.time_usec < 1_000_000,
    {
        Self::new(EventType::Key, code, 1)
    }

    /// Create a key release event.
    pub fn key_release(code: u16) -> (r: Self)
        ensures
            r.content() == ev(EventType::Key, code, 0),
            0 <= r.time_usec < 1_000_000,
    {
        Self::new(EventType::Key, code, 0)
    }

    /// Check if this is a key press.
    pub fn is_key_press(&self) -> (r: bool)
        ensures
            r == (self.event_type == EventType::Key && self.value == 1),
    {
        self.event_type == EventType::Key && self.value == 1
    }

    /// Check if this is a key release.
    pub fn is_key_release(&self) -> (r: bool)
        ensures
            r == (self.event_type == EventType::Key && self.value == 0),
    {
        self.event_type == EventType::Key && self.value == 0
    }

    /// Check if this is a sync event.
    pub fn is_sync(&self) -> (r: bool)
        ensures
            r == (self.event_type == EventType::Syn),
    {
        self.event_type == EventType::Syn
    }

    /// Convert from a platform input event; unknown type numbers read as
    /// synchronization events.
    pub fn from_platform(event: &PlatformInputEvent) -> (r: Self)
        ensures
            r.event_type == event_type_of_platform_number(event.event_type),
            r.code == event.code,
            r.value == event.value,
            r.time_sec == event.timestamp_us / 1_000_000,
            r.time_usec == event.timestamp_us % 1_000_000,
    {
        let event_type = match EventType::from_code(event.event_type) {
            Some(t) => t,
            None => EventType::Syn,
        };
        InputEvent {
            event_type,
            code: event.code,
            value: event.value,
            time_sec: (event.timestamp_us / 1_000_000) as i64,
            time_usec: (event.timestamp_us % 1_000_000) as i64,
        }
    }

    /// Convert to a platform input event. The timestamp is the seconds times
    /// one million plus the microseconds, each read as unsigned; `requires`
    /// leaves out the timestamps on which that sum overflows.
    pub fn to_platform(&self) -> (r: PlatformInputEvent)
        requires
            (self.time_sec as u64) * 1_000_000 + (self.time_usec as u64) <= u64::MAX,
        ensures
            r.event_type == event_type_number(self.event_type),
            r.code == self.code,
            r.value == self.value,
            r.timestamp_us == (self.time_sec as u64) * 1_000_000 + (self.time_usec as u64),
    {
        let secs = #[verifier::truncate] (self.time_sec as u64);
        let micros = #[verifier::truncate] (self.time_usec as u64);
        PlatformInputEvent {
            event_type: self.event_type.to_code(),
            code: self.code,
            value: self.value,
            timestamp_us: secs * 1_000_000 + micros,
        }
    }

    /// The event shown as `"<type> code=<code> value=<value>"`.
    pub fn to_string(&self) -> (r: String)
        ensures
            r@ == input_event_text(*self),
    {
        let mut s = self.event_type.to_string();
        s.append(" code=");
        push_int(&mut s, self.code as i64);
        s.append(" value=");
        push_int(&mut s, self.value as i64);
        s
    }
}

/// A platform event read into an input event and written back out is the
/// same platform event, when its type number names a type.
pub proof fn lemma_platform_roundtrip(p: PlatformInputEvent, e: InputEvent)
    requires
        event_type_of_number(p.event_type) is Some,
        e.event_type == event_type_of_platform_number(p.event_type),
        e.code == p.code,
        e.value == p.value,
        e.time_sec == p.timestamp_us / 1_000_000,
        e.time_usec == p.timestamp_us % 1_000_000,
    ensures
        (e.time_sec as u64) * 1_000_000 + (e.time_usec as u64) == p.timestamp_us,
        event_type_number(e.event_type) == p.event_type,
{
    assert(p.timestamp_us == (p.timestamp_us / 1_000_000) * 1_000_000 + p.timestamp_us % 1_000_000);
}

} // verus!
