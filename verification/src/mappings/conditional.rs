//! Conditional mapping: a short press (tap) and a long press (hold) of the
//! trigger produce different keys.
use std::time::Instant;
use vstd::prelude::*;
use vstd::string::*;

use super::{key_code_or_number, parse_key_or_number, MappingHandler};
use crate::clock::{instant_now, millis_since};
use crate::error::RemapperError;
use crate::events::{contents, ev, event_code_text, EventCode, EventType, InputEvent};
use crate::text::{dec_str, push_dec};

verus! {

/// A key pressed and released: press, sync, release, sync.
pub open spec fn click(code: u16) -> Seq<(EventType, u16, i32)> {
    seq![
        ev(EventType::Key, code, 1),
        ev(EventType::Syn, 0, 0),
        ev(EventType::Key, code, 0),
        ev(EventType::Syn, 0, 0),
    ]
}

/// One step of the tap/hold decision. From whether the trigger is pressed,
/// whether the hold key was already sent, the event's value and the
/// milliseconds since the press, it gives whether the trigger is pressed
/// afterwards, whether the hold key has been sent, and the events to emit.
///
/// A press starts the timer. A repeat past the threshold sends the hold key
/// once. A release sends the release of a hold key already sent; otherwise a
/// tap (released before the threshold) or a hold (at or past it) sends that
/// key pressed and released.
pub open spec fn tap_hold_step(
    tap: Option<u16>,
    hold: Option<u16>,
    threshold_ms: u32,
    pressed: bool,
    hold_sent: bool,
    value: i32,
    elapsed_ms: u128,
) -> (bool, bool, Seq<(EventType, u16, i32)>) {
    if value == 1 {
        (true, false, Seq::empty())
    } else if value == 2 {
        if !hold_sent && pressed && elapsed_ms >= threshold_ms && hold is Some {
            (pressed, true, seq![ev(EventType::Key, hold->0, 1), ev(EventType::Syn, 0, 0)])
        } else {
            (pressed, hold_sent, Seq::empty())
        }
    } else if value == 0 {
        if !pressed {
            (false, hold_sent, Seq::empty())
        } else if hold_sent {
            (
                false,
                true,
                match hold {
                    Some(h) => seq![ev(EventType::Key, h, 0), ev(EventType::Syn, 0, 0)],
                    None => Seq::empty(),
                },
            )
        } else if elapsed_ms < threshold_ms {
            (
                false,
                false,
                match tap {
                    Some(t) => click(t),
                    None => Seq::empty(),
                },
            )
        } else {
            (
                false,
                false,
                match hold {
                    Some(h) => click(h),
                    None => Seq::empty(),
                },
            )
        }
    } else {
        (pressed, hold_sent, Seq::empty())
    }
}

/// An optional event code read as a key code (key table, or else a number).
pub open spec fn opt_key_code(c: Option<EventCode>) -> Option<Option<u16>> {
    match c {
        Some(code) => match key_code_or_number(code.code@) {
            Some(n) => Some(Some(n)),
            None => None,
        },
        None => Some(None),
    }
}

/// The message given when neither a tap nor a hold key is configured.
pub open spec fn no_action_text() -> Seq<char> {
    "Conditional mapping must have at least tap or hold defined"@
}

/// `"tap=<code>"` or `"hold=<code>"` when the code is set, empty otherwise.
pub open spec fn labelled_code(label: Seq<char>, c: Option<EventCode>) -> Seq<char> {
    match c {
        Some(code) => label + event_code_text(code),
        None => Seq::empty(),
    }
}

/// A tap/hold mapping is refused with message `m`: neither tap nor hold is
/// set, or else the trigger, the tap or the hold key (the first of them that
/// fails) cannot be read.
pub open spec fn conditional_rejects(
    trigger: EventCode,
    tap: Option<EventCode>,
    hold: Option<EventCode>,
    m: Seq<char>,
) -> bool {
    if tap is None && hold is None {
        m == no_action_text()
    } else if key_code_or_number(trigger.code@) is None {
        m == "Unknown key: "@ + trigger.code@
    } else if opt_key_code(tap) is None {
        m == "Unknown key: "@ + tap->0.code@
    } else {
        opt_key_code(hold) is None && m == "Unknown key: "@ + hold->0.code@
    }
}

/// Handler for conditional (tap/hold) mappings.
pub struct ConditionalHandler {
    /// Trigger event code
    trigger: EventCode,
    /// Trigger event code (numeric)
    trigger_code: u16,
    /// Event to send on tap (short press)
    tap: Option<EventCode>,
    /// Tap code (numeric)
    tap_code: Option<u16>,
    /// Event to send on hold (long press)
    hold: Option<EventCode>,
    /// Hold code (numeric)
    hold_code: Option<u16>,
    /// Threshold in milliseconds to distinguish tap from hold
    threshold_ms: u32,
    /// When the trigger was pressed
    press_time: Option<Instant>,
    /// Whether we've already sent the hold event
    hold_sent: bool,
}

impl ConditionalHandler {
    /// The handler is the one built from the given trigger, tap, hold and
    /// threshold, with the trigger released.
    pub open spec fn built_from(
        &self,
        trigger: EventCode,
        tap: Option<EventCode>,
        hold: Option<EventCode>,
        threshold_ms: u32,
    ) -> bool {
        &&& tap is Some || hold is Some
        &&& key_code_or_number(trigger.code@) == Some(self.trigger_code_spec())
        &&& opt_key_code(tap) == Some(self.tap_code_spec())
        &&& opt_key_code(hold) == Some(self.hold_code_spec())
        &&& self.trigger_spec() == trigger
        &&& self.tap_spec() == tap
        &&& self.hold_spec() == hold
        &&& self.threshold_spec() == threshold_ms
        &&& !self.pressed()
        &&& !self.hold_sent_spec()
    }

    /// The trigger event code.
    pub closed spec fn trigger_spec(&self) -> EventCode {
        self.trigger
    }

    /// The trigger code number.
    pub closed spec fn trigger_code_spec(&self) -> u16 {
        self.trigger_code
    }

    /// The tap event code.
    pub closed spec fn tap_spec(&self) -> Option<EventCode> {
        self.tap
    }

    /// The hold event code.
    pub closed spec fn hold_spec(&self) -> Option<EventCode> {
        self.hold
    }

    /// The tap code number.
    pub closed spec fn tap_code_spec(&self) -> Option<u16> {
        self.tap_code
    }

    /// The hold code number.
    pub closed spec fn hold_code_spec(&self) -> Option<u16> {
        self.hold_code
    }

    /// The threshold in milliseconds.
    pub closed spec fn threshold_spec(&self) -> u32 {
        self.threshold_ms
    }

    /// Whether the trigger is pressed (its press time is kept).
    pub closed spec fn pressed(&self) -> bool {
        self.press_time is Some
    }

    /// Whether the hold key has been sent for the current press.
    pub closed spec fn hold_sent_spec(&self) -> bool {
        self.hold_sent
    }

    /// The handler's invariant: a hold key is only ever sent when one is
    /// configured.
    #[verifier::type_invariant]
    spec fn wf(&self) -> bool {
        self.hold_sent ==> self.hold_code is Some
    }

    /// The configuration is unchanged from `other`.
    pub open spec fn same_config(&self, other: &Self) -> bool {
        &&& self.trigger_spec() == other.trigger_spec()
        &&& self.trigger_code_spec() == other.trigger_code_spec()
        &&& self.tap_spec() == other.tap_spec()
        &&& self.hold_spec() == other.hold_spec()
        &&& self.tap_code_spec() == other.tap_code_spec()
        &&& self.hold_code_spec() == other.hold_code_spec()
        &&& self.threshold_spec() == other.threshold_spec()
    }

    /// Create a new conditional handler; at least one of tap and hold must
    /// be set, and the trigger, tap and hold keys must be readable.
    pub fn new(
        trigger: EventCode,
        tap: Option<EventCode>,
        hold: Option<EventCode>,
        threshold_ms: u32,
    ) -> (r: Result<Self, RemapperError>)
        ensures
            match r {
                Ok(h) => h.built_from(trigger, tap, hold, threshold_ms),
                Err(e) => e matches RemapperError::InvalidMapping(m) && conditional_rejects(
                    trigger,
                    tap,
                    hold,
                    m@,
                ),
            },
    {
        if tap.is_none() && hold.is_none() {
            return Err(
                RemapperError::InvalidMapping(
                    String::from_str("Conditional mapping must have at least tap or hold defined"),
                ),
            );
        }
        let trigger_code = match Self::parse_key_code(&trigger) {
            Ok(c) => c,
            Err(e) => return Err(e),
        };
        let tap_code = match &tap {
            Some(c) => match Self::parse_key_code(c) {
                Ok(n) => Some(n),
                Err(e) => return Err(e),
            },
            None => None,
        };
        let hold_code = match &hold {
            Some(c) => match Self::parse_key_code(c) {
                Ok(n) => Some(n),
                Err(e) => return Err(e),
            },
            None => None,
        };
        Ok(
            ConditionalHandler {
                trigger,
                trigger_code,
                tap,
                tap_code,
                hold,
                hold_code,
                threshold_ms,
                press_time: None,
                hold_sent: false,
            },
        )
    }

    /// Read a key event code to its numeric value.
    pub fn parse_key_code(code: &EventCode) -> (r: Result<u16, RemapperError>)
        ensures
            match r {
                Ok(c) => key_code_or_number(code.code@) == Some(c),
                Err(e) => {
                    &&& key_code_or_number(code.code@) is None
                    &&& e matches RemapperError::InvalidMapping(m) && m@ == "Unknown key: "@
                        + code.code@
                },
            },
    {
        match parse_key_or_number(code.code.as_str()) {
            Some(c) => Ok(c),
            None => {
                let mut msg = String::from_str("Unknown key: ");
                msg.append(code.code.as_str());
                Err(RemapperError::InvalidMapping(msg))
            },
        }
    }

    /// Whether the event is the trigger key.
    pub fn handles(&self, event: &InputEvent) -> (r: bool)
        ensures
            r == (event.event_type == EventType::Key && event.code == self.trigger_code_spec()),
    {
        event.event_type == EventType::Key && event.code == self.trigger_code
    }

    /// Processes an event given the milliseconds passed since the trigger was
    /// pressed; a press keeps `now` as its time.
    pub fn process_timed(&mut self, event: InputEvent, now: Instant, elapsed_ms: u128) -> (r: Vec<
        InputEvent,
    >)
        ensures
            final(self).same_config(old(self)),
            (final(self).pressed(), final(self).hold_sent_spec(), contents(r@)) == tap_hold_step(
                old(self).tap_code_spec(),
                old(self).hold_code_spec(),
                old(self).threshold_spec(),
                old(self).pressed(),
                old(self).hold_sent_spec(),
                event.value,
                elapsed_ms,
            ),
    {
        proof {
            use_type_invariant(&*self);
        }
        let ghost step = tap_hold_step(
            self.tap_code,
            self.hold_code,
            self.threshold_ms,
            self.press_time is Some,
            self.hold_sent,
            event.value,
            elapsed_ms,
        );
        if event.value == 1 {
            self.press_time = Some(now);
            self.hold_sent = false;
            let r: Vec<InputEvent> = Vec::new();
            assert(contents(r@) =~= step.2);
            r
        } else if event.value == 2 {
            if !self.hold_sent && self.press_time.is_some() && elapsed_ms >= self.threshold_ms as u128 {
                match self.hold_code {
                    Some(h) => {
                        self.hold_sent = true;
                        let r = vec![InputEvent::new(EventType::Key, h, 1), InputEvent::sync()];
                        assert(contents(r@) =~= step.2);
                        return r;
                    },
                    None => {},
                }
            }
            let r: Vec<InputEvent> = Vec::new();
            assert(contents(r@) =~= step.2);
            r
        } else if event.value == 0 {
            if self.press_time.is_some() {
                self.press_time = None;
                if self.hold_sent {
                    match self.hold_code {
                        Some(h) => {
                            let r = vec![InputEvent::new(EventType::Key, h, 0), InputEvent::sync()];
                            assert(contents(r@) =~= step.2);
                            return r;
                        },
                        None => {},
                    }
                } else if elapsed_ms < self.threshold_ms as u128 {
                    match self.tap_code {
                        Some(t) => {
                            let r = vec![
                                InputEvent::new(EventType::Key, t, 1),
                                InputEvent::sync(),
                                InputEvent::new(EventType::Key, t, 0),
                                InputEvent::sync(),
                            ];
                            assert(contents(r@) =~= step.2);
                            return r;
                        },
                        None => {},
                    }
                } else {
                    match self.hold_code {
                        Some(h) => {
                            let r = vec![
                                InputEvent::new(EventType::Key, h, 1),
                                InputEvent::sync(),
                                InputEvent::new(EventType::Key, h, 0),
                                InputEvent::sync(),
                            ];
                            assert(contents(r@) =~= step.2);
                            return r;
                        },
                        None => {},
                    }
                }
            }
            let r: Vec<InputEvent> = Vec::new();
            assert(contents(r@) =~= step.2);
            r
        } else {
            let r: Vec<InputEvent> = Vec::new();
            assert(contents(r@) =~= step.2);
            r
        }
    }

    /// Process an input event, measuring the time since the press on the
    /// monotonic clock; what comes out is the tap/hold step for the time
    /// measured.
    pub fn process(&mut self, event: InputEvent) -> (r: Vec<InputEvent>)
        ensures
            final(self).same_config(old(self)),
            exists|elapsed_ms: u128|
                (final(self).pressed(), final(self).hold_sent_spec(), contents(r@))
                    == #[trigger] tap_hold_step(
                    old(self).tap_code_spec(),
                    old(self).hold_code_spec(),
                    old(self).threshold_spec(),
                    old(self).pressed(),
                    old(self).hold_sent_spec(),
                    event.value,
                    elapsed_ms,
                ),
    {
        let elapsed = match &self.press_time {
            Some(t) => millis_since(t),
            None => 0,
        };
        let now = instant_now();
        self.process_timed(event, now, elapsed)
    }

    /// Forget the press.
    pub fn reset(&mut self)
        ensures
            final(self).same_config(old(self)),
            !final(self).pressed(),
            !final(self).hold_sent_spec(),
    {
        proof {
            use_type_invariant(&*self);
        }
        self.press_time = None;
        self.hold_sent = false;
    }

    /// `"<trigger> -> [tap=<code> hold=<code> threshold=<ms>ms]"`, leaving
    /// out an unset tap or hold.
    pub fn description(&self) -> (r: String)
        ensures
            r@ == event_code_text(self.trigger_spec()) + " -> ["@ + labelled_code(
                "tap="@,
                self.tap_spec(),
            ) + " "@ + labelled_code("hold="@, self.hold_spec()) + " threshold="@ + dec_str(
                self.threshold_spec() as nat,
            ) + "ms]"@,
    {
        let mut s = self.trigger.to_string();
        s.append(" -> [");
        match &self.tap {
            Some(c) => {
                s.append("tap=");
                let t = c.to_string();
                s.append(t.as_str());
            },
            None => {},
        }
        s.append(" ");
        match &self.hold {
            Some(c) => {
                s.append("hold=");
                let h = c.to_string();
                s.append(h.as_str());
            },
            None => {},
        }
        s.append(" threshold=");
        push_dec(&mut s, self.threshold_ms as u64);
        s.append("ms]");
        s
    }
}

/// Once a repeat has sent the hold key, the release of the trigger, however
/// long after, releases the hold key.
pub proof fn law_hold_is_released(
    tap: Option<u16>,
    hold: Option<u16>,
    threshold_ms: u32,
    pressed: bool,
    hold_sent: bool,
    repeat_elapsed: u128,
    release_elapsed: u128,
)
    requires
        !hold_sent,
        tap_hold_step(tap, hold, threshold_ms, pressed, hold_sent, 2, repeat_elapsed).1,
    ensures
        ({
            let s = tap_hold_step(tap, hold, threshold_ms, pressed, hold_sent, 2, repeat_elapsed);
            let h = hold->0;
            &&& s.2 == seq![ev(EventType::Key, h, 1), ev(EventType::Syn, 0, 0)]
            &&& tap_hold_step(tap, hold, threshold_ms, s.0, s.1, 0, release_elapsed) == (
                false,
                true,
                seq![ev(EventType::Key, h, 0), ev(EventType::Syn, 0, 0)],
            )
        }),
{
}

/// A press followed by a release emits either nothing or one key pressed and
/// released: the tap key when released before the threshold, the hold key
/// otherwise.
pub proof fn law_press_release_is_click(
    tap: Option<u16>,
    hold: Option<u16>,
    threshold_ms: u32,
    pressed: bool,
    hold_sent: bool,
    press_elapsed: u128,
    release_elapsed: u128,
)
    ensures
        ({
            let s = tap_hold_step(tap, hold, threshold_ms, pressed, hold_sent, 1, press_elapsed);
            let t = tap_hold_step(tap, hold, threshold_ms, s.0, s.1, 0, release_elapsed);
            &&& s.2.len() == 0
            &&& !t.0 && !t.1
            &&& t.2 == if release_elapsed < threshold_ms {
                match tap {
                    Some(k) => click(k),
                    None => Seq::empty(),
                }
            } else {
                match hold {
                    Some(k) => click(k),
                    None => Seq::empty(),
                }
            }
        }),
{
}

impl MappingHandler for ConditionalHandler {
    fn handles(&self, event: &InputEvent) -> (r: bool)
        ensures
            r == (event.event_type == EventType::Key && event.code == self.trigger_code_spec()),
    {
        ConditionalHandler::handles(self, event)
    }

    fn process(&mut self, event: InputEvent) -> (r: Vec<InputEvent>)
        ensures
            final(self).same_config(old(self)),
            exists|elapsed_ms: u128|
                (final(self).pressed(), final(self).hold_sent_spec(), contents(r@))
                    == #[trigger] tap_hold_step(
                    old(self).tap_code_spec(),
                    old(self).hold_code_spec(),
                    old(self).threshold_spec(),
                    old(self).pressed(),
                    old(self).hold_sent_spec(),
                    event.value,
                    elapsed_ms,
                ),
    {
        ConditionalHandler::process(self, event)
    }

    fn reset(&mut self)
        ensures
            final(self).same_config(old(self)),
            !final(self).pressed(),
            !final(self).hold_sent_spec(),
    {
        ConditionalHandler::reset(self)
    }

    fn description(&self) -> (r: String)
        ensures
            r@ == event_code_text(self.trigger_spec()) + " -> ["@ + labelled_code(
                "tap="@,
                self.tap_spec(),
            ) + " "@ + labelled_code("hold="@, self.hold_spec()) + " threshold="@ + dec_str(
                self.threshold_spec() as nat,
            ) + "ms]"@,
    {
        ConditionalHandler::description(self)
    }
}

/// Releasing the trigger after a press with no hold key sent tells tap from
/// hold by the time since the press: released before the threshold it
/// clicks the tap key, released at or after it the hold key; either way the
/// trigger is up afterwards.
pub proof fn law_release_tells_tap_from_hold(
    tap: Option<u16>,
    hold: Option<u16>,
    threshold_ms: u32,
    elapsed_ms: u128,
)
    ensures
        ({
            let (pressed2, hold_sent2, out) = tap_hold_step(
                tap,
                hold,
                threshold_ms,
                true,
                false,
                0,
                elapsed_ms,
            );
            &&& !pressed2
            &&& !hold_sent2
            &&& elapsed_ms < threshold_ms && tap is Some ==> out == seq![
                ev(EventType::Key, tap->0, 1),
                ev(EventType::Syn, 0, 0),
                ev(EventType::Key, tap->0, 0),
                ev(EventType::Syn, 0, 0),
            ]
            &&& elapsed_ms >= threshold_ms && hold is Some ==> out == seq![
                ev(EventType::Key, hold->0, 1),
                ev(EventType::Syn, 0, 0),
                ev(EventType::Key, hold->0, 0),
                ev(EventType::Syn, 0, 0),
            ]
        }),
{
}

/// A repeat of the held trigger at or after the threshold presses the hold
/// key once; its release then releases the hold key alone.
pub proof fn law_repeat_sends_hold_once(
    tap: Option<u16>,
    hold: Option<u16>,
    threshold_ms: u32,
    elapsed_ms: u128,
    later_ms: u128,
)
    requires
        hold is Some,
        elapsed_ms >= threshold_ms,
    ensures
        ({
            let (p1, s1, out1) = tap_hold_step(tap, hold, threshold_ms, true, false, 2, elapsed_ms);
            let (p2, s2, out2) = tap_hold_step(tap, hold, threshold_ms, p1, s1, 2, later_ms);
            let (p3, _, out3) = tap_hold_step(tap, hold, threshold_ms, p2, s2, 0, later_ms);
            &&& out1 == seq![ev(EventType::Key, hold->0, 1), ev(EventType::Syn, 0, 0)]
            &&& out2.len() == 0
            &&& out3 == seq![ev(EventType::Key, hold->0, 0), ev(EventType::Syn, 0, 0)]
            &&& !p3
        }),
{
}

/// A press of the trigger starts a new press: nothing is emitted and no hold
/// key counts as sent, whatever came before.
pub proof fn law_press_starts_timing(
    tap: Option<u16>,
    hold: Option<u16>,
    threshold_ms: u32,
    pressed: bool,
    hold_sent: bool,
    elapsed_ms: u128,
)
    ensures
        tap_hold_step(tap, hold, threshold_ms, pressed, hold_sent, 1, elapsed_ms) == (
            true,
            false,
            Seq::<(EventType, u16, i32)>::empty(),
        ),
{
}

} // verus!
