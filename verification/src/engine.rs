//! The remapping pipeline: building handlers from a profile's mappings and
//! routing each input event to the first handler that takes it.
use std::time::Instant;
use vstd::prelude::*;
use vstd::string::*;

use crate::config::{clone_codes, clone_opt_code, clone_steps, MacroStep, Mapping};
use crate::error::RemapperError;
use crate::events::{contents, ev, event_code_text, EventCode, EventType, InputEvent};
use crate::text::dec_str;
use crate::mappings::combo::{
    combo_rejects, combo_step, joined_key_names, keys_readable, ComboHandler,
};
use crate::mappings::conditional::{
    conditional_rejects, labelled_code, opt_key_code, tap_hold_step, ConditionalHandler,
};
use crate::mappings::macro_map::{
    compiles, delays_of, expand, macro_rejects, macro_trigger_code, MacroHandler,
};
use crate::mappings::simple::{simple_code, simple_rejects, SimpleHandler};
use crate::mappings::key_code_or_number;

verus! {

/// Engine state.
#[derive(Debug, Clone, Copy, PartialEq, Eq, Structural)]
pub enum EngineState {
    /// Engine is stopped
    Stopped,
    /// Engine is starting up
    Starting,
    /// Engine is running and processing events
    Running,
    /// Engine is shutting down
    Stopping,
    /// Engine encountered an error
    Error,
}

/// The name an engine state is shown by.
pub open spec fn engine_state_text(s: EngineState) -> Seq<char> {
    match s {
        EngineState::Stopped => "Stopped"@,
        EngineState::Starting => "Starting"@,
        EngineState::Running => "Running"@,
        EngineState::Stopping => "Stopping"@,
        EngineState::Error => "Error"@,
    }
}

impl EngineState {
    /// The state's name.
    pub fn to_string(&self) -> (r: String)
        ensures
            r@ == engine_state_text(*self),
    {
        match self {
            EngineState::Stopped => String::from_str("Stopped"),
            EngineState::Starting => String::from_str("Starting"),
            EngineState::Running => String::from_str("Running"),
            EngineState::Stopping => String::from_str("Stopping"),
            EngineState::Error => String::from_str("Error"),
        }
    }
}

/// Engine statistics.
#[derive(Debug, Clone)]
pub struct EngineStats {
    /// Number of events received
    pub events_received: u64,
    /// Number of events remapped
    pub events_remapped: u64,
    /// Number of events passed through
    pub events_passthrough: u64,
    /// Number of events dropped
    pub events_dropped: u64,
    /// Engine start time
    pub started_at: Option<Instant>,
    /// Last event time
    pub last_event_at: Option<Instant>,
}

impl Default for EngineStats {
    fn default() -> (r: Self)
        ensures
            r.events_received == 0,
            r.events_remapped == 0,
            r.events_passthrough == 0,
            r.events_dropped == 0,
            r.started_at is None,
            r.last_event_at is None,
    {
        EngineStats {
            events_received: 0,
            events_remapped: 0,
            events_passthrough: 0,
            events_dropped: 0,
            started_at: None,
            last_event_at: None,
        }
    }
}

impl EngineStats {
    /// Fresh statistics for an engine started at `now`.
    pub fn started(now: Instant) -> (r: Self)
        ensures
            r.events_received == 0,
            r.events_remapped == 0,
            r.events_passthrough == 0,
            r.events_dropped == 0,
            r.started_at == Some(now),
            r.last_event_at is None,
    {
        let mut s = Self::default();
        s.started_at = Some(now);
        s
    }

    /// Counts an event read from the input device at `now`.
    pub fn record_received(&mut self, now: Instant)
        requires
            old(self).events_received < u64::MAX,
        ensures
            final(self).events_received == old(self).events_received + 1,
            final(self).last_event_at == Some(now),
            final(self).events_remapped == old(self).events_remapped,
            final(self).events_passthrough == old(self).events_passthrough,
            final(self).events_dropped == old(self).events_dropped,
            final(self).started_at == old(self).started_at,
    {
        self.events_received = self.events_received + 1;
        self.last_event_at = Some(now);
    }

    /// Counts an event that could not be written.
    pub fn record_dropped(&mut self)
        requires
            old(self).events_dropped < u64::MAX,
        ensures
            final(self).events_dropped == old(self).events_dropped + 1,
            final(self).events_received == old(self).events_received,
            final(self).events_remapped == old(self).events_remapped,
            final(self).events_passthrough == old(self).events_passthrough,
            final(self).started_at == old(self).started_at,
            final(self).last_event_at == old(self).last_event_at,
    {
        self.events_dropped = self.events_dropped + 1;
    }
}

/// A mapping handler of any of the four kinds.
pub enum Handler {
    Simple(SimpleHandler),
    Macro(MacroHandler),
    Conditional(ConditionalHandler),
    Combo(ComboHandler),
}

/// Whether a handler takes an event.
pub open spec fn handler_handles(h: Handler, e: InputEvent) -> bool {
    match h {
        Handler::Simple(s) => e.event_type == s.from_spec().event_type && e.code
            == s.from_code_spec(),
        Handler::Macro(m) => e.event_type == EventType::Key && e.code == m.trigger_code_spec(),
        Handler::Conditional(c) => e.event_type == EventType::Key && e.code
            == c.trigger_code_spec(),
        Handler::Combo(c) => e.event_type == EventType::Key && c.key_set().contains(e.code),
    }
}

/// What processing `e` does to a handler: `new` is the handler afterwards and
/// `out` the events it emits. A tap/hold handler's step depends on the time
/// since the press, which is any value here.
pub open spec fn handler_step(
    old: Handler,
    e: InputEvent,
    new: Handler,
    out: Seq<(EventType, u16, i32)>,
) -> bool {
    match old {
        Handler::Simple(a) => new == old && out == seq![
            ev(a.to_spec().event_type, a.to_code_spec(), e.value),
        ],
        Handler::Macro(a) => new matches Handler::Macro(b) && {
            &&& b.trigger_spec() == a.trigger_spec()
            &&& b.trigger_code_spec() == a.trigger_code_spec()
            &&& b.sequence_spec() == a.sequence_spec()
            &&& b.compiled_spec() == a.compiled_spec()
            &&& if e.value == 1 && !a.held() {
                b.held() && out == expand(a.compiled_spec())
            } else if e.value == 0 {
                !b.held() && out.len() == 0
            } else {
                b.held() == a.held() && out.len() == 0
            }
        },
        Handler::Conditional(a) => new matches Handler::Conditional(b) && b.same_config(&a)
            && exists|elapsed_ms: u128|
            (b.pressed(), b.hold_sent_spec(), out) == #[trigger] tap_hold_step(
                a.tap_code_spec(),
                a.hold_code_spec(),
                a.threshold_spec(),
                a.pressed(),
                a.hold_sent_spec(),
                e.value,
                elapsed_ms,
            ),
        Handler::Combo(a) => new matches Handler::Combo(b) && b.same_config(&a) && (
            b.held(),
            b.order(),
            b.triggered(),
            out,
        ) == combo_step(
            a.key_set(),
            a.expected_spec(),
            a.order_sensitive_spec(),
            a.output_code_spec(),
            a.held(),
            a.order(),
            a.triggered(),
            e.value,
            e.code,
        ),
    }
}

/// Whether a mapping's configuration can be turned into a handler.
pub open spec fn mapping_accepted(m: Mapping) -> bool {
    match m {
        Mapping::Simple { from, to } => simple_code(from) is Some && simple_code(to) is Some,
        Mapping::Macro { trigger, sequence } => macro_trigger_code(trigger) is Some && compiles(
            sequence@,
        ),
        Mapping::Conditional { trigger, tap, hold, .. } => {
            &&& (tap is Some || hold is Some)
            &&& key_code_or_number(trigger.code@) is Some
            &&& opt_key_code(tap) is Some
            &&& opt_key_code(hold) is Some
        },
        Mapping::Combo { keys, output, .. } => {
            &&& keys@.len() >= 2
            &&& keys_readable(keys@)
            &&& key_code_or_number(output.code@) is Some
        },
    }
}

/// A mapping is refused with message `msg`.
pub open spec fn mapping_rejects(m: Mapping, msg: Seq<char>) -> bool {
    match m {
        Mapping::Simple { from, to } => simple_rejects(from, to, msg),
        Mapping::Macro { trigger, sequence } => macro_rejects(trigger, sequence@, msg),
        Mapping::Conditional { trigger, tap, hold, .. } => conditional_rejects(
            trigger,
            tap,
            hold,
            msg,
        ),
        Mapping::Combo { keys, output, .. } => combo_rejects(keys@, output, msg),
    }
}

/// `e` is the error that refusing mapping `m` gives.
pub open spec fn refused_with(e: RemapperError, m: Mapping) -> bool {
    e matches RemapperError::InvalidMapping(msg) && mapping_rejects(m, msg@)
}

/// `h` is the handler built from mapping `m`.
pub open spec fn built_handler(m: Mapping, h: Handler) -> bool {
    match m {
        Mapping::Simple { from, to } => h matches Handler::Simple(s) && s.built_from(from, to),
        Mapping::Macro { trigger, sequence } => h matches Handler::Macro(x) && x.built_from(
            trigger,
            sequence@,
        ),
        Mapping::Conditional { trigger, tap, hold, threshold_ms } => h matches Handler::Conditional(
            c,
        ) && c.built_from(trigger, tap, hold, threshold_ms),
        Mapping::Combo { keys, output, order_sensitive } => h matches Handler::Combo(c)
            && c.built_from(keys@, output, order_sensitive),
    }
}

/// Position `i` holds the first handler that takes `e`.
pub open spec fn is_first_handling(hs: Seq<Handler>, e: InputEvent, i: int) -> bool {
    &&& 0 <= i < hs.len()
    &&& handler_handles(hs[i], e)
    &&& forall|j: int| 0 <= j < i ==> !handler_handles(#[trigger] hs[j], e)
}

/// Position `i` holds the first mapping that is refused.
pub open spec fn is_first_rejected(ms: Seq<Mapping>, i: int) -> bool {
    &&& 0 <= i < ms.len()
    &&& !mapping_accepted(ms[i])
    &&& forall|j: int| 0 <= j < i ==> mapping_accepted(#[trigger] ms[j])
}

impl Handler {
    /// Builds the handler for a mapping.
    pub fn from_mapping(m: &Mapping) -> (r: Result<Handler, RemapperError>)
        ensures
            match r {
                Ok(h) => mapping_accepted(*m) && built_handler(*m, h),
                Err(e) => !mapping_accepted(*m) && refused_with(e, *m),
            },
    {
        match m {
            Mapping::Simple { from, to } => match SimpleHandler::new(from.clone(), to.clone()) {
                Ok(h) => Ok(Handler::Simple(h)),
                Err(e) => Err(e),
            },
            Mapping::Macro { trigger, sequence } => match MacroHandler::new(
                trigger.clone(),
                clone_steps(sequence),
            ) {
                Ok(h) => Ok(Handler::Macro(h)),
                Err(e) => Err(e),
            },
            Mapping::Conditional { trigger, tap, hold, threshold_ms } => match ConditionalHandler::new(
                trigger.clone(),
                clone_opt_code(tap),
                clone_opt_code(hold),
                *threshold_ms,
            ) {
                Ok(h) => Ok(Handler::Conditional(h)),
                Err(e) => Err(e),
            },
            Mapping::Combo { keys, output, order_sensitive } => match ComboHandler::new(
                clone_codes(keys),
                output.clone(),
                *order_sensitive,
            ) {
                Ok(h) => Ok(Handler::Combo(h)),
                Err(e) => Err(e),
            },
        }
    }

    /// Whether the handler takes the event.
    pub fn handles(&self, event: &InputEvent) -> (r: bool)
        ensures
            r == handler_handles(*self, *event),
    {
        match self {
            Handler::Simple(h) => h.handles(event),
            Handler::Macro(h) => h.handles(event),
            Handler::Conditional(h) => h.handles(event),
            Handler::Combo(h) => h.handles(event),
        }
    }

    /// Process an event with the handler.
    pub fn process(&mut self, event: InputEvent) -> (r: Vec<InputEvent>)
        ensures
            handler_step(*old(self), event, *final(self), contents(r@)),
    {
        match self {
            Handler::Simple(h) => h.process(event),
            Handler::Macro(h) => h.process(event),
            Handler::Conditional(h) => h.process(event),
            Handler::Combo(h) => h.process(event),
        }
    }

    /// Reset the handler's state: the same mapping, with nothing pressed or
    /// held.
    pub fn reset(&mut self)
        ensures
            handler_was_reset(*old(self), *final(self)),
    {
        match self {
            Handler::Simple(h) => h.reset(),
            Handler::Macro(h) => h.reset(),
            Handler::Conditional(h) => h.reset(),
            Handler::Combo(h) => h.reset(),
        }
    }

    /// Describe the handler's mapping.
    pub fn description(&self) -> (r: String)
        ensures
            r@ == handler_text(*self),
    {
        match self {
            Handler::Simple(h) => h.description(),
            Handler::Macro(h) => h.description(),
            Handler::Conditional(h) => h.description(),
            Handler::Combo(h) => h.description(),
        }
    }
}

/// `h` is `g` reset: the same mapping, nothing pressed or held.
pub open spec fn handler_was_reset(g: Handler, h: Handler) -> bool {
    match g {
        Handler::Simple(a) => h == Handler::Simple(a),
        Handler::Macro(a) => h matches Handler::Macro(b) && {
            &&& !b.held()
            &&& b.trigger_spec() == a.trigger_spec()
            &&& b.trigger_code_spec() == a.trigger_code_spec()
            &&& b.sequence_spec() == a.sequence_spec()
            &&& b.compiled_spec() == a.compiled_spec()
        },
        Handler::Conditional(a) => h matches Handler::Conditional(b) && {
            &&& b.same_config(&a)
            &&& !b.pressed()
            &&& !b.hold_sent_spec()
        },
        Handler::Combo(a) => h matches Handler::Combo(b) && {
            &&& b.same_config(&a)
            &&& b.held() == Set::<u16>::empty()
            &&& b.order().len() == 0
            &&& !b.triggered()
        },
    }
}

/// How a handler describes its mapping.
pub open spec fn handler_text(h: Handler) -> Seq<char> {
    match h {
        Handler::Simple(a) => event_code_text(a.from_spec()) + " -> "@ + event_code_text(
            a.to_spec(),
        ),
        Handler::Macro(a) => event_code_text(a.trigger_spec()) + " -> [macro with "@ + dec_str(
            a.sequence_spec().len(),
        ) + " steps]"@,
        Handler::Conditional(a) => event_code_text(a.trigger_spec()) + " -> ["@ + labelled_code(
            "tap="@,
            a.tap_spec(),
        ) + " "@ + labelled_code("hold="@, a.hold_spec()) + " threshold="@ + dec_str(
            a.threshold_spec() as nat,
        ) + "ms]"@,
        Handler::Combo(a) => joined_key_names(a.keys_spec()) + " -> "@ + event_code_text(
            a.output_spec(),
        ) + " (order_sensitive="@ + (if a.order_sensitive_spec() {
            "true"@
        } else {
            "false"@
        }) + ")"@,
    }
}

/// Build mapping handlers from configuration: one per mapping, in order;
/// the first mapping that is refused gives the error.
pub fn build_handlers(mappings: &Vec<Mapping>) -> (r: Result<Vec<Handler>, RemapperError>)
    ensures
        match r {
            Ok(hs) => {
                &&& hs@.len() == mappings@.len()
                &&& forall|i: int|
                    0 <= i < mappings@.len() ==> built_handler(mappings@[i], #[trigger] hs@[i])
            },
            Err(e) => exists|i: int|
                is_first_rejected(mappings@, i) && refused_with(e, #[trigger] mappings@[i]),
        },
{
    let mut handlers: Vec<Handler> = Vec::new();
    let mut i: usize = 0;
    while i < mappings.len()
        invariant
            0 <= i <= mappings@.len(),
            handlers@.len() == i,
            forall|j: int| 0 <= j < i ==> mapping_accepted(#[trigger] mappings@[j]),
            forall|j: int| 0 <= j < i ==> built_handler(mappings@[j], #[trigger] handlers@[j]),
        decreases mappings@.len() - i,
    {
        match Handler::from_mapping(&mappings[i]) {
            Ok(h) => {
                handlers.push(h);
            },
            Err(e) => {
                assert(is_first_rejected(mappings@, i as int));
                return Err(e);
            },
        }
        i = i + 1;
    }
    Ok(handlers)
}

/// Process an input event through the handlers: a synchronization event
/// passes through untouched; otherwise the first handler that takes the
/// event processes it, and an event that no handler takes passes through.
pub fn process_event(handlers: &mut Vec<Handler>, stats: &mut EngineStats, event: InputEvent) -> (r:
    Vec<InputEvent>)
    requires
        old(stats).events_remapped < u64::MAX,
        old(stats).events_passthrough < u64::MAX,
    ensures
        final(stats).events_received == old(stats).events_received,
        final(stats).events_dropped == old(stats).events_dropped,
        final(stats).started_at == old(stats).started_at,
        final(stats).last_event_at == old(stats).last_event_at,
        final(handlers)@.len() == old(handlers)@.len(),
        if event.event_type == EventType::Syn {
            &&& r@ == seq![event]
            &&& final(handlers)@ == old(handlers)@
            &&& final(stats).events_remapped == old(stats).events_remapped
            &&& final(stats).events_passthrough == old(stats).events_passthrough
        } else if exists|i: int| is_first_handling(old(handlers)@, event, i) {
            exists|i: int|
                #[trigger] is_first_handling(old(handlers)@, event, i) && handler_step(
                    old(handlers)@[i],
                    event,
                    final(handlers)@[i],
                    contents(r@),
                ) && final(handlers)@ == old(handlers)@.update(i, final(handlers)@[i])
                    && final(stats).events_remapped == old(stats).events_remapped + 1
                    && final(stats).events_passthrough == old(stats).events_passthrough
        } else {
            &&& r@ == seq![event]
            &&& final(handlers)@ == old(handlers)@
            &&& final(stats).events_remapped == old(stats).events_remapped
            &&& final(stats).events_passthrough == old(stats).events_passthrough + 1
        },
{
    if event.is_sync() {
        let r = vec![event];
        assert(r@ =~= seq![event]);
        return r;
    }
    let mut i: usize = 0;
    while i < handlers.len()
        invariant
            0 <= i <= handlers@.len(),
            handlers@ == old(handlers)@,
            *stats == *old(stats),
            old(stats).events_remapped < u64::MAX,
            event.event_type != EventType::Syn,
            forall|j: int| 0 <= j < i ==> !handler_handles(#[trigger] handlers@[j], event),
        decreases handlers@.len() - i,
    {
        if handlers[i].handles(&event) {
            assert(is_first_handling(old(handlers)@, event, i as int));
            let out = handlers[i].process(event);
            stats.events_remapped = stats.events_remapped + 1;
            assert(final(handlers)@ =~= old(handlers)@.update(i as int, final(handlers)@[i as int]));
            return out;
        }
        i = i + 1;
    }
    stats.events_passthrough = stats.events_passthrough + 1;
    let r = vec![event];
    assert(r@ =~= seq![event]);
    r
}

/// The waits that processing the event plays out: the delays of a macro
/// whose trigger press is the event, when its handler is the first that
/// takes the event; none otherwise.
pub open spec fn delays_before_spec(hs: Seq<Handler>, e: InputEvent) -> Seq<u32> {
    if e.event_type != EventType::Syn && exists|i: int| is_first_handling(hs, e, i) {
        let i = choose|i: int| is_first_handling(hs, e, i);
        match hs[i] {
            Handler::Macro(m) => if e.value == 1 && !m.held() {
                delays_of(m.compiled_spec())
            } else {
                Seq::empty()
            },
            _ => Seq::empty(),
        }
    } else {
        Seq::empty()
    }
}

/// The delays, in milliseconds, to wait out before the events that
/// processing the event gives are written.
pub fn delays_before(handlers: &Vec<Handler>, event: &InputEvent) -> (r: Vec<u32>)
    ensures
        r@ == delays_before_spec(handlers@, *event),
{
    if event.is_sync() {
        return Vec::new();
    }
    let mut i: usize = 0;
    while i < handlers.len()
        invariant
            0 <= i <= handlers@.len(),
            event.event_type != EventType::Syn,
            forall|j: int| 0 <= j < i ==> !handler_handles(#[trigger] handlers@[j], *event),
        decreases handlers@.len() - i,
    {
        if handlers[i].handles(event) {
            proof {
                assert(is_first_handling(handlers@, *event, i as int));
                let k = choose|k: int| is_first_handling(handlers@, *event, k);
                assert(is_first_handling(handlers@, *event, k));
                if k < i {
                    assert(!handler_handles(handlers@[k], *event));
                }
                if i < k {
                    assert(!handler_handles(handlers@[i as int], *event));
                }
            }
            return match &handlers[i] {
                Handler::Macro(m) => if m.triggers_on(event) {
                    m.delays()
                } else {
                    Vec::new()
                },
                _ => Vec::new(),
            };
        }
        i = i + 1;
    }
    proof {
        if exists|k: int| is_first_handling(handlers@, *event, k) {
            let k = choose|k: int| is_first_handling(handlers@, *event, k);
            assert(handler_handles(handlers@[k], *event));
        }
    }
    Vec::new()
}

/// Reset every handler, as when the engine stops.
pub fn reset_handlers(handlers: &mut Vec<Handler>)
    ensures
        final(handlers)@.len() == old(handlers)@.len(),
        forall|i: int|
            0 <= i < old(handlers)@.len() ==> handler_was_reset(
                old(handlers)@[i],
                #[trigger] final(handlers)@[i],
            ),
{
    let mut i: usize = 0;
    while i < handlers.len()
        invariant
            0 <= i <= handlers@.len(),
            handlers@.len() == old(handlers)@.len(),
            forall|j: int| 0 <= j < i ==> handler_was_reset(old(handlers)@[j], #[trigger] handlers@[j]),
            forall|j: int| i <= j < handlers@.len() ==> #[trigger] handlers@[j] == old(handlers)@[j],
        decreases handlers@.len() - i,
    {
        let mut h = handlers.remove(i);
        h.reset();
        handlers.insert(i, h);
        i = i + 1;
    }
}

} // verus!
