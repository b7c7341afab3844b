//! Event viewer component: a capped log of recent input events, newest
//! first, with a type filter and a pause switch.
use std::collections::VecDeque;
use vstd::prelude::*;
use vstd::string::*;

use crate::devices::DeviceInfo;
use crate::events::{event_type_name, EventType, InputEvent};
use crate::keycodes::{
    abs_code_to_name, abs_name_of_code, key_code_to_name, key_name_of_code, rel_code_to_name,
    rel_name_of_code,
};
use crate::text::{
    dec_str, int_str, int_str_zero_padded, push_dec, push_int, push_int_zero_padded, str_eq,
};

verus! {

/// Maximum number of events to keep in history.
pub const MAX_EVENTS: usize = 100;

/// Entry in the event log.
#[derive(Debug)]
pub struct EventEntry {
    pub timestamp: String,
    pub event_type: String,
    pub code: u16,
    pub code_name: String,
    pub value: i32,
    pub value_str: String,
}

impl Clone for EventEntry {
    fn clone(&self) -> (r: Self)
        ensures
            r == *self,
    {
        EventEntry {
            timestamp: self.timestamp.clone(),
            event_type: self.event_type.clone(),
            code: self.code,
            code_name: self.code_name.clone(),
            value: self.value,
            value_str: self.value_str.clone(),
        }
    }
}

/// Event type filter.
#[derive(Debug, Clone, Copy, PartialEq, Eq, Structural)]
pub enum EventFilter {
    All,
    Keys,
    Axes,
    Buttons,
}

/// The label a filter is shown by.
pub open spec fn event_filter_text(f: EventFilter) -> Seq<char> {
    match f {
        EventFilter::All => "All Events"@,
        EventFilter::Keys => "Keys Only"@,
        EventFilter::Axes => "Axes Only"@,
        EventFilter::Buttons => "Buttons Only"@,
    }
}

impl EventFilter {
    /// The filter's label.
    pub fn to_string(&self) -> (r: String)
        ensures
            r@ == event_filter_text(*self),
    {
        match self {
            EventFilter::All => String::from_str("All Events"),
            EventFilter::Keys => String::from_str("Keys Only"),
            EventFilter::Axes => String::from_str("Axes Only"),
            EventFilter::Buttons => String::from_str("Buttons Only"),
        }
    }
}

/// Event viewer messages.
#[derive(Debug)]
pub enum EventViewerMessage {
    /// Device selected
    DeviceSelected(usize),
    /// Start capturing
    StartCapture,
    /// Stop capturing
    StopCapture,
    /// Toggle pause
    TogglePause,
    /// Clear events
    ClearEvents,
    /// Filter changed
    FilterChanged(EventFilter),
    /// New event received
    EventReceived(EventEntry),
    /// Refresh device list
    RefreshDevices,
}

/// Whether an event passes a filter: keys, axes (absolute or relative), or
/// buttons (keys with codes from 256 up).
pub open spec fn passes_filter(f: EventFilter, e: InputEvent) -> bool {
    match f {
        EventFilter::All => true,
        EventFilter::Keys => e.event_type == EventType::Key,
        EventFilter::Axes => e.event_type == EventType::Abs || e.event_type == EventType::Rel,
        EventFilter::Buttons => e.event_type == EventType::Key && e.code >= 256,
    }
}

/// The name shown for an event's code: from the key, absolute-axis or
/// relative-axis table by type, `CODE_<n>` for other types.
pub open spec fn code_name_text(e: InputEvent) -> Seq<char> {
    match e.event_type {
        EventType::Key => key_name_of_code(e.code),
        EventType::Abs => abs_name_of_code(e.code),
        EventType::Rel => rel_name_of_code(e.code),
        _ => "CODE_"@ + dec_str(e.code as nat),
    }
}

/// The text shown for an event's value: key values 0, 1 and 2 as RELEASE,
/// PRESS and REPEAT; any other value as its number.
pub open spec fn value_text(e: InputEvent) -> Seq<char> {
    if e.event_type == EventType::Key && e.value == 0 {
        "RELEASE"@
    } else if e.event_type == EventType::Key && e.value == 1 {
        "PRESS"@
    } else if e.event_type == EventType::Key && e.value == 2 {
        "REPEAT"@
    } else {
        int_str(e.value as int)
    }
}

/// `"<seconds>.<microseconds, six digits>"`.
pub open spec fn timestamp_text(e: InputEvent) -> Seq<char> {
    int_str(e.time_sec as int) + "."@ + int_str_zero_padded(e.time_usec as int, 6)
}

/// `entry` is the log entry of event `e`.
pub open spec fn entry_of(e: InputEvent, entry: EventEntry) -> bool {
    &&& entry.timestamp@ == timestamp_text(e)
    &&& entry.event_type@ == event_type_name(e.event_type)
    &&& entry.code == e.code
    &&& entry.code_name@ == code_name_text(e)
    &&& entry.value == e.value
    &&& entry.value_str@ == value_text(e)
}

/// The newest entries of a log, at most the cap.
pub open spec fn keep_recent(s: Seq<EventEntry>) -> Seq<EventEntry> {
    if s.len() > MAX_EVENTS {
        s.take(MAX_EVENTS as int)
    } else {
        s
    }
}

/// Get a human-readable name for an event code.
pub fn get_code_name(event: &InputEvent) -> (r: String)
    ensures
        r@ == code_name_text(*event),
{
    match event.event_type {
        EventType::Key => key_code_to_name(event.code),
        EventType::Abs => abs_code_to_name(event.code),
        EventType::Rel => rel_code_to_name(event.code),
        _ => {
            let mut s = String::from_str("CODE_");
            push_dec(&mut s, event.code as u64);
            s
        },
    }
}

/// Get a human-readable value string.
pub fn get_value_string(event: &InputEvent) -> (r: String)
    ensures
        r@ == value_text(*event),
{
    if event.event_type == EventType::Key && event.value == 0 {
        String::from_str("RELEASE")
    } else if event.event_type == EventType::Key && event.value == 1 {
        String::from_str("PRESS")
    } else if event.event_type == EventType::Key && event.value == 2 {
        String::from_str("REPEAT")
    } else {
        let mut s = String::new();
        push_int(&mut s, event.value as i64);
        assert(s@ =~= int_str(event.value as int));
        s
    }
}

/// The log entry of an event.
pub fn make_entry(event: &InputEvent) -> (r: EventEntry)
    ensures
        entry_of(*event, r),
{
    let mut timestamp = String::new();
    push_int(&mut timestamp, event.time_sec);
    timestamp.append(".");
    push_int_zero_padded(&mut timestamp, event.time_usec, 6);
    assert(timestamp@ =~= timestamp_text(*event));
    EventEntry {
        timestamp,
        event_type: event.event_type.to_string(),
        code: event.code,
        code_name: get_code_name(event),
        value: event.value,
        value_str: get_value_string(event),
    }
}

/// Event viewer component for debugging.
pub struct EventViewer {
    /// Available devices
    devices: Vec<DeviceInfo>,
    /// Selected device index
    selected_device: Option<usize>,
    /// Whether currently capturing
    capturing: bool,
    /// Event history, newest first
    events: VecDeque<EventEntry>,
    /// Filter by event type
    filter: EventFilter,
    /// Whether to pause capture
    paused: bool,
}

impl EventViewer {
    /// The devices.
    pub closed spec fn devices_spec(&self) -> Seq<DeviceInfo> {
        self.devices@
    }

    /// The selected device's position.
    pub closed spec fn selected_spec(&self) -> Option<usize> {
        self.selected_device
    }

    /// Whether capture is on.
    pub closed spec fn capturing_spec(&self) -> bool {
        self.capturing
    }

    /// The log, newest first.
    pub closed spec fn events_spec(&self) -> Seq<EventEntry> {
        self.events@
    }

    /// The filter.
    pub closed spec fn filter_spec(&self) -> EventFilter {
        self.filter
    }

    /// Whether capture is paused.
    pub closed spec fn paused_spec(&self) -> bool {
        self.paused
    }

    /// Everything but the log is as in `other`.
    pub open spec fn same_settings(&self, other: &Self) -> bool {
        &&& self.devices_spec() == other.devices_spec()
        &&& self.selected_spec() == other.selected_spec()
        &&& self.capturing_spec() == other.capturing_spec()
        &&& self.filter_spec() == other.filter_spec()
        &&& self.paused_spec() == other.paused_spec()
    }

    /// The devices to choose from.
    pub fn devices(&self) -> (r: &Vec<DeviceInfo>)
        ensures
            r@ == self.devices_spec(),
    {
        &self.devices
    }

    /// The selected device's position.
    pub fn selected_device(&self) -> (r: Option<usize>)
        ensures
            r == self.selected_spec(),
    {
        self.selected_device
    }

    /// Whether capture is on.
    pub fn is_capturing(&self) -> (r: bool)
        ensures
            r == self.capturing_spec(),
    {
        self.capturing
    }

    /// The log, newest first.
    pub fn events(&self) -> (r: &VecDeque<EventEntry>)
        ensures
            r@ == self.events_spec(),
    {
        &self.events
    }

    /// The filter.
    pub fn filter(&self) -> (r: EventFilter)
        ensures
            r == self.filter_spec(),
    {
        self.filter
    }

    /// Whether capture is paused.
    pub fn is_paused(&self) -> (r: bool)
        ensures
            r == self.paused_spec(),
    {
        self.paused
    }

    /// Create a new event viewer: nothing selected, not capturing, an empty
    /// log, no filter, not paused.
    pub fn new(devices: Vec<DeviceInfo>) -> (r: Self)
        ensures
            r.devices_spec() == devices@,
            r.selected_spec() is None,
            !r.capturing_spec(),
            r.events_spec().len() == 0,
            r.filter_spec() == EventFilter::All,
            !r.paused_spec(),
    {
        EventViewer {
            devices,
            selected_device: None,
            capturing: false,
            events: VecDeque::new(),
            filter: EventFilter::All,
            paused: false,
        }
    }

    /// Puts an entry at the front of the log and drops the oldest entries
    /// beyond the cap.
    fn push_entry(&mut self, entry: EventEntry)
        ensures
            final(self).same_settings(old(self)),
            final(self).events_spec() == keep_recent(seq![entry] + old(self).events_spec()),
    {
        let ghost s = seq![entry] + self.events@;
        self.events.push_front(entry);
        assert(self.events@ =~= s);
        while self.events.len() > MAX_EVENTS
            invariant
                self.events@ == s.take(self.events@.len() as int),
                self.events@.len() >= if s.len() > MAX_EVENTS {
                    MAX_EVENTS as int
                } else {
                    s.len() as int
                },
                self.events@.len() <= s.len(),
                self.same_settings(old(self)),
            decreases self.events@.len(),
        {
            self.events.pop_back();
            assert(self.events@ =~= s.take(self.events@.len() as int));
        }
        assert(self.events@ =~= keep_recent(s));
    }

    /// Add an event to the log, unless capture is paused, the filter refuses
    /// it, or it is a synchronization event.
    pub fn add_event(&mut self, event: InputEvent)
        ensures
            final(self).same_settings(old(self)),
            if old(self).paused_spec() || !passes_filter(old(self).filter_spec(), event)
                || event.event_type == EventType::Syn {
                final(self).events_spec() == old(self).events_spec()
            } else {
                &&& final(self).events_spec().len() > 0
                &&& entry_of(event, final(self).events_spec()[0])
                &&& final(self).events_spec() == keep_recent(
                    seq![final(self).events_spec()[0]] + old(self).events_spec(),
                )
            },
    {
        if self.paused {
            return;
        }
        let should_add = match self.filter {
            EventFilter::All => true,
            EventFilter::Keys => event.event_type == EventType::Key,
            EventFilter::Axes => event.event_type == EventType::Abs || event.event_type
                == EventType::Rel,
            EventFilter::Buttons => event.event_type == EventType::Key && event.code >= 256,
        };
        if !should_add {
            return;
        }
        if event.is_sync() {
            return;
        }
        let entry = make_entry(&event);
        let ghost e = entry;
        self.push_entry(entry);
        assert(self.events@[0] == e);
    }

    /// Handle message.
    pub fn update(&mut self, message: EventViewerMessage)
        ensures
            final(self).devices_spec() == old(self).devices_spec(),
            match message {
                EventViewerMessage::DeviceSelected(idx) => {
                    &&& final(self).selected_spec() == Some(idx)
                    &&& final(self).capturing_spec() == old(self).capturing_spec()
                    &&& final(self).events_spec() == old(self).events_spec()
                    &&& final(self).filter_spec() == old(self).filter_spec()
                    &&& final(self).paused_spec() == old(self).paused_spec()
                },
                EventViewerMessage::StartCapture => {
                    &&& final(self).capturing_spec()
                    &&& final(self).selected_spec() == old(self).selected_spec()
                    &&& final(self).events_spec() == old(self).events_spec()
                    &&& final(self).filter_spec() == old(self).filter_spec()
                    &&& final(self).paused_spec() == old(self).paused_spec()
                },
                EventViewerMessage::StopCapture => {
                    &&& !final(self).capturing_spec()
                    &&& final(self).selected_spec() == old(self).selected_spec()
                    &&& final(self).events_spec() == old(self).events_spec()
                    &&& final(self).filter_spec() == old(self).filter_spec()
                    &&& final(self).paused_spec() == old(self).paused_spec()
                },
                EventViewerMessage::TogglePause => {
                    &&& final(self).paused_spec() == !old(self).paused_spec()
                    &&& final(self).selected_spec() == old(self).selected_spec()
                    &&& final(self).capturing_spec() == old(self).capturing_spec()
                    &&& final(self).events_spec() == old(self).events_spec()
                    &&& final(self).filter_spec() == old(self).filter_spec()
                },
                EventViewerMessage::ClearEvents => {
                    &&& final(self).events_spec().len() == 0
                    &&& final(self).selected_spec() == old(self).selected_spec()
                    &&& final(self).capturing_spec() == old(self).capturing_spec()
                    &&& final(self).filter_spec() == old(self).filter_spec()
                    &&& final(self).paused_spec() == old(self).paused_spec()
                },
                EventViewerMessage::FilterChanged(f) => {
                    &&& final(self).filter_spec() == f
                    &&& final(self).selected_spec() == old(self).selected_spec()
                    &&& final(self).capturing_spec() == old(self).capturing_spec()
                    &&& final(self).events_spec() == old(self).events_spec()
                    &&& final(self).paused_spec() == old(self).paused_spec()
                },
                EventViewerMessage::EventReceived(entry) => {
                    &&& final(self).same_settings(old(self))
                    &&& final(self).events_spec() == keep_recent(
                        seq![entry] + old(self).events_spec(),
                    )
                },
                EventViewerMessage::RefreshDevices => *final(self) == *old(self),
            },
    {
        match message {
            EventViewerMessage::DeviceSelected(idx) => {
                self.selected_device = Some(idx);
            },
            EventViewerMessage::StartCapture => {
                self.capturing = true;
            },
            EventViewerMessage::StopCapture => {
                self.capturing = false;
            },
            EventViewerMessage::TogglePause => {
                self.paused = !self.paused;
            },
            EventViewerMessage::ClearEvents => {
                self.events.clear();
            },
            EventViewerMessage::FilterChanged(filter) => {
                self.filter = filter;
            },
            EventViewerMessage::EventReceived(entry) => {
                self.push_entry(entry);
            },
            EventViewerMessage::RefreshDevices => {},
        }
    }
}

impl Default for EventViewer {
    fn default() -> (r: Self)
        ensures
            r.devices_spec().len() == 0,
            r.selected_spec() is None,
            !r.capturing_spec(),
            r.events_spec().len() == 0,
            r.filter_spec() == EventFilter::All,
            !r.paused_spec(),
    {
        Self::new(Vec::new())
    }
}

/// The capture button.
#[derive(Debug, Clone, Copy, PartialEq, Eq, Structural)]
pub enum CaptureButton {
    /// `Stop`, while capturing
    Stop,
    /// `Start`, with a device selected
    Start,
    /// `Start`, inactive: no device selected
    StartInactive,
}

/// How a device is offered in the viewer's device list: `<name> (<path>)`.
pub open spec fn device_label_text(d: DeviceInfo) -> Seq<char> {
    d.name@ + " ("@ + d.path@ + ")"@
}

/// The first position of a text among labels.
pub open spec fn first_label(labels: Seq<String>, chosen: Seq<char>) -> Option<int>
    decreases labels.len(),
{
    if labels.len() == 0 {
        None
    } else {
        match first_label(labels.drop_last(), chosen) {
            Some(i) => Some(i),
            None => if labels.last()@ == chosen {
                Some(labels.len() - 1)
            } else {
                None
            },
        }
    }
}

/// The device that a chosen label stands for: the first device offered
/// under that label, or the first device when none is.
pub fn selection_from_label(labels: &Vec<String>, chosen: &str) -> (r: usize)
    ensures
        match first_label(labels@, chosen@) {
            Some(i) => r == i,
            None => r == 0,
        },
{
    let mut i: usize = 0;
    while i < labels.len()
        invariant
            0 <= i <= labels@.len(),
            first_label(labels@.take(i as int), chosen@) is None,
        decreases labels@.len() - i,
    {
        proof {
            assert(labels@.take(i + 1).drop_last() =~= labels@.take(i as int));
        }
        if str_eq(labels[i].as_str(), chosen) {
            proof {
                lemma_first_label_prefix(labels@, chosen@, i + 1);
            }
            return i;
        }
        i = i + 1;
    }
    proof {
        assert(labels@.take(labels@.len() as int) =~= labels@);
    }
    0
}

/// A label found among the first labels is found first among all.
proof fn lemma_first_label_prefix(labels: Seq<String>, chosen: Seq<char>, k: int)
    requires
        0 <= k <= labels.len(),
        first_label(labels.take(k), chosen) is Some,
    ensures
        first_label(labels, chosen) == first_label(labels.take(k), chosen),
    decreases labels.len(),
{
    if k == labels.len() {
        assert(labels.take(k) =~= labels);
    } else {
        assert(labels.drop_last().take(k) =~= labels.take(k));
        lemma_first_label_prefix(labels.drop_last(), chosen, k);
    }
}

impl EventViewer {
    /// The devices as the device list offers them, in order.
    pub fn device_labels(&self) -> (r: Vec<String>)
        ensures
            r@.len() == self.devices_spec().len(),
            forall|i: int|
                0 <= i < r@.len() ==> (#[trigger] r@[i])@ == device_label_text(
                    self.devices_spec()[i],
                ),
    {
        let mut r: Vec<String> = Vec::new();
        let mut i: usize = 0;
        while i < self.devices.len()
            invariant
                0 <= i <= self.devices@.len(),
                r@.len() == i,
                forall|j: int|
                    0 <= j < i ==> (#[trigger] r@[j])@ == device_label_text(self.devices@[j]),
            decreases self.devices@.len() - i,
        {
            let d = &self.devices[i];
            let mut s = d.name.clone();
            s.append(" (");
            s.append(d.path.as_str());
            s.append(")");
            r.push(s);
            i = i + 1;
        }
        r
    }

    /// The capture button: stop while capturing, otherwise start, active
    /// only with a device selected.
    pub fn capture_button(&self) -> (r: CaptureButton)
        ensures
            r == if self.capturing_spec() {
                CaptureButton::Stop
            } else if self.selected_spec() is Some {
                CaptureButton::Start
            } else {
                CaptureButton::StartInactive
            },
    {
        if self.capturing {
            CaptureButton::Stop
        } else if self.selected_device.is_some() {
            CaptureButton::Start
        } else {
            CaptureButton::StartInactive
        }
    }

    /// The pause button's caption: `Resume` while paused, `Pause` otherwise.
    pub fn pause_label(&self) -> (r: &'static str)
        ensures
            r@ == if self.paused_spec() {
                "Resume"@
            } else {
                "Pause"@
            },
    {
        if self.paused {
            "Resume"
        } else {
            "Pause"
        }
    }

    /// The capture status: `Paused` or `Capturing...` while capturing,
    /// `Stopped` otherwise.
    pub fn status_label(&self) -> (r: &'static str)
        ensures
            r@ == if !self.capturing_spec() {
                "Stopped"@
            } else if self.paused_spec() {
                "Paused"@
            } else {
                "Capturing..."@
            },
    {
        if !self.capturing {
            "Stopped"
        } else if self.paused {
            "Paused"
        } else {
            "Capturing..."
        }
    }
}

} // verus!
