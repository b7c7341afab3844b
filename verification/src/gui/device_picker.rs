//! Device picker component: a device list, a type filter and a selection
//! within the filtered list.
use vstd::prelude::*;

use crate::devices::DeviceInfo;

verus! {

/// Device type filter.
#[derive(Debug, Clone, Copy, PartialEq, Eq, Structural)]
pub enum DeviceFilter {
    All,
    Gamepads,
    Keyboards,
    Mice,
}

/// Device picker messages.
#[derive(Debug, Clone, Copy)]
pub enum DevicePickerMessage {
    /// Device selected
    Selected(usize),
    /// Filter changed
    FilterChanged(DeviceFilter),
    /// Refresh devices
    Refresh,
    /// Confirm selection
    Confirm,
    /// Cancel selection
    Cancel,
}

/// Whether a device passes a filter.
pub open spec fn passes(filter: DeviceFilter) -> spec_fn(DeviceInfo) -> bool {
    |d: DeviceInfo|
        match filter {
            DeviceFilter::All => true,
            DeviceFilter::Gamepads => d.is_gamepad,
            DeviceFilter::Keyboards => d.is_keyboard,
            DeviceFilter::Mice => d.is_mouse,
        }
}

/// The devices that a sequence of references points to.
pub open spec fn deref_devices(s: Seq<&DeviceInfo>) -> Seq<DeviceInfo> {
    s.map_values(|d: &DeviceInfo| *d)
}

/// Device picker component.
pub struct DevicePicker {
    /// Available devices
    devices: Vec<DeviceInfo>,
    /// Selected device index
    selected: Option<usize>,
    /// Filter by device type
    filter: DeviceFilter,
}

impl DevicePicker {
    /// The devices.
    pub closed spec fn devices_spec(&self) -> Seq<DeviceInfo> {
        self.devices@
    }

    /// The selected position in the filtered list.
    pub closed spec fn selected_spec(&self) -> Option<usize> {
        self.selected
    }

    /// The filter.
    pub closed spec fn filter_spec(&self) -> DeviceFilter {
        self.filter
    }

    /// The devices that pass the filter, in order.
    pub open spec fn filtered_spec(&self) -> Seq<DeviceInfo> {
        self.devices_spec().filter(passes(self.filter_spec()))
    }

    /// Create a new device picker: no selection, no filter.
    pub fn new(devices: Vec<DeviceInfo>) -> (r: Self)
        ensures
            r.devices_spec() == devices@,
            r.selected_spec() is None,
            r.filter_spec() == DeviceFilter::All,
    {
        DevicePicker { devices, selected: None, filter: DeviceFilter::All }
    }

    /// Get filtered devices.
    pub fn filtered_devices(&self) -> (r: Vec<&DeviceInfo>)
        ensures
            deref_devices(r@) == self.filtered_spec(),
    {
        let ghost p = passes(self.filter);
        let mut out: Vec<&DeviceInfo> = Vec::new();
        let mut i: usize = 0;
        while i < self.devices.len()
            invariant
                0 <= i <= self.devices@.len(),
                p == passes(self.filter),
                deref_devices(out@) == self.devices@.take(i as int).filter(p),
            decreases self.devices@.len() - i,
        {
            proof {
                self.devices@.take(i as int).lemma_filter_push(self.devices@[i as int], p);
                assert(self.devices@.take(i + 1) =~= self.devices@.take(i as int).push(
                    self.devices@[i as int],
                ));
            }
            let d = &self.devices[i];
            let keep = match self.filter {
                DeviceFilter::All => true,
                DeviceFilter::Gamepads => d.is_gamepad,
                DeviceFilter::Keyboards => d.is_keyboard,
                DeviceFilter::Mice => d.is_mouse,
            };
            if keep {
                out.push(d);
            }
            assert(deref_devices(out@) =~= self.devices@.take(i + 1).filter(p));
            i = i + 1;
        }
        assert(self.devices@.take(self.devices@.len() as int) =~= self.devices@);
        out
    }

    /// Get the selected device: the selected position of the filtered list,
    /// when there is a device there.
    pub fn selected_device(&self) -> (r: Option<&DeviceInfo>)
        ensures
            match self.selected_spec() {
                Some(i) => if i < self.filtered_spec().len() {
                    r matches Some(d) && *d == self.filtered_spec()[i as int]
                } else {
                    r is None
                },
                None => r is None,
            },
    {
        match self.selected {
            Some(idx) => {
                let filtered = self.filtered_devices();
                if idx < filtered.len() {
                    Some(filtered[idx])
                } else {
                    None
                }
            },
            None => None,
        }
    }

    /// Handle message: a selection sets the selected position; a filter
    /// change sets the filter and clears the selection; the rest are for the
    /// parent.
    pub fn update(&mut self, message: DevicePickerMessage)
        ensures
            final(self).devices_spec() == old(self).devices_spec(),
            match message {
                DevicePickerMessage::Selected(idx) => final(self).selected_spec() == Some(idx)
                    && final(self).filter_spec() == old(self).filter_spec(),
                DevicePickerMessage::FilterChanged(f) => final(self).selected_spec() is None
                    && final(self).filter_spec() == f,
                _ => final(self).selected_spec() == old(self).selected_spec()
                    && final(self).filter_spec() == old(self).filter_spec(),
            },
    {
        match message {
            DevicePickerMessage::Selected(idx) => {
                self.selected = Some(idx);
            },
            DevicePickerMessage::FilterChanged(filter) => {
                self.filter = filter;
                self.selected = None;
            },
            DevicePickerMessage::Refresh => {},
            DevicePickerMessage::Confirm | DevicePickerMessage::Cancel => {},
        }
    }
}

} // verus!
