//! The state of the graphical interface's components: the device picker,
//! the event viewer, the mapping editor and the profile editor. Drawing them
//! is the caller's part.
pub mod app;
pub mod device_picker;
pub mod event_viewer;
pub mod mapping_editor;
pub mod profile_editor;
pub mod screens;
