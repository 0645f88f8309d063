//! The panel for the camera's settings.

use crate::gui::Panel;
use vstd::prelude::*;

verus! {

/// State of the camera panel.
pub struct CameraSettings {
    showing: bool,
    label: String,
}

impl View for CameraSettings {
    type V = Panel;

    closed spec fn view(&self) -> Panel {
        Panel { showing: self.showing, label: self.label@ }
    }
}

impl CameraSettings {
    /// A closed panel titled "Camera Settings".
    pub fn new() -> (panel: CameraSettings)
        ensures
            !panel@.showing,
            panel@.label == "Camera Settings"@,
    {
        CameraSettings { label: "Camera Settings".to_owned(), showing: false }
    }

    /// The panel's title.
    pub fn label(&self) -> (label: &str)
        ensures
            label@ == self@.label,
    {
        self.label.as_str()
    }

    /// Opens the panel.
    pub fn show(&mut self)
        ensures
            final(self)@.showing,
            final(self)@.label == old(self)@.label,
    {
        self.showing = true;
    }

    /// Whether the panel is open.
    pub fn is_showing(&self) -> (showing: bool)
        ensures
            showing == self@.showing,
    {
        self.showing
    }

    /// Opens or closes the panel.
    pub fn set_showing(&mut self, showing: bool)
        ensures
            final(self)@.showing == showing,
            final(self)@.label == old(self)@.label,
    {
        self.showing = showing;
    }
}

} // verus!
