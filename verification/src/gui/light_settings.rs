//! The panel that edits one light of the scene.

use crate::gui::{edited, selection_for, settle, ListPanel};
use vstd::prelude::*;

verus! {

/// State of the light panel.
pub struct LightSettings {
    showing: bool,
    light: usize,
    label: String,
}

impl View for LightSettings {
    type V = ListPanel;

    closed spec fn view(&self) -> ListPanel {
        ListPanel { showing: self.showing, label: self.label@, selected: self.light }
    }
}

impl LightSettings {
    /// A closed panel titled "Light Settings" that edits the first light.
    pub fn new() -> (panel: LightSettings)
        ensures
            !panel@.showing,
            panel@.selected == 0,
            panel@.label == "Light Settings"@,
    {
        LightSettings { label: "Light Settings".to_owned(), light: 0, showing: false }
    }

    /// The panel's title.
    pub fn label(&self) -> (label: &str)
        ensures
            label@ == self@.label,
    {
        self.label.as_str()
    }

    /// Opens the panel.
    pub fn show(&mut self)
        ensures
            final(self)@.showing,
            final(self)@.label == old(self)@.label,
            final(self)@.selected == old(self)@.selected,
    {
        self.showing = true;
    }

    /// Whether the panel is open.
    pub fn is_showing(&self) -> (showing: bool)
        ensures
            showing == self@.showing,
    {
        self.showing
    }

    /// Opens or closes the panel.
    pub fn set_showing(&mut self, showing: bool)
        ensures
            final(self)@.showing == showing,
            final(self)@.label == old(self)@.label,
            final(self)@.selected == old(self)@.selected,
    {
        self.showing = showing;
    }

    /// Settles the selection for a scene of `count` lights and returns the
    /// position of the light to edit: the selected one where the scene still
    /// has that position, else the first; `None` in a scene without lights.
    pub fn selection(&mut self, count: usize) -> (position: Option<usize>)
        ensures
            final(self)@.selected == selection_for(old(self)@.selected, count),
            position == edited(old(self)@.selected, count),
            final(self)@.showing == old(self)@.showing,
            final(self)@.label == old(self)@.label,
    {
        self.light = settle(self.light, count);
        if count > 0 {
            Some(self.light)
        } else {
            None
        }
    }

    /// Makes the light at `position` the one that the panel edits.
    pub fn select(&mut self, position: usize)
        ensures
            final(self)@.selected == position,
            final(self)@.showing == old(self)@.showing,
            final(self)@.label == old(self)@.label,
    {
        self.light = position;
    }
}

} // verus!
