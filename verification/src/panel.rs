//! The control panel's own state: collapsed or not, which tab is shown,
//! and what a left click on the 2D canvas does.

use vstd::prelude::*;

verus! {

/// Editing sub-mode (lives in the Edit tab). Determines what a left-click does.
#[derive(Debug, Clone, Copy, PartialEq, Eq, Structural)]
pub enum EditMode {
    /// "Inactive": clicks do nothing. Default when not on the Edit tab.
    Off,
    Add,
    Delete,
    PlaceCentroid,
}

/// Which tab is currently shown.
#[derive(Debug, Clone, Copy, PartialEq, Eq, Structural)]
pub enum Tab {
    Main,
    Edit,
}

/// Persistent settings owned by the host; passed in each frame and updated
/// from the panel state returned.
#[derive(Debug, Clone, Copy, PartialEq, Eq, Structural)]
pub struct PanelSettings {
    pub collapsed: bool,
    pub tab: Tab,
    pub edit_mode: EditMode,
}

impl Default for PanelSettings {
    /// Expanded, on the Main tab, clicks inactive.
    fn default() -> (s: Self)
        ensures
            s == (PanelSettings { collapsed: false, tab: Tab::Main, edit_mode: EditMode::Off }),
    {
        PanelSettings { collapsed: false, tab: Tab::Main, edit_mode: EditMode::Off }
    }
}

impl PanelSettings {
    /// The collapse button: expand a collapsed panel, collapse an expanded one.
    pub fn toggle_collapsed(&mut self)
        ensures
            *final(self) == (PanelSettings { collapsed: !old(self).collapsed, ..*old(self) }),
    {
        self.collapsed = !self.collapsed;
    }

    /// A tab button. Leaving for the Main tab disables edit clicks entirely,
    /// so they cannot fire from outside the Edit tab; entering the Edit tab
    /// with clicks inactive defaults them to adding points.
    pub fn select_tab(&mut self, tab: Tab)
        ensures
            final(self).tab == tab,
            final(self).collapsed == old(self).collapsed,
            tab == Tab::Main ==> final(self).edit_mode == EditMode::Off,
            tab == Tab::Edit ==> final(self).edit_mode == (if old(self).edit_mode == EditMode::Off {
                EditMode::Add
            } else {
                old(self).edit_mode
            }),
    {
        self.tab = tab;
        if tab == Tab::Main {
            self.edit_mode = EditMode::Off;
        } else if self.edit_mode == EditMode::Off {
            self.edit_mode = EditMode::Add;
        }
    }

    /// The Edit tab shown in 3D mode: point editing is 2D-only, so clicks
    /// are kept inactive.
    pub fn edit_tab_in_3d(&mut self)
        ensures
            *final(self) == (PanelSettings { edit_mode: EditMode::Off, ..*old(self) }),
    {
        self.edit_mode = EditMode::Off;
    }

    /// An edit-mode button in the Edit tab.
    pub fn select_edit_mode(&mut self, mode: EditMode)
        ensures
            *final(self) == (PanelSettings { edit_mode: mode, ..*old(self) }),
    {
        self.edit_mode = mode;
    }
}

} // verus!
