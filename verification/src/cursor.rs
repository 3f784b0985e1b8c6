use vstd::prelude::*;

verus! {

/// The interaction that the widget under the mouse cursor offers.
#[derive(Clone, Copy, Debug, PartialEq, Eq, Structural)]
pub enum Interaction {
    Idle,
    Pointer,
    Grab,
    Text,
    Crosshair,
    Working,
    Grabbing,
    ResizingHorizontally,
    ResizingVertically,
}

/// The icon that a window shows for its mouse cursor.
#[derive(Clone, Copy, Debug, PartialEq, Eq, Structural)]
pub enum CursorIcon {
    Default,
    Hand,
    Grab,
    Text,
    Crosshair,
    Progress,
    Grabbing,
    EwResize,
    NsResize,
}

impl Interaction {
    /// The icon that stands for the interaction.
    pub open spec fn icon(self) -> CursorIcon {
        match self {
            Interaction::Idle => CursorIcon::Default,
            Interaction::Pointer => CursorIcon::Hand,
            Interaction::Grab => CursorIcon::Grab,
            Interaction::Text => CursorIcon::Text,
            Interaction::Crosshair => CursorIcon::Crosshair,
            Interaction::Working => CursorIcon::Progress,
            Interaction::Grabbing => CursorIcon::Grabbing,
            Interaction::ResizingHorizontally => CursorIcon::EwResize,
            Interaction::ResizingVertically => CursorIcon::NsResize,
        }
    }

    /// Returns the icon that stands for the interaction.
    pub fn cursor_icon(self) -> (icon: CursorIcon)
        ensures
            icon == self.icon(),
    {
        match self {
            Interaction::Idle => CursorIcon::Default,
            Interaction::Pointer => CursorIcon::Hand,
            Interaction::Grab => CursorIcon::Grab,
            Interaction::Text => CursorIcon::Text,
            Interaction::Crosshair => CursorIcon::Crosshair,
            Interaction::Working => CursorIcon::Progress,
            Interaction::Grabbing => CursorIcon::Grabbing,
            Interaction::ResizingHorizontally => CursorIcon::EwResize,
            Interaction::ResizingVertically => CursorIcon::NsResize,
        }
    }
}

impl Default for Interaction {
    fn default() -> (interaction: Self)
        ensures
            interaction == Interaction::Idle,
    {
        Interaction::Idle
    }
}

} // verus!
