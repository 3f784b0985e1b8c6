use iced_glutin::cursor::{CursorIcon, Interaction};
use iced_winit::conversion::mouse_interaction;
use iced_winit::mouse;
use iced_winit::winit::window;

#[test]
fn idle_is_the_default() {
    assert_eq!(Interaction::default(), Interaction::Idle);
    assert_eq!(Interaction::default().cursor_icon(), CursorIcon::Default);
}

#[test]
fn icons_are_those_of_the_windowing_toolkit() {
    let table = [
        (Interaction::Idle, mouse::Interaction::Idle, CursorIcon::Default, window::CursorIcon::Default),
        (Interaction::Pointer, mouse::Interaction::Pointer, CursorIcon::Hand, window::CursorIcon::Hand),
        (Interaction::Grab, mouse::Interaction::Grab, CursorIcon::Grab, window::CursorIcon::Grab),
        (Interaction::Text, mouse::Interaction::Text, CursorIcon::Text, window::CursorIcon::Text),
        (
            Interaction::Crosshair,
            mouse::Interaction::Crosshair,
            CursorIcon::Crosshair,
            window::CursorIcon::Crosshair,
        ),
        (
            Interaction::Working,
            mouse::Interaction::Working,
            CursorIcon::Progress,
            window::CursorIcon::Progress,
        ),
        (
            Interaction::Grabbing,
            mouse::Interaction::Grabbing,
            CursorIcon::Grabbing,
            window::CursorIcon::Grabbing,
        ),
        (
            Interaction::ResizingHorizontally,
            mouse::Interaction::ResizingHorizontally,
            CursorIcon::EwResize,
            window::CursorIcon::EwResize,
        ),
        (
            Interaction::ResizingVertically,
            mouse::Interaction::ResizingVertically,
            CursorIcon::NsResize,
            window::CursorIcon::NsResize,
        ),
    ];
    for (interaction, outside, icon, outside_icon) in table {
        assert_eq!(interaction.cursor_icon(), icon);
        assert_eq!(mouse_interaction(outside), outside_icon);
    }
}
