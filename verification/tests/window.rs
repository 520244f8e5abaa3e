use cosmic::window::{identifier, set_dialog, DialogCommand, IdentifierSource, Platform, RawWindow};

#[test]
fn wayland_display_uses_the_surface() {
    assert_eq!(
        identifier(Platform::Wayland, true, RawWindow::Xlib(5)),
        IdentifierSource::WaylandSurface
    );
    assert_eq!(
        identifier(Platform::Wayland, true, RawWindow::Other),
        IdentifierSource::WaylandSurface
    );
}

#[test]
fn x11_windows_are_identified_by_their_id() {
    assert_eq!(identifier(Platform::Wayland, false, RawWindow::Xlib(42)), IdentifierSource::Xid(42));
    assert_eq!(identifier(Platform::Wayland, false, RawWindow::Xcb(7)), IdentifierSource::Xid(7));
    assert_eq!(identifier(Platform::X11, true, RawWindow::Xcb(9)), IdentifierSource::Xid(9));
    assert_eq!(
        identifier(Platform::X11, false, RawWindow::Xlib(u64::MAX)),
        IdentifierSource::Xid(u64::MAX)
    );
}

#[test]
fn unsupported_windows_have_no_identifier() {
    assert_eq!(identifier(Platform::Wayland, false, RawWindow::Other), IdentifierSource::Unavailable);
    assert_eq!(identifier(Platform::X11, false, RawWindow::Other), IdentifierSource::Unavailable);
    assert_eq!(identifier(Platform::X11, true, RawWindow::Other), IdentifierSource::Unavailable);
}

#[test]
fn dialog_sets_parent_then_modality_on_wayland() {
    let commands = set_dialog(Platform::Wayland, Some("wayland:abc".to_string()), true);
    assert_eq!(
        commands,
        vec![
            DialogCommand::SetParent(Some("wayland:abc".to_string())),
            DialogCommand::SetModal(true),
        ]
    );
    let commands = set_dialog(Platform::Wayland, None, false);
    assert_eq!(commands, vec![DialogCommand::SetParent(None), DialogCommand::SetModal(false)]);
}

#[test]
fn dialog_does_nothing_without_wayland() {
    assert!(set_dialog(Platform::X11, Some("wayland:abc".to_string()), true).is_empty());
}
