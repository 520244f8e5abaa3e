//! Window helpers: how a window is identified to a portal dialog, and which
//! requests make a window a modal child of another.

use vstd::prelude::*;

verus! {

/// The windowing platform the program was built for.
#[derive(Clone, Copy, Debug, PartialEq, Eq, Structural)]
pub enum Platform {
    /// Built with Wayland support; X11 windows are still recognised.
    Wayland,
    /// Built without Wayland support.
    X11,
}

/// The raw handle of a window, as far as identifying it needs.
#[derive(Clone, Copy, Debug, PartialEq, Eq, Structural)]
pub enum RawWindow {
    /// An Xlib window.
    Xlib(u64),
    /// An XCB window.
    Xcb(u32),
    /// Any other kind of window, or no handle at all.
    Other,
}

/// How the identifier of a window is obtained.
#[derive(Clone, Copy, Debug, PartialEq, Eq, Structural)]
pub enum IdentifierSource {
    /// Exported from the window's Wayland surface.
    WaylandSurface,
    /// Made from the X11 window id.
    Xid(u64),
    /// The window cannot be identified; the answer is `None`.
    Unavailable,
}

/// The X11 window id of a raw window, if it is an X11 window.
pub open spec fn xid_of(window: RawWindow) -> Option<u64> {
    match window {
        RawWindow::Xlib(id) => Some(id),
        RawWindow::Xcb(id) => Some(id as u64),
        RawWindow::Other => None,
    }
}

/// An X11 window's id is the whole id of its handle, widened without loss,
/// whatever the handle's kind; other windows have none.
pub proof fn lemma_xid_is_the_whole_window_id(window: RawWindow)
    ensures
        window matches RawWindow::Xlib(id) ==> xid_of(window) == Some(id),
        window matches RawWindow::Xcb(id) ==> xid_of(window) == Some(id as u64) && id as u64 as int
            == id as int,
        window is Other ==> xid_of(window) is None,
{
}

/// Decides how the identifier of a window is obtained, which can then be
/// passed to a portal dialog (e.g. the file chooser) so that the dialog is
/// shown as a child of the window. `display_is_wayland` tells whether the
/// window's display is a Wayland display.
pub fn identifier(platform: Platform, display_is_wayland: bool, window: RawWindow) -> (s:
    IdentifierSource)
    ensures
        platform == Platform::Wayland && display_is_wayland ==> s == IdentifierSource::WaylandSurface,
        !(platform == Platform::Wayland && display_is_wayland) ==> s == match xid_of(window) {
            Some(xid) => IdentifierSource::Xid(xid),
            None => IdentifierSource::Unavailable,
        },
        // an X11 window is identified by its whole id
        !(platform == Platform::Wayland && display_is_wayland) ==> match window {
            RawWindow::Xlib(id) => s == IdentifierSource::Xid(id),
            RawWindow::Xcb(id) => s == IdentifierSource::Xid(id as u64),
            RawWindow::Other => s == IdentifierSource::Unavailable,
        },
{
    proof {
        lemma_xid_is_the_whole_window_id(window);
    }
    if platform == Platform::Wayland && display_is_wayland {
        return IdentifierSource::WaylandSurface;
    }
    let xid = match window {
        RawWindow::Xlib(id) => Some(id),
        RawWindow::Xcb(id) => Some(id as u64),
        RawWindow::Other => None,
    };
    match xid {
        Some(xid) => IdentifierSource::Xid(xid),
        None => IdentifierSource::Unavailable,
    }
}

/// A request to the compositor about a dialog window.
#[derive(Debug, PartialEq, Eq)]
pub enum DialogCommand {
    /// Import the given xdg-foreign handle (e.g. `wayland:<handle>`) as the
    /// window's parent, or drop the parent.
    SetParent(Option<String>),
    /// Mark the window as a modal dialog, or not.
    SetModal(bool),
}

/// The requests that import `parent` as the parent of a window and mark it
/// as a modal dialog. The window becomes modal once it is created. Without
/// Wayland dialog support there is nothing to request.
pub fn set_dialog(platform: Platform, parent: Option<String>, modal: bool) -> (commands: Vec<
    DialogCommand,
>)
    ensures
        platform == Platform::Wayland ==> commands@ == seq![
            DialogCommand::SetParent(parent),
            DialogCommand::SetModal(modal),
        ],
        platform == Platform::X11 ==> commands@.len() == 0,
{
    let mut commands = Vec::new();
    if platform == Platform::Wayland {
        commands.push(DialogCommand::SetParent(parent));
        commands.push(DialogCommand::SetModal(modal));
    }
    commands
}

} // verus!
