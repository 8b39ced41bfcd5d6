//! What the window keeps of its own state and how it reacts to events. The
//! events come from the windowing layer, which also carries out the reaction;
//! the decisions are made here.

use vstd::prelude::*;

verus! {

/// The width and the height of a new window.
pub const INITIAL_SIZE: u32 = 512;

/// The keys that the window itself reacts to; every other key is `Other`.
#[derive(Clone, Copy, Debug, PartialEq, Eq, Structural)]
pub enum Key {
    Escape,
    F5,
    F11,
    Other,
}

/// The events that the window acts on. Everything else that the windowing
/// layer reports is `Ignored`. A key event has no key where the layer could
/// not tell which key it was.
#[derive(Clone, Copy, Debug, PartialEq, Eq)]
pub enum WindowEvent {
    Quit,
    Close,
    Resized { width: i32, height: i32 },
    KeyDown { key: Option<Key> },
    KeyUp { key: Option<Key> },
    MouseMotion { x: i32, y: i32, xrel: i32, yrel: i32 },
    Ignored,
}

/// What to do to the window itself.
#[derive(Clone, Copy, Debug, PartialEq, Eq, Structural)]
pub enum WindowCommand {
    Maximize,
    Restore,
}

/// A position of the mouse and how far it moved.
#[derive(Clone, Copy, Debug, PartialEq, Eq, Structural)]
pub struct MouseMotion {
    pub x: i32,
    pub y: i32,
    pub xrel: i32,
    pub yrel: i32,
}

/// What is to be done about an event, beyond the change of the window's own
/// state.
#[derive(Clone, Copy, Debug, PartialEq, Eq)]
pub struct Reaction {
    /// What to do to the window, if anything.
    pub window: Option<WindowCommand>,
    /// Whether to switch the capture of the mouse.
    pub toggle_mouse_capture: bool,
    /// Whether the key of the event is now down, for a key event with a key.
    pub key_down: Option<bool>,
    /// Whether a key event came without a key.
    pub unknown_key: bool,
    /// Where the mouse is now, for a mouse event.
    pub mouse: Option<MouseMotion>,
}

/// What the window keeps of its own state.
#[derive(Clone, Copy, Debug, PartialEq, Eq, Structural)]
pub struct WindowState {
    pub quit_received: bool,
    pub visible: bool,
    pub width: u32,
    pub height: u32,
    pub maximized: bool,
}

/// The reaction that asks for nothing.
pub open spec fn no_reaction() -> Reaction {
    Reaction {
        window: None,
        toggle_mouse_capture: false,
        key_down: None,
        unknown_key: false,
        mouse: None,
    }
}

/// A signed size as the unsigned number of the same 32 bits.
pub open spec fn as_unsigned(size: i32) -> u32 {
    if size >= 0 {
        size as u32
    } else {
        (size + 0x1_0000_0000) as u32
    }
}

/// The command that brings the window to the state `maximized`.
pub open spec fn command_for(maximized: bool) -> WindowCommand {
    if maximized {
        WindowCommand::Maximize
    } else {
        WindowCommand::Restore
    }
}

/// The state and the reaction after a key went down or up. Escape asks the
/// window to quit, whichever way it went. F5 going down switches the capture
/// of the mouse, F11 going down switches between maximized and restored.
pub open spec fn after_key(state: WindowState, key: Option<Key>, down: bool) -> (
    WindowState,
    Reaction,
) {
    match key {
        None => (state, Reaction { unknown_key: true, ..no_reaction() }),
        Some(key) => {
            let toggles = key == Key::F11 && down;
            let maximized = if toggles {
                !state.maximized
            } else {
                state.maximized
            };
            (
                WindowState {
                    quit_received: state.quit_received || key == Key::Escape,
                    maximized,
                    ..state
                },
                Reaction {
                    window: if toggles {
                        Some(command_for(maximized))
                    } else {
                        None
                    },
                    toggle_mouse_capture: key == Key::F5 && down,
                    key_down: Some(down),
                    unknown_key: false,
                    mouse: None,
                },
            )
        },
    }
}

/// The state and the reaction after an event.
pub open spec fn after_event(state: WindowState, event: WindowEvent) -> (WindowState, Reaction) {
    match event {
        WindowEvent::Quit | WindowEvent::Close => (
            WindowState { quit_received: true, ..state },
            no_reaction(),
        ),
        WindowEvent::Resized { width, height } => (
            WindowState { width: as_unsigned(width), height: as_unsigned(height), ..state },
            no_reaction(),
        ),
        WindowEvent::KeyDown { key } => after_key(state, key, true),
        WindowEvent::KeyUp { key } => after_key(state, key, false),
        WindowEvent::MouseMotion { x, y, xrel, yrel } => (
            state,
            Reaction { mouse: Some(MouseMotion { x, y, xrel, yrel }), ..no_reaction() },
        ),
        WindowEvent::Ignored => (state, no_reaction()),
    }
}

/// The unsigned number of the same 32 bits.
fn unsigned_of(size: i32) -> (unsigned: u32)
    ensures
        unsigned == as_unsigned(size),
{
    if size >= 0 {
        size as u32
    } else {
        (size as i64 + 0x1_0000_0000) as u32
    }
}

impl WindowState {
    /// The state of a new window: not yet shown, of the initial size.
    pub fn new() -> (state: WindowState)
        ensures
            state == (WindowState {
                quit_received: false,
                visible: false,
                width: INITIAL_SIZE,
                height: INITIAL_SIZE,
                maximized: false,
            }),
    {
        WindowState {
            quit_received: false,
            visible: false,
            width: INITIAL_SIZE,
            height: INITIAL_SIZE,
            maximized: false,
        }
    }

    /// Notes that the window is shown.
    pub fn show(&mut self)
        ensures
            *final(self) == (WindowState { visible: true, ..*old(self) }),
    {
        self.visible = true;
    }

    /// Notes that the window is to quit. It stays so.
    pub fn quit(&mut self)
        ensures
            *final(self) == (WindowState { quit_received: true, ..*old(self) }),
    {
        self.quit_received = true;
    }

    pub fn should_quit(&self) -> (quit: bool)
        ensures
            quit == self.quit_received,
    {
        self.quit_received
    }

    /// Switches between maximized and restored and says which the window is
    /// to become.
    pub fn toggle_maximize(&mut self) -> (command: WindowCommand)
        ensures
            *final(self) == (WindowState { maximized: !old(self).maximized, ..*old(self) }),
            command == command_for(!old(self).maximized),
    {
        self.maximized = !self.maximized;
        if self.maximized {
            WindowCommand::Maximize
        } else {
            WindowCommand::Restore
        }
    }

    /// Takes over the size that the windowing layer reports.
    pub fn update_size(&mut self, width: i32, height: i32)
        ensures
            *final(self) == (WindowState {
                width: as_unsigned(width),
                height: as_unsigned(height),
                ..*old(self)
            }),
    {
        self.width = unsigned_of(width);
        self.height = unsigned_of(height);
    }

    pub fn get_size(&self) -> (size: (u32, u32))
        ensures
            size == (self.width, self.height),
    {
        (self.width, self.height)
    }

    /// Whether the window has an area to present a frame to: one of no
    /// width or no height has none.
    pub fn has_area(&self) -> (area: bool)
        ensures
            area == (self.width > 0 && self.height > 0),
    {
        self.width > 0 && self.height > 0
    }

    pub fn get_width(&self) -> (width: u32)
        ensures
            width == self.width,
    {
        self.width
    }

    pub fn get_height(&self) -> (height: u32)
        ensures
            height == self.height,
    {
        self.height
    }

    /// Reacts to a key that went down or up.
    pub fn handle_key_event(&mut self, key: Option<Key>, down: bool) -> (reaction: Reaction)
        ensures
            (*final(self), reaction) == after_key(*old(self), key, down),
    {
        let key = match key {
            Some(key) => key,
            None => {
                return Reaction {
                    window: None,
                    toggle_mouse_capture: false,
                    key_down: None,
                    unknown_key: true,
                    mouse: None,
                };
            },
        };
        if key == Key::Escape {
            self.quit();
        }
        let toggle_mouse_capture = key == Key::F5 && down;
        let window = if key == Key::F11 && down {
            Some(self.toggle_maximize())
        } else {
            None
        };
        Reaction { window, toggle_mouse_capture, key_down: Some(down), unknown_key: false, mouse: None }
    }

    /// Reacts to an event of the windowing layer.
    pub fn handle_event(&mut self, event: WindowEvent) -> (reaction: Reaction)
        ensures
            (*final(self), reaction) == after_event(*old(self), event),
    {
        let nothing = Reaction {
            window: None,
            toggle_mouse_capture: false,
            key_down: None,
            unknown_key: false,
            mouse: None,
        };
        match event {
            WindowEvent::Quit => {
                self.quit();
                nothing
            },
            WindowEvent::Close => {
                self.quit();
                nothing
            },
            WindowEvent::Resized { width, height } => {
                self.update_size(width, height);
                nothing
            },
            WindowEvent::KeyDown { key } => self.handle_key_event(key, true),
            WindowEvent::KeyUp { key } => self.handle_key_event(key, false),
            WindowEvent::MouseMotion { x, y, xrel, yrel } => Reaction {
                window: None,
                toggle_mouse_capture: false,
                key_down: None,
                unknown_key: false,
                mouse: Some(MouseMotion { x, y, xrel, yrel }),
            },
            WindowEvent::Ignored => nothing,
        }
    }
}

/// A window that was asked to quit stays so, whatever events follow.
pub proof fn lemma_quit_is_kept(state: WindowState, event: WindowEvent)
    requires
        state.quit_received,
    ensures
        after_event(state, event).0.quit_received,
{
}

} // verus!
