//! What the keyboard does to the running game.
//!
//! The game loop hands every window event to [`SimulationLoop::handle_event`]
//! and asks [`SimulationLoop::frame_action`] once per frame. The vehicle reads
//! the held keys through [`Inputs::turn_signal`] and [`Inputs::drive_mode`].

use vstd::prelude::*;

verus! {

/// The keys that the game knows.
#[derive(Clone, Copy, Debug, PartialEq, Eq, Structural)]
pub enum Key {
    W,
    A,
    S,
    D,
    P,
    Escape,
    /// Any other key.
    Other,
}

/// A window event, as far as the game cares.
#[derive(Clone, Copy, Debug, PartialEq, Eq, Structural)]
pub enum Event {
    /// The window was asked to close.
    Closed,
    KeyPressed(Key),
    KeyReleased(Key),
    /// Any other event.
    Other,
}

/// What the driver is asking for: one flag per held key.
#[derive(Clone, Copy, Debug, PartialEq, Eq, Structural)]
pub struct Inputs {
    pub is_moving: bool,
    pub is_reversing: bool,
    pub is_turning_left: bool,
    pub is_turning_right: bool,
}

/// Which thrust the vehicle applies this frame.
#[derive(Clone, Copy, Debug, PartialEq, Eq, Structural)]
pub enum DriveMode {
    /// No thrust.
    Idle,
    /// Full thrust along the heading.
    Forward,
    /// Reverse thrust. It wins over `Forward` when both are asked for.
    Reverse,
}

/// What the game loop does with a frame.
#[derive(Clone, Copy, Debug, PartialEq, Eq, Structural)]
pub enum FrameAction {
    /// Read the clock, advance the vehicle by the elapsed time and draw.
    Advance,
    /// Read the clock and throw the elapsed time away; nothing moves and
    /// nothing is drawn.
    Hold,
}

/// The part of the game loop's state that events change.
#[derive(Clone, Copy, Debug, PartialEq, Eq, Structural)]
pub struct SimulationLoop {
    pub inputs: Inputs,
    pub is_paused: bool,
}

impl Inputs {
    /// The inputs with the flag of `key` set to `down`; a key without a flag
    /// changes nothing.
    pub open spec fn with_key(self, key: Key, down: bool) -> Inputs {
        match key {
            Key::W => Inputs { is_moving: down, ..self },
            Key::A => Inputs { is_turning_left: down, ..self },
            Key::D => Inputs { is_turning_right: down, ..self },
            Key::S => Inputs { is_reversing: down, ..self },
            _ => self,
        }
    }

    /// The steering direction: -1 to the left, +1 to the right, 0 with neither
    /// or both.
    pub open spec fn turn(self) -> int {
        (if self.is_turning_right { 1int } else { 0int })
            - (if self.is_turning_left { 1int } else { 0int })
    }

    /// The thrust that the flags ask for.
    pub open spec fn drive(self) -> DriveMode {
        if self.is_reversing {
            DriveMode::Reverse
        } else if self.is_moving {
            DriveMode::Forward
        } else {
            DriveMode::Idle
        }
    }

    /// The inputs with no key held.
    pub open spec fn released() -> Inputs {
        Inputs {
            is_moving: false,
            is_reversing: false,
            is_turning_left: false,
            is_turning_right: false,
        }
    }

    /// No key held.
    pub fn new() -> (inputs: Inputs)
        ensures
            inputs == Inputs::released(),
    {
        Inputs {
            is_moving: false,
            is_reversing: false,
            is_turning_left: false,
            is_turning_right: false,
        }
    }

    /// Records that `key` went down or up.
    pub fn set_key(&mut self, key: Key, down: bool)
        ensures
            *final(self) == old(self).with_key(key, down),
    {
        match key {
            Key::W => {
                self.is_moving = down;
            },
            Key::A => {
                self.is_turning_left = down;
            },
            Key::D => {
                self.is_turning_right = down;
            },
            Key::S => {
                self.is_reversing = down;
            },
            _ => {},
        }
    }

    /// The steering direction: -1 to the left, +1 to the right, 0 with neither
    /// key or both.
    pub fn turn_signal(&self) -> (t: i8)
        ensures
            t == self.turn(),
            -1 <= t <= 1,
    {
        let mut t: i8 = 0;
        if self.is_turning_left {
            t = t - 1;
        }
        if self.is_turning_right {
            t = t + 1;
        }
        t
    }

    /// The thrust to apply this frame.
    pub fn drive_mode(&self) -> (mode: DriveMode)
        ensures
            mode == self.drive(),
            mode == DriveMode::Idle <==> !self.is_moving && !self.is_reversing,
    {
        if self.is_reversing {
            DriveMode::Reverse
        } else if self.is_moving {
            DriveMode::Forward
        } else {
            DriveMode::Idle
        }
    }
}

impl SimulationLoop {
    /// Whether `event` asks for the window to be closed.
    pub open spec fn closes_window(event: Event) -> bool {
        event == Event::Closed || event == Event::KeyPressed(Key::Escape)
    }

    /// The state after `event`: pressing `P` flips the pause, pressing or
    /// releasing a driving key sets or clears its flag, and nothing else
    /// changes anything.
    pub open spec fn after(self, event: Event) -> SimulationLoop {
        match event {
            Event::KeyPressed(Key::P) => SimulationLoop { is_paused: !self.is_paused, ..self },
            Event::KeyPressed(key) => SimulationLoop {
                inputs: self.inputs.with_key(key, true),
                ..self
            },
            Event::KeyReleased(key) => SimulationLoop {
                inputs: self.inputs.with_key(key, false),
                ..self
            },
            _ => self,
        }
    }

    /// What a frame does in this state.
    pub open spec fn action(self) -> FrameAction {
        if self.is_paused {
            FrameAction::Hold
        } else {
            FrameAction::Advance
        }
    }

    /// A running game with no key held.
    pub fn new() -> (state: SimulationLoop)
        ensures
            state == (SimulationLoop { inputs: Inputs::released(), is_paused: false }),
    {
        SimulationLoop { inputs: Inputs::new(), is_paused: false }
    }

    /// Takes in one window event. Returns whether the window is to be closed.
    pub fn handle_event(&mut self, event: Event) -> (close: bool)
        ensures
            *final(self) == old(self).after(event),
            close == Self::closes_window(event),
    {
        match event {
            Event::Closed => true,
            Event::KeyPressed(key) => {
                match key {
                    Key::Escape => true,
                    Key::P => {
                        self.is_paused = !self.is_paused;
                        false
                    },
                    _ => {
                        self.inputs.set_key(key, true);
                        false
                    },
                }
            },
            Event::KeyReleased(key) => {
                self.inputs.set_key(key, false);
                false
            },
            Event::Other => false,
        }
    }

    /// What to do with the frame that follows the events.
    pub fn frame_action(&self) -> (action: FrameAction)
        ensures
            action == self.action(),
    {
        if self.is_paused {
            FrameAction::Hold
        } else {
            FrameAction::Advance
        }
    }
}

} // verus!
