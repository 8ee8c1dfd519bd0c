//! Keyboard commands and their application to the navigation state.
//!
//! [`interpret`] maps a key to a [`Command`]; a [`Viewer`] holds the engine
//! together with the selection at the current depth and applies one command
//! at a time. Invalid requests are absorbed as no-ops: no command ever
//! fails.

use crate::zipper::{spec_move, JsonPath};
use vstd::prelude::*;

verus! {

/// What one key press asks for.
#[derive(Clone, Copy, Debug, PartialEq, Eq, Structural)]
pub enum Command {
    Quit,
    MoveDown,
    MoveUp,
    Descend,
    Ascend,
    Ignore,
}

/// A key press, reduced to what the bindings distinguish.
#[derive(Clone, Copy, Debug, PartialEq, Eq, Structural)]
pub enum KeyInput {
    Esc,
    Char(char),
    Other,
}

/// The fixed key bindings: `q` and Escape quit, `j`/`k` move the selection,
/// `l` descends, `h` ascends; every other key is ignored.
pub open spec fn spec_command_of(k: KeyInput) -> Command {
    match k {
        KeyInput::Esc => Command::Quit,
        KeyInput::Char(c) => if c == 'q' {
            Command::Quit
        } else if c == 'j' {
            Command::MoveDown
        } else if c == 'k' {
            Command::MoveUp
        } else if c == 'l' {
            Command::Descend
        } else if c == 'h' {
            Command::Ascend
        } else {
            Command::Ignore
        },
        KeyInput::Other => Command::Ignore,
    }
}

/// Maps a key press to the command it is bound to.
pub fn interpret(k: KeyInput) -> (c: Command)
    ensures
        c == spec_command_of(k),
{
    match k {
        KeyInput::Esc => Command::Quit,
        KeyInput::Char(c) => {
            if c == 'q' {
                Command::Quit
            } else if c == 'j' {
                Command::MoveDown
            } else if c == 'k' {
                Command::MoveUp
            } else if c == 'l' {
                Command::Descend
            } else if c == 'h' {
                Command::Ascend
            } else {
                Command::Ignore
            }
        },
        KeyInput::Other => Command::Ignore,
    }
}

/// The navigation state one command steps: the engine plus the selection at
/// the current depth.
pub struct Viewer {
    pub engine: JsonPath,
    pub pos: usize,
}

impl Viewer {
    /// The engine is well formed and the selection is within the current
    /// node's children (or 0 when it has none).
    pub open spec fn wf(self) -> bool {
        &&& self.engine.wf()
        &&& if self.engine.cur_node().spec_child_count() > 0 {
            (self.pos as int) < self.engine.cur_node().spec_child_count()
        } else {
            self.pos == 0
        }
    }

    /// How one command relates the state before (`pre`) and after (`post`),
    /// and whether it asks to quit. Movement clamps, descending uses the
    /// current selection and resets it, ascending restores the selection
    /// that was active before the matching descend.
    pub open spec fn apply_rel(pre: Viewer, post: Viewer, cmd: Command, quit: bool) -> bool {
        match cmd {
            Command::Quit => quit && post == pre,
            Command::Ignore => !quit && post == pre,
            Command::MoveDown => !quit && post.engine == pre.engine && post.pos as int
                == spec_move(pre.engine.cur_node().spec_child_count(), pre.pos as int, 1),
            Command::MoveUp => !quit && post.engine == pre.engine && post.pos as int
                == spec_move(pre.engine.cur_node().spec_child_count(), pre.pos as int, -1),
            Command::Descend => !quit && JsonPath::descend_rel(
                pre.engine,
                post.engine,
                pre.pos,
                (pre.pos as int) < pre.engine.cur_node().spec_child_count(),
            ) && post.pos == (if (pre.pos as int) < pre.engine.cur_node().spec_child_count() {
                0usize
            } else {
                pre.pos
            }),
            Command::Ascend => !quit && JsonPath::ascend_rel(
                pre.engine,
                post.engine,
                if pre.engine.path@.len() > 0 {
                    Some(pre.engine.path@.last().sel)
                } else {
                    None
                },
            ) && post.pos == (if pre.engine.path@.len() > 0 {
                pre.engine.path@.last().sel.spec_index()
            } else {
                pre.pos
            }),
        }
    }

    /// A viewer at the root of the engine's document, with selection 0.
    pub fn new(engine: JsonPath) -> (v: Viewer)
        requires
            engine.wf(),
        ensures
            v.wf(),
            v.engine == engine,
            v.pos == 0,
    {
        Viewer { engine, pos: 0 }
    }

    /// The selection at the current depth.
    pub fn selection(&self) -> (p: usize)
        ensures
            p == self.pos,
    {
        self.pos
    }

    /// Applies one command; returns whether it asks to quit. Total: every
    /// command yields a well-formed state, invalid requests change nothing.
    pub fn apply(&mut self, cmd: Command) -> (quit: bool)
        requires
            old(self).wf(),
        ensures
            final(self).wf(),
            Viewer::apply_rel(*old(self), *final(self), cmd, quit),
    {
        match cmd {
            Command::Quit => true,
            Command::Ignore => false,
            Command::MoveDown => {
                self.pos = self.engine.move_selection(self.pos, 1);
                false
            },
            Command::MoveUp => {
                self.pos = self.engine.move_selection(self.pos, -1);
                false
            },
            Command::Descend => {
                if self.engine.descend(self.pos) {
                    self.pos = 0;
                }
                false
            },
            Command::Ascend => {
                let ghost pre = *self;
                match self.engine.ascend() {
                    Some(sel) => {
                        proof {
                            assert(pre.engine.frame_wf(pre.engine.path@.len() - 1));
                        }
                        self.pos = sel.index();
                    },
                    None => {},
                }
                false
            },
        }
    }
}

} // verus!
