//! A playing session: the model and the room editor, one of them active.

use vstd::prelude::*;

use crate::editor::{after_key, Editor, EditorView};
use crate::keys::Key;
use crate::model::{
    advanced, after_key_pressed, after_key_released, initial_model, Model, ModelView,
};
use crate::room::Room;

verus! {

/// Which part of the game takes the keyboard and the clock.
#[derive(Clone, Copy, Debug, PartialEq, Eq, Structural)]
pub enum Mode {
    Run,
    Edit,
}

/// The abstract value of a [`Game`].
pub struct GameView {
    pub mode: Mode,
    pub model: ModelView,
    pub editor: EditorView,
}

impl GameView {
    pub open spec fn wf(self) -> bool {
        self.model.wf() && self.editor.wf()
    }
}

/// The model with every walk and jump key released.
pub open spec fn keys_released(m: ModelView) -> ModelView {
    ModelView {
        player: after_key_released(
            after_key_released(after_key_released(m.player, Key::Left), Key::Right),
            Key::Up,
        ),
        ..m
    }
}

/// The game after switching modes. Entering the editor releases the walk
/// and jump keys, whose releases the model would otherwise never see;
/// leaving it puts a copy of the edited room into the model.
pub open spec fn switched(g: GameView) -> GameView {
    match g.mode {
        Mode::Run => GameView { mode: Mode::Edit, model: keys_released(g.model), ..g },
        Mode::Edit => GameView {
            mode: Mode::Run,
            model: ModelView { room: g.editor.room, ..g.model },
            ..g
        },
    }
}

/// The game after `key` goes down. The model ignores repeats; the editor
/// takes them.
pub open spec fn after_key_down(g: GameView, key: Key, repeat: bool) -> GameView {
    match g.mode {
        Mode::Run => if repeat {
            g
        } else {
            GameView {
                model: ModelView { player: after_key_pressed(g.model.player, key), ..g.model },
                ..g
            }
        },
        Mode::Edit => GameView { editor: after_key(g.editor, key), ..g },
    }
}

/// The game after `key` goes up: only the model listens.
pub open spec fn after_key_up(g: GameView, key: Key) -> GameView {
    match g.mode {
        Mode::Run => GameView {
            model: ModelView { player: after_key_released(g.model.player, key), ..g.model },
            ..g
        },
        Mode::Edit => g,
    }
}

/// A game: the model runs while in `Run` mode, the editor works on its own
/// copy of the room while in `Edit` mode.
pub struct Game {
    mode: Mode,
    model: Model,
    editor: Editor,
}

impl View for Game {
    type V = GameView;

    closed spec fn view(&self) -> GameView {
        GameView { mode: self.mode, model: self.model@, editor: self.editor@ }
    }
}

impl Game {
    /// A game in `Run` mode, playing and editing `room`.
    pub fn new(room: Room) -> (r: Game)
        requires
            room@.wf(),
        ensures
            r@.mode == Mode::Run,
            r@.model == initial_model(room@),
            r@.editor == (EditorView { room: room@, cursor_x: 0, cursor_y: 0 }),
            r@.wf(),
    {
        let model = Model::new(room.clone());
        let editor = Editor::new(room);
        Game { mode: Mode::Run, model, editor }
    }

    pub fn mode(&self) -> (r: Mode)
        ensures
            r == self@.mode,
    {
        self.mode
    }

    pub fn model(&self) -> (r: &Model)
        ensures
            r@ == self@.model,
    {
        &self.model
    }

    pub fn editor(&self) -> (r: &Editor)
        ensures
            r@ == self@.editor,
    {
        &self.editor
    }

    pub fn switch_mode(&mut self)
        requires
            old(self)@.wf(),
        ensures
            final(self)@ == switched(old(self)@),
            final(self)@.wf(),
    {
        match self.mode {
            Mode::Run => {
                self.model.key_released(Key::Left);
                self.model.key_released(Key::Right);
                self.model.key_released(Key::Up);
                self.mode = Mode::Edit;
            },
            Mode::Edit => {
                self.model.set_room(self.editor.room().clone());
                self.mode = Mode::Run;
            },
        }
    }

    pub fn key_down(&mut self, key: Key, repeat: bool)
        requires
            old(self)@.wf(),
        ensures
            final(self)@ == after_key_down(old(self)@, key, repeat),
            final(self)@.wf(),
    {
        match self.mode {
            Mode::Run => {
                if !repeat {
                    self.model.key_pressed(key);
                }
            },
            Mode::Edit => self.editor.key_pressed(key),
        }
    }

    pub fn key_up(&mut self, key: Key)
        requires
            old(self)@.wf(),
        ensures
            final(self)@ == after_key_up(old(self)@, key),
            final(self)@.wf(),
    {
        match self.mode {
            Mode::Run => self.model.key_released(key),
            Mode::Edit => {},
        }
    }

    /// Lets `time_passed` nanoseconds pass; only a running model notices.
    pub fn update(&mut self, time_passed: u64)
        requires
            old(self)@.wf(),
        ensures
            final(self)@ == (match old(self)@.mode {
                Mode::Run => GameView {
                    model: advanced(old(self)@.model, time_passed as int),
                    ..old(self)@
                },
                Mode::Edit => old(self)@,
            }),
            final(self)@.wf(),
    {
        match self.mode {
            Mode::Run => self.model.update(time_passed),
            Mode::Edit => {},
        }
    }
}

} // verus!
