//! The room editor: a cursor over the tiles that toggles the tile under it.

use vstd::prelude::*;

use crate::keys::Key;
use crate::room::{Room, RoomView};

verus! {

/// The abstract value of an [`Editor`].
pub struct EditorView {
    pub room: RoomView,
    pub cursor_x: u32,
    pub cursor_y: u32,
}

impl EditorView {
    /// The cursor lies on a tile of the room, or at 0 along a dimension that
    /// has no tiles.
    pub open spec fn wf(self) -> bool {
        &&& self.room.wf()
        &&& self.cursor_x < self.room.width || self.cursor_x == 0
        &&& self.cursor_y < self.room.height || self.cursor_y == 0
    }

    /// The cursor lies on a tile of the room.
    pub open spec fn on_tile(self) -> bool {
        self.cursor_x < self.room.width && self.cursor_y < self.room.height
    }
}

/// The furthest cursor position along a dimension of `n` tiles.
pub open spec fn last_index(n: u32) -> u32 {
    if n > 0 {
        (n - 1) as u32
    } else {
        0
    }
}

/// The editor after `key` is pressed: arrows move the cursor within the
/// room, space toggles the tile under it. In a room without tiles there is
/// no tile to toggle, and the cursor goes back to the origin.
pub open spec fn after_key(e: EditorView, key: Key) -> EditorView {
    match key {
        Key::Left => EditorView {
            cursor_x: if e.cursor_x > 0 {
                (e.cursor_x - 1) as u32
            } else {
                0
            },
            ..e
        },
        Key::Right => EditorView {
            cursor_x: if e.cursor_x + 1 < last_index(e.room.width) {
                (e.cursor_x + 1) as u32
            } else {
                last_index(e.room.width)
            },
            ..e
        },
        Key::Up => EditorView {
            cursor_y: if e.cursor_y > 0 {
                (e.cursor_y - 1) as u32
            } else {
                0
            },
            ..e
        },
        Key::Down => EditorView {
            cursor_y: if e.cursor_y + 1 < last_index(e.room.height) {
                (e.cursor_y + 1) as u32
            } else {
                last_index(e.room.height)
            },
            ..e
        },
        Key::Space => if e.on_tile() {
            EditorView {
                room: RoomView {
                    tiles: e.room.tiles.update(
                        e.cursor_y * e.room.width + e.cursor_x,
                        e.room.kind_at(e.cursor_x as int, e.cursor_y as int).flipped(),
                    ),
                    ..e.room
                },
                ..e
            }
        } else {
            EditorView { cursor_x: 0, cursor_y: 0, ..e }
        },
        Key::Other => e,
    }
}

pub struct Editor {
    room: Room,
    cursor_x: u32,
    cursor_y: u32,
}

impl View for Editor {
    type V = EditorView;

    closed spec fn view(&self) -> EditorView {
        EditorView { room: self.room@, cursor_x: self.cursor_x, cursor_y: self.cursor_y }
    }
}

impl Editor {
    /// An editor on `room` with the cursor on the top left tile.
    pub fn new(room: Room) -> (r: Editor)
        requires
            room@.wf(),
        ensures
            r@ == (EditorView { room: room@, cursor_x: 0, cursor_y: 0 }),
            r@.wf(),
    {
        Editor { room, cursor_x: 0, cursor_y: 0 }
    }

    pub fn room(&self) -> (r: &Room)
        ensures
            r@ == self@.room,
    {
        &self.room
    }

    pub fn cursor_x(&self) -> (r: u32)
        ensures
            r == self@.cursor_x,
    {
        self.cursor_x
    }

    pub fn cursor_y(&self) -> (r: u32)
        ensures
            r == self@.cursor_y,
    {
        self.cursor_y
    }

    pub fn key_pressed(&mut self, key: Key)
        requires
            old(self)@.wf(),
        ensures
            final(self)@ == after_key(old(self)@, key),
            final(self)@.wf(),
    {
        match key {
            Key::Left => self.cursor_x = self.cursor_x.saturating_sub(1),
            Key::Right => {
                let next: u32 = self.cursor_x + 1;
                let width: u32 = self.room.width();
                let last: u32 = if width > 0 {
                    width - 1
                } else {
                    0
                };
                self.cursor_x = if next < last {
                    next
                } else {
                    last
                };
            },
            Key::Up => self.cursor_y = self.cursor_y.saturating_sub(1),
            Key::Down => {
                let next: u32 = self.cursor_y + 1;
                let height: u32 = self.room.height();
                let last: u32 = if height > 0 {
                    height - 1
                } else {
                    0
                };
                self.cursor_y = if next < last {
                    next
                } else {
                    last
                };
            },
            Key::Space => {
                match self.room.toggle_tile_at_index(self.cursor_x, self.cursor_y) {
                    Ok(()) => {},
                    Err(_) => {
                        // No tile under the cursor: put it back at the origin.
                        self.cursor_x = 0;
                        self.cursor_y = 0;
                    },
                }
            },
            Key::Other => {},
        }
    }
}

} // verus!
