use grot::editor::Editor;
use grot::keys::Key;
use grot::room::{Room, TileKind};

#[test]
fn cursor_starts_top_left() {
    let editor = Editor::new(Room::new(3, 2, 16));
    assert_eq!((editor.cursor_x(), editor.cursor_y()), (0, 0));
    assert_eq!(editor.room().width(), 3);
}

#[test]
fn cursor_stays_inside_the_room() {
    let mut editor = Editor::new(Room::new(3, 2, 16));
    editor.key_pressed(Key::Left);
    editor.key_pressed(Key::Up);
    assert_eq!((editor.cursor_x(), editor.cursor_y()), (0, 0));
    for _ in 0..5 {
        editor.key_pressed(Key::Right);
        editor.key_pressed(Key::Down);
    }
    assert_eq!((editor.cursor_x(), editor.cursor_y()), (2, 1));
    editor.key_pressed(Key::Left);
    editor.key_pressed(Key::Up);
    assert_eq!((editor.cursor_x(), editor.cursor_y()), (1, 0));
}

#[test]
fn space_toggles_the_tile_under_the_cursor() {
    let mut editor = Editor::new(Room::new(3, 2, 16));
    editor.key_pressed(Key::Right);
    editor.key_pressed(Key::Space);
    assert_eq!(editor.room().tile_at_index(1, 0).kind, TileKind::Filled);
    editor.key_pressed(Key::Down);
    editor.key_pressed(Key::Space);
    assert_eq!(editor.room().tile_at_index(1, 1).kind, TileKind::Empty);
    editor.key_pressed(Key::Other);
    assert_eq!((editor.cursor_x(), editor.cursor_y()), (1, 1));
    assert_eq!(
        editor.room().tiles(),
        &vec![
            TileKind::Empty,
            TileKind::Filled,
            TileKind::Empty,
            TileKind::Filled,
            TileKind::Empty,
            TileKind::Filled,
        ]
    );
}

#[test]
fn editor_on_a_room_without_tiles() {
    let mut editor = Editor::new(Room::new(0, 2, 16));
    editor.key_pressed(Key::Right);
    editor.key_pressed(Key::Down);
    assert_eq!((editor.cursor_x(), editor.cursor_y()), (0, 1));
    editor.key_pressed(Key::Space);
    assert_eq!((editor.cursor_x(), editor.cursor_y()), (0, 0));
    assert!(editor.room().tiles().is_empty());
}
