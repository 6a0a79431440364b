use quickemu_manager::web::keymap::{map_keycode_to_spice, map_mouse_button, KeyCode, MouseButton};
use quickemu_manager::web::surface::{surface_rgba, SPICE_BITMAP_FMT_16BIT, SPICE_BITMAP_FMT_24BIT, SPICE_BITMAP_FMT_32BIT};

#[test]
fn keycodes() {
    assert_eq!(map_keycode_to_spice(65), Some(KeyCode::Char('A')));
    assert_eq!(map_keycode_to_spice(90), Some(KeyCode::Char('Z')));
    assert_eq!(map_keycode_to_spice(48), Some(KeyCode::Char('0')));
    assert_eq!(map_keycode_to_spice(57), Some(KeyCode::Char('9')));
    assert_eq!(map_keycode_to_spice(8), Some(KeyCode::Backspace));
    assert_eq!(map_keycode_to_spice(13), Some(KeyCode::Enter));
    assert_eq!(map_keycode_to_spice(27), Some(KeyCode::Escape));
    assert_eq!(map_keycode_to_spice(32), Some(KeyCode::Space));
    assert_eq!(map_keycode_to_spice(37), Some(KeyCode::ArrowLeft));
    assert_eq!(map_keycode_to_spice(40), Some(KeyCode::ArrowDown));
    assert_eq!(map_keycode_to_spice(112), Some(KeyCode::Function(1)));
    assert_eq!(map_keycode_to_spice(123), Some(KeyCode::Function(12)));
    assert_eq!(map_keycode_to_spice(124), None);
    assert_eq!(map_keycode_to_spice(97), None);
    assert_eq!(map_keycode_to_spice(0), None);
}

#[test]
fn mouse_buttons() {
    assert_eq!(map_mouse_button(1), Some(MouseButton::Left));
    assert_eq!(map_mouse_button(2), Some(MouseButton::Middle));
    assert_eq!(map_mouse_button(3), Some(MouseButton::Right));
    assert_eq!(map_mouse_button(4), None);
}

#[test]
fn surface_formats() {
    assert_eq!(surface_rgba(SPICE_BITMAP_FMT_32BIT, &[1, 2, 3, 4]), Some(vec![1, 2, 3, 4]));
    assert_eq!(
        surface_rgba(SPICE_BITMAP_FMT_24BIT, &[1, 2, 3, 4, 5, 6, 7]),
        Some(vec![3, 2, 1, 255, 6, 5, 4, 255])
    );
    // 0xF800 is pure red, 0x07E0 pure green, 0x001F pure blue.
    assert_eq!(
        surface_rgba(SPICE_BITMAP_FMT_16BIT, &[0x00, 0xF8, 0xE0, 0x07, 0x1F, 0x00, 0xAA]),
        Some(vec![248, 0, 0, 255, 0, 252, 0, 255, 0, 0, 248, 255])
    );
    assert_eq!(surface_rgba(1, &[1, 2]), None);
}
