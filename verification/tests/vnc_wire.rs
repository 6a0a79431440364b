use quickemu_manager::web::vnc_protocol::{PixelFormat, VncEvent, VncProtocolHandler, VncSession};

fn handler() -> VncProtocolHandler {
    VncProtocolHandler::new()
}

#[test]
fn pixel_format_message() {
    let msg = handler().set_pixel_format(&PixelFormat::default());
    assert_eq!(
        msg,
        vec![0, 0, 0, 0, 32, 24, 0, 1, 0, 255, 0, 255, 0, 255, 16, 8, 0, 0, 0, 0]
    );
}

#[test]
fn encodings_message() {
    let msg = handler().set_encodings(&[0, -239, 7]);
    assert_eq!(
        msg,
        vec![2, 0, 0, 3, 0, 0, 0, 0, 0xFF, 0xFF, 0xFF, 0x11, 0, 0, 0, 7]
    );
}

#[test]
fn client_messages() {
    let h = handler();
    assert_eq!(
        h.framebuffer_update_request(true, 1, 258, 800, 600),
        vec![3, 1, 0, 1, 1, 2, 3, 32, 2, 88]
    );
    assert_eq!(h.key_event(true, 0xFF0D), vec![4, 1, 0, 0, 0, 0, 0xFF, 0x0D]);
    assert_eq!(h.pointer_event(1, 10, 20), vec![5, 1, 0, 10, 0, 20]);
    assert_eq!(h.client_cut_text("hé"), vec![6, 0, 0, 0, 0, 0, 0, 3, b'h', 0xC3, 0xA9]);
}

#[test]
fn empty_and_unknown_messages() {
    let mut h = handler();
    assert_eq!(h.handle_server_message(&[]), Ok(vec![]));
    assert_eq!(h.handle_server_message(&[2]), Ok(vec![]));
    assert_eq!(h.handle_server_message(&[1, 0, 0]), Ok(vec![]));
    assert_eq!(h.handle_server_message(&[9]), Ok(vec![]));
}

#[test]
fn framebuffer_update_with_raw_rectangle() {
    let mut h = handler();
    // One 2x1 rectangle at (3, 4), raw encoding, pixels BGRX.
    let msg = vec![0, 0, 0, 1, 0, 3, 0, 4, 0, 2, 0, 1, 0, 0, 0, 0, 10, 20, 30, 0, 40, 50, 60, 0];
    let reply = h.handle_server_message(&msg).unwrap();
    assert_eq!(reply, vec![3, 0, 0, 0, 0, 0, 3, 32, 2, 88]);
    let rects = h.take_pending();
    assert_eq!(rects.len(), 1);
    assert_eq!((rects[0].x, rects[0].y, rects[0].width, rects[0].height), (3, 4, 2, 1));
    assert_eq!(rects[0].rgba, vec![30, 20, 10, 255, 60, 50, 40, 255]);
    assert!(h.take_pending().is_empty());
}

#[test]
fn framebuffer_update_errors() {
    let mut h = handler();
    assert_eq!(h.handle_server_message(&[0, 0, 0]), Err("Framebuffer update too short".to_string()));
    assert_eq!(
        h.handle_server_message(&[0, 0, 0, 1, 0, 0]),
        Err("Rectangle header incomplete".to_string())
    );
    assert_eq!(
        h.handle_server_message(&[0, 0, 0, 1, 0, 0, 0, 0, 0, 1, 0, 1, 0, 0, 0, 5]),
        Err("Unsupported encoding: 5".to_string())
    );
    assert_eq!(
        h.handle_server_message(&[0, 0, 0, 1, 0, 0, 0, 0, 0, 1, 0, 1, 0xFF, 0xFF, 0xFF, 0x11]),
        Err("Unsupported encoding: -239".to_string())
    );
    assert_eq!(
        h.handle_server_message(&[0, 0, 0, 1, 0, 0, 0, 0, 0, 1, 0, 1, 0, 0, 0, 0, 1, 2]),
        Err("Raw rectangle data incomplete".to_string())
    );
    // No rectangles: the whole screen is requested again.
    assert_eq!(h.handle_server_message(&[0, 0, 0, 0]), Ok(vec![3, 0, 0, 0, 0, 0, 3, 32, 2, 88]));
}

#[test]
fn server_cut_text() {
    let mut h = handler();
    assert_eq!(h.handle_server_message(&[3, 0, 0, 0]), Err("Server cut text too short".to_string()));
    assert_eq!(
        h.handle_server_message(&[3, 0, 0, 0, 0, 0, 0, 5, b'a']),
        Err("Server cut text incomplete".to_string())
    );
    assert_eq!(h.handle_server_message(&[3, 0, 0, 0, 0, 0, 0, 1, b'a']), Ok(vec![]));
}

#[test]
fn session_events() {
    let mut s = VncSession::new();
    // Data before the connection opened is ignored.
    assert_eq!(s.on_event(VncEvent::Data(vec![0, 0, 0, 0])), (vec![], true));
    let (sent, go_on) = s.on_event(VncEvent::Connected);
    assert!(go_on);
    assert_eq!(sent.len(), 3);
    assert_eq!(sent[1], vec![2, 0, 0, 1, 0, 0, 0, 0]);
    assert_eq!(sent[2], vec![3, 0, 0, 0, 0, 0, 3, 32, 2, 88]);
    assert_eq!(
        s.on_event(VncEvent::Data(vec![0, 0, 0, 0])),
        (vec![vec![3, 0, 0, 0, 0, 0, 3, 32, 2, 88]], true)
    );
    assert_eq!(s.on_event(VncEvent::Data(vec![0, 0])), (vec![], true));
    assert_eq!(s.on_event(VncEvent::Data(vec![2])), (vec![], true));
    assert_eq!(s.on_event(VncEvent::Error("x".to_string())), (vec![], false));
    assert_eq!(s.on_event(VncEvent::Disconnected), (vec![], false));
    assert!(s.take_pending().is_empty());
}
