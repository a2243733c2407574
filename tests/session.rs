use sway_tabs::error::IpcError;
use sway_tabs::model::{Border, Layout, NodeType, Orientation, Rectangle, Tree};
use sway_tabs::session::{
    activation_request, candidates, focus_command, socket_path, Exec, GetTree, SendPtr, WidgetQueue,
    GET_TREE, RUN_COMMAND,
};
use sway_tabs::text::decimal_text;
use sway_tabs::wire::{decode_frame, ByteOrder};

fn leaf(id: u64, name: Option<&str>) -> Tree {
    let r = Rectangle { x: 1, y: 2, width: 3, height: 4 };
    Tree {
        id,
        name: name.map(|n| n.to_string()),
        type_: NodeType::Container,
        border: Border::Pixel,
        current_border_width: 0,
        layout: Layout::NoLayout,
        orientation: Orientation::Horizontal,
        rect: r,
        window_rect: r,
        deco_rect: r,
        geometry: r,
        urgent: false,
        sticky: false,
        marks: Vec::new(),
        focused: false,
        focus: Vec::new(),
        nodes: Vec::new(),
        floating_nodes: Vec::new(),
        representation: None,
        fullscreen_mode: None,
        app_id: Some("foot".to_string()),
        pid: Some(42),
        visible: Some(true),
        shell: None,
        inhibit_idle: None,
        idle_inhibitors: None,
        window: None,
    }
}

#[test]
fn named_siblings_become_candidates() {
    let s = vec![leaf(10, Some("one")), leaf(7, None), leaf(123456, Some("three"))];
    let c = candidates(&s);
    assert_eq!(c.len(), 2);
    assert_eq!(c[0].label, "one");
    assert_eq!(c[0].action, "10");
    assert_eq!(c[1].label, "three");
    assert_eq!(c[1].action, "123456");
}

#[test]
fn no_siblings_no_candidates() {
    assert!(candidates(&Vec::new()).is_empty());
    assert!(candidates(&vec![leaf(1, None)]).is_empty());
}

#[test]
fn decimal_text_values() {
    assert_eq!(decimal_text(0), "0");
    assert_eq!(decimal_text(9), "9");
    assert_eq!(decimal_text(10), "10");
    assert_eq!(decimal_text(u64::MAX), "18446744073709551615");
}

#[test]
fn focus_command_text() {
    assert_eq!(focus_command("17"), "[con_id=17] focus");
}

#[test]
fn activation_request_frame() {
    let f = activation_request("17", ByteOrder::Little).unwrap();
    let d = decode_frame(&f, ByteOrder::Little).unwrap();
    assert_eq!(d.payload_type, RUN_COMMAND);
    assert_eq!(d.payload, b"[con_id=17] focus".to_vec());
}

#[test]
fn get_tree_request_frame() {
    let g = GetTree();
    assert_eq!(g.payload_type(), GET_TREE);
    assert!(g.payload().is_empty());
    let d = decode_frame(&g.request(ByteOrder::Big), ByteOrder::Big).unwrap();
    assert_eq!(d.payload_type, 4);
    assert!(d.payload.is_empty());
}

#[test]
fn exec_message_payload() {
    let e = Exec::new("nop".to_string());
    assert_eq!(e.payload_type(), 0);
    assert_eq!(e.payload(), b"nop");
}

#[test]
fn second_populate_is_refused() {
    let mut q: WidgetQueue<u32> = WidgetQueue::new();
    assert_eq!(q.begin_populate(), Ok(()));
    q.push(5);
    assert_eq!(q.begin_populate(), Err(IpcError::AlreadyPopulated));
    assert_eq!(q.pop(), Some(5));
}

#[test]
fn queue_hands_out_last_first() {
    let mut q: WidgetQueue<u32> = WidgetQueue::new();
    q.push(1);
    q.push(2);
    assert_eq!(q.pop(), Some(2));
    assert_eq!(q.pop(), Some(1));
    assert_eq!(q.pop(), None);
}

#[test]
fn send_ptr_keeps_handle() {
    let p = SendPtr::new(77u8);
    assert_eq!(p.get(), 77);
}

#[test]
fn socket_path_prefers_primary() {
    let p = socket_path(Some(b"/run/a".to_vec()), Some(b"/run/b".to_vec()));
    assert_eq!(p, Ok(b"/run/a".to_vec()));
}

#[test]
fn socket_path_skips_empty_primary() {
    assert_eq!(socket_path(Some(Vec::new()), Some(b"/run/b".to_vec())), Ok(b"/run/b".to_vec()));
    assert_eq!(socket_path(None, Some(b"/run/b".to_vec())), Ok(b"/run/b".to_vec()));
}

#[test]
fn socket_path_missing() {
    assert_eq!(socket_path(None, None), Err(IpcError::SocketNotFound));
    assert_eq!(socket_path(Some(Vec::new()), Some(Vec::new())), Err(IpcError::SocketNotFound));
}
