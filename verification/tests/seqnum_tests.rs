use tcp_engine::is_between_wrapped;
use tcp_engine::tcp::{ack_acceptable, segment_acceptable, RecvSequenceSpace, SendSequenceSpace};

#[test]
fn between_wrapped_non_wrapping() {
    assert!(is_between_wrapped(5, 10, 20));
    assert!(!is_between_wrapped(5, 3, 20));
    // both endpoints are excluded
    assert!(!is_between_wrapped(5, 5, 20));
    assert!(!is_between_wrapped(5, 20, 20));
    // end already walked past
    assert!(!is_between_wrapped(5, 10, 7));
}

#[test]
fn between_wrapped_wrapping() {
    // start near the 32-bit ceiling, x wrapped past zero, end ahead of x
    assert!(is_between_wrapped(4294967290, 2, 10));
    // x wrapped but end behind it
    assert!(!is_between_wrapped(4294967290, 12, 10));
    // end on the far side of the wrap
    assert!(!is_between_wrapped(4294967290, 2, 4294967295));
}

#[test]
fn ack_acceptability() {
    let send = SendSequenceSpace {
        una: 100,
        nxt: 200,
        wnd: 10,
        up: false,
        wl1: 0,
        wl2: 0,
        iss: 0,
    };
    // strictly above una, at most nxt
    assert!(ack_acceptable(&send, 150));
    assert!(ack_acceptable(&send, 101));
    assert!(ack_acceptable(&send, 200));
    // not strictly greater than una
    assert!(!ack_acceptable(&send, 100));
    // beyond nxt: acknowledges data never sent
    assert!(!ack_acceptable(&send, 201));
}

#[test]
fn zero_window_probe() {
    let recv = RecvSequenceSpace { nxt: 500, wnd: 0, up: false, irs: 0 };
    // a zero-length probe at exactly the expected boundary is accepted
    assert!(segment_acceptable(&recv, 500, 0, false, false));
    assert!(!segment_acceptable(&recv, 501, 0, false, false));
    // data never fits a zero window
    assert!(!segment_acceptable(&recv, 500, 1, false, false));
}

#[test]
fn window_acceptability_in_window() {
    let recv = RecvSequenceSpace { nxt: 500, wnd: 100, up: false, irs: 0 };
    // zero-length segment inside [nxt, nxt + wnd)
    assert!(segment_acceptable(&recv, 500, 0, false, false));
    assert!(segment_acceptable(&recv, 599, 0, false, false));
    assert!(!segment_acceptable(&recv, 600, 0, false, false));
    assert!(!segment_acceptable(&recv, 499, 0, false, false));
    // data starting in window
    assert!(segment_acceptable(&recv, 550, 10, false, false));
    // data starting before the window but ending inside it
    assert!(segment_acceptable(&recv, 480, 30, false, false));
    // data entirely behind the window
    assert!(!segment_acceptable(&recv, 400, 10, false, false));
}

#[test]
fn window_acceptability_wraps() {
    // receive window straddles the 32-bit wrap
    let recv = RecvSequenceSpace { nxt: 4294967290, wnd: 100, up: false, irs: 0 };
    assert!(segment_acceptable(&recv, 5, 3, false, false));
    assert!(segment_acceptable(&recv, 4294967290, 0, false, false));
    assert!(!segment_acceptable(&recv, 100, 3, false, false));
}

#[test]
fn syn_occupies_sequence_space() {
    let recv = RecvSequenceSpace { nxt: 500, wnd: 0, up: false, irs: 0 };
    // a payload-less SYN has segment length one and never fits a zero window
    assert!(!segment_acceptable(&recv, 500, 0, true, false));
    let open = RecvSequenceSpace { nxt: 500, wnd: 100, up: false, irs: 0 };
    assert!(segment_acceptable(&open, 599, 0, true, false));
    assert!(segment_acceptable(&open, 599, 0, false, true));
}
