use nes::controller::Controller;

#[test]
fn strobe_high_reads_a_repeatedly() {
    let mut pad = Controller::new_controller();
    pad.a(true);
    pad.b(true);
    pad.write(1);
    for _ in 0..20 {
        assert_eq!(pad.read(), 1);
    }
    pad.a(false);
    for _ in 0..5 {
        assert_eq!(pad.read(), 0);
    }
}

#[test]
fn latched_reads_in_order_then_ones() {
    let mut pad = Controller::new_controller();
    pad.a(true);
    pad.start(true);
    pad.left(true);
    pad.write(1);
    pad.write(0);
    let expected = [1, 0, 0, 1, 0, 0, 1, 0];
    for e in expected {
        assert_eq!(pad.read(), e);
    }
    assert_eq!(pad.read(), 1);
    assert_eq!(pad.read(), 1);
}

#[test]
fn every_button_setter() {
    let mut pad = Controller::new_controller();
    pad.select(true);
    pad.up(true);
    pad.down(true);
    pad.right(true);
    pad.write(1);
    pad.write(0);
    let expected = [0, 0, 1, 0, 1, 1, 0, 1];
    for e in expected {
        assert_eq!(pad.read(), e);
    }
}
