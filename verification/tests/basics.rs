use usb_report::arith::multiply_int;
use usb_report::descriptors::Speed;
use usb_report::echo::echo_line;
use usb_report::echo::echo_reply;
use usb_report::speed::get_speed;

#[test]
fn speed_named_values() {
    assert_eq!(get_speed(Speed::SuperPlus), "10000 Mbps");
    assert_eq!(get_speed(Speed::Super), "5000 Mbps");
    assert_eq!(get_speed(Speed::High), " 480 Mbps");
    assert_eq!(get_speed(Speed::Full), "  12 Mbps");
    assert_eq!(get_speed(Speed::Low), " 1.5 Mbps");
}

#[test]
fn speed_outside_table() {
    assert_eq!(get_speed(Speed::Unknown), "(unknown)");
}

#[test]
fn multiply_int_plain() {
    assert_eq!(multiply_int(6, 7), 42);
    assert_eq!(multiply_int(-3, 5), -15);
}

#[test]
fn multiply_int_wraps() {
    assert_eq!(multiply_int(i64::MAX, 2), -2);
    assert_eq!(multiply_int(i64::MIN, -1), i64::MIN);
}

#[test]
fn multiply_int_zero() {
    assert_eq!(multiply_int(0, i64::MAX), 0);
    assert_eq!(multiply_int(0, i64::MIN), 0);
    assert_eq!(multiply_int(0, -12345), 0);
}

#[test]
fn echo_reply_is_fixed() {
    assert_eq!(echo_reply(), "This is what I got in return");
}

#[test]
fn echo_line_prefixes_input() {
    assert_eq!(echo_line("hello"), "my my hello");
    assert_eq!(echo_line(""), "my my ");
}
