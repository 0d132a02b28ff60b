use xiuxian::text::{first_line_of, format_clock, format_delta, push_i32_signed, push_u64_decimal};

#[test]
fn deltas_carry_their_sign() {
    assert_eq!(format_delta(0), "+0");
    assert_eq!(format_delta(7), "+7");
    assert_eq!(format_delta(105), "+105");
    assert_eq!(format_delta(-1), "-1");
    assert_eq!(format_delta(-38), "-38");
    assert_eq!(format_delta(i32::MIN), "-2147483648");
    assert_eq!(format_delta(i32::MAX), "+2147483647");
}

#[test]
fn decimal_rendering_is_plain() {
    let mut s = String::new();
    push_u64_decimal(&mut s, 0);
    assert_eq!(s, "0");
    let mut s = String::new();
    push_u64_decimal(&mut s, 9041);
    assert_eq!(s, "9041");
    let mut s = String::from("天数: ");
    push_u64_decimal(&mut s, 100);
    assert_eq!(s, "天数: 100");
    let mut s = String::new();
    push_i32_signed(&mut s, -42);
    assert_eq!(s, "-42");
}

#[test]
fn clock_reads_h_mm_ss() {
    assert_eq!(format_clock(0), "0:00:00");
    assert_eq!(format_clock(59), "0:00:59");
    assert_eq!(format_clock(60), "0:01:00");
    assert_eq!(format_clock(3725), "1:02:05");
    assert_eq!(format_clock(7322), "2:02:02");
    assert_eq!(format_clock(36_0000), "100:00:00");
}

#[test]
fn first_line_stops_at_the_break() {
    assert_eq!(first_line_of(&"调试到崩溃\n用日志淹没服务器".to_string()), "调试到崩溃");
    assert_eq!(first_line_of(&"单行".to_string()), "单行");
    assert_eq!(first_line_of(&String::new()), "");
    assert_eq!(first_line_of(&"\n开头就断".to_string()), "");
}
