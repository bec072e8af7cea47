use uniprint::driver::datamax::{
    expansion, feed_speed, scale_size, Datamax, FeedSpeed, Rotate, ScaleSize, TextScale, TextSys,
};

fn encoded(f: impl FnOnce(&mut Datamax)) -> Vec<u8> {
    let mut d = Datamax::new();
    f(&mut d);
    d.take_output()
}

#[test]
fn expansion_digits_for_one_to_nine() {
    for v in 1u8..=9 {
        assert_eq!(expansion(v), b'0' + v);
    }
    assert_eq!(expansion(1), b'1');
    assert_eq!(expansion(9), b'9');
}

#[test]
fn expansion_letters_for_ten_to_twenty_four() {
    for v in 10u8..=24 {
        assert_eq!(expansion(v), b'@' + v);
    }
    assert_eq!(expansion(10), b'J');
    assert_eq!(expansion(24), b'X');
}

#[test]
fn expansion_falls_back_to_one() {
    assert_eq!(expansion(0), b'1');
    assert_eq!(expansion(25), b'1');
    assert_eq!(expansion(255), b'1');
}

#[test]
fn copies_twelve() {
    assert_eq!(encoded(|d| d.copies(12)), b"Q0012\r".to_vec());
}

#[test]
fn copies_edges() {
    assert_eq!(encoded(|d| d.copies(0)), b"Q0000\r".to_vec());
    assert_eq!(encoded(|d| d.copies(9999)), b"Q9999\r".to_vec());
    assert_eq!(encoded(|d| d.copies(65535)), b"Q65535\r".to_vec());
}

#[test]
fn print_density_five() {
    assert_eq!(encoded(|d| d.print_density(5)), b"H05\r".to_vec());
    assert_eq!(encoded(|d| d.print_density(30)), b"H30\r".to_vec());
}

#[test]
fn printable_speed_101mm() {
    assert_eq!(encoded(|d| d.printable_speed(FeedSpeed::Speed101mm)), b"P4\r".to_vec());
}

#[test]
fn other_speeds() {
    assert_eq!(encoded(|d| d.unprintable_speed(FeedSpeed::Speed50mm)), b"S1\r".to_vec());
    assert_eq!(encoded(|d| d.backfeed_speed(FeedSpeed::Speed304mm)), b"pc\r".to_vec());
}

#[test]
fn feed_speed_table() {
    let all = [
        FeedSpeed::Speed50mm,
        FeedSpeed::Speed76mm,
        FeedSpeed::Speed101mm,
        FeedSpeed::Speed127mm,
        FeedSpeed::Speed152mm,
        FeedSpeed::Speed177mm,
        FeedSpeed::Speed203mm,
        FeedSpeed::Speed228mm,
        FeedSpeed::Speed254mm,
        FeedSpeed::Speed279mm,
        FeedSpeed::Speed304mm,
    ];
    let codes: Vec<u8> = all.iter().map(|s| feed_speed(*s)).collect();
    assert_eq!(codes, b"13456789abc".to_vec());
}

#[test]
fn scale_size_table() {
    let all = [
        ScaleSize::S4,
        ScaleSize::S6,
        ScaleSize::S8,
        ScaleSize::S10,
        ScaleSize::S12,
        ScaleSize::S14,
        ScaleSize::S18,
        ScaleSize::S24,
        ScaleSize::S30,
        ScaleSize::S36,
        ScaleSize::S48,
        ScaleSize::S72,
    ];
    let points: Vec<u8> = all.iter().map(|s| scale_size(*s)).collect();
    assert_eq!(points, vec![4, 6, 8, 10, 12, 14, 18, 24, 30, 36, 48, 72]);
}

#[test]
fn settings_commands() {
    assert_eq!(encoded(|d| d.pixel_size(1, 3)), b"D13\r".to_vec());
    assert_eq!(encoded(|d| d.spacing(7)), b"\x1bP07\r".to_vec());
    assert_eq!(encoded(|d| d.reverse()), b"A5\r".to_vec());
    assert_eq!(encoded(|d| d.normal()), b"A3\r".to_vec());
    assert_eq!(encoded(|d| d.offset_x(25)), b"C0025\r".to_vec());
    assert_eq!(encoded(|d| d.start_label()), b"\x02L\r".to_vec());
    assert_eq!(encoded(|d| d.end_label()), b"E\r".to_vec());
}

#[test]
fn metric_switches_mode() {
    let mut d = Datamax::new();
    assert!(!d.is_metric());
    d.metric();
    assert!(d.is_metric());
    assert_eq!(d.take_output(), b"m\r".to_vec());
    assert!(d.is_metric());
    assert!(d.output().is_empty());
}

#[test]
fn label_with_system_text() {
    let mut d = Datamax::new();
    d.start_label();
    d.text_sys(TextSys::new(), 10, 20, "AB");
    d.end_label();
    assert_eq!(d.output(), b"\x02L\x0D101100000100020AB\rE\x0D");
}

#[test]
fn system_text_style() {
    let style = TextSys::new().rotate(Rotate::Rotate270).font(8).hor_expand(10).vert_expand(24);
    let bytes = encoded(|d| d.text_sys(style, 9999, 0, "x"));
    assert_eq!(bytes, b"48JX00099990000x\r".to_vec());
}

#[test]
fn scalable_text() {
    let style = TextScale::new().rotate(Rotate::Rotate90).hor_expand(2).vert_expand(3).bold().size(ScaleSize::S72);
    let bytes = encoded(|d| d.text_scale(style, 5, 123, "Hi"));
    assert_eq!(bytes, b"2923C7200050123Hi\r".to_vec());
    let plain = encoded(|d| d.text_scale(TextScale::new(), 0, 0, ""));
    assert_eq!(plain, b"1911A0400000000\r".to_vec());
}

#[test]
fn same_command_same_bytes() {
    let style = TextSys::new().font(2);
    let first = encoded(|d| d.text_sys(style, 1, 2, "Zürich"));
    let mut d = Datamax::new();
    d.copies(3);
    d.metric();
    let held = d.output().len();
    d.text_sys(style, 1, 2, "Zürich");
    assert_eq!(d.output()[held..].to_vec(), first);
    assert_eq!(encoded(|d| d.copies(12)), encoded(|d| d.copies(12)));
}

#[test]
fn unmappable_character_prints_underscore() {
    let bytes = encoded(|d| d.text_sys(TextSys::new(), 0, 0, "a\u{1F980}b"));
    assert_eq!(bytes, b"101100000000000a_b\r".to_vec());
}

#[test]
fn text_is_encoded_in_code_page_850() {
    let bytes = encoded(|d| d.text_sys(TextSys::new(), 0, 0, "é€ü"));
    assert_eq!(bytes, vec![b'1', b'0', b'1', b'1', b'0', b'0', b'0', b'0', b'0', b'0', b'0', b'0', b'0', b'0', b'0', 0x82, b'_', 0x81, b'\r']);
}
