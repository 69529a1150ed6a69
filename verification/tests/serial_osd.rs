use app_builder::serial_osd::{
    copy_text, trim_end, write_cell_voltage, write_current, write_u16, write_vbat, SerialChunk,
};

fn field(write: impl Fn(&mut [u8])) -> String {
    let mut text = [b' '; 13];
    write(&mut text);
    String::from_utf8(trim_end(&text).to_vec()).unwrap()
}

#[test]
fn serial_chunks_hold_one_to_n_bytes() {
    assert!(SerialChunk::<4>::from_slice(&[]).is_none());
    assert!(SerialChunk::<4>::from_slice(&[1, 2, 3, 4, 5]).is_none());
    let chunk = SerialChunk::<4>::from_slice(&[1, 2, 3]).unwrap();
    assert_eq!(chunk.as_slice(), &[1, 2, 3]);
}

#[test]
fn u16_digits_fit_or_truncate() {
    let mut out = [b'x'; 8];
    assert_eq!(write_u16(&mut out, 65_535), 5);
    assert_eq!(&out, b"65535xxx");
    let mut short = [b'x'; 2];
    assert_eq!(write_u16(&mut short, 1234), 2);
    assert_eq!(&short, b"12");
    let mut zero = [b'x'; 3];
    assert_eq!(write_u16(&mut zero, 0), 1);
    assert_eq!(&zero, b"0xx");
}

#[test]
fn overlay_fields_render_fixed_point_readings() {
    assert_eq!(field(|t| write_vbat(t, 168)), "16.8");
    assert_eq!(field(|t| write_cell_voltage(t, 4, 405)), "4.05");
    assert_eq!(field(|t| write_cell_voltage(t, 0, 405)), "---");
    assert_eq!(field(|t| write_current(t, 1234)), "12.3A");
    assert_eq!(field(|t| write_current(t, -1)), "---");
}

#[test]
fn text_copy_and_trim() {
    let mut text = [b' '; 18];
    copy_text(&mut text, b"VBAT ");
    assert_eq!(trim_end(&text), b"VBAT");
    let mut tiny = [0u8; 2];
    copy_text(&mut tiny, b"CUR ");
    assert_eq!(&tiny, b"CU");
    assert_eq!(trim_end(b"   "), b"");
}
