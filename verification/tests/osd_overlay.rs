use app_builder::osd_overlay::{OsdCommand, OsdOverlay, OsdTelemetry};

fn telemetry(armed: bool) -> OsdTelemetry {
    OsdTelemetry {
        armed,
        imu_stale: false,
        battery_voltage_v10: 168,
        battery_cell_count: 4,
        battery_cell_voltage_v100: 412,
        amperage_ca: 1234,
        osd_throttle: 1500,
    }
}

fn row(row: u8, text: &str) -> OsdCommand {
    OsdCommand::WriteString { row, column: 2, attribute: 0, text: text.as_bytes().to_vec() }
}

#[test]
fn overlay_cycles_through_fifteen_frames() {
    let t = telemetry(false);
    let mut overlay = OsdOverlay::new();
    let frames: Vec<OsdCommand> = (0..16).map(|_| overlay.next_overlay_frame(&t)).collect();
    assert_eq!(frames[0], OsdCommand::ClearScreen);
    assert_eq!(frames[1], row(1, "FERROWASP"));
    assert_eq!(frames[2], row(2, "DISARMED"));
    assert_eq!(frames[3], row(3, "IMU OK"));
    assert_eq!(frames[4], row(4, "VBAT 16.8"));
    assert_eq!(frames[5], row(5, "CELL 4.12"));
    assert_eq!(frames[6], row(6, "CUR 12.3A"));
    assert_eq!(frames[7], row(7, "THR 1500"));
    for step in 8..=13u8 {
        assert_eq!(frames[step as usize], row(step, "                  "));
    }
    assert_eq!(frames[14], OsdCommand::DrawScreen);
    assert_eq!(frames[15], OsdCommand::ClearScreen);
    assert_eq!(overlay.overlay_step(), 1);
}

#[test]
fn unknown_readings_show_dashes() {
    let mut t = telemetry(true);
    t.imu_stale = true;
    t.battery_cell_count = 0;
    t.amperage_ca = -1;
    let mut overlay = OsdOverlay::new();
    let frames: Vec<OsdCommand> = (0..7).map(|_| overlay.next_overlay_frame(&t)).collect();
    assert_eq!(frames[2], row(2, "ARMED"));
    assert_eq!(frames[3], row(3, "IMU STALE"));
    assert_eq!(frames[5], row(5, "CELL ---"));
    assert_eq!(frames[6], row(6, "CUR ---"));
}

#[test]
fn refresh_redraws_the_arming_banner_only_when_it_changes() {
    let mut overlay = OsdOverlay::new();
    let first = overlay.refresh(&telemetry(true));
    assert_eq!(
        first,
        vec![OsdCommand::Heartbeat, row(2, "ARMED"), OsdCommand::DrawScreen, OsdCommand::ClearScreen]
    );
    assert!(overlay.displayed_armed());
    let second = overlay.refresh(&telemetry(true));
    assert_eq!(second, vec![OsdCommand::Heartbeat, row(1, "FERROWASP")]);
    let third = overlay.refresh(&telemetry(false));
    assert_eq!(
        third,
        vec![OsdCommand::Heartbeat, row(2, "DISARMED"), OsdCommand::DrawScreen, row(2, "DISARMED")]
    );
    assert!(!overlay.displayed_armed());
}
