//! Sequencing of the MSP DisplayPort overlay: which request the OSD
//! component asks its MSP responder to encode on each refresh.

use vstd::prelude::*;

use crate::serial_osd::{
    cell_voltage_text, current_text, trim_end, trimmed_len, vbat_text, write_cell_voltage,
    write_current, write_u16, write_vbat, written_u16,
};

verus! {

/// Flight telemetry the overlay shows.
#[derive(Clone, Copy, Debug, PartialEq, Eq)]
pub struct OsdTelemetry {
    /// Outputs are armed.
    pub armed: bool,
    /// IMU samples stopped arriving.
    pub imu_stale: bool,
    /// Battery voltage in tenths of a volt.
    pub battery_voltage_v10: u8,
    /// Detected battery cell count, zero when unknown.
    pub battery_cell_count: u8,
    /// Per-cell voltage in hundredths of a volt.
    pub battery_cell_voltage_v100: u16,
    /// Current in centiamperes, negative when unknown.
    pub amperage_ca: i16,
    /// Throttle shown on the OSD.
    pub osd_throttle: u16,
}

/// One MSP DisplayPort request for the responder to encode.
#[derive(Clone, Debug, PartialEq, Eq)]
pub enum OsdCommand {
    /// Clear the canvas.
    ClearScreen,
    /// Write text at a row and column with a character attribute.
    WriteString {
        /// Canvas row.
        row: u8,
        /// Canvas column.
        column: u8,
        /// Character attribute.
        attribute: u8,
        /// ASCII text.
        text: Vec<u8>,
    },
    /// Show the canvas.
    DrawScreen,
    /// Keep the DisplayPort session alive.
    Heartbeat,
}

/// A DisplayPort request with its text as a sequence.
pub enum OsdCommandView {
    ClearScreen,
    WriteString { row: u8, column: u8, attribute: u8, text: Seq<u8> },
    DrawScreen,
    Heartbeat,
}

impl View for OsdCommand {
    type V = OsdCommandView;

    open spec fn view(&self) -> OsdCommandView {
        match self {
            OsdCommand::ClearScreen => OsdCommandView::ClearScreen,
            OsdCommand::WriteString { row, column, attribute, text } => OsdCommandView::WriteString {
                row: *row,
                column: *column,
                attribute: *attribute,
                text: text@,
            },
            OsdCommand::DrawScreen => OsdCommandView::DrawScreen,
            OsdCommand::Heartbeat => OsdCommandView::Heartbeat,
        }
    }
}

/// `n` ASCII spaces.
pub open spec fn spaces(n: nat) -> Seq<u8> {
    Seq::new(n, |i: int| 32u8)
}

/// The text without its trailing spaces.
pub open spec fn trimmed(t: Seq<u8>) -> Seq<u8> {
    t.take(trimmed_len(t) as int)
}

/// `ARMED` or `DISARMED`.
pub open spec fn arming_text(armed: bool) -> Seq<u8> {
    if armed {
        seq![65u8, 82u8, 77u8, 69u8, 68u8]
    } else {
        seq![68u8, 73u8, 83u8, 65u8, 82u8, 77u8, 69u8, 68u8]
    }
}

/// Text of the telemetry rows of the overlay, written into an 18-byte field
/// after a label and trimmed.
pub open spec fn telemetry_row_text(step: u8, t: OsdTelemetry) -> Seq<u8> {
    if step == 4 {
        trimmed(seq![86u8, 66u8, 65u8, 84u8, 32u8] + vbat_text(spaces(13), t.battery_voltage_v10))
    } else if step == 5 {
        trimmed(
            seq![67u8, 69u8, 76u8, 76u8, 32u8] + cell_voltage_text(
                spaces(13),
                t.battery_cell_count,
                t.battery_cell_voltage_v100,
            ),
        )
    } else if step == 6 {
        trimmed(seq![67u8, 85u8, 82u8, 32u8] + current_text(spaces(14), t.amperage_ca))
    } else {
        trimmed(seq![84u8, 72u8, 82u8, 32u8] + written_u16(spaces(14), t.osd_throttle as nat))
    }
}

/// Text at column 2 with attribute 0 on a row.
pub open spec fn write_row(row: u8, text: Seq<u8>) -> OsdCommandView {
    OsdCommandView::WriteString { row, column: 2, attribute: 0, text }
}

/// Request of overlay frame `step`: clear, title, arming state, IMU state,
/// battery voltage, cell voltage, current, throttle, blank rows 8 to 13,
/// then draw; a heartbeat for any later step.
pub open spec fn overlay_frame(step: u8, t: OsdTelemetry) -> OsdCommandView {
    if step == 0 {
        OsdCommandView::ClearScreen
    } else if step == 1 {
        write_row(1, seq![70u8, 69u8, 82u8, 82u8, 79u8, 87u8, 65u8, 83u8, 80u8])
    } else if step == 2 {
        write_row(2, arming_text(t.armed))
    } else if step == 3 {
        write_row(
            3,
            if t.imu_stale {
                seq![73u8, 77u8, 85u8, 32u8, 83u8, 84u8, 65u8, 76u8, 69u8]
            } else {
                seq![73u8, 77u8, 85u8, 32u8, 79u8, 75u8]
            },
        )
    } else if 4 <= step <= 7 {
        write_row(step, telemetry_row_text(step, t))
    } else if 8 <= step <= 13 {
        write_row(step, spaces(18))
    } else if step == 14 {
        OsdCommandView::DrawScreen
    } else {
        OsdCommandView::Heartbeat
    }
}

/// Requests of one refresh: a heartbeat; the arming banner and a draw when
/// the armed state differs from the one displayed; then the next overlay
/// frame.
pub open spec fn refresh_requests(step: u8, displayed_armed: bool, t: OsdTelemetry) -> Seq<
    OsdCommandView,
> {
    seq![OsdCommandView::Heartbeat] + (if t.armed != displayed_armed {
        seq![write_row(2, arming_text(t.armed)), OsdCommandView::DrawScreen]
    } else {
        Seq::empty()
    }) + seq![overlay_frame(step, t)]
}

/// Views of a list of requests.
pub open spec fn command_views(v: Seq<OsdCommand>) -> Seq<OsdCommandView> {
    v.map_values(|c: OsdCommand| c@)
}

/// Overlay position and the arming state currently displayed.
pub struct OsdOverlay {
    overlay_step: u8,
    displayed_armed: bool,
}

impl OsdOverlay {
    /// The overlay position stays within the 15-frame cycle.
    #[verifier::type_invariant]
    spec fn in_cycle(self) -> bool {
        self.overlay_step < 15
    }

    /// Position of the next frame in the 15-frame cycle.
    pub closed spec fn step(self) -> u8 {
        self.overlay_step
    }

    /// Arming state the overlay shows.
    pub closed spec fn shown_armed(self) -> bool {
        self.displayed_armed
    }

    /// Overlay at its first frame, showing the disarmed state.
    pub fn new() -> (r: Self)
        ensures
            r.step() == 0,
            !r.shown_armed(),
    {
        OsdOverlay { overlay_step: 0, displayed_armed: false }
    }

    /// Position of the next frame.
    pub fn overlay_step(&self) -> (r: u8)
        ensures
            r == self.step(),
            r < 15,
    {
        proof {
            use_type_invariant(self);
        }
        self.overlay_step
    }

    /// Arming state currently displayed.
    pub fn displayed_armed(&self) -> (r: bool)
        ensures
            r == self.shown_armed(),
    {
        self.displayed_armed
    }

    /// Request for the current overlay frame; the overlay moves on to the
    /// next frame of its 15-frame cycle.
    pub fn next_overlay_frame(&mut self, telemetry: &OsdTelemetry) -> (r: OsdCommand)
        ensures
            r@ == overlay_frame(old(self).step(), *telemetry),
            final(self).step() == (old(self).step() + 1) % 15,
            final(self).shown_armed() == old(self).shown_armed(),
    {
        proof {
            use_type_invariant(&*self);
        }
        let step = self.overlay_step;
        let command = overlay_command(step, telemetry);
        self.overlay_step = (step + 1) % 15;
        command
    }

    /// Requests of one refresh: a heartbeat, the arming banner and a draw
    /// when the armed state changed, and the next overlay frame; afterwards
    /// the overlay shows the current armed state.
    pub fn refresh(&mut self, telemetry: &OsdTelemetry) -> (r: Vec<OsdCommand>)
        ensures
            command_views(r@) == refresh_requests(
                old(self).step(),
                old(self).shown_armed(),
                *telemetry,
            ),
            final(self).step() == (old(self).step() + 1) % 15,
            final(self).shown_armed() == telemetry.armed,
    {
        proof {
            use_type_invariant(&*self);
        }
        let mut requests: Vec<OsdCommand> = Vec::new();
        requests.push(OsdCommand::Heartbeat);
        let changed = telemetry.armed != self.displayed_armed;
        if changed {
            requests.push(
                OsdCommand::WriteString {
                    row: 2,
                    column: 2,
                    attribute: 0,
                    text: arming_bytes(telemetry.armed),
                },
            );
            requests.push(OsdCommand::DrawScreen);
            self.displayed_armed = telemetry.armed;
        }
        let frame = self.next_overlay_frame(telemetry);
        requests.push(frame);
        proof {
            assert(command_views(requests@) =~= refresh_requests(
                old(self).step(),
                old(self).shown_armed(),
                *telemetry,
            ));
        }
        requests
    }
}

fn arming_bytes(armed: bool) -> (r: Vec<u8>)
    ensures
        r@ == arming_text(armed),
{
    let r = if armed {
        vec![65u8, 82u8, 77u8, 69u8, 68u8]
    } else {
        vec![68u8, 73u8, 83u8, 65u8, 82u8, 77u8, 69u8, 68u8]
    };
    proof {
        assert(r@ =~= arming_text(armed));
    }
    r
}

fn space_field(n: usize) -> (r: Vec<u8>)
    ensures
        r@ == spaces(n as nat),
{
    let mut r: Vec<u8> = Vec::new();
    let mut i: usize = 0;
    while i < n
        invariant
            i <= n,
            r@ == spaces(i as nat),
        decreases n - i,
    {
        r.push(32u8);
        proof {
            assert(r@ =~= spaces((i + 1) as nat));
        }
        i += 1;
    }
    r
}

fn trimmed_row(label: Vec<u8>, field: Vec<u8>) -> (r: Vec<u8>)
    ensures
        r@ == trimmed(label@ + field@),
{
    let mut text = label;
    let mut rest = field;
    let ghost whole = text@ + rest@;
    text.append(&mut rest);
    proof {
        assert(text@ =~= whole);
    }
    vstd::slice::slice_to_vec(trim_end(text.as_slice()))
}

fn telemetry_row(step: u8, t: &OsdTelemetry) -> (r: Vec<u8>)
    requires
        4 <= step <= 7,
    ensures
        r@ == telemetry_row_text(step, *t),
{
    if step == 4 {
        let mut field = space_field(13);
        write_vbat(field.as_mut_slice(), t.battery_voltage_v10);
        let label = vec![86u8, 66u8, 65u8, 84u8, 32u8];
        proof {
            assert(label@ =~= seq![86u8, 66u8, 65u8, 84u8, 32u8]);
        }
        trimmed_row(label, field)
    } else if step == 5 {
        let mut field = space_field(13);
        write_cell_voltage(field.as_mut_slice(), t.battery_cell_count, t.battery_cell_voltage_v100);
        let label = vec![67u8, 69u8, 76u8, 76u8, 32u8];
        proof {
            assert(label@ =~= seq![67u8, 69u8, 76u8, 76u8, 32u8]);
        }
        trimmed_row(label, field)
    } else if step == 6 {
        let mut field = space_field(14);
        write_current(field.as_mut_slice(), t.amperage_ca);
        let label = vec![67u8, 85u8, 82u8, 32u8];
        proof {
            assert(label@ =~= seq![67u8, 85u8, 82u8, 32u8]);
        }
        trimmed_row(label, field)
    } else {
        let mut field = space_field(14);
        write_u16(field.as_mut_slice(), t.osd_throttle);
        let label = vec![84u8, 72u8, 82u8, 32u8];
        proof {
            assert(label@ =~= seq![84u8, 72u8, 82u8, 32u8]);
        }
        trimmed_row(label, field)
    }
}

fn write_row_command(row: u8, text: Vec<u8>) -> (r: OsdCommand)
    ensures
        r@ == write_row(row, text@),
{
    OsdCommand::WriteString { row, column: 2, attribute: 0, text }
}

fn overlay_command(step: u8, t: &OsdTelemetry) -> (r: OsdCommand)
    ensures
        r@ == overlay_frame(step, *t),
{
    if step == 0 {
        OsdCommand::ClearScreen
    } else if step == 1 {
        let text = vec![70u8, 69u8, 82u8, 82u8, 79u8, 87u8, 65u8, 83u8, 80u8];
        proof {
            assert(text@ =~= seq![70u8, 69u8, 82u8, 82u8, 79u8, 87u8, 65u8, 83u8, 80u8]);
        }
        write_row_command(1, text)
    } else if step == 2 {
        write_row_command(2, arming_bytes(t.armed))
    } else if step == 3 {
        let text = if t.imu_stale {
            vec![73u8, 77u8, 85u8, 32u8, 83u8, 84u8, 65u8, 76u8, 69u8]
        } else {
            vec![73u8, 77u8, 85u8, 32u8, 79u8, 75u8]
        };
        proof {
            if t.imu_stale {
                assert(text@ =~= seq![73u8, 77u8, 85u8, 32u8, 83u8, 84u8, 65u8, 76u8, 69u8]);
            } else {
                assert(text@ =~= seq![73u8, 77u8, 85u8, 32u8, 79u8, 75u8]);
            }
        }
        write_row_command(3, text)
    } else if step <= 7 {
        write_row_command(step, telemetry_row(step, t))
    } else if step <= 13 {
        write_row_command(step, space_field(18))
    } else if step == 14 {
        OsdCommand::DrawScreen
    } else {
        OsdCommand::Heartbeat
    }
}

/// Position of the overlay after `n` more frames from position `s`, each
/// frame advancing it as [`OsdOverlay::next_overlay_frame`] does.
pub open spec fn step_after(s: int, n: nat) -> int
    decreases n,
{
    if n == 0 {
        s
    } else {
        (step_after(s, (n - 1) as nat) + 1) % 15
    }
}

proof fn lemma_step_after_is_offset(s: int, n: nat)
    requires
        0 <= s < 15,
    ensures
        step_after(s, n) == (s + n) % 15,
    decreases n,
{
    if n > 0 {
        lemma_step_after_is_offset(s, (n - 1) as nat);
    }
}

/// Fifteen consecutive frames from any position visit every one of the
/// fifteen overlay frames exactly once, so each row of the overlay is
/// rewritten once per fifteen refreshes.
pub proof fn lemma_overlay_cycle_visits_every_frame(s: u8, f: u8)
    requires
        s < 15,
        f < 15,
    ensures
        exists|k: nat| k < 15 && #[trigger] step_after(s as int, k) == f,
        forall|k1: nat, k2: nat|
            k1 < 15 && k2 < 15 && #[trigger] step_after(s as int, k1) == #[trigger] step_after(
                s as int,
                k2,
            ) ==> k1 == k2,
{
    let k: nat = if f >= s {
        (f - s) as nat
    } else {
        (f + 15 - s) as nat
    };
    lemma_step_after_is_offset(s as int, k);
    assert(step_after(s as int, k) == f);
    assert forall|k1: nat, k2: nat|
        k1 < 15 && k2 < 15 && #[trigger] step_after(s as int, k1) == #[trigger] step_after(
            s as int,
            k2,
        ) implies k1 == k2 by {
        lemma_step_after_is_offset(s as int, k1);
        lemma_step_after_is_offset(s as int, k2);
    }
}

} // verus!
