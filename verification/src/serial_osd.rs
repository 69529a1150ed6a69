//! HAL-free pieces of the USART1 MSP OSD compatibility layer: bounded serial
//! chunks and the fixed-width overlay text fields.

use vstd::prelude::*;

verus! {

/// One nonempty chunk of at most `N` serial bytes.
#[derive(Clone, Debug)]
pub struct SerialChunk<const N: usize> {
    bytes: Vec<u8>,
}

impl<const N: usize> SerialChunk<N> {
    /// Bytes held by the chunk.
    pub closed spec fn view(&self) -> Seq<u8> {
        self.bytes@
    }

    /// Copies a nonempty slice of at most `N` bytes into a chunk; other
    /// slices give `None`.
    pub fn from_slice(bytes: &[u8]) -> (r: Option<Self>)
        ensures
            (bytes@.len() > 0 && bytes@.len() <= N) <==> r is Some,
            r matches Some(c) ==> c.view() == bytes@,
    {
        if bytes.len() == 0 || bytes.len() > N {
            return None;
        }
        Some(SerialChunk { bytes: vstd::slice::slice_to_vec(bytes) })
    }

    /// The bytes of the chunk.
    pub fn as_slice(&self) -> (r: &[u8])
        ensures
            r@ == self.view(),
    {
        self.bytes.as_slice()
    }
}

/// ASCII digits of `n`, most significant first, with no leading zeros.
pub open spec fn decimal_bytes(n: nat) -> Seq<u8>
    decreases n,
{
    if n < 10 {
        seq![(48 + n) as u8]
    } else {
        decimal_bytes(n / 10).push((48 + n % 10) as u8)
    }
}

fn push_decimal_bytes(out: &mut Vec<u8>, value: u16)
    ensures
        final(out)@ == old(out)@ + decimal_bytes(value as nat),
    decreases value,
{
    if value >= 10 {
        push_decimal_bytes(out, value / 10);
    }
    out.push(48u8 + (value % 10) as u8);
    proof {
        assert(final(out)@ =~= old(out)@ + decimal_bytes(value as nat));
    }
}

/// `out` with its first `prefix.len()` bytes replaced by `prefix`.
pub open spec fn overwrite(out: Seq<u8>, prefix: Seq<u8>) -> Seq<u8> {
    prefix + out.skip(prefix.len() as int)
}

/// Smaller of two lengths.
pub open spec fn min_len(a: int, b: int) -> int {
    if a <= b {
        a
    } else {
        b
    }
}

/// Copies as much of `text` as fits to the start of `output`.
pub fn copy_text(output: &mut [u8], text: &[u8])
    ensures
        final(output)@ == overwrite(
            old(output)@,
            text@.take(min_len(old(output)@.len() as int, text@.len() as int)),
        ),
{
    let len = if output.len() <= text.len() {
        output.len()
    } else {
        text.len()
    };
    let mut i: usize = 0;
    while i < len
        invariant
            len <= output@.len(),
            len <= text@.len(),
            len == min_len(old(output)@.len() as int, text@.len() as int),
            output@.len() == old(output)@.len(),
            i <= len,
            forall|k: int| 0 <= k < i ==> #[trigger] output@[k] == text@[k],
            forall|k: int| i <= k < output@.len() ==> #[trigger] output@[k] == old(output)@[k],
        decreases len - i,
    {
        output[i] = text[i];
        i = i + 1;
    }
    proof {
        assert(output@ =~= overwrite(old(output)@, text@.take(len as int)));
    }
}

/// Length of `text` without its trailing spaces.
pub open spec fn trimmed_len(text: Seq<u8>) -> nat
    decreases text.len(),
{
    if text.len() == 0 || text.last() != 32u8 {
        text.len()
    } else {
        trimmed_len(text.drop_last())
    }
}

/// The text without its trailing spaces.
pub fn trim_end(text: &[u8]) -> (r: &[u8])
    ensures
        r@ == text@.take(trimmed_len(text@) as int),
{
    let mut len = text.len();
    proof {
        assert(text@.take(len as int) =~= text@);
    }
    while len > 0 && text[len - 1] == 32u8
        invariant
            len <= text@.len(),
            trimmed_len(text@) == trimmed_len(text@.take(len as int)),
        decreases len,
    {
        proof {
            assert(text@.take(len as int).drop_last() =~= text@.take(len - 1));
        }
        len = len - 1;
    }
    proof {
        lemma_trimmed_len_le(text@.take(len as int));
        if len > 0 {
            assert(text@.take(len as int).last() == text@[len - 1]);
        }
    }
    vstd::slice::slice_subrange(text, 0, len)
}

proof fn lemma_trimmed_len_le(text: Seq<u8>)
    ensures
        trimmed_len(text) <= text.len(),
    decreases text.len(),
{
    if text.len() > 0 && text.last() == 32u8 {
        lemma_trimmed_len_le(text.drop_last());
    }
}

/// Bytes of `output` after writing the digits of `value` from its start,
/// truncated to the space available.
pub open spec fn written_u16(output: Seq<u8>, value: nat) -> Seq<u8> {
    overwrite(output, decimal_bytes(value).take(u16_written_len(output.len() as int, value)))
}

/// Number of digits of `value` that fit in `space` bytes.
pub open spec fn u16_written_len(space: int, value: nat) -> int {
    min_len(space, decimal_bytes(value).len() as int)
}

/// Writes the decimal digits of `value` at the start of `output`, as many as
/// fit, and returns how many it wrote.
pub fn write_u16(output: &mut [u8], value: u16) -> (r: usize)
    ensures
        r == u16_written_len(old(output)@.len() as int, value as nat),
        final(output)@ == written_u16(old(output)@, value as nat),
{
    let mut digits: Vec<u8> = Vec::new();
    push_decimal_bytes(&mut digits, value);
    proof {
        assert(digits@ =~= decimal_bytes(value as nat));
    }
    let len = if output.len() <= digits.len() {
        output.len()
    } else {
        digits.len()
    };
    let mut i: usize = 0;
    while i < len
        invariant
            len <= output@.len(),
            len <= digits@.len(),
            digits@ == decimal_bytes(value as nat),
            len == u16_written_len(old(output)@.len() as int, value as nat),
            output@.len() == old(output)@.len(),
            i <= len,
            forall|k: int| 0 <= k < i ==> #[trigger] output@[k] == digits@[k],
            forall|k: int| i <= k < output@.len() ==> #[trigger] output@[k] == old(output)@[k],
        decreases len - i,
    {
        output[i] = digits[i];
        i = i + 1;
    }
    proof {
        assert(output@ =~= written_u16(old(output)@, value as nat));
    }
    len
}

/// Battery voltage field: whole volts, then `.` and tenths when both fit.
pub open spec fn vbat_text(output: Seq<u8>, voltage_v10: u8) -> Seq<u8> {
    let whole = (voltage_v10 / 10) as nat;
    let written = written_u16(output, whole);
    let pos = u16_written_len(output.len() as int, whole);
    if pos + 2 <= output.len() {
        written.update(pos, 46u8).update(pos + 1, (48 + voltage_v10 % 10) as u8)
    } else {
        written
    }
}

/// Writes a battery voltage given in tenths of a volt.
pub fn write_vbat(output: &mut [u8], voltage_v10: u8)
    ensures
        final(output)@ == vbat_text(old(output)@, voltage_v10),
{
    let whole = voltage_v10 / 10;
    let frac = voltage_v10 % 10;
    let pos = write_u16(output, whole as u16);
    if pos <= output.len() && output.len() - pos >= 2 {
        output[pos] = 46u8;
        output[pos + 1] = 48u8 + frac;
    }
}

/// Per-cell voltage field: `---` without a cell count or reading, else whole
/// volts, then `.` and two decimals when they fit.
pub open spec fn cell_voltage_text(output: Seq<u8>, cell_count: u8, voltage_v100: u16) -> Seq<u8> {
    if cell_count == 0 || voltage_v100 == 0 {
        overwrite(output, seq![45u8, 45u8, 45u8].take(min_len(output.len() as int, 3)))
    } else {
        let whole = (voltage_v100 / 100) as nat;
        let frac = voltage_v100 % 100;
        let written = written_u16(output, whole);
        let pos = u16_written_len(output.len() as int, whole);
        if pos + 3 <= output.len() {
            written.update(pos, 46u8).update(pos + 1, (48 + frac / 10) as u8).update(
                pos + 2,
                (48 + frac % 10) as u8,
            )
        } else {
            written
        }
    }
}

/// Writes a per-cell voltage given in hundredths of a volt.
pub fn write_cell_voltage(output: &mut [u8], cell_count: u8, voltage_v100: u16)
    ensures
        final(output)@ == cell_voltage_text(old(output)@, cell_count, voltage_v100),
{
    if cell_count == 0 || voltage_v100 == 0 {
        let dashes: [u8; 3] = [45u8, 45u8, 45u8];
        copy_text(output, dashes.as_slice());
        proof {
            assert(dashes@ =~= seq![45u8, 45u8, 45u8]);
        }
        return;
    }
    let whole = voltage_v100 / 100;
    let frac = voltage_v100 % 100;
    let pos = write_u16(output, whole);
    if pos <= output.len() && output.len() - pos >= 3 {
        output[pos] = 46u8;
        output[pos + 1] = 48u8 + (frac / 10) as u8;
        output[pos + 2] = 48u8 + (frac % 10) as u8;
    }
}

/// Current field: `---` for a negative reading, else whole amperes, then `.`,
/// tenths, and `A` when they fit.
pub open spec fn current_text(output: Seq<u8>, amperage_ca: i16) -> Seq<u8> {
    if amperage_ca < 0 {
        overwrite(output, seq![45u8, 45u8, 45u8].take(min_len(output.len() as int, 3)))
    } else {
        let whole = (amperage_ca / 100) as nat;
        let frac = (amperage_ca % 100) / 10;
        let written = written_u16(output, whole);
        let pos = u16_written_len(output.len() as int, whole);
        if pos + 3 <= output.len() {
            written.update(pos, 46u8).update(pos + 1, (48 + frac) as u8).update(pos + 2, 65u8)
        } else {
            written
        }
    }
}

/// Writes a current given in hundredths of an ampere.
pub fn write_current(output: &mut [u8], amperage_ca: i16)
    ensures
        final(output)@ == current_text(old(output)@, amperage_ca),
{
    if amperage_ca < 0 {
        let dashes: [u8; 3] = [45u8, 45u8, 45u8];
        copy_text(output, dashes.as_slice());
        proof {
            assert(dashes@ =~= seq![45u8, 45u8, 45u8]);
        }
        return;
    }
    let amperage: u16 = amperage_ca as u16;
    let whole = amperage / 100;
    let frac = (amperage % 100) / 10;
    let pos = write_u16(output, whole);
    if pos <= output.len() && output.len() - pos >= 3 {
        output[pos] = 46u8;
        output[pos + 1] = 48u8 + frac as u8;
        output[pos + 2] = 65u8;
    }
}


proof fn lemma_decimal_bytes_are_digits(n: nat)
    ensures
        decimal_bytes(n).len() >= 1,
        n < 10 ==> decimal_bytes(n).len() == 1,
        n < 100 ==> decimal_bytes(n).len() <= 2,
        n < 1000 ==> decimal_bytes(n).len() <= 3,
        forall|k: int| 0 <= k < decimal_bytes(n).len() ==> 48 <= #[trigger] decimal_bytes(n)[k] <= 57,
    decreases n,
{
    if n >= 10 {
        lemma_decimal_bytes_are_digits(n / 10);
        let d = decimal_bytes(n);
        assert(d.len() == decimal_bytes(n / 10).len() + 1);
        assert forall|k: int| 0 <= k < d.len() implies 48 <= #[trigger] d[k] <= 57 by {
            if k < d.len() - 1 {
                assert(d[k] == decimal_bytes(n / 10)[k]);
            }
        }
    }
}

/// The current field shows dashes exactly for an unknown (negative)
/// reading: a nonempty field starts with `-` when the reading is negative
/// and with a decimal digit otherwise. A known reading, in a field of at
/// least six bytes, shows the decimal digits of its whole amperes, then `.`,
/// the digit of its tenths, and `A`, and the field keeps its width.
pub proof fn lemma_current_field_shows_known_readings(output: Seq<u8>, amperage_ca: i16)
    requires
        output.len() >= 1,
    ensures
        current_text(output, amperage_ca).len() == output.len(),
        amperage_ca < 0 ==> current_text(output, amperage_ca)[0] == 45u8,
        amperage_ca < 0 && output.len() >= 3 ==> current_text(output, amperage_ca).take(3) == seq![
            45u8,
            45u8,
            45u8,
        ] && current_text(output, amperage_ca).skip(3) == output.skip(3),
        amperage_ca >= 0 ==> 48 <= current_text(output, amperage_ca)[0] <= 57,
        amperage_ca >= 0 && output.len() >= 6 ==> {
            let t = current_text(output, amperage_ca);
            let d = decimal_bytes((amperage_ca / 100) as nat);
            &&& t.take(d.len() as int) == d
            &&& t[d.len() as int] == 46u8
            &&& t[d.len() + 1int] == 48 + (amperage_ca % 100) / 10
            &&& t[d.len() + 2int] == 65u8
        },
{
    if amperage_ca < 0 && output.len() >= 3 {
        let t = current_text(output, amperage_ca);
        assert(t.take(3) =~= seq![45u8, 45u8, 45u8]);
        assert(t.skip(3) =~= output.skip(3));
    }
    if amperage_ca >= 0 {
        let whole = (amperage_ca / 100) as nat;
        lemma_decimal_bytes_are_digits(whole);
        let d = decimal_bytes(whole);
        let t = current_text(output, amperage_ca);
        let written = written_u16(output, whole);
        let pos = u16_written_len(output.len() as int, whole);
        assert(written.len() == output.len());
        assert(written[0] == d[0]);
        if output.len() >= 6 {
            assert(whole <= 327);
            assert(pos == d.len());
            assert(t.take(d.len() as int) =~= d);
        }
    }
}

} // verus!
