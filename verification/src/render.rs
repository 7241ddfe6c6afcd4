//! Fixed-width rendering of a measurement onto the eight-cell display.
//!
//! The display sink addresses exactly eight glyph cells, each taking one
//! ASCII character code and one decimal-point bit, so every render produces
//! exactly eight characters and an eight-bit dot mask. Numeric fields are
//! right-justified with spaces, as the display hardware shows blank cells
//! for them.

use vstd::prelude::*;

use crate::measurement::Measurement;
use crate::measurement::Milli;
use crate::measurement::spec_trunc_div;
use crate::mode::DisplayState;

verus! {

/// The ASCII space that pads a numeric field.
pub const GLYPH_SPACE: u8 = 32;

/// The ASCII minus sign of a negative whole part.
pub const GLYPH_MINUS: u8 = 45;

/// The ASCII code of the digit zero; digit `d` renders as `GLYPH_ZERO + d`.
pub const GLYPH_ZERO: u8 = 48;

/// The decimal digits of `n`, most significant first, no leading zeros
/// (a single zero digit for zero itself).
pub open spec fn spec_digits(n: nat) -> Seq<u8>
    decreases n,
{
    if n < 10 {
        seq![(GLYPH_ZERO + n) as u8]
    } else {
        spec_digits(n / 10).push((GLYPH_ZERO + n % 10) as u8)
    }
}

/// The text of the integer `v`: its digits, behind a minus sign when `v` is
/// negative.
pub open spec fn spec_number_text(v: int) -> Seq<u8> {
    if v < 0 {
        seq![GLYPH_MINUS] + spec_digits((-v) as nat)
    } else {
        spec_digits(v as nat)
    }
}

/// The text of `v` right-justified with spaces in a field of `width` cells.
/// A text that already fills or overflows the field is left as it is; the
/// formatting rules below never let that happen.
pub open spec fn spec_right_justified(v: int, width: nat) -> Seq<u8> {
    let text = spec_number_text(v);
    if text.len() < width {
        Seq::new((width - text.len()) as nat, |i: int| GLYPH_SPACE) + text
    } else {
        text
    }
}

/// How many decimal digits small naturals render to: what the field-width
/// side conditions of the formatting rules rest on.
pub proof fn lemma_digits_len(n: nat)
    ensures
        spec_digits(n).len() >= 1,
        n < 10 ==> spec_digits(n).len() == 1,
        n < 100 ==> spec_digits(n).len() <= 2,
        n < 1000 ==> spec_digits(n).len() <= 3,
        n < 10000 ==> spec_digits(n).len() <= 4,
    decreases n,
{
    if n >= 10 {
        lemma_digits_len(n / 10);
    }
}

/// Append the decimal digits of `n`, most significant first.
fn push_digits(out: &mut Vec<u8>, n: u64)
    ensures
        final(out)@ == old(out)@ + spec_digits(n as nat),
    decreases n,
{
    if n < 10 {
        out.push(GLYPH_ZERO + n as u8);
        assert(out@ =~= old(out)@ + spec_digits(n as nat));
    } else {
        push_digits(out, n / 10);
        out.push(GLYPH_ZERO + (n % 10) as u8);
        assert(out@ =~= old(out)@ + spec_digits(n as nat));
    }
}

/// Append the text of the signed integer given as sign and magnitude.
fn push_number_text(out: &mut Vec<u8>, neg: bool, mag: u64)
    ensures
        final(out)@ == old(out)@ + spec_number_text(if neg { -(mag as int) } else { mag as int }),
{
    if neg && mag > 0 {
        out.push(GLYPH_MINUS);
        push_digits(out, mag);
        assert(out@ =~= old(out)@ + spec_number_text(-(mag as int)));
    } else {
        push_digits(out, mag);
    }
}

/// Append the signed value given as sign and magnitude, right-justified with
/// spaces in a field of `width` cells.
fn push_right_justified(out: &mut Vec<u8>, neg: bool, mag: u64, width: usize)
    requires
        spec_number_text(if neg { -(mag as int) } else { mag as int }).len() <= width,
    ensures
        final(out)@ == old(out)@ + spec_right_justified(
            if neg { -(mag as int) } else { mag as int },
            width as nat,
        ),
{
    let ghost v: int = if neg { -(mag as int) } else { mag as int };
    let mut text: Vec<u8> = Vec::new();
    push_number_text(&mut text, neg, mag);
    let pad: usize = width - text.len();
    let mut k: usize = 0;
    while k < pad
        invariant
            k <= pad,
            out@ == old(out)@ + Seq::new(k as nat, |i: int| GLYPH_SPACE),
        decreases pad - k,
    {
        out.push(GLYPH_SPACE);
        k += 1;
        assert(out@ =~= old(out)@ + Seq::new(k as nat, |i: int| GLYPH_SPACE));
    }
    out.append(&mut text);
    assert(out@ =~= old(out)@ + spec_right_justified(v, width as nat));
}

/// The letter glyphs of the unit tags.
pub const GLYPH_A: u8 = 65;

pub const GLYPH_C: u8 = 67;

pub const GLYPH_E: u8 = 69;

pub const GLYPH_H: u8 = 72;

pub const GLYPH_L: u8 = 76;

pub const GLYPH_P: u8 = 80;

pub const GLYPH_U: u8 = 85;

/// The sensor's specified operating range in whole degrees Celsius: the
/// rendered whole part is silently clamped into it.
pub const TEMP_WHOLE_MIN: i64 = -40;

pub const TEMP_WHOLE_MAX: i64 = 85;

/// Dot mask of a non-negative temperature: one decimal point between the
/// whole part and the fractional digit (cell 2, counting the leftmost cell
/// as bit 7).
pub const DOTS_TEMP_NONNEG: u8 = 0b0010_0000;

/// Dot mask of a negative temperature: the decimal point plus a dot on the
/// leftmost cell, the display's sign indicator in place of a minus glyph of
/// its own cell.
pub const DOTS_TEMP_NEG: u8 = 0b1010_0000;

/// Dot mask of the humidity and pressure renderings: no dots at all.
pub const DOTS_NONE: u8 = 0b0000_0000;

/// `v` clamped into the inclusive range `lo ..= hi`.
pub open spec fn spec_clamp(v: int, lo: int, hi: int) -> int {
    if v < lo {
        lo
    } else if v > hi {
        hi
    } else {
        v
    }
}

/// The eight temperature glyphs: the whole part, truncated toward zero and
/// clamped to the sensor's operating range, right-justified in three cells;
/// one rounded fractional digit; and the unit tag " CEL".
pub open spec fn spec_temperature_chars(t: Milli) -> Seq<u8> {
    spec_right_justified(spec_clamp(t.spec_whole(), TEMP_WHOLE_MIN as int, TEMP_WHOLE_MAX as int), 3)
        + seq![(GLYPH_ZERO + t.spec_frac_tenths()) as u8]
        + seq![GLYPH_SPACE, GLYPH_C, GLYPH_E, GLYPH_L]
}

/// The temperature dot mask: the negative pattern whenever the raw reading
/// is negative, regardless of the clamped whole part's sign.
pub open spec fn spec_temperature_dots(t: Milli) -> u8 {
    if t.value() < 0 {
        DOTS_TEMP_NEG
    } else {
        DOTS_TEMP_NONNEG
    }
}

/// The eight humidity glyphs: the whole percentage, truncated toward zero,
/// right-justified in four cells, and the unit tag " PHU".
pub open spec fn spec_humidity_chars(h: Milli) -> Seq<u8> {
    spec_right_justified(h.spec_whole(), 4) + seq![GLYPH_SPACE, GLYPH_P, GLYPH_H, GLYPH_U]
}

/// The pressure in whole hectopascals: pascals truncated toward zero, then
/// integer-divided by one hundred (again toward zero).
pub open spec fn spec_pressure_hectos(p: Milli) -> int {
    spec_trunc_div(p.spec_whole(), 100)
}

/// The eight pressure glyphs: the whole hectopascals right-justified in four
/// cells, and the unit tag " HPA".
pub open spec fn spec_pressure_chars(p: Milli) -> Seq<u8> {
    spec_right_justified(spec_pressure_hectos(p), 4) + seq![GLYPH_SPACE, GLYPH_H, GLYPH_P, GLYPH_A]
}

/// Whether `v` fits a four-cell right-justified field. Humidity and pressure
/// are not clamped, so a reading whose field would overflow the display
/// cannot be rendered at all.
pub open spec fn spec_fits_field(v: int) -> bool {
    -999 <= v <= 9999
}

/// One finished render: exactly eight glyph cells and their dot mask, handed
/// as they are to the display sink.
pub struct RenderedDigits {
    chars: Vec<u8>,
    dots: u8,
}

impl RenderedDigits {
    /// The glyph codes, cell by cell.
    pub closed spec fn chars(self) -> Seq<u8> {
        self.chars@
    }

    /// The decimal-point bitmask, one bit per cell.
    pub closed spec fn dots(self) -> u8 {
        self.dots
    }

    /// The hard invariant the display sink relies on: exactly eight cells.
    pub open spec fn well_formed(self) -> bool {
        self.chars().len() == 8
    }

    /// The glyph codes, for handing to the display sink.
    pub fn glyphs(&self) -> (r: &Vec<u8>)
        ensures
            r@ == self.chars(),
    {
        &self.chars
    }

    /// The dot mask, for handing to the display sink.
    pub fn dot_mask(&self) -> (r: u8)
        ensures
            r == self.dots(),
    {
        self.dots
    }
}

/// Render a temperature reading. Total: out-of-range whole parts are
/// clamped, never rejected, and the fractional digit is clamped to 9.
pub fn format_temperature(reading: &Milli) -> (r: RenderedDigits)
    ensures
        r.chars() == spec_temperature_chars(*reading),
        r.dots() == spec_temperature_dots(*reading),
        r.well_formed(),
{
    let whole = reading.whole();
    let clamped: i64 = if whole < TEMP_WHOLE_MIN {
        TEMP_WHOLE_MIN
    } else if whole > TEMP_WHOLE_MAX {
        TEMP_WHOLE_MAX
    } else {
        whole
    };
    let neg = clamped < 0;
    let mag: u64 = if clamped < 0 {
        (-clamped) as u64
    } else {
        clamped as u64
    };
    proof {
        lemma_digits_len(mag as nat);
    }
    let mut chars: Vec<u8> = Vec::new();
    push_right_justified(&mut chars, neg, mag, 3);
    let frac = reading.frac_tenths();
    chars.push(GLYPH_ZERO + frac as u8);
    chars.push(GLYPH_SPACE);
    chars.push(GLYPH_C);
    chars.push(GLYPH_E);
    chars.push(GLYPH_L);
    assert(chars@ =~= spec_temperature_chars(*reading));
    let dots = if reading.is_negative() {
        DOTS_TEMP_NEG
    } else {
        DOTS_TEMP_NONNEG
    };
    RenderedDigits { chars, dots }
}

/// Render a humidity reading whose truncated percentage fits the four-cell
/// field.
pub fn format_humidity(reading: &Milli) -> (r: RenderedDigits)
    requires
        spec_fits_field(reading.spec_whole()),
    ensures
        r.chars() == spec_humidity_chars(*reading),
        r.dots() == DOTS_NONE,
        r.well_formed(),
{
    let whole = reading.whole();
    let neg = whole < 0;
    let mag: u64 = if whole < 0 {
        (-whole) as u64
    } else {
        whole as u64
    };
    proof {
        lemma_digits_len(mag as nat);
    }
    let mut chars: Vec<u8> = Vec::new();
    push_right_justified(&mut chars, neg, mag, 4);
    chars.push(GLYPH_SPACE);
    chars.push(GLYPH_P);
    chars.push(GLYPH_H);
    chars.push(GLYPH_U);
    assert(chars@ =~= spec_humidity_chars(*reading));
    RenderedDigits { chars, dots: DOTS_NONE }
}

/// Render a pressure reading whose whole hectopascals fit the four-cell
/// field.
pub fn format_pressure(reading: &Milli) -> (r: RenderedDigits)
    requires
        spec_fits_field(spec_pressure_hectos(*reading)),
    ensures
        r.chars() == spec_pressure_chars(*reading),
        r.dots() == DOTS_NONE,
        r.well_formed(),
{
    let hecto_mag: u64 = (reading.mag / 1000) / 100;
    let neg = reading.neg && hecto_mag > 0;
    proof {
        lemma_digits_len(hecto_mag as nat);
    }
    let mut chars: Vec<u8> = Vec::new();
    push_right_justified(&mut chars, neg, hecto_mag, 4);
    chars.push(GLYPH_SPACE);
    chars.push(GLYPH_H);
    chars.push(GLYPH_P);
    chars.push(GLYPH_A);
    assert(chars@ =~= spec_pressure_chars(*reading));
    RenderedDigits { chars, dots: DOTS_NONE }
}

/// The render interval of the responsive sampling loop, in milliseconds: the
/// timer that races against a pending mode update.
pub const RENDER_INTERVAL_MS: u64 = 30;

/// Whether a measurement can be rendered in a given mode: temperature always
/// (it is clamped), humidity and pressure only while their four-cell numeric
/// field does not overflow.
pub open spec fn spec_renderable(mode: DisplayState, m: Measurement) -> bool {
    match mode {
        DisplayState::Temp => true,
        DisplayState::Humidity => spec_fits_field(m.humidity.spec_whole()),
        DisplayState::Pressure => spec_fits_field(spec_pressure_hectos(m.pressure)),
    }
}

/// The glyphs a measurement renders to in a given mode.
pub open spec fn spec_render_chars(mode: DisplayState, m: Measurement) -> Seq<u8> {
    match mode {
        DisplayState::Temp => spec_temperature_chars(m.temperature),
        DisplayState::Humidity => spec_humidity_chars(m.humidity),
        DisplayState::Pressure => spec_pressure_chars(m.pressure),
    }
}

/// The dot mask a measurement renders to in a given mode.
pub open spec fn spec_render_dots(mode: DisplayState, m: Measurement) -> u8 {
    match mode {
        DisplayState::Temp => spec_temperature_dots(m.temperature),
        DisplayState::Humidity => DOTS_NONE,
        DisplayState::Pressure => DOTS_NONE,
    }
}

/// Render a measurement in a given mode.
pub fn render(mode: DisplayState, m: &Measurement) -> (r: RenderedDigits)
    requires
        spec_renderable(mode, *m),
    ensures
        r.chars() == spec_render_chars(mode, *m),
        r.dots() == spec_render_dots(mode, *m),
        r.well_formed(),
{
    match mode {
        DisplayState::Temp => format_temperature(&m.temperature),
        DisplayState::Humidity => format_humidity(&m.humidity),
        DisplayState::Pressure => format_pressure(&m.pressure),
    }
}

/// One resolution of the sampling loop's race: either a published mode
/// arrived first, or the render interval elapsed first. A tick carries the
/// outcome of the measurement attempt, `None` when the sensor read failed.
pub enum SamplerEvent {
    ModeUpdate(DisplayState),
    RenderTick(Option<Measurement>),
}

/// What one event does to the sampler/renderer's remembered mode: a mode
/// update overwrites it, a render tick never touches it.
pub open spec fn spec_step_mode(mode: DisplayState, event: SamplerEvent) -> DisplayState {
    match event {
        SamplerEvent::ModeUpdate(m) => m,
        SamplerEvent::RenderTick(_) => mode,
    }
}

/// The sampler/renderer's own state: nothing but the mode it last heard of.
pub struct SamplerRenderer {
    mode: DisplayState,
}

impl SamplerRenderer {
    /// The mode the next render will use.
    pub closed spec fn mode(self) -> DisplayState {
        self.mode
    }

    /// A fresh sampler/renderer that renders in `initial` until told
    /// otherwise.
    pub fn new(initial: DisplayState) -> (r: SamplerRenderer)
        ensures
            r.mode() == initial,
    {
        SamplerRenderer { mode: initial }
    }

    /// The remembered mode.
    pub fn current_mode(&self) -> (m: DisplayState)
        ensures
            m == self.mode(),
    {
        self.mode
    }

    /// Handle one resolution of the race. A mode update is only remembered:
    /// no measurement is taken and nothing is rendered on its account. A
    /// render tick leaves the mode alone and renders the measurement in the
    /// remembered mode; a failed measurement renders nothing and changes
    /// nothing, so the following tick's attempt is undisturbed.
    pub fn step(&mut self, event: SamplerEvent) -> (r: Option<RenderedDigits>)
        requires
            event matches SamplerEvent::RenderTick(Some(m)) ==> spec_renderable(
                old(self).mode(),
                m,
            ),
        ensures
            final(self).mode() == spec_step_mode(old(self).mode(), event),
            event is ModeUpdate ==> r is None,
            event matches SamplerEvent::RenderTick(reading) ==> (r is Some <==> reading
                is Some),
            event matches SamplerEvent::RenderTick(Some(m)) ==> (r matches Some(d) && d.chars()
                == spec_render_chars(old(self).mode(), m) && d.dots() == spec_render_dots(
                old(self).mode(),
                m,
            ) && d.well_formed()),
    {
        match event {
            SamplerEvent::ModeUpdate(m) => {
                self.mode = m;
                None
            },
            SamplerEvent::RenderTick(reading) => match reading {
                Some(m) => Some(render(self.mode, &m)),
                None => None,
            },
        }
    }
}

/// Law: a failed measurement is transparent. A tick that carries no
/// measurement leaves the remembered mode as it was, and whatever could be
/// rendered before the failure can still be rendered on the following tick.
pub proof fn lemma_failed_tick_is_transparent(mode: DisplayState, m: Measurement)
    requires
        spec_renderable(mode, m),
    ensures
        spec_step_mode(mode, SamplerEvent::RenderTick(None)) == mode,
        spec_renderable(spec_step_mode(mode, SamplerEvent::RenderTick(None)), m),
{
}

} // verus!
