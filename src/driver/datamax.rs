//! Datamax print language.
//!
//! A [`Datamax`] session encodes each command into the exact bytes the printer
//! expects and keeps them, in the order issued, until the caller takes them
//! for the print job.
use vstd::prelude::*;

use crate::codepage::{push_text, text_bytes};
use crate::decimal::{padded, push_padded, DIGIT_ZERO};

verus! {

/// Start of a label.
pub const STX: u8 = 0x02;

/// Terminator of every command.
pub const CR: u8 = 0x0D;

/// Escape, which opens the character-spacing command.
pub const ESC: u8 = 0x1B;

/// Text rotation in steps of 90 degrees.
#[derive(Debug, Clone, Copy, PartialEq, Eq, Structural)]
pub enum Rotate {
    Rotate0,
    Rotate90,
    Rotate180,
    Rotate270,
}

/// Feed speeds, from the slowest to the fastest.
#[derive(Debug, Clone, Copy, PartialEq, Eq, Structural)]
pub enum FeedSpeed {
    Speed50mm,
    Speed76mm,
    Speed101mm,
    Speed127mm,
    Speed152mm,
    Speed177mm,
    Speed203mm,
    Speed228mm,
    Speed254mm,
    Speed279mm,
    Speed304mm,
}

/// Point sizes of the scalable font.
#[derive(Debug, Clone, Copy, PartialEq, Eq, Structural)]
pub enum ScaleSize {
    S4,
    S6,
    S8,
    S10,
    S12,
    S14,
    S18,
    S24,
    S30,
    S36,
    S48,
    S72,
}

/// The digit that selects a rotation: `1` to `4`.
pub open spec fn rotate_code(rotate: Rotate) -> u8 {
    match rotate {
        Rotate::Rotate0 => 0x31,
        Rotate::Rotate90 => 0x32,
        Rotate::Rotate180 => 0x33,
        Rotate::Rotate270 => 0x34,
    }
}

/// The character that selects a feed speed: `1`, `3` to `9`, `a` to `c`.
pub open spec fn feed_speed_code(speed: FeedSpeed) -> u8 {
    match speed {
        FeedSpeed::Speed50mm => 0x31,
        FeedSpeed::Speed76mm => 0x33,
        FeedSpeed::Speed101mm => 0x34,
        FeedSpeed::Speed127mm => 0x35,
        FeedSpeed::Speed152mm => 0x36,
        FeedSpeed::Speed177mm => 0x37,
        FeedSpeed::Speed203mm => 0x38,
        FeedSpeed::Speed228mm => 0x39,
        FeedSpeed::Speed254mm => 0x61,
        FeedSpeed::Speed279mm => 0x62,
        FeedSpeed::Speed304mm => 0x63,
    }
}

/// The size in points.
pub open spec fn scale_points(size: ScaleSize) -> u8 {
    match size {
        ScaleSize::S4 => 4,
        ScaleSize::S6 => 6,
        ScaleSize::S8 => 8,
        ScaleSize::S10 => 10,
        ScaleSize::S12 => 12,
        ScaleSize::S14 => 14,
        ScaleSize::S18 => 18,
        ScaleSize::S24 => 24,
        ScaleSize::S30 => 30,
        ScaleSize::S36 => 36,
        ScaleSize::S48 => 48,
        ScaleSize::S72 => 72,
    }
}

/// The character for an expansion factor: `1` to `9` for 1 to 9, `J` to `X`
/// for 10 to 24, and `1` for anything else.
pub open spec fn expansion_code(expand: u8) -> u8 {
    if 1 <= expand <= 9 {
        (DIGIT_ZERO + expand) as u8
    } else if 10 <= expand <= 24 {
        (0x40 + expand) as u8
    } else {
        0x31
    }
}

fn rotate_digit(rotate: Rotate) -> (r: u8)
    ensures
        r == rotate_code(rotate),
{
    match rotate {
        Rotate::Rotate0 => '1' as u8,
        Rotate::Rotate90 => '2' as u8,
        Rotate::Rotate180 => '3' as u8,
        Rotate::Rotate270 => '4' as u8,
    }
}

/// The character that selects `speed`.
pub fn feed_speed(speed: FeedSpeed) -> (r: u8)
    ensures
        r == feed_speed_code(speed),
{
    match speed {
        FeedSpeed::Speed50mm => '1' as u8,
        FeedSpeed::Speed76mm => '3' as u8,
        FeedSpeed::Speed101mm => '4' as u8,
        FeedSpeed::Speed127mm => '5' as u8,
        FeedSpeed::Speed152mm => '6' as u8,
        FeedSpeed::Speed177mm => '7' as u8,
        FeedSpeed::Speed203mm => '8' as u8,
        FeedSpeed::Speed228mm => '9' as u8,
        FeedSpeed::Speed254mm => 'a' as u8,
        FeedSpeed::Speed279mm => 'b' as u8,
        FeedSpeed::Speed304mm => 'c' as u8,
    }
}

/// The size of `size` in points.
pub fn scale_size(size: ScaleSize) -> (r: u8)
    ensures
        r == scale_points(size),
{
    match size {
        ScaleSize::S4 => 4,
        ScaleSize::S6 => 6,
        ScaleSize::S8 => 8,
        ScaleSize::S10 => 10,
        ScaleSize::S12 => 12,
        ScaleSize::S14 => 14,
        ScaleSize::S18 => 18,
        ScaleSize::S24 => 24,
        ScaleSize::S30 => 30,
        ScaleSize::S36 => 36,
        ScaleSize::S48 => 48,
        ScaleSize::S72 => 72,
    }
}

/// The character for the expansion factor `expand`.
pub fn expansion(expand: u8) -> (r: u8)
    ensures
        r == expansion_code(expand),
        1 <= expand <= 9 ==> r == ('0' as u8) + expand,
        10 <= expand <= 24 ==> r == ('@' as u8) + expand,
        expand == 0 || expand > 24 ==> r == ('1' as u8),
{
    if 1 <= expand && expand <= 9 {
        ('0' as u8) + expand
    } else if 10 <= expand && expand <= 24 {
        ('@' as u8) + expand
    } else {
        '1' as u8
    }
}

/// Style of text in the scalable font.
#[derive(Debug, Clone, Copy, PartialEq, Eq, Structural)]
pub struct TextScale {
    pub rotate: Rotate,
    pub hor_expand: u8,
    pub vert_expand: u8,
    pub bold: bool,
    pub size: ScaleSize,
}

impl Default for TextScale {
    fn default() -> (r: Self)
        ensures
            r == (TextScale {
                rotate: Rotate::Rotate0,
                hor_expand: 1,
                vert_expand: 1,
                bold: false,
                size: ScaleSize::S4,
            }),
    {
        TextScale {
            rotate: Rotate::Rotate0,
            hor_expand: 1,
            vert_expand: 1,
            bold: false,
            size: ScaleSize::S4,
        }
    }
}

impl TextScale {
    /// Upright, unexpanded, normal weight, 4 points.
    pub fn new() -> (r: Self)
        ensures
            r == (TextScale {
                rotate: Rotate::Rotate0,
                hor_expand: 1,
                vert_expand: 1,
                bold: false,
                size: ScaleSize::S4,
            }),
    {
        Self::default()
    }

    pub fn rotate(self, rotate: Rotate) -> (r: Self)
        ensures
            r == (TextScale { rotate, ..self }),
    {
        TextScale { rotate, ..self }
    }

    pub fn hor_expand(self, expand: u8) -> (r: Self)
        ensures
            r == (TextScale { hor_expand: expand, ..self }),
    {
        TextScale { hor_expand: expand, ..self }
    }

    pub fn vert_expand(self, expand: u8) -> (r: Self)
        ensures
            r == (TextScale { vert_expand: expand, ..self }),
    {
        TextScale { vert_expand: expand, ..self }
    }

    pub fn bold(self) -> (r: Self)
        ensures
            r == (TextScale { bold: true, ..self }),
    {
        TextScale { bold: true, ..self }
    }

    pub fn size(self, size: ScaleSize) -> (r: Self)
        ensures
            r == (TextScale { size, ..self }),
    {
        TextScale { size, ..self }
    }
}

/// Style of text in one of the printer's built-in fonts.
#[derive(Debug, Clone, Copy, PartialEq, Eq, Structural)]
pub struct TextSys {
    pub rotate: Rotate,
    pub font: u8,
    pub hor_expand: u8,
    pub vert_expand: u8,
}

impl Default for TextSys {
    fn default() -> (r: Self)
        ensures
            r == (TextSys { rotate: Rotate::Rotate0, font: 0, hor_expand: 1, vert_expand: 1 }),
    {
        TextSys { rotate: Rotate::Rotate0, font: 0, hor_expand: 1, vert_expand: 1 }
    }
}

impl TextSys {
    /// Upright, font 0, unexpanded.
    pub fn new() -> (r: Self)
        ensures
            r == (TextSys { rotate: Rotate::Rotate0, font: 0, hor_expand: 1, vert_expand: 1 }),
    {
        Self::default()
    }

    pub fn rotate(self, rotate: Rotate) -> (r: Self)
        ensures
            r == (TextSys { rotate, ..self }),
    {
        TextSys { rotate, ..self }
    }

    pub fn font(self, font: u8) -> (r: Self)
        ensures
            r == (TextSys { font, ..self }),
    {
        TextSys { font, ..self }
    }

    pub fn hor_expand(self, expand: u8) -> (r: Self)
        ensures
            r == (TextSys { hor_expand: expand, ..self }),
    {
        TextSys { hor_expand: expand, ..self }
    }

    pub fn vert_expand(self, expand: u8) -> (r: Self)
        ensures
            r == (TextSys { vert_expand: expand, ..self }),
    {
        TextSys { vert_expand: expand, ..self }
    }
}

/// Bytes that open a label.
pub open spec fn start_label_bytes() -> Seq<u8> {
    seq![STX, 'L' as u8, CR]
}

/// Bytes that end a label and print it.
pub open spec fn end_label_bytes() -> Seq<u8> {
    seq!['E' as u8, CR]
}

/// Bytes that set the print density.
pub open spec fn density_bytes(density: u8) -> Seq<u8> {
    seq!['H' as u8] + padded(density as nat, 2) + seq![CR]
}

/// Bytes that switch the printer to metric units.
pub open spec fn metric_bytes() -> Seq<u8> {
    seq!['m' as u8, CR]
}

/// Bytes that set a feed speed; `selector` names which one.
pub open spec fn speed_bytes(selector: char, speed: FeedSpeed) -> Seq<u8> {
    seq![selector as u8, feed_speed_code(speed), CR]
}

/// Bytes that set the pixel size.
pub open spec fn pixel_size_bytes(size_hor: u8, size_vert: u8) -> Seq<u8> {
    seq!['D' as u8] + padded(size_hor as nat, 1) + padded(size_vert as nat, 1) + seq![CR]
}

/// Bytes that set the number of copies.
pub open spec fn copies_bytes(copies: u16) -> Seq<u8> {
    seq!['Q' as u8] + padded(copies as nat, 4) + seq![CR]
}

/// Bytes that set the spacing between characters.
pub open spec fn spacing_bytes(space: u8) -> Seq<u8> {
    seq![ESC, 'P' as u8] + padded(space as nat, 2) + seq![CR]
}

/// Bytes that select a print mode: `5` reverse, `3` normal.
pub open spec fn mode_bytes(mode: char) -> Seq<u8> {
    seq!['A' as u8, mode as u8, CR]
}

/// Bytes that set the horizontal offset.
pub open spec fn offset_bytes(dist: u32) -> Seq<u8> {
    seq!['C' as u8] + padded(dist as nat, 4) + seq![CR]
}

/// Bytes of a text in a built-in font at row `row`, column `col`.
pub open spec fn sys_text_bytes(param: TextSys, row: u16, col: u16, text: Seq<char>) -> Seq<u8> {
    seq![rotate_code(param.rotate)] + padded(param.font as nat, 1) + seq![
        expansion_code(param.hor_expand),
        expansion_code(param.vert_expand),
        DIGIT_ZERO,
        DIGIT_ZERO,
        DIGIT_ZERO,
    ] + padded(row as nat, 4) + padded(col as nat, 4) + text_bytes(text) + seq![CR]
}

/// The letter that selects the weight of the scalable font.
pub open spec fn weight_code(bold: bool) -> u8 {
    if bold {
        'C' as u8
    } else {
        'A' as u8
    }
}

/// Bytes of a text in the scalable font at row `row`, column `col`.
pub open spec fn scale_text_bytes(param: TextScale, row: u16, col: u16, text: Seq<char>) -> Seq<
    u8,
> {
    seq![
        rotate_code(param.rotate),
        '9' as u8,
        expansion_code(param.hor_expand),
        expansion_code(param.vert_expand),
        weight_code(param.bold),
    ] + padded(scale_points(param.size) as nat, 2) + padded(row as nat, 4) + padded(col as nat, 4)
        + text_bytes(text) + seq![CR]
}

/// A Datamax session: whether the printer was put into metric units, and the
/// encoded commands not yet handed to the print job.
#[derive(Debug)]
pub struct Datamax {
    metric: bool,
    out: Vec<u8>,
}

impl Datamax {
    /// The encoded bytes not yet taken, in the order the commands were issued.
    pub closed spec fn pending(&self) -> Seq<u8> {
        self.out@
    }

    /// Whether the session has switched the printer to metric units.
    pub closed spec fn metric_mode(&self) -> bool {
        self.metric
    }

    /// A session in imperial units with nothing encoded yet.
    pub fn new() -> (r: Self)
        ensures
            r.pending() == Seq::<u8>::empty(),
            !r.metric_mode(),
    {
        Datamax { metric: false, out: Vec::new() }
    }

    /// Whether positions are in tenths of a millimetre rather than hundredths
    /// of an inch.
    pub fn is_metric(&self) -> (r: bool)
        ensures
            r == self.metric_mode(),
    {
        self.metric
    }

    /// The encoded bytes not yet taken.
    pub fn output(&self) -> (r: &[u8])
        ensures
            r@ == self.pending(),
    {
        self.out.as_slice()
    }

    /// Hands over the encoded bytes and starts afresh; the unit mode stays.
    pub fn take_output(&mut self) -> (r: Vec<u8>)
        ensures
            r@ == old(self).pending(),
            final(self).pending() == Seq::<u8>::empty(),
            final(self).metric_mode() == old(self).metric_mode(),
    {
        let mut r: Vec<u8> = Vec::new();
        r.append(&mut self.out);
        r
    }

    /// Starts a label.
    pub fn start_label(&mut self)
        ensures
            final(self).pending() == old(self).pending() + start_label_bytes(),
            final(self).metric_mode() == old(self).metric_mode(),
    {
        self.out.push(STX);
        self.out.push('L' as u8);
        self.out.push(CR);
        assert(self.out@ =~= old(self).out@ + start_label_bytes());
    }

    /// Ends the label and prints it.
    pub fn end_label(&mut self)
        ensures
            final(self).pending() == old(self).pending() + end_label_bytes(),
            final(self).metric_mode() == old(self).metric_mode(),
    {
        self.out.push('E' as u8);
        self.out.push(CR);
        assert(self.out@ =~= old(self).out@ + end_label_bytes());
    }

    /// Print density (0 to 30).
    pub fn print_density(&mut self, density: u8)
        ensures
            final(self).pending() == old(self).pending() + density_bytes(density),
            final(self).metric_mode() == old(self).metric_mode(),
    {
        self.out.push('H' as u8);
        push_padded(&mut self.out, density as u32, 2);
        self.out.push(CR);
        assert(self.out@ =~= old(self).out@ + density_bytes(density));
    }

    /// Switches to metric units: later positions are in tenths of a millimetre.
    pub fn metric(&mut self)
        ensures
            final(self).pending() == old(self).pending() + metric_bytes(),
            final(self).metric_mode(),
    {
        self.metric = true;
        self.out.push('m' as u8);
        self.out.push(CR);
        assert(self.out@ =~= old(self).out@ + metric_bytes());
    }

    fn push_speed(&mut self, selector: char, speed: FeedSpeed)
        requires
            (selector as u32) < 0x80,
        ensures
            final(self).pending() == old(self).pending() + speed_bytes(selector, speed),
            final(self).metric_mode() == old(self).metric_mode(),
    {
        self.out.push(selector as u8);
        self.out.push(feed_speed(speed));
        self.out.push(CR);
        assert(self.out@ =~= old(self).out@ + speed_bytes(selector, speed));
    }

    /// Speed while printing.
    pub fn printable_speed(&mut self, speed: FeedSpeed)
        ensures
            final(self).pending() == old(self).pending() + speed_bytes('P', speed),
            final(self).metric_mode() == old(self).metric_mode(),
    {
        self.push_speed('P', speed);
    }

    /// Speed across empty stretches.
    pub fn unprintable_speed(&mut self, speed: FeedSpeed)
        ensures
            final(self).pending() == old(self).pending() + speed_bytes('S', speed),
            final(self).metric_mode() == old(self).metric_mode(),
    {
        self.push_speed('S', speed);
    }

    /// Speed of the backfeed.
    pub fn backfeed_speed(&mut self, speed: FeedSpeed)
        ensures
            final(self).pending() == old(self).pending() + speed_bytes('p', speed),
            final(self).metric_mode() == old(self).metric_mode(),
    {
        self.push_speed('p', speed);
    }

    /// Pixel size: horizontal (1, 2) and vertical (1, 2, 3).
    pub fn pixel_size(&mut self, size_hor: u8, size_vert: u8)
        ensures
            final(self).pending() == old(self).pending() + pixel_size_bytes(size_hor, size_vert),
            final(self).metric_mode() == old(self).metric_mode(),
    {
        self.out.push('D' as u8);
        push_padded(&mut self.out, size_hor as u32, 1);
        push_padded(&mut self.out, size_vert as u32, 1);
        self.out.push(CR);
        assert(self.out@ =~= old(self).out@ + pixel_size_bytes(size_hor, size_vert));
    }

    /// Number of copies to print.
    pub fn copies(&mut self, copies: u16)
        ensures
            final(self).pending() == old(self).pending() + copies_bytes(copies),
            final(self).metric_mode() == old(self).metric_mode(),
    {
        self.out.push('Q' as u8);
        push_padded(&mut self.out, copies as u32, 4);
        self.out.push(CR);
        assert(self.out@ =~= old(self).out@ + copies_bytes(copies));
    }

    /// Spacing between characters.
    pub fn spacing(&mut self, space: u8)
        ensures
            final(self).pending() == old(self).pending() + spacing_bytes(space),
            final(self).metric_mode() == old(self).metric_mode(),
    {
        self.out.push(ESC);
        self.out.push('P' as u8);
        push_padded(&mut self.out, space as u32, 2);
        self.out.push(CR);
        assert(self.out@ =~= old(self).out@ + spacing_bytes(space));
    }

    /// Prints reversed.
    pub fn reverse(&mut self)
        ensures
            final(self).pending() == old(self).pending() + mode_bytes('5'),
            final(self).metric_mode() == old(self).metric_mode(),
    {
        self.out.push('A' as u8);
        self.out.push('5' as u8);
        self.out.push(CR);
        assert(self.out@ =~= old(self).out@ + mode_bytes('5'));
    }

    /// Prints normally, overlaying.
    pub fn normal(&mut self)
        ensures
            final(self).pending() == old(self).pending() + mode_bytes('3'),
            final(self).metric_mode() == old(self).metric_mode(),
    {
        self.out.push('A' as u8);
        self.out.push('3' as u8);
        self.out.push(CR);
        assert(self.out@ =~= old(self).out@ + mode_bytes('3'));
    }

    /// Horizontal offset.
    pub fn offset_x(&mut self, dist: u32)
        ensures
            final(self).pending() == old(self).pending() + offset_bytes(dist),
            final(self).metric_mode() == old(self).metric_mode(),
    {
        self.out.push('C' as u8);
        push_padded(&mut self.out, dist, 4);
        self.out.push(CR);
        assert(self.out@ =~= old(self).out@ + offset_bytes(dist));
    }

    /// Text in a built-in font: font 0 to 8, expansion 1 to 24, row and
    /// column 0 to 9999 in hundredths of an inch, or tenths of a millimetre
    /// after `metric`. Characters outside code page 850 print as `_`.
    pub fn text_sys(&mut self, param: TextSys, row_pos: u16, col_pos: u16, data: &str)
        ensures
            final(self).pending() == old(self).pending() + sys_text_bytes(
                param,
                row_pos,
                col_pos,
                data@,
            ),
            final(self).metric_mode() == old(self).metric_mode(),
    {
        self.out.push(rotate_digit(param.rotate));
        push_padded(&mut self.out, param.font as u32, 1);
        self.out.push(expansion(param.hor_expand));
        self.out.push(expansion(param.vert_expand));
        self.out.push(DIGIT_ZERO);
        self.out.push(DIGIT_ZERO);
        self.out.push(DIGIT_ZERO);
        push_padded(&mut self.out, row_pos as u32, 4);
        push_padded(&mut self.out, col_pos as u32, 4);
        push_text(&mut self.out, data);
        self.out.push(CR);
        assert(self.out@ =~= old(self).out@ + sys_text_bytes(param, row_pos, col_pos, data@));
    }

    /// Text in the scalable font: expansion 1 to 24, size 4 to 72 points,
    /// row and column as for `text_sys`.
    pub fn text_scale(&mut self, param: TextScale, row_pos: u16, col_pos: u16, data: &str)
        ensures
            final(self).pending() == old(self).pending() + scale_text_bytes(
                param,
                row_pos,
                col_pos,
                data@,
            ),
            final(self).metric_mode() == old(self).metric_mode(),
    {
        self.out.push(rotate_digit(param.rotate));
        self.out.push('9' as u8);
        self.out.push(expansion(param.hor_expand));
        self.out.push(expansion(param.vert_expand));
        let weight = if param.bold {
            'C' as u8
        } else {
            'A' as u8
        };
        self.out.push(weight);
        push_padded(&mut self.out, scale_size(param.size) as u32, 2);
        push_padded(&mut self.out, row_pos as u32, 4);
        push_padded(&mut self.out, col_pos as u32, 4);
        push_text(&mut self.out, data);
        self.out.push(CR);
        assert(self.out@ =~= old(self).out@ + scale_text_bytes(param, row_pos, col_pos, data@));
    }
}

/// Encoding is deterministic and free of side effects: the bytes that a text
/// command adds to a session depend on its parameters alone, not on what the
/// session already holds.
pub proof fn encoding_is_deterministic(
    held1: Seq<u8>,
    held2: Seq<u8>,
    sys: TextSys,
    scale: TextScale,
    row: u16,
    col: u16,
    text: Seq<char>,
)
    ensures
        (held1 + sys_text_bytes(sys, row, col, text)).skip(held1.len() as int) == (held2
            + sys_text_bytes(sys, row, col, text)).skip(held2.len() as int),
        (held1 + scale_text_bytes(scale, row, col, text)).skip(held1.len() as int) == (held2
            + scale_text_bytes(scale, row, col, text)).skip(held2.len() as int),
{
    assert((held1 + sys_text_bytes(sys, row, col, text)).skip(held1.len() as int)
        =~= sys_text_bytes(sys, row, col, text));
    assert((held2 + sys_text_bytes(sys, row, col, text)).skip(held2.len() as int)
        =~= sys_text_bytes(sys, row, col, text));
    assert((held1 + scale_text_bytes(scale, row, col, text)).skip(held1.len() as int)
        =~= scale_text_bytes(scale, row, col, text));
    assert((held2 + scale_text_bytes(scale, row, col, text)).skip(held2.len() as int)
        =~= scale_text_bytes(scale, row, col, text));
}

} // verus!
