//! The pure half of the render pipeline: formatting the countdown as a
//! zero-padded `MM:SS` clock string, composing the ASCII-art rows of one
//! frame, and planning the vertical layout inside a viewport. Drawing the
//! rows to a terminal is the caller's business.

use vstd::prelude::*;
use crate::font::{TextMapper, SCAN_COUNT, spec_string_scan};

verus! {

/// The decimal digit character for a value below ten.
pub open spec fn spec_digit(d: nat) -> char {
    if d == 0 {
        '0'
    } else if d == 1 {
        '1'
    } else if d == 2 {
        '2'
    } else if d == 3 {
        '3'
    } else if d == 4 {
        '4'
    } else if d == 5 {
        '5'
    } else if d == 6 {
        '6'
    } else if d == 7 {
        '7'
    } else if d == 8 {
        '8'
    } else {
        '9'
    }
}

/// Whether a character is a decimal digit.
pub open spec fn spec_is_digit(c: char) -> bool {
    c == '0' || c == '1' || c == '2' || c == '3' || c == '4' || c == '5' || c == '6' || c == '7'
        || c == '8' || c == '9'
}

/// The numeric value of a decimal digit character.
pub open spec fn spec_digit_val(c: char) -> nat {
    if c == '1' {
        1
    } else if c == '2' {
        2
    } else if c == '3' {
        3
    } else if c == '4' {
        4
    } else if c == '5' {
        5
    } else if c == '6' {
        6
    } else if c == '7' {
        7
    } else if c == '8' {
        8
    } else if c == '9' {
        9
    } else {
        0
    }
}

/// The decimal digits of `n`, most significant first, with no leading zero
/// except for `n == 0` itself.
pub open spec fn spec_decimal(n: nat) -> Seq<char>
    decreases n,
{
    if n < 10 {
        seq![spec_digit(n)]
    } else {
        spec_decimal(n / 10) + seq![spec_digit(n % 10)]
    }
}

/// `n` in decimal, zero-padded on the left to at least two digits.
pub open spec fn spec_padded2(n: nat) -> Seq<char> {
    if n < 10 {
        seq!['0'] + spec_decimal(n)
    } else {
        spec_decimal(n)
    }
}

/// The clock text for a countdown of `n` seconds: minutes and seconds, each
/// zero-padded to at least two digits, separated by a colon. Values of a
/// hundred minutes or more simply widen the minute field.
pub open spec fn spec_clock_text(n: u32) -> Seq<char> {
    spec_padded2((n / 60) as nat) + seq![':'] + spec_padded2((n % 60) as nat)
}

/// The decimal digits of `x`, as a string.
fn decimal_string(x: u32) -> (r: String)
    ensures
        r@ == spec_decimal(x as nat),
    decreases x,
{
    proof {
        reveal_strlit("0");
        reveal_strlit("1");
        reveal_strlit("2");
        reveal_strlit("3");
        reveal_strlit("4");
        reveal_strlit("5");
        reveal_strlit("6");
        reveal_strlit("7");
        reveal_strlit("8");
        reveal_strlit("9");
    }
    if x < 10 {
        let d = match x {
            0 => "0",
            1 => "1",
            2 => "2",
            3 => "3",
            4 => "4",
            5 => "5",
            6 => "6",
            7 => "7",
            8 => "8",
            _ => "9",
        };
        proof {
            assert(d@ =~= seq![spec_digit(x as nat)]);
        }
        String::from_str(d)
    } else {
        let mut r = decimal_string(x / 10);
        let rest = decimal_string(x % 10);
        r.append(rest.as_str());
        proof {
            assert(((x % 10) as nat) < 10);
            assert(r@ =~= spec_decimal(x as nat));
        }
        r
    }
}

/// Format a countdown as the clock text `MM:SS` (widening past 99 minutes).
pub fn format_clock(num_seconds: u32) -> (r: String)
    ensures
        r@ == spec_clock_text(num_seconds),
{
    proof {
        reveal_strlit("0");
        reveal_strlit(":");
    }
    let minutes = num_seconds / 60;
    let seconds = num_seconds % 60;
    let mut r = String::new();
    if minutes < 10 {
        r.append("0");
    }
    let ms = decimal_string(minutes);
    r.append(ms.as_str());
    r.append(":");
    if seconds < 10 {
        r.append("0");
    }
    let ss = decimal_string(seconds);
    r.append(ss.as_str());
    proof {
        assert(r@ =~= spec_clock_text(num_seconds));
    }
    r
}

/// Compose the clock display for a countdown: `SCAN_COUNT` rows of ASCII art
/// rendering the clock text, then — when a header is given — one blank row,
/// the header row, and one more blank row.
pub fn compose_clock(num_seconds: u32, mapper: &TextMapper, header: Option<&str>) -> (r: Vec<
    String,
>)
    requires
        mapper.wf(),
    ensures
        r@.len() == SCAN_COUNT + (if header is Some { 3int } else { 0int }),
        forall|i: int|
            0 <= i < SCAN_COUNT ==> (#[trigger] r@[i])@ == spec_string_scan(
                spec_clock_text(num_seconds),
                i,
            ),
        header matches Some(h) ==> r@[SCAN_COUNT as int]@ == Seq::<char>::empty() && r@[
            SCAN_COUNT + 1
        ]@ == h@ && r@[SCAN_COUNT + 2]@ == Seq::<char>::empty(),
{
    let time = format_clock(num_seconds);
    let mut rows: Vec<String> = Vec::new();
    let num = mapper.get_num_scans();
    let mut i: usize = 0;
    while i < num
        invariant
            mapper.wf(),
            num == SCAN_COUNT,
            i <= num,
            time@ == spec_clock_text(num_seconds),
            rows@.len() == i,
            forall|k: int|
                0 <= k < i ==> (#[trigger] rows@[k])@ == spec_string_scan(
                    spec_clock_text(num_seconds),
                    k,
                ),
        decreases num - i,
    {
        let row = mapper.get_string_scan(time.as_str(), i);
        rows.push(row);
        i += 1;
    }
    if let Some(h) = header {
        rows.push(String::new());
        rows.push(String::from_str(h));
        rows.push(String::new());
    }
    rows
}

/// How one frame fits into a viewport of a given height.
#[derive(PartialEq, Eq, Structural, Clone, Copy, Debug)]
pub enum FramePlan {
    /// The viewport is shorter than the content: render the fallback message
    /// over the whole surface instead of the clock.
    TooSmall,
    /// The content is centered: top padding, content rows, bottom padding,
    /// summing to the surface height. When the leftover space is odd the
    /// extra row goes to the bottom region.
    Centered {
        /// Rows of padding above the content
        top: u16,
        /// Rows of content
        content: u16,
        /// Rows of padding below the content
        bottom: u16,
    },
}

/// The rows a composed frame needs: the glyph rows, plus the three-row
/// header block when a header is shown.
pub open spec fn spec_content_height(has_header: bool) -> int {
    SCAN_COUNT + (if has_header {
        3int
    } else {
        0int
    })
}

/// Plan the vertical layout of one frame inside a viewport: if the surface
/// is shorter than the content, fall back to the too-small message;
/// otherwise center the content, splitting the leftover rows evenly and
/// giving the bottom region any odd row.
pub fn plan_frame(surface_height: u16, mapper: &TextMapper, has_header: bool) -> (r: FramePlan)
    requires
        mapper.wf(),
    ensures
        surface_height < spec_content_height(has_header) ==> r == FramePlan::TooSmall,
        surface_height >= spec_content_height(has_header) ==> r == (FramePlan::Centered {
            top: ((surface_height - spec_content_height(has_header)) / 2) as u16,
            content: spec_content_height(has_header) as u16,
            bottom: (surface_height - spec_content_height(has_header) - (surface_height
                - spec_content_height(has_header)) / 2) as u16,
        }),
        r matches FramePlan::Centered { top, content, bottom } ==> top + content + bottom
            == surface_height && top <= bottom,
{
    let mut text_height: u16 = mapper.get_num_scans() as u16;
    if has_header {
        text_height += 3;
    }
    if surface_height < text_height {
        return FramePlan::TooSmall;
    }
    let space = (surface_height - text_height) / 2;
    FramePlan::Centered {
        top: space,
        content: text_height,
        bottom: surface_height - text_height - space,
    }
}

/// The fallback message shown when the viewport cannot hold the clock.
pub fn too_small_message() -> (r: &'static str)
    ensures
        r@ == "What is this, a terminal for ants?"@,
{
    "What is this, a terminal for ants?"
}

/// For every countdown below one hour the clock text is exactly five
/// characters `MM:SS`: two decimal digits of the minutes, a colon, then two
/// decimal digits of the seconds, each pair zero-padded to width two and
/// decoding back to the minute and second counts.
pub proof fn lemma_clock_format(n: u32)
    requires
        n <= 3599,
    ensures
        spec_clock_text(n).len() == 5,
        spec_clock_text(n)[2] == ':',
        forall|i: int| 0 <= i < 5 && i != 2 ==> spec_is_digit(#[trigger] spec_clock_text(n)[i]),
        spec_digit_val(spec_clock_text(n)[0]) * 10 + spec_digit_val(spec_clock_text(n)[1]) == n
            / 60,
        spec_digit_val(spec_clock_text(n)[3]) * 10 + spec_digit_val(spec_clock_text(n)[4]) == n
            % 60,
{
    lemma_padded2_decodes((n / 60) as nat);
    lemma_padded2_decodes((n % 60) as nat);
}

/// For a value below one hundred the padded field is exactly two decimal
/// digits that decode back to the value.
proof fn lemma_padded2_decodes(m: nat)
    requires
        m < 100,
    ensures
        spec_padded2(m).len() == 2,
        spec_is_digit(spec_padded2(m)[0]),
        spec_is_digit(spec_padded2(m)[1]),
        spec_digit_val(spec_padded2(m)[0]) * 10 + spec_digit_val(spec_padded2(m)[1]) == m,
{
    if m < 10 {
        assert(spec_digit_val(spec_digit(m)) == m);
    } else {
        assert(spec_decimal(m) == spec_decimal(m / 10) + seq![spec_digit(m % 10)]);
        assert(m / 10 < 10);
        assert(spec_digit_val(spec_digit(m / 10)) == m / 10);
        assert(spec_digit_val(spec_digit(m % 10)) == m % 10);
        assert((m / 10) * 10 + m % 10 == m) by (nonlinear_arith)
            requires
                m < 100,
        ;
    }
}

} // verus!
