//! Human-readable reporting of decoded header fields.

use vstd::prelude::*;
use crate::decode::DecodeError;
use crate::decode::decoded;

verus! {

/// The character for a single decimal digit.
pub open spec fn digit_char(d: int) -> char {
    if d == 0 {
        '0'
    } else if d == 1 {
        '1'
    } else if d == 2 {
        '2'
    } else if d == 3 {
        '3'
    } else if d == 4 {
        '4'
    } else if d == 5 {
        '5'
    } else if d == 6 {
        '6'
    } else if d == 7 {
        '7'
    } else if d == 8 {
        '8'
    } else {
        '9'
    }
}

/// The decimal digits of `n`, most significant first; empty when `n` is
/// not positive.
pub open spec fn dec_digits(n: int) -> Seq<char>
    decreases n,
{
    if n <= 0 {
        Seq::empty()
    } else {
        dec_digits(n / 10).push(digit_char(n % 10))
    }
}

/// The usual decimal rendering of a non-negative integer: its digits, with
/// zero written as the single digit `0`.
pub open spec fn dec_str(n: int) -> Seq<char> {
    if n == 0 {
        seq!['0']
    } else {
        dec_digits(n)
    }
}

/// The one-character string for a decimal digit.
fn digit_str(d: u8) -> (r: &'static str)
    requires
        d < 10,
    ensures
        r@ == seq![digit_char(d as int)],
{
    proof {
        reveal_strlit("0");
        reveal_strlit("1");
        reveal_strlit("2");
        reveal_strlit("3");
        reveal_strlit("4");
        reveal_strlit("5");
        reveal_strlit("6");
        reveal_strlit("7");
        reveal_strlit("8");
        reveal_strlit("9");
    }
    let r = if d == 0 {
        "0"
    } else if d == 1 {
        "1"
    } else if d == 2 {
        "2"
    } else if d == 3 {
        "3"
    } else if d == 4 {
        "4"
    } else if d == 5 {
        "5"
    } else if d == 6 {
        "6"
    } else if d == 7 {
        "7"
    } else if d == 8 {
        "8"
    } else {
        "9"
    };
    proof {
        assert(r@ =~= seq![digit_char(d as int)]);
    }
    r
}

/// Appends the decimal digits of `n` to `out`, most significant first;
/// appends nothing when `n` is zero.
fn push_decimal(n: u32, out: &mut String)
    ensures
        final(out)@ == old(out)@ + dec_digits(n as int),
    decreases n,
{
    if n == 0 {
        proof {
            assert(out@ + dec_digits(0) =~= out@);
        }
    } else {
        push_decimal(n / 10, out);
        let d: u8 = (n % 10) as u8;
        out.append(digit_str(d));
        proof {
            assert(old(out)@ + dec_digits(n as int / 10) + seq![digit_char(n as int % 10)]
                =~= old(out)@ + dec_digits(n as int));
        }
    }
}

/// Renders `n` in decimal.
pub fn u32_decimal(n: u32) -> (r: String)
    ensures
        r@ == dec_str(n as int),
{
    let mut r = String::new();
    if n == 0 {
        r.append(digit_str(0));
        proof {
            assert(r@ =~= dec_str(0));
        }
    } else {
        push_decimal(n, &mut r);
        proof {
            assert(r@ =~= dec_str(n as int));
        }
    }
    r
}

/// The text of the report for one input: its name, the pixel dimensions in
/// decimal, and the two labels, each on its own indented line.
pub open spec fn report_text(
    input: Seq<char>,
    width: u32,
    height: u32,
    channel: Seq<char>,
    cs: Seq<char>,
) -> Seq<char> {
    "File "@ + input + ":\n\tSize: "@ + dec_str(width as int) + "x"@ + dec_str(height as int)
        + "\n\tChannels: "@ + channel + "\n\tColorspace: "@ + cs
}

/// Renders the multi-line report for one decoded header, given the input's
/// name and the two already-resolved labels.
pub fn render_report(input: &str, width: u32, height: u32, channel: &str, cs: &str) -> (r: String)
    ensures
        r@ == report_text(input@, width, height, channel@, cs@),
{
    let mut r = String::from_str("File ");
    r.append(input);
    r.append(":\n\tSize: ");
    let w = u32_decimal(width);
    r.append(w.as_str());
    r.append("x");
    let h = u32_decimal(height);
    r.append(h.as_str());
    r.append("\n\tChannels: ");
    r.append(channel);
    r.append("\n\tColorspace: ");
    r.append(cs);
    proof {
        assert(r@ =~= report_text(input@, width, height, channel@, cs@));
    }
    r
}

/// Decodes the header at the start of `source` and renders the report for
/// it, naming the input `input`; any decode failure is handed back
/// unchanged.
pub fn describe(input: &str, source: &Vec<u8>) -> (r: Result<String, DecodeError>)
    ensures
        match decoded(source@) {
            Ok(h) => r matches Ok(text) && text@ == report_text(
                input@,
                h.width,
                h.height,
                label_of_channels(h.channels),
                label_of_colorspace(h.colorspace),
            ),
            Err(e) => r == Err::<String, DecodeError>(e),
        },
{
    match crate::decode::decode_header(source) {
        Ok(h) => {
            let channel = channels_label(h.channels);
            let cs = colorspace_label(h.colorspace);
            Ok(render_report(input, h.width, h.height, channel, cs))
        },
        Err(e) => Err(e),
    }
}

/// The label for a channels byte: 3 is `RGB`, 4 is `RGBA`.
pub open spec fn label_of_channels(channels: u8) -> Seq<char> {
    if channels == 3 {
        "RGB"@
    } else {
        "RGBA"@
    }
}

/// Maps a valid channels byte to its label.
pub fn channels_label(channels: u8) -> (r: &'static str)
    requires
        channels == 3 || channels == 4,
    ensures
        r@ == label_of_channels(channels),
{
    if channels == 3 {
        "RGB"
    } else {
        "RGBA"
    }
}

/// The label for a colorspace byte: 0 is sRGB with linear alpha, 1 is all
/// channels linear.
pub open spec fn label_of_colorspace(colorspace: u8) -> Seq<char> {
    if colorspace == 0 {
        "sRGB with linear alpha"@
    } else {
        "all channels linear"@
    }
}

/// Maps a valid colorspace byte to its label.
pub fn colorspace_label(colorspace: u8) -> (r: &'static str)
    requires
        colorspace == 0 || colorspace == 1,
    ensures
        r@ == label_of_colorspace(colorspace),
{
    if colorspace == 0 {
        "sRGB with linear alpha"
    } else {
        "all channels linear"
    }
}

} // verus!
