use vstd::prelude::*;

verus! {

pub const BUTTON_LEFT: u8 = 0;

pub const BUTTON_MIDDLE: u8 = 1;

pub const BUTTON_RIGHT: u8 = 2;

pub const BUTTON_RELEASE: u8 = 3;

pub const BUTTON_SCROLL_UP: u8 = 64;

pub const BUTTON_SCROLL_DOWN: u8 = 65;

/// The decimal digits of `n`, most significant first, as ASCII bytes.
pub open spec fn dec_bytes(n: int) -> Seq<u8>
    decreases n,
{
    if n < 10 {
        seq![(48 + n) as u8]
    } else {
        dec_bytes(n / 10).push((48 + n % 10) as u8)
    }
}

/// Appends the decimal digits of `n` to the buffer.
fn push_decimal(out: &mut Vec<u8>, n: usize)
    ensures
        final(out)@ == old(out)@ + dec_bytes(n as int),
    decreases n,
{
    if n < 10 {
        out.push(48 + (n as u8));
        proof {
            assert(out@ =~= old(out)@ + dec_bytes(n as int));
        }
    } else {
        push_decimal(out, n / 10);
        out.push(48 + ((n % 10) as u8));
        proof {
            assert(out@ =~= old(out)@ + dec_bytes(n as int));
        }
    }
}

/// The SGR mouse report for a press or release at 1-based `(col+1, row+1)`:
/// `ESC [ < Pb ; Px ; Py` ending in `M` for a press and `m` for a release.
pub open spec fn sgr_report(button: u8, col: int, row: int, pressed: bool) -> Seq<u8> {
    seq![27u8, 91u8, 60u8]
        + dec_bytes(button as int)
        + seq![59u8]
        + dec_bytes(col + 1)
        + seq![59u8]
        + dec_bytes(row + 1)
        + seq![if pressed { 77u8 } else { 109u8 }]
}

/// Encodes a mouse event in SGR format: `ESC [ < Pb ; Px ; Py M` for a
/// press, the trailing byte `m` for a release; column and row become
/// 1-based on the wire.
pub fn encode_sgr(button: u8, col: usize, row: usize, pressed: bool) -> (r: Vec<u8>)
    requires
        col < usize::MAX,
        row < usize::MAX,
    ensures
        r@ == sgr_report(button, col as int, row as int, pressed),
{
    let mut out: Vec<u8> = Vec::new();
    out.push(27);
    out.push(91);
    out.push(60);
    push_decimal(&mut out, button as usize);
    out.push(59);
    push_decimal(&mut out, col + 1);
    out.push(59);
    push_decimal(&mut out, row + 1);
    out.push(if pressed { 77 } else { 109 });
    proof {
        assert(out@ =~= sgr_report(button, col as int, row as int, pressed));
    }
    out
}

/// The legacy X10 mouse report: `ESC [ M Cb Cx Cy` with `Cb = 32+button`
/// and `Cx`/`Cy` the 1-based position capped at 223, offset by 32.
pub open spec fn normal_report(button: u8, col: int, row: int) -> Seq<u8> {
    seq![
        27u8,
        91u8,
        77u8,
        (32 + button) as u8,
        (32 + spec_min_int(col + 1, 223)) as u8,
        (32 + spec_min_int(row + 1, 223)) as u8,
    ]
}

/// The smaller of two integers.
pub open spec fn spec_min_int(a: int, b: int) -> int {
    if a <= b { a } else { b }
}

/// Encodes a mouse event in the legacy X10 format.
pub fn encode_normal(button: u8, col: usize, row: usize) -> (r: Vec<u8>)
    requires
        button <= 223,
        col < usize::MAX,
        row < usize::MAX,
    ensures
        r@ == normal_report(button, col as int, row as int),
{
    let cb = 32 + button;
    let cx = 32 + (if col + 1 <= 223 { col + 1 } else { 223 }) as u8;
    let cy = 32 + (if row + 1 <= 223 { row + 1 } else { 223 }) as u8;
    let mut out: Vec<u8> = Vec::new();
    out.push(27);
    out.push(91);
    out.push(77);
    out.push(cb);
    out.push(cx);
    out.push(cy);
    proof {
        assert(out@ =~= normal_report(button, col as int, row as int));
    }
    out
}

} // verus!
