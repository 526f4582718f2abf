use vstd::prelude::*;

verus! {

pub const RED_SHIFT: u32 = 16;
pub const GREEN_SHIFT: u32 = 8;
pub const BLUE_SHIFT: u32 = 0;

/// The colour written for a pixel with a positive exponent.
pub const SENTINEL: u32 = 0;

/// Number of stops of the colour gradient.
pub const GRADIENT_LEN: usize = 5;

pub open spec fn clamp_spec(v: int) -> int {
    if v < 0 { 0 } else if v > 255 { 255 } else { v }
}

/// A channel of the linear ramp: zero outside its input interval (`None`),
/// else the rounded mapped value clamped to a byte.
pub open spec fn channel_spec(v: Option<i64>) -> int {
    match v {
        Some(x) => clamp_spec(x as int),
        None => 0,
    }
}

pub open spec fn pack_spec(r: int, g: int, b: int) -> int {
    r * 65536 + g * 256 + b
}

pub open spec fn gradient_stop_spec(i: int) -> u32 {
    if i == 0 { 0x161c31u32 }
    else if i == 1 { 0x613c62u32 }
    else if i == 2 { 0xb75f74u32 }
    else if i == 3 { 0xf29a6bu32 }
    else { 0xfaec70u32 }
}

/// The sentinel override: chaotic pixels are not shaded by magnitude.
pub fn pixel_color(chaotic: bool, shaded: u32) -> (r: u32)
    ensures
        r == (if chaotic { SENTINEL } else { shaded }),
{
    if chaotic { SENTINEL } else { shaded }
}

/// Clamps a rounded channel value to `[0, 255]`.
pub fn clamp_channel(v: i64) -> (r: u32)
    ensures
        r == clamp_spec(v as int),
        r <= 255,
{
    if v < 0 {
        0
    } else if v > 255 {
        255
    } else {
        v as u32
    }
}

/// One channel of the linear ramp, from its rounded mapped value, or `None`
/// where the exponent lies outside the channel's input interval.
pub fn channel_value(v: Option<i64>) -> (r: u32)
    ensures
        r == channel_spec(v),
        r <= 255,
{
    match v {
        Some(x) => clamp_channel(x),
        None => 0,
    }
}

/// Packs three byte channels as `(r << 16) | (g << 8) | b`.
pub fn pack_rgb(r: u32, g: u32, b: u32) -> (c: u32)
    requires
        r <= 255,
        g <= 255,
        b <= 255,
    ensures
        c == pack_spec(r as int, g as int, b as int),
        c == (r << RED_SHIFT) | (g << GREEN_SHIFT) | (b << BLUE_SHIFT),
        c <= 0xffffff,
{
    let c = (r << RED_SHIFT) | (g << GREEN_SHIFT) | (b << BLUE_SHIFT);
    assert(c == r * 65536 + g * 256 + b && c <= 0xffffff) by (bit_vector)
        requires
            r <= 255,
            g <= 255,
            b <= 255,
            c == (r << 16u32) | (g << 8u32) | (b << 0u32),
    ;
    c
}

/// The linear-ramp colour from the three channels' rounded values.
pub fn ramp_color(red: Option<i64>, green: Option<i64>, blue: Option<i64>) -> (c: u32)
    ensures
        c == pack_spec(channel_spec(red), channel_spec(green), channel_spec(blue)),
        c <= 0xffffff,
{
    let r = channel_value(red);
    let g = channel_value(green);
    let b = channel_value(blue);
    pack_rgb(r, g, b)
}

/// The `i`-th stop colour of the gradient.
pub fn gradient_stop(i: usize) -> (c: u32)
    requires
        i < GRADIENT_LEN,
    ensures
        c == gradient_stop_spec(i as int),
{
    if i == 0 {
        0x161c31
    } else if i == 1 {
        0x613c62
    } else if i == 2 {
        0xb75f74
    } else if i == 3 {
        0xf29a6b
    } else {
        0xfaec70
    }
}

/// The bracket that the gradient scan selects: `below[i]` tells whether the
/// `i`-th breakpoint lies strictly below the exponent. The scan starts at
/// index one and stops at the first breakpoint that does not.
pub fn bracket_index(below: &Vec<bool>) -> (pos: usize)
    requires
        below@.len() >= 1,
    ensures
        1 <= pos <= below@.len(),
        forall|j: int| 1 <= j < pos ==> #[trigger] below@[j],
        pos == below@.len() || !below@[pos as int],
{
    let mut pos: usize = 1;
    while pos < below.len() && below[pos]
        invariant
            1 <= pos <= below@.len(),
            forall|j: int| 1 <= j < pos ==> #[trigger] below@[j],
        decreases below@.len() - pos,
    {
        pos = pos + 1;
    }
    pos
}

/// The stop colours at both ends of bracket `pos`, or `None` where the
/// gradient holds no stop for its upper end.
pub fn gradient_bracket(pos: usize) -> (r: Option<(u32, u32)>)
    ensures
        r is Some <==> 1 <= pos < GRADIENT_LEN,
        r matches Some(p) ==> p.0 == gradient_stop_spec(pos - 1) && p.1 == gradient_stop_spec(
            pos as int,
        ),
{
    if pos >= 1 && pos < GRADIENT_LEN {
        Some((gradient_stop(pos - 1), gradient_stop(pos)))
    } else {
        None
    }
}

/// Within a channel's interval a larger rounded value never gives a darker
/// channel, and outside it the channel is exactly zero.
pub proof fn lemma_channel_monotone(x: i64, y: i64)
    requires
        x <= y,
    ensures
        channel_spec(Some(x)) <= channel_spec(Some(y)),
        channel_spec(None) == 0,
{
}

/// Channels at distinct byte positions do not bleed into each other: each is
/// recovered from the packed colour.
pub proof fn lemma_pack_separates(r: int, g: int, b: int)
    requires
        0 <= r <= 255,
        0 <= g <= 255,
        0 <= b <= 255,
    ensures
        pack_spec(r, g, b) / 65536 == r,
        (pack_spec(r, g, b) / 256) % 256 == g,
        pack_spec(r, g, b) % 256 == b,
{
    assert(pack_spec(r, g, b) / 65536 == r) by (nonlinear_arith)
        requires 0 <= r <= 255, 0 <= g <= 255, 0 <= b <= 255;
    assert((pack_spec(r, g, b) / 256) % 256 == g) by (nonlinear_arith)
        requires 0 <= r <= 255, 0 <= g <= 255, 0 <= b <= 255;
    assert(pack_spec(r, g, b) % 256 == b) by (nonlinear_arith)
        requires 0 <= r <= 255, 0 <= g <= 255, 0 <= b <= 255;
}

} // verus!
