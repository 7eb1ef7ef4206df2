//! Drawing the VDP's picture on the host's screen, a line at a time, in the
//! TMS9918 modes (Graphics I and II) that the SG-1000 uses.
use vstd::prelude::*;
use crate::host_multimedia::{SimpleColor, SimpleGraphics};
use super::{Kind, Resolution, SmsVdpState, SPRITE_COLLISION_FLAG, SPRITE_OVERFLOW_FLAG};

verus! {

/// An error of the host's graphics, with its message.
#[derive(Debug)]
pub enum SmsVdpGraphicsError {
    Graphics(String),
}

/// The VDP together with the screen it draws on.
pub struct SmsVdpGraphicsImpler<G> {
    pub graphics: G,
    pub vdp: SmsVdpState,
}

/// Graphics that draw nothing at all.
#[derive(Clone, Copy, Debug, PartialEq, Eq, Structural)]
pub struct FakeSmsGraphics;

/// A color of the Master System's CRAM, `--BBGGRR`, with each 2 bit
/// component scaled to 8 bits.
pub fn vdp_color_to_simple_color(color: u8) -> (r: SimpleColor)
    ensures
        r.red == (color % 4) * 64,
        r.green == (color / 4 % 4) * 64,
        r.blue == (color / 16 % 4) * 64,
{
    let blue = (0x30 & color) << 2;
    let green = (0x0C & color) << 4;
    let red = (0x03 & color) << 6;
    assert(blue == (color / 16 % 4) * 64 && green == (color / 4 % 4) * 64 && red == (color % 4)
        * 64) by (bit_vector)
        requires
            blue == (0x30 & color) << 2,
            green == (0x0C & color) << 4,
            red == (0x03 & color) << 6,
    ;
    SimpleColor { red, green, blue }
}

/// A color of the Game Gear's CRAM, `----BBBBGGGGRRRR`, with each 4 bit
/// component scaled to 8 bits.
pub fn gg_color_to_simple_color(color: u16) -> (r: SimpleColor)
    ensures
        r.red == (color % 16) * 16,
        r.green == (color / 16 % 16) * 16,
        r.blue == (color / 256 % 16) * 16,
{
    let blue = (0x0F00 & color) >> 4;
    let green = 0x00F0 & color;
    let red = (0x000F & color) << 4;
    assert(blue == (color / 256 % 16) * 16 && green == (color / 16 % 16) * 16 && red == (color
        % 16) * 16) by (bit_vector)
        requires
            blue == (0x0F00 & color) >> 4,
            green == 0x00F0 & color,
            red == (0x000F & color) << 4,
    ;
    SimpleColor { red: red as u8, green: green as u8, blue: blue as u8 }
}

pub open spec fn rgb(red: u8, green: u8, blue: u8) -> SimpleColor {
    SimpleColor { red, green, blue }
}

/// The actual palette of the TMS9918: transparent, black, medium green,
/// light green, dark blue, light blue, dark red, cyan, medium red, light
/// red, dark yellow, light yellow, dark green, magenta, gray and white.
pub open spec fn spec_tms9918_palette(i: int) -> SimpleColor {
    if i == 0 {
        rgb(0x00, 0x00, 0x00)
    } else if i == 1 {
        rgb(0x00, 0x00, 0x00)
    } else if i == 2 {
        rgb(0x21, 0xC8, 0x42)
    } else if i == 3 {
        rgb(0x5E, 0xDC, 0x78)
    } else if i == 4 {
        rgb(0x54, 0x55, 0xED)
    } else if i == 5 {
        rgb(0x7D, 0x76, 0xFC)
    } else if i == 6 {
        rgb(0xD4, 0x52, 0x4D)
    } else if i == 7 {
        rgb(0x42, 0xEB, 0xF5)
    } else if i == 8 {
        rgb(0xFC, 0x55, 0x54)
    } else if i == 9 {
        rgb(0xFF, 0x79, 0x78)
    } else if i == 10 {
        rgb(0xD4, 0xC1, 0x54)
    } else if i == 11 {
        rgb(0xE6, 0xCE, 0x80)
    } else if i == 12 {
        rgb(0x21, 0xB0, 0x3B)
    } else if i == 13 {
        rgb(0xC9, 0x5B, 0xBA)
    } else if i == 14 {
        rgb(0xCC, 0xCC, 0xCC)
    } else {
        rgb(0xFF, 0xFF, 0xFF)
    }
}

pub fn tms9918_palette(i: u8) -> (r: SimpleColor)
    requires
        i < 16,
    ensures
        r == spec_tms9918_palette(i as int),
{
    let (red, green, blue): (u8, u8, u8) = match i {
        0 => (0x00, 0x00, 0x00),
        1 => (0x00, 0x00, 0x00),
        2 => (0x21, 0xC8, 0x42),
        3 => (0x5E, 0xDC, 0x78),
        4 => (0x54, 0x55, 0xED),
        5 => (0x7D, 0x76, 0xFC),
        6 => (0xD4, 0x52, 0x4D),
        7 => (0x42, 0xEB, 0xF5),
        8 => (0xFC, 0x55, 0x54),
        9 => (0xFF, 0x79, 0x78),
        10 => (0xD4, 0xC1, 0x54),
        11 => (0xE6, 0xCE, 0x80),
        12 => (0x21, 0xB0, 0x3B),
        13 => (0xC9, 0x5B, 0xBA),
        14 => (0xCC, 0xCC, 0xCC),
        _ => (0xFF, 0xFF, 0xFF),
    };
    SimpleColor { red, green, blue }
}

/// Bit `i` of a pattern byte, counted from the most significant: the
/// pixel `i` places from the left of an 8 pixel pattern.
pub open spec fn pattern_bit(pattern: u8, i: int) -> bool {
    (pattern >> ((7 - i) as u8)) & 1 == 1
}

/// A pixel of a TMS9918 tile: the color byte's high nibble where the
/// pattern bit is set, its low nibble where it is clear.
pub open spec fn tms_color(color: u8, bit: bool) -> SimpleColor {
    if bit {
        spec_tms9918_palette(color as int / 16)
    } else {
        spec_tms9918_palette(color as int % 16)
    }
}

/// Pixel `x` of the current line in Graphics I. The pattern byte of a name
/// is read at the pattern table plus the name plus the tile line.
pub open spec fn graphics1_pixel(vdp: SmsVdpState, x: int) -> SimpleColor {
    let pattern_table = (vdp.registers@[4] as int % 8) * 2048;
    let name_table = (vdp.registers@[2] as int % 16) * 1024;
    let color_table = vdp.registers@[3] as int * 64;
    let v = vdp.v as int;
    let name = vdp.spec_vram(name_table + (v / 8) * 32 + x / 8) as int;
    let color = vdp.spec_vram(color_table + name / 8);
    let pattern = vdp.spec_vram(pattern_table + name + v % 8);
    tms_color(color, pattern_bit(pattern, x % 8))
}

/// Pixel `x` of the current line in Graphics II, where each third of the
/// screen has its own patterns and colors.
pub open spec fn graphics2_pixel(vdp: SmsVdpState, x: int) -> SimpleColor {
    let pattern_table = (vdp.registers@[4] as int / 4 % 2) * 8192;
    let name_table = (vdp.registers@[2] as int % 16) * 1024;
    let color_table = (vdp.registers@[3] as int / 128) * 8192;
    let v = vdp.v as int;
    let third = v / 64;
    let name = vdp.spec_vram(name_table + (v / 8) * 32 + x / 8) as int;
    let color = vdp.spec_vram(color_table + 2048 * third + name * 8 + v % 8);
    let pattern = vdp.spec_vram(pattern_table + 2048 * third + name * 8 + v % 8);
    tms_color(color, pattern_bit(pattern, x % 8))
}

pub open spec fn line_colors(vdp: SmsVdpState, graphics2: bool) -> spec_fn(int) -> SimpleColor {
    |x: int|
        if graphics2 {
            graphics2_pixel(vdp, x)
        } else {
            graphics1_pixel(vdp, x)
        }
}

pub open spec fn black() -> SimpleColor {
    SimpleColor { red: 0, green: 0, blue: 0 }
}

/// The screen after pixels 0 to `n - 1` of line `y` are painted, in order,
/// pixel `x` with `colors(x)`.
pub open spec fn paint_row<G: SimpleGraphics>(
    g: G,
    y: u32,
    colors: spec_fn(int) -> SimpleColor,
    n: nat,
) -> G
    decreases n,
{
    if n == 0 {
        g
    } else {
        paint_row(g, y, colors, (n - 1) as nat).spec_paint((n - 1) as u32, y, colors(n - 1))
    }
}

/// The VDP, the screen, and which pixels of the line sprites have covered.
pub open spec fn tms_draw<G: SimpleGraphics>(
    st: (SmsVdpState, G, Seq<bool>),
    x: int,
    y: u32,
    color: SimpleColor,
) -> (SmsVdpState, G, Seq<bool>) {
    if x >= 256 {
        st
    } else if st.2[x] {
        (SmsVdpState { status_flags: st.0.status_flags | SPRITE_COLLISION_FLAG, ..st.0 }, st.1, st.2)
    } else {
        (st.0, st.1.spec_paint(x as u32, y, color), st.2.update(x, true))
    }
}

/// The last `k` of the 8 pixels of a sprite pattern, from `screen_x` on;
/// each is doubled in width when sprites are zoomed. Nothing right of the
/// screen is drawn.
pub open spec fn tms_pattern<G: SimpleGraphics>(
    st: (SmsVdpState, G, Seq<bool>),
    pattern: u8,
    screen_x: int,
    zoom: bool,
    y: u32,
    color: SimpleColor,
    k: nat,
) -> (SmsVdpState, G, Seq<bool>)
    decreases k,
{
    if k == 0 || screen_x >= 256 {
        st
    } else {
        let st1 = if pattern & 0x80 != 0 {
            let a = tms_draw(st, screen_x, y, color);
            if zoom {
                tms_draw(a, screen_x + 1, y, color)
            } else {
                a
            }
        } else {
            st
        };
        tms_pattern(
            st1,
            (pattern << 1u8) as u8,
            screen_x + if zoom {
                2int
            } else {
                1int
            },
            zoom,
            y,
            color,
            (k - 1) as nat,
        )
    }
}

/// Sprite `i` of the sprite attribute table on the current line, `count`
/// sprites having been found on it already: the state after it, the count
/// after it, and whether the drawing stops there. The table ends at a Y of
/// 0xD0; a fifth sprite on the line sets the overflow flag and its number in
/// the status, and stops the drawing.
#[verifier::opaque]
pub open spec fn tms_sprite<G: SimpleGraphics>(
    vdp: SmsVdpState,
    st: (SmsVdpState, G, Seq<bool>),
    i: int,
    count: int,
) -> ((SmsVdpState, G, Seq<bool>), int, bool) {
    let large = vdp.reg_bit(1, 2);
    let zoom = vdp.reg_bit(1, 1);
    let size: int = if large && zoom {
        32
    } else if !large && !zoom {
        8
    } else {
        16
    };
    let sat = (vdp.registers@[5] as int % 128) * 128;
    let spt = (vdp.registers@[6] as int % 8) * 2048;
    let y = (vdp.spec_vram(sat + 4 * i) as int + 1) % 256;
    if y == 0xD1 {
        (st, count, true)
    } else {
        let x = vdp.spec_vram(sat + 4 * i + 1) as int;
        let sprite_line = (vdp.v as int - y) % 65536;
        if sprite_line >= size {
            (st, count, false)
        } else if count + 1 > 4 {
            (
                (
                    SmsVdpState {
                        status_flags: (st.0.status_flags & 0xE0) | (i as u8) | SPRITE_OVERFLOW_FLAG,
                        ..st.0
                    },
                    st.1,
                    st.2,
                ),
                count,
                true,
            )
        } else {
            let sprite_y = if zoom {
                sprite_line / 2
            } else {
                sprite_line
            };
            let name0 = vdp.spec_vram(sat + 4 * i + 2) as int;
            let name = if large {
                name0 - name0 % 4
            } else {
                name0
            };
            let last = vdp.spec_vram(sat + 4 * i + 3);
            let color1 = spec_tms9918_palette(last as int % 16);
            let lpi = spt + name * 8 + sprite_y;
            let screen_x = if last >= 0x80 {
                (x - 32) % 65536
            } else {
                x
            };
            let st1 = tms_pattern(st, vdp.spec_vram(lpi), screen_x, zoom, vdp.v as u32, color1, 8);
            let st2 = if large {
                tms_pattern(
                    st1,
                    vdp.spec_vram(lpi + 16),
                    (screen_x + 8) % 65536,
                    zoom,
                    vdp.v as u32,
                    color1,
                    8,
                )
            } else {
                st1
            };
            (st2, count + 1, false)
        }
    }
}

/// Sprite drawing reads the status flags from the state it changes, not
/// from the VDP it reads the table from.
proof fn lemma_tms_sprite_status<G: SimpleGraphics>(
    a: SmsVdpState,
    b: SmsVdpState,
    st: (SmsVdpState, G, Seq<bool>),
    i: int,
    count: int,
)
    requires
        a == (SmsVdpState { status_flags: a.status_flags, ..b }),
    ensures
        tms_sprite(a, st, i, count) == tms_sprite(b, st, i, count),
{
    reveal(tms_sprite);
}

/// Sprites `i` to 31 on the current line, `count` sprites having been
/// found on it already.
pub open spec fn tms_sprites<G: SimpleGraphics>(
    vdp: SmsVdpState,
    st: (SmsVdpState, G, Seq<bool>),
    i: int,
    count: int,
) -> (SmsVdpState, G, Seq<bool>)
    decreases 32 - i,
{
    if i >= 32 || i < 0 {
        st
    } else {
        let (st1, c1, stop) = tms_sprite(vdp, st, i, count);
        if stop {
            st1
        } else {
            tms_sprites(vdp, st1, i + 1, c1)
        }
    }
}

/// The VDP and the screen after the sprites of the current line are drawn
/// in a TMS9918 mode.
pub open spec fn spec_draw_sprites_tms<G: SimpleGraphics>(vdp: SmsVdpState, g: G) -> (SmsVdpState, G) {
    let st = tms_sprites(vdp, (vdp, g, Seq::new(256, |x: int| false)), 0, 0);
    (st.0, st.1)
}

/// The VDP and the screen after line `v` is drawn in Graphics I or II, when
/// the host's graphics do not fail: lines below the display draw nothing,
/// except that the last line of the frame renders it.
pub open spec fn spec_draw_line_tms<G: SimpleGraphics>(vdp: SmsVdpState, g: G, graphics2: bool) -> (
    SmsVdpState,
    G,
) {
    let v = vdp.v;
    if v >= 192 {
        if v + 1 == vdp.spec_total_lines() {
            (vdp, g.spec_render())
        } else {
            (vdp, g)
        }
    } else {
        let g1 = g.spec_set_resolution(256, 192);
        if !vdp.spec_display_visible() {
            (vdp, paint_row(g1, v as u32, |x: int| black(), 256))
        } else {
            spec_draw_sprites_tms(vdp, paint_row(g1, v as u32, line_colors(vdp, graphics2), 256))
        }
    }
}

fn tms_draw_pixel<G: SimpleGraphics>(
    s: &mut SmsVdpGraphicsImpler<G>,
    line: &mut [bool; 256],
    x: u16,
    y: u16,
    color: SimpleColor,
)
    requires
        old(s).graphics.spec_resolution().0 >= 256,
        (y as int) < old(s).graphics.spec_resolution().1,
    ensures
        (final(s).vdp, final(s).graphics, final(line)@) == tms_draw(
            (old(s).vdp, old(s).graphics, old(line)@),
            x as int,
            y as u32,
            color,
        ),
        final(s).graphics.spec_resolution() == old(s).graphics.spec_resolution(),
        final(s).vdp == (SmsVdpState { status_flags: final(s).vdp.status_flags, ..old(s).vdp }),
{
    if x >= 256 {
        return ;
    }
    if line[x as usize] {
        s.vdp.status_flags = s.vdp.status_flags | SPRITE_COLLISION_FLAG;
        return ;
    }
    line[x as usize] = true;
    s.graphics.paint(x as u32, y as u32, color);
}

fn tms_render_pattern<G: SimpleGraphics>(
    s: &mut SmsVdpGraphicsImpler<G>,
    line: &mut [bool; 256],
    pattern: u8,
    screen_x: u16,
    zoom: bool,
    y: u16,
    color: SimpleColor,
)
    requires
        old(s).graphics.spec_resolution().0 >= 256,
        (y as int) < old(s).graphics.spec_resolution().1,
    ensures
        (final(s).vdp, final(s).graphics, final(line)@) == tms_pattern(
            (old(s).vdp, old(s).graphics, old(line)@),
            pattern,
            screen_x as int,
            zoom,
            y as u32,
            color,
            8,
        ),
        final(s).graphics.spec_resolution() == old(s).graphics.spec_resolution(),
        final(s).vdp == (SmsVdpState { status_flags: final(s).vdp.status_flags, ..old(s).vdp }),
{
    let ghost vdp0 = s.vdp;
    let ghost target = tms_pattern(
        (s.vdp, s.graphics, line@),
        pattern,
        screen_x as int,
        zoom,
        y as u32,
        color,
        8,
    );
    let ghost res = s.graphics.spec_resolution();
    let mut p = pattern;
    let mut sx = screen_x;
    let mut k: u8 = 8;
    while k > 0
        invariant
            k <= 8,
            s.graphics.spec_resolution() == res,
            res.0 >= 256,
            (y as int) < res.1,
            s.vdp == (SmsVdpState { status_flags: s.vdp.status_flags, ..vdp0 }),
            tms_pattern((s.vdp, s.graphics, line@), p, sx as int, zoom, y as u32, color, k as nat)
                == target,
        decreases k,
    {
        if sx < 256 {
            if p & 0x80 != 0 {
                tms_draw_pixel(s, line, sx, y, color);
                if zoom {
                    tms_draw_pixel(s, line, sx + 1, y, color);
                }
            }
            p = p << 1u8;
            sx = if zoom {
                sx + 2
            } else {
                sx + 1
            };
        }
        k = k - 1;
    }
}

/// Draw sprite `i` of the table on the current line: the count after it,
/// and whether the drawing stops there.
#[verifier::rlimit(100)]
#[verifier::spinoff_prover]
fn draw_sprite_tms<G: SimpleGraphics>(
    s: &mut SmsVdpGraphicsImpler<G>,
    line: &mut [bool; 256],
    i: u16,
    count: u8,
) -> (r: (u8, bool))
    requires
        i < 32,
        count <= 4,
        old(s).graphics.spec_resolution().0 >= 256,
        (old(s).vdp.v as int) < old(s).graphics.spec_resolution().1,
    ensures
        ((final(s).vdp, final(s).graphics, final(line)@), r.0 as int, r.1) == tms_sprite(
            old(s).vdp,
            (old(s).vdp, old(s).graphics, old(line)@),
            i as int,
            count as int,
        ),
        r.0 <= 4,
        final(s).vdp == (SmsVdpState { status_flags: final(s).vdp.status_flags, ..old(s).vdp }),
        final(s).graphics.spec_resolution() == old(s).graphics.spec_resolution(),
{
    reveal(tms_sprite);
    let sprites_large = s.vdp.registers[1] & 2 != 0;
    let sprites_zoom = s.vdp.registers[1] & 1 != 0;
    let sprite_size: u16 = if sprites_large && sprites_zoom {
        32
    } else if !sprites_large && !sprites_zoom {
        8
    } else {
        16
    };
    let v = s.vdp.v;
    let sprite_pattern_table: u16 = ((s.vdp.registers[6] % 8) as u16) * 2048;
    let sprite_attribute_table: u16 = ((s.vdp.registers[5] % 128) as u16) * 128;
    let y = (s.vdp.vram_at(sprite_attribute_table + 4 * i) as u16 + 1) % 256;
    if y == 0xD1 {
        return (count, true);
    }
    let x = s.vdp.vram_at(sprite_attribute_table + 4 * i + 1) as u16;
    let sprite_line = v.wrapping_sub(y);
    assert(sprite_line as int == (v as int - y as int) % 65536);
    if sprite_line >= sprite_size {
        return (count, false);
    }
    if count + 1 > 4 {
        s.vdp.status_flags = (s.vdp.status_flags & 0xE0) | (i as u8) | SPRITE_OVERFLOW_FLAG;
        return (count, true);
    }
    let sprite_y = if sprites_zoom {
        sprite_line / 2
    } else {
        sprite_line
    };
    let name0 = s.vdp.vram_at(sprite_attribute_table + 4 * i + 2) as u16;
    let name = if sprites_large {
        name0 - name0 % 4
    } else {
        name0
    };
    let last_byte = s.vdp.vram_at(sprite_attribute_table + 4 * i + 3);
    let early_clock = last_byte >= 0x80;
    let color1 = tms9918_palette(last_byte % 16);
    let line_pattern_index = sprite_pattern_table + name * 8 + sprite_y;
    let pattern = s.vdp.vram_at(line_pattern_index);
    let screen_x = if early_clock {
        x.wrapping_sub(32)
    } else {
        x
    };
    assert(screen_x as int == if early_clock {
        (x as int - 32) % 65536
    } else {
        x as int
    });
    let ghost vdp0 = s.vdp;
    tms_render_pattern(s, line, pattern, screen_x, sprites_zoom, v, color1);
    if sprites_large {
        let pattern2 = s.vdp.vram_at(line_pattern_index + 16);
        let sx2 = screen_x.wrapping_add(8);
        assert(sx2 as int == (screen_x as int + 8) % 65536);
        tms_render_pattern(s, line, pattern2, sx2, sprites_zoom, v, color1);
    }
    (count + 1, false)
}

/// Draw the sprites of the current line in a TMS9918 mode (Graphics I or
/// II), on a screen at least 256 pixels wide that has the line.
///
/// A sprite pixel that lands on one already drawn sets the collision flag
/// instead; a fifth sprite on the line sets the overflow flag.
pub fn draw_sprites_tms<G: SimpleGraphics>(s: &mut SmsVdpGraphicsImpler<G>) -> (r: Result<
    (),
    SmsVdpGraphicsError,
>)
    requires
        old(s).graphics.spec_resolution().0 >= 256,
        (old(s).vdp.v as int) < old(s).graphics.spec_resolution().1,
    ensures
        r is Ok,
        (final(s).vdp, final(s).graphics) == spec_draw_sprites_tms(old(s).vdp, old(s).graphics),
        final(s).graphics.spec_resolution() == old(s).graphics.spec_resolution(),
        final(s).vdp == (SmsVdpState { status_flags: final(s).vdp.status_flags, ..old(s).vdp }),
{
    let ghost vdp0 = s.vdp;
    let ghost g0 = s.graphics;
    let ghost res = s.graphics.spec_resolution();
    let mut sprites_on_line: u8 = 0;
    let mut line = [false;256];
    assert(line@ =~= Seq::new(256, |x: int| false));
    let mut i: u16 = 0;
    while i < 32
        invariant_except_break
            tms_sprites(vdp0, (s.vdp, s.graphics, line@), i as int, sprites_on_line as int)
                == tms_sprites(vdp0, (vdp0, g0, Seq::new(256, |x: int| false)), 0, 0),
        invariant
            i <= 32,
            sprites_on_line <= 4,
            s.vdp == (SmsVdpState { status_flags: s.vdp.status_flags, ..vdp0 }),
            s.graphics.spec_resolution() == res,
            res.0 >= 256,
            (vdp0.v as int) < res.1,
            vdp0 == old(s).vdp,
            g0 == old(s).graphics,
            res == old(s).graphics.spec_resolution(),
        ensures
            (s.vdp, s.graphics, line@) == tms_sprites(
                vdp0,
                (vdp0, g0, Seq::new(256, |x: int| false)),
                0,
                0,
            ),
            s.vdp == (SmsVdpState { status_flags: s.vdp.status_flags, ..vdp0 }),
        decreases 32 - i,
    {
        let ghost st = (s.vdp, s.graphics, line@);
        let (c1, stop) = draw_sprite_tms(s, &mut line, i, sprites_on_line);
        proof {
            lemma_tms_sprite_status(st.0, vdp0, st, i as int, sprites_on_line as int);
        }
        sprites_on_line = c1;
        if stop {
            break ;
        }
        i = i + 1;
    }
    Ok(())
}

/// Paint line `v` black, when the display is off.
fn paint_black_line<G: SimpleGraphics>(s: &mut SmsVdpGraphicsImpler<G>)
    requires
        old(s).graphics.spec_resolution() == (256u32, 192u32),
        old(s).vdp.v < 192,
    ensures
        final(s).graphics == paint_row(old(s).graphics, old(s).vdp.v as u32, |x: int| black(), 256),
        final(s).vdp == old(s).vdp,
{
    let ghost g0 = s.graphics;
    let v = s.vdp.v;
    let mut x: u32 = 0;
    while x < 256
        invariant
            x <= 256,
            v < 192,
            v == old(s).vdp.v,
            s.vdp == old(s).vdp,
            g0 == old(s).graphics,
            s.graphics.spec_resolution() == (256u32, 192u32),
            s.graphics == paint_row(g0, v as u32, |x: int| black(), x as nat),
        decreases 256 - x,
    {
        s.graphics.paint(x, v as u32, SimpleColor { red: 0, green: 0, blue: 0 });
        x = x + 1;
    }
}

/// Paint line `v` from the tiles of Graphics I (or II), before the sprites.
fn paint_tiles_line<G: SimpleGraphics>(s: &mut SmsVdpGraphicsImpler<G>, graphics2: bool)
    requires
        old(s).graphics.spec_resolution() == (256u32, 192u32),
        old(s).vdp.v < 192,
    ensures
        final(s).graphics == paint_row(
            old(s).graphics,
            old(s).vdp.v as u32,
            line_colors(old(s).vdp, graphics2),
            256,
        ),
        final(s).vdp == old(s).vdp,
        final(s).graphics.spec_resolution() == (256u32, 192u32),
{
    let ghost g0 = s.graphics;
    let ghost colors = line_colors(s.vdp, graphics2);
    let v = s.vdp.v;
    let name_table: u16 = ((s.vdp.registers[2] % 16) as u16) * 1024;
    let pattern_table: u16 = if graphics2 {
        ((s.vdp.registers[4] / 4 % 2) as u16) * 8192
    } else {
        ((s.vdp.registers[4] % 8) as u16) * 2048
    };
    let color_table: u16 = if graphics2 {
        ((s.vdp.registers[3] / 128) as u16) * 8192
    } else {
        (s.vdp.registers[3] as u16) * 64
    };
    let tile_y = v / 8;
    let tile_line = v % 8;
    let third = v / 64;
    let mut tile_x: u16 = 0;
    while tile_x < 32
        invariant
            tile_x <= 32,
            v < 192,
            v == old(s).vdp.v,
            tile_y == v / 8,
            tile_line == v % 8,
            third == v / 64,
            name_table == (old(s).vdp.registers@[2] as int % 16) * 1024,
            pattern_table == if graphics2 {
                (old(s).vdp.registers@[4] as int / 4 % 2) * 8192
            } else {
                (old(s).vdp.registers@[4] as int % 8) * 2048
            },
            color_table == if graphics2 {
                (old(s).vdp.registers@[3] as int / 128) * 8192
            } else {
                old(s).vdp.registers@[3] as int * 64
            },
            s.vdp == old(s).vdp,
            g0 == old(s).graphics,
            colors == line_colors(old(s).vdp, graphics2),
            s.graphics.spec_resolution() == (256u32, 192u32),
            s.graphics == paint_row(g0, v as u32, colors, (tile_x * 8) as nat),
        decreases 32 - tile_x,
    {
        let name = s.vdp.vram_at(name_table + tile_y * 32 + tile_x) as u16;
        let (color, pattern) = if graphics2 {
            (
                s.vdp.vram_at(color_table + 2048 * third + name * 8 + tile_line),
                s.vdp.vram_at(pattern_table + 2048 * third + name * 8 + tile_line),
            )
        } else {
            (s.vdp.vram_at(color_table + name / 8), s.vdp.vram_at(pattern_table + name + tile_line))
        };
        let color0 = tms9918_palette(color % 16);
        let color1 = tms9918_palette(color / 16);
        let mut i: u8 = 0;
        while i < 8
            invariant
                i <= 8,
                tile_x < 32,
                v < 192,
                v == old(s).vdp.v,
                s.vdp == old(s).vdp,
                colors == line_colors(old(s).vdp, graphics2),
                color0 == spec_tms9918_palette(color as int % 16),
                color1 == spec_tms9918_palette(color as int / 16),
                forall|j: int|
                    0 <= j < 8 ==> #[trigger] colors(tile_x * 8 + j) == tms_color(color, pattern_bit(pattern, j)),
                s.graphics.spec_resolution() == (256u32, 192u32),
                s.graphics == paint_row(g0, v as u32, colors, (tile_x * 8 + i) as nat),
            decreases 8 - i,
        {
            let sh: u8 = 7 - i;
            let bit = (pattern >> sh) & 1;
            assert(bit == 0 || bit == 1) by (bit_vector)
                requires
                    bit == (pattern >> sh) & 1,
            ;
            let c = if bit == 0 {
                color0
            } else {
                color1
            };
            assert(c == colors(tile_x * 8 + i));
            s.graphics.paint((tile_x * 8) as u32 + i as u32, v as u32, c);
            i = i + 1;
        }
        tile_x = tile_x + 1;
    }
}

/// Draw the current line in Graphics I or II: the tiles, then the sprites.
fn draw_line_tms<G: SimpleGraphics>(s: &mut SmsVdpGraphicsImpler<G>, graphics2: bool) -> (r: Result<
    (),
    SmsVdpGraphicsError,
>)
    ensures
        r is Ok ==> (final(s).vdp, final(s).graphics) == spec_draw_line_tms(
            old(s).vdp,
            old(s).graphics,
            graphics2,
        ),
        r is Err ==> final(s).vdp == old(s).vdp,
        final(s).vdp == (SmsVdpState { status_flags: final(s).vdp.status_flags, ..old(s).vdp }),
        old(s).vdp.v >= 192 && old(s).vdp.v + 1 != old(s).vdp.spec_total_lines() ==> r is Ok,
{
    let v = s.vdp.v;
    if v >= 192 {
        if (v as u32) + 1 == s.vdp.total_lines() as u32 {
            match s.graphics.render() {
                Ok(()) => {},
                Err(e) => {
                    return Err(SmsVdpGraphicsError::Graphics(e));
                },
            }
        }
        return Ok(());
    }
    match s.graphics.set_resolution(256, 192) {
        Ok(()) => {},
        Err(e) => {
            return Err(SmsVdpGraphicsError::Graphics(e));
        },
    }
    if !s.vdp.display_visible() {
        paint_black_line(s);
        return Ok(());
    }
    paint_tiles_line(s, graphics2);
    draw_sprites_tms(s)
}

/// Draw the current line in Graphics I: each tile's colors come from the
/// color table entry of its group of 8 names.
pub fn draw_line_graphics1<G: SimpleGraphics>(s: &mut SmsVdpGraphicsImpler<G>) -> (r: Result<
    (),
    SmsVdpGraphicsError,
>)
    ensures
        r is Ok ==> (final(s).vdp, final(s).graphics) == spec_draw_line_tms(
            old(s).vdp,
            old(s).graphics,
            false,
        ),
        r is Err ==> final(s).vdp == old(s).vdp,
        final(s).vdp == (SmsVdpState { status_flags: final(s).vdp.status_flags, ..old(s).vdp }),
        old(s).vdp.v >= 192 && old(s).vdp.v + 1 != old(s).vdp.spec_total_lines() ==> r is Ok,
{
    draw_line_tms(s, false)
}

/// Draw the current line in Graphics II: each third of the screen has its
/// own patterns and colors, a color byte for each line of each pattern.
pub fn draw_line_graphics2<G: SimpleGraphics>(s: &mut SmsVdpGraphicsImpler<G>) -> (r: Result<
    (),
    SmsVdpGraphicsError,
>)
    ensures
        r is Ok ==> (final(s).vdp, final(s).graphics) == spec_draw_line_tms(
            old(s).vdp,
            old(s).graphics,
            true,
        ),
        r is Err ==> final(s).vdp == old(s).vdp,
        final(s).vdp == (SmsVdpState { status_flags: final(s).vdp.status_flags, ..old(s).vdp }),
        old(s).vdp.v >= 192 && old(s).vdp.v + 1 != old(s).vdp.spec_total_lines() ==> r is Ok,
{
    draw_line_tms(s, true)
}

/// The part of the picture mode 4 shows, as (first line, end line, first
/// column, end column): the Game Gear shows a 160 by 144 window of it,
/// other machines all 256 columns of the active lines.
pub open spec fn m4_window(vdp: SmsVdpState) -> (int, int, int, int) {
    if vdp.kind == Kind::Gg {
        (24, 168, 48, 208)
    } else {
        (0, vdp.spec_active_lines() as int, 0, 256)
    }
}

pub open spec fn spec_vdp_color(c: u8) -> SimpleColor {
    SimpleColor {
        red: ((c % 4) * 64) as u8,
        green: ((c / 4 % 4) * 64) as u8,
        blue: ((c / 16 % 4) * 64) as u8,
    }
}

pub open spec fn spec_gg_color(c: u16) -> SimpleColor {
    SimpleColor {
        red: ((c % 16) * 16) as u8,
        green: ((c / 16 % 16) * 16) as u8,
        blue: ((c / 256 % 16) * 16) as u8,
    }
}

/// Color `i` of CRAM, in the format of the machine.
pub open spec fn m4_color(vdp: SmsVdpState, i: int) -> SimpleColor {
    if vdp.kind == Kind::Gg {
        spec_gg_color(vdp.cram@[i])
    } else {
        spec_vdp_color((vdp.cram@[i] % 256) as u8)
    }
}

/// Pixels `j` to 7 of a sprite line with palette indices `pis`, from column
/// `sprite_x + j - shift_x` (each pixel doubled when zoomed), into the line
/// buffer: a pixel outside the window ends the sprite; one that lands on a
/// pixel another sprite drew sets the collision flag instead; a transparent
/// one leaves the buffer alone.
pub open spec fn m4_sprite_line(
    st: (SmsVdpState, Seq<u8>),
    pis: Seq<u8>,
    sprite_x: int,
    shift_x: int,
    zoom: bool,
    xs: int,
    xe: int,
    j: int,
) -> (SmsVdpState, Seq<u8>)
    decreases 8 - j,
{
    if j < 0 || j >= 8 {
        st
    } else {
        let collide = |s: (SmsVdpState, Seq<u8>)|
            (SmsVdpState { status_flags: s.0.status_flags | SPRITE_COLLISION_FLAG, ..s.0 }, s.1);
        let index = if zoom {
            2 * j
        } else {
            j
        };
        let rx = sprite_x + index - shift_x;
        if rx < xs || rx >= xe {
            st
        } else if st.1[rx] != 0x80 {
            m4_sprite_line(collide(st), pis, sprite_x, shift_x, zoom, xs, xe, j + 1)
        } else {
            let st1 = if pis[j] != 0 {
                (st.0, st.1.update(rx, (pis[j] + 16) as u8))
            } else {
                st
            };
            if zoom {
                let rx2 = rx + 1;
                if rx2 < xs || rx2 >= xe {
                    st1
                } else if st1.1[rx2] != 0x80 {
                    m4_sprite_line(collide(st1), pis, sprite_x, shift_x, zoom, xs, xe, j + 1)
                } else {
                    let st2 = if pis[j] != 0 {
                        (st1.0, st1.1.update(rx2, (pis[j] + 16) as u8))
                    } else {
                        st1
                    };
                    m4_sprite_line(st2, pis, sprite_x, shift_x, zoom, xs, xe, j + 1)
                }
            } else {
                m4_sprite_line(st1, pis, sprite_x, shift_x, zoom, xs, xe, j + 1)
            }
        }
    }
}

/// The palette indices of line `line` of the pattern at `addr`.
pub open spec fn m4_indices(vdp: SmsVdpState, addr: int, line: int) -> Seq<u8> {
    Seq::new(8, |j: int| vdp.spec_palette_index(addr, line, j))
}

/// Sprite `i` of the sprite attribute table on the current line of mode
/// 4: the line buffer after it, and whether drawing stops there (a Y of
/// 0xD0 ends the table in the 192 line mode).
#[verifier::opaque]
pub open spec fn m4_sprite(vdp: SmsVdpState, st: (SmsVdpState, Seq<u8>), i: int) -> (
    (SmsVdpState, Seq<u8>),
    bool,
) {
    let sy = vdp.spec_sprite_y(i) as int;
    if sy == 0xD1 && vdp.spec_resolution() == Resolution::Low {
        (st, true)
    } else {
        let zoom = vdp.reg_bit(1, 1);
        let height: int = if vdp.reg_bit(1, 2) {
            16
        } else {
            8
        };
        let sprite_line = ((vdp.v as int - sy) % 65536) / (if zoom {
            2int
        } else {
            1int
        });
        if sprite_line >= height {
            (st, false)
        } else {
            let (ys, ye, xs, xe) = m4_window(vdp);
            let shift_x: int = if vdp.reg_bit(0, 8) {
                8
            } else {
                0
            };
            (
                m4_sprite_line(
                    st,
                    m4_indices(vdp, vdp.spec_sprite_pattern_address(i) as int, sprite_line),
                    vdp.spec_sprite_x(i) as int,
                    shift_x,
                    zoom,
                    xs,
                    xe,
                    0,
                ),
                false,
            )
        }
    }
}

/// Sprites `i` to 63 on the current line of mode 4.
pub open spec fn m4_sprites(vdp: SmsVdpState, st: (SmsVdpState, Seq<u8>), i: int) -> (
    SmsVdpState,
    Seq<u8>,
)
    decreases 64 - i,
{
    if i < 0 || i >= 64 {
        st
    } else {
        let (st1, stop) = m4_sprite(vdp, st, i);
        if stop {
            st1
        } else {
            m4_sprites(vdp, st1, i + 1)
        }
    }
}

/// Pixels `j` to 7 of a tile line into the line buffer, from column
/// `start_x + j`: a pixel goes where no sprite is, or over a sprite when the
/// tile has priority and the pixel is not transparent.
pub open spec fn m4_tile_pixels(
    buf: Seq<u8>,
    pis: Seq<u8>,
    hflip: bool,
    priority: bool,
    palette: int,
    start_x: int,
    xs: int,
    xe: int,
    j: int,
) -> Seq<u8>
    decreases 8 - j,
{
    if j < 0 || j >= 8 {
        buf
    } else {
        let tile_col = if hflip {
            7 - j
        } else {
            j
        };
        let x = j + start_x;
        if x < xs {
            m4_tile_pixels(buf, pis, hflip, priority, palette, start_x, xs, xe, j + 1)
        } else if x >= xe {
            buf
        } else {
            let b1 = if buf[x] >= 0x80 || (priority && pis[tile_col] > 0) {
                buf.update(x, (pis[tile_col] + palette) as u8)
            } else {
                buf
            };
            m4_tile_pixels(b1, pis, hflip, priority, palette, start_x, xs, xe, j + 1)
        }
    }
}

/// Line `tile_line` of entry `tile` of the name table, from column
/// `start_x`: its high byte flips it, gives it priority and selects the
/// palette.
#[verifier::opaque]
pub open spec fn m4_write_tile(
    vdp: SmsVdpState,
    buf: Seq<u8>,
    tile: int,
    tile_line: int,
    start_x: int,
    xs: int,
    xe: int,
) -> Seq<u8> {
    let addr = vdp.spec_name_table_address() as int + 2 * tile;
    let low = vdp.spec_vram(addr);
    let high = vdp.spec_vram((addr + 1) % 65536) as int;
    let vflip = high / 4 % 2 == 1;
    let hflip = high / 2 % 2 == 1;
    let priority = high / 16 % 2 == 1;
    let palette = (high / 8 % 2) * 16;
    let pattern_index = (high % 2) * 256 + low as int;
    let line = if vflip {
        7 - tile_line
    } else {
        tile_line
    };
    m4_tile_pixels(buf, m4_indices(vdp, pattern_index * 32, line), hflip, priority, palette, start_x, xs, xe, 0)
}

/// A mode 4 pattern line is four bit planes: pixel `j` of line `line` of
/// the pattern at `addr` has, as bits 0 to 3 of its palette index, the bits
/// of pixel `j` in the four bytes of the line, in order.
pub proof fn lemma_m4_bit_planes(vdp: SmsVdpState, addr: int, line: int, j: int)
    requires
        0 <= j < 8,
    ensures
        ({
            let i = vdp.spec_palette_index(addr, line, j);
            let b = |k: int| vdp.spec_vram(addr + 4 * line + k);
            &&& i < 16
            &&& pattern_bit(b(0), j) == (i % 2 == 1)
            &&& pattern_bit(b(1), j) == ((i / 2) % 2 == 1)
            &&& pattern_bit(b(2), j) == ((i / 4) % 2 == 1)
            &&& pattern_bit(b(3), j) == ((i / 8) % 2 == 1)
        }),
{
    let b0 = vdp.spec_vram(addr + 4 * line);
    let b1 = vdp.spec_vram(addr + 4 * line + 1);
    let b2 = vdp.spec_vram(addr + 4 * line + 2);
    let b3 = vdp.spec_vram(addr + 4 * line + 3);
    let sh = (7 - j) as u8;
    let i = vdp.spec_palette_index(addr, line, j);
    assert({
        let v = ((b0 >> sh) & 1) | (((b1 >> sh) & 1) << 1u8) | (((b2 >> sh) & 1) << 2u8) | (((b3 >> sh)
            & 1) << 3u8);
        &&& v < 16
        &&& ((b0 >> sh) & 1 == 1) == (v % 2 == 1)
        &&& ((b1 >> sh) & 1 == 1) == ((v / 2) % 2 == 1)
        &&& ((b2 >> sh) & 1 == 1) == ((v / 4) % 2 == 1)
        &&& ((b3 >> sh) & 1 == 1) == ((v / 8) % 2 == 1)
    }) by (bit_vector);
}

/// Drawing the pixels of a tile line from pixel `k` on leaves the line
/// buffer as long as it was, and its columns left of pixel `k` as they were.
proof fn lemma_m4_tile_pixels_keep(
    buf: Seq<u8>,
    pis: Seq<u8>,
    hflip: bool,
    priority: bool,
    palette: int,
    start_x: int,
    xs: int,
    xe: int,
    k: int,
    y: int,
)
    requires
        0 <= xs,
        xe <= buf.len(),
        0 <= k,
        0 <= y < buf.len(),
        y < start_x + k,
    ensures
        m4_tile_pixels(buf, pis, hflip, priority, palette, start_x, xs, xe, k).len() == buf.len(),
        m4_tile_pixels(buf, pis, hflip, priority, palette, start_x, xs, xe, k)[y] == buf[y],
    decreases 8 - k,
{
    if k < 8 {
        let x = k + start_x;
        let tile_col = if hflip {
            7 - k
        } else {
            k
        };
        if x < xs {
            lemma_m4_tile_pixels_keep(buf, pis, hflip, priority, palette, start_x, xs, xe, k + 1, y);
        } else if x < xe {
            let b1 = if buf[x] >= 0x80 || (priority && pis[tile_col] > 0) {
                buf.update(x, (pis[tile_col] + palette) as u8)
            } else {
                buf
            };
            lemma_m4_tile_pixels_keep(b1, pis, hflip, priority, palette, start_x, xs, xe, k + 1, y);
        }
    }
}

/// Pixel `j` of a tile line, where no sprite is, shows column `j` of the
/// pattern line (column `7 - j` when the tile is mirrored), in the palette.
proof fn lemma_m4_tile_pixel(
    buf: Seq<u8>,
    pis: Seq<u8>,
    hflip: bool,
    priority: bool,
    palette: int,
    start_x: int,
    xs: int,
    xe: int,
    k: int,
    j: int,
)
    requires
        0 <= k <= j < 8,
        0 <= xs <= start_x + j < xe <= buf.len(),
        buf[start_x + j] >= 0x80,
    ensures
        m4_tile_pixels(buf, pis, hflip, priority, palette, start_x, xs, xe, k)[start_x + j] == (pis[if hflip {
            7 - j
        } else {
            j
        }] + palette) as u8,
    decreases 8 - k,
{
    let x = k + start_x;
    let tile_col = if hflip {
        7 - k
    } else {
        k
    };
    if k == j {
        let b1 = buf.update(x, (pis[tile_col] + palette) as u8);
        lemma_m4_tile_pixels_keep(b1, pis, hflip, priority, palette, start_x, xs, xe, k + 1, x);
    } else if x < xs {
        lemma_m4_tile_pixel(buf, pis, hflip, priority, palette, start_x, xs, xe, k + 1, j);
    } else {
        let b1 = if buf[x] >= 0x80 || (priority && pis[tile_col] > 0) {
            buf.update(x, (pis[tile_col] + palette) as u8)
        } else {
            buf
        };
        lemma_m4_tile_pixel(b1, pis, hflip, priority, palette, start_x, xs, xe, k + 1, j);
    }
}

/// In mode 4 the high byte of a name table entry places its tile: bit 1
/// mirrors it horizontally (pixel `j` of the tile shows pattern column
/// `7 - j`), bit 2 mirrors it vertically (tile line `l` shows pattern line
/// `7 - l`), bit 3 selects the sprite palette (16 added to the index), and
/// bit 0 is the ninth bit of the pattern number. A pixel where no sprite
/// was drawn shows the pattern's palette index there.
pub proof fn lemma_m4_tile_placement(
    vdp: SmsVdpState,
    buf: Seq<u8>,
    tile: int,
    tile_line: int,
    start_x: int,
    xs: int,
    xe: int,
    j: int,
)
    requires
        0 <= j < 8,
        0 <= xs <= start_x + j < xe <= buf.len(),
        buf[start_x + j] >= 0x80,
    ensures
        ({
            let addr = vdp.spec_name_table_address() as int + 2 * tile;
            let high = vdp.spec_vram((addr + 1) % 65536) as int;
            let pattern = (high % 2) * 256 + vdp.spec_vram(addr) as int;
            let line = if (high / 4) % 2 == 1 {
                7 - tile_line
            } else {
                tile_line
            };
            let column = if (high / 2) % 2 == 1 {
                7 - j
            } else {
                j
            };
            m4_write_tile(vdp, buf, tile, tile_line, start_x, xs, xe)[start_x + j] == (
            vdp.spec_palette_index(pattern * 32, line, column) + ((high / 8) % 2) * 16) as u8
        }),
{
    reveal(m4_write_tile);
    let entry = vdp.spec_name_table_address() as int + 2 * tile;
    let attributes = vdp.spec_vram((entry + 1) % 65536) as int;
    let mirrored = (attributes / 2) % 2 == 1;
    let upside_down = (attributes / 4) % 2 == 1;
    let pattern_line = if upside_down {
        7 - tile_line
    } else {
        tile_line
    };
    let pattern_number = (attributes % 2) * 256 + vdp.spec_vram(entry) as int;
    lemma_m4_tile_pixel(
        buf,
        m4_indices(vdp, pattern_number * 32, pattern_line),
        mirrored,
        (attributes / 16) % 2 == 1,
        ((attributes / 8) % 2) * 16,
        start_x,
        xs,
        xe,
        0,
        j,
    );
}

/// Tiles `tile` to `end - 1` of row `row` of the name table, scrolled.
pub open spec fn m4_tiles(
    vdp: SmsVdpState,
    buf: Seq<u8>,
    row: int,
    tile_offset_x: int,
    tile_line: int,
    pixel_offset_x: int,
    xs: int,
    xe: int,
    tile: int,
    end: int,
) -> Seq<u8>
    decreases end - tile,
{
    if tile >= end {
        buf
    } else {
        let b1 = m4_write_tile(
            vdp,
            buf,
            32 * row + (tile_offset_x + tile) % 65536 % 32,
            tile_line,
            tile * 8 + pixel_offset_x,
            xs,
            xe,
        );
        m4_tiles(vdp, b1, row, tile_offset_x, tile_line, pixel_offset_x, xs, xe, tile + 1, end)
    }
}

/// The background of the current line in mode 4 over the sprites in `buf`:
/// with vertical scroll locked, columns 24 to 31 (not on the Game Gear) do
/// not scroll vertically; with horizontal scroll locked, the top two rows do
/// not scroll horizontally; the blanked left column shows the backdrop.
pub open spec fn m4_background(vdp: SmsVdpState, buf: Seq<u8>) -> Seq<u8> {
    let (ys, ye, xs, xe) = m4_window(vdp);
    let v = vdp.v as int;
    let vert_locked = vdp.reg_bit(0, 0x80);
    let scroll_x: int = if vdp.reg_bit(0, 0x40) && v < 16 {
        0
    } else {
        vdp.registers@[8] as int
    };
    let pixel_offset_x = scroll_x % 8;
    let tile_offset_x = (65536 - scroll_x / 8) % 65536;
    let vert_tile_height: int = if vdp.spec_resolution() == Resolution::Low {
        224
    } else {
        256
    };
    let logical_y = (v + vdp.registers@[9] as int) % vert_tile_height;
    let b1 = if vdp.kind != Kind::Gg && vert_locked {
        m4_tiles(vdp, buf, v / 8, tile_offset_x, v % 8, pixel_offset_x, xs, xe, 23, 32)
    } else {
        buf
    };
    let b2 = m4_tiles(
        vdp,
        b1,
        logical_y / 8,
        tile_offset_x,
        logical_y % 8,
        pixel_offset_x,
        xs,
        xe,
        0,
        if vert_locked {
            24
        } else {
            32
        },
    );
    if vdp.reg_bit(0, 0x20) {
        Seq::new(
            256,
            |x: int|
                if x < 8 {
                    (16 + vdp.registers@[7] as int % 16) as u8
                } else {
                    b2[x]
                },
        )
    } else {
        b2
    }
}

pub open spec fn m4_line_colors(vdp: SmsVdpState, buf: Seq<u8>, xs: int) -> spec_fn(int) -> SimpleColor {
    |x: int| m4_color(vdp, buf[x + xs] as int % 32)
}

/// The VDP and the screen after the current line is drawn in mode 4, when
/// the host's graphics do not fail.
pub open spec fn spec_draw_line_mode4<G: SimpleGraphics>(vdp: SmsVdpState, g: G) -> (SmsVdpState, G) {
    let (ys, ye, xs, xe) = m4_window(vdp);
    let v = vdp.v as int;
    if v < ys {
        (vdp, g)
    } else if v >= ye {
        if v + 1 == vdp.spec_total_lines() {
            (vdp, g.spec_render())
        } else {
            (vdp, g)
        }
    } else {
        let g1 = g.spec_set_resolution((xe - xs) as u32, (ye - ys) as u32);
        let y = (v - ys) as u32;
        if !vdp.spec_display_visible() {
            (vdp, paint_row(g1, y, |x: int| black(), (xe - xs) as nat))
        } else {
            let st = m4_sprites(vdp, (vdp, Seq::new(256, |x: int| 0x80u8)), 0);
            let buf = m4_background(st.0, st.1);
            (st.0, paint_row(g1, y, m4_line_colors(st.0, buf, xs), (xe - xs) as nat))
        }
    }
}

fn m4_window_exec(vdp: &SmsVdpState) -> (r: (usize, usize, usize, usize))
    ensures
        (r.0 as int, r.1 as int, r.2 as int, r.3 as int) == m4_window(*vdp),
        r.0 < r.1 <= 240,
        r.2 < r.3 <= 256,
{
    if matches!(vdp.kind, Kind::Gg) {
        (24, 168, 48, 208)
    } else {
        (0, vdp.active_lines() as usize, 0, 256)
    }
}

/// Draw the pixels of one sprite line into the line buffer.
fn m4_draw_sprite_line(
    vdp: &mut SmsVdpState,
    buf: &mut [u8; 256],
    pis: &[u8; 8],
    sprite_x: usize,
    shift_x: usize,
    zoom: bool,
    xs: usize,
    xe: usize,
)
    requires
        xs <= xe <= 256,
        sprite_x < 256,
        shift_x <= 8,
        forall|j: int| 0 <= j < 8 ==> #[trigger] pis@[j] < 16,
    ensures
        (*final(vdp), final(buf)@) == m4_sprite_line(
            (*old(vdp), old(buf)@),
            pis@,
            sprite_x as int,
            shift_x as int,
            zoom,
            xs as int,
            xe as int,
            0,
        ),
        *final(vdp) == (SmsVdpState { status_flags: final(vdp).status_flags, ..*old(vdp) }),
{
    let ghost target = m4_sprite_line(
        (*vdp, buf@),
        pis@,
        sprite_x as int,
        shift_x as int,
        zoom,
        xs as int,
        xe as int,
        0,
    );
    let ghost vdp0 = *vdp;
    let mut j: usize = 0;
    while j < 8
        invariant_except_break
            m4_sprite_line(
                (*vdp, buf@),
                pis@,
                sprite_x as int,
                shift_x as int,
                zoom,
                xs as int,
                xe as int,
                j as int,
            ) == target,
        invariant
            j <= 8,
            xs <= xe <= 256,
            sprite_x < 256,
            shift_x <= 8,
            forall|k: int| 0 <= k < 8 ==> #[trigger] pis@[k] < 16,
            *vdp == (SmsVdpState { status_flags: vdp.status_flags, ..vdp0 }),
        ensures
            (*vdp, buf@) == target,
        decreases 8 - j,
    {
        let index = if zoom {
            2 * j
        } else {
            j
        };
        if sprite_x + index < shift_x + xs || sprite_x + index - shift_x >= xe {
            break ;
        }
        let rx = sprite_x + index - shift_x;
        if buf[rx] != 0x80 {
            vdp.status_flags = vdp.status_flags | SPRITE_COLLISION_FLAG;
            j = j + 1;
            continue ;
        }
        if pis[j] != 0 {
            buf[rx] = pis[j] + 16;
        }
        if zoom {
            let rx2 = rx + 1;
            if rx2 < xs || rx2 >= xe {
                break ;
            }
            if buf[rx2] != 0x80 {
                vdp.status_flags = vdp.status_flags | SPRITE_COLLISION_FLAG;
                j = j + 1;
                continue ;
            }
            if pis[j] != 0 {
                buf[rx2] = pis[j] + 16;
            }
        }
        j = j + 1;
    }
}

/// Draw sprite `i` of the table into the line buffer; whether drawing
/// stops there.
#[verifier::rlimit(100)]
#[verifier::spinoff_prover]
fn m4_draw_sprite(vdp: &mut SmsVdpState, buf: &mut [u8; 256], i: u16) -> (stop: bool)
    requires
        i < 64,
    ensures
        ((*final(vdp), final(buf)@), stop) == m4_sprite(*old(vdp), (*old(vdp), old(buf)@), i as int),
        *final(vdp) == (SmsVdpState { status_flags: final(vdp).status_flags, ..*old(vdp) }),
{
    reveal(m4_sprite);
    let sy = vdp.sprite_y(i) as u16;
    if sy == 0xD1 && matches!(vdp.resolution(), Resolution::Low) {
        return true;
    }
    let zoom = vdp.registers[1] & 1 != 0;
    let height: u16 = if vdp.registers[1] & 2 != 0 {
        16
    } else {
        8
    };
    let diff = vdp.v.wrapping_sub(sy);
    let sprite_line = if zoom {
        diff / 2
    } else {
        diff
    };
    if sprite_line >= height {
        return false;
    }
    let (ys, ye, xs, xe) = m4_window_exec(vdp);
    let shift_x: usize = if vdp.registers[0] & 8 != 0 {
        8
    } else {
        0
    };
    let addr = vdp.sprite_pattern_address(i);
    let pis = vdp.pattern_address_to_palette_indices(addr, sprite_line);
    assert(pis@ =~= m4_indices(*vdp, addr as int, sprite_line as int));
    let sx = vdp.sprite_x(i) as usize;
    m4_draw_sprite_line(vdp, buf, &pis, sx, shift_x, zoom, xs, xe);
    false
}

/// Sprite drawing in mode 4 reads the status flags from the state it
/// changes, not from the VDP it reads the table from.
proof fn lemma_m4_sprite_status(
    a: SmsVdpState,
    b: SmsVdpState,
    st: (SmsVdpState, Seq<u8>),
    i: int,
)
    requires
        a == (SmsVdpState { status_flags: a.status_flags, ..b }),
    ensures
        m4_sprite(a, st, i) == m4_sprite(b, st, i),
{
    reveal(m4_sprite);
    assert(a.vram == b.vram && a.registers == b.registers && a.v == b.v && a.kind == b.kind);
    assert(m4_window(a) == m4_window(b));
    assert(a.spec_resolution() == b.spec_resolution());
    assert forall|addr: int, line: int| #[trigger] m4_indices(a, addr, line) == m4_indices(b, addr, line) by {
        assert(m4_indices(a, addr, line) =~= m4_indices(b, addr, line));
    }
}

/// Draw the sprites of the current line into the line buffer.
fn m4_draw_sprites(vdp: &mut SmsVdpState, buf: &mut [u8; 256])
    ensures
        (*final(vdp), final(buf)@) == m4_sprites(*old(vdp), (*old(vdp), old(buf)@), 0),
        *final(vdp) == (SmsVdpState { status_flags: final(vdp).status_flags, ..*old(vdp) }),
{
    let ghost vdp0 = *vdp;
    let ghost target = m4_sprites(vdp0, (vdp0, buf@), 0);
    let mut i: u16 = 0;
    while i < 64
        invariant_except_break
            m4_sprites(vdp0, (*vdp, buf@), i as int) == target,
        invariant
            i <= 64,
            *vdp == (SmsVdpState { status_flags: vdp.status_flags, ..vdp0 }),
        ensures
            (*vdp, buf@) == target,
        decreases 64 - i,
    {
        let ghost st = (*vdp, buf@);
        let stop = m4_draw_sprite(vdp, buf, i);
        proof {
            lemma_m4_sprite_status(st.0, vdp0, st, i as int);
        }
        if stop {
            break ;
        }
        i = i + 1;
    }
}

/// Draw line `tile_line` of entry `tile` of the name table into the line
/// buffer, from column `start_x`.
fn m4_draw_tile(
    vdp: &SmsVdpState,
    buf: &mut [u8; 256],
    tile: u16,
    tile_line: u16,
    start_x: usize,
    xs: usize,
    xe: usize,
)
    requires
        tile < 1024,
        tile_line < 8,
        start_x < 256,
        xs <= xe <= 256,
    ensures
        final(buf)@ == m4_write_tile(
            *vdp,
            old(buf)@,
            tile as int,
            tile_line as int,
            start_x as int,
            xs as int,
            xe as int,
        ),
{
    reveal(m4_write_tile);
    let addr = vdp.name_table_address() + 2 * tile;
    let low = vdp.vram_at(addr);
    let high = vdp.vram_at(addr.wrapping_add(1));
    let vflip = high / 4 % 2 == 1;
    let hflip = high / 2 % 2 == 1;
    let priority = high / 16 % 2 == 1;
    let palette: u8 = (high / 8 % 2) * 16;
    let pattern_index: u16 = ((high % 2) as u16) * 256 + low as u16;
    let line = if vflip {
        7 - tile_line
    } else {
        tile_line
    };
    let pis = vdp.pattern_address_to_palette_indices(pattern_index * 32, line);
    let ghost pis_s = m4_indices(*vdp, pattern_index as int * 32, line as int);
    assert(pis@ =~= pis_s);
    let ghost target = m4_tile_pixels(
        buf@,
        pis_s,
        hflip,
        priority,
        palette as int,
        start_x as int,
        xs as int,
        xe as int,
        0,
    );
    let mut j: usize = 0;
    while j < 8
        invariant_except_break
            m4_tile_pixels(
                buf@,
                pis_s,
                hflip,
                priority,
                palette as int,
                start_x as int,
                xs as int,
                xe as int,
                j as int,
            ) == target,
        invariant
            j <= 8,
            start_x < 256,
            xs <= xe <= 256,
            palette <= 16,
            pis@ == pis_s,
            forall|k: int| 0 <= k < 8 ==> #[trigger] pis@[k] < 16,
        ensures
            buf@ == target,
        decreases 8 - j,
    {
        let tile_col = if hflip {
            7 - j
        } else {
            j
        };
        let x = j + start_x;
        if x < xs {
            j = j + 1;
            continue ;
        }
        if x >= xe {
            break ;
        }
        if buf[x] >= 0x80 || (priority && pis[tile_col] > 0) {
            buf[x] = pis[tile_col] + palette;
        }
        j = j + 1;
    }
}

/// Draw tiles `from` to `end - 1` of row `row` of the name table into the
/// line buffer.
fn m4_draw_tiles(
    vdp: &SmsVdpState,
    buf: &mut [u8; 256],
    row: u16,
    tile_offset_x: u16,
    tile_line: u16,
    pixel_offset_x: usize,
    xs: usize,
    xe: usize,
    from: u16,
    end: u16,
)
    requires
        row < 32,
        from <= end <= 32,
        tile_line < 8,
        pixel_offset_x < 8,
        xs <= xe <= 256,
    ensures
        final(buf)@ == m4_tiles(
            *vdp,
            old(buf)@,
            row as int,
            tile_offset_x as int,
            tile_line as int,
            pixel_offset_x as int,
            xs as int,
            xe as int,
            from as int,
            end as int,
        ),
{
    let ghost target = m4_tiles(
        *vdp,
        buf@,
        row as int,
        tile_offset_x as int,
        tile_line as int,
        pixel_offset_x as int,
        xs as int,
        xe as int,
        from as int,
        end as int,
    );
    let mut tile = from;
    while tile < end
        invariant
            from <= tile <= end,
            end <= 32,
            row < 32,
            tile_line < 8,
            pixel_offset_x < 8,
            xs <= xe <= 256,
            m4_tiles(
                *vdp,
                buf@,
                row as int,
                tile_offset_x as int,
                tile_line as int,
                pixel_offset_x as int,
                xs as int,
                xe as int,
                tile as int,
                end as int,
            ) == target,
        decreases end - tile,
    {
        let which = 32 * row + tile_offset_x.wrapping_add(tile) % 32;
        m4_draw_tile(vdp, buf, which, tile_line, tile as usize * 8 + pixel_offset_x, xs, xe);
        tile = tile + 1;
    }
}

/// Draw the background of the current line of mode 4 over the sprites in
/// the line buffer.
fn m4_draw_background(vdp: &SmsVdpState, buf: &mut [u8; 256])
    requires
        vdp.v < 240,
    ensures
        final(buf)@ == m4_background(*vdp, old(buf)@),
{
    let (ys, ye, xs, xe) = m4_window_exec(vdp);
    let v = vdp.v;
    let vert_locked = vdp.registers[0] & 0x80 != 0;
    let scroll_x: u16 = if vdp.registers[0] & 0x40 != 0 && v < 16 {
        0
    } else {
        vdp.registers[8] as u16
    };
    let pixel_offset_x = (scroll_x % 8) as usize;
    let tile_offset_x = 0u16.wrapping_sub(scroll_x / 8);
    assert(tile_offset_x as int == (65536 - scroll_x as int / 8) % 65536);
    let vert_tile_height: u16 = if matches!(vdp.resolution(), Resolution::Low) {
        224
    } else {
        256
    };
    let logical_y = (v + vdp.registers[9] as u16) % vert_tile_height;
    if !matches!(vdp.kind, Kind::Gg) && vert_locked {
        m4_draw_tiles(vdp, buf, v / 8, tile_offset_x, v % 8, pixel_offset_x, xs, xe, 23, 32);
    }
    let end: u16 = if vert_locked {
        24
    } else {
        32
    };
    m4_draw_tiles(
        vdp,
        buf,
        logical_y / 8,
        tile_offset_x,
        logical_y % 8,
        pixel_offset_x,
        xs,
        xe,
        0,
        end,
    );
    if vdp.registers[0] & 0x20 != 0 {
        let backdrop = 16 + vdp.registers[7] % 16;
        let ghost b2 = buf@;
        let mut i: usize = 0;
        while i < 8
            invariant
                i <= 8,
                backdrop == 16 + vdp.registers@[7] as int % 16,
                buf@.len() == 256,
                forall|x: int| 0 <= x < i ==> #[trigger] buf@[x] == backdrop,
                forall|x: int| i <= x < 256 ==> #[trigger] buf@[x] == b2[x],
            decreases 8 - i,
        {
            buf[i] = backdrop;
            i = i + 1;
        }
        assert(buf@ =~= Seq::new(
            256,
            |x: int|
                if x < 8 {
                    (16 + vdp.registers@[7] as int % 16) as u8
                } else {
                    b2[x]
                },
        ));
    }
}

/// Paint `width` pixels of line `y` black.
fn m4_paint_black<G: SimpleGraphics>(g: &mut G, width: usize, y: u32)
    requires
        width <= old(g).spec_resolution().0,
        y < old(g).spec_resolution().1,
    ensures
        *final(g) == paint_row(*old(g), y, |x: int| black(), width as nat),
        final(g).spec_resolution() == old(g).spec_resolution(),
{
    let ghost g0 = *g;
    let mut x: usize = 0;
    while x < width
        invariant
            x <= width,
            width <= g.spec_resolution().0,
            y < g.spec_resolution().1,
            g.spec_resolution() == g0.spec_resolution(),
            *g == paint_row(g0, y, |x: int| black(), x as nat),
        decreases width - x,
    {
        g.paint(x as u32, y, SimpleColor { red: 0, green: 0, blue: 0 });
        x = x + 1;
    }
}

/// Paint `width` pixels of line `y` in the CRAM colors the line buffer
/// selects, from column `xs` of the buffer.
fn m4_paint_line<G: SimpleGraphics>(
    g: &mut G,
    vdp: &SmsVdpState,
    colors: &[SimpleColor; 32],
    buf: &[u8; 256],
    xs: usize,
    width: usize,
    y: u32,
)
    requires
        xs + width <= 256,
        width <= old(g).spec_resolution().0,
        y < old(g).spec_resolution().1,
        forall|k: int| 0 <= k < 32 ==> #[trigger] colors@[k] == m4_color(*vdp, k),
    ensures
        *final(g) == paint_row(*old(g), y, m4_line_colors(*vdp, buf@, xs as int), width as nat),
{
    let ghost g0 = *g;
    let ghost line_colors = m4_line_colors(*vdp, buf@, xs as int);
    let mut x: usize = 0;
    while x < width
        invariant
            x <= width,
            xs + width <= 256,
            width <= g.spec_resolution().0,
            y < g.spec_resolution().1,
            g.spec_resolution() == g0.spec_resolution(),
            line_colors == m4_line_colors(*vdp, buf@, xs as int),
            forall|k: int| 0 <= k < 32 ==> #[trigger] colors@[k] == m4_color(*vdp, k),
            *g == paint_row(g0, y, line_colors, x as nat),
        decreases width - x,
    {
        let index = (buf[x + xs] % 32) as usize;
        g.paint(x as u32, y, colors[index]);
        x = x + 1;
    }
}

/// Draw the current line in mode 4, the Master System's own mode: sprites
/// first into a line buffer, then the tiles around or over them, then the
/// whole line in the colors of CRAM.
pub fn draw_line_mode4<G: SimpleGraphics>(s: &mut SmsVdpGraphicsImpler<G>) -> (r: Result<
    (),
    SmsVdpGraphicsError,
>)
    ensures
        r is Ok ==> (final(s).vdp, final(s).graphics) == spec_draw_line_mode4(
            old(s).vdp,
            old(s).graphics,
        ),
        r is Err ==> final(s).vdp == old(s).vdp,
        final(s).vdp == (SmsVdpState { status_flags: final(s).vdp.status_flags, ..old(s).vdp }),
        ({
            let (ys, ye, xs, xe) = m4_window(old(s).vdp);
            (old(s).vdp.v as int) < ys || (old(s).vdp.v >= ye && old(s).vdp.v + 1
                != old(s).vdp.spec_total_lines())
        }) ==> r is Ok,
{
    let v = s.vdp.v;
    let (ys, ye, xs, xe) = m4_window_exec(&s.vdp);
    if (v as usize) < ys {
        return Ok(());
    }
    if (v as usize) >= ye {
        if (v as u32) + 1 == s.vdp.total_lines() as u32 {
            match s.graphics.render() {
                Ok(()) => {},
                Err(e) => {
                    return Err(SmsVdpGraphicsError::Graphics(e));
                },
            }
        }
        return Ok(());
    }
    let width = xe - xs;
    let height = ye - ys;
    match s.graphics.set_resolution(width as u32, height as u32) {
        Ok(()) => {},
        Err(e) => {
            return Err(SmsVdpGraphicsError::Graphics(e));
        },
    }
    let y = (v as usize - ys) as u32;
    if !s.vdp.display_visible() {
        m4_paint_black(&mut s.graphics, width, y);
        return Ok(());
    }
    let ghost vdp0 = s.vdp;
    let mut colors = [SimpleColor { red: 0, green: 0, blue: 0 };32];
    let gg = matches!(s.vdp.kind, Kind::Gg);
    let mut i: usize = 0;
    while i < 32
        invariant
            i <= 32,
            s.vdp == vdp0,
            gg == (vdp0.kind == Kind::Gg),
            forall|k: int| 0 <= k < i ==> #[trigger] colors@[k] == m4_color(vdp0, k),
        decreases 32 - i,
    {
        if gg {
            colors[i] = gg_color_to_simple_color(s.vdp.cram[i]);
        } else {
            colors[i] = vdp_color_to_simple_color((s.vdp.cram[i] % 256) as u8);
        }
        i = i + 1;
    }
    let mut buf = [0x80u8;256];
    assert(buf@ =~= Seq::new(256, |x: int| 0x80u8));
    m4_draw_sprites(&mut s.vdp, &mut buf);
    m4_draw_background(&s.vdp, &mut buf);
    let ghost vdp1 = s.vdp;
    assert forall|k: int| 0 <= k < 32 implies #[trigger] colors@[k] == m4_color(vdp1, k) by {
        assert(m4_color(vdp1, k) == m4_color(vdp0, k));
    }
    m4_paint_line(&mut s.graphics, &s.vdp, &colors, &buf, xs, width, y);
    Ok(())
}

/// Something that draws the VDP's current line.
pub trait SmsVdpGraphics: Sized {
    /// The drawer after the line is drawn, when the host's graphics do not
    /// fail.
    spec fn spec_draw_line(&self) -> Self;

    fn draw_line(&mut self) -> (r: Result<(), SmsVdpGraphicsError>)
        ensures
            r is Ok ==> *final(self) == old(self).spec_draw_line(),
    ;
}

/// The line drawn in the mode the mode bits select: mode 4 whenever M4 is
/// set, Graphics I with no other mode bit, Graphics II with M2 alone; the
/// other modes are not drawn.
pub open spec fn spec_draw_line_modes<G: SimpleGraphics>(vdp: SmsVdpState, g: G) -> (SmsVdpState, G) {
    if vdp.spec_m4() {
        spec_draw_line_mode4(vdp, g)
    } else if !vdp.spec_m1() && !vdp.spec_m2() && !vdp.spec_m3() {
        spec_draw_line_tms(vdp, g, false)
    } else if !vdp.spec_m1() && vdp.spec_m2() && !vdp.spec_m3() {
        spec_draw_line_tms(vdp, g, true)
    } else {
        (vdp, g)
    }
}

impl<G: SimpleGraphics> SmsVdpGraphics for SmsVdpGraphicsImpler<G> {
    open spec fn spec_draw_line(&self) -> Self {
        let (vdp, graphics) = spec_draw_line_modes(self.vdp, self.graphics);
        SmsVdpGraphicsImpler { graphics, vdp }
    }

    fn draw_line(&mut self) -> (r: Result<(), SmsVdpGraphicsError>)
        ensures
            r is Err ==> final(self).vdp == old(self).vdp,
            final(self).vdp == (SmsVdpState { status_flags: final(self).vdp.status_flags, ..old(self).vdp }),
    {
        let m1 = self.vdp.m1();
        let m2 = self.vdp.m2();
        let m3 = self.vdp.m3();
        let m4 = self.vdp.m4();
        if m4 {
            draw_line_mode4(self)
        } else if !m1 && !m2 && !m3 {
            draw_line_graphics1(self)
        } else if !m1 && m2 && !m3 {
            draw_line_graphics2(self)
        } else {
            Ok(())
        }
    }
}

impl SmsVdpGraphics for SmsVdpGraphicsImpler<FakeSmsGraphics> {
    open spec fn spec_draw_line(&self) -> Self {
        *self
    }

    fn draw_line(&mut self) -> (r: Result<(), SmsVdpGraphicsError>) {
        Ok(())
    }
}

/// The VDP's work for one line: the current line is drawn, then its time
/// passes.
pub open spec fn spec_line<G: SimpleGraphics>(vdp: SmsVdpState, g: G) -> (SmsVdpState, G) {
    let (v1, g1) = spec_draw_line_modes(vdp, g);
    (v1.spec_line_timing(), g1)
}

/// Draw the VDP's current line, then let its time pass. An error of the
/// host's graphics is returned at once, with the VDP as it was.
pub fn line<G: SimpleGraphics>(s: &mut SmsVdpGraphicsImpler<G>) -> (r: Result<(), SmsVdpGraphicsError>)
    requires
        old(s).vdp.cycles + 342 <= u64::MAX,
    ensures
        r is Ok ==> (final(s).vdp, final(s).graphics) == spec_line(old(s).vdp, old(s).graphics),
        r is Ok ==> final(s).vdp.cycles == old(s).vdp.cycles + 342,
        r is Err ==> final(s).vdp == old(s).vdp,
{
    match s.draw_line() {
        Ok(()) => {},
        Err(e) => {
            return Err(e);
        },
    }
    s.vdp.line_timing();
    Ok(())
}

} // verus!
