//! Views of the VDP for debugging: every tile of the name table drawn on
//! the screen at once, rather than a line at a time.
use vstd::prelude::*;
use crate::host_multimedia::{SimpleColor, SimpleGraphics};
use super::{Resolution, SmsVdpState};
use super::graphics::{
    pattern_bit, spec_tms9918_palette, spec_vdp_color, tms9918_palette, tms_color,
    vdp_color_to_simple_color, SmsVdpGraphicsError,
};

verus! {

/// The screen after pixels `x0` to `x0 + n - 1` of row `y` are painted, in
/// order, pixel `x0 + i` with `colors(i)`.
pub open spec fn paint_span<G: SimpleGraphics>(
    g: G,
    x0: int,
    y: int,
    colors: spec_fn(int) -> SimpleColor,
    n: nat,
) -> G
    decreases n,
{
    if n == 0 {
        g
    } else {
        paint_span(g, x0, y, colors, (n - 1) as nat).spec_paint(
            (x0 + n - 1) as u32,
            y as u32,
            colors(n - 1),
        )
    }
}

/// The screen after pixels `y0` to `y0 + n - 1` of column `x` are painted,
/// in order, with `color`.
pub open spec fn paint_vspan<G: SimpleGraphics>(g: G, x: int, y0: int, color: SimpleColor, n: nat) -> G
    decreases n,
{
    if n == 0 {
        g
    } else {
        paint_vspan(g, x, y0, color, (n - 1) as nat).spec_paint(x as u32, (y0 + n - 1) as u32, color)
    }
}

/// One color everywhere.
pub open spec fn const_color(c: SimpleColor) -> spec_fn(int) -> SimpleColor {
    |i: int| c
}

/// The colors of line `line` of tile `(tx, ty)`, from the colors `tc` of
/// every tile's pixels.
pub open spec fn tile_line_colors(
    tc: spec_fn(int, int, int, int) -> SimpleColor,
    tx: int,
    ty: int,
    line: int,
) -> spec_fn(int) -> SimpleColor {
    |i: int| tc(tx, ty, line, i)
}

/// The screen after lines 0 to `n - 1` of tile `(tx, ty)` are painted, at
/// pixel `(8 tx, 8 ty)`, pixel `i` of line `line` with `tc(tx, ty, line, i)`.
pub open spec fn paint_tile<G: SimpleGraphics>(
    g: G,
    tc: spec_fn(int, int, int, int) -> SimpleColor,
    tx: int,
    ty: int,
    n: nat,
) -> G
    decreases n,
{
    if n == 0 {
        g
    } else {
        paint_span(
            paint_tile(g, tc, tx, ty, (n - 1) as nat),
            8 * tx,
            8 * ty + n - 1,
            tile_line_colors(tc, tx, ty, n - 1),
            8,
        )
    }
}

/// The screen after tiles `(tx, 0)` to `(tx, n - 1)` are painted.
pub open spec fn paint_tile_column<G: SimpleGraphics>(
    g: G,
    tc: spec_fn(int, int, int, int) -> SimpleColor,
    tx: int,
    n: nat,
) -> G
    decreases n,
{
    if n == 0 {
        g
    } else {
        paint_tile(paint_tile_column(g, tc, tx, (n - 1) as nat), tc, tx, n - 1, 8)
    }
}

/// The screen after columns 0 to `n - 1` of `rows` tiles are painted, a
/// column at a time.
pub open spec fn paint_tile_columns<G: SimpleGraphics>(
    g: G,
    tc: spec_fn(int, int, int, int) -> SimpleColor,
    rows: nat,
    n: nat,
) -> G
    decreases n,
{
    if n == 0 {
        g
    } else {
        paint_tile_column(paint_tile_columns(g, tc, rows, (n - 1) as nat), tc, n - 1, rows)
    }
}

/// The screen after tiles `(0, ty)` to `(n - 1, ty)` are painted.
pub open spec fn paint_tile_row<G: SimpleGraphics>(
    g: G,
    tc: spec_fn(int, int, int, int) -> SimpleColor,
    ty: int,
    n: nat,
) -> G
    decreases n,
{
    if n == 0 {
        g
    } else {
        paint_tile(paint_tile_row(g, tc, ty, (n - 1) as nat), tc, n - 1, ty, 8)
    }
}

/// The screen after rows 0 to `n - 1` of 32 tiles are painted, a row at a
/// time.
pub open spec fn paint_tile_rows<G: SimpleGraphics>(
    g: G,
    tc: spec_fn(int, int, int, int) -> SimpleColor,
    n: nat,
) -> G
    decreases n,
{
    if n == 0 {
        g
    } else {
        paint_tile_row(paint_tile_rows(g, tc, (n - 1) as nat), tc, n - 1, 32)
    }
}

/// The pixels of the tiles of the name table in Graphics I. A pixel's
/// pattern bit is the pattern byte times 0x80, in 8 bits, so every pixel of
/// a tile line shows the color that the lowest bit of its pattern selects.
pub open spec fn g1_tile_color(vdp: SmsVdpState) -> spec_fn(int, int, int, int) -> SimpleColor {
    |tx: int, ty: int, line: int, i: int|
        {
            let pattern_table = (vdp.registers@[4] as int % 8) * 2048;
            let name_table = (vdp.registers@[2] as int % 16) * 1024;
            let color_table = vdp.registers@[3] as int * 64;
            let name = vdp.spec_vram(name_table + ty * 32 + tx) as int;
            let color = vdp.spec_vram(color_table + name / 8);
            let pattern = vdp.spec_vram(pattern_table + name + line);
            tms_color(color, (pattern as int * 0x80) % 256 != 0)
        }
}

/// The pixels of the tiles of the name table in Graphics II, where each
/// third of the screen has its own patterns and colors.
pub open spec fn g2_tile_color(vdp: SmsVdpState) -> spec_fn(int, int, int, int) -> SimpleColor {
    |tx: int, ty: int, line: int, i: int|
        {
            let pattern_table = (vdp.registers@[4] as int / 4 % 2) * 8192;
            let name_table = (vdp.registers@[2] as int % 16) * 1024;
            let color_table = (vdp.registers@[3] as int / 128) * 8192;
            let third = ty / 8;
            let name = vdp.spec_vram(name_table + ty * 32 + tx) as int;
            let color = vdp.spec_vram(color_table + 2048 * third + name * 8 + line);
            let pattern = vdp.spec_vram(pattern_table + 2048 * third + name * 8 + line);
            tms_color(color, pattern_bit(pattern, i))
        }
}

/// The pixels of the tiles of the name table in mode 4, in the Master
/// System's colors.
pub open spec fn m4_tile_color(vdp: SmsVdpState) -> spec_fn(int, int, int, int) -> SimpleColor {
    |tx: int, ty: int, line: int, j: int|
        {
            let address = vdp.spec_name_table_address() as int + 2 * (32 * ty + tx);
            let low = vdp.spec_vram(address);
            let high = vdp.spec_vram(address + 1);
            let palette: int = if high & 8 != 0 {
                16
            } else {
                0
            };
            let pattern_index = (high as int % 2) * 256 + low as int;
            let pi = vdp.spec_palette_index(pattern_index * 32, line, j);
            spec_vdp_color((vdp.cram@[pi as int + palette] % 256) as u8)
        }
}

pub open spec fn magenta() -> SimpleColor {
    SimpleColor { red: 0xF0, green: 0, blue: 0xF0 }
}

pub open spec fn yellow() -> SimpleColor {
    SimpleColor { red: 0xF0, green: 0xF0, blue: 0 }
}

/// How many rows of tiles mode 4 shows.
pub open spec fn m4_rows(vdp: SmsVdpState) -> nat {
    if vdp.spec_resolution() == Resolution::Low {
        28
    } else {
        32
    }
}

/// The screen after the tiles of mode 4 are drawn, with the scroll
/// positions marked: the row of the vertical scroll and the column of the
/// horizontal scroll in magenta, the lines past which scrolling is locked
/// in yellow.
pub open spec fn spec_tiles_mode4<G: SimpleGraphics>(vdp: SmsVdpState, g: G) -> G {
    let rows = m4_rows(vdp);
    let height = 8 * rows;
    let g1 = paint_tile_columns(
        g.spec_set_resolution(256, height as u32),
        m4_tile_color(vdp),
        rows,
        32,
    );
    let g2 = paint_span(g1, 0, vdp.registers@[9] as int % height as int, const_color(magenta()), 256);
    let g3 = if vdp.reg_bit(0, 0x80) {
        paint_vspan(g2, 192, 0, yellow(), height)
    } else {
        g2
    };
    let g4 = paint_vspan(g3, (256 - vdp.registers@[8] as int) % 256, 0, magenta(), height);
    let g5 = if vdp.reg_bit(0, 0x40) {
        paint_span(g4, 0, 16, const_color(yellow()), 256)
    } else {
        g4
    };
    g5.spec_render()
}

/// The screen after every tile is drawn, in the mode the VDP is in (other
/// modes draw nothing).
pub open spec fn spec_draw_tiles<G: SimpleGraphics>(vdp: SmsVdpState, g: G) -> G {
    if vdp.spec_m4() {
        spec_tiles_mode4(vdp, g)
    } else if !vdp.spec_m1() && !vdp.spec_m2() && !vdp.spec_m3() {
        paint_tile_columns(g.spec_set_resolution(256, 192), g1_tile_color(vdp), 24, 32).spec_render()
    } else if !vdp.spec_m1() && vdp.spec_m2() && !vdp.spec_m3() {
        paint_tile_rows(g.spec_set_resolution(256, 192), g2_tile_color(vdp), 24).spec_render()
    } else {
        g
    }
}

/// Paint line `line` of tile `(tx, ty)` all in one color.
fn paint_tile_line_one<G: SimpleGraphics>(
    g: &mut G,
    tc: Ghost<spec_fn(int, int, int, int) -> SimpleColor>,
    tx: u16,
    ty: u16,
    line: u16,
    c: SimpleColor,
    height: Ghost<u32>,
)
    requires
        old(g).spec_resolution() == (256u32, height@),
        tx < 32,
        8 * ty + line < height@,
        line < 8,
        forall|i: int| 0 <= i < 8 ==> #[trigger] tc@(tx as int, ty as int, line as int, i) == c,
    ensures
        *final(g) == paint_span(
            *old(g),
            8 * tx,
            8 * ty + line,
            tile_line_colors(tc@, tx as int, ty as int, line as int),
            8,
        ),
        final(g).spec_resolution() == old(g).spec_resolution(),
{
    let ghost g0 = *g;
    let mut i: u16 = 0;
    while i < 8
        invariant
            i <= 8,
            tx < 32,
            8 * ty + line < height@,
            g.spec_resolution() == (256u32, height@),
            forall|j: int| 0 <= j < 8 ==> #[trigger] tc@(tx as int, ty as int, line as int, j) == c,
            *g == paint_span(
                g0,
                8 * tx,
                8 * ty + line,
                tile_line_colors(tc@, tx as int, ty as int, line as int),
                i as nat,
            ),
        decreases 8 - i,
    {
        assert(tile_line_colors(tc@, tx as int, ty as int, line as int)(i as int) == c);
        g.paint(tx as u32 * 8 + i as u32, ty as u32 * 8 + line as u32, c);
        i = i + 1;
    }
}

/// Paint tile `(tx, ty)` in Graphics I.
fn draw_tile_graphics1<G: SimpleGraphics>(vdp: &SmsVdpState, g: &mut G, tx: u16, ty: u16)
    requires
        old(g).spec_resolution() == (256u32, 192u32),
        tx < 32,
        ty < 24,
    ensures
        *final(g) == paint_tile(*old(g), g1_tile_color(*vdp), tx as int, ty as int, 8),
        final(g).spec_resolution() == (256u32, 192u32),
{
    let ghost g0 = *g;
    let ghost tc = g1_tile_color(*vdp);
    let pattern_table: u16 = (vdp.registers[4] % 8) as u16 * 2048;
    let name_table: u16 = (vdp.registers[2] % 16) as u16 * 1024;
    let color_table: u16 = vdp.registers[3] as u16 * 64;
    let name = vdp.vram_at(name_table + ty * 32 + tx) as u16;
    let color = vdp.vram_at(color_table + name / 8);
    let color0 = tms9918_palette(color % 16);
    let color1 = tms9918_palette(color / 16);
    let mut line: u16 = 0;
    while line < 8
        invariant
            line <= 8,
            tx < 32,
            ty < 24,
            tc == g1_tile_color(*vdp),
            pattern_table == (vdp.registers@[4] as int % 8) * 2048,
            name == vdp.spec_vram((vdp.registers@[2] as int % 16) * 1024 + ty * 32 + tx),
            color == vdp.spec_vram(vdp.registers@[3] as int * 64 + name / 8),
            color0 == spec_tms9918_palette(color as int % 16),
            color1 == spec_tms9918_palette(color as int / 16),
            g.spec_resolution() == (256u32, 192u32),
            *g == paint_tile(g0, tc, tx as int, ty as int, line as nat),
        decreases 8 - line,
    {
        let pattern = vdp.vram_at(pattern_table + name + line);
        let c = if pattern.wrapping_mul(0x80) == 0 {
            color0
        } else {
            color1
        };
        paint_tile_line_one(g, Ghost(tc), tx, ty, line, c, Ghost(192u32));
        line = line + 1;
    }
}

/// Paint tile `(tx, ty)` in Graphics II.
fn draw_tile_graphics2<G: SimpleGraphics>(vdp: &SmsVdpState, g: &mut G, tx: u16, ty: u16)
    requires
        old(g).spec_resolution() == (256u32, 192u32),
        tx < 32,
        ty < 24,
    ensures
        *final(g) == paint_tile(*old(g), g2_tile_color(*vdp), tx as int, ty as int, 8),
        final(g).spec_resolution() == (256u32, 192u32),
{
    let ghost g0 = *g;
    let ghost tc = g2_tile_color(*vdp);
    let pattern_table: u16 = (vdp.registers[4] / 4 % 2) as u16 * 8192;
    let name_table: u16 = (vdp.registers[2] % 16) as u16 * 1024;
    let color_table: u16 = (vdp.registers[3] / 128) as u16 * 8192;
    let third = ty / 8;
    let name = vdp.vram_at(name_table + ty * 32 + tx) as u16;
    let pattern_address = pattern_table + 2048 * third;
    let color_address = color_table + 2048 * third;
    let mut line: u16 = 0;
    while line < 8
        invariant
            line <= 8,
            tx < 32,
            ty < 24,
            third == ty / 8,
            tc == g2_tile_color(*vdp),
            pattern_address == (vdp.registers@[4] as int / 4 % 2) * 8192 + 2048 * third,
            color_address == (vdp.registers@[3] as int / 128) * 8192 + 2048 * third,
            name == vdp.spec_vram((vdp.registers@[2] as int % 16) * 1024 + ty * 32 + tx),
            name < 256,
            g.spec_resolution() == (256u32, 192u32),
            *g == paint_tile(g0, tc, tx as int, ty as int, line as nat),
        decreases 8 - line,
    {
        let color = vdp.vram_at(color_address + name * 8 + line);
        let color0 = tms9918_palette(color % 16);
        let color1 = tms9918_palette(color / 16);
        let pattern = vdp.vram_at(pattern_address + name * 8 + line);
        let ghost before = *g;
        let ghost colors = tile_line_colors(tc, tx as int, ty as int, line as int);
        let mut i: u8 = 0;
        while i < 8
            invariant
                i <= 8,
                line < 8,
                tx < 32,
                ty < 24,
                colors == tile_line_colors(tc, tx as int, ty as int, line as int),
                forall|j: int| 0 <= j < 8 ==> #[trigger] colors(j) == tms_color(color, pattern_bit(pattern, j)),
                color0 == spec_tms9918_palette(color as int % 16),
                color1 == spec_tms9918_palette(color as int / 16),
                g.spec_resolution() == (256u32, 192u32),
                *g == paint_span(before, 8 * tx, 8 * ty + line, colors, i as nat),
            decreases 8 - i,
        {
            let sh: u8 = 7 - i;
            let bit = (pattern >> sh) & 1;
            assert(bit == 0 || bit == 1) by (bit_vector)
                requires
                    bit == (pattern >> sh) & 1,
            ;
            let c = if bit == 0 {
                color0
            } else {
                color1
            };
            assert(c == colors(i as int));
            g.paint(tx as u32 * 8 + i as u32, ty as u32 * 8 + line as u32, c);
            i = i + 1;
        }
        line = line + 1;
    }
}

/// Paint tile `(tx, ty)` in mode 4.
fn draw_tile_mode4<G: SimpleGraphics>(vdp: &SmsVdpState, g: &mut G, tx: u16, ty: u16, height: u32)
    requires
        old(g).spec_resolution() == (256u32, height),
        height == 8 * m4_rows(*vdp),
        tx < 32,
        ty < m4_rows(*vdp),
    ensures
        *final(g) == paint_tile(*old(g), m4_tile_color(*vdp), tx as int, ty as int, 8),
        final(g).spec_resolution() == (256u32, height),
{
    let ghost g0 = *g;
    let ghost tc = m4_tile_color(*vdp);
    let address = vdp.name_table_address() + 2 * (32 * ty + tx);
    let low = vdp.vram_at(address);
    let high = vdp.vram_at(address + 1);
    let palette: usize = if high & 8 != 0 {
        16
    } else {
        0
    };
    let pattern_index = crate::utilities::to16(low, high & 1);
    assert(high & 1 == high % 2) by (bit_vector);
    let mut line: u16 = 0;
    while line < 8
        invariant
            line <= 8,
            tx < 32,
            ty < m4_rows(*vdp),
            height == 8 * m4_rows(*vdp),
            tc == m4_tile_color(*vdp),
            address == vdp.spec_name_table_address() as int + 2 * (32 * ty + tx),
            low == vdp.spec_vram(address as int),
            high == vdp.spec_vram(address as int + 1),
            palette == (if high & 8 != 0 {
                16int
            } else {
                0int
            }),
            pattern_index == (high as int % 2) * 256 + low as int,
            g.spec_resolution() == (256u32, height),
            *g == paint_tile(g0, tc, tx as int, ty as int, line as nat),
        decreases 8 - line,
    {
        let pis = vdp.pattern_address_to_palette_indices(pattern_index * 32, line);
        let ghost before = *g;
        let ghost colors = tile_line_colors(tc, tx as int, ty as int, line as int);
        let mut j: usize = 0;
        while j < 8
            invariant
                j <= 8,
                line < 8,
                tx < 32,
                ty < m4_rows(*vdp),
                height == 8 * m4_rows(*vdp),
                palette == 16 || palette == 0,
                colors == tile_line_colors(tc, tx as int, ty as int, line as int),
                forall|k: int| 0 <= k < 8 ==> #[trigger] colors(k) == spec_vdp_color(
                    (vdp.cram@[pis@[k] as int + palette] % 256) as u8,
                ),
                forall|k: int| 0 <= k < 8 ==> #[trigger] pis@[k] < 16,
                g.spec_resolution() == (256u32, height),
                *g == paint_span(before, 8 * tx, 8 * ty + line, colors, j as nat),
            decreases 8 - j,
        {
            let c = vdp_color_to_simple_color((vdp.cram[pis[j] as usize + palette] % 256) as u8);
            assert(c == colors(j as int));
            g.paint(tx as u32 * 8 + j as u32, ty as u32 * 8 + line as u32, c);
            j = j + 1;
        }
        line = line + 1;
    }
}

/// Draw every tile of the name table in Graphics I, a column at a time.
pub fn draw_tiles_graphics1<G: SimpleGraphics>(vdp: &SmsVdpState, graphics: &mut G) -> (r: Result<
    (),
    SmsVdpGraphicsError,
>)
    ensures
        r is Ok ==> *final(graphics) == paint_tile_columns(
            old(graphics).spec_set_resolution(256, 192),
            g1_tile_color(*vdp),
            24,
            32,
        ).spec_render(),
{
    match graphics.set_resolution(256, 192) {
        Ok(()) => {},
        Err(e) => {
            return Err(SmsVdpGraphicsError::Graphics(e));
        },
    }
    let ghost g1 = *graphics;
    let ghost tc = g1_tile_color(*vdp);
    let mut tx: u16 = 0;
    while tx < 32
        invariant
            tx <= 32,
            tc == g1_tile_color(*vdp),
            graphics.spec_resolution() == (256u32, 192u32),
            *graphics == paint_tile_columns(g1, tc, 24, tx as nat),
        decreases 32 - tx,
    {
        let ghost before = *graphics;
        let mut ty: u16 = 0;
        while ty < 24
            invariant
                ty <= 24,
                tx < 32,
                tc == g1_tile_color(*vdp),
                graphics.spec_resolution() == (256u32, 192u32),
                *graphics == paint_tile_column(before, tc, tx as int, ty as nat),
            decreases 24 - ty,
        {
            draw_tile_graphics1(vdp, graphics, tx, ty);
            ty = ty + 1;
        }
        tx = tx + 1;
    }
    match graphics.render() {
        Ok(()) => Ok(()),
        Err(e) => Err(SmsVdpGraphicsError::Graphics(e)),
    }
}

/// Draw every tile of the name table in Graphics II, a row at a time.
pub fn draw_tiles_graphics2<G: SimpleGraphics>(vdp: &SmsVdpState, graphics: &mut G) -> (r: Result<
    (),
    SmsVdpGraphicsError,
>)
    ensures
        r is Ok ==> *final(graphics) == paint_tile_rows(
            old(graphics).spec_set_resolution(256, 192),
            g2_tile_color(*vdp),
            24,
        ).spec_render(),
{
    match graphics.set_resolution(256, 192) {
        Ok(()) => {},
        Err(e) => {
            return Err(SmsVdpGraphicsError::Graphics(e));
        },
    }
    let ghost g1 = *graphics;
    let ghost tc = g2_tile_color(*vdp);
    let mut ty: u16 = 0;
    while ty < 24
        invariant
            ty <= 24,
            tc == g2_tile_color(*vdp),
            graphics.spec_resolution() == (256u32, 192u32),
            *graphics == paint_tile_rows(g1, tc, ty as nat),
        decreases 24 - ty,
    {
        let ghost before = *graphics;
        let mut tx: u16 = 0;
        while tx < 32
            invariant
                tx <= 32,
                ty < 24,
                tc == g2_tile_color(*vdp),
                graphics.spec_resolution() == (256u32, 192u32),
                *graphics == paint_tile_row(before, tc, ty as int, tx as nat),
            decreases 32 - tx,
        {
            draw_tile_graphics2(vdp, graphics, tx, ty);
            tx = tx + 1;
        }
        ty = ty + 1;
    }
    match graphics.render() {
        Ok(()) => Ok(()),
        Err(e) => Err(SmsVdpGraphicsError::Graphics(e)),
    }
}

/// Paint pixels `0..256` of row `y` in `c`.
fn paint_row_of<G: SimpleGraphics>(g: &mut G, y: u32, c: SimpleColor)
    requires
        y < old(g).spec_resolution().1,
        old(g).spec_resolution().0 == 256,
    ensures
        *final(g) == paint_span(*old(g), 0, y as int, const_color(c), 256),
        final(g).spec_resolution() == old(g).spec_resolution(),
{
    let ghost g0 = *g;
    let mut i: u32 = 0;
    while i < 256
        invariant
            i <= 256,
            y < g.spec_resolution().1,
            g.spec_resolution() == g0.spec_resolution(),
            g0.spec_resolution().0 == 256,
            *g == paint_span(g0, 0, y as int, const_color(c), i as nat),
        decreases 256 - i,
    {
        g.paint(i, y, c);
        i = i + 1;
    }
}

/// Paint pixels `0..height` of column `x` in `c`.
fn paint_column_of<G: SimpleGraphics>(g: &mut G, x: u32, height: u32, c: SimpleColor)
    requires
        x < old(g).spec_resolution().0,
        old(g).spec_resolution().1 == height,
    ensures
        *final(g) == paint_vspan(*old(g), x as int, 0, c, height as nat),
        final(g).spec_resolution() == old(g).spec_resolution(),
{
    let ghost g0 = *g;
    let mut i: u32 = 0;
    while i < height
        invariant
            i <= height,
            x < g.spec_resolution().0,
            g.spec_resolution() == g0.spec_resolution(),
            g0.spec_resolution().1 == height,
            *g == paint_vspan(g0, x as int, 0, c, i as nat),
        decreases height - i,
    {
        g.paint(x, i, c);
        i = i + 1;
    }
}

/// Draw every tile of the name table in mode 4, a column at a time, and
/// mark the scroll positions.
pub fn draw_tiles_mode4<G: SimpleGraphics>(vdp: &SmsVdpState, graphics: &mut G) -> (r: Result<
    (),
    SmsVdpGraphicsError,
>)
    ensures
        r is Ok ==> *final(graphics) == spec_tiles_mode4(*vdp, *old(graphics)),
{
    let rows: u16 = match vdp.resolution() {
        Resolution::Low => 28,
        _ => 32,
    };
    let height: u32 = 8 * rows as u32;
    match graphics.set_resolution(256, height) {
        Ok(()) => {},
        Err(e) => {
            return Err(SmsVdpGraphicsError::Graphics(e));
        },
    }
    let ghost g1 = *graphics;
    let ghost tc = m4_tile_color(*vdp);
    let mut tx: u16 = 0;
    while tx < 32
        invariant
            tx <= 32,
            rows == m4_rows(*vdp),
            height == 8 * m4_rows(*vdp),
            tc == m4_tile_color(*vdp),
            graphics.spec_resolution() == (256u32, height),
            *graphics == paint_tile_columns(g1, tc, rows as nat, tx as nat),
        decreases 32 - tx,
    {
        let ghost before = *graphics;
        let mut ty: u16 = 0;
        while ty < rows
            invariant
                ty <= rows,
                tx < 32,
                rows == m4_rows(*vdp),
                height == 8 * m4_rows(*vdp),
                tc == m4_tile_color(*vdp),
                graphics.spec_resolution() == (256u32, height),
                *graphics == paint_tile_column(before, tc, tx as int, ty as nat),
            decreases rows - ty,
        {
            draw_tile_mode4(vdp, graphics, tx, ty, height);
            ty = ty + 1;
        }
        tx = tx + 1;
    }
    let magenta = SimpleColor { red: 0xF0, green: 0, blue: 0xF0 };
    let yellow = SimpleColor { red: 0xF0, green: 0xF0, blue: 0 };
    let y_scroll = vdp.registers[9] as u32 % height;
    paint_row_of(graphics, y_scroll, magenta);
    if vdp.registers[0] & 0x80 != 0 {
        paint_column_of(graphics, 24 * 8, height, yellow);
    }
    let x_scroll = (256 - vdp.registers[8] as u32) % 256;
    paint_column_of(graphics, x_scroll, height, magenta);
    if vdp.registers[0] & 0x40 != 0 {
        paint_row_of(graphics, 16, yellow);
    }
    match graphics.render() {
        Ok(()) => Ok(()),
        Err(e) => Err(SmsVdpGraphicsError::Graphics(e)),
    }
}

/// Draw every tile of the name table, in the mode the VDP is in; other
/// modes draw nothing.
pub fn draw_tiles<G: SimpleGraphics>(vdp: &SmsVdpState, graphics: &mut G) -> (r: Result<
    (),
    SmsVdpGraphicsError,
>)
    ensures
        r is Ok ==> *final(graphics) == spec_draw_tiles(*vdp, *old(graphics)),
        !vdp.spec_m4() && !(!vdp.spec_m1() && !vdp.spec_m3()) ==> r is Ok && *final(graphics)
            == *old(graphics),
{
    if vdp.m4() {
        draw_tiles_mode4(vdp, graphics)
    } else if !vdp.m1() && !vdp.m2() && !vdp.m3() {
        draw_tiles_graphics1(vdp, graphics)
    } else if !vdp.m1() && vdp.m2() && !vdp.m3() {
        draw_tiles_graphics2(vdp, graphics)
    } else {
        Ok(())
    }
}

} // verus!
