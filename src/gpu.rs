//! The picture-processing unit: VRAM, OAM, the LCD registers, the scanline
//! state machine and the rasterizer that fills an RGBA frame buffer.
use vstd::prelude::*;

verus! {

pub const SCREEN_WIDTH: usize = 160;

pub const SCREEN_HEIGHT: usize = 144;

/// Bytes in the RGBA frame buffer.
pub const FRAME_BYTES: usize = 92160;

pub const VRAM_SIZE: usize = 0x2000;

pub const OAM_SIZE: usize = 0xA0;

/// T-cycles of one whole scanline.
pub const LINE_CYCLES: u32 = 456;

/// The four PPU modes, as held in STAT bits 1..0.
#[derive(Clone, Copy, PartialEq, Eq, Structural)]
pub enum Mode {
    HBlank,
    VBlank,
    OamSearch,
    PixelTransfer,
}

/// The STAT bits of a mode.
pub open spec fn mode_bits(m: Mode) -> u8 {
    match m {
        Mode::HBlank => 0,
        Mode::VBlank => 1,
        Mode::OamSearch => 2,
        Mode::PixelTransfer => 3,
    }
}

/// Everything the PPU holds, as mathematical values.
pub struct GpuModel {
    pub vram: Seq<u8>,
    pub oam: Seq<u8>,
    pub frame: Seq<u8>,
    pub lcdc: u8,
    pub stat: u8,
    pub scy: u8,
    pub scx: u8,
    pub ly: u8,
    pub lyc: u8,
    pub bgp: u8,
    pub obp0: u8,
    pub obp1: u8,
    pub wy: u8,
    pub wx: u8,
    pub stat_irq: bool,
    pub cycles: u64,
}

/// The PPU.
pub struct Gpu {
    pub vram: Vec<u8>,
    pub oam: Vec<u8>,
    /// 160 x 144 pixels, four bytes (R, G, B, A) each, row by row.
    pub frame_buffer: Vec<u8>,
    pub lcdc: u8,
    pub stat: u8,
    pub scy: u8,
    pub scx: u8,
    pub ly: u8,
    pub lyc: u8,
    pub bgp: u8,
    pub obp0: u8,
    pub obp1: u8,
    pub wy: u8,
    pub wx: u8,
    /// Set by `step` when a STAT interrupt source fired during that step.
    pub request_stat_interrupt: bool,
    /// T-cycles spent in the current mode.
    pub cycles: u64,
}

impl View for Gpu {
    type V = GpuModel;

    open spec fn view(&self) -> GpuModel {
        GpuModel {
            vram: self.vram@,
            oam: self.oam@,
            frame: self.frame_buffer@,
            lcdc: self.lcdc,
            stat: self.stat,
            scy: self.scy,
            scx: self.scx,
            ly: self.ly,
            lyc: self.lyc,
            bgp: self.bgp,
            obp0: self.obp0,
            obp1: self.obp1,
            wy: self.wy,
            wx: self.wx,
            stat_irq: self.request_stat_interrupt,
            cycles: self.cycles,
        }
    }
}

/// Buffer sizes, and LY within 0..=153 and below 144 outside VBlank.
pub open spec fn gpu_shape(g: GpuModel) -> bool {
    &&& g.vram.len() == VRAM_SIZE
    &&& g.oam.len() == OAM_SIZE
    &&& g.frame.len() == FRAME_BYTES
    &&& g.ly <= 153
    &&& (g.stat & 0x03 != 1 ==> g.ly < 144)
}

/// The invariant of the PPU: its shape, and less than a line's worth of
/// pending cycles.
pub open spec fn gpu_wf(g: GpuModel) -> bool {
    &&& gpu_shape(g)
    &&& g.cycles < LINE_CYCLES
}

// ---------------------------------------------------------------------------
// Rasterizer model
// ---------------------------------------------------------------------------

/// One channel (0 = R .. 3 = A) of the RGBA colour of a shade, from
/// lightest (0) to darkest (3) green.
pub open spec fn rgba(shade: u8, channel: int) -> u8 {
    if channel == 3 {
        0xFF
    } else if shade == 0 {
        if channel == 0 { 0x9B } else if channel == 1 { 0xBC } else { 0x0F }
    } else if shade == 1 {
        if channel == 0 { 0x8B } else if channel == 1 { 0xAC } else { 0x0F }
    } else if shade == 2 {
        if channel == 0 { 0x30 } else if channel == 1 { 0x62 } else { 0x30 }
    } else {
        if channel == 0 { 0x0F } else if channel == 1 { 0x38 } else { 0x0F }
    }
}

/// The shade that `palette` gives to a colour id.
pub open spec fn palette_shade(palette: u8, color_id: u8) -> u8 {
    (palette >> ((color_id * 2) as u8)) & 0x03
}

/// The colour id (0..=3) of bit `bit` of the tile row whose two bytes start at `addr`.
pub open spec fn color_id_at(vram: Seq<u8>, addr: int, bit: u8) -> u8 {
    let lo: u8 = if (vram[addr] >> bit) & 1 == 1 { 1 } else { 0 };
    let hi: u8 = if (vram[addr + 1] >> bit) & 1 == 1 { 2 } else { 0 };
    (hi + lo) as u8
}

/// Offset in VRAM of the data of tile `tile_id`: unsigned from 0x8000, or
/// signed around 0x9000.
pub open spec fn tile_data_addr(tile_id: u8, unsigned: bool) -> int {
    if unsigned {
        tile_id * 16
    } else if tile_id < 128 {
        0x1000 + tile_id * 16
    } else {
        0x1000 + (tile_id - 256) * 16
    }
}

/// Shade of a tile-map pixel: map at `map_base`, map coordinates (`mx`, `my`).
/// Tile data is addressed as set by LCDC bit 4, colours through `bgp`.
pub open spec fn map_shade(vram: Seq<u8>, lcdc: u8, bgp: u8, map_base: int, mx: int, my: int) -> u8 {
    let tile_id = vram[map_base + (my / 8) * 32 + mx / 8];
    let data = tile_data_addr(tile_id, lcdc & 0x10 != 0);
    palette_shade(bgp, color_id_at(vram, data + (my % 8) * 2, (7 - mx % 8) as u8))
}

/// Background shade of screen column `x` on line LY.
pub open spec fn bg_shade(g: GpuModel, x: int) -> u8 {
    let map_base = if g.lcdc & 0x08 != 0 { 0x1C00int } else { 0x1800int };
    map_shade(g.vram, g.lcdc, g.bgp, map_base, (x + g.scx) % 256, (g.ly + g.scy) % 256)
}

/// Left edge of the window (WX - 7, as an 8-bit value).
pub open spec fn window_left(g: GpuModel) -> int {
    (g.wx - 7 + 256) % 256
}

/// Window shade of screen column `x` on line LY, where the window covers it.
pub open spec fn window_shade(g: GpuModel, x: int) -> Option<u8> {
    if g.ly < g.wy || x < window_left(g) {
        None
    } else {
        let map_base = if g.lcdc & 0x40 != 0 { 0x1C00int } else { 0x1800int };
        Some(map_shade(g.vram, g.lcdc, g.bgp, map_base, x - window_left(g), g.ly - g.wy))
    }
}

/// Sprite height from LCDC bit 2.
pub open spec fn sprite_rows(g: GpuModel) -> int {
    if g.lcdc & 0x04 != 0 { 16 } else { 8 }
}

/// Shade of sprite `i` at screen column `x` on line LY, where it is drawn
/// (colour id 0 is transparent).
pub open spec fn sprite_shade(g: GpuModel, i: int, x: int) -> Option<u8> {
    let y_pos = g.oam[4 * i] - 16;
    let x_pos = g.oam[4 * i + 1] - 8;
    let tile = g.oam[4 * i + 2];
    let flags = g.oam[4 * i + 3];
    let h = sprite_rows(g);
    if g.ly < y_pos || g.ly >= y_pos + h || x < x_pos || x >= x_pos + 8 {
        None
    } else {
        let raw_line = g.ly - y_pos;
        let line = if flags & 0x40 != 0 { h - 1 - raw_line } else { raw_line };
        let t = if h == 16 { tile & 0xFE } else { tile };
        let px = x - x_pos;
        let bit = if flags & 0x20 != 0 { px } else { 7 - px };
        let cid = color_id_at(g.vram, t * 16 + line * 2, bit as u8);
        let palette = if flags & 0x10 != 0 { g.obp1 } else { g.obp0 };
        if cid == 0 { None } else { Some(palette_shade(palette, cid)) }
    }
}

/// A layer of a scanline.
pub enum Layer {
    Background,
    Window,
    Sprite(int),
}

/// Shade that `layer` draws at column `x`, where it draws.
pub open spec fn layer_shade(g: GpuModel, layer: Layer, x: int) -> Option<u8> {
    match layer {
        Layer::Background => Some(bg_shade(g, x)),
        Layer::Window => window_shade(g, x),
        Layer::Sprite(i) => sprite_shade(g, i, x),
    }
}

/// `frame` with the pixel at (`x`, `y`) set to `shade`.
pub open spec fn put_pixel(frame: Seq<u8>, x: int, y: int, shade: u8) -> Seq<u8> {
    Seq::new(
        frame.len(),
        |k: int|
            if k / 4 == y * 160 + x {
                rgba(shade, k % 4)
            } else {
                frame[k]
            },
    )
}

/// `frame` with `layer` drawn over columns `lo..hi` (clipped to the screen) of line `y`.
pub open spec fn paint(frame: Seq<u8>, g: GpuModel, layer: Layer, y: int, lo: int, hi: int) -> Seq<u8> {
    Seq::new(
        frame.len(),
        |k: int|
            {
                let x = (k / 4) % 160;
                if k / 640 == y && lo <= x < hi && layer_shade(g, layer, x) is Some {
                    rgba(layer_shade(g, layer, x)->Some_0, k % 4)
                } else {
                    frame[k]
                }
            },
    )
}

/// `frame` with sprites `0..n` drawn on line LY, later sprites on top.
pub open spec fn paint_sprites(frame: Seq<u8>, g: GpuModel, n: int) -> Seq<u8>
    decreases n,
{
    if n <= 0 {
        frame
    } else {
        paint(paint_sprites(frame, g, n - 1), g, Layer::Sprite(n - 1), g.ly as int, 0, 160)
    }
}

/// The frame buffer after line LY is rendered: background (LCDC bit 0), then
/// window (bit 5), then the 40 sprites (bit 1) on top.
pub open spec fn rendered_frame(g: GpuModel) -> Seq<u8> {
    let f1 = if g.lcdc & 0x01 != 0 {
        paint(g.frame, g, Layer::Background, g.ly as int, 0, 160)
    } else {
        g.frame
    };
    let f2 = if g.lcdc & 0x20 != 0 {
        paint(f1, g, Layer::Window, g.ly as int, 0, 160)
    } else {
        f1
    };
    if g.lcdc & 0x02 != 0 {
        paint_sprites(f2, g, 40)
    } else {
        f2
    }
}

// ---------------------------------------------------------------------------
// State machine model
// ---------------------------------------------------------------------------

/// `g` in mode `m` (STAT bits 1..0).
pub open spec fn with_mode(g: GpuModel, m: Mode) -> GpuModel {
    GpuModel { stat: (g.stat & 0xFC) | mode_bits(m), ..g }
}

/// `g` with a STAT request raised where the STAT enable bit `enable` is set.
pub open spec fn request_if(g: GpuModel, enable: u8) -> GpuModel {
    GpuModel { stat_irq: g.stat_irq || g.stat & enable != 0, ..g }
}

/// The LY = LYC comparison: coincidence flag, and a request where STAT bit 6 is set.
pub open spec fn compare_lyc(g: GpuModel) -> GpuModel {
    if g.ly == g.lyc {
        request_if(GpuModel { stat: g.stat | 0x04, ..g }, 0x40)
    } else {
        GpuModel { stat: g.stat & !0x04u8, ..g }
    }
}

/// The next line: LY + 1, then the comparison with LYC.
pub open spec fn next_line(g: GpuModel, cycles: int) -> GpuModel {
    compare_lyc(GpuModel { ly: (g.ly + 1) as u8, cycles: cycles as u64, ..g })
}

/// T-cycles that the mode in STAT bits 1..0 lasts: OAM search 80, pixel
/// transfer 172, HBlank 204, one VBlank line 456.
pub open spec fn mode_duration(stat: u8) -> int {
    let mode = stat & 0x03;
    if mode == 2 {
        80
    } else if mode == 3 {
        172
    } else if mode == 0 {
        204
    } else {
        456
    }
}

/// The mode change that is due once the current mode has run its course:
/// the new state and whether VBlank was entered. Leaving pixel transfer
/// renders line LY.
pub open spec fn gpu_transition(g: GpuModel) -> (GpuModel, bool) {
    let c = g.cycles - mode_duration(g.stat);
    let mode = g.stat & 0x03;
    if mode == 2 {
        (with_mode(GpuModel { cycles: c as u64, ..g }, Mode::PixelTransfer), false)
    } else if mode == 3 {
        let g2 = request_if(with_mode(GpuModel { cycles: c as u64, ..g }, Mode::HBlank), 0x08);
        (GpuModel { frame: rendered_frame(g2), ..g2 }, false)
    } else if mode == 0 {
        let g2 = next_line(g, c);
        if g2.ly == 144 {
            (request_if(with_mode(g2, Mode::VBlank), 0x10), true)
        } else {
            (request_if(with_mode(g2, Mode::OamSearch), 0x20), false)
        }
    } else if g.ly >= 153 {
        // The last VBlank line ends: LY wraps to 0 and is compared with LYC there.
        let g2 = compare_lyc(GpuModel { ly: 0, cycles: c as u64, ..g });
        (request_if(with_mode(g2, Mode::OamSearch), 0x20), false)
    } else {
        (next_line(g, c), false)
    }
}

/// Every mode change that the pending cycles make due, in order: the final
/// state and whether VBlank was entered on the way.
pub open spec fn gpu_settle(g: GpuModel) -> (GpuModel, bool)
    decreases g.cycles,
{
    if g.cycles >= mode_duration(g.stat) {
        let (g1, r1) = gpu_transition(g);
        if g1.cycles < g.cycles {
            let (g2, r2) = gpu_settle(g1);
            (g2, r1 || r2)
        } else {
            (g1, r1)
        }
    } else {
        (g, false)
    }
}

/// One step of `t` T-cycles: the new state and whether VBlank was entered.
/// With the LCD off (LCDC bit 7 clear) LY, the mode and the cycle count reset.
#[verifier::opaque]
pub open spec fn gpu_step(g: GpuModel, t: u32) -> (GpuModel, bool) {
    let g0 = GpuModel { stat_irq: false, ..g };
    if g.lcdc & 0x80 == 0 {
        (GpuModel { ly: 0, stat: g.stat & 0xFC, cycles: 0, ..g0 }, false)
    } else {
        gpu_settle(GpuModel { cycles: (g.cycles + t) as u64, ..g0 })
    }
}

// ---------------------------------------------------------------------------
// Lemmas on the frame buffer
// ---------------------------------------------------------------------------

proof fn lemma_pixel_index(k: int, x: int, y: int)
    requires
        0 <= x < 160,
        0 <= y,
        k / 4 == y * 160 + x,
        0 <= k,
    ensures
        k / 640 == y,
        (k / 4) % 160 == x,
{
    assert(k / 640 == (k / 4) / 160) by {
        vstd::arithmetic::div_mod::lemma_div_denominator(k, 4, 160);
    }
    vstd::arithmetic::div_mod::lemma_fundamental_div_mod_converse(k / 4, 160, y, x);
}

proof fn lemma_paint_extend(frame: Seq<u8>, g: GpuModel, layer: Layer, y: int, lo: int, x: int)
    requires
        0 <= y < 144,
        lo <= x,
        frame.len() == FRAME_BYTES,
    ensures
        paint(frame, g, layer, y, lo, x + 1) == (match layer_shade(g, layer, x) {
            Some(s) => if 0 <= x < 160 {
                put_pixel(paint(frame, g, layer, y, lo, x), x, y, s)
            } else {
                paint(frame, g, layer, y, lo, x)
            },
            None => paint(frame, g, layer, y, lo, x),
        }),
{
    let a = paint(frame, g, layer, y, lo, x + 1);
    let p = paint(frame, g, layer, y, lo, x);
    if !(0 <= x < 160) {
        assert forall|k: int| 0 <= k < a.len() implies a[k] == p[k] by {}
        assert(a =~= p);
        return;
    }
    match layer_shade(g, layer, x) {
        Some(s) => {
            let b = put_pixel(p, x, y, s);
            assert forall|k: int| 0 <= k < a.len() implies a[k] == b[k] by {
                if k / 4 == y * 160 + x {
                    lemma_pixel_index(k, x, y);
                } else {
                    let xx = (k / 4) % 160;
                    if k / 640 == y && xx == x {
                        assert(k / 640 == (k / 4) / 160) by {
                            vstd::arithmetic::div_mod::lemma_div_denominator(k, 4, 160);
                        }
                        vstd::arithmetic::div_mod::lemma_fundamental_div_mod(k / 4, 160);
                    }
                }
            }
            assert(a =~= b);
        },
        None => {
            assert forall|k: int| 0 <= k < a.len() implies a[k] == p[k] by {}
            assert(a =~= p);
        },
    }
}

proof fn lemma_paint_sprites_len(frame: Seq<u8>, g: GpuModel, n: int)
    ensures
        paint_sprites(frame, g, n).len() == frame.len(),
    decreases n,
{
    if n > 0 {
        lemma_paint_sprites_len(frame, g, n - 1);
    }
}

/// Sprite layers depend on the PPU's registers and memories, not on its frame buffer or STAT.
proof fn lemma_paint_sprites_same(frame: Seq<u8>, g: GpuModel, h: GpuModel, n: int)
    requires
        g.vram == h.vram && g.oam == h.oam && g.lcdc == h.lcdc && g.ly == h.ly,
        g.obp0 == h.obp0 && g.obp1 == h.obp1,
    ensures
        paint_sprites(frame, g, n) == paint_sprites(frame, h, n),
    decreases n,
{
    if n > 0 {
        lemma_paint_sprites_same(frame, g, h, n - 1);
        let f = paint_sprites(frame, g, n - 1);
        assert(paint(f, g, Layer::Sprite(n - 1), g.ly as int, 0, 160) =~= paint(f, h, Layer::Sprite(n - 1), h.ly as int, 0, 160));
    }
}

/// The mode bits of STAT after a mode change or a change of the coincidence flag.
pub(crate) proof fn lemma_mode_bits_stat()
    ensures
        forall|s: u8| #[trigger] ((s & 0xFC) | 0) & 0x03 == 0,
        forall|s: u8| #[trigger] ((s & 0xFC) | 1) & 0x03 == 1,
        forall|s: u8| #[trigger] ((s & 0xFC) | 2) & 0x03 == 2,
        forall|s: u8| #[trigger] ((s & 0xFC) | 3) & 0x03 == 3,
        forall|s: u8| #[trigger] (s | 0x04) & 0x03 == s & 0x03,
        forall|s: u8| #[trigger] (s & !0x04u8) & 0x03 == s & 0x03,
        forall|s: u8| #[trigger] (s & 0xFC) & 0x03 == 0,
{
    assert forall|s: u8| #[trigger] ((s & 0xFC) | 0) & 0x03 == 0 by {
        assert(((s & 0xFC) | 0) & 0x03 == 0) by (bit_vector);
    }
    assert forall|s: u8| #[trigger] ((s & 0xFC) | 1) & 0x03 == 1 by {
        assert(((s & 0xFC) | 1) & 0x03 == 1) by (bit_vector);
    }
    assert forall|s: u8| #[trigger] ((s & 0xFC) | 2) & 0x03 == 2 by {
        assert(((s & 0xFC) | 2) & 0x03 == 2) by (bit_vector);
    }
    assert forall|s: u8| #[trigger] ((s & 0xFC) | 3) & 0x03 == 3 by {
        assert(((s & 0xFC) | 3) & 0x03 == 3) by (bit_vector);
    }
    assert forall|s: u8| #[trigger] (s | 0x04) & 0x03 == s & 0x03 by {
        assert((s | 0x04) & 0x03 == s & 0x03) by (bit_vector);
    }
    assert forall|s: u8| #[trigger] (s & !0x04u8) & 0x03 == s & 0x03 by {
        assert((s & !0x04u8) & 0x03 == s & 0x03) by (bit_vector);
    }
    assert forall|s: u8| #[trigger] (s & 0xFC) & 0x03 == 0 by {
        assert((s & 0xFC) & 0x03 == 0) by (bit_vector);
    }
}

/// A due mode change keeps the PPU's shape and uses up the mode's cycles.
proof fn lemma_transition_shape(g: GpuModel)
    requires
        gpu_shape(g),
        g.cycles >= mode_duration(g.stat),
    ensures
        gpu_shape(gpu_transition(g).0),
        gpu_transition(g).0.cycles == g.cycles - mode_duration(g.stat),
        gpu_transition(g).0.cycles < g.cycles,
{
    lemma_mode_bits_stat();
    let st = g.stat;
    assert(st & 0x03 <= 3) by (bit_vector);
    let c = g.cycles - mode_duration(g.stat);
    if g.stat & 0x03 == 3 {
        let g2 = request_if(with_mode(GpuModel { cycles: c as u64, ..g }, Mode::HBlank), 0x08);
        lemma_rendered_len(g2);
    }
}

proof fn lemma_settle_wf(g: GpuModel)
    requires
        gpu_shape(g),
    ensures
        gpu_wf(gpu_settle(g).0),
    decreases g.cycles,
{
    if g.cycles >= mode_duration(g.stat) {
        lemma_transition_shape(g);
        lemma_settle_wf(gpu_transition(g).0);
    }
}

/// The PPU's invariant survives every step of its state machine; in
/// particular LY stays within 0..=153.
pub proof fn lemma_gpu_step_wf(g: GpuModel, t: u32)
    requires
        gpu_wf(g),
    ensures
        gpu_wf(gpu_step(g, t).0),
        gpu_step(g, t).0.ly <= 153,
{
    reveal(gpu_step);
    lemma_mode_bits_stat();
    if g.lcdc & 0x80 != 0 {
        lemma_settle_wf(GpuModel { cycles: (g.cycles + t) as u64, stat_irq: false, ..g });
    }
}

/// With the LCD on and no mode change overdue, a step of at most 80
/// T-cycles (the shortest mode) makes at most one mode change, so LY stays,
/// moves to the next line, or wraps to 0.
pub proof fn lemma_short_step_single_change(g: GpuModel, t: u32)
    requires
        gpu_wf(g),
        g.cycles < mode_duration(g.stat),
        t <= 80,
        g.lcdc & 0x80 != 0,
    ensures
        gpu_step(g, t).0.ly == g.ly || gpu_step(g, t).0.ly == g.ly + 1 || gpu_step(g, t).0.ly == 0,
        ({
            let g1 = GpuModel { cycles: (g.cycles + t) as u64, stat_irq: false, ..g };
            gpu_step(g, t) == (if g1.cycles >= mode_duration(g1.stat) {
                gpu_transition(g1)
            } else {
                (g1, false)
            })
        }),
{
    reveal(gpu_step);
    lemma_mode_bits_stat();
    let g1 = GpuModel { cycles: (g.cycles + t) as u64, stat_irq: false, ..g };
    if g1.cycles >= mode_duration(g1.stat) {
        lemma_transition_shape(g1);
        let g2 = gpu_transition(g1).0;
        assert(g2.cycles < 80);
        assert(gpu_settle(g2) == (g2, false));
    }
}

/// Rendering a line keeps the frame buffer's length.
proof fn lemma_rendered_len(g: GpuModel)
    ensures
        rendered_frame(g).len() == g.frame.len(),
{
    let f1 = if g.lcdc & 0x01 != 0 {
        paint(g.frame, g, Layer::Background, g.ly as int, 0, 160)
    } else {
        g.frame
    };
    let f2 = if g.lcdc & 0x20 != 0 {
        paint(f1, g, Layer::Window, g.ly as int, 0, 160)
    } else {
        f1
    };
    lemma_paint_sprites_len(f2, g, 40);
}

proof fn lemma_paint_empty(frame: Seq<u8>, g: GpuModel, layer: Layer, y: int, lo: int)
    ensures
        paint(frame, g, layer, y, lo, lo) == frame,
{
    assert(paint(frame, g, layer, y, lo, lo) =~= frame);
}

// ---------------------------------------------------------------------------
// Implementation
// ---------------------------------------------------------------------------

/// The PPU at power-up: zeroed memories, LCD and background on, default
/// palettes, mode 0, LY 0.
pub open spec fn power_up_gpu() -> GpuModel {
    GpuModel {
        vram: Seq::new(VRAM_SIZE as nat, |i: int| 0u8),
        oam: Seq::new(OAM_SIZE as nat, |i: int| 0u8),
        frame: Seq::new(FRAME_BYTES as nat, |i: int| 0u8),
        lcdc: 0x91,
        stat: 0,
        scy: 0,
        scx: 0,
        ly: 0,
        lyc: 0,
        bgp: 0xFC,
        obp0: 0xFF,
        obp1: 0xFF,
        wy: 0,
        wx: 0,
        stat_irq: false,
        cycles: 0,
    }
}

impl Gpu {
    /// The PPU at power-up.
    pub fn new() -> (r: Gpu)
        ensures
            gpu_wf(r@),
            r@ == power_up_gpu(),
    {
        Gpu {
            vram: crate::zeroed(VRAM_SIZE),
            oam: crate::zeroed(OAM_SIZE),
            frame_buffer: crate::zeroed(FRAME_BYTES),
            lcdc: 0x91,
            stat: 0,
            scy: 0,
            scx: 0,
            ly: 0,
            lyc: 0,
            bgp: 0xFC,
            obp0: 0xFF,
            obp1: 0xFF,
            wy: 0,
            wx: 0,
            request_stat_interrupt: false,
            cycles: 0,
        }
    }

    /// Reads VRAM at offset `addr` (0..0x2000).
    pub fn read_vram(&self, addr: u16) -> (r: u8)
        requires
            self.vram@.len() == VRAM_SIZE,
            addr < VRAM_SIZE,
        ensures
            r == self.vram@[addr as int],
    {
        self.vram[addr as usize]
    }

    /// Writes VRAM at offset `addr` (0..0x2000).
    pub fn write_vram(&mut self, addr: u16, val: u8)
        requires
            old(self).vram@.len() == VRAM_SIZE,
            addr < VRAM_SIZE,
        ensures
            final(self)@ == (GpuModel { vram: old(self)@.vram.update(addr as int, val), ..old(self)@ }),
    {
        self.vram.set(addr as usize, val);
    }

    fn get_mode(&self) -> (r: Mode)
        ensures
            mode_bits(r) == self.stat & 0x03,
    {
        let s = self.stat;
        let m = s & 0x03;
        assert(s & 0x03 <= 3) by (bit_vector);
        if m == 0 {
            Mode::HBlank
        } else if m == 1 {
            Mode::VBlank
        } else if m == 2 {
            Mode::OamSearch
        } else {
            Mode::PixelTransfer
        }
    }

    fn set_mode(&mut self, mode: Mode)
        ensures
            final(self)@ == with_mode(old(self)@, mode),
    {
        let bits: u8 = match mode {
            Mode::HBlank => 0,
            Mode::VBlank => 1,
            Mode::OamSearch => 2,
            Mode::PixelTransfer => 3,
        };
        self.stat = (self.stat & 0xFC) | bits;
    }

    fn request_if(&mut self, enable: u8)
        ensures
            final(self)@ == request_if(old(self)@, enable),
    {
        if (self.stat & enable) != 0 {
            self.request_stat_interrupt = true;
        }
    }

    pub(crate) fn check_lyc(&mut self)
        ensures
            final(self)@ == compare_lyc(old(self)@),
    {
        if self.ly == self.lyc {
            self.stat = self.stat | 0x04;
            self.request_if(0x40);
        } else {
            self.stat = self.stat & !0x04u8;
        }
    }
}

impl Gpu {
    fn get_tile_data_addr(&self, tile_id: u8, use_unsigned: bool) -> (r: u16)
        ensures
            r as int == tile_data_addr(tile_id, use_unsigned),
    {
        if use_unsigned {
            tile_id as u16 * 16
        } else if tile_id < 128 {
            0x1000 + tile_id as u16 * 16
        } else {
            0x1000 - (256 - tile_id as u16) * 16
        }
    }

    /// Colour id of bit `bit` of the tile row at VRAM offset `addr`.
    fn color_id(&self, addr: u16, bit: u8) -> (r: u8)
        requires
            self.vram@.len() == VRAM_SIZE,
            addr + 1 < VRAM_SIZE,
            bit < 8,
        ensures
            r == color_id_at(self.vram@, addr as int, bit),
            r <= 3,
    {
        let lo: u8 = if (self.vram[addr as usize] >> bit) & 1 == 1 { 1 } else { 0 };
        let hi: u8 = if (self.vram[addr as usize + 1] >> bit) & 1 == 1 { 2 } else { 0 };
        hi + lo
    }

    /// The shade that `palette` gives to `color_id`.
    fn get_color(&self, color_id: u8, palette: u8) -> (r: u8)
        requires
            color_id <= 3,
        ensures
            r == palette_shade(palette, color_id),
    {
        (palette >> (color_id * 2)) & 0x03
    }

    /// Shade of the tile-map pixel at map coordinates (`mx`, `my`) of the map at `map_base`.
    fn map_pixel(&self, map_base: u16, mx: u8, my: u8) -> (r: u8)
        requires
            gpu_shape(self@),
            map_base == 0x1800 || map_base == 0x1C00,
        ensures
            r == map_shade(self.vram@, self.lcdc, self.bgp, map_base as int, mx as int, my as int),
    {
        let tile_map_addr = map_base + (my / 8) as u16 * 32 + (mx / 8) as u16;
        let tile_id = self.vram[tile_map_addr as usize];
        let tile_data_addr = self.get_tile_data_addr(tile_id, (self.lcdc & 0x10) != 0);
        let cid = self.color_id(tile_data_addr + (my % 8) as u16 * 2, 7 - (mx % 8));
        self.get_color(cid, self.bgp)
    }

    /// Writes the RGBA colour of `shade` at pixel (`x`, `y`).
    fn set_pixel(&mut self, x: usize, y: usize, shade: u8)
        requires
            old(self).frame_buffer@.len() == FRAME_BYTES,
            x < SCREEN_WIDTH,
            y < SCREEN_HEIGHT,
        ensures
            final(self)@ == (GpuModel {
                frame: put_pixel(old(self)@.frame, x as int, y as int, shade),
                ..old(self)@
            }),
    {
        let offset = (y * SCREEN_WIDTH + x) * 4;
        let (r, g, b): (u8, u8, u8) = if shade == 0 {
            (0x9B, 0xBC, 0x0F)
        } else if shade == 1 {
            (0x8B, 0xAC, 0x0F)
        } else if shade == 2 {
            (0x30, 0x62, 0x30)
        } else {
            (0x0F, 0x38, 0x0F)
        };
        let ghost f0 = self.frame_buffer@;
        self.frame_buffer.set(offset, r);
        self.frame_buffer.set(offset + 1, g);
        self.frame_buffer.set(offset + 2, b);
        self.frame_buffer.set(offset + 3, 0xFF);
        assert(self.frame_buffer@ =~= put_pixel(f0, x as int, y as int, shade));
    }

    /// Background shade of column `x` on line LY.
    fn bg_pixel(&self, x: usize) -> (r: u8)
        requires
            gpu_shape(self@),
            x < SCREEN_WIDTH,
        ensures
            r == bg_shade(self@, x as int),
    {
        let map_base: u16 = if (self.lcdc & 0x08) != 0 { 0x1C00 } else { 0x1800 };
        let map_y = self.ly.wrapping_add(self.scy);
        let map_x = (x as u8).wrapping_add(self.scx);
        self.map_pixel(map_base, map_x, map_y)
    }

    fn render_background(&mut self)
        requires
            gpu_shape(old(self)@),
            old(self).ly < 144,
        ensures
            final(self)@ == (GpuModel {
                frame: paint(old(self)@.frame, old(self)@, Layer::Background, old(self).ly as int, 0, 160),
                ..old(self)@
            }),
    {
        let ghost g0 = self@;
        let y = self.ly;
        proof {
            lemma_paint_empty(g0.frame, g0, Layer::Background, y as int, 0);
        }
        let mut x: usize = 0;
        while x < SCREEN_WIDTH
            invariant
                x <= SCREEN_WIDTH,
                gpu_shape(g0),
                y == g0.ly,
                y < 144,
                self@ == (GpuModel { frame: paint(g0.frame, g0, Layer::Background, y as int, 0, x as int), ..g0 }),
            decreases SCREEN_WIDTH - x,
        {
            let shade = self.bg_pixel(x);
            assert(bg_shade(self@, x as int) == bg_shade(g0, x as int));
            proof {
                lemma_paint_extend(g0.frame, g0, Layer::Background, y as int, 0, x as int);
            }
            self.set_pixel(x, y as usize, shade);
            x = x + 1;
        }
    }

    fn render_window(&mut self)
        requires
            gpu_shape(old(self)@),
            old(self).ly < 144,
        ensures
            final(self)@ == (GpuModel {
                frame: paint(old(self)@.frame, old(self)@, Layer::Window, old(self).ly as int, 0, 160),
                ..old(self)@
            }),
    {
        let ghost g0 = self@;
        let wy = self.wy;
        if self.ly < wy {
            assert(paint(g0.frame, g0, Layer::Window, g0.ly as int, 0, 160) =~= g0.frame);
            return;
        }
        let window_x_pos = self.wx.wrapping_sub(7);
        let map_base: u16 = if (self.lcdc & 0x40) != 0 { 0x1C00 } else { 0x1800 };
        let window_line = self.ly - wy;
        let y = self.ly;
        proof {
            lemma_paint_empty(g0.frame, g0, Layer::Window, y as int, 0);
        }
        let mut x: usize = 0;
        while x < SCREEN_WIDTH
            invariant
                x <= SCREEN_WIDTH,
                gpu_shape(g0),
                y == g0.ly,
                y < 144,
                g0.wy <= g0.ly,
                window_x_pos as int == window_left(g0),
                map_base == (if g0.lcdc & 0x40 != 0 { 0x1C00int } else { 0x1800int }),
                window_line == g0.ly - g0.wy,
                self@ == (GpuModel { frame: paint(g0.frame, g0, Layer::Window, y as int, 0, x as int), ..g0 }),
            decreases SCREEN_WIDTH - x,
        {
            proof {
                lemma_paint_extend(g0.frame, g0, Layer::Window, y as int, 0, x as int);
            }
            if (x as u8) >= window_x_pos {
                let window_rel_x = (x as u8) - window_x_pos;
                let shade = self.map_pixel(map_base, window_rel_x, window_line);
                assert(window_shade(g0, x as int) == Some(shade));
                self.set_pixel(x, y as usize, shade);
            }
            x = x + 1;
        }
    }

    fn render_sprites(&mut self)
        requires
            gpu_shape(old(self)@),
            old(self).ly < 144,
        ensures
            final(self)@ == (GpuModel { frame: paint_sprites(old(self)@.frame, old(self)@, 40), ..old(self)@ }),
    {
        let ghost g0 = self@;
        let sprite_height: i16 = if (self.lcdc & 0x04) != 0 { 16 } else { 8 };
        let ly = self.ly as i16;
        let mut i: usize = 0;
        while i < 40
            invariant
                i <= 40,
                gpu_shape(g0),
                g0.ly < 144,
                sprite_height as int == sprite_rows(g0),
                ly as int == g0.ly as int,
                self@ == (GpuModel { frame: paint_sprites(g0.frame, g0, i as int), ..g0 }),
            decreases 40 - i,
        {
            let ghost pf = self@.frame;
            proof {
                lemma_paint_sprites_len(g0.frame, g0, i as int);
            }
            let idx = i * 4;
            let y_pos = self.oam[idx] as i16 - 16;
            let x_pos = self.oam[idx + 1] as i16 - 8;
            let tile_idx = self.oam[idx + 2];
            let flags = self.oam[idx + 3];
            if ly < y_pos || ly >= y_pos + sprite_height {
                assert(paint(pf, g0, Layer::Sprite(i as int), g0.ly as int, 0, 160) =~= pf);
            } else {
                let y_flip = (flags & 0x40) != 0;
                let x_flip = (flags & 0x20) != 0;
                let palette = if (flags & 0x10) != 0 { self.obp1 } else { self.obp0 };
                let mut line = (ly - y_pos) as u16;
                if y_flip {
                    line = sprite_height as u16 - 1 - line;
                }
                let actual_tile_idx = if sprite_height == 16 { tile_idx & 0xFE } else { tile_idx };
                let tile_addr = (actual_tile_idx as u16 * 16) + (line * 2);
                proof {
                    lemma_paint_empty(pf, g0, Layer::Sprite(i as int), g0.ly as int, x_pos as int);
                }
                let mut pixel_x: i16 = 0;
                while pixel_x < 8
                    invariant
                        0 <= pixel_x <= 8,
                        gpu_shape(g0),
                        g0.ly < 144,
                        i < 40,
                        pf.len() == FRAME_BYTES,
                        sprite_height as int == sprite_rows(g0),
                        ly as int == g0.ly as int,
                        y_pos as int == g0.oam[4 * i] - 16,
                        x_pos as int == g0.oam[4 * i + 1] - 8,
                        flags == g0.oam[4 * i + 3],
                        x_flip == (flags & 0x20 != 0),
                        palette == (if flags & 0x10 != 0 { g0.obp1 } else { g0.obp0 }),
                        y_pos <= ly < y_pos + sprite_height,
                        tile_addr as int == (if sprite_height == 16 { g0.oam[4 * i + 2] & 0xFE } else {
                            g0.oam[4 * i + 2]
                        }) * 16 + (if flags & 0x40 != 0 { sprite_height - 1 - (ly - y_pos) } else { ly
                            - y_pos }) * 2,
                        tile_addr + 1 < VRAM_SIZE,
                        self@ == (GpuModel {
                            frame: paint(
                                pf,
                                g0,
                                Layer::Sprite(i as int),
                                g0.ly as int,
                                x_pos as int,
                                x_pos + pixel_x,
                            ),
                            ..g0
                        }),
                    decreases 8 - pixel_x,
                {
                    let screen_x = x_pos + pixel_x;
                    proof {
                        lemma_paint_extend(pf, g0, Layer::Sprite(i as int), g0.ly as int, x_pos as int, screen_x as int);
                    }
                    if screen_x >= 0 && screen_x < 160 {
                        let bit: u8 = if x_flip { pixel_x as u8 } else { (7 - pixel_x) as u8 };
                        let cid = self.color_id(tile_addr, bit);
                        if cid != 0 {
                            let shade = self.get_color(cid, palette);
                            assert(sprite_shade(g0, i as int, screen_x as int) == Some(shade));
                            self.set_pixel(screen_x as usize, ly as usize, shade);
                        } else {
                            assert(sprite_shade(g0, i as int, screen_x as int) is None);
                        }
                    }
                    pixel_x = pixel_x + 1;
                }
                assert(paint(pf, g0, Layer::Sprite(i as int), g0.ly as int, x_pos as int, x_pos + 8) =~= paint(
                    pf,
                    g0,
                    Layer::Sprite(i as int),
                    g0.ly as int,
                    0,
                    160,
                ));
            }
            i = i + 1;
        }
    }
}

impl Gpu {
    /// Renders line LY into the frame buffer.
    fn render_scanline(&mut self)
        requires
            gpu_shape(old(self)@),
            old(self).ly < 144,
        ensures
            final(self)@ == (GpuModel { frame: rendered_frame(old(self)@), ..old(self)@ }),
            final(self).frame_buffer@.len() == FRAME_BYTES,
    {
        let ghost g0 = self@;
        if (self.lcdc & 0x01) != 0 {
            self.render_background();
        }
        let ghost g1 = self@;
        if (self.lcdc & 0x20) != 0 {
            self.render_window();
            assert(window_shade(g1, 0) == window_shade(g0, 0));
            assert(forall|x: int| #[trigger] layer_shade(g1, Layer::Window, x) == layer_shade(g0, Layer::Window, x));
            assert(paint(g1.frame, g1, Layer::Window, g0.ly as int, 0, 160) =~= paint(g1.frame, g0, Layer::Window, g0.ly as int, 0, 160));
        }
        let ghost g2 = self@;
        if (self.lcdc & 0x02) != 0 {
            self.render_sprites();
            proof {
                lemma_paint_sprites_same(g2.frame, g2, g0, 40);
                lemma_paint_sprites_len(g2.frame, g2, 40);
            }
        }
    }

    /// Performs the mode change that is due; tells whether VBlank was entered.
    fn transition(&mut self) -> (r: bool)
        requires
            gpu_shape(old(self)@),
            old(self).cycles >= mode_duration(old(self).stat),
        ensures
            (final(self)@, r) == gpu_transition(old(self)@),
    {
        proof {
            lemma_mode_bits_stat();
            lemma_transition_shape(self@);
        }
        let mut frame_ready = false;
        match self.get_mode() {
            Mode::OamSearch => {
                self.cycles = self.cycles - 80;
                self.set_mode(Mode::PixelTransfer);
            },
            Mode::PixelTransfer => {
                self.cycles = self.cycles - 172;
                self.set_mode(Mode::HBlank);
                self.request_if(0x08);
                self.render_scanline();
            },
            Mode::HBlank => {
                self.cycles = self.cycles - 204;
                self.ly = self.ly + 1;
                self.check_lyc();
                if self.ly == 144 {
                    self.set_mode(Mode::VBlank);
                    self.request_if(0x10);
                    frame_ready = true;
                } else {
                    self.set_mode(Mode::OamSearch);
                    self.request_if(0x20);
                }
            },
            Mode::VBlank => {
                self.cycles = self.cycles - LINE_CYCLES as u64;
                if self.ly >= 153 {
                    self.ly = 0;
                    self.check_lyc();
                    self.set_mode(Mode::OamSearch);
                    self.request_if(0x20);
                } else {
                    self.ly = self.ly + 1;
                    self.check_lyc();
                }
            },
        }
        frame_ready
    }

    /// T-cycles that the current mode lasts.
    fn mode_duration(&self) -> (r: u64)
        ensures
            r == mode_duration(self.stat),
    {
        let m = self.stat & 0x03;
        if m == 2 {
            80
        } else if m == 3 {
            172
        } else if m == 0 {
            204
        } else {
            LINE_CYCLES as u64
        }
    }

    /// Advances the PPU by `cycles` T-cycles, through every mode change that
    /// they make due, and tells whether VBlank was entered (a frame is
    /// ready). `request_stat_interrupt` tells whether a STAT source fired.
    pub fn step(&mut self, cycles: u32) -> (frame_ready: bool)
        requires
            gpu_wf(old(self)@),
        ensures
            gpu_wf(final(self)@),
            (final(self)@, frame_ready) == gpu_step(old(self)@, cycles),
    {
        proof {
            reveal(gpu_step);
            lemma_mode_bits_stat();
            lemma_gpu_step_wf(self@, cycles);
        }
        let ghost g0 = self@;
        self.request_stat_interrupt = false;
        if (self.lcdc & 0x80) == 0 {
            self.ly = 0;
            self.stat = self.stat & 0xFC;
            self.cycles = 0;
            return false;
        }
        self.cycles = self.cycles + cycles as u64;
        let mut frame_ready = false;
        while self.cycles >= self.mode_duration()
            invariant
                gpu_shape(self@),
                gpu_step(g0, cycles) == (gpu_settle(self@).0, frame_ready || gpu_settle(self@).1),
            decreases self.cycles,
        {
            proof {
                lemma_transition_shape(self@);
            }
            let ready = self.transition();
            frame_ready = frame_ready || ready;
        }
        frame_ready
    }
}

} // verus!
