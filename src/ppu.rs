//! The pixel-processing unit: a four-mode state machine driven in dots
//! (four per M-cycle), which composes one scanline of background, window and
//! sprites when it leaves VRAM mode and signals a finished frame when the
//! vertical blank ends.

use vstd::prelude::*;

use crate::memory::{Memory, MemoryModel, START_OF_HIGH_RAM};

verus! {

pub const SCREEN_WIDTH: usize = 160;
pub const SCREEN_HEIGHT: usize = 144;
pub const BYTES_PER_PIXEL: usize = 3;
/// Bytes in one frame: 160 × 144 pixels of three bytes.
pub const FRAME_BYTES: usize = 69120;
/// Bytes in one scanline.
pub const LINE_BYTES: usize = 480;
/// Dots in one frame: 154 lines of 456.
pub const FRAME_DOTS: u32 = 70224;

pub const LCDC: u16 = 0xFF40;
pub const SCY: u16 = 0xFF42;
pub const SCX: u16 = 0xFF43;
pub const LY: u16 = 0xFF44;
pub const WY: u16 = 0xFF4A;
pub const WX: u16 = 0xFF4B;

const OAM_START: u16 = 0xFE00;
const TILESET_START_ADDRESS: u16 = 0x8000;
const SIGNED_TILESET_BASE: u16 = 0x9000;
pub const SPRITE_COUNT: u16 = 40;

#[derive(Clone, Copy, Debug, PartialEq, Eq, Structural)]
pub enum PpuMode {
    OAM,
    VRAM,
    HBLANK,
    VBLANK,
}

/// LCDC decoded, bit 0 first.
#[derive(Clone, Copy, Debug, PartialEq, Eq, Structural)]
pub struct LcdControl {
    pub draw_background: bool,
    pub draw_sprites: bool,
    pub big_sprites: bool,
    pub background_tile_select: bool,
    pub background_tile_data_select: bool,
    pub window_display: bool,
    pub window_tile_map_select: bool,
    pub lcd_enabled: bool,
}

pub struct Ppu {
    pub lcd_control: LcdControl,
    pub current_mode: PpuMode,
    pub dots_in_mode: u32,
    pub scanline: u8,
    pub wx: u8,
    pub wy: u8,
    pub total_cycles: u64,
}

/// Bit `b` of `v`.
pub open spec fn bit_set(v: u8, b: u8) -> bool {
    (v >> b) & 1 == 1
}

pub open spec fn lcd_control_of(v: u8) -> LcdControl {
    LcdControl {
        draw_background: bit_set(v, 0),
        draw_sprites: bit_set(v, 1),
        big_sprites: bit_set(v, 2),
        background_tile_select: bit_set(v, 3),
        background_tile_data_select: bit_set(v, 4),
        window_display: bit_set(v, 5),
        window_tile_map_select: bit_set(v, 6),
        lcd_enabled: bit_set(v, 7),
    }
}

/// Dots that each mode lasts.
pub open spec fn budget(mode: PpuMode) -> int {
    match mode {
        PpuMode::OAM => 80,
        PpuMode::VRAM => 168,
        PpuMode::HBLANK => 208,
        PpuMode::VBLANK => 456,
    }
}

/// Mode, scanline, dots into the mode, and whether a frame just finished,
/// after `dots` dots have gone by in `mode` on line `ly`: at most one mode
/// change, with the dots past the budget carried into the next mode.
pub open spec fn next_timing(mode: PpuMode, ly: u8, dots: int) -> (PpuMode, u8, int, bool) {
    if dots < budget(mode) {
        (mode, ly, dots, false)
    } else {
        let rest = dots - budget(mode);
        match mode {
            PpuMode::OAM => (PpuMode::VRAM, ly, rest, false),
            PpuMode::VRAM => (PpuMode::HBLANK, ly, rest, false),
            PpuMode::HBLANK => if ly + 1 == 144 {
                (PpuMode::VBLANK, (ly + 1) as u8, rest, false)
            } else {
                (PpuMode::OAM, (ly + 1) as u8, rest, false)
            },
            PpuMode::VBLANK => if ly == 153 {
                (PpuMode::OAM, 0, rest, true)
            } else {
                (PpuMode::VBLANK, (ly + 1) as u8, rest, false)
            },
        }
    }
}

/// A reachable timing state: the scanline is at most 153, in VBLANK exactly
/// from line 144 on, and fewer dots than the mode's budget have gone by.
pub open spec fn timing_wf(mode: PpuMode, ly: u8, dots: int) -> bool {
    &&& ly <= 153
    &&& (mode == PpuMode::VBLANK) == (ly >= 144)
    &&& 0 <= dots < budget(mode)
}

/// Dots since the start of the frame.
pub open spec fn frame_position(mode: PpuMode, ly: u8, dots: int) -> int {
    ly * 456 + match mode {
        PpuMode::OAM => 0int,
        PpuMode::VRAM => 80,
        PpuMode::HBLANK => 248,
        PpuMode::VBLANK => 0,
    } + dots
}

/// Advancing a reachable state by at most 80 dots moves it that far along
/// the frame, modulo one frame, and signals a frame exactly when it crosses
/// the frame's end.
pub proof fn lemma_timing_step(mode: PpuMode, ly: u8, dots: int, k: int)
    requires
        timing_wf(mode, ly, dots),
        0 <= k <= 80,
    ensures
        ({
            let (m1, ly1, d1, ready) = next_timing(mode, ly, dots + k);
            &&& timing_wf(m1, ly1, d1)
            &&& frame_position(m1, ly1, d1) == (frame_position(mode, ly, dots) + k) % 70224
            &&& ready == (frame_position(mode, ly, dots) + k >= 70224)
        }),
{
    assert(frame_position(mode, ly, dots) + k < 2 * 70224);
}

/// Timing states and frame signals after steps of `ks` dots each.
pub open spec fn run_timing(mode: PpuMode, ly: u8, dots: int, ks: Seq<int>) -> (PpuMode, u8, int, nat)
    decreases ks.len(),
{
    if ks.len() == 0 {
        (mode, ly, dots, 0)
    } else {
        let (m1, ly1, d1, ready) = next_timing(mode, ly, dots + ks[0]);
        let (m2, ly2, d2, n) = run_timing(m1, ly1, d1, ks.drop_first());
        (m2, ly2, d2, n + if ready { 1nat } else { 0 })
    }
}

pub open spec fn seq_sum(ks: Seq<int>) -> int
    decreases ks.len(),
{
    if ks.len() == 0 {
        0
    } else {
        ks[0] + seq_sum(ks.drop_first())
    }
}

proof fn lemma_run_timing(mode: PpuMode, ly: u8, dots: int, ks: Seq<int>)
    requires
        timing_wf(mode, ly, dots),
        forall|i: int| 0 <= i < ks.len() ==> 0 <= #[trigger] ks[i] <= 80,
    ensures
        ({
            let (m1, ly1, d1, n) = run_timing(mode, ly, dots, ks);
            let p = frame_position(mode, ly, dots) + seq_sum(ks);
            &&& timing_wf(m1, ly1, d1)
            &&& frame_position(m1, ly1, d1) == p % 70224
            &&& n == p / 70224
        }),
    decreases ks.len(),
{
    if ks.len() > 0 {
        lemma_timing_step(mode, ly, dots, ks[0]);
        let (m1, ly1, d1, ready) = next_timing(mode, ly, dots + ks[0]);
        let rest = ks.drop_first();
        assert forall|i: int| 0 <= i < rest.len() implies 0 <= #[trigger] rest[i] <= 80 by {
            assert(rest[i] == ks[i + 1]);
        }
        lemma_run_timing(m1, ly1, d1, rest);
        lemma_seq_sum_nonneg(rest);
        let x = frame_position(mode, ly, dots) + ks[0];
        let s = seq_sum(rest);
        if x >= 70224 {
            assert((x + s) / 70224 == (x - 70224 + s) / 70224 + 1) by {
                vstd::arithmetic::div_mod::lemma_div_plus_one(x - 70224 + s, 70224);
            }
            assert((x + s) % 70224 == (x - 70224 + s) % 70224) by {
                vstd::arithmetic::div_mod::lemma_mod_add_multiples_vanish(x - 70224 + s, 70224);
            }
        }
    }
}

proof fn lemma_seq_sum_nonneg(ks: Seq<int>)
    requires
        forall|i: int| 0 <= i < ks.len() ==> 0 <= #[trigger] ks[i],
    ensures
        seq_sum(ks) >= 0,
    decreases ks.len(),
{
    if ks.len() > 0 {
        let rest = ks.drop_first();
        assert forall|i: int| 0 <= i < rest.len() implies 0 <= #[trigger] rest[i] by {
            assert(rest[i] == ks[i + 1]);
        }
        lemma_seq_sum_nonneg(rest);
    }
}

/// One frame of steady stepping: from OAM mode at line 0, steps of at most
/// 80 dots that add up to one frame (70224 dots) raise the frame signal
/// exactly once and end back at line 0 in OAM mode.
pub proof fn lemma_one_frame(ks: Seq<int>)
    requires
        forall|i: int| 0 <= i < ks.len() ==> 0 <= #[trigger] ks[i] <= 80,
        seq_sum(ks) == 70224,
    ensures
        run_timing(PpuMode::OAM, 0, 0, ks).3 == 1,
        run_timing(PpuMode::OAM, 0, 0, ks).1 == 0,
        run_timing(PpuMode::OAM, 0, 0, ks).0 == PpuMode::OAM,
        run_timing(PpuMode::OAM, 0, 0, ks).2 == 0,
{
    lemma_run_timing(PpuMode::OAM, 0, 0, ks);
}

/// The grey level of a 2-bit colour: 0xFF, 0xA0, 0x60, 0x00.
pub open spec fn shade(c: u8) -> u8 {
    if c & 3 == 0 {
        0xFF
    } else if c & 3 == 1 {
        0xA0
    } else if c & 3 == 2 {
        0x60
    } else {
        0x00
    }
}

/// The 2-bit colour of column `col` of a tile row whose bit planes are `lo`
/// and `hi`; column 0 is bit 7.
pub open spec fn pixel_of(lo: u8, hi: u8, col: u8) -> u8 {
    (((lo >> (7 - col) as u8) & 1) + 2 * ((hi >> (7 - col) as u8) & 1)) as u8
}

/// Address of row `row` of background tile `id`: unsigned from 0x8000, or
/// signed from 0x9000.
pub open spec fn tile_row_address(unsigned_data: bool, id: u8, row: int) -> int {
    if unsigned_data {
        0x8000 + 16 * id + 2 * row
    } else {
        0x9000 + 16 * (if id < 128 {
            id as int
        } else {
            id - 256
        }) + 2 * row
    }
}

/// Colour at (`px`, `py`) of the 256 × 256 picture that a tile map describes.
pub open spec fn map_pixel(m: MemoryModel, lcdc: u8, high_map: bool, px: int, py: int) -> u8 {
    let map = if high_map {
        0x9C00int
    } else {
        0x9800int
    };
    let id = m.read8((map + (py / 8) * 32 + px / 8) as u16);
    let a = tile_row_address(bit_set(lcdc, 4), id, py % 8);
    pixel_of(m.read8(a as u16), m.read8((a + 1) as u16), (px % 8) as u8)
}

/// Colour of the background or window at screen column `x` of line `ly`;
/// `None` where neither layer is drawn.
pub open spec fn background_pixel(
    m: MemoryModel,
    lcdc: u8,
    scx: u8,
    scy: u8,
    wx: u8,
    wy: u8,
    ly: u8,
    x: int,
) -> Option<u8> {
    if bit_set(lcdc, 5) && wy <= ly && x + 7 >= wx {
        Some(map_pixel(m, lcdc, bit_set(lcdc, 6), x + 7 - wx, ly - wy))
    } else if bit_set(lcdc, 0) {
        Some(map_pixel(m, lcdc, bit_set(lcdc, 3), (scx + x) % 256, (scy + ly) % 256))
    } else {
        None
    }
}

/// The colour that sprite `i` puts at column `x` of line `ly`, if it covers
/// that pixel: all eight columns of the sprite's row are drawn, colour 0
/// included. Entries with a zero x or y are placeholders; a sprite is 8 or
/// 16 rows high.
pub open spec fn sprite_pixel(m: MemoryModel, big: bool, ly: u8, i: int, x: int) -> Option<u8> {
    let base = 0xFE00 + 4 * i;
    let y = m.read8(base as u16);
    let sx = m.read8((base + 1) as u16);
    let tile = m.read8((base + 2) as u16);
    let top = y - 16;
    let left = sx - 8;
    let height = if big {
        16int
    } else {
        8
    };
    let t = if big {
        tile & 0xFE
    } else {
        tile
    };
    let row = ly - top;
    if y != 0 && sx != 0 && 0 <= row < height && left <= x < left + 8 {
        let a = 0x8000 + 16 * (t + row / 8) + 2 * (row % 8);
        Some(pixel_of(m.read8(a as u16), m.read8((a + 1) as u16), (x - left) as u8))
    } else {
        None
    }
}

/// `base` with sprites 0 to `n - 1` drawn over it in order.
pub open spec fn layered(m: MemoryModel, big: bool, ly: u8, x: int, base: Option<u8>, n: nat) -> Option<u8>
    decreases n,
{
    if n == 0 {
        base
    } else {
        match sprite_pixel(m, big, ly, n - 1, x) {
            Some(c) => Some(c),
            None => layered(m, big, ly, x, base, (n - 1) as nat),
        }
    }
}

/// `buf` with line `ly` painted: each column that `f` gives a colour takes
/// its shade in all three bytes; everything else stays.
pub open spec fn paint_line(buf: Seq<u8>, ly: u8, f: spec_fn(int) -> Option<u8>) -> Seq<u8> {
    Seq::new(
        buf.len(),
        |j: int|
            if ly * 480 <= j < ly * 480 + 480 {
                match f((j - ly * 480) / 3) {
                    Some(c) => shade(c),
                    None => buf[j],
                }
            } else {
                buf[j]
            },
    )
}

/// The colour of each column of line `ly` as the composer draws it.
pub open spec fn line_colour(
    m: MemoryModel,
    lcdc: u8,
    scx: u8,
    scy: u8,
    wx: u8,
    wy: u8,
    ly: u8,
) -> spec_fn(int) -> Option<u8> {
    |x: int|
        {
            let base = background_pixel(m, lcdc, scx, scy, wx, wy, ly, x);
            if bit_set(lcdc, 1) {
                layered(m, bit_set(lcdc, 2), ly, x, base, 40)
            } else {
                base
            }
        }
}

pub fn palletize(pixel: u8) -> (r: u8)
    ensures
        r == shade(pixel),
{
    let c = pixel & 3;
    if c == 0 {
        0xFF
    } else if c == 1 {
        0xA0
    } else if c == 2 {
        0x60
    } else {
        0x00
    }
}

/// Column `x` of a tile row with bit planes `lo` and `hi`.
pub fn value_at(lo: u8, hi: u8, x: u8) -> (r: u8)
    requires
        x < 8,
    ensures
        r == pixel_of(lo, hi, x),
        r < 4,
{
    let low = (lo >> (7 - x)) & 1;
    let high = (hi >> (7 - x)) & 1;
    proof {
        assert((lo >> (7 - x) as u8) & 1 <= 1) by (bit_vector);
        assert((hi >> (7 - x) as u8) & 1 <= 1) by (bit_vector);
    }
    low + 2 * high
}

fn draw_pixel(pixel_data: &mut Vec<u8>, x: usize, y: usize, pixel: u8)
    requires
        old(pixel_data)@.len() == FRAME_BYTES,
        x < SCREEN_WIDTH,
        y < SCREEN_HEIGHT,
    ensures
        final(pixel_data)@ == Seq::new(
            old(pixel_data)@.len(),
            |j: int|
                if y * 480 + 3 * x <= j < y * 480 + 3 * x + 3 {
                    pixel
                } else {
                    old(pixel_data)@[j]
                },
        ),
{
    let offset = y * LINE_BYTES + x * BYTES_PER_PIXEL;
    let mut i: usize = 0;
    while i < BYTES_PER_PIXEL
        invariant
            i <= BYTES_PER_PIXEL,
            offset == y * 480 + 3 * x,
            offset + 3 <= FRAME_BYTES,
            pixel_data@.len() == FRAME_BYTES,
            pixel_data@ == Seq::new(
                old(pixel_data)@.len(),
                |j: int|
                    if offset <= j < offset + i {
                        pixel
                    } else {
                        old(pixel_data)@[j]
                    },
            ),
        decreases BYTES_PER_PIXEL - i,
    {
        pixel_data.set(offset + i, pixel);
        i = i + 1;
        proof {
            assert(pixel_data@ =~= Seq::new(
                old(pixel_data)@.len(),
                |j: int|
                    if offset <= j < offset + i {
                        pixel
                    } else {
                        old(pixel_data)@[j]
                    },
            ));
        }
    }
}

/// Colour at (`px`, `py`) of the picture of the tile map at 0x9C00 when
/// `high_map`, else at 0x9800.
fn fetch_map_pixel(memory: &Memory, lcdc: u8, high_map: bool, px: u16, py: u16) -> (r: u8)
    requires
        memory@.wf(),
        px < 256,
        py < 256,
    ensures
        r == map_pixel(memory@, lcdc, high_map, px as int, py as int),
        r < 4,
{
    let map: u16 = if high_map {
        0x9C00
    } else {
        0x9800
    };
    let id = memory.read_u8(map + (py / 8) * 32 + px / 8);
    let row = py % 8;
    let address: u16 = if lcdc & 0x10 != 0 {
        TILESET_START_ADDRESS + 16 * id as u16 + 2 * row
    } else if id < 128 {
        SIGNED_TILESET_BASE + 16 * id as u16 + 2 * row
    } else {
        SIGNED_TILESET_BASE - 16 * (256 - id as u16) + 2 * row
    };
    proof {
        assert((lcdc & 0x10 != 0) == bit_set(lcdc, 4)) by (bit_vector);
    }
    value_at(memory.read_u8(address), memory.read_u8(address + 1), (px % 8) as u8)
}

/// A sprite's entry in OAM, placed on screen.
pub struct Sprite {
    pub x: i32,
    pub y: i32,
    pub tile: u8,
}

impl Sprite {
    /// Entry `id` of OAM (y, x, tile, flags), moved by (−8, −16); `None` for
    /// a placeholder with a zero x or y.
    pub fn fetch(id: u16, memory: &Memory) -> (r: Option<Sprite>)
        requires
            memory@.wf(),
            id < SPRITE_COUNT,
        ensures
            ({
                let base = 0xFE00 + 4 * id;
                let y = memory@.read8(base as u16);
                let x = memory@.read8((base + 1) as u16);
                if y == 0 || x == 0 {
                    r is None
                } else {
                    r == Some(
                        Sprite {
                            x: (x - 8) as i32,
                            y: (y - 16) as i32,
                            tile: memory@.read8((base + 2) as u16),
                        },
                    )
                }
            }),
    {
        let sprite_address = OAM_START + id * 4;
        let y = memory.read_u8(sprite_address) as i32;
        let x = memory.read_u8(sprite_address + 1) as i32;
        if x == 0 || y == 0 {
            return None;
        }
        let tile = memory.read_u8(sprite_address + 2);
        Some(Sprite { x: x - 8, y: y - 16, tile })
    }
}

/// `b` with the three bytes of pixel (`x`, `y`) set to `p`.
pub open spec fn fill_pixel(b: Seq<u8>, x: int, y: int, p: u8) -> Seq<u8> {
    Seq::new(b.len(), |j: int| if y * 480 + 3 * x <= j < y * 480 + 3 * x + 3 { p } else { b[j] })
}

proof fn lemma_paint_congruent(buf: Seq<u8>, ly: u8, f: spec_fn(int) -> Option<u8>, g: spec_fn(int) -> Option<u8>)
    requires
        forall|x: int| 0 <= x < 160 ==> #[trigger] f(x) == g(x),
    ensures
        paint_line(buf, ly, f) == paint_line(buf, ly, g),
{
    assert forall|j: int| 0 <= j < buf.len() implies #[trigger] paint_line(buf, ly, f)[j] == paint_line(buf, ly, g)[j] by {
        if ly * 480 <= j < ly * 480 + 480 {
            let x = (j - ly * 480) / 3;
            assert(0 <= x < 160);
            assert(f(x) == g(x));
        }
    }
    assert(paint_line(buf, ly, f) =~= paint_line(buf, ly, g));
}

proof fn lemma_paint_one(
    buf: Seq<u8>,
    ly: u8,
    f: spec_fn(int) -> Option<u8>,
    g: spec_fn(int) -> Option<u8>,
    x: int,
    c: u8,
)
    requires
        0 <= x < 160,
        g(x) == Some(c),
        forall|y: int| 0 <= y < 160 && y != x ==> #[trigger] g(y) == f(y),
    ensures
        paint_line(buf, ly, g) == fill_pixel(paint_line(buf, ly, f), x, ly as int, shade(c)),
{
    let lhs = paint_line(buf, ly, g);
    let rhs = fill_pixel(paint_line(buf, ly, f), x, ly as int, shade(c));
    assert forall|j: int| 0 <= j < buf.len() implies #[trigger] lhs[j] == rhs[j] by {
        if ly * 480 <= j < ly * 480 + 480 {
            let y = (j - ly * 480) / 3;
            assert(0 <= y < 160);
            if y != x {
                assert(g(y) == f(y));
            }
        }
    }
    assert(lhs =~= rhs);
}

impl LcdControl {
    pub fn update(&mut self, memory: &Memory)
        requires
            memory@.wf(),
        ensures
            *final(self) == lcd_control_of(memory@.read8(LCDC)),
    {
        let v = memory.read_u8(LCDC);
        self.draw_background = v & 1 != 0;
        self.draw_sprites = v & (1 << 1) != 0;
        self.big_sprites = v & (1 << 2) != 0;
        self.background_tile_select = v & (1 << 3) != 0;
        self.background_tile_data_select = v & (1 << 4) != 0;
        self.window_display = v & (1 << 5) != 0;
        self.window_tile_map_select = v & (1 << 6) != 0;
        self.lcd_enabled = v & (1 << 7) != 0;
        proof {
            assert((v & 1 != 0) == bit_set(v, 0)) by (bit_vector);
            assert((v & (1u8 << 1u8) != 0) == bit_set(v, 1)) by (bit_vector);
            assert((v & (1u8 << 2u8) != 0) == bit_set(v, 2)) by (bit_vector);
            assert((v & (1u8 << 3u8) != 0) == bit_set(v, 3)) by (bit_vector);
            assert((v & (1u8 << 4u8) != 0) == bit_set(v, 4)) by (bit_vector);
            assert((v & (1u8 << 5u8) != 0) == bit_set(v, 5)) by (bit_vector);
            assert((v & (1u8 << 6u8) != 0) == bit_set(v, 6)) by (bit_vector);
            assert((v & (1u8 << 7u8) != 0) == bit_set(v, 7)) by (bit_vector);
        }
    }
}

impl Ppu {
    /// A PPU at the start of a frame: OAM mode, line 0, no dots spent.
    pub fn new() -> (r: Ppu)
        ensures
            r.current_mode == PpuMode::OAM,
            r.scanline == 0,
            r.dots_in_mode == 0,
            r.wx == 0 && r.wy == 0,
            r.total_cycles == 0,
            r.lcd_control == lcd_control_of(0),
    {
        proof {
            assert(!bit_set(0, 0) && !bit_set(0, 1) && !bit_set(0, 2) && !bit_set(0, 3)
                && !bit_set(0, 4) && !bit_set(0, 5) && !bit_set(0, 6) && !bit_set(0, 7))
                by (bit_vector);
        }
        Ppu {
            lcd_control: LcdControl {
                draw_background: false,
                draw_sprites: false,
                big_sprites: false,
                background_tile_select: false,
                background_tile_data_select: false,
                window_display: false,
                window_tile_map_select: false,
                lcd_enabled: false,
            },
            current_mode: PpuMode::OAM,
            dots_in_mode: 0,
            scanline: 0,
            wx: 0,
            wy: 0,
            total_cycles: 0,
        }
    }

    /// Colour of the background or window at column `x` of the current line.
    fn background_pixel(&self, memory: &Memory, lcdc: u8, scx: u8, scy: u8, x: u16) -> (r: Option<u8>)
        requires
            memory@.wf(),
            x < 160,
            self.scanline < 144,
        ensures
            r == background_pixel(memory@, lcdc, scx, scy, self.wx, self.wy, self.scanline, x as int),
    {
        proof {
            assert((lcdc & 0x20 != 0) == bit_set(lcdc, 5)) by (bit_vector);
            assert((lcdc & 0x40 != 0) == bit_set(lcdc, 6)) by (bit_vector);
            assert((lcdc & 0x08 != 0) == bit_set(lcdc, 3)) by (bit_vector);
            assert((lcdc & 0x01 != 0) == bit_set(lcdc, 0)) by (bit_vector);
        }
        if lcdc & 0x20 != 0 && self.wy <= self.scanline && x + 7 >= self.wx as u16 {
            let px = x + 7 - self.wx as u16;
            let py = (self.scanline - self.wy) as u16;
            Some(fetch_map_pixel(memory, lcdc, lcdc & 0x40 != 0, px, py))
        } else if lcdc & 0x01 != 0 {
            let px = (scx as u16 + x) % 256;
            let py = (scy as u16 + self.scanline as u16) % 256;
            Some(fetch_map_pixel(memory, lcdc, lcdc & 0x08 != 0, px, py))
        } else {
            None
        }
    }

    /// Writes the current line into `pixel_data`: background, window over
    /// it from column WX − 7 on, then sprites 0 to 39 in order, each drawing
    /// all eight pixels of its row.
    fn draw_scanline(&mut self, memory: &Memory, pixel_data: &mut Vec<u8>)
        requires
            memory@.wf(),
            old(self).scanline < 144,
            old(pixel_data)@.len() == FRAME_BYTES,
        ensures
            final(pixel_data)@ == paint_line(
                old(pixel_data)@,
                old(self).scanline,
                line_colour(
                    memory@,
                    memory@.read8(LCDC),
                    memory@.read8(SCX),
                    memory@.read8(SCY),
                    old(self).wx,
                    old(self).wy,
                    old(self).scanline,
                ),
            ),
            *final(self) == (Ppu { lcd_control: lcd_control_of(memory@.read8(LCDC)), ..*old(self) }),
    {
        self.lcd_control.update(memory);
        let lcdc = memory.read_u8(LCDC);
        let scy = memory.read_u8(SCY);
        let scx = memory.read_u8(SCX);
        let ly = self.scanline;
        let ghost m = memory@;
        let ghost old_buf = pixel_data@;
        let ghost base = |x: int| background_pixel(m, lcdc, scx, scy, self.wx, self.wy, ly, x);
        let mut x: u16 = 0;
        proof {
            lemma_paint_congruent(old_buf, ly, |c: int| None::<u8>, |c: int| if c < 0 { base(c) } else { None });
            assert(paint_line(old_buf, ly, |c: int| None::<u8>) =~= old_buf);
        }
        while x < 160
            invariant
                x <= 160,
                ly == self.scanline,
                ly < 144,
                memory@ == m,
                m.wf(),
                pixel_data@.len() == FRAME_BYTES,
                old_buf.len() == FRAME_BYTES,
                base == (|x: int| background_pixel(m, lcdc, scx, scy, self.wx, self.wy, ly, x)),
                pixel_data@ == paint_line(old_buf, ly, |c: int| if c < x { base(c) } else { None }),
            decreases 160 - x,
        {
            let p = self.background_pixel(memory, lcdc, scx, scy, x);
            let ghost f = |c: int| if c < x { base(c) } else { None };
            let ghost g = |c: int| if c < x + 1 { base(c) } else { None };
            match p {
                Some(colour) => {
                    draw_pixel(pixel_data, x as usize, ly as usize, palletize(colour));
                    proof {
                        lemma_paint_one(old_buf, ly, f, g, x as int, colour);
                        assert(pixel_data@ =~= fill_pixel(paint_line(old_buf, ly, f), x as int, ly as int, shade(colour)));
                    }
                },
                None => {
                    proof {
                        lemma_paint_congruent(old_buf, ly, f, g);
                    }
                },
            }
            x = x + 1;
        }
        proof {
            lemma_paint_congruent(old_buf, ly, |c: int| if c < 160 { base(c) } else { None }, |c: int| layered(m, bit_set(lcdc, 2), ly, c, base(c), 0));
        }
        if lcdc & 0x02 != 0 {
            let big = lcdc & 0x04 != 0;
            proof {
                assert((lcdc & 0x02 != 0) == bit_set(lcdc, 1)) by (bit_vector);
                assert((lcdc & 0x04 != 0) == bit_set(lcdc, 2)) by (bit_vector);
            }
            let mut id: u16 = 0;
            while id < SPRITE_COUNT
                invariant
                    id <= SPRITE_COUNT,
                    ly == self.scanline,
                    ly < 144,
                    memory@ == m,
                    m.wf(),
                    big == bit_set(lcdc, 2),
                    pixel_data@.len() == FRAME_BYTES,
                    old_buf.len() == FRAME_BYTES,
                    pixel_data@ == paint_line(old_buf, ly, |c: int| layered(m, big, ly, c, base(c), id as nat)),
                decreases SPRITE_COUNT - id,
            {
                self.draw_sprite(memory, pixel_data, id, big, Ghost(old_buf), Ghost(base));
                id = id + 1;
            }
            proof {
                lemma_paint_congruent(old_buf, ly, |c: int| layered(m, big, ly, c, base(c), 40), line_colour(m, lcdc, scx, scy, self.wx, self.wy, ly));
            }
        } else {
            proof {
                assert((lcdc & 0x02 != 0) == bit_set(lcdc, 1)) by (bit_vector);
                lemma_paint_congruent(old_buf, ly, |c: int| if c < 160 { base(c) } else { None }, line_colour(m, lcdc, scx, scy, self.wx, self.wy, ly));
            }
        }
    }

    /// Draws sprite `id` over the line painted with sprites below it.
    fn draw_sprite(
        &self,
        memory: &Memory,
        pixel_data: &mut Vec<u8>,
        id: u16,
        big: bool,
        Ghost(old_buf): Ghost<Seq<u8>>,
        Ghost(base): Ghost<spec_fn(int) -> Option<u8>>,
    )
        requires
            memory@.wf(),
            id < SPRITE_COUNT,
            self.scanline < 144,
            old_buf.len() == FRAME_BYTES,
            old(pixel_data)@ == paint_line(old_buf, self.scanline, |c: int| layered(memory@, big, self.scanline, c, base(c), id as nat)),
        ensures
            final(pixel_data)@ == paint_line(old_buf, self.scanline, |c: int| layered(memory@, big, self.scanline, c, base(c), (id + 1) as nat)),
    {
        let ly = self.scanline;
        let ghost m = memory@;
        let ghost before = |c: int| layered(m, big, ly, c, base(c), id as nat);
        let ghost after = |c: int| layered(m, big, ly, c, base(c), (id + 1) as nat);
        if let Some(sprite) = Sprite::fetch(id, memory) {
            let row: i32 = ly as i32 - sprite.y;
            let height: i32 = if big { 16 } else { 8 };
            if 0 <= row && row < height {
                let tile: u8 = if big { sprite.tile & 0xFE } else { sprite.tile };
                let address: u16 = TILESET_START_ADDRESS + 16 * (tile as u16 + (row / 8) as u16) + 2 * (row % 8) as u16;
                let lo = memory.read_u8(address);
                let hi = memory.read_u8(address + 1);
                let mut col: u8 = 0;
                proof {
                    lemma_paint_congruent(old_buf, ly, before, |c: int| if sprite.x <= c < sprite.x + 0 { after(c) } else { before(c) });
                }
                while col < 8
                    invariant
                        col <= 8,
                        ly == self.scanline,
                        ly < 144,
                        memory@ == m,
                        m.wf(),
                        pixel_data@.len() == FRAME_BYTES,
                        old_buf.len() == FRAME_BYTES,
                        -8 <= sprite.x < 248,
                        0 <= row < height,
                        before == (|c: int| layered(m, big, ly, c, base(c), id as nat)),
                        after == (|c: int| layered(m, big, ly, c, base(c), (id + 1) as nat)),
                        forall|c: int| sprite.x <= c < sprite.x + 8 ==> #[trigger] sprite_pixel(m, big, ly, id as int, c) == Some(
                            pixel_of(lo, hi, (c - sprite.x) as u8),
                        ),
                        forall|c: int| !(sprite.x <= c < sprite.x + 8) ==> #[trigger] sprite_pixel(m, big, ly, id as int, c) == None::<u8>,
                        pixel_data@ == paint_line(old_buf, ly, |c: int| if sprite.x <= c < sprite.x + col { after(c) } else { before(c) }),
                    decreases 8 - col,
                {
                    let px: i32 = sprite.x + col as i32;
                    let colour = value_at(lo, hi, col);
                    let ghost f = |c: int| if sprite.x <= c < sprite.x + col { after(c) } else { before(c) };
                    let ghost g = |c: int| if sprite.x <= c < sprite.x + col + 1 { after(c) } else { before(c) };
                    if 0 <= px && px < 160 {
                        draw_pixel(pixel_data, px as usize, ly as usize, palletize(colour));
                        proof {
                            assert(sprite_pixel(m, big, ly, id as int, px as int) == Some(colour));
                            lemma_paint_one(old_buf, ly, f, g, px as int, colour);
                            assert(pixel_data@ =~= fill_pixel(paint_line(old_buf, ly, f), px as int, ly as int, shade(colour)));
                        }
                    } else {
                        proof {
                            assert forall|c: int| 0 <= c < 160 implies #[trigger] f(c) == g(c) by {
                                if c == px {
                                    assert(sprite_pixel(m, big, ly, id as int, c) == None::<u8>);
                                }
                            }
                            lemma_paint_congruent(old_buf, ly, f, g);
                        }
                    }
                    col = col + 1;
                }
                proof {
                    assert forall|c: int| 0 <= c < 160 implies #[trigger] after(c) == (if sprite.x <= c < sprite.x + 8 { after(c) } else { before(c) }) by {
                        if !(sprite.x <= c < sprite.x + 8) {
                            assert(sprite_pixel(m, big, ly, id as int, c) == None::<u8>);
                        }
                    }
                    lemma_paint_congruent(old_buf, ly, |c: int| if sprite.x <= c < sprite.x + 8 { after(c) } else { before(c) }, after);
                }
            } else {
                proof {
                    assert forall|c: int| 0 <= c < 160 implies #[trigger] before(c) == after(c) by {
                        assert(sprite_pixel(m, big, ly, id as int, c) == None::<u8>);
                    }
                    lemma_paint_congruent(old_buf, ly, before, after);
                }
            }
        } else {
            proof {
                assert forall|c: int| 0 <= c < 160 implies #[trigger] before(c) == after(c) by {
                    assert(sprite_pixel(m, big, ly, id as int, c) == None::<u8>);
                }
                lemma_paint_congruent(old_buf, ly, before, after);
            }
        }
    }
}

/// The dots in the current mode after adding `cycles` M-cycles (four dots
/// each), held at `u32::MAX`.
pub open spec fn dots_after(dots: u32, cycles: u16) -> int {
    if dots + 4 * cycles > u32::MAX {
        u32::MAX as int
    } else {
        dots + 4 * cycles
    }
}

/// The bus with LY mirrored at 0xFF44.
pub open spec fn with_ly(m: MemoryModel, ly: u8) -> MemoryModel {
    MemoryModel { hram: m.hram.update(LY - START_OF_HIGH_RAM, ly), ..m }
}

/// One PPU step from `p0`, bus `m0` and frame `b0` to `p1`, `m1`, `b1`,
/// returning `r`.
pub open spec fn ppu_step_spec(
    p0: Ppu,
    m0: MemoryModel,
    b0: Seq<u8>,
    p1: Ppu,
    m1: MemoryModel,
    b1: Seq<u8>,
    r: bool,
) -> bool {
    let (mode, ly, dots, ready) = next_timing(
        p0.current_mode,
        p0.scanline,
        dots_after(p0.dots_in_mode, m0.cycles),
    );
    let mirrored = if ly == p0.scanline {
        m0
    } else {
        with_ly(m0, ly)
    };
    let changed = mode != p0.current_mode;
    let drew = p0.current_mode == PpuMode::VRAM && changed;
    &&& p1.current_mode == mode
    &&& p1.scanline == ly
    &&& p1.dots_in_mode == dots
    &&& r == ready
    &&& p1.wf()
    &&& m1 == mirrored
    &&& m1.wf()
    &&& p1.total_cycles == (p0.total_cycles + m0.cycles) % 0x1_0000_0000_0000_0000
    &&& p1.wx == if changed && (mode == PpuMode::OAM || mode == PpuMode::HBLANK) {
        mirrored.read8(WX)
    } else {
        p0.wx
    }
    &&& p1.wy == if changed && mode == PpuMode::OAM {
        mirrored.read8(WY)
    } else {
        p0.wy
    }
    &&& p1.lcd_control == if drew {
        lcd_control_of(m0.read8(LCDC))
    } else {
        p0.lcd_control
    }
    &&& b1 == if drew {
        paint_line(
            b0,
            p0.scanline,
            line_colour(
                m0,
                m0.read8(LCDC),
                m0.read8(SCX),
                m0.read8(SCY),
                m0.read8(WX),
                p0.wy,
                p0.scanline,
            ),
        )
    } else {
        b0
    }
}

impl Ppu {
    /// The line is at most 153, and the mode is VBLANK exactly from line 144 on.
    pub open spec fn wf(&self) -> bool {
        &&& self.scanline <= 153
        &&& (self.current_mode == PpuMode::VBLANK) == (self.scanline >= 144)
    }

    /// Latches the window origin on entering a mode: WX and WY for OAM, WX
    /// for HBLANK.
    fn reset_window(&mut self, mode: PpuMode, memory: &Memory)
        requires
            memory@.wf(),
        ensures
            final(self).wx == match mode {
                PpuMode::OAM | PpuMode::HBLANK => memory@.read8(WX),
                _ => old(self).wx,
            },
            final(self).wy == match mode {
                PpuMode::OAM => memory@.read8(WY),
                _ => old(self).wy,
            },
            *final(self) == (Ppu { wx: final(self).wx, wy: final(self).wy, ..*old(self) }),
    {
        match mode {
            PpuMode::OAM => {
                self.wx = memory.read_u8(WX);
                self.wy = memory.read_u8(WY);
            },
            PpuMode::HBLANK => {
                self.wx = memory.read_u8(WX);
            },
            _ => {},
        }
    }

    fn enter_mode(&mut self, mode: PpuMode, memory: &Memory)
        requires
            memory@.wf(),
        ensures
            final(self).wx == match mode {
                PpuMode::OAM | PpuMode::HBLANK => memory@.read8(WX),
                _ => old(self).wx,
            },
            final(self).wy == match mode {
                PpuMode::OAM => memory@.read8(WY),
                _ => old(self).wy,
            },
            *final(self) == (Ppu {
                current_mode: mode,
                wx: final(self).wx,
                wy: final(self).wy,
                ..*old(self)
            }),
    {
        self.current_mode = mode;
        self.reset_window(mode, memory);
    }

    /// Moves to line `scanline` and mirrors it at 0xFF44.
    fn change_scanline(&mut self, scanline: u8, memory: &mut Memory)
        requires
            old(memory)@.wf(),
        ensures
            *final(self) == (Ppu { scanline, ..*old(self) }),
            final(memory)@ == with_ly(old(memory)@, scanline),
            final(memory)@.wf(),
    {
        self.scanline = scanline;
        memory.write_special_regsiter(LY, scanline);
    }

    /// Advances by the bus's cycle count (four dots per M-cycle) and returns
    /// whether a frame was finished. At most one mode change happens; leaving
    /// VRAM draws the current line into `pixel_data`, leaving HBLANK or
    /// VBLANK moves to the next line (mirrored at 0xFF44), and leaving line
    /// 153 returns to line 0 in OAM mode and signals the frame.
    #[verifier::spinoff_prover]
    #[verifier::rlimit(60)]
    pub fn step(&mut self, memory: &mut Memory, pixel_data: &mut Vec<u8>) -> (r: bool)
        requires
            old(self).wf(),
            old(memory)@.wf(),
            old(pixel_data)@.len() == FRAME_BYTES,
        ensures
            ppu_step_spec(
                *old(self),
                old(memory)@,
                old(pixel_data)@,
                *final(self),
                final(memory)@,
                final(pixel_data)@,
                r,
            ),
            final(self).wf(),
            final(memory)@.wf(),
    {
        let cycles = memory.cpu_cycles();
        let added: u64 = self.dots_in_mode as u64 + 4 * cycles as u64;
        self.dots_in_mode = if added > u32::MAX as u64 {
            u32::MAX
        } else {
            added as u32
        };
        self.total_cycles = self.total_cycles.wrapping_add(cycles as u64);
        match self.current_mode {
            PpuMode::OAM => {
                if self.dots_in_mode >= 80 {
                    self.dots_in_mode = self.dots_in_mode - 80;
                    self.enter_mode(PpuMode::VRAM, memory);
                }
                false
            },
            PpuMode::VRAM => {
                if self.dots_in_mode >= 168 {
                    self.dots_in_mode = self.dots_in_mode - 168;
                    self.enter_mode(PpuMode::HBLANK, memory);
                    self.draw_scanline(memory, pixel_data);
                }
                false
            },
            PpuMode::HBLANK => {
                if self.dots_in_mode >= 208 {
                    self.dots_in_mode = self.dots_in_mode - 208;
                    let next = self.scanline + 1;
                    self.change_scanline(next, memory);
                    if next == 144 {
                        self.enter_mode(PpuMode::VBLANK, memory);
                    } else {
                        self.enter_mode(PpuMode::OAM, memory);
                    }
                }
                false
            },
            PpuMode::VBLANK => {
                if self.dots_in_mode >= 456 {
                    self.dots_in_mode = self.dots_in_mode - 456;
                    if self.scanline == 153 {
                        self.change_scanline(0, memory);
                        self.enter_mode(PpuMode::OAM, memory);
                        return true;
                    }
                    let next = self.scanline + 1;
                    self.change_scanline(next, memory);
                }
                false
            },
        }
    }
}

proof fn lemma_frame_div(x: int, k: int)
    requires
        x >= 0,
        0 <= k <= 80,
    ensures
        (x % 70224 + k) % 70224 == (x + k) % 70224,
        x / 70224 + (if x % 70224 + k >= 70224 { 1int } else { 0 }) == (x + k) / 70224,
{
    let q = x / 70224;
    let p = x % 70224;
    vstd::arithmetic::div_mod::lemma_fundamental_div_mod(x, 70224);
    assert(x + k == 70224 * q + (p + k));
    vstd::arithmetic::div_mod::lemma_mod_multiples_vanish(q, p + k, 70224);
    if p + k < 70224 {
        vstd::arithmetic::div_mod::lemma_div_multiples_vanish_fancy(q, p + k, 70224);
    } else {
        assert(x + k == 70224 * (q + 1) + (p + k - 70224));
        vstd::arithmetic::div_mod::lemma_div_multiples_vanish_fancy(q + 1, p + k - 70224, 70224);
        vstd::arithmetic::div_mod::lemma_mod_multiples_vanish(1, p + k - 70224, 70224);
    }
}

/// Frame signals among the first `j` results.
pub open spec fn count_signals(rs: Seq<bool>, j: int) -> nat
    decreases j,
{
    if j <= 0 {
        0
    } else {
        count_signals(rs, j - 1) + if rs[j - 1] {
            1nat
        } else {
            0
        }
    }
}

/// Dots fed by the first `j` steps, four per M-cycle on each step's bus.
pub open spec fn dots_fed(ms: Seq<MemoryModel>, j: int) -> int
    decreases j,
{
    if j <= 0 {
        0
    } else {
        dots_fed(ms, j - 1) + 4 * ms[j - 1].cycles
    }
}

/// `ps[i]` went to `ps[i + 1]` by one call of `Ppu::step` on bus `ms0[i]`
/// (left as `ms1[i]`), frame `bs[i]` (left as `bs[i + 1]`), returning `rs[i]`,
/// each call fed at most 20 M-cycles.
pub open spec fn steady_steps(
    ps: Seq<Ppu>,
    ms0: Seq<MemoryModel>,
    ms1: Seq<MemoryModel>,
    bs: Seq<Seq<u8>>,
    rs: Seq<bool>,
) -> bool {
    &&& ps.len() == rs.len() + 1
    &&& bs.len() == rs.len() + 1
    &&& ms0.len() == rs.len()
    &&& ms1.len() == rs.len()
    &&& forall|i: int|
        0 <= i < rs.len() ==> #[trigger] ppu_step_spec(ps[i], ms0[i], bs[i], ps[i + 1], ms1[i], bs[i + 1], rs[i])
    &&& forall|i: int| 0 <= i < rs.len() ==> #[trigger] ms0[i].cycles <= 20
}

proof fn lemma_steady_prefix(
    ps: Seq<Ppu>,
    ms0: Seq<MemoryModel>,
    ms1: Seq<MemoryModel>,
    bs: Seq<Seq<u8>>,
    rs: Seq<bool>,
    j: int,
)
    requires
        steady_steps(ps, ms0, ms1, bs, rs),
        timing_wf(ps[0].current_mode, ps[0].scanline, ps[0].dots_in_mode as int),
        frame_position(ps[0].current_mode, ps[0].scanline, ps[0].dots_in_mode as int) == 0,
        0 <= j <= rs.len(),
    ensures
        timing_wf(ps[j].current_mode, ps[j].scanline, ps[j].dots_in_mode as int),
        frame_position(ps[j].current_mode, ps[j].scanline, ps[j].dots_in_mode as int) == dots_fed(ms0, j) % 70224,
        count_signals(rs, j) == dots_fed(ms0, j) / 70224,
        dots_fed(ms0, j) >= 0,
    decreases j,
{
    if j > 0 {
        lemma_steady_prefix(ps, ms0, ms1, bs, rs, j - 1);
        let i = j - 1;
        let p = ps[i];
        let k = 4 * ms0[i].cycles;
        assert(ppu_step_spec(ps[i], ms0[i], bs[i], ps[i + 1], ms1[i], bs[i + 1], rs[i]));
        assert(ms0[i].cycles <= 20);
        assert(i + 1 == j);
        lemma_timing_step(p.current_mode, p.scanline, p.dots_in_mode as int, k);
        lemma_frame_div(dots_fed(ms0, j - 1), k);
    } else {
        assert(0int % 70224 == 0 && 0int / 70224 == 0);
    }
}

/// One frame through `Ppu::step`: from OAM mode at line 0 with no dots
/// spent, calls fed at most 20 M-cycles each and 70224 dots in all raise
/// the frame signal exactly once, end at line 0 in OAM mode with no dots
/// left over, and the call that signals leaves line 0 mirrored at 0xFF44.
pub proof fn lemma_one_frame_of_steps(
    ps: Seq<Ppu>,
    ms0: Seq<MemoryModel>,
    ms1: Seq<MemoryModel>,
    bs: Seq<Seq<u8>>,
    rs: Seq<bool>,
)
    requires
        steady_steps(ps, ms0, ms1, bs, rs),
        forall|i: int| 0 <= i < rs.len() ==> (#[trigger] ms0[i]).wf(),
        ps[0].current_mode == PpuMode::OAM,
        ps[0].scanline == 0,
        ps[0].dots_in_mode == 0,
        dots_fed(ms0, rs.len() as int) == 70224,
    ensures
        count_signals(rs, rs.len() as int) == 1,
        ps[rs.len() as int].current_mode == PpuMode::OAM,
        ps[rs.len() as int].scanline == 0,
        ps[rs.len() as int].dots_in_mode == 0,
        forall|i: int| 0 <= i < rs.len() && #[trigger] rs[i] ==> ms1[i].read8(LY) == 0 && ps[i + 1].scanline == 0,
{
    let n = rs.len() as int;
    lemma_steady_prefix(ps, ms0, ms1, bs, rs, n);
    assert(70224int % 70224 == 0 && 70224int / 70224 == 1);
    assert forall|i: int| 0 <= i < rs.len() && #[trigger] rs[i] implies ms1[i].read8(LY) == 0 && ps[i + 1].scanline == 0 by {
        lemma_steady_prefix(ps, ms0, ms1, bs, rs, i);
        assert(ppu_step_spec(ps[i], ms0[i], bs[i], ps[i + 1], ms1[i], bs[i + 1], rs[i]));
        assert(ms0[i].wf());
    }
}

} // verus!
