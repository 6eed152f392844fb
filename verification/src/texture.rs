//! 8x8 tiles decoded from the Game Boy's 2-bit-per-pixel tile data.

use crate::framebuffer::{pixel_shape, pixel_values, PixelData};
use crate::gpu::{color_index, palette_shade, shade};
use core::ops::Range;
use vstd::prelude::*;

verus! {

/// The colour a tile pixel shows: column `x` (0 at the left) of the row
/// whose two bit planes are `lo` and `hi`, through `palette`.
pub open spec fn tile_pixel(palette: u8, lo: u8, hi: u8, x: int) -> u32 {
    shade(palette_shade(palette, color_index(lo, hi, (7 - x) as u8)))
}

/// As `tile_pixel`, but shade 0 is transparent: its alpha byte is cleared.
pub open spec fn sprite_pixel(palette: u8, lo: u8, hi: u8, x: int) -> u32 {
    let color = palette_shade(palette, color_index(lo, hi, (7 - x) as u8));
    if color == 0 {
        shade(0) & 0xFFFF_FF00
    } else {
        shade(color)
    }
}

/// The texture decoded from `data`: row `y` comes from bytes `2y` (low bit
/// plane) and `2y + 1` (high bit plane); rows past the data are 0.
pub open spec fn decoded(texture: [[u32; 8]; 8], palette: u8, data: Seq<u8>, sprite: bool) -> bool {
    forall|y: int, x: int|
        0 <= y < 8 && 0 <= x < 8 ==> #[trigger] texture@[y]@[x] == if y < data.len() / 2 {
            if sprite {
                sprite_pixel(palette, data[2 * y], data[2 * y + 1], x)
            } else {
                tile_pixel(palette, data[2 * y], data[2 * y + 1], x)
            }
        } else {
            0
        }
}

/// The grid `old` (of `cols` columns) with the tile drawn at tile position
/// (`mx`, `my`), that is at pixels (8mx.., 8my..).
pub open spec fn tile_written(
    old: Seq<u32>,
    cols: nat,
    palette: u8,
    mx: nat,
    my: nat,
    data: Seq<u8>,
) -> Seq<u32> {
    Seq::new(
        old.len(),
        |i: int|
            {
                let r = i / cols as int;
                let c = i % cols as int;
                if my * 8 <= r < my * 8 + 8 && mx * 8 <= c < mx * 8 + 8 {
                    let row = r - my * 8;
                    tile_pixel(palette, data[2 * row], data[2 * row + 1], c - mx * 8)
                } else {
                    old[i]
                }
            },
    )
}

/// The grid `old` while a tile is being drawn: rows before `i` of the tile
/// are done, and of row `i` the columns from `k` on.
pub open spec fn drawn_rows(
    old: Seq<u32>,
    cols: nat,
    palette: u8,
    mx: nat,
    my: nat,
    data: Seq<u8>,
    i: int,
    k: int,
) -> Seq<u32> {
    Seq::new(
        old.len(),
        |q: int|
            {
                let r = q / cols as int;
                let c = q % cols as int;
                if (my * 8 <= r < my * 8 + i && mx * 8 <= c < mx * 8 + 8) || (r == my * 8 + i && mx
                    * 8 + k <= c < mx * 8 + 8) {
                    let row = r - my * 8;
                    tile_pixel(palette, data[2 * row], data[2 * row + 1], c - mx * 8)
                } else {
                    old[q]
                }
            },
    )
}

/// The colour index bits the tile writer builds from shifted bit planes.
proof fn lemma_index_bits(lo0: u8, hi0: u8, off: u8, lo: u8, hi: u8, palette: u8)
    requires
        off < 8,
        lo == lo0 >> off,
        hi == hi0 >> off,
    ensures
        ((hi & 1) << 2u8) | (lo & 1) << 1u8 == color_index(lo0, hi0, off) << 1u8,
        ((hi & 1) << 2u8) | (lo & 1) << 1u8 < 8,
        (palette >> (((hi & 1) << 2u8) | (lo & 1) << 1u8)) & 3 == palette_shade(
            palette,
            color_index(lo0, hi0, off),
        ),
{
    assert(((hi & 1) << 2u8) | (lo & 1) << 1u8 == (((((hi0 >> off) & 1) << 1u8) | ((lo0 >> off)
        & 1)) << 1u8) && ((hi & 1) << 2u8) | (lo & 1) << 1u8 < 8) by (bit_vector)
        requires
            off < 8,
            lo == lo0 >> off,
            hi == hi0 >> off,
    ;
}

/// Shifting right once more.
proof fn lemma_shift_step(v: u8, off: u8)
    requires
        off < 8,
    ensures
        (v >> off) >> 1u8 == v >> ((off + 1) as u8),
{
    assert((v >> off) >> 1u8 == v >> ((off + 1) as u8)) by (bit_vector)
        requires
            off < 8,
    ;
}

/// Writing the pixel at row `my*8+i`, column `mx*8+k-1` extends the drawn part.
proof fn lemma_draw_one(
    old: Seq<u32>,
    cols: nat,
    palette: u8,
    mx: nat,
    my: nat,
    data: Seq<u8>,
    i: int,
    k: int,
    prev: Seq<u32>,
    next: Seq<u32>,
    rows: nat,
)
    requires
        0 <= i < 8,
        1 <= k <= 8,
        data.len() >= 16,
        mx * 8 + 8 <= cols,
        my * 8 + 8 <= rows,
        old.len() == rows * cols,
        prev == drawn_rows(old, cols, palette, mx, my, data, i, k),
        next == prev.update(
            (my * 8 + i) * cols + (mx * 8 + k - 1),
            tile_pixel(palette, data[2 * i], data[2 * i + 1], k - 1),
        ),
    ensures
        next == drawn_rows(old, cols, palette, mx, my, data, i, k - 1),
{
    let t = (my * 8 + i) * cols + (mx * 8 + k - 1);
    let d = cols as int;
    vstd::arithmetic::div_mod::lemma_fundamental_div_mod_converse(t, d, my * 8 + i, mx * 8 + k - 1);
    assert(t < old.len()) by (nonlinear_arith)
        requires
            t == (my * 8 + i) * cols + (mx * 8 + k - 1),
            mx * 8 + k - 1 < cols,
            my * 8 + i < rows,
            old.len() == rows * cols,
    ;
    assert(0 <= t) by (nonlinear_arith)
        requires
            t == (my * 8 + i) * cols + (mx * 8 + k - 1),
            0 <= i,
            1 <= k,
    ;
    let want = drawn_rows(old, cols, palette, mx, my, data, i, k - 1);
    assert forall|q: int| 0 <= q < next.len() implies next[q] == want[q] by {
        if q != t {
            vstd::arithmetic::div_mod::lemma_fundamental_div_mod(q, d);
            if q / d == my * 8 + i && q % d == mx * 8 + k - 1 {
                assert(q == d * (my * 8 + i) + (mx * 8 + k - 1));
                assert(d * (my * 8 + i) == (my * 8 + i) * d) by (nonlinear_arith);
                assert(false);
            }
        }
    }
    assert(next =~= want);
}

/// The RGBA colour of a shade.
fn pixel(value: u8) -> (r: u32)
    ensures
        r == shade(value),
{
    match value {
        0b00 => 0xE0F8_D0FF,  // White
        0b01 => 0x88C0_70FF,  // Light Gray
        0b10 => 0x3468_56FF,  // Dark Gray
        0b11 => 0x0818_20FF,  // Black
        _ => 0,
    }
}

/// The shade of column `x` of a tile row.
fn row_color(palette: u8, lo_byte: u8, hi_byte: u8, x: usize) -> (color: u8)
    requires
        x < 8,
    ensures
        color == palette_shade(palette, color_index(lo_byte, hi_byte, (7 - x) as u8)),
        color < 4,
{
    let s = (7 - x) as u8;
    let lo = (lo_byte >> s) & 1;
    let hi = (hi_byte >> s) & 1;
    let index = (hi << 1u8) | lo;
    assert(index < 4 && (index << 1u8) < 8) by (bit_vector)
        requires
            lo == (lo_byte >> s) & 1,
            hi == (hi_byte >> s) & 1,
            index == (hi << 1u8) | lo,
    ;
    let color = (palette >> (index << 1u8)) & 0b11;
    assert(color < 4) by (bit_vector)
        requires
            color == (palette >> (index << 1u8)) & 0b11,
    ;
    color
}

/// One decoded tile row.
fn decode_row(palette: u8, lo_byte: u8, hi_byte: u8, sprite: bool) -> (row: [u32; 8])
    ensures
        forall|x: int|
            0 <= x < 8 ==> #[trigger] row@[x] == if sprite {
                sprite_pixel(palette, lo_byte, hi_byte, x)
            } else {
                tile_pixel(palette, lo_byte, hi_byte, x)
            },
{
    let mut row = [0u32; 8];
    let mut x: usize = 0;
    while x < 8
        invariant
            x <= 8,
            forall|k: int|
                0 <= k < x ==> #[trigger] row@[k] == if sprite {
                    sprite_pixel(palette, lo_byte, hi_byte, k)
                } else {
                    tile_pixel(palette, lo_byte, hi_byte, k)
                },
        decreases 8 - x,
    {
        let color = row_color(palette, lo_byte, hi_byte, x);
        let mut c = pixel(color);
        if sprite && color == 0 {
            c &= 0xFFFF_FF00;
        }
        row[x] = c;
        x += 1;
    }
    row
}

/// Decode the rows of `tile_data` (two bytes a row, at most eight rows).
fn decode(palette: u8, tile_data: &[u8], sprite: bool) -> (texture: [[u32; 8]; 8])
    requires
        tile_data@.len() <= 17,
    ensures
        decoded(texture, palette, tile_data@, sprite),
{
    let mut texture = [[0u32; 8]; 8];
    let rows = tile_data.len() / 2;
    let mut y: usize = 0;
    while y < rows
        invariant
            rows == tile_data@.len() / 2,
            rows <= 8,
            y <= rows,
            forall|k: int, x: int|
                0 <= k < 8 && 0 <= x < 8 ==> #[trigger] texture@[k]@[x] == if k < y {
                    if sprite {
                        sprite_pixel(palette, tile_data@[2 * k], tile_data@[2 * k + 1], x)
                    } else {
                        tile_pixel(palette, tile_data@[2 * k], tile_data@[2 * k + 1], x)
                    }
                } else {
                    0
                },
        decreases rows - y,
    {
        //Each row in tile is pair of 2 bytes.
        let row = decode_row(palette, tile_data[2 * y], tile_data[2 * y + 1], sprite);
        texture[y] = row;
        y += 1;
    }
    texture
}

/// An 8x8 tile as RGBA pixels, rows first.
pub struct Tile {
    pub texture: [[u32; 8]; 8],
}

impl Tile {
    /// Decode a background tile: two bytes a row, low bit plane first.
    pub fn construct(palette: u8, tile_data: &[u8]) -> (r: Self)
        requires
            tile_data@.len() <= 17,
        ensures
            decoded(r.texture, palette, tile_data@, false),
    {
        // We receive in order of
        // low byte, then high byte
        Tile { texture: decode(palette, tile_data, false) }
    }

    /// Decode a sprite tile: as `construct`, with shade 0 transparent.
    pub fn sprite_construct(palette: u8, tile_data: &[u8]) -> (r: Self)
        requires
            tile_data@.len() <= 17,
        ensures
            decoded(r.texture, palette, tile_data@, true),
    {
        Tile { texture: decode(palette, tile_data, true) }
    }

    /// Draw the tile of `tile_data` into `pixels` at tile position
    /// `location` (column, row), eight pixels to a tile.
    pub fn write(palette: u8, pixels: &mut PixelData, location: (usize, usize), tile_data: &[u8])
        requires
            old(pixels).wf(),
            tile_data@.len() >= 16,
            location.0 * 8 + 8 <= pixel_shape(*old(pixels)).1,
            location.1 * 8 + 8 <= pixel_shape(*old(pixels)).0,
        ensures
            final(pixels).wf(),
            pixel_shape(*final(pixels)) == pixel_shape(*old(pixels)),
            pixel_values(*final(pixels)) == tile_written(
                pixel_values(*old(pixels)),
                pixel_shape(*old(pixels)).1,
                palette,
                location.0 as nat,
                location.1 as nat,
                tile_data@,
            ),
    {
        let ghost shape = pixel_shape(*pixels);
        let ghost cols = shape.1;
        let ghost before = pixel_values(*pixels);
        let (mx, my) = location;
        proof {
            assert(shape.0 <= shape.0 * shape.1) by (nonlinear_arith)
                requires
                    shape.1 >= 1,
            ;
            assert(shape.1 <= shape.0 * shape.1) by (nonlinear_arith)
                requires
                    shape.0 >= 1,
            ;
        }
        let mut i: usize = 0;
        while i < 8
            invariant
                i <= 8,
                pixels.wf(),
                pixel_shape(*pixels) == shape,
                cols == shape.1,
                before.len() == shape.0 * shape.1,
                my * 8 + 8 <= shape.0,
                mx * 8 + 8 <= shape.1,
                shape.0 <= isize::MAX,
                shape.1 <= isize::MAX,
                tile_data@.len() >= 16,
                pixel_values(*pixels) == drawn_rows(
                    before,
                    cols,
                    palette,
                    mx as nat,
                    my as nat,
                    tile_data@,
                    i as int,
                    8,
                ),
            decreases 8 - i,
        {
            let y = (my * 8) + i;
            let mut lo = tile_data[i * 2];
            let mut hi = tile_data[i * 2 + 1];
            let ghost lo0 = lo;
            let ghost hi0 = hi;
            proof {
                assert(lo0 >> 0u8 == lo0 && hi0 >> 0u8 == hi0) by (bit_vector);
            }
            let x = mx * 8;
            let mut offset: usize = 0;
            while offset < 8
                invariant
                    i < 8,
                    offset <= 8,
                    y == my * 8 + i,
                    x == mx * 8,
                    lo0 == tile_data@[2 * i],
                    hi0 == tile_data@[2 * i + 1],
                    lo == lo0 >> (offset as u8),
                    hi == hi0 >> (offset as u8),
                    pixels.wf(),
                    pixel_shape(*pixels) == shape,
                    cols == shape.1,
                    before.len() == shape.0 * shape.1,
                    my * 8 + 8 <= shape.0,
                    mx * 8 + 8 <= shape.1,
                    tile_data@.len() >= 16,
                    pixel_values(*pixels) == drawn_rows(
                        before,
                        cols,
                        palette,
                        mx as nat,
                        my as nat,
                        tile_data@,
                        i as int,
                        8 - offset,
                    ),
                decreases 8 - offset,
            {
                let lo_b = lo & 1;
                let hi_b = hi & 1;
                let index = (hi_b << 2u8) | lo_b << 1u8;
                proof {
                    lemma_index_bits(lo0, hi0, offset as u8, lo, hi, palette);
                }
                let color = (palette >> index) & 0b11;
                let c = pixel(color);
                let ind = x + 7 - offset;
                let ghost prev = pixel_values(*pixels);
                pixels.set(y, ind, c);
                proof {
                    lemma_draw_one(
                        before,
                        cols,
                        palette,
                        mx as nat,
                        my as nat,
                        tile_data@,
                        i as int,
                        8 - offset,
                        prev,
                        pixel_values(*pixels),
                        shape.0,
                    );
                }
                lo >>= 1u8;
                hi >>= 1u8;
                proof {
                    lemma_shift_step(lo0, offset as u8);
                    lemma_shift_step(hi0, offset as u8);
                }
                offset += 1;
            }
            proof {
                assert(drawn_rows(before, cols, palette, mx as nat, my as nat, tile_data@, i as int, 0)
                    =~= drawn_rows(
                    before,
                    cols,
                    palette,
                    mx as nat,
                    my as nat,
                    tile_data@,
                    i + 1,
                    8,
                ));
            }
            i += 1;
        }
        proof {
            assert(drawn_rows(before, cols, palette, mx as nat, my as nat, tile_data@, 8, 8)
                =~= tile_written(before, cols, palette, mx as nat, my as nat, tile_data@));
        }
    }

    /// The byte range of tile `i`'s data: sixteen bytes from `i`.
    pub fn range(i: usize) -> (r: Range<usize>)
        requires
            i + 16 <= usize::MAX,
        ensures
            r.start == i,
            r.end == i + 16,
    {
        i..i + 16
    }

    /// The decoded pixels.
    pub fn texture(&self) -> (r: &[[u32; 8]; 8])
        ensures
            *r == self.texture,
    {
        &self.texture
    }
}


/// Drawing a tile into a grid puts there the pixels that decoding the same
/// tile data gives: pixel (x, y) of the tile lands at (8mx + x, 8my + y).
pub proof fn law_write_matches_construct(
    texture: [[u32; 8]; 8],
    palette: u8,
    data: Seq<u8>,
    old: Seq<u32>,
    rows: nat,
    cols: nat,
    mx: nat,
    my: nat,
    x: int,
    y: int,
)
    requires
        decoded(texture, palette, data, false),
        data.len() == 16,
        old.len() == rows * cols,
        mx * 8 + 8 <= cols,
        my * 8 + 8 <= rows,
        0 <= x < 8,
        0 <= y < 8,
    ensures
        0 <= (my * 8 + y) * cols + mx * 8 + x < old.len(),
        tile_written(old, cols, palette, mx, my, data)[(my * 8 + y) * cols + mx * 8 + x]
            == texture@[y]@[x],
{
    let t = (my * 8 + y) * cols + (mx * 8 + x);
    vstd::arithmetic::div_mod::lemma_fundamental_div_mod_converse(
        t,
        cols as int,
        my * 8 + y,
        mx * 8 + x,
    );
    assert(0 <= t < old.len()) by (nonlinear_arith)
        requires
            t == (my * 8 + y) * cols + (mx * 8 + x),
            mx * 8 + x < cols,
            my * 8 + y < rows,
            0 <= x,
            0 <= y,
            old.len() == rows * cols,
    ;
    assert(texture@[y]@[x] == tile_pixel(palette, data[2 * y], data[2 * y + 1], x));
}

} // verus!
