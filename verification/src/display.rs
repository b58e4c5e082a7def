use vstd::prelude::*;

verus! {

/// Bytes of the frame buffer per display row: each byte holds eight pixels, so a row is
/// 64 pixels wide.
pub const BYTES_PER_ROW: usize = 8;

/// One pixel of the display, placed on a grid of square cells. Rows are counted from 1:
/// the window leaves one cell of margin above the first row.
#[derive(Clone, Copy, Debug, PartialEq, Eq, Structural)]
pub struct Cell {
    pub row: usize,
    pub col: usize,
    pub lit: bool,
}

/// Whether pixel `bit` of a frame-buffer byte is lit; pixel 0 is the most significant bit.
pub open spec fn pixel_lit(byte: u8, bit: u8) -> bool {
    (byte >> (7 - bit) as u8) & 1 == 1
}

/// The cell of pixel `k` of a frame buffer, pixels counted eight per byte.
pub open spec fn cell_of(frame: Seq<u8>, k: int) -> Cell {
    let per_row = (BYTES_PER_ROW * 8) as int;
    Cell {
        row: (k / per_row + 1) as usize,
        col: (k % per_row) as usize,
        lit: pixel_lit(frame[k / 8], (k % 8) as u8),
    }
}

/// Whether pixel `b` of the byte `px` is lit, tested as the window tests it.
fn byte_pixels(px: u8, b: u8) -> (lit: bool)
    requires
        b < 8,
    ensures
        lit == pixel_lit(px, b),
{
    let lit = ((px << b) & 0b1000_0000) == 0b1000_0000;
    assert(lit == ((px >> (7 - b) as u8) & 1 == 1)) by (bit_vector)
        requires
            b < 8,
            lit == (((px << b) & 0b1000_0000) == 0b1000_0000),
    ;
    lit
}

/// Lays the frame buffer out as cells, one per pixel, in the order the window paints them.
pub fn frame_cells(frame: &[u8]) -> (cells: Vec<Cell>)
    requires
        frame@.len() * 8 <= usize::MAX,
    ensures
        cells@.len() == frame@.len() * 8,
        forall|k: int| 0 <= k < cells@.len() ==> #[trigger] cells@[k] == cell_of(frame@, k),
{
    let mut cells: Vec<Cell> = Vec::new();
    let mut n: usize = 0;
    let mut row: usize = 0;
    let mut col: usize = 0;
    while n < frame.len()
        invariant
            n <= frame@.len(),
            frame@.len() * 8 <= usize::MAX,
            cells@.len() == n * 8,
            n > 0 ==> row == (n - 1) / 8 + 1,
            n > 0 ==> col == ((n - 1) % 8 + 1) * 8,
            n == 0 ==> row == 0 && col == 0,
            forall|k: int| 0 <= k < cells@.len() ==> #[trigger] cells@[k] == cell_of(frame@, k),
        decreases frame@.len() - n,
    {
        if n % BYTES_PER_ROW == 0 {
            row = row + 1;
            col = 0;
        }
        let px = frame[n];
        let mut b: u8 = 0;
        while b < 8
            invariant
                n < frame@.len(),
                frame@.len() * 8 <= usize::MAX,
                b <= 8,
                px == frame@[n as int],
                row == n / 8 + 1,
                col == (n % 8) * 8 + b,
                cells@.len() == n * 8 + b,
                forall|k: int| 0 <= k < cells@.len() ==> #[trigger] cells@[k] == cell_of(frame@, k),
            decreases 8 - b,
        {
            let lit = byte_pixels(px, b);
            proof {
                let k = n * 8 + b;
                assert(k / 64 == n / 8 && k % 64 == (n % 8) * 8 + b && k / 8 == n && k % 8 == b)
                    by (nonlinear_arith)
                    requires
                        k == n * 8 + b,
                        0 <= b < 8,
                ;
            }
            cells.push(Cell { row, col, lit });
            col = col + 1;
            b = b + 1;
        }
        n = n + 1;
    }
    cells
}

/// The pixel value of `lit`: 1 when lit, 0 when not.
pub open spec fn lit_value(lit: bool) -> int {
    if lit {
        1
    } else {
        0
    }
}

/// The eight pixels of a byte, read left to right as binary digits, spell the byte: pixel 0
/// weighs 128 and pixel 7 weighs 1. So a byte lights exactly the pixels of its set bits.
pub proof fn lemma_pixels_spell_byte(byte: u8)
    ensures
        byte as int == 128 * lit_value(pixel_lit(byte, 0)) + 64 * lit_value(pixel_lit(byte, 1))
            + 32 * lit_value(pixel_lit(byte, 2)) + 16 * lit_value(pixel_lit(byte, 3)) + 8
            * lit_value(pixel_lit(byte, 4)) + 4 * lit_value(pixel_lit(byte, 5)) + 2 * lit_value(
            pixel_lit(byte, 6),
        ) + lit_value(pixel_lit(byte, 7)),
{
    let b0 = (byte >> 7u8) & 1;
    let b1 = (byte >> 6u8) & 1;
    let b2 = (byte >> 5u8) & 1;
    let b3 = (byte >> 4u8) & 1;
    let b4 = (byte >> 3u8) & 1;
    let b5 = (byte >> 2u8) & 1;
    let b6 = (byte >> 1u8) & 1;
    let b7 = (byte >> 0u8) & 1;
    assert(byte == 128 * b0 + 64 * b1 + 32 * b2 + 16 * b3 + 8 * b4 + 4 * b5 + 2 * b6 + b7
        && b0 <= 1 && b1 <= 1 && b2 <= 1 && b3 <= 1 && b4 <= 1 && b5 <= 1 && b6 <= 1 && b7 <= 1)
        by (bit_vector)
        requires
            b0 == (byte >> 7u8) & 1,
            b1 == (byte >> 6u8) & 1,
            b2 == (byte >> 5u8) & 1,
            b3 == (byte >> 4u8) & 1,
            b4 == (byte >> 3u8) & 1,
            b5 == (byte >> 2u8) & 1,
            b6 == (byte >> 1u8) & 1,
            b7 == (byte >> 0u8) & 1,
    ;
}

/// Pixel `k` of the frame is lit exactly when its bit of the frame is set: bit `7 - k % 8`
/// of byte `k / 8`, that is `(byte / 2^(7 - k % 8)) % 2 == 1`.
pub proof fn lemma_pixel_is_bit(byte: u8, bit: u8)
    requires
        bit < 8,
    ensures
        pixel_lit(byte, bit) <==> (byte as int / vstd::arithmetic::power2::pow2(
            (7 - bit) as nat,
        ) as int) % 2 == 1,
{
    let sh = (7 - bit) as u8;
    vstd::bits::lemma_u8_shr_is_div(byte, sh);
    assert((byte >> sh) & 1 == (byte >> sh) % 2) by (bit_vector);
}

/// The eight cells of frame byte `n`, read left to right as binary digits, spell the byte:
/// the display shows each byte's bits most significant first.
pub proof fn lemma_cells_spell_frame(frame: Seq<u8>, n: int)
    requires
        0 <= n < frame.len(),
    ensures
        frame[n] as int == 128 * lit_value(cell_of(frame, 8 * n).lit) + 64 * lit_value(
            cell_of(frame, 8 * n + 1).lit,
        ) + 32 * lit_value(cell_of(frame, 8 * n + 2).lit) + 16 * lit_value(
            cell_of(frame, 8 * n + 3).lit,
        ) + 8 * lit_value(cell_of(frame, 8 * n + 4).lit) + 4 * lit_value(
            cell_of(frame, 8 * n + 5).lit,
        ) + 2 * lit_value(cell_of(frame, 8 * n + 6).lit) + lit_value(
            cell_of(frame, 8 * n + 7).lit,
        ),
{
    vstd::arithmetic::div_mod::lemma_fundamental_div_mod_converse(8 * n + 0, 8, n, 0);
    vstd::arithmetic::div_mod::lemma_fundamental_div_mod_converse(8 * n + 1, 8, n, 1);
    vstd::arithmetic::div_mod::lemma_fundamental_div_mod_converse(8 * n + 2, 8, n, 2);
    vstd::arithmetic::div_mod::lemma_fundamental_div_mod_converse(8 * n + 3, 8, n, 3);
    vstd::arithmetic::div_mod::lemma_fundamental_div_mod_converse(8 * n + 4, 8, n, 4);
    vstd::arithmetic::div_mod::lemma_fundamental_div_mod_converse(8 * n + 5, 8, n, 5);
    vstd::arithmetic::div_mod::lemma_fundamental_div_mod_converse(8 * n + 6, 8, n, 6);
    vstd::arithmetic::div_mod::lemma_fundamental_div_mod_converse(8 * n + 7, 8, n, 7);
    lemma_pixels_spell_byte(frame[n]);
}

/// The grid the cells form: the first pixel is in row 1, column 0; the next pixel is one
/// column to the right, except after the 64th pixel of a row, where the next row starts at
/// column 0; and every row is 64 cells wide (for every pixel index a frame that fits in
/// memory can have).
pub proof fn lemma_cell_layout(frame: Seq<u8>, k: int)
    requires
        0 <= k,
        k + 64 <= usize::MAX,
    ensures
        cell_of(frame, 0).row == 1 && cell_of(frame, 0).col == 0,
        cell_of(frame, k).col < 64,
        (k + 1) % 64 != 0 ==> cell_of(frame, k + 1).row == cell_of(frame, k).row && cell_of(
            frame,
            k + 1,
        ).col == cell_of(frame, k).col + 1,
        (k + 1) % 64 == 0 ==> cell_of(frame, k + 1).row == cell_of(frame, k).row + 1 && cell_of(
            frame,
            k + 1,
        ).col == 0,
        cell_of(frame, k + 64).row == cell_of(frame, k).row + 1 && cell_of(frame, k + 64).col
            == cell_of(frame, k).col,
{
    let q = k / 64;
    let r = k % 64;
    vstd::arithmetic::div_mod::lemma_fundamental_div_mod(k, 64);
    if r + 1 < 64 {
        vstd::arithmetic::div_mod::lemma_fundamental_div_mod_converse(k + 1, 64, q, r + 1);
    } else {
        vstd::arithmetic::div_mod::lemma_fundamental_div_mod_converse(k + 1, 64, q + 1, 0);
    }
    vstd::arithmetic::div_mod::lemma_fundamental_div_mod_converse(k + 64, 64, q + 1, r);
}

} // verus!
