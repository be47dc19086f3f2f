//! The captured screen and the padded picture that the GPU samples from.
use vstd::prelude::*;

use vstd::arithmetic::div_mod::{lemma_fundamental_div_mod, lemma_fundamental_div_mod_converse};

verus! {

/// Margin, in pixels, of black around the captured screen in the picture.
pub const PAD_POINTS: u32 = 120;

/// A capture of the primary screen: 4 bytes per pixel in BGRA order, rows
/// from top to bottom.
pub struct ScreenCapture {
    pub width: u32,
    pub height: u32,
    pub pixels: Vec<u8>,
}

impl ScreenCapture {
    /// The pixel buffer holds exactly `width * height` pixels.
    pub open spec fn wf(&self) -> bool {
        self.pixels@.len() == self.width * self.height * 4
    }
}

/// The screen size in pixels from the device capabilities `HORZRES` and
/// `VERTRES`, read as unsigned; none when either is zero.
pub open spec fn screen_extent_spec(horz: i32, vert: i32) -> Option<(u32, u32)> {
    if horz as u32 == 0 || vert as u32 == 0 {
        None
    } else {
        Some((horz as u32, vert as u32))
    }
}

/// The screen's width comes from `HORZRES` and its height from `VERTRES`, in
/// that order and read as unsigned; a screen with either reading zero is empty.
pub proof fn lemma_screen_extent_order(horz: i32, vert: i32)
    ensures
        (horz as u32) != 0 && (vert as u32) != 0 ==> screen_extent_spec(horz, vert) == Some(
            (horz as u32, vert as u32),
        ),
        (horz as u32) == 0 || (vert as u32) == 0 ==> screen_extent_spec(horz, vert) is None,
        horz > 0 && vert > 0 ==> screen_extent_spec(horz, vert) == Some(
            (horz as u32, vert as u32),
        ) && (horz as u32) == horz && (vert as u32) == vert,
{
    if horz > 0 && vert > 0 {
        assert(horz > 0 ==> (horz as u32) == horz) by (bit_vector);
        assert(vert > 0 ==> (vert as u32) == vert) by (bit_vector);
    }
}

/// The size of the screen to capture, or none for an empty screen.
pub fn screen_extent(horz: i32, vert: i32) -> (r: Option<(u32, u32)>)
    ensures
        r == screen_extent_spec(horz, vert),
{
    #[verifier::truncate]
    let w = horz as u32;
    #[verifier::truncate]
    let h = vert as u32;
    if w == 0 || h == 0 {
        None
    } else {
        Some((w, h))
    }
}

/// The size of the picture: the screen with a margin of `pad_points` on every side.
pub fn padded_extent(width: u32, height: u32, pad_points: u32) -> (r: (u32, u32))
    requires
        width + 2 * pad_points <= u32::MAX,
        height + 2 * pad_points <= u32::MAX,
    ensures
        r.0 == width + 2 * pad_points,
        r.1 == height + 2 * pad_points,
{
    (width + pad_points * 2, height + pad_points * 2)
}

/// The byte at byte column `col` of row `row` of the padded picture: the
/// screen's byte where the row and column fall on the screen, black elsewhere.
pub open spec fn padded_byte(
    bgra: Seq<u8>,
    width: nat,
    height: nat,
    pad: nat,
    row: int,
    col: int,
) -> u8 {
    if pad <= row < pad + height && pad * 4 <= col < (pad + width) * 4 {
        bgra[(row - pad) * (width * 4) + (col - pad * 4)]
    } else {
        0
    }
}

/// The bytes of one row of the padded picture.
pub open spec fn padded_row_len(width: nat, pad: nat) -> nat {
    (width + 2 * pad) * 4
}

/// The padded picture, row after row.
pub open spec fn padded_image(bgra: Seq<u8>, width: nat, height: nat, pad: nat) -> Seq<u8> {
    let row_len = padded_row_len(width, pad) as int;
    Seq::new(
        padded_row_len(width, pad) * (height + 2 * pad),
        |k: int| padded_byte(bgra, width, height, pad, k / row_len, k % row_len),
    )
}

/// `k = row * len + col` with `col` inside the row splits back into `row` and `col`.
proof fn lemma_split_index(k: int, len: int, row: int, col: int)
    requires
        len > 0,
        0 <= col < len,
        k == row * len + col,
    ensures
        k / len == row,
        k % len == col,
{
    lemma_fundamental_div_mod_converse(k, len, row, col);
}

/// Row `row` of a picture of `rows` rows of `len` bytes ends inside it.
proof fn lemma_row_bound(row: int, len: int, rows: int)
    requires
        0 <= row < rows,
        0 <= len,
    ensures
        0 <= row * len,
        row * len + len <= rows * len,
{
    assert(row * len + len <= rows * len) by (nonlinear_arith)
        requires
            0 <= row < rows,
            0 <= len,
    ;
    assert(0 <= row * len) by (nonlinear_arith)
        requires
            0 <= row,
            0 <= len,
    ;
}

/// A row and column inside a picture of `rows` rows give an index inside it.
proof fn lemma_index_bound(row: int, col: int, len: int, rows: int)
    requires
        0 <= row < rows,
        0 <= col < len,
    ensures
        0 <= row * len + col < rows * len,
        row * len + col + (len - col) <= rows * len,
{
    lemma_row_bound(row, len, rows);
}

/// In the padded picture, the byte at byte column `col` of row `row` is the
/// screen's byte when it falls on the screen, and black in the margin; the
/// screen's bytes are copied unchanged, without reordering the channels.
pub proof fn lemma_padded_layout(
    bgra: Seq<u8>,
    width: nat,
    height: nat,
    pad: nat,
    row: int,
    col: int,
)
    requires
        0 <= row < height + 2 * pad,
        0 <= col < padded_row_len(width, pad),
    ensures
        ({
            let img = padded_image(bgra, width, height, pad);
            let k = row * padded_row_len(width, pad) + col;
            &&& 0 <= k < img.len()
            &&& img[k] == padded_byte(bgra, width, height, pad, row, col)
            &&& (row < pad || row >= pad + height || col < pad * 4 || col >= (pad + width) * 4)
                ==> img[k] == 0
        }),
{
    let len = padded_row_len(width, pad) as int;
    let k = row * len + col;
    lemma_index_bound(row, col, len, (height + 2 * pad) as int);
    lemma_split_index(k, len, row, col);
}

/// The captured screen in the middle of a black margin of `pad_points`
/// pixels, as the bytes of the picture to upload.
pub fn pad_picture(bgra: &[u8], width: u32, height: u32, pad_points: u32) -> (padded: Vec<u8>)
    requires
        width + 2 * pad_points <= u32::MAX,
        height + 2 * pad_points <= u32::MAX,
        (width + 2 * pad_points) * (height + 2 * pad_points) * 4 <= usize::MAX,
        width * height * 4 <= bgra@.len(),
    ensures
        padded@ == padded_image(bgra@, width as nat, height as nat, pad_points as nat),
{
    let ghost img = padded_image(bgra@, width as nat, height as nat, pad_points as nat);
    let pw = width + pad_points * 2;
    let ph = height + pad_points * 2;
    let total: usize = (pw as usize) * (ph as usize) * 4;
    let mut padded: Vec<u8> = vec![0u8; total];
    proof {
        assert(((pw * ph) * 4) == (pw * 4) * ph) by (nonlinear_arith);
        assert(img.len() == total);
    }
    if ph == 0 {
        proof {
            assert(padded@ =~= img);
        }
        return padded;
    }
    assert((pw * 4) <= (pw * 4) * ph) by (nonlinear_arith)
        requires
            ph >= 1,
    ;
    let row_len: usize = (pw as usize) * 4;
    let src_row_len: usize = (width as usize) * 4;
    let pad: usize = pad_points as usize;
    let rows: usize = height as usize;
    let ghost len = row_len as int;
    let bgra_len = bgra.len();
    proof {
        assert forall|k: int| 0 <= k < total implies padded@[k] == (if k / len < pad as int {
            img[k]
        } else {
            0u8
        }) by {
            assert(cloned(0u8, padded@[k]));
        }
    }
    let mut y: usize = 0;
    while y < rows
        invariant
            rows == height,
            pad == pad_points,
            len == row_len,
            row_len == pw * 4,
            src_row_len == width * 4,
            pw == width + 2 * pad_points,
            ph == height + 2 * pad_points,
            ph >= 1,
            total == row_len * ph,
            total <= usize::MAX,
            width * height * 4 <= bgra@.len(),
            bgra@.len() == bgra_len,
            img == padded_image(bgra@, width as nat, height as nat, pad_points as nat),
            img.len() == total,
            padded@.len() == total,
            y <= rows,
            forall|k: int|
                0 <= k < total ==> #[trigger] padded@[k] == (if k / len < pad + y {
                    img[k]
                } else {
                    0u8
                }),
        decreases rows - y,
    {
        proof {
            lemma_row_bound(y as int, src_row_len as int, rows as int);
            lemma_row_bound((y + pad) as int, len, ph as int);
            assert(width * height * 4 == rows * src_row_len) by (nonlinear_arith)
                requires
                    rows == height,
                    src_row_len == width * 4,
            ;
            assert(y * src_row_len + src_row_len <= bgra_len);
            assert((y + pad) * len + len <= total);
        }
        let src = y * src_row_len;
        let dst = (y + pad) * row_len + pad * 4;
        let ghost r0 = (y + pad) as int;
        let mut i: usize = 0;
        while i < src_row_len
            invariant
                rows == height,
                pad == pad_points,
                len == row_len,
                row_len == pw * 4,
                src_row_len == width * 4,
                pw == width + 2 * pad_points,
                ph == height + 2 * pad_points,
                total == row_len * ph,
                y < rows,
                r0 == y + pad,
                src == y * src_row_len,
                src + src_row_len <= bgra@.len(),
                bgra@.len() == bgra_len,
                dst == r0 * len + pad * 4,
                r0 * len + len <= total,
                img == padded_image(bgra@, width as nat, height as nat, pad_points as nat),
                img.len() == total,
                padded@.len() == total,
                i <= src_row_len,
                forall|k: int|
                    0 <= k < total ==> #[trigger] padded@[k] == (if k / len < r0 || (k / len
                        == r0 && k % len < pad * 4 + i) {
                        img[k]
                    } else {
                        0u8
                    }),
            decreases src_row_len - i,
        {
            let ghost k0 = dst + i;
            proof {
                lemma_split_index(k0, len, r0, (pad * 4 + i) as int);
                assert((r0 - pad) * (width * 4) == y * src_row_len);
                assert(img[k0] == bgra@[src + i]);
            }
            let ghost before = padded@;
            padded.set(dst + i, bgra[src + i]);
            proof {
                assert forall|k: int| 0 <= k < total implies #[trigger] padded@[k] == (if k / len
                    < r0 || (k / len == r0 && k % len < pad * 4 + i + 1) {
                    img[k]
                } else {
                    0u8
                }) by {
                    if k != k0 {
                        assert(padded@[k] == before[k]);
                        lemma_fundamental_div_mod(k, len);
                        lemma_fundamental_div_mod(k0, len);
                        if k / len == r0 && k % len == pad * 4 + i {
                            assert(k == k0);
                        }
                    }
                }
            }
            i = i + 1;
        }
        proof {
            assert forall|k: int| 0 <= k < total implies #[trigger] padded@[k] == (if k / len < pad
                + y + 1 {
                img[k]
            } else {
                0u8
            }) by {
                if k / len == r0 {
                    assert(0 <= k % len < len);
                }
            }
        }
        y = y + 1;
    }
    proof {
        assert forall|k: int| 0 <= k < total implies #[trigger] padded@[k] == img[k] by {
            if k / len >= pad + rows {
                assert(img[k] == 0u8);
            }
        }
        assert(padded@ =~= img);
    }
    padded
}

/// The mip levels to fill, in order: each level is drawn from the one above
/// it, from level 1 down to the last of `mip_count` levels.
pub fn mip_blit_levels(mip_count: u32) -> (r: Vec<(u32, u32)>)
    ensures
        r@.len() == if mip_count == 0 { 0 } else { mip_count - 1 },
        forall|j: int| 0 <= j < r@.len() ==> #[trigger] r@[j] == ((j as u32), ((j + 1) as u32)),
{
    let mut r: Vec<(u32, u32)> = Vec::new();
    let mut level: u32 = 1;
    while level < mip_count
        invariant
            1 <= level,
            mip_count == 0 ==> level == 1,
            mip_count > 0 ==> level <= mip_count,
            r@.len() == level - 1,
            forall|j: int| 0 <= j < r@.len() ==> #[trigger] r@[j] == ((j as u32), ((j + 1) as u32)),
        decreases mip_count - level,
    {
        r.push((level - 1, level));
        level = level + 1;
    }
    r
}

} // verus!
