//! Whole frames: the average colour of a captured picture, and whether two
//! frames of light colours differ enough to be worth sending.
use crate::color::RgbColor;
use vstd::prelude::*;

verus! {

/// How many multiples of eight lie below `size`.
pub open spec fn eighths(size: nat) -> nat {
    (size + 7) / 8
}

/// Where the pixel in column `8 * col` of row `8 * row` begins.
pub open spec fn sample_offset(width: nat, row: nat, col: nat) -> nat {
    (8 * row * width + 8 * col) * 4
}

/// Component `c` (red, green, blue) of the pixel that begins at `offset`.
pub open spec fn pixel_component(data: Seq<u8>, offset: nat, is_bgra: bool, c: int) -> u8 {
    data[offset + if is_bgra {
        2 - c
    } else {
        c
    }]
}

/// What one sampled position adds to the sum of component `c`: nothing, where
/// the picture ends before it.
pub open spec fn sample_value(
    data: Seq<u8>,
    width: nat,
    row: nat,
    col: nat,
    is_bgra: bool,
    c: int,
) -> nat {
    if sample_offset(width, row, col) + 2 < data.len() {
        pixel_component(data, sample_offset(width, row, col), is_bgra, c) as nat
    } else {
        0
    }
}

/// One, where the picture holds the sampled position.
pub open spec fn sample_hit(data: Seq<u8>, width: nat, row: nat, col: nat) -> nat {
    if sample_offset(width, row, col) + 2 < data.len() {
        1
    } else {
        0
    }
}

/// Component `c` summed over the first `cols` sampled positions of a row.
pub open spec fn row_total(
    data: Seq<u8>,
    width: nat,
    row: nat,
    cols: nat,
    is_bgra: bool,
    c: int,
) -> nat
    decreases cols,
{
    if cols == 0 {
        0
    } else {
        row_total(data, width, row, (cols - 1) as nat, is_bgra, c) + sample_value(
            data,
            width,
            row,
            (cols - 1) as nat,
            is_bgra,
            c,
        )
    }
}

/// How many of the first `cols` sampled positions of a row the picture holds.
pub open spec fn row_hits(data: Seq<u8>, width: nat, row: nat, cols: nat) -> nat
    decreases cols,
{
    if cols == 0 {
        0
    } else {
        row_hits(data, width, row, (cols - 1) as nat) + sample_hit(
            data,
            width,
            row,
            (cols - 1) as nat,
        )
    }
}

/// Component `c` summed over the first `rows` sampled rows.
pub open spec fn frame_total(data: Seq<u8>, width: nat, rows: nat, is_bgra: bool, c: int) -> nat
    decreases rows,
{
    if rows == 0 {
        0
    } else {
        frame_total(data, width, (rows - 1) as nat, is_bgra, c) + row_total(
            data,
            width,
            (rows - 1) as nat,
            eighths(width),
            is_bgra,
            c,
        )
    }
}

/// How many sampled positions of the first `rows` sampled rows the picture holds.
pub open spec fn frame_hits(data: Seq<u8>, width: nat, rows: nat) -> nat
    decreases rows,
{
    if rows == 0 {
        0
    } else {
        frame_hits(data, width, (rows - 1) as nat) + row_hits(
            data,
            width,
            (rows - 1) as nat,
            eighths(width),
        )
    }
}

/// The mean of component `c` over every eighth pixel of every eighth row,
/// rounded down; zero for a picture without pixels.
pub open spec fn mean_component(
    data: Seq<u8>,
    width: nat,
    height: nat,
    is_bgra: bool,
    c: int,
) -> int {
    let hits = frame_hits(data, width, eighths(height));
    if hits == 0 {
        0
    } else {
        frame_total(data, width, eighths(height), is_bgra, c) as int / hits as int
    }
}

proof fn lemma_row_bounds(data: Seq<u8>, width: nat, row: nat, cols: nat, is_bgra: bool, c: int)
    ensures
        row_hits(data, width, row, cols) <= cols,
        row_total(data, width, row, cols, is_bgra, c) <= 255 * row_hits(data, width, row, cols),
    decreases cols,
{
    if cols > 0 {
        lemma_row_bounds(data, width, row, (cols - 1) as nat, is_bgra, c);
    }
}

proof fn lemma_frame_bounds(data: Seq<u8>, width: nat, rows: nat, is_bgra: bool, c: int)
    ensures
        frame_hits(data, width, rows) <= rows * eighths(width),
        frame_total(data, width, rows, is_bgra, c) <= 255 * frame_hits(data, width, rows),
    decreases rows,
{
    if rows > 0 {
        lemma_frame_bounds(data, width, (rows - 1) as nat, is_bgra, c);
        lemma_row_bounds(data, width, (rows - 1) as nat, eighths(width), is_bgra, c);
        assert(rows * eighths(width) == (rows - 1) * eighths(width) + eighths(width))
            by (nonlinear_arith);
    }
}

/// The bounds that keep the running sums of a frame within 128 bits.
proof fn lemma_sums_fit(
    data: Seq<u8>,
    width: u32,
    rows: nat,
    cols: nat,
    is_bgra: bool,
    c: int,
)
    requires
        rows <= eighths(u32::MAX as nat),
        cols <= eighths(width as nat),
    ensures
        frame_hits(data, width as nat, rows) + row_hits(data, width as nat, rows, cols)
            <= 0x0500_0000_0000_0000,
        frame_total(data, width as nat, rows, is_bgra, c) + row_total(
            data,
            width as nat,
            rows,
            cols,
            is_bgra,
            c,
        ) <= 255 * 0x0500_0000_0000_0000,
{
    let w = width as nat;
    lemma_frame_bounds(data, w, rows, is_bgra, c);
    lemma_row_bounds(data, w, rows, cols, is_bgra, c);
    assert(rows * eighths(w) <= 0x2000_0000 * 0x2000_0000) by (nonlinear_arith)
        requires
            rows <= 0x2000_0000,
            eighths(w) <= 0x2000_0000,
    ;
}

fn mean(total: u128, count: u128) -> (value: u8)
    requires
        total <= 255 * count,
    ensures
        value == if count == 0 {
            0
        } else {
            total as int / count as int
        },
{
    if count == 0 {
        0
    } else {
        proof {
            assert(total as int / count as int <= 255) by (nonlinear_arith)
                requires
                    total <= 255 * count,
                    count > 0,
            ;
        }
        (total / count) as u8
    }
}

/// The average colour of a picture with four bytes per pixel, taken over every
/// eighth pixel of every eighth row. Rows that the data does not hold do not
/// count.
pub fn frame_average(data: &[u8], width: u32, height: u32, is_bgra: bool) -> (color: RgbColor)
    ensures
        color.r == mean_component(data@, width as nat, height as nat, is_bgra, 0),
        color.g == mean_component(data@, width as nat, height as nat, is_bgra, 1),
        color.b == mean_component(data@, width as nat, height as nat, is_bgra, 2),
{
    let mut total_r: u128 = 0;
    let mut total_g: u128 = 0;
    let mut total_b: u128 = 0;
    let mut count: u128 = 0;
    let ghost w = width as nat;
    let rows: u64 = (height as u64 + 7) / 8;
    let cols: u64 = (width as u64 + 7) / 8;
    for row in 0..rows
        invariant
            w == width,
            rows == eighths(height as nat),
            cols == eighths(w),
            total_r == frame_total(data@, w, row as nat, is_bgra, 0),
            total_g == frame_total(data@, w, row as nat, is_bgra, 1),
            total_b == frame_total(data@, w, row as nat, is_bgra, 2),
            count == frame_hits(data@, w, row as nat),
    {
        proof {
            assert(row_total(data@, w, row as nat, 0, is_bgra, 0) == 0);
            assert(row_total(data@, w, row as nat, 0, is_bgra, 1) == 0);
            assert(row_total(data@, w, row as nat, 0, is_bgra, 2) == 0);
            assert(row_hits(data@, w, row as nat, 0) == 0);
        }
        for col in 0..cols
            invariant
                w == width,
                row < rows,
                rows == eighths(height as nat),
                cols == eighths(w),
                total_r == frame_total(data@, w, row as nat, is_bgra, 0) + row_total(
                    data@,
                    w,
                    row as nat,
                    col as nat,
                    is_bgra,
                    0,
                ),
                total_g == frame_total(data@, w, row as nat, is_bgra, 1) + row_total(
                    data@,
                    w,
                    row as nat,
                    col as nat,
                    is_bgra,
                    1,
                ),
                total_b == frame_total(data@, w, row as nat, is_bgra, 2) + row_total(
                    data@,
                    w,
                    row as nat,
                    col as nat,
                    is_bgra,
                    2,
                ),
                count == frame_hits(data@, w, row as nat) + row_hits(
                    data@,
                    w,
                    row as nat,
                    col as nat,
                ),
        {
            proof {
                assert(8 * row * width <= 8 * 0x2000_0000 * 0x1_0000_0000) by (nonlinear_arith)
                    requires
                        row <= 0x2000_0000,
                        width <= 0x1_0000_0000,
                ;
                lemma_sums_fit(data@, width, row as nat, col as nat, is_bgra, 0);
                lemma_sums_fit(data@, width, row as nat, col as nat, is_bgra, 1);
                lemma_sums_fit(data@, width, row as nat, col as nat, is_bgra, 2);
            }
            let offset: u128 = (8 * (row as u128) * (width as u128) + 8 * (col as u128)) * 4;
            assert(offset == sample_offset(w, row as nat, col as nat));
            if offset + 2 < data.len() as u128 {
                let at: usize = offset as usize;
                let (r, g, b) = if is_bgra {
                    (data[at + 2], data[at + 1], data[at])
                } else {
                    (data[at], data[at + 1], data[at + 2])
                };
                total_r = total_r + r as u128;
                total_g = total_g + g as u128;
                total_b = total_b + b as u128;
                count = count + 1;
            }
        }
    }
    proof {
        lemma_frame_bounds(data@, w, rows as nat, is_bgra, 0);
        lemma_frame_bounds(data@, w, rows as nat, is_bgra, 1);
        lemma_frame_bounds(data@, w, rows as nat, is_bgra, 2);
    }
    RgbColor::new(mean(total_r, count), mean(total_g, count), mean(total_b, count))
}

/// The byte order of a picture only decides which end of a pixel is red: read
/// the other way round, red and blue change places and green stays.
pub proof fn byte_order_swaps_red_and_blue(data: Seq<u8>, width: nat, height: nat, c: int)
    requires
        0 <= c <= 2,
    ensures
        mean_component(data, width, height, true, c) == mean_component(
            data,
            width,
            height,
            false,
            2 - c,
        ),
{
    lemma_totals_swap(data, width, eighths(height), c);
}

proof fn lemma_totals_swap(data: Seq<u8>, width: nat, rows: nat, c: int)
    requires
        0 <= c <= 2,
    ensures
        frame_total(data, width, rows, true, c) == frame_total(data, width, rows, false, 2 - c),
    decreases rows,
{
    if rows > 0 {
        lemma_totals_swap(data, width, (rows - 1) as nat, c);
        lemma_row_totals_swap(data, width, (rows - 1) as nat, eighths(width), c);
    }
}

proof fn lemma_row_totals_swap(data: Seq<u8>, width: nat, row: nat, cols: nat, c: int)
    requires
        0 <= c <= 2,
    ensures
        row_total(data, width, row, cols, true, c) == row_total(
            data,
            width,
            row,
            cols,
            false,
            2 - c,
        ),
    decreases cols,
{
    if cols > 0 {
        lemma_row_totals_swap(data, width, row, (cols - 1) as nat, c);
    }
}

/// Whether a frame of colours is worth sending after `previous`: the number of
/// lights changed, or some light's colour differs by the given measure.
pub fn colors_changed<F: Fn(RgbColor, RgbColor) -> bool>(
    previous: &[RgbColor],
    current: &[RgbColor],
    differs: F,
) -> (changed: bool)
    requires
        forall|left: RgbColor, right: RgbColor| call_requires(differs, (left, right)),
    ensures
        changed ==> previous@.len() != current@.len() || exists|i: int|
            0 <= i < previous@.len() && call_ensures(
                differs,
                (#[trigger] previous@[i], current@[i]),
                true,
            ),
        !changed ==> previous@.len() == current@.len() && forall|i: int|
            0 <= i < previous@.len() ==> call_ensures(
                differs,
                (#[trigger] previous@[i], current@[i]),
                false,
            ),
{
    if previous.len() != current.len() {
        return true;
    }
    for i in 0..previous.len()
        invariant
            previous@.len() == current@.len(),
            forall|left: RgbColor, right: RgbColor| call_requires(differs, (left, right)),
            forall|k: int|
                0 <= k < i ==> call_ensures(
                    differs,
                    (#[trigger] previous@[k], current@[k]),
                    false,
                ),
    {
        if differs(previous[i], current[i]) {
            return true;
        }
    }
    false
}

/// The picture holds the pixel in column `8 * col` of row `8 * row`.
pub open spec fn holds_sample(data: Seq<u8>, width: u32, row: int, col: int) -> bool {
    0 <= row && 0 <= col && (8 * row * width + 8 * col) * 4 + 2 < data.len()
}

/// Where the pixel in column `8 * col` of row `8 * row` begins.
pub open spec fn sample_at(width: u32, row: int, col: int) -> int {
    (8 * row * width + 8 * col) * 4
}

proof fn lemma_row_order(
    data: Seq<u8>,
    other: Seq<u8>,
    width: u32,
    height: u32,
    row: nat,
    cols: nat,
    is_bgra: bool,
    c: int,
)
    requires
        data.len() == other.len(),
        0 <= c <= 2,
        8 * row < height,
        cols <= eighths(width as nat),
        forall|r: int, k: int, b: int|
            #![trigger data[sample_at(width, r, k) + b]]
            0 <= b <= 2 && 0 <= r && 8 * r < height && 0 <= k && 8 * k < width && holds_sample(
                data,
                width,
                r,
                k,
            ) ==> data[sample_at(width, r, k) + b] <= other[sample_at(width, r, k) + b],
    ensures
        row_hits(data, width as nat, row, cols) == row_hits(other, width as nat, row, cols),
        row_total(data, width as nat, row, cols, is_bgra, c) <= row_total(
            other,
            width as nat,
            row,
            cols,
            is_bgra,
            c,
        ),
    decreases cols,
{
    if cols > 0 {
        let col = (cols - 1) as nat;
        lemma_row_order(data, other, width, height, row, col, is_bgra, c);
        let b = if is_bgra {
            2 - c
        } else {
            c
        };
        assert(sample_offset(width as nat, row, col) == sample_at(width, row as int, col as int));
        let byte = data[sample_at(width, row as int, col as int) + b];
    }
}

proof fn lemma_frame_order(
    data: Seq<u8>,
    other: Seq<u8>,
    width: u32,
    height: u32,
    rows: nat,
    is_bgra: bool,
    c: int,
)
    requires
        data.len() == other.len(),
        0 <= c <= 2,
        rows <= eighths(height as nat),
        forall|r: int, k: int, b: int|
            #![trigger data[sample_at(width, r, k) + b]]
            0 <= b <= 2 && 0 <= r && 8 * r < height && 0 <= k && 8 * k < width && holds_sample(
                data,
                width,
                r,
                k,
            ) ==> data[sample_at(width, r, k) + b] <= other[sample_at(width, r, k) + b],
    ensures
        frame_hits(data, width as nat, rows) == frame_hits(other, width as nat, rows),
        frame_total(data, width as nat, rows, is_bgra, c) <= frame_total(
            other,
            width as nat,
            rows,
            is_bgra,
            c,
        ),
    decreases rows,
{
    if rows > 0 {
        lemma_frame_order(data, other, width, height, (rows - 1) as nat, is_bgra, c);
        lemma_row_order(
            data,
            other,
            width,
            height,
            (rows - 1) as nat,
            eighths(width as nat),
            is_bgra,
            c,
        );
    }
}

/// A picture that is no darker than another in every eighth pixel of every eighth
/// row is no darker on average, whatever the pixels between them are; so the average
/// depends on those pixels alone.
pub proof fn brighter_samples_make_a_brighter_average(
    data: &[u8],
    other: &[u8],
    width: u32,
    height: u32,
    is_bgra: bool,
    color: RgbColor,
    other_color: RgbColor,
)
    requires
        call_ensures(frame_average, (data, width, height, is_bgra), color),
        call_ensures(frame_average, (other, width, height, is_bgra), other_color),
        data@.len() == other@.len(),
        forall|r: int, k: int, b: int|
            #![trigger data@[sample_at(width, r, k) + b]]
            0 <= b <= 2 && 0 <= r && 8 * r < height && 0 <= k && 8 * k < width && holds_sample(
                data@,
                width,
                r,
                k,
            ) ==> data@[sample_at(width, r, k) + b] <= other@[sample_at(width, r, k) + b],
    ensures
        color.r <= other_color.r,
        color.g <= other_color.g,
        color.b <= other_color.b,
{
    let rows = eighths(height as nat);
    lemma_frame_order(data@, other@, width, height, rows, is_bgra, 0);
    lemma_frame_order(data@, other@, width, height, rows, is_bgra, 1);
    lemma_frame_order(data@, other@, width, height, rows, is_bgra, 2);
    let hits = frame_hits(data@, width as nat, rows) as int;
    if hits > 0 {
        lemma_mean_order(
            frame_total(data@, width as nat, rows, is_bgra, 0) as int,
            frame_total(other@, width as nat, rows, is_bgra, 0) as int,
            hits,
        );
        lemma_mean_order(
            frame_total(data@, width as nat, rows, is_bgra, 1) as int,
            frame_total(other@, width as nat, rows, is_bgra, 1) as int,
            hits,
        );
        lemma_mean_order(
            frame_total(data@, width as nat, rows, is_bgra, 2) as int,
            frame_total(other@, width as nat, rows, is_bgra, 2) as int,
            hits,
        );
    }
}

proof fn lemma_mean_order(low: int, high: int, count: int)
    requires
        0 <= low <= high,
        count > 0,
    ensures
        low / count <= high / count,
{
    vstd::arithmetic::div_mod::lemma_div_is_ordered(low, high, count);
}

/// Every pixel of the picture holds the three bytes, as they lie there.
pub open spec fn plain_picture(data: Seq<u8>, first: u8, second: u8, third: u8) -> bool {
    &&& plain_byte(data, 0, first)
    &&& plain_byte(data, 1, second)
    &&& plain_byte(data, 2, third)
}

/// Byte `b` of every pixel holds the value.
pub open spec fn plain_byte(data: Seq<u8>, b: int, value: u8) -> bool {
    forall|i: int| 0 <= i < data.len() && i % 4 == b ==> #[trigger] data[i] == value
}

proof fn lemma_plain_row(
    data: Seq<u8>,
    width: nat,
    row: nat,
    cols: nat,
    is_bgra: bool,
    c: int,
    value: u8,
)
    requires
        0 <= c <= 2,
        plain_byte(
            data,
            if is_bgra {
                2 - c
            } else {
                c
            },
            value,
        ),
    ensures
        row_total(data, width, row, cols, is_bgra, c) == value * row_hits(data, width, row, cols),
    decreases cols,
{
    if cols > 0 {
        lemma_plain_row(data, width, row, (cols - 1) as nat, is_bgra, c, value);
        let p = 8 * row * width + 8 * (cols - 1);
        assert(p >= 0) by (nonlinear_arith)
            requires
                p == 8 * row * width + 8 * (cols - 1),
                row >= 0,
                width >= 0,
                cols >= 1,
        ;
        assert(sample_offset(width, row, (cols - 1) as nat) == 4 * p);
        assert((4 * p + c) % 4 == c && (4 * p + 2 - c) % 4 == 2 - c);
        let before = row_hits(data, width, row, (cols - 1) as nat) as int;
        assert(value * (before + 1) == value * before + value) by (nonlinear_arith);
    } else {
        assert(value * 0 == 0);
    }
}

proof fn lemma_plain_frame(
    data: Seq<u8>,
    width: nat,
    rows: nat,
    is_bgra: bool,
    c: int,
    value: u8,
)
    requires
        0 <= c <= 2,
        plain_byte(
            data,
            if is_bgra {
                2 - c
            } else {
                c
            },
            value,
        ),
    ensures
        frame_total(data, width, rows, is_bgra, c) == value * frame_hits(data, width, rows),
    decreases rows,
{
    if rows > 0 {
        lemma_plain_frame(data, width, (rows - 1) as nat, is_bgra, c, value);
        lemma_plain_row(data, width, (rows - 1) as nat, eighths(width), is_bgra, c, value);
        let above = frame_hits(data, width, (rows - 1) as nat) as int;
        let row = row_hits(data, width, (rows - 1) as nat, eighths(width)) as int;
        assert(value * (above + row) == value * above + value * row) by (nonlinear_arith);
    } else {
        assert(value * 0 == 0);
    }
}

proof fn lemma_first_sample_counts(data: Seq<u8>, width: nat, rows: nat)
    requires
        width > 0,
        rows > 0,
        data.len() > 2,
    ensures
        frame_hits(data, width, rows) > 0,
    decreases rows,
{
    if rows > 1 {
        lemma_first_sample_counts(data, width, (rows - 1) as nat);
    } else {
        lemma_first_column_counts(data, width, eighths(width));
        assert(frame_hits(data, width, 0) == 0);
    }
}

proof fn lemma_first_sample(width: nat)
    ensures
        sample_offset(width, 0, 0) == 0,
        sample_offset(width, 0, 1) == 32,
{
    assert(8 * 0 * width == 0) by (nonlinear_arith);
    assert(0 * width == 0) by (nonlinear_arith);
}

proof fn lemma_first_column_counts(data: Seq<u8>, width: nat, cols: nat)
    requires
        cols > 0,
        data.len() > 2,
    ensures
        row_hits(data, width, 0, cols) > 0,
    decreases cols,
{
    if cols > 1 {
        lemma_first_column_counts(data, width, (cols - 1) as nat);
    } else {
        lemma_first_sample(width);
        assert(row_hits(data, width, 0, 0) == 0);
    }
}

proof fn lemma_plain_mean(value: u8, count: int)
    requires
        count > 0,
    ensures
        (value * count) / count == value,
{
    vstd::arithmetic::div_mod::lemma_div_by_multiple(value as int, count);
}

/// A picture of one colour averages to that colour, in either byte order, and a
/// picture without pixels to black.
pub proof fn a_plain_picture_averages_to_its_colour(
    data: &[u8],
    width: u32,
    height: u32,
    color: RgbColor,
    reversed: RgbColor,
    first: u8,
    second: u8,
    third: u8,
)
    requires
        call_ensures(frame_average, (data, width, height, false), color),
        call_ensures(frame_average, (data, width, height, true), reversed),
        plain_picture(data@, first, second, third),
    ensures
        width > 0 && height > 0 && data@.len() > 2 ==> (color.r, color.g, color.b) == (
            first,
            second,
            third,
        ),
        (reversed.r, reversed.g, reversed.b) == (color.b, color.g, color.r),
        data@.len() <= 2 ==> (color.r, color.g, color.b) == (0u8, 0u8, 0u8),
{
    let w = width as nat;
    let rows = eighths(height as nat);
    lemma_plain_frame(data@, w, rows, false, 0, first);
    lemma_plain_frame(data@, w, rows, false, 1, second);
    lemma_plain_frame(data@, w, rows, false, 2, third);
    byte_order_swaps_red_and_blue(data@, w, height as nat, 0);
    byte_order_swaps_red_and_blue(data@, w, height as nat, 1);
    byte_order_swaps_red_and_blue(data@, w, height as nat, 2);
    let hits = frame_hits(data@, w, rows) as int;
    if width > 0 && height > 0 && data@.len() > 2 {
        lemma_first_sample_counts(data@, w, rows);
        lemma_plain_mean(first, hits);
        lemma_plain_mean(second, hits);
        lemma_plain_mean(third, hits);
    }
    if data@.len() <= 2 {
        lemma_no_sample(data@, w, rows);
    }
}

proof fn lemma_no_sample(data: Seq<u8>, width: nat, rows: nat)
    requires
        data.len() <= 2,
    ensures
        frame_hits(data, width, rows) == 0,
    decreases rows,
{
    if rows > 0 {
        lemma_no_sample(data, width, (rows - 1) as nat);
        lemma_no_sample_in_row(data, width, (rows - 1) as nat, eighths(width));
    }
}

proof fn lemma_no_sample_in_row(data: Seq<u8>, width: nat, row: nat, cols: nat)
    requires
        data.len() <= 2,
    ensures
        row_hits(data, width, row, cols) == 0,
    decreases cols,
{
    if cols > 0 {
        lemma_no_sample_in_row(data, width, row, (cols - 1) as nat);
    }
}

/// Every sample counts the same: of two samples, beside each other or below each
/// other, the average is the mean.
pub proof fn two_samples_count_the_same(
    wide: &[u8],
    tall: &[u8],
    width: u32,
    height: u32,
    wide_color: RgbColor,
    tall_color: RgbColor,
)
    requires
        call_ensures(frame_average, (wide, width, 1u32, false), wide_color),
        call_ensures(frame_average, (tall, 1u32, height, false), tall_color),
        8 < width <= 16,
        8 < height <= 16,
        wide@.len() == 4 * width,
        tall@.len() == 4 * height,
    ensures
        wide_color.r == (wide@[0] + wide@[32]) / 2,
        wide_color.g == (wide@[1] + wide@[33]) / 2,
        wide_color.b == (wide@[2] + wide@[34]) / 2,
        tall_color.r == (tall@[0] + tall@[32]) / 2,
        tall_color.g == (tall@[1] + tall@[33]) / 2,
        tall_color.b == (tall@[2] + tall@[34]) / 2,
{
    reveal_with_fuel(row_total, 3);
    reveal_with_fuel(row_hits, 3);
    reveal_with_fuel(frame_total, 3);
    reveal_with_fuel(frame_hits, 3);
    assert(eighths(width as nat) == 2 && eighths(1) == 1 && eighths(height as nat) == 2);
    lemma_first_sample(width as nat);
    assert(sample_offset(1, 0, 0) == 0);
    assert(sample_offset(1, 1, 0) == 32);
}

/// Frames with another number of lights are a change; of two frames with as many
/// lights, one that is not a change differs in no light.
pub proof fn an_unchanged_frame_differs_in_no_light<F: Fn(RgbColor, RgbColor) -> bool>(
    previous: &[RgbColor],
    current: &[RgbColor],
    differs: F,
    changed: bool,
    i: int,
)
    requires
        call_ensures(colors_changed::<F>, (previous, current, differs), changed),
        0 <= i < previous@.len(),
    ensures
        previous@.len() != current@.len() ==> changed,
        !changed ==> call_ensures(differs, (previous@[i], current@[i]), false),
        changed && previous@.len() == current@.len() ==> exists|k: int|
            0 <= k < previous@.len() && call_ensures(
                differs,
                (#[trigger] previous@[k], current@[k]),
                true,
            ),
{
}

/// Which byte of a pixel holds component `c`.
pub open spec fn component_byte(is_bgra: bool, c: int) -> int {
    if is_bgra {
        2 - c
    } else {
        c
    }
}

/// `other` differs from `data` in no sample but two, and there by `d0` and `d1`, in the
/// byte `b` of a pixel.
pub open spec fn differ_in_two_samples(
    data: Seq<u8>,
    other: Seq<u8>,
    width: u32,
    height: u32,
    b: int,
    first: (int, int),
    d0: int,
    second: (int, int),
    d1: int,
) -> bool {
    &&& data.len() == other.len()
    &&& 0 <= first.0 && 8 * first.0 < height && 0 <= first.1 && 8 * first.1 < width
    &&& 0 <= second.0 && 8 * second.0 < height && 0 <= second.1 && 8 * second.1 < width
    &&& holds_sample(data, width, first.0, first.1)
    &&& holds_sample(data, width, second.0, second.1)
    &&& forall|r: int, k: int|
        #![trigger data[sample_at(width, r, k) + b]]
        0 <= r && 8 * r < height && 0 <= k && 8 * k < width && holds_sample(data, width, r, k)
            ==> other[sample_at(width, r, k) + b] == data[sample_at(width, r, k) + b] + (if (r, k)
            == first {
            d0
        } else {
            0
        }) + (if (r, k) == second {
            d1
        } else {
            0
        })
}

proof fn lemma_row_difference(
    data: Seq<u8>,
    other: Seq<u8>,
    width: u32,
    height: u32,
    row: nat,
    cols: nat,
    is_bgra: bool,
    c: int,
    first: (int, int),
    d0: int,
    second: (int, int),
    d1: int,
)
    requires
        0 <= c <= 2,
        8 * row < height,
        cols <= eighths(width as nat),
        differ_in_two_samples(
            data,
            other,
            width,
            height,
            component_byte(is_bgra, c),
            first,
            d0,
            second,
            d1,
        ),
    ensures
        row_hits(data, width as nat, row, cols) == row_hits(other, width as nat, row, cols),
        row_total(other, width as nat, row, cols, is_bgra, c) == row_total(
            data,
            width as nat,
            row,
            cols,
            is_bgra,
            c,
        ) + (if first.0 == row && first.1 < cols {
            d0
        } else {
            0
        }) + (if second.0 == row && second.1 < cols {
            d1
        } else {
            0
        }),
    decreases cols,
{
    if cols > 0 {
        let col = (cols - 1) as nat;
        lemma_row_difference(
            data,
            other,
            width,
            height,
            row,
            col,
            is_bgra,
            c,
            first,
            d0,
            second,
            d1,
        );
        assert(sample_offset(width as nat, row, col) == sample_at(width, row as int, col as int));
        let byte = data[sample_at(width, row as int, col as int) + component_byte(is_bgra, c)];
    }
}

proof fn lemma_frame_difference(
    data: Seq<u8>,
    other: Seq<u8>,
    width: u32,
    height: u32,
    rows: nat,
    is_bgra: bool,
    c: int,
    first: (int, int),
    d0: int,
    second: (int, int),
    d1: int,
)
    requires
        0 <= c <= 2,
        rows <= eighths(height as nat),
        differ_in_two_samples(
            data,
            other,
            width,
            height,
            component_byte(is_bgra, c),
            first,
            d0,
            second,
            d1,
        ),
    ensures
        frame_hits(data, width as nat, rows) == frame_hits(other, width as nat, rows),
        frame_total(other, width as nat, rows, is_bgra, c) == frame_total(
            data,
            width as nat,
            rows,
            is_bgra,
            c,
        ) + (if first.0 < rows {
            d0
        } else {
            0
        }) + (if second.0 < rows {
            d1
        } else {
            0
        }),
    decreases rows,
{
    if rows > 0 {
        let row = (rows - 1) as nat;
        lemma_frame_difference(
            data,
            other,
            width,
            height,
            row,
            is_bgra,
            c,
            first,
            d0,
            second,
            d1,
        );
        lemma_row_difference(
            data,
            other,
            width,
            height,
            row,
            eighths(width as nat),
            is_bgra,
            c,
            first,
            d0,
            second,
            d1,
        );
    }
}

/// Component `c` of a colour: red, green, blue.
pub open spec fn color_component(color: RgbColor, c: int) -> u8 {
    if c == 0 {
        color.r
    } else if c == 1 {
        color.g
    } else {
        color.b
    }
}

/// Where a sample lies does not matter: what one sample has more and another less
/// leaves the average as it is.
pub proof fn samples_can_change_places(
    data: &[u8],
    other: &[u8],
    width: u32,
    height: u32,
    is_bgra: bool,
    color: RgbColor,
    other_color: RgbColor,
    c: int,
    first: (int, int),
    second: (int, int),
    by: int,
)
    requires
        call_ensures(frame_average, (data, width, height, is_bgra), color),
        call_ensures(frame_average, (other, width, height, is_bgra), other_color),
        0 <= c <= 2,
        differ_in_two_samples(
            data@,
            other@,
            width,
            height,
            component_byte(is_bgra, c),
            first,
            by,
            second,
            -by,
        ),
    ensures
        color_component(color, c) == color_component(other_color, c),
{
    lemma_frame_difference(
        data@,
        other@,
        width,
        height,
        eighths(height as nat),
        is_bgra,
        c,
        first,
        by,
        second,
        -by,
    );
}

proof fn lemma_whole_row(data: Seq<u8>, width: u32, height: u32, row: nat, cols: nat)
    requires
        data.len() == 4 * (width * height),
        8 * row < height,
        cols <= eighths(width as nat),
    ensures
        row_hits(data, width as nat, row, cols) == cols,
    decreases cols,
{
    if cols > 0 {
        let col = (cols - 1) as nat;
        lemma_whole_row(data, width, height, row, col);
        let w = width as int;
        let h = height as int;
        let r8 = 8 * row as int;
        assert(r8 * w + w <= w * h) by (nonlinear_arith)
            requires
                r8 + 1 <= h,
                w >= 0,
        ;
        assert(8 * col < width);
        assert(8 * row * width == r8 * w);
    }
}

proof fn lemma_whole_picture(data: Seq<u8>, width: u32, height: u32, rows: nat)
    requires
        data.len() == 4 * (width * height),
        rows <= eighths(height as nat),
    ensures
        frame_hits(data, width as nat, rows) == rows * eighths(width as nat),
    decreases rows,
{
    let cols = eighths(width as nat) as int;
    if rows > 0 {
        lemma_whole_picture(data, width, height, (rows - 1) as nat);
        lemma_whole_row(data, width, height, (rows - 1) as nat, eighths(width as nat));
        assert((rows - 1) * cols + cols == rows * cols) by (nonlinear_arith);
    } else {
        assert(0 * cols == 0) by (nonlinear_arith);
    }
}

/// Every sample of a whole picture has the same share in the average: a sample that is
/// brighter by some steps makes the average brighter by as many of them as fall to one
/// of all the samples, to within a step.
pub proof fn every_sample_has_the_same_share(
    data: &[u8],
    other: &[u8],
    width: u32,
    height: u32,
    is_bgra: bool,
    color: RgbColor,
    other_color: RgbColor,
    c: int,
    sample: (int, int),
    by: int,
)
    requires
        call_ensures(frame_average, (data, width, height, is_bgra), color),
        call_ensures(frame_average, (other, width, height, is_bgra), other_color),
        data@.len() == 4 * (width * height),
        0 <= c <= 2,
        differ_in_two_samples(
            data@,
            other@,
            width,
            height,
            component_byte(is_bgra, c),
            sample,
            by,
            sample,
            0,
        ),
    ensures
        ({
            let samples = ((height + 7) / 8) * ((width + 7) / 8);
            let step = color_component(other_color, c) - color_component(color, c);
            by - samples < samples * step < by + samples
        }),
{
    let rows = eighths(height as nat);
    lemma_frame_difference(
        data@,
        other@,
        width,
        height,
        rows,
        is_bgra,
        c,
        sample,
        by,
        sample,
        0,
    );
    lemma_whole_picture(data@, width, height, rows);
    let samples = ((height + 7) / 8) * ((width + 7) / 8);
    assert(rows == (height + 7) / 8);
    assert(eighths(width as nat) == (width + 7) / 8);
    let total = frame_total(data@, width as nat, rows, is_bgra, c) as int;
    let other_total = frame_total(other@, width as nat, rows, is_bgra, c) as int;
    assert(samples > 0) by (nonlinear_arith)
        requires
            samples == ((height + 7) / 8) * ((width + 7) / 8),
            height > 0,
            width > 0,
    ;
    vstd::arithmetic::div_mod::lemma_fundamental_div_mod(total, samples);
    vstd::arithmetic::div_mod::lemma_fundamental_div_mod(other_total, samples);
    let before = total / samples;
    let after = other_total / samples;
    assert(samples * (after - before) == samples * after - samples * before) by (nonlinear_arith);
}

} // verus!
