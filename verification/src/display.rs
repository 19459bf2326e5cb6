use vstd::prelude::*;
use crate::machine::{SCREEN_HEIGHT, SCREEN_SIZE, SCREEN_WIDTH};

verus! {

/// Pixel `col` of a sprite row, counted from the left: the most significant
/// bit is the leftmost pixel.
pub open spec fn sprite_bit(row: u8, col: u8) -> u8 {
    (row >> ((7 - col) as u8)) & 1u8
}

/// The position in the display of the pixel in column `px` of row `py`.
pub open spec fn pixel_index(px: int, py: int) -> int {
    py * SCREEN_WIDTH + px
}

/// Where pixel (`row`, `col`) of a sprite drawn at (`base_x`, `base_y`) lands:
/// coordinates wrap around the edges of the display.
pub open spec fn sprite_target(base_x: int, base_y: int, row: int, col: int) -> int {
    pixel_index((base_x + col) % (SCREEN_WIDTH as int), (base_y + row) % (SCREEN_HEIGHT as int))
}

/// The sprite row that lands on the display row of pixel `p`.
pub open spec fn sprite_row_at(base_y: int, p: int) -> int {
    (p / (SCREEN_WIDTH as int) - base_y) % (SCREEN_HEIGHT as int)
}

/// The sprite column that lands on the display column of pixel `p`.
pub open spec fn sprite_col_at(base_x: int, p: int) -> int {
    (p % (SCREEN_WIDTH as int) - base_x) % (SCREEN_WIDTH as int)
}

/// Whether the sprite of `height` rows stored at `index`, drawn at
/// (`base_x`, `base_y`), has a set pixel on display pixel `p`.
///
/// A sprite is at most as high and as wide as the display, so at most one
/// of its pixels lands on `p`: the one in row `sprite_row_at` and column
/// `sprite_col_at`.
pub open spec fn sprite_covers(
    ram: Seq<u8>,
    index: int,
    base_x: int,
    base_y: int,
    height: int,
    p: int,
) -> bool {
    let row = sprite_row_at(base_y, p);
    let col = sprite_col_at(base_x, p);
    row < height && col < 8 && sprite_bit(ram[index + row], col as u8) == 1
}

/// The display after the sprite was drawn on `screen`: every pixel under a
/// set sprite pixel is flipped, every other pixel is kept.
pub open spec fn drawn_screen(
    screen: Seq<u8>,
    ram: Seq<u8>,
    index: int,
    base_x: int,
    base_y: int,
    height: int,
) -> Seq<u8> {
    Seq::new(
        SCREEN_SIZE as nat,
        |p: int|
            if sprite_covers(ram, index, base_x, base_y, height, p) {
                (1 - screen[p]) as u8
            } else {
                screen[p]
            },
    )
}

/// Whether drawing the sprite on `screen` turns some lit pixel off.
pub open spec fn draw_collides(
    screen: Seq<u8>,
    ram: Seq<u8>,
    index: int,
    base_x: int,
    base_y: int,
    height: int,
) -> bool {
    exists|p: int|
        0 <= p < SCREEN_SIZE && screen[p] == 1 && #[trigger] sprite_covers(
            ram,
            index,
            base_x,
            base_y,
            height,
            p,
        )
}

/// The collision flag that a draw leaves in `VF`.
pub open spec fn collision_flag(
    screen: Seq<u8>,
    ram: Seq<u8>,
    index: int,
    base_x: int,
    base_y: int,
    height: int,
) -> u8 {
    if draw_collides(screen, ram, index, base_x, base_y, height) {
        1
    } else {
        0
    }
}

/// Whether the sprite has a set pixel on display pixel `p` among the sprite
/// pixels that come before (`rows`, `cols`) in drawing order: row by row,
/// each row from the left.
pub open spec fn sprite_covers_before(
    ram: Seq<u8>,
    index: int,
    base_x: int,
    base_y: int,
    height: int,
    rows: int,
    cols: int,
    p: int,
) -> bool {
    let row = sprite_row_at(base_y, p);
    let col = sprite_col_at(base_x, p);
    sprite_covers(ram, index, base_x, base_y, height, p) && (row < rows || (row == rows && col
        < cols))
}

/// The display after the sprite pixels before (`rows`, `cols`) were drawn.
pub open spec fn partly_drawn_screen(
    screen: Seq<u8>,
    ram: Seq<u8>,
    index: int,
    base_x: int,
    base_y: int,
    height: int,
    rows: int,
    cols: int,
) -> Seq<u8> {
    Seq::new(
        SCREEN_SIZE as nat,
        |p: int|
            if sprite_covers_before(ram, index, base_x, base_y, height, rows, cols, p) {
                (1 - screen[p]) as u8
            } else {
                screen[p]
            },
    )
}

/// Whether drawing the sprite pixels before (`rows`, `cols`) turns some lit
/// pixel off.
pub open spec fn partly_collides(
    screen: Seq<u8>,
    ram: Seq<u8>,
    index: int,
    base_x: int,
    base_y: int,
    height: int,
    rows: int,
    cols: int,
) -> bool {
    exists|p: int|
        0 <= p < SCREEN_SIZE && screen[p] == 1 && #[trigger] sprite_covers_before(
            ram,
            index,
            base_x,
            base_y,
            height,
            rows,
            cols,
            p,
        )
}

/// A sprite pixel lands on exactly one display pixel, and that display
/// pixel leads back to it.
pub proof fn lemma_sprite_target(base_x: int, base_y: int, row: int, col: int)
    requires
        0 <= base_x,
        0 <= base_y,
        0 <= row < SCREEN_HEIGHT,
        0 <= col < SCREEN_WIDTH,
    ensures
        0 <= sprite_target(base_x, base_y, row, col) < SCREEN_SIZE,
        sprite_row_at(base_y, sprite_target(base_x, base_y, row, col)) == row,
        sprite_col_at(base_x, sprite_target(base_x, base_y, row, col)) == col,
        forall|p: int|
            0 <= p < SCREEN_SIZE && #[trigger] sprite_row_at(base_y, p) == row && sprite_col_at(
                base_x,
                p,
            ) == col ==> p == sprite_target(base_x, base_y, row, col),
{
    let tx = (base_x + col) % 64;
    let ty = (base_y + row) % 32;
    let t = ty * 64 + tx;
    assert(t == sprite_target(base_x, base_y, row, col));
    assert(t / 64 == ty && t % 64 == tx);
    assert((ty - base_y) % 32 == row);
    assert((tx - base_x) % 64 == col);
    assert forall|p: int|
        0 <= p < SCREEN_SIZE && #[trigger] sprite_row_at(base_y, p) == row && sprite_col_at(
            base_x,
            p,
        ) == col implies p == t by {
        let px = p % 64;
        let py = p / 64;
        assert((py - base_y) % 32 == row);
        assert((px - base_x) % 64 == col);
        assert(py == ty);
        assert(px == tx);
    }
}

/// Two pixel values are combined by XOR, and a collision is the AND of the
/// old pixel and the sprite pixel.
pub proof fn lemma_pixel_xor(old_pixel: u8, bit: u8, flag: u8)
    requires
        old_pixel <= 1,
        bit <= 1,
        flag <= 1,
    ensures
        old_pixel ^ bit == (if bit == 1 {
            1 - old_pixel
        } else {
            old_pixel as int
        }),
        (flag | (old_pixel & bit)) <= 1,
        (flag | (old_pixel & bit)) == 1 <==> (flag == 1 || (old_pixel == 1 && bit == 1)),
{
    assert(old_pixel <= 1 && bit <= 1 && flag <= 1 ==> (old_pixel ^ bit == (if bit == 1 {
        (1 - old_pixel) as u8
    } else {
        old_pixel
    })) && (flag | (old_pixel & bit)) <= 1 && ((flag | (old_pixel & bit)) == 1 <==> (flag == 1
        || (old_pixel == 1 && bit == 1)))) by (bit_vector);
}

/// A sprite pixel is 0 or 1.
pub proof fn lemma_sprite_bit_bound(row: u8, col: u8)
    requires
        col < 8,
    ensures
        sprite_bit(row, col) <= 1,
{
    let shift = (7 - col) as u8;
    assert((row >> shift) & 1u8 <= 1) by (bit_vector);
}

/// Drawing one more sprite pixel: the display pixel it lands on is flipped
/// if the sprite pixel is set, and a collision is found if both were set.
pub proof fn lemma_draw_pixel(
    screen: Seq<u8>,
    ram: Seq<u8>,
    index: int,
    base_x: int,
    base_y: int,
    height: int,
    row: int,
    col: int,
)
    requires
        screen.len() == SCREEN_SIZE,
        0 <= base_x,
        0 <= base_y,
        0 <= row < height <= SCREEN_HEIGHT,
        0 <= col < 8,
    ensures
        ({
            let t = sprite_target(base_x, base_y, row, col);
            let bit = sprite_bit(ram[index + row], col as u8);
            let before = partly_drawn_screen(
                screen,
                ram,
                index,
                base_x,
                base_y,
                height,
                row,
                col,
            );
            let after = partly_drawn_screen(
                screen,
                ram,
                index,
                base_x,
                base_y,
                height,
                row,
                col + 1,
            );
            &&& 0 <= t < SCREEN_SIZE
            &&& before[t] == screen[t]
            &&& after == before.update(
                t,
                if bit == 1 {
                    (1 - screen[t]) as u8
                } else {
                    screen[t]
                },
            )
            &&& partly_collides(screen, ram, index, base_x, base_y, height, row, col + 1) <==> (
            partly_collides(screen, ram, index, base_x, base_y, height, row, col) || (screen[t]
                == 1 && bit == 1))
        }),
{
    let t = sprite_target(base_x, base_y, row, col);
    let bit = sprite_bit(ram[index + row], col as u8);
    lemma_sprite_target(base_x, base_y, row, col);
    let before = partly_drawn_screen(screen, ram, index, base_x, base_y, height, row, col);
    let after = partly_drawn_screen(screen, ram, index, base_x, base_y, height, row, col + 1);
    let value: u8 = if bit == 1 {
        (1 - screen[t]) as u8
    } else {
        screen[t]
    };
    assert(!sprite_covers_before(ram, index, base_x, base_y, height, row, col, t));
    assert(sprite_covers_before(ram, index, base_x, base_y, height, row, col + 1, t) == (bit
        == 1));
    assert forall|p: int| 0 <= p < SCREEN_SIZE && p != t implies sprite_covers_before(
        ram,
        index,
        base_x,
        base_y,
        height,
        row,
        col + 1,
        p,
    ) == sprite_covers_before(ram, index, base_x, base_y, height, row, col, p) by {
        if sprite_row_at(base_y, p) == row && sprite_col_at(base_x, p) == col {
            assert(p == t);
        }
    }
    assert(after =~= before.update(t, value));
    if partly_collides(screen, ram, index, base_x, base_y, height, row, col + 1) {
        let p = choose|p: int|
            0 <= p < SCREEN_SIZE && screen[p] == 1 && #[trigger] sprite_covers_before(
                ram,
                index,
                base_x,
                base_y,
                height,
                row,
                col + 1,
                p,
            );
        if p != t {
            assert(sprite_covers_before(ram, index, base_x, base_y, height, row, col, p));
        }
    }
    if partly_collides(screen, ram, index, base_x, base_y, height, row, col) {
        let p = choose|p: int|
            0 <= p < SCREEN_SIZE && screen[p] == 1 && #[trigger] sprite_covers_before(
                ram,
                index,
                base_x,
                base_y,
                height,
                row,
                col,
                p,
            );
        assert(p != t);
        assert(sprite_covers_before(ram, index, base_x, base_y, height, row, col + 1, p));
    }
    if screen[t] == 1 && bit == 1 {
        assert(sprite_covers_before(ram, index, base_x, base_y, height, row, col + 1, t));
    }
}

/// After the last pixel of a sprite row the next row begins.
pub proof fn lemma_draw_row_done(
    screen: Seq<u8>,
    ram: Seq<u8>,
    index: int,
    base_x: int,
    base_y: int,
    height: int,
    row: int,
)
    ensures
        partly_drawn_screen(screen, ram, index, base_x, base_y, height, row, 8)
            == partly_drawn_screen(screen, ram, index, base_x, base_y, height, row + 1, 0),
        partly_collides(screen, ram, index, base_x, base_y, height, row, 8) == partly_collides(
            screen,
            ram,
            index,
            base_x,
            base_y,
            height,
            row + 1,
            0,
        ),
{
    assert forall|p: int|
        sprite_covers_before(ram, index, base_x, base_y, height, row, 8, p)
            == #[trigger] sprite_covers_before(
            ram,
            index,
            base_x,
            base_y,
            height,
            row + 1,
            0,
            p,
        ) by {}
    assert(partly_drawn_screen(screen, ram, index, base_x, base_y, height, row, 8)
        =~= partly_drawn_screen(screen, ram, index, base_x, base_y, height, row + 1, 0));
    if partly_collides(screen, ram, index, base_x, base_y, height, row, 8) {
        let p = choose|p: int|
            0 <= p < SCREEN_SIZE && screen[p] == 1 && #[trigger] sprite_covers_before(
                ram,
                index,
                base_x,
                base_y,
                height,
                row,
                8,
                p,
            );
        assert(sprite_covers_before(ram, index, base_x, base_y, height, row + 1, 0, p));
    }
    if partly_collides(screen, ram, index, base_x, base_y, height, row + 1, 0) {
        let p = choose|p: int|
            0 <= p < SCREEN_SIZE && screen[p] == 1 && #[trigger] sprite_covers_before(
                ram,
                index,
                base_x,
                base_y,
                height,
                row + 1,
                0,
                p,
            );
        assert(sprite_covers_before(ram, index, base_x, base_y, height, row, 8, p));
    }
}

/// Before the first sprite pixel nothing is drawn; after the last row the
/// whole sprite is.
pub proof fn lemma_draw_ends(
    screen: Seq<u8>,
    ram: Seq<u8>,
    index: int,
    base_x: int,
    base_y: int,
    height: int,
)
    requires
        screen.len() == SCREEN_SIZE,
        0 <= height,
    ensures
        partly_drawn_screen(screen, ram, index, base_x, base_y, height, 0, 0) == screen,
        !partly_collides(screen, ram, index, base_x, base_y, height, 0, 0),
        partly_drawn_screen(screen, ram, index, base_x, base_y, height, height, 0)
            == drawn_screen(screen, ram, index, base_x, base_y, height),
        partly_collides(screen, ram, index, base_x, base_y, height, height, 0) == draw_collides(
            screen,
            ram,
            index,
            base_x,
            base_y,
            height,
        ),
{
    assert(partly_drawn_screen(screen, ram, index, base_x, base_y, height, 0, 0) =~= screen);
    assert(partly_drawn_screen(screen, ram, index, base_x, base_y, height, height, 0)
        =~= drawn_screen(screen, ram, index, base_x, base_y, height));
    if partly_collides(screen, ram, index, base_x, base_y, height, height, 0) {
        let p = choose|p: int|
            0 <= p < SCREEN_SIZE && screen[p] == 1 && #[trigger] sprite_covers_before(
                ram,
                index,
                base_x,
                base_y,
                height,
                height,
                0,
                p,
            );
        assert(sprite_covers(ram, index, base_x, base_y, height, p));
    }
    if draw_collides(screen, ram, index, base_x, base_y, height) {
        let p = choose|p: int|
            0 <= p < SCREEN_SIZE && screen[p] == 1 && #[trigger] sprite_covers(
                ram,
                index,
                base_x,
                base_y,
                height,
                p,
            );
        assert(sprite_covers_before(ram, index, base_x, base_y, height, height, 0, p));
    }
}

} // verus!
