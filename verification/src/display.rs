//! Sprite drawing on the 64x32 display: what a draw does to each cell, and
//! the routine that does it.

use crate::state::{HEIGHT, MEMORY_SIZE, PIXEL_ON, VIDEO_SIZE, WIDTH};
use vstd::prelude::*;

verus! {

/// Whether column `col` of a sprite row is set; column 0 is the most
/// significant bit of the row's byte.
pub open spec fn sprite_bit(row_bits: u8, col: int) -> bool {
    row_bits & (0x80u8 >> (col as u8)) != 0
}

/// The sprite column that lands on `cell` when the sprite's left edge is at
/// horizontal position `vx`: the distance to the right of `vx`, wrapping at
/// the display width.
pub open spec fn sprite_col(vx: int, cell: int) -> int {
    (cell % (WIDTH as int) - vx) % (WIDTH as int)
}

/// The sprite row that lands on `cell` when the sprite's top edge is at
/// vertical position `vy`: the distance below `vy`, wrapping at the display
/// height.
pub open spec fn sprite_row(vy: int, cell: int) -> int {
    (cell / (WIDTH as int) - vy) % (HEIGHT as int)
}

/// The display cell that the sprite pixel at (`row`, `col`) lands on when
/// the sprite is drawn at (`vx`, `vy`): both coordinates wrap around the
/// display edges.
pub open spec fn pixel_cell(vx: int, vy: int, row: int, col: int) -> int {
    (vx + col) % (WIDTH as int) + ((vy + row) % (HEIGHT as int)) * WIDTH
}

/// Whether drawing the `n`-row sprite stored at `memory[index..]` at
/// (`vx`, `vy`) toggles `cell`: a set sprite bit lands on it.
pub open spec fn sprite_covers(
    memory: Seq<u8>,
    index: int,
    n: int,
    vx: int,
    vy: int,
    cell: int,
) -> bool {
    let row = sprite_row(vy, cell);
    let col = sprite_col(vx, cell);
    &&& row < n
    &&& col < 8
    &&& sprite_bit(memory[index + row], col)
}

/// The display after the sprite has been drawn: every covered cell is
/// inverted, every other cell is unchanged.
pub open spec fn drawn_video(
    video: Seq<u8>,
    memory: Seq<u8>,
    index: int,
    n: int,
    vx: int,
    vy: int,
) -> Seq<u8> {
    Seq::new(
        video.len(),
        |cell: int|
            if sprite_covers(memory, index, n, vx, vy, cell) {
                video[cell] ^ PIXEL_ON
            } else {
                video[cell]
            },
    )
}

/// Whether the draw turns off at least one cell that was on.
pub open spec fn sprite_collides(
    video: Seq<u8>,
    memory: Seq<u8>,
    index: int,
    n: int,
    vx: int,
    vy: int,
) -> bool {
    exists|cell: int|
        0 <= cell < video.len() && #[trigger] sprite_covers(memory, index, n, vx, vy, cell)
            && video[cell] == PIXEL_ON
}

/// Whether `cell` is toggled by the part of the sprite that precedes the
/// pixel at (`rows`, `cols`) in row-major order.
pub open spec fn drawn_before(
    memory: Seq<u8>,
    index: int,
    rows: int,
    cols: int,
    vx: int,
    vy: int,
    cell: int,
) -> bool {
    let row = sprite_row(vy, cell);
    let col = sprite_col(vx, cell);
    &&& row < rows || (row == rows && col < cols)
    &&& col < 8
    &&& sprite_bit(memory[index + row], col)
}

/// Whether the part of the sprite that precedes the pixel at (`rows`,
/// `cols`) turns off a cell that was on.
pub open spec fn collides_before(
    video: Seq<u8>,
    memory: Seq<u8>,
    index: int,
    rows: int,
    cols: int,
    vx: int,
    vy: int,
) -> bool {
    exists|cell: int|
        0 <= cell < video.len() && #[trigger] drawn_before(memory, index, rows, cols, vx, vy, cell)
            && video[cell] == PIXEL_ON
}

/// A sprite pixel lands on exactly one cell, and that cell maps back to the
/// pixel's row and column.
pub proof fn lemma_pixel_cell(vx: int, vy: int, row: int, col: int)
    requires
        0 <= vx < 256,
        0 <= vy < 256,
        0 <= row < HEIGHT,
        0 <= col < WIDTH,
    ensures
        0 <= pixel_cell(vx, vy, row, col) < VIDEO_SIZE,
        sprite_row(vy, pixel_cell(vx, vy, row, col)) == row,
        sprite_col(vx, pixel_cell(vx, vy, row, col)) == col,
        forall|cell: int|
            0 <= cell < VIDEO_SIZE && sprite_row(vy, cell) == row && sprite_col(vx, cell) == col
                ==> cell == pixel_cell(vx, vy, row, col),
{
}

/// A cell is toggled exactly when some set pixel of the sprite lands on it:
/// the pixel at (`row`, `col`) lands on the cell at column `vx + col` and
/// row `vy + row`, both wrapped around the display edges.
pub proof fn lemma_covered_by_pixel(
    memory: Seq<u8>,
    index: int,
    n: int,
    vx: int,
    vy: int,
    cell: int,
)
    requires
        0 <= n <= HEIGHT,
        0 <= vx < 256,
        0 <= vy < 256,
        0 <= cell < VIDEO_SIZE,
    ensures
        sprite_covers(memory, index, n, vx, vy, cell) <==> exists|row: int, col: int|
            0 <= row < n && 0 <= col < 8 && sprite_bit(memory[index + row], col)
                && #[trigger] pixel_cell(vx, vy, row, col) == cell,
{
    if sprite_covers(memory, index, n, vx, vy, cell) {
        let row = sprite_row(vy, cell);
        let col = sprite_col(vx, cell);
        lemma_pixel_cell(vx, vy, row, col);
        assert(pixel_cell(vx, vy, row, col) == cell);
    }
    if exists|row: int, col: int|
        0 <= row < n && 0 <= col < 8 && sprite_bit(memory[index + row], col)
            && #[trigger] pixel_cell(vx, vy, row, col) == cell {
        let (row, col) = choose|row: int, col: int|
            0 <= row < n && 0 <= col < 8 && sprite_bit(memory[index + row], col)
                && #[trigger] pixel_cell(vx, vy, row, col) == cell;
        lemma_pixel_cell(vx, vy, row, col);
    }
}

/// Two prefixes of a sprite that toggle the same cells agree on collision.
proof fn lemma_collides_congruent(
    video: Seq<u8>,
    memory: Seq<u8>,
    index: int,
    rows: int,
    cols: int,
    rows2: int,
    cols2: int,
    vx: int,
    vy: int,
)
    requires
        forall|cell: int|
            0 <= cell < video.len() ==> (#[trigger] drawn_before(
                memory,
                index,
                rows,
                cols,
                vx,
                vy,
                cell,
            ) <==> drawn_before(memory, index, rows2, cols2, vx, vy, cell)),
    ensures
        collides_before(video, memory, index, rows, cols, vx, vy) == collides_before(
            video,
            memory,
            index,
            rows2,
            cols2,
            vx,
            vy,
        ),
{
    if collides_before(video, memory, index, rows, cols, vx, vy) {
        let c = choose|c: int|
            0 <= c < video.len() && #[trigger] drawn_before(memory, index, rows, cols, vx, vy, c)
                && video[c] == PIXEL_ON;
        assert(drawn_before(memory, index, rows2, cols2, vx, vy, c));
    }
    if collides_before(video, memory, index, rows2, cols2, vx, vy) {
        let c = choose|c: int|
            0 <= c < video.len() && #[trigger] drawn_before(memory, index, rows2, cols2, vx, vy, c)
                && video[c] == PIXEL_ON;
        assert(drawn_before(memory, index, rows, cols, vx, vy, c));
    }
}

/// The whole sprite is the prefix that ends after its last row.
proof fn lemma_whole_sprite(video: Seq<u8>, memory: Seq<u8>, index: int, n: int, vx: int, vy: int)
    ensures
        forall|cell: int|
            #![trigger drawn_before(memory, index, n, 0, vx, vy, cell)]
            #![trigger sprite_covers(memory, index, n, vx, vy, cell)]
            drawn_before(memory, index, n, 0, vx, vy, cell) <==> sprite_covers(
                memory,
                index,
                n,
                vx,
                vy,
                cell,
            ),
        collides_before(video, memory, index, n, 0, vx, vy) == sprite_collides(
            video,
            memory,
            index,
            n,
            vx,
            vy,
        ),
{
    if collides_before(video, memory, index, n, 0, vx, vy) {
        let c = choose|c: int|
            0 <= c < video.len() && #[trigger] drawn_before(memory, index, n, 0, vx, vy, c)
                && video[c] == PIXEL_ON;
        assert(sprite_covers(memory, index, n, vx, vy, c));
    }
    if sprite_collides(video, memory, index, n, vx, vy) {
        let c = choose|c: int|
            0 <= c < video.len() && #[trigger] sprite_covers(memory, index, n, vx, vy, c)
                && video[c] == PIXEL_ON;
        assert(drawn_before(memory, index, n, 0, vx, vy, c));
    }
}

/// XOR-composites the `n`-row sprite stored at `memory[start..]` onto the
/// display at (`vx`, `vy`) and reports whether any lit cell was turned off.
pub fn draw_sprite(
    video: &mut [u8; 2048],
    memory: &[u8; 4096],
    start: usize,
    n: u8,
    vx: u8,
    vy: u8,
) -> (collision: bool)
    requires
        n < 16,
        n == 0 || start + n <= MEMORY_SIZE,
    ensures
        final(video)@ == drawn_video(old(video)@, memory@, start as int, n as int, vx as int, vy as int),
        collision == sprite_collides(
            old(video)@,
            memory@,
            start as int,
            n as int,
            vx as int,
            vy as int,
        ),
{
    let ghost before = video@;
    let mut collision = false;
    let mut row: u8 = 0;
    while row < n
        invariant
            row <= n < 16,
            n == 0 || start + n <= MEMORY_SIZE,
            before.len() == VIDEO_SIZE,
            forall|cell: int|
                0 <= cell < VIDEO_SIZE ==> video@[cell] == if drawn_before(
                    memory@,
                    start as int,
                    row as int,
                    0,
                    vx as int,
                    vy as int,
                    cell,
                ) {
                    before[cell] ^ PIXEL_ON
                } else {
                    before[cell]
                },
            collision == collides_before(
                before,
                memory@,
                start as int,
                row as int,
                0,
                vx as int,
                vy as int,
            ),
        decreases n - row,
    {
        let pixels = memory[start + row as usize];
        let mut col: u8 = 0;
        while col < 8
            invariant
                row < n < 16,
                start + n <= MEMORY_SIZE,
                col <= 8,
                pixels == memory@[start + row],
                before.len() == VIDEO_SIZE,
                forall|cell: int|
                    0 <= cell < VIDEO_SIZE ==> video@[cell] == if drawn_before(
                        memory@,
                        start as int,
                        row as int,
                        col as int,
                        vx as int,
                        vy as int,
                        cell,
                    ) {
                        before[cell] ^ PIXEL_ON
                    } else {
                        before[cell]
                    },
                collision == collides_before(
                    before,
                    memory@,
                    start as int,
                    row as int,
                    col as int,
                    vx as int,
                    vy as int,
                ),
            decreases 8 - col,
        {
            let ghost was = collision;
            let ghost target = pixel_cell(vx as int, vy as int, row as int, col as int);
            proof {
                lemma_pixel_cell(vx as int, vy as int, row as int, col as int);
            }
            if pixels & (0x80u8 >> col) > 0 {
                let px = (vx as usize + col as usize) % WIDTH;
                let py = (vy as usize + row as usize) % HEIGHT;
                let idx = px + py * WIDTH;
                let current = video[idx];
                if current == PIXEL_ON {
                    collision = true;
                }
                video[idx] = current ^ PIXEL_ON;
                proof {
                    assert(idx == target);
                    assert(drawn_before(
                        memory@,
                        start as int,
                        row as int,
                        col + 1,
                        vx as int,
                        vy as int,
                        target,
                    ));
                }
            }
            proof {
                let set = sprite_bit(pixels, col as int);
                assert forall|cell: int| 0 <= cell < VIDEO_SIZE implies (#[trigger] drawn_before(
                    memory@,
                    start as int,
                    row as int,
                    col + 1,
                    vx as int,
                    vy as int,
                    cell,
                ) <==> drawn_before(
                    memory@,
                    start as int,
                    row as int,
                    col as int,
                    vx as int,
                    vy as int,
                    cell,
                ) || (set && cell == target)) by {}
                if was {
                    let c = choose|c: int|
                        0 <= c < VIDEO_SIZE && #[trigger] drawn_before(
                            memory@,
                            start as int,
                            row as int,
                            col as int,
                            vx as int,
                            vy as int,
                            c,
                        ) && before[c] == PIXEL_ON;
                    assert(drawn_before(
                        memory@,
                        start as int,
                        row as int,
                        col + 1,
                        vx as int,
                        vy as int,
                        c,
                    ));
                }
            }
            col += 1;
        }
        proof {
            assert forall|cell: int| 0 <= cell < VIDEO_SIZE implies (#[trigger] drawn_before(
                memory@,
                start as int,
                row as int,
                8,
                vx as int,
                vy as int,
                cell,
            ) <==> drawn_before(
                memory@,
                start as int,
                row + 1,
                0,
                vx as int,
                vy as int,
                cell,
            )) by {}
            lemma_collides_congruent(
                before,
                memory@,
                start as int,
                row as int,
                8,
                row + 1,
                0,
                vx as int,
                vy as int,
            );
        }
        row += 1;
    }
    proof {
        lemma_whole_sprite(before, memory@, start as int, n as int, vx as int, vy as int);
        assert(video@ =~= drawn_video(before, memory@, start as int, n as int, vx as int, vy as int));
    }
    collision
}

} // verus!
