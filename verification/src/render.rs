//! The renderer: from a generation to a full frame of packed pixels.
//!
//! The frame holds two horizontally adjacent pixels per word, `(a << 16) | b`,
//! line by line.  Each cell shows as a block of `BLK_SIZE` by `BLK_SIZE`
//! pixels: the sprite where the cell is alive, black where it is dead.
use vstd::prelude::*;
use crate::life::{cell_index, in_grid, lemma_cell_index};
use crate::universe::Universe;
use crate::{BLK_SIZE, DISP_HEIGHT, DISP_WIDTH, GRID_CELLS, GRID_HEIGHT, GRID_WIDTH};

verus! {

/// Number of words in one line of pixels.
pub const LINE_WORDS: usize = 160;

/// Number of words in one line of a block.
pub const BLOCK_WORDS: usize = 4;

/// Number of words in a frame.
pub const IMAGE_WORDS: usize = 38400;

/// Array for representing an image of the entire screen.
/// This is an array of DISP_WIDTH / 2 × DISP_HEIGHT, each two horizontally consecutive
/// pixels are encoded in a u32 with `(a << 16)|b`.
pub type ScreenImage = [u32; IMAGE_WORDS];

/// How to show a block
pub const BLOCK_SPRITE: [[u32; 4]; 8] = [
    [0x38c738c7, 0x38c738c7, 0x38c738c7, 0x38c738c7],
    [0x38c7718e, 0x718e718e, 0x718e718e, 0x718e38c7],
    [0x38c7718e, 0xaa55aa55, 0xaa55aa55, 0x718e38c7],
    [0x38c7718e, 0xaa55e31c, 0xe31caa55, 0x718e38c7],
    [0x38c7718e, 0xaa55e31c, 0xe31caa55, 0x718e38c7],
    [0x38c7718e, 0xaa55aa55, 0xaa55aa55, 0x718e38c7],
    [0x38c7718e, 0x718e718e, 0x718e718e, 0x718e38c7],
    [0x38c738c7, 0x38c738c7, 0x38c738c7, 0x38c738c7],
];

/// Two pixels go into a word: a line of words holds a line of pixels, a
/// block of words a line of a block, and the frame every line of the
/// display.
pub proof fn lemma_frame_sizes()
    ensures
        2 * LINE_WORDS == DISP_WIDTH,
        2 * BLOCK_WORDS == BLK_SIZE,
        IMAGE_WORDS == LINE_WORDS * DISP_HEIGHT,
        IMAGE_WORDS == DISP_WIDTH * DISP_HEIGHT / 2,
{
}

/// The index in the frame of word `word` in line `line` of the block that
/// shows cell `(x, y)`.
pub open spec fn word_index(x: int, y: int, line: int, word: int) -> int {
    (y * BLK_SIZE + line) * LINE_WORDS + x * BLOCK_WORDS + word
}

/// The column of the cell that the word at index `i` of the frame shows.
pub open spec fn block_column(i: int) -> int {
    (i % (LINE_WORDS as int)) / (BLOCK_WORDS as int)
}

/// The row of the cell that the word at index `i` of the frame shows.
pub open spec fn block_row(i: int) -> int {
    (i / (LINE_WORDS as int)) / (BLK_SIZE as int)
}

/// The line within its block of the word at index `i` of the frame.
pub open spec fn block_line(i: int) -> int {
    (i / (LINE_WORDS as int)) % (BLK_SIZE as int)
}

/// The place within its line of a block of the word at index `i` of the
/// frame.
pub open spec fn block_word(i: int) -> int {
    (i % (LINE_WORDS as int)) % (BLOCK_WORDS as int)
}

/// What a block shows at word `word` of its line `line`: the sprite for a
/// live cell, black for a dead one.
pub open spec fn block_pixels(alive: bool, line: int, word: int) -> u32 {
    if alive {
        BLOCK_SPRITE[line][word]
    } else {
        0
    }
}

/// The word at index `i` of the frame that shows generation `g`.
pub open spec fn frame_word(g: Seq<bool>, i: int) -> u32 {
    block_pixels(g[cell_index(block_column(i), block_row(i))], block_line(i), block_word(i))
}

/// The frame that shows generation `g`.
pub open spec fn rendered(g: Seq<bool>) -> Seq<u32> {
    Seq::new(IMAGE_WORDS as nat, |i: int| frame_word(g, i))
}

/// Every word of a block has its place in the frame, and that place belongs
/// to this block, line and word alone.
pub proof fn lemma_word_index(x: int, y: int, line: int, word: int)
    requires
        in_grid(x, y),
        0 <= line < BLK_SIZE,
        0 <= word < BLOCK_WORDS,
    ensures
        0 <= word_index(x, y, line, word) < IMAGE_WORDS,
        block_column(word_index(x, y, line, word)) == x,
        block_row(word_index(x, y, line, word)) == y,
        block_line(word_index(x, y, line, word)) == line,
        block_word(word_index(x, y, line, word)) == word,
{
}

/// Every word of the frame is one word of one line of the block of one cell.
pub proof fn lemma_word_place(i: int)
    requires
        0 <= i < IMAGE_WORDS,
    ensures
        in_grid(block_column(i), block_row(i)),
        0 <= block_line(i) < BLK_SIZE,
        0 <= block_word(i) < BLOCK_WORDS,
        i == word_index(block_column(i), block_row(i), block_line(i), block_word(i)),
{
}

/// Draw the block of cell `(x, y)` into the frame, and leave every other
/// word of the frame as it is.
fn draw_block(image: &mut ScreenImage, x: usize, y: usize, alive: bool)
    requires
        x < GRID_WIDTH,
        y < GRID_HEIGHT,
    ensures
        forall|i: int|
            0 <= i < IMAGE_WORDS ==> #[trigger] final(image)@[i] == (if block_column(i) == x
                && block_row(i) == y {
                block_pixels(alive, block_line(i), block_word(i))
            } else {
                old(image)@[i]
            }),
{
    let ghost before = image@;
    for yi in 0..BLK_SIZE
        invariant
            x < GRID_WIDTH,
            y < GRID_HEIGHT,
            forall|i: int|
                0 <= i < IMAGE_WORDS ==> #[trigger] image@[i] == (if block_column(i) == x
                    && block_row(i) == y && block_line(i) < yi {
                    block_pixels(alive, block_line(i), block_word(i))
                } else {
                    before[i]
                }),
    {
        for xi in 0..BLOCK_WORDS
            invariant
                x < GRID_WIDTH,
                y < GRID_HEIGHT,
                yi < BLK_SIZE,
                forall|i: int|
                    0 <= i < IMAGE_WORDS ==> #[trigger] image@[i] == (if block_column(i) == x
                        && block_row(i) == y && (block_line(i) < yi || (block_line(i) == yi
                        && block_word(i) < xi)) {
                        block_pixels(alive, block_line(i), block_word(i))
                    } else {
                        before[i]
                    }),
        {
            let idx = (y * BLK_SIZE + yi) * LINE_WORDS + x * BLOCK_WORDS + xi;
            proof {
                lemma_word_index(x as int, y as int, yi as int, xi as int);
            }
            image[idx] = if alive { BLOCK_SPRITE[yi][xi] } else { 0 };
            assert forall|i: int| 0 <= i < IMAGE_WORDS implies #[trigger] image@[i] == (
            if block_column(i) == x && block_row(i) == y && (block_line(i) < yi || (block_line(i)
                == yi && block_word(i) < xi + 1)) {
                block_pixels(alive, block_line(i), block_word(i))
            } else {
                before[i]
            }) by {
                lemma_word_place(i);
            }
        }
    }
}

/// Draw the current generation over the whole of `image`.
pub fn render_into(universe: &Universe, image: &mut ScreenImage)
    ensures
        final(image)@ == rendered(universe@),
{
    for y in 0..GRID_HEIGHT
        invariant
            forall|i: int|
                0 <= i < IMAGE_WORDS && block_row(i) < y ==> #[trigger] image@[i] == frame_word(
                    universe@,
                    i,
                ),
    {
        for x in 0..GRID_WIDTH
            invariant
                y < GRID_HEIGHT,
                forall|i: int|
                    0 <= i < IMAGE_WORDS && (block_row(i) < y || (block_row(i) == y
                        && block_column(i) < x)) ==> #[trigger] image@[i] == frame_word(
                        universe@,
                        i,
                    ),
        {
            let state = universe.get(x, y);
            draw_block(image, x, y, state);
        }
    }
}

/// The frame that shows the current generation.
pub fn render(universe: &Universe) -> (image: ScreenImage)
    ensures
        image@ == rendered(universe@),
{
    let mut image: ScreenImage = [0; IMAGE_WORDS];
    render_into(universe, &mut image);
    image
}

/// The frame shows every cell in its own block: the words of the block of
/// cell `(x, y)` hold the sprite where the cell is alive and zero where it is
/// dead.  With `lemma_word_place`, which finds for every word of the frame
/// the one block that it belongs to, the blocks cover the frame without gap
/// or overlap.
pub proof fn lemma_rendered_block(g: Seq<bool>, x: int, y: int, line: int, word: int)
    requires
        in_grid(x, y),
        0 <= line < BLK_SIZE,
        0 <= word < BLOCK_WORDS,
    ensures
        rendered(g).len() == DISP_WIDTH * DISP_HEIGHT / 2,
        rendered(g)[word_index(x, y, line, word)] == block_pixels(
            g[cell_index(x, y)],
            line,
            word,
        ),
{
    lemma_word_index(x, y, line, word);
}

/// With every cell dead the frame is all zero, and has one word for every
/// two pixels of the display.
pub proof fn lemma_rendered_all_dead(g: Seq<bool>)
    requires
        g.len() == GRID_CELLS,
        forall|i: int| 0 <= i < GRID_CELLS ==> !g[i],
    ensures
        rendered(g).len() == DISP_WIDTH * DISP_HEIGHT / 2,
        rendered(g) == Seq::new((DISP_WIDTH * DISP_HEIGHT / 2) as nat, |i: int| 0u32),
{
    assert forall|i: int| 0 <= i < IMAGE_WORDS implies rendered(g)[i] == 0u32 by {
        lemma_word_place(i);
        lemma_cell_index(block_column(i), block_row(i));
    }
    assert(rendered(g) =~= Seq::new((DISP_WIDTH * DISP_HEIGHT / 2) as nat, |i: int| 0u32));
}

/// With every cell alive the frame is the sprite, tiled: every word of the
/// frame holds the word of the sprite for its line and place within its
/// block.
pub proof fn lemma_rendered_all_live(g: Seq<bool>)
    requires
        g.len() == GRID_CELLS,
        forall|i: int| 0 <= i < GRID_CELLS ==> g[i],
    ensures
        rendered(g).len() == DISP_WIDTH * DISP_HEIGHT / 2,
        forall|i: int|
            0 <= i < IMAGE_WORDS ==> #[trigger] rendered(g)[i] == BLOCK_SPRITE[block_line(
                i,
            )][block_word(i)],
{
    assert forall|i: int| 0 <= i < IMAGE_WORDS implies #[trigger] rendered(g)[i]
        == BLOCK_SPRITE[block_line(i)][block_word(i)] by {
        lemma_word_place(i);
        lemma_cell_index(block_column(i), block_row(i));
    }
}

} // verus!
