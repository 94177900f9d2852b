use vstd::prelude::*;

verus! {

/// The number of block rows that a new board starts with.
pub const DEFAULT_ROWS_OF_BLOCKS: i8 = 5;

/// The rows, counted from the top, that the board setup fills with blocks:
/// all of them when there is no block yet, none otherwise.
pub open spec fn spec_rows_to_fill(blocks_exist: bool) -> Seq<i8> {
    if blocks_exist {
        Seq::empty()
    } else {
        Seq::new(DEFAULT_ROWS_OF_BLOCKS as nat, |r: int| r as i8)
    }
}

/// Decides which rows of blocks the setup spawns.
pub fn rows_to_fill(blocks_exist: bool) -> (rows: Vec<i8>)
    ensures
        rows@ == spec_rows_to_fill(blocks_exist),
{
    let mut rows: Vec<i8> = Vec::new();
    if !blocks_exist {
        let mut row: i8 = 0;
        while row < DEFAULT_ROWS_OF_BLOCKS
            invariant
                0 <= row <= DEFAULT_ROWS_OF_BLOCKS,
                rows@ =~= Seq::new(row as nat, |r: int| r as i8),
            decreases DEFAULT_ROWS_OF_BLOCKS - row,
        {
            rows.push(row);
            row = row + 1;
        }
    }
    rows
}

/// Setup never adds blocks to a board that has some, and fills a fresh board
/// with each row exactly once, in order from the top.
pub proof fn lemma_setup_fills_fresh_board_only(blocks_exist: bool)
    ensures
        blocks_exist ==> spec_rows_to_fill(blocks_exist).len() == 0,
        !blocks_exist ==> spec_rows_to_fill(blocks_exist).len() == DEFAULT_ROWS_OF_BLOCKS,
        forall|i: int, j: int|
            0 <= i < j < spec_rows_to_fill(blocks_exist).len() ==> #[trigger] spec_rows_to_fill(
                blocks_exist,
            )[i] < #[trigger] spec_rows_to_fill(blocks_exist)[j],
{
}

} // verus!
