use vstd::prelude::*;

verus! {

/// Hits a fresh barrier block takes before it breaks.
pub const BARRIER_HEALTH: u8 = 2;

/// Number of bunkers across the arena.
pub const BUNKER_COUNT: usize = 4;

/// Rows and columns of the bunker shape, viewed from the front.
pub const BUNKER_ROWS: usize = 5;

pub const BUNKER_COLS: usize = 6;

/// Two z-layers give the bunker real depth (front face toward enemies,
/// back toward player).
pub const DEPTH_LAYERS: usize = 2;

/// One destructible block of a bunker.
#[derive(Clone, Copy, Debug, PartialEq, Eq, Structural)]
pub struct Barrier {
    pub health: u8,
}

/// What became of a block that a bullet hit.
#[derive(Clone, Copy, Debug, PartialEq, Eq, Structural)]
pub enum BarrierHit {
    /// The block had one hit left (or none) and is gone.
    Destroyed,
    /// The block lost one point of health and stands.
    Damaged,
}

impl Barrier {
    /// A block as a new wave spawns it.
    pub fn new() -> (b: Barrier)
        ensures
            b.health == BARRIER_HEALTH,
    {
        Barrier { health: BARRIER_HEALTH }
    }

    /// The block after one more hit, while it stands.
    pub open spec fn after_hit(self) -> Barrier {
        if self.health <= 1 {
            self
        } else {
            Barrier { health: (self.health - 1) as u8 }
        }
    }

    pub open spec fn hit_outcome(self) -> BarrierHit {
        if self.health <= 1 {
            BarrierHit::Destroyed
        } else {
            BarrierHit::Damaged
        }
    }

    /// A bullet hit the block: with one hit left or none it is destroyed,
    /// otherwise it loses one point of health.
    pub fn take_hit(&mut self) -> (outcome: BarrierHit)
        ensures
            outcome == old(self).hit_outcome(),
            *final(self) == old(self).after_hit(),
            outcome == BarrierHit::Damaged ==> final(self).health == old(self).health - 1,
    {
        if self.health <= 1 {
            BarrierHit::Destroyed
        } else {
            self.health = self.health - 1;
            BarrierHit::Damaged
        }
    }
}

/// `k` hits in a row on a standing block.
pub open spec fn hits(b: Barrier, k: nat) -> Barrier
    decreases k,
{
    if k == 0 {
        b
    } else {
        hits(b, (k - 1) as nat).after_hit()
    }
}

/// A block with health `h` (at least 1) withstands `h - 1` hits, losing
/// one point each time, and the `h`-th hit destroys it.
pub proof fn lemma_hits_to_destroy(b: Barrier, k: nat)
    requires
        b.health >= 1,
        k < b.health,
    ensures
        hits(b, k).health == b.health - k,
        k + 1 < b.health ==> hits(b, k).hit_outcome() == BarrierHit::Damaged,
        k + 1 == b.health ==> hits(b, k).hit_outcome() == BarrierHit::Destroyed,
    decreases k,
{
    if k > 0 {
        lemma_hits_to_destroy(b, (k - 1) as nat);
    }
}

/// A fresh block survives its first hit and breaks on the second.
pub proof fn lemma_fresh_block_takes_two_hits()
    ensures
        hits(Barrier { health: BARRIER_HEALTH }, 0).hit_outcome() == BarrierHit::Damaged,
        hits(Barrier { health: BARRIER_HEALTH }, 1).hit_outcome() == BarrierHit::Destroyed,
{
    lemma_hits_to_destroy(Barrier { health: BARRIER_HEALTH }, 0);
    lemma_hits_to_destroy(Barrier { health: BARRIER_HEALTH }, 1);
}

/// The look of a block by its health.
#[derive(Clone, Copy, Debug, PartialEq, Eq, Structural)]
pub enum BarrierShade {
    /// Health 2: green.
    Intact,
    /// Health 1: orange.
    Damaged,
    /// Any other health: grey (such a block is about to go).
    Spent,
}

pub open spec fn spec_barrier_shade(health: u8) -> BarrierShade {
    if health == 2 {
        BarrierShade::Intact
    } else if health == 1 {
        BarrierShade::Damaged
    } else {
        BarrierShade::Spent
    }
}

/// Returns the look matching the given health level.
/// Health 2 → green (intact), health 1 → orange (damaged), 0 → should be despawned.
pub fn barrier_shade(health: u8) -> (shade: BarrierShade)
    ensures
        shade == spec_barrier_shade(health),
{
    match health {
        2 => BarrierShade::Intact,
        1 => BarrierShade::Damaged,
        _ => BarrierShade::Spent,
    }
}

/// Classic bunker shape viewed from the front, 6 columns × 5 rows;
/// row 0 = top with chamfered corners, row 4 = bottom with the arch cutout.
pub open spec fn spec_bunker_cell(row: int, col: int) -> bool {
    &&& 0 <= row < BUNKER_ROWS
    &&& 0 <= col < BUNKER_COLS
    &&& !(row == 0 && (col == 0 || col == 5))
    &&& !(row == 4 && (col == 2 || col == 3))
}

/// Whether the bunker shape has a block at `row`, `col`.
pub fn bunker_cell(row: usize, col: usize) -> (present: bool)
    ensures
        present == spec_bunker_cell(row as int, col as int),
{
    if row >= BUNKER_ROWS || col >= BUNKER_COLS {
        false
    } else if row == 0 {
        col != 0 && col != 5
    } else if row == 4 {
        col != 2 && col != 3
    } else {
        true
    }
}

/// Where one block of the barriers stands: which bunker, which cell of the
/// bunker shape, which depth layer (0 = front, facing the enemies).
#[derive(Clone, Copy, Debug, PartialEq, Eq, Structural)]
pub struct BarrierBlock {
    pub bunker: usize,
    pub row: usize,
    pub col: usize,
    pub layer: usize,
}

/// A block position that the barriers have.
pub open spec fn spec_block_exists(b: BarrierBlock) -> bool {
    &&& b.bunker < BUNKER_COUNT
    &&& spec_bunker_cell(b.row as int, b.col as int)
    &&& b.layer < DEPTH_LAYERS
}

/// Position of a block in spawn order: bunker, then row, then column,
/// then layer.
pub open spec fn block_rank(b: BarrierBlock) -> int {
    60 * b.bunker + 12 * b.row + 2 * b.col + b.layer
}

/// All barrier blocks of a wave, in spawn order: for each bunker, each row
/// of the shape from the top, each present cell from the left, the front
/// layer then the rear one. Every block position occurs exactly once.
pub fn bunker_blocks() -> (blocks: Vec<BarrierBlock>)
    ensures
        forall|i: int| 0 <= i < blocks@.len() ==> spec_block_exists(#[trigger] blocks@[i]),
        forall|i: int, j: int|
            0 <= i < j < blocks@.len() ==> block_rank(#[trigger] blocks@[i]) < block_rank(
                #[trigger] blocks@[j],
            ),
        forall|b: BarrierBlock| spec_block_exists(b) ==> #[trigger] blocks@.contains(b),
{
    let mut blocks: Vec<BarrierBlock> = Vec::new();
    let mut bunker: usize = 0;
    while bunker < BUNKER_COUNT
        invariant
            bunker <= BUNKER_COUNT,
            forall|i: int| 0 <= i < blocks@.len() ==> spec_block_exists(#[trigger] blocks@[i]),
            forall|i: int| 0 <= i < blocks@.len() ==> block_rank(#[trigger] blocks@[i]) < 60 * bunker,
            forall|i: int, j: int|
                0 <= i < j < blocks@.len() ==> block_rank(#[trigger] blocks@[i]) < block_rank(
                    #[trigger] blocks@[j],
                ),
            forall|b: BarrierBlock|
                spec_block_exists(b) && b.bunker < bunker ==> #[trigger] blocks@.contains(b),
        decreases BUNKER_COUNT - bunker,
    {
        let mut row: usize = 0;
        while row < BUNKER_ROWS
            invariant
                bunker < BUNKER_COUNT,
                row <= BUNKER_ROWS,
                forall|i: int| 0 <= i < blocks@.len() ==> spec_block_exists(#[trigger] blocks@[i]),
                forall|i: int|
                    0 <= i < blocks@.len() ==> block_rank(#[trigger] blocks@[i]) < 60 * bunker + 12
                        * row,
                forall|i: int, j: int|
                    0 <= i < j < blocks@.len() ==> block_rank(#[trigger] blocks@[i]) < block_rank(
                        #[trigger] blocks@[j],
                    ),
                forall|b: BarrierBlock|
                    spec_block_exists(b) && (b.bunker < bunker || (b.bunker == bunker && b.row
                        < row)) ==> #[trigger] blocks@.contains(b),
            decreases BUNKER_ROWS - row,
        {
            let mut col: usize = 0;
            while col < BUNKER_COLS
                invariant
                    bunker < BUNKER_COUNT,
                    row < BUNKER_ROWS,
                    col <= BUNKER_COLS,
                    forall|i: int|
                        0 <= i < blocks@.len() ==> spec_block_exists(#[trigger] blocks@[i]),
                    forall|i: int|
                        0 <= i < blocks@.len() ==> block_rank(#[trigger] blocks@[i]) < 60 * bunker
                            + 12 * row + 2 * col,
                    forall|i: int, j: int|
                        0 <= i < j < blocks@.len() ==> block_rank(#[trigger] blocks@[i])
                            < block_rank(#[trigger] blocks@[j]),
                    forall|b: BarrierBlock|
                        spec_block_exists(b) && (b.bunker < bunker || (b.bunker == bunker && b.row
                            < row) || (b.bunker == bunker && b.row == row && b.col < col))
                            ==> #[trigger] blocks@.contains(b),
                decreases BUNKER_COLS - col,
            {
                if bunker_cell(row, col) {
                    let mut layer: usize = 0;
                    while layer < DEPTH_LAYERS
                        invariant
                            bunker < BUNKER_COUNT,
                            row < BUNKER_ROWS,
                            col < BUNKER_COLS,
                            spec_bunker_cell(row as int, col as int),
                            layer <= DEPTH_LAYERS,
                            forall|i: int|
                                0 <= i < blocks@.len() ==> spec_block_exists(#[trigger] blocks@[i]),
                            forall|i: int|
                                0 <= i < blocks@.len() ==> block_rank(#[trigger] blocks@[i]) < 60
                                    * bunker + 12 * row + 2 * col + layer,
                            forall|i: int, j: int|
                                0 <= i < j < blocks@.len() ==> block_rank(#[trigger] blocks@[i])
                                    < block_rank(#[trigger] blocks@[j]),
                            forall|b: BarrierBlock|
                                spec_block_exists(b) && (b.bunker < bunker || (b.bunker == bunker
                                    && b.row < row) || (b.bunker == bunker && b.row == row && b.col
                                    < col) || (b.bunker == bunker && b.row == row && b.col == col
                                    && b.layer < layer)) ==> #[trigger] blocks@.contains(b),
                        decreases DEPTH_LAYERS - layer,
                    {
                        let block = BarrierBlock { bunker, row, col, layer };
                        let ghost before = blocks@;
                        blocks.push(block);
                        proof {
                            assert forall|b: BarrierBlock|
                                spec_block_exists(b) && (b.bunker < bunker || (b.bunker == bunker
                                    && b.row < row) || (b.bunker == bunker && b.row == row && b.col
                                    < col) || (b.bunker == bunker && b.row == row && b.col == col
                                    && b.layer < layer + 1)) implies #[trigger] blocks@.contains(
                                b,
                            ) by {
                                if b == block {
                                    assert(blocks@[blocks@.len() - 1] == b);
                                } else {
                                    assert(before.contains(b));
                                    let k = choose|k: int| 0 <= k < before.len() && before[k] == b;
                                    assert(blocks@[k] == b);
                                }
                            }
                        }
                        layer = layer + 1;
                    }
                } else {
                    proof {
                        assert forall|b: BarrierBlock|
                            spec_block_exists(b) && (b.bunker < bunker || (b.bunker == bunker
                                && b.row < row) || (b.bunker == bunker && b.row == row && b.col
                                < col + 1)) implies #[trigger] blocks@.contains(b) by {
                            if b.bunker == bunker && b.row == row && b.col == col {
                                assert(spec_bunker_cell(row as int, col as int));
                            }
                        }
                    }
                }
                col = col + 1;
            }
            row = row + 1;
        }
        bunker = bunker + 1;
    }
    blocks
}

} // verus!
