use vstd::prelude::*;

use crate::random::{random_below, random_ratio};

verus! {

/// Number of entries of the bonus table.
pub const BONUS_TABLE_LEN: usize = 8;

/// Point values of the mystery ship, matching the original game's table.
pub open spec fn spec_bonus_table() -> Seq<u32> {
    seq![50u32, 100u32, 150u32, 100u32, 200u32, 100u32, 300u32, 100u32]
}

/// Entry `pick` of the mystery ship's bonus table.
pub fn mystery_bonus(pick: usize) -> (points: u32)
    requires
        pick < BONUS_TABLE_LEN,
    ensures
        points == spec_bonus_table()[pick as int],
{
    match pick {
        0 => 50,
        1 => 100,
        2 => 150,
        3 => 100,
        4 => 200,
        5 => 100,
        6 => 300,
        _ => 100,
    }
}

/// Every bonus of the table is a multiple of 50 from 50 to 300.
pub proof fn lemma_bonus_values(pick: int)
    requires
        0 <= pick < BONUS_TABLE_LEN,
    ensures
        50 <= spec_bonus_table()[pick] <= 300,
        spec_bonus_table()[pick] % 50 == 0,
{
}

/// The bonus table as the arcade game has it: 50, 100, 150, 100, 200, 100,
/// 300, 100. Half its entries are worth 100; 50, 150, 200 and 300 take one
/// entry each, so a uniform draw over the table makes every value possible
/// and 100 the most likely.
pub proof fn lemma_bonus_table()
    ensures
        spec_bonus_table().len() == BONUS_TABLE_LEN,
        spec_bonus_table()[0] == 50,
        spec_bonus_table()[1] == 100,
        spec_bonus_table()[2] == 150,
        spec_bonus_table()[3] == 100,
        spec_bonus_table()[4] == 200,
        spec_bonus_table()[5] == 100,
        spec_bonus_table()[6] == 300,
        spec_bonus_table()[7] == 100,
        forall|k: int| 0 <= k < BONUS_TABLE_LEN && k % 2 == 1 ==> spec_bonus_table()[k] == 100,
        forall|k: int| 0 <= k < BONUS_TABLE_LEN && k % 2 == 0 ==> spec_bonus_table()[k] != 100,
{
    assert forall|k: int| 0 <= k < BONUS_TABLE_LEN && k % 2 == 1 implies spec_bonus_table()[k] == 100 by {
        assert(k == 1 || k == 3 || k == 5 || k == 7);
    }
    assert forall|k: int| 0 <= k < BONUS_TABLE_LEN && k % 2 == 0 implies spec_bonus_table()[k] != 100 by {
        assert(k == 0 || k == 2 || k == 4 || k == 6);
    }
}

/// How a new mystery ship enters: from which side, and what it is worth.
#[derive(Clone, Copy, Debug, PartialEq, Eq, Structural)]
pub struct MysteryLaunch {
    /// Enters at the left edge flying right, else at the right edge flying left.
    pub from_left: bool,
    /// Bonus points awarded when this ship is destroyed.
    pub bonus: u32,
}

/// The mystery ship for the draws `from_left` and `pick`: it enters from the
/// left when `from_left` holds, and is worth entry `pick` of the bonus table.
pub fn mystery_launch(from_left: bool, pick: usize) -> (launch: MysteryLaunch)
    requires
        pick < BONUS_TABLE_LEN,
    ensures
        launch == (MysteryLaunch { from_left, bonus: spec_bonus_table()[pick as int] }),
{
    MysteryLaunch { from_left, bonus: mystery_bonus(pick) }
}

/// Decides on a mystery ship when its timer fires. A ship appears only when
/// the timer has just finished and no ship is already flying; it enters
/// from either side with even odds, and is worth an entry of the bonus table
/// drawn at random.
pub fn launch_mystery_ship(timer_finished: bool, ship_present: bool) -> (launch: Option<
    MysteryLaunch,
>)
    ensures
        launch is Some <==> (timer_finished && !ship_present),
        launch matches Some(l) ==> exists|k: int|
            0 <= k < BONUS_TABLE_LEN && #[trigger] spec_bonus_table()[k] == l.bonus,
{
    if !timer_finished || ship_present {
        return None;
    }
    let from_left = random_ratio(1, 2);
    let pick = random_below(BONUS_TABLE_LEN);
    Some(mystery_launch(from_left, pick))
}

} // verus!
