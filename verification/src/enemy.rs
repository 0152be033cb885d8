use vstd::prelude::*;

use crate::components::{
    spec_wave_config, wave_config, InitialEnemyCount, WaveConfig, FORMATION_COLS, FORMATION_ROWS,
    MAX_ENEMY_BULLETS,
};
use crate::random::random_below;

verus! {

// ---------------------------------------------------------------------------
// Alien kinds and their voxel shapes
// ---------------------------------------------------------------------------

/// The three alien designs of the formation.
#[derive(Clone, Copy, Debug, PartialEq, Eq, Structural)]
pub enum AlienKind {
    /// Compact square body with tall antennae (row 0).
    Squid,
    /// Wide body with side claws (rows 1 and 2).
    Crab,
    /// Large oval body with a dome (rows 3 and beyond).
    Octopus,
}

pub open spec fn spec_alien_type_for_row(row: int) -> AlienKind {
    if row == 0 {
        AlienKind::Squid
    } else if row == 1 || row == 2 {
        AlienKind::Crab
    } else {
        AlienKind::Octopus
    }
}

/// The alien design of a formation row: squid for row 0, crab for rows 1
/// and 2, octopus for the rest.
pub fn alien_type_for_row(row: usize) -> (kind: AlienKind)
    ensures
        kind == spec_alien_type_for_row(row as int),
{
    match row {
        0 => AlienKind::Squid,
        1 | 2 => AlienKind::Crab,
        _ => AlienKind::Octopus,
    }
}

/// A voxel offset from spec integers.
pub open spec fn vox(x: int, y: int, z: int) -> (i8, i8, i8) {
    (x as i8, y as i8, z as i8)
}

/// Body voxels of each design, as (column, height, depth) offsets in voxel
/// steps; positive depth points toward the player.
pub open spec fn spec_body_voxels(kind: AlienKind) -> Seq<(i8, i8, i8)> {
    match kind {
        AlienKind::Squid => seq![
            vox(-1, 0, -1), vox(0, 0, -1), vox(1, 0, -1),
            vox(-1, 0, 0), vox(0, 0, 0), vox(1, 0, 0),
            vox(-1, 0, 1), vox(0, 0, 1), vox(1, 0, 1),
        ],
        AlienKind::Crab => seq![
            vox(-1, 0, -1), vox(0, 0, -1), vox(1, 0, -1),
            vox(-2, 0, 0), vox(-1, 0, 0), vox(0, 0, 0), vox(1, 0, 0), vox(2, 0, 0),
            vox(-1, 0, 1), vox(0, 0, 1), vox(1, 0, 1),
            vox(-3, 0, 0), vox(3, 0, 0),
        ],
        AlienKind::Octopus => seq![
            vox(-2, 0, -1), vox(-1, 0, -1), vox(0, 0, -1), vox(1, 0, -1), vox(2, 0, -1),
            vox(-2, 0, 0), vox(-1, 0, 0), vox(0, 0, 0), vox(1, 0, 0), vox(2, 0, 0),
            vox(-1, 0, 1), vox(0, 0, 1), vox(1, 0, 1),
            vox(-1, 1, -1), vox(0, 1, -1), vox(1, 1, -1),
            vox(-1, 1, 0), vox(0, 1, 0), vox(1, 1, 0),
        ],
    }
}

/// Detail voxels (eyes, antennae, carapace, tentacle bumps) of each design,
/// drawn in the contrasting detail colour.
pub open spec fn spec_detail_voxels(kind: AlienKind) -> Seq<(i8, i8, i8)> {
    match kind {
        AlienKind::Squid => seq![vox(-1, 1, -1), vox(1, 1, -1), vox(-1, 2, -1), vox(1, 2, -1)],
        AlienKind::Crab => seq![vox(-1, 1, -1), vox(1, 1, -1), vox(0, 1, 0)],
        AlienKind::Octopus => seq![vox(-1, 2, 0), vox(1, 2, 0), vox(-2, 0, 1), vox(2, 0, 1)],
    }
}

/// Every voxel of every design lies within three steps sideways, at most two
/// steps up from the base and one step forward or back.
pub open spec fn voxel_in_bounds(v: (i8, i8, i8)) -> bool {
    -3 <= v.0 <= 3 && 0 <= v.1 <= 2 && -1 <= v.2 <= 1
}

/// No voxel is listed twice and no detail voxel sits where a body voxel is.
pub open spec fn voxels_apart(body: Seq<(i8, i8, i8)>, detail: Seq<(i8, i8, i8)>) -> bool {
    &&& forall|i: int, j: int| 0 <= i < j < body.len() ==> body[i] != body[j]
    &&& forall|i: int, j: int| 0 <= i < j < detail.len() ==> detail[i] != detail[j]
    &&& forall|i: int, j: int| 0 <= i < body.len() && 0 <= j < detail.len() ==> body[i] != detail[j]
}

/// The three designs as drawn: the squid's detail is its two eyes at the
/// back top corners and the two antennae above them; the crab's is two eyes
/// and the raised carapace centre; the octopus's is two eyes on top of the
/// dome and two tentacle bumps at the front corners. The squid's body is a
/// 3×3 square, the crab's 13 voxels reach three steps out (the claws), the
/// octopus's 19 voxels carry a 2-high dome. Every voxel lies in bounds, and
/// no two voxels of a design coincide.
pub proof fn lemma_alien_designs()
    ensures
        spec_detail_voxels(AlienKind::Squid) == seq![
            (-1i8, 1i8, -1i8), (1i8, 1i8, -1i8), (-1i8, 2i8, -1i8), (1i8, 2i8, -1i8)],
        spec_detail_voxels(AlienKind::Crab) == seq![(-1i8, 1i8, -1i8), (1i8, 1i8, -1i8), (0i8, 1i8, 0i8)],
        spec_detail_voxels(AlienKind::Octopus) == seq![
            (-1i8, 2i8, 0i8), (1i8, 2i8, 0i8), (-2i8, 0i8, 1i8), (2i8, 0i8, 1i8)],
        spec_body_voxels(AlienKind::Squid).len() == 9,
        spec_body_voxels(AlienKind::Crab).len() == 13,
        spec_body_voxels(AlienKind::Octopus).len() == 19,
        forall|x: i8, z: i8|
            -1 <= x <= 1 && -1 <= z <= 1 ==> spec_body_voxels(AlienKind::Squid).contains(
                (x, 0i8, z),
            ),
        spec_body_voxels(AlienKind::Crab).contains((-3i8, 0i8, 0i8)),
        spec_body_voxels(AlienKind::Crab).contains((3i8, 0i8, 0i8)),
        forall|k: AlienKind, i: int|
            0 <= i < spec_body_voxels(k).len() ==> voxel_in_bounds(
                #[trigger] spec_body_voxels(k)[i],
            ),
        forall|k: AlienKind, i: int|
            0 <= i < spec_detail_voxels(k).len() ==> voxel_in_bounds(
                #[trigger] spec_detail_voxels(k)[i],
            ),
        forall|k: AlienKind| #[trigger] voxels_apart(spec_body_voxels(k), spec_detail_voxels(k)),
{
    assert(spec_body_voxels(AlienKind::Squid)[0] == (-1i8, 0i8, -1i8));
    assert forall|x: i8, z: i8|
        -1 <= x <= 1 && -1 <= z <= 1 implies spec_body_voxels(AlienKind::Squid).contains(
        (x, 0i8, z),
    ) by {
        let k = 3 * (z + 1) + (x + 1);
        assert(spec_body_voxels(AlienKind::Squid)[k] == (x, 0i8, z));
    }
    assert(spec_body_voxels(AlienKind::Crab)[11] == (-3i8, 0i8, 0i8));
    assert(spec_body_voxels(AlienKind::Crab)[12] == (3i8, 0i8, 0i8));
}

/// The voxel shape of one alien design.
pub struct AlienVoxels {
    pub body: Vec<(i8, i8, i8)>,
    pub detail: Vec<(i8, i8, i8)>,
}

/// The voxels an alien of design `kind` is built from.
pub fn alien_voxels(kind: AlienKind) -> (voxels: AlienVoxels)
    ensures
        voxels.body@ == spec_body_voxels(kind),
        voxels.detail@ == spec_detail_voxels(kind),
{
    match kind {
        AlienKind::Squid => AlienVoxels {
            body: vec![
                (-1, 0, -1), (0, 0, -1), (1, 0, -1),
                (-1, 0, 0), (0, 0, 0), (1, 0, 0),
                (-1, 0, 1), (0, 0, 1), (1, 0, 1),
            ],
            detail: vec![(-1, 1, -1), (1, 1, -1), (-1, 2, -1), (1, 2, -1)],
        },
        AlienKind::Crab => AlienVoxels {
            body: vec![
                (-1, 0, -1), (0, 0, -1), (1, 0, -1),
                (-2, 0, 0), (-1, 0, 0), (0, 0, 0), (1, 0, 0), (2, 0, 0),
                (-1, 0, 1), (0, 0, 1), (1, 0, 1),
                (-3, 0, 0), (3, 0, 0),
            ],
            detail: vec![(-1, 1, -1), (1, 1, -1), (0, 1, 0)],
        },
        AlienKind::Octopus => AlienVoxels {
            body: vec![
                (-2, 0, -1), (-1, 0, -1), (0, 0, -1), (1, 0, -1), (2, 0, -1),
                (-2, 0, 0), (-1, 0, 0), (0, 0, 0), (1, 0, 0), (2, 0, 0),
                (-1, 0, 1), (0, 0, 1), (1, 0, 1),
                (-1, 1, -1), (0, 1, -1), (1, 1, -1),
                (-1, 1, 0), (0, 1, 0), (1, 1, 0),
            ],
            detail: vec![(-1, 2, 0), (1, 2, 0), (-2, 0, 1), (2, 0, 1)],
        },
    }
}

// ---------------------------------------------------------------------------
// Wave spawning
// ---------------------------------------------------------------------------

/// One alien of a fresh formation: its grid place and design.
#[derive(Clone, Copy, Debug, PartialEq, Eq, Structural)]
pub struct EnemySlot {
    pub row: usize,
    pub col: usize,
    pub kind: AlienKind,
}

/// The alien at position `i` of a formation `cols` wide, in spawn order
/// (row by row, each row from the left).
pub open spec fn spec_slot(i: int, cols: int) -> EnemySlot {
    EnemySlot {
        row: (i / cols) as usize,
        col: (i % cols) as usize,
        kind: spec_alien_type_for_row(i / cols),
    }
}

/// The aliens of a wave in spawn order: every row from 0, every column
/// from the left, each with the design of its row.
pub fn formation(config: &WaveConfig) -> (slots: Vec<EnemySlot>)
    requires
        config.rows * config.cols <= usize::MAX,
    ensures
        slots@.len() == config.rows * config.cols,
        forall|i: int|
            0 <= i < slots@.len() ==> #[trigger] slots@[i] == spec_slot(i, config.cols as int),
{
    let rows = config.rows;
    let cols = config.cols;
    let mut slots: Vec<EnemySlot> = Vec::new();
    let mut row: usize = 0;
    while row < rows
        invariant
            rows == config.rows,
            cols == config.cols,
            rows * cols <= usize::MAX,
            row <= rows,
            slots@.len() == row * cols,
            forall|i: int| 0 <= i < slots@.len() ==> #[trigger] slots@[i] == spec_slot(i, cols as int),
        decreases rows - row,
    {
        let kind = alien_type_for_row(row);
        let mut col: usize = 0;
        while col < cols
            invariant
                rows == config.rows,
                cols == config.cols,
                rows * cols <= usize::MAX,
                row < rows,
                col <= cols,
                kind == spec_alien_type_for_row(row as int),
                slots@.len() == row * cols + col,
                forall|i: int|
                    0 <= i < slots@.len() ==> #[trigger] slots@[i] == spec_slot(i, cols as int),
            decreases cols - col,
        {
            proof {
                assert(row * cols + col < rows * cols) by (nonlinear_arith)
                    requires
                        row < rows,
                        col < cols,
                ;
                vstd::arithmetic::div_mod::lemma_fundamental_div_mod_converse(
                    (row * cols + col) as int,
                    cols as int,
                    row as int,
                    col as int,
                );
            }
            slots.push(EnemySlot { row, col, kind });
            col = col + 1;
        }
        proof {
            assert((row + 1) * cols == row * cols + cols) by (nonlinear_arith);
        }
        row = row + 1;
    }
    slots
}

/// Every cell of the grid gets exactly its alien: position `row * cols + col`
/// of the spawn order is the alien at `row`, `col`, with its row's design.
pub proof fn lemma_formation_cell(rows: int, cols: int, row: int, col: int)
    requires
        0 <= row < rows,
        0 <= col < cols,
    ensures
        0 <= row * cols + col < rows * cols,
        spec_slot(row * cols + col, cols) == (EnemySlot {
            row: row as usize,
            col: col as usize,
            kind: spec_alien_type_for_row(row),
        }),
{
    assert(0 <= row * cols + col < rows * cols) by (nonlinear_arith)
        requires
            0 <= row < rows,
            0 <= col < cols,
    ;
    vstd::arithmetic::div_mod::lemma_fundamental_div_mod_converse(row * cols + col, cols, row, col);
}

/// What setting up a wave decides: its configuration and how many aliens
/// it starts with.
#[derive(Clone, Copy, Debug, PartialEq, Eq, Structural)]
pub struct WaveSetup {
    pub config: WaveConfig,
    pub initial_count: InitialEnemyCount,
}

/// Sets up wave `wave`: its configuration from the wave table, and the
/// size of its formation as the initial enemy count.
pub fn setup_wave(wave: u32) -> (setup: WaveSetup)
    ensures
        setup.config == spec_wave_config(wave),
        setup.initial_count.count == setup.config.rows * setup.config.cols,
        setup.initial_count.count == 55,
{
    let config = wave_config(wave);
    let total = config.rows * config.cols;
    WaveSetup { config, initial_count: InitialEnemyCount { count: total as u32 } }
}

// ---------------------------------------------------------------------------
// Enemy fire
// ---------------------------------------------------------------------------

/// What the firing rule reads of a living alien: its grid place.
#[derive(Clone, Copy, Debug, PartialEq, Eq, Structural)]
pub struct EnemyCell {
    pub row: usize,
    pub col: usize,
}

/// Among the first `n` aliens of `s`, alien `i` is the one that fires for
/// its column: no alien of its column has a lower row number (lower rows
/// stand closer to the player), and of those with the same row it comes
/// first.
pub open spec fn shoots_among(s: Seq<EnemyCell>, n: int, i: int) -> bool {
    &&& 0 <= i < n
    &&& forall|j: int|
        0 <= j < n && (#[trigger] s[j]).col == s[i].col ==> s[j].row >= s[i].row && (s[j].row
            == s[i].row ==> i <= j)
}

/// Alien `i` is the bottommost of its column, the one closest to the
/// player: the lowest row number, the first such when several share it.
pub open spec fn is_column_shooter(s: Seq<EnemyCell>, i: int) -> bool {
    shoots_among(s, s.len() as int, i)
}

/// A column has one shooter at most.
pub proof fn lemma_one_shooter_per_column(s: Seq<EnemyCell>, n: int, i: int, e: int)
    requires
        n <= s.len(),
        shoots_among(s, n, i),
        shoots_among(s, n, e),
        s[i].col == s[e].col,
    ensures
        i == e,
{
    assert(s[e].col == s[i].col);
}

/// Alien `f` is the first of its column: its column first appears at `f`.
pub open spec fn is_column_start(s: Seq<EnemyCell>, f: int) -> bool {
    &&& 0 <= f < s.len()
    &&& forall|j: int| 0 <= j < f ==> (#[trigger] s[j]).col != s[f].col
}

/// Number of distinct columns among the first `n` aliens.
pub open spec fn columns_before(s: Seq<EnemyCell>, n: int) -> nat
    decreases n,
{
    if n <= 0 {
        0
    } else {
        columns_before(s, n - 1) + if is_column_start(s, n - 1) {
            1nat
        } else {
            0nat
        }
    }
}

/// Alien `i`'s column is the `rank`-th to appear (counting from 0), in the
/// order in which the aliens are listed.
pub open spec fn column_rank_is(s: Seq<EnemyCell>, i: int, rank: int) -> bool {
    forall|f: int|
        is_column_start(s, f) && (#[trigger] s[f]).col == s[i].col ==> columns_before(s, f) == rank
}

/// A column starts at one place only.
pub proof fn lemma_one_start_per_column(s: Seq<EnemyCell>, f1: int, f2: int)
    requires
        is_column_start(s, f1),
        is_column_start(s, f2),
        s[f1].col == s[f2].col,
    ensures
        f1 == f2,
{
    if f1 < f2 {
        assert(s[f1].col != s[f2].col);
    } else if f2 < f1 {
        assert(s[f2].col != s[f1].col);
    }
}

/// Every alien's column starts somewhere: at the first alien of that column.
pub proof fn lemma_column_has_start(s: Seq<EnemyCell>, i: int)
    requires
        0 <= i < s.len(),
    ensures
        exists|f: int| #[trigger] is_column_start(s, f) && f <= i && s[f].col == s[i].col,
    decreases i,
{
    if exists|j: int| 0 <= j < i && (#[trigger] s[j]).col == s[i].col {
        let j = choose|j: int| 0 <= j < i && (#[trigger] s[j]).col == s[i].col;
        lemma_column_has_start(s, j);
        let f = choose|f: int| #[trigger] is_column_start(s, f) && f <= j && s[f].col == s[j].col;
        assert(is_column_start(s, f) && f <= i && s[f].col == s[i].col);
    } else {
        assert(is_column_start(s, i));
    }
}

/// Different draws pick different columns: two aliens whose columns have
/// different ranks stand in different columns, and two shooters of the same
/// rank are the same alien. So a draw below the number of columns names each
/// column exactly once, and a uniform draw gives every column the same
/// chance to fire.
pub proof fn lemma_draws_name_distinct_columns(
    s: Seq<EnemyCell>,
    i1: int,
    i2: int,
    d1: int,
    d2: int,
)
    requires
        is_column_shooter(s, i1),
        is_column_shooter(s, i2),
        column_rank_is(s, i1, d1),
        column_rank_is(s, i2, d2),
    ensures
        d1 != d2 ==> s[i1].col != s[i2].col,
        d1 == d2 ==> i1 == i2,
{
    lemma_column_has_start(s, i1);
    lemma_column_has_start(s, i2);
    let f1 = choose|f: int| #[trigger] is_column_start(s, f) && f <= i1 && s[f].col == s[i1].col;
    let f2 = choose|f: int| #[trigger] is_column_start(s, f) && f <= i2 && s[f].col == s[i2].col;
    assert(columns_before(s, f1) == d1);
    assert(columns_before(s, f2) == d2);
    if s[i1].col == s[i2].col {
        lemma_one_start_per_column(s, f1, f2);
        lemma_one_shooter_per_column(s, s.len() as int, i1, i2);
    }
    if d1 == d2 && s[i1].col != s[i2].col {
        if f1 < f2 {
            lemma_columns_before_strict(s, f1, f2);
        } else {
            lemma_columns_before_strict(s, f2, f1);
        }
    }
}

/// A later column start has a higher rank.
pub proof fn lemma_columns_before_strict(s: Seq<EnemyCell>, f1: int, f2: int)
    requires
        is_column_start(s, f1),
        f1 < f2 <= s.len(),
    ensures
        columns_before(s, f1) < columns_before(s, f2),
    decreases f2 - f1,
{
    if f2 == f1 + 1 {
    } else {
        lemma_columns_before_strict(s, f1, f2 - 1);
    }
}

/// Finds the bottommost alien of each column (the one closest to the
/// player: lowest row number), the only ones that may fire.
/// The result holds each such alien's index once, and nothing else, one per
/// column, the columns in the order in which they first appear in the list.
pub fn bottom_shooters(enemies: &Vec<EnemyCell>) -> (shooters: Vec<usize>)
    ensures
        shooters@.len() == columns_before(enemies@, enemies@.len() as int),
        forall|m: int|
            0 <= m < shooters@.len() ==> column_rank_is(enemies@, #[trigger] shooters@[m] as int, m),
        forall|m: int|
            0 <= m < shooters@.len() ==> is_column_shooter(enemies@, #[trigger] shooters@[m] as int),
        forall|i: int|
            0 <= i < enemies@.len() && is_column_shooter(enemies@, i) ==> #[trigger] shooters@.contains(
                i as usize,
            ),
        forall|m1: int, m2: int|
            0 <= m1 < m2 < shooters@.len() ==> #[trigger] shooters@[m1] != #[trigger] shooters@[m2],
        enemies@.len() > 0 ==> shooters@.len() > 0,
{
    let ghost s = enemies@;
    let n = enemies.len();
    let mut cols: Vec<usize> = Vec::new();
    let mut shooters: Vec<usize> = Vec::new();
    let ghost mut starts: Seq<int> = Seq::empty();
    let mut i: usize = 0;
    while i < n
        invariant
            s == enemies@,
            n == s.len(),
            i <= n,
            cols@.len() == shooters@.len(),
            starts.len() == cols@.len(),
            cols@.len() == columns_before(s, i as int),
            forall|k: int|
                0 <= k < starts.len() ==> {
                    &&& is_column_start(s, #[trigger] starts[k])
                    &&& starts[k] < i
                    &&& s[starts[k]].col == cols@[k]
                    &&& columns_before(s, starts[k]) == k
                },
            forall|k: int|
                0 <= k < shooters@.len() ==> {
                    &&& #[trigger] shooters@[k] < i
                    &&& cols@[k] == s[shooters@[k] as int].col
                    &&& shoots_among(s, i as int, shooters@[k] as int)
                },
            forall|k1: int, k2: int|
                0 <= k1 < k2 < cols@.len() ==> #[trigger] cols@[k1] != #[trigger] cols@[k2],
            forall|j: int|
                0 <= j < i ==> exists|k: int|
                    0 <= k < cols@.len() && #[trigger] cols@[k] == (#[trigger] s[j]).col,
        decreases n - i,
    {
        let cell = enemies[i];
        let mut k: usize = 0;
        let mut found = false;
        while k < cols.len()
            invariant
                cols@.len() == shooters@.len(),
                k <= cols@.len(),
                forall|k2: int| 0 <= k2 < k ==> #[trigger] cols@[k2] != cell.col,
                found ==> k < cols@.len() && cols@[k as int] == cell.col,
            ensures
                found ==> k < cols@.len() && cols@[k as int] == cell.col,
                !found ==> forall|k2: int| 0 <= k2 < cols@.len() ==> #[trigger] cols@[k2] != cell.col,
            decreases cols@.len() - k + (if found { 0int } else { 1int }),
        {
            if cols[k] == cell.col {
                found = true;
                break;
            }
            k = k + 1;
        }
        let ghost old_shooters = shooters@;
        let ghost old_cols = cols@;
        if found {
            let current = shooters[k];
            if enemies[current].row > cell.row {
                shooters.set(k, i);
                proof {
                    assert forall|k2: int| 0 <= k2 < shooters@.len() implies {
                        &&& #[trigger] shooters@[k2] < i + 1
                        &&& cols@[k2] == s[shooters@[k2] as int].col
                        &&& shoots_among(s, i + 1, shooters@[k2] as int)
                    } by {
                        if k2 == k {
                            assert forall|j: int|
                                0 <= j < i + 1 && (#[trigger] s[j]).col == s[i as int].col implies s[j].row
                                >= s[i as int].row && (s[j].row == s[i as int].row ==> i <= j) by {
                                if j < i {
                                    assert(shoots_among(s, i as int, current as int));
                                    assert(s[j].col == s[current as int].col);
                                }
                            }
                        } else {
                            let e = old_shooters[k2] as int;
                            assert(shoots_among(s, i as int, e));
                            assert(old_cols[k2] != old_cols[k as int]);
                            assert forall|j: int|
                                0 <= j < i + 1 && (#[trigger] s[j]).col == s[e].col implies s[j].row
                                >= s[e].row && (s[j].row == s[e].row ==> e <= j) by {
                                if j < i {
                                } else {
                                    assert(s[j].col == cell.col);
                                }
                            }
                        }
                    }
                }
            } else {
                proof {
                    assert forall|k2: int| 0 <= k2 < shooters@.len() implies {
                        &&& #[trigger] shooters@[k2] < i + 1
                        &&& cols@[k2] == s[shooters@[k2] as int].col
                        &&& shoots_among(s, i + 1, shooters@[k2] as int)
                    } by {
                        let e = shooters@[k2] as int;
                        assert(shoots_among(s, i as int, e));
                        assert forall|j: int|
                            0 <= j < i + 1 && (#[trigger] s[j]).col == s[e].col implies s[j].row
                            >= s[e].row && (s[j].row == s[e].row ==> e <= j) by {
                            if j == i {
                                if k2 != k {
                                    assert(cols@[k2] != cols@[k as int]);
                                }
                            }
                        }
                    }
                }
            }
        } else {
            cols.push(cell.col);
            shooters.push(i);
            proof {
                assert forall|k2: int| 0 <= k2 < shooters@.len() implies {
                    &&& #[trigger] shooters@[k2] < i + 1
                    &&& cols@[k2] == s[shooters@[k2] as int].col
                    &&& shoots_among(s, i + 1, shooters@[k2] as int)
                } by {
                    if k2 == old_shooters.len() {
                        assert forall|j: int|
                            0 <= j < i + 1 && (#[trigger] s[j]).col == s[i as int].col implies s[j].row
                            >= s[i as int].row && (s[j].row == s[i as int].row ==> i <= j) by {
                            if j < i {
                                let kk = choose|kk: int|
                                    0 <= kk < old_cols.len() && #[trigger] old_cols[kk] == s[j].col;
                                assert(old_cols[kk] != cell.col);
                            }
                        }
                    } else {
                        let e = old_shooters[k2] as int;
                        assert(shoots_among(s, i as int, e));
                        assert(old_cols[k2] != cell.col);
                        assert forall|j: int|
                            0 <= j < i + 1 && (#[trigger] s[j]).col == s[e].col implies s[j].row
                            >= s[e].row && (s[j].row == s[e].row ==> e <= j) by {
                        }
                    }
                }
            }
        }
        proof {
            assert forall|j: int| 0 <= j < i + 1 implies exists|kk: int|
                0 <= kk < cols@.len() && #[trigger] cols@[kk] == (#[trigger] s[j]).col by {
                if j == i {
                    if found {
                        assert(cols@[k as int] == s[j].col);
                    } else {
                        assert(cols@[cols@.len() - 1] == s[j].col);
                    }
                } else {
                    let kk = choose|kk: int|
                        0 <= kk < old_cols.len() && #[trigger] old_cols[kk] == s[j].col;
                    assert(cols@[kk] == s[j].col);
                }
            }
        }
        proof {
            if found {
                let e = old_shooters[k as int] as int;
                assert(s[e].col == s[i as int].col);
                assert(!is_column_start(s, i as int));
            } else {
                assert forall|j: int| 0 <= j < i implies (#[trigger] s[j]).col != s[i as int].col by {
                    let kk = choose|kk: int|
                        0 <= kk < old_cols.len() && #[trigger] old_cols[kk] == s[j].col;
                    assert(old_cols[kk] != cell.col);
                }
                assert(is_column_start(s, i as int));
                starts = starts.push(i as int);
            }
            assert(columns_before(s, i + 1) == columns_before(s, i as int) + if is_column_start(
                s,
                i as int,
            ) {
                1nat
            } else {
                0nat
            });
        }
        i = i + 1;
    }
    proof {
        assert forall|m: int| 0 <= m < shooters@.len() implies column_rank_is(
            s,
            #[trigger] shooters@[m] as int,
            m,
        ) by {
            assert forall|f: int|
                is_column_start(s, f) && (#[trigger] s[f]).col == s[shooters@[m] as int].col implies columns_before(
                s,
                f,
            ) == m by {
                lemma_one_start_per_column(s, f, starts[m]);
            }
        }
        assert forall|ii: int|
            0 <= ii < s.len() && is_column_shooter(s, ii) implies #[trigger] shooters@.contains(
            ii as usize,
        ) by {
            let kk = choose|kk: int| 0 <= kk < cols@.len() && #[trigger] cols@[kk] == s[ii].col;
            let e = shooters@[kk] as int;
            lemma_one_shooter_per_column(s, s.len() as int, ii, e);
            assert(shooters@[kk] == ii as usize);
        }
        assert forall|m1: int, m2: int|
            0 <= m1 < m2 < shooters@.len() implies #[trigger] shooters@[m1]
            != #[trigger] shooters@[m2] by {
            assert(cols@[m1] != cols@[m2]);
        }
        if s.len() > 0 {
            let kk = choose|kk: int| 0 <= kk < cols@.len() && #[trigger] cols@[kk] == s[0].col;
        }
    }
    shooters
}

/// Whether the formation may fire now: fewer than the maximum of enemy
/// bullets are on screen and at least one alien is alive.
pub open spec fn may_fire(enemy_count: nat, bullets_on_screen: nat) -> bool {
    bullets_on_screen < MAX_ENEMY_BULLETS && enemy_count > 0
}

/// Number of columns that still hold an alien.
pub fn column_count(enemies: &Vec<EnemyCell>) -> (count: usize)
    ensures
        count == columns_before(enemies@, enemies@.len() as int),
        enemies@.len() > 0 ==> count > 0,
{
    bottom_shooters(enemies).len()
}

/// The alien that fires for the draw `draw`: the bottommost alien of the
/// `draw`-th column, counting columns from 0 in the order in which they
/// first appear in the list. `None` when the formation holds its fire (the
/// maximum of enemy bullets is on screen, or no alien is alive) or when
/// there are not that many columns.
pub fn shooter_for_draw(enemies: &Vec<EnemyCell>, bullets_on_screen: usize, draw: usize) -> (shooter:
    Option<usize>)
    ensures
        shooter is Some <==> may_fire(enemies@.len(), bullets_on_screen as nat) && draw
            < columns_before(enemies@, enemies@.len() as int),
        shooter matches Some(i) ==> {
            &&& i < enemies@.len()
            &&& is_column_shooter(enemies@, i as int)
            &&& column_rank_is(enemies@, i as int, draw as int)
        },
{
    if bullets_on_screen >= MAX_ENEMY_BULLETS || enemies.len() == 0 {
        return None;
    }
    let shooters = bottom_shooters(enemies);
    if draw >= shooters.len() {
        return None;
    }
    let i = shooters[draw];
    assert(is_column_shooter(enemies@, shooters@[draw as int] as int));
    assert(column_rank_is(enemies@, shooters@[draw as int] as int, draw as int));
    Some(i)
}

/// The formation's shot, once its timer fired. Only the bottommost alien of
/// each column (the one closest to the player) can shoot, matching the
/// original arcade behavior, and at
/// most 3 enemy bullets are on screen. The column is drawn at random, each
/// column with the same chance (a draw below the number of columns), and
/// its bottommost alien fires. Returns the index of that alien, or `None`
/// when the formation holds its fire.
pub fn enemy_shoot(enemies: &Vec<EnemyCell>, bullets_on_screen: usize) -> (shooter: Option<usize>)
    ensures
        shooter is Some <==> may_fire(enemies@.len(), bullets_on_screen as nat),
        shooter matches Some(i) ==> i < enemies@.len() && is_column_shooter(enemies@, i as int),
{
    if bullets_on_screen >= MAX_ENEMY_BULLETS {
        return None;
    }
    let count = column_count(enemies);
    if count == 0 {
        return None;
    }
    let draw = random_below(count);
    shooter_for_draw(enemies, bullets_on_screen, draw)
}

} // verus!
