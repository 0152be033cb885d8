use invaders3d::barrier::{Barrier, BarrierHit};
use invaders3d::collision::{barrier_collisions, first_hits, first_in_range};
use invaders3d::player::steering;

#[test]
fn first_in_range_scans_in_order() {
    assert_eq!(first_in_range(&vec![false, true, true]), Some(1));
    assert_eq!(first_in_range(&vec![true]), Some(0));
    assert_eq!(first_in_range(&vec![false, false]), None);
    assert_eq!(first_in_range(&Vec::new()), None);
}

#[test]
fn each_bullet_claims_its_first_target() {
    let in_range = vec![
        vec![false, true, true],
        vec![false, false, false],
        vec![false, true, false],
    ];
    // both bullets 0 and 2 claim target 1 in the same frame
    assert_eq!(first_hits(&in_range), vec![Some(1), None, Some(1)]);
    assert!(first_hits(&Vec::new()).is_empty());
}

#[test]
fn barrier_damage_is_seen_by_later_bullets() {
    let mut barriers = vec![Barrier { health: 2 }, Barrier { health: 2 }];
    let in_range = vec![
        vec![true, true],
        vec![true, false],
        vec![false, false],
        vec![false, true],
        vec![true, false],
    ];
    let hits = barrier_collisions(&mut barriers, &in_range);
    assert_eq!(
        hits,
        vec![
            Some((0, BarrierHit::Damaged)),
            Some((0, BarrierHit::Destroyed)),
            None,
            Some((1, BarrierHit::Damaged)),
            Some((0, BarrierHit::Destroyed)),
        ]
    );
    assert_eq!(barriers[0].health, 1);
    assert_eq!(barriers[1].health, 1);
}

#[test]
fn steering_directions() {
    assert_eq!(steering(false, false), 0);
    assert_eq!(steering(true, false), -1);
    assert_eq!(steering(false, true), 1);
    assert_eq!(steering(true, true), 0);
}
