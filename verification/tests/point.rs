use pallas_client::{ChainPoint, Point};

#[test]
fn the_origin_is_slot_zero_without_hash() {
    let o = Point::origin();
    assert!(o.is_origin());
    assert_eq!(o.slot(), 0);
    assert!(o.hash().is_empty());
    assert_eq!(o.to_chain_point(), ChainPoint::Origin);
    assert_eq!(Point::from_chain_point(&ChainPoint::Origin), Some(Point::origin()));
}

#[test]
fn a_specific_point_needs_a_hash() {
    assert_eq!(Point::specific(5, vec![]), None);
    assert_eq!(Point::specific(0, vec![]), None);
    assert_eq!(Point::from_chain_point(&ChainPoint::Specific(5, vec![])), None);
    let p = Point::specific(5, vec![9]).expect("a point");
    assert!(!p.is_origin());
    assert_eq!(p.slot(), 5);
    assert_eq!(p.hash(), &vec![9]);
}

#[test]
fn a_point_survives_the_round_trip() {
    let hashes: Vec<Vec<u8>> = vec![vec![0], vec![0xff; 32], (0u8..=255).collect(), vec![1, 2, 3]];
    for slot in [0u64, 1, 4492800, u64::MAX] {
        for hash in &hashes {
            let p = Point::specific(slot, hash.clone()).expect("a point");
            let wire = p.to_chain_point();
            assert_eq!(wire, ChainPoint::Specific(slot, hash.clone()));
            let back = Point::from_chain_point(&wire).expect("a point");
            assert_eq!(back.slot(), slot);
            assert_eq!(back.hash(), hash);
            assert!(back.same_as(&p));
            assert_eq!(back, p);
            assert_eq!(back.to_chain_point(), wire);
        }
    }
}

#[test]
fn points_compare_by_slot_and_hash() {
    let a = Point::specific(5, vec![1, 2]).expect("a point");
    assert!(a.same_as(&a.clone()));
    assert!(a.same_as(&Point::specific(5, vec![1, 2]).expect("a point")));
    assert!(!a.same_as(&Point::specific(6, vec![1, 2]).expect("a point")));
    assert!(!a.same_as(&Point::specific(5, vec![1, 3]).expect("a point")));
    assert!(!a.same_as(&Point::specific(5, vec![1, 2, 0]).expect("a point")));
    assert!(!a.same_as(&Point::origin()));
    assert!(Point::origin().same_as(&Point::origin()));
}
