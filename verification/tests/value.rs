use pallas_client::raw::{RawAsset, RawPolicyAssets};
use pallas_client::value::collect_assets;
use pallas_client::Value;

fn asset(name: &[u8], output_coin: Option<u64>) -> RawAsset {
    RawAsset { name: name.to_vec(), output_coin }
}

fn group(policy: &[u8], is_output: bool, assets: Vec<RawAsset>) -> RawPolicyAssets {
    RawPolicyAssets { policy: policy.to_vec(), is_output, assets }
}

#[test]
fn a_value_of_the_base_unit_alone_has_an_empty_asset_map() {
    let v = Value::new(5);
    assert_eq!(v.coin(), 5);
    assert_eq!(v.policy_count(), 0);
    assert_eq!(v.quantity_of(b"p", b"n"), None);

    let w = Value::from_holdings(7, &vec![]);
    assert_eq!(w.coin(), 7);
    assert_eq!(w.policy_count(), 0);
    assert_eq!(w.asset_count(b"p"), 0);
}

#[test]
fn distinct_pairs_are_all_held_with_their_quantities() {
    let groups = vec![
        group(b"red", true, vec![asset(b"a", Some(1)), asset(b"b", Some(2)), asset(b"c", Some(3))]),
        group(b"green", true, vec![asset(b"a", Some(40))]),
        group(b"blue", true, vec![asset(b"", Some(u64::MAX)), asset(b"z", Some(0))]),
    ];
    let v = Value::from_holdings(1_000_000, &groups);
    assert_eq!(v.coin(), 1_000_000);
    assert_eq!(v.policy_count(), 3);
    assert_eq!(v.asset_count(b"red"), 3);
    assert_eq!(v.asset_count(b"green"), 1);
    assert_eq!(v.asset_count(b"blue"), 2);
    let total = v.asset_count(b"red") + v.asset_count(b"green") + v.asset_count(b"blue");
    assert_eq!(total, 6);
    assert_eq!(v.quantity_of(b"red", b"a"), Some(1));
    assert_eq!(v.quantity_of(b"red", b"b"), Some(2));
    assert_eq!(v.quantity_of(b"red", b"c"), Some(3));
    assert_eq!(v.quantity_of(b"green", b"a"), Some(40));
    assert_eq!(v.quantity_of(b"blue", b""), Some(u64::MAX));
    assert_eq!(v.quantity_of(b"blue", b"z"), Some(0));
    assert_eq!(v.quantity_of(b"green", b"b"), None);
    assert_eq!(v.quantity_of(b"none", b"a"), None);
}

#[test]
fn groups_that_are_not_output_side_are_left_out() {
    let groups = vec![
        group(b"minted", false, vec![asset(b"a", None), asset(b"b", Some(2))]),
        group(b"held", true, vec![asset(b"a", Some(1))]),
        group(b"burnt", false, vec![asset(b"a", None)]),
    ];
    let v = Value::from_holdings(0, &groups);
    assert_eq!(v.policy_count(), 1);
    assert_eq!(v.quantity_of(b"held", b"a"), Some(1));
    assert_eq!(v.quantity_of(b"minted", b"a"), None);
    assert_eq!(v.quantity_of(b"minted", b"b"), None);
    assert_eq!(v.quantity_of(b"burnt", b"a"), None);
    assert_eq!(v.asset_count(b"minted"), 0);

    let none = Value::from_holdings(3, &vec![group(b"minted", false, vec![asset(b"a", Some(9))])]);
    assert_eq!(none.coin(), 3);
    assert_eq!(none.policy_count(), 0);
}

#[test]
fn entries_without_an_output_quantity_are_left_out() {
    let groups =
        vec![group(b"p", true, vec![asset(b"a", None), asset(b"b", Some(2)), asset(b"c", None)])];
    let v = Value::from_holdings(0, &groups);
    assert_eq!(v.policy_count(), 1);
    assert_eq!(v.asset_count(b"p"), 1);
    assert_eq!(v.quantity_of(b"p", b"a"), None);
    assert_eq!(v.quantity_of(b"p", b"b"), Some(2));
    assert_eq!(v.quantity_of(b"p", b"c"), None);

    let empty = Value::from_holdings(0, &vec![group(b"p", true, vec![asset(b"a", None)])]);
    assert_eq!(empty.policy_count(), 1);
    assert_eq!(empty.asset_count(b"p"), 0);
}

#[test]
fn of_two_entries_with_one_key_the_later_counts() {
    let groups = vec![
        group(b"p", true, vec![asset(b"a", Some(1)), asset(b"b", Some(2))]),
        group(b"q", true, vec![asset(b"a", Some(3)), asset(b"a", Some(4))]),
        group(b"p", true, vec![asset(b"c", Some(5))]),
    ];
    let v = Value::from_holdings(0, &groups);
    assert_eq!(v.policy_count(), 2);
    assert_eq!(v.asset_count(b"p"), 1);
    assert_eq!(v.quantity_of(b"p", b"a"), None);
    assert_eq!(v.quantity_of(b"p", b"c"), Some(5));
    assert_eq!(v.asset_count(b"q"), 1);
    assert_eq!(v.quantity_of(b"q", b"a"), Some(4));
}

#[test]
fn policies_and_assets_can_be_walked_by_position() {
    let groups = vec![
        group(b"green", true, vec![asset(b"y", Some(7)), asset(b"x", Some(8))]),
        group(b"red", true, vec![asset(b"a", Some(9))]),
    ];
    let v = Value::from_holdings(0, &groups);
    assert_eq!(v.policy_count(), 2);
    assert_eq!(v.policy_at(0), &b"green".to_vec());
    assert_eq!(v.policy_at(1), &b"red".to_vec());
    assert_eq!(v.asset_at(0, 0), (&b"y".to_vec(), 7));
    assert_eq!(v.asset_at(0, 1), (&b"x".to_vec(), 8));
    assert_eq!(v.asset_at(1, 0), (&b"a".to_vec(), 9));
}

#[test]
fn collect_assets_gathers_one_group() {
    let held = collect_assets(&vec![asset(b"a", Some(1)), asset(b"b", None), asset(b"a", Some(3))]);
    assert_eq!(held.len(), 1);
    assert_eq!(held.get(b"a"), Some(&3));
    assert_eq!(held.get(b"b"), None);
}
