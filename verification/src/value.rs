//! The value that an output holds: an amount of the base unit and, grouped
//! by policy, the quantities of other assets.

use crate::bytemap::ByteMap;
use crate::raw::{copy_bytes, raw_assets_view, raw_policies_view, RawAsset, RawAssetView,
    RawPolicyAssets, RawPolicyAssetsView};
use vstd::prelude::*;

verus! {

/// An amount of the base unit, or a quantity of an asset.
pub type Coin = u64;

/// The identifier of a minting policy.
pub type PolicyId = Vec<u8>;

/// The name of an asset under its policy.
pub type AssetName = Vec<u8>;

/// What a list of asset entries leaves in an output's hands: each entry with
/// an output quantity, by name; of two entries with one name the later counts.
pub open spec fn asset_holdings(assets: Seq<RawAssetView>) -> Map<Seq<u8>, u64>
    decreases assets.len(),
{
    if assets.len() == 0 {
        Map::empty()
    } else {
        let rest = asset_holdings(assets.drop_last());
        match assets.last().output_coin {
            Some(quantity) => rest.insert(assets.last().name, quantity),
            None => rest,
        }
    }
}

/// What a list of policy groups leaves in an output's hands: the holdings of
/// each output-side group, by policy; of two groups with one policy the later
/// counts. Groups that are not output-side leave no trace.
pub open spec fn policy_holdings(policies: Seq<RawPolicyAssetsView>) -> Map<
    Seq<u8>,
    Map<Seq<u8>, u64>,
>
    decreases policies.len(),
{
    if policies.len() == 0 {
        Map::empty()
    } else {
        let rest = policy_holdings(policies.drop_last());
        if policies.last().is_output {
            rest.insert(policies.last().policy, asset_holdings(policies.last().assets))
        } else {
            rest
        }
    }
}

/// No two asset entries share a name.
pub open spec fn distinct_names(assets: Seq<RawAssetView>) -> bool {
    forall|i: int, j: int| 0 <= i < j < assets.len() ==> assets[i].name != assets[j].name
}

/// No two policy groups share a policy.
pub open spec fn distinct_policies(policies: Seq<RawPolicyAssetsView>) -> bool {
    forall|i: int, j: int| 0 <= i < j < policies.len() ==> policies[i].policy != policies[j].policy
}

/// Every group is output-side, every entry has a quantity, and no policy
/// and no name under a policy occurs twice.
pub open spec fn plain_holdings(policies: Seq<RawPolicyAssetsView>) -> bool {
    &&& distinct_policies(policies)
    &&& forall|i: int| 0 <= i < policies.len() ==> (#[trigger] policies[i]).is_output
    &&& forall|i: int| 0 <= i < policies.len() ==> distinct_names((#[trigger] policies[i]).assets)
    &&& forall|i: int, j: int|
        0 <= i < policies.len() && 0 <= j < policies[i].assets.len()
            ==> (#[trigger] policies[i].assets[j]).output_coin is Some
}

/// The number of asset entries in all the groups together.
pub open spec fn total_assets(policies: Seq<RawPolicyAssetsView>) -> nat
    decreases policies.len(),
{
    if policies.len() == 0 {
        0
    } else {
        total_assets(policies.drop_last()) + policies.last().assets.len()
    }
}

/// The pairs of policy and asset name under which a holding has a quantity.
pub open spec fn held_pairs(held: Map<Seq<u8>, Map<Seq<u8>, u64>>) -> Set<(Seq<u8>, Seq<u8>)> {
    Set::new(
        |pair: (Seq<u8>, Seq<u8>)|
            held.contains_key(pair.0) && held[pair.0].contains_key(pair.1),
    )
}

/// An asset name is held exactly if some entry with a quantity carries it:
/// entries that record minting or burning only leave no trace.
pub proof fn lemma_only_quantities_are_held(assets: Seq<RawAssetView>)
    ensures
        asset_holdings(assets).dom().finite(),
        forall|name: Seq<u8>| #[trigger]
            asset_holdings(assets).contains_key(name) <==> exists|j: int|
                0 <= j < assets.len() && assets[j].output_coin is Some && assets[j].name == name,
    decreases assets.len(),
{
    if assets.len() > 0 {
        let rest = assets.drop_last();
        lemma_only_quantities_are_held(rest);
        assert forall|name: Seq<u8>| #[trigger]
            asset_holdings(assets).contains_key(name) implies exists|j: int|
            0 <= j < assets.len() && assets[j].output_coin is Some && assets[j].name == name by {
            if assets.last().output_coin is Some && name == assets.last().name {
                assert(assets[assets.len() - 1].name == name);
            } else {
                let j = choose|j: int|
                    0 <= j < rest.len() && rest[j].output_coin is Some && rest[j].name == name;
                assert(assets[j].name == name);
            }
        }
        assert forall|name: Seq<u8>|
            (exists|j: int|
                0 <= j < assets.len() && assets[j].output_coin is Some && assets[j].name
                    == name) implies #[trigger] asset_holdings(assets).contains_key(name) by {
            let j = choose|j: int|
                0 <= j < assets.len() && assets[j].output_coin is Some && assets[j].name == name;
            if j < assets.len() - 1 {
                assert(rest[j].name == name);
            }
        }
    }
}

/// A policy is held exactly if some output-side group carries it: groups
/// that are not output-side leave no trace.
pub proof fn lemma_only_output_side_is_held(policies: Seq<RawPolicyAssetsView>)
    ensures
        policy_holdings(policies).dom().finite(),
        forall|policy: Seq<u8>| #[trigger]
            policy_holdings(policies).contains_key(policy) <==> exists|i: int|
                0 <= i < policies.len() && policies[i].is_output && policies[i].policy == policy,
    decreases policies.len(),
{
    if policies.len() > 0 {
        let rest = policies.drop_last();
        lemma_only_output_side_is_held(rest);
        assert forall|policy: Seq<u8>| #[trigger]
            policy_holdings(policies).contains_key(policy) implies exists|i: int|
            0 <= i < policies.len() && policies[i].is_output && policies[i].policy == policy by {
            if policies.last().is_output && policy == policies.last().policy {
                assert(policies[policies.len() - 1].policy == policy);
            } else {
                let i = choose|i: int|
                    0 <= i < rest.len() && rest[i].is_output && rest[i].policy == policy;
                assert(policies[i].policy == policy);
            }
        }
        assert forall|policy: Seq<u8>|
            (exists|i: int|
                0 <= i < policies.len() && policies[i].is_output && policies[i].policy
                    == policy) implies #[trigger] policy_holdings(policies).contains_key(
            policy,
        ) by {
            let i = choose|i: int|
                0 <= i < policies.len() && policies[i].is_output && policies[i].policy == policy;
            if i < policies.len() - 1 {
                assert(rest[i].policy == policy);
            }
        }
    }
}

/// An output that holds the base unit alone, or whose groups are all of
/// another side than the output's, has an empty asset map.
pub proof fn lemma_nothing_held_without_output_side(policies: Seq<RawPolicyAssetsView>)
    requires
        forall|i: int| 0 <= i < policies.len() ==> !(#[trigger] policies[i]).is_output,
    ensures
        policy_holdings(policies) == Map::<Seq<u8>, Map<Seq<u8>, u64>>::empty(),
    decreases policies.len(),
{
    if policies.len() > 0 {
        lemma_nothing_held_without_output_side(policies.drop_last());
    }
}

/// Where no name occurs twice, every entry with a quantity is held with
/// that quantity; where every entry has one, there are as many names held
/// as there are entries.
pub proof fn lemma_distinct_assets_are_held(assets: Seq<RawAssetView>)
    requires
        distinct_names(assets),
    ensures
        forall|j: int|
            0 <= j < assets.len() && (#[trigger] assets[j]).output_coin is Some ==> {
                &&& asset_holdings(assets).contains_key(assets[j].name)
                &&& asset_holdings(assets)[assets[j].name] == assets[j].output_coin.unwrap()
            },
        (forall|j: int| 0 <= j < assets.len() ==> (#[trigger] assets[j]).output_coin is Some)
            ==> asset_holdings(assets).dom().len() == assets.len(),
    decreases assets.len(),
{
    lemma_only_quantities_are_held(assets);
    if assets.len() > 0 {
        let rest = assets.drop_last();
        assert(distinct_names(rest));
        lemma_distinct_assets_are_held(rest);
        lemma_only_quantities_are_held(rest);
        let held = asset_holdings(assets);
        assert forall|j: int|
            0 <= j < assets.len() && (#[trigger] assets[j]).output_coin is Some implies {
            &&& held.contains_key(assets[j].name)
            &&& held[assets[j].name] == assets[j].output_coin.unwrap()
        } by {
            if j < assets.len() - 1 {
                assert(rest[j] == assets[j]);
                assert(assets[j].name != assets[assets.len() - 1].name);
            }
        }
        if forall|j: int| 0 <= j < assets.len() ==> (#[trigger] assets[j]).output_coin is Some {
            assert forall|j: int| 0 <= j < rest.len() implies (
            #[trigger] rest[j]).output_coin is Some by {
                assert(rest[j] == assets[j]);
            }
            if asset_holdings(rest).contains_key(assets.last().name) {
                let j = choose|j: int|
                    0 <= j < rest.len() && rest[j].output_coin is Some && rest[j].name
                        == assets.last().name;
                assert(assets[j].name == assets[assets.len() - 1].name);
            }
        }
    }
}

/// An output that holds N different pairs of policy and asset name has N
/// entries in its asset map, each with the quantity of its pair: as many
/// policies as groups, under each policy as many names as the group has
/// entries, and N pairs in all.
pub proof fn lemma_distinct_pairs_are_all_held(policies: Seq<RawPolicyAssetsView>)
    requires
        plain_holdings(policies),
    ensures
        policy_holdings(policies).dom().finite(),
        policy_holdings(policies).dom().len() == policies.len(),
        forall|i: int|
            0 <= i < policies.len() ==> {
                let group = #[trigger] policies[i];
                &&& policy_holdings(policies).contains_key(group.policy)
                &&& policy_holdings(policies)[group.policy] == asset_holdings(group.assets)
                &&& asset_holdings(group.assets).dom().finite()
                &&& asset_holdings(group.assets).dom().len() == group.assets.len()
            },
        forall|i: int, j: int|
            0 <= i < policies.len() && 0 <= j < policies[i].assets.len() ==> {
                let entry = #[trigger] policies[i].assets[j];
                &&& policy_holdings(policies)[policies[i].policy].contains_key(entry.name)
                &&& policy_holdings(policies)[policies[i].policy][entry.name]
                    == entry.output_coin.unwrap()
            },
        held_pairs(policy_holdings(policies)).finite(),
        held_pairs(policy_holdings(policies)).len() == total_assets(policies),
    decreases policies.len(),
{
    lemma_only_output_side_is_held(policies);
    if policies.len() == 0 {
        assert(held_pairs(policy_holdings(policies)) =~= Set::empty());
    } else {
        let rest = policies.drop_last();
        let last = policies.last();
        assert(plain_holdings(rest)) by {
            assert forall|i: int| 0 <= i < rest.len() implies (#[trigger] rest[i]).is_output
                && distinct_names(rest[i].assets) by {
                assert(rest[i] == policies[i]);
            }
            assert forall|i: int, j: int|
                0 <= i < rest.len() && 0 <= j < rest[i].assets.len() implies (
            #[trigger] rest[i].assets[j]).output_coin is Some by {
                assert(rest[i] == policies[i]);
                assert(policies[i].assets[j].output_coin is Some);
            }
            assert forall|i: int, j: int| 0 <= i < j < rest.len() implies rest[i].policy
                != rest[j].policy by {
                assert(policies[i].policy != policies[j].policy);
            }
        }
        lemma_distinct_pairs_are_all_held(rest);
        lemma_only_output_side_is_held(rest);
        assert(last == policies[policies.len() - 1]);
        assert(last.is_output);
        assert(!policy_holdings(rest).contains_key(last.policy)) by {
            if policy_holdings(rest).contains_key(last.policy) {
                let i = choose|i: int|
                    0 <= i < rest.len() && rest[i].is_output && rest[i].policy == last.policy;
                assert(policies[i].policy == policies[policies.len() - 1].policy);
            }
        }
        assert forall|j: int| 0 <= j < last.assets.len() implies (
        #[trigger] last.assets[j]).output_coin is Some by {
            assert(policies[policies.len() - 1].assets[j].output_coin is Some);
        }
        lemma_distinct_assets_are_held(last.assets);
        lemma_only_quantities_are_held(last.assets);
        let held = policy_holdings(policies);
        assert forall|i: int| 0 <= i < policies.len() implies {
            &&& held.contains_key((#[trigger] policies[i]).policy)
            &&& held[policies[i].policy] == asset_holdings(policies[i].assets)
            &&& asset_holdings(policies[i].assets).dom().finite()
            &&& asset_holdings(policies[i].assets).dom().len() == policies[i].assets.len()
        } by {
            if i < policies.len() - 1 {
                assert(rest[i] == policies[i]);
                assert(policies[i].policy != policies[policies.len() - 1].policy);
            }
        }
        assert forall|i: int, j: int|
            0 <= i < policies.len() && 0 <= j < policies[i].assets.len() implies {
            let entry = #[trigger] policies[i].assets[j];
            &&& held[policies[i].policy].contains_key(entry.name)
            &&& held[policies[i].policy][entry.name] == entry.output_coin.unwrap()
        } by {
            assert(held[policies[i].policy] == asset_holdings(policies[i].assets));
            assert(distinct_names(policies[i].assets));
            lemma_distinct_assets_are_held(policies[i].assets);
        }
        // The pairs under the last policy are as many as its names, and
        // they are new.
        let before = held_pairs(policy_holdings(rest));
        let names = asset_holdings(last.assets).dom();
        let added = names.map(|name: Seq<u8>| (last.policy, name));
        assert(held_pairs(held) =~= before + added) by {
            assert forall|pair: (Seq<u8>, Seq<u8>)| held_pairs(held).contains(pair) implies (before
                + added).contains(pair) by {
                if pair.0 == last.policy {
                    assert(names.contains(pair.1));
                    assert(pair == (last.policy, pair.1));
                    assert(added.contains(pair));
                }
            }
            assert forall|pair: (Seq<u8>, Seq<u8>)| (before + added).contains(
                pair,
            ) implies held_pairs(held).contains(pair) by {
                if added.contains(pair) {
                    let name = choose|name: Seq<u8>|
                        names.contains(name) && pair == (last.policy, name);
                    assert(pair.0 == last.policy && pair.1 == name);
                }
            }
        }
        assert(before.disjoint(added)) by {
            assert forall|pair: (Seq<u8>, Seq<u8>)|
                !(before.contains(pair) && added.contains(pair)) by {
                if added.contains(pair) {
                    let name = choose|name: Seq<u8>|
                        names.contains(name) && pair == (last.policy, name);
                    assert(pair.0 == last.policy);
                }
            }
        }
        assert(added.finite() && added.len() == names.len()) by {
            vstd::set_lib::lemma_map_size(names, added, |name: Seq<u8>| (last.policy, name));
        }
        vstd::set_lib::lemma_set_disjoint_lens(before, added);
    }
}

/// The quantity held of the asset `name` under `policy`, if any is held.
pub open spec fn held_quantity(
    held: Map<Seq<u8>, Map<Seq<u8>, u64>>,
    policy: Seq<u8>,
    name: Seq<u8>,
) -> Option<u64> {
    if held.contains_key(policy) && held[policy].contains_key(name) {
        Some(held[policy][name])
    } else {
        None
    }
}

/// The mathematical value of a [`Value`].
pub struct ValueView {
    pub coin: u64,
    pub multi_asset: Map<Seq<u8>, Map<Seq<u8>, u64>>,
}

/// An amount of the base unit together with the other assets held, as a map
/// from policy to a map from asset name to quantity.
#[derive(Clone, Debug)]
pub struct Value {
    coin: Coin,
    multi_asset: ByteMap<ByteMap<Coin>>,
}

impl View for Value {
    type V = ValueView;

    closed spec fn view(&self) -> ValueView {
        ValueView {
            coin: self.coin,
            multi_asset: self.multi_asset@.map_values(|a: ByteMap<Coin>| a@),
        }
    }
}

/// Gathers the holdings of one policy group.
pub fn collect_assets(assets: &Vec<RawAsset>) -> (r: ByteMap<Coin>)
    ensures
        r.wf(),
        r@ == asset_holdings(raw_assets_view(assets@)),
{
    let mut held: ByteMap<Coin> = ByteMap::new();
    let mut i: usize = 0;
    proof {
        assert(raw_assets_view(assets@.take(0)) =~= Seq::<RawAssetView>::empty());
    }
    while i < assets.len()
        invariant
            i <= assets.len(),
            held.wf(),
            held@ == asset_holdings(raw_assets_view(assets@.take(i as int))),
        decreases assets.len() - i,
    {
        proof {
            let next = raw_assets_view(assets@.take(i + 1));
            assert(next.drop_last() =~= raw_assets_view(assets@.take(i as int)));
            assert(next.last() == assets@[i as int]@);
        }
        match assets[i].output_coin {
            Some(quantity) => {
                held.insert(copy_bytes(&assets[i].name), quantity);
            },
            None => {},
        }
        i = i + 1;
    }
    proof {
        assert(assets@.take(i as int) =~= assets@);
    }
    held
}

impl Value {
    /// The invariant of the representation.
    pub closed spec fn wf(&self) -> bool {
        &&& self.multi_asset.wf()
        &&& forall|p: Seq<u8>| #[trigger]
            self.multi_asset@.contains_key(p) ==> self.multi_asset@[p].wf()
    }

    /// A value of the base unit alone.
    pub fn new(coin: Coin) -> (r: Value)
        ensures
            r.wf(),
            r@ == (ValueView { coin, multi_asset: Map::empty() }),
    {
        let r = Value { coin, multi_asset: ByteMap::new() };
        proof {
            assert(r@.multi_asset =~= Map::empty());
        }
        r
    }

    /// The value of an output with `coin` of the base unit and the given
    /// policy groups.
    pub fn from_holdings(coin: Coin, policies: &Vec<RawPolicyAssets>) -> (r: Value)
        ensures
            r.wf(),
            r@ == (ValueView {
                coin,
                multi_asset: policy_holdings(raw_policies_view(policies@)),
            }),
    {
        let mut held: ByteMap<ByteMap<Coin>> = ByteMap::new();
        let mut i: usize = 0;
        proof {
            assert(raw_policies_view(policies@.take(0)) =~= Seq::<RawPolicyAssetsView>::empty());
            assert(held@.map_values(|a: ByteMap<Coin>| a@) =~= Map::<
                Seq<u8>,
                Map<Seq<u8>, u64>,
            >::empty());
        }
        while i < policies.len()
            invariant
                i <= policies.len(),
                held.wf(),
                forall|p: Seq<u8>| #[trigger] held@.contains_key(p) ==> held@[p].wf(),
                held@.map_values(|a: ByteMap<Coin>| a@) == policy_holdings(
                    raw_policies_view(policies@.take(i as int)),
                ),
            decreases policies.len() - i,
        {
            proof {
                let next = raw_policies_view(policies@.take(i + 1));
                assert(next.drop_last() =~= raw_policies_view(policies@.take(i as int)));
                assert(next.last() == policies@[i as int]@);
            }
            if policies[i].is_output {
                let assets = collect_assets(&policies[i].assets);
                let ghost before = held@;
                held.insert(copy_bytes(&policies[i].policy), assets);
                proof {
                    assert(held@.map_values(|a: ByteMap<Coin>| a@) =~= before.map_values(
                        |a: ByteMap<Coin>| a@,
                    ).insert(policies@[i as int].policy@, assets@));
                }
            }
            i = i + 1;
        }
        proof {
            assert(policies@.take(i as int) =~= policies@);
        }
        Value { coin, multi_asset: held }
    }

    /// The amount of the base unit.
    pub fn coin(&self) -> (r: Coin)
        ensures
            r == self@.coin,
    {
        self.coin
    }

    /// The number of policies under which the value holds assets.
    pub fn policy_count(&self) -> (r: usize)
        requires
            self.wf(),
        ensures
            self@.multi_asset.dom().finite(),
            r == self@.multi_asset.dom().len(),
    {
        proof {
            assert(self@.multi_asset.dom() =~= self.multi_asset@.dom());
        }
        self.multi_asset.len()
    }

    /// The number of assets held under `policy`; zero where the value holds
    /// nothing under it.
    pub fn asset_count(&self, policy: &[u8]) -> (r: usize)
        requires
            self.wf(),
        ensures
            self@.multi_asset.contains_key(policy@) ==> self@.multi_asset[policy@].dom().finite()
                && r == self@.multi_asset[policy@].dom().len(),
            !self@.multi_asset.contains_key(policy@) ==> r == 0,
    {
        match self.multi_asset.get(policy) {
            Some(assets) => assets.len(),
            None => 0,
        }
    }

    /// The quantity held of the asset `name` under `policy`, if any is held.
    pub fn quantity_of(&self, policy: &[u8], name: &[u8]) -> (r: Option<Coin>)
        requires
            self.wf(),
        ensures
            r == held_quantity(self@.multi_asset, policy@, name@),
    {
        match self.multi_asset.get(policy) {
            Some(assets) => match assets.get(name) {
                Some(quantity) => Some(*quantity),
                None => None,
            },
            None => None,
        }
    }

    /// The policy at position `i`; positions follow the order in which the
    /// policies first appeared.
    pub closed spec fn policy_key(&self, i: int) -> Seq<u8> {
        self.multi_asset.key_at(i)
    }

    /// Under the policy at position `i`, the asset name at position `j`.
    pub closed spec fn asset_key(&self, i: int, j: int) -> Seq<u8> {
        self.multi_asset@[self.multi_asset.key_at(i)].key_at(j)
    }

    /// The number of policies.
    pub open spec fn policies(&self) -> nat {
        self@.multi_asset.dom().len()
    }

    /// The assets held under the policy at position `i`.
    pub open spec fn assets_under(&self, i: int) -> Map<Seq<u8>, u64> {
        self@.multi_asset[self.policy_key(i)]
    }

    /// The positions list the policies, each exactly once.
    pub proof fn lemma_policy_positions(&self)
        requires
            self.wf(),
        ensures
            self@.multi_asset.dom().finite(),
            forall|i: int|
                0 <= i < self.policies() ==> self@.multi_asset.contains_key(
                    #[trigger] self.policy_key(i),
                ),
            forall|i: int, k: int|
                0 <= i < k < self.policies() ==> self.policy_key(i) != self.policy_key(k),
            forall|policy: Seq<u8>| #[trigger]
                self@.multi_asset.contains_key(policy) ==> exists|i: int|
                    0 <= i < self.policies() && self.policy_key(i) == policy,
    {
        assert(self@.multi_asset.dom() =~= self.multi_asset@.dom());
        self.multi_asset.lemma_wf();
        assert forall|policy: Seq<u8>| #[trigger]
            self@.multi_asset.contains_key(policy) implies exists|i: int|
            0 <= i < self.policies() && self.policy_key(i) == policy by {
            assert(self.multi_asset@.contains_key(policy));
            let i = choose|i: int|
                0 <= i < self.multi_asset@.dom().len() && self.multi_asset.key_at(i) == policy;
            assert(self.policy_key(i) == policy);
        }
    }

    /// Under the policy at position `i`, the positions list the asset
    /// names, each exactly once.
    pub proof fn lemma_asset_positions(&self, i: int)
        requires
            self.wf(),
            0 <= i < self.policies(),
        ensures
            self.assets_under(i).dom().finite(),
            forall|j: int|
                0 <= j < self.assets_under(i).dom().len() ==> self.assets_under(i).contains_key(
                    #[trigger] self.asset_key(i, j),
                ),
            forall|j: int, k: int|
                0 <= j < k < self.assets_under(i).dom().len() ==> self.asset_key(i, j)
                    != self.asset_key(i, k),
            forall|name: Seq<u8>| #[trigger]
                self.assets_under(i).contains_key(name) ==> exists|j: int|
                    0 <= j < self.assets_under(i).dom().len() && self.asset_key(i, j) == name,
    {
        assert(self@.multi_asset.dom() =~= self.multi_asset@.dom());
        self.multi_asset.lemma_wf();
        let held = self.multi_asset@[self.multi_asset.key_at(i)];
        assert(self.multi_asset@.contains_key(self.multi_asset.key_at(i)));
        held.lemma_wf();
        assert forall|name: Seq<u8>| #[trigger]
            self.assets_under(i).contains_key(name) implies exists|j: int|
            0 <= j < self.assets_under(i).dom().len() && self.asset_key(i, j) == name by {
            let j = choose|j: int| 0 <= j < held@.dom().len() && held.key_at(j) == name;
            assert(self.asset_key(i, j) == name);
        }
    }

    /// The policy at position `i`.
    pub fn policy_at(&self, i: usize) -> (r: &Vec<u8>)
        requires
            self.wf(),
            i < self.policies(),
        ensures
            r@ == self.policy_key(i as int),
            self@.multi_asset.contains_key(r@),
    {
        proof {
            assert(self@.multi_asset.dom() =~= self.multi_asset@.dom());
        }
        self.multi_asset.entry(i).0
    }

    /// Under the policy at position `i`, the name and quantity of the asset
    /// at position `j`.
    pub fn asset_at(&self, i: usize, j: usize) -> (r: (&Vec<u8>, Coin))
        requires
            self.wf(),
            i < self.policies(),
            j < self.assets_under(i as int).dom().len(),
        ensures
            r.0@ == self.asset_key(i as int, j as int),
            self.assets_under(i as int).contains_key(r.0@),
            self.assets_under(i as int)[r.0@] == r.1,
    {
        proof {
            assert(self@.multi_asset.dom() =~= self.multi_asset@.dom());
            self.multi_asset.lemma_wf();
        }
        let assets = self.multi_asset.entry(i).1;
        let found = assets.entry(j);
        (found.0, *found.1)
    }
}

} // verus!
