//! The assets and their lifecycle.
//!
//! An asset is proposed for acquisition and then moves, one step at a time,
//! through review by the council, the vote of the investors, onboarding, the
//! validation by a notary, and the purchase. The council and the investors can
//! reject it; nothing else leaves the line, and nothing moves backwards.

use crate::types::{AccountId, AssetKey, Balance, BlockNumber};
use crate::voting::later;
use std::collections::HashMap;
use vstd::prelude::*;

verus! {

broadcast use vstd::std_specs::hash::group_hash_axioms;

/// Where an asset stands in its lifecycle.
#[derive(Clone, Copy, PartialEq, Eq, Structural, Debug)]
pub enum AssetStatus {
    /// Before the council.
    REVIEWING,
    /// Before the investors.
    VOTING,
    /// Approved; waits for the funds to be arranged.
    ONBOARDED,
    /// Waits for a notary to validate the transaction.
    FINALISING,
    /// Validated; waits for the purchase to be carried out.
    FINALISED,
    /// Bought: the asset belongs to its owners.
    PURCHASED,
    /// Refused by the council or by the investors.
    REJECTED,
}

/// What can move an asset on.
#[derive(Clone, Copy, PartialEq, Eq, Structural, Debug)]
pub enum Step {
    /// The council approved the acquisition.
    CouncilApproved,
    /// The council refused the acquisition.
    CouncilRejected,
    /// The acquisition that the investors approved takes effect.
    ReferendumEnacted,
    /// The investors refused the acquisition.
    ReferendumRejected,
    /// The time for which an asset stays onboarded has passed.
    OnboardedElapsed,
    /// A notary validated the transaction.
    NotaryValidated,
    /// The time for which an asset stays finalised has passed.
    FinalisedElapsed,
}

impl AssetStatus {
    /// The place of the status in the line from review to purchase.
    pub open spec fn rank(self) -> nat {
        match self {
            AssetStatus::REVIEWING => 0,
            AssetStatus::VOTING => 1,
            AssetStatus::ONBOARDED => 2,
            AssetStatus::FINALISING => 3,
            AssetStatus::FINALISED => 4,
            AssetStatus::PURCHASED => 5,
            AssetStatus::REJECTED => 6,
        }
    }

    /// The status that `step` leads to from this one, if it leads anywhere.
    pub open spec fn spec_next(self, step: Step) -> Option<AssetStatus> {
        match (self, step) {
            (AssetStatus::REVIEWING, Step::CouncilApproved) => Some(AssetStatus::VOTING),
            (AssetStatus::REVIEWING, Step::CouncilRejected) => Some(AssetStatus::REJECTED),
            (AssetStatus::VOTING, Step::ReferendumEnacted) => Some(AssetStatus::ONBOARDED),
            (AssetStatus::VOTING, Step::ReferendumRejected) => Some(AssetStatus::REJECTED),
            (AssetStatus::ONBOARDED, Step::OnboardedElapsed) => Some(AssetStatus::FINALISING),
            (AssetStatus::FINALISING, Step::NotaryValidated) => Some(AssetStatus::FINALISED),
            (AssetStatus::FINALISED, Step::FinalisedElapsed) => Some(AssetStatus::PURCHASED),
            _ => None,
        }
    }

    /// The status that `step` leads to from this one, if it leads anywhere.
    #[verifier::when_used_as_spec(spec_next)]
    pub fn next(self, step: Step) -> (to: Option<AssetStatus>)
        ensures
            to == self.spec_next(step),
    {
        match (self, step) {
            (AssetStatus::REVIEWING, Step::CouncilApproved) => Some(AssetStatus::VOTING),
            (AssetStatus::REVIEWING, Step::CouncilRejected) => Some(AssetStatus::REJECTED),
            (AssetStatus::VOTING, Step::ReferendumEnacted) => Some(AssetStatus::ONBOARDED),
            (AssetStatus::VOTING, Step::ReferendumRejected) => Some(AssetStatus::REJECTED),
            (AssetStatus::ONBOARDED, Step::OnboardedElapsed) => Some(AssetStatus::FINALISING),
            (AssetStatus::FINALISING, Step::NotaryValidated) => Some(AssetStatus::FINALISED),
            (AssetStatus::FINALISED, Step::FinalisedElapsed) => Some(AssetStatus::PURCHASED),
            _ => None,
        }
    }

    /// Whether the status is `to`, or `to` is what one step leads to from it.
    pub open spec fn leads_to(self, to: AssetStatus) -> bool {
        self == to || exists|step: Step| self.spec_next(step) == Some(to)
    }

    /// Whether an asset of this status gets the status `to` without anybody
    /// acting on it: by the outcome of a vote or by the passing of time. The
    /// validation by a notary is not among these.
    pub open spec fn moves_by_itself_to(self, to: AssetStatus) -> bool {
        match (self, to) {
            (AssetStatus::REVIEWING, AssetStatus::VOTING) => true,
            (AssetStatus::REVIEWING, AssetStatus::REJECTED) => true,
            (AssetStatus::VOTING, AssetStatus::ONBOARDED) => true,
            (AssetStatus::VOTING, AssetStatus::REJECTED) => true,
            (AssetStatus::ONBOARDED, AssetStatus::FINALISING) => true,
            (AssetStatus::FINALISED, AssetStatus::PURCHASED) => true,
            _ => false,
        }
    }

    /// Whether the status is `to`, or lies before `to` in the line from
    /// review to purchase, or is one of the two from which an asset can be
    /// rejected and `to` is rejection.
    pub open spec fn reaches(self, to: AssetStatus) -> bool {
        ||| self == to
        ||| to == AssetStatus::REJECTED && (self == AssetStatus::REVIEWING || self
            == AssetStatus::VOTING)
        ||| to != AssetStatus::REJECTED && self != AssetStatus::REJECTED && self.rank() < to.rank()
    }
}

/// Every step leads to the status next in line, or, from review or from the
/// vote only, to rejection; from a purchased or rejected asset no step leads
/// anywhere.
pub proof fn lemma_lifecycle_order(from: AssetStatus, step: Step)
    ensures
        from.spec_next(step) matches Some(to) ==> {
            ||| to.rank() == from.rank() + 1 && to != AssetStatus::REJECTED
            ||| to == AssetStatus::REJECTED && (from == AssetStatus::REVIEWING || from
                == AssetStatus::VOTING)
        },
        from == AssetStatus::PURCHASED || from == AssetStatus::REJECTED ==> from.spec_next(step)
            is None,
{
}

/// What leads on from a status leads to the next in line or to rejection.
pub proof fn lemma_leads_to_is_ordered(from: AssetStatus, to: AssetStatus)
    requires
        from.leads_to(to),
    ensures
        to == from || (to.rank() == from.rank() + 1 && to != AssetStatus::REJECTED) || (to
            == AssetStatus::REJECTED && (from == AssetStatus::REVIEWING || from
            == AssetStatus::VOTING)),
{
    if to != from {
        let step = choose|step: Step| from.spec_next(step) == Some(to);
        lemma_lifecycle_order(from, step);
    }
}

/// What one step leads to is reached, and what is reached from what is
/// reached is reached.
pub proof fn lemma_reaches(from: AssetStatus, via: AssetStatus, to: AssetStatus)
    ensures
        from.leads_to(via) ==> from.reaches(via),
        from.reaches(via) && via.reaches(to) ==> from.reaches(to),
{
    if from.leads_to(via) {
        lemma_leads_to_is_ordered(from, via);
    }
}

/// What the lifecycle is set up with.
#[derive(Clone, Copy, PartialEq, Eq, Structural, Debug)]
pub struct Config {
    /// The number of blocks for which an asset stays onboarded.
    pub onboarded_period: BlockNumber,
    /// The number of blocks for which an asset stays finalised.
    pub finalised_period: BlockNumber,
}

/// Why the lifecycle refused an action.
#[derive(Clone, Copy, PartialEq, Eq, Structural, Debug)]
pub enum Error {
    /// The collection was created already.
    CollectionExists,
    /// There is no such collection.
    NotACollection,
    /// The collection is full.
    TooManyItems,
    /// The Asset Does not Exists
    NotAnAsset,
    /// The step does not lead on from the status of the asset.
    InvalidStatus,
}

/// An asset.
#[derive(Clone, Debug)]
pub struct Asset {
    pub key: AssetKey,
    pub status: AssetStatus,
    /// The block at which the asset got its status.
    pub since: BlockNumber,
    pub price: Balance,
    /// Who sells the asset.
    pub seller: AccountId,
    /// Who holds the asset: the seller, and after the purchase the custodial
    /// account of the owners.
    pub owner: AccountId,
    /// A reference to what is known of the asset.
    pub metadata: Vec<u8>,
    /// The tenants of the asset, in the order of their elections.
    pub tenants: Vec<AccountId>,
}

/// The mathematical content of an [`Asset`].
pub struct AssetView {
    pub key: AssetKey,
    pub status: AssetStatus,
    pub since: BlockNumber,
    pub price: Balance,
    pub seller: AccountId,
    pub owner: AccountId,
    pub metadata: Seq<u8>,
    pub tenants: Seq<AccountId>,
}

impl View for Asset {
    type V = AssetView;

    open spec fn view(&self) -> AssetView {
        AssetView {
            key: self.key,
            status: self.status,
            since: self.since,
            price: self.price,
            seller: self.seller,
            owner: self.owner,
            metadata: self.metadata@,
            tenants: self.tenants@,
        }
    }
}

impl AssetView {
    /// The step that time alone brings about at block `now`, if any. An asset
    /// that got its status at block `now` is not due before the next block.
    pub open spec fn due(self, config: Config, now: BlockNumber) -> Option<Step> {
        if self.since >= now {
            None
        } else if self.status == AssetStatus::ONBOARDED && now >= later(
            self.since,
            config.onboarded_period,
        ) {
            Some(Step::OnboardedElapsed)
        } else if self.status == AssetStatus::FINALISED && now >= later(
            self.since,
            config.finalised_period,
        ) {
            Some(Step::FinalisedElapsed)
        } else {
            None
        }
    }

    /// Whether `after` is the asset with the status and the date that it has,
    /// or with the status that it moves to by itself, got at block `now`, which
    /// is later than the block at which it got the status that it has.
    pub open spec fn advances_to(self, after: AssetView, now: BlockNumber) -> bool {
        ||| after.status == self.status && after.since == self.since
        ||| self.since < now && after.since == now && self.status.moves_by_itself_to(after.status)
    }

    /// The asset after `step` at block `now`, where the step leads on.
    pub open spec fn after(self, step: Step, now: BlockNumber) -> Option<AssetView> {
        match self.status.spec_next(step) {
            Some(status) => Some(AssetView { status, since: now, ..self }),
            None => None,
        }
    }
}

/// The assets after each asset named in `keys` that was onboarded for long
/// enough became one to be finalised, at block `now` and in that order; with
/// the assets that moved and the status they got.
pub open spec fn tick_all(
    assets: Map<u64, AssetView>,
    keys: Seq<AssetKey>,
    config: Config,
    now: BlockNumber,
) -> (Map<u64, AssetView>, Seq<(AssetKey, AssetStatus)>)
    decreases keys.len(),
{
    if keys.len() == 0 {
        (assets, Seq::empty())
    } else {
        let (before, moved) = tick_all(assets, keys.drop_last(), config, now);
        let key = keys.last();
        if before.contains_key(key.index()) && before[key.index()].due(config, now) == Some(
            Step::OnboardedElapsed,
        ) {
            let to = before[key.index()].after(Step::OnboardedElapsed, now)->Some_0;
            (before.insert(key.index(), to), moved.push((key, to.status)))
        } else {
            (before, moved)
        }
    }
}

/// The assets named in `keys` that were finalised for long enough at block
/// `now`, in that order: those whose purchase falls due.
pub open spec fn purchase_due(
    assets: Map<u64, AssetView>,
    keys: Seq<AssetKey>,
    config: Config,
    now: BlockNumber,
) -> Seq<AssetKey>
    decreases keys.len(),
{
    if keys.len() == 0 {
        Seq::empty()
    } else {
        let before = purchase_due(assets, keys.drop_last(), config, now);
        let key = keys.last();
        if assets.contains_key(key.index()) && assets[key.index()].due(config, now) == Some(
            Step::FinalisedElapsed,
        ) {
            before.push(key)
        } else {
            before
        }
    }
}

/// The mathematical content of the lifecycle.
pub struct OnboardingView {
    pub config: Config,
    /// For each collection, the number of its items.
    pub items_count: Map<u32, u32>,
    /// The assets, by [`AssetKey::index`].
    pub assets: Map<u64, AssetView>,
    /// The assets in the order of their creation.
    pub keys: Seq<AssetKey>,
}

impl OnboardingView {
    /// The lifecycle without assets.
    pub open spec fn init(config: Config) -> OnboardingView {
        OnboardingView { config, items_count: Map::empty(), assets: Map::empty(), keys: Seq::empty() }
    }

    /// What [`Onboarding::create_collection`] does.
    pub open spec fn create_collection(self, collection: u32) -> Result<OnboardingView, Error> {
        if self.items_count.contains_key(collection) {
            Err(Error::CollectionExists)
        } else {
            Ok(OnboardingView { items_count: self.items_count.insert(collection, 0), ..self })
        }
    }

    /// What [`Onboarding::create_asset`] does.
    pub open spec fn create_asset(
        self,
        seller: AccountId,
        collection: u32,
        price: Balance,
        metadata: Seq<u8>,
        now: BlockNumber,
    ) -> Result<(OnboardingView, AssetKey), Error> {
        if !self.items_count.contains_key(collection) {
            Err(Error::NotACollection)
        } else if self.items_count[collection] == u32::MAX {
            Err(Error::TooManyItems)
        } else {
            let key = AssetKey { collection, item: self.items_count[collection] };
            Ok(
                (
                    OnboardingView {
                        items_count: self.items_count.insert(
                            collection,
                            (self.items_count[collection] + 1) as u32,
                        ),
                        assets: self.assets.insert(
                            key.index(),
                            AssetView {
                                key,
                                status: AssetStatus::REVIEWING,
                                since: now,
                                price,
                                seller,
                                owner: seller,
                                metadata,
                                tenants: Seq::empty(),
                            },
                        ),
                        keys: self.keys.push(key),
                        ..self
                    },
                    key,
                ),
            )
        }
    }

    /// What [`Onboarding::apply`] does.
    pub open spec fn apply(self, asset: AssetKey, step: Step, now: BlockNumber) -> Result<
        (OnboardingView, AssetStatus),
        Error,
    > {
        if !self.assets.contains_key(asset.index()) {
            Err(Error::NotAnAsset)
        } else {
            match self.assets[asset.index()].after(step, now) {
                None => Err(Error::InvalidStatus),
                Some(to) => Ok(
                    (
                        OnboardingView { assets: self.assets.insert(asset.index(), to), ..self },
                        to.status,
                    ),
                ),
            }
        }
    }

    /// What [`Onboarding::add_tenant`] does.
    pub open spec fn add_tenant(self, asset: AssetKey, tenant: AccountId) -> Result<
        OnboardingView,
        Error,
    > {
        if !self.assets.contains_key(asset.index()) {
            Err(Error::NotAnAsset)
        } else {
            let before = self.assets[asset.index()];
            Ok(
                OnboardingView {
                    assets: self.assets.insert(
                        asset.index(),
                        AssetView { tenants: before.tenants.push(tenant), ..before },
                    ),
                    ..self
                },
            )
        }
    }

    /// What [`Onboarding::set_owner`] does.
    pub open spec fn set_owner(self, asset: AssetKey, owner: AccountId) -> Result<
        OnboardingView,
        Error,
    > {
        if !self.assets.contains_key(asset.index()) {
            Err(Error::NotAnAsset)
        } else {
            Ok(
                OnboardingView {
                    assets: self.assets.insert(
                        asset.index(),
                        AssetView { owner, ..self.assets[asset.index()] },
                    ),
                    ..self
                },
            )
        }
    }

    /// What [`Onboarding::on_initialize`] does.
    pub open spec fn on_initialize(self, now: BlockNumber) -> (
        OnboardingView,
        Seq<(AssetKey, AssetStatus)>,
    ) {
        let (assets, moved) = tick_all(self.assets, self.keys, self.config, now);
        (OnboardingView { assets, ..self }, moved)
    }

    /// The assets whose purchase falls due at block `now`, in the order of
    /// their creation.
    pub open spec fn purchase_due(self, now: BlockNumber) -> Seq<AssetKey> {
        purchase_due(self.assets, self.keys, self.config, now)
    }

    /// Whether every asset of `self` is in `after` as it is, or one step
    /// further that it took by itself at block `now`: within a block no asset
    /// takes two steps.
    pub open spec fn advances_to(self, after: OnboardingView, now: BlockNumber) -> bool {
        forall|k: u64| #[trigger]
            self.assets.contains_key(k) ==> after.assets.contains_key(k)
                && self.assets[k].advances_to(after.assets[k], now)
    }

    /// Whether every asset of `self` is in `after` with the status it has, or
    /// with one further down the line, or rejected from review or from the
    /// vote: no asset is lost, and none moves backwards.
    pub open spec fn progresses_to(self, after: OnboardingView) -> bool {
        forall|k: u64| #[trigger]
            self.assets.contains_key(k) ==> after.assets.contains_key(k)
                && self.assets[k].status.reaches(after.assets[k].status)
    }

    /// Whether every asset of `self` is in `after` with the status it has, or
    /// with one that a single step leads to.
    pub open spec fn steps_to(self, after: OnboardingView) -> bool {
        forall|k: u64| #[trigger]
            self.assets.contains_key(k) ==> after.assets.contains_key(k)
                && self.assets[k].status.leads_to(after.assets[k].status)
    }
}

/// The assets and their lifecycle.
pub struct Onboarding {
    config: Config,
    items_count: HashMap<u32, u32>,
    assets: HashMap<u64, Asset>,
    keys: Vec<AssetKey>,
}

impl View for Onboarding {
    type V = OnboardingView;

    closed spec fn view(&self) -> OnboardingView {
        OnboardingView {
            config: self.config,
            items_count: self.items_count@,
            assets: Map::new(
                |k: u64| self.assets@.contains_key(k),
                |k: u64| self.assets@[k]@,
            ),
            keys: self.keys@,
        }
    }
}

impl Onboarding {
    /// A lifecycle without assets.
    pub fn new(config: Config) -> (o: Onboarding)
        ensures
            o@ == OnboardingView::init(config),
    {
        let o = Onboarding {
            config,
            items_count: HashMap::new(),
            assets: HashMap::new(),
            keys: Vec::new(),
        };
        assert(o@.assets =~= Map::empty());
        o
    }

    /// The number of items of `collection`; `None` where there is no such
    /// collection.
    pub fn items_count(&self, collection: u32) -> (n: Option<u32>)
        ensures
            n == if self@.items_count.contains_key(collection) {
                Some(self@.items_count[collection])
            } else {
                None
            },
    {
        match self.items_count.get(&collection) {
            Some(n) => Some(*n),
            None => None,
        }
    }

    /// The asset `asset`.
    pub fn houses(&self, asset: AssetKey) -> (house: Option<Asset>)
        ensures
            match house {
                Some(h) => self@.assets.contains_key(asset.index()) && h@
                    == self@.assets[asset.index()],
                None => !self@.assets.contains_key(asset.index()),
            },
    {
        match self.assets.get(&asset.index()) {
            Some(a) => Some(
                Asset {
                    key: a.key,
                    status: a.status,
                    since: a.since,
                    price: a.price,
                    seller: a.seller,
                    owner: a.owner,
                    metadata: crate::action::copy_bytes(&a.metadata),
                    tenants: crate::roles::copy_accounts(&a.tenants),
                },
            ),
            None => None,
        }
    }

    /// The status of `asset`.
    pub fn status(&self, asset: AssetKey) -> (status: Option<AssetStatus>)
        ensures
            status == if self@.assets.contains_key(asset.index()) {
                Some(self@.assets[asset.index()].status)
            } else {
                None
            },
    {
        match self.assets.get(&asset.index()) {
            Some(a) => Some(a.status),
            None => None,
        }
    }

    /// The price of `asset`.
    pub fn price(&self, asset: AssetKey) -> (price: Option<Balance>)
        ensures
            price == if self@.assets.contains_key(asset.index()) {
                Some(self@.assets[asset.index()].price)
            } else {
                None
            },
    {
        match self.assets.get(&asset.index()) {
            Some(a) => Some(a.price),
            None => None,
        }
    }

    /// Who sells `asset`.
    pub fn seller(&self, asset: AssetKey) -> (seller: Option<AccountId>)
        ensures
            seller == if self@.assets.contains_key(asset.index()) {
                Some(self@.assets[asset.index()].seller)
            } else {
                None
            },
    {
        match self.assets.get(&asset.index()) {
            Some(a) => Some(a.seller),
            None => None,
        }
    }

    /// Creates the collection `collection`, without items.
    pub fn create_collection(&mut self, collection: u32) -> (res: Result<(), Error>)
        ensures
            old(self)@.steps_to(final(self)@),
            match old(self)@.create_collection(collection) {
                Ok(after) => res is Ok && final(self)@ == after,
                Err(e) => res == Err::<(), Error>(e) && final(self)@ == old(self)@,
            },
    {
        if self.items_count.contains_key(&collection) {
            return Err(Error::CollectionExists);
        }
        self.items_count.insert(collection, 0);
        assert(self@.assets =~= old(self)@.assets);
        Ok(())
    }

    /// Creates the next item of `collection` as an asset under review, sold by
    /// `seller` for `price`, and returns its key.
    pub fn create_asset(
        &mut self,
        seller: AccountId,
        collection: u32,
        price: Balance,
        metadata: Vec<u8>,
        now: BlockNumber,
    ) -> (res: Result<AssetKey, Error>)
        ensures
            res is Err ==> old(self)@.steps_to(final(self)@),
            match old(self)@.create_asset(seller, collection, price, metadata@, now) {
                Ok((after, key)) => res == Ok::<AssetKey, Error>(key) && final(self)@ == after,
                Err(e) => res == Err::<AssetKey, Error>(e) && final(self)@ == old(self)@,
            },
    {
        let item = match self.items_count.get(&collection) {
            None => {
                return Err(Error::NotACollection);
            },
            Some(n) => *n,
        };
        if item == u32::MAX {
            return Err(Error::TooManyItems);
        }
        let key = AssetKey { collection, item };
        self.items_count.insert(collection, item + 1);
        self.assets.insert(
            key.index(),
            Asset {
                key,
                status: AssetStatus::REVIEWING,
                since: now,
                price,
                seller,
                owner: seller,
                metadata,
                tenants: Vec::new(),
            },
        );
        self.keys.push(key);
        proof {
            let after = old(self)@.create_asset(seller, collection, price, metadata@, now)->Ok_0.0;
            assert(self@.assets =~= after.assets);
        }
        Ok(key)
    }

    fn replace(&mut self, key: u64, asset: Asset)
        ensures
            final(self)@ == (OnboardingView {
                assets: old(self)@.assets.insert(key, asset@),
                ..old(self)@
            }),
    {
        self.assets.insert(key, asset);
        assert(self@.assets =~= old(self)@.assets.insert(key, asset@));
    }

    fn remove(&mut self, key: u64) -> (asset: Asset)
        requires
            old(self)@.assets.contains_key(key),
        ensures
            asset@ == old(self)@.assets[key],
            final(self)@ == (OnboardingView {
                assets: old(self)@.assets.remove(key),
                ..old(self)@
            }),
    {
        let taken = self.assets.remove(&key);
        assert(self@.assets =~= old(self)@.assets.remove(key));
        match taken {
            Some(a) => a,
            None => Asset {
                key: AssetKey { collection: 0, item: 0 },
                status: AssetStatus::REJECTED,
                since: 0,
                price: 0,
                seller: 0,
                owner: 0,
                metadata: Vec::new(),
                tenants: Vec::new(),
            },
        }
    }

    /// Moves `asset` on by `step`, at block `now`, and returns its new status.
    ///
    /// Fails with [`Error::InvalidStatus`], changing nothing, where the step
    /// does not lead on from the status that the asset has.
    pub fn apply(&mut self, asset: AssetKey, step: Step, now: BlockNumber) -> (res: Result<
        AssetStatus,
        Error,
    >)
        ensures
            old(self)@.steps_to(final(self)@),
            match old(self)@.apply(asset, step, now) {
                Ok((after, status)) => res == Ok::<AssetStatus, Error>(status) && final(self)@
                    == after,
                Err(e) => res == Err::<AssetStatus, Error>(e) && final(self)@ == old(self)@,
            },
    {
        let key = asset.index();
        let to = match self.assets.get(&key) {
            None => {
                return Err(Error::NotAnAsset);
            },
            Some(a) => match a.status.next(step) {
                None => {
                    return Err(Error::InvalidStatus);
                },
                Some(to) => to,
            },
        };
        let ghost from = old(self)@.assets[key].status;
        let mut moved = self.remove(key);
        moved.status = to;
        moved.since = now;
        self.replace(key, moved);
        proof {
            let after = old(self)@.apply(asset, step, now)->Ok_0.0;
            assert(self@.assets =~= after.assets);
            assert(from.spec_next(step) == Some(to));
            assert(from.leads_to(to));
        }
        Ok(to)
    }

    /// Records `tenant` as a further tenant of `asset`.
    pub fn add_tenant(&mut self, asset: AssetKey, tenant: AccountId) -> (res: Result<(), Error>)
        ensures
            old(self)@.steps_to(final(self)@),
            match old(self)@.add_tenant(asset, tenant) {
                Ok(after) => res is Ok && final(self)@ == after,
                Err(e) => res == Err::<(), Error>(e) && final(self)@ == old(self)@,
            },
    {
        let key = asset.index();
        if !self.assets.contains_key(&key) {
            return Err(Error::NotAnAsset);
        }
        let mut house = self.remove(key);
        house.tenants.push(tenant);
        self.replace(key, house);
        assert(self@.assets =~= old(self)@.add_tenant(asset, tenant)->Ok_0.assets);
        Ok(())
    }

    /// Records that `owner` holds `asset`.
    pub fn set_owner(&mut self, asset: AssetKey, owner: AccountId) -> (res: Result<(), Error>)
        ensures
            old(self)@.steps_to(final(self)@),
            match old(self)@.set_owner(asset, owner) {
                Ok(after) => res is Ok && final(self)@ == after,
                Err(e) => res == Err::<(), Error>(e) && final(self)@ == old(self)@,
            },
    {
        let key = asset.index();
        if !self.assets.contains_key(&key) {
            return Err(Error::NotAnAsset);
        }
        let mut house = self.remove(key);
        house.owner = owner;
        self.replace(key, house);
        assert(self@.assets =~= old(self)@.set_owner(asset, owner)->Ok_0.assets);
        Ok(())
    }

    /// The block at which `asset` got its status.
    pub fn since(&self, asset: AssetKey) -> (since: Option<BlockNumber>)
        ensures
            since == if self@.assets.contains_key(asset.index()) {
                Some(self@.assets[asset.index()].since)
            } else {
                None
            },
    {
        match self.assets.get(&asset.index()) {
            Some(a) => Some(a.since),
            None => None,
        }
    }

    /// The step that time alone brings about for `asset` at block `now`.
    pub fn due(&self, asset: AssetKey, now: BlockNumber) -> (step: Option<Step>)
        ensures
            step == if self@.assets.contains_key(asset.index()) {
                self@.assets[asset.index()].due(self@.config, now)
            } else {
                None
            },
    {
        match self.assets.get(&asset.index()) {
            None => None,
            Some(a) => {
                if a.since >= now {
                    None
                } else if a.status == AssetStatus::ONBOARDED && now >= later(
                    a.since,
                    self.config.onboarded_period,
                ) {
                    Some(Step::OnboardedElapsed)
                } else if a.status == AssetStatus::FINALISED && now >= later(
                    a.since,
                    self.config.finalised_period,
                ) {
                    Some(Step::FinalisedElapsed)
                } else {
                    None
                }
            },
        }
    }

    /// The assets whose purchase falls due at block `now`: those that were
    /// finalised for long enough, in the order of their creation.
    pub fn due_for_purchase(&self, now: BlockNumber) -> (due: Vec<AssetKey>)
        ensures
            due@ == self@.purchase_due(now),
    {
        let mut due: Vec<AssetKey> = Vec::new();
        let mut i: usize = 0;
        assert(self.keys@.subrange(0, 0) =~= Seq::empty());
        while i < self.keys.len()
            invariant
                i <= self.keys@.len(),
                due@ == purchase_due(
                    self@.assets,
                    self@.keys.subrange(0, i as int),
                    self@.config,
                    now,
                ),
            decreases self.keys@.len() - i,
        {
            assert(self@.keys.subrange(0, i + 1).drop_last() =~= self@.keys.subrange(0, i as int));
            let key = self.keys[i];
            match self.due(key, now) {
                Some(Step::FinalisedElapsed) => {
                    due.push(key);
                },
                _ => {},
            }
            i += 1;
        }
        assert(self@.keys.subrange(0, i as int) =~= self@.keys);
        due
    }

    /// Lets time move the assets on at block `now`: an asset that was
    /// onboarded for long enough is to be finalised. Returns the assets that
    /// moved, each with its new status, in the order of their creation.
    ///
    /// The purchase of an asset that was finalised for long enough is not
    /// carried out here: see [`Onboarding::due_for_purchase`].
    pub fn on_initialize(&mut self, now: BlockNumber) -> (moved: Vec<(AssetKey, AssetStatus)>)
        ensures
            old(self)@.advances_to(final(self)@, now),
            final(self)@ == old(self)@.on_initialize(now).0,
            moved@ == old(self)@.on_initialize(now).1,
    {
        let mut moved: Vec<(AssetKey, AssetStatus)> = Vec::new();
        let mut i: usize = 0;
        assert(self.keys@.subrange(0, 0) =~= Seq::empty());
        while i < self.keys.len()
            invariant
                i <= self.keys@.len(),
                self@.keys == old(self)@.keys,
                self@.config == old(self)@.config,
                self@.items_count == old(self)@.items_count,
                old(self)@.advances_to(self@, now),
                (self@.assets, moved@) == tick_all(
                    old(self)@.assets,
                    old(self)@.keys.subrange(0, i as int),
                    old(self)@.config,
                    now,
                ),
            decreases self.keys@.len() - i,
        {
            let key = self.keys[i];
            proof {
                assert(old(self)@.keys.subrange(0, i + 1).drop_last() =~= old(self)@.keys.subrange(
                    0,
                    i as int,
                ));
            }
            let ghost before = self@;
            match self.due(key, now) {
                Some(Step::OnboardedElapsed) => {
                    let mut house = self.remove(key.index());
                    house.status = AssetStatus::FINALISING;
                    house.since = now;
                    self.replace(key.index(), house);
                    moved.push((key, AssetStatus::FINALISING));
                    proof {
                        let from = before.assets[key.index()];
                        assert(self@.assets =~= before.assets.insert(
                            key.index(),
                            from.after(Step::OnboardedElapsed, now)->Some_0,
                        ));
                        assert forall|k: u64| #[trigger]
                            old(self)@.assets.contains_key(k) implies self@.assets.contains_key(k)
                            && old(self)@.assets[k].advances_to(self@.assets[k], now) by {
                            if k == key.index() {
                                lemma_tick_moves_once(
                                    old(self)@.assets,
                                    old(self)@.keys.subrange(0, i as int),
                                    old(self)@.config,
                                    now,
                                    k,
                                );
                            }
                        }
                    }
                },
                _ => {},
            }
            i += 1;
        }
        assert(old(self)@.keys.subrange(0, i as int) =~= old(self)@.keys);
        moved
    }
}

/// A step that is not the validation by a notary moves an asset by itself.
pub proof fn lemma_automatic_steps(from: AssetStatus, step: Step)
    ensures
        step != Step::NotaryValidated && from.spec_next(step) is Some ==> from.moves_by_itself_to(
            from.spec_next(step)->Some_0,
        ),
        forall|to: AssetStatus| from.moves_by_itself_to(to) ==> from.leads_to(to) && to != from,
        !AssetStatus::FINALISING.moves_by_itself_to(AssetStatus::FINALISED),
{
    assert forall|to: AssetStatus| from.moves_by_itself_to(to) implies from.leads_to(to) && to
        != from by {
        let via = match (from, to) {
            (AssetStatus::REVIEWING, AssetStatus::VOTING) => Step::CouncilApproved,
            (AssetStatus::REVIEWING, AssetStatus::REJECTED) => Step::CouncilRejected,
            (AssetStatus::VOTING, AssetStatus::ONBOARDED) => Step::ReferendumEnacted,
            (AssetStatus::VOTING, AssetStatus::REJECTED) => Step::ReferendumRejected,
            (AssetStatus::ONBOARDED, AssetStatus::FINALISING) => Step::OnboardedElapsed,
            _ => Step::FinalisedElapsed,
        };
        assert(from.spec_next(via) == Some(to));
    }
}

/// What a block does to an asset keeps the order of the lifecycle: the asset
/// keeps its status or gets the next in line, or is rejected from review or
/// from the vote; an asset that waits for the notary, a purchased and a
/// rejected asset keep their status.
pub proof fn lemma_block_keeps_order(from: AssetView, to: AssetView, now: BlockNumber)
    requires
        from.advances_to(to, now),
    ensures
        ({
            ||| to.status == from.status
            ||| to.status != AssetStatus::REJECTED && to.status.rank() == from.status.rank() + 1
            ||| to.status == AssetStatus::REJECTED && (from.status == AssetStatus::REVIEWING
                || from.status == AssetStatus::VOTING)
        }),
        from.status == AssetStatus::FINALISING || from.status == AssetStatus::PURCHASED
            || from.status == AssetStatus::REJECTED ==> to.status == from.status,
        to.status != from.status ==> from.since < now && to.since == now,
{
}

/// Within a block an asset takes one step at most: what advanced at block
/// `now` does not advance again at that block. And what advances steps.
pub proof fn lemma_advances(
    from: OnboardingView,
    via: OnboardingView,
    to: OnboardingView,
    now: BlockNumber,
)
    ensures
        from.advances_to(from, now),
        from.advances_to(via, now) && via.advances_to(to, now) ==> from.advances_to(to, now),
        from.advances_to(via, now) ==> from.steps_to(via),
{
    if from.advances_to(via, now) && via.advances_to(to, now) {
        assert forall|k: u64| #[trigger] from.assets.contains_key(k) implies to.assets.contains_key(
            k,
        ) && from.assets[k].advances_to(to.assets[k], now) by {
            assert(via.assets.contains_key(k));
        }
    }
    if from.advances_to(via, now) {
        assert forall|k: u64| #[trigger] from.assets.contains_key(k) implies via.assets.contains_key(
            k,
        ) && from.assets[k].status.leads_to(via.assets[k].status) by {
            lemma_automatic_steps(from.assets[k].status, Step::CouncilApproved);
        }
    }
}

/// Assets that move a step at a time, over and over, never move backwards.
pub proof fn lemma_progress(from: OnboardingView, via: OnboardingView, to: OnboardingView)
    ensures
        from.steps_to(via) ==> from.progresses_to(via),
        from.progresses_to(via) && via.progresses_to(to) ==> from.progresses_to(to),
{
    if from.steps_to(via) {
        assert forall|k: u64| #[trigger] from.assets.contains_key(k) implies via.assets.contains_key(
            k,
        ) && from.assets[k].status.reaches(via.assets[k].status) by {
            lemma_reaches(from.assets[k].status, via.assets[k].status, via.assets[k].status);
        }
    }
    if from.progresses_to(via) && via.progresses_to(to) {
        assert forall|k: u64| #[trigger] from.assets.contains_key(k) implies to.assets.contains_key(
            k,
        ) && from.assets[k].status.reaches(to.assets[k].status) by {
            assert(via.assets.contains_key(k));
            lemma_reaches(from.assets[k].status, via.assets[k].status, to.assets[k].status);
        }
    }
}

/// An asset that time has moved at block `now` is not due at that block any
/// more: in one block, time moves an asset one step at most.
pub proof fn lemma_tick_moves_once(
    assets: Map<u64, AssetView>,
    keys: Seq<AssetKey>,
    config: Config,
    now: BlockNumber,
    k: u64,
)
    requires
        assets.contains_key(k),
    ensures
        tick_all(assets, keys, config, now).0.contains_key(k),
        tick_all(assets, keys, config, now).0[k] == assets[k] || (assets[k].due(config, now)
            == Some(Step::OnboardedElapsed) && tick_all(assets, keys, config, now).0[k]
            == assets[k].after(Step::OnboardedElapsed, now)->Some_0 && tick_all(
            assets,
            keys,
            config,
            now,
        ).0[k].due(config, now) is None),
    decreases keys.len(),
{
    if keys.len() > 0 {
        lemma_tick_moves_once(assets, keys.drop_last(), config, now, k);
    }
}

} // verus!
