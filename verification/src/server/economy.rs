//! Bootstrapping the game economy: the markets, and the assignment of
//! buildings to the businesses proposed around random centers. Identifiers
//! (UUIDs) are held as their 128-bit values.
use std::collections::HashSet;
use std::sync::Arc;
use crate::server::error::ApplicationError;
use crate::server::ids::{is_uuid_v7, UuidSequence};
use vstd::prelude::*;

verus! {

/// The markets of the game.
#[derive(Debug, Clone, Copy, PartialEq, Eq, Hash, Structural)]
pub enum MarketName {
    AutonomousDrone,
    VirtualSimSense,
    StreetPharm,
    ZeroDayExploit,
    RestrictedTech,
    InfoSecCounterIntel,
    WetwareNeural,
    AugmentationCybernetics,
    SyndicateData,
    BlackMarketBio,
}

/// The markets in the order the economy creates them.
pub open spec fn market_names() -> Seq<MarketName> {
    seq![
        MarketName::AutonomousDrone,
        MarketName::VirtualSimSense,
        MarketName::StreetPharm,
        MarketName::ZeroDayExploit,
        MarketName::RestrictedTech,
        MarketName::InfoSecCounterIntel,
        MarketName::WetwareNeural,
        MarketName::AugmentationCybernetics,
        MarketName::SyndicateData,
        MarketName::BlackMarketBio,
    ]
}

/// The volume every market starts with.
pub const INITIAL_MARKET_VOLUME: i64 = 1000;

/// The asking price of every business put up for sale at the start.
pub const INITIAL_ASKING_PRICE: i64 = 1000;

/// A market.
#[derive(Debug, Clone, Copy, PartialEq, Eq, Structural)]
pub struct Market {
    pub uuid: u128,
    pub name: MarketName,
    pub volume: i64,
}

/// A business offered for sale.
#[derive(Debug, Clone, Copy, PartialEq, Eq, Structural)]
pub struct BusinessListing {
    pub uuid: u128,
    pub business_uuid: u128,
    pub asking_price: i64,
}

/// The initial markets, one per market name, identified by `uuids` in
/// order.
pub fn initial_markets(uuids: &Vec<u128>) -> (markets: Vec<Market>)
    requires
        uuids@.len() == market_names().len(),
    ensures
        markets@.len() == market_names().len(),
        forall|i: int|
            0 <= i < markets@.len() ==> #[trigger] markets@[i] == (Market {
                uuid: uuids@[i],
                name: market_names()[i],
                volume: INITIAL_MARKET_VOLUME,
            }),
{
    let names: Vec<MarketName> = vec![
        MarketName::AutonomousDrone,
        MarketName::VirtualSimSense,
        MarketName::StreetPharm,
        MarketName::ZeroDayExploit,
        MarketName::RestrictedTech,
        MarketName::InfoSecCounterIntel,
        MarketName::WetwareNeural,
        MarketName::AugmentationCybernetics,
        MarketName::SyndicateData,
        MarketName::BlackMarketBio,
    ];
    proof {
        assert(names@ =~= market_names());
    }
    let mut markets: Vec<Market> = Vec::new();
    let mut i: usize = 0;
    while i < names.len()
        invariant
            names@ == market_names(),
            uuids@.len() == names@.len(),
            0 <= i <= names@.len(),
            markets@.len() == i,
            forall|j: int|
                0 <= j < i ==> #[trigger] markets@[j] == (Market {
                    uuid: uuids@[j],
                    name: market_names()[j],
                    volume: INITIAL_MARKET_VOLUME,
                }),
        decreases names.len() - i,
    {
        markets.push(Market { uuid: uuids[i], name: names[i], volume: INITIAL_MARKET_VOLUME });
        i = i + 1;
    }
    markets
}

/// Fresh identifiers, `n` of them, in increasing order (so no two are
/// equal).
pub fn fresh_uuids(n: usize) -> (ids: Vec<u128>)
    ensures
        ids@.len() == n,
        forall|i: int| 0 <= i < n ==> is_uuid_v7(#[trigger] ids@[i]),
        forall|i: int, j: int| 0 <= i < j < n ==> ids@[i] < ids@[j],
{
    let mut run = UuidSequence::start();
    let mut ids: Vec<u128> = Vec::new();
    let mut i: usize = 0;
    while i < n
        invariant
            0 <= i <= n,
            ids@.len() == i,
            forall|j: int| 0 <= j < i ==> is_uuid_v7(#[trigger] ids@[j]),
            forall|j: int, k: int| 0 <= j < k < i ==> ids@[j] < ids@[k],
            forall|j: int| 0 <= j < i ==> #[trigger] ids@[j] <= run.last(),
        decreases n - i,
    {
        let id = run.next();
        ids.push(id);
        i = i + 1;
    }
    ids
}

/// The initial markets, one per market name, each under a fresh
/// identifier.
pub fn bootstrap_markets() -> (markets: Vec<Market>)
    ensures
        markets@.len() == market_names().len(),
        forall|i: int|
            0 <= i < markets@.len() ==> {
                &&& (#[trigger] markets@[i]).name == market_names()[i]
                &&& markets@[i].volume == INITIAL_MARKET_VOLUME
                &&& is_uuid_v7(markets@[i].uuid)
            },
        forall|i: int, j: int| 0 <= i < j < markets@.len() ==> markets@[i].uuid < markets@[j].uuid,
{
    let uuids = fresh_uuids(10);
    initial_markets(&uuids)
}

/// One listing per business, at the initial asking price, each under a
/// fresh identifier.
pub fn bootstrap_listings(business_uuids: &Vec<u128>) -> (listings: Vec<BusinessListing>)
    ensures
        listings@.len() == business_uuids@.len(),
        forall|i: int|
            0 <= i < listings@.len() ==> {
                &&& (#[trigger] listings@[i]).business_uuid == business_uuids@[i]
                &&& listings@[i].asking_price == INITIAL_ASKING_PRICE
                &&& is_uuid_v7(listings@[i].uuid)
            },
        forall|i: int, j: int| 0 <= i < j < listings@.len() ==> listings@[i].uuid < listings@[j].uuid,
{
    let listing_uuids = fresh_uuids(business_uuids.len());
    initial_listings(business_uuids, &listing_uuids)
}

/// One listing per business, at the initial asking price, identified by
/// `listing_uuids` in order.
pub fn initial_listings(business_uuids: &Vec<u128>, listing_uuids: &Vec<u128>) -> (listings: Vec<BusinessListing>)
    requires
        listing_uuids@.len() == business_uuids@.len(),
    ensures
        listings@.len() == business_uuids@.len(),
        forall|i: int|
            0 <= i < listings@.len() ==> #[trigger] listings@[i] == (BusinessListing {
                uuid: listing_uuids@[i],
                business_uuid: business_uuids@[i],
                asking_price: INITIAL_ASKING_PRICE,
            }),
{
    let mut listings: Vec<BusinessListing> = Vec::new();
    let mut i: usize = 0;
    while i < business_uuids.len()
        invariant
            listing_uuids@.len() == business_uuids@.len(),
            0 <= i <= business_uuids@.len(),
            listings@.len() == i,
            forall|j: int|
                0 <= j < i ==> #[trigger] listings@[j] == (BusinessListing {
                    uuid: listing_uuids@[j],
                    business_uuid: business_uuids@[j],
                    asking_price: INITIAL_ASKING_PRICE,
                }),
        decreases business_uuids.len() - i,
    {
        listings.push(
            BusinessListing {
                uuid: listing_uuids[i],
                business_uuid: business_uuids[i],
                asking_price: INITIAL_ASKING_PRICE,
            },
        );
        i = i + 1;
    }
    listings
}

/// How many businesses the plain economy bootstrap opens in each market.
pub const BUSINESSES_PER_MARKET: usize = 50;

/// The operational expenses of each business the plain economy bootstrap
/// opens.
pub const INITIAL_OPERATIONAL_EXPENSES: i64 = 10;

/// A business of the plain economy bootstrap, which places businesses in
/// markets without buildings.
#[derive(Debug, Clone, PartialEq, Eq)]
pub struct MarketBusiness {
    pub uuid: u128,
    pub name: String,
    pub market_uuid: u128,
    pub operational_expenses: i64,
}

/// The `i`-th business of the plain economy bootstrap: the markets take
/// `BUSINESSES_PER_MARKET` consecutive businesses each, in market order.
pub open spec fn market_business_at(markets: Seq<Market>, uuids: Seq<u128>, names: Seq<String>, i: int) -> MarketBusiness {
    MarketBusiness {
        uuid: uuids[i],
        name: names[i],
        market_uuid: markets[i / (BUSINESSES_PER_MARKET as int)].uuid,
        operational_expenses: INITIAL_OPERATIONAL_EXPENSES,
    }
}

/// The businesses of the plain economy bootstrap: `BUSINESSES_PER_MARKET`
/// for each market in turn, the `i`-th named `business_names[i]` and
/// identified by `business_uuids[i]`.
pub fn businesses_per_market(markets: &Vec<Market>, business_uuids: &Vec<u128>, business_names: &Vec<String>) -> (r: Vec<
    MarketBusiness,
>)
    requires
        business_uuids@.len() == markets@.len() * BUSINESSES_PER_MARKET,
        business_names@.len() == business_uuids@.len(),
    ensures
        r@.len() == business_uuids@.len(),
        forall|i: int|
            0 <= i < r@.len() ==> #[trigger] r@[i] == market_business_at(markets@, business_uuids@, business_names@, i),
{
    let mut r: Vec<MarketBusiness> = Vec::new();
    let mut i: usize = 0;
    let mut m: usize = 0;
    let mut k: usize = 0;
    while i < business_uuids.len()
        invariant
            business_uuids@.len() == markets@.len() * BUSINESSES_PER_MARKET,
            business_names@.len() == business_uuids@.len(),
            i == m * BUSINESSES_PER_MARKET + k,
            k < BUSINESSES_PER_MARKET,
            i <= business_uuids@.len(),
            r@.len() == i,
            forall|j: int|
                0 <= j < i ==> #[trigger] r@[j] == market_business_at(markets@, business_uuids@, business_names@, j),
        decreases business_uuids.len() - i,
    {
        assert(m < markets@.len()) by (nonlinear_arith)
            requires
                i == m * 50 + k,
                i < markets@.len() * 50,
                k < 50,
        ;
        assert(i as int / 50 == m as int) by (nonlinear_arith)
            requires
                i == m * 50 + k,
                k < 50,
        ;
        r.push(
            MarketBusiness {
                uuid: business_uuids[i],
                name: business_names[i].clone(),
                market_uuid: markets[m].uuid,
                operational_expenses: INITIAL_OPERATIONAL_EXPENSES,
            },
        );
        i = i + 1;
        if k + 1 == BUSINESSES_PER_MARKET {
            k = 0;
            m = m + 1;
        } else {
            k = k + 1;
        }
    }
    r
}

/// The businesses of the plain economy bootstrap, each under a fresh
/// identifier.
pub fn bootstrap_market_businesses(markets: &Vec<Market>, business_names: &Vec<String>) -> (r: Vec<MarketBusiness>)
    requires
        business_names@.len() == markets@.len() * BUSINESSES_PER_MARKET,
    ensures
        r@.len() == business_names@.len(),
        forall|i: int|
            0 <= i < r@.len() ==> {
                &&& (#[trigger] r@[i]).name == business_names@[i]
                &&& r@[i].market_uuid == markets@[i / (BUSINESSES_PER_MARKET as int)].uuid
                &&& r@[i].operational_expenses == INITIAL_OPERATIONAL_EXPENSES
                &&& is_uuid_v7(r@[i].uuid)
            },
        forall|i: int, j: int| 0 <= i < j < r@.len() ==> r@[i].uuid < r@[j].uuid,
{
    let uuids = fresh_uuids(business_names.len());
    let r = businesses_per_market(markets, &uuids, business_names);
    assert forall|i: int| 0 <= i < r@.len() implies is_uuid_v7(#[trigger] r@[i].uuid) by {
        assert(r@[i] == market_business_at(markets@, uuids@, business_names@, i));
    }
    assert forall|i: int, j: int| 0 <= i < j < r@.len() implies r@[i].uuid < r@[j].uuid by {
        assert(r@[i] == market_business_at(markets@, uuids@, business_names@, i));
        assert(r@[j] == market_business_at(markets@, uuids@, business_names@, j));
    }
    r
}

/// The market of the business proposed around the `point_index`-th center:
/// the markets are dealt out in turn; none when there is no market (the
/// assignment is refused).
pub fn assigned_market(point_index: usize, market_count: usize) -> (r: Option<usize>)
    ensures
        r == if market_count == 0 {
            None
        } else {
            Some((point_index % market_count) as usize)
        },
{
    if market_count == 0 {
        None
    } else {
        Some(point_index % market_count)
    }
}

/// A proposed business: the market it belongs to and the buildings near
/// its center that it would like to own, in the order they were found.
#[derive(Debug, Clone)]
pub struct BusinessProposal {
    pub market_uuid: u128,
    pub claimed_building_uuids: Vec<u128>,
}

/// A proposal that got at least one building, and the buildings it got.
#[derive(Debug, Clone)]
pub struct ResolvedProposal {
    pub proposal_index: usize,
    pub building_uuids: Vec<u128>,
}

/// The buildings of `claims` that are still free, in order, given the
/// buildings already `taken`; and the taken buildings afterwards. A
/// building claimed twice is only counted once.
pub open spec fn claim_free(claims: Seq<u128>, taken: Set<u128>) -> (Seq<u128>, Set<u128>)
    decreases claims.len(),
{
    if claims.len() == 0 {
        (Seq::empty(), taken)
    } else {
        let (got, t) = claim_free(claims.drop_last(), taken);
        let b = claims.last();
        if t.contains(b) {
            (got, t)
        } else {
            (got.push(b), t.insert(b))
        }
    }
}

/// The proposals resolved in order, first come first served: each building
/// goes to the first proposal that claims it; the proposals that get no
/// building are dropped. Returns, for each remaining proposal, its index
/// and its buildings; and all buildings assigned.
pub open spec fn resolve_claims(ps: Seq<Seq<u128>>) -> (Seq<(int, Seq<u128>)>, Set<u128>)
    decreases ps.len(),
{
    if ps.len() == 0 {
        (Seq::empty(), Set::empty())
    } else {
        let (out, taken) = resolve_claims(ps.drop_last());
        let (got, t) = claim_free(ps.last(), taken);
        if got.len() > 0 {
            (out.push((ps.len() - 1, got)), t)
        } else {
            (out, t)
        }
    }
}

/// All buildings handed out, proposal after proposal.
pub open spec fn assigned_buildings(out: Seq<(int, Seq<u128>)>) -> Seq<u128>
    decreases out.len(),
{
    if out.len() == 0 {
        Seq::empty()
    } else {
        assigned_buildings(out.drop_last()) + out.last().1
    }
}

/// Whether some proposal claims building `x`.
pub open spec fn claimed_by_some(ps: Seq<Seq<u128>>, x: u128) -> bool {
    exists|i: int, j: int| 0 <= i < ps.len() && 0 <= j < ps[i].len() && ps[i][j] == x
}

proof fn lemma_contains_push(s: Seq<u128>, b: u128, x: u128)
    ensures
        s.push(b).contains(x) <==> s.contains(x) || x == b,
{
    if s.contains(x) {
        let k = choose|k: int| 0 <= k < s.len() && s[k] == x;
        assert(s.push(b)[k] == x);
    }
    if x == b {
        assert(s.push(b)[s.len() as int] == x);
    }
    if s.push(b).contains(x) {
        let k = choose|k: int| 0 <= k < s.push(b).len() && s.push(b)[k] == x;
        if k < s.len() {
            assert(s[k] == x);
        }
    }
}

proof fn lemma_contains_concat(a: Seq<u128>, b: Seq<u128>, x: u128)
    ensures
        (a + b).contains(x) <==> a.contains(x) || b.contains(x),
{
    if a.contains(x) {
        let k = choose|k: int| 0 <= k < a.len() && a[k] == x;
        assert((a + b)[k] == x);
    }
    if b.contains(x) {
        let k = choose|k: int| 0 <= k < b.len() && b[k] == x;
        assert((a + b)[a.len() + k] == x);
    }
    if (a + b).contains(x) {
        let k = choose|k: int| 0 <= k < (a + b).len() && (a + b)[k] == x;
        if k < a.len() {
            assert(a[k] == x);
        } else {
            assert(b[k - a.len()] == x);
        }
    }
}

proof fn lemma_claim_free(claims: Seq<u128>, taken: Set<u128>)
    ensures
        ({
            let (got, t) = claim_free(claims, taken);
            &&& got.no_duplicates()
            &&& forall|k: int| 0 <= k < got.len() ==> !taken.contains(#[trigger] got[k])
            &&& forall|x: u128| #[trigger] t.contains(x) <==> taken.contains(x) || got.contains(x)
            &&& forall|x: u128| #[trigger] t.contains(x) <==> taken.contains(x) || claims.contains(x)
        }),
    decreases claims.len(),
{
    if claims.len() > 0 {
        let prefix = claims.drop_last();
        lemma_claim_free(prefix, taken);
        let (got0, t0) = claim_free(prefix, taken);
        let b = claims.last();
        assert(prefix.push(b) =~= claims);
        assert forall|x: u128| claims.contains(x) <==> prefix.contains(x) || x == b by {
            lemma_contains_push(prefix, b, x);
        }
        if !t0.contains(b) {
            let got = got0.push(b);
            assert forall|x: u128| got.contains(x) <==> got0.contains(x) || x == b by {
                lemma_contains_push(got0, b, x);
            }
            assert(!got0.contains(b));
            assert forall|i: int, j: int| 0 <= i < got.len() && 0 <= j < got.len() && i != j implies got[i] != got[j] by {
                if i < got0.len() && j < got0.len() {
                } else if i == got0.len() {
                    assert(got0[j] == got[j]);
                } else {
                    assert(got0[i] == got[i]);
                }
            }
            assert forall|k: int| 0 <= k < got.len() implies !taken.contains(#[trigger] got[k]) by {
                if k < got0.len() {
                    assert(got[k] == got0[k]);
                }
            }
        }
    }
}

proof fn lemma_assigned_push(out: Seq<(int, Seq<u128>)>, e: (int, Seq<u128>))
    ensures
        assigned_buildings(out.push(e)) == assigned_buildings(out) + e.1,
{
    assert(out.push(e).drop_last() =~= out);
}

/// First come, first served: no building is given to two proposals (nor
/// twice to one), the buildings handed out are exactly the buildings some
/// proposal claims, every kept proposal gets at least one building, and the
/// kept proposals stay in their original order.
pub proof fn lemma_resolution_assigns_each_building_once(ps: Seq<Seq<u128>>)
    ensures
        ({
            let (out, taken) = resolve_claims(ps);
            &&& assigned_buildings(out).no_duplicates()
            &&& forall|x: u128| #[trigger] taken.contains(x) <==> assigned_buildings(out).contains(x)
            &&& forall|x: u128| assigned_buildings(out).contains(x) <==> claimed_by_some(ps, x)
            &&& forall|k: int| 0 <= k < out.len() ==> (#[trigger] out[k]).1.len() > 0 && 0 <= out[k].0 < ps.len()
            &&& forall|k: int, l: int| 0 <= k < l < out.len() ==> (#[trigger] out[k]).0 < (#[trigger] out[l]).0
        }),
    decreases ps.len(),
{
    if ps.len() > 0 {
        let prefix = ps.drop_last();
        lemma_resolution_assigns_each_building_once(prefix);
        let (out0, taken0) = resolve_claims(prefix);
        let last = ps.last();
        lemma_claim_free(last, taken0);
        let (got, t) = claim_free(last, taken0);
        let flat0 = assigned_buildings(out0);
        assert forall|x: u128| claimed_by_some(ps, x) <==> claimed_by_some(prefix, x) || last.contains(x) by {
            if claimed_by_some(ps, x) {
                let (i, j) = choose|i: int, j: int| 0 <= i < ps.len() && 0 <= j < ps[i].len() && ps[i][j] == x;
                if i < prefix.len() {
                    assert(prefix[i][j] == x);
                } else {
                    assert(last[j] == x);
                }
            }
            if claimed_by_some(prefix, x) {
                let (i, j) = choose|i: int, j: int| 0 <= i < prefix.len() && 0 <= j < prefix[i].len() && prefix[i][j] == x;
                assert(ps[i][j] == x);
            }
            if last.contains(x) {
                let j = choose|j: int| 0 <= j < last.len() && last[j] == x;
                assert(ps[ps.len() - 1][j] == x);
            }
        }
        if got.len() > 0 {
            let e = (ps.len() - 1, got);
            lemma_assigned_push(out0, e);
            let flat = flat0 + got;
            assert forall|x: u128| flat.contains(x) <==> flat0.contains(x) || got.contains(x) by {
                lemma_contains_concat(flat0, got, x);
            }
            assert forall|i: int, j: int| 0 <= i < flat.len() && 0 <= j < flat.len() && i != j implies flat[i] != flat[j] by {
                if i < flat0.len() && j < flat0.len() {
                    assert(flat[i] == flat0[i] && flat[j] == flat0[j]);
                } else if i >= flat0.len() && j >= flat0.len() {
                    assert(flat[i] == got[i - flat0.len()] && flat[j] == got[j - flat0.len()]);
                } else if i < flat0.len() {
                    assert(flat[i] == flat0[i]);
                    assert(flat[j] == got[j - flat0.len()]);
                    assert(taken0.contains(flat0[i]));
                    assert(!taken0.contains(got[j - flat0.len()]));
                } else {
                    assert(flat[j] == flat0[j]);
                    assert(flat[i] == got[i - flat0.len()]);
                    assert(taken0.contains(flat0[j]));
                    assert(!taken0.contains(got[i - flat0.len()]));
                }
            }
            assert forall|x: u128| flat.contains(x) <==> claimed_by_some(ps, x) by {
                assert(taken0.contains(x) <==> flat0.contains(x));
                assert(flat0.contains(x) <==> claimed_by_some(prefix, x));
                assert(t.contains(x) <==> taken0.contains(x) || got.contains(x));
                assert(t.contains(x) <==> taken0.contains(x) || last.contains(x));
            }
            assert forall|x: u128| t.contains(x) <==> flat.contains(x) by {
                assert(taken0.contains(x) <==> flat0.contains(x));
                assert(t.contains(x) <==> taken0.contains(x) || got.contains(x));
            }
            let out = out0.push(e);
            assert forall|k: int| 0 <= k < out.len() implies (#[trigger] out[k]).1.len() > 0 && 0 <= out[k].0 < ps.len() by {
                if k < out0.len() {
                    assert(out[k] == out0[k]);
                }
            }
            assert forall|k: int, l: int| 0 <= k < l < out.len() implies (#[trigger] out[k]).0 < (#[trigger] out[l]).0 by {
                assert(out[k] == out0[k]);
                if l < out0.len() {
                    assert(out[l] == out0[l]);
                }
            }
        } else {
            assert forall|x: u128| last.contains(x) implies taken0.contains(x) by {
                assert(t.contains(x));
                if !taken0.contains(x) {
                    assert(got.contains(x));
                    let k = choose|k: int| 0 <= k < got.len() && got[k] == x;
                }
            }
            assert forall|x: u128| flat0.contains(x) <==> claimed_by_some(ps, x) by {
                assert(taken0.contains(x) <==> flat0.contains(x));
                assert(flat0.contains(x) <==> claimed_by_some(prefix, x));
            }
            assert forall|x: u128| t.contains(x) <==> flat0.contains(x) by {
                assert(taken0.contains(x) <==> flat0.contains(x));
                assert(t.contains(x) <==> taken0.contains(x) || got.contains(x));
                if got.contains(x) {
                    let k = choose|k: int| 0 <= k < got.len() && got[k] == x;
                }
            }
        }
    }
}

/// The claims of each proposal.
pub open spec fn claims_of(ps: Seq<BusinessProposal>) -> Seq<Seq<u128>> {
    ps.map_values(|p: BusinessProposal| p.claimed_building_uuids@)
}

/// The resolved proposals as (index, buildings) pairs.
pub open spec fn resolved_view(rs: Seq<ResolvedProposal>) -> Seq<(int, Seq<u128>)> {
    rs.map_values(|r: ResolvedProposal| (r.proposal_index as int, r.building_uuids@))
}

/// Assigns the claimed buildings to the proposals, first come first served,
/// and keeps the proposals that got at least one building.
pub fn resolve_business_proposals(proposals: &Vec<BusinessProposal>) -> (resolved: Vec<ResolvedProposal>)
    ensures
        resolved_view(resolved@) == resolve_claims(claims_of(proposals@)).0,
        forall|k: int| 0 <= k < resolved@.len() ==> #[trigger] resolved@[k].proposal_index < proposals@.len(),
{
    broadcast use vstd::std_specs::hash::group_hash_axioms;

    let ghost ps = claims_of(proposals@);
    let mut taken: HashSet<u128> = HashSet::new();
    let mut resolved: Vec<ResolvedProposal> = Vec::new();
    let mut p: usize = 0;
    while p < proposals.len()
        invariant
            ps == claims_of(proposals@),
            0 <= p <= proposals@.len(),
            (resolved_view(resolved@), taken@) == resolve_claims(ps.take(p as int)),
            forall|k: int| 0 <= k < resolved@.len() ==> resolved@[k].proposal_index < p,
        decreases proposals.len() - p,
    {
        let claims = &proposals[p].claimed_building_uuids;
        let ghost taken_before = taken@;
        let mut got: Vec<u128> = Vec::new();
        let mut c: usize = 0;
        while c < claims.len()
            invariant
                0 <= c <= claims@.len(),
                (got@, taken@) == claim_free(claims@.take(c as int), taken_before),
            decreases claims.len() - c,
        {
            let b = claims[c];
            proof {
                assert(claims@.take(c + 1).drop_last() =~= claims@.take(c as int));
            }
            if taken.insert(b) {
                got.push(b);
            }
            c = c + 1;
        }
        proof {
            assert(claims@.take(c as int) =~= claims@);
            assert(ps.take(p + 1).drop_last() =~= ps.take(p as int));
            assert(ps[p as int] == claims@);
        }
        let ghost old_resolved = resolved@;
        if got.len() > 0 {
            resolved.push(ResolvedProposal { proposal_index: p, building_uuids: got });
            proof {
                assert(resolved_view(resolved@) =~= resolved_view(old_resolved).push(
                    (p as int, resolved@.last().building_uuids@),
                ));
            }
        }
        p = p + 1;
    }
    proof {
        assert(ps.take(p as int) =~= ps);
    }
    resolved
}


/// A building owned by a business.
#[derive(Debug, Clone, Copy, PartialEq, Eq, Structural)]
pub struct BuildingOwnership {
    pub owning_business_uuid: u128,
    pub building_uuid: u128,
}

/// A business made from a resolved proposal: its identifier, its market,
/// the central point it was proposed around and its operational expenses.
/// The caller adds the name and the center's coordinates.
#[derive(Debug, Clone, Copy, PartialEq, Eq, Structural)]
pub struct BusinessRecord {
    pub uuid: u128,
    pub market_uuid: u128,
    pub market_name: MarketName,
    pub point_index: usize,
    pub operational_expenses: i64,
}

/// The business made from resolved proposal `r` under identifier `uuid`:
/// the market is dealt out by the index of the central point the proposal
/// was made around (`proposal_points`), and the expenses start at zero.
pub open spec fn business_of(r: ResolvedProposal, proposal_points: Seq<usize>, markets: Seq<Market>, uuid: u128) -> BusinessRecord {
    let p = proposal_points[r.proposal_index as int];
    let m = markets[(p as int) % (markets.len() as int)];
    BusinessRecord { uuid, market_uuid: m.uuid, market_name: m.name, point_index: p, operational_expenses: 0 }
}

/// The ownership rows of one business: one per building it got.
pub open spec fn rows_of(buildings: Seq<u128>, owner: u128) -> Seq<BuildingOwnership> {
    buildings.map_values(|b: u128| BuildingOwnership { owning_business_uuid: owner, building_uuid: b })
}

/// The ownership rows of all businesses, in order: the `i`-th resolved
/// proposal's buildings owned by `uuids[i]`.
pub open spec fn ownership_rows(rs: Seq<ResolvedProposal>, uuids: Seq<u128>) -> Seq<BuildingOwnership>
    decreases rs.len(),
{
    if rs.len() == 0 {
        Seq::empty()
    } else {
        ownership_rows(rs.drop_last(), uuids) + rows_of(rs.last().building_uuids@, uuids[rs.len() - 1])
    }
}

proof fn lemma_ownership_rows_owned(rs: Seq<ResolvedProposal>, uuids: Seq<u128>)
    ensures
        ownership_rows(rs, uuids).len() >= 0,
        forall|j: int|
            0 <= j < ownership_rows(rs, uuids).len() ==> exists|i: int|
                0 <= i < rs.len() && (#[trigger] ownership_rows(rs, uuids)[j]).owning_business_uuid == uuids[i]
                    && rs[i].building_uuids@.contains(ownership_rows(rs, uuids)[j].building_uuid),
    decreases rs.len(),
{
    if rs.len() > 0 {
        let prefix = rs.drop_last();
        lemma_ownership_rows_owned(prefix, uuids);
        let head = ownership_rows(prefix, uuids);
        let tail = rows_of(rs.last().building_uuids@, uuids[rs.len() - 1]);
        assert forall|j: int|
            0 <= j < ownership_rows(rs, uuids).len() implies exists|i: int|
                0 <= i < rs.len() && (#[trigger] ownership_rows(rs, uuids)[j]).owning_business_uuid == uuids[i]
                    && rs[i].building_uuids@.contains(ownership_rows(rs, uuids)[j].building_uuid) by {
            if j < head.len() {
                let i = choose|i: int|
                    0 <= i < prefix.len() && (#[trigger] head[j]).owning_business_uuid == uuids[i]
                        && prefix[i].building_uuids@.contains(head[j].building_uuid);
                assert(prefix[i] == rs[i]);
            } else {
                let k = j - head.len();
                assert(tail[k].building_uuid == rs.last().building_uuids@[k]);
                assert(rs[rs.len() - 1].building_uuids@.contains(tail[k].building_uuid));
            }
        }
    }
}

/// The ownership rows name, in order, exactly the buildings handed out to
/// the resolved proposals.
proof fn lemma_ownership_rows_buildings(rs: Seq<ResolvedProposal>, uuids: Seq<u128>)
    ensures
        ownership_rows(rs, uuids).len() == assigned_buildings(resolved_view(rs)).len(),
        forall|j: int|
            0 <= j < ownership_rows(rs, uuids).len() ==> (#[trigger] ownership_rows(rs, uuids)[j]).building_uuid
                == assigned_buildings(resolved_view(rs))[j],
    decreases rs.len(),
{
    if rs.len() > 0 {
        let prefix = rs.drop_last();
        lemma_ownership_rows_buildings(prefix, uuids);
        let last = rs.last();
        let e = (last.proposal_index as int, last.building_uuids@);
        assert(resolved_view(rs) =~= resolved_view(prefix).push(e));
        lemma_assigned_push(resolved_view(prefix), e);
        let head = ownership_rows(prefix, uuids);
        let tail = rows_of(last.building_uuids@, uuids[rs.len() - 1]);
        let flat0 = assigned_buildings(resolved_view(prefix));
        assert forall|j: int|
            0 <= j < ownership_rows(rs, uuids).len() implies (#[trigger] ownership_rows(rs, uuids)[j]).building_uuid
                == assigned_buildings(resolved_view(rs))[j] by {
            if j < head.len() {
                assert(ownership_rows(rs, uuids)[j] == head[j]);
                assert(assigned_buildings(resolved_view(rs))[j] == flat0[j]);
            } else {
                let k = j - head.len();
                assert(ownership_rows(rs, uuids)[j] == tail[k]);
                assert(assigned_buildings(resolved_view(rs))[j] == last.building_uuids@[k]);
            }
        }
    }
}

/// Building the businesses from the resolution of `proposals` gives every
/// claimed building exactly one owner: the buildings named by the ownership
/// rows are pairwise distinct, each was claimed by some proposal, and each
/// claimed building is named by a row.
pub proof fn lemma_built_ownerships_cover_claims_once(
    proposals: Seq<BusinessProposal>,
    resolved: Seq<ResolvedProposal>,
    business_uuids: Seq<u128>,
)
    requires
        resolved_view(resolved) == resolve_claims(claims_of(proposals)).0,
    ensures
        ({
            let rows = ownership_rows(resolved, business_uuids);
            &&& forall|i: int, j: int|
                0 <= i < j < rows.len() ==> (#[trigger] rows[i]).building_uuid != (#[trigger] rows[j]).building_uuid
            &&& forall|j: int| 0 <= j < rows.len() ==> claimed_by_some(claims_of(proposals), (#[trigger] rows[j]).building_uuid)
            &&& forall|x: u128|
                claimed_by_some(claims_of(proposals), x) ==> exists|j: int|
                    0 <= j < rows.len() && (#[trigger] rows[j]).building_uuid == x
        }),
{
    let ps = claims_of(proposals);
    lemma_resolution_assigns_each_building_once(ps);
    lemma_ownership_rows_buildings(resolved, business_uuids);
    let rows = ownership_rows(resolved, business_uuids);
    let flat = assigned_buildings(resolved_view(resolved));
    assert forall|i: int, j: int|
        0 <= i < j < rows.len() implies (#[trigger] rows[i]).building_uuid != (#[trigger] rows[j]).building_uuid by {
        assert(rows[i].building_uuid == flat[i]);
        assert(rows[j].building_uuid == flat[j]);
    }
    assert forall|j: int| 0 <= j < rows.len() implies claimed_by_some(ps, (#[trigger] rows[j]).building_uuid) by {
        assert(rows[j].building_uuid == flat[j]);
        assert(flat.contains(flat[j]));
    }
    assert forall|x: u128| claimed_by_some(ps, x) implies exists|j: int|
        0 <= j < rows.len() && (#[trigger] rows[j]).building_uuid == x by {
        assert(flat.contains(x));
        let j = choose|j: int| 0 <= j < flat.len() && flat[j] == x;
        assert(rows[j].building_uuid == flat[j]);
    }
}

/// Whether ownership `o` belongs to one of the businesses `bs` and names a
/// building that business's proposal got.
pub open spec fn owned_by_business(bs: Seq<BusinessRecord>, rs: Seq<ResolvedProposal>, o: BuildingOwnership) -> bool {
    exists|i: int|
        0 <= i < bs.len() && o.owning_business_uuid == (#[trigger] bs[i]).uuid && rs[i].building_uuids@.contains(
            o.building_uuid,
        )
}

/// The businesses and their building ownerships, one business per resolved
/// proposal in order, under the identifiers `business_uuids` in order.
pub fn build_businesses(
    resolved: &Vec<ResolvedProposal>,
    proposal_points: &Vec<usize>,
    markets: &Vec<Market>,
    business_uuids: &Vec<u128>,
) -> (r: (Vec<BusinessRecord>, Vec<BuildingOwnership>))
    requires
        markets@.len() > 0,
        business_uuids@.len() == resolved@.len(),
        forall|i: int, j: int|
            0 <= i < j < business_uuids@.len() ==> business_uuids@[i] != business_uuids@[j],
        forall|k: int| 0 <= k < resolved@.len() ==> #[trigger] resolved@[k].proposal_index < proposal_points@.len(),
    ensures
        r.0@.len() == resolved@.len(),
        forall|i: int|
            0 <= i < r.0@.len() ==> #[trigger] r.0@[i] == business_of(
                resolved@[i],
                proposal_points@,
                markets@,
                business_uuids@[i],
            ),
        forall|i: int, j: int| 0 <= i < j < r.0@.len() ==> r.0@[i].uuid != r.0@[j].uuid,
        r.1@ == ownership_rows(resolved@, business_uuids@),
        forall|j: int| 0 <= j < r.1@.len() ==> owned_by_business(r.0@, resolved@, #[trigger] r.1@[j]),
        r.1@.len() == assigned_buildings(resolved_view(resolved@)).len(),
        forall|j: int|
            0 <= j < r.1@.len() ==> (#[trigger] r.1@[j]).building_uuid == assigned_buildings(resolved_view(resolved@))[j],
{
    let mut businesses: Vec<BusinessRecord> = Vec::new();
    let mut ownerships: Vec<BuildingOwnership> = Vec::new();
    let mut i: usize = 0;
    while i < resolved.len()
        invariant
            0 <= i <= resolved@.len(),
            markets@.len() > 0,
            business_uuids@.len() == resolved@.len(),
            forall|k: int| 0 <= k < resolved@.len() ==> #[trigger] resolved@[k].proposal_index < proposal_points@.len(),
            businesses@.len() == i,
            forall|k: int|
                0 <= k < i ==> #[trigger] businesses@[k] == business_of(
                    resolved@[k],
                    proposal_points@,
                    markets@,
                    business_uuids@[k],
                ),
            ownerships@ == ownership_rows(resolved@.take(i as int), business_uuids@),
        decreases resolved.len() - i,
    {
        let proposal = &resolved[i];
        let point = proposal_points[proposal.proposal_index];
        let market = &markets[point % markets.len()];
        let uuid = business_uuids[i];
        businesses.push(
            BusinessRecord {
                uuid,
                market_uuid: market.uuid,
                market_name: market.name,
                point_index: point,
                operational_expenses: 0,
            },
        );
        let ghost before = ownerships@;
        let buildings = &proposal.building_uuids;
        let mut b: usize = 0;
        while b < buildings.len()
            invariant
                0 <= b <= buildings@.len(),
                ownerships@ == before + rows_of(buildings@.take(b as int), uuid),
            decreases buildings.len() - b,
        {
            ownerships.push(BuildingOwnership { owning_business_uuid: uuid, building_uuid: buildings[b] });
            proof {
                assert(rows_of(buildings@.take(b + 1), uuid) =~= rows_of(buildings@.take(b as int), uuid).push(
                    BuildingOwnership { owning_business_uuid: uuid, building_uuid: buildings@[b as int] },
                ));
            }
            b = b + 1;
        }
        proof {
            assert(buildings@.take(b as int) =~= buildings@);
            assert(resolved@.take(i + 1).drop_last() =~= resolved@.take(i as int));
            assert(resolved@.take(i + 1).last() == resolved@[i as int]);
            assert(ownerships@ =~= ownership_rows(resolved@.take(i + 1), business_uuids@));
        }
        i = i + 1;
    }
    proof {
        assert(resolved@.take(i as int) =~= resolved@);
        lemma_ownership_rows_owned(resolved@, business_uuids@);
        lemma_ownership_rows_buildings(resolved@, business_uuids@);
    }
    let r = (businesses, ownerships);
    proof {
        assert forall|j: int| 0 <= j < r.1@.len() implies owned_by_business(r.0@, resolved@, #[trigger] r.1@[j]) by {
            let k = choose|k: int|
                0 <= k < resolved@.len() && (#[trigger] ownership_rows(resolved@, business_uuids@)[j]).owning_business_uuid
                    == business_uuids@[k] && resolved@[k].building_uuids@.contains(
                    ownership_rows(resolved@, business_uuids@)[j].building_uuid,
                );
            assert(r.0@[k].uuid == business_uuids@[k]);
        }
    }
    r
}

/// The identifiers of `bs`, in order.
pub open spec fn record_uuids(bs: Seq<BusinessRecord>) -> Seq<u128> {
    bs.map_values(|b: BusinessRecord| b.uuid)
}

/// The businesses and their building ownerships, one business per resolved
/// proposal in order, each under a fresh identifier; the identifiers
/// increase in that order.
pub fn build_businesses_with_fresh_ids(
    resolved: &Vec<ResolvedProposal>,
    proposal_points: &Vec<usize>,
    markets: &Vec<Market>,
) -> (r: (Vec<BusinessRecord>, Vec<BuildingOwnership>))
    requires
        markets@.len() > 0,
        forall|k: int| 0 <= k < resolved@.len() ==> #[trigger] resolved@[k].proposal_index < proposal_points@.len(),
    ensures
        r.0@.len() == resolved@.len(),
        forall|i: int|
            0 <= i < r.0@.len() ==> #[trigger] r.0@[i] == business_of(
                resolved@[i],
                proposal_points@,
                markets@,
                r.0@[i].uuid,
            ) && is_uuid_v7(r.0@[i].uuid),
        forall|i: int, j: int| 0 <= i < j < r.0@.len() ==> r.0@[i].uuid < r.0@[j].uuid,
        r.1@ == ownership_rows(resolved@, record_uuids(r.0@)),
        forall|j: int| 0 <= j < r.1@.len() ==> owned_by_business(r.0@, resolved@, #[trigger] r.1@[j]),
        r.1@.len() == assigned_buildings(resolved_view(resolved@)).len(),
        forall|j: int|
            0 <= j < r.1@.len() ==> (#[trigger] r.1@[j]).building_uuid == assigned_buildings(resolved_view(resolved@))[j],
{
    let ids = fresh_uuids(resolved.len());
    let r = build_businesses(resolved, proposal_points, markets, &ids);
    assert(record_uuids(r.0@) =~= ids@) by {
        assert forall|i: int| 0 <= i < ids@.len() implies record_uuids(r.0@)[i] == ids@[i] by {
            assert(r.0@[i] == business_of(resolved@[i], proposal_points@, markets@, ids@[i]));
        }
    }
    assert forall|i: int| 0 <= i < r.0@.len() implies #[trigger] r.0@[i] == business_of(
        resolved@[i],
        proposal_points@,
        markets@,
        r.0@[i].uuid,
    ) && is_uuid_v7(r.0@[i].uuid) by {
        assert(r.0@[i] == business_of(resolved@[i], proposal_points@, markets@, ids@[i]));
    }
    assert forall|i: int, j: int| 0 <= i < j < r.0@.len() implies r.0@[i].uuid < r.0@[j].uuid by {
        assert(r.0@[i] == business_of(resolved@[i], proposal_points@, markets@, ids@[i]));
        assert(r.0@[j] == business_of(resolved@[j], proposal_points@, markets@, ids@[j]));
    }
    r
}

/// What the economy bootstrap waits for.
#[derive(Debug, Clone, Copy, PartialEq, Eq, Structural)]
pub enum EconomyBootstrapStage {
    CheckingFlag,
    Locking,
    Preparing,
    CheckingFlagUnderLock,
    Inserting,
    Unlocking,
    Finished,
}

/// What the caller of the economy bootstrap has to do next.
#[derive(Debug, PartialEq, Eq)]
pub enum EconomyBootstrapAction {
    /// Ask whether the database initialization flag is set.
    CheckFlag,
    /// Take the initialization advisory lock.
    AcquireLock,
    /// Build the markets, businesses, listings, buildings and ownerships.
    Prepare,
    /// In a transaction, ask again whether the flag is set.
    CheckFlagUnderLock,
    /// In the same transaction, insert everything prepared and set the flag.
    InsertAndSetFlag,
    /// The advisory lock call that ends the bootstrap.
    ReleaseLock,
    /// The bootstrap is over, with this result.
    Finish(Result<(), ApplicationError>),
}

/// The outcome of the last action of the economy bootstrap.
#[derive(Debug, PartialEq, Eq)]
pub enum EconomyBootstrapEvent {
    /// Whether the flag is set (or why it could not be read).
    Flag(Result<bool, ApplicationError>),
    /// The outcome of any other action.
    Done(Result<(), ApplicationError>),
}

/// The next stage and action of the economy bootstrap after `event` in
/// `stage`: a database whose flag is set, before or under the lock, is left
/// alone; any failure ends the bootstrap with it.
pub open spec fn economy_step(stage: EconomyBootstrapStage, event: EconomyBootstrapEvent) -> (
    EconomyBootstrapStage,
    EconomyBootstrapAction,
) {
    match event {
        EconomyBootstrapEvent::Flag(Err(e)) => (EconomyBootstrapStage::Finished, EconomyBootstrapAction::Finish(Err(e))),
        EconomyBootstrapEvent::Done(Err(e)) => (EconomyBootstrapStage::Finished, EconomyBootstrapAction::Finish(Err(e))),
        EconomyBootstrapEvent::Flag(Ok(true)) => if stage == EconomyBootstrapStage::CheckingFlagUnderLock {
            (EconomyBootstrapStage::Unlocking, EconomyBootstrapAction::ReleaseLock)
        } else {
            (EconomyBootstrapStage::Finished, EconomyBootstrapAction::Finish(Ok(())))
        },
        EconomyBootstrapEvent::Flag(Ok(false)) => if stage == EconomyBootstrapStage::CheckingFlagUnderLock {
            (EconomyBootstrapStage::Inserting, EconomyBootstrapAction::InsertAndSetFlag)
        } else {
            (EconomyBootstrapStage::Locking, EconomyBootstrapAction::AcquireLock)
        },
        EconomyBootstrapEvent::Done(Ok(())) => match stage {
            EconomyBootstrapStage::Locking => (EconomyBootstrapStage::Preparing, EconomyBootstrapAction::Prepare),
            EconomyBootstrapStage::Preparing => (
                EconomyBootstrapStage::CheckingFlagUnderLock,
                EconomyBootstrapAction::CheckFlagUnderLock,
            ),
            EconomyBootstrapStage::Inserting => (EconomyBootstrapStage::Unlocking, EconomyBootstrapAction::ReleaseLock),
            _ => (EconomyBootstrapStage::Finished, EconomyBootstrapAction::Finish(Ok(()))),
        },
    }
}

/// Whether `event` is an outcome the economy bootstrap waits for in `stage`.
pub open spec fn economy_event_expected(stage: EconomyBootstrapStage, event: EconomyBootstrapEvent) -> bool {
    match stage {
        EconomyBootstrapStage::CheckingFlag | EconomyBootstrapStage::CheckingFlagUnderLock => event is Flag,
        EconomyBootstrapStage::Finished => false,
        _ => event is Done,
    }
}

/// The economy bootstrap: the flag is checked, the advisory lock taken, the
/// economy prepared, and, in one transaction, the flag checked again before
/// everything is inserted and the flag set.
#[derive(Debug)]
pub struct BootstrapEconomyUseCase {
    pub stage: EconomyBootstrapStage,
}

impl BootstrapEconomyUseCase {
    /// Starts the bootstrap: the flag is checked first.
    pub fn start() -> (r: (Self, EconomyBootstrapAction))
        ensures
            r.0.stage == EconomyBootstrapStage::CheckingFlag,
            r.1 == EconomyBootstrapAction::CheckFlag,
    {
        (BootstrapEconomyUseCase { stage: EconomyBootstrapStage::CheckingFlag }, EconomyBootstrapAction::CheckFlag)
    }

    /// Advances with the outcome of the last action.
    pub fn step(&mut self, event: EconomyBootstrapEvent) -> (a: EconomyBootstrapAction)
        requires
            economy_event_expected(old(self).stage, event),
        ensures
            (final(self).stage, a) == economy_step(old(self).stage, event),
    {
        let under_lock = self.stage == EconomyBootstrapStage::CheckingFlagUnderLock;
        let (next, action) = match event {
            EconomyBootstrapEvent::Flag(Err(e)) => (EconomyBootstrapStage::Finished, EconomyBootstrapAction::Finish(Err(e))),
            EconomyBootstrapEvent::Done(Err(e)) => (EconomyBootstrapStage::Finished, EconomyBootstrapAction::Finish(Err(e))),
            EconomyBootstrapEvent::Flag(Ok(true)) => {
                if under_lock {
                    (EconomyBootstrapStage::Unlocking, EconomyBootstrapAction::ReleaseLock)
                } else {
                    (EconomyBootstrapStage::Finished, EconomyBootstrapAction::Finish(Ok(())))
                }
            },
            EconomyBootstrapEvent::Flag(Ok(false)) => {
                if under_lock {
                    (EconomyBootstrapStage::Inserting, EconomyBootstrapAction::InsertAndSetFlag)
                } else {
                    (EconomyBootstrapStage::Locking, EconomyBootstrapAction::AcquireLock)
                }
            },
            EconomyBootstrapEvent::Done(Ok(())) => match self.stage {
                EconomyBootstrapStage::Locking => (EconomyBootstrapStage::Preparing, EconomyBootstrapAction::Prepare),
                EconomyBootstrapStage::Preparing => (
                    EconomyBootstrapStage::CheckingFlagUnderLock,
                    EconomyBootstrapAction::CheckFlagUnderLock,
                ),
                EconomyBootstrapStage::Inserting => (EconomyBootstrapStage::Unlocking, EconomyBootstrapAction::ReleaseLock),
                _ => (EconomyBootstrapStage::Finished, EconomyBootstrapAction::Finish(Ok(()))),
            },
        };
        self.stage = next;
        action
    }
}

/// On a database whose flag is not set, the bootstrap takes the lock,
/// prepares the economy, checks the flag again under the lock, inserts
/// everything and sets the flag, and then ends the lock; when every step
/// succeeds it succeeds.
pub proof fn lemma_economy_bootstrap_sequence()
    ensures
        ({
            let (s1, a1) = economy_step(EconomyBootstrapStage::CheckingFlag, EconomyBootstrapEvent::Flag(Ok(false)));
            let (s2, a2) = economy_step(s1, EconomyBootstrapEvent::Done(Ok(())));
            let (s3, a3) = economy_step(s2, EconomyBootstrapEvent::Done(Ok(())));
            let (s4, a4) = economy_step(s3, EconomyBootstrapEvent::Flag(Ok(false)));
            let (s5, a5) = economy_step(s4, EconomyBootstrapEvent::Done(Ok(())));
            let (s6, a6) = economy_step(s5, EconomyBootstrapEvent::Done(Ok(())));
            &&& a1 == EconomyBootstrapAction::AcquireLock
            &&& a2 == EconomyBootstrapAction::Prepare
            &&& a3 == EconomyBootstrapAction::CheckFlagUnderLock
            &&& a4 == EconomyBootstrapAction::InsertAndSetFlag
            &&& a5 == EconomyBootstrapAction::ReleaseLock
            &&& a6 == EconomyBootstrapAction::Finish(Ok(()))
            &&& s6 == EconomyBootstrapStage::Finished
        }),
{
}

/// Nothing is inserted unless the flag was found unset under the lock, and
/// a flag set by another instance in the meantime leaves the database
/// alone (the bootstrap only ends the lock and succeeds).
pub proof fn lemma_economy_inserts_only_when_flag_unset_under_lock(
    stage: EconomyBootstrapStage,
    event: EconomyBootstrapEvent,
)
    ensures
        economy_step(stage, event).1 == EconomyBootstrapAction::InsertAndSetFlag ==> stage
            == EconomyBootstrapStage::CheckingFlagUnderLock && event == EconomyBootstrapEvent::Flag(Ok(false)),
        economy_step(EconomyBootstrapStage::CheckingFlagUnderLock, EconomyBootstrapEvent::Flag(Ok(true)))
            == (EconomyBootstrapStage::Unlocking, EconomyBootstrapAction::ReleaseLock),
        economy_step(EconomyBootstrapStage::CheckingFlag, EconomyBootstrapEvent::Flag(Ok(true))) == (
            EconomyBootstrapStage::Finished,
            EconomyBootstrapAction::Finish(Ok(())),
        ),
{
}

/// Any failure ends the economy bootstrap with that very failure, whatever
/// it was waiting for; and the bootstrap only succeeds in answer to a
/// successful outcome.
pub proof fn lemma_economy_bootstrap_propagates_failures(
    stage: EconomyBootstrapStage,
    event: EconomyBootstrapEvent,
    e: ApplicationError,
)
    ensures
        economy_step(stage, EconomyBootstrapEvent::Flag(Err(e))) == (
            EconomyBootstrapStage::Finished,
            EconomyBootstrapAction::Finish(Err(e)),
        ),
        economy_step(stage, EconomyBootstrapEvent::Done(Err(e))) == (
            EconomyBootstrapStage::Finished,
            EconomyBootstrapAction::Finish(Err(e)),
        ),
        economy_step(stage, event).1 == EconomyBootstrapAction::Finish(Ok(())) ==> (event matches EconomyBootstrapEvent::Flag(Ok(_))
            || event matches EconomyBootstrapEvent::Done(Ok(_))),
        economy_step(stage, event).1 matches EconomyBootstrapAction::Finish(Err(x)) ==> (event
            == EconomyBootstrapEvent::Flag(Err(x)) || event == EconomyBootstrapEvent::Done(Err(x))),
        economy_step(stage, event).1 is Finish <==> economy_step(stage, event).0 == EconomyBootstrapStage::Finished,
{
}

/// How the businesses are made: the business built from a resolved
/// proposal is in the market dealt out to the central point the proposal
/// was made around (the markets in turn: point `p` gets market `p` modulo
/// the number of markets), remembers that point, and starts without
/// operational expenses; in the plain bootstrap, the markets take the
/// businesses in blocks of `BUSINESSES_PER_MARKET` in market order, each
/// with the initial operational expenses; and every business of a kept
/// proposal owns exactly the buildings that proposal got.
pub proof fn lemma_business_makeup(
    r: ResolvedProposal,
    proposal_points: Seq<usize>,
    markets: Seq<Market>,
    uuid: u128,
    plain_uuids: Seq<u128>,
    names: Seq<String>,
    i: int,
    owner: u128,
)
    requires
        markets.len() > 0,
        r.proposal_index < proposal_points.len(),
        0 <= i < markets.len() * 50,
    ensures
        ({
            let b = business_of(r, proposal_points, markets, uuid);
            let p = proposal_points[r.proposal_index as int];
            &&& b.uuid == uuid
            &&& b.point_index == p
            &&& exists|k: int| 0 <= k < markets.len() && (p as int) - k == (p as int) / (markets.len() as int) * (
                markets.len() as int) && b.market_uuid == markets[k].uuid && b.market_name == markets[k].name
            &&& b.operational_expenses == 0
        }),
        ({
            let m = market_business_at(markets, plain_uuids, names, i);
            &&& m.uuid == plain_uuids[i]
            &&& m.name == names[i]
            &&& exists|k: int| 0 <= k < markets.len() && k * 50 <= i < k * 50 + 50 && m.market_uuid == markets[k].uuid
            &&& m.operational_expenses == 10
        }),
        rows_of(r.building_uuids@, owner).len() == r.building_uuids@.len(),
        forall|j: int|
            0 <= j < r.building_uuids@.len() ==> #[trigger] rows_of(r.building_uuids@, owner)[j] == (BuildingOwnership {
                owning_business_uuid: owner,
                building_uuid: r.building_uuids@[j],
            }),
{
    let n = markets.len() as int;
    let p = proposal_points[r.proposal_index as int] as int;
    let k = p % n;
    assert(p - k == p / n * n) by (nonlinear_arith)
        requires
            n > 0,
            k == p % n,
    ;
    assert(0 <= k < n) by (nonlinear_arith)
        requires
            n > 0,
            k == p % n,
    ;
    let q = i / 50;
    assert(0 <= q < n && q * 50 <= i < q * 50 + 50) by (nonlinear_arith)
        requires
            q == i / 50,
            0 <= i < n * 50,
    ;
}

/// Renaming a corporation: the corporation repository and the action
/// queue it works with.
pub struct UpdateCorporationUseCase<CRP, Q> {
    corporation_repo: Arc<CRP>,
    action_queuer: Arc<Q>,
}

impl<CRP, Q> UpdateCorporationUseCase<CRP, Q> {
    /// The use case over these collaborators.
    pub fn new(corporation_repo: Arc<CRP>, action_queuer: Arc<Q>) -> (r: Self)
        ensures
            r.corporation_repo() == corporation_repo,
            r.action_queuer() == action_queuer,
    {
        UpdateCorporationUseCase { corporation_repo, action_queuer }
    }

    /// The corporation repository.
    pub closed spec fn corporation_repo(&self) -> Arc<CRP> {
        self.corporation_repo
    }

    /// The action queue.
    pub closed spec fn action_queuer(&self) -> Arc<Q> {
        self.action_queuer
    }

    /// The corporation repository the use case reads from.
    pub fn corporation_repository(&self) -> (r: &Arc<CRP>)
        ensures
            *r == self.corporation_repo(),
    {
        &self.corporation_repo
    }

    /// The queue the use case sends its action to.
    pub fn action_queue(&self) -> (r: &Arc<Q>)
        ensures
            *r == self.action_queuer(),
    {
        &self.action_queuer
    }
}

} // verus!
