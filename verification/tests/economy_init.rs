use std::sync::Arc;
use syndicode::server::economy::{
    build_businesses, build_businesses_with_fresh_ids, fresh_uuids, BuildingOwnership, BusinessRecord,
    BootstrapEconomyUseCase, EconomyBootstrapAction, EconomyBootstrapEvent, EconomyBootstrapStage,
    bootstrap_listings, bootstrap_markets, bootstrap_market_businesses, businesses_per_market, MarketBusiness,
    BUSINESSES_PER_MARKET, INITIAL_OPERATIONAL_EXPENSES,
    initial_listings, initial_markets, resolve_business_proposals, BusinessListing, BusinessProposal,
    Market, MarketName, UpdateCorporationUseCase, INITIAL_ASKING_PRICE, INITIAL_MARKET_VOLUME,
};
use syndicode::server::error::{ApplicationError, RepositoryError};
use syndicode::server::init::{BootstrapOrchestrator, InitAction, InitEvent, InitStage, InitializationOrchestrator};

#[test]
fn markets_are_created_in_order() {
    let uuids: Vec<u128> = (1..=10).collect();
    let markets = initial_markets(&uuids);
    assert_eq!(markets.len(), 10);
    assert_eq!(markets[0], Market { uuid: 1, name: MarketName::AutonomousDrone, volume: 1000 });
    assert_eq!(markets[9], Market { uuid: 10, name: MarketName::BlackMarketBio, volume: INITIAL_MARKET_VOLUME });
    assert_eq!(markets[5].name, MarketName::InfoSecCounterIntel);
}

#[test]
fn listings_follow_businesses() {
    let listings = initial_listings(&vec![10, 20], &vec![1, 2]);
    assert_eq!(
        listings,
        vec![
            BusinessListing { uuid: 1, business_uuid: 10, asking_price: 1000 },
            BusinessListing { uuid: 2, business_uuid: 20, asking_price: INITIAL_ASKING_PRICE },
        ]
    );
    assert!(initial_listings(&vec![], &vec![]).is_empty());
}

#[test]
fn buildings_go_to_the_first_claimant() {
    let proposals = vec![
        BusinessProposal { market_uuid: 1, claimed_building_uuids: vec![5, 6, 5] },
        BusinessProposal { market_uuid: 2, claimed_building_uuids: vec![6, 5] },
        BusinessProposal { market_uuid: 3, claimed_building_uuids: vec![6, 7] },
        BusinessProposal { market_uuid: 4, claimed_building_uuids: vec![] },
    ];
    let resolved = resolve_business_proposals(&proposals);
    assert_eq!(resolved.len(), 2);
    assert_eq!(resolved[0].proposal_index, 0);
    assert_eq!(resolved[0].building_uuids, vec![5, 6]);
    assert_eq!(resolved[1].proposal_index, 2);
    assert_eq!(resolved[1].building_uuids, vec![7]);
    assert!(resolve_business_proposals(&vec![]).is_empty());
}

#[test]
fn update_corporation_keeps_its_collaborators() {
    let repo = Arc::new(3u8);
    let queue = Arc::new("queue".to_string());
    let uc = UpdateCorporationUseCase::new(repo.clone(), queue.clone());
    assert_eq!(**uc.corporation_repository(), 3);
    assert_eq!(uc.action_queue().as_str(), "queue");
}

#[test]
fn initialization_bootstraps_a_fresh_database() {
    let (mut o, a) = InitializationOrchestrator::start(None);
    assert_eq!(a, InitAction::RunMigration);
    assert_eq!(o.step(InitEvent::Done(Ok(()))), InitAction::CheckFlag);
    assert_eq!(o.step(InitEvent::Flag(Ok(false))), InitAction::BootstrapAdmin);
    assert_eq!(o.step(InitEvent::Done(Ok(()))), InitAction::BootstrapEconomy);
    assert_eq!(o.step(InitEvent::Done(Ok(()))), InitAction::SetFlag);
    assert_eq!(o.step(InitEvent::Done(Ok(()))), InitAction::Finish(Ok(())));
    assert_eq!(o.stage, InitStage::Finished);
}

#[test]
fn initialization_restores_a_backup() {
    let (mut o, a) = InitializationOrchestrator::start(Some("https://backup".to_string()));
    assert_eq!(a, InitAction::CheckFlag);
    assert_eq!(o.step(InitEvent::Flag(Ok(false))), InitAction::Download("https://backup".to_string()));
    assert_eq!(o.step(InitEvent::Done(Ok(()))), InitAction::Restore);
    assert_eq!(o.step(InitEvent::Done(Ok(()))), InitAction::SetFlag);
    assert_eq!(o.step(InitEvent::Done(Ok(()))), InitAction::Finish(Ok(())));
}

#[test]
fn initialization_migrates_then_skips_initialized_database_and_stops_on_error() {
    // The migrations run even when the database turns out to be initialized.
    let (mut o, a) = InitializationOrchestrator::start(None);
    assert_eq!(a, InitAction::RunMigration);
    assert_eq!(o.step(InitEvent::Done(Ok(()))), InitAction::CheckFlag);
    assert_eq!(o.step(InitEvent::Flag(Ok(true))), InitAction::Finish(Ok(())));

    let (mut o, _) = InitializationOrchestrator::start(None);
    let err = ApplicationError::Other("DB migration failed".to_string());
    assert_eq!(o.step(InitEvent::Done(Err(err.clone()))), InitAction::Finish(Err(err)));
    assert_eq!(o.stage, InitStage::Finished);

    let (mut o, _) = InitializationOrchestrator::start(None);
    o.step(InitEvent::Done(Ok(())));
    let err = ApplicationError::Database(RepositoryError::NotFound);
    assert_eq!(o.step(InitEvent::Flag(Err(err.clone()))), InitAction::Finish(Err(err)));

    let (mut o, _) = InitializationOrchestrator::start(Some("u".to_string()));
    assert_eq!(o.step(InitEvent::Flag(Ok(true))), InitAction::Finish(Ok(())));
}

#[test]
fn bootstrapped_markets_and_listings_get_fresh_ids() {
    let markets = bootstrap_markets();
    assert_eq!(markets.len(), 10);
    assert_eq!(markets[2].name, MarketName::StreetPharm);
    assert!(markets.iter().all(|m| (m.uuid >> 76) & 0xf == 7 && m.volume == 1000));
    let listings = bootstrap_listings(&vec![5, 6, 7]);
    assert_eq!(listings.iter().map(|l| l.business_uuid).collect::<Vec<_>>(), vec![5, 6, 7]);
    assert!(listings.iter().all(|l| (l.uuid >> 76) & 0xf == 7 && l.asking_price == 1000));
}

#[test]
fn economy_bootstrap_inserts_once_under_the_lock() {
    let (mut uc, a) = BootstrapEconomyUseCase::start();
    assert_eq!(a, EconomyBootstrapAction::CheckFlag);
    assert_eq!(uc.step(EconomyBootstrapEvent::Flag(Ok(false))), EconomyBootstrapAction::AcquireLock);
    assert_eq!(uc.step(EconomyBootstrapEvent::Done(Ok(()))), EconomyBootstrapAction::Prepare);
    assert_eq!(uc.step(EconomyBootstrapEvent::Done(Ok(()))), EconomyBootstrapAction::CheckFlagUnderLock);
    assert_eq!(uc.step(EconomyBootstrapEvent::Flag(Ok(false))), EconomyBootstrapAction::InsertAndSetFlag);
    assert_eq!(uc.step(EconomyBootstrapEvent::Done(Ok(()))), EconomyBootstrapAction::ReleaseLock);
    assert_eq!(uc.step(EconomyBootstrapEvent::Done(Ok(()))), EconomyBootstrapAction::Finish(Ok(())));
    assert_eq!(uc.stage, EconomyBootstrapStage::Finished);
}

#[test]
fn economy_bootstrap_skips_initialized_database() {
    let (mut uc, _) = BootstrapEconomyUseCase::start();
    assert_eq!(uc.step(EconomyBootstrapEvent::Flag(Ok(true))), EconomyBootstrapAction::Finish(Ok(())));

    let (mut uc, _) = BootstrapEconomyUseCase::start();
    uc.step(EconomyBootstrapEvent::Flag(Ok(false)));
    uc.step(EconomyBootstrapEvent::Done(Ok(())));
    uc.step(EconomyBootstrapEvent::Done(Ok(())));
    // Another instance finished first.
    assert_eq!(uc.step(EconomyBootstrapEvent::Flag(Ok(true))), EconomyBootstrapAction::ReleaseLock);
    assert_eq!(uc.step(EconomyBootstrapEvent::Done(Ok(()))), EconomyBootstrapAction::Finish(Ok(())));
}

#[test]
fn economy_bootstrap_stops_on_failure() {
    let (mut uc, _) = BootstrapEconomyUseCase::start();
    uc.step(EconomyBootstrapEvent::Flag(Ok(false)));
    let err = ApplicationError::Database(RepositoryError::Database("lock".to_string()));
    assert_eq!(uc.step(EconomyBootstrapEvent::Done(Err(err.clone()))), EconomyBootstrapAction::Finish(Err(err)));
    assert_eq!(uc.stage, EconomyBootstrapStage::Finished);
}

#[test]
fn businesses_are_built_from_resolved_proposals() {
    let markets: Vec<Market> = initial_markets(&(1..=10).collect());
    let proposals = vec![
        BusinessProposal { market_uuid: 1, claimed_building_uuids: vec![5, 6] },
        BusinessProposal { market_uuid: 3, claimed_building_uuids: vec![6, 7] },
    ];
    // The proposals were made around central points 0 and 12.
    let proposal_points = vec![0usize, 12];
    let resolved = resolve_business_proposals(&proposals);
    let (businesses, ownerships) = build_businesses(&resolved, &proposal_points, &markets, &vec![100, 200]);
    assert_eq!(
        businesses,
        vec![
            BusinessRecord {
                uuid: 100,
                market_uuid: 1,
                market_name: MarketName::AutonomousDrone,
                point_index: 0,
                operational_expenses: 0,
            },
            BusinessRecord {
                uuid: 200,
                market_uuid: 3,
                market_name: MarketName::StreetPharm,
                point_index: 12,
                operational_expenses: 0,
            },
        ]
    );
    assert_eq!(
        ownerships,
        vec![
            BuildingOwnership { owning_business_uuid: 100, building_uuid: 5 },
            BuildingOwnership { owning_business_uuid: 100, building_uuid: 6 },
            BuildingOwnership { owning_business_uuid: 200, building_uuid: 7 },
        ]
    );
}

#[test]
fn plain_bootstrap_runs_every_step_in_order() {
    let (mut o, a) = BootstrapOrchestrator::start();
    assert_eq!(a, InitAction::RunMigration);
    assert_eq!(o.step(Ok(())), InitAction::BootstrapAdmin);
    assert_eq!(o.step(Ok(())), InitAction::BootstrapEconomy);
    assert_eq!(o.step(Ok(())), InitAction::SetFlag);
    assert_eq!(o.step(Ok(())), InitAction::Finish(Ok(())));
    let (mut o, _) = BootstrapOrchestrator::start();
    let err = ApplicationError::Other("no database".to_string());
    assert_eq!(o.step(Err(err.clone())), InitAction::Finish(Err(err)));
    assert_eq!(o.stage, InitStage::Finished);
}

#[test]
fn plain_economy_opens_fifty_businesses_per_market() {
    let market_uuids: Vec<u128> = (1..=10).collect();
    let markets = initial_markets(&market_uuids);
    let n = markets.len() * BUSINESSES_PER_MARKET;
    assert_eq!(n, 500);
    let uuids: Vec<u128> = (1000..1000 + n as u128).collect();
    let names: Vec<String> = (0..n).map(|i| format!("Business {}", i)).collect();
    let businesses = businesses_per_market(&markets, &uuids, &names);
    assert_eq!(businesses.len(), 500);
    assert_eq!(
        businesses[0],
        MarketBusiness { uuid: 1000, name: "Business 0".to_string(), market_uuid: 1, operational_expenses: 10 }
    );
    assert_eq!(businesses[49].market_uuid, 1);
    assert_eq!(businesses[50].market_uuid, 2);
    assert_eq!(businesses[499].market_uuid, 10);
    assert_eq!(businesses[499].uuid, 1499);
    assert!(businesses.iter().all(|b| b.operational_expenses == INITIAL_OPERATIONAL_EXPENSES));

    let fresh = bootstrap_market_businesses(&markets, &names);
    assert_eq!(fresh.len(), 500);
    assert_eq!(fresh[120].market_uuid, 3);
    assert_eq!(fresh[120].name, "Business 120");
    assert!(fresh.iter().all(|b| (b.uuid >> 76) & 0xF == 7 && (b.uuid >> 62) & 0x3 == 2));
}

#[test]
fn every_claimed_building_gets_exactly_one_owner() {
    let markets: Vec<Market> = initial_markets(&(1..=10).collect());
    let proposals = vec![
        BusinessProposal { market_uuid: 1, claimed_building_uuids: vec![5, 6, 5] },
        BusinessProposal { market_uuid: 2, claimed_building_uuids: vec![6, 5] },
        BusinessProposal { market_uuid: 3, claimed_building_uuids: vec![8, 6, 9] },
    ];
    let resolved = resolve_business_proposals(&proposals);
    assert_eq!(resolved.len(), 2);
    let (_, ownerships) = build_businesses(&resolved, &vec![0usize, 1, 2], &markets, &vec![100, 300]);
    let mut owned: Vec<u128> = ownerships.iter().map(|o| o.building_uuid).collect();
    assert_eq!(owned, vec![5, 6, 8, 9]);
    owned.sort();
    owned.dedup();
    assert_eq!(owned.len(), ownerships.len());
    assert_eq!(ownerships[3], BuildingOwnership { owning_business_uuid: 300, building_uuid: 9 });
}

#[test]
fn fresh_ids_increase_in_creation_order() {
    let ids = fresh_uuids(1000);
    assert_eq!(ids.len(), 1000);
    assert!(ids.windows(2).all(|w| w[0] < w[1]));
    let markets = bootstrap_markets();
    assert!(markets.windows(2).all(|w| w[0].uuid < w[1].uuid));
    let listings = bootstrap_listings(&vec![7, 7, 9]);
    assert!(listings.windows(2).all(|w| w[0].uuid < w[1].uuid));
}

#[test]
fn businesses_built_with_fresh_ids() {
    let markets: Vec<Market> = initial_markets(&(1..=10).collect());
    let proposals = vec![
        BusinessProposal { market_uuid: 1, claimed_building_uuids: vec![5, 6] },
        BusinessProposal { market_uuid: 3, claimed_building_uuids: vec![6, 7] },
    ];
    let resolved = resolve_business_proposals(&proposals);
    let (businesses, ownerships) = build_businesses_with_fresh_ids(&resolved, &vec![0usize, 12], &markets);
    assert_eq!(businesses.len(), 2);
    assert!(businesses[0].uuid < businesses[1].uuid);
    assert_eq!(businesses[1].market_uuid, 3);
    assert_eq!(
        ownerships,
        vec![
            BuildingOwnership { owning_business_uuid: businesses[0].uuid, building_uuid: 5 },
            BuildingOwnership { owning_business_uuid: businesses[0].uuid, building_uuid: 6 },
            BuildingOwnership { owning_business_uuid: businesses[1].uuid, building_uuid: 7 },
        ]
    );
}
