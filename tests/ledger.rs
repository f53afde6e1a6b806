use conecta_brasil::clock::{remaining_at, remaining_at_order};
use conecta_brasil::ledger::{ConectaBrasil, Payment, LISTED_PACKAGE_ID_MAX};
use conecta_brasil::model::{Access, Error, OrderSession, Session};

const ADMIN: u64 = 1;
const TOKEN: u64 = 2;
const OWNER: u64 = 7;
const OTHER: u64 = 8;

fn catalog() -> ConectaBrasil {
    let mut c = ConectaBrasil::new();
    c.init(ADMIN, TOKEN).unwrap();
    c.set_package(1, 100, 3600, "basic".to_string(), "up_to_10".to_string(), false)
        .unwrap();
    c.set_package(2, 250, 7200, "premium".to_string(), "full_speed".to_string(), true)
        .unwrap();
    c
}

#[test]
fn fresh_owner_session_is_empty() {
    let c = catalog();
    assert_eq!(c.get_session(OWNER), Session { remaining_secs: 0, started_at: 0 });
    assert_eq!(c.remaining(OWNER, 5000), 0);
    assert!(!c.is_active(OWNER, 5000));
    assert_eq!(c.get_user_orders_list(OWNER), Vec::<u128>::new());
}

#[test]
fn successive_orders_get_increasing_ids() {
    let mut c = catalog();
    assert_eq!(c.buy_order(OWNER, 1), Ok(1));
    assert_eq!(c.buy_order(OWNER, 2), Ok(2));
    assert_eq!(c.get_user_orders_list(OWNER), vec![1u128, 2]);
    // ids are counted per owner
    assert_eq!(c.buy_order(OTHER, 1), Ok(1));
    assert_eq!(c.get_user_orders_list(OTHER), vec![1u128]);
}

#[test]
fn grant_is_idempotent() {
    let mut c = catalog();
    let id = c.buy_order(OWNER, 1).unwrap();
    assert_eq!(c.grant(OWNER, OWNER, id), Ok(()));
    assert_eq!(c.get_session(OWNER).remaining_secs, 3600);
    assert_eq!(c.get_order_session(OWNER, id).remaining_secs, 3600);
    assert_eq!(c.grant(OWNER, OWNER, id), Err(Error::AlreadyGranted));
    assert_eq!(c.grant(ADMIN, OWNER, id), Err(Error::AlreadyGranted));
    assert_eq!(c.get_session(OWNER).remaining_secs, 3600);
    assert_eq!(c.get_order_session(OWNER, id).remaining_secs, 3600);
}

#[test]
fn pause_math() {
    let mut c = catalog();
    let id = c.buy_order(OWNER, 1).unwrap();
    c.grant(ADMIN, OWNER, id).unwrap();
    assert_eq!(c.get_session(OWNER), Session { remaining_secs: 3600, started_at: 0 });
    assert!(c.start(OWNER, 1000));
    assert_eq!(c.get_session(OWNER).started_at, 1000);
    assert_eq!(c.remaining(OWNER, 1500), 3100);
    assert!(c.pause(OWNER, 1500));
    assert_eq!(c.get_session(OWNER), Session { remaining_secs: 3100, started_at: 0 });
}

#[test]
fn pause_with_clock_before_start_charges_nothing() {
    let mut s = Session { remaining_secs: 3600, started_at: 1000 };
    assert!(s.pause_at(400));
    assert_eq!(s, Session { remaining_secs: 3600, started_at: 0 });

    let mut c = catalog();
    let id = c.buy_order(OWNER, 1).unwrap();
    c.grant(ADMIN, OWNER, id).unwrap();
    c.start(OWNER, 1000);
    assert!(c.pause(OWNER, 10));
    assert_eq!(c.get_session(OWNER), Session { remaining_secs: 3600, started_at: 0 });
}

#[test]
fn worked_scenario() {
    let mut c = ConectaBrasil::new();
    c.init(ADMIN, TOKEN).unwrap();
    c.set_package(1, 100, 3600, "basic".to_string(), "fast".to_string(), false).unwrap();
    assert_eq!(
        c.purchase_terms(OWNER, 1),
        Ok(Payment { token: TOKEN, from: OWNER, to: ADMIN, amount: 100 })
    );
    assert_eq!(c.buy_order(OWNER, 1), Ok(1));
    assert_eq!(c.get_user_packages(OWNER), vec![(1u128, 1u32, false)]);
    assert_eq!(c.grant(ADMIN, OWNER, 1), Ok(()));
    assert_eq!(c.get_user_packages(OWNER), vec![(1u128, 1u32, true)]);
    assert_eq!(c.get_session(OWNER).remaining_secs, 3600);
    assert_eq!(
        c.get_order_session(OWNER, 1),
        OrderSession { order_id: 1, remaining_secs: 3600, started_at: 0 }
    );
    assert_eq!(c.grant(OWNER, OWNER, 1), Err(Error::AlreadyGranted));
}

#[test]
fn catalog_boundary() {
    let mut c = catalog();
    c.set_package(11, 999, 60, "hidden".to_string(), "slow".to_string(), false).unwrap();
    let p = c.get_package(11).unwrap();
    assert_eq!(p.price, 999);
    assert_eq!(p.duration_secs, 60);
    assert_eq!(p.name, "hidden");
    let all = c.get_all_packages();
    let ids: Vec<u32> = all.iter().map(|e| e.0).collect();
    assert_eq!(ids, vec![1, 2]);
    assert_eq!(all[1].1.speed_label, "full_speed");
    assert!(all[1].1.is_popular);
    assert_eq!(LISTED_PACKAGE_ID_MAX, 10);
    c.set_package(10, 5, 5, "last".to_string(), "x".to_string(), false).unwrap();
    let ids: Vec<u32> = c.get_all_packages().iter().map(|e| e.0).collect();
    assert_eq!(ids, vec![1, 2, 10]);
}

#[test]
fn set_package_overwrites() {
    let mut c = catalog();
    c.set_package(1, 7, 9, "again".to_string(), "y".to_string(), true).unwrap();
    let p = c.get_package(1).unwrap();
    assert_eq!((p.price, p.duration_secs, p.is_popular), (7, 9, true));
    assert_eq!(c.get_all_packages().len(), 2);
}

#[test]
fn init_twice_fails() {
    let mut c = catalog();
    assert_eq!(c.init(3, 4), Err(Error::AlreadyInitialized));
    assert_eq!(c.admin(), Some(ADMIN));
}

#[test]
fn operations_before_init_fail() {
    let mut c = ConectaBrasil::new();
    assert_eq!(
        c.set_package(1, 1, 1, "a".to_string(), "b".to_string(), false),
        Err(Error::NotInitialized)
    );
    assert_eq!(c.buy_order(OWNER, 1), Err(Error::NotInitialized));
    assert_eq!(c.purchase_terms(OWNER, 1), Err(Error::NotInitialized));
    assert_eq!(c.grant(OWNER, OWNER, 1), Err(Error::NotInitialized));
    assert_eq!(c.get_package(1).err(), Some(Error::PackageNotFound));
}

#[test]
fn unknown_package_fails() {
    let mut c = catalog();
    assert_eq!(c.buy_order(OWNER, 3), Err(Error::PackageNotFound));
    assert_eq!(c.purchase_terms(OWNER, 3), Err(Error::PackageNotFound));
    assert_eq!(c.get_package(3).err(), Some(Error::PackageNotFound));
    // a refused purchase uses up no id
    assert_eq!(c.get_user_orders_list(OWNER), Vec::<u128>::new());
    assert_eq!(c.buy_order(OWNER, 1), Ok(1));
}

#[test]
fn grant_by_stranger_is_unauthorized() {
    let mut c = catalog();
    let id = c.buy_order(OWNER, 1).unwrap();
    assert_eq!(c.grant(OTHER, OWNER, id), Err(Error::Unauthorized));
    assert_eq!(c.get_session(OWNER).remaining_secs, 0);
    assert_eq!(c.get_user_packages(OWNER), vec![(1u128, 1u32, false)]);
}

#[test]
fn grant_of_missing_order_fails() {
    let mut c = catalog();
    assert_eq!(c.grant(ADMIN, OWNER, 1), Err(Error::OrderNotFound));
    c.buy_order(OWNER, 1).unwrap();
    assert_eq!(c.grant(ADMIN, OWNER, 2), Err(Error::OrderNotFound));
    assert_eq!(c.grant(ADMIN, OWNER, 0), Err(Error::OrderNotFound));
}

#[test]
fn grants_add_up() {
    let mut c = catalog();
    c.buy_order(OWNER, 1).unwrap();
    c.buy_order(OWNER, 2).unwrap();
    c.grant(ADMIN, OWNER, 2).unwrap();
    c.grant(OWNER, OWNER, 1).unwrap();
    assert_eq!(c.get_session(OWNER).remaining_secs, 10800);
    assert_eq!(c.get_order_session(OWNER, 1).remaining_secs, 3600);
    assert_eq!(c.get_order_session(OWNER, 2).remaining_secs, 7200);
}

#[test]
fn credit_saturates() {
    let mut s = Session { remaining_secs: u64::MAX - 10, started_at: 0 };
    assert_eq!(s.credit(3600), u64::MAX);
    let mut os = OrderSession { order_id: 1, remaining_secs: 5, started_at: 0 };
    assert_eq!(os.credit(3600), 3605);
}

#[test]
fn start_keeps_first_start() {
    let mut c = catalog();
    c.buy_order(OWNER, 1).unwrap();
    c.grant(ADMIN, OWNER, 1).unwrap();
    assert!(c.start(OWNER, 1000));
    assert!(!c.start(OWNER, 2000));
    assert_eq!(c.get_session(OWNER).started_at, 1000);
    assert!(!c.pause(OTHER, 2000));
    assert!(c.pause(OWNER, 2000));
    assert!(!c.pause(OWNER, 2500));
    assert_eq!(c.get_session(OWNER), Session { remaining_secs: 2600, started_at: 0 });
}

#[test]
fn start_without_balance_does_nothing() {
    let mut c = catalog();
    assert!(!c.start(OWNER, 1000));
    c.buy_order(OWNER, 1).unwrap();
    assert!(!c.start(OWNER, 1000));
    assert_eq!(c.get_session(OWNER), Session { remaining_secs: 0, started_at: 0 });
}

#[test]
fn balance_runs_out() {
    let mut c = catalog();
    c.buy_order(OWNER, 1).unwrap();
    c.grant(ADMIN, OWNER, 1).unwrap();
    c.start(OWNER, 100);
    assert!(c.is_active(OWNER, 3699));
    assert_eq!(c.remaining(OWNER, 3699), 1);
    assert!(!c.is_active(OWNER, 3700));
    assert_eq!(c.remaining(OWNER, 9000), 0);
    // a stored balance that has run out cannot be started again
    c.pause(OWNER, 9000);
    assert!(!c.start(OWNER, 9500));
}

#[test]
fn access_expiry() {
    let mut c = catalog();
    assert_eq!(c.get_access(OWNER), Access { owner: OWNER, expires_at: 0 });
    c.buy_order(OWNER, 1).unwrap();
    c.grant(ADMIN, OWNER, 1).unwrap();
    assert_eq!(c.get_access(OWNER).expires_at, 0);
    c.start(OWNER, 1000);
    assert_eq!(c.get_access(OWNER), Access { owner: OWNER, expires_at: 4600 });
    let s = Session { remaining_secs: u64::MAX, started_at: 5 };
    assert_eq!(s.expires_at(), u64::MAX);
}

#[test]
fn order_sessions() {
    let mut c = catalog();
    c.buy_order(OWNER, 1).unwrap();
    c.buy_order(OWNER, 2).unwrap();
    assert_eq!(c.start_order(OWNER, 1, 100), Err(Error::AlreadyGranted));
    assert_eq!(c.start_order(OWNER, 3, 100), Err(Error::OrderNotFound));
    c.grant(ADMIN, OWNER, 1).unwrap();
    c.grant(ADMIN, OWNER, 2).unwrap();
    assert_eq!(c.start_order(OWNER, 2, 100), Ok(true));
    assert_eq!(c.start_order(OWNER, 2, 200), Ok(false));
    assert_eq!(c.get_active_orders(OWNER, 500), vec![2u128]);
    assert!(c.is_order_active(OWNER, 2, 500));
    assert!(!c.is_order_active(OWNER, 1, 500));
    assert_eq!(c.remaining_by_order(OWNER, 2, 600), 6700);
    assert_eq!(c.remaining_by_order(OWNER, 1, 600), 3600);
    assert_eq!(c.start_order(OWNER, 1, 300), Ok(true));
    assert_eq!(c.get_active_orders(OWNER, 500), vec![1u128, 2]);
    assert!(c.pause_order(OWNER, 2, 1100));
    assert!(!c.pause_order(OWNER, 2, 1200));
    assert!(!c.pause_order(OWNER, 9, 1200));
    assert_eq!(
        c.get_order_session(OWNER, 2),
        OrderSession { order_id: 2, remaining_secs: 6200, started_at: 0 }
    );
    assert_eq!(c.get_active_orders(OWNER, 1200), vec![1u128]);
    assert_eq!(c.get_active_orders(OWNER, 3900), Vec::<u128>::new());
    // the aggregate session is separate from the order sessions
    assert_eq!(c.get_session(OWNER), Session { remaining_secs: 10800, started_at: 0 });
}

#[test]
fn unknown_order_session_is_empty() {
    let c = catalog();
    assert_eq!(
        c.get_order_session(OWNER, 42),
        OrderSession { order_id: 42, remaining_secs: 0, started_at: 0 }
    );
    assert_eq!(c.remaining_by_order(OWNER, 42, 10), 0);
}

#[test]
fn remaining_formulas() {
    let s = Session { remaining_secs: 3600, started_at: 1000 };
    assert_eq!(remaining_at(&s, 1500), 3100);
    assert_eq!(remaining_at(&s, 999), 3600);
    assert_eq!(remaining_at(&s, 5000), 0);
    let p = Session { remaining_secs: 3600, started_at: 0 };
    assert_eq!(remaining_at(&p, 99999), 3600);
    let os = OrderSession { order_id: 3, remaining_secs: 10, started_at: 5 };
    assert_eq!(remaining_at_order(&os, 12), 3);
    assert!(os.is_active_at(12));
    assert!(!os.is_active_at(15));
}
