use conecta_brasil::model::{Error, OrderRec, OrderSession, Session};
use conecta_brasil::rules::{
    active_order_ids, grant_step, package_rows, purchase_check, record_purchase,
    start_order_step,
};

fn uncredited() -> Option<OrderRec> {
    Some(OrderRec { package_id: 1, credited: false })
}

#[test]
fn purchase_check_cases() {
    assert_eq!(purchase_check(true, true, true), Ok(()));
    assert_eq!(purchase_check(false, true, true), Err(Error::NotInitialized));
    assert_eq!(purchase_check(true, false, false), Err(Error::NotInitialized));
    assert_eq!(purchase_check(true, true, false), Err(Error::PackageNotFound));
}

#[test]
fn record_purchase_allocates_ids() {
    let mut orders: Vec<u128> = Vec::new();
    assert_eq!(
        record_purchase(None, &mut orders, 4),
        Some((1, OrderRec { package_id: 4, credited: false }))
    );
    assert_eq!(
        record_purchase(Some(1), &mut orders, 5),
        Some((2, OrderRec { package_id: 5, credited: false }))
    );
    assert_eq!(orders, vec![1u128, 2]);
    assert_eq!(record_purchase(Some(u128::MAX), &mut orders, 5), None);
    assert_eq!(orders, vec![1u128, 2]);
}

#[test]
fn grant_step_credits_once() {
    let mut s = Session { remaining_secs: 100, started_at: 0 };
    let mut os = OrderSession { order_id: 1, remaining_secs: 0, started_at: 0 };
    let r = grant_step(true, false, true, uncredited(), Some(3600), &mut s, &mut os);
    assert_eq!(r, Ok(OrderRec { package_id: 1, credited: true }));
    assert_eq!(s.remaining_secs, 3700);
    assert_eq!(os.remaining_secs, 3600);
    let again = grant_step(true, true, false, r.ok(), Some(3600), &mut s, &mut os);
    assert_eq!(again, Err(Error::AlreadyGranted));
    assert_eq!(s.remaining_secs, 3700);
    assert_eq!(os.remaining_secs, 3600);
}

#[test]
fn grant_step_errors() {
    let mut s = Session { remaining_secs: 5, started_at: 0 };
    let mut os = OrderSession { order_id: 1, remaining_secs: 5, started_at: 0 };
    let before = (s, os);
    assert_eq!(
        grant_step(false, true, true, uncredited(), Some(1), &mut s, &mut os),
        Err(Error::NotInitialized)
    );
    assert_eq!(
        grant_step(true, false, false, uncredited(), Some(1), &mut s, &mut os),
        Err(Error::Unauthorized)
    );
    assert_eq!(
        grant_step(true, true, false, None, Some(1), &mut s, &mut os),
        Err(Error::OrderNotFound)
    );
    assert_eq!(
        grant_step(true, true, false, uncredited(), None, &mut s, &mut os),
        Err(Error::PackageNotFound)
    );
    assert_eq!((s, os), before);
}

#[test]
fn start_order_step_cases() {
    let mut os = OrderSession { order_id: 2, remaining_secs: 60, started_at: 0 };
    assert_eq!(start_order_step(None, &mut os, 10), Err(Error::OrderNotFound));
    assert_eq!(start_order_step(uncredited(), &mut os, 10), Err(Error::AlreadyGranted));
    assert_eq!(os.started_at, 0);
    let credited = Some(OrderRec { package_id: 1, credited: true });
    assert_eq!(start_order_step(credited, &mut os, 10), Ok(true));
    assert_eq!(os.started_at, 10);
    assert_eq!(start_order_step(credited, &mut os, 20), Ok(false));
    assert_eq!(os.started_at, 10);
}

#[test]
fn package_rows_skip_missing_records() {
    let ids = vec![1u128, 2, 3];
    let recs = vec![
        Some(OrderRec { package_id: 4, credited: true }),
        None,
        Some(OrderRec { package_id: 6, credited: false }),
    ];
    assert_eq!(package_rows(&ids, &recs), vec![(1u128, 4u32, true), (3, 6, false)]);
}

#[test]
fn active_order_ids_in_order() {
    let sessions = vec![
        OrderSession { order_id: 1, remaining_secs: 100, started_at: 50 },
        OrderSession { order_id: 2, remaining_secs: 100, started_at: 0 },
        OrderSession { order_id: 3, remaining_secs: 10, started_at: 50 },
        OrderSession { order_id: 4, remaining_secs: 500, started_at: 90 },
    ];
    assert_eq!(active_order_ids(&sessions, 100), vec![1u128, 4]);
    assert_eq!(active_order_ids(&sessions, 10), vec![1u128, 3, 4]);
}
