//! The decisions of the contract's operations, on plain values. A host reads
//! the stored values an operation needs, hands them here, and stores what
//! comes back; [`crate::ledger::ConectaBrasil`] runs on the same functions.
use vstd::prelude::*;
use crate::clock::{active_spec, starts};
use crate::model::{Error, OrderRec, OrderSession, Session};

verus! {

/// Why a purchase is refused, if it is: the contract must be initialised
/// (administrator and payment token set) and the package must exist.
pub open spec fn purchase_error_of(admin_set: bool, token_set: bool, package_found: bool) -> Option<Error> {
    if !admin_set || !token_set {
        Some(Error::NotInitialized)
    } else if !package_found {
        Some(Error::PackageNotFound)
    } else {
        None
    }
}

/// Whether a purchase may go ahead, before any payment is made.
pub fn purchase_check(admin_set: bool, token_set: bool, package_found: bool) -> (r: Result<(), Error>)
    ensures
        r == (match purchase_error_of(admin_set, token_set, package_found) {
            Some(e) => Err(e),
            None => Ok(()),
        }),
{
    if !admin_set || !token_set {
        Err(Error::NotInitialized)
    } else if !package_found {
        Err(Error::PackageNotFound)
    } else {
        Ok(())
    }
}

/// Allocates the next order id from an owner's counter (absent before the
/// first purchase), appends it to the owner's order list, and gives the
/// record of the new, uncredited order. `None`, with the list unchanged,
/// when the counter is exhausted.
pub fn record_purchase(counter: Option<u128>, orders: &mut Vec<u128>, package_id: u32) -> (r: Option<(u128, OrderRec)>)
    ensures
        r is None <==> counter == Some(u128::MAX),
        r is None ==> final(orders)@ == old(orders)@,
        r matches Some((id, rec)) ==> id == (match counter {
            Some(c) => c + 1,
            None => 1,
        }) && rec == (OrderRec { package_id, credited: false }) && final(orders)@ == old(
            orders,
        )@.push(id),
{
    let id: u128 = match counter {
        Some(c) => {
            if c == u128::MAX {
                return None;
            }
            c + 1
        },
        None => 1,
    };
    orders.push(id);
    Some((id, OrderRec { package_id, credited: false }))
}

/// Why a grant is refused, if it is, in the order the checks are made:
/// the contract must be initialised, the caller must be the administrator
/// or the owner, the order must exist and be uncredited, and its package
/// must exist (`duration` is the package's duration when it does).
pub open spec fn grant_error_of(
    admin_set: bool,
    caller_is_admin: bool,
    caller_is_owner: bool,
    rec: Option<OrderRec>,
    duration: Option<u32>,
) -> Option<Error> {
    if !admin_set {
        Some(Error::NotInitialized)
    } else if !caller_is_admin && !caller_is_owner {
        Some(Error::Unauthorized)
    } else if rec is None {
        Some(Error::OrderNotFound)
    } else if rec->Some_0.credited {
        Some(Error::AlreadyGranted)
    } else if duration is None {
        Some(Error::PackageNotFound)
    } else {
        None
    }
}

/// Credits an order: on success adds the package's duration, clamped, to
/// the owner's session `s` and to the order's session `os`, and returns the
/// order's record marked credited. A credited order is never credited
/// again. On an error nothing changes.
pub fn grant_step(
    admin_set: bool,
    caller_is_admin: bool,
    caller_is_owner: bool,
    rec: Option<OrderRec>,
    duration: Option<u32>,
    s: &mut Session,
    os: &mut OrderSession,
) -> (r: Result<OrderRec, Error>)
    ensures
        r is Err ==> *final(s) == *old(s) && *final(os) == *old(os),
        r matches Err(e) ==> grant_error_of(admin_set, caller_is_admin, caller_is_owner, rec, duration)
            == Some(e),
        r is Ok <==> grant_error_of(admin_set, caller_is_admin, caller_is_owner, rec, duration) is None,
        r matches Ok(x) ==> x == (OrderRec { credited: true, ..rec->Some_0 }) && *final(s) == old(
            s,
        ).credited(duration->Some_0) && *final(os) == old(os).credited(duration->Some_0),
{
    if !admin_set {
        return Err(Error::NotInitialized);
    }
    if !caller_is_admin && !caller_is_owner {
        return Err(Error::Unauthorized);
    }
    let x = match rec {
        Some(x) => x,
        None => return Err(Error::OrderNotFound),
    };
    if x.credited {
        return Err(Error::AlreadyGranted);
    }
    let d = match duration {
        Some(d) => d,
        None => return Err(Error::PackageNotFound),
    };
    s.credit(d);
    os.credit(d);
    Ok(OrderRec { credited: true, ..x })
}

/// Why an order's clock may not be started, if so: the order must exist
/// and be credited. An uncredited order gives `AlreadyGranted`, the code
/// that deployed clients of the contract already handle for this case.
pub open spec fn start_order_error_of(rec: Option<OrderRec>) -> Option<Error> {
    if rec is None {
        Some(Error::OrderNotFound)
    } else if !rec->Some_0.credited {
        Some(Error::AlreadyGranted)
    } else {
        None
    }
}

/// Starts an order's clock at `now` when the order exists and is credited;
/// returns whether the clock started. On an error nothing changes.
pub fn start_order_step(rec: Option<OrderRec>, os: &mut OrderSession, now: u64) -> (r: Result<bool, Error>)
    ensures
        r is Ok <==> start_order_error_of(rec) is None,
        r matches Err(e) ==> start_order_error_of(rec) == Some(e) && *final(os) == *old(os),
        r matches Ok(b) ==> b == starts(old(os).remaining_secs, old(os).started_at) && *final(os)
            == old(os).started(now),
{
    match rec {
        None => Err(Error::OrderNotFound),
        Some(x) => {
            if !x.credited {
                Err(Error::AlreadyGranted)
            } else {
                Ok(os.start_at(now))
            }
        },
    }
}

/// The ids of `sessions` that are running with time left at `now`, in order.
pub open spec fn active_ids_spec(sessions: Seq<OrderSession>, now: u64) -> Seq<u128>
    decreases sessions.len(),
{
    if sessions.len() == 0 {
        Seq::empty()
    } else {
        let rest = active_ids_spec(sessions.drop_last(), now);
        let s = sessions.last();
        if active_spec(s.remaining_secs, s.started_at, now) {
            rest.push(s.order_id)
        } else {
            rest
        }
    }
}

/// The order ids of those `sessions` that are running with time left at
/// `now`, in the order given.
pub fn active_order_ids(sessions: &Vec<OrderSession>, now: u64) -> (r: Vec<u128>)
    ensures
        r@ == active_ids_spec(sessions@, now),
{
    let mut r: Vec<u128> = Vec::new();
    let mut i: usize = 0;
    while i < sessions.len()
        invariant
            i <= sessions@.len(),
            r@ == active_ids_spec(sessions@.take(i as int), now),
        decreases sessions@.len() - i,
    {
        let s = sessions[i];
        if s.is_active_at(now) {
            r.push(s.order_id);
        }
        assert(sessions@.take(i + 1).drop_last() =~= sessions@.take(i as int));
        i = i + 1;
    }
    assert(sessions@.take(sessions@.len() as int) =~= sessions@);
    r
}

/// `(order id, package id, credited)` for each id of `ids` whose record in
/// `recs` (at the same position) is present, in order; ids without a record
/// are skipped.
pub open spec fn package_rows_spec(ids: Seq<u128>, recs: Seq<Option<OrderRec>>) -> Seq<(u128, u32, bool)>
    decreases ids.len(),
{
    if ids.len() == 0 || recs.len() < ids.len() {
        Seq::empty()
    } else {
        let rest = package_rows_spec(ids.drop_last(), recs.take(ids.len() - 1));
        match recs[ids.len() - 1] {
            Some(x) => rest.push((ids.last(), x.package_id, x.credited)),
            None => rest,
        }
    }
}

/// Joins an owner's order ids with their records: `recs[i]` is the record
/// of `ids[i]`, if one is stored.
pub fn package_rows(ids: &Vec<u128>, recs: &Vec<Option<OrderRec>>) -> (r: Vec<(u128, u32, bool)>)
    requires
        recs@.len() == ids@.len(),
    ensures
        r@ == package_rows_spec(ids@, recs@),
{
    let mut r: Vec<(u128, u32, bool)> = Vec::new();
    let mut i: usize = 0;
    while i < ids.len()
        invariant
            i <= ids@.len(),
            recs@.len() == ids@.len(),
            r@ == package_rows_spec(ids@.take(i as int), recs@.take(i as int)),
        decreases ids@.len() - i,
    {
        match recs[i] {
            Some(x) => r.push((ids[i], x.package_id, x.credited)),
            None => {},
        }
        assert(ids@.take(i + 1).drop_last() =~= ids@.take(i as int));
        assert(recs@.take(i + 1).take(i as int) =~= recs@.take(i as int));
        i = i + 1;
    }
    assert(ids@.take(ids@.len() as int) =~= ids@);
    assert(recs@.take(recs@.len() as int) =~= recs@);
    r
}

} // verus!
