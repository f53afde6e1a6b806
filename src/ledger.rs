//! The contract's state and its public operations: the package catalog, the
//! per-owner order ledger, crediting of orders, and the aggregate and
//! per-order clocks.
//!
//! Owners and other principals are identified by `u64`. Authentication of
//! a principal, the token transfer that pays for an order, events and the
//! current time are the host's: an operation here runs once the host has
//! authenticated the principal it names, and takes the time as `now`.
use std::collections::HashMap;
use vstd::prelude::*;
use crate::clock::{active_spec, pauses, remaining_spec, starts, expiry_spec};
use crate::rules::{
    grant_error_of, grant_step, purchase_check, purchase_error_of, start_order_error_of,
    start_order_step, active_ids_spec, active_order_ids,
};
use crate::model::{Access, Error, OrderRec, OrderSession, Package, PackageView, Session};

verus! {

broadcast use vstd::std_specs::hash::group_hash_axioms;

/// `get_all_packages` lists the ids `1..=LISTED_PACKAGE_ID_MAX` only; a
/// package stored under a larger id is reachable through `get_package`
/// alone.
pub const LISTED_PACKAGE_ID_MAX: u32 = 10;

/// One order of an owner: its record and its own clock.
#[derive(Clone, Copy, Debug, PartialEq, Eq, Structural)]
pub struct OrderEntry {
    pub rec: OrderRec,
    pub session: OrderSession,
}

/// Everything held for one owner. Order `k` (counting from 1) is
/// `orders[k - 1]`, so the order ids of an owner are `1..=orders.len()`,
/// in order of purchase.
pub struct Account {
    session: Session,
    orders: Vec<OrderEntry>,
}

/// The token transfer that pays for an order: `amount` units of `token`
/// from `from` to `to`.
#[derive(Clone, Copy, Debug, PartialEq, Eq, Structural)]
pub struct Payment {
    pub token: u64,
    pub from: u64,
    pub to: u64,
    pub amount: i128,
}

/// The whole state as the contracts see it. Only owners that bought at
/// least one order have an entry in `sessions` and `orders`.
pub ghost struct LedgerView {
    pub admin: Option<u64>,
    pub token: Option<u64>,
    pub packages: Map<u32, PackageView>,
    pub sessions: Map<u64, Session>,
    pub orders: Map<u64, Seq<OrderEntry>>,
}

impl LedgerView {
    /// The state before `init`.
    pub open spec fn initial() -> LedgerView {
        LedgerView {
            admin: None,
            token: None,
            packages: Map::empty(),
            sessions: Map::empty(),
            orders: Map::empty(),
        }
    }

    pub open spec fn wf(self) -> bool {
        &&& self.sessions.dom() == self.orders.dom()
        &&& forall|o: u64| #[trigger] self.orders.contains_key(o) ==> 0 < self.orders[o].len() <= usize::MAX
        &&& forall|o: u64, i: int|
            self.orders.contains_key(o) && 0 <= i < self.orders[o].len()
                ==> #[trigger] self.orders[o][i].session.order_id == i + 1
    }

    /// The aggregate session of `owner`; empty for an owner never seen.
    pub open spec fn session_of(self, owner: u64) -> Session {
        if self.sessions.contains_key(owner) {
            self.sessions[owner]
        } else {
            Session::empty()
        }
    }

    /// The orders of `owner`, in order of purchase.
    pub open spec fn orders_of(self, owner: u64) -> Seq<OrderEntry> {
        if self.orders.contains_key(owner) {
            self.orders[owner]
        } else {
            Seq::empty()
        }
    }

    /// The id that the next order of `owner` gets.
    pub open spec fn next_order_id(self, owner: u64) -> u128 {
        (self.orders_of(owner).len() + 1) as u128
    }

    /// The order ids of `owner`, in order of purchase.
    pub open spec fn order_list(self, owner: u64) -> Seq<u128> {
        Seq::new(self.orders_of(owner).len(), |i: int| (i + 1) as u128)
    }

    pub open spec fn has_order(self, owner: u64, order_id: u128) -> bool {
        1 <= order_id <= self.orders_of(owner).len()
    }

    /// The record of order `order_id` of `owner`, if it exists.
    pub open spec fn order_of(self, owner: u64, order_id: u128) -> Option<OrderRec> {
        if self.has_order(owner, order_id) {
            Some(self.orders_of(owner)[order_id - 1].rec)
        } else {
            None
        }
    }

    /// The session of order `order_id` of `owner`; empty for an order never
    /// bought.
    pub open spec fn order_session_of(self, owner: u64, order_id: u128) -> OrderSession {
        if self.has_order(owner, order_id) {
            self.orders_of(owner)[order_id - 1].session
        } else {
            OrderSession::empty(order_id)
        }
    }

    /// The state with the aggregate session of `owner` replaced, where
    /// `owner` has an account.
    pub open spec fn with_session(self, owner: u64, s: Session) -> LedgerView {
        if self.sessions.contains_key(owner) {
            LedgerView { sessions: self.sessions.insert(owner, s), ..self }
        } else {
            self
        }
    }

    /// The state with the session of order `order_id` of `owner` replaced,
    /// where that order exists.
    pub open spec fn with_order_session(self, owner: u64, order_id: u128, s: OrderSession) -> LedgerView {
        if self.has_order(owner, order_id) {
            let e = self.orders_of(owner)[order_id - 1];
            LedgerView {
                orders: self.orders.insert(
                    owner,
                    self.orders_of(owner).update(order_id - 1, OrderEntry { session: s, ..e }),
                ),
                ..self
            }
        } else {
            self
        }
    }

    /// Why a purchase of `package_id` is refused, if it is.
    pub open spec fn purchase_error(self, package_id: u32) -> Option<Error> {
        purchase_error_of(self.admin is Some, self.token is Some, self.packages.contains_key(package_id))
    }

    /// The state after `owner` buys `package_id`: a new, uncredited order
    /// with the next id and an empty session is appended to the owner's
    /// orders.
    pub open spec fn with_purchase(self, owner: u64, package_id: u32) -> LedgerView {
        let id = self.next_order_id(owner);
        let e = OrderEntry {
            rec: OrderRec { package_id, credited: false },
            session: OrderSession::empty(id),
        };
        LedgerView {
            sessions: self.sessions.insert(owner, self.session_of(owner)),
            orders: self.orders.insert(owner, self.orders_of(owner).push(e)),
            ..self
        }
    }

    /// Why `caller` may not credit order `order_id` of `owner`, if so.
    pub open spec fn grant_error(self, caller: u64, owner: u64, order_id: u128) -> Option<Error> {
        grant_error_of(
            self.admin is Some,
            self.admin == Some(caller),
            caller == owner,
            self.order_of(owner, order_id),
            self.package_duration(owner, order_id),
        )
    }

    /// The duration of the package of order `order_id` of `owner`, where
    /// both exist.
    pub open spec fn package_duration(self, owner: u64, order_id: u128) -> Option<u32> {
        match self.order_of(owner, order_id) {
            Some(x) => if self.packages.contains_key(x.package_id) {
                Some(self.packages[x.package_id].duration_secs)
            } else {
                None
            },
            None => None,
        }
    }

    /// The seconds that order `order_id` of `owner` is worth.
    pub open spec fn order_duration(self, owner: u64, order_id: u128) -> u32 {
        self.packages[self.orders_of(owner)[order_id - 1].rec.package_id].duration_secs
    }

    /// The state after order `order_id` of `owner` is credited: the
    /// package's duration is added to the aggregate session and to the
    /// order's session, and the order is marked credited.
    pub open spec fn with_grant(self, owner: u64, order_id: u128) -> LedgerView {
        let d = self.order_duration(owner, order_id);
        let e = self.orders_of(owner)[order_id - 1];
        let e2 = OrderEntry {
            rec: OrderRec { credited: true, ..e.rec },
            session: e.session.credited(d),
        };
        LedgerView {
            sessions: self.sessions.insert(owner, self.session_of(owner).credited(d)),
            orders: self.orders.insert(owner, self.orders_of(owner).update(order_id - 1, e2)),
            ..self
        }
    }

    /// Why order `order_id` of `owner` may not be started, if so.
    pub open spec fn start_order_error(self, owner: u64, order_id: u128) -> Option<Error> {
        start_order_error_of(self.order_of(owner, order_id))
    }

    /// `(order id, package id, credited)` for each order of `owner`, in
    /// order of purchase.
    pub open spec fn packages_of(self, owner: u64) -> Seq<(u128, u32, bool)> {
        Seq::new(
            self.orders_of(owner).len(),
            |i: int|
                (
                    (i + 1) as u128,
                    self.orders_of(owner)[i].rec.package_id,
                    self.orders_of(owner)[i].rec.credited,
                ),
        )
    }
}

/// The packages of `packages` under the ids `1..=n`, in ascending id order.
pub open spec fn listed_packages(packages: Map<u32, PackageView>, n: int) -> Seq<(u32, PackageView)>
    decreases n,
{
    if n <= 0 {
        Seq::empty()
    } else {
        let rest = listed_packages(packages, n - 1);
        if n <= u32::MAX && packages.contains_key(n as u32) {
            rest.push((n as u32, packages[n as u32]))
        } else {
            rest
        }
    }
}

/// The contract's state.
pub struct ConectaBrasil {
    admin: Option<u64>,
    token: Option<u64>,
    packages: HashMap<u32, Package>,
    accounts: HashMap<u64, Account>,
}

impl View for ConectaBrasil {
    type V = LedgerView;

    closed spec fn view(&self) -> LedgerView {
        LedgerView {
            admin: self.admin,
            token: self.token,
            packages: self.packages@.map_values(|p: Package| p@),
            sessions: self.accounts@.map_values(|a: Account| a.session),
            orders: self.accounts@.map_values(|a: Account| a.orders@),
        }
    }
}

impl ConectaBrasil {
    pub open spec fn wf(&self) -> bool {
        self@.wf()
    }

    /// A contract that has not been initialised.
    pub fn new() -> (r: ConectaBrasil)
        ensures
            r.wf(),
            r@ == LedgerView::initial(),
    {
        let r = ConectaBrasil {
            admin: None,
            token: None,
            packages: HashMap::new(),
            accounts: HashMap::new(),
        };
        assert(r@.packages =~= Map::empty());
        assert(r@.sessions =~= Map::empty());
        assert(r@.orders =~= Map::empty());
        r
    }

    /// Sets the administrator and the payment token, once.
    pub fn init(&mut self, admin: u64, token_asset: u64) -> (r: Result<(), Error>)
        requires
            old(self).wf(),
        ensures
            final(self).wf(),
            r is Err <==> old(self)@.admin is Some,
            r is Err ==> r == Err::<(), Error>(Error::AlreadyInitialized) && *final(self) == *old(self),
            r is Ok ==> final(self)@ == (LedgerView {
                admin: Some(admin),
                token: Some(token_asset),
                ..old(self)@
            }),
    {
        if self.admin.is_some() {
            return Err(Error::AlreadyInitialized);
        }
        self.admin = Some(admin);
        self.token = Some(token_asset);
        Ok(())
    }

    /// The administrator, once initialised.
    pub fn admin(&self) -> (r: Option<u64>)
        ensures
            r == self@.admin,
    {
        self.admin
    }

    /// Stores a package under `id`, replacing any package there. The host
    /// has authenticated the administrator.
    pub fn set_package(
        &mut self,
        id: u32,
        price: i128,
        duration_secs: u32,
        name: String,
        speed_label: String,
        is_popular: bool,
    ) -> (r: Result<(), Error>)
        requires
            old(self).wf(),
        ensures
            final(self).wf(),
            r is Err <==> old(self)@.admin is None,
            r is Err ==> r == Err::<(), Error>(Error::NotInitialized) && *final(self) == *old(self),
            r is Ok ==> final(self)@ == (LedgerView {
                packages: old(self)@.packages.insert(
                    id,
                    PackageView {
                        price,
                        duration_secs,
                        name: name@,
                        speed_label: speed_label@,
                        is_popular,
                    },
                ),
                ..old(self)@
            }),
    {
        if self.admin.is_none() {
            return Err(Error::NotInitialized);
        }
        let pkg = Package { price, duration_secs, name, speed_label, is_popular };
        self.packages.insert(id, pkg);
        assert(self@.packages =~= old(self)@.packages.insert(id, pkg@));
        Ok(())
    }

    /// The package stored under `package_id`.
    pub fn get_package(&self, package_id: u32) -> (r: Result<Package, Error>)
        ensures
            r is Ok <==> self@.packages.contains_key(package_id),
            r matches Ok(p) ==> p@ == self@.packages[package_id],
            r is Err ==> r matches Err(Error::PackageNotFound),
    {
        match self.packages.get(&package_id) {
            Some(p) => Ok(p.duplicate()),
            None => Err(Error::PackageNotFound),
        }
    }
}


impl ConectaBrasil {
    /// Removes the account of `owner` from the map and hands it out.
    fn take_account(&mut self, owner: u64) -> (r: Option<Account>)
        ensures
            final(self)@ == (LedgerView {
                sessions: old(self)@.sessions.remove(owner),
                orders: old(self)@.orders.remove(owner),
                ..old(self)@
            }),
            r is Some <==> old(self)@.sessions.contains_key(owner),
            r matches Some(a) ==> a.session == old(self)@.sessions[owner] && a.orders@
                == old(self)@.orders[owner],
    {
        let r = self.accounts.remove(&owner);
        assert(self@.sessions =~= old(self)@.sessions.remove(owner));
        assert(self@.orders =~= old(self)@.orders.remove(owner));
        r
    }

    /// Puts the account of `owner` (back) into the map.
    fn store_account(&mut self, owner: u64, a: Account)
        ensures
            final(self)@ == (LedgerView {
                sessions: old(self)@.sessions.insert(owner, a.session),
                orders: old(self)@.orders.insert(owner, a.orders@),
                ..old(self)@
            }),
    {
        let ghost sa = a.session;
        let ghost oa = a.orders@;
        self.accounts.insert(owner, a);
        assert(self@.sessions =~= old(self)@.sessions.insert(owner, sa));
        assert(self@.orders =~= old(self)@.orders.insert(owner, oa));
    }

    /// The aggregate session of `owner`: paused and empty for an owner that
    /// never bought anything.
    pub fn get_session(&self, owner: u64) -> (r: Session)
        ensures
            r == self@.session_of(owner),
    {
        match self.accounts.get(&owner) {
            Some(a) => a.session,
            None => Session { remaining_secs: 0, started_at: 0 },
        }
    }

    /// The aggregate balance of `owner` left at `now`.
    pub fn remaining(&self, owner: u64, now: u64) -> (r: u64)
        ensures
            r == remaining_spec(
                self@.session_of(owner).remaining_secs,
                self@.session_of(owner).started_at,
                now,
            ),
    {
        let s = self.get_session(owner);
        crate::clock::remaining_at(&s, now)
    }

    /// Whether the aggregate balance of `owner` is running with time left
    /// at `now`.
    pub fn is_active(&self, owner: u64, now: u64) -> (r: bool)
        ensures
            r == active_spec(
                self@.session_of(owner).remaining_secs,
                self@.session_of(owner).started_at,
                now,
            ),
    {
        let s = self.get_session(owner);
        s.is_active_at(now)
    }

    /// The predicted expiry of the aggregate balance of `owner`: start plus
    /// stored balance while running, zero while paused. The stored balance
    /// is used as it stands, without the time run since the start, so the
    /// value is the expiry predicted at the last start; this is deliberate,
    /// kept for clients that read it as such. `remaining` gives the decayed
    /// balance.
    pub fn get_access(&self, owner: u64) -> (r: Access)
        ensures
            r.owner == owner,
            r.expires_at == expiry_spec(
                self@.session_of(owner).remaining_secs,
                self@.session_of(owner).started_at,
            ),
    {
        let s = self.get_session(owner);
        Access { owner, expires_at: s.expires_at() }
    }

    /// Starts the aggregate clock of `owner` at `now`, if it is paused with
    /// time left. Returns whether it started.
    pub fn start(&mut self, owner: u64, now: u64) -> (r: bool)
        requires
            old(self).wf(),
        ensures
            final(self).wf(),
            final(self)@ == old(self)@.with_session(owner, old(self)@.session_of(owner).started(now)),
            r == starts(old(self)@.session_of(owner).remaining_secs, old(self)@.session_of(owner).started_at),
    {
        match self.take_account(owner) {
            None => {
                assert(self@.sessions =~= old(self)@.sessions);
                assert(self@.orders =~= old(self)@.orders);
                false
            },
            Some(mut a) => {
                let r = a.session.start_at(now);
                self.store_account(owner, a);
                assert(self@.sessions =~= old(self)@.sessions.insert(owner, a.session));
                assert(self@.orders =~= old(self)@.orders);
                r
            },
        }
    }

    /// Pauses the aggregate clock of `owner` at `now`, if it is running,
    /// charging the elapsed time. Returns whether it paused.
    pub fn pause(&mut self, owner: u64, now: u64) -> (r: bool)
        requires
            old(self).wf(),
        ensures
            final(self).wf(),
            final(self)@ == old(self)@.with_session(owner, old(self)@.session_of(owner).paused(now)),
            r == pauses(old(self)@.session_of(owner).started_at),
    {
        match self.take_account(owner) {
            None => {
                assert(self@.sessions =~= old(self)@.sessions);
                assert(self@.orders =~= old(self)@.orders);
                false
            },
            Some(mut a) => {
                let r = a.session.pause_at(now);
                self.store_account(owner, a);
                assert(self@.sessions =~= old(self)@.sessions.insert(owner, a.session));
                assert(self@.orders =~= old(self)@.orders);
                r
            },
        }
    }
}


impl Account {
    /// The id that the next order of this account gets.
    fn next_order_id(&self) -> (r: u128)
        ensures
            r == self.orders@.len() + 1,
    {
        self.orders.len() as u128 + 1
    }
}

impl ConectaBrasil {
    /// Order `order_id` of `owner`, if it exists.
    fn order_entry(&self, owner: u64, order_id: u128) -> (r: Option<OrderEntry>)
        ensures
            r is Some <==> self@.has_order(owner, order_id),
            r matches Some(e) ==> e == self@.orders_of(owner)[order_id - 1],
    {
        match self.accounts.get(&owner) {
            Some(a) => {
                if 1 <= order_id && order_id <= a.orders.len() as u128 {
                    Some(a.orders[(order_id - 1) as usize])
                } else {
                    None
                }
            },
            None => None,
        }
    }

    /// What the buyer of `package_id` must pay, and to whom, before
    /// `buy_order` records the purchase. Fails as `buy_order` does.
    pub fn purchase_terms(&self, owner: u64, package_id: u32) -> (r: Result<Payment, Error>)
        ensures
            r is Ok <==> self@.purchase_error(package_id) is None,
            r matches Err(e) ==> self@.purchase_error(package_id) == Some(e),
            r matches Ok(p) ==> p == (Payment {
                token: self@.token->Some_0,
                from: owner,
                to: self@.admin->Some_0,
                amount: self@.packages[package_id].price,
            }),
    {
        match (self.admin, self.token) {
            (Some(admin), Some(token)) => match self.packages.get(&package_id) {
                Some(p) => Ok(Payment { token, from: owner, to: admin, amount: p.price }),
                None => Err(Error::PackageNotFound),
            },
            _ => Err(Error::NotInitialized),
        }
    }

    /// Records a purchase of `package_id` by `owner`, once the payment that
    /// `purchase_terms` names has been made: the order gets the owner's
    /// next id, is uncredited, and is appended to the owner's orders.
    /// Returns its id.
    pub fn buy_order(&mut self, owner: u64, package_id: u32) -> (r: Result<u128, Error>)
        requires
            old(self).wf(),
        ensures
            final(self).wf(),
            r is Ok <==> old(self)@.purchase_error(package_id) is None,
            r matches Err(e) ==> old(self)@.purchase_error(package_id) == Some(e) && *final(self)
                == *old(self),
            r matches Ok(id) ==> id == old(self)@.next_order_id(owner) && final(self)@
                == old(self)@.with_purchase(owner, package_id),
    {
        match purchase_check(self.admin.is_some(), self.token.is_some(), self.packages.contains_key(&package_id)) {
            Ok(()) => {},
            Err(e) => return Err(e),
        }
        let mut a = match self.take_account(owner) {
            Some(a) => a,
            None => Account { session: Session { remaining_secs: 0, started_at: 0 }, orders: Vec::new() },
        };
        let order_id = a.next_order_id();
        let e = OrderEntry {
            rec: OrderRec { package_id, credited: false },
            session: OrderSession::new(order_id),
        };
        a.orders.push(e);
        assert(a.orders@.len() <= usize::MAX) by {
            assert(a.orders.len() == a.orders@.len());
        }
        self.store_account(owner, a);
        let ghost v = old(self)@.with_purchase(owner, package_id);
        assert(self@.sessions =~= v.sessions);
        assert(self@.orders =~= v.orders);
        Ok(order_id)
    }

    /// Credits order `order_id` of `owner`, on behalf of `caller` (the
    /// administrator or the owner, authenticated by the host): adds the
    /// package's duration, clamped, to the owner's aggregate session and to
    /// the order's session, and marks the order credited. An order is
    /// credited at most once.
    pub fn grant(&mut self, caller: u64, owner: u64, order_id: u128) -> (r: Result<(), Error>)
        requires
            old(self).wf(),
        ensures
            final(self).wf(),
            r is Ok <==> old(self)@.grant_error(caller, owner, order_id) is None,
            r matches Err(e) ==> old(self)@.grant_error(caller, owner, order_id) == Some(e)
                && *final(self) == *old(self),
            r is Ok ==> final(self)@ == old(self)@.with_grant(owner, order_id),
    {
        let caller_is_admin = match self.admin {
            Some(admin) => caller == admin,
            None => false,
        };
        let entry = self.order_entry(owner, order_id);
        let rec = match entry {
            Some(e) => Some(e.rec),
            None => None,
        };
        let duration = match rec {
            Some(x) => match self.packages.get(&x.package_id) {
                Some(p) => Some(p.duration_secs),
                None => None,
            },
            None => None,
        };
        let mut s = self.get_session(owner);
        let mut os = match entry {
            Some(e) => e.session,
            None => OrderSession::new(order_id),
        };
        let credited = match grant_step(
            self.admin.is_some(),
            caller_is_admin,
            caller == owner,
            rec,
            duration,
            &mut s,
            &mut os,
        ) {
            Ok(x) => x,
            Err(e) => return Err(e),
        };
        let mut a = match self.take_account(owner) {
            Some(a) => a,
            None => return Err(Error::OrderNotFound),
        };
        let n: usize = a.orders.len();
        assert(order_id - 1 < n);
        let i: usize = (order_id - 1) as usize;
        a.session = s;
        a.orders.set(i, OrderEntry { rec: credited, session: os });
        let ghost v = old(self)@.with_grant(owner, order_id);
        self.store_account(owner, a);
        assert(self@.sessions =~= v.sessions);
        assert(self@.orders =~= v.orders);
        Ok(())
    }
}

impl ConectaBrasil {
    /// Replaces the session of an existing order `order_id` of `owner`.
    fn store_order_session(&mut self, owner: u64, order_id: u128, os: OrderSession)
        requires
            old(self).wf(),
            old(self)@.has_order(owner, order_id),
            os.order_id == order_id,
        ensures
            final(self).wf(),
            final(self)@ == old(self)@.with_order_session(owner, order_id, os),
    {
        let ghost v = old(self)@.with_order_session(owner, order_id, os);
        match self.take_account(owner) {
            Some(mut a) => {
                let n: usize = a.orders.len();
                assert(order_id - 1 < n);
                let i: usize = (order_id - 1) as usize;
                let mut e = a.orders[i];
                e.session = os;
                a.orders.set(i, e);
                self.store_account(owner, a);
                assert(self@.sessions =~= v.sessions);
                assert(self@.orders =~= v.orders);
            },
            None => {},
        }
    }

    /// The session of order `order_id` of `owner`: paused and empty for an
    /// order never bought.
    pub fn get_order_session(&self, owner: u64, order_id: u128) -> (r: OrderSession)
        ensures
            r == self@.order_session_of(owner, order_id),
    {
        match self.order_entry(owner, order_id) {
            Some(e) => e.session,
            None => OrderSession::new(order_id),
        }
    }

    /// The balance of order `order_id` of `owner` left at `now`.
    pub fn remaining_by_order(&self, owner: u64, order_id: u128, now: u64) -> (r: u64)
        ensures
            r == remaining_spec(
                self@.order_session_of(owner, order_id).remaining_secs,
                self@.order_session_of(owner, order_id).started_at,
                now,
            ),
    {
        let os = self.get_order_session(owner, order_id);
        crate::clock::remaining_at_order(&os, now)
    }

    /// Whether order `order_id` of `owner` is running with time left at
    /// `now`.
    pub fn is_order_active(&self, owner: u64, order_id: u128, now: u64) -> (r: bool)
        ensures
            r == active_spec(
                self@.order_session_of(owner, order_id).remaining_secs,
                self@.order_session_of(owner, order_id).started_at,
                now,
            ),
    {
        let os = self.get_order_session(owner, order_id);
        os.is_active_at(now)
    }

    /// Starts the clock of order `order_id` of `owner` at `now`, if it is
    /// paused with time left. The order must exist (else `OrderNotFound`)
    /// and be credited (else `AlreadyGranted`: that code is kept for
    /// compatibility with the deployed contract's clients). Returns whether
    /// it started.
    pub fn start_order(&mut self, owner: u64, order_id: u128, now: u64) -> (r: Result<bool, Error>)
        requires
            old(self).wf(),
        ensures
            final(self).wf(),
            r is Ok <==> old(self)@.start_order_error(owner, order_id) is None,
            r matches Err(e) ==> old(self)@.start_order_error(owner, order_id) == Some(e)
                && *final(self) == *old(self),
            r matches Ok(b) ==> b == starts(
                old(self)@.order_session_of(owner, order_id).remaining_secs,
                old(self)@.order_session_of(owner, order_id).started_at,
            ) && final(self)@ == old(self)@.with_order_session(
                owner,
                order_id,
                old(self)@.order_session_of(owner, order_id).started(now),
            ),
    {
        let entry = self.order_entry(owner, order_id);
        let (rec, mut os) = match entry {
            Some(e) => (Some(e.rec), e.session),
            None => (None, OrderSession::new(order_id)),
        };
        let changed = match start_order_step(rec, &mut os, now) {
            Ok(b) => b,
            Err(e) => return Err(e),
        };
        self.store_order_session(owner, order_id, os);
        Ok(changed)
    }

    /// Pauses the clock of order `order_id` of `owner` at `now`, if it is
    /// running, charging the elapsed time. Returns whether it paused.
    pub fn pause_order(&mut self, owner: u64, order_id: u128, now: u64) -> (r: bool)
        requires
            old(self).wf(),
        ensures
            final(self).wf(),
            r == pauses(old(self)@.order_session_of(owner, order_id).started_at),
            final(self)@ == old(self)@.with_order_session(
                owner,
                order_id,
                old(self)@.order_session_of(owner, order_id).paused(now),
            ),
    {
        match self.order_entry(owner, order_id) {
            Some(e) => {
                let mut os = e.session;
                let changed = os.pause_at(now);
                self.store_order_session(owner, order_id, os);
                changed
            },
            None => false,
        }
    }

    /// The order ids of `owner`, in order of purchase.
    pub fn get_user_orders_list(&self, owner: u64) -> (r: Vec<u128>)
        ensures
            r@ == self@.order_list(owner),
    {
        let mut r: Vec<u128> = Vec::new();
        match self.accounts.get(&owner) {
            Some(a) => {
                let n: usize = a.orders.len();
                let mut i: usize = 0;
                while i < n
                    invariant
                        n == a.orders@.len(),
                        a.orders@ == self@.orders_of(owner),
                        i <= n,
                        r@ == Seq::new(i as nat, |j: int| (j + 1) as u128),
                    decreases n - i,
                {
                    r.push(i as u128 + 1);
                    i = i + 1;
                    assert(r@ =~= Seq::new(i as nat, |j: int| (j + 1) as u128));
                }
            },
            None => {},
        }
        assert(r@ =~= self@.order_list(owner));
        r
    }

    /// `(order id, package id, credited)` for each order of `owner`, in
    /// order of purchase.
    pub fn get_user_packages(&self, owner: u64) -> (r: Vec<(u128, u32, bool)>)
        ensures
            r@ == self@.packages_of(owner),
    {
        let mut r: Vec<(u128, u32, bool)> = Vec::new();
        match self.accounts.get(&owner) {
            Some(a) => {
                let n: usize = a.orders.len();
                let mut i: usize = 0;
                while i < n
                    invariant
                        n == a.orders@.len(),
                        a.orders@ == self@.orders_of(owner),
                        i <= n,
                        r@ == self@.packages_of(owner).take(i as int),
                    decreases n - i,
                {
                    let e = a.orders[i];
                    r.push((i as u128 + 1, e.rec.package_id, e.rec.credited));
                    i = i + 1;
                    assert(r@ =~= self@.packages_of(owner).take(i as int));
                }
            },
            None => {},
        }
        assert(r@ =~= self@.packages_of(owner));
        r
    }

    /// The ids of the orders of `owner` whose clock is running with time
    /// left at `now`, in order of purchase.
    pub fn get_active_orders(&self, owner: u64, now: u64) -> (r: Vec<u128>)
        ensures
            r@ == active_ids_spec(self@.orders_of(owner).map_values(|e: OrderEntry| e.session), now),
    {
        let mut sessions: Vec<OrderSession> = Vec::new();
        match self.accounts.get(&owner) {
            Some(a) => {
                let n: usize = a.orders.len();
                let mut i: usize = 0;
                while i < n
                    invariant
                        n == a.orders@.len(),
                        a.orders@ == self@.orders_of(owner),
                        i <= n,
                        sessions@ == a.orders@.take(i as int).map_values(|e: OrderEntry| e.session),
                    decreases n - i,
                {
                    sessions.push(a.orders[i].session);
                    i = i + 1;
                    assert(sessions@ =~= a.orders@.take(i as int).map_values(|e: OrderEntry| e.session));
                }
                assert(a.orders@.take(n as int) =~= a.orders@);
            },
            None => {},
        }
        assert(sessions@ =~= self@.orders_of(owner).map_values(|e: OrderEntry| e.session));
        active_order_ids(&sessions, now)
    }

    /// The packages stored under the ids `1..=LISTED_PACKAGE_ID_MAX`, in
    /// ascending id order.
    pub fn get_all_packages(&self) -> (r: Vec<(u32, Package)>)
        ensures
            r@.map_values(|e: (u32, Package)| (e.0, e.1@)) == listed_packages(
                self@.packages,
                LISTED_PACKAGE_ID_MAX as int,
            ),
    {
        let mut r: Vec<(u32, Package)> = Vec::new();
        let mut id: u32 = 1;
        while id <= LISTED_PACKAGE_ID_MAX
            invariant
                1 <= id <= LISTED_PACKAGE_ID_MAX + 1,
                r@.map_values(|e: (u32, Package)| (e.0, e.1@)) == listed_packages(
                    self@.packages,
                    id - 1,
                ),
            decreases LISTED_PACKAGE_ID_MAX + 1 - id,
        {
            match self.packages.get(&id) {
                Some(p) => {
                    let ghost before = r@;
                    r.push((id, p.duplicate()));
                    assert(r@.map_values(|e: (u32, Package)| (e.0, e.1@)) =~= before.map_values(
                        |e: (u32, Package)| (e.0, e.1@),
                    ).push((id, p@)));
                },
                None => {},
            }
            id = id + 1;
        }
        r
    }
}

/// An owner that never bought anything has a paused, empty session.
pub proof fn lemma_unpurchased_owner_has_empty_session(l: ConectaBrasil, owner: u64)
    requires
        l.wf(),
        l@.order_list(owner).len() == 0,
    ensures
        l@.session_of(owner) == Session::empty(),
{
}

/// Two successive purchases by one owner get strictly increasing ids, and
/// both ids are appended to the owner's order list in purchase order.
pub proof fn lemma_successive_purchases(l0: LedgerView, owner: u64, first: u32, second: u32)
    requires
        l0.wf(),
        l0.purchase_error(first) is None,
        l0.purchase_error(second) is None,
    ensures
        ({
            let l1 = l0.with_purchase(owner, first);
            let l2 = l1.with_purchase(owner, second);
            let id1 = l0.next_order_id(owner);
            let id2 = l1.next_order_id(owner);
            &&& l1.purchase_error(second) is None
            &&& id1 < id2
            &&& l2.order_list(owner) == l0.order_list(owner).push(id1).push(id2)
        }),
{
    let l1 = l0.with_purchase(owner, first);
    let l2 = l1.with_purchase(owner, second);
    assert(l2.order_list(owner) =~= l0.order_list(owner).push(l0.next_order_id(owner)).push(
        l1.next_order_id(owner),
    ));
}

/// Crediting is done once per order: after a first grant succeeds, a
/// second grant of the same order by the administrator or the owner fails
/// with `AlreadyGranted`. The first grant adds the package's duration
/// (clamped) to both balances and leaves the order credited.
pub proof fn lemma_grant_once(l0: LedgerView, caller: u64, again: u64, owner: u64, order_id: u128)
    requires
        l0.wf(),
        l0.grant_error(caller, owner, order_id) is None,
        again == l0.admin->Some_0 || again == owner,
    ensures
        ({
            let l1 = l0.with_grant(owner, order_id);
            let d = l0.order_duration(owner, order_id);
            &&& l1.session_of(owner).remaining_secs == crate::clock::credited_spec(
                l0.session_of(owner).remaining_secs,
                d,
            )
            &&& l1.order_session_of(owner, order_id).remaining_secs
                == crate::clock::credited_spec(
                l0.order_session_of(owner, order_id).remaining_secs,
                d,
            )
            &&& l1.order_of(owner, order_id) == Some(
                OrderRec { credited: true, ..l0.order_of(owner, order_id)->Some_0 },
            )
            &&& l1.grant_error(again, owner, order_id) == Some(Error::AlreadyGranted)
        }),
{
}
} // verus!
