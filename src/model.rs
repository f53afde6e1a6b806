use vstd::prelude::*;

verus! {

/// A package as the contracts see it: its strings as character sequences.
pub ghost struct PackageView {
    pub price: i128,
    pub duration_secs: u32,
    pub name: Seq<char>,
    pub speed_label: Seq<char>,
    pub is_popular: bool,
}

/// A package of the catalog: what it costs and how many seconds it grants.
pub struct Package {
    pub price: i128,
    pub duration_secs: u32,
    pub name: String,
    pub speed_label: String,
    pub is_popular: bool,
}

impl View for Package {
    type V = PackageView;

    open spec fn view(&self) -> PackageView {
        PackageView {
            price: self.price,
            duration_secs: self.duration_secs,
            name: self.name@,
            speed_label: self.speed_label@,
            is_popular: self.is_popular,
        }
    }
}

impl Package {
    /// A field-by-field copy of the package.
    pub fn duplicate(&self) -> (r: Package)
        ensures
            r@ == self@,
    {
        Package {
            price: self.price,
            duration_secs: self.duration_secs,
            name: self.name.clone(),
            speed_label: self.speed_label.clone(),
            is_popular: self.is_popular,
        }
    }
}

/// The aggregate time balance of an owner. `started_at == 0` means paused;
/// otherwise the balance has been running since `started_at`.
#[derive(Clone, Copy, Debug, PartialEq, Eq, Structural)]
pub struct Session {
    pub remaining_secs: u64,
    pub started_at: u64,
}

/// The time balance of one order, with the same pause/running encoding as
/// [`Session`].
#[derive(Clone, Copy, Debug, PartialEq, Eq, Structural)]
pub struct OrderSession {
    pub order_id: u128,
    pub remaining_secs: u64,
    pub started_at: u64,
}

/// The derived "expires at" view of an owner's aggregate balance.
#[derive(Clone, Copy, Debug, PartialEq, Eq, Structural)]
pub struct Access {
    pub owner: u64,
    pub expires_at: u64,
}

/// A recorded purchase: which package was bought, and whether its time has
/// been credited yet.
#[derive(Clone, Copy, Debug, PartialEq, Eq, Structural)]
pub struct OrderRec {
    pub package_id: u32,
    pub credited: bool,
}

/// Why an operation was refused. A refused operation changes nothing.
#[derive(Clone, Copy, Debug, PartialEq, Eq, Structural)]
pub enum Error {
    AlreadyInitialized,
    NotInitialized,
    Unauthorized,
    PackageNotFound,
    InsufficientBalance,
    OrderNotFound,
    AlreadyGranted,
}

} // verus!
