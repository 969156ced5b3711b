use vstd::prelude::*;

use crate::pooladdr::PoolAddr;

verus! {

/// Raw route option: no special routing (`PF_NOPFROUTE`).
pub const PF_NOPFROUTE: u8 = 0;

/// Raw route option: route matching packets to a target (`PF_ROUTETO`).
pub const PF_ROUTETO: u8 = 2;

/// Raw route option: duplicate matching packets to a target (`PF_DUPTO`).
pub const PF_DUPTO: u8 = 3;

/// Raw route option: route replies to a target (`PF_REPLYTO`).
pub const PF_REPLYTO: u8 = 4;

/// How matching packets are routed: not at all, or to a pool address.
#[derive(Clone, Debug, PartialEq, Eq, Hash)]
pub enum Route {
    NoRoute,
    RouteTo(PoolAddr),
    ReplyTo(PoolAddr),
    DupTo(PoolAddr),
}

impl Default for Route {
    /// By default a rule applies no special routing.
    fn default() -> (r: Self)
        ensures
            r == Route::NoRoute,
    {
        Route::NoRoute
    }
}

impl Route {
    /// Route matching packets to `pool_addr`.
    pub fn route_to(pool_addr: PoolAddr) -> (r: Self)
        ensures
            r == Route::RouteTo(pool_addr),
    {
        Route::RouteTo(pool_addr)
    }

    /// Route replies to `pool_addr`.
    pub fn reply_to(pool_addr: PoolAddr) -> (r: Self)
        ensures
            r == Route::ReplyTo(pool_addr),
    {
        Route::ReplyTo(pool_addr)
    }

    /// Duplicate matching packets to `pool_addr`.
    pub fn dup_to(pool_addr: PoolAddr) -> (r: Self)
        ensures
            r == Route::DupTo(pool_addr),
    {
        Route::DupTo(pool_addr)
    }

    /// The routing target, if any.
    pub open spec fn spec_pool_addr(self) -> Option<PoolAddr> {
        match self {
            Route::NoRoute => None,
            Route::RouteTo(pool_addr) => Some(pool_addr),
            Route::ReplyTo(pool_addr) => Some(pool_addr),
            Route::DupTo(pool_addr) => Some(pool_addr),
        }
    }

    /// Return the routing target, if any.
    pub fn get_pool_addr(&self) -> (r: Option<&PoolAddr>)
        ensures
            match r {
                Some(pool_addr) => self.spec_pool_addr() == Some(*pool_addr),
                None => self.spec_pool_addr() is None,
            },
    {
        match self {
            Route::NoRoute => None,
            Route::RouteTo(pool_addr) => Some(pool_addr),
            Route::ReplyTo(pool_addr) => Some(pool_addr),
            Route::DupTo(pool_addr) => Some(pool_addr),
        }
    }

    /// The raw route byte this option encodes to.
    pub open spec fn raw(self) -> u8 {
        match self {
            Route::NoRoute => PF_NOPFROUTE,
            Route::RouteTo(_) => PF_ROUTETO,
            Route::ReplyTo(_) => PF_REPLYTO,
            Route::DupTo(_) => PF_DUPTO,
        }
    }

    /// Encode into the raw route byte.
    pub fn to_raw(&self) -> (r: u8)
        ensures
            r == self.raw(),
    {
        match self {
            Route::NoRoute => PF_NOPFROUTE,
            Route::RouteTo(_) => PF_ROUTETO,
            Route::ReplyTo(_) => PF_REPLYTO,
            Route::DupTo(_) => PF_DUPTO,
        }
    }
}

} // verus!
