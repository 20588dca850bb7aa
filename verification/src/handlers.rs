//! The handler collaborator interface.
//!
//! Ports invoke user-side behaviour in three shapes: mapping functions that
//! convert an event value, filter-mapping functions that may additionally
//! discard it, and replier methods that answer a query.  A value of a type
//! implementing [`Handlers`] supplies all three, each selected by a small
//! integer chosen by the user when connecting a port; the trait ties every
//! invocation to a specification function, so that the fan-out logic can be
//! verified against whatever behaviour the collaborator provides.
//!
//! [`BasicHandlers`] is a small, fully verified implementation covering
//! common arithmetic transformations.

use vstd::prelude::*;

verus! {

/// User-side mapping, filter-mapping and replier behaviour invoked by ports.
pub trait Handlers {
    /// What the mapping function `f` returns on `v`.
    spec fn map_spec(&self, f: u64, v: u64) -> u64;

    /// What the filter-mapping function `f` returns on `v`; `None` means the
    /// value is discarded.
    spec fn filter_map_spec(&self, f: u64, v: u64) -> Option<u64>;

    /// What the replier `r` replies to the query `q`.
    spec fn reply_spec(&self, r: u64, q: u64) -> u64;

    /// Applies the mapping function `f` to `v`.
    fn map(&self, f: u64, v: u64) -> (r: u64)
        ensures
            r == self.map_spec(f, v),
    ;

    /// Applies the filter-mapping function `f` to `v`.
    fn filter_map(&self, f: u64, v: u64) -> (r: Option<u64>)
        ensures
            r == self.filter_map_spec(f, v),
    ;

    /// Invokes the replier `r` on the query `q` and returns its reply.
    fn reply(&self, r: u64, q: u64) -> (out: u64)
        ensures
            out == self.reply_spec(r, q),
    ;
}

/// Mapping function id: the identity.
pub const MAP_IDENTITY: u64 = 0;

/// Mapping function id: doubling, saturating at `u64::MAX`.
pub const MAP_DOUBLE: u64 = 1;

/// Mapping function id: increment, saturating at `u64::MAX`.
pub const MAP_PLUS_ONE: u64 = 2;

/// Filter-mapping function id: keeps every value unchanged.
pub const FILTER_KEEP_ALL: u64 = 0;

/// Filter-mapping function id: keeps even values unchanged, discards odd ones.
pub const FILTER_KEEP_EVEN: u64 = 1;

/// Filter-mapping function id: discards every value.
pub const FILTER_DROP_ALL: u64 = 2;

/// Replier id: replies with the query itself.
pub const REPLY_ECHO: u64 = 0;

/// Replier id: replies with the query plus one, saturating at `u64::MAX`.
pub const REPLY_PLUS_ONE: u64 = 1;

/// Replier id: replies with the doubled query, saturating at `u64::MAX`.
pub const REPLY_DOUBLE: u64 = 2;

/// A small arithmetic [`Handlers`] collaborator: identity, doubling and
/// increment as mappings; keep-all, keep-even and drop-all as filters;
/// echo, increment and doubling as repliers.  Unlisted ids behave as the
/// identity (mappings, repliers) or as keep-all (filters).
pub struct BasicHandlers;

impl Handlers for BasicHandlers {
    open spec fn map_spec(&self, f: u64, v: u64) -> u64 {
        if f == MAP_DOUBLE {
            if 2 * v <= u64::MAX {
                (2 * v) as u64
            } else {
                u64::MAX
            }
        } else if f == MAP_PLUS_ONE {
            if v < u64::MAX {
                (v + 1) as u64
            } else {
                u64::MAX
            }
        } else {
            v
        }
    }

    open spec fn filter_map_spec(&self, f: u64, v: u64) -> Option<u64> {
        if f == FILTER_KEEP_EVEN {
            if v % 2 == 0 {
                Some(v)
            } else {
                None
            }
        } else if f == FILTER_DROP_ALL {
            None
        } else {
            Some(v)
        }
    }

    open spec fn reply_spec(&self, r: u64, q: u64) -> u64 {
        if r == REPLY_PLUS_ONE {
            if q < u64::MAX {
                (q + 1) as u64
            } else {
                u64::MAX
            }
        } else if r == REPLY_DOUBLE {
            if 2 * q <= u64::MAX {
                (2 * q) as u64
            } else {
                u64::MAX
            }
        } else {
            q
        }
    }

    fn map(&self, f: u64, v: u64) -> (r: u64)
        ensures
            r == self.map_spec(f, v),
    {
        if f == MAP_DOUBLE {
            if v <= u64::MAX / 2 {
                2 * v
            } else {
                u64::MAX
            }
        } else if f == MAP_PLUS_ONE {
            if v < u64::MAX {
                v + 1
            } else {
                u64::MAX
            }
        } else {
            v
        }
    }

    fn filter_map(&self, f: u64, v: u64) -> (r: Option<u64>)
        ensures
            r == self.filter_map_spec(f, v),
    {
        if f == FILTER_KEEP_EVEN {
            if v % 2 == 0 {
                Some(v)
            } else {
                None
            }
        } else if f == FILTER_DROP_ALL {
            None
        } else {
            Some(v)
        }
    }

    fn reply(&self, r: u64, q: u64) -> (out: u64)
        ensures
            out == self.reply_spec(r, q),
    {
        if r == REPLY_PLUS_ONE {
            if q < u64::MAX {
                q + 1
            } else {
                u64::MAX
            }
        } else if r == REPLY_DOUBLE {
            if q <= u64::MAX / 2 {
                2 * q
            } else {
                u64::MAX
            }
        } else {
            q
        }
    }
}

} // verus!
