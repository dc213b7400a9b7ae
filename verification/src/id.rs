//! Identifier generation: a Snowflake-style generator seeded by node
//! identity, owned by whoever hands out identifiers.

use flaken::Flaken;
use vstd::prelude::*;

verus! {

/// `flaken::Flaken`, the generator. Nothing inside it is looked at here.
#[verifier::external_type_specification]
#[verifier::external_body]
pub struct ExFlaken(Flaken);

/// `flaken::Flaken::default`: a generator for node 0 with the crate's
/// default epoch and bit widths, started at the current time. Nothing is
/// claimed of it: it reads the clock (and aborts if the clock stands
/// before 1970).
pub assume_specification[ Flaken::default ]() -> (generator: Flaken)
;

/// `flaken::Flaken::node`: the same generator with its node identity
/// replaced. The generator is opaque here, so nothing is claimed.
pub assume_specification[ Flaken::node ](generator: Flaken, node: u64) -> (seeded: Flaken)
;

/// `flaken::Flaken::next`: the next identifier. Its value depends on the
/// time elapsed since the generator was made, so nothing is claimed of it.
/// It aborts if the clock stood before the generator's epoch (the start of
/// 2013) when the generator was made.
pub assume_specification[ Flaken::next ](generator: &mut Flaken) -> (raw: u64)
;

/// The signed 64-bit integer with the same bits as `raw`.
pub open spec fn reinterpreted(raw: u64) -> i64 {
    if raw <= i64::MAX as u64 {
        raw as i64
    } else {
        (raw as int - 0x1_0000_0000_0000_0000) as i64
    }
}

/// Reads the bits of an unsigned identifier as a signed one, which is how
/// identifiers are stored.
pub fn reinterpret(raw: u64) -> (id: i64)
    ensures
        id == reinterpreted(raw),
        raw <= i64::MAX as u64 ==> id as int == raw as int,
{
    if raw <= 0x7fff_ffff_ffff_ffffu64 {
        raw as i64
    } else {
        let low: u64 = raw - 0x8000_0000_0000_0000u64;
        (low as i64) + i64::MIN
    }
}

/// Source of fresh identifiers for one controller node.
///
/// Identifiers come from a Snowflake generator, which orders them by time
/// of issue. Should it ever hand out one that is not above the last, the
/// one after the last is issued in its place: identifiers from one source
/// only ever grow, so none is issued twice.
pub struct IdGenerator {
    flake: Flaken,
    node: u64,
    last: Option<i64>,
}

/// The identifier to issue when the generator offers `offered` after
/// `last` was issued: the offer if it is above the last, else the one
/// after the last (where the last is the greatest there is, that one
/// again).
pub open spec fn issued(last: Option<i64>, offered: i64) -> i64 {
    match last {
        Some(prev) => if offered > prev {
            offered
        } else if prev < i64::MAX {
            (prev + 1) as i64
        } else {
            prev
        },
        None => offered,
    }
}

/// Chooses the identifier to issue.
pub fn issue(last: Option<i64>, offered: i64) -> (id: i64)
    ensures
        id == issued(last, offered),
        last matches Some(prev) ==> id >= prev && (prev < i64::MAX ==> id > prev),
{
    match last {
        Some(prev) => if offered > prev {
            offered
        } else if prev < i64::MAX {
            prev + 1
        } else {
            prev
        },
        None => offered,
    }
}

impl IdGenerator {
    /// The identity of the node that this generator issues identifiers
    /// for: the one it was made with.
    pub closed spec fn node_identity(&self) -> u64 {
        self.node
    }

    /// The identity of the node that this generator issues identifiers
    /// for.
    pub fn node(&self) -> (node: u64)
        ensures
            node == self.node_identity(),
    {
        self.node
    }

    /// The identifier issued last, if any was.
    pub closed spec fn last_issued(&self) -> Option<i64> {
        self.last
    }

    /// The identifier issued last, if any was.
    pub fn last(&self) -> (id: Option<i64>)
        ensures
            id == self.last_issued(),
    {
        self.last
    }

    /// A generator for the node with the given identity (by convention the
    /// node's IPv4 address read as a number), which has issued nothing
    /// yet. The Snowflake generator inside is seeded with the same
    /// identity.
    pub fn new(node: u64) -> (generator: IdGenerator)
        ensures
            generator.node_identity() == node,
            generator.last_issued() is None,
    {
        IdGenerator { flake: Flaken::default().node(node), node, last: None }
    }

    /// The next identifier, as a signed integer: above every identifier
    /// that this generator has issued before. The generator stays with
    /// its node.
    pub fn next(&mut self) -> (id: i64)
        ensures
            final(self).node_identity() == old(self).node_identity(),
            final(self).last_issued() == Some(id),
            old(self).last_issued() matches Some(prev) ==> id >= prev && (prev < i64::MAX ==> id
                > prev),
    {
        let raw: u64 = self.flake.next();
        let id = issue(self.last, reinterpret(raw));
        self.last = Some(id);
        id
    }
}

} // verus!
