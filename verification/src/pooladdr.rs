//! Pool addresses and the arena that stands behind the kernel's
//! doubly linked pool-address list.

use vstd::prelude::*;

use crate::conversion::CopyTo;
use crate::conversion::TryCopyTo;
use crate::errors::PfError;
use crate::rule::interface::Interface;
use crate::rule::ip::Ip;
use crate::wire;

verus! {

/// An address used as a translation or routing target, optionally bound to
/// an interface.
#[derive(Clone, Debug, PartialEq, Eq, Hash)]
pub struct PoolAddr {
    pub interface: Interface,
    pub ip: Ip,
}

impl PoolAddr {
    /// The pool address `ip` bound to `interface`.
    pub fn new(interface: Interface, ip: Ip) -> (r: Self)
        ensures
            r == (PoolAddr { interface, ip }),
    {
        PoolAddr { interface, ip }
    }

    /// Any address on the given interface.
    pub fn from_interface(interface: Interface) -> (r: Self)
        ensures
            r == (PoolAddr { interface, ip: Ip::Any }),
    {
        PoolAddr { interface, ip: Ip::Any }
    }

    /// The given address on any interface.
    pub fn from_ip(ip: Ip) -> (r: Self)
        ensures
            r == (PoolAddr { interface: Interface::Any, ip }),
    {
        PoolAddr { interface: Interface::Any, ip }
    }

    /// What encoding the pool address over a zeroed entry yields.
    #[verifier::opaque]
    pub open spec fn encoded(self) -> Result<wire::RawPoolAddrV, PfError> {
        match self.interface.ifname_encoding(wire::RawPoolAddrV::zeroed().ifname) {
            Ok(ifname) => Ok(wire::RawPoolAddrV { ifname, addr: self.ip.encoded() }),
            Err(e) => Err(e),
        }
    }
}

impl TryCopyTo<wire::RawPoolAddr> for PoolAddr {
    /// The interface name and the address are written over the old entry.
    open spec fn try_copied(&self, old_dst: wire::RawPoolAddrV) -> Result<
        wire::RawPoolAddrV,
        PfError,
    > {
        match self.interface.ifname_encoding(old_dst.ifname) {
            Ok(ifname) => Ok(wire::RawPoolAddrV { ifname, addr: self.ip.encoded() }),
            Err(e) => Err(e),
        }
    }

    fn try_copy_to(&self, dst: &mut wire::RawPoolAddr) -> (r: Result<(), PfError>) {
        self.interface.try_copy_to(&mut dst.ifname)?;
        self.ip.copy_to(&mut dst.addr);
        Ok(())
    }
}

/// One slot of the pool-address arena: the raw entry plus the positions of
/// its neighbours in traversal order. The raw pointers of the kernel's
/// doubly linked list are materialized from these positions only at the
/// moment of the call.
#[derive(Clone, Debug, PartialEq, Eq)]
pub struct PoolEntry {
    pub addr: wire::RawPoolAddr,
    pub next: Option<usize>,
    pub prev: Option<usize>,
}

/// Mathematical view of [`PoolEntry`].
#[verifier::ext_equal]
pub ghost struct PoolEntryV {
    pub addr: wire::RawPoolAddrV,
    pub next: Option<usize>,
    pub prev: Option<usize>,
}

impl View for PoolEntry {
    type V = PoolEntryV;

    open spec fn view(&self) -> PoolEntryV {
        PoolEntryV { addr: self.addr@, next: self.next, prev: self.prev }
    }
}

/// Whether the entries form one chain in slot order: each slot points to
/// the next and previous slots, the first and last marking the list's ends.
pub open spec fn linked(entries: Seq<PoolEntryV>) -> bool {
    forall|i: int|
        0 <= i < entries.len() ==> {
            &&& (#[trigger] entries[i]).next == (if i + 1 < entries.len() {
                Some((i + 1) as usize)
            } else {
                None::<usize>
            })
            &&& entries[i].prev == (if i > 0 {
                Some((i - 1) as usize)
            } else {
                None::<usize>
            })
        }
}

/// The slots visited by following `next` links from `at`, stopping after
/// `fuel` steps or at the list's end.
pub open spec fn chain_from(entries: Seq<PoolEntryV>, at: Option<usize>, fuel: nat) -> Seq<int>
    decreases fuel,
{
    if fuel == 0 {
        Seq::empty()
    } else {
        match at {
            None => Seq::empty(),
            Some(i) => if i < entries.len() {
                seq![i as int] + chain_from(entries, entries[i as int].next, (fuel - 1) as nat)
            } else {
                Seq::empty()
            },
        }
    }
}

/// Law: in a linked arena, following `next` from slot `k` visits the slots
/// `k, k+1, ...` up to the last one, in order.
pub proof fn lemma_chain_in_order(entries: Seq<PoolEntryV>, k: int)
    requires
        linked(entries),
        0 <= k <= entries.len(),
        entries.len() <= usize::MAX,
    ensures
        chain_from(
            entries,
            if k < entries.len() {
                Some(k as usize)
            } else {
                None::<usize>
            },
            (entries.len() - k) as nat,
        ) =~= Seq::new((entries.len() - k) as nat, |i: int| k + i),
    decreases entries.len() - k,
{
    let n = entries.len() as int;
    if k < n {
        lemma_chain_in_order(entries, k + 1);
        assert(entries[k].next == (if k + 1 < n {
            Some((k + 1) as usize)
        } else {
            None::<usize>
        }));
        assert(chain_from(entries, Some(k as usize), (n - k) as nat) =~= seq![k] + chain_from(
            entries,
            entries[k].next,
            (n - k - 1) as nat,
        ));
        assert(chain_from(entries, entries[k].next, (n - k - 1) as nat) =~= Seq::new(
            (n - k - 1) as nat,
            |i: int| k + 1 + i,
        ));
        assert(seq![k] + Seq::new((n - k - 1) as nat, |i: int| k + 1 + i) =~= Seq::new(
            (n - k) as nat,
            |i: int| k + i,
        ));
    }
}

/// An ephemeral, request-scoped list of pool addresses: a backing array of
/// raw entries threaded into a doubly linked chain by slot positions.
///
/// The caller materializes head, tail and neighbour pointers from the slot
/// positions for exactly the duration of the one call that takes the list,
/// and discards everything afterwards.
#[derive(Clone, Debug, PartialEq, Eq)]
pub struct PoolAddrList {
    pub entries: Vec<PoolEntry>,
}

impl View for PoolAddrList {
    type V = Seq<PoolEntryV>;

    open spec fn view(&self) -> Seq<PoolEntryV> {
        Seq::new(self.entries@.len(), |i: int| self.entries@[i]@)
    }
}

impl PoolAddrList {
    /// The slot traversal starts at: the first slot, or nothing for an
    /// empty list.
    pub open spec fn spec_head(self) -> Option<usize> {
        if self@.len() > 0 {
            Some(0usize)
        } else {
            None::<usize>
        }
    }

    /// The slot the traversal starts at.
    pub fn head(&self) -> (r: Option<usize>)
        ensures
            r == self.spec_head(),
    {
        if self.entries.len() > 0 {
            Some(0)
        } else {
            None
        }
    }

    /// Build the list over the given addresses. On success the list holds
    /// exactly one encoded entry per address, in input order, threaded into
    /// one chain; the empty input yields the well-formed empty list. The
    /// first address that cannot be encoded fails the construction with its
    /// error.
    /// Encode one pool address over a fresh zeroed raw entry.
    pub(crate) fn encode_entry(pool_addr: &PoolAddr) -> (r: Result<wire::RawPoolAddr, PfError>)
        ensures
            match r {
                Ok(entry) => Ok::<_, PfError>(entry@) == pool_addr.encoded(),
                Err(e) => pool_addr.encoded() == Err::<wire::RawPoolAddrV, _>(e),
            },
    {
        proof {
            reveal(PoolAddr::encoded);
        }
        let mut raw = wire::RawPoolAddr::zeroed();
        match pool_addr.try_copy_to(&mut raw) {
            Ok(()) => Ok(raw),
            Err(e) => Err(e),
        }
    }

    #[verifier::rlimit(100)]
    pub fn new(pool_addrs: &[PoolAddr]) -> (r: Result<PoolAddrList, PfError>)
        ensures
            match r {
                Ok(list) => {
                    &&& list@.len() == pool_addrs@.len()
                    &&& forall|i: int|
                        0 <= i < pool_addrs@.len() ==> Ok::<_, PfError>(
                            (#[trigger] list@[i]).addr,
                        ) == pool_addrs@[i].encoded()
                    &&& linked(list@)
                },
                Err(e) => exists|i: int|
                    {
                        &&& 0 <= i < pool_addrs@.len()
                        &&& (#[trigger] pool_addrs@[i]).encoded() == Err::<wire::RawPoolAddrV, _>(e)
                        &&& forall|j: int| 0 <= j < i ==> (#[trigger] pool_addrs@[j]).encoded() is Ok
                    },
            },
    {
        let n = pool_addrs.len();
        let mut entries: Vec<PoolEntry> = Vec::new();
        let mut i: usize = 0;
        while i < n
            invariant
                i <= n,
                n == pool_addrs@.len(),
                entries@.len() == i,
                forall|k: int|
                    0 <= k < i ==> Ok::<_, PfError>(
                        (#[trigger] entries@[k]).addr@,
                    ) == pool_addrs@[k].encoded(),
                forall|k: int|
                    0 <= k < i ==> (#[trigger] entries@[k]).next == (if k + 1 < n {
                        Some((k + 1) as usize)
                    } else {
                        None::<usize>
                    }) && entries@[k].prev == (if k > 0 {
                        Some((k - 1) as usize)
                    } else {
                        None::<usize>
                    }),
            decreases n - i,
        {
            let raw = match Self::encode_entry(&pool_addrs[i]) {
                Ok(entry) => entry,
                Err(e) => {
                    proof {
                        assert forall|j: int| 0 <= j < i implies (#[trigger] pool_addrs@[
                            j
                        ]).encoded() is Ok by {
                            assert(Ok::<_, PfError>(entries@[j].addr@) == pool_addrs@[j].encoded());
                        }
                        assert(0 <= i < pool_addrs@.len() && pool_addrs@[i as int].encoded()
                            == Err::<wire::RawPoolAddrV, _>(e));
                    }
                    return Err(e);
                },
            };
            // thread the chain: each slot points at its neighbours
            let next = if i + 1 < n {
                Some(i + 1)
            } else {
                None
            };
            let prev = if i > 0 {
                Some(i - 1)
            } else {
                None
            };
            entries.push(PoolEntry { addr: raw, next, prev });
            i += 1;
        }
        let list = PoolAddrList { entries };
        proof {
            assert forall|j: int| 0 <= j < list@.len() implies {
                &&& (#[trigger] list@[j]).next == (if j + 1 < list@.len() {
                    Some((j + 1) as usize)
                } else {
                    None::<usize>
                })
                &&& list@[j].prev == (if j > 0 {
                    Some((j - 1) as usize)
                } else {
                    None::<usize>
                })
            } by {
                assert(list@[j] == list.entries@[j]@);
            }
        }
        Ok(list)
    }
}

/// Law: following `next` from the head of a linked list visits every entry
/// in order.
pub proof fn lemma_pool_list_traversal(list: PoolAddrList)
    requires
        linked(list@),
        list@.len() <= usize::MAX,
    ensures
        chain_from(list@, list.spec_head(), list@.len()) =~= Seq::new(
            list@.len(),
            |i: int| i,
        ),
{
    lemma_chain_in_order(list@, 0);
}

impl Ip {
    /// The one-element pool-address list holding this address on any
    /// interface.
    pub fn to_pool_addr_list(&self) -> (r: Result<PoolAddrList, PfError>)
        ensures
            match r {
                Ok(list) => {
                    &&& list@.len() == 1
                    &&& Ok::<_, PfError>(list@[0].addr) == (PoolAddr {
                        interface: Interface::Any,
                        ip: *self,
                    }).encoded()
                    &&& linked(list@)
                },
                Err(e) => (PoolAddr { interface: Interface::Any, ip: *self }).encoded()
                    == Err::<wire::RawPoolAddrV, _>(e),
            },
    {
        let mut addrs: Vec<PoolAddr> = Vec::new();
        addrs.push(PoolAddr::from_ip(*self));
        PoolAddrList::new(addrs.as_slice())
    }
}

} // verus!
