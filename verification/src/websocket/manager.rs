//! The table of currently open outbound channels, keyed by remote address.

use super::address::Address;
use super::frame::{ends_session, receive, Inbound};
use std::ops::ControlFlow;
use vstd::prelude::*;

verus! {

/// How a targeted send ended.
#[derive(Clone, Copy, PartialEq, Eq, Structural, Debug)]
pub enum SendOutcome {
    /// The channel took the message.
    Sent,
    /// No channel is registered for the address.
    NotFound,
    /// A channel is registered, and it refused the message.
    SendFailed,
}

/// The outcome of a send for which the table was asked first: `found` says
/// whether it held a channel for the address, `written` whether that channel
/// took the message.
pub open spec fn reported(found: bool, written: bool) -> SendOutcome {
    if !found {
        SendOutcome::NotFound
    } else if written {
        SendOutcome::Sent
    } else {
        SendOutcome::SendFailed
    }
}

/// The outcome of a send to `address` on a table, where `written` says
/// whether the channel, if there is one, took the message.
pub open spec fn send_outcome<C>(table: Map<Address, C>, address: Address, written: bool)
    -> SendOutcome {
    reported(table.contains_key(address), written)
}

impl SendOutcome {
    /// The second half of a targeted send: names the outcome, from whether
    /// the registry held a channel and whether that channel took the message.
    /// A peer that is not registered is an outcome like the others, no fault.
    pub fn report(found: bool, written: bool) -> (outcome: SendOutcome)
        ensures
            outcome == reported(found, written),
    {
        if !found {
            SendOutcome::NotFound
        } else if written {
            SendOutcome::Sent
        } else {
            SendOutcome::SendFailed
        }
    }
}

/// No address occurs twice.
spec fn distinct(addresses: Seq<Address>) -> bool {
    forall|i: int, j: int| 0 <= i < j < addresses.len() ==> addresses[i] != addresses[j]
}

/// The table that two rows of equal length stand for: each address with the
/// channel at its place.
spec fn table_of<C>(addresses: Seq<Address>, senders: Seq<C>) -> Map<Address, C> {
    Map::new(|a: Address| addresses.contains(a), |a: Address| senders[addresses.index_of(a)])
}

/// The registry of live connections: for each connected peer the outbound
/// half of its channel. `C` is the type of that half. At most one channel is
/// held for an address at any time.
pub struct WebSocketManager<C> {
    addresses: Vec<Address>,
    senders: Vec<C>,
}

impl<C> View for WebSocketManager<C> {
    type V = Map<Address, C>;

    closed spec fn view(&self) -> Map<Address, C> {
        table_of(self.addresses@, self.senders@)
    }
}

impl<C> WebSocketManager<C> {
    #[verifier::type_invariant]
    spec fn well_formed(self) -> bool {
        distinct(self.addresses@) && self.addresses@.len() == self.senders@.len()
    }

    /// An empty registry.
    pub fn new() -> (manager: Self)
        ensures
            manager@ == Map::<Address, C>::empty(),
    {
        let manager = WebSocketManager { addresses: Vec::new(), senders: Vec::new() };
        assert(manager@ =~= Map::<Address, C>::empty());
        manager
    }

    /// Where the address stands in the rows, if it does.
    fn position(&self, address: Address) -> (at: Option<usize>)
        ensures
            match at {
                Some(i) => i < self.addresses@.len() && self.addresses@[i as int] == address,
                None => !self.addresses@.contains(address),
            },
    {
        let mut i: usize = 0;
        while i < self.addresses.len()
            invariant
                i <= self.addresses@.len(),
                forall|k: int| 0 <= k < i ==> self.addresses@[k] != address,
            decreases self.addresses@.len() - i,
        {
            if self.addresses[i] == address {
                return Some(i);
            }
            i += 1;
        }
        None
    }

    /// Whether a channel is registered for the address.
    pub fn has_client(&self, address: Address) -> (found: bool)
        ensures
            found == self@.contains_key(address),
    {
        self.position(address).is_some()
    }

    /// The number of registered channels.
    pub fn len(&self) -> (n: usize)
        ensures
            n == self@.len(),
            self@.dom().finite(),
    {
        proof {
            use_type_invariant(self);
            lemma_table_len(self.addresses@, self.senders@);
        }
        self.addresses.len()
    }

    /// Registers the outbound half of a new connection. A channel already
    /// held for the address is superseded: the new one takes its place.
    pub fn add_client(&mut self, address: Address, sender: C)
        ensures
            final(self)@ == old(self)@.insert(address, sender),
    {
        proof {
            use_type_invariant(&*self);
        }
        match self.position(address) {
            Some(i) => {
                let ghost before = self.senders@;
                self.senders[i] = sender;
                assert(self@ =~= table_of(self.addresses@, before).insert(address, sender));
            },
            None => {
                let mut taken = Self::new();
                std::mem::swap(self, &mut taken);
                let WebSocketManager { addresses: mut addresses, senders: mut senders } = taken;
                proof {
                    lemma_table_push(addresses@, senders@, address, sender);
                }
                addresses.push(address);
                senders.push(sender);
                *self = WebSocketManager { addresses, senders };
            },
        }
    }

    /// Drops the channel held for the address. Where none is held, nothing
    /// changes. The channel is not closed, only forgotten.
    pub fn remove_client(&mut self, address: Address)
        ensures
            final(self)@ == old(self)@.remove(address),
    {
        proof {
            use_type_invariant(&*self);
        }
        match self.position(address) {
            Some(i) => {
                let mut taken = Self::new();
                std::mem::swap(self, &mut taken);
                let WebSocketManager { addresses: mut addresses, senders: mut senders } = taken;
                proof {
                    lemma_table_remove(addresses@, senders@, i as int);
                }
                addresses.remove(i);
                senders.remove(i);
                *self = WebSocketManager { addresses, senders };
            },
            None => {
                assert(self@ =~= self@.remove(address));
            },
        }
    }

    /// The first half of a targeted send: looks the address up and hands
    /// out the channel to write to. `None` is the outcome `NotFound`. The
    /// caller writes the message and reports with `SendOutcome::report`.
    /// Whatever the write does to the channel, the channel stays registered.
    pub fn send_to_client(&mut self, address: Address) -> (channel: Option<&mut C>)
        ensures
            match channel {
                Some(c) => old(self)@.contains_key(address) && *c == old(self)@[address]
                    && final(self)@ == old(self)@.insert(address, *final(c)),
                None => !old(self)@.contains_key(address) && final(self)@ == old(self)@,
            },
    {
        proof {
            use_type_invariant(&*self);
        }
        match self.position(address) {
            Some(i) => {
                let c = &mut self.senders[i];
                Some(c)
            },
            None => None,
        }
    }

    /// One turn of the receive loop of the connection at `address`: where
    /// the read ends the session the channel is dropped from the registry
    /// and the loop breaks, and else nothing changes and the loop goes on.
    pub fn handle_socket(&mut self, address: Address, inbound: &Inbound) -> (flow: ControlFlow<
        (),
        (),
    >)
        ensures
            ends_session(*inbound) ==> {
                &&& flow == ControlFlow::<(), ()>::Break(())
                &&& final(self)@ == old(self)@.remove(address)
            },
            !ends_session(*inbound) ==> {
                &&& flow == ControlFlow::<(), ()>::Continue(())
                &&& final(self)@ == old(self)@
            },
    {
        let flow = receive(inbound);
        match flow {
            ControlFlow::Break(_) => {
                self.remove_client(address);
            },
            ControlFlow::Continue(_) => {},
        }
        flow
    }
}

impl<C> Default for WebSocketManager<C> {
    /// An empty registry.
    fn default() -> (manager: Self)
        ensures
            manager@ == Map::<Address, C>::empty(),
    {
        Self::new()
    }
}

/// A send to an address right after a channel was registered for it finds
/// the channel: the outcome is `Sent` or `SendFailed`, never `NotFound`.
pub proof fn registered_peer_is_found<C>(
    table: Map<Address, C>,
    address: Address,
    sender: C,
    written: bool,
)
    ensures
        send_outcome(table.insert(address, sender), address, written) != SendOutcome::NotFound,
        send_outcome(table.insert(address, sender), address, written) == if written {
            SendOutcome::Sent
        } else {
            SendOutcome::SendFailed
        },
{
}

/// A send to an address after its channel was dropped is `NotFound`,
/// whatever the table held before.
pub proof fn unregistered_peer_is_not_found<C>(
    table: Map<Address, C>,
    address: Address,
    written: bool,
)
    ensures
        send_outcome(table.remove(address), address, written) == SendOutcome::NotFound,
{
}

/// A send that fails leaves the peer registered: writing to a channel, with
/// whatever result, takes no address out of the table and adds none.
pub proof fn failed_send_keeps_peer<C>(table: Map<Address, C>, address: Address, after: C)
    requires
        table.contains_key(address),
    ensures
        table.insert(address, after).dom() == table.dom(),
{
    assert(table.insert(address, after).dom() =~= table.dom());
}

/// Dropping an address that was never registered changes nothing, and
/// dropping an address twice is dropping it once.
pub proof fn unregister_is_idempotent<C>(table: Map<Address, C>, address: Address)
    ensures
        !table.contains_key(address) ==> table.remove(address) == table,
        table.remove(address).remove(address) == table.remove(address),
{
    if !table.contains_key(address) {
        assert(table.remove(address) =~= table);
    }
    assert(table.remove(address).remove(address) =~= table.remove(address));
}

/// Registering twice for one address keeps the later channel alone.
pub proof fn register_supersedes<C>(table: Map<Address, C>, address: Address, first: C, second: C)
    ensures
        table.insert(address, first).insert(address, second) == table.insert(address, second),
{
    assert(table.insert(address, first).insert(address, second) =~= table.insert(
        address,
        second,
    ));
}

/// A row of distinct addresses stands for a table with as many entries.
proof fn lemma_table_len<C>(addresses: Seq<Address>, senders: Seq<C>)
    requires
        distinct(addresses),
        addresses.len() == senders.len(),
    ensures
        table_of(addresses, senders).dom().finite(),
        table_of(addresses, senders).len() == addresses.len(),
    decreases addresses.len(),
{
    let table = table_of(addresses, senders);
    if addresses.len() == 0 {
        assert(table.dom() =~= Set::<Address>::empty());
    } else {
        let last = addresses.last();
        let front = addresses.drop_last();
        lemma_table_len(front, senders.drop_last());
        let rest = table_of(front, senders.drop_last());
        assert forall|a: Address| table.dom().contains(a) <==> rest.dom().insert(last).contains(
            a,
        ) by {
            if addresses.contains(a) {
                let i = addresses.index_of(a);
                if i < front.len() {
                    assert(front[i] == a);
                }
            }
            if front.contains(a) {
                let i = front.index_of(a);
                assert(addresses[i] == a);
            }
            if a == last {
                assert(addresses[addresses.len() - 1] == a);
            }
        }
        assert(table.dom() =~= rest.dom().insert(last));
        assert(!rest.dom().contains(last)) by {
            if front.contains(last) {
                let i = front.index_of(last);
                assert(addresses[i] == addresses[addresses.len() - 1]);
            }
        }
    }
}

/// Adding an address that is not yet held, with its channel, at the end of
/// the rows inserts the pair into the table.
proof fn lemma_table_push<C>(addresses: Seq<Address>, senders: Seq<C>, address: Address, sender: C)
    requires
        distinct(addresses),
        addresses.len() == senders.len(),
        !addresses.contains(address),
    ensures
        distinct(addresses.push(address)),
        table_of(addresses.push(address), senders.push(sender)) == table_of(
            addresses,
            senders,
        ).insert(address, sender),
{
    let keys = addresses.push(address);
    let vals = senders.push(sender);
    assert(distinct(keys)) by {
        assert forall|i: int, j: int| 0 <= i < j < keys.len() implies keys[i] != keys[j] by {
            if j == addresses.len() {
                assert(addresses[i] == keys[i]);
            }
        }
    }
    let left = table_of(keys, vals);
    let right = table_of(addresses, senders).insert(address, sender);
    assert forall|a: Address| left.contains_key(a) <==> right.contains_key(a) by {
        if keys.contains(a) {
            let i = keys.index_of(a);
            if i < addresses.len() {
                assert(addresses[i] == a);
            }
        }
        if addresses.contains(a) {
            let i = addresses.index_of(a);
            assert(keys[i] == a);
        }
        assert(keys[addresses.len() as int] == address);
    }
    assert forall|a: Address| left.contains_key(a) implies left[a] == right[a] by {
        let i = keys.index_of(a);
        if a == address {
            assert(keys[addresses.len() as int] == address);
            assert(i == addresses.len());
        } else {
            assert(addresses[i] == a);
            let k = addresses.index_of(a);
            assert(keys[k] == a);
            assert(k == i);
        }
    }
    assert(left =~= right);
}

/// Taking one place out of the rows removes its address from the table.
proof fn lemma_table_remove<C>(addresses: Seq<Address>, senders: Seq<C>, at: int)
    requires
        distinct(addresses),
        addresses.len() == senders.len(),
        0 <= at < addresses.len(),
    ensures
        distinct(addresses.remove(at)),
        table_of(addresses.remove(at), senders.remove(at)) == table_of(addresses, senders).remove(
            addresses[at],
        ),
{
    let keys = addresses.remove(at);
    let vals = senders.remove(at);
    let gone = addresses[at];
    assert forall|i: int| 0 <= i < keys.len() implies keys[i] == addresses[if i < at {
        i
    } else {
        i + 1
    }] && vals[i] == senders[if i < at {
        i
    } else {
        i + 1
    }] by {}
    assert(distinct(keys));
    let left = table_of(keys, vals);
    let right = table_of(addresses, senders).remove(gone);
    assert forall|a: Address| left.contains_key(a) <==> right.contains_key(a) by {
        if keys.contains(a) {
            let i = keys.index_of(a);
            let k = if i < at {
                i
            } else {
                i + 1
            };
            assert(addresses[k] == a);
        }
        if addresses.contains(a) && a != gone {
            let k = addresses.index_of(a);
            let i = if k < at {
                k
            } else {
                k - 1
            };
            assert(keys[i] == a);
        }
    }
    assert forall|a: Address| left.contains_key(a) implies left[a] == right[a] by {
        let i = keys.index_of(a);
        let k = if i < at {
            i
        } else {
            i + 1
        };
        assert(addresses[k] == a);
        let m = addresses.index_of(a);
        assert(m == k);
    }
    assert(left =~= right);
}

} // verus!
