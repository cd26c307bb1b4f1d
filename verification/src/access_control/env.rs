//! The contract's ledger state: the role memberships and counters kept in the
//! contract's instance storage, and the events the contract has published.

use vstd::prelude::*;

use crate::access_control::grant_revoke::{RoleGranted, RoleRevoked};
use crate::access_control::roles::Role;

verus! {

/// An account address, held as the bytes of its strkey encoding
/// (for example `GA...` for an account or `CA...` for a contract).
#[derive(Debug)]
pub struct Address {
    pub strkey: Vec<u8>,
}

impl View for Address {
    type V = Seq<u8>;

    open spec fn view(&self) -> Seq<u8> {
        self.strkey@
    }
}

impl Address {
    /// A copy of this address.
    pub fn duplicate(&self) -> (copy: Address)
        ensures
            copy@ == self@,
    {
        let mut strkey: Vec<u8> = Vec::new();
        let n = self.strkey.len();
        for i in 0..n
            invariant
                n == self.strkey@.len(),
                strkey@ == self.strkey@.subrange(0, i as int),
        {
            strkey.push(self.strkey[i]);
        }
        proof {
            assert(self.strkey@.subrange(0, n as int) =~= self.strkey@);
        }
        Address { strkey }
    }

    /// Whether two addresses are the same account.
    pub fn same_as(&self, other: &Address) -> (same: bool)
        ensures
            same == (self@ == other@),
    {
        let n = self.strkey.len();
        if n != other.strkey.len() {
            return false;
        }
        for i in 0..n
            invariant
                n == self.strkey@.len(),
                n == other.strkey@.len(),
                self.strkey@.subrange(0, i as int) == other.strkey@.subrange(0, i as int),
        {
            if self.strkey[i] != other.strkey[i] {
                proof {
                    assert(self.strkey@[i as int] != other.strkey@[i as int]);
                }
                return false;
            }
            proof {
                assert(self.strkey@.subrange(0, i + 1) =~= self.strkey@.subrange(0, i as int).push(self.strkey@[i as int]));
                assert(other.strkey@.subrange(0, i + 1) =~= other.strkey@.subrange(0, i as int).push(other.strkey@[i as int]));
            }
        }
        proof {
            assert(self.strkey@.subrange(0, n as int) =~= self.strkey@);
            assert(other.strkey@.subrange(0, n as int) =~= other.strkey@);
        }
        true
    }
}

/// An event published by the contract.
#[derive(Debug)]
pub enum PublishedEvent {
    RoleGranted(RoleGranted),
    RoleRevoked(RoleRevoked),
}

/// What an event says: which role was granted to or revoked from whom.
pub ghost enum EventRecord {
    Granted { role: Role, account: Seq<u8> },
    Revoked { role: Role, account: Seq<u8> },
}

impl View for PublishedEvent {
    type V = EventRecord;

    open spec fn view(&self) -> EventRecord {
        match self {
            PublishedEvent::RoleGranted(e) => EventRecord::Granted { role: e.role, account: e.account@ },
            PublishedEvent::RoleRevoked(e) => EventRecord::Revoked { role: e.role, account: e.account@ },
        }
    }
}

/// A role membership flag stored for one `(role, account)` pair.
#[derive(Debug)]
pub struct Membership {
    pub role: Role,
    pub account: Address,
    pub member: bool,
}

/// What the ledger holds for this contract.
pub ghost struct EnvView {
    /// The membership flag stored for each `(role, account)` pair; a pair
    /// with nothing stored holds no role.
    pub members: Map<(Role, Seq<u8>), bool>,
    /// Bumped on every grant and revoke.
    pub revocation_epoch: u64,
    /// Bumped on every revocation.
    pub revocation_nonce: u64,
    /// Whether the first admin has been installed.
    pub initialized: bool,
    /// Every event published so far, oldest first.
    pub events: Seq<EventRecord>,
}

impl EnvView {
    /// Whether `account` currently holds `role`.
    pub open spec fn holds(self, role: Role, account: Seq<u8>) -> bool {
        self.members.contains_key((role, account)) && self.members[(role, account)]
    }
}

/// The ledger state of one access-control contract instance.
pub struct Env {
    members: Vec<Membership>,
    member_flags: Ghost<Map<(Role, Seq<u8>), bool>>,
    revocation_epoch: u64,
    revocation_nonce: u64,
    initialized: bool,
    events: Vec<PublishedEvent>,
}

/// The storage key of a membership entry.
pub open spec fn entry_key(m: Membership) -> (Role, Seq<u8>) {
    (m.role, m.account@)
}

/// `entries` stores exactly the flags of `flags`, one entry per key.
pub closed spec fn entries_match(entries: Seq<Membership>, flags: Map<(Role, Seq<u8>), bool>) -> bool {
    &&& forall|i: int| 0 <= i < entries.len() ==> {
        &&& #[trigger] flags.contains_key(entry_key(entries[i]))
        &&& flags[entry_key(entries[i])] == entries[i].member
    }
    &&& forall|k: (Role, Seq<u8>)| #[trigger] flags.contains_key(k)
        ==> exists|i: int| 0 <= i < entries.len() && #[trigger] entry_key(entries[i]) == k
    &&& forall|i: int, j: int| 0 <= i < j < entries.len()
        ==> entry_key(#[trigger] entries[i]) != entry_key(#[trigger] entries[j])
}

impl View for Env {
    type V = EnvView;

    closed spec fn view(&self) -> EnvView {
        EnvView {
            members: self.member_flags@,
            revocation_epoch: self.revocation_epoch,
            revocation_nonce: self.revocation_nonce,
            initialized: self.initialized,
            events: self.events@.map_values(|e: PublishedEvent| e@),
        }
    }
}

impl Env {
    /// The stored entries are exactly the membership map, one entry per key.
    #[verifier::type_invariant]
    closed spec fn stores_exactly_the_flags(self) -> bool {
        entries_match(self.members@, self.member_flags@)
    }

    /// A fresh contract instance: nothing stored, nothing published.
    pub fn new() -> (env: Env)
        ensures
            env@.members == Map::<(Role, Seq<u8>), bool>::empty(),
            env@.revocation_epoch == 0,
            env@.revocation_nonce == 0,
            !env@.initialized,
            env@.events == Seq::<EventRecord>::empty(),
    {
        let env = Env {
            members: Vec::new(),
            member_flags: Ghost(Map::empty()),
            revocation_epoch: 0,
            revocation_nonce: 0,
            initialized: false,
            events: Vec::new(),
        };
        proof {
            assert(env.events@.map_values(|e: PublishedEvent| e@) =~= Seq::<EventRecord>::empty());
        }
        env
    }

    /// The position of the entry stored for `(role, account)`, if any.
    fn find_member(&self, role: Role, account: &Address) -> (found: Option<usize>)
        ensures
            found matches Some(i) ==> i < self.members@.len() && entry_key(self.members@[i as int]) == (role, account@),
            found is None ==> !self@.members.contains_key((role, account@)),
    {
        proof {
            use_type_invariant(self);
        }
        let n = self.members.len();
        for i in 0..n
            invariant
                n == self.members@.len(),
                entries_match(self.members@, self.member_flags@),
                forall|j: int| 0 <= j < i ==> entry_key(self.members@[j]) != (role, account@),
        {
            let entry = &self.members[i];
            if entry.role == role && entry.account.same_as(account) {
                return Some(i);
            }
        }
        None
    }

    /// The membership flag stored for `(role, account)`; `false` when nothing
    /// is stored.
    pub fn member_flag(&self, role: Role, account: &Address) -> (flag: bool)
        ensures
            flag == self@.holds(role, account@),
    {
        proof {
            use_type_invariant(self);
        }
        match self.find_member(role, account) {
            Some(i) => self.members[i].member,
            None => false,
        }
    }

    /// Store `member` as the flag for `(role, account)`; nothing else changes.
    pub fn store_member_flag(&mut self, role: Role, account: &Address, member: bool)
        ensures
            final(self)@.members == old(self)@.members.insert((role, account@), member),
            final(self)@.revocation_epoch == old(self)@.revocation_epoch,
            final(self)@.revocation_nonce == old(self)@.revocation_nonce,
            final(self)@.initialized == old(self)@.initialized,
            final(self)@.events == old(self)@.events,
    {
        proof {
            use_type_invariant(&*self);
        }
        let ghost key = (role, account@);
        let ghost pos: int;
        let found = self.find_member(role, account);
        let mut current = Env::new();
        std::mem::swap(&mut current, self);
        let Env { mut members, member_flags, revocation_epoch, revocation_nonce, initialized, events } = current;
        match found {
            Some(i) => {
                let account_copy = members[i].account.duplicate();
                members.set(i, Membership { role, account: account_copy, member });
                proof {
                    pos = i as int;
                }
            }
            None => {
                members.push(Membership { role, account: account.duplicate(), member });
                proof {
                    pos = old(self).members@.len() as int;
                }
            }
        }
        let ghost flags = old(self).member_flags@.insert(key, member);
        proof {
            let entries = members@;
            let old_entries = old(self).members@;
            let old_flags = old(self).member_flags@;
            assert(0 <= pos < entries.len());
            assert(entry_key(entries[pos]) == key && entries[pos].member == member);
            assert forall|i: int| 0 <= i < entries.len() implies
                (#[trigger] entries[i]).member == flags[entry_key(entries[i])] by {
                if i != pos {
                    assert(entries[i] == old_entries[i]);
                    assert(old_flags.contains_key(entry_key(old_entries[i])));
                }
            }
            assert forall|i: int| 0 <= i < entries.len() implies
                #[trigger] flags.contains_key(entry_key(entries[i])) by {
                if i != pos {
                    assert(entries[i] == old_entries[i]);
                    assert(old_flags.contains_key(entry_key(old_entries[i])));
                }
            }
            assert forall|k: (Role, Seq<u8>)| #[trigger] flags.contains_key(k)
                implies exists|i: int| 0 <= i < entries.len() && #[trigger] entry_key(entries[i]) == k by {
                if k != key {
                    let i = choose|i: int| 0 <= i < old_entries.len() && #[trigger] entry_key(old_entries[i]) == k;
                    assert(entries[i] == old_entries[i]);
                    assert(entry_key(entries[i]) == k);
                } else {
                    assert(entry_key(entries[pos]) == k);
                }
            }
            assert forall|i: int, j: int| 0 <= i < j < entries.len()
                implies entry_key(#[trigger] entries[i]) != entry_key(#[trigger] entries[j]) by {
                if i != pos && j != pos {
                    assert(entries[i] == old_entries[i]);
                    assert(entries[j] == old_entries[j]);
                } else if i == pos {
                    assert(entries[j] == old_entries[j]);
                } else {
                    assert(entries[i] == old_entries[i]);
                }
            }
            assert(entries_match(entries, flags));
        }
        *self = Env { members, member_flags: Ghost(flags), revocation_epoch, revocation_nonce, initialized, events };
    }

    /// The stored revocation epoch.
    pub fn stored_revocation_epoch(&self) -> (epoch: u64)
        ensures
            epoch == self@.revocation_epoch,
    {
        self.revocation_epoch
    }

    /// Store `epoch` as the revocation epoch; nothing else changes.
    pub fn store_revocation_epoch(&mut self, epoch: u64)
        ensures
            final(self)@ == (EnvView { revocation_epoch: epoch, ..old(self)@ }),
    {
        proof {
            use_type_invariant(&*self);
        }
        self.revocation_epoch = epoch;
    }

    /// The stored revocation nonce.
    pub fn stored_revocation_nonce(&self) -> (nonce: u64)
        ensures
            nonce == self@.revocation_nonce,
    {
        self.revocation_nonce
    }

    /// Store `nonce` as the revocation nonce; nothing else changes.
    pub fn store_revocation_nonce(&mut self, nonce: u64)
        ensures
            final(self)@ == (EnvView { revocation_nonce: nonce, ..old(self)@ }),
    {
        proof {
            use_type_invariant(&*self);
        }
        self.revocation_nonce = nonce;
    }

    /// Whether the first admin has been installed.
    pub fn is_initialized(&self) -> (initialized: bool)
        ensures
            initialized == self@.initialized,
    {
        self.initialized
    }

    /// Record that the first admin has been installed; nothing else changes.
    pub fn mark_initialized(&mut self)
        ensures
            final(self)@ == (EnvView { initialized: true, ..old(self)@ }),
    {
        proof {
            use_type_invariant(&*self);
        }
        self.initialized = true;
    }

    /// Append an event to the published events; nothing else changes.
    pub fn publish_event(&mut self, event: PublishedEvent)
        ensures
            final(self)@ == (EnvView { events: old(self)@.events.push(event@), ..old(self)@ }),
    {
        proof {
            use_type_invariant(&*self);
        }
        let ghost before = self.events@;
        let ghost record = event@;
        let mut current = Env::new();
        std::mem::swap(&mut current, self);
        let Env { members, member_flags, revocation_epoch, revocation_nonce, initialized, mut events } = current;
        events.push(event);
        proof {
            assert(events@.map_values(|e: PublishedEvent| e@)
                =~= before.map_values(|e: PublishedEvent| e@).push(record));
        }
        *self = Env { members, member_flags, revocation_epoch, revocation_nonce, initialized, events };
    }

    /// The events published so far, oldest first.
    pub fn events(&self) -> (events: &Vec<PublishedEvent>)
        ensures
            events@.map_values(|e: PublishedEvent| e@) == self@.events,
    {
        &self.events
    }
}

} // verus!
