use vstd::prelude::*;

use crate::node::{StoryNode, StoryNodeView};
use crate::validate::bytes_equal;

verus! {

/// A record in the store: its address, the bytes allocated for it, and the node.
pub struct Account {
    pub key: [u8; 32],
    pub space: usize,
    pub node: StoryNode,
}

/// What a record holds, as mathematical values.
pub struct AccountView {
    pub space: nat,
    pub node: StoryNodeView,
}

impl View for Account {
    type V = AccountView;

    open spec fn view(&self) -> AccountView {
        AccountView { space: self.space as nat, node: self.node@ }
    }
}

/// The ledger's records of story nodes, keyed by address.
///
/// A record is created once at an address that holds none, is never removed,
/// and afterwards changes only in its node's branch counter.
pub struct NodeStore {
    accounts: Vec<Account>,
    contents: Ghost<Map<Seq<u8>, AccountView>>,
}

impl View for NodeStore {
    type V = Map<Seq<u8>, AccountView>;

    closed spec fn view(&self) -> Map<Seq<u8>, AccountView> {
        self.contents@
    }
}

/// `v` with its node's branch counter set to `count`.
pub open spec fn with_children_count(v: AccountView, count: u64) -> AccountView {
    AccountView { node: StoryNodeView { children_count: count, ..v.node }, ..v }
}

impl NodeStore {
    /// The records agree with the map, one record per address.
    pub closed spec fn wf(&self) -> bool {
        &&& forall|i: int|
            0 <= i < self.accounts@.len() ==> #[trigger] self.contents@.contains_key(
                self.accounts@[i].key@,
            ) && self.contents@[self.accounts@[i].key@] == self.accounts@[i]@
        &&& forall|k: Seq<u8>|
            #[trigger] self.contents@.contains_key(k) ==> exists|i: int|
                0 <= i < self.accounts@.len() && self.accounts@[i].key@ == k
        &&& forall|i: int, j: int|
            0 <= i < self.accounts@.len() && 0 <= j < self.accounts@.len() && i != j
                ==> self.accounts@[i].key@ != self.accounts@[j].key@
    }

    /// An empty store.
    pub fn new() -> (r: NodeStore)
        ensures
            r.wf(),
            r@ == Map::<Seq<u8>, AccountView>::empty(),
    {
        NodeStore { accounts: Vec::new(), contents: Ghost(Map::empty()) }
    }

    /// The position of the record at `key`, if there is one.
    fn find(&self, key: &[u8; 32]) -> (r: Option<usize>)
        requires
            self.wf(),
        ensures
            match r {
                Some(i) => i < self.accounts@.len() && self.accounts@[i as int].key@ == key@,
                None => !self@.contains_key(key@),
            },
    {
        let mut i: usize = 0;
        while i < self.accounts.len()
            invariant
                self.wf(),
                0 <= i <= self.accounts@.len(),
                forall|j: int| 0 <= j < i ==> self.accounts@[j].key@ != key@,
            decreases self.accounts@.len() - i,
        {
            if bytes_equal(&self.accounts[i].key, key) {
                return Some(i);
            }
            i += 1;
        }
        None
    }

    /// Whether a record is stored at `key`.
    pub fn contains(&self, key: &[u8; 32]) -> (r: bool)
        requires
            self.wf(),
        ensures
            r == self@.contains_key(key@),
    {
        match self.find(key) {
            Some(i) => {
                assert(self@.contains_key(self.accounts@[i as int].key@));
                true
            },
            None => false,
        }
    }

    /// The node stored at `key`, if there is one.
    pub fn get(&self, key: &[u8; 32]) -> (r: Option<&StoryNode>)
        requires
            self.wf(),
        ensures
            r.is_some() == self@.contains_key(key@),
            r.is_some() ==> r.unwrap()@ == self@[key@].node,
    {
        match self.find(key) {
            Some(i) => {
                assert(self@.contains_key(self.accounts@[i as int].key@));
                Some(&self.accounts[i].node)
            },
            None => None,
        }
    }

    /// The number of bytes allocated for the record at `key`, if there is one.
    pub fn space_of(&self, key: &[u8; 32]) -> (r: Option<usize>)
        requires
            self.wf(),
        ensures
            r.is_some() == self@.contains_key(key@),
            r.is_some() ==> r.unwrap() == self@[key@].space,
    {
        match self.find(key) {
            Some(i) => {
                assert(self@.contains_key(self.accounts@[i as int].key@));
                Some(self.accounts[i].space)
            },
            None => None,
        }
    }

    /// Creates a record at an address that holds none.
    pub fn create(&mut self, key: [u8; 32], space: usize, node: StoryNode)
        requires
            old(self).wf(),
            !old(self)@.contains_key(key@),
        ensures
            final(self).wf(),
            final(self)@ == old(self)@.insert(key@, AccountView { space: space as nat, node: node@ }),
    {
        let ghost before = self.accounts@;
        assert forall|i: int| 0 <= i < before.len() implies before[i].key@ != key@ by {
            assert(old(self).contents@.contains_key(before[i].key@));
        }
        let account = Account { key, space, node };
        let ghost v = account@;
        self.accounts.push(account);
        self.contents = Ghost(self.contents@.insert(key@, v));
        assert forall|k: Seq<u8>| #[trigger] self.contents@.contains_key(k) implies exists|i: int|
            0 <= i < self.accounts@.len() && self.accounts@[i].key@ == k by {
            if k != key@ {
                assert(old(self).contents@.contains_key(k));
                let i = choose|i: int| 0 <= i < before.len() && before[i].key@ == k;
                assert(self.accounts@[i].key@ == k);
            } else {
                assert(self.accounts@[before.len() as int].key@ == k);
            }
        }
        assert forall|i: int| 0 <= i < self.accounts@.len() implies #[trigger] self.contents@.contains_key(
            self.accounts@[i].key@,
        ) && self.contents@[self.accounts@[i].key@] == self.accounts@[i]@ by {
            if i < before.len() {
                assert(self.accounts@[i] == before[i]);
                assert(old(self).contents@.contains_key(before[i].key@));
            }
        }
    }

    /// Adds one to the branch counter of the node at `key`.
    pub fn increment_children(&mut self, key: &[u8; 32])
        requires
            old(self).wf(),
            old(self)@.contains_key(key@),
            old(self)@[key@].node.children_count < u64::MAX,
        ensures
            final(self).wf(),
            final(self)@ == old(self)@.insert(
                key@,
                with_children_count(old(self)@[key@], (old(self)@[key@].node.children_count + 1) as u64),
            ),
    {
        let i = match self.find(key) {
            Some(i) => i,
            None => {
                return ;
            },
        };
        let ghost before = self.accounts@;
        assert(old(self).contents@.contains_key(before[i as int].key@));
        let mut account = self.accounts.remove(i);
        account.node.children_count = account.node.children_count + 1;
        let ghost v = account@;
        self.accounts.insert(i, account);
        assert(self.accounts@ =~= before.update(i as int, self.accounts@[i as int]));
        self.contents = Ghost(self.contents@.insert(key@, v));
        assert(v == with_children_count(old(self)@[key@], (old(self)@[key@].node.children_count + 1) as u64));
        assert forall|k: Seq<u8>| #[trigger] self.contents@.contains_key(k) implies exists|j: int|
            0 <= j < self.accounts@.len() && self.accounts@[j].key@ == k by {
            if k != key@ {
                assert(old(self).contents@.contains_key(k));
                let j = choose|j: int| 0 <= j < before.len() && before[j].key@ == k;
                assert(self.accounts@[j].key@ == k);
            } else {
                assert(self.accounts@[i as int].key@ == k);
            }
        }
        assert forall|j: int| 0 <= j < self.accounts@.len() implies #[trigger] self.contents@.contains_key(
            self.accounts@[j].key@,
        ) && self.contents@[self.accounts@[j].key@] == self.accounts@[j]@ by {
            if j != i {
                assert(self.accounts@[j] == before[j]);
                assert(old(self).contents@.contains_key(before[j].key@));
            }
        }
    }
}

} // verus!
