//! Keyed stores behind the ledger. Each keeps its entries in a `Vec` with
//! unique keys, and exposes a `Map` (or `Set`) of plain values as its view.
use vstd::prelude::*;

verus! {

/// Compares two 32-byte values.
pub fn same_bytes(a: &[u8; 32], b: &[u8; 32]) -> (r: bool)
    ensures
        r == (a@ == b@),
{
    let mut i: usize = 0;
    while i < 32
        invariant
            0 <= i <= 32,
            forall|j: int| 0 <= j < i ==> a@[j] == b@[j],
        decreases 32 - i,
    {
        if a[i] != b[i] {
            return false;
        }
        i = i + 1;
    }
    assert(a@ =~= b@);
    true
}

/// The persisted state of one transfer.
#[derive(Debug, Clone, Copy, PartialEq, Eq, Structural, Default)]
pub struct TransferAccount {
    pub success_receive: bool,
    pub success_execute: bool,
    pub bump: u8,
}

impl TransferAccount {
    /// The state of a record when it is created.
    pub open spec fn fresh() -> TransferAccount {
        TransferAccount { success_receive: false, success_execute: false, bump: 0 }
    }

    /// A fresh record: nothing received, nothing executed.
    pub fn new() -> (r: TransferAccount)
        ensures
            r == TransferAccount::fresh(),
    {
        TransferAccount { success_receive: false, success_execute: false, bump: 0 }
    }
}

/// The key of a transfer record: the local account and the transfer identifier.
pub type TransferKey = (Seq<u8>, Seq<u8>);

/// The key of the record of `account` for `transfer_hash`.
pub open spec fn transfer_key(account: [u8; 32], transfer_hash: [u8; 32]) -> TransferKey {
    (account@, transfer_hash@)
}

struct TransferEntry {
    account: [u8; 32],
    transfer_hash: [u8; 32],
    record: TransferAccount,
}

/// Transfer records of one direction, keyed by account and identifier.
pub struct TransferTable {
    entries: Vec<TransferEntry>,
    model: Ghost<Map<TransferKey, TransferAccount>>,
}

impl View for TransferTable {
    type V = Map<TransferKey, TransferAccount>;

    closed spec fn view(&self) -> Map<TransferKey, TransferAccount> {
        self.model@
    }
}

impl TransferTable {
    spec fn key_at(&self, i: int) -> TransferKey {
        transfer_key(self.entries@[i].account, self.entries@[i].transfer_hash)
    }

    /// Keys are unique, and the view holds exactly the stored entries.
    pub closed spec fn wf(&self) -> bool {
        &&& forall|i: int, j: int|
            0 <= i < j < self.entries@.len() ==> self.key_at(i) != self.key_at(j)
        &&& forall|i: int|
            0 <= i < self.entries@.len() ==> #[trigger] self.model@.contains_key(self.key_at(i))
                && self.model@[self.key_at(i)] == self.entries@[i].record
        &&& forall|k: TransferKey|
            #[trigger] self.model@.contains_key(k) ==> exists|i: int|
                0 <= i < self.entries@.len() && self.key_at(i) == k
    }

    pub fn new() -> (r: TransferTable)
        ensures
            r.wf(),
            r@ == Map::<TransferKey, TransferAccount>::empty(),
    {
        TransferTable { entries: Vec::new(), model: Ghost(Map::empty()) }
    }

    fn find(&self, account: &[u8; 32], transfer_hash: &[u8; 32]) -> (r: Option<usize>)
        requires
            self.wf(),
        ensures
            match r {
                Some(i) => i < self.entries@.len() && self.key_at(i as int) == transfer_key(
                    *account,
                    *transfer_hash,
                ),
                None => !self@.contains_key(transfer_key(*account, *transfer_hash)),
            },
    {
        let mut i: usize = 0;
        while i < self.entries.len()
            invariant
                self.wf(),
                i <= self.entries@.len(),
                forall|j: int| 0 <= j < i ==> self.key_at(j) != transfer_key(*account, *transfer_hash),
            decreases self.entries@.len() - i,
        {
            let e = &self.entries[i];
            if same_bytes(&e.account, account) && same_bytes(&e.transfer_hash, transfer_hash) {
                return Some(i);
            }
            i = i + 1;
        }
        None
    }

    /// The record stored under the key, if there is one.
    pub fn get(&self, account: &[u8; 32], transfer_hash: &[u8; 32]) -> (r: Option<TransferAccount>)
        requires
            self.wf(),
        ensures
            r == (if self@.contains_key(transfer_key(*account, *transfer_hash)) {
                Some(self@[transfer_key(*account, *transfer_hash)])
            } else {
                None
            }),
    {
        match self.find(account, transfer_hash) {
            Some(i) => Some(self.entries[i].record),
            None => None,
        }
    }

    /// Creates a fresh record under the key, or refuses where one exists.
    pub fn create(&mut self, account: &[u8; 32], transfer_hash: &[u8; 32]) -> (r: bool)
        requires
            old(self).wf(),
        ensures
            final(self).wf(),
            r == !old(self)@.contains_key(transfer_key(*account, *transfer_hash)),
            final(self)@ == (if r {
                old(self)@.insert(transfer_key(*account, *transfer_hash), TransferAccount::fresh())
            } else {
                old(self)@
            }),
    {
        match self.find(account, transfer_hash) {
            Some(_) => false,
            None => {
                let ghost k = transfer_key(*account, *transfer_hash);
                let rec = TransferAccount::new();
                self.entries.push(TransferEntry { account: *account, transfer_hash: *transfer_hash, record: rec });
                self.model = Ghost(self.model@.insert(k, rec));
                assert(self.key_at(self.entries@.len() - 1) == k);
                assert forall|i: int| 0 <= i < old(self).entries@.len() implies self.key_at(i)
                    == old(self).key_at(i) && self.entries@[i] == old(self).entries@[i] by {}
                assert forall|i: int|
                    0 <= i < self.entries@.len() implies #[trigger] self.model@.contains_key(
                    self.key_at(i),
                ) && self.model@[self.key_at(i)] == self.entries@[i].record by {
                    if i < old(self).entries@.len() {
                        assert(old(self).model@.contains_key(old(self).key_at(i)));
                    }
                }
                assert forall|i: int, j: int|
                    0 <= i < j < self.entries@.len() implies self.key_at(i) != self.key_at(j) by {
                    if j < old(self).entries@.len() {
                        assert(old(self).key_at(i) != old(self).key_at(j));
                    } else {
                        assert(old(self).model@.contains_key(old(self).key_at(i)));
                    }
                }
                assert forall|kk: TransferKey| #[trigger] self.model@.contains_key(kk) implies exists|i: int|
                    0 <= i < self.entries@.len() && self.key_at(i) == kk by {
                    if kk == k {
                        assert(self.key_at(self.entries@.len() - 1) == kk);
                    } else {
                        assert(old(self).model@.contains_key(kk));
                        let i = choose|i: int| 0 <= i < old(self).entries@.len() && old(self).key_at(i) == kk;
                        assert(self.key_at(i) == kk);
                    }
                }
                true
            },
        }
    }

    /// Replaces the record stored under the key.
    pub fn set(&mut self, account: &[u8; 32], transfer_hash: &[u8; 32], record: TransferAccount)
        requires
            old(self).wf(),
            old(self)@.contains_key(transfer_key(*account, *transfer_hash)),
        ensures
            final(self).wf(),
            final(self)@ == old(self)@.insert(transfer_key(*account, *transfer_hash), record),
    {
        let ghost k = transfer_key(*account, *transfer_hash);
        match self.find(account, transfer_hash) {
            Some(i) => {
                let e = TransferEntry { account: *account, transfer_hash: *transfer_hash, record };
                self.entries.set(i, e);
                self.model = Ghost(self.model@.insert(k, record));
                assert forall|j: int| 0 <= j < self.entries@.len() implies self.key_at(j)
                    == old(self).key_at(j) by {}
                assert forall|j: int|
                    0 <= j < self.entries@.len() implies #[trigger] self.model@.contains_key(
                    self.key_at(j),
                ) && self.model@[self.key_at(j)] == self.entries@[j].record by {
                    assert(old(self).model@.contains_key(old(self).key_at(j)));
                    if j != i {
                        assert(old(self).key_at(j) != old(self).key_at(i as int));
                    }
                }
                assert forall|kk: TransferKey| #[trigger] self.model@.contains_key(kk) implies exists|j: int|
                    0 <= j < self.entries@.len() && self.key_at(j) == kk by {
                    assert(old(self).model@.contains_key(kk));
                    let j = choose|j: int| 0 <= j < old(self).entries@.len() && old(self).key_at(j) == kk;
                    assert(self.key_at(j) == kk);
                }
            },
            None => {},
        }
    }
}

/// The key of a trusted address: the local account and the remote chain id.
pub type TrustKey = (Seq<u8>, u64);

struct TrustedEntry {
    account: [u8; 32],
    chain_id: u64,
    address: [u8; 32],
}

/// The one remote address trusted per local account and remote chain.
pub struct TrustedTable {
    entries: Vec<TrustedEntry>,
    model: Ghost<Map<TrustKey, Seq<u8>>>,
}

impl View for TrustedTable {
    type V = Map<TrustKey, Seq<u8>>;

    closed spec fn view(&self) -> Map<TrustKey, Seq<u8>> {
        self.model@
    }
}

impl TrustedTable {
    spec fn key_at(&self, i: int) -> TrustKey {
        (self.entries@[i].account@, self.entries@[i].chain_id)
    }

    /// Keys are unique, and the view holds exactly the stored entries.
    pub closed spec fn wf(&self) -> bool {
        &&& forall|i: int, j: int|
            0 <= i < j < self.entries@.len() ==> self.key_at(i) != self.key_at(j)
        &&& forall|i: int|
            0 <= i < self.entries@.len() ==> #[trigger] self.model@.contains_key(self.key_at(i))
                && self.model@[self.key_at(i)] == self.entries@[i].address@
        &&& forall|k: TrustKey|
            #[trigger] self.model@.contains_key(k) ==> exists|i: int|
                0 <= i < self.entries@.len() && self.key_at(i) == k
    }

    pub fn new() -> (r: TrustedTable)
        ensures
            r.wf(),
            r@ == Map::<TrustKey, Seq<u8>>::empty(),
    {
        TrustedTable { entries: Vec::new(), model: Ghost(Map::empty()) }
    }

    fn find(&self, account: &[u8; 32], chain_id: u64) -> (r: Option<usize>)
        requires
            self.wf(),
        ensures
            match r {
                Some(i) => i < self.entries@.len() && self.key_at(i as int) == (account@, chain_id),
                None => !self@.contains_key((account@, chain_id)),
            },
    {
        let mut i: usize = 0;
        while i < self.entries.len()
            invariant
                self.wf(),
                i <= self.entries@.len(),
                forall|j: int| 0 <= j < i ==> self.key_at(j) != (account@, chain_id),
            decreases self.entries@.len() - i,
        {
            let e = &self.entries[i];
            if e.chain_id == chain_id && same_bytes(&e.account, account) {
                return Some(i);
            }
            i = i + 1;
        }
        None
    }

    /// The address trusted for the account on the chain, if any.
    pub fn get(&self, account: &[u8; 32], chain_id: u64) -> (r: Option<[u8; 32]>)
        requires
            self.wf(),
        ensures
            r is Some == self@.contains_key((account@, chain_id)),
            r matches Some(a) ==> a@ == self@[(account@, chain_id)],
    {
        match self.find(account, chain_id) {
            Some(i) => {
                assert(self.model@.contains_key(self.key_at(i as int)));
                Some(self.entries[i].address)
            },
            None => None,
        }
    }

    /// Trusts `address` for the account on the chain, in place of any other.
    pub fn set(&mut self, account: &[u8; 32], chain_id: u64, address: &[u8; 32])
        requires
            old(self).wf(),
        ensures
            final(self).wf(),
            final(self)@ == old(self)@.insert((account@, chain_id), address@),
    {
        let ghost k = (account@, chain_id);
        let e = TrustedEntry { account: *account, chain_id, address: *address };
        match self.find(account, chain_id) {
            Some(i) => {
                self.entries.set(i, e);
                self.model = Ghost(self.model@.insert(k, address@));
                assert forall|j: int| 0 <= j < self.entries@.len() implies self.key_at(j)
                    == old(self).key_at(j) by {}
                assert forall|j: int|
                    0 <= j < self.entries@.len() implies #[trigger] self.model@.contains_key(
                    self.key_at(j),
                ) && self.model@[self.key_at(j)] == self.entries@[j].address@ by {
                    assert(old(self).model@.contains_key(old(self).key_at(j)));
                    if j != i {
                        assert(old(self).key_at(j) != old(self).key_at(i as int));
                    }
                }
                assert forall|kk: TrustKey| #[trigger] self.model@.contains_key(kk) implies exists|j: int|
                    0 <= j < self.entries@.len() && self.key_at(j) == kk by {
                    assert(old(self).model@.contains_key(kk));
                    let j = choose|j: int| 0 <= j < old(self).entries@.len() && old(self).key_at(j) == kk;
                    assert(self.key_at(j) == kk);
                }
            },
            None => {
                self.entries.push(e);
                self.model = Ghost(self.model@.insert(k, address@));
                assert(self.key_at(self.entries@.len() - 1) == k);
                assert forall|i: int| 0 <= i < old(self).entries@.len() implies self.key_at(i)
                    == old(self).key_at(i) && self.entries@[i] == old(self).entries@[i] by {}
                assert forall|i: int|
                    0 <= i < self.entries@.len() implies #[trigger] self.model@.contains_key(
                    self.key_at(i),
                ) && self.model@[self.key_at(i)] == self.entries@[i].address@ by {
                    if i < old(self).entries@.len() {
                        assert(old(self).model@.contains_key(old(self).key_at(i)));
                    }
                }
                assert forall|i: int, j: int|
                    0 <= i < j < self.entries@.len() implies self.key_at(i) != self.key_at(j) by {
                    if j < old(self).entries@.len() {
                        assert(old(self).key_at(i) != old(self).key_at(j));
                    } else {
                        assert(old(self).model@.contains_key(old(self).key_at(i)));
                    }
                }
                assert forall|kk: TrustKey| #[trigger] self.model@.contains_key(kk) implies exists|i: int|
                    0 <= i < self.entries@.len() && self.key_at(i) == kk by {
                    if kk == k {
                        assert(self.key_at(self.entries@.len() - 1) == kk);
                    } else {
                        assert(old(self).model@.contains_key(kk));
                        let i = choose|i: int| 0 <= i < old(self).entries@.len() && old(self).key_at(i) == kk;
                        assert(self.key_at(i) == kk);
                    }
                }
            },
        }
    }
}

/// The key of a sender authorisation: the local account and the signer.
pub type SenderKey = (Seq<u8>, Seq<u8>);

struct SenderEntry {
    account: [u8; 32],
    signer: [u8; 32],
}

/// The signers that may send on behalf of each local account.
pub struct SenderTable {
    entries: Vec<SenderEntry>,
}

impl View for SenderTable {
    type V = Set<SenderKey>;

    closed spec fn view(&self) -> Set<SenderKey> {
        Set::new(|k: SenderKey| exists|i: int| 0 <= i < self.entries@.len() && self.key_at(i) == k)
    }
}

impl SenderTable {
    spec fn key_at(&self, i: int) -> SenderKey {
        (self.entries@[i].account@, self.entries@[i].signer@)
    }

    pub fn new() -> (r: SenderTable)
        ensures
            r@ == Set::<SenderKey>::empty(),
    {
        let r = SenderTable { entries: Vec::new() };
        assert(r@ =~= Set::<SenderKey>::empty());
        r
    }

    /// Whether `signer` may send on behalf of `account`.
    pub fn contains(&self, account: &[u8; 32], signer: &[u8; 32]) -> (r: bool)
        ensures
            r == self@.contains((account@, signer@)),
    {
        let mut i: usize = 0;
        while i < self.entries.len()
            invariant
                i <= self.entries@.len(),
                forall|j: int| 0 <= j < i ==> self.key_at(j) != (account@, signer@),
            decreases self.entries@.len() - i,
        {
            let e = &self.entries[i];
            if same_bytes(&e.account, account) && same_bytes(&e.signer, signer) {
                assert(self.key_at(i as int) == (account@, signer@));
                return true;
            }
            i = i + 1;
        }
        false
    }

    /// Lets `signer` send on behalf of `account`.
    pub fn insert(&mut self, account: &[u8; 32], signer: &[u8; 32])
        ensures
            final(self)@ == old(self)@.insert((account@, signer@)),
    {
        if !self.contains(account, signer) {
            self.entries.push(SenderEntry { account: *account, signer: *signer });
            assert forall|i: int| 0 <= i < old(self).entries@.len() implies self.key_at(i)
                == old(self).key_at(i) by {}
            assert(self.key_at(self.entries@.len() - 1) == (account@, signer@));
        }
        assert(self@ =~= old(self)@.insert((account@, signer@)));
    }
}

} // verus!
