//! The nonce-safe signing coordinator: signing keys by alias, and for each
//! on-chain address the nonce that its next transaction gets.

use vstd::prelude::*;
use vstd::hash_map::StringHashMap;

verus! {

/// The chain that a key signs for where it names none.
pub const DEFAULT_CHAIN_ID: u64 = 1;

/// An on-chain address: twenty bytes.
#[derive(Clone, Copy, Debug, PartialEq, Eq)]
pub struct Address {
    pub bytes: [u8; 20],
}

impl View for Address {
    type V = Seq<u8>;

    open spec fn view(&self) -> Seq<u8> {
        self.bytes@
    }
}

impl Address {
    /// Whether two addresses hold the same bytes.
    pub fn same(&self, other: &Address) -> (r: bool)
        ensures
            r == (self@ == other@),
    {
        let mut i: usize = 0;
        while i < 20
            invariant
                i <= 20,
                forall|j: int| 0 <= j < i ==> self@[j] == other@[j],
            decreases 20 - i,
        {
            if self.bytes[i] != other.bytes[i] {
                return false;
            }
            i += 1;
        }
        assert(self@ =~= other@);
        true
    }
}

/// Why a signing request failed.
#[derive(Debug, PartialEq, Eq)]
pub enum SignerError {
    /// No key is provisioned under the alias.
    MissingKey(String),
    /// The signing operation failed; the nonce it was given stays consumed.
    SigningFailed(String),
}

/// What a `SignerError` holds.
pub enum SignerErrorModel {
    MissingKey(Seq<char>),
    SigningFailed(Seq<char>),
}

impl View for SignerError {
    type V = SignerErrorModel;

    open spec fn view(&self) -> SignerErrorModel {
        match self {
            SignerError::MissingKey(alias) => SignerErrorModel::MissingKey(alias@),
            SignerError::SigningFailed(cause) => SignerErrorModel::SigningFailed(cause@),
        }
    }
}

impl SignerError {
    /// The text of the error.
    pub fn message(&self) -> (text: String)
        ensures
            text@ == match self@ {
                SignerErrorModel::MissingKey(alias) => "key alias not found: "@ + alias,
                SignerErrorModel::SigningFailed(cause) => "signing failed: "@ + cause,
            },
    {
        match self {
            SignerError::MissingKey(alias) => String::from_str("key alias not found: ").concat(
                alias.as_str(),
            ),
            SignerError::SigningFailed(cause) => String::from_str("signing failed: ").concat(
                cause.as_str(),
            ),
        }
    }
}

/// What the coordinator knows of a signing key: the address it signs for and
/// the chain it is configured for, if any.
#[derive(Clone, Copy, Debug, PartialEq, Eq)]
pub struct KeyRecord {
    pub address: Address,
    pub chain_id: Option<u64>,
}

impl KeyRecord {
    /// The chain that the key signs for.
    pub open spec fn chain(self) -> u64 {
        match self.chain_id {
            Some(id) => id,
            None => DEFAULT_CHAIN_ID,
        }
    }
}

/// What a transaction is given before it is signed.
#[derive(Clone, Copy, Debug, PartialEq, Eq)]
pub struct Ticket {
    pub address: Address,
    pub chain_id: u64,
    pub nonce: u64,
}

/// The nonce that the first entry for `address` holds; zero where there is none.
pub open spec fn recorded(entries: Seq<(Address, u64)>, address: Seq<u8>) -> nat
    decreases entries.len(),
{
    if entries.len() == 0 {
        0
    } else if entries[0].0@ == address {
        entries[0].1 as nat
    } else {
        recorded(entries.skip(1), address)
    }
}

/// The table in which no address has signed yet: every nonce is zero.
pub open spec fn fresh() -> Map<Seq<u8>, nat> {
    Map::new(|address: Seq<u8>| true, |address: Seq<u8>| 0nat)
}

/// The nonce that the next transaction of `address` gets.
pub open spec fn next_nonce(nonces: Map<Seq<u8>, nat>, address: Seq<u8>) -> nat {
    nonces[address]
}

/// The table after a nonce has been given out for `address`.
pub open spec fn after_allocation(nonces: Map<Seq<u8>, nat>, address: Seq<u8>) -> Map<
    Seq<u8>,
    nat,
> {
    nonces.insert(address, next_nonce(nonces, address) + 1)
}

proof fn lemma_recorded_skip(entries: Seq<(Address, u64)>, address: Seq<u8>, k: int)
    requires
        0 <= k <= entries.len(),
        forall|j: int| 0 <= j < k ==> entries[j].0@ != address,
    ensures
        recorded(entries, address) == recorded(entries.skip(k), address),
    decreases k,
{
    if k > 0 {
        let rest = entries.skip(1);
        assert forall|j: int| 0 <= j < k - 1 implies rest[j].0@ != address by {
            assert(rest[j] == entries[j + 1]);
        }
        lemma_recorded_skip(rest, address, k - 1);
        assert(rest.skip(k - 1) =~= entries.skip(k));
    } else {
        assert(entries.skip(0) =~= entries);
    }
}

proof fn lemma_recorded_update(
    entries: Seq<(Address, u64)>,
    k: int,
    entry: (Address, u64),
    address: Seq<u8>,
)
    requires
        0 <= k < entries.len(),
        entries[k].0@ == entry.0@,
        forall|j: int| 0 <= j < k ==> entries[j].0@ != entry.0@,
    ensures
        recorded(entries.update(k, entry), address) == (if address == entry.0@ {
            entry.1 as nat
        } else {
            recorded(entries, address)
        }),
    decreases k,
{
    let updated = entries.update(k, entry);
    if k > 0 {
        let rest = entries.skip(1);
        assert forall|j: int| 0 <= j < k - 1 implies rest[j].0@ != entry.0@ by {
            assert(rest[j] == entries[j + 1]);
        }
        lemma_recorded_update(rest, k - 1, entry, address);
        assert(rest.update(k - 1, entry) =~= updated.skip(1));
        assert(updated[0] == entries[0]);
    } else {
        assert(updated.skip(1) =~= entries.skip(1));
    }
}

proof fn lemma_recorded_push(entries: Seq<(Address, u64)>, entry: (Address, u64), address: Seq<u8>)
    requires
        forall|j: int| 0 <= j < entries.len() ==> entries[j].0@ != entry.0@,
    ensures
        recorded(entries.push(entry), address) == (if address == entry.0@ {
            entry.1 as nat
        } else {
            recorded(entries, address)
        }),
    decreases entries.len(),
{
    let pushed = entries.push(entry);
    if entries.len() > 0 {
        let rest = entries.skip(1);
        assert forall|j: int| 0 <= j < rest.len() implies rest[j].0@ != entry.0@ by {
            assert(rest[j] == entries[j + 1]);
        }
        lemma_recorded_push(rest, entry, address);
        assert(rest.push(entry) =~= pushed.skip(1));
        assert(pushed[0] == entries[0]);
        assert(entries[0].0@ != entry.0@);
    } else {
        assert(pushed[0] == entry);
        assert(pushed.skip(1).len() == 0);
        assert(recorded(pushed.skip(1), address) == 0);
    }
}

/// The nonce table: for every address the nonce that its next transaction
/// gets, zero for an address that has not signed yet.
pub struct NonceTable {
    entries: Vec<(Address, u64)>,
}

impl View for NonceTable {
    type V = Map<Seq<u8>, nat>;

    closed spec fn view(&self) -> Map<Seq<u8>, nat> {
        Map::new(|address: Seq<u8>| true, |address: Seq<u8>| recorded(self.entries@, address))
    }
}

impl NonceTable {
    /// A table in which no address has signed yet.
    pub fn new() -> (table: NonceTable)
        ensures
            table@ == fresh(),
    {
        let table = NonceTable { entries: Vec::new() };
        assert(table@ =~= fresh());
        table
    }

    /// The nonce that the next transaction of `address` gets.
    pub fn peek(&self, address: &Address) -> (nonce: u64)
        ensures
            nonce == next_nonce(self@, address@),
    {
        let n: usize = self.entries.len();
        let mut i: usize = 0;
        while i < n
            invariant
                i <= n,
                n == self.entries@.len(),
                forall|j: int| 0 <= j < i ==> self.entries@[j].0@ != address@,
            decreases n - i,
        {
            if self.entries[i].0.same(address) {
                proof {
                    lemma_recorded_skip(self.entries@, address@, i as int);
                }
                return self.entries[i].1;
            }
            i += 1;
        }
        proof {
            lemma_recorded_skip(self.entries@, address@, n as int);
        }
        0
    }

    /// Gives out the next nonce of `address` and advances it by one. This is
    /// the whole of the critical section: read, assign, increment.
    pub fn allocate(&mut self, address: &Address) -> (nonce: u64)
        requires
            next_nonce(old(self)@, address@) < u64::MAX,
        ensures
            nonce == next_nonce(old(self)@, address@),
            final(self)@ == after_allocation(old(self)@, address@),
    {
        let n: usize = self.entries.len();
        let mut i: usize = 0;
        while i < n
            invariant
                i <= n,
                n == self.entries@.len(),
                self.entries@ == old(self).entries@,
                next_nonce(old(self)@, address@) < u64::MAX,
                forall|j: int| 0 <= j < i ==> self.entries@[j].0@ != address@,
            decreases n - i,
        {
            if self.entries[i].0.same(address) {
                let nonce: u64 = self.entries[i].1;
                proof {
                    lemma_recorded_skip(self.entries@, address@, i as int);
                    assert forall|a: Seq<u8>|
                        recorded(
                            self.entries@.update(i as int, (*address, (nonce + 1) as u64)),
                            a,
                        ) == #[trigger] after_allocation(old(self)@, address@)[a] by {
                        lemma_recorded_update(
                            self.entries@,
                            i as int,
                            (*address, (nonce + 1) as u64),
                            a,
                        );
                    }
                }
                self.entries.set(i, (*address, nonce + 1));
                assert(self@ =~= after_allocation(old(self)@, address@));
                return nonce;
            }
            i += 1;
        }
        proof {
            lemma_recorded_skip(self.entries@, address@, n as int);
            assert forall|a: Seq<u8>|
                recorded(self.entries@.push((*address, 1u64)), a) == #[trigger] after_allocation(
                    old(self)@,
                    address@,
                )[a] by {
                lemma_recorded_push(self.entries@, (*address, 1u64), a);
            }
        }
        self.entries.push((*address, 1));
        assert(self@ =~= after_allocation(old(self)@, address@));
        0
    }
}

/// The keys that a list of provisions leaves: a later provision under an
/// alias replaces an earlier one.
pub open spec fn provisioned(keys: Seq<(String, KeyRecord)>) -> Map<Seq<char>, KeyRecord>
    decreases keys.len(),
{
    if keys.len() == 0 {
        Map::empty()
    } else {
        provisioned(keys.drop_last()).insert(keys.last().0@, keys.last().1)
    }
}

/// What a request under `alias` is given, with `nonces` as the table stands.
pub open spec fn ticket_for(
    keys: Map<Seq<char>, KeyRecord>,
    nonces: Map<Seq<u8>, nat>,
    alias: Seq<char>,
) -> Result<Ticket, SignerErrorModel> {
    if keys.contains_key(alias) {
        Ok(
            Ticket {
                address: keys[alias].address,
                chain_id: keys[alias].chain(),
                nonce: next_nonce(nonces, keys[alias].address@) as u64,
            },
        )
    } else {
        Err(SignerErrorModel::MissingKey(alias))
    }
}

/// The nonce table after a request under `alias`: the nonce of the key's
/// address is consumed; a request under an unknown alias consumes nothing.
pub open spec fn nonces_after(
    keys: Map<Seq<char>, KeyRecord>,
    nonces: Map<Seq<u8>, nat>,
    alias: Seq<char>,
) -> Map<Seq<u8>, nat> {
    if keys.contains_key(alias) {
        after_allocation(nonces, keys[alias].address@)
    } else {
        nonces
    }
}

/// The views of the result of a request.
pub open spec fn ticket_view(r: Result<Ticket, SignerError>) -> Result<Ticket, SignerErrorModel> {
    match r {
        Ok(ticket) => Ok(ticket),
        Err(e) => Err(e@),
    }
}

/// The views of the result of asking for an address.
pub open spec fn address_view(r: Result<Address, SignerError>) -> Result<Address, SignerErrorModel> {
    match r {
        Ok(address) => Ok(address),
        Err(e) => Err(e@),
    }
}

/// Signing keys held in memory, with the nonce table of their addresses.
pub struct MemoryKeystore {
    keys: StringHashMap<KeyRecord>,
    nonces: NonceTable,
}

impl MemoryKeystore {
    /// The keys by alias.
    pub closed spec fn keys(&self) -> Map<Seq<char>, KeyRecord> {
        self.keys@
    }

    /// For every address the nonce that its next transaction gets.
    pub closed spec fn nonces(&self) -> Map<Seq<u8>, nat> {
        self.nonces@
    }

    /// A keystore over the given keys, none of which has signed yet.
    pub fn from_keys(keys: Vec<(String, KeyRecord)>) -> (store: MemoryKeystore)
        ensures
            store.keys() == provisioned(keys@),
            store.nonces() == fresh(),
    {
        let mut map: StringHashMap<KeyRecord> = StringHashMap::new();
        let n: usize = keys.len();
        let mut i: usize = 0;
        assert(keys@.take(0) =~= Seq::empty());
        while i < n
            invariant
                i <= n,
                n == keys@.len(),
                map@ == provisioned(keys@.take(i as int)),
            decreases n - i,
        {
            let ghost prefix = keys@.take(i + 1);
            assert(prefix.drop_last() =~= keys@.take(i as int));
            assert(prefix.last() == keys@[i as int]);
            map.insert(keys[i].0.clone(), keys[i].1);
            i += 1;
        }
        assert(keys@.take(n as int) =~= keys@);
        MemoryKeystore { keys: map, nonces: NonceTable::new() }
    }

    /// The address of the key provisioned under `alias`.
    pub fn address(&self, alias: &str) -> (r: Result<Address, SignerError>)
        ensures
            address_view(r) == (if self.keys().contains_key(alias@) {
                Ok::<Address, SignerErrorModel>(self.keys()[alias@].address)
            } else {
                Err::<Address, SignerErrorModel>(SignerErrorModel::MissingKey(alias@))
            }),
    {
        match self.keys.get(alias) {
            Some(record) => Ok(record.address),
            None => Err(SignerError::MissingKey(String::from_str(alias))),
        }
    }

    /// The nonce that the next transaction of `address` gets.
    pub fn next_nonce(&self, address: &Address) -> (nonce: u64)
        ensures
            nonce == next_nonce(self.nonces(), address@),
    {
        self.nonces.peek(address)
    }

    /// Whether a request under `alias` can be served without the nonce of
    /// its address leaving the range of `u64`.
    pub open spec fn has_room(&self, alias: Seq<char>) -> bool {
        self.keys().contains_key(alias) ==> next_nonce(
            self.nonces(),
            self.keys()[alias].address@,
        ) < u64::MAX
    }

    /// Whether a request under `alias` can be served.
    pub fn can_allocate(&self, alias: &str) -> (r: bool)
        ensures
            r == self.has_room(alias@),
    {
        match self.keys.get(alias) {
            Some(record) => self.nonces.peek(&record.address) < u64::MAX,
            None => true,
        }
    }

    /// Resolves the key of `alias` and gives its transaction the chain id of
    /// the key and the next nonce of the key's address, which is consumed
    /// thereby whether or not the signing that follows succeeds.
    pub fn allocate(&mut self, alias: &str) -> (r: Result<Ticket, SignerError>)
        requires
            old(self).has_room(alias@),
        ensures
            final(self).keys() == old(self).keys(),
            ticket_view(r) == ticket_for(old(self).keys(), old(self).nonces(), alias@),
            final(self).nonces() == nonces_after(old(self).keys(), old(self).nonces(), alias@),
    {
        let record: KeyRecord = match self.keys.get(alias) {
            Some(record) => *record,
            None => {
                return Err(SignerError::MissingKey(String::from_str(alias)));
            },
        };
        let chain_id: u64 = match record.chain_id {
            Some(id) => id,
            None => DEFAULT_CHAIN_ID,
        };
        let nonce: u64 = self.nonces.allocate(&record.address);
        Ok(Ticket { address: record.address, chain_id, nonce })
    }
}

/// The table after the requests for the addresses `requests` have gone
/// through the critical section one after the other, in that order.
pub open spec fn after_all(nonces: Map<Seq<u8>, nat>, requests: Seq<Seq<u8>>) -> Map<Seq<u8>, nat>
    decreases requests.len(),
{
    if requests.len() == 0 {
        nonces
    } else {
        after_allocation(after_all(nonces, requests.drop_last()), requests.last())
    }
}

/// The nonce that the request at position `i` is given.
pub open spec fn assigned(nonces: Map<Seq<u8>, nat>, requests: Seq<Seq<u8>>, i: int) -> nat {
    next_nonce(after_all(nonces, requests.take(i)), requests[i])
}

/// How many of `requests` are for `address`.
pub open spec fn count(requests: Seq<Seq<u8>>, address: Seq<u8>) -> nat
    decreases requests.len(),
{
    if requests.len() == 0 {
        0
    } else {
        count(requests.drop_last(), address) + (if requests.last() == address {
            1nat
        } else {
            0nat
        })
    }
}

/// Whether one of the requests for `address` is given `nonce`.
pub open spec fn given_out(
    nonces: Map<Seq<u8>, nat>,
    requests: Seq<Seq<u8>>,
    address: Seq<u8>,
    nonce: nat,
) -> bool {
    exists|i: int|
        0 <= i < requests.len() && requests[i] == address && #[trigger] assigned(
            nonces,
            requests,
            i,
        ) == nonce
}

proof fn lemma_after_all(nonces: Map<Seq<u8>, nat>, requests: Seq<Seq<u8>>, address: Seq<u8>)
    ensures
        next_nonce(after_all(nonces, requests), address) == next_nonce(nonces, address) + count(
            requests,
            address,
        ),
    decreases requests.len(),
{
    if requests.len() > 0 {
        lemma_after_all(nonces, requests.drop_last(), address);
    }
}

proof fn lemma_count_prefix(requests: Seq<Seq<u8>>, address: Seq<u8>, i: int, j: int)
    requires
        0 <= i <= j <= requests.len(),
    ensures
        count(requests.take(i), address) <= count(requests.take(j), address),
        i < j && requests[i] == address ==> count(requests.take(i), address) < count(
            requests.take(j),
            address,
        ),
    decreases j - i,
{
    if i < j {
        lemma_count_prefix(requests, address, i, j - 1);
        assert(requests.take(j).drop_last() =~= requests.take(j - 1));
        assert(requests.take(j).last() == requests[j - 1]);
    }
}

proof fn lemma_count_reached(requests: Seq<Seq<u8>>, address: Seq<u8>, k: nat) -> (i: int)
    requires
        k < count(requests, address),
    ensures
        0 <= i < requests.len(),
        requests[i] == address,
        count(requests.take(i), address) == k,
    decreases requests.len(),
{
    let front = requests.drop_last();
    if requests.last() == address && k == count(front, address) {
        assert(requests.take(requests.len() - 1) =~= front);
        requests.len() - 1
    } else {
        let i = lemma_count_reached(front, address, k);
        assert(front.take(i) =~= requests.take(i));
        i
    }
}

/// However the requests of many signers interleave in the critical section,
/// the requests for one address are given consecutive nonces from the one
/// its table entry starts at: each is given the start plus the number of
/// requests for the address that came before it. So no two of them are given
/// the same nonce, none within the range is left out, and the table ends at
/// the start plus their number.
pub proof fn law_nonces_are_contiguous(
    nonces: Map<Seq<u8>, nat>,
    requests: Seq<Seq<u8>>,
    address: Seq<u8>,
)
    ensures
        forall|i: int|
            0 <= i < requests.len() && requests[i] == address ==> #[trigger] assigned(
                nonces,
                requests,
                i,
            ) == next_nonce(nonces, address) + count(requests.take(i), address),
        forall|i: int, j: int|
            0 <= i < j < requests.len() && requests[i] == address && requests[j] == address
                ==> #[trigger] assigned(nonces, requests, i) < #[trigger] assigned(
                nonces,
                requests,
                j,
            ),
        forall|nonce: nat|
            next_nonce(nonces, address) <= nonce < next_nonce(nonces, address) + count(
                requests,
                address,
            ) ==> #[trigger] given_out(nonces, requests, address, nonce),
        next_nonce(after_all(nonces, requests), address) == next_nonce(nonces, address) + count(
            requests,
            address,
        ),
{
    let start = next_nonce(nonces, address);
    assert forall|i: int| 0 <= i < requests.len() && requests[i] == address implies assigned(
        nonces,
        requests,
        i,
    ) == start + count(requests.take(i), address) by {
        lemma_after_all(nonces, requests.take(i), address);
    }
    assert forall|i: int, j: int|
        0 <= i < j < requests.len() && requests[i] == address && requests[j]
            == address implies assigned(nonces, requests, i) < assigned(nonces, requests, j) by {
        lemma_after_all(nonces, requests.take(i), address);
        lemma_after_all(nonces, requests.take(j), address);
        lemma_count_prefix(requests, address, i, j);
    }
    assert forall|nonce: nat|
        start <= nonce < start + count(requests, address) implies #[trigger] given_out(
        nonces,
        requests,
        address,
        nonce,
    ) by {
        let i = lemma_count_reached(requests, address, (nonce - start) as nat);
        lemma_after_all(nonces, requests.take(i), address);
        assert(assigned(nonces, requests, i) == nonce);
    }
    lemma_after_all(nonces, requests, address);
}

} // verus!
