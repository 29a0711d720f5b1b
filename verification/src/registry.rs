//! The registry of custom precompile contracts, keyed by 20-byte address.

use vstd::prelude::*;
use vstd::string::StringExecFns;

use crate::address::{
    lemma_named_addresses, same_address, ADDR_AI_EMBEDDING, ADDR_AI_INFERENCE, ADDR_PQ_VERIFY,
    ADDR_QUASAR_QUERY,
};
use crate::gas::{GAS_BASE_EMBED, GAS_BASE_INFER};
use crate::outcome::{PrecompileStep, StepView};
use crate::precompiles::{
    exec_ai_embedding, exec_ai_inference, exec_pq_verify, exec_quasar_query, spec_ai_embedding,
    spec_ai_inference, spec_pq_verify, spec_quasar_query, PQ_VERIFY_BASE_GAS,
};
use crate::text::{hex_encode, lower_hex};

verus! {

/// Which built-in precompile an entry runs.
#[derive(Debug, Clone, Copy, PartialEq, Eq)]
pub enum PrecompileKind {
    /// ML-DSA signature verification.
    PqVerify,
    /// Quasar committee membership query.
    QuasarQuery,
    /// AI text generation.
    AiInference,
    /// AI embedding generation.
    AiEmbedding,
}

impl PrecompileKind {
    /// How the precompile of this kind starts on `input`.
    pub open spec fn spec_start(self, input: Seq<u8>) -> StepView {
        match self {
            PrecompileKind::PqVerify => spec_pq_verify(input),
            PrecompileKind::QuasarQuery => spec_quasar_query(input),
            PrecompileKind::AiInference => spec_ai_inference(input),
            PrecompileKind::AiEmbedding => spec_ai_embedding(input),
        }
    }

    /// Decode `input` with the precompile of this kind.
    pub fn start(&self, input: &[u8]) -> (step: PrecompileStep)
        ensures
            step@ == self.spec_start(input@),
    {
        match self {
            PrecompileKind::PqVerify => exec_pq_verify(input),
            PrecompileKind::QuasarQuery => exec_quasar_query(input),
            PrecompileKind::AiInference => exec_ai_inference(input),
            PrecompileKind::AiEmbedding => exec_ai_embedding(input),
        }
    }
}

/// A single registered precompile.
#[derive(Debug, Clone)]
pub struct PrecompileEntry {
    /// 20-byte EVM address where this precompile lives.
    pub address: [u8; 20],
    /// Human-readable name for logging.
    pub name: String,
    /// Base gas cost (charged before execution).
    pub base_gas: u64,
    /// Which precompile runs on the raw calldata.
    pub execute: PrecompileKind,
}

impl PrecompileEntry {
    /// The entry's address as lowercase hex, as it appears in descriptions of
    /// the entry.
    pub fn address_hex(&self) -> (s: String)
        ensures
            s@ == lower_hex(self.address@),
    {
        hex_encode(&self.address)
    }
}

/// Registry of custom precompile contracts.
///
/// [`PrecompileRegistry::default`] gives a registry pre-loaded with the Hanzo
/// precompiles; [`new`](Self::new) and [`register`](Self::register) build one
/// by hand. At most one entry lives at each address.
#[derive(Debug)]
pub struct PrecompileRegistry {
    entries: Vec<PrecompileEntry>,
}

/// The address of each entry, in order.
pub open spec fn addresses_of(entries: Seq<PrecompileEntry>) -> Seq<[u8; 20]> {
    entries.map_values(|e: PrecompileEntry| e.address)
}

/// Map from each address in `entries` to the entry that holds it.
pub open spec fn map_of(entries: Seq<PrecompileEntry>) -> Map<[u8; 20], PrecompileEntry> {
    Map::new(
        |a: [u8; 20]| addresses_of(entries).contains(a),
        |a: [u8; 20]| entries[addresses_of(entries).index_of(a)],
    )
}

/// Every entry of `m` is held at its own address.
pub open spec fn keyed_by_address(m: Map<[u8; 20], PrecompileEntry>) -> bool {
    forall|a: [u8; 20]| #[trigger] m.dom().contains(a) ==> m[a].address == a
}

/// The map of any entries holds each one at its own address.
proof fn lemma_keyed(entries: Seq<PrecompileEntry>)
    ensures
        keyed_by_address(map_of(entries)),
{
    assert forall|a: [u8; 20]| #[trigger] map_of(entries).dom().contains(a) implies map_of(
        entries,
    )[a].address == a by {
        let k = addresses_of(entries).index_of(a);
        assert(addresses_of(entries)[k] == a);
    }
}

/// With distinct addresses, the entry at slot `i` is the one the map holds at
/// its address.
proof fn lemma_slot(entries: Seq<PrecompileEntry>, i: int)
    requires
        addresses_of(entries).no_duplicates(),
        0 <= i < entries.len(),
    ensures
        map_of(entries).dom().contains(entries[i].address),
        map_of(entries)[entries[i].address] == entries[i],
{
    let a = entries[i].address;
    assert(addresses_of(entries)[i] == a);
    let k = addresses_of(entries).index_of(a);
    assert(addresses_of(entries)[k] == a);
}

/// Every address the map holds comes from some slot.
proof fn lemma_key(entries: Seq<PrecompileEntry>, a: [u8; 20])
    requires
        map_of(entries).dom().contains(a),
    ensures
        exists|i: int| 0 <= i < entries.len() && entries[i].address == a,
{
    let k = addresses_of(entries).index_of(a);
    assert(entries[k].address == a);
}

/// Overwriting the entry at the slot of its own address keeps the addresses
/// distinct and updates the map at that address.
proof fn lemma_overwrite(entries: Seq<PrecompileEntry>, i: int, e: PrecompileEntry)
    requires
        addresses_of(entries).no_duplicates(),
        0 <= i < entries.len(),
        entries[i].address == e.address,
    ensures
        addresses_of(entries.update(i, e)).no_duplicates(),
        map_of(entries.update(i, e)) == map_of(entries).insert(e.address, e),
{
    let next = entries.update(i, e);
    assert(addresses_of(next) =~= addresses_of(entries));
    lemma_slot(next, i);
    assert forall|a: [u8; 20]| #[trigger] map_of(next).dom().contains(a) implies a == e.address
        || map_of(next)[a] == map_of(entries)[a] by {
        lemma_key(next, a);
        let j = choose|j: int| 0 <= j < next.len() && next[j].address == a;
        lemma_slot(next, j);
        if j != i {
            lemma_slot(entries, j);
        }
    }
    assert(map_of(next) =~= map_of(entries).insert(e.address, e));
}

/// Appending an entry at a new address keeps the addresses distinct and adds
/// that address to the map.
proof fn lemma_append(entries: Seq<PrecompileEntry>, e: PrecompileEntry)
    requires
        addresses_of(entries).no_duplicates(),
        !addresses_of(entries).contains(e.address),
    ensures
        addresses_of(entries.push(e)).no_duplicates(),
        map_of(entries.push(e)) == map_of(entries).insert(e.address, e),
{
    let next = entries.push(e);
    assert(addresses_of(next) =~= addresses_of(entries).push(e.address));
    lemma_slot(next, entries.len() as int);
    assert forall|a: [u8; 20]| #[trigger] map_of(next).dom().contains(a) implies a == e.address
        || (map_of(entries).dom().contains(a) && map_of(next)[a] == map_of(entries)[a]) by {
        lemma_key(next, a);
        let j = choose|j: int| 0 <= j < next.len() && next[j].address == a;
        lemma_slot(next, j);
        if j < entries.len() {
            lemma_slot(entries, j);
        }
    }
    assert forall|a: [u8; 20]| #[trigger] map_of(entries).dom().contains(a) implies map_of(
        next,
    ).dom().contains(a) by {
        lemma_key(entries, a);
        let j = choose|j: int| 0 <= j < entries.len() && entries[j].address == a;
        lemma_slot(next, j);
    }
    assert(map_of(next) =~= map_of(entries).insert(e.address, e));
}

/// With distinct addresses, the map holds as many addresses as there are
/// entries.
proof fn lemma_count(entries: Seq<PrecompileEntry>)
    requires
        addresses_of(entries).no_duplicates(),
    ensures
        map_of(entries).dom().finite(),
        map_of(entries).dom().len() == entries.len(),
{
    addresses_of(entries).unique_seq_to_set();
    assert(map_of(entries).dom() =~= addresses_of(entries).to_set());
}

impl View for PrecompileRegistry {
    type V = Map<[u8; 20], PrecompileEntry>;

    closed spec fn view(&self) -> Map<[u8; 20], PrecompileEntry> {
        map_of(self.entries@)
    }
}

impl PrecompileRegistry {
    #[verifier::type_invariant]
    closed spec fn distinct_addresses(self) -> bool {
        addresses_of(self.entries@).no_duplicates()
    }

    /// The slot of `address` among the entries, if one holds it.
    fn find(&self, address: &[u8; 20]) -> (r: Option<usize>)
        ensures
            r matches Some(i) ==> i < self.entries@.len() && self.entries@[i as int].address
                == *address,
            r is None ==> !addresses_of(self.entries@).contains(*address),
    {
        let mut i: usize = 0;
        while i < self.entries.len()
            invariant
                0 <= i <= self.entries@.len(),
                forall|j: int| 0 <= j < i ==> self.entries@[j].address != *address,
            decreases self.entries@.len() - i,
        {
            if same_address(&self.entries[i].address, address) {
                return Some(i);
            }
            i = i + 1;
        }
        proof {
            if addresses_of(self.entries@).contains(*address) {
                let k = addresses_of(self.entries@).index_of(*address);
                assert(self.entries@[k].address == *address);
            }
        }
        None
    }

    /// Create an empty registry.
    pub fn new() -> (r: Self)
        ensures
            r@ == Map::<[u8; 20], PrecompileEntry>::empty(),
            keyed_by_address(r@),
    {
        let r = PrecompileRegistry { entries: Vec::new() };
        assert(r@ =~= Map::<[u8; 20], PrecompileEntry>::empty());
        r
    }

    /// Register a precompile. Overwrites any existing entry at the same
    /// address.
    pub fn register(&mut self, entry: PrecompileEntry)
        ensures
            final(self)@ == old(self)@.insert(entry.address, entry),
            keyed_by_address(final(self)@),
    {
        proof {
            use_type_invariant(&*self);
        }
        let ghost old_entries = self.entries@;
        let slot = self.find(&entry.address);
        let mut entries: Vec<PrecompileEntry> = Vec::new();
        std::mem::swap(&mut entries, &mut self.entries);
        match slot {
            Some(i) => {
                proof {
                    lemma_overwrite(old_entries, i as int, entry);
                }
                entries.set(i, entry);
            },
            None => {
                proof {
                    lemma_append(old_entries, entry);
                }
                entries.push(entry);
            },
        }
        self.entries = entries;
        proof {
            lemma_keyed(self.entries@);
        }
    }

    /// Look up a precompile by its 20-byte EVM address.
    pub fn get(&self, address: &[u8; 20]) -> (r: Option<&PrecompileEntry>)
        ensures
            r == if self@.dom().contains(*address) {
                Some(&self@[*address])
            } else {
                None
            },
            r matches Some(e) ==> e.address == *address,
    {
        proof {
            use_type_invariant(self);
        }
        match self.find(address) {
            Some(i) => {
                proof {
                    lemma_slot(self.entries@, i as int);
                }
                Some(&self.entries[i])
            },
            None => None,
        }
    }

    /// Start the precompile at `address` on `input`: `None` if no precompile
    /// is registered there, else where its call stands after decoding.
    pub fn call(&self, address: &[u8; 20], input: &[u8]) -> (r: Option<PrecompileStep>)
        ensures
            r is None <==> !self@.dom().contains(*address),
            r matches Some(step) ==> step@ == self@[*address].execute.spec_start(input@),
    {
        match self.get(address) {
            Some(entry) => Some(entry.execute.start(input)),
            None => None,
        }
    }

    /// Return the number of registered precompiles.
    pub fn len(&self) -> (n: usize)
        ensures
            self@.dom().finite(),
            n == self@.dom().len(),
    {
        proof {
            use_type_invariant(self);
            lemma_count(self.entries@);
        }
        self.entries.len()
    }

    /// Return `true` if no precompiles are registered.
    pub fn is_empty(&self) -> (b: bool)
        ensures
            b == (self@.dom().len() == 0),
    {
        proof {
            use_type_invariant(self);
            lemma_count(self.entries@);
        }
        self.entries.len() == 0
    }
}

/// `e` is the entry at `address` named `name`, with base gas `base_gas`,
/// running `kind`.
pub open spec fn is_builtin(
    e: PrecompileEntry,
    address: [u8; 20],
    name: Seq<char>,
    base_gas: u64,
    kind: PrecompileKind,
) -> bool {
    &&& e.address == address
    &&& e.name@ == name
    &&& e.base_gas == base_gas
    &&& e.execute == kind
}

/// Base gas of a committee query.
pub const QUASAR_QUERY_BASE_GAS: u64 = 3_000;

impl PrecompileRegistry {
    /// The built-in Hanzo precompiles together with the Quasar committee
    /// query: the registry that a build with the Quasar precompile enabled
    /// starts from.
    pub fn with_quasar_query() -> (r: Self)
        ensures
            r@.dom() == set![ADDR_PQ_VERIFY, ADDR_QUASAR_QUERY, ADDR_AI_INFERENCE, ADDR_AI_EMBEDDING],
            keyed_by_address(r@),
            is_builtin(
                r@[ADDR_PQ_VERIFY],
                ADDR_PQ_VERIFY,
                "pq_verify"@,
                PQ_VERIFY_BASE_GAS,
                PrecompileKind::PqVerify,
            ),
            is_builtin(
                r@[ADDR_QUASAR_QUERY],
                ADDR_QUASAR_QUERY,
                "quasar_query"@,
                QUASAR_QUERY_BASE_GAS,
                PrecompileKind::QuasarQuery,
            ),
            is_builtin(
                r@[ADDR_AI_INFERENCE],
                ADDR_AI_INFERENCE,
                "ai_inference"@,
                GAS_BASE_INFER,
                PrecompileKind::AiInference,
            ),
            is_builtin(
                r@[ADDR_AI_EMBEDDING],
                ADDR_AI_EMBEDDING,
                "ai_embedding"@,
                GAS_BASE_EMBED,
                PrecompileKind::AiEmbedding,
            ),
    {
        let mut r = Self::default();
        r.register(
            PrecompileEntry {
                address: ADDR_QUASAR_QUERY,
                name: String::from_str("quasar_query"),
                base_gas: QUASAR_QUERY_BASE_GAS,
                execute: PrecompileKind::QuasarQuery,
            },
        );
        proof {
            lemma_named_addresses();
        }
        assert(r@.dom() =~= set![
            ADDR_PQ_VERIFY,
            ADDR_QUASAR_QUERY,
            ADDR_AI_INFERENCE,
            ADDR_AI_EMBEDDING,
        ]);
        r
    }
}

impl Default for PrecompileRegistry {
    /// Build a registry with the built-in Hanzo precompiles: signature
    /// verification, AI inference and AI embedding.
    fn default() -> (r: Self)
        ensures
            r@.dom() == set![ADDR_PQ_VERIFY, ADDR_AI_INFERENCE, ADDR_AI_EMBEDDING],
            keyed_by_address(r@),
            is_builtin(
                r@[ADDR_PQ_VERIFY],
                ADDR_PQ_VERIFY,
                "pq_verify"@,
                PQ_VERIFY_BASE_GAS,
                PrecompileKind::PqVerify,
            ),
            is_builtin(
                r@[ADDR_AI_INFERENCE],
                ADDR_AI_INFERENCE,
                "ai_inference"@,
                GAS_BASE_INFER,
                PrecompileKind::AiInference,
            ),
            is_builtin(
                r@[ADDR_AI_EMBEDDING],
                ADDR_AI_EMBEDDING,
                "ai_embedding"@,
                GAS_BASE_EMBED,
                PrecompileKind::AiEmbedding,
            ),
    {
        let mut r = Self::new();
        r.register(
            PrecompileEntry {
                address: ADDR_PQ_VERIFY,
                name: String::from_str("pq_verify"),
                base_gas: PQ_VERIFY_BASE_GAS,
                execute: PrecompileKind::PqVerify,
            },
        );
        r.register(
            PrecompileEntry {
                address: ADDR_AI_INFERENCE,
                name: String::from_str("ai_inference"),
                base_gas: GAS_BASE_INFER,
                execute: PrecompileKind::AiInference,
            },
        );
        r.register(
            PrecompileEntry {
                address: ADDR_AI_EMBEDDING,
                name: String::from_str("ai_embedding"),
                base_gas: GAS_BASE_EMBED,
                execute: PrecompileKind::AiEmbedding,
            },
        );
        proof {
            lemma_named_addresses();
        }
        assert(r@.dom() =~= set![ADDR_PQ_VERIFY, ADDR_AI_INFERENCE, ADDR_AI_EMBEDDING]);
        r
    }
}

} // verus!
