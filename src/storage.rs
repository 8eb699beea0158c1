use vstd::prelude::*;
use vstd::utf8::encode_utf8;

use crate::bytes::{bytes_eq, copy_bytes, extend_bytes, has_prefix, suffix_from};

verus! {

/// Metadata of a contract instance known to the local overlay.
#[derive(Clone, Debug, PartialEq, Eq)]
pub struct ContractData {
    pub code_id: u64,
    pub creator: String,
    pub admin: Option<String>,
}

impl ContractData {
    pub fn copy(&self) -> (r: ContractData)
        ensures
            r == *self,
    {
        let admin = match &self.admin {
            Some(a) => Some(a.clone()),
            None => None,
        };
        ContractData { code_id: self.code_id, creator: self.creator.clone(), admin }
    }
}

/// Metadata of a code upload known to the local overlay.
#[derive(Clone, Debug, PartialEq, Eq)]
pub struct CodeData {
    pub creator: String,
    /// Seed from which the harness derives a deterministic checksum.
    pub seed: usize,
}

/// The wasm part of the local overlay.
#[derive(Clone, Debug, PartialEq, Eq)]
pub struct WasmStorage {
    /// Contract address to contract metadata.
    pub contracts: Vec<(String, ContractData)>,
    /// Code id to the code bytes uploaded in this session.
    pub codes: Vec<(u64, Vec<u8>)>,
    /// Code id to code metadata.
    pub code_data: Vec<(u64, CodeData)>,
    /// Raw writes, keyed by namespaced key.
    pub storage: Vec<(Vec<u8>, Vec<u8>)>,
}

/// The local overlay: state accumulated during the session.
#[derive(Clone, Debug, PartialEq, Eq)]
pub struct QuerierStorage {
    pub wasm: WasmStorage,
}

/// `i` is the first position of `k` in `keys`.
pub open spec fn first_at<K>(keys: Seq<K>, k: K, i: int) -> bool {
    0 <= i < keys.len() && keys[i] == k && forall|j: int| 0 <= j < i ==> keys[j] != k
}

/// `k` occurs nowhere in `keys`.
pub open spec fn absent<K>(keys: Seq<K>, k: K) -> bool {
    forall|j: int| 0 <= j < keys.len() ==> keys[j] != k
}

/// No key occurs twice in `keys`.
pub open spec fn keys_unique<K>(keys: Seq<K>) -> bool {
    forall|i: int, j: int| 0 <= i < keys.len() && 0 <= j < keys.len() && keys[i] == keys[j] ==> i == j
}

pub open spec fn contract_keys(s: Seq<(String, ContractData)>) -> Seq<Seq<char>> {
    s.map_values(|e: (String, ContractData)| e.0@)
}

pub open spec fn id_keys<V>(s: Seq<(u64, V)>) -> Seq<u64> {
    s.map_values(|e: (u64, V)| e.0)
}

/// Raw entries as pairs of byte sequences.
pub open spec fn raw_view(s: Seq<(Vec<u8>, Vec<u8>)>) -> Seq<(Seq<u8>, Seq<u8>)> {
    s.map_values(|e: (Vec<u8>, Vec<u8>)| (e.0@, e.1@))
}

pub open spec fn raw_keys(s: Seq<(Vec<u8>, Vec<u8>)>) -> Seq<Seq<u8>> {
    s.map_values(|e: (Vec<u8>, Vec<u8>)| e.0@)
}

impl QuerierStorage {
    /// The overlay holds nothing.
    pub open spec fn is_empty(&self) -> bool {
        &&& self.wasm.contracts@.len() == 0
        &&& self.wasm.codes@.len() == 0
        &&& self.wasm.code_data@.len() == 0
        &&& self.wasm.storage@.len() == 0
    }

    /// An overlay with nothing in it.
    pub fn empty() -> (r: QuerierStorage)
        ensures
            r.is_empty(),
    {
        QuerierStorage {
            wasm: WasmStorage {
                contracts: Vec::new(),
                codes: Vec::new(),
                code_data: Vec::new(),
                storage: Vec::new(),
            },
        }
    }
}

impl WasmStorage {
    /// Map keys are unique: no address, code id or namespaced key twice.
    pub open spec fn wf(&self) -> bool {
        &&& keys_unique(contract_keys(self.contracts@))
        &&& keys_unique(id_keys(self.codes@))
        &&& keys_unique(id_keys(self.code_data@))
        &&& keys_unique(raw_keys(self.storage@))
    }

    /// The entries whose key lies under the namespace of `addr`, with the namespace taken off.
    pub fn get_contract_storage(&self, addr: &String) -> (r: Vec<(Vec<u8>, Vec<u8>)>)
        requires
            address_fits(addr@),
        ensures
            raw_view(r@) == strip_namespace(raw_view(self.storage@), namespace_of(addr@)),
    {
        let ns = get_full_contract_storage_namespace(addr);
        let n = ns.len();
        let mut out: Vec<(Vec<u8>, Vec<u8>)> = Vec::new();
        let mut i: usize = 0;
        while i < self.storage.len()
            invariant
                0 <= i <= self.storage@.len(),
                ns@ == namespace_of(addr@),
                n == ns@.len(),
                raw_view(out@) == strip_namespace(raw_view(self.storage@).take(i as int), ns@),
            decreases self.storage@.len() - i,
        {
            let k = &self.storage[i].0;
            let v = &self.storage[i].1;
            let ghost before = raw_view(self.storage@).take(i as int);
            assert(raw_view(self.storage@).take(i + 1).drop_last() =~= before);
            let ghost prev = out@;
            if has_prefix(k, &ns) {
                let key = suffix_from(k, n);
                let value = copy_bytes(v);
                out.push((key, value));
                assert(raw_view(out@) =~= raw_view(prev).push((key@, value@)));
            }
            i = i + 1;
        }
        assert(raw_view(self.storage@).take(i as int) =~= raw_view(self.storage@));
        out
    }
}

/// `entries` restricted to keys that start with `ns`, each key with `ns` taken off.
pub open spec fn strip_namespace(entries: Seq<(Seq<u8>, Seq<u8>)>, ns: Seq<u8>) -> Seq<(Seq<u8>, Seq<u8>)>
    decreases entries.len(),
{
    if entries.len() == 0 {
        Seq::empty()
    } else {
        let rest = strip_namespace(entries.drop_last(), ns);
        let (k, v) = entries.last();
        if ns.len() <= k.len() && k.subrange(0, ns.len() as int) == ns {
            rest.push((k.subrange(ns.len() as int, k.len() as int), v))
        } else {
            rest
        }
    }
}

/// UTF-8 bytes of an address.
pub open spec fn address_bytes(addr: Seq<char>) -> Seq<u8> {
    encode_utf8(addr)
}

/// The namespace of an address fits a two-byte length prefix.
pub open spec fn address_fits(addr: Seq<char>) -> bool {
    address_bytes(addr).len() + 14 <= 0xffff
}

/// Two big-endian bytes of a length.
pub open spec fn length_prefix(n: nat) -> Seq<u8> {
    seq![(n / 256) as u8, (n % 256) as u8]
}

/// A namespace component written with its length first.
pub open spec fn length_prefixed(part: Seq<u8>) -> Seq<u8> {
    length_prefix(part.len()) + part
}

/// The ASCII text `wasm`.
pub open spec fn wasm_namespace() -> Seq<u8> {
    seq![119u8, 97, 115, 109]
}

/// The ASCII text `contract_data/`.
pub open spec fn contract_data_prefix() -> Seq<u8> {
    seq![99u8, 111, 110, 116, 114, 97, 99, 116, 95, 100, 97, 116, 97, 47]
}

/// The storage prefix of a contract: the nested namespaces `wasm` and
/// `contract_data/<address>`, each preceded by its length.
pub open spec fn namespace_of(addr: Seq<char>) -> Seq<u8> {
    length_prefixed(wasm_namespace()) + length_prefixed(contract_data_prefix() + address_bytes(addr))
}

fn push_length_prefix(out: &mut Vec<u8>, n: usize)
    requires
        n <= 0xffff,
    ensures
        final(out)@ == old(out)@ + length_prefix(n as nat),
{
    out.push((n / 256) as u8);
    out.push((n % 256) as u8);
    assert(final(out)@ =~= old(out)@ + length_prefix(n as nat));
}

/// Storage prefix under which the raw keys of contract `addr` are kept.
pub fn get_full_contract_storage_namespace(addr: &String) -> (r: Vec<u8>)
    requires
        address_fits(addr@),
    ensures
        r@ == namespace_of(addr@),
{
    let a = addr.as_str().as_bytes();
    let mut r: Vec<u8> = Vec::new();
    push_length_prefix(&mut r, 4);
    r.push(119u8);
    r.push(97u8);
    r.push(115u8);
    r.push(109u8);
    assert(r@ =~= length_prefixed(wasm_namespace()));
    push_length_prefix(&mut r, 14 + a.len());
    let mut part: Vec<u8> = Vec::new();
    part.push(99u8);
    part.push(111u8);
    part.push(110u8);
    part.push(116u8);
    part.push(114u8);
    part.push(97u8);
    part.push(99u8);
    part.push(116u8);
    part.push(95u8);
    part.push(100u8);
    part.push(97u8);
    part.push(116u8);
    part.push(97u8);
    part.push(47u8);
    assert(part@ =~= contract_data_prefix());
    extend_bytes(&mut part, a);
    extend_bytes(&mut r, part.as_slice());
    assert(r@ =~= namespace_of(addr@));
    r
}

/// First position of `addr` among the contract addresses.
pub fn find_contract(contracts: &Vec<(String, ContractData)>, addr: &String) -> (r: Option<usize>)
    ensures
        match r {
            Some(i) => first_at(contract_keys(contracts@), addr@, i as int),
            None => absent(contract_keys(contracts@), addr@),
        },
{
    let mut i: usize = 0;
    while i < contracts.len()
        invariant
            0 <= i <= contracts@.len(),
            forall|j: int| 0 <= j < i ==> contract_keys(contracts@)[j] != addr@,
        decreases contracts@.len() - i,
    {
        if contracts[i].0 == *addr {
            return Some(i);
        }
        i = i + 1;
    }
    None
}

/// First position of `id` among the code ids of `entries`.
pub fn find_by_id<V>(entries: &Vec<(u64, V)>, id: u64) -> (r: Option<usize>)
    ensures
        match r {
            Some(i) => first_at(id_keys(entries@), id, i as int),
            None => absent(id_keys(entries@), id),
        },
{
    let mut i: usize = 0;
    while i < entries.len()
        invariant
            0 <= i <= entries@.len(),
            forall|j: int| 0 <= j < i ==> id_keys(entries@)[j] != id,
        decreases entries@.len() - i,
    {
        if entries[i].0 == id {
            return Some(i);
        }
        i = i + 1;
    }
    None
}

/// First position of the namespaced key `key` among the raw entries.
pub fn find_raw(entries: &Vec<(Vec<u8>, Vec<u8>)>, key: &Vec<u8>) -> (r: Option<usize>)
    ensures
        match r {
            Some(i) => first_at(raw_keys(entries@), key@, i as int),
            None => absent(raw_keys(entries@), key@),
        },
{
    let mut i: usize = 0;
    while i < entries.len()
        invariant
            0 <= i <= entries@.len(),
            forall|j: int| 0 <= j < i ==> raw_keys(entries@)[j] != key@,
        decreases entries@.len() - i,
    {
        if bytes_eq(&entries[i].0, key) {
            return Some(i);
        }
        i = i + 1;
    }
    None
}

} // verus!
