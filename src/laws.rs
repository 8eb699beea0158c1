use vstd::prelude::*;

use crate::query::{
    contract_info_answer, is_raw_answer, QueryStep, WasmQuerier, WasmQuery,
};
use crate::storage::{contract_keys, first_at, id_keys, namespace_of, raw_keys};

verus! {

/// A contract-info query about an address that the overlay holds is answered
/// with that entry's metadata at the fixed contract-info cost, with no remote
/// lookup.
pub proof fn local_contract_info_answered_from_overlay<C: Clone>(
    q: WasmQuerier<C>,
    remote: C,
    contract_addr: String,
    i: int,
    step: QueryStep<C>,
)
    requires
        q.overlay().wasm.wf(),
        0 <= i < q.overlay().wasm.contracts@.len(),
        q.overlay().wasm.contracts@[i].0@ == contract_addr@,
        q.query_post(remote, WasmQuery::ContractInfo { contract_addr }, step),
    ensures
        step == QueryStep::<C>::Answered(contract_info_answer(q.overlay().wasm.contracts@[i].1)),
{
    let keys = contract_keys(q.overlay().wasm.contracts@);
    assert(keys[i] == contract_addr@);
    assert(first_at(keys, contract_addr@, i));
}

/// A raw query whose namespaced key the overlay holds is answered with the
/// stored value at the fixed raw-query cost, with no remote lookup.
pub proof fn local_raw_answered_from_overlay<C: Clone>(
    q: WasmQuerier<C>,
    remote: C,
    contract_addr: String,
    key: Vec<u8>,
    i: int,
    step: QueryStep<C>,
)
    requires
        q.overlay().wasm.wf(),
        0 <= i < q.overlay().wasm.storage@.len(),
        q.overlay().wasm.storage@[i].0@ == namespace_of(contract_addr@) + key@,
        q.query_post(remote, WasmQuery::Raw { contract_addr, key }, step),
    ensures
        step is Answered,
        is_raw_answer(step->Answered_0, q.overlay().wasm.storage@[i].1@),
{
    let keys = raw_keys(q.overlay().wasm.storage@);
    assert(keys[i] == namespace_of(contract_addr@) + key@);
    assert(first_at(keys, namespace_of(contract_addr@) + key@, i));
}

/// A smart query against a contract whose code was uploaded in this session
/// runs those code bytes; nothing is fetched from the remote chain.
pub proof fn local_code_runs_locally<C: Clone>(
    q: WasmQuerier<C>,
    remote: C,
    contract_addr: String,
    msg: Vec<u8>,
    i: int,
    j: int,
    step: QueryStep<C>,
)
    requires
        q.overlay().wasm.wf(),
        0 <= i < q.overlay().wasm.contracts@.len(),
        q.overlay().wasm.contracts@[i].0@ == contract_addr@,
        0 <= j < q.overlay().wasm.codes@.len(),
        q.overlay().wasm.codes@[j].0 == q.overlay().wasm.contracts@[i].1.code_id,
        q.query_post(remote, WasmQuery::Smart { contract_addr, msg }, step),
    ensures
        step is RunQuery,
        step->RunQuery_contract is Local,
        step->RunQuery_contract->Local_0@ == q.overlay().wasm.codes@[j].1@,
{
    let w = q.overlay().wasm;
    let ckeys = contract_keys(w.contracts@);
    assert(ckeys[i] == contract_addr@);
    assert(first_at(ckeys, contract_addr@, i));
    let id = w.contracts@[i].1.code_id;
    let ikeys = id_keys(w.codes@);
    assert(ikeys[j] == id);
    assert(first_at(ikeys, id, j));
}

} // verus!
