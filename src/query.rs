use vstd::prelude::*;
use vstd::pervasive::cloned;

use crate::bytes::copy_bytes;
use crate::checksum::{local_checksum, local_code_checksum};
use crate::storage::{
    absent, address_fits, contract_keys, find_by_id, find_contract, find_raw, first_at, id_keys,
    namespace_of, raw_keys, raw_view, strip_namespace, get_full_contract_storage_namespace,
    CodeData, ContractData, QuerierStorage, WasmStorage,
};
use crate::bytes::extend_bytes;

verus! {

/// Gas charged for a contract-info or code-info query.
pub const GAS_COST_CONTRACT_INFO: u64 = 1000;

/// Gas charged for a raw storage query.
pub const GAS_COST_RAW_COSMWASM_QUERY: u64 = 1000;

/// A query about contract state.
#[derive(Clone, Debug, PartialEq, Eq)]
pub enum WasmQuery {
    ContractInfo { contract_addr: String },
    Raw { contract_addr: String, key: Vec<u8> },
    Smart { contract_addr: String, msg: Vec<u8> },
    CodeInfo { code_id: u64 },
}

/// The payload of a successful query.
#[derive(Clone, Debug, PartialEq, Eq)]
pub enum QueryResponse {
    ContractInfo(ContractData),
    Raw(Vec<u8>),
    Smart(Vec<u8>),
    CodeInfo { code_id: u64, creator: String, checksum: Vec<u8> },
}

/// A structured, recoverable query failure.
#[derive(Clone, Debug, PartialEq, Eq)]
pub enum SystemError {
    InvalidRequest { error: String, request: Vec<u8> },
    NoSuchContract { addr: String },
    NoSuchCode { code_id: u64 },
}

/// A query result with the gas charged for it.
#[derive(Debug, PartialEq, Eq)]
pub struct QueryResultWithGas {
    pub result: Result<QueryResponse, SystemError>,
    pub gas_used: u64,
}

/// Which code a smart query runs.
#[derive(Clone, Debug, PartialEq, Eq)]
pub enum WasmContract {
    /// Code uploaded in this session.
    Local(Vec<u8>),
    /// Code to fetch from the remote chain by its id.
    DistantCodeId(u64),
    /// Contract whose metadata and code are both fetched from the remote chain.
    DistantContract(String),
}

/// Arguments of a query entry point: the executing contract's address for the
/// environment, and the message.
#[derive(Clone, Debug, PartialEq, Eq)]
pub struct QueryArgs {
    pub contract_address: String,
    pub msg: Vec<u8>,
}

/// What an entry point of a contract handed back.
#[derive(Clone, Debug, PartialEq, Eq)]
pub enum WasmOutput {
    Execute,
    Instantiate,
    Query(Vec<u8>),
    Sudo,
    Migrate,
    Reply,
}

/// Output of a contract run with the gas it consumed.
#[derive(Clone, Debug, PartialEq, Eq)]
pub struct WasmRunnerOutput {
    pub wasm: WasmOutput,
    pub gas_used: u64,
}

/// The next step of a query: an answer, or the outside work it waits on.
#[derive(Debug, PartialEq, Eq)]
pub enum QueryStep<C> {
    Answered(QueryResultWithGas),
    /// Load the contract's metadata from the remote chain.
    LoadDistantContract { remote: C, contract_addr: String },
    /// Read the raw state of a contract on the remote chain.
    FetchRawState { remote: C, contract_addr: String, key: Vec<u8> },
    /// Read code metadata from the remote chain.
    FetchCodeInfo { remote: C, code_id: u64 },
    /// Run the query entry point of `contract`, starting from `init_storage`.
    RunQuery { remote: C, contract: WasmContract, args: QueryArgs, init_storage: Vec<(Vec<u8>, Vec<u8>)> },
}

/// Resolves wasm queries against a local overlay, falling back on a remote chain.
pub struct WasmQuerier<C> {
    current_storage: QuerierStorage,
    remote: C,
}

/// The requests whose addresses have a storage namespace.
pub open spec fn request_fits(request: WasmQuery) -> bool {
    match request {
        WasmQuery::Raw { contract_addr, key } => address_fits(contract_addr@),
        WasmQuery::Smart { contract_addr, msg } => address_fits(contract_addr@),
        _ => true,
    }
}

/// The answer to a contract-info query about `data`.
pub open spec fn contract_info_answer(data: ContractData) -> QueryResultWithGas {
    QueryResultWithGas {
        result: Ok(QueryResponse::ContractInfo(data)),
        gas_used: GAS_COST_CONTRACT_INFO,
    }
}

/// `r` answers a raw query with `value`.
pub open spec fn is_raw_answer(r: QueryResultWithGas, value: Seq<u8>) -> bool {
    r.gas_used == GAS_COST_RAW_COSMWASM_QUERY && match r.result {
        Ok(QueryResponse::Raw(v)) => v@ == value,
        _ => false,
    }
}

/// `r` answers a code-info query with the given fields.
pub open spec fn is_code_info_answer(
    r: QueryResultWithGas,
    code_id: u64,
    creator: String,
    checksum: Seq<u8>,
) -> bool {
    r.gas_used == GAS_COST_CONTRACT_INFO && match r.result {
        Ok(QueryResponse::CodeInfo { code_id: c, creator: cr, checksum: cs }) => c == code_id
            && cr == creator && cs@ == checksum,
        _ => false,
    }
}

/// Which code a smart query against `addr` runs, given the overlay `w`.
pub open spec fn chosen_code(w: WasmStorage, addr: Seq<char>, contract: WasmContract) -> bool {
    &&& forall|i: int|
        first_at(contract_keys(w.contracts@), addr, i) ==> {
            let id = #[trigger] w.contracts@[i].1.code_id;
            &&& forall|j: int|
                first_at(id_keys(w.codes@), id, j) ==> match contract {
                    WasmContract::Local(b) => b@ == w.codes@[j].1@,
                    _ => false,
                }
            &&& absent(id_keys(w.codes@), id) ==> contract == WasmContract::DistantCodeId(id)
        }
    &&& absent(contract_keys(w.contracts@), addr) ==> match contract {
        WasmContract::DistantContract(a) => a@ == addr,
        _ => false,
    }
}

impl<C: Clone> WasmQuerier<C> {
    /// The overlay this querier reads.
    pub closed spec fn overlay(&self) -> QuerierStorage {
        self.current_storage
    }

    /// The channel this querier hands to remote lookups and contract runs.
    pub closed spec fn channel(&self) -> C {
        self.remote
    }

    /// What `query(remote, request)` may hand back as `step`.
    pub open spec fn query_post(&self, remote: C, request: WasmQuery, step: QueryStep<C>) -> bool {
        let w = self.overlay().wasm;
        match request {
            WasmQuery::ContractInfo { contract_addr } => {
                let keys = contract_keys(w.contracts@);
                &&& forall|i: int|
                    first_at(keys, contract_addr@, i) ==> step == QueryStep::<C>::Answered(
                        contract_info_answer(#[trigger] w.contracts@[i].1),
                    )
                &&& absent(keys, contract_addr@) ==> match step {
                    QueryStep::LoadDistantContract { remote: r, contract_addr: a } => cloned(
                        self.channel(),
                        r,
                    ) && a == contract_addr,
                    _ => false,
                }
            },
            WasmQuery::Raw { contract_addr, key } => {
                let total = namespace_of(contract_addr@) + key@;
                let keys = raw_keys(w.storage@);
                &&& forall|i: int|
                    first_at(keys, total, i) ==> match step {
                        QueryStep::Answered(r) => is_raw_answer(r, (#[trigger] w.storage@[i]).1@),
                        _ => false,
                    }
                &&& absent(keys, total) ==> match step {
                    QueryStep::FetchRawState { remote: r, contract_addr: a, key: k } => r == remote
                        && a == contract_addr && k@ == key@,
                    _ => false,
                }
            },
            WasmQuery::Smart { contract_addr, msg } => match step {
                QueryStep::RunQuery { remote: r, contract, args, init_storage } => {
                    &&& cloned(self.channel(), r)
                    &&& chosen_code(w, contract_addr@, contract)
                    &&& args.contract_address == contract_addr
                    &&& args.msg@ == msg@
                    &&& raw_view(init_storage@) == strip_namespace(
                        raw_view(w.storage@),
                        namespace_of(contract_addr@),
                    )
                },
                _ => false,
            },
            WasmQuery::CodeInfo { code_id } => {
                let keys = id_keys(w.code_data@);
                &&& forall|i: int|
                    first_at(keys, code_id, i) ==> match step {
                        QueryStep::Answered(r) => is_code_info_answer(
                            r,
                            code_id,
                            (#[trigger] w.code_data@[i]).1.creator,
                            local_checksum(w.code_data@[i].1.seed as nat),
                        ),
                        _ => false,
                    }
                &&& absent(keys, code_id) ==> match step {
                    QueryStep::FetchCodeInfo { remote: r, code_id: c } => cloned(self.channel(), r)
                        && c == code_id,
                    _ => false,
                }
            },
        }
    }

    /// A querier over `storage`, or over an empty overlay where none is given.
    pub fn new(remote: C, storage: Option<QuerierStorage>) -> (r: Self)
        ensures
            r.channel() == remote,
            match storage {
                Some(s) => r.overlay() == s,
                None => r.overlay().is_empty(),
            },
    {
        let current_storage = match storage {
            Some(s) => s,
            None => QuerierStorage::empty(),
        };
        WasmQuerier { current_storage, remote }
    }

    /// The overlay this querier reads.
    pub fn current_storage(&self) -> (r: &QuerierStorage)
        ensures
            *r == self.overlay(),
    {
        &self.current_storage
    }

    /// Decides how to answer `request`: from the overlay, or by outside work.
    /// Raw lookups that miss go to `remote`; other remote work uses the
    /// querier's own channel.
    pub fn query(&self, remote: C, request: &WasmQuery) -> (step: QueryStep<C>)
        requires
            request_fits(*request),
        ensures
            self.query_post(remote, *request, step),
    {
        let w = &self.current_storage.wasm;
        match request {
            WasmQuery::ContractInfo { contract_addr } => {
                match find_contract(&w.contracts, contract_addr) {
                    Some(i) => QueryStep::Answered(
                        QueryResultWithGas {
                            result: Ok(QueryResponse::ContractInfo(w.contracts[i].1.copy())),
                            gas_used: GAS_COST_CONTRACT_INFO,
                        },
                    ),
                    None => QueryStep::LoadDistantContract {
                        remote: self.remote.clone(),
                        contract_addr: contract_addr.clone(),
                    },
                }
            },
            WasmQuery::Raw { contract_addr, key } => {
                let mut total_key = get_full_contract_storage_namespace(contract_addr);
                extend_bytes(&mut total_key, key.as_slice());
                match find_raw(&w.storage, &total_key) {
                    Some(i) => QueryStep::Answered(
                        QueryResultWithGas {
                            result: Ok(QueryResponse::Raw(copy_bytes(&w.storage[i].1))),
                            gas_used: GAS_COST_RAW_COSMWASM_QUERY,
                        },
                    ),
                    None => QueryStep::FetchRawState {
                        remote,
                        contract_addr: contract_addr.clone(),
                        key: copy_bytes(key),
                    },
                }
            },
            WasmQuery::Smart { contract_addr, msg } => {
                let contract = match find_contract(&w.contracts, contract_addr) {
                    Some(i) => {
                        let code_id = w.contracts[i].1.code_id;
                        match find_by_id(&w.codes, code_id) {
                            Some(j) => WasmContract::Local(copy_bytes(&w.codes[j].1)),
                            None => WasmContract::DistantCodeId(code_id),
                        }
                    },
                    None => WasmContract::DistantContract(contract_addr.clone()),
                };
                let args = QueryArgs { contract_address: contract_addr.clone(), msg: copy_bytes(msg) };
                let init_storage = w.get_contract_storage(contract_addr);
                QueryStep::RunQuery { remote: self.remote.clone(), contract, args, init_storage }
            },
            WasmQuery::CodeInfo { code_id } => {
                match find_by_id(&w.code_data, *code_id) {
                    Some(i) => {
                        let data: &CodeData = &w.code_data[i].1;
                        QueryStep::Answered(
                            QueryResultWithGas {
                                result: Ok(
                                    QueryResponse::CodeInfo {
                                        code_id: *code_id,
                                        creator: data.creator.clone(),
                                        checksum: local_code_checksum(data.seed),
                                    },
                                ),
                                gas_used: GAS_COST_CONTRACT_INFO,
                            },
                        )
                    },
                    None => QueryStep::FetchCodeInfo { remote: self.remote.clone(), code_id: *code_id },
                }
            },
        }
    }
}

/// The answer to a contract-info query once the remote chain was asked for
/// the metadata of `contract_addr`.
pub fn contract_info_result(contract_addr: &String, loaded: Result<ContractData, String>) -> (r:
    QueryResultWithGas)
    ensures
        match loaded {
            Ok(d) => r == contract_info_answer(d),
            Err(_) => r == (QueryResultWithGas {
                result: Err(SystemError::NoSuchContract { addr: *contract_addr }),
                gas_used: 0,
            }),
        },
{
    match loaded {
        Ok(d) => QueryResultWithGas {
            result: Ok(QueryResponse::ContractInfo(d)),
            gas_used: GAS_COST_CONTRACT_INFO,
        },
        Err(_) => QueryResultWithGas {
            result: Err(SystemError::NoSuchContract { addr: contract_addr.clone() }),
            gas_used: 0,
        },
    }
}

/// `r` is an invalid-request failure with message `error`, echoing `request`, at no gas.
pub open spec fn is_invalid_request(r: QueryResultWithGas, error: Seq<char>, request: Seq<u8>) -> bool {
    r.gas_used == 0 && match r.result {
        Err(SystemError::InvalidRequest { error: e, request: q }) => e@ == error && q@ == request,
        _ => false,
    }
}

/// The answer to a raw query once the remote chain was asked for `key`.
pub fn raw_result(key: &Vec<u8>, fetched: Result<Vec<u8>, String>) -> (r: QueryResultWithGas)
    ensures
        match fetched {
            Ok(v) => is_raw_answer(r, v@),
            Err(e) => is_invalid_request(r, "Error querying raw contract state: "@ + e@, key@),
        },
{
    match fetched {
        Ok(v) => QueryResultWithGas {
            result: Ok(QueryResponse::Raw(v)),
            gas_used: GAS_COST_RAW_COSMWASM_QUERY,
        },
        Err(e) => {
            let mut error = String::from_str("Error querying raw contract state: ");
            error.append(e.as_str());
            QueryResultWithGas {
                result: Err(SystemError::InvalidRequest { error, request: copy_bytes(key) }),
                gas_used: 0,
            }
        },
    }
}

/// The answer to a code-info query once the remote chain was asked for
/// `code_id`; a success carries the creator and the content hash.
pub fn code_info_result(code_id: u64, fetched: Result<(String, Vec<u8>), String>) -> (r:
    QueryResultWithGas)
    ensures
        match fetched {
            Ok((creator, hash)) => is_code_info_answer(r, code_id, creator, hash@),
            Err(_) => r == (QueryResultWithGas {
                result: Err(SystemError::NoSuchCode { code_id }),
                gas_used: 0,
            }),
        },
{
    match fetched {
        Ok((creator, checksum)) => QueryResultWithGas {
            result: Ok(QueryResponse::CodeInfo { code_id, creator, checksum }),
            gas_used: GAS_COST_CONTRACT_INFO,
        },
        Err(_) => QueryResultWithGas { result: Err(SystemError::NoSuchCode { code_id }), gas_used: 0 },
    }
}

/// A run of a query entry point hands back query output when it succeeds.
pub open spec fn is_query_outcome(outcome: Result<WasmRunnerOutput, String>) -> bool {
    match outcome {
        Ok(o) => o.wasm is Query,
        Err(_) => true,
    }
}

/// The answer to a smart query with message `msg` once the contract ran.
/// A failed run becomes an invalid-request error that echoes `msg`, at no
/// gas; a successful one is charged the gas the run reported.
pub fn smart_result(msg: &Vec<u8>, outcome: Result<WasmRunnerOutput, String>) -> (r:
    QueryResultWithGas)
    requires
        is_query_outcome(outcome),
    ensures
        match outcome {
            Ok(o) => r.gas_used == o.gas_used && match (r.result, o.wasm) {
                (Ok(QueryResponse::Smart(b)), WasmOutput::Query(q)) => b@ == q@,
                _ => false,
            },
            Err(e) => is_invalid_request(r, "Error querying a contract: "@ + e@, msg@),
        },
{
    match outcome {
        Ok(o) => {
            let gas_used = o.gas_used;
            match o.wasm {
                WasmOutput::Query(bin) => QueryResultWithGas {
                    result: Ok(QueryResponse::Smart(bin)),
                    gas_used,
                },
                _ => {
                    proof {
                        assert(false);
                    }
                    QueryResultWithGas { result: Ok(QueryResponse::Smart(Vec::new())), gas_used }
                },
            }
        },
        Err(e) => {
            let mut error = String::from_str("Error querying a contract: ");
            error.append(e.as_str());
            QueryResultWithGas {
                result: Err(SystemError::InvalidRequest { error, request: copy_bytes(msg) }),
                gas_used: 0,
            }
        },
    }
}

} // verus!
