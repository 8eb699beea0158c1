use wasm_query::checksum::local_code_checksum;
use wasm_query::query::{
    code_info_result, contract_info_result, raw_result, smart_result, QueryResponse,
    QueryStep, SystemError, WasmContract, WasmOutput, WasmQuerier, WasmQuery, WasmRunnerOutput,
    GAS_COST_CONTRACT_INFO, GAS_COST_RAW_COSMWASM_QUERY,
};
use wasm_query::storage::{
    get_full_contract_storage_namespace, CodeData, ContractData, QuerierStorage, WasmStorage,
};

fn namespaced(addr: &str, key: &[u8]) -> Vec<u8> {
    let mut k = get_full_contract_storage_namespace(&addr.to_string());
    k.extend_from_slice(key);
    k
}

fn overlay() -> QuerierStorage {
    QuerierStorage {
        wasm: WasmStorage {
            contracts: vec![
                (
                    "c1".to_string(),
                    ContractData { code_id: 5, creator: "alice".to_string(), admin: None },
                ),
                (
                    "c2".to_string(),
                    ContractData {
                        code_id: 7,
                        creator: "bob".to_string(),
                        admin: Some("carol".to_string()),
                    },
                ),
            ],
            codes: vec![(7, vec![0, 97, 115, 109])],
            code_data: vec![(7, CodeData { creator: "bob".to_string(), seed: 1 })],
            storage: vec![
                (namespaced("c1", b"k"), b"v".to_vec()),
                (namespaced("c2", b"k"), b"other".to_vec()),
                (namespaced("c1", b"count"), b"3".to_vec()),
            ],
        },
    }
}

fn querier() -> WasmQuerier<u8> {
    WasmQuerier::new(1u8, Some(overlay()))
}

#[test]
fn namespace_is_length_prefixed() {
    let ns = get_full_contract_storage_namespace(&"c1".to_string());
    let mut expected = vec![0u8, 4];
    expected.extend_from_slice(b"wasm");
    expected.extend_from_slice(&[0, 16]);
    expected.extend_from_slice(b"contract_data/c1");
    assert_eq!(ns, expected);
}

#[test]
fn new_without_storage_is_empty() {
    let q: WasmQuerier<u8> = WasmQuerier::new(3, None);
    let s = q.current_storage();
    assert!(s.wasm.contracts.is_empty());
    assert!(s.wasm.codes.is_empty());
    assert!(s.wasm.code_data.is_empty());
    assert!(s.wasm.storage.is_empty());
}

#[test]
fn contract_info_local_scenario() {
    let step = querier().query(2, &WasmQuery::ContractInfo { contract_addr: "c1".to_string() });
    match step {
        QueryStep::Answered(r) => {
            assert_eq!(r.gas_used, GAS_COST_CONTRACT_INFO);
            assert_eq!(
                r.result,
                Ok(QueryResponse::ContractInfo(ContractData {
                    code_id: 5,
                    creator: "alice".to_string(),
                    admin: None,
                }))
            );
        }
        other => panic!("expected a local answer, got {:?}", other),
    }
}

#[test]
fn contract_info_local_with_admin() {
    let step = querier().query(2, &WasmQuery::ContractInfo { contract_addr: "c2".to_string() });
    match step {
        QueryStep::Answered(r) => match r.result {
            Ok(QueryResponse::ContractInfo(d)) => {
                assert_eq!(d.code_id, 7);
                assert_eq!(d.admin, Some("carol".to_string()));
            }
            other => panic!("unexpected {:?}", other),
        },
        other => panic!("expected a local answer, got {:?}", other),
    }
}

#[test]
fn contract_info_unknown_goes_remote_on_own_channel() {
    let step = querier().query(2, &WasmQuery::ContractInfo { contract_addr: "far".to_string() });
    assert_eq!(
        step,
        QueryStep::LoadDistantContract { remote: 1, contract_addr: "far".to_string() }
    );
}

#[test]
fn raw_local_scenario() {
    let step = querier().query(
        2,
        &WasmQuery::Raw { contract_addr: "c1".to_string(), key: b"k".to_vec() },
    );
    match step {
        QueryStep::Answered(r) => {
            assert_eq!(r.gas_used, GAS_COST_RAW_COSMWASM_QUERY);
            assert_eq!(r.result, Ok(QueryResponse::Raw(b"v".to_vec())));
        }
        other => panic!("expected a local answer, got {:?}", other),
    }
}

#[test]
fn raw_first_entry_wins() {
    let mut s = overlay();
    s.wasm.storage.push((namespaced("c1", b"k"), b"later".to_vec()));
    let q = WasmQuerier::new(1u8, Some(s));
    let step = q.query(2, &WasmQuery::Raw { contract_addr: "c1".to_string(), key: b"k".to_vec() });
    match step {
        QueryStep::Answered(r) => assert_eq!(r.result, Ok(QueryResponse::Raw(b"v".to_vec()))),
        other => panic!("expected a local answer, got {:?}", other),
    }
}

#[test]
fn raw_miss_goes_remote_on_given_channel() {
    let step = querier().query(
        2,
        &WasmQuery::Raw { contract_addr: "c1".to_string(), key: b"missing".to_vec() },
    );
    assert_eq!(
        step,
        QueryStep::FetchRawState {
            remote: 2,
            contract_addr: "c1".to_string(),
            key: b"missing".to_vec(),
        }
    );
}

#[test]
fn smart_local_code_runs_locally() {
    let step = querier().query(
        2,
        &WasmQuery::Smart { contract_addr: "c2".to_string(), msg: b"{}".to_vec() },
    );
    match step {
        QueryStep::RunQuery { remote, contract, args, init_storage } => {
            assert_eq!(remote, 1);
            assert_eq!(contract, WasmContract::Local(vec![0, 97, 115, 109]));
            assert_eq!(args.contract_address, "c2");
            assert_eq!(args.msg, b"{}".to_vec());
            assert_eq!(init_storage, vec![(b"k".to_vec(), b"other".to_vec())]);
        }
        other => panic!("expected a run, got {:?}", other),
    }
}

#[test]
fn smart_code_not_uploaded_fetches_by_code_id() {
    let step = querier().query(
        2,
        &WasmQuery::Smart { contract_addr: "c1".to_string(), msg: b"{}".to_vec() },
    );
    match step {
        QueryStep::RunQuery { contract, init_storage, .. } => {
            assert_eq!(contract, WasmContract::DistantCodeId(5));
            assert_eq!(
                init_storage,
                vec![(b"k".to_vec(), b"v".to_vec()), (b"count".to_vec(), b"3".to_vec())]
            );
        }
        other => panic!("expected a run, got {:?}", other),
    }
}

#[test]
fn smart_unknown_contract_fetches_by_address() {
    let step = querier().query(
        2,
        &WasmQuery::Smart { contract_addr: "far".to_string(), msg: b"{}".to_vec() },
    );
    match step {
        QueryStep::RunQuery { contract, init_storage, .. } => {
            assert_eq!(contract, WasmContract::DistantContract("far".to_string()));
            assert!(init_storage.is_empty());
        }
        other => panic!("expected a run, got {:?}", other),
    }
}

#[test]
fn smart_failure_scenario() {
    let msg = b"{\"get_count\":{}}".to_vec();
    let r = smart_result(&msg, Err("division by zero".to_string()));
    assert_eq!(r.gas_used, 0);
    assert_eq!(
        r.result,
        Err(SystemError::InvalidRequest {
            error: "Error querying a contract: division by zero".to_string(),
            request: msg,
        })
    );
}

#[test]
fn smart_success_charges_reported_gas() {
    let out = WasmRunnerOutput { wasm: WasmOutput::Query(b"{\"count\":3}".to_vec()), gas_used: 12345 };
    let r = smart_result(&b"{}".to_vec(), Ok(out));
    assert_eq!(r.gas_used, 12345);
    assert_eq!(r.result, Ok(QueryResponse::Smart(b"{\"count\":3}".to_vec())));
}

#[test]
fn code_info_local_checksum() {
    let step = querier().query(2, &WasmQuery::CodeInfo { code_id: 7 });
    let expected: Vec<u8> = vec![
        39, 9, 91, 67, 143, 112, 174, 211, 84, 5, 20, 155, 197, 232, 223, 161, 212, 97, 247,
        205, 156, 37, 53, 152, 7, 173, 102, 220, 193, 57, 111, 199,
    ];
    match step {
        QueryStep::Answered(r) => {
            assert_eq!(r.gas_used, GAS_COST_CONTRACT_INFO);
            assert_eq!(
                r.result,
                Ok(QueryResponse::CodeInfo {
                    code_id: 7,
                    creator: "bob".to_string(),
                    checksum: expected,
                })
            );
        }
        other => panic!("expected a local answer, got {:?}", other),
    }
}

#[test]
fn checksum_of_multi_digit_seed() {
    let hex: String = local_code_checksum(42).iter().map(|b| format!("{:02x}", b)).collect();
    assert_eq!(hex, "d9c94df5ca6796b06ef8f84b0d3b0e35d808d150ca74e642e90868cd257728a5");
}

#[test]
fn code_info_unknown_goes_remote() {
    let step = querier().query(2, &WasmQuery::CodeInfo { code_id: 9 });
    assert_eq!(step, QueryStep::FetchCodeInfo { remote: 1, code_id: 9 });
}

#[test]
fn remote_results_are_wrapped() {
    let d = ContractData { code_id: 11, creator: "dave".to_string(), admin: None };
    let r = contract_info_result(&"far".to_string(), Ok(d.clone()));
    assert_eq!(r.gas_used, GAS_COST_CONTRACT_INFO);
    assert_eq!(r.result, Ok(QueryResponse::ContractInfo(d)));

    let r = contract_info_result(&"far".to_string(), Err("not found".to_string()));
    assert_eq!(r.gas_used, 0);
    assert_eq!(r.result, Err(SystemError::NoSuchContract { addr: "far".to_string() }));

    let r = raw_result(&b"k".to_vec(), Ok(b"remote".to_vec()));
    assert_eq!(r.gas_used, GAS_COST_RAW_COSMWASM_QUERY);
    assert_eq!(r.result, Ok(QueryResponse::Raw(b"remote".to_vec())));

    let r = raw_result(&b"k".to_vec(), Err("timeout".to_string()));
    assert_eq!(r.gas_used, 0);
    assert_eq!(
        r.result,
        Err(SystemError::InvalidRequest {
            error: "Error querying raw contract state: timeout".to_string(),
            request: b"k".to_vec(),
        })
    );

    let r = code_info_result(9, Ok(("erin".to_string(), vec![1, 2, 3])));
    assert_eq!(r.gas_used, GAS_COST_CONTRACT_INFO);
    assert_eq!(
        r.result,
        Ok(QueryResponse::CodeInfo { code_id: 9, creator: "erin".to_string(), checksum: vec![1, 2, 3] })
    );

    let r = code_info_result(9, Err("gone".to_string()));
    assert_eq!(r.result, Err(SystemError::NoSuchCode { code_id: 9 }));
}

#[test]
fn empty_overlay_sends_everything_remote() {
    let q: WasmQuerier<u8> = WasmQuerier::new(1, None);
    let step = q.query(2, &WasmQuery::Raw { contract_addr: "c1".to_string(), key: b"k".to_vec() });
    assert_eq!(
        step,
        QueryStep::FetchRawState { remote: 2, contract_addr: "c1".to_string(), key: b"k".to_vec() }
    );
    let step = q.query(2, &WasmQuery::ContractInfo { contract_addr: "c1".to_string() });
    assert_eq!(
        step,
        QueryStep::LoadDistantContract { remote: 1, contract_addr: "c1".to_string() }
    );
}
