use cosmwasm_std::MemoryStorage;
use cosmwasm_std::Storage;

use cwtemplate::contract::{execute, instantiate, query, query_count, try_increment, try_reset};
use cwtemplate::error::ContractError;
use cwtemplate::msg::{ExecuteMsg, InstantiateMsg, QueryMsg};
use cwtemplate::store::load;

#[test]
fn my_proper_initialization() {
    let mut deps = MemoryStorage::new();
    let msg = InstantiateMsg { count: 17 };
    let res = instantiate(&mut deps, "creator_address", msg).unwrap();
    assert_eq!(res.attributes.len(), 3);

    let msg = QueryMsg::GetCount;
    let get_count_response = query(&deps, msg).unwrap();
    assert_eq!(get_count_response.count, 17);
}

#[test]
fn proper_initialization() {
    let mut deps = MemoryStorage::new();

    let msg = InstantiateMsg { count: 17 };

    let res = instantiate(&mut deps, "creator", msg).unwrap();
    assert_eq!(3, res.attributes.len());

    // it worked, let's query the state
    let value = query(&deps, QueryMsg::GetCount).unwrap();
    assert_eq!(17, value.count);
}

#[test]
fn my_increment() {
    let mut deps = MemoryStorage::new();
    let msg = InstantiateMsg { count: 17 };
    let _res = instantiate(&mut deps, "creator_address", msg).unwrap();

    let msg = ExecuteMsg::Increment;
    let _res = execute(&mut deps, "anyone", msg).unwrap();

    let msg = QueryMsg::GetCount;
    let response = query(&deps, msg).unwrap();
    assert_eq!(response.count, 18);
}

#[test]
fn increment() {
    let mut deps = MemoryStorage::new();

    let msg = InstantiateMsg { count: 17 };
    let _res = instantiate(&mut deps, "creator", msg).unwrap();

    // anyone can increment it
    let msg = ExecuteMsg::Increment;
    let _res = execute(&mut deps, "anyone", msg).unwrap();

    // should increase counter by 1
    let value = query(&deps, QueryMsg::GetCount).unwrap();
    assert_eq!(18, value.count);
}

#[test]
fn my_reset() {
    let mut deps = MemoryStorage::new();
    let _res = instantiate(&mut deps, "creator_address", InstantiateMsg { count: 17 }).unwrap();

    let res = execute(&mut deps, "bad_address", ExecuteMsg::Reset { count: 25 });
    match res {
        Err(ContractError::Unauthorized) => {}
        _ => panic!("Must return unauthorized error"),
    }

    let _res = execute(&mut deps, "creator_address", ExecuteMsg::Reset { count: 100 }).unwrap();
    let count_response = query(&deps, QueryMsg::GetCount).unwrap();
    assert_eq!(count_response.count, 100);
}

#[test]
fn reset() {
    let mut deps = MemoryStorage::new();

    let msg = InstantiateMsg { count: 17 };
    let _res = instantiate(&mut deps, "creator", msg).unwrap();

    let msg = ExecuteMsg::Reset { count: 5 };
    let res = execute(&mut deps, "anyone", msg);
    match res {
        Err(ContractError::Unauthorized) => {}
        _ => panic!("Must return unauthorized error"),
    }

    // only the original creator can reset the counter
    let msg = ExecuteMsg::Reset { count: 5 };
    let _res = execute(&mut deps, "creator", msg).unwrap();

    // should now be 5
    let value = query(&deps, QueryMsg::GetCount).unwrap();
    assert_eq!(5, value.count);
}

#[test]
fn counter_lifecycle() {
    let mut deps = MemoryStorage::new();
    instantiate(&mut deps, "creator", InstantiateMsg { count: 17 }).unwrap();
    assert_eq!(query(&deps, QueryMsg::GetCount).unwrap().count, 17);

    execute(&mut deps, "anyone", ExecuteMsg::Increment).unwrap();
    assert_eq!(query(&deps, QueryMsg::GetCount).unwrap().count, 18);

    let res = execute(&mut deps, "anyone", ExecuteMsg::Reset { count: 25 });
    assert_eq!(res.unwrap_err(), ContractError::Unauthorized);
    assert_eq!(query(&deps, QueryMsg::GetCount).unwrap().count, 18);

    execute(&mut deps, "creator", ExecuteMsg::Reset { count: 100 }).unwrap();
    assert_eq!(query(&deps, QueryMsg::GetCount).unwrap().count, 100);
}

#[test]
fn not_found_before_initialization() {
    let mut deps = MemoryStorage::new();
    assert_eq!(query(&deps, QueryMsg::GetCount).unwrap_err(), ContractError::NotFound);
    assert_eq!(query_count(&deps).unwrap_err(), ContractError::NotFound);
    assert_eq!(load(&deps).unwrap_err(), ContractError::NotFound);
    assert_eq!(try_increment(&mut deps).unwrap_err(), ContractError::NotFound);
    assert_eq!(
        try_reset(&mut deps, "creator", 3).unwrap_err(),
        ContractError::NotFound
    );
}

#[test]
fn initialize_then_load_gives_record_back() {
    let mut deps = MemoryStorage::new();
    instantiate(&mut deps, "creator", InstantiateMsg { count: -42 }).unwrap();
    let state = load(&deps).unwrap();
    assert_eq!(state.count, -42);
    assert_eq!(state.owner, "creator".as_bytes().to_vec());
}

#[test]
fn repeated_increments_add_exactly() {
    let mut deps = MemoryStorage::new();
    instantiate(&mut deps, "creator", InstantiateMsg { count: -2 }).unwrap();
    for _ in 0..5 {
        try_increment(&mut deps).unwrap();
    }
    assert_eq!(query_count(&deps).unwrap().count, 3);
}

#[test]
fn increment_saturates_at_max() {
    let mut deps = MemoryStorage::new();
    instantiate(&mut deps, "creator", InstantiateMsg { count: 0 }).unwrap();
    execute(&mut deps, "creator", ExecuteMsg::Reset { count: i32::MAX }).unwrap();
    execute(&mut deps, "anyone", ExecuteMsg::Increment).unwrap();
    assert_eq!(query_count(&deps).unwrap().count, i32::MAX);
}

#[test]
fn owner_survives_every_operation() {
    let mut deps = MemoryStorage::new();
    instantiate(&mut deps, "creator", InstantiateMsg { count: 1 }).unwrap();
    try_increment(&mut deps).unwrap();
    assert_eq!(load(&deps).unwrap().owner, "creator".as_bytes().to_vec());
    try_reset(&mut deps, "creator", 9).unwrap();
    assert_eq!(load(&deps).unwrap().owner, "creator".as_bytes().to_vec());
    let res = try_reset(&mut deps, "intruder", 0);
    assert_eq!(res.unwrap_err(), ContractError::Unauthorized);
    assert_eq!(load(&deps).unwrap().owner, "creator".as_bytes().to_vec());
}

#[test]
fn multibyte_owner_identity() {
    let mut deps = MemoryStorage::new();
    instantiate(&mut deps, "cr\u{e9}ateur", InstantiateMsg { count: 4 }).unwrap();
    let res = try_reset(&mut deps, "cr", 0);
    assert_eq!(res.unwrap_err(), ContractError::Unauthorized);
    try_reset(&mut deps, "cr\u{e9}ateur", 6).unwrap();
    assert_eq!(query_count(&deps).unwrap().count, 6);
}

#[test]
fn instantiate_emits_exact_attributes() {
    let mut deps = MemoryStorage::new();
    let res = instantiate(&mut deps, "creator", InstantiateMsg { count: 17 }).unwrap();
    assert_eq!(res.attributes.len(), 3);
    assert_eq!(res.attributes[0].key, "method");
    assert_eq!(res.attributes[0].value, "instantiate");
    assert_eq!(res.attributes[1].key, "owner");
    assert_eq!(res.attributes[1].value, "creator");
    assert_eq!(res.attributes[2].key, "count");
    assert_eq!(res.attributes[2].value, "17");
}

#[test]
fn count_attribute_renders_extreme_values() {
    let mut deps = MemoryStorage::new();
    let res = instantiate(&mut deps, "a", InstantiateMsg { count: i32::MIN }).unwrap();
    assert_eq!(res.attributes[2].value, "-2147483648");

    let mut deps = MemoryStorage::new();
    let res = instantiate(&mut deps, "a", InstantiateMsg { count: i32::MAX }).unwrap();
    assert_eq!(res.attributes[2].value, "2147483647");

    let mut deps = MemoryStorage::new();
    let res = instantiate(&mut deps, "a", InstantiateMsg { count: 0 }).unwrap();
    assert_eq!(res.attributes[2].value, "0");
}

#[test]
fn execute_emits_method_attributes() {
    let mut deps = MemoryStorage::new();
    instantiate(&mut deps, "creator", InstantiateMsg { count: 0 }).unwrap();
    let res = execute(&mut deps, "anyone", ExecuteMsg::Increment).unwrap();
    assert_eq!(res.attributes.len(), 1);
    assert_eq!(res.attributes[0].key, "method");
    assert_eq!(res.attributes[0].value, "try_increment");
    let res = execute(&mut deps, "creator", ExecuteMsg::Reset { count: 2 }).unwrap();
    assert_eq!(res.attributes.len(), 1);
    assert_eq!(res.attributes[0].key, "method");
    assert_eq!(res.attributes[0].value, "try_reset");
}

#[test]
fn version_tag_is_written() {
    let mut deps = MemoryStorage::new();
    instantiate(&mut deps, "creator", InstantiateMsg { count: 1 }).unwrap();
    let info = cw2::get_contract_version(&deps).unwrap();
    assert_eq!(info.contract, "crates.io:cwtemplate");
    assert_eq!(info.version, "0.1.0");
}

#[test]
fn undecodable_slot_surfaces_host_error() {
    let mut deps = MemoryStorage::new();
    // three bytes cannot hold a count
    deps.set(b"state", &[1, 2, 3]);
    assert_eq!(query_count(&deps).unwrap_err(), ContractError::Std);
    assert_eq!(try_increment(&mut deps).unwrap_err(), ContractError::Std);
}
