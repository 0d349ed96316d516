use cosmwasm_std::testing::MockApi;
use cosmwasm_std::MemoryStorage;
use cosmwasm_std::Storage;
use my_nameservice::contract::execute;
use my_nameservice::contract::execute_register;
use my_nameservice::contract::fresh_storage;
use my_nameservice::contract::instantiate;
use my_nameservice::contract::instantiate_reply;
use my_nameservice::contract::query;
use my_nameservice::contract::query_resolve_record;
use my_nameservice::error::ContractError;
use my_nameservice::gate::assert_owner;
use my_nameservice::msg::ExecuteMsg;
use my_nameservice::msg::InstantiateMsg;
use my_nameservice::msg::QueryMsg;
use my_nameservice::msg::ResolveRecordResponse;
use my_nameservice::response::Attribute;
use my_nameservice::response::Event;
use my_nameservice::response::MessageInfo;
use my_nameservice::response::Response;
use my_nameservice::state::has;
use my_nameservice::state::load;
use my_nameservice::state::NameRecord;

fn address(label: &str) -> String {
    MockApi::default().addr_make(label).to_string()
}

fn info(sender: &str) -> MessageInfo {
    MessageInfo {
        sender: sender.to_owned(),
    }
}

fn instantiate_nameservice(storage: &mut MemoryStorage) -> String {
    let minter = address("minter");
    instantiate(
        storage,
        &info(&address("deployer")),
        InstantiateMsg {
            minter: minter.clone(),
        },
    )
    .expect("Failed to instantiate nameservice");
    minter
}

fn register_event(name: &str, owner: &str) -> Event {
    Event {
        ty: "name-register".to_owned(),
        attributes: vec![
            Attribute {
                key: "name".to_owned(),
                value: name.to_owned(),
            },
            Attribute {
                key: "owner".to_owned(),
                value: owner.to_owned(),
            },
        ],
    }
}

#[test]
fn test_instantiate() {
    // Arrange
    let mut storage = MemoryStorage::new();
    let mocked_msg_info = info(&address("addr"));
    let minter = address("minter");
    let instantiate_msg = InstantiateMsg {
        minter: minter.clone(),
    };

    // Act
    let contract_result = instantiate(&mut storage, &mocked_msg_info, instantiate_msg);

    // Assert
    assert!(contract_result.is_ok(), "Failed to instantiate");
    assert_eq!(
        contract_result.unwrap(),
        Response {
            attributes: vec![],
            events: vec![],
            data: None,
        }
    );
    assert!(assert_owner(&storage, &minter).is_ok());
}

#[test]
fn test_execute() {
    // Arrange
    let mut storage = MemoryStorage::new();
    let minter = instantiate_nameservice(&mut storage);
    let mocked_msg_info = info(&minter);
    let name = "alice".to_owned();
    let owner = address("owner");
    let execute_msg = ExecuteMsg::Register {
        name: name.clone(),
        owner: owner.clone(),
    };

    // Act
    let contract_result = execute(&mut storage, &mocked_msg_info, execute_msg);

    // Assert
    assert!(contract_result.is_ok(), "Failed to register alice");
    let received_response = contract_result.unwrap();
    let expected_response = Response {
        attributes: vec![],
        events: vec![register_event("alice", &owner)],
        data: None,
    };
    assert_eq!(received_response, expected_response);
    assert!(has(&storage, name.as_bytes()));
    let stored = load(&storage, name.as_bytes());
    assert!(stored.is_ok());
    assert_eq!(stored.unwrap(), NameRecord { owner });
}

#[test]
fn contract_test_query() {
    // Arrange
    let mut storage = MemoryStorage::new();
    let name = "alice".to_owned();
    let mocked_addr_value = address("addr");
    let minter = instantiate_nameservice(&mut storage);
    let execute_msg = ExecuteMsg::Register {
        name: name.clone(),
        owner: mocked_addr_value.clone(),
    };
    let _ = execute(&mut storage, &info(&minter), execute_msg).expect("Failed to register alice");
    let query_msg = QueryMsg::ResolveRecord { name };

    // Act
    let query_result = query(&storage, query_msg);

    // Assert
    assert!(query_result.is_ok(), "Failed to query alice name");
    assert_eq!(
        query_result.unwrap(),
        ResolveRecordResponse {
            address: Some(mocked_addr_value),
        }
    );
}

#[test]
fn test_register() {
    // Arrange
    let mut storage = MemoryStorage::new();
    let minter = instantiate_nameservice(&mut storage);
    let owner_addr_value = address("owner");
    let name_alice = "alice".to_owned();
    let register_msg = ExecuteMsg::Register {
        name: name_alice.clone(),
        owner: owner_addr_value.clone(),
    };

    // Act
    let result = execute(&mut storage, &info(&minter), register_msg);

    // Assert
    assert!(result.is_ok(), "Failed to register alice");
    let received_response = result.unwrap();
    assert_eq!(
        received_response.events,
        vec![register_event("alice", &owner_addr_value)]
    );
    assert_eq!(received_response.data, None);
    // Storage local to the service
    let stored_addr_bytes = storage
        .get(format!("\0\u{d}name_resolver{name_alice}").as_bytes())
        .expect("Failed to load from name alice");
    let stored_addr = String::from_utf8(stored_addr_bytes).unwrap();
    assert_eq!(stored_addr, format!(r#""{owner_addr_value}""#));
}

#[test]
fn test_query() {
    // Arrange
    let mut storage = MemoryStorage::new();
    let minter = instantiate_nameservice(&mut storage);
    let owner_addr = address("owner");
    let name_alice = "alice".to_owned();
    let register_msg = ExecuteMsg::Register {
        name: name_alice.clone(),
        owner: owner_addr.clone(),
    };
    let _ = execute(&mut storage, &info(&minter), register_msg).expect("Failed to register alice");
    let resolve_record_query_msg = QueryMsg::ResolveRecord {
        name: name_alice.clone(),
    };

    // Act
    let result = query(&storage, resolve_record_query_msg);

    // Assert
    assert!(result.is_ok(), "Failed to query alice name");
    assert_eq!(
        result.unwrap(),
        ResolveRecordResponse {
            address: Some(owner_addr),
        }
    )
}

#[test]
fn test_query_empty() {
    // Arrange
    let mut storage = MemoryStorage::new();
    let _ = instantiate_nameservice(&mut storage);
    let name_alice = "alice".to_owned();
    let resolve_record_query_msg = QueryMsg::ResolveRecord {
        name: name_alice.clone(),
    };

    // Act
    let result = query(&storage, resolve_record_query_msg);

    // Assert
    assert!(result.is_ok(), "There was an unexpected error");
    assert_eq!(result.unwrap(), ResolveRecordResponse { address: None });
}

#[test]
fn scenario_minter_registers_and_name_resolves() {
    let mut storage = MemoryStorage::new();
    let minter = instantiate_nameservice(&mut storage);
    let reply = execute_register(&mut storage, &info(&minter), "alice".to_owned(), "O".to_owned());
    assert_eq!(
        reply,
        Ok(Response {
            attributes: vec![],
            events: vec![register_event("alice", "O")],
            data: None,
        })
    );
    assert_eq!(
        query_resolve_record(&storage, "alice".to_owned()),
        Ok(ResolveRecordResponse {
            address: Some("O".to_owned()),
        })
    );
}

#[test]
fn scenario_second_register_is_name_taken() {
    let mut storage = MemoryStorage::new();
    let minter = instantiate_nameservice(&mut storage);
    execute_register(&mut storage, &info(&minter), "alice".to_owned(), "O".to_owned()).unwrap();
    let reply = execute_register(&mut storage, &info(&minter), "alice".to_owned(), "X".to_owned());
    assert_eq!(
        reply,
        Err(ContractError::NameTaken {
            name: "alice".to_owned(),
        })
    );
    assert_eq!(
        query_resolve_record(&storage, "alice".to_owned()),
        Ok(ResolveRecordResponse {
            address: Some("O".to_owned()),
        })
    );
}

#[test]
fn scenario_stranger_is_not_owner() {
    let mut storage = MemoryStorage::new();
    let _ = instantiate_nameservice(&mut storage);
    let reply = execute_register(&mut storage, &info("E"), "bob".to_owned(), "O".to_owned());
    assert_eq!(
        reply,
        Err(ContractError::NotOwner {
            caller: "E".to_owned(),
        })
    );
    assert_eq!(
        query_resolve_record(&storage, "bob".to_owned()),
        Ok(ResolveRecordResponse { address: None })
    );
    assert!(!has(&storage, b"bob"));
}

#[test]
fn fresh_storage_holds_nothing() {
    let storage = fresh_storage();
    assert_eq!(format!("{storage:?}"), format!("{:?}", MemoryStorage::new()));
    assert!(!has(&storage, b"alice"));
    assert!(assert_owner(&storage, &address("minter")).is_err());
}

#[test]
fn scenario_fresh_service_resolves_nobody_to_none() {
    let storage = fresh_storage();
    assert_eq!(
        query_resolve_record(&storage, "nobody".to_owned()),
        Ok(ResolveRecordResponse { address: None })
    );
}

#[test]
fn stranger_is_refused_before_the_name_is_looked_at() {
    let mut storage = MemoryStorage::new();
    let minter = instantiate_nameservice(&mut storage);
    execute_register(&mut storage, &info(&minter), "alice".to_owned(), "O".to_owned()).unwrap();
    let stranger = address("stranger");
    let reply = execute_register(&mut storage, &info(&stranger), "alice".to_owned(), "X".to_owned());
    assert_eq!(reply, Err(ContractError::NotOwner { caller: stranger }));
    assert_eq!(
        load(&storage, b"alice"),
        Ok(NameRecord {
            owner: "O".to_owned(),
        })
    );
}

#[test]
fn register_without_a_gate_is_refused() {
    let mut storage = MemoryStorage::new();
    let caller = address("minter");
    let reply = execute_register(&mut storage, &info(&caller), "alice".to_owned(), "O".to_owned());
    assert_eq!(reply, Err(ContractError::NotOwner { caller }));
    assert!(!has(&storage, b"alice"));
}

#[test]
fn refused_register_leaves_the_storage_as_it_was() {
    let mut storage = MemoryStorage::new();
    let minter = instantiate_nameservice(&mut storage);
    execute_register(&mut storage, &info(&minter), "alice".to_owned(), "O".to_owned()).unwrap();
    let before = format!("{storage:?}");
    execute_register(&mut storage, &info(&minter), "alice".to_owned(), "X".to_owned()).unwrap_err();
    assert_eq!(format!("{storage:?}"), before);
    execute_register(&mut storage, &info("E"), "carol".to_owned(), "X".to_owned()).unwrap_err();
    assert_eq!(format!("{storage:?}"), before);
}

#[test]
fn first_writer_wins_after_other_calls() {
    let mut storage = MemoryStorage::new();
    let minter = instantiate_nameservice(&mut storage);
    execute_register(&mut storage, &info(&minter), "alice".to_owned(), "O".to_owned()).unwrap();
    execute_register(&mut storage, &info(&minter), "bob".to_owned(), "P".to_owned()).unwrap();
    query_resolve_record(&storage, "bob".to_owned()).unwrap();
    execute_register(&mut storage, &info("E"), "carol".to_owned(), "Q".to_owned()).unwrap_err();
    let reply = execute_register(&mut storage, &info(&minter), "alice".to_owned(), "X".to_owned());
    assert_eq!(
        reply,
        Err(ContractError::NameTaken {
            name: "alice".to_owned(),
        })
    );
    assert_eq!(
        query_resolve_record(&storage, "alice".to_owned()),
        Ok(ResolveRecordResponse {
            address: Some("O".to_owned()),
        })
    );
}

#[test]
fn names_are_told_apart_byte_by_byte() {
    let mut storage = MemoryStorage::new();
    let minter = instantiate_nameservice(&mut storage);
    execute_register(&mut storage, &info(&minter), "alice".to_owned(), "O".to_owned()).unwrap();
    execute_register(&mut storage, &info(&minter), "Alice".to_owned(), "P".to_owned()).unwrap();
    execute_register(&mut storage, &info(&minter), "".to_owned(), "Q".to_owned()).unwrap();
    execute_register(&mut storage, &info(&minter), "äli\u{0}ce \"x\"".to_owned(), "R".to_owned())
        .unwrap();
    assert_eq!(
        query_resolve_record(&storage, "Alice".to_owned()).unwrap().address,
        Some("P".to_owned())
    );
    assert_eq!(
        query_resolve_record(&storage, "".to_owned()).unwrap().address,
        Some("Q".to_owned())
    );
    assert_eq!(
        query_resolve_record(&storage, "äli\u{0}ce \"x\"".to_owned()).unwrap().address,
        Some("R".to_owned())
    );
    assert_eq!(query_resolve_record(&storage, "alic".to_owned()).unwrap().address, None);
}

#[test]
fn owner_text_survives_the_storage_whatever_it_holds() {
    let mut storage = MemoryStorage::new();
    let minter = instantiate_nameservice(&mut storage);
    let owner = "quote \" backslash \\ tab \t newline \n bell \u{7} snowman \u{2603} end".to_owned();
    execute_register(&mut storage, &info(&minter), "odd".to_owned(), owner.clone()).unwrap();
    assert_eq!(
        query_resolve_record(&storage, "odd".to_owned()).unwrap().address,
        Some(owner)
    );
    execute_register(&mut storage, &info(&minter), "empty".to_owned(), String::new()).unwrap();
    assert_eq!(
        query_resolve_record(&storage, "empty".to_owned()).unwrap().address,
        Some(String::new())
    );
}

#[test]
fn instantiate_with_an_invalid_minter_fails_and_writes_nothing() {
    let mut storage = MemoryStorage::new();
    let reply = instantiate(
        &mut storage,
        &info("deployer"),
        InstantiateMsg {
            minter: "minter".to_owned(),
        },
    );
    assert!(matches!(reply, Err(ContractError::Std(_))));
    assert_eq!(format!("{storage:?}"), format!("{:?}", MemoryStorage::new()));
    assert!(assert_owner(&storage, "minter").is_err());
}

#[test]
fn instantiate_keeps_the_names() {
    let mut storage = MemoryStorage::new();
    let minter = instantiate_nameservice(&mut storage);
    execute_register(&mut storage, &info(&minter), "alice".to_owned(), "O".to_owned()).unwrap();
    let other = address("other");
    instantiate(
        &mut storage,
        &info(&minter),
        InstantiateMsg {
            minter: other.clone(),
        },
    )
    .unwrap();
    assert_eq!(
        query_resolve_record(&storage, "alice".to_owned()).unwrap().address,
        Some("O".to_owned())
    );
    assert!(assert_owner(&storage, &other).is_ok());
}

#[test]
fn instantiate_reply_passes_the_outcome_on() {
    assert_eq!(
        instantiate_reply(Ok(())),
        Ok(Response {
            attributes: vec![],
            events: vec![],
            data: None,
        })
    );
    assert_eq!(
        instantiate_reply(Err(cosmwasm_std::StdError::generic_err("no"))),
        Err(ContractError::Std(cosmwasm_std::StdError::generic_err("no")))
    );
}

#[test]
fn unreadable_record_fails_the_query_and_nothing_else() {
    let mut storage = MemoryStorage::new();
    let minter = instantiate_nameservice(&mut storage);
    storage.set(b"\0\x0dname_resolverbroken", b"{not a text}");
    assert!(matches!(
        query_resolve_record(&storage, "broken".to_owned()),
        Err(ContractError::Std(_))
    ));
    assert_eq!(
        execute_register(&mut storage, &info(&minter), "broken".to_owned(), "O".to_owned()),
        Err(ContractError::NameTaken {
            name: "broken".to_owned(),
        })
    );
    assert_eq!(
        query_resolve_record(&storage, "fine".to_owned()),
        Ok(ResolveRecordResponse { address: None })
    );
}
