use qmulo_chat::built_in_registry;
use qmulo_chat::create_collection_outcome;
use qmulo_chat::collection_name;
use qmulo_chat::description_text;
use qmulo_chat::indexing_plan;
use qmulo_chat::query_text;
use qmulo_chat::resolve;
use qmulo_chat::route_query;
use qmulo_chat::Command;
use qmulo_chat::CommandRegistry;
use qmulo_chat::CreateOutcome;
use qmulo_chat::HandlerKind;
use qmulo_chat::RouterError;
use qmulo_chat::StartupError;
use qmulo_chat::EMBEDDING_DIM;

#[test]
fn empty_registry_fails_cleanly_before_any_query() {
    let reg = CommandRegistry::new();
    let r = route_query(&reg, &String::from("do something"));
    assert_eq!(r, Err(RouterError::EmptyRegistry));
}

#[test]
fn nonempty_registry_frames_the_query() {
    let reg = built_in_registry();
    let r = route_query(&reg, &String::from("try that again"));
    assert_eq!(r, Ok(String::from("query: try that again")));
}

#[test]
fn built_in_registry_holds_the_three_commands_in_order() {
    let reg = built_in_registry();
    assert_eq!(reg.len(), 3);
    assert_eq!(reg.entry_at(0).id, "hint");
    assert_eq!(reg.entry_at(0).handler, HandlerKind::Hint);
    assert_eq!(reg.entry_at(1).id, "retry");
    assert_eq!(reg.entry_at(1).handler, HandlerKind::Retry);
    assert_eq!(reg.entry_at(2).id, "system");
    assert_eq!(reg.entry_at(2).handler, HandlerKind::SetSystem);
}

#[test]
fn every_registered_id_resolves_to_its_own_command() {
    let reg = built_in_registry();
    let mut i = 0;
    while i < reg.len() {
        let id = reg.entry_at(i).id.clone();
        let description = reg.entry_at(i).description.clone();
        match resolve(&reg, Some(&id)) {
            Ok(c) => {
                assert_eq!(c.id, id);
                assert_eq!(c.description, description);
            }
            Err(_) => panic!("registered id failed to resolve: {}", id),
        }
        i += 1;
    }
}

#[test]
fn unknown_or_missing_payload_id_is_command_not_found() {
    let reg = built_in_registry();
    assert!(matches!(
        resolve(&reg, Some(&String::from("reboot"))),
        Err(RouterError::CommandNotFound)
    ));
    assert!(matches!(resolve(&reg, None), Err(RouterError::CommandNotFound)));
}

#[test]
fn description_and_query_framings_are_asymmetric() {
    let cmd = Command {
        id: String::from("retry"),
        description: String::from("try the last response again"),
        handler: HandlerKind::Retry,
    };
    assert_eq!(description_text(&cmd), "retry: try the last response again");
    assert_eq!(query_text(&String::from("redo it")), "query: redo it");
}

#[test]
fn indexing_plan_pairs_each_text_with_its_own_payload() {
    let reg = built_in_registry();
    let plan = indexing_plan(&reg);
    assert_eq!(plan.len(), 3);
    for (i, entry) in plan.iter().enumerate() {
        assert_eq!(entry.point_id, i as u64 + 1);
        assert_eq!(entry.payload_id, reg.entry_at(i).id.clone());
        assert_eq!(entry.payload_description, reg.entry_at(i).description.clone());
        let mut expected = reg.entry_at(i).id.clone();
        expected.push_str(": ");
        expected.push_str(reg.entry_at(i).description.as_str());
        assert_eq!(entry.text, expected);
    }
    assert_eq!(plan[0].text, "hint: add a message in the system role, further clarifying how the assistant should behave, or providing a suggestion for future responses.");
}

#[test]
fn initialization_twice_succeeds_with_the_same_plan() {
    // First run: the collection is newly created; second run: it already
    // exists and is populated. Neither is fatal, and the re-upserted batch
    // carries the same numeric ids and texts.
    assert_eq!(create_collection_outcome(CreateOutcome::Created), Ok(()));
    assert_eq!(create_collection_outcome(CreateOutcome::AlreadyExists), Ok(()));
    let reg = built_in_registry();
    let first = indexing_plan(&reg);
    let second = indexing_plan(&reg);
    assert_eq!(first.len(), second.len());
    for (a, b) in first.iter().zip(second.iter()) {
        assert_eq!(a.point_id, b.point_id);
        assert_eq!(a.text, b.text);
        assert_eq!(a.payload_id, b.payload_id);
        assert_eq!(a.payload_description, b.payload_description);
    }
}

#[test]
fn any_other_creation_failure_is_fatal() {
    assert_eq!(
        create_collection_outcome(CreateOutcome::Failed),
        Err(StartupError::CollectionCreation)
    );
}

#[test]
fn collection_parameters() {
    assert_eq!(collection_name(), "commands");
    assert_eq!(EMBEDDING_DIM, 1024);
}
