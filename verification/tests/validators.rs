use stovbot::models::{
    Action, ActionError, Actor, Command, EditType, Message, Validator, VariableValue,
};
use stovbot::special_command::{
    add_command, add_variable, commands, delete_command, delete_variable, edit_command,
    edit_variable, parse_command_message, parse_variable_index, parse_variable_message,
};

fn special(trigger: &str) -> Command {
    commands()
        .into_iter()
        .find(|c| c.trigger == trigger)
        .unwrap()
}

fn ask(trigger: &str, text: &str) -> Result<Action, ActionError> {
    let command = special(trigger);
    let actor = command.actor.unwrap();
    actor.validate(&command, &Message::new(text.to_string()))
}

fn variable_parts(text: &str) -> Result<(String, VariableValue, EditType), ActionError> {
    let command = special("!variable edit");
    parse_variable_message(&command, &Message::new(text.to_string()))
}

fn list_values(value: &VariableValue) -> Vec<String> {
    match value {
        VariableValue::StringList(items) => items.iter().map(|i| i.value.clone()).collect(),
        VariableValue::Text(_) => panic!("a list was expected"),
    }
}

#[test]
fn built_in_commands_are_six_with_their_validators() {
    let all = commands();
    let triggers: Vec<&str> = all.iter().map(|c| c.trigger.as_str()).collect();
    assert_eq!(
        triggers,
        vec![
            "!command add",
            "!command edit",
            "!command delete",
            "!variable add",
            "!variable edit",
            "!variable delete",
        ]
    );
    assert_eq!(all[0].actor, Some(Actor(Validator::AddCommand)));
    assert_eq!(all[5].actor, Some(Actor(Validator::DeleteVariable)));
    assert_eq!(all[1].response, "Your command has been edited");
    assert!(all.iter().all(|c| !c.is_alias && c.id == 0));
}

#[test]
fn add_command_names_trigger_and_response() {
    match ask("!command add", "!command add !x hello there world") {
        Ok(Action::AddCommand(c)) => {
            assert_eq!(c.trigger, "!x");
            assert_eq!(c.response, "hello there world");
            assert!(c.actor.is_none());
            assert!(!c.is_alias);
            assert_eq!(c.database_path, "./db.db3");
        }
        other => panic!("unexpected {:?}", other),
    }
}

#[test]
fn edit_command_names_trigger_and_response() {
    match ask("!command edit", "!command edit !x  two") {
        Ok(Action::EditCommand(c)) => {
            assert_eq!(c.trigger, "!x");
            assert_eq!(c.response, " two");
        }
        other => panic!("unexpected {:?}", other),
    }
}

#[test]
fn command_without_response_is_bad() {
    match ask("!command add", "!command add !x") {
        Err(ActionError::BadCommand(detail)) => assert_eq!(detail, "!x"),
        other => panic!("unexpected {:?}", other),
    }
    match ask("!command add", "!command add") {
        Err(ActionError::BadCommand(detail)) => assert_eq!(detail, ""),
        other => panic!("unexpected {:?}", other),
    }
}

#[test]
fn command_trigger_must_start_with_a_bang() {
    assert!(matches!(
        ask("!command add", "!command add x hello"),
        Err(ActionError::BadCommandTriggerPrefix)
    ));
    assert!(matches!(
        ask("!command edit", "!command edit x hello"),
        Err(ActionError::BadCommandTriggerPrefix)
    ));
    assert!(matches!(
        ask("!command delete", "!command delete x"),
        Err(ActionError::BadCommandTriggerPrefix)
    ));
    assert!(matches!(
        ask("!command delete", "!command delete"),
        Err(ActionError::BadCommandTriggerPrefix)
    ));
}

#[test]
fn delete_command_takes_the_first_word() {
    match ask("!command delete", "!command delete !x and more") {
        Ok(Action::DeleteCommand(c)) => {
            assert_eq!(c.trigger, "!x");
            assert_eq!(c.response, "");
        }
        other => panic!("unexpected {:?}", other),
    }
}

#[test]
fn parse_command_message_splits_at_the_first_space() {
    let command = special("!command add");
    let parsed = parse_command_message(&command, &Message::new("!command add !a b c".to_string()));
    assert_eq!(parsed.unwrap(), ("!a".to_string(), "b c".to_string()));
}

#[test]
fn free_validators_agree_with_the_actor() {
    let command = special("!command add");
    let message = Message::new("!command add !x y".to_string());
    assert!(matches!(add_command(&command, &message), Ok(Action::AddCommand(_))));
    assert!(matches!(edit_command(&command, &message), Ok(Action::EditCommand(_))));
    assert!(matches!(delete_command(&command, &message), Ok(Action::DeleteCommand(_))));
    let command = special("!variable add");
    let message = Message::new("!variable add n v".to_string());
    assert!(matches!(add_variable(&command, &message), Ok(Action::AddVariable(_))));
    assert!(matches!(
        edit_variable(&command, &message),
        Ok(Action::EditVariable(_, EditType::Overwrite()))
    ));
    assert!(matches!(delete_variable(&command, &message), Ok(Action::DeleteVariable(_))));
}

#[test]
fn variable_name_alone_is_an_empty_text() {
    let (name, value, edit) = variable_parts("!variable edit counter").unwrap();
    assert_eq!(name, "counter");
    assert_eq!(value, VariableValue::Text("".to_string()));
    assert_eq!(edit, EditType::Overwrite());
    let (name, _, edit) = variable_parts("!variable edit counter+").unwrap();
    assert_eq!(name, "counter+");
    assert_eq!(edit, EditType::Overwrite());
}

#[test]
fn variable_value_is_text_or_list() {
    let (name, value, edit) = variable_parts("!variable edit n some text").unwrap();
    assert_eq!(name, "n");
    assert_eq!(value, VariableValue::Text("some text".to_string()));
    assert_eq!(edit, EditType::Overwrite());
    let (_, value, _) = variable_parts("!variable edit n []").unwrap();
    assert_eq!(list_values(&value), Vec::<String>::new());
    let (_, value, _) = variable_parts("!variable edit n [a b, c]").unwrap();
    assert_eq!(list_values(&value), vec!["a b, c".to_string()]);
    let (_, value, _) = variable_parts("!variable edit n [").unwrap();
    assert_eq!(value, VariableValue::Text("[".to_string()));
    let (_, value, _) = variable_parts("!variable edit n [x").unwrap();
    assert_eq!(value, VariableValue::Text("[x".to_string()));
}

#[test]
fn suffix_selects_the_edit() {
    let (name, value, edit) = variable_parts("!variable edit quotes+ [hi]").unwrap();
    assert_eq!(name, "quotes");
    assert_eq!(list_values(&value), vec!["hi".to_string()]);
    assert_eq!(edit, EditType::Append());
    let (name, value, edit) = variable_parts("!variable edit t- ab").unwrap();
    assert_eq!(name, "t");
    assert_eq!(value, VariableValue::Text("ab".to_string()));
    assert_eq!(edit, EditType::Remove());
    let (name, value, edit) = variable_parts("!variable edit t+# 3 x y").unwrap();
    assert_eq!(name, "t");
    assert_eq!(value, VariableValue::Text("x y".to_string()));
    assert_eq!(edit, EditType::InsertAt(3));
    let (name, value, edit) = variable_parts("!variable edit t-# 2 ignored").unwrap();
    assert_eq!(name, "t");
    assert_eq!(value, VariableValue::Text("".to_string()));
    assert_eq!(edit, EditType::RemoveAt(2));
    let (name, _, edit) = variable_parts("!variable edit t-# +7").unwrap();
    assert_eq!(name, "t");
    assert_eq!(edit, EditType::RemoveAt(7));
}

#[test]
fn index_edits_need_an_index() {
    assert!(matches!(
        variable_parts("!variable edit t+# x y"),
        Err(ActionError::VariableBadEditIndex)
    ));
    assert!(matches!(
        variable_parts("!variable edit t-# -1"),
        Err(ActionError::VariableBadEditIndex)
    ));
    assert!(matches!(
        variable_parts("!variable edit t-# "),
        Err(ActionError::VariableBadEditIndex)
    ));
    assert!(matches!(
        variable_parts("!variable edit t-# 99999999999999999999999999"),
        Err(ActionError::VariableBadEditIndex)
    ));
}

#[test]
fn insert_needs_a_value() {
    assert!(matches!(
        variable_parts("!variable edit t+# 3"),
        Err(ActionError::VariableBadEditIndexValue)
    ));
}

#[test]
fn add_and_delete_take_no_edit_suffix() {
    assert!(matches!(
        ask("!variable add", "!variable add n+ v"),
        Err(ActionError::VariableEditTypeNotSupported)
    ));
    assert!(matches!(
        ask("!variable delete", "!variable delete n-# 1"),
        Err(ActionError::VariableEditTypeNotSupported)
    ));
    match ask("!variable add", "!variable add n v w") {
        Ok(Action::AddVariable(v)) => {
            assert_eq!(v.name, "n");
            assert_eq!(v.value, VariableValue::Text("v w".to_string()));
            assert_eq!(v.id, 0);
        }
        other => panic!("unexpected {:?}", other),
    }
    match ask("!variable delete", "!variable delete n") {
        Ok(Action::DeleteVariable(v)) => assert_eq!(v.name, "n"),
        other => panic!("unexpected {:?}", other),
    }
}

#[test]
fn edit_variable_carries_the_edit() {
    match ask("!variable edit", "!variable edit quotes+# 0 [first]") {
        Ok(Action::EditVariable(v, edit)) => {
            assert_eq!(v.name, "quotes");
            assert_eq!(list_values(&v.value), vec!["first".to_string()]);
            assert_eq!(edit, EditType::InsertAt(0));
        }
        other => panic!("unexpected {:?}", other),
    }
}

#[test]
fn parse_variable_index_reads_the_second_word() {
    assert_eq!(
        parse_variable_index(vec!["n+#", "12"]).unwrap(),
        (12, None)
    );
    assert_eq!(
        parse_variable_index(vec!["n+#", "0", "a", "b", "c"]).unwrap(),
        (0, Some("a b c".to_string()))
    );
    assert_eq!(
        parse_variable_index(vec!["n+#", "007", "a"]).unwrap(),
        (7, Some("a".to_string()))
    );
    assert!(matches!(
        parse_variable_index(vec!["n+#", "1x"]),
        Err(ActionError::VariableBadEditIndex)
    ));
    assert!(matches!(
        parse_variable_index(vec!["n+#", "+"]),
        Err(ActionError::VariableBadEditIndex)
    ));
}

#[test]
fn new_list_items_are_stamped_with_the_time() {
    let (_, value, _) = variable_parts("!variable edit n [x]").unwrap();
    match value {
        VariableValue::StringList(items) => {
            assert!(items[0].time_created.sec > 1_500_000_000);
            assert!(items[0].time_created.nsec >= 0 && items[0].time_created.nsec < 1_000_000_000);
        }
        VariableValue::Text(_) => panic!("a list was expected"),
    }
}
