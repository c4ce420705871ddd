use stovbot::database::Database;
use stovbot::models::{Action, Command, EditType, TimespecDef, Variable, VariableValue};
use stovbot::store::VariableStore;

fn text(name: &str, value: &str) -> Variable {
    Variable::new(name.to_string(), VariableValue::Text(value.to_string()))
}

fn at(sec: i64) -> TimespecDef {
    TimespecDef { sec, nsec: 5 }
}

#[test]
fn set_then_get_gives_the_value_back() {
    let mut store = VariableStore::new();
    store.set_variable(&text("v", "a"));
    let found = store.get_variable("v").unwrap();
    assert_eq!(found.value, VariableValue::Text("a".to_string()));
    assert_eq!(found.name, "v");
    assert!(store.get_variable("w").is_none());
    assert!(store.get_variable("").is_none());
}

#[test]
fn first_set_stamps_creation_and_modification() {
    let mut store = VariableStore::new();
    store.set_variable_at(&text("v", "a"), at(10));
    let found = store.get_variable("v").unwrap();
    assert_eq!(found.time_created, at(10));
    assert_eq!(found.time_modified, at(10));
    assert_eq!(found.id, 1);
}

#[test]
fn later_set_stamps_modification_only() {
    let mut store = VariableStore::new();
    store.set_variable_at(&text("v", "a"), at(10));
    store.set_variable_at(&text("w", "b"), at(11));
    store.set_variable_at(&text("v", "c"), at(12));
    let found = store.get_variable("v").unwrap();
    assert_eq!(found.value, VariableValue::Text("c".to_string()));
    assert_eq!(found.time_created, at(10));
    assert_eq!(found.time_modified, at(12));
    assert_eq!(found.id, 1);
    let other = store.get_variable("w").unwrap();
    assert_eq!(other.id, 2);
    assert_eq!(other.time_modified, at(11));
    assert_eq!(store.get_variables().len(), 2);
}

#[test]
fn set_stamps_with_the_current_time() {
    let mut store = VariableStore::new();
    store.set_variable(&text("v", "a"));
    let found = store.get_variable("v").unwrap();
    assert!(found.time_created.sec > 1_500_000_000);
    assert_eq!(found.time_created, found.time_modified);
}

#[test]
fn delete_removes_the_name() {
    let mut store = VariableStore::new();
    store.set_variable_at(&text("v", "a"), at(1));
    store.set_variable_at(&text("w", "b"), at(1));
    assert!(store.delete_variable(&text("v", "whatever")));
    assert!(store.get_variable("v").is_none());
    assert!(store.get_variable("w").is_some());
    assert!(!store.delete_variable(&text("v", "")));
    store.set_variable_at(&text("v", "again"), at(2));
    assert_eq!(store.get_variable("v").unwrap().id, 3);
}

#[test]
fn actions_on_variables_are_written() {
    let mut store = VariableStore::new();
    store.write_at(&Action::AddVariable(text("v", "a")), at(1));
    assert_eq!(store.get_variable("v").unwrap().value, VariableValue::Text("a".to_string()));
    store.write_at(&Action::EditVariable(text("v", "b"), EditType::Append()), at(2));
    assert_eq!(store.get_variable("v").unwrap().value, VariableValue::Text("b".to_string()));
    store.write_at(&Action::AddCommand(Command::new("!v".to_string(), "x".to_string())), at(3));
    assert_eq!(store.get_variables().len(), 1);
    store.write(&Action::DeleteVariable(text("v", "")));
    assert!(store.get_variables().is_empty());
}

#[test]
fn new_variable_has_no_id_and_no_time() {
    let v = text("v", "a");
    assert_eq!(v.id, 0);
    assert_eq!(v.time_created.nsec, 0);
    assert_eq!(v.time_modified, v.time_created);
    assert!(v.time_created.sec < 0);
    let c = Command::new("!c".to_string(), "r".to_string());
    assert_eq!(c.time_created, v.time_created);
}

#[test]
fn place_of_the_store_is_chosen() {
    assert_eq!(Database::default_path(), "./db.db3");
    assert_eq!(Database::memory_path(), "MEMORY");
    let both = Database::connect(Some("a".to_string()), Some("b".to_string()));
    assert_eq!(both.path, "a");
    let env = Database::connect(None, Some("b".to_string()));
    assert_eq!(env.path, "b");
    let neither = Database::connect(None, None);
    assert_eq!(neither.path, "./db.db3");
    assert!(!neither.in_memory());
    assert!(Database::connect(Some("MEMORY".to_string()), None).in_memory());
}

#[test]
fn default_commands_are_five() {
    let all = Command::default_commands();
    let triggers: Vec<&str> = all.iter().map(|c| c.trigger.as_str()).collect();
    assert_eq!(triggers, vec!["!8ball", "!quote", "!quote add", "!quote remove", "!waifu"]);
    assert!(all[0].response.starts_with("🎱 {{let responses = [\"All signs point to yes...\""));
    assert!(all[0].response.ends_with("responses[floor(random() * len(responses))]}}"));
    assert_eq!(all[2].response, "!variable edit quotes+ [$text]");
    assert_eq!(all[3].response, "!variable edit quotes-# {{int(\"$text\") - 1}}");
    assert_eq!(all[4].response, "{{\"@$user \" + upload_image(waifu())}}");
    let aliases: Vec<bool> = all.iter().map(|c| c.is_alias).collect();
    assert_eq!(aliases, vec![false, false, true, true, false]);
    assert!(all.iter().all(|c| c.actor.is_none() && c.database_path == "./db.db3"));
}
