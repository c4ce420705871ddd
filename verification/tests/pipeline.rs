use stovbot::bot::{Bot, BotEvent, Reply, Request, Stage};
use stovbot::command::Commands;
use stovbot::models::{
    Action, ActionError, Command, EditType, Message, Source, StringItem, User, Variable,
    VariableValue,
};
use stovbot::store::VariableStore;

struct Outcome {
    response: Option<String>,
    event: Option<BotEvent>,
    scripts: Vec<String>,
    writes: usize,
}

fn run(bot: &mut Bot, store: &mut VariableStore, text: &str) -> Outcome {
    run_as(bot, store, "foo", text)
}

fn run_as(bot: &mut Bot, store: &mut VariableStore, user: &str, text: &str) -> Outcome {
    let message = Message {
        sender: User {
            username: user.to_string(),
        },
        text: text.to_string(),
        source: Source::Admin,
    };
    let mut scripts_seen = Vec::new();
    let mut writes = 0;
    let (mut stage, mut request) = bot.respond(&message);
    loop {
        let reply = match request {
            Request::Done(response, event) => {
                assert!(matches!(stage, Stage::Finished));
                return Outcome {
                    response: response.map(|m| m.text),
                    event,
                    scripts: scripts_seen,
                    writes,
                };
            }
            Request::Lookup(name) => Reply::Variable(store.get_variable(&name)),
            Request::RunScripts(scripts, _) => {
                let results = scripts.iter().map(|s| format!("<{}>", s)).collect();
                scripts_seen.extend(scripts);
                Reply::Scripts(results)
            }
            Request::Persist(action) => {
                store.write(&action);
                writes += 1;
                Reply::Persisted
            }
        };
        let next = bot.resume(stage, reply);
        stage = next.0;
        request = next.1;
    }
}

fn fresh() -> (Bot, VariableStore) {
    let (bot, _) = Bot::new(Vec::new(), Vec::new());
    (bot, VariableStore::new())
}

fn list_values(value: &VariableValue) -> Vec<String> {
    match value {
        VariableValue::StringList(items) => items.iter().map(|i| i.value.clone()).collect(),
        VariableValue::Text(_) => panic!("a list was expected"),
    }
}

#[test]
fn startup_registers_defaults_built_ins_and_stored_commands() {
    let stored = vec![
        Command::new("!mine".to_string(), "one".to_string()),
        Command::new("!mine".to_string(), "two".to_string()),
    ];
    let variables = vec![Variable::new(
        "v".to_string(),
        VariableValue::Text("x".to_string()),
    )];
    let (bot, events) = Bot::new(stored, variables);
    assert_eq!(bot.username, "StovBot");
    let all = bot.commands.iter();
    assert_eq!(all.len(), 12);
    for trigger in [
        "!8ball",
        "!quote",
        "!quote add",
        "!quote remove",
        "!waifu",
        "!command add",
        "!command edit",
        "!command delete",
        "!variable add",
        "!variable edit",
        "!variable delete",
        "!mine",
    ] {
        assert_eq!(all.iter().filter(|c| c.trigger == trigger).count(), 1);
    }
    let mine = all.iter().find(|c| c.trigger == "!mine").unwrap();
    assert_eq!(mine.response, "two");
    assert_eq!(events.len(), 9);
    assert!(matches!(&events[0], BotEvent::LoadCommand(c) if c.trigger == "!command add"));
    assert!(matches!(&events[6], BotEvent::LoadCommand(c) if c.response == "one"));
    assert!(matches!(&events[7], BotEvent::LoadCommand(c) if c.response == "two"));
    assert!(matches!(&events[8], BotEvent::LoadVariable(v) if v.name == "v"));
}

#[test]
fn longest_trigger_wins() {
    let (bot, _) = Bot::new(
        vec![Command::new("!command".to_string(), "short".to_string())],
        Vec::new(),
    );
    let found = bot
        .get_triggered_command(&"!command add !x hi".to_string())
        .unwrap();
    assert_eq!(found.trigger, "!command add");
    let found = bot
        .get_triggered_command(&"!command list".to_string())
        .unwrap();
    assert_eq!(found.trigger, "!command");
    let found = bot.get_triggered_command(&"!command".to_string()).unwrap();
    assert_eq!(found.trigger, "!command");
    assert!(bot
        .get_triggered_command(&"!commands".to_string())
        .is_none());
    assert!(bot.get_triggered_command(&"".to_string()).is_none());
}

#[test]
fn registry_resolves_the_longest_of_several() {
    let registry = Commands::new(vec![
        Command::new("!a".to_string(), "1".to_string()),
        Command::new("!a b c".to_string(), "3".to_string()),
        Command::new("!a b".to_string(), "2".to_string()),
    ]);
    assert_eq!(registry.resolve("!a b c d").unwrap().response, "3");
    assert_eq!(registry.resolve("!a b cd").unwrap().response, "2");
    assert_eq!(registry.resolve("!a bc").unwrap().response, "1");
    assert!(registry.resolve("!ab").is_none());
}

#[test]
fn registry_keeps_one_command_for_each_trigger() {
    let mut registry = Commands::new(Vec::new());
    let first = Command::new("!x".to_string(), "1".to_string());
    let second = Command::new("!x".to_string(), "2".to_string());
    assert!(!registry.contains(&first));
    registry.update_command(&first);
    assert!(registry.contains(&second));
    registry.update_command(&second);
    let all = registry.iter();
    assert_eq!(all.len(), 1);
    assert_eq!(all[0].response, "2");
    registry.delete_command(&first);
    assert!(!registry.contains(&first));
    assert!(registry.iter().is_empty());
    registry.delete_command(&first);
    assert!(registry.iter().is_empty());
}

#[test]
fn own_messages_and_unknown_triggers_are_passed_over() {
    let (mut bot, mut store) = fresh();
    let out = run_as(&mut bot, &mut store, "StovBot", "!8ball");
    assert!(out.response.is_none() && out.event.is_none());
    let out = run(&mut bot, &mut store, "hello there");
    assert!(out.response.is_none() && out.event.is_none());
    assert!(out.scripts.is_empty());
}

#[test]
fn plain_command_is_rendered_without_running_anything() {
    let (mut bot, _) = Bot::new(
        vec![Command::new("!hi".to_string(), "Hi $1 from $user".to_string())],
        Vec::new(),
    );
    let mut store = VariableStore::new();
    let out = run(&mut bot, &mut store, "!hi you");
    assert_eq!(out.response.unwrap(), "Hi you from foo");
    assert!(out.scripts.is_empty());
    assert!(out.event.is_none());
    assert_eq!(out.writes, 0);
}

#[test]
fn scripts_are_handed_out_in_order_with_their_place() {
    let mut command = Command::new("!s".to_string(), "{{a $1}}-{{b}}".to_string());
    let command = command.with_database_path("elsewhere".to_string()).build();
    let (bot, _) = Bot::new(vec![command], Vec::new());
    let (stage, request) = bot.respond(&Message::new("!s x".to_string()));
    assert!(matches!(stage, Stage::Rendering(_, _, None)));
    match request {
        Request::RunScripts(scripts, path) => {
            assert_eq!(scripts, vec!["a x".to_string(), "b".to_string()]);
            assert_eq!(path, "elsewhere");
        }
        other => panic!("unexpected {:?}", other),
    }
}

#[test]
fn added_command_answers_afterwards() {
    let (mut bot, mut store) = fresh();
    let out = run(&mut bot, &mut store, "!command add !x hello $1");
    assert_eq!(out.response.unwrap(), "Your command has been added");
    assert_eq!(out.writes, 1);
    match out.event {
        Some(BotEvent::AddCommand(c, user)) => {
            assert_eq!(c.trigger, "!x");
            assert_eq!(c.response, "hello $1");
            assert_eq!(user.username, "foo");
        }
        other => panic!("unexpected {:?}", other),
    }
    let out = run(&mut bot, &mut store, "!x world");
    assert_eq!(out.response.unwrap(), "hello world");
}

#[test]
fn command_cannot_be_added_twice() {
    let (mut bot, mut store) = fresh();
    run(&mut bot, &mut store, "!command add !x one");
    let out = run(&mut bot, &mut store, "!command add !x two");
    assert_eq!(out.response.unwrap(), "CommandAlreadyExists");
    assert!(out.event.is_none());
    assert_eq!(out.writes, 0);
    let out = run(&mut bot, &mut store, "!command add !8ball two");
    assert_eq!(out.response.unwrap(), "CommandAlreadyExists");
    assert_eq!(run(&mut bot, &mut store, "!x").response.unwrap(), "one");
}

#[test]
fn command_is_edited_and_deleted() {
    let (mut bot, mut store) = fresh();
    run(&mut bot, &mut store, "!command add !x one");
    let out = run_as(&mut bot, &mut store, "bar", "!command edit !x two");
    assert_eq!(out.response.unwrap(), "Your command has been edited");
    assert!(matches!(out.event, Some(BotEvent::EditCommand(c, u)) if c.response == "two" && u.username == "bar"));
    assert_eq!(run(&mut bot, &mut store, "!x").response.unwrap(), "two");
    let out = run(&mut bot, &mut store, "!command delete !x");
    assert_eq!(out.response.unwrap(), "Your command has been deleted");
    assert!(matches!(out.event, Some(BotEvent::DeleteCommand(c, _)) if c.trigger == "!x"));
    assert!(run(&mut bot, &mut store, "!x").response.is_none());
}

#[test]
fn unknown_command_cannot_be_edited_or_deleted() {
    let (mut bot, mut store) = fresh();
    let out = run(&mut bot, &mut store, "!command edit !nope x");
    assert_eq!(out.response.unwrap(), "CommandDoesNotExist");
    let out = run(&mut bot, &mut store, "!command delete !nope");
    assert_eq!(out.response.unwrap(), "CommandDoesNotExist");
    assert_eq!(out.writes, 0);
}

#[test]
fn built_in_commands_are_protected() {
    let (mut bot, mut store) = fresh();
    for trigger in ["!8ball", "!quote", "!waifu"] {
        let out = run(&mut bot, &mut store, &format!("!command edit {} x", trigger));
        assert_eq!(out.response.unwrap(), "CannotModifyBuiltInCommand");
        assert!(out.event.is_none());
        let out = run(&mut bot, &mut store, &format!("!command delete {}", trigger));
        assert_eq!(out.response.unwrap(), "CannotDeleteBuiltInCommand");
        assert_eq!(out.writes, 0);
    }
    assert_eq!(bot.commands.iter().len(), 11);
}

#[test]
fn built_in_triggers_are_protected_registered_or_not() {
    let bot = Bot {
        username: "StovBot".to_string(),
        commands: Commands::new(Vec::new()),
    };
    for trigger in [
        "!8ball",
        "!quote",
        "!quote add",
        "!quote remove",
        "!waifu",
        "!command add",
        "!command edit",
        "!command delete",
        "!variable add",
        "!variable edit",
        "!variable delete",
    ] {
        let command = Command::new(trigger.to_string(), "".to_string());
        assert!(bot.is_builtin_command(&command));
        assert!(matches!(
            bot.check_action(&Action::EditCommand(command.clone()), &None),
            Some(ActionError::CannotModifyBuiltInCommand)
        ));
        assert!(matches!(
            bot.check_action(&Action::DeleteCommand(command), &None),
            Some(ActionError::CannotDeleteBuiltInCommand)
        ));
    }
    let other = Command::new("!8balls".to_string(), "".to_string());
    assert!(!bot.is_builtin_command(&other));
    assert!(matches!(
        bot.check_action(&Action::EditCommand(other), &None),
        Some(ActionError::CommandDoesNotExist)
    ));
}

#[test]
fn bad_requests_are_answered_with_their_reason() {
    let (mut bot, mut store) = fresh();
    let out = run(&mut bot, &mut store, "!command add !x");
    assert_eq!(out.response.unwrap(), "BadCommand(\"!x\")");
    let out = run(&mut bot, &mut store, "!command add a\"b");
    assert_eq!(out.response.unwrap(), "BadCommand(\"a\\\"b\")");
    let out = run(&mut bot, &mut store, "!command add x y");
    assert_eq!(out.response.unwrap(), "BadCommandTriggerPrefix");
    let out = run(&mut bot, &mut store, "!variable edit v+# x y");
    assert_eq!(out.response.unwrap(), "VariableBadEditIndex");
    let out = run(&mut bot, &mut store, "!variable edit v+# 1");
    assert_eq!(out.response.unwrap(), "VariableBadEditIndexValue");
    let out = run(&mut bot, &mut store, "!variable add v+ y");
    assert_eq!(out.response.unwrap(), "VariableEditTypeNotSupported");
}

#[test]
fn every_reason_has_its_text() {
    let all = [
        (ActionError::CommandAlreadyExists, "CommandAlreadyExists"),
        (ActionError::CommandDoesNotExist, "CommandDoesNotExist"),
        (ActionError::CannotDeleteBuiltInCommand, "CannotDeleteBuiltInCommand"),
        (ActionError::CannotModifyBuiltInCommand, "CannotModifyBuiltInCommand"),
        (ActionError::BadCommand("x y".to_string()), "BadCommand(\"x y\")"),
        (ActionError::BadCommandTriggerPrefix, "BadCommandTriggerPrefix"),
        (ActionError::BadCommandAlias, "BadCommandAlias"),
        (ActionError::VariableAlreadyExists, "VariableAlreadyExists"),
        (ActionError::VariableDoesNotExist, "VariableDoesNotExist"),
        (ActionError::VariableEditTypeNotSupported, "VariableEditTypeNotSupported"),
        (ActionError::VariableWrongType, "VariableWrongType"),
        (ActionError::VariableBadEditIndex, "VariableBadEditIndex"),
        (ActionError::VariableBadEditIndexValue, "VariableBadEditIndexValue"),
        (ActionError::PermissionDenied, "PermissionDenied"),
        (ActionError::NotificationChannelNotFound, "NotificationChannelNotFound"),
    ];
    for (error, text) in all {
        assert_eq!(error.describe(), text);
        assert_eq!(error.describe(), format!("{:?}", error));
    }
}

#[test]
fn variable_is_added_once() {
    let (mut bot, mut store) = fresh();
    let out = run(&mut bot, &mut store, "!variable add greeting hello there");
    assert_eq!(out.response.unwrap(), "Your variable has been added");
    assert!(matches!(out.event, Some(BotEvent::AddVariable(v, u)) if v.name == "greeting" && u.username == "foo"));
    let stored = store.get_variable("greeting").unwrap();
    assert_eq!(stored.value, VariableValue::Text("hello there".to_string()));
    let out = run(&mut bot, &mut store, "!variable add greeting again");
    assert_eq!(out.response.unwrap(), "VariableAlreadyExists");
    assert_eq!(out.writes, 0);
    let stored = store.get_variable("greeting").unwrap();
    assert_eq!(stored.value, VariableValue::Text("hello there".to_string()));
}

#[test]
fn missing_variable_cannot_be_edited_or_deleted() {
    let (mut bot, mut store) = fresh();
    for text in [
        "!variable edit nope x",
        "!variable edit nope+ x",
        "!variable edit nope-# 0",
        "!variable delete nope",
    ] {
        let out = run(&mut bot, &mut store, text);
        assert_eq!(out.response.unwrap(), "VariableDoesNotExist");
        assert_eq!(out.writes, 0);
        assert!(out.event.is_none());
    }
}

#[test]
fn text_variable_is_edited_in_every_way() {
    let (mut bot, mut store) = fresh();
    run(&mut bot, &mut store, "!variable add t abc");
    let out = run(&mut bot, &mut store, "!variable edit t+ def");
    assert_eq!(out.response.unwrap(), "Your variable has been edited");
    assert!(matches!(out.event, Some(BotEvent::EditVariable(v, _)) if v.value == VariableValue::Text("abcdef".to_string())));
    run(&mut bot, &mut store, "!variable edit t- cd");
    assert_eq!(store.get_variable("t").unwrap().value, VariableValue::Text("abef".to_string()));
    run(&mut bot, &mut store, "!variable edit t+# 1 XY");
    assert_eq!(store.get_variable("t").unwrap().value, VariableValue::Text("aXYbef".to_string()));
    run(&mut bot, &mut store, "!variable edit t+# 100 Z");
    assert_eq!(store.get_variable("t").unwrap().value, VariableValue::Text("aXYbefZ".to_string()));
    run(&mut bot, &mut store, "!variable edit t-# 0");
    assert_eq!(store.get_variable("t").unwrap().value, VariableValue::Text("XYbefZ".to_string()));
    run(&mut bot, &mut store, "!variable edit t-# 100");
    assert_eq!(store.get_variable("t").unwrap().value, VariableValue::Text("XYbef".to_string()));
    run(&mut bot, &mut store, "!variable edit t new");
    assert_eq!(store.get_variable("t").unwrap().value, VariableValue::Text("new".to_string()));
}

#[test]
fn list_variable_is_edited_in_every_way() {
    let (mut bot, mut store) = fresh();
    run(&mut bot, &mut store, "!variable add l []");
    run(&mut bot, &mut store, "!variable edit l+ [a]");
    run(&mut bot, &mut store, "!variable edit l+ [b]");
    run(&mut bot, &mut store, "!variable edit l+# 1 [x]");
    assert_eq!(list_values(&store.get_variable("l").unwrap().value), vec!["a", "x", "b"]);
    run(&mut bot, &mut store, "!variable edit l+# 9 [a]");
    assert_eq!(list_values(&store.get_variable("l").unwrap().value), vec!["a", "x", "b", "a"]);
    run(&mut bot, &mut store, "!variable edit l- [a]");
    assert_eq!(list_values(&store.get_variable("l").unwrap().value), vec!["x", "b"]);
    run(&mut bot, &mut store, "!variable edit l-# 5");
    assert_eq!(list_values(&store.get_variable("l").unwrap().value), vec!["x"]);
    run(&mut bot, &mut store, "!variable edit l [p q]");
    assert_eq!(list_values(&store.get_variable("l").unwrap().value), vec!["p q"]);
}

#[test]
fn edit_across_kinds_is_refused_before_any_write() {
    let (mut bot, mut store) = fresh();
    run(&mut bot, &mut store, "!variable add t abc");
    run(&mut bot, &mut store, "!variable add l [x]");
    for text in [
        "!variable edit t+ [x]",
        "!variable edit t [x]",
        "!variable edit t- [x]",
        "!variable edit t+# 0 [x]",
        "!variable edit l+ x",
        "!variable edit l x",
    ] {
        let out = run(&mut bot, &mut store, text);
        assert_eq!(out.response.unwrap(), "VariableWrongType");
        assert_eq!(out.writes, 0);
        assert!(out.event.is_none());
    }
    assert_eq!(store.get_variable("t").unwrap().value, VariableValue::Text("abc".to_string()));
    assert_eq!(list_values(&store.get_variable("l").unwrap().value), vec!["x"]);
}

#[test]
fn variable_is_deleted() {
    let (mut bot, mut store) = fresh();
    run(&mut bot, &mut store, "!variable add t abc");
    let out = run(&mut bot, &mut store, "!variable delete t");
    assert_eq!(out.response.unwrap(), "Your variable has been deleted");
    assert!(matches!(out.event, Some(BotEvent::DeleteVariable(v, _)) if v.name == "t"));
    assert!(store.get_variable("t").is_none());
}

#[test]
fn alias_is_resolved_again() {
    let (mut bot, mut store) = fresh();
    run(&mut bot, &mut store, "!variable add quotes []");
    let out = run_as(&mut bot, &mut store, "bar", "!quote add something wise");
    assert_eq!(out.response.unwrap(), "Your variable has been edited");
    assert!(matches!(out.event, Some(BotEvent::EditVariable(v, u)) if v.name == "quotes" && u.username == "bar"));
    assert_eq!(list_values(&store.get_variable("quotes").unwrap().value), vec!["$text"]);
}

#[test]
fn alias_runs_its_scripts_before_it_is_resolved() {
    let (mut bot, mut store) = fresh();
    run(&mut bot, &mut store, "!variable add quotes []");
    let out = run(&mut bot, &mut store, "!quote remove 3");
    assert_eq!(out.scripts, vec!["int(\"$text\") - 1".to_string()]);
    assert_eq!(out.response.unwrap(), "VariableBadEditIndex");
}

#[test]
fn alias_to_nothing_is_a_bad_alias() {
    let alias = Command::new_alias("!go".to_string(), "nowhere $1".to_string());
    let (mut bot, _) = Bot::new(vec![alias], Vec::new());
    let mut store = VariableStore::new();
    let out = run(&mut bot, &mut store, "!go fast");
    assert_eq!(out.response.unwrap(), "BadCommandAlias");
    assert!(out.event.is_none());
}

#[test]
fn alias_to_a_plain_command_gives_its_answer() {
    let alias = Command::new_alias("!go".to_string(), "!hi $1".to_string());
    let target = Command::new("!hi".to_string(), "Hi $1 from $user".to_string());
    let (mut bot, _) = Bot::new(vec![alias, target], Vec::new());
    let mut store = VariableStore::new();
    let out = run_as(&mut bot, &mut store, "bar", "!go you");
    assert_eq!(out.response.unwrap(), "Hi you from bar");
}

#[test]
fn answer_that_was_not_asked_for_ends_the_message() {
    let (mut bot, _) = fresh();
    let (stage, _) = bot.respond(&Message::new("!8ball".to_string()));
    let (stage, request) = bot.resume(stage, Reply::Persisted);
    assert!(matches!(stage, Stage::Finished));
    assert!(matches!(request, Request::Done(None, None)));
    let (_, request) = bot.resume(Stage::Finished, Reply::Scripts(Vec::new()));
    assert!(matches!(request, Request::Done(None, None)));
}

#[test]
fn edit_without_a_stored_value_writes_the_new_one() {
    let (mut bot, _) = fresh();
    let variable = Variable::new(
        "v".to_string(),
        VariableValue::StringList(vec![StringItem::new("a")]),
    );
    let stage = Stage::Editing(
        stovbot::bot::BotMessage {
            text: "done".to_string(),
        },
        variable,
        EditType::Append(),
        User {
            username: "foo".to_string(),
        },
    );
    let (stage, request) = bot.resume(stage, Reply::Variable(None));
    assert!(matches!(stage, Stage::Persisting(_, _, _)));
    match request {
        Request::Persist(Action::EditVariable(v, EditType::Append())) => {
            assert_eq!(list_values(&v.value), vec!["a"]);
        }
        other => panic!("unexpected {:?}", other),
    }
}
