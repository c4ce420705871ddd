use rand::Rng;
use rhai::{Array, Dynamic, Engine, EvalAltResult, ImmutableString};
use std::cell::RefCell;
use std::rc::Rc;
use std::time::{Duration, Instant};
use stovbot::bot::BotMessage;
use stovbot::command::CommandExt;
use stovbot::models::{Command, Message, StringItem, Variable, VariableValue};
use stovbot::script_engine::{script_error, ScriptFunction};
use stovbot::store::VariableStore;

type Store = Rc<RefCell<VariableStore>>;

fn fail(message: String) -> Box<EvalAltResult> {
    message.into()
}

fn engine(store: &Store) -> Engine {
    let mut engine = Engine::new();
    engine.set_fast_operators(false);
    let started = Instant::now();
    engine.on_progress(move |_| {
        if started.elapsed() > Duration::from_millis(1500) {
            Some(Dynamic::from("Timeout"))
        } else {
            None
        }
    });
    engine.register_fn("string", |x: i64| ScriptFunction::string(x));
    engine.register_fn("string", |x: bool| ScriptFunction::string_of_bool(x));
    engine.register_fn("string", |x: f64| format!("{}", x));
    engine.register_fn("random", || -> f64 { rand::thread_rng().gen_range(0.0, 1.0) });
    engine.register_fn("random_index", |x: Array| -> Result<i64, Box<EvalAltResult>> {
        if x.is_empty() {
            Err(fail("empty list".to_string()))
        } else {
            Ok(ScriptFunction::random_index(x.len()))
        }
    });
    engine.register_fn("floor", |x: f64| -> i64 { x.floor() as i64 });
    engine.register_fn("int", |x: ImmutableString| ScriptFunction::integer(x.to_string()));
    engine.register_fn("+", |x: ImmutableString, y: i64| {
        ScriptFunction::add_string_number(x.to_string(), y).map_err(fail)
    });
    engine.register_fn("+=", |x: &mut ImmutableString, y: i64| {
        let sum = ScriptFunction::add_string_number(x.to_string(), y).map_err(fail)?;
        *x = ScriptFunction::string(sum).into();
        Ok::<(), Box<EvalAltResult>>(())
    });
    let reader = store.clone();
    engine.register_fn("get", move |name: ImmutableString| {
        let stored = reader.borrow().get_variable(name.as_str());
        ScriptFunction::get(name.as_str(), &stored).map_err(fail)
    });
    let reader = store.clone();
    engine.register_fn("get_list", move |name: ImmutableString| {
        let stored = reader.borrow().get_variable(name.as_str());
        let values = ScriptFunction::get_list(name.as_str(), &stored).map_err(fail)?;
        Ok::<Array, Box<EvalAltResult>>(values.into_iter().map(Dynamic::from).collect())
    });
    let writer = store.clone();
    engine.register_fn("set", move |name: ImmutableString, value: ImmutableString| {
        let variable = ScriptFunction::set(name.to_string(), value.to_string());
        writer.borrow_mut().set_variable(&variable);
    });
    let writer = store.clone();
    engine.register_fn("set", move |name: ImmutableString, value: i64| {
        let variable = ScriptFunction::set(name.to_string(), ScriptFunction::string(value));
        writer.borrow_mut().set_variable(&variable);
    });
    engine
}

fn run_script(store: &Store, script: &str) -> String {
    match engine(store).eval::<Dynamic>(script) {
        Ok(result) => {
            if result.is_string() {
                result.into_string().unwrap()
            } else {
                result.to_string()
            }
        }
        Err(e) => match *e {
            EvalAltResult::ErrorTerminated(_, _) => script_error("Timeout"),
            other => script_error(&other.to_string()),
        },
    }
}

fn respond(command: &Command, message: &Message, store: &Store) -> Option<BotMessage> {
    let results: Vec<String> = command
        .scripts(message)
        .iter()
        .map(|script| run_script(store, script))
        .collect();
    command.respond(message, &results)
}

fn empty() -> Store {
    Rc::new(RefCell::new(VariableStore::new()))
}

#[test]
fn test_simple_script_command() {
    let command = Command::new(
        "!script".to_string(),
        "Hi $user - 2 + 2 is {{2 + 2}}!".to_string(),
    );
    assert_eq!(
        "Hi foo - 2 + 2 is 4!".to_string(),
        respond(&command, &Message::new("!script".to_string()), &empty())
            .unwrap()
            .text
    );
}

#[test]
fn test_complex_script_command() {
    let command = Command::new(
        "!script".to_string(),
        "Hi $user: {{\"message \" + string(2 + 2) + \" $user\"}}!".to_string(),
    );
    assert_eq!(
        "Hi foo: message 4 foo!".to_string(),
        respond(&command, &Message::new("!script".to_string()), &empty())
            .unwrap()
            .text
    );
}

#[test]
fn test_8ball() {
    let responses = [
        "All signs point to yes...",
        "Yes!",
        "My sources say nope.",
        "You may rely on it.",
        "Concentrate and ask again...",
        "Outlook not so good...",
        "It is decidedly so!",
        "Better not tell you.",
        "Very doubtful.",
        "Yes - Definitely!",
        "It is certain!",
        "Most likely.",
        "Ask again later.",
        "No!",
        "Outlook good.",
        "Don't count on it.",
    ];
    let command = Command::new(
        "!8ball".to_string(),
        "ðŸŽ± {{\
         let responses = [\"All signs point to yes...\", \"Yes!\", \"My sources say nope.\", \
         \"You may rely on it.\", \"Concentrate and ask again...\", \
         \"Outlook not so good...\", \"It is decidedly so!\", \
         \"Better not tell you.\", \"Very doubtful.\", \"Yes - Definitely!\", \
         \"It is certain!\", \"Most likely.\", \"Ask again later.\", \"No!\", \
         \"Outlook good.\", \
         \"Don't count on it.\"]; \
         responses[random_index(responses)]\
         }}"
        .to_string(),
    );
    for _ in 0..10 {
        let response = respond(&command, &Message::new("!8ball".to_string()), &empty())
            .unwrap()
            .text;
        println!("{}", response);
        let mut found = false;
        for accepted_response in responses.iter() {
            if response.ends_with(accepted_response) {
                found = true;
                break;
            }
        }
        assert!(found);
    }
}

#[test]
fn test_d6() {
    let command = Command::new(
        "!d6".to_string(),
        "{{let n = int(\"$1\"); if n == 0 { n = 1 } let i = 0; let d = 0; while i < n { i += 1; d += floor(random() * 6) + 1 } d}}".to_string(),
    );
    let response = respond(&command, &Message::new("!d6".to_string()), &empty())
        .unwrap()
        .text;
    let n: i64 = response.parse().unwrap();
    assert!(n >= 1 && n <= 6);
}

#[test]
fn test_counter() {
    let store = empty();
    store.borrow_mut().set_variable(&Variable::new(
        "count".to_string(),
        VariableValue::Text("0".to_string()),
    ));
    let command = Command::new(
        "!count".to_string(),
        "{{let count = get(\"count\"); count += 1; set(\"count\", count); count}}".to_string(),
    )
    .with_database_path("MEMORY".to_string())
    .build();
    let response = respond(&command, &Message::new("!count".to_string()), &store)
        .unwrap()
        .text;
    assert_eq!(response, "1");
    let response = respond(&command, &Message::new("!count".to_string()), &store)
        .unwrap()
        .text;
    assert_eq!(response, "2");
}

#[test]
fn test_quotes() {
    let store = empty();
    let responses = ["hello", "hi", "howdy"];
    store.borrow_mut().set_variable(&Variable::new(
        "quotes".to_string(),
        VariableValue::StringList(
            responses
                .iter()
                .map(|response| StringItem::new(response))
                .collect(),
        ),
    ));
    let command = Command::new(
        "!quote".to_string(),
        "{{let quotes = get_list(\"quotes\"); let i = int(\"$1\"); if i == 0 { i = random_index(quotes) } else { i -= 1 } quotes[i]}}".to_string(),
    ).with_database_path("MEMORY".to_string()).build();
    for _ in 0..10 {
        let response = respond(&command, &Message::new("!quote".to_string()), &store)
            .unwrap()
            .text;
        println!("{}", response);
        let mut found = false;
        for accepted_response in &responses {
            if response == **accepted_response {
                found = true;
                break;
            }
        }
        assert!(found);
    }
    for _ in 0..10 {
        let response = respond(&command, &Message::new("!quote 2".to_string()), &store)
            .unwrap()
            .text;
        assert_eq!(response, responses[1]);
    }
}

#[test]
fn script_failures_are_told_in_the_answer() {
    let store = empty();
    let command = Command::new("!get".to_string(), "{{get(\"$1\")}}".to_string());
    let response = respond(&command, &Message::new("!get nothing".to_string()), &store)
        .unwrap()
        .text;
    assert!(response.starts_with("Script Error: "));
    assert!(response.contains("Variable nothing does not exist!"));
    let command = Command::new("!add".to_string(), "{{\"$1\" + 1}}".to_string());
    let response = respond(&command, &Message::new("!add x".to_string()), &store)
        .unwrap()
        .text;
    assert!(response.contains("Could not parse string as number"));
    let response = respond(&command, &Message::new("!add 41".to_string()), &store)
        .unwrap()
        .text;
    assert_eq!(response, "42");
}

#[test]
fn unbounded_loop_is_told_as_a_timeout() {
    let command = Command::new("!loop".to_string(), "{{while true {} }}".to_string());
    let started = Instant::now();
    let response = respond(&command, &Message::new("!loop".to_string()), &empty())
        .unwrap()
        .text;
    assert!(response.contains("Timeout"));
    assert!(started.elapsed() < Duration::from_secs(5));
}
