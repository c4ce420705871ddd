//! What the script engine does on its own account: the builtin functions
//! that scripts call, as far as they work on integers, texts and variables,
//! and what the sandbox process tells its parent at its end.

use crate::models::{StringItem, Variable, VariableValue, VariableValueView};
use crate::number::{integer_chars, integer_text, parse_i64, parse_i64_spec};
use crate::script_runner::{CRASH_EXIT_CODE, TIMEOUT_EXIT_CODE};
use crate::text::{from_chars, strings_view, to_chars};
use rand::Rng;
use vstd::prelude::*;

verus! {

pub const ERROR_PREFIX: &'static str = "Script Error: ";

pub const NOT_A_NUMBER: &'static str = "Could not parse string as number";

pub const VARIABLE: &'static str = "Variable ";

pub const IS_A_LIST: &'static str = " is StringList, not Text. Use get_list()!";

pub const IS_A_TEXT: &'static str = " is Text, not StringList. Use get()!";

pub const DOES_NOT_EXIST: &'static str = " does not exist!";

pub const TRUE_TEXT: &'static str = "true";

pub const FALSE_TEXT: &'static str = "false";

/// How an evaluation in the sandbox process ended.
#[derive(Debug)]
pub enum Evaluation {
    /// The script gave this text, a result or the report of an error.
    Finished(String),
    /// The script was still running when its time was up.
    TimedOut,
    /// The evaluation went away without a word.
    Disconnected,
}

/// The exit code that tells the parent how the evaluation ended.
pub open spec fn exit_code_of(evaluation: Evaluation) -> i32 {
    match evaluation {
        Evaluation::Finished(_) => 0,
        Evaluation::TimedOut => TIMEOUT_EXIT_CODE,
        Evaluation::Disconnected => CRASH_EXIT_CODE,
    }
}

impl Evaluation {
    /// The exit code that tells the parent how the evaluation ended.
    pub fn exit_code(&self) -> (r: i32)
        ensures
            r == exit_code_of(*self),
    {
        match self {
            Evaluation::Finished(_) => 0,
            Evaluation::TimedOut => TIMEOUT_EXIT_CODE,
            Evaluation::Disconnected => CRASH_EXIT_CODE,
        }
    }
}

/// The report of an error inside a script, with its cause.
pub fn script_error(cause: &str) -> (r: String)
    ensures
        r@ == ERROR_PREFIX@ + cause@,
{
    let mut r = ERROR_PREFIX.to_string();
    r.append(cause);
    r
}

/// `rand::Rng::gen_range` on `rand::thread_rng()`, from zero: a number
/// below `upper`. Which one is left open.
#[verifier::external_body]
fn pick_below(upper: usize) -> (r: usize)
    requires
        upper > 0,
    ensures
        r < upper,
{
    rand::thread_rng().gen_range(0, upper)
}

/// The integer that `text` writes, or zero where it writes none.
pub open spec fn int_of(text: Seq<char>) -> i64 {
    match parse_i64_spec(text) {
        Some(n) => n,
        None => 0,
    }
}

/// What `get` finds.
pub open spec fn text_found(name: Seq<char>, stored: Option<Variable>) -> Result<
    Seq<char>,
    Seq<char>,
> {
    match stored {
        None => Err(VARIABLE@ + name + DOES_NOT_EXIST@),
        Some(variable) => match variable.value {
            VariableValue::Text(text) => Ok(text@),
            VariableValue::StringList(_) => Err(VARIABLE@ + name + IS_A_LIST@),
        },
    }
}

/// What `get_list` finds.
pub open spec fn list_found(name: Seq<char>, stored: Option<Variable>) -> Result<
    Seq<Seq<char>>,
    Seq<char>,
> {
    match stored {
        None => Err(VARIABLE@ + name + DOES_NOT_EXIST@),
        Some(variable) => match variable.value {
            VariableValue::Text(_) => Err(VARIABLE@ + name + IS_A_TEXT@),
            VariableValue::StringList(items) => Ok(items@.map_values(|i: StringItem| i.value@)),
        },
    }
}

/// The message that tells what is wrong with the variable `name`.
fn complaint(name: &str, what: &str) -> (r: String)
    ensures
        r@ == VARIABLE@ + name@ + what@,
{
    let mut r = VARIABLE.to_string();
    r.append(name);
    r.append(what);
    r
}

/// The builtin functions of the script language.
pub struct ScriptFunction {}

impl ScriptFunction {
    /// `string(x)` for an integer: its decimal text.
    pub fn string(x: i64) -> (r: String)
        ensures
            r@ == integer_text(x as int),
    {
        from_chars(&integer_chars(x))
    }

    /// `string(x)` for a truth value.
    pub fn string_of_bool(x: bool) -> (r: String)
        ensures
            r@ == if x {
                TRUE_TEXT@
            } else {
                FALSE_TEXT@
            },
    {
        if x {
            TRUE_TEXT.to_string()
        } else {
            FALSE_TEXT.to_string()
        }
    }

    /// `int(x)`: the integer that the text writes, or zero.
    pub fn integer(x: String) -> (r: i64)
        ensures
            r == int_of(x@),
    {
        match parse_i64(&to_chars(x.as_str())) {
            Some(i) => i,
            None => 0,
        }
    }

    /// `random_index(list)`: an index into a list of `len` items.
    pub fn random_index(len: usize) -> (r: i64)
        requires
            0 < len <= i64::MAX,
        ensures
            0 <= r < len,
    {
        pick_below(len) as i64
    }

    /// A text plus an integer: the text is read as an integer and the two
    /// are added. A text that writes no integer is an error, and so is a
    /// sum that no `i64` holds.
    pub fn add_string_number(x: String, y: i64) -> (r: Result<i64, String>)
        ensures
            match parse_i64_spec(x@) {
                Some(n) => if i64::MIN <= n + y <= i64::MAX {
                    r == Ok::<i64, String>((n + y) as i64)
                } else {
                    r is Err && r->Err_0@ == NOT_A_NUMBER@
                },
                None => r is Err && r->Err_0@ == NOT_A_NUMBER@,
            },
    {
        match parse_i64(&to_chars(x.as_str())) {
            Some(n) => match n.checked_add(y) {
                Some(sum) => Ok(sum),
                None => Err(NOT_A_NUMBER.to_string()),
            },
            None => Err(NOT_A_NUMBER.to_string()),
        }
    }

    /// `get(name)`: the text of the variable, given what the store holds
    /// under the name. A list, or nothing, is an error.
    pub fn get(name: &str, stored: &Option<Variable>) -> (r: Result<String, String>)
        ensures
            match text_found(name@, *stored) {
                Ok(text) => r is Ok && r->Ok_0@ == text,
                Err(message) => r is Err && r->Err_0@ == message,
            },
    {
        match stored {
            None => Err(complaint(name, DOES_NOT_EXIST)),
            Some(variable) => match &variable.value {
                VariableValue::Text(text) => Ok(text.clone()),
                VariableValue::StringList(_) => Err(complaint(name, IS_A_LIST)),
            },
        }
    }

    /// `set(name, value)`: the variable to store, a text.
    pub fn set(name: String, value: String) -> (r: Variable)
        ensures
            r@.name == name@,
            r@.value == VariableValueView::Text(value@),
            r@.id == 0,
    {
        Variable::new(name, VariableValue::Text(value))
    }

    /// `get_list(name)`: the values of the items of the variable, given
    /// what the store holds under the name. A text, or nothing, is an error.
    pub fn get_list(name: &str, stored: &Option<Variable>) -> (r: Result<Vec<String>, String>)
        ensures
            match list_found(name@, *stored) {
                Ok(values) => r is Ok && strings_view(r->Ok_0@) == values,
                Err(message) => r is Err && r->Err_0@ == message,
            },
    {
        match stored {
            None => Err(complaint(name, DOES_NOT_EXIST)),
            Some(variable) => match &variable.value {
                VariableValue::Text(_) => Err(complaint(name, IS_A_TEXT)),
                VariableValue::StringList(items) => {
                    let mut results: Vec<String> = Vec::new();
                    let mut i: usize = 0;
                    while i < items.len()
                        invariant
                            i <= items.len(),
                            results.len() == i,
                            forall|j: int| 0 <= j < i ==> results@[j]@ == items@[j].value@,
                        decreases items.len() - i,
                    {
                        results.push(items[i].value.clone());
                        i = i + 1;
                    }
                    assert(strings_view(results@) =~= items@.map_values(
                        |i: StringItem| i.value@,
                    ));
                    Ok(results)
                },
            },
        }
    }
}

} // verus!
