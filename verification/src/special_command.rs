//! The built-in commands that change the registry and the variable store,
//! and their validators: each reads the arguments of a message and proposes
//! an action, or says why it cannot.

use crate::models::{
    fresh_command, is_default_trigger, text_after_trigger, Action, ActionError, ActionErrorView,
    Actor, Command, CommandView, EditType, Message, StringItem, Validator, Variable,
    VariableValue, VariableValueView, VariableView,
};
use crate::number::{parse_usize, parse_usize_spec};
use crate::text::{
    after_word, ends_with, ends_with_chars, from_chars, from_chars_range, has_space, head_word,
    occurs_at, split_word, starts_with, to_chars,
};
use vstd::prelude::*;

verus! {

pub const COMMAND_ADD_TRIGGER: &'static str = "!command add";

pub const COMMAND_ADD_RESPONSE: &'static str = "Your command has been added";

pub const COMMAND_EDIT_TRIGGER: &'static str = "!command edit";

pub const COMMAND_EDIT_RESPONSE: &'static str = "Your command has been edited";

pub const COMMAND_DELETE_TRIGGER: &'static str = "!command delete";

pub const COMMAND_DELETE_RESPONSE: &'static str = "Your command has been deleted";

pub const VARIABLE_ADD_TRIGGER: &'static str = "!variable add";

pub const VARIABLE_ADD_RESPONSE: &'static str = "Your variable has been added";

pub const VARIABLE_EDIT_TRIGGER: &'static str = "!variable edit";

pub const VARIABLE_EDIT_RESPONSE: &'static str = "Your variable has been edited";

pub const VARIABLE_DELETE_TRIGGER: &'static str = "!variable delete";

pub const VARIABLE_DELETE_RESPONSE: &'static str = "Your variable has been deleted";

/// `t` is the trigger of one of the built-in commands.
pub open spec fn is_special_trigger(t: Seq<char>) -> bool {
    ||| t == COMMAND_ADD_TRIGGER@
    ||| t == COMMAND_EDIT_TRIGGER@
    ||| t == COMMAND_DELETE_TRIGGER@
    ||| t == VARIABLE_ADD_TRIGGER@
    ||| t == VARIABLE_EDIT_TRIGGER@
    ||| t == VARIABLE_DELETE_TRIGGER@
}

/// `t` is the trigger of a built-in or a default command: one that no user
/// may edit or delete.
pub open spec fn is_builtin_trigger(t: Seq<char>) -> bool {
    is_default_trigger(t) || is_special_trigger(t)
}

/// `c` is the built-in command for `trigger` with the validator `validator`.
pub open spec fn special_command(
    c: CommandView,
    trigger: Seq<char>,
    response: Seq<char>,
    validator: Validator,
) -> bool {
    &&& c.actor == Some(Actor(validator))
    &&& fresh_command(CommandView { actor: None, ..c }, trigger, response, false)
}

/// `s` is the list of the built-in commands.
pub open spec fn is_special_list(s: Seq<Command>) -> bool {
    &&& s.len() == 6
    &&& special_command(
        s[0]@,
        COMMAND_ADD_TRIGGER@,
        COMMAND_ADD_RESPONSE@,
        Validator::AddCommand,
    )
    &&& special_command(
        s[1]@,
        COMMAND_EDIT_TRIGGER@,
        COMMAND_EDIT_RESPONSE@,
        Validator::EditCommand,
    )
    &&& special_command(
        s[2]@,
        COMMAND_DELETE_TRIGGER@,
        COMMAND_DELETE_RESPONSE@,
        Validator::DeleteCommand,
    )
    &&& special_command(
        s[3]@,
        VARIABLE_ADD_TRIGGER@,
        VARIABLE_ADD_RESPONSE@,
        Validator::AddVariable,
    )
    &&& special_command(
        s[4]@,
        VARIABLE_EDIT_TRIGGER@,
        VARIABLE_EDIT_RESPONSE@,
        Validator::EditVariable,
    )
    &&& special_command(
        s[5]@,
        VARIABLE_DELETE_TRIGGER@,
        VARIABLE_DELETE_RESPONSE@,
        Validator::DeleteVariable,
    )
}

/// The built-in commands.
pub fn commands() -> (r: Vec<Command>)
    ensures
        is_special_list(r@),
        forall|i: int| 0 <= i < 6 ==> is_special_trigger(#[trigger] r@[i]@.trigger),
{
    let mut r: Vec<Command> = Vec::new();
    r.push(
        Command::new(COMMAND_ADD_TRIGGER.to_string(), COMMAND_ADD_RESPONSE.to_string()).with_actor(
            Actor(Validator::AddCommand),
        ).build(),
    );
    r.push(
        Command::new(
            COMMAND_EDIT_TRIGGER.to_string(),
            COMMAND_EDIT_RESPONSE.to_string(),
        ).with_actor(Actor(Validator::EditCommand)).build(),
    );
    r.push(
        Command::new(
            COMMAND_DELETE_TRIGGER.to_string(),
            COMMAND_DELETE_RESPONSE.to_string(),
        ).with_actor(Actor(Validator::DeleteCommand)).build(),
    );
    r.push(
        Command::new(
            VARIABLE_ADD_TRIGGER.to_string(),
            VARIABLE_ADD_RESPONSE.to_string(),
        ).with_actor(Actor(Validator::AddVariable)).build(),
    );
    r.push(
        Command::new(
            VARIABLE_EDIT_TRIGGER.to_string(),
            VARIABLE_EDIT_RESPONSE.to_string(),
        ).with_actor(Actor(Validator::EditVariable)).build(),
    );
    r.push(
        Command::new(
            VARIABLE_DELETE_TRIGGER.to_string(),
            VARIABLE_DELETE_RESPONSE.to_string(),
        ).with_actor(Actor(Validator::DeleteVariable)).build(),
    );
    r
}

/// The trigger and the response that the arguments `args` name: the first
/// word, which begins with `!`, and what follows its space.
pub open spec fn command_request(args: Seq<char>) -> Result<
    (Seq<char>, Seq<char>),
    ActionErrorView,
> {
    if !has_space(args) {
        Err(ActionErrorView::BadCommand(args))
    } else if !starts_with(head_word(args), seq!['!']) {
        Err(ActionErrorView::BadCommandTriggerPrefix)
    } else {
        Ok((head_word(args), after_word(args)))
    }
}

/// The trigger that the arguments `args` name for deletion: their first
/// word, which begins with `!`.
pub open spec fn delete_request(args: Seq<char>) -> Result<Seq<char>, ActionErrorView> {
    if !starts_with(args, seq!['!']) {
        Err(ActionErrorView::BadCommandTriggerPrefix)
    } else {
        Ok(head_word(args))
    }
}

/// A value as a message writes it: a text, or the values of a list's items.
pub enum RequestedValue {
    Text(Seq<char>),
    StringList(Seq<Seq<char>>),
}

/// What a message asks of a variable.
pub struct VariableRequest {
    pub name: Seq<char>,
    pub value: RequestedValue,
    pub edit_type: EditType,
}

/// The value that `text` writes: `[]` is the empty list, `[x]` the list of
/// the one item `x`, anything else a text.
pub open spec fn requested_value(text: Seq<char>) -> RequestedValue {
    if starts_with(text, seq!['[']) && ends_with(text, seq![']']) {
        if text == seq!['[', ']'] {
            RequestedValue::StringList(Seq::empty())
        } else {
            RequestedValue::StringList(seq![text.subrange(1, text.len() - 1)])
        }
    } else {
        RequestedValue::Text(text)
    }
}

/// `s` without its last `n` characters.
pub open spec fn without_suffix(s: Seq<char>, n: int) -> Seq<char> {
    s.subrange(0, s.len() - n)
}

/// What the arguments `args` ask of a variable. The first word is the name;
/// `+`, `-`, `+#` or `-#` at its end selects the edit, and `#` takes the
/// next word as the index. What follows is the value.
pub open spec fn variable_request(args: Seq<char>) -> Result<VariableRequest, ActionErrorView> {
    if !has_space(args) {
        Ok(
            VariableRequest {
                name: args,
                value: RequestedValue::Text(Seq::empty()),
                edit_type: EditType::Overwrite(),
            },
        )
    } else {
        let name = head_word(args);
        let rest = after_word(args);
        if ends_with(name, seq!['+']) {
            Ok(
                VariableRequest {
                    name: without_suffix(name, 1),
                    value: requested_value(rest),
                    edit_type: EditType::Append(),
                },
            )
        } else if ends_with(name, seq!['-']) {
            Ok(
                VariableRequest {
                    name: without_suffix(name, 1),
                    value: requested_value(rest),
                    edit_type: EditType::Remove(),
                },
            )
        } else if ends_with(name, seq!['+', '#']) {
            match parse_usize_spec(head_word(rest)) {
                None => Err(ActionErrorView::VariableBadEditIndex),
                Some(index) => if !has_space(rest) {
                    Err(ActionErrorView::VariableBadEditIndexValue)
                } else {
                    Ok(
                        VariableRequest {
                            name: without_suffix(name, 2),
                            value: requested_value(after_word(rest)),
                            edit_type: EditType::InsertAt(index),
                        },
                    )
                },
            }
        } else if ends_with(name, seq!['-', '#']) {
            match parse_usize_spec(head_word(rest)) {
                None => Err(ActionErrorView::VariableBadEditIndex),
                Some(index) => Ok(
                    VariableRequest {
                        name: without_suffix(name, 2),
                        value: RequestedValue::Text(Seq::empty()),
                        edit_type: EditType::RemoveAt(index),
                    },
                ),
            }
        } else {
            Ok(
                VariableRequest {
                    name,
                    value: requested_value(rest),
                    edit_type: EditType::Overwrite(),
                },
            )
        }
    }
}

/// `value` is what `requested` writes; the items of a list are new.
pub open spec fn value_as_requested(value: VariableValueView, requested: RequestedValue) -> bool {
    match requested {
        RequestedValue::Text(t) => value == VariableValueView::Text(t),
        RequestedValue::StringList(items) => value is StringList && value->StringList_0.len()
            == items.len() && forall|i: int|
            0 <= i < items.len() ==> (#[trigger] value->StringList_0[i]).value == items[i],
    }
}

/// `v` is a variable that was never stored, named and valued as `request`
/// asks.
pub open spec fn variable_as_requested(v: VariableView, request: VariableRequest) -> bool {
    &&& v.id == 0
    &&& v.name == request.name
    &&& value_as_requested(v.value, request.value)
}

/// The index that the second word of a message's arguments writes, and the
/// value behind it, if there is one. `parts` are the words.
pub fn parse_variable_index(parts: Vec<&str>) -> (r: Result<(usize, Option<String>), ActionError>)
    requires
        parts.len() >= 2,
    ensures
        match parse_usize_spec(parts@[1]@) {
            None => r is Err && r->Err_0@ == ActionErrorView::VariableBadEditIndex,
            Some(index) => r is Ok && r->Ok_0.0 == index && (r->Ok_0.1 is Some == (parts.len()
                > 2)) && (parts.len() > 2 ==> r->Ok_0.1->0@ == joined_from(
                parts@.map_values(|p: &str| p@),
                2,
            )),
        },
{
    let digits = to_chars(parts[1]);
    match parse_usize(&digits) {
        Some(index) => {
            if parts.len() == 2 {
                Ok((index, None))
            } else {
                let ghost texts = parts@.map_values(|p: &str| p@);
                let mut value: Vec<char> = to_chars(parts[2]);
                let mut i: usize = 3;
                assert(value@ == joined_from(texts.subrange(0, 3), 2)) by {
                    let three = texts.subrange(0, 3);
                    assert(three.drop_last().len() == 2);
                    assert(three.last() == parts@[2]@);
                    reveal_with_fuel(joined_from, 2);
                }
                while i < parts.len()
                    invariant
                        3 <= i <= parts.len(),
                        texts == parts@.map_values(|p: &str| p@),
                        value@ == joined_from(texts.subrange(0, i as int), 2),
                    decreases parts.len() - i,
                {
                    value.push(' ');
                    let part = to_chars(parts[i]);
                    crate::text::append(&mut value, &part);
                    i = i + 1;
                    assert(texts.subrange(0, i as int).drop_last() =~= texts.subrange(0, i - 1));
                }
                assert(texts.subrange(0, i as int) =~= texts);
                Ok((index, Some(from_chars(&value))))
            }
        },
        None => Err(ActionError::VariableBadEditIndex),
    }
}

/// The words `parts[from..]` with one space between each two.
pub open spec fn joined_from(parts: Seq<Seq<char>>, from: int) -> Seq<char>
    decreases parts.len(),
{
    if parts.len() <= from || from < 0 {
        Seq::empty()
    } else if parts.len() == from + 1 {
        parts.last()
    } else {
        joined_from(parts.drop_last(), from).push(' ') + parts.last()
    }
}

/// The arguments of `message` for the command `command`.
pub open spec fn arguments(command: &Command, message: &Message) -> Seq<char> {
    text_after_trigger(message.text@, command.trigger@)
}

/// What a validator answers, as plain values.
pub open spec fn proposal_view(r: Result<Action, ActionError>) -> Result<
    crate::models::ActionView,
    ActionErrorView,
> {
    match r {
        Ok(a) => Ok(a@),
        Err(e) => Err(e@),
    }
}

/// Whether `r` is what the validator `validator` answers to the arguments
/// `args`. A command or a variable that it proposes is one that was never
/// stored.
pub open spec fn proposes(
    validator: Validator,
    args: Seq<char>,
    r: Result<crate::models::ActionView, ActionErrorView>,
) -> bool {
    match validator {
        Validator::AddCommand => match command_request(args) {
            Err(e) => r == Err::<crate::models::ActionView, ActionErrorView>(e),
            Ok(request) => r is Ok && r->Ok_0 is AddCommand && fresh_command(
                r->Ok_0->AddCommand_0,
                request.0,
                request.1,
                false,
            ),
        },
        Validator::EditCommand => match command_request(args) {
            Err(e) => r == Err::<crate::models::ActionView, ActionErrorView>(e),
            Ok(request) => r is Ok && r->Ok_0 is EditCommand && fresh_command(
                r->Ok_0->EditCommand_0,
                request.0,
                request.1,
                false,
            ),
        },
        Validator::DeleteCommand => match delete_request(args) {
            Err(e) => r == Err::<crate::models::ActionView, ActionErrorView>(e),
            Ok(trigger) => r is Ok && r->Ok_0 is DeleteCommand && fresh_command(
                r->Ok_0->DeleteCommand_0,
                trigger,
                Seq::empty(),
                false,
            ),
        },
        Validator::AddVariable => match variable_request(args) {
            Err(e) => r == Err::<crate::models::ActionView, ActionErrorView>(e),
            Ok(request) => if request.edit_type != EditType::Overwrite() {
                r == Err::<crate::models::ActionView, ActionErrorView>(
                    ActionErrorView::VariableEditTypeNotSupported,
                )
            } else {
                r is Ok && r->Ok_0 is AddVariable && variable_as_requested(
                    r->Ok_0->AddVariable_0,
                    request,
                )
            },
        },
        Validator::EditVariable => match variable_request(args) {
            Err(e) => r == Err::<crate::models::ActionView, ActionErrorView>(e),
            Ok(request) => r is Ok && r->Ok_0 is EditVariable && variable_as_requested(
                r->Ok_0->EditVariable_0,
                request,
            ) && r->Ok_0->EditVariable_1 == request.edit_type,
        },
        Validator::DeleteVariable => match variable_request(args) {
            Err(e) => r == Err::<crate::models::ActionView, ActionErrorView>(e),
            Ok(request) => if request.edit_type != EditType::Overwrite() {
                r == Err::<crate::models::ActionView, ActionErrorView>(
                    ActionErrorView::VariableEditTypeNotSupported,
                )
            } else {
                r is Ok && r->Ok_0 is DeleteVariable && variable_as_requested(
                    r->Ok_0->DeleteVariable_0,
                    request,
                )
            },
        },
    }
}

/// The trigger and the response that a message names.
pub fn parse_command_message(command: &Command, message: &Message) -> (r: Result<
    (String, String),
    ActionError,
>)
    ensures
        match command_request(arguments(command, message)) {
            Err(e) => r is Err && r->Err_0@ == e,
            Ok(request) => r is Ok && r->Ok_0.0@ == request.0 && r->Ok_0.1@ == request.1,
        },
{
    let args = to_chars(message.after_trigger(command.trigger.as_str()));
    let (trigger, rest) = split_word(&args);
    match rest {
        None => Err(ActionError::BadCommand(from_chars(&args))),
        Some(response) => {
            let bang: Vec<char> = vec!['!'];
            assert(bang@ =~= seq!['!']);
            if !occurs_at(&trigger, 0, &bang) {
                Err(ActionError::BadCommandTriggerPrefix)
            } else {
                Ok((from_chars(&trigger), from_chars(&response)))
            }
        },
    }
}

/// Proposes to register the command that the message names.
pub fn add_command(command: &Command, message: &Message) -> (r: Result<Action, ActionError>)
    ensures
        proposes(Validator::AddCommand, arguments(command, message), proposal_view(r)),
{
    match parse_command_message(command, message) {
        Ok((trigger, response)) => Ok(Action::AddCommand(Command::new(trigger, response))),
        Err(e) => Err(e),
    }
}

/// Proposes to give the command that the message names a new response.
pub fn edit_command(command: &Command, message: &Message) -> (r: Result<Action, ActionError>)
    ensures
        proposes(Validator::EditCommand, arguments(command, message), proposal_view(r)),
{
    match parse_command_message(command, message) {
        Ok((trigger, response)) => Ok(Action::EditCommand(Command::new(trigger, response))),
        Err(e) => Err(e),
    }
}

/// Proposes to delete the command that the message names.
pub fn delete_command(command: &Command, message: &Message) -> (r: Result<Action, ActionError>)
    ensures
        proposes(Validator::DeleteCommand, arguments(command, message), proposal_view(r)),
{
    let args = to_chars(message.after_trigger(command.trigger.as_str()));
    let bang: Vec<char> = vec!['!'];
    assert(bang@ =~= seq!['!']);
    if !occurs_at(&args, 0, &bang) {
        Err(ActionError::BadCommandTriggerPrefix)
    } else {
        let (trigger, _) = split_word(&args);
        Ok(Action::DeleteCommand(Command::new(from_chars(&trigger), String::new())))
    }
}

/// The value that the text `text` writes.
fn parse_value(text: &Vec<char>) -> (r: VariableValue)
    ensures
        value_as_requested(r@, requested_value(text@)),
{
    let open: Vec<char> = vec!['['];
    let close: Vec<char> = vec![']'];
    assert(open@ =~= seq!['[']);
    assert(close@ =~= seq![']']);
    if occurs_at(text, 0, &open) && ends_with_chars(text, &close) {
        assert(text.len() >= 2) by {
            if text.len() == 1 {
                assert(text@.subrange(0, 1)[0] == '[');
                assert(text@.subrange(0, 1)[0] == ']');
            }
        }
        if text.len() == 2 {
            assert(text@ =~= seq!['[', ']']) by {
                assert(text@.subrange(0, 1)[0] == '[');
                assert(text@.subrange(1, 2)[0] == ']');
            }
            VariableValue::StringList(Vec::new())
        } else {
            assert(text@ != seq!['[', ']']);
            let inner = from_chars_range(text, 1, text.len() - 1);
            let mut items: Vec<StringItem> = Vec::new();
            items.push(StringItem::new(inner.as_str()));
            VariableValue::StringList(items)
        }
    } else {
        VariableValue::Text(from_chars(text))
    }
}

/// The name, the value and the edit that a message asks for.
pub fn parse_variable_message(command: &Command, message: &Message) -> (r: Result<
    (String, VariableValue, EditType),
    ActionError,
>)
    ensures
        match variable_request(arguments(command, message)) {
            Err(e) => r is Err && r->Err_0@ == e,
            Ok(request) => r is Ok && r->Ok_0.0@ == request.name && value_as_requested(
                r->Ok_0.1@,
                request.value,
            ) && r->Ok_0.2 == request.edit_type,
        },
{
    let args = to_chars(message.after_trigger(command.trigger.as_str()));
    let (name, rest) = split_word(&args);
    let rest = match rest {
        None => {
            return Ok(
                (from_chars(&args), VariableValue::Text(String::new()), EditType::Overwrite()),
            );
        },
        Some(rest) => rest,
    };
    let plus: Vec<char> = vec!['+'];
    let minus: Vec<char> = vec!['-'];
    let plus_at: Vec<char> = vec!['+', '#'];
    let minus_at: Vec<char> = vec!['-', '#'];
    assert(plus@ =~= seq!['+']);
    assert(minus@ =~= seq!['-']);
    assert(plus_at@ =~= seq!['+', '#']);
    assert(minus_at@ =~= seq!['-', '#']);
    if ends_with_chars(&name, &plus) {
        let value = parse_value(&rest);
        Ok((from_chars_range(&name, 0, name.len() - 1), value, EditType::Append()))
    } else if ends_with_chars(&name, &minus) {
        let value = parse_value(&rest);
        Ok((from_chars_range(&name, 0, name.len() - 1), value, EditType::Remove()))
    } else if ends_with_chars(&name, &plus_at) {
        let (word, value) = split_word(&rest);
        let name_text = from_chars(&name);
        let word_text = from_chars(&word);
        let mut parts: Vec<&str> = Vec::new();
        parts.push(name_text.as_str());
        parts.push(word_text.as_str());
        match parse_variable_index(parts) {
            Err(e) => Err(e),
            Ok((index, _)) => match value {
                None => Err(ActionError::VariableBadEditIndexValue),
                Some(value) => {
                    let value = parse_value(&value);
                    Ok(
                        (
                            from_chars_range(&name, 0, name.len() - 2),
                            value,
                            EditType::InsertAt(index),
                        ),
                    )
                },
            },
        }
    } else if ends_with_chars(&name, &minus_at) {
        let (word, _) = split_word(&rest);
        let name_text = from_chars(&name);
        let word_text = from_chars(&word);
        let mut parts: Vec<&str> = Vec::new();
        parts.push(name_text.as_str());
        parts.push(word_text.as_str());
        match parse_variable_index(parts) {
            Err(e) => Err(e),
            Ok((index, _)) => Ok(
                (
                    from_chars_range(&name, 0, name.len() - 2),
                    VariableValue::Text(String::new()),
                    EditType::RemoveAt(index),
                ),
            ),
        }
    } else {
        let value = parse_value(&rest);
        Ok((from_chars(&name), value, EditType::Overwrite()))
    }
}

/// Proposes to store the variable that the message names.
pub fn add_variable(command: &Command, message: &Message) -> (r: Result<Action, ActionError>)
    ensures
        proposes(Validator::AddVariable, arguments(command, message), proposal_view(r)),
{
    match parse_variable_message(command, message) {
        Ok((name, value, edit_type)) => match edit_type {
            EditType::Overwrite() => Ok(Action::AddVariable(Variable::new(name, value))),
            _ => Err(ActionError::VariableEditTypeNotSupported),
        },
        Err(e) => Err(e),
    }
}

/// Proposes the edit of a variable that the message asks for.
pub fn edit_variable(command: &Command, message: &Message) -> (r: Result<Action, ActionError>)
    ensures
        proposes(Validator::EditVariable, arguments(command, message), proposal_view(r)),
{
    match parse_variable_message(command, message) {
        Ok((name, value, edit_type)) => Ok(
            Action::EditVariable(Variable::new(name, value), edit_type),
        ),
        Err(e) => Err(e),
    }
}

/// Proposes to delete the variable that the message names.
pub fn delete_variable(command: &Command, message: &Message) -> (r: Result<Action, ActionError>)
    ensures
        proposes(Validator::DeleteVariable, arguments(command, message), proposal_view(r)),
{
    match parse_variable_message(command, message) {
        Ok((name, value, edit_type)) => match edit_type {
            EditType::Overwrite() => Ok(Action::DeleteVariable(Variable::new(name, value))),
            _ => Err(ActionError::VariableEditTypeNotSupported),
        },
        Err(e) => Err(e),
    }
}

impl Actor {
    /// What this validator makes of a message that called `command`.
    pub fn validate(&self, command: &Command, message: &Message) -> (r: Result<
        Action,
        ActionError,
    >)
        ensures
            proposes(self.0, arguments(command, message), proposal_view(r)),
    {
        match self.0 {
            Validator::AddCommand => add_command(command, message),
            Validator::EditCommand => edit_command(command, message),
            Validator::DeleteCommand => delete_command(command, message),
            Validator::AddVariable => add_variable(command, message),
            Validator::EditVariable => edit_variable(command, message),
            Validator::DeleteVariable => delete_variable(command, message),
        }
    }
}

} // verus!
