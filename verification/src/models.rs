//! The data the engine works on, each type with the plain value that the
//! contracts speak of (its view).

use crate::database::{Database, DEFAULT_PATH};
use vstd::prelude::*;

verus! {

/// A moment as seconds and nanoseconds since 1970-01-01T00:00:00Z.
#[derive(Clone, Copy, Debug, PartialEq, Eq)]
pub struct TimespecDef {
    pub sec: i64,
    pub nsec: i32,
}

/// `time::get_time`: the current time. The nanoseconds lie within one
/// second; nothing is claimed of which moment it is.
#[verifier::external_body]
pub(crate) fn now() -> (t: TimespecDef)
    ensures
        0 <= t.nsec < 1_000_000_000,
{
    let t = time::get_time();
    TimespecDef { sec: t.sec, nsec: t.nsec }
}

/// `time::empty_tm` turned into a timespec by `time::Tm::to_timespec`: the
/// stamp of a record that was never stored. Its nanoseconds are those of the
/// empty `Tm`, zero; the seconds come from the C library and are not stated.
#[verifier::external_body]
pub(crate) fn unset_time() -> (t: TimespecDef)
    ensures
        t.nsec == 0,
{
    let t = time::empty_tm().to_timespec();
    TimespecDef { sec: t.sec, nsec: t.nsec }
}

/// Who sent a message.
#[derive(Debug)]
pub struct User {
    pub username: String,
}

impl View for User {
    type V = Seq<char>;

    open spec fn view(&self) -> Seq<char> {
        self.username@
    }
}

impl Clone for User {
    fn clone(&self) -> (r: Self)
        ensures
            r@ == self@,
    {
        User { username: self.username.clone() }
    }
}

/// Where a message came from, as far as the engine needs to know: the
/// connection itself stays with whoever delivers the answer.
#[derive(Clone, Copy, Debug, PartialEq, Eq)]
pub enum Source {
    Unknown,
    Admin,
    Twitch,
    Discord,
}

/// An inbound chat message.
#[derive(Debug)]
pub struct Message {
    pub sender: User,
    pub text: String,
    pub source: Source,
}

/// A message as plain values.
pub struct MessageView {
    pub sender: Seq<char>,
    pub text: Seq<char>,
    pub source: Source,
}

impl View for Message {
    type V = MessageView;

    open spec fn view(&self) -> MessageView {
        MessageView { sender: self.sender@, text: self.text@, source: self.source }
    }
}

impl Clone for Message {
    fn clone(&self) -> (r: Self)
        ensures
            r@ == self@,
    {
        Message { sender: self.sender.clone(), text: self.text.clone(), source: self.source }
    }
}

/// What follows `trigger` and one more character in `text`.
pub open spec fn text_after_trigger(text: Seq<char>, trigger: Seq<char>) -> Seq<char> {
    if trigger.len() + 1 > text.len() {
        Seq::empty()
    } else {
        text.skip(trigger.len() as int + 1)
    }
}

impl Message {
    /// A message from the user `foo`, of no stated origin.
    pub fn new(text: String) -> (r: Message)
        ensures
            r@.text == text@,
            r@.sender == "foo"@,
            r@.source == Source::Unknown,
    {
        Message { sender: User { username: "foo".to_string() }, text, source: Source::Unknown }
    }

    /// The arguments of the message: what follows the trigger and the space
    /// behind it.
    pub fn after_trigger(&self, trigger: &str) -> (r: &str)
        ensures
            r@ == text_after_trigger(self.text@, trigger@),
    {
        let tl = trigger.unicode_len();
        let xl = self.text.as_str().unicode_len();
        if tl >= xl {
            proof {
                reveal_strlit("");
            }
            assert(""@ =~= Seq::<char>::empty());
            ""
        } else {
            assert(self.text@.subrange(tl + 1, xl as int) =~= self.text@.skip(tl + 1));
            self.text.as_str().substring_char(tl + 1, xl)
        }
    }
}

/// The validator that turns a matched message into a proposed action.
#[derive(Clone, Copy, Debug, PartialEq, Eq)]
pub enum Validator {
    AddCommand,
    EditCommand,
    DeleteCommand,
    AddVariable,
    EditVariable,
    DeleteVariable,
}

/// The validator a command carries.
#[derive(Clone, Copy, Debug, PartialEq, Eq)]
pub struct Actor(pub Validator);

/// How a variable edit combines the new value with the stored one.
#[derive(Clone, Copy, Debug, PartialEq, Eq)]
pub enum EditType {
    Overwrite(),
    Append(),
    Remove(),
    InsertAt(usize),
    RemoveAt(usize),
}

/// One entry of a list variable.
#[derive(Debug, PartialEq, Eq)]
pub struct StringItem {
    pub time_created: TimespecDef,
    pub value: String,
}

/// An item of a list as plain values.
pub struct StringItemView {
    pub time_created: TimespecDef,
    pub value: Seq<char>,
}

impl View for StringItem {
    type V = StringItemView;

    open spec fn view(&self) -> StringItemView {
        StringItemView { time_created: self.time_created, value: self.value@ }
    }
}

impl Clone for StringItem {
    fn clone(&self) -> (r: Self)
        ensures
            r@ == self@,
    {
        StringItem { time_created: self.time_created, value: self.value.clone() }
    }
}

impl StringItem {
    /// An item holding `item`, stamped with the current time.
    pub fn new(item: &str) -> (r: StringItem)
        ensures
            r.value@ == item@,
            0 <= r.time_created.nsec < 1_000_000_000,
    {
        StringItem { time_created: now(), value: item.to_string() }
    }
}

/// The views of the items of a list, in order.
pub open spec fn items_view(items: Seq<StringItem>) -> Seq<StringItemView> {
    items.map_values(|i: StringItem| i@)
}

/// A copy of a list of items.
pub fn clone_items(items: &Vec<StringItem>) -> (r: Vec<StringItem>)
    ensures
        items_view(r@) == items_view(items@),
{
    let mut r: Vec<StringItem> = Vec::new();
    let mut i: usize = 0;
    while i < items.len()
        invariant
            i <= items.len(),
            r.len() == i,
            forall|j: int| 0 <= j < i ==> r@[j]@ == items@[j]@,
        decreases items.len() - i,
    {
        r.push(items[i].clone());
        i = i + 1;
    }
    assert(items_view(r@) =~= items_view(items@));
    r
}

/// The value of a variable: a text or a list of items.
#[derive(Debug, PartialEq, Eq)]
pub enum VariableValue {
    Text(String),
    StringList(Vec<StringItem>),
}

/// The value of a variable as plain values.
pub enum VariableValueView {
    Text(Seq<char>),
    StringList(Seq<StringItemView>),
}

impl View for VariableValue {
    type V = VariableValueView;

    open spec fn view(&self) -> VariableValueView {
        match self {
            VariableValue::Text(t) => VariableValueView::Text(t@),
            VariableValue::StringList(l) => VariableValueView::StringList(items_view(l@)),
        }
    }
}

impl Clone for VariableValue {
    fn clone(&self) -> (r: Self)
        ensures
            r@ == self@,
    {
        match self {
            VariableValue::Text(t) => VariableValue::Text(t.clone()),
            VariableValue::StringList(l) => VariableValue::StringList(clone_items(l)),
        }
    }
}

/// A named, typed value of the variable store.
#[derive(Debug, PartialEq, Eq)]
pub struct Variable {
    pub id: i32,
    pub time_created: TimespecDef,
    pub time_modified: TimespecDef,
    pub name: String,
    pub value: VariableValue,
}

/// A variable as plain values.
pub struct VariableView {
    pub id: i32,
    pub time_created: TimespecDef,
    pub time_modified: TimespecDef,
    pub name: Seq<char>,
    pub value: VariableValueView,
}

impl View for Variable {
    type V = VariableView;

    open spec fn view(&self) -> VariableView {
        VariableView {
            id: self.id,
            time_created: self.time_created,
            time_modified: self.time_modified,
            name: self.name@,
            value: self.value@,
        }
    }
}

impl Clone for Variable {
    fn clone(&self) -> (r: Self)
        ensures
            r@ == self@,
    {
        Variable {
            id: self.id,
            time_created: self.time_created,
            time_modified: self.time_modified,
            name: self.name.clone(),
            value: self.value.clone(),
        }
    }
}

impl Variable {
    /// A variable that was never stored: no id, both stamps unset.
    pub fn new(name: String, value: VariableValue) -> (r: Variable)
        ensures
            r.id == 0,
            r.name@ == name@,
            r.value@ == value@,
            r.time_created.nsec == 0,
            r.time_modified.nsec == 0,
    {
        Variable { id: 0, time_created: unset_time(), time_modified: unset_time(), name, value }
    }
}

/// A trigger with the template that answers it.
#[derive(Debug)]
pub struct Command {
    pub id: i32,
    pub time_created: TimespecDef,
    pub trigger: String,
    pub response: String,
    pub actor: Option<Actor>,
    pub database_path: String,
    pub is_alias: bool,
}

/// A command as plain values.
pub struct CommandView {
    pub id: i32,
    pub time_created: TimespecDef,
    pub trigger: Seq<char>,
    pub response: Seq<char>,
    pub actor: Option<Actor>,
    pub database_path: Seq<char>,
    pub is_alias: bool,
}

impl View for Command {
    type V = CommandView;

    open spec fn view(&self) -> CommandView {
        CommandView {
            id: self.id,
            time_created: self.time_created,
            trigger: self.trigger@,
            response: self.response@,
            actor: self.actor,
            database_path: self.database_path@,
            is_alias: self.is_alias,
        }
    }
}

impl Clone for Command {
    fn clone(&self) -> (r: Self)
        ensures
            r@ == self@,
    {
        Command {
            id: self.id,
            time_created: self.time_created,
            trigger: self.trigger.clone(),
            response: self.response.clone(),
            actor: self.actor,
            database_path: self.database_path.clone(),
            is_alias: self.is_alias,
        }
    }
}

pub const EIGHT_BALL_TRIGGER: &'static str = "!8ball";

pub const EIGHT_BALL_RESPONSE: &'static str =
    "🎱 {{let responses = [\"All signs point to yes...\", \"Yes!\", \"My sources say nope.\", \"You may rely on it.\", \"Concentrate and ask again...\", \"Outlook not so good...\", \"It is decidedly so!\", \"Better not tell you.\", \"Very doubtful.\", \"Yes - Definitely!\", \"It is certain!\", \"Most likely.\", \"Ask again later.\", \"No!\", \"Outlook good.\", \"Don't count on it.\"]; responses[floor(random() * len(responses))]}}";

pub const QUOTE_TRIGGER: &'static str = "!quote";

pub const QUOTE_RESPONSE: &'static str =
    "{{let quotes = get_list(\"quotes\"); let i = int(\"$1\"); if i == 0 { i = random_index(quotes) } else { i -= 1 } \"#\" + string(i + 1) + \": \" + quotes[i]}}";

pub const QUOTE_ADD_TRIGGER: &'static str = "!quote add";

pub const QUOTE_ADD_RESPONSE: &'static str = "!variable edit quotes+ [$text]";

pub const QUOTE_REMOVE_TRIGGER: &'static str = "!quote remove";

pub const QUOTE_REMOVE_RESPONSE: &'static str = "!variable edit quotes-# {{int(\"$text\") - 1}}";

pub const WAIFU_TRIGGER: &'static str = "!waifu";

pub const WAIFU_RESPONSE: &'static str = "{{\"@$user \" + upload_image(waifu())}}";

/// `t` is the trigger of one of the default commands.
pub open spec fn is_default_trigger(t: Seq<char>) -> bool {
    ||| t == EIGHT_BALL_TRIGGER@
    ||| t == QUOTE_TRIGGER@
    ||| t == QUOTE_ADD_TRIGGER@
    ||| t == QUOTE_REMOVE_TRIGGER@
    ||| t == WAIFU_TRIGGER@
}

/// What a command made by `Command::new` or `Command::new_alias` holds.
pub open spec fn fresh_command(
    c: CommandView,
    trigger: Seq<char>,
    response: Seq<char>,
    is_alias: bool,
) -> bool {
    &&& c.id == 0
    &&& c.time_created.nsec == 0
    &&& c.trigger == trigger
    &&& c.response == response
    &&& c.actor is None
    &&& c.database_path == DEFAULT_PATH@
    &&& c.is_alias == is_alias
}

/// `s` is the list of the default commands.
pub open spec fn is_default_list(s: Seq<Command>) -> bool {
    &&& s.len() == 5
    &&& fresh_command(s[0]@, EIGHT_BALL_TRIGGER@, EIGHT_BALL_RESPONSE@, false)
    &&& fresh_command(s[1]@, QUOTE_TRIGGER@, QUOTE_RESPONSE@, false)
    &&& fresh_command(s[2]@, QUOTE_ADD_TRIGGER@, QUOTE_ADD_RESPONSE@, true)
    &&& fresh_command(s[3]@, QUOTE_REMOVE_TRIGGER@, QUOTE_REMOVE_RESPONSE@, true)
    &&& fresh_command(s[4]@, WAIFU_TRIGGER@, WAIFU_RESPONSE@, false)
}

impl Command {
    /// A command that answers `trigger` with the template `response`.
    pub fn new(trigger: String, response: String) -> (r: Command)
        ensures
            fresh_command(r@, trigger@, response@, false),
    {
        Command {
            id: 0,
            time_created: unset_time(),
            trigger,
            response,
            actor: None,
            database_path: Database::default_path(),
            is_alias: false,
        }
    }

    /// A command whose rendered template is resolved again as a message.
    pub fn new_alias(trigger: String, alias: String) -> (r: Command)
        ensures
            fresh_command(r@, trigger@, alias@, true),
    {
        Command {
            id: 0,
            time_created: unset_time(),
            trigger,
            response: alias,
            actor: None,
            database_path: Database::default_path(),
            is_alias: true,
        }
    }

    /// Sets where the scripts of this command find the variable store.
    pub fn with_database_path(&mut self, database_path: String) -> (r: &mut Command)
        ensures
            r@ == (CommandView { database_path: database_path@, ..old(self)@ }),
            *final(self) == *final(r),
    {
        self.database_path = database_path;
        self
    }

    /// Sets the validator of this command.
    pub fn with_actor(&mut self, actor: Actor) -> (r: &mut Command)
        ensures
            r@ == (CommandView { actor: Some(actor), ..old(self)@ }),
            *final(self) == *final(r),
    {
        self.actor = Some(actor);
        self
    }

    /// The command as it stands.
    pub fn build(&self) -> (r: Command)
        ensures
            r@ == self@,
    {
        self.clone()
    }

    /// The commands every registry starts with.
    pub fn default_commands() -> (r: Vec<Command>)
        ensures
            is_default_list(r@),
            forall|i: int| 0 <= i < 5 ==> is_default_trigger(#[trigger] r@[i]@.trigger),
    {
        let mut r: Vec<Command> = Vec::new();
        r.push(Command::new(EIGHT_BALL_TRIGGER.to_string(), EIGHT_BALL_RESPONSE.to_string()));
        r.push(Command::new(QUOTE_TRIGGER.to_string(), QUOTE_RESPONSE.to_string()));
        r.push(Command::new_alias(QUOTE_ADD_TRIGGER.to_string(), QUOTE_ADD_RESPONSE.to_string()));
        r.push(
            Command::new_alias(QUOTE_REMOVE_TRIGGER.to_string(), QUOTE_REMOVE_RESPONSE.to_string()),
        );
        r.push(Command::new(WAIFU_TRIGGER.to_string(), WAIFU_RESPONSE.to_string()));
        r
    }
}

/// A change to the registry or to the variable store that a command asks for.
#[derive(Debug)]
pub enum Action {
    AddCommand(Command),
    EditCommand(Command),
    DeleteCommand(Command),
    AddVariable(Variable),
    EditVariable(Variable, EditType),
    DeleteVariable(Variable),
}

/// An action as plain values.
pub enum ActionView {
    AddCommand(CommandView),
    EditCommand(CommandView),
    DeleteCommand(CommandView),
    AddVariable(VariableView),
    EditVariable(VariableView, EditType),
    DeleteVariable(VariableView),
}

impl View for Action {
    type V = ActionView;

    open spec fn view(&self) -> ActionView {
        match self {
            Action::AddCommand(c) => ActionView::AddCommand(c@),
            Action::EditCommand(c) => ActionView::EditCommand(c@),
            Action::DeleteCommand(c) => ActionView::DeleteCommand(c@),
            Action::AddVariable(v) => ActionView::AddVariable(v@),
            Action::EditVariable(v, e) => ActionView::EditVariable(v@, *e),
            Action::DeleteVariable(v) => ActionView::DeleteVariable(v@),
        }
    }
}

impl Clone for Action {
    fn clone(&self) -> (r: Self)
        ensures
            r@ == self@,
    {
        match self {
            Action::AddCommand(c) => Action::AddCommand(c.clone()),
            Action::EditCommand(c) => Action::EditCommand(c.clone()),
            Action::DeleteCommand(c) => Action::DeleteCommand(c.clone()),
            Action::AddVariable(v) => Action::AddVariable(v.clone()),
            Action::EditVariable(v, e) => Action::EditVariable(v.clone(), *e),
            Action::DeleteVariable(v) => Action::DeleteVariable(v.clone()),
        }
    }
}

/// Why a requested action is refused.
#[derive(Debug)]
pub enum ActionError {
    CommandAlreadyExists,
    CommandDoesNotExist,
    CannotDeleteBuiltInCommand,
    CannotModifyBuiltInCommand,
    BadCommand(String),
    BadCommandTriggerPrefix,
    BadCommandAlias,
    VariableAlreadyExists,
    VariableDoesNotExist,
    VariableEditTypeNotSupported,
    VariableWrongType,
    VariableBadEditIndex,
    VariableBadEditIndexValue,
    PermissionDenied,
    NotificationChannelNotFound,
}

/// A refusal as plain values.
pub enum ActionErrorView {
    CommandAlreadyExists,
    CommandDoesNotExist,
    CannotDeleteBuiltInCommand,
    CannotModifyBuiltInCommand,
    BadCommand(Seq<char>),
    BadCommandTriggerPrefix,
    BadCommandAlias,
    VariableAlreadyExists,
    VariableDoesNotExist,
    VariableEditTypeNotSupported,
    VariableWrongType,
    VariableBadEditIndex,
    VariableBadEditIndexValue,
    PermissionDenied,
    NotificationChannelNotFound,
}

impl View for ActionError {
    type V = ActionErrorView;

    open spec fn view(&self) -> ActionErrorView {
        match self {
            ActionError::CommandAlreadyExists => ActionErrorView::CommandAlreadyExists,
            ActionError::CommandDoesNotExist => ActionErrorView::CommandDoesNotExist,
            ActionError::CannotDeleteBuiltInCommand => ActionErrorView::CannotDeleteBuiltInCommand,
            ActionError::CannotModifyBuiltInCommand => ActionErrorView::CannotModifyBuiltInCommand,
            ActionError::BadCommand(d) => ActionErrorView::BadCommand(d@),
            ActionError::BadCommandTriggerPrefix => ActionErrorView::BadCommandTriggerPrefix,
            ActionError::BadCommandAlias => ActionErrorView::BadCommandAlias,
            ActionError::VariableAlreadyExists => ActionErrorView::VariableAlreadyExists,
            ActionError::VariableDoesNotExist => ActionErrorView::VariableDoesNotExist,
            ActionError::VariableEditTypeNotSupported => {
                ActionErrorView::VariableEditTypeNotSupported
            },
            ActionError::VariableWrongType => ActionErrorView::VariableWrongType,
            ActionError::VariableBadEditIndex => ActionErrorView::VariableBadEditIndex,
            ActionError::VariableBadEditIndexValue => ActionErrorView::VariableBadEditIndexValue,
            ActionError::PermissionDenied => ActionErrorView::PermissionDenied,
            ActionError::NotificationChannelNotFound => {
                ActionErrorView::NotificationChannelNotFound
            },
        }
    }
}

/// A text as `Debug` writes it: between double quotes, with escapes.
pub uninterp spec fn debug_quoted(s: Seq<char>) -> Seq<char>;

/// `<str as Debug>::fmt`, through `format!`: the text between double
/// quotes, with the escapes that `Debug` writes. The result is named, not
/// spelled out.
#[verifier::external_body]
pub(crate) fn quote(s: &str) -> (r: String)
    ensures
        r@ == debug_quoted(s@),
{
    format!("{:?}", s)
}

/// The text that answers a refused action: the name of the reason, with
/// its detail in brackets where it has one.
pub open spec fn error_text(e: ActionErrorView) -> Seq<char> {
    match e {
        ActionErrorView::CommandAlreadyExists => "CommandAlreadyExists"@,
        ActionErrorView::CommandDoesNotExist => "CommandDoesNotExist"@,
        ActionErrorView::CannotDeleteBuiltInCommand => "CannotDeleteBuiltInCommand"@,
        ActionErrorView::CannotModifyBuiltInCommand => "CannotModifyBuiltInCommand"@,
        ActionErrorView::BadCommand(d) => "BadCommand("@ + debug_quoted(d) + ")"@,
        ActionErrorView::BadCommandTriggerPrefix => "BadCommandTriggerPrefix"@,
        ActionErrorView::BadCommandAlias => "BadCommandAlias"@,
        ActionErrorView::VariableAlreadyExists => "VariableAlreadyExists"@,
        ActionErrorView::VariableDoesNotExist => "VariableDoesNotExist"@,
        ActionErrorView::VariableEditTypeNotSupported => "VariableEditTypeNotSupported"@,
        ActionErrorView::VariableWrongType => "VariableWrongType"@,
        ActionErrorView::VariableBadEditIndex => "VariableBadEditIndex"@,
        ActionErrorView::VariableBadEditIndexValue => "VariableBadEditIndexValue"@,
        ActionErrorView::PermissionDenied => "PermissionDenied"@,
        ActionErrorView::NotificationChannelNotFound => "NotificationChannelNotFound"@,
    }
}

impl ActionError {
    /// The text that answers a refused action.
    pub fn describe(&self) -> (r: String)
        ensures
            r@ == error_text(self@),
    {
        match self {
            ActionError::CommandAlreadyExists => "CommandAlreadyExists".to_string(),
            ActionError::CommandDoesNotExist => "CommandDoesNotExist".to_string(),
            ActionError::CannotDeleteBuiltInCommand => "CannotDeleteBuiltInCommand".to_string(),
            ActionError::CannotModifyBuiltInCommand => "CannotModifyBuiltInCommand".to_string(),
            ActionError::BadCommand(d) => {
                let mut r = "BadCommand(".to_string();
                let quoted = quote(d.as_str());
                r.append(quoted.as_str());
                r.append(")");
                r
            },
            ActionError::BadCommandTriggerPrefix => "BadCommandTriggerPrefix".to_string(),
            ActionError::BadCommandAlias => "BadCommandAlias".to_string(),
            ActionError::VariableAlreadyExists => "VariableAlreadyExists".to_string(),
            ActionError::VariableDoesNotExist => "VariableDoesNotExist".to_string(),
            ActionError::VariableEditTypeNotSupported => "VariableEditTypeNotSupported".to_string(),
            ActionError::VariableWrongType => "VariableWrongType".to_string(),
            ActionError::VariableBadEditIndex => "VariableBadEditIndex".to_string(),
            ActionError::VariableBadEditIndexValue => "VariableBadEditIndexValue".to_string(),
            ActionError::PermissionDenied => "PermissionDenied".to_string(),
            ActionError::NotificationChannelNotFound => "NotificationChannelNotFound".to_string(),
        }
    }
}

} // verus!
