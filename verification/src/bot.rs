//! The engine itself: which command a message triggers, whether the change
//! it asks for is allowed, and what is answered.

use crate::command::{registry_of, rendered, resolved, scripts_of, CommandExt, Commands};
use crate::edit::{apply_edit, edited, lemma_edit_refused};
use crate::models::{
    error_text, is_default_list, is_default_trigger, text_after_trigger, Action, ActionError, ActionErrorView,
    ActionView, Command, CommandView, EditType, Message, MessageView, Source, User, Variable,
    VariableValue, VariableView,
};
use crate::special_command::{
    is_builtin_trigger, is_special_list, is_special_trigger, proposal_view, proposes,
};
use crate::text::strings_view;
use vstd::prelude::*;

verus! {

/// What happened to the registry or to the variable store, and who did it.
#[derive(Debug)]
pub enum BotEvent {
    LoadCommand(Command),
    AddCommand(Command, User),
    EditCommand(Command, User),
    DeleteCommand(Command, User),
    LoadVariable(Variable),
    AddVariable(Variable, User),
    EditVariable(Variable, User),
    DeleteVariable(Variable, User),
}

/// An event of the engine as plain values.
pub enum BotEventView {
    LoadCommand(CommandView),
    AddCommand(CommandView, Seq<char>),
    EditCommand(CommandView, Seq<char>),
    DeleteCommand(CommandView, Seq<char>),
    LoadVariable(VariableView),
    AddVariable(VariableView, Seq<char>),
    EditVariable(VariableView, Seq<char>),
    DeleteVariable(VariableView, Seq<char>),
}

impl View for BotEvent {
    type V = BotEventView;

    open spec fn view(&self) -> BotEventView {
        match self {
            BotEvent::LoadCommand(c) => BotEventView::LoadCommand(c@),
            BotEvent::AddCommand(c, u) => BotEventView::AddCommand(c@, u@),
            BotEvent::EditCommand(c, u) => BotEventView::EditCommand(c@, u@),
            BotEvent::DeleteCommand(c, u) => BotEventView::DeleteCommand(c@, u@),
            BotEvent::LoadVariable(v) => BotEventView::LoadVariable(v@),
            BotEvent::AddVariable(v, u) => BotEventView::AddVariable(v@, u@),
            BotEvent::EditVariable(v, u) => BotEventView::EditVariable(v@, u@),
            BotEvent::DeleteVariable(v, u) => BotEventView::DeleteVariable(v@, u@),
        }
    }
}

/// The view of what an option holds.
pub open spec fn option_view<T: View>(o: Option<T>) -> Option<T::V> {
    match o {
        Some(x) => Some(x@),
        None => None,
    }
}

/// Why `action` is refused, if it is. `stored` is what the variable store
/// holds under the name of the variable that the action speaks of. A trigger
/// that is built in can be neither edited nor deleted, registered or not.
pub open spec fn refusal(
    registry: Map<Seq<char>, CommandView>,
    action: ActionView,
    stored: Option<VariableView>,
) -> Option<ActionErrorView> {
    match action {
        ActionView::AddCommand(c) => if registry.contains_key(c.trigger) {
            Some(ActionErrorView::CommandAlreadyExists)
        } else {
            None
        },
        ActionView::EditCommand(c) => if is_builtin_trigger(c.trigger) {
            Some(ActionErrorView::CannotModifyBuiltInCommand)
        } else if !registry.contains_key(c.trigger) {
            Some(ActionErrorView::CommandDoesNotExist)
        } else {
            None
        },
        ActionView::DeleteCommand(c) => if is_builtin_trigger(c.trigger) {
            Some(ActionErrorView::CannotDeleteBuiltInCommand)
        } else if !registry.contains_key(c.trigger) {
            Some(ActionErrorView::CommandDoesNotExist)
        } else {
            None
        },
        ActionView::AddVariable(_) => if stored is Some {
            Some(ActionErrorView::VariableAlreadyExists)
        } else {
            None
        },
        ActionView::EditVariable(v, edit_type) => match stored {
            None => Some(ActionErrorView::VariableDoesNotExist),
            Some(old) => match edited(old.value, v.value, edit_type) {
                Err(e) => Some(e),
                Ok(_) => None,
            },
        },
        ActionView::DeleteVariable(_) => if stored is None {
            Some(ActionErrorView::VariableDoesNotExist)
        } else {
            None
        },
    }
}

/// The name of the variable that must be looked up before `action` can be
/// judged.
pub open spec fn lookup_name(action: ActionView) -> Option<Seq<char>> {
    match action {
        ActionView::AddVariable(v) => Some(v.name),
        ActionView::EditVariable(v, _) => Some(v.name),
        ActionView::DeleteVariable(v) => Some(v.name),
        _ => None,
    }
}

/// Editing or deleting a built-in or default trigger is refused as such,
/// whatever the registry holds.
pub proof fn lemma_builtin_is_protected(
    registry: Map<Seq<char>, CommandView>,
    command: CommandView,
    stored: Option<VariableView>,
)
    requires
        is_builtin_trigger(command.trigger),
    ensures
        refusal(registry, ActionView::EditCommand(command), stored) == Some(
            ActionErrorView::CannotModifyBuiltInCommand,
        ),
        refusal(registry, ActionView::DeleteCommand(command), stored) == Some(
            ActionErrorView::CannotDeleteBuiltInCommand,
        ),
{
}

/// Whether one of `list` has the trigger `trigger`.
fn has_trigger(list: &Vec<Command>, trigger: &String) -> (r: bool)
    ensures
        r == exists|j: int| 0 <= j < list.len() && (#[trigger] list@[j])@.trigger == trigger@,
{
    let mut i: usize = 0;
    while i < list.len()
        invariant
            i <= list.len(),
            forall|j: int| 0 <= j < i ==> (#[trigger] list@[j])@.trigger != trigger@,
        decreases list.len() - i,
    {
        if list[i].trigger == *trigger {
            return true;
        }
        i = i + 1;
    }
    false
}

/// The name under which the bot itself speaks.
pub const BOT_USERNAME: &'static str = "StovBot";

/// `events` tell of the loading of `commands` and then of `variables`, one
/// event each, in order.
pub open spec fn loaded(
    events: Seq<BotEvent>,
    commands: Seq<Command>,
    variables: Seq<Variable>,
) -> bool {
    &&& events.len() == commands.len() + variables.len()
    &&& forall|i: int|
        0 <= i < commands.len() ==> (#[trigger] events[i])@ == BotEventView::LoadCommand(
            commands[i]@,
        )
    &&& forall|j: int|
        0 <= j < variables.len() ==> (#[trigger] events[commands.len() + j])@
            == BotEventView::LoadVariable(variables[j]@)
}

/// The engine: its own name, and the registry.
pub struct Bot {
    pub username: String,
    pub commands: Commands,
}

impl Bot {
    /// The registry is well formed.
    pub open spec fn wf(&self) -> bool {
        self.commands.wf()
    }

    /// The engine at startup. Its registry holds the default commands, the
    /// built-in commands and the stored ones; where a trigger comes twice,
    /// the later of these stays. The events tell of the built-in and the
    /// stored commands and of the stored variables.
    pub fn new(stored_commands: Vec<Command>, stored_variables: Vec<Variable>) -> (r: (
        Bot,
        Vec<BotEvent>,
    ))
        ensures
            r.0.wf(),
            r.0.username@ == BOT_USERNAME@,
            exists|defaults: Seq<Command>, specials: Seq<Command>|
                is_default_list(defaults) && is_special_list(specials) && #[trigger] registry_of(
                    defaults + specials + stored_commands@,
                ) == r.0.commands@ && loaded(r.1@, specials + stored_commands@, stored_variables@),
    {
        let mut all = Command::default_commands();
        let mut specials = crate::special_command::commands();
        let mut stored = stored_commands;
        let ghost defaults = all@;
        let ghost special_list = specials@;
        let mut events: Vec<BotEvent> = Vec::new();
        let mut i: usize = 0;
        while i < specials.len()
            invariant
                i <= specials.len(),
                events.len() == i,
                forall|k: int|
                    0 <= k < i ==> (#[trigger] events@[k])@ == BotEventView::LoadCommand(
                        specials@[k]@,
                    ),
            decreases specials.len() - i,
        {
            events.push(BotEvent::LoadCommand(specials[i].clone()));
            i = i + 1;
        }
        let mut j: usize = 0;
        while j < stored.len()
            invariant
                j <= stored.len(),
                events.len() == specials.len() + j,
                forall|k: int|
                    0 <= k < specials.len() ==> (#[trigger] events@[k])@
                        == BotEventView::LoadCommand(specials@[k]@),
                forall|k: int|
                    0 <= k < j ==> (#[trigger] events@[specials.len() + k])@
                        == BotEventView::LoadCommand(stored@[k]@),
            decreases stored.len() - j,
        {
            events.push(BotEvent::LoadCommand(stored[j].clone()));
            j = j + 1;
        }
        let ghost loaded_commands = specials@ + stored@;
        assert forall|n: int| 0 <= n < loaded_commands.len() implies (#[trigger] events@[n])@
            == BotEventView::LoadCommand(loaded_commands[n]@) by {
            if n >= specials.len() {
                assert(events@[n] == events@[specials.len() + (n - specials.len())]);
            }
        }
        let mut k: usize = 0;
        while k < stored_variables.len()
            invariant
                k <= stored_variables.len(),
                loaded_commands == specials@ + stored@,
                events.len() == loaded_commands.len() + k,
                forall|n: int|
                    0 <= n < loaded_commands.len() ==> (#[trigger] events@[n])@
                        == BotEventView::LoadCommand(loaded_commands[n]@),
                forall|n: int|
                    0 <= n < k ==> (#[trigger] events@[loaded_commands.len() + n])@
                        == BotEventView::LoadVariable(stored_variables@[n]@),
            decreases stored_variables.len() - k,
        {
            events.push(BotEvent::LoadVariable(stored_variables[k].clone()));
            k = k + 1;
        }
        all.append(&mut specials);
        all.append(&mut stored);
        let commands = Commands::new(all);
        let bot = Bot { username: BOT_USERNAME.to_string(), commands };
        assert(registry_of(defaults + special_list + stored_commands@) == bot.commands@);
        (bot, events)
    }

    /// Whether the trigger of `command` is that of a built-in or default
    /// command.
    pub fn is_builtin_command(&self, command: &Command) -> (r: bool)
        ensures
            r == is_builtin_trigger(command@.trigger),
    {
        let defaults = Command::default_commands();
        let specials = crate::special_command::commands();
        let found = has_trigger(&defaults, &command.trigger);
        let special = has_trigger(&specials, &command.trigger);
        proof {
            let t = command@.trigger;
            if is_default_trigger(t) {
                assert(defaults@[0]@.trigger == t || defaults@[1]@.trigger == t
                    || defaults@[2]@.trigger == t || defaults@[3]@.trigger == t
                    || defaults@[4]@.trigger == t);
            }
            if is_special_trigger(t) {
                assert(specials@[0]@.trigger == t || specials@[1]@.trigger == t
                    || specials@[2]@.trigger == t || specials@[3]@.trigger == t
                    || specials@[4]@.trigger == t || specials@[5]@.trigger == t);
            }
        }
        found || special
    }

    /// The command that a message with the text `text` triggers: of the
    /// registered commands that the text calls, the one with the longest
    /// trigger.
    pub fn get_triggered_command(&self, text: &String) -> (r: Option<&Command>)
        requires
            self.wf(),
        ensures
            option_view(r) == resolved(self.commands@, text@),
    {
        self.commands.resolve(text.as_str())
    }

    /// Why `action` is refused, if it is. `stored` is what the variable
    /// store holds under the name of the variable that the action speaks of.
    pub fn check_action(&self, action: &Action, stored: &Option<Variable>) -> (r: Option<
        ActionError,
    >)
        requires
            self.wf(),
        ensures
            option_view(r) == refusal(self.commands@, action@, option_view(*stored)),
    {
        match action {
            Action::AddCommand(c) => {
                if self.commands.contains(c) {
                    Some(ActionError::CommandAlreadyExists)
                } else {
                    None
                }
            },
            Action::EditCommand(c) => {
                if self.is_builtin_command(c) {
                    Some(ActionError::CannotModifyBuiltInCommand)
                } else if !self.commands.contains(c) {
                    Some(ActionError::CommandDoesNotExist)
                } else {
                    None
                }
            },
            Action::DeleteCommand(c) => {
                if self.is_builtin_command(c) {
                    Some(ActionError::CannotDeleteBuiltInCommand)
                } else if !self.commands.contains(c) {
                    Some(ActionError::CommandDoesNotExist)
                } else {
                    None
                }
            },
            Action::AddVariable(_) => match stored {
                Some(_) => Some(ActionError::VariableAlreadyExists),
                None => None,
            },
            Action::EditVariable(v, edit_type) => match stored {
                None => Some(ActionError::VariableDoesNotExist),
                Some(old) => {
                    proof {
                        lemma_edit_refused(old@.value, v@.value, *edit_type);
                    }
                    match edit_type {
                        EditType::RemoveAt(_) => None,
                        _ => match (&v.value, &old.value) {
                            (VariableValue::Text(_), VariableValue::Text(_)) => None,
                            (VariableValue::StringList(_), VariableValue::StringList(_)) => None,
                            _ => Some(ActionError::VariableWrongType),
                        },
                    }
                },
            },
            Action::DeleteVariable(_) => match stored {
                Some(_) => None,
                None => Some(ActionError::VariableDoesNotExist),
            },
        }
    }
}

/// What the bot answers.
#[derive(Debug)]
pub struct BotMessage {
    pub text: String,
}

impl View for BotMessage {
    type V = Seq<char>;

    open spec fn view(&self) -> Seq<char> {
        self.text@
    }
}

/// What the engine asks of its host while it deals with a message. The host
/// does what is asked and hands the answer to `Bot::resume`.
#[derive(Debug)]
pub enum Request {
    /// Read the variable of this name from the store. The answer is
    /// `Reply::Variable`.
    Lookup(String),
    /// Run these scripts, in order, each in a sandbox that reaches the
    /// variable store at the given place. The answer is `Reply::Scripts`
    /// with one result for each script. For no script, nothing is run.
    RunScripts(Vec<String>, String),
    /// Write this action to the store. The answer is `Reply::Persisted`,
    /// whether or not the write went through.
    Persist(Action),
    /// The message is dealt with: the response to deliver and the event to
    /// publish, where there is one.
    Done(Option<BotMessage>, Option<BotEvent>),
}

/// A request as plain values.
pub enum RequestView {
    Lookup(Seq<char>),
    RunScripts(Seq<Seq<char>>, Seq<char>),
    Persist(ActionView),
    Done(Option<Seq<char>>, Option<BotEventView>),
}

impl View for Request {
    type V = RequestView;

    open spec fn view(&self) -> RequestView {
        match self {
            Request::Lookup(name) => RequestView::Lookup(name@),
            Request::RunScripts(scripts, path) => RequestView::RunScripts(
                strings_view(scripts@),
                path@,
            ),
            Request::Persist(action) => RequestView::Persist(action@),
            Request::Done(response, event) => RequestView::Done(
                option_view(*response),
                option_view(*event),
            ),
        }
    }
}

/// What the host answers to a request.
#[derive(Debug)]
pub enum Reply {
    /// What the store holds under the name that was asked for.
    Variable(Option<Variable>),
    /// The results of the scripts, in their order.
    Scripts(Vec<String>),
    /// The write was attempted.
    Persisted,
}

/// A reply as plain values.
pub enum ReplyView {
    Variable(Option<VariableView>),
    Scripts(Seq<Seq<char>>),
    Persisted,
}

impl View for Reply {
    type V = ReplyView;

    open spec fn view(&self) -> ReplyView {
        match self {
            Reply::Variable(v) => ReplyView::Variable(option_view(*v)),
            Reply::Scripts(results) => ReplyView::Scripts(strings_view(results@)),
            Reply::Persisted => ReplyView::Persisted,
        }
    }
}

/// Where the engine stands with a message while the host works on a request.
#[derive(Debug)]
pub enum Stage {
    /// The action that the command proposed waits for the stored variable
    /// to be judged.
    Checking(Command, Message, Action),
    /// The template of the command waits for the results of its scripts; the
    /// action, if any, was accepted.
    Rendering(Command, Message, Option<Action>),
    /// The edit of a variable waits for the stored value that it works on.
    Editing(BotMessage, Variable, EditType, User),
    /// The action waits for the store to be written.
    Persisting(BotMessage, Action, User),
    /// Nothing is left to do.
    Finished,
}

/// A stage as plain values.
pub enum StageView {
    Checking(CommandView, MessageView, ActionView),
    Rendering(CommandView, MessageView, Option<ActionView>),
    Editing(Seq<char>, VariableView, EditType, Seq<char>),
    Persisting(Seq<char>, ActionView, Seq<char>),
    Finished,
}

impl View for Stage {
    type V = StageView;

    open spec fn view(&self) -> StageView {
        match self {
            Stage::Checking(c, m, a) => StageView::Checking(c@, m@, a@),
            Stage::Rendering(c, m, a) => StageView::Rendering(c@, m@, option_view(*a)),
            Stage::Editing(r, v, e, u) => StageView::Editing(r@, v@, *e, u@),
            Stage::Persisting(r, a, u) => StageView::Persisting(r@, a@, u@),
            Stage::Finished => StageView::Finished,
        }
    }
}

/// What a validator answered, if the command has one.
pub open spec fn answer_view(proposal: Option<Result<Action, ActionError>>) -> Option<
    Result<ActionView, ActionErrorView>,
> {
    match proposal {
        Some(r) => Some(proposal_view(r)),
        None => None,
    }
}

/// The message is answered with `text`, and nothing else happens.
pub open spec fn answered(text: Seq<char>) -> (StageView, RequestView) {
    (StageView::Finished, RequestView::Done(Some(text), None))
}

/// The message is passed over.
pub open spec fn passed_over() -> (StageView, RequestView) {
    (StageView::Finished, RequestView::Done(None, None))
}

/// The template of `command` is to be rendered: its scripts are to be run.
pub open spec fn rendering(
    command: CommandView,
    message: MessageView,
    action: Option<ActionView>,
) -> (StageView, RequestView) {
    (
        StageView::Rendering(command, message, action),
        RequestView::RunScripts(
            scripts_of(
                command.response,
                text_after_trigger(message.text, command.trigger),
                message.sender,
            ),
            command.database_path,
        ),
    )
}

/// `action` is to be written to the store.
pub open spec fn persisting(response: Seq<char>, action: ActionView, sender: Seq<char>) -> (
    StageView,
    RequestView,
) {
    (StageView::Persisting(response, action, sender), RequestView::Persist(action))
}

/// What follows once the validator of `command`, if it has one, has answered
/// `proposal`. A refusal is the answer to the message. An action on a
/// variable waits for what the store holds; one on a command is judged
/// against the registry at once. Without a refusal the template is rendered.
pub open spec fn entered(
    registry: Map<Seq<char>, CommandView>,
    command: CommandView,
    message: MessageView,
    proposal: Option<Result<ActionView, ActionErrorView>>,
) -> (StageView, RequestView) {
    match proposal {
        None => rendering(command, message, None),
        Some(Err(e)) => answered(error_text(e)),
        Some(Ok(action)) => match lookup_name(action) {
            Some(name) => (
                StageView::Checking(command, message, action),
                RequestView::Lookup(name),
            ),
            None => match refusal(registry, action, None) {
                Some(e) => answered(error_text(e)),
                None => rendering(command, message, Some(action)),
            },
        },
    }
}

/// `proposal` is an answer that the validator of `command` may give to
/// `message`; a command without a validator gives none.
pub open spec fn proposal_for(
    command: CommandView,
    message: MessageView,
    proposal: Option<Result<ActionView, ActionErrorView>>,
) -> bool {
    match command.actor {
        None => proposal is None,
        Some(actor) => proposal is Some && proposes(
            actor.0,
            text_after_trigger(message.text, command.trigger),
            proposal->0,
        ),
    }
}

/// `next` is what follows when `message` has called `command`.
pub open spec fn processed(
    registry: Map<Seq<char>, CommandView>,
    command: CommandView,
    message: MessageView,
    next: (StageView, RequestView),
) -> bool {
    exists|proposal: Option<Result<ActionView, ActionErrorView>>|
        proposal_for(command, message, proposal) && next == #[trigger] entered(
            registry,
            command,
            message,
            proposal,
        )
}

/// `next` is what follows when `message` comes in: a message of the bot
/// itself, or one that calls no command, is passed over.
pub open spec fn responded(
    username: Seq<char>,
    registry: Map<Seq<char>, CommandView>,
    message: MessageView,
    next: (StageView, RequestView),
) -> bool {
    if message.sender == username {
        next == passed_over()
    } else {
        match resolved(registry, message.text) {
            None => next == passed_over(),
            Some(command) => processed(registry, command, message, next),
        }
    }
}

/// The registry once `action` has been applied.
pub open spec fn applied(registry: Map<Seq<char>, CommandView>, action: ActionView) -> Map<
    Seq<char>,
    CommandView,
> {
    match action {
        ActionView::AddCommand(c) => registry.insert(c.trigger, c),
        ActionView::EditCommand(c) => registry.insert(c.trigger, c),
        ActionView::DeleteCommand(c) => registry.remove(c.trigger),
        _ => registry,
    }
}

/// The event that tells of `action`, done by `user`.
pub open spec fn event_of(action: ActionView, user: Seq<char>) -> BotEventView {
    match action {
        ActionView::AddCommand(c) => BotEventView::AddCommand(c, user),
        ActionView::EditCommand(c) => BotEventView::EditCommand(c, user),
        ActionView::DeleteCommand(c) => BotEventView::DeleteCommand(c, user),
        ActionView::AddVariable(v) => BotEventView::AddVariable(v, user),
        ActionView::EditVariable(v, _) => BotEventView::EditVariable(v, user),
        ActionView::DeleteVariable(v) => BotEventView::DeleteVariable(v, user),
    }
}

/// What follows the rendering of a command that is no alias: without an
/// action the text is the answer; an edit that works on the stored value
/// waits for it; any other action is written.
pub open spec fn finishing(text: Seq<char>, action: Option<ActionView>, sender: Seq<char>) -> (
    StageView,
    RequestView,
) {
    match action {
        None => answered(text),
        Some(ActionView::EditVariable(v, edit_type)) => if edit_type is Overwrite {
            persisting(text, ActionView::EditVariable(v, edit_type), sender)
        } else {
            (StageView::Editing(text, v, edit_type, sender), RequestView::Lookup(v.name))
        },
        Some(a) => persisting(text, a, sender),
    }
}

/// What follows when the stored value for an edit has come: the edit is
/// computed and written; where nothing is stored the new value is written as
/// it is; an edit that does not fit the stored value is refused.
pub open spec fn edit_computed(
    response: Seq<char>,
    variable: VariableView,
    edit_type: EditType,
    sender: Seq<char>,
    stored: Option<VariableView>,
) -> (StageView, RequestView) {
    match stored {
        None => persisting(response, ActionView::EditVariable(variable, edit_type), sender),
        Some(old) => match edited(old.value, variable.value, edit_type) {
            Ok(value) => persisting(
                response,
                ActionView::EditVariable(VariableView { value, ..variable }, edit_type),
                sender,
            ),
            Err(e) => answered(error_text(e)),
        },
    }
}

/// The message that an alias makes of its rendered template.
pub open spec fn alias_message(message: MessageView, text: Seq<char>) -> MessageView {
    MessageView { sender: message.sender, text, source: Source::Admin }
}

/// `registry_after` and `next` are what follows when the host answers
/// `reply` at the stage `stage`. Only a write that was attempted changes the
/// registry. An answer that the stage did not ask for ends the message.
pub open spec fn resumed(
    registry: Map<Seq<char>, CommandView>,
    stage: StageView,
    reply: ReplyView,
    registry_after: Map<Seq<char>, CommandView>,
    next: (StageView, RequestView),
) -> bool {
    match (stage, reply) {
        (StageView::Checking(command, message, action), ReplyView::Variable(stored)) => {
            &&& registry_after == registry
            &&& next == match refusal(registry, action, stored) {
                Some(e) => answered(error_text(e)),
                None => rendering(command, message, Some(action)),
            }
        },
        (StageView::Rendering(command, message, action), ReplyView::Scripts(results)) => {
            let text = rendered(
                command.response,
                text_after_trigger(message.text, command.trigger),
                message.sender,
                results,
            );
            &&& registry_after == registry
            &&& if command.is_alias {
                match resolved(registry, text) {
                    None => next == answered(error_text(ActionErrorView::BadCommandAlias)),
                    Some(target) => processed(
                        registry,
                        target,
                        alias_message(message, text),
                        next,
                    ),
                }
            } else {
                next == finishing(text, action, message.sender)
            }
        },
        (
            StageView::Editing(response, variable, edit_type, sender),
            ReplyView::Variable(stored),
        ) => {
            &&& registry_after == registry
            &&& next == edit_computed(response, variable, edit_type, sender, stored)
        },
        (StageView::Persisting(response, action, sender), ReplyView::Persisted) => {
            &&& registry_after == applied(registry, action)
            &&& next == (
                StageView::Finished,
                RequestView::Done(Some(response), Some(event_of(action, sender))),
            )
        },
        _ => registry_after == registry && next == passed_over(),
    }
}

/// The rendered template of an alias is resolved again as a message of the
/// same sender: where it calls no command the answer is that the alias is
/// bad, and where it calls one, that command is dealt with.
pub proof fn lemma_alias_is_resolved_again(
    registry: Map<Seq<char>, CommandView>,
    command: CommandView,
    message: MessageView,
    action: Option<ActionView>,
    results: Seq<Seq<char>>,
    registry_after: Map<Seq<char>, CommandView>,
    next: (StageView, RequestView),
)
    requires
        command.is_alias,
        resumed(
            registry,
            StageView::Rendering(command, message, action),
            ReplyView::Scripts(results),
            registry_after,
            next,
        ),
    ensures
        registry_after == registry,
        ({
            let text = rendered(
                command.response,
                text_after_trigger(message.text, command.trigger),
                message.sender,
                results,
            );
            match resolved(registry, text) {
                None => next == answered(error_text(ActionErrorView::BadCommandAlias)),
                Some(target) => processed(registry, target, alias_message(message, text), next),
            }
        }),
{
}

impl Bot {
    /// The request to run the scripts of the template of `command`.
    fn render(&self, command: &Command, message: &Message, action: Option<Action>) -> (r: (
        Stage,
        Request,
    ))
        ensures
            (r.0@, r.1@) == rendering(command@, message@, option_view(action)),
    {
        let scripts = command.scripts(message);
        (
            Stage::Rendering(command.clone(), message.clone(), action),
            Request::RunScripts(scripts, command.database_path.clone()),
        )
    }

    /// What follows once the validator of `command`, if it has one, has
    /// answered `proposal`.
    pub fn enter(
        &self,
        command: &Command,
        message: &Message,
        proposal: Option<Result<Action, ActionError>>,
    ) -> (r: (Stage, Request))
        requires
            self.wf(),
        ensures
            (r.0@, r.1@) == entered(self.commands@, command@, message@, answer_view(proposal)),
    {
        match proposal {
            None => self.render(command, message, None),
            Some(Err(e)) => (
                Stage::Finished,
                Request::Done(Some(BotMessage { text: e.describe() }), None),
            ),
            Some(Ok(action)) => {
                let name = match &action {
                    Action::AddVariable(v) => Some(v.name.clone()),
                    Action::EditVariable(v, _) => Some(v.name.clone()),
                    Action::DeleteVariable(v) => Some(v.name.clone()),
                    _ => None,
                };
                match name {
                    Some(name) => (
                        Stage::Checking(command.clone(), message.clone(), action),
                        Request::Lookup(name),
                    ),
                    None => {
                        let stored: Option<Variable> = None;
                        match self.check_action(&action, &stored) {
                            Some(e) => (
                                Stage::Finished,
                                Request::Done(Some(BotMessage { text: e.describe() }), None),
                            ),
                            None => self.render(command, message, Some(action)),
                        }
                    },
                }
            },
        }
    }

    /// What follows when `message` has called `command`: its validator, if
    /// it has one, proposes an action, which is judged; then the template is
    /// rendered.
    pub fn process_command(&self, command: &Command, message: &Message) -> (r: (Stage, Request))
        requires
            self.wf(),
        ensures
            processed(self.commands@, command@, message@, (r.0@, r.1@)),
    {
        let proposal = match &command.actor {
            None => None,
            Some(actor) => Some(actor.validate(command, message)),
        };
        assert(proposal_for(command@, message@, answer_view(proposal)));
        self.enter(command, message, proposal)
    }

    /// Takes up a message: finds the command it calls and begins to deal
    /// with it. A message of the bot itself, or one that calls no command,
    /// is passed over.
    pub fn respond(&self, message: &Message) -> (r: (Stage, Request))
        requires
            self.wf(),
        ensures
            responded(self.username@, self.commands@, message@, (r.0@, r.1@)),
    {
        if message.sender.username == self.username {
            return (Stage::Finished, Request::Done(None, None));
        }
        match self.get_triggered_command(&message.text) {
            None => (Stage::Finished, Request::Done(None, None)),
            Some(command) => self.process_command(command, message),
        }
    }

    /// Goes on with a message where the host has answered a request. The
    /// registry changes only when a write to the store was attempted before.
    pub fn resume(&mut self, stage: Stage, reply: Reply) -> (r: (Stage, Request))
        requires
            old(self).wf(),
        ensures
            final(self).wf(),
            final(self).username == old(self).username,
            resumed(old(self).commands@, stage@, reply@, final(self).commands@, (r.0@, r.1@)),
    {
        match (stage, reply) {
            (Stage::Checking(command, message, action), Reply::Variable(stored)) => {
                match self.check_action(&action, &stored) {
                    Some(e) => (
                        Stage::Finished,
                        Request::Done(Some(BotMessage { text: e.describe() }), None),
                    ),
                    None => self.render(&command, &message, Some(action)),
                }
            },
            (Stage::Rendering(command, message, action), Reply::Scripts(results)) => {
                let response = command.respond_no_check(&message, &results);
                if command.is_alias {
                    let text = response.text;
                    match self.get_triggered_command(&text) {
                        None => (
                            Stage::Finished,
                            Request::Done(
                                Some(BotMessage { text: ActionError::BadCommandAlias.describe() }),
                                None,
                            ),
                        ),
                        Some(target) => {
                            let next = Message {
                                sender: message.sender.clone(),
                                text,
                                source: Source::Admin,
                            };
                            self.process_command(target, &next)
                        },
                    }
                } else {
                    match action {
                        None => (Stage::Finished, Request::Done(Some(response), None)),
                        Some(Action::EditVariable(variable, edit_type)) => match edit_type {
                            EditType::Overwrite() => {
                                let action = Action::EditVariable(variable, edit_type);
                                (
                                    Stage::Persisting(
                                        response,
                                        action.clone(),
                                        message.sender.clone(),
                                    ),
                                    Request::Persist(action),
                                )
                            },
                            _ => {
                                let name = variable.name.clone();
                                (
                                    Stage::Editing(
                                        response,
                                        variable,
                                        edit_type,
                                        message.sender.clone(),
                                    ),
                                    Request::Lookup(name),
                                )
                            },
                        },
                        Some(action) => (
                            Stage::Persisting(response, action.clone(), message.sender.clone()),
                            Request::Persist(action),
                        ),
                    }
                }
            },
            (Stage::Editing(response, variable, edit_type, sender), Reply::Variable(stored)) => {
                match stored {
                    None => {
                        let action = Action::EditVariable(variable, edit_type);
                        (Stage::Persisting(response, action.clone(), sender), Request::Persist(action))
                    },
                    Some(old) => match apply_edit(&old.value, &variable.value, edit_type) {
                        Ok(value) => {
                            let action = Action::EditVariable(
                                Variable {
                                    id: variable.id,
                                    time_created: variable.time_created,
                                    time_modified: variable.time_modified,
                                    name: variable.name,
                                    value,
                                },
                                edit_type,
                            );
                            (
                                Stage::Persisting(response, action.clone(), sender),
                                Request::Persist(action),
                            )
                        },
                        Err(e) => (
                            Stage::Finished,
                            Request::Done(Some(BotMessage { text: e.describe() }), None),
                        ),
                    },
                }
            },
            (Stage::Persisting(response, action, sender), Reply::Persisted) => {
                let event = match action {
                    Action::AddCommand(c) => {
                        self.commands.update_command(&c);
                        BotEvent::AddCommand(c, sender)
                    },
                    Action::EditCommand(c) => {
                        self.commands.update_command(&c);
                        BotEvent::EditCommand(c, sender)
                    },
                    Action::DeleteCommand(c) => {
                        self.commands.delete_command(&c);
                        BotEvent::DeleteCommand(c, sender)
                    },
                    Action::AddVariable(v) => BotEvent::AddVariable(v, sender),
                    Action::EditVariable(v, _) => BotEvent::EditVariable(v, sender),
                    Action::DeleteVariable(v) => BotEvent::DeleteVariable(v, sender),
                };
                (Stage::Finished, Request::Done(Some(response), Some(event)))
            },
            _ => (Stage::Finished, Request::Done(None, None)),
        }
    }
}

} // verus!
