//! The events that pass between the parts of the bot, what they read as in a
//! log, and which of them bring a message to the engine.

use crate::admin::AdminEvent;
use crate::bot::{BotEvent, BotEventView};
use crate::models::{
    debug_quoted, quote, Message, MessageView, Source, StringItem, StringItemView, User,
    VariableValue, VariableValueView,
};
use crate::number::{integer_chars, integer_text};
use crate::text::from_chars;
use vstd::prelude::*;

verus! {

/// What the chat of the streaming platform tells.
#[derive(Debug)]
pub enum TwitchEvent {
    /// The connection stands.
    Ready,
    /// Someone wrote in the channel: who, and what.
    PrivMsg(String, String),
}

/// What the chat of the community platform tells.
#[derive(Debug)]
pub enum DiscordEvent {
    /// The connection stands.
    Ready,
    /// Someone wrote in a channel: who, and what.
    Message(String, String),
}

/// An event on the bus.
#[derive(Debug)]
pub enum Event {
    BotEvent(BotEvent),
    TwitchEvent(TwitchEvent),
    DiscordEvent(DiscordEvent),
    AdminEvent(AdminEvent),
}

/// An event as plain values.
pub enum EventView {
    BotEvent(BotEventView),
    TwitchReady,
    TwitchMessage(Seq<char>, Seq<char>),
    DiscordReady,
    DiscordMessage(Seq<char>, Seq<char>),
    AdminMessage(Seq<char>),
}

impl View for Event {
    type V = EventView;

    open spec fn view(&self) -> EventView {
        match self {
            Event::BotEvent(e) => EventView::BotEvent(e@),
            Event::TwitchEvent(TwitchEvent::Ready) => EventView::TwitchReady,
            Event::TwitchEvent(TwitchEvent::PrivMsg(user, text)) => EventView::TwitchMessage(
                user@,
                text@,
            ),
            Event::DiscordEvent(DiscordEvent::Ready) => EventView::DiscordReady,
            Event::DiscordEvent(DiscordEvent::Message(author, content)) => {
                EventView::DiscordMessage(author@, content@)
            },
            Event::AdminEvent(e) => EventView::AdminMessage(e@),
        }
    }
}

/// The name under which the administrator speaks.
pub const ADMIN_USERNAME: &'static str = "Stovoy";

/// The message that an event brings to the engine, if it brings one: what
/// someone wrote in a chat, or what the administrator typed.
pub open spec fn message_of(event: EventView) -> Option<MessageView> {
    match event {
        EventView::TwitchMessage(user, text) => Some(
            MessageView { sender: user, text, source: Source::Twitch },
        ),
        EventView::DiscordMessage(author, content) => Some(
            MessageView { sender: author, text: content, source: Source::Discord },
        ),
        EventView::AdminMessage(text) => Some(
            MessageView { sender: ADMIN_USERNAME@, text, source: Source::Admin },
        ),
        _ => None,
    }
}

/// The message that an event brings to the engine, if it brings one.
pub fn receive(event: &Event) -> (r: Option<Message>)
    ensures
        crate::bot::option_view(r) == message_of(event@),
{
    match event {
        Event::BotEvent(_) => None,
        Event::TwitchEvent(TwitchEvent::Ready) => None,
        Event::TwitchEvent(TwitchEvent::PrivMsg(user, text)) => Some(
            Message {
                sender: User { username: user.clone() },
                text: text.clone(),
                source: Source::Twitch,
            },
        ),
        Event::DiscordEvent(DiscordEvent::Ready) => None,
        Event::DiscordEvent(DiscordEvent::Message(author, content)) => Some(
            Message {
                sender: User { username: author.clone() },
                text: content.clone(),
                source: Source::Discord,
            },
        ),
        Event::AdminEvent(AdminEvent::Message(text)) => Some(
            Message {
                sender: User { username: ADMIN_USERNAME.to_string() },
                text: text.clone(),
                source: Source::Admin,
            },
        ),
    }
}

pub const ITEM_OPEN: &'static str = "StringItem { time_created: Timespec { sec: ";

pub const ITEM_NSEC: &'static str = ", nsec: ";

pub const ITEM_VALUE: &'static str = " }, value: ";

pub const ITEM_CLOSE: &'static str = " }";

pub const LIST_OPEN: &'static str = "[";

pub const LIST_SEPARATOR: &'static str = ", ";

pub const LIST_CLOSE: &'static str = "]";

/// An item of a list as a log shows it.
pub open spec fn item_text(item: StringItemView) -> Seq<char> {
    ITEM_OPEN@ + integer_text(item.time_created.sec as int) + ITEM_NSEC@ + integer_text(
        item.time_created.nsec as int,
    ) + ITEM_VALUE@ + debug_quoted(item.value) + ITEM_CLOSE@
}

/// The items of a list as a log shows them, a comma and a space between
/// each two.
pub open spec fn items_text(items: Seq<StringItemView>) -> Seq<char>
    decreases items.len(),
{
    if items.len() == 0 {
        Seq::empty()
    } else if items.len() == 1 {
        item_text(items[0])
    } else {
        items_text(items.drop_last()) + LIST_SEPARATOR@ + item_text(items.last())
    }
}

/// A value as a log shows it: a text as it is, a list between square
/// brackets.
pub open spec fn value_text(value: VariableValueView) -> Seq<char> {
    match value {
        VariableValueView::Text(text) => text,
        VariableValueView::StringList(items) => LIST_OPEN@ + items_text(items) + LIST_CLOSE@,
    }
}

/// Appends an item to `out` as a log shows it.
fn write_item(out: &mut String, item: &StringItem)
    ensures
        final(out)@ == old(out)@ + item_text(item@),
{
    out.append(ITEM_OPEN);
    let sec = from_chars(&integer_chars(item.time_created.sec));
    out.append(sec.as_str());
    out.append(ITEM_NSEC);
    let nsec = from_chars(&integer_chars(item.time_created.nsec as i64));
    out.append(nsec.as_str());
    out.append(ITEM_VALUE);
    let quoted = quote(item.value.as_str());
    out.append(quoted.as_str());
    out.append(ITEM_CLOSE);
    assert(out@ =~= old(out)@ + item_text(item@));
}

/// A value as a log shows it.
pub fn describe_value(value: &VariableValue) -> (r: String)
    ensures
        r@ == value_text(value@),
{
    match value {
        VariableValue::Text(text) => text.clone(),
        VariableValue::StringList(items) => {
            let mut out = LIST_OPEN.to_string();
            let ghost views = crate::models::items_view(items@);
            let mut i: usize = 0;
            assert(views.subrange(0, 0) =~= Seq::<StringItemView>::empty());
            assert(out@ =~= LIST_OPEN@ + items_text(views.subrange(0, 0)));
            while i < items.len()
                invariant
                    i <= items.len(),
                    views == crate::models::items_view(items@),
                    out@ == LIST_OPEN@ + items_text(views.subrange(0, i as int)),
                decreases items.len() - i,
            {
                let ghost before = out@;
                if i > 0 {
                    out.append(LIST_SEPARATOR);
                }
                write_item(&mut out, &items[i]);
                i = i + 1;
                proof {
                    let prefix = views.subrange(0, i as int);
                    assert(prefix.drop_last() =~= views.subrange(0, i - 1));
                    assert(prefix.last() == items@[i - 1]@);
                    if i == 1 {
                        assert(items_text(views.subrange(0, 0)) =~= Seq::<char>::empty());
                        assert(prefix[0] == items@[0]@);
                    }
                    assert(out@ =~= LIST_OPEN@ + items_text(prefix));
                }
            }
            assert(views.subrange(0, i as int) =~= views);
            out.append(LIST_CLOSE);
            out
        },
    }
}

pub const LOAD_COMMAND: &'static str = "Load Command: ";

pub const ADD_COMMAND: &'static str = "Add Command by ";

pub const EDIT_COMMAND: &'static str = "Edit Command by ";

pub const DELETE_COMMAND: &'static str = "Delete Command by ";

pub const LOAD_VARIABLE: &'static str = "Load Variable: ";

pub const ADD_VARIABLE: &'static str = "Add Variable by ";

pub const EDIT_VARIABLE: &'static str = "Edit Variable by ";

pub const DELETE_VARIABLE: &'static str = "Delete Variable by ";

pub const COLON: &'static str = ": ";

pub const TWITCH_READY: &'static str = "Twitch - Ready";

pub const DISCORD_READY: &'static str = "Discord - Ready";

/// An event of the engine as a log shows it.
pub open spec fn bot_event_text(event: BotEventView) -> Seq<char> {
    match event {
        BotEventView::LoadCommand(c) => LOAD_COMMAND@ + c.trigger + COLON@ + c.response,
        BotEventView::AddCommand(c, u) => ADD_COMMAND@ + u + COLON@ + c.trigger + COLON@
            + c.response,
        BotEventView::EditCommand(c, u) => EDIT_COMMAND@ + u + COLON@ + c.trigger + COLON@
            + c.response,
        BotEventView::DeleteCommand(c, u) => DELETE_COMMAND@ + u + COLON@ + c.trigger,
        BotEventView::LoadVariable(v) => LOAD_VARIABLE@ + v.name + COLON@ + value_text(v.value),
        BotEventView::AddVariable(v, u) => ADD_VARIABLE@ + u + COLON@ + v.name + COLON@
            + value_text(v.value),
        BotEventView::EditVariable(v, u) => EDIT_VARIABLE@ + u + COLON@ + v.name + COLON@
            + value_text(v.value),
        BotEventView::DeleteVariable(v, u) => DELETE_VARIABLE@ + u + COLON@ + v.name,
    }
}

/// An event as a log shows it.
pub open spec fn event_text(event: EventView) -> Seq<char> {
    match event {
        EventView::BotEvent(e) => bot_event_text(e),
        EventView::TwitchReady => TWITCH_READY@,
        EventView::TwitchMessage(user, text) => user + COLON@ + text,
        EventView::DiscordReady => DISCORD_READY@,
        EventView::DiscordMessage(author, content) => author + COLON@ + content,
        EventView::AdminMessage(text) => text,
    }
}

/// `head`, then each of the three parts behind a colon and a space. A part
/// that is `None` is left out with its colon.
fn line(head: &str, first: &str, second: Option<&str>, third: Option<&str>) -> (r: String)
    ensures
        r@ == head@ + first@ + (match second {
            Some(s) => COLON@ + s@,
            None => Seq::empty(),
        }) + (match third {
            Some(t) => COLON@ + t@,
            None => Seq::empty(),
        }),
{
    let mut out = head.to_string();
    out.append(first);
    match second {
        Some(s) => {
            out.append(COLON);
            out.append(s);
        },
        None => {},
    }
    match third {
        Some(t) => {
            out.append(COLON);
            out.append(t);
        },
        None => {},
    }
    assert(out@ =~= head@ + first@ + (match second {
        Some(s) => COLON@ + s@,
        None => Seq::empty(),
    }) + (match third {
        Some(t) => COLON@ + t@,
        None => Seq::empty(),
    }));
    out
}

impl BotEvent {
    /// The event as a log shows it.
    pub fn describe(&self) -> (r: String)
        ensures
            r@ == bot_event_text(self@),
    {
        let r = match self {
            BotEvent::LoadCommand(c) => line(
                LOAD_COMMAND,
                c.trigger.as_str(),
                Some(c.response.as_str()),
                None,
            ),
            BotEvent::AddCommand(c, u) => line(
                ADD_COMMAND,
                u.username.as_str(),
                Some(c.trigger.as_str()),
                Some(c.response.as_str()),
            ),
            BotEvent::EditCommand(c, u) => line(
                EDIT_COMMAND,
                u.username.as_str(),
                Some(c.trigger.as_str()),
                Some(c.response.as_str()),
            ),
            BotEvent::DeleteCommand(c, u) => line(
                DELETE_COMMAND,
                u.username.as_str(),
                Some(c.trigger.as_str()),
                None,
            ),
            BotEvent::LoadVariable(v) => {
                let value = describe_value(&v.value);
                line(LOAD_VARIABLE, v.name.as_str(), Some(value.as_str()), None)
            },
            BotEvent::AddVariable(v, u) => {
                let value = describe_value(&v.value);
                line(
                    ADD_VARIABLE,
                    u.username.as_str(),
                    Some(v.name.as_str()),
                    Some(value.as_str()),
                )
            },
            BotEvent::EditVariable(v, u) => {
                let value = describe_value(&v.value);
                line(
                    EDIT_VARIABLE,
                    u.username.as_str(),
                    Some(v.name.as_str()),
                    Some(value.as_str()),
                )
            },
            BotEvent::DeleteVariable(v, u) => line(
                DELETE_VARIABLE,
                u.username.as_str(),
                Some(v.name.as_str()),
                None,
            ),
        };
        assert(r@ =~= bot_event_text(self@));
        r
    }
}

impl Event {
    /// The event as a log shows it.
    pub fn describe(&self) -> (r: String)
        ensures
            r@ == event_text(self@),
    {
        match self {
            Event::BotEvent(e) => e.describe(),
            Event::TwitchEvent(TwitchEvent::Ready) => TWITCH_READY.to_string(),
            Event::TwitchEvent(TwitchEvent::PrivMsg(user, text)) => {
                let mut out = user.clone();
                out.append(COLON);
                out.append(text.as_str());
                out
            },
            Event::DiscordEvent(DiscordEvent::Ready) => DISCORD_READY.to_string(),
            Event::DiscordEvent(DiscordEvent::Message(author, content)) => {
                let mut out = author.clone();
                out.append(COLON);
                out.append(content.as_str());
                out
            },
            Event::AdminEvent(AdminEvent::Message(text)) => text.clone(),
        }
    }
}

} // verus!
