//! The template interpreter and the command registry.
//!
//! A template is rendered in one pass over its tokens. Text goes to the
//! response, or to the script while a script block is open; a script block
//! that ends is replaced by the result of its script. Running a script is
//! not done here: `scripts` says which scripts a rendering needs, in order,
//! and `parse` renders with their results.

use crate::bot::BotMessage;
use crate::lexer::{lex, lex_from, lex_spec, token_at, token_text, Token};
use crate::models::{text_after_trigger, Command, CommandView, Message};
use crate::text::{
    after_word, append, find_space, from_chars, has_at, has_space, head_word, lemma_first_space,
    slice, starts_with, strings_view, to_chars,
};
use vstd::prelude::*;

verus! {

/// The interpreter between two tokens.
pub struct RenderState {
    /// The output so far.
    pub response: Seq<char>,
    /// The text of the script block that is open.
    pub script: Seq<char>,
    /// Whether a script block is open.
    pub in_script: bool,
    /// The arguments not yet taken by `$1` or `$2`; `None` once they ran out.
    pub args: Option<Seq<char>>,
    /// The scripts of the blocks that have ended, in order.
    pub scripts: Seq<Seq<char>>,
}

/// The argument that `$1` takes next: the text up to the next space, or
/// nothing once the arguments ran out.
pub open spec fn next_arg(args: Option<Seq<char>>) -> Seq<char> {
    match args {
        Some(s) => head_word(s),
        None => Seq::empty(),
    }
}

/// The arguments that are left when one was taken.
pub open spec fn args_after(args: Option<Seq<char>>) -> Option<Seq<char>> {
    match args {
        Some(s) => if has_space(s) {
            Some(after_word(s))
        } else {
            None
        },
        None => None,
    }
}

/// `text` goes to the script while a block is open, else to the response.
pub open spec fn emit(st: RenderState, text: Seq<char>) -> RenderState {
    if st.in_script {
        RenderState { script: st.script + text, ..st }
    } else {
        RenderState { response: st.response + text, ..st }
    }
}

/// The result of the `i`-th script of a rendering; a result that was not
/// supplied counts as empty.
pub open spec fn script_result(results: Seq<Seq<char>>, i: int) -> Seq<char> {
    if 0 <= i < results.len() {
        results[i]
    } else {
        Seq::empty()
    }
}

/// The open script block ends: its result goes to the response.
pub open spec fn end_script(st: RenderState, results: Seq<Seq<char>>) -> RenderState {
    RenderState {
        response: st.response + script_result(results, st.scripts.len() as int),
        script: Seq::empty(),
        in_script: false,
        args: st.args,
        scripts: st.scripts.push(st.script),
    }
}

/// What `$year` stands for.
pub const YEAR_PLACEHOLDER: &'static str = "YEAR";

/// The interpreter after one more token.
pub open spec fn step(
    st: RenderState,
    t: Token,
    user: Seq<char>,
    results: Seq<Seq<char>>,
) -> RenderState {
    match t {
        Token::Other(c) => emit(st, seq![c]),
        Token::ArgOne => RenderState { args: args_after(st.args), ..emit(st, next_arg(st.args)) },
        Token::ArgTwo => RenderState {
            args: args_after(args_after(st.args)),
            ..emit(st, next_arg(args_after(st.args)))
        },
        Token::User => emit(st, user),
        Token::Year => emit(st, YEAR_PLACEHOLDER@),
        Token::ScriptStart => if st.in_script {
            emit(st, token_text(t))
        } else {
            RenderState { script: Seq::empty(), in_script: true, ..st }
        },
        Token::ScriptEnd => if st.in_script {
            end_script(st, results)
        } else {
            emit(st, token_text(t))
        },
        Token::ScriptEndAndExtra => if st.in_script {
            let ended = end_script(st, results);
            RenderState { response: ended.response.push('}'), ..ended }
        } else {
            emit(st, token_text(t))
        },
    }
}

/// The interpreter before the first token, with the arguments `args`.
pub open spec fn start(args: Seq<char>) -> RenderState {
    RenderState {
        response: Seq::empty(),
        script: Seq::empty(),
        in_script: false,
        args: Some(args),
        scripts: Seq::empty(),
    }
}

/// The interpreter after all of `tokens`.
pub open spec fn run(
    tokens: Seq<Token>,
    args: Seq<char>,
    user: Seq<char>,
    results: Seq<Seq<char>>,
) -> RenderState
    decreases tokens.len(),
{
    if tokens.len() == 0 {
        start(args)
    } else {
        step(run(tokens.drop_last(), args, user, results), tokens.last(), user, results)
    }
}

/// The output at the end of the template: a script block that never ended
/// is put out as it was written.
pub open spec fn finish(st: RenderState) -> Seq<char> {
    if st.in_script {
        st.response + st.script
    } else {
        st.response
    }
}

/// The rendering of `template` for the arguments `args` and the sender
/// `user`, where the scripts gave `results`.
pub open spec fn rendered(
    template: Seq<char>,
    args: Seq<char>,
    user: Seq<char>,
    results: Seq<Seq<char>>,
) -> Seq<char> {
    finish(run(lex_spec(template), args, user, results))
}

/// The scripts that a rendering of `template` runs, in order.
pub open spec fn scripts_of(template: Seq<char>, args: Seq<char>, user: Seq<char>) -> Seq<
    Seq<char>,
> {
    run(lex_spec(template), args, user, Seq::empty()).scripts
}

/// Whether a message with the text `text` calls the trigger `trigger`: it is
/// the trigger, or begins with the trigger and a space.
pub open spec fn trigger_matches(text: Seq<char>, trigger: Seq<char>) -> bool {
    text == trigger || starts_with(text, trigger.push(' '))
}

/// Plain substitution: the output for `tokens` where every token stands for
/// its text, but `$1`, `$2`, `$user` and `$year`, which stand for what they
/// name; with it, the arguments that are left.
pub open spec fn substituted(tokens: Seq<Token>, args: Seq<char>, user: Seq<char>) -> (
    Seq<char>,
    Option<Seq<char>>,
)
    decreases tokens.len(),
{
    if tokens.len() == 0 {
        (Seq::empty(), Some(args))
    } else {
        let (out, left) = substituted(tokens.drop_last(), args, user);
        match tokens.last() {
            Token::ArgOne => (out + next_arg(left), args_after(left)),
            Token::ArgTwo => (out + next_arg(args_after(left)), args_after(args_after(left))),
            Token::User => (out + user, left),
            Token::Year => (out + YEAR_PLACEHOLDER@, left),
            t => (out + token_text(t), left),
        }
    }
}

/// Without a token that opens a script block the interpreter never enters
/// one: it ends no script and its response is the plain substitution.
pub proof fn lemma_run_without_script(
    tokens: Seq<Token>,
    args: Seq<char>,
    user: Seq<char>,
    results: Seq<Seq<char>>,
)
    requires
        !tokens.contains(Token::ScriptStart),
    ensures
        !run(tokens, args, user, results).in_script,
        run(tokens, args, user, results).scripts == Seq::<Seq<char>>::empty(),
        run(tokens, args, user, results).response == substituted(tokens, args, user).0,
        run(tokens, args, user, results).args == substituted(tokens, args, user).1,
    decreases tokens.len(),
{
    if tokens.len() > 0 {
        let head = tokens.drop_last();
        assert forall|i: int| 0 <= i < head.len() implies head[i] != Token::ScriptStart by {
            assert(tokens.contains(tokens[i]));
        }
        assert(tokens.contains(tokens.last()));
        lemma_run_without_script(head, args, user, results);
        let st = run(head, args, user, results);
        if tokens.last() is Other {
            assert(token_text(tokens.last()) =~= seq![tokens.last()->0]);
        }
    }
}

/// Every token of a template is read at some position of it.
pub proof fn lemma_tokens_come_from_positions(s: Seq<char>, i: int, k: int)
    requires
        0 <= i,
        0 <= k < lex_from(s, i).len(),
    ensures
        exists|j: int| i <= j < s.len() && lex_from(s, i)[k] == #[trigger] token_at(s, j),
    decreases s.len() - i,
{
    if k > 0 {
        let n = token_text(token_at(s, i)).len() as int;
        lemma_tokens_come_from_positions(s, i + n, k - 1);
        let j = choose|j: int| i + n <= j < s.len() && lex_from(s, i + n)[k - 1] == token_at(s, j);
        assert(lex_from(s, i)[k] == token_at(s, j));
    }
}

/// A template in which `{{` does not occur is rendered by plain
/// substitution: no script is run, and the results handed in play no part.
pub proof fn lemma_no_script_is_substitution(
    template: Seq<char>,
    args: Seq<char>,
    user: Seq<char>,
    results: Seq<Seq<char>>,
)
    requires
        forall|j: int| !has_at(template, j, token_text(Token::ScriptStart)),
    ensures
        scripts_of(template, args, user) == Seq::<Seq<char>>::empty(),
        rendered(template, args, user, results) == substituted(lex_spec(template), args, user).0,
{
    let tokens = lex_spec(template);
    assert forall|k: int| 0 <= k < tokens.len() implies tokens[k] != Token::ScriptStart by {
        lemma_tokens_come_from_positions(template, 0, k);
    }
    lemma_run_without_script(tokens, args, user, results);
    lemma_run_without_script(tokens, args, user, Seq::empty());
}

/// The interpreter as the executable code holds it.
struct Interpreter {
    response: Vec<char>,
    script: Vec<char>,
    in_script: bool,
    args: Vec<char>,
    position: usize,
    exhausted: bool,
    scripts: Vec<String>,
}

impl Interpreter {
    spec fn wf(&self) -> bool {
        self.position <= self.args.len()
    }

    spec fn state(&self) -> RenderState {
        RenderState {
            response: self.response@,
            script: self.script@,
            in_script: self.in_script,
            args: if self.exhausted {
                None
            } else {
                Some(self.args@.skip(self.position as int))
            },
            scripts: strings_view(self.scripts@),
        }
    }

    fn new(args: Vec<char>) -> (r: Interpreter)
        ensures
            r.wf(),
            r.state() == start(args@),
    {
        let r = Interpreter {
            response: Vec::new(),
            script: Vec::new(),
            in_script: false,
            args,
            position: 0,
            exhausted: false,
            scripts: Vec::new(),
        };
        assert(r.args@.skip(0) =~= r.args@);
        assert(strings_view(r.scripts@) =~= Seq::<Seq<char>>::empty());
        r
    }

    fn emit(&mut self, text: &Vec<char>)
        requires
            old(self).wf(),
        ensures
            final(self).wf(),
            final(self).state() == emit(old(self).state(), text@),
    {
        if self.in_script {
            append(&mut self.script, text);
        } else {
            append(&mut self.response, text);
        }
    }

    /// Takes the next argument.
    fn take_arg(&mut self) -> (word: Vec<char>)
        requires
            old(self).wf(),
        ensures
            final(self).wf(),
            word@ == next_arg(old(self).state().args),
            final(self).state() == (RenderState {
                args: args_after(old(self).state().args),
                ..old(self).state()
            }),
    {
        if self.exhausted {
            return Vec::new();
        }
        let ghost rest = self.args@.skip(self.position as int);
        let end = find_space(&self.args, self.position);
        let word = slice(&self.args, self.position, end);
        proof {
            lemma_first_space(rest);
            assert(word@ =~= head_word(rest));
        }
        if end < self.args.len() {
            assert(self.args@.skip(end + 1) =~= after_word(rest));
            self.position = end + 1;
        } else {
            self.exhausted = true;
        }
        word
    }

    fn end_script(&mut self, results: &Vec<String>)
        requires
            old(self).wf(),
            old(self).in_script,
        ensures
            final(self).wf(),
            final(self).state() == end_script(old(self).state(), strings_view(results@)),
    {
        let n = self.scripts.len();
        let ghost before = self.state();
        if n < results.len() {
            let result = to_chars(results[n].as_str());
            append(&mut self.response, &result);
        }
        assert(self.response@ =~= before.response + script_result(
            strings_view(results@),
            n as int,
        ));
        let text = from_chars(&self.script);
        self.scripts.push(text);
        self.script = Vec::new();
        self.in_script = false;
        assert(strings_view(self.scripts@) =~= before.scripts.push(before.script));
    }

    fn step(&mut self, t: Token, user: &Vec<char>, results: &Vec<String>)
        requires
            old(self).wf(),
        ensures
            final(self).wf(),
            final(self).state() == step(old(self).state(), t, user@, strings_view(results@)),
    {
        match t {
            Token::Other(c) => {
                let mut text: Vec<char> = Vec::new();
                text.push(c);
                assert(text@ =~= seq![c]);
                self.emit(&text);
            },
            Token::ArgOne => {
                let word = self.take_arg();
                self.emit(&word);
            },
            Token::ArgTwo => {
                let _ = self.take_arg();
                let word = self.take_arg();
                self.emit(&word);
            },
            Token::User => {
                self.emit(user);
            },
            Token::Year => {
                let text = to_chars(YEAR_PLACEHOLDER);
                self.emit(&text);
            },
            Token::ScriptStart => {
                if self.in_script {
                    let mut text: Vec<char> = Vec::new();
                    text.push('{');
                    text.push('{');
                    assert(text@ =~= token_text(t));
                    self.emit(&text);
                } else {
                    self.script = Vec::new();
                    self.in_script = true;
                }
            },
            Token::ScriptEnd => {
                if self.in_script {
                    self.end_script(results);
                } else {
                    let mut text: Vec<char> = Vec::new();
                    text.push('}');
                    text.push('}');
                    assert(text@ =~= token_text(t));
                    self.emit(&text);
                }
            },
            Token::ScriptEndAndExtra => {
                if self.in_script {
                    self.end_script(results);
                    self.response.push('}');
                } else {
                    let mut text: Vec<char> = Vec::new();
                    text.push('}');
                    text.push('}');
                    text.push('}');
                    assert(text@ =~= token_text(t));
                    self.emit(&text);
                }
            },
        }
    }

    fn run(tokens: &Vec<Token>, args: Vec<char>, user: &Vec<char>, results: &Vec<String>) -> (r:
        Interpreter)
        ensures
            r.state() == run(tokens@, args@, user@, strings_view(results@)),
    {
        let mut r = Interpreter::new(args);
        let mut i: usize = 0;
        while i < tokens.len()
            invariant
                i <= tokens.len(),
                r.wf(),
                r.state() == run(
                    tokens@.subrange(0, i as int),
                    args@,
                    user@,
                    strings_view(results@),
                ),
            decreases tokens.len() - i,
        {
            r.step(tokens[i], user, results);
            i = i + 1;
            assert(tokens@.subrange(0, i as int).drop_last() =~= tokens@.subrange(0, i - 1));
        }
        assert(tokens@.subrange(0, i as int) =~= tokens@);
        r
    }
}

/// What a command does with a message.
pub trait CommandExt {
    /// Whether the message calls this command.
    fn matches_trigger(&self, message: &Message) -> bool;

    /// The answer to a message that calls this command.
    fn respond(&self, message: &Message, script_results: &Vec<String>) -> Option<BotMessage>;

    /// The answer to a message, whether or not it calls this command.
    fn respond_no_check(&self, message: &Message, script_results: &Vec<String>) -> BotMessage;

    /// The scripts that rendering the answer runs, in order.
    fn scripts(&self, message: &Message) -> Vec<String>;

    /// The template rendered for a message, given the results of its scripts.
    fn parse(&self, message: &Message, script_results: &Vec<String>) -> String;
}

impl CommandExt for Command {
    fn matches_trigger(&self, message: &Message) -> (r: bool)
        ensures
            r == trigger_matches(message.text@, self.trigger@),
    {
        let text = to_chars(message.text.as_str());
        let mut trigger = to_chars(self.trigger.as_str());
        if crate::text::same(&text, &trigger) {
            return true;
        }
        trigger.push(' ');
        crate::text::occurs_at(&text, 0, &trigger)
    }

    fn respond(&self, message: &Message, script_results: &Vec<String>) -> (r: Option<BotMessage>)
        ensures
            r is Some == trigger_matches(message.text@, self.trigger@),
            r is Some ==> r->0@ == rendered(
                self.response@,
                text_after_trigger(message.text@, self.trigger@),
                message.sender@,
                strings_view(script_results@),
            ),
    {
        if self.matches_trigger(message) {
            Some(self.respond_no_check(message, script_results))
        } else {
            None
        }
    }

    fn respond_no_check(&self, message: &Message, script_results: &Vec<String>) -> (r: BotMessage)
        ensures
            r@ == rendered(
                self.response@,
                text_after_trigger(message.text@, self.trigger@),
                message.sender@,
                strings_view(script_results@),
            ),
    {
        BotMessage { text: self.parse(message, script_results) }
    }

    fn scripts(&self, message: &Message) -> (r: Vec<String>)
        ensures
            strings_view(r@) == scripts_of(
                self.response@,
                text_after_trigger(message.text@, self.trigger@),
                message.sender@,
            ),
    {
        let args = to_chars(message.after_trigger(self.trigger.as_str()));
        let user = to_chars(message.sender.username.as_str());
        let tokens = lex(self.response.as_str());
        let none: Vec<String> = Vec::new();
        assert(strings_view(none@) =~= Seq::<Seq<char>>::empty());
        let end = Interpreter::run(&tokens, args, &user, &none);
        end.scripts
    }

    fn parse(&self, message: &Message, script_results: &Vec<String>) -> (r: String)
        ensures
            r@ == rendered(
                self.response@,
                text_after_trigger(message.text@, self.trigger@),
                message.sender@,
                strings_view(script_results@),
            ),
    {
        let args = to_chars(message.after_trigger(self.trigger.as_str()));
        let user = to_chars(message.sender.username.as_str());
        let tokens = lex(self.response.as_str());
        let mut end = Interpreter::run(&tokens, args, &user, script_results);
        if end.in_script {
            append(&mut end.response, &end.script);
        }
        from_chars(&end.response)
    }
}

/// The registry that a list of commands makes: each command under its
/// trigger, a later one in place of an earlier one with the same trigger.
pub open spec fn registry_of(s: Seq<Command>) -> Map<Seq<char>, CommandView>
    decreases s.len(),
{
    if s.len() == 0 {
        Map::empty()
    } else {
        registry_of(s.drop_last()).insert(s.last()@.trigger, s.last()@)
    }
}

/// No two commands of `s` have the same trigger.
pub open spec fn distinct_triggers(s: Seq<Command>) -> bool {
    forall|i: int, j: int| 0 <= i < j < s.len() ==> s[i]@.trigger != s[j]@.trigger
}

/// `t` is the trigger that the text `text` resolves to in `registry`: a
/// registered trigger that the text calls, and no registered trigger that the
/// text calls is longer.
pub open spec fn resolves_to(
    registry: Map<Seq<char>, CommandView>,
    text: Seq<char>,
    t: Seq<char>,
) -> bool {
    &&& registry.contains_key(t)
    &&& trigger_matches(text, t)
    &&& forall|u: Seq<char>| #[trigger]
        registry.contains_key(u) && trigger_matches(text, u) ==> u.len() <= t.len()
}

/// A text calls no trigger of the registry.
pub open spec fn resolves_to_nothing(registry: Map<Seq<char>, CommandView>, text: Seq<char>) -> bool {
    forall|u: Seq<char>| #[trigger] registry.contains_key(u) ==> !trigger_matches(text, u)
}

/// The command that a text resolves to in `registry`, if it calls one.
pub open spec fn resolved(registry: Map<Seq<char>, CommandView>, text: Seq<char>) -> Option<
    CommandView,
> {
    if exists|t: Seq<char>| resolves_to(registry, text, t) {
        Some(registry[choose|t: Seq<char>| resolves_to(registry, text, t)])
    } else {
        None
    }
}

/// A trigger that a text calls is a prefix of the text.
pub proof fn lemma_match_is_prefix(text: Seq<char>, t: Seq<char>)
    requires
        trigger_matches(text, t),
    ensures
        t.len() <= text.len(),
        text.subrange(0, t.len() as int) == t,
{
    if text == t {
        assert(text.subrange(0, t.len() as int) =~= t);
    } else {
        let p = t.push(' ');
        assert(text.subrange(0, p.len() as int) == p);
        assert(text.subrange(0, t.len() as int) =~= p.subrange(0, t.len() as int));
        assert(p.subrange(0, t.len() as int) =~= t);
    }
}

/// A text resolves to one trigger at most: two triggers of the same length
/// that it calls are the same.
pub proof fn lemma_resolution_is_unique(
    registry: Map<Seq<char>, CommandView>,
    text: Seq<char>,
    t1: Seq<char>,
    t2: Seq<char>,
)
    requires
        resolves_to(registry, text, t1),
        resolves_to(registry, text, t2),
    ensures
        t1 == t2,
{
    lemma_match_is_prefix(text, t1);
    lemma_match_is_prefix(text, t2);
}

/// Of two registered triggers that a text calls, the text does not resolve
/// to the shorter one.
pub proof fn lemma_longer_trigger_wins(
    registry: Map<Seq<char>, CommandView>,
    text: Seq<char>,
    shorter: Seq<char>,
    longer: Seq<char>,
)
    requires
        registry.contains_key(longer),
        trigger_matches(text, longer),
        shorter.len() < longer.len(),
    ensures
        !resolves_to(registry, text, shorter),
{
}

/// The triggers of a registry are those of the commands it was made of.
pub proof fn lemma_registry_keys(s: Seq<Command>, t: Seq<char>)
    ensures
        registry_of(s).contains_key(t) <==> exists|i: int|
            0 <= i < s.len() && #[trigger] s[i]@.trigger == t,
    decreases s.len(),
{
    if s.len() > 0 {
        let head = s.drop_last();
        lemma_registry_keys(head, t);
        if registry_of(s).contains_key(t) {
            if s.last()@.trigger == t {
                assert(s[s.len() - 1]@.trigger == t);
            } else {
                let i = choose|i: int| 0 <= i < head.len() && #[trigger] head[i]@.trigger == t;
                assert(s[i]@.trigger == t);
            }
        }
        if exists|i: int| 0 <= i < s.len() && #[trigger] s[i]@.trigger == t {
            let i = choose|i: int| 0 <= i < s.len() && #[trigger] s[i]@.trigger == t;
            if i < s.len() - 1 {
                assert(head[i]@.trigger == t);
            }
        }
    }
}

/// Where no trigger occurs twice, each command stands under its trigger.
pub proof fn lemma_registry_value(s: Seq<Command>, i: int)
    requires
        distinct_triggers(s),
        0 <= i < s.len(),
    ensures
        registry_of(s).contains_key(s[i]@.trigger),
        registry_of(s)[s[i]@.trigger] == s[i]@,
    decreases s.len(),
{
    if i < s.len() - 1 {
        let head = s.drop_last();
        assert(head[i] == s[i]);
        lemma_registry_value(head, i);
    }
}

/// Putting a command in the place of the one with its trigger is an insert.
proof fn lemma_registry_update(s: Seq<Command>, i: int, c: Command)
    requires
        distinct_triggers(s),
        0 <= i < s.len(),
        s[i]@.trigger == c@.trigger,
    ensures
        distinct_triggers(s.update(i, c)),
        registry_of(s.update(i, c)) =~= registry_of(s).insert(c@.trigger, c@),
    decreases s.len(),
{
    let u = s.update(i, c);
    let head = s.drop_last();
    if i == s.len() - 1 {
        assert(u.drop_last() =~= head);
    } else {
        assert(head[i] == s[i]);
        lemma_registry_update(head, i, c);
        assert(u.drop_last() =~= head.update(i, c));
        assert(u.last() == s.last());
        assert(s[s.len() - 1]@.trigger != s[i]@.trigger);
    }
}

/// Taking a command out of the list removes its trigger.
proof fn lemma_registry_remove(s: Seq<Command>, i: int)
    requires
        distinct_triggers(s),
        0 <= i < s.len(),
    ensures
        distinct_triggers(s.remove(i)),
        registry_of(s.remove(i)) =~= registry_of(s).remove(s[i]@.trigger),
    decreases s.len(),
{
    let r = s.remove(i);
    let head = s.drop_last();
    if i == s.len() - 1 {
        assert(r =~= head);
        assert forall|t: Seq<char>| registry_of(head).contains_key(t) implies t != s[i]@.trigger by {
            lemma_registry_keys(head, t);
        }
    } else {
        assert(head[i] == s[i]);
        lemma_registry_remove(head, i);
        assert(r.drop_last() =~= head.remove(i));
        assert(r.last() == s.last());
        assert(s[s.len() - 1]@.trigger != s[i]@.trigger);
    }
}

/// The command registry: at most one command under each trigger.
pub struct Commands {
    commands: Vec<Command>,
}

impl View for Commands {
    type V = Map<Seq<char>, CommandView>;

    closed spec fn view(&self) -> Map<Seq<char>, CommandView> {
        registry_of(self.commands@)
    }
}

impl Commands {
    /// No trigger is registered twice. Every registry that this module
    /// hands out is well formed, and its methods keep it so.
    pub closed spec fn wf(&self) -> bool {
        distinct_triggers(self.commands@)
    }

    /// The number of commands registered.
    pub closed spec fn count(&self) -> nat {
        self.commands@.len()
    }

    /// The position of the command with the trigger `trigger`.
    fn position(&self, trigger: &String) -> (r: Option<usize>)
        ensures
            r is Some == self@.contains_key(trigger@),
            r is Some ==> r->0 < self.commands.len() && self.commands@[r->0 as int]@.trigger
                == trigger@,
    {
        let mut i: usize = 0;
        while i < self.commands.len()
            invariant
                i <= self.commands.len(),
                forall|j: int| 0 <= j < i ==> self.commands@[j]@.trigger != trigger@,
            decreases self.commands.len() - i,
        {
            if self.commands[i].trigger == *trigger {
                proof {
                    lemma_registry_keys(self.commands@, trigger@);
                    assert(self.commands@[i as int]@.trigger == trigger@);
                }
                return Some(i);
            }
            i = i + 1;
        }
        proof {
            lemma_registry_keys(self.commands@, trigger@);
        }
        None
    }

    /// The registry of `commands`; of two with the same trigger the later
    /// one stays.
    pub fn new(commands: Vec<Command>) -> (r: Commands)
        ensures
            r.wf(),
            r@ == registry_of(commands@),
    {
        let mut r = Commands { commands: Vec::new() };
        let mut i: usize = 0;
        while i < commands.len()
            invariant
                i <= commands.len(),
                r.wf(),
                r@ == registry_of(commands@.subrange(0, i as int)),
            decreases commands.len() - i,
        {
            r.update_command(&commands[i]);
            i = i + 1;
            assert(commands@.subrange(0, i as int).drop_last() =~= commands@.subrange(0, i - 1));
        }
        assert(commands@.subrange(0, i as int) =~= commands@);
        r
    }

    /// The registered commands, each once, in no stated order.
    pub fn iter(&self) -> (r: Vec<Command>)
        requires
            self.wf(),
        ensures
            registry_of(r@) == self@,
            distinct_triggers(r@),
            r.len() == self.count(),
    {
        let mut r: Vec<Command> = Vec::new();
        let mut i: usize = 0;
        while i < self.commands.len()
            invariant
                i <= self.commands.len(),
                r.len() == i,
                forall|j: int| 0 <= j < i ==> r@[j]@ == self.commands@[j]@,
                registry_of(r@) == registry_of(self.commands@.subrange(0, i as int)),
            decreases self.commands.len() - i,
        {
            let ghost before = r@;
            r.push(self.commands[i].clone());
            i = i + 1;
            assert(r@.drop_last() =~= before);
            assert(self.commands@.subrange(0, i as int).drop_last() =~= self.commands@.subrange(
                0,
                i - 1,
            ));
        }
        assert(self.commands@.subrange(0, i as int) =~= self.commands@);
        r
    }

    /// Whether a command with the trigger of `command` is registered.
    pub fn contains(&self, command: &Command) -> (r: bool)
        ensures
            r == self@.contains_key(command@.trigger),
    {
        self.position(&command.trigger).is_some()
    }

    /// Registers `command` under its trigger, in place of the command that
    /// stood there, if any.
    pub fn update_command(&mut self, command: &Command)
        requires
            old(self).wf(),
        ensures
            final(self).wf(),
            final(self)@ == old(self)@.insert(command@.trigger, command@),
    {
        match self.position(&command.trigger) {
            Some(i) => {
                let c = command.clone();
                proof {
                    lemma_registry_update(self.commands@, i as int, c);
                }
                self.commands.set(i, c);
            },
            None => {
                let c = command.clone();
                proof {
                    assert forall|j: int| 0 <= j < self.commands@.len() implies self.commands@[j]@.trigger
                        != c@.trigger by {
                        lemma_registry_keys(self.commands@, c@.trigger);
                    }
                    assert(self.commands@.push(c).drop_last() =~= self.commands@);
                }
                self.commands.push(c);
            },
        }
    }

    /// Takes the command with the trigger of `command` out of the registry.
    pub fn delete_command(&mut self, command: &Command)
        requires
            old(self).wf(),
        ensures
            final(self).wf(),
            final(self)@ == old(self)@.remove(command@.trigger),
    {
        match self.position(&command.trigger) {
            Some(i) => {
                proof {
                    lemma_registry_remove(self.commands@, i as int);
                }
                self.commands.remove(i);
            },
            None => {
                assert(self@.remove(command@.trigger) =~= self@);
            },
        }
    }

    /// The command that a message with the text `text` triggers: of the
    /// registered commands that the text calls, the one with the longest
    /// trigger.
    pub fn resolve(&self, text: &str) -> (r: Option<&Command>)
        requires
            self.wf(),
        ensures
            match r {
                Some(c) => resolves_to(self@, text@, c@.trigger) && self@[c@.trigger] == c@
                    && resolved(self@, text@) == Some(c@),
                None => resolves_to_nothing(self@, text@) && resolved(self@, text@) is None,
            },
    {
        let chars = to_chars(text);
        let mut best: Option<usize> = None;
        let mut best_len: usize = 0;
        let mut i: usize = 0;
        while i < self.commands.len()
            invariant
                i <= self.commands.len(),
                chars@ == text@,
                match best {
                    Some(b) => {
                        &&& b < i
                        &&& trigger_matches(text@, self.commands@[b as int]@.trigger)
                        &&& best_len == self.commands@[b as int]@.trigger.len()
                        &&& forall|j: int|
                            0 <= j < i && trigger_matches(text@, self.commands@[j]@.trigger)
                                ==> self.commands@[j]@.trigger.len() <= best_len
                    },
                    None => forall|j: int|
                        0 <= j < i ==> !trigger_matches(text@, self.commands@[j]@.trigger),
                },
            decreases self.commands.len() - i,
        {
            let mut trigger = to_chars(self.commands[i].trigger.as_str());
            let len = trigger.len();
            let exact = crate::text::same(&chars, &trigger);
            trigger.push(' ');
            if exact || crate::text::occurs_at(&chars, 0, &trigger) {
                if best.is_none() || len > best_len {
                    best = Some(i);
                    best_len = len;
                }
            }
            i = i + 1;
        }
        match best {
            Some(b) => {
                proof {
                    lemma_registry_value(self.commands@, b as int);
                    let t = self.commands@[b as int]@.trigger;
                    assert forall|u: Seq<char>| #[trigger]
                        self@.contains_key(u) && trigger_matches(text@, u) implies u.len()
                        <= t.len() by {
                        lemma_registry_keys(self.commands@, u);
                    }
                    assert(resolves_to(self@, text@, t));
                    let chosen = choose|u: Seq<char>| resolves_to(self@, text@, u);
                    lemma_resolution_is_unique(self@, text@, t, chosen);
                }
                Some(&self.commands[b])
            },
            None => {
                proof {
                    assert forall|u: Seq<char>| #[trigger] self@.contains_key(u) implies !trigger_matches(
                        text@,
                        u,
                    ) by {
                        lemma_registry_keys(self.commands@, u);
                    }
                }
                None
            },
        }
    }
}

} // verus!
