//! The template lexer: a response template becomes a sequence of tokens.
//! At every position the first rule that fits is taken, `}}}` before `}}`;
//! a character that starts no rule is a token of its own.

use crate::text::{has_at, to_chars};
use vstd::prelude::*;

verus! {

/// A token of a response template.
#[derive(Clone, Copy, Debug, PartialEq, Eq)]
pub enum Token {
    /// `$1`
    ArgOne,
    /// `$2`
    ArgTwo,
    /// `$user`
    User,
    /// `$year`
    Year,
    /// `{{`
    ScriptStart,
    /// `}}}`
    ScriptEndAndExtra,
    /// `}}`
    ScriptEnd,
    /// Any other character.
    Other(char),
}

/// The text a token was read from.
pub open spec fn token_text(t: Token) -> Seq<char> {
    match t {
        Token::ArgOne => seq!['$', '1'],
        Token::ArgTwo => seq!['$', '2'],
        Token::User => seq!['$', 'u', 's', 'e', 'r'],
        Token::Year => seq!['$', 'y', 'e', 'a', 'r'],
        Token::ScriptStart => seq!['{', '{'],
        Token::ScriptEndAndExtra => seq!['}', '}', '}'],
        Token::ScriptEnd => seq!['}', '}'],
        Token::Other(c) => seq![c],
    }
}

/// The token that starts at position `i` of `s`, for `0 <= i < s.len()`.
pub open spec fn token_at(s: Seq<char>, i: int) -> Token {
    if has_at(s, i, token_text(Token::ArgOne)) {
        Token::ArgOne
    } else if has_at(s, i, token_text(Token::ArgTwo)) {
        Token::ArgTwo
    } else if has_at(s, i, token_text(Token::User)) {
        Token::User
    } else if has_at(s, i, token_text(Token::Year)) {
        Token::Year
    } else if has_at(s, i, token_text(Token::ScriptStart)) {
        Token::ScriptStart
    } else if has_at(s, i, token_text(Token::ScriptEndAndExtra)) {
        Token::ScriptEndAndExtra
    } else if has_at(s, i, token_text(Token::ScriptEnd)) {
        Token::ScriptEnd
    } else {
        Token::Other(s[i])
    }
}

/// The tokens of `s` from position `i` on.
pub open spec fn lex_from(s: Seq<char>, i: int) -> Seq<Token>
    decreases s.len() - i,
{
    if i < 0 || i >= s.len() {
        Seq::empty()
    } else {
        seq![token_at(s, i)] + lex_from(s, i + token_text(token_at(s, i)).len())
    }
}

/// The tokens of the template `s`.
pub open spec fn lex_spec(s: Seq<char>) -> Seq<Token> {
    lex_from(s, 0)
}

/// The texts of `tokens`, one behind the other.
pub open spec fn tokens_text(tokens: Seq<Token>) -> Seq<char>
    decreases tokens.len(),
{
    if tokens.len() == 0 {
        Seq::empty()
    } else {
        token_text(tokens[0]) + tokens_text(tokens.skip(1))
    }
}

/// The token at a position is read from the text that stands there.
pub proof fn lemma_token_at_fits(s: Seq<char>, i: int)
    requires
        0 <= i < s.len(),
    ensures
        has_at(s, i, token_text(token_at(s, i))),
{
    let t = token_at(s, i);
    if t is Other {
        assert(s.subrange(i, i + 1) =~= seq![s[i]]);
    }
}

/// Lexing loses nothing: the texts of the tokens, put together, are the
/// template from the position where lexing began.
pub proof fn lemma_lex_from_lossless(s: Seq<char>, i: int)
    requires
        0 <= i <= s.len(),
    ensures
        tokens_text(lex_from(s, i)) == s.skip(i),
    decreases s.len() - i,
{
    if i >= s.len() {
        assert(s.skip(i) =~= Seq::<char>::empty());
    } else {
        let t = token_at(s, i);
        let n = token_text(t).len() as int;
        lemma_token_at_fits(s, i);
        lemma_lex_from_lossless(s, i + n);
        let toks = lex_from(s, i);
        assert(toks.skip(1) =~= lex_from(s, i + n));
        assert(toks[0] == t);
        assert(s.skip(i) =~= s.subrange(i, i + n) + s.skip(i + n));
    }
}

/// Lexing loses nothing: the texts of a template's tokens, put together, are
/// the template.
pub proof fn lemma_lex_lossless(s: Seq<char>)
    ensures
        tokens_text(lex_spec(s)) == s,
{
    lemma_lex_from_lossless(s, 0);
    assert(s.skip(0) =~= s);
}

/// The token that starts at position `i` of `v`.
fn next_token(v: &Vec<char>, i: usize) -> (t: Token)
    requires
        i < v.len(),
    ensures
        t == token_at(v@, i as int),
{
    let n = v.len() - i;
    let c = v[i];
    let ghost s = v@;
    if c == '$' {
        if n >= 2 && v[i + 1] == '1' {
            assert(s.subrange(i as int, i + 2) =~= token_text(Token::ArgOne));
            return Token::ArgOne;
        }
        assert(!has_at(s, i as int, token_text(Token::ArgOne))) by {
            if has_at(s, i as int, token_text(Token::ArgOne)) {
                assert(s.subrange(i as int, i + 2)[1] == '1');
            }
        }
        if n >= 2 && v[i + 1] == '2' {
            assert(s.subrange(i as int, i + 2) =~= token_text(Token::ArgTwo));
            return Token::ArgTwo;
        }
        assert(!has_at(s, i as int, token_text(Token::ArgTwo))) by {
            if has_at(s, i as int, token_text(Token::ArgTwo)) {
                assert(s.subrange(i as int, i + 2)[1] == '2');
            }
        }
        if n >= 5 && v[i + 1] == 'u' && v[i + 2] == 's' && v[i + 3] == 'e' && v[i + 4] == 'r' {
            assert(s.subrange(i as int, i + 5) =~= token_text(Token::User));
            return Token::User;
        }
        assert(!has_at(s, i as int, token_text(Token::User))) by {
            if has_at(s, i as int, token_text(Token::User)) {
                let w = s.subrange(i as int, i + 5);
                assert(w[1] == 'u' && w[2] == 's' && w[3] == 'e' && w[4] == 'r');
            }
        }
        if n >= 5 && v[i + 1] == 'y' && v[i + 2] == 'e' && v[i + 3] == 'a' && v[i + 4] == 'r' {
            assert(s.subrange(i as int, i + 5) =~= token_text(Token::Year));
            return Token::Year;
        }
        assert(!has_at(s, i as int, token_text(Token::Year))) by {
            if has_at(s, i as int, token_text(Token::Year)) {
                let w = s.subrange(i as int, i + 5);
                assert(w[1] == 'y' && w[2] == 'e' && w[3] == 'a' && w[4] == 'r');
            }
        }
        assert(!has_at(s, i as int, token_text(Token::ScriptStart))) by {
            if has_at(s, i as int, token_text(Token::ScriptStart)) {
                assert(s.subrange(i as int, i + 2)[0] == '{');
            }
        }
        assert(!has_at(s, i as int, token_text(Token::ScriptEndAndExtra))) by {
            if has_at(s, i as int, token_text(Token::ScriptEndAndExtra)) {
                assert(s.subrange(i as int, i + 3)[0] == '}');
            }
        }
        assert(!has_at(s, i as int, token_text(Token::ScriptEnd))) by {
            if has_at(s, i as int, token_text(Token::ScriptEnd)) {
                assert(s.subrange(i as int, i + 2)[0] == '}');
            }
        }
        return Token::Other(c);
    }
    assert(!has_at(s, i as int, token_text(Token::ArgOne))) by {
        if has_at(s, i as int, token_text(Token::ArgOne)) {
            assert(s.subrange(i as int, i + 2)[0] == '$');
        }
    }
    assert(!has_at(s, i as int, token_text(Token::ArgTwo))) by {
        if has_at(s, i as int, token_text(Token::ArgTwo)) {
            assert(s.subrange(i as int, i + 2)[0] == '$');
        }
    }
    assert(!has_at(s, i as int, token_text(Token::User))) by {
        if has_at(s, i as int, token_text(Token::User)) {
            assert(s.subrange(i as int, i + 5)[0] == '$');
        }
    }
    assert(!has_at(s, i as int, token_text(Token::Year))) by {
        if has_at(s, i as int, token_text(Token::Year)) {
            assert(s.subrange(i as int, i + 5)[0] == '$');
        }
    }
    if c == '{' && n >= 2 && v[i + 1] == '{' {
        assert(s.subrange(i as int, i + 2) =~= token_text(Token::ScriptStart));
        return Token::ScriptStart;
    }
    assert(!has_at(s, i as int, token_text(Token::ScriptStart))) by {
        if has_at(s, i as int, token_text(Token::ScriptStart)) {
            let w = s.subrange(i as int, i + 2);
            assert(w[0] == '{' && w[1] == '{');
        }
    }
    if c == '}' && n >= 3 && v[i + 1] == '}' && v[i + 2] == '}' {
        assert(s.subrange(i as int, i + 3) =~= token_text(Token::ScriptEndAndExtra));
        return Token::ScriptEndAndExtra;
    }
    assert(!has_at(s, i as int, token_text(Token::ScriptEndAndExtra))) by {
        if has_at(s, i as int, token_text(Token::ScriptEndAndExtra)) {
            let w = s.subrange(i as int, i + 3);
            assert(w[0] == '}' && w[1] == '}' && w[2] == '}');
        }
    }
    if c == '}' && n >= 2 && v[i + 1] == '}' {
        assert(s.subrange(i as int, i + 2) =~= token_text(Token::ScriptEnd));
        return Token::ScriptEnd;
    }
    assert(!has_at(s, i as int, token_text(Token::ScriptEnd))) by {
        if has_at(s, i as int, token_text(Token::ScriptEnd)) {
            let w = s.subrange(i as int, i + 2);
            assert(w[0] == '}' && w[1] == '}');
        }
    }
    Token::Other(c)
}

/// The number of characters a token was read from.
fn token_width(t: Token) -> (n: usize)
    ensures
        n == token_text(t).len(),
        1 <= n <= 5,
{
    match t {
        Token::ArgOne => 2,
        Token::ArgTwo => 2,
        Token::User => 5,
        Token::Year => 5,
        Token::ScriptStart => 2,
        Token::ScriptEndAndExtra => 3,
        Token::ScriptEnd => 2,
        Token::Other(_) => 1,
    }
}

/// Splits a chain of tokens at its first one.
proof fn lemma_lex_from_step(s: Seq<char>, i: int)
    requires
        0 <= i < s.len(),
    ensures
        lex_from(s, i) == seq![token_at(s, i)] + lex_from(
            s,
            i + token_text(token_at(s, i)).len(),
        ),
{
}

/// The tokens of a template given as characters.
pub fn lex_chars(v: &Vec<char>) -> (tokens: Vec<Token>)
    ensures
        tokens@ == lex_spec(v@),
{
    let mut tokens: Vec<Token> = Vec::new();
    let mut i: usize = 0;
    while i < v.len()
        invariant
            i <= v.len(),
            tokens@ + lex_from(v@, i as int) == lex_spec(v@),
        decreases v.len() - i,
    {
        let t = next_token(v, i);
        let w = token_width(t);
        proof {
            lemma_token_at_fits(v@, i as int);
            lemma_lex_from_step(v@, i as int);
            assert(tokens@.push(t) + lex_from(v@, i + w) =~= tokens@ + lex_from(v@, i as int));
        }
        tokens.push(t);
        i = i + w;
    }
    assert(tokens@ + lex_from(v@, i as int) =~= tokens@);
    tokens
}

/// The tokens of the template `template`.
pub fn lex(template: &str) -> (tokens: Vec<Token>)
    ensures
        tokens@ == lex_spec(template@),
{
    let v = to_chars(template);
    lex_chars(&v)
}

} // verus!
