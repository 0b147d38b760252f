//! The tokenizer: source text to tokens.
//!
//! Keywords are whole words ("single actor" is one two-word keyword);
//! identifiers are ASCII words of letters, digits and underscores;
//! numbers are runs of digits and dots, classified later by the parser.
//! Lexing stops at the first character no token can start with and
//! reports how far it came; the caller decides whether a remainder is
//! an error.
//!
//! A decimal number literal containing a dot is a float literal of the
//! source language; turning its text into IEEE-754 bits is
//! floating-point work this crate does not perform, so `parse_number`
//! accepts exactly the integer literals and declines the rest.

use vstd::prelude::*;
use vstd::string::{StrSliceExecFns, StringExecFns};
use crate::ast::LiteralValue;

verus! {

/// One token of the source language.
#[derive(Debug)]
pub enum Token {
    Actor,
    SingleActor,
    Var,
    Let,
    Func,
    Async,
    Sequential,
    Immediate,
    Move,
    Copy,
    Shared,
    Init,
    Arrow,
    Identifier(String),
    StringLiteral(String),
    NumberLiteral(String),
    LBrace,
    RBrace,
    LParen,
    RParen,
    Colon,
    Comma,
    Equals,
    Plus,
    Minus,
    Multiply,
    Divide,
    Return,
}

/// Content equality of two tokens: same variant, and equal text where
/// the variant carries any.
pub open spec fn token_matches(a: Token, b: Token) -> bool {
    match (a, b) {
        (Token::Identifier(x), Token::Identifier(y)) => x@ == y@,
        (Token::StringLiteral(x), Token::StringLiteral(y)) => x@ == y@,
        (Token::NumberLiteral(x), Token::NumberLiteral(y)) => x@ == y@,
        (Token::Actor, Token::Actor) => true,
        (Token::SingleActor, Token::SingleActor) => true,
        (Token::Var, Token::Var) => true,
        (Token::Let, Token::Let) => true,
        (Token::Func, Token::Func) => true,
        (Token::Async, Token::Async) => true,
        (Token::Sequential, Token::Sequential) => true,
        (Token::Immediate, Token::Immediate) => true,
        (Token::Move, Token::Move) => true,
        (Token::Copy, Token::Copy) => true,
        (Token::Shared, Token::Shared) => true,
        (Token::Init, Token::Init) => true,
        (Token::Arrow, Token::Arrow) => true,
        (Token::LBrace, Token::LBrace) => true,
        (Token::RBrace, Token::RBrace) => true,
        (Token::LParen, Token::LParen) => true,
        (Token::RParen, Token::RParen) => true,
        (Token::Colon, Token::Colon) => true,
        (Token::Comma, Token::Comma) => true,
        (Token::Equals, Token::Equals) => true,
        (Token::Plus, Token::Plus) => true,
        (Token::Minus, Token::Minus) => true,
        (Token::Multiply, Token::Multiply) => true,
        (Token::Divide, Token::Divide) => true,
        (Token::Return, Token::Return) => true,
        _ => false,
    }
}

impl Clone for Token {
    fn clone(&self) -> (res: Self)
        ensures
            res == *self,
    {
        match self {
            Token::Identifier(s) => Token::Identifier(s.clone()),
            Token::StringLiteral(s) => Token::StringLiteral(s.clone()),
            Token::NumberLiteral(s) => Token::NumberLiteral(s.clone()),
            Token::Actor => Token::Actor,
            Token::SingleActor => Token::SingleActor,
            Token::Var => Token::Var,
            Token::Let => Token::Let,
            Token::Func => Token::Func,
            Token::Async => Token::Async,
            Token::Sequential => Token::Sequential,
            Token::Immediate => Token::Immediate,
            Token::Move => Token::Move,
            Token::Copy => Token::Copy,
            Token::Shared => Token::Shared,
            Token::Init => Token::Init,
            Token::Arrow => Token::Arrow,
            Token::LBrace => Token::LBrace,
            Token::RBrace => Token::RBrace,
            Token::LParen => Token::LParen,
            Token::RParen => Token::RParen,
            Token::Colon => Token::Colon,
            Token::Comma => Token::Comma,
            Token::Equals => Token::Equals,
            Token::Plus => Token::Plus,
            Token::Minus => Token::Minus,
            Token::Multiply => Token::Multiply,
            Token::Divide => Token::Divide,
            Token::Return => Token::Return,
        }
    }
}

/// Decides `token_matches(*a, *b)` exactly.
pub fn token_eq_impl(a: &Token, b: &Token) -> (r: bool)
    ensures
        r == token_matches(*a, *b),
{
    match (a, b) {
        (Token::Identifier(x), Token::Identifier(y)) => crate::table::str_eq_string(x.as_str(), y),
        (Token::StringLiteral(x), Token::StringLiteral(y)) => crate::table::str_eq_string(
            x.as_str(),
            y,
        ),
        (Token::NumberLiteral(x), Token::NumberLiteral(y)) => crate::table::str_eq_string(
            x.as_str(),
            y,
        ),
        (Token::Actor, Token::Actor) => true,
        (Token::SingleActor, Token::SingleActor) => true,
        (Token::Var, Token::Var) => true,
        (Token::Let, Token::Let) => true,
        (Token::Func, Token::Func) => true,
        (Token::Async, Token::Async) => true,
        (Token::Sequential, Token::Sequential) => true,
        (Token::Immediate, Token::Immediate) => true,
        (Token::Move, Token::Move) => true,
        (Token::Copy, Token::Copy) => true,
        (Token::Shared, Token::Shared) => true,
        (Token::Init, Token::Init) => true,
        (Token::Arrow, Token::Arrow) => true,
        (Token::LBrace, Token::LBrace) => true,
        (Token::RBrace, Token::RBrace) => true,
        (Token::LParen, Token::LParen) => true,
        (Token::RParen, Token::RParen) => true,
        (Token::Colon, Token::Colon) => true,
        (Token::Comma, Token::Comma) => true,
        (Token::Equals, Token::Equals) => true,
        (Token::Plus, Token::Plus) => true,
        (Token::Minus, Token::Minus) => true,
        (Token::Multiply, Token::Multiply) => true,
        (Token::Divide, Token::Divide) => true,
        (Token::Return, Token::Return) => true,
        _ => false,
    }
}

/// Whether a character is a decimal digit.
pub open spec fn is_digit(c: char) -> bool {
    48 <= c as int <= 57
}

/// Whether a character is blank space.
pub open spec fn blank_char(c: char) -> bool {
    c as int == 32 || c as int == 9 || c as int == 10 || c as int == 13
}

/// Whether a character can start a word: an ASCII letter or an
/// underscore.
pub open spec fn word_start_char(c: char) -> bool {
    65 <= c as int <= 90 || 97 <= c as int <= 122 || c as int == 95
}

/// Whether a character can continue a word.
pub open spec fn word_char(c: char) -> bool {
    word_start_char(c) || is_digit(c)
}

/// Whether a character starts a punctuation token.
pub open spec fn punct_char(c: char) -> bool {
    ||| c as int == 45
    ||| c as int == 123
    ||| c as int == 125
    ||| c as int == 40
    ||| c as int == 41
    ||| c as int == 58
    ||| c as int == 44
    ||| c as int == 61
    ||| c as int == 43
    ||| c as int == 42
    ||| c as int == 47
}

/// Whether some token (or blank space) can start at position `pos`: a
/// blank, a word start, a digit, punctuation, or a quote that a closing
/// quote follows somewhere later.
pub open spec fn lexable_at(s: Seq<char>, pos: int) -> bool {
    ||| blank_char(s[pos])
    ||| word_start_char(s[pos])
    ||| is_digit(s[pos])
    ||| punct_char(s[pos])
    ||| (s[pos] as int == 34 && exists|j: int| pos < j < s.len() && s[j] as int == 34)
}

/// The value of a digit string, most significant first.
pub open spec fn digits_value(s: Seq<char>) -> int
    decreases s.len(),
{
    if s.len() == 0 {
        0
    } else {
        digits_value(s.drop_last()) * 10 + (s.last() as int - 48)
    }
}

/// Parses a number literal's text.  A nonempty all-digit string whose
/// value fits a 32-bit signed integer yields that integer literal;
/// anything else — the empty string, a string with a dot or any other
/// non-digit, or an overflowing value — yields nothing.
#[verifier::loop_isolation(false)]
pub fn parse_number(s: &str) -> (r: Option<LiteralValue>)
    ensures
        match r {
            Some(lit) => lit matches LiteralValue::Int(n) && s@.len() > 0 && (forall|i: int|
                0 <= i < s@.len() ==> is_digit(s@[i])) && n == digits_value(s@),
            None => s@.len() == 0 || !(forall|i: int| 0 <= i < s@.len() ==> is_digit(s@[i]))
                || digits_value(s@) > i32::MAX,
        },
{
    let n = s.unicode_len();
    if n == 0 {
        return None;
    }
    let mut acc: i32 = 0;
    let mut i: usize = 0;
    while i < n
        invariant
            i <= n,
            n == s@.len(),
            forall|k: int| 0 <= k < i ==> is_digit(s@[k]),
            acc == digits_value(s@.take(i as int)),
            acc >= 0,
        decreases n - i,
    {
        proof {
            assert(s@.take(i as int + 1).drop_last() =~= s@.take(i as int));
            assert(s@.take(i as int + 1).last() == s@[i as int]);
        }
        let c = s.get_char(i);
        let d = c as u32;
        if d < 48 || d > 57 {
            return None;
        }
        let digit: i32 = (d - 48) as i32;
        acc = match acc.checked_mul(10) {
            Some(v) => v,
            None => {
                proof {
                    if forall|j: int| 0 <= j < s@.len() ==> is_digit(s@[j]) {
                        lemma_digits_value_grows(s@, i as int + 1);
                    }
                }
                return None;
            },
        };
        acc = match acc.checked_add(digit) {
            Some(v) => v,
            None => {
                proof {
                    if forall|j: int| 0 <= j < s@.len() ==> is_digit(s@[j]) {
                        lemma_digits_value_grows(s@, i as int + 1);
                    }
                }
                return None;
            },
        };
        i = i + 1;
    }
    proof {
        assert(s@.take(n as int) =~= s@);
    }
    Some(LiteralValue::Int(acc))
}

/// Once a digit prefix's value exceeds the 32-bit range, the value of
/// the whole digit string does: each further digit multiplies by ten.
proof fn lemma_digits_value_grows(s: Seq<char>, k: int)
    requires
        0 <= k <= s.len(),
        forall|i: int| 0 <= i < s.len() ==> is_digit(s[i]),
        digits_value(s.take(k)) > i32::MAX,
    ensures
        digits_value(s) > i32::MAX,
    decreases s.len() - k,
{
    if k == s.len() {
        assert(s.take(k) =~= s);
    } else {
        assert(s.take(k + 1).drop_last() =~= s.take(k));
        assert(s.take(k + 1).last() == s[k]);
        assert(digits_value(s.take(k + 1)) == digits_value(s.take(k)) * 10 + (s[k] as int - 48));
        assert(is_digit(s[k]));
        lemma_digits_value_grows(s, k + 1);
    }
}

/// Whether a character can start a word: an ASCII letter or an
/// underscore.
fn is_word_start(c: char) -> (r: bool)
    ensures
        r == word_start_char(c),
{
    let d = c as u32;
    (65 <= d && d <= 90) || (97 <= d && d <= 122) || d == 95
}

/// Whether a character can continue a word: a word-start character or
/// a digit.
fn is_word_char(c: char) -> (r: bool)
    ensures
        r == word_char(c),
{
    let d = c as u32;
    (65 <= d && d <= 90) || (97 <= d && d <= 122) || d == 95 || (48 <= d && d <= 57)
}

/// Whether a character is blank space.
fn is_space(c: char) -> (r: bool)
    ensures
        r == blank_char(c),
{
    let d = c as u32;
    d == 32 || d == 9 || d == 10 || d == 13
}

/// Content equality of two string slices.
fn str_eq(a: &str, b: &str) -> (r: bool)
    ensures
        r == (a@ == b@),
{
    let b_owned: String = b.to_owned();
    crate::table::str_eq_string(a, &b_owned)
}

/// The end of the word starting at `from`: the first position at or
/// after `from` whose character cannot continue a word.
#[verifier::loop_isolation(false)]
fn scan_word(s: &str, from: usize, n: usize) -> (end: usize)
    requires
        from <= n,
        n == s@.len(),
    ensures
        from <= end <= n,
        from < n && word_char(s@[from as int]) ==> end > from,
{
    let mut end = from;
    while end < n
        invariant
            from <= end <= n,
        decreases n - end,
    {
        if !is_word_char(s.get_char(end)) {
            return end;
        }
        end = end + 1;
    }
    end
}

/// The keyword a word spells, if any.
fn keyword_token(word: &str) -> (r: Option<Token>)
{
    if str_eq(word, "actor") {
        Some(Token::Actor)
    } else if str_eq(word, "var") {
        Some(Token::Var)
    } else if str_eq(word, "let") {
        Some(Token::Let)
    } else if str_eq(word, "func") {
        Some(Token::Func)
    } else if str_eq(word, "async") {
        Some(Token::Async)
    } else if str_eq(word, "sequential") {
        Some(Token::Sequential)
    } else if str_eq(word, "immediate") {
        Some(Token::Immediate)
    } else if str_eq(word, "move") {
        Some(Token::Move)
    } else if str_eq(word, "copy") {
        Some(Token::Copy)
    } else if str_eq(word, "shared") {
        Some(Token::Shared)
    } else if str_eq(word, "init") {
        Some(Token::Init)
    } else if str_eq(word, "return") {
        Some(Token::Return)
    } else {
        None
    }
}

/// Tokenizes source text.  Returns the tokens found and the character
/// position lexing stopped at: the text's length when everything was
/// consumed, or the position of the first character no token can start
/// with.
#[verifier::loop_isolation(false)]
pub fn lex(input: &str) -> (r: (Vec<Token>, usize))
    ensures
        r.1 <= input@.len(),
        r.1 < input@.len() ==> !lexable_at(input@, r.1 as int),
{
    let n = input.unicode_len();
    let mut tokens: Vec<Token> = Vec::new();
    let mut pos: usize = 0;

    while pos < n
        invariant
            pos <= n,
            n == input@.len(),
        decreases n - pos,
    {
        let c = input.get_char(pos);

        if is_space(c) {
            pos = pos + 1;
        } else if is_word_start(c) {
            let end = scan_word(input, pos, n);
            if end == pos {
                proof {
                    assert(false);
                }
                return (tokens, pos);
            }
            let word = input.substring_char(pos, end).to_owned();
            if str_eq(word.as_str(), "single") {
                // "single actor" is one two-word keyword.
                if end < n && is_space(input.get_char(end)) {
                    let end2 = scan_word(input, end + 1, n);
                    let word2 = input.substring_char(end + 1, end2).to_owned();
                    if str_eq(word2.as_str(), "actor") {
                        tokens.push(Token::SingleActor);
                        pos = end2;
                        continue ;
                    }
                }
                tokens.push(Token::Identifier(word));
                pos = end;
            } else {
                match keyword_token(word.as_str()) {
                    Some(t) => {
                        tokens.push(t);
                    },
                    None => {
                        tokens.push(Token::Identifier(word));
                    },
                }
                pos = end;
            }
        } else {
            let d = c as u32;
            if 48 <= d && d <= 57 {
                // A run of digits and dots is one number literal.
                let mut end = pos;
                while end < n
                    invariant
                        pos <= end <= n,
                    decreases n - end,
                {
                    let cc = input.get_char(end);
                    let dd = cc as u32;
                    if (48 <= dd && dd <= 57) || dd == 46 {
                        end = end + 1;
                    } else {
                        break ;
                    }
                }
                tokens.push(Token::NumberLiteral(input.substring_char(pos, end).to_owned()));
                pos = end;
            } else if d == 34 {
                // A string literal runs to the closing quote.
                let mut end = pos + 1;
                while end < n
                    invariant
                        pos + 1 <= end <= n,
                        forall|j: int| pos < j < end ==> input@[j] as int != 34,
                    decreases n - end,
                {
                    if input.get_char(end) as u32 == 34 {
                        break ;
                    }
                    end = end + 1;
                }
                if end >= n {
                    // The quote never closes: no token starts here.
                    return (tokens, pos);
                }
                tokens.push(Token::StringLiteral(input.substring_char(pos + 1, end).to_owned()));
                pos = end + 1;
            } else if d == 45 {
                // "->" is the arrow; a bare minus is subtraction.
                if pos + 1 < n && input.get_char(pos + 1) as u32 == 62 {
                    tokens.push(Token::Arrow);
                    pos = pos + 2;
                } else {
                    tokens.push(Token::Minus);
                    pos = pos + 1;
                }
            } else if d == 123 {
                tokens.push(Token::LBrace);
                pos = pos + 1;
            } else if d == 125 {
                tokens.push(Token::RBrace);
                pos = pos + 1;
            } else if d == 40 {
                tokens.push(Token::LParen);
                pos = pos + 1;
            } else if d == 41 {
                tokens.push(Token::RParen);
                pos = pos + 1;
            } else if d == 58 {
                tokens.push(Token::Colon);
                pos = pos + 1;
            } else if d == 44 {
                tokens.push(Token::Comma);
                pos = pos + 1;
            } else if d == 61 {
                tokens.push(Token::Equals);
                pos = pos + 1;
            } else if d == 43 {
                tokens.push(Token::Plus);
                pos = pos + 1;
            } else if d == 42 {
                tokens.push(Token::Multiply);
                pos = pos + 1;
            } else if d == 47 {
                tokens.push(Token::Divide);
                pos = pos + 1;
            } else {
                return (tokens, pos);
            }
        }
    }
    (tokens, pos)
}

} // verus!
