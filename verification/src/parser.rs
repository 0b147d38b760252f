//! The parser: builds an actor declaration from a token stream.
//!
//! The grammar is the front end's: an actor keyword and name, then
//! braces holding `var`/`let` fields and `func` methods; method bodies
//! hold return and expression statements over binary arithmetic,
//! parentheses, identifiers and number literals.  Parsed methods are
//! async and not sequential — the surface syntax has no modifier for
//! either — and immediate exactly when marked so.

use vstd::prelude::*;
use crate::ast::{
    Actor, ActorType, Expression, Field, Method, MethodBody, Operator, OwnershipType, Parameter,
    Statement, Type,
};
use crate::lexer::{token_matches, Token};

verus! {

/// Whether `t` is the type the name `name` denotes: the four primitive
/// names map to their types, any other name to the custom type of that
/// name.
pub open spec fn named_type_matches(name: Seq<char>, t: Type) -> bool {
    if name == "Int"@ {
        t is Int
    } else if name == "Float"@ {
        t is Float
    } else if name == "String"@ {
        t is String
    } else if name == "Bool"@ {
        t is Bool
    } else {
        t matches Type::Custom(c) && c@ == name
    }
}

/// The token window a field declaration occupies: `var` or `let`, an
/// identifier, a colon, and a type name.
pub open spec fn field_shape(toks: Seq<Token>, cur: int) -> bool {
    &&& cur + 3 < toks.len()
    &&& (toks[cur] is Var || toks[cur] is Let)
    &&& toks[cur + 1] is Identifier
    &&& toks[cur + 2] is Colon
    &&& toks[cur + 3] is Identifier
}

/// One parameter group at position `at`: an identifier, a colon, and a
/// type name, parsed into `p` with the parse-time default ownership.
pub open spec fn param_group_matches(toks: Seq<Token>, at: int, p: Parameter) -> bool {
    &&& at + 2 < toks.len()
    &&& (toks[at] matches Token::Identifier(n) && p.name@ == n@)
    &&& toks[at + 1] is Colon
    &&& (toks[at + 2] matches Token::Identifier(tn) && named_type_matches(tn@, p.param_type))
    &&& p.ownership is Owned
}

/// The `i`-th entry of a parameter list starting at `cur`: its group
/// sits four tokens after the previous one, behind a comma for every
/// entry but the first.
pub open spec fn param_list_entry(toks: Seq<Token>, cur: int, i: int, p: Parameter) -> bool {
    &&& param_group_matches(toks, cur + 4 * i, p)
    &&& (i >= 1 ==> toks[cur + 4 * i - 1] is Comma)
}

/// A parse failure: the token that broke the grammar, or input that
/// ended too early.
#[derive(Debug)]
pub enum ParseError {
    UnexpectedToken { expected: &'static str, found: Token },
    UnexpectedEOF,
}

/// A cursor over a token stream.
pub struct Parser {
    pub tokens: Vec<Token>,
    pub current: usize,
}

impl Parser {
    /// A parser at the start of the stream.
    pub fn new(tokens: Vec<Token>) -> (p: Self)
        ensures
            p.tokens@ == tokens@,
            p.current == 0,
    {
        Parser { tokens, current: 0 }
    }

    /// The current token, if any.
    pub fn peek(&self) -> (r: Option<&Token>)
        ensures
            self.current < self.tokens@.len() ==> (r matches Some(t) && *t == self.tokens@[self.current as int]),
            self.current >= self.tokens@.len() ==> r is None,
    {
        if self.current < self.tokens.len() {
            Some(&self.tokens[self.current])
        } else {
            None
        }
    }

    /// Takes the current token and moves past it.  At the end of the
    /// stream nothing is taken and the cursor stays put — a deliberate
    /// choice: the cursor never leaves the stream's bounds, and every
    /// caller aborts on the short-input error anyway.
    pub fn advance(&mut self) -> (r: Option<Token>)
        ensures
            final(self).tokens@ == old(self).tokens@,
            old(self).current < old(self).tokens@.len() ==> (r matches Some(t) && t == old(self).tokens@[old(self).current as int]
                && final(self).current == old(self).current + 1),
            old(self).current >= old(self).tokens@.len() ==> (r is None && final(self).current
                == old(self).current),
    {
        if self.current < self.tokens.len() {
            let t = self.tokens[self.current].clone();
            self.current = self.current + 1;
            Some(t)
        } else {
            None
        }
    }

    /// Takes the current token and requires it to equal `expected`.
    /// The cursor moves past the token whether or not it matched; at the
    /// end of the stream it stays put (the cursor never leaves the
    /// stream's bounds) and the input is reported short.
    pub fn expect(&mut self, expected: Token) -> (r: Result<(), ParseError>)
        requires
            old(self).current <= old(self).tokens@.len(),
        ensures
            final(self).tokens@ == old(self).tokens@,
            final(self).current <= final(self).tokens@.len(),
            final(self).current >= old(self).current,
            ({
                let cur = old(self).current as int;
                let toks = old(self).tokens@;
                if cur < toks.len() {
                    &&& final(self).current == cur + 1
                    &&& if token_matches(toks[cur], expected) {
                        r is Ok
                    } else {
                        r matches Err(ParseError::UnexpectedToken { expected: _, found })
                            && found == toks[cur]
                    }
                } else {
                    &&& final(self).current == cur
                    &&& r matches Err(ParseError::UnexpectedEOF)
                }
            }),
    {
        match self.advance() {
            Some(token) => {
                if token_eq(&token, &expected) {
                    Ok(())
                } else {
                    Err(ParseError::UnexpectedToken { expected: "expected token", found: token })
                }
            },
            None => Err(ParseError::UnexpectedEOF),
        }
    }

    /// Parses one actor declaration: its kind keyword, its name, and a
    /// braced list of fields and methods.
    #[verifier::loop_isolation(false)]
    pub fn parse_actor(&mut self) -> (r: Result<Actor, ParseError>)
        requires
            old(self).current <= old(self).tokens@.len(),
        ensures
            final(self).tokens@ == old(self).tokens@,
            final(self).current >= old(self).current,
            final(self).current <= final(self).tokens@.len(),
            r matches Ok(a) ==> ({
                &&& final(self).current > old(self).current
                &&& old(self).current + 1 < old(self).tokens@.len()
                &&& (old(self).tokens@[old(self).current as int] is Actor ==> a.actor_type
                    is Distributed)
                &&& (old(self).tokens@[old(self).current as int] is SingleActor ==> a.actor_type
                    is Single)
                &&& (old(self).tokens@[old(self).current as int + 1] matches Token::Identifier(n)
                    && a.name@ == n@)
            }),
    {
        let actor_type = match self.peek() {
            Some(Token::Actor) => {
                self.advance();
                ActorType::Distributed
            },
            Some(Token::SingleActor) => {
                self.advance();
                ActorType::Single
            },
            Some(token) => {
                return Err(ParseError::UnexpectedToken {
                    expected: "actor or single actor",
                    found: token.clone(),
                });
            },
            None => {
                return Err(ParseError::UnexpectedEOF);
            },
        };

        let name = match self.advance() {
            Some(Token::Identifier(name)) => name,
            Some(token) => {
                return Err(ParseError::UnexpectedToken { expected: "identifier", found: token });
            },
            None => {
                return Err(ParseError::UnexpectedEOF);
            },
        };

        match self.expect(Token::LBrace) {
            Ok(()) => {},
            Err(e) => {
                return Err(e);
            },
        }

        let mut methods: Vec<Method> = Vec::new();
        let mut fields: Vec<Field> = Vec::new();

        loop
            invariant
                self.tokens@ == old(self).tokens@,
                self.current > old(self).current,
                self.current <= self.tokens@.len(),
            decreases self.tokens@.len() - self.current,
        {
            match self.peek() {
                Some(Token::RBrace) => {
                    self.advance();
                    break ;
                },
                Some(Token::Var) | Some(Token::Let) => {
                    match self.parse_field() {
                        Ok(f) => {
                            fields.push(f);
                        },
                        Err(e) => {
                            return Err(e);
                        },
                    }
                },
                Some(Token::Func) | Some(Token::Immediate) => {
                    match self.parse_method() {
                        Ok(m) => {
                            methods.push(m);
                        },
                        Err(e) => {
                            return Err(e);
                        },
                    }
                },
                Some(token) => {
                    return Err(ParseError::UnexpectedToken {
                        expected: "field or method declaration",
                        found: token.clone(),
                    });
                },
                None => {
                    return Err(ParseError::UnexpectedEOF);
                },
            }
        }

        Ok(Actor { name, actor_type, methods, fields })
    }

    /// Parses one method: an optional `immediate` marker, `func`, name,
    /// parameters, optional return type, and a braced body.
    #[verifier::loop_isolation(false)]
    fn parse_method(&mut self) -> (r: Result<Method, ParseError>)
        requires
            old(self).current <= old(self).tokens@.len(),
        ensures
            final(self).tokens@ == old(self).tokens@,
            final(self).current >= old(self).current,
            final(self).current <= final(self).tokens@.len(),
            r matches Ok(m) ==> ({
                &&& final(self).current > old(self).current
                &&& m.is_async
                &&& !m.is_sequential
                &&& m.body is Some
            }),
    {
        let is_immediate = match self.peek() {
            Some(Token::Immediate) => {
                self.advance();
                true
            },
            _ => false,
        };

        match self.expect(Token::Func) {
            Ok(()) => {},
            Err(e) => {
                return Err(e);
            },
        }

        let name = match self.advance() {
            Some(Token::Identifier(name)) => name,
            Some(token) => {
                return Err(ParseError::UnexpectedToken { expected: "identifier", found: token });
            },
            None => {
                return Err(ParseError::UnexpectedEOF);
            },
        };

        match self.expect(Token::LParen) {
            Ok(()) => {},
            Err(e) => {
                return Err(e);
            },
        }
        let params = match self.parse_parameters() {
            Ok(ps) => ps,
            Err(e) => {
                return Err(e);
            },
        };
        match self.expect(Token::RParen) {
            Ok(()) => {},
            Err(e) => {
                return Err(e);
            },
        }

        let return_type = match self.peek() {
            Some(Token::Arrow) => {
                self.advance();
                match self.parse_type() {
                    Ok(t) => Some(t),
                    Err(e) => {
                        return Err(e);
                    },
                }
            },
            _ => None,
        };

        match self.expect(Token::LBrace) {
            Ok(()) => {},
            Err(e) => {
                return Err(e);
            },
        }
        let body = match self.parse_method_body() {
            Ok(b) => b,
            Err(e) => {
                return Err(e);
            },
        };
        match self.expect(Token::RBrace) {
            Ok(()) => {},
            Err(e) => {
                return Err(e);
            },
        }

        Ok(
            Method {
                name,
                is_async: true,
                is_sequential: false,
                is_immediate,
                params,
                return_type,
                body: Some(body),
            },
        )
    }

    /// Parses statements until the closing brace: `return` statements
    /// and bare expression statements.
    #[verifier::loop_isolation(false)]
    fn parse_method_body(&mut self) -> (r: Result<MethodBody, ParseError>)
        requires
            old(self).current <= old(self).tokens@.len(),
        ensures
            final(self).tokens@ == old(self).tokens@,
            final(self).current >= old(self).current,
            final(self).current <= final(self).tokens@.len(),
    {
        let mut statements: Vec<Statement> = Vec::new();

        loop
            invariant
                self.tokens@ == old(self).tokens@,
                self.current >= old(self).current,
                self.current <= self.tokens@.len(),
            decreases self.tokens@.len() - self.current,
        {
            match self.peek() {
                Some(Token::RBrace) => {
                    break ;
                },
                Some(Token::Return) => {
                    self.advance();
                    match self.parse_expression() {
                        Ok(expr) => {
                            statements.push(Statement::Return(expr));
                        },
                        Err(e) => {
                            return Err(e);
                        },
                    }
                },
                Some(_) => {
                    match self.parse_expression() {
                        Ok(expr) => {
                            statements.push(Statement::Expression(expr));
                        },
                        Err(e) => {
                            return Err(e);
                        },
                    }
                },
                None => {
                    break ;
                },
            }
        }

        Ok(MethodBody { statements })
    }

    /// Parses one expression.
    fn parse_expression(&mut self) -> (r: Result<Expression, ParseError>)
        requires
            old(self).current <= old(self).tokens@.len(),
        ensures
            final(self).tokens@ == old(self).tokens@,
            final(self).current >= old(self).current,
            final(self).current <= final(self).tokens@.len(),
            r is Ok ==> final(self).current > old(self).current,
        decreases self.tokens@.len() - self.current, 2int,
    {
        self.parse_binary_expression()
    }

    /// Parses a left-associative chain of binary arithmetic.
    #[verifier::loop_isolation(false)]
    fn parse_binary_expression(&mut self) -> (r: Result<Expression, ParseError>)
        requires
            old(self).current <= old(self).tokens@.len(),
        ensures
            final(self).tokens@ == old(self).tokens@,
            final(self).current >= old(self).current,
            final(self).current <= final(self).tokens@.len(),
            r is Ok ==> final(self).current > old(self).current,
        decreases self.tokens@.len() - self.current, 1int,
    {
        let mut left = match self.parse_primary() {
            Ok(e) => e,
            Err(e) => {
                return Err(e);
            },
        };

        loop
            invariant
                self.tokens@ == old(self).tokens@,
                self.current > old(self).current,
                self.current <= self.tokens@.len(),
            decreases self.tokens@.len() - self.current,
        {
            let operator = match self.peek() {
                Some(Token::Plus) => Operator::Add,
                Some(Token::Minus) => Operator::Subtract,
                Some(Token::Multiply) => Operator::Multiply,
                Some(Token::Divide) => Operator::Divide,
                _ => {
                    break ;
                },
            };
            self.advance();

            let right = match self.parse_primary() {
                Ok(e) => e,
                Err(e) => {
                    return Err(e);
                },
            };
            left = Expression::BinaryOp {
                left: Box::new(left),
                operator,
                right: Box::new(right),
            };
        }

        Ok(left)
    }

    /// Parses an identifier, a number literal, or a parenthesized
    /// expression.  A number with a decimal point becomes a float
    /// literal carried as its bit pattern; any other becomes a 32-bit
    /// integer literal.
    fn parse_primary(&mut self) -> (r: Result<Expression, ParseError>)
        requires
            old(self).current <= old(self).tokens@.len(),
        ensures
            final(self).tokens@ == old(self).tokens@,
            final(self).current >= old(self).current,
            final(self).current <= final(self).tokens@.len(),
            r is Ok ==> final(self).current > old(self).current,
        decreases self.tokens@.len() - self.current, 0int,
    {
        match self.advance() {
            Some(Token::Identifier(name)) => Ok(Expression::Variable(name)),
            Some(Token::NumberLiteral(value)) => {
                match crate::lexer::parse_number(value.as_str()) {
                    Some(lit) => Ok(Expression::Literal(lit)),
                    None => Err(ParseError::UnexpectedToken {
                        expected: "number",
                        found: Token::NumberLiteral(value),
                    }),
                }
            },
            Some(Token::LParen) => {
                let expr = match self.parse_expression() {
                    Ok(e) => e,
                    Err(e) => {
                        return Err(e);
                    },
                };
                match self.expect(Token::RParen) {
                    Ok(()) => Ok(expr),
                    Err(e) => Err(e),
                }
            },
            Some(token) => Err(ParseError::UnexpectedToken { expected: "expression", found: token }),
            None => Err(ParseError::UnexpectedEOF),
        }
    }

    /// Parses one field: `var` or `let`, a name, a colon, a type, and
    /// an optional `move` marker.  It succeeds exactly when the next
    /// four tokens have that shape; a `var` field is mutable, a `let`
    /// field is not, the name and type come from their tokens, and the
    /// ownership is `Moved` exactly when a `move` marker follows the
    /// type, else `Owned` — never `Shared` or `Copied`.
    pub fn parse_field(&mut self) -> (r: Result<Field, ParseError>)
        requires
            old(self).current <= old(self).tokens@.len(),
        ensures
            final(self).tokens@ == old(self).tokens@,
            final(self).current >= old(self).current,
            final(self).current <= final(self).tokens@.len(),
            r is Ok <==> field_shape(old(self).tokens@, old(self).current as int),
            r matches Ok(f) ==> ({
                let cur = old(self).current as int;
                let toks = old(self).tokens@;
                &&& (f.is_mutable <==> toks[cur] is Var)
                &&& (toks[cur + 1] matches Token::Identifier(n) && f.name@ == n@)
                &&& (toks[cur + 3] matches Token::Identifier(tn) && named_type_matches(
                    tn@,
                    f.field_type,
                ))
                &&& ((cur + 4 < toks.len() && toks[cur + 4] is Move) <==> f.ownership is Moved)
                &&& (f.ownership is Moved || f.ownership is Owned)
                &&& final(self).current == cur + (if f.ownership is Moved {
                    5int
                } else {
                    4int
                })
            }),
    {
        let is_mutable = match self.advance() {
            Some(Token::Var) => true,
            Some(Token::Let) => false,
            Some(token) => {
                return Err(ParseError::UnexpectedToken { expected: "var or let", found: token });
            },
            None => {
                return Err(ParseError::UnexpectedEOF);
            },
        };

        let name = match self.advance() {
            Some(Token::Identifier(name)) => name,
            Some(token) => {
                return Err(ParseError::UnexpectedToken { expected: "identifier", found: token });
            },
            None => {
                return Err(ParseError::UnexpectedEOF);
            },
        };

        match self.expect(Token::Colon) {
            Ok(()) => {},
            Err(e) => {
                return Err(e);
            },
        }

        let field_type = match self.parse_type() {
            Ok(t) => t,
            Err(e) => {
                return Err(e);
            },
        };
        let mut ownership = OwnershipType::Owned;

        match self.peek() {
            Some(Token::Move) => {
                self.advance();
                ownership = OwnershipType::Moved;
            },
            _ => {},
        }

        Ok(Field { name, field_type, is_mutable, ownership })
    }

    /// Parses one type name: the four primitive names map to their
    /// types, any other identifier to a custom type of that name (never
    /// an array or optional — the surface syntax has no form for them).
    /// A non-identifier token is reported unexpected, exhausted input
    /// short; the cursor moves past whatever token was inspected.
    pub fn parse_type(&mut self) -> (r: Result<Type, ParseError>)
        requires
            old(self).current <= old(self).tokens@.len(),
        ensures
            final(self).tokens@ == old(self).tokens@,
            final(self).current >= old(self).current,
            final(self).current <= final(self).tokens@.len(),
            ({
                let cur = old(self).current as int;
                let toks = old(self).tokens@;
                if cur < toks.len() {
                    &&& final(self).current == cur + 1
                    &&& match toks[cur] {
                        Token::Identifier(name) => r matches Ok(t) && named_type_matches(
                            name@,
                            t,
                        ),
                        _ => r matches Err(ParseError::UnexpectedToken { expected: _, found })
                            && found == toks[cur],
                    }
                } else {
                    &&& final(self).current == cur
                    &&& r matches Err(ParseError::UnexpectedEOF)
                }
            }),
    {
        match self.advance() {
            Some(Token::Identifier(ident)) => {
                if crate::table::str_eq_string("Int", &ident) {
                    Ok(Type::Int)
                } else if crate::table::str_eq_string("Float", &ident) {
                    Ok(Type::Float)
                } else if crate::table::str_eq_string("String", &ident) {
                    Ok(Type::String)
                } else if crate::table::str_eq_string("Bool", &ident) {
                    Ok(Type::Bool)
                } else {
                    Ok(Type::Custom(ident))
                }
            },
            Some(token) => Err(ParseError::UnexpectedToken { expected: "type", found: token }),
            None => Err(ParseError::UnexpectedEOF),
        }
    }

    /// Parses a comma-separated parameter list, reading up to but not
    /// consuming the closing parenthesis: one `name : Type` group per
    /// parameter, in source order, each with the parse-time default
    /// ownership `Owned`; an immediate closing parenthesis yields the
    /// empty list.
    #[verifier::loop_isolation(false)]
    pub fn parse_parameters(&mut self) -> (r: Result<Vec<Parameter>, ParseError>)
        requires
            old(self).current <= old(self).tokens@.len(),
        ensures
            final(self).tokens@ == old(self).tokens@,
            final(self).current >= old(self).current,
            final(self).current <= final(self).tokens@.len(),
            r matches Ok(ps) ==> ({
                let cur = old(self).current as int;
                let toks = old(self).tokens@;
                &&& forall|i: int|
                    0 <= i < ps@.len() ==> #[trigger] param_list_entry(toks, cur, i, ps@[i])
                &&& final(self).current == cur + (if ps@.len() == 0 {
                    0int
                } else {
                    4 * ps@.len() - 1
                })
                &&& (final(self).current == toks.len() || toks[final(self).current as int]
                    is RParen)
            }),
            (old(self).current >= old(self).tokens@.len()
                || old(self).tokens@[old(self).current as int] is RParen) ==> (r matches Ok(ps)
                && ps@.len() == 0 && final(self).current == old(self).current),
    {
        let mut params: Vec<Parameter> = Vec::new();

        loop
            invariant
                self.tokens@ == old(self).tokens@,
                self.current >= old(self).current,
                self.current <= self.tokens@.len(),
                forall|i: int|
                    0 <= i < params@.len() ==> #[trigger] param_list_entry(
                        old(self).tokens@,
                        old(self).current as int,
                        i,
                        params@[i],
                    ),
                self.current as int == old(self).current as int + (if params@.len() == 0 {
                    0int
                } else {
                    4 * params@.len() - 1
                }),
                (old(self).current >= old(self).tokens@.len()
                    || old(self).tokens@[old(self).current as int] is RParen) ==> (params@.len()
                    == 0 && self.current == old(self).current),
            decreases self.tokens@.len() - self.current,
        {
            match self.peek() {
                Some(Token::RParen) => {
                    break ;
                },
                None => {
                    break ;
                },
                _ => {},
            }

            if params.len() > 0 {
                match self.expect(Token::Comma) {
                    Ok(()) => {},
                    Err(e) => {
                        return Err(e);
                    },
                }
            }

            let name = match self.advance() {
                Some(Token::Identifier(name)) => name,
                Some(token) => {
                    return Err(ParseError::UnexpectedToken {
                        expected: "parameter name",
                        found: token,
                    });
                },
                None => {
                    return Err(ParseError::UnexpectedEOF);
                },
            };

            match self.expect(Token::Colon) {
                Ok(()) => {},
                Err(e) => {
                    return Err(e);
                },
            }
            let param_type = match self.parse_type() {
                Ok(t) => t,
                Err(e) => {
                    return Err(e);
                },
            };

            params.push(Parameter { name, param_type, ownership: OwnershipType::Owned });
        }

        Ok(params)
    }
}

/// Content equality of two tokens.
pub fn token_eq(a: &Token, b: &Token) -> (r: bool)
    ensures
        r == token_matches(*a, *b),
{
    crate::lexer::token_eq_impl(a, b)
}

} // verus!
