//! The tokenizer: turns an expression string into a sequence of tokens.
use vstd::prelude::*;
use crate::numeric::EvalexprFloat;
use crate::value::IntType;
use crate::error::{EvalexprError, EvalexprResult, EModel};
use crate::literal::{spec_int_literal, is_float_literal, spec_bool_literal, parse_int_literal, is_float_literal_exec, parse_bool_literal};
use crate::text::{spec_is_whitespace, is_whitespace, chars_of, string_from_chars, string_from_range, push_char};

verus! {

/// A token of the expression language.
#[derive(Debug, PartialEq)]
pub enum Token<F> {
    Plus,
    Minus,
    Star,
    Slash,
    Percent,
    Hat,
    Eq,
    Neq,
    Gt,
    Lt,
    Geq,
    Leq,
    And,
    Or,
    Not,
    LBrace,
    RBrace,
    Assign,
    PlusAssign,
    MinusAssign,
    StarAssign,
    SlashAssign,
    PercentAssign,
    HatAssign,
    AndAssign,
    OrAssign,
    Comma,
    Semicolon,
    Identifier(String),
    Float(F),
    Int(IntType),
    Boolean(bool),
    String(String),
}

/// The model of a token: strings by their characters, floats by their kind only.
pub ghost enum TModel<F> {
    Plus,
    Minus,
    Star,
    Slash,
    Percent,
    Hat,
    Eq,
    Neq,
    Gt,
    Lt,
    Geq,
    Leq,
    And,
    Or,
    Not,
    LBrace,
    RBrace,
    Assign,
    PlusAssign,
    MinusAssign,
    StarAssign,
    SlashAssign,
    PercentAssign,
    HatAssign,
    AndAssign,
    OrAssign,
    Comma,
    Semicolon,
    Identifier(Seq<char>),
    Float(F),
    Int(int),
    Boolean(bool),
    Str(Seq<char>),
}

impl<F> View for Token<F> {
    type V = TModel<F>;

    open spec fn view(&self) -> TModel<F> {
        match *self {
            Token::Plus => TModel::Plus,
            Token::Minus => TModel::Minus,
            Token::Star => TModel::Star,
            Token::Slash => TModel::Slash,
            Token::Percent => TModel::Percent,
            Token::Hat => TModel::Hat,
            Token::Eq => TModel::Eq,
            Token::Neq => TModel::Neq,
            Token::Gt => TModel::Gt,
            Token::Lt => TModel::Lt,
            Token::Geq => TModel::Geq,
            Token::Leq => TModel::Leq,
            Token::And => TModel::And,
            Token::Or => TModel::Or,
            Token::Not => TModel::Not,
            Token::LBrace => TModel::LBrace,
            Token::RBrace => TModel::RBrace,
            Token::Assign => TModel::Assign,
            Token::PlusAssign => TModel::PlusAssign,
            Token::MinusAssign => TModel::MinusAssign,
            Token::StarAssign => TModel::StarAssign,
            Token::SlashAssign => TModel::SlashAssign,
            Token::PercentAssign => TModel::PercentAssign,
            Token::HatAssign => TModel::HatAssign,
            Token::AndAssign => TModel::AndAssign,
            Token::OrAssign => TModel::OrAssign,
            Token::Comma => TModel::Comma,
            Token::Semicolon => TModel::Semicolon,
            Token::Identifier(s) => TModel::Identifier(s@),
            Token::Float(f) => TModel::Float(f),
            Token::Int(i) => TModel::Int(i as int),
            Token::Boolean(b) => TModel::Boolean(b),
            Token::String(s) => TModel::Str(s@),
        }
    }
}

/// A partial token: the result of the first, character-wise tokenizer pass.
#[derive(Debug, PartialEq)]
pub enum PartialToken<F> {
    /// A token that is already complete.
    Token(Token<F>),
    /// A run of characters that are not operators, braces or whitespace.
    Literal(String),
    Whitespace,
    Eq,
    ExclamationMark,
    Gt,
    Lt,
    Ampersand,
    VerticalBar,
    Minus,
    Plus,
    Star,
    Slash,
    Percent,
    Hat,
}

/// The model of a partial token.
pub ghost enum PModel<F> {
    Token(TModel<F>),
    Literal(Seq<char>),
    Whitespace,
    Eq,
    ExclamationMark,
    Gt,
    Lt,
    Ampersand,
    VerticalBar,
    Minus,
    Plus,
    Star,
    Slash,
    Percent,
    Hat,
}

impl<F> View for PartialToken<F> {
    type V = PModel<F>;

    open spec fn view(&self) -> PModel<F> {
        match *self {
            PartialToken::Token(t) => PModel::Token(t@),
            PartialToken::Literal(s) => PModel::Literal(s@),
            PartialToken::Whitespace => PModel::Whitespace,
            PartialToken::Eq => PModel::Eq,
            PartialToken::ExclamationMark => PModel::ExclamationMark,
            PartialToken::Gt => PModel::Gt,
            PartialToken::Lt => PModel::Lt,
            PartialToken::Ampersand => PModel::Ampersand,
            PartialToken::VerticalBar => PModel::VerticalBar,
            PartialToken::Minus => PModel::Minus,
            PartialToken::Plus => PModel::Plus,
            PartialToken::Star => PModel::Star,
            PartialToken::Slash => PModel::Slash,
            PartialToken::Percent => PModel::Percent,
            PartialToken::Hat => PModel::Hat,
        }
    }
}

pub open spec fn tokens_model<F>(tokens: Seq<Token<F>>) -> Seq<TModel<F>> {
    tokens.map_values(|t: Token<F>| t@)
}

pub open spec fn partial_tokens_model<F>(tokens: Seq<PartialToken<F>>) -> Seq<PModel<F>> {
    tokens.map_values(|t: PartialToken<F>| t@)
}

impl<F> Token<F> {
    /// Whether a token of this kind may stand left of a value (an operand follows it directly).
    pub open spec fn spec_is_leftsided_value(&self) -> bool {
        match *self {
            Token::LBrace | Token::Identifier(_) | Token::Float(_) | Token::Int(_) | Token::Boolean(_) | Token::String(_) => true,
            _ => false,
        }
    }

    /// Whether a token of this kind ends a value.
    pub open spec fn spec_is_rightsided_value(&self) -> bool {
        match *self {
            Token::RBrace | Token::Identifier(_) | Token::Float(_) | Token::Int(_) | Token::Boolean(_) | Token::String(_) => true,
            _ => false,
        }
    }

    /// Whether the token is an assignment operator.
    pub open spec fn spec_is_assignment(&self) -> bool {
        match *self {
            Token::Assign | Token::PlusAssign | Token::MinusAssign | Token::StarAssign | Token::SlashAssign
            | Token::PercentAssign | Token::HatAssign | Token::AndAssign | Token::OrAssign => true,
            _ => false,
        }
    }

    /// Returns true if the token is a value or an opening brace, i.e. a token that a
    /// function identifier can be applied to.
    pub fn is_leftsided_value(&self) -> (r: bool)
        ensures
            r == self.spec_is_leftsided_value(),
    {
        match self {
            Token::LBrace | Token::Identifier(_) | Token::Float(_) | Token::Int(_) | Token::Boolean(_) | Token::String(_) => true,
            _ => false,
        }
    }

    /// Returns true if the token is a value or a closing brace.
    pub fn is_rightsided_value(&self) -> (r: bool)
        ensures
            r == self.spec_is_rightsided_value(),
    {
        match self {
            Token::RBrace | Token::Identifier(_) | Token::Float(_) | Token::Int(_) | Token::Boolean(_) | Token::String(_) => true,
            _ => false,
        }
    }

    /// Returns true if the token is an assignment operator.
    pub fn is_assignment(&self) -> (r: bool)
        ensures
            r == self.spec_is_assignment(),
    {
        match self {
            Token::Assign | Token::PlusAssign | Token::MinusAssign | Token::StarAssign | Token::SlashAssign
            | Token::PercentAssign | Token::HatAssign | Token::AndAssign | Token::OrAssign => true,
            _ => false,
        }
    }
}

impl<F: Copy> Token<F> {
    /// Duplicates the token.
    pub fn copy_token(&self) -> (r: Token<F>)
        ensures
            r@ == self@,
            r.spec_is_leftsided_value() == self.spec_is_leftsided_value(),
            r.spec_is_rightsided_value() == self.spec_is_rightsided_value(),
            r.spec_is_assignment() == self.spec_is_assignment(),
    {
        match self {
            Token::Plus => Token::Plus,
            Token::Minus => Token::Minus,
            Token::Star => Token::Star,
            Token::Slash => Token::Slash,
            Token::Percent => Token::Percent,
            Token::Hat => Token::Hat,
            Token::Eq => Token::Eq,
            Token::Neq => Token::Neq,
            Token::Gt => Token::Gt,
            Token::Lt => Token::Lt,
            Token::Geq => Token::Geq,
            Token::Leq => Token::Leq,
            Token::And => Token::And,
            Token::Or => Token::Or,
            Token::Not => Token::Not,
            Token::LBrace => Token::LBrace,
            Token::RBrace => Token::RBrace,
            Token::Assign => Token::Assign,
            Token::PlusAssign => Token::PlusAssign,
            Token::MinusAssign => Token::MinusAssign,
            Token::StarAssign => Token::StarAssign,
            Token::SlashAssign => Token::SlashAssign,
            Token::PercentAssign => Token::PercentAssign,
            Token::HatAssign => Token::HatAssign,
            Token::AndAssign => Token::AndAssign,
            Token::OrAssign => Token::OrAssign,
            Token::Comma => Token::Comma,
            Token::Semicolon => Token::Semicolon,
            Token::Identifier(s) => Token::Identifier(s.clone()),
            Token::Float(f) => Token::Float(*f),
            Token::Int(i) => Token::Int(*i),
            Token::Boolean(b) => Token::Boolean(*b),
            Token::String(s) => Token::String(s.clone()),
        }
    }
}

/// The partial token that a single character (outside of a string literal) stands for.
pub open spec fn spec_char_to_partial_token<F>(c: char) -> PModel<F> {
    if c == '=' { PModel::Eq }
    else if c == '!' { PModel::ExclamationMark }
    else if c == '>' { PModel::Gt }
    else if c == '<' { PModel::Lt }
    else if c == '&' { PModel::Ampersand }
    else if c == '|' { PModel::VerticalBar }
    else if c == '-' { PModel::Minus }
    else if c == '+' { PModel::Plus }
    else if c == '*' { PModel::Star }
    else if c == '/' { PModel::Slash }
    else if c == '%' { PModel::Percent }
    else if c == '^' { PModel::Hat }
    else if c == '(' { PModel::Token(TModel::LBrace) }
    else if c == ')' { PModel::Token(TModel::RBrace) }
    else if c == ',' { PModel::Token(TModel::Comma) }
    else if c == ';' { PModel::Token(TModel::Semicolon) }
    else if spec_is_whitespace(c) { PModel::Whitespace }
    else { PModel::Literal(seq![c]) }
}

/// The body of a string literal that starts at `i` (just after its opening quote):
/// its characters and the index after the closing quote.
/// Inside, `\"` stands for `"` and `\\` for `\`; any other escape is an error.
pub open spec fn spec_string_literal<F>(s: Seq<char>, i: int, buf: Seq<char>) -> Result<(Seq<char>, int), EModel<F>>
    decreases s.len() - i,
{
    if i < 0 || i >= s.len() {
        Err(EModel::UnmatchedDoubleQuote)
    } else if s[i] == '"' {
        Ok((buf, i + 1))
    } else if s[i] == '\\' {
        if i + 1 >= s.len() {
            Err(EModel::IllegalEscapeSequence(seq!['\\']))
        } else if s[i + 1] == '"' || s[i + 1] == '\\' {
            spec_string_literal(s, i + 2, buf.push(s[i + 1]))
        } else {
            Err(EModel::IllegalEscapeSequence(seq!['\\', s[i + 1]]))
        }
    } else {
        spec_string_literal(s, i + 1, buf.push(s[i]))
    }
}

/// Appends a partial token, merging consecutive literals.
pub open spec fn push_partial<F>(acc: Seq<PModel<F>>, p: PModel<F>) -> Seq<PModel<F>> {
    if p is Literal && acc.len() > 0 && acc.last() is Literal {
        acc.update(acc.len() - 1, PModel::Literal(acc.last()->Literal_0 + p->Literal_0))
    } else {
        acc.push(p)
    }
}

/// The first tokenizer pass over `s`, from index `i` on, with `acc` produced so far.
pub open spec fn spec_partial_tokens<F>(s: Seq<char>, i: int, acc: Seq<PModel<F>>) -> Result<Seq<PModel<F>>, EModel<F>>
    decreases s.len() - i,
{
    if i < 0 || i >= s.len() {
        Ok(acc)
    } else if s[i] == '"' {
        match spec_string_literal::<F>(s, i + 1, Seq::empty()) {
            Ok((body, j)) => if i < j <= s.len() { spec_partial_tokens(s, j, acc.push(PModel::Token(TModel::Str(body)))) } else { Ok(acc) },
            Err(e) => Err(e),
        }
    } else {
        spec_partial_tokens(s, i + 1, push_partial(acc, spec_char_to_partial_token(s[i])))
    }
}

proof fn lemma_string_literal_progress<F>(s: Seq<char>, i: int, buf: Seq<char>)
    ensures
        spec_string_literal::<F>(s, i, buf) matches Ok((_, j)) ==> i < j <= s.len(),
    decreases s.len() - i,
{
    if 0 <= i < s.len() && s[i] != '"' {
        if s[i] == '\\' {
            if i + 1 < s.len() && (s[i + 1] == '"' || s[i + 1] == '\\') {
                lemma_string_literal_progress::<F>(s, i + 2, buf.push(s[i + 1]));
            }
        } else {
            lemma_string_literal_progress::<F>(s, i + 1, buf.push(s[i]));
        }
    }
}

fn char_to_partial_token<F: EvalexprFloat>(c: char) -> (r: PartialToken<F>)
    ensures
        r@ == spec_char_to_partial_token::<F>(c),
{
    if c == '=' { PartialToken::Eq }
    else if c == '!' { PartialToken::ExclamationMark }
    else if c == '>' { PartialToken::Gt }
    else if c == '<' { PartialToken::Lt }
    else if c == '&' { PartialToken::Ampersand }
    else if c == '|' { PartialToken::VerticalBar }
    else if c == '-' { PartialToken::Minus }
    else if c == '+' { PartialToken::Plus }
    else if c == '*' { PartialToken::Star }
    else if c == '/' { PartialToken::Slash }
    else if c == '%' { PartialToken::Percent }
    else if c == '^' { PartialToken::Hat }
    else if c == '(' { PartialToken::Token(Token::LBrace) }
    else if c == ')' { PartialToken::Token(Token::RBrace) }
    else if c == ',' { PartialToken::Token(Token::Comma) }
    else if c == ';' { PartialToken::Token(Token::Semicolon) }
    else if is_whitespace(c) { PartialToken::Whitespace }
    else {
        let mut s = String::new();
        push_char(&mut s, c);
        assert(s@ =~= seq![c]);
        PartialToken::Literal(s)
    }
}

/// Parses the body of a string literal that starts at `start`, just after the opening quote.
fn parse_string_literal<F: EvalexprFloat>(chars: &Vec<char>, start: usize) -> (r: EvalexprResult<(String, usize), F>)
    requires
        start <= chars@.len(),
    ensures
        match spec_string_literal::<F>(chars@, start as int, Seq::empty()) {
            Ok((body, j)) => r matches Ok((b, k)) && b@ == body && k == j,
            Err(e) => r matches Err(x) && x@ == e,
        },
{
    let mut result = String::new();
    let mut i: usize = start;
    while i < chars.len()
        invariant
            start <= i <= chars@.len(),
            spec_string_literal::<F>(chars@, start as int, Seq::empty()) == spec_string_literal::<F>(chars@, i as int, result@),
        decreases chars@.len() - i,
    {
        let c = chars[i];
        if c == '"' {
            return Ok((result, i + 1));
        } else if c == '\\' {
            if i + 1 >= chars.len() {
                let mut msg = String::new();
                push_char(&mut msg, '\\');
                assert(msg@ =~= seq!['\\']);
                return Err(EvalexprError::IllegalEscapeSequence(msg));
            }
            let d = chars[i + 1];
            if d == '"' || d == '\\' {
                push_char(&mut result, d);
                i += 2;
            } else {
                let mut msg = String::new();
                push_char(&mut msg, '\\');
                push_char(&mut msg, d);
                assert(msg@ =~= seq!['\\', d]);
                return Err(EvalexprError::IllegalEscapeSequence(msg));
            }
        } else {
            push_char(&mut result, c);
            i += 1;
        }
    }
    Err(EvalexprError::UnmatchedDoubleQuote)
}

/// Converts a string to a vector of partial tokens.
pub fn str_to_partial_tokens<F: EvalexprFloat>(string: &str) -> (r: EvalexprResult<Vec<PartialToken<F>>, F>)
    ensures
        match spec_partial_tokens::<F>(string@, 0, Seq::empty()) {
            Ok(p) => r matches Ok(v) && partial_tokens_model(v@) == p,
            Err(e) => r matches Err(x) && x@ == e,
        },
{
    let chars = chars_of(string);
    let mut result: Vec<PartialToken<F>> = Vec::new();
    assert(partial_tokens_model(result@) =~= Seq::<PModel<F>>::empty());
    let mut i: usize = 0;
    while i < chars.len()
        invariant
            i <= chars@.len(),
            chars@ == string@,
            spec_partial_tokens::<F>(string@, 0, Seq::empty())
                == spec_partial_tokens::<F>(string@, i as int, partial_tokens_model(result@)),
        decreases chars@.len() - i,
    {
        let c = chars[i];
        if c == '"' {
            proof { lemma_string_literal_progress::<F>(chars@, i + 1, Seq::empty()); }
            match parse_string_literal::<F>(&chars, i + 1) {
                Ok((body, j)) => {
                    let ghost before = result@;
                    result.push(PartialToken::Token(Token::String(body)));
                    proof {
                        assert(partial_tokens_model(result@) =~= partial_tokens_model(before).push(PModel::Token(TModel::Str(body@))));
                    }
                    i = j;
                },
                Err(e) => {
                    return Err(e);
                },
            }
        } else {
            let p = char_to_partial_token::<F>(c);
            let ghost before = result@;
            let ghost pm = p@;
            let merge = match (&p, result.last()) {
                (PartialToken::Literal(_), Some(PartialToken::Literal(_))) => true,
                _ => false,
            };
            if merge {
                let last = result.pop().unwrap();
                match (last, p) {
                    (PartialToken::Literal(mut l), PartialToken::Literal(s)) => {
                        l.append(s.as_str());
                        result.push(PartialToken::Literal(l));
                    },
                    _ => {
                        assert(false);
                    },
                }
                proof {
                    assert(partial_tokens_model(result@) =~= push_partial(partial_tokens_model(before), pm));
                }
            } else {
                result.push(p);
                proof {
                    assert(partial_tokens_model(result@) =~= push_partial(partial_tokens_model(before), pm));
                }
            }
            i += 1;
        }
    }
    Ok(result)
}

/// The token that a literal stands for on its own: an integer, a float, a boolean or an identifier.
pub open spec fn spec_literal_token<F: EvalexprFloat>(lit: Seq<char>) -> TModel<F> {
    match spec_int_literal(lit) {
        Some(n) => TModel::Int(n),
        None => if is_float_literal(lit) {
            TModel::Float(F::spec_from_float_literal(lit))
        } else {
            match spec_bool_literal(lit) {
                Some(b) => TModel::Boolean(b),
                None => TModel::Identifier(lit),
            }
        },
    }
}

/// The text of a sign partial token.
pub open spec fn sign_char<F>(p: PModel<F>) -> char {
    if p is Plus { '+' } else { '-' }
}

/// One step of the second tokenizer pass at index `i`: the token produced (if any)
/// and the index of the next partial token to look at.
pub open spec fn spec_resolve_step<F: EvalexprFloat>(p: Seq<PModel<F>>, i: int) -> Result<(Option<TModel<F>>, int), EModel<F>> {
    let first = p[i];
    let second: Option<PModel<F>> = if i + 1 < p.len() { Some(p[i + 1]) } else { None };
    let third: Option<PModel<F>> = if i + 2 < p.len() { Some(p[i + 2]) } else { None };
    match first {
        PModel::Token(t) => Ok((Some(t), i + 1)),
        PModel::Plus => if second == Some(PModel::<F>::Eq) { Ok((Some(TModel::PlusAssign), i + 2)) } else { Ok((Some(TModel::Plus), i + 1)) },
        PModel::Minus => if second == Some(PModel::<F>::Eq) { Ok((Some(TModel::MinusAssign), i + 2)) } else { Ok((Some(TModel::Minus), i + 1)) },
        PModel::Star => if second == Some(PModel::<F>::Eq) { Ok((Some(TModel::StarAssign), i + 2)) } else { Ok((Some(TModel::Star), i + 1)) },
        PModel::Slash => if second == Some(PModel::<F>::Eq) { Ok((Some(TModel::SlashAssign), i + 2)) } else { Ok((Some(TModel::Slash), i + 1)) },
        PModel::Percent => if second == Some(PModel::<F>::Eq) { Ok((Some(TModel::PercentAssign), i + 2)) } else { Ok((Some(TModel::Percent), i + 1)) },
        PModel::Hat => if second == Some(PModel::<F>::Eq) { Ok((Some(TModel::HatAssign), i + 2)) } else { Ok((Some(TModel::Hat), i + 1)) },
        PModel::Literal(l) => {
            if spec_int_literal(l) is Some || is_float_literal(l) || spec_bool_literal(l) is Some {
                Ok((Some(spec_literal_token(l)), i + 1))
            } else if i + 2 < p.len() && (p[i + 1] is Plus || p[i + 1] is Minus) && p[i + 2] is Literal
                && is_float_literal(l.push(sign_char(p[i + 1])) + p[i + 2]->Literal_0) {
                Ok((Some(TModel::Float(F::spec_from_float_literal(l.push(sign_char(p[i + 1])) + p[i + 2]->Literal_0))), i + 3))
            } else {
                Ok((Some(TModel::Identifier(l)), i + 1))
            }
        },
        PModel::Whitespace => Ok((None, i + 1)),
        PModel::Eq => if second == Some(PModel::<F>::Eq) { Ok((Some(TModel::Eq), i + 2)) } else { Ok((Some(TModel::Assign), i + 1)) },
        PModel::ExclamationMark => if second == Some(PModel::<F>::Eq) { Ok((Some(TModel::Neq), i + 2)) } else { Ok((Some(TModel::Not), i + 1)) },
        PModel::Gt => if second == Some(PModel::<F>::Eq) { Ok((Some(TModel::Geq), i + 2)) } else { Ok((Some(TModel::Gt), i + 1)) },
        PModel::Lt => if second == Some(PModel::<F>::Eq) { Ok((Some(TModel::Leq), i + 2)) } else { Ok((Some(TModel::Lt), i + 1)) },
        PModel::Ampersand => if second == Some(PModel::<F>::Ampersand) {
            if third == Some(PModel::<F>::Eq) { Ok((Some(TModel::AndAssign), i + 3)) } else { Ok((Some(TModel::And), i + 2)) }
        } else {
            Err(EModel::UnmatchedPartialToken { first, second })
        },
        PModel::VerticalBar => if second == Some(PModel::<F>::VerticalBar) {
            if third == Some(PModel::<F>::Eq) { Ok((Some(TModel::OrAssign), i + 3)) } else { Ok((Some(TModel::Or), i + 2)) }
        } else {
            Err(EModel::UnmatchedPartialToken { first, second })
        },
    }
}

/// The second tokenizer pass over `p`, from index `i` on, with `acc` produced so far.
pub open spec fn spec_resolve<F: EvalexprFloat>(p: Seq<PModel<F>>, i: int, acc: Seq<TModel<F>>) -> Result<Seq<TModel<F>>, EModel<F>>
    decreases p.len() - i,
{
    if i < 0 || i >= p.len() {
        Ok(acc)
    } else {
        match spec_resolve_step::<F>(p, i) {
            Ok((t, j)) => if i < j {
                spec_resolve(p, j, match t { Some(t) => acc.push(t), None => acc })
            } else {
                Ok(acc)
            },
            Err(e) => Err(e),
        }
    }
}

/// The tokens of an expression string.
pub open spec fn spec_tokenize<F: EvalexprFloat>(s: Seq<char>) -> Result<Seq<TModel<F>>, EModel<F>> {
    match spec_partial_tokens::<F>(s, 0, Seq::empty()) {
        Ok(p) => spec_resolve::<F>(p, 0, Seq::empty()),
        Err(e) => Err(e),
    }
}

proof fn lemma_resolve_step_progress<F: EvalexprFloat>(p: Seq<PModel<F>>, i: int)
    requires
        0 <= i < p.len(),
    ensures
        spec_resolve_step::<F>(p, i) matches Ok((_, j)) ==> i < j,
{
}

impl<F: EvalexprFloat> PartialToken<F> {
    /// Duplicates the partial token.
    pub fn copy_partial(&self) -> (r: PartialToken<F>)
        ensures
            r@ == self@,
    {
        match self {
            PartialToken::Token(t) => PartialToken::Token(t.copy_token()),
            PartialToken::Literal(s) => PartialToken::Literal(s.clone()),
            PartialToken::Whitespace => PartialToken::Whitespace,
            PartialToken::Eq => PartialToken::Eq,
            PartialToken::ExclamationMark => PartialToken::ExclamationMark,
            PartialToken::Gt => PartialToken::Gt,
            PartialToken::Lt => PartialToken::Lt,
            PartialToken::Ampersand => PartialToken::Ampersand,
            PartialToken::VerticalBar => PartialToken::VerticalBar,
            PartialToken::Minus => PartialToken::Minus,
            PartialToken::Plus => PartialToken::Plus,
            PartialToken::Star => PartialToken::Star,
            PartialToken::Slash => PartialToken::Slash,
            PartialToken::Percent => PartialToken::Percent,
            PartialToken::Hat => PartialToken::Hat,
        }
    }
}

/// The token a literal stands for on its own.
fn literal_token<F: EvalexprFloat>(lit: &String) -> (r: Token<F>)
    ensures
        r@ == spec_literal_token::<F>(lit@),
{
    let chars = chars_of(lit.as_str());
    assert(chars@ == lit@);
    if let Some(n) = parse_int_literal(&chars) {
        Token::Int(n)
    } else if is_float_literal_exec(&chars) {
        Token::Float(F::from_float_literal(lit.as_str()))
    } else if let Some(b) = parse_bool_literal(&chars) {
        Token::Boolean(b)
    } else {
        Token::Identifier(lit.clone())
    }
}

/// Converts partial tokens into tokens: combines operators made of two or three characters,
/// drops whitespace, and resolves literals into numbers, booleans and identifiers.
pub fn partial_tokens_to_tokens<F: EvalexprFloat>(tokens: &Vec<PartialToken<F>>) -> (r: EvalexprResult<Vec<Token<F>>, F>)
    ensures
        match spec_resolve::<F>(partial_tokens_model(tokens@), 0, Seq::empty()) {
            Ok(t) => r matches Ok(v) && tokens_model(v@) == t,
            Err(e) => r matches Err(x) && x@ == e,
        },
{
    let ghost p = partial_tokens_model(tokens@);
    let mut result: Vec<Token<F>> = Vec::new();
    assert(tokens_model(result@) =~= Seq::<TModel<F>>::empty());
    let n = tokens.len();
    let mut i: usize = 0;
    while i < n
        invariant
            n == tokens@.len(),
            p == partial_tokens_model(tokens@),
            p.len() == n,
            i <= n,
            spec_resolve::<F>(p, 0, Seq::empty()) == spec_resolve::<F>(p, i as int, tokens_model(result@)),
        decreases n - i,
    {
        proof { lemma_resolve_step_progress::<F>(p, i as int); }
        let ghost before = result@;
        let second_is_eq = i + 1 < n && matches!(tokens[i + 1], PartialToken::Eq);
        assert(second_is_eq == (i + 1 < p.len() && p[i + 1] == PModel::<F>::Eq));
        let (token, next): (Option<Token<F>>, usize) = match &tokens[i] {
            PartialToken::Token(t) => (Some(t.copy_token()), i + 1),
            PartialToken::Plus => if second_is_eq { (Some(Token::PlusAssign), i + 2) } else { (Some(Token::Plus), i + 1) },
            PartialToken::Minus => if second_is_eq { (Some(Token::MinusAssign), i + 2) } else { (Some(Token::Minus), i + 1) },
            PartialToken::Star => if second_is_eq { (Some(Token::StarAssign), i + 2) } else { (Some(Token::Star), i + 1) },
            PartialToken::Slash => if second_is_eq { (Some(Token::SlashAssign), i + 2) } else { (Some(Token::Slash), i + 1) },
            PartialToken::Percent => if second_is_eq { (Some(Token::PercentAssign), i + 2) } else { (Some(Token::Percent), i + 1) },
            PartialToken::Hat => if second_is_eq { (Some(Token::HatAssign), i + 2) } else { (Some(Token::Hat), i + 1) },
            PartialToken::Literal(l) => {
                let lchars = chars_of(l.as_str());
                let standalone = parse_int_literal(&lchars).is_some() || is_float_literal_exec(&lchars)
                    || parse_bool_literal(&lchars).is_some();
                if standalone {
                    (Some(literal_token(l)), i + 1)
                } else if n - i > 2 && (matches!(tokens[i + 1], PartialToken::Plus) || matches!(tokens[i + 1], PartialToken::Minus))
                    && matches!(tokens[i + 2], PartialToken::Literal(_)) {
                    let sign = if matches!(tokens[i + 1], PartialToken::Plus) { '+' } else { '-' };
                    let mut combined = lchars;
                    combined.push(sign);
                    if let PartialToken::Literal(t) = &tokens[i + 2] {
                        let tchars = chars_of(t.as_str());
                        let ghost c0 = combined@;
                        let mut k: usize = 0;
                        while k < tchars.len()
                            invariant
                                k <= tchars@.len(),
                                combined@ == c0 + tchars@.subrange(0, k as int),
                            decreases tchars@.len() - k,
                        {
                            combined.push(tchars[k]);
                            proof {
                                assert(tchars@.subrange(0, k + 1) =~= tchars@.subrange(0, k as int).push(tchars@[k as int]));
                            }
                            k += 1;
                        }
                        proof {
                            assert(tchars@.subrange(0, tchars@.len() as int) =~= tchars@);
                            assert(combined@ =~= l@.push(sign_char(p[i + 1])) + p[i + 2]->Literal_0);
                        }
                        if is_float_literal_exec(&combined) {
                            let text = string_from_chars(&combined);
                            (Some(Token::Float(F::from_float_literal(text.as_str()))), i + 3)
                        } else {
                            (Some(Token::Identifier(l.clone())), i + 1)
                        }
                    } else {
                        (Some(Token::Identifier(l.clone())), i + 1)
                    }
                } else {
                    (Some(Token::Identifier(l.clone())), i + 1)
                }
            },
            PartialToken::Whitespace => (None, i + 1),
            PartialToken::Eq => if second_is_eq { (Some(Token::Eq), i + 2) } else { (Some(Token::Assign), i + 1) },
            PartialToken::ExclamationMark => if second_is_eq { (Some(Token::Neq), i + 2) } else { (Some(Token::Not), i + 1) },
            PartialToken::Gt => if second_is_eq { (Some(Token::Geq), i + 2) } else { (Some(Token::Gt), i + 1) },
            PartialToken::Lt => if second_is_eq { (Some(Token::Leq), i + 2) } else { (Some(Token::Lt), i + 1) },
            PartialToken::Ampersand => {
                if i + 1 < n && matches!(tokens[i + 1], PartialToken::Ampersand) {
                    if i + 2 < n && matches!(tokens[i + 2], PartialToken::Eq) { (Some(Token::AndAssign), i + 3) } else { (Some(Token::And), i + 2) }
                } else {
                    let second = if i + 1 < n { Some(tokens[i + 1].copy_partial()) } else { None };
                    return Err(EvalexprError::UnmatchedPartialToken { first: PartialToken::Ampersand, second });
                }
            },
            PartialToken::VerticalBar => {
                if i + 1 < n && matches!(tokens[i + 1], PartialToken::VerticalBar) {
                    if i + 2 < n && matches!(tokens[i + 2], PartialToken::Eq) { (Some(Token::OrAssign), i + 3) } else { (Some(Token::Or), i + 2) }
                } else {
                    let second = if i + 1 < n { Some(tokens[i + 1].copy_partial()) } else { None };
                    return Err(EvalexprError::UnmatchedPartialToken { first: PartialToken::VerticalBar, second });
                }
            },
        };
        match token {
            Some(t) => {
                result.push(t);
                proof {
                    assert(tokens_model(result@) =~= tokens_model(before).push(result@.last()@));
                }
            },
            None => {},
        }
        i = next;
    }
    Ok(result)
}

/// Splits an expression string into tokens.
pub fn tokenize<F: EvalexprFloat>(string: &str) -> (r: EvalexprResult<Vec<Token<F>>, F>)
    ensures
        match spec_tokenize::<F>(string@) {
            Ok(t) => r matches Ok(v) && tokens_model(v@) == t,
            Err(e) => r matches Err(x) && x@ == e,
        },
{
    let partial = str_to_partial_tokens::<F>(string)?;
    partial_tokens_to_tokens(&partial)
}

} // verus!
