use vstd::prelude::*;

verus! {

/// Failures of the expression tokenizer and evaluator.
#[derive(Debug, Clone, Copy, PartialEq, Eq, Structural)]
pub enum ErrorCode {
    InvalidNumber,
    InvalidCharacter,
    UndefinedVariable,
    InvalidExpression,
    UnsupportedOperator,
    UnsupportedFunction,
}

/// A lexical unit of an expression. Numbers keep their literal text; the
/// comparison `<=` is the operator `'<'`.
#[derive(Debug)]
pub enum Token {
    Number(Vec<char>),
    Variable(Vec<char>),
    Operator(char),
    Function(Vec<char>),
    LeftParen,
    RightParen,
}

/// The mathematical model of a `Token`.
pub enum Lexeme {
    Number(Seq<char>),
    Variable(Seq<char>),
    Operator(char),
    Function(Seq<char>),
    LeftParen,
    RightParen,
}

impl View for Token {
    type V = Lexeme;

    open spec fn view(&self) -> Lexeme {
        match self {
            Token::Number(t) => Lexeme::Number(t@),
            Token::Variable(n) => Lexeme::Variable(n@),
            Token::Operator(c) => Lexeme::Operator(*c),
            Token::Function(n) => Lexeme::Function(n@),
            Token::LeftParen => Lexeme::LeftParen,
            Token::RightParen => Lexeme::RightParen,
        }
    }
}

fn clone_chars(v: &Vec<char>) -> (r: Vec<char>)
    ensures
        r@ == v@,
{
    let r = v.clone();
    assert(r@ =~= v@);
    r
}

impl Clone for Token {
    fn clone(&self) -> (r: Token)
        ensures
            r@ == self@,
    {
        match self {
            Token::Number(t) => Token::Number(clone_chars(t)),
            Token::Variable(n) => Token::Variable(clone_chars(n)),
            Token::Operator(c) => Token::Operator(*c),
            Token::Function(n) => Token::Function(clone_chars(n)),
            Token::LeftParen => Token::LeftParen,
            Token::RightParen => Token::RightParen,
        }
    }
}

pub open spec fn lexemes(ts: Seq<Token>) -> Seq<Lexeme> {
    ts.map_values(|t: Token| t@)
}

pub open spec fn is_digit(c: char) -> bool {
    '0' <= c && c <= '9'
}

pub open spec fn is_number_char(c: char) -> bool {
    is_digit(c) || c == '.'
}

pub open spec fn is_letter(c: char) -> bool {
    ('a' <= c && c <= 'z') || ('A' <= c && c <= 'Z')
}

pub open spec fn is_operator_char(c: char) -> bool {
    c == '+' || c == '-' || c == '*' || c == '/' || c == '^'
}

/// What `char::is_alphanumeric` answers for a character.
pub uninterp spec fn alphanumeric(c: char) -> bool;

/// Relies on `char::is_alphanumeric`: Unicode's Alphabetic or Numeric property,
/// which on ASCII holds of the letters and digits only.
#[verifier::external_body]
fn is_alphanumeric(c: char) -> (r: bool)
    ensures
        r == alphanumeric(c),
        (c as u32) < 128 ==> (r <==> (is_letter(c) || is_digit(c))),
{
    c.is_alphanumeric()
}

/// The text of a decimal literal that Rust's float parser accepts, for text made
/// of digits and dots: at least one digit and at most one dot.
pub open spec fn valid_number(t: Seq<char>) -> bool {
    &&& exists|k: int| 0 <= k < t.len() && is_digit(#[trigger] t[k])
    &&& forall|a: int, b: int| 0 <= a < b < t.len() && t[a] == '.' ==> t[b] != '.'
}

/// The end of the run of number characters that starts at `j`.
pub open spec fn number_end(s: Seq<char>, j: int) -> int
    decreases s.len() - j,
{
    if 0 <= j < s.len() && is_number_char(s[j]) {
        number_end(s, j + 1)
    } else {
        j
    }
}

/// Whether `c` may continue a name: alphanumeric or an underscore.
pub open spec fn is_name_char(c: char) -> bool {
    alphanumeric(c) || c == '_'
}

/// The end of the run of name characters that starts at `j`.
pub open spec fn name_end(s: Seq<char>, j: int) -> int
    decreases s.len() - j,
{
    if 0 <= j < s.len() && is_name_char(s[j]) {
        name_end(s, j + 1)
    } else {
        j
    }
}

pub proof fn lemma_number_end_bounds(s: Seq<char>, j: int)
    requires
        0 <= j <= s.len(),
    ensures
        j <= number_end(s, j) <= s.len(),
        forall|k: int| j <= k < number_end(s, j) ==> is_number_char(#[trigger] s[k]),
        number_end(s, j) < s.len() ==> !is_number_char(s[number_end(s, j)]),
    decreases s.len() - j,
{
    if j < s.len() && is_number_char(s[j]) {
        lemma_number_end_bounds(s, j + 1);
    }
}

pub proof fn lemma_name_end_bounds(s: Seq<char>, j: int)
    requires
        0 <= j <= s.len(),
    ensures
        j <= name_end(s, j) <= s.len(),
    decreases s.len() - j,
{
    if j < s.len() && is_name_char(s[j]) {
        lemma_name_end_bounds(s, j + 1);
    }
}

pub open spec fn prepend(l: Lexeme, r: Result<Seq<Lexeme>, ErrorCode>) -> Result<
    Seq<Lexeme>,
    ErrorCode,
> {
    match r {
        Ok(rest) => Ok(seq![l] + rest),
        Err(e) => Err(e),
    }
}

pub open spec fn prepend_all(p: Seq<Lexeme>, r: Result<Seq<Lexeme>, ErrorCode>) -> Result<
    Seq<Lexeme>,
    ErrorCode,
> {
    match r {
        Ok(rest) => Ok(p + rest),
        Err(e) => Err(e),
    }
}

/// The tokens of `s` from position `i` on: a single left-to-right scan.
pub open spec fn lex(s: Seq<char>, i: int) -> Result<Seq<Lexeme>, ErrorCode>
    decreases s.len() - i,
    via lex_decreases
{
    if i < 0 || i >= s.len() {
        Ok(seq![])
    } else {
        let c = s[i];
        if is_number_char(c) {
            let j = number_end(s, i + 1);
            let text = s.subrange(i, j);
            if valid_number(text) {
                prepend(Lexeme::Number(text), lex(s, j))
            } else {
                Err(ErrorCode::InvalidNumber)
            }
        } else if is_operator_char(c) {
            prepend(Lexeme::Operator(c), lex(s, i + 1))
        } else if c == '<' && i + 1 < s.len() && s[i + 1] == '=' {
            prepend(Lexeme::Operator('<'), lex(s, i + 2))
        } else if c == '(' {
            prepend(Lexeme::LeftParen, lex(s, i + 1))
        } else if c == ')' {
            prepend(Lexeme::RightParen, lex(s, i + 1))
        } else if is_letter(c) {
            let j = name_end(s, i + 1);
            let name = s.subrange(i, j);
            if j < s.len() && s[j] == '(' {
                prepend(Lexeme::Function(name), lex(s, j))
            } else {
                prepend(Lexeme::Variable(name), lex(s, j))
            }
        } else if c == ' ' {
            lex(s, i + 1)
        } else {
            Err(ErrorCode::InvalidCharacter)
        }
    }
}

#[via_fn]
proof fn lex_decreases(s: Seq<char>, i: int) {
    if 0 <= i < s.len() {
        lemma_number_end_bounds(s, i + 1);
        lemma_name_end_bounds(s, i + 1);
    }
}

/// The tokens of a whole expression text.
pub open spec fn tokens_of(s: Seq<char>) -> Result<Seq<Lexeme>, ErrorCode> {
    lex(s, 0)
}

proof fn lemma_prepend_all_push(p: Seq<Lexeme>, l: Lexeme, r: Result<Seq<Lexeme>, ErrorCode>)
    ensures
        prepend_all(p, prepend(l, r)) == prepend_all(p.push(l), r),
{
    if let Ok(rest) = r {
        assert(p + (seq![l] + rest) =~= p.push(l) + rest);
    }
}

proof fn lemma_lexemes_push(ts: Seq<Token>, t: Token)
    ensures
        lexemes(ts.push(t)) == lexemes(ts).push(t@),
{
    assert(lexemes(ts.push(t)) =~= lexemes(ts).push(t@));
}

/// Checks the text of a number literal: at least one digit, at most one dot.
fn check_number(t: &Vec<char>) -> (r: bool)
    ensures
        r == valid_number(t@),
{
    let mut seen_digit = false;
    let mut seen_dot = false;
    let mut k: usize = 0;
    while k < t.len()
        invariant
            k <= t.len(),
            seen_digit == exists|m: int| 0 <= m < k && is_digit(#[trigger] t@[m]),
            seen_dot == exists|m: int| 0 <= m < k && #[trigger] t@[m] == '.',
            forall|a: int, b: int| 0 <= a < b < k && t@[a] == '.' ==> t@[b] != '.',
        decreases t.len() - k,
    {
        let c = t[k];
        if c == '.' {
            if seen_dot {
                let ghost a = choose|m: int| 0 <= m < k && #[trigger] t@[m] == '.';
                assert(t@[a] == '.' && t@[k as int] == '.');
                return false;
            }
            seen_dot = true;
        }
        if '0' <= c && c <= '9' {
            seen_digit = true;
        }
        k = k + 1;
    }
    seen_digit
}

/// Splits an expression into tokens.
pub fn tokenize(input: &str) -> (r: Result<Vec<Token>, ErrorCode>)
    ensures
        match r {
            Ok(ts) => tokens_of(input@) == Ok::<Seq<Lexeme>, ErrorCode>(lexemes(ts@)),
            Err(e) => tokens_of(input@) == Err::<Seq<Lexeme>, ErrorCode>(e),
        },
{
    let n = input.unicode_len();
    let ghost s = input@;
    let mut tokens: Vec<Token> = Vec::new();
    let mut i: usize = 0;
    assert(lexemes(tokens@) =~= seq![]);
    assert(seq![] + lex(s, 0)->Ok_0 =~= lex(s, 0)->Ok_0);
    while i < n
        invariant
            n == s.len(),
            s == input@,
            i <= n,
            lex(s, 0) == prepend_all(lexemes(tokens@), lex(s, i as int)),
        decreases n - i,
    {
        let ch = input.get_char(i);
        if ('0' <= ch && ch <= '9') || ch == '.' {
            let mut num: Vec<char> = Vec::new();
            num.push(ch);
            let mut j: usize = i + 1;
            proof {
                lemma_number_end_bounds(s, i + 1);
            }
            while j < n
                invariant
                    n == s.len(),
                    s == input@,
                    i < j <= n,
                    num@ == s.subrange(i as int, j as int),
                    number_end(s, i + 1) == number_end(s, j as int),
                ensures
                    i < j <= n,
                    num@ == s.subrange(i as int, j as int),
                    number_end(s, i + 1) == number_end(s, j as int),
                    j == n || !is_number_char(s[j as int]),
                decreases n - j,
            {
                let next = input.get_char(j);
                if ('0' <= next && next <= '9') || next == '.' {
                    num.push(next);
                    j = j + 1;
                    assert(num@ =~= s.subrange(i as int, j as int));
                } else {
                    break;
                }
            }
            assert(number_end(s, j as int) == j as int);
            assert(lex(s, i as int) == if valid_number(num@) {
                prepend(Lexeme::Number(num@), lex(s, j as int))
            } else {
                Err(ErrorCode::InvalidNumber)
            });
            if !check_number(&num) {
                return Err(ErrorCode::InvalidNumber);
            }
            let ghost tok = Token::Number(num);
            proof {
                lemma_prepend_all_push(lexemes(tokens@), tok@, lex(s, j as int));
                lemma_lexemes_push(tokens@, tok);
            }
            tokens.push(Token::Number(num));
            i = j;
        } else if ch == '+' || ch == '-' || ch == '*' || ch == '/' || ch == '^' {
            proof {
                lemma_prepend_all_push(lexemes(tokens@), Lexeme::Operator(ch), lex(s, i + 1));
                lemma_lexemes_push(tokens@, Token::Operator(ch));
            }
            tokens.push(Token::Operator(ch));
            i = i + 1;
        } else if ch == '<' && i + 1 < n && input.get_char(i + 1) == '=' {
            proof {
                lemma_prepend_all_push(lexemes(tokens@), Lexeme::Operator('<'), lex(s, i + 2));
                lemma_lexemes_push(tokens@, Token::Operator('<'));
            }
            tokens.push(Token::Operator('<'));
            i = i + 2;
        } else if ch == '(' {
            proof {
                lemma_prepend_all_push(lexemes(tokens@), Lexeme::LeftParen, lex(s, i + 1));
                lemma_lexemes_push(tokens@, Token::LeftParen);
            }
            tokens.push(Token::LeftParen);
            i = i + 1;
        } else if ch == ')' {
            proof {
                lemma_prepend_all_push(lexemes(tokens@), Lexeme::RightParen, lex(s, i + 1));
                lemma_lexemes_push(tokens@, Token::RightParen);
            }
            tokens.push(Token::RightParen);
            i = i + 1;
        } else if ('a' <= ch && ch <= 'z') || ('A' <= ch && ch <= 'Z') {
            let mut name: Vec<char> = Vec::new();
            name.push(ch);
            let mut j: usize = i + 1;
            proof {
                lemma_name_end_bounds(s, i + 1);
            }
            while j < n
                invariant
                    n == s.len(),
                    s == input@,
                    i < j <= n,
                    name@ == s.subrange(i as int, j as int),
                    name_end(s, i + 1) == name_end(s, j as int),
                ensures
                    i < j <= n,
                    name@ == s.subrange(i as int, j as int),
                    name_end(s, i + 1) == name_end(s, j as int),
                    j == n || !is_name_char(s[j as int]),
                decreases n - j,
            {
                let next = input.get_char(j);
                if next == '_' || is_alphanumeric(next) {
                    name.push(next);
                    j = j + 1;
                    assert(name@ =~= s.subrange(i as int, j as int));
                } else {
                    break;
                }
            }
            assert(name_end(s, j as int) == j as int);
            let is_call = j < n && input.get_char(j) == '(';
            let tok = if is_call {
                Token::Function(name)
            } else {
                Token::Variable(name)
            };
            proof {
                lemma_prepend_all_push(lexemes(tokens@), tok@, lex(s, j as int));
                lemma_lexemes_push(tokens@, tok);
            }
            tokens.push(tok);
            i = j;
        } else if ch == ' ' {
            assert(lex(s, i as int) == lex(s, i + 1));
            i = i + 1;
        } else {
            assert(lex(s, i as int) == Err::<Seq<Lexeme>, ErrorCode>(ErrorCode::InvalidCharacter));
            return Err(ErrorCode::InvalidCharacter);
        }
    }
    assert(lexemes(tokens@) + seq![] =~= lexemes(tokens@));
    Ok(tokens)
}


/// An exact decimal number: `mantissa / 10^scale`.
#[derive(Debug, Clone, Copy, PartialEq, Eq, Structural)]
pub struct Decimal {
    pub mantissa: i128,
    pub scale: u8,
}

impl Decimal {
    /// The integer `n`.
    pub fn from_int(n: i128) -> (r: Decimal)
        ensures
            r.mantissa == n,
            r.scale == 0,
    {
        Decimal { mantissa: n, scale: 0 }
    }
}

/// The functions an expression may call, each on one argument.
#[derive(Debug, Clone, Copy, PartialEq, Eq, Structural)]
pub enum Func {
    Exp,
    Ln,
    Sin,
    Cos,
}

/// One instruction of a compiled expression, run on a value stack.
#[derive(Debug)]
pub enum Step {
    /// Push the number that the literal text denotes.
    Literal(Vec<char>),
    /// Push a bound value.
    Value(Decimal),
    /// Pop `b`, pop `a`, push `a op b`; `'<'` stands for `a <= b` (1 or 0).
    Apply(char),
    /// Pop an argument and push the function's value on it.
    Call(Func),
}

pub enum StepModel {
    Literal(Seq<char>),
    Value(Decimal),
    Apply(char),
    Call(Func),
}

impl View for Step {
    type V = StepModel;

    open spec fn view(&self) -> StepModel {
        match self {
            Step::Literal(t) => StepModel::Literal(t@),
            Step::Value(v) => StepModel::Value(*v),
            Step::Apply(c) => StepModel::Apply(*c),
            Step::Call(f) => StepModel::Call(*f),
        }
    }
}

pub open spec fn step_models(s: Seq<Step>) -> Seq<StepModel> {
    s.map_values(|x: Step| x@)
}

/// A variable binding of a parser.
#[derive(Debug)]
pub struct Binding {
    pub name: Vec<char>,
    pub value: Decimal,
}

/// The value bound to `name`: the latest binding of it.
pub open spec fn lookup(b: Seq<Binding>, name: Seq<char>) -> Option<Decimal>
    decreases b.len(),
{
    if b.len() == 0 {
        None
    } else if b.last().name@ == name {
        Some(b.last().value)
    } else {
        lookup(b.drop_last(), name)
    }
}

/// The bindings as a map from name to value.
pub open spec fn variables_map(b: Seq<Binding>) -> Map<Seq<char>, Decimal> {
    Map::new(|n: Seq<char>| lookup(b, n) is Some, |n: Seq<char>| lookup(b, n)->Some_0)
}

pub open spec fn precedence(op: char) -> u8 {
    if op == '+' || op == '-' {
        1
    } else if op == '*' || op == '/' {
        2
    } else if op == '^' {
        3
    } else {
        0
    }
}

/// Moves operators of at least `op`'s precedence from the top of `ops` to `out`.
pub open spec fn pop_higher(out: Seq<Lexeme>, ops: Seq<Lexeme>, op: char) -> (Seq<Lexeme>, Seq<Lexeme>)
    decreases ops.len(),
{
    if ops.len() > 0 && ops.last() is Operator && precedence(ops.last()->Operator_0) >= precedence(op) {
        pop_higher(out.push(ops.last()), ops.drop_last(), op)
    } else {
        (out, ops)
    }
}

/// Moves everything above the nearest left parenthesis to `out` and drops the parenthesis.
pub open spec fn pop_group(out: Seq<Lexeme>, ops: Seq<Lexeme>) -> (Seq<Lexeme>, Seq<Lexeme>)
    decreases ops.len(),
{
    if ops.len() == 0 {
        (out, ops)
    } else if ops.last() is LeftParen {
        (out, ops.drop_last())
    } else {
        pop_group(out.push(ops.last()), ops.drop_last())
    }
}

/// One step of the shunting-yard: the output queue and operator stack after token `t`.
pub open spec fn shunt_step(st: (Seq<Lexeme>, Seq<Lexeme>), t: Lexeme) -> (Seq<Lexeme>, Seq<Lexeme>) {
    match t {
        Lexeme::Number(_) => (st.0.push(t), st.1),
        Lexeme::Variable(_) => (st.0.push(t), st.1),
        Lexeme::Function(_) => (st.0, st.1.push(t)),
        Lexeme::LeftParen => (st.0, st.1.push(t)),
        Lexeme::Operator(op) => {
            let p = pop_higher(st.0, st.1, op);
            (p.0, p.1.push(t))
        },
        Lexeme::RightParen => {
            let p = pop_group(st.0, st.1);
            if p.1.len() > 0 && p.1.last() is Function {
                (p.0.push(p.1.last()), p.1.drop_last())
            } else {
                p
            }
        },
    }
}

pub open spec fn shunt(ts: Seq<Lexeme>) -> (Seq<Lexeme>, Seq<Lexeme>)
    decreases ts.len(),
{
    if ts.len() == 0 {
        (seq![], seq![])
    } else {
        shunt_step(shunt(ts.drop_last()), ts.last())
    }
}

/// Moves the whole operator stack to `out`, top first.
pub open spec fn drain(out: Seq<Lexeme>, ops: Seq<Lexeme>) -> Seq<Lexeme>
    decreases ops.len(),
{
    if ops.len() == 0 {
        out
    } else {
        drain(out.push(ops.last()), ops.drop_last())
    }
}

/// The tokens in postfix order, as the shunting-yard reorders them.
pub open spec fn postfix(ts: Seq<Lexeme>) -> Seq<Lexeme> {
    drain(shunt(ts).0, shunt(ts).1)
}

proof fn lemma_lexemes_last(ts: Seq<Token>)
    requires
        ts.len() > 0,
    ensures
        lexemes(ts).last() == ts.last()@,
        lexemes(ts.drop_last()) == lexemes(ts).drop_last(),
        lexemes(ts).len() == ts.len(),
{
    assert(lexemes(ts.drop_last()) =~= lexemes(ts).drop_last());
}

/// Reorders infix tokens into postfix order.
pub fn to_postfix(tokens: &Vec<Token>) -> (r: Vec<Token>)
    ensures
        lexemes(r@) == postfix(lexemes(tokens@)),
{
    let ghost ts = lexemes(tokens@);
    let mut out: Vec<Token> = Vec::new();
    let mut ops: Vec<Token> = Vec::new();
    let mut i: usize = 0;
    assert(lexemes(out@) =~= seq![]);
    assert(lexemes(ops@) =~= seq![]);
    assert(ts.take(0) =~= seq![]);
    while i < tokens.len()
        invariant
            ts == lexemes(tokens@),
            i <= tokens.len(),
            (lexemes(out@), lexemes(ops@)) == shunt(ts.take(i as int)),
        decreases tokens.len() - i,
    {
        let ghost st = (lexemes(out@), lexemes(ops@));
        proof {
            assert(ts.take(i + 1).drop_last() =~= ts.take(i as int));
            assert(ts.take(i + 1).last() == tokens@[i as int]@);
        }
        let token = &tokens[i];
        match token {
            Token::Number(_) | Token::Variable(_) => {
                let c = token.clone();
                proof { lemma_lexemes_push(out@, c); }
                out.push(c);
            },
            Token::Function(_) | Token::LeftParen => {
                let c = token.clone();
                proof { lemma_lexemes_push(ops@, c); }
                ops.push(c);
            },
            Token::Operator(op) => {
                while ops.len() > 0
                    invariant
                        pop_higher(st.0, st.1, *op) == pop_higher(lexemes(out@), lexemes(ops@), *op),
                    ensures
                        pop_higher(st.0, st.1, *op) == (lexemes(out@), lexemes(ops@)),
                    decreases ops.len(),
                {
                    let last = ops.len() - 1;
                    let higher = match &ops[last] {
                        Token::Operator(top) => precedence_of(*top) >= precedence_of(*op),
                        _ => false,
                    };
                    proof { lemma_lexemes_last(ops@); }
                    if higher {
                        let t = ops.pop().unwrap();
                        proof { lemma_lexemes_push(out@, t); }
                        out.push(t);
                    } else {
                        break;
                    }
                }
                let c = token.clone();
                proof { lemma_lexemes_push(ops@, c); }
                ops.push(c);
            },
            Token::RightParen => {
                while ops.len() > 0
                    invariant_except_break
                        pop_group(st.0, st.1) == pop_group(lexemes(out@), lexemes(ops@)),
                    ensures
                        pop_group(st.0, st.1) == (lexemes(out@), lexemes(ops@)),
                    decreases ops.len(),
                {
                    proof { lemma_lexemes_last(ops@); }
                    let t = ops.pop().unwrap();
                    if let Token::LeftParen = t {
                        break;
                    }
                    proof { lemma_lexemes_push(out@, t); }
                    out.push(t);
                }
                if ops.len() > 0 {
                    proof { lemma_lexemes_last(ops@); }
                    let last = ops.len() - 1;
                    if let Token::Function(_) = &ops[last] {
                        let t = ops.pop().unwrap();
                        proof { lemma_lexemes_push(out@, t); }
                        out.push(t);
                    }
                }
            },
        }
        i = i + 1;
    }
    assert(ts.take(tokens.len() as int) =~= ts);
    while ops.len() > 0
        invariant
            postfix(ts) == drain(lexemes(out@), lexemes(ops@)),
        decreases ops.len(),
    {
        proof { lemma_lexemes_last(ops@); }
        let t = ops.pop().unwrap();
        proof { lemma_lexemes_push(out@, t); }
        out.push(t);
    }
    out
}

fn precedence_of(op: char) -> (r: u8)
    ensures
        r == precedence(op),
{
    if op == '+' || op == '-' {
        1
    } else if op == '*' || op == '/' {
        2
    } else if op == '^' {
        3
    } else {
        0
    }
}


/// The function that a name calls, if it is one of the supported ones.
pub open spec fn function_named(name: Seq<char>) -> Option<Func> {
    if name == seq!['e', 'x', 'p'] {
        Some(Func::Exp)
    } else if name == seq!['l', 'n'] {
        Some(Func::Ln)
    } else if name == seq!['s', 'i', 'n'] {
        Some(Func::Sin)
    } else if name == seq!['c', 'o', 's'] {
        Some(Func::Cos)
    } else {
        None
    }
}

/// One postfix token run on a stack of `depth` values: the steps so far and the new depth.
pub open spec fn run_token(t: Lexeme, vars: Map<Seq<char>, Decimal>, steps: Seq<StepModel>, depth: int) -> Result<
    (Seq<StepModel>, int),
    ErrorCode,
> {
    match t {
        Lexeme::Number(text) => Ok((steps.push(StepModel::Literal(text)), depth + 1)),
        Lexeme::Variable(name) => if vars.contains_key(name) {
            Ok((steps.push(StepModel::Value(vars[name])), depth + 1))
        } else {
            Err(ErrorCode::UndefinedVariable)
        },
        Lexeme::Operator(op) => if depth < 2 {
            Err(ErrorCode::InvalidExpression)
        } else if is_operator_char(op) || op == '<' {
            Ok((steps.push(StepModel::Apply(op)), depth - 1))
        } else {
            Err(ErrorCode::UnsupportedOperator)
        },
        Lexeme::Function(name) => if depth < 1 {
            Err(ErrorCode::InvalidExpression)
        } else {
            match function_named(name) {
                Some(f) => Ok((steps.push(StepModel::Call(f)), depth)),
                None => Err(ErrorCode::UnsupportedFunction),
            }
        },
        _ => Err(ErrorCode::InvalidExpression),
    }
}

/// The first `n` postfix tokens run from an empty stack.
pub open spec fn run_prefix(post: Seq<Lexeme>, vars: Map<Seq<char>, Decimal>, n: int) -> Result<
    (Seq<StepModel>, int),
    ErrorCode,
>
    decreases n,
{
    if n <= 0 {
        Ok((seq![], 0))
    } else {
        match run_prefix(post, vars, n - 1) {
            Err(e) => Err(e),
            Ok(st) => run_token(post[n - 1], vars, st.0, st.1),
        }
    }
}

/// The program of a postfix token sequence, or the first error that running it meets.
pub open spec fn compiled(post: Seq<Lexeme>, vars: Map<Seq<char>, Decimal>) -> Result<
    Seq<StepModel>,
    ErrorCode,
> {
    match run_prefix(post, vars, post.len() as int) {
        Err(e) => Err(e),
        Ok(st) => if st.1 >= 1 {
            Ok(st.0)
        } else {
            Err(ErrorCode::InvalidExpression)
        },
    }
}

/// How many values a step pops, and how it changes the stack's depth.
pub open spec fn pops(s: StepModel) -> int {
    match s {
        StepModel::Apply(_) => 2,
        StepModel::Call(_) => 1,
        _ => 0,
    }
}

pub open spec fn effect(s: StepModel) -> int {
    match s {
        StepModel::Apply(_) => -1,
        StepModel::Call(_) => 0,
        _ => 1,
    }
}

/// The stack depth after the first `n` steps.
pub open spec fn depth_after(p: Seq<StepModel>, n: int) -> int
    decreases n,
{
    if n <= 0 {
        0
    } else {
        depth_after(p, n - 1) + effect(p[n - 1])
    }
}

/// Every step finds the values it pops, and a value is left at the end.
pub open spec fn stack_safe(p: Seq<StepModel>) -> bool {
    &&& forall|k: int| 0 <= k < p.len() ==> depth_after(p, k) >= pops(#[trigger] p[k])
    &&& depth_after(p, p.len() as int) >= 1
}

fn same_chars(a: &Vec<char>, b: &Vec<char>) -> (r: bool)
    ensures
        r == (a@ == b@),
{
    if a.len() != b.len() {
        return false;
    }
    let mut k: usize = 0;
    while k < a.len()
        invariant
            a.len() == b.len(),
            k <= a.len(),
            forall|m: int| 0 <= m < k ==> a@[m] == b@[m],
        decreases a.len() - k,
    {
        if a[k] != b[k] {
            return false;
        }
        k = k + 1;
    }
    assert(a@ =~= b@);
    true
}

fn function_of(name: &Vec<char>) -> (r: Option<Func>)
    ensures
        r == function_named(name@),
{
    let n = name.len();
    if n == 3 && name[0] == 'e' && name[1] == 'x' && name[2] == 'p' {
        assert(name@ =~= seq!['e', 'x', 'p']);
        Some(Func::Exp)
    } else if n == 2 && name[0] == 'l' && name[1] == 'n' {
        assert(name@ =~= seq!['l', 'n']);
        Some(Func::Ln)
    } else if n == 3 && name[0] == 's' && name[1] == 'i' && name[2] == 'n' {
        assert(name@ =~= seq!['s', 'i', 'n']);
        Some(Func::Sin)
    } else if n == 3 && name[0] == 'c' && name[1] == 'o' && name[2] == 's' {
        assert(name@ =~= seq!['c', 'o', 's']);
        Some(Func::Cos)
    } else {
        proof {
            if name@ == seq!['e', 'x', 'p'] || name@ == seq!['s', 'i', 'n'] || name@ == seq!['c', 'o', 's'] {
                assert(name@.len() == 3);
                assert(name@[0] == name[0]);
            }
            if name@ == seq!['l', 'n'] {
                assert(name@.len() == 2);
            }
        }
        None
    }
}

fn chars_of(s: &str) -> (r: Vec<char>)
    ensures
        r@ == s@,
{
    let n = s.unicode_len();
    let mut r: Vec<char> = Vec::new();
    let mut k: usize = 0;
    while k < n
        invariant
            n == s@.len(),
            k <= n,
            r@ == s@.subrange(0, k as int),
        decreases n - k,
    {
        r.push(s.get_char(k));
        k = k + 1;
        assert(r@ =~= s@.subrange(0, k as int));
    }
    assert(r@ =~= s@);
    r
}

/// A tokenized expression with its variable bindings.
#[derive(Debug)]
pub struct Parser {
    pub tokens: Vec<Token>,
    pub variables: Vec<Binding>,
}

impl Parser {
    /// Tokenizes `input`; no variable is bound yet.
    pub fn new(input: &str) -> (r: Result<Parser, ErrorCode>)
        ensures
            match r {
                Ok(p) => tokens_of(input@) == Ok::<Seq<Lexeme>, ErrorCode>(lexemes(p.tokens@))
                    && variables_map(p.variables@) == Map::<Seq<char>, Decimal>::empty(),
                Err(e) => tokens_of(input@) == Err::<Seq<Lexeme>, ErrorCode>(e),
            },
    {
        let tokens = tokenize(input)?;
        let p = Parser { tokens, variables: Vec::new() };
        assert(variables_map(p.variables@) =~= Map::<Seq<char>, Decimal>::empty());
        Ok(p)
    }

    /// Binds `name` to `value`, replacing an earlier binding of it.
    pub fn set_variable(&mut self, name: &str, value: Decimal)
        ensures
            final(self).tokens@ == old(self).tokens@,
            variables_map(final(self).variables@) == variables_map(old(self).variables@).insert(
                name@,
                value,
            ),
    {
        let b = Binding { name: chars_of(name), value };
        self.variables.push(b);
        assert(self.variables@.drop_last() =~= old(self).variables@);
        assert(variables_map(self.variables@) =~= variables_map(old(self).variables@).insert(
            name@,
            value,
        ));
    }

    fn value_of(&self, name: &Vec<char>) -> (r: Option<Decimal>)
        ensures
            r == lookup(self.variables@, name@),
    {
        let mut k: usize = self.variables.len();
        assert(self.variables@.take(k as int) =~= self.variables@);
        while k > 0
            invariant
                k <= self.variables.len(),
                lookup(self.variables@, name@) == lookup(self.variables@.take(k as int), name@),
            decreases k,
        {
            let ghost pre = self.variables@.take(k as int);
            assert(pre.drop_last() =~= self.variables@.take(k - 1));
            let b = &self.variables[k - 1];
            if same_chars(&b.name, name) {
                return Some(b.value);
            }
            k = k - 1;
        }
        None
    }

    /// Reorders the tokens into postfix and checks them against a value stack:
    /// the program to run, or the first error that running it would meet.
    pub fn compile(&self) -> (r: Result<Vec<Step>, ErrorCode>)
        ensures
            match r {
                Ok(p) => compiled(postfix(lexemes(self.tokens@)), variables_map(self.variables@)) == Ok::<
                    Seq<StepModel>,
                    ErrorCode,
                >(step_models(p@)) && stack_safe(step_models(p@)),
                Err(e) => compiled(postfix(lexemes(self.tokens@)), variables_map(self.variables@)) == Err::<
                    Seq<StepModel>,
                    ErrorCode,
                >(e),
            },
    {
        let post = to_postfix(&self.tokens);
        let ghost pm = lexemes(post@);
        let ghost b = variables_map(self.variables@);
        let mut steps: Vec<Step> = Vec::new();
        let mut depth: usize = 0;
        let mut i: usize = 0;
        assert(step_models(steps@) =~= seq![]);
        while i < post.len()
            invariant
                pm == lexemes(post@),
                pm == postfix(lexemes(self.tokens@)),
                b == variables_map(self.variables@),
                i <= post.len(),
                depth <= i,
                run_prefix(pm, b, i as int) == Ok::<(Seq<StepModel>, int), ErrorCode>(
                    (step_models(steps@), depth as int),
                ),
            decreases post.len() - i,
        {
            let ghost sm = step_models(steps@);
            assert(pm[i as int] == post@[i as int]@);
            assert(run_prefix(pm, b, i + 1) == run_token(pm[i as int], b, sm, depth as int));
            proof {
                if run_prefix(pm, b, i + 1) is Err {
                    lemma_run_error(pm, b, i + 1, pm.len() as int);
                }
            }
            let step = match &post[i] {
                Token::Number(text) => Step::Literal(clone_chars(text)),
                Token::Variable(name) => match self.value_of(name) {
                    Some(v) => Step::Value(v),
                    None => {
                        return Err(ErrorCode::UndefinedVariable);
                    },
                },
                Token::Operator(op) => {
                    if depth < 2 {
                        return Err(ErrorCode::InvalidExpression);
                    }
                    let op = *op;
                    if !(op == '+' || op == '-' || op == '*' || op == '/' || op == '^' || op == '<') {
                        return Err(ErrorCode::UnsupportedOperator);
                    }
                    Step::Apply(op)
                },
                Token::Function(name) => {
                    if depth < 1 {
                        return Err(ErrorCode::InvalidExpression);
                    }
                    match function_of(name) {
                        Some(f) => Step::Call(f),
                        None => {
                            return Err(ErrorCode::UnsupportedFunction);
                        },
                    }
                },
                _ => {
                    return Err(ErrorCode::InvalidExpression);
                },
            };
            let ghost m = step@;
            depth = match step {
                Step::Apply(_) => depth - 1,
                Step::Call(_) => depth,
                _ => depth + 1,
            };
            steps.push(step);
            assert(step_models(steps@) =~= sm.push(m));
            i = i + 1;
        }
        if depth < 1 {
            return Err(ErrorCode::InvalidExpression);
        }
        proof {
            compiled_programs_are_stack_safe(pm, b);
        }
        Ok(steps)
    }
}

proof fn lemma_run_error(post: Seq<Lexeme>, vars: Map<Seq<char>, Decimal>, n: int, m: int)
    requires
        0 <= n <= m,
        run_prefix(post, vars, n) is Err,
    ensures
        run_prefix(post, vars, m) == run_prefix(post, vars, n),
    decreases m - n,
{
    if m > n {
        lemma_run_error(post, vars, n, m - 1);
    }
}

proof fn lemma_depth_after_prefix(p: Seq<StepModel>, m: StepModel, k: int)
    requires
        0 <= k <= p.len(),
    ensures
        depth_after(p.push(m), k) == depth_after(p, k),
    decreases k,
{
    if k > 0 {
        lemma_depth_after_prefix(p, m, k - 1);
        assert(p.push(m)[k - 1] == p[k - 1]);
    }
}

proof fn lemma_run_prefix_safe(post: Seq<Lexeme>, vars: Map<Seq<char>, Decimal>, n: int)
    requires
        0 <= n <= post.len(),
        run_prefix(post, vars, n) is Ok,
    ensures
        ({
            let st = run_prefix(post, vars, n)->Ok_0;
            &&& st.1 == depth_after(st.0, st.0.len() as int)
            &&& forall|k: int| 0 <= k < st.0.len() ==> depth_after(st.0, k) >= pops(#[trigger] st.0[k])
        }),
    decreases n,
{
    if n > 0 {
        lemma_run_prefix_safe(post, vars, n - 1);
        let prev = run_prefix(post, vars, n - 1)->Ok_0;
        let st = run_prefix(post, vars, n)->Ok_0;
        assert(st == run_token(post[n - 1], vars, prev.0, prev.1)->Ok_0);
        let m = st.0.last();
        assert(st.0 == prev.0.push(m));
        assert forall|k: int| 0 <= k <= prev.0.len() implies depth_after(st.0, k) == depth_after(
            prev.0,
            k,
        ) by {
            lemma_depth_after_prefix(prev.0, m, k);
        }
        assert forall|k: int| 0 <= k < st.0.len() implies depth_after(st.0, k) >= pops(
            #[trigger] st.0[k],
        ) by {
            if k < prev.0.len() {
                assert(st.0[k] == prev.0[k]);
            }
        }
    } else {
        assert(run_prefix(post, vars, 0)->Ok_0.0 =~= seq![]);
    }
}

/// A program the compiler accepts never pops an empty stack and leaves a value.
pub proof fn compiled_programs_are_stack_safe(post: Seq<Lexeme>, vars: Map<Seq<char>, Decimal>)
    requires
        compiled(post, vars) is Ok,
    ensures
        stack_safe(compiled(post, vars)->Ok_0),
{
    lemma_run_prefix_safe(post, vars, post.len() as int);
}

} // verus!
