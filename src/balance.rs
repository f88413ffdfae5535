use vstd::prelude::*;

use crate::equation::{formula, has_required, check_required, ChronoEquationType, EquationParams};
use crate::error::TokenError;
use crate::tokenizer::{
    compiled, compiled_programs_are_stack_safe, postfix, stack_safe, step_models, tokens_of,
    variables_map, Decimal, Parser, Step, StepModel,
};

verus! {

/// Stored amounts are fixed-point integers with this many decimal places.
pub const TOKEN_DECIMALS: u8 = 9;

/// The current balance of an account, or the program that computes it.
///
/// `Formula` holds a compiled expression over whole tokens. Its value is run in
/// floating point, multiplied by `10^TOKEN_DECIMALS` and rounded to the nearest
/// integer, with a negative result floored at 0.
#[derive(Debug)]
pub enum BalanceEvaluation {
    Exact(u64),
    Formula(Vec<Step>),
}

pub enum BalanceModel {
    Exact(u64),
    Formula(Seq<StepModel>),
}

impl View for BalanceEvaluation {
    type V = BalanceModel;

    open spec fn view(&self) -> BalanceModel {
        match self {
            BalanceEvaluation::Exact(v) => BalanceModel::Exact(*v),
            BalanceEvaluation::Formula(p) => BalanceModel::Formula(step_models(p@)),
        }
    }
}

pub open spec fn evaluation_model(r: Result<BalanceEvaluation, TokenError>) -> Result<
    BalanceModel,
    TokenError,
> {
    match r {
        Ok(e) => Ok(e@),
        Err(e) => Err(e),
    }
}

/// Seconds from `creation_time` to `current_time`: never negative, saturating at `i64::MAX`.
pub open spec fn elapsed(creation_time: i64, current_time: i64) -> int {
    let d = current_time - creation_time;
    if d <= 0 {
        0
    } else if d > i64::MAX {
        i64::MAX as int
    } else {
        d
    }
}

pub open spec fn integer(n: int) -> Decimal {
    Decimal { mantissa: n as i128, scale: 0 }
}

pub open spec fn bind_if(m: Map<Seq<char>, Decimal>, name: Seq<char>, v: Option<Decimal>) -> Map<
    Seq<char>,
    Decimal,
> {
    match v {
        Some(d) => m.insert(name, d),
        None => m,
    }
}

pub open spec fn signed_value(v: Option<i64>) -> Option<Decimal> {
    match v {
        Some(n) => Some(integer(n as int)),
        None => None,
    }
}

pub open spec fn unsigned_value(v: Option<u64>) -> Option<Decimal> {
    match v {
        Some(n) => Some(integer(n as int)),
        None => None,
    }
}

/// The variables a formula sees: `x` the snapshot in whole tokens, `t` the elapsed
/// seconds, and each parameter that is present, under its own name.
pub open spec fn balance_bindings(snapshot: u64, t: int, p: EquationParams) -> Map<Seq<char>, Decimal> {
    let m0 = Map::<Seq<char>, Decimal>::empty().insert(
        "x"@,
        Decimal { mantissa: snapshot as i128, scale: TOKEN_DECIMALS },
    ).insert("t"@, integer(t));
    let m1 = bind_if(m0, "expiration_time"@, signed_value(p.expiration_time));
    let m2 = bind_if(m1, "inflation_rate"@, unsigned_value(p.inflation_rate));
    let m3 = bind_if(m2, "decay_rate"@, unsigned_value(p.decay_rate));
    let m4 = bind_if(m3, "time_unit"@, unsigned_value(p.time_unit));
    let m5 = bind_if(m4, "slope"@, signed_value(p.slope));
    let m6 = bind_if(m5, "decay_constant"@, p.decay_constant);
    bind_if(m6, "reup_boost"@, unsigned_value(p.reup_boost))
}

/// The balance that formula text `text` gives: the identity formula `x` keeps the
/// snapshot exactly; any other is compiled, and a failure to tokenize or compile it
/// is a balance evaluation error.
pub open spec fn template_evaluation(
    snapshot: u64,
    text: Seq<char>,
    p: EquationParams,
    creation_time: i64,
    current_time: i64,
) -> Result<BalanceModel, TokenError> {
    if text == seq!['x'] {
        Ok(BalanceModel::Exact(snapshot))
    } else {
        match tokens_of(text) {
            Err(_) => Err(TokenError::BalanceEvaluationError),
            Ok(ts) => match compiled(
                postfix(ts),
                balance_bindings(snapshot, elapsed(creation_time, current_time), p),
            ) {
                Ok(steps) => Ok(BalanceModel::Formula(steps)),
                Err(_) => Err(TokenError::BalanceEvaluationError),
            },
        }
    }
}

/// The balance of an account with snapshot `snapshot` under family `f`.
pub open spec fn balance_evaluation(
    snapshot: u64,
    f: ChronoEquationType,
    p: EquationParams,
    creation_time: i64,
    current_time: i64,
) -> Result<BalanceModel, TokenError> {
    if !has_required(f, p) {
        Err(TokenError::InvalidAccountData)
    } else {
        template_evaluation(snapshot, formula(f, p), p, creation_time, current_time)
    }
}

fn elapsed_seconds(creation_time: i64, current_time: i64) -> (r: i64)
    ensures
        r == elapsed(creation_time, current_time),
{
    let d: i128 = current_time as i128 - creation_time as i128;
    if d <= 0 {
        0
    } else if d > i64::MAX as i128 {
        i64::MAX
    } else {
        d as i64
    }
}

fn is_identity(text: &str) -> (r: bool)
    ensures
        r == (text@ == seq!['x']),
{
    let n = text.unicode_len();
    if n == 1 && text.get_char(0) == 'x' {
        assert(text@ =~= seq!['x']);
        true
    } else {
        false
    }
}

/// Resolves the balance that formula `equation` gives for a snapshot taken at
/// `creation_time`, queried at `current_time`.
pub fn evaluate_template(
    last_balance_snapshot: u64,
    equation: &str,
    params: &EquationParams,
    creation_time: i64,
    current_time: i64,
) -> (r: Result<BalanceEvaluation, TokenError>)
    ensures
        evaluation_model(r) == template_evaluation(
            last_balance_snapshot,
            equation@,
            *params,
            creation_time,
            current_time,
        ),
{
    if is_identity(equation) {
        return Ok(BalanceEvaluation::Exact(last_balance_snapshot));
    }
    let mut parser = match Parser::new(equation) {
        Ok(p) => p,
        Err(_) => {
            return Err(TokenError::BalanceEvaluationError);
        },
    };
    let t = elapsed_seconds(creation_time, current_time);
    parser.set_variable("x", Decimal { mantissa: last_balance_snapshot as i128, scale: TOKEN_DECIMALS });
    parser.set_variable("t", Decimal::from_int(t as i128));
    if let Some(v) = params.expiration_time {
        parser.set_variable("expiration_time", Decimal::from_int(v as i128));
    }
    if let Some(v) = params.inflation_rate {
        parser.set_variable("inflation_rate", Decimal::from_int(v as i128));
    }
    if let Some(v) = params.decay_rate {
        parser.set_variable("decay_rate", Decimal::from_int(v as i128));
    }
    if let Some(v) = params.time_unit {
        parser.set_variable("time_unit", Decimal::from_int(v as i128));
    }
    if let Some(v) = params.slope {
        parser.set_variable("slope", Decimal::from_int(v as i128));
    }
    if let Some(v) = params.decay_constant {
        parser.set_variable("decay_constant", v);
    }
    if let Some(v) = params.reup_boost {
        parser.set_variable("reup_boost", Decimal::from_int(v as i128));
    }
    assert(variables_map(parser.variables@) =~= balance_bindings(
        last_balance_snapshot,
        elapsed(creation_time, current_time),
        *params,
    ));
    match parser.compile() {
        Ok(steps) => Ok(BalanceEvaluation::Formula(steps)),
        Err(_) => Err(TokenError::BalanceEvaluationError),
    }
}

/// Resolves the current balance of a snapshot under an equation family: the
/// family's parameters must all be present, then its formula is resolved.
pub fn evaluate_balance(
    last_balance_snapshot: u64,
    equation_type: &ChronoEquationType,
    params: &EquationParams,
    creation_time: i64,
    current_time: i64,
) -> (r: Result<BalanceEvaluation, TokenError>)
    ensures
        evaluation_model(r) == balance_evaluation(
            last_balance_snapshot,
            *equation_type,
            *params,
            creation_time,
            current_time,
        ),
{
    if !check_required(*equation_type, params) {
        return Err(TokenError::InvalidAccountData);
    }
    let text = equation_type.get_formula(params);
    evaluate_template(last_balance_snapshot, text.as_str(), params, creation_time, current_time)
}

/// A formula that is the identity keeps the snapshot exactly, at every query time.
pub proof fn identity_formula_keeps_snapshot(
    snapshot: u64,
    p: EquationParams,
    creation_time: i64,
    current_time: i64,
)
    requires
        current_time >= creation_time,
    ensures
        template_evaluation(snapshot, seq!['x'], p, creation_time, current_time) == Ok::<
            BalanceModel,
            TokenError,
        >(BalanceModel::Exact(snapshot)),
{
}

/// A balance that resolves to a formula resolves to one that runs without
/// popping an empty stack and leaves a value.
pub proof fn formula_balance_runs_safely(
    snapshot: u64,
    f: ChronoEquationType,
    p: EquationParams,
    creation_time: i64,
    current_time: i64,
)
    requires
        balance_evaluation(snapshot, f, p, creation_time, current_time) matches Ok(
            BalanceModel::Formula(_),
        ),
    ensures
        stack_safe(
            balance_evaluation(snapshot, f, p, creation_time, current_time)->Ok_0->Formula_0,
        ),
{
    let ts = tokens_of(formula(f, p))->Ok_0;
    compiled_programs_are_stack_safe(
        postfix(ts),
        balance_bindings(snapshot, elapsed(creation_time, current_time), p),
    );
}

} // verus!
