use vstd::prelude::*;

use crate::error::TokenError;
use crate::text::{decimal_text, int_text, push_decimal, push_int, push_str, string_of};
use crate::tokenizer::Decimal;

verus! {

/// The families of balance curves a mint can choose.
#[derive(Debug, Clone, Copy, PartialEq, Eq, Structural)]
pub enum ChronoEquationType {
    Subscription,
    Inflationary,
    Deflationary,
    Linear,
    Exponential,
}

/// Parameters of an equation; each family reads only the ones it needs.
#[derive(Debug, Clone, Copy, PartialEq, Eq, Structural)]
pub struct EquationParams {
    pub snapshot_time: Option<i64>,
    pub expiration_time: Option<i64>,
    pub inflation_rate: Option<u64>,
    pub decay_rate: Option<u64>,
    pub time_unit: Option<u64>,
    pub slope: Option<i64>,
    pub decay_constant: Option<Decimal>,
    pub reup_boost: Option<u64>,
}

pub open spec fn no_params() -> EquationParams {
    EquationParams {
        snapshot_time: None,
        expiration_time: None,
        inflation_rate: None,
        decay_rate: None,
        time_unit: None,
        slope: None,
        decay_constant: None,
        reup_boost: None,
    }
}

impl EquationParams {
    /// A parameter set with no field given.
    pub fn new() -> (r: EquationParams)
        ensures
            r == no_params(),
    {
        EquationParams {
            snapshot_time: None,
            expiration_time: None,
            inflation_rate: None,
            decay_rate: None,
            time_unit: None,
            slope: None,
            decay_constant: None,
            reup_boost: None,
        }
    }
}

/// One day in seconds: the default time unit of the rate families.
pub const SECONDS_PER_DAY: u64 = 86400;

/// The default parameter skeleton of a family: the fields it needs, set to zero rates.
pub open spec fn default_params(f: ChronoEquationType) -> EquationParams {
    match f {
        ChronoEquationType::Subscription => EquationParams { expiration_time: Some(0), ..no_params() },
        ChronoEquationType::Inflationary => EquationParams {
            inflation_rate: Some(0),
            time_unit: Some(SECONDS_PER_DAY),
            ..no_params()
        },
        ChronoEquationType::Deflationary => EquationParams {
            decay_rate: Some(0),
            time_unit: Some(SECONDS_PER_DAY),
            ..no_params()
        },
        ChronoEquationType::Linear => EquationParams { slope: Some(0), ..no_params() },
        ChronoEquationType::Exponential => EquationParams {
            decay_constant: Some(Decimal { mantissa: 0, scale: 0 }),
            time_unit: Some(SECONDS_PER_DAY),
            ..no_params()
        },
    }
}

/// Whether `p` holds every parameter that family `f` reads.
pub open spec fn has_required(f: ChronoEquationType, p: EquationParams) -> bool {
    match f {
        ChronoEquationType::Subscription => p.expiration_time is Some,
        ChronoEquationType::Inflationary => p.inflation_rate is Some && p.time_unit is Some,
        ChronoEquationType::Deflationary => p.decay_rate is Some && p.time_unit is Some,
        ChronoEquationType::Linear => p.slope is Some,
        ChronoEquationType::Exponential => p.decay_constant is Some && p.time_unit is Some,
    }
}

/// The formula of a family over `x` (the snapshot in whole tokens) and `t` (elapsed
/// seconds). Subscription keeps `x` while `t <= expiration_time` and is 0 after; the
/// deflationary value is floored at 0 when the result is turned into token units.
pub open spec fn template(f: ChronoEquationType) -> Seq<char> {
    match f {
        ChronoEquationType::Subscription => "x * (t <= expiration_time)"@,
        ChronoEquationType::Inflationary => "x + (t * inflation_rate / time_unit)"@,
        ChronoEquationType::Deflationary => "x - (t * decay_rate / time_unit)"@,
        ChronoEquationType::Linear => "x + (t * slope)"@,
        ChronoEquationType::Exponential => "x * exp(0 - decay_constant * t / time_unit)"@,
    }
}

/// The family's formula, with `reup_boost` added to it when the parameters hold one.
pub open spec fn formula(f: ChronoEquationType, p: EquationParams) -> Seq<char> {
    if p.reup_boost is Some {
        "("@ + template(f) + ") + reup_boost"@
    } else {
        template(f)
    }
}

impl ChronoEquationType {
    /// The default parameter skeleton of this family.
    pub fn get_params(&self) -> (r: EquationParams)
        ensures
            r == default_params(*self),
            has_required(*self, r),
    {
        match self {
            ChronoEquationType::Subscription => EquationParams {
                expiration_time: Some(0),
                ..EquationParams::new()
            },
            ChronoEquationType::Inflationary => EquationParams {
                inflation_rate: Some(0),
                time_unit: Some(SECONDS_PER_DAY),
                ..EquationParams::new()
            },
            ChronoEquationType::Deflationary => EquationParams {
                decay_rate: Some(0),
                time_unit: Some(SECONDS_PER_DAY),
                ..EquationParams::new()
            },
            ChronoEquationType::Linear => EquationParams { slope: Some(0), ..EquationParams::new() },
            ChronoEquationType::Exponential => EquationParams {
                decay_constant: Some(Decimal::from_int(0)),
                time_unit: Some(SECONDS_PER_DAY),
                ..EquationParams::new()
            },
        }
    }

    /// The canonical formula template of this family.
    pub fn get_equation_string(&self) -> (r: String)
        ensures
            r@ == template(*self),
    {
        match self {
            ChronoEquationType::Subscription => String::from_str("x * (t <= expiration_time)"),
            ChronoEquationType::Inflationary => String::from_str(
                "x + (t * inflation_rate / time_unit)",
            ),
            ChronoEquationType::Deflationary => String::from_str("x - (t * decay_rate / time_unit)"),
            ChronoEquationType::Linear => String::from_str("x + (t * slope)"),
            ChronoEquationType::Exponential => String::from_str(
                "x * exp(0 - decay_constant * t / time_unit)",
            ),
        }
    }

    /// The formula evaluated for this family under `params`, boost included.
    pub fn get_formula(&self, params: &EquationParams) -> (r: String)
        ensures
            r@ == formula(*self, *params),
    {
        let base = self.get_equation_string();
        if params.reup_boost.is_some() {
            let mut s = String::from_str("(");
            s.append(base.as_str());
            s.append(") + reup_boost");
            s
        } else {
            base
        }
    }
}

/// Checks that `params` holds every parameter that family `f` reads.
pub fn check_required(f: ChronoEquationType, params: &EquationParams) -> (r: bool)
    ensures
        r == has_required(f, *params),
{
    match f {
        ChronoEquationType::Subscription => params.expiration_time.is_some(),
        ChronoEquationType::Inflationary => params.inflation_rate.is_some()
            && params.time_unit.is_some(),
        ChronoEquationType::Deflationary => params.decay_rate.is_some() && params.time_unit.is_some(),
        ChronoEquationType::Linear => params.slope.is_some(),
        ChronoEquationType::Exponential => params.decay_constant.is_some()
            && params.time_unit.is_some(),
    }
}

/// Elapsed time as text: `((t) - snapshot_time)`.
pub open spec fn elapsed_text(t: i64, snapshot_time: i64) -> Seq<char> {
    "(("@ + int_text(t as int) + ") - "@ + int_text(snapshot_time as int) + ")"@
}

/// The formula of family `f` with every value written in, before any boost; `None`
/// when a parameter it needs is missing.
pub open spec fn base_equation_text(f: ChronoEquationType, x: u64, t: i64, p: EquationParams) -> Option<
    Seq<char>,
> {
    let xs = int_text(x as int);
    match f {
        ChronoEquationType::Subscription => match p.expiration_time {
            Some(e) => Some(
                xs + " * (("@ + int_text(t as int) + ") <= "@ + int_text(e as int) + ")"@,
            ),
            None => None,
        },
        ChronoEquationType::Inflationary => match (p.snapshot_time, p.inflation_rate, p.time_unit) {
            (Some(st), Some(rate), Some(unit)) => Some(
                xs + " + "@ + elapsed_text(t, st) + " * "@ + int_text(rate as int) + " / "@
                    + int_text(unit as int),
            ),
            _ => None,
        },
        ChronoEquationType::Deflationary => match (p.snapshot_time, p.decay_rate, p.time_unit) {
            (Some(st), Some(rate), Some(unit)) => Some(
                xs + " - "@ + elapsed_text(t, st) + " * "@ + int_text(rate as int) + " / "@
                    + int_text(unit as int),
            ),
            _ => None,
        },
        ChronoEquationType::Linear => match (p.snapshot_time, p.slope) {
            (Some(st), Some(slope)) => Some(
                xs + " + "@ + elapsed_text(t, st) + " * "@ + int_text(slope as int),
            ),
            _ => None,
        },
        ChronoEquationType::Exponential => match (p.snapshot_time, p.decay_constant, p.time_unit) {
            (Some(st), Some(k), Some(unit)) => Some(
                xs + " * exp(0 - "@ + decimal_text(k) + " * "@ + elapsed_text(t, st) + " / "@
                    + int_text(unit as int) + ")"@,
            ),
            _ => None,
        },
    }
}

/// The family's formula with every value written in, boost included.
pub open spec fn equation_text(f: ChronoEquationType, x: u64, t: i64, p: EquationParams) -> Result<
    Seq<char>,
    TokenError,
> {
    match base_equation_text(f, x, t, p) {
        None => Err(TokenError::InvalidAccountData),
        Some(base) => match p.reup_boost {
            Some(b) => Ok("("@ + base + ") + "@ + int_text(b as int)),
            None => Ok(base),
        },
    }
}

fn push_elapsed(out: &mut Vec<char>, t: i64, snapshot_time: i64)
    ensures
        final(out)@ == old(out)@ + elapsed_text(t, snapshot_time),
{
    let ghost before = out@;
    push_str(out, "((");
    push_int(out, t as i128);
    push_str(out, ") - ");
    push_int(out, snapshot_time as i128);
    push_str(out, ")");
    assert(out@ =~= before + elapsed_text(t, snapshot_time));
}

impl ChronoEquationType {
    /// The formula of this family for snapshot `x` at time `t`, with every
    /// parameter written in as a number.
    pub fn get_equation(&self, x: u64, t: i64, params: &EquationParams) -> (r: Result<
        String,
        TokenError,
    >)
        ensures
            match equation_text(*self, x, t, *params) {
                Ok(text) => r is Ok && r->Ok_0@ == text,
                Err(e) => r == Err::<String, TokenError>(e),
            },
    {
        let mut out: Vec<char> = Vec::new();
        push_int(&mut out, x as i128);
        let ghost xs = out@;
        assert(xs =~= int_text(x as int));
        match self {
            ChronoEquationType::Subscription => {
                let e = match params.expiration_time {
                    Some(v) => v,
                    None => {
                        return Err(TokenError::InvalidAccountData);
                    },
                };
                push_str(&mut out, " * ((");
                push_int(&mut out, t as i128);
                push_str(&mut out, ") <= ");
                push_int(&mut out, e as i128);
                push_str(&mut out, ")");
            },
            ChronoEquationType::Inflationary | ChronoEquationType::Deflationary => {
                let rate_field = if let ChronoEquationType::Inflationary = self {
                    params.inflation_rate
                } else {
                    params.decay_rate
                };
                let (st, rate, unit) = match (params.snapshot_time, rate_field, params.time_unit) {
                    (Some(a), Some(b), Some(c)) => (a, b, c),
                    _ => {
                        return Err(TokenError::InvalidAccountData);
                    },
                };
                if let ChronoEquationType::Inflationary = self {
                    push_str(&mut out, " + ");
                } else {
                    push_str(&mut out, " - ");
                }
                push_elapsed(&mut out, t, st);
                push_str(&mut out, " * ");
                push_int(&mut out, rate as i128);
                push_str(&mut out, " / ");
                push_int(&mut out, unit as i128);
            },
            ChronoEquationType::Linear => {
                let (st, slope) = match (params.snapshot_time, params.slope) {
                    (Some(a), Some(b)) => (a, b),
                    _ => {
                        return Err(TokenError::InvalidAccountData);
                    },
                };
                push_str(&mut out, " + ");
                push_elapsed(&mut out, t, st);
                push_str(&mut out, " * ");
                push_int(&mut out, slope as i128);
            },
            ChronoEquationType::Exponential => {
                let (st, k, unit) = match (
                    params.snapshot_time,
                    params.decay_constant,
                    params.time_unit,
                ) {
                    (Some(a), Some(b), Some(c)) => (a, b, c),
                    _ => {
                        return Err(TokenError::InvalidAccountData);
                    },
                };
                push_str(&mut out, " * exp(0 - ");
                push_decimal(&mut out, k);
                push_str(&mut out, " * ");
                push_elapsed(&mut out, t, st);
                push_str(&mut out, " / ");
                push_int(&mut out, unit as i128);
                push_str(&mut out, ")");
            },
        }
        let ghost base = out@;
        assert(base_equation_text(*self, x, t, *params) == Some(base)) by {
            assert(base =~= base_equation_text(*self, x, t, *params)->Some_0);
        }
        if let Some(b) = params.reup_boost {
            let mut boosted: Vec<char> = Vec::new();
            push_str(&mut boosted, "(");
            let mut k: usize = 0;
            let ghost open_paren = boosted@;
            while k < out.len()
                invariant
                    k <= out.len(),
                    boosted@ == open_paren + out@.subrange(0, k as int),
                decreases out.len() - k,
            {
                boosted.push(out[k]);
                k = k + 1;
                assert(boosted@ =~= open_paren + out@.subrange(0, k as int));
            }
            assert(out@.subrange(0, out.len() as int) =~= out@);
            push_str(&mut boosted, ") + ");
            push_int(&mut boosted, b as i128);
            assert(boosted@ =~= "("@ + base + ") + "@ + int_text(b as int));
            return Ok(string_of(&boosted));
        }
        Ok(string_of(&out))
    }
}

} // verus!
