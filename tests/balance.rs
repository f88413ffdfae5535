use chrono_token::balance::{evaluate_balance, evaluate_template, BalanceEvaluation, TOKEN_DECIMALS};
use chrono_token::equation::{ChronoEquationType, EquationParams};
use chrono_token::error::TokenError;
use chrono_token::tokenizer::{Decimal, Func, Step};

/// Runs a compiled formula in floating point.
fn run(steps: &[Step]) -> f64 {
    let mut stack: Vec<f64> = Vec::new();
    for s in steps {
        match s {
            Step::Literal(t) => stack.push(t.iter().collect::<String>().parse().unwrap()),
            Step::Value(d) => stack.push(d.mantissa as f64 / 10f64.powi(d.scale as i32)),
            Step::Apply(op) => {
                let b = stack.pop().unwrap();
                let a = stack.pop().unwrap();
                stack.push(match op {
                    '+' => a + b,
                    '-' => a - b,
                    '*' => a * b,
                    '/' => a / b,
                    '^' => a.powf(b),
                    '<' => {
                        if a <= b {
                            1.0
                        } else {
                            0.0
                        }
                    }
                    _ => panic!("unknown operator"),
                });
            }
            Step::Call(f) => {
                let a = stack.pop().unwrap();
                stack.push(match f {
                    Func::Exp => a.exp(),
                    Func::Ln => a.ln(),
                    Func::Sin => a.sin(),
                    Func::Cos => a.cos(),
                });
            }
        }
    }
    stack.pop().unwrap()
}

fn balance(snapshot: u64, f: ChronoEquationType, p: &EquationParams, created: i64, now: i64) -> u64 {
    match evaluate_balance(snapshot, &f, p, created, now).unwrap() {
        BalanceEvaluation::Exact(v) => v,
        BalanceEvaluation::Formula(steps) => {
            (run(&steps) * 10f64.powi(TOKEN_DECIMALS as i32)).round() as u64
        }
    }
}

#[test]
fn exponential_at_time_zero_keeps_snapshot() {
    let mut p = EquationParams::new();
    p.decay_constant = Some(Decimal { mantissa: 1, scale: 7 });
    p.time_unit = Some(86400);
    let b = balance(1_000_000_000, ChronoEquationType::Exponential, &p, 500, 500);
    assert_eq!(b, 1_000_000_000);
}

#[test]
fn exponential_decays_with_time() {
    let mut p = EquationParams::new();
    p.decay_constant = Some(Decimal { mantissa: 1, scale: 0 });
    p.time_unit = Some(86400);
    let b = balance(1_000_000_000, ChronoEquationType::Exponential, &p, 0, 86400);
    assert_eq!(b, 367_879_441);
}

#[test]
fn subscription_expires_after_deadline() {
    let mut p = EquationParams::new();
    p.expiration_time = Some(100);
    assert_eq!(balance(5_000_000_000, ChronoEquationType::Subscription, &p, 0, 150), 0);
    assert_eq!(balance(5_000_000_000, ChronoEquationType::Subscription, &p, 0, 50), 5_000_000_000);
    assert_eq!(balance(5_000_000_000, ChronoEquationType::Subscription, &p, 0, 100), 5_000_000_000);
}

#[test]
fn deflation_is_monotonic_and_floored() {
    let mut p = EquationParams::new();
    p.decay_rate = Some(1);
    p.time_unit = Some(86400);
    let s = 3_000_000_000;
    let b0 = balance(s, ChronoEquationType::Deflationary, &p, 0, 0);
    let b1 = balance(s, ChronoEquationType::Deflationary, &p, 0, 86400);
    let b2 = balance(s, ChronoEquationType::Deflationary, &p, 0, 2 * 86400);
    let b9 = balance(s, ChronoEquationType::Deflationary, &p, 0, 9 * 86400);
    assert_eq!(b0, 3_000_000_000);
    assert_eq!(b1, 2_000_000_000);
    assert_eq!(b2, 1_000_000_000);
    assert_eq!(b9, 0);
    assert!(b0 >= b1 && b1 >= b2 && b2 >= b9);
}

#[test]
fn inflation_and_linear_grow() {
    let mut p = EquationParams::new();
    p.inflation_rate = Some(2);
    p.time_unit = Some(100);
    assert_eq!(balance(1_000_000_000, ChronoEquationType::Inflationary, &p, 0, 50), 2_000_000_000);
    let mut q = EquationParams::new();
    q.slope = Some(-1);
    assert_eq!(balance(5_000_000_000, ChronoEquationType::Linear, &q, 10, 13), 2_000_000_000);
}

#[test]
fn query_before_creation_counts_no_time() {
    let mut p = EquationParams::new();
    p.slope = Some(1);
    assert_eq!(balance(1_000_000_000, ChronoEquationType::Linear, &p, 100, 40), 1_000_000_000);
}

#[test]
fn reup_boost_is_added_to_the_formula() {
    let mut p = EquationParams::new();
    p.slope = Some(0);
    p.reup_boost = Some(2);
    assert_eq!(balance(1_000_000_000, ChronoEquationType::Linear, &p, 0, 10), 3_000_000_000);
}

#[test]
fn missing_parameter_is_invalid_account_data() {
    let p = EquationParams::new();
    let r = evaluate_balance(10, &ChronoEquationType::Deflationary, &p, 0, 1);
    assert_eq!(r.unwrap_err(), TokenError::InvalidAccountData);
    let mut q = EquationParams::new();
    q.decay_rate = Some(1);
    let r = evaluate_balance(10, &ChronoEquationType::Deflationary, &q, 0, 1);
    assert_eq!(r.unwrap_err(), TokenError::InvalidAccountData);
}

#[test]
fn identity_formula_returns_snapshot_exactly() {
    let p = EquationParams::new();
    for now in [0i64, 5, 1_000_000] {
        match evaluate_template(123_456_789_012_345_678, "x", &p, 0, now).unwrap() {
            BalanceEvaluation::Exact(v) => assert_eq!(v, 123_456_789_012_345_678),
            _ => panic!("expected the snapshot itself"),
        }
    }
}

#[test]
fn bad_formula_is_balance_evaluation_error() {
    let p = EquationParams::new();
    let r = evaluate_template(1, "x + y", &p, 0, 0);
    assert_eq!(r.unwrap_err(), TokenError::BalanceEvaluationError);
    let r = evaluate_template(1, "max(0, x)", &p, 0, 0);
    assert_eq!(r.unwrap_err(), TokenError::BalanceEvaluationError);
}

#[test]
fn default_params_are_complete_for_their_family() {
    for f in [
        ChronoEquationType::Subscription,
        ChronoEquationType::Inflationary,
        ChronoEquationType::Deflationary,
        ChronoEquationType::Linear,
        ChronoEquationType::Exponential,
    ] {
        let p = f.get_params();
        let r = evaluate_balance(2_000_000_000, &f, &p, 0, 0);
        assert!(r.is_ok(), "{:?}", f);
    }
    assert_eq!(ChronoEquationType::Inflationary.get_params().time_unit, Some(86400));
    assert_eq!(ChronoEquationType::Linear.get_equation_string(), "x + (t * slope)");
}

#[test]
fn get_equation_writes_values_in() {
    let mut p = EquationParams::new();
    p.expiration_time = Some(100);
    assert_eq!(
        ChronoEquationType::Subscription.get_equation(5, -3, &p).unwrap(),
        "5 * (((0 - 3)) <= 100)"
    );
    p.snapshot_time = Some(10);
    p.decay_constant = Some(Decimal { mantissa: 15, scale: 3 });
    p.time_unit = Some(86400);
    assert_eq!(
        ChronoEquationType::Exponential.get_equation(2, 70, &p).unwrap(),
        "2 * exp(0 - (15 / 1000) * ((70) - 10) / 86400)"
    );
    p.slope = Some(-2);
    p.reup_boost = Some(7);
    assert_eq!(
        ChronoEquationType::Linear.get_equation(1, 12, &p).unwrap(),
        "(1 + ((12) - 10) * (0 - 2)) + 7"
    );
}

#[test]
fn get_equation_needs_its_parameters() {
    let mut p = EquationParams::new();
    p.decay_rate = Some(1);
    p.time_unit = Some(2);
    let r = ChronoEquationType::Deflationary.get_equation(1, 1, &p);
    assert_eq!(r.unwrap_err(), TokenError::InvalidAccountData);
    p.snapshot_time = Some(0);
    assert_eq!(
        ChronoEquationType::Deflationary.get_equation(9, 4, &p).unwrap(),
        "9 - ((4) - 0) * 1 / 2"
    );
}

#[test]
fn written_equation_evaluates() {
    let mut p = EquationParams::new();
    p.snapshot_time = Some(0);
    p.decay_rate = Some(1);
    p.time_unit = Some(2);
    let text = ChronoEquationType::Deflationary.get_equation(9, 4, &p).unwrap();
    let parser = chrono_token::tokenizer::Parser::new(&text).unwrap();
    assert_eq!(run(&parser.compile().unwrap()), 7.0);
}
