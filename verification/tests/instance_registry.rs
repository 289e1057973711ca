//! The evaluator with the registry it builds for itself, on native numbers.

use calculator::{Calculator, Operation, Pending};

/// Native binary64 arithmetic on the operands that the evaluator hands out.
fn native(pending: Pending) -> u64 {
    let left = f64::from_bits(pending.left);
    let right = f64::from_bits(pending.right);
    let value = match pending.operation {
        Operation::Add => left + right,
        Operation::Subtract => left - right,
        Operation::Multiply => left * right,
        Operation::Divide => left / right,
    };
    value.to_bits()
}

/// Performs the operation on native numbers. A division by zero ends the session.
fn perform(calc: &mut Calculator, name: &str) -> Result<(), &'static str> {
    if calc.is_division_by_zero(name) {
        panic!("DIVISION BY ZERO");
    }
    calc.perform_operation(name, native).map_err(|error| error.message())
}

#[test]
fn calculator_calculator_init() {
    Calculator::new();
}

#[test]
fn calculator_calculator_push() {
    let mut calc = Calculator::new();
    calc.push(f64::to_bits(1.0));
    calc.push(f64::to_bits(10.0));
    calc.push(f64::to_bits(-1.0));
    calc.push(f64::to_bits(3.14));
    calc.push(f64::to_bits(f64::MAX));
}

#[test]
fn calculator_calculator_pop() {
    let mut calc = Calculator::new();
    calc.push(f64::to_bits(1.0));
    calc.push(f64::to_bits(10.0));
    calc.push(f64::to_bits(-1.0));
    calc.push(f64::to_bits(3.14));
    calc.push(f64::to_bits(f64::MAX));

    calc.pop();
    calc.pop();
    calc.pop();
    calc.pop();
}

#[test]
fn calculator_basic_add_test() -> Result<(), &'static str> {
    let mut calc = Calculator::new();
    calc.push(f64::to_bits(1.0));
    calc.push(f64::to_bits(1.0));
    perform(&mut calc, "+")?;
    let result = f64::from_bits(calc.pop().unwrap());
    assert_eq!(2.0, result);
    Ok(())
}

#[test]
fn calculator_negative_add_test() -> Result<(), &'static str> {
    let mut calc = Calculator::new();
    calc.push(f64::to_bits(10.0));
    calc.push(f64::to_bits(-12.0));
    perform(&mut calc, "+")?;
    let result = f64::from_bits(calc.pop().unwrap());
    assert_eq!(-2.0, result);
    Ok(())
}

#[test]
fn calculator_large_add_test() -> Result<(), &'static str> {
    let mut calc = Calculator::new();
    calc.push(f64::to_bits(123456789.0));
    calc.push(f64::to_bits(987654321.0));
    perform(&mut calc, "+")?;
    let result = f64::from_bits(calc.pop().unwrap());
    assert_eq!(1111111110.0, result);
    Ok(())
}

#[test]
fn calculator_floating_add_test() -> Result<(), &'static str> {
    let mut calc = Calculator::new();
    calc.push(f64::to_bits(3.1459));
    calc.push(f64::to_bits(2.7182));
    perform(&mut calc, "+")?;
    let result = f64::from_bits(calc.pop().unwrap());
    assert_eq!(3.1459 + 2.7182, result);
    Ok(())
}

#[test]
fn calculator_float_limits_add_test() -> Result<(), &'static str> {
    let mut calc = Calculator::new();
    calc.push(f64::to_bits(f64::MAX));
    calc.push(f64::to_bits(f64::MAX));
    perform(&mut calc, "+")?;
    let result = f64::from_bits(calc.pop().unwrap());
    assert_eq!(f64::MAX + f64::MAX, result);
    Ok(())
}

#[test]
fn calculator_basic_sub_test() -> Result<(), &'static str> {
    let mut calc = Calculator::new();
    calc.push(f64::to_bits(1.0));
    calc.push(f64::to_bits(1.0));
    perform(&mut calc, "-")?;
    let result = f64::from_bits(calc.pop().unwrap());
    assert_eq!(0.0, result);
    Ok(())
}

#[test]
fn calculator_negative_sub_test() -> Result<(), &'static str> {
    let mut calc = Calculator::new();
    calc.push(f64::to_bits(10.0));
    calc.push(f64::to_bits(-12.0));
    perform(&mut calc, "-")?;
    let result = f64::from_bits(calc.pop().unwrap());
    assert_eq!(22.0, result);
    Ok(())
}

#[test]
fn calculator_large_sub_test() -> Result<(), &'static str> {
    let mut calc = Calculator::new();
    calc.push(f64::to_bits(123456789.0));
    calc.push(f64::to_bits(987654321.0));
    perform(&mut calc, "-")?;
    let result = f64::from_bits(calc.pop().unwrap());
    assert_eq!(123456789.0 - 987654321.0, result);
    Ok(())
}

#[test]
fn calculator_floating_sub_test() -> Result<(), &'static str> {
    let mut calc = Calculator::new();
    calc.push(f64::to_bits(3.1459));
    calc.push(f64::to_bits(2.7182));
    perform(&mut calc, "-")?;
    let result = f64::from_bits(calc.pop().unwrap());
    assert_eq!(3.1459 - 2.7182, result);
    Ok(())
}

#[test]
fn calculator_float_limits_sub_test() -> Result<(), &'static str> {
    let mut calc = Calculator::new();
    calc.push(f64::to_bits(f64::MIN));
    calc.push(f64::to_bits(f64::MAX));
    perform(&mut calc, "-")?;
    let result = f64::from_bits(calc.pop().unwrap());
    assert_eq!(f64::MIN - f64::MAX, result);
    Ok(())
}

#[test]
fn calculator_basic_mul_test() -> Result<(), &'static str> {
    let mut calc = Calculator::new();
    calc.push(f64::to_bits(1.0));
    calc.push(f64::to_bits(1.0));
    perform(&mut calc, "*")?;
    let result = f64::from_bits(calc.pop().unwrap());
    assert_eq!(1.0, result);
    Ok(())
}

#[test]
fn calculator_negative_mul_test() -> Result<(), &'static str> {
    let mut calc = Calculator::new();
    calc.push(f64::to_bits(10.0));
    calc.push(f64::to_bits(-12.0));
    perform(&mut calc, "*")?;
    let result = f64::from_bits(calc.pop().unwrap());
    assert_eq!(-120.0, result);
    Ok(())
}

#[test]
fn calculator_large_mul_test() -> Result<(), &'static str> {
    let mut calc = Calculator::new();
    calc.push(f64::to_bits(123456789.0));
    calc.push(f64::to_bits(987654321.0));
    perform(&mut calc, "*")?;
    let result = f64::from_bits(calc.pop().unwrap());
    assert_eq!(123456789.0 * 987654321.0, result);
    Ok(())
}

#[test]
fn calculator_floating_mul_test() -> Result<(), &'static str> {
    let mut calc = Calculator::new();
    calc.push(f64::to_bits(3.1459));
    calc.push(f64::to_bits(2.7182));
    perform(&mut calc, "*")?;
    let result = f64::from_bits(calc.pop().unwrap());
    assert_eq!(3.1459 * 2.7182, result);
    Ok(())
}

#[test]
fn calculator_float_limits_mul_test() -> Result<(), &'static str> {
    let mut calc = Calculator::new();
    calc.push(f64::to_bits(f64::MIN));
    calc.push(f64::to_bits(f64::MAX));
    perform(&mut calc, "*")?;
    let result = f64::from_bits(calc.pop().unwrap());
    assert_eq!(f64::MIN * f64::MAX, result);
    Ok(())
}

#[test]
fn calculator_basic_div_test() -> Result<(), &'static str> {
    let mut calc = Calculator::new();
    calc.push(f64::to_bits(1.0));
    calc.push(f64::to_bits(1.0));
    perform(&mut calc, "/")?;
    let result = f64::from_bits(calc.pop().unwrap());
    assert_eq!(1.0, result);
    Ok(())
}

#[test]
fn calculator_negative_div_test() -> Result<(), &'static str> {
    let mut calc = Calculator::new();
    calc.push(f64::to_bits(10.0));
    calc.push(f64::to_bits(-12.0));
    perform(&mut calc, "/")?;
    let result = f64::from_bits(calc.pop().unwrap());
    assert_eq!(10.0 / -12.0, result);
    Ok(())
}

#[test]
fn calculator_large_div_test() -> Result<(), &'static str> {
    let mut calc = Calculator::new();
    calc.push(f64::to_bits(123456789.0));
    calc.push(f64::to_bits(987654321.0));
    perform(&mut calc, "/")?;
    let result = f64::from_bits(calc.pop().unwrap());
    assert_eq!(123456789.0 / 987654321.0, result);
    Ok(())
}

#[test]
fn calculator_floating_div_test() -> Result<(), &'static str> {
    let mut calc = Calculator::new();
    calc.push(f64::to_bits(3.1459));
    calc.push(f64::to_bits(2.7182));
    perform(&mut calc, "/")?;
    let result = f64::from_bits(calc.pop().unwrap());
    assert_eq!(3.1459 / 2.7182, result);
    Ok(())
}

#[test]
fn calculator_float_limits_div_test() -> Result<(), &'static str> {
    let mut calc = Calculator::new();
    calc.push(f64::to_bits(f64::MIN));
    calc.push(f64::to_bits(f64::MAX));
    perform(&mut calc, "/")?;
    let result = f64::from_bits(calc.pop().unwrap());
    assert_eq!(f64::MIN / f64::MAX, result);
    Ok(())
}

#[test]
#[should_panic(expected = "DIVISION BY ZERO")]
#[allow(unused_must_use)]
fn calculator_div_by_zero_test() {
    let mut calc = Calculator::new();
    calc.push(f64::to_bits(1.0));
    calc.push(f64::to_bits(0.0));
    perform(&mut calc, "/");
}
