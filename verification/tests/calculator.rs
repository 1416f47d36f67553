use test_project::calculator::{exit_status, interpret, Request};
use test_project::failure::{Failure, EXIT_FAILURE, EXIT_SUCCESS};
use test_project::operator::Operator;

fn arguments(words: &[&str]) -> Vec<String> {
    words.iter().map(|word| word.to_string()).collect()
}

fn read(literal: &str) -> Option<u64> {
    literal.parse::<f64>().ok().map(f64::to_bits)
}

fn run(words: &[&str]) -> Result<Request, Failure> {
    let args = arguments(words);
    let first = if args.len() == 4 { read(&args[1]) } else { None };
    let second = if args.len() == 4 { read(&args[3]) } else { None };
    interpret(&args, first, second)
}

fn show(request: &Request) -> String {
    let a = f64::from_bits(request.lhs);
    let b = f64::from_bits(request.rhs);
    let result = match request.operator {
        Operator::Add => a + b,
        Operator::Subtract => a - b,
        Operator::Multiply => a * b,
        Operator::Divide => a / b,
    };
    request.operator.equation(&format!("{}", a), &format!("{}", b), &format!("{}", result))
}

#[test]
fn ten_plus_five_prints_fifteen() {
    let request = run(&["calculator", "10", "+", "5"]).unwrap();
    assert_eq!(
        request,
        Request { operator: Operator::Add, lhs: 10f64.to_bits(), rhs: 5f64.to_bits() }
    );
    assert_eq!(show(&request), "10 + 5 = 15");
}

#[test]
fn each_symbol_selects_its_operation() {
    assert_eq!(show(&run(&["calculator", "10", "-", "3"]).unwrap()), "10 - 3 = 7");
    assert_eq!(show(&run(&["calculator", "4", "*", "2.5"]).unwrap()), "4 * 2.5 = 10");
    assert_eq!(show(&run(&["calculator", "15", "/", "3"]).unwrap()), "15 / 3 = 5");
    assert_eq!(show(&run(&["calculator", "-5", "+", "3"]).unwrap()), "-5 + 3 = -2");
}

#[test]
fn five_divided_by_zero_is_refused() {
    let failure = run(&["calculator", "5", "/", "0"]).unwrap_err();
    assert_eq!(failure, Failure::DivisionByZero);
    assert_eq!(failure.lines(), vec!["Error: Division by zero!".to_string()]);
    assert_eq!(failure.exit_status(), 1);
}

#[test]
fn division_by_negative_zero_is_refused() {
    assert_eq!(run(&["calculator", "5", "/", "-0.0"]), Err(Failure::DivisionByZero));
    assert_eq!(run(&["calculator", "0", "/", "0"]), Err(Failure::DivisionByZero));
}

#[test]
fn zero_is_refused_only_as_a_divisor() {
    assert!(run(&["calculator", "5", "+", "0"]).is_ok());
    assert!(run(&["calculator", "5", "-", "0"]).is_ok());
    assert!(run(&["calculator", "5", "*", "0"]).is_ok());
    assert!(run(&["calculator", "0", "/", "5"]).is_ok());
    assert!(run(&["calculator", "5", "/", "1e-320"]).is_ok());
    assert!(run(&["calculator", "5", "/", "NaN"]).is_ok());
    assert!(run(&["calculator", "5", "/", "inf"]).is_ok());
}

#[test]
fn unreadable_first_operand_is_named() {
    let failure = run(&["calculator", "abc", "+", "5"]).unwrap_err();
    assert_eq!(failure, Failure::InvalidNumber { literal: "abc".to_string() });
    assert_eq!(failure.lines(), vec!["Error: 'abc' is not a valid number".to_string()]);
    assert_eq!(failure.exit_status(), 1);
}

#[test]
fn unreadable_second_operand_is_named() {
    let failure = run(&["calculator", "5", "+", "1x"]).unwrap_err();
    assert_eq!(failure, Failure::InvalidNumber { literal: "1x".to_string() });
    assert_eq!(failure.lines(), vec!["Error: '1x' is not a valid number".to_string()]);
}

#[test]
fn unknown_operator_is_named() {
    let failure = run(&["calculator", "5", "%", "3"]).unwrap_err();
    assert_eq!(failure, Failure::UnknownOperator { token: "%".to_string() });
    assert_eq!(
        failure.lines(),
        vec![
            "Error: Unknown operator '%'".to_string(),
            "Supported operators: +, -, *, /".to_string(),
        ]
    );
    assert_eq!(failure.exit_status(), 1);
}

#[test]
fn operator_of_two_characters_is_unknown() {
    assert_eq!(
        run(&["calculator", "5", "++", "3"]),
        Err(Failure::UnknownOperator { token: "++".to_string() })
    );
    assert_eq!(
        run(&["calculator", "5", "", "3"]),
        Err(Failure::UnknownOperator { token: String::new() })
    );
}

#[test]
fn wrong_argument_count_gives_usage() {
    for words in [
        &["calc"][..],
        &["calc", "5"][..],
        &["calc", "5", "+"][..],
        &["calc", "5", "+", "3", "4"][..],
    ] {
        let failure = run(words).unwrap_err();
        assert_eq!(failure, Failure::Usage { program: "calc".to_string() });
        assert_eq!(
            failure.lines(),
            vec![
                "Usage: calc <number1> <operator> <number2>".to_string(),
                "Operators: +, -, *, /".to_string(),
                "Example: calc 5 + 3".to_string(),
            ]
        );
        assert_eq!(failure.exit_status(), EXIT_FAILURE);
    }
}

#[test]
fn argument_count_is_checked_before_the_operands() {
    let args = arguments(&["calc", "abc", "%"]);
    assert_eq!(
        interpret(&args, None, None),
        Err(Failure::Usage { program: "calc".to_string() })
    );
    let args = arguments(&["calc", "1", "+", "2", "3"]);
    assert_eq!(
        interpret(&args, Some(1f64.to_bits()), Some(2f64.to_bits())),
        Err(Failure::Usage { program: "calc".to_string() })
    );
}

#[test]
fn operands_are_checked_before_the_operator() {
    assert_eq!(
        run(&["calc", "abc", "%", "def"]),
        Err(Failure::InvalidNumber { literal: "abc".to_string() })
    );
    assert_eq!(
        run(&["calc", "1", "%", "def"]),
        Err(Failure::InvalidNumber { literal: "def".to_string() })
    );
    assert_eq!(
        run(&["calc", "1", "%", "0"]),
        Err(Failure::UnknownOperator { token: "%".to_string() })
    );
}

#[test]
fn exit_status_tells_success_from_failure() {
    assert_eq!(EXIT_SUCCESS, 0);
    assert_eq!(EXIT_FAILURE, 1);
    assert_eq!(exit_status(&run(&["calculator", "10", "+", "5"])), 0);
    assert_eq!(exit_status(&run(&["calculator", "10", "/", "5"])), 0);
    assert_eq!(exit_status(&run(&["calculator", "5", "/", "0"])), 1);
    assert_eq!(exit_status(&run(&["calculator", "abc", "+", "5"])), 1);
    assert_eq!(exit_status(&run(&["calculator", "5", "?", "5"])), 1);
    assert_eq!(exit_status(&run(&["calculator"])), 1);
}
