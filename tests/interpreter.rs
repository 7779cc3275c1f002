use tso::ast::{BinaryOperator, Expression, Statement};
use tso::environment::Environment;
use tso::interpreter::{interpret, interpret_single_statement, InterpretationError, Interpreter};

fn num(v: i32) -> Expression {
    Expression::Number(v)
}

fn ident(name: &str) -> Expression {
    Expression::Identifier(name.to_string())
}

fn bin(left: Expression, operator: BinaryOperator, right: Expression) -> Expression {
    Expression::BinaryExpression { left: Box::new(left), operator, right: Box::new(right) }
}

fn let_(name: &str, value: Expression) -> Statement {
    Statement::Let { name: name.to_string(), value }
}

fn assign(name: &str, value: Expression) -> Statement {
    Statement::Assign { name: name.to_string(), value }
}

fn eval_fresh(e: &Expression) -> Result<i32, InterpretationError> {
    Interpreter::new().evaluate_expression(e)
}

#[test]
fn literal_arithmetic_is_exact() {
    assert_eq!(eval_fresh(&bin(num(7), BinaryOperator::Plus, num(-3))), Ok(4));
    assert_eq!(eval_fresh(&bin(num(7), BinaryOperator::Minus, num(10))), Ok(-3));
    assert_eq!(eval_fresh(&bin(num(-6), BinaryOperator::Mul, num(7))), Ok(-42));
    assert_eq!(eval_fresh(&bin(num(7), BinaryOperator::Div, num(2))), Ok(3));
}

#[test]
fn division_truncates_toward_zero() {
    assert_eq!(eval_fresh(&bin(num(-7), BinaryOperator::Div, num(2))), Ok(-3));
    assert_eq!(eval_fresh(&bin(num(7), BinaryOperator::Div, num(-2))), Ok(-3));
    assert_eq!(eval_fresh(&bin(num(-7), BinaryOperator::Div, num(-2))), Ok(3));
    assert_eq!(eval_fresh(&bin(num(0), BinaryOperator::Div, num(-5))), Ok(0));
}

#[test]
fn division_by_zero_is_an_error() {
    assert_eq!(
        eval_fresh(&bin(num(1), BinaryOperator::Div, num(0))),
        Err(InterpretationError::DivisionByZero)
    );
}

#[test]
fn overflow_is_an_error() {
    assert_eq!(
        eval_fresh(&bin(num(i32::MAX), BinaryOperator::Plus, num(1))),
        Err(InterpretationError::Overflow)
    );
    assert_eq!(
        eval_fresh(&bin(num(i32::MIN), BinaryOperator::Minus, num(1))),
        Err(InterpretationError::Overflow)
    );
    assert_eq!(
        eval_fresh(&bin(num(65536), BinaryOperator::Mul, num(65536))),
        Err(InterpretationError::Overflow)
    );
    assert_eq!(
        eval_fresh(&bin(num(i32::MIN), BinaryOperator::Div, num(-1))),
        Err(InterpretationError::Overflow)
    );
    assert_eq!(eval_fresh(&bin(num(i32::MIN), BinaryOperator::Plus, num(i32::MAX))), Ok(-1));
}

#[test]
fn let_then_read_matches_direct_evaluation() {
    let mut it = Interpreter::new();
    assert_eq!(it.interpret_single_statement(&let_("a", num(4))), Ok(None));
    let e = bin(ident("a"), BinaryOperator::Mul, num(5));
    assert_eq!(it.interpret_single_statement(&let_("b", e.clone())), Ok(None));
    assert_eq!(it.evaluate_expression(&ident("b")), it.evaluate_expression(&e));
    assert_eq!(it.evaluate_expression(&ident("b")), Ok(20));
}

#[test]
fn binding_is_lazy() {
    let program = vec![
        let_("a", num(1)),
        let_("b", bin(ident("a"), BinaryOperator::Plus, num(1))),
        assign("a", num(10)),
        Statement::Exit(ident("b")),
    ];
    assert_eq!(interpret(&program), Ok(11));
}

#[test]
fn rebinding_last_let_wins() {
    let program = vec![let_("x", num(1)), let_("x", num(2)), Statement::Exit(ident("x"))];
    assert_eq!(interpret(&program), Ok(2));
}

#[test]
fn assign_before_declare_fails() {
    let mut it = Interpreter::new();
    assert_eq!(
        it.interpret_single_statement(&assign("x", num(1))),
        Err(InterpretationError::UndefinedVariable { name: "x".to_string() })
    );
    assert_eq!(it.state().len(), 0);
}

#[test]
fn assign_after_declare_rebinds() {
    let mut it = Interpreter::new();
    assert_eq!(it.interpret_single_statement(&let_("x", num(1))), Ok(None));
    assert_eq!(it.interpret_single_statement(&assign("x", num(3))), Ok(None));
    assert_eq!(it.interpret_single_statement(&Statement::Exit(ident("x"))), Ok(Some(3)));
    assert_eq!(it.state().len(), 1);
}

#[test]
fn lookup_before_declare_fails() {
    assert_eq!(
        eval_fresh(&ident("y")),
        Err(InterpretationError::UndefinedVariable { name: "y".to_string() })
    );
}

#[test]
fn early_termination_at_first_exit() {
    let mut it = Interpreter::new();
    let program = vec![Statement::Exit(num(1)), let_("x", num(2))];
    assert_eq!(it.interpret(&program), Ok(1));
    assert!(!it.state().contains_key(&"x".to_string()));
    assert_eq!(it.state().len(), 0);
}

#[test]
fn no_exit_defaults_to_zero() {
    assert_eq!(interpret(&vec![let_("x", num(5))]), Ok(0));
    assert_eq!(interpret(&vec![]), Ok(0));
}

#[test]
fn first_error_stops_the_run() {
    let mut it = Interpreter::new();
    let program = vec![
        let_("a", num(1)),
        Statement::Exit(ident("missing")),
        let_("b", num(2)),
    ];
    assert_eq!(
        it.interpret(&program),
        Err(InterpretationError::UndefinedVariable { name: "missing".to_string() })
    );
    assert!(it.state().contains_key(&"a".to_string()));
    assert!(!it.state().contains_key(&"b".to_string()));
}

#[test]
fn cyclic_binding_is_reported() {
    let program = vec![let_("x", bin(ident("x"), BinaryOperator::Plus, num(1))), Statement::Exit(ident("x"))];
    assert!(matches!(interpret(&program), Err(InterpretationError::CyclicBinding { .. })));
    let program = vec![
        let_("p", num(0)),
        let_("q", ident("p")),
        assign("p", ident("q")),
        Statement::Exit(ident("q")),
    ];
    assert!(matches!(interpret(&program), Err(InterpretationError::CyclicBinding { .. })));
}

#[test]
fn long_chain_of_names_is_not_cyclic() {
    let program = vec![
        let_("a", num(9)),
        let_("b", ident("a")),
        let_("c", ident("b")),
        let_("d", bin(ident("c"), BinaryOperator::Plus, ident("b"))),
        Statement::Exit(ident("d")),
    ];
    assert_eq!(interpret(&program), Ok(18));
}

#[test]
fn single_statement_on_environment() {
    let mut vars = Environment::new();
    assert_eq!(interpret_single_statement(&let_("n", num(-4)), &mut vars), Ok(None));
    assert_eq!(
        interpret_single_statement(&Statement::Exit(bin(ident("n"), BinaryOperator::Mul, num(3))), &mut vars),
        Ok(Some(-12))
    );
    assert!(vars.contains_key(&"n".to_string()));
    assert!(matches!(vars.get(&"n".to_string()), Some(Expression::Number(-4))));
    assert!(vars.get(&"m".to_string()).is_none());
}

#[test]
fn environment_insert_replaces() {
    let mut vars = Environment::new();
    vars.insert("k".to_string(), num(1));
    vars.insert("j".to_string(), num(2));
    vars.insert("k".to_string(), num(3));
    assert_eq!(vars.len(), 2);
    assert!(matches!(vars.get(&"k".to_string()), Some(Expression::Number(3))));
}
