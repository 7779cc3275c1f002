use vstd::prelude::*;
use crate::ast::{BinaryOperator, Expression, Statement};
use crate::environment::Environment;

verus! {

/// Why an expression or a statement could not be carried out.
#[derive(Debug, PartialEq, Eq)]
pub enum InterpretationError {
    /// A name was read, or assigned to, before any `let` bound it.
    UndefinedVariable { name: String },
    /// The right operand of a division was zero.
    DivisionByZero,
    /// The result of an operation does not fit in an `i32`.
    Overflow,
    /// Reading `name` needed a chain of lookups, one inside another, longer
    /// than the number of bindings: some name in the chain was being read
    /// again within its own reading.
    CyclicBinding { name: String },
}

pub type InterpretationResult<T> = Result<T, InterpretationError>;

/// Division rounded toward zero.
pub open spec fn truncating_div(a: int, b: int) -> int {
    let q = (if a < 0 { -a } else { a }) / (if b < 0 { -b } else { b });
    if (a < 0) == (b < 0) {
        q
    } else {
        -q
    }
}

/// The exact result of `a op b` over the integers.
pub open spec fn exact_result(op: BinaryOperator, a: int, b: int) -> int {
    match op {
        BinaryOperator::Plus => a + b,
        BinaryOperator::Minus => a - b,
        BinaryOperator::Mul => a * b,
        BinaryOperator::Div => truncating_div(a, b),
    }
}

/// `a op b` as an `i32`: a division by zero or a result out of range is an error.
pub open spec fn apply_operator(op: BinaryOperator, a: i32, b: i32) -> InterpretationResult<i32> {
    if op == BinaryOperator::Div && b == 0 {
        Err(InterpretationError::DivisionByZero)
    } else if i32::MIN <= exact_result(op, a as int, b as int) <= i32::MAX {
        Ok(exact_result(op, a as int, b as int) as i32)
    } else {
        Err(InterpretationError::Overflow)
    }
}

/// The value of `e` under `env`, where at most `budget` names may be looked up
/// one inside another. Operands are evaluated left to right, and the first
/// error met is the result. Reading a name evaluates the expression bound to
/// it, as it is bound now.
pub open spec fn eval(e: Expression, env: Map<Seq<char>, Expression>, budget: nat) -> InterpretationResult<i32>
    decreases budget, e,
{
    match e {
        Expression::Number(v) => Ok(v),
        Expression::Identifier(name) => {
            if !env.contains_key(name@) {
                Err(InterpretationError::UndefinedVariable { name })
            } else if budget == 0 {
                Err(InterpretationError::CyclicBinding { name })
            } else {
                eval(env[name@], env, (budget - 1) as nat)
            }
        },
        Expression::BinaryExpression { left, operator, right } => {
            match eval(*left, env, budget) {
                Err(err) => Err(err),
                Ok(a) => match eval(*right, env, budget) {
                    Err(err) => Err(err),
                    Ok(b) => apply_operator(operator, a, b),
                },
            }
        },
    }
}

/// The value of `e` under `env`. A chain of lookups longer than the number of
/// bindings has met some name twice, and is reported as a cyclic binding
/// where the chain exceeds that number.
pub open spec fn evaluate(e: Expression, env: Map<Seq<char>, Expression>) -> InterpretationResult<i32> {
    eval(e, env, env.dom().len())
}

/// The bindings after `stmt` and its outcome: `Some(code)` for `exit`.
pub open spec fn step(env: Map<Seq<char>, Expression>, stmt: Statement) -> (
    Map<Seq<char>, Expression>,
    InterpretationResult<Option<i32>>,
) {
    match stmt {
        Statement::Exit(e) => (
            env,
            match evaluate(e, env) {
                Ok(v) => Ok(Some(v)),
                Err(err) => Err(err),
            },
        ),
        Statement::Let { name, value } => (env.insert(name@, value), Ok(None)),
        Statement::Assign { name, value } => {
            if env.contains_key(name@) {
                (env.insert(name@, value), Ok(None))
            } else {
                (env, Err(InterpretationError::UndefinedVariable { name }))
            }
        },
    }
}

/// The bindings after running `program` from `env`, and its exit code: that of
/// the first `exit`, or 0 when none is reached. The first error stops the run.
pub open spec fn run(env: Map<Seq<char>, Expression>, program: Seq<Statement>) -> (
    Map<Seq<char>, Expression>,
    InterpretationResult<i32>,
)
    decreases program.len(),
{
    if program.len() == 0 {
        (env, Ok(0))
    } else {
        let (next, outcome) = step(env, program[0]);
        match outcome {
            Err(err) => (next, Err(err)),
            Ok(Some(code)) => (next, Ok(code)),
            Ok(None) => run(next, program.drop_first()),
        }
    }
}

fn apply(op: BinaryOperator, a: i32, b: i32) -> (r: InterpretationResult<i32>)
    ensures
        r == apply_operator(op, a, b),
{
    let checked = match op {
        BinaryOperator::Plus => a.checked_add(b),
        BinaryOperator::Minus => a.checked_sub(b),
        BinaryOperator::Mul => a.checked_mul(b),
        BinaryOperator::Div => {
            if b == 0 {
                return Err(InterpretationError::DivisionByZero);
            }
            a.checked_div(b)
        },
    };
    match checked {
        Some(v) => Ok(v),
        None => Err(InterpretationError::Overflow),
    }
}

fn evaluate_within(vars: &Environment, expr: &Expression, budget: usize) -> (r: InterpretationResult<i32>)
    ensures
        r == eval(*expr, vars@, budget as nat),
    decreases budget, expr,
{
    match expr {
        Expression::Number(v) => Ok(*v),
        Expression::Identifier(name) => match vars.get(name) {
            None => Err(InterpretationError::UndefinedVariable { name: name.clone() }),
            Some(bound) => {
                if budget == 0 {
                    Err(InterpretationError::CyclicBinding { name: name.clone() })
                } else {
                    evaluate_within(vars, bound, budget - 1)
                }
            },
        },
        Expression::BinaryExpression { left, operator, right } => {
            let a = match evaluate_within(vars, left, budget) {
                Ok(a) => a,
                Err(err) => return Err(err),
            };
            let b = match evaluate_within(vars, right, budget) {
                Ok(b) => b,
                Err(err) => return Err(err),
            };
            apply(*operator, a, b)
        },
    }
}

/// Evaluates `expr` under the bindings of `vars`.
pub fn evaluate_in(vars: &Environment, expr: &Expression) -> (r: InterpretationResult<i32>)
    ensures
        r == evaluate(*expr, vars@),
{
    let budget = vars.len();
    evaluate_within(vars, expr, budget)
}

/// Carries out one statement on `vars`: `Some(code)` for `exit`, `None` for a
/// binding. A failed `assign` leaves `vars` as it was.
pub fn interpret_single_statement(stmt: &Statement, vars: &mut Environment) -> (r:
    InterpretationResult<Option<i32>>)
    ensures
        (final(vars)@, r) == step(old(vars)@, *stmt),
{
    match stmt {
        Statement::Exit(e) => match evaluate_in(vars, e) {
            Ok(v) => Ok(Some(v)),
            Err(err) => Err(err),
        },
        Statement::Let { name, value } => {
            vars.insert(name.clone(), value.clone());
            Ok(None)
        },
        Statement::Assign { name, value } => {
            if vars.contains_key(name) {
                vars.insert(name.clone(), value.clone());
                Ok(None)
            } else {
                Err(InterpretationError::UndefinedVariable { name: name.clone() })
            }
        },
    }
}

/// Runs `program` on `vars`, statement by statement, up to the first `exit`
/// or the first error.
pub fn interpret_in(program: &[Statement], vars: &mut Environment) -> (r: InterpretationResult<i32>)
    ensures
        (final(vars)@, r) == run(old(vars)@, program@),
{
    let mut i: usize = 0;
    assert(program@.subrange(0, program@.len() as int) =~= program@);
    while i < program.len()
        invariant
            i <= program@.len(),
            run(old(vars)@, program@) == run(vars@, program@.subrange(i as int, program@.len() as int)),
        decreases program@.len() - i,
    {
        let ghost rest = program@.subrange(i as int, program@.len() as int);
        assert(rest[0] == program@[i as int]);
        assert(rest.drop_first() =~= program@.subrange(i + 1, program@.len() as int));
        match interpret_single_statement(&program[i], vars) {
            Ok(None) => {},
            Ok(Some(exit_code)) => return Ok(exit_code),
            Err(e) => return Err(e),
        }
        i = i + 1;
    }
    Ok(0)
}

/// Runs `program` from no bindings at all.
pub fn interpret(program: &[Statement]) -> (r: InterpretationResult<i32>)
    ensures
        r == run(Map::empty(), program@).1,
{
    let mut vars = Environment::new();
    interpret_in(program, &mut vars)
}

/// An interpreter session: bindings that persist from one statement to the next.
pub struct Interpreter {
    vars: Environment,
}

impl View for Interpreter {
    type V = Map<Seq<char>, Expression>;

    closed spec fn view(&self) -> Map<Seq<char>, Expression> {
        self.vars@
    }
}

impl Interpreter {
    /// A session with no bindings.
    pub fn new() -> (r: Self)
        ensures
            r@ == Map::<Seq<char>, Expression>::empty(),
    {
        Interpreter { vars: Environment::new() }
    }

    /// Runs `program` in this session: the exit code of the first `exit`, or 0
    /// when none is reached. The first error stops the run; the bindings made
    /// before it stay.
    pub fn interpret(&mut self, program: &[Statement]) -> (r: InterpretationResult<i32>)
        ensures
            (final(self)@, r) == run(old(self)@, program@),
    {
        interpret_in(program, &mut self.vars)
    }

    /// Carries out one statement in this session.
    pub fn interpret_single_statement(&mut self, stmt: &Statement) -> (r: InterpretationResult<
        Option<i32>,
    >)
        ensures
            (final(self)@, r) == step(old(self)@, *stmt),
    {
        interpret_single_statement(stmt, &mut self.vars)
    }

    /// The current bindings.
    pub fn state(&self) -> (r: &Environment)
        ensures
            r@ == self@,
    {
        &self.vars
    }

    /// The value of `expr` under the current bindings.
    pub fn evaluate_expression(&self, expr: &Expression) -> (r: InterpretationResult<i32>)
        ensures
            r == evaluate(*expr, self@),
    {
        evaluate_in(&self.vars, expr)
    }
}

} // verus!
