use vstd::prelude::*;
use crate::ast::{BinaryOperator, Expression, Statement};
use crate::interpreter::{InterpretationError, InterpretationResult, eval, evaluate, exact_result, step};

verus! {

/// The outcome reports a cyclic binding.
pub open spec fn is_cyclic<T>(r: InterpretationResult<T>) -> bool {
    r matches Err(InterpretationError::CyclicBinding { .. })
}

/// A larger lookup budget changes nothing once evaluation ended without
/// running out of it.
pub proof fn lemma_budget_monotonic(
    e: Expression,
    env: Map<Seq<char>, Expression>,
    k: nat,
    more: nat,
)
    requires
        !is_cyclic(eval(e, env, k)),
        k <= more,
    ensures
        eval(e, env, more) == eval(e, env, k),
    decreases k, e,
{
    match e {
        Expression::Number(_) => {},
        Expression::Identifier(name) => {
            if env.contains_key(name@) && k > 0 {
                lemma_budget_monotonic(env[name@], env, (k - 1) as nat, (more - 1) as nat);
            }
        },
        Expression::BinaryExpression { left, operator, right } => {
            lemma_budget_monotonic(*left, env, k, more);
            if eval(*left, env, k) is Ok {
                lemma_budget_monotonic(*right, env, k, more);
            }
        },
    }
}

/// An operation on two literals gives the exact integer result (for a
/// division, the quotient rounded toward zero) whenever the divisor is not
/// zero and the result fits in an `i32`, whatever the bindings.
pub proof fn lemma_literal_arithmetic(
    a: i32,
    operator: BinaryOperator,
    b: i32,
    env: Map<Seq<char>, Expression>,
)
    requires
        operator == BinaryOperator::Div ==> b != 0,
        i32::MIN <= exact_result(operator, a as int, b as int) <= i32::MAX,
    ensures
        evaluate(
            Expression::BinaryExpression {
                left: Box::new(Expression::Number(a)),
                operator,
                right: Box::new(Expression::Number(b)),
            },
            env,
        ) == Ok::<i32, InterpretationError>(exact_result(operator, a as int, b as int) as i32),
{
    let n = env.dom().len();
    assert(eval(Expression::Number(a), env, n) == Ok::<i32, InterpretationError>(a));
    assert(eval(Expression::Number(b), env, n) == Ok::<i32, InterpretationError>(b));
}

/// Reading `name` right after `let name = e` gives what evaluating `e` there
/// gives, unless the read meets a cyclic binding.
pub proof fn lemma_let_then_read(
    env: Map<Seq<char>, Expression>,
    name: String,
    e: Expression,
)
    requires
        env.dom().finite(),
    ensures
        ({
            let after = step(env, Statement::Let { name, value: e }).0;
            let read = evaluate(Expression::Identifier(name), after);
            !is_cyclic(read) ==> read == evaluate(e, after)
        }),
{
    let after = env.insert(name@, e);
    let n = after.dom().len();
    assert(after.dom().contains(name@));
    assert(n > 0) by {
        vstd::set_lib::lemma_set_empty_equivalency_len(after.dom());
    }
    assert(after[name@] == e);
    if !is_cyclic(eval(e, after, (n - 1) as nat)) {
        lemma_budget_monotonic(e, after, (n - 1) as nat, n);
    }
}

} // verus!
