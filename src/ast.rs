use vstd::prelude::*;
use vstd::string::StringExecFns;

verus! {

/// An expression of the language: a finite tree whose leaves are integer
/// literals and variable references.
#[derive(Debug)]
pub enum Expression {
    Number(i32),
    Identifier(String),
    BinaryExpression { left: Box<Expression>, operator: BinaryOperator, right: Box<Expression> },
}

#[derive(Debug, Clone, Copy, PartialEq, Eq, Structural)]
pub enum BinaryOperator {
    Plus,
    Minus,
    Div,
    Mul,
}

pub type Program = Vec<Statement>;

#[derive(Debug)]
pub enum Statement {
    Exit(Expression),
    Let { name: String, value: Expression },
    Assign { name: String, value: Expression },
}

/// The character of a decimal digit `d` (`d < 10`).
pub open spec fn digit_char(d: nat) -> char {
    seq!['0', '1', '2', '3', '4', '5', '6', '7', '8', '9'][d as int]
}

/// The decimal digits of `n`, most significant first, without leading zeros.
pub open spec fn digits(n: nat) -> Seq<char>
    decreases n,
{
    if n < 10 {
        seq![digit_char(n)]
    } else {
        digits(n / 10).push(digit_char(n % 10))
    }
}

/// The decimal form of `v`, with a leading `-` when it is negative.
pub open spec fn decimal(v: int) -> Seq<char> {
    if v < 0 {
        seq!['-'] + digits((-v) as nat)
    } else {
        digits(v as nat)
    }
}

/// The text that separates the two operands of `op`.
pub open spec fn operator_text(op: BinaryOperator) -> Seq<char> {
    match op {
        BinaryOperator::Plus => seq![' ', '+', ' '],
        BinaryOperator::Minus => seq![' ', '-', ' '],
        BinaryOperator::Mul => seq![' ', '*', ' '],
        BinaryOperator::Div => seq![' ', '/', ' '],
    }
}

impl Expression {
    /// The rendering of an expression: operands joined by their operator,
    /// with no parentheses around nested operations.
    pub open spec fn text(self) -> Seq<char>
        decreases self,
    {
        match self {
            Expression::Number(v) => decimal(v as int),
            Expression::Identifier(name) => name@,
            Expression::BinaryExpression { left, operator, right } => (*left).text() + operator_text(
                operator,
            ) + (*right).text(),
        }
    }

    /// Renders the expression as source text.
    pub fn to_string(&self) -> (r: String)
        ensures
            r@ == self.text(),
        decreases self,
    {
        match self {
            Expression::Number(v) => decimal_string(*v),
            Expression::Identifier(name) => name.clone(),
            Expression::BinaryExpression { left, operator, right } => {
                let mut s = left.to_string();
                let op = operator_str(*operator);
                s.append(op);
                let r = right.to_string();
                s.append(r.as_str());
                s
            },
        }
    }
}

impl Clone for Expression {
    fn clone(&self) -> (r: Self)
        ensures
            r == *self,
        decreases self,
    {
        match self {
            Expression::Number(v) => Expression::Number(*v),
            Expression::Identifier(name) => Expression::Identifier(name.clone()),
            Expression::BinaryExpression { left, operator, right } => {
                let l = (**left).clone();
                let r = (**right).clone();
                Expression::BinaryExpression {
                    left: Box::new(l),
                    operator: *operator,
                    right: Box::new(r),
                }
            },
        }
    }
}

impl Clone for Statement {
    fn clone(&self) -> (r: Self)
        ensures
            r == *self,
    {
        match self {
            Statement::Exit(e) => Statement::Exit(e.clone()),
            Statement::Let { name, value } => Statement::Let {
                name: name.clone(),
                value: value.clone(),
            },
            Statement::Assign { name, value } => Statement::Assign {
                name: name.clone(),
                value: value.clone(),
            },
        }
    }
}

fn operator_str(op: BinaryOperator) -> (r: &'static str)
    ensures
        r@ == operator_text(op),
{
    match op {
        BinaryOperator::Plus => {
            proof {
                reveal_strlit(" + ");
            }
            " + "
        },
        BinaryOperator::Minus => {
            proof {
                reveal_strlit(" - ");
            }
            " - "
        },
        BinaryOperator::Mul => {
            proof {
                reveal_strlit(" * ");
            }
            " * "
        },
        BinaryOperator::Div => {
            proof {
                reveal_strlit(" / ");
            }
            " / "
        },
    }
}

fn digit_str(d: u32) -> (r: &'static str)
    requires
        d < 10,
    ensures
        r@ == seq![digit_char(d as nat)],
{
    proof {
        reveal_strlit("0");
        reveal_strlit("1");
        reveal_strlit("2");
        reveal_strlit("3");
        reveal_strlit("4");
        reveal_strlit("5");
        reveal_strlit("6");
        reveal_strlit("7");
        reveal_strlit("8");
        reveal_strlit("9");
    }
    if d == 0 {
        "0"
    } else if d == 1 {
        "1"
    } else if d == 2 {
        "2"
    } else if d == 3 {
        "3"
    } else if d == 4 {
        "4"
    } else if d == 5 {
        "5"
    } else if d == 6 {
        "6"
    } else if d == 7 {
        "7"
    } else if d == 8 {
        "8"
    } else {
        "9"
    }
}

fn digits_string(n: u32) -> (r: String)
    ensures
        r@ == digits(n as nat),
    decreases n,
{
    if n < 10 {
        String::from_str(digit_str(n))
    } else {
        let mut s = digits_string(n / 10);
        s.append(digit_str(n % 10));
        s
    }
}

/// The decimal form of an integer.
pub fn decimal_string(v: i32) -> (r: String)
    ensures
        r@ == decimal(v as int),
{
    if v < 0 {
        let magnitude: u32 = (0i64 - v as i64) as u32;
        let mut s = String::from_str("-");
        proof {
            reveal_strlit("-");
        }
        let d = digits_string(magnitude);
        s.append(d.as_str());
        s
    } else {
        digits_string(v as u32)
    }
}

} // verus!
