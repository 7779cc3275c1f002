use vstd::prelude::*;
use vstd::string::StringExecFns;
use crate::ast::{Expression, Statement};

verus! {

/// `std::fmt::Error`, the error of a text formatting sink, declared so that it
/// can stand in the transpiler's result type; nothing is assumed of it.
#[verifier::external_type_specification]
#[verifier::external_body]
pub struct ExFmtError(std::fmt::Error);

/// The line that a statement becomes: a call to `exit`, or an assignment for
/// both `let` and `assign`.
pub open spec fn statement_line(stmt: Statement) -> Seq<char> {
    match stmt {
        Statement::Exit(e) => seq!['e', 'x', 'i', 't', '('] + e.text() + seq![')', '\n'],
        Statement::Let { name, value } => name@ + seq![' ', '=', ' '] + value.text() + seq!['\n'],
        Statement::Assign { name, value } => name@ + seq![' ', '=', ' '] + value.text() + seq![
            '\n',
        ],
    }
}

/// The lines of all statements, in order.
pub open spec fn program_text(program: Seq<Statement>) -> Seq<char>
    decreases program.len(),
{
    if program.len() == 0 {
        Seq::empty()
    } else {
        program_text(program.drop_last()) + statement_line(program.last())
    }
}

fn assignment_line(code: &mut String, name: &String, value: &Expression)
    ensures
        final(code)@ == old(code)@ + name@ + seq![' ', '=', ' '] + value.text() + seq!['\n'],
{
    code.append(name.as_str());
    proof {
        reveal_strlit(" = ");
        reveal_strlit("\n");
    }
    code.append(" = ");
    let v = value.to_string();
    code.append(v.as_str());
    code.append("\n");
}

/// Renders `program` as Python source, one line per statement. Whether names
/// are bound is not checked here, and building the text in memory cannot fail.
pub fn transpile_to_python(program: &[Statement]) -> (r: Result<String, std::fmt::Error>)
    ensures
        r matches Ok(code) && code@ == program_text(program@),
{
    let mut code = String::new();
    let mut i: usize = 0;
    while i < program.len()
        invariant
            i <= program@.len(),
            code@ == program_text(program@.subrange(0, i as int)),
        decreases program@.len() - i,
    {
        assert(program@.subrange(0, i + 1).drop_last() =~= program@.subrange(0, i as int));
        match &program[i] {
            Statement::Exit(v) => {
                proof {
                    reveal_strlit("exit(");
                    reveal_strlit(")\n");
                }
                code.append("exit(");
                let t = v.to_string();
                code.append(t.as_str());
                code.append(")\n");
            },
            Statement::Let { name, value } => assignment_line(&mut code, name, value),
            Statement::Assign { name, value } => assignment_line(&mut code, name, value),
        }
        i = i + 1;
    }
    assert(program@.subrange(0, program@.len() as int) =~= program@);
    Ok(code)
}

} // verus!
