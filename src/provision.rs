//! The statement that creates a fresh database for an isolated test run.

use vstd::prelude::*;

verus! {

/// `s` written as the body of a double-quoted SQL identifier: each `"` is
/// doubled.
pub open spec fn escape_identifier(s: Seq<char>) -> Seq<char>
    decreases s.len(),
{
    if s.len() == 0 {
        seq![]
    } else if s.last() == '"' {
        escape_identifier(s.drop_last()) + seq!['"', '"']
    } else {
        escape_identifier(s.drop_last()).push(s.last())
    }
}

pub open spec fn create_database_prefix() -> Seq<char> {
    seq!['C', 'R', 'E', 'A', 'T', 'E', ' ', 'D', 'A', 'T', 'A', 'B', 'A', 'S', 'E', ' ', '"']
}

/// `CREATE DATABASE "<name>";` with `name` quoted as an identifier.
pub open spec fn create_database_sql(name: Seq<char>) -> Seq<char> {
    create_database_prefix() + escape_identifier(name) + seq!['"', ';']
}

/// Relies on `String::push`: appends one character.
#[verifier::external_body]
fn push_char(s: &mut String, c: char)
    ensures
        final(s)@ == old(s)@.push(c),
{
    s.push(c);
}

/// The statement that creates a database named `name`. The name is quoted,
/// so it keeps its case and may hold any character.
pub fn create_database_statement(name: &str) -> (r: String)
    ensures
        r@ == create_database_sql(name@),
{
    let mut out = String::from_str("CREATE DATABASE \"");
    proof {
        reveal_strlit("CREATE DATABASE \"");
    }
    let ghost start = out@;
    assert(start == create_database_prefix());
    for c in it: name.chars()
        invariant
            it.seq() == name@,
            out@ == start + escape_identifier(name@.take(it.index() as int)),
    {
        let ghost before = name@.take(it.index() as int);
        proof {
            let after = name@.take(it.index() + 1);
            assert(after == before.push(c));
            assert(after.drop_last() == before);
            assert(after.last() == c);
        }
        if c == '"' {
            push_char(&mut out, '"');
            push_char(&mut out, '"');
        } else {
            push_char(&mut out, c);
        }
    }
    proof {
        assert(name@.take(name@.len() as int) == name@);
    }
    push_char(&mut out, '"');
    push_char(&mut out, ';');
    out
}

} // verus!
