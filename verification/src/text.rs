//! Text that the plugin builds: decimal numbers, the greeting, the new name.

use vstd::prelude::*;
use vstd::string::StringExecFns;
use crate::person::PersonView;

verus! {

/// The character of one decimal digit.
pub open spec fn digit_char(d: nat) -> char {
    if d == 0 {
        '0'
    } else if d == 1 {
        '1'
    } else if d == 2 {
        '2'
    } else if d == 3 {
        '3'
    } else if d == 4 {
        '4'
    } else if d == 5 {
        '5'
    } else if d == 6 {
        '6'
    } else if d == 7 {
        '7'
    } else if d == 8 {
        '8'
    } else {
        '9'
    }
}

/// A number in decimal, most significant digit first, without leading zeros.
pub open spec fn decimal(n: nat) -> Seq<char>
    decreases n,
{
    if n < 10 {
        seq![digit_char(n)]
    } else {
        decimal(n / 10).push(digit_char(n % 10))
    }
}

/// The line with which the plugin greets a person.
pub open spec fn greeting(person: PersonView) -> Seq<char> {
    "Hello "@ + person.name + " ("@ + decimal(person.age) + " yo)"@
}

/// The name that the plugin gives to a person who is called `name`.
pub open spec fn new_name(name: Seq<char>) -> Seq<char> {
    "New "@ + name
}

fn digit_str(d: u32) -> (s: &'static str)
    requires
        d < 10,
    ensures
        s@ == seq![digit_char(d as nat)],
{
    proof {
        reveal_strlit("0");
        reveal_strlit("1");
        reveal_strlit("2");
        reveal_strlit("3");
        reveal_strlit("4");
        reveal_strlit("5");
        reveal_strlit("6");
        reveal_strlit("7");
        reveal_strlit("8");
        reveal_strlit("9");
    }
    let s = if d == 0 {
        "0"
    } else if d == 1 {
        "1"
    } else if d == 2 {
        "2"
    } else if d == 3 {
        "3"
    } else if d == 4 {
        "4"
    } else if d == 5 {
        "5"
    } else if d == 6 {
        "6"
    } else if d == 7 {
        "7"
    } else if d == 8 {
        "8"
    } else {
        "9"
    };
    assert(s@ =~= seq![digit_char(d as nat)]);
    s
}

/// Appends `n` in decimal to `out`.
pub fn append_decimal(out: &mut String, n: u32)
    ensures
        final(out)@ == old(out)@ + decimal(n as nat),
    decreases n,
{
    if n >= 10 {
        append_decimal(out, n / 10);
    }
    out.append(digit_str(n % 10));
    assert(out@ =~= old(out)@ + decimal(n as nat));
}

/// The greeting for a person with the given name and age.
pub fn greeting_line(name: &str, age: u32) -> (line: String)
    ensures
        line@ == greeting(PersonView { name: name@, age: age as nat }),
{
    let mut line = String::from_str("Hello ");
    line.append(name);
    line.append(" (");
    append_decimal(&mut line, age);
    line.append(" yo)");
    assert(line@ =~= greeting(PersonView { name: name@, age: age as nat }));
    line
}

/// The new name for a person who is called `name`.
pub fn renamed(name: &str) -> (new: String)
    ensures
        new@ == new_name(name@),
{
    String::from_str("New ").concat(name)
}

} // verus!
