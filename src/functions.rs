//! Plain functions: a greeting, and integer sums.

use vstd::prelude::*;
use vstd::string::*;

verus! {

/// The greeting line for `greet` addressed to `name`.
pub open spec fn greeting_text(greet: Seq<char>, name: Seq<char>) -> Seq<char> {
    greet + " "@ + name + ", nice to mee you!"@
}

/// Builds the greeting line, e.g. `"Hello James, nice to mee you!"`.
pub fn greeting(greet: &str, name: &str) -> (r: String)
    ensures
        r@ == greeting_text(greet@, name@),
{
    let mut out = String::from_str(greet);
    out.append(" ");
    out.append(name);
    out.append(", nice to mee you!");
    assert(out@ =~= greeting_text(greet@, name@));
    out
}

/// The sum of two integers; the sum must fit in `i32`.
pub fn add(num1: i32, num2: i32) -> (r: i32)
    requires
        i32::MIN <= num1 + num2 <= i32::MAX,
    ensures
        r == num1 + num2,
{
    num1 + num2
}

/// The sum of two integers and a fixed offset; the sum must fit in `i32`.
pub fn add_with_offset(num1: i32, num2: i32, offset: i32) -> (r: i32)
    requires
        i32::MIN <= num1 + num2 + offset <= i32::MAX,
    ensures
        r == num1 + num2 + offset,
{
    (num1 as i64 + num2 as i64 + offset as i64) as i32
}

} // verus!
