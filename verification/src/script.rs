//! The full walkthrough: every routine invoked once, in a fixed order,
//! producing a fixed, deterministic sequence of description lines.

use vstd::prelude::*;
use vstd::string::StringExecFns;

use crate::decimal::decimal_string;
use crate::routines::get_length;
use crate::routines::get_length_with_ref_arg;
use crate::routines::give_ownership;
use crate::routines::make_copy;
use crate::routines::mutable_references;
use crate::routines::reference_rules;
use crate::routines::sting_shallow_copy;
use crate::routines::string_deep_copy;
use crate::routines::string_literal_copy;
use crate::routines::take_and_give_back;
use crate::routines::take_ownership;

verus! {

/// Every line of the walkthrough, in the exact order it is produced.
pub open spec fn expected_output() -> Seq<Seq<char>> {
    seq![
        "Hello, world!"@,
        "both x = Sam and y = Sam in scope"@,
        "This is indeed what is happening, because integers are simple values with a known, fixed size, and these two 5 values are pushed onto the stack."@,
        "y = Sam  while x is invalid"@,
        "We say x moved to y to mean that at y = x; the pointer, length and capacity for x were copied into y but not its content"@,
        "Expensive deep clone x = Sam and y = Sam."@,
        "Sam is a string literal"@,
        "Sam is still valid"@,
        "Sam is a String"@,
        "y = Sam is what is valid here"@,
        "Length of Sam is 3"@,
        "creating a reference without owning is called borrowing"@,
        "Length of Sam is 3"@,
        "borrowing - use it but dont own it"@,
        "Strings and references can be mutable. Primitives like string literals are not"@,
        "hello and hello"@,
        "hello"@,
    ]
}

/// Runs every routine once, in the fixed order of the walkthrough, and
/// returns the description lines it produces: exactly the lines of
/// [`expected_output`], in that order.
pub fn demo_script() -> (lines: Vec<String>)
    ensures
        lines@.map_values(|line: String| line@) == expected_output(),
{
    proof {
        reveal_strlit("Sam");
        reveal_strlit("hello");
        reveal_strlit("both x = ");
        reveal_strlit(" and y = ");
        reveal_strlit(" in scope");
        reveal_strlit("both x = Sam and y = Sam in scope");
        reveal_strlit("y = ");
        reveal_strlit("  while x is invalid");
        reveal_strlit("y = Sam  while x is invalid");
        reveal_strlit("Expensive deep clone x = ");
        reveal_strlit(".");
        reveal_strlit("Expensive deep clone x = Sam and y = Sam.");
        reveal_strlit(" is a string literal");
        reveal_strlit("Sam is a string literal");
        reveal_strlit(" is still valid");
        reveal_strlit("Sam is still valid");
        reveal_strlit(" is a String");
        reveal_strlit("Sam is a String");
        reveal_strlit(" is what is valid here");
        reveal_strlit("y = Sam is what is valid here");
        reveal_strlit("Length of ");
        reveal_strlit(" is ");
        reveal_strlit("Length of Sam is 3");
    }
    let mut lines: Vec<String> = Vec::new();

    lines.push("Hello, world!".to_owned());

    // Copy a small immutable value: both bindings stay usable.
    let (x, y) = string_literal_copy();
    let mut line = "both x = ".to_owned();
    line.append(x);
    line.append(" and y = ");
    line.append(y);
    line.append(" in scope");
    assert(line@ =~= "both x = Sam and y = Sam in scope"@);
    lines.push(line);
    lines.push(
        "This is indeed what is happening, because integers are simple values with a known, fixed size, and these two 5 values are pushed onto the stack.".to_owned(),
    );

    // Move an owned value to a new binding: the source becomes unusable.
    let moved = sting_shallow_copy();
    let mut line = "y = ".to_owned();
    line.append(moved.as_str());
    line.append("  while x is invalid");
    assert(line@ =~= "y = Sam  while x is invalid"@);
    lines.push(line);
    lines.push(
        "We say x moved to y to mean that at y = x; the pointer, length and capacity for x were copied into y but not its content".to_owned(),
    );

    // Clone an owned value: two independent owners, both usable.
    let (a, b) = string_deep_copy();
    let mut line = "Expensive deep clone x = ".to_owned();
    line.append(a.as_str());
    line.append(" and y = ");
    line.append(b.as_str());
    line.append(".");
    assert(line@ =~= "Expensive deep clone x = Sam and y = Sam."@);
    lines.push(line);

    // Pass a small immutable value by value: the caller's binding survives.
    let copied_line = make_copy(x);
    assert(copied_line@ =~= "Sam is a string literal"@);
    lines.push(copied_line);
    let mut line = x.to_owned();
    line.append(" is still valid");
    assert(line@ =~= "Sam is still valid"@);
    lines.push(line);

    // Pass an owned value by value: ownership moves into the callee.
    let given = "Sam".to_owned();
    let owned_line = take_ownership(given);
    assert(owned_line@ =~= "Sam is a String"@);
    lines.push(owned_line);

    // Receive ownership from a call, pass it through another call.
    let granted = give_ownership();
    let returned = take_and_give_back(granted);
    let mut line = "y = ".to_owned();
    line.append(returned.as_str());
    line.append(" is what is valid here");
    assert(line@ =~= "y = Sam is what is valid here"@);
    lines.push(line);

    // Take ownership, compute the length, hand both back as a pair.
    let pair = get_length(returned);
    let count = decimal_string(pair.1 as u32);
    assert(count@ =~= seq!['3']);
    let mut line = "Length of ".to_owned();
    line.append(pair.0.as_str());
    line.append(" is ");
    line.append(count.as_str());
    assert(line@ =~= "Length of Sam is 3"@);
    lines.push(line);

    // Compute the length through a read-only borrow: the pair stays usable.
    let length = get_length_with_ref_arg(&pair.0);
    lines.push("creating a reference without owning is called borrowing".to_owned());
    let count = decimal_string(length as u32);
    assert(count@ =~= seq!['3']);
    let mut line = "Length of ".to_owned();
    line.append(pair.0.as_str());
    line.append(" is ");
    line.append(count.as_str());
    assert(line@ =~= "Length of Sam is 3"@);
    lines.push(line);
    lines.push("borrowing - use it but dont own it".to_owned());

    // Mutate in place through an exclusive borrow.
    let mut s = "Sam".to_owned();
    mutable_references(&mut s);
    lines.push(
        "Strings and references can be mutable. Primitives like string literals are not".to_owned(),
    );

    // Shared borrows first, an exclusive borrow after their last use.
    let (first, second) = reference_rules();
    lines.push(first);
    lines.push(second);

    assert(lines@.map_values(|line: String| line@) =~= expected_output());
    lines
}

} // verus!
