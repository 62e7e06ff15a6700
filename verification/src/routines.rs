//! The demonstration routines.
//!
//! Every routine creates one or two small text values, performs a single
//! ownership-related operation (copy, move, clone, borrow, or exclusive
//! borrow), and states the outcome exactly in its contract.  None of them
//! can fail: the ownership discipline that they illustrate is enforced
//! entirely at compile time.

use vstd::prelude::*;
use vstd::string::StrSliceExecFns;
use vstd::string::StringExecFns;

verus! {

/// Duplicating a binding to a small immutable text value is a plain copy:
/// afterwards both bindings hold the same content and both stay usable.
pub fn string_literal_copy() -> (r: (&'static str, &'static str))
    ensures
        r.0@ == "Sam"@,
        r.1@ == r.0@,
{
    let x = "Sam";
    // A `&str` is trivially copyable, so `x` stays valid after this.
    let y = x;
    (x, y)
}

/// Assigning an owned growable text value to a new binding moves it: only
/// the pointer, length and capacity are copied, never the heap content,
/// and the source binding becomes unusable.  The moved-to binding holds
/// exactly the original content.
pub fn sting_shallow_copy() -> (y: String)
    ensures
        y@ == "Sam"@,
{
    let x = "Sam".to_owned();
    // Ownership moves from `x` to `y`; using `x` past this point would be
    // rejected at compile time, which rules out a double release.
    let y = x;
    y
}

/// An explicit clone duplicates the heap content itself, leaving two
/// independently owned values with equal content; the original binding
/// stays valid.
pub fn string_deep_copy() -> (r: (String, String))
    ensures
        r.0@ == "Sam"@,
        r.1@ == r.0@,
{
    let x = "Sam".to_owned();
    let y = x.clone();
    (x, y)
}

/// Two independently owned copies stay independent: after a deep copy,
/// appending to the duplicate leaves the original binding's content
/// untouched.
pub fn deep_copy_independence(x: String, suffix: &str) -> (r: (String, String))
    ensures
        r.0@ == x@,
        r.1@ == x@ + suffix@,
{
    let mut y = x.clone();
    y.append(suffix);
    (x, y)
}

/// Passing a small immutable text value into a call copies it, so the
/// caller's binding stays usable afterwards.  Returns the description
/// line of the callee.
pub fn make_copy(x: &str) -> (line: String)
    ensures
        line@ == x@ + " is a string literal"@,
{
    let mut line = x.to_owned();
    line.append(" is a string literal");
    line
}

/// Passing an owned growable text value into a call moves it: the callee
/// becomes the owner and the caller's binding is unusable afterwards.
/// Returns the description line of the callee, built from the value it
/// now owns.
pub fn take_ownership(y: String) -> (line: String)
    ensures
        line@ == y@ + " is a String"@,
{
    let mut line = y;
    line.append(" is a String");
    line
}

/// Constructs an owned value and returns it, handing ownership to the
/// caller.
pub fn give_ownership() -> (y: String)
    ensures
        y@ == "Sam"@,
{
    let y = "Sam".to_owned();
    y
}

/// Receives ownership of a value and returns that same value unchanged,
/// handing ownership straight back to the caller.
pub fn take_and_give_back(arg: String) -> (r: String)
    ensures
        r == arg,
{
    arg
}

/// Receives ownership of a value, computes its length in characters, and
/// returns the original value together with that length, handing
/// ownership back bundled with the computed property.
pub fn get_length(arg: String) -> (r: (String, i32))
    requires
        arg@.len() <= i32::MAX,
    ensures
        r.0 == arg,
        r.1 == arg@.len() as i32,
{
    let length: i32 = arg.as_str().unicode_len() as i32;
    (arg, length)
}

/// Computes the length of a value through a read-only borrow: the caller
/// keeps ownership and the value stays usable after the call.
pub fn get_length_with_ref_arg(arg: &String) -> (length: i32)
    requires
        arg@.len() <= i32::MAX,
    ensures
        length == arg@.len() as i32,
{
    let length: i32 = arg.as_str().unicode_len() as i32;
    length
}

/// Mutates a value in place through an exclusive borrow: the suffix is
/// appended exactly once, and the caller, who never gave up ownership,
/// observes the mutation afterwards.
pub fn mutable_references(arg: &mut String)
    ensures
        final(arg)@ == old(arg)@ + ", says hi!"@,
{
    arg.append(", says hi!");
}

/// Shared and exclusive borrows of one value may both appear in a single
/// scope as long as their uses do not overlap: two read-only borrows are
/// read together first, and only once they are no longer used is an
/// exclusive borrow taken and read.  Returns the two description lines
/// that the borrows produce.
pub fn reference_rules() -> (r: (String, String))
    ensures
        r.0@ == "hello and hello"@,
        r.1@ == "hello"@,
{
    let mut s = "hello".to_owned();
    // Two simultaneous read-only borrows: both may be read.
    let r1 = &s;
    let r2 = &s;
    let mut first = r1.as_str().to_owned();
    first.append(" and ");
    first.append(r2.as_str());
    // `r1` and `r2` are no longer used, so an exclusive borrow is allowed.
    let r3 = &mut s;
    let second = r3.clone();
    proof {
        reveal_strlit("hello");
        reveal_strlit(" and ");
        reveal_strlit("hello and hello");
    }
    assert(first@ =~= "hello and hello"@);
    (first, second)
}

} // verus!
