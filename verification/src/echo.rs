//! The text produced by the string-echo boundary function: the banner line it
//! writes to standard output and the fixed acknowledgment it returns. The
//! surrounding program does the printing and the foreign-string marshaling.
use vstd::prelude::*;

verus! {

/// The banner line the echo function prints for a given input.
pub fn echo_line(input: &str) -> (r: String)
    ensures
        r@ == "my my "@ + input@,
{
    let mut line = String::from_str("my my ");
    line.append(input);
    line
}

/// The fixed acknowledgment the echo function returns, whatever its input.
pub fn echo_reply() -> (r: String)
    ensures
        r@ == "This is what I got in return"@,
{
    String::from_str("This is what I got in return")
}

} // verus!
