//! Which serial ports are offered for the sensor.

use vstd::prelude::*;

verus! {

/// `needle` occurs in `text` as a run of consecutive characters.
pub open spec fn occurs_in(needle: Seq<char>, text: Seq<char>) -> bool {
    exists|at: int|
        0 <= at && at + needle.len() <= text.len() && #[trigger] text.subrange(
            at,
            at + needle.len(),
        ) == needle
}

/// Names that hold `ttyS` belong to the machine's built-in ports; the sensor
/// never sits on one of them.
pub open spec fn is_builtin_port(name: Seq<char>) -> bool {
    occurs_in("ttyS"@, name)
}

/// The test a port name passes to be offered.
pub open spec fn is_offered() -> spec_fn(String) -> bool {
    |name: String| !is_builtin_port(name@)
}

/// Whether `needle` occurs in `text`.
///
/// Trusted: this is `str::contains` with a string as its pattern, which
/// answers whether the pattern matches a sub-slice of the text.
#[verifier::external_body]
fn contains_text(text: &str, needle: &str) -> (found: bool)
    ensures
        found == occurs_in(needle@, text@),
{
    text.contains(needle)
}

/// Keeps, in their order, the port names that are offered for the sensor.
pub fn selectable_ports(names: &[String]) -> (kept: Vec<String>)
    ensures
        kept@ == names@.filter(is_offered()),
{
    let mut kept: Vec<String> = Vec::new();
    let mut i: usize = 0;
    while i < names.len()
        invariant
            i <= names.len(),
            kept@ == names@.take(i as int).filter(is_offered()),
        decreases names.len() - i,
    {
        proof {
            assert(names@.take(i + 1).drop_last() =~= names@.take(i as int));
            reveal(Seq::filter);
        }
        if !contains_text(names[i].as_str(), "ttyS") {
            kept.push(names[i].clone());
        }
        i += 1;
    }
    assert(names@.take(i as int) =~= names@);
    kept
}

} // verus!
