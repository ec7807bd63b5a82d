//! The greeting that the books example writes out.

use vstd::prelude::*;

verus! {

/// The bytes of "hello world\n".
pub open spec fn greeting() -> Seq<u8> {
    seq![104u8, 101u8, 108u8, 108u8, 111u8, 32u8, 119u8, 111u8, 114u8, 108u8, 100u8, 10u8]
}

/// Appends the greeting line to an output buffer.
pub fn say_hello(out: &mut Vec<u8>)
    ensures
        final(out)@ == old(out)@ + greeting(),
{
    let text = "hello world\n";
    proof {
        reveal_strlit("hello world\n");
        vstd::string::is_ascii_spec_bytes(text);
    }
    assert(text.is_ascii());
    let bytes = text.as_bytes();
    assert(bytes@ =~= greeting());
    out.extend_from_slice(bytes);
}

/// Writes nothing: the buffer is left as it was.
pub fn say_bye(out: &mut Vec<u8>)
    ensures
        final(out)@ == old(out)@,
{
}

} // verus!
