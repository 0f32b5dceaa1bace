//! Diagnostic console encoding.
//!
//! The console collaborator takes one character code at a time and expects a
//! carriage return before every line feed.  The core's part is the exact
//! expansion of a piece of text into that code sequence; handing the codes
//! to the device is the collaborator's.

use vstd::prelude::*;

verus! {

/// The code sequence the console must receive for a text: every character in
/// order, with a carriage return inserted before each line feed.
pub open spec fn console_encoding(s: Seq<char>) -> Seq<char>
    decreases s.len(),
{
    if s.len() == 0 {
        Seq::empty()
    } else {
        console_encoding(s.drop_last()) + (if s.last() == '\n' {
            seq!['\r', '\n']
        } else {
            seq![s.last()]
        })
    }
}

/// Expand a text into the exact character codes handed to the console
/// collaborator, one code per output element.
pub fn print(s: &str) -> (out: Vec<char>)
    ensures
        out@ == console_encoding(s@),
{
    let n = s.unicode_len();
    let mut out: Vec<char> = Vec::new();
    let mut i: usize = 0;
    while i < n
        invariant
            i <= n,
            n == s@.len(),
            out@ == console_encoding(s@.subrange(0, i as int)),
        decreases n - i,
    {
        let c = s.get_char(i);
        if c == '\n' {
            out.push('\r');
        }
        out.push(c);
        proof {
            let pre = s@.subrange(0, (i + 1) as int);
            assert(pre.drop_last() =~= s@.subrange(0, i as int));
            assert(pre.last() == s@[i as int]);
        }
        i = i + 1;
    }
    proof {
        assert(s@.subrange(0, n as int) =~= s@);
    }
    out
}

} // verus!
