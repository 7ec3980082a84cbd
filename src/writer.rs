use vstd::prelude::*;

use crate::reader::Failure;
use vstd::std_specs::iter::IteratorSpec;

verus! {

broadcast use vstd::string::axiom_spec_iter, vstd::string::next_postcondition;

/// `encoded` followed by the line terminator.
pub open spec fn framed(encoded: Seq<char>) -> Seq<char> {
    encoded.push('\n')
}

/// Turns an encoded frame into one line of the wire, or refuses it when the
/// encoding holds a line break of its own.
pub fn frame_line(encoded: &str) -> (r: Option<String>)
    ensures
        r is Some <==> !encoded@.contains('\n'),
        r is Some ==> r->Some_0@ == framed(encoded@),
{
    let mut chars = encoded.chars();
    let ghost mut k: int = 0;
    loop
        invariant
            0 <= k <= encoded@.len(),
            chars.remaining() == encoded@.skip(k),
            forall|j: int| 0 <= j < k ==> encoded@[j] != '\n',
        ensures
            k == encoded@.len(),
            forall|j: int| 0 <= j < k ==> encoded@[j] != '\n',
        decreases encoded@.len() - k,
    {
        match chars.next() {
            Some(c) => {
                assert(encoded@.skip(k)[0] == encoded@[k]);
                if c == '\n' {
                    return None;
                }
                assert(encoded@.skip(k).drop_first() =~= encoded@.skip(k + 1));
                proof {
                    k = k + 1;
                }
            },
            None => {
                assert(encoded@.skip(k).len() == 0);
                break;
            },
        }
    }
    let mut line = String::from_str(encoded);
    line.append("\n");
    proof {
        reveal_strlit("\n");
    }
    Some(line)
}

/// What a write of one line to the connection reported.
#[derive(Clone, Copy, Debug, PartialEq, Eq, Structural)]
pub enum WriteOutcome {
    /// The connection took this many bytes.
    Accepted(usize),
    /// The write failed.
    Failed,
}

/// The failure a write outcome means, if any: a write that was refused
/// fails, and one that took nothing means the peer has closed.
pub fn write_failure(o: WriteOutcome) -> (r: Option<Failure>)
    ensures
        r == match o {
            WriteOutcome::Accepted(n) => if n == 0 {
                Some(Failure::PeerClosed)
            } else {
                None
            },
            WriteOutcome::Failed => Some(Failure::Io),
        },
{
    match o {
        WriteOutcome::Accepted(n) => if n == 0 {
            Some(Failure::PeerClosed)
        } else {
            None
        },
        WriteOutcome::Failed => Some(Failure::Io),
    }
}

} // verus!
