//! Records shown as text for a terminal.

use vstd::prelude::*;

verus! {

/// A value that can be shown on a terminal.
pub trait CliOutput {
    /// The lines that show the value, each ended by a line feed.
    spec fn shown(&self) -> Seq<char>;

    /// The lines that show the value, each ended by a line feed.
    fn render(&self) -> (r: String)
        ensures
            r@ == self.shown(),
    ;
}

/// Texts written one after the other.
pub open spec fn concat(parts: Seq<Seq<char>>) -> Seq<char>
    decreases parts.len(),
{
    if parts.len() == 0 {
        Seq::empty()
    } else {
        concat(parts.drop_last()) + parts.last()
    }
}

/// The text of the first `n` parts is that of the `n - 1` before, followed
/// by the last of them.
pub proof fn lemma_concat_step(parts: Seq<Seq<char>>, n: int)
    requires
        0 < n <= parts.len(),
    ensures
        concat(parts.take(n)) == concat(parts.take(n - 1)) + parts[n - 1],
{
    assert(parts.take(n).drop_last() =~= parts.take(n - 1));
}

} // verus!
