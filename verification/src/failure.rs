//! Failures: a message with the causes behind it.

use crate::text::{join3, lines_of};
use vstd::prelude::*;

verus! {

/// Why something failed: what is said of it first, and the causes behind it,
/// the nearest first.
pub struct Failure {
    pub message: String,
    pub causes: Vec<String>,
}

/// A failure with one message and no cause behind it.
pub open spec fn plain(message: Seq<char>) -> Seq<Seq<char>> {
    seq![message]
}

/// A failure seen from outside, with one more message in front.
pub open spec fn in_context(message: Seq<char>, failure: Seq<Seq<char>>) -> Seq<Seq<char>> {
    seq![message] + failure
}

/// All messages in one text, each cause behind a colon.
pub open spec fn chained(failure: Seq<Seq<char>>) -> Seq<char>
    decreases failure.len(),
{
    if failure.len() == 0 {
        Seq::empty()
    } else if failure.len() == 1 {
        failure[0]
    } else {
        chained(failure.drop_last()) + ": "@ + failure.last()
    }
}

impl View for Failure {
    type V = Seq<Seq<char>>;

    /// The message and its causes, outermost first.
    open spec fn view(&self) -> Seq<Seq<char>> {
        seq![self.message@] + lines_of(self.causes@)
    }
}

impl Failure {
    /// A failure with one message.
    pub fn new(message: String) -> (r: Failure)
        ensures
            r@ == plain(message@),
    {
        let r = Failure { message, causes: Vec::new() };
        assert(r@ =~= plain(message@));
        r
    }

    /// The failure with one more message in front.
    pub fn context(self, message: String) -> (r: Failure)
        ensures
            r@ == in_context(message@, self@),
    {
        let Failure { message: cause, causes: more } = self;
        let mut causes: Vec<String> = Vec::new();
        causes.push(cause);
        let ghost all = lines_of(more@);
        for c in it: more
            invariant
                it.seq() == more@,
                all == lines_of(more@),
                lines_of(causes@) == seq![cause@] + all.take(it.index()),
        {
            let ghost before = causes@;
            causes.push(c);
            assert(lines_of(causes@) =~= lines_of(before).push(c@));
            assert(all.take(it.index() + 1) =~= all.take(it.index()).push(c@));
            assert(seq![cause@] + all.take(it.index() + 1) =~= (seq![cause@] + all.take(
                it.index(),
            )).push(c@));
        }
        let r = Failure { message, causes };
        assert(all.take(all.len() as int) == all);
        assert(r@ =~= in_context(message@, self@));
        r
    }

    /// All messages in one text.
    pub fn detail(&self) -> (r: String)
        ensures
            r@ == chained(self@),
    {
        let mut r = self.message.clone();
        let mut i: usize = 0;
        assert(self@.take(1).drop_last() =~= Seq::empty());
        while i < self.causes.len()
            invariant
                i <= self.causes.len(),
                r@ == chained(self@.take(i + 1)),
            decreases self.causes.len() - i,
        {
            assert(self@.take(i + 2).drop_last() =~= self@.take(i + 1));
            assert(self@[i + 1] == self.causes@[i as int]@);
            r = join3(r.as_str(), ": ", self.causes[i].as_str());
            i = i + 1;
        }
        assert(self@.take(i + 1) =~= self@);
        r
    }
}

} // verus!
