//! An iterator over the characters of a string together with their character
//! positions. `str::char_indices` yields byte offsets; the table parser's
//! boundary arithmetic needs true character indices instead.

use vstd::prelude::*;

use crate::text::chars_of;

verus! {

pub struct CharPosIter {
    chars: Vec<char>,
    index: usize,
}

impl CharPosIter {
    /// All characters this iterator walks over.
    pub closed spec fn all_chars(self) -> Seq<char> {
        self.chars@
    }

    /// How many characters were handed out so far.
    pub closed spec fn pos(self) -> int {
        self.index as int
    }

    #[verifier::type_invariant]
    spec fn wf(self) -> bool {
        self.index <= self.chars@.len()
    }

    pub fn new(s: &str) -> (r: CharPosIter)
        ensures
            r.all_chars() == s@,
            r.pos() == 0,
    {
        CharPosIter { chars: chars_of(s), index: 0 }
    }

    /// The next character and its position, counting characters from 0.
    pub fn next(&mut self) -> (r: Option<(usize, char)>)
        ensures
            final(self).all_chars() == old(self).all_chars(),
            if old(self).pos() < old(self).all_chars().len() {
                &&& r == Some(
                    (old(self).pos() as usize, old(self).all_chars()[old(self).pos()]),
                )
                &&& final(self).pos() == old(self).pos() + 1
            } else {
                &&& r is None
                &&& final(self).pos() == old(self).pos()
            },
    {
        proof {
            use_type_invariant(&*self);
        }
        if self.index < self.chars.len() {
            let i = self.index;
            let c = self.chars[i];
            self.index = i + 1;
            Some((i, c))
        } else {
            None
        }
    }
}

} // verus!
