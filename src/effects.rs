//! Effect intensities and their selection by name.

use vstd::prelude::*;

verus! {

/// Intensities of the post-processing effects. They are applied as given:
/// keeping them in range is up to the caller.
pub struct Effects<S> {
    pub reverb: S,
    pub delay: S,
}

/// Whether `s` reads `word`.
pub fn text_is(s: &str, word: &str) -> (r: bool)
    ensures
        r == (s@ == word@),
{
    String::from_str(s) == String::from_str(word)
}

impl<S> Effects<S> {
    pub fn new(reverb: S, delay: S) -> (r: Effects<S>)
        ensures
            r.reverb == reverb,
            r.delay == delay,
    {
        Effects { reverb, delay }
    }

    /// Sets the effect called `name` (`"reverb"` or `"delay"`) to `value`.
    /// Returns false, and changes nothing, for any other name.
    pub fn set(&mut self, name: &str, value: S) -> (known: bool)
        ensures
            known == (name@ == "delay"@ || name@ == "reverb"@),
            final(self).delay == if name@ == "delay"@ { value } else { old(self).delay },
            final(self).reverb == if name@ == "reverb"@ { value } else { old(self).reverb },
    {
        proof {
            reveal_strlit("delay");
            reveal_strlit("reverb");
            assert("delay"@[0] != "reverb"@[0]);
        }
        if text_is(name, "delay") {
            self.delay = value;
            true
        } else if text_is(name, "reverb") {
            self.reverb = value;
            true
        } else {
            false
        }
    }
}

} // verus!
