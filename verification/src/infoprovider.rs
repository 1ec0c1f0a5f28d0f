use vstd::prelude::*;

verus! {

/// Something that can describe its current state as text.
pub trait InfoProvider {
    /// The description, as a sequence of characters.
    spec fn info(&self) -> Seq<char>;

    /// Renders the description. Reads the current state and changes nothing.
    fn get_info(&self) -> (s: String)
        ensures
            s@ == self.info(),
    ;
}

} // verus!
