use vstd::prelude::*;

verus! {

/// What every supported protocol tells about itself.
pub trait Protocol {
    /// The human-readable name.
    fn name() -> &'static str;

    /// The identifier used in a server's `protocol` field.
    fn identifier() -> &'static str;
}

} // verus!
