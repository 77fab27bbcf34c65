//! The validated value types of a marking.
//!
//! A value of one of these types exists only if its text passed the rule of
//! the type: each is made by its `parse` function and by nothing else, and
//! none can be changed afterwards.

use vstd::prelude::*;

mod marking_definition;
mod marking_name;
mod marking_type;
mod new_marking;

pub use marking_definition::MarkingDefinition;
pub use marking_name::MarkingName;
pub use marking_type::MarkingDefinitionType;
pub use marking_type::MarkingType;
pub use new_marking::MarkingView;
pub use new_marking::NewMarking;

verus! {

/// The most grapheme clusters that a name or a definition may have.
pub const MAX_GRAPHEMES: usize = 256;

/// A parse result as specifications see it: the view of the value, or the
/// text of the message.
pub open spec fn outcome<T: View>(r: Result<T, String>) -> Result<T::V, Seq<char>> {
    match r {
        Ok(value) => Ok(value@),
        Err(message) => Err(message@),
    }
}

} // verus!
