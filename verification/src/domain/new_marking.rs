//! A marking that is ready to be stored.

use crate::domain::MarkingDefinition;
use crate::domain::MarkingDefinitionType;
use crate::domain::MarkingName;
use crate::domain::MarkingType;
use vstd::prelude::*;

verus! {

/// A marking of three validated parts. Each part can only be had from its
/// own `parse`, so no marking exists with a part that is not valid.
pub struct NewMarking {
    pub name: MarkingName,
    pub definition_type: MarkingDefinitionType,
    pub definition: MarkingDefinition,
}

/// A marking as specifications see it: the texts of its name and definition,
/// and its type.
pub struct MarkingView {
    pub name: Seq<char>,
    pub definition_type: MarkingType,
    pub definition: Seq<char>,
}

impl View for NewMarking {
    type V = MarkingView;

    open spec fn view(&self) -> MarkingView {
        MarkingView {
            name: self.name@,
            definition_type: self.definition_type@,
            definition: self.definition@,
        }
    }
}

} // verus!
