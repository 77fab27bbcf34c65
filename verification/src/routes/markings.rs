//! The request to register a marking.

use crate::domain::outcome;
use crate::domain::MarkingDefinition;
use crate::domain::MarkingDefinitionType;
use crate::domain::MarkingName;
use crate::domain::MarkingType;
use crate::domain::MarkingView;
use crate::domain::NewMarking;
use vstd::prelude::*;
use vstd::std_specs::convert::TryFromSpecImpl;

verus! {

/// The three texts of a request, as they came and unchecked.
pub struct JsonData {
    pub name: String,
    pub definition_type: String,
    pub definition: String,
}

impl JsonData {
    /// What converting the request makes of it. The name is judged first,
    /// then the definition, then the type; the first that fails gives the
    /// message, and only if none fails is there a marking.
    pub open spec fn converted(self) -> Result<MarkingView, Seq<char>> {
        match MarkingName::parsed(self.name@) {
            Err(message) => Err(message),
            Ok(name) => match MarkingDefinition::parsed(self.definition@) {
                Err(message) => Err(message),
                Ok(definition) => match MarkingType::parsed(self.definition_type@) {
                    Err(message) => Err(message),
                    Ok(definition_type) => Ok(MarkingView { name, definition_type, definition }),
                },
            },
        }
    }

    /// A request whose name is not valid is refused with the message of the
    /// name, whatever its definition and its type are.
    pub proof fn lemma_name_is_judged_first(self)
        requires
            !MarkingName::valid(self.name@),
        ensures
            self.converted() == Err::<MarkingView, Seq<char>>(MarkingName::rejection(self.name@)),
    {
    }

    /// A request whose name is valid and whose definition is not is refused
    /// with the message of the definition, whatever its type is.
    pub proof fn lemma_definition_is_judged_second(self)
        requires
            MarkingName::valid(self.name@),
            !MarkingDefinition::valid(self.definition@),
        ensures
            self.converted() == Err::<MarkingView, Seq<char>>(
                MarkingDefinition::rejection(self.definition@),
            ),
    {
    }

    /// A request becomes a marking exactly if each of its three texts is
    /// valid, and the marking then holds the name and the definition as they
    /// came and the type that the third text names.
    pub proof fn lemma_converts_exactly_the_valid(self)
        ensures
            self.converted() is Ok <==> {
                &&& MarkingName::valid(self.name@)
                &&& MarkingDefinition::valid(self.definition@)
                &&& MarkingType::parsed(self.definition_type@) is Ok
            },
            self.converted() matches Ok(marking) ==> {
                &&& marking.name == self.name@
                &&& marking.definition == self.definition@
                &&& MarkingType::parsed(self.definition_type@) == Ok::<MarkingType, Seq<char>>(
                    marking.definition_type,
                )
            },
    {
    }
}

impl TryFrom<JsonData> for NewMarking {
    type Error = String;

    /// Validates the three texts of a request and makes a marking of them,
    /// or hands back the message of the first that is not valid.
    fn try_from(form: JsonData) -> (r: Result<Self, String>)
        ensures
            outcome(r) == form.converted(),
    {
        let name = match MarkingName::parse(form.name) {
            Ok(name) => name,
            Err(message) => return Err(message),
        };
        let definition = match MarkingDefinition::parse(form.definition) {
            Ok(definition) => definition,
            Err(message) => return Err(message),
        };
        let definition_type = match MarkingDefinitionType::parse(form.definition_type) {
            Ok(definition_type) => definition_type,
            Err(message) => return Err(message),
        };
        Ok(NewMarking { name, definition_type, definition })
    }
}

/// The error of the conversion is a `String`, of which specifications see
/// the text only, so the result is stated by `try_from` itself and not here.
impl TryFromSpecImpl<JsonData> for NewMarking {
    open spec fn obeys_try_from_spec() -> bool {
        false
    }

    open spec fn try_from_spec(form: JsonData) -> Result<Self, String> {
        arbitrary()
    }
}

} // verus!
