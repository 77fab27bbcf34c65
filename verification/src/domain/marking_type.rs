//! The type of a marking: one of a closed set of tags.

use crate::domain::outcome;
use crate::text::ascii_lower;
use crate::text::lemma_lowercase_fixes_lowercase;
use crate::text::lowercase;
use crate::text::same_text;
use crate::text::to_lowercase;
use vstd::prelude::*;
use vstd::std_specs::convert::TryFromSpecImpl;
use vstd::string::StringExecFns;
use vstd::utf8::is_ascii_chars;

verus! {

/// A validated marking type.
#[derive(Debug)]
pub struct MarkingDefinitionType(MarkingType);

impl View for MarkingDefinitionType {
    type V = MarkingType;

    closed spec fn view(&self) -> MarkingType {
        self.0
    }
}

impl MarkingDefinitionType {
    /// Makes a marking type of `s` if `s`, in lowercase, is the name of one,
    /// and says why not otherwise.
    pub fn parse(s: String) -> (r: Result<MarkingDefinitionType, String>)
        ensures
            outcome(r) == MarkingType::parsed(s@),
    {
        match MarkingType::try_from(s) {
            Ok(marking_type) => Ok(Self(marking_type)),
            Err(message) => Err(message),
        }
    }
}

impl AsRef<str> for MarkingDefinitionType {
    /// The canonical name of the type, whatever the case it was parsed from.
    fn as_ref(&self) -> (text: &str)
        ensures
            text@ == self@.canonical(),
    {
        self.0.as_str()
    }
}

/// The kinds of marking that exist.
#[derive(Debug, Clone, Copy, PartialEq, Eq, Structural)]
pub enum MarkingType {
    Tlp,
    Statement,
}

impl View for MarkingType {
    type V = MarkingType;

    open spec fn view(&self) -> MarkingType {
        *self
    }
}

impl MarkingType {
    /// The canonical name of a type, in lowercase.
    pub open spec fn canonical(self) -> Seq<char> {
        match self {
            MarkingType::Tlp => "tlp"@,
            MarkingType::Statement => "statement"@,
        }
    }

    /// The message that rejects a text whose lowercase form is `lowered`.
    pub open spec fn rejection(lowered: Seq<char>) -> Seq<char> {
        lowered + " is not a supported marking type. Use either 'tlp' or 'statement'."@
    }

    /// The type whose canonical name is `lowered`, or the message that
    /// rejects it.
    pub open spec fn classified(lowered: Seq<char>) -> Result<MarkingType, Seq<char>> {
        if lowered == MarkingType::Tlp.canonical() {
            Ok(MarkingType::Tlp)
        } else if lowered == MarkingType::Statement.canonical() {
            Ok(MarkingType::Statement)
        } else {
            Err(Self::rejection(lowered))
        }
    }

    /// What parsing makes of `s`: the type that `s` names once in lowercase,
    /// or the message that rejects it.
    pub open spec fn parsed(s: Seq<char>) -> Result<MarkingType, Seq<char>> {
        Self::classified(lowercase(s))
    }

    /// The canonical name of the type.
    pub fn as_str(&self) -> (name: &'static str)
        ensures
            name@ == self.canonical(),
    {
        match self {
            MarkingType::Tlp => "tlp",
            MarkingType::Statement => "statement",
        }
    }

    /// The type that a text already in lowercase names.
    pub fn from_lowercase(lowered: String) -> (r: Result<MarkingType, String>)
        ensures
            outcome(r) == Self::classified(lowered@),
    {
        if same_text(lowered.as_str(), "tlp") {
            Ok(MarkingType::Tlp)
        } else if same_text(lowered.as_str(), "statement") {
            Ok(MarkingType::Statement)
        } else {
            Err(
                lowered.concat(
                    " is not a supported marking type. Use either 'tlp' or 'statement'.",
                ),
            )
        }
    }

    /// The canonical names, character by character: they are ASCII, have no
    /// capital letter and differ from each other.
    pub proof fn lemma_canonical_names()
        ensures
            MarkingType::Tlp.canonical() == seq!['t', 'l', 'p'],
            MarkingType::Statement.canonical() == seq!['s', 't', 'a', 't', 'e', 'm', 'e', 'n', 't'],
    {
        reveal_strlit("tlp");
        reveal_strlit("statement");
        assert(MarkingType::Tlp.canonical() =~= seq!['t', 'l', 'p']);
        assert(MarkingType::Statement.canonical() =~= seq![
            's',
            't',
            'a',
            't',
            'e',
            'm',
            'e',
            'n',
            't',
        ]);
    }

    /// A text parses to a type exactly if its lowercase form is the
    /// canonical name of that type; a text whose lowercase form is neither
    /// name is rejected, and the empty text is one of these.
    pub proof fn lemma_parses_exactly_the_names(s: Seq<char>, t: MarkingType)
        ensures
            Self::parsed(s) == Ok::<MarkingType, Seq<char>>(t) <==> lowercase(s) == t.canonical(),
            Self::parsed(s) is Err <==> lowercase(s) != MarkingType::Tlp.canonical() && lowercase(
                s,
            ) != MarkingType::Statement.canonical(),
            Self::parsed(Seq::empty()) is Err,
    {
        Self::lemma_canonical_names();
        assert(MarkingType::Tlp.canonical().len() == 3);
        assert(MarkingType::Statement.canonical().len() == 9);
        assert(is_ascii_chars(Seq::<char>::empty()));
        assert(lowercase(Seq::<char>::empty()).len() == 0);
    }

    /// On ASCII text the case of the letters does not count: a text parses
    /// to a type exactly if it spells the canonical name of that type in
    /// capital or small letters.
    pub proof fn lemma_case_does_not_count(s: Seq<char>, t: MarkingType)
        requires
            is_ascii_chars(s),
        ensures
            Self::parsed(s) == Ok::<MarkingType, Seq<char>>(t) <==> {
                &&& s.len() == t.canonical().len()
                &&& forall|i: int| 0 <= i < s.len() ==> ascii_lower(#[trigger] s[i]) == t.canonical()[i]
            },
    {
        Self::lemma_parses_exactly_the_names(s, t);
        let spelled = {
            &&& s.len() == t.canonical().len()
            &&& forall|i: int| 0 <= i < s.len() ==> ascii_lower(#[trigger] s[i]) == t.canonical()[i]
        };
        if spelled {
            assert(lowercase(s) =~= t.canonical());
        }
        if lowercase(s) == t.canonical() {
            assert forall|i: int| 0 <= i < s.len() implies ascii_lower(#[trigger] s[i])
                == t.canonical()[i] by {
                assert(lowercase(s)[i] == ascii_lower(s[i]));
            }
        }
    }

    /// The canonical name of a type parses to that type, so that parsing
    /// what a successful parse stands for gives the same type again.
    pub proof fn lemma_parse_is_idempotent(s: Seq<char>)
        ensures
            forall|t: MarkingType| #[trigger] Self::parsed(t.canonical()) == Ok::<MarkingType, Seq<char>>(t),
            Self::parsed(s) matches Ok(t) ==> Self::parsed(t.canonical()) == Self::parsed(s),
    {
        Self::lemma_canonical_names();
        assert forall|t: MarkingType| #[trigger]
            Self::parsed(t.canonical()) == Ok::<MarkingType, Seq<char>>(t) by {
            lemma_lowercase_fixes_lowercase(t.canonical());
            assert(MarkingType::Tlp.canonical().len() == 3);
            assert(MarkingType::Statement.canonical().len() == 9);
        }
    }
}

impl TryFrom<String> for MarkingType {
    type Error = String;

    /// The type that `s` names without regard to case.
    fn try_from(s: String) -> (r: Result<Self, String>)
        ensures
            outcome(r) == Self::parsed(s@),
    {
        Self::from_lowercase(to_lowercase(s.as_str()))
    }
}

/// The error of the conversion is a `String`, of which specifications see
/// the text only, so the result is stated by `try_from` itself and not here.
impl TryFromSpecImpl<String> for MarkingType {
    open spec fn obeys_try_from_spec() -> bool {
        false
    }

    open spec fn try_from_spec(s: String) -> Result<Self, String> {
        arbitrary()
    }
}

} // verus!
