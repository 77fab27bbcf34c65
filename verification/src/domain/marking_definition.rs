//! The definition of a marking: free text without a few reserved characters.

use crate::domain::outcome;
use crate::domain::MAX_GRAPHEMES;
use crate::text::any_char_in;
use crate::text::blank;
use crate::text::count_graphemes;
use crate::text::grapheme_count;
use crate::text::is_blank;
use crate::text::lemma_empty_is_blank;
use crate::text::some_char_in;
use vstd::prelude::*;
use vstd::string::StringExecFns;

verus! {

/// A validated marking definition.
#[derive(Debug)]
pub struct MarkingDefinition(String);

impl View for MarkingDefinition {
    type V = Seq<char>;

    closed spec fn view(&self) -> Seq<char> {
        self.0@
    }
}

impl MarkingDefinition {
    /// Every value of the type holds a valid definition.
    #[verifier::type_invariant]
    spec fn holds_valid_definition(self) -> bool {
        Self::valid(self.0@)
    }

    /// The characters that no definition may hold.
    pub open spec fn forbidden(c: char) -> bool {
        c == '/' || c == '(' || c == ')' || c == '"' || c == '<' || c == '>' || c == '\\' || c
            == '{' || c == '}'
    }

    /// The rule of a definition, given whether the text is blank and how
    /// many grapheme clusters it has.
    pub open spec fn admits(s: Seq<char>, empty_or_whitespace: bool, graphemes: nat) -> bool {
        &&& !empty_or_whitespace
        &&& graphemes <= MAX_GRAPHEMES
        &&& forall|i: int| 0 <= i < s.len() ==> !Self::forbidden(#[trigger] s[i])
    }

    /// A text is a valid definition when it is not blank, has at most
    /// [`MAX_GRAPHEMES`] grapheme clusters and holds no forbidden character.
    pub open spec fn valid(s: Seq<char>) -> bool {
        Self::admits(s, blank(s), grapheme_count(s))
    }

    /// The message that rejects `s`.
    pub open spec fn rejection(s: Seq<char>) -> Seq<char> {
        s + " is not a valid name for a marking."@
    }

    /// What [`MarkingDefinition::parse`] makes of `s`: the definition's
    /// text, or the message that rejects it.
    pub open spec fn parsed(s: Seq<char>) -> Result<Seq<char>, Seq<char>> {
        if Self::valid(s) {
            Ok(s)
        } else {
            Err(Self::rejection(s))
        }
    }

    /// Decides whether `s` is a valid definition, told whether it is blank
    /// and how many grapheme clusters it has.
    pub fn decide(s: &str, empty_or_whitespace: bool, graphemes: usize) -> (ok: bool)
        ensures
            ok == Self::admits(s@, empty_or_whitespace, graphemes as nat),
    {
        let is_too_long = graphemes > MAX_GRAPHEMES;
        let forbidden_characters = ['/', '(', ')', '"', '<', '>', '\\', '{', '}'];
        let contains_forbidden_characters = any_char_in(s, forbidden_characters.as_slice());
        proof {
            assert(forall|c: char|
                forbidden_characters@.contains(c) <==> Self::forbidden(c));
            assert(some_char_in(s@, forbidden_characters@) <==> !(forall|i: int|
                0 <= i < s@.len() ==> !Self::forbidden(#[trigger] s@[i])));
        }
        !(empty_or_whitespace || is_too_long || contains_forbidden_characters)
    }

    /// Makes a definition of `s` if `s` is a valid definition, and says why
    /// not otherwise. The definition holds `s` as it came, untrimmed.
    pub fn parse(s: String) -> (r: Result<MarkingDefinition, String>)
        ensures
            outcome(r) == Self::parsed(s@),
    {
        let is_empty_or_whitespace = is_blank(s.as_str());
        let graphemes = count_graphemes(s.as_str());
        if Self::decide(s.as_str(), is_empty_or_whitespace, graphemes) {
            Ok(Self(s))
        } else {
            Err(s.concat(" is not a valid name for a marking."))
        }
    }

    /// A blank text is no definition. The empty text is blank, and so is one
    /// of white space only.
    pub proof fn lemma_blank_is_rejected(s: Seq<char>)
        requires
            blank(s),
        ensures
            Self::parsed(s) == Err::<Seq<char>, Seq<char>>(Self::rejection(s)),
            Self::parsed(Seq::empty()) is Err,
    {
        lemma_empty_is_blank();
    }

    /// Of a text that is not blank and holds no forbidden character, the
    /// number of grapheme clusters decides: up to [`MAX_GRAPHEMES`] it is a
    /// definition, from one more on it is none.
    pub proof fn lemma_length_decides(s: Seq<char>)
        requires
            !blank(s),
            forall|i: int| 0 <= i < s.len() ==> !Self::forbidden(#[trigger] s[i]),
        ensures
            grapheme_count(s) <= MAX_GRAPHEMES ==> Self::parsed(s) == Ok::<Seq<char>, Seq<char>>(s),
            grapheme_count(s) > MAX_GRAPHEMES ==> Self::parsed(s) is Err,
    {
    }

    /// A text with a forbidden character is no definition.
    pub proof fn lemma_forbidden_character_is_rejected(s: Seq<char>, i: int)
        requires
            0 <= i < s.len(),
            Self::forbidden(s[i]),
        ensures
            Self::parsed(s) == Err::<Seq<char>, Seq<char>>(Self::rejection(s)),
    {
    }

    /// The text of a definition parses again, to the same definition.
    pub proof fn lemma_parse_is_idempotent(s: Seq<char>)
        ensures
            Self::parsed(s) matches Ok(definition) ==> Self::parsed(definition) == Ok::<
                Seq<char>,
                Seq<char>,
            >(definition),
    {
    }
}

impl AsRef<str> for MarkingDefinition {
    /// The text of the definition, which is valid.
    fn as_ref(&self) -> (text: &str)
        ensures
            text@ == self@,
            MarkingDefinition::valid(text@),
    {
        proof {
            use_type_invariant(self);
        }
        self.0.as_str()
    }
}

} // verus!
