//! The name of a marking: lowercase Latin letters and underscores.

use crate::domain::outcome;
use crate::domain::MAX_GRAPHEMES;
use crate::text::all_chars_in;
use crate::text::blank;
use crate::text::count_graphemes;
use crate::text::digit_char;
use crate::text::every_char_in;
use crate::text::from_digit;
use crate::text::grapheme_count;
use crate::text::is_blank;
use crate::text::lemma_empty_is_blank;
use vstd::prelude::*;
use vstd::string::StringExecFns;

verus! {

/// A validated marking name.
#[derive(Debug)]
pub struct MarkingName(String);

impl View for MarkingName {
    type V = Seq<char>;

    closed spec fn view(&self) -> Seq<char> {
        self.0@
    }
}

impl MarkingName {
    /// Every value of the type holds a valid name.
    #[verifier::type_invariant]
    spec fn holds_valid_name(self) -> bool {
        Self::valid(self.0@)
    }

    /// The characters a name is written in: `a` to `z` and `_`.
    pub open spec fn allowed(c: char) -> bool {
        ('a' <= c && c <= 'z') || c == '_'
    }

    /// The rule of a name, given whether the text is blank and how many
    /// grapheme clusters it has.
    pub open spec fn admits(s: Seq<char>, empty_or_whitespace: bool, graphemes: nat) -> bool {
        &&& !empty_or_whitespace
        &&& graphemes <= MAX_GRAPHEMES
        &&& forall|i: int| 0 <= i < s.len() ==> Self::allowed(#[trigger] s[i])
    }

    /// A text is a valid name when it is not blank, has at most
    /// [`MAX_GRAPHEMES`] grapheme clusters and holds allowed characters only.
    pub open spec fn valid(s: Seq<char>) -> bool {
        Self::admits(s, blank(s), grapheme_count(s))
    }

    /// The message that rejects `s`.
    pub open spec fn rejection(s: Seq<char>) -> Seq<char> {
        s + " is not a valid name for a marking."@
    }

    /// What [`MarkingName::parse`] makes of `s`: the name's text, or the
    /// message that rejects it.
    pub open spec fn parsed(s: Seq<char>) -> Result<Seq<char>, Seq<char>> {
        if Self::valid(s) {
            Ok(s)
        } else {
            Err(Self::rejection(s))
        }
    }

    /// The allowed characters: the digits of base 36 from ten upwards, which
    /// are the letters `a` to `z`, and the underscore.
    pub fn alphabet() -> (letters: Vec<char>)
        ensures
            letters@.len() == 27,
            forall|c: char| letters@.contains(c) <==> Self::allowed(c),
    {
        let mut letters: Vec<char> = Vec::new();
        let mut digit: u32 = 10;
        while digit < 36
            invariant
                10 <= digit <= 36,
                letters@.len() == digit - 10,
                forall|k: int| 0 <= k < letters@.len() ==> letters@[k] == digit_char(k + 10),
            decreases 36 - digit,
        {
            match from_digit(digit, 36) {
                Some(letter) => letters.push(letter),
                None => {},
            }
            digit += 1;
        }
        letters.push('_');
        proof {
            assert forall|c: char| Self::allowed(c) implies letters@.contains(c) by {
                if c == '_' {
                    assert(letters@[26] == c);
                } else {
                    let k = c as int - 'a' as int;
                    assert(letters@[k] == digit_char(k + 10));
                    assert(letters@[k] == c);
                }
            }
        }
        letters
    }

    /// Decides whether `s` is a valid name, told whether it is blank and how
    /// many grapheme clusters it has.
    pub fn decide(s: &str, empty_or_whitespace: bool, graphemes: usize) -> (ok: bool)
        ensures
            ok == Self::admits(s@, empty_or_whitespace, graphemes as nat),
    {
        let is_too_long = graphemes > MAX_GRAPHEMES;
        let alphabet = Self::alphabet();
        let only_allowed_characters = all_chars_in(s, alphabet.as_slice());
        proof {
            assert(every_char_in(s@, alphabet@) <==> forall|i: int|
                0 <= i < s@.len() ==> Self::allowed(#[trigger] s@[i]));
        }
        !(empty_or_whitespace || is_too_long || !only_allowed_characters)
    }

    /// Makes a name of `s` if `s` is a valid name, and says why not otherwise.
    /// The name holds `s` as it came, untrimmed.
    pub fn parse(s: String) -> (r: Result<MarkingName, String>)
        ensures
            outcome(r) == Self::parsed(s@),
    {
        let is_empty_or_whitespace = is_blank(s.as_str());
        let graphemes = count_graphemes(s.as_str());
        if Self::decide(s.as_str(), is_empty_or_whitespace, graphemes) {
            Ok(Self(s))
        } else {
            Err(s.concat(" is not a valid name for a marking."))
        }
    }

    /// A blank text is no name. The empty text is blank, and so is one of
    /// white space only.
    pub proof fn lemma_blank_is_rejected(s: Seq<char>)
        requires
            blank(s),
        ensures
            Self::parsed(s) == Err::<Seq<char>, Seq<char>>(Self::rejection(s)),
            Self::parsed(Seq::empty()) is Err,
    {
        lemma_empty_is_blank();
    }

    /// Of a text that is not blank and holds allowed characters only, the
    /// number of grapheme clusters decides: up to [`MAX_GRAPHEMES`] it is a
    /// name, from one more on it is none.
    pub proof fn lemma_length_decides(s: Seq<char>)
        requires
            !blank(s),
            forall|i: int| 0 <= i < s.len() ==> Self::allowed(#[trigger] s[i]),
        ensures
            grapheme_count(s) <= MAX_GRAPHEMES ==> Self::parsed(s) == Ok::<Seq<char>, Seq<char>>(s),
            grapheme_count(s) > MAX_GRAPHEMES ==> Self::parsed(s) is Err,
    {
    }

    /// A text with a character other than `a` to `z` and `_` is no name.
    pub proof fn lemma_foreign_character_is_rejected(s: Seq<char>, i: int)
        requires
            0 <= i < s.len(),
            !Self::allowed(s[i]),
        ensures
            Self::parsed(s) == Err::<Seq<char>, Seq<char>>(Self::rejection(s)),
    {
    }

    /// The text of a name parses again, to the same name.
    pub proof fn lemma_parse_is_idempotent(s: Seq<char>)
        ensures
            Self::parsed(s) matches Ok(name) ==> Self::parsed(name) == Ok::<
                Seq<char>,
                Seq<char>,
            >(name),
    {
    }
}

impl AsRef<str> for MarkingName {
    /// The text of the name, which is valid.
    fn as_ref(&self) -> (text: &str)
        ensures
            text@ == self@,
            MarkingName::valid(text@),
    {
        proof {
            use_type_invariant(self);
        }
        self.0.as_str()
    }
}

} // verus!
