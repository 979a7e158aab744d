//! The container formats that the installed tool supports.

use crate::text::same_text;
use vstd::prelude::*;

verus! {

/// A set of container formats, each by its name. It is made once, from what
/// the tool reports of itself, and only read after that.
#[derive(Debug)]
pub struct SupportedFormatSet {
    tokens: Vec<String>,
}

impl View for SupportedFormatSet {
    type V = Set<Seq<char>>;

    closed spec fn view(&self) -> Set<Seq<char>> {
        self.tokens.deep_view().to_set()
    }
}

/// Whether one of `list` is `token`.
fn holds(list: &Vec<String>, token: &str) -> (r: bool)
    ensures
        r == list.deep_view().contains(token@),
{
    let mut i: usize = 0;
    while i < list.len()
        invariant
            i <= list.len(),
            forall|j: int| 0 <= j < i ==> list.deep_view()[j] != token@,
        decreases list.len() - i,
    {
        if same_text(list[i].as_str(), token) {
            assert(list.deep_view()[i as int] == token@);
            return true;
        }
        i += 1;
    }
    false
}

impl SupportedFormatSet {
    #[verifier::type_invariant]
    spec fn no_name_twice(&self) -> bool {
        self.tokens.deep_view().no_duplicates()
    }

    /// The set of the formats that `tokens` names. A name that occurs more than
    /// once counts once.
    pub fn from_tokens(tokens: &Vec<String>) -> (r: Self)
        ensures
            r@ == tokens.deep_view().to_set(),
    {
        let mut distinct: Vec<String> = Vec::new();
        let mut i: usize = 0;
        proof {
            assert(distinct.deep_view().to_set() =~= tokens.deep_view().take(0).to_set());
        }
        while i < tokens.len()
            invariant
                i <= tokens.len(),
                distinct.deep_view().no_duplicates(),
                distinct.deep_view().to_set() == tokens.deep_view().take(i as int).to_set(),
            decreases tokens.len() - i,
        {
            let ghost seen = distinct.deep_view();
            let ghost token = tokens.deep_view()[i as int];
            proof {
                assert(tokens.deep_view().take(i + 1) =~= tokens.deep_view().take(i as int).push(
                    token,
                ));
                tokens.deep_view().take(i as int).lemma_push_to_set_commute(token);
            }
            if !holds(&distinct, tokens[i].as_str()) {
                distinct.push(tokens[i].clone());
                proof {
                    assert(distinct.deep_view() =~= seen.push(token));
                    seen.lemma_push_to_set_commute(token);
                }
            } else {
                assert(seen.to_set().insert(token) =~= seen.to_set());
            }
            i += 1;
        }
        proof {
            assert(tokens.deep_view().take(tokens.len() as int) =~= tokens.deep_view());
        }
        SupportedFormatSet { tokens: distinct }
    }

    /// Whether the set holds the format named `token`.
    pub fn contains(&self, token: &str) -> (r: bool)
        ensures
            r == self@.contains(token@),
    {
        holds(&self.tokens, token)
    }

    /// How many formats the set holds.
    pub fn len(&self) -> (r: usize)
        ensures
            self@.finite(),
            r == self@.len(),
    {
        proof {
            use_type_invariant(self);
            self.tokens.deep_view().unique_seq_to_set();
            vstd::seq_lib::seq_to_set_is_finite(self.tokens.deep_view());
        }
        self.tokens.len()
    }
}

/// Whether `extension` names a format of `formats`.
pub fn has_valid_extension(extension: &str, formats: &SupportedFormatSet) -> (r: bool)
    ensures
        r == formats@.contains(extension@),
{
    formats.contains(extension)
}

} // verus!
