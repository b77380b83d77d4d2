//! Well-formed templates, and what resolution makes of them.
//!
//! A template is well formed where each of its braces belongs to a slot with
//! a known name: plain text, a slot, plain text, a slot, and so on.

use crate::forms::{
    filled, lemma_fill_next, next_category, no_slot_word_holds, resolved, slot_category,
};
use crate::text::{first_index, lemma_first_index_behind, plain};
use crate::words::{picked, Bank, GenError};
use vstd::prelude::*;

verus! {

/// Each brace of the template belongs to a slot with a known name: the
/// template is plain, or its first `{` stands before its first `}`, the name
/// between them is known, and what follows that `}` is well formed.
pub open spec fn well_formed(t: Seq<char>) -> bool
    decreases t.len(),
{
    if plain(t) {
        true
    } else {
        let open = first_index(t, '{');
        let close = first_index(t, '}');
        &&& 0 <= open < close < t.len()
        &&& slot_category(t.subrange(open + 1, close)) is Some
        &&& well_formed(t.subrange(close + 1, t.len() as int))
    }
}

/// The number of slots of a well-formed template.
pub open spec fn slot_count(t: Seq<char>) -> nat
    decreases t.len(),
{
    let close = first_index(t, '}');
    if plain(t) || !(0 <= close < t.len()) {
        0
    } else {
        1 + slot_count(t.subrange(close + 1, t.len() as int))
    }
}

/// Each category that a slot may name holds a word.
pub open spec fn slot_words_present(bank: Bank) -> bool {
    &&& bank.nouns.len() > 0
    &&& bank.adjectives.len() > 0
    &&& bank.titles.len() > 0
    &&& bank.places.len() > 0
}

/// Plain text before a well-formed template gives a well-formed template
/// with the same slots.
pub proof fn lemma_well_formed_behind(lead: Seq<char>, t: Seq<char>)
    requires
        plain(lead),
        well_formed(t),
    ensures
        well_formed(lead + t),
        slot_count(lead + t) == slot_count(t),
{
    let whole = lead + t;
    if !plain(t) {
        lemma_first_index_behind(lead, t, '{');
        lemma_first_index_behind(lead, t, '}');
        let open = first_index(t, '{');
        let close = first_index(t, '}');
        let shift = lead.len() as int;
        assert(whole.subrange(shift + open + 1, shift + close) =~= t.subrange(open + 1, close));
        assert(whole.subrange(shift + close + 1, whole.len() as int) =~= t.subrange(
            close + 1,
            t.len() as int,
        ));
    }
}

/// The first step on a well-formed template that is not plain: its next
/// slot names a category, and a plain word in that slot leaves a well-formed
/// template with one slot less.
pub proof fn lemma_well_formed_step(t: Seq<char>, word: Seq<char>)
    requires
        well_formed(t),
        !plain(t),
        plain(word),
    ensures
        next_category(t) is Some,
        well_formed(filled(t, next_category(t)->0, word)),
        slot_count(filled(t, next_category(t)->0, word)) + 1 == slot_count(t),
{
    let open = first_index(t, '{');
    let close = first_index(t, '}');
    let category = slot_category(t.subrange(open + 1, close))->0;
    lemma_fill_next(t, category, word);
    let lead = t.subrange(0, open);
    let rest = t.subrange(close + 1, t.len() as int);
    assert(plain(lead));
    assert(plain(lead + word));
    lemma_well_formed_behind(lead + word, rest);
}

/// A well-formed template with `k` slots, resolved with words that hold no
/// brace, comes out without braces, and it takes `k` draws to get there.
/// Where each category that a slot may name holds a word, resolution does not
/// fail, and any `k` draws resolve the template.
pub proof fn lemma_well_formed_resolves(t: Seq<char>, bank: Bank, draws: Seq<usize>)
    requires
        well_formed(t),
        no_slot_word_holds(bank, '{'),
        no_slot_word_holds(bank, '}'),
    ensures
        resolved(t, bank, draws) matches Some(Ok(out)) ==> plain(out) && draws.len() == slot_count(
            t,
        ),
        slot_words_present(bank) ==> (resolved(t, bank, draws) is Some <==> draws.len()
            == slot_count(t)),
        slot_words_present(bank) ==> !(resolved(t, bank, draws) matches Some(Err(_))),
    decreases draws.len(),
{
    if !plain(t) {
        let first = if draws.len() == 0 {
            0usize
        } else {
            draws[0]
        };
        let category = next_category(t)->0;
        let words = bank.words(category);
        if words.len() > 0 {
            let word = picked(words, first);
            assert(plain(word));
            lemma_well_formed_step(t, word);
            if draws.len() > 0 {
                lemma_well_formed_resolves(filled(t, category, word), bank, draws.drop_first());
            }
        }
    }
}

/// A template whose next slot is missing or has an unknown name is its own
/// resolution: no draw is made, and the text stays as it is.
pub proof fn lemma_unknown_slot_ends(t: Seq<char>, bank: Bank, draws: Seq<usize>)
    requires
        next_category(t) is None,
    ensures
        resolved(t, bank, draws) == if draws.len() == 0 {
            Some(Ok::<Seq<char>, GenError>(t))
        } else {
            None
        },
{
}

} // verus!
