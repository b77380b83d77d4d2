//! The template engine: sentences with `{category}` slots, and their
//! resolution against a word bank.
//!
//! The next slot of a template is what stands between its first `{` and its
//! first `}`, each looked for on its own. Resolution fills the next slot as
//! long as it names a category, left to right, and stops at the first slot
//! that does not.

use crate::random::random_usize;
use crate::text::{
    chars_of, find_char, find_text, first_index, lemma_find_first_unique,
    lemma_first_index_present, occurs_at, plain, replace_first, same_text,
};
use crate::well_formed::{lemma_well_formed_resolves, slot_words_present, well_formed};
use crate::words::{picked, text_of, words_view, Bank, Category, GenError, WordBank};
use vstd::prelude::*;
use vstd::string::*;

verus! {

/// A slot as it stands in a template: the name between braces.
pub open spec fn slot_token(name: Seq<char>) -> Seq<char> {
    seq!['{'] + name + seq!['}']
}

/// The name in the next slot of a template: what stands between its first
/// `{` and its first `}`. Each of the two is looked for on its own. Where the
/// first `}` stands before the first `{`, nothing stands between them in
/// reading order, and the name is empty. A template without `{` or without
/// `}` has no slot.
pub open spec fn next_slot(t: Seq<char>) -> Option<Seq<char>> {
    if t.contains('{') && t.contains('}') {
        let open = first_index(t, '{');
        let close = first_index(t, '}');
        if open < close {
            Some(t.subrange(open + 1, close))
        } else {
            Some(Seq::empty())
        }
    } else {
        None
    }
}

/// The name by which a slot asks for a word of `category`.
pub open spec fn slot_name(category: Category) -> Seq<char> {
    match category {
        Category::Noun => "noun"@,
        Category::Adjective => "adjective"@,
        Category::Title => "title"@,
        Category::Place => "place"@,
        Category::Suffix => "suffix"@,
    }
}

/// The category that a slot's name asks for. Slots take nouns, adjectives,
/// titles and places; any other name is unknown.
pub open spec fn slot_category(name: Seq<char>) -> Option<Category> {
    if name == "noun"@ {
        Some(Category::Noun)
    } else if name == "adjective"@ {
        Some(Category::Adjective)
    } else if name == "title"@ {
        Some(Category::Title)
    } else if name == "place"@ {
        Some(Category::Place)
    } else {
        None
    }
}

/// The category that the next slot of a template asks for, if it has a next
/// slot and that slot's name is known.
pub open spec fn next_category(t: Seq<char>) -> Option<Category> {
    match next_slot(t) {
        Some(name) => slot_category(name),
        None => None,
    }
}

/// A template with the first slot of `category` filled by `word`.
pub open spec fn filled(t: Seq<char>, category: Category, word: Seq<char>) -> Seq<char> {
    replace_first(t, slot_token(slot_name(category)), word)
}

/// One step of resolution with the draw `draw`: `Ok(None)` where resolution
/// is over, because the template has no next slot or the slot's name is
/// unknown; else the template with that slot filled by the word that `draw`
/// selects, or `EmptyCategory` where the category holds no word.
pub open spec fn step(t: Seq<char>, bank: Bank, draw: usize) -> Result<Option<Seq<char>>, GenError> {
    match next_category(t) {
        None => Ok(None),
        Some(category) => if bank.words(category).len() == 0 {
            Err(GenError::EmptyCategory)
        } else {
            Ok(Some(filled(t, category, picked(bank.words(category), draw))))
        },
    }
}

/// What resolution of `t` gives when its draws come out as `draws`, one draw
/// for each slot that is filled: the text in which the next slot, if any, has
/// an unknown name, or `EmptyCategory` at the first slot whose category holds
/// no word. `None` where resolution would use fewer draws or more.
pub open spec fn resolved(t: Seq<char>, bank: Bank, draws: Seq<usize>) -> Option<
    Result<Seq<char>, GenError>,
>
    decreases draws.len(),
{
    match next_category(t) {
        None => if draws.len() == 0 {
            Some(Ok(t))
        } else {
            None
        },
        Some(category) => {
            let words = bank.words(category);
            if words.len() == 0 {
                if draws.len() == 0 {
                    Some(Err(GenError::EmptyCategory))
                } else {
                    None
                }
            } else if draws.len() == 0 {
                None
            } else {
                resolved(filled(t, category, picked(words, draws[0])), bank, draws.drop_first())
            }
        },
    }
}

/// No word of the list holds the character `c`.
pub open spec fn list_lacks(words: Seq<Seq<char>>, c: char) -> bool {
    forall|i: int| 0 <= i < words.len() ==> !(#[trigger] words[i]).contains(c)
}

/// No word that may fill a slot holds the character `c`: no noun, no
/// adjective, no title and no place.
pub open spec fn no_slot_word_holds(bank: Bank, c: char) -> bool {
    &&& list_lacks(bank.nouns, c)
    &&& list_lacks(bank.adjectives, c)
    &&& list_lacks(bank.titles, c)
    &&& list_lacks(bank.places, c)
}

/// What is left to resolve: the text from the first `{` on.
pub open spec fn unresolved_len(t: Seq<char>) -> int {
    t.len() - first_index(t, '{')
}

/// A name that a slot may hold is not empty, holds no brace, and is the name
/// of the category that it asks for.
pub proof fn lemma_slot_names()
    ensures
        forall|name: Seq<char>| #[trigger]
            slot_category(name) is Some ==> name.len() > 0 && !name.contains('{')
                && !name.contains('}') && slot_name(slot_category(name)->0) == name,
{
    reveal_strlit("noun");
    reveal_strlit("adjective");
    reveal_strlit("title");
    reveal_strlit("place");
}

/// Filling the next slot puts the word where the template's first `{...}`
/// stood, and leaves less to resolve if the word holds no `{`.
pub proof fn lemma_fill_next(t: Seq<char>, category: Category, word: Seq<char>)
    requires
        next_category(t) == Some(category),
    ensures
        first_index(t, '{') < first_index(t, '}') < t.len(),
        t.subrange(first_index(t, '{') + 1, first_index(t, '}')) == slot_name(category),
        filled(t, category, word) == t.subrange(0, first_index(t, '{')) + word + t.subrange(
            first_index(t, '}') + 1,
            t.len() as int,
        ),
        !word.contains('{') ==> unresolved_len(filled(t, category, word)) < unresolved_len(t),
{
    lemma_slot_names();
    let open = first_index(t, '{');
    let close = first_index(t, '}');
    let name = next_slot(t)->0;
    lemma_first_index_present(t, '}');
    let token = slot_token(name);
    assert(t.subrange(open, close + 1) =~= token);
    assert forall|k: int| 0 <= k < open implies !occurs_at(t, token, k) by {
        if occurs_at(t, token, k) {
            assert(t.subrange(k, k + token.len())[0] == token[0]);
        }
    }
    lemma_find_first_unique(t, token, open);
}

/// A sentence template: text with `{category}` slots.
#[derive(Debug)]
pub struct Sentence {
    inner: String,
}

impl View for Sentence {
    type V = Seq<char>;

    closed spec fn view(&self) -> Seq<char> {
        self.inner@
    }
}

impl Clone for Sentence {
    fn clone(&self) -> (copy: Self)
        ensures
            copy@ == self@,
    {
        Sentence { inner: self.inner.clone() }
    }
}

impl Sentence {
    /// Create new sentence
    pub fn new(inner: String) -> (sentence: Self)
        ensures
            sentence@ == inner@,
    {
        Sentence { inner }
    }

    /// Puts a string into a slot in the sentence: the first `{slot}` that
    /// stands in it is replaced by `inner`. A sentence without `{slot}` stays
    /// as it is.
    ///
    /// Example sentence: {adjective} {noun}
    /// replace_slot("adjective", "nice") will put "nice" into the first adjective slot
    pub fn replace_slot(&mut self, slot: &str, inner: String)
        ensures
            final(self)@ == replace_first(old(self)@, slot_token(slot@), inner@),
    {
        let mut slot_formatted = String::from_str("{");
        slot_formatted.append(slot);
        slot_formatted.append("}");
        proof {
            reveal_strlit("{");
            reveal_strlit("}");
            assert(slot_formatted@ =~= slot_token(slot@));
        }
        let hay = chars_of(self.inner.as_str());
        let needle = chars_of(slot_formatted.as_str());
        let size = hay.len();
        let width = needle.len();
        match find_text(&hay, &needle) {
            None => {},
            Some(at) => {
                let text = self.inner.as_str();
                let mut out = String::from_str(text.substring_char(0, at));
                out.append(inner.as_str());
                out.append(text.substring_char(at + width, size));
                self.inner = out;
            },
        }
    }

    /// The sentence as it stands now.
    pub fn get_modified(&self) -> (text: String)
        ensures
            text@ == self@,
    {
        self.inner.clone()
    }

    /// Returns the next slot in the modified sentence
    pub fn get_next_slot(&self) -> (slot: Option<String>)
        ensures
            match slot {
                Some(name) => next_slot(self@) == Some(name@),
                None => next_slot(self@) is None,
            },
    {
        let text = self.inner.as_str();
        let chars = chars_of(text);
        let open_indx = find_char(&chars, '{');
        let close_indx = find_char(&chars, '}');
        match (open_indx, close_indx) {
            (Some(open), Some(close)) => {
                if open < close {
                    Some(String::from_str(text.substring_char(open + 1, close)))
                } else {
                    Some(String::new())
                }
            },
            _ => None,
        }
    }

    /// The category that the next slot asks for, if the sentence has a next
    /// slot and its name is known.
    pub fn next_category(&self) -> (category: Option<Category>)
        ensures
            category == next_category(self@),
    {
        match self.get_next_slot() {
            Some(val) => recognise(val.as_str()),
            None => None,
        }
    }

    /// One step of resolution with the draw `draw`, as [`step`] says: `true`
    /// where the next slot was filled, `false` where resolution is over. On
    /// `false` and on a failure the sentence stays as it is.
    ///
    /// The slot that is filled is the leftmost: the word stands where the
    /// sentence's first `{` and all up to its first `}` stood.
    pub fn resolve_step(&mut self, bank: &WordBank, draw: usize) -> (r: Result<bool, GenError>)
        ensures
            match step(old(self)@, bank@, draw) {
                Ok(Some(next)) => r == Ok::<bool, GenError>(true) && final(self)@ == next,
                Ok(None) => r == Ok::<bool, GenError>(false) && final(self)@ == old(self)@,
                Err(e) => r == Err::<bool, GenError>(e) && final(self)@ == old(self)@,
            },
            r == Ok::<bool, GenError>(true) ==> final(self)@ == old(self)@.subrange(
                0,
                first_index(old(self)@, '{'),
            ) + picked(bank@.words(next_category(old(self)@)->0), draw) + old(self)@.subrange(
                first_index(old(self)@, '}') + 1,
                old(self)@.len() as int,
            ),
    {
        proof {
            if next_category(self@) is Some {
                let category = next_category(self@)->0;
                lemma_fill_next(self@, category, picked(bank@.words(category), draw));
            }
        }
        match self.next_category() {
            None => Ok(false),
            Some(category) => match bank.pick_at(category, draw) {
                Err(e) => Err(e),
                Ok(word) => {
                    self.replace_slot(category_name(category), word.clone());
                    Ok(true)
                },
            },
        }
    }
}

/// The category that a slot's name asks for, if the name is known.
pub fn recognise(name: &str) -> (category: Option<Category>)
    ensures
        category == slot_category(name@),
{
    if same_text(name, "noun") {
        Some(Category::Noun)
    } else if same_text(name, "adjective") {
        Some(Category::Adjective)
    } else if same_text(name, "title") {
        Some(Category::Title)
    } else if same_text(name, "place") {
        Some(Category::Place)
    } else {
        None
    }
}

/// The name by which a slot asks for a word of `category`.
pub fn category_name(category: Category) -> (name: &'static str)
    ensures
        name@ == slot_name(category),
{
    match category {
        Category::Noun => "noun",
        Category::Adjective => "adjective",
        Category::Title => "title",
        Category::Place => "place",
        Category::Suffix => "suffix",
    }
}

/// Whether no word of the list holds the character `c`.
fn words_lack(words: &Vec<String>, c: char) -> (r: bool)
    ensures
        r == list_lacks(words_view(words@), c),
{
    let mut i: usize = 0;
    while i < words.len()
        invariant
            i <= words@.len(),
            forall|k: int| 0 <= k < i ==> !(#[trigger] words_view(words@)[k]).contains(c),
        decreases words@.len() - i,
    {
        let chars = chars_of(words[i].as_str());
        if find_char(&chars, c).is_some() {
            return false;
        }
        assert(words_view(words@)[i as int] == words@[i as int]@);
        i = i + 1;
    }
    true
}

/// Whether no word that may fill a slot holds the character `c`.
pub fn slot_words_lack(bank: &WordBank, c: char) -> (r: bool)
    ensures
        r == no_slot_word_holds(bank@, c),
{
    words_lack(bank.load(Category::Noun), c) && words_lack(bank.load(Category::Adjective), c)
        && words_lack(bank.load(Category::Title), c) && words_lack(bank.load(Category::Place), c)
}

/// Resolves a sentence against a word bank: as long as the next slot names
/// a category, a word of that category is selected at random and put in the
/// slot's place. The result is the text at which resolution stops, with
/// whatever braces are left in it, or `EmptyCategory` where a slot asks for a
/// word of a category that holds none: what [`resolved`] gives for the draws
/// that were made.
///
/// A word with `{` in it could open a new slot each time it is put in, and
/// resolution might never end. So the words that may fill a slot must hold
/// no `{`; [`slot_words_lack`] tests that.
pub fn generate_dynamic_sentence(sentence: Sentence, bank: &WordBank) -> (r: Result<
    String,
    GenError,
>)
    requires
        no_slot_word_holds(bank@, '{'),
    ensures
        exists|draws: Seq<usize>| resolved(sentence@, bank@, draws) == Some(text_of(r)),
        next_category(sentence@) is None ==> text_of(r) == Ok::<Seq<char>, GenError>(sentence@),
        well_formed(sentence@) && no_slot_word_holds(bank@, '}') ==> (r matches Ok(text)
            ==> plain(text@)),
        well_formed(sentence@) && no_slot_word_holds(bank@, '}') && slot_words_present(bank@)
            ==> r is Ok,
{
    let mut working = sentence;
    let ghost start = sentence@;
    let ghost mut used: Seq<usize> = Seq::empty();
    assert forall|rest: Seq<usize>|
        #[trigger] resolved(start, bank@, used + rest) == resolved(working@, bank@, rest) by {
        assert(used + rest =~= rest);
    }
    loop
        invariant
            start == sentence@,
            no_slot_word_holds(bank@, '{'),
            forall|rest: Seq<usize>|
                #[trigger] resolved(start, bank@, used + rest) == resolved(working@, bank@, rest),
        decreases unresolved_len(working@),
    {
        let ghost before = working@;
        let ghost none = Seq::<usize>::empty();
        proof {
            assert(resolved(start, bank@, used + none) == resolved(before, bank@, none));
            if well_formed(start) && no_slot_word_holds(bank@, '}') {
                lemma_well_formed_resolves(start, bank@, used);
            }
        }
        match working.next_category() {
            None => {
                return Ok(working.get_modified());
            },
            Some(category) => {
                let draw = random_usize();
                match bank.pick_at(category, draw) {
                    Err(e) => {
                        return Err(e);
                    },
                    Ok(word) => {
                        working.replace_slot(category_name(category), word.clone());
                        proof {
                            lemma_fill_next(before, category, word@);
                            assert forall|rest: Seq<usize>|
                                #[trigger] resolved(start, bank@, used.push(draw) + rest)
                                    == resolved(working@, bank@, rest) by {
                                let longer = seq![draw] + rest;
                                assert(used.push(draw) + rest =~= used + longer);
                                assert(longer.drop_first() =~= rest);
                            }
                            used = used.push(draw);
                        }
                    },
                }
            },
        }
    }
}

/// Resolves a sentence against any word bank: [`generate_dynamic_sentence`]
/// where no word that may fill a slot holds `{`, and `None`, with nothing
/// resolved, where one does.
pub fn generate_sentence(sentence: Sentence, bank: &WordBank) -> (r: Option<
    Result<String, GenError>,
>)
    ensures
        r is Some <==> no_slot_word_holds(bank@, '{'),
        r matches Some(out) ==> {
            &&& exists|draws: Seq<usize>| resolved(sentence@, bank@, draws) == Some(text_of(out))
            &&& next_category(sentence@) is None ==> text_of(out) == Ok::<Seq<char>, GenError>(
                sentence@,
            )
            &&& well_formed(sentence@) && no_slot_word_holds(bank@, '}') ==> (out matches Ok(text)
                ==> plain(text@))
            &&& well_formed(sentence@) && no_slot_word_holds(bank@, '}') && slot_words_present(
                bank@,
            ) ==> out is Ok
        },
{
    if slot_words_lack(bank, '{') {
        Some(generate_dynamic_sentence(sentence, bank))
    } else {
        None
    }
}

/// One sentence for each line, in the order of the lines.
pub fn sentences_from_lines(lines: Vec<String>) -> (sentences: Vec<Sentence>)
    ensures
        sentences@.len() == lines@.len(),
        forall|i: int| 0 <= i < lines@.len() ==> (#[trigger] sentences@[i])@ == lines@[i]@,
{
    let mut sentences: Vec<Sentence> = Vec::new();
    let mut i: usize = 0;
    while i < lines.len()
        invariant
            i <= lines@.len(),
            sentences@.len() == i,
            forall|k: int| 0 <= k < i ==> (#[trigger] sentences@[k])@ == lines@[k]@,
        decreases lines@.len() - i,
    {
        let sentence = Sentence::new(lines[i].clone());
        sentences.push(sentence);
        i = i + 1;
    }
    sentences
}

} // verus!
