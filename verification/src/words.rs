//! The word bank: five lists of words, one per category, and sampling from
//! them.

use crate::random::random_usize;
use vstd::prelude::*;

verus! {

/// The classes of words that a bank holds.
#[derive(Clone, Copy, Debug, PartialEq, Eq, Structural)]
pub enum Category {
    Noun,
    Adjective,
    Place,
    Suffix,
    Title,
}

/// Why a text could not be generated.
#[derive(Clone, Copy, Debug, PartialEq, Eq, Structural)]
pub enum GenError {
    /// A word was wanted from a category that holds none.
    EmptyCategory,
}

/// A generated text, or the failure, with the text as a character sequence.
pub open spec fn text_of(r: Result<String, GenError>) -> Result<Seq<char>, GenError> {
    match r {
        Ok(s) => Ok(s@),
        Err(e) => Err(e),
    }
}

/// A list of words as a sequence of character sequences.
pub open spec fn words_view(words: Seq<String>) -> Seq<Seq<char>> {
    Seq::new(words.len(), |i: int| words[i]@)
}

/// The mathematical content of a [`WordBank`].
pub ghost struct Bank {
    pub nouns: Seq<Seq<char>>,
    pub adjectives: Seq<Seq<char>>,
    pub places: Seq<Seq<char>>,
    pub suffixes: Seq<Seq<char>>,
    pub titles: Seq<Seq<char>>,
}

impl Bank {
    /// The list of one category, in the order in which it was given.
    pub open spec fn words(self, category: Category) -> Seq<Seq<char>> {
        match category {
            Category::Noun => self.nouns,
            Category::Adjective => self.adjectives,
            Category::Place => self.places,
            Category::Suffix => self.suffixes,
            Category::Title => self.titles,
        }
    }
}

/// The position that a draw selects in a list of `len` items.
pub open spec fn picked_index(len: nat, draw: usize) -> int {
    (draw as int) % (len as int)
}

/// The word that a draw selects from a non-empty list.
pub open spec fn picked(words: Seq<Seq<char>>, draw: usize) -> Seq<char> {
    words[picked_index(words.len(), draw)]
}

/// The item that `draw` selects: the one at `draw` modulo the length.
/// An empty list has nothing to select and gives `EmptyCategory`.
pub fn pick_at<T>(items: &[T], draw: usize) -> (r: Result<&T, GenError>)
    ensures
        items@.len() == 0 <==> r is Err,
        r is Err ==> r == Err::<&T, GenError>(GenError::EmptyCategory),
        r is Ok ==> *r->Ok_0 == items@[picked_index(items@.len(), draw)],
        r is Ok ==> 0 <= picked_index(items@.len(), draw) < items@.len(),
{
    let len = items.len();
    if len == 0 {
        Err(GenError::EmptyCategory)
    } else {
        Ok(&items[draw % len])
    }
}

/// Selects one item at random, each draw independent of the others. What
/// comes back is an item of the list; an empty list gives `EmptyCategory`.
pub fn pick_from<T>(items: &[T]) -> (r: Result<&T, GenError>)
    ensures
        items@.len() == 0 <==> r is Err,
        r is Err ==> r == Err::<&T, GenError>(GenError::EmptyCategory),
        r is Ok ==> exists|i: int| 0 <= i < items@.len() && items@[i] == *r->Ok_0,
        r is Ok ==> items@.contains(*r->Ok_0),
{
    if items.len() == 0 {
        return Err(GenError::EmptyCategory);
    }
    let draw = random_usize();
    pick_at(items, draw)
}

/// Five lists of words, fixed once made.
#[derive(Debug)]
pub struct WordBank {
    nouns: Vec<String>,
    adjectives: Vec<String>,
    places: Vec<String>,
    suffixes: Vec<String>,
    titles: Vec<String>,
}

impl View for WordBank {
    type V = Bank;

    closed spec fn view(&self) -> Bank {
        Bank {
            nouns: words_view(self.nouns@),
            adjectives: words_view(self.adjectives@),
            places: words_view(self.places@),
            suffixes: words_view(self.suffixes@),
            titles: words_view(self.titles@),
        }
    }
}

/// A copy of the list, word for word.
fn copy_words(words: &Vec<String>) -> (copy: Vec<String>)
    ensures
        words_view(copy@) == words_view(words@),
{
    let mut copy: Vec<String> = Vec::new();
    let mut i: usize = 0;
    while i < words.len()
        invariant
            i <= words@.len(),
            copy@.len() == i,
            forall|k: int| 0 <= k < i ==> copy@[k]@ == words@[k]@,
        decreases words@.len() - i,
    {
        copy.push(words[i].clone());
        i = i + 1;
    }
    copy
}

impl Clone for WordBank {
    fn clone(&self) -> (copy: Self)
        ensures
            copy@ == self@,
    {
        WordBank {
            nouns: copy_words(&self.nouns),
            adjectives: copy_words(&self.adjectives),
            places: copy_words(&self.places),
            suffixes: copy_words(&self.suffixes),
            titles: copy_words(&self.titles),
        }
    }
}

impl WordBank {
    /// A bank over the five lists, each kept in its order. A list may be
    /// empty: only sampling from it fails.
    pub fn new(
        nouns: Vec<String>,
        adjectives: Vec<String>,
        places: Vec<String>,
        suffixes: Vec<String>,
        titles: Vec<String>,
    ) -> (bank: WordBank)
        ensures
            bank@ == (Bank {
                nouns: words_view(nouns@),
                adjectives: words_view(adjectives@),
                places: words_view(places@),
                suffixes: words_view(suffixes@),
                titles: words_view(titles@),
            }),
    {
        WordBank { nouns, adjectives, places, suffixes, titles }
    }

    /// The words of one category, in the order in which they were given.
    pub fn load(&self, category: Category) -> (words: &Vec<String>)
        ensures
            words_view(words@) == self@.words(category),
    {
        match category {
            Category::Noun => &self.nouns,
            Category::Adjective => &self.adjectives,
            Category::Place => &self.places,
            Category::Suffix => &self.suffixes,
            Category::Title => &self.titles,
        }
    }

    /// The word of `category` that `draw` selects; `EmptyCategory` where the
    /// category holds no word.
    pub fn pick_at(&self, category: Category, draw: usize) -> (r: Result<&String, GenError>)
        ensures
            self@.words(category).len() == 0 <==> r is Err,
            r is Err ==> r == Err::<&String, GenError>(GenError::EmptyCategory),
            r is Ok ==> r->Ok_0@ == picked(self@.words(category), draw),
    {
        let words = self.load(category);
        pick_at(words.as_slice(), draw)
    }

    /// One word of `category`, selected at random with replacement. It is a
    /// member of the category's list; `EmptyCategory` where that list is
    /// empty.
    pub fn pick(&self, category: Category) -> (r: Result<&String, GenError>)
        ensures
            self@.words(category).len() == 0 <==> r is Err,
            r is Err ==> r == Err::<&String, GenError>(GenError::EmptyCategory),
            r is Ok ==> self@.words(category).contains(r->Ok_0@),
    {
        let words = self.load(category);
        let r = pick_from(words.as_slice());
        proof {
            if r is Ok {
                let i = choose|i: int| 0 <= i < words@.len() && words@[i] == *r->Ok_0;
                assert(words_view(words@)[i] == r->Ok_0@);
            }
        }
        r
    }
}

} // verus!
