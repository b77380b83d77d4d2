//! The title composer: a compound title put together clause by clause.
//!
//! A title is an optional adjective, a noun, and one of four endings. Which
//! clauses are optional, and how often they are taken, is a [`TitlePolicy`].
//! All that is random is gathered in a [`TitleDraws`], so that the text of a
//! title is a function: [`title_text`].

use crate::builder::{builder_append, builder_bytes, builder_default, builder_string};
use crate::random::{random_u32, random_u8, random_usize};
use crate::text::lemma_encode_concat;
use crate::words::{pick_at, picked, text_of, words_view, Bank, Category, GenError, WordBank};
use string_builder::Builder;
use vstd::prelude::*;
use vstd::string::*;
use vstd::utf8::*;

verus! {

/// Whether an optional clause goes into a title.
#[derive(Clone, Copy, Debug, PartialEq, Eq, Structural)]
pub enum PreBuiltChoice {
    /// The clause is always taken.
    AlwaysChoose,
    /// The clause is never taken.
    NeverChoose,
    /// The clause is taken where a draw from the whole range of `u32` falls
    /// below this bound: with probability bound / 2^32.
    ChanceChoose(u32),
}

impl PreBuiltChoice {
    /// Whether the clause is taken when the draw for it comes out as
    /// `chance`.
    pub open spec fn includes(self, chance: u32) -> bool {
        match self {
            PreBuiltChoice::AlwaysChoose => true,
            PreBuiltChoice::NeverChoose => false,
            PreBuiltChoice::ChanceChoose(bound) => chance < bound,
        }
    }

    /// Decides on a clause, given the draw for it.
    pub fn decide(&self, chance: u32) -> (taken: bool)
        ensures
            taken == self.includes(chance),
    {
        match self {
            PreBuiltChoice::AlwaysChoose => true,
            PreBuiltChoice::NeverChoose => false,
            PreBuiltChoice::ChanceChoose(bound) => chance < *bound,
        }
    }
}

/// The four endings of a title.
#[derive(Clone, Copy, Debug, PartialEq, Eq, Structural)]
pub enum Branch {
    /// `of the <noun>`
    OfTheNoun,
    /// `of <place>`
    OfPlace,
    /// `of <suffix>`
    OfSuffix,
    /// `, "The <noun>"`
    Epithet,
}

/// The ending that a draw selects: the four endings in turn, so that over
/// the 256 values of a byte each is selected 64 times.
pub open spec fn branch_of(draw: u8) -> Branch {
    if draw % 4 == 0 {
        Branch::OfTheNoun
    } else if draw % 4 == 1 {
        Branch::OfPlace
    } else if draw % 4 == 2 {
        Branch::OfSuffix
    } else {
        Branch::Epithet
    }
}

/// Each ending is selected by every fourth byte, and so by 64 of the 256
/// values of a byte: a byte drawn evenly selects the four endings evenly.
pub proof fn lemma_branches_evenly_spread(q: u8)
    requires
        q < 64,
    ensures
        branch_of((4 * q) as u8) == Branch::OfTheNoun,
        branch_of((4 * q + 1) as u8) == Branch::OfPlace,
        branch_of((4 * q + 2) as u8) == Branch::OfSuffix,
        branch_of((4 * q + 3) as u8) == Branch::Epithet,
{
}

/// Computes [`branch_of`].
pub fn select_branch(draw: u8) -> (branch: Branch)
    ensures
        branch == branch_of(draw),
{
    let k = draw % 4;
    if k == 0 {
        Branch::OfTheNoun
    } else if k == 1 {
        Branch::OfPlace
    } else if k == 2 {
        Branch::OfSuffix
    } else {
        Branch::Epithet
    }
}

/// The policies of the two optional clauses of a title. The noun and the
/// ending are always there.
#[derive(Clone, Copy, Debug)]
pub struct TitlePolicy {
    /// The adjective before the noun.
    pub prefix: PreBuiltChoice,
    /// The title behind the noun, in the three endings that begin with `of`.
    pub title: PreBuiltChoice,
}

impl TitlePolicy {
    /// The policy that takes every clause.
    pub fn canonical() -> (policy: TitlePolicy)
        ensures
            policy.prefix == PreBuiltChoice::AlwaysChoose,
            policy.title == PreBuiltChoice::AlwaysChoose,
    {
        TitlePolicy { prefix: PreBuiltChoice::AlwaysChoose, title: PreBuiltChoice::AlwaysChoose }
    }
}

/// All the random draws that one title may use.
#[derive(Clone, Copy, Debug)]
pub struct TitleDraws {
    /// Decides on the adjective.
    pub prefix_chance: u32,
    /// Selects the adjective.
    pub adjective: usize,
    /// Selects the noun.
    pub noun: usize,
    /// Selects the ending.
    pub branch: u8,
    /// Decides on the title.
    pub title_chance: u32,
    /// Selects the title.
    pub title: usize,
    /// Selects the word of the ending.
    pub suffix: usize,
}

impl TitleDraws {
    /// Seven fresh draws from the random source. Any seven values may come
    /// back.
    pub fn random() -> TitleDraws {
        TitleDraws {
            prefix_chance: random_u32(),
            adjective: random_usize(),
            noun: random_usize(),
            branch: random_u8(),
            title_chance: random_u32(),
            title: random_usize(),
            suffix: random_usize(),
        }
    }
}

/// The text of one clause: nothing where the clause is not taken, else a
/// word of `words` between `lead` and `trail`. A clause that is taken fails
/// where `words` is empty.
pub open spec fn clause(
    choice: PreBuiltChoice,
    chance: u32,
    words: Seq<Seq<char>>,
    draw: usize,
    lead: Seq<char>,
    trail: Seq<char>,
) -> Result<Seq<char>, GenError> {
    if !choice.includes(chance) {
        Ok(Seq::empty())
    } else if words.len() == 0 {
        Err(GenError::EmptyCategory)
    } else {
        Ok(lead + picked(words, draw) + trail)
    }
}

/// One text behind the other; the first failure wins.
pub open spec fn join(
    first: Result<Seq<char>, GenError>,
    second: Result<Seq<char>, GenError>,
) -> Result<Seq<char>, GenError> {
    match first {
        Err(e) => Err(e),
        Ok(a) => match second {
            Err(e) => Err(e),
            Ok(b) => Ok(a + b),
        },
    }
}

/// The adjective clause: `<adjective> `.
pub open spec fn prefix_clause(bank: Bank, policy: TitlePolicy, d: TitleDraws) -> Result<
    Seq<char>,
    GenError,
> {
    clause(policy.prefix, d.prefix_chance, bank.adjectives, d.adjective, ""@, " "@)
}

/// The noun clause: `<noun>`, with nothing behind it.
pub open spec fn noun_clause(bank: Bank, d: TitleDraws) -> Result<Seq<char>, GenError> {
    clause(PreBuiltChoice::AlwaysChoose, 0, bank.nouns, d.noun, ""@, ""@)
}

/// The title clause: `, <title>`.
pub open spec fn title_clause(bank: Bank, policy: TitlePolicy, d: TitleDraws) -> Result<
    Seq<char>,
    GenError,
> {
    clause(policy.title, d.title_chance, bank.titles, d.title, ", "@, ""@)
}

/// The ending of a title, from the branch that the draw selects.
pub open spec fn ending(bank: Bank, policy: TitlePolicy, d: TitleDraws) -> Result<
    Seq<char>,
    GenError,
> {
    match branch_of(d.branch) {
        Branch::OfTheNoun => join(
            title_clause(bank, policy, d),
            clause(PreBuiltChoice::AlwaysChoose, 0, bank.nouns, d.suffix, " of the "@, ""@),
        ),
        Branch::OfPlace => join(
            title_clause(bank, policy, d),
            clause(PreBuiltChoice::AlwaysChoose, 0, bank.places, d.suffix, " of "@, ""@),
        ),
        Branch::OfSuffix => join(
            title_clause(bank, policy, d),
            clause(PreBuiltChoice::AlwaysChoose, 0, bank.suffixes, d.suffix, " of "@, ""@),
        ),
        Branch::Epithet => join(
            Ok(", "@),
            clause(PreBuiltChoice::AlwaysChoose, 0, bank.nouns, d.suffix, "\"The "@, "\""@),
        ),
    }
}

/// What stands before the ending: the adjective clause and the noun.
pub open spec fn heading(bank: Bank, policy: TitlePolicy, d: TitleDraws) -> Result<
    Seq<char>,
    GenError,
> {
    join(prefix_clause(bank, policy, d), noun_clause(bank, d))
}

/// The title that a bank, a policy and the draws determine: the adjective
/// clause, the noun, the ending.
pub open spec fn title_text(bank: Bank, policy: TitlePolicy, d: TitleDraws) -> Result<
    Seq<char>,
    GenError,
> {
    join(heading(bank, policy, d), ending(bank, policy, d))
}

/// The text that opens the last clause of each ending.
pub open spec fn connector(branch: Branch) -> Seq<char> {
    match branch {
        Branch::OfTheNoun => " of the "@,
        Branch::OfPlace => " of "@,
        Branch::OfSuffix => " of "@,
        Branch::Epithet => ", \"The "@,
    }
}

/// The list from which each ending takes its word.
pub open spec fn ending_words(bank: Bank, branch: Branch) -> Seq<Seq<char>> {
    match branch {
        Branch::OfTheNoun => bank.nouns,
        Branch::OfPlace => bank.places,
        Branch::OfSuffix => bank.suffixes,
        Branch::Epithet => bank.nouns,
    }
}

/// With the epithet ending, a title is its heading and then `, "The <noun>"`:
/// no title is put in and no `of`. Whatever the titles, their policy and
/// their draws are, the outcome is the same. It fails only where the heading
/// fails: for want of a noun or, where the adjective is taken, of an
/// adjective.
pub proof fn lemma_epithet_title(bank: Bank, policy: TitlePolicy, d: TitleDraws)
    requires
        branch_of(d.branch) == Branch::Epithet,
    ensures
        title_text(bank, policy, d) == join(
            heading(bank, policy, d),
            Ok(
                connector(Branch::Epithet) + picked(ending_words(bank, Branch::Epithet), d.suffix)
                    + "\""@,
            ),
        ),
        connector(Branch::Epithet) == seq![',', ' ', '"', 'T', 'h', 'e', ' '],
        forall|titles: Seq<Seq<char>>, choice: PreBuiltChoice, chance: u32, draw: usize|
            #![auto]
            title_text(
                Bank { titles, ..bank },
                TitlePolicy { title: choice, ..policy },
                TitleDraws { title_chance: chance, title: draw, ..d },
            ) == title_text(bank, policy, d),
{
    reveal_strlit(", \"The ");
    reveal_strlit(", ");
    reveal_strlit("\"The ");
    if bank.nouns.len() > 0 {
        let noun = picked(bank.nouns, d.suffix);
        assert(", "@ + ("\"The "@ + noun + "\""@) =~= ", \"The "@ + noun + "\""@);
    }
}

/// With one of the three endings that begin with `of`, a title is its
/// heading, the title clause if it is taken, the connector of the ending
/// (` of the ` before a noun, ` of ` before a place or a suffix) and one word
/// of the ending's list.
pub proof fn lemma_of_title(bank: Bank, policy: TitlePolicy, d: TitleDraws)
    requires
        branch_of(d.branch) != Branch::Epithet,
    ensures
        title_text(bank, policy, d) matches Ok(text) ==> {
            &&& heading(bank, policy, d) is Ok
            &&& title_clause(bank, policy, d) is Ok
            &&& ending_words(bank, branch_of(d.branch)).len() > 0
            &&& text == heading(bank, policy, d)->Ok_0 + title_clause(bank, policy, d)->Ok_0
                + connector(branch_of(d.branch)) + picked(
                ending_words(bank, branch_of(d.branch)),
                d.suffix,
            )
        },
        title_text(bank, policy, d) is Err <==> heading(bank, policy, d) is Err || title_clause(
            bank,
            policy,
            d,
        ) is Err || ending_words(bank, branch_of(d.branch)).len() == 0,
{
    reveal_strlit("");
}

/// Appends a text to the working string.
fn append_text(working_string: &mut Builder, text: &str)
    ensures
        builder_bytes(*final(working_string)) == builder_bytes(*old(working_string)) + encode_utf8(
            text@,
        ),
{
    builder_append(working_string, text.as_bytes());
}

/// Appends one clause to the working string, if the choice takes it: `lead`,
/// the word that `draw` selects from `strings`, `trail`. Where the clause is
/// taken and `strings` is empty, nothing is appended.
fn check_choice(
    pbc: &PreBuiltChoice,
    working_string: &mut Builder,
    strings: &Vec<String>,
    lead: &str,
    trail: &str,
    chance: u32,
    draw: usize,
) -> (r: Result<(), GenError>)
    ensures
        match clause(*pbc, chance, words_view(strings@), draw, lead@, trail@) {
            Ok(text) => r is Ok && builder_bytes(*final(working_string)) == builder_bytes(
                *old(working_string),
            ) + encode_utf8(text),
            Err(e) => r == Err::<(), GenError>(e) && builder_bytes(*final(working_string))
                == builder_bytes(*old(working_string)),
        },
{
    if !pbc.decide(chance) {
        return Ok(());
    }
    match pick_at(strings.as_slice(), draw) {
        Err(e) => Err(e),
        Ok(word) => {
            append_text(working_string, lead);
            append_text(working_string, word.as_str());
            append_text(working_string, trail);
            proof {
                lemma_encode_concat(lead@, word@);
                lemma_encode_concat(lead@ + word@, trail@);
            }
            Ok(())
        },
    }
}

/// Appends the title clause to the working name: `, <title>`.
fn do_title(
    choice: &PreBuiltChoice,
    titles_ref: &Vec<String>,
    working_name: &mut Builder,
    chance: u32,
    draw: usize,
) -> (r: Result<(), GenError>)
    ensures
        match clause(*choice, chance, words_view(titles_ref@), draw, ", "@, ""@) {
            Ok(text) => r is Ok && builder_bytes(*final(working_name)) == builder_bytes(
                *old(working_name),
            ) + encode_utf8(text),
            Err(e) => r == Err::<(), GenError>(e) && builder_bytes(*final(working_name))
                == builder_bytes(*old(working_name)),
        },
{
    check_choice(choice, working_name, titles_ref, ", ", "", chance, draw)
}

/// The working name holds `text` and takes `more` behind it.
proof fn lemma_appended(before: Seq<u8>, text: Seq<char>, more: Seq<char>)
    requires
        before == encode_utf8(text),
    ensures
        before + encode_utf8(more) == encode_utf8(text + more),
{
    lemma_encode_concat(text, more);
}

/// The title that `draws` determine: the adjective clause, the noun, and the
/// ending that `draws.branch` selects, as [`title_text`] says. It fails with
/// `EmptyCategory` exactly where a clause that is taken finds its list
/// empty.
///
/// With the epithet ending the title is its heading and `, "The <noun>"`,
/// with neither a title nor an `of`. With each other ending it is its
/// heading, the title clause if that is taken, the ending's connector and
/// one word of the ending's list.
pub fn compose_title(bank: &WordBank, policy: &TitlePolicy, draws: &TitleDraws) -> (r: Result<
    String,
    GenError,
>)
    ensures
        text_of(r) == title_text(bank@, *policy, *draws),
        branch_of(draws.branch) == Branch::Epithet ==> text_of(r) == join(
            heading(bank@, *policy, *draws),
            Ok(
                connector(Branch::Epithet) + picked(bank@.nouns, draws.suffix) + "\""@,
            ),
        ),
        branch_of(draws.branch) != Branch::Epithet ==> (r matches Ok(title) ==> title@ == heading(
            bank@,
            *policy,
            *draws,
        )->Ok_0 + title_clause(bank@, *policy, *draws)->Ok_0 + connector(branch_of(draws.branch))
            + picked(ending_words(bank@, branch_of(draws.branch)), draws.suffix)),
{
    proof {
        if branch_of(draws.branch) == Branch::Epithet {
            lemma_epithet_title(bank@, *policy, *draws);
        } else {
            lemma_of_title(bank@, *policy, *draws);
        }
    }
    let always = PreBuiltChoice::AlwaysChoose;
    let mut working_name = builder_default();
    let ghost start: Seq<char> = Seq::empty();

    // Append adjective
    let prefix = check_choice(
        &policy.prefix,
        &mut working_name,
        bank.load(Category::Adjective),
        "",
        " ",
        draws.prefix_chance,
        draws.adjective,
    );
    if let Err(e) = prefix {
        return Err(e);
    }
    let ghost head = start + prefix_clause(bank@, *policy, *draws)->Ok_0;

    // Append noun, with nothing behind it because of the comma
    let noun = check_choice(
        &always,
        &mut working_name,
        bank.load(Category::Noun),
        "",
        "",
        0,
        draws.noun,
    );
    if let Err(e) = noun {
        return Err(e);
    }
    let ghost body = head + noun_clause(bank@, *draws)->Ok_0;
    proof {
        lemma_appended(encode_utf8(head), head, noun_clause(bank@, *draws)->Ok_0);
    }
    let ghost tail: Seq<char>;

    // Append one of the four endings
    match select_branch(draws.branch) {
        Branch::OfTheNoun => {
            let title = do_title(
                &policy.title,
                bank.load(Category::Title),
                &mut working_name,
                draws.title_chance,
                draws.title,
            );
            if let Err(e) = title {
                return Err(e);
            }
            let suffix = check_choice(
                &always,
                &mut working_name,
                bank.load(Category::Noun),
                " of the ",
                "",
                0,
                draws.suffix,
            );
            if let Err(e) = suffix {
                return Err(e);
            }
            proof {
                let title = title_clause(bank@, *policy, *draws)->Ok_0;
                let word = " of the "@ + picked(bank@.nouns, draws.suffix) + ""@;
                tail = title + word;
                lemma_appended(encode_utf8(body), body, title);
                lemma_appended(encode_utf8(body + title), body + title, word);
                assert(body + title + word =~= body + tail);
            }
        },
        Branch::OfPlace => {
            let title = do_title(
                &policy.title,
                bank.load(Category::Title),
                &mut working_name,
                draws.title_chance,
                draws.title,
            );
            if let Err(e) = title {
                return Err(e);
            }
            let suffix = check_choice(
                &always,
                &mut working_name,
                bank.load(Category::Place),
                " of ",
                "",
                0,
                draws.suffix,
            );
            if let Err(e) = suffix {
                return Err(e);
            }
            proof {
                let title = title_clause(bank@, *policy, *draws)->Ok_0;
                let word = " of "@ + picked(bank@.places, draws.suffix) + ""@;
                tail = title + word;
                lemma_appended(encode_utf8(body), body, title);
                lemma_appended(encode_utf8(body + title), body + title, word);
                assert(body + title + word =~= body + tail);
            }
        },
        Branch::OfSuffix => {
            let title = do_title(
                &policy.title,
                bank.load(Category::Title),
                &mut working_name,
                draws.title_chance,
                draws.title,
            );
            if let Err(e) = title {
                return Err(e);
            }
            let suffix = check_choice(
                &always,
                &mut working_name,
                bank.load(Category::Suffix),
                " of ",
                "",
                0,
                draws.suffix,
            );
            if let Err(e) = suffix {
                return Err(e);
            }
            proof {
                let title = title_clause(bank@, *policy, *draws)->Ok_0;
                let word = " of "@ + picked(bank@.suffixes, draws.suffix) + ""@;
                tail = title + word;
                lemma_appended(encode_utf8(body), body, title);
                lemma_appended(encode_utf8(body + title), body + title, word);
                assert(body + title + word =~= body + tail);
            }
        },
        Branch::Epithet => {
            append_text(&mut working_name, ", ");
            let suffix = check_choice(
                &always,
                &mut working_name,
                bank.load(Category::Noun),
                "\"The ",
                "\"",
                0,
                draws.suffix,
            );
            if let Err(e) = suffix {
                return Err(e);
            }
            proof {
                let word = "\"The "@ + picked(bank@.nouns, draws.suffix) + "\""@;
                tail = ", "@ + word;
                lemma_appended(encode_utf8(body), body, ", "@);
                lemma_appended(encode_utf8(body + ", "@), body + ", "@, word);
                assert(body + ", "@ + word =~= body + tail);
            }
        },
    }

    proof {
        encode_utf8_valid_utf8(body + tail);
    }
    match builder_string(working_name) {
        Ok(title) => {
            proof {
                encode_utf8_decode_utf8(title@);
                encode_utf8_decode_utf8(body + tail);
            }
            Ok(title)
        },
        Err(_) => unreached(),
    }
}

/// A title under `policy`, with fresh draws from the random source: the
/// title that [`title_text`] gives for some draws.
pub fn generate_title_with(bank: &WordBank, policy: &TitlePolicy) -> (r: Result<String, GenError>)
    ensures
        exists|draws: TitleDraws| text_of(r) == title_text(bank@, *policy, draws),
{
    let draws = TitleDraws::random();
    compose_title(bank, policy, &draws)
}

/// A title with every clause taken, so that only the ending and the words
/// vary: the title that [`title_text`] gives for some draws.
pub fn generate_random_title(bank: &WordBank) -> (r: Result<String, GenError>)
    ensures
        exists|draws: TitleDraws|
            text_of(r) == title_text(
                bank@,
                TitlePolicy {
                    prefix: PreBuiltChoice::AlwaysChoose,
                    title: PreBuiltChoice::AlwaysChoose,
                },
                draws,
            ),
{
    let policy = TitlePolicy::canonical();
    generate_title_with(bank, &policy)
}

/// A colour of 24 bits.
#[derive(Clone, Copy, Debug, PartialEq, Eq, Structural)]
pub struct TrueColor {
    pub r: u8,
    pub g: u8,
    pub b: u8,
}

/// A colour whose three parts are fresh draws from the random source. Any
/// colour may come back.
pub fn generate_true_color() -> TrueColor {
    TrueColor { r: random_u8(), g: random_u8(), b: random_u8() }
}

} // verus!
