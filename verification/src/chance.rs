//! The two random choices of the game: the coin flip that picks the main
//! player's partner and the word a game is known by.

use vstd::prelude::*;

verus! {

/// Which of the two candidates the main player is paired with.
#[derive(Clone, Copy, Debug, PartialEq, Eq, Structural)]
pub enum CoinFlip {
    Stranger,
    Friend,
}

/// The side a random byte stands for: even is the stranger, odd the friend.
pub open spec fn flip_of(byte: u8) -> CoinFlip {
    if byte % 2 == 0 {
        CoinFlip::Stranger
    } else {
        CoinFlip::Friend
    }
}

/// Turns one random byte into a flip. Half of all bytes give each side, so a
/// uniform byte gives a fair coin.
pub fn coin_from_byte(byte: u8) -> (flip: CoinFlip)
    ensures
        flip == flip_of(byte),
{
    if byte % 2 == 0 {
        CoinFlip::Stranger
    } else {
        CoinFlip::Friend
    }
}

/// Calls `rand::random::<u8>()`, which draws a byte from the thread-local
/// generator. Trusted, and nothing is claimed of the byte. The generator
/// panics if the operating system offers no entropy at all when it is first
/// seeded.
#[verifier::external_body]
fn random_byte() -> (byte: u8) {
    rand::random::<u8>()
}

/// Flips the coin for one session.
pub fn coin_flip() -> (flip: CoinFlip)
    ensures
        exists|byte: u8| flip == flip_of(byte),
{
    let byte = random_byte();
    coin_from_byte(byte)
}

/// The words a game can be known by.
pub open spec fn game_words() -> Seq<Seq<char>> {
    seq![
        "spare"@,
        "poised"@,
        "measure"@,
        "impartial"@,
        "secretive"@,
        "baby"@,
        "scintillating"@,
        "light"@,
        "start"@,
        "dear"@,
        "vessel"@,
        "men"@,
        "tall"@,
        "reproduce"@,
        "tranquil"@,
        "alcoholic"@,
        "rinse"@,
        "airplane"@,
        "name"@,
        "harmony"@,
    ]
}

/// The texts of a list of words, in order.
pub open spec fn word_texts(words: Seq<&'static str>) -> Seq<Seq<char>> {
    words.map_values(|w: &'static str| w@)
}

/// The vocabulary game identifiers are drawn from.
pub fn vocabulary() -> (words: Vec<&'static str>)
    ensures
        word_texts(words@) == game_words(),
{
    let words = vec![
        "spare",
        "poised",
        "measure",
        "impartial",
        "secretive",
        "baby",
        "scintillating",
        "light",
        "start",
        "dear",
        "vessel",
        "men",
        "tall",
        "reproduce",
        "tranquil",
        "alcoholic",
        "rinse",
        "airplane",
        "name",
        "harmony",
    ];
    assert(word_texts(words@) =~= game_words());
    words
}

/// Whether `picked` can be the outcome of choosing from `words`: nothing from
/// an empty list, and otherwise one of the entries.
pub open spec fn is_choice_from(words: Seq<&'static str>, picked: Option<&'static str>) -> bool {
    if words.len() == 0 {
        picked is None
    } else {
        picked is Some && exists|i: int|
            0 <= i < words.len() && (#[trigger] words[i])@ == picked->0@
    }
}

/// Calls `rand::Rng::choose` on the thread-local generator
/// (`rand::thread_rng()`). Trusted: an empty list gives `None`, and any other
/// list gives one of its own entries. Which entry is left open. The generator
/// panics if the operating system offers no entropy at all when it is first
/// seeded.
#[verifier::external_body]
fn choose_word(words: &Vec<&'static str>) -> (picked: Option<&'static str>)
    ensures
        is_choice_from(words@, picked),
{
    rand::Rng::choose(&mut rand::thread_rng(), words.as_slice()).copied()
}

/// The identifier of a game that takes `pick` as the random choice: the word
/// itself, or nothing at all when no word was picked.
pub fn game_id_from(pick: Option<&'static str>) -> (game_id: String)
    ensures
        game_id@ == match pick {
            Some(word) => word@,
            None => Seq::<char>::empty(),
        },
{
    match pick {
        Some(word) => word.to_owned(),
        None => String::new(),
    }
}

/// Draws the identifier of a new game from the vocabulary. Two games that run
/// at the same time may draw the same word.
pub fn new_game_id() -> (game_id: String)
    ensures
        game_words().contains(game_id@),
{
    let words = vocabulary();
    assert(words@.len() == 20) by {
        assert(word_texts(words@).len() == game_words().len());
    }
    let pick = choose_word(&words);
    proof {
        let i = choose|i: int| 0 <= i < words@.len() && (#[trigger] words@[i])@ == pick->0@;
        assert(word_texts(words@)[i] == words@[i]@);
    }
    game_id_from(pick)
}

} // verus!
