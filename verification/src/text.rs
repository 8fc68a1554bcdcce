//! Text handling shared by every component: case folding, comparison and the
//! command phrases players type.

use vstd::prelude::*;
use vstd::string::StringExecFns;

verus! {

/// The lowercase form of `text` as the standard library computes it
/// (`str::to_lowercase`, which follows the Unicode case mappings).
pub uninterp spec fn lowercase_of(text: Seq<char>) -> Seq<char>;

/// Calls `str::to_lowercase`. Trusted: the result is the standard library's
/// lowercase form of the argument, which this crate only names and never
/// spells out.
#[verifier::external_body]
pub(crate) fn to_lowercase(text: &str) -> (lowered: String)
    ensures
        lowered@ == lowercase_of(text@),
{
    text.to_lowercase()
}

/// Whether two texts hold the same characters.
pub fn text_eq(a: &str, b: &str) -> (same: bool)
    ensures
        same == (a@ == b@),
{
    let left = a.to_owned();
    let right = b.to_owned();
    left == right
}

/// `head` followed by `tail`.
pub fn join_text(head: &str, tail: &str) -> (joined: String)
    ensures
        joined@ == head@ + tail@,
{
    let mut joined = head.to_owned();
    joined.append(tail);
    joined
}

/// What a main player types to ask for a game.
pub open spec fn who_dis_phrase() -> Seq<char> {
    "who dis"@
}

/// What a player types to offer themselves as a stranger.
pub open spec fn stranger_join_phrase() -> Seq<char> {
    "stranger join"@
}

/// What a friend types to join the game called `game_id`.
pub open spec fn join_phrase(game_id: Seq<char>) -> Seq<char> {
    "join "@ + game_id
}

/// The main player's guess that the partner is a stranger.
pub open spec fn stranger_danger_phrase() -> Seq<char> {
    "stranger danger"@
}

/// The main player's guess that the partner is the friend.
pub open spec fn buddy_buddy_phrase() -> Seq<char> {
    "buddy buddy"@
}

/// What either participant types to abandon a game.
pub open spec fn game_over_phrase() -> Seq<char> {
    "game over"@
}

/// The three phrases a session reacts to while a game is in progress are
/// pairwise different, so a message is at most one of them.
pub proof fn lemma_play_phrases_differ()
    ensures
        stranger_danger_phrase() != buddy_buddy_phrase(),
        stranger_danger_phrase() != game_over_phrase(),
        buddy_buddy_phrase() != game_over_phrase(),
{
    reveal_strlit("stranger danger");
    reveal_strlit("buddy buddy");
    reveal_strlit("game over");
    assert("stranger danger"@.len() == 15);
    assert("buddy buddy"@.len() == 11);
    assert("game over"@.len() == 9);
}

} // verus!
