//! One game, from the invitation of the friend to the verdict.
//!
//! A session is a state machine driven by the texts that reach its inbox. The
//! transition functions in this module take the present state, the busy set
//! and one inbound text, and say what the next state is, how the busy set
//! changes and which notices go out. Nothing here blocks or sends: the caller
//! feeds messages in and delivers the notices.

use crate::busy::{released, reserved, BusyPlayers};
use crate::chance::{coin_flip, CoinFlip};
use crate::message::{notice_views, Notice, NoticeView, Player, TxtMessage};
use crate::registry::ListenerRegistry;
use crate::text::{
    buddy_buddy_phrase, join_text, game_over_phrase, join_phrase, lemma_play_phrases_differ,
    lowercase_of, stranger_danger_phrase, text_eq, to_lowercase,
};
use vstd::prelude::*;

verus! {

/// Where a session stands.
#[derive(Clone, Copy, Debug, PartialEq, Eq, Structural)]
pub enum SessionState {
    /// The main player has the game code; the friend has not joined yet.
    WaitingForFriend,
    /// The friend has joined and the coin has not been flipped.
    Matched,
    /// The main player and the partner are talking.
    InProgress,
    /// The game is over. Nothing moves a session out of this state.
    Resolved,
}

/// What a [`GameSession`] is, as mathematical values.
pub struct SessionView {
    pub game_id: Seq<char>,
    pub main_player: Seq<char>,
    pub stranger: Seq<char>,
    pub friend: Option<Seq<char>>,
    pub flip: Option<CoinFlip>,
    pub state: SessionState,
    pub inbox: u64,
}

impl SessionView {
    /// The friend is known from `Matched` on and the flip from `InProgress` on.
    pub open spec fn wf(self) -> bool {
        &&& self.state == SessionState::Matched ==> self.friend is Some
        &&& self.state == SessionState::InProgress || self.state == SessionState::Resolved
            ==> self.friend is Some && self.flip is Some
    }

    /// The candidate the main player talks to: the friend if the coin chose
    /// the friend, the stranger otherwise.
    pub open spec fn partner(self) -> Seq<char> {
        if self.flip == Some(CoinFlip::Friend) && self.friend is Some {
            self.friend->0
        } else {
            self.stranger
        }
    }

    /// This session once the game has ended.
    pub open spec fn resolved(self) -> SessionView {
        SessionView { state: SessionState::Resolved, ..self }
    }
}

/// The outcome of one transition: the session and the busy set afterwards, and
/// the notices to deliver, in order.
pub struct Step {
    pub session: SessionView,
    pub busy: Set<Seq<char>>,
    pub notices: Seq<NoticeView>,
}

/// The transition that changes nothing and says nothing.
pub open spec fn stay(session: SessionView, busy: Set<Seq<char>>) -> Step {
    Step { session, busy, notices: Seq::empty() }
}

/// A notice to `to` with the text `body`.
pub open spec fn notice(to: Seq<char>, body: Seq<char>) -> NoticeView {
    NoticeView { to, body }
}

/// What the main player is told when a session opens: the game code, and the
/// phrase a friend joins with.
pub open spec fn opening_notices(game_id: Seq<char>, main_player: Seq<char>) -> Seq<NoticeView> {
    seq![
        notice(main_player, "This is your game code: "@ + game_id),
        notice(main_player, "Have a friend join by texting: "@ + join_phrase(game_id)),
    ]
}

/// The welcome for the friend, and the announcement of the friend to the main
/// player together with the two phrases a guess is made with.
pub open spec fn welcome_notices(main_player: Seq<char>, friend: Seq<char>) -> Seq<NoticeView> {
    seq![
        notice(friend, "[ref] Welcome friend!"@),
        notice(
            main_player,
            "[ref] Your friend at "@ + friend
                + " has joined!\nRemember type: \"stranger danger\" if you think this is a stranger\nand type: \"buddy buddy\" if this is your friend.\nStart Chatting!"@,
        ),
    ]
}

/// What both sides are told once the partner is chosen, the main player
/// first: that they are matched, and how the main player wins.
pub open spec fn matched_notices(main_player: Seq<char>, partner: Seq<char>) -> Seq<NoticeView> {
    seq![
        notice(main_player, "[Ref]: We've matched you up and you're ready to go!"@),
        notice(
            main_player,
            "[Ref]: You win if you guess if you're talking to a friend or a stranger correctly!"@,
        ),
        notice(partner, "[Ref]: We've matched you up and you're ready to go!"@),
    ]
}

/// The brief for a friend who plays: pass for a stranger.
pub open spec fn friend_brief(friend: Seq<char>) -> Seq<NoticeView> {
    seq![
        notice(friend, "[Ref]: The game has started!"@),
        notice(
            friend,
            "[Ref]: You win this game if you convince your friend that you are a stranger!\nGame On!!"@,
        ),
    ]
}

/// What a friend is told who does not get to play.
pub open spec fn bumped_notices(friend: Seq<char>) -> Seq<NoticeView> {
    seq![
        notice(friend, "[Ref]: We've matched your friend up to a stranger. Don't spoil it!"@),
        notice(
            friend,
            "[Ref]: You are out of this game now, but you can join or start another game"@,
        ),
    ]
}

/// The brief for a stranger who plays: pass for the friend.
pub open spec fn stranger_brief(stranger: Seq<char>) -> Seq<NoticeView> {
    seq![
        notice(stranger, "[Ref]: The game has started!"@),
        notice(
            stranger,
            "[Ref]: You win this game if you convince the other person you are their friend\nGame On!!"@,
        ),
    ]
}

/// What a main player reads who guessed right.
pub open spec fn main_wins_text() -> Seq<char> {
    "[Ref here]: you got it! You win! \\o/"@
}

/// What a partner reads who was found out.
pub open spec fn partner_loses_text() -> Seq<char> {
    "[Ref here]: They guessed right, you've lost! :("@
}

/// What a main player reads who guessed wrong.
pub open spec fn main_loses_text() -> Seq<char> {
    "[Ref here]: sorry dude, you got it wrong! You Lose! :("@
}

/// What a partner reads who fooled the main player.
pub open spec fn partner_wins_text() -> Seq<char> {
    "[Ref here]: Nice work, you fooled them! :)"@
}

/// What both sides read when a game is abandoned.
pub open spec fn game_over_text() -> Seq<char> {
    "[Ref here]: Game over"@
}

/// The verdict after a right guess: the main player wins, the partner loses.
pub open spec fn win_notices(main_player: Seq<char>, partner: Seq<char>) -> Seq<NoticeView> {
    seq![notice(main_player, main_wins_text()), notice(partner, partner_loses_text())]
}

/// The verdict after a wrong guess: the main player loses, the partner wins.
pub open spec fn loss_notices(main_player: Seq<char>, partner: Seq<char>) -> Seq<NoticeView> {
    seq![notice(main_player, main_loses_text()), notice(partner, partner_wins_text())]
}

/// The neutral ending: nobody wins and nobody loses.
pub open spec fn game_over_notices(main_player: Seq<char>, partner: Seq<char>) -> Seq<NoticeView> {
    seq![notice(main_player, game_over_text()), notice(partner, game_over_text())]
}

/// The guess a lowercased text makes, if it makes one.
pub open spec fn guess_of(lowered: Seq<char>) -> Option<CoinFlip> {
    if lowered == stranger_danger_phrase() {
        Some(CoinFlip::Stranger)
    } else if lowered == buddy_buddy_phrase() {
        Some(CoinFlip::Friend)
    } else {
        None
    }
}

/// The verdict on `guess` when the coin showed `flip`.
pub open spec fn verdict_notices(
    main_player: Seq<char>,
    partner: Seq<char>,
    flip: CoinFlip,
    guess: CoinFlip,
) -> Seq<NoticeView> {
    if guess == flip {
        win_notices(main_player, partner)
    } else {
        loss_notices(main_player, partner)
    }
}

/// Whether a text from `from`, lowercased to `lowered`, makes its sender the
/// friend of `session`: the session still waits for a friend, the text is the
/// join phrase of this game, and the sender is not busy.
pub open spec fn accepts_friend(
    session: SessionView,
    busy: Set<Seq<char>>,
    from: Seq<char>,
    lowered: Seq<char>,
) -> bool {
    &&& session.state == SessionState::WaitingForFriend
    &&& lowered == join_phrase(session.game_id)
    &&& !busy.contains(from)
}

/// The invitation phase: a sender who is accepted becomes the friend and both
/// sides are told; any other text is ignored. The busy set is only read.
pub open spec fn join_step(
    session: SessionView,
    busy: Set<Seq<char>>,
    from: Seq<char>,
    lowered: Seq<char>,
) -> Step {
    if accepts_friend(session, busy, from, lowered) {
        Step {
            session: SessionView {
                friend: Some(from),
                state: SessionState::Matched,
                ..session
            },
            busy,
            notices: welcome_notices(session.main_player, from),
        }
    } else {
        stay(session, busy)
    }
}

/// The start of play in a matched session on the coin flip `flip`.
///
/// If the friend is chosen, the stranger's reservation ends and the friend is
/// reserved. If the stranger is chosen, the friend is told to leave and the
/// busy set stays as it is. A session in any other state stays put.
pub open spec fn begin_step(session: SessionView, busy: Set<Seq<char>>, flip: CoinFlip) -> Step {
    if session.state == SessionState::Matched && session.friend is Some {
        let friend = session.friend->0;
        let started = SessionView {
            flip: Some(flip),
            state: SessionState::InProgress,
            ..session
        };
        match flip {
            CoinFlip::Friend => Step {
                session: started,
                busy: reserved(released(busy, session.stranger), friend),
                notices: matched_notices(session.main_player, friend) + friend_brief(friend),
            },
            CoinFlip::Stranger => Step {
                session: started,
                busy,
                notices: matched_notices(session.main_player, session.stranger) + bumped_notices(
                    friend,
                ) + stranger_brief(session.stranger),
            },
        }
    } else {
        stay(session, busy)
    }
}

/// Whether `from` is one of the two people talking in `session`.
pub open spec fn is_participant(session: SessionView, from: Seq<char>) -> bool {
    from == session.main_player || from == session.partner()
}

/// The busy set once the main player and the partner of `session` are free
/// again.
pub open spec fn freed(session: SessionView, busy: Set<Seq<char>>) -> Set<Seq<char>> {
    released(released(busy, session.main_player), session.partner())
}

/// The relay of one text between the two participants: the partner's words go
/// to the main player and the main player's words to the partner, verbatim.
pub open spec fn relay_notices(session: SessionView, from: Seq<char>, body: Seq<char>) -> Seq<
    NoticeView,
> {
    if from == session.partner() {
        seq![notice(session.main_player, body)]
    } else {
        seq![notice(session.partner(), body)]
    }
}

/// One text during play.
///
/// A text from anyone but the two participants does nothing. A participant's
/// text is relayed to the other side. After the relay, a guess by the main
/// player ends the game with the verdict, and failing that the game-over
/// phrase from either side ends it without one. Whenever the game ends, the
/// main player and the partner are released.
pub open spec fn play_step(
    session: SessionView,
    busy: Set<Seq<char>>,
    from: Seq<char>,
    body: Seq<char>,
    lowered: Seq<char>,
) -> Step {
    if session.state != SessionState::InProgress || session.flip is None || !is_participant(
        session,
        from,
    ) {
        stay(session, busy)
    } else {
        let relay = relay_notices(session, from, body);
        if from == session.main_player && guess_of(lowered) is Some {
            Step {
                session: session.resolved(),
                busy: freed(session, busy),
                notices: relay + verdict_notices(
                    session.main_player,
                    session.partner(),
                    session.flip->0,
                    guess_of(lowered)->0,
                ),
            }
        } else if lowered == game_over_phrase() {
            Step {
                session: session.resolved(),
                busy: freed(session, busy),
                notices: relay + game_over_notices(session.main_player, session.partner()),
            }
        } else {
            Step { session, busy, notices: relay }
        }
    }
}

/// One inbound text, whatever the state.
///
/// While the session waits for a friend the text is tried as a join request,
/// and a friend who is accepted starts the game at once on the coin flip
/// `flip`. During play the text is relayed and judged. A session that is
/// matched or resolved ignores it. `flip` matters only in the first case.
pub open spec fn session_step(
    session: SessionView,
    busy: Set<Seq<char>>,
    from: Seq<char>,
    body: Seq<char>,
    lowered: Seq<char>,
    flip: CoinFlip,
) -> Step {
    match session.state {
        SessionState::WaitingForFriend => {
            let joined = join_step(session, busy, from, lowered);
            let begun = begin_step(joined.session, joined.busy, flip);
            Step {
                session: begun.session,
                busy: begun.busy,
                notices: joined.notices + begun.notices,
            }
        },
        SessionState::InProgress => play_step(session, busy, from, body, lowered),
        _ => stay(session, busy),
    }
}

/// Appends a notice to `to` with the text `body`.
fn push_notice(notices: &mut Vec<Notice>, to: &str, body: &str)
    ensures
        notice_views(final(notices)@) == notice_views(old(notices)@).push(notice(to@, body@)),
{
    notices.push(Notice::new(to, body));
    assert(notice_views(notices@) =~= notice_views(old(notices)@).push(notice(to@, body@)));
}

/// An empty list of notices.
fn no_notices() -> (notices: Vec<Notice>)
    ensures
        notice_views(notices@) == Seq::<NoticeView>::empty(),
{
    let notices = Vec::new();
    assert(notice_views(notices@) =~= Seq::<NoticeView>::empty());
    notices
}

/// `head` followed by `tail`, both lists emptied into the result in order.
fn join_notices(head: Vec<Notice>, tail: Vec<Notice>) -> (all: Vec<Notice>)
    ensures
        notice_views(all@) == notice_views(head@) + notice_views(tail@),
{
    let mut all = head;
    let mut rest = tail;
    all.append(&mut rest);
    assert(notice_views(all@) =~= notice_views(head@) + notice_views(tail@));
    all
}

/// Reads a guess off a lowercased text.
pub fn guess_from(lowered: &str) -> (guess: Option<CoinFlip>)
    ensures
        guess == guess_of(lowered@),
{
    if text_eq(lowered, "stranger danger") {
        Some(CoinFlip::Stranger)
    } else if text_eq(lowered, "buddy buddy") {
        Some(CoinFlip::Friend)
    } else {
        None
    }
}

/// Releases the two participants of a game that has ended.
pub fn finish_game_clean_busy_players(
    main_player: &Player,
    partner: &Player,
    busy_players: &mut BusyPlayers,
)
    ensures
        final(busy_players)@ == released(released(old(busy_players)@, main_player@), partner@),
{
    busy_players.release(main_player.player_id());
    busy_players.release(partner.player_id());
}

/// One game between a main player and whichever of the friend and the
/// stranger the coin picks.
pub struct GameSession {
    game_id: String,
    main_player: Player,
    stranger: Player,
    friend: Option<Player>,
    flip: Option<CoinFlip>,
    state: SessionState,
    inbox: u64,
}

impl View for GameSession {
    type V = SessionView;

    closed spec fn view(&self) -> SessionView {
        SessionView {
            game_id: self.game_id@,
            main_player: self.main_player@,
            stranger: self.stranger@,
            friend: match self.friend {
                Some(friend) => Some(friend@),
                None => None,
            },
            flip: self.flip,
            state: self.state,
            inbox: self.inbox,
        }
    }
}

impl GameSession {
    #[verifier::type_invariant]
    spec fn well_formed(self) -> bool {
        self@.wf()
    }

    /// Opens a session for `main_player` and `stranger` under the name
    /// `game_id`, reading from the inbox `inbox`. The session waits for a
    /// friend, and the main player is told the code and the join phrase.
    pub fn open(
        game_id: String,
        main_player: Player,
        stranger: Player,
        inbox: u64,
    ) -> (opened: (GameSession, Vec<Notice>))
        ensures
            opened.0@ == (SessionView {
                game_id: game_id@,
                main_player: main_player@,
                stranger: stranger@,
                friend: None,
                flip: None,
                state: SessionState::WaitingForFriend,
                inbox,
            }),
            notice_views(opened.1@) == opening_notices(game_id@, main_player@),
    {
        let mut notices = no_notices();
        let code = join_text("This is your game code: ", game_id.as_str());
        push_notice(&mut notices, main_player.player_id(), code.as_str());
        let phrase = join_text("join ", game_id.as_str());
        let invitation = join_text("Have a friend join by texting: ", phrase.as_str());
        push_notice(&mut notices, main_player.player_id(), invitation.as_str());
        let session = GameSession {
            game_id,
            main_player,
            stranger,
            friend: None,
            flip: None,
            state: SessionState::WaitingForFriend,
            inbox,
        };
        (session, notices)
    }

    /// Where the session stands. Every session is well formed.
    pub fn state(&self) -> (state: SessionState)
        ensures
            state == self@.state,
            self@.wf(),
    {
        proof {
            use_type_invariant(self);
        }
        self.state
    }

    /// Whether the game is over.
    pub fn is_resolved(&self) -> (over: bool)
        ensures
            over == (self@.state == SessionState::Resolved),
    {
        self.state == SessionState::Resolved
    }

    /// The word the game is known by.
    pub fn game_id(&self) -> (game_id: &str)
        ensures
            game_id@ == self@.game_id,
    {
        self.game_id.as_str()
    }

    /// The player whose guess decides the game.
    pub fn main_player(&self) -> (player: &Player)
        ensures
            player@ == self@.main_player,
    {
        &self.main_player
    }

    /// The stranger this session was paired with.
    pub fn stranger(&self) -> (player: &Player)
        ensures
            player@ == self@.stranger,
    {
        &self.stranger
    }

    /// The friend, once one has joined.
    pub fn friend(&self) -> (player: Option<&Player>)
        ensures
            match player {
                Some(friend) => self@.friend == Some(friend@),
                None => self@.friend is None,
            },
    {
        self.friend.as_ref()
    }

    /// The coin flip, once it has been made.
    pub fn flip(&self) -> (flip: Option<CoinFlip>)
        ensures
            flip == self@.flip,
    {
        self.flip
    }

    /// The inbox this session reads from.
    pub fn inbox(&self) -> (inbox: u64)
        ensures
            inbox == self@.inbox,
    {
        self.inbox
    }

    /// The candidate the main player talks to. Before the coin is flipped
    /// this is the stranger.
    pub fn partner(&self) -> (player: &Player)
        ensures
            player@ == self@.partner(),
    {
        match self.flip {
            Some(CoinFlip::Friend) => match &self.friend {
                Some(friend) => friend,
                None => &self.stranger,
            },
            _ => &self.stranger,
        }
    }

    /// Tries a text as a join request. `lowered` is the lowercase form of its
    /// body.
    pub fn admit_friend(
        &mut self,
        from: &str,
        lowered: &str,
        busy: &BusyPlayers,
    ) -> (notices: Vec<Notice>)
        ensures
            final(self)@ == join_step(old(self)@, busy@, from@, lowered@).session,
            notice_views(notices@) == join_step(old(self)@, busy@, from@, lowered@).notices,
    {
        let mut notices = no_notices();
        if self.state != SessionState::WaitingForFriend {
            return notices;
        }
        let phrase = join_text("join ", self.game_id.as_str());
        if !text_eq(lowered, phrase.as_str()) || busy.contains(from) {
            return notices;
        }
        push_notice(&mut notices, from, "[ref] Welcome friend!");
        let arrival = join_text(
            join_text("[ref] Your friend at ", from).as_str(),
            " has joined!\nRemember type: \"stranger danger\" if you think this is a stranger\nand type: \"buddy buddy\" if this is your friend.\nStart Chatting!",
        );
        push_notice(&mut notices, self.main_player.player_id(), arrival.as_str());
        self.friend = Some(Player::new(from.to_owned()));
        self.state = SessionState::Matched;
        notices
    }

    /// Starts play in a matched session on the coin flip `flip`.
    pub fn begin(&mut self, flip: CoinFlip, busy: &mut BusyPlayers) -> (notices: Vec<Notice>)
        ensures
            final(self)@ == begin_step(old(self)@, old(busy)@, flip).session,
            final(busy)@ == begin_step(old(self)@, old(busy)@, flip).busy,
            notice_views(notices@) == begin_step(old(self)@, old(busy)@, flip).notices,
    {
        let mut notices = no_notices();
        if self.state != SessionState::Matched {
            return notices;
        }
        let friend = match &self.friend {
            Some(friend) => friend.clone(),
            None => {
                return notices;
            },
        };
        let main_id = self.main_player.player_id();
        let friend_id = friend.player_id();
        let stranger_id = self.stranger.player_id();
        let partner_id = match flip {
            CoinFlip::Friend => friend_id,
            CoinFlip::Stranger => stranger_id,
        };
        push_notice(&mut notices, main_id, "[Ref]: We've matched you up and you're ready to go!");
        push_notice(
            &mut notices,
            main_id,
            "[Ref]: You win if you guess if you're talking to a friend or a stranger correctly!",
        );
        push_notice(
            &mut notices,
            partner_id,
            "[Ref]: We've matched you up and you're ready to go!",
        );
        match flip {
            CoinFlip::Friend => {
                busy.release(stranger_id);
                busy.try_reserve(friend_id);
                push_notice(&mut notices, partner_id, "[Ref]: The game has started!");
                push_notice(
                    &mut notices,
                    partner_id,
                    "[Ref]: You win this game if you convince your friend that you are a stranger!\nGame On!!",
                );
            },
            CoinFlip::Stranger => {
                push_notice(
                    &mut notices,
                    friend_id,
                    "[Ref]: We've matched your friend up to a stranger. Don't spoil it!",
                );
                push_notice(
                    &mut notices,
                    friend_id,
                    "[Ref]: You are out of this game now, but you can join or start another game",
                );
                push_notice(&mut notices, partner_id, "[Ref]: The game has started!");
                push_notice(
                    &mut notices,
                    partner_id,
                    "[Ref]: You win this game if you convince the other person you are their friend\nGame On!!",
                );
            },
        }
        assert(notice_views(notices@) =~= begin_step(old(self)@, old(busy)@, flip).notices);
        self.flip = Some(flip);
        self.state = SessionState::InProgress;
        notices
    }

    /// Takes one text during play. `lowered` is the lowercase form of `body`.
    pub fn relay(
        &mut self,
        from: &str,
        body: &str,
        lowered: &str,
        busy: &mut BusyPlayers,
    ) -> (notices: Vec<Notice>)
        ensures
            final(self)@ == play_step(old(self)@, old(busy)@, from@, body@, lowered@).session,
            final(busy)@ == play_step(old(self)@, old(busy)@, from@, body@, lowered@).busy,
            notice_views(notices@) == play_step(
                old(self)@,
                old(busy)@,
                from@,
                body@,
                lowered@,
            ).notices,
    {
        proof {
            use_type_invariant(&*self);
        }
        let mut notices = no_notices();
        if self.state != SessionState::InProgress {
            return notices;
        }
        let flip = match self.flip {
            Some(flip) => flip,
            None => {
                return notices;
            },
        };
        let from_main = text_eq(from, self.main_player.player_id());
        let from_partner = text_eq(from, self.partner().player_id());
        if !from_main && !from_partner {
            return notices;
        }
        if from_partner {
            push_notice(&mut notices, self.main_player.player_id(), body);
        } else {
            push_notice(&mut notices, self.partner().player_id(), body);
        }
        let guess = if from_main {
            guess_from(lowered)
        } else {
            None
        };
        let ended = match guess {
            Some(guess) => {
                let main_id = self.main_player.player_id();
                let partner_id = self.partner().player_id();
                if guess == flip {
                    push_notice(&mut notices, main_id, "[Ref here]: you got it! You win! \\o/");
                    push_notice(
                        &mut notices,
                        partner_id,
                        "[Ref here]: They guessed right, you've lost! :(",
                    );
                } else {
                    push_notice(
                        &mut notices,
                        main_id,
                        "[Ref here]: sorry dude, you got it wrong! You Lose! :(",
                    );
                    push_notice(&mut notices, partner_id, "[Ref here]: Nice work, you fooled them! :)");
                }
                true
            },
            None => {
                if text_eq(lowered, "game over") {
                    let main_id = self.main_player.player_id();
                    let partner_id = self.partner().player_id();
                    push_notice(&mut notices, main_id, "[Ref here]: Game over");
                    push_notice(&mut notices, partner_id, "[Ref here]: Game over");
                    true
                } else {
                    false
                }
            },
        };
        assert(notice_views(notices@) =~= play_step(
            old(self)@,
            old(busy)@,
            from@,
            body@,
            lowered@,
        ).notices);
        if ended {
            finish_game_clean_busy_players(&self.main_player, self.partner(), busy);
            self.state = SessionState::Resolved;
        }
        notices
    }

    /// Takes one inbound text in whatever state the session is. `lowered` is
    /// the lowercase form of `body`, and `flip` is the coin flip to use should
    /// this text complete the match.
    pub fn advance(
        &mut self,
        from: &str,
        body: &str,
        lowered: &str,
        flip: CoinFlip,
        busy: &mut BusyPlayers,
    ) -> (notices: Vec<Notice>)
        ensures
            final(self)@ == session_step(
                old(self)@,
                old(busy)@,
                from@,
                body@,
                lowered@,
                flip,
            ).session,
            final(busy)@ == session_step(old(self)@, old(busy)@, from@, body@, lowered@, flip).busy,
            notice_views(notices@) == session_step(
                old(self)@,
                old(busy)@,
                from@,
                body@,
                lowered@,
                flip,
            ).notices,
    {
        match self.state {
            SessionState::WaitingForFriend => {
                let joined = self.admit_friend(from, lowered, busy);
                let begun = self.begin(flip, busy);
                join_notices(joined, begun)
            },
            SessionState::InProgress => self.relay(from, body, lowered, busy),
            _ => no_notices(),
        }
    }

    /// Takes one inbound message: lowercases its body, flips the coin if the
    /// message completes the match, and moves the session on. What comes out
    /// is a step of the session on the lowercase form of the body and on some
    /// coin flip.
    pub fn handle(&mut self, message: &TxtMessage, busy: &mut BusyPlayers) -> (notices: Vec<Notice>)
        ensures
            exists|flip: CoinFlip|
                {
                    let step = #[trigger] session_step(
                        old(self)@,
                        old(busy)@,
                        message@.from,
                        message@.body,
                        lowercase_of(message@.body),
                        flip,
                    );
                    &&& final(self)@ == step.session
                    &&& final(busy)@ == step.busy
                    &&& notice_views(notices@) == step.notices
                },
    {
        let from = message.from.as_str();
        let body = message.body.as_str();
        let lowered = to_lowercase(body);
        let ghost before = self@;
        let ghost busy_before = busy@;
        match self.state {
            SessionState::WaitingForFriend => {
                let joined = self.admit_friend(from, lowered.as_str(), busy);
                if self.state == SessionState::Matched {
                    let flip = coin_flip();
                    let begun = self.begin(flip, busy);
                    let notices = join_notices(joined, begun);
                    proof {
                        let step = session_step(
                            before,
                            busy_before,
                            message@.from,
                            message@.body,
                            lowercase_of(message@.body),
                            flip,
                        );
                        assert(self@ == step.session);
                        assert(busy@ == step.busy);
                        assert(notice_views(notices@) == step.notices);
                    }
                    notices
                } else {
                    proof {
                        let step = session_step(
                            before,
                            busy_before,
                            message@.from,
                            message@.body,
                            lowercase_of(message@.body),
                            CoinFlip::Stranger,
                        );
                        assert(self@ == step.session);
                        assert(busy@ == step.busy);
                        assert(notice_views(joined@) =~= step.notices);
                    }
                    joined
                }
            },
            _ => {
                let notices = self.advance(from, body, lowered.as_str(), CoinFlip::Stranger, busy);
                proof {
                    let step = session_step(
                        before,
                        busy_before,
                        message@.from,
                        message@.body,
                        lowercase_of(message@.body),
                        CoinFlip::Stranger,
                    );
                    assert(self@ == step.session);
                    assert(busy@ == step.busy);
                    assert(notice_views(notices@) == step.notices);
                }
                notices
            },
        }
    }

    /// Takes one inbound message as [`GameSession::handle`] does, and gives the
    /// inbox of the session back to `registry` once the game is over, so that
    /// nothing more is published to a session that has ended.
    pub fn serve(
        &mut self,
        message: &TxtMessage,
        busy: &mut BusyPlayers,
        registry: &mut ListenerRegistry,
    ) -> (notices: Vec<Notice>)
        ensures
            exists|flip: CoinFlip|
                {
                    let step = #[trigger] session_step(
                        old(self)@,
                        old(busy)@,
                        message@.from,
                        message@.body,
                        lowercase_of(message@.body),
                        flip,
                    );
                    &&& final(self)@ == step.session
                    &&& final(busy)@ == step.busy
                    &&& notice_views(notices@) == step.notices
                },
            final(registry)@.issued == old(registry)@.issued,
            final(registry)@.inboxes == if final(self)@.state == SessionState::Resolved {
                old(registry)@.inboxes.remove(old(self)@.inbox)
            } else {
                old(registry)@.inboxes
            },
    {
        let notices = self.handle(message, busy);
        if self.state == SessionState::Resolved {
            registry.deregister(self.inbox);
        }
        notices
    }
}

/// The verdict follows from the coin and the guess alone. When the main player
/// of a game in progress makes a guess, the game ends; a guess that matches the
/// coin tells the main player of the win and the partner of the loss, and a
/// guess that does not match tells the main player of the loss and the partner
/// of the win.
pub proof fn lemma_guess_decides(
    session: SessionView,
    busy: Set<Seq<char>>,
    body: Seq<char>,
    lowered: Seq<char>,
)
    requires
        session.wf(),
        session.state == SessionState::InProgress,
        lowered == stranger_danger_phrase() || lowered == buddy_buddy_phrase(),
    ensures
        ({
            let step = play_step(session, busy, session.main_player, body, lowered);
            let right = (lowered == stranger_danger_phrase()) == (session.flip
                == Some(CoinFlip::Stranger));
            &&& step.session == session.resolved()
            &&& step.busy == freed(session, busy)
            &&& right ==> step.notices.contains(notice(session.main_player, main_wins_text()))
                && step.notices.contains(notice(session.partner(), partner_loses_text()))
                && step.notices == relay_notices(session, session.main_player, body) + win_notices(
                session.main_player,
                session.partner(),
            )
            &&& !right ==> step.notices.contains(notice(session.main_player, main_loses_text()))
                && step.notices.contains(notice(session.partner(), partner_wins_text()))
                && step.notices == relay_notices(session, session.main_player, body)
                + loss_notices(session.main_player, session.partner())
        }),
{
    lemma_play_phrases_differ();
    let step = play_step(session, busy, session.main_player, body, lowered);
    let relay = relay_notices(session, session.main_player, body);
    assert(relay.len() == 1);
    if guess_of(lowered)->0 == session.flip->0 {
        assert(step.notices[1] == notice(session.main_player, main_wins_text()));
        assert(step.notices[2] == notice(session.partner(), partner_loses_text()));
    } else {
        assert(step.notices[1] == notice(session.main_player, main_loses_text()));
        assert(step.notices[2] == notice(session.partner(), partner_wins_text()));
    }
}

/// The game-over phrase from either participant of a game in progress ends
/// the game, whatever the coin showed: the text is relayed, both sides get the
/// neutral notice, and the main player and the partner are released.
pub proof fn lemma_game_over_ends(
    session: SessionView,
    busy: Set<Seq<char>>,
    from: Seq<char>,
    body: Seq<char>,
)
    requires
        session.wf(),
        session.state == SessionState::InProgress,
        is_participant(session, from),
    ensures
        ({
            let step = play_step(session, busy, from, body, game_over_phrase());
            &&& step.session == session.resolved()
            &&& step.busy == freed(session, busy)
            &&& !step.busy.contains(session.main_player)
            &&& !step.busy.contains(session.partner())
            &&& step.notices == relay_notices(session, from, body) + game_over_notices(
                session.main_player,
                session.partner(),
            )
        }),
{
    lemma_play_phrases_differ();
}

/// A text from anyone but the main player and the partner does nothing to a
/// game in progress: nothing is relayed, and the session and the busy set
/// stay as they are.
pub proof fn lemma_outsider_ignored(
    session: SessionView,
    busy: Set<Seq<char>>,
    from: Seq<char>,
    body: Seq<char>,
    lowered: Seq<char>,
    flip: CoinFlip,
)
    requires
        session.state == SessionState::InProgress,
        !is_participant(session, from),
    ensures
        play_step(session, busy, from, body, lowered) == stay(session, busy),
        session_step(session, busy, from, body, lowered, flip) == stay(session, busy),
{
}

/// Every transition keeps a well-formed session well formed, and nothing
/// moves a resolved session.
pub proof fn lemma_step_keeps_wf(
    session: SessionView,
    busy: Set<Seq<char>>,
    from: Seq<char>,
    body: Seq<char>,
    lowered: Seq<char>,
    flip: CoinFlip,
)
    requires
        session.wf(),
    ensures
        session_step(session, busy, from, body, lowered, flip).session.wf(),
        session.state == SessionState::Resolved ==> session_step(
            session,
            busy,
            from,
            body,
            lowered,
            flip,
        ) == stay(session, busy),
{
}

} // verus!
