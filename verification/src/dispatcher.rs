//! Matchmaking: admitting a main player, pairing them with a waiting stranger
//! and opening their game.
//!
//! Players who offer themselves as strangers wait in a queue. The dispatcher
//! serves one main player at a time: it admits the sender of a game request,
//! takes the stranger who has waited longest, opens a session for the two and
//! is then free for the next request. It never waits for a session to end.

use crate::busy::{grants, reserved, BusyPlayers};
use crate::chance::{game_words, new_game_id};
use crate::message::{notice_views, Notice, NoticeView, Player, TxtMessage};
use crate::registry::ListenerRegistry;
use crate::session::{notice, opening_notices, GameSession, SessionState, SessionView};
use crate::text::{lowercase_of, stranger_join_phrase, text_eq, to_lowercase, who_dis_phrase};
use std::collections::VecDeque;
use vstd::prelude::*;

verus! {

/// The identifiers of a queue of players, in order.
pub open spec fn player_ids(players: Seq<Player>) -> Seq<Seq<char>> {
    players.map_values(|p: Player| p@)
}

/// Players who asked to be a stranger and have not been paired yet, in the
/// order in which they asked.
pub struct StrangerQueue {
    waiting: VecDeque<Player>,
}

impl View for StrangerQueue {
    type V = Seq<Seq<char>>;

    closed spec fn view(&self) -> Seq<Seq<char>> {
        player_ids(self.waiting@)
    }
}

impl StrangerQueue {
    /// A queue in which nobody waits.
    pub fn new() -> (queue: StrangerQueue)
        ensures
            queue@ == Seq::<Seq<char>>::empty(),
    {
        let queue = StrangerQueue { waiting: VecDeque::new() };
        assert(queue@ =~= Seq::<Seq<char>>::empty());
        queue
    }

    /// Puts `player` at the end of the queue.
    pub fn push(&mut self, player: Player)
        ensures
            final(self)@ == old(self)@.push(player@),
    {
        self.waiting.push_back(player);
        assert(self@ =~= old(self)@.push(player@));
    }

    /// Takes the player who has waited longest, if anybody waits.
    pub fn pop(&mut self) -> (player: Option<Player>)
        ensures
            match player {
                Some(player) => {
                    &&& old(self)@.len() > 0
                    &&& player@ == old(self)@[0]
                    &&& final(self)@ == old(self)@.drop_first()
                },
                None => old(self)@.len() == 0 && final(self)@ == old(self)@,
            },
    {
        let player = self.waiting.pop_front();
        assert(self@ =~= if player is Some {
            old(self)@.drop_first()
        } else {
            old(self)@
        });
        player
    }

    /// How many players wait.
    pub fn len(&self) -> (count: usize)
        ensures
            count == self@.len(),
    {
        self.waiting.len()
    }

    /// Whether nobody waits.
    pub fn is_empty(&self) -> (empty: bool)
        ensures
            empty == (self@.len() == 0),
    {
        self.waiting.len() == 0
    }
}

/// Whether a text from `from`, lowercased to `lowered`, puts its sender in the
/// stranger queue: it is the stranger phrase and the sender is not busy.
pub open spec fn admits_stranger(busy: Set<Seq<char>>, from: Seq<char>, lowered: Seq<char>) -> bool {
    lowered == stranger_join_phrase() && !busy.contains(from)
}

/// The queue after a text from `from`, lowercased to `lowered`, has been
/// heard.
pub open spec fn stranger_step(
    queue: Seq<Seq<char>>,
    busy: Set<Seq<char>>,
    from: Seq<char>,
    lowered: Seq<char>,
) -> Seq<Seq<char>> {
    if admits_stranger(busy, from, lowered) {
        queue.push(from)
    } else {
        queue
    }
}

/// Hears one text on behalf of the stranger queue. `lowered` is the lowercase
/// form of its body. A sender who is admitted joins the queue; nobody is
/// reserved here, that happens when the stranger is paired.
pub fn admit_stranger(
    from: &str,
    lowered: &str,
    busy: &BusyPlayers,
    queue: &mut StrangerQueue,
) -> (admitted: bool)
    ensures
        admitted == admits_stranger(busy@, from@, lowered@),
        final(queue)@ == stranger_step(old(queue)@, busy@, from@, lowered@),
{
    if text_eq(lowered, "stranger join") && !busy.contains(from) {
        queue.push(Player::new(from.to_owned()));
        true
    } else {
        false
    }
}

/// Hears one inbound message on behalf of the stranger queue.
pub fn hear_stranger(
    message: &TxtMessage,
    busy: &BusyPlayers,
    queue: &mut StrangerQueue,
) -> (admitted: bool)
    ensures
        admitted == admits_stranger(busy@, message@.from, lowercase_of(message@.body)),
        final(queue)@ == stranger_step(
            old(queue)@,
            busy@,
            message@.from,
            lowercase_of(message@.body),
        ),
{
    let lowered = to_lowercase(message.body.as_str());
    admit_stranger(message.from.as_str(), lowered.as_str(), busy, queue)
}

/// What the dispatcher is waiting for.
#[derive(Clone, Copy, Debug, PartialEq, Eq, Structural)]
pub enum DispatcherState {
    /// Nobody is being served; the next game request is admitted.
    AwaitingMainPlayer,
    /// A main player is admitted and waits for a stranger.
    AwaitingStranger,
    /// Main player and stranger are known and their session is to be opened.
    Spawning,
}

/// What a [`Dispatcher`] is, as mathematical values.
pub struct DispatcherView {
    pub state: DispatcherState,
    pub main_player: Option<Seq<char>>,
    pub stranger: Option<Seq<char>>,
    pub inbox: u64,
}

impl DispatcherView {
    /// The main player is known while a stranger is awaited, and both are
    /// known when the session is to be opened.
    pub open spec fn wf(self) -> bool {
        &&& self.state == DispatcherState::AwaitingStranger ==> self.main_player is Some
        &&& self.state == DispatcherState::Spawning ==> self.main_player is Some
            && self.stranger is Some
    }

    /// This dispatcher once it is free for the next main player.
    pub open spec fn idle(self) -> DispatcherView {
        DispatcherView {
            state: DispatcherState::AwaitingMainPlayer,
            main_player: None,
            stranger: None,
            inbox: self.inbox,
        }
    }
}

/// What the admitted main player is told.
pub open spec fn waiting_text() -> Seq<char> {
    "Waiting for stranger to join"@
}

/// What the main player is told once a stranger is found.
pub open spec fn found_text() -> Seq<char> {
    "Found a stranger! now time to invite your friend"@
}

/// Whether a text from `from`, lowercased to `lowered`, makes its sender the
/// main player: the dispatcher is free, the text is the game request, and the
/// sender is not busy.
pub open spec fn admits_main_player(
    dispatcher: DispatcherView,
    busy: Set<Seq<char>>,
    from: Seq<char>,
    lowered: Seq<char>,
) -> bool {
    &&& dispatcher.state == DispatcherState::AwaitingMainPlayer
    &&& lowered == who_dis_phrase()
    &&& grants(busy, from)
}

/// The outcome of admitting or pairing: the dispatcher and the busy set
/// afterwards, and the notices to deliver, in order.
pub struct Dispatch {
    pub dispatcher: DispatcherView,
    pub busy: Set<Seq<char>>,
    pub notices: Seq<NoticeView>,
}

/// One text heard by the dispatcher. A sender who is admitted is reserved,
/// becomes the main player and is told to wait for a stranger. Any other text
/// is ignored.
pub open spec fn admit_step(
    dispatcher: DispatcherView,
    busy: Set<Seq<char>>,
    from: Seq<char>,
    lowered: Seq<char>,
) -> Dispatch {
    if admits_main_player(dispatcher, busy, from, lowered) {
        Dispatch {
            dispatcher: DispatcherView {
                state: DispatcherState::AwaitingStranger,
                main_player: Some(from),
                ..dispatcher
            },
            busy: reserved(busy, from),
            notices: seq![notice(from, waiting_text())],
        }
    } else {
        Dispatch { dispatcher, busy, notices: Seq::empty() }
    }
}

/// Whether the dispatcher can take a stranger from `queue` now.
pub open spec fn can_pair(dispatcher: DispatcherView, queue: Seq<Seq<char>>) -> bool {
    &&& dispatcher.state == DispatcherState::AwaitingStranger
    &&& dispatcher.main_player is Some
    &&& queue.len() > 0
}

/// The pairing of the waiting main player with the stranger at the head of
/// `queue`: the stranger is reserved and the main player is told. While the
/// queue is empty, or when no main player waits, nothing happens.
pub open spec fn pair_step(
    dispatcher: DispatcherView,
    busy: Set<Seq<char>>,
    queue: Seq<Seq<char>>,
) -> Dispatch {
    if can_pair(dispatcher, queue) {
        Dispatch {
            dispatcher: DispatcherView {
                state: DispatcherState::Spawning,
                stranger: Some(queue[0]),
                ..dispatcher
            },
            busy: reserved(busy, queue[0]),
            notices: seq![notice(dispatcher.main_player->0, found_text())],
        }
    } else {
        Dispatch { dispatcher, busy, notices: Seq::empty() }
    }
}

/// The queue after the dispatcher has tried to pair.
pub open spec fn queue_after_pairing(dispatcher: DispatcherView, queue: Seq<Seq<char>>) -> Seq<
    Seq<char>,
> {
    if can_pair(dispatcher, queue) {
        queue.drop_first()
    } else {
        queue
    }
}

/// The session that is opened for the pair the dispatcher holds, under the
/// name `game_id` and on the inbox `inbox`.
pub open spec fn spawned_session(dispatcher: DispatcherView, game_id: Seq<char>, inbox: u64) -> SessionView {
    SessionView {
        game_id,
        main_player: dispatcher.main_player->0,
        stranger: dispatcher.stranger->0,
        friend: None,
        flip: None,
        state: SessionState::WaitingForFriend,
        inbox,
    }
}

/// The matchmaking state machine.
pub struct Dispatcher {
    state: DispatcherState,
    main_player: Option<Player>,
    stranger: Option<Player>,
    inbox: u64,
}

impl View for Dispatcher {
    type V = DispatcherView;

    closed spec fn view(&self) -> DispatcherView {
        DispatcherView {
            state: self.state,
            main_player: match self.main_player {
                Some(player) => Some(player@),
                None => None,
            },
            stranger: match self.stranger {
                Some(player) => Some(player@),
                None => None,
            },
            inbox: self.inbox,
        }
    }
}

impl Dispatcher {
    #[verifier::type_invariant]
    spec fn well_formed(self) -> bool {
        self@.wf()
    }

    /// A dispatcher that is free and listens on a new inbox of `registry`.
    /// There is none if the registry has no handle left to give.
    pub fn new(registry: &mut ListenerRegistry) -> (dispatcher: Option<Dispatcher>)
        ensures
            match dispatcher {
                Some(dispatcher) => {
                    &&& dispatcher@ == (DispatcherView {
                        state: DispatcherState::AwaitingMainPlayer,
                        main_player: None,
                        stranger: None,
                        inbox: old(registry)@.issued as u64,
                    })
                    &&& old(registry)@.issued < u64::MAX
                    &&& final(registry)@.issued == old(registry)@.issued + 1
                    &&& final(registry)@.inboxes == old(registry)@.inboxes.insert(
                        dispatcher@.inbox,
                        Seq::empty(),
                    )
                },
                None => old(registry)@.issued == u64::MAX && final(registry)@ == old(registry)@,
            },
    {
        match registry.register() {
            Some(inbox) => Some(
                Dispatcher {
                    state: DispatcherState::AwaitingMainPlayer,
                    main_player: None,
                    stranger: None,
                    inbox,
                },
            ),
            None => None,
        }
    }

    /// What the dispatcher is waiting for. Every dispatcher is well formed.
    pub fn state(&self) -> (state: DispatcherState)
        ensures
            state == self@.state,
            self@.wf(),
    {
        proof {
            use_type_invariant(self);
        }
        self.state
    }

    /// The inbox the dispatcher listens on.
    pub fn inbox(&self) -> (inbox: u64)
        ensures
            inbox == self@.inbox,
    {
        self.inbox
    }

    /// The main player being served, if there is one.
    pub fn main_player(&self) -> (player: Option<&Player>)
        ensures
            match player {
                Some(player) => self@.main_player == Some(player@),
                None => self@.main_player is None,
            },
    {
        self.main_player.as_ref()
    }

    /// The stranger the main player is paired with, if there is one.
    pub fn stranger(&self) -> (player: Option<&Player>)
        ensures
            match player {
                Some(player) => self@.stranger == Some(player@),
                None => self@.stranger is None,
            },
    {
        self.stranger.as_ref()
    }

    /// Hears one text. `lowered` is the lowercase form of its body. The
    /// reservation of the sender is a single test-and-set on the busy set.
    pub fn admit_main_player(&mut self, from: &str, lowered: &str, busy: &mut BusyPlayers) -> (notices: Vec<Notice>)
        ensures
            final(self)@ == admit_step(old(self)@, old(busy)@, from@, lowered@).dispatcher,
            final(busy)@ == admit_step(old(self)@, old(busy)@, from@, lowered@).busy,
            notice_views(notices@) == admit_step(old(self)@, old(busy)@, from@, lowered@).notices,
    {
        let mut notices: Vec<Notice> = Vec::new();
        if self.state == DispatcherState::AwaitingMainPlayer && text_eq(lowered, "who dis") {
            if busy.try_reserve(from) {
                notices.push(Notice::new(from, "Waiting for stranger to join"));
                self.main_player = Some(Player::new(from.to_owned()));
                self.state = DispatcherState::AwaitingStranger;
            } else {
                assert(busy@ =~= old(busy)@);
            }
        }
        assert(notice_views(notices@) =~= admit_step(
            old(self)@,
            old(busy)@,
            from@,
            lowered@,
        ).notices);
        notices
    }

    /// Hears one inbound message: lowercases its body and tries its sender as
    /// the main player.
    pub fn on_message(&mut self, message: &TxtMessage, busy: &mut BusyPlayers) -> (notices: Vec<Notice>)
        ensures
            final(self)@ == admit_step(
                old(self)@,
                old(busy)@,
                message@.from,
                lowercase_of(message@.body),
            ).dispatcher,
            final(busy)@ == admit_step(
                old(self)@,
                old(busy)@,
                message@.from,
                lowercase_of(message@.body),
            ).busy,
            notice_views(notices@) == admit_step(
                old(self)@,
                old(busy)@,
                message@.from,
                lowercase_of(message@.body),
            ).notices,
    {
        let lowered = to_lowercase(message.body.as_str());
        self.admit_main_player(message.from.as_str(), lowered.as_str(), busy)
    }

    /// Pairs the waiting main player with the stranger who has waited
    /// longest. With an empty queue nothing happens and the caller tries again
    /// once somebody has joined it.
    pub fn pair(&mut self, queue: &mut StrangerQueue, busy: &mut BusyPlayers) -> (notices: Vec<Notice>)
        ensures
            final(self)@ == pair_step(old(self)@, old(busy)@, old(queue)@).dispatcher,
            final(busy)@ == pair_step(old(self)@, old(busy)@, old(queue)@).busy,
            notice_views(notices@) == pair_step(old(self)@, old(busy)@, old(queue)@).notices,
            final(queue)@ == queue_after_pairing(old(self)@, old(queue)@),
    {
        let mut notices: Vec<Notice> = Vec::new();
        if self.state == DispatcherState::AwaitingStranger {
            let main_id = match &self.main_player {
                Some(player) => player.player_id().to_owned(),
                None => {
                    assert(notice_views(notices@) =~= Seq::<NoticeView>::empty());
                    return notices;
                },
            };
            match queue.pop() {
                Some(stranger) => {
                    busy.try_reserve(stranger.player_id());
                    notices.push(
                        Notice::new(
                            main_id.as_str(),
                            "Found a stranger! now time to invite your friend",
                        ),
                    );
                    self.stranger = Some(stranger);
                    self.state = DispatcherState::Spawning;
                },
                None => {},
            }
        }
        assert(notice_views(notices@) =~= pair_step(old(self)@, old(busy)@, old(queue)@).notices);
        notices
    }

    /// Opens the session of the pair under the name `game_id`: the session
    /// gets a new inbox in `registry`, the main player is told the code, and
    /// the dispatcher is free again. Nothing happens unless the dispatcher
    /// holds a pair and the registry has a handle left to give.
    pub fn spawn_as(
        &mut self,
        game_id: String,
        registry: &mut ListenerRegistry,
    ) -> (spawned: Option<(GameSession, Vec<Notice>)>)
        ensures
            spawned is Some <==> old(self)@.state == DispatcherState::Spawning && old(
                registry,
            )@.issued < u64::MAX,
            match spawned {
                Some((session, notices)) => {
                    let inbox = old(registry)@.issued as u64;
                    &&& session@ == spawned_session(old(self)@, game_id@, inbox)
                    &&& notice_views(notices@) == opening_notices(
                        game_id@,
                        old(self)@.main_player->0,
                    )
                    &&& final(self)@ == old(self)@.idle()
                    &&& final(registry)@.issued == old(registry)@.issued + 1
                    &&& final(registry)@.inboxes == old(registry)@.inboxes.insert(
                        inbox,
                        Seq::empty(),
                    )
                },
                None => final(self)@ == old(self)@ && final(registry)@ == old(registry)@,
            },
    {
        proof {
            use_type_invariant(&*self);
        }
        if self.state != DispatcherState::Spawning {
            return None;
        }
        let main_player = match &self.main_player {
            Some(player) => player.clone(),
            None => {
                return None;
            },
        };
        let stranger = match &self.stranger {
            Some(player) => player.clone(),
            None => {
                return None;
            },
        };
        let inbox = match registry.register() {
            Some(inbox) => inbox,
            None => {
                return None;
            },
        };
        self.state = DispatcherState::AwaitingMainPlayer;
        self.main_player = None;
        self.stranger = None;
        Some(GameSession::open(game_id, main_player, stranger, inbox))
    }

    /// Opens the session of the pair under a name drawn from the vocabulary.
    pub fn spawn(
        &mut self,
        registry: &mut ListenerRegistry,
    ) -> (spawned: Option<(GameSession, Vec<Notice>)>)
        ensures
            spawned is Some <==> old(self)@.state == DispatcherState::Spawning && old(
                registry,
            )@.issued < u64::MAX,
            match spawned {
                Some((session, notices)) => {
                    let inbox = old(registry)@.issued as u64;
                    &&& game_words().contains(session@.game_id)
                    &&& session@ == spawned_session(old(self)@, session@.game_id, inbox)
                    &&& notice_views(notices@) == opening_notices(
                        session@.game_id,
                        old(self)@.main_player->0,
                    )
                    &&& final(self)@ == old(self)@.idle()
                    &&& final(registry)@.issued == old(registry)@.issued + 1
                    &&& final(registry)@.inboxes == old(registry)@.inboxes.insert(
                        inbox,
                        Seq::empty(),
                    )
                },
                None => final(self)@ == old(self)@ && final(registry)@ == old(registry)@,
            },
    {
        let game_id = new_game_id();
        self.spawn_as(game_id, registry)
    }
}

} // verus!
