//! The plain data that moves through the engine: players, inbound texts and
//! the notices the engine asks its caller to deliver.

use vstd::prelude::*;

verus! {

/// A participant. The identifier is the transport address and the only
/// identity a player has; it is fixed when the player is made.
#[derive(Debug)]
pub struct Player {
    player_id: String,
}

impl View for Player {
    type V = Seq<char>;

    closed spec fn view(&self) -> Seq<char> {
        self.player_id@
    }
}

impl Clone for Player {
    fn clone(&self) -> (copy: Self)
        ensures
            copy@ == self@,
    {
        Player { player_id: self.player_id.clone() }
    }
}

impl Player {
    /// The player with the identifier `player_id`.
    pub fn new(player_id: String) -> (player: Player)
        ensures
            player@ == player_id@,
    {
        Player { player_id }
    }

    /// The identifier of the player.
    pub fn player_id(&self) -> (player_id: &str)
        ensures
            player_id@ == self@,
    {
        self.player_id.as_str()
    }
}

/// What a [`TxtMessage`] is, as mathematical values.
pub struct TxtMessageView {
    pub from: Seq<char>,
    pub body: Seq<char>,
    pub date_created: Seq<char>,
    pub sid: Seq<char>,
}

/// One inbound text. `sid` is the provider's identifier of the message and is
/// what duplicates are recognised by.
#[derive(Debug)]
pub struct TxtMessage {
    pub from: String,
    pub body: String,
    pub date_created: String,
    pub sid: String,
}

impl View for TxtMessage {
    type V = TxtMessageView;

    open spec fn view(&self) -> TxtMessageView {
        TxtMessageView {
            from: self.from@,
            body: self.body@,
            date_created: self.date_created@,
            sid: self.sid@,
        }
    }
}

impl Clone for TxtMessage {
    fn clone(&self) -> (copy: Self)
        ensures
            copy@ == self@,
    {
        TxtMessage {
            from: self.from.clone(),
            body: self.body.clone(),
            date_created: self.date_created.clone(),
            sid: self.sid.clone(),
        }
    }
}

/// The views of a list of messages, in order.
pub open spec fn message_views(messages: Seq<TxtMessage>) -> Seq<TxtMessageView> {
    messages.map_values(|m: TxtMessage| m@)
}

/// One page of the provider's message listing.
#[derive(Debug)]
pub struct TMessagesResponse {
    pub messages: Vec<TxtMessage>,
}

impl View for TMessagesResponse {
    type V = Seq<TxtMessageView>;

    open spec fn view(&self) -> Seq<TxtMessageView> {
        message_views(self.messages@)
    }
}

/// What a [`Notice`] is, as mathematical values.
pub struct NoticeView {
    pub to: Seq<char>,
    pub body: Seq<char>,
}

/// A text the engine wants delivered to one player.
#[derive(Debug)]
pub struct Notice {
    pub to: String,
    pub body: String,
}

impl View for Notice {
    type V = NoticeView;

    open spec fn view(&self) -> NoticeView {
        NoticeView { to: self.to@, body: self.body@ }
    }
}

/// The views of a list of notices, in order.
pub open spec fn notice_views(notices: Seq<Notice>) -> Seq<NoticeView> {
    notices.map_values(|n: Notice| n@)
}

impl Notice {
    /// A notice to `to` that carries `body`.
    pub fn new(to: &str, body: &str) -> (notice: Notice)
        ensures
            notice@ == (NoticeView { to: to@, body: body@ }),
    {
        Notice { to: to.to_owned(), body: body.to_owned() }
    }
}

} // verus!
