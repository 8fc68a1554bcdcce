//! The inbound side: where the provider's message listing is found, and which
//! of the listed messages are new.
//!
//! The provider is polled again and again and lists old messages along with
//! new ones. A message counts as new if its identifier has not been seen, and
//! each new message is published to the listener registry once.

use crate::message::{message_views, TxtMessage, TxtMessageView};
use crate::registry::{published_all, ListenerRegistry};
use crate::text::join_text;
use vstd::hash_set::StringHashSet;
use vstd::prelude::*;

verus! {

/// The account the texts are sent from and fetched for.
#[derive(Debug)]
pub struct TwilioCreds {
    /// The account identifier.
    pub sid: String,
    /// The account secret.
    pub auth: String,
    /// The address texts are sent from, and to which players write.
    pub from: String,
}

impl Clone for TwilioCreds {
    fn clone(&self) -> (copy: Self)
        ensures
            copy.sid@ == self.sid@,
            copy.auth@ == self.auth@,
            copy.from@ == self.from@,
    {
        TwilioCreds { sid: self.sid.clone(), auth: self.auth.clone(), from: self.from.clone() }
    }
}

/// The address of the listing of the messages sent to `to` on the account
/// `account`.
pub open spec fn listing_url(account: Seq<char>, to: Seq<char>) -> Seq<char> {
    "https://api.twilio.com/2010-04-01/Accounts/"@ + account + "/Messages.json?To="@ + to
}

impl TwilioCreds {
    /// Where the inbound messages of this account are listed.
    pub fn messages_url(&self) -> (url: String)
        ensures
            url@ == listing_url(self.sid@, self.from@),
    {
        let account = join_text("https://api.twilio.com/2010-04-01/Accounts/", self.sid.as_str());
        let listing = join_text(account.as_str(), "/Messages.json?To=");
        join_text(listing.as_str(), self.from.as_str())
    }
}

/// The identifiers that occur in `messages`.
pub open spec fn sids_of(messages: Seq<TxtMessageView>) -> Set<Seq<char>> {
    Set::new(|sid: Seq<char>| exists|i: int| 0 <= i < messages.len() && #[trigger] messages[i].sid == sid)
}

/// The identifiers seen once `messages` have been looked at.
pub open spec fn seen_after(seen: Set<Seq<char>>, messages: Seq<TxtMessageView>) -> Set<Seq<char>> {
    seen.union(sids_of(messages))
}

/// The new messages among `messages`, in the order of the listing: those whose
/// identifier is neither in `seen` nor carried by an earlier message of the
/// listing.
pub open spec fn fresh(seen: Set<Seq<char>>, messages: Seq<TxtMessageView>) -> Seq<TxtMessageView>
    decreases messages.len(),
{
    if messages.len() == 0 {
        Seq::empty()
    } else {
        let earlier = messages.drop_last();
        let message = messages.last();
        if seen_after(seen, earlier).contains(message.sid) {
            fresh(seen, earlier)
        } else {
            fresh(seen, earlier).push(message)
        }
    }
}

/// Looking at one more message adds its identifier to what has been seen.
proof fn lemma_seen_grows(seen: Set<Seq<char>>, messages: Seq<TxtMessageView>, count: int)
    requires
        0 <= count < messages.len(),
    ensures
        messages.take(count + 1).drop_last() == messages.take(count),
        messages.take(count + 1).last() == messages[count],
        seen_after(seen, messages.take(count + 1)) == seen_after(
            seen,
            messages.take(count),
        ).insert(messages[count].sid),
{
    let shorter = messages.take(count);
    let longer = messages.take(count + 1);
    assert(longer.drop_last() =~= shorter);
    assert forall|sid: Seq<char>| sids_of(longer).contains(sid) == (sid == messages[count].sid
        || sids_of(shorter).contains(sid)) by {
        if sids_of(longer).contains(sid) {
            let i = choose|i: int| 0 <= i < longer.len() && #[trigger] longer[i].sid == sid;
            if i < count {
                assert(shorter[i].sid == sid);
            }
        }
        if sids_of(shorter).contains(sid) {
            let i = choose|i: int| 0 <= i < shorter.len() && #[trigger] shorter[i].sid == sid;
            assert(longer[i].sid == sid);
        }
        if sid == messages[count].sid {
            assert(longer[count].sid == sid);
        }
    }
    assert(seen_after(seen, longer) =~= seen_after(seen, shorter).insert(messages[count].sid));
}

/// No message is delivered twice. What comes out as new was not seen before,
/// no two of the new messages share an identifier, and a listing that has been
/// looked at holds nothing new when it is looked at again.
pub proof fn lemma_fresh_once(seen: Set<Seq<char>>, messages: Seq<TxtMessageView>)
    ensures
        forall|i: int|
            0 <= i < fresh(seen, messages).len() ==> !seen.contains(
                (#[trigger] fresh(seen, messages)[i]).sid,
            ) && sids_of(messages).contains(fresh(seen, messages)[i].sid),
        forall|i: int, j: int|
            0 <= i < j < fresh(seen, messages).len() ==> (#[trigger] fresh(seen, messages)[i]).sid
                != (#[trigger] fresh(seen, messages)[j]).sid,
        fresh(seen_after(seen, messages), messages) == Seq::<TxtMessageView>::empty(),
    decreases messages.len(),
{
    lemma_nothing_fresh(seen_after(seen, messages), messages);
    if messages.len() > 0 {
        let earlier = messages.drop_last();
        let message = messages.last();
        let before = fresh(seen, earlier);
        let now = fresh(seen, messages);
        lemma_fresh_once(seen, earlier);
        assert forall|sid: Seq<char>| sids_of(earlier).contains(sid) implies sids_of(
            messages,
        ).contains(sid) by {
            let i = choose|i: int| 0 <= i < earlier.len() && #[trigger] earlier[i].sid == sid;
            assert(messages[i].sid == sid);
        }
        assert(messages[messages.len() - 1].sid == message.sid);
        assert(sids_of(messages).contains(message.sid));
        assert forall|i: int| 0 <= i < now.len() implies !seen.contains((#[trigger] now[i]).sid)
            && sids_of(messages).contains(now[i].sid) by {
            if i < before.len() {
                assert(now[i] == before[i]);
                assert(sids_of(earlier).contains(before[i].sid));
            }
        }
        assert forall|i: int, j: int| 0 <= i < j < now.len() implies (#[trigger] now[i]).sid != (
        #[trigger] now[j]).sid by {
            assert(now[i] == before[i]);
            assert(sids_of(earlier).contains(before[i].sid));
            if j < before.len() {
                assert(now[j] == before[j]);
            }
        }
    }
}

/// A listing whose identifiers have all been seen holds nothing new.
proof fn lemma_nothing_fresh(seen: Set<Seq<char>>, messages: Seq<TxtMessageView>)
    requires
        sids_of(messages).subset_of(seen),
    ensures
        fresh(seen, messages) == Seq::<TxtMessageView>::empty(),
    decreases messages.len(),
{
    if messages.len() > 0 {
        let earlier = messages.drop_last();
        assert forall|sid: Seq<char>| sids_of(earlier).contains(sid) implies seen.contains(sid) by {
            let i = choose|i: int| 0 <= i < earlier.len() && #[trigger] earlier[i].sid == sid;
            assert(messages[i].sid == sid);
        }
        lemma_nothing_fresh(seen, earlier);
        assert(messages[messages.len() - 1].sid == messages.last().sid);
        assert(sids_of(messages).contains(messages.last().sid));
    }
}

/// The identifiers of the messages that have been seen.
pub struct SeenMessages {
    sids: StringHashSet,
}

impl View for SeenMessages {
    type V = Set<Seq<char>>;

    closed spec fn view(&self) -> Set<Seq<char>> {
        self.sids@
    }
}

impl SeenMessages {
    /// Nothing has been seen.
    pub fn new() -> (seen: SeenMessages)
        ensures
            seen@ == Set::<Seq<char>>::empty(),
    {
        SeenMessages { sids: StringHashSet::new() }
    }

    /// Whether the message with the identifier `sid` has been seen.
    pub fn contains(&self, sid: &str) -> (seen: bool)
        ensures
            seen == self@.contains(sid@),
    {
        self.sids.contains(sid)
    }

    /// Picks the new messages out of a listing, in its order, and counts the
    /// whole listing as seen.
    pub fn take_fresh(&mut self, messages: &Vec<TxtMessage>) -> (new_messages: Vec<TxtMessage>)
        ensures
            message_views(new_messages@) == fresh(old(self)@, message_views(messages@)),
            final(self)@ == seen_after(old(self)@, message_views(messages@)),
    {
        let ghost listing = message_views(messages@);
        let mut new_messages: Vec<TxtMessage> = Vec::new();
        let mut i: usize = 0;
        assert(message_views(new_messages@) =~= fresh(old(self)@, listing.take(0)));
        assert(self@ =~= seen_after(old(self)@, listing.take(0)));
        while i < messages.len()
            invariant
                i <= messages@.len(),
                listing == message_views(messages@),
                message_views(new_messages@) == fresh(old(self)@, listing.take(i as int)),
                self@ == seen_after(old(self)@, listing.take(i as int)),
            decreases messages@.len() - i,
        {
            let message = &messages[i];
            proof {
                lemma_seen_grows(old(self)@, listing, i as int);
            }
            if self.sids.insert(message.sid.clone()) {
                new_messages.push(message.clone());
                assert(message_views(new_messages@) =~= fresh(
                    old(self)@,
                    listing.take(i as int),
                ).push(message@));
            }
            i += 1;
        }
        assert(listing.take(i as int) =~= listing);
        new_messages
    }

    /// Counts a listing as seen without delivering any of it. This is how the
    /// messages that are already there at startup are passed over.
    pub fn mark_seen(&mut self, messages: &Vec<TxtMessage>)
        ensures
            final(self)@ == seen_after(old(self)@, message_views(messages@)),
    {
        let _ = self.take_fresh(messages);
    }

    /// One round of polling: publishes the new messages of a listing to every
    /// registered consumer, in the order of the listing, and returns them.
    pub fn broadcast_fresh(
        &mut self,
        messages: &Vec<TxtMessage>,
        registry: &mut ListenerRegistry,
    ) -> (new_messages: Vec<TxtMessage>)
        ensures
            message_views(new_messages@) == fresh(old(self)@, message_views(messages@)),
            final(self)@ == seen_after(old(self)@, message_views(messages@)),
            final(registry)@.inboxes == published_all(
                old(registry)@.inboxes,
                fresh(old(self)@, message_views(messages@)),
            ),
            final(registry)@.issued == old(registry)@.issued,
    {
        let new_messages = self.take_fresh(messages);
        let ghost sent = message_views(new_messages@);
        let mut i: usize = 0;
        while i < new_messages.len()
            invariant
                i <= new_messages@.len(),
                sent == message_views(new_messages@),
                registry@.inboxes == published_all(old(registry)@.inboxes, sent.take(i as int)),
                registry@.issued == old(registry)@.issued,
            decreases new_messages@.len() - i,
        {
            registry.publish(&new_messages[i]);
            proof {
                assert(sent.take(i + 1).drop_last() =~= sent.take(i as int));
                assert(sent.take(i + 1).last() == new_messages@[i as int]@);
            }
            i += 1;
        }
        assert(sent.take(i as int) =~= sent);
        new_messages
    }
}

} // verus!
