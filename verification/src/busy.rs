//! The set of players who are engaged in, or reserved for, a game.

use vstd::hash_set::StringHashSet;
use vstd::prelude::*;

verus! {

/// Whether a reservation of `id` is granted against `busy`: only a player who
/// is not busy can be reserved.
pub open spec fn grants(busy: Set<Seq<char>>, id: Seq<char>) -> bool {
    !busy.contains(id)
}

/// The busy set after an attempt to reserve `id`. Granted or not, the player
/// is busy afterwards.
pub open spec fn reserved(busy: Set<Seq<char>>, id: Seq<char>) -> Set<Seq<char>> {
    busy.insert(id)
}

/// The busy set after `id` is released.
pub open spec fn released(busy: Set<Seq<char>>, id: Seq<char>) -> Set<Seq<char>> {
    busy.remove(id)
}

/// One call on the busy set, by whichever caller.
pub enum BusyCall {
    /// An attempt to reserve the player.
    TryReserve(Seq<char>),
    /// The release of the player.
    Release(Seq<char>),
}

/// The busy set after one call.
pub open spec fn after_call(busy: Set<Seq<char>>, call: BusyCall) -> Set<Seq<char>> {
    match call {
        BusyCall::TryReserve(id) => reserved(busy, id),
        BusyCall::Release(id) => released(busy, id),
    }
}

/// The busy set after a run of calls, taken in order.
pub open spec fn after_calls(busy: Set<Seq<char>>, calls: Seq<BusyCall>) -> Set<Seq<char>>
    decreases calls.len(),
{
    if calls.len() == 0 {
        busy
    } else {
        after_call(after_calls(busy, calls.drop_last()), calls.last())
    }
}

/// Whether the call at position `at` of `calls` is an attempt to reserve that
/// is granted, on a set that was `busy` before the first call.
pub open spec fn granted_at(busy: Set<Seq<char>>, calls: Seq<BusyCall>, at: int) -> bool {
    calls[at] matches BusyCall::TryReserve(id) && grants(after_calls(busy, calls.take(at)), id)
}

/// A player someone tried to reserve stays busy until released.
proof fn lemma_held_until_released(
    busy: Set<Seq<char>>,
    calls: Seq<BusyCall>,
    first: int,
    upto: int,
    id: Seq<char>,
)
    requires
        0 <= first < upto <= calls.len(),
        calls[first] == BusyCall::TryReserve(id),
        forall|k: int| first < k < upto ==> calls[k] != BusyCall::Release(id),
    ensures
        after_calls(busy, calls.take(upto)).contains(id),
    decreases upto - first,
{
    assert(calls.take(upto).drop_last() =~= calls.take(upto - 1));
    assert(calls.take(upto).last() == calls[upto - 1]);
    if upto - 1 > first {
        lemma_held_until_released(busy, calls, first, upto - 1, id);
    }
}

/// No player is reserved twice. The calls on one busy set happen one after the
/// other, however many callers there are, since each call holds the set
/// exclusively. In any such run, once someone has tried to reserve a player,
/// no later attempt on that player is granted unless the player was released
/// in between.
pub proof fn lemma_no_double_reservation(
    busy: Set<Seq<char>>,
    calls: Seq<BusyCall>,
    first: int,
    second: int,
    id: Seq<char>,
)
    requires
        0 <= first < second < calls.len(),
        calls[first] == BusyCall::TryReserve(id),
        calls[second] == BusyCall::TryReserve(id),
        granted_at(busy, calls, second),
    ensures
        exists|k: int| first < k < second && #[trigger] calls[k] == BusyCall::Release(id),
{
    if forall|k: int| first < k < second ==> #[trigger] calls[k] != BusyCall::Release(id) {
        lemma_held_until_released(busy, calls, first, second, id);
    }
}

/// Releasing is idempotent: a second release of the same player changes
/// nothing, and neither does the release of a player who is not busy.
pub proof fn lemma_release_idempotent(busy: Set<Seq<char>>, id: Seq<char>)
    ensures
        released(released(busy, id), id) == released(busy, id),
        !busy.contains(id) ==> released(busy, id) == busy,
        !released(busy, id).contains(id),
{
    assert(released(released(busy, id), id) =~= released(busy, id));
    if !busy.contains(id) {
        assert(released(busy, id) =~= busy);
    }
}

/// Player identifiers that are currently reserved. A player is a member
/// exactly while one game holds a reservation for them.
pub struct BusyPlayers {
    ids: StringHashSet,
}

impl View for BusyPlayers {
    type V = Set<Seq<char>>;

    closed spec fn view(&self) -> Set<Seq<char>> {
        self.ids@
    }
}

impl BusyPlayers {
    /// A set in which nobody is busy.
    pub fn new() -> (busy: BusyPlayers)
        ensures
            busy@ == Set::<Seq<char>>::empty(),
    {
        BusyPlayers { ids: StringHashSet::new() }
    }

    /// Reserves `id` if it is free. The membership test and the insertion are
    /// one step on one exclusive borrow, so of two attempts on a free player
    /// exactly the first is granted.
    pub fn try_reserve(&mut self, id: &str) -> (granted: bool)
        ensures
            granted == grants(old(self)@, id@),
            final(self)@ == reserved(old(self)@, id@),
    {
        self.ids.insert(id.to_owned())
    }

    /// Ends the reservation of `id`. Releasing a player who is not busy changes
    /// nothing.
    pub fn release(&mut self, id: &str)
        ensures
            final(self)@ == released(old(self)@, id@),
    {
        self.ids.remove(id);
    }

    /// Whether `id` is busy.
    pub fn contains(&self, id: &str) -> (busy: bool)
        ensures
            busy == self@.contains(id@),
    {
        self.ids.contains(id)
    }
}

} // verus!
