//! The subscriptions of one connection: the commands sent, and what the
//! exchange answered to each.

use vstd::prelude::*;
use super::KalshiChannel;
use crate::assoc::{
    assoc_map, distinct_keys, lemma_assoc_absent, lemma_assoc_at, lemma_assoc_insert,
    lemma_assoc_remove, lemma_assoc_update,
};
use crate::kalshi_error::SubscriptionError;

verus! {

/// The texts of a list of strings.
pub open spec fn texts(strings: Seq<String>) -> Seq<Seq<char>> {
    Seq::new(strings.len(), |i: int| strings[i]@)
}

/// Where a subscribe command stands.
#[derive(Debug, Clone, Copy, PartialEq, Eq, Structural)]
pub enum SubscriptionState {
    /// Sent and not answered yet.
    Pending,
    /// Acknowledged, under the subscription id that the exchange assigned.
    Confirmed { sid: u32 },
    /// Refused by the exchange with this code, or left without an answer
    /// when the connection was lost.
    Failed { code: Option<u32> },
    /// Ended, by an acknowledged unsubscribe or by the loss of the
    /// connection.
    Removed,
}

/// A command for the exchange. Its id is unique on the connection.
#[derive(Debug)]
pub enum KalshiCommand {
    Subscribe { id: u32, channel: KalshiChannel, market_tickers: Vec<String> },
    Unsubscribe { id: u32, sid: u32 },
}

/// What the registry knows of one subscribe command.
pub struct SubscriptionView {
    pub channel: KalshiChannel,
    pub market_tickers: Seq<Seq<char>>,
    pub state: SubscriptionState,
}

/// What the registry is, apart from how it is stored: the subscribe
/// commands by their ids, the unsubscribe commands still unanswered with the
/// subscription id of each, and the id that the next command gets.
pub struct RegistryState {
    pub subscriptions: Map<u32, SubscriptionView>,
    pub unsubscribes: Map<u32, u32>,
    pub next_id: u32,
}

impl RegistryState {
    /// The registry of a fresh connection. Ids start at one.
    pub open spec fn fresh() -> RegistryState {
        RegistryState { subscriptions: Map::empty(), unsubscribes: Map::empty(), next_id: 1 }
    }

    /// Whether another command can get an id.
    pub open spec fn has_id_left(self) -> bool {
        self.next_id < u32::MAX
    }

    /// Whether the subscribe command `id` awaits its answer.
    pub open spec fn is_pending(self, id: u32) -> bool {
        self.subscriptions.dom().contains(id) && self.subscriptions[id].state
            == SubscriptionState::Pending
    }

    /// Whether some subscription is confirmed under `sid`.
    pub open spec fn has_confirmed(self, sid: u32) -> bool {
        exists|id: u32| #[trigger]
            self.subscriptions.dom().contains(id) && self.subscriptions[id].state
                == (SubscriptionState::Confirmed { sid })
    }

    /// After a subscribe command was made: it is pending under the next id.
    pub open spec fn after_subscribe(
        self,
        channel: KalshiChannel,
        market_tickers: Seq<Seq<char>>,
    ) -> RegistryState {
        if self.has_id_left() {
            RegistryState {
                subscriptions: self.subscriptions.insert(
                    self.next_id,
                    SubscriptionView { channel, market_tickers, state: SubscriptionState::Pending },
                ),
                next_id: (self.next_id + 1) as u32,
                ..self
            }
        } else {
            self
        }
    }

    /// After the exchange acknowledged the subscribe command `id`: a
    /// pending command is confirmed under `sid`, and nothing else changes.
    pub open spec fn after_subscribed(self, id: u32, sid: u32) -> RegistryState {
        if self.is_pending(id) {
            RegistryState {
                subscriptions: self.subscriptions.insert(
                    id,
                    SubscriptionView {
                        state: SubscriptionState::Confirmed { sid },
                        ..self.subscriptions[id]
                    },
                ),
                ..self
            }
        } else {
            self
        }
    }

    /// After the exchange refused the command `id`: a pending subscribe
    /// command has failed with the code, an unanswered unsubscribe command
    /// is forgotten, and nothing else changes.
    pub open spec fn after_error(self, id: u32, code: u32) -> RegistryState {
        if self.is_pending(id) {
            RegistryState {
                subscriptions: self.subscriptions.insert(
                    id,
                    SubscriptionView {
                        state: SubscriptionState::Failed { code: Some(code) },
                        ..self.subscriptions[id]
                    },
                ),
                ..self
            }
        } else {
            RegistryState { unsubscribes: self.unsubscribes.remove(id), ..self }
        }
    }

    /// After an unsubscribe command was made for `sid`: it is unanswered
    /// under the next id. None is made for a `sid` that is not confirmed.
    pub open spec fn after_unsubscribe(self, sid: u32) -> RegistryState {
        if self.has_id_left() && self.has_confirmed(sid) {
            RegistryState {
                unsubscribes: self.unsubscribes.insert(self.next_id, sid),
                next_id: (self.next_id + 1) as u32,
                ..self
            }
        } else {
            self
        }
    }

    /// After the exchange acknowledged the end of `sid`: every subscription
    /// confirmed under it is removed, and the unsubscribe commands for it
    /// are answered.
    pub open spec fn after_unsubscribed(self, sid: u32) -> RegistryState {
        RegistryState {
            subscriptions: Map::new(
                |id: u32| self.subscriptions.dom().contains(id),
                |id: u32|
                    if self.subscriptions[id].state == (SubscriptionState::Confirmed { sid }) {
                        SubscriptionView {
                            state: SubscriptionState::Removed,
                            ..self.subscriptions[id]
                        }
                    } else {
                        self.subscriptions[id]
                    },
            ),
            unsubscribes: Map::new(
                |id: u32| self.unsubscribes.dom().contains(id) && self.unsubscribes[id] != sid,
                |id: u32| self.unsubscribes[id],
            ),
            ..self
        }
    }

    /// After the connection was lost: every confirmed subscription is
    /// removed, every pending one has failed without a code, and no
    /// unsubscribe command is awaited any more.
    pub open spec fn after_disconnect(self) -> RegistryState {
        RegistryState {
            subscriptions: Map::new(
                |id: u32| self.subscriptions.dom().contains(id),
                |id: u32| SubscriptionView {
                    state: state_after_disconnect(self.subscriptions[id].state),
                    ..self.subscriptions[id]
                },
            ),
            unsubscribes: Map::empty(),
            ..self
        }
    }
}

/// What the loss of the connection makes of a state.
pub open spec fn state_after_disconnect(state: SubscriptionState) -> SubscriptionState {
    match state {
        SubscriptionState::Pending => SubscriptionState::Failed { code: None },
        SubscriptionState::Confirmed { .. } => SubscriptionState::Removed,
        other => other,
    }
}

/// The states that a state can be followed by: a pending command is
/// confirmed or fails, a confirmed subscription is removed, and a failed or
/// removed one stays as it is.
pub open spec fn may_follow(before: SubscriptionState, after: SubscriptionState) -> bool {
    ||| after == before
    ||| before is Pending && (after is Confirmed || after is Failed)
    ||| before is Confirmed && after is Removed
}

#[derive(Debug)]
struct Subscription {
    command_id: u32,
    channel: KalshiChannel,
    market_tickers: Vec<String>,
    state: SubscriptionState,
}

impl Subscription {
    spec fn view(self) -> SubscriptionView {
        SubscriptionView {
            channel: self.channel,
            market_tickers: texts(self.market_tickers@),
            state: self.state,
        }
    }
}

/// Tracks the subscribe and unsubscribe commands of one connection.
#[derive(Debug)]
pub struct SubscriptionRegistry {
    next_id: u32,
    subscriptions: Vec<Subscription>,
    unsubscribes: Vec<(u32, u32)>,
}

spec fn entries(subscriptions: Seq<Subscription>) -> Seq<(u32, SubscriptionView)> {
    Seq::new(subscriptions.len(), |i: int| (subscriptions[i].command_id, subscriptions[i].view()))
}

impl View for SubscriptionRegistry {
    type V = RegistryState;

    closed spec fn view(&self) -> RegistryState {
        RegistryState {
            subscriptions: assoc_map(entries(self.subscriptions@)),
            unsubscribes: assoc_map(self.unsubscribes@),
            next_id: self.next_id,
        }
    }
}

fn clone_tickers(tickers: &Vec<String>) -> (out: Vec<String>)
    ensures
        texts(out@) == texts(tickers@),
{
    let mut out: Vec<String> = Vec::new();
    let mut i: usize = 0;
    while i < tickers.len()
        invariant
            i <= tickers@.len(),
            out@.len() == i,
            forall|j: int| 0 <= j < i ==> (#[trigger] out@[j])@ == tickers@[j]@,
        decreases tickers@.len() - i,
    {
        out.push(tickers[i].clone());
        i += 1;
    }
    assert(texts(out@) =~= texts(tickers@));
    out
}

impl SubscriptionRegistry {
    /// No command id is used twice, and every id in use lies below the next
    /// one.
    pub closed spec fn wf(&self) -> bool {
        &&& self.next_id >= 1
        &&& distinct_keys(entries(self.subscriptions@))
        &&& distinct_keys(self.unsubscribes@)
        &&& forall|i: int|
            0 <= i < self.subscriptions@.len() ==> (#[trigger] self.subscriptions@[i]).command_id
                < self.next_id
        &&& forall|i: int|
            0 <= i < self.unsubscribes@.len() ==> (#[trigger] self.unsubscribes@[i]).0
                < self.next_id
    }

    /// In a well-formed registry no command has the id that comes next.
    pub proof fn lemma_next_id_unused(&self)
        requires
            self.wf(),
        ensures
            !self@.subscriptions.dom().contains(self@.next_id),
            !self@.unsubscribes.dom().contains(self@.next_id),
    {
        lemma_assoc_absent(entries(self.subscriptions@), self.next_id);
        lemma_assoc_absent(self.unsubscribes@, self.next_id);
    }

    /// The registry of a fresh connection.
    pub fn new() -> (registry: SubscriptionRegistry)
        ensures
            registry.wf(),
            registry@ == RegistryState::fresh(),
    {
        let registry = SubscriptionRegistry {
            next_id: 1,
            subscriptions: Vec::new(),
            unsubscribes: Vec::new(),
        };
        assert(registry@.subscriptions =~= Map::<u32, SubscriptionView>::empty());
        assert(registry@.unsubscribes =~= Map::<u32, u32>::empty());
        registry
    }

    fn position(&self, id: u32) -> (found: Option<usize>)
        requires
            self.wf(),
        ensures
            match found {
                Some(i) => i < self.subscriptions@.len() && self.subscriptions@[i as int].command_id
                    == id && self@.subscriptions.contains_pair(
                    id,
                    self.subscriptions@[i as int].view(),
                ),
                None => !self@.subscriptions.dom().contains(id),
            },
    {
        let mut i: usize = 0;
        while i < self.subscriptions.len()
            invariant
                self.wf(),
                i <= self.subscriptions@.len(),
                forall|j: int| 0 <= j < i ==> (#[trigger] entries(self.subscriptions@)[j]).0 != id,
            decreases self.subscriptions@.len() - i,
        {
            if self.subscriptions[i].command_id == id {
                proof {
                    lemma_assoc_at(entries(self.subscriptions@), i as int);
                }
                return Some(i);
            }
            assert(entries(self.subscriptions@)[i as int].0 != id);
            i += 1;
        }
        proof {
            lemma_assoc_absent(entries(self.subscriptions@), id);
        }
        None
    }

    fn unsubscribe_position(&self, id: u32) -> (found: Option<usize>)
        requires
            self.wf(),
        ensures
            match found {
                Some(i) => i < self.unsubscribes@.len() && self.unsubscribes@[i as int].0 == id,
                None => !self@.unsubscribes.dom().contains(id),
            },
    {
        let mut i: usize = 0;
        while i < self.unsubscribes.len()
            invariant
                i <= self.unsubscribes@.len(),
                forall|j: int| 0 <= j < i ==> (#[trigger] self.unsubscribes@[j]).0 != id,
            decreases self.unsubscribes@.len() - i,
        {
            if self.unsubscribes[i].0 == id {
                return Some(i);
            }
            i += 1;
        }
        proof {
            lemma_assoc_absent(self.unsubscribes@, id);
        }
        None
    }

    /// The state of the subscribe command `id`, if there is such a command.
    pub fn state(&self, id: u32) -> (state: Option<SubscriptionState>)
        requires
            self.wf(),
        ensures
            state == (if self@.subscriptions.dom().contains(id) {
                Some(self@.subscriptions[id].state)
            } else {
                None
            }),
    {
        match self.position(id) {
            Some(i) => Some(self.subscriptions[i].state),
            None => None,
        }
    }

    /// Whether some subscription is confirmed under `sid`.
    pub fn is_confirmed(&self, sid: u32) -> (confirmed: bool)
        requires
            self.wf(),
        ensures
            confirmed == self@.has_confirmed(sid),
    {
        let mut i: usize = 0;
        while i < self.subscriptions.len()
            invariant
                self.wf(),
                i <= self.subscriptions@.len(),
                forall|j: int|
                    0 <= j < i ==> (#[trigger] self.subscriptions@[j]).state != (
                    SubscriptionState::Confirmed { sid }),
            decreases self.subscriptions@.len() - i,
        {
            if self.subscriptions[i].state == (SubscriptionState::Confirmed { sid }) {
                proof {
                    lemma_assoc_at(entries(self.subscriptions@), i as int);
                    assert(self@.subscriptions.dom().contains(
                        self.subscriptions@[i as int].command_id,
                    ));
                }
                return true;
            }
            i += 1;
        }
        proof {
            let e = entries(self.subscriptions@);
            if self@.has_confirmed(sid) {
                let id = choose|id: u32| #[trigger]
                    self@.subscriptions.dom().contains(id) && self@.subscriptions[id].state == (
                    SubscriptionState::Confirmed { sid });
                let j = choose|j: int| 0 <= j < e.len() && (#[trigger] e[j]).0 == id;
                lemma_assoc_at(e, j);
                assert(self.subscriptions@[j].state != (SubscriptionState::Confirmed { sid }));
            }
        }
        false
    }

    /// The channel and the markets of a subscription confirmed under `sid`;
    /// nothing where none is confirmed under it.
    pub fn confirmed(&self, sid: u32) -> (found: Option<(KalshiChannel, Vec<String>)>)
        requires
            self.wf(),
        ensures
            found is Some == self@.has_confirmed(sid),
            match found {
                Some((channel, markets)) => exists|id: u32| #[trigger]
                    self@.subscriptions.dom().contains(id) && self@.subscriptions[id]
                        == (SubscriptionView {
                        channel,
                        market_tickers: texts(markets@),
                        state: SubscriptionState::Confirmed { sid },
                    }),
                None => true,
            },
    {
        let mut i: usize = 0;
        while i < self.subscriptions.len()
            invariant
                self.wf(),
                i <= self.subscriptions@.len(),
                forall|j: int|
                    0 <= j < i ==> (#[trigger] self.subscriptions@[j]).state != (
                    SubscriptionState::Confirmed { sid }),
            decreases self.subscriptions@.len() - i,
        {
            if self.subscriptions[i].state == (SubscriptionState::Confirmed { sid }) {
                let channel = self.subscriptions[i].channel;
                let markets = clone_tickers(&self.subscriptions[i].market_tickers);
                proof {
                    lemma_assoc_at(entries(self.subscriptions@), i as int);
                    let id = self.subscriptions@[i as int].command_id;
                    assert(self@.subscriptions.dom().contains(id));
                    assert(self@.subscriptions[id] == self.subscriptions@[i as int].view());
                }
                return Some((channel, markets));
            }
            i += 1;
        }
        proof {
            let e = entries(self.subscriptions@);
            if self@.has_confirmed(sid) {
                let id = choose|id: u32| #[trigger]
                    self@.subscriptions.dom().contains(id) && self@.subscriptions[id].state == (
                    SubscriptionState::Confirmed { sid });
                let j = choose|j: int| 0 <= j < e.len() && (#[trigger] e[j]).0 == id;
                lemma_assoc_at(e, j);
                assert(self.subscriptions@[j].state != (SubscriptionState::Confirmed { sid }));
            }
        }
        None
    }

    /// Makes a subscribe command for `channel` and the markets given, and
    /// keeps it as pending under a new id. Nothing is made once the ids have
    /// run out.
    pub fn subscribe(
        &mut self,
        channel: KalshiChannel,
        market_tickers: Vec<String>,
    ) -> (command: Option<KalshiCommand>)
        requires
            old(self).wf(),
        ensures
            final(self).wf(),
            final(self)@ == old(self)@.after_subscribe(channel, texts(market_tickers@)),
            match command {
                Some(KalshiCommand::Subscribe { id, channel: sent, market_tickers: markets }) => {
                    &&& old(self)@.has_id_left()
                    &&& id == old(self)@.next_id
                    &&& sent == channel
                    &&& texts(markets@) == texts(market_tickers@)
                },
                Some(_) => false,
                None => !old(self)@.has_id_left(),
            },
    {
        if self.next_id == u32::MAX {
            return None;
        }
        let id = self.next_id;
        let sent = clone_tickers(&market_tickers);
        let ghost before = entries(self.subscriptions@);
        let entry = Subscription {
            command_id: id,
            channel,
            market_tickers,
            state: SubscriptionState::Pending,
        };
        proof {
            lemma_assoc_insert(before, before.len() as int, id, entry.view());
        }
        self.subscriptions.push(entry);
        self.next_id = id + 1;
        assert(entries(self.subscriptions@) =~= before.insert(
            before.len() as int,
            (id, entry.view()),
        ));
        Some(KalshiCommand::Subscribe { id, channel, market_tickers: sent })
    }

    /// Takes the acknowledgment of the subscribe command `id`: a pending
    /// command becomes confirmed under `sid`. The channel and the markets of
    /// the command are handed back; nothing is, and nothing changes, where
    /// no pending command has that id.
    pub fn on_subscribed(&mut self, id: u32, sid: u32) -> (confirmed: Option<
        (KalshiChannel, Vec<String>),
    >)
        requires
            old(self).wf(),
        ensures
            final(self).wf(),
            final(self)@ == old(self)@.after_subscribed(id, sid),
            match confirmed {
                Some((channel, markets)) => {
                    &&& old(self)@.is_pending(id)
                    &&& channel == old(self)@.subscriptions[id].channel
                    &&& texts(markets@) == old(self)@.subscriptions[id].market_tickers
                },
                None => !old(self)@.is_pending(id),
            },
    {
        match self.position(id) {
            Some(i) => {
                if self.subscriptions[i].state == SubscriptionState::Pending {
                    let ghost before = entries(self.subscriptions@);
                    let channel = self.subscriptions[i].channel;
                    let markets = clone_tickers(&self.subscriptions[i].market_tickers);
                    self.subscriptions[i].state = SubscriptionState::Confirmed { sid };
                    proof {
                        lemma_assoc_update(before, i as int, self.subscriptions@[i as int].view());
                        assert(entries(self.subscriptions@) =~= before.update(
                            i as int,
                            (id, self.subscriptions@[i as int].view()),
                        ));
                    }
                    Some((channel, markets))
                } else {
                    None
                }
            },
            None => None,
        }
    }

    /// Takes the exchange's refusal of the command `id`. A pending subscribe
    /// command fails with the code, an unanswered unsubscribe command is
    /// forgotten, and either is reported as a subscription error with the
    /// exchange's code and message. A refusal that names no such command
    /// changes nothing and is handed back as it came.
    pub fn on_error(
        &mut self,
        id: u32,
        code: u32,
        msg: String,
    ) -> (r: Result<SubscriptionError, String>)
        requires
            old(self).wf(),
        ensures
            final(self).wf(),
            final(self)@ == old(self)@.after_error(id, code),
            match r {
                Ok(error) => {
                    &&& old(self)@.is_pending(id) || old(self)@.unsubscribes.dom().contains(id)
                    &&& error.command_id == id
                    &&& error.code == code
                    &&& error.msg == msg
                },
                Err(returned) => {
                    &&& !old(self)@.is_pending(id)
                    &&& !old(self)@.unsubscribes.dom().contains(id)
                    &&& returned == msg
                },
            },
    {
        match self.position(id) {
            Some(i) => {
                if self.subscriptions[i].state == SubscriptionState::Pending {
                    let ghost before = entries(self.subscriptions@);
                    self.subscriptions[i].state = SubscriptionState::Failed { code: Some(code) };
                    proof {
                        lemma_assoc_update(before, i as int, self.subscriptions@[i as int].view());
                        assert(entries(self.subscriptions@) =~= before.update(
                            i as int,
                            (id, self.subscriptions@[i as int].view()),
                        ));
                    }
                    return Ok(SubscriptionError { command_id: id, code, msg });
                }
            },
            None => {},
        }
        match self.unsubscribe_position(id) {
            Some(i) => {
                proof {
                    lemma_assoc_at(self.unsubscribes@, i as int);
                    lemma_assoc_remove(self.unsubscribes@, i as int);
                }
                self.unsubscribes.remove(i);
                Ok(SubscriptionError { command_id: id, code, msg })
            },
            None => {
                assert(self@.unsubscribes.remove(id) =~= self@.unsubscribes);
                Err(msg)
            },
        }
    }

    /// Makes an unsubscribe command for `sid` and keeps it as unanswered
    /// under a new id. Nothing is made for a `sid` that is not confirmed, nor
    /// once the ids have run out.
    pub fn unsubscribe(&mut self, sid: u32) -> (command: Option<KalshiCommand>)
        requires
            old(self).wf(),
        ensures
            final(self).wf(),
            final(self)@ == old(self)@.after_unsubscribe(sid),
            match command {
                Some(KalshiCommand::Unsubscribe { id, sid: sent }) => {
                    &&& old(self)@.has_id_left()
                    &&& old(self)@.has_confirmed(sid)
                    &&& id == old(self)@.next_id
                    &&& sent == sid
                },
                Some(_) => false,
                None => !(old(self)@.has_id_left() && old(self)@.has_confirmed(sid)),
            },
    {
        if self.next_id == u32::MAX || !self.is_confirmed(sid) {
            return None;
        }
        let id = self.next_id;
        proof {
            lemma_assoc_insert(self.unsubscribes@, self.unsubscribes@.len() as int, id, sid);
        }
        self.unsubscribes.push((id, sid));
        self.next_id = id + 1;
        assert(self.unsubscribes@ =~= old(self).unsubscribes@.insert(
            old(self).unsubscribes@.len() as int,
            (id, sid),
        ));
        Some(KalshiCommand::Unsubscribe { id, sid })
    }

    /// Takes the acknowledgment that the subscription `sid` has ended: every
    /// subscription confirmed under it is removed, and the unsubscribe
    /// commands for it count as answered. Whether any subscription was
    /// removed is handed back.
    pub fn on_unsubscribed(&mut self, sid: u32) -> (removed: bool)
        requires
            old(self).wf(),
        ensures
            final(self).wf(),
            final(self)@ == old(self)@.after_unsubscribed(sid),
            removed == old(self)@.has_confirmed(sid),
    {
        let removed = self.is_confirmed(sid);
        let n = self.subscriptions.len();
        let mut i: usize = 0;
        while i < n
            invariant
                self.wf(),
                i <= n,
                n == self.subscriptions@.len(),
                n == old(self).subscriptions@.len(),
                self.next_id == old(self).next_id,
                self.unsubscribes@ == old(self).unsubscribes@,
                forall|j: int|
                    0 <= j < n ==> (#[trigger] self.subscriptions@[j]).command_id == old(
                        self,
                    ).subscriptions@[j].command_id,
                forall|j: int|
                    0 <= j < i ==> (#[trigger] self.subscriptions@[j]).view() == (if old(
                        self,
                    ).subscriptions@[j].state == (SubscriptionState::Confirmed { sid }) {
                        SubscriptionView {
                            state: SubscriptionState::Removed,
                            ..old(self).subscriptions@[j].view()
                        }
                    } else {
                        old(self).subscriptions@[j].view()
                    }),
                forall|j: int|
                    i <= j < n ==> (#[trigger] self.subscriptions@[j]).view() == old(
                        self,
                    ).subscriptions@[j].view(),
            decreases n - i,
        {
            if self.subscriptions[i].state == (SubscriptionState::Confirmed { sid }) {
                let ghost before = entries(self.subscriptions@);
                self.subscriptions[i].state = SubscriptionState::Removed;
                proof {
                    lemma_assoc_update(before, i as int, self.subscriptions@[i as int].view());
                    assert(entries(self.subscriptions@) =~= before.update(
                        i as int,
                        (before[i as int].0, self.subscriptions@[i as int].view()),
                    ));
                }
            }
            i += 1;
        }
        proof {
            let e = entries(self.subscriptions@);
            let e0 = entries(old(self).subscriptions@);
            let goal = old(self)@.after_unsubscribed(sid).subscriptions;
            assert forall|id: u32| self@.subscriptions.dom().contains(id) <==> goal.dom().contains(
                id,
            ) by {
                if self@.subscriptions.dom().contains(id) {
                    let j = choose|j: int| 0 <= j < e.len() && (#[trigger] e[j]).0 == id;
                    assert(e0[j].0 == id);
                }
                if goal.dom().contains(id) {
                    let j = choose|j: int| 0 <= j < e0.len() && (#[trigger] e0[j]).0 == id;
                    assert(e[j].0 == id);
                }
            }
            assert forall|id: u32| self@.subscriptions.dom().contains(id) implies
                self@.subscriptions[id] == goal[id] by {
                let j = choose|j: int| 0 <= j < e.len() && (#[trigger] e[j]).0 == id;
                lemma_assoc_at(e, j);
                assert(e0[j].0 == id);
                lemma_assoc_at(e0, j);
            }
            assert(self@.subscriptions =~= goal);
        }
        let mut k: usize = 0;
        while k < self.unsubscribes.len()
            invariant
                self.wf(),
                k <= self.unsubscribes@.len(),
                self.next_id == old(self).next_id,
                self@.subscriptions == old(self)@.after_unsubscribed(sid).subscriptions,
                forall|j: int| 0 <= j < k ==> (#[trigger] self.unsubscribes@[j]).1 != sid,
                old(self)@.after_unsubscribed(sid).unsubscribes == Map::new(
                    |id: u32| self@.unsubscribes.dom().contains(id)
                        && self@.unsubscribes[id] != sid,
                    |id: u32| self@.unsubscribes[id],
                ),
            decreases self.unsubscribes@.len() - k,
        {
            if self.unsubscribes[k].1 == sid {
                let ghost before = self.unsubscribes@;
                proof {
                    lemma_assoc_at(before, k as int);
                    lemma_assoc_remove(before, k as int);
                }
                self.unsubscribes.remove(k);
                assert(Map::new(
                    |id: u32| self@.unsubscribes.dom().contains(id)
                        && self@.unsubscribes[id] != sid,
                    |id: u32| self@.unsubscribes[id],
                ) =~= Map::new(
                    |id: u32| assoc_map(before).dom().contains(id) && assoc_map(before)[id] != sid,
                    |id: u32| assoc_map(before)[id],
                ));
            } else {
                k += 1;
            }
        }
        proof {
            let u = self.unsubscribes@;
            assert forall|id: u32| self@.unsubscribes.dom().contains(id) implies
                self@.unsubscribes[id] != sid by {
                let j = choose|j: int| 0 <= j < u.len() && (#[trigger] u[j]).0 == id;
                lemma_assoc_at(u, j);
            }
            assert(self@.unsubscribes =~= old(self)@.after_unsubscribed(sid).unsubscribes);
        }
        removed
    }

    /// Takes the loss of the connection: every confirmed subscription is
    /// removed, every pending command has failed, and no unsubscribe command
    /// is awaited any more.
    pub fn on_disconnect(&mut self)
        requires
            old(self).wf(),
        ensures
            final(self).wf(),
            final(self)@ == old(self)@.after_disconnect(),
    {
        let n = self.subscriptions.len();
        let mut i: usize = 0;
        while i < n
            invariant
                self.wf(),
                i <= n,
                n == self.subscriptions@.len(),
                n == old(self).subscriptions@.len(),
                self.next_id == old(self).next_id,
                forall|j: int|
                    0 <= j < n ==> (#[trigger] self.subscriptions@[j]).command_id == old(
                        self,
                    ).subscriptions@[j].command_id,
                forall|j: int|
                    0 <= j < i ==> (#[trigger] self.subscriptions@[j]).view() == (SubscriptionView {
                        state: state_after_disconnect(old(self).subscriptions@[j].state),
                        ..old(self).subscriptions@[j].view()
                    }),
                forall|j: int|
                    i <= j < n ==> (#[trigger] self.subscriptions@[j]).view() == old(
                        self,
                    ).subscriptions@[j].view(),
            decreases n - i,
        {
            let ghost before = entries(self.subscriptions@);
            let next = match self.subscriptions[i].state {
                SubscriptionState::Pending => SubscriptionState::Failed { code: None },
                SubscriptionState::Confirmed { .. } => SubscriptionState::Removed,
                other => other,
            };
            self.subscriptions[i].state = next;
            proof {
                lemma_assoc_update(before, i as int, self.subscriptions@[i as int].view());
                assert(entries(self.subscriptions@) =~= before.update(
                    i as int,
                    (before[i as int].0, self.subscriptions@[i as int].view()),
                ));
            }
            i += 1;
        }
        self.unsubscribes = Vec::new();
        proof {
            let e = entries(self.subscriptions@);
            let e0 = entries(old(self).subscriptions@);
            let goal = old(self)@.after_disconnect().subscriptions;
            assert forall|id: u32| self@.subscriptions.dom().contains(id) <==> goal.dom().contains(
                id,
            ) by {
                if self@.subscriptions.dom().contains(id) {
                    let j = choose|j: int| 0 <= j < e.len() && (#[trigger] e[j]).0 == id;
                    assert(e0[j].0 == id);
                }
                if goal.dom().contains(id) {
                    let j = choose|j: int| 0 <= j < e0.len() && (#[trigger] e0[j]).0 == id;
                    assert(e[j].0 == id);
                }
            }
            assert forall|id: u32| self@.subscriptions.dom().contains(id) implies
                self@.subscriptions[id] == goal[id] by {
                let j = choose|j: int| 0 <= j < e.len() && (#[trigger] e[j]).0 == id;
                lemma_assoc_at(e, j);
                assert(e0[j].0 == id);
                lemma_assoc_at(e0, j);
            }
            assert(self@.subscriptions =~= goal);
            assert(self@.unsubscribes =~= Map::<u32, u32>::empty());
        }
    }
}

/// What a registry can turn into by one step.
pub open spec fn steps_to(before: RegistryState, after: RegistryState) -> bool {
    ||| exists|channel: KalshiChannel, market_tickers: Seq<Seq<char>>|
        after == #[trigger] before.after_subscribe(channel, market_tickers)
    ||| exists|id: u32, sid: u32| after == #[trigger] before.after_subscribed(id, sid)
    ||| exists|id: u32, code: u32| after == #[trigger] before.after_error(id, code)
    ||| exists|sid: u32| after == #[trigger] before.after_unsubscribe(sid)
    ||| exists|sid: u32| after == #[trigger] before.after_unsubscribed(sid)
    ||| after == before.after_disconnect()
}

/// Whatever step a registry takes, every command it knew is still known,
/// for the same channel and markets, in a state that may follow the one it
/// was in: pending to confirmed or failed, confirmed to removed, and failed
/// and removed for good. A command is new only under the id that came next.
pub proof fn lemma_states_follow(before: RegistryState, after: RegistryState, id: u32)
    requires
        steps_to(before, after),
        !before.subscriptions.dom().contains(before.next_id),
    ensures
        before.subscriptions.dom().contains(id) ==> {
            &&& after.subscriptions.dom().contains(id)
            &&& after.subscriptions[id].channel == before.subscriptions[id].channel
            &&& after.subscriptions[id].market_tickers == before.subscriptions[id].market_tickers
            &&& may_follow(before.subscriptions[id].state, after.subscriptions[id].state)
        },
        after.subscriptions.dom().contains(id) && !before.subscriptions.dom().contains(id) ==> {
            &&& id == before.next_id
            &&& after.subscriptions[id].state is Pending
        },
{
}

} // verus!
