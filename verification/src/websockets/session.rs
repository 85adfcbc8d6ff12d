//! One real-time connection: every inbound message, in the order of its
//! arrival, moves the subscriptions and the books one step.

use vstd::prelude::*;
use super::decoder::{decode, decoded};
use super::orderbook::{snapshot_acceptable, BookState, ResyncReason};
use super::reconciler::{
    book_of, books_after_delta, books_after_snapshot, delta_of, all_stale, side_levels,
    without_subscription, BookKey, OrderBookReconciler, Resync,
};
use super::registry::{texts, KalshiCommand, RegistryState, SubscriptionRegistry};
use super::responses::{KalshiOrderbookErrorMessage, KalshiWebsocketResponse};
use super::KalshiChannel;
use crate::json::json_parse;
use crate::kalshi_error::{DecodeError, SubscriptionError};

verus! {

/// What a connection is, apart from how it is stored.
pub struct SessionState {
    pub registry: RegistryState,
    pub books: Map<BookKey, BookState>,
}

/// What one inbound message meant.
#[derive(Debug)]
pub enum SessionEvent {
    /// A snapshot or a delta went into the book of this market.
    BookUpdated { sid: u32, market_ticker: String, seq: u32 },
    /// A book has lost step with the exchange: a fresh snapshot must be
    /// asked for.
    Resync(Resync),
    /// The exchange confirmed a subscribe command.
    Subscribed { command_id: u32, sid: u32, channel: KalshiChannel },
    /// The exchange refused a command.
    SubscriptionFailed(SubscriptionError),
    /// The exchange confirmed the end of a subscription.
    Unsubscribed { sid: u32 },
    /// Any other message, handed on as it came.
    Message(KalshiWebsocketResponse),
}

/// The books with one that awaits its snapshot for each of `tickers` under
/// `sid`.
pub open spec fn expecting(
    books: Map<BookKey, BookState>,
    sid: u32,
    tickers: Seq<Seq<char>>,
) -> Map<
    BookKey,
    BookState,
>
    decreases tickers.len(),
{
    if tickers.len() == 0 {
        books
    } else {
        expecting(books, sid, tickers.drop_last()).insert(
            (sid, tickers.last()),
            BookState::awaiting(),
        )
    }
}

impl SessionState {
    /// The state of a fresh connection.
    pub open spec fn fresh() -> SessionState {
        SessionState { registry: RegistryState::fresh(), books: Map::empty() }
    }

    /// The state after one inbound message. Snapshots and deltas go to the
    /// books; an acknowledged subscribe command is confirmed, and on the
    /// order-book channel each of its markets gets a book that awaits its
    /// snapshot; an acknowledged unsubscribe removes the subscription and
    /// its books; a refusal fails the command it names. Every other message
    /// leaves the state as it is.
    pub open spec fn after_message(self, message: KalshiWebsocketResponse) -> SessionState {
        match message {
            KalshiWebsocketResponse::OrderbookSnapshot { sid, seq, msg } => SessionState {
                books: books_after_snapshot(self.books, sid, seq, msg),
                ..self
            },
            KalshiWebsocketResponse::OrderbookDelta { sid, seq, msg } => SessionState {
                books: books_after_delta(self.books, sid, seq, msg),
                ..self
            },
            KalshiWebsocketResponse::Subscribed { id: Some(id), msg } => {
                if self.registry.is_pending(id) {
                    SessionState {
                        registry: self.registry.after_subscribed(id, msg.sid),
                        books: if self.registry.subscriptions[id].channel
                            == KalshiChannel::OrderbookDelta {
                            expecting(
                                self.books,
                                msg.sid,
                                self.registry.subscriptions[id].market_tickers,
                            )
                        } else {
                            self.books
                        },
                    }
                } else {
                    self
                }
            },
            KalshiWebsocketResponse::Unsubscribed { sid } => SessionState {
                registry: self.registry.after_unsubscribed(sid),
                books: without_subscription(self.books, sid),
            },
            KalshiWebsocketResponse::Error { id: Some(id), msg } => SessionState {
                registry: self.registry.after_error(id, msg.code),
                ..self
            },
            _ => self,
        }
    }

    /// The state after the connection was lost: no subscription is live and
    /// no book is to be used.
    pub open spec fn after_disconnect(self) -> SessionState {
        SessionState { registry: self.registry.after_disconnect(), books: all_stale(self.books) }
    }

    /// Whether `event` is what `message` means in this state.
    pub open spec fn reports(self, message: KalshiWebsocketResponse, event: SessionEvent) -> bool {
        match message {
            KalshiWebsocketResponse::OrderbookSnapshot { sid, seq, msg } => if snapshot_acceptable(
                side_levels(msg.yes),
                side_levels(msg.no),
            ) {
                event matches SessionEvent::BookUpdated { sid: s, market_ticker, seq: q } && s
                    == sid && q == seq && market_ticker@ == msg.market_ticker@
            } else {
                event matches SessionEvent::Resync(resync) && resync.sid == sid && resync.seq == seq
                    && resync.market_ticker@ == msg.market_ticker@ && resync.reason
                    == ResyncReason::NegativeQuantity
            },
            KalshiWebsocketResponse::OrderbookDelta { sid, seq, msg } => match book_of(
                self.books,
                (sid, msg.market_ticker@),
            ).refusal(delta_of(seq, msg)) {
                None => event matches SessionEvent::BookUpdated { sid: s, market_ticker, seq: q }
                    && s == sid && q == seq && market_ticker@ == msg.market_ticker@,
                Some(reason) => event matches SessionEvent::Resync(resync) && resync.sid == sid
                    && resync.seq == seq && resync.market_ticker@ == msg.market_ticker@
                    && resync.reason == reason,
            },
            KalshiWebsocketResponse::Subscribed { id: Some(id), msg } => {
                if self.registry.is_pending(id) {
                    event matches SessionEvent::Subscribed { command_id, sid, channel }
                        && command_id == id && sid == msg.sid
                        && channel == self.registry.subscriptions[id].channel
                } else {
                    event matches SessionEvent::Message(m) && m == message
                }
            },
            KalshiWebsocketResponse::Unsubscribed { sid } => {
                event matches SessionEvent::Unsubscribed { sid: s } && s == sid
            },
            KalshiWebsocketResponse::Error { id: Some(id), msg } => if self.registry.is_pending(id)
                || self.registry.unsubscribes.dom().contains(id) {
                event matches SessionEvent::SubscriptionFailed(error) && error.command_id == id
                    && error.code == msg.code && error.msg@ == msg.msg@
            } else {
                event matches SessionEvent::Message(m) && m == message
            },
            _ => event matches SessionEvent::Message(m) && m == message,
        }
    }
}

/// One real-time connection: its subscriptions and its books.
#[derive(Debug)]
pub struct Session {
    registry: SubscriptionRegistry,
    reconciler: OrderBookReconciler,
}

impl View for Session {
    type V = SessionState;

    closed spec fn view(&self) -> SessionState {
        SessionState { registry: self.registry@, books: self.reconciler@ }
    }
}

impl Session {
    pub closed spec fn wf(&self) -> bool {
        self.registry.wf() && self.reconciler.wf()
    }

    /// A fresh connection: no subscription and no book.
    pub fn new() -> (session: Session)
        ensures
            session.wf(),
            session@ == SessionState::fresh(),
    {
        Session { registry: SubscriptionRegistry::new(), reconciler: OrderBookReconciler::new() }
    }

    /// Makes the command that subscribes to `channel` for the markets
    /// given, and awaits its answer.
    pub fn subscribe(
        &mut self,
        channel: KalshiChannel,
        market_tickers: Vec<String>,
    ) -> (command: Option<KalshiCommand>)
        requires
            old(self).wf(),
        ensures
            final(self).wf(),
            final(self)@.books == old(self)@.books,
            final(self)@.registry == old(self)@.registry.after_subscribe(
                channel,
                texts(market_tickers@),
            ),
            match command {
                Some(KalshiCommand::Subscribe { id, channel: sent, market_tickers: markets }) => {
                    &&& old(self)@.registry.has_id_left()
                    &&& id == old(self)@.registry.next_id
                    &&& sent == channel
                    &&& texts(markets@) == texts(market_tickers@)
                },
                Some(_) => false,
                None => !old(self)@.registry.has_id_left(),
            },
    {
        self.registry.subscribe(channel, market_tickers)
    }

    /// Makes the command that ends the subscription `sid`, and awaits its
    /// answer. The books stay until the exchange confirms.
    pub fn unsubscribe(&mut self, sid: u32) -> (command: Option<KalshiCommand>)
        requires
            old(self).wf(),
        ensures
            final(self).wf(),
            final(self)@.books == old(self)@.books,
            final(self)@.registry == old(self)@.registry.after_unsubscribe(sid),
            match command {
                Some(KalshiCommand::Unsubscribe { id, sid: sent }) => {
                    &&& old(self)@.registry.has_id_left()
                    &&& old(self)@.registry.has_confirmed(sid)
                    &&& id == old(self)@.registry.next_id
                    &&& sent == sid
                },
                Some(_) => false,
                None => !(old(self)@.registry.has_id_left() && old(self)@.registry.has_confirmed(
                    sid,
                )),
            },
    {
        self.registry.unsubscribe(sid)
    }

    fn expect_snapshots(&mut self, sid: u32, market_tickers: &Vec<String>)
        requires
            old(self).wf(),
        ensures
            final(self).wf(),
            final(self)@.registry == old(self)@.registry,
            final(self)@.books == expecting(old(self)@.books, sid, texts(market_tickers@)),
    {
        let mut i: usize = 0;
        while i < market_tickers.len()
            invariant
                self.wf(),
                i <= market_tickers@.len(),
                self@.registry == old(self)@.registry,
                self@.books == expecting(
                    old(self)@.books,
                    sid,
                    texts(market_tickers@).take(i as int),
                ),
            decreases market_tickers@.len() - i,
        {
            proof {
                let next = texts(market_tickers@).take(i + 1);
                assert(next.drop_last() =~= texts(market_tickers@).take(i as int));
                assert(next.last() == market_tickers@[i as int]@);
            }
            self.reconciler.expect_snapshot(sid, &market_tickers[i]);
            i += 1;
        }
        assert(texts(market_tickers@).take(i as int) =~= texts(market_tickers@));
    }

    /// Takes one inbound message. Messages must be handed over in the order
    /// in which they arrived.
    pub fn handle_message(&mut self, message: KalshiWebsocketResponse) -> (event: SessionEvent)
        requires
            old(self).wf(),
        ensures
            final(self).wf(),
            final(self)@ == old(self)@.after_message(message),
            old(self)@.reports(message, event),
    {
        match message {
            KalshiWebsocketResponse::OrderbookSnapshot { sid, seq, msg } => {
                match self.reconciler.on_snapshot(sid, seq, &msg) {
                    Ok(()) => SessionEvent::BookUpdated {
                        sid,
                        market_ticker: msg.market_ticker,
                        seq,
                    },
                    Err(resync) => SessionEvent::Resync(resync),
                }
            },
            KalshiWebsocketResponse::OrderbookDelta { sid, seq, msg } => {
                match self.reconciler.on_delta(sid, seq, &msg) {
                    Ok(()) => SessionEvent::BookUpdated {
                        sid,
                        market_ticker: msg.market_ticker,
                        seq,
                    },
                    Err(resync) => SessionEvent::Resync(resync),
                }
            },
            KalshiWebsocketResponse::Subscribed { id: Some(id), msg } => {
                match self.registry.on_subscribed(id, msg.sid) {
                    Some((channel, market_tickers)) => {
                        if channel == KalshiChannel::OrderbookDelta {
                            self.expect_snapshots(msg.sid, &market_tickers);
                        }
                        SessionEvent::Subscribed { command_id: id, sid: msg.sid, channel }
                    },
                    None => SessionEvent::Message(
                        KalshiWebsocketResponse::Subscribed { id: Some(id), msg },
                    ),
                }
            },
            KalshiWebsocketResponse::Unsubscribed { sid } => {
                self.registry.on_unsubscribed(sid);
                self.reconciler.discard_subscription(sid);
                SessionEvent::Unsubscribed { sid }
            },
            KalshiWebsocketResponse::Error { id: Some(id), msg } => {
                let KalshiOrderbookErrorMessage { code, msg: text, market_id, market_ticker } = msg;
                match self.registry.on_error(id, code, text) {
                    Ok(error) => SessionEvent::SubscriptionFailed(error),
                    Err(text) => SessionEvent::Message(
                        KalshiWebsocketResponse::Error {
                            id: Some(id),
                            msg: KalshiOrderbookErrorMessage {
                                code,
                                msg: text,
                                market_id,
                                market_ticker,
                            },
                        },
                    ),
                }
            },
            other => SessionEvent::Message(other),
        }
    }

    /// Decodes one inbound frame and takes the message it holds. A frame
    /// that cannot be decoded changes nothing and is reported: it is never
    /// passed over.
    pub fn handle_frame(&mut self, raw_frame: &[u8]) -> (r: Result<SessionEvent, DecodeError>)
        requires
            old(self).wf(),
        ensures
            final(self).wf(),
            match r {
                Ok(event) => exists|message: KalshiWebsocketResponse|
                    {
                        &&& json_parse(raw_frame@) is Some
                        &&& #[trigger] decoded(
                            Ok::<KalshiWebsocketResponse, DecodeError>(message),
                            json_parse(raw_frame@)->0,
                        )
                        &&& final(self)@ == old(self)@.after_message(message)
                        &&& old(self)@.reports(message, event)
                    },
                Err(e) => {
                    &&& final(self)@ == old(self)@
                    &&& match json_parse(raw_frame@) {
                        Some(frame) => decoded(
                            Err::<KalshiWebsocketResponse, DecodeError>(e),
                            frame,
                        ),
                        None => e is InvalidJson,
                    }
                },
            },
    {
        match decode(raw_frame) {
            Ok(message) => {
                let ghost sent = message;
                let event = self.handle_message(message);
                assert(decoded(
                    Ok::<KalshiWebsocketResponse, DecodeError>(sent),
                    json_parse(raw_frame@)->0,
                ));
                Ok(event)
            },
            Err(e) => Err(e),
        }
    }

    /// Takes the loss of the connection: every confirmed subscription is
    /// removed and every book is stale. After reconnecting, the caller
    /// subscribes again and each book waits for a fresh snapshot.
    pub fn disconnect(&mut self)
        requires
            old(self).wf(),
        ensures
            final(self).wf(),
            final(self)@ == old(self)@.after_disconnect(),
    {
        self.registry.on_disconnect();
        self.reconciler.mark_all_stale();
    }

    /// The subscriptions of the connection.
    pub fn registry(&self) -> (registry: &SubscriptionRegistry)
        requires
            self.wf(),
        ensures
            registry.wf(),
            registry@ == self@.registry,
    {
        &self.registry
    }

    /// The books of the connection.
    pub fn reconciler(&self) -> (reconciler: &OrderBookReconciler)
        requires
            self.wf(),
        ensures
            reconciler.wf(),
            reconciler@ == self@.books,
    {
        &self.reconciler
    }
}

/// No partial state survives the loss of the connection: no subscription is
/// pending or confirmed, no unsubscribe command is awaited, and every book
/// is stale.
pub proof fn lemma_disconnect_leaves_nothing_live(s: SessionState, id: u32, key: BookKey)
    ensures
        s.after_disconnect().registry.unsubscribes == Map::<u32, u32>::empty(),
        s.after_disconnect().registry.subscriptions.dom().contains(id) ==> {
            let state = s.after_disconnect().registry.subscriptions[id].state;
            state is Failed || state is Removed
        },
        s.registry.subscriptions.dom().contains(id) && s.registry.subscriptions[id].state
            is Confirmed ==> s.after_disconnect().registry.subscriptions[id].state is Removed,
        s.after_disconnect().books.dom().contains(key) ==> s.after_disconnect().books[key].stale,
{
}

} // verus!
