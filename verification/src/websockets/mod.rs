//! The real-time channel: channel kinds, inbound messages, decoding,
//! subscriptions and order books.

use vstd::prelude::*;
use crate::text::str_eq;

pub mod decoder;
pub mod orderbook;
pub mod reconciler;
pub mod registry;
pub mod responses;
pub mod session;

verus! {

/// The kinds of real-time channel that the exchange offers.
#[derive(Debug, Clone, Copy, PartialEq, Eq, Hash, Structural)]
pub enum KalshiChannel {
    OrderbookDelta,
    Ticker,
    Trade,
    Fill,
    MarketLifecycle,
    MarketLifecycleV2,
    MarketPositions,
    Multivariate,
}

impl KalshiChannel {
    /// The name of the channel on the wire.
    pub open spec fn name(self) -> Seq<char> {
        match self {
            KalshiChannel::OrderbookDelta => "orderbook_delta"@,
            KalshiChannel::Ticker => "ticker"@,
            KalshiChannel::Trade => "trade"@,
            KalshiChannel::Fill => "fill"@,
            KalshiChannel::MarketLifecycle => "market_lifecycle"@,
            KalshiChannel::MarketLifecycleV2 => "market_lifecycle_v2"@,
            KalshiChannel::MarketPositions => "market_positions"@,
            KalshiChannel::Multivariate => "multivariate"@,
        }
    }

    /// The wire name of this channel, as used in subscribe commands.
    pub fn as_str(&self) -> (s: &'static str)
        ensures
            s@ == self.name(),
    {
        match self {
            KalshiChannel::OrderbookDelta => "orderbook_delta",
            KalshiChannel::Ticker => "ticker",
            KalshiChannel::Trade => "trade",
            KalshiChannel::Fill => "fill",
            KalshiChannel::MarketLifecycle => "market_lifecycle",
            KalshiChannel::MarketLifecycleV2 => "market_lifecycle_v2",
            KalshiChannel::MarketPositions => "market_positions",
            KalshiChannel::Multivariate => "multivariate",
        }
    }

    /// The channel of the given wire name, if there is one.
    pub fn from_name(name: &str) -> (channel: Option<KalshiChannel>)
        ensures
            channel == channel_named(name@),
    {
        if str_eq(name, "orderbook_delta") {
            Some(KalshiChannel::OrderbookDelta)
        } else if str_eq(name, "ticker") {
            Some(KalshiChannel::Ticker)
        } else if str_eq(name, "trade") {
            Some(KalshiChannel::Trade)
        } else if str_eq(name, "fill") {
            Some(KalshiChannel::Fill)
        } else if str_eq(name, "market_lifecycle") {
            Some(KalshiChannel::MarketLifecycle)
        } else if str_eq(name, "market_lifecycle_v2") {
            Some(KalshiChannel::MarketLifecycleV2)
        } else if str_eq(name, "market_positions") {
            Some(KalshiChannel::MarketPositions)
        } else if str_eq(name, "multivariate") {
            Some(KalshiChannel::Multivariate)
        } else {
            None
        }
    }
}

impl From<KalshiChannel> for &'static str {
    /// The wire name of the channel.
    fn from(val: KalshiChannel) -> (name: &'static str)
        ensures
            name@ == val.name(),
    {
        match val {
            KalshiChannel::OrderbookDelta => "orderbook_delta",
            KalshiChannel::Ticker => "ticker",
            KalshiChannel::Trade => "trade",
            KalshiChannel::Fill => "fill",
            KalshiChannel::MarketLifecycle => "market_lifecycle",
            KalshiChannel::MarketLifecycleV2 => "market_lifecycle_v2",
            KalshiChannel::MarketPositions => "market_positions",
            KalshiChannel::Multivariate => "multivariate",
        }
    }
}

impl vstd::std_specs::convert::FromSpecImpl<KalshiChannel> for &'static str {
    open spec fn obeys_from_spec() -> bool {
        true
    }

    open spec fn from_spec(val: KalshiChannel) -> &'static str {
        match val {
            KalshiChannel::OrderbookDelta => "orderbook_delta",
            KalshiChannel::Ticker => "ticker",
            KalshiChannel::Trade => "trade",
            KalshiChannel::Fill => "fill",
            KalshiChannel::MarketLifecycle => "market_lifecycle",
            KalshiChannel::MarketLifecycleV2 => "market_lifecycle_v2",
            KalshiChannel::MarketPositions => "market_positions",
            KalshiChannel::Multivariate => "multivariate",
        }
    }
}

/// The channel of the given wire name.
pub open spec fn channel_named(name: Seq<char>) -> Option<KalshiChannel> {
    if name == "orderbook_delta"@ {
        Some(KalshiChannel::OrderbookDelta)
    } else if name == "ticker"@ {
        Some(KalshiChannel::Ticker)
    } else if name == "trade"@ {
        Some(KalshiChannel::Trade)
    } else if name == "fill"@ {
        Some(KalshiChannel::Fill)
    } else if name == "market_lifecycle"@ {
        Some(KalshiChannel::MarketLifecycle)
    } else if name == "market_lifecycle_v2"@ {
        Some(KalshiChannel::MarketLifecycleV2)
    } else if name == "market_positions"@ {
        Some(KalshiChannel::MarketPositions)
    } else if name == "multivariate"@ {
        Some(KalshiChannel::Multivariate)
    } else {
        None
    }
}

/// Each channel is the one of its own wire name: no two channels share a
/// name.
pub proof fn lemma_channel_names(channel: KalshiChannel)
    ensures
        channel_named(channel.name()) == Some(channel),
{
    reveal_strlit("orderbook_delta");
    reveal_strlit("ticker");
    reveal_strlit("trade");
    reveal_strlit("fill");
    reveal_strlit("market_lifecycle");
    reveal_strlit("market_lifecycle_v2");
    reveal_strlit("market_positions");
    reveal_strlit("multivariate");
    assert(channel.name().len() > 1);
    assert("ticker"@[1] == 'i');
    assert("trade"@[1] == 'r');
    assert("market_lifecycle"@[7] == 'l');
    assert("market_positions"@[7] == 'p');
    assert("multivariate"@[1] == 'u');
}

} // verus!
