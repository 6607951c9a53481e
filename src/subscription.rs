//! The feed subscription and the endpoint it is served from.

use vstd::prelude::*;

use crate::interval::Interval;
use crate::outside::{lower_of, lowercase, parse_url, url_accepts};

verus! {

/// The feed's streaming endpoint, to which the topic is appended.
pub open spec fn endpoint_base() -> Seq<char> {
    "wss://stream.binance.com:9443/ws/"@
}

/// One subscription: a symbol pair and the kind of stream wanted for it.
pub enum Stream {
    Trade { pair: String },
    Kline { pair: String, interval: Interval },
}

impl Stream {
    /// The subscription topic: the lower-cased pair, `@`, the stream type, and
    /// for klines `_` and the interval code.
    pub open spec fn topic_spec(&self) -> Seq<char> {
        match self {
            Stream::Trade { pair } => lower_of(pair@) + "@trade"@,
            Stream::Kline { pair, interval } => lower_of(pair@) + "@kline_"@ + interval.code(),
        }
    }

    /// The full endpoint URL text for this subscription.
    pub open spec fn endpoint_spec(&self) -> Seq<char> {
        endpoint_base() + self.topic_spec()
    }

    /// The subscription topic.
    pub fn topic(&self) -> (r: String)
        ensures
            r@ == self.topic_spec(),
    {
        match self {
            Stream::Trade { pair } => {
                let mut r = lowercase(pair.as_str());
                r.append("@trade");
                r
            },
            Stream::Kline { pair, interval } => {
                let mut r = lowercase(pair.as_str());
                r.append("@kline_");
                let code = interval.to_string();
                r.append(code.as_str());
                r
            },
        }
    }

    /// The endpoint URL text for this subscription.
    pub fn endpoint(&self) -> (r: String)
        ensures
            r@ == self.endpoint_spec(),
    {
        let mut r = String::from_str("wss://stream.binance.com:9443/ws/");
        let t = self.topic();
        r.append(t.as_str());
        r
    }

    /// The endpoint as a parsed URL; the same URL serves every reconnect.
    pub fn to_url(&self) -> (r: Result<url::Url, url::ParseError>)
        ensures
            r is Ok <==> url_accepts(self.endpoint_spec()),
    {
        let e = self.endpoint();
        parse_url(e.as_str())
    }
}

} // verus!
