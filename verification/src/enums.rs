use vstd::prelude::*;

verus! {

/// The kind of a broker exchange, as it appears in the configuration file
/// and in the exchange-declare call sent to the broker.
#[derive(Debug, Clone, Copy, PartialEq, Eq, Structural)]
pub enum ExchangeTypeSer {
    /// Direct exchange; delivers messages to queues based on the routing key.
    Direct,
    /// Fanout exchange; delivers messages to all bound queues and ignores routing key.
    Fanout,
    /// Topic exchange; delivers messages based on matching between a message routing key and the
    /// pattern that was used to bind a queue to an exchange.
    Topic,
    /// Headers exchanges; ignores routing key and routes based on message header fields.
    Headers,
}

impl ExchangeTypeSer {
    /// The display name of this kind, as shown in the kind-selection list.
    pub open spec fn spec_name(self) -> Seq<char> {
        match self {
            ExchangeTypeSer::Direct => seq!['D', 'i', 'r', 'e', 'c', 't'],
            ExchangeTypeSer::Fanout => seq!['F', 'a', 'n', 'o', 'u', 't'],
            ExchangeTypeSer::Topic => seq!['T', 'o', 'p', 'i', 'c'],
            ExchangeTypeSer::Headers => seq!['H', 'e', 'a', 'd', 'e', 'r', 's'],
        }
    }

    pub fn name(&self) -> (r: String)
        ensures
            r@ == self.spec_name(),
    {
        proof {
            reveal_strlit("Direct");
            reveal_strlit("Fanout");
            reveal_strlit("Topic");
            reveal_strlit("Headers");
        }
        match self {
            ExchangeTypeSer::Direct => {
                let r = "Direct".to_owned();
                proof {
                    assert(r@ =~= self.spec_name());
                }
                r
            },
            ExchangeTypeSer::Fanout => {
                let r = "Fanout".to_owned();
                proof {
                    assert(r@ =~= self.spec_name());
                }
                r
            },
            ExchangeTypeSer::Topic => {
                let r = "Topic".to_owned();
                proof {
                    assert(r@ =~= self.spec_name());
                }
                r
            },
            ExchangeTypeSer::Headers => {
                let r = "Headers".to_owned();
                proof {
                    assert(r@ =~= self.spec_name());
                }
                r
            },
        }
    }

    /// All exchange kinds, in the fixed order the kind-selection list shows.
    pub fn iterator() -> (r: Vec<ExchangeTypeSer>)
        ensures
            r@ =~= seq![
                ExchangeTypeSer::Direct,
                ExchangeTypeSer::Fanout,
                ExchangeTypeSer::Topic,
                ExchangeTypeSer::Headers,
            ],
    {
        let mut r: Vec<ExchangeTypeSer> = Vec::new();
        r.push(ExchangeTypeSer::Direct);
        r.push(ExchangeTypeSer::Fanout);
        r.push(ExchangeTypeSer::Topic);
        r.push(ExchangeTypeSer::Headers);
        r
    }

    /// The kind whose display name is `value`; `Direct` when no name matches.
    pub open spec fn spec_from_name(value: Seq<char>) -> ExchangeTypeSer {
        if value == ExchangeTypeSer::Fanout.spec_name() {
            ExchangeTypeSer::Fanout
        } else if value == ExchangeTypeSer::Topic.spec_name() {
            ExchangeTypeSer::Topic
        } else if value == ExchangeTypeSer::Headers.spec_name() {
            ExchangeTypeSer::Headers
        } else {
            ExchangeTypeSer::Direct
        }
    }
}

impl From<&str> for ExchangeTypeSer {
    fn from(value: &str) -> (r: ExchangeTypeSer) {
        proof {
            reveal_strlit("Direct");
            reveal_strlit("Fanout");
            reveal_strlit("Topic");
            reveal_strlit("Headers");
            assert("Fanout"@ =~= ExchangeTypeSer::Fanout.spec_name());
            assert("Topic"@ =~= ExchangeTypeSer::Topic.spec_name());
            assert("Headers"@ =~= ExchangeTypeSer::Headers.spec_name());
        }
        let v = value.to_owned();
        if v == "Fanout".to_owned() {
            ExchangeTypeSer::Fanout
        } else if v == "Topic".to_owned() {
            ExchangeTypeSer::Topic
        } else if v == "Headers".to_owned() {
            ExchangeTypeSer::Headers
        } else {
            ExchangeTypeSer::Direct
        }
    }
}

impl vstd::std_specs::convert::FromSpecImpl<&str> for ExchangeTypeSer {
    open spec fn obeys_from_spec() -> bool {
        true
    }

    open spec fn from_spec(value: &str) -> ExchangeTypeSer {
        ExchangeTypeSer::spec_from_name(value@)
    }
}

/// Where a configured exchange stands in the subscription lifecycle.
///
/// The only legal transitions are: `Unselected` to `PendingSubscription`
/// (subscribe requested); `PendingSubscription` to `Subscribed` (first
/// message observed); `PendingSubscription` to `Unselected` (cancelled before
/// any message arrived); `Subscribed` to `Unselected` (unsubscribed).
#[derive(Debug, Clone, Copy, PartialEq, Eq, Structural)]
pub enum SelectedState {
    Unselected,
    PendingSubscription,
    Subscribed,
}

} // verus!
