//! The subscription engine: the map from exchange name to live worker, the
//! deduplicated list of queues this session created, and the decisions a
//! worker takes on each event.
//!
//! Broker traffic itself happens outside the crate. The engine decides; its
//! caller opens channels, spawns the worker, signals cancellation and deletes
//! queues, exactly as each returned action says.

use vstd::prelude::*;

use crate::enums::ExchangeTypeSer;
use crate::exchange_options::ExchangeOptions;
use crate::read_value::ReadValue;
use crate::strutil::str_eq;
use crate::strutil::utf8_lossy;
use crate::strutil::decode_lossy;

verus! {

/// The client name every queue name is derived from.
pub const CLIENT_NAME: &'static str = "amqp-client-cli";

/// The queue a subscription to `name` consumes from:
/// `<client-name>.<exchange-name>`.
pub open spec fn spec_queue_name(name: Seq<char>) -> Seq<char> {
    CLIENT_NAME@ + seq!['.'] + name
}

/// Everything a worker needs to run one subscription: what to declare, what
/// to bind, and which subscription its deliveries belong to.
pub struct WorkerPlan {
    pub exchange_name: String,
    pub exchange_type: ExchangeTypeSer,
    pub queue_routing_key: String,
    pub queue_name: String,
    pub id: u64,
}

/// What a toggle decided: start a worker for this plan, or signal the
/// existing worker to cancel.
pub enum SubscriptionAction {
    Subscribe(WorkerPlan),
    Unsubscribe,
}

/// What a worker observed in one wait cycle: its cancellation signal, one
/// delivery, or the broker ending consumption.
pub enum WorkerEvent {
    Cancelled,
    Delivery(Vec<u8>),
    Ended,
}

/// What the worker does next: delete its queue and exit (user-initiated
/// teardown), hand a decoded message on, drop the delivery (paused), or exit
/// leaving the queue (the broker ended consumption).
pub enum WorkerAction {
    DeleteQueueAndExit,
    Emit(ReadValue),
    Skip,
    ExitNoDelete,
}

/// The subscription engine's own state: which exchanges have a live worker
/// handle, and which queues this session has created.
pub struct Ampq {
    current_subscriptions: Vec<String>,
    queue_names: Vec<String>,
}

impl Ampq {
    /// The exchanges that currently own a worker handle, in insertion order.
    pub closed spec fn subs(&self) -> Seq<Seq<char>> {
        self.current_subscriptions.deep_view()
    }

    /// Every queue name this session created, each at most once.
    pub closed spec fn queues(&self) -> Seq<Seq<char>> {
        self.queue_names.deep_view()
    }

    /// No exchange holds two worker handles, and no queue is tracked twice.
    pub open spec fn wf(&self) -> bool {
        &&& (forall|i: int, j: int|
            0 <= i < j < self.subs().len() ==> #[trigger] self.subs()[i] != #[trigger] self.subs()[j])
        &&& (forall|i: int, j: int|
            0 <= i < j < self.queues().len() ==> #[trigger] self.queues()[i]
                != #[trigger] self.queues()[j])
    }

    /// A fresh engine: no subscriptions, no queues created yet.
    pub fn new() -> (r: Ampq)
        ensures
            r.wf(),
            r.subs() == Seq::<Seq<char>>::empty(),
            r.queues() == Seq::<Seq<char>>::empty(),
    {
        let r = Ampq { current_subscriptions: Vec::new(), queue_names: Vec::new() };
        proof {
            assert(r.subs() =~= Seq::<Seq<char>>::empty());
            assert(r.queues() =~= Seq::<Seq<char>>::empty());
        }
        r
    }

    /// Whether a worker handle exists for this exchange.
    pub fn has_subscription(&self, exchange_name: &str) -> (r: bool)
        ensures
            r == self.subs().contains(exchange_name@),
    {
        let n = self.current_subscriptions.len();
        let mut i: usize = 0;
        while i < n
            invariant
                n == self.current_subscriptions.len(),
                i <= n,
                forall|j: int| 0 <= j < i ==> #[trigger] self.subs()[j] != exchange_name@,
            decreases n - i,
        {
            if str_eq(self.current_subscriptions[i].as_str(), exchange_name) {
                proof {
                    assert(self.subs()[i as int] == exchange_name@);
                }
                return true;
            }
            i = i + 1;
        }
        false
    }

    /// The queue a subscription to this exchange consumes from, derived from
    /// the client name and the exchange name alone.
    pub fn create_queue_name(&self, exchange_name: &str) -> (r: String)
        ensures
            r@ == spec_queue_name(exchange_name@),
    {
        proof {
            reveal_strlit(".");
        }
        let mut s = String::new();
        s.append(CLIENT_NAME);
        s.append(".");
        s.append(exchange_name);
        proof {
            assert("."@ =~= seq!['.']);
            assert(s@ =~= spec_queue_name(exchange_name@));
        }
        s
    }

    /// Registers a new subscription: derives the queue name, tracks it for
    /// the end-of-session sweep (once, however often the exchange is toggled),
    /// records the worker handle in the map, and hands back the plan the
    /// spawned worker runs. The handle is recorded before the worker ever
    /// processes a delivery, so a toggle right after subscribing is observed.
    pub fn add_subscription(
        &mut self,
        exchange_name: String,
        exchange_type: ExchangeTypeSer,
        queue_routing_key: String,
        selected_id: u64,
    ) -> (plan: WorkerPlan)
        requires
            old(self).wf(),
            !old(self).subs().contains(exchange_name@),
        ensures
            final(self).wf(),
            final(self).subs() == old(self).subs().push(exchange_name@),
            final(self).queues() == (if old(self).queues().contains(
                spec_queue_name(exchange_name@),
            ) {
                old(self).queues()
            } else {
                old(self).queues().push(spec_queue_name(exchange_name@))
            }),
            plan.exchange_name@ == exchange_name@,
            plan.exchange_type == exchange_type,
            plan.queue_routing_key == queue_routing_key,
            plan.queue_name@ == spec_queue_name(exchange_name@),
            plan.id == selected_id,
    {
        let queue_name = self.create_queue_name(exchange_name.as_str());
        if !self.contains_queue(queue_name.as_str()) {
            let ghost prevq = self.queues();
            self.queue_names.push(queue_name.clone());
            proof {
                assert(self.queues() =~~= prevq.push(queue_name@));
                assert forall|i: int, j: int|
                    0 <= i < j < self.queues().len() implies #[trigger] self.queues()[i] != (
                #[trigger] self.queues()[j]) by {
                    if j < prevq.len() {
                        assert(self.queues()[i] == prevq[i] && self.queues()[j] == prevq[j]);
                    } else {
                        assert(self.queues()[j] == queue_name@);
                        assert(self.queues()[i] == prevq[i]);
                        assert(!prevq.contains(queue_name@));
                    }
                }
            }
        }
        let ghost prevs = self.subs();
        self.current_subscriptions.push(exchange_name.clone());
        proof {
            assert(self.subs() =~~= prevs.push(exchange_name@));
            assert forall|i: int, j: int|
                0 <= i < j < self.subs().len() implies #[trigger] self.subs()[i] != (
            #[trigger] self.subs()[j]) by {
                if j < prevs.len() {
                    assert(self.subs()[i] == prevs[i] && self.subs()[j] == prevs[j]);
                } else {
                    assert(self.subs()[j] == exchange_name@);
                    assert(self.subs()[i] == prevs[i]);
                }
            }
        }
        WorkerPlan {
            exchange_name,
            exchange_type,
            queue_routing_key,
            queue_name,
            id: selected_id,
        }
    }

    fn contains_queue(&self, queue_name: &str) -> (r: bool)
        ensures
            r == self.queues().contains(queue_name@),
    {
        let n = self.queue_names.len();
        let mut i: usize = 0;
        while i < n
            invariant
                n == self.queue_names.len(),
                i <= n,
                forall|j: int| 0 <= j < i ==> #[trigger] self.queues()[j] != queue_name@,
            decreases n - i,
        {
            if str_eq(self.queue_names[i].as_str(), queue_name) {
                proof {
                    assert(self.queues()[i as int] == queue_name@);
                }
                return true;
            }
            i = i + 1;
        }
        false
    }

    /// The single toggle entry point. No worker for this exchange: register
    /// one and say `Subscribe`, handing back the worker's plan. A worker
    /// exists: drop its handle from the map at once — a fresh subscribe is
    /// never blocked on teardown — and say `Unsubscribe`, upon which the
    /// caller signals the worker's cancellation channel.
    pub fn change_subscription(
        &mut self,
        exchange_options: &ExchangeOptions,
        selected_id: u64,
    ) -> (act: SubscriptionAction)
        requires
            old(self).wf(),
        ensures
            final(self).wf(),
            !old(self).subs().contains(exchange_options.exchange_name@) ==> ({
                &&& act matches SubscriptionAction::Subscribe(plan) && plan.exchange_name@
                    == exchange_options.exchange_name@ && plan.exchange_type
                    == exchange_options.exchange_type && plan.queue_routing_key@
                    == exchange_options.queue_routing_key@ && plan.queue_name@ == spec_queue_name(
                    exchange_options.exchange_name@,
                ) && plan.id == selected_id
                &&& final(self).subs() == old(self).subs().push(exchange_options.exchange_name@)
                &&& final(self).queues() == (if old(self).queues().contains(
                    spec_queue_name(exchange_options.exchange_name@),
                ) {
                    old(self).queues()
                } else {
                    old(self).queues().push(spec_queue_name(exchange_options.exchange_name@))
                })
            }),
            old(self).subs().contains(exchange_options.exchange_name@) ==> ({
                &&& act is Unsubscribe
                &&& final(self).subs() == old(self).subs().remove_value(
                    exchange_options.exchange_name@,
                )
                &&& !final(self).subs().contains(exchange_options.exchange_name@)
                &&& final(self).queues() == old(self).queues()
            }),
    {
        if !self.has_subscription(exchange_options.exchange_name.as_str()) {
            let plan = self.add_subscription(
                exchange_options.exchange_name.clone(),
                exchange_options.exchange_type,
                exchange_options.queue_routing_key.clone(),
                selected_id,
            );
            SubscriptionAction::Subscribe(plan)
        } else {
            self.remove_subscription(exchange_options.exchange_name.as_str());
            SubscriptionAction::Unsubscribe
        }
    }

    fn remove_subscription(&mut self, exchange_name: &str)
        requires
            old(self).wf(),
            old(self).subs().contains(exchange_name@),
        ensures
            final(self).wf(),
            final(self).subs() == old(self).subs().remove_value(exchange_name@),
            !final(self).subs().contains(exchange_name@),
            final(self).queues() == old(self).queues(),
    {
        let ghost subs0 = self.subs();
        let n = self.current_subscriptions.len();
        let mut i: usize = 0;
        while i < n
            invariant
                n == self.current_subscriptions.len(),
                *self == *old(self),
                subs0 == self.subs(),
                old(self).wf(),
                subs0.contains(exchange_name@),
                i <= n,
                forall|j: int| 0 <= j < i ==> #[trigger] self.subs()[j] != exchange_name@,
            decreases n - i,
        {
            if str_eq(self.current_subscriptions[i].as_str(), exchange_name) {
                self.current_subscriptions.remove(i);
                proof {
                    assert(subs0[i as int] == exchange_name@);
                    subs0.index_of_first_ensures(exchange_name@);
                    let idx = subs0.index_of_first(exchange_name@).unwrap();
                    if idx < i as int {
                        assert(subs0[idx] != exchange_name@);
                    }
                    if idx > i as int {
                        assert(subs0[i as int] != exchange_name@);
                    }
                    assert(subs0.index_of_first(exchange_name@) == Some(i as int));
                    assert(self.subs() =~~= subs0.remove(i as int));
                    assert forall|a: int, b: int|
                        0 <= a < b < self.subs().len() implies #[trigger] self.subs()[a] != (
                    #[trigger] self.subs()[b]) by {
                        let ii = i as int;
                        if b < ii {
                            assert(self.subs()[a] == subs0[a] && self.subs()[b] == subs0[b]);
                        } else if a >= ii {
                            assert(self.subs()[a] == subs0[a + 1] && self.subs()[b] == subs0[b
                                + 1]);
                        } else {
                            assert(self.subs()[a] == subs0[a] && self.subs()[b] == subs0[b + 1]);
                        }
                    }
                    assert(self.queues() == old(self).queues());
                    assert forall|a: int, b: int|
                        0 <= a < b < self.queues().len() implies #[trigger] self.queues()[a] != (
                    #[trigger] self.queues()[b]) by {
                        assert(self.queues()[a] == old(self).queues()[a]);
                        assert(self.queues()[b] == old(self).queues()[b]);
                    }
                    assert forall|j: int|
                        0 <= j < self.subs().len() implies #[trigger] self.subs()[j]
                        != exchange_name@ by {
                        let ii = i as int;
                        if j < ii {
                            assert(self.subs()[j] == subs0[j]);
                        } else {
                            assert(self.subs()[j] == subs0[j + 1]);
                            assert(subs0[j + 1] != exchange_name@);
                        }
                    }
                }
                return ;
            }
            i = i + 1;
        }
        proof {
            assert(false);
        }
    }

    /// The queues to sweep at session end: every queue this session created,
    /// independent of what is still subscribed, each once.
    pub fn delete_remaining_queue(&self) -> (qs: Vec<String>)
        ensures
            qs.deep_view() == self.queues(),
    {
        let mut qs: Vec<String> = Vec::new();
        let n = self.queue_names.len();
        let mut i: usize = 0;
        proof {
            assert(qs.deep_view() =~= self.queues().take(0));
        }
        while i < n
            invariant
                n == self.queue_names.len(),
                i <= n,
                qs.deep_view() == self.queues().take(i as int),
            decreases n - i,
        {
            let ghost prev = qs.deep_view();
            qs.push(self.queue_names[i].clone());
            i = i + 1;
            proof {
                assert(qs.deep_view() =~~= prev.push(self.queues()[i - 1]));
                assert(qs.deep_view() =~~= self.queues().take(i as int));
            }
        }
        proof {
            assert(self.queues().take(n as int) =~= self.queues());
        }
        qs
    }
}

/// One wait cycle of a worker, decided. Cancellation wins and tears the
/// queue down; a delivery while the session is paused, or one with an empty
/// body, is dropped while the worker stays connected and consuming; a
/// non-empty delivery otherwise becomes a decoded message for this worker's
/// subscription; the broker ending consumption exits without deleting the
/// queue, since no user asked for teardown.
pub fn worker_step(
    event: WorkerEvent,
    paused: bool,
    selected_id: u64,
    exchange_name: &str,
    now: chrono::NaiveDateTime,
) -> (act: WorkerAction)
    ensures
        event is Cancelled ==> act is DeleteQueueAndExit,
        event matches WorkerEvent::Delivery(body) ==> (!paused && body@.len() > 0 ==> (act
            matches WorkerAction::Emit(rv) && rv.id == selected_id && rv.exchange_name@
            == exchange_name@ && rv.value@ == utf8_lossy(body@) && rv.timestamp == now)),
        event matches WorkerEvent::Delivery(body) ==> (paused || body@.len() == 0 ==> act
            is Skip),
        event is Ended ==> act is ExitNoDelete,
{
    match event {
        WorkerEvent::Cancelled => WorkerAction::DeleteQueueAndExit,
        WorkerEvent::Delivery(body) => {
            if !paused && body.len() > 0 {
                let value = decode_lossy(body.as_slice());
                WorkerAction::Emit(
                    ReadValue {
                        id: selected_id,
                        exchange_name: exchange_name.to_owned(),
                        value,
                        timestamp: now,
                    },
                )
            } else {
                WorkerAction::Skip
            }
        },
        WorkerEvent::Ended => WorkerAction::ExitNoDelete,
    }
}

} // verus!
