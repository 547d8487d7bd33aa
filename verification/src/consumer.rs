//! The receive loop's logic: every received message advances the
//! total-message counter by exactly one; a telemetry message whose payload
//! yields a battery reading additionally overwrites the gauge; everything
//! else — event messages, unusable payloads, other protocol events, receive
//! failures — leaves the gauge alone. A receive failure asks for a fixed
//! backoff and is never fatal.

use vstd::prelude::*;

use crate::parser::battery_pct_of;
use crate::parser::parse_battery_pct;
use crate::registry::MetricRegistry;
use crate::registry::RegistryModel;
use crate::topic::spec_topic_class;
use crate::topic::topic_class;
use crate::topic::TopicClass;

verus! {

/// Fixed backoff after a failed receive, in seconds. Deliberately flat: no
/// exponential backoff, no circuit breaker.
pub const RETRY_DELAY_SECS: u64 = 1;

/// One published message as the consumer receives it.
pub struct BusMessage {
    pub topic: Vec<u8>,
    pub payload: Vec<u8>,
}

/// Mathematical model of a message: its topic and payload as byte sequences.
pub ghost struct MessageModel {
    pub topic: Seq<u8>,
    pub payload: Seq<u8>,
}

impl View for BusMessage {
    type V = MessageModel;

    open spec fn view(&self) -> MessageModel {
        MessageModel { topic: self.topic@, payload: self.payload@ }
    }
}

/// One item handed to the consumer per poll of the bus.
pub enum PollOutcome {
    /// An incoming published message.
    Publish(BusMessage),
    /// Any other incoming protocol event: consumed, no metric update.
    OtherEvent,
    /// The poll failed (connection lost, protocol error).
    Failure,
}

/// What the consumer asks its caller to do after one poll.
#[derive(Clone, Copy, Debug, PartialEq, Eq, Structural)]
pub enum ConsumerAction {
    /// Poll again at once.
    Continue,
    /// Report the failure, wait this many seconds, then poll again.
    Backoff { seconds: u64 },
}

/// A message yields a reading when its topic is a telemetry topic and its
/// payload carries a usable `battery_pct` field.
pub open spec fn yields_reading(m: MessageModel) -> bool {
    &&& spec_topic_class(m.topic) == TopicClass::Telemetry
    &&& battery_pct_of(m.payload) is Some
}

/// The reading a message yields, when it yields one.
pub open spec fn reading_of(m: MessageModel) -> int {
    battery_pct_of(m.payload)->Some_0 as int
}

/// The registry after processing one message: the counter always advances by
/// one; the gauge is overwritten exactly when the message yields a reading.
pub open spec fn step(s: RegistryModel, m: MessageModel) -> RegistryModel {
    RegistryModel {
        messages_total: s.messages_total + 1,
        battery_last_pct: if yields_reading(m) {
            reading_of(m)
        } else {
            s.battery_last_pct
        },
    }
}

/// The registry after processing a sequence of messages in order.
pub open spec fn run(s: RegistryModel, msgs: Seq<MessageModel>) -> RegistryModel
    decreases msgs.len(),
{
    if msgs.len() == 0 {
        s
    } else {
        run(step(s, msgs[0]), msgs.drop_first())
    }
}

/// Processes one published message against the registry.
pub fn process_message(reg: &mut MetricRegistry, msg: &BusMessage)
    requires
        old(reg)@.messages_total < u64::MAX,
    ensures
        final(reg)@ == step(old(reg)@, msg@),
{
    reg.increment_messages_total();
    let class = topic_class(msg.topic.as_slice());
    match class {
        TopicClass::Telemetry => {
            if let Some(b) = parse_battery_pct(msg.payload.as_slice()) {
                reg.set_battery_gauge(b);
            }
        }
        TopicClass::Event => {}
    }
}

/// Digests one poll of the bus: a published message is processed, any other
/// event is consumed without a metric update, and a failure leaves the
/// registry untouched and asks for the fixed backoff.
pub fn handle_poll_outcome(reg: &mut MetricRegistry, outcome: PollOutcome) -> (action:
    ConsumerAction)
    requires
        old(reg)@.messages_total < u64::MAX,
    ensures
        (match outcome {
            PollOutcome::Publish(m) => final(reg)@ == step(old(reg)@, m@) && action
                == ConsumerAction::Continue,
            PollOutcome::OtherEvent => final(reg)@ == old(reg)@ && action
                == ConsumerAction::Continue,
            PollOutcome::Failure => final(reg)@ == old(reg)@ && action == (ConsumerAction::Backoff {
                seconds: RETRY_DELAY_SECS,
            }),
        }),
{
    match outcome {
        PollOutcome::Publish(msg) => {
            process_message(reg, &msg);
            ConsumerAction::Continue
        },
        PollOutcome::OtherEvent => ConsumerAction::Continue,
        PollOutcome::Failure => ConsumerAction::Backoff { seconds: RETRY_DELAY_SECS },
    }
}

/// Appending one message to a run is one more step.
pub proof fn lemma_run_snoc(s: RegistryModel, msgs: Seq<MessageModel>, m: MessageModel)
    ensures
        run(s, msgs.push(m)) == step(run(s, msgs), m),
    decreases msgs.len(),
{
    if msgs.len() == 0 {
        assert(msgs.push(m)[0] == m);
        assert(msgs.push(m).drop_first() =~= Seq::<MessageModel>::empty());
        assert(run(s, msgs.push(m)) == run(step(s, m), msgs.push(m).drop_first()));
    } else {
        assert(msgs.push(m)[0] == msgs[0]);
        assert(msgs.push(m).drop_first() =~= msgs.drop_first().push(m));
        assert(run(s, msgs.push(m)) == run(step(s, msgs[0]), msgs.drop_first().push(m)));
        lemma_run_snoc(step(s, msgs[0]), msgs.drop_first(), m);
    }
}

/// Processes a sequence of published messages in order.
pub fn process_messages(reg: &mut MetricRegistry, msgs: &Vec<BusMessage>)
    requires
        old(reg)@.messages_total + msgs@.len() <= u64::MAX,
    ensures
        final(reg)@ == run(old(reg)@, msgs@.map_values(|m: BusMessage| m@)),
        final(reg)@.messages_total == old(reg)@.messages_total + msgs@.len(),
{
    let ghost models = msgs@.map_values(|m: BusMessage| m@);
    let mut i: usize = 0;
    while i < msgs.len()
        invariant
            i <= msgs@.len(),
            models == msgs@.map_values(|m: BusMessage| m@),
            reg@ == run(old(reg)@, models.take(i as int)),
            reg@.messages_total == old(reg)@.messages_total + i,
            old(reg)@.messages_total + msgs@.len() <= u64::MAX,
        decreases msgs@.len() - i,
    {
        process_message(reg, &msgs[i]);
        proof {
            assert(models.take(i + 1) =~= models.take(i as int).push(models[i as int]));
            lemma_run_snoc(old(reg)@, models.take(i as int), models[i as int]);
        }
        i = i + 1;
    }
    proof {
        assert(models.take(msgs@.len() as int) =~= models);
        lemma_counter_counts_messages(old(reg)@, models);
    }
}

/// Law: after processing any sequence of messages — any topics, any
/// payloads — the counter has advanced by exactly the number of messages.
pub proof fn lemma_counter_counts_messages(s: RegistryModel, msgs: Seq<MessageModel>)
    ensures
        run(s, msgs).messages_total == s.messages_total + msgs.len(),
    decreases msgs.len(),
{
    if msgs.len() > 0 {
        lemma_counter_counts_messages(step(s, msgs[0]), msgs.drop_first());
    }
}

/// Law: the counter advances by exactly one for every message, also when the
/// gauge is left unchanged.
pub proof fn lemma_counter_advances(s: RegistryModel, m: MessageModel)
    ensures
        step(s, m).messages_total == s.messages_total + 1,
{
}

/// Law: an event message, or a telemetry message whose payload yields no
/// reading, leaves the gauge exactly where it was.
pub proof fn lemma_gauge_unchanged_without_reading(s: RegistryModel, m: MessageModel)
    requires
        !yields_reading(m),
    ensures
        step(s, m).battery_last_pct == s.battery_last_pct,
{
}

/// A whole sequence without a reading leaves the gauge where it was.
pub proof fn lemma_gauge_unchanged_without_readings(s: RegistryModel, msgs: Seq<MessageModel>)
    requires
        forall|j: int| 0 <= j < msgs.len() ==> !yields_reading(#[trigger] msgs[j]),
    ensures
        run(s, msgs).battery_last_pct == s.battery_last_pct,
    decreases msgs.len(),
{
    if msgs.len() > 0 {
        lemma_gauge_unchanged_without_readings(step(s, msgs[0]), msgs.drop_first());
    }
}

/// Law: after processing any sequence of messages, the gauge holds the
/// reading of the most recently processed message that yielded one.
pub proof fn lemma_gauge_tracks_latest_reading(s: RegistryModel, msgs: Seq<MessageModel>, i: int)
    requires
        0 <= i < msgs.len(),
        yields_reading(msgs[i]),
        forall|j: int| i < j < msgs.len() ==> !yields_reading(#[trigger] msgs[j]),
    ensures
        run(s, msgs).battery_last_pct == reading_of(msgs[i]),
    decreases msgs.len(),
{
    if i == 0 {
        lemma_gauge_unchanged_without_readings(step(s, msgs[0]), msgs.drop_first());
    } else {
        lemma_gauge_tracks_latest_reading(step(s, msgs[0]), msgs.drop_first(), i - 1);
    }
}

/// Law: processing the same reading-bearing message twice in a row leaves
/// the gauge at the same value both times.
pub proof fn lemma_reading_idempotent(s: RegistryModel, m: MessageModel)
    requires
        yields_reading(m),
    ensures
        step(step(s, m), m).battery_last_pct == step(s, m).battery_last_pct,
{
}

} // verus!
