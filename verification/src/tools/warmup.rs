//! Warming up a receiver: a device sends numbered warm-up messages until the
//! receiver sees one, then the receiver reads until it sees the most recent
//! one.
use crate::json::{json_i64_field, json_i64_member, json_u32_document, json_u32_object};
use crate::text::{owned, str_equal};
use crate::tools::assertion::{CloudMessage, CloudMessageView, DeviceMessage, MessageError};
use vstd::prelude::*;

verus! {

/// The warm-up message with number `index` from `device` of `application`:
/// subject `warmup`, JSON content `{"index": index}`.
pub fn warmup_message(application: &str, device: &str, index: u32) -> (r: DeviceMessage)
    ensures
        r.subject@ == "warmup"@,
        r.app@ == application@,
        r.device@ == device@,
        r.content_type matches Some(ct) && ct@ == "application/json"@,
        r.payload matches Some(p) && p@ == json_u32_object("index"@, index),
        forall|m: CloudMessageView, j: u32|
            m.app == application@ && m.device == device@ && m.subject == "warmup"@ && m.payload
                == json_u32_object("index"@, index) ==> (identifies(application@, device@, m, j)
                <==> j == index),
{
    let payload = json_u32_document("index", index);
    DeviceMessage {
        subject: owned("warmup"),
        app: owned(application),
        device: owned(device),
        content_type: Some(owned("application/json")),
        payload: Some(payload),
    }
}

/// Whether a received message is the warm-up message with number `index`
/// from `device` of `application`.
pub open spec fn identifies(
    application: Seq<char>,
    device: Seq<char>,
    m: CloudMessageView,
    index: u32,
) -> bool {
    &&& m.app == application
    &&& m.device == device
    &&& m.subject == "warmup"@
    &&& json_i64_member(m.payload, "index"@) == Some(index as i64)
}

/// Recognizes the warm-up message with number `index`.
pub fn identify(application: &str, device: &str, message: &CloudMessage, index: u32) -> (r: bool)
    ensures
        r == identifies(application@, device@, message@, index),
{
    if !str_equal(message.app.as_str(), application) {
        return false;
    }
    if !str_equal(message.device.as_str(), device) {
        return false;
    }
    if !str_equal(message.subject.as_str(), "warmup") {
        return false;
    }
    match json_i64_field(message.payload.as_slice(), "index") {
        Some(i) => i == index as i64,
        None => false,
    }
}

/// Whether a batch of received messages holds the warm-up message with
/// number `index` among those that converted.
pub open spec fn batch_identifies(
    application: Seq<char>,
    device: Seq<char>,
    messages: Seq<Result<CloudMessage, MessageError>>,
    index: u32,
) -> bool {
    exists|i: int|
        0 <= i < messages.len() && (#[trigger] messages[i] matches Ok(m) && identifies(
            application,
            device,
            m@,
            index,
        ))
}

/// Searching a batch: an empty batch holds no warm-up message, and a batch
/// with one more message at its end holds it exactly when the shorter batch
/// does or that message is it. So a message at any position is found, the
/// first one of a batch included.
pub proof fn batch_search(
    application: Seq<char>,
    device: Seq<char>,
    messages: Seq<Result<CloudMessage, MessageError>>,
    extra: Result<CloudMessage, MessageError>,
    index: u32,
)
    ensures
        !batch_identifies(application, device, Seq::empty(), index),
        batch_identifies(application, device, messages.push(extra), index) <==> (
        batch_identifies(application, device, messages, index) || (extra matches Ok(m)
            && identifies(application, device, m@, index))),
        batch_identifies(application, device, seq![extra], index) <==> (extra matches Ok(m)
            && identifies(application, device, m@, index)),
{
    let longer = messages.push(extra);
    if batch_identifies(application, device, longer, index) {
        let i = choose|i: int|
            0 <= i && i < longer.len() && (#[trigger] longer[i] matches Ok(m) && identifies(
                application,
                device,
                m@,
                index,
            ));
        if i < messages.len() {
            assert(messages[i] == longer[i]);
        }
    }
    if batch_identifies(application, device, messages, index) {
        let i = choose|i: int|
            0 <= i && i < messages.len() && (#[trigger] messages[i] matches Ok(m) && identifies(
                application,
                device,
                m@,
                index,
            ));
        assert(longer[i] == messages[i]);
    }
    if extra matches Ok(m) && identifies(application, device, m@, index) {
        assert(longer[messages.len() as int] == extra);
    }
    let single = seq![extra];
    if extra matches Ok(m) && identifies(application, device, m@, index) {
        assert(single[0] == extra);
    }
}

/// Looks for the warm-up message with number `index` in a batch.
pub fn find_warmup(
    application: &str,
    device: &str,
    messages: &Vec<Result<CloudMessage, MessageError>>,
    index: u32,
) -> (r: bool)
    ensures
        r == batch_identifies(application@, device@, messages@, index),
{
    let mut i: usize = 0;
    while i < messages.len()
        invariant
            i <= messages@.len(),
            forall|k: int|
                0 <= k < i ==> !(#[trigger] messages@[k] matches Ok(m) && identifies(
                    application@,
                    device@,
                    m@,
                    index,
                )),
        decreases messages@.len() - i,
    {
        if let Ok(m) = &messages[i] {
            if identify(application, device, m, index) {
                assert(messages@[i as int] matches Ok(m) && identifies(
                    application@,
                    device@,
                    m@,
                    index,
                ));
                return true;
            }
        }
        i = i + 1;
    }
    false
}

/// A sender of warm-up messages: it knows its application and device.
pub trait DefaultWarmupSender {
    spec fn application_name(&self) -> Seq<char>;

    spec fn device_name(&self) -> Seq<char>;

    fn application(&self) -> (r: &str)
        ensures
            r@ == self.application_name(),
    ;

    fn device(&self) -> (r: &str)
        ensures
            r@ == self.device_name(),
    ;
}

/// Sends warm-up messages and recognizes them.
pub trait WarmupSender {
    spec fn sender_application(&self) -> Seq<char>;

    spec fn sender_device(&self) -> Seq<char>;

    /// The warm-up message with number `index`.
    fn message(&self, index: u32) -> (r: DeviceMessage)
        ensures
            r.subject@ == "warmup"@,
            r.app@ == self.sender_application(),
            r.device@ == self.sender_device(),
            r.content_type matches Some(ct) && ct@ == "application/json"@,
            r.payload matches Some(p) && p@ == json_u32_object("index"@, index),
            forall|m: CloudMessageView, j: u32|
                m.app == self.sender_application() && m.device == self.sender_device()
                    && m.subject == "warmup"@ && m.payload == json_u32_object("index"@, index) ==> (
                identifies(self.sender_application(), self.sender_device(), m, j) <==> j == index),
    ;

    /// Whether a received message is the warm-up message with number `index`.
    fn identify(&self, message: &CloudMessage, index: u32) -> (r: bool)
        ensures
            r == identifies(self.sender_application(), self.sender_device(), message@, index),
    ;
}

impl<W: DefaultWarmupSender> WarmupSender for W {
    open spec fn sender_application(&self) -> Seq<char> {
        self.application_name()
    }

    open spec fn sender_device(&self) -> Seq<char> {
        self.device_name()
    }

    fn message(&self, index: u32) -> (r: DeviceMessage) {
        warmup_message(self.application(), self.device(), index)
    }

    fn identify(&self, message: &CloudMessage, index: u32) -> (r: bool) {
        identify(self.application(), self.device(), message, index)
    }
}

/// The application and device that warm-up messages come from.
#[derive(Clone, Debug)]
pub struct WarmupTarget {
    pub application: String,
    pub device: String,
}

impl DefaultWarmupSender for WarmupTarget {
    open spec fn application_name(&self) -> Seq<char> {
        self.application@
    }

    open spec fn device_name(&self) -> Seq<char> {
        self.device@
    }

    fn application(&self) -> (r: &str) {
        self.application.as_str()
    }

    fn device(&self) -> (r: &str) {
        self.device.as_str()
    }
}

/// Where a warm-up stands.
#[derive(Clone, Copy, Debug, PartialEq, Eq, Structural)]
pub enum WarmupPhase {
    /// Dropping what the receiver held before the warm-up.
    Discarding,
    /// Sending numbered messages until the receiver sees any.
    Probing,
    /// Reading until the receiver sees the most recent message.
    Collecting,
}

/// What the receiver's side does next.
#[derive(Clone, Copy, Debug, PartialEq, Eq, Structural)]
pub enum WarmupAction {
    /// Take the messages the receiver already holds and drop them.
    Discard,
    /// Send the warm-up message with this number.
    Send(u32),
    /// Pause a second, then report how many messages arrived.
    PauseThenCount,
    /// Take the messages that arrived and report whether the most recent
    /// warm-up message is among them.
    Drain,
    /// Pause a second, then report the time elapsed.
    PauseThenCheck,
    /// Warmed up.
    Ready,
    /// The time ran out.
    TimedOut,
}

/// The state of a warm-up: its phase, the number of the most recent message
/// sent, and the time allowed (nanoseconds).
#[derive(Clone, Copy, Debug, PartialEq, Eq, Structural)]
pub struct Warmup {
    pub phase: WarmupPhase,
    pub index: u32,
    pub timeout: u128,
}

impl Warmup {
    /// A warm-up that starts by dropping what the receiver already holds.
    pub fn new(timeout: u128) -> (r: (Warmup, WarmupAction))
        ensures
            r.0 == (Warmup { phase: WarmupPhase::Discarding, index: 0, timeout }),
            r.1 == WarmupAction::Discard,
    {
        (Warmup { phase: WarmupPhase::Discarding, index: 0, timeout }, WarmupAction::Discard)
    }

    /// The old messages were dropped: send message 0.
    pub fn discarded(&mut self) -> (r: WarmupAction)
        requires
            old(self).phase is Discarding,
        ensures
            *final(self) == (Warmup {
                phase: WarmupPhase::Probing,
                index: 0,
                timeout: old(self).timeout,
            }),
            r == WarmupAction::Send(0),
    {
        self.phase = WarmupPhase::Probing;
        self.index = 0;
        WarmupAction::Send(0)
    }

    /// The message was sent: pause, then count.
    pub fn sent(&self) -> (r: WarmupAction)
        requires
            self.phase is Probing,
        ensures
            r == WarmupAction::PauseThenCount,
    {
        WarmupAction::PauseThenCount
    }

    /// After the pause, `received` messages had arrived and `elapsed`
    /// nanoseconds had passed since the start: any message ends the probing;
    /// otherwise the time runs out, or the next message is sent.
    pub fn counted(&mut self, received: usize, elapsed: u128) -> (r: WarmupAction)
        requires
            old(self).phase is Probing,
            received > 0 || elapsed > old(self).timeout || old(self).index < u32::MAX,
        ensures
            final(self).timeout == old(self).timeout,
            received > 0 ==> r == WarmupAction::Drain && *final(self) == (Warmup {
                phase: WarmupPhase::Collecting,
                ..*old(self)
            }),
            received == 0 && elapsed > old(self).timeout ==> r == WarmupAction::TimedOut
                && *final(self) == *old(self),
            received == 0 && elapsed <= old(self).timeout ==> r == WarmupAction::Send(
                (old(self).index + 1) as u32,
            ) && *final(self) == (Warmup { index: (old(self).index + 1) as u32, ..*old(self) }),
    {
        if received > 0 {
            self.phase = WarmupPhase::Collecting;
            WarmupAction::Drain
        } else if elapsed > self.timeout {
            WarmupAction::TimedOut
        } else {
            self.index = self.index + 1;
            WarmupAction::Send(self.index)
        }
    }

    /// The drained messages held the most recent warm-up message or not.
    pub fn drained(&self, identified: bool) -> (r: WarmupAction)
        requires
            self.phase is Collecting,
        ensures
            identified ==> r == WarmupAction::Ready,
            !identified ==> r == WarmupAction::PauseThenCheck,
    {
        if identified {
            WarmupAction::Ready
        } else {
            WarmupAction::PauseThenCheck
        }
    }

    /// After the pause, `elapsed` nanoseconds had passed since the start.
    pub fn checked(&self, elapsed: u128) -> (r: WarmupAction)
        requires
            self.phase is Collecting,
        ensures
            elapsed > self.timeout ==> r == WarmupAction::TimedOut,
            elapsed <= self.timeout ==> r == WarmupAction::Drain,
    {
        if elapsed > self.timeout {
            WarmupAction::TimedOut
        } else {
            WarmupAction::Drain
        }
    }
}

} // verus!
