use vstd::prelude::*;
use vstd::string::StringExecFns;
use crate::messages::{ChatMessage, ChatMessageView};

verus! {

/// Text put before the inbound message in every reply.
pub const REPLY_PREFIX: &'static str =
    "Terima kasih telah melakukan chat kepada CS virtual, Pesan anda akan dibalas pada jam kerja. pesan anda : ";

/// Capacity of the channel between the relay and the outbound stream.
pub const CHAT_CHANNEL_CAPACITY: usize = 32;

/// The reply to an inbound chat message: same user, the message behind a
/// fixed acknowledgment.
pub open spec fn reply_of(m: ChatMessageView) -> ChatMessageView {
    ChatMessageView { user_id: m.user_id, message: REPLY_PREFIX@ + m.message }
}

/// What the relay does next.
pub enum RelayStep {
    /// Wait for the next inbound message (or the end of the inbound stream).
    ReadInbound,
    /// Send this reply into the outbound channel.
    Send(ChatMessage),
    /// Do nothing more; drop the sending half.
    Stop,
}

enum RelayPhase {
    Reading,
    Sending,
    Finished,
}

/// Decisions of the bidirectional chat relay: each inbound message yields
/// exactly one reply; the relay ends when the inbound stream ends, or when a
/// reply cannot be sent because the caller is gone. Ghost state records the
/// inbound messages read and the replies delivered to the channel.
pub struct ChatRelay {
    phase: RelayPhase,
    graceful: bool,
    inbound: Ghost<Seq<ChatMessageView>>,
    outbound: Ghost<Seq<ChatMessageView>>,
}

impl ChatRelay {
    pub closed spec fn awaiting_inbound(&self) -> bool {
        self.phase is Reading
    }

    pub closed spec fn awaiting_send(&self) -> bool {
        self.phase is Sending
    }

    pub closed spec fn finished(&self) -> bool {
        self.phase is Finished
    }

    /// True when the relay ended because the inbound stream ended.
    pub closed spec fn ended_gracefully(&self) -> bool {
        self.phase is Finished && self.graceful
    }

    /// Inbound messages read so far.
    pub closed spec fn inbound(&self) -> Seq<ChatMessageView> {
        self.inbound@
    }

    /// Replies the channel accepted so far.
    pub closed spec fn outbound(&self) -> Seq<ChatMessageView> {
        self.outbound@
    }

    pub closed spec fn wf(&self) -> bool {
        &&& forall|i: int|
            0 <= i < self.outbound@.len() ==> #[trigger] self.outbound@[i] == reply_of(
                self.inbound@[i],
            )
        &&& match self.phase {
            RelayPhase::Reading => self.outbound@.len() == self.inbound@.len(),
            RelayPhase::Sending => self.outbound@.len() + 1 == self.inbound@.len(),
            RelayPhase::Finished => if self.graceful {
                self.outbound@.len() == self.inbound@.len()
            } else {
                self.outbound@.len() + 1 == self.inbound@.len()
            },
        }
    }

    /// A relay that has read nothing yet; its first step is to read.
    pub fn new() -> (r: Self)
        ensures
            r.wf(),
            r.awaiting_inbound(),
            r.inbound() == Seq::<ChatMessageView>::empty(),
            r.outbound() == Seq::<ChatMessageView>::empty(),
    {
        ChatRelay {
            phase: RelayPhase::Reading,
            graceful: false,
            inbound: Ghost(Seq::empty()),
            outbound: Ghost(Seq::empty()),
        }
    }

    /// The inbound stream gave `item` (`None`: it ended, or failed).
    pub fn on_inbound(&mut self, item: Option<ChatMessage>) -> (r: RelayStep)
        requires
            old(self).wf(),
            old(self).awaiting_inbound(),
        ensures
            final(self).wf(),
            final(self).outbound() == old(self).outbound(),
            match item {
                Some(m) => {
                    &&& r matches RelayStep::Send(reply) && reply@ == reply_of(m@)
                    &&& final(self).awaiting_send()
                    &&& final(self).inbound() == old(self).inbound().push(m@)
                },
                None => {
                    &&& r is Stop
                    &&& final(self).ended_gracefully()
                    &&& final(self).finished()
                    &&& final(self).inbound() == old(self).inbound()
                },
            },
    {
        match item {
            Some(m) => {
                let reply = MyChatService::reply_to(&m);
                proof {
                    self.inbound@ = self.inbound@.push(m@);
                }
                self.phase = RelayPhase::Sending;
                RelayStep::Send(reply)
            },
            None => {
                self.phase = RelayPhase::Finished;
                self.graceful = true;
                RelayStep::Stop
            },
        }
    }

    /// The last `Send` was accepted (`true`) or failed because the caller is
    /// gone (`false`).
    pub fn on_send_result(&mut self, accepted: bool) -> (r: RelayStep)
        requires
            old(self).wf(),
            old(self).awaiting_send(),
        ensures
            final(self).wf(),
            final(self).inbound() == old(self).inbound(),
            accepted ==> {
                &&& r is ReadInbound
                &&& final(self).awaiting_inbound()
                &&& final(self).outbound() == old(self).outbound().push(
                    reply_of(old(self).inbound().last()),
                )
            },
            !accepted ==> {
                &&& r is Stop
                &&& final(self).finished()
                &&& !final(self).ended_gracefully()
                &&& final(self).outbound() == old(self).outbound()
            },
    {
        if accepted {
            proof {
                let last = self.inbound@.last();
                self.outbound@ = self.outbound@.push(reply_of(last));
            }
            self.phase = RelayPhase::Reading;
            RelayStep::ReadInbound
        } else {
            self.phase = RelayPhase::Finished;
            self.graceful = false;
            RelayStep::Stop
        }
    }

    /// A relay is in exactly one phase at a time: waiting for an inbound
    /// message, waiting for a send to complete, or finished. So a finished
    /// relay, or one waiting on a send, takes no inbound message, and a
    /// finished one sends nothing more.
    pub proof fn lemma_one_phase(&self)
        ensures
            self.awaiting_inbound() ==> !self.awaiting_send() && !self.finished(),
            self.awaiting_send() ==> !self.awaiting_inbound() && !self.finished(),
            self.finished() ==> !self.awaiting_inbound() && !self.awaiting_send(),
            self.awaiting_inbound() || self.awaiting_send() || self.finished(),
            self.ended_gracefully() ==> self.finished(),
    {
    }

    /// At every moment each reply delivered so far answers the inbound
    /// message at the same position, and at most one inbound message (the
    /// one whose reply is in flight or failed) is still unanswered.
    pub proof fn lemma_replies_match_messages(&self)
        requires
            self.wf(),
        ensures
            self.outbound().len() <= self.inbound().len() <= self.outbound().len() + 1,
            self.awaiting_inbound() ==> self.outbound().len() == self.inbound().len(),
            forall|i: int|
                0 <= i < self.outbound().len() ==> #[trigger] self.outbound()[i] == reply_of(
                    self.inbound()[i],
                ),
    {
    }

    /// A relay that ran until its inbound stream ended delivered exactly one
    /// reply per inbound message, in order, each determined by its message
    /// alone.
    pub proof fn lemma_one_reply_per_message(&self)
        requires
            self.wf(),
            self.ended_gracefully(),
        ensures
            self.outbound().len() == self.inbound().len(),
            forall|i: int|
                0 <= i < self.inbound().len() ==> #[trigger] self.outbound()[i] == reply_of(
                    self.inbound()[i],
                ),
    {
    }
}

/// The bidirectional chat handler.
#[derive(Clone, Copy, Debug, Default)]
pub struct MyChatService;

impl MyChatService {
    pub fn new() -> (s: Self) {
        MyChatService
    }

    /// The reply to one inbound message.
    pub fn reply_to(msg: &ChatMessage) -> (r: ChatMessage)
        ensures
            r@ == reply_of(msg@),
    {
        ChatMessage {
            user_id: msg.user_id.clone(),
            message: String::from_str(REPLY_PREFIX).concat(msg.message.as_str()),
        }
    }

    /// Starts a chat call: the relay that the call's background task runs.
    pub fn chat(&self) -> (r: ChatRelay)
        ensures
            r.wf(),
            r.awaiting_inbound(),
            r.inbound() == Seq::<ChatMessageView>::empty(),
            r.outbound() == Seq::<ChatMessageView>::empty(),
    {
        ChatRelay::new()
    }
}

} // verus!
