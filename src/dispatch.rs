use vstd::prelude::*;
use vstd::string::StringExecFns;
use crate::chat::{ChatRelay, MyChatService};
use crate::history::{HistoryProducer, MyTransactionService, HISTORY_LENGTH, PAUSE_EVERY};
use crate::messages::{ChatMessageView, PaymentRequest, PaymentResponse, TransactionRequest};
use crate::payment::{confirmation_text, MyPaymentService};

verus! {

/// The interaction pattern of a method.
#[derive(Clone, Copy, Debug, PartialEq, Eq, Structural)]
pub enum InteractionKind {
    Unary,
    ServerStream,
    BiStream,
}

/// The handler implementations a method can be bound to.
#[derive(Clone, Copy, Debug, PartialEq, Eq, Structural)]
pub enum Handler {
    Payment,
    TransactionHistory,
    Chat,
}

impl Handler {
    pub open spec fn kind_spec(self) -> InteractionKind {
        match self {
            Handler::Payment => InteractionKind::Unary,
            Handler::TransactionHistory => InteractionKind::ServerStream,
            Handler::Chat => InteractionKind::BiStream,
        }
    }

    /// The interaction pattern the handler supports.
    #[verifier::when_used_as_spec(kind_spec)]
    pub fn kind(self) -> (k: InteractionKind)
        ensures
            k == self.kind_spec(),
    {
        match self {
            Handler::Payment => InteractionKind::Unary,
            Handler::TransactionHistory => InteractionKind::ServerStream,
            Handler::Chat => InteractionKind::BiStream,
        }
    }
}

/// Why a call was refused or failed.
#[derive(Clone, Debug, PartialEq, Eq)]
pub enum CallError {
    /// No handler is registered for the method.
    UnknownMethod,
    /// The method does not support the interaction pattern it was called with.
    InvalidInteractionKind,
    /// The handler failed; the reason is passed on to the caller as it is.
    HandlerFailure(String),
}

/// A registration the table refused.
#[derive(Clone, Copy, Debug, PartialEq, Eq, Structural)]
pub enum ConfigError {
    /// A handler is already registered for this service and method.
    DuplicateMethod,
}

/// One row of the registration table.
pub struct MethodEntry {
    pub service: String,
    pub method: String,
    pub handler: Handler,
}

pub ghost struct MethodEntryView {
    pub service: Seq<char>,
    pub method: Seq<char>,
    pub handler: Handler,
}

impl View for MethodEntry {
    type V = MethodEntryView;

    open spec fn view(&self) -> MethodEntryView {
        MethodEntryView { service: self.service@, method: self.method@, handler: self.handler }
    }
}

/// True when `entries` binds `service`/`method` to some handler.
pub open spec fn has_method(entries: Seq<MethodEntryView>, service: Seq<char>, method: Seq<char>) -> bool {
    exists|i: int|
        0 <= i < entries.len() && #[trigger] entries[i].service == service && entries[i].method
            == method
}

/// No two rows bind the same service and method.
pub open spec fn keys_unique(entries: Seq<MethodEntryView>) -> bool {
    forall|i: int, j: int|
        0 <= i < j < entries.len() && #[trigger] entries[i].service == #[trigger] entries[j].service
            ==> entries[i].method != entries[j].method
}

/// The table from (service, method) to handler.
pub struct Registry {
    entries: Vec<MethodEntry>,
}

impl Registry {
    pub closed spec fn entries(&self) -> Seq<MethodEntryView> {
        self.entries@.map_values(|e: MethodEntry| e@)
    }

    pub open spec fn wf(&self) -> bool {
        keys_unique(self.entries())
    }

    /// An empty table.
    pub fn new() -> (r: Self)
        ensures
            r.wf(),
            r.entries() == Seq::<MethodEntryView>::empty(),
    {
        let r = Registry { entries: Vec::new() };
        assert(r.entries() =~= Seq::<MethodEntryView>::empty());
        r
    }

    /// Binds `service`/`method` to `handler`; a second binding of the same
    /// service and method is refused.
    pub fn register(&mut self, service: String, method: String, handler: Handler) -> (r: Result<
        (),
        ConfigError,
    >)
        requires
            old(self).wf(),
        ensures
            final(self).wf(),
            has_method(old(self).entries(), service@, method@) ==> {
                &&& r == Err::<(), ConfigError>(ConfigError::DuplicateMethod)
                &&& final(self).entries() == old(self).entries()
            },
            !has_method(old(self).entries(), service@, method@) ==> {
                &&& r is Ok
                &&& final(self).entries() == old(self).entries().push(
                    MethodEntryView { service: service@, method: method@, handler },
                )
            },
    {
        let n = self.entries.len();
        let mut i: usize = 0;
        while i < n
            invariant
                n == self.entries@.len(),
                i <= n,
                self.entries() == old(self).entries(),
                self.wf(),
                forall|k: int|
                    0 <= k < i ==> !(#[trigger] self.entries()[k].service == service@
                        && self.entries()[k].method == method@),
            decreases n - i,
        {
            assert(self.entries()[i as int] == self.entries@[i as int]@);
            if self.entries[i].service == service && self.entries[i].method == method {
                assert(self.entries()[i as int].service == service@);
                assert(has_method(old(self).entries(), service@, method@));
                return Err(ConfigError::DuplicateMethod);
            }
            i = i + 1;
        }
        let entry = MethodEntry { service, method, handler };
        let ghost before = self.entries();
        self.entries.push(entry);
        assert(self.entries() =~= before.push(entry@));
        Ok(())
    }

    /// The handler bound to `service`/`method`, provided it supports `kind`.
    pub fn resolve(&self, service: &String, method: &String, kind: InteractionKind) -> (r: Result<
        Handler,
        CallError,
    >)
        requires
            self.wf(),
        ensures
            !has_method(self.entries(), service@, method@) ==> r == Err::<Handler, CallError>(
                CallError::UnknownMethod,
            ),
            forall|i: int|
                0 <= i < self.entries().len() && #[trigger] self.entries()[i].service == service@
                    && self.entries()[i].method == method@ ==> if self.entries()[i].handler.kind()
                    == kind {
                    r == Ok::<Handler, CallError>(self.entries()[i].handler)
                } else {
                    r == Err::<Handler, CallError>(CallError::InvalidInteractionKind)
                },
    {
        let n = self.entries.len();
        let mut i: usize = 0;
        while i < n
            invariant
                n == self.entries@.len(),
                i <= n,
                self.wf(),
                forall|k: int|
                    0 <= k < i ==> !(#[trigger] self.entries()[k].service == service@
                        && self.entries()[k].method == method@),
            decreases n - i,
        {
            let e = &self.entries[i];
            assert(self.entries()[i as int] == e@);
            if e.service == *service && e.method == *method {
                assert(self.entries()[i as int].service == service@);
                assert(forall|j: int|
                    0 <= j < self.entries().len() && #[trigger] self.entries()[j].service
                        == service@ && self.entries()[j].method == method@ ==> j == i) by {
                    assert(keys_unique(self.entries()));
                };
                if e.handler.kind() == kind {
                    return Ok(e.handler);
                } else {
                    return Err(CallError::InvalidInteractionKind);
                }
            }
            i = i + 1;
        }
        Err(CallError::UnknownMethod)
    }
}

pub const PAYMENT_SERVICE: &'static str = "services.PaymentService";

pub const PROCESS_PAYMENT: &'static str = "ProcessPayment";

pub const TRANSACTION_SERVICE: &'static str = "services.TransactionService";

pub const GET_TRANSACTION_HISTORY: &'static str = "GetTransactionHistory";

pub const CHAT_SERVICE: &'static str = "services.ChatService";

pub const CHAT: &'static str = "Chat";

/// The three methods this service core offers.
pub open spec fn standard_entries() -> Seq<MethodEntryView> {
    seq![
        MethodEntryView {
            service: PAYMENT_SERVICE@,
            method: PROCESS_PAYMENT@,
            handler: Handler::Payment,
        },
        MethodEntryView {
            service: TRANSACTION_SERVICE@,
            method: GET_TRANSACTION_HISTORY@,
            handler: Handler::TransactionHistory,
        },
        MethodEntryView { service: CHAT_SERVICE@, method: CHAT@, handler: Handler::Chat },
    ]
}

/// What a call brings in: one payload, or (for a bidirectional call) an
/// inbound stream that its relay will read.
pub enum CallInput {
    Unary(PaymentRequest),
    ServerStream(TransactionRequest),
    BiStream,
}

impl CallInput {
    pub open spec fn kind_spec(&self) -> InteractionKind {
        match self {
            CallInput::Unary(_) => InteractionKind::Unary,
            CallInput::ServerStream(_) => InteractionKind::ServerStream,
            CallInput::BiStream => InteractionKind::BiStream,
        }
    }

    /// The interaction pattern the call was made with.
    #[verifier::when_used_as_spec(kind_spec)]
    pub fn kind(&self) -> (k: InteractionKind)
        ensures
            k == self.kind_spec(),
    {
        match self {
            CallInput::Unary(_) => InteractionKind::Unary,
            CallInput::ServerStream(_) => InteractionKind::ServerStream,
            CallInput::BiStream => InteractionKind::BiStream,
        }
    }
}

/// What an accepted call starts: the one response of a unary call, or the
/// one background task (producer or relay) of a streaming call.
pub enum CallStart {
    Response(PaymentResponse),
    Producer(HistoryProducer),
    Relay(ChatRelay),
}

/// True when `start` is what `handler` makes of `input`.
pub open spec fn started_as(start: CallStart, handler: Handler, input: CallInput) -> bool {
    match (handler, input, start) {
        (Handler::Payment, CallInput::Unary(req), CallStart::Response(resp)) => {
            &&& resp.success
            &&& resp.confirmation@ == confirmation_text(req.order_id@)
        },
        (Handler::TransactionHistory, CallInput::ServerStream(_), CallStart::Producer(p)) => {
            &&& p.wf()
            &&& p.emitted() == 0
            &&& p.total() == HISTORY_LENGTH
            &&& p.pause_every() == PAUSE_EVERY
            &&& !p.pause_due()
            &&& !p.stopped()
        },
        (Handler::Chat, CallInput::BiStream, CallStart::Relay(relay)) => {
            &&& relay.wf()
            &&& relay.awaiting_inbound()
            &&& relay.inbound() == Seq::<ChatMessageView>::empty()
            &&& relay.outbound() == Seq::<ChatMessageView>::empty()
        },
        _ => false,
    }
}

impl Registry {
    pub fn len(&self) -> (n: usize)
        ensures
            n == self.entries().len(),
    {
        self.entries.len()
    }

    /// The table binding the payment, transaction history and chat methods.
    pub fn standard() -> (r: Self)
        ensures
            r.wf(),
            r.entries() == standard_entries(),
    {
        proof {
            reveal_strlit("services.PaymentService");
            reveal_strlit("services.TransactionService");
            reveal_strlit("services.ChatService");
            assert(PAYMENT_SERVICE@[9] != TRANSACTION_SERVICE@[9]);
            assert(PAYMENT_SERVICE@[9] != CHAT_SERVICE@[9]);
            assert(TRANSACTION_SERVICE@[9] != CHAT_SERVICE@[9]);
        }
        let mut r = Registry::new();
        let _ = r.register(
            String::from_str(PAYMENT_SERVICE),
            String::from_str(PROCESS_PAYMENT),
            Handler::Payment,
        );
        let _ = r.register(
            String::from_str(TRANSACTION_SERVICE),
            String::from_str(GET_TRANSACTION_HISTORY),
            Handler::TransactionHistory,
        );
        let _ = r.register(String::from_str(CHAT_SERVICE), String::from_str(CHAT), Handler::Chat);
        assert(r.entries() =~= standard_entries());
        r
    }

    /// Routes one call: refuses an unknown method or a wrong interaction
    /// pattern before anything starts, and otherwise hands the payload to
    /// the bound handler, which yields exactly one response, one error, or
    /// one background task.
    pub fn dispatch(&self, service: &String, method: &String, input: CallInput) -> (r: Result<
        CallStart,
        CallError,
    >)
        requires
            self.wf(),
        ensures
            !has_method(self.entries(), service@, method@) ==> r == Err::<CallStart, CallError>(
                CallError::UnknownMethod,
            ),
            forall|i: int|
                0 <= i < self.entries().len() && #[trigger] self.entries()[i].service == service@
                    && self.entries()[i].method == method@ ==> if self.entries()[i].handler.kind()
                    == input.kind() {
                    r matches Ok(start) && started_as(start, self.entries()[i].handler, input)
                } else {
                    r == Err::<CallStart, CallError>(CallError::InvalidInteractionKind)
                },
            input is Unary ==> (r matches Ok(start) ==> start is Response),
    {
        let kind = input.kind();
        match self.resolve(service, method, kind) {
            Err(e) => Err(e),
            Ok(handler) => match (handler, input) {
                (Handler::Payment, CallInput::Unary(req)) => {
                    match MyPaymentService.process_payment(req) {
                        Ok(resp) => Ok(CallStart::Response(resp)),
                        Err(e) => Err(e),
                    }
                },
                (Handler::TransactionHistory, CallInput::ServerStream(req)) => {
                    Ok(CallStart::Producer(MyTransactionService.get_transaction_history(&req)))
                },
                (Handler::Chat, CallInput::BiStream) => {
                    Ok(CallStart::Relay(MyChatService.chat()))
                },
                _ => Err(CallError::InvalidInteractionKind),
            },
        }
    }
}

} // verus!
