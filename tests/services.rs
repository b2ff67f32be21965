use rpc_core::chat::{ChatRelay, RelayStep, REPLY_PREFIX};
use rpc_core::channel::ReceiveOutcome;
use rpc_core::dispatch::{
    CallError, CallInput, CallStart, ConfigError, Handler, InteractionKind, Registry, CHAT,
    CHAT_SERVICE, GET_TRANSACTION_HISTORY, PAYMENT_SERVICE, PROCESS_PAYMENT, TRANSACTION_SERVICE,
};
use rpc_core::history::{
    history_record_at, HistoryCall, HistoryProducer, ProducerStep, HISTORY_CHANNEL_CAPACITY,
    HISTORY_LENGTH, PAUSE_EVERY,
};
use rpc_core::messages::{decimal_string, ChatMessage, PaymentRequest, TransactionRecord, TransactionRequest};
use rpc_core::{MyChatService, MyPaymentService, MyTransactionService};

fn chat(user: &str, text: &str) -> ChatMessage {
    ChatMessage { user_id: user.to_string(), message: text.to_string() }
}

#[test]
fn unary_payment_confirms_order() {
    let resp = MyPaymentService::new()
        .process_payment(PaymentRequest { order_id: "A1".to_string() })
        .unwrap();
    assert!(resp.success);
    assert_eq!(resp.confirmation, "Order A1 processed!");
}

#[test]
fn unary_dispatch_yields_one_response() {
    let reg = Registry::standard();
    let start = reg
        .dispatch(
            &PAYMENT_SERVICE.to_string(),
            &PROCESS_PAYMENT.to_string(),
            CallInput::Unary(PaymentRequest { order_id: "user_123".to_string() }),
        )
        .ok()
        .unwrap();
    match start {
        CallStart::Response(r) => {
            assert!(r.success);
            assert_eq!(r.confirmation, "Order user_123 processed!");
        }
        _ => panic!("a unary call starts no task"),
    }
}

#[test]
fn unknown_method_is_refused() {
    let reg = Registry::standard();
    let r = reg.dispatch(
        &PAYMENT_SERVICE.to_string(),
        &"Refund".to_string(),
        CallInput::Unary(PaymentRequest { order_id: "A1".to_string() }),
    );
    assert!(matches!(r, Err(CallError::UnknownMethod)));
    let r = reg.resolve(&"services.Nope".to_string(), &CHAT.to_string(), InteractionKind::BiStream);
    assert!(matches!(r, Err(CallError::UnknownMethod)));
}

#[test]
fn wrong_interaction_kind_is_refused() {
    let reg = Registry::standard();
    let r = reg.dispatch(&CHAT_SERVICE.to_string(), &CHAT.to_string(), CallInput::Unary(PaymentRequest {
        order_id: "A1".to_string(),
    }));
    assert!(matches!(r, Err(CallError::InvalidInteractionKind)));
    let r = reg.resolve(&PAYMENT_SERVICE.to_string(), &PROCESS_PAYMENT.to_string(), InteractionKind::ServerStream);
    assert!(matches!(r, Err(CallError::InvalidInteractionKind)));
}

#[test]
fn streaming_dispatch_starts_one_task() {
    let reg = Registry::standard();
    assert_eq!(reg.len(), 3);
    let r = reg.dispatch(
        &TRANSACTION_SERVICE.to_string(),
        &GET_TRANSACTION_HISTORY.to_string(),
        CallInput::ServerStream(TransactionRequest { user_id: "user_123".to_string() }),
    );
    match r {
        Ok(CallStart::Producer(p)) => {
            assert_eq!(p.records_emitted(), 0);
            assert!(!p.is_finished());
        }
        _ => panic!("expected a producer"),
    }
    let r = reg.dispatch(&CHAT_SERVICE.to_string(), &CHAT.to_string(), CallInput::BiStream);
    assert!(matches!(r, Ok(CallStart::Relay(_))));
    assert_eq!(
        reg.resolve(&CHAT_SERVICE.to_string(), &CHAT.to_string(), InteractionKind::BiStream),
        Ok(Handler::Chat)
    );
}

#[test]
fn duplicate_registration_is_refused() {
    let mut reg = Registry::new();
    assert_eq!(reg.register("s".to_string(), "m".to_string(), Handler::Payment), Ok(()));
    assert_eq!(reg.register("s".to_string(), "n".to_string(), Handler::Chat), Ok(()));
    assert_eq!(
        reg.register("s".to_string(), "m".to_string(), Handler::Chat),
        Err(ConfigError::DuplicateMethod)
    );
    assert_eq!(reg.len(), 2);
    assert_eq!(reg.resolve(&"s".to_string(), &"m".to_string(), InteractionKind::Unary), Ok(Handler::Payment));
}

#[test]
fn decimal_strings() {
    assert_eq!(decimal_string(0), "0");
    assert_eq!(decimal_string(7), "7");
    assert_eq!(decimal_string(10), "10");
    assert_eq!(decimal_string(305), "305");
    assert_eq!(decimal_string(u64::MAX), u64::MAX.to_string());
}

#[test]
fn history_records_are_numbered() {
    assert_eq!(
        history_record_at(12),
        TransactionRecord { transaction_id: "txn12".to_string(), amount: 120 }
    );
}

fn run_history(capacity: usize) -> Vec<TransactionRecord> {
    let producer = MyTransactionService::new()
        .get_transaction_history(&TransactionRequest { user_id: "user_123".to_string() });
    let mut call = HistoryCall::new(producer, capacity);
    let mut out = Vec::new();
    loop {
        call.run_producer();
        loop {
            match call.receive() {
                ReceiveOutcome::Item(r) => out.push(r),
                ReceiveOutcome::Empty => break,
                ReceiveOutcome::EndOfStream => return out,
            }
        }
    }
}

#[test]
fn history_stream_yields_thirty_records_in_order() {
    for capacity in [HISTORY_CHANNEL_CAPACITY, 1, 64] {
        let out = run_history(capacity);
        assert_eq!(out.len(), 30);
        for (k, r) in out.iter().enumerate() {
            let i = k as u64 + 1;
            assert_eq!(r.transaction_id, format!("txn{}", i));
            assert_eq!(r.amount as f64, (i as f64) * 10.0);
        }
    }
}

#[test]
fn producer_pauses_every_ten_records() {
    let mut p = HistoryProducer::new(HISTORY_LENGTH, PAUSE_EVERY);
    let mut pauses = Vec::new();
    loop {
        match p.next_step() {
            ProducerStep::Emit(_) => p.on_sent(),
            ProducerStep::Pause => {
                pauses.push(p.records_emitted());
                p.on_paused();
            }
            ProducerStep::Stop => break,
        }
    }
    assert_eq!(pauses, vec![10, 20, 30]);
    assert_eq!(p.records_emitted(), 30);
}

#[test]
fn producer_stops_after_failed_send() {
    let mut p = HistoryProducer::new(HISTORY_LENGTH, PAUSE_EVERY);
    assert!(matches!(p.next_step(), ProducerStep::Emit(_)));
    p.on_sent();
    p.on_send_failed();
    assert!(matches!(p.next_step(), ProducerStep::Stop));
    assert!(p.is_finished());
    assert_eq!(p.records_emitted(), 1);
}

#[test]
fn disconnect_stops_history_producer() {
    for capacity in [1usize, HISTORY_CHANNEL_CAPACITY] {
        let producer = HistoryProducer::new(HISTORY_LENGTH, PAUSE_EVERY);
        let mut call = HistoryCall::new(producer, capacity);
        let mut received = 0u64;
        while received < 3 {
            call.run_producer();
            if let ReceiveOutcome::Item(_) = call.receive() {
                received += 1;
            }
        }
        call.disconnect();
        call.run_producer();
        assert!(call.producer_finished());
        let emitted = call.records_emitted();
        assert!(emitted <= received + capacity as u64);
        call.run_producer();
        assert_eq!(call.records_emitted(), emitted);
    }
}

#[test]
fn reply_carries_inbound_message() {
    let r = MyChatService::reply_to(&chat("user_123", "hi"));
    assert_eq!(r.user_id, "user_123");
    assert_eq!(r.message, format!("{}hi", REPLY_PREFIX));
    assert!(r.message.starts_with("Terima kasih telah melakukan chat"));
}

#[test]
fn relay_answers_each_inbound_message_in_order() {
    let mut relay: ChatRelay = MyChatService::new().chat();
    let mut outbound = Vec::new();
    for text in ["hi", "there"] {
        match relay.on_inbound(Some(chat("u", text))) {
            RelayStep::Send(reply) => outbound.push(reply),
            _ => panic!("each message gets a reply"),
        }
        assert!(matches!(relay.on_send_result(true), RelayStep::ReadInbound));
    }
    assert!(matches!(relay.on_inbound(None), RelayStep::Stop));
    assert_eq!(outbound.len(), 2);
    assert_eq!(outbound[0], MyChatService::reply_to(&chat("u", "hi")));
    assert_eq!(outbound[1], MyChatService::reply_to(&chat("u", "there")));
}

#[test]
fn relay_stops_when_caller_disconnects() {
    let mut relay = ChatRelay::new();
    let mut sent = 0;
    match relay.on_inbound(Some(chat("u", "hi"))) {
        RelayStep::Send(_) => sent += 1,
        _ => panic!("expected a reply"),
    }
    assert!(matches!(relay.on_send_result(true), RelayStep::ReadInbound));
    // the caller goes away after the first reply: the second send fails
    match relay.on_inbound(Some(chat("u", "there"))) {
        RelayStep::Send(_) => {}
        _ => panic!("expected a reply"),
    }
    assert!(matches!(relay.on_send_result(false), RelayStep::Stop));
    assert_eq!(sent, 1);
}

#[test]
fn drained_history_matches_producer_count_and_ends_for_good() {
    let producer = HistoryProducer::new(HISTORY_LENGTH, PAUSE_EVERY);
    let mut call = HistoryCall::new(producer, 2);
    let mut received = 0u64;
    loop {
        call.run_producer();
        match call.receive() {
            ReceiveOutcome::Item(_) => received += 1,
            ReceiveOutcome::Empty => {}
            ReceiveOutcome::EndOfStream => break,
        }
        assert!(call.records_emitted() - received <= 2);
    }
    assert_eq!(received, call.records_emitted());
    assert_eq!(received, 30);
    assert!(matches!(call.receive(), ReceiveOutcome::EndOfStream));
    assert!(matches!(call.receive(), ReceiveOutcome::EndOfStream));
}

#[test]
fn draining_a_history_call_yields_the_full_history() {
    for capacity in [1usize, HISTORY_CHANNEL_CAPACITY, 30, 100] {
        let producer = MyTransactionService::new()
            .get_transaction_history(&TransactionRequest { user_id: "user_123".to_string() });
        let mut call = HistoryCall::new(producer, capacity);
        let records = call.drain();
        assert_eq!(records.len(), 30);
        assert_eq!(call.records_emitted(), 30);
        for (k, r) in records.iter().enumerate() {
            assert_eq!(*r, history_record_at(k as u64 + 1));
        }
        assert!(matches!(call.receive(), ReceiveOutcome::EndOfStream));
    }
}
