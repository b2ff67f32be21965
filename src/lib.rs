//! Core of a small RPC service: a bounded channel between a call's producer
//! and its consumer, the decisions of the unary, server-streaming and
//! bidirectional handlers, and the dispatcher that routes a call to them.
pub mod channel;
pub mod chat;
pub mod dispatch;
pub mod history;
pub mod messages;
pub mod payment;

pub use chat::MyChatService;
pub use history::MyTransactionService;
pub use payment::MyPaymentService;
