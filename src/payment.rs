use vstd::prelude::*;
use vstd::string::StringExecFns;
use crate::dispatch::CallError;
use crate::messages::{PaymentRequest, PaymentResponse};

verus! {

/// Text of a payment confirmation for `order_id`.
pub open spec fn confirmation_text(order_id: Seq<char>) -> Seq<char> {
    "Order "@ + order_id + " processed!"@
}

/// The unary payment handler.
#[derive(Clone, Copy, Debug, Default)]
pub struct MyPaymentService;

impl MyPaymentService {
    pub fn new() -> (s: Self) {
        MyPaymentService
    }

    /// Handles one payment request: the single result of the call is a
    /// successful confirmation naming the order.
    pub fn process_payment(&self, request: PaymentRequest) -> (r: Result<
        PaymentResponse,
        CallError,
    >)
        ensures
            r is Ok,
            r->Ok_0.success,
            r->Ok_0.confirmation@ == confirmation_text(request.order_id@),
    {
        let confirmation = String::from_str("Order ").concat(request.order_id.as_str()).concat(
            " processed!",
        );
        Ok(PaymentResponse { success: true, confirmation })
    }
}

} // verus!
