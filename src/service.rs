//! The decisions taken while serving a request, between the calls to the
//! node and to the offer-resolution collaborator.
use vstd::prelude::*;
use vstd::string::StringExecFns;

use crate::invoice::{contents_converted, generate_bolt12_invoice_contents, Amount, InvoiceData};

use crate::rpc::{GetInvoiceResponse, PayInvoiceResponse, PayOfferResponse, Bolt12InvoiceContents};
use crate::codec::{encode_invoice_as_hex, hex_of};
use crate::payments::{ActivePayments, PaymentId};
use crate::status::{status_with, Code, RpcStatus};

verus! {

/// What a request's metadata holds under the credential's key.
#[derive(Debug, Clone)]
pub enum MacaroonEntry {
    /// No entry.
    Missing,
    /// An entry that is not text; the reason.
    NotText(String),
    /// The credential.
    Text(String),
}

/// The four operations of the service.
#[derive(Debug, Clone, Copy, PartialEq, Eq, Structural)]
pub enum Operation {
    PayOffer,
    GetInvoice,
    DecodeInvoice,
    PayInvoice,
}

/// How the offer-resolution collaborator failed.
#[derive(Debug, Clone)]
pub enum OfferFailure {
    /// The amount is missing or conflicts with the offer; the explanation.
    InvalidAmount(String),
    /// The offer is in a currency that cannot be paid; the explanation.
    InvalidCurrency(String),
    /// Any other failure; its description.
    Other(String),
}

/// The first step of a request, taken before anything is contacted.
#[derive(Debug, Clone)]
pub enum FirstStep {
    /// End the request with this status.
    Reject(RpcStatus),
    /// Connect to the node with this credential.
    ConnectNode(String),
    /// Decode the invoice; no node is needed.
    DecodeOnly,
}

/// `r` is the status for the credential entry `e`: none gives
/// `Unauthenticated`, one that is not text `InvalidArgument`.
pub open spec fn auth_outcome(r: Result<String, RpcStatus>, e: MacaroonEntry) -> bool {
    match e {
        MacaroonEntry::Missing => r is Err && r->Err_0.code == Code::Unauthenticated
            && r->Err_0.message@ == "No LND macaroon provided: Make sure to provide macaroon in request metadata"@,
        MacaroonEntry::NotText(why) => r is Err && r->Err_0.code == Code::InvalidArgument
            && r->Err_0.message@ == "Invalid macaroon string provided: "@ + why@,
        MacaroonEntry::Text(m) => r is Ok && r->Ok_0@ == m@,
    }
}

/// The credential of a request.
pub fn check_auth_metadata(entry: &MacaroonEntry) -> (r: Result<String, RpcStatus>)
    ensures
        auth_outcome(r, *entry),
{
    match entry {
        MacaroonEntry::Text(m) => Ok(m.clone()),
        MacaroonEntry::NotText(why) => Err(
            status_with(Code::InvalidArgument, "Invalid macaroon string provided: ", why.as_str()),
        ),
        MacaroonEntry::Missing => Err(
            RpcStatus {
                code: Code::Unauthenticated,
                message: String::from_str(
                    "No LND macaroon provided: Make sure to provide macaroon in request metadata",
                ),
            },
        ),
    }
}

/// `r` is how a request for `op` with credential entry `e` starts.
pub open spec fn first_step_of(r: FirstStep, op: Operation, e: MacaroonEntry) -> bool {
    if op == Operation::DecodeInvoice {
        r is DecodeOnly
    } else {
        match e {
            MacaroonEntry::Missing => r is Reject && r->Reject_0.code == Code::Unauthenticated,
            MacaroonEntry::NotText(_) => r is Reject && r->Reject_0.code == Code::InvalidArgument,
            MacaroonEntry::Text(m) => r is ConnectNode && r->ConnectNode_0@ == m@,
        }
    }
}

/// Decides how a request starts: decoding needs no credential; every other
/// operation contacts the node only with a credential that is text.
pub fn begin_request(op: Operation, entry: &MacaroonEntry) -> (r: FirstStep)
    ensures
        first_step_of(r, op, *entry),
{
    if op == Operation::DecodeInvoice {
        FirstStep::DecodeOnly
    } else {
        match check_auth_metadata(entry) {
            Ok(m) => FirstStep::ConnectNode(m),
            Err(s) => FirstStep::Reject(s),
        }
    }
}

/// Without a credential, every operation but decoding ends as
/// unauthenticated before the node is contacted.
pub proof fn lemma_missing_credential_rejected(op: Operation, r: FirstStep)
    requires
        op != Operation::DecodeInvoice,
        first_step_of(r, op, MacaroonEntry::Missing),
    ensures
        r is Reject,
        r->Reject_0.code == Code::Unauthenticated,
        !(r is ConnectNode),
{
}

/// The status for a failure of the offer-resolution collaborator: amount and
/// currency problems are the caller's, anything else is internal.
pub open spec fn offer_failure_code(e: OfferFailure) -> Code {
    match e {
        OfferFailure::InvalidAmount(_) => Code::InvalidArgument,
        OfferFailure::InvalidCurrency(_) => Code::InvalidArgument,
        OfferFailure::Other(_) => Code::Internal,
    }
}

/// The message reported for a failure of the offer-resolution collaborator.
pub open spec fn offer_failure_message(e: OfferFailure) -> Seq<char> {
    match e {
        OfferFailure::InvalidAmount(m) => m@,
        OfferFailure::InvalidCurrency(m) => m@,
        OfferFailure::Other(m) => "Internal error: "@ + m@,
    }
}

/// The status reported for a failure of the offer-resolution collaborator.
pub fn offer_error_status(e: &OfferFailure) -> (r: RpcStatus)
    ensures
        r.code == offer_failure_code(*e),
        r.message@ == offer_failure_message(*e),
{
    match e {
        OfferFailure::InvalidAmount(m) => RpcStatus { code: Code::InvalidArgument, message: m.clone() },
        OfferFailure::InvalidCurrency(m) => RpcStatus { code: Code::InvalidArgument, message: m.clone() },
        OfferFailure::Other(m) => status_with(Code::Internal, "Internal error: ", m.as_str()),
    }
}

/// An offer that needs an amount, asked for with none, fails as the
/// caller's error with the collaborator's explanation, never as internal.
pub proof fn lemma_missing_amount_is_invalid_argument(e: OfferFailure)
    requires
        e is InvalidAmount,
    ensures
        offer_failure_code(e) == Code::InvalidArgument,
        offer_failure_message(e) == e->InvalidAmount_0@,
{
}

/// Settles what a payment of an offer returned.
pub fn finish_pay_offer(outcome: Result<String, OfferFailure>) -> (r: Result<PayOfferResponse, RpcStatus>)
    ensures
        outcome is Ok <==> r is Ok,
        outcome is Ok ==> r->Ok_0.payment_preimage@ == outcome->Ok_0@,
        outcome is Err ==> r->Err_0.code == offer_failure_code(outcome->Err_0)
            && r->Err_0.message@ == offer_failure_message(outcome->Err_0),
{
    match outcome {
        Ok(payment_preimage) => Ok(PayOfferResponse { payment_preimage }),
        Err(e) => Err(offer_error_status(&e)),
    }
}

/// The amount to pay for an invoice that asks for `invoice_amount`, when
/// the caller asked to pay `requested`: none or an amount in a currency.
pub open spec fn invoice_amount_to_pay(invoice_amount: Option<Amount>, requested: Option<u64>) -> Option<u64> {
    match invoice_amount {
        None => requested,
        Some(Amount::Bitcoin { amount_msats }) => match requested {
            None => Some(amount_msats),
            Some(x) => if x == amount_msats { Some(x) } else { None },
        },
        Some(Amount::Currency { .. }) => None,
    }
}

/// Checks the amount the caller asked to pay against the invoice's own.
pub fn validate_invoice_amount(invoice_amount: Option<Amount>, requested: Option<u64>) -> (r: Result<u64, RpcStatus>)
    ensures
        invoice_amount_to_pay(invoice_amount, requested) is Some <==> r is Ok,
        r is Ok ==> r->Ok_0 == invoice_amount_to_pay(invoice_amount, requested)->0,
        r is Err ==> r->Err_0.code == Code::InvalidArgument,
{
    match invoice_amount {
        None => match requested {
            Some(x) => Ok(x),
            None => Err(status_with(Code::InvalidArgument, "The invoice doesn't set an amount, so you must specify one.", "")),
        },
        Some(Amount::Bitcoin { amount_msats }) => match requested {
            None => Ok(amount_msats),
            Some(x) => if x == amount_msats {
                Ok(x)
            } else {
                Err(status_with(Code::InvalidArgument, "The requested amount differs from the amount the invoice sets.", ""))
            },
        },
        Some(Amount::Currency { .. }) => Err(status_with(Code::InvalidArgument, "The invoice is in an unsupported currency.", "")),
    }
}

/// Settles what the payment of an invoice returned.
pub fn finish_pay_invoice(outcome: Result<String, String>) -> (r: Result<PayInvoiceResponse, RpcStatus>)
    ensures
        outcome is Ok <==> r is Ok,
        outcome is Ok ==> r->Ok_0.payment_preimage@ == outcome->Ok_0@,
        outcome is Err ==> r->Err_0.code == Code::Internal
            && r->Err_0.message@ == "Error paying invoice: "@ + outcome->Err_0@,
{
    match outcome {
        Ok(payment_preimage) => Ok(PayInvoiceResponse { payment_preimage }),
        Err(e) => Err(status_with(Code::Internal, "Error paying invoice: ", e.as_str())),
    }
}

/// The status of a request whose node could not be reached.
pub fn node_unavailable(e: &str) -> (r: RpcStatus)
    ensures
        r.code == Code::Unavailable,
        r.message@ == "Couldn't connect to lnd: "@ + e@,
{
    status_with(Code::Unavailable, "Couldn't connect to lnd: ", e)
}

/// Replies to a request to decode an invoice, given what parsing it gave.
pub fn decode_invoice(parsed: Result<InvoiceData, String>) -> (r: Result<Bolt12InvoiceContents, RpcStatus>)
    ensures
        parsed is Ok <==> r is Ok,
        parsed is Ok ==> contents_converted(r->Ok_0, parsed->Ok_0),
        parsed is Err ==> r->Err_0.code == Code::InvalidArgument && r->Err_0.message@ == parsed->Err_0@,
{
    match parsed {
        Ok(invoice) => Ok(generate_bolt12_invoice_contents(&invoice)),
        Err(message) => Err(RpcStatus { code: Code::InvalidArgument, message }),
    }
}

/// What is active once a request for an invoice is answered, given what
/// was active when the collaborator returned `outcome`.
pub open spec fn active_after_get_invoice(
    active: Map<Seq<u8>, InvoiceData>,
    outcome: Result<(InvoiceData, PaymentId), OfferFailure>,
) -> Map<Seq<u8>, InvoiceData> {
    match outcome {
        Ok((_, id)) => active.remove(id.bytes@),
        Err(_) => active,
    }
}

/// Answers a request for an invoice, given what the collaborator returned:
/// the invoice it obtained and the payment it started tracking for it, or
/// why it failed. The payment stops being active before the reply is made.
pub fn finish_get_invoice(
    active_payments: &mut ActivePayments,
    outcome: Result<(InvoiceData, PaymentId), OfferFailure>,
) -> (r: Result<GetInvoiceResponse, RpcStatus>)
    ensures
        final(active_payments)@ == active_after_get_invoice(old(active_payments)@, outcome),
        outcome is Ok <==> r is Ok,
        outcome is Ok ==> {
            let reply = r->Ok_0;
            &&& reply.invoice_hex_str@ == hex_of(outcome->Ok_0.0.wire@)
            &&& reply.invoice_contents is Some
            &&& contents_converted(reply.invoice_contents->0, outcome->Ok_0.0)
        },
        outcome is Err ==> r->Err_0.code == offer_failure_code(outcome->Err_0)
            && r->Err_0.message@ == offer_failure_message(outcome->Err_0),
{
    match outcome {
        Ok((invoice, payment_id)) => {
            active_payments.remove(&payment_id);
            Ok(GetInvoiceResponse {
                invoice_hex_str: encode_invoice_as_hex(invoice.wire.as_slice()),
                invoice_contents: Some(generate_bolt12_invoice_contents(&invoice)),
            })
        },
        Err(e) => Err(offer_error_status(&e)),
    }
}

/// A request for an invoice leaves the payments as it found them: the
/// collaborator starts tracking a fresh payment identifier, and answering the
/// request stops tracking it again.
pub proof fn lemma_get_invoice_restores_payments(
    before: Map<Seq<u8>, InvoiceData>,
    invoice: InvoiceData,
    payment_id: PaymentId,
)
    requires
        !before.contains_key(payment_id.bytes@),
    ensures
        active_after_get_invoice(before.insert(payment_id.bytes@, invoice), Ok((invoice, payment_id)))
            == before,
        !active_after_get_invoice(before.insert(payment_id.bytes@, invoice), Ok((invoice, payment_id)))
            .contains_key(payment_id.bytes@),
{
    assert(before.insert(payment_id.bytes@, invoice).remove(payment_id.bytes@) =~= before);
}

/// When a request for an invoice is answered, nothing stays active: the
/// collaborator tracks at most the payment it returns, and nothing when it fails.
pub proof fn lemma_get_invoice_leaves_nothing_tracked(
    active: Map<Seq<u8>, InvoiceData>,
    outcome: Result<(InvoiceData, PaymentId), OfferFailure>,
)
    requires
        outcome is Ok ==> forall|k: Seq<u8>| #[trigger] active.contains_key(k) ==> k == outcome->Ok_0.1.bytes@,
        outcome is Err ==> active == Map::<Seq<u8>, InvoiceData>::empty(),
    ensures
        active_after_get_invoice(active, outcome) == Map::<Seq<u8>, InvoiceData>::empty(),
{
    if outcome is Ok {
        assert(active_after_get_invoice(active, outcome) =~= Map::<Seq<u8>, InvoiceData>::empty());
    }
}

} // verus!
