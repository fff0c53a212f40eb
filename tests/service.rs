use lndk::invoice::{Amount, InvoiceData, PublicKey};
use lndk::payments::{ActivePayments, PaymentId};
use lndk::service::{
    begin_request, check_auth_metadata, decode_invoice, finish_get_invoice, finish_pay_invoice,
    finish_pay_offer, node_unavailable, offer_error_status, validate_invoice_amount, FirstStep,
    MacaroonEntry, OfferFailure, Operation,
};
use lndk::status::Code;
use lndk::LNDKServer;

fn invoice(wire: Vec<u8>) -> InvoiceData {
    InvoiceData {
        chain: "chain".to_string(),
        quantity: None,
        amount: None,
        amount_msats: 1000,
        description: None,
        payment_hash: vec![1; 32],
        created_at: 10,
        relative_expiry: 20,
        signing_pubkey: PublicKey { bytes: vec![2; 33] },
        signature: "sig".to_string(),
        payment_paths: vec![],
        payer_note: None,
        wire,
    }
}

fn id(b: u8) -> PaymentId {
    PaymentId { bytes: vec![b; 32] }
}

#[test]
fn auth_without_macaroon_is_unauthenticated() {
    let e = check_auth_metadata(&MacaroonEntry::Missing).unwrap_err();
    assert_eq!(e.code, Code::Unauthenticated);
    assert_eq!(e.message, "No LND macaroon provided: Make sure to provide macaroon in request metadata");
}

#[test]
fn auth_with_non_text_macaroon_is_invalid() {
    let e = check_auth_metadata(&MacaroonEntry::NotText("bad byte".to_string())).unwrap_err();
    assert_eq!(e.code, Code::InvalidArgument);
    assert_eq!(e.message, "Invalid macaroon string provided: bad byte");
}

#[test]
fn auth_with_macaroon_returns_it() {
    assert_eq!(check_auth_metadata(&MacaroonEntry::Text("0201abcd".to_string())).unwrap(), "0201abcd");
}

#[test]
fn every_node_operation_needs_a_credential() {
    for op in [Operation::PayOffer, Operation::GetInvoice, Operation::PayInvoice] {
        match begin_request(op, &MacaroonEntry::Missing) {
            FirstStep::Reject(s) => assert_eq!(s.code, Code::Unauthenticated),
            _ => panic!("a request without a credential went on"),
        }
        match begin_request(op, &MacaroonEntry::Text("m".to_string())) {
            FirstStep::ConnectNode(m) => assert_eq!(m, "m"),
            _ => panic!("a request with a credential was refused"),
        }
    }
}

#[test]
fn decoding_needs_no_credential() {
    assert!(matches!(begin_request(Operation::DecodeInvoice, &MacaroonEntry::Missing), FirstStep::DecodeOnly));
}

#[test]
fn missing_amount_is_invalid_argument() {
    let e = offer_error_status(&OfferFailure::InvalidAmount("Offer doesn't set an amount".to_string()));
    assert_eq!(e.code, Code::InvalidArgument);
    assert_eq!(e.message, "Offer doesn't set an amount");
    let e = finish_pay_offer(Err(OfferFailure::InvalidAmount("no amount".to_string()))).unwrap_err();
    assert_eq!(e.code, Code::InvalidArgument);
    let mut active = ActivePayments::new();
    let e = finish_get_invoice(&mut active, Err(OfferFailure::InvalidAmount("no amount".to_string()))).unwrap_err();
    assert_eq!(e.code, Code::InvalidArgument);
    assert_eq!(e.message, "no amount");
}

#[test]
fn currency_and_other_offer_failures() {
    assert_eq!(offer_error_status(&OfferFailure::InvalidCurrency("currency".to_string())).code, Code::InvalidArgument);
    let e = offer_error_status(&OfferFailure::Other("timeout".to_string()));
    assert_eq!(e.code, Code::Internal);
    assert_eq!(e.message, "Internal error: timeout");
}

#[test]
fn pay_offer_returns_preimage() {
    assert_eq!(finish_pay_offer(Ok("beef".to_string())).unwrap().payment_preimage, "beef");
}

#[test]
fn get_invoice_leaves_no_active_payment() {
    let mut active = ActivePayments::new();
    active.insert(id(4), invoice(vec![0xde, 0xad]));
    let reply = finish_get_invoice(&mut active, Ok((invoice(vec![0xde, 0xad]), id(4)))).unwrap();
    assert!(active.is_empty());
    assert_eq!(reply.invoice_hex_str, "dead");
    assert_eq!(reply.invoice_contents.unwrap().amount_msats, 1000);
}

#[test]
fn get_invoice_failure_leaves_no_active_payment() {
    let mut active = ActivePayments::new();
    assert!(finish_get_invoice(&mut active, Err(OfferFailure::Other("x".to_string()))).is_err());
    assert!(active.is_empty());
}

#[test]
fn get_invoice_restores_earlier_payments() {
    let mut active = ActivePayments::new();
    active.insert(id(8), invoice(vec![]));
    active.insert(id(9), invoice(vec![1]));
    assert!(finish_get_invoice(&mut active, Ok((invoice(vec![1]), id(9)))).is_ok());
    assert!(!active.contains(&id(9)));
    assert!(active.contains(&id(8)));
}

#[test]
fn active_payments_insert_and_remove() {
    let mut active = ActivePayments::new();
    active.insert(id(1), invoice(vec![]));
    active.insert(id(2), invoice(vec![]));
    active.insert(id(1), invoice(vec![]));
    assert!(active.contains(&id(1)));
    assert!(active.contains(&id(2)));
    assert!(!active.contains(&id(3)));
    active.remove(&id(1));
    assert!(!active.contains(&id(1)));
    assert!(active.contains(&id(2)));
    assert!(!active.is_empty());
    active.remove(&id(2));
    assert!(active.is_empty());
}

#[test]
fn invoice_amount_validation() {
    let fixed = Some(Amount::Bitcoin { amount_msats: 5000 });
    assert_eq!(validate_invoice_amount(fixed, None).unwrap(), 5000);
    assert_eq!(validate_invoice_amount(fixed, Some(5000)).unwrap(), 5000);
    assert_eq!(validate_invoice_amount(fixed, Some(4000)).unwrap_err().code, Code::InvalidArgument);
    assert_eq!(validate_invoice_amount(None, Some(7)).unwrap(), 7);
    assert_eq!(validate_invoice_amount(None, None).unwrap_err().code, Code::InvalidArgument);
    let fiat = Some(Amount::Currency { iso4217_code: 840, amount: 3 });
    assert_eq!(validate_invoice_amount(fiat, Some(3)).unwrap_err().code, Code::InvalidArgument);
}

#[test]
fn pay_invoice_outcomes() {
    assert_eq!(finish_pay_invoice(Ok("aa".to_string())).unwrap().payment_preimage, "aa");
    let e = finish_pay_invoice(Err("no route".to_string())).unwrap_err();
    assert_eq!(e.code, Code::Internal);
    assert_eq!(e.message, "Error paying invoice: no route");
}

#[test]
fn unreachable_node_is_unavailable() {
    let e = node_unavailable("refused");
    assert_eq!(e.code, Code::Unavailable);
    assert_eq!(e.message, "Couldn't connect to lnd: refused");
}

#[test]
fn decode_invoice_outcomes() {
    let c = decode_invoice(Ok(invoice(vec![]))).unwrap();
    assert_eq!(c.relative_expiry, 20);
    let e = decode_invoice(Err("bad invoice".to_string())).unwrap_err();
    assert_eq!(e.code, Code::InvalidArgument);
    assert_eq!(e.message, "bad invoice");
}

#[test]
fn server_parses_node_key() {
    let g = "0279be667ef9dcbbac55a06295ce870b07029bfcdb2dce28d959f2815b16f81798";
    let s = LNDKServer::try_new(g, "cert".to_string(), "https://localhost:10009".to_string()).unwrap();
    assert_eq!(s.node_id.bytes, hex_bytes(g));
    assert_eq!(s.lnd_cert, "cert");
    let s = LNDKServer::new(g, "cert".to_string(), "addr".to_string());
    assert_eq!(s.node_id.bytes.len(), 33);
    assert_eq!(s.address, "addr");
}

#[test]
fn server_rejects_bad_node_key() {
    assert!(LNDKServer::try_new("02zz", "c".to_string(), "a".to_string()).is_none());
    let not_on_curve = "020000000000000000000000000000000000000000000000000000000000000000";
    assert!(LNDKServer::try_new(not_on_curve, "c".to_string(), "a".to_string()).is_none());
}

fn hex_bytes(s: &str) -> Vec<u8> {
    (0..s.len()).step_by(2).map(|i| u8::from_str_radix(&s[i..i + 2], 16).unwrap()).collect()
}
