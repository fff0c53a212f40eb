use lndk::lifecycle::{first_step, next_step, step_failure, Step};
use lndk::service::Operation;
use lndk::status::Code;

fn run(op: Operation) -> Vec<Step> {
    let mut steps = vec![first_step(op)];
    while *steps.last().unwrap() != Step::Done {
        let next = next_step(op, *steps.last().unwrap());
        steps.push(next);
    }
    steps
}

#[test]
fn offer_operations_run_every_step() {
    let all = vec![
        Step::Authenticate,
        Step::ConnectNode,
        Step::ParseRequest,
        Step::ResolveDestination,
        Step::QueryNetwork,
        Step::Execute,
        Step::Done,
    ];
    assert_eq!(run(Operation::PayOffer), all);
    assert_eq!(run(Operation::GetInvoice), all);
}

#[test]
fn paying_an_invoice_skips_the_offer_steps() {
    assert_eq!(
        run(Operation::PayInvoice),
        vec![Step::Authenticate, Step::ConnectNode, Step::ParseRequest, Step::Execute, Step::Done]
    );
}

#[test]
fn decoding_only_parses() {
    assert_eq!(run(Operation::DecodeInvoice), vec![Step::ParseRequest, Step::Done]);
}

#[test]
fn step_failures_map_to_codes() {
    let s = step_failure(Operation::PayInvoice, Step::ConnectNode, "refused");
    assert_eq!(s.code, Code::Unavailable);
    assert_eq!(s.message, "Couldn't connect to lnd: refused");
    assert_eq!(step_failure(Operation::PayOffer, Step::ParseRequest, "bech32").code, Code::InvalidArgument);
    assert!(step_failure(Operation::PayOffer, Step::ParseRequest, "bech32").message.ends_with("Error: bech32"));
    assert!(step_failure(Operation::PayInvoice, Step::ParseRequest, "x").message.starts_with("The provided invoice"));
    assert_eq!(step_failure(Operation::GetInvoice, Step::ResolveDestination, "x").code, Code::Unavailable);
    let s = step_failure(Operation::PayOffer, Step::ResolveDestination, "no path");
    assert_eq!(s.code, Code::Internal);
    assert_eq!(s.message, "Internal error: Couldn't get destination from offer: no path");
    assert_eq!(step_failure(Operation::GetInvoice, Step::QueryNetwork, "x").code, Code::Internal);
}
