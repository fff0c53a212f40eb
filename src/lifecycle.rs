//! The order in which a request's steps run, and how a failed step ends it.
use vstd::prelude::*;
use crate::service::Operation;
use crate::status::{status_with, Code, RpcStatus};

verus! {

/// The steps of a request.
#[derive(Debug, Clone, Copy, PartialEq, Eq, Structural)]
pub enum Step {
    /// Read the credential from the request's metadata.
    Authenticate,
    /// Open a connection to the node with the credential.
    ConnectNode,
    /// Parse the offer or invoice given as text.
    ParseRequest,
    /// Find where the offer's invoice is to be requested from.
    ResolveDestination,
    /// Ask the node which network it is on.
    QueryNetwork,
    /// Carry out the operation itself.
    Execute,
    /// Nothing is left to do.
    Done,
}

/// The first step of an operation: decoding an invoice needs no credential.
pub open spec fn first_step_spec(op: Operation) -> Step {
    if op == Operation::DecodeInvoice {
        Step::ParseRequest
    } else {
        Step::Authenticate
    }
}

/// The step that follows `step` when it succeeds.
pub open spec fn step_after(op: Operation, step: Step) -> Step {
    match step {
        Step::Authenticate => Step::ConnectNode,
        Step::ConnectNode => Step::ParseRequest,
        Step::ParseRequest => match op {
            Operation::DecodeInvoice => Step::Done,
            Operation::PayInvoice => Step::Execute,
            _ => Step::ResolveDestination,
        },
        Step::ResolveDestination => Step::QueryNetwork,
        Step::QueryNetwork => Step::Execute,
        Step::Execute => Step::Done,
        Step::Done => Step::Done,
    }
}

/// The kind of failure that ends a request when `step` fails.
pub open spec fn failure_code(op: Operation, step: Step) -> Code {
    match step {
        Step::ConnectNode => Code::Unavailable,
        Step::ParseRequest => Code::InvalidArgument,
        Step::ResolveDestination => if op == Operation::GetInvoice {
            Code::Unavailable
        } else {
            Code::Internal
        },
        _ => Code::Internal,
    }
}

/// The text put before the cause of a failure of `step`.
pub open spec fn failure_prefix(op: Operation, step: Step) -> Seq<char> {
    match step {
        Step::ConnectNode => "Couldn't connect to lnd: "@,
        Step::ParseRequest => if op == Operation::PayOffer || op == Operation::GetInvoice {
            "The provided offer was invalid. Please provide a valid offer in bech32 format, i.e. starting with 'lno'. Error: "@
        } else {
            "The provided invoice was invalid. Please provide a valid invoice in hex format. Error: "@
        },
        Step::ResolveDestination => if op == Operation::GetInvoice {
            "Couldn't find destination: "@
        } else {
            "Internal error: Couldn't get destination from offer: "@
        },
        _ => "Internal error: "@,
    }
}

/// The first step of an operation.
pub fn first_step(op: Operation) -> (r: Step)
    ensures
        r == first_step_spec(op),
{
    if op == Operation::DecodeInvoice {
        Step::ParseRequest
    } else {
        Step::Authenticate
    }
}

/// The step to take once `step` has succeeded.
pub fn next_step(op: Operation, step: Step) -> (r: Step)
    ensures
        r == step_after(op, step),
{
    match step {
        Step::Authenticate => Step::ConnectNode,
        Step::ConnectNode => Step::ParseRequest,
        Step::ParseRequest => match op {
            Operation::DecodeInvoice => Step::Done,
            Operation::PayInvoice => Step::Execute,
            _ => Step::ResolveDestination,
        },
        Step::ResolveDestination => Step::QueryNetwork,
        Step::QueryNetwork => Step::Execute,
        Step::Execute => Step::Done,
        Step::Done => Step::Done,
    }
}

/// The status that ends a request whose `step` failed with cause `cause`.
/// Authentication fails through `check_auth_metadata`, whose status depends
/// on what the metadata held.
pub fn step_failure(op: Operation, step: Step, cause: &str) -> (r: RpcStatus)
    requires
        step != Step::Authenticate,
    ensures
        r.code == failure_code(op, step),
        r.message@ == failure_prefix(op, step) + cause@,
{
    let offer_based = op == Operation::PayOffer || op == Operation::GetInvoice;
    match step {
        Step::ConnectNode => status_with(Code::Unavailable, "Couldn't connect to lnd: ", cause),
        Step::ParseRequest => if offer_based {
            status_with(
                Code::InvalidArgument,
                "The provided offer was invalid. Please provide a valid offer in bech32 format, i.e. starting with 'lno'. Error: ",
                cause,
            )
        } else {
            status_with(
                Code::InvalidArgument,
                "The provided invoice was invalid. Please provide a valid invoice in hex format. Error: ",
                cause,
            )
        },
        Step::ResolveDestination => if op == Operation::GetInvoice {
            status_with(Code::Unavailable, "Couldn't find destination: ", cause)
        } else {
            status_with(Code::Internal, "Internal error: Couldn't get destination from offer: ", cause)
        },
        _ => status_with(Code::Internal, "Internal error: ", cause),
    }
}

/// The step reached from `step` after `n` successes.
pub open spec fn steps_after(op: Operation, step: Step, n: nat) -> Step
    decreases n,
{
    if n == 0 {
        step
    } else {
        steps_after(op, step_after(op, step), (n - 1) as nat)
    }
}

/// Every operation but decoding authenticates before anything else, and
/// reaches the node only once authentication has succeeded: a request whose
/// credential is refused never gets to contact the node.
pub proof fn lemma_authentication_comes_first(op: Operation, n: nat)
    requires
        op != Operation::DecodeInvoice,
    ensures
        first_step_spec(op) == Step::Authenticate,
        step_after(op, Step::Authenticate) == Step::ConnectNode,
        n > 0 ==> steps_after(op, first_step_spec(op), n) != Step::Authenticate,
    decreases n,
{
    if n > 0 {
        lemma_no_return(op, step_after(op, Step::Authenticate), (n - 1) as nat);
    }
}

proof fn lemma_no_return(op: Operation, step: Step, n: nat)
    requires
        step != Step::Authenticate,
    ensures
        steps_after(op, step, n) != Step::Authenticate,
    decreases n,
{
    if n > 0 {
        lemma_no_return(op, step_after(op, step), (n - 1) as nat);
    }
}

/// Decoding an invoice contacts nothing: it parses and is done.
pub proof fn lemma_decoding_needs_no_node(n: nat)
    ensures
        steps_after(Operation::DecodeInvoice, Step::ParseRequest, n) == Step::ParseRequest
            || steps_after(Operation::DecodeInvoice, Step::ParseRequest, n) == Step::Done,
    decreases n,
{
    if n > 0 {
        lemma_done_stays(Operation::DecodeInvoice, (n - 1) as nat);
    }
}

proof fn lemma_done_stays(op: Operation, n: nat)
    ensures
        steps_after(op, Step::Done, n) == Step::Done,
    decreases n,
{
    if n > 0 {
        lemma_done_stays(op, (n - 1) as nat);
    }
}

} // verus!
