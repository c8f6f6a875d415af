//! The operations that can be submitted to a node.

use crate::account::AccountId;
use crate::codehash::CodeHash;
use vstd::prelude::*;

verus! {

/// The payload of one operation, ready to be signed and submitted.
#[derive(Debug, Clone, PartialEq, Eq)]
pub enum Call {
    /// Store contract code on chain.
    PutCode { code: Vec<u8> },
    /// Create a contract from code that is already stored.
    Instantiate { endowment: u128, gas_limit: u64, code_hash: CodeHash, data: Vec<u8> },
    /// Execute through the runtime gateway.
    RuntimeGateway {
        requester: AccountId,
        target: AccountId,
        phase: u8,
        code: Vec<u8>,
        value: u128,
        gas_limit: u64,
        data: Vec<u8>,
    },
    /// Execute through the contracts gateway.
    ContractsGateway {
        requester: AccountId,
        target: AccountId,
        phase: u8,
        code: Vec<u8>,
        value: u128,
        gas_limit: u64,
        data: Vec<u8>,
    },
    /// Call an existing contract directly.
    Contract { target: AccountId, value: u128, gas_limit: u64, data: Vec<u8> },
}

/// The mathematical content of a [`Call`].
pub enum CallView {
    PutCode { code: Seq<u8> },
    Instantiate { endowment: u128, gas_limit: u64, code_hash: Seq<u8>, data: Seq<u8> },
    RuntimeGateway {
        requester: Seq<u8>,
        target: Seq<u8>,
        phase: u8,
        code: Seq<u8>,
        value: u128,
        gas_limit: u64,
        data: Seq<u8>,
    },
    ContractsGateway {
        requester: Seq<u8>,
        target: Seq<u8>,
        phase: u8,
        code: Seq<u8>,
        value: u128,
        gas_limit: u64,
        data: Seq<u8>,
    },
    Contract { target: Seq<u8>, value: u128, gas_limit: u64, data: Seq<u8> },
}

impl View for Call {
    type V = CallView;

    open spec fn view(&self) -> CallView {
        match self {
            Call::PutCode { code } => CallView::PutCode { code: code@ },
            Call::Instantiate { endowment, gas_limit, code_hash, data } => CallView::Instantiate {
                endowment: *endowment,
                gas_limit: *gas_limit,
                code_hash: code_hash@,
                data: data@,
            },
            Call::RuntimeGateway {
                requester,
                target,
                phase,
                code,
                value,
                gas_limit,
                data,
            } => CallView::RuntimeGateway {
                requester: requester@,
                target: target@,
                phase: *phase,
                code: code@,
                value: *value,
                gas_limit: *gas_limit,
                data: data@,
            },
            Call::ContractsGateway {
                requester,
                target,
                phase,
                code,
                value,
                gas_limit,
                data,
            } => CallView::ContractsGateway {
                requester: requester@,
                target: target@,
                phase: *phase,
                code: code@,
                value: *value,
                gas_limit: *gas_limit,
                data: data@,
            },
            Call::Contract { target, value, gas_limit, data } => CallView::Contract {
                target: target@,
                value: *value,
                gas_limit: *gas_limit,
                data: data@,
            },
        }
    }
}

/// The words that introduce the node's answer to `call` in the final message.
///
/// Both gateway calls are introduced alike.
pub open spec fn result_label(call: CallView) -> Seq<char> {
    match call {
        CallView::PutCode { .. } => "Code hash: "@,
        CallView::Instantiate { .. } => "Contract account: "@,
        CallView::RuntimeGateway { .. } => "CallRuntimeGateway result: "@,
        CallView::ContractsGateway { .. } => "CallRuntimeGateway result: "@,
        CallView::Contract { .. } => "Call regular contract result: "@,
    }
}

impl Call {
    /// The words that introduce the node's answer to this call in the final message.
    pub fn label(&self) -> (label: &'static str)
        ensures
            label@ == result_label(self@),
    {
        match self {
            Call::PutCode { .. } => "Code hash: ",
            Call::Instantiate { .. } => "Contract account: ",
            Call::RuntimeGateway { .. } => "CallRuntimeGateway result: ",
            Call::ContractsGateway { .. } => "CallRuntimeGateway result: ",
            Call::Contract { .. } => "Call regular contract result: ",
        }
    }
}

} // verus!
