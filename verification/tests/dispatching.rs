//! Scenarios for the call dispatcher and the variant router: gas
//! accounting, settlement of every response kind, routing of the mutating
//! calls, and behavioral equivalence of the two backends on read-only
//! calls.

use enclave_gateway::doorbell::EnclaveHandle;
use enclave_gateway::gateway::{BeginResponse, CallTicket, ExecutionContext, Gateway};
use enclave_gateway::marshal::EnclaveBuffer;
use enclave_gateway::protocol::{
    BoundaryResponse, CallResult, EnclaveReply, GasBudget, StatusCode,
};
use enclave_gateway::router::{route_allocate, route_operation, Configuration, Operation, Variant};

fn fresh_gateway(config: Configuration) -> Gateway {
    Gateway::new(
        config,
        EnclaveHandle { id: 21, loaded: true },
        EnclaveHandle { id: 22, loaded: true },
    )
}

/// Marshal the three buffers a query carries and start the call.
fn start_query(gateway: &mut Gateway, msg: &[u8], gas: &GasBudget) -> (CallTicket, EnclaveBuffer) {
    let contract = gateway.allocate_enclave_buffer(&[1, 2]).expect("free doorbell");
    let env = gateway.allocate_enclave_buffer(&[3]).expect("free doorbell");
    let msg_buffer = gateway.allocate_enclave_buffer(msg).expect("free doorbell");
    match gateway.begin_call(
        Operation::Query,
        true,
        ExecutionContext { cookie: 5 },
        gas,
        &contract,
        &env,
        &msg_buffer,
        None,
    ) {
        BeginResponse::Started(ticket) => (ticket, msg_buffer),
        _ => panic!("a free doorbell admits the call"),
    }
}

#[test]
fn success_within_the_gas_limit() {
    let mut gateway = fresh_gateway(Configuration::FullNode);
    let mut gas = GasBudget::new(100);
    let (ticket, _) = start_query(&mut gateway, &[9], &gas);
    assert_eq!(ticket.enclave_id(), 21);
    assert_eq!(ticket.gas_limit(), 100);
    assert_eq!(ticket.operation(), Operation::Query);
    assert_eq!(ticket.variant(), Variant::Secure);
    assert_eq!(ticket.context(), ExecutionContext { cookie: 5 });

    let response = BoundaryResponse {
        status: StatusCode::Success,
        used_gas: 42,
        reply: EnclaveReply::Payload(vec![200, 201]),
    };
    let result = gateway.finish_call(ticket, response, &mut gas);
    assert_eq!(result, CallResult::Success(vec![200, 201]));
    assert_eq!(gas.used, 42);
    assert_eq!(gas.limit, 100);

    // The token was surrendered: the next call starts at once.
    let gas2 = GasBudget::new(1);
    let (_ticket2, _) = start_query(&mut gateway, &[9], &gas2);
}

#[test]
fn payload_past_the_limit_settles_as_out_of_gas() {
    let mut gateway = fresh_gateway(Configuration::FullNode);
    let mut gas = GasBudget::new(100);
    let (ticket, _) = start_query(&mut gateway, &[9], &gas);
    let response = BoundaryResponse {
        status: StatusCode::Success,
        used_gas: 150,
        reply: EnclaveReply::Payload(vec![1]),
    };
    let result = gateway.finish_call(ticket, response, &mut gas);
    // Metering allows the figure past the limit only for an aborted call.
    assert_eq!(result, CallResult::OutOfGas);
    assert_eq!(gas.used, 150);
}

#[test]
fn enclave_reported_out_of_gas_keeps_the_metered_figure() {
    let mut gateway = fresh_gateway(Configuration::FullNode);
    let mut gas = GasBudget::new(80);
    let (ticket, _) = start_query(&mut gateway, &[9], &gas);
    let response = BoundaryResponse {
        status: StatusCode::Success,
        used_gas: 80,
        reply: EnclaveReply::OutOfGas,
    };
    let result = gateway.finish_call(ticket, response, &mut gas);
    assert_eq!(result, CallResult::OutOfGas);
    assert_eq!(gas.used, 80);
}

#[test]
fn platform_failure_is_surfaced_and_billing_stays_within_the_limit() {
    let mut gateway = fresh_gateway(Configuration::FullNode);
    let mut gas = GasBudget::new(100);
    let (ticket, _) = start_query(&mut gateway, &[9], &gas);
    let response = BoundaryResponse {
        status: StatusCode::PlatformFailure(3),
        used_gas: 250,
        reply: EnclaveReply::Payload(vec![]),
    };
    let result = gateway.finish_call(ticket, response, &mut gas);
    assert_eq!(result, CallResult::Failure(StatusCode::PlatformFailure(3)));
    assert_eq!(gas.used, 100);
}

#[test]
fn enclave_failure_code_is_surfaced() {
    let mut gateway = fresh_gateway(Configuration::FullNode);
    let mut gas = GasBudget::new(100);
    let (ticket, _) = start_query(&mut gateway, &[9], &gas);
    let response = BoundaryResponse {
        status: StatusCode::Success,
        used_gas: 10,
        reply: EnclaveReply::Failed(7),
    };
    let result = gateway.finish_call(ticket, response, &mut gas);
    assert_eq!(result, CallResult::Failure(StatusCode::PlatformFailure(7)));
    assert_eq!(gas.used, 10);
}

#[test]
fn held_doorbell_answers_busy_or_wait_by_mode() {
    let mut gateway = fresh_gateway(Configuration::FullNode);
    let gas = GasBudget::new(100);
    let (ticket, msg_buffer) = start_query(&mut gateway, &[9], &gas);

    // Non-blocking request while held: busy, and only then.
    let busy = gateway.begin_call(
        Operation::Query,
        false,
        ExecutionContext { cookie: 0 },
        &gas,
        &msg_buffer,
        &msg_buffer,
        &msg_buffer,
        None,
    );
    assert!(matches!(busy, BeginResponse::Busy));

    // Blocking request while held: told to wait, not refused.
    let wait = gateway.begin_call(
        Operation::Query,
        true,
        ExecutionContext { cookie: 0 },
        &gas,
        &msg_buffer,
        &msg_buffer,
        &msg_buffer,
        None,
    );
    assert!(matches!(wait, BeginResponse::Wait));

    // After settlement the waiter's retry is admitted.
    let mut gas_out = gas;
    let response = BoundaryResponse {
        status: StatusCode::Success,
        used_gas: 1,
        reply: EnclaveReply::Payload(vec![]),
    };
    gateway.finish_call(ticket, response, &mut gas_out);
    let retry = gateway.begin_call(
        Operation::Query,
        true,
        ExecutionContext { cookie: 0 },
        &gas,
        &msg_buffer,
        &msg_buffer,
        &msg_buffer,
        None,
    );
    assert!(matches!(retry, BeginResponse::Started(_)));
}

#[test]
fn mutating_calls_route_to_the_secure_backend_under_every_configuration() {
    for config in [Configuration::FullNode, Configuration::QueryNode] {
        assert_eq!(route_operation(config, Operation::Init), Variant::Secure);
        assert_eq!(route_operation(config, Operation::Handle), Variant::Secure);
    }
    assert_eq!(route_operation(Configuration::FullNode, Operation::Query), Variant::Secure);
    assert_eq!(route_operation(Configuration::QueryNode, Operation::Query), Variant::Query);
    assert_eq!(route_allocate(Configuration::FullNode), Variant::Secure);
    assert_eq!(route_allocate(Configuration::QueryNode), Variant::Query);
}

#[test]
fn init_on_a_query_node_still_enters_the_secure_enclave() {
    let mut gateway = fresh_gateway(Configuration::QueryNode);
    // Arguments of a mutating call are marshalled by the secure backend,
    // whatever the configuration redirects allocation to.
    let contract = gateway.allocate_on(Variant::Secure, &[1]).expect("free doorbell");
    let env = gateway.allocate_on(Variant::Secure, &[2]).expect("free doorbell");
    let msg = gateway.allocate_on(Variant::Secure, &[3]).expect("free doorbell");
    let sig = gateway.allocate_on(Variant::Secure, &[4]).expect("free doorbell");
    let gas = GasBudget::new(50);
    match gateway.begin_call(
        Operation::Init,
        true,
        ExecutionContext { cookie: 1 },
        &gas,
        &contract,
        &env,
        &msg,
        Some(&sig),
    ) {
        BeginResponse::Started(ticket) => {
            assert_eq!(ticket.variant(), Variant::Secure);
            assert_eq!(ticket.enclave_id(), 21);
        }
        _ => panic!("a free secure doorbell admits the call"),
    }
}

#[test]
fn query_gives_the_same_result_on_either_backend() {
    // The same five-field message, sent once through a full node (secure
    // backend) and once through a query node (query backend), with the
    // enclave answering identically, settles identically.
    let msg: &[u8] = br#"{"alpha":1,"beta":2,"gamma":3,"delta":4,"epsilon":5}"#;
    let mut results: Vec<(CallResult, u64)> = Vec::new();

    for config in [Configuration::FullNode, Configuration::QueryNode] {
        let mut gateway = fresh_gateway(config);
        let mut gas = GasBudget::new(500);
        let (ticket, msg_buffer) = start_query(&mut gateway, msg, &gas);

        // Both backends were handed the same marshalled bytes.
        assert_eq!(gateway.read_marshalled(&msg_buffer), msg.to_vec());
        let expected_variant = match config {
            Configuration::FullNode => Variant::Secure,
            Configuration::QueryNode => Variant::Query,
        };
        assert_eq!(msg_buffer.variant, expected_variant);
        assert_eq!(ticket.variant(), expected_variant);

        let response = BoundaryResponse {
            status: StatusCode::Success,
            used_gas: 77,
            reply: EnclaveReply::Payload(vec![10, 20, 30]),
        };
        let result = gateway.finish_call(ticket, response, &mut gas);
        results.push((result, gas.used));
    }

    assert_eq!(results[0], results[1]);
    assert_eq!(results[0], (CallResult::Success(vec![10, 20, 30]), 77));
}

#[test]
fn non_success_platform_status_settles_as_failure() {
    let mut gateway = fresh_gateway(Configuration::FullNode);
    let mut gas = GasBudget::new(100);
    let (ticket, _) = start_query(&mut gateway, &[9], &gas);
    // Whatever reply sits in the return slot, a platform status other than
    // success settles as a failure carrying that status.
    let response = BoundaryResponse {
        status: StatusCode::Busy,
        used_gas: 0,
        reply: EnclaveReply::Payload(vec![1]),
    };
    let result = gateway.finish_call(ticket, response, &mut gas);
    assert_eq!(result, CallResult::Failure(StatusCode::Busy));
    assert_eq!(gas.used, 0);
}

#[test]
fn explicit_query_allocation_targets_the_query_enclave() {
    // The query-enclave allocation surface targets the query backend even
    // under the default configuration, where routed allocation is secure.
    let mut gateway = fresh_gateway(Configuration::FullNode);
    let buffer = gateway.allocate_enclave_buffer_qe(&[5, 6]).expect("free doorbell");
    assert_eq!(buffer.variant, Variant::Query);
    assert_eq!(gateway.read_marshalled(&buffer), vec![5, 6]);
}

#[test]
fn gas_budget_starts_unused_and_keeps_its_limit() {
    let gas = GasBudget::new(123);
    assert_eq!(gas.limit, 123);
    assert_eq!(gas.used, 0);
}

#[test]
fn configuration_is_fixed_at_construction() {
    let gateway = fresh_gateway(Configuration::QueryNode);
    assert_eq!(gateway.configuration(), Configuration::QueryNode);
}
