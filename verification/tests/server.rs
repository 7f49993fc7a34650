use modbus_server::frame::{ErrorKind, Request, Response};
use modbus_server::server::{IpAddr, Server, SocketAddr};
use modbus_server::service::{
    dispatch, FixedErrorService, FixedResponseService, NewService, Service,
};
use modbus_server::shutdown::ShutdownSignal;

fn localhost() -> SocketAddr {
    SocketAddr { ip: IpAddr::V4(127, 0, 0, 1), port: 502 }
}

#[test]
fn service_wrapper() {
    let service = FixedResponseService { response: Response::ReadInputRegisters(vec![0x33]) };

    let pdu = Request::ReadInputRegisters(0, 1);
    let rsp_adu = service.call(pdu).unwrap();

    assert_eq!(rsp_adu, service.response);
}

#[test]
fn fixed_response_through_adapter() {
    let server = Server::new(localhost());
    assert_eq!(server.threads, None);

    let handler = FixedResponseService { response: Response::ReadInputRegisters(vec![0x33]) };
    let instance = handler.new_service();
    let response = dispatch(&instance, Request::ReadInputRegisters(0, 1)).unwrap();

    assert_eq!(response, Response::ReadInputRegisters(vec![0x33]));
}

#[test]
fn threads_read_back() {
    let server = Server::new(localhost()).threads(4);
    assert_eq!(server.threads, Some(4));
    assert_eq!(server.socket_addr, localhost());
}

#[test]
fn event_loops_applied() {
    let factory = FixedResponseService { response: Response::WriteSingleRegister(7, 9) };
    let report = Server::new(localhost()).threads(4).serve(factory, vec![]);
    assert_eq!(report.threads, 4);

    let factory = FixedResponseService { response: Response::WriteSingleRegister(7, 9) };
    let report = Server::new(localhost()).serve(factory, vec![]);
    assert_eq!(report.threads, 1);
}

#[test]
fn immediate_shutdown_accepts_nothing() {
    let factory = FixedResponseService { response: Response::ReadCoils(vec![true, false]) };
    let offered = vec![
        vec![Request::ReadCoils(0, 2)],
        vec![Request::ReadHoldingRegisters(1, 1), Request::WriteSingleRegister(1, 5)],
    ];
    let report = Server::new(localhost()).serve_until(
        factory,
        ShutdownSignal::already_resolved(),
        offered,
    );
    assert_eq!(report.accepted, 0);
    assert!(report.outcomes.is_empty());
}

#[test]
fn pending_signal_serves_every_connection() {
    let factory = FixedResponseService { response: Response::ReadHoldingRegisters(vec![1, 2, 3]) };
    let offered = vec![
        vec![Request::ReadHoldingRegisters(0, 3)],
        vec![],
        vec![Request::ReadInputRegisters(2, 3), Request::ReadCoils(0, 1)],
    ];
    let report = Server::new(localhost()).serve_until(factory, ShutdownSignal::pending(), offered);
    assert_eq!(report.accepted, 3);
    assert_eq!(report.outcomes.len(), 3);
    assert_eq!(
        report.outcomes[0],
        vec![Ok(Response::ReadHoldingRegisters(vec![1, 2, 3]))]
    );
    assert_eq!(report.outcomes[1], vec![]);
    assert_eq!(
        report.outcomes[2],
        vec![
            Ok(Response::ReadHoldingRegisters(vec![1, 2, 3])),
            Ok(Response::ReadHoldingRegisters(vec![1, 2, 3])),
        ]
    );
}

#[test]
fn serve_equals_serve_until_with_pending_signal() {
    let factory = FixedResponseService { response: Response::WriteSingleRegister(3, 4) };
    let offered = vec![vec![Request::WriteSingleRegister(3, 4)]];
    let report = Server::new(localhost()).serve(factory, offered.clone());

    let factory = FixedResponseService { response: Response::WriteSingleRegister(3, 4) };
    let until = Server::new(localhost()).serve_until(factory, ShutdownSignal::pending(), offered);

    assert_eq!(report, until);
    assert_eq!(report.accepted, 1);
}

#[test]
fn shutdown_resolution_is_terminal() {
    let mut signal = ShutdownSignal::pending();
    assert!(!signal.poll());
    assert!(!signal.poll());

    signal.resolve();
    assert!(signal.poll());

    let after_first = signal;
    signal.resolve();
    assert_eq!(signal, after_first);
    assert!(signal.poll());
    assert!(signal.poll());
}

#[test]
fn instances_do_not_share_request_history() {
    let factory = FixedResponseService { response: Response::ReadInputRegisters(vec![0x55]) };

    let first = factory.new_service();
    let second = factory.new_service();

    let first_history = vec![
        Request::ReadCoils(0, 1),
        Request::WriteSingleRegister(9, 9),
        Request::ReadInputRegisters(0, 4),
    ];
    for req in first_history {
        assert_eq!(dispatch(&first, req), Ok(Response::ReadInputRegisters(vec![0x55])));
    }

    let second_history = vec![Request::ReadHoldingRegisters(8, 1)];
    for req in second_history {
        assert_eq!(dispatch(&second, req), Ok(Response::ReadInputRegisters(vec![0x55])));
    }
}

#[test]
fn handler_errors_reduce_to_the_generic_kind() {
    let failing = FixedErrorService { kind: ErrorKind::InvalidInput };
    assert_eq!(
        dispatch(&failing, Request::ReadCoils(0, 8)),
        Err(ErrorKind::InvalidInput)
    );

    let failing = FixedErrorService { kind: ErrorKind::InvalidData };
    assert_eq!(failing.call(Request::ReadInputRegisters(0, 1)), Err(ErrorKind::InvalidData));

    let factory = FixedErrorService { kind: ErrorKind::Other };
    let report = Server::new(localhost()).serve_until(
        factory,
        ShutdownSignal::pending(),
        vec![vec![Request::ReadInputRegisters(0, 1)]],
    );
    assert_eq!(report.outcomes, vec![vec![Err(ErrorKind::Other)]]);
}

#[test]
fn responses_clone_exactly() {
    let responses = vec![
        Response::ReadCoils(vec![true, false, true]),
        Response::ReadHoldingRegisters(vec![]),
        Response::ReadInputRegisters(vec![0x33, 0x44]),
        Response::WriteSingleRegister(1, 2),
    ];
    for response in &responses {
        assert_eq!(&response.clone(), response);
    }
}
