use libfabric::comm::asynchronous::{
    injected, msg_awaited_queue, posted, rma_awaited_queue, tagged_awaited_queue, transfer_outcome, write_outcome,
    AsyncStep, AwaitedQueue,
};
use libfabric::comm::message::MsgCall;
use libfabric::comm::rma::RmaCall;
use libfabric::comm::tagged::TaggedCall;
use libfabric::conn_ep::{connection_result, ConnCall, PeerProbe};
use libfabric::consts::FI_ETOOSMALL;
use libfabric::ep::{Address, ConnectedEndpoint, UnconnectedEndpoint, UninitConnectionlessEndpoint, UninitUnconnectedEndpoint};
use libfabric::error::{check_error, Error};

#[test]
fn enabling_binds_then_enables() {
    let ep = UninitUnconnectedEndpoint::from_raw_fid(0x10);
    assert_eq!(ep.enable_call(), ConnCall::Enable { ep: 0x10 });
    let ep = ep.enable(Ok(()), 0).unwrap();
    assert_eq!(ep.connect(&Address::from_bytes(vec![1, 2])), ConnCall::Connect { ep: 0x10, param_len: 0 });
    let failed = UninitUnconnectedEndpoint::from_raw_fid(0x11).enable(Err(Error { c_err: 22 }), 0);
    assert!(matches!(failed, Err(Error { c_err: 22 })));
    let failed = UninitConnectionlessEndpoint::from_raw_fid(0x12).enable(Ok(()), -19);
    assert!(matches!(failed, Err(Error { c_err: 19 })));
}

#[test]
fn connection_requests_count_their_data() {
    let ep = UnconnectedEndpoint::from_raw_fid(0x10);
    let addr = Address::from_bytes(vec![10, 0, 0, 1]);
    assert_eq!(addr.as_bytes(), &[10, 0, 0, 1]);
    assert_eq!(ep.connect_with(&addr, &[1u16, 2, 3]), ConnCall::Connect { ep: 0x10, param_len: 6 });
    assert_eq!(ep.accept_with(&[0u32; 2]), ConnCall::Accept { ep: 0x10, param_len: 8 });
    assert_eq!(ep.accept(), ConnCall::Accept { ep: 0x10, param_len: 0 });
    assert_eq!(connection_result(0), Ok(()));
    assert_eq!(connection_result(-111), Err(Error { c_err: 111 }));
}

#[test]
fn completing_and_shutting_down_keep_the_handle() {
    let ep = UnconnectedEndpoint::from_raw_fid(0x10);
    let connected = ep.connect_complete(0x10);
    assert_eq!(connected.shutdown_call(), ConnCall::Shutdown { ep: 0x10, flags: 0 });
    let back = connected.shutdown(0).unwrap();
    assert_eq!(back.accept(), ConnCall::Accept { ep: 0x10, param_len: 0 });
    assert!(matches!(ConnectedEndpoint::from_raw_fid(1).shutdown(-5), Err(Error { c_err: 5 })));
}

#[test]
fn peer_address_query_retries_with_a_buffer() {
    let ep = ConnectedEndpoint::from_raw_fid(0x10);
    assert_eq!(ep.peer_probe_call(), ConnCall::GetPeer { ep: 0x10, buf_len: None });
    assert_eq!(ep.peer_probe(-(FI_ETOOSMALL as i32), 16), PeerProbe::Retry(16));
    assert_eq!(ep.peer_probe(-22, 16), PeerProbe::Failed(Error { c_err: 22 }));
    assert_eq!(ep.peer_probe(0, 16), PeerProbe::Done);
    assert_eq!(ep.peer(0, vec![]).unwrap().as_bytes(), &[] as &[u8]);
    let buf = ep.peer_buffer(4);
    assert_eq!(buf, vec![0u8; 4]);
    assert_eq!(ep.peer_fetch_call(4), ConnCall::GetPeer { ep: 0x10, buf_len: Some(4) });
    let a = ep.peer(0, vec![1, 2, 3, 4]).unwrap();
    assert_eq!(a.as_bytes(), &[1, 2, 3, 4]);
    assert!(matches!(ep.peer(-12, vec![]), Err(Error { c_err: 12 })));
}

#[test]
fn async_operations_wait_only_for_accepted_calls() {
    let tx = Some(AwaitedQueue::Transmit);
    let rx = Some(AwaitedQueue::Receive);
    assert_eq!(posted(0, tx, 0x900, 0x901), AsyncStep::AwaitCompletion { cq: 0x900 });
    assert_eq!(posted(0, rx, 0x900, 0x901), AsyncStep::AwaitCompletion { cq: 0x901 });
    assert_eq!(posted(0, None, 0x900, 0x901), AsyncStep::Done);
    assert_eq!(posted(-11, tx, 0x900, 0x901), AsyncStep::Failed(Error { c_err: 11 }));
    assert_eq!(transfer_outcome::<u32>(0, Ok(5)), Ok(5));
    assert_eq!(transfer_outcome::<u32>(0, Err(Error { c_err: 4 })), Err(Error { c_err: 4 }));
    assert_eq!(transfer_outcome::<u32>(-2, Ok(5)), Err(Error { c_err: 2 }));
    assert_eq!(write_outcome::<u32>(0, Ok(5)), Ok(()));
    assert_eq!(write_outcome::<u32>(0, Err(Error { c_err: 4 })), Err(Error { c_err: 4 }));
    assert_eq!(write_outcome::<u32>(-9, Ok(5)), Err(Error { c_err: 9 }));
}

#[test]
fn injects_complete_without_waiting() {
    assert_eq!(injected(0), Ok(()));
    assert_eq!(injected(-11), Err(Error { c_err: 11 }));
}

#[test]
fn check_error_maps_negated_codes() {
    assert_eq!(check_error(0), Ok(()));
    assert_eq!(check_error(-265), Err(Error { c_err: 265 }));
    assert_eq!(Error::from_err_code(7).c_err, 7);
}

#[test]
fn each_operation_awaits_its_queue() {
    let recv = MsgCall::Recv { ep: 1, len: 8, desc: 0, src_addr: 0, context: 0 };
    let send = MsgCall::Send { ep: 1, len: 8, desc: 0, dest_addr: 0, context: 0 };
    let inject = MsgCall::Inject { ep: 1, len: 8, dest_addr: 0 };
    assert_eq!(msg_awaited_queue(&recv), Some(AwaitedQueue::Transmit));
    assert_eq!(msg_awaited_queue(&send), Some(AwaitedQueue::Transmit));
    assert_eq!(msg_awaited_queue(&inject), None);
    let trecv = TaggedCall::Trecv { ep: 1, len: 8, desc: 0, src_addr: 0, tag: 3, ignore: 0, context: 0 };
    let tsend = TaggedCall::Tsend { ep: 1, len: 8, desc: 0, dest_addr: 0, tag: 3, context: 0 };
    let tinject = TaggedCall::Tinject { ep: 1, len: 8, dest_addr: 0, tag: 3 };
    assert_eq!(tagged_awaited_queue(&trecv), Some(AwaitedQueue::Receive));
    assert_eq!(tagged_awaited_queue(&tsend), Some(AwaitedQueue::Transmit));
    assert_eq!(tagged_awaited_queue(&tinject), None);
    let write = RmaCall::Write { ep: 1, len: 8, desc: 0, dest_addr: 0, addr: 0, key: 0, context: 0 };
    let inject_write = RmaCall::InjectWrite { ep: 1, len: 8, dest_addr: 0, addr: 0, key: 0 };
    assert_eq!(rma_awaited_queue(&write), Some(AwaitedQueue::Transmit));
    assert_eq!(rma_awaited_queue(&inject_write), None);
}
