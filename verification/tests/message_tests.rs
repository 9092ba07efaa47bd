use libfabric::comm::message::{ConnectedRecvEp, ConnectedSendEp, MsgCall, RecvEp, SendEp};
use libfabric::consts::FI_ADDR_UNSPEC;
use libfabric::ep::{ConnectedEndpoint, ConnectionlessEndpoint, Context, MappedAddress, MemoryRegionDesc, MsgRef, TriggeredContext};
use libfabric::flags::{RecvMsgOptions, SendMsgOptions};
use libfabric::mr::{IoVec, IoVecMut};

#[test]
fn connected_send_passes_byte_length_and_no_address() {
    let ep = ConnectedEndpoint::from_raw_fid(0x10);
    let buf = [0u32; 4];
    let desc = MemoryRegionDesc::from_raw(0xd0);
    assert_eq!(
        ep.send(&buf, Some(&desc)),
        MsgCall::Send { ep: 0x10, len: 16, desc: 0xd0, dest_addr: FI_ADDR_UNSPEC, context: 0 }
    );
    assert_eq!(
        ep.send(&buf[..1], None),
        MsgCall::Send { ep: 0x10, len: 4, desc: 0, dest_addr: FI_ADDR_UNSPEC, context: 0 }
    );
}

#[test]
fn context_is_passed_and_left_unchanged() {
    let ep = ConnectedEndpoint::from_raw_fid(0x10);
    let buf = [0u8; 3];
    let mut ctx = Context::from_raw(0xc0);
    assert_eq!(
        ep.recv_with_context(&buf, None, &mut ctx),
        MsgCall::Recv { ep: 0x10, len: 3, desc: 0, src_addr: FI_ADDR_UNSPEC, context: 0xc0 }
    );
    let mut tctx = TriggeredContext::from_raw(0xc1);
    assert_eq!(
        ep.senddata_triggered(&buf, None, 99, &mut tctx),
        MsgCall::Senddata { ep: 0x10, len: 3, desc: 0, data: 99, dest_addr: FI_ADDR_UNSPEC, context: 0xc1 }
    );
    assert_eq!(ctx, Context::from_raw(0xc0));
}

#[test]
fn connectionless_calls_name_the_peer() {
    let ep = ConnectionlessEndpoint::from_raw_fid(0x20);
    let peer = MappedAddress::from_raw_addr(7);
    let buf = [0u64; 2];
    assert_eq!(ep.send_to(&buf, None, &peer), MsgCall::Send { ep: 0x20, len: 16, desc: 0, dest_addr: 7, context: 0 });
    assert_eq!(ep.recv_from(&buf, None, &peer), MsgCall::Recv { ep: 0x20, len: 16, desc: 0, src_addr: 7, context: 0 });
    assert_eq!(
        ep.recv_from_any(&buf, None),
        MsgCall::Recv { ep: 0x20, len: 16, desc: 0, src_addr: FI_ADDR_UNSPEC, context: 0 }
    );
    assert_eq!(ep.inject_to(&buf, &peer), MsgCall::Inject { ep: 0x20, len: 16, dest_addr: 7 });
    assert_eq!(ep.injectdata_to(&buf, 5, &peer), MsgCall::Injectdata { ep: 0x20, len: 16, data: 5, dest_addr: 7 });
}

#[test]
fn vectored_calls_count_entries() {
    let ep = ConnectedEndpoint::from_raw_fid(0x10);
    let iov = [IoVec::from_raw(0x100, 8), IoVec::from_raw(0x200, 8), IoVec::from_raw(0x300, 8)];
    let descs = [MemoryRegionDesc::from_raw(1), MemoryRegionDesc::from_raw(2), MemoryRegionDesc::from_raw(3)];
    assert_eq!(
        ep.sendv(&iov, Some(&descs)),
        MsgCall::Sendv { ep: 0x10, count: 3, descs: true, dest_addr: FI_ADDR_UNSPEC, context: 0 }
    );
    let riov = [IoVecMut::from_raw(0x100, 8)];
    assert_eq!(ep.recvv(&riov, None), MsgCall::Recvv { ep: 0x10, count: 1, descs: false, src_addr: FI_ADDR_UNSPEC, context: 0 });
}

#[test]
fn msg_calls_carry_the_option_bits() {
    let ep = ConnectedEndpoint::from_raw_fid(0x10);
    let msg = MsgRef::from_raw(0x4000);
    let opts = SendMsgOptions::new().completion();
    assert_eq!(ep.sendmsg(&msg, opts), MsgCall::Sendmsg { ep: 0x10, msg: 0x4000, flags: opts.as_raw() });
    assert_eq!(ep.recvmsg(&msg, RecvMsgOptions::new()), MsgCall::Recvmsg { ep: 0x10, msg: 0x4000, flags: 0 });
}
