use libfabric::comm::rma::{ReadEp, RmaCall, WriteEp};
use libfabric::comm::tagged::{
    ConnectedTagRecvEp, ConnectedTagSendEp, ConnectedTagSendEpMrSlice, TagRecvEp, TagRecvEpMrSlice, TagSendEp,
    TaggedCall,
};
use libfabric::consts::FI_ADDR_UNSPEC;
use libfabric::ep::{ConnectedEndpoint, ConnectionlessEndpoint, Context, MappedAddress, MemoryRegionDesc, MsgRef};
use libfabric::flags::{ReadMsgOptions, TaggedRecvMsgOptions};
use libfabric::mr::{IoVec, IoVecMut, MappedMemoryRegionKey, MemoryRegionSlice, MemoryRegionSliceMut};

#[test]
fn tagged_receive_masks_with_ignore_or_zero() {
    let ep = ConnectedEndpoint::from_raw_fid(0x10);
    let buf = [0u16; 5];
    assert_eq!(
        ep.trecv(&buf, None, 0xabc, Some(0xf)),
        TaggedCall::Trecv { ep: 0x10, len: 10, desc: 0, src_addr: FI_ADDR_UNSPEC, tag: 0xabc, ignore: 0xf, context: 0 }
    );
    assert_eq!(
        ep.trecv(&buf, None, 0xabc, None),
        TaggedCall::Trecv { ep: 0x10, len: 10, desc: 0, src_addr: FI_ADDR_UNSPEC, tag: 0xabc, ignore: 0, context: 0 }
    );
}

#[test]
fn tagged_calls_on_connectionless_endpoints() {
    let ep = ConnectionlessEndpoint::from_raw_fid(0x20);
    let peer = MappedAddress::from_raw_addr(3);
    let buf = [1u8; 6];
    let desc = MemoryRegionDesc::from_raw(0xd);
    assert_eq!(
        ep.tsend_to(&buf, Some(desc), &peer, 42),
        TaggedCall::Tsend { ep: 0x20, len: 6, desc: 0xd, dest_addr: 3, tag: 42, context: 0 }
    );
    assert_eq!(
        ep.tinjectdata_to(&buf, 9, &peer, 42),
        TaggedCall::Tinjectdata { ep: 0x20, len: 6, data: 9, dest_addr: 3, tag: 42 }
    );
    let riov = [IoVecMut::from_raw(0x10, 4), IoVecMut::from_raw(0x20, 4)];
    let mut ctx = Context::from_raw(0x99);
    assert_eq!(
        ep.trecvv_from_with_context(&riov, None, &peer, 1, Some(2), &mut ctx),
        TaggedCall::Trecvv { ep: 0x20, count: 2, descs: false, src_addr: 3, tag: 1, ignore: 2, context: 0x99 }
    );
    let msg = MsgRef::from_raw(0x500);
    assert_eq!(
        ep.trecvmsg_from(&msg, TaggedRecvMsgOptions::new()),
        TaggedCall::Trecvmsg { ep: 0x20, msg: 0x500, flags: 0 }
    );
}

#[test]
fn tagged_mr_slices_pass_their_descriptor() {
    let data = [0u32; 8];
    let slice = MemoryRegionSlice::new(&data, MemoryRegionDesc::from_raw(0x77));
    let ep = ConnectedEndpoint::from_raw_fid(0x10);
    assert_eq!(
        ep.tsend_mr_slice(&slice, 5),
        TaggedCall::Tsend { ep: 0x10, len: 32, desc: 0x77, dest_addr: FI_ADDR_UNSPEC, tag: 5, context: 0 }
    );
    let out = [0u32; 2];
    let rslice = MemoryRegionSliceMut::new(&out, MemoryRegionDesc::from_raw(0x78));
    let cl = ConnectionlessEndpoint::from_raw_fid(0x20);
    assert_eq!(
        cl.trecv_mr_slice_from_any(&rslice, 5, None),
        TaggedCall::Trecv { ep: 0x20, len: 8, desc: 0x78, src_addr: FI_ADDR_UNSPEC, tag: 5, ignore: 0, context: 0 }
    );
    let iov = [IoVec::from_raw(1, 1)];
    assert_eq!(ep.tsendv(&iov, None, 3), TaggedCall::Tsendv { ep: 0x10, count: 1, descs: false, dest_addr: FI_ADDR_UNSPEC, tag: 3, context: 0 });
}

#[test]
fn rma_reads_and_writes() {
    let ep = ConnectedEndpoint::from_raw_fid(0x10);
    let key = MappedMemoryRegionKey::from_raw(0x4444);
    let desc = MemoryRegionDesc::from_raw(0xd);
    let buf = [0u64; 4];
    assert_eq!(
        ep.read(&buf, &desc, 0x8000, &key),
        RmaCall::Read { ep: 0x10, len: 32, desc: 0xd, src_addr: FI_ADDR_UNSPEC, addr: 0x8000, key: 0x4444, context: 0 }
    );
    let peer = MappedAddress::from_raw_addr(6);
    let mut ctx = Context::from_raw(0xc);
    assert_eq!(
        ep.write_to_with_context(&buf, &desc, &peer, 0x8000, &key, &mut ctx),
        RmaCall::Write { ep: 0x10, len: 32, desc: 0xd, dest_addr: 6, addr: 0x8000, key: 0x4444, context: 0xc }
    );
    assert_eq!(
        ep.inject_writedata(&buf, 11, 0x8000, &key),
        RmaCall::InjectWritedata { ep: 0x10, len: 32, data: 11, dest_addr: FI_ADDR_UNSPEC, addr: 0x8000, key: 0x4444 }
    );
    let iov = [IoVec::from_raw(1, 8), IoVec::from_raw(2, 8)];
    assert_eq!(
        ep.writev(&iov, &[desc, desc], 0x8000, &key),
        RmaCall::Writev { ep: 0x10, count: 2, dest_addr: FI_ADDR_UNSPEC, addr: 0x8000, key: 0x4444, context: 0 }
    );
    let msg = MsgRef::from_raw(0x600);
    assert_eq!(ep.readmsg(&msg, ReadMsgOptions::new()), RmaCall::Readmsg { ep: 0x10, msg: 0x600, flags: 0 });
}
