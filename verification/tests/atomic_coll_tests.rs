use libfabric::comm::atomic::{
    valid_count_result, AtomicCall, AtomicCASEp, AtomicCASEpMrSlice, AtomicFetchEp, AtomicValidEp, AtomicWriteEp,
    AtomicWriteRemoteMemAddrSliceEp, ConnectedAtomicFetchEp, ConnectedAtomicWriteEp,
};
use libfabric::comm::collective::{CollCall, CollectiveEp};
use libfabric::consts::FI_ADDR_UNSPEC;
use libfabric::enums::{AtomicOp, CollAtomicOp, CompareAtomicOp, DataType, FetchAtomicOp};
use libfabric::ep::{ConnectedEndpoint, ConnectionlessEndpoint, Context, MappedAddress, MemoryRegionDesc, MsgRef};
use libfabric::error::Error;
use libfabric::flags::{AtomicMsgOptions, CollectiveOptions};
use libfabric::mr::{
    Ioc, IocMut, MappedMemoryRegionKey, MemoryRegionSlice, MemoryRegionSliceMut, MultiCastGroup, RemoteMemAddrSliceMut,
    RemoteMemoryAddress,
};

#[test]
fn atomic_write_counts_elements_and_encodes_type_and_op() {
    let ep = ConnectionlessEndpoint::from_raw_fid(0x20);
    let peer = MappedAddress::from_raw_addr(4);
    let key = MappedMemoryRegionKey::from_raw(0x44);
    let buf = [1u32, 2, 3];
    assert_eq!(
        ep.atomic_sum_to(&buf, None, &peer, RemoteMemoryAddress::<u32>::new(0x9000), &key),
        AtomicCall::Atomic {
            ep: 0x20, count: 3, desc: 0, dest_addr: 4, addr: 0x9000, key: 0x44,
            datatype: DataType::Uint32.as_raw(), op: AtomicOp::Sum.as_raw(), context: 0,
        }
    );
    assert_eq!(DataType::Uint32.as_raw(), 5);
    let flags = [true, false];
    let mut ctx = Context::from_raw(0xc);
    assert_eq!(
        ep.atomic_lor_to_with_context(&flags, Some(MemoryRegionDesc::from_raw(0xd)), &peer, RemoteMemoryAddress::new(0x9000), &key, &mut ctx),
        AtomicCall::Atomic {
            ep: 0x20, count: 2, desc: 0xd, dest_addr: 4, addr: 0x9000, key: 0x44,
            datatype: DataType::Uint8.as_raw(), op: AtomicOp::Lor.as_raw(), context: 0xc,
        }
    );
}

#[test]
fn atomic_on_connected_endpoint_and_inject() {
    let ep = ConnectedEndpoint::from_raw_fid(0x10);
    let key = MappedMemoryRegionKey::from_raw(0x44);
    let buf = [7i64; 2];
    assert_eq!(
        ep.atomic_inject_max(&buf, RemoteMemoryAddress::<i64>::new(0x100), &key),
        AtomicCall::InjectAtomic {
            ep: 0x10, count: 2, dest_addr: FI_ADDR_UNSPEC, addr: 0x100, key: 0x44,
            datatype: DataType::Int64.as_raw(), op: AtomicOp::Max.as_raw(),
        }
    );
    let msg = MsgRef::from_raw(0x700);
    assert_eq!(
        ep.atomicmsg(&msg, AtomicMsgOptions::new()),
        AtomicCall::Atomicmsg { ep: 0x10, msg: 0x700, flags: 0 }
    );
}

#[test]
fn fetch_and_compare_atomics() {
    let ep = ConnectionlessEndpoint::from_raw_fid(0x20);
    let peer = MappedAddress::from_raw_addr(4);
    let key = MappedMemoryRegionKey::from_raw(0x44);
    let buf = [1u64; 2];
    let res = [0u64; 2];
    assert_eq!(
        ep.fetch_atomic_min_from(&buf, None, &res, Some(MemoryRegionDesc::from_raw(0xe)), &peer, RemoteMemoryAddress::<u64>::new(0x10), &key),
        AtomicCall::FetchAtomic {
            ep: 0x20, count: 2, desc: 0, result_desc: 0xe, dest_addr: 4, addr: 0x10, key: 0x44,
            datatype: DataType::Uint64.as_raw(), op: FetchAtomicOp::Min.as_raw(), context: 0,
        }
    );
    let data = [5u64; 1];
    let cmp = [6u64; 1];
    let out = [0u64; 1];
    let s = MemoryRegionSlice::new(&data, MemoryRegionDesc::from_raw(1));
    let c = MemoryRegionSlice::new(&cmp, MemoryRegionDesc::from_raw(2));
    let o = MemoryRegionSliceMut::new(&out, MemoryRegionDesc::from_raw(3));
    assert_eq!(
        ep.compare_atomic_swap_mr_to(&s, &c, &o, &peer, RemoteMemoryAddress::<u64>::new(0x10), &key),
        AtomicCall::CompareAtomic {
            ep: 0x20, count: 1, desc: 1, compare_desc: 2, result_desc: 3, dest_addr: 4, addr: 0x10, key: 0x44,
            datatype: DataType::Uint64.as_raw(), op: CompareAtomicOp::Cswap.as_raw(), context: 0,
        }
    );
    let cep = ConnectedEndpoint::from_raw_fid(0x10);
    let ioc = [Ioc::<u16>::from_raw(0x1, 4)];
    let resv = [IocMut::<u16>::from_raw(0x2, 4), IocMut::<u16>::from_raw(0x3, 4)];
    assert_eq!(
        cep.fetch_atomicv_bxor(&ioc, None, &resv, None, RemoteMemoryAddress::<u16>::new(0x10), &key),
        AtomicCall::FetchAtomicv {
            ep: 0x10, count: 1, descs: false, result_count: 2, result_descs: false, dest_addr: FI_ADDR_UNSPEC,
            addr: 0x10, key: 0x44, datatype: DataType::Uint16.as_raw(), op: FetchAtomicOp::Bxor.as_raw(), context: 0,
        }
    );
}

#[test]
fn remote_slices_supply_address_and_key() {
    let ep = ConnectionlessEndpoint::from_raw_fid(0x20);
    let peer = MappedAddress::from_raw_addr(4);
    let remote = RemoteMemAddrSliceMut::<i32>::new(0x5000, 16, MappedMemoryRegionKey::from_raw(0x99));
    let buf = [1i32; 4];
    assert_eq!(
        ep.atomic_prod_mr_slice_to(&buf, None, &peer, &remote),
        AtomicCall::Atomic {
            ep: 0x20, count: 4, desc: 0, dest_addr: 4, addr: 0x5000, key: 0x99,
            datatype: DataType::Int32.as_raw(), op: AtomicOp::Prod.as_raw(), context: 0,
        }
    );
}

#[test]
fn atomic_validity_queries() {
    let ep = ConnectedEndpoint::from_raw_fid(0x10);
    assert_eq!(
        ep.atomicvalid_call::<u8>(AtomicOp::Band),
        AtomicCall::AtomicValid { ep: 0x10, datatype: DataType::Uint8.as_raw(), op: AtomicOp::Band.as_raw() }
    );
    assert_eq!(ep.atomicvalid::<u8>(AtomicOp::Band, 0, 8), Ok(8));
    assert_eq!(ep.compare_atomicvalid::<u8>(CompareAtomicOp::Cswap, -95, 0), Err(Error { c_err: 95 }));
    assert_eq!(valid_count_result(0, 1), Ok(1));
}

#[test]
fn barrier_uses_barrier2_only_with_options() {
    let ep = ConnectedEndpoint::from_raw_fid(0x10);
    let group = MultiCastGroup::from_raw_addr(0x33);
    assert_eq!(ep.barrier(&group), CollCall::Barrier { ep: 0x10, coll_addr: 0x33, context: 0 });
    let opts = CollectiveOptions::new();
    assert_eq!(
        ep.barrier_with_options(&group, opts),
        CollCall::Barrier2 { ep: 0x10, coll_addr: 0x33, flags: 0, context: 0 }
    );
    let mut ctx = Context::from_raw(0xc);
    assert_eq!(
        ep.barrier_with_context(&group, &mut ctx),
        CollCall::Barrier { ep: 0x10, coll_addr: 0x33, context: 0xc }
    );
}

#[test]
fn reductions_name_root_op_and_type() {
    let ep = ConnectionlessEndpoint::from_raw_fid(0x20);
    let group = MultiCastGroup::from_raw_addr(0x33);
    let root = MappedAddress::from_raw_addr(0);
    let data = [1u32; 5];
    let result = [0u32; 5];
    assert_eq!(
        ep.reduce(&data, None, &result, None, &group, &root, CollAtomicOp::Sum, CollectiveOptions::new()),
        CollCall::Reduce {
            ep: 0x20, count: 5, desc: 0, result_desc: 0, coll_addr: 0x33, root_addr: 0,
            datatype: DataType::Uint32.as_raw(), op: CollAtomicOp::Sum.as_raw(), flags: 0, context: 0,
        }
    );
    assert_eq!(
        ep.allgather(&data, None, &result, None, &group, CollectiveOptions::new()),
        CollCall::Allgather {
            ep: 0x20, count: 5, desc: 0, result_desc: 0, coll_addr: 0x33,
            datatype: DataType::Uint32.as_raw(), flags: 0, context: 0,
        }
    );
}
