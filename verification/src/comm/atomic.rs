use vstd::prelude::*;
use crate::consts::FI_ADDR_UNSPEC;
use crate::datatype::AsFiType;
use crate::enums::{AtomicOp, CompareAtomicOp, FetchAtomicOp};
use crate::ep::{
    addr_value, ctx_value, extract_raw_ctx, owned_desc_value, raw_addr_or_unspec, raw_owned_desc, AsEndpointFid,
    ConnectedEndpoint, ConnectedEp, ConnectionlessEndpoint, ConnlessEp, Context, MappedAddress, MemoryRegionDesc,
    MsgRef, TriggeredContext,
};
use crate::error::Error;
use crate::flags::{AtomicFetchMsgOptions, AtomicMsgOptions};
use crate::mr::{
    Ioc, IocMut, MappedMemoryRegionKey, MemoryRegionSlice, MemoryRegionSliceMut, RemoteMemAddrSlice, RemoteMemAddrSliceMut,
    RemoteMemoryAddress,
};

verus! {

/// The libfabric call an atomic operation makes, with the arguments it passes. Buffers stay
/// with the caller: a call records their number of elements (`count`), as libfabric expects,
/// and whether an array of descriptors goes with an I/O vector.
#[derive(Clone, Copy, Debug, PartialEq, Eq, Structural)]
pub enum AtomicCall {
    /// `fi_atomic(ep, buf, count, desc, dest_addr, addr, key, datatype, op, context)`.
    Atomic { ep: u64, count: usize, desc: u64, dest_addr: u64, addr: u64, key: u64, datatype: u32, op: u32, context: u64 },
    /// `fi_atomicv(ep, iov, desc, count, dest_addr, addr, key, datatype, op, context)`.
    Atomicv { ep: u64, count: usize, descs: bool, dest_addr: u64, addr: u64, key: u64, datatype: u32, op: u32, context: u64 },
    /// `fi_atomicmsg(ep, msg, flags)`.
    Atomicmsg { ep: u64, msg: u64, flags: u64 },
    /// `fi_inject_atomic(ep, buf, count, dest_addr, addr, key, datatype, op)`.
    InjectAtomic { ep: u64, count: usize, dest_addr: u64, addr: u64, key: u64, datatype: u32, op: u32 },
    /// `fi_fetch_atomic(ep, buf, count, desc, result, result_desc, dest_addr, addr, key, datatype, op, context)`.
    FetchAtomic { ep: u64, count: usize, desc: u64, result_desc: u64, dest_addr: u64, addr: u64, key: u64, datatype: u32, op: u32, context: u64 },
    /// `fi_fetch_atomicv(ep, iov, desc, count, resultv, res_desc, result_count, dest_addr, addr, key, datatype, op, context)`.
    FetchAtomicv { ep: u64, count: usize, descs: bool, result_count: usize, result_descs: bool, dest_addr: u64, addr: u64, key: u64, datatype: u32, op: u32, context: u64 },
    /// `fi_fetch_atomicmsg(ep, msg, resultv, res_desc, result_count, flags)`.
    FetchAtomicmsg { ep: u64, msg: u64, result_count: usize, result_descs: bool, flags: u64 },
    /// `fi_compare_atomic(ep, buf, count, desc, compare, compare_desc, result, result_desc, dest_addr, addr, key, datatype, op, context)`.
    CompareAtomic { ep: u64, count: usize, desc: u64, compare_desc: u64, result_desc: u64, dest_addr: u64, addr: u64, key: u64, datatype: u32, op: u32, context: u64 },
    /// `fi_compare_atomicv(ep, iov, desc, count, comparev, compare_desc, compare_count, resultv, res_desc, result_count, dest_addr, addr, key, datatype, op, context)`.
    CompareAtomicv { ep: u64, count: usize, descs: bool, compare_count: usize, compare_descs: bool, result_count: usize, result_descs: bool, dest_addr: u64, addr: u64, key: u64, datatype: u32, op: u32, context: u64 },
    /// `fi_compare_atomicmsg(ep, msg, comparev, compare_desc, compare_count, resultv, res_desc, result_count, flags)`.
    CompareAtomicmsg { ep: u64, msg: u64, compare_count: usize, compare_descs: bool, result_count: usize, result_descs: bool, flags: u64 },
    /// `fi_atomicvalid(ep, datatype, op, &count)`.
    AtomicValid { ep: u64, datatype: u32, op: u32 },
    /// `fi_fetch_atomicvalid(ep, datatype, op, &count)`.
    FetchAtomicValid { ep: u64, datatype: u32, op: u32 },
    /// `fi_compare_atomicvalid(ep, datatype, op, &count)`.
    CompareAtomicValid { ep: u64, datatype: u32, op: u32 },
}

/// What a query for atomic support answers: the number of elements one operation may carry
/// when `err` is zero, else the error that the negated `err` names.
pub fn valid_count_result(err: isize, count: usize) -> (r: Result<usize, Error>)
    requires
        err == 0 || (err < 0 && err > isize::MIN && -err <= u32::MAX),
    ensures
        err == 0 ==> r == Ok::<usize, Error>(count),
        err != 0 ==> r == Err::<usize, Error>(Error { c_err: (-err) as u32 }),
{
    if err != 0 {
        Err(Error::from_err_code((-err) as u32))
    } else {
        Ok(count)
    }
}

/// Asks a provider which atomic operations an endpoint supports, and for how many elements.
pub trait AtomicValidEp: AsEndpointFid {
    /// The call that asks whether `op` is supported on values of type `T`.
    fn atomicvalid_call<T: AsFiType>(&self, op: AtomicOp) -> (r: AtomicCall)
        ensures
            r == (AtomicCall::AtomicValid { ep: self.ep_fid(), datatype: T::fi_datatype().raw_value(), op: op.raw_value() }),
    {
        AtomicCall::AtomicValid { ep: self.as_raw_typed_fid(), datatype: T::as_fi_datatype().as_raw(), op: op.as_raw() }
    }

    /// The number of elements of type `T` that one `op` may carry, from what the call of
    /// [AtomicValidEp::atomicvalid_call] returned (`err`) and the count it wrote.
    fn atomicvalid<T: AsFiType>(&self, op: AtomicOp, err: isize, count: usize) -> (r: Result<usize, Error>)
        requires
            err == 0 || (err < 0 && err > isize::MIN && -err <= u32::MAX),
        ensures
            err == 0 ==> r == Ok::<usize, Error>(count),
            err != 0 ==> r == Err::<usize, Error>(Error { c_err: (-err) as u32 }),
    {
        valid_count_result(err, count)
    }

    /// The call that asks whether `op` is supported on values of type `T`.
    fn fetch_atomicvalid_call<T: AsFiType>(&self, op: FetchAtomicOp) -> (r: AtomicCall)
        ensures
            r == (AtomicCall::FetchAtomicValid { ep: self.ep_fid(), datatype: T::fi_datatype().raw_value(), op: op.raw_value() }),
    {
        AtomicCall::FetchAtomicValid { ep: self.as_raw_typed_fid(), datatype: T::as_fi_datatype().as_raw(), op: op.as_raw() }
    }

    /// The number of elements of type `T` that one `op` may carry, from what the call of
    /// [AtomicValidEp::fetch_atomicvalid_call] returned (`err`) and the count it wrote.
    fn fetch_atomicvalid<T: AsFiType>(&self, op: FetchAtomicOp, err: isize, count: usize) -> (r: Result<usize, Error>)
        requires
            err == 0 || (err < 0 && err > isize::MIN && -err <= u32::MAX),
        ensures
            err == 0 ==> r == Ok::<usize, Error>(count),
            err != 0 ==> r == Err::<usize, Error>(Error { c_err: (-err) as u32 }),
    {
        valid_count_result(err, count)
    }

    /// The call that asks whether `op` is supported on values of type `T`.
    fn compare_atomicvalid_call<T: AsFiType>(&self, op: CompareAtomicOp) -> (r: AtomicCall)
        ensures
            r == (AtomicCall::CompareAtomicValid { ep: self.ep_fid(), datatype: T::fi_datatype().raw_value(), op: op.raw_value() }),
    {
        AtomicCall::CompareAtomicValid { ep: self.as_raw_typed_fid(), datatype: T::as_fi_datatype().as_raw(), op: op.as_raw() }
    }

    /// The number of elements of type `T` that one `op` may carry, from what the call of
    /// [AtomicValidEp::compare_atomicvalid_call] returned (`err`) and the count it wrote.
    fn compare_atomicvalid<T: AsFiType>(&self, op: CompareAtomicOp, err: isize, count: usize) -> (r: Result<usize, Error>)
        requires
            err == 0 || (err < 0 && err > isize::MIN && -err <= u32::MAX),
        ensures
            err == 0 ==> r == Ok::<usize, Error>(count),
            err != 0 ==> r == Err::<usize, Error>(Error { c_err: (-err) as u32 }),
    {
        valid_count_result(err, count)
    }
}

impl AtomicValidEp for ConnectionlessEndpoint {}

impl AtomicValidEp for ConnectedEndpoint {}

/// Plans the libfabric calls of atomic operations that only write the target.
pub trait AtomicWriteEpImpl: AtomicValidEp {
    fn atomic_impl<T: AsFiType, RT: AsFiType>(&self, buf: &[T], desc: Option<MemoryRegionDesc>, dest_addr: Option<&MappedAddress>, mem_addr: RemoteMemoryAddress<RT>, mapped_key: &MappedMemoryRegionKey, context: Option<u64>, op: AtomicOp) -> (r: AtomicCall)
        ensures
            r == (AtomicCall::Atomic { ep: self.ep_fid(), count: buf@.len() as usize, desc: owned_desc_value(desc), dest_addr: addr_value(dest_addr), addr: mem_addr@, key: mapped_key@, datatype: T::fi_datatype().raw_value(), op: op.raw_value(), context: ctx_value(context) }),
    {
        let count = buf.len();
        let desc = raw_owned_desc(desc);
        let dest_addr = raw_addr_or_unspec(dest_addr);
        let addr = mem_addr.as_raw();
        let key = mapped_key.key();
        let datatype = T::as_fi_datatype().as_raw();
        let op = op.as_raw();
        let context = extract_raw_ctx(context);
        AtomicCall::Atomic { ep: self.as_raw_typed_fid(), count, desc, dest_addr, addr, key, datatype, op, context }
    }

    fn atomicv_impl<T: AsFiType, RT: AsFiType>(&self, ioc: &[Ioc<T>], desc: Option<&[MemoryRegionDesc]>, dest_addr: Option<&MappedAddress>, mem_addr: RemoteMemoryAddress<RT>, mapped_key: &MappedMemoryRegionKey, context: Option<u64>, op: AtomicOp) -> (r: AtomicCall)
        ensures
            r == (AtomicCall::Atomicv { ep: self.ep_fid(), count: ioc@.len() as usize, descs: desc is Some, dest_addr: addr_value(dest_addr), addr: mem_addr@, key: mapped_key@, datatype: T::fi_datatype().raw_value(), op: op.raw_value(), context: ctx_value(context) }),
    {
        let count = ioc.len();
        let descs = desc.is_some();
        let dest_addr = raw_addr_or_unspec(dest_addr);
        let addr = mem_addr.as_raw();
        let key = mapped_key.key();
        let datatype = T::as_fi_datatype().as_raw();
        let op = op.as_raw();
        let context = extract_raw_ctx(context);
        AtomicCall::Atomicv { ep: self.as_raw_typed_fid(), count, descs, dest_addr, addr, key, datatype, op, context }
    }

    fn atomicmsg_impl(&self, msg: &MsgRef, options: AtomicMsgOptions) -> (r: AtomicCall)
        ensures
            r == (AtomicCall::Atomicmsg { ep: self.ep_fid(), msg: msg@, flags: options@ }),
    {
        let msg = msg.as_raw();
        let flags = options.as_raw();
        AtomicCall::Atomicmsg { ep: self.as_raw_typed_fid(), msg, flags }
    }

    fn inject_atomic_impl<T: AsFiType, RT: AsFiType>(&self, buf: &[T], dest_addr: Option<&MappedAddress>, mem_addr: RemoteMemoryAddress<RT>, mapped_key: &MappedMemoryRegionKey, op: AtomicOp) -> (r: AtomicCall)
        ensures
            r == (AtomicCall::InjectAtomic { ep: self.ep_fid(), count: buf@.len() as usize, dest_addr: addr_value(dest_addr), addr: mem_addr@, key: mapped_key@, datatype: T::fi_datatype().raw_value(), op: op.raw_value() }),
    {
        let count = buf.len();
        let dest_addr = raw_addr_or_unspec(dest_addr);
        let addr = mem_addr.as_raw();
        let key = mapped_key.key();
        let datatype = T::as_fi_datatype().as_raw();
        let op = op.as_raw();
        AtomicCall::InjectAtomic { ep: self.as_raw_typed_fid(), count, dest_addr, addr, key, datatype, op }
    }
}

/// Plans the libfabric calls of atomic operations that fetch the target's previous value.
pub trait AtomicFetchEpImpl: AtomicValidEp {
    fn fetch_atomic_impl<T: AsFiType, RT: AsFiType>(&self, buf: &[T], desc: Option<MemoryRegionDesc>, res: &[T], res_desc: Option<MemoryRegionDesc>, dest_addr: Option<&MappedAddress>, mem_addr: RemoteMemoryAddress<RT>, mapped_key: &MappedMemoryRegionKey, context: Option<u64>, op: FetchAtomicOp) -> (r: AtomicCall)
        ensures
            r == (AtomicCall::FetchAtomic { ep: self.ep_fid(), count: buf@.len() as usize, desc: owned_desc_value(desc), result_desc: owned_desc_value(res_desc), dest_addr: addr_value(dest_addr), addr: mem_addr@, key: mapped_key@, datatype: T::fi_datatype().raw_value(), op: op.raw_value(), context: ctx_value(context) }),
    {
        let count = buf.len();
        let desc = raw_owned_desc(desc);
        let result_desc = raw_owned_desc(res_desc);
        let dest_addr = raw_addr_or_unspec(dest_addr);
        let addr = mem_addr.as_raw();
        let key = mapped_key.key();
        let datatype = T::as_fi_datatype().as_raw();
        let op = op.as_raw();
        let context = extract_raw_ctx(context);
        AtomicCall::FetchAtomic { ep: self.as_raw_typed_fid(), count, desc, result_desc, dest_addr, addr, key, datatype, op, context }
    }

    fn fetch_atomicv_impl<T: AsFiType, RT: AsFiType>(&self, ioc: &[Ioc<T>], desc: Option<&[MemoryRegionDesc]>, resultv: &[IocMut<T>], res_desc: Option<&[MemoryRegionDesc]>, dest_addr: Option<&MappedAddress>, mem_addr: RemoteMemoryAddress<RT>, mapped_key: &MappedMemoryRegionKey, context: Option<u64>, op: FetchAtomicOp) -> (r: AtomicCall)
        ensures
            r == (AtomicCall::FetchAtomicv { ep: self.ep_fid(), count: ioc@.len() as usize, descs: desc is Some, result_count: resultv@.len() as usize, result_descs: res_desc is Some, dest_addr: addr_value(dest_addr), addr: mem_addr@, key: mapped_key@, datatype: T::fi_datatype().raw_value(), op: op.raw_value(), context: ctx_value(context) }),
    {
        let count = ioc.len();
        let descs = desc.is_some();
        let result_count = resultv.len();
        let result_descs = res_desc.is_some();
        let dest_addr = raw_addr_or_unspec(dest_addr);
        let addr = mem_addr.as_raw();
        let key = mapped_key.key();
        let datatype = T::as_fi_datatype().as_raw();
        let op = op.as_raw();
        let context = extract_raw_ctx(context);
        AtomicCall::FetchAtomicv { ep: self.as_raw_typed_fid(), count, descs, result_count, result_descs, dest_addr, addr, key, datatype, op, context }
    }

    fn fetch_atomicmsg_impl<T: AsFiType>(&self, msg: &MsgRef, resultv: &[IocMut<T>], res_desc: Option<&[MemoryRegionDesc]>, options: AtomicFetchMsgOptions) -> (r: AtomicCall)
        ensures
            r == (AtomicCall::FetchAtomicmsg { ep: self.ep_fid(), msg: msg@, result_count: resultv@.len() as usize, result_descs: res_desc is Some, flags: options@ }),
    {
        let msg = msg.as_raw();
        let result_count = resultv.len();
        let result_descs = res_desc.is_some();
        let flags = options.as_raw();
        AtomicCall::FetchAtomicmsg { ep: self.as_raw_typed_fid(), msg, result_count, result_descs, flags }
    }
}

/// Plans the libfabric calls of compare-and-swap atomic operations.
pub trait AtomicCASImpl: AtomicValidEp {
    fn compare_atomic_impl<T: AsFiType, RT: AsFiType>(&self, buf: &[T], desc: Option<MemoryRegionDesc>, compare: &[T], compare_desc: Option<MemoryRegionDesc>, result: &[T], result_desc: Option<MemoryRegionDesc>, dest_addr: Option<&MappedAddress>, mem_addr: RemoteMemoryAddress<RT>, mapped_key: &MappedMemoryRegionKey, context: Option<u64>, op: CompareAtomicOp) -> (r: AtomicCall)
        ensures
            r == (AtomicCall::CompareAtomic { ep: self.ep_fid(), count: buf@.len() as usize, desc: owned_desc_value(desc), compare_desc: owned_desc_value(compare_desc), result_desc: owned_desc_value(result_desc), dest_addr: addr_value(dest_addr), addr: mem_addr@, key: mapped_key@, datatype: T::fi_datatype().raw_value(), op: op.raw_value(), context: ctx_value(context) }),
    {
        let count = buf.len();
        let desc = raw_owned_desc(desc);
        let compare_desc = raw_owned_desc(compare_desc);
        let result_desc = raw_owned_desc(result_desc);
        let dest_addr = raw_addr_or_unspec(dest_addr);
        let addr = mem_addr.as_raw();
        let key = mapped_key.key();
        let datatype = T::as_fi_datatype().as_raw();
        let op = op.as_raw();
        let context = extract_raw_ctx(context);
        AtomicCall::CompareAtomic { ep: self.as_raw_typed_fid(), count, desc, compare_desc, result_desc, dest_addr, addr, key, datatype, op, context }
    }

    fn compare_atomicv_impl<T: AsFiType, RT: AsFiType>(&self, ioc: &[Ioc<T>], desc: Option<&[MemoryRegionDesc]>, comparetv: &[Ioc<T>], compare_desc: Option<&[MemoryRegionDesc]>, resultv: &[IocMut<T>], res_desc: Option<&[MemoryRegionDesc]>, dest_addr: Option<&MappedAddress>, mem_addr: RemoteMemoryAddress<RT>, mapped_key: &MappedMemoryRegionKey, context: Option<u64>, op: CompareAtomicOp) -> (r: AtomicCall)
        ensures
            r == (AtomicCall::CompareAtomicv { ep: self.ep_fid(), count: ioc@.len() as usize, descs: desc is Some, compare_count: comparetv@.len() as usize, compare_descs: compare_desc is Some, result_count: resultv@.len() as usize, result_descs: res_desc is Some, dest_addr: addr_value(dest_addr), addr: mem_addr@, key: mapped_key@, datatype: T::fi_datatype().raw_value(), op: op.raw_value(), context: ctx_value(context) }),
    {
        let count = ioc.len();
        let descs = desc.is_some();
        let compare_count = comparetv.len();
        let compare_descs = compare_desc.is_some();
        let result_count = resultv.len();
        let result_descs = res_desc.is_some();
        let dest_addr = raw_addr_or_unspec(dest_addr);
        let addr = mem_addr.as_raw();
        let key = mapped_key.key();
        let datatype = T::as_fi_datatype().as_raw();
        let op = op.as_raw();
        let context = extract_raw_ctx(context);
        AtomicCall::CompareAtomicv { ep: self.as_raw_typed_fid(), count, descs, compare_count, compare_descs, result_count, result_descs, dest_addr, addr, key, datatype, op, context }
    }

    fn compare_atomicmsg_impl<T: AsFiType>(&self, msg: &MsgRef, comparev: &[Ioc<T>], compare_desc: Option<&[MemoryRegionDesc]>, resultv: &[IocMut<T>], res_desc: Option<&[MemoryRegionDesc]>, options: AtomicMsgOptions) -> (r: AtomicCall)
        ensures
            r == (AtomicCall::CompareAtomicmsg { ep: self.ep_fid(), msg: msg@, compare_count: comparev@.len() as usize, compare_descs: compare_desc is Some, result_count: resultv@.len() as usize, result_descs: res_desc is Some, flags: options@ }),
    {
        let msg = msg.as_raw();
        let compare_count = comparev.len();
        let compare_descs = compare_desc.is_some();
        let result_count = resultv.len();
        let result_descs = res_desc.is_some();
        let flags = options.as_raw();
        AtomicCall::CompareAtomicmsg { ep: self.as_raw_typed_fid(), msg, compare_count, compare_descs, result_count, result_descs, flags }
    }
}

impl AtomicWriteEpImpl for ConnectionlessEndpoint {}

impl AtomicWriteEpImpl for ConnectedEndpoint {}

impl AtomicFetchEpImpl for ConnectionlessEndpoint {}

impl AtomicFetchEpImpl for ConnectedEndpoint {}

impl AtomicCASImpl for ConnectionlessEndpoint {}

impl AtomicCASImpl for ConnectedEndpoint {}

/// Atomic updates of a peer's memory from a connectionless endpoint.
pub trait AtomicWriteEp: AtomicWriteEpImpl + ConnlessEp {
    fn atomic_min_to<T: AsFiType, RT: AsFiType>(&self, buf: &[T], desc: Option<MemoryRegionDesc>, dest_addr: &MappedAddress, mem_addr: RemoteMemoryAddress<RT>, mapped_key: &MappedMemoryRegionKey) -> (r: AtomicCall)
        ensures
            r == (AtomicCall::Atomic { ep: self.ep_fid(), count: buf@.len() as usize, desc: owned_desc_value(desc), dest_addr: dest_addr@, addr: mem_addr@, key: mapped_key@, datatype: T::fi_datatype().raw_value(), op: AtomicOp::Min.raw_value(), context: 0 }),
    {
        self.atomic_impl(buf, desc, Some(dest_addr), mem_addr, mapped_key, None, AtomicOp::Min)
    }

    fn atomic_max_to<T: AsFiType, RT: AsFiType>(&self, buf: &[T], desc: Option<MemoryRegionDesc>, dest_addr: &MappedAddress, mem_addr: RemoteMemoryAddress<RT>, mapped_key: &MappedMemoryRegionKey) -> (r: AtomicCall)
        ensures
            r == (AtomicCall::Atomic { ep: self.ep_fid(), count: buf@.len() as usize, desc: owned_desc_value(desc), dest_addr: dest_addr@, addr: mem_addr@, key: mapped_key@, datatype: T::fi_datatype().raw_value(), op: AtomicOp::Max.raw_value(), context: 0 }),
    {
        self.atomic_impl(buf, desc, Some(dest_addr), mem_addr, mapped_key, None, AtomicOp::Max)
    }

    fn atomic_sum_to<T: AsFiType, RT: AsFiType>(&self, buf: &[T], desc: Option<MemoryRegionDesc>, dest_addr: &MappedAddress, mem_addr: RemoteMemoryAddress<RT>, mapped_key: &MappedMemoryRegionKey) -> (r: AtomicCall)
        ensures
            r == (AtomicCall::Atomic { ep: self.ep_fid(), count: buf@.len() as usize, desc: owned_desc_value(desc), dest_addr: dest_addr@, addr: mem_addr@, key: mapped_key@, datatype: T::fi_datatype().raw_value(), op: AtomicOp::Sum.raw_value(), context: 0 }),
    {
        self.atomic_impl(buf, desc, Some(dest_addr), mem_addr, mapped_key, None, AtomicOp::Sum)
    }

    fn atomic_prod_to<T: AsFiType, RT: AsFiType>(&self, buf: &[T], desc: Option<MemoryRegionDesc>, dest_addr: &MappedAddress, mem_addr: RemoteMemoryAddress<RT>, mapped_key: &MappedMemoryRegionKey) -> (r: AtomicCall)
        ensures
            r == (AtomicCall::Atomic { ep: self.ep_fid(), count: buf@.len() as usize, desc: owned_desc_value(desc), dest_addr: dest_addr@, addr: mem_addr@, key: mapped_key@, datatype: T::fi_datatype().raw_value(), op: AtomicOp::Prod.raw_value(), context: 0 }),
    {
        self.atomic_impl(buf, desc, Some(dest_addr), mem_addr, mapped_key, None, AtomicOp::Prod)
    }

    fn atomic_bor_to<T: AsFiType, RT: AsFiType>(&self, buf: &[T], desc: Option<MemoryRegionDesc>, dest_addr: &MappedAddress, mem_addr: RemoteMemoryAddress<RT>, mapped_key: &MappedMemoryRegionKey) -> (r: AtomicCall)
        ensures
            r == (AtomicCall::Atomic { ep: self.ep_fid(), count: buf@.len() as usize, desc: owned_desc_value(desc), dest_addr: dest_addr@, addr: mem_addr@, key: mapped_key@, datatype: T::fi_datatype().raw_value(), op: AtomicOp::Bor.raw_value(), context: 0 }),
    {
        self.atomic_impl(buf, desc, Some(dest_addr), mem_addr, mapped_key, None, AtomicOp::Bor)
    }

    fn atomic_band_to<T: AsFiType, RT: AsFiType>(&self, buf: &[T], desc: Option<MemoryRegionDesc>, dest_addr: &MappedAddress, mem_addr: RemoteMemoryAddress<RT>, mapped_key: &MappedMemoryRegionKey) -> (r: AtomicCall)
        ensures
            r == (AtomicCall::Atomic { ep: self.ep_fid(), count: buf@.len() as usize, desc: owned_desc_value(desc), dest_addr: dest_addr@, addr: mem_addr@, key: mapped_key@, datatype: T::fi_datatype().raw_value(), op: AtomicOp::Band.raw_value(), context: 0 }),
    {
        self.atomic_impl(buf, desc, Some(dest_addr), mem_addr, mapped_key, None, AtomicOp::Band)
    }

    fn atomic_bxor_to<T: AsFiType, RT: AsFiType>(&self, buf: &[T], desc: Option<MemoryRegionDesc>, dest_addr: &MappedAddress, mem_addr: RemoteMemoryAddress<RT>, mapped_key: &MappedMemoryRegionKey) -> (r: AtomicCall)
        ensures
            r == (AtomicCall::Atomic { ep: self.ep_fid(), count: buf@.len() as usize, desc: owned_desc_value(desc), dest_addr: dest_addr@, addr: mem_addr@, key: mapped_key@, datatype: T::fi_datatype().raw_value(), op: AtomicOp::Bxor.raw_value(), context: 0 }),
    {
        self.atomic_impl(buf, desc, Some(dest_addr), mem_addr, mapped_key, None, AtomicOp::Bxor)
    }

    fn atomic_lor_to(&self, buf: &[bool], desc: Option<MemoryRegionDesc>, dest_addr: &MappedAddress, mem_addr: RemoteMemoryAddress<bool>, mapped_key: &MappedMemoryRegionKey) -> (r: AtomicCall)
        ensures
            r == (AtomicCall::Atomic { ep: self.ep_fid(), count: buf@.len() as usize, desc: owned_desc_value(desc), dest_addr: dest_addr@, addr: mem_addr@, key: mapped_key@, datatype: <bool as AsFiType>::fi_datatype().raw_value(), op: AtomicOp::Lor.raw_value(), context: 0 }),
    {
        self.atomic_impl(buf, desc, Some(dest_addr), mem_addr, mapped_key, None, AtomicOp::Lor)
    }

    fn atomic_land_to(&self, buf: &[bool], desc: Option<MemoryRegionDesc>, dest_addr: &MappedAddress, mem_addr: RemoteMemoryAddress<bool>, mapped_key: &MappedMemoryRegionKey) -> (r: AtomicCall)
        ensures
            r == (AtomicCall::Atomic { ep: self.ep_fid(), count: buf@.len() as usize, desc: owned_desc_value(desc), dest_addr: dest_addr@, addr: mem_addr@, key: mapped_key@, datatype: <bool as AsFiType>::fi_datatype().raw_value(), op: AtomicOp::Land.raw_value(), context: 0 }),
    {
        self.atomic_impl(buf, desc, Some(dest_addr), mem_addr, mapped_key, None, AtomicOp::Land)
    }

    fn atomic_lxor_to(&self, buf: &[bool], desc: Option<MemoryRegionDesc>, dest_addr: &MappedAddress, mem_addr: RemoteMemoryAddress<bool>, mapped_key: &MappedMemoryRegionKey) -> (r: AtomicCall)
        ensures
            r == (AtomicCall::Atomic { ep: self.ep_fid(), count: buf@.len() as usize, desc: owned_desc_value(desc), dest_addr: dest_addr@, addr: mem_addr@, key: mapped_key@, datatype: <bool as AsFiType>::fi_datatype().raw_value(), op: AtomicOp::Lxor.raw_value(), context: 0 }),
    {
        self.atomic_impl(buf, desc, Some(dest_addr), mem_addr, mapped_key, None, AtomicOp::Lxor)
    }

    fn atomic_min_to_with_context<T: AsFiType, RT: AsFiType>(&self, buf: &[T], desc: Option<MemoryRegionDesc>, dest_addr: &MappedAddress, mem_addr: RemoteMemoryAddress<RT>, mapped_key: &MappedMemoryRegionKey, context: &mut Context) -> (r: AtomicCall)
        ensures
            r == (AtomicCall::Atomic { ep: self.ep_fid(), count: buf@.len() as usize, desc: owned_desc_value(desc), dest_addr: dest_addr@, addr: mem_addr@, key: mapped_key@, datatype: T::fi_datatype().raw_value(), op: AtomicOp::Min.raw_value(), context: old(context)@ }),
            *final(context) == *old(context),
    {
        self.atomic_impl(buf, desc, Some(dest_addr), mem_addr, mapped_key, Some(context.inner_mut()), AtomicOp::Min)
    }

    fn atomic_max_to_with_context<T: AsFiType, RT: AsFiType>(&self, buf: &[T], desc: Option<MemoryRegionDesc>, dest_addr: &MappedAddress, mem_addr: RemoteMemoryAddress<RT>, mapped_key: &MappedMemoryRegionKey, context: &mut Context) -> (r: AtomicCall)
        ensures
            r == (AtomicCall::Atomic { ep: self.ep_fid(), count: buf@.len() as usize, desc: owned_desc_value(desc), dest_addr: dest_addr@, addr: mem_addr@, key: mapped_key@, datatype: T::fi_datatype().raw_value(), op: AtomicOp::Max.raw_value(), context: old(context)@ }),
            *final(context) == *old(context),
    {
        self.atomic_impl(buf, desc, Some(dest_addr), mem_addr, mapped_key, Some(context.inner_mut()), AtomicOp::Max)
    }

    fn atomic_sum_to_with_context<T: AsFiType, RT: AsFiType>(&self, buf: &[T], desc: Option<MemoryRegionDesc>, dest_addr: &MappedAddress, mem_addr: RemoteMemoryAddress<RT>, mapped_key: &MappedMemoryRegionKey, context: &mut Context) -> (r: AtomicCall)
        ensures
            r == (AtomicCall::Atomic { ep: self.ep_fid(), count: buf@.len() as usize, desc: owned_desc_value(desc), dest_addr: dest_addr@, addr: mem_addr@, key: mapped_key@, datatype: T::fi_datatype().raw_value(), op: AtomicOp::Sum.raw_value(), context: old(context)@ }),
            *final(context) == *old(context),
    {
        self.atomic_impl(buf, desc, Some(dest_addr), mem_addr, mapped_key, Some(context.inner_mut()), AtomicOp::Sum)
    }

    fn atomic_prod_to_with_context<T: AsFiType, RT: AsFiType>(&self, buf: &[T], desc: Option<MemoryRegionDesc>, dest_addr: &MappedAddress, mem_addr: RemoteMemoryAddress<RT>, mapped_key: &MappedMemoryRegionKey, context: &mut Context) -> (r: AtomicCall)
        ensures
            r == (AtomicCall::Atomic { ep: self.ep_fid(), count: buf@.len() as usize, desc: owned_desc_value(desc), dest_addr: dest_addr@, addr: mem_addr@, key: mapped_key@, datatype: T::fi_datatype().raw_value(), op: AtomicOp::Prod.raw_value(), context: old(context)@ }),
            *final(context) == *old(context),
    {
        self.atomic_impl(buf, desc, Some(dest_addr), mem_addr, mapped_key, Some(context.inner_mut()), AtomicOp::Prod)
    }

    fn atomic_bor_to_with_context<T: AsFiType, RT: AsFiType>(&self, buf: &[T], desc: Option<MemoryRegionDesc>, dest_addr: &MappedAddress, mem_addr: RemoteMemoryAddress<RT>, mapped_key: &MappedMemoryRegionKey, context: &mut Context) -> (r: AtomicCall)
        ensures
            r == (AtomicCall::Atomic { ep: self.ep_fid(), count: buf@.len() as usize, desc: owned_desc_value(desc), dest_addr: dest_addr@, addr: mem_addr@, key: mapped_key@, datatype: T::fi_datatype().raw_value(), op: AtomicOp::Bor.raw_value(), context: old(context)@ }),
            *final(context) == *old(context),
    {
        self.atomic_impl(buf, desc, Some(dest_addr), mem_addr, mapped_key, Some(context.inner_mut()), AtomicOp::Bor)
    }

    fn atomic_band_to_with_context<T: AsFiType, RT: AsFiType>(&self, buf: &[T], desc: Option<MemoryRegionDesc>, dest_addr: &MappedAddress, mem_addr: RemoteMemoryAddress<RT>, mapped_key: &MappedMemoryRegionKey, context: &mut Context) -> (r: AtomicCall)
        ensures
            r == (AtomicCall::Atomic { ep: self.ep_fid(), count: buf@.len() as usize, desc: owned_desc_value(desc), dest_addr: dest_addr@, addr: mem_addr@, key: mapped_key@, datatype: T::fi_datatype().raw_value(), op: AtomicOp::Band.raw_value(), context: old(context)@ }),
            *final(context) == *old(context),
    {
        self.atomic_impl(buf, desc, Some(dest_addr), mem_addr, mapped_key, Some(context.inner_mut()), AtomicOp::Band)
    }

    fn atomic_bxor_to_with_context<T: AsFiType, RT: AsFiType>(&self, buf: &[T], desc: Option<MemoryRegionDesc>, dest_addr: &MappedAddress, mem_addr: RemoteMemoryAddress<RT>, mapped_key: &MappedMemoryRegionKey, context: &mut Context) -> (r: AtomicCall)
        ensures
            r == (AtomicCall::Atomic { ep: self.ep_fid(), count: buf@.len() as usize, desc: owned_desc_value(desc), dest_addr: dest_addr@, addr: mem_addr@, key: mapped_key@, datatype: T::fi_datatype().raw_value(), op: AtomicOp::Bxor.raw_value(), context: old(context)@ }),
            *final(context) == *old(context),
    {
        self.atomic_impl(buf, desc, Some(dest_addr), mem_addr, mapped_key, Some(context.inner_mut()), AtomicOp::Bxor)
    }

    fn atomic_lor_to_with_context(&self, buf: &[bool], desc: Option<MemoryRegionDesc>, dest_addr: &MappedAddress, mem_addr: RemoteMemoryAddress<bool>, mapped_key: &MappedMemoryRegionKey, context: &mut Context) -> (r: AtomicCall)
        ensures
            r == (AtomicCall::Atomic { ep: self.ep_fid(), count: buf@.len() as usize, desc: owned_desc_value(desc), dest_addr: dest_addr@, addr: mem_addr@, key: mapped_key@, datatype: <bool as AsFiType>::fi_datatype().raw_value(), op: AtomicOp::Lor.raw_value(), context: old(context)@ }),
            *final(context) == *old(context),
    {
        self.atomic_impl(buf, desc, Some(dest_addr), mem_addr, mapped_key, Some(context.inner_mut()), AtomicOp::Lor)
    }

    fn atomic_land_to_with_context(&self, buf: &[bool], desc: Option<MemoryRegionDesc>, dest_addr: &MappedAddress, mem_addr: RemoteMemoryAddress<bool>, mapped_key: &MappedMemoryRegionKey, context: &mut Context) -> (r: AtomicCall)
        ensures
            r == (AtomicCall::Atomic { ep: self.ep_fid(), count: buf@.len() as usize, desc: owned_desc_value(desc), dest_addr: dest_addr@, addr: mem_addr@, key: mapped_key@, datatype: <bool as AsFiType>::fi_datatype().raw_value(), op: AtomicOp::Land.raw_value(), context: old(context)@ }),
            *final(context) == *old(context),
    {
        self.atomic_impl(buf, desc, Some(dest_addr), mem_addr, mapped_key, Some(context.inner_mut()), AtomicOp::Land)
    }

    fn atomic_lxor_to_with_context(&self, buf: &[bool], desc: Option<MemoryRegionDesc>, dest_addr: &MappedAddress, mem_addr: RemoteMemoryAddress<bool>, mapped_key: &MappedMemoryRegionKey, context: &mut Context) -> (r: AtomicCall)
        ensures
            r == (AtomicCall::Atomic { ep: self.ep_fid(), count: buf@.len() as usize, desc: owned_desc_value(desc), dest_addr: dest_addr@, addr: mem_addr@, key: mapped_key@, datatype: <bool as AsFiType>::fi_datatype().raw_value(), op: AtomicOp::Lxor.raw_value(), context: old(context)@ }),
            *final(context) == *old(context),
    {
        self.atomic_impl(buf, desc, Some(dest_addr), mem_addr, mapped_key, Some(context.inner_mut()), AtomicOp::Lxor)
    }

    fn atomic_min_to_triggered<T: AsFiType, RT: AsFiType>(&self, buf: &[T], desc: Option<MemoryRegionDesc>, dest_addr: &MappedAddress, mem_addr: RemoteMemoryAddress<RT>, mapped_key: &MappedMemoryRegionKey, context: &mut TriggeredContext) -> (r: AtomicCall)
        ensures
            r == (AtomicCall::Atomic { ep: self.ep_fid(), count: buf@.len() as usize, desc: owned_desc_value(desc), dest_addr: dest_addr@, addr: mem_addr@, key: mapped_key@, datatype: T::fi_datatype().raw_value(), op: AtomicOp::Min.raw_value(), context: old(context)@ }),
            *final(context) == *old(context),
    {
        self.atomic_impl(buf, desc, Some(dest_addr), mem_addr, mapped_key, Some(context.inner_mut()), AtomicOp::Min)
    }

    fn atomic_max_to_triggered<T: AsFiType, RT: AsFiType>(&self, buf: &[T], desc: Option<MemoryRegionDesc>, dest_addr: &MappedAddress, mem_addr: RemoteMemoryAddress<RT>, mapped_key: &MappedMemoryRegionKey, context: &mut TriggeredContext) -> (r: AtomicCall)
        ensures
            r == (AtomicCall::Atomic { ep: self.ep_fid(), count: buf@.len() as usize, desc: owned_desc_value(desc), dest_addr: dest_addr@, addr: mem_addr@, key: mapped_key@, datatype: T::fi_datatype().raw_value(), op: AtomicOp::Max.raw_value(), context: old(context)@ }),
            *final(context) == *old(context),
    {
        self.atomic_impl(buf, desc, Some(dest_addr), mem_addr, mapped_key, Some(context.inner_mut()), AtomicOp::Max)
    }

    fn atomic_sum_to_triggered<T: AsFiType, RT: AsFiType>(&self, buf: &[T], desc: Option<MemoryRegionDesc>, dest_addr: &MappedAddress, mem_addr: RemoteMemoryAddress<RT>, mapped_key: &MappedMemoryRegionKey, context: &mut TriggeredContext) -> (r: AtomicCall)
        ensures
            r == (AtomicCall::Atomic { ep: self.ep_fid(), count: buf@.len() as usize, desc: owned_desc_value(desc), dest_addr: dest_addr@, addr: mem_addr@, key: mapped_key@, datatype: T::fi_datatype().raw_value(), op: AtomicOp::Sum.raw_value(), context: old(context)@ }),
            *final(context) == *old(context),
    {
        self.atomic_impl(buf, desc, Some(dest_addr), mem_addr, mapped_key, Some(context.inner_mut()), AtomicOp::Sum)
    }

    fn atomic_prod_to_triggered<T: AsFiType, RT: AsFiType>(&self, buf: &[T], desc: Option<MemoryRegionDesc>, dest_addr: &MappedAddress, mem_addr: RemoteMemoryAddress<RT>, mapped_key: &MappedMemoryRegionKey, context: &mut TriggeredContext) -> (r: AtomicCall)
        ensures
            r == (AtomicCall::Atomic { ep: self.ep_fid(), count: buf@.len() as usize, desc: owned_desc_value(desc), dest_addr: dest_addr@, addr: mem_addr@, key: mapped_key@, datatype: T::fi_datatype().raw_value(), op: AtomicOp::Prod.raw_value(), context: old(context)@ }),
            *final(context) == *old(context),
    {
        self.atomic_impl(buf, desc, Some(dest_addr), mem_addr, mapped_key, Some(context.inner_mut()), AtomicOp::Prod)
    }

    fn atomic_bor_to_triggered<T: AsFiType, RT: AsFiType>(&self, buf: &[T], desc: Option<MemoryRegionDesc>, dest_addr: &MappedAddress, mem_addr: RemoteMemoryAddress<RT>, mapped_key: &MappedMemoryRegionKey, context: &mut TriggeredContext) -> (r: AtomicCall)
        ensures
            r == (AtomicCall::Atomic { ep: self.ep_fid(), count: buf@.len() as usize, desc: owned_desc_value(desc), dest_addr: dest_addr@, addr: mem_addr@, key: mapped_key@, datatype: T::fi_datatype().raw_value(), op: AtomicOp::Bor.raw_value(), context: old(context)@ }),
            *final(context) == *old(context),
    {
        self.atomic_impl(buf, desc, Some(dest_addr), mem_addr, mapped_key, Some(context.inner_mut()), AtomicOp::Bor)
    }

    fn atomic_band_to_triggered<T: AsFiType, RT: AsFiType>(&self, buf: &[T], desc: Option<MemoryRegionDesc>, dest_addr: &MappedAddress, mem_addr: RemoteMemoryAddress<RT>, mapped_key: &MappedMemoryRegionKey, context: &mut TriggeredContext) -> (r: AtomicCall)
        ensures
            r == (AtomicCall::Atomic { ep: self.ep_fid(), count: buf@.len() as usize, desc: owned_desc_value(desc), dest_addr: dest_addr@, addr: mem_addr@, key: mapped_key@, datatype: T::fi_datatype().raw_value(), op: AtomicOp::Band.raw_value(), context: old(context)@ }),
            *final(context) == *old(context),
    {
        self.atomic_impl(buf, desc, Some(dest_addr), mem_addr, mapped_key, Some(context.inner_mut()), AtomicOp::Band)
    }

    fn atomic_bxor_to_triggered<T: AsFiType, RT: AsFiType>(&self, buf: &[T], desc: Option<MemoryRegionDesc>, dest_addr: &MappedAddress, mem_addr: RemoteMemoryAddress<RT>, mapped_key: &MappedMemoryRegionKey, context: &mut TriggeredContext) -> (r: AtomicCall)
        ensures
            r == (AtomicCall::Atomic { ep: self.ep_fid(), count: buf@.len() as usize, desc: owned_desc_value(desc), dest_addr: dest_addr@, addr: mem_addr@, key: mapped_key@, datatype: T::fi_datatype().raw_value(), op: AtomicOp::Bxor.raw_value(), context: old(context)@ }),
            *final(context) == *old(context),
    {
        self.atomic_impl(buf, desc, Some(dest_addr), mem_addr, mapped_key, Some(context.inner_mut()), AtomicOp::Bxor)
    }

    fn atomic_lor_to_triggered(&self, buf: &[bool], desc: Option<MemoryRegionDesc>, dest_addr: &MappedAddress, mem_addr: RemoteMemoryAddress<bool>, mapped_key: &MappedMemoryRegionKey, context: &mut TriggeredContext) -> (r: AtomicCall)
        ensures
            r == (AtomicCall::Atomic { ep: self.ep_fid(), count: buf@.len() as usize, desc: owned_desc_value(desc), dest_addr: dest_addr@, addr: mem_addr@, key: mapped_key@, datatype: <bool as AsFiType>::fi_datatype().raw_value(), op: AtomicOp::Lor.raw_value(), context: old(context)@ }),
            *final(context) == *old(context),
    {
        self.atomic_impl(buf, desc, Some(dest_addr), mem_addr, mapped_key, Some(context.inner_mut()), AtomicOp::Lor)
    }

    fn atomic_land_to_triggered(&self, buf: &[bool], desc: Option<MemoryRegionDesc>, dest_addr: &MappedAddress, mem_addr: RemoteMemoryAddress<bool>, mapped_key: &MappedMemoryRegionKey, context: &mut TriggeredContext) -> (r: AtomicCall)
        ensures
            r == (AtomicCall::Atomic { ep: self.ep_fid(), count: buf@.len() as usize, desc: owned_desc_value(desc), dest_addr: dest_addr@, addr: mem_addr@, key: mapped_key@, datatype: <bool as AsFiType>::fi_datatype().raw_value(), op: AtomicOp::Land.raw_value(), context: old(context)@ }),
            *final(context) == *old(context),
    {
        self.atomic_impl(buf, desc, Some(dest_addr), mem_addr, mapped_key, Some(context.inner_mut()), AtomicOp::Land)
    }

    fn atomic_lxor_to_triggered(&self, buf: &[bool], desc: Option<MemoryRegionDesc>, dest_addr: &MappedAddress, mem_addr: RemoteMemoryAddress<bool>, mapped_key: &MappedMemoryRegionKey, context: &mut TriggeredContext) -> (r: AtomicCall)
        ensures
            r == (AtomicCall::Atomic { ep: self.ep_fid(), count: buf@.len() as usize, desc: owned_desc_value(desc), dest_addr: dest_addr@, addr: mem_addr@, key: mapped_key@, datatype: <bool as AsFiType>::fi_datatype().raw_value(), op: AtomicOp::Lxor.raw_value(), context: old(context)@ }),
            *final(context) == *old(context),
    {
        self.atomic_impl(buf, desc, Some(dest_addr), mem_addr, mapped_key, Some(context.inner_mut()), AtomicOp::Lxor)
    }

    fn atomicv_min_to<T: AsFiType, RT: AsFiType>(&self, ioc: &[Ioc<T>], desc: Option<&[MemoryRegionDesc]>, dest_addr: &MappedAddress, mem_addr: RemoteMemoryAddress<RT>, mapped_key: &MappedMemoryRegionKey) -> (r: AtomicCall)
        ensures
            r == (AtomicCall::Atomicv { ep: self.ep_fid(), count: ioc@.len() as usize, descs: desc is Some, dest_addr: dest_addr@, addr: mem_addr@, key: mapped_key@, datatype: T::fi_datatype().raw_value(), op: AtomicOp::Min.raw_value(), context: 0 }),
    {
        self.atomicv_impl(ioc, desc, Some(dest_addr), mem_addr, mapped_key, None, AtomicOp::Min)
    }

    fn atomicv_max_to<T: AsFiType, RT: AsFiType>(&self, ioc: &[Ioc<T>], desc: Option<&[MemoryRegionDesc]>, dest_addr: &MappedAddress, mem_addr: RemoteMemoryAddress<RT>, mapped_key: &MappedMemoryRegionKey) -> (r: AtomicCall)
        ensures
            r == (AtomicCall::Atomicv { ep: self.ep_fid(), count: ioc@.len() as usize, descs: desc is Some, dest_addr: dest_addr@, addr: mem_addr@, key: mapped_key@, datatype: T::fi_datatype().raw_value(), op: AtomicOp::Max.raw_value(), context: 0 }),
    {
        self.atomicv_impl(ioc, desc, Some(dest_addr), mem_addr, mapped_key, None, AtomicOp::Max)
    }

    fn atomicv_sum_to<T: AsFiType, RT: AsFiType>(&self, ioc: &[Ioc<T>], desc: Option<&[MemoryRegionDesc]>, dest_addr: &MappedAddress, mem_addr: RemoteMemoryAddress<RT>, mapped_key: &MappedMemoryRegionKey) -> (r: AtomicCall)
        ensures
            r == (AtomicCall::Atomicv { ep: self.ep_fid(), count: ioc@.len() as usize, descs: desc is Some, dest_addr: dest_addr@, addr: mem_addr@, key: mapped_key@, datatype: T::fi_datatype().raw_value(), op: AtomicOp::Sum.raw_value(), context: 0 }),
    {
        self.atomicv_impl(ioc, desc, Some(dest_addr), mem_addr, mapped_key, None, AtomicOp::Sum)
    }

    fn atomicv_prod_to<T: AsFiType, RT: AsFiType>(&self, ioc: &[Ioc<T>], desc: Option<&[MemoryRegionDesc]>, dest_addr: &MappedAddress, mem_addr: RemoteMemoryAddress<RT>, mapped_key: &MappedMemoryRegionKey) -> (r: AtomicCall)
        ensures
            r == (AtomicCall::Atomicv { ep: self.ep_fid(), count: ioc@.len() as usize, descs: desc is Some, dest_addr: dest_addr@, addr: mem_addr@, key: mapped_key@, datatype: T::fi_datatype().raw_value(), op: AtomicOp::Prod.raw_value(), context: 0 }),
    {
        self.atomicv_impl(ioc, desc, Some(dest_addr), mem_addr, mapped_key, None, AtomicOp::Prod)
    }

    fn atomicv_bor_to<T: AsFiType, RT: AsFiType>(&self, ioc: &[Ioc<T>], desc: Option<&[MemoryRegionDesc]>, dest_addr: &MappedAddress, mem_addr: RemoteMemoryAddress<RT>, mapped_key: &MappedMemoryRegionKey) -> (r: AtomicCall)
        ensures
            r == (AtomicCall::Atomicv { ep: self.ep_fid(), count: ioc@.len() as usize, descs: desc is Some, dest_addr: dest_addr@, addr: mem_addr@, key: mapped_key@, datatype: T::fi_datatype().raw_value(), op: AtomicOp::Bor.raw_value(), context: 0 }),
    {
        self.atomicv_impl(ioc, desc, Some(dest_addr), mem_addr, mapped_key, None, AtomicOp::Bor)
    }

    fn atomicv_band_to<T: AsFiType, RT: AsFiType>(&self, ioc: &[Ioc<T>], desc: Option<&[MemoryRegionDesc]>, dest_addr: &MappedAddress, mem_addr: RemoteMemoryAddress<RT>, mapped_key: &MappedMemoryRegionKey) -> (r: AtomicCall)
        ensures
            r == (AtomicCall::Atomicv { ep: self.ep_fid(), count: ioc@.len() as usize, descs: desc is Some, dest_addr: dest_addr@, addr: mem_addr@, key: mapped_key@, datatype: T::fi_datatype().raw_value(), op: AtomicOp::Band.raw_value(), context: 0 }),
    {
        self.atomicv_impl(ioc, desc, Some(dest_addr), mem_addr, mapped_key, None, AtomicOp::Band)
    }

    fn atomicv_bxor_to<T: AsFiType, RT: AsFiType>(&self, ioc: &[Ioc<T>], desc: Option<&[MemoryRegionDesc]>, dest_addr: &MappedAddress, mem_addr: RemoteMemoryAddress<RT>, mapped_key: &MappedMemoryRegionKey) -> (r: AtomicCall)
        ensures
            r == (AtomicCall::Atomicv { ep: self.ep_fid(), count: ioc@.len() as usize, descs: desc is Some, dest_addr: dest_addr@, addr: mem_addr@, key: mapped_key@, datatype: T::fi_datatype().raw_value(), op: AtomicOp::Bxor.raw_value(), context: 0 }),
    {
        self.atomicv_impl(ioc, desc, Some(dest_addr), mem_addr, mapped_key, None, AtomicOp::Bxor)
    }

    fn atomicv_lor_to(&self, ioc: &[Ioc<bool>], desc: Option<&[MemoryRegionDesc]>, dest_addr: &MappedAddress, mem_addr: RemoteMemoryAddress<bool>, mapped_key: &MappedMemoryRegionKey) -> (r: AtomicCall)
        ensures
            r == (AtomicCall::Atomicv { ep: self.ep_fid(), count: ioc@.len() as usize, descs: desc is Some, dest_addr: dest_addr@, addr: mem_addr@, key: mapped_key@, datatype: <bool as AsFiType>::fi_datatype().raw_value(), op: AtomicOp::Lor.raw_value(), context: 0 }),
    {
        self.atomicv_impl(ioc, desc, Some(dest_addr), mem_addr, mapped_key, None, AtomicOp::Lor)
    }

    fn atomicv_land_to(&self, ioc: &[Ioc<bool>], desc: Option<&[MemoryRegionDesc]>, dest_addr: &MappedAddress, mem_addr: RemoteMemoryAddress<bool>, mapped_key: &MappedMemoryRegionKey) -> (r: AtomicCall)
        ensures
            r == (AtomicCall::Atomicv { ep: self.ep_fid(), count: ioc@.len() as usize, descs: desc is Some, dest_addr: dest_addr@, addr: mem_addr@, key: mapped_key@, datatype: <bool as AsFiType>::fi_datatype().raw_value(), op: AtomicOp::Land.raw_value(), context: 0 }),
    {
        self.atomicv_impl(ioc, desc, Some(dest_addr), mem_addr, mapped_key, None, AtomicOp::Land)
    }

    fn atomicv_lxor_to(&self, ioc: &[Ioc<bool>], desc: Option<&[MemoryRegionDesc]>, dest_addr: &MappedAddress, mem_addr: RemoteMemoryAddress<bool>, mapped_key: &MappedMemoryRegionKey) -> (r: AtomicCall)
        ensures
            r == (AtomicCall::Atomicv { ep: self.ep_fid(), count: ioc@.len() as usize, descs: desc is Some, dest_addr: dest_addr@, addr: mem_addr@, key: mapped_key@, datatype: <bool as AsFiType>::fi_datatype().raw_value(), op: AtomicOp::Lxor.raw_value(), context: 0 }),
    {
        self.atomicv_impl(ioc, desc, Some(dest_addr), mem_addr, mapped_key, None, AtomicOp::Lxor)
    }

    fn atomicv_min_to_with_context<T: AsFiType, RT: AsFiType>(&self, ioc: &[Ioc<T>], desc: Option<&[MemoryRegionDesc]>, dest_addr: &MappedAddress, mem_addr: RemoteMemoryAddress<RT>, mapped_key: &MappedMemoryRegionKey, ctx: &mut Context) -> (r: AtomicCall)
        ensures
            r == (AtomicCall::Atomicv { ep: self.ep_fid(), count: ioc@.len() as usize, descs: desc is Some, dest_addr: dest_addr@, addr: mem_addr@, key: mapped_key@, datatype: T::fi_datatype().raw_value(), op: AtomicOp::Min.raw_value(), context: old(ctx)@ }),
            *final(ctx) == *old(ctx),
    {
        self.atomicv_impl(ioc, desc, Some(dest_addr), mem_addr, mapped_key, Some(ctx.inner_mut()), AtomicOp::Min)
    }

    fn atomicv_max_to_with_context<T: AsFiType, RT: AsFiType>(&self, ioc: &[Ioc<T>], desc: Option<&[MemoryRegionDesc]>, dest_addr: &MappedAddress, mem_addr: RemoteMemoryAddress<RT>, mapped_key: &MappedMemoryRegionKey, ctx: &mut Context) -> (r: AtomicCall)
        ensures
            r == (AtomicCall::Atomicv { ep: self.ep_fid(), count: ioc@.len() as usize, descs: desc is Some, dest_addr: dest_addr@, addr: mem_addr@, key: mapped_key@, datatype: T::fi_datatype().raw_value(), op: AtomicOp::Max.raw_value(), context: old(ctx)@ }),
            *final(ctx) == *old(ctx),
    {
        self.atomicv_impl(ioc, desc, Some(dest_addr), mem_addr, mapped_key, Some(ctx.inner_mut()), AtomicOp::Max)
    }

    fn atomicv_sum_to_with_context<T: AsFiType, RT: AsFiType>(&self, ioc: &[Ioc<T>], desc: Option<&[MemoryRegionDesc]>, dest_addr: &MappedAddress, mem_addr: RemoteMemoryAddress<RT>, mapped_key: &MappedMemoryRegionKey, ctx: &mut Context) -> (r: AtomicCall)
        ensures
            r == (AtomicCall::Atomicv { ep: self.ep_fid(), count: ioc@.len() as usize, descs: desc is Some, dest_addr: dest_addr@, addr: mem_addr@, key: mapped_key@, datatype: T::fi_datatype().raw_value(), op: AtomicOp::Sum.raw_value(), context: old(ctx)@ }),
            *final(ctx) == *old(ctx),
    {
        self.atomicv_impl(ioc, desc, Some(dest_addr), mem_addr, mapped_key, Some(ctx.inner_mut()), AtomicOp::Sum)
    }

    fn atomicv_prod_to_with_context<T: AsFiType, RT: AsFiType>(&self, ioc: &[Ioc<T>], desc: Option<&[MemoryRegionDesc]>, dest_addr: &MappedAddress, mem_addr: RemoteMemoryAddress<RT>, mapped_key: &MappedMemoryRegionKey, ctx: &mut Context) -> (r: AtomicCall)
        ensures
            r == (AtomicCall::Atomicv { ep: self.ep_fid(), count: ioc@.len() as usize, descs: desc is Some, dest_addr: dest_addr@, addr: mem_addr@, key: mapped_key@, datatype: T::fi_datatype().raw_value(), op: AtomicOp::Prod.raw_value(), context: old(ctx)@ }),
            *final(ctx) == *old(ctx),
    {
        self.atomicv_impl(ioc, desc, Some(dest_addr), mem_addr, mapped_key, Some(ctx.inner_mut()), AtomicOp::Prod)
    }

    fn atomicv_bor_to_with_context<T: AsFiType, RT: AsFiType>(&self, ioc: &[Ioc<T>], desc: Option<&[MemoryRegionDesc]>, dest_addr: &MappedAddress, mem_addr: RemoteMemoryAddress<RT>, mapped_key: &MappedMemoryRegionKey, ctx: &mut Context) -> (r: AtomicCall)
        ensures
            r == (AtomicCall::Atomicv { ep: self.ep_fid(), count: ioc@.len() as usize, descs: desc is Some, dest_addr: dest_addr@, addr: mem_addr@, key: mapped_key@, datatype: T::fi_datatype().raw_value(), op: AtomicOp::Bor.raw_value(), context: old(ctx)@ }),
            *final(ctx) == *old(ctx),
    {
        self.atomicv_impl(ioc, desc, Some(dest_addr), mem_addr, mapped_key, Some(ctx.inner_mut()), AtomicOp::Bor)
    }

    fn atomicv_band_to_with_context<T: AsFiType, RT: AsFiType>(&self, ioc: &[Ioc<T>], desc: Option<&[MemoryRegionDesc]>, dest_addr: &MappedAddress, mem_addr: RemoteMemoryAddress<RT>, mapped_key: &MappedMemoryRegionKey, ctx: &mut Context) -> (r: AtomicCall)
        ensures
            r == (AtomicCall::Atomicv { ep: self.ep_fid(), count: ioc@.len() as usize, descs: desc is Some, dest_addr: dest_addr@, addr: mem_addr@, key: mapped_key@, datatype: T::fi_datatype().raw_value(), op: AtomicOp::Band.raw_value(), context: old(ctx)@ }),
            *final(ctx) == *old(ctx),
    {
        self.atomicv_impl(ioc, desc, Some(dest_addr), mem_addr, mapped_key, Some(ctx.inner_mut()), AtomicOp::Band)
    }

    fn atomicv_bxor_to_with_context<T: AsFiType, RT: AsFiType>(&self, ioc: &[Ioc<T>], desc: Option<&[MemoryRegionDesc]>, dest_addr: &MappedAddress, mem_addr: RemoteMemoryAddress<RT>, mapped_key: &MappedMemoryRegionKey, ctx: &mut Context) -> (r: AtomicCall)
        ensures
            r == (AtomicCall::Atomicv { ep: self.ep_fid(), count: ioc@.len() as usize, descs: desc is Some, dest_addr: dest_addr@, addr: mem_addr@, key: mapped_key@, datatype: T::fi_datatype().raw_value(), op: AtomicOp::Bxor.raw_value(), context: old(ctx)@ }),
            *final(ctx) == *old(ctx),
    {
        self.atomicv_impl(ioc, desc, Some(dest_addr), mem_addr, mapped_key, Some(ctx.inner_mut()), AtomicOp::Bxor)
    }

    fn atomicv_lor_to_with_context(&self, ioc: &[Ioc<bool>], desc: Option<&[MemoryRegionDesc]>, dest_addr: &MappedAddress, mem_addr: RemoteMemoryAddress<bool>, mapped_key: &MappedMemoryRegionKey, ctx: &mut Context) -> (r: AtomicCall)
        ensures
            r == (AtomicCall::Atomicv { ep: self.ep_fid(), count: ioc@.len() as usize, descs: desc is Some, dest_addr: dest_addr@, addr: mem_addr@, key: mapped_key@, datatype: <bool as AsFiType>::fi_datatype().raw_value(), op: AtomicOp::Lor.raw_value(), context: old(ctx)@ }),
            *final(ctx) == *old(ctx),
    {
        self.atomicv_impl(ioc, desc, Some(dest_addr), mem_addr, mapped_key, Some(ctx.inner_mut()), AtomicOp::Lor)
    }

    fn atomicv_land_to_with_context(&self, ioc: &[Ioc<bool>], desc: Option<&[MemoryRegionDesc]>, dest_addr: &MappedAddress, mem_addr: RemoteMemoryAddress<bool>, mapped_key: &MappedMemoryRegionKey, ctx: &mut Context) -> (r: AtomicCall)
        ensures
            r == (AtomicCall::Atomicv { ep: self.ep_fid(), count: ioc@.len() as usize, descs: desc is Some, dest_addr: dest_addr@, addr: mem_addr@, key: mapped_key@, datatype: <bool as AsFiType>::fi_datatype().raw_value(), op: AtomicOp::Land.raw_value(), context: old(ctx)@ }),
            *final(ctx) == *old(ctx),
    {
        self.atomicv_impl(ioc, desc, Some(dest_addr), mem_addr, mapped_key, Some(ctx.inner_mut()), AtomicOp::Land)
    }

    fn atomicv_lxor_to_with_context(&self, ioc: &[Ioc<bool>], desc: Option<&[MemoryRegionDesc]>, dest_addr: &MappedAddress, mem_addr: RemoteMemoryAddress<bool>, mapped_key: &MappedMemoryRegionKey, ctx: &mut Context) -> (r: AtomicCall)
        ensures
            r == (AtomicCall::Atomicv { ep: self.ep_fid(), count: ioc@.len() as usize, descs: desc is Some, dest_addr: dest_addr@, addr: mem_addr@, key: mapped_key@, datatype: <bool as AsFiType>::fi_datatype().raw_value(), op: AtomicOp::Lxor.raw_value(), context: old(ctx)@ }),
            *final(ctx) == *old(ctx),
    {
        self.atomicv_impl(ioc, desc, Some(dest_addr), mem_addr, mapped_key, Some(ctx.inner_mut()), AtomicOp::Lxor)
    }

    fn atomicv_min_to_triggered<T: AsFiType, RT: AsFiType>(&self, ioc: &[Ioc<T>], desc: Option<&[MemoryRegionDesc]>, dest_addr: &MappedAddress, mem_addr: RemoteMemoryAddress<RT>, mapped_key: &MappedMemoryRegionKey, ctx: &mut TriggeredContext) -> (r: AtomicCall)
        ensures
            r == (AtomicCall::Atomicv { ep: self.ep_fid(), count: ioc@.len() as usize, descs: desc is Some, dest_addr: dest_addr@, addr: mem_addr@, key: mapped_key@, datatype: T::fi_datatype().raw_value(), op: AtomicOp::Min.raw_value(), context: old(ctx)@ }),
            *final(ctx) == *old(ctx),
    {
        self.atomicv_impl(ioc, desc, Some(dest_addr), mem_addr, mapped_key, Some(ctx.inner_mut()), AtomicOp::Min)
    }

    fn atomicv_max_to_triggered<T: AsFiType, RT: AsFiType>(&self, ioc: &[Ioc<T>], desc: Option<&[MemoryRegionDesc]>, dest_addr: &MappedAddress, mem_addr: RemoteMemoryAddress<RT>, mapped_key: &MappedMemoryRegionKey, ctx: &mut TriggeredContext) -> (r: AtomicCall)
        ensures
            r == (AtomicCall::Atomicv { ep: self.ep_fid(), count: ioc@.len() as usize, descs: desc is Some, dest_addr: dest_addr@, addr: mem_addr@, key: mapped_key@, datatype: T::fi_datatype().raw_value(), op: AtomicOp::Max.raw_value(), context: old(ctx)@ }),
            *final(ctx) == *old(ctx),
    {
        self.atomicv_impl(ioc, desc, Some(dest_addr), mem_addr, mapped_key, Some(ctx.inner_mut()), AtomicOp::Max)
    }

    fn atomicv_sum_to_triggered<T: AsFiType, RT: AsFiType>(&self, ioc: &[Ioc<T>], desc: Option<&[MemoryRegionDesc]>, dest_addr: &MappedAddress, mem_addr: RemoteMemoryAddress<RT>, mapped_key: &MappedMemoryRegionKey, ctx: &mut TriggeredContext) -> (r: AtomicCall)
        ensures
            r == (AtomicCall::Atomicv { ep: self.ep_fid(), count: ioc@.len() as usize, descs: desc is Some, dest_addr: dest_addr@, addr: mem_addr@, key: mapped_key@, datatype: T::fi_datatype().raw_value(), op: AtomicOp::Sum.raw_value(), context: old(ctx)@ }),
            *final(ctx) == *old(ctx),
    {
        self.atomicv_impl(ioc, desc, Some(dest_addr), mem_addr, mapped_key, Some(ctx.inner_mut()), AtomicOp::Sum)
    }

    fn atomicv_prod_to_triggered<T: AsFiType, RT: AsFiType>(&self, ioc: &[Ioc<T>], desc: Option<&[MemoryRegionDesc]>, dest_addr: &MappedAddress, mem_addr: RemoteMemoryAddress<RT>, mapped_key: &MappedMemoryRegionKey, ctx: &mut TriggeredContext) -> (r: AtomicCall)
        ensures
            r == (AtomicCall::Atomicv { ep: self.ep_fid(), count: ioc@.len() as usize, descs: desc is Some, dest_addr: dest_addr@, addr: mem_addr@, key: mapped_key@, datatype: T::fi_datatype().raw_value(), op: AtomicOp::Prod.raw_value(), context: old(ctx)@ }),
            *final(ctx) == *old(ctx),
    {
        self.atomicv_impl(ioc, desc, Some(dest_addr), mem_addr, mapped_key, Some(ctx.inner_mut()), AtomicOp::Prod)
    }

    fn atomicv_bor_to_triggered<T: AsFiType, RT: AsFiType>(&self, ioc: &[Ioc<T>], desc: Option<&[MemoryRegionDesc]>, dest_addr: &MappedAddress, mem_addr: RemoteMemoryAddress<RT>, mapped_key: &MappedMemoryRegionKey, ctx: &mut TriggeredContext) -> (r: AtomicCall)
        ensures
            r == (AtomicCall::Atomicv { ep: self.ep_fid(), count: ioc@.len() as usize, descs: desc is Some, dest_addr: dest_addr@, addr: mem_addr@, key: mapped_key@, datatype: T::fi_datatype().raw_value(), op: AtomicOp::Bor.raw_value(), context: old(ctx)@ }),
            *final(ctx) == *old(ctx),
    {
        self.atomicv_impl(ioc, desc, Some(dest_addr), mem_addr, mapped_key, Some(ctx.inner_mut()), AtomicOp::Bor)
    }

    fn atomicv_band_to_triggered<T: AsFiType, RT: AsFiType>(&self, ioc: &[Ioc<T>], desc: Option<&[MemoryRegionDesc]>, dest_addr: &MappedAddress, mem_addr: RemoteMemoryAddress<RT>, mapped_key: &MappedMemoryRegionKey, ctx: &mut TriggeredContext) -> (r: AtomicCall)
        ensures
            r == (AtomicCall::Atomicv { ep: self.ep_fid(), count: ioc@.len() as usize, descs: desc is Some, dest_addr: dest_addr@, addr: mem_addr@, key: mapped_key@, datatype: T::fi_datatype().raw_value(), op: AtomicOp::Band.raw_value(), context: old(ctx)@ }),
            *final(ctx) == *old(ctx),
    {
        self.atomicv_impl(ioc, desc, Some(dest_addr), mem_addr, mapped_key, Some(ctx.inner_mut()), AtomicOp::Band)
    }

    fn atomicv_bxor_to_triggered<T: AsFiType, RT: AsFiType>(&self, ioc: &[Ioc<T>], desc: Option<&[MemoryRegionDesc]>, dest_addr: &MappedAddress, mem_addr: RemoteMemoryAddress<RT>, mapped_key: &MappedMemoryRegionKey, ctx: &mut TriggeredContext) -> (r: AtomicCall)
        ensures
            r == (AtomicCall::Atomicv { ep: self.ep_fid(), count: ioc@.len() as usize, descs: desc is Some, dest_addr: dest_addr@, addr: mem_addr@, key: mapped_key@, datatype: T::fi_datatype().raw_value(), op: AtomicOp::Bxor.raw_value(), context: old(ctx)@ }),
            *final(ctx) == *old(ctx),
    {
        self.atomicv_impl(ioc, desc, Some(dest_addr), mem_addr, mapped_key, Some(ctx.inner_mut()), AtomicOp::Bxor)
    }

    fn atomicv_lor_to_triggered(&self, ioc: &[Ioc<bool>], desc: Option<&[MemoryRegionDesc]>, dest_addr: &MappedAddress, mem_addr: RemoteMemoryAddress<bool>, mapped_key: &MappedMemoryRegionKey, ctx: &mut TriggeredContext) -> (r: AtomicCall)
        ensures
            r == (AtomicCall::Atomicv { ep: self.ep_fid(), count: ioc@.len() as usize, descs: desc is Some, dest_addr: dest_addr@, addr: mem_addr@, key: mapped_key@, datatype: <bool as AsFiType>::fi_datatype().raw_value(), op: AtomicOp::Lor.raw_value(), context: old(ctx)@ }),
            *final(ctx) == *old(ctx),
    {
        self.atomicv_impl(ioc, desc, Some(dest_addr), mem_addr, mapped_key, Some(ctx.inner_mut()), AtomicOp::Lor)
    }

    fn atomicv_land_to_triggered(&self, ioc: &[Ioc<bool>], desc: Option<&[MemoryRegionDesc]>, dest_addr: &MappedAddress, mem_addr: RemoteMemoryAddress<bool>, mapped_key: &MappedMemoryRegionKey, ctx: &mut TriggeredContext) -> (r: AtomicCall)
        ensures
            r == (AtomicCall::Atomicv { ep: self.ep_fid(), count: ioc@.len() as usize, descs: desc is Some, dest_addr: dest_addr@, addr: mem_addr@, key: mapped_key@, datatype: <bool as AsFiType>::fi_datatype().raw_value(), op: AtomicOp::Land.raw_value(), context: old(ctx)@ }),
            *final(ctx) == *old(ctx),
    {
        self.atomicv_impl(ioc, desc, Some(dest_addr), mem_addr, mapped_key, Some(ctx.inner_mut()), AtomicOp::Land)
    }

    fn atomicv_lxor_to_triggered(&self, ioc: &[Ioc<bool>], desc: Option<&[MemoryRegionDesc]>, dest_addr: &MappedAddress, mem_addr: RemoteMemoryAddress<bool>, mapped_key: &MappedMemoryRegionKey, ctx: &mut TriggeredContext) -> (r: AtomicCall)
        ensures
            r == (AtomicCall::Atomicv { ep: self.ep_fid(), count: ioc@.len() as usize, descs: desc is Some, dest_addr: dest_addr@, addr: mem_addr@, key: mapped_key@, datatype: <bool as AsFiType>::fi_datatype().raw_value(), op: AtomicOp::Lxor.raw_value(), context: old(ctx)@ }),
            *final(ctx) == *old(ctx),
    {
        self.atomicv_impl(ioc, desc, Some(dest_addr), mem_addr, mapped_key, Some(ctx.inner_mut()), AtomicOp::Lxor)
    }

    fn atomicmsg_to(&self, msg: &MsgRef, options: AtomicMsgOptions) -> (r: AtomicCall)
        ensures
            r == (AtomicCall::Atomicmsg { ep: self.ep_fid(), msg: msg@, flags: options@ }),
    {
        self.atomicmsg_impl(msg, options)
    }

    fn atomic_inject_min_to<T: AsFiType, RT: AsFiType>(&self, buf: &[T], dest_addr: &MappedAddress, mem_addr: RemoteMemoryAddress<RT>, mapped_key: &MappedMemoryRegionKey) -> (r: AtomicCall)
        ensures
            r == (AtomicCall::InjectAtomic { ep: self.ep_fid(), count: buf@.len() as usize, dest_addr: dest_addr@, addr: mem_addr@, key: mapped_key@, datatype: T::fi_datatype().raw_value(), op: AtomicOp::Min.raw_value() }),
    {
        self.inject_atomic_impl(buf, Some(dest_addr), mem_addr, mapped_key, AtomicOp::Min)
    }

    fn atomic_inject_max_to<T: AsFiType, RT: AsFiType>(&self, buf: &[T], dest_addr: &MappedAddress, mem_addr: RemoteMemoryAddress<RT>, mapped_key: &MappedMemoryRegionKey) -> (r: AtomicCall)
        ensures
            r == (AtomicCall::InjectAtomic { ep: self.ep_fid(), count: buf@.len() as usize, dest_addr: dest_addr@, addr: mem_addr@, key: mapped_key@, datatype: T::fi_datatype().raw_value(), op: AtomicOp::Max.raw_value() }),
    {
        self.inject_atomic_impl(buf, Some(dest_addr), mem_addr, mapped_key, AtomicOp::Max)
    }

    fn atomic_inject_sum_to<T: AsFiType, RT: AsFiType>(&self, buf: &[T], dest_addr: &MappedAddress, mem_addr: RemoteMemoryAddress<RT>, mapped_key: &MappedMemoryRegionKey) -> (r: AtomicCall)
        ensures
            r == (AtomicCall::InjectAtomic { ep: self.ep_fid(), count: buf@.len() as usize, dest_addr: dest_addr@, addr: mem_addr@, key: mapped_key@, datatype: T::fi_datatype().raw_value(), op: AtomicOp::Sum.raw_value() }),
    {
        self.inject_atomic_impl(buf, Some(dest_addr), mem_addr, mapped_key, AtomicOp::Sum)
    }

    fn atomic_inject_prod_to<T: AsFiType, RT: AsFiType>(&self, buf: &[T], dest_addr: &MappedAddress, mem_addr: RemoteMemoryAddress<RT>, mapped_key: &MappedMemoryRegionKey) -> (r: AtomicCall)
        ensures
            r == (AtomicCall::InjectAtomic { ep: self.ep_fid(), count: buf@.len() as usize, dest_addr: dest_addr@, addr: mem_addr@, key: mapped_key@, datatype: T::fi_datatype().raw_value(), op: AtomicOp::Prod.raw_value() }),
    {
        self.inject_atomic_impl(buf, Some(dest_addr), mem_addr, mapped_key, AtomicOp::Prod)
    }

    fn atomic_inject_bor_to<T: AsFiType, RT: AsFiType>(&self, buf: &[T], dest_addr: &MappedAddress, mem_addr: RemoteMemoryAddress<RT>, mapped_key: &MappedMemoryRegionKey) -> (r: AtomicCall)
        ensures
            r == (AtomicCall::InjectAtomic { ep: self.ep_fid(), count: buf@.len() as usize, dest_addr: dest_addr@, addr: mem_addr@, key: mapped_key@, datatype: T::fi_datatype().raw_value(), op: AtomicOp::Bor.raw_value() }),
    {
        self.inject_atomic_impl(buf, Some(dest_addr), mem_addr, mapped_key, AtomicOp::Bor)
    }

    fn atomic_inject_band_to<T: AsFiType, RT: AsFiType>(&self, buf: &[T], dest_addr: &MappedAddress, mem_addr: RemoteMemoryAddress<RT>, mapped_key: &MappedMemoryRegionKey) -> (r: AtomicCall)
        ensures
            r == (AtomicCall::InjectAtomic { ep: self.ep_fid(), count: buf@.len() as usize, dest_addr: dest_addr@, addr: mem_addr@, key: mapped_key@, datatype: T::fi_datatype().raw_value(), op: AtomicOp::Band.raw_value() }),
    {
        self.inject_atomic_impl(buf, Some(dest_addr), mem_addr, mapped_key, AtomicOp::Band)
    }

    fn atomic_inject_bxor_to<T: AsFiType, RT: AsFiType>(&self, buf: &[T], dest_addr: &MappedAddress, mem_addr: RemoteMemoryAddress<RT>, mapped_key: &MappedMemoryRegionKey) -> (r: AtomicCall)
        ensures
            r == (AtomicCall::InjectAtomic { ep: self.ep_fid(), count: buf@.len() as usize, dest_addr: dest_addr@, addr: mem_addr@, key: mapped_key@, datatype: T::fi_datatype().raw_value(), op: AtomicOp::Bxor.raw_value() }),
    {
        self.inject_atomic_impl(buf, Some(dest_addr), mem_addr, mapped_key, AtomicOp::Bxor)
    }

    fn atomic_inject_lor_to(&self, buf: &[bool], dest_addr: &MappedAddress, mem_addr: RemoteMemoryAddress<bool>, mapped_key: &MappedMemoryRegionKey) -> (r: AtomicCall)
        ensures
            r == (AtomicCall::InjectAtomic { ep: self.ep_fid(), count: buf@.len() as usize, dest_addr: dest_addr@, addr: mem_addr@, key: mapped_key@, datatype: <bool as AsFiType>::fi_datatype().raw_value(), op: AtomicOp::Lor.raw_value() }),
    {
        self.inject_atomic_impl(buf, Some(dest_addr), mem_addr, mapped_key, AtomicOp::Lor)
    }

    fn atomic_inject_land_to(&self, buf: &[bool], dest_addr: &MappedAddress, mem_addr: RemoteMemoryAddress<bool>, mapped_key: &MappedMemoryRegionKey) -> (r: AtomicCall)
        ensures
            r == (AtomicCall::InjectAtomic { ep: self.ep_fid(), count: buf@.len() as usize, dest_addr: dest_addr@, addr: mem_addr@, key: mapped_key@, datatype: <bool as AsFiType>::fi_datatype().raw_value(), op: AtomicOp::Land.raw_value() }),
    {
        self.inject_atomic_impl(buf, Some(dest_addr), mem_addr, mapped_key, AtomicOp::Land)
    }

    fn atomic_inject_lxor_to(&self, buf: &[bool], dest_addr: &MappedAddress, mem_addr: RemoteMemoryAddress<bool>, mapped_key: &MappedMemoryRegionKey) -> (r: AtomicCall)
        ensures
            r == (AtomicCall::InjectAtomic { ep: self.ep_fid(), count: buf@.len() as usize, dest_addr: dest_addr@, addr: mem_addr@, key: mapped_key@, datatype: <bool as AsFiType>::fi_datatype().raw_value(), op: AtomicOp::Lxor.raw_value() }),
    {
        self.inject_atomic_impl(buf, Some(dest_addr), mem_addr, mapped_key, AtomicOp::Lxor)
    }
}

impl AtomicWriteEp for ConnectionlessEndpoint {}

/// Atomic updates of the peer's memory from a connected endpoint.
pub trait ConnectedAtomicWriteEp: AtomicWriteEpImpl + ConnectedEp {
    fn atomic_min<T: AsFiType, RT: AsFiType>(&self, buf: &[T], desc: Option<MemoryRegionDesc>, mem_addr: RemoteMemoryAddress<RT>, mapped_key: &MappedMemoryRegionKey) -> (r: AtomicCall)
        ensures
            r == (AtomicCall::Atomic { ep: self.ep_fid(), count: buf@.len() as usize, desc: owned_desc_value(desc), dest_addr: FI_ADDR_UNSPEC, addr: mem_addr@, key: mapped_key@, datatype: T::fi_datatype().raw_value(), op: AtomicOp::Min.raw_value(), context: 0 }),
    {
        self.atomic_impl(buf, desc, None, mem_addr, mapped_key, None, AtomicOp::Min)
    }

    fn atomic_max<T: AsFiType, RT: AsFiType>(&self, buf: &[T], desc: Option<MemoryRegionDesc>, mem_addr: RemoteMemoryAddress<RT>, mapped_key: &MappedMemoryRegionKey) -> (r: AtomicCall)
        ensures
            r == (AtomicCall::Atomic { ep: self.ep_fid(), count: buf@.len() as usize, desc: owned_desc_value(desc), dest_addr: FI_ADDR_UNSPEC, addr: mem_addr@, key: mapped_key@, datatype: T::fi_datatype().raw_value(), op: AtomicOp::Max.raw_value(), context: 0 }),
    {
        self.atomic_impl(buf, desc, None, mem_addr, mapped_key, None, AtomicOp::Max)
    }

    fn atomic_sum<T: AsFiType, RT: AsFiType>(&self, buf: &[T], desc: Option<MemoryRegionDesc>, mem_addr: RemoteMemoryAddress<RT>, mapped_key: &MappedMemoryRegionKey) -> (r: AtomicCall)
        ensures
            r == (AtomicCall::Atomic { ep: self.ep_fid(), count: buf@.len() as usize, desc: owned_desc_value(desc), dest_addr: FI_ADDR_UNSPEC, addr: mem_addr@, key: mapped_key@, datatype: T::fi_datatype().raw_value(), op: AtomicOp::Sum.raw_value(), context: 0 }),
    {
        self.atomic_impl(buf, desc, None, mem_addr, mapped_key, None, AtomicOp::Sum)
    }

    fn atomic_prod<T: AsFiType, RT: AsFiType>(&self, buf: &[T], desc: Option<MemoryRegionDesc>, mem_addr: RemoteMemoryAddress<RT>, mapped_key: &MappedMemoryRegionKey) -> (r: AtomicCall)
        ensures
            r == (AtomicCall::Atomic { ep: self.ep_fid(), count: buf@.len() as usize, desc: owned_desc_value(desc), dest_addr: FI_ADDR_UNSPEC, addr: mem_addr@, key: mapped_key@, datatype: T::fi_datatype().raw_value(), op: AtomicOp::Prod.raw_value(), context: 0 }),
    {
        self.atomic_impl(buf, desc, None, mem_addr, mapped_key, None, AtomicOp::Prod)
    }

    fn atomic_bor<T: AsFiType, RT: AsFiType>(&self, buf: &[T], desc: Option<MemoryRegionDesc>, mem_addr: RemoteMemoryAddress<RT>, mapped_key: &MappedMemoryRegionKey) -> (r: AtomicCall)
        ensures
            r == (AtomicCall::Atomic { ep: self.ep_fid(), count: buf@.len() as usize, desc: owned_desc_value(desc), dest_addr: FI_ADDR_UNSPEC, addr: mem_addr@, key: mapped_key@, datatype: T::fi_datatype().raw_value(), op: AtomicOp::Bor.raw_value(), context: 0 }),
    {
        self.atomic_impl(buf, desc, None, mem_addr, mapped_key, None, AtomicOp::Bor)
    }

    fn atomic_band<T: AsFiType, RT: AsFiType>(&self, buf: &[T], desc: Option<MemoryRegionDesc>, mem_addr: RemoteMemoryAddress<RT>, mapped_key: &MappedMemoryRegionKey) -> (r: AtomicCall)
        ensures
            r == (AtomicCall::Atomic { ep: self.ep_fid(), count: buf@.len() as usize, desc: owned_desc_value(desc), dest_addr: FI_ADDR_UNSPEC, addr: mem_addr@, key: mapped_key@, datatype: T::fi_datatype().raw_value(), op: AtomicOp::Band.raw_value(), context: 0 }),
    {
        self.atomic_impl(buf, desc, None, mem_addr, mapped_key, None, AtomicOp::Band)
    }

    fn atomic_bxor<T: AsFiType, RT: AsFiType>(&self, buf: &[T], desc: Option<MemoryRegionDesc>, mem_addr: RemoteMemoryAddress<RT>, mapped_key: &MappedMemoryRegionKey) -> (r: AtomicCall)
        ensures
            r == (AtomicCall::Atomic { ep: self.ep_fid(), count: buf@.len() as usize, desc: owned_desc_value(desc), dest_addr: FI_ADDR_UNSPEC, addr: mem_addr@, key: mapped_key@, datatype: T::fi_datatype().raw_value(), op: AtomicOp::Bxor.raw_value(), context: 0 }),
    {
        self.atomic_impl(buf, desc, None, mem_addr, mapped_key, None, AtomicOp::Bxor)
    }

    fn atomic_lor(&self, buf: &[bool], desc: Option<MemoryRegionDesc>, mem_addr: RemoteMemoryAddress<bool>, mapped_key: &MappedMemoryRegionKey) -> (r: AtomicCall)
        ensures
            r == (AtomicCall::Atomic { ep: self.ep_fid(), count: buf@.len() as usize, desc: owned_desc_value(desc), dest_addr: FI_ADDR_UNSPEC, addr: mem_addr@, key: mapped_key@, datatype: <bool as AsFiType>::fi_datatype().raw_value(), op: AtomicOp::Lor.raw_value(), context: 0 }),
    {
        self.atomic_impl(buf, desc, None, mem_addr, mapped_key, None, AtomicOp::Lor)
    }

    fn atomic_land(&self, buf: &[bool], desc: Option<MemoryRegionDesc>, mem_addr: RemoteMemoryAddress<bool>, mapped_key: &MappedMemoryRegionKey) -> (r: AtomicCall)
        ensures
            r == (AtomicCall::Atomic { ep: self.ep_fid(), count: buf@.len() as usize, desc: owned_desc_value(desc), dest_addr: FI_ADDR_UNSPEC, addr: mem_addr@, key: mapped_key@, datatype: <bool as AsFiType>::fi_datatype().raw_value(), op: AtomicOp::Land.raw_value(), context: 0 }),
    {
        self.atomic_impl(buf, desc, None, mem_addr, mapped_key, None, AtomicOp::Land)
    }

    fn atomic_lxor(&self, buf: &[bool], desc: Option<MemoryRegionDesc>, mem_addr: RemoteMemoryAddress<bool>, mapped_key: &MappedMemoryRegionKey) -> (r: AtomicCall)
        ensures
            r == (AtomicCall::Atomic { ep: self.ep_fid(), count: buf@.len() as usize, desc: owned_desc_value(desc), dest_addr: FI_ADDR_UNSPEC, addr: mem_addr@, key: mapped_key@, datatype: <bool as AsFiType>::fi_datatype().raw_value(), op: AtomicOp::Lxor.raw_value(), context: 0 }),
    {
        self.atomic_impl(buf, desc, None, mem_addr, mapped_key, None, AtomicOp::Lxor)
    }

    fn atomic_min_with_context<T: AsFiType, RT: AsFiType>(&self, buf: &[T], desc: Option<MemoryRegionDesc>, mem_addr: RemoteMemoryAddress<RT>, mapped_key: &MappedMemoryRegionKey, context: &mut Context) -> (r: AtomicCall)
        ensures
            r == (AtomicCall::Atomic { ep: self.ep_fid(), count: buf@.len() as usize, desc: owned_desc_value(desc), dest_addr: FI_ADDR_UNSPEC, addr: mem_addr@, key: mapped_key@, datatype: T::fi_datatype().raw_value(), op: AtomicOp::Min.raw_value(), context: old(context)@ }),
            *final(context) == *old(context),
    {
        self.atomic_impl(buf, desc, None, mem_addr, mapped_key, Some(context.inner_mut()), AtomicOp::Min)
    }

    fn atomic_max_with_context<T: AsFiType, RT: AsFiType>(&self, buf: &[T], desc: Option<MemoryRegionDesc>, mem_addr: RemoteMemoryAddress<RT>, mapped_key: &MappedMemoryRegionKey, context: &mut Context) -> (r: AtomicCall)
        ensures
            r == (AtomicCall::Atomic { ep: self.ep_fid(), count: buf@.len() as usize, desc: owned_desc_value(desc), dest_addr: FI_ADDR_UNSPEC, addr: mem_addr@, key: mapped_key@, datatype: T::fi_datatype().raw_value(), op: AtomicOp::Max.raw_value(), context: old(context)@ }),
            *final(context) == *old(context),
    {
        self.atomic_impl(buf, desc, None, mem_addr, mapped_key, Some(context.inner_mut()), AtomicOp::Max)
    }

    fn atomic_sum_with_context<T: AsFiType, RT: AsFiType>(&self, buf: &[T], desc: Option<MemoryRegionDesc>, mem_addr: RemoteMemoryAddress<RT>, mapped_key: &MappedMemoryRegionKey, context: &mut Context) -> (r: AtomicCall)
        ensures
            r == (AtomicCall::Atomic { ep: self.ep_fid(), count: buf@.len() as usize, desc: owned_desc_value(desc), dest_addr: FI_ADDR_UNSPEC, addr: mem_addr@, key: mapped_key@, datatype: T::fi_datatype().raw_value(), op: AtomicOp::Sum.raw_value(), context: old(context)@ }),
            *final(context) == *old(context),
    {
        self.atomic_impl(buf, desc, None, mem_addr, mapped_key, Some(context.inner_mut()), AtomicOp::Sum)
    }

    fn atomic_prod_with_context<T: AsFiType, RT: AsFiType>(&self, buf: &[T], desc: Option<MemoryRegionDesc>, mem_addr: RemoteMemoryAddress<RT>, mapped_key: &MappedMemoryRegionKey, context: &mut Context) -> (r: AtomicCall)
        ensures
            r == (AtomicCall::Atomic { ep: self.ep_fid(), count: buf@.len() as usize, desc: owned_desc_value(desc), dest_addr: FI_ADDR_UNSPEC, addr: mem_addr@, key: mapped_key@, datatype: T::fi_datatype().raw_value(), op: AtomicOp::Prod.raw_value(), context: old(context)@ }),
            *final(context) == *old(context),
    {
        self.atomic_impl(buf, desc, None, mem_addr, mapped_key, Some(context.inner_mut()), AtomicOp::Prod)
    }

    fn atomic_bor_with_context<T: AsFiType, RT: AsFiType>(&self, buf: &[T], desc: Option<MemoryRegionDesc>, mem_addr: RemoteMemoryAddress<RT>, mapped_key: &MappedMemoryRegionKey, context: &mut Context) -> (r: AtomicCall)
        ensures
            r == (AtomicCall::Atomic { ep: self.ep_fid(), count: buf@.len() as usize, desc: owned_desc_value(desc), dest_addr: FI_ADDR_UNSPEC, addr: mem_addr@, key: mapped_key@, datatype: T::fi_datatype().raw_value(), op: AtomicOp::Bor.raw_value(), context: old(context)@ }),
            *final(context) == *old(context),
    {
        self.atomic_impl(buf, desc, None, mem_addr, mapped_key, Some(context.inner_mut()), AtomicOp::Bor)
    }

    fn atomic_band_with_context<T: AsFiType, RT: AsFiType>(&self, buf: &[T], desc: Option<MemoryRegionDesc>, mem_addr: RemoteMemoryAddress<RT>, mapped_key: &MappedMemoryRegionKey, context: &mut Context) -> (r: AtomicCall)
        ensures
            r == (AtomicCall::Atomic { ep: self.ep_fid(), count: buf@.len() as usize, desc: owned_desc_value(desc), dest_addr: FI_ADDR_UNSPEC, addr: mem_addr@, key: mapped_key@, datatype: T::fi_datatype().raw_value(), op: AtomicOp::Band.raw_value(), context: old(context)@ }),
            *final(context) == *old(context),
    {
        self.atomic_impl(buf, desc, None, mem_addr, mapped_key, Some(context.inner_mut()), AtomicOp::Band)
    }

    fn atomic_bxor_with_context<T: AsFiType, RT: AsFiType>(&self, buf: &[T], desc: Option<MemoryRegionDesc>, mem_addr: RemoteMemoryAddress<RT>, mapped_key: &MappedMemoryRegionKey, context: &mut Context) -> (r: AtomicCall)
        ensures
            r == (AtomicCall::Atomic { ep: self.ep_fid(), count: buf@.len() as usize, desc: owned_desc_value(desc), dest_addr: FI_ADDR_UNSPEC, addr: mem_addr@, key: mapped_key@, datatype: T::fi_datatype().raw_value(), op: AtomicOp::Bxor.raw_value(), context: old(context)@ }),
            *final(context) == *old(context),
    {
        self.atomic_impl(buf, desc, None, mem_addr, mapped_key, Some(context.inner_mut()), AtomicOp::Bxor)
    }

    fn atomic_lor_with_context(&self, buf: &[bool], desc: Option<MemoryRegionDesc>, mem_addr: RemoteMemoryAddress<bool>, mapped_key: &MappedMemoryRegionKey, context: &mut Context) -> (r: AtomicCall)
        ensures
            r == (AtomicCall::Atomic { ep: self.ep_fid(), count: buf@.len() as usize, desc: owned_desc_value(desc), dest_addr: FI_ADDR_UNSPEC, addr: mem_addr@, key: mapped_key@, datatype: <bool as AsFiType>::fi_datatype().raw_value(), op: AtomicOp::Lor.raw_value(), context: old(context)@ }),
            *final(context) == *old(context),
    {
        self.atomic_impl(buf, desc, None, mem_addr, mapped_key, Some(context.inner_mut()), AtomicOp::Lor)
    }

    fn atomic_land_with_context(&self, buf: &[bool], desc: Option<MemoryRegionDesc>, mem_addr: RemoteMemoryAddress<bool>, mapped_key: &MappedMemoryRegionKey, context: &mut Context) -> (r: AtomicCall)
        ensures
            r == (AtomicCall::Atomic { ep: self.ep_fid(), count: buf@.len() as usize, desc: owned_desc_value(desc), dest_addr: FI_ADDR_UNSPEC, addr: mem_addr@, key: mapped_key@, datatype: <bool as AsFiType>::fi_datatype().raw_value(), op: AtomicOp::Land.raw_value(), context: old(context)@ }),
            *final(context) == *old(context),
    {
        self.atomic_impl(buf, desc, None, mem_addr, mapped_key, Some(context.inner_mut()), AtomicOp::Land)
    }

    fn atomic_lxor_with_context(&self, buf: &[bool], desc: Option<MemoryRegionDesc>, mem_addr: RemoteMemoryAddress<bool>, mapped_key: &MappedMemoryRegionKey, context: &mut Context) -> (r: AtomicCall)
        ensures
            r == (AtomicCall::Atomic { ep: self.ep_fid(), count: buf@.len() as usize, desc: owned_desc_value(desc), dest_addr: FI_ADDR_UNSPEC, addr: mem_addr@, key: mapped_key@, datatype: <bool as AsFiType>::fi_datatype().raw_value(), op: AtomicOp::Lxor.raw_value(), context: old(context)@ }),
            *final(context) == *old(context),
    {
        self.atomic_impl(buf, desc, None, mem_addr, mapped_key, Some(context.inner_mut()), AtomicOp::Lxor)
    }

    fn atomic_min_triggered<T: AsFiType, RT: AsFiType>(&self, buf: &[T], desc: Option<MemoryRegionDesc>, mem_addr: RemoteMemoryAddress<RT>, mapped_key: &MappedMemoryRegionKey, context: &mut TriggeredContext) -> (r: AtomicCall)
        ensures
            r == (AtomicCall::Atomic { ep: self.ep_fid(), count: buf@.len() as usize, desc: owned_desc_value(desc), dest_addr: FI_ADDR_UNSPEC, addr: mem_addr@, key: mapped_key@, datatype: T::fi_datatype().raw_value(), op: AtomicOp::Min.raw_value(), context: old(context)@ }),
            *final(context) == *old(context),
    {
        self.atomic_impl(buf, desc, None, mem_addr, mapped_key, Some(context.inner_mut()), AtomicOp::Min)
    }

    fn atomic_max_triggered<T: AsFiType, RT: AsFiType>(&self, buf: &[T], desc: Option<MemoryRegionDesc>, mem_addr: RemoteMemoryAddress<RT>, mapped_key: &MappedMemoryRegionKey, context: &mut TriggeredContext) -> (r: AtomicCall)
        ensures
            r == (AtomicCall::Atomic { ep: self.ep_fid(), count: buf@.len() as usize, desc: owned_desc_value(desc), dest_addr: FI_ADDR_UNSPEC, addr: mem_addr@, key: mapped_key@, datatype: T::fi_datatype().raw_value(), op: AtomicOp::Max.raw_value(), context: old(context)@ }),
            *final(context) == *old(context),
    {
        self.atomic_impl(buf, desc, None, mem_addr, mapped_key, Some(context.inner_mut()), AtomicOp::Max)
    }

    fn atomic_sum_triggered<T: AsFiType, RT: AsFiType>(&self, buf: &[T], desc: Option<MemoryRegionDesc>, mem_addr: RemoteMemoryAddress<RT>, mapped_key: &MappedMemoryRegionKey, context: &mut TriggeredContext) -> (r: AtomicCall)
        ensures
            r == (AtomicCall::Atomic { ep: self.ep_fid(), count: buf@.len() as usize, desc: owned_desc_value(desc), dest_addr: FI_ADDR_UNSPEC, addr: mem_addr@, key: mapped_key@, datatype: T::fi_datatype().raw_value(), op: AtomicOp::Sum.raw_value(), context: old(context)@ }),
            *final(context) == *old(context),
    {
        self.atomic_impl(buf, desc, None, mem_addr, mapped_key, Some(context.inner_mut()), AtomicOp::Sum)
    }

    fn atomic_prod_triggered<T: AsFiType, RT: AsFiType>(&self, buf: &[T], desc: Option<MemoryRegionDesc>, mem_addr: RemoteMemoryAddress<RT>, mapped_key: &MappedMemoryRegionKey, context: &mut TriggeredContext) -> (r: AtomicCall)
        ensures
            r == (AtomicCall::Atomic { ep: self.ep_fid(), count: buf@.len() as usize, desc: owned_desc_value(desc), dest_addr: FI_ADDR_UNSPEC, addr: mem_addr@, key: mapped_key@, datatype: T::fi_datatype().raw_value(), op: AtomicOp::Prod.raw_value(), context: old(context)@ }),
            *final(context) == *old(context),
    {
        self.atomic_impl(buf, desc, None, mem_addr, mapped_key, Some(context.inner_mut()), AtomicOp::Prod)
    }

    fn atomic_bor_triggered<T: AsFiType, RT: AsFiType>(&self, buf: &[T], desc: Option<MemoryRegionDesc>, mem_addr: RemoteMemoryAddress<RT>, mapped_key: &MappedMemoryRegionKey, context: &mut TriggeredContext) -> (r: AtomicCall)
        ensures
            r == (AtomicCall::Atomic { ep: self.ep_fid(), count: buf@.len() as usize, desc: owned_desc_value(desc), dest_addr: FI_ADDR_UNSPEC, addr: mem_addr@, key: mapped_key@, datatype: T::fi_datatype().raw_value(), op: AtomicOp::Bor.raw_value(), context: old(context)@ }),
            *final(context) == *old(context),
    {
        self.atomic_impl(buf, desc, None, mem_addr, mapped_key, Some(context.inner_mut()), AtomicOp::Bor)
    }

    fn atomic_band_triggered<T: AsFiType, RT: AsFiType>(&self, buf: &[T], desc: Option<MemoryRegionDesc>, mem_addr: RemoteMemoryAddress<RT>, mapped_key: &MappedMemoryRegionKey, context: &mut TriggeredContext) -> (r: AtomicCall)
        ensures
            r == (AtomicCall::Atomic { ep: self.ep_fid(), count: buf@.len() as usize, desc: owned_desc_value(desc), dest_addr: FI_ADDR_UNSPEC, addr: mem_addr@, key: mapped_key@, datatype: T::fi_datatype().raw_value(), op: AtomicOp::Band.raw_value(), context: old(context)@ }),
            *final(context) == *old(context),
    {
        self.atomic_impl(buf, desc, None, mem_addr, mapped_key, Some(context.inner_mut()), AtomicOp::Band)
    }

    fn atomic_bxor_triggered<T: AsFiType, RT: AsFiType>(&self, buf: &[T], desc: Option<MemoryRegionDesc>, mem_addr: RemoteMemoryAddress<RT>, mapped_key: &MappedMemoryRegionKey, context: &mut TriggeredContext) -> (r: AtomicCall)
        ensures
            r == (AtomicCall::Atomic { ep: self.ep_fid(), count: buf@.len() as usize, desc: owned_desc_value(desc), dest_addr: FI_ADDR_UNSPEC, addr: mem_addr@, key: mapped_key@, datatype: T::fi_datatype().raw_value(), op: AtomicOp::Bxor.raw_value(), context: old(context)@ }),
            *final(context) == *old(context),
    {
        self.atomic_impl(buf, desc, None, mem_addr, mapped_key, Some(context.inner_mut()), AtomicOp::Bxor)
    }

    fn atomic_lor_triggered(&self, buf: &[bool], desc: Option<MemoryRegionDesc>, mem_addr: RemoteMemoryAddress<bool>, mapped_key: &MappedMemoryRegionKey, context: &mut TriggeredContext) -> (r: AtomicCall)
        ensures
            r == (AtomicCall::Atomic { ep: self.ep_fid(), count: buf@.len() as usize, desc: owned_desc_value(desc), dest_addr: FI_ADDR_UNSPEC, addr: mem_addr@, key: mapped_key@, datatype: <bool as AsFiType>::fi_datatype().raw_value(), op: AtomicOp::Lor.raw_value(), context: old(context)@ }),
            *final(context) == *old(context),
    {
        self.atomic_impl(buf, desc, None, mem_addr, mapped_key, Some(context.inner_mut()), AtomicOp::Lor)
    }

    fn atomic_land_triggered(&self, buf: &[bool], desc: Option<MemoryRegionDesc>, mem_addr: RemoteMemoryAddress<bool>, mapped_key: &MappedMemoryRegionKey, context: &mut TriggeredContext) -> (r: AtomicCall)
        ensures
            r == (AtomicCall::Atomic { ep: self.ep_fid(), count: buf@.len() as usize, desc: owned_desc_value(desc), dest_addr: FI_ADDR_UNSPEC, addr: mem_addr@, key: mapped_key@, datatype: <bool as AsFiType>::fi_datatype().raw_value(), op: AtomicOp::Land.raw_value(), context: old(context)@ }),
            *final(context) == *old(context),
    {
        self.atomic_impl(buf, desc, None, mem_addr, mapped_key, Some(context.inner_mut()), AtomicOp::Land)
    }

    fn atomic_lxor_triggered(&self, buf: &[bool], desc: Option<MemoryRegionDesc>, mem_addr: RemoteMemoryAddress<bool>, mapped_key: &MappedMemoryRegionKey, context: &mut TriggeredContext) -> (r: AtomicCall)
        ensures
            r == (AtomicCall::Atomic { ep: self.ep_fid(), count: buf@.len() as usize, desc: owned_desc_value(desc), dest_addr: FI_ADDR_UNSPEC, addr: mem_addr@, key: mapped_key@, datatype: <bool as AsFiType>::fi_datatype().raw_value(), op: AtomicOp::Lxor.raw_value(), context: old(context)@ }),
            *final(context) == *old(context),
    {
        self.atomic_impl(buf, desc, None, mem_addr, mapped_key, Some(context.inner_mut()), AtomicOp::Lxor)
    }

    fn atomicv_min<T: AsFiType, RT: AsFiType>(&self, ioc: &[Ioc<T>], desc: Option<&[MemoryRegionDesc]>, mem_addr: RemoteMemoryAddress<RT>, mapped_key: &MappedMemoryRegionKey) -> (r: AtomicCall)
        ensures
            r == (AtomicCall::Atomicv { ep: self.ep_fid(), count: ioc@.len() as usize, descs: desc is Some, dest_addr: FI_ADDR_UNSPEC, addr: mem_addr@, key: mapped_key@, datatype: T::fi_datatype().raw_value(), op: AtomicOp::Min.raw_value(), context: 0 }),
    {
        self.atomicv_impl(ioc, desc, None, mem_addr, mapped_key, None, AtomicOp::Min)
    }

    fn atomicv_max<T: AsFiType, RT: AsFiType>(&self, ioc: &[Ioc<T>], desc: Option<&[MemoryRegionDesc]>, mem_addr: RemoteMemoryAddress<RT>, mapped_key: &MappedMemoryRegionKey) -> (r: AtomicCall)
        ensures
            r == (AtomicCall::Atomicv { ep: self.ep_fid(), count: ioc@.len() as usize, descs: desc is Some, dest_addr: FI_ADDR_UNSPEC, addr: mem_addr@, key: mapped_key@, datatype: T::fi_datatype().raw_value(), op: AtomicOp::Max.raw_value(), context: 0 }),
    {
        self.atomicv_impl(ioc, desc, None, mem_addr, mapped_key, None, AtomicOp::Max)
    }

    fn atomicv_sum<T: AsFiType, RT: AsFiType>(&self, ioc: &[Ioc<T>], desc: Option<&[MemoryRegionDesc]>, mem_addr: RemoteMemoryAddress<RT>, mapped_key: &MappedMemoryRegionKey) -> (r: AtomicCall)
        ensures
            r == (AtomicCall::Atomicv { ep: self.ep_fid(), count: ioc@.len() as usize, descs: desc is Some, dest_addr: FI_ADDR_UNSPEC, addr: mem_addr@, key: mapped_key@, datatype: T::fi_datatype().raw_value(), op: AtomicOp::Sum.raw_value(), context: 0 }),
    {
        self.atomicv_impl(ioc, desc, None, mem_addr, mapped_key, None, AtomicOp::Sum)
    }

    fn atomicv_prod<T: AsFiType, RT: AsFiType>(&self, ioc: &[Ioc<T>], desc: Option<&[MemoryRegionDesc]>, mem_addr: RemoteMemoryAddress<RT>, mapped_key: &MappedMemoryRegionKey) -> (r: AtomicCall)
        ensures
            r == (AtomicCall::Atomicv { ep: self.ep_fid(), count: ioc@.len() as usize, descs: desc is Some, dest_addr: FI_ADDR_UNSPEC, addr: mem_addr@, key: mapped_key@, datatype: T::fi_datatype().raw_value(), op: AtomicOp::Prod.raw_value(), context: 0 }),
    {
        self.atomicv_impl(ioc, desc, None, mem_addr, mapped_key, None, AtomicOp::Prod)
    }

    fn atomicv_bor<T: AsFiType, RT: AsFiType>(&self, ioc: &[Ioc<T>], desc: Option<&[MemoryRegionDesc]>, mem_addr: RemoteMemoryAddress<RT>, mapped_key: &MappedMemoryRegionKey) -> (r: AtomicCall)
        ensures
            r == (AtomicCall::Atomicv { ep: self.ep_fid(), count: ioc@.len() as usize, descs: desc is Some, dest_addr: FI_ADDR_UNSPEC, addr: mem_addr@, key: mapped_key@, datatype: T::fi_datatype().raw_value(), op: AtomicOp::Bor.raw_value(), context: 0 }),
    {
        self.atomicv_impl(ioc, desc, None, mem_addr, mapped_key, None, AtomicOp::Bor)
    }

    fn atomicv_band<T: AsFiType, RT: AsFiType>(&self, ioc: &[Ioc<T>], desc: Option<&[MemoryRegionDesc]>, mem_addr: RemoteMemoryAddress<RT>, mapped_key: &MappedMemoryRegionKey) -> (r: AtomicCall)
        ensures
            r == (AtomicCall::Atomicv { ep: self.ep_fid(), count: ioc@.len() as usize, descs: desc is Some, dest_addr: FI_ADDR_UNSPEC, addr: mem_addr@, key: mapped_key@, datatype: T::fi_datatype().raw_value(), op: AtomicOp::Band.raw_value(), context: 0 }),
    {
        self.atomicv_impl(ioc, desc, None, mem_addr, mapped_key, None, AtomicOp::Band)
    }

    fn atomicv_bxor<T: AsFiType, RT: AsFiType>(&self, ioc: &[Ioc<T>], desc: Option<&[MemoryRegionDesc]>, mem_addr: RemoteMemoryAddress<RT>, mapped_key: &MappedMemoryRegionKey) -> (r: AtomicCall)
        ensures
            r == (AtomicCall::Atomicv { ep: self.ep_fid(), count: ioc@.len() as usize, descs: desc is Some, dest_addr: FI_ADDR_UNSPEC, addr: mem_addr@, key: mapped_key@, datatype: T::fi_datatype().raw_value(), op: AtomicOp::Bxor.raw_value(), context: 0 }),
    {
        self.atomicv_impl(ioc, desc, None, mem_addr, mapped_key, None, AtomicOp::Bxor)
    }

    fn atomicv_lor(&self, ioc: &[Ioc<bool>], desc: Option<&[MemoryRegionDesc]>, mem_addr: RemoteMemoryAddress<bool>, mapped_key: &MappedMemoryRegionKey) -> (r: AtomicCall)
        ensures
            r == (AtomicCall::Atomicv { ep: self.ep_fid(), count: ioc@.len() as usize, descs: desc is Some, dest_addr: FI_ADDR_UNSPEC, addr: mem_addr@, key: mapped_key@, datatype: <bool as AsFiType>::fi_datatype().raw_value(), op: AtomicOp::Lor.raw_value(), context: 0 }),
    {
        self.atomicv_impl(ioc, desc, None, mem_addr, mapped_key, None, AtomicOp::Lor)
    }

    fn atomicv_land(&self, ioc: &[Ioc<bool>], desc: Option<&[MemoryRegionDesc]>, mem_addr: RemoteMemoryAddress<bool>, mapped_key: &MappedMemoryRegionKey) -> (r: AtomicCall)
        ensures
            r == (AtomicCall::Atomicv { ep: self.ep_fid(), count: ioc@.len() as usize, descs: desc is Some, dest_addr: FI_ADDR_UNSPEC, addr: mem_addr@, key: mapped_key@, datatype: <bool as AsFiType>::fi_datatype().raw_value(), op: AtomicOp::Land.raw_value(), context: 0 }),
    {
        self.atomicv_impl(ioc, desc, None, mem_addr, mapped_key, None, AtomicOp::Land)
    }

    fn atomicv_lxor(&self, ioc: &[Ioc<bool>], desc: Option<&[MemoryRegionDesc]>, mem_addr: RemoteMemoryAddress<bool>, mapped_key: &MappedMemoryRegionKey) -> (r: AtomicCall)
        ensures
            r == (AtomicCall::Atomicv { ep: self.ep_fid(), count: ioc@.len() as usize, descs: desc is Some, dest_addr: FI_ADDR_UNSPEC, addr: mem_addr@, key: mapped_key@, datatype: <bool as AsFiType>::fi_datatype().raw_value(), op: AtomicOp::Lxor.raw_value(), context: 0 }),
    {
        self.atomicv_impl(ioc, desc, None, mem_addr, mapped_key, None, AtomicOp::Lxor)
    }

    fn atomicv_min_with_context<T: AsFiType, RT: AsFiType>(&self, ioc: &[Ioc<T>], desc: Option<&[MemoryRegionDesc]>, mem_addr: RemoteMemoryAddress<RT>, mapped_key: &MappedMemoryRegionKey, context: &mut Context) -> (r: AtomicCall)
        ensures
            r == (AtomicCall::Atomicv { ep: self.ep_fid(), count: ioc@.len() as usize, descs: desc is Some, dest_addr: FI_ADDR_UNSPEC, addr: mem_addr@, key: mapped_key@, datatype: T::fi_datatype().raw_value(), op: AtomicOp::Min.raw_value(), context: old(context)@ }),
            *final(context) == *old(context),
    {
        self.atomicv_impl(ioc, desc, None, mem_addr, mapped_key, Some(context.inner_mut()), AtomicOp::Min)
    }

    fn atomicv_max_with_context<T: AsFiType, RT: AsFiType>(&self, ioc: &[Ioc<T>], desc: Option<&[MemoryRegionDesc]>, mem_addr: RemoteMemoryAddress<RT>, mapped_key: &MappedMemoryRegionKey, context: &mut Context) -> (r: AtomicCall)
        ensures
            r == (AtomicCall::Atomicv { ep: self.ep_fid(), count: ioc@.len() as usize, descs: desc is Some, dest_addr: FI_ADDR_UNSPEC, addr: mem_addr@, key: mapped_key@, datatype: T::fi_datatype().raw_value(), op: AtomicOp::Max.raw_value(), context: old(context)@ }),
            *final(context) == *old(context),
    {
        self.atomicv_impl(ioc, desc, None, mem_addr, mapped_key, Some(context.inner_mut()), AtomicOp::Max)
    }

    fn atomicv_sum_with_context<T: AsFiType, RT: AsFiType>(&self, ioc: &[Ioc<T>], desc: Option<&[MemoryRegionDesc]>, mem_addr: RemoteMemoryAddress<RT>, mapped_key: &MappedMemoryRegionKey, context: &mut Context) -> (r: AtomicCall)
        ensures
            r == (AtomicCall::Atomicv { ep: self.ep_fid(), count: ioc@.len() as usize, descs: desc is Some, dest_addr: FI_ADDR_UNSPEC, addr: mem_addr@, key: mapped_key@, datatype: T::fi_datatype().raw_value(), op: AtomicOp::Sum.raw_value(), context: old(context)@ }),
            *final(context) == *old(context),
    {
        self.atomicv_impl(ioc, desc, None, mem_addr, mapped_key, Some(context.inner_mut()), AtomicOp::Sum)
    }

    fn atomicv_prod_with_context<T: AsFiType, RT: AsFiType>(&self, ioc: &[Ioc<T>], desc: Option<&[MemoryRegionDesc]>, mem_addr: RemoteMemoryAddress<RT>, mapped_key: &MappedMemoryRegionKey, context: &mut Context) -> (r: AtomicCall)
        ensures
            r == (AtomicCall::Atomicv { ep: self.ep_fid(), count: ioc@.len() as usize, descs: desc is Some, dest_addr: FI_ADDR_UNSPEC, addr: mem_addr@, key: mapped_key@, datatype: T::fi_datatype().raw_value(), op: AtomicOp::Prod.raw_value(), context: old(context)@ }),
            *final(context) == *old(context),
    {
        self.atomicv_impl(ioc, desc, None, mem_addr, mapped_key, Some(context.inner_mut()), AtomicOp::Prod)
    }

    fn atomicv_bor_with_context<T: AsFiType, RT: AsFiType>(&self, ioc: &[Ioc<T>], desc: Option<&[MemoryRegionDesc]>, mem_addr: RemoteMemoryAddress<RT>, mapped_key: &MappedMemoryRegionKey, context: &mut Context) -> (r: AtomicCall)
        ensures
            r == (AtomicCall::Atomicv { ep: self.ep_fid(), count: ioc@.len() as usize, descs: desc is Some, dest_addr: FI_ADDR_UNSPEC, addr: mem_addr@, key: mapped_key@, datatype: T::fi_datatype().raw_value(), op: AtomicOp::Bor.raw_value(), context: old(context)@ }),
            *final(context) == *old(context),
    {
        self.atomicv_impl(ioc, desc, None, mem_addr, mapped_key, Some(context.inner_mut()), AtomicOp::Bor)
    }

    fn atomicv_band_with_context<T: AsFiType, RT: AsFiType>(&self, ioc: &[Ioc<T>], desc: Option<&[MemoryRegionDesc]>, mem_addr: RemoteMemoryAddress<RT>, mapped_key: &MappedMemoryRegionKey, context: &mut Context) -> (r: AtomicCall)
        ensures
            r == (AtomicCall::Atomicv { ep: self.ep_fid(), count: ioc@.len() as usize, descs: desc is Some, dest_addr: FI_ADDR_UNSPEC, addr: mem_addr@, key: mapped_key@, datatype: T::fi_datatype().raw_value(), op: AtomicOp::Band.raw_value(), context: old(context)@ }),
            *final(context) == *old(context),
    {
        self.atomicv_impl(ioc, desc, None, mem_addr, mapped_key, Some(context.inner_mut()), AtomicOp::Band)
    }

    fn atomicv_bxor_with_context<T: AsFiType, RT: AsFiType>(&self, ioc: &[Ioc<T>], desc: Option<&[MemoryRegionDesc]>, mem_addr: RemoteMemoryAddress<RT>, mapped_key: &MappedMemoryRegionKey, context: &mut Context) -> (r: AtomicCall)
        ensures
            r == (AtomicCall::Atomicv { ep: self.ep_fid(), count: ioc@.len() as usize, descs: desc is Some, dest_addr: FI_ADDR_UNSPEC, addr: mem_addr@, key: mapped_key@, datatype: T::fi_datatype().raw_value(), op: AtomicOp::Bxor.raw_value(), context: old(context)@ }),
            *final(context) == *old(context),
    {
        self.atomicv_impl(ioc, desc, None, mem_addr, mapped_key, Some(context.inner_mut()), AtomicOp::Bxor)
    }

    fn atomicv_lor_with_context(&self, ioc: &[Ioc<bool>], desc: Option<&[MemoryRegionDesc]>, mem_addr: RemoteMemoryAddress<bool>, mapped_key: &MappedMemoryRegionKey, context: &mut Context) -> (r: AtomicCall)
        ensures
            r == (AtomicCall::Atomicv { ep: self.ep_fid(), count: ioc@.len() as usize, descs: desc is Some, dest_addr: FI_ADDR_UNSPEC, addr: mem_addr@, key: mapped_key@, datatype: <bool as AsFiType>::fi_datatype().raw_value(), op: AtomicOp::Lor.raw_value(), context: old(context)@ }),
            *final(context) == *old(context),
    {
        self.atomicv_impl(ioc, desc, None, mem_addr, mapped_key, Some(context.inner_mut()), AtomicOp::Lor)
    }

    fn atomicv_land_with_context(&self, ioc: &[Ioc<bool>], desc: Option<&[MemoryRegionDesc]>, mem_addr: RemoteMemoryAddress<bool>, mapped_key: &MappedMemoryRegionKey, context: &mut Context) -> (r: AtomicCall)
        ensures
            r == (AtomicCall::Atomicv { ep: self.ep_fid(), count: ioc@.len() as usize, descs: desc is Some, dest_addr: FI_ADDR_UNSPEC, addr: mem_addr@, key: mapped_key@, datatype: <bool as AsFiType>::fi_datatype().raw_value(), op: AtomicOp::Land.raw_value(), context: old(context)@ }),
            *final(context) == *old(context),
    {
        self.atomicv_impl(ioc, desc, None, mem_addr, mapped_key, Some(context.inner_mut()), AtomicOp::Land)
    }

    fn atomicv_lxor_with_context(&self, ioc: &[Ioc<bool>], desc: Option<&[MemoryRegionDesc]>, mem_addr: RemoteMemoryAddress<bool>, mapped_key: &MappedMemoryRegionKey, context: &mut Context) -> (r: AtomicCall)
        ensures
            r == (AtomicCall::Atomicv { ep: self.ep_fid(), count: ioc@.len() as usize, descs: desc is Some, dest_addr: FI_ADDR_UNSPEC, addr: mem_addr@, key: mapped_key@, datatype: <bool as AsFiType>::fi_datatype().raw_value(), op: AtomicOp::Lxor.raw_value(), context: old(context)@ }),
            *final(context) == *old(context),
    {
        self.atomicv_impl(ioc, desc, None, mem_addr, mapped_key, Some(context.inner_mut()), AtomicOp::Lxor)
    }

    fn atomicv_min_triggered<T: AsFiType, RT: AsFiType>(&self, ioc: &[Ioc<T>], desc: Option<&[MemoryRegionDesc]>, mem_addr: RemoteMemoryAddress<RT>, mapped_key: &MappedMemoryRegionKey, context: &mut TriggeredContext) -> (r: AtomicCall)
        ensures
            r == (AtomicCall::Atomicv { ep: self.ep_fid(), count: ioc@.len() as usize, descs: desc is Some, dest_addr: FI_ADDR_UNSPEC, addr: mem_addr@, key: mapped_key@, datatype: T::fi_datatype().raw_value(), op: AtomicOp::Min.raw_value(), context: old(context)@ }),
            *final(context) == *old(context),
    {
        self.atomicv_impl(ioc, desc, None, mem_addr, mapped_key, Some(context.inner_mut()), AtomicOp::Min)
    }

    fn atomicv_max_triggered<T: AsFiType, RT: AsFiType>(&self, ioc: &[Ioc<T>], desc: Option<&[MemoryRegionDesc]>, mem_addr: RemoteMemoryAddress<RT>, mapped_key: &MappedMemoryRegionKey, context: &mut TriggeredContext) -> (r: AtomicCall)
        ensures
            r == (AtomicCall::Atomicv { ep: self.ep_fid(), count: ioc@.len() as usize, descs: desc is Some, dest_addr: FI_ADDR_UNSPEC, addr: mem_addr@, key: mapped_key@, datatype: T::fi_datatype().raw_value(), op: AtomicOp::Max.raw_value(), context: old(context)@ }),
            *final(context) == *old(context),
    {
        self.atomicv_impl(ioc, desc, None, mem_addr, mapped_key, Some(context.inner_mut()), AtomicOp::Max)
    }

    fn atomicv_sum_triggered<T: AsFiType, RT: AsFiType>(&self, ioc: &[Ioc<T>], desc: Option<&[MemoryRegionDesc]>, mem_addr: RemoteMemoryAddress<RT>, mapped_key: &MappedMemoryRegionKey, context: &mut TriggeredContext) -> (r: AtomicCall)
        ensures
            r == (AtomicCall::Atomicv { ep: self.ep_fid(), count: ioc@.len() as usize, descs: desc is Some, dest_addr: FI_ADDR_UNSPEC, addr: mem_addr@, key: mapped_key@, datatype: T::fi_datatype().raw_value(), op: AtomicOp::Sum.raw_value(), context: old(context)@ }),
            *final(context) == *old(context),
    {
        self.atomicv_impl(ioc, desc, None, mem_addr, mapped_key, Some(context.inner_mut()), AtomicOp::Sum)
    }

    fn atomicv_prod_triggered<T: AsFiType, RT: AsFiType>(&self, ioc: &[Ioc<T>], desc: Option<&[MemoryRegionDesc]>, mem_addr: RemoteMemoryAddress<RT>, mapped_key: &MappedMemoryRegionKey, context: &mut TriggeredContext) -> (r: AtomicCall)
        ensures
            r == (AtomicCall::Atomicv { ep: self.ep_fid(), count: ioc@.len() as usize, descs: desc is Some, dest_addr: FI_ADDR_UNSPEC, addr: mem_addr@, key: mapped_key@, datatype: T::fi_datatype().raw_value(), op: AtomicOp::Prod.raw_value(), context: old(context)@ }),
            *final(context) == *old(context),
    {
        self.atomicv_impl(ioc, desc, None, mem_addr, mapped_key, Some(context.inner_mut()), AtomicOp::Prod)
    }

    fn atomicv_bor_triggered<T: AsFiType, RT: AsFiType>(&self, ioc: &[Ioc<T>], desc: Option<&[MemoryRegionDesc]>, mem_addr: RemoteMemoryAddress<RT>, mapped_key: &MappedMemoryRegionKey, context: &mut TriggeredContext) -> (r: AtomicCall)
        ensures
            r == (AtomicCall::Atomicv { ep: self.ep_fid(), count: ioc@.len() as usize, descs: desc is Some, dest_addr: FI_ADDR_UNSPEC, addr: mem_addr@, key: mapped_key@, datatype: T::fi_datatype().raw_value(), op: AtomicOp::Bor.raw_value(), context: old(context)@ }),
            *final(context) == *old(context),
    {
        self.atomicv_impl(ioc, desc, None, mem_addr, mapped_key, Some(context.inner_mut()), AtomicOp::Bor)
    }

    fn atomicv_band_triggered<T: AsFiType, RT: AsFiType>(&self, ioc: &[Ioc<T>], desc: Option<&[MemoryRegionDesc]>, mem_addr: RemoteMemoryAddress<RT>, mapped_key: &MappedMemoryRegionKey, context: &mut TriggeredContext) -> (r: AtomicCall)
        ensures
            r == (AtomicCall::Atomicv { ep: self.ep_fid(), count: ioc@.len() as usize, descs: desc is Some, dest_addr: FI_ADDR_UNSPEC, addr: mem_addr@, key: mapped_key@, datatype: T::fi_datatype().raw_value(), op: AtomicOp::Band.raw_value(), context: old(context)@ }),
            *final(context) == *old(context),
    {
        self.atomicv_impl(ioc, desc, None, mem_addr, mapped_key, Some(context.inner_mut()), AtomicOp::Band)
    }

    fn atomicv_bxor_triggered<T: AsFiType, RT: AsFiType>(&self, ioc: &[Ioc<T>], desc: Option<&[MemoryRegionDesc]>, mem_addr: RemoteMemoryAddress<RT>, mapped_key: &MappedMemoryRegionKey, context: &mut TriggeredContext) -> (r: AtomicCall)
        ensures
            r == (AtomicCall::Atomicv { ep: self.ep_fid(), count: ioc@.len() as usize, descs: desc is Some, dest_addr: FI_ADDR_UNSPEC, addr: mem_addr@, key: mapped_key@, datatype: T::fi_datatype().raw_value(), op: AtomicOp::Bxor.raw_value(), context: old(context)@ }),
            *final(context) == *old(context),
    {
        self.atomicv_impl(ioc, desc, None, mem_addr, mapped_key, Some(context.inner_mut()), AtomicOp::Bxor)
    }

    fn atomicv_lor_triggered(&self, ioc: &[Ioc<bool>], desc: Option<&[MemoryRegionDesc]>, mem_addr: RemoteMemoryAddress<bool>, mapped_key: &MappedMemoryRegionKey, context: &mut TriggeredContext) -> (r: AtomicCall)
        ensures
            r == (AtomicCall::Atomicv { ep: self.ep_fid(), count: ioc@.len() as usize, descs: desc is Some, dest_addr: FI_ADDR_UNSPEC, addr: mem_addr@, key: mapped_key@, datatype: <bool as AsFiType>::fi_datatype().raw_value(), op: AtomicOp::Lor.raw_value(), context: old(context)@ }),
            *final(context) == *old(context),
    {
        self.atomicv_impl(ioc, desc, None, mem_addr, mapped_key, Some(context.inner_mut()), AtomicOp::Lor)
    }

    fn atomicv_land_triggered(&self, ioc: &[Ioc<bool>], desc: Option<&[MemoryRegionDesc]>, mem_addr: RemoteMemoryAddress<bool>, mapped_key: &MappedMemoryRegionKey, context: &mut TriggeredContext) -> (r: AtomicCall)
        ensures
            r == (AtomicCall::Atomicv { ep: self.ep_fid(), count: ioc@.len() as usize, descs: desc is Some, dest_addr: FI_ADDR_UNSPEC, addr: mem_addr@, key: mapped_key@, datatype: <bool as AsFiType>::fi_datatype().raw_value(), op: AtomicOp::Land.raw_value(), context: old(context)@ }),
            *final(context) == *old(context),
    {
        self.atomicv_impl(ioc, desc, None, mem_addr, mapped_key, Some(context.inner_mut()), AtomicOp::Land)
    }

    fn atomicv_lxor_triggered(&self, ioc: &[Ioc<bool>], desc: Option<&[MemoryRegionDesc]>, mem_addr: RemoteMemoryAddress<bool>, mapped_key: &MappedMemoryRegionKey, context: &mut TriggeredContext) -> (r: AtomicCall)
        ensures
            r == (AtomicCall::Atomicv { ep: self.ep_fid(), count: ioc@.len() as usize, descs: desc is Some, dest_addr: FI_ADDR_UNSPEC, addr: mem_addr@, key: mapped_key@, datatype: <bool as AsFiType>::fi_datatype().raw_value(), op: AtomicOp::Lxor.raw_value(), context: old(context)@ }),
            *final(context) == *old(context),
    {
        self.atomicv_impl(ioc, desc, None, mem_addr, mapped_key, Some(context.inner_mut()), AtomicOp::Lxor)
    }

    fn atomicmsg(&self, msg: &MsgRef, options: AtomicMsgOptions) -> (r: AtomicCall)
        ensures
            r == (AtomicCall::Atomicmsg { ep: self.ep_fid(), msg: msg@, flags: options@ }),
    {
        self.atomicmsg_impl(msg, options)
    }

    fn atomic_inject_min<T: AsFiType, RT: AsFiType>(&self, buf: &[T], mem_addr: RemoteMemoryAddress<RT>, mapped_key: &MappedMemoryRegionKey) -> (r: AtomicCall)
        ensures
            r == (AtomicCall::InjectAtomic { ep: self.ep_fid(), count: buf@.len() as usize, dest_addr: FI_ADDR_UNSPEC, addr: mem_addr@, key: mapped_key@, datatype: T::fi_datatype().raw_value(), op: AtomicOp::Min.raw_value() }),
    {
        self.inject_atomic_impl(buf, None, mem_addr, mapped_key, AtomicOp::Min)
    }

    fn atomic_inject_max<T: AsFiType, RT: AsFiType>(&self, buf: &[T], mem_addr: RemoteMemoryAddress<RT>, mapped_key: &MappedMemoryRegionKey) -> (r: AtomicCall)
        ensures
            r == (AtomicCall::InjectAtomic { ep: self.ep_fid(), count: buf@.len() as usize, dest_addr: FI_ADDR_UNSPEC, addr: mem_addr@, key: mapped_key@, datatype: T::fi_datatype().raw_value(), op: AtomicOp::Max.raw_value() }),
    {
        self.inject_atomic_impl(buf, None, mem_addr, mapped_key, AtomicOp::Max)
    }

    fn atomic_inject_sum<T: AsFiType, RT: AsFiType>(&self, buf: &[T], mem_addr: RemoteMemoryAddress<RT>, mapped_key: &MappedMemoryRegionKey) -> (r: AtomicCall)
        ensures
            r == (AtomicCall::InjectAtomic { ep: self.ep_fid(), count: buf@.len() as usize, dest_addr: FI_ADDR_UNSPEC, addr: mem_addr@, key: mapped_key@, datatype: T::fi_datatype().raw_value(), op: AtomicOp::Sum.raw_value() }),
    {
        self.inject_atomic_impl(buf, None, mem_addr, mapped_key, AtomicOp::Sum)
    }

    fn atomic_inject_prod<T: AsFiType, RT: AsFiType>(&self, buf: &[T], mem_addr: RemoteMemoryAddress<RT>, mapped_key: &MappedMemoryRegionKey) -> (r: AtomicCall)
        ensures
            r == (AtomicCall::InjectAtomic { ep: self.ep_fid(), count: buf@.len() as usize, dest_addr: FI_ADDR_UNSPEC, addr: mem_addr@, key: mapped_key@, datatype: T::fi_datatype().raw_value(), op: AtomicOp::Prod.raw_value() }),
    {
        self.inject_atomic_impl(buf, None, mem_addr, mapped_key, AtomicOp::Prod)
    }

    fn atomic_inject_bor<T: AsFiType, RT: AsFiType>(&self, buf: &[T], mem_addr: RemoteMemoryAddress<RT>, mapped_key: &MappedMemoryRegionKey) -> (r: AtomicCall)
        ensures
            r == (AtomicCall::InjectAtomic { ep: self.ep_fid(), count: buf@.len() as usize, dest_addr: FI_ADDR_UNSPEC, addr: mem_addr@, key: mapped_key@, datatype: T::fi_datatype().raw_value(), op: AtomicOp::Bor.raw_value() }),
    {
        self.inject_atomic_impl(buf, None, mem_addr, mapped_key, AtomicOp::Bor)
    }

    fn atomic_inject_band<T: AsFiType, RT: AsFiType>(&self, buf: &[T], mem_addr: RemoteMemoryAddress<RT>, mapped_key: &MappedMemoryRegionKey) -> (r: AtomicCall)
        ensures
            r == (AtomicCall::InjectAtomic { ep: self.ep_fid(), count: buf@.len() as usize, dest_addr: FI_ADDR_UNSPEC, addr: mem_addr@, key: mapped_key@, datatype: T::fi_datatype().raw_value(), op: AtomicOp::Band.raw_value() }),
    {
        self.inject_atomic_impl(buf, None, mem_addr, mapped_key, AtomicOp::Band)
    }

    fn atomic_inject_bxor<T: AsFiType, RT: AsFiType>(&self, buf: &[T], mem_addr: RemoteMemoryAddress<RT>, mapped_key: &MappedMemoryRegionKey) -> (r: AtomicCall)
        ensures
            r == (AtomicCall::InjectAtomic { ep: self.ep_fid(), count: buf@.len() as usize, dest_addr: FI_ADDR_UNSPEC, addr: mem_addr@, key: mapped_key@, datatype: T::fi_datatype().raw_value(), op: AtomicOp::Bxor.raw_value() }),
    {
        self.inject_atomic_impl(buf, None, mem_addr, mapped_key, AtomicOp::Bxor)
    }

    fn atomic_inject_lor(&self, buf: &[bool], mem_addr: RemoteMemoryAddress<bool>, mapped_key: &MappedMemoryRegionKey) -> (r: AtomicCall)
        ensures
            r == (AtomicCall::InjectAtomic { ep: self.ep_fid(), count: buf@.len() as usize, dest_addr: FI_ADDR_UNSPEC, addr: mem_addr@, key: mapped_key@, datatype: <bool as AsFiType>::fi_datatype().raw_value(), op: AtomicOp::Lor.raw_value() }),
    {
        self.inject_atomic_impl(buf, None, mem_addr, mapped_key, AtomicOp::Lor)
    }

    fn atomic_inject_land(&self, buf: &[bool], mem_addr: RemoteMemoryAddress<bool>, mapped_key: &MappedMemoryRegionKey) -> (r: AtomicCall)
        ensures
            r == (AtomicCall::InjectAtomic { ep: self.ep_fid(), count: buf@.len() as usize, dest_addr: FI_ADDR_UNSPEC, addr: mem_addr@, key: mapped_key@, datatype: <bool as AsFiType>::fi_datatype().raw_value(), op: AtomicOp::Land.raw_value() }),
    {
        self.inject_atomic_impl(buf, None, mem_addr, mapped_key, AtomicOp::Land)
    }

    fn atomic_inject_lxor(&self, buf: &[bool], mem_addr: RemoteMemoryAddress<bool>, mapped_key: &MappedMemoryRegionKey) -> (r: AtomicCall)
        ensures
            r == (AtomicCall::InjectAtomic { ep: self.ep_fid(), count: buf@.len() as usize, dest_addr: FI_ADDR_UNSPEC, addr: mem_addr@, key: mapped_key@, datatype: <bool as AsFiType>::fi_datatype().raw_value(), op: AtomicOp::Lxor.raw_value() }),
    {
        self.inject_atomic_impl(buf, None, mem_addr, mapped_key, AtomicOp::Lxor)
    }
}

impl ConnectedAtomicWriteEp for ConnectedEndpoint {}

/// Atomic updates whose operand lies in a registered memory region.
pub trait AtomicWriteEpMrSlice: AtomicWriteEp {
    fn atomic_mr_min_to<T: AsFiType, RT: AsFiType>(&self, mr_slice: &MemoryRegionSlice<T>, dest_addr: &MappedAddress, mem_addr: RemoteMemoryAddress<RT>, mapped_key: &MappedMemoryRegionKey) -> (r: AtomicCall)
        ensures
            r == (AtomicCall::Atomic { ep: self.ep_fid(), count: mr_slice.data()@.len() as usize, desc: mr_slice.desc_spec()@, dest_addr: dest_addr@, addr: mem_addr@, key: mapped_key@, datatype: T::fi_datatype().raw_value(), op: AtomicOp::Min.raw_value(), context: 0 }),
    {
        self.atomic_min_to(mr_slice.as_slice(), Some(mr_slice.desc()), dest_addr, mem_addr, mapped_key)
    }

    fn atomic_mr_max_to<T: AsFiType, RT: AsFiType>(&self, mr_slice: &MemoryRegionSlice<T>, dest_addr: &MappedAddress, mem_addr: RemoteMemoryAddress<RT>, mapped_key: &MappedMemoryRegionKey) -> (r: AtomicCall)
        ensures
            r == (AtomicCall::Atomic { ep: self.ep_fid(), count: mr_slice.data()@.len() as usize, desc: mr_slice.desc_spec()@, dest_addr: dest_addr@, addr: mem_addr@, key: mapped_key@, datatype: T::fi_datatype().raw_value(), op: AtomicOp::Max.raw_value(), context: 0 }),
    {
        self.atomic_max_to(mr_slice.as_slice(), Some(mr_slice.desc()), dest_addr, mem_addr, mapped_key)
    }

    fn atomic_mr_sum_to<T: AsFiType, RT: AsFiType>(&self, mr_slice: &MemoryRegionSlice<T>, dest_addr: &MappedAddress, mem_addr: RemoteMemoryAddress<RT>, mapped_key: &MappedMemoryRegionKey) -> (r: AtomicCall)
        ensures
            r == (AtomicCall::Atomic { ep: self.ep_fid(), count: mr_slice.data()@.len() as usize, desc: mr_slice.desc_spec()@, dest_addr: dest_addr@, addr: mem_addr@, key: mapped_key@, datatype: T::fi_datatype().raw_value(), op: AtomicOp::Sum.raw_value(), context: 0 }),
    {
        self.atomic_sum_to(mr_slice.as_slice(), Some(mr_slice.desc()), dest_addr, mem_addr, mapped_key)
    }

    fn atomic_mr_prod_to<T: AsFiType, RT: AsFiType>(&self, mr_slice: &MemoryRegionSlice<T>, dest_addr: &MappedAddress, mem_addr: RemoteMemoryAddress<RT>, mapped_key: &MappedMemoryRegionKey) -> (r: AtomicCall)
        ensures
            r == (AtomicCall::Atomic { ep: self.ep_fid(), count: mr_slice.data()@.len() as usize, desc: mr_slice.desc_spec()@, dest_addr: dest_addr@, addr: mem_addr@, key: mapped_key@, datatype: T::fi_datatype().raw_value(), op: AtomicOp::Prod.raw_value(), context: 0 }),
    {
        self.atomic_prod_to(mr_slice.as_slice(), Some(mr_slice.desc()), dest_addr, mem_addr, mapped_key)
    }

    fn atomic_mr_bor_to<T: AsFiType, RT: AsFiType>(&self, mr_slice: &MemoryRegionSlice<T>, dest_addr: &MappedAddress, mem_addr: RemoteMemoryAddress<RT>, mapped_key: &MappedMemoryRegionKey) -> (r: AtomicCall)
        ensures
            r == (AtomicCall::Atomic { ep: self.ep_fid(), count: mr_slice.data()@.len() as usize, desc: mr_slice.desc_spec()@, dest_addr: dest_addr@, addr: mem_addr@, key: mapped_key@, datatype: T::fi_datatype().raw_value(), op: AtomicOp::Bor.raw_value(), context: 0 }),
    {
        self.atomic_bor_to(mr_slice.as_slice(), Some(mr_slice.desc()), dest_addr, mem_addr, mapped_key)
    }

    fn atomic_mr_band_to<T: AsFiType, RT: AsFiType>(&self, mr_slice: &MemoryRegionSlice<T>, dest_addr: &MappedAddress, mem_addr: RemoteMemoryAddress<RT>, mapped_key: &MappedMemoryRegionKey) -> (r: AtomicCall)
        ensures
            r == (AtomicCall::Atomic { ep: self.ep_fid(), count: mr_slice.data()@.len() as usize, desc: mr_slice.desc_spec()@, dest_addr: dest_addr@, addr: mem_addr@, key: mapped_key@, datatype: T::fi_datatype().raw_value(), op: AtomicOp::Band.raw_value(), context: 0 }),
    {
        self.atomic_band_to(mr_slice.as_slice(), Some(mr_slice.desc()), dest_addr, mem_addr, mapped_key)
    }

    fn atomic_mr_bxor_to<T: AsFiType, RT: AsFiType>(&self, mr_slice: &MemoryRegionSlice<T>, dest_addr: &MappedAddress, mem_addr: RemoteMemoryAddress<RT>, mapped_key: &MappedMemoryRegionKey) -> (r: AtomicCall)
        ensures
            r == (AtomicCall::Atomic { ep: self.ep_fid(), count: mr_slice.data()@.len() as usize, desc: mr_slice.desc_spec()@, dest_addr: dest_addr@, addr: mem_addr@, key: mapped_key@, datatype: T::fi_datatype().raw_value(), op: AtomicOp::Bxor.raw_value(), context: 0 }),
    {
        self.atomic_bxor_to(mr_slice.as_slice(), Some(mr_slice.desc()), dest_addr, mem_addr, mapped_key)
    }

    fn atomic_mr_min_to_with_context<T: AsFiType, RT: AsFiType>(&self, mr_slice: &MemoryRegionSlice<T>, dest_addr: &MappedAddress, mem_addr: RemoteMemoryAddress<RT>, mapped_key: &MappedMemoryRegionKey, context: &mut Context) -> (r: AtomicCall)
        ensures
            r == (AtomicCall::Atomic { ep: self.ep_fid(), count: mr_slice.data()@.len() as usize, desc: mr_slice.desc_spec()@, dest_addr: dest_addr@, addr: mem_addr@, key: mapped_key@, datatype: T::fi_datatype().raw_value(), op: AtomicOp::Min.raw_value(), context: old(context)@ }),
            *final(context) == *old(context),
    {
        self.atomic_min_to_with_context(mr_slice.as_slice(), Some(mr_slice.desc()), dest_addr, mem_addr, mapped_key, context)
    }

    fn atomic_mr_max_to_with_context<T: AsFiType, RT: AsFiType>(&self, mr_slice: &MemoryRegionSlice<T>, dest_addr: &MappedAddress, mem_addr: RemoteMemoryAddress<RT>, mapped_key: &MappedMemoryRegionKey, context: &mut Context) -> (r: AtomicCall)
        ensures
            r == (AtomicCall::Atomic { ep: self.ep_fid(), count: mr_slice.data()@.len() as usize, desc: mr_slice.desc_spec()@, dest_addr: dest_addr@, addr: mem_addr@, key: mapped_key@, datatype: T::fi_datatype().raw_value(), op: AtomicOp::Max.raw_value(), context: old(context)@ }),
            *final(context) == *old(context),
    {
        self.atomic_max_to_with_context(mr_slice.as_slice(), Some(mr_slice.desc()), dest_addr, mem_addr, mapped_key, context)
    }

    fn atomic_mr_sum_to_with_context<T: AsFiType, RT: AsFiType>(&self, mr_slice: &MemoryRegionSlice<T>, dest_addr: &MappedAddress, mem_addr: RemoteMemoryAddress<RT>, mapped_key: &MappedMemoryRegionKey, context: &mut Context) -> (r: AtomicCall)
        ensures
            r == (AtomicCall::Atomic { ep: self.ep_fid(), count: mr_slice.data()@.len() as usize, desc: mr_slice.desc_spec()@, dest_addr: dest_addr@, addr: mem_addr@, key: mapped_key@, datatype: T::fi_datatype().raw_value(), op: AtomicOp::Sum.raw_value(), context: old(context)@ }),
            *final(context) == *old(context),
    {
        self.atomic_sum_to_with_context(mr_slice.as_slice(), Some(mr_slice.desc()), dest_addr, mem_addr, mapped_key, context)
    }

    fn atomic_mr_prod_to_with_context<T: AsFiType, RT: AsFiType>(&self, mr_slice: &MemoryRegionSlice<T>, dest_addr: &MappedAddress, mem_addr: RemoteMemoryAddress<RT>, mapped_key: &MappedMemoryRegionKey, context: &mut Context) -> (r: AtomicCall)
        ensures
            r == (AtomicCall::Atomic { ep: self.ep_fid(), count: mr_slice.data()@.len() as usize, desc: mr_slice.desc_spec()@, dest_addr: dest_addr@, addr: mem_addr@, key: mapped_key@, datatype: T::fi_datatype().raw_value(), op: AtomicOp::Prod.raw_value(), context: old(context)@ }),
            *final(context) == *old(context),
    {
        self.atomic_prod_to_with_context(mr_slice.as_slice(), Some(mr_slice.desc()), dest_addr, mem_addr, mapped_key, context)
    }

    fn atomic_mr_bor_to_with_context<T: AsFiType, RT: AsFiType>(&self, mr_slice: &MemoryRegionSlice<T>, dest_addr: &MappedAddress, mem_addr: RemoteMemoryAddress<RT>, mapped_key: &MappedMemoryRegionKey, context: &mut Context) -> (r: AtomicCall)
        ensures
            r == (AtomicCall::Atomic { ep: self.ep_fid(), count: mr_slice.data()@.len() as usize, desc: mr_slice.desc_spec()@, dest_addr: dest_addr@, addr: mem_addr@, key: mapped_key@, datatype: T::fi_datatype().raw_value(), op: AtomicOp::Bor.raw_value(), context: old(context)@ }),
            *final(context) == *old(context),
    {
        self.atomic_bor_to_with_context(mr_slice.as_slice(), Some(mr_slice.desc()), dest_addr, mem_addr, mapped_key, context)
    }

    fn atomic_mr_band_to_with_context<T: AsFiType, RT: AsFiType>(&self, mr_slice: &MemoryRegionSlice<T>, dest_addr: &MappedAddress, mem_addr: RemoteMemoryAddress<RT>, mapped_key: &MappedMemoryRegionKey, context: &mut Context) -> (r: AtomicCall)
        ensures
            r == (AtomicCall::Atomic { ep: self.ep_fid(), count: mr_slice.data()@.len() as usize, desc: mr_slice.desc_spec()@, dest_addr: dest_addr@, addr: mem_addr@, key: mapped_key@, datatype: T::fi_datatype().raw_value(), op: AtomicOp::Band.raw_value(), context: old(context)@ }),
            *final(context) == *old(context),
    {
        self.atomic_band_to_with_context(mr_slice.as_slice(), Some(mr_slice.desc()), dest_addr, mem_addr, mapped_key, context)
    }

    fn atomic_mr_bxor_to_with_context<T: AsFiType, RT: AsFiType>(&self, mr_slice: &MemoryRegionSlice<T>, dest_addr: &MappedAddress, mem_addr: RemoteMemoryAddress<RT>, mapped_key: &MappedMemoryRegionKey, context: &mut Context) -> (r: AtomicCall)
        ensures
            r == (AtomicCall::Atomic { ep: self.ep_fid(), count: mr_slice.data()@.len() as usize, desc: mr_slice.desc_spec()@, dest_addr: dest_addr@, addr: mem_addr@, key: mapped_key@, datatype: T::fi_datatype().raw_value(), op: AtomicOp::Bxor.raw_value(), context: old(context)@ }),
            *final(context) == *old(context),
    {
        self.atomic_bxor_to_with_context(mr_slice.as_slice(), Some(mr_slice.desc()), dest_addr, mem_addr, mapped_key, context)
    }

    fn atomic_mr_min_to_triggered<T: AsFiType, RT: AsFiType>(&self, mr_slice: &MemoryRegionSlice<T>, dest_addr: &MappedAddress, mem_addr: RemoteMemoryAddress<RT>, mapped_key: &MappedMemoryRegionKey, context: &mut TriggeredContext) -> (r: AtomicCall)
        ensures
            r == (AtomicCall::Atomic { ep: self.ep_fid(), count: mr_slice.data()@.len() as usize, desc: mr_slice.desc_spec()@, dest_addr: dest_addr@, addr: mem_addr@, key: mapped_key@, datatype: T::fi_datatype().raw_value(), op: AtomicOp::Min.raw_value(), context: old(context)@ }),
            *final(context) == *old(context),
    {
        self.atomic_min_to_triggered(mr_slice.as_slice(), Some(mr_slice.desc()), dest_addr, mem_addr, mapped_key, context)
    }

    fn atomic_mr_max_to_triggered<T: AsFiType, RT: AsFiType>(&self, mr_slice: &MemoryRegionSlice<T>, dest_addr: &MappedAddress, mem_addr: RemoteMemoryAddress<RT>, mapped_key: &MappedMemoryRegionKey, context: &mut TriggeredContext) -> (r: AtomicCall)
        ensures
            r == (AtomicCall::Atomic { ep: self.ep_fid(), count: mr_slice.data()@.len() as usize, desc: mr_slice.desc_spec()@, dest_addr: dest_addr@, addr: mem_addr@, key: mapped_key@, datatype: T::fi_datatype().raw_value(), op: AtomicOp::Max.raw_value(), context: old(context)@ }),
            *final(context) == *old(context),
    {
        self.atomic_max_to_triggered(mr_slice.as_slice(), Some(mr_slice.desc()), dest_addr, mem_addr, mapped_key, context)
    }

    fn atomic_mr_sum_to_triggered<T: AsFiType, RT: AsFiType>(&self, mr_slice: &MemoryRegionSlice<T>, dest_addr: &MappedAddress, mem_addr: RemoteMemoryAddress<RT>, mapped_key: &MappedMemoryRegionKey, context: &mut TriggeredContext) -> (r: AtomicCall)
        ensures
            r == (AtomicCall::Atomic { ep: self.ep_fid(), count: mr_slice.data()@.len() as usize, desc: mr_slice.desc_spec()@, dest_addr: dest_addr@, addr: mem_addr@, key: mapped_key@, datatype: T::fi_datatype().raw_value(), op: AtomicOp::Sum.raw_value(), context: old(context)@ }),
            *final(context) == *old(context),
    {
        self.atomic_sum_to_triggered(mr_slice.as_slice(), Some(mr_slice.desc()), dest_addr, mem_addr, mapped_key, context)
    }

    fn atomic_mr_prod_to_triggered<T: AsFiType, RT: AsFiType>(&self, mr_slice: &MemoryRegionSlice<T>, dest_addr: &MappedAddress, mem_addr: RemoteMemoryAddress<RT>, mapped_key: &MappedMemoryRegionKey, context: &mut TriggeredContext) -> (r: AtomicCall)
        ensures
            r == (AtomicCall::Atomic { ep: self.ep_fid(), count: mr_slice.data()@.len() as usize, desc: mr_slice.desc_spec()@, dest_addr: dest_addr@, addr: mem_addr@, key: mapped_key@, datatype: T::fi_datatype().raw_value(), op: AtomicOp::Prod.raw_value(), context: old(context)@ }),
            *final(context) == *old(context),
    {
        self.atomic_prod_to_triggered(mr_slice.as_slice(), Some(mr_slice.desc()), dest_addr, mem_addr, mapped_key, context)
    }

    fn atomic_mr_bor_to_triggered<T: AsFiType, RT: AsFiType>(&self, mr_slice: &MemoryRegionSlice<T>, dest_addr: &MappedAddress, mem_addr: RemoteMemoryAddress<RT>, mapped_key: &MappedMemoryRegionKey, context: &mut TriggeredContext) -> (r: AtomicCall)
        ensures
            r == (AtomicCall::Atomic { ep: self.ep_fid(), count: mr_slice.data()@.len() as usize, desc: mr_slice.desc_spec()@, dest_addr: dest_addr@, addr: mem_addr@, key: mapped_key@, datatype: T::fi_datatype().raw_value(), op: AtomicOp::Bor.raw_value(), context: old(context)@ }),
            *final(context) == *old(context),
    {
        self.atomic_bor_to_triggered(mr_slice.as_slice(), Some(mr_slice.desc()), dest_addr, mem_addr, mapped_key, context)
    }

    fn atomic_mr_band_to_triggered<T: AsFiType, RT: AsFiType>(&self, mr_slice: &MemoryRegionSlice<T>, dest_addr: &MappedAddress, mem_addr: RemoteMemoryAddress<RT>, mapped_key: &MappedMemoryRegionKey, context: &mut TriggeredContext) -> (r: AtomicCall)
        ensures
            r == (AtomicCall::Atomic { ep: self.ep_fid(), count: mr_slice.data()@.len() as usize, desc: mr_slice.desc_spec()@, dest_addr: dest_addr@, addr: mem_addr@, key: mapped_key@, datatype: T::fi_datatype().raw_value(), op: AtomicOp::Band.raw_value(), context: old(context)@ }),
            *final(context) == *old(context),
    {
        self.atomic_band_to_triggered(mr_slice.as_slice(), Some(mr_slice.desc()), dest_addr, mem_addr, mapped_key, context)
    }

    fn atomic_mr_bxor_to_triggered<T: AsFiType, RT: AsFiType>(&self, mr_slice: &MemoryRegionSlice<T>, dest_addr: &MappedAddress, mem_addr: RemoteMemoryAddress<RT>, mapped_key: &MappedMemoryRegionKey, context: &mut TriggeredContext) -> (r: AtomicCall)
        ensures
            r == (AtomicCall::Atomic { ep: self.ep_fid(), count: mr_slice.data()@.len() as usize, desc: mr_slice.desc_spec()@, dest_addr: dest_addr@, addr: mem_addr@, key: mapped_key@, datatype: T::fi_datatype().raw_value(), op: AtomicOp::Bxor.raw_value(), context: old(context)@ }),
            *final(context) == *old(context),
    {
        self.atomic_bxor_to_triggered(mr_slice.as_slice(), Some(mr_slice.desc()), dest_addr, mem_addr, mapped_key, context)
    }

    fn atomic_mr_inject_min_to<T: AsFiType, RT: AsFiType>(&self, mr_slice: &MemoryRegionSlice<T>, dest_addr: &MappedAddress, mem_addr: RemoteMemoryAddress<RT>, mapped_key: &MappedMemoryRegionKey) -> (r: AtomicCall)
        ensures
            r == (AtomicCall::InjectAtomic { ep: self.ep_fid(), count: mr_slice.data()@.len() as usize, dest_addr: dest_addr@, addr: mem_addr@, key: mapped_key@, datatype: T::fi_datatype().raw_value(), op: AtomicOp::Min.raw_value() }),
    {
        self.atomic_inject_min_to(mr_slice.as_slice(), dest_addr, mem_addr, mapped_key)
    }

    fn atomic_mr_inject_max_to<T: AsFiType, RT: AsFiType>(&self, mr_slice: &MemoryRegionSlice<T>, dest_addr: &MappedAddress, mem_addr: RemoteMemoryAddress<RT>, mapped_key: &MappedMemoryRegionKey) -> (r: AtomicCall)
        ensures
            r == (AtomicCall::InjectAtomic { ep: self.ep_fid(), count: mr_slice.data()@.len() as usize, dest_addr: dest_addr@, addr: mem_addr@, key: mapped_key@, datatype: T::fi_datatype().raw_value(), op: AtomicOp::Max.raw_value() }),
    {
        self.atomic_inject_max_to(mr_slice.as_slice(), dest_addr, mem_addr, mapped_key)
    }

    fn atomic_mr_inject_sum_to<T: AsFiType, RT: AsFiType>(&self, mr_slice: &MemoryRegionSlice<T>, dest_addr: &MappedAddress, mem_addr: RemoteMemoryAddress<RT>, mapped_key: &MappedMemoryRegionKey) -> (r: AtomicCall)
        ensures
            r == (AtomicCall::InjectAtomic { ep: self.ep_fid(), count: mr_slice.data()@.len() as usize, dest_addr: dest_addr@, addr: mem_addr@, key: mapped_key@, datatype: T::fi_datatype().raw_value(), op: AtomicOp::Sum.raw_value() }),
    {
        self.atomic_inject_sum_to(mr_slice.as_slice(), dest_addr, mem_addr, mapped_key)
    }

    fn atomic_mr_inject_prod_to<T: AsFiType, RT: AsFiType>(&self, mr_slice: &MemoryRegionSlice<T>, dest_addr: &MappedAddress, mem_addr: RemoteMemoryAddress<RT>, mapped_key: &MappedMemoryRegionKey) -> (r: AtomicCall)
        ensures
            r == (AtomicCall::InjectAtomic { ep: self.ep_fid(), count: mr_slice.data()@.len() as usize, dest_addr: dest_addr@, addr: mem_addr@, key: mapped_key@, datatype: T::fi_datatype().raw_value(), op: AtomicOp::Prod.raw_value() }),
    {
        self.atomic_inject_prod_to(mr_slice.as_slice(), dest_addr, mem_addr, mapped_key)
    }

    fn atomic_mr_inject_bor_to<T: AsFiType, RT: AsFiType>(&self, mr_slice: &MemoryRegionSlice<T>, dest_addr: &MappedAddress, mem_addr: RemoteMemoryAddress<RT>, mapped_key: &MappedMemoryRegionKey) -> (r: AtomicCall)
        ensures
            r == (AtomicCall::InjectAtomic { ep: self.ep_fid(), count: mr_slice.data()@.len() as usize, dest_addr: dest_addr@, addr: mem_addr@, key: mapped_key@, datatype: T::fi_datatype().raw_value(), op: AtomicOp::Bor.raw_value() }),
    {
        self.atomic_inject_bor_to(mr_slice.as_slice(), dest_addr, mem_addr, mapped_key)
    }

    fn atomic_mr_inject_band_to<T: AsFiType, RT: AsFiType>(&self, mr_slice: &MemoryRegionSlice<T>, dest_addr: &MappedAddress, mem_addr: RemoteMemoryAddress<RT>, mapped_key: &MappedMemoryRegionKey) -> (r: AtomicCall)
        ensures
            r == (AtomicCall::InjectAtomic { ep: self.ep_fid(), count: mr_slice.data()@.len() as usize, dest_addr: dest_addr@, addr: mem_addr@, key: mapped_key@, datatype: T::fi_datatype().raw_value(), op: AtomicOp::Band.raw_value() }),
    {
        self.atomic_inject_band_to(mr_slice.as_slice(), dest_addr, mem_addr, mapped_key)
    }

    fn atomic_mr_inject_bxor_to<T: AsFiType, RT: AsFiType>(&self, mr_slice: &MemoryRegionSlice<T>, dest_addr: &MappedAddress, mem_addr: RemoteMemoryAddress<RT>, mapped_key: &MappedMemoryRegionKey) -> (r: AtomicCall)
        ensures
            r == (AtomicCall::InjectAtomic { ep: self.ep_fid(), count: mr_slice.data()@.len() as usize, dest_addr: dest_addr@, addr: mem_addr@, key: mapped_key@, datatype: T::fi_datatype().raw_value(), op: AtomicOp::Bxor.raw_value() }),
    {
        self.atomic_inject_bxor_to(mr_slice.as_slice(), dest_addr, mem_addr, mapped_key)
    }
}

impl AtomicWriteEpMrSlice for ConnectionlessEndpoint {}

/// Atomic updates on a connected endpoint whose operand lies in a registered memory region.
pub trait ConnectedAtomicWriteEpMrSlice: ConnectedAtomicWriteEp {
    fn atomic_mr_min<T: AsFiType, RT: AsFiType>(&self, mr_slice: &MemoryRegionSlice<T>, mem_addr: RemoteMemoryAddress<RT>, mapped_key: &MappedMemoryRegionKey) -> (r: AtomicCall)
        ensures
            r == (AtomicCall::Atomic { ep: self.ep_fid(), count: mr_slice.data()@.len() as usize, desc: mr_slice.desc_spec()@, dest_addr: FI_ADDR_UNSPEC, addr: mem_addr@, key: mapped_key@, datatype: T::fi_datatype().raw_value(), op: AtomicOp::Min.raw_value(), context: 0 }),
    {
        self.atomic_min(mr_slice.as_slice(), Some(mr_slice.desc()), mem_addr, mapped_key)
    }

    fn atomic_mr_max<T: AsFiType, RT: AsFiType>(&self, mr_slice: &MemoryRegionSlice<T>, mem_addr: RemoteMemoryAddress<RT>, mapped_key: &MappedMemoryRegionKey) -> (r: AtomicCall)
        ensures
            r == (AtomicCall::Atomic { ep: self.ep_fid(), count: mr_slice.data()@.len() as usize, desc: mr_slice.desc_spec()@, dest_addr: FI_ADDR_UNSPEC, addr: mem_addr@, key: mapped_key@, datatype: T::fi_datatype().raw_value(), op: AtomicOp::Max.raw_value(), context: 0 }),
    {
        self.atomic_max(mr_slice.as_slice(), Some(mr_slice.desc()), mem_addr, mapped_key)
    }

    fn atomic_mr_sum<T: AsFiType, RT: AsFiType>(&self, mr_slice: &MemoryRegionSlice<T>, mem_addr: RemoteMemoryAddress<RT>, mapped_key: &MappedMemoryRegionKey) -> (r: AtomicCall)
        ensures
            r == (AtomicCall::Atomic { ep: self.ep_fid(), count: mr_slice.data()@.len() as usize, desc: mr_slice.desc_spec()@, dest_addr: FI_ADDR_UNSPEC, addr: mem_addr@, key: mapped_key@, datatype: T::fi_datatype().raw_value(), op: AtomicOp::Sum.raw_value(), context: 0 }),
    {
        self.atomic_sum(mr_slice.as_slice(), Some(mr_slice.desc()), mem_addr, mapped_key)
    }

    fn atomic_mr_prod<T: AsFiType, RT: AsFiType>(&self, mr_slice: &MemoryRegionSlice<T>, mem_addr: RemoteMemoryAddress<RT>, mapped_key: &MappedMemoryRegionKey) -> (r: AtomicCall)
        ensures
            r == (AtomicCall::Atomic { ep: self.ep_fid(), count: mr_slice.data()@.len() as usize, desc: mr_slice.desc_spec()@, dest_addr: FI_ADDR_UNSPEC, addr: mem_addr@, key: mapped_key@, datatype: T::fi_datatype().raw_value(), op: AtomicOp::Prod.raw_value(), context: 0 }),
    {
        self.atomic_prod(mr_slice.as_slice(), Some(mr_slice.desc()), mem_addr, mapped_key)
    }

    fn atomic_mr_bor<T: AsFiType, RT: AsFiType>(&self, mr_slice: &MemoryRegionSlice<T>, mem_addr: RemoteMemoryAddress<RT>, mapped_key: &MappedMemoryRegionKey) -> (r: AtomicCall)
        ensures
            r == (AtomicCall::Atomic { ep: self.ep_fid(), count: mr_slice.data()@.len() as usize, desc: mr_slice.desc_spec()@, dest_addr: FI_ADDR_UNSPEC, addr: mem_addr@, key: mapped_key@, datatype: T::fi_datatype().raw_value(), op: AtomicOp::Bor.raw_value(), context: 0 }),
    {
        self.atomic_bor(mr_slice.as_slice(), Some(mr_slice.desc()), mem_addr, mapped_key)
    }

    fn atomic_mr_band<T: AsFiType, RT: AsFiType>(&self, mr_slice: &MemoryRegionSlice<T>, mem_addr: RemoteMemoryAddress<RT>, mapped_key: &MappedMemoryRegionKey) -> (r: AtomicCall)
        ensures
            r == (AtomicCall::Atomic { ep: self.ep_fid(), count: mr_slice.data()@.len() as usize, desc: mr_slice.desc_spec()@, dest_addr: FI_ADDR_UNSPEC, addr: mem_addr@, key: mapped_key@, datatype: T::fi_datatype().raw_value(), op: AtomicOp::Band.raw_value(), context: 0 }),
    {
        self.atomic_band(mr_slice.as_slice(), Some(mr_slice.desc()), mem_addr, mapped_key)
    }

    fn atomic_mr_bxor<T: AsFiType, RT: AsFiType>(&self, mr_slice: &MemoryRegionSlice<T>, mem_addr: RemoteMemoryAddress<RT>, mapped_key: &MappedMemoryRegionKey) -> (r: AtomicCall)
        ensures
            r == (AtomicCall::Atomic { ep: self.ep_fid(), count: mr_slice.data()@.len() as usize, desc: mr_slice.desc_spec()@, dest_addr: FI_ADDR_UNSPEC, addr: mem_addr@, key: mapped_key@, datatype: T::fi_datatype().raw_value(), op: AtomicOp::Bxor.raw_value(), context: 0 }),
    {
        self.atomic_bxor(mr_slice.as_slice(), Some(mr_slice.desc()), mem_addr, mapped_key)
    }

    fn atomic_mr_min_with_context<T: AsFiType, RT: AsFiType>(&self, mr_slice: &MemoryRegionSlice<T>, mem_addr: RemoteMemoryAddress<RT>, mapped_key: &MappedMemoryRegionKey, context: &mut Context) -> (r: AtomicCall)
        ensures
            r == (AtomicCall::Atomic { ep: self.ep_fid(), count: mr_slice.data()@.len() as usize, desc: mr_slice.desc_spec()@, dest_addr: FI_ADDR_UNSPEC, addr: mem_addr@, key: mapped_key@, datatype: T::fi_datatype().raw_value(), op: AtomicOp::Min.raw_value(), context: old(context)@ }),
            *final(context) == *old(context),
    {
        self.atomic_min_with_context(mr_slice.as_slice(), Some(mr_slice.desc()), mem_addr, mapped_key, context)
    }

    fn atomic_mr_max_with_context<T: AsFiType, RT: AsFiType>(&self, mr_slice: &MemoryRegionSlice<T>, mem_addr: RemoteMemoryAddress<RT>, mapped_key: &MappedMemoryRegionKey, context: &mut Context) -> (r: AtomicCall)
        ensures
            r == (AtomicCall::Atomic { ep: self.ep_fid(), count: mr_slice.data()@.len() as usize, desc: mr_slice.desc_spec()@, dest_addr: FI_ADDR_UNSPEC, addr: mem_addr@, key: mapped_key@, datatype: T::fi_datatype().raw_value(), op: AtomicOp::Max.raw_value(), context: old(context)@ }),
            *final(context) == *old(context),
    {
        self.atomic_max_with_context(mr_slice.as_slice(), Some(mr_slice.desc()), mem_addr, mapped_key, context)
    }

    fn atomic_mr_sum_with_context<T: AsFiType, RT: AsFiType>(&self, mr_slice: &MemoryRegionSlice<T>, mem_addr: RemoteMemoryAddress<RT>, mapped_key: &MappedMemoryRegionKey, context: &mut Context) -> (r: AtomicCall)
        ensures
            r == (AtomicCall::Atomic { ep: self.ep_fid(), count: mr_slice.data()@.len() as usize, desc: mr_slice.desc_spec()@, dest_addr: FI_ADDR_UNSPEC, addr: mem_addr@, key: mapped_key@, datatype: T::fi_datatype().raw_value(), op: AtomicOp::Sum.raw_value(), context: old(context)@ }),
            *final(context) == *old(context),
    {
        self.atomic_sum_with_context(mr_slice.as_slice(), Some(mr_slice.desc()), mem_addr, mapped_key, context)
    }

    fn atomic_mr_prod_with_context<T: AsFiType, RT: AsFiType>(&self, mr_slice: &MemoryRegionSlice<T>, mem_addr: RemoteMemoryAddress<RT>, mapped_key: &MappedMemoryRegionKey, context: &mut Context) -> (r: AtomicCall)
        ensures
            r == (AtomicCall::Atomic { ep: self.ep_fid(), count: mr_slice.data()@.len() as usize, desc: mr_slice.desc_spec()@, dest_addr: FI_ADDR_UNSPEC, addr: mem_addr@, key: mapped_key@, datatype: T::fi_datatype().raw_value(), op: AtomicOp::Prod.raw_value(), context: old(context)@ }),
            *final(context) == *old(context),
    {
        self.atomic_prod_with_context(mr_slice.as_slice(), Some(mr_slice.desc()), mem_addr, mapped_key, context)
    }

    fn atomic_mr_bor_with_context<T: AsFiType, RT: AsFiType>(&self, mr_slice: &MemoryRegionSlice<T>, mem_addr: RemoteMemoryAddress<RT>, mapped_key: &MappedMemoryRegionKey, context: &mut Context) -> (r: AtomicCall)
        ensures
            r == (AtomicCall::Atomic { ep: self.ep_fid(), count: mr_slice.data()@.len() as usize, desc: mr_slice.desc_spec()@, dest_addr: FI_ADDR_UNSPEC, addr: mem_addr@, key: mapped_key@, datatype: T::fi_datatype().raw_value(), op: AtomicOp::Bor.raw_value(), context: old(context)@ }),
            *final(context) == *old(context),
    {
        self.atomic_bor_with_context(mr_slice.as_slice(), Some(mr_slice.desc()), mem_addr, mapped_key, context)
    }

    fn atomic_mr_band_with_context<T: AsFiType, RT: AsFiType>(&self, mr_slice: &MemoryRegionSlice<T>, mem_addr: RemoteMemoryAddress<RT>, mapped_key: &MappedMemoryRegionKey, context: &mut Context) -> (r: AtomicCall)
        ensures
            r == (AtomicCall::Atomic { ep: self.ep_fid(), count: mr_slice.data()@.len() as usize, desc: mr_slice.desc_spec()@, dest_addr: FI_ADDR_UNSPEC, addr: mem_addr@, key: mapped_key@, datatype: T::fi_datatype().raw_value(), op: AtomicOp::Band.raw_value(), context: old(context)@ }),
            *final(context) == *old(context),
    {
        self.atomic_band_with_context(mr_slice.as_slice(), Some(mr_slice.desc()), mem_addr, mapped_key, context)
    }

    fn atomic_mr_bxor_with_context<T: AsFiType, RT: AsFiType>(&self, mr_slice: &MemoryRegionSlice<T>, mem_addr: RemoteMemoryAddress<RT>, mapped_key: &MappedMemoryRegionKey, context: &mut Context) -> (r: AtomicCall)
        ensures
            r == (AtomicCall::Atomic { ep: self.ep_fid(), count: mr_slice.data()@.len() as usize, desc: mr_slice.desc_spec()@, dest_addr: FI_ADDR_UNSPEC, addr: mem_addr@, key: mapped_key@, datatype: T::fi_datatype().raw_value(), op: AtomicOp::Bxor.raw_value(), context: old(context)@ }),
            *final(context) == *old(context),
    {
        self.atomic_bxor_with_context(mr_slice.as_slice(), Some(mr_slice.desc()), mem_addr, mapped_key, context)
    }

    fn atomic_mr_min_triggered<T: AsFiType, RT: AsFiType>(&self, mr_slice: &MemoryRegionSlice<T>, mem_addr: RemoteMemoryAddress<RT>, mapped_key: &MappedMemoryRegionKey, context: &mut TriggeredContext) -> (r: AtomicCall)
        ensures
            r == (AtomicCall::Atomic { ep: self.ep_fid(), count: mr_slice.data()@.len() as usize, desc: mr_slice.desc_spec()@, dest_addr: FI_ADDR_UNSPEC, addr: mem_addr@, key: mapped_key@, datatype: T::fi_datatype().raw_value(), op: AtomicOp::Min.raw_value(), context: old(context)@ }),
            *final(context) == *old(context),
    {
        self.atomic_min_triggered(mr_slice.as_slice(), Some(mr_slice.desc()), mem_addr, mapped_key, context)
    }

    fn atomic_mr_max_triggered<T: AsFiType, RT: AsFiType>(&self, mr_slice: &MemoryRegionSlice<T>, mem_addr: RemoteMemoryAddress<RT>, mapped_key: &MappedMemoryRegionKey, context: &mut TriggeredContext) -> (r: AtomicCall)
        ensures
            r == (AtomicCall::Atomic { ep: self.ep_fid(), count: mr_slice.data()@.len() as usize, desc: mr_slice.desc_spec()@, dest_addr: FI_ADDR_UNSPEC, addr: mem_addr@, key: mapped_key@, datatype: T::fi_datatype().raw_value(), op: AtomicOp::Max.raw_value(), context: old(context)@ }),
            *final(context) == *old(context),
    {
        self.atomic_max_triggered(mr_slice.as_slice(), Some(mr_slice.desc()), mem_addr, mapped_key, context)
    }

    fn atomic_mr_sum_triggered<T: AsFiType, RT: AsFiType>(&self, mr_slice: &MemoryRegionSlice<T>, mem_addr: RemoteMemoryAddress<RT>, mapped_key: &MappedMemoryRegionKey, context: &mut TriggeredContext) -> (r: AtomicCall)
        ensures
            r == (AtomicCall::Atomic { ep: self.ep_fid(), count: mr_slice.data()@.len() as usize, desc: mr_slice.desc_spec()@, dest_addr: FI_ADDR_UNSPEC, addr: mem_addr@, key: mapped_key@, datatype: T::fi_datatype().raw_value(), op: AtomicOp::Sum.raw_value(), context: old(context)@ }),
            *final(context) == *old(context),
    {
        self.atomic_sum_triggered(mr_slice.as_slice(), Some(mr_slice.desc()), mem_addr, mapped_key, context)
    }

    fn atomic_mr_prod_triggered<T: AsFiType, RT: AsFiType>(&self, mr_slice: &MemoryRegionSlice<T>, mem_addr: RemoteMemoryAddress<RT>, mapped_key: &MappedMemoryRegionKey, context: &mut TriggeredContext) -> (r: AtomicCall)
        ensures
            r == (AtomicCall::Atomic { ep: self.ep_fid(), count: mr_slice.data()@.len() as usize, desc: mr_slice.desc_spec()@, dest_addr: FI_ADDR_UNSPEC, addr: mem_addr@, key: mapped_key@, datatype: T::fi_datatype().raw_value(), op: AtomicOp::Prod.raw_value(), context: old(context)@ }),
            *final(context) == *old(context),
    {
        self.atomic_prod_triggered(mr_slice.as_slice(), Some(mr_slice.desc()), mem_addr, mapped_key, context)
    }

    fn atomic_mr_bor_triggered<T: AsFiType, RT: AsFiType>(&self, mr_slice: &MemoryRegionSlice<T>, mem_addr: RemoteMemoryAddress<RT>, mapped_key: &MappedMemoryRegionKey, context: &mut TriggeredContext) -> (r: AtomicCall)
        ensures
            r == (AtomicCall::Atomic { ep: self.ep_fid(), count: mr_slice.data()@.len() as usize, desc: mr_slice.desc_spec()@, dest_addr: FI_ADDR_UNSPEC, addr: mem_addr@, key: mapped_key@, datatype: T::fi_datatype().raw_value(), op: AtomicOp::Bor.raw_value(), context: old(context)@ }),
            *final(context) == *old(context),
    {
        self.atomic_bor_triggered(mr_slice.as_slice(), Some(mr_slice.desc()), mem_addr, mapped_key, context)
    }

    fn atomic_mr_band_triggered<T: AsFiType, RT: AsFiType>(&self, mr_slice: &MemoryRegionSlice<T>, mem_addr: RemoteMemoryAddress<RT>, mapped_key: &MappedMemoryRegionKey, context: &mut TriggeredContext) -> (r: AtomicCall)
        ensures
            r == (AtomicCall::Atomic { ep: self.ep_fid(), count: mr_slice.data()@.len() as usize, desc: mr_slice.desc_spec()@, dest_addr: FI_ADDR_UNSPEC, addr: mem_addr@, key: mapped_key@, datatype: T::fi_datatype().raw_value(), op: AtomicOp::Band.raw_value(), context: old(context)@ }),
            *final(context) == *old(context),
    {
        self.atomic_band_triggered(mr_slice.as_slice(), Some(mr_slice.desc()), mem_addr, mapped_key, context)
    }

    fn atomic_mr_bxor_triggered<T: AsFiType, RT: AsFiType>(&self, mr_slice: &MemoryRegionSlice<T>, mem_addr: RemoteMemoryAddress<RT>, mapped_key: &MappedMemoryRegionKey, context: &mut TriggeredContext) -> (r: AtomicCall)
        ensures
            r == (AtomicCall::Atomic { ep: self.ep_fid(), count: mr_slice.data()@.len() as usize, desc: mr_slice.desc_spec()@, dest_addr: FI_ADDR_UNSPEC, addr: mem_addr@, key: mapped_key@, datatype: T::fi_datatype().raw_value(), op: AtomicOp::Bxor.raw_value(), context: old(context)@ }),
            *final(context) == *old(context),
    {
        self.atomic_bxor_triggered(mr_slice.as_slice(), Some(mr_slice.desc()), mem_addr, mapped_key, context)
    }

    fn atomic_mr_inject_min<T: AsFiType, RT: AsFiType>(&self, mr_slice: &MemoryRegionSlice<T>, mem_addr: RemoteMemoryAddress<RT>, mapped_key: &MappedMemoryRegionKey) -> (r: AtomicCall)
        ensures
            r == (AtomicCall::InjectAtomic { ep: self.ep_fid(), count: mr_slice.data()@.len() as usize, dest_addr: FI_ADDR_UNSPEC, addr: mem_addr@, key: mapped_key@, datatype: T::fi_datatype().raw_value(), op: AtomicOp::Min.raw_value() }),
    {
        self.atomic_inject_min(mr_slice.as_slice(), mem_addr, mapped_key)
    }

    fn atomic_mr_inject_max<T: AsFiType, RT: AsFiType>(&self, mr_slice: &MemoryRegionSlice<T>, mem_addr: RemoteMemoryAddress<RT>, mapped_key: &MappedMemoryRegionKey) -> (r: AtomicCall)
        ensures
            r == (AtomicCall::InjectAtomic { ep: self.ep_fid(), count: mr_slice.data()@.len() as usize, dest_addr: FI_ADDR_UNSPEC, addr: mem_addr@, key: mapped_key@, datatype: T::fi_datatype().raw_value(), op: AtomicOp::Max.raw_value() }),
    {
        self.atomic_inject_max(mr_slice.as_slice(), mem_addr, mapped_key)
    }

    fn atomic_mr_inject_sum<T: AsFiType, RT: AsFiType>(&self, mr_slice: &MemoryRegionSlice<T>, mem_addr: RemoteMemoryAddress<RT>, mapped_key: &MappedMemoryRegionKey) -> (r: AtomicCall)
        ensures
            r == (AtomicCall::InjectAtomic { ep: self.ep_fid(), count: mr_slice.data()@.len() as usize, dest_addr: FI_ADDR_UNSPEC, addr: mem_addr@, key: mapped_key@, datatype: T::fi_datatype().raw_value(), op: AtomicOp::Sum.raw_value() }),
    {
        self.atomic_inject_sum(mr_slice.as_slice(), mem_addr, mapped_key)
    }

    fn atomic_mr_inject_prod<T: AsFiType, RT: AsFiType>(&self, mr_slice: &MemoryRegionSlice<T>, mem_addr: RemoteMemoryAddress<RT>, mapped_key: &MappedMemoryRegionKey) -> (r: AtomicCall)
        ensures
            r == (AtomicCall::InjectAtomic { ep: self.ep_fid(), count: mr_slice.data()@.len() as usize, dest_addr: FI_ADDR_UNSPEC, addr: mem_addr@, key: mapped_key@, datatype: T::fi_datatype().raw_value(), op: AtomicOp::Prod.raw_value() }),
    {
        self.atomic_inject_prod(mr_slice.as_slice(), mem_addr, mapped_key)
    }

    fn atomic_mr_inject_bor<T: AsFiType, RT: AsFiType>(&self, mr_slice: &MemoryRegionSlice<T>, mem_addr: RemoteMemoryAddress<RT>, mapped_key: &MappedMemoryRegionKey) -> (r: AtomicCall)
        ensures
            r == (AtomicCall::InjectAtomic { ep: self.ep_fid(), count: mr_slice.data()@.len() as usize, dest_addr: FI_ADDR_UNSPEC, addr: mem_addr@, key: mapped_key@, datatype: T::fi_datatype().raw_value(), op: AtomicOp::Bor.raw_value() }),
    {
        self.atomic_inject_bor(mr_slice.as_slice(), mem_addr, mapped_key)
    }

    fn atomic_mr_inject_band<T: AsFiType, RT: AsFiType>(&self, mr_slice: &MemoryRegionSlice<T>, mem_addr: RemoteMemoryAddress<RT>, mapped_key: &MappedMemoryRegionKey) -> (r: AtomicCall)
        ensures
            r == (AtomicCall::InjectAtomic { ep: self.ep_fid(), count: mr_slice.data()@.len() as usize, dest_addr: FI_ADDR_UNSPEC, addr: mem_addr@, key: mapped_key@, datatype: T::fi_datatype().raw_value(), op: AtomicOp::Band.raw_value() }),
    {
        self.atomic_inject_band(mr_slice.as_slice(), mem_addr, mapped_key)
    }

    fn atomic_mr_inject_bxor<T: AsFiType, RT: AsFiType>(&self, mr_slice: &MemoryRegionSlice<T>, mem_addr: RemoteMemoryAddress<RT>, mapped_key: &MappedMemoryRegionKey) -> (r: AtomicCall)
        ensures
            r == (AtomicCall::InjectAtomic { ep: self.ep_fid(), count: mr_slice.data()@.len() as usize, dest_addr: FI_ADDR_UNSPEC, addr: mem_addr@, key: mapped_key@, datatype: T::fi_datatype().raw_value(), op: AtomicOp::Bxor.raw_value() }),
    {
        self.atomic_inject_bxor(mr_slice.as_slice(), mem_addr, mapped_key)
    }
}

impl ConnectedAtomicWriteEpMrSlice for ConnectedEndpoint {}

/// Atomic updates of a remote run of values named by its address and key.
pub trait AtomicWriteRemoteMemAddrSliceEp: AtomicWriteEp {
    fn atomic_min_mr_slice_to<T: AsFiType>(&self, buf: &[T], desc: Option<MemoryRegionDesc>, dest_addr: &MappedAddress, dest_slice: &RemoteMemAddrSliceMut<T>) -> (r: AtomicCall)
        ensures
            r == (AtomicCall::Atomic { ep: self.ep_fid(), count: buf@.len() as usize, desc: owned_desc_value(desc), dest_addr: dest_addr@, addr: dest_slice.mem_address_spec(), key: dest_slice.key_spec(), datatype: T::fi_datatype().raw_value(), op: AtomicOp::Min.raw_value(), context: 0 }),
    {
        self.atomic_min_to(buf, desc, dest_addr, dest_slice.mem_address(), dest_slice.key())
    }

    fn atomic_max_mr_slice_to<T: AsFiType>(&self, buf: &[T], desc: Option<MemoryRegionDesc>, dest_addr: &MappedAddress, dest_slice: &RemoteMemAddrSliceMut<T>) -> (r: AtomicCall)
        ensures
            r == (AtomicCall::Atomic { ep: self.ep_fid(), count: buf@.len() as usize, desc: owned_desc_value(desc), dest_addr: dest_addr@, addr: dest_slice.mem_address_spec(), key: dest_slice.key_spec(), datatype: T::fi_datatype().raw_value(), op: AtomicOp::Max.raw_value(), context: 0 }),
    {
        self.atomic_max_to(buf, desc, dest_addr, dest_slice.mem_address(), dest_slice.key())
    }

    fn atomic_sum_mr_slice_to<T: AsFiType>(&self, buf: &[T], desc: Option<MemoryRegionDesc>, dest_addr: &MappedAddress, dest_slice: &RemoteMemAddrSliceMut<T>) -> (r: AtomicCall)
        ensures
            r == (AtomicCall::Atomic { ep: self.ep_fid(), count: buf@.len() as usize, desc: owned_desc_value(desc), dest_addr: dest_addr@, addr: dest_slice.mem_address_spec(), key: dest_slice.key_spec(), datatype: T::fi_datatype().raw_value(), op: AtomicOp::Sum.raw_value(), context: 0 }),
    {
        self.atomic_sum_to(buf, desc, dest_addr, dest_slice.mem_address(), dest_slice.key())
    }

    fn atomic_prod_mr_slice_to<T: AsFiType>(&self, buf: &[T], desc: Option<MemoryRegionDesc>, dest_addr: &MappedAddress, dest_slice: &RemoteMemAddrSliceMut<T>) -> (r: AtomicCall)
        ensures
            r == (AtomicCall::Atomic { ep: self.ep_fid(), count: buf@.len() as usize, desc: owned_desc_value(desc), dest_addr: dest_addr@, addr: dest_slice.mem_address_spec(), key: dest_slice.key_spec(), datatype: T::fi_datatype().raw_value(), op: AtomicOp::Prod.raw_value(), context: 0 }),
    {
        self.atomic_prod_to(buf, desc, dest_addr, dest_slice.mem_address(), dest_slice.key())
    }

    fn atomic_bor_mr_slice_to<T: AsFiType>(&self, buf: &[T], desc: Option<MemoryRegionDesc>, dest_addr: &MappedAddress, dest_slice: &RemoteMemAddrSliceMut<T>) -> (r: AtomicCall)
        ensures
            r == (AtomicCall::Atomic { ep: self.ep_fid(), count: buf@.len() as usize, desc: owned_desc_value(desc), dest_addr: dest_addr@, addr: dest_slice.mem_address_spec(), key: dest_slice.key_spec(), datatype: T::fi_datatype().raw_value(), op: AtomicOp::Bor.raw_value(), context: 0 }),
    {
        self.atomic_bor_to(buf, desc, dest_addr, dest_slice.mem_address(), dest_slice.key())
    }

    fn atomic_band_mr_slice_to<T: AsFiType>(&self, buf: &[T], desc: Option<MemoryRegionDesc>, dest_addr: &MappedAddress, dest_slice: &RemoteMemAddrSliceMut<T>) -> (r: AtomicCall)
        ensures
            r == (AtomicCall::Atomic { ep: self.ep_fid(), count: buf@.len() as usize, desc: owned_desc_value(desc), dest_addr: dest_addr@, addr: dest_slice.mem_address_spec(), key: dest_slice.key_spec(), datatype: T::fi_datatype().raw_value(), op: AtomicOp::Band.raw_value(), context: 0 }),
    {
        self.atomic_band_to(buf, desc, dest_addr, dest_slice.mem_address(), dest_slice.key())
    }

    fn atomic_bxor_mr_slice_to<T: AsFiType>(&self, buf: &[T], desc: Option<MemoryRegionDesc>, dest_addr: &MappedAddress, dest_slice: &RemoteMemAddrSliceMut<T>) -> (r: AtomicCall)
        ensures
            r == (AtomicCall::Atomic { ep: self.ep_fid(), count: buf@.len() as usize, desc: owned_desc_value(desc), dest_addr: dest_addr@, addr: dest_slice.mem_address_spec(), key: dest_slice.key_spec(), datatype: T::fi_datatype().raw_value(), op: AtomicOp::Bxor.raw_value(), context: 0 }),
    {
        self.atomic_bxor_to(buf, desc, dest_addr, dest_slice.mem_address(), dest_slice.key())
    }

    fn atomic_lor_mr_slice_to(&self, buf: &[bool], desc: Option<MemoryRegionDesc>, dest_addr: &MappedAddress, dest_slice: &RemoteMemAddrSliceMut<bool>) -> (r: AtomicCall)
        ensures
            r == (AtomicCall::Atomic { ep: self.ep_fid(), count: buf@.len() as usize, desc: owned_desc_value(desc), dest_addr: dest_addr@, addr: dest_slice.mem_address_spec(), key: dest_slice.key_spec(), datatype: <bool as AsFiType>::fi_datatype().raw_value(), op: AtomicOp::Lor.raw_value(), context: 0 }),
    {
        self.atomic_lor_to(buf, desc, dest_addr, dest_slice.mem_address(), dest_slice.key())
    }

    fn atomic_land_mr_slice_to(&self, buf: &[bool], desc: Option<MemoryRegionDesc>, dest_addr: &MappedAddress, dest_slice: &RemoteMemAddrSliceMut<bool>) -> (r: AtomicCall)
        ensures
            r == (AtomicCall::Atomic { ep: self.ep_fid(), count: buf@.len() as usize, desc: owned_desc_value(desc), dest_addr: dest_addr@, addr: dest_slice.mem_address_spec(), key: dest_slice.key_spec(), datatype: <bool as AsFiType>::fi_datatype().raw_value(), op: AtomicOp::Land.raw_value(), context: 0 }),
    {
        self.atomic_land_to(buf, desc, dest_addr, dest_slice.mem_address(), dest_slice.key())
    }

    fn atomic_lxor_mr_slice_to(&self, buf: &[bool], desc: Option<MemoryRegionDesc>, dest_addr: &MappedAddress, dest_slice: &RemoteMemAddrSliceMut<bool>) -> (r: AtomicCall)
        ensures
            r == (AtomicCall::Atomic { ep: self.ep_fid(), count: buf@.len() as usize, desc: owned_desc_value(desc), dest_addr: dest_addr@, addr: dest_slice.mem_address_spec(), key: dest_slice.key_spec(), datatype: <bool as AsFiType>::fi_datatype().raw_value(), op: AtomicOp::Lxor.raw_value(), context: 0 }),
    {
        self.atomic_lxor_to(buf, desc, dest_addr, dest_slice.mem_address(), dest_slice.key())
    }

    fn atomic_min_mr_slice_to_with_context<T: AsFiType>(&self, buf: &[T], desc: Option<MemoryRegionDesc>, dest_addr: &MappedAddress, dest_slice: &RemoteMemAddrSliceMut<T>, context: &mut Context) -> (r: AtomicCall)
        ensures
            r == (AtomicCall::Atomic { ep: self.ep_fid(), count: buf@.len() as usize, desc: owned_desc_value(desc), dest_addr: dest_addr@, addr: dest_slice.mem_address_spec(), key: dest_slice.key_spec(), datatype: T::fi_datatype().raw_value(), op: AtomicOp::Min.raw_value(), context: old(context)@ }),
            *final(context) == *old(context),
    {
        self.atomic_min_to_with_context(buf, desc, dest_addr, dest_slice.mem_address(), dest_slice.key(), context)
    }

    fn atomic_max_mr_slice_to_with_context<T: AsFiType>(&self, buf: &[T], desc: Option<MemoryRegionDesc>, dest_addr: &MappedAddress, dest_slice: &RemoteMemAddrSliceMut<T>, context: &mut Context) -> (r: AtomicCall)
        ensures
            r == (AtomicCall::Atomic { ep: self.ep_fid(), count: buf@.len() as usize, desc: owned_desc_value(desc), dest_addr: dest_addr@, addr: dest_slice.mem_address_spec(), key: dest_slice.key_spec(), datatype: T::fi_datatype().raw_value(), op: AtomicOp::Max.raw_value(), context: old(context)@ }),
            *final(context) == *old(context),
    {
        self.atomic_max_to_with_context(buf, desc, dest_addr, dest_slice.mem_address(), dest_slice.key(), context)
    }

    fn atomic_sum_mr_slice_to_with_context<T: AsFiType>(&self, buf: &[T], desc: Option<MemoryRegionDesc>, dest_addr: &MappedAddress, dest_slice: &RemoteMemAddrSliceMut<T>, context: &mut Context) -> (r: AtomicCall)
        ensures
            r == (AtomicCall::Atomic { ep: self.ep_fid(), count: buf@.len() as usize, desc: owned_desc_value(desc), dest_addr: dest_addr@, addr: dest_slice.mem_address_spec(), key: dest_slice.key_spec(), datatype: T::fi_datatype().raw_value(), op: AtomicOp::Sum.raw_value(), context: old(context)@ }),
            *final(context) == *old(context),
    {
        self.atomic_sum_to_with_context(buf, desc, dest_addr, dest_slice.mem_address(), dest_slice.key(), context)
    }

    fn atomic_prod_mr_slice_to_with_context<T: AsFiType>(&self, buf: &[T], desc: Option<MemoryRegionDesc>, dest_addr: &MappedAddress, dest_slice: &RemoteMemAddrSliceMut<T>, context: &mut Context) -> (r: AtomicCall)
        ensures
            r == (AtomicCall::Atomic { ep: self.ep_fid(), count: buf@.len() as usize, desc: owned_desc_value(desc), dest_addr: dest_addr@, addr: dest_slice.mem_address_spec(), key: dest_slice.key_spec(), datatype: T::fi_datatype().raw_value(), op: AtomicOp::Prod.raw_value(), context: old(context)@ }),
            *final(context) == *old(context),
    {
        self.atomic_prod_to_with_context(buf, desc, dest_addr, dest_slice.mem_address(), dest_slice.key(), context)
    }

    fn atomic_bor_mr_slice_to_with_context<T: AsFiType>(&self, buf: &[T], desc: Option<MemoryRegionDesc>, dest_addr: &MappedAddress, dest_slice: &RemoteMemAddrSliceMut<T>, context: &mut Context) -> (r: AtomicCall)
        ensures
            r == (AtomicCall::Atomic { ep: self.ep_fid(), count: buf@.len() as usize, desc: owned_desc_value(desc), dest_addr: dest_addr@, addr: dest_slice.mem_address_spec(), key: dest_slice.key_spec(), datatype: T::fi_datatype().raw_value(), op: AtomicOp::Bor.raw_value(), context: old(context)@ }),
            *final(context) == *old(context),
    {
        self.atomic_bor_to_with_context(buf, desc, dest_addr, dest_slice.mem_address(), dest_slice.key(), context)
    }

    fn atomic_band_mr_slice_to_with_context<T: AsFiType>(&self, buf: &[T], desc: Option<MemoryRegionDesc>, dest_addr: &MappedAddress, dest_slice: &RemoteMemAddrSliceMut<T>, context: &mut Context) -> (r: AtomicCall)
        ensures
            r == (AtomicCall::Atomic { ep: self.ep_fid(), count: buf@.len() as usize, desc: owned_desc_value(desc), dest_addr: dest_addr@, addr: dest_slice.mem_address_spec(), key: dest_slice.key_spec(), datatype: T::fi_datatype().raw_value(), op: AtomicOp::Band.raw_value(), context: old(context)@ }),
            *final(context) == *old(context),
    {
        self.atomic_band_to_with_context(buf, desc, dest_addr, dest_slice.mem_address(), dest_slice.key(), context)
    }

    fn atomic_bxor_mr_slice_to_with_context<T: AsFiType>(&self, buf: &[T], desc: Option<MemoryRegionDesc>, dest_addr: &MappedAddress, dest_slice: &RemoteMemAddrSliceMut<T>, context: &mut Context) -> (r: AtomicCall)
        ensures
            r == (AtomicCall::Atomic { ep: self.ep_fid(), count: buf@.len() as usize, desc: owned_desc_value(desc), dest_addr: dest_addr@, addr: dest_slice.mem_address_spec(), key: dest_slice.key_spec(), datatype: T::fi_datatype().raw_value(), op: AtomicOp::Bxor.raw_value(), context: old(context)@ }),
            *final(context) == *old(context),
    {
        self.atomic_bxor_to_with_context(buf, desc, dest_addr, dest_slice.mem_address(), dest_slice.key(), context)
    }

    fn atomic_lor_mr_slice_to_with_context(&self, buf: &[bool], desc: Option<MemoryRegionDesc>, dest_addr: &MappedAddress, dest_slice: &RemoteMemAddrSliceMut<bool>, context: &mut Context) -> (r: AtomicCall)
        ensures
            r == (AtomicCall::Atomic { ep: self.ep_fid(), count: buf@.len() as usize, desc: owned_desc_value(desc), dest_addr: dest_addr@, addr: dest_slice.mem_address_spec(), key: dest_slice.key_spec(), datatype: <bool as AsFiType>::fi_datatype().raw_value(), op: AtomicOp::Lor.raw_value(), context: old(context)@ }),
            *final(context) == *old(context),
    {
        self.atomic_lor_to_with_context(buf, desc, dest_addr, dest_slice.mem_address(), dest_slice.key(), context)
    }

    fn atomic_land_mr_slice_to_with_context(&self, buf: &[bool], desc: Option<MemoryRegionDesc>, dest_addr: &MappedAddress, dest_slice: &RemoteMemAddrSliceMut<bool>, context: &mut Context) -> (r: AtomicCall)
        ensures
            r == (AtomicCall::Atomic { ep: self.ep_fid(), count: buf@.len() as usize, desc: owned_desc_value(desc), dest_addr: dest_addr@, addr: dest_slice.mem_address_spec(), key: dest_slice.key_spec(), datatype: <bool as AsFiType>::fi_datatype().raw_value(), op: AtomicOp::Land.raw_value(), context: old(context)@ }),
            *final(context) == *old(context),
    {
        self.atomic_land_to_with_context(buf, desc, dest_addr, dest_slice.mem_address(), dest_slice.key(), context)
    }

    fn atomic_lxor_mr_slice_to_with_context(&self, buf: &[bool], desc: Option<MemoryRegionDesc>, dest_addr: &MappedAddress, dest_slice: &RemoteMemAddrSliceMut<bool>, context: &mut Context) -> (r: AtomicCall)
        ensures
            r == (AtomicCall::Atomic { ep: self.ep_fid(), count: buf@.len() as usize, desc: owned_desc_value(desc), dest_addr: dest_addr@, addr: dest_slice.mem_address_spec(), key: dest_slice.key_spec(), datatype: <bool as AsFiType>::fi_datatype().raw_value(), op: AtomicOp::Lxor.raw_value(), context: old(context)@ }),
            *final(context) == *old(context),
    {
        self.atomic_lxor_to_with_context(buf, desc, dest_addr, dest_slice.mem_address(), dest_slice.key(), context)
    }

    fn atomic_min_mr_slice_to_triggered<T: AsFiType>(&self, buf: &[T], desc: Option<MemoryRegionDesc>, dest_addr: &MappedAddress, dest_slice: &RemoteMemAddrSliceMut<T>, context: &mut TriggeredContext) -> (r: AtomicCall)
        ensures
            r == (AtomicCall::Atomic { ep: self.ep_fid(), count: buf@.len() as usize, desc: owned_desc_value(desc), dest_addr: dest_addr@, addr: dest_slice.mem_address_spec(), key: dest_slice.key_spec(), datatype: T::fi_datatype().raw_value(), op: AtomicOp::Min.raw_value(), context: old(context)@ }),
            *final(context) == *old(context),
    {
        self.atomic_min_to_triggered(buf, desc, dest_addr, dest_slice.mem_address(), dest_slice.key(), context)
    }

    fn atomic_max_mr_slice_to_triggered<T: AsFiType>(&self, buf: &[T], desc: Option<MemoryRegionDesc>, dest_addr: &MappedAddress, dest_slice: &RemoteMemAddrSliceMut<T>, context: &mut TriggeredContext) -> (r: AtomicCall)
        ensures
            r == (AtomicCall::Atomic { ep: self.ep_fid(), count: buf@.len() as usize, desc: owned_desc_value(desc), dest_addr: dest_addr@, addr: dest_slice.mem_address_spec(), key: dest_slice.key_spec(), datatype: T::fi_datatype().raw_value(), op: AtomicOp::Max.raw_value(), context: old(context)@ }),
            *final(context) == *old(context),
    {
        self.atomic_max_to_triggered(buf, desc, dest_addr, dest_slice.mem_address(), dest_slice.key(), context)
    }

    fn atomic_sum_mr_slice_to_triggered<T: AsFiType>(&self, buf: &[T], desc: Option<MemoryRegionDesc>, dest_addr: &MappedAddress, dest_slice: &RemoteMemAddrSliceMut<T>, context: &mut TriggeredContext) -> (r: AtomicCall)
        ensures
            r == (AtomicCall::Atomic { ep: self.ep_fid(), count: buf@.len() as usize, desc: owned_desc_value(desc), dest_addr: dest_addr@, addr: dest_slice.mem_address_spec(), key: dest_slice.key_spec(), datatype: T::fi_datatype().raw_value(), op: AtomicOp::Sum.raw_value(), context: old(context)@ }),
            *final(context) == *old(context),
    {
        self.atomic_sum_to_triggered(buf, desc, dest_addr, dest_slice.mem_address(), dest_slice.key(), context)
    }

    fn atomic_prod_mr_slice_to_triggered<T: AsFiType>(&self, buf: &[T], desc: Option<MemoryRegionDesc>, dest_addr: &MappedAddress, dest_slice: &RemoteMemAddrSliceMut<T>, context: &mut TriggeredContext) -> (r: AtomicCall)
        ensures
            r == (AtomicCall::Atomic { ep: self.ep_fid(), count: buf@.len() as usize, desc: owned_desc_value(desc), dest_addr: dest_addr@, addr: dest_slice.mem_address_spec(), key: dest_slice.key_spec(), datatype: T::fi_datatype().raw_value(), op: AtomicOp::Prod.raw_value(), context: old(context)@ }),
            *final(context) == *old(context),
    {
        self.atomic_prod_to_triggered(buf, desc, dest_addr, dest_slice.mem_address(), dest_slice.key(), context)
    }

    fn atomic_bor_mr_slice_to_triggered<T: AsFiType>(&self, buf: &[T], desc: Option<MemoryRegionDesc>, dest_addr: &MappedAddress, dest_slice: &RemoteMemAddrSliceMut<T>, context: &mut TriggeredContext) -> (r: AtomicCall)
        ensures
            r == (AtomicCall::Atomic { ep: self.ep_fid(), count: buf@.len() as usize, desc: owned_desc_value(desc), dest_addr: dest_addr@, addr: dest_slice.mem_address_spec(), key: dest_slice.key_spec(), datatype: T::fi_datatype().raw_value(), op: AtomicOp::Bor.raw_value(), context: old(context)@ }),
            *final(context) == *old(context),
    {
        self.atomic_bor_to_triggered(buf, desc, dest_addr, dest_slice.mem_address(), dest_slice.key(), context)
    }

    fn atomic_band_mr_slice_to_triggered<T: AsFiType>(&self, buf: &[T], desc: Option<MemoryRegionDesc>, dest_addr: &MappedAddress, dest_slice: &RemoteMemAddrSliceMut<T>, context: &mut TriggeredContext) -> (r: AtomicCall)
        ensures
            r == (AtomicCall::Atomic { ep: self.ep_fid(), count: buf@.len() as usize, desc: owned_desc_value(desc), dest_addr: dest_addr@, addr: dest_slice.mem_address_spec(), key: dest_slice.key_spec(), datatype: T::fi_datatype().raw_value(), op: AtomicOp::Band.raw_value(), context: old(context)@ }),
            *final(context) == *old(context),
    {
        self.atomic_band_to_triggered(buf, desc, dest_addr, dest_slice.mem_address(), dest_slice.key(), context)
    }

    fn atomic_bxor_mr_slice_to_triggered<T: AsFiType>(&self, buf: &[T], desc: Option<MemoryRegionDesc>, dest_addr: &MappedAddress, dest_slice: &RemoteMemAddrSliceMut<T>, context: &mut TriggeredContext) -> (r: AtomicCall)
        ensures
            r == (AtomicCall::Atomic { ep: self.ep_fid(), count: buf@.len() as usize, desc: owned_desc_value(desc), dest_addr: dest_addr@, addr: dest_slice.mem_address_spec(), key: dest_slice.key_spec(), datatype: T::fi_datatype().raw_value(), op: AtomicOp::Bxor.raw_value(), context: old(context)@ }),
            *final(context) == *old(context),
    {
        self.atomic_bxor_to_triggered(buf, desc, dest_addr, dest_slice.mem_address(), dest_slice.key(), context)
    }

    fn atomic_lor_mr_slice_to_triggered(&self, buf: &[bool], desc: Option<MemoryRegionDesc>, dest_addr: &MappedAddress, dest_slice: &RemoteMemAddrSliceMut<bool>, context: &mut TriggeredContext) -> (r: AtomicCall)
        ensures
            r == (AtomicCall::Atomic { ep: self.ep_fid(), count: buf@.len() as usize, desc: owned_desc_value(desc), dest_addr: dest_addr@, addr: dest_slice.mem_address_spec(), key: dest_slice.key_spec(), datatype: <bool as AsFiType>::fi_datatype().raw_value(), op: AtomicOp::Lor.raw_value(), context: old(context)@ }),
            *final(context) == *old(context),
    {
        self.atomic_lor_to_triggered(buf, desc, dest_addr, dest_slice.mem_address(), dest_slice.key(), context)
    }

    fn atomic_land_mr_slice_to_triggered(&self, buf: &[bool], desc: Option<MemoryRegionDesc>, dest_addr: &MappedAddress, dest_slice: &RemoteMemAddrSliceMut<bool>, context: &mut TriggeredContext) -> (r: AtomicCall)
        ensures
            r == (AtomicCall::Atomic { ep: self.ep_fid(), count: buf@.len() as usize, desc: owned_desc_value(desc), dest_addr: dest_addr@, addr: dest_slice.mem_address_spec(), key: dest_slice.key_spec(), datatype: <bool as AsFiType>::fi_datatype().raw_value(), op: AtomicOp::Land.raw_value(), context: old(context)@ }),
            *final(context) == *old(context),
    {
        self.atomic_land_to_triggered(buf, desc, dest_addr, dest_slice.mem_address(), dest_slice.key(), context)
    }

    fn atomic_lxor_mr_slice_to_triggered(&self, buf: &[bool], desc: Option<MemoryRegionDesc>, dest_addr: &MappedAddress, dest_slice: &RemoteMemAddrSliceMut<bool>, context: &mut TriggeredContext) -> (r: AtomicCall)
        ensures
            r == (AtomicCall::Atomic { ep: self.ep_fid(), count: buf@.len() as usize, desc: owned_desc_value(desc), dest_addr: dest_addr@, addr: dest_slice.mem_address_spec(), key: dest_slice.key_spec(), datatype: <bool as AsFiType>::fi_datatype().raw_value(), op: AtomicOp::Lxor.raw_value(), context: old(context)@ }),
            *final(context) == *old(context),
    {
        self.atomic_lxor_to_triggered(buf, desc, dest_addr, dest_slice.mem_address(), dest_slice.key(), context)
    }

    fn atomicv_min_mr_slice_to<T: AsFiType>(&self, ioc: &[Ioc<T>], desc: Option<&[MemoryRegionDesc]>, dest_addr: &MappedAddress, dest_slice: &RemoteMemAddrSliceMut<T>) -> (r: AtomicCall)
        ensures
            r == (AtomicCall::Atomicv { ep: self.ep_fid(), count: ioc@.len() as usize, descs: desc is Some, dest_addr: dest_addr@, addr: dest_slice.mem_address_spec(), key: dest_slice.key_spec(), datatype: T::fi_datatype().raw_value(), op: AtomicOp::Min.raw_value(), context: 0 }),
    {
        self.atomicv_min_to(ioc, desc, dest_addr, dest_slice.mem_address(), dest_slice.key())
    }

    fn atomicv_max_mr_slice_to<T: AsFiType>(&self, ioc: &[Ioc<T>], desc: Option<&[MemoryRegionDesc]>, dest_addr: &MappedAddress, dest_slice: &RemoteMemAddrSliceMut<T>) -> (r: AtomicCall)
        ensures
            r == (AtomicCall::Atomicv { ep: self.ep_fid(), count: ioc@.len() as usize, descs: desc is Some, dest_addr: dest_addr@, addr: dest_slice.mem_address_spec(), key: dest_slice.key_spec(), datatype: T::fi_datatype().raw_value(), op: AtomicOp::Max.raw_value(), context: 0 }),
    {
        self.atomicv_max_to(ioc, desc, dest_addr, dest_slice.mem_address(), dest_slice.key())
    }

    fn atomicv_sum_mr_slice_to<T: AsFiType>(&self, ioc: &[Ioc<T>], desc: Option<&[MemoryRegionDesc]>, dest_addr: &MappedAddress, dest_slice: &RemoteMemAddrSliceMut<T>) -> (r: AtomicCall)
        ensures
            r == (AtomicCall::Atomicv { ep: self.ep_fid(), count: ioc@.len() as usize, descs: desc is Some, dest_addr: dest_addr@, addr: dest_slice.mem_address_spec(), key: dest_slice.key_spec(), datatype: T::fi_datatype().raw_value(), op: AtomicOp::Sum.raw_value(), context: 0 }),
    {
        self.atomicv_sum_to(ioc, desc, dest_addr, dest_slice.mem_address(), dest_slice.key())
    }

    fn atomicv_prod_mr_slice_to<T: AsFiType>(&self, ioc: &[Ioc<T>], desc: Option<&[MemoryRegionDesc]>, dest_addr: &MappedAddress, dest_slice: &RemoteMemAddrSliceMut<T>) -> (r: AtomicCall)
        ensures
            r == (AtomicCall::Atomicv { ep: self.ep_fid(), count: ioc@.len() as usize, descs: desc is Some, dest_addr: dest_addr@, addr: dest_slice.mem_address_spec(), key: dest_slice.key_spec(), datatype: T::fi_datatype().raw_value(), op: AtomicOp::Prod.raw_value(), context: 0 }),
    {
        self.atomicv_prod_to(ioc, desc, dest_addr, dest_slice.mem_address(), dest_slice.key())
    }

    fn atomicv_bor_mr_slice_to<T: AsFiType>(&self, ioc: &[Ioc<T>], desc: Option<&[MemoryRegionDesc]>, dest_addr: &MappedAddress, dest_slice: &RemoteMemAddrSliceMut<T>) -> (r: AtomicCall)
        ensures
            r == (AtomicCall::Atomicv { ep: self.ep_fid(), count: ioc@.len() as usize, descs: desc is Some, dest_addr: dest_addr@, addr: dest_slice.mem_address_spec(), key: dest_slice.key_spec(), datatype: T::fi_datatype().raw_value(), op: AtomicOp::Bor.raw_value(), context: 0 }),
    {
        self.atomicv_bor_to(ioc, desc, dest_addr, dest_slice.mem_address(), dest_slice.key())
    }

    fn atomicv_band_mr_slice_to<T: AsFiType>(&self, ioc: &[Ioc<T>], desc: Option<&[MemoryRegionDesc]>, dest_addr: &MappedAddress, dest_slice: &RemoteMemAddrSliceMut<T>) -> (r: AtomicCall)
        ensures
            r == (AtomicCall::Atomicv { ep: self.ep_fid(), count: ioc@.len() as usize, descs: desc is Some, dest_addr: dest_addr@, addr: dest_slice.mem_address_spec(), key: dest_slice.key_spec(), datatype: T::fi_datatype().raw_value(), op: AtomicOp::Band.raw_value(), context: 0 }),
    {
        self.atomicv_band_to(ioc, desc, dest_addr, dest_slice.mem_address(), dest_slice.key())
    }

    fn atomicv_bxor_mr_slice_to<T: AsFiType>(&self, ioc: &[Ioc<T>], desc: Option<&[MemoryRegionDesc]>, dest_addr: &MappedAddress, dest_slice: &RemoteMemAddrSliceMut<T>) -> (r: AtomicCall)
        ensures
            r == (AtomicCall::Atomicv { ep: self.ep_fid(), count: ioc@.len() as usize, descs: desc is Some, dest_addr: dest_addr@, addr: dest_slice.mem_address_spec(), key: dest_slice.key_spec(), datatype: T::fi_datatype().raw_value(), op: AtomicOp::Bxor.raw_value(), context: 0 }),
    {
        self.atomicv_bxor_to(ioc, desc, dest_addr, dest_slice.mem_address(), dest_slice.key())
    }

    fn atomicv_lor_mr_slice_to(&self, ioc: &[Ioc<bool>], desc: Option<&[MemoryRegionDesc]>, dest_addr: &MappedAddress, dest_slice: &RemoteMemAddrSliceMut<bool>) -> (r: AtomicCall)
        ensures
            r == (AtomicCall::Atomicv { ep: self.ep_fid(), count: ioc@.len() as usize, descs: desc is Some, dest_addr: dest_addr@, addr: dest_slice.mem_address_spec(), key: dest_slice.key_spec(), datatype: <bool as AsFiType>::fi_datatype().raw_value(), op: AtomicOp::Lor.raw_value(), context: 0 }),
    {
        self.atomicv_lor_to(ioc, desc, dest_addr, dest_slice.mem_address(), dest_slice.key())
    }

    fn atomicv_land_mr_slice_to(&self, ioc: &[Ioc<bool>], desc: Option<&[MemoryRegionDesc]>, dest_addr: &MappedAddress, dest_slice: &RemoteMemAddrSliceMut<bool>) -> (r: AtomicCall)
        ensures
            r == (AtomicCall::Atomicv { ep: self.ep_fid(), count: ioc@.len() as usize, descs: desc is Some, dest_addr: dest_addr@, addr: dest_slice.mem_address_spec(), key: dest_slice.key_spec(), datatype: <bool as AsFiType>::fi_datatype().raw_value(), op: AtomicOp::Land.raw_value(), context: 0 }),
    {
        self.atomicv_land_to(ioc, desc, dest_addr, dest_slice.mem_address(), dest_slice.key())
    }

    fn atomicv_lxor_mr_slice_to(&self, ioc: &[Ioc<bool>], desc: Option<&[MemoryRegionDesc]>, dest_addr: &MappedAddress, dest_slice: &RemoteMemAddrSliceMut<bool>) -> (r: AtomicCall)
        ensures
            r == (AtomicCall::Atomicv { ep: self.ep_fid(), count: ioc@.len() as usize, descs: desc is Some, dest_addr: dest_addr@, addr: dest_slice.mem_address_spec(), key: dest_slice.key_spec(), datatype: <bool as AsFiType>::fi_datatype().raw_value(), op: AtomicOp::Lxor.raw_value(), context: 0 }),
    {
        self.atomicv_lxor_to(ioc, desc, dest_addr, dest_slice.mem_address(), dest_slice.key())
    }

    fn atomicv_min_mr_slice_to_with_context<T: AsFiType>(&self, ioc: &[Ioc<T>], desc: Option<&[MemoryRegionDesc]>, dest_addr: &MappedAddress, dest_slice: &RemoteMemAddrSliceMut<T>, context: &mut Context) -> (r: AtomicCall)
        ensures
            r == (AtomicCall::Atomicv { ep: self.ep_fid(), count: ioc@.len() as usize, descs: desc is Some, dest_addr: dest_addr@, addr: dest_slice.mem_address_spec(), key: dest_slice.key_spec(), datatype: T::fi_datatype().raw_value(), op: AtomicOp::Min.raw_value(), context: old(context)@ }),
            *final(context) == *old(context),
    {
        self.atomicv_min_to_with_context(ioc, desc, dest_addr, dest_slice.mem_address(), dest_slice.key(), context)
    }

    fn atomicv_max_mr_slice_to_with_context<T: AsFiType>(&self, ioc: &[Ioc<T>], desc: Option<&[MemoryRegionDesc]>, dest_addr: &MappedAddress, dest_slice: &RemoteMemAddrSliceMut<T>, context: &mut Context) -> (r: AtomicCall)
        ensures
            r == (AtomicCall::Atomicv { ep: self.ep_fid(), count: ioc@.len() as usize, descs: desc is Some, dest_addr: dest_addr@, addr: dest_slice.mem_address_spec(), key: dest_slice.key_spec(), datatype: T::fi_datatype().raw_value(), op: AtomicOp::Max.raw_value(), context: old(context)@ }),
            *final(context) == *old(context),
    {
        self.atomicv_max_to_with_context(ioc, desc, dest_addr, dest_slice.mem_address(), dest_slice.key(), context)
    }

    fn atomicv_sum_mr_slice_to_with_context<T: AsFiType>(&self, ioc: &[Ioc<T>], desc: Option<&[MemoryRegionDesc]>, dest_addr: &MappedAddress, dest_slice: &RemoteMemAddrSliceMut<T>, context: &mut Context) -> (r: AtomicCall)
        ensures
            r == (AtomicCall::Atomicv { ep: self.ep_fid(), count: ioc@.len() as usize, descs: desc is Some, dest_addr: dest_addr@, addr: dest_slice.mem_address_spec(), key: dest_slice.key_spec(), datatype: T::fi_datatype().raw_value(), op: AtomicOp::Sum.raw_value(), context: old(context)@ }),
            *final(context) == *old(context),
    {
        self.atomicv_sum_to_with_context(ioc, desc, dest_addr, dest_slice.mem_address(), dest_slice.key(), context)
    }

    fn atomicv_prod_mr_slice_to_with_context<T: AsFiType>(&self, ioc: &[Ioc<T>], desc: Option<&[MemoryRegionDesc]>, dest_addr: &MappedAddress, dest_slice: &RemoteMemAddrSliceMut<T>, context: &mut Context) -> (r: AtomicCall)
        ensures
            r == (AtomicCall::Atomicv { ep: self.ep_fid(), count: ioc@.len() as usize, descs: desc is Some, dest_addr: dest_addr@, addr: dest_slice.mem_address_spec(), key: dest_slice.key_spec(), datatype: T::fi_datatype().raw_value(), op: AtomicOp::Prod.raw_value(), context: old(context)@ }),
            *final(context) == *old(context),
    {
        self.atomicv_prod_to_with_context(ioc, desc, dest_addr, dest_slice.mem_address(), dest_slice.key(), context)
    }

    fn atomicv_bor_mr_slice_to_with_context<T: AsFiType>(&self, ioc: &[Ioc<T>], desc: Option<&[MemoryRegionDesc]>, dest_addr: &MappedAddress, dest_slice: &RemoteMemAddrSliceMut<T>, context: &mut Context) -> (r: AtomicCall)
        ensures
            r == (AtomicCall::Atomicv { ep: self.ep_fid(), count: ioc@.len() as usize, descs: desc is Some, dest_addr: dest_addr@, addr: dest_slice.mem_address_spec(), key: dest_slice.key_spec(), datatype: T::fi_datatype().raw_value(), op: AtomicOp::Bor.raw_value(), context: old(context)@ }),
            *final(context) == *old(context),
    {
        self.atomicv_bor_to_with_context(ioc, desc, dest_addr, dest_slice.mem_address(), dest_slice.key(), context)
    }

    fn atomicv_band_mr_slice_to_with_context<T: AsFiType>(&self, ioc: &[Ioc<T>], desc: Option<&[MemoryRegionDesc]>, dest_addr: &MappedAddress, dest_slice: &RemoteMemAddrSliceMut<T>, context: &mut Context) -> (r: AtomicCall)
        ensures
            r == (AtomicCall::Atomicv { ep: self.ep_fid(), count: ioc@.len() as usize, descs: desc is Some, dest_addr: dest_addr@, addr: dest_slice.mem_address_spec(), key: dest_slice.key_spec(), datatype: T::fi_datatype().raw_value(), op: AtomicOp::Band.raw_value(), context: old(context)@ }),
            *final(context) == *old(context),
    {
        self.atomicv_band_to_with_context(ioc, desc, dest_addr, dest_slice.mem_address(), dest_slice.key(), context)
    }

    fn atomicv_bxor_mr_slice_to_with_context<T: AsFiType>(&self, ioc: &[Ioc<T>], desc: Option<&[MemoryRegionDesc]>, dest_addr: &MappedAddress, dest_slice: &RemoteMemAddrSliceMut<T>, context: &mut Context) -> (r: AtomicCall)
        ensures
            r == (AtomicCall::Atomicv { ep: self.ep_fid(), count: ioc@.len() as usize, descs: desc is Some, dest_addr: dest_addr@, addr: dest_slice.mem_address_spec(), key: dest_slice.key_spec(), datatype: T::fi_datatype().raw_value(), op: AtomicOp::Bxor.raw_value(), context: old(context)@ }),
            *final(context) == *old(context),
    {
        self.atomicv_bxor_to_with_context(ioc, desc, dest_addr, dest_slice.mem_address(), dest_slice.key(), context)
    }

    fn atomicv_lor_mr_slice_to_with_context(&self, ioc: &[Ioc<bool>], desc: Option<&[MemoryRegionDesc]>, dest_addr: &MappedAddress, dest_slice: &RemoteMemAddrSliceMut<bool>, context: &mut Context) -> (r: AtomicCall)
        ensures
            r == (AtomicCall::Atomicv { ep: self.ep_fid(), count: ioc@.len() as usize, descs: desc is Some, dest_addr: dest_addr@, addr: dest_slice.mem_address_spec(), key: dest_slice.key_spec(), datatype: <bool as AsFiType>::fi_datatype().raw_value(), op: AtomicOp::Lor.raw_value(), context: old(context)@ }),
            *final(context) == *old(context),
    {
        self.atomicv_lor_to_with_context(ioc, desc, dest_addr, dest_slice.mem_address(), dest_slice.key(), context)
    }

    fn atomicv_land_mr_slice_to_with_context(&self, ioc: &[Ioc<bool>], desc: Option<&[MemoryRegionDesc]>, dest_addr: &MappedAddress, dest_slice: &RemoteMemAddrSliceMut<bool>, context: &mut Context) -> (r: AtomicCall)
        ensures
            r == (AtomicCall::Atomicv { ep: self.ep_fid(), count: ioc@.len() as usize, descs: desc is Some, dest_addr: dest_addr@, addr: dest_slice.mem_address_spec(), key: dest_slice.key_spec(), datatype: <bool as AsFiType>::fi_datatype().raw_value(), op: AtomicOp::Land.raw_value(), context: old(context)@ }),
            *final(context) == *old(context),
    {
        self.atomicv_land_to_with_context(ioc, desc, dest_addr, dest_slice.mem_address(), dest_slice.key(), context)
    }

    fn atomicv_lxor_mr_slice_to_with_context(&self, ioc: &[Ioc<bool>], desc: Option<&[MemoryRegionDesc]>, dest_addr: &MappedAddress, dest_slice: &RemoteMemAddrSliceMut<bool>, context: &mut Context) -> (r: AtomicCall)
        ensures
            r == (AtomicCall::Atomicv { ep: self.ep_fid(), count: ioc@.len() as usize, descs: desc is Some, dest_addr: dest_addr@, addr: dest_slice.mem_address_spec(), key: dest_slice.key_spec(), datatype: <bool as AsFiType>::fi_datatype().raw_value(), op: AtomicOp::Lxor.raw_value(), context: old(context)@ }),
            *final(context) == *old(context),
    {
        self.atomicv_lxor_to_with_context(ioc, desc, dest_addr, dest_slice.mem_address(), dest_slice.key(), context)
    }

    fn atomicv_min_mr_slice_to_triggered<T: AsFiType>(&self, ioc: &[Ioc<T>], desc: Option<&[MemoryRegionDesc]>, dest_addr: &MappedAddress, dest_slice: &RemoteMemAddrSliceMut<T>, context: &mut TriggeredContext) -> (r: AtomicCall)
        ensures
            r == (AtomicCall::Atomicv { ep: self.ep_fid(), count: ioc@.len() as usize, descs: desc is Some, dest_addr: dest_addr@, addr: dest_slice.mem_address_spec(), key: dest_slice.key_spec(), datatype: T::fi_datatype().raw_value(), op: AtomicOp::Min.raw_value(), context: old(context)@ }),
            *final(context) == *old(context),
    {
        self.atomicv_min_to_triggered(ioc, desc, dest_addr, dest_slice.mem_address(), dest_slice.key(), context)
    }

    fn atomicv_max_mr_slice_to_triggered<T: AsFiType>(&self, ioc: &[Ioc<T>], desc: Option<&[MemoryRegionDesc]>, dest_addr: &MappedAddress, dest_slice: &RemoteMemAddrSliceMut<T>, context: &mut TriggeredContext) -> (r: AtomicCall)
        ensures
            r == (AtomicCall::Atomicv { ep: self.ep_fid(), count: ioc@.len() as usize, descs: desc is Some, dest_addr: dest_addr@, addr: dest_slice.mem_address_spec(), key: dest_slice.key_spec(), datatype: T::fi_datatype().raw_value(), op: AtomicOp::Max.raw_value(), context: old(context)@ }),
            *final(context) == *old(context),
    {
        self.atomicv_max_to_triggered(ioc, desc, dest_addr, dest_slice.mem_address(), dest_slice.key(), context)
    }

    fn atomicv_sum_mr_slice_to_triggered<T: AsFiType>(&self, ioc: &[Ioc<T>], desc: Option<&[MemoryRegionDesc]>, dest_addr: &MappedAddress, dest_slice: &RemoteMemAddrSliceMut<T>, context: &mut TriggeredContext) -> (r: AtomicCall)
        ensures
            r == (AtomicCall::Atomicv { ep: self.ep_fid(), count: ioc@.len() as usize, descs: desc is Some, dest_addr: dest_addr@, addr: dest_slice.mem_address_spec(), key: dest_slice.key_spec(), datatype: T::fi_datatype().raw_value(), op: AtomicOp::Sum.raw_value(), context: old(context)@ }),
            *final(context) == *old(context),
    {
        self.atomicv_sum_to_triggered(ioc, desc, dest_addr, dest_slice.mem_address(), dest_slice.key(), context)
    }

    fn atomicv_prod_mr_slice_to_triggered<T: AsFiType>(&self, ioc: &[Ioc<T>], desc: Option<&[MemoryRegionDesc]>, dest_addr: &MappedAddress, dest_slice: &RemoteMemAddrSliceMut<T>, context: &mut TriggeredContext) -> (r: AtomicCall)
        ensures
            r == (AtomicCall::Atomicv { ep: self.ep_fid(), count: ioc@.len() as usize, descs: desc is Some, dest_addr: dest_addr@, addr: dest_slice.mem_address_spec(), key: dest_slice.key_spec(), datatype: T::fi_datatype().raw_value(), op: AtomicOp::Prod.raw_value(), context: old(context)@ }),
            *final(context) == *old(context),
    {
        self.atomicv_prod_to_triggered(ioc, desc, dest_addr, dest_slice.mem_address(), dest_slice.key(), context)
    }

    fn atomicv_bor_mr_slice_to_triggered<T: AsFiType>(&self, ioc: &[Ioc<T>], desc: Option<&[MemoryRegionDesc]>, dest_addr: &MappedAddress, dest_slice: &RemoteMemAddrSliceMut<T>, context: &mut TriggeredContext) -> (r: AtomicCall)
        ensures
            r == (AtomicCall::Atomicv { ep: self.ep_fid(), count: ioc@.len() as usize, descs: desc is Some, dest_addr: dest_addr@, addr: dest_slice.mem_address_spec(), key: dest_slice.key_spec(), datatype: T::fi_datatype().raw_value(), op: AtomicOp::Bor.raw_value(), context: old(context)@ }),
            *final(context) == *old(context),
    {
        self.atomicv_bor_to_triggered(ioc, desc, dest_addr, dest_slice.mem_address(), dest_slice.key(), context)
    }

    fn atomicv_band_mr_slice_to_triggered<T: AsFiType>(&self, ioc: &[Ioc<T>], desc: Option<&[MemoryRegionDesc]>, dest_addr: &MappedAddress, dest_slice: &RemoteMemAddrSliceMut<T>, context: &mut TriggeredContext) -> (r: AtomicCall)
        ensures
            r == (AtomicCall::Atomicv { ep: self.ep_fid(), count: ioc@.len() as usize, descs: desc is Some, dest_addr: dest_addr@, addr: dest_slice.mem_address_spec(), key: dest_slice.key_spec(), datatype: T::fi_datatype().raw_value(), op: AtomicOp::Band.raw_value(), context: old(context)@ }),
            *final(context) == *old(context),
    {
        self.atomicv_band_to_triggered(ioc, desc, dest_addr, dest_slice.mem_address(), dest_slice.key(), context)
    }

    fn atomicv_bxor_mr_slice_to_triggered<T: AsFiType>(&self, ioc: &[Ioc<T>], desc: Option<&[MemoryRegionDesc]>, dest_addr: &MappedAddress, dest_slice: &RemoteMemAddrSliceMut<T>, context: &mut TriggeredContext) -> (r: AtomicCall)
        ensures
            r == (AtomicCall::Atomicv { ep: self.ep_fid(), count: ioc@.len() as usize, descs: desc is Some, dest_addr: dest_addr@, addr: dest_slice.mem_address_spec(), key: dest_slice.key_spec(), datatype: T::fi_datatype().raw_value(), op: AtomicOp::Bxor.raw_value(), context: old(context)@ }),
            *final(context) == *old(context),
    {
        self.atomicv_bxor_to_triggered(ioc, desc, dest_addr, dest_slice.mem_address(), dest_slice.key(), context)
    }

    fn atomicv_lor_mr_slice_to_triggered(&self, ioc: &[Ioc<bool>], desc: Option<&[MemoryRegionDesc]>, dest_addr: &MappedAddress, dest_slice: &RemoteMemAddrSliceMut<bool>, context: &mut TriggeredContext) -> (r: AtomicCall)
        ensures
            r == (AtomicCall::Atomicv { ep: self.ep_fid(), count: ioc@.len() as usize, descs: desc is Some, dest_addr: dest_addr@, addr: dest_slice.mem_address_spec(), key: dest_slice.key_spec(), datatype: <bool as AsFiType>::fi_datatype().raw_value(), op: AtomicOp::Lor.raw_value(), context: old(context)@ }),
            *final(context) == *old(context),
    {
        self.atomicv_lor_to_triggered(ioc, desc, dest_addr, dest_slice.mem_address(), dest_slice.key(), context)
    }

    fn atomicv_land_mr_slice_to_triggered(&self, ioc: &[Ioc<bool>], desc: Option<&[MemoryRegionDesc]>, dest_addr: &MappedAddress, dest_slice: &RemoteMemAddrSliceMut<bool>, context: &mut TriggeredContext) -> (r: AtomicCall)
        ensures
            r == (AtomicCall::Atomicv { ep: self.ep_fid(), count: ioc@.len() as usize, descs: desc is Some, dest_addr: dest_addr@, addr: dest_slice.mem_address_spec(), key: dest_slice.key_spec(), datatype: <bool as AsFiType>::fi_datatype().raw_value(), op: AtomicOp::Land.raw_value(), context: old(context)@ }),
            *final(context) == *old(context),
    {
        self.atomicv_land_to_triggered(ioc, desc, dest_addr, dest_slice.mem_address(), dest_slice.key(), context)
    }

    fn atomicv_lxor_mr_slice_to_triggered(&self, ioc: &[Ioc<bool>], desc: Option<&[MemoryRegionDesc]>, dest_addr: &MappedAddress, dest_slice: &RemoteMemAddrSliceMut<bool>, context: &mut TriggeredContext) -> (r: AtomicCall)
        ensures
            r == (AtomicCall::Atomicv { ep: self.ep_fid(), count: ioc@.len() as usize, descs: desc is Some, dest_addr: dest_addr@, addr: dest_slice.mem_address_spec(), key: dest_slice.key_spec(), datatype: <bool as AsFiType>::fi_datatype().raw_value(), op: AtomicOp::Lxor.raw_value(), context: old(context)@ }),
            *final(context) == *old(context),
    {
        self.atomicv_lxor_to_triggered(ioc, desc, dest_addr, dest_slice.mem_address(), dest_slice.key(), context)
    }

    fn atomicmsg_slice_to(&self, msg: &MsgRef, options: AtomicMsgOptions) -> (r: AtomicCall)
        ensures
            r == (AtomicCall::Atomicmsg { ep: self.ep_fid(), msg: msg@, flags: options@ }),
    {
        self.atomicmsg_to(msg, options)
    }

    fn atomic_inject_min_mr_slice_to<T: AsFiType>(&self, buf: &[T], dest_addr: &MappedAddress, dest_slice: &RemoteMemAddrSliceMut<T>) -> (r: AtomicCall)
        ensures
            r == (AtomicCall::InjectAtomic { ep: self.ep_fid(), count: buf@.len() as usize, dest_addr: dest_addr@, addr: dest_slice.mem_address_spec(), key: dest_slice.key_spec(), datatype: T::fi_datatype().raw_value(), op: AtomicOp::Min.raw_value() }),
    {
        self.atomic_inject_min_to(buf, dest_addr, dest_slice.mem_address(), dest_slice.key())
    }

    fn atomic_inject_max_mr_slice_to<T: AsFiType>(&self, buf: &[T], dest_addr: &MappedAddress, dest_slice: &RemoteMemAddrSliceMut<T>) -> (r: AtomicCall)
        ensures
            r == (AtomicCall::InjectAtomic { ep: self.ep_fid(), count: buf@.len() as usize, dest_addr: dest_addr@, addr: dest_slice.mem_address_spec(), key: dest_slice.key_spec(), datatype: T::fi_datatype().raw_value(), op: AtomicOp::Max.raw_value() }),
    {
        self.atomic_inject_max_to(buf, dest_addr, dest_slice.mem_address(), dest_slice.key())
    }

    fn atomic_inject_sum_mr_slice_to<T: AsFiType>(&self, buf: &[T], dest_addr: &MappedAddress, dest_slice: &RemoteMemAddrSliceMut<T>) -> (r: AtomicCall)
        ensures
            r == (AtomicCall::InjectAtomic { ep: self.ep_fid(), count: buf@.len() as usize, dest_addr: dest_addr@, addr: dest_slice.mem_address_spec(), key: dest_slice.key_spec(), datatype: T::fi_datatype().raw_value(), op: AtomicOp::Sum.raw_value() }),
    {
        self.atomic_inject_sum_to(buf, dest_addr, dest_slice.mem_address(), dest_slice.key())
    }

    fn atomic_inject_prod_mr_slice_to<T: AsFiType>(&self, buf: &[T], dest_addr: &MappedAddress, dest_slice: &RemoteMemAddrSliceMut<T>) -> (r: AtomicCall)
        ensures
            r == (AtomicCall::InjectAtomic { ep: self.ep_fid(), count: buf@.len() as usize, dest_addr: dest_addr@, addr: dest_slice.mem_address_spec(), key: dest_slice.key_spec(), datatype: T::fi_datatype().raw_value(), op: AtomicOp::Prod.raw_value() }),
    {
        self.atomic_inject_prod_to(buf, dest_addr, dest_slice.mem_address(), dest_slice.key())
    }

    fn atomic_inject_bor_mr_slice_to<T: AsFiType>(&self, buf: &[T], dest_addr: &MappedAddress, dest_slice: &RemoteMemAddrSliceMut<T>) -> (r: AtomicCall)
        ensures
            r == (AtomicCall::InjectAtomic { ep: self.ep_fid(), count: buf@.len() as usize, dest_addr: dest_addr@, addr: dest_slice.mem_address_spec(), key: dest_slice.key_spec(), datatype: T::fi_datatype().raw_value(), op: AtomicOp::Bor.raw_value() }),
    {
        self.atomic_inject_bor_to(buf, dest_addr, dest_slice.mem_address(), dest_slice.key())
    }

    fn atomic_inject_band_mr_slice_to<T: AsFiType>(&self, buf: &[T], dest_addr: &MappedAddress, dest_slice: &RemoteMemAddrSliceMut<T>) -> (r: AtomicCall)
        ensures
            r == (AtomicCall::InjectAtomic { ep: self.ep_fid(), count: buf@.len() as usize, dest_addr: dest_addr@, addr: dest_slice.mem_address_spec(), key: dest_slice.key_spec(), datatype: T::fi_datatype().raw_value(), op: AtomicOp::Band.raw_value() }),
    {
        self.atomic_inject_band_to(buf, dest_addr, dest_slice.mem_address(), dest_slice.key())
    }

    fn atomic_inject_bxor_mr_slice_to<T: AsFiType>(&self, buf: &[T], dest_addr: &MappedAddress, dest_slice: &RemoteMemAddrSliceMut<T>) -> (r: AtomicCall)
        ensures
            r == (AtomicCall::InjectAtomic { ep: self.ep_fid(), count: buf@.len() as usize, dest_addr: dest_addr@, addr: dest_slice.mem_address_spec(), key: dest_slice.key_spec(), datatype: T::fi_datatype().raw_value(), op: AtomicOp::Bxor.raw_value() }),
    {
        self.atomic_inject_bxor_to(buf, dest_addr, dest_slice.mem_address(), dest_slice.key())
    }

    fn atomic_inject_lor_mr_slice_to(&self, buf: &[bool], dest_addr: &MappedAddress, dest_slice: &RemoteMemAddrSliceMut<bool>) -> (r: AtomicCall)
        ensures
            r == (AtomicCall::InjectAtomic { ep: self.ep_fid(), count: buf@.len() as usize, dest_addr: dest_addr@, addr: dest_slice.mem_address_spec(), key: dest_slice.key_spec(), datatype: <bool as AsFiType>::fi_datatype().raw_value(), op: AtomicOp::Lor.raw_value() }),
    {
        self.atomic_inject_lor_to(buf, dest_addr, dest_slice.mem_address(), dest_slice.key())
    }

    fn atomic_inject_land_mr_slice_to(&self, buf: &[bool], dest_addr: &MappedAddress, dest_slice: &RemoteMemAddrSliceMut<bool>) -> (r: AtomicCall)
        ensures
            r == (AtomicCall::InjectAtomic { ep: self.ep_fid(), count: buf@.len() as usize, dest_addr: dest_addr@, addr: dest_slice.mem_address_spec(), key: dest_slice.key_spec(), datatype: <bool as AsFiType>::fi_datatype().raw_value(), op: AtomicOp::Land.raw_value() }),
    {
        self.atomic_inject_land_to(buf, dest_addr, dest_slice.mem_address(), dest_slice.key())
    }

    fn atomic_inject_lxor_mr_slice_to(&self, buf: &[bool], dest_addr: &MappedAddress, dest_slice: &RemoteMemAddrSliceMut<bool>) -> (r: AtomicCall)
        ensures
            r == (AtomicCall::InjectAtomic { ep: self.ep_fid(), count: buf@.len() as usize, dest_addr: dest_addr@, addr: dest_slice.mem_address_spec(), key: dest_slice.key_spec(), datatype: <bool as AsFiType>::fi_datatype().raw_value(), op: AtomicOp::Lxor.raw_value() }),
    {
        self.atomic_inject_lxor_to(buf, dest_addr, dest_slice.mem_address(), dest_slice.key())
    }
}

impl AtomicWriteRemoteMemAddrSliceEp for ConnectionlessEndpoint {}

/// Atomic updates on a connected endpoint of a remote run of values named by its address and key.
pub trait ConnectedAtomicWriteRemoteMemAddrSliceEp: ConnectedAtomicWriteEp {
    fn atomic_min_mr_slice<T: AsFiType, RT: AsFiType>(&self, buf: &[T], desc: Option<MemoryRegionDesc>, dest_slice: &RemoteMemAddrSliceMut<RT>) -> (r: AtomicCall)
        ensures
            r == (AtomicCall::Atomic { ep: self.ep_fid(), count: buf@.len() as usize, desc: owned_desc_value(desc), dest_addr: FI_ADDR_UNSPEC, addr: dest_slice.mem_address_spec(), key: dest_slice.key_spec(), datatype: T::fi_datatype().raw_value(), op: AtomicOp::Min.raw_value(), context: 0 }),
    {
        self.atomic_min(buf, desc, dest_slice.mem_address(), dest_slice.key())
    }

    fn atomic_max_mr_slice<T: AsFiType, RT: AsFiType>(&self, buf: &[T], desc: Option<MemoryRegionDesc>, dest_slice: &RemoteMemAddrSliceMut<RT>) -> (r: AtomicCall)
        ensures
            r == (AtomicCall::Atomic { ep: self.ep_fid(), count: buf@.len() as usize, desc: owned_desc_value(desc), dest_addr: FI_ADDR_UNSPEC, addr: dest_slice.mem_address_spec(), key: dest_slice.key_spec(), datatype: T::fi_datatype().raw_value(), op: AtomicOp::Max.raw_value(), context: 0 }),
    {
        self.atomic_max(buf, desc, dest_slice.mem_address(), dest_slice.key())
    }

    fn atomic_sum_mr_slice<T: AsFiType, RT: AsFiType>(&self, buf: &[T], desc: Option<MemoryRegionDesc>, dest_slice: &RemoteMemAddrSliceMut<RT>) -> (r: AtomicCall)
        ensures
            r == (AtomicCall::Atomic { ep: self.ep_fid(), count: buf@.len() as usize, desc: owned_desc_value(desc), dest_addr: FI_ADDR_UNSPEC, addr: dest_slice.mem_address_spec(), key: dest_slice.key_spec(), datatype: T::fi_datatype().raw_value(), op: AtomicOp::Sum.raw_value(), context: 0 }),
    {
        self.atomic_sum(buf, desc, dest_slice.mem_address(), dest_slice.key())
    }

    fn atomic_prod_mr_slice<T: AsFiType, RT: AsFiType>(&self, buf: &[T], desc: Option<MemoryRegionDesc>, dest_slice: &RemoteMemAddrSliceMut<RT>) -> (r: AtomicCall)
        ensures
            r == (AtomicCall::Atomic { ep: self.ep_fid(), count: buf@.len() as usize, desc: owned_desc_value(desc), dest_addr: FI_ADDR_UNSPEC, addr: dest_slice.mem_address_spec(), key: dest_slice.key_spec(), datatype: T::fi_datatype().raw_value(), op: AtomicOp::Prod.raw_value(), context: 0 }),
    {
        self.atomic_prod(buf, desc, dest_slice.mem_address(), dest_slice.key())
    }

    fn atomic_bor_mr_slice<T: AsFiType, RT: AsFiType>(&self, buf: &[T], desc: Option<MemoryRegionDesc>, dest_slice: &RemoteMemAddrSliceMut<RT>) -> (r: AtomicCall)
        ensures
            r == (AtomicCall::Atomic { ep: self.ep_fid(), count: buf@.len() as usize, desc: owned_desc_value(desc), dest_addr: FI_ADDR_UNSPEC, addr: dest_slice.mem_address_spec(), key: dest_slice.key_spec(), datatype: T::fi_datatype().raw_value(), op: AtomicOp::Bor.raw_value(), context: 0 }),
    {
        self.atomic_bor(buf, desc, dest_slice.mem_address(), dest_slice.key())
    }

    fn atomic_band_mr_slice<T: AsFiType, RT: AsFiType>(&self, buf: &[T], desc: Option<MemoryRegionDesc>, dest_slice: &RemoteMemAddrSliceMut<RT>) -> (r: AtomicCall)
        ensures
            r == (AtomicCall::Atomic { ep: self.ep_fid(), count: buf@.len() as usize, desc: owned_desc_value(desc), dest_addr: FI_ADDR_UNSPEC, addr: dest_slice.mem_address_spec(), key: dest_slice.key_spec(), datatype: T::fi_datatype().raw_value(), op: AtomicOp::Band.raw_value(), context: 0 }),
    {
        self.atomic_band(buf, desc, dest_slice.mem_address(), dest_slice.key())
    }

    fn atomic_bxor_mr_slice<T: AsFiType, RT: AsFiType>(&self, buf: &[T], desc: Option<MemoryRegionDesc>, dest_slice: &RemoteMemAddrSliceMut<RT>) -> (r: AtomicCall)
        ensures
            r == (AtomicCall::Atomic { ep: self.ep_fid(), count: buf@.len() as usize, desc: owned_desc_value(desc), dest_addr: FI_ADDR_UNSPEC, addr: dest_slice.mem_address_spec(), key: dest_slice.key_spec(), datatype: T::fi_datatype().raw_value(), op: AtomicOp::Bxor.raw_value(), context: 0 }),
    {
        self.atomic_bxor(buf, desc, dest_slice.mem_address(), dest_slice.key())
    }

    fn atomic_lor_mr_slice(&self, buf: &[bool], desc: Option<MemoryRegionDesc>, dest_slice: &RemoteMemAddrSliceMut<bool>) -> (r: AtomicCall)
        ensures
            r == (AtomicCall::Atomic { ep: self.ep_fid(), count: buf@.len() as usize, desc: owned_desc_value(desc), dest_addr: FI_ADDR_UNSPEC, addr: dest_slice.mem_address_spec(), key: dest_slice.key_spec(), datatype: <bool as AsFiType>::fi_datatype().raw_value(), op: AtomicOp::Lor.raw_value(), context: 0 }),
    {
        self.atomic_lor(buf, desc, dest_slice.mem_address(), dest_slice.key())
    }

    fn atomic_land_mr_slice(&self, buf: &[bool], desc: Option<MemoryRegionDesc>, dest_slice: &RemoteMemAddrSliceMut<bool>) -> (r: AtomicCall)
        ensures
            r == (AtomicCall::Atomic { ep: self.ep_fid(), count: buf@.len() as usize, desc: owned_desc_value(desc), dest_addr: FI_ADDR_UNSPEC, addr: dest_slice.mem_address_spec(), key: dest_slice.key_spec(), datatype: <bool as AsFiType>::fi_datatype().raw_value(), op: AtomicOp::Land.raw_value(), context: 0 }),
    {
        self.atomic_land(buf, desc, dest_slice.mem_address(), dest_slice.key())
    }

    fn atomic_lxor_mr_slice(&self, buf: &[bool], desc: Option<MemoryRegionDesc>, dest_slice: &RemoteMemAddrSliceMut<bool>) -> (r: AtomicCall)
        ensures
            r == (AtomicCall::Atomic { ep: self.ep_fid(), count: buf@.len() as usize, desc: owned_desc_value(desc), dest_addr: FI_ADDR_UNSPEC, addr: dest_slice.mem_address_spec(), key: dest_slice.key_spec(), datatype: <bool as AsFiType>::fi_datatype().raw_value(), op: AtomicOp::Lxor.raw_value(), context: 0 }),
    {
        self.atomic_lxor(buf, desc, dest_slice.mem_address(), dest_slice.key())
    }

    fn atomic_min_mr_slice_with_context<T: AsFiType, RT: AsFiType>(&self, buf: &[T], desc: Option<MemoryRegionDesc>, dest_slice: &RemoteMemAddrSliceMut<RT>, context: &mut Context) -> (r: AtomicCall)
        ensures
            r == (AtomicCall::Atomic { ep: self.ep_fid(), count: buf@.len() as usize, desc: owned_desc_value(desc), dest_addr: FI_ADDR_UNSPEC, addr: dest_slice.mem_address_spec(), key: dest_slice.key_spec(), datatype: T::fi_datatype().raw_value(), op: AtomicOp::Min.raw_value(), context: old(context)@ }),
            *final(context) == *old(context),
    {
        self.atomic_min_with_context(buf, desc, dest_slice.mem_address(), dest_slice.key(), context)
    }

    fn atomic_max_mr_slice_with_context<T: AsFiType, RT: AsFiType>(&self, buf: &[T], desc: Option<MemoryRegionDesc>, dest_slice: &RemoteMemAddrSliceMut<RT>, context: &mut Context) -> (r: AtomicCall)
        ensures
            r == (AtomicCall::Atomic { ep: self.ep_fid(), count: buf@.len() as usize, desc: owned_desc_value(desc), dest_addr: FI_ADDR_UNSPEC, addr: dest_slice.mem_address_spec(), key: dest_slice.key_spec(), datatype: T::fi_datatype().raw_value(), op: AtomicOp::Max.raw_value(), context: old(context)@ }),
            *final(context) == *old(context),
    {
        self.atomic_max_with_context(buf, desc, dest_slice.mem_address(), dest_slice.key(), context)
    }

    fn atomic_sum_mr_slice_with_context<T: AsFiType, RT: AsFiType>(&self, buf: &[T], desc: Option<MemoryRegionDesc>, dest_slice: &RemoteMemAddrSliceMut<RT>, context: &mut Context) -> (r: AtomicCall)
        ensures
            r == (AtomicCall::Atomic { ep: self.ep_fid(), count: buf@.len() as usize, desc: owned_desc_value(desc), dest_addr: FI_ADDR_UNSPEC, addr: dest_slice.mem_address_spec(), key: dest_slice.key_spec(), datatype: T::fi_datatype().raw_value(), op: AtomicOp::Sum.raw_value(), context: old(context)@ }),
            *final(context) == *old(context),
    {
        self.atomic_sum_with_context(buf, desc, dest_slice.mem_address(), dest_slice.key(), context)
    }

    fn atomic_prod_mr_slice_with_context<T: AsFiType, RT: AsFiType>(&self, buf: &[T], desc: Option<MemoryRegionDesc>, dest_slice: &RemoteMemAddrSliceMut<RT>, context: &mut Context) -> (r: AtomicCall)
        ensures
            r == (AtomicCall::Atomic { ep: self.ep_fid(), count: buf@.len() as usize, desc: owned_desc_value(desc), dest_addr: FI_ADDR_UNSPEC, addr: dest_slice.mem_address_spec(), key: dest_slice.key_spec(), datatype: T::fi_datatype().raw_value(), op: AtomicOp::Prod.raw_value(), context: old(context)@ }),
            *final(context) == *old(context),
    {
        self.atomic_prod_with_context(buf, desc, dest_slice.mem_address(), dest_slice.key(), context)
    }

    fn atomic_bor_mr_slice_with_context<T: AsFiType, RT: AsFiType>(&self, buf: &[T], desc: Option<MemoryRegionDesc>, dest_slice: &RemoteMemAddrSliceMut<RT>, context: &mut Context) -> (r: AtomicCall)
        ensures
            r == (AtomicCall::Atomic { ep: self.ep_fid(), count: buf@.len() as usize, desc: owned_desc_value(desc), dest_addr: FI_ADDR_UNSPEC, addr: dest_slice.mem_address_spec(), key: dest_slice.key_spec(), datatype: T::fi_datatype().raw_value(), op: AtomicOp::Bor.raw_value(), context: old(context)@ }),
            *final(context) == *old(context),
    {
        self.atomic_bor_with_context(buf, desc, dest_slice.mem_address(), dest_slice.key(), context)
    }

    fn atomic_band_mr_slice_with_context<T: AsFiType, RT: AsFiType>(&self, buf: &[T], desc: Option<MemoryRegionDesc>, dest_slice: &RemoteMemAddrSliceMut<RT>, context: &mut Context) -> (r: AtomicCall)
        ensures
            r == (AtomicCall::Atomic { ep: self.ep_fid(), count: buf@.len() as usize, desc: owned_desc_value(desc), dest_addr: FI_ADDR_UNSPEC, addr: dest_slice.mem_address_spec(), key: dest_slice.key_spec(), datatype: T::fi_datatype().raw_value(), op: AtomicOp::Band.raw_value(), context: old(context)@ }),
            *final(context) == *old(context),
    {
        self.atomic_band_with_context(buf, desc, dest_slice.mem_address(), dest_slice.key(), context)
    }

    fn atomic_bxor_mr_slice_with_context<T: AsFiType, RT: AsFiType>(&self, buf: &[T], desc: Option<MemoryRegionDesc>, dest_slice: &RemoteMemAddrSliceMut<RT>, context: &mut Context) -> (r: AtomicCall)
        ensures
            r == (AtomicCall::Atomic { ep: self.ep_fid(), count: buf@.len() as usize, desc: owned_desc_value(desc), dest_addr: FI_ADDR_UNSPEC, addr: dest_slice.mem_address_spec(), key: dest_slice.key_spec(), datatype: T::fi_datatype().raw_value(), op: AtomicOp::Bxor.raw_value(), context: old(context)@ }),
            *final(context) == *old(context),
    {
        self.atomic_bxor_with_context(buf, desc, dest_slice.mem_address(), dest_slice.key(), context)
    }

    fn atomic_lor_mr_slice_with_context(&self, buf: &[bool], desc: Option<MemoryRegionDesc>, dest_slice: &RemoteMemAddrSliceMut<bool>, context: &mut Context) -> (r: AtomicCall)
        ensures
            r == (AtomicCall::Atomic { ep: self.ep_fid(), count: buf@.len() as usize, desc: owned_desc_value(desc), dest_addr: FI_ADDR_UNSPEC, addr: dest_slice.mem_address_spec(), key: dest_slice.key_spec(), datatype: <bool as AsFiType>::fi_datatype().raw_value(), op: AtomicOp::Lor.raw_value(), context: old(context)@ }),
            *final(context) == *old(context),
    {
        self.atomic_lor_with_context(buf, desc, dest_slice.mem_address(), dest_slice.key(), context)
    }

    fn atomic_land_mr_slice_with_context(&self, buf: &[bool], desc: Option<MemoryRegionDesc>, dest_slice: &RemoteMemAddrSliceMut<bool>, context: &mut Context) -> (r: AtomicCall)
        ensures
            r == (AtomicCall::Atomic { ep: self.ep_fid(), count: buf@.len() as usize, desc: owned_desc_value(desc), dest_addr: FI_ADDR_UNSPEC, addr: dest_slice.mem_address_spec(), key: dest_slice.key_spec(), datatype: <bool as AsFiType>::fi_datatype().raw_value(), op: AtomicOp::Land.raw_value(), context: old(context)@ }),
            *final(context) == *old(context),
    {
        self.atomic_land_with_context(buf, desc, dest_slice.mem_address(), dest_slice.key(), context)
    }

    fn atomic_lxor_mr_slice_with_context(&self, buf: &[bool], desc: Option<MemoryRegionDesc>, dest_slice: &RemoteMemAddrSliceMut<bool>, context: &mut Context) -> (r: AtomicCall)
        ensures
            r == (AtomicCall::Atomic { ep: self.ep_fid(), count: buf@.len() as usize, desc: owned_desc_value(desc), dest_addr: FI_ADDR_UNSPEC, addr: dest_slice.mem_address_spec(), key: dest_slice.key_spec(), datatype: <bool as AsFiType>::fi_datatype().raw_value(), op: AtomicOp::Lxor.raw_value(), context: old(context)@ }),
            *final(context) == *old(context),
    {
        self.atomic_lxor_with_context(buf, desc, dest_slice.mem_address(), dest_slice.key(), context)
    }

    fn atomic_min_mr_slice_triggered<T: AsFiType, RT: AsFiType>(&self, buf: &[T], desc: Option<MemoryRegionDesc>, dest_slice: &RemoteMemAddrSliceMut<RT>, context: &mut TriggeredContext) -> (r: AtomicCall)
        ensures
            r == (AtomicCall::Atomic { ep: self.ep_fid(), count: buf@.len() as usize, desc: owned_desc_value(desc), dest_addr: FI_ADDR_UNSPEC, addr: dest_slice.mem_address_spec(), key: dest_slice.key_spec(), datatype: T::fi_datatype().raw_value(), op: AtomicOp::Min.raw_value(), context: old(context)@ }),
            *final(context) == *old(context),
    {
        self.atomic_min_triggered(buf, desc, dest_slice.mem_address(), dest_slice.key(), context)
    }

    fn atomic_max_mr_slice_triggered<T: AsFiType, RT: AsFiType>(&self, buf: &[T], desc: Option<MemoryRegionDesc>, dest_slice: &RemoteMemAddrSliceMut<RT>, context: &mut TriggeredContext) -> (r: AtomicCall)
        ensures
            r == (AtomicCall::Atomic { ep: self.ep_fid(), count: buf@.len() as usize, desc: owned_desc_value(desc), dest_addr: FI_ADDR_UNSPEC, addr: dest_slice.mem_address_spec(), key: dest_slice.key_spec(), datatype: T::fi_datatype().raw_value(), op: AtomicOp::Max.raw_value(), context: old(context)@ }),
            *final(context) == *old(context),
    {
        self.atomic_max_triggered(buf, desc, dest_slice.mem_address(), dest_slice.key(), context)
    }

    fn atomic_sum_mr_slice_triggered<T: AsFiType, RT: AsFiType>(&self, buf: &[T], desc: Option<MemoryRegionDesc>, dest_slice: &RemoteMemAddrSliceMut<RT>, context: &mut TriggeredContext) -> (r: AtomicCall)
        ensures
            r == (AtomicCall::Atomic { ep: self.ep_fid(), count: buf@.len() as usize, desc: owned_desc_value(desc), dest_addr: FI_ADDR_UNSPEC, addr: dest_slice.mem_address_spec(), key: dest_slice.key_spec(), datatype: T::fi_datatype().raw_value(), op: AtomicOp::Sum.raw_value(), context: old(context)@ }),
            *final(context) == *old(context),
    {
        self.atomic_sum_triggered(buf, desc, dest_slice.mem_address(), dest_slice.key(), context)
    }

    fn atomic_prod_mr_slice_triggered<T: AsFiType, RT: AsFiType>(&self, buf: &[T], desc: Option<MemoryRegionDesc>, dest_slice: &RemoteMemAddrSliceMut<RT>, context: &mut TriggeredContext) -> (r: AtomicCall)
        ensures
            r == (AtomicCall::Atomic { ep: self.ep_fid(), count: buf@.len() as usize, desc: owned_desc_value(desc), dest_addr: FI_ADDR_UNSPEC, addr: dest_slice.mem_address_spec(), key: dest_slice.key_spec(), datatype: T::fi_datatype().raw_value(), op: AtomicOp::Prod.raw_value(), context: old(context)@ }),
            *final(context) == *old(context),
    {
        self.atomic_prod_triggered(buf, desc, dest_slice.mem_address(), dest_slice.key(), context)
    }

    fn atomic_bor_mr_slice_triggered<T: AsFiType, RT: AsFiType>(&self, buf: &[T], desc: Option<MemoryRegionDesc>, dest_slice: &RemoteMemAddrSliceMut<RT>, context: &mut TriggeredContext) -> (r: AtomicCall)
        ensures
            r == (AtomicCall::Atomic { ep: self.ep_fid(), count: buf@.len() as usize, desc: owned_desc_value(desc), dest_addr: FI_ADDR_UNSPEC, addr: dest_slice.mem_address_spec(), key: dest_slice.key_spec(), datatype: T::fi_datatype().raw_value(), op: AtomicOp::Bor.raw_value(), context: old(context)@ }),
            *final(context) == *old(context),
    {
        self.atomic_bor_triggered(buf, desc, dest_slice.mem_address(), dest_slice.key(), context)
    }

    fn atomic_band_mr_slice_triggered<T: AsFiType, RT: AsFiType>(&self, buf: &[T], desc: Option<MemoryRegionDesc>, dest_slice: &RemoteMemAddrSliceMut<RT>, context: &mut TriggeredContext) -> (r: AtomicCall)
        ensures
            r == (AtomicCall::Atomic { ep: self.ep_fid(), count: buf@.len() as usize, desc: owned_desc_value(desc), dest_addr: FI_ADDR_UNSPEC, addr: dest_slice.mem_address_spec(), key: dest_slice.key_spec(), datatype: T::fi_datatype().raw_value(), op: AtomicOp::Band.raw_value(), context: old(context)@ }),
            *final(context) == *old(context),
    {
        self.atomic_band_triggered(buf, desc, dest_slice.mem_address(), dest_slice.key(), context)
    }

    fn atomic_bxor_mr_slice_triggered<T: AsFiType, RT: AsFiType>(&self, buf: &[T], desc: Option<MemoryRegionDesc>, dest_slice: &RemoteMemAddrSliceMut<RT>, context: &mut TriggeredContext) -> (r: AtomicCall)
        ensures
            r == (AtomicCall::Atomic { ep: self.ep_fid(), count: buf@.len() as usize, desc: owned_desc_value(desc), dest_addr: FI_ADDR_UNSPEC, addr: dest_slice.mem_address_spec(), key: dest_slice.key_spec(), datatype: T::fi_datatype().raw_value(), op: AtomicOp::Bxor.raw_value(), context: old(context)@ }),
            *final(context) == *old(context),
    {
        self.atomic_bxor_triggered(buf, desc, dest_slice.mem_address(), dest_slice.key(), context)
    }

    fn atomic_lor_mr_slice_triggered(&self, buf: &[bool], desc: Option<MemoryRegionDesc>, dest_slice: &RemoteMemAddrSliceMut<bool>, context: &mut TriggeredContext) -> (r: AtomicCall)
        ensures
            r == (AtomicCall::Atomic { ep: self.ep_fid(), count: buf@.len() as usize, desc: owned_desc_value(desc), dest_addr: FI_ADDR_UNSPEC, addr: dest_slice.mem_address_spec(), key: dest_slice.key_spec(), datatype: <bool as AsFiType>::fi_datatype().raw_value(), op: AtomicOp::Lor.raw_value(), context: old(context)@ }),
            *final(context) == *old(context),
    {
        self.atomic_lor_triggered(buf, desc, dest_slice.mem_address(), dest_slice.key(), context)
    }

    fn atomic_land_mr_slice_triggered(&self, buf: &[bool], desc: Option<MemoryRegionDesc>, dest_slice: &RemoteMemAddrSliceMut<bool>, context: &mut TriggeredContext) -> (r: AtomicCall)
        ensures
            r == (AtomicCall::Atomic { ep: self.ep_fid(), count: buf@.len() as usize, desc: owned_desc_value(desc), dest_addr: FI_ADDR_UNSPEC, addr: dest_slice.mem_address_spec(), key: dest_slice.key_spec(), datatype: <bool as AsFiType>::fi_datatype().raw_value(), op: AtomicOp::Land.raw_value(), context: old(context)@ }),
            *final(context) == *old(context),
    {
        self.atomic_land_triggered(buf, desc, dest_slice.mem_address(), dest_slice.key(), context)
    }

    fn atomic_lxor_mr_slice_triggered(&self, buf: &[bool], desc: Option<MemoryRegionDesc>, dest_slice: &RemoteMemAddrSliceMut<bool>, context: &mut TriggeredContext) -> (r: AtomicCall)
        ensures
            r == (AtomicCall::Atomic { ep: self.ep_fid(), count: buf@.len() as usize, desc: owned_desc_value(desc), dest_addr: FI_ADDR_UNSPEC, addr: dest_slice.mem_address_spec(), key: dest_slice.key_spec(), datatype: <bool as AsFiType>::fi_datatype().raw_value(), op: AtomicOp::Lxor.raw_value(), context: old(context)@ }),
            *final(context) == *old(context),
    {
        self.atomic_lxor_triggered(buf, desc, dest_slice.mem_address(), dest_slice.key(), context)
    }

    fn atomicv_min_mr_slice<T: AsFiType, RT: AsFiType>(&self, ioc: &[Ioc<T>], desc: Option<&[MemoryRegionDesc]>, dest_slice: &RemoteMemAddrSliceMut<RT>) -> (r: AtomicCall)
        ensures
            r == (AtomicCall::Atomicv { ep: self.ep_fid(), count: ioc@.len() as usize, descs: desc is Some, dest_addr: FI_ADDR_UNSPEC, addr: dest_slice.mem_address_spec(), key: dest_slice.key_spec(), datatype: T::fi_datatype().raw_value(), op: AtomicOp::Min.raw_value(), context: 0 }),
    {
        self.atomicv_min(ioc, desc, dest_slice.mem_address(), dest_slice.key())
    }

    fn atomicv_max_mr_slice<T: AsFiType, RT: AsFiType>(&self, ioc: &[Ioc<T>], desc: Option<&[MemoryRegionDesc]>, dest_slice: &RemoteMemAddrSliceMut<RT>) -> (r: AtomicCall)
        ensures
            r == (AtomicCall::Atomicv { ep: self.ep_fid(), count: ioc@.len() as usize, descs: desc is Some, dest_addr: FI_ADDR_UNSPEC, addr: dest_slice.mem_address_spec(), key: dest_slice.key_spec(), datatype: T::fi_datatype().raw_value(), op: AtomicOp::Max.raw_value(), context: 0 }),
    {
        self.atomicv_max(ioc, desc, dest_slice.mem_address(), dest_slice.key())
    }

    fn atomicv_sum_mr_slice<T: AsFiType, RT: AsFiType>(&self, ioc: &[Ioc<T>], desc: Option<&[MemoryRegionDesc]>, dest_slice: &RemoteMemAddrSliceMut<RT>) -> (r: AtomicCall)
        ensures
            r == (AtomicCall::Atomicv { ep: self.ep_fid(), count: ioc@.len() as usize, descs: desc is Some, dest_addr: FI_ADDR_UNSPEC, addr: dest_slice.mem_address_spec(), key: dest_slice.key_spec(), datatype: T::fi_datatype().raw_value(), op: AtomicOp::Sum.raw_value(), context: 0 }),
    {
        self.atomicv_sum(ioc, desc, dest_slice.mem_address(), dest_slice.key())
    }

    fn atomicv_prod_mr_slice<T: AsFiType, RT: AsFiType>(&self, ioc: &[Ioc<T>], desc: Option<&[MemoryRegionDesc]>, dest_slice: &RemoteMemAddrSliceMut<RT>) -> (r: AtomicCall)
        ensures
            r == (AtomicCall::Atomicv { ep: self.ep_fid(), count: ioc@.len() as usize, descs: desc is Some, dest_addr: FI_ADDR_UNSPEC, addr: dest_slice.mem_address_spec(), key: dest_slice.key_spec(), datatype: T::fi_datatype().raw_value(), op: AtomicOp::Prod.raw_value(), context: 0 }),
    {
        self.atomicv_prod(ioc, desc, dest_slice.mem_address(), dest_slice.key())
    }

    fn atomicv_bor_mr_slice<T: AsFiType, RT: AsFiType>(&self, ioc: &[Ioc<T>], desc: Option<&[MemoryRegionDesc]>, dest_slice: &RemoteMemAddrSliceMut<RT>) -> (r: AtomicCall)
        ensures
            r == (AtomicCall::Atomicv { ep: self.ep_fid(), count: ioc@.len() as usize, descs: desc is Some, dest_addr: FI_ADDR_UNSPEC, addr: dest_slice.mem_address_spec(), key: dest_slice.key_spec(), datatype: T::fi_datatype().raw_value(), op: AtomicOp::Bor.raw_value(), context: 0 }),
    {
        self.atomicv_bor(ioc, desc, dest_slice.mem_address(), dest_slice.key())
    }

    fn atomicv_band_mr_slice<T: AsFiType, RT: AsFiType>(&self, ioc: &[Ioc<T>], desc: Option<&[MemoryRegionDesc]>, dest_slice: &RemoteMemAddrSliceMut<RT>) -> (r: AtomicCall)
        ensures
            r == (AtomicCall::Atomicv { ep: self.ep_fid(), count: ioc@.len() as usize, descs: desc is Some, dest_addr: FI_ADDR_UNSPEC, addr: dest_slice.mem_address_spec(), key: dest_slice.key_spec(), datatype: T::fi_datatype().raw_value(), op: AtomicOp::Band.raw_value(), context: 0 }),
    {
        self.atomicv_band(ioc, desc, dest_slice.mem_address(), dest_slice.key())
    }

    fn atomicv_bxor_mr_slice<T: AsFiType, RT: AsFiType>(&self, ioc: &[Ioc<T>], desc: Option<&[MemoryRegionDesc]>, dest_slice: &RemoteMemAddrSliceMut<RT>) -> (r: AtomicCall)
        ensures
            r == (AtomicCall::Atomicv { ep: self.ep_fid(), count: ioc@.len() as usize, descs: desc is Some, dest_addr: FI_ADDR_UNSPEC, addr: dest_slice.mem_address_spec(), key: dest_slice.key_spec(), datatype: T::fi_datatype().raw_value(), op: AtomicOp::Bxor.raw_value(), context: 0 }),
    {
        self.atomicv_bxor(ioc, desc, dest_slice.mem_address(), dest_slice.key())
    }

    fn atomicv_lor_mr_slice(&self, ioc: &[Ioc<bool>], desc: Option<&[MemoryRegionDesc]>, dest_slice: &RemoteMemAddrSliceMut<bool>) -> (r: AtomicCall)
        ensures
            r == (AtomicCall::Atomicv { ep: self.ep_fid(), count: ioc@.len() as usize, descs: desc is Some, dest_addr: FI_ADDR_UNSPEC, addr: dest_slice.mem_address_spec(), key: dest_slice.key_spec(), datatype: <bool as AsFiType>::fi_datatype().raw_value(), op: AtomicOp::Lor.raw_value(), context: 0 }),
    {
        self.atomicv_lor(ioc, desc, dest_slice.mem_address(), dest_slice.key())
    }

    fn atomicv_land_mr_slice(&self, ioc: &[Ioc<bool>], desc: Option<&[MemoryRegionDesc]>, dest_slice: &RemoteMemAddrSliceMut<bool>) -> (r: AtomicCall)
        ensures
            r == (AtomicCall::Atomicv { ep: self.ep_fid(), count: ioc@.len() as usize, descs: desc is Some, dest_addr: FI_ADDR_UNSPEC, addr: dest_slice.mem_address_spec(), key: dest_slice.key_spec(), datatype: <bool as AsFiType>::fi_datatype().raw_value(), op: AtomicOp::Land.raw_value(), context: 0 }),
    {
        self.atomicv_land(ioc, desc, dest_slice.mem_address(), dest_slice.key())
    }

    fn atomicv_lxor_mr_slice(&self, ioc: &[Ioc<bool>], desc: Option<&[MemoryRegionDesc]>, dest_slice: &RemoteMemAddrSliceMut<bool>) -> (r: AtomicCall)
        ensures
            r == (AtomicCall::Atomicv { ep: self.ep_fid(), count: ioc@.len() as usize, descs: desc is Some, dest_addr: FI_ADDR_UNSPEC, addr: dest_slice.mem_address_spec(), key: dest_slice.key_spec(), datatype: <bool as AsFiType>::fi_datatype().raw_value(), op: AtomicOp::Lxor.raw_value(), context: 0 }),
    {
        self.atomicv_lxor(ioc, desc, dest_slice.mem_address(), dest_slice.key())
    }

    fn atomicv_min_mr_slice_with_context<T: AsFiType, RT: AsFiType>(&self, ioc: &[Ioc<T>], desc: Option<&[MemoryRegionDesc]>, dest_slice: &RemoteMemAddrSliceMut<RT>, context: &mut Context) -> (r: AtomicCall)
        ensures
            r == (AtomicCall::Atomicv { ep: self.ep_fid(), count: ioc@.len() as usize, descs: desc is Some, dest_addr: FI_ADDR_UNSPEC, addr: dest_slice.mem_address_spec(), key: dest_slice.key_spec(), datatype: T::fi_datatype().raw_value(), op: AtomicOp::Min.raw_value(), context: old(context)@ }),
            *final(context) == *old(context),
    {
        self.atomicv_min_with_context(ioc, desc, dest_slice.mem_address(), dest_slice.key(), context)
    }

    fn atomicv_max_mr_slice_with_context<T: AsFiType, RT: AsFiType>(&self, ioc: &[Ioc<T>], desc: Option<&[MemoryRegionDesc]>, dest_slice: &RemoteMemAddrSliceMut<RT>, context: &mut Context) -> (r: AtomicCall)
        ensures
            r == (AtomicCall::Atomicv { ep: self.ep_fid(), count: ioc@.len() as usize, descs: desc is Some, dest_addr: FI_ADDR_UNSPEC, addr: dest_slice.mem_address_spec(), key: dest_slice.key_spec(), datatype: T::fi_datatype().raw_value(), op: AtomicOp::Max.raw_value(), context: old(context)@ }),
            *final(context) == *old(context),
    {
        self.atomicv_max_with_context(ioc, desc, dest_slice.mem_address(), dest_slice.key(), context)
    }

    fn atomicv_sum_mr_slice_with_context<T: AsFiType, RT: AsFiType>(&self, ioc: &[Ioc<T>], desc: Option<&[MemoryRegionDesc]>, dest_slice: &RemoteMemAddrSliceMut<RT>, context: &mut Context) -> (r: AtomicCall)
        ensures
            r == (AtomicCall::Atomicv { ep: self.ep_fid(), count: ioc@.len() as usize, descs: desc is Some, dest_addr: FI_ADDR_UNSPEC, addr: dest_slice.mem_address_spec(), key: dest_slice.key_spec(), datatype: T::fi_datatype().raw_value(), op: AtomicOp::Sum.raw_value(), context: old(context)@ }),
            *final(context) == *old(context),
    {
        self.atomicv_sum_with_context(ioc, desc, dest_slice.mem_address(), dest_slice.key(), context)
    }

    fn atomicv_prod_mr_slice_with_context<T: AsFiType, RT: AsFiType>(&self, ioc: &[Ioc<T>], desc: Option<&[MemoryRegionDesc]>, dest_slice: &RemoteMemAddrSliceMut<RT>, context: &mut Context) -> (r: AtomicCall)
        ensures
            r == (AtomicCall::Atomicv { ep: self.ep_fid(), count: ioc@.len() as usize, descs: desc is Some, dest_addr: FI_ADDR_UNSPEC, addr: dest_slice.mem_address_spec(), key: dest_slice.key_spec(), datatype: T::fi_datatype().raw_value(), op: AtomicOp::Prod.raw_value(), context: old(context)@ }),
            *final(context) == *old(context),
    {
        self.atomicv_prod_with_context(ioc, desc, dest_slice.mem_address(), dest_slice.key(), context)
    }

    fn atomicv_bor_mr_slice_with_context<T: AsFiType, RT: AsFiType>(&self, ioc: &[Ioc<T>], desc: Option<&[MemoryRegionDesc]>, dest_slice: &RemoteMemAddrSliceMut<RT>, context: &mut Context) -> (r: AtomicCall)
        ensures
            r == (AtomicCall::Atomicv { ep: self.ep_fid(), count: ioc@.len() as usize, descs: desc is Some, dest_addr: FI_ADDR_UNSPEC, addr: dest_slice.mem_address_spec(), key: dest_slice.key_spec(), datatype: T::fi_datatype().raw_value(), op: AtomicOp::Bor.raw_value(), context: old(context)@ }),
            *final(context) == *old(context),
    {
        self.atomicv_bor_with_context(ioc, desc, dest_slice.mem_address(), dest_slice.key(), context)
    }

    fn atomicv_band_mr_slice_with_context<T: AsFiType, RT: AsFiType>(&self, ioc: &[Ioc<T>], desc: Option<&[MemoryRegionDesc]>, dest_slice: &RemoteMemAddrSliceMut<RT>, context: &mut Context) -> (r: AtomicCall)
        ensures
            r == (AtomicCall::Atomicv { ep: self.ep_fid(), count: ioc@.len() as usize, descs: desc is Some, dest_addr: FI_ADDR_UNSPEC, addr: dest_slice.mem_address_spec(), key: dest_slice.key_spec(), datatype: T::fi_datatype().raw_value(), op: AtomicOp::Band.raw_value(), context: old(context)@ }),
            *final(context) == *old(context),
    {
        self.atomicv_band_with_context(ioc, desc, dest_slice.mem_address(), dest_slice.key(), context)
    }

    fn atomicv_bxor_mr_slice_with_context<T: AsFiType, RT: AsFiType>(&self, ioc: &[Ioc<T>], desc: Option<&[MemoryRegionDesc]>, dest_slice: &RemoteMemAddrSliceMut<RT>, context: &mut Context) -> (r: AtomicCall)
        ensures
            r == (AtomicCall::Atomicv { ep: self.ep_fid(), count: ioc@.len() as usize, descs: desc is Some, dest_addr: FI_ADDR_UNSPEC, addr: dest_slice.mem_address_spec(), key: dest_slice.key_spec(), datatype: T::fi_datatype().raw_value(), op: AtomicOp::Bxor.raw_value(), context: old(context)@ }),
            *final(context) == *old(context),
    {
        self.atomicv_bxor_with_context(ioc, desc, dest_slice.mem_address(), dest_slice.key(), context)
    }

    fn atomicv_lor_mr_slice_with_context(&self, ioc: &[Ioc<bool>], desc: Option<&[MemoryRegionDesc]>, dest_slice: &RemoteMemAddrSliceMut<bool>, context: &mut Context) -> (r: AtomicCall)
        ensures
            r == (AtomicCall::Atomicv { ep: self.ep_fid(), count: ioc@.len() as usize, descs: desc is Some, dest_addr: FI_ADDR_UNSPEC, addr: dest_slice.mem_address_spec(), key: dest_slice.key_spec(), datatype: <bool as AsFiType>::fi_datatype().raw_value(), op: AtomicOp::Lor.raw_value(), context: old(context)@ }),
            *final(context) == *old(context),
    {
        self.atomicv_lor_with_context(ioc, desc, dest_slice.mem_address(), dest_slice.key(), context)
    }

    fn atomicv_land_mr_slice_with_context(&self, ioc: &[Ioc<bool>], desc: Option<&[MemoryRegionDesc]>, dest_slice: &RemoteMemAddrSliceMut<bool>, context: &mut Context) -> (r: AtomicCall)
        ensures
            r == (AtomicCall::Atomicv { ep: self.ep_fid(), count: ioc@.len() as usize, descs: desc is Some, dest_addr: FI_ADDR_UNSPEC, addr: dest_slice.mem_address_spec(), key: dest_slice.key_spec(), datatype: <bool as AsFiType>::fi_datatype().raw_value(), op: AtomicOp::Land.raw_value(), context: old(context)@ }),
            *final(context) == *old(context),
    {
        self.atomicv_land_with_context(ioc, desc, dest_slice.mem_address(), dest_slice.key(), context)
    }

    fn atomicv_lxor_mr_slice_with_context(&self, ioc: &[Ioc<bool>], desc: Option<&[MemoryRegionDesc]>, dest_slice: &RemoteMemAddrSliceMut<bool>, context: &mut Context) -> (r: AtomicCall)
        ensures
            r == (AtomicCall::Atomicv { ep: self.ep_fid(), count: ioc@.len() as usize, descs: desc is Some, dest_addr: FI_ADDR_UNSPEC, addr: dest_slice.mem_address_spec(), key: dest_slice.key_spec(), datatype: <bool as AsFiType>::fi_datatype().raw_value(), op: AtomicOp::Lxor.raw_value(), context: old(context)@ }),
            *final(context) == *old(context),
    {
        self.atomicv_lxor_with_context(ioc, desc, dest_slice.mem_address(), dest_slice.key(), context)
    }

    fn atomicv_min_tmr_slice_riggered<T: AsFiType, RT: AsFiType>(&self, ioc: &[Ioc<T>], desc: Option<&[MemoryRegionDesc]>, dest_slice: &RemoteMemAddrSliceMut<RT>, context: &mut TriggeredContext) -> (r: AtomicCall)
        ensures
            r == (AtomicCall::Atomicv { ep: self.ep_fid(), count: ioc@.len() as usize, descs: desc is Some, dest_addr: FI_ADDR_UNSPEC, addr: dest_slice.mem_address_spec(), key: dest_slice.key_spec(), datatype: T::fi_datatype().raw_value(), op: AtomicOp::Min.raw_value(), context: old(context)@ }),
            *final(context) == *old(context),
    {
        self.atomicv_min_triggered(ioc, desc, dest_slice.mem_address(), dest_slice.key(), context)
    }

    fn atomicv_max_tmr_slice_riggered<T: AsFiType, RT: AsFiType>(&self, ioc: &[Ioc<T>], desc: Option<&[MemoryRegionDesc]>, dest_slice: &RemoteMemAddrSliceMut<RT>, context: &mut TriggeredContext) -> (r: AtomicCall)
        ensures
            r == (AtomicCall::Atomicv { ep: self.ep_fid(), count: ioc@.len() as usize, descs: desc is Some, dest_addr: FI_ADDR_UNSPEC, addr: dest_slice.mem_address_spec(), key: dest_slice.key_spec(), datatype: T::fi_datatype().raw_value(), op: AtomicOp::Max.raw_value(), context: old(context)@ }),
            *final(context) == *old(context),
    {
        self.atomicv_max_triggered(ioc, desc, dest_slice.mem_address(), dest_slice.key(), context)
    }

    fn atomicv_sum_tmr_slice_riggered<T: AsFiType, RT: AsFiType>(&self, ioc: &[Ioc<T>], desc: Option<&[MemoryRegionDesc]>, dest_slice: &RemoteMemAddrSliceMut<RT>, context: &mut TriggeredContext) -> (r: AtomicCall)
        ensures
            r == (AtomicCall::Atomicv { ep: self.ep_fid(), count: ioc@.len() as usize, descs: desc is Some, dest_addr: FI_ADDR_UNSPEC, addr: dest_slice.mem_address_spec(), key: dest_slice.key_spec(), datatype: T::fi_datatype().raw_value(), op: AtomicOp::Sum.raw_value(), context: old(context)@ }),
            *final(context) == *old(context),
    {
        self.atomicv_sum_triggered(ioc, desc, dest_slice.mem_address(), dest_slice.key(), context)
    }

    fn atomicv_prod_mr_slice_triggered<T: AsFiType, RT: AsFiType>(&self, ioc: &[Ioc<T>], desc: Option<&[MemoryRegionDesc]>, dest_slice: &RemoteMemAddrSliceMut<RT>, context: &mut TriggeredContext) -> (r: AtomicCall)
        ensures
            r == (AtomicCall::Atomicv { ep: self.ep_fid(), count: ioc@.len() as usize, descs: desc is Some, dest_addr: FI_ADDR_UNSPEC, addr: dest_slice.mem_address_spec(), key: dest_slice.key_spec(), datatype: T::fi_datatype().raw_value(), op: AtomicOp::Prod.raw_value(), context: old(context)@ }),
            *final(context) == *old(context),
    {
        self.atomicv_prod_triggered(ioc, desc, dest_slice.mem_address(), dest_slice.key(), context)
    }

    fn atomicv_bor_tmr_slice_riggered<T: AsFiType, RT: AsFiType>(&self, ioc: &[Ioc<T>], desc: Option<&[MemoryRegionDesc]>, dest_slice: &RemoteMemAddrSliceMut<RT>, context: &mut TriggeredContext) -> (r: AtomicCall)
        ensures
            r == (AtomicCall::Atomicv { ep: self.ep_fid(), count: ioc@.len() as usize, descs: desc is Some, dest_addr: FI_ADDR_UNSPEC, addr: dest_slice.mem_address_spec(), key: dest_slice.key_spec(), datatype: T::fi_datatype().raw_value(), op: AtomicOp::Bor.raw_value(), context: old(context)@ }),
            *final(context) == *old(context),
    {
        self.atomicv_bor_triggered(ioc, desc, dest_slice.mem_address(), dest_slice.key(), context)
    }

    fn atomicv_band_mr_slice_triggered<T: AsFiType, RT: AsFiType>(&self, ioc: &[Ioc<T>], desc: Option<&[MemoryRegionDesc]>, dest_slice: &RemoteMemAddrSliceMut<RT>, context: &mut TriggeredContext) -> (r: AtomicCall)
        ensures
            r == (AtomicCall::Atomicv { ep: self.ep_fid(), count: ioc@.len() as usize, descs: desc is Some, dest_addr: FI_ADDR_UNSPEC, addr: dest_slice.mem_address_spec(), key: dest_slice.key_spec(), datatype: T::fi_datatype().raw_value(), op: AtomicOp::Band.raw_value(), context: old(context)@ }),
            *final(context) == *old(context),
    {
        self.atomicv_band_triggered(ioc, desc, dest_slice.mem_address(), dest_slice.key(), context)
    }

    fn atomicv_bxor_mr_slice_triggered<T: AsFiType, RT: AsFiType>(&self, ioc: &[Ioc<T>], desc: Option<&[MemoryRegionDesc]>, dest_slice: &RemoteMemAddrSliceMut<RT>, context: &mut TriggeredContext) -> (r: AtomicCall)
        ensures
            r == (AtomicCall::Atomicv { ep: self.ep_fid(), count: ioc@.len() as usize, descs: desc is Some, dest_addr: FI_ADDR_UNSPEC, addr: dest_slice.mem_address_spec(), key: dest_slice.key_spec(), datatype: T::fi_datatype().raw_value(), op: AtomicOp::Bxor.raw_value(), context: old(context)@ }),
            *final(context) == *old(context),
    {
        self.atomicv_bxor_triggered(ioc, desc, dest_slice.mem_address(), dest_slice.key(), context)
    }

    fn atomicv_lor_tmr_slice_riggered(&self, ioc: &[Ioc<bool>], desc: Option<&[MemoryRegionDesc]>, dest_slice: &RemoteMemAddrSliceMut<bool>, context: &mut TriggeredContext) -> (r: AtomicCall)
        ensures
            r == (AtomicCall::Atomicv { ep: self.ep_fid(), count: ioc@.len() as usize, descs: desc is Some, dest_addr: FI_ADDR_UNSPEC, addr: dest_slice.mem_address_spec(), key: dest_slice.key_spec(), datatype: <bool as AsFiType>::fi_datatype().raw_value(), op: AtomicOp::Lor.raw_value(), context: old(context)@ }),
            *final(context) == *old(context),
    {
        self.atomicv_lor_triggered(ioc, desc, dest_slice.mem_address(), dest_slice.key(), context)
    }

    fn atomicv_land_mr_slice_triggered(&self, ioc: &[Ioc<bool>], desc: Option<&[MemoryRegionDesc]>, dest_slice: &RemoteMemAddrSliceMut<bool>, context: &mut TriggeredContext) -> (r: AtomicCall)
        ensures
            r == (AtomicCall::Atomicv { ep: self.ep_fid(), count: ioc@.len() as usize, descs: desc is Some, dest_addr: FI_ADDR_UNSPEC, addr: dest_slice.mem_address_spec(), key: dest_slice.key_spec(), datatype: <bool as AsFiType>::fi_datatype().raw_value(), op: AtomicOp::Land.raw_value(), context: old(context)@ }),
            *final(context) == *old(context),
    {
        self.atomicv_land_triggered(ioc, desc, dest_slice.mem_address(), dest_slice.key(), context)
    }

    fn atomicv_lxor_mr_slice_triggered(&self, ioc: &[Ioc<bool>], desc: Option<&[MemoryRegionDesc]>, dest_slice: &RemoteMemAddrSliceMut<bool>, context: &mut TriggeredContext) -> (r: AtomicCall)
        ensures
            r == (AtomicCall::Atomicv { ep: self.ep_fid(), count: ioc@.len() as usize, descs: desc is Some, dest_addr: FI_ADDR_UNSPEC, addr: dest_slice.mem_address_spec(), key: dest_slice.key_spec(), datatype: <bool as AsFiType>::fi_datatype().raw_value(), op: AtomicOp::Lxor.raw_value(), context: old(context)@ }),
            *final(context) == *old(context),
    {
        self.atomicv_lxor_triggered(ioc, desc, dest_slice.mem_address(), dest_slice.key(), context)
    }

    fn atomicmsg_slice(&self, msg: &MsgRef, options: AtomicMsgOptions) -> (r: AtomicCall)
        ensures
            r == (AtomicCall::Atomicmsg { ep: self.ep_fid(), msg: msg@, flags: options@ }),
    {
        self.atomicmsg(msg, options)
    }

    fn atomic_inject_min_mr_slice<T: AsFiType, RT: AsFiType>(&self, buf: &[T], dest_slice: &RemoteMemAddrSliceMut<RT>) -> (r: AtomicCall)
        ensures
            r == (AtomicCall::InjectAtomic { ep: self.ep_fid(), count: buf@.len() as usize, dest_addr: FI_ADDR_UNSPEC, addr: dest_slice.mem_address_spec(), key: dest_slice.key_spec(), datatype: T::fi_datatype().raw_value(), op: AtomicOp::Min.raw_value() }),
    {
        self.atomic_inject_min(buf, dest_slice.mem_address(), dest_slice.key())
    }

    fn atomic_inject_max_mr_slice<T: AsFiType, RT: AsFiType>(&self, buf: &[T], dest_slice: &RemoteMemAddrSliceMut<RT>) -> (r: AtomicCall)
        ensures
            r == (AtomicCall::InjectAtomic { ep: self.ep_fid(), count: buf@.len() as usize, dest_addr: FI_ADDR_UNSPEC, addr: dest_slice.mem_address_spec(), key: dest_slice.key_spec(), datatype: T::fi_datatype().raw_value(), op: AtomicOp::Max.raw_value() }),
    {
        self.atomic_inject_max(buf, dest_slice.mem_address(), dest_slice.key())
    }

    fn atomic_inject_sum_mr_slice<T: AsFiType, RT: AsFiType>(&self, buf: &[T], dest_slice: &RemoteMemAddrSliceMut<RT>) -> (r: AtomicCall)
        ensures
            r == (AtomicCall::InjectAtomic { ep: self.ep_fid(), count: buf@.len() as usize, dest_addr: FI_ADDR_UNSPEC, addr: dest_slice.mem_address_spec(), key: dest_slice.key_spec(), datatype: T::fi_datatype().raw_value(), op: AtomicOp::Sum.raw_value() }),
    {
        self.atomic_inject_sum(buf, dest_slice.mem_address(), dest_slice.key())
    }

    fn atomic_inject_prod_mr_slice<T: AsFiType, RT: AsFiType>(&self, buf: &[T], dest_slice: &RemoteMemAddrSliceMut<RT>) -> (r: AtomicCall)
        ensures
            r == (AtomicCall::InjectAtomic { ep: self.ep_fid(), count: buf@.len() as usize, dest_addr: FI_ADDR_UNSPEC, addr: dest_slice.mem_address_spec(), key: dest_slice.key_spec(), datatype: T::fi_datatype().raw_value(), op: AtomicOp::Prod.raw_value() }),
    {
        self.atomic_inject_prod(buf, dest_slice.mem_address(), dest_slice.key())
    }

    fn atomic_inject_bor_mr_slice<T: AsFiType, RT: AsFiType>(&self, buf: &[T], dest_slice: &RemoteMemAddrSliceMut<RT>) -> (r: AtomicCall)
        ensures
            r == (AtomicCall::InjectAtomic { ep: self.ep_fid(), count: buf@.len() as usize, dest_addr: FI_ADDR_UNSPEC, addr: dest_slice.mem_address_spec(), key: dest_slice.key_spec(), datatype: T::fi_datatype().raw_value(), op: AtomicOp::Bor.raw_value() }),
    {
        self.atomic_inject_bor(buf, dest_slice.mem_address(), dest_slice.key())
    }

    fn atomic_inject_band_mr_slice<T: AsFiType, RT: AsFiType>(&self, buf: &[T], dest_slice: &RemoteMemAddrSliceMut<RT>) -> (r: AtomicCall)
        ensures
            r == (AtomicCall::InjectAtomic { ep: self.ep_fid(), count: buf@.len() as usize, dest_addr: FI_ADDR_UNSPEC, addr: dest_slice.mem_address_spec(), key: dest_slice.key_spec(), datatype: T::fi_datatype().raw_value(), op: AtomicOp::Band.raw_value() }),
    {
        self.atomic_inject_band(buf, dest_slice.mem_address(), dest_slice.key())
    }

    fn atomic_inject_bxor_mr_slice<T: AsFiType, RT: AsFiType>(&self, buf: &[T], dest_slice: &RemoteMemAddrSliceMut<RT>) -> (r: AtomicCall)
        ensures
            r == (AtomicCall::InjectAtomic { ep: self.ep_fid(), count: buf@.len() as usize, dest_addr: FI_ADDR_UNSPEC, addr: dest_slice.mem_address_spec(), key: dest_slice.key_spec(), datatype: T::fi_datatype().raw_value(), op: AtomicOp::Bxor.raw_value() }),
    {
        self.atomic_inject_bxor(buf, dest_slice.mem_address(), dest_slice.key())
    }

    fn atomic_inject_lor_mr_slice(&self, buf: &[bool], dest_slice: &RemoteMemAddrSliceMut<bool>) -> (r: AtomicCall)
        ensures
            r == (AtomicCall::InjectAtomic { ep: self.ep_fid(), count: buf@.len() as usize, dest_addr: FI_ADDR_UNSPEC, addr: dest_slice.mem_address_spec(), key: dest_slice.key_spec(), datatype: <bool as AsFiType>::fi_datatype().raw_value(), op: AtomicOp::Lor.raw_value() }),
    {
        self.atomic_inject_lor(buf, dest_slice.mem_address(), dest_slice.key())
    }

    fn atomic_inject_land_mr_slice(&self, buf: &[bool], dest_slice: &RemoteMemAddrSliceMut<bool>) -> (r: AtomicCall)
        ensures
            r == (AtomicCall::InjectAtomic { ep: self.ep_fid(), count: buf@.len() as usize, dest_addr: FI_ADDR_UNSPEC, addr: dest_slice.mem_address_spec(), key: dest_slice.key_spec(), datatype: <bool as AsFiType>::fi_datatype().raw_value(), op: AtomicOp::Land.raw_value() }),
    {
        self.atomic_inject_land(buf, dest_slice.mem_address(), dest_slice.key())
    }

    fn atomic_inject_lxor_mr_slice(&self, buf: &[bool], dest_slice: &RemoteMemAddrSliceMut<bool>) -> (r: AtomicCall)
        ensures
            r == (AtomicCall::InjectAtomic { ep: self.ep_fid(), count: buf@.len() as usize, dest_addr: FI_ADDR_UNSPEC, addr: dest_slice.mem_address_spec(), key: dest_slice.key_spec(), datatype: <bool as AsFiType>::fi_datatype().raw_value(), op: AtomicOp::Lxor.raw_value() }),
    {
        self.atomic_inject_lxor(buf, dest_slice.mem_address(), dest_slice.key())
    }
}

impl ConnectedAtomicWriteRemoteMemAddrSliceEp for ConnectedEndpoint {}

/// Fetching atomic operations from a connectionless endpoint.
pub trait AtomicFetchEp: AtomicFetchEpImpl + ConnlessEp {
    fn fetch_atomic_min_from<T: AsFiType, RT: AsFiType>(&self, buf: &[T], desc: Option<MemoryRegionDesc>, res: &[T], res_desc: Option<MemoryRegionDesc>, dest_addr: &MappedAddress, mem_addr: RemoteMemoryAddress<RT>, mapped_key: &MappedMemoryRegionKey) -> (r: AtomicCall)
        ensures
            r == (AtomicCall::FetchAtomic { ep: self.ep_fid(), count: buf@.len() as usize, desc: owned_desc_value(desc), result_desc: owned_desc_value(res_desc), dest_addr: dest_addr@, addr: mem_addr@, key: mapped_key@, datatype: T::fi_datatype().raw_value(), op: FetchAtomicOp::Min.raw_value(), context: 0 }),
    {
        self.fetch_atomic_impl(buf, desc, res, res_desc, Some(dest_addr), mem_addr, mapped_key, None, FetchAtomicOp::Min)
    }

    fn fetch_atomic_max_from<T: AsFiType, RT: AsFiType>(&self, buf: &[T], desc: Option<MemoryRegionDesc>, res: &[T], res_desc: Option<MemoryRegionDesc>, dest_addr: &MappedAddress, mem_addr: RemoteMemoryAddress<RT>, mapped_key: &MappedMemoryRegionKey) -> (r: AtomicCall)
        ensures
            r == (AtomicCall::FetchAtomic { ep: self.ep_fid(), count: buf@.len() as usize, desc: owned_desc_value(desc), result_desc: owned_desc_value(res_desc), dest_addr: dest_addr@, addr: mem_addr@, key: mapped_key@, datatype: T::fi_datatype().raw_value(), op: FetchAtomicOp::Max.raw_value(), context: 0 }),
    {
        self.fetch_atomic_impl(buf, desc, res, res_desc, Some(dest_addr), mem_addr, mapped_key, None, FetchAtomicOp::Max)
    }

    fn fetch_atomic_sum_from<T: AsFiType, RT: AsFiType>(&self, buf: &[T], desc: Option<MemoryRegionDesc>, res: &[T], res_desc: Option<MemoryRegionDesc>, dest_addr: &MappedAddress, mem_addr: RemoteMemoryAddress<RT>, mapped_key: &MappedMemoryRegionKey) -> (r: AtomicCall)
        ensures
            r == (AtomicCall::FetchAtomic { ep: self.ep_fid(), count: buf@.len() as usize, desc: owned_desc_value(desc), result_desc: owned_desc_value(res_desc), dest_addr: dest_addr@, addr: mem_addr@, key: mapped_key@, datatype: T::fi_datatype().raw_value(), op: FetchAtomicOp::Sum.raw_value(), context: 0 }),
    {
        self.fetch_atomic_impl(buf, desc, res, res_desc, Some(dest_addr), mem_addr, mapped_key, None, FetchAtomicOp::Sum)
    }

    fn fetch_atomic_prod_from<T: AsFiType, RT: AsFiType>(&self, buf: &[T], desc: Option<MemoryRegionDesc>, res: &[T], res_desc: Option<MemoryRegionDesc>, dest_addr: &MappedAddress, mem_addr: RemoteMemoryAddress<RT>, mapped_key: &MappedMemoryRegionKey) -> (r: AtomicCall)
        ensures
            r == (AtomicCall::FetchAtomic { ep: self.ep_fid(), count: buf@.len() as usize, desc: owned_desc_value(desc), result_desc: owned_desc_value(res_desc), dest_addr: dest_addr@, addr: mem_addr@, key: mapped_key@, datatype: T::fi_datatype().raw_value(), op: FetchAtomicOp::Prod.raw_value(), context: 0 }),
    {
        self.fetch_atomic_impl(buf, desc, res, res_desc, Some(dest_addr), mem_addr, mapped_key, None, FetchAtomicOp::Prod)
    }

    fn fetch_atomic_bor_from<T: AsFiType, RT: AsFiType>(&self, buf: &[T], desc: Option<MemoryRegionDesc>, res: &[T], res_desc: Option<MemoryRegionDesc>, dest_addr: &MappedAddress, mem_addr: RemoteMemoryAddress<RT>, mapped_key: &MappedMemoryRegionKey) -> (r: AtomicCall)
        ensures
            r == (AtomicCall::FetchAtomic { ep: self.ep_fid(), count: buf@.len() as usize, desc: owned_desc_value(desc), result_desc: owned_desc_value(res_desc), dest_addr: dest_addr@, addr: mem_addr@, key: mapped_key@, datatype: T::fi_datatype().raw_value(), op: FetchAtomicOp::Bor.raw_value(), context: 0 }),
    {
        self.fetch_atomic_impl(buf, desc, res, res_desc, Some(dest_addr), mem_addr, mapped_key, None, FetchAtomicOp::Bor)
    }

    fn fetch_atomic_band_from<T: AsFiType, RT: AsFiType>(&self, buf: &[T], desc: Option<MemoryRegionDesc>, res: &[T], res_desc: Option<MemoryRegionDesc>, dest_addr: &MappedAddress, mem_addr: RemoteMemoryAddress<RT>, mapped_key: &MappedMemoryRegionKey) -> (r: AtomicCall)
        ensures
            r == (AtomicCall::FetchAtomic { ep: self.ep_fid(), count: buf@.len() as usize, desc: owned_desc_value(desc), result_desc: owned_desc_value(res_desc), dest_addr: dest_addr@, addr: mem_addr@, key: mapped_key@, datatype: T::fi_datatype().raw_value(), op: FetchAtomicOp::Band.raw_value(), context: 0 }),
    {
        self.fetch_atomic_impl(buf, desc, res, res_desc, Some(dest_addr), mem_addr, mapped_key, None, FetchAtomicOp::Band)
    }

    fn fetch_atomic_bxor_from<T: AsFiType, RT: AsFiType>(&self, buf: &[T], desc: Option<MemoryRegionDesc>, res: &[T], res_desc: Option<MemoryRegionDesc>, dest_addr: &MappedAddress, mem_addr: RemoteMemoryAddress<RT>, mapped_key: &MappedMemoryRegionKey) -> (r: AtomicCall)
        ensures
            r == (AtomicCall::FetchAtomic { ep: self.ep_fid(), count: buf@.len() as usize, desc: owned_desc_value(desc), result_desc: owned_desc_value(res_desc), dest_addr: dest_addr@, addr: mem_addr@, key: mapped_key@, datatype: T::fi_datatype().raw_value(), op: FetchAtomicOp::Bxor.raw_value(), context: 0 }),
    {
        self.fetch_atomic_impl(buf, desc, res, res_desc, Some(dest_addr), mem_addr, mapped_key, None, FetchAtomicOp::Bxor)
    }

    fn fetch_atomic_min_from_with_context<T: AsFiType, RT: AsFiType>(&self, buf: &[T], desc: Option<MemoryRegionDesc>, res: &[T], res_desc: Option<MemoryRegionDesc>, dest_addr: &MappedAddress, mem_addr: RemoteMemoryAddress<RT>, mapped_key: &MappedMemoryRegionKey, context: &mut Context) -> (r: AtomicCall)
        ensures
            r == (AtomicCall::FetchAtomic { ep: self.ep_fid(), count: buf@.len() as usize, desc: owned_desc_value(desc), result_desc: owned_desc_value(res_desc), dest_addr: dest_addr@, addr: mem_addr@, key: mapped_key@, datatype: T::fi_datatype().raw_value(), op: FetchAtomicOp::Min.raw_value(), context: old(context)@ }),
            *final(context) == *old(context),
    {
        self.fetch_atomic_impl(buf, desc, res, res_desc, Some(dest_addr), mem_addr, mapped_key, Some(context.inner_mut()), FetchAtomicOp::Min)
    }

    fn fetch_atomic_max_from_with_context<T: AsFiType, RT: AsFiType>(&self, buf: &[T], desc: Option<MemoryRegionDesc>, res: &[T], res_desc: Option<MemoryRegionDesc>, dest_addr: &MappedAddress, mem_addr: RemoteMemoryAddress<RT>, mapped_key: &MappedMemoryRegionKey, context: &mut Context) -> (r: AtomicCall)
        ensures
            r == (AtomicCall::FetchAtomic { ep: self.ep_fid(), count: buf@.len() as usize, desc: owned_desc_value(desc), result_desc: owned_desc_value(res_desc), dest_addr: dest_addr@, addr: mem_addr@, key: mapped_key@, datatype: T::fi_datatype().raw_value(), op: FetchAtomicOp::Max.raw_value(), context: old(context)@ }),
            *final(context) == *old(context),
    {
        self.fetch_atomic_impl(buf, desc, res, res_desc, Some(dest_addr), mem_addr, mapped_key, Some(context.inner_mut()), FetchAtomicOp::Max)
    }

    fn fetch_atomic_sum_from_with_context<T: AsFiType, RT: AsFiType>(&self, buf: &[T], desc: Option<MemoryRegionDesc>, res: &[T], res_desc: Option<MemoryRegionDesc>, dest_addr: &MappedAddress, mem_addr: RemoteMemoryAddress<RT>, mapped_key: &MappedMemoryRegionKey, context: &mut Context) -> (r: AtomicCall)
        ensures
            r == (AtomicCall::FetchAtomic { ep: self.ep_fid(), count: buf@.len() as usize, desc: owned_desc_value(desc), result_desc: owned_desc_value(res_desc), dest_addr: dest_addr@, addr: mem_addr@, key: mapped_key@, datatype: T::fi_datatype().raw_value(), op: FetchAtomicOp::Sum.raw_value(), context: old(context)@ }),
            *final(context) == *old(context),
    {
        self.fetch_atomic_impl(buf, desc, res, res_desc, Some(dest_addr), mem_addr, mapped_key, Some(context.inner_mut()), FetchAtomicOp::Sum)
    }

    fn fetch_atomic_prod_from_with_context<T: AsFiType, RT: AsFiType>(&self, buf: &[T], desc: Option<MemoryRegionDesc>, res: &[T], res_desc: Option<MemoryRegionDesc>, dest_addr: &MappedAddress, mem_addr: RemoteMemoryAddress<RT>, mapped_key: &MappedMemoryRegionKey, context: &mut Context) -> (r: AtomicCall)
        ensures
            r == (AtomicCall::FetchAtomic { ep: self.ep_fid(), count: buf@.len() as usize, desc: owned_desc_value(desc), result_desc: owned_desc_value(res_desc), dest_addr: dest_addr@, addr: mem_addr@, key: mapped_key@, datatype: T::fi_datatype().raw_value(), op: FetchAtomicOp::Prod.raw_value(), context: old(context)@ }),
            *final(context) == *old(context),
    {
        self.fetch_atomic_impl(buf, desc, res, res_desc, Some(dest_addr), mem_addr, mapped_key, Some(context.inner_mut()), FetchAtomicOp::Prod)
    }

    fn fetch_atomic_bor_from_with_context<T: AsFiType, RT: AsFiType>(&self, buf: &[T], desc: Option<MemoryRegionDesc>, res: &[T], res_desc: Option<MemoryRegionDesc>, dest_addr: &MappedAddress, mem_addr: RemoteMemoryAddress<RT>, mapped_key: &MappedMemoryRegionKey, context: &mut Context) -> (r: AtomicCall)
        ensures
            r == (AtomicCall::FetchAtomic { ep: self.ep_fid(), count: buf@.len() as usize, desc: owned_desc_value(desc), result_desc: owned_desc_value(res_desc), dest_addr: dest_addr@, addr: mem_addr@, key: mapped_key@, datatype: T::fi_datatype().raw_value(), op: FetchAtomicOp::Bor.raw_value(), context: old(context)@ }),
            *final(context) == *old(context),
    {
        self.fetch_atomic_impl(buf, desc, res, res_desc, Some(dest_addr), mem_addr, mapped_key, Some(context.inner_mut()), FetchAtomicOp::Bor)
    }

    fn fetch_atomic_band_from_with_context<T: AsFiType, RT: AsFiType>(&self, buf: &[T], desc: Option<MemoryRegionDesc>, res: &[T], res_desc: Option<MemoryRegionDesc>, dest_addr: &MappedAddress, mem_addr: RemoteMemoryAddress<RT>, mapped_key: &MappedMemoryRegionKey, context: &mut Context) -> (r: AtomicCall)
        ensures
            r == (AtomicCall::FetchAtomic { ep: self.ep_fid(), count: buf@.len() as usize, desc: owned_desc_value(desc), result_desc: owned_desc_value(res_desc), dest_addr: dest_addr@, addr: mem_addr@, key: mapped_key@, datatype: T::fi_datatype().raw_value(), op: FetchAtomicOp::Band.raw_value(), context: old(context)@ }),
            *final(context) == *old(context),
    {
        self.fetch_atomic_impl(buf, desc, res, res_desc, Some(dest_addr), mem_addr, mapped_key, Some(context.inner_mut()), FetchAtomicOp::Band)
    }

    fn fetch_atomic_bxor_from_with_context<T: AsFiType, RT: AsFiType>(&self, buf: &[T], desc: Option<MemoryRegionDesc>, res: &[T], res_desc: Option<MemoryRegionDesc>, dest_addr: &MappedAddress, mem_addr: RemoteMemoryAddress<RT>, mapped_key: &MappedMemoryRegionKey, context: &mut Context) -> (r: AtomicCall)
        ensures
            r == (AtomicCall::FetchAtomic { ep: self.ep_fid(), count: buf@.len() as usize, desc: owned_desc_value(desc), result_desc: owned_desc_value(res_desc), dest_addr: dest_addr@, addr: mem_addr@, key: mapped_key@, datatype: T::fi_datatype().raw_value(), op: FetchAtomicOp::Bxor.raw_value(), context: old(context)@ }),
            *final(context) == *old(context),
    {
        self.fetch_atomic_impl(buf, desc, res, res_desc, Some(dest_addr), mem_addr, mapped_key, Some(context.inner_mut()), FetchAtomicOp::Bxor)
    }

    fn fetch_atomic_min_from_triggered<T: AsFiType, RT: AsFiType>(&self, buf: &[T], desc: Option<MemoryRegionDesc>, res: &[T], res_desc: Option<MemoryRegionDesc>, dest_addr: &MappedAddress, mem_addr: RemoteMemoryAddress<RT>, mapped_key: &MappedMemoryRegionKey, context: &mut TriggeredContext) -> (r: AtomicCall)
        ensures
            r == (AtomicCall::FetchAtomic { ep: self.ep_fid(), count: buf@.len() as usize, desc: owned_desc_value(desc), result_desc: owned_desc_value(res_desc), dest_addr: dest_addr@, addr: mem_addr@, key: mapped_key@, datatype: T::fi_datatype().raw_value(), op: FetchAtomicOp::Min.raw_value(), context: old(context)@ }),
            *final(context) == *old(context),
    {
        self.fetch_atomic_impl(buf, desc, res, res_desc, Some(dest_addr), mem_addr, mapped_key, Some(context.inner_mut()), FetchAtomicOp::Min)
    }

    fn fetch_atomic_max_from_triggered<T: AsFiType, RT: AsFiType>(&self, buf: &[T], desc: Option<MemoryRegionDesc>, res: &[T], res_desc: Option<MemoryRegionDesc>, dest_addr: &MappedAddress, mem_addr: RemoteMemoryAddress<RT>, mapped_key: &MappedMemoryRegionKey, context: &mut TriggeredContext) -> (r: AtomicCall)
        ensures
            r == (AtomicCall::FetchAtomic { ep: self.ep_fid(), count: buf@.len() as usize, desc: owned_desc_value(desc), result_desc: owned_desc_value(res_desc), dest_addr: dest_addr@, addr: mem_addr@, key: mapped_key@, datatype: T::fi_datatype().raw_value(), op: FetchAtomicOp::Max.raw_value(), context: old(context)@ }),
            *final(context) == *old(context),
    {
        self.fetch_atomic_impl(buf, desc, res, res_desc, Some(dest_addr), mem_addr, mapped_key, Some(context.inner_mut()), FetchAtomicOp::Max)
    }

    fn fetch_atomic_sum_from_triggered<T: AsFiType, RT: AsFiType>(&self, buf: &[T], desc: Option<MemoryRegionDesc>, res: &[T], res_desc: Option<MemoryRegionDesc>, dest_addr: &MappedAddress, mem_addr: RemoteMemoryAddress<RT>, mapped_key: &MappedMemoryRegionKey, context: &mut TriggeredContext) -> (r: AtomicCall)
        ensures
            r == (AtomicCall::FetchAtomic { ep: self.ep_fid(), count: buf@.len() as usize, desc: owned_desc_value(desc), result_desc: owned_desc_value(res_desc), dest_addr: dest_addr@, addr: mem_addr@, key: mapped_key@, datatype: T::fi_datatype().raw_value(), op: FetchAtomicOp::Sum.raw_value(), context: old(context)@ }),
            *final(context) == *old(context),
    {
        self.fetch_atomic_impl(buf, desc, res, res_desc, Some(dest_addr), mem_addr, mapped_key, Some(context.inner_mut()), FetchAtomicOp::Sum)
    }

    fn fetch_atomic_prod_from_triggered<T: AsFiType, RT: AsFiType>(&self, buf: &[T], desc: Option<MemoryRegionDesc>, res: &[T], res_desc: Option<MemoryRegionDesc>, dest_addr: &MappedAddress, mem_addr: RemoteMemoryAddress<RT>, mapped_key: &MappedMemoryRegionKey, context: &mut TriggeredContext) -> (r: AtomicCall)
        ensures
            r == (AtomicCall::FetchAtomic { ep: self.ep_fid(), count: buf@.len() as usize, desc: owned_desc_value(desc), result_desc: owned_desc_value(res_desc), dest_addr: dest_addr@, addr: mem_addr@, key: mapped_key@, datatype: T::fi_datatype().raw_value(), op: FetchAtomicOp::Prod.raw_value(), context: old(context)@ }),
            *final(context) == *old(context),
    {
        self.fetch_atomic_impl(buf, desc, res, res_desc, Some(dest_addr), mem_addr, mapped_key, Some(context.inner_mut()), FetchAtomicOp::Prod)
    }

    fn fetch_atomic_bor_from_triggered<T: AsFiType, RT: AsFiType>(&self, buf: &[T], desc: Option<MemoryRegionDesc>, res: &[T], res_desc: Option<MemoryRegionDesc>, dest_addr: &MappedAddress, mem_addr: RemoteMemoryAddress<RT>, mapped_key: &MappedMemoryRegionKey, context: &mut TriggeredContext) -> (r: AtomicCall)
        ensures
            r == (AtomicCall::FetchAtomic { ep: self.ep_fid(), count: buf@.len() as usize, desc: owned_desc_value(desc), result_desc: owned_desc_value(res_desc), dest_addr: dest_addr@, addr: mem_addr@, key: mapped_key@, datatype: T::fi_datatype().raw_value(), op: FetchAtomicOp::Bor.raw_value(), context: old(context)@ }),
            *final(context) == *old(context),
    {
        self.fetch_atomic_impl(buf, desc, res, res_desc, Some(dest_addr), mem_addr, mapped_key, Some(context.inner_mut()), FetchAtomicOp::Bor)
    }

    fn fetch_atomic_band_from_triggered<T: AsFiType, RT: AsFiType>(&self, buf: &[T], desc: Option<MemoryRegionDesc>, res: &[T], res_desc: Option<MemoryRegionDesc>, dest_addr: &MappedAddress, mem_addr: RemoteMemoryAddress<RT>, mapped_key: &MappedMemoryRegionKey, context: &mut TriggeredContext) -> (r: AtomicCall)
        ensures
            r == (AtomicCall::FetchAtomic { ep: self.ep_fid(), count: buf@.len() as usize, desc: owned_desc_value(desc), result_desc: owned_desc_value(res_desc), dest_addr: dest_addr@, addr: mem_addr@, key: mapped_key@, datatype: T::fi_datatype().raw_value(), op: FetchAtomicOp::Band.raw_value(), context: old(context)@ }),
            *final(context) == *old(context),
    {
        self.fetch_atomic_impl(buf, desc, res, res_desc, Some(dest_addr), mem_addr, mapped_key, Some(context.inner_mut()), FetchAtomicOp::Band)
    }

    fn fetch_atomic_bxor_from_triggered<T: AsFiType, RT: AsFiType>(&self, buf: &[T], desc: Option<MemoryRegionDesc>, res: &[T], res_desc: Option<MemoryRegionDesc>, dest_addr: &MappedAddress, mem_addr: RemoteMemoryAddress<RT>, mapped_key: &MappedMemoryRegionKey, context: &mut TriggeredContext) -> (r: AtomicCall)
        ensures
            r == (AtomicCall::FetchAtomic { ep: self.ep_fid(), count: buf@.len() as usize, desc: owned_desc_value(desc), result_desc: owned_desc_value(res_desc), dest_addr: dest_addr@, addr: mem_addr@, key: mapped_key@, datatype: T::fi_datatype().raw_value(), op: FetchAtomicOp::Bxor.raw_value(), context: old(context)@ }),
            *final(context) == *old(context),
    {
        self.fetch_atomic_impl(buf, desc, res, res_desc, Some(dest_addr), mem_addr, mapped_key, Some(context.inner_mut()), FetchAtomicOp::Bxor)
    }

    fn fetch_atomicv_min_from<T: AsFiType, RT: AsFiType>(&self, ioc: &[Ioc<T>], desc: Option<&[MemoryRegionDesc]>, resultv: &[IocMut<T>], res_desc: Option<&[MemoryRegionDesc]>, dest_addr: &MappedAddress, mem_addr: RemoteMemoryAddress<RT>, mapped_key: &MappedMemoryRegionKey) -> (r: AtomicCall)
        ensures
            r == (AtomicCall::FetchAtomicv { ep: self.ep_fid(), count: ioc@.len() as usize, descs: desc is Some, result_count: resultv@.len() as usize, result_descs: res_desc is Some, dest_addr: dest_addr@, addr: mem_addr@, key: mapped_key@, datatype: T::fi_datatype().raw_value(), op: FetchAtomicOp::Min.raw_value(), context: 0 }),
    {
        self.fetch_atomicv_impl(ioc, desc, resultv, res_desc, Some(dest_addr), mem_addr, mapped_key, None, FetchAtomicOp::Min)
    }

    fn fetch_atomicv_max_from<T: AsFiType, RT: AsFiType>(&self, ioc: &[Ioc<T>], desc: Option<&[MemoryRegionDesc]>, resultv: &[IocMut<T>], res_desc: Option<&[MemoryRegionDesc]>, dest_addr: &MappedAddress, mem_addr: RemoteMemoryAddress<RT>, mapped_key: &MappedMemoryRegionKey) -> (r: AtomicCall)
        ensures
            r == (AtomicCall::FetchAtomicv { ep: self.ep_fid(), count: ioc@.len() as usize, descs: desc is Some, result_count: resultv@.len() as usize, result_descs: res_desc is Some, dest_addr: dest_addr@, addr: mem_addr@, key: mapped_key@, datatype: T::fi_datatype().raw_value(), op: FetchAtomicOp::Max.raw_value(), context: 0 }),
    {
        self.fetch_atomicv_impl(ioc, desc, resultv, res_desc, Some(dest_addr), mem_addr, mapped_key, None, FetchAtomicOp::Max)
    }

    fn fetch_atomicv_sum_from<T: AsFiType, RT: AsFiType>(&self, ioc: &[Ioc<T>], desc: Option<&[MemoryRegionDesc]>, resultv: &[IocMut<T>], res_desc: Option<&[MemoryRegionDesc]>, dest_addr: &MappedAddress, mem_addr: RemoteMemoryAddress<RT>, mapped_key: &MappedMemoryRegionKey) -> (r: AtomicCall)
        ensures
            r == (AtomicCall::FetchAtomicv { ep: self.ep_fid(), count: ioc@.len() as usize, descs: desc is Some, result_count: resultv@.len() as usize, result_descs: res_desc is Some, dest_addr: dest_addr@, addr: mem_addr@, key: mapped_key@, datatype: T::fi_datatype().raw_value(), op: FetchAtomicOp::Sum.raw_value(), context: 0 }),
    {
        self.fetch_atomicv_impl(ioc, desc, resultv, res_desc, Some(dest_addr), mem_addr, mapped_key, None, FetchAtomicOp::Sum)
    }

    fn fetch_atomicv_prod_from<T: AsFiType, RT: AsFiType>(&self, ioc: &[Ioc<T>], desc: Option<&[MemoryRegionDesc]>, resultv: &[IocMut<T>], res_desc: Option<&[MemoryRegionDesc]>, dest_addr: &MappedAddress, mem_addr: RemoteMemoryAddress<RT>, mapped_key: &MappedMemoryRegionKey) -> (r: AtomicCall)
        ensures
            r == (AtomicCall::FetchAtomicv { ep: self.ep_fid(), count: ioc@.len() as usize, descs: desc is Some, result_count: resultv@.len() as usize, result_descs: res_desc is Some, dest_addr: dest_addr@, addr: mem_addr@, key: mapped_key@, datatype: T::fi_datatype().raw_value(), op: FetchAtomicOp::Prod.raw_value(), context: 0 }),
    {
        self.fetch_atomicv_impl(ioc, desc, resultv, res_desc, Some(dest_addr), mem_addr, mapped_key, None, FetchAtomicOp::Prod)
    }

    fn fetch_atomicv_bor_from<T: AsFiType, RT: AsFiType>(&self, ioc: &[Ioc<T>], desc: Option<&[MemoryRegionDesc]>, resultv: &[IocMut<T>], res_desc: Option<&[MemoryRegionDesc]>, dest_addr: &MappedAddress, mem_addr: RemoteMemoryAddress<RT>, mapped_key: &MappedMemoryRegionKey) -> (r: AtomicCall)
        ensures
            r == (AtomicCall::FetchAtomicv { ep: self.ep_fid(), count: ioc@.len() as usize, descs: desc is Some, result_count: resultv@.len() as usize, result_descs: res_desc is Some, dest_addr: dest_addr@, addr: mem_addr@, key: mapped_key@, datatype: T::fi_datatype().raw_value(), op: FetchAtomicOp::Bor.raw_value(), context: 0 }),
    {
        self.fetch_atomicv_impl(ioc, desc, resultv, res_desc, Some(dest_addr), mem_addr, mapped_key, None, FetchAtomicOp::Bor)
    }

    fn fetch_atomicv_band_from<T: AsFiType, RT: AsFiType>(&self, ioc: &[Ioc<T>], desc: Option<&[MemoryRegionDesc]>, resultv: &[IocMut<T>], res_desc: Option<&[MemoryRegionDesc]>, dest_addr: &MappedAddress, mem_addr: RemoteMemoryAddress<RT>, mapped_key: &MappedMemoryRegionKey) -> (r: AtomicCall)
        ensures
            r == (AtomicCall::FetchAtomicv { ep: self.ep_fid(), count: ioc@.len() as usize, descs: desc is Some, result_count: resultv@.len() as usize, result_descs: res_desc is Some, dest_addr: dest_addr@, addr: mem_addr@, key: mapped_key@, datatype: T::fi_datatype().raw_value(), op: FetchAtomicOp::Band.raw_value(), context: 0 }),
    {
        self.fetch_atomicv_impl(ioc, desc, resultv, res_desc, Some(dest_addr), mem_addr, mapped_key, None, FetchAtomicOp::Band)
    }

    fn fetch_atomicv_bxor_from<T: AsFiType, RT: AsFiType>(&self, ioc: &[Ioc<T>], desc: Option<&[MemoryRegionDesc]>, resultv: &[IocMut<T>], res_desc: Option<&[MemoryRegionDesc]>, dest_addr: &MappedAddress, mem_addr: RemoteMemoryAddress<RT>, mapped_key: &MappedMemoryRegionKey) -> (r: AtomicCall)
        ensures
            r == (AtomicCall::FetchAtomicv { ep: self.ep_fid(), count: ioc@.len() as usize, descs: desc is Some, result_count: resultv@.len() as usize, result_descs: res_desc is Some, dest_addr: dest_addr@, addr: mem_addr@, key: mapped_key@, datatype: T::fi_datatype().raw_value(), op: FetchAtomicOp::Bxor.raw_value(), context: 0 }),
    {
        self.fetch_atomicv_impl(ioc, desc, resultv, res_desc, Some(dest_addr), mem_addr, mapped_key, None, FetchAtomicOp::Bxor)
    }

    fn fetch_atomicv_min_from_with_context<T: AsFiType, RT: AsFiType>(&self, ioc: &[Ioc<T>], desc: Option<&[MemoryRegionDesc]>, resultv: &[IocMut<T>], res_desc: Option<&[MemoryRegionDesc]>, dest_addr: &MappedAddress, mem_addr: RemoteMemoryAddress<RT>, mapped_key: &MappedMemoryRegionKey, context: &mut Context) -> (r: AtomicCall)
        ensures
            r == (AtomicCall::FetchAtomicv { ep: self.ep_fid(), count: ioc@.len() as usize, descs: desc is Some, result_count: resultv@.len() as usize, result_descs: res_desc is Some, dest_addr: dest_addr@, addr: mem_addr@, key: mapped_key@, datatype: T::fi_datatype().raw_value(), op: FetchAtomicOp::Min.raw_value(), context: old(context)@ }),
            *final(context) == *old(context),
    {
        self.fetch_atomicv_impl(ioc, desc, resultv, res_desc, Some(dest_addr), mem_addr, mapped_key, Some(context.inner_mut()), FetchAtomicOp::Min)
    }

    fn fetch_atomicv_max_from_with_context<T: AsFiType, RT: AsFiType>(&self, ioc: &[Ioc<T>], desc: Option<&[MemoryRegionDesc]>, resultv: &[IocMut<T>], res_desc: Option<&[MemoryRegionDesc]>, dest_addr: &MappedAddress, mem_addr: RemoteMemoryAddress<RT>, mapped_key: &MappedMemoryRegionKey, context: &mut Context) -> (r: AtomicCall)
        ensures
            r == (AtomicCall::FetchAtomicv { ep: self.ep_fid(), count: ioc@.len() as usize, descs: desc is Some, result_count: resultv@.len() as usize, result_descs: res_desc is Some, dest_addr: dest_addr@, addr: mem_addr@, key: mapped_key@, datatype: T::fi_datatype().raw_value(), op: FetchAtomicOp::Max.raw_value(), context: old(context)@ }),
            *final(context) == *old(context),
    {
        self.fetch_atomicv_impl(ioc, desc, resultv, res_desc, Some(dest_addr), mem_addr, mapped_key, Some(context.inner_mut()), FetchAtomicOp::Max)
    }

    fn fetch_atomicv_sum_from_with_context<T: AsFiType, RT: AsFiType>(&self, ioc: &[Ioc<T>], desc: Option<&[MemoryRegionDesc]>, resultv: &[IocMut<T>], res_desc: Option<&[MemoryRegionDesc]>, dest_addr: &MappedAddress, mem_addr: RemoteMemoryAddress<RT>, mapped_key: &MappedMemoryRegionKey, context: &mut Context) -> (r: AtomicCall)
        ensures
            r == (AtomicCall::FetchAtomicv { ep: self.ep_fid(), count: ioc@.len() as usize, descs: desc is Some, result_count: resultv@.len() as usize, result_descs: res_desc is Some, dest_addr: dest_addr@, addr: mem_addr@, key: mapped_key@, datatype: T::fi_datatype().raw_value(), op: FetchAtomicOp::Sum.raw_value(), context: old(context)@ }),
            *final(context) == *old(context),
    {
        self.fetch_atomicv_impl(ioc, desc, resultv, res_desc, Some(dest_addr), mem_addr, mapped_key, Some(context.inner_mut()), FetchAtomicOp::Sum)
    }

    fn fetch_atomicv_prod_from_with_context<T: AsFiType, RT: AsFiType>(&self, ioc: &[Ioc<T>], desc: Option<&[MemoryRegionDesc]>, resultv: &[IocMut<T>], res_desc: Option<&[MemoryRegionDesc]>, dest_addr: &MappedAddress, mem_addr: RemoteMemoryAddress<RT>, mapped_key: &MappedMemoryRegionKey, context: &mut Context) -> (r: AtomicCall)
        ensures
            r == (AtomicCall::FetchAtomicv { ep: self.ep_fid(), count: ioc@.len() as usize, descs: desc is Some, result_count: resultv@.len() as usize, result_descs: res_desc is Some, dest_addr: dest_addr@, addr: mem_addr@, key: mapped_key@, datatype: T::fi_datatype().raw_value(), op: FetchAtomicOp::Prod.raw_value(), context: old(context)@ }),
            *final(context) == *old(context),
    {
        self.fetch_atomicv_impl(ioc, desc, resultv, res_desc, Some(dest_addr), mem_addr, mapped_key, Some(context.inner_mut()), FetchAtomicOp::Prod)
    }

    fn fetch_atomicv_bor_from_with_context<T: AsFiType, RT: AsFiType>(&self, ioc: &[Ioc<T>], desc: Option<&[MemoryRegionDesc]>, resultv: &[IocMut<T>], res_desc: Option<&[MemoryRegionDesc]>, dest_addr: &MappedAddress, mem_addr: RemoteMemoryAddress<RT>, mapped_key: &MappedMemoryRegionKey, context: &mut Context) -> (r: AtomicCall)
        ensures
            r == (AtomicCall::FetchAtomicv { ep: self.ep_fid(), count: ioc@.len() as usize, descs: desc is Some, result_count: resultv@.len() as usize, result_descs: res_desc is Some, dest_addr: dest_addr@, addr: mem_addr@, key: mapped_key@, datatype: T::fi_datatype().raw_value(), op: FetchAtomicOp::Bor.raw_value(), context: old(context)@ }),
            *final(context) == *old(context),
    {
        self.fetch_atomicv_impl(ioc, desc, resultv, res_desc, Some(dest_addr), mem_addr, mapped_key, Some(context.inner_mut()), FetchAtomicOp::Bor)
    }

    fn fetch_atomicv_band_from_with_context<T: AsFiType, RT: AsFiType>(&self, ioc: &[Ioc<T>], desc: Option<&[MemoryRegionDesc]>, resultv: &[IocMut<T>], res_desc: Option<&[MemoryRegionDesc]>, dest_addr: &MappedAddress, mem_addr: RemoteMemoryAddress<RT>, mapped_key: &MappedMemoryRegionKey, context: &mut Context) -> (r: AtomicCall)
        ensures
            r == (AtomicCall::FetchAtomicv { ep: self.ep_fid(), count: ioc@.len() as usize, descs: desc is Some, result_count: resultv@.len() as usize, result_descs: res_desc is Some, dest_addr: dest_addr@, addr: mem_addr@, key: mapped_key@, datatype: T::fi_datatype().raw_value(), op: FetchAtomicOp::Band.raw_value(), context: old(context)@ }),
            *final(context) == *old(context),
    {
        self.fetch_atomicv_impl(ioc, desc, resultv, res_desc, Some(dest_addr), mem_addr, mapped_key, Some(context.inner_mut()), FetchAtomicOp::Band)
    }

    fn fetch_atomicv_bxor_from_with_context<T: AsFiType, RT: AsFiType>(&self, ioc: &[Ioc<T>], desc: Option<&[MemoryRegionDesc]>, resultv: &[IocMut<T>], res_desc: Option<&[MemoryRegionDesc]>, dest_addr: &MappedAddress, mem_addr: RemoteMemoryAddress<RT>, mapped_key: &MappedMemoryRegionKey, context: &mut Context) -> (r: AtomicCall)
        ensures
            r == (AtomicCall::FetchAtomicv { ep: self.ep_fid(), count: ioc@.len() as usize, descs: desc is Some, result_count: resultv@.len() as usize, result_descs: res_desc is Some, dest_addr: dest_addr@, addr: mem_addr@, key: mapped_key@, datatype: T::fi_datatype().raw_value(), op: FetchAtomicOp::Bxor.raw_value(), context: old(context)@ }),
            *final(context) == *old(context),
    {
        self.fetch_atomicv_impl(ioc, desc, resultv, res_desc, Some(dest_addr), mem_addr, mapped_key, Some(context.inner_mut()), FetchAtomicOp::Bxor)
    }

    fn fetch_atomicv_min_from_triggered<T: AsFiType, RT: AsFiType>(&self, ioc: &[Ioc<T>], desc: Option<&[MemoryRegionDesc]>, resultv: &[IocMut<T>], res_desc: Option<&[MemoryRegionDesc]>, dest_addr: &MappedAddress, mem_addr: RemoteMemoryAddress<RT>, mapped_key: &MappedMemoryRegionKey, context: &mut TriggeredContext) -> (r: AtomicCall)
        ensures
            r == (AtomicCall::FetchAtomicv { ep: self.ep_fid(), count: ioc@.len() as usize, descs: desc is Some, result_count: resultv@.len() as usize, result_descs: res_desc is Some, dest_addr: dest_addr@, addr: mem_addr@, key: mapped_key@, datatype: T::fi_datatype().raw_value(), op: FetchAtomicOp::Min.raw_value(), context: old(context)@ }),
            *final(context) == *old(context),
    {
        self.fetch_atomicv_impl(ioc, desc, resultv, res_desc, Some(dest_addr), mem_addr, mapped_key, Some(context.inner_mut()), FetchAtomicOp::Min)
    }

    fn fetch_atomicv_max_from_triggered<T: AsFiType, RT: AsFiType>(&self, ioc: &[Ioc<T>], desc: Option<&[MemoryRegionDesc]>, resultv: &[IocMut<T>], res_desc: Option<&[MemoryRegionDesc]>, dest_addr: &MappedAddress, mem_addr: RemoteMemoryAddress<RT>, mapped_key: &MappedMemoryRegionKey, context: &mut TriggeredContext) -> (r: AtomicCall)
        ensures
            r == (AtomicCall::FetchAtomicv { ep: self.ep_fid(), count: ioc@.len() as usize, descs: desc is Some, result_count: resultv@.len() as usize, result_descs: res_desc is Some, dest_addr: dest_addr@, addr: mem_addr@, key: mapped_key@, datatype: T::fi_datatype().raw_value(), op: FetchAtomicOp::Max.raw_value(), context: old(context)@ }),
            *final(context) == *old(context),
    {
        self.fetch_atomicv_impl(ioc, desc, resultv, res_desc, Some(dest_addr), mem_addr, mapped_key, Some(context.inner_mut()), FetchAtomicOp::Max)
    }

    fn fetch_atomicv_sum_from_triggered<T: AsFiType, RT: AsFiType>(&self, ioc: &[Ioc<T>], desc: Option<&[MemoryRegionDesc]>, resultv: &[IocMut<T>], res_desc: Option<&[MemoryRegionDesc]>, dest_addr: &MappedAddress, mem_addr: RemoteMemoryAddress<RT>, mapped_key: &MappedMemoryRegionKey, context: &mut TriggeredContext) -> (r: AtomicCall)
        ensures
            r == (AtomicCall::FetchAtomicv { ep: self.ep_fid(), count: ioc@.len() as usize, descs: desc is Some, result_count: resultv@.len() as usize, result_descs: res_desc is Some, dest_addr: dest_addr@, addr: mem_addr@, key: mapped_key@, datatype: T::fi_datatype().raw_value(), op: FetchAtomicOp::Sum.raw_value(), context: old(context)@ }),
            *final(context) == *old(context),
    {
        self.fetch_atomicv_impl(ioc, desc, resultv, res_desc, Some(dest_addr), mem_addr, mapped_key, Some(context.inner_mut()), FetchAtomicOp::Sum)
    }

    fn fetch_atomicv_prod_from_triggered<T: AsFiType, RT: AsFiType>(&self, ioc: &[Ioc<T>], desc: Option<&[MemoryRegionDesc]>, resultv: &[IocMut<T>], res_desc: Option<&[MemoryRegionDesc]>, dest_addr: &MappedAddress, mem_addr: RemoteMemoryAddress<RT>, mapped_key: &MappedMemoryRegionKey, context: &mut TriggeredContext) -> (r: AtomicCall)
        ensures
            r == (AtomicCall::FetchAtomicv { ep: self.ep_fid(), count: ioc@.len() as usize, descs: desc is Some, result_count: resultv@.len() as usize, result_descs: res_desc is Some, dest_addr: dest_addr@, addr: mem_addr@, key: mapped_key@, datatype: T::fi_datatype().raw_value(), op: FetchAtomicOp::Prod.raw_value(), context: old(context)@ }),
            *final(context) == *old(context),
    {
        self.fetch_atomicv_impl(ioc, desc, resultv, res_desc, Some(dest_addr), mem_addr, mapped_key, Some(context.inner_mut()), FetchAtomicOp::Prod)
    }

    fn fetch_atomicv_bor_from_triggered<T: AsFiType, RT: AsFiType>(&self, ioc: &[Ioc<T>], desc: Option<&[MemoryRegionDesc]>, resultv: &[IocMut<T>], res_desc: Option<&[MemoryRegionDesc]>, dest_addr: &MappedAddress, mem_addr: RemoteMemoryAddress<RT>, mapped_key: &MappedMemoryRegionKey, context: &mut TriggeredContext) -> (r: AtomicCall)
        ensures
            r == (AtomicCall::FetchAtomicv { ep: self.ep_fid(), count: ioc@.len() as usize, descs: desc is Some, result_count: resultv@.len() as usize, result_descs: res_desc is Some, dest_addr: dest_addr@, addr: mem_addr@, key: mapped_key@, datatype: T::fi_datatype().raw_value(), op: FetchAtomicOp::Bor.raw_value(), context: old(context)@ }),
            *final(context) == *old(context),
    {
        self.fetch_atomicv_impl(ioc, desc, resultv, res_desc, Some(dest_addr), mem_addr, mapped_key, Some(context.inner_mut()), FetchAtomicOp::Bor)
    }

    fn fetch_atomicv_band_from_triggered<T: AsFiType, RT: AsFiType>(&self, ioc: &[Ioc<T>], desc: Option<&[MemoryRegionDesc]>, resultv: &[IocMut<T>], res_desc: Option<&[MemoryRegionDesc]>, dest_addr: &MappedAddress, mem_addr: RemoteMemoryAddress<RT>, mapped_key: &MappedMemoryRegionKey, context: &mut TriggeredContext) -> (r: AtomicCall)
        ensures
            r == (AtomicCall::FetchAtomicv { ep: self.ep_fid(), count: ioc@.len() as usize, descs: desc is Some, result_count: resultv@.len() as usize, result_descs: res_desc is Some, dest_addr: dest_addr@, addr: mem_addr@, key: mapped_key@, datatype: T::fi_datatype().raw_value(), op: FetchAtomicOp::Band.raw_value(), context: old(context)@ }),
            *final(context) == *old(context),
    {
        self.fetch_atomicv_impl(ioc, desc, resultv, res_desc, Some(dest_addr), mem_addr, mapped_key, Some(context.inner_mut()), FetchAtomicOp::Band)
    }

    fn fetch_atomicv_bxor_from_triggered<T: AsFiType, RT: AsFiType>(&self, ioc: &[Ioc<T>], desc: Option<&[MemoryRegionDesc]>, resultv: &[IocMut<T>], res_desc: Option<&[MemoryRegionDesc]>, dest_addr: &MappedAddress, mem_addr: RemoteMemoryAddress<RT>, mapped_key: &MappedMemoryRegionKey, context: &mut TriggeredContext) -> (r: AtomicCall)
        ensures
            r == (AtomicCall::FetchAtomicv { ep: self.ep_fid(), count: ioc@.len() as usize, descs: desc is Some, result_count: resultv@.len() as usize, result_descs: res_desc is Some, dest_addr: dest_addr@, addr: mem_addr@, key: mapped_key@, datatype: T::fi_datatype().raw_value(), op: FetchAtomicOp::Bxor.raw_value(), context: old(context)@ }),
            *final(context) == *old(context),
    {
        self.fetch_atomicv_impl(ioc, desc, resultv, res_desc, Some(dest_addr), mem_addr, mapped_key, Some(context.inner_mut()), FetchAtomicOp::Bxor)
    }

    fn fetch_atomicmsg_from<T: AsFiType>(&self, msg: &MsgRef, resultv: &[IocMut<T>], res_desc: Option<&[MemoryRegionDesc]>, options: AtomicFetchMsgOptions) -> (r: AtomicCall)
        ensures
            r == (AtomicCall::FetchAtomicmsg { ep: self.ep_fid(), msg: msg@, result_count: resultv@.len() as usize, result_descs: res_desc is Some, flags: options@ }),
    {
        self.fetch_atomicmsg_impl(msg, resultv, res_desc, options)
    }
}

impl AtomicFetchEp for ConnectionlessEndpoint {}

/// Fetching atomic operations on a connected endpoint.
pub trait ConnectedAtomicFetchEp: AtomicFetchEpImpl + ConnectedEp {
    fn fetch_atomic_min<T: AsFiType, RT: AsFiType>(&self, buf: &[T], desc: Option<MemoryRegionDesc>, res: &[T], res_desc: Option<MemoryRegionDesc>, mem_addr: RemoteMemoryAddress<RT>, mapped_key: &MappedMemoryRegionKey) -> (r: AtomicCall)
        ensures
            r == (AtomicCall::FetchAtomic { ep: self.ep_fid(), count: buf@.len() as usize, desc: owned_desc_value(desc), result_desc: owned_desc_value(res_desc), dest_addr: FI_ADDR_UNSPEC, addr: mem_addr@, key: mapped_key@, datatype: T::fi_datatype().raw_value(), op: FetchAtomicOp::Min.raw_value(), context: 0 }),
    {
        self.fetch_atomic_impl(buf, desc, res, res_desc, None, mem_addr, mapped_key, None, FetchAtomicOp::Min)
    }

    fn fetch_atomic_max<T: AsFiType, RT: AsFiType>(&self, buf: &[T], desc: Option<MemoryRegionDesc>, res: &[T], res_desc: Option<MemoryRegionDesc>, mem_addr: RemoteMemoryAddress<RT>, mapped_key: &MappedMemoryRegionKey) -> (r: AtomicCall)
        ensures
            r == (AtomicCall::FetchAtomic { ep: self.ep_fid(), count: buf@.len() as usize, desc: owned_desc_value(desc), result_desc: owned_desc_value(res_desc), dest_addr: FI_ADDR_UNSPEC, addr: mem_addr@, key: mapped_key@, datatype: T::fi_datatype().raw_value(), op: FetchAtomicOp::Max.raw_value(), context: 0 }),
    {
        self.fetch_atomic_impl(buf, desc, res, res_desc, None, mem_addr, mapped_key, None, FetchAtomicOp::Max)
    }

    fn fetch_atomic_sum<T: AsFiType, RT: AsFiType>(&self, buf: &[T], desc: Option<MemoryRegionDesc>, res: &[T], res_desc: Option<MemoryRegionDesc>, mem_addr: RemoteMemoryAddress<RT>, mapped_key: &MappedMemoryRegionKey) -> (r: AtomicCall)
        ensures
            r == (AtomicCall::FetchAtomic { ep: self.ep_fid(), count: buf@.len() as usize, desc: owned_desc_value(desc), result_desc: owned_desc_value(res_desc), dest_addr: FI_ADDR_UNSPEC, addr: mem_addr@, key: mapped_key@, datatype: T::fi_datatype().raw_value(), op: FetchAtomicOp::Sum.raw_value(), context: 0 }),
    {
        self.fetch_atomic_impl(buf, desc, res, res_desc, None, mem_addr, mapped_key, None, FetchAtomicOp::Sum)
    }

    fn fetch_atomic_prod<T: AsFiType, RT: AsFiType>(&self, buf: &[T], desc: Option<MemoryRegionDesc>, res: &[T], res_desc: Option<MemoryRegionDesc>, mem_addr: RemoteMemoryAddress<RT>, mapped_key: &MappedMemoryRegionKey) -> (r: AtomicCall)
        ensures
            r == (AtomicCall::FetchAtomic { ep: self.ep_fid(), count: buf@.len() as usize, desc: owned_desc_value(desc), result_desc: owned_desc_value(res_desc), dest_addr: FI_ADDR_UNSPEC, addr: mem_addr@, key: mapped_key@, datatype: T::fi_datatype().raw_value(), op: FetchAtomicOp::Prod.raw_value(), context: 0 }),
    {
        self.fetch_atomic_impl(buf, desc, res, res_desc, None, mem_addr, mapped_key, None, FetchAtomicOp::Prod)
    }

    fn fetch_atomic_bor<T: AsFiType, RT: AsFiType>(&self, buf: &[T], desc: Option<MemoryRegionDesc>, res: &[T], res_desc: Option<MemoryRegionDesc>, mem_addr: RemoteMemoryAddress<RT>, mapped_key: &MappedMemoryRegionKey) -> (r: AtomicCall)
        ensures
            r == (AtomicCall::FetchAtomic { ep: self.ep_fid(), count: buf@.len() as usize, desc: owned_desc_value(desc), result_desc: owned_desc_value(res_desc), dest_addr: FI_ADDR_UNSPEC, addr: mem_addr@, key: mapped_key@, datatype: T::fi_datatype().raw_value(), op: FetchAtomicOp::Bor.raw_value(), context: 0 }),
    {
        self.fetch_atomic_impl(buf, desc, res, res_desc, None, mem_addr, mapped_key, None, FetchAtomicOp::Bor)
    }

    fn fetch_atomic_band<T: AsFiType, RT: AsFiType>(&self, buf: &[T], desc: Option<MemoryRegionDesc>, res: &[T], res_desc: Option<MemoryRegionDesc>, mem_addr: RemoteMemoryAddress<RT>, mapped_key: &MappedMemoryRegionKey) -> (r: AtomicCall)
        ensures
            r == (AtomicCall::FetchAtomic { ep: self.ep_fid(), count: buf@.len() as usize, desc: owned_desc_value(desc), result_desc: owned_desc_value(res_desc), dest_addr: FI_ADDR_UNSPEC, addr: mem_addr@, key: mapped_key@, datatype: T::fi_datatype().raw_value(), op: FetchAtomicOp::Band.raw_value(), context: 0 }),
    {
        self.fetch_atomic_impl(buf, desc, res, res_desc, None, mem_addr, mapped_key, None, FetchAtomicOp::Band)
    }

    fn fetch_atomic_bxor<T: AsFiType, RT: AsFiType>(&self, buf: &[T], desc: Option<MemoryRegionDesc>, res: &[T], res_desc: Option<MemoryRegionDesc>, mem_addr: RemoteMemoryAddress<RT>, mapped_key: &MappedMemoryRegionKey) -> (r: AtomicCall)
        ensures
            r == (AtomicCall::FetchAtomic { ep: self.ep_fid(), count: buf@.len() as usize, desc: owned_desc_value(desc), result_desc: owned_desc_value(res_desc), dest_addr: FI_ADDR_UNSPEC, addr: mem_addr@, key: mapped_key@, datatype: T::fi_datatype().raw_value(), op: FetchAtomicOp::Bxor.raw_value(), context: 0 }),
    {
        self.fetch_atomic_impl(buf, desc, res, res_desc, None, mem_addr, mapped_key, None, FetchAtomicOp::Bxor)
    }

    fn fetch_atomic_min_with_context<T: AsFiType, RT: AsFiType>(&self, buf: &[T], desc: Option<MemoryRegionDesc>, res: &[T], res_desc: Option<MemoryRegionDesc>, mem_addr: RemoteMemoryAddress<RT>, mapped_key: &MappedMemoryRegionKey, context: &mut Context) -> (r: AtomicCall)
        ensures
            r == (AtomicCall::FetchAtomic { ep: self.ep_fid(), count: buf@.len() as usize, desc: owned_desc_value(desc), result_desc: owned_desc_value(res_desc), dest_addr: FI_ADDR_UNSPEC, addr: mem_addr@, key: mapped_key@, datatype: T::fi_datatype().raw_value(), op: FetchAtomicOp::Min.raw_value(), context: old(context)@ }),
            *final(context) == *old(context),
    {
        self.fetch_atomic_impl(buf, desc, res, res_desc, None, mem_addr, mapped_key, Some(context.inner_mut()), FetchAtomicOp::Min)
    }

    fn fetch_atomic_max_with_context<T: AsFiType, RT: AsFiType>(&self, buf: &[T], desc: Option<MemoryRegionDesc>, res: &[T], res_desc: Option<MemoryRegionDesc>, mem_addr: RemoteMemoryAddress<RT>, mapped_key: &MappedMemoryRegionKey, context: &mut Context) -> (r: AtomicCall)
        ensures
            r == (AtomicCall::FetchAtomic { ep: self.ep_fid(), count: buf@.len() as usize, desc: owned_desc_value(desc), result_desc: owned_desc_value(res_desc), dest_addr: FI_ADDR_UNSPEC, addr: mem_addr@, key: mapped_key@, datatype: T::fi_datatype().raw_value(), op: FetchAtomicOp::Max.raw_value(), context: old(context)@ }),
            *final(context) == *old(context),
    {
        self.fetch_atomic_impl(buf, desc, res, res_desc, None, mem_addr, mapped_key, Some(context.inner_mut()), FetchAtomicOp::Max)
    }

    fn fetch_atomic_sum_with_context<T: AsFiType, RT: AsFiType>(&self, buf: &[T], desc: Option<MemoryRegionDesc>, res: &[T], res_desc: Option<MemoryRegionDesc>, mem_addr: RemoteMemoryAddress<RT>, mapped_key: &MappedMemoryRegionKey, context: &mut Context) -> (r: AtomicCall)
        ensures
            r == (AtomicCall::FetchAtomic { ep: self.ep_fid(), count: buf@.len() as usize, desc: owned_desc_value(desc), result_desc: owned_desc_value(res_desc), dest_addr: FI_ADDR_UNSPEC, addr: mem_addr@, key: mapped_key@, datatype: T::fi_datatype().raw_value(), op: FetchAtomicOp::Sum.raw_value(), context: old(context)@ }),
            *final(context) == *old(context),
    {
        self.fetch_atomic_impl(buf, desc, res, res_desc, None, mem_addr, mapped_key, Some(context.inner_mut()), FetchAtomicOp::Sum)
    }

    fn fetch_atomic_prod_with_context<T: AsFiType, RT: AsFiType>(&self, buf: &[T], desc: Option<MemoryRegionDesc>, res: &[T], res_desc: Option<MemoryRegionDesc>, mem_addr: RemoteMemoryAddress<RT>, mapped_key: &MappedMemoryRegionKey, context: &mut Context) -> (r: AtomicCall)
        ensures
            r == (AtomicCall::FetchAtomic { ep: self.ep_fid(), count: buf@.len() as usize, desc: owned_desc_value(desc), result_desc: owned_desc_value(res_desc), dest_addr: FI_ADDR_UNSPEC, addr: mem_addr@, key: mapped_key@, datatype: T::fi_datatype().raw_value(), op: FetchAtomicOp::Prod.raw_value(), context: old(context)@ }),
            *final(context) == *old(context),
    {
        self.fetch_atomic_impl(buf, desc, res, res_desc, None, mem_addr, mapped_key, Some(context.inner_mut()), FetchAtomicOp::Prod)
    }

    fn fetch_atomic_bor_with_context<T: AsFiType, RT: AsFiType>(&self, buf: &[T], desc: Option<MemoryRegionDesc>, res: &[T], res_desc: Option<MemoryRegionDesc>, mem_addr: RemoteMemoryAddress<RT>, mapped_key: &MappedMemoryRegionKey, context: &mut Context) -> (r: AtomicCall)
        ensures
            r == (AtomicCall::FetchAtomic { ep: self.ep_fid(), count: buf@.len() as usize, desc: owned_desc_value(desc), result_desc: owned_desc_value(res_desc), dest_addr: FI_ADDR_UNSPEC, addr: mem_addr@, key: mapped_key@, datatype: T::fi_datatype().raw_value(), op: FetchAtomicOp::Bor.raw_value(), context: old(context)@ }),
            *final(context) == *old(context),
    {
        self.fetch_atomic_impl(buf, desc, res, res_desc, None, mem_addr, mapped_key, Some(context.inner_mut()), FetchAtomicOp::Bor)
    }

    fn fetch_atomic_band_with_context<T: AsFiType, RT: AsFiType>(&self, buf: &[T], desc: Option<MemoryRegionDesc>, res: &[T], res_desc: Option<MemoryRegionDesc>, mem_addr: RemoteMemoryAddress<RT>, mapped_key: &MappedMemoryRegionKey, context: &mut Context) -> (r: AtomicCall)
        ensures
            r == (AtomicCall::FetchAtomic { ep: self.ep_fid(), count: buf@.len() as usize, desc: owned_desc_value(desc), result_desc: owned_desc_value(res_desc), dest_addr: FI_ADDR_UNSPEC, addr: mem_addr@, key: mapped_key@, datatype: T::fi_datatype().raw_value(), op: FetchAtomicOp::Band.raw_value(), context: old(context)@ }),
            *final(context) == *old(context),
    {
        self.fetch_atomic_impl(buf, desc, res, res_desc, None, mem_addr, mapped_key, Some(context.inner_mut()), FetchAtomicOp::Band)
    }

    fn fetch_atomic_bxor_with_context<T: AsFiType, RT: AsFiType>(&self, buf: &[T], desc: Option<MemoryRegionDesc>, res: &[T], res_desc: Option<MemoryRegionDesc>, mem_addr: RemoteMemoryAddress<RT>, mapped_key: &MappedMemoryRegionKey, context: &mut Context) -> (r: AtomicCall)
        ensures
            r == (AtomicCall::FetchAtomic { ep: self.ep_fid(), count: buf@.len() as usize, desc: owned_desc_value(desc), result_desc: owned_desc_value(res_desc), dest_addr: FI_ADDR_UNSPEC, addr: mem_addr@, key: mapped_key@, datatype: T::fi_datatype().raw_value(), op: FetchAtomicOp::Bxor.raw_value(), context: old(context)@ }),
            *final(context) == *old(context),
    {
        self.fetch_atomic_impl(buf, desc, res, res_desc, None, mem_addr, mapped_key, Some(context.inner_mut()), FetchAtomicOp::Bxor)
    }

    fn fetch_atomic_min_triggered<T: AsFiType, RT: AsFiType>(&self, buf: &[T], desc: Option<MemoryRegionDesc>, res: &[T], res_desc: Option<MemoryRegionDesc>, mem_addr: RemoteMemoryAddress<RT>, mapped_key: &MappedMemoryRegionKey, context: &mut TriggeredContext) -> (r: AtomicCall)
        ensures
            r == (AtomicCall::FetchAtomic { ep: self.ep_fid(), count: buf@.len() as usize, desc: owned_desc_value(desc), result_desc: owned_desc_value(res_desc), dest_addr: FI_ADDR_UNSPEC, addr: mem_addr@, key: mapped_key@, datatype: T::fi_datatype().raw_value(), op: FetchAtomicOp::Min.raw_value(), context: old(context)@ }),
            *final(context) == *old(context),
    {
        self.fetch_atomic_impl(buf, desc, res, res_desc, None, mem_addr, mapped_key, Some(context.inner_mut()), FetchAtomicOp::Min)
    }

    fn fetch_atomic_max_triggered<T: AsFiType, RT: AsFiType>(&self, buf: &[T], desc: Option<MemoryRegionDesc>, res: &[T], res_desc: Option<MemoryRegionDesc>, mem_addr: RemoteMemoryAddress<RT>, mapped_key: &MappedMemoryRegionKey, context: &mut TriggeredContext) -> (r: AtomicCall)
        ensures
            r == (AtomicCall::FetchAtomic { ep: self.ep_fid(), count: buf@.len() as usize, desc: owned_desc_value(desc), result_desc: owned_desc_value(res_desc), dest_addr: FI_ADDR_UNSPEC, addr: mem_addr@, key: mapped_key@, datatype: T::fi_datatype().raw_value(), op: FetchAtomicOp::Max.raw_value(), context: old(context)@ }),
            *final(context) == *old(context),
    {
        self.fetch_atomic_impl(buf, desc, res, res_desc, None, mem_addr, mapped_key, Some(context.inner_mut()), FetchAtomicOp::Max)
    }

    fn fetch_atomic_sum_triggered<T: AsFiType, RT: AsFiType>(&self, buf: &[T], desc: Option<MemoryRegionDesc>, res: &[T], res_desc: Option<MemoryRegionDesc>, mem_addr: RemoteMemoryAddress<RT>, mapped_key: &MappedMemoryRegionKey, context: &mut TriggeredContext) -> (r: AtomicCall)
        ensures
            r == (AtomicCall::FetchAtomic { ep: self.ep_fid(), count: buf@.len() as usize, desc: owned_desc_value(desc), result_desc: owned_desc_value(res_desc), dest_addr: FI_ADDR_UNSPEC, addr: mem_addr@, key: mapped_key@, datatype: T::fi_datatype().raw_value(), op: FetchAtomicOp::Sum.raw_value(), context: old(context)@ }),
            *final(context) == *old(context),
    {
        self.fetch_atomic_impl(buf, desc, res, res_desc, None, mem_addr, mapped_key, Some(context.inner_mut()), FetchAtomicOp::Sum)
    }

    fn fetch_atomic_prod_triggered<T: AsFiType, RT: AsFiType>(&self, buf: &[T], desc: Option<MemoryRegionDesc>, res: &[T], res_desc: Option<MemoryRegionDesc>, mem_addr: RemoteMemoryAddress<RT>, mapped_key: &MappedMemoryRegionKey, context: &mut TriggeredContext) -> (r: AtomicCall)
        ensures
            r == (AtomicCall::FetchAtomic { ep: self.ep_fid(), count: buf@.len() as usize, desc: owned_desc_value(desc), result_desc: owned_desc_value(res_desc), dest_addr: FI_ADDR_UNSPEC, addr: mem_addr@, key: mapped_key@, datatype: T::fi_datatype().raw_value(), op: FetchAtomicOp::Prod.raw_value(), context: old(context)@ }),
            *final(context) == *old(context),
    {
        self.fetch_atomic_impl(buf, desc, res, res_desc, None, mem_addr, mapped_key, Some(context.inner_mut()), FetchAtomicOp::Prod)
    }

    fn fetch_atomic_bor_triggered<T: AsFiType, RT: AsFiType>(&self, buf: &[T], desc: Option<MemoryRegionDesc>, res: &[T], res_desc: Option<MemoryRegionDesc>, mem_addr: RemoteMemoryAddress<RT>, mapped_key: &MappedMemoryRegionKey, context: &mut TriggeredContext) -> (r: AtomicCall)
        ensures
            r == (AtomicCall::FetchAtomic { ep: self.ep_fid(), count: buf@.len() as usize, desc: owned_desc_value(desc), result_desc: owned_desc_value(res_desc), dest_addr: FI_ADDR_UNSPEC, addr: mem_addr@, key: mapped_key@, datatype: T::fi_datatype().raw_value(), op: FetchAtomicOp::Bor.raw_value(), context: old(context)@ }),
            *final(context) == *old(context),
    {
        self.fetch_atomic_impl(buf, desc, res, res_desc, None, mem_addr, mapped_key, Some(context.inner_mut()), FetchAtomicOp::Bor)
    }

    fn fetch_atomic_band_triggered<T: AsFiType, RT: AsFiType>(&self, buf: &[T], desc: Option<MemoryRegionDesc>, res: &[T], res_desc: Option<MemoryRegionDesc>, mem_addr: RemoteMemoryAddress<RT>, mapped_key: &MappedMemoryRegionKey, context: &mut TriggeredContext) -> (r: AtomicCall)
        ensures
            r == (AtomicCall::FetchAtomic { ep: self.ep_fid(), count: buf@.len() as usize, desc: owned_desc_value(desc), result_desc: owned_desc_value(res_desc), dest_addr: FI_ADDR_UNSPEC, addr: mem_addr@, key: mapped_key@, datatype: T::fi_datatype().raw_value(), op: FetchAtomicOp::Band.raw_value(), context: old(context)@ }),
            *final(context) == *old(context),
    {
        self.fetch_atomic_impl(buf, desc, res, res_desc, None, mem_addr, mapped_key, Some(context.inner_mut()), FetchAtomicOp::Band)
    }

    fn fetch_atomic_bxor_triggered<T: AsFiType, RT: AsFiType>(&self, buf: &[T], desc: Option<MemoryRegionDesc>, res: &[T], res_desc: Option<MemoryRegionDesc>, mem_addr: RemoteMemoryAddress<RT>, mapped_key: &MappedMemoryRegionKey, context: &mut TriggeredContext) -> (r: AtomicCall)
        ensures
            r == (AtomicCall::FetchAtomic { ep: self.ep_fid(), count: buf@.len() as usize, desc: owned_desc_value(desc), result_desc: owned_desc_value(res_desc), dest_addr: FI_ADDR_UNSPEC, addr: mem_addr@, key: mapped_key@, datatype: T::fi_datatype().raw_value(), op: FetchAtomicOp::Bxor.raw_value(), context: old(context)@ }),
            *final(context) == *old(context),
    {
        self.fetch_atomic_impl(buf, desc, res, res_desc, None, mem_addr, mapped_key, Some(context.inner_mut()), FetchAtomicOp::Bxor)
    }

    fn fetch_atomicv_min<T: AsFiType, RT: AsFiType>(&self, ioc: &[Ioc<T>], desc: Option<&[MemoryRegionDesc]>, resultv: &[IocMut<T>], res_desc: Option<&[MemoryRegionDesc]>, mem_addr: RemoteMemoryAddress<RT>, mapped_key: &MappedMemoryRegionKey) -> (r: AtomicCall)
        ensures
            r == (AtomicCall::FetchAtomicv { ep: self.ep_fid(), count: ioc@.len() as usize, descs: desc is Some, result_count: resultv@.len() as usize, result_descs: res_desc is Some, dest_addr: FI_ADDR_UNSPEC, addr: mem_addr@, key: mapped_key@, datatype: T::fi_datatype().raw_value(), op: FetchAtomicOp::Min.raw_value(), context: 0 }),
    {
        self.fetch_atomicv_impl(ioc, desc, resultv, res_desc, None, mem_addr, mapped_key, None, FetchAtomicOp::Min)
    }

    fn fetch_atomicv_max<T: AsFiType, RT: AsFiType>(&self, ioc: &[Ioc<T>], desc: Option<&[MemoryRegionDesc]>, resultv: &[IocMut<T>], res_desc: Option<&[MemoryRegionDesc]>, mem_addr: RemoteMemoryAddress<RT>, mapped_key: &MappedMemoryRegionKey) -> (r: AtomicCall)
        ensures
            r == (AtomicCall::FetchAtomicv { ep: self.ep_fid(), count: ioc@.len() as usize, descs: desc is Some, result_count: resultv@.len() as usize, result_descs: res_desc is Some, dest_addr: FI_ADDR_UNSPEC, addr: mem_addr@, key: mapped_key@, datatype: T::fi_datatype().raw_value(), op: FetchAtomicOp::Max.raw_value(), context: 0 }),
    {
        self.fetch_atomicv_impl(ioc, desc, resultv, res_desc, None, mem_addr, mapped_key, None, FetchAtomicOp::Max)
    }

    fn fetch_atomicv_sum<T: AsFiType, RT: AsFiType>(&self, ioc: &[Ioc<T>], desc: Option<&[MemoryRegionDesc]>, resultv: &[IocMut<T>], res_desc: Option<&[MemoryRegionDesc]>, mem_addr: RemoteMemoryAddress<RT>, mapped_key: &MappedMemoryRegionKey) -> (r: AtomicCall)
        ensures
            r == (AtomicCall::FetchAtomicv { ep: self.ep_fid(), count: ioc@.len() as usize, descs: desc is Some, result_count: resultv@.len() as usize, result_descs: res_desc is Some, dest_addr: FI_ADDR_UNSPEC, addr: mem_addr@, key: mapped_key@, datatype: T::fi_datatype().raw_value(), op: FetchAtomicOp::Sum.raw_value(), context: 0 }),
    {
        self.fetch_atomicv_impl(ioc, desc, resultv, res_desc, None, mem_addr, mapped_key, None, FetchAtomicOp::Sum)
    }

    fn fetch_atomicv_prod<T: AsFiType, RT: AsFiType>(&self, ioc: &[Ioc<T>], desc: Option<&[MemoryRegionDesc]>, resultv: &[IocMut<T>], res_desc: Option<&[MemoryRegionDesc]>, mem_addr: RemoteMemoryAddress<RT>, mapped_key: &MappedMemoryRegionKey) -> (r: AtomicCall)
        ensures
            r == (AtomicCall::FetchAtomicv { ep: self.ep_fid(), count: ioc@.len() as usize, descs: desc is Some, result_count: resultv@.len() as usize, result_descs: res_desc is Some, dest_addr: FI_ADDR_UNSPEC, addr: mem_addr@, key: mapped_key@, datatype: T::fi_datatype().raw_value(), op: FetchAtomicOp::Prod.raw_value(), context: 0 }),
    {
        self.fetch_atomicv_impl(ioc, desc, resultv, res_desc, None, mem_addr, mapped_key, None, FetchAtomicOp::Prod)
    }

    fn fetch_atomicv_bor<T: AsFiType, RT: AsFiType>(&self, ioc: &[Ioc<T>], desc: Option<&[MemoryRegionDesc]>, resultv: &[IocMut<T>], res_desc: Option<&[MemoryRegionDesc]>, mem_addr: RemoteMemoryAddress<RT>, mapped_key: &MappedMemoryRegionKey) -> (r: AtomicCall)
        ensures
            r == (AtomicCall::FetchAtomicv { ep: self.ep_fid(), count: ioc@.len() as usize, descs: desc is Some, result_count: resultv@.len() as usize, result_descs: res_desc is Some, dest_addr: FI_ADDR_UNSPEC, addr: mem_addr@, key: mapped_key@, datatype: T::fi_datatype().raw_value(), op: FetchAtomicOp::Bor.raw_value(), context: 0 }),
    {
        self.fetch_atomicv_impl(ioc, desc, resultv, res_desc, None, mem_addr, mapped_key, None, FetchAtomicOp::Bor)
    }

    fn fetch_atomicv_band<T: AsFiType, RT: AsFiType>(&self, ioc: &[Ioc<T>], desc: Option<&[MemoryRegionDesc]>, resultv: &[IocMut<T>], res_desc: Option<&[MemoryRegionDesc]>, mem_addr: RemoteMemoryAddress<RT>, mapped_key: &MappedMemoryRegionKey) -> (r: AtomicCall)
        ensures
            r == (AtomicCall::FetchAtomicv { ep: self.ep_fid(), count: ioc@.len() as usize, descs: desc is Some, result_count: resultv@.len() as usize, result_descs: res_desc is Some, dest_addr: FI_ADDR_UNSPEC, addr: mem_addr@, key: mapped_key@, datatype: T::fi_datatype().raw_value(), op: FetchAtomicOp::Band.raw_value(), context: 0 }),
    {
        self.fetch_atomicv_impl(ioc, desc, resultv, res_desc, None, mem_addr, mapped_key, None, FetchAtomicOp::Band)
    }

    fn fetch_atomicv_bxor<T: AsFiType, RT: AsFiType>(&self, ioc: &[Ioc<T>], desc: Option<&[MemoryRegionDesc]>, resultv: &[IocMut<T>], res_desc: Option<&[MemoryRegionDesc]>, mem_addr: RemoteMemoryAddress<RT>, mapped_key: &MappedMemoryRegionKey) -> (r: AtomicCall)
        ensures
            r == (AtomicCall::FetchAtomicv { ep: self.ep_fid(), count: ioc@.len() as usize, descs: desc is Some, result_count: resultv@.len() as usize, result_descs: res_desc is Some, dest_addr: FI_ADDR_UNSPEC, addr: mem_addr@, key: mapped_key@, datatype: T::fi_datatype().raw_value(), op: FetchAtomicOp::Bxor.raw_value(), context: 0 }),
    {
        self.fetch_atomicv_impl(ioc, desc, resultv, res_desc, None, mem_addr, mapped_key, None, FetchAtomicOp::Bxor)
    }

    fn fetch_atomicv_min_with_context<T: AsFiType, RT: AsFiType>(&self, ioc: &[Ioc<T>], desc: Option<&[MemoryRegionDesc]>, resultv: &[IocMut<T>], res_desc: Option<&[MemoryRegionDesc]>, mem_addr: RemoteMemoryAddress<RT>, mapped_key: &MappedMemoryRegionKey, context: &mut Context) -> (r: AtomicCall)
        ensures
            r == (AtomicCall::FetchAtomicv { ep: self.ep_fid(), count: ioc@.len() as usize, descs: desc is Some, result_count: resultv@.len() as usize, result_descs: res_desc is Some, dest_addr: FI_ADDR_UNSPEC, addr: mem_addr@, key: mapped_key@, datatype: T::fi_datatype().raw_value(), op: FetchAtomicOp::Min.raw_value(), context: old(context)@ }),
            *final(context) == *old(context),
    {
        self.fetch_atomicv_impl(ioc, desc, resultv, res_desc, None, mem_addr, mapped_key, Some(context.inner_mut()), FetchAtomicOp::Min)
    }

    fn fetch_atomicv_max_with_context<T: AsFiType, RT: AsFiType>(&self, ioc: &[Ioc<T>], desc: Option<&[MemoryRegionDesc]>, resultv: &[IocMut<T>], res_desc: Option<&[MemoryRegionDesc]>, mem_addr: RemoteMemoryAddress<RT>, mapped_key: &MappedMemoryRegionKey, context: &mut Context) -> (r: AtomicCall)
        ensures
            r == (AtomicCall::FetchAtomicv { ep: self.ep_fid(), count: ioc@.len() as usize, descs: desc is Some, result_count: resultv@.len() as usize, result_descs: res_desc is Some, dest_addr: FI_ADDR_UNSPEC, addr: mem_addr@, key: mapped_key@, datatype: T::fi_datatype().raw_value(), op: FetchAtomicOp::Max.raw_value(), context: old(context)@ }),
            *final(context) == *old(context),
    {
        self.fetch_atomicv_impl(ioc, desc, resultv, res_desc, None, mem_addr, mapped_key, Some(context.inner_mut()), FetchAtomicOp::Max)
    }

    fn fetch_atomicv_sum_with_context<T: AsFiType, RT: AsFiType>(&self, ioc: &[Ioc<T>], desc: Option<&[MemoryRegionDesc]>, resultv: &[IocMut<T>], res_desc: Option<&[MemoryRegionDesc]>, mem_addr: RemoteMemoryAddress<RT>, mapped_key: &MappedMemoryRegionKey, context: &mut Context) -> (r: AtomicCall)
        ensures
            r == (AtomicCall::FetchAtomicv { ep: self.ep_fid(), count: ioc@.len() as usize, descs: desc is Some, result_count: resultv@.len() as usize, result_descs: res_desc is Some, dest_addr: FI_ADDR_UNSPEC, addr: mem_addr@, key: mapped_key@, datatype: T::fi_datatype().raw_value(), op: FetchAtomicOp::Sum.raw_value(), context: old(context)@ }),
            *final(context) == *old(context),
    {
        self.fetch_atomicv_impl(ioc, desc, resultv, res_desc, None, mem_addr, mapped_key, Some(context.inner_mut()), FetchAtomicOp::Sum)
    }

    fn fetch_atomicv_prod_with_context<T: AsFiType, RT: AsFiType>(&self, ioc: &[Ioc<T>], desc: Option<&[MemoryRegionDesc]>, resultv: &[IocMut<T>], res_desc: Option<&[MemoryRegionDesc]>, mem_addr: RemoteMemoryAddress<RT>, mapped_key: &MappedMemoryRegionKey, context: &mut Context) -> (r: AtomicCall)
        ensures
            r == (AtomicCall::FetchAtomicv { ep: self.ep_fid(), count: ioc@.len() as usize, descs: desc is Some, result_count: resultv@.len() as usize, result_descs: res_desc is Some, dest_addr: FI_ADDR_UNSPEC, addr: mem_addr@, key: mapped_key@, datatype: T::fi_datatype().raw_value(), op: FetchAtomicOp::Prod.raw_value(), context: old(context)@ }),
            *final(context) == *old(context),
    {
        self.fetch_atomicv_impl(ioc, desc, resultv, res_desc, None, mem_addr, mapped_key, Some(context.inner_mut()), FetchAtomicOp::Prod)
    }

    fn fetch_atomicv_bor_with_context<T: AsFiType, RT: AsFiType>(&self, ioc: &[Ioc<T>], desc: Option<&[MemoryRegionDesc]>, resultv: &[IocMut<T>], res_desc: Option<&[MemoryRegionDesc]>, mem_addr: RemoteMemoryAddress<RT>, mapped_key: &MappedMemoryRegionKey, context: &mut Context) -> (r: AtomicCall)
        ensures
            r == (AtomicCall::FetchAtomicv { ep: self.ep_fid(), count: ioc@.len() as usize, descs: desc is Some, result_count: resultv@.len() as usize, result_descs: res_desc is Some, dest_addr: FI_ADDR_UNSPEC, addr: mem_addr@, key: mapped_key@, datatype: T::fi_datatype().raw_value(), op: FetchAtomicOp::Bor.raw_value(), context: old(context)@ }),
            *final(context) == *old(context),
    {
        self.fetch_atomicv_impl(ioc, desc, resultv, res_desc, None, mem_addr, mapped_key, Some(context.inner_mut()), FetchAtomicOp::Bor)
    }

    fn fetch_atomicv_band_with_context<T: AsFiType, RT: AsFiType>(&self, ioc: &[Ioc<T>], desc: Option<&[MemoryRegionDesc]>, resultv: &[IocMut<T>], res_desc: Option<&[MemoryRegionDesc]>, mem_addr: RemoteMemoryAddress<RT>, mapped_key: &MappedMemoryRegionKey, context: &mut Context) -> (r: AtomicCall)
        ensures
            r == (AtomicCall::FetchAtomicv { ep: self.ep_fid(), count: ioc@.len() as usize, descs: desc is Some, result_count: resultv@.len() as usize, result_descs: res_desc is Some, dest_addr: FI_ADDR_UNSPEC, addr: mem_addr@, key: mapped_key@, datatype: T::fi_datatype().raw_value(), op: FetchAtomicOp::Band.raw_value(), context: old(context)@ }),
            *final(context) == *old(context),
    {
        self.fetch_atomicv_impl(ioc, desc, resultv, res_desc, None, mem_addr, mapped_key, Some(context.inner_mut()), FetchAtomicOp::Band)
    }

    fn fetch_atomicv_bxor_with_context<T: AsFiType, RT: AsFiType>(&self, ioc: &[Ioc<T>], desc: Option<&[MemoryRegionDesc]>, resultv: &[IocMut<T>], res_desc: Option<&[MemoryRegionDesc]>, mem_addr: RemoteMemoryAddress<RT>, mapped_key: &MappedMemoryRegionKey, context: &mut Context) -> (r: AtomicCall)
        ensures
            r == (AtomicCall::FetchAtomicv { ep: self.ep_fid(), count: ioc@.len() as usize, descs: desc is Some, result_count: resultv@.len() as usize, result_descs: res_desc is Some, dest_addr: FI_ADDR_UNSPEC, addr: mem_addr@, key: mapped_key@, datatype: T::fi_datatype().raw_value(), op: FetchAtomicOp::Bxor.raw_value(), context: old(context)@ }),
            *final(context) == *old(context),
    {
        self.fetch_atomicv_impl(ioc, desc, resultv, res_desc, None, mem_addr, mapped_key, Some(context.inner_mut()), FetchAtomicOp::Bxor)
    }

    fn fetch_atomicv_min_triggered<T: AsFiType, RT: AsFiType>(&self, ioc: &[Ioc<T>], desc: Option<&[MemoryRegionDesc]>, resultv: &[IocMut<T>], res_desc: Option<&[MemoryRegionDesc]>, mem_addr: RemoteMemoryAddress<RT>, mapped_key: &MappedMemoryRegionKey, context: &mut TriggeredContext) -> (r: AtomicCall)
        ensures
            r == (AtomicCall::FetchAtomicv { ep: self.ep_fid(), count: ioc@.len() as usize, descs: desc is Some, result_count: resultv@.len() as usize, result_descs: res_desc is Some, dest_addr: FI_ADDR_UNSPEC, addr: mem_addr@, key: mapped_key@, datatype: T::fi_datatype().raw_value(), op: FetchAtomicOp::Min.raw_value(), context: old(context)@ }),
            *final(context) == *old(context),
    {
        self.fetch_atomicv_impl(ioc, desc, resultv, res_desc, None, mem_addr, mapped_key, Some(context.inner_mut()), FetchAtomicOp::Min)
    }

    fn fetch_atomicv_max_triggered<T: AsFiType, RT: AsFiType>(&self, ioc: &[Ioc<T>], desc: Option<&[MemoryRegionDesc]>, resultv: &[IocMut<T>], res_desc: Option<&[MemoryRegionDesc]>, mem_addr: RemoteMemoryAddress<RT>, mapped_key: &MappedMemoryRegionKey, context: &mut TriggeredContext) -> (r: AtomicCall)
        ensures
            r == (AtomicCall::FetchAtomicv { ep: self.ep_fid(), count: ioc@.len() as usize, descs: desc is Some, result_count: resultv@.len() as usize, result_descs: res_desc is Some, dest_addr: FI_ADDR_UNSPEC, addr: mem_addr@, key: mapped_key@, datatype: T::fi_datatype().raw_value(), op: FetchAtomicOp::Max.raw_value(), context: old(context)@ }),
            *final(context) == *old(context),
    {
        self.fetch_atomicv_impl(ioc, desc, resultv, res_desc, None, mem_addr, mapped_key, Some(context.inner_mut()), FetchAtomicOp::Max)
    }

    fn fetch_atomicv_sum_triggered<T: AsFiType, RT: AsFiType>(&self, ioc: &[Ioc<T>], desc: Option<&[MemoryRegionDesc]>, resultv: &[IocMut<T>], res_desc: Option<&[MemoryRegionDesc]>, mem_addr: RemoteMemoryAddress<RT>, mapped_key: &MappedMemoryRegionKey, context: &mut TriggeredContext) -> (r: AtomicCall)
        ensures
            r == (AtomicCall::FetchAtomicv { ep: self.ep_fid(), count: ioc@.len() as usize, descs: desc is Some, result_count: resultv@.len() as usize, result_descs: res_desc is Some, dest_addr: FI_ADDR_UNSPEC, addr: mem_addr@, key: mapped_key@, datatype: T::fi_datatype().raw_value(), op: FetchAtomicOp::Sum.raw_value(), context: old(context)@ }),
            *final(context) == *old(context),
    {
        self.fetch_atomicv_impl(ioc, desc, resultv, res_desc, None, mem_addr, mapped_key, Some(context.inner_mut()), FetchAtomicOp::Sum)
    }

    fn fetch_atomicv_prod_triggered<T: AsFiType, RT: AsFiType>(&self, ioc: &[Ioc<T>], desc: Option<&[MemoryRegionDesc]>, resultv: &[IocMut<T>], res_desc: Option<&[MemoryRegionDesc]>, mem_addr: RemoteMemoryAddress<RT>, mapped_key: &MappedMemoryRegionKey, context: &mut TriggeredContext) -> (r: AtomicCall)
        ensures
            r == (AtomicCall::FetchAtomicv { ep: self.ep_fid(), count: ioc@.len() as usize, descs: desc is Some, result_count: resultv@.len() as usize, result_descs: res_desc is Some, dest_addr: FI_ADDR_UNSPEC, addr: mem_addr@, key: mapped_key@, datatype: T::fi_datatype().raw_value(), op: FetchAtomicOp::Prod.raw_value(), context: old(context)@ }),
            *final(context) == *old(context),
    {
        self.fetch_atomicv_impl(ioc, desc, resultv, res_desc, None, mem_addr, mapped_key, Some(context.inner_mut()), FetchAtomicOp::Prod)
    }

    fn fetch_atomicv_bor_triggered<T: AsFiType, RT: AsFiType>(&self, ioc: &[Ioc<T>], desc: Option<&[MemoryRegionDesc]>, resultv: &[IocMut<T>], res_desc: Option<&[MemoryRegionDesc]>, mem_addr: RemoteMemoryAddress<RT>, mapped_key: &MappedMemoryRegionKey, context: &mut TriggeredContext) -> (r: AtomicCall)
        ensures
            r == (AtomicCall::FetchAtomicv { ep: self.ep_fid(), count: ioc@.len() as usize, descs: desc is Some, result_count: resultv@.len() as usize, result_descs: res_desc is Some, dest_addr: FI_ADDR_UNSPEC, addr: mem_addr@, key: mapped_key@, datatype: T::fi_datatype().raw_value(), op: FetchAtomicOp::Bor.raw_value(), context: old(context)@ }),
            *final(context) == *old(context),
    {
        self.fetch_atomicv_impl(ioc, desc, resultv, res_desc, None, mem_addr, mapped_key, Some(context.inner_mut()), FetchAtomicOp::Bor)
    }

    fn fetch_atomicv_band_triggered<T: AsFiType, RT: AsFiType>(&self, ioc: &[Ioc<T>], desc: Option<&[MemoryRegionDesc]>, resultv: &[IocMut<T>], res_desc: Option<&[MemoryRegionDesc]>, mem_addr: RemoteMemoryAddress<RT>, mapped_key: &MappedMemoryRegionKey, context: &mut TriggeredContext) -> (r: AtomicCall)
        ensures
            r == (AtomicCall::FetchAtomicv { ep: self.ep_fid(), count: ioc@.len() as usize, descs: desc is Some, result_count: resultv@.len() as usize, result_descs: res_desc is Some, dest_addr: FI_ADDR_UNSPEC, addr: mem_addr@, key: mapped_key@, datatype: T::fi_datatype().raw_value(), op: FetchAtomicOp::Band.raw_value(), context: old(context)@ }),
            *final(context) == *old(context),
    {
        self.fetch_atomicv_impl(ioc, desc, resultv, res_desc, None, mem_addr, mapped_key, Some(context.inner_mut()), FetchAtomicOp::Band)
    }

    fn fetch_atomicv_bxor_triggered<T: AsFiType, RT: AsFiType>(&self, ioc: &[Ioc<T>], desc: Option<&[MemoryRegionDesc]>, resultv: &[IocMut<T>], res_desc: Option<&[MemoryRegionDesc]>, mem_addr: RemoteMemoryAddress<RT>, mapped_key: &MappedMemoryRegionKey, context: &mut TriggeredContext) -> (r: AtomicCall)
        ensures
            r == (AtomicCall::FetchAtomicv { ep: self.ep_fid(), count: ioc@.len() as usize, descs: desc is Some, result_count: resultv@.len() as usize, result_descs: res_desc is Some, dest_addr: FI_ADDR_UNSPEC, addr: mem_addr@, key: mapped_key@, datatype: T::fi_datatype().raw_value(), op: FetchAtomicOp::Bxor.raw_value(), context: old(context)@ }),
            *final(context) == *old(context),
    {
        self.fetch_atomicv_impl(ioc, desc, resultv, res_desc, None, mem_addr, mapped_key, Some(context.inner_mut()), FetchAtomicOp::Bxor)
    }

    fn fetch_atomicmsg<T: AsFiType>(&self, msg: &MsgRef, resultv: &[IocMut<T>], res_desc: Option<&[MemoryRegionDesc]>, options: AtomicFetchMsgOptions) -> (r: AtomicCall)
        ensures
            r == (AtomicCall::FetchAtomicmsg { ep: self.ep_fid(), msg: msg@, result_count: resultv@.len() as usize, result_descs: res_desc is Some, flags: options@ }),
    {
        self.fetch_atomicmsg_impl(msg, resultv, res_desc, options)
    }
}

impl ConnectedAtomicFetchEp for ConnectedEndpoint {}

/// Fetching atomic operations whose buffers lie in registered memory regions.
pub trait AtomicFetchEpMrSlice: AtomicFetchEp {
    fn fetch_atomic_min_mr_slice_from<T: AsFiType>(&self, mr_slice: &MemoryRegionSlice<T>, res_slice: &MemoryRegionSliceMut<T>, dest_addr: &MappedAddress, mem_addr: RemoteMemoryAddress<T>, mapped_key: &MappedMemoryRegionKey) -> (r: AtomicCall)
        ensures
            r == (AtomicCall::FetchAtomic { ep: self.ep_fid(), count: mr_slice.data()@.len() as usize, desc: mr_slice.desc_spec()@, result_desc: res_slice.desc_spec()@, dest_addr: dest_addr@, addr: mem_addr@, key: mapped_key@, datatype: T::fi_datatype().raw_value(), op: FetchAtomicOp::Min.raw_value(), context: 0 }),
    {
        let result_desc = res_slice.desc();
        self.fetch_atomic_min_from(mr_slice.as_slice(), Some(mr_slice.desc()), res_slice.as_mut_slice(), Some(result_desc), dest_addr, mem_addr, mapped_key)
    }

    fn fetch_atomic_max_mr_slice_from<T: AsFiType>(&self, mr_slice: &MemoryRegionSlice<T>, res_slice: &MemoryRegionSliceMut<T>, dest_addr: &MappedAddress, mem_addr: RemoteMemoryAddress<T>, mapped_key: &MappedMemoryRegionKey) -> (r: AtomicCall)
        ensures
            r == (AtomicCall::FetchAtomic { ep: self.ep_fid(), count: mr_slice.data()@.len() as usize, desc: mr_slice.desc_spec()@, result_desc: res_slice.desc_spec()@, dest_addr: dest_addr@, addr: mem_addr@, key: mapped_key@, datatype: T::fi_datatype().raw_value(), op: FetchAtomicOp::Max.raw_value(), context: 0 }),
    {
        let result_desc = res_slice.desc();
        self.fetch_atomic_max_from(mr_slice.as_slice(), Some(mr_slice.desc()), res_slice.as_mut_slice(), Some(result_desc), dest_addr, mem_addr, mapped_key)
    }

    fn fetch_atomic_sum_mr_slice_from<T: AsFiType>(&self, mr_slice: &MemoryRegionSlice<T>, res_slice: &MemoryRegionSliceMut<T>, dest_addr: &MappedAddress, mem_addr: RemoteMemoryAddress<T>, mapped_key: &MappedMemoryRegionKey) -> (r: AtomicCall)
        ensures
            r == (AtomicCall::FetchAtomic { ep: self.ep_fid(), count: mr_slice.data()@.len() as usize, desc: mr_slice.desc_spec()@, result_desc: res_slice.desc_spec()@, dest_addr: dest_addr@, addr: mem_addr@, key: mapped_key@, datatype: T::fi_datatype().raw_value(), op: FetchAtomicOp::Sum.raw_value(), context: 0 }),
    {
        let result_desc = res_slice.desc();
        self.fetch_atomic_sum_from(mr_slice.as_slice(), Some(mr_slice.desc()), res_slice.as_mut_slice(), Some(result_desc), dest_addr, mem_addr, mapped_key)
    }

    fn fetch_atomic_prod_mr_slice_from<T: AsFiType>(&self, mr_slice: &MemoryRegionSlice<T>, res_slice: &MemoryRegionSliceMut<T>, dest_addr: &MappedAddress, mem_addr: RemoteMemoryAddress<T>, mapped_key: &MappedMemoryRegionKey) -> (r: AtomicCall)
        ensures
            r == (AtomicCall::FetchAtomic { ep: self.ep_fid(), count: mr_slice.data()@.len() as usize, desc: mr_slice.desc_spec()@, result_desc: res_slice.desc_spec()@, dest_addr: dest_addr@, addr: mem_addr@, key: mapped_key@, datatype: T::fi_datatype().raw_value(), op: FetchAtomicOp::Prod.raw_value(), context: 0 }),
    {
        let result_desc = res_slice.desc();
        self.fetch_atomic_prod_from(mr_slice.as_slice(), Some(mr_slice.desc()), res_slice.as_mut_slice(), Some(result_desc), dest_addr, mem_addr, mapped_key)
    }

    fn fetch_atomic_bor_mr_slice_from<T: AsFiType>(&self, mr_slice: &MemoryRegionSlice<T>, res_slice: &MemoryRegionSliceMut<T>, dest_addr: &MappedAddress, mem_addr: RemoteMemoryAddress<T>, mapped_key: &MappedMemoryRegionKey) -> (r: AtomicCall)
        ensures
            r == (AtomicCall::FetchAtomic { ep: self.ep_fid(), count: mr_slice.data()@.len() as usize, desc: mr_slice.desc_spec()@, result_desc: res_slice.desc_spec()@, dest_addr: dest_addr@, addr: mem_addr@, key: mapped_key@, datatype: T::fi_datatype().raw_value(), op: FetchAtomicOp::Bor.raw_value(), context: 0 }),
    {
        let result_desc = res_slice.desc();
        self.fetch_atomic_bor_from(mr_slice.as_slice(), Some(mr_slice.desc()), res_slice.as_mut_slice(), Some(result_desc), dest_addr, mem_addr, mapped_key)
    }

    fn fetch_atomic_band_mr_slice_from<T: AsFiType>(&self, mr_slice: &MemoryRegionSlice<T>, res_slice: &MemoryRegionSliceMut<T>, dest_addr: &MappedAddress, mem_addr: RemoteMemoryAddress<T>, mapped_key: &MappedMemoryRegionKey) -> (r: AtomicCall)
        ensures
            r == (AtomicCall::FetchAtomic { ep: self.ep_fid(), count: mr_slice.data()@.len() as usize, desc: mr_slice.desc_spec()@, result_desc: res_slice.desc_spec()@, dest_addr: dest_addr@, addr: mem_addr@, key: mapped_key@, datatype: T::fi_datatype().raw_value(), op: FetchAtomicOp::Band.raw_value(), context: 0 }),
    {
        let result_desc = res_slice.desc();
        self.fetch_atomic_band_from(mr_slice.as_slice(), Some(mr_slice.desc()), res_slice.as_mut_slice(), Some(result_desc), dest_addr, mem_addr, mapped_key)
    }

    fn fetch_atomic_bxor_mr_slice_from<T: AsFiType>(&self, mr_slice: &MemoryRegionSlice<T>, res_slice: &MemoryRegionSliceMut<T>, dest_addr: &MappedAddress, mem_addr: RemoteMemoryAddress<T>, mapped_key: &MappedMemoryRegionKey) -> (r: AtomicCall)
        ensures
            r == (AtomicCall::FetchAtomic { ep: self.ep_fid(), count: mr_slice.data()@.len() as usize, desc: mr_slice.desc_spec()@, result_desc: res_slice.desc_spec()@, dest_addr: dest_addr@, addr: mem_addr@, key: mapped_key@, datatype: T::fi_datatype().raw_value(), op: FetchAtomicOp::Bxor.raw_value(), context: 0 }),
    {
        let result_desc = res_slice.desc();
        self.fetch_atomic_bxor_from(mr_slice.as_slice(), Some(mr_slice.desc()), res_slice.as_mut_slice(), Some(result_desc), dest_addr, mem_addr, mapped_key)
    }

    fn fetch_atomic_min_mr_slice_from_with_context<T: AsFiType>(&self, mr_slice: &MemoryRegionSlice<T>, res_slice: &MemoryRegionSliceMut<T>, dest_addr: &MappedAddress, mem_addr: RemoteMemoryAddress<T>, mapped_key: &MappedMemoryRegionKey, context: &mut Context) -> (r: AtomicCall)
        ensures
            r == (AtomicCall::FetchAtomic { ep: self.ep_fid(), count: mr_slice.data()@.len() as usize, desc: mr_slice.desc_spec()@, result_desc: res_slice.desc_spec()@, dest_addr: dest_addr@, addr: mem_addr@, key: mapped_key@, datatype: T::fi_datatype().raw_value(), op: FetchAtomicOp::Min.raw_value(), context: old(context)@ }),
            *final(context) == *old(context),
    {
        let result_desc = res_slice.desc();
        self.fetch_atomic_min_from_with_context(mr_slice.as_slice(), Some(mr_slice.desc()), res_slice.as_mut_slice(), Some(result_desc), dest_addr, mem_addr, mapped_key, context)
    }

    fn fetch_atomic_max_mr_slice_from_with_context<T: AsFiType>(&self, mr_slice: &MemoryRegionSlice<T>, res_slice: &MemoryRegionSliceMut<T>, dest_addr: &MappedAddress, mem_addr: RemoteMemoryAddress<T>, mapped_key: &MappedMemoryRegionKey, context: &mut Context) -> (r: AtomicCall)
        ensures
            r == (AtomicCall::FetchAtomic { ep: self.ep_fid(), count: mr_slice.data()@.len() as usize, desc: mr_slice.desc_spec()@, result_desc: res_slice.desc_spec()@, dest_addr: dest_addr@, addr: mem_addr@, key: mapped_key@, datatype: T::fi_datatype().raw_value(), op: FetchAtomicOp::Max.raw_value(), context: old(context)@ }),
            *final(context) == *old(context),
    {
        let result_desc = res_slice.desc();
        self.fetch_atomic_max_from_with_context(mr_slice.as_slice(), Some(mr_slice.desc()), res_slice.as_mut_slice(), Some(result_desc), dest_addr, mem_addr, mapped_key, context)
    }

    fn fetch_atomic_sum_mr_slice_from_with_context<T: AsFiType>(&self, mr_slice: &MemoryRegionSlice<T>, res_slice: &MemoryRegionSliceMut<T>, dest_addr: &MappedAddress, mem_addr: RemoteMemoryAddress<T>, mapped_key: &MappedMemoryRegionKey, context: &mut Context) -> (r: AtomicCall)
        ensures
            r == (AtomicCall::FetchAtomic { ep: self.ep_fid(), count: mr_slice.data()@.len() as usize, desc: mr_slice.desc_spec()@, result_desc: res_slice.desc_spec()@, dest_addr: dest_addr@, addr: mem_addr@, key: mapped_key@, datatype: T::fi_datatype().raw_value(), op: FetchAtomicOp::Sum.raw_value(), context: old(context)@ }),
            *final(context) == *old(context),
    {
        let result_desc = res_slice.desc();
        self.fetch_atomic_sum_from_with_context(mr_slice.as_slice(), Some(mr_slice.desc()), res_slice.as_mut_slice(), Some(result_desc), dest_addr, mem_addr, mapped_key, context)
    }

    fn fetch_atomic_prod_mr_slice_from_with_context<T: AsFiType>(&self, mr_slice: &MemoryRegionSlice<T>, res_slice: &MemoryRegionSliceMut<T>, dest_addr: &MappedAddress, mem_addr: RemoteMemoryAddress<T>, mapped_key: &MappedMemoryRegionKey, context: &mut Context) -> (r: AtomicCall)
        ensures
            r == (AtomicCall::FetchAtomic { ep: self.ep_fid(), count: mr_slice.data()@.len() as usize, desc: mr_slice.desc_spec()@, result_desc: res_slice.desc_spec()@, dest_addr: dest_addr@, addr: mem_addr@, key: mapped_key@, datatype: T::fi_datatype().raw_value(), op: FetchAtomicOp::Prod.raw_value(), context: old(context)@ }),
            *final(context) == *old(context),
    {
        let result_desc = res_slice.desc();
        self.fetch_atomic_prod_from_with_context(mr_slice.as_slice(), Some(mr_slice.desc()), res_slice.as_mut_slice(), Some(result_desc), dest_addr, mem_addr, mapped_key, context)
    }

    fn fetch_atomic_bor_mr_slice_from_with_context<T: AsFiType>(&self, mr_slice: &MemoryRegionSlice<T>, res_slice: &MemoryRegionSliceMut<T>, dest_addr: &MappedAddress, mem_addr: RemoteMemoryAddress<T>, mapped_key: &MappedMemoryRegionKey, context: &mut Context) -> (r: AtomicCall)
        ensures
            r == (AtomicCall::FetchAtomic { ep: self.ep_fid(), count: mr_slice.data()@.len() as usize, desc: mr_slice.desc_spec()@, result_desc: res_slice.desc_spec()@, dest_addr: dest_addr@, addr: mem_addr@, key: mapped_key@, datatype: T::fi_datatype().raw_value(), op: FetchAtomicOp::Bor.raw_value(), context: old(context)@ }),
            *final(context) == *old(context),
    {
        let result_desc = res_slice.desc();
        self.fetch_atomic_bor_from_with_context(mr_slice.as_slice(), Some(mr_slice.desc()), res_slice.as_mut_slice(), Some(result_desc), dest_addr, mem_addr, mapped_key, context)
    }

    fn fetch_atomic_band_mr_slice_from_with_context<T: AsFiType>(&self, mr_slice: &MemoryRegionSlice<T>, res_slice: &MemoryRegionSliceMut<T>, dest_addr: &MappedAddress, mem_addr: RemoteMemoryAddress<T>, mapped_key: &MappedMemoryRegionKey, context: &mut Context) -> (r: AtomicCall)
        ensures
            r == (AtomicCall::FetchAtomic { ep: self.ep_fid(), count: mr_slice.data()@.len() as usize, desc: mr_slice.desc_spec()@, result_desc: res_slice.desc_spec()@, dest_addr: dest_addr@, addr: mem_addr@, key: mapped_key@, datatype: T::fi_datatype().raw_value(), op: FetchAtomicOp::Band.raw_value(), context: old(context)@ }),
            *final(context) == *old(context),
    {
        let result_desc = res_slice.desc();
        self.fetch_atomic_band_from_with_context(mr_slice.as_slice(), Some(mr_slice.desc()), res_slice.as_mut_slice(), Some(result_desc), dest_addr, mem_addr, mapped_key, context)
    }

    fn fetch_atomic_bxor_mr_slice_from_with_context<T: AsFiType>(&self, mr_slice: &MemoryRegionSlice<T>, res_slice: &MemoryRegionSliceMut<T>, dest_addr: &MappedAddress, mem_addr: RemoteMemoryAddress<T>, mapped_key: &MappedMemoryRegionKey, context: &mut Context) -> (r: AtomicCall)
        ensures
            r == (AtomicCall::FetchAtomic { ep: self.ep_fid(), count: mr_slice.data()@.len() as usize, desc: mr_slice.desc_spec()@, result_desc: res_slice.desc_spec()@, dest_addr: dest_addr@, addr: mem_addr@, key: mapped_key@, datatype: T::fi_datatype().raw_value(), op: FetchAtomicOp::Bxor.raw_value(), context: old(context)@ }),
            *final(context) == *old(context),
    {
        let result_desc = res_slice.desc();
        self.fetch_atomic_bxor_from_with_context(mr_slice.as_slice(), Some(mr_slice.desc()), res_slice.as_mut_slice(), Some(result_desc), dest_addr, mem_addr, mapped_key, context)
    }

    fn fetch_atomic_min_mr_slice_from_triggered<T: AsFiType>(&self, mr_slice: &MemoryRegionSlice<T>, res_slice: &MemoryRegionSliceMut<T>, dest_addr: &MappedAddress, mem_addr: RemoteMemoryAddress<T>, mapped_key: &MappedMemoryRegionKey, context: &mut TriggeredContext) -> (r: AtomicCall)
        ensures
            r == (AtomicCall::FetchAtomic { ep: self.ep_fid(), count: mr_slice.data()@.len() as usize, desc: mr_slice.desc_spec()@, result_desc: res_slice.desc_spec()@, dest_addr: dest_addr@, addr: mem_addr@, key: mapped_key@, datatype: T::fi_datatype().raw_value(), op: FetchAtomicOp::Min.raw_value(), context: old(context)@ }),
            *final(context) == *old(context),
    {
        let result_desc = res_slice.desc();
        self.fetch_atomic_min_from_triggered(mr_slice.as_slice(), Some(mr_slice.desc()), res_slice.as_mut_slice(), Some(result_desc), dest_addr, mem_addr, mapped_key, context)
    }

    fn fetch_atomic_max_mr_slice_from_triggered<T: AsFiType>(&self, mr_slice: &MemoryRegionSlice<T>, res_slice: &MemoryRegionSliceMut<T>, dest_addr: &MappedAddress, mem_addr: RemoteMemoryAddress<T>, mapped_key: &MappedMemoryRegionKey, context: &mut TriggeredContext) -> (r: AtomicCall)
        ensures
            r == (AtomicCall::FetchAtomic { ep: self.ep_fid(), count: mr_slice.data()@.len() as usize, desc: mr_slice.desc_spec()@, result_desc: res_slice.desc_spec()@, dest_addr: dest_addr@, addr: mem_addr@, key: mapped_key@, datatype: T::fi_datatype().raw_value(), op: FetchAtomicOp::Max.raw_value(), context: old(context)@ }),
            *final(context) == *old(context),
    {
        let result_desc = res_slice.desc();
        self.fetch_atomic_max_from_triggered(mr_slice.as_slice(), Some(mr_slice.desc()), res_slice.as_mut_slice(), Some(result_desc), dest_addr, mem_addr, mapped_key, context)
    }

    fn fetch_atomic_sum_mr_slice_from_triggered<T: AsFiType>(&self, mr_slice: &MemoryRegionSlice<T>, res_slice: &MemoryRegionSliceMut<T>, dest_addr: &MappedAddress, mem_addr: RemoteMemoryAddress<T>, mapped_key: &MappedMemoryRegionKey, context: &mut TriggeredContext) -> (r: AtomicCall)
        ensures
            r == (AtomicCall::FetchAtomic { ep: self.ep_fid(), count: mr_slice.data()@.len() as usize, desc: mr_slice.desc_spec()@, result_desc: res_slice.desc_spec()@, dest_addr: dest_addr@, addr: mem_addr@, key: mapped_key@, datatype: T::fi_datatype().raw_value(), op: FetchAtomicOp::Sum.raw_value(), context: old(context)@ }),
            *final(context) == *old(context),
    {
        let result_desc = res_slice.desc();
        self.fetch_atomic_sum_from_triggered(mr_slice.as_slice(), Some(mr_slice.desc()), res_slice.as_mut_slice(), Some(result_desc), dest_addr, mem_addr, mapped_key, context)
    }

    fn fetch_atomic_prod_mr_slice_from_triggered<T: AsFiType>(&self, mr_slice: &MemoryRegionSlice<T>, res_slice: &MemoryRegionSliceMut<T>, dest_addr: &MappedAddress, mem_addr: RemoteMemoryAddress<T>, mapped_key: &MappedMemoryRegionKey, context: &mut TriggeredContext) -> (r: AtomicCall)
        ensures
            r == (AtomicCall::FetchAtomic { ep: self.ep_fid(), count: mr_slice.data()@.len() as usize, desc: mr_slice.desc_spec()@, result_desc: res_slice.desc_spec()@, dest_addr: dest_addr@, addr: mem_addr@, key: mapped_key@, datatype: T::fi_datatype().raw_value(), op: FetchAtomicOp::Prod.raw_value(), context: old(context)@ }),
            *final(context) == *old(context),
    {
        let result_desc = res_slice.desc();
        self.fetch_atomic_prod_from_triggered(mr_slice.as_slice(), Some(mr_slice.desc()), res_slice.as_mut_slice(), Some(result_desc), dest_addr, mem_addr, mapped_key, context)
    }

    fn fetch_atomic_bor_mr_slice_from_triggered<T: AsFiType>(&self, mr_slice: &MemoryRegionSlice<T>, res_slice: &MemoryRegionSliceMut<T>, dest_addr: &MappedAddress, mem_addr: RemoteMemoryAddress<T>, mapped_key: &MappedMemoryRegionKey, context: &mut TriggeredContext) -> (r: AtomicCall)
        ensures
            r == (AtomicCall::FetchAtomic { ep: self.ep_fid(), count: mr_slice.data()@.len() as usize, desc: mr_slice.desc_spec()@, result_desc: res_slice.desc_spec()@, dest_addr: dest_addr@, addr: mem_addr@, key: mapped_key@, datatype: T::fi_datatype().raw_value(), op: FetchAtomicOp::Bor.raw_value(), context: old(context)@ }),
            *final(context) == *old(context),
    {
        let result_desc = res_slice.desc();
        self.fetch_atomic_bor_from_triggered(mr_slice.as_slice(), Some(mr_slice.desc()), res_slice.as_mut_slice(), Some(result_desc), dest_addr, mem_addr, mapped_key, context)
    }

    fn fetch_atomic_band_mr_slice_from_triggered<T: AsFiType>(&self, mr_slice: &MemoryRegionSlice<T>, res_slice: &MemoryRegionSliceMut<T>, dest_addr: &MappedAddress, mem_addr: RemoteMemoryAddress<T>, mapped_key: &MappedMemoryRegionKey, context: &mut TriggeredContext) -> (r: AtomicCall)
        ensures
            r == (AtomicCall::FetchAtomic { ep: self.ep_fid(), count: mr_slice.data()@.len() as usize, desc: mr_slice.desc_spec()@, result_desc: res_slice.desc_spec()@, dest_addr: dest_addr@, addr: mem_addr@, key: mapped_key@, datatype: T::fi_datatype().raw_value(), op: FetchAtomicOp::Band.raw_value(), context: old(context)@ }),
            *final(context) == *old(context),
    {
        let result_desc = res_slice.desc();
        self.fetch_atomic_band_from_triggered(mr_slice.as_slice(), Some(mr_slice.desc()), res_slice.as_mut_slice(), Some(result_desc), dest_addr, mem_addr, mapped_key, context)
    }

    fn fetch_atomic_bxor_mr_slice_from_triggered<T: AsFiType>(&self, mr_slice: &MemoryRegionSlice<T>, res_slice: &MemoryRegionSliceMut<T>, dest_addr: &MappedAddress, mem_addr: RemoteMemoryAddress<T>, mapped_key: &MappedMemoryRegionKey, context: &mut TriggeredContext) -> (r: AtomicCall)
        ensures
            r == (AtomicCall::FetchAtomic { ep: self.ep_fid(), count: mr_slice.data()@.len() as usize, desc: mr_slice.desc_spec()@, result_desc: res_slice.desc_spec()@, dest_addr: dest_addr@, addr: mem_addr@, key: mapped_key@, datatype: T::fi_datatype().raw_value(), op: FetchAtomicOp::Bxor.raw_value(), context: old(context)@ }),
            *final(context) == *old(context),
    {
        let result_desc = res_slice.desc();
        self.fetch_atomic_bxor_from_triggered(mr_slice.as_slice(), Some(mr_slice.desc()), res_slice.as_mut_slice(), Some(result_desc), dest_addr, mem_addr, mapped_key, context)
    }
}

impl AtomicFetchEpMrSlice for ConnectionlessEndpoint {}

/// Fetching atomic operations on a connected endpoint whose buffers lie in registered memory regions.
pub trait ConnectedAtomicFetchEpMrSlice: ConnectedAtomicFetchEp {
    fn fetch_atomic_mr_min<T: AsFiType>(&self, mr_slice: &MemoryRegionSlice<T>, res_slice: &MemoryRegionSliceMut<T>, mem_addr: RemoteMemoryAddress<T>, mapped_key: &MappedMemoryRegionKey) -> (r: AtomicCall)
        ensures
            r == (AtomicCall::FetchAtomic { ep: self.ep_fid(), count: mr_slice.data()@.len() as usize, desc: mr_slice.desc_spec()@, result_desc: res_slice.desc_spec()@, dest_addr: FI_ADDR_UNSPEC, addr: mem_addr@, key: mapped_key@, datatype: T::fi_datatype().raw_value(), op: FetchAtomicOp::Min.raw_value(), context: 0 }),
    {
        let result_desc = res_slice.desc();
        self.fetch_atomic_min(mr_slice.as_slice(), Some(mr_slice.desc()), res_slice.as_mut_slice(), Some(result_desc), mem_addr, mapped_key)
    }

    fn fetch_atomic_mr_max<T: AsFiType>(&self, mr_slice: &MemoryRegionSlice<T>, res_slice: &MemoryRegionSliceMut<T>, mem_addr: RemoteMemoryAddress<T>, mapped_key: &MappedMemoryRegionKey) -> (r: AtomicCall)
        ensures
            r == (AtomicCall::FetchAtomic { ep: self.ep_fid(), count: mr_slice.data()@.len() as usize, desc: mr_slice.desc_spec()@, result_desc: res_slice.desc_spec()@, dest_addr: FI_ADDR_UNSPEC, addr: mem_addr@, key: mapped_key@, datatype: T::fi_datatype().raw_value(), op: FetchAtomicOp::Max.raw_value(), context: 0 }),
    {
        let result_desc = res_slice.desc();
        self.fetch_atomic_max(mr_slice.as_slice(), Some(mr_slice.desc()), res_slice.as_mut_slice(), Some(result_desc), mem_addr, mapped_key)
    }

    fn fetch_atomic_mr_sum<T: AsFiType>(&self, mr_slice: &MemoryRegionSlice<T>, res_slice: &MemoryRegionSliceMut<T>, mem_addr: RemoteMemoryAddress<T>, mapped_key: &MappedMemoryRegionKey) -> (r: AtomicCall)
        ensures
            r == (AtomicCall::FetchAtomic { ep: self.ep_fid(), count: mr_slice.data()@.len() as usize, desc: mr_slice.desc_spec()@, result_desc: res_slice.desc_spec()@, dest_addr: FI_ADDR_UNSPEC, addr: mem_addr@, key: mapped_key@, datatype: T::fi_datatype().raw_value(), op: FetchAtomicOp::Sum.raw_value(), context: 0 }),
    {
        let result_desc = res_slice.desc();
        self.fetch_atomic_sum(mr_slice.as_slice(), Some(mr_slice.desc()), res_slice.as_mut_slice(), Some(result_desc), mem_addr, mapped_key)
    }

    fn fetch_atomic_mr_prod<T: AsFiType>(&self, mr_slice: &MemoryRegionSlice<T>, res_slice: &MemoryRegionSliceMut<T>, mem_addr: RemoteMemoryAddress<T>, mapped_key: &MappedMemoryRegionKey) -> (r: AtomicCall)
        ensures
            r == (AtomicCall::FetchAtomic { ep: self.ep_fid(), count: mr_slice.data()@.len() as usize, desc: mr_slice.desc_spec()@, result_desc: res_slice.desc_spec()@, dest_addr: FI_ADDR_UNSPEC, addr: mem_addr@, key: mapped_key@, datatype: T::fi_datatype().raw_value(), op: FetchAtomicOp::Prod.raw_value(), context: 0 }),
    {
        let result_desc = res_slice.desc();
        self.fetch_atomic_prod(mr_slice.as_slice(), Some(mr_slice.desc()), res_slice.as_mut_slice(), Some(result_desc), mem_addr, mapped_key)
    }

    fn fetch_atomic_mr_bor<T: AsFiType>(&self, mr_slice: &MemoryRegionSlice<T>, res_slice: &MemoryRegionSliceMut<T>, mem_addr: RemoteMemoryAddress<T>, mapped_key: &MappedMemoryRegionKey) -> (r: AtomicCall)
        ensures
            r == (AtomicCall::FetchAtomic { ep: self.ep_fid(), count: mr_slice.data()@.len() as usize, desc: mr_slice.desc_spec()@, result_desc: res_slice.desc_spec()@, dest_addr: FI_ADDR_UNSPEC, addr: mem_addr@, key: mapped_key@, datatype: T::fi_datatype().raw_value(), op: FetchAtomicOp::Bor.raw_value(), context: 0 }),
    {
        let result_desc = res_slice.desc();
        self.fetch_atomic_bor(mr_slice.as_slice(), Some(mr_slice.desc()), res_slice.as_mut_slice(), Some(result_desc), mem_addr, mapped_key)
    }

    fn fetch_atomic_mr_band<T: AsFiType>(&self, mr_slice: &MemoryRegionSlice<T>, res_slice: &MemoryRegionSliceMut<T>, mem_addr: RemoteMemoryAddress<T>, mapped_key: &MappedMemoryRegionKey) -> (r: AtomicCall)
        ensures
            r == (AtomicCall::FetchAtomic { ep: self.ep_fid(), count: mr_slice.data()@.len() as usize, desc: mr_slice.desc_spec()@, result_desc: res_slice.desc_spec()@, dest_addr: FI_ADDR_UNSPEC, addr: mem_addr@, key: mapped_key@, datatype: T::fi_datatype().raw_value(), op: FetchAtomicOp::Band.raw_value(), context: 0 }),
    {
        let result_desc = res_slice.desc();
        self.fetch_atomic_band(mr_slice.as_slice(), Some(mr_slice.desc()), res_slice.as_mut_slice(), Some(result_desc), mem_addr, mapped_key)
    }

    fn fetch_atomic_mr_bxor<T: AsFiType>(&self, mr_slice: &MemoryRegionSlice<T>, res_slice: &MemoryRegionSliceMut<T>, mem_addr: RemoteMemoryAddress<T>, mapped_key: &MappedMemoryRegionKey) -> (r: AtomicCall)
        ensures
            r == (AtomicCall::FetchAtomic { ep: self.ep_fid(), count: mr_slice.data()@.len() as usize, desc: mr_slice.desc_spec()@, result_desc: res_slice.desc_spec()@, dest_addr: FI_ADDR_UNSPEC, addr: mem_addr@, key: mapped_key@, datatype: T::fi_datatype().raw_value(), op: FetchAtomicOp::Bxor.raw_value(), context: 0 }),
    {
        let result_desc = res_slice.desc();
        self.fetch_atomic_bxor(mr_slice.as_slice(), Some(mr_slice.desc()), res_slice.as_mut_slice(), Some(result_desc), mem_addr, mapped_key)
    }

    fn fetch_atomic_mr_min_with_context<T: AsFiType>(&self, mr_slice: &MemoryRegionSlice<T>, res_slice: &MemoryRegionSliceMut<T>, mem_addr: RemoteMemoryAddress<T>, mapped_key: &MappedMemoryRegionKey, context: &mut Context) -> (r: AtomicCall)
        ensures
            r == (AtomicCall::FetchAtomic { ep: self.ep_fid(), count: mr_slice.data()@.len() as usize, desc: mr_slice.desc_spec()@, result_desc: res_slice.desc_spec()@, dest_addr: FI_ADDR_UNSPEC, addr: mem_addr@, key: mapped_key@, datatype: T::fi_datatype().raw_value(), op: FetchAtomicOp::Min.raw_value(), context: old(context)@ }),
            *final(context) == *old(context),
    {
        let result_desc = res_slice.desc();
        self.fetch_atomic_min_with_context(mr_slice.as_slice(), Some(mr_slice.desc()), res_slice.as_mut_slice(), Some(result_desc), mem_addr, mapped_key, context)
    }

    fn fetch_atomic_mr_max_with_context<T: AsFiType>(&self, mr_slice: &MemoryRegionSlice<T>, res_slice: &MemoryRegionSliceMut<T>, mem_addr: RemoteMemoryAddress<T>, mapped_key: &MappedMemoryRegionKey, context: &mut Context) -> (r: AtomicCall)
        ensures
            r == (AtomicCall::FetchAtomic { ep: self.ep_fid(), count: mr_slice.data()@.len() as usize, desc: mr_slice.desc_spec()@, result_desc: res_slice.desc_spec()@, dest_addr: FI_ADDR_UNSPEC, addr: mem_addr@, key: mapped_key@, datatype: T::fi_datatype().raw_value(), op: FetchAtomicOp::Max.raw_value(), context: old(context)@ }),
            *final(context) == *old(context),
    {
        let result_desc = res_slice.desc();
        self.fetch_atomic_max_with_context(mr_slice.as_slice(), Some(mr_slice.desc()), res_slice.as_mut_slice(), Some(result_desc), mem_addr, mapped_key, context)
    }

    fn fetch_atomic_mr_sum_with_context<T: AsFiType>(&self, mr_slice: &MemoryRegionSlice<T>, res_slice: &MemoryRegionSliceMut<T>, mem_addr: RemoteMemoryAddress<T>, mapped_key: &MappedMemoryRegionKey, context: &mut Context) -> (r: AtomicCall)
        ensures
            r == (AtomicCall::FetchAtomic { ep: self.ep_fid(), count: mr_slice.data()@.len() as usize, desc: mr_slice.desc_spec()@, result_desc: res_slice.desc_spec()@, dest_addr: FI_ADDR_UNSPEC, addr: mem_addr@, key: mapped_key@, datatype: T::fi_datatype().raw_value(), op: FetchAtomicOp::Sum.raw_value(), context: old(context)@ }),
            *final(context) == *old(context),
    {
        let result_desc = res_slice.desc();
        self.fetch_atomic_sum_with_context(mr_slice.as_slice(), Some(mr_slice.desc()), res_slice.as_mut_slice(), Some(result_desc), mem_addr, mapped_key, context)
    }

    fn fetch_atomic_mr_prod_with_context<T: AsFiType>(&self, mr_slice: &MemoryRegionSlice<T>, res_slice: &MemoryRegionSliceMut<T>, mem_addr: RemoteMemoryAddress<T>, mapped_key: &MappedMemoryRegionKey, context: &mut Context) -> (r: AtomicCall)
        ensures
            r == (AtomicCall::FetchAtomic { ep: self.ep_fid(), count: mr_slice.data()@.len() as usize, desc: mr_slice.desc_spec()@, result_desc: res_slice.desc_spec()@, dest_addr: FI_ADDR_UNSPEC, addr: mem_addr@, key: mapped_key@, datatype: T::fi_datatype().raw_value(), op: FetchAtomicOp::Prod.raw_value(), context: old(context)@ }),
            *final(context) == *old(context),
    {
        let result_desc = res_slice.desc();
        self.fetch_atomic_prod_with_context(mr_slice.as_slice(), Some(mr_slice.desc()), res_slice.as_mut_slice(), Some(result_desc), mem_addr, mapped_key, context)
    }

    fn fetch_atomic_mr_bor_with_context<T: AsFiType>(&self, mr_slice: &MemoryRegionSlice<T>, res_slice: &MemoryRegionSliceMut<T>, mem_addr: RemoteMemoryAddress<T>, mapped_key: &MappedMemoryRegionKey, context: &mut Context) -> (r: AtomicCall)
        ensures
            r == (AtomicCall::FetchAtomic { ep: self.ep_fid(), count: mr_slice.data()@.len() as usize, desc: mr_slice.desc_spec()@, result_desc: res_slice.desc_spec()@, dest_addr: FI_ADDR_UNSPEC, addr: mem_addr@, key: mapped_key@, datatype: T::fi_datatype().raw_value(), op: FetchAtomicOp::Bor.raw_value(), context: old(context)@ }),
            *final(context) == *old(context),
    {
        let result_desc = res_slice.desc();
        self.fetch_atomic_bor_with_context(mr_slice.as_slice(), Some(mr_slice.desc()), res_slice.as_mut_slice(), Some(result_desc), mem_addr, mapped_key, context)
    }

    fn fetch_atomic_mr_band_with_context<T: AsFiType>(&self, mr_slice: &MemoryRegionSlice<T>, res_slice: &MemoryRegionSliceMut<T>, mem_addr: RemoteMemoryAddress<T>, mapped_key: &MappedMemoryRegionKey, context: &mut Context) -> (r: AtomicCall)
        ensures
            r == (AtomicCall::FetchAtomic { ep: self.ep_fid(), count: mr_slice.data()@.len() as usize, desc: mr_slice.desc_spec()@, result_desc: res_slice.desc_spec()@, dest_addr: FI_ADDR_UNSPEC, addr: mem_addr@, key: mapped_key@, datatype: T::fi_datatype().raw_value(), op: FetchAtomicOp::Band.raw_value(), context: old(context)@ }),
            *final(context) == *old(context),
    {
        let result_desc = res_slice.desc();
        self.fetch_atomic_band_with_context(mr_slice.as_slice(), Some(mr_slice.desc()), res_slice.as_mut_slice(), Some(result_desc), mem_addr, mapped_key, context)
    }

    fn fetch_atomic_mr_bxor_with_context<T: AsFiType>(&self, mr_slice: &MemoryRegionSlice<T>, res_slice: &MemoryRegionSliceMut<T>, mem_addr: RemoteMemoryAddress<T>, mapped_key: &MappedMemoryRegionKey, context: &mut Context) -> (r: AtomicCall)
        ensures
            r == (AtomicCall::FetchAtomic { ep: self.ep_fid(), count: mr_slice.data()@.len() as usize, desc: mr_slice.desc_spec()@, result_desc: res_slice.desc_spec()@, dest_addr: FI_ADDR_UNSPEC, addr: mem_addr@, key: mapped_key@, datatype: T::fi_datatype().raw_value(), op: FetchAtomicOp::Bxor.raw_value(), context: old(context)@ }),
            *final(context) == *old(context),
    {
        let result_desc = res_slice.desc();
        self.fetch_atomic_bxor_with_context(mr_slice.as_slice(), Some(mr_slice.desc()), res_slice.as_mut_slice(), Some(result_desc), mem_addr, mapped_key, context)
    }

    fn fetch_atomic_mr_min_triggered<T: AsFiType>(&self, mr_slice: &MemoryRegionSlice<T>, res_slice: &MemoryRegionSliceMut<T>, mem_addr: RemoteMemoryAddress<T>, mapped_key: &MappedMemoryRegionKey, context: &mut TriggeredContext) -> (r: AtomicCall)
        ensures
            r == (AtomicCall::FetchAtomic { ep: self.ep_fid(), count: mr_slice.data()@.len() as usize, desc: mr_slice.desc_spec()@, result_desc: res_slice.desc_spec()@, dest_addr: FI_ADDR_UNSPEC, addr: mem_addr@, key: mapped_key@, datatype: T::fi_datatype().raw_value(), op: FetchAtomicOp::Min.raw_value(), context: old(context)@ }),
            *final(context) == *old(context),
    {
        let result_desc = res_slice.desc();
        self.fetch_atomic_min_triggered(mr_slice.as_slice(), Some(mr_slice.desc()), res_slice.as_mut_slice(), Some(result_desc), mem_addr, mapped_key, context)
    }

    fn fetch_atomic_mr_max_triggered<T: AsFiType>(&self, mr_slice: &MemoryRegionSlice<T>, res_slice: &MemoryRegionSliceMut<T>, mem_addr: RemoteMemoryAddress<T>, mapped_key: &MappedMemoryRegionKey, context: &mut TriggeredContext) -> (r: AtomicCall)
        ensures
            r == (AtomicCall::FetchAtomic { ep: self.ep_fid(), count: mr_slice.data()@.len() as usize, desc: mr_slice.desc_spec()@, result_desc: res_slice.desc_spec()@, dest_addr: FI_ADDR_UNSPEC, addr: mem_addr@, key: mapped_key@, datatype: T::fi_datatype().raw_value(), op: FetchAtomicOp::Max.raw_value(), context: old(context)@ }),
            *final(context) == *old(context),
    {
        let result_desc = res_slice.desc();
        self.fetch_atomic_max_triggered(mr_slice.as_slice(), Some(mr_slice.desc()), res_slice.as_mut_slice(), Some(result_desc), mem_addr, mapped_key, context)
    }

    fn fetch_atomic_mr_sum_triggered<T: AsFiType>(&self, mr_slice: &MemoryRegionSlice<T>, res_slice: &MemoryRegionSliceMut<T>, mem_addr: RemoteMemoryAddress<T>, mapped_key: &MappedMemoryRegionKey, context: &mut TriggeredContext) -> (r: AtomicCall)
        ensures
            r == (AtomicCall::FetchAtomic { ep: self.ep_fid(), count: mr_slice.data()@.len() as usize, desc: mr_slice.desc_spec()@, result_desc: res_slice.desc_spec()@, dest_addr: FI_ADDR_UNSPEC, addr: mem_addr@, key: mapped_key@, datatype: T::fi_datatype().raw_value(), op: FetchAtomicOp::Sum.raw_value(), context: old(context)@ }),
            *final(context) == *old(context),
    {
        let result_desc = res_slice.desc();
        self.fetch_atomic_sum_triggered(mr_slice.as_slice(), Some(mr_slice.desc()), res_slice.as_mut_slice(), Some(result_desc), mem_addr, mapped_key, context)
    }

    fn fetch_atomic_mr_prod_triggered<T: AsFiType>(&self, mr_slice: &MemoryRegionSlice<T>, res_slice: &MemoryRegionSliceMut<T>, mem_addr: RemoteMemoryAddress<T>, mapped_key: &MappedMemoryRegionKey, context: &mut TriggeredContext) -> (r: AtomicCall)
        ensures
            r == (AtomicCall::FetchAtomic { ep: self.ep_fid(), count: mr_slice.data()@.len() as usize, desc: mr_slice.desc_spec()@, result_desc: res_slice.desc_spec()@, dest_addr: FI_ADDR_UNSPEC, addr: mem_addr@, key: mapped_key@, datatype: T::fi_datatype().raw_value(), op: FetchAtomicOp::Prod.raw_value(), context: old(context)@ }),
            *final(context) == *old(context),
    {
        let result_desc = res_slice.desc();
        self.fetch_atomic_prod_triggered(mr_slice.as_slice(), Some(mr_slice.desc()), res_slice.as_mut_slice(), Some(result_desc), mem_addr, mapped_key, context)
    }

    fn fetch_atomic_mr_bor_triggered<T: AsFiType>(&self, mr_slice: &MemoryRegionSlice<T>, res_slice: &MemoryRegionSliceMut<T>, mem_addr: RemoteMemoryAddress<T>, mapped_key: &MappedMemoryRegionKey, context: &mut TriggeredContext) -> (r: AtomicCall)
        ensures
            r == (AtomicCall::FetchAtomic { ep: self.ep_fid(), count: mr_slice.data()@.len() as usize, desc: mr_slice.desc_spec()@, result_desc: res_slice.desc_spec()@, dest_addr: FI_ADDR_UNSPEC, addr: mem_addr@, key: mapped_key@, datatype: T::fi_datatype().raw_value(), op: FetchAtomicOp::Bor.raw_value(), context: old(context)@ }),
            *final(context) == *old(context),
    {
        let result_desc = res_slice.desc();
        self.fetch_atomic_bor_triggered(mr_slice.as_slice(), Some(mr_slice.desc()), res_slice.as_mut_slice(), Some(result_desc), mem_addr, mapped_key, context)
    }

    fn fetch_atomic_mr_band_triggered<T: AsFiType>(&self, mr_slice: &MemoryRegionSlice<T>, res_slice: &MemoryRegionSliceMut<T>, mem_addr: RemoteMemoryAddress<T>, mapped_key: &MappedMemoryRegionKey, context: &mut TriggeredContext) -> (r: AtomicCall)
        ensures
            r == (AtomicCall::FetchAtomic { ep: self.ep_fid(), count: mr_slice.data()@.len() as usize, desc: mr_slice.desc_spec()@, result_desc: res_slice.desc_spec()@, dest_addr: FI_ADDR_UNSPEC, addr: mem_addr@, key: mapped_key@, datatype: T::fi_datatype().raw_value(), op: FetchAtomicOp::Band.raw_value(), context: old(context)@ }),
            *final(context) == *old(context),
    {
        let result_desc = res_slice.desc();
        self.fetch_atomic_band_triggered(mr_slice.as_slice(), Some(mr_slice.desc()), res_slice.as_mut_slice(), Some(result_desc), mem_addr, mapped_key, context)
    }

    fn fetch_atomic_mr_bxor_triggered<T: AsFiType>(&self, mr_slice: &MemoryRegionSlice<T>, res_slice: &MemoryRegionSliceMut<T>, mem_addr: RemoteMemoryAddress<T>, mapped_key: &MappedMemoryRegionKey, context: &mut TriggeredContext) -> (r: AtomicCall)
        ensures
            r == (AtomicCall::FetchAtomic { ep: self.ep_fid(), count: mr_slice.data()@.len() as usize, desc: mr_slice.desc_spec()@, result_desc: res_slice.desc_spec()@, dest_addr: FI_ADDR_UNSPEC, addr: mem_addr@, key: mapped_key@, datatype: T::fi_datatype().raw_value(), op: FetchAtomicOp::Bxor.raw_value(), context: old(context)@ }),
            *final(context) == *old(context),
    {
        let result_desc = res_slice.desc();
        self.fetch_atomic_bxor_triggered(mr_slice.as_slice(), Some(mr_slice.desc()), res_slice.as_mut_slice(), Some(result_desc), mem_addr, mapped_key, context)
    }
}

impl ConnectedAtomicFetchEpMrSlice for ConnectedEndpoint {}

/// Fetching atomic operations on a remote run of values named by its address and key.
pub trait AtomicFetchRemoteMemAddrSliceEp: AtomicFetchEp {
    fn fetch_atomic_min_mr_slice_from<T: AsFiType>(&self, buf: &[T], desc: Option<MemoryRegionDesc>, res: &[T], res_desc: Option<MemoryRegionDesc>, dest_addr: &MappedAddress, src_slice: &RemoteMemAddrSlice<T>) -> (r: AtomicCall)
        ensures
            r == (AtomicCall::FetchAtomic { ep: self.ep_fid(), count: buf@.len() as usize, desc: owned_desc_value(desc), result_desc: owned_desc_value(res_desc), dest_addr: dest_addr@, addr: src_slice.mem_address_spec(), key: src_slice.key_spec(), datatype: T::fi_datatype().raw_value(), op: FetchAtomicOp::Min.raw_value(), context: 0 }),
    {
        self.fetch_atomic_min_from(buf, desc, res, res_desc, dest_addr, src_slice.mem_address(), src_slice.key())
    }

    fn fetch_atomic_max_mr_slice_from<T: AsFiType>(&self, buf: &[T], desc: Option<MemoryRegionDesc>, res: &[T], res_desc: Option<MemoryRegionDesc>, dest_addr: &MappedAddress, src_slice: &RemoteMemAddrSlice<T>) -> (r: AtomicCall)
        ensures
            r == (AtomicCall::FetchAtomic { ep: self.ep_fid(), count: buf@.len() as usize, desc: owned_desc_value(desc), result_desc: owned_desc_value(res_desc), dest_addr: dest_addr@, addr: src_slice.mem_address_spec(), key: src_slice.key_spec(), datatype: T::fi_datatype().raw_value(), op: FetchAtomicOp::Max.raw_value(), context: 0 }),
    {
        self.fetch_atomic_max_from(buf, desc, res, res_desc, dest_addr, src_slice.mem_address(), src_slice.key())
    }

    fn fetch_atomic_sum_mr_slice_from<T: AsFiType>(&self, buf: &[T], desc: Option<MemoryRegionDesc>, res: &[T], res_desc: Option<MemoryRegionDesc>, dest_addr: &MappedAddress, src_slice: &RemoteMemAddrSlice<T>) -> (r: AtomicCall)
        ensures
            r == (AtomicCall::FetchAtomic { ep: self.ep_fid(), count: buf@.len() as usize, desc: owned_desc_value(desc), result_desc: owned_desc_value(res_desc), dest_addr: dest_addr@, addr: src_slice.mem_address_spec(), key: src_slice.key_spec(), datatype: T::fi_datatype().raw_value(), op: FetchAtomicOp::Sum.raw_value(), context: 0 }),
    {
        self.fetch_atomic_sum_from(buf, desc, res, res_desc, dest_addr, src_slice.mem_address(), src_slice.key())
    }

    fn fetch_atomic_prod_mr_slice_from<T: AsFiType>(&self, buf: &[T], desc: Option<MemoryRegionDesc>, res: &[T], res_desc: Option<MemoryRegionDesc>, dest_addr: &MappedAddress, src_slice: &RemoteMemAddrSlice<T>) -> (r: AtomicCall)
        ensures
            r == (AtomicCall::FetchAtomic { ep: self.ep_fid(), count: buf@.len() as usize, desc: owned_desc_value(desc), result_desc: owned_desc_value(res_desc), dest_addr: dest_addr@, addr: src_slice.mem_address_spec(), key: src_slice.key_spec(), datatype: T::fi_datatype().raw_value(), op: FetchAtomicOp::Prod.raw_value(), context: 0 }),
    {
        self.fetch_atomic_prod_from(buf, desc, res, res_desc, dest_addr, src_slice.mem_address(), src_slice.key())
    }

    fn fetch_atomic_bor_mr_slice_from<T: AsFiType>(&self, buf: &[T], desc: Option<MemoryRegionDesc>, res: &[T], res_desc: Option<MemoryRegionDesc>, dest_addr: &MappedAddress, src_slice: &RemoteMemAddrSlice<T>) -> (r: AtomicCall)
        ensures
            r == (AtomicCall::FetchAtomic { ep: self.ep_fid(), count: buf@.len() as usize, desc: owned_desc_value(desc), result_desc: owned_desc_value(res_desc), dest_addr: dest_addr@, addr: src_slice.mem_address_spec(), key: src_slice.key_spec(), datatype: T::fi_datatype().raw_value(), op: FetchAtomicOp::Bor.raw_value(), context: 0 }),
    {
        self.fetch_atomic_bor_from(buf, desc, res, res_desc, dest_addr, src_slice.mem_address(), src_slice.key())
    }

    fn fetch_atomic_band_mr_slice_from<T: AsFiType>(&self, buf: &[T], desc: Option<MemoryRegionDesc>, res: &[T], res_desc: Option<MemoryRegionDesc>, dest_addr: &MappedAddress, src_slice: &RemoteMemAddrSlice<T>) -> (r: AtomicCall)
        ensures
            r == (AtomicCall::FetchAtomic { ep: self.ep_fid(), count: buf@.len() as usize, desc: owned_desc_value(desc), result_desc: owned_desc_value(res_desc), dest_addr: dest_addr@, addr: src_slice.mem_address_spec(), key: src_slice.key_spec(), datatype: T::fi_datatype().raw_value(), op: FetchAtomicOp::Band.raw_value(), context: 0 }),
    {
        self.fetch_atomic_band_from(buf, desc, res, res_desc, dest_addr, src_slice.mem_address(), src_slice.key())
    }

    fn fetch_atomic_bxor_mr_slice_from<T: AsFiType>(&self, buf: &[T], desc: Option<MemoryRegionDesc>, res: &[T], res_desc: Option<MemoryRegionDesc>, dest_addr: &MappedAddress, src_slice: &RemoteMemAddrSlice<T>) -> (r: AtomicCall)
        ensures
            r == (AtomicCall::FetchAtomic { ep: self.ep_fid(), count: buf@.len() as usize, desc: owned_desc_value(desc), result_desc: owned_desc_value(res_desc), dest_addr: dest_addr@, addr: src_slice.mem_address_spec(), key: src_slice.key_spec(), datatype: T::fi_datatype().raw_value(), op: FetchAtomicOp::Bxor.raw_value(), context: 0 }),
    {
        self.fetch_atomic_bxor_from(buf, desc, res, res_desc, dest_addr, src_slice.mem_address(), src_slice.key())
    }

    fn fetch_atomic_min_mr_slice_from_with_context<T: AsFiType>(&self, buf: &[T], desc: Option<MemoryRegionDesc>, res: &[T], res_desc: Option<MemoryRegionDesc>, dest_addr: &MappedAddress, src_slice: &RemoteMemAddrSlice<T>, context: &mut Context) -> (r: AtomicCall)
        ensures
            r == (AtomicCall::FetchAtomic { ep: self.ep_fid(), count: buf@.len() as usize, desc: owned_desc_value(desc), result_desc: owned_desc_value(res_desc), dest_addr: dest_addr@, addr: src_slice.mem_address_spec(), key: src_slice.key_spec(), datatype: T::fi_datatype().raw_value(), op: FetchAtomicOp::Min.raw_value(), context: old(context)@ }),
            *final(context) == *old(context),
    {
        self.fetch_atomic_min_from_with_context(buf, desc, res, res_desc, dest_addr, src_slice.mem_address(), src_slice.key(), context)
    }

    fn fetch_atomic_max_mr_slice_from_with_context<T: AsFiType>(&self, buf: &[T], desc: Option<MemoryRegionDesc>, res: &[T], res_desc: Option<MemoryRegionDesc>, dest_addr: &MappedAddress, src_slice: &RemoteMemAddrSlice<T>, context: &mut Context) -> (r: AtomicCall)
        ensures
            r == (AtomicCall::FetchAtomic { ep: self.ep_fid(), count: buf@.len() as usize, desc: owned_desc_value(desc), result_desc: owned_desc_value(res_desc), dest_addr: dest_addr@, addr: src_slice.mem_address_spec(), key: src_slice.key_spec(), datatype: T::fi_datatype().raw_value(), op: FetchAtomicOp::Max.raw_value(), context: old(context)@ }),
            *final(context) == *old(context),
    {
        self.fetch_atomic_max_from_with_context(buf, desc, res, res_desc, dest_addr, src_slice.mem_address(), src_slice.key(), context)
    }

    fn fetch_atomic_sum_mr_slice_from_with_context<T: AsFiType>(&self, buf: &[T], desc: Option<MemoryRegionDesc>, res: &[T], res_desc: Option<MemoryRegionDesc>, dest_addr: &MappedAddress, src_slice: &RemoteMemAddrSlice<T>, context: &mut Context) -> (r: AtomicCall)
        ensures
            r == (AtomicCall::FetchAtomic { ep: self.ep_fid(), count: buf@.len() as usize, desc: owned_desc_value(desc), result_desc: owned_desc_value(res_desc), dest_addr: dest_addr@, addr: src_slice.mem_address_spec(), key: src_slice.key_spec(), datatype: T::fi_datatype().raw_value(), op: FetchAtomicOp::Sum.raw_value(), context: old(context)@ }),
            *final(context) == *old(context),
    {
        self.fetch_atomic_sum_from_with_context(buf, desc, res, res_desc, dest_addr, src_slice.mem_address(), src_slice.key(), context)
    }

    fn fetch_atomic_pro_mr_slice_from_with_contextd<T: AsFiType>(&self, buf: &[T], desc: Option<MemoryRegionDesc>, res: &[T], res_desc: Option<MemoryRegionDesc>, dest_addr: &MappedAddress, src_slice: &RemoteMemAddrSlice<T>, context: &mut Context) -> (r: AtomicCall)
        ensures
            r == (AtomicCall::FetchAtomic { ep: self.ep_fid(), count: buf@.len() as usize, desc: owned_desc_value(desc), result_desc: owned_desc_value(res_desc), dest_addr: dest_addr@, addr: src_slice.mem_address_spec(), key: src_slice.key_spec(), datatype: T::fi_datatype().raw_value(), op: FetchAtomicOp::Prod.raw_value(), context: old(context)@ }),
            *final(context) == *old(context),
    {
        self.fetch_atomic_prod_from_with_context(buf, desc, res, res_desc, dest_addr, src_slice.mem_address(), src_slice.key(), context)
    }

    fn fetch_atomic_bor_mr_slice_from_with_context<T: AsFiType>(&self, buf: &[T], desc: Option<MemoryRegionDesc>, res: &[T], res_desc: Option<MemoryRegionDesc>, dest_addr: &MappedAddress, src_slice: &RemoteMemAddrSlice<T>, context: &mut Context) -> (r: AtomicCall)
        ensures
            r == (AtomicCall::FetchAtomic { ep: self.ep_fid(), count: buf@.len() as usize, desc: owned_desc_value(desc), result_desc: owned_desc_value(res_desc), dest_addr: dest_addr@, addr: src_slice.mem_address_spec(), key: src_slice.key_spec(), datatype: T::fi_datatype().raw_value(), op: FetchAtomicOp::Bor.raw_value(), context: old(context)@ }),
            *final(context) == *old(context),
    {
        self.fetch_atomic_bor_from_with_context(buf, desc, res, res_desc, dest_addr, src_slice.mem_address(), src_slice.key(), context)
    }

    fn fetch_atomic_ban_mr_slice_from_with_context<T: AsFiType>(&self, buf: &[T], desc: Option<MemoryRegionDesc>, res: &[T], res_desc: Option<MemoryRegionDesc>, dest_addr: &MappedAddress, src_slice: &RemoteMemAddrSlice<T>, context: &mut Context) -> (r: AtomicCall)
        ensures
            r == (AtomicCall::FetchAtomic { ep: self.ep_fid(), count: buf@.len() as usize, desc: owned_desc_value(desc), result_desc: owned_desc_value(res_desc), dest_addr: dest_addr@, addr: src_slice.mem_address_spec(), key: src_slice.key_spec(), datatype: T::fi_datatype().raw_value(), op: FetchAtomicOp::Band.raw_value(), context: old(context)@ }),
            *final(context) == *old(context),
    {
        self.fetch_atomic_band_from_with_context(buf, desc, res, res_desc, dest_addr, src_slice.mem_address(), src_slice.key(), context)
    }

    fn fetch_atomic_bxo_mr_slice_from_with_context<T: AsFiType>(&self, buf: &[T], desc: Option<MemoryRegionDesc>, res: &[T], res_desc: Option<MemoryRegionDesc>, dest_addr: &MappedAddress, src_slice: &RemoteMemAddrSlice<T>, context: &mut Context) -> (r: AtomicCall)
        ensures
            r == (AtomicCall::FetchAtomic { ep: self.ep_fid(), count: buf@.len() as usize, desc: owned_desc_value(desc), result_desc: owned_desc_value(res_desc), dest_addr: dest_addr@, addr: src_slice.mem_address_spec(), key: src_slice.key_spec(), datatype: T::fi_datatype().raw_value(), op: FetchAtomicOp::Bxor.raw_value(), context: old(context)@ }),
            *final(context) == *old(context),
    {
        self.fetch_atomic_bxor_from_with_context(buf, desc, res, res_desc, dest_addr, src_slice.mem_address(), src_slice.key(), context)
    }

    fn fetch_atomic_min_mr_slice_from_triggered<T: AsFiType>(&self, buf: &[T], desc: Option<MemoryRegionDesc>, res: &[T], res_desc: Option<MemoryRegionDesc>, dest_addr: &MappedAddress, src_slice: &RemoteMemAddrSlice<T>, context: &mut TriggeredContext) -> (r: AtomicCall)
        ensures
            r == (AtomicCall::FetchAtomic { ep: self.ep_fid(), count: buf@.len() as usize, desc: owned_desc_value(desc), result_desc: owned_desc_value(res_desc), dest_addr: dest_addr@, addr: src_slice.mem_address_spec(), key: src_slice.key_spec(), datatype: T::fi_datatype().raw_value(), op: FetchAtomicOp::Min.raw_value(), context: old(context)@ }),
            *final(context) == *old(context),
    {
        self.fetch_atomic_min_from_triggered(buf, desc, res, res_desc, dest_addr, src_slice.mem_address(), src_slice.key(), context)
    }

    fn fetch_atomic_max_mr_slice_from_triggered<T: AsFiType>(&self, buf: &[T], desc: Option<MemoryRegionDesc>, res: &[T], res_desc: Option<MemoryRegionDesc>, dest_addr: &MappedAddress, src_slice: &RemoteMemAddrSlice<T>, context: &mut TriggeredContext) -> (r: AtomicCall)
        ensures
            r == (AtomicCall::FetchAtomic { ep: self.ep_fid(), count: buf@.len() as usize, desc: owned_desc_value(desc), result_desc: owned_desc_value(res_desc), dest_addr: dest_addr@, addr: src_slice.mem_address_spec(), key: src_slice.key_spec(), datatype: T::fi_datatype().raw_value(), op: FetchAtomicOp::Max.raw_value(), context: old(context)@ }),
            *final(context) == *old(context),
    {
        self.fetch_atomic_max_from_triggered(buf, desc, res, res_desc, dest_addr, src_slice.mem_address(), src_slice.key(), context)
    }

    fn fetch_atomic_sum_mr_slice_from_triggered<T: AsFiType>(&self, buf: &[T], desc: Option<MemoryRegionDesc>, res: &[T], res_desc: Option<MemoryRegionDesc>, dest_addr: &MappedAddress, src_slice: &RemoteMemAddrSlice<T>, context: &mut TriggeredContext) -> (r: AtomicCall)
        ensures
            r == (AtomicCall::FetchAtomic { ep: self.ep_fid(), count: buf@.len() as usize, desc: owned_desc_value(desc), result_desc: owned_desc_value(res_desc), dest_addr: dest_addr@, addr: src_slice.mem_address_spec(), key: src_slice.key_spec(), datatype: T::fi_datatype().raw_value(), op: FetchAtomicOp::Sum.raw_value(), context: old(context)@ }),
            *final(context) == *old(context),
    {
        self.fetch_atomic_sum_from_triggered(buf, desc, res, res_desc, dest_addr, src_slice.mem_address(), src_slice.key(), context)
    }

    fn fetch_atomic_pro_mr_slice_from_triggered<T: AsFiType>(&self, buf: &[T], desc: Option<MemoryRegionDesc>, res: &[T], res_desc: Option<MemoryRegionDesc>, dest_addr: &MappedAddress, src_slice: &RemoteMemAddrSlice<T>, context: &mut TriggeredContext) -> (r: AtomicCall)
        ensures
            r == (AtomicCall::FetchAtomic { ep: self.ep_fid(), count: buf@.len() as usize, desc: owned_desc_value(desc), result_desc: owned_desc_value(res_desc), dest_addr: dest_addr@, addr: src_slice.mem_address_spec(), key: src_slice.key_spec(), datatype: T::fi_datatype().raw_value(), op: FetchAtomicOp::Prod.raw_value(), context: old(context)@ }),
            *final(context) == *old(context),
    {
        self.fetch_atomic_prod_from_triggered(buf, desc, res, res_desc, dest_addr, src_slice.mem_address(), src_slice.key(), context)
    }

    fn fetch_atomic_bor_mr_slice_from_triggered<T: AsFiType>(&self, buf: &[T], desc: Option<MemoryRegionDesc>, res: &[T], res_desc: Option<MemoryRegionDesc>, dest_addr: &MappedAddress, src_slice: &RemoteMemAddrSlice<T>, context: &mut TriggeredContext) -> (r: AtomicCall)
        ensures
            r == (AtomicCall::FetchAtomic { ep: self.ep_fid(), count: buf@.len() as usize, desc: owned_desc_value(desc), result_desc: owned_desc_value(res_desc), dest_addr: dest_addr@, addr: src_slice.mem_address_spec(), key: src_slice.key_spec(), datatype: T::fi_datatype().raw_value(), op: FetchAtomicOp::Bor.raw_value(), context: old(context)@ }),
            *final(context) == *old(context),
    {
        self.fetch_atomic_bor_from_triggered(buf, desc, res, res_desc, dest_addr, src_slice.mem_address(), src_slice.key(), context)
    }

    fn fetch_atomic_ban_mr_slice_from_triggered<T: AsFiType>(&self, buf: &[T], desc: Option<MemoryRegionDesc>, res: &[T], res_desc: Option<MemoryRegionDesc>, dest_addr: &MappedAddress, src_slice: &RemoteMemAddrSlice<T>, context: &mut TriggeredContext) -> (r: AtomicCall)
        ensures
            r == (AtomicCall::FetchAtomic { ep: self.ep_fid(), count: buf@.len() as usize, desc: owned_desc_value(desc), result_desc: owned_desc_value(res_desc), dest_addr: dest_addr@, addr: src_slice.mem_address_spec(), key: src_slice.key_spec(), datatype: T::fi_datatype().raw_value(), op: FetchAtomicOp::Band.raw_value(), context: old(context)@ }),
            *final(context) == *old(context),
    {
        self.fetch_atomic_band_from_triggered(buf, desc, res, res_desc, dest_addr, src_slice.mem_address(), src_slice.key(), context)
    }

    fn fetch_atomic_bxo_mr_slice_from_triggered<T: AsFiType>(&self, buf: &[T], desc: Option<MemoryRegionDesc>, res: &[T], res_desc: Option<MemoryRegionDesc>, dest_addr: &MappedAddress, src_slice: &RemoteMemAddrSlice<T>, context: &mut TriggeredContext) -> (r: AtomicCall)
        ensures
            r == (AtomicCall::FetchAtomic { ep: self.ep_fid(), count: buf@.len() as usize, desc: owned_desc_value(desc), result_desc: owned_desc_value(res_desc), dest_addr: dest_addr@, addr: src_slice.mem_address_spec(), key: src_slice.key_spec(), datatype: T::fi_datatype().raw_value(), op: FetchAtomicOp::Bxor.raw_value(), context: old(context)@ }),
            *final(context) == *old(context),
    {
        self.fetch_atomic_bxor_from_triggered(buf, desc, res, res_desc, dest_addr, src_slice.mem_address(), src_slice.key(), context)
    }

    fn fetch_atomicv_min_mr_slice_from_triggered<T: AsFiType>(&self, ioc: &[Ioc<T>], desc: Option<&[MemoryRegionDesc]>, resultv: &[IocMut<T>], res_desc: Option<&[MemoryRegionDesc]>, dest_addr: &MappedAddress, src_slice: &RemoteMemAddrSlice<T>, context: &mut TriggeredContext) -> (r: AtomicCall)
        ensures
            r == (AtomicCall::FetchAtomicv { ep: self.ep_fid(), count: ioc@.len() as usize, descs: desc is Some, result_count: resultv@.len() as usize, result_descs: res_desc is Some, dest_addr: dest_addr@, addr: src_slice.mem_address_spec(), key: src_slice.key_spec(), datatype: T::fi_datatype().raw_value(), op: FetchAtomicOp::Min.raw_value(), context: old(context)@ }),
            *final(context) == *old(context),
    {
        self.fetch_atomicv_min_from_triggered(ioc, desc, resultv, res_desc, dest_addr, src_slice.mem_address(), src_slice.key(), context)
    }

    fn fetch_atomicv_max_mr_slice_from_triggered<T: AsFiType>(&self, ioc: &[Ioc<T>], desc: Option<&[MemoryRegionDesc]>, resultv: &[IocMut<T>], res_desc: Option<&[MemoryRegionDesc]>, dest_addr: &MappedAddress, src_slice: &RemoteMemAddrSlice<T>, context: &mut TriggeredContext) -> (r: AtomicCall)
        ensures
            r == (AtomicCall::FetchAtomicv { ep: self.ep_fid(), count: ioc@.len() as usize, descs: desc is Some, result_count: resultv@.len() as usize, result_descs: res_desc is Some, dest_addr: dest_addr@, addr: src_slice.mem_address_spec(), key: src_slice.key_spec(), datatype: T::fi_datatype().raw_value(), op: FetchAtomicOp::Max.raw_value(), context: old(context)@ }),
            *final(context) == *old(context),
    {
        self.fetch_atomicv_max_from_triggered(ioc, desc, resultv, res_desc, dest_addr, src_slice.mem_address(), src_slice.key(), context)
    }

    fn fetch_atomicv_sum_mr_slice_from_triggered<T: AsFiType>(&self, ioc: &[Ioc<T>], desc: Option<&[MemoryRegionDesc]>, resultv: &[IocMut<T>], res_desc: Option<&[MemoryRegionDesc]>, dest_addr: &MappedAddress, src_slice: &RemoteMemAddrSlice<T>, context: &mut TriggeredContext) -> (r: AtomicCall)
        ensures
            r == (AtomicCall::FetchAtomicv { ep: self.ep_fid(), count: ioc@.len() as usize, descs: desc is Some, result_count: resultv@.len() as usize, result_descs: res_desc is Some, dest_addr: dest_addr@, addr: src_slice.mem_address_spec(), key: src_slice.key_spec(), datatype: T::fi_datatype().raw_value(), op: FetchAtomicOp::Sum.raw_value(), context: old(context)@ }),
            *final(context) == *old(context),
    {
        self.fetch_atomicv_sum_from_triggered(ioc, desc, resultv, res_desc, dest_addr, src_slice.mem_address(), src_slice.key(), context)
    }

    fn fetch_atomicv_pro_mr_slice_from_triggered<T: AsFiType>(&self, ioc: &[Ioc<T>], desc: Option<&[MemoryRegionDesc]>, resultv: &[IocMut<T>], res_desc: Option<&[MemoryRegionDesc]>, dest_addr: &MappedAddress, src_slice: &RemoteMemAddrSlice<T>, context: &mut TriggeredContext) -> (r: AtomicCall)
        ensures
            r == (AtomicCall::FetchAtomicv { ep: self.ep_fid(), count: ioc@.len() as usize, descs: desc is Some, result_count: resultv@.len() as usize, result_descs: res_desc is Some, dest_addr: dest_addr@, addr: src_slice.mem_address_spec(), key: src_slice.key_spec(), datatype: T::fi_datatype().raw_value(), op: FetchAtomicOp::Prod.raw_value(), context: old(context)@ }),
            *final(context) == *old(context),
    {
        self.fetch_atomicv_prod_from_triggered(ioc, desc, resultv, res_desc, dest_addr, src_slice.mem_address(), src_slice.key(), context)
    }

    fn fetch_atomicv_bor_mr_slice_from_triggered<T: AsFiType>(&self, ioc: &[Ioc<T>], desc: Option<&[MemoryRegionDesc]>, resultv: &[IocMut<T>], res_desc: Option<&[MemoryRegionDesc]>, dest_addr: &MappedAddress, src_slice: &RemoteMemAddrSlice<T>, context: &mut TriggeredContext) -> (r: AtomicCall)
        ensures
            r == (AtomicCall::FetchAtomicv { ep: self.ep_fid(), count: ioc@.len() as usize, descs: desc is Some, result_count: resultv@.len() as usize, result_descs: res_desc is Some, dest_addr: dest_addr@, addr: src_slice.mem_address_spec(), key: src_slice.key_spec(), datatype: T::fi_datatype().raw_value(), op: FetchAtomicOp::Bor.raw_value(), context: old(context)@ }),
            *final(context) == *old(context),
    {
        self.fetch_atomicv_bor_from_triggered(ioc, desc, resultv, res_desc, dest_addr, src_slice.mem_address(), src_slice.key(), context)
    }

    fn fetch_atomicv_ban_mr_slice_from_triggered<T: AsFiType>(&self, ioc: &[Ioc<T>], desc: Option<&[MemoryRegionDesc]>, resultv: &[IocMut<T>], res_desc: Option<&[MemoryRegionDesc]>, dest_addr: &MappedAddress, src_slice: &RemoteMemAddrSlice<T>, context: &mut TriggeredContext) -> (r: AtomicCall)
        ensures
            r == (AtomicCall::FetchAtomicv { ep: self.ep_fid(), count: ioc@.len() as usize, descs: desc is Some, result_count: resultv@.len() as usize, result_descs: res_desc is Some, dest_addr: dest_addr@, addr: src_slice.mem_address_spec(), key: src_slice.key_spec(), datatype: T::fi_datatype().raw_value(), op: FetchAtomicOp::Band.raw_value(), context: old(context)@ }),
            *final(context) == *old(context),
    {
        self.fetch_atomicv_band_from_triggered(ioc, desc, resultv, res_desc, dest_addr, src_slice.mem_address(), src_slice.key(), context)
    }

    fn fetch_atomicv_bxo_mr_slice_from_triggered<T: AsFiType>(&self, ioc: &[Ioc<T>], desc: Option<&[MemoryRegionDesc]>, resultv: &[IocMut<T>], res_desc: Option<&[MemoryRegionDesc]>, dest_addr: &MappedAddress, src_slice: &RemoteMemAddrSlice<T>, context: &mut TriggeredContext) -> (r: AtomicCall)
        ensures
            r == (AtomicCall::FetchAtomicv { ep: self.ep_fid(), count: ioc@.len() as usize, descs: desc is Some, result_count: resultv@.len() as usize, result_descs: res_desc is Some, dest_addr: dest_addr@, addr: src_slice.mem_address_spec(), key: src_slice.key_spec(), datatype: T::fi_datatype().raw_value(), op: FetchAtomicOp::Bxor.raw_value(), context: old(context)@ }),
            *final(context) == *old(context),
    {
        self.fetch_atomicv_bxor_from_triggered(ioc, desc, resultv, res_desc, dest_addr, src_slice.mem_address(), src_slice.key(), context)
    }

    fn fetch_atomicv_min_mr_slice_from<T: AsFiType>(&self, ioc: &[Ioc<T>], desc: Option<&[MemoryRegionDesc]>, resultv: &[IocMut<T>], res_desc: Option<&[MemoryRegionDesc]>, dest_addr: &MappedAddress, src_slice: &RemoteMemAddrSlice<T>) -> (r: AtomicCall)
        ensures
            r == (AtomicCall::FetchAtomicv { ep: self.ep_fid(), count: ioc@.len() as usize, descs: desc is Some, result_count: resultv@.len() as usize, result_descs: res_desc is Some, dest_addr: dest_addr@, addr: src_slice.mem_address_spec(), key: src_slice.key_spec(), datatype: T::fi_datatype().raw_value(), op: FetchAtomicOp::Min.raw_value(), context: 0 }),
    {
        self.fetch_atomicv_min_from(ioc, desc, resultv, res_desc, dest_addr, src_slice.mem_address(), src_slice.key())
    }

    fn fetch_atomicv_max_mr_slice_from<T: AsFiType>(&self, ioc: &[Ioc<T>], desc: Option<&[MemoryRegionDesc]>, resultv: &[IocMut<T>], res_desc: Option<&[MemoryRegionDesc]>, dest_addr: &MappedAddress, src_slice: &RemoteMemAddrSlice<T>) -> (r: AtomicCall)
        ensures
            r == (AtomicCall::FetchAtomicv { ep: self.ep_fid(), count: ioc@.len() as usize, descs: desc is Some, result_count: resultv@.len() as usize, result_descs: res_desc is Some, dest_addr: dest_addr@, addr: src_slice.mem_address_spec(), key: src_slice.key_spec(), datatype: T::fi_datatype().raw_value(), op: FetchAtomicOp::Max.raw_value(), context: 0 }),
    {
        self.fetch_atomicv_max_from(ioc, desc, resultv, res_desc, dest_addr, src_slice.mem_address(), src_slice.key())
    }

    fn fetch_atomicv_sum_mr_slice_from<T: AsFiType>(&self, ioc: &[Ioc<T>], desc: Option<&[MemoryRegionDesc]>, resultv: &[IocMut<T>], res_desc: Option<&[MemoryRegionDesc]>, dest_addr: &MappedAddress, src_slice: &RemoteMemAddrSlice<T>) -> (r: AtomicCall)
        ensures
            r == (AtomicCall::FetchAtomicv { ep: self.ep_fid(), count: ioc@.len() as usize, descs: desc is Some, result_count: resultv@.len() as usize, result_descs: res_desc is Some, dest_addr: dest_addr@, addr: src_slice.mem_address_spec(), key: src_slice.key_spec(), datatype: T::fi_datatype().raw_value(), op: FetchAtomicOp::Sum.raw_value(), context: 0 }),
    {
        self.fetch_atomicv_sum_from(ioc, desc, resultv, res_desc, dest_addr, src_slice.mem_address(), src_slice.key())
    }

    fn fetch_atomicv_prod_mr_slice_from<T: AsFiType>(&self, ioc: &[Ioc<T>], desc: Option<&[MemoryRegionDesc]>, resultv: &[IocMut<T>], res_desc: Option<&[MemoryRegionDesc]>, dest_addr: &MappedAddress, src_slice: &RemoteMemAddrSlice<T>) -> (r: AtomicCall)
        ensures
            r == (AtomicCall::FetchAtomicv { ep: self.ep_fid(), count: ioc@.len() as usize, descs: desc is Some, result_count: resultv@.len() as usize, result_descs: res_desc is Some, dest_addr: dest_addr@, addr: src_slice.mem_address_spec(), key: src_slice.key_spec(), datatype: T::fi_datatype().raw_value(), op: FetchAtomicOp::Prod.raw_value(), context: 0 }),
    {
        self.fetch_atomicv_prod_from(ioc, desc, resultv, res_desc, dest_addr, src_slice.mem_address(), src_slice.key())
    }

    fn fetch_atomicv_bor_mr_slice_from<T: AsFiType>(&self, ioc: &[Ioc<T>], desc: Option<&[MemoryRegionDesc]>, resultv: &[IocMut<T>], res_desc: Option<&[MemoryRegionDesc]>, dest_addr: &MappedAddress, src_slice: &RemoteMemAddrSlice<T>) -> (r: AtomicCall)
        ensures
            r == (AtomicCall::FetchAtomicv { ep: self.ep_fid(), count: ioc@.len() as usize, descs: desc is Some, result_count: resultv@.len() as usize, result_descs: res_desc is Some, dest_addr: dest_addr@, addr: src_slice.mem_address_spec(), key: src_slice.key_spec(), datatype: T::fi_datatype().raw_value(), op: FetchAtomicOp::Bor.raw_value(), context: 0 }),
    {
        self.fetch_atomicv_bor_from(ioc, desc, resultv, res_desc, dest_addr, src_slice.mem_address(), src_slice.key())
    }

    fn fetch_atomicv_band_mr_slice_from<T: AsFiType>(&self, ioc: &[Ioc<T>], desc: Option<&[MemoryRegionDesc]>, resultv: &[IocMut<T>], res_desc: Option<&[MemoryRegionDesc]>, dest_addr: &MappedAddress, src_slice: &RemoteMemAddrSlice<T>) -> (r: AtomicCall)
        ensures
            r == (AtomicCall::FetchAtomicv { ep: self.ep_fid(), count: ioc@.len() as usize, descs: desc is Some, result_count: resultv@.len() as usize, result_descs: res_desc is Some, dest_addr: dest_addr@, addr: src_slice.mem_address_spec(), key: src_slice.key_spec(), datatype: T::fi_datatype().raw_value(), op: FetchAtomicOp::Band.raw_value(), context: 0 }),
    {
        self.fetch_atomicv_band_from(ioc, desc, resultv, res_desc, dest_addr, src_slice.mem_address(), src_slice.key())
    }

    fn fetch_atomicv_bxor_mr_slice_from<T: AsFiType>(&self, ioc: &[Ioc<T>], desc: Option<&[MemoryRegionDesc]>, resultv: &[IocMut<T>], res_desc: Option<&[MemoryRegionDesc]>, dest_addr: &MappedAddress, src_slice: &RemoteMemAddrSlice<T>) -> (r: AtomicCall)
        ensures
            r == (AtomicCall::FetchAtomicv { ep: self.ep_fid(), count: ioc@.len() as usize, descs: desc is Some, result_count: resultv@.len() as usize, result_descs: res_desc is Some, dest_addr: dest_addr@, addr: src_slice.mem_address_spec(), key: src_slice.key_spec(), datatype: T::fi_datatype().raw_value(), op: FetchAtomicOp::Bxor.raw_value(), context: 0 }),
    {
        self.fetch_atomicv_bxor_from(ioc, desc, resultv, res_desc, dest_addr, src_slice.mem_address(), src_slice.key())
    }

    fn fetch_atomicv_min_mr_slice_from_with_context<T: AsFiType>(&self, ioc: &[Ioc<T>], desc: Option<&[MemoryRegionDesc]>, resultv: &[IocMut<T>], res_desc: Option<&[MemoryRegionDesc]>, dest_addr: &MappedAddress, src_slice: &RemoteMemAddrSlice<T>, context: &mut Context) -> (r: AtomicCall)
        ensures
            r == (AtomicCall::FetchAtomicv { ep: self.ep_fid(), count: ioc@.len() as usize, descs: desc is Some, result_count: resultv@.len() as usize, result_descs: res_desc is Some, dest_addr: dest_addr@, addr: src_slice.mem_address_spec(), key: src_slice.key_spec(), datatype: T::fi_datatype().raw_value(), op: FetchAtomicOp::Min.raw_value(), context: old(context)@ }),
            *final(context) == *old(context),
    {
        self.fetch_atomicv_min_from_with_context(ioc, desc, resultv, res_desc, dest_addr, src_slice.mem_address(), src_slice.key(), context)
    }

    fn fetch_atomicv_max_mr_slice_from_with_context<T: AsFiType>(&self, ioc: &[Ioc<T>], desc: Option<&[MemoryRegionDesc]>, resultv: &[IocMut<T>], res_desc: Option<&[MemoryRegionDesc]>, dest_addr: &MappedAddress, src_slice: &RemoteMemAddrSlice<T>, context: &mut Context) -> (r: AtomicCall)
        ensures
            r == (AtomicCall::FetchAtomicv { ep: self.ep_fid(), count: ioc@.len() as usize, descs: desc is Some, result_count: resultv@.len() as usize, result_descs: res_desc is Some, dest_addr: dest_addr@, addr: src_slice.mem_address_spec(), key: src_slice.key_spec(), datatype: T::fi_datatype().raw_value(), op: FetchAtomicOp::Max.raw_value(), context: old(context)@ }),
            *final(context) == *old(context),
    {
        self.fetch_atomicv_max_from_with_context(ioc, desc, resultv, res_desc, dest_addr, src_slice.mem_address(), src_slice.key(), context)
    }

    fn fetch_atomicv_sum_mr_slice_from_with_context<T: AsFiType>(&self, ioc: &[Ioc<T>], desc: Option<&[MemoryRegionDesc]>, resultv: &[IocMut<T>], res_desc: Option<&[MemoryRegionDesc]>, dest_addr: &MappedAddress, src_slice: &RemoteMemAddrSlice<T>, context: &mut Context) -> (r: AtomicCall)
        ensures
            r == (AtomicCall::FetchAtomicv { ep: self.ep_fid(), count: ioc@.len() as usize, descs: desc is Some, result_count: resultv@.len() as usize, result_descs: res_desc is Some, dest_addr: dest_addr@, addr: src_slice.mem_address_spec(), key: src_slice.key_spec(), datatype: T::fi_datatype().raw_value(), op: FetchAtomicOp::Sum.raw_value(), context: old(context)@ }),
            *final(context) == *old(context),
    {
        self.fetch_atomicv_sum_from_with_context(ioc, desc, resultv, res_desc, dest_addr, src_slice.mem_address(), src_slice.key(), context)
    }

    fn fetch_atomicv_pro_mr_slice_from_with_context<T: AsFiType>(&self, ioc: &[Ioc<T>], desc: Option<&[MemoryRegionDesc]>, resultv: &[IocMut<T>], res_desc: Option<&[MemoryRegionDesc]>, dest_addr: &MappedAddress, src_slice: &RemoteMemAddrSlice<T>, context: &mut Context) -> (r: AtomicCall)
        ensures
            r == (AtomicCall::FetchAtomicv { ep: self.ep_fid(), count: ioc@.len() as usize, descs: desc is Some, result_count: resultv@.len() as usize, result_descs: res_desc is Some, dest_addr: dest_addr@, addr: src_slice.mem_address_spec(), key: src_slice.key_spec(), datatype: T::fi_datatype().raw_value(), op: FetchAtomicOp::Prod.raw_value(), context: old(context)@ }),
            *final(context) == *old(context),
    {
        self.fetch_atomicv_prod_from_with_context(ioc, desc, resultv, res_desc, dest_addr, src_slice.mem_address(), src_slice.key(), context)
    }

    fn fetch_atomicv_bor_mr_slice_from_with_context<T: AsFiType>(&self, ioc: &[Ioc<T>], desc: Option<&[MemoryRegionDesc]>, resultv: &[IocMut<T>], res_desc: Option<&[MemoryRegionDesc]>, dest_addr: &MappedAddress, src_slice: &RemoteMemAddrSlice<T>, context: &mut Context) -> (r: AtomicCall)
        ensures
            r == (AtomicCall::FetchAtomicv { ep: self.ep_fid(), count: ioc@.len() as usize, descs: desc is Some, result_count: resultv@.len() as usize, result_descs: res_desc is Some, dest_addr: dest_addr@, addr: src_slice.mem_address_spec(), key: src_slice.key_spec(), datatype: T::fi_datatype().raw_value(), op: FetchAtomicOp::Bor.raw_value(), context: old(context)@ }),
            *final(context) == *old(context),
    {
        self.fetch_atomicv_bor_from_with_context(ioc, desc, resultv, res_desc, dest_addr, src_slice.mem_address(), src_slice.key(), context)
    }

    fn fetch_atomicv_ban_mr_slice_from_with_context<T: AsFiType>(&self, ioc: &[Ioc<T>], desc: Option<&[MemoryRegionDesc]>, resultv: &[IocMut<T>], res_desc: Option<&[MemoryRegionDesc]>, dest_addr: &MappedAddress, src_slice: &RemoteMemAddrSlice<T>, context: &mut Context) -> (r: AtomicCall)
        ensures
            r == (AtomicCall::FetchAtomicv { ep: self.ep_fid(), count: ioc@.len() as usize, descs: desc is Some, result_count: resultv@.len() as usize, result_descs: res_desc is Some, dest_addr: dest_addr@, addr: src_slice.mem_address_spec(), key: src_slice.key_spec(), datatype: T::fi_datatype().raw_value(), op: FetchAtomicOp::Band.raw_value(), context: old(context)@ }),
            *final(context) == *old(context),
    {
        self.fetch_atomicv_band_from_with_context(ioc, desc, resultv, res_desc, dest_addr, src_slice.mem_address(), src_slice.key(), context)
    }

    fn fetch_atomicv_bxo_mr_slice_from_with_context<T: AsFiType>(&self, ioc: &[Ioc<T>], desc: Option<&[MemoryRegionDesc]>, resultv: &[IocMut<T>], res_desc: Option<&[MemoryRegionDesc]>, dest_addr: &MappedAddress, src_slice: &RemoteMemAddrSlice<T>, context: &mut Context) -> (r: AtomicCall)
        ensures
            r == (AtomicCall::FetchAtomicv { ep: self.ep_fid(), count: ioc@.len() as usize, descs: desc is Some, result_count: resultv@.len() as usize, result_descs: res_desc is Some, dest_addr: dest_addr@, addr: src_slice.mem_address_spec(), key: src_slice.key_spec(), datatype: T::fi_datatype().raw_value(), op: FetchAtomicOp::Bxor.raw_value(), context: old(context)@ }),
            *final(context) == *old(context),
    {
        self.fetch_atomicv_bxor_from_with_context(ioc, desc, resultv, res_desc, dest_addr, src_slice.mem_address(), src_slice.key(), context)
    }

    fn fetch_atomicmsg_slice_from<T: AsFiType>(&self, msg: &MsgRef, resultv: &[IocMut<T>], res_desc: Option<&[MemoryRegionDesc]>, options: AtomicFetchMsgOptions) -> (r: AtomicCall)
        ensures
            r == (AtomicCall::FetchAtomicmsg { ep: self.ep_fid(), msg: msg@, result_count: resultv@.len() as usize, result_descs: res_desc is Some, flags: options@ }),
    {
        self.fetch_atomicmsg_from(msg, resultv, res_desc, options)
    }
}

impl AtomicFetchRemoteMemAddrSliceEp for ConnectionlessEndpoint {}

/// Fetching atomic operations on a connected endpoint on a remote run of values.
pub trait ConnectedAtomicFetchRemoteMemAddrSliceEp: ConnectedAtomicFetchEp {
    fn fetch_atomic_min_mr_slice<T: AsFiType>(&self, buf: &[T], desc: Option<MemoryRegionDesc>, res: &[T], res_desc: Option<MemoryRegionDesc>, src_slice: &RemoteMemAddrSlice<T>) -> (r: AtomicCall)
        ensures
            r == (AtomicCall::FetchAtomic { ep: self.ep_fid(), count: buf@.len() as usize, desc: owned_desc_value(desc), result_desc: owned_desc_value(res_desc), dest_addr: FI_ADDR_UNSPEC, addr: src_slice.mem_address_spec(), key: src_slice.key_spec(), datatype: T::fi_datatype().raw_value(), op: FetchAtomicOp::Min.raw_value(), context: 0 }),
    {
        self.fetch_atomic_min(buf, desc, res, res_desc, src_slice.mem_address(), src_slice.key())
    }

    fn fetch_atomic_max_mr_slice<T: AsFiType>(&self, buf: &[T], desc: Option<MemoryRegionDesc>, res: &[T], res_desc: Option<MemoryRegionDesc>, src_slice: &RemoteMemAddrSlice<T>) -> (r: AtomicCall)
        ensures
            r == (AtomicCall::FetchAtomic { ep: self.ep_fid(), count: buf@.len() as usize, desc: owned_desc_value(desc), result_desc: owned_desc_value(res_desc), dest_addr: FI_ADDR_UNSPEC, addr: src_slice.mem_address_spec(), key: src_slice.key_spec(), datatype: T::fi_datatype().raw_value(), op: FetchAtomicOp::Max.raw_value(), context: 0 }),
    {
        self.fetch_atomic_max(buf, desc, res, res_desc, src_slice.mem_address(), src_slice.key())
    }

    fn fetch_atomic_sum_mr_slice<T: AsFiType>(&self, buf: &[T], desc: Option<MemoryRegionDesc>, res: &[T], res_desc: Option<MemoryRegionDesc>, src_slice: &RemoteMemAddrSlice<T>) -> (r: AtomicCall)
        ensures
            r == (AtomicCall::FetchAtomic { ep: self.ep_fid(), count: buf@.len() as usize, desc: owned_desc_value(desc), result_desc: owned_desc_value(res_desc), dest_addr: FI_ADDR_UNSPEC, addr: src_slice.mem_address_spec(), key: src_slice.key_spec(), datatype: T::fi_datatype().raw_value(), op: FetchAtomicOp::Sum.raw_value(), context: 0 }),
    {
        self.fetch_atomic_sum(buf, desc, res, res_desc, src_slice.mem_address(), src_slice.key())
    }

    fn fetch_atomic_prod_mr_slice<T: AsFiType>(&self, buf: &[T], desc: Option<MemoryRegionDesc>, res: &[T], res_desc: Option<MemoryRegionDesc>, src_slice: &RemoteMemAddrSlice<T>) -> (r: AtomicCall)
        ensures
            r == (AtomicCall::FetchAtomic { ep: self.ep_fid(), count: buf@.len() as usize, desc: owned_desc_value(desc), result_desc: owned_desc_value(res_desc), dest_addr: FI_ADDR_UNSPEC, addr: src_slice.mem_address_spec(), key: src_slice.key_spec(), datatype: T::fi_datatype().raw_value(), op: FetchAtomicOp::Prod.raw_value(), context: 0 }),
    {
        self.fetch_atomic_prod(buf, desc, res, res_desc, src_slice.mem_address(), src_slice.key())
    }

    fn fetch_atomic_bor_mr_slice<T: AsFiType>(&self, buf: &[T], desc: Option<MemoryRegionDesc>, res: &[T], res_desc: Option<MemoryRegionDesc>, src_slice: &RemoteMemAddrSlice<T>) -> (r: AtomicCall)
        ensures
            r == (AtomicCall::FetchAtomic { ep: self.ep_fid(), count: buf@.len() as usize, desc: owned_desc_value(desc), result_desc: owned_desc_value(res_desc), dest_addr: FI_ADDR_UNSPEC, addr: src_slice.mem_address_spec(), key: src_slice.key_spec(), datatype: T::fi_datatype().raw_value(), op: FetchAtomicOp::Bor.raw_value(), context: 0 }),
    {
        self.fetch_atomic_bor(buf, desc, res, res_desc, src_slice.mem_address(), src_slice.key())
    }

    fn fetch_atomic_band_mr_slice<T: AsFiType>(&self, buf: &[T], desc: Option<MemoryRegionDesc>, res: &[T], res_desc: Option<MemoryRegionDesc>, src_slice: &RemoteMemAddrSlice<T>) -> (r: AtomicCall)
        ensures
            r == (AtomicCall::FetchAtomic { ep: self.ep_fid(), count: buf@.len() as usize, desc: owned_desc_value(desc), result_desc: owned_desc_value(res_desc), dest_addr: FI_ADDR_UNSPEC, addr: src_slice.mem_address_spec(), key: src_slice.key_spec(), datatype: T::fi_datatype().raw_value(), op: FetchAtomicOp::Band.raw_value(), context: 0 }),
    {
        self.fetch_atomic_band(buf, desc, res, res_desc, src_slice.mem_address(), src_slice.key())
    }

    fn fetch_atomic_bxor_mr_slice<T: AsFiType>(&self, buf: &[T], desc: Option<MemoryRegionDesc>, res: &[T], res_desc: Option<MemoryRegionDesc>, src_slice: &RemoteMemAddrSlice<T>) -> (r: AtomicCall)
        ensures
            r == (AtomicCall::FetchAtomic { ep: self.ep_fid(), count: buf@.len() as usize, desc: owned_desc_value(desc), result_desc: owned_desc_value(res_desc), dest_addr: FI_ADDR_UNSPEC, addr: src_slice.mem_address_spec(), key: src_slice.key_spec(), datatype: T::fi_datatype().raw_value(), op: FetchAtomicOp::Bxor.raw_value(), context: 0 }),
    {
        self.fetch_atomic_bxor(buf, desc, res, res_desc, src_slice.mem_address(), src_slice.key())
    }

    fn fetch_atomic_min_mr_slice_with_context<T: AsFiType>(&self, buf: &[T], desc: Option<MemoryRegionDesc>, res: &[T], res_desc: Option<MemoryRegionDesc>, src_slice: &RemoteMemAddrSlice<T>, context: &mut Context) -> (r: AtomicCall)
        ensures
            r == (AtomicCall::FetchAtomic { ep: self.ep_fid(), count: buf@.len() as usize, desc: owned_desc_value(desc), result_desc: owned_desc_value(res_desc), dest_addr: FI_ADDR_UNSPEC, addr: src_slice.mem_address_spec(), key: src_slice.key_spec(), datatype: T::fi_datatype().raw_value(), op: FetchAtomicOp::Min.raw_value(), context: old(context)@ }),
            *final(context) == *old(context),
    {
        self.fetch_atomic_min_with_context(buf, desc, res, res_desc, src_slice.mem_address(), src_slice.key(), context)
    }

    fn fetch_atomic_max_mr_slice_with_context<T: AsFiType>(&self, buf: &[T], desc: Option<MemoryRegionDesc>, res: &[T], res_desc: Option<MemoryRegionDesc>, src_slice: &RemoteMemAddrSlice<T>, context: &mut Context) -> (r: AtomicCall)
        ensures
            r == (AtomicCall::FetchAtomic { ep: self.ep_fid(), count: buf@.len() as usize, desc: owned_desc_value(desc), result_desc: owned_desc_value(res_desc), dest_addr: FI_ADDR_UNSPEC, addr: src_slice.mem_address_spec(), key: src_slice.key_spec(), datatype: T::fi_datatype().raw_value(), op: FetchAtomicOp::Max.raw_value(), context: old(context)@ }),
            *final(context) == *old(context),
    {
        self.fetch_atomic_max_with_context(buf, desc, res, res_desc, src_slice.mem_address(), src_slice.key(), context)
    }

    fn fetch_atomic_sum_mr_slice_with_context<T: AsFiType>(&self, buf: &[T], desc: Option<MemoryRegionDesc>, res: &[T], res_desc: Option<MemoryRegionDesc>, src_slice: &RemoteMemAddrSlice<T>, context: &mut Context) -> (r: AtomicCall)
        ensures
            r == (AtomicCall::FetchAtomic { ep: self.ep_fid(), count: buf@.len() as usize, desc: owned_desc_value(desc), result_desc: owned_desc_value(res_desc), dest_addr: FI_ADDR_UNSPEC, addr: src_slice.mem_address_spec(), key: src_slice.key_spec(), datatype: T::fi_datatype().raw_value(), op: FetchAtomicOp::Sum.raw_value(), context: old(context)@ }),
            *final(context) == *old(context),
    {
        self.fetch_atomic_sum_with_context(buf, desc, res, res_desc, src_slice.mem_address(), src_slice.key(), context)
    }

    fn fetch_atomic_prod_mr_slice_with_context<T: AsFiType>(&self, buf: &[T], desc: Option<MemoryRegionDesc>, res: &[T], res_desc: Option<MemoryRegionDesc>, src_slice: &RemoteMemAddrSlice<T>, context: &mut Context) -> (r: AtomicCall)
        ensures
            r == (AtomicCall::FetchAtomic { ep: self.ep_fid(), count: buf@.len() as usize, desc: owned_desc_value(desc), result_desc: owned_desc_value(res_desc), dest_addr: FI_ADDR_UNSPEC, addr: src_slice.mem_address_spec(), key: src_slice.key_spec(), datatype: T::fi_datatype().raw_value(), op: FetchAtomicOp::Prod.raw_value(), context: old(context)@ }),
            *final(context) == *old(context),
    {
        self.fetch_atomic_prod_with_context(buf, desc, res, res_desc, src_slice.mem_address(), src_slice.key(), context)
    }

    fn fetch_atomic_bor_mr_slice_with_context<T: AsFiType>(&self, buf: &[T], desc: Option<MemoryRegionDesc>, res: &[T], res_desc: Option<MemoryRegionDesc>, src_slice: &RemoteMemAddrSlice<T>, context: &mut Context) -> (r: AtomicCall)
        ensures
            r == (AtomicCall::FetchAtomic { ep: self.ep_fid(), count: buf@.len() as usize, desc: owned_desc_value(desc), result_desc: owned_desc_value(res_desc), dest_addr: FI_ADDR_UNSPEC, addr: src_slice.mem_address_spec(), key: src_slice.key_spec(), datatype: T::fi_datatype().raw_value(), op: FetchAtomicOp::Bor.raw_value(), context: old(context)@ }),
            *final(context) == *old(context),
    {
        self.fetch_atomic_bor_with_context(buf, desc, res, res_desc, src_slice.mem_address(), src_slice.key(), context)
    }

    fn fetch_atomic_band_mr_slice_with_context<T: AsFiType>(&self, buf: &[T], desc: Option<MemoryRegionDesc>, res: &[T], res_desc: Option<MemoryRegionDesc>, src_slice: &RemoteMemAddrSlice<T>, context: &mut Context) -> (r: AtomicCall)
        ensures
            r == (AtomicCall::FetchAtomic { ep: self.ep_fid(), count: buf@.len() as usize, desc: owned_desc_value(desc), result_desc: owned_desc_value(res_desc), dest_addr: FI_ADDR_UNSPEC, addr: src_slice.mem_address_spec(), key: src_slice.key_spec(), datatype: T::fi_datatype().raw_value(), op: FetchAtomicOp::Band.raw_value(), context: old(context)@ }),
            *final(context) == *old(context),
    {
        self.fetch_atomic_band_with_context(buf, desc, res, res_desc, src_slice.mem_address(), src_slice.key(), context)
    }

    fn fetch_atomic_bxor_mr_slice_with_context<T: AsFiType>(&self, buf: &[T], desc: Option<MemoryRegionDesc>, res: &[T], res_desc: Option<MemoryRegionDesc>, src_slice: &RemoteMemAddrSlice<T>, context: &mut Context) -> (r: AtomicCall)
        ensures
            r == (AtomicCall::FetchAtomic { ep: self.ep_fid(), count: buf@.len() as usize, desc: owned_desc_value(desc), result_desc: owned_desc_value(res_desc), dest_addr: FI_ADDR_UNSPEC, addr: src_slice.mem_address_spec(), key: src_slice.key_spec(), datatype: T::fi_datatype().raw_value(), op: FetchAtomicOp::Bxor.raw_value(), context: old(context)@ }),
            *final(context) == *old(context),
    {
        self.fetch_atomic_bxor_with_context(buf, desc, res, res_desc, src_slice.mem_address(), src_slice.key(), context)
    }

    fn fetch_atomic_min_mr_slice_triggered<T: AsFiType>(&self, buf: &[T], desc: Option<MemoryRegionDesc>, res: &[T], res_desc: Option<MemoryRegionDesc>, src_slice: &RemoteMemAddrSlice<T>, context: &mut TriggeredContext) -> (r: AtomicCall)
        ensures
            r == (AtomicCall::FetchAtomic { ep: self.ep_fid(), count: buf@.len() as usize, desc: owned_desc_value(desc), result_desc: owned_desc_value(res_desc), dest_addr: FI_ADDR_UNSPEC, addr: src_slice.mem_address_spec(), key: src_slice.key_spec(), datatype: T::fi_datatype().raw_value(), op: FetchAtomicOp::Min.raw_value(), context: old(context)@ }),
            *final(context) == *old(context),
    {
        self.fetch_atomic_min_triggered(buf, desc, res, res_desc, src_slice.mem_address(), src_slice.key(), context)
    }

    fn fetch_atomic_max_mr_slice_triggered<T: AsFiType>(&self, buf: &[T], desc: Option<MemoryRegionDesc>, res: &[T], res_desc: Option<MemoryRegionDesc>, src_slice: &RemoteMemAddrSlice<T>, context: &mut TriggeredContext) -> (r: AtomicCall)
        ensures
            r == (AtomicCall::FetchAtomic { ep: self.ep_fid(), count: buf@.len() as usize, desc: owned_desc_value(desc), result_desc: owned_desc_value(res_desc), dest_addr: FI_ADDR_UNSPEC, addr: src_slice.mem_address_spec(), key: src_slice.key_spec(), datatype: T::fi_datatype().raw_value(), op: FetchAtomicOp::Max.raw_value(), context: old(context)@ }),
            *final(context) == *old(context),
    {
        self.fetch_atomic_max_triggered(buf, desc, res, res_desc, src_slice.mem_address(), src_slice.key(), context)
    }

    fn fetch_atomic_sum_mr_slice_triggered<T: AsFiType>(&self, buf: &[T], desc: Option<MemoryRegionDesc>, res: &[T], res_desc: Option<MemoryRegionDesc>, src_slice: &RemoteMemAddrSlice<T>, context: &mut TriggeredContext) -> (r: AtomicCall)
        ensures
            r == (AtomicCall::FetchAtomic { ep: self.ep_fid(), count: buf@.len() as usize, desc: owned_desc_value(desc), result_desc: owned_desc_value(res_desc), dest_addr: FI_ADDR_UNSPEC, addr: src_slice.mem_address_spec(), key: src_slice.key_spec(), datatype: T::fi_datatype().raw_value(), op: FetchAtomicOp::Sum.raw_value(), context: old(context)@ }),
            *final(context) == *old(context),
    {
        self.fetch_atomic_sum_triggered(buf, desc, res, res_desc, src_slice.mem_address(), src_slice.key(), context)
    }

    fn fetch_atomic_prod_mr_slice_triggered<T: AsFiType>(&self, buf: &[T], desc: Option<MemoryRegionDesc>, res: &[T], res_desc: Option<MemoryRegionDesc>, src_slice: &RemoteMemAddrSlice<T>, context: &mut TriggeredContext) -> (r: AtomicCall)
        ensures
            r == (AtomicCall::FetchAtomic { ep: self.ep_fid(), count: buf@.len() as usize, desc: owned_desc_value(desc), result_desc: owned_desc_value(res_desc), dest_addr: FI_ADDR_UNSPEC, addr: src_slice.mem_address_spec(), key: src_slice.key_spec(), datatype: T::fi_datatype().raw_value(), op: FetchAtomicOp::Prod.raw_value(), context: old(context)@ }),
            *final(context) == *old(context),
    {
        self.fetch_atomic_prod_triggered(buf, desc, res, res_desc, src_slice.mem_address(), src_slice.key(), context)
    }

    fn fetch_atomic_bor_mr_slice_triggered<T: AsFiType>(&self, buf: &[T], desc: Option<MemoryRegionDesc>, res: &[T], res_desc: Option<MemoryRegionDesc>, src_slice: &RemoteMemAddrSlice<T>, context: &mut TriggeredContext) -> (r: AtomicCall)
        ensures
            r == (AtomicCall::FetchAtomic { ep: self.ep_fid(), count: buf@.len() as usize, desc: owned_desc_value(desc), result_desc: owned_desc_value(res_desc), dest_addr: FI_ADDR_UNSPEC, addr: src_slice.mem_address_spec(), key: src_slice.key_spec(), datatype: T::fi_datatype().raw_value(), op: FetchAtomicOp::Bor.raw_value(), context: old(context)@ }),
            *final(context) == *old(context),
    {
        self.fetch_atomic_bor_triggered(buf, desc, res, res_desc, src_slice.mem_address(), src_slice.key(), context)
    }

    fn fetch_atomic_band_mr_slice_triggered<T: AsFiType>(&self, buf: &[T], desc: Option<MemoryRegionDesc>, res: &[T], res_desc: Option<MemoryRegionDesc>, src_slice: &RemoteMemAddrSlice<T>, context: &mut TriggeredContext) -> (r: AtomicCall)
        ensures
            r == (AtomicCall::FetchAtomic { ep: self.ep_fid(), count: buf@.len() as usize, desc: owned_desc_value(desc), result_desc: owned_desc_value(res_desc), dest_addr: FI_ADDR_UNSPEC, addr: src_slice.mem_address_spec(), key: src_slice.key_spec(), datatype: T::fi_datatype().raw_value(), op: FetchAtomicOp::Band.raw_value(), context: old(context)@ }),
            *final(context) == *old(context),
    {
        self.fetch_atomic_band_triggered(buf, desc, res, res_desc, src_slice.mem_address(), src_slice.key(), context)
    }

    fn fetch_atomic_bxor_mr_slice_triggered<T: AsFiType>(&self, buf: &[T], desc: Option<MemoryRegionDesc>, res: &[T], res_desc: Option<MemoryRegionDesc>, src_slice: &RemoteMemAddrSlice<T>, context: &mut TriggeredContext) -> (r: AtomicCall)
        ensures
            r == (AtomicCall::FetchAtomic { ep: self.ep_fid(), count: buf@.len() as usize, desc: owned_desc_value(desc), result_desc: owned_desc_value(res_desc), dest_addr: FI_ADDR_UNSPEC, addr: src_slice.mem_address_spec(), key: src_slice.key_spec(), datatype: T::fi_datatype().raw_value(), op: FetchAtomicOp::Bxor.raw_value(), context: old(context)@ }),
            *final(context) == *old(context),
    {
        self.fetch_atomic_bxor_triggered(buf, desc, res, res_desc, src_slice.mem_address(), src_slice.key(), context)
    }

    fn fetch_atomicv_min_mr_slice<T: AsFiType>(&self, ioc: &[Ioc<T>], desc: Option<&[MemoryRegionDesc]>, resultv: &[IocMut<T>], res_desc: Option<&[MemoryRegionDesc]>, src_slice: &RemoteMemAddrSlice<T>) -> (r: AtomicCall)
        ensures
            r == (AtomicCall::FetchAtomicv { ep: self.ep_fid(), count: ioc@.len() as usize, descs: desc is Some, result_count: resultv@.len() as usize, result_descs: res_desc is Some, dest_addr: FI_ADDR_UNSPEC, addr: src_slice.mem_address_spec(), key: src_slice.key_spec(), datatype: T::fi_datatype().raw_value(), op: FetchAtomicOp::Min.raw_value(), context: 0 }),
    {
        self.fetch_atomicv_min(ioc, desc, resultv, res_desc, src_slice.mem_address(), src_slice.key())
    }

    fn fetch_atomicv_max_mr_slice<T: AsFiType>(&self, ioc: &[Ioc<T>], desc: Option<&[MemoryRegionDesc]>, resultv: &[IocMut<T>], res_desc: Option<&[MemoryRegionDesc]>, src_slice: &RemoteMemAddrSlice<T>) -> (r: AtomicCall)
        ensures
            r == (AtomicCall::FetchAtomicv { ep: self.ep_fid(), count: ioc@.len() as usize, descs: desc is Some, result_count: resultv@.len() as usize, result_descs: res_desc is Some, dest_addr: FI_ADDR_UNSPEC, addr: src_slice.mem_address_spec(), key: src_slice.key_spec(), datatype: T::fi_datatype().raw_value(), op: FetchAtomicOp::Max.raw_value(), context: 0 }),
    {
        self.fetch_atomicv_max(ioc, desc, resultv, res_desc, src_slice.mem_address(), src_slice.key())
    }

    fn fetch_atomicv_sum_mr_slice<T: AsFiType>(&self, ioc: &[Ioc<T>], desc: Option<&[MemoryRegionDesc]>, resultv: &[IocMut<T>], res_desc: Option<&[MemoryRegionDesc]>, src_slice: &RemoteMemAddrSlice<T>) -> (r: AtomicCall)
        ensures
            r == (AtomicCall::FetchAtomicv { ep: self.ep_fid(), count: ioc@.len() as usize, descs: desc is Some, result_count: resultv@.len() as usize, result_descs: res_desc is Some, dest_addr: FI_ADDR_UNSPEC, addr: src_slice.mem_address_spec(), key: src_slice.key_spec(), datatype: T::fi_datatype().raw_value(), op: FetchAtomicOp::Sum.raw_value(), context: 0 }),
    {
        self.fetch_atomicv_sum(ioc, desc, resultv, res_desc, src_slice.mem_address(), src_slice.key())
    }

    fn fetch_atomicv_prod_mr_slice<T: AsFiType>(&self, ioc: &[Ioc<T>], desc: Option<&[MemoryRegionDesc]>, resultv: &[IocMut<T>], res_desc: Option<&[MemoryRegionDesc]>, src_slice: &RemoteMemAddrSlice<T>) -> (r: AtomicCall)
        ensures
            r == (AtomicCall::FetchAtomicv { ep: self.ep_fid(), count: ioc@.len() as usize, descs: desc is Some, result_count: resultv@.len() as usize, result_descs: res_desc is Some, dest_addr: FI_ADDR_UNSPEC, addr: src_slice.mem_address_spec(), key: src_slice.key_spec(), datatype: T::fi_datatype().raw_value(), op: FetchAtomicOp::Prod.raw_value(), context: 0 }),
    {
        self.fetch_atomicv_prod(ioc, desc, resultv, res_desc, src_slice.mem_address(), src_slice.key())
    }

    fn fetch_atomicv_bor_mr_slice<T: AsFiType>(&self, ioc: &[Ioc<T>], desc: Option<&[MemoryRegionDesc]>, resultv: &[IocMut<T>], res_desc: Option<&[MemoryRegionDesc]>, src_slice: &RemoteMemAddrSlice<T>) -> (r: AtomicCall)
        ensures
            r == (AtomicCall::FetchAtomicv { ep: self.ep_fid(), count: ioc@.len() as usize, descs: desc is Some, result_count: resultv@.len() as usize, result_descs: res_desc is Some, dest_addr: FI_ADDR_UNSPEC, addr: src_slice.mem_address_spec(), key: src_slice.key_spec(), datatype: T::fi_datatype().raw_value(), op: FetchAtomicOp::Bor.raw_value(), context: 0 }),
    {
        self.fetch_atomicv_bor(ioc, desc, resultv, res_desc, src_slice.mem_address(), src_slice.key())
    }

    fn fetch_atomicv_band_mr_slice<T: AsFiType>(&self, ioc: &[Ioc<T>], desc: Option<&[MemoryRegionDesc]>, resultv: &[IocMut<T>], res_desc: Option<&[MemoryRegionDesc]>, src_slice: &RemoteMemAddrSlice<T>) -> (r: AtomicCall)
        ensures
            r == (AtomicCall::FetchAtomicv { ep: self.ep_fid(), count: ioc@.len() as usize, descs: desc is Some, result_count: resultv@.len() as usize, result_descs: res_desc is Some, dest_addr: FI_ADDR_UNSPEC, addr: src_slice.mem_address_spec(), key: src_slice.key_spec(), datatype: T::fi_datatype().raw_value(), op: FetchAtomicOp::Band.raw_value(), context: 0 }),
    {
        self.fetch_atomicv_band(ioc, desc, resultv, res_desc, src_slice.mem_address(), src_slice.key())
    }

    fn fetch_atomicv_bxor_mr_slice<T: AsFiType>(&self, ioc: &[Ioc<T>], desc: Option<&[MemoryRegionDesc]>, resultv: &[IocMut<T>], res_desc: Option<&[MemoryRegionDesc]>, src_slice: &RemoteMemAddrSlice<T>) -> (r: AtomicCall)
        ensures
            r == (AtomicCall::FetchAtomicv { ep: self.ep_fid(), count: ioc@.len() as usize, descs: desc is Some, result_count: resultv@.len() as usize, result_descs: res_desc is Some, dest_addr: FI_ADDR_UNSPEC, addr: src_slice.mem_address_spec(), key: src_slice.key_spec(), datatype: T::fi_datatype().raw_value(), op: FetchAtomicOp::Bxor.raw_value(), context: 0 }),
    {
        self.fetch_atomicv_bxor(ioc, desc, resultv, res_desc, src_slice.mem_address(), src_slice.key())
    }

    fn fetch_atomicv_min_mr_slice_with_context<T: AsFiType>(&self, ioc: &[Ioc<T>], desc: Option<&[MemoryRegionDesc]>, resultv: &[IocMut<T>], res_desc: Option<&[MemoryRegionDesc]>, src_slice: &RemoteMemAddrSlice<T>, context: &mut Context) -> (r: AtomicCall)
        ensures
            r == (AtomicCall::FetchAtomicv { ep: self.ep_fid(), count: ioc@.len() as usize, descs: desc is Some, result_count: resultv@.len() as usize, result_descs: res_desc is Some, dest_addr: FI_ADDR_UNSPEC, addr: src_slice.mem_address_spec(), key: src_slice.key_spec(), datatype: T::fi_datatype().raw_value(), op: FetchAtomicOp::Min.raw_value(), context: old(context)@ }),
            *final(context) == *old(context),
    {
        self.fetch_atomicv_min_with_context(ioc, desc, resultv, res_desc, src_slice.mem_address(), src_slice.key(), context)
    }

    fn fetch_atomicv_max_mr_slice_with_context<T: AsFiType>(&self, ioc: &[Ioc<T>], desc: Option<&[MemoryRegionDesc]>, resultv: &[IocMut<T>], res_desc: Option<&[MemoryRegionDesc]>, src_slice: &RemoteMemAddrSlice<T>, context: &mut Context) -> (r: AtomicCall)
        ensures
            r == (AtomicCall::FetchAtomicv { ep: self.ep_fid(), count: ioc@.len() as usize, descs: desc is Some, result_count: resultv@.len() as usize, result_descs: res_desc is Some, dest_addr: FI_ADDR_UNSPEC, addr: src_slice.mem_address_spec(), key: src_slice.key_spec(), datatype: T::fi_datatype().raw_value(), op: FetchAtomicOp::Max.raw_value(), context: old(context)@ }),
            *final(context) == *old(context),
    {
        self.fetch_atomicv_max_with_context(ioc, desc, resultv, res_desc, src_slice.mem_address(), src_slice.key(), context)
    }

    fn fetch_atomicv_sum_mr_slice_with_context<T: AsFiType>(&self, ioc: &[Ioc<T>], desc: Option<&[MemoryRegionDesc]>, resultv: &[IocMut<T>], res_desc: Option<&[MemoryRegionDesc]>, src_slice: &RemoteMemAddrSlice<T>, context: &mut Context) -> (r: AtomicCall)
        ensures
            r == (AtomicCall::FetchAtomicv { ep: self.ep_fid(), count: ioc@.len() as usize, descs: desc is Some, result_count: resultv@.len() as usize, result_descs: res_desc is Some, dest_addr: FI_ADDR_UNSPEC, addr: src_slice.mem_address_spec(), key: src_slice.key_spec(), datatype: T::fi_datatype().raw_value(), op: FetchAtomicOp::Sum.raw_value(), context: old(context)@ }),
            *final(context) == *old(context),
    {
        self.fetch_atomicv_sum_with_context(ioc, desc, resultv, res_desc, src_slice.mem_address(), src_slice.key(), context)
    }

    fn fetch_atomicv_prod_mr_slice_with_context<T: AsFiType>(&self, ioc: &[Ioc<T>], desc: Option<&[MemoryRegionDesc]>, resultv: &[IocMut<T>], res_desc: Option<&[MemoryRegionDesc]>, src_slice: &RemoteMemAddrSlice<T>, context: &mut Context) -> (r: AtomicCall)
        ensures
            r == (AtomicCall::FetchAtomicv { ep: self.ep_fid(), count: ioc@.len() as usize, descs: desc is Some, result_count: resultv@.len() as usize, result_descs: res_desc is Some, dest_addr: FI_ADDR_UNSPEC, addr: src_slice.mem_address_spec(), key: src_slice.key_spec(), datatype: T::fi_datatype().raw_value(), op: FetchAtomicOp::Prod.raw_value(), context: old(context)@ }),
            *final(context) == *old(context),
    {
        self.fetch_atomicv_prod_with_context(ioc, desc, resultv, res_desc, src_slice.mem_address(), src_slice.key(), context)
    }

    fn fetch_atomicv_bor_mr_slice_with_context<T: AsFiType>(&self, ioc: &[Ioc<T>], desc: Option<&[MemoryRegionDesc]>, resultv: &[IocMut<T>], res_desc: Option<&[MemoryRegionDesc]>, src_slice: &RemoteMemAddrSlice<T>, context: &mut Context) -> (r: AtomicCall)
        ensures
            r == (AtomicCall::FetchAtomicv { ep: self.ep_fid(), count: ioc@.len() as usize, descs: desc is Some, result_count: resultv@.len() as usize, result_descs: res_desc is Some, dest_addr: FI_ADDR_UNSPEC, addr: src_slice.mem_address_spec(), key: src_slice.key_spec(), datatype: T::fi_datatype().raw_value(), op: FetchAtomicOp::Bor.raw_value(), context: old(context)@ }),
            *final(context) == *old(context),
    {
        self.fetch_atomicv_bor_with_context(ioc, desc, resultv, res_desc, src_slice.mem_address(), src_slice.key(), context)
    }

    fn fetch_atomicv_band_mr_slice_with_context<T: AsFiType>(&self, ioc: &[Ioc<T>], desc: Option<&[MemoryRegionDesc]>, resultv: &[IocMut<T>], res_desc: Option<&[MemoryRegionDesc]>, src_slice: &RemoteMemAddrSlice<T>, context: &mut Context) -> (r: AtomicCall)
        ensures
            r == (AtomicCall::FetchAtomicv { ep: self.ep_fid(), count: ioc@.len() as usize, descs: desc is Some, result_count: resultv@.len() as usize, result_descs: res_desc is Some, dest_addr: FI_ADDR_UNSPEC, addr: src_slice.mem_address_spec(), key: src_slice.key_spec(), datatype: T::fi_datatype().raw_value(), op: FetchAtomicOp::Band.raw_value(), context: old(context)@ }),
            *final(context) == *old(context),
    {
        self.fetch_atomicv_band_with_context(ioc, desc, resultv, res_desc, src_slice.mem_address(), src_slice.key(), context)
    }

    fn fetch_atomicv_bxor_mr_slice_with_context<T: AsFiType>(&self, ioc: &[Ioc<T>], desc: Option<&[MemoryRegionDesc]>, resultv: &[IocMut<T>], res_desc: Option<&[MemoryRegionDesc]>, src_slice: &RemoteMemAddrSlice<T>, context: &mut Context) -> (r: AtomicCall)
        ensures
            r == (AtomicCall::FetchAtomicv { ep: self.ep_fid(), count: ioc@.len() as usize, descs: desc is Some, result_count: resultv@.len() as usize, result_descs: res_desc is Some, dest_addr: FI_ADDR_UNSPEC, addr: src_slice.mem_address_spec(), key: src_slice.key_spec(), datatype: T::fi_datatype().raw_value(), op: FetchAtomicOp::Bxor.raw_value(), context: old(context)@ }),
            *final(context) == *old(context),
    {
        self.fetch_atomicv_bxor_with_context(ioc, desc, resultv, res_desc, src_slice.mem_address(), src_slice.key(), context)
    }

    fn fetch_atomicv_min_mr_slice_triggered<T: AsFiType>(&self, ioc: &[Ioc<T>], desc: Option<&[MemoryRegionDesc]>, resultv: &[IocMut<T>], res_desc: Option<&[MemoryRegionDesc]>, src_slice: &RemoteMemAddrSlice<T>, context: &mut TriggeredContext) -> (r: AtomicCall)
        ensures
            r == (AtomicCall::FetchAtomicv { ep: self.ep_fid(), count: ioc@.len() as usize, descs: desc is Some, result_count: resultv@.len() as usize, result_descs: res_desc is Some, dest_addr: FI_ADDR_UNSPEC, addr: src_slice.mem_address_spec(), key: src_slice.key_spec(), datatype: T::fi_datatype().raw_value(), op: FetchAtomicOp::Min.raw_value(), context: old(context)@ }),
            *final(context) == *old(context),
    {
        self.fetch_atomicv_min_triggered(ioc, desc, resultv, res_desc, src_slice.mem_address(), src_slice.key(), context)
    }

    fn fetch_atomicv_max_mr_slice_triggered<T: AsFiType>(&self, ioc: &[Ioc<T>], desc: Option<&[MemoryRegionDesc]>, resultv: &[IocMut<T>], res_desc: Option<&[MemoryRegionDesc]>, src_slice: &RemoteMemAddrSlice<T>, context: &mut TriggeredContext) -> (r: AtomicCall)
        ensures
            r == (AtomicCall::FetchAtomicv { ep: self.ep_fid(), count: ioc@.len() as usize, descs: desc is Some, result_count: resultv@.len() as usize, result_descs: res_desc is Some, dest_addr: FI_ADDR_UNSPEC, addr: src_slice.mem_address_spec(), key: src_slice.key_spec(), datatype: T::fi_datatype().raw_value(), op: FetchAtomicOp::Max.raw_value(), context: old(context)@ }),
            *final(context) == *old(context),
    {
        self.fetch_atomicv_max_triggered(ioc, desc, resultv, res_desc, src_slice.mem_address(), src_slice.key(), context)
    }

    fn fetch_atomicv_sum_mr_slice_triggered<T: AsFiType>(&self, ioc: &[Ioc<T>], desc: Option<&[MemoryRegionDesc]>, resultv: &[IocMut<T>], res_desc: Option<&[MemoryRegionDesc]>, src_slice: &RemoteMemAddrSlice<T>, context: &mut TriggeredContext) -> (r: AtomicCall)
        ensures
            r == (AtomicCall::FetchAtomicv { ep: self.ep_fid(), count: ioc@.len() as usize, descs: desc is Some, result_count: resultv@.len() as usize, result_descs: res_desc is Some, dest_addr: FI_ADDR_UNSPEC, addr: src_slice.mem_address_spec(), key: src_slice.key_spec(), datatype: T::fi_datatype().raw_value(), op: FetchAtomicOp::Sum.raw_value(), context: old(context)@ }),
            *final(context) == *old(context),
    {
        self.fetch_atomicv_sum_triggered(ioc, desc, resultv, res_desc, src_slice.mem_address(), src_slice.key(), context)
    }

    fn fetch_atomicv_prod_mr_slice_triggered<T: AsFiType>(&self, ioc: &[Ioc<T>], desc: Option<&[MemoryRegionDesc]>, resultv: &[IocMut<T>], res_desc: Option<&[MemoryRegionDesc]>, src_slice: &RemoteMemAddrSlice<T>, context: &mut TriggeredContext) -> (r: AtomicCall)
        ensures
            r == (AtomicCall::FetchAtomicv { ep: self.ep_fid(), count: ioc@.len() as usize, descs: desc is Some, result_count: resultv@.len() as usize, result_descs: res_desc is Some, dest_addr: FI_ADDR_UNSPEC, addr: src_slice.mem_address_spec(), key: src_slice.key_spec(), datatype: T::fi_datatype().raw_value(), op: FetchAtomicOp::Prod.raw_value(), context: old(context)@ }),
            *final(context) == *old(context),
    {
        self.fetch_atomicv_prod_triggered(ioc, desc, resultv, res_desc, src_slice.mem_address(), src_slice.key(), context)
    }

    fn fetch_atomicv_bor_mr_slice_triggered<T: AsFiType>(&self, ioc: &[Ioc<T>], desc: Option<&[MemoryRegionDesc]>, resultv: &[IocMut<T>], res_desc: Option<&[MemoryRegionDesc]>, src_slice: &RemoteMemAddrSlice<T>, context: &mut TriggeredContext) -> (r: AtomicCall)
        ensures
            r == (AtomicCall::FetchAtomicv { ep: self.ep_fid(), count: ioc@.len() as usize, descs: desc is Some, result_count: resultv@.len() as usize, result_descs: res_desc is Some, dest_addr: FI_ADDR_UNSPEC, addr: src_slice.mem_address_spec(), key: src_slice.key_spec(), datatype: T::fi_datatype().raw_value(), op: FetchAtomicOp::Bor.raw_value(), context: old(context)@ }),
            *final(context) == *old(context),
    {
        self.fetch_atomicv_bor_triggered(ioc, desc, resultv, res_desc, src_slice.mem_address(), src_slice.key(), context)
    }

    fn fetch_atomicv_band_mr_slice_triggered<T: AsFiType>(&self, ioc: &[Ioc<T>], desc: Option<&[MemoryRegionDesc]>, resultv: &[IocMut<T>], res_desc: Option<&[MemoryRegionDesc]>, src_slice: &RemoteMemAddrSlice<T>, context: &mut TriggeredContext) -> (r: AtomicCall)
        ensures
            r == (AtomicCall::FetchAtomicv { ep: self.ep_fid(), count: ioc@.len() as usize, descs: desc is Some, result_count: resultv@.len() as usize, result_descs: res_desc is Some, dest_addr: FI_ADDR_UNSPEC, addr: src_slice.mem_address_spec(), key: src_slice.key_spec(), datatype: T::fi_datatype().raw_value(), op: FetchAtomicOp::Band.raw_value(), context: old(context)@ }),
            *final(context) == *old(context),
    {
        self.fetch_atomicv_band_triggered(ioc, desc, resultv, res_desc, src_slice.mem_address(), src_slice.key(), context)
    }

    fn fetch_atomicv_bxor_mr_slice_triggered<T: AsFiType>(&self, ioc: &[Ioc<T>], desc: Option<&[MemoryRegionDesc]>, resultv: &[IocMut<T>], res_desc: Option<&[MemoryRegionDesc]>, src_slice: &RemoteMemAddrSlice<T>, context: &mut TriggeredContext) -> (r: AtomicCall)
        ensures
            r == (AtomicCall::FetchAtomicv { ep: self.ep_fid(), count: ioc@.len() as usize, descs: desc is Some, result_count: resultv@.len() as usize, result_descs: res_desc is Some, dest_addr: FI_ADDR_UNSPEC, addr: src_slice.mem_address_spec(), key: src_slice.key_spec(), datatype: T::fi_datatype().raw_value(), op: FetchAtomicOp::Bxor.raw_value(), context: old(context)@ }),
            *final(context) == *old(context),
    {
        self.fetch_atomicv_bxor_triggered(ioc, desc, resultv, res_desc, src_slice.mem_address(), src_slice.key(), context)
    }

    fn fetch_atomicmsg_slice<T: AsFiType>(&self, msg: &MsgRef, resultv: &[IocMut<T>], res_desc: Option<&[MemoryRegionDesc]>, options: AtomicFetchMsgOptions) -> (r: AtomicCall)
        ensures
            r == (AtomicCall::FetchAtomicmsg { ep: self.ep_fid(), msg: msg@, result_count: resultv@.len() as usize, result_descs: res_desc is Some, flags: options@ }),
    {
        self.fetch_atomicmsg(msg, resultv, res_desc, options)
    }
}

impl ConnectedAtomicFetchRemoteMemAddrSliceEp for ConnectedEndpoint {}

/// Compare-and-swap atomic operations from a connectionless endpoint.
pub trait AtomicCASEp: AtomicCASImpl + ConnlessEp {
    fn compare_atomic_swap_to<T: AsFiType, RT: AsFiType>(&self, buf: &[T], desc: Option<MemoryRegionDesc>, compare: &[T], compare_desc: Option<MemoryRegionDesc>, result: &[T], result_desc: Option<MemoryRegionDesc>, dest_addr: &MappedAddress, mem_addr: RemoteMemoryAddress<RT>, mapped_key: &MappedMemoryRegionKey) -> (r: AtomicCall)
        ensures
            r == (AtomicCall::CompareAtomic { ep: self.ep_fid(), count: buf@.len() as usize, desc: owned_desc_value(desc), compare_desc: owned_desc_value(compare_desc), result_desc: owned_desc_value(result_desc), dest_addr: dest_addr@, addr: mem_addr@, key: mapped_key@, datatype: T::fi_datatype().raw_value(), op: CompareAtomicOp::Cswap.raw_value(), context: 0 }),
    {
        self.compare_atomic_impl(buf, desc, compare, compare_desc, result, result_desc, Some(dest_addr), mem_addr, mapped_key, None, CompareAtomicOp::Cswap)
    }

    fn compare_atomic_swap_ne_to<T: AsFiType, RT: AsFiType>(&self, buf: &[T], desc: Option<MemoryRegionDesc>, compare: &[T], compare_desc: Option<MemoryRegionDesc>, result: &[T], result_desc: Option<MemoryRegionDesc>, dest_addr: &MappedAddress, mem_addr: RemoteMemoryAddress<RT>, mapped_key: &MappedMemoryRegionKey) -> (r: AtomicCall)
        ensures
            r == (AtomicCall::CompareAtomic { ep: self.ep_fid(), count: buf@.len() as usize, desc: owned_desc_value(desc), compare_desc: owned_desc_value(compare_desc), result_desc: owned_desc_value(result_desc), dest_addr: dest_addr@, addr: mem_addr@, key: mapped_key@, datatype: T::fi_datatype().raw_value(), op: CompareAtomicOp::CswapNe.raw_value(), context: 0 }),
    {
        self.compare_atomic_impl(buf, desc, compare, compare_desc, result, result_desc, Some(dest_addr), mem_addr, mapped_key, None, CompareAtomicOp::CswapNe)
    }

    fn compare_atomic_swap_le_to<T: AsFiType, RT: AsFiType>(&self, buf: &[T], desc: Option<MemoryRegionDesc>, compare: &[T], compare_desc: Option<MemoryRegionDesc>, result: &[T], result_desc: Option<MemoryRegionDesc>, dest_addr: &MappedAddress, mem_addr: RemoteMemoryAddress<RT>, mapped_key: &MappedMemoryRegionKey) -> (r: AtomicCall)
        ensures
            r == (AtomicCall::CompareAtomic { ep: self.ep_fid(), count: buf@.len() as usize, desc: owned_desc_value(desc), compare_desc: owned_desc_value(compare_desc), result_desc: owned_desc_value(result_desc), dest_addr: dest_addr@, addr: mem_addr@, key: mapped_key@, datatype: T::fi_datatype().raw_value(), op: CompareAtomicOp::CswapLe.raw_value(), context: 0 }),
    {
        self.compare_atomic_impl(buf, desc, compare, compare_desc, result, result_desc, Some(dest_addr), mem_addr, mapped_key, None, CompareAtomicOp::CswapLe)
    }

    fn compare_atomic_swap_lt_to<T: AsFiType, RT: AsFiType>(&self, buf: &[T], desc: Option<MemoryRegionDesc>, compare: &[T], compare_desc: Option<MemoryRegionDesc>, result: &[T], result_desc: Option<MemoryRegionDesc>, dest_addr: &MappedAddress, mem_addr: RemoteMemoryAddress<RT>, mapped_key: &MappedMemoryRegionKey) -> (r: AtomicCall)
        ensures
            r == (AtomicCall::CompareAtomic { ep: self.ep_fid(), count: buf@.len() as usize, desc: owned_desc_value(desc), compare_desc: owned_desc_value(compare_desc), result_desc: owned_desc_value(result_desc), dest_addr: dest_addr@, addr: mem_addr@, key: mapped_key@, datatype: T::fi_datatype().raw_value(), op: CompareAtomicOp::CswapLt.raw_value(), context: 0 }),
    {
        self.compare_atomic_impl(buf, desc, compare, compare_desc, result, result_desc, Some(dest_addr), mem_addr, mapped_key, None, CompareAtomicOp::CswapLt)
    }

    fn compare_atomic_swap_ge_to<T: AsFiType, RT: AsFiType>(&self, buf: &[T], desc: Option<MemoryRegionDesc>, compare: &[T], compare_desc: Option<MemoryRegionDesc>, result: &[T], result_desc: Option<MemoryRegionDesc>, dest_addr: &MappedAddress, mem_addr: RemoteMemoryAddress<RT>, mapped_key: &MappedMemoryRegionKey) -> (r: AtomicCall)
        ensures
            r == (AtomicCall::CompareAtomic { ep: self.ep_fid(), count: buf@.len() as usize, desc: owned_desc_value(desc), compare_desc: owned_desc_value(compare_desc), result_desc: owned_desc_value(result_desc), dest_addr: dest_addr@, addr: mem_addr@, key: mapped_key@, datatype: T::fi_datatype().raw_value(), op: CompareAtomicOp::CswapGe.raw_value(), context: 0 }),
    {
        self.compare_atomic_impl(buf, desc, compare, compare_desc, result, result_desc, Some(dest_addr), mem_addr, mapped_key, None, CompareAtomicOp::CswapGe)
    }

    fn compare_atomic_swap_gt_to<T: AsFiType, RT: AsFiType>(&self, buf: &[T], desc: Option<MemoryRegionDesc>, compare: &[T], compare_desc: Option<MemoryRegionDesc>, result: &[T], result_desc: Option<MemoryRegionDesc>, dest_addr: &MappedAddress, mem_addr: RemoteMemoryAddress<RT>, mapped_key: &MappedMemoryRegionKey) -> (r: AtomicCall)
        ensures
            r == (AtomicCall::CompareAtomic { ep: self.ep_fid(), count: buf@.len() as usize, desc: owned_desc_value(desc), compare_desc: owned_desc_value(compare_desc), result_desc: owned_desc_value(result_desc), dest_addr: dest_addr@, addr: mem_addr@, key: mapped_key@, datatype: T::fi_datatype().raw_value(), op: CompareAtomicOp::CswapGt.raw_value(), context: 0 }),
    {
        self.compare_atomic_impl(buf, desc, compare, compare_desc, result, result_desc, Some(dest_addr), mem_addr, mapped_key, None, CompareAtomicOp::CswapGt)
    }

    fn compare_atomic_mswap_to<T: AsFiType, RT: AsFiType>(&self, buf: &[T], desc: Option<MemoryRegionDesc>, compare: &[T], compare_desc: Option<MemoryRegionDesc>, result: &[T], result_desc: Option<MemoryRegionDesc>, dest_addr: &MappedAddress, mem_addr: RemoteMemoryAddress<RT>, mapped_key: &MappedMemoryRegionKey) -> (r: AtomicCall)
        ensures
            r == (AtomicCall::CompareAtomic { ep: self.ep_fid(), count: buf@.len() as usize, desc: owned_desc_value(desc), compare_desc: owned_desc_value(compare_desc), result_desc: owned_desc_value(result_desc), dest_addr: dest_addr@, addr: mem_addr@, key: mapped_key@, datatype: T::fi_datatype().raw_value(), op: CompareAtomicOp::Mswap.raw_value(), context: 0 }),
    {
        self.compare_atomic_impl(buf, desc, compare, compare_desc, result, result_desc, Some(dest_addr), mem_addr, mapped_key, None, CompareAtomicOp::Mswap)
    }

    fn compare_atomic_swap_to_with_context<T: AsFiType, RT: AsFiType>(&self, buf: &[T], desc: Option<MemoryRegionDesc>, compare: &[T], compare_desc: Option<MemoryRegionDesc>, result: &[T], result_desc: Option<MemoryRegionDesc>, dest_addr: &MappedAddress, mem_addr: RemoteMemoryAddress<RT>, mapped_key: &MappedMemoryRegionKey, context: &mut Context) -> (r: AtomicCall)
        ensures
            r == (AtomicCall::CompareAtomic { ep: self.ep_fid(), count: buf@.len() as usize, desc: owned_desc_value(desc), compare_desc: owned_desc_value(compare_desc), result_desc: owned_desc_value(result_desc), dest_addr: dest_addr@, addr: mem_addr@, key: mapped_key@, datatype: T::fi_datatype().raw_value(), op: CompareAtomicOp::Cswap.raw_value(), context: old(context)@ }),
            *final(context) == *old(context),
    {
        self.compare_atomic_impl(buf, desc, compare, compare_desc, result, result_desc, Some(dest_addr), mem_addr, mapped_key, Some(context.inner_mut()), CompareAtomicOp::Cswap)
    }

    fn compare_atomic_swap_ne_to_with_context<T: AsFiType, RT: AsFiType>(&self, buf: &[T], desc: Option<MemoryRegionDesc>, compare: &[T], compare_desc: Option<MemoryRegionDesc>, result: &[T], result_desc: Option<MemoryRegionDesc>, dest_addr: &MappedAddress, mem_addr: RemoteMemoryAddress<RT>, mapped_key: &MappedMemoryRegionKey, context: &mut Context) -> (r: AtomicCall)
        ensures
            r == (AtomicCall::CompareAtomic { ep: self.ep_fid(), count: buf@.len() as usize, desc: owned_desc_value(desc), compare_desc: owned_desc_value(compare_desc), result_desc: owned_desc_value(result_desc), dest_addr: dest_addr@, addr: mem_addr@, key: mapped_key@, datatype: T::fi_datatype().raw_value(), op: CompareAtomicOp::CswapNe.raw_value(), context: old(context)@ }),
            *final(context) == *old(context),
    {
        self.compare_atomic_impl(buf, desc, compare, compare_desc, result, result_desc, Some(dest_addr), mem_addr, mapped_key, Some(context.inner_mut()), CompareAtomicOp::CswapNe)
    }

    fn compare_atomic_swap_le_to_with_context<T: AsFiType, RT: AsFiType>(&self, buf: &[T], desc: Option<MemoryRegionDesc>, compare: &[T], compare_desc: Option<MemoryRegionDesc>, result: &[T], result_desc: Option<MemoryRegionDesc>, dest_addr: &MappedAddress, mem_addr: RemoteMemoryAddress<RT>, mapped_key: &MappedMemoryRegionKey, context: &mut Context) -> (r: AtomicCall)
        ensures
            r == (AtomicCall::CompareAtomic { ep: self.ep_fid(), count: buf@.len() as usize, desc: owned_desc_value(desc), compare_desc: owned_desc_value(compare_desc), result_desc: owned_desc_value(result_desc), dest_addr: dest_addr@, addr: mem_addr@, key: mapped_key@, datatype: T::fi_datatype().raw_value(), op: CompareAtomicOp::CswapLe.raw_value(), context: old(context)@ }),
            *final(context) == *old(context),
    {
        self.compare_atomic_impl(buf, desc, compare, compare_desc, result, result_desc, Some(dest_addr), mem_addr, mapped_key, Some(context.inner_mut()), CompareAtomicOp::CswapLe)
    }

    fn compare_atomic_swap_lt_to_with_context<T: AsFiType, RT: AsFiType>(&self, buf: &[T], desc: Option<MemoryRegionDesc>, compare: &[T], compare_desc: Option<MemoryRegionDesc>, result: &[T], result_desc: Option<MemoryRegionDesc>, dest_addr: &MappedAddress, mem_addr: RemoteMemoryAddress<RT>, mapped_key: &MappedMemoryRegionKey, context: &mut Context) -> (r: AtomicCall)
        ensures
            r == (AtomicCall::CompareAtomic { ep: self.ep_fid(), count: buf@.len() as usize, desc: owned_desc_value(desc), compare_desc: owned_desc_value(compare_desc), result_desc: owned_desc_value(result_desc), dest_addr: dest_addr@, addr: mem_addr@, key: mapped_key@, datatype: T::fi_datatype().raw_value(), op: CompareAtomicOp::CswapLt.raw_value(), context: old(context)@ }),
            *final(context) == *old(context),
    {
        self.compare_atomic_impl(buf, desc, compare, compare_desc, result, result_desc, Some(dest_addr), mem_addr, mapped_key, Some(context.inner_mut()), CompareAtomicOp::CswapLt)
    }

    fn compare_atomic_swap_ge_to_with_context<T: AsFiType, RT: AsFiType>(&self, buf: &[T], desc: Option<MemoryRegionDesc>, compare: &[T], compare_desc: Option<MemoryRegionDesc>, result: &[T], result_desc: Option<MemoryRegionDesc>, dest_addr: &MappedAddress, mem_addr: RemoteMemoryAddress<RT>, mapped_key: &MappedMemoryRegionKey, context: &mut Context) -> (r: AtomicCall)
        ensures
            r == (AtomicCall::CompareAtomic { ep: self.ep_fid(), count: buf@.len() as usize, desc: owned_desc_value(desc), compare_desc: owned_desc_value(compare_desc), result_desc: owned_desc_value(result_desc), dest_addr: dest_addr@, addr: mem_addr@, key: mapped_key@, datatype: T::fi_datatype().raw_value(), op: CompareAtomicOp::CswapGe.raw_value(), context: old(context)@ }),
            *final(context) == *old(context),
    {
        self.compare_atomic_impl(buf, desc, compare, compare_desc, result, result_desc, Some(dest_addr), mem_addr, mapped_key, Some(context.inner_mut()), CompareAtomicOp::CswapGe)
    }

    fn compare_atomic_swap_gt_to_with_context<T: AsFiType, RT: AsFiType>(&self, buf: &[T], desc: Option<MemoryRegionDesc>, compare: &[T], compare_desc: Option<MemoryRegionDesc>, result: &[T], result_desc: Option<MemoryRegionDesc>, dest_addr: &MappedAddress, mem_addr: RemoteMemoryAddress<RT>, mapped_key: &MappedMemoryRegionKey, context: &mut Context) -> (r: AtomicCall)
        ensures
            r == (AtomicCall::CompareAtomic { ep: self.ep_fid(), count: buf@.len() as usize, desc: owned_desc_value(desc), compare_desc: owned_desc_value(compare_desc), result_desc: owned_desc_value(result_desc), dest_addr: dest_addr@, addr: mem_addr@, key: mapped_key@, datatype: T::fi_datatype().raw_value(), op: CompareAtomicOp::CswapGt.raw_value(), context: old(context)@ }),
            *final(context) == *old(context),
    {
        self.compare_atomic_impl(buf, desc, compare, compare_desc, result, result_desc, Some(dest_addr), mem_addr, mapped_key, Some(context.inner_mut()), CompareAtomicOp::CswapGt)
    }

    fn compare_atomic_mswap_to_with_context<T: AsFiType, RT: AsFiType>(&self, buf: &[T], desc: Option<MemoryRegionDesc>, compare: &[T], compare_desc: Option<MemoryRegionDesc>, result: &[T], result_desc: Option<MemoryRegionDesc>, dest_addr: &MappedAddress, mem_addr: RemoteMemoryAddress<RT>, mapped_key: &MappedMemoryRegionKey, context: &mut Context) -> (r: AtomicCall)
        ensures
            r == (AtomicCall::CompareAtomic { ep: self.ep_fid(), count: buf@.len() as usize, desc: owned_desc_value(desc), compare_desc: owned_desc_value(compare_desc), result_desc: owned_desc_value(result_desc), dest_addr: dest_addr@, addr: mem_addr@, key: mapped_key@, datatype: T::fi_datatype().raw_value(), op: CompareAtomicOp::Mswap.raw_value(), context: old(context)@ }),
            *final(context) == *old(context),
    {
        self.compare_atomic_impl(buf, desc, compare, compare_desc, result, result_desc, Some(dest_addr), mem_addr, mapped_key, Some(context.inner_mut()), CompareAtomicOp::Mswap)
    }

    fn compare_atomic_swap_to_triggered<T: AsFiType, RT: AsFiType>(&self, buf: &[T], desc: Option<MemoryRegionDesc>, compare: &[T], compare_desc: Option<MemoryRegionDesc>, result: &[T], result_desc: Option<MemoryRegionDesc>, dest_addr: &MappedAddress, mem_addr: RemoteMemoryAddress<RT>, mapped_key: &MappedMemoryRegionKey, context: &mut TriggeredContext) -> (r: AtomicCall)
        ensures
            r == (AtomicCall::CompareAtomic { ep: self.ep_fid(), count: buf@.len() as usize, desc: owned_desc_value(desc), compare_desc: owned_desc_value(compare_desc), result_desc: owned_desc_value(result_desc), dest_addr: dest_addr@, addr: mem_addr@, key: mapped_key@, datatype: T::fi_datatype().raw_value(), op: CompareAtomicOp::Cswap.raw_value(), context: old(context)@ }),
            *final(context) == *old(context),
    {
        self.compare_atomic_impl(buf, desc, compare, compare_desc, result, result_desc, Some(dest_addr), mem_addr, mapped_key, Some(context.inner_mut()), CompareAtomicOp::Cswap)
    }

    fn compare_atomic_swap_ne_to_triggered<T: AsFiType, RT: AsFiType>(&self, buf: &[T], desc: Option<MemoryRegionDesc>, compare: &[T], compare_desc: Option<MemoryRegionDesc>, result: &[T], result_desc: Option<MemoryRegionDesc>, dest_addr: &MappedAddress, mem_addr: RemoteMemoryAddress<RT>, mapped_key: &MappedMemoryRegionKey, context: &mut TriggeredContext) -> (r: AtomicCall)
        ensures
            r == (AtomicCall::CompareAtomic { ep: self.ep_fid(), count: buf@.len() as usize, desc: owned_desc_value(desc), compare_desc: owned_desc_value(compare_desc), result_desc: owned_desc_value(result_desc), dest_addr: dest_addr@, addr: mem_addr@, key: mapped_key@, datatype: T::fi_datatype().raw_value(), op: CompareAtomicOp::CswapNe.raw_value(), context: old(context)@ }),
            *final(context) == *old(context),
    {
        self.compare_atomic_impl(buf, desc, compare, compare_desc, result, result_desc, Some(dest_addr), mem_addr, mapped_key, Some(context.inner_mut()), CompareAtomicOp::CswapNe)
    }

    fn compare_atomic_swap_le_to_triggered<T: AsFiType, RT: AsFiType>(&self, buf: &[T], desc: Option<MemoryRegionDesc>, compare: &[T], compare_desc: Option<MemoryRegionDesc>, result: &[T], result_desc: Option<MemoryRegionDesc>, dest_addr: &MappedAddress, mem_addr: RemoteMemoryAddress<RT>, mapped_key: &MappedMemoryRegionKey, context: &mut TriggeredContext) -> (r: AtomicCall)
        ensures
            r == (AtomicCall::CompareAtomic { ep: self.ep_fid(), count: buf@.len() as usize, desc: owned_desc_value(desc), compare_desc: owned_desc_value(compare_desc), result_desc: owned_desc_value(result_desc), dest_addr: dest_addr@, addr: mem_addr@, key: mapped_key@, datatype: T::fi_datatype().raw_value(), op: CompareAtomicOp::CswapLe.raw_value(), context: old(context)@ }),
            *final(context) == *old(context),
    {
        self.compare_atomic_impl(buf, desc, compare, compare_desc, result, result_desc, Some(dest_addr), mem_addr, mapped_key, Some(context.inner_mut()), CompareAtomicOp::CswapLe)
    }

    fn compare_atomic_swap_lt_to_triggered<T: AsFiType, RT: AsFiType>(&self, buf: &[T], desc: Option<MemoryRegionDesc>, compare: &[T], compare_desc: Option<MemoryRegionDesc>, result: &[T], result_desc: Option<MemoryRegionDesc>, dest_addr: &MappedAddress, mem_addr: RemoteMemoryAddress<RT>, mapped_key: &MappedMemoryRegionKey, context: &mut TriggeredContext) -> (r: AtomicCall)
        ensures
            r == (AtomicCall::CompareAtomic { ep: self.ep_fid(), count: buf@.len() as usize, desc: owned_desc_value(desc), compare_desc: owned_desc_value(compare_desc), result_desc: owned_desc_value(result_desc), dest_addr: dest_addr@, addr: mem_addr@, key: mapped_key@, datatype: T::fi_datatype().raw_value(), op: CompareAtomicOp::CswapLt.raw_value(), context: old(context)@ }),
            *final(context) == *old(context),
    {
        self.compare_atomic_impl(buf, desc, compare, compare_desc, result, result_desc, Some(dest_addr), mem_addr, mapped_key, Some(context.inner_mut()), CompareAtomicOp::CswapLt)
    }

    fn compare_atomic_swap_ge_to_triggered<T: AsFiType, RT: AsFiType>(&self, buf: &[T], desc: Option<MemoryRegionDesc>, compare: &[T], compare_desc: Option<MemoryRegionDesc>, result: &[T], result_desc: Option<MemoryRegionDesc>, dest_addr: &MappedAddress, mem_addr: RemoteMemoryAddress<RT>, mapped_key: &MappedMemoryRegionKey, context: &mut TriggeredContext) -> (r: AtomicCall)
        ensures
            r == (AtomicCall::CompareAtomic { ep: self.ep_fid(), count: buf@.len() as usize, desc: owned_desc_value(desc), compare_desc: owned_desc_value(compare_desc), result_desc: owned_desc_value(result_desc), dest_addr: dest_addr@, addr: mem_addr@, key: mapped_key@, datatype: T::fi_datatype().raw_value(), op: CompareAtomicOp::CswapGe.raw_value(), context: old(context)@ }),
            *final(context) == *old(context),
    {
        self.compare_atomic_impl(buf, desc, compare, compare_desc, result, result_desc, Some(dest_addr), mem_addr, mapped_key, Some(context.inner_mut()), CompareAtomicOp::CswapGe)
    }

    fn compare_atomic_swap_gt_to_triggered<T: AsFiType, RT: AsFiType>(&self, buf: &[T], desc: Option<MemoryRegionDesc>, compare: &[T], compare_desc: Option<MemoryRegionDesc>, result: &[T], result_desc: Option<MemoryRegionDesc>, dest_addr: &MappedAddress, mem_addr: RemoteMemoryAddress<RT>, mapped_key: &MappedMemoryRegionKey, context: &mut TriggeredContext) -> (r: AtomicCall)
        ensures
            r == (AtomicCall::CompareAtomic { ep: self.ep_fid(), count: buf@.len() as usize, desc: owned_desc_value(desc), compare_desc: owned_desc_value(compare_desc), result_desc: owned_desc_value(result_desc), dest_addr: dest_addr@, addr: mem_addr@, key: mapped_key@, datatype: T::fi_datatype().raw_value(), op: CompareAtomicOp::CswapGt.raw_value(), context: old(context)@ }),
            *final(context) == *old(context),
    {
        self.compare_atomic_impl(buf, desc, compare, compare_desc, result, result_desc, Some(dest_addr), mem_addr, mapped_key, Some(context.inner_mut()), CompareAtomicOp::CswapGt)
    }

    fn compare_atomic_mswap_to_triggered<T: AsFiType, RT: AsFiType>(&self, buf: &[T], desc: Option<MemoryRegionDesc>, compare: &[T], compare_desc: Option<MemoryRegionDesc>, result: &[T], result_desc: Option<MemoryRegionDesc>, dest_addr: &MappedAddress, mem_addr: RemoteMemoryAddress<RT>, mapped_key: &MappedMemoryRegionKey, context: &mut TriggeredContext) -> (r: AtomicCall)
        ensures
            r == (AtomicCall::CompareAtomic { ep: self.ep_fid(), count: buf@.len() as usize, desc: owned_desc_value(desc), compare_desc: owned_desc_value(compare_desc), result_desc: owned_desc_value(result_desc), dest_addr: dest_addr@, addr: mem_addr@, key: mapped_key@, datatype: T::fi_datatype().raw_value(), op: CompareAtomicOp::Mswap.raw_value(), context: old(context)@ }),
            *final(context) == *old(context),
    {
        self.compare_atomic_impl(buf, desc, compare, compare_desc, result, result_desc, Some(dest_addr), mem_addr, mapped_key, Some(context.inner_mut()), CompareAtomicOp::Mswap)
    }

    fn compare_atomicv_swap_to<T: AsFiType, RT: AsFiType>(&self, ioc: &[Ioc<T>], desc: Option<&[MemoryRegionDesc]>, comparetv: &[Ioc<T>], compare_desc: Option<&[MemoryRegionDesc]>, resultv: &[IocMut<T>], res_desc: Option<&[MemoryRegionDesc]>, dest_addr: &MappedAddress, mem_addr: RemoteMemoryAddress<RT>, mapped_key: &MappedMemoryRegionKey) -> (r: AtomicCall)
        ensures
            r == (AtomicCall::CompareAtomicv { ep: self.ep_fid(), count: ioc@.len() as usize, descs: desc is Some, compare_count: comparetv@.len() as usize, compare_descs: compare_desc is Some, result_count: resultv@.len() as usize, result_descs: res_desc is Some, dest_addr: dest_addr@, addr: mem_addr@, key: mapped_key@, datatype: T::fi_datatype().raw_value(), op: CompareAtomicOp::Cswap.raw_value(), context: 0 }),
    {
        self.compare_atomicv_impl(ioc, desc, comparetv, compare_desc, resultv, res_desc, Some(dest_addr), mem_addr, mapped_key, None, CompareAtomicOp::Cswap)
    }

    fn compare_atomicv_swap_ne_to<T: AsFiType, RT: AsFiType>(&self, ioc: &[Ioc<T>], desc: Option<&[MemoryRegionDesc]>, comparetv: &[Ioc<T>], compare_desc: Option<&[MemoryRegionDesc]>, resultv: &[IocMut<T>], res_desc: Option<&[MemoryRegionDesc]>, dest_addr: &MappedAddress, mem_addr: RemoteMemoryAddress<RT>, mapped_key: &MappedMemoryRegionKey) -> (r: AtomicCall)
        ensures
            r == (AtomicCall::CompareAtomicv { ep: self.ep_fid(), count: ioc@.len() as usize, descs: desc is Some, compare_count: comparetv@.len() as usize, compare_descs: compare_desc is Some, result_count: resultv@.len() as usize, result_descs: res_desc is Some, dest_addr: dest_addr@, addr: mem_addr@, key: mapped_key@, datatype: T::fi_datatype().raw_value(), op: CompareAtomicOp::CswapNe.raw_value(), context: 0 }),
    {
        self.compare_atomicv_impl(ioc, desc, comparetv, compare_desc, resultv, res_desc, Some(dest_addr), mem_addr, mapped_key, None, CompareAtomicOp::CswapNe)
    }

    fn compare_atomicv_swap_le_to<T: AsFiType, RT: AsFiType>(&self, ioc: &[Ioc<T>], desc: Option<&[MemoryRegionDesc]>, comparetv: &[Ioc<T>], compare_desc: Option<&[MemoryRegionDesc]>, resultv: &[IocMut<T>], res_desc: Option<&[MemoryRegionDesc]>, dest_addr: &MappedAddress, mem_addr: RemoteMemoryAddress<RT>, mapped_key: &MappedMemoryRegionKey) -> (r: AtomicCall)
        ensures
            r == (AtomicCall::CompareAtomicv { ep: self.ep_fid(), count: ioc@.len() as usize, descs: desc is Some, compare_count: comparetv@.len() as usize, compare_descs: compare_desc is Some, result_count: resultv@.len() as usize, result_descs: res_desc is Some, dest_addr: dest_addr@, addr: mem_addr@, key: mapped_key@, datatype: T::fi_datatype().raw_value(), op: CompareAtomicOp::CswapLe.raw_value(), context: 0 }),
    {
        self.compare_atomicv_impl(ioc, desc, comparetv, compare_desc, resultv, res_desc, Some(dest_addr), mem_addr, mapped_key, None, CompareAtomicOp::CswapLe)
    }

    fn compare_atomicv_swap_lt_to<T: AsFiType, RT: AsFiType>(&self, ioc: &[Ioc<T>], desc: Option<&[MemoryRegionDesc]>, comparetv: &[Ioc<T>], compare_desc: Option<&[MemoryRegionDesc]>, resultv: &[IocMut<T>], res_desc: Option<&[MemoryRegionDesc]>, dest_addr: &MappedAddress, mem_addr: RemoteMemoryAddress<RT>, mapped_key: &MappedMemoryRegionKey) -> (r: AtomicCall)
        ensures
            r == (AtomicCall::CompareAtomicv { ep: self.ep_fid(), count: ioc@.len() as usize, descs: desc is Some, compare_count: comparetv@.len() as usize, compare_descs: compare_desc is Some, result_count: resultv@.len() as usize, result_descs: res_desc is Some, dest_addr: dest_addr@, addr: mem_addr@, key: mapped_key@, datatype: T::fi_datatype().raw_value(), op: CompareAtomicOp::CswapLt.raw_value(), context: 0 }),
    {
        self.compare_atomicv_impl(ioc, desc, comparetv, compare_desc, resultv, res_desc, Some(dest_addr), mem_addr, mapped_key, None, CompareAtomicOp::CswapLt)
    }

    fn compare_atomicv_swap_ge_to<T: AsFiType, RT: AsFiType>(&self, ioc: &[Ioc<T>], desc: Option<&[MemoryRegionDesc]>, comparetv: &[Ioc<T>], compare_desc: Option<&[MemoryRegionDesc]>, resultv: &[IocMut<T>], res_desc: Option<&[MemoryRegionDesc]>, dest_addr: &MappedAddress, mem_addr: RemoteMemoryAddress<RT>, mapped_key: &MappedMemoryRegionKey) -> (r: AtomicCall)
        ensures
            r == (AtomicCall::CompareAtomicv { ep: self.ep_fid(), count: ioc@.len() as usize, descs: desc is Some, compare_count: comparetv@.len() as usize, compare_descs: compare_desc is Some, result_count: resultv@.len() as usize, result_descs: res_desc is Some, dest_addr: dest_addr@, addr: mem_addr@, key: mapped_key@, datatype: T::fi_datatype().raw_value(), op: CompareAtomicOp::CswapGe.raw_value(), context: 0 }),
    {
        self.compare_atomicv_impl(ioc, desc, comparetv, compare_desc, resultv, res_desc, Some(dest_addr), mem_addr, mapped_key, None, CompareAtomicOp::CswapGe)
    }

    fn compare_atomicv_swap_gt_to<T: AsFiType, RT: AsFiType>(&self, ioc: &[Ioc<T>], desc: Option<&[MemoryRegionDesc]>, comparetv: &[Ioc<T>], compare_desc: Option<&[MemoryRegionDesc]>, resultv: &[IocMut<T>], res_desc: Option<&[MemoryRegionDesc]>, dest_addr: &MappedAddress, mem_addr: RemoteMemoryAddress<RT>, mapped_key: &MappedMemoryRegionKey) -> (r: AtomicCall)
        ensures
            r == (AtomicCall::CompareAtomicv { ep: self.ep_fid(), count: ioc@.len() as usize, descs: desc is Some, compare_count: comparetv@.len() as usize, compare_descs: compare_desc is Some, result_count: resultv@.len() as usize, result_descs: res_desc is Some, dest_addr: dest_addr@, addr: mem_addr@, key: mapped_key@, datatype: T::fi_datatype().raw_value(), op: CompareAtomicOp::CswapGt.raw_value(), context: 0 }),
    {
        self.compare_atomicv_impl(ioc, desc, comparetv, compare_desc, resultv, res_desc, Some(dest_addr), mem_addr, mapped_key, None, CompareAtomicOp::CswapGt)
    }

    fn compare_atomicv_mswap_to<T: AsFiType, RT: AsFiType>(&self, ioc: &[Ioc<T>], desc: Option<&[MemoryRegionDesc]>, comparetv: &[Ioc<T>], compare_desc: Option<&[MemoryRegionDesc]>, resultv: &[IocMut<T>], res_desc: Option<&[MemoryRegionDesc]>, dest_addr: &MappedAddress, mem_addr: RemoteMemoryAddress<RT>, mapped_key: &MappedMemoryRegionKey) -> (r: AtomicCall)
        ensures
            r == (AtomicCall::CompareAtomicv { ep: self.ep_fid(), count: ioc@.len() as usize, descs: desc is Some, compare_count: comparetv@.len() as usize, compare_descs: compare_desc is Some, result_count: resultv@.len() as usize, result_descs: res_desc is Some, dest_addr: dest_addr@, addr: mem_addr@, key: mapped_key@, datatype: T::fi_datatype().raw_value(), op: CompareAtomicOp::Mswap.raw_value(), context: 0 }),
    {
        self.compare_atomicv_impl(ioc, desc, comparetv, compare_desc, resultv, res_desc, Some(dest_addr), mem_addr, mapped_key, None, CompareAtomicOp::Mswap)
    }

    fn compare_atomicv_swap_to_with_context<T: AsFiType, RT: AsFiType>(&self, ioc: &[Ioc<T>], desc: Option<&[MemoryRegionDesc]>, comparetv: &[Ioc<T>], compare_desc: Option<&[MemoryRegionDesc]>, resultv: &[IocMut<T>], res_desc: Option<&[MemoryRegionDesc]>, dest_addr: &MappedAddress, mem_addr: RemoteMemoryAddress<RT>, mapped_key: &MappedMemoryRegionKey, context: &mut Context) -> (r: AtomicCall)
        ensures
            r == (AtomicCall::CompareAtomicv { ep: self.ep_fid(), count: ioc@.len() as usize, descs: desc is Some, compare_count: comparetv@.len() as usize, compare_descs: compare_desc is Some, result_count: resultv@.len() as usize, result_descs: res_desc is Some, dest_addr: dest_addr@, addr: mem_addr@, key: mapped_key@, datatype: T::fi_datatype().raw_value(), op: CompareAtomicOp::Cswap.raw_value(), context: old(context)@ }),
            *final(context) == *old(context),
    {
        self.compare_atomicv_impl(ioc, desc, comparetv, compare_desc, resultv, res_desc, Some(dest_addr), mem_addr, mapped_key, Some(context.inner_mut()), CompareAtomicOp::Cswap)
    }

    fn compare_atomicv_swap_ne_to_with_context<T: AsFiType, RT: AsFiType>(&self, ioc: &[Ioc<T>], desc: Option<&[MemoryRegionDesc]>, comparetv: &[Ioc<T>], compare_desc: Option<&[MemoryRegionDesc]>, resultv: &[IocMut<T>], res_desc: Option<&[MemoryRegionDesc]>, dest_addr: &MappedAddress, mem_addr: RemoteMemoryAddress<RT>, mapped_key: &MappedMemoryRegionKey, context: &mut Context) -> (r: AtomicCall)
        ensures
            r == (AtomicCall::CompareAtomicv { ep: self.ep_fid(), count: ioc@.len() as usize, descs: desc is Some, compare_count: comparetv@.len() as usize, compare_descs: compare_desc is Some, result_count: resultv@.len() as usize, result_descs: res_desc is Some, dest_addr: dest_addr@, addr: mem_addr@, key: mapped_key@, datatype: T::fi_datatype().raw_value(), op: CompareAtomicOp::CswapNe.raw_value(), context: old(context)@ }),
            *final(context) == *old(context),
    {
        self.compare_atomicv_impl(ioc, desc, comparetv, compare_desc, resultv, res_desc, Some(dest_addr), mem_addr, mapped_key, Some(context.inner_mut()), CompareAtomicOp::CswapNe)
    }

    fn compare_atomicv_swap_le_to_with_context<T: AsFiType, RT: AsFiType>(&self, ioc: &[Ioc<T>], desc: Option<&[MemoryRegionDesc]>, comparetv: &[Ioc<T>], compare_desc: Option<&[MemoryRegionDesc]>, resultv: &[IocMut<T>], res_desc: Option<&[MemoryRegionDesc]>, dest_addr: &MappedAddress, mem_addr: RemoteMemoryAddress<RT>, mapped_key: &MappedMemoryRegionKey, context: &mut Context) -> (r: AtomicCall)
        ensures
            r == (AtomicCall::CompareAtomicv { ep: self.ep_fid(), count: ioc@.len() as usize, descs: desc is Some, compare_count: comparetv@.len() as usize, compare_descs: compare_desc is Some, result_count: resultv@.len() as usize, result_descs: res_desc is Some, dest_addr: dest_addr@, addr: mem_addr@, key: mapped_key@, datatype: T::fi_datatype().raw_value(), op: CompareAtomicOp::CswapLe.raw_value(), context: old(context)@ }),
            *final(context) == *old(context),
    {
        self.compare_atomicv_impl(ioc, desc, comparetv, compare_desc, resultv, res_desc, Some(dest_addr), mem_addr, mapped_key, Some(context.inner_mut()), CompareAtomicOp::CswapLe)
    }

    fn compare_atomicv_swap_lt_to_with_context<T: AsFiType, RT: AsFiType>(&self, ioc: &[Ioc<T>], desc: Option<&[MemoryRegionDesc]>, comparetv: &[Ioc<T>], compare_desc: Option<&[MemoryRegionDesc]>, resultv: &[IocMut<T>], res_desc: Option<&[MemoryRegionDesc]>, dest_addr: &MappedAddress, mem_addr: RemoteMemoryAddress<RT>, mapped_key: &MappedMemoryRegionKey, context: &mut Context) -> (r: AtomicCall)
        ensures
            r == (AtomicCall::CompareAtomicv { ep: self.ep_fid(), count: ioc@.len() as usize, descs: desc is Some, compare_count: comparetv@.len() as usize, compare_descs: compare_desc is Some, result_count: resultv@.len() as usize, result_descs: res_desc is Some, dest_addr: dest_addr@, addr: mem_addr@, key: mapped_key@, datatype: T::fi_datatype().raw_value(), op: CompareAtomicOp::CswapLt.raw_value(), context: old(context)@ }),
            *final(context) == *old(context),
    {
        self.compare_atomicv_impl(ioc, desc, comparetv, compare_desc, resultv, res_desc, Some(dest_addr), mem_addr, mapped_key, Some(context.inner_mut()), CompareAtomicOp::CswapLt)
    }

    fn compare_atomicv_swap_ge_to_with_context<T: AsFiType, RT: AsFiType>(&self, ioc: &[Ioc<T>], desc: Option<&[MemoryRegionDesc]>, comparetv: &[Ioc<T>], compare_desc: Option<&[MemoryRegionDesc]>, resultv: &[IocMut<T>], res_desc: Option<&[MemoryRegionDesc]>, dest_addr: &MappedAddress, mem_addr: RemoteMemoryAddress<RT>, mapped_key: &MappedMemoryRegionKey, context: &mut Context) -> (r: AtomicCall)
        ensures
            r == (AtomicCall::CompareAtomicv { ep: self.ep_fid(), count: ioc@.len() as usize, descs: desc is Some, compare_count: comparetv@.len() as usize, compare_descs: compare_desc is Some, result_count: resultv@.len() as usize, result_descs: res_desc is Some, dest_addr: dest_addr@, addr: mem_addr@, key: mapped_key@, datatype: T::fi_datatype().raw_value(), op: CompareAtomicOp::CswapGe.raw_value(), context: old(context)@ }),
            *final(context) == *old(context),
    {
        self.compare_atomicv_impl(ioc, desc, comparetv, compare_desc, resultv, res_desc, Some(dest_addr), mem_addr, mapped_key, Some(context.inner_mut()), CompareAtomicOp::CswapGe)
    }

    fn compare_atomicv_swap_gt_to_with_context<T: AsFiType, RT: AsFiType>(&self, ioc: &[Ioc<T>], desc: Option<&[MemoryRegionDesc]>, comparetv: &[Ioc<T>], compare_desc: Option<&[MemoryRegionDesc]>, resultv: &[IocMut<T>], res_desc: Option<&[MemoryRegionDesc]>, dest_addr: &MappedAddress, mem_addr: RemoteMemoryAddress<RT>, mapped_key: &MappedMemoryRegionKey, context: &mut Context) -> (r: AtomicCall)
        ensures
            r == (AtomicCall::CompareAtomicv { ep: self.ep_fid(), count: ioc@.len() as usize, descs: desc is Some, compare_count: comparetv@.len() as usize, compare_descs: compare_desc is Some, result_count: resultv@.len() as usize, result_descs: res_desc is Some, dest_addr: dest_addr@, addr: mem_addr@, key: mapped_key@, datatype: T::fi_datatype().raw_value(), op: CompareAtomicOp::CswapGt.raw_value(), context: old(context)@ }),
            *final(context) == *old(context),
    {
        self.compare_atomicv_impl(ioc, desc, comparetv, compare_desc, resultv, res_desc, Some(dest_addr), mem_addr, mapped_key, Some(context.inner_mut()), CompareAtomicOp::CswapGt)
    }

    fn compare_atomicv_mswap_to_with_context<T: AsFiType, RT: AsFiType>(&self, ioc: &[Ioc<T>], desc: Option<&[MemoryRegionDesc]>, comparetv: &[Ioc<T>], compare_desc: Option<&[MemoryRegionDesc]>, resultv: &[IocMut<T>], res_desc: Option<&[MemoryRegionDesc]>, dest_addr: &MappedAddress, mem_addr: RemoteMemoryAddress<RT>, mapped_key: &MappedMemoryRegionKey, context: &mut Context) -> (r: AtomicCall)
        ensures
            r == (AtomicCall::CompareAtomicv { ep: self.ep_fid(), count: ioc@.len() as usize, descs: desc is Some, compare_count: comparetv@.len() as usize, compare_descs: compare_desc is Some, result_count: resultv@.len() as usize, result_descs: res_desc is Some, dest_addr: dest_addr@, addr: mem_addr@, key: mapped_key@, datatype: T::fi_datatype().raw_value(), op: CompareAtomicOp::Mswap.raw_value(), context: old(context)@ }),
            *final(context) == *old(context),
    {
        self.compare_atomicv_impl(ioc, desc, comparetv, compare_desc, resultv, res_desc, Some(dest_addr), mem_addr, mapped_key, Some(context.inner_mut()), CompareAtomicOp::Mswap)
    }

    fn compare_atomicv_swap_to_triggered<T: AsFiType, RT: AsFiType>(&self, ioc: &[Ioc<T>], desc: Option<&[MemoryRegionDesc]>, comparetv: &[Ioc<T>], compare_desc: Option<&[MemoryRegionDesc]>, resultv: &[IocMut<T>], res_desc: Option<&[MemoryRegionDesc]>, dest_addr: &MappedAddress, mem_addr: RemoteMemoryAddress<RT>, mapped_key: &MappedMemoryRegionKey, context: &mut TriggeredContext) -> (r: AtomicCall)
        ensures
            r == (AtomicCall::CompareAtomicv { ep: self.ep_fid(), count: ioc@.len() as usize, descs: desc is Some, compare_count: comparetv@.len() as usize, compare_descs: compare_desc is Some, result_count: resultv@.len() as usize, result_descs: res_desc is Some, dest_addr: dest_addr@, addr: mem_addr@, key: mapped_key@, datatype: T::fi_datatype().raw_value(), op: CompareAtomicOp::Cswap.raw_value(), context: old(context)@ }),
            *final(context) == *old(context),
    {
        self.compare_atomicv_impl(ioc, desc, comparetv, compare_desc, resultv, res_desc, Some(dest_addr), mem_addr, mapped_key, Some(context.inner_mut()), CompareAtomicOp::Cswap)
    }

    fn compare_atomicv_swap_ne_to_triggered<T: AsFiType, RT: AsFiType>(&self, ioc: &[Ioc<T>], desc: Option<&[MemoryRegionDesc]>, comparetv: &[Ioc<T>], compare_desc: Option<&[MemoryRegionDesc]>, resultv: &[IocMut<T>], res_desc: Option<&[MemoryRegionDesc]>, dest_addr: &MappedAddress, mem_addr: RemoteMemoryAddress<RT>, mapped_key: &MappedMemoryRegionKey, context: &mut TriggeredContext) -> (r: AtomicCall)
        ensures
            r == (AtomicCall::CompareAtomicv { ep: self.ep_fid(), count: ioc@.len() as usize, descs: desc is Some, compare_count: comparetv@.len() as usize, compare_descs: compare_desc is Some, result_count: resultv@.len() as usize, result_descs: res_desc is Some, dest_addr: dest_addr@, addr: mem_addr@, key: mapped_key@, datatype: T::fi_datatype().raw_value(), op: CompareAtomicOp::CswapNe.raw_value(), context: old(context)@ }),
            *final(context) == *old(context),
    {
        self.compare_atomicv_impl(ioc, desc, comparetv, compare_desc, resultv, res_desc, Some(dest_addr), mem_addr, mapped_key, Some(context.inner_mut()), CompareAtomicOp::CswapNe)
    }

    fn compare_atomicv_swap_le_to_triggered<T: AsFiType, RT: AsFiType>(&self, ioc: &[Ioc<T>], desc: Option<&[MemoryRegionDesc]>, comparetv: &[Ioc<T>], compare_desc: Option<&[MemoryRegionDesc]>, resultv: &[IocMut<T>], res_desc: Option<&[MemoryRegionDesc]>, dest_addr: &MappedAddress, mem_addr: RemoteMemoryAddress<RT>, mapped_key: &MappedMemoryRegionKey, context: &mut TriggeredContext) -> (r: AtomicCall)
        ensures
            r == (AtomicCall::CompareAtomicv { ep: self.ep_fid(), count: ioc@.len() as usize, descs: desc is Some, compare_count: comparetv@.len() as usize, compare_descs: compare_desc is Some, result_count: resultv@.len() as usize, result_descs: res_desc is Some, dest_addr: dest_addr@, addr: mem_addr@, key: mapped_key@, datatype: T::fi_datatype().raw_value(), op: CompareAtomicOp::CswapLe.raw_value(), context: old(context)@ }),
            *final(context) == *old(context),
    {
        self.compare_atomicv_impl(ioc, desc, comparetv, compare_desc, resultv, res_desc, Some(dest_addr), mem_addr, mapped_key, Some(context.inner_mut()), CompareAtomicOp::CswapLe)
    }

    fn compare_atomicv_swap_lt_to_triggered<T: AsFiType, RT: AsFiType>(&self, ioc: &[Ioc<T>], desc: Option<&[MemoryRegionDesc]>, comparetv: &[Ioc<T>], compare_desc: Option<&[MemoryRegionDesc]>, resultv: &[IocMut<T>], res_desc: Option<&[MemoryRegionDesc]>, dest_addr: &MappedAddress, mem_addr: RemoteMemoryAddress<RT>, mapped_key: &MappedMemoryRegionKey, context: &mut TriggeredContext) -> (r: AtomicCall)
        ensures
            r == (AtomicCall::CompareAtomicv { ep: self.ep_fid(), count: ioc@.len() as usize, descs: desc is Some, compare_count: comparetv@.len() as usize, compare_descs: compare_desc is Some, result_count: resultv@.len() as usize, result_descs: res_desc is Some, dest_addr: dest_addr@, addr: mem_addr@, key: mapped_key@, datatype: T::fi_datatype().raw_value(), op: CompareAtomicOp::CswapLt.raw_value(), context: old(context)@ }),
            *final(context) == *old(context),
    {
        self.compare_atomicv_impl(ioc, desc, comparetv, compare_desc, resultv, res_desc, Some(dest_addr), mem_addr, mapped_key, Some(context.inner_mut()), CompareAtomicOp::CswapLt)
    }

    fn compare_atomicv_swap_ge_to_triggered<T: AsFiType, RT: AsFiType>(&self, ioc: &[Ioc<T>], desc: Option<&[MemoryRegionDesc]>, comparetv: &[Ioc<T>], compare_desc: Option<&[MemoryRegionDesc]>, resultv: &[IocMut<T>], res_desc: Option<&[MemoryRegionDesc]>, dest_addr: &MappedAddress, mem_addr: RemoteMemoryAddress<RT>, mapped_key: &MappedMemoryRegionKey, context: &mut TriggeredContext) -> (r: AtomicCall)
        ensures
            r == (AtomicCall::CompareAtomicv { ep: self.ep_fid(), count: ioc@.len() as usize, descs: desc is Some, compare_count: comparetv@.len() as usize, compare_descs: compare_desc is Some, result_count: resultv@.len() as usize, result_descs: res_desc is Some, dest_addr: dest_addr@, addr: mem_addr@, key: mapped_key@, datatype: T::fi_datatype().raw_value(), op: CompareAtomicOp::CswapGe.raw_value(), context: old(context)@ }),
            *final(context) == *old(context),
    {
        self.compare_atomicv_impl(ioc, desc, comparetv, compare_desc, resultv, res_desc, Some(dest_addr), mem_addr, mapped_key, Some(context.inner_mut()), CompareAtomicOp::CswapGe)
    }

    fn compare_atomicv_swap_gt_to_triggered<T: AsFiType, RT: AsFiType>(&self, ioc: &[Ioc<T>], desc: Option<&[MemoryRegionDesc]>, comparetv: &[Ioc<T>], compare_desc: Option<&[MemoryRegionDesc]>, resultv: &[IocMut<T>], res_desc: Option<&[MemoryRegionDesc]>, dest_addr: &MappedAddress, mem_addr: RemoteMemoryAddress<RT>, mapped_key: &MappedMemoryRegionKey, context: &mut TriggeredContext) -> (r: AtomicCall)
        ensures
            r == (AtomicCall::CompareAtomicv { ep: self.ep_fid(), count: ioc@.len() as usize, descs: desc is Some, compare_count: comparetv@.len() as usize, compare_descs: compare_desc is Some, result_count: resultv@.len() as usize, result_descs: res_desc is Some, dest_addr: dest_addr@, addr: mem_addr@, key: mapped_key@, datatype: T::fi_datatype().raw_value(), op: CompareAtomicOp::CswapGt.raw_value(), context: old(context)@ }),
            *final(context) == *old(context),
    {
        self.compare_atomicv_impl(ioc, desc, comparetv, compare_desc, resultv, res_desc, Some(dest_addr), mem_addr, mapped_key, Some(context.inner_mut()), CompareAtomicOp::CswapGt)
    }

    fn compare_atomicv_mswap_to_triggered<T: AsFiType, RT: AsFiType>(&self, ioc: &[Ioc<T>], desc: Option<&[MemoryRegionDesc]>, comparetv: &[Ioc<T>], compare_desc: Option<&[MemoryRegionDesc]>, resultv: &[IocMut<T>], res_desc: Option<&[MemoryRegionDesc]>, dest_addr: &MappedAddress, mem_addr: RemoteMemoryAddress<RT>, mapped_key: &MappedMemoryRegionKey, context: &mut TriggeredContext) -> (r: AtomicCall)
        ensures
            r == (AtomicCall::CompareAtomicv { ep: self.ep_fid(), count: ioc@.len() as usize, descs: desc is Some, compare_count: comparetv@.len() as usize, compare_descs: compare_desc is Some, result_count: resultv@.len() as usize, result_descs: res_desc is Some, dest_addr: dest_addr@, addr: mem_addr@, key: mapped_key@, datatype: T::fi_datatype().raw_value(), op: CompareAtomicOp::Mswap.raw_value(), context: old(context)@ }),
            *final(context) == *old(context),
    {
        self.compare_atomicv_impl(ioc, desc, comparetv, compare_desc, resultv, res_desc, Some(dest_addr), mem_addr, mapped_key, Some(context.inner_mut()), CompareAtomicOp::Mswap)
    }

    fn compare_atomicmsg_to<T: AsFiType>(&self, msg: &MsgRef, comparev: &[Ioc<T>], compare_desc: Option<&[MemoryRegionDesc]>, resultv: &[IocMut<T>], res_desc: Option<&[MemoryRegionDesc]>, options: AtomicMsgOptions) -> (r: AtomicCall)
        ensures
            r == (AtomicCall::CompareAtomicmsg { ep: self.ep_fid(), msg: msg@, compare_count: comparev@.len() as usize, compare_descs: compare_desc is Some, result_count: resultv@.len() as usize, result_descs: res_desc is Some, flags: options@ }),
    {
        self.compare_atomicmsg_impl(msg, comparev, compare_desc, resultv, res_desc, options)
    }
}

impl AtomicCASEp for ConnectionlessEndpoint {}

/// Compare-and-swap atomic operations on a connected endpoint.
pub trait ConnectedAtomicCASEp: AtomicCASImpl + ConnectedEp {
    fn compare_atomic_swap<T: AsFiType, RT: AsFiType>(&self, buf: &[T], desc: Option<MemoryRegionDesc>, compare: &[T], compare_desc: Option<MemoryRegionDesc>, result: &[T], result_desc: Option<MemoryRegionDesc>, mem_addr: RemoteMemoryAddress<RT>, mapped_key: &MappedMemoryRegionKey) -> (r: AtomicCall)
        ensures
            r == (AtomicCall::CompareAtomic { ep: self.ep_fid(), count: buf@.len() as usize, desc: owned_desc_value(desc), compare_desc: owned_desc_value(compare_desc), result_desc: owned_desc_value(result_desc), dest_addr: FI_ADDR_UNSPEC, addr: mem_addr@, key: mapped_key@, datatype: T::fi_datatype().raw_value(), op: CompareAtomicOp::Cswap.raw_value(), context: 0 }),
    {
        self.compare_atomic_impl(buf, desc, compare, compare_desc, result, result_desc, None, mem_addr, mapped_key, None, CompareAtomicOp::Cswap)
    }

    fn compare_atomic_swap_ne<T: AsFiType, RT: AsFiType>(&self, buf: &[T], desc: Option<MemoryRegionDesc>, compare: &[T], compare_desc: Option<MemoryRegionDesc>, result: &[T], result_desc: Option<MemoryRegionDesc>, mem_addr: RemoteMemoryAddress<RT>, mapped_key: &MappedMemoryRegionKey) -> (r: AtomicCall)
        ensures
            r == (AtomicCall::CompareAtomic { ep: self.ep_fid(), count: buf@.len() as usize, desc: owned_desc_value(desc), compare_desc: owned_desc_value(compare_desc), result_desc: owned_desc_value(result_desc), dest_addr: FI_ADDR_UNSPEC, addr: mem_addr@, key: mapped_key@, datatype: T::fi_datatype().raw_value(), op: CompareAtomicOp::CswapNe.raw_value(), context: 0 }),
    {
        self.compare_atomic_impl(buf, desc, compare, compare_desc, result, result_desc, None, mem_addr, mapped_key, None, CompareAtomicOp::CswapNe)
    }

    fn compare_atomic_swap_le<T: AsFiType, RT: AsFiType>(&self, buf: &[T], desc: Option<MemoryRegionDesc>, compare: &[T], compare_desc: Option<MemoryRegionDesc>, result: &[T], result_desc: Option<MemoryRegionDesc>, mem_addr: RemoteMemoryAddress<RT>, mapped_key: &MappedMemoryRegionKey) -> (r: AtomicCall)
        ensures
            r == (AtomicCall::CompareAtomic { ep: self.ep_fid(), count: buf@.len() as usize, desc: owned_desc_value(desc), compare_desc: owned_desc_value(compare_desc), result_desc: owned_desc_value(result_desc), dest_addr: FI_ADDR_UNSPEC, addr: mem_addr@, key: mapped_key@, datatype: T::fi_datatype().raw_value(), op: CompareAtomicOp::CswapLe.raw_value(), context: 0 }),
    {
        self.compare_atomic_impl(buf, desc, compare, compare_desc, result, result_desc, None, mem_addr, mapped_key, None, CompareAtomicOp::CswapLe)
    }

    fn compare_atomic_swap_lt<T: AsFiType, RT: AsFiType>(&self, buf: &[T], desc: Option<MemoryRegionDesc>, compare: &[T], compare_desc: Option<MemoryRegionDesc>, result: &[T], result_desc: Option<MemoryRegionDesc>, mem_addr: RemoteMemoryAddress<RT>, mapped_key: &MappedMemoryRegionKey) -> (r: AtomicCall)
        ensures
            r == (AtomicCall::CompareAtomic { ep: self.ep_fid(), count: buf@.len() as usize, desc: owned_desc_value(desc), compare_desc: owned_desc_value(compare_desc), result_desc: owned_desc_value(result_desc), dest_addr: FI_ADDR_UNSPEC, addr: mem_addr@, key: mapped_key@, datatype: T::fi_datatype().raw_value(), op: CompareAtomicOp::CswapLt.raw_value(), context: 0 }),
    {
        self.compare_atomic_impl(buf, desc, compare, compare_desc, result, result_desc, None, mem_addr, mapped_key, None, CompareAtomicOp::CswapLt)
    }

    fn compare_atomic_swap_ge<T: AsFiType, RT: AsFiType>(&self, buf: &[T], desc: Option<MemoryRegionDesc>, compare: &[T], compare_desc: Option<MemoryRegionDesc>, result: &[T], result_desc: Option<MemoryRegionDesc>, mem_addr: RemoteMemoryAddress<RT>, mapped_key: &MappedMemoryRegionKey) -> (r: AtomicCall)
        ensures
            r == (AtomicCall::CompareAtomic { ep: self.ep_fid(), count: buf@.len() as usize, desc: owned_desc_value(desc), compare_desc: owned_desc_value(compare_desc), result_desc: owned_desc_value(result_desc), dest_addr: FI_ADDR_UNSPEC, addr: mem_addr@, key: mapped_key@, datatype: T::fi_datatype().raw_value(), op: CompareAtomicOp::CswapGe.raw_value(), context: 0 }),
    {
        self.compare_atomic_impl(buf, desc, compare, compare_desc, result, result_desc, None, mem_addr, mapped_key, None, CompareAtomicOp::CswapGe)
    }

    fn compare_atomic_swap_gt<T: AsFiType, RT: AsFiType>(&self, buf: &[T], desc: Option<MemoryRegionDesc>, compare: &[T], compare_desc: Option<MemoryRegionDesc>, result: &[T], result_desc: Option<MemoryRegionDesc>, mem_addr: RemoteMemoryAddress<RT>, mapped_key: &MappedMemoryRegionKey) -> (r: AtomicCall)
        ensures
            r == (AtomicCall::CompareAtomic { ep: self.ep_fid(), count: buf@.len() as usize, desc: owned_desc_value(desc), compare_desc: owned_desc_value(compare_desc), result_desc: owned_desc_value(result_desc), dest_addr: FI_ADDR_UNSPEC, addr: mem_addr@, key: mapped_key@, datatype: T::fi_datatype().raw_value(), op: CompareAtomicOp::CswapGt.raw_value(), context: 0 }),
    {
        self.compare_atomic_impl(buf, desc, compare, compare_desc, result, result_desc, None, mem_addr, mapped_key, None, CompareAtomicOp::CswapGt)
    }

    fn compare_atomic_mswap<T: AsFiType, RT: AsFiType>(&self, buf: &[T], desc: Option<MemoryRegionDesc>, compare: &[T], compare_desc: Option<MemoryRegionDesc>, result: &[T], result_desc: Option<MemoryRegionDesc>, mem_addr: RemoteMemoryAddress<RT>, mapped_key: &MappedMemoryRegionKey) -> (r: AtomicCall)
        ensures
            r == (AtomicCall::CompareAtomic { ep: self.ep_fid(), count: buf@.len() as usize, desc: owned_desc_value(desc), compare_desc: owned_desc_value(compare_desc), result_desc: owned_desc_value(result_desc), dest_addr: FI_ADDR_UNSPEC, addr: mem_addr@, key: mapped_key@, datatype: T::fi_datatype().raw_value(), op: CompareAtomicOp::Mswap.raw_value(), context: 0 }),
    {
        self.compare_atomic_impl(buf, desc, compare, compare_desc, result, result_desc, None, mem_addr, mapped_key, None, CompareAtomicOp::Mswap)
    }

    fn compare_atomic_swap_with_context<T: AsFiType, RT: AsFiType>(&self, buf: &[T], desc: Option<MemoryRegionDesc>, compare: &[T], compare_desc: Option<MemoryRegionDesc>, result: &[T], result_desc: Option<MemoryRegionDesc>, mem_addr: RemoteMemoryAddress<RT>, mapped_key: &MappedMemoryRegionKey, context: &mut Context) -> (r: AtomicCall)
        ensures
            r == (AtomicCall::CompareAtomic { ep: self.ep_fid(), count: buf@.len() as usize, desc: owned_desc_value(desc), compare_desc: owned_desc_value(compare_desc), result_desc: owned_desc_value(result_desc), dest_addr: FI_ADDR_UNSPEC, addr: mem_addr@, key: mapped_key@, datatype: T::fi_datatype().raw_value(), op: CompareAtomicOp::Cswap.raw_value(), context: old(context)@ }),
            *final(context) == *old(context),
    {
        self.compare_atomic_impl(buf, desc, compare, compare_desc, result, result_desc, None, mem_addr, mapped_key, Some(context.inner_mut()), CompareAtomicOp::Cswap)
    }

    fn compare_atomic_swap_ne_with_context<T: AsFiType, RT: AsFiType>(&self, buf: &[T], desc: Option<MemoryRegionDesc>, compare: &[T], compare_desc: Option<MemoryRegionDesc>, result: &[T], result_desc: Option<MemoryRegionDesc>, mem_addr: RemoteMemoryAddress<RT>, mapped_key: &MappedMemoryRegionKey, context: &mut Context) -> (r: AtomicCall)
        ensures
            r == (AtomicCall::CompareAtomic { ep: self.ep_fid(), count: buf@.len() as usize, desc: owned_desc_value(desc), compare_desc: owned_desc_value(compare_desc), result_desc: owned_desc_value(result_desc), dest_addr: FI_ADDR_UNSPEC, addr: mem_addr@, key: mapped_key@, datatype: T::fi_datatype().raw_value(), op: CompareAtomicOp::CswapNe.raw_value(), context: old(context)@ }),
            *final(context) == *old(context),
    {
        self.compare_atomic_impl(buf, desc, compare, compare_desc, result, result_desc, None, mem_addr, mapped_key, Some(context.inner_mut()), CompareAtomicOp::CswapNe)
    }

    fn compare_atomic_swap_le_with_context<T: AsFiType, RT: AsFiType>(&self, buf: &[T], desc: Option<MemoryRegionDesc>, compare: &[T], compare_desc: Option<MemoryRegionDesc>, result: &[T], result_desc: Option<MemoryRegionDesc>, mem_addr: RemoteMemoryAddress<RT>, mapped_key: &MappedMemoryRegionKey, context: &mut Context) -> (r: AtomicCall)
        ensures
            r == (AtomicCall::CompareAtomic { ep: self.ep_fid(), count: buf@.len() as usize, desc: owned_desc_value(desc), compare_desc: owned_desc_value(compare_desc), result_desc: owned_desc_value(result_desc), dest_addr: FI_ADDR_UNSPEC, addr: mem_addr@, key: mapped_key@, datatype: T::fi_datatype().raw_value(), op: CompareAtomicOp::CswapLe.raw_value(), context: old(context)@ }),
            *final(context) == *old(context),
    {
        self.compare_atomic_impl(buf, desc, compare, compare_desc, result, result_desc, None, mem_addr, mapped_key, Some(context.inner_mut()), CompareAtomicOp::CswapLe)
    }

    fn compare_atomic_swap_lt_with_context<T: AsFiType, RT: AsFiType>(&self, buf: &[T], desc: Option<MemoryRegionDesc>, compare: &[T], compare_desc: Option<MemoryRegionDesc>, result: &[T], result_desc: Option<MemoryRegionDesc>, mem_addr: RemoteMemoryAddress<RT>, mapped_key: &MappedMemoryRegionKey, context: &mut Context) -> (r: AtomicCall)
        ensures
            r == (AtomicCall::CompareAtomic { ep: self.ep_fid(), count: buf@.len() as usize, desc: owned_desc_value(desc), compare_desc: owned_desc_value(compare_desc), result_desc: owned_desc_value(result_desc), dest_addr: FI_ADDR_UNSPEC, addr: mem_addr@, key: mapped_key@, datatype: T::fi_datatype().raw_value(), op: CompareAtomicOp::CswapLt.raw_value(), context: old(context)@ }),
            *final(context) == *old(context),
    {
        self.compare_atomic_impl(buf, desc, compare, compare_desc, result, result_desc, None, mem_addr, mapped_key, Some(context.inner_mut()), CompareAtomicOp::CswapLt)
    }

    fn compare_atomic_swap_ge_with_context<T: AsFiType, RT: AsFiType>(&self, buf: &[T], desc: Option<MemoryRegionDesc>, compare: &[T], compare_desc: Option<MemoryRegionDesc>, result: &[T], result_desc: Option<MemoryRegionDesc>, mem_addr: RemoteMemoryAddress<RT>, mapped_key: &MappedMemoryRegionKey, context: &mut Context) -> (r: AtomicCall)
        ensures
            r == (AtomicCall::CompareAtomic { ep: self.ep_fid(), count: buf@.len() as usize, desc: owned_desc_value(desc), compare_desc: owned_desc_value(compare_desc), result_desc: owned_desc_value(result_desc), dest_addr: FI_ADDR_UNSPEC, addr: mem_addr@, key: mapped_key@, datatype: T::fi_datatype().raw_value(), op: CompareAtomicOp::CswapGe.raw_value(), context: old(context)@ }),
            *final(context) == *old(context),
    {
        self.compare_atomic_impl(buf, desc, compare, compare_desc, result, result_desc, None, mem_addr, mapped_key, Some(context.inner_mut()), CompareAtomicOp::CswapGe)
    }

    fn compare_atomic_swap_gt_with_context<T: AsFiType, RT: AsFiType>(&self, buf: &[T], desc: Option<MemoryRegionDesc>, compare: &[T], compare_desc: Option<MemoryRegionDesc>, result: &[T], result_desc: Option<MemoryRegionDesc>, mem_addr: RemoteMemoryAddress<RT>, mapped_key: &MappedMemoryRegionKey, context: &mut Context) -> (r: AtomicCall)
        ensures
            r == (AtomicCall::CompareAtomic { ep: self.ep_fid(), count: buf@.len() as usize, desc: owned_desc_value(desc), compare_desc: owned_desc_value(compare_desc), result_desc: owned_desc_value(result_desc), dest_addr: FI_ADDR_UNSPEC, addr: mem_addr@, key: mapped_key@, datatype: T::fi_datatype().raw_value(), op: CompareAtomicOp::CswapGt.raw_value(), context: old(context)@ }),
            *final(context) == *old(context),
    {
        self.compare_atomic_impl(buf, desc, compare, compare_desc, result, result_desc, None, mem_addr, mapped_key, Some(context.inner_mut()), CompareAtomicOp::CswapGt)
    }

    fn compare_atomic_mswap_with_context<T: AsFiType, RT: AsFiType>(&self, buf: &[T], desc: Option<MemoryRegionDesc>, compare: &[T], compare_desc: Option<MemoryRegionDesc>, result: &[T], result_desc: Option<MemoryRegionDesc>, mem_addr: RemoteMemoryAddress<RT>, mapped_key: &MappedMemoryRegionKey, context: &mut Context) -> (r: AtomicCall)
        ensures
            r == (AtomicCall::CompareAtomic { ep: self.ep_fid(), count: buf@.len() as usize, desc: owned_desc_value(desc), compare_desc: owned_desc_value(compare_desc), result_desc: owned_desc_value(result_desc), dest_addr: FI_ADDR_UNSPEC, addr: mem_addr@, key: mapped_key@, datatype: T::fi_datatype().raw_value(), op: CompareAtomicOp::Mswap.raw_value(), context: old(context)@ }),
            *final(context) == *old(context),
    {
        self.compare_atomic_impl(buf, desc, compare, compare_desc, result, result_desc, None, mem_addr, mapped_key, Some(context.inner_mut()), CompareAtomicOp::Mswap)
    }

    fn compare_atomic_swap_triggered<T: AsFiType, RT: AsFiType>(&self, buf: &[T], desc: Option<MemoryRegionDesc>, compare: &[T], compare_desc: Option<MemoryRegionDesc>, result: &[T], result_desc: Option<MemoryRegionDesc>, mem_addr: RemoteMemoryAddress<RT>, mapped_key: &MappedMemoryRegionKey, context: &mut TriggeredContext) -> (r: AtomicCall)
        ensures
            r == (AtomicCall::CompareAtomic { ep: self.ep_fid(), count: buf@.len() as usize, desc: owned_desc_value(desc), compare_desc: owned_desc_value(compare_desc), result_desc: owned_desc_value(result_desc), dest_addr: FI_ADDR_UNSPEC, addr: mem_addr@, key: mapped_key@, datatype: T::fi_datatype().raw_value(), op: CompareAtomicOp::Cswap.raw_value(), context: old(context)@ }),
            *final(context) == *old(context),
    {
        self.compare_atomic_impl(buf, desc, compare, compare_desc, result, result_desc, None, mem_addr, mapped_key, Some(context.inner_mut()), CompareAtomicOp::Cswap)
    }

    fn compare_atomic_swap_ne_triggered<T: AsFiType, RT: AsFiType>(&self, buf: &[T], desc: Option<MemoryRegionDesc>, compare: &[T], compare_desc: Option<MemoryRegionDesc>, result: &[T], result_desc: Option<MemoryRegionDesc>, mem_addr: RemoteMemoryAddress<RT>, mapped_key: &MappedMemoryRegionKey, context: &mut TriggeredContext) -> (r: AtomicCall)
        ensures
            r == (AtomicCall::CompareAtomic { ep: self.ep_fid(), count: buf@.len() as usize, desc: owned_desc_value(desc), compare_desc: owned_desc_value(compare_desc), result_desc: owned_desc_value(result_desc), dest_addr: FI_ADDR_UNSPEC, addr: mem_addr@, key: mapped_key@, datatype: T::fi_datatype().raw_value(), op: CompareAtomicOp::CswapNe.raw_value(), context: old(context)@ }),
            *final(context) == *old(context),
    {
        self.compare_atomic_impl(buf, desc, compare, compare_desc, result, result_desc, None, mem_addr, mapped_key, Some(context.inner_mut()), CompareAtomicOp::CswapNe)
    }

    fn compare_atomic_swap_le_triggered<T: AsFiType, RT: AsFiType>(&self, buf: &[T], desc: Option<MemoryRegionDesc>, compare: &[T], compare_desc: Option<MemoryRegionDesc>, result: &[T], result_desc: Option<MemoryRegionDesc>, mem_addr: RemoteMemoryAddress<RT>, mapped_key: &MappedMemoryRegionKey, context: &mut TriggeredContext) -> (r: AtomicCall)
        ensures
            r == (AtomicCall::CompareAtomic { ep: self.ep_fid(), count: buf@.len() as usize, desc: owned_desc_value(desc), compare_desc: owned_desc_value(compare_desc), result_desc: owned_desc_value(result_desc), dest_addr: FI_ADDR_UNSPEC, addr: mem_addr@, key: mapped_key@, datatype: T::fi_datatype().raw_value(), op: CompareAtomicOp::CswapLe.raw_value(), context: old(context)@ }),
            *final(context) == *old(context),
    {
        self.compare_atomic_impl(buf, desc, compare, compare_desc, result, result_desc, None, mem_addr, mapped_key, Some(context.inner_mut()), CompareAtomicOp::CswapLe)
    }

    fn compare_atomic_swap_lt_triggered<T: AsFiType, RT: AsFiType>(&self, buf: &[T], desc: Option<MemoryRegionDesc>, compare: &[T], compare_desc: Option<MemoryRegionDesc>, result: &[T], result_desc: Option<MemoryRegionDesc>, mem_addr: RemoteMemoryAddress<RT>, mapped_key: &MappedMemoryRegionKey, context: &mut TriggeredContext) -> (r: AtomicCall)
        ensures
            r == (AtomicCall::CompareAtomic { ep: self.ep_fid(), count: buf@.len() as usize, desc: owned_desc_value(desc), compare_desc: owned_desc_value(compare_desc), result_desc: owned_desc_value(result_desc), dest_addr: FI_ADDR_UNSPEC, addr: mem_addr@, key: mapped_key@, datatype: T::fi_datatype().raw_value(), op: CompareAtomicOp::CswapLt.raw_value(), context: old(context)@ }),
            *final(context) == *old(context),
    {
        self.compare_atomic_impl(buf, desc, compare, compare_desc, result, result_desc, None, mem_addr, mapped_key, Some(context.inner_mut()), CompareAtomicOp::CswapLt)
    }

    fn compare_atomic_swap_ge_triggered<T: AsFiType, RT: AsFiType>(&self, buf: &[T], desc: Option<MemoryRegionDesc>, compare: &[T], compare_desc: Option<MemoryRegionDesc>, result: &[T], result_desc: Option<MemoryRegionDesc>, mem_addr: RemoteMemoryAddress<RT>, mapped_key: &MappedMemoryRegionKey, context: &mut TriggeredContext) -> (r: AtomicCall)
        ensures
            r == (AtomicCall::CompareAtomic { ep: self.ep_fid(), count: buf@.len() as usize, desc: owned_desc_value(desc), compare_desc: owned_desc_value(compare_desc), result_desc: owned_desc_value(result_desc), dest_addr: FI_ADDR_UNSPEC, addr: mem_addr@, key: mapped_key@, datatype: T::fi_datatype().raw_value(), op: CompareAtomicOp::CswapGe.raw_value(), context: old(context)@ }),
            *final(context) == *old(context),
    {
        self.compare_atomic_impl(buf, desc, compare, compare_desc, result, result_desc, None, mem_addr, mapped_key, Some(context.inner_mut()), CompareAtomicOp::CswapGe)
    }

    fn compare_atomic_swap_gt_triggered<T: AsFiType, RT: AsFiType>(&self, buf: &[T], desc: Option<MemoryRegionDesc>, compare: &[T], compare_desc: Option<MemoryRegionDesc>, result: &[T], result_desc: Option<MemoryRegionDesc>, mem_addr: RemoteMemoryAddress<RT>, mapped_key: &MappedMemoryRegionKey, context: &mut TriggeredContext) -> (r: AtomicCall)
        ensures
            r == (AtomicCall::CompareAtomic { ep: self.ep_fid(), count: buf@.len() as usize, desc: owned_desc_value(desc), compare_desc: owned_desc_value(compare_desc), result_desc: owned_desc_value(result_desc), dest_addr: FI_ADDR_UNSPEC, addr: mem_addr@, key: mapped_key@, datatype: T::fi_datatype().raw_value(), op: CompareAtomicOp::CswapGt.raw_value(), context: old(context)@ }),
            *final(context) == *old(context),
    {
        self.compare_atomic_impl(buf, desc, compare, compare_desc, result, result_desc, None, mem_addr, mapped_key, Some(context.inner_mut()), CompareAtomicOp::CswapGt)
    }

    fn compare_atomic_mswap_triggered<T: AsFiType, RT: AsFiType>(&self, buf: &[T], desc: Option<MemoryRegionDesc>, compare: &[T], compare_desc: Option<MemoryRegionDesc>, result: &[T], result_desc: Option<MemoryRegionDesc>, mem_addr: RemoteMemoryAddress<RT>, mapped_key: &MappedMemoryRegionKey, context: &mut TriggeredContext) -> (r: AtomicCall)
        ensures
            r == (AtomicCall::CompareAtomic { ep: self.ep_fid(), count: buf@.len() as usize, desc: owned_desc_value(desc), compare_desc: owned_desc_value(compare_desc), result_desc: owned_desc_value(result_desc), dest_addr: FI_ADDR_UNSPEC, addr: mem_addr@, key: mapped_key@, datatype: T::fi_datatype().raw_value(), op: CompareAtomicOp::Mswap.raw_value(), context: old(context)@ }),
            *final(context) == *old(context),
    {
        self.compare_atomic_impl(buf, desc, compare, compare_desc, result, result_desc, None, mem_addr, mapped_key, Some(context.inner_mut()), CompareAtomicOp::Mswap)
    }

    fn compare_atomicv_swap<T: AsFiType, RT: AsFiType>(&self, ioc: &[Ioc<T>], desc: Option<&[MemoryRegionDesc]>, comparetv: &[Ioc<T>], compare_desc: Option<&[MemoryRegionDesc]>, resultv: &[IocMut<T>], res_desc: Option<&[MemoryRegionDesc]>, mem_addr: RemoteMemoryAddress<RT>, mapped_key: &MappedMemoryRegionKey) -> (r: AtomicCall)
        ensures
            r == (AtomicCall::CompareAtomicv { ep: self.ep_fid(), count: ioc@.len() as usize, descs: desc is Some, compare_count: comparetv@.len() as usize, compare_descs: compare_desc is Some, result_count: resultv@.len() as usize, result_descs: res_desc is Some, dest_addr: FI_ADDR_UNSPEC, addr: mem_addr@, key: mapped_key@, datatype: T::fi_datatype().raw_value(), op: CompareAtomicOp::Cswap.raw_value(), context: 0 }),
    {
        self.compare_atomicv_impl(ioc, desc, comparetv, compare_desc, resultv, res_desc, None, mem_addr, mapped_key, None, CompareAtomicOp::Cswap)
    }

    fn compare_atomicv_swap_ne<T: AsFiType, RT: AsFiType>(&self, ioc: &[Ioc<T>], desc: Option<&[MemoryRegionDesc]>, comparetv: &[Ioc<T>], compare_desc: Option<&[MemoryRegionDesc]>, resultv: &[IocMut<T>], res_desc: Option<&[MemoryRegionDesc]>, mem_addr: RemoteMemoryAddress<RT>, mapped_key: &MappedMemoryRegionKey) -> (r: AtomicCall)
        ensures
            r == (AtomicCall::CompareAtomicv { ep: self.ep_fid(), count: ioc@.len() as usize, descs: desc is Some, compare_count: comparetv@.len() as usize, compare_descs: compare_desc is Some, result_count: resultv@.len() as usize, result_descs: res_desc is Some, dest_addr: FI_ADDR_UNSPEC, addr: mem_addr@, key: mapped_key@, datatype: T::fi_datatype().raw_value(), op: CompareAtomicOp::CswapNe.raw_value(), context: 0 }),
    {
        self.compare_atomicv_impl(ioc, desc, comparetv, compare_desc, resultv, res_desc, None, mem_addr, mapped_key, None, CompareAtomicOp::CswapNe)
    }

    fn compare_atomicv_swap_le<T: AsFiType, RT: AsFiType>(&self, ioc: &[Ioc<T>], desc: Option<&[MemoryRegionDesc]>, comparetv: &[Ioc<T>], compare_desc: Option<&[MemoryRegionDesc]>, resultv: &[IocMut<T>], res_desc: Option<&[MemoryRegionDesc]>, mem_addr: RemoteMemoryAddress<RT>, mapped_key: &MappedMemoryRegionKey) -> (r: AtomicCall)
        ensures
            r == (AtomicCall::CompareAtomicv { ep: self.ep_fid(), count: ioc@.len() as usize, descs: desc is Some, compare_count: comparetv@.len() as usize, compare_descs: compare_desc is Some, result_count: resultv@.len() as usize, result_descs: res_desc is Some, dest_addr: FI_ADDR_UNSPEC, addr: mem_addr@, key: mapped_key@, datatype: T::fi_datatype().raw_value(), op: CompareAtomicOp::CswapLe.raw_value(), context: 0 }),
    {
        self.compare_atomicv_impl(ioc, desc, comparetv, compare_desc, resultv, res_desc, None, mem_addr, mapped_key, None, CompareAtomicOp::CswapLe)
    }

    fn compare_atomicv_swap_lt<T: AsFiType, RT: AsFiType>(&self, ioc: &[Ioc<T>], desc: Option<&[MemoryRegionDesc]>, comparetv: &[Ioc<T>], compare_desc: Option<&[MemoryRegionDesc]>, resultv: &[IocMut<T>], res_desc: Option<&[MemoryRegionDesc]>, mem_addr: RemoteMemoryAddress<RT>, mapped_key: &MappedMemoryRegionKey) -> (r: AtomicCall)
        ensures
            r == (AtomicCall::CompareAtomicv { ep: self.ep_fid(), count: ioc@.len() as usize, descs: desc is Some, compare_count: comparetv@.len() as usize, compare_descs: compare_desc is Some, result_count: resultv@.len() as usize, result_descs: res_desc is Some, dest_addr: FI_ADDR_UNSPEC, addr: mem_addr@, key: mapped_key@, datatype: T::fi_datatype().raw_value(), op: CompareAtomicOp::CswapLt.raw_value(), context: 0 }),
    {
        self.compare_atomicv_impl(ioc, desc, comparetv, compare_desc, resultv, res_desc, None, mem_addr, mapped_key, None, CompareAtomicOp::CswapLt)
    }

    fn compare_atomicv_swap_ge<T: AsFiType, RT: AsFiType>(&self, ioc: &[Ioc<T>], desc: Option<&[MemoryRegionDesc]>, comparetv: &[Ioc<T>], compare_desc: Option<&[MemoryRegionDesc]>, resultv: &[IocMut<T>], res_desc: Option<&[MemoryRegionDesc]>, mem_addr: RemoteMemoryAddress<RT>, mapped_key: &MappedMemoryRegionKey) -> (r: AtomicCall)
        ensures
            r == (AtomicCall::CompareAtomicv { ep: self.ep_fid(), count: ioc@.len() as usize, descs: desc is Some, compare_count: comparetv@.len() as usize, compare_descs: compare_desc is Some, result_count: resultv@.len() as usize, result_descs: res_desc is Some, dest_addr: FI_ADDR_UNSPEC, addr: mem_addr@, key: mapped_key@, datatype: T::fi_datatype().raw_value(), op: CompareAtomicOp::CswapGe.raw_value(), context: 0 }),
    {
        self.compare_atomicv_impl(ioc, desc, comparetv, compare_desc, resultv, res_desc, None, mem_addr, mapped_key, None, CompareAtomicOp::CswapGe)
    }

    fn compare_atomicv_swap_gt<T: AsFiType, RT: AsFiType>(&self, ioc: &[Ioc<T>], desc: Option<&[MemoryRegionDesc]>, comparetv: &[Ioc<T>], compare_desc: Option<&[MemoryRegionDesc]>, resultv: &[IocMut<T>], res_desc: Option<&[MemoryRegionDesc]>, mem_addr: RemoteMemoryAddress<RT>, mapped_key: &MappedMemoryRegionKey) -> (r: AtomicCall)
        ensures
            r == (AtomicCall::CompareAtomicv { ep: self.ep_fid(), count: ioc@.len() as usize, descs: desc is Some, compare_count: comparetv@.len() as usize, compare_descs: compare_desc is Some, result_count: resultv@.len() as usize, result_descs: res_desc is Some, dest_addr: FI_ADDR_UNSPEC, addr: mem_addr@, key: mapped_key@, datatype: T::fi_datatype().raw_value(), op: CompareAtomicOp::CswapGt.raw_value(), context: 0 }),
    {
        self.compare_atomicv_impl(ioc, desc, comparetv, compare_desc, resultv, res_desc, None, mem_addr, mapped_key, None, CompareAtomicOp::CswapGt)
    }

    fn compare_atomicv_mswap<T: AsFiType, RT: AsFiType>(&self, ioc: &[Ioc<T>], desc: Option<&[MemoryRegionDesc]>, comparetv: &[Ioc<T>], compare_desc: Option<&[MemoryRegionDesc]>, resultv: &[IocMut<T>], res_desc: Option<&[MemoryRegionDesc]>, mem_addr: RemoteMemoryAddress<RT>, mapped_key: &MappedMemoryRegionKey) -> (r: AtomicCall)
        ensures
            r == (AtomicCall::CompareAtomicv { ep: self.ep_fid(), count: ioc@.len() as usize, descs: desc is Some, compare_count: comparetv@.len() as usize, compare_descs: compare_desc is Some, result_count: resultv@.len() as usize, result_descs: res_desc is Some, dest_addr: FI_ADDR_UNSPEC, addr: mem_addr@, key: mapped_key@, datatype: T::fi_datatype().raw_value(), op: CompareAtomicOp::Mswap.raw_value(), context: 0 }),
    {
        self.compare_atomicv_impl(ioc, desc, comparetv, compare_desc, resultv, res_desc, None, mem_addr, mapped_key, None, CompareAtomicOp::Mswap)
    }

    fn compare_atomicv_swap_with_context<T: AsFiType, RT: AsFiType>(&self, ioc: &[Ioc<T>], desc: Option<&[MemoryRegionDesc]>, comparetv: &[Ioc<T>], compare_desc: Option<&[MemoryRegionDesc]>, resultv: &[IocMut<T>], res_desc: Option<&[MemoryRegionDesc]>, mem_addr: RemoteMemoryAddress<RT>, mapped_key: &MappedMemoryRegionKey, context: &mut Context) -> (r: AtomicCall)
        ensures
            r == (AtomicCall::CompareAtomicv { ep: self.ep_fid(), count: ioc@.len() as usize, descs: desc is Some, compare_count: comparetv@.len() as usize, compare_descs: compare_desc is Some, result_count: resultv@.len() as usize, result_descs: res_desc is Some, dest_addr: FI_ADDR_UNSPEC, addr: mem_addr@, key: mapped_key@, datatype: T::fi_datatype().raw_value(), op: CompareAtomicOp::Cswap.raw_value(), context: old(context)@ }),
            *final(context) == *old(context),
    {
        self.compare_atomicv_impl(ioc, desc, comparetv, compare_desc, resultv, res_desc, None, mem_addr, mapped_key, Some(context.inner_mut()), CompareAtomicOp::Cswap)
    }

    fn compare_atomicv_swap_ne_with_context<T: AsFiType, RT: AsFiType>(&self, ioc: &[Ioc<T>], desc: Option<&[MemoryRegionDesc]>, comparetv: &[Ioc<T>], compare_desc: Option<&[MemoryRegionDesc]>, resultv: &[IocMut<T>], res_desc: Option<&[MemoryRegionDesc]>, mem_addr: RemoteMemoryAddress<RT>, mapped_key: &MappedMemoryRegionKey, context: &mut Context) -> (r: AtomicCall)
        ensures
            r == (AtomicCall::CompareAtomicv { ep: self.ep_fid(), count: ioc@.len() as usize, descs: desc is Some, compare_count: comparetv@.len() as usize, compare_descs: compare_desc is Some, result_count: resultv@.len() as usize, result_descs: res_desc is Some, dest_addr: FI_ADDR_UNSPEC, addr: mem_addr@, key: mapped_key@, datatype: T::fi_datatype().raw_value(), op: CompareAtomicOp::CswapNe.raw_value(), context: old(context)@ }),
            *final(context) == *old(context),
    {
        self.compare_atomicv_impl(ioc, desc, comparetv, compare_desc, resultv, res_desc, None, mem_addr, mapped_key, Some(context.inner_mut()), CompareAtomicOp::CswapNe)
    }

    fn compare_atomicv_swap_le_with_context<T: AsFiType, RT: AsFiType>(&self, ioc: &[Ioc<T>], desc: Option<&[MemoryRegionDesc]>, comparetv: &[Ioc<T>], compare_desc: Option<&[MemoryRegionDesc]>, resultv: &[IocMut<T>], res_desc: Option<&[MemoryRegionDesc]>, mem_addr: RemoteMemoryAddress<RT>, mapped_key: &MappedMemoryRegionKey, context: &mut Context) -> (r: AtomicCall)
        ensures
            r == (AtomicCall::CompareAtomicv { ep: self.ep_fid(), count: ioc@.len() as usize, descs: desc is Some, compare_count: comparetv@.len() as usize, compare_descs: compare_desc is Some, result_count: resultv@.len() as usize, result_descs: res_desc is Some, dest_addr: FI_ADDR_UNSPEC, addr: mem_addr@, key: mapped_key@, datatype: T::fi_datatype().raw_value(), op: CompareAtomicOp::CswapLe.raw_value(), context: old(context)@ }),
            *final(context) == *old(context),
    {
        self.compare_atomicv_impl(ioc, desc, comparetv, compare_desc, resultv, res_desc, None, mem_addr, mapped_key, Some(context.inner_mut()), CompareAtomicOp::CswapLe)
    }

    fn compare_atomicv_swap_lt_with_context<T: AsFiType, RT: AsFiType>(&self, ioc: &[Ioc<T>], desc: Option<&[MemoryRegionDesc]>, comparetv: &[Ioc<T>], compare_desc: Option<&[MemoryRegionDesc]>, resultv: &[IocMut<T>], res_desc: Option<&[MemoryRegionDesc]>, mem_addr: RemoteMemoryAddress<RT>, mapped_key: &MappedMemoryRegionKey, context: &mut Context) -> (r: AtomicCall)
        ensures
            r == (AtomicCall::CompareAtomicv { ep: self.ep_fid(), count: ioc@.len() as usize, descs: desc is Some, compare_count: comparetv@.len() as usize, compare_descs: compare_desc is Some, result_count: resultv@.len() as usize, result_descs: res_desc is Some, dest_addr: FI_ADDR_UNSPEC, addr: mem_addr@, key: mapped_key@, datatype: T::fi_datatype().raw_value(), op: CompareAtomicOp::CswapLt.raw_value(), context: old(context)@ }),
            *final(context) == *old(context),
    {
        self.compare_atomicv_impl(ioc, desc, comparetv, compare_desc, resultv, res_desc, None, mem_addr, mapped_key, Some(context.inner_mut()), CompareAtomicOp::CswapLt)
    }

    fn compare_atomicv_swap_ge_with_context<T: AsFiType, RT: AsFiType>(&self, ioc: &[Ioc<T>], desc: Option<&[MemoryRegionDesc]>, comparetv: &[Ioc<T>], compare_desc: Option<&[MemoryRegionDesc]>, resultv: &[IocMut<T>], res_desc: Option<&[MemoryRegionDesc]>, mem_addr: RemoteMemoryAddress<RT>, mapped_key: &MappedMemoryRegionKey, context: &mut Context) -> (r: AtomicCall)
        ensures
            r == (AtomicCall::CompareAtomicv { ep: self.ep_fid(), count: ioc@.len() as usize, descs: desc is Some, compare_count: comparetv@.len() as usize, compare_descs: compare_desc is Some, result_count: resultv@.len() as usize, result_descs: res_desc is Some, dest_addr: FI_ADDR_UNSPEC, addr: mem_addr@, key: mapped_key@, datatype: T::fi_datatype().raw_value(), op: CompareAtomicOp::CswapGe.raw_value(), context: old(context)@ }),
            *final(context) == *old(context),
    {
        self.compare_atomicv_impl(ioc, desc, comparetv, compare_desc, resultv, res_desc, None, mem_addr, mapped_key, Some(context.inner_mut()), CompareAtomicOp::CswapGe)
    }

    fn compare_atomicv_swap_gt_with_context<T: AsFiType, RT: AsFiType>(&self, ioc: &[Ioc<T>], desc: Option<&[MemoryRegionDesc]>, comparetv: &[Ioc<T>], compare_desc: Option<&[MemoryRegionDesc]>, resultv: &[IocMut<T>], res_desc: Option<&[MemoryRegionDesc]>, mem_addr: RemoteMemoryAddress<RT>, mapped_key: &MappedMemoryRegionKey, context: &mut Context) -> (r: AtomicCall)
        ensures
            r == (AtomicCall::CompareAtomicv { ep: self.ep_fid(), count: ioc@.len() as usize, descs: desc is Some, compare_count: comparetv@.len() as usize, compare_descs: compare_desc is Some, result_count: resultv@.len() as usize, result_descs: res_desc is Some, dest_addr: FI_ADDR_UNSPEC, addr: mem_addr@, key: mapped_key@, datatype: T::fi_datatype().raw_value(), op: CompareAtomicOp::CswapGt.raw_value(), context: old(context)@ }),
            *final(context) == *old(context),
    {
        self.compare_atomicv_impl(ioc, desc, comparetv, compare_desc, resultv, res_desc, None, mem_addr, mapped_key, Some(context.inner_mut()), CompareAtomicOp::CswapGt)
    }

    fn compare_atomicv_mswap_with_context<T: AsFiType, RT: AsFiType>(&self, ioc: &[Ioc<T>], desc: Option<&[MemoryRegionDesc]>, comparetv: &[Ioc<T>], compare_desc: Option<&[MemoryRegionDesc]>, resultv: &[IocMut<T>], res_desc: Option<&[MemoryRegionDesc]>, mem_addr: RemoteMemoryAddress<RT>, mapped_key: &MappedMemoryRegionKey, context: &mut Context) -> (r: AtomicCall)
        ensures
            r == (AtomicCall::CompareAtomicv { ep: self.ep_fid(), count: ioc@.len() as usize, descs: desc is Some, compare_count: comparetv@.len() as usize, compare_descs: compare_desc is Some, result_count: resultv@.len() as usize, result_descs: res_desc is Some, dest_addr: FI_ADDR_UNSPEC, addr: mem_addr@, key: mapped_key@, datatype: T::fi_datatype().raw_value(), op: CompareAtomicOp::Mswap.raw_value(), context: old(context)@ }),
            *final(context) == *old(context),
    {
        self.compare_atomicv_impl(ioc, desc, comparetv, compare_desc, resultv, res_desc, None, mem_addr, mapped_key, Some(context.inner_mut()), CompareAtomicOp::Mswap)
    }

    fn compare_atomicv_swap_triggered<T: AsFiType, RT: AsFiType>(&self, ioc: &[Ioc<T>], desc: Option<&[MemoryRegionDesc]>, comparetv: &[Ioc<T>], compare_desc: Option<&[MemoryRegionDesc]>, resultv: &[IocMut<T>], res_desc: Option<&[MemoryRegionDesc]>, mem_addr: RemoteMemoryAddress<RT>, mapped_key: &MappedMemoryRegionKey, context: &mut TriggeredContext) -> (r: AtomicCall)
        ensures
            r == (AtomicCall::CompareAtomicv { ep: self.ep_fid(), count: ioc@.len() as usize, descs: desc is Some, compare_count: comparetv@.len() as usize, compare_descs: compare_desc is Some, result_count: resultv@.len() as usize, result_descs: res_desc is Some, dest_addr: FI_ADDR_UNSPEC, addr: mem_addr@, key: mapped_key@, datatype: T::fi_datatype().raw_value(), op: CompareAtomicOp::Cswap.raw_value(), context: old(context)@ }),
            *final(context) == *old(context),
    {
        self.compare_atomicv_impl(ioc, desc, comparetv, compare_desc, resultv, res_desc, None, mem_addr, mapped_key, Some(context.inner_mut()), CompareAtomicOp::Cswap)
    }

    fn compare_atomicv_swap_ne_triggered<T: AsFiType, RT: AsFiType>(&self, ioc: &[Ioc<T>], desc: Option<&[MemoryRegionDesc]>, comparetv: &[Ioc<T>], compare_desc: Option<&[MemoryRegionDesc]>, resultv: &[IocMut<T>], res_desc: Option<&[MemoryRegionDesc]>, mem_addr: RemoteMemoryAddress<RT>, mapped_key: &MappedMemoryRegionKey, context: &mut TriggeredContext) -> (r: AtomicCall)
        ensures
            r == (AtomicCall::CompareAtomicv { ep: self.ep_fid(), count: ioc@.len() as usize, descs: desc is Some, compare_count: comparetv@.len() as usize, compare_descs: compare_desc is Some, result_count: resultv@.len() as usize, result_descs: res_desc is Some, dest_addr: FI_ADDR_UNSPEC, addr: mem_addr@, key: mapped_key@, datatype: T::fi_datatype().raw_value(), op: CompareAtomicOp::CswapNe.raw_value(), context: old(context)@ }),
            *final(context) == *old(context),
    {
        self.compare_atomicv_impl(ioc, desc, comparetv, compare_desc, resultv, res_desc, None, mem_addr, mapped_key, Some(context.inner_mut()), CompareAtomicOp::CswapNe)
    }

    fn compare_atomicv_swap_le_triggered<T: AsFiType, RT: AsFiType>(&self, ioc: &[Ioc<T>], desc: Option<&[MemoryRegionDesc]>, comparetv: &[Ioc<T>], compare_desc: Option<&[MemoryRegionDesc]>, resultv: &[IocMut<T>], res_desc: Option<&[MemoryRegionDesc]>, mem_addr: RemoteMemoryAddress<RT>, mapped_key: &MappedMemoryRegionKey, context: &mut TriggeredContext) -> (r: AtomicCall)
        ensures
            r == (AtomicCall::CompareAtomicv { ep: self.ep_fid(), count: ioc@.len() as usize, descs: desc is Some, compare_count: comparetv@.len() as usize, compare_descs: compare_desc is Some, result_count: resultv@.len() as usize, result_descs: res_desc is Some, dest_addr: FI_ADDR_UNSPEC, addr: mem_addr@, key: mapped_key@, datatype: T::fi_datatype().raw_value(), op: CompareAtomicOp::CswapLe.raw_value(), context: old(context)@ }),
            *final(context) == *old(context),
    {
        self.compare_atomicv_impl(ioc, desc, comparetv, compare_desc, resultv, res_desc, None, mem_addr, mapped_key, Some(context.inner_mut()), CompareAtomicOp::CswapLe)
    }

    fn compare_atomicv_swap_lt_triggered<T: AsFiType, RT: AsFiType>(&self, ioc: &[Ioc<T>], desc: Option<&[MemoryRegionDesc]>, comparetv: &[Ioc<T>], compare_desc: Option<&[MemoryRegionDesc]>, resultv: &[IocMut<T>], res_desc: Option<&[MemoryRegionDesc]>, mem_addr: RemoteMemoryAddress<RT>, mapped_key: &MappedMemoryRegionKey, context: &mut TriggeredContext) -> (r: AtomicCall)
        ensures
            r == (AtomicCall::CompareAtomicv { ep: self.ep_fid(), count: ioc@.len() as usize, descs: desc is Some, compare_count: comparetv@.len() as usize, compare_descs: compare_desc is Some, result_count: resultv@.len() as usize, result_descs: res_desc is Some, dest_addr: FI_ADDR_UNSPEC, addr: mem_addr@, key: mapped_key@, datatype: T::fi_datatype().raw_value(), op: CompareAtomicOp::CswapLt.raw_value(), context: old(context)@ }),
            *final(context) == *old(context),
    {
        self.compare_atomicv_impl(ioc, desc, comparetv, compare_desc, resultv, res_desc, None, mem_addr, mapped_key, Some(context.inner_mut()), CompareAtomicOp::CswapLt)
    }

    fn compare_atomicv_swap_ge_triggered<T: AsFiType, RT: AsFiType>(&self, ioc: &[Ioc<T>], desc: Option<&[MemoryRegionDesc]>, comparetv: &[Ioc<T>], compare_desc: Option<&[MemoryRegionDesc]>, resultv: &[IocMut<T>], res_desc: Option<&[MemoryRegionDesc]>, mem_addr: RemoteMemoryAddress<RT>, mapped_key: &MappedMemoryRegionKey, context: &mut TriggeredContext) -> (r: AtomicCall)
        ensures
            r == (AtomicCall::CompareAtomicv { ep: self.ep_fid(), count: ioc@.len() as usize, descs: desc is Some, compare_count: comparetv@.len() as usize, compare_descs: compare_desc is Some, result_count: resultv@.len() as usize, result_descs: res_desc is Some, dest_addr: FI_ADDR_UNSPEC, addr: mem_addr@, key: mapped_key@, datatype: T::fi_datatype().raw_value(), op: CompareAtomicOp::CswapGe.raw_value(), context: old(context)@ }),
            *final(context) == *old(context),
    {
        self.compare_atomicv_impl(ioc, desc, comparetv, compare_desc, resultv, res_desc, None, mem_addr, mapped_key, Some(context.inner_mut()), CompareAtomicOp::CswapGe)
    }

    fn compare_atomicv_swap_gt_triggered<T: AsFiType, RT: AsFiType>(&self, ioc: &[Ioc<T>], desc: Option<&[MemoryRegionDesc]>, comparetv: &[Ioc<T>], compare_desc: Option<&[MemoryRegionDesc]>, resultv: &[IocMut<T>], res_desc: Option<&[MemoryRegionDesc]>, mem_addr: RemoteMemoryAddress<RT>, mapped_key: &MappedMemoryRegionKey, context: &mut TriggeredContext) -> (r: AtomicCall)
        ensures
            r == (AtomicCall::CompareAtomicv { ep: self.ep_fid(), count: ioc@.len() as usize, descs: desc is Some, compare_count: comparetv@.len() as usize, compare_descs: compare_desc is Some, result_count: resultv@.len() as usize, result_descs: res_desc is Some, dest_addr: FI_ADDR_UNSPEC, addr: mem_addr@, key: mapped_key@, datatype: T::fi_datatype().raw_value(), op: CompareAtomicOp::CswapGt.raw_value(), context: old(context)@ }),
            *final(context) == *old(context),
    {
        self.compare_atomicv_impl(ioc, desc, comparetv, compare_desc, resultv, res_desc, None, mem_addr, mapped_key, Some(context.inner_mut()), CompareAtomicOp::CswapGt)
    }

    fn compare_atomicv_mswap_triggered<T: AsFiType, RT: AsFiType>(&self, ioc: &[Ioc<T>], desc: Option<&[MemoryRegionDesc]>, comparetv: &[Ioc<T>], compare_desc: Option<&[MemoryRegionDesc]>, resultv: &[IocMut<T>], res_desc: Option<&[MemoryRegionDesc]>, mem_addr: RemoteMemoryAddress<RT>, mapped_key: &MappedMemoryRegionKey, context: &mut TriggeredContext) -> (r: AtomicCall)
        ensures
            r == (AtomicCall::CompareAtomicv { ep: self.ep_fid(), count: ioc@.len() as usize, descs: desc is Some, compare_count: comparetv@.len() as usize, compare_descs: compare_desc is Some, result_count: resultv@.len() as usize, result_descs: res_desc is Some, dest_addr: FI_ADDR_UNSPEC, addr: mem_addr@, key: mapped_key@, datatype: T::fi_datatype().raw_value(), op: CompareAtomicOp::Mswap.raw_value(), context: old(context)@ }),
            *final(context) == *old(context),
    {
        self.compare_atomicv_impl(ioc, desc, comparetv, compare_desc, resultv, res_desc, None, mem_addr, mapped_key, Some(context.inner_mut()), CompareAtomicOp::Mswap)
    }

    fn compare_atomicmsg<T: AsFiType>(&self, msg: &MsgRef, comparev: &[Ioc<T>], compare_desc: Option<&[MemoryRegionDesc]>, resultv: &[IocMut<T>], res_desc: Option<&[MemoryRegionDesc]>, options: AtomicMsgOptions) -> (r: AtomicCall)
        ensures
            r == (AtomicCall::CompareAtomicmsg { ep: self.ep_fid(), msg: msg@, compare_count: comparev@.len() as usize, compare_descs: compare_desc is Some, result_count: resultv@.len() as usize, result_descs: res_desc is Some, flags: options@ }),
    {
        self.compare_atomicmsg_impl(msg, comparev, compare_desc, resultv, res_desc, options)
    }
}

impl ConnectedAtomicCASEp for ConnectedEndpoint {}

/// Compare-and-swap operations whose buffers lie in registered memory regions.
pub trait AtomicCASEpMrSlice: AtomicCASEp {
    fn compare_atomic_swap_mr_to<T: AsFiType>(&self, mr_slice: &MemoryRegionSlice<T>, compare_slice: &MemoryRegionSlice<T>, result_slice: &MemoryRegionSliceMut<T>, dest_addr: &MappedAddress, mem_addr: RemoteMemoryAddress<T>, mapped_key: &MappedMemoryRegionKey) -> (r: AtomicCall)
        ensures
            r == (AtomicCall::CompareAtomic { ep: self.ep_fid(), count: mr_slice.data()@.len() as usize, desc: mr_slice.desc_spec()@, compare_desc: compare_slice.desc_spec()@, result_desc: result_slice.desc_spec()@, dest_addr: dest_addr@, addr: mem_addr@, key: mapped_key@, datatype: T::fi_datatype().raw_value(), op: CompareAtomicOp::Cswap.raw_value(), context: 0 }),
    {
        let desc = result_slice.desc();
        self.compare_atomic_swap_to(mr_slice.as_slice(), Some(mr_slice.desc()), compare_slice.as_slice(), Some(compare_slice.desc()), result_slice.as_mut_slice(), Some(desc), dest_addr, mem_addr, mapped_key)
    }

    fn compare_atomic_swap_ne_mr_to<T: AsFiType>(&self, mr_slice: &MemoryRegionSlice<T>, compare_slice: &MemoryRegionSlice<T>, result_slice: &MemoryRegionSliceMut<T>, dest_addr: &MappedAddress, mem_addr: RemoteMemoryAddress<T>, mapped_key: &MappedMemoryRegionKey) -> (r: AtomicCall)
        ensures
            r == (AtomicCall::CompareAtomic { ep: self.ep_fid(), count: mr_slice.data()@.len() as usize, desc: mr_slice.desc_spec()@, compare_desc: compare_slice.desc_spec()@, result_desc: result_slice.desc_spec()@, dest_addr: dest_addr@, addr: mem_addr@, key: mapped_key@, datatype: T::fi_datatype().raw_value(), op: CompareAtomicOp::CswapNe.raw_value(), context: 0 }),
    {
        let desc = result_slice.desc();
        self.compare_atomic_swap_ne_to(mr_slice.as_slice(), Some(mr_slice.desc()), compare_slice.as_slice(), Some(compare_slice.desc()), result_slice.as_mut_slice(), Some(desc), dest_addr, mem_addr, mapped_key)
    }

    fn compare_atomic_swap_le_mr_to<T: AsFiType>(&self, mr_slice: &MemoryRegionSlice<T>, compare_slice: &MemoryRegionSlice<T>, result_slice: &MemoryRegionSliceMut<T>, dest_addr: &MappedAddress, mem_addr: RemoteMemoryAddress<T>, mapped_key: &MappedMemoryRegionKey) -> (r: AtomicCall)
        ensures
            r == (AtomicCall::CompareAtomic { ep: self.ep_fid(), count: mr_slice.data()@.len() as usize, desc: mr_slice.desc_spec()@, compare_desc: compare_slice.desc_spec()@, result_desc: result_slice.desc_spec()@, dest_addr: dest_addr@, addr: mem_addr@, key: mapped_key@, datatype: T::fi_datatype().raw_value(), op: CompareAtomicOp::CswapLe.raw_value(), context: 0 }),
    {
        let desc = result_slice.desc();
        self.compare_atomic_swap_le_to(mr_slice.as_slice(), Some(mr_slice.desc()), compare_slice.as_slice(), Some(compare_slice.desc()), result_slice.as_mut_slice(), Some(desc), dest_addr, mem_addr, mapped_key)
    }

    fn compare_atomic_swap_lt_mr_to<T: AsFiType>(&self, mr_slice: &MemoryRegionSlice<T>, compare_slice: &MemoryRegionSlice<T>, result_slice: &MemoryRegionSliceMut<T>, dest_addr: &MappedAddress, mem_addr: RemoteMemoryAddress<T>, mapped_key: &MappedMemoryRegionKey) -> (r: AtomicCall)
        ensures
            r == (AtomicCall::CompareAtomic { ep: self.ep_fid(), count: mr_slice.data()@.len() as usize, desc: mr_slice.desc_spec()@, compare_desc: compare_slice.desc_spec()@, result_desc: result_slice.desc_spec()@, dest_addr: dest_addr@, addr: mem_addr@, key: mapped_key@, datatype: T::fi_datatype().raw_value(), op: CompareAtomicOp::CswapLt.raw_value(), context: 0 }),
    {
        let desc = result_slice.desc();
        self.compare_atomic_swap_lt_to(mr_slice.as_slice(), Some(mr_slice.desc()), compare_slice.as_slice(), Some(compare_slice.desc()), result_slice.as_mut_slice(), Some(desc), dest_addr, mem_addr, mapped_key)
    }

    fn compare_atomic_swap_ge_mr_to<T: AsFiType>(&self, mr_slice: &MemoryRegionSlice<T>, compare_slice: &MemoryRegionSlice<T>, result_slice: &MemoryRegionSliceMut<T>, dest_addr: &MappedAddress, mem_addr: RemoteMemoryAddress<T>, mapped_key: &MappedMemoryRegionKey) -> (r: AtomicCall)
        ensures
            r == (AtomicCall::CompareAtomic { ep: self.ep_fid(), count: mr_slice.data()@.len() as usize, desc: mr_slice.desc_spec()@, compare_desc: compare_slice.desc_spec()@, result_desc: result_slice.desc_spec()@, dest_addr: dest_addr@, addr: mem_addr@, key: mapped_key@, datatype: T::fi_datatype().raw_value(), op: CompareAtomicOp::CswapGe.raw_value(), context: 0 }),
    {
        let desc = result_slice.desc();
        self.compare_atomic_swap_ge_to(mr_slice.as_slice(), Some(mr_slice.desc()), compare_slice.as_slice(), Some(compare_slice.desc()), result_slice.as_mut_slice(), Some(desc), dest_addr, mem_addr, mapped_key)
    }

    fn compare_atomic_swap_gt_mr_to<T: AsFiType>(&self, mr_slice: &MemoryRegionSlice<T>, compare_slice: &MemoryRegionSlice<T>, result_slice: &MemoryRegionSliceMut<T>, dest_addr: &MappedAddress, mem_addr: RemoteMemoryAddress<T>, mapped_key: &MappedMemoryRegionKey) -> (r: AtomicCall)
        ensures
            r == (AtomicCall::CompareAtomic { ep: self.ep_fid(), count: mr_slice.data()@.len() as usize, desc: mr_slice.desc_spec()@, compare_desc: compare_slice.desc_spec()@, result_desc: result_slice.desc_spec()@, dest_addr: dest_addr@, addr: mem_addr@, key: mapped_key@, datatype: T::fi_datatype().raw_value(), op: CompareAtomicOp::CswapGt.raw_value(), context: 0 }),
    {
        let desc = result_slice.desc();
        self.compare_atomic_swap_gt_to(mr_slice.as_slice(), Some(mr_slice.desc()), compare_slice.as_slice(), Some(compare_slice.desc()), result_slice.as_mut_slice(), Some(desc), dest_addr, mem_addr, mapped_key)
    }

    fn compare_atomic_mswap_mr_to<T: AsFiType>(&self, mr_slice: &MemoryRegionSlice<T>, compare_slice: &MemoryRegionSlice<T>, result_slice: &MemoryRegionSliceMut<T>, dest_addr: &MappedAddress, mem_addr: RemoteMemoryAddress<T>, mapped_key: &MappedMemoryRegionKey) -> (r: AtomicCall)
        ensures
            r == (AtomicCall::CompareAtomic { ep: self.ep_fid(), count: mr_slice.data()@.len() as usize, desc: mr_slice.desc_spec()@, compare_desc: compare_slice.desc_spec()@, result_desc: result_slice.desc_spec()@, dest_addr: dest_addr@, addr: mem_addr@, key: mapped_key@, datatype: T::fi_datatype().raw_value(), op: CompareAtomicOp::Mswap.raw_value(), context: 0 }),
    {
        let desc = result_slice.desc();
        self.compare_atomic_mswap_to(mr_slice.as_slice(), Some(mr_slice.desc()), compare_slice.as_slice(), Some(compare_slice.desc()), result_slice.as_mut_slice(), Some(desc), dest_addr, mem_addr, mapped_key)
    }

    fn compare_atomic_swap_mr_to_with_context<T: AsFiType>(&self, mr_slice: &MemoryRegionSlice<T>, compare_slice: &MemoryRegionSlice<T>, result_slice: &MemoryRegionSliceMut<T>, dest_addr: &MappedAddress, mem_addr: RemoteMemoryAddress<T>, mapped_key: &MappedMemoryRegionKey, context: &mut Context) -> (r: AtomicCall)
        ensures
            r == (AtomicCall::CompareAtomic { ep: self.ep_fid(), count: mr_slice.data()@.len() as usize, desc: mr_slice.desc_spec()@, compare_desc: compare_slice.desc_spec()@, result_desc: result_slice.desc_spec()@, dest_addr: dest_addr@, addr: mem_addr@, key: mapped_key@, datatype: T::fi_datatype().raw_value(), op: CompareAtomicOp::Cswap.raw_value(), context: old(context)@ }),
            *final(context) == *old(context),
    {
        let desc = result_slice.desc();
        self.compare_atomic_swap_to_with_context(mr_slice.as_slice(), Some(mr_slice.desc()), compare_slice.as_slice(), Some(compare_slice.desc()), result_slice.as_mut_slice(), Some(desc), dest_addr, mem_addr, mapped_key, context)
    }

    fn compare_atomic_swap_ne_mr_to_with_context<T: AsFiType>(&self, mr_slice: &MemoryRegionSlice<T>, compare_slice: &MemoryRegionSlice<T>, result_slice: &MemoryRegionSliceMut<T>, dest_addr: &MappedAddress, mem_addr: RemoteMemoryAddress<T>, mapped_key: &MappedMemoryRegionKey, context: &mut Context) -> (r: AtomicCall)
        ensures
            r == (AtomicCall::CompareAtomic { ep: self.ep_fid(), count: mr_slice.data()@.len() as usize, desc: mr_slice.desc_spec()@, compare_desc: compare_slice.desc_spec()@, result_desc: result_slice.desc_spec()@, dest_addr: dest_addr@, addr: mem_addr@, key: mapped_key@, datatype: T::fi_datatype().raw_value(), op: CompareAtomicOp::CswapNe.raw_value(), context: old(context)@ }),
            *final(context) == *old(context),
    {
        let desc = result_slice.desc();
        self.compare_atomic_swap_ne_to_with_context(mr_slice.as_slice(), Some(mr_slice.desc()), compare_slice.as_slice(), Some(compare_slice.desc()), result_slice.as_mut_slice(), Some(desc), dest_addr, mem_addr, mapped_key, context)
    }

    fn compare_atomic_swap_le_mr_to_with_context<T: AsFiType>(&self, mr_slice: &MemoryRegionSlice<T>, compare_slice: &MemoryRegionSlice<T>, result_slice: &MemoryRegionSliceMut<T>, dest_addr: &MappedAddress, mem_addr: RemoteMemoryAddress<T>, mapped_key: &MappedMemoryRegionKey, context: &mut Context) -> (r: AtomicCall)
        ensures
            r == (AtomicCall::CompareAtomic { ep: self.ep_fid(), count: mr_slice.data()@.len() as usize, desc: mr_slice.desc_spec()@, compare_desc: compare_slice.desc_spec()@, result_desc: result_slice.desc_spec()@, dest_addr: dest_addr@, addr: mem_addr@, key: mapped_key@, datatype: T::fi_datatype().raw_value(), op: CompareAtomicOp::CswapLe.raw_value(), context: old(context)@ }),
            *final(context) == *old(context),
    {
        let desc = result_slice.desc();
        self.compare_atomic_swap_le_to_with_context(mr_slice.as_slice(), Some(mr_slice.desc()), compare_slice.as_slice(), Some(compare_slice.desc()), result_slice.as_mut_slice(), Some(desc), dest_addr, mem_addr, mapped_key, context)
    }

    fn compare_atomic_swap_lt_mr_to_with_context<T: AsFiType>(&self, mr_slice: &MemoryRegionSlice<T>, compare_slice: &MemoryRegionSlice<T>, result_slice: &MemoryRegionSliceMut<T>, dest_addr: &MappedAddress, mem_addr: RemoteMemoryAddress<T>, mapped_key: &MappedMemoryRegionKey, context: &mut Context) -> (r: AtomicCall)
        ensures
            r == (AtomicCall::CompareAtomic { ep: self.ep_fid(), count: mr_slice.data()@.len() as usize, desc: mr_slice.desc_spec()@, compare_desc: compare_slice.desc_spec()@, result_desc: result_slice.desc_spec()@, dest_addr: dest_addr@, addr: mem_addr@, key: mapped_key@, datatype: T::fi_datatype().raw_value(), op: CompareAtomicOp::CswapLt.raw_value(), context: old(context)@ }),
            *final(context) == *old(context),
    {
        let desc = result_slice.desc();
        self.compare_atomic_swap_lt_to_with_context(mr_slice.as_slice(), Some(mr_slice.desc()), compare_slice.as_slice(), Some(compare_slice.desc()), result_slice.as_mut_slice(), Some(desc), dest_addr, mem_addr, mapped_key, context)
    }

    fn compare_atomic_swap_ge_mr_to_with_context<T: AsFiType>(&self, mr_slice: &MemoryRegionSlice<T>, compare_slice: &MemoryRegionSlice<T>, result_slice: &MemoryRegionSliceMut<T>, dest_addr: &MappedAddress, mem_addr: RemoteMemoryAddress<T>, mapped_key: &MappedMemoryRegionKey, context: &mut Context) -> (r: AtomicCall)
        ensures
            r == (AtomicCall::CompareAtomic { ep: self.ep_fid(), count: mr_slice.data()@.len() as usize, desc: mr_slice.desc_spec()@, compare_desc: compare_slice.desc_spec()@, result_desc: result_slice.desc_spec()@, dest_addr: dest_addr@, addr: mem_addr@, key: mapped_key@, datatype: T::fi_datatype().raw_value(), op: CompareAtomicOp::CswapGe.raw_value(), context: old(context)@ }),
            *final(context) == *old(context),
    {
        let desc = result_slice.desc();
        self.compare_atomic_swap_ge_to_with_context(mr_slice.as_slice(), Some(mr_slice.desc()), compare_slice.as_slice(), Some(compare_slice.desc()), result_slice.as_mut_slice(), Some(desc), dest_addr, mem_addr, mapped_key, context)
    }

    fn compare_atomic_swap_gt_mr_to_with_context<T: AsFiType>(&self, mr_slice: &MemoryRegionSlice<T>, compare_slice: &MemoryRegionSlice<T>, result_slice: &MemoryRegionSliceMut<T>, dest_addr: &MappedAddress, mem_addr: RemoteMemoryAddress<T>, mapped_key: &MappedMemoryRegionKey, context: &mut Context) -> (r: AtomicCall)
        ensures
            r == (AtomicCall::CompareAtomic { ep: self.ep_fid(), count: mr_slice.data()@.len() as usize, desc: mr_slice.desc_spec()@, compare_desc: compare_slice.desc_spec()@, result_desc: result_slice.desc_spec()@, dest_addr: dest_addr@, addr: mem_addr@, key: mapped_key@, datatype: T::fi_datatype().raw_value(), op: CompareAtomicOp::CswapGt.raw_value(), context: old(context)@ }),
            *final(context) == *old(context),
    {
        let desc = result_slice.desc();
        self.compare_atomic_swap_gt_to_with_context(mr_slice.as_slice(), Some(mr_slice.desc()), compare_slice.as_slice(), Some(compare_slice.desc()), result_slice.as_mut_slice(), Some(desc), dest_addr, mem_addr, mapped_key, context)
    }

    fn compare_atomic_mswap_mr_to_with_context<T: AsFiType>(&self, mr_slice: &MemoryRegionSlice<T>, compare_slice: &MemoryRegionSlice<T>, result_slice: &MemoryRegionSliceMut<T>, dest_addr: &MappedAddress, mem_addr: RemoteMemoryAddress<T>, mapped_key: &MappedMemoryRegionKey, context: &mut Context) -> (r: AtomicCall)
        ensures
            r == (AtomicCall::CompareAtomic { ep: self.ep_fid(), count: mr_slice.data()@.len() as usize, desc: mr_slice.desc_spec()@, compare_desc: compare_slice.desc_spec()@, result_desc: result_slice.desc_spec()@, dest_addr: dest_addr@, addr: mem_addr@, key: mapped_key@, datatype: T::fi_datatype().raw_value(), op: CompareAtomicOp::Mswap.raw_value(), context: old(context)@ }),
            *final(context) == *old(context),
    {
        let desc = result_slice.desc();
        self.compare_atomic_mswap_to_with_context(mr_slice.as_slice(), Some(mr_slice.desc()), compare_slice.as_slice(), Some(compare_slice.desc()), result_slice.as_mut_slice(), Some(desc), dest_addr, mem_addr, mapped_key, context)
    }

    fn compare_atomic_swap_mr_to_triggered<T: AsFiType>(&self, mr_slice: &MemoryRegionSlice<T>, compare_slice: &MemoryRegionSlice<T>, result_slice: &MemoryRegionSliceMut<T>, dest_addr: &MappedAddress, mem_addr: RemoteMemoryAddress<T>, mapped_key: &MappedMemoryRegionKey, context: &mut TriggeredContext) -> (r: AtomicCall)
        ensures
            r == (AtomicCall::CompareAtomic { ep: self.ep_fid(), count: mr_slice.data()@.len() as usize, desc: mr_slice.desc_spec()@, compare_desc: compare_slice.desc_spec()@, result_desc: result_slice.desc_spec()@, dest_addr: dest_addr@, addr: mem_addr@, key: mapped_key@, datatype: T::fi_datatype().raw_value(), op: CompareAtomicOp::Cswap.raw_value(), context: old(context)@ }),
            *final(context) == *old(context),
    {
        let desc = result_slice.desc();
        self.compare_atomic_swap_to_triggered(mr_slice.as_slice(), Some(mr_slice.desc()), compare_slice.as_slice(), Some(compare_slice.desc()), result_slice.as_mut_slice(), Some(desc), dest_addr, mem_addr, mapped_key, context)
    }

    fn compare_atomic_swap_ne_mr_to_triggered<T: AsFiType>(&self, mr_slice: &MemoryRegionSlice<T>, compare_slice: &MemoryRegionSlice<T>, result_slice: &MemoryRegionSliceMut<T>, dest_addr: &MappedAddress, mem_addr: RemoteMemoryAddress<T>, mapped_key: &MappedMemoryRegionKey, context: &mut TriggeredContext) -> (r: AtomicCall)
        ensures
            r == (AtomicCall::CompareAtomic { ep: self.ep_fid(), count: mr_slice.data()@.len() as usize, desc: mr_slice.desc_spec()@, compare_desc: compare_slice.desc_spec()@, result_desc: result_slice.desc_spec()@, dest_addr: dest_addr@, addr: mem_addr@, key: mapped_key@, datatype: T::fi_datatype().raw_value(), op: CompareAtomicOp::CswapNe.raw_value(), context: old(context)@ }),
            *final(context) == *old(context),
    {
        let desc = result_slice.desc();
        self.compare_atomic_swap_ne_to_triggered(mr_slice.as_slice(), Some(mr_slice.desc()), compare_slice.as_slice(), Some(compare_slice.desc()), result_slice.as_mut_slice(), Some(desc), dest_addr, mem_addr, mapped_key, context)
    }

    fn compare_atomic_swap_le_mr_to_triggered<T: AsFiType>(&self, mr_slice: &MemoryRegionSlice<T>, compare_slice: &MemoryRegionSlice<T>, result_slice: &MemoryRegionSliceMut<T>, dest_addr: &MappedAddress, mem_addr: RemoteMemoryAddress<T>, mapped_key: &MappedMemoryRegionKey, context: &mut TriggeredContext) -> (r: AtomicCall)
        ensures
            r == (AtomicCall::CompareAtomic { ep: self.ep_fid(), count: mr_slice.data()@.len() as usize, desc: mr_slice.desc_spec()@, compare_desc: compare_slice.desc_spec()@, result_desc: result_slice.desc_spec()@, dest_addr: dest_addr@, addr: mem_addr@, key: mapped_key@, datatype: T::fi_datatype().raw_value(), op: CompareAtomicOp::CswapLe.raw_value(), context: old(context)@ }),
            *final(context) == *old(context),
    {
        let desc = result_slice.desc();
        self.compare_atomic_swap_le_to_triggered(mr_slice.as_slice(), Some(mr_slice.desc()), compare_slice.as_slice(), Some(compare_slice.desc()), result_slice.as_mut_slice(), Some(desc), dest_addr, mem_addr, mapped_key, context)
    }

    fn compare_atomic_swap_lt_mr_to_triggered<T: AsFiType>(&self, mr_slice: &MemoryRegionSlice<T>, compare_slice: &MemoryRegionSlice<T>, result_slice: &MemoryRegionSliceMut<T>, dest_addr: &MappedAddress, mem_addr: RemoteMemoryAddress<T>, mapped_key: &MappedMemoryRegionKey, context: &mut TriggeredContext) -> (r: AtomicCall)
        ensures
            r == (AtomicCall::CompareAtomic { ep: self.ep_fid(), count: mr_slice.data()@.len() as usize, desc: mr_slice.desc_spec()@, compare_desc: compare_slice.desc_spec()@, result_desc: result_slice.desc_spec()@, dest_addr: dest_addr@, addr: mem_addr@, key: mapped_key@, datatype: T::fi_datatype().raw_value(), op: CompareAtomicOp::CswapLt.raw_value(), context: old(context)@ }),
            *final(context) == *old(context),
    {
        let desc = result_slice.desc();
        self.compare_atomic_swap_lt_to_triggered(mr_slice.as_slice(), Some(mr_slice.desc()), compare_slice.as_slice(), Some(compare_slice.desc()), result_slice.as_mut_slice(), Some(desc), dest_addr, mem_addr, mapped_key, context)
    }

    fn compare_atomic_swap_ge_mr_to_triggered<T: AsFiType>(&self, mr_slice: &MemoryRegionSlice<T>, compare_slice: &MemoryRegionSlice<T>, result_slice: &MemoryRegionSliceMut<T>, dest_addr: &MappedAddress, mem_addr: RemoteMemoryAddress<T>, mapped_key: &MappedMemoryRegionKey, context: &mut TriggeredContext) -> (r: AtomicCall)
        ensures
            r == (AtomicCall::CompareAtomic { ep: self.ep_fid(), count: mr_slice.data()@.len() as usize, desc: mr_slice.desc_spec()@, compare_desc: compare_slice.desc_spec()@, result_desc: result_slice.desc_spec()@, dest_addr: dest_addr@, addr: mem_addr@, key: mapped_key@, datatype: T::fi_datatype().raw_value(), op: CompareAtomicOp::CswapGe.raw_value(), context: old(context)@ }),
            *final(context) == *old(context),
    {
        let desc = result_slice.desc();
        self.compare_atomic_swap_ge_to_triggered(mr_slice.as_slice(), Some(mr_slice.desc()), compare_slice.as_slice(), Some(compare_slice.desc()), result_slice.as_mut_slice(), Some(desc), dest_addr, mem_addr, mapped_key, context)
    }

    fn compare_atomic_swap_gt_mr_to_triggered<T: AsFiType>(&self, mr_slice: &MemoryRegionSlice<T>, compare_slice: &MemoryRegionSlice<T>, result_slice: &MemoryRegionSliceMut<T>, dest_addr: &MappedAddress, mem_addr: RemoteMemoryAddress<T>, mapped_key: &MappedMemoryRegionKey, context: &mut TriggeredContext) -> (r: AtomicCall)
        ensures
            r == (AtomicCall::CompareAtomic { ep: self.ep_fid(), count: mr_slice.data()@.len() as usize, desc: mr_slice.desc_spec()@, compare_desc: compare_slice.desc_spec()@, result_desc: result_slice.desc_spec()@, dest_addr: dest_addr@, addr: mem_addr@, key: mapped_key@, datatype: T::fi_datatype().raw_value(), op: CompareAtomicOp::CswapGt.raw_value(), context: old(context)@ }),
            *final(context) == *old(context),
    {
        let desc = result_slice.desc();
        self.compare_atomic_swap_gt_to_triggered(mr_slice.as_slice(), Some(mr_slice.desc()), compare_slice.as_slice(), Some(compare_slice.desc()), result_slice.as_mut_slice(), Some(desc), dest_addr, mem_addr, mapped_key, context)
    }

    fn compare_atomic_mswap_mr_to_triggered<T: AsFiType>(&self, mr_slice: &MemoryRegionSlice<T>, compare_slice: &MemoryRegionSlice<T>, result_slice: &MemoryRegionSliceMut<T>, dest_addr: &MappedAddress, mem_addr: RemoteMemoryAddress<T>, mapped_key: &MappedMemoryRegionKey, context: &mut TriggeredContext) -> (r: AtomicCall)
        ensures
            r == (AtomicCall::CompareAtomic { ep: self.ep_fid(), count: mr_slice.data()@.len() as usize, desc: mr_slice.desc_spec()@, compare_desc: compare_slice.desc_spec()@, result_desc: result_slice.desc_spec()@, dest_addr: dest_addr@, addr: mem_addr@, key: mapped_key@, datatype: T::fi_datatype().raw_value(), op: CompareAtomicOp::Mswap.raw_value(), context: old(context)@ }),
            *final(context) == *old(context),
    {
        let desc = result_slice.desc();
        self.compare_atomic_mswap_to_triggered(mr_slice.as_slice(), Some(mr_slice.desc()), compare_slice.as_slice(), Some(compare_slice.desc()), result_slice.as_mut_slice(), Some(desc), dest_addr, mem_addr, mapped_key, context)
    }
}

impl AtomicCASEpMrSlice for ConnectionlessEndpoint {}

/// Compare-and-swap operations on a connected endpoint whose buffers lie in registered memory regions.
pub trait ConnectedAtomicCASEpMrSlice: ConnectedAtomicCASEp {
    fn compare_atomic_swap_mr<T: AsFiType>(&self, mr_slice: &MemoryRegionSlice<T>, compare_slice: &MemoryRegionSlice<T>, result_slice: &MemoryRegionSliceMut<T>, mem_addr: RemoteMemoryAddress<T>, mapped_key: &MappedMemoryRegionKey) -> (r: AtomicCall)
        ensures
            r == (AtomicCall::CompareAtomic { ep: self.ep_fid(), count: mr_slice.data()@.len() as usize, desc: mr_slice.desc_spec()@, compare_desc: compare_slice.desc_spec()@, result_desc: result_slice.desc_spec()@, dest_addr: FI_ADDR_UNSPEC, addr: mem_addr@, key: mapped_key@, datatype: T::fi_datatype().raw_value(), op: CompareAtomicOp::Cswap.raw_value(), context: 0 }),
    {
        let desc = result_slice.desc();
        self.compare_atomic_swap(mr_slice.as_slice(), Some(mr_slice.desc()), compare_slice.as_slice(), Some(compare_slice.desc()), result_slice.as_mut_slice(), Some(desc), mem_addr, mapped_key)
    }

    fn compare_atomic_swap_ne_mr<T: AsFiType>(&self, mr_slice: &MemoryRegionSlice<T>, compare_slice: &MemoryRegionSlice<T>, result_slice: &MemoryRegionSliceMut<T>, mem_addr: RemoteMemoryAddress<T>, mapped_key: &MappedMemoryRegionKey) -> (r: AtomicCall)
        ensures
            r == (AtomicCall::CompareAtomic { ep: self.ep_fid(), count: mr_slice.data()@.len() as usize, desc: mr_slice.desc_spec()@, compare_desc: compare_slice.desc_spec()@, result_desc: result_slice.desc_spec()@, dest_addr: FI_ADDR_UNSPEC, addr: mem_addr@, key: mapped_key@, datatype: T::fi_datatype().raw_value(), op: CompareAtomicOp::CswapNe.raw_value(), context: 0 }),
    {
        let desc = result_slice.desc();
        self.compare_atomic_swap_ne(mr_slice.as_slice(), Some(mr_slice.desc()), compare_slice.as_slice(), Some(compare_slice.desc()), result_slice.as_mut_slice(), Some(desc), mem_addr, mapped_key)
    }

    fn compare_atomic_swap_le_mr<T: AsFiType>(&self, mr_slice: &MemoryRegionSlice<T>, compare_slice: &MemoryRegionSlice<T>, result_slice: &MemoryRegionSliceMut<T>, mem_addr: RemoteMemoryAddress<T>, mapped_key: &MappedMemoryRegionKey) -> (r: AtomicCall)
        ensures
            r == (AtomicCall::CompareAtomic { ep: self.ep_fid(), count: mr_slice.data()@.len() as usize, desc: mr_slice.desc_spec()@, compare_desc: compare_slice.desc_spec()@, result_desc: result_slice.desc_spec()@, dest_addr: FI_ADDR_UNSPEC, addr: mem_addr@, key: mapped_key@, datatype: T::fi_datatype().raw_value(), op: CompareAtomicOp::CswapLe.raw_value(), context: 0 }),
    {
        let desc = result_slice.desc();
        self.compare_atomic_swap_le(mr_slice.as_slice(), Some(mr_slice.desc()), compare_slice.as_slice(), Some(compare_slice.desc()), result_slice.as_mut_slice(), Some(desc), mem_addr, mapped_key)
    }

    fn compare_atomic_swap_lt_mr<T: AsFiType>(&self, mr_slice: &MemoryRegionSlice<T>, compare_slice: &MemoryRegionSlice<T>, result_slice: &MemoryRegionSliceMut<T>, mem_addr: RemoteMemoryAddress<T>, mapped_key: &MappedMemoryRegionKey) -> (r: AtomicCall)
        ensures
            r == (AtomicCall::CompareAtomic { ep: self.ep_fid(), count: mr_slice.data()@.len() as usize, desc: mr_slice.desc_spec()@, compare_desc: compare_slice.desc_spec()@, result_desc: result_slice.desc_spec()@, dest_addr: FI_ADDR_UNSPEC, addr: mem_addr@, key: mapped_key@, datatype: T::fi_datatype().raw_value(), op: CompareAtomicOp::CswapLt.raw_value(), context: 0 }),
    {
        let desc = result_slice.desc();
        self.compare_atomic_swap_lt(mr_slice.as_slice(), Some(mr_slice.desc()), compare_slice.as_slice(), Some(compare_slice.desc()), result_slice.as_mut_slice(), Some(desc), mem_addr, mapped_key)
    }

    fn compare_atomic_swap_ge_mr<T: AsFiType>(&self, mr_slice: &MemoryRegionSlice<T>, compare_slice: &MemoryRegionSlice<T>, result_slice: &MemoryRegionSliceMut<T>, mem_addr: RemoteMemoryAddress<T>, mapped_key: &MappedMemoryRegionKey) -> (r: AtomicCall)
        ensures
            r == (AtomicCall::CompareAtomic { ep: self.ep_fid(), count: mr_slice.data()@.len() as usize, desc: mr_slice.desc_spec()@, compare_desc: compare_slice.desc_spec()@, result_desc: result_slice.desc_spec()@, dest_addr: FI_ADDR_UNSPEC, addr: mem_addr@, key: mapped_key@, datatype: T::fi_datatype().raw_value(), op: CompareAtomicOp::CswapGe.raw_value(), context: 0 }),
    {
        let desc = result_slice.desc();
        self.compare_atomic_swap_ge(mr_slice.as_slice(), Some(mr_slice.desc()), compare_slice.as_slice(), Some(compare_slice.desc()), result_slice.as_mut_slice(), Some(desc), mem_addr, mapped_key)
    }

    fn compare_atomic_swap_gt_mr<T: AsFiType>(&self, mr_slice: &MemoryRegionSlice<T>, compare_slice: &MemoryRegionSlice<T>, result_slice: &MemoryRegionSliceMut<T>, mem_addr: RemoteMemoryAddress<T>, mapped_key: &MappedMemoryRegionKey) -> (r: AtomicCall)
        ensures
            r == (AtomicCall::CompareAtomic { ep: self.ep_fid(), count: mr_slice.data()@.len() as usize, desc: mr_slice.desc_spec()@, compare_desc: compare_slice.desc_spec()@, result_desc: result_slice.desc_spec()@, dest_addr: FI_ADDR_UNSPEC, addr: mem_addr@, key: mapped_key@, datatype: T::fi_datatype().raw_value(), op: CompareAtomicOp::CswapGt.raw_value(), context: 0 }),
    {
        let desc = result_slice.desc();
        self.compare_atomic_swap_gt(mr_slice.as_slice(), Some(mr_slice.desc()), compare_slice.as_slice(), Some(compare_slice.desc()), result_slice.as_mut_slice(), Some(desc), mem_addr, mapped_key)
    }

    fn compare_atomic_mswap_mr<T: AsFiType>(&self, mr_slice: &MemoryRegionSlice<T>, compare_slice: &MemoryRegionSlice<T>, result_slice: &MemoryRegionSliceMut<T>, mem_addr: RemoteMemoryAddress<T>, mapped_key: &MappedMemoryRegionKey) -> (r: AtomicCall)
        ensures
            r == (AtomicCall::CompareAtomic { ep: self.ep_fid(), count: mr_slice.data()@.len() as usize, desc: mr_slice.desc_spec()@, compare_desc: compare_slice.desc_spec()@, result_desc: result_slice.desc_spec()@, dest_addr: FI_ADDR_UNSPEC, addr: mem_addr@, key: mapped_key@, datatype: T::fi_datatype().raw_value(), op: CompareAtomicOp::Mswap.raw_value(), context: 0 }),
    {
        let desc = result_slice.desc();
        self.compare_atomic_mswap(mr_slice.as_slice(), Some(mr_slice.desc()), compare_slice.as_slice(), Some(compare_slice.desc()), result_slice.as_mut_slice(), Some(desc), mem_addr, mapped_key)
    }

    fn compare_atomic_swap_mr_with_context<T: AsFiType>(&self, mr_slice: &MemoryRegionSlice<T>, compare_slice: &MemoryRegionSlice<T>, result_slice: &MemoryRegionSliceMut<T>, mem_addr: RemoteMemoryAddress<T>, mapped_key: &MappedMemoryRegionKey, context: &mut Context) -> (r: AtomicCall)
        ensures
            r == (AtomicCall::CompareAtomic { ep: self.ep_fid(), count: mr_slice.data()@.len() as usize, desc: mr_slice.desc_spec()@, compare_desc: compare_slice.desc_spec()@, result_desc: result_slice.desc_spec()@, dest_addr: FI_ADDR_UNSPEC, addr: mem_addr@, key: mapped_key@, datatype: T::fi_datatype().raw_value(), op: CompareAtomicOp::Cswap.raw_value(), context: old(context)@ }),
            *final(context) == *old(context),
    {
        let desc = result_slice.desc();
        self.compare_atomic_swap_with_context(mr_slice.as_slice(), Some(mr_slice.desc()), compare_slice.as_slice(), Some(compare_slice.desc()), result_slice.as_mut_slice(), Some(desc), mem_addr, mapped_key, context)
    }

    fn compare_atomic_swap_ne_mr_with_context<T: AsFiType>(&self, mr_slice: &MemoryRegionSlice<T>, compare_slice: &MemoryRegionSlice<T>, result_slice: &MemoryRegionSliceMut<T>, mem_addr: RemoteMemoryAddress<T>, mapped_key: &MappedMemoryRegionKey, context: &mut Context) -> (r: AtomicCall)
        ensures
            r == (AtomicCall::CompareAtomic { ep: self.ep_fid(), count: mr_slice.data()@.len() as usize, desc: mr_slice.desc_spec()@, compare_desc: compare_slice.desc_spec()@, result_desc: result_slice.desc_spec()@, dest_addr: FI_ADDR_UNSPEC, addr: mem_addr@, key: mapped_key@, datatype: T::fi_datatype().raw_value(), op: CompareAtomicOp::CswapNe.raw_value(), context: old(context)@ }),
            *final(context) == *old(context),
    {
        let desc = result_slice.desc();
        self.compare_atomic_swap_ne_with_context(mr_slice.as_slice(), Some(mr_slice.desc()), compare_slice.as_slice(), Some(compare_slice.desc()), result_slice.as_mut_slice(), Some(desc), mem_addr, mapped_key, context)
    }

    fn compare_atomic_swap_le_mr_with_context<T: AsFiType>(&self, mr_slice: &MemoryRegionSlice<T>, compare_slice: &MemoryRegionSlice<T>, result_slice: &MemoryRegionSliceMut<T>, mem_addr: RemoteMemoryAddress<T>, mapped_key: &MappedMemoryRegionKey, context: &mut Context) -> (r: AtomicCall)
        ensures
            r == (AtomicCall::CompareAtomic { ep: self.ep_fid(), count: mr_slice.data()@.len() as usize, desc: mr_slice.desc_spec()@, compare_desc: compare_slice.desc_spec()@, result_desc: result_slice.desc_spec()@, dest_addr: FI_ADDR_UNSPEC, addr: mem_addr@, key: mapped_key@, datatype: T::fi_datatype().raw_value(), op: CompareAtomicOp::CswapLe.raw_value(), context: old(context)@ }),
            *final(context) == *old(context),
    {
        let desc = result_slice.desc();
        self.compare_atomic_swap_le_with_context(mr_slice.as_slice(), Some(mr_slice.desc()), compare_slice.as_slice(), Some(compare_slice.desc()), result_slice.as_mut_slice(), Some(desc), mem_addr, mapped_key, context)
    }

    fn compare_atomic_swap_lt_mr_with_context<T: AsFiType>(&self, mr_slice: &MemoryRegionSlice<T>, compare_slice: &MemoryRegionSlice<T>, result_slice: &MemoryRegionSliceMut<T>, mem_addr: RemoteMemoryAddress<T>, mapped_key: &MappedMemoryRegionKey, context: &mut Context) -> (r: AtomicCall)
        ensures
            r == (AtomicCall::CompareAtomic { ep: self.ep_fid(), count: mr_slice.data()@.len() as usize, desc: mr_slice.desc_spec()@, compare_desc: compare_slice.desc_spec()@, result_desc: result_slice.desc_spec()@, dest_addr: FI_ADDR_UNSPEC, addr: mem_addr@, key: mapped_key@, datatype: T::fi_datatype().raw_value(), op: CompareAtomicOp::CswapLt.raw_value(), context: old(context)@ }),
            *final(context) == *old(context),
    {
        let desc = result_slice.desc();
        self.compare_atomic_swap_lt_with_context(mr_slice.as_slice(), Some(mr_slice.desc()), compare_slice.as_slice(), Some(compare_slice.desc()), result_slice.as_mut_slice(), Some(desc), mem_addr, mapped_key, context)
    }

    fn compare_atomic_swap_ge_mr_with_context<T: AsFiType>(&self, mr_slice: &MemoryRegionSlice<T>, compare_slice: &MemoryRegionSlice<T>, result_slice: &MemoryRegionSliceMut<T>, mem_addr: RemoteMemoryAddress<T>, mapped_key: &MappedMemoryRegionKey, context: &mut Context) -> (r: AtomicCall)
        ensures
            r == (AtomicCall::CompareAtomic { ep: self.ep_fid(), count: mr_slice.data()@.len() as usize, desc: mr_slice.desc_spec()@, compare_desc: compare_slice.desc_spec()@, result_desc: result_slice.desc_spec()@, dest_addr: FI_ADDR_UNSPEC, addr: mem_addr@, key: mapped_key@, datatype: T::fi_datatype().raw_value(), op: CompareAtomicOp::CswapGe.raw_value(), context: old(context)@ }),
            *final(context) == *old(context),
    {
        let desc = result_slice.desc();
        self.compare_atomic_swap_ge_with_context(mr_slice.as_slice(), Some(mr_slice.desc()), compare_slice.as_slice(), Some(compare_slice.desc()), result_slice.as_mut_slice(), Some(desc), mem_addr, mapped_key, context)
    }

    fn compare_atomic_swap_gt_mr_with_context<T: AsFiType>(&self, mr_slice: &MemoryRegionSlice<T>, compare_slice: &MemoryRegionSlice<T>, result_slice: &MemoryRegionSliceMut<T>, mem_addr: RemoteMemoryAddress<T>, mapped_key: &MappedMemoryRegionKey, context: &mut Context) -> (r: AtomicCall)
        ensures
            r == (AtomicCall::CompareAtomic { ep: self.ep_fid(), count: mr_slice.data()@.len() as usize, desc: mr_slice.desc_spec()@, compare_desc: compare_slice.desc_spec()@, result_desc: result_slice.desc_spec()@, dest_addr: FI_ADDR_UNSPEC, addr: mem_addr@, key: mapped_key@, datatype: T::fi_datatype().raw_value(), op: CompareAtomicOp::CswapGt.raw_value(), context: old(context)@ }),
            *final(context) == *old(context),
    {
        let desc = result_slice.desc();
        self.compare_atomic_swap_gt_with_context(mr_slice.as_slice(), Some(mr_slice.desc()), compare_slice.as_slice(), Some(compare_slice.desc()), result_slice.as_mut_slice(), Some(desc), mem_addr, mapped_key, context)
    }

    fn compare_atomic_mswap_mr_with_context<T: AsFiType>(&self, mr_slice: &MemoryRegionSlice<T>, compare_slice: &MemoryRegionSlice<T>, result_slice: &MemoryRegionSliceMut<T>, mem_addr: RemoteMemoryAddress<T>, mapped_key: &MappedMemoryRegionKey, context: &mut Context) -> (r: AtomicCall)
        ensures
            r == (AtomicCall::CompareAtomic { ep: self.ep_fid(), count: mr_slice.data()@.len() as usize, desc: mr_slice.desc_spec()@, compare_desc: compare_slice.desc_spec()@, result_desc: result_slice.desc_spec()@, dest_addr: FI_ADDR_UNSPEC, addr: mem_addr@, key: mapped_key@, datatype: T::fi_datatype().raw_value(), op: CompareAtomicOp::Mswap.raw_value(), context: old(context)@ }),
            *final(context) == *old(context),
    {
        let desc = result_slice.desc();
        self.compare_atomic_mswap_with_context(mr_slice.as_slice(), Some(mr_slice.desc()), compare_slice.as_slice(), Some(compare_slice.desc()), result_slice.as_mut_slice(), Some(desc), mem_addr, mapped_key, context)
    }

    fn compare_atomic_swap_mr_triggered<T: AsFiType>(&self, mr_slice: &MemoryRegionSlice<T>, compare_slice: &MemoryRegionSlice<T>, result_slice: &MemoryRegionSliceMut<T>, mem_addr: RemoteMemoryAddress<T>, mapped_key: &MappedMemoryRegionKey, context: &mut TriggeredContext) -> (r: AtomicCall)
        ensures
            r == (AtomicCall::CompareAtomic { ep: self.ep_fid(), count: mr_slice.data()@.len() as usize, desc: mr_slice.desc_spec()@, compare_desc: compare_slice.desc_spec()@, result_desc: result_slice.desc_spec()@, dest_addr: FI_ADDR_UNSPEC, addr: mem_addr@, key: mapped_key@, datatype: T::fi_datatype().raw_value(), op: CompareAtomicOp::Cswap.raw_value(), context: old(context)@ }),
            *final(context) == *old(context),
    {
        let desc = result_slice.desc();
        self.compare_atomic_swap_triggered(mr_slice.as_slice(), Some(mr_slice.desc()), compare_slice.as_slice(), Some(compare_slice.desc()), result_slice.as_mut_slice(), Some(desc), mem_addr, mapped_key, context)
    }

    fn compare_atomic_swap_ne_mr_triggered<T: AsFiType>(&self, mr_slice: &MemoryRegionSlice<T>, compare_slice: &MemoryRegionSlice<T>, result_slice: &MemoryRegionSliceMut<T>, mem_addr: RemoteMemoryAddress<T>, mapped_key: &MappedMemoryRegionKey, context: &mut TriggeredContext) -> (r: AtomicCall)
        ensures
            r == (AtomicCall::CompareAtomic { ep: self.ep_fid(), count: mr_slice.data()@.len() as usize, desc: mr_slice.desc_spec()@, compare_desc: compare_slice.desc_spec()@, result_desc: result_slice.desc_spec()@, dest_addr: FI_ADDR_UNSPEC, addr: mem_addr@, key: mapped_key@, datatype: T::fi_datatype().raw_value(), op: CompareAtomicOp::CswapNe.raw_value(), context: old(context)@ }),
            *final(context) == *old(context),
    {
        let desc = result_slice.desc();
        self.compare_atomic_swap_ne_triggered(mr_slice.as_slice(), Some(mr_slice.desc()), compare_slice.as_slice(), Some(compare_slice.desc()), result_slice.as_mut_slice(), Some(desc), mem_addr, mapped_key, context)
    }

    fn compare_atomic_swap_le_mr_triggered<T: AsFiType>(&self, mr_slice: &MemoryRegionSlice<T>, compare_slice: &MemoryRegionSlice<T>, result_slice: &MemoryRegionSliceMut<T>, mem_addr: RemoteMemoryAddress<T>, mapped_key: &MappedMemoryRegionKey, context: &mut TriggeredContext) -> (r: AtomicCall)
        ensures
            r == (AtomicCall::CompareAtomic { ep: self.ep_fid(), count: mr_slice.data()@.len() as usize, desc: mr_slice.desc_spec()@, compare_desc: compare_slice.desc_spec()@, result_desc: result_slice.desc_spec()@, dest_addr: FI_ADDR_UNSPEC, addr: mem_addr@, key: mapped_key@, datatype: T::fi_datatype().raw_value(), op: CompareAtomicOp::CswapLe.raw_value(), context: old(context)@ }),
            *final(context) == *old(context),
    {
        let desc = result_slice.desc();
        self.compare_atomic_swap_le_triggered(mr_slice.as_slice(), Some(mr_slice.desc()), compare_slice.as_slice(), Some(compare_slice.desc()), result_slice.as_mut_slice(), Some(desc), mem_addr, mapped_key, context)
    }

    fn compare_atomic_swap_lt_mr_triggered<T: AsFiType>(&self, mr_slice: &MemoryRegionSlice<T>, compare_slice: &MemoryRegionSlice<T>, result_slice: &MemoryRegionSliceMut<T>, mem_addr: RemoteMemoryAddress<T>, mapped_key: &MappedMemoryRegionKey, context: &mut TriggeredContext) -> (r: AtomicCall)
        ensures
            r == (AtomicCall::CompareAtomic { ep: self.ep_fid(), count: mr_slice.data()@.len() as usize, desc: mr_slice.desc_spec()@, compare_desc: compare_slice.desc_spec()@, result_desc: result_slice.desc_spec()@, dest_addr: FI_ADDR_UNSPEC, addr: mem_addr@, key: mapped_key@, datatype: T::fi_datatype().raw_value(), op: CompareAtomicOp::CswapLt.raw_value(), context: old(context)@ }),
            *final(context) == *old(context),
    {
        let desc = result_slice.desc();
        self.compare_atomic_swap_lt_triggered(mr_slice.as_slice(), Some(mr_slice.desc()), compare_slice.as_slice(), Some(compare_slice.desc()), result_slice.as_mut_slice(), Some(desc), mem_addr, mapped_key, context)
    }

    fn compare_atomic_swap_ge_mr_triggered<T: AsFiType>(&self, mr_slice: &MemoryRegionSlice<T>, compare_slice: &MemoryRegionSlice<T>, result_slice: &MemoryRegionSliceMut<T>, mem_addr: RemoteMemoryAddress<T>, mapped_key: &MappedMemoryRegionKey, context: &mut TriggeredContext) -> (r: AtomicCall)
        ensures
            r == (AtomicCall::CompareAtomic { ep: self.ep_fid(), count: mr_slice.data()@.len() as usize, desc: mr_slice.desc_spec()@, compare_desc: compare_slice.desc_spec()@, result_desc: result_slice.desc_spec()@, dest_addr: FI_ADDR_UNSPEC, addr: mem_addr@, key: mapped_key@, datatype: T::fi_datatype().raw_value(), op: CompareAtomicOp::CswapGe.raw_value(), context: old(context)@ }),
            *final(context) == *old(context),
    {
        let desc = result_slice.desc();
        self.compare_atomic_swap_ge_triggered(mr_slice.as_slice(), Some(mr_slice.desc()), compare_slice.as_slice(), Some(compare_slice.desc()), result_slice.as_mut_slice(), Some(desc), mem_addr, mapped_key, context)
    }

    fn compare_atomic_swap_gt_mr_triggered<T: AsFiType>(&self, mr_slice: &MemoryRegionSlice<T>, compare_slice: &MemoryRegionSlice<T>, result_slice: &MemoryRegionSliceMut<T>, mem_addr: RemoteMemoryAddress<T>, mapped_key: &MappedMemoryRegionKey, context: &mut TriggeredContext) -> (r: AtomicCall)
        ensures
            r == (AtomicCall::CompareAtomic { ep: self.ep_fid(), count: mr_slice.data()@.len() as usize, desc: mr_slice.desc_spec()@, compare_desc: compare_slice.desc_spec()@, result_desc: result_slice.desc_spec()@, dest_addr: FI_ADDR_UNSPEC, addr: mem_addr@, key: mapped_key@, datatype: T::fi_datatype().raw_value(), op: CompareAtomicOp::CswapGt.raw_value(), context: old(context)@ }),
            *final(context) == *old(context),
    {
        let desc = result_slice.desc();
        self.compare_atomic_swap_gt_triggered(mr_slice.as_slice(), Some(mr_slice.desc()), compare_slice.as_slice(), Some(compare_slice.desc()), result_slice.as_mut_slice(), Some(desc), mem_addr, mapped_key, context)
    }

    fn compare_atomic_mswap_mr_triggered<T: AsFiType>(&self, mr_slice: &MemoryRegionSlice<T>, compare_slice: &MemoryRegionSlice<T>, result_slice: &MemoryRegionSliceMut<T>, mem_addr: RemoteMemoryAddress<T>, mapped_key: &MappedMemoryRegionKey, context: &mut TriggeredContext) -> (r: AtomicCall)
        ensures
            r == (AtomicCall::CompareAtomic { ep: self.ep_fid(), count: mr_slice.data()@.len() as usize, desc: mr_slice.desc_spec()@, compare_desc: compare_slice.desc_spec()@, result_desc: result_slice.desc_spec()@, dest_addr: FI_ADDR_UNSPEC, addr: mem_addr@, key: mapped_key@, datatype: T::fi_datatype().raw_value(), op: CompareAtomicOp::Mswap.raw_value(), context: old(context)@ }),
            *final(context) == *old(context),
    {
        let desc = result_slice.desc();
        self.compare_atomic_mswap_triggered(mr_slice.as_slice(), Some(mr_slice.desc()), compare_slice.as_slice(), Some(compare_slice.desc()), result_slice.as_mut_slice(), Some(desc), mem_addr, mapped_key, context)
    }
}

impl ConnectedAtomicCASEpMrSlice for ConnectedEndpoint {}

/// Compare-and-swap operations on a remote run of values named by its address and key.
pub trait AtomicCASRemoteMemAddrSliceEp: AtomicCASEp {
    fn compare_atomic_swap_mr_slice_to<T: AsFiType>(&self, buf: &[T], desc: Option<MemoryRegionDesc>, compare: &[T], compare_desc: Option<MemoryRegionDesc>, result: &[T], result_desc: Option<MemoryRegionDesc>, dest_addr: &MappedAddress, dest_slice: &RemoteMemAddrSliceMut<T>) -> (r: AtomicCall)
        ensures
            r == (AtomicCall::CompareAtomic { ep: self.ep_fid(), count: buf@.len() as usize, desc: owned_desc_value(desc), compare_desc: owned_desc_value(compare_desc), result_desc: owned_desc_value(result_desc), dest_addr: dest_addr@, addr: dest_slice.mem_address_spec(), key: dest_slice.key_spec(), datatype: T::fi_datatype().raw_value(), op: CompareAtomicOp::Cswap.raw_value(), context: 0 }),
    {
        self.compare_atomic_swap_to(buf, desc, compare, compare_desc, result, result_desc, dest_addr, dest_slice.mem_address(), dest_slice.key())
    }

    fn compare_atomic_swap_ne_mr_slice_to<T: AsFiType>(&self, buf: &[T], desc: Option<MemoryRegionDesc>, compare: &[T], compare_desc: Option<MemoryRegionDesc>, result: &[T], result_desc: Option<MemoryRegionDesc>, dest_addr: &MappedAddress, dest_slice: &RemoteMemAddrSliceMut<T>) -> (r: AtomicCall)
        ensures
            r == (AtomicCall::CompareAtomic { ep: self.ep_fid(), count: buf@.len() as usize, desc: owned_desc_value(desc), compare_desc: owned_desc_value(compare_desc), result_desc: owned_desc_value(result_desc), dest_addr: dest_addr@, addr: dest_slice.mem_address_spec(), key: dest_slice.key_spec(), datatype: T::fi_datatype().raw_value(), op: CompareAtomicOp::CswapNe.raw_value(), context: 0 }),
    {
        self.compare_atomic_swap_ne_to(buf, desc, compare, compare_desc, result, result_desc, dest_addr, dest_slice.mem_address(), dest_slice.key())
    }

    fn compare_atomic_swap_le_mr_slice_to<T: AsFiType>(&self, buf: &[T], desc: Option<MemoryRegionDesc>, compare: &[T], compare_desc: Option<MemoryRegionDesc>, result: &[T], result_desc: Option<MemoryRegionDesc>, dest_addr: &MappedAddress, dest_slice: &RemoteMemAddrSliceMut<T>) -> (r: AtomicCall)
        ensures
            r == (AtomicCall::CompareAtomic { ep: self.ep_fid(), count: buf@.len() as usize, desc: owned_desc_value(desc), compare_desc: owned_desc_value(compare_desc), result_desc: owned_desc_value(result_desc), dest_addr: dest_addr@, addr: dest_slice.mem_address_spec(), key: dest_slice.key_spec(), datatype: T::fi_datatype().raw_value(), op: CompareAtomicOp::CswapLe.raw_value(), context: 0 }),
    {
        self.compare_atomic_swap_le_to(buf, desc, compare, compare_desc, result, result_desc, dest_addr, dest_slice.mem_address(), dest_slice.key())
    }

    fn compare_atomic_swap_lt_mr_slice_to<T: AsFiType>(&self, buf: &[T], desc: Option<MemoryRegionDesc>, compare: &[T], compare_desc: Option<MemoryRegionDesc>, result: &[T], result_desc: Option<MemoryRegionDesc>, dest_addr: &MappedAddress, dest_slice: &RemoteMemAddrSliceMut<T>) -> (r: AtomicCall)
        ensures
            r == (AtomicCall::CompareAtomic { ep: self.ep_fid(), count: buf@.len() as usize, desc: owned_desc_value(desc), compare_desc: owned_desc_value(compare_desc), result_desc: owned_desc_value(result_desc), dest_addr: dest_addr@, addr: dest_slice.mem_address_spec(), key: dest_slice.key_spec(), datatype: T::fi_datatype().raw_value(), op: CompareAtomicOp::CswapLt.raw_value(), context: 0 }),
    {
        self.compare_atomic_swap_lt_to(buf, desc, compare, compare_desc, result, result_desc, dest_addr, dest_slice.mem_address(), dest_slice.key())
    }

    fn compare_atomic_swap_ge_mr_slice_to<T: AsFiType>(&self, buf: &[T], desc: Option<MemoryRegionDesc>, compare: &[T], compare_desc: Option<MemoryRegionDesc>, result: &[T], result_desc: Option<MemoryRegionDesc>, dest_addr: &MappedAddress, dest_slice: &RemoteMemAddrSliceMut<T>) -> (r: AtomicCall)
        ensures
            r == (AtomicCall::CompareAtomic { ep: self.ep_fid(), count: buf@.len() as usize, desc: owned_desc_value(desc), compare_desc: owned_desc_value(compare_desc), result_desc: owned_desc_value(result_desc), dest_addr: dest_addr@, addr: dest_slice.mem_address_spec(), key: dest_slice.key_spec(), datatype: T::fi_datatype().raw_value(), op: CompareAtomicOp::CswapGe.raw_value(), context: 0 }),
    {
        self.compare_atomic_swap_ge_to(buf, desc, compare, compare_desc, result, result_desc, dest_addr, dest_slice.mem_address(), dest_slice.key())
    }

    fn compare_atomic_swap_gt_mr_slice_to<T: AsFiType>(&self, buf: &[T], desc: Option<MemoryRegionDesc>, compare: &[T], compare_desc: Option<MemoryRegionDesc>, result: &[T], result_desc: Option<MemoryRegionDesc>, dest_addr: &MappedAddress, dest_slice: &RemoteMemAddrSliceMut<T>) -> (r: AtomicCall)
        ensures
            r == (AtomicCall::CompareAtomic { ep: self.ep_fid(), count: buf@.len() as usize, desc: owned_desc_value(desc), compare_desc: owned_desc_value(compare_desc), result_desc: owned_desc_value(result_desc), dest_addr: dest_addr@, addr: dest_slice.mem_address_spec(), key: dest_slice.key_spec(), datatype: T::fi_datatype().raw_value(), op: CompareAtomicOp::CswapGt.raw_value(), context: 0 }),
    {
        self.compare_atomic_swap_gt_to(buf, desc, compare, compare_desc, result, result_desc, dest_addr, dest_slice.mem_address(), dest_slice.key())
    }

    fn compare_atomic_mswap_mr_slice_to<T: AsFiType>(&self, buf: &[T], desc: Option<MemoryRegionDesc>, compare: &[T], compare_desc: Option<MemoryRegionDesc>, result: &[T], result_desc: Option<MemoryRegionDesc>, dest_addr: &MappedAddress, dest_slice: &RemoteMemAddrSliceMut<T>) -> (r: AtomicCall)
        ensures
            r == (AtomicCall::CompareAtomic { ep: self.ep_fid(), count: buf@.len() as usize, desc: owned_desc_value(desc), compare_desc: owned_desc_value(compare_desc), result_desc: owned_desc_value(result_desc), dest_addr: dest_addr@, addr: dest_slice.mem_address_spec(), key: dest_slice.key_spec(), datatype: T::fi_datatype().raw_value(), op: CompareAtomicOp::Mswap.raw_value(), context: 0 }),
    {
        self.compare_atomic_mswap_to(buf, desc, compare, compare_desc, result, result_desc, dest_addr, dest_slice.mem_address(), dest_slice.key())
    }

    fn compare_atomic_swap_mr_slice_to_with_context<T: AsFiType>(&self, buf: &[T], desc: Option<MemoryRegionDesc>, compare: &[T], compare_desc: Option<MemoryRegionDesc>, result: &[T], result_desc: Option<MemoryRegionDesc>, dest_addr: &MappedAddress, dest_slice: &RemoteMemAddrSliceMut<T>, context: &mut Context) -> (r: AtomicCall)
        ensures
            r == (AtomicCall::CompareAtomic { ep: self.ep_fid(), count: buf@.len() as usize, desc: owned_desc_value(desc), compare_desc: owned_desc_value(compare_desc), result_desc: owned_desc_value(result_desc), dest_addr: dest_addr@, addr: dest_slice.mem_address_spec(), key: dest_slice.key_spec(), datatype: T::fi_datatype().raw_value(), op: CompareAtomicOp::Cswap.raw_value(), context: old(context)@ }),
            *final(context) == *old(context),
    {
        self.compare_atomic_swap_to_with_context(buf, desc, compare, compare_desc, result, result_desc, dest_addr, dest_slice.mem_address(), dest_slice.key(), context)
    }

    fn compare_atomic_swap_ne_mr_slice_to_with_context<T: AsFiType>(&self, buf: &[T], desc: Option<MemoryRegionDesc>, compare: &[T], compare_desc: Option<MemoryRegionDesc>, result: &[T], result_desc: Option<MemoryRegionDesc>, dest_addr: &MappedAddress, dest_slice: &RemoteMemAddrSliceMut<T>, context: &mut Context) -> (r: AtomicCall)
        ensures
            r == (AtomicCall::CompareAtomic { ep: self.ep_fid(), count: buf@.len() as usize, desc: owned_desc_value(desc), compare_desc: owned_desc_value(compare_desc), result_desc: owned_desc_value(result_desc), dest_addr: dest_addr@, addr: dest_slice.mem_address_spec(), key: dest_slice.key_spec(), datatype: T::fi_datatype().raw_value(), op: CompareAtomicOp::CswapNe.raw_value(), context: old(context)@ }),
            *final(context) == *old(context),
    {
        self.compare_atomic_swap_ne_to_with_context(buf, desc, compare, compare_desc, result, result_desc, dest_addr, dest_slice.mem_address(), dest_slice.key(), context)
    }

    fn compare_atomic_swap_le_mr_slice_to_with_context<T: AsFiType>(&self, buf: &[T], desc: Option<MemoryRegionDesc>, compare: &[T], compare_desc: Option<MemoryRegionDesc>, result: &[T], result_desc: Option<MemoryRegionDesc>, dest_addr: &MappedAddress, dest_slice: &RemoteMemAddrSliceMut<T>, context: &mut Context) -> (r: AtomicCall)
        ensures
            r == (AtomicCall::CompareAtomic { ep: self.ep_fid(), count: buf@.len() as usize, desc: owned_desc_value(desc), compare_desc: owned_desc_value(compare_desc), result_desc: owned_desc_value(result_desc), dest_addr: dest_addr@, addr: dest_slice.mem_address_spec(), key: dest_slice.key_spec(), datatype: T::fi_datatype().raw_value(), op: CompareAtomicOp::CswapLe.raw_value(), context: old(context)@ }),
            *final(context) == *old(context),
    {
        self.compare_atomic_swap_le_to_with_context(buf, desc, compare, compare_desc, result, result_desc, dest_addr, dest_slice.mem_address(), dest_slice.key(), context)
    }

    fn compare_atomic_swap_lt_mr_slice_to_with_context<T: AsFiType>(&self, buf: &[T], desc: Option<MemoryRegionDesc>, compare: &[T], compare_desc: Option<MemoryRegionDesc>, result: &[T], result_desc: Option<MemoryRegionDesc>, dest_addr: &MappedAddress, dest_slice: &RemoteMemAddrSliceMut<T>, context: &mut Context) -> (r: AtomicCall)
        ensures
            r == (AtomicCall::CompareAtomic { ep: self.ep_fid(), count: buf@.len() as usize, desc: owned_desc_value(desc), compare_desc: owned_desc_value(compare_desc), result_desc: owned_desc_value(result_desc), dest_addr: dest_addr@, addr: dest_slice.mem_address_spec(), key: dest_slice.key_spec(), datatype: T::fi_datatype().raw_value(), op: CompareAtomicOp::CswapLt.raw_value(), context: old(context)@ }),
            *final(context) == *old(context),
    {
        self.compare_atomic_swap_lt_to_with_context(buf, desc, compare, compare_desc, result, result_desc, dest_addr, dest_slice.mem_address(), dest_slice.key(), context)
    }

    fn compare_atomic_swap_ge_mr_slice_to_with_context<T: AsFiType>(&self, buf: &[T], desc: Option<MemoryRegionDesc>, compare: &[T], compare_desc: Option<MemoryRegionDesc>, result: &[T], result_desc: Option<MemoryRegionDesc>, dest_addr: &MappedAddress, dest_slice: &RemoteMemAddrSliceMut<T>, context: &mut Context) -> (r: AtomicCall)
        ensures
            r == (AtomicCall::CompareAtomic { ep: self.ep_fid(), count: buf@.len() as usize, desc: owned_desc_value(desc), compare_desc: owned_desc_value(compare_desc), result_desc: owned_desc_value(result_desc), dest_addr: dest_addr@, addr: dest_slice.mem_address_spec(), key: dest_slice.key_spec(), datatype: T::fi_datatype().raw_value(), op: CompareAtomicOp::CswapGe.raw_value(), context: old(context)@ }),
            *final(context) == *old(context),
    {
        self.compare_atomic_swap_ge_to_with_context(buf, desc, compare, compare_desc, result, result_desc, dest_addr, dest_slice.mem_address(), dest_slice.key(), context)
    }

    fn compare_atomic_swap_gt_mr_slice_to_with_context<T: AsFiType>(&self, buf: &[T], desc: Option<MemoryRegionDesc>, compare: &[T], compare_desc: Option<MemoryRegionDesc>, result: &[T], result_desc: Option<MemoryRegionDesc>, dest_addr: &MappedAddress, dest_slice: &RemoteMemAddrSliceMut<T>, context: &mut Context) -> (r: AtomicCall)
        ensures
            r == (AtomicCall::CompareAtomic { ep: self.ep_fid(), count: buf@.len() as usize, desc: owned_desc_value(desc), compare_desc: owned_desc_value(compare_desc), result_desc: owned_desc_value(result_desc), dest_addr: dest_addr@, addr: dest_slice.mem_address_spec(), key: dest_slice.key_spec(), datatype: T::fi_datatype().raw_value(), op: CompareAtomicOp::CswapGt.raw_value(), context: old(context)@ }),
            *final(context) == *old(context),
    {
        self.compare_atomic_swap_gt_to_with_context(buf, desc, compare, compare_desc, result, result_desc, dest_addr, dest_slice.mem_address(), dest_slice.key(), context)
    }

    fn compare_atomic_mswap_mr_slice_to_with_context<T: AsFiType>(&self, buf: &[T], desc: Option<MemoryRegionDesc>, compare: &[T], compare_desc: Option<MemoryRegionDesc>, result: &[T], result_desc: Option<MemoryRegionDesc>, dest_addr: &MappedAddress, dest_slice: &RemoteMemAddrSliceMut<T>, context: &mut Context) -> (r: AtomicCall)
        ensures
            r == (AtomicCall::CompareAtomic { ep: self.ep_fid(), count: buf@.len() as usize, desc: owned_desc_value(desc), compare_desc: owned_desc_value(compare_desc), result_desc: owned_desc_value(result_desc), dest_addr: dest_addr@, addr: dest_slice.mem_address_spec(), key: dest_slice.key_spec(), datatype: T::fi_datatype().raw_value(), op: CompareAtomicOp::Mswap.raw_value(), context: old(context)@ }),
            *final(context) == *old(context),
    {
        self.compare_atomic_mswap_to_with_context(buf, desc, compare, compare_desc, result, result_desc, dest_addr, dest_slice.mem_address(), dest_slice.key(), context)
    }

    fn compare_atomic_swap_mr_slice_to_triggered<T: AsFiType>(&self, buf: &[T], desc: Option<MemoryRegionDesc>, compare: &[T], compare_desc: Option<MemoryRegionDesc>, result: &[T], result_desc: Option<MemoryRegionDesc>, dest_addr: &MappedAddress, dest_slice: &RemoteMemAddrSliceMut<T>, context: &mut TriggeredContext) -> (r: AtomicCall)
        ensures
            r == (AtomicCall::CompareAtomic { ep: self.ep_fid(), count: buf@.len() as usize, desc: owned_desc_value(desc), compare_desc: owned_desc_value(compare_desc), result_desc: owned_desc_value(result_desc), dest_addr: dest_addr@, addr: dest_slice.mem_address_spec(), key: dest_slice.key_spec(), datatype: T::fi_datatype().raw_value(), op: CompareAtomicOp::Cswap.raw_value(), context: old(context)@ }),
            *final(context) == *old(context),
    {
        self.compare_atomic_swap_to_triggered(buf, desc, compare, compare_desc, result, result_desc, dest_addr, dest_slice.mem_address(), dest_slice.key(), context)
    }

    fn compare_atomic_swap_ne_mr_slice_to_triggered<T: AsFiType>(&self, buf: &[T], desc: Option<MemoryRegionDesc>, compare: &[T], compare_desc: Option<MemoryRegionDesc>, result: &[T], result_desc: Option<MemoryRegionDesc>, dest_addr: &MappedAddress, dest_slice: &RemoteMemAddrSliceMut<T>, context: &mut TriggeredContext) -> (r: AtomicCall)
        ensures
            r == (AtomicCall::CompareAtomic { ep: self.ep_fid(), count: buf@.len() as usize, desc: owned_desc_value(desc), compare_desc: owned_desc_value(compare_desc), result_desc: owned_desc_value(result_desc), dest_addr: dest_addr@, addr: dest_slice.mem_address_spec(), key: dest_slice.key_spec(), datatype: T::fi_datatype().raw_value(), op: CompareAtomicOp::CswapNe.raw_value(), context: old(context)@ }),
            *final(context) == *old(context),
    {
        self.compare_atomic_swap_ne_to_triggered(buf, desc, compare, compare_desc, result, result_desc, dest_addr, dest_slice.mem_address(), dest_slice.key(), context)
    }

    fn compare_atomic_swap_le_mr_slice_to_triggered<T: AsFiType>(&self, buf: &[T], desc: Option<MemoryRegionDesc>, compare: &[T], compare_desc: Option<MemoryRegionDesc>, result: &[T], result_desc: Option<MemoryRegionDesc>, dest_addr: &MappedAddress, dest_slice: &RemoteMemAddrSliceMut<T>, context: &mut TriggeredContext) -> (r: AtomicCall)
        ensures
            r == (AtomicCall::CompareAtomic { ep: self.ep_fid(), count: buf@.len() as usize, desc: owned_desc_value(desc), compare_desc: owned_desc_value(compare_desc), result_desc: owned_desc_value(result_desc), dest_addr: dest_addr@, addr: dest_slice.mem_address_spec(), key: dest_slice.key_spec(), datatype: T::fi_datatype().raw_value(), op: CompareAtomicOp::CswapLe.raw_value(), context: old(context)@ }),
            *final(context) == *old(context),
    {
        self.compare_atomic_swap_le_to_triggered(buf, desc, compare, compare_desc, result, result_desc, dest_addr, dest_slice.mem_address(), dest_slice.key(), context)
    }

    fn compare_atomic_swap_lt_mr_slice_to_triggered<T: AsFiType>(&self, buf: &[T], desc: Option<MemoryRegionDesc>, compare: &[T], compare_desc: Option<MemoryRegionDesc>, result: &[T], result_desc: Option<MemoryRegionDesc>, dest_addr: &MappedAddress, dest_slice: &RemoteMemAddrSliceMut<T>, context: &mut TriggeredContext) -> (r: AtomicCall)
        ensures
            r == (AtomicCall::CompareAtomic { ep: self.ep_fid(), count: buf@.len() as usize, desc: owned_desc_value(desc), compare_desc: owned_desc_value(compare_desc), result_desc: owned_desc_value(result_desc), dest_addr: dest_addr@, addr: dest_slice.mem_address_spec(), key: dest_slice.key_spec(), datatype: T::fi_datatype().raw_value(), op: CompareAtomicOp::CswapLt.raw_value(), context: old(context)@ }),
            *final(context) == *old(context),
    {
        self.compare_atomic_swap_lt_to_triggered(buf, desc, compare, compare_desc, result, result_desc, dest_addr, dest_slice.mem_address(), dest_slice.key(), context)
    }

    fn compare_atomic_swap_ge_mr_slice_to_triggered<T: AsFiType>(&self, buf: &[T], desc: Option<MemoryRegionDesc>, compare: &[T], compare_desc: Option<MemoryRegionDesc>, result: &[T], result_desc: Option<MemoryRegionDesc>, dest_addr: &MappedAddress, dest_slice: &RemoteMemAddrSliceMut<T>, context: &mut TriggeredContext) -> (r: AtomicCall)
        ensures
            r == (AtomicCall::CompareAtomic { ep: self.ep_fid(), count: buf@.len() as usize, desc: owned_desc_value(desc), compare_desc: owned_desc_value(compare_desc), result_desc: owned_desc_value(result_desc), dest_addr: dest_addr@, addr: dest_slice.mem_address_spec(), key: dest_slice.key_spec(), datatype: T::fi_datatype().raw_value(), op: CompareAtomicOp::CswapGe.raw_value(), context: old(context)@ }),
            *final(context) == *old(context),
    {
        self.compare_atomic_swap_ge_to_triggered(buf, desc, compare, compare_desc, result, result_desc, dest_addr, dest_slice.mem_address(), dest_slice.key(), context)
    }

    fn compare_atomic_swap_gt_mr_slice_to_triggered<T: AsFiType>(&self, buf: &[T], desc: Option<MemoryRegionDesc>, compare: &[T], compare_desc: Option<MemoryRegionDesc>, result: &[T], result_desc: Option<MemoryRegionDesc>, dest_addr: &MappedAddress, dest_slice: &RemoteMemAddrSliceMut<T>, context: &mut TriggeredContext) -> (r: AtomicCall)
        ensures
            r == (AtomicCall::CompareAtomic { ep: self.ep_fid(), count: buf@.len() as usize, desc: owned_desc_value(desc), compare_desc: owned_desc_value(compare_desc), result_desc: owned_desc_value(result_desc), dest_addr: dest_addr@, addr: dest_slice.mem_address_spec(), key: dest_slice.key_spec(), datatype: T::fi_datatype().raw_value(), op: CompareAtomicOp::CswapGt.raw_value(), context: old(context)@ }),
            *final(context) == *old(context),
    {
        self.compare_atomic_swap_gt_to_triggered(buf, desc, compare, compare_desc, result, result_desc, dest_addr, dest_slice.mem_address(), dest_slice.key(), context)
    }

    fn compare_atomic_mswap_mr_slice_to_triggered<T: AsFiType>(&self, buf: &[T], desc: Option<MemoryRegionDesc>, compare: &[T], compare_desc: Option<MemoryRegionDesc>, result: &[T], result_desc: Option<MemoryRegionDesc>, dest_addr: &MappedAddress, dest_slice: &RemoteMemAddrSliceMut<T>, context: &mut TriggeredContext) -> (r: AtomicCall)
        ensures
            r == (AtomicCall::CompareAtomic { ep: self.ep_fid(), count: buf@.len() as usize, desc: owned_desc_value(desc), compare_desc: owned_desc_value(compare_desc), result_desc: owned_desc_value(result_desc), dest_addr: dest_addr@, addr: dest_slice.mem_address_spec(), key: dest_slice.key_spec(), datatype: T::fi_datatype().raw_value(), op: CompareAtomicOp::Mswap.raw_value(), context: old(context)@ }),
            *final(context) == *old(context),
    {
        self.compare_atomic_mswap_to_triggered(buf, desc, compare, compare_desc, result, result_desc, dest_addr, dest_slice.mem_address(), dest_slice.key(), context)
    }

    fn compare_atomicv_swap_mr_slice_to<T: AsFiType>(&self, ioc: &[Ioc<T>], desc: Option<&[MemoryRegionDesc]>, comparetv: &[Ioc<T>], compare_desc: Option<&[MemoryRegionDesc]>, resultv: &[IocMut<T>], res_desc: Option<&[MemoryRegionDesc]>, dest_addr: &MappedAddress, dest_slice: &RemoteMemAddrSliceMut<T>) -> (r: AtomicCall)
        ensures
            r == (AtomicCall::CompareAtomicv { ep: self.ep_fid(), count: ioc@.len() as usize, descs: desc is Some, compare_count: comparetv@.len() as usize, compare_descs: compare_desc is Some, result_count: resultv@.len() as usize, result_descs: res_desc is Some, dest_addr: dest_addr@, addr: dest_slice.mem_address_spec(), key: dest_slice.key_spec(), datatype: T::fi_datatype().raw_value(), op: CompareAtomicOp::Cswap.raw_value(), context: 0 }),
    {
        self.compare_atomicv_swap_to(ioc, desc, comparetv, compare_desc, resultv, res_desc, dest_addr, dest_slice.mem_address(), dest_slice.key())
    }

    fn compare_atomicv_swap_ne_mr_slice_to<T: AsFiType>(&self, ioc: &[Ioc<T>], desc: Option<&[MemoryRegionDesc]>, comparetv: &[Ioc<T>], compare_desc: Option<&[MemoryRegionDesc]>, resultv: &[IocMut<T>], res_desc: Option<&[MemoryRegionDesc]>, dest_addr: &MappedAddress, dest_slice: &RemoteMemAddrSliceMut<T>) -> (r: AtomicCall)
        ensures
            r == (AtomicCall::CompareAtomicv { ep: self.ep_fid(), count: ioc@.len() as usize, descs: desc is Some, compare_count: comparetv@.len() as usize, compare_descs: compare_desc is Some, result_count: resultv@.len() as usize, result_descs: res_desc is Some, dest_addr: dest_addr@, addr: dest_slice.mem_address_spec(), key: dest_slice.key_spec(), datatype: T::fi_datatype().raw_value(), op: CompareAtomicOp::CswapNe.raw_value(), context: 0 }),
    {
        self.compare_atomicv_swap_ne_to(ioc, desc, comparetv, compare_desc, resultv, res_desc, dest_addr, dest_slice.mem_address(), dest_slice.key())
    }

    fn compare_atomicv_swap_le_mr_slice_to<T: AsFiType>(&self, ioc: &[Ioc<T>], desc: Option<&[MemoryRegionDesc]>, comparetv: &[Ioc<T>], compare_desc: Option<&[MemoryRegionDesc]>, resultv: &[IocMut<T>], res_desc: Option<&[MemoryRegionDesc]>, dest_addr: &MappedAddress, dest_slice: &RemoteMemAddrSliceMut<T>) -> (r: AtomicCall)
        ensures
            r == (AtomicCall::CompareAtomicv { ep: self.ep_fid(), count: ioc@.len() as usize, descs: desc is Some, compare_count: comparetv@.len() as usize, compare_descs: compare_desc is Some, result_count: resultv@.len() as usize, result_descs: res_desc is Some, dest_addr: dest_addr@, addr: dest_slice.mem_address_spec(), key: dest_slice.key_spec(), datatype: T::fi_datatype().raw_value(), op: CompareAtomicOp::CswapLe.raw_value(), context: 0 }),
    {
        self.compare_atomicv_swap_le_to(ioc, desc, comparetv, compare_desc, resultv, res_desc, dest_addr, dest_slice.mem_address(), dest_slice.key())
    }

    fn compare_atomicv_swap_lt_mr_slice_to<T: AsFiType>(&self, ioc: &[Ioc<T>], desc: Option<&[MemoryRegionDesc]>, comparetv: &[Ioc<T>], compare_desc: Option<&[MemoryRegionDesc]>, resultv: &[IocMut<T>], res_desc: Option<&[MemoryRegionDesc]>, dest_addr: &MappedAddress, dest_slice: &RemoteMemAddrSliceMut<T>) -> (r: AtomicCall)
        ensures
            r == (AtomicCall::CompareAtomicv { ep: self.ep_fid(), count: ioc@.len() as usize, descs: desc is Some, compare_count: comparetv@.len() as usize, compare_descs: compare_desc is Some, result_count: resultv@.len() as usize, result_descs: res_desc is Some, dest_addr: dest_addr@, addr: dest_slice.mem_address_spec(), key: dest_slice.key_spec(), datatype: T::fi_datatype().raw_value(), op: CompareAtomicOp::CswapLt.raw_value(), context: 0 }),
    {
        self.compare_atomicv_swap_lt_to(ioc, desc, comparetv, compare_desc, resultv, res_desc, dest_addr, dest_slice.mem_address(), dest_slice.key())
    }

    fn compare_atomicv_swap_ge_mr_slice_to<T: AsFiType>(&self, ioc: &[Ioc<T>], desc: Option<&[MemoryRegionDesc]>, comparetv: &[Ioc<T>], compare_desc: Option<&[MemoryRegionDesc]>, resultv: &[IocMut<T>], res_desc: Option<&[MemoryRegionDesc]>, dest_addr: &MappedAddress, dest_slice: &RemoteMemAddrSliceMut<T>) -> (r: AtomicCall)
        ensures
            r == (AtomicCall::CompareAtomicv { ep: self.ep_fid(), count: ioc@.len() as usize, descs: desc is Some, compare_count: comparetv@.len() as usize, compare_descs: compare_desc is Some, result_count: resultv@.len() as usize, result_descs: res_desc is Some, dest_addr: dest_addr@, addr: dest_slice.mem_address_spec(), key: dest_slice.key_spec(), datatype: T::fi_datatype().raw_value(), op: CompareAtomicOp::CswapGe.raw_value(), context: 0 }),
    {
        self.compare_atomicv_swap_ge_to(ioc, desc, comparetv, compare_desc, resultv, res_desc, dest_addr, dest_slice.mem_address(), dest_slice.key())
    }

    fn compare_atomicv_swap_gt_mr_slice_to<T: AsFiType>(&self, ioc: &[Ioc<T>], desc: Option<&[MemoryRegionDesc]>, comparetv: &[Ioc<T>], compare_desc: Option<&[MemoryRegionDesc]>, resultv: &[IocMut<T>], res_desc: Option<&[MemoryRegionDesc]>, dest_addr: &MappedAddress, dest_slice: &RemoteMemAddrSliceMut<T>) -> (r: AtomicCall)
        ensures
            r == (AtomicCall::CompareAtomicv { ep: self.ep_fid(), count: ioc@.len() as usize, descs: desc is Some, compare_count: comparetv@.len() as usize, compare_descs: compare_desc is Some, result_count: resultv@.len() as usize, result_descs: res_desc is Some, dest_addr: dest_addr@, addr: dest_slice.mem_address_spec(), key: dest_slice.key_spec(), datatype: T::fi_datatype().raw_value(), op: CompareAtomicOp::CswapGt.raw_value(), context: 0 }),
    {
        self.compare_atomicv_swap_gt_to(ioc, desc, comparetv, compare_desc, resultv, res_desc, dest_addr, dest_slice.mem_address(), dest_slice.key())
    }

    fn compare_atomicv_mswap_mr_slice_to<T: AsFiType>(&self, ioc: &[Ioc<T>], desc: Option<&[MemoryRegionDesc]>, comparetv: &[Ioc<T>], compare_desc: Option<&[MemoryRegionDesc]>, resultv: &[IocMut<T>], res_desc: Option<&[MemoryRegionDesc]>, dest_addr: &MappedAddress, dest_slice: &RemoteMemAddrSliceMut<T>) -> (r: AtomicCall)
        ensures
            r == (AtomicCall::CompareAtomicv { ep: self.ep_fid(), count: ioc@.len() as usize, descs: desc is Some, compare_count: comparetv@.len() as usize, compare_descs: compare_desc is Some, result_count: resultv@.len() as usize, result_descs: res_desc is Some, dest_addr: dest_addr@, addr: dest_slice.mem_address_spec(), key: dest_slice.key_spec(), datatype: T::fi_datatype().raw_value(), op: CompareAtomicOp::Mswap.raw_value(), context: 0 }),
    {
        self.compare_atomicv_mswap_to(ioc, desc, comparetv, compare_desc, resultv, res_desc, dest_addr, dest_slice.mem_address(), dest_slice.key())
    }

    fn compare_atomicv_swap_mr_slice_to_with_context<T: AsFiType>(&self, ioc: &[Ioc<T>], desc: Option<&[MemoryRegionDesc]>, comparetv: &[Ioc<T>], compare_desc: Option<&[MemoryRegionDesc]>, resultv: &[IocMut<T>], res_desc: Option<&[MemoryRegionDesc]>, dest_addr: &MappedAddress, dest_slice: &RemoteMemAddrSliceMut<T>, context: &mut Context) -> (r: AtomicCall)
        ensures
            r == (AtomicCall::CompareAtomicv { ep: self.ep_fid(), count: ioc@.len() as usize, descs: desc is Some, compare_count: comparetv@.len() as usize, compare_descs: compare_desc is Some, result_count: resultv@.len() as usize, result_descs: res_desc is Some, dest_addr: dest_addr@, addr: dest_slice.mem_address_spec(), key: dest_slice.key_spec(), datatype: T::fi_datatype().raw_value(), op: CompareAtomicOp::Cswap.raw_value(), context: old(context)@ }),
            *final(context) == *old(context),
    {
        self.compare_atomicv_swap_to_with_context(ioc, desc, comparetv, compare_desc, resultv, res_desc, dest_addr, dest_slice.mem_address(), dest_slice.key(), context)
    }

    fn compare_atomicv_swap_ne_mr_slice_to_with_context<T: AsFiType>(&self, ioc: &[Ioc<T>], desc: Option<&[MemoryRegionDesc]>, comparetv: &[Ioc<T>], compare_desc: Option<&[MemoryRegionDesc]>, resultv: &[IocMut<T>], res_desc: Option<&[MemoryRegionDesc]>, dest_addr: &MappedAddress, dest_slice: &RemoteMemAddrSliceMut<T>, context: &mut Context) -> (r: AtomicCall)
        ensures
            r == (AtomicCall::CompareAtomicv { ep: self.ep_fid(), count: ioc@.len() as usize, descs: desc is Some, compare_count: comparetv@.len() as usize, compare_descs: compare_desc is Some, result_count: resultv@.len() as usize, result_descs: res_desc is Some, dest_addr: dest_addr@, addr: dest_slice.mem_address_spec(), key: dest_slice.key_spec(), datatype: T::fi_datatype().raw_value(), op: CompareAtomicOp::CswapNe.raw_value(), context: old(context)@ }),
            *final(context) == *old(context),
    {
        self.compare_atomicv_swap_ne_to_with_context(ioc, desc, comparetv, compare_desc, resultv, res_desc, dest_addr, dest_slice.mem_address(), dest_slice.key(), context)
    }

    fn compare_atomicv_swap_le_mr_slice_to_with_context<T: AsFiType>(&self, ioc: &[Ioc<T>], desc: Option<&[MemoryRegionDesc]>, comparetv: &[Ioc<T>], compare_desc: Option<&[MemoryRegionDesc]>, resultv: &[IocMut<T>], res_desc: Option<&[MemoryRegionDesc]>, dest_addr: &MappedAddress, dest_slice: &RemoteMemAddrSliceMut<T>, context: &mut Context) -> (r: AtomicCall)
        ensures
            r == (AtomicCall::CompareAtomicv { ep: self.ep_fid(), count: ioc@.len() as usize, descs: desc is Some, compare_count: comparetv@.len() as usize, compare_descs: compare_desc is Some, result_count: resultv@.len() as usize, result_descs: res_desc is Some, dest_addr: dest_addr@, addr: dest_slice.mem_address_spec(), key: dest_slice.key_spec(), datatype: T::fi_datatype().raw_value(), op: CompareAtomicOp::CswapLe.raw_value(), context: old(context)@ }),
            *final(context) == *old(context),
    {
        self.compare_atomicv_swap_le_to_with_context(ioc, desc, comparetv, compare_desc, resultv, res_desc, dest_addr, dest_slice.mem_address(), dest_slice.key(), context)
    }

    fn compare_atomicv_swap_lt_mr_slice_to_with_context<T: AsFiType>(&self, ioc: &[Ioc<T>], desc: Option<&[MemoryRegionDesc]>, comparetv: &[Ioc<T>], compare_desc: Option<&[MemoryRegionDesc]>, resultv: &[IocMut<T>], res_desc: Option<&[MemoryRegionDesc]>, dest_addr: &MappedAddress, dest_slice: &RemoteMemAddrSliceMut<T>, context: &mut Context) -> (r: AtomicCall)
        ensures
            r == (AtomicCall::CompareAtomicv { ep: self.ep_fid(), count: ioc@.len() as usize, descs: desc is Some, compare_count: comparetv@.len() as usize, compare_descs: compare_desc is Some, result_count: resultv@.len() as usize, result_descs: res_desc is Some, dest_addr: dest_addr@, addr: dest_slice.mem_address_spec(), key: dest_slice.key_spec(), datatype: T::fi_datatype().raw_value(), op: CompareAtomicOp::CswapLt.raw_value(), context: old(context)@ }),
            *final(context) == *old(context),
    {
        self.compare_atomicv_swap_lt_to_with_context(ioc, desc, comparetv, compare_desc, resultv, res_desc, dest_addr, dest_slice.mem_address(), dest_slice.key(), context)
    }

    fn compare_atomicv_swap_ge_mr_slice_to_with_context<T: AsFiType>(&self, ioc: &[Ioc<T>], desc: Option<&[MemoryRegionDesc]>, comparetv: &[Ioc<T>], compare_desc: Option<&[MemoryRegionDesc]>, resultv: &[IocMut<T>], res_desc: Option<&[MemoryRegionDesc]>, dest_addr: &MappedAddress, dest_slice: &RemoteMemAddrSliceMut<T>, context: &mut Context) -> (r: AtomicCall)
        ensures
            r == (AtomicCall::CompareAtomicv { ep: self.ep_fid(), count: ioc@.len() as usize, descs: desc is Some, compare_count: comparetv@.len() as usize, compare_descs: compare_desc is Some, result_count: resultv@.len() as usize, result_descs: res_desc is Some, dest_addr: dest_addr@, addr: dest_slice.mem_address_spec(), key: dest_slice.key_spec(), datatype: T::fi_datatype().raw_value(), op: CompareAtomicOp::CswapGe.raw_value(), context: old(context)@ }),
            *final(context) == *old(context),
    {
        self.compare_atomicv_swap_ge_to_with_context(ioc, desc, comparetv, compare_desc, resultv, res_desc, dest_addr, dest_slice.mem_address(), dest_slice.key(), context)
    }

    fn compare_atomicv_swap_gt_mr_slice_to_with_context<T: AsFiType>(&self, ioc: &[Ioc<T>], desc: Option<&[MemoryRegionDesc]>, comparetv: &[Ioc<T>], compare_desc: Option<&[MemoryRegionDesc]>, resultv: &[IocMut<T>], res_desc: Option<&[MemoryRegionDesc]>, dest_addr: &MappedAddress, dest_slice: &RemoteMemAddrSliceMut<T>, context: &mut Context) -> (r: AtomicCall)
        ensures
            r == (AtomicCall::CompareAtomicv { ep: self.ep_fid(), count: ioc@.len() as usize, descs: desc is Some, compare_count: comparetv@.len() as usize, compare_descs: compare_desc is Some, result_count: resultv@.len() as usize, result_descs: res_desc is Some, dest_addr: dest_addr@, addr: dest_slice.mem_address_spec(), key: dest_slice.key_spec(), datatype: T::fi_datatype().raw_value(), op: CompareAtomicOp::CswapGt.raw_value(), context: old(context)@ }),
            *final(context) == *old(context),
    {
        self.compare_atomicv_swap_gt_to_with_context(ioc, desc, comparetv, compare_desc, resultv, res_desc, dest_addr, dest_slice.mem_address(), dest_slice.key(), context)
    }

    fn compare_atomicv_mswap_mr_slice_to_with_context<T: AsFiType>(&self, ioc: &[Ioc<T>], desc: Option<&[MemoryRegionDesc]>, comparetv: &[Ioc<T>], compare_desc: Option<&[MemoryRegionDesc]>, resultv: &[IocMut<T>], res_desc: Option<&[MemoryRegionDesc]>, dest_addr: &MappedAddress, dest_slice: &RemoteMemAddrSliceMut<T>, context: &mut Context) -> (r: AtomicCall)
        ensures
            r == (AtomicCall::CompareAtomicv { ep: self.ep_fid(), count: ioc@.len() as usize, descs: desc is Some, compare_count: comparetv@.len() as usize, compare_descs: compare_desc is Some, result_count: resultv@.len() as usize, result_descs: res_desc is Some, dest_addr: dest_addr@, addr: dest_slice.mem_address_spec(), key: dest_slice.key_spec(), datatype: T::fi_datatype().raw_value(), op: CompareAtomicOp::Mswap.raw_value(), context: old(context)@ }),
            *final(context) == *old(context),
    {
        self.compare_atomicv_mswap_to_with_context(ioc, desc, comparetv, compare_desc, resultv, res_desc, dest_addr, dest_slice.mem_address(), dest_slice.key(), context)
    }

    fn compare_atomicv_swap_mr_slice_to_triggered<T: AsFiType>(&self, ioc: &[Ioc<T>], desc: Option<&[MemoryRegionDesc]>, comparetv: &[Ioc<T>], compare_desc: Option<&[MemoryRegionDesc]>, resultv: &[IocMut<T>], res_desc: Option<&[MemoryRegionDesc]>, dest_addr: &MappedAddress, dest_slice: &RemoteMemAddrSliceMut<T>, context: &mut TriggeredContext) -> (r: AtomicCall)
        ensures
            r == (AtomicCall::CompareAtomicv { ep: self.ep_fid(), count: ioc@.len() as usize, descs: desc is Some, compare_count: comparetv@.len() as usize, compare_descs: compare_desc is Some, result_count: resultv@.len() as usize, result_descs: res_desc is Some, dest_addr: dest_addr@, addr: dest_slice.mem_address_spec(), key: dest_slice.key_spec(), datatype: T::fi_datatype().raw_value(), op: CompareAtomicOp::Cswap.raw_value(), context: old(context)@ }),
            *final(context) == *old(context),
    {
        self.compare_atomicv_swap_to_triggered(ioc, desc, comparetv, compare_desc, resultv, res_desc, dest_addr, dest_slice.mem_address(), dest_slice.key(), context)
    }

    fn compare_atomicv_swap_ne_mr_slice_to_triggered<T: AsFiType>(&self, ioc: &[Ioc<T>], desc: Option<&[MemoryRegionDesc]>, comparetv: &[Ioc<T>], compare_desc: Option<&[MemoryRegionDesc]>, resultv: &[IocMut<T>], res_desc: Option<&[MemoryRegionDesc]>, dest_addr: &MappedAddress, dest_slice: &RemoteMemAddrSliceMut<T>, context: &mut TriggeredContext) -> (r: AtomicCall)
        ensures
            r == (AtomicCall::CompareAtomicv { ep: self.ep_fid(), count: ioc@.len() as usize, descs: desc is Some, compare_count: comparetv@.len() as usize, compare_descs: compare_desc is Some, result_count: resultv@.len() as usize, result_descs: res_desc is Some, dest_addr: dest_addr@, addr: dest_slice.mem_address_spec(), key: dest_slice.key_spec(), datatype: T::fi_datatype().raw_value(), op: CompareAtomicOp::CswapNe.raw_value(), context: old(context)@ }),
            *final(context) == *old(context),
    {
        self.compare_atomicv_swap_ne_to_triggered(ioc, desc, comparetv, compare_desc, resultv, res_desc, dest_addr, dest_slice.mem_address(), dest_slice.key(), context)
    }

    fn compare_atomicv_swap_le_mr_slice_to_triggered<T: AsFiType>(&self, ioc: &[Ioc<T>], desc: Option<&[MemoryRegionDesc]>, comparetv: &[Ioc<T>], compare_desc: Option<&[MemoryRegionDesc]>, resultv: &[IocMut<T>], res_desc: Option<&[MemoryRegionDesc]>, dest_addr: &MappedAddress, dest_slice: &RemoteMemAddrSliceMut<T>, context: &mut TriggeredContext) -> (r: AtomicCall)
        ensures
            r == (AtomicCall::CompareAtomicv { ep: self.ep_fid(), count: ioc@.len() as usize, descs: desc is Some, compare_count: comparetv@.len() as usize, compare_descs: compare_desc is Some, result_count: resultv@.len() as usize, result_descs: res_desc is Some, dest_addr: dest_addr@, addr: dest_slice.mem_address_spec(), key: dest_slice.key_spec(), datatype: T::fi_datatype().raw_value(), op: CompareAtomicOp::CswapLe.raw_value(), context: old(context)@ }),
            *final(context) == *old(context),
    {
        self.compare_atomicv_swap_le_to_triggered(ioc, desc, comparetv, compare_desc, resultv, res_desc, dest_addr, dest_slice.mem_address(), dest_slice.key(), context)
    }

    fn compare_atomicv_swap_lt_mr_slice_to_triggered<T: AsFiType>(&self, ioc: &[Ioc<T>], desc: Option<&[MemoryRegionDesc]>, comparetv: &[Ioc<T>], compare_desc: Option<&[MemoryRegionDesc]>, resultv: &[IocMut<T>], res_desc: Option<&[MemoryRegionDesc]>, dest_addr: &MappedAddress, dest_slice: &RemoteMemAddrSliceMut<T>, context: &mut TriggeredContext) -> (r: AtomicCall)
        ensures
            r == (AtomicCall::CompareAtomicv { ep: self.ep_fid(), count: ioc@.len() as usize, descs: desc is Some, compare_count: comparetv@.len() as usize, compare_descs: compare_desc is Some, result_count: resultv@.len() as usize, result_descs: res_desc is Some, dest_addr: dest_addr@, addr: dest_slice.mem_address_spec(), key: dest_slice.key_spec(), datatype: T::fi_datatype().raw_value(), op: CompareAtomicOp::CswapLt.raw_value(), context: old(context)@ }),
            *final(context) == *old(context),
    {
        self.compare_atomicv_swap_lt_to_triggered(ioc, desc, comparetv, compare_desc, resultv, res_desc, dest_addr, dest_slice.mem_address(), dest_slice.key(), context)
    }

    fn compare_atomicv_swap_ge_mr_slice_to_triggered<T: AsFiType>(&self, ioc: &[Ioc<T>], desc: Option<&[MemoryRegionDesc]>, comparetv: &[Ioc<T>], compare_desc: Option<&[MemoryRegionDesc]>, resultv: &[IocMut<T>], res_desc: Option<&[MemoryRegionDesc]>, dest_addr: &MappedAddress, dest_slice: &RemoteMemAddrSliceMut<T>, context: &mut TriggeredContext) -> (r: AtomicCall)
        ensures
            r == (AtomicCall::CompareAtomicv { ep: self.ep_fid(), count: ioc@.len() as usize, descs: desc is Some, compare_count: comparetv@.len() as usize, compare_descs: compare_desc is Some, result_count: resultv@.len() as usize, result_descs: res_desc is Some, dest_addr: dest_addr@, addr: dest_slice.mem_address_spec(), key: dest_slice.key_spec(), datatype: T::fi_datatype().raw_value(), op: CompareAtomicOp::CswapGe.raw_value(), context: old(context)@ }),
            *final(context) == *old(context),
    {
        self.compare_atomicv_swap_ge_to_triggered(ioc, desc, comparetv, compare_desc, resultv, res_desc, dest_addr, dest_slice.mem_address(), dest_slice.key(), context)
    }

    fn compare_atomicv_swap_gt_mr_slice_to_triggered<T: AsFiType>(&self, ioc: &[Ioc<T>], desc: Option<&[MemoryRegionDesc]>, comparetv: &[Ioc<T>], compare_desc: Option<&[MemoryRegionDesc]>, resultv: &[IocMut<T>], res_desc: Option<&[MemoryRegionDesc]>, dest_addr: &MappedAddress, dest_slice: &RemoteMemAddrSliceMut<T>, context: &mut TriggeredContext) -> (r: AtomicCall)
        ensures
            r == (AtomicCall::CompareAtomicv { ep: self.ep_fid(), count: ioc@.len() as usize, descs: desc is Some, compare_count: comparetv@.len() as usize, compare_descs: compare_desc is Some, result_count: resultv@.len() as usize, result_descs: res_desc is Some, dest_addr: dest_addr@, addr: dest_slice.mem_address_spec(), key: dest_slice.key_spec(), datatype: T::fi_datatype().raw_value(), op: CompareAtomicOp::CswapGt.raw_value(), context: old(context)@ }),
            *final(context) == *old(context),
    {
        self.compare_atomicv_swap_gt_to_triggered(ioc, desc, comparetv, compare_desc, resultv, res_desc, dest_addr, dest_slice.mem_address(), dest_slice.key(), context)
    }

    fn compare_atomicv_mswap_mr_slice_to_triggered<T: AsFiType>(&self, ioc: &[Ioc<T>], desc: Option<&[MemoryRegionDesc]>, comparetv: &[Ioc<T>], compare_desc: Option<&[MemoryRegionDesc]>, resultv: &[IocMut<T>], res_desc: Option<&[MemoryRegionDesc]>, dest_addr: &MappedAddress, dest_slice: &RemoteMemAddrSliceMut<T>, context: &mut TriggeredContext) -> (r: AtomicCall)
        ensures
            r == (AtomicCall::CompareAtomicv { ep: self.ep_fid(), count: ioc@.len() as usize, descs: desc is Some, compare_count: comparetv@.len() as usize, compare_descs: compare_desc is Some, result_count: resultv@.len() as usize, result_descs: res_desc is Some, dest_addr: dest_addr@, addr: dest_slice.mem_address_spec(), key: dest_slice.key_spec(), datatype: T::fi_datatype().raw_value(), op: CompareAtomicOp::Mswap.raw_value(), context: old(context)@ }),
            *final(context) == *old(context),
    {
        self.compare_atomicv_mswap_to_triggered(ioc, desc, comparetv, compare_desc, resultv, res_desc, dest_addr, dest_slice.mem_address(), dest_slice.key(), context)
    }

    fn compare_atomicmsg_slice_to<T: AsFiType>(&self, msg: &MsgRef, comparev: &[Ioc<T>], compare_desc: Option<&[MemoryRegionDesc]>, resultv: &[IocMut<T>], res_desc: Option<&[MemoryRegionDesc]>, options: AtomicMsgOptions) -> (r: AtomicCall)
        ensures
            r == (AtomicCall::CompareAtomicmsg { ep: self.ep_fid(), msg: msg@, compare_count: comparev@.len() as usize, compare_descs: compare_desc is Some, result_count: resultv@.len() as usize, result_descs: res_desc is Some, flags: options@ }),
    {
        self.compare_atomicmsg_to(msg, comparev, compare_desc, resultv, res_desc, options)
    }
}

impl AtomicCASRemoteMemAddrSliceEp for ConnectionlessEndpoint {}

/// Compare-and-swap operations on a connected endpoint on a remote run of values.
pub trait ConnectedAtomicCASRemoteMemAddrSliceEp: ConnectedAtomicCASEp {
    fn compare_atomic_swap_mr_slice<T: AsFiType>(&self, buf: &[T], desc: Option<MemoryRegionDesc>, compare: &[T], compare_desc: Option<MemoryRegionDesc>, result: &[T], result_desc: Option<MemoryRegionDesc>, dest_slice: &RemoteMemAddrSliceMut<T>) -> (r: AtomicCall)
        ensures
            r == (AtomicCall::CompareAtomic { ep: self.ep_fid(), count: buf@.len() as usize, desc: owned_desc_value(desc), compare_desc: owned_desc_value(compare_desc), result_desc: owned_desc_value(result_desc), dest_addr: FI_ADDR_UNSPEC, addr: dest_slice.mem_address_spec(), key: dest_slice.key_spec(), datatype: T::fi_datatype().raw_value(), op: CompareAtomicOp::Cswap.raw_value(), context: 0 }),
    {
        self.compare_atomic_swap(buf, desc, compare, compare_desc, result, result_desc, dest_slice.mem_address(), dest_slice.key())
    }

    fn compare_atomic_swap_ne_mr_slice<T: AsFiType>(&self, buf: &[T], desc: Option<MemoryRegionDesc>, compare: &[T], compare_desc: Option<MemoryRegionDesc>, result: &[T], result_desc: Option<MemoryRegionDesc>, dest_slice: &RemoteMemAddrSliceMut<T>) -> (r: AtomicCall)
        ensures
            r == (AtomicCall::CompareAtomic { ep: self.ep_fid(), count: buf@.len() as usize, desc: owned_desc_value(desc), compare_desc: owned_desc_value(compare_desc), result_desc: owned_desc_value(result_desc), dest_addr: FI_ADDR_UNSPEC, addr: dest_slice.mem_address_spec(), key: dest_slice.key_spec(), datatype: T::fi_datatype().raw_value(), op: CompareAtomicOp::CswapNe.raw_value(), context: 0 }),
    {
        self.compare_atomic_swap_ne(buf, desc, compare, compare_desc, result, result_desc, dest_slice.mem_address(), dest_slice.key())
    }

    fn compare_atomic_swap_le_mr_slice<T: AsFiType>(&self, buf: &[T], desc: Option<MemoryRegionDesc>, compare: &[T], compare_desc: Option<MemoryRegionDesc>, result: &[T], result_desc: Option<MemoryRegionDesc>, dest_slice: &RemoteMemAddrSliceMut<T>) -> (r: AtomicCall)
        ensures
            r == (AtomicCall::CompareAtomic { ep: self.ep_fid(), count: buf@.len() as usize, desc: owned_desc_value(desc), compare_desc: owned_desc_value(compare_desc), result_desc: owned_desc_value(result_desc), dest_addr: FI_ADDR_UNSPEC, addr: dest_slice.mem_address_spec(), key: dest_slice.key_spec(), datatype: T::fi_datatype().raw_value(), op: CompareAtomicOp::CswapLe.raw_value(), context: 0 }),
    {
        self.compare_atomic_swap_le(buf, desc, compare, compare_desc, result, result_desc, dest_slice.mem_address(), dest_slice.key())
    }

    fn compare_atomic_swap_lt_mr_slice<T: AsFiType>(&self, buf: &[T], desc: Option<MemoryRegionDesc>, compare: &[T], compare_desc: Option<MemoryRegionDesc>, result: &[T], result_desc: Option<MemoryRegionDesc>, dest_slice: &RemoteMemAddrSliceMut<T>) -> (r: AtomicCall)
        ensures
            r == (AtomicCall::CompareAtomic { ep: self.ep_fid(), count: buf@.len() as usize, desc: owned_desc_value(desc), compare_desc: owned_desc_value(compare_desc), result_desc: owned_desc_value(result_desc), dest_addr: FI_ADDR_UNSPEC, addr: dest_slice.mem_address_spec(), key: dest_slice.key_spec(), datatype: T::fi_datatype().raw_value(), op: CompareAtomicOp::CswapLt.raw_value(), context: 0 }),
    {
        self.compare_atomic_swap_lt(buf, desc, compare, compare_desc, result, result_desc, dest_slice.mem_address(), dest_slice.key())
    }

    fn compare_atomic_swap_ge_mr_slice<T: AsFiType>(&self, buf: &[T], desc: Option<MemoryRegionDesc>, compare: &[T], compare_desc: Option<MemoryRegionDesc>, result: &[T], result_desc: Option<MemoryRegionDesc>, dest_slice: &RemoteMemAddrSliceMut<T>) -> (r: AtomicCall)
        ensures
            r == (AtomicCall::CompareAtomic { ep: self.ep_fid(), count: buf@.len() as usize, desc: owned_desc_value(desc), compare_desc: owned_desc_value(compare_desc), result_desc: owned_desc_value(result_desc), dest_addr: FI_ADDR_UNSPEC, addr: dest_slice.mem_address_spec(), key: dest_slice.key_spec(), datatype: T::fi_datatype().raw_value(), op: CompareAtomicOp::CswapGe.raw_value(), context: 0 }),
    {
        self.compare_atomic_swap_ge(buf, desc, compare, compare_desc, result, result_desc, dest_slice.mem_address(), dest_slice.key())
    }

    fn compare_atomic_swap_gt_mr_slice<T: AsFiType>(&self, buf: &[T], desc: Option<MemoryRegionDesc>, compare: &[T], compare_desc: Option<MemoryRegionDesc>, result: &[T], result_desc: Option<MemoryRegionDesc>, dest_slice: &RemoteMemAddrSliceMut<T>) -> (r: AtomicCall)
        ensures
            r == (AtomicCall::CompareAtomic { ep: self.ep_fid(), count: buf@.len() as usize, desc: owned_desc_value(desc), compare_desc: owned_desc_value(compare_desc), result_desc: owned_desc_value(result_desc), dest_addr: FI_ADDR_UNSPEC, addr: dest_slice.mem_address_spec(), key: dest_slice.key_spec(), datatype: T::fi_datatype().raw_value(), op: CompareAtomicOp::CswapGt.raw_value(), context: 0 }),
    {
        self.compare_atomic_swap_gt(buf, desc, compare, compare_desc, result, result_desc, dest_slice.mem_address(), dest_slice.key())
    }

    fn compare_atomic_mswap_mr_slice<T: AsFiType>(&self, buf: &[T], desc: Option<MemoryRegionDesc>, compare: &[T], compare_desc: Option<MemoryRegionDesc>, result: &[T], result_desc: Option<MemoryRegionDesc>, dest_slice: &RemoteMemAddrSliceMut<T>) -> (r: AtomicCall)
        ensures
            r == (AtomicCall::CompareAtomic { ep: self.ep_fid(), count: buf@.len() as usize, desc: owned_desc_value(desc), compare_desc: owned_desc_value(compare_desc), result_desc: owned_desc_value(result_desc), dest_addr: FI_ADDR_UNSPEC, addr: dest_slice.mem_address_spec(), key: dest_slice.key_spec(), datatype: T::fi_datatype().raw_value(), op: CompareAtomicOp::Mswap.raw_value(), context: 0 }),
    {
        self.compare_atomic_mswap(buf, desc, compare, compare_desc, result, result_desc, dest_slice.mem_address(), dest_slice.key())
    }

    fn compare_atomic_swap_mr_slice_with_context<T: AsFiType>(&self, buf: &[T], desc: Option<MemoryRegionDesc>, compare: &[T], compare_desc: Option<MemoryRegionDesc>, result: &[T], result_desc: Option<MemoryRegionDesc>, dest_slice: &RemoteMemAddrSliceMut<T>, context: &mut Context) -> (r: AtomicCall)
        ensures
            r == (AtomicCall::CompareAtomic { ep: self.ep_fid(), count: buf@.len() as usize, desc: owned_desc_value(desc), compare_desc: owned_desc_value(compare_desc), result_desc: owned_desc_value(result_desc), dest_addr: FI_ADDR_UNSPEC, addr: dest_slice.mem_address_spec(), key: dest_slice.key_spec(), datatype: T::fi_datatype().raw_value(), op: CompareAtomicOp::Cswap.raw_value(), context: old(context)@ }),
            *final(context) == *old(context),
    {
        self.compare_atomic_swap_with_context(buf, desc, compare, compare_desc, result, result_desc, dest_slice.mem_address(), dest_slice.key(), context)
    }

    fn compare_atomic_swap_ne_mr_slice_with_context<T: AsFiType>(&self, buf: &[T], desc: Option<MemoryRegionDesc>, compare: &[T], compare_desc: Option<MemoryRegionDesc>, result: &[T], result_desc: Option<MemoryRegionDesc>, dest_slice: &RemoteMemAddrSliceMut<T>, context: &mut Context) -> (r: AtomicCall)
        ensures
            r == (AtomicCall::CompareAtomic { ep: self.ep_fid(), count: buf@.len() as usize, desc: owned_desc_value(desc), compare_desc: owned_desc_value(compare_desc), result_desc: owned_desc_value(result_desc), dest_addr: FI_ADDR_UNSPEC, addr: dest_slice.mem_address_spec(), key: dest_slice.key_spec(), datatype: T::fi_datatype().raw_value(), op: CompareAtomicOp::CswapNe.raw_value(), context: old(context)@ }),
            *final(context) == *old(context),
    {
        self.compare_atomic_swap_ne_with_context(buf, desc, compare, compare_desc, result, result_desc, dest_slice.mem_address(), dest_slice.key(), context)
    }

    fn compare_atomic_swap_le_mr_slice_with_context<T: AsFiType>(&self, buf: &[T], desc: Option<MemoryRegionDesc>, compare: &[T], compare_desc: Option<MemoryRegionDesc>, result: &[T], result_desc: Option<MemoryRegionDesc>, dest_slice: &RemoteMemAddrSliceMut<T>, context: &mut Context) -> (r: AtomicCall)
        ensures
            r == (AtomicCall::CompareAtomic { ep: self.ep_fid(), count: buf@.len() as usize, desc: owned_desc_value(desc), compare_desc: owned_desc_value(compare_desc), result_desc: owned_desc_value(result_desc), dest_addr: FI_ADDR_UNSPEC, addr: dest_slice.mem_address_spec(), key: dest_slice.key_spec(), datatype: T::fi_datatype().raw_value(), op: CompareAtomicOp::CswapLe.raw_value(), context: old(context)@ }),
            *final(context) == *old(context),
    {
        self.compare_atomic_swap_le_with_context(buf, desc, compare, compare_desc, result, result_desc, dest_slice.mem_address(), dest_slice.key(), context)
    }

    fn compare_atomic_swap_lt_mr_slice_with_context<T: AsFiType>(&self, buf: &[T], desc: Option<MemoryRegionDesc>, compare: &[T], compare_desc: Option<MemoryRegionDesc>, result: &[T], result_desc: Option<MemoryRegionDesc>, dest_slice: &RemoteMemAddrSliceMut<T>, context: &mut Context) -> (r: AtomicCall)
        ensures
            r == (AtomicCall::CompareAtomic { ep: self.ep_fid(), count: buf@.len() as usize, desc: owned_desc_value(desc), compare_desc: owned_desc_value(compare_desc), result_desc: owned_desc_value(result_desc), dest_addr: FI_ADDR_UNSPEC, addr: dest_slice.mem_address_spec(), key: dest_slice.key_spec(), datatype: T::fi_datatype().raw_value(), op: CompareAtomicOp::CswapLt.raw_value(), context: old(context)@ }),
            *final(context) == *old(context),
    {
        self.compare_atomic_swap_lt_with_context(buf, desc, compare, compare_desc, result, result_desc, dest_slice.mem_address(), dest_slice.key(), context)
    }

    fn compare_atomic_swap_ge_mr_slice_with_context<T: AsFiType>(&self, buf: &[T], desc: Option<MemoryRegionDesc>, compare: &[T], compare_desc: Option<MemoryRegionDesc>, result: &[T], result_desc: Option<MemoryRegionDesc>, dest_slice: &RemoteMemAddrSliceMut<T>, context: &mut Context) -> (r: AtomicCall)
        ensures
            r == (AtomicCall::CompareAtomic { ep: self.ep_fid(), count: buf@.len() as usize, desc: owned_desc_value(desc), compare_desc: owned_desc_value(compare_desc), result_desc: owned_desc_value(result_desc), dest_addr: FI_ADDR_UNSPEC, addr: dest_slice.mem_address_spec(), key: dest_slice.key_spec(), datatype: T::fi_datatype().raw_value(), op: CompareAtomicOp::CswapGe.raw_value(), context: old(context)@ }),
            *final(context) == *old(context),
    {
        self.compare_atomic_swap_ge_with_context(buf, desc, compare, compare_desc, result, result_desc, dest_slice.mem_address(), dest_slice.key(), context)
    }

    fn compare_atomic_swap_gt_mr_slice_with_context<T: AsFiType>(&self, buf: &[T], desc: Option<MemoryRegionDesc>, compare: &[T], compare_desc: Option<MemoryRegionDesc>, result: &[T], result_desc: Option<MemoryRegionDesc>, dest_slice: &RemoteMemAddrSliceMut<T>, context: &mut Context) -> (r: AtomicCall)
        ensures
            r == (AtomicCall::CompareAtomic { ep: self.ep_fid(), count: buf@.len() as usize, desc: owned_desc_value(desc), compare_desc: owned_desc_value(compare_desc), result_desc: owned_desc_value(result_desc), dest_addr: FI_ADDR_UNSPEC, addr: dest_slice.mem_address_spec(), key: dest_slice.key_spec(), datatype: T::fi_datatype().raw_value(), op: CompareAtomicOp::CswapGt.raw_value(), context: old(context)@ }),
            *final(context) == *old(context),
    {
        self.compare_atomic_swap_gt_with_context(buf, desc, compare, compare_desc, result, result_desc, dest_slice.mem_address(), dest_slice.key(), context)
    }

    fn compare_atomic_mswap_mr_slice_with_context<T: AsFiType>(&self, buf: &[T], desc: Option<MemoryRegionDesc>, compare: &[T], compare_desc: Option<MemoryRegionDesc>, result: &[T], result_desc: Option<MemoryRegionDesc>, dest_slice: &RemoteMemAddrSliceMut<T>, context: &mut Context) -> (r: AtomicCall)
        ensures
            r == (AtomicCall::CompareAtomic { ep: self.ep_fid(), count: buf@.len() as usize, desc: owned_desc_value(desc), compare_desc: owned_desc_value(compare_desc), result_desc: owned_desc_value(result_desc), dest_addr: FI_ADDR_UNSPEC, addr: dest_slice.mem_address_spec(), key: dest_slice.key_spec(), datatype: T::fi_datatype().raw_value(), op: CompareAtomicOp::Mswap.raw_value(), context: old(context)@ }),
            *final(context) == *old(context),
    {
        self.compare_atomic_mswap_with_context(buf, desc, compare, compare_desc, result, result_desc, dest_slice.mem_address(), dest_slice.key(), context)
    }

    fn compare_atomic_swap_mr_slice_triggered<T: AsFiType>(&self, buf: &[T], desc: Option<MemoryRegionDesc>, compare: &[T], compare_desc: Option<MemoryRegionDesc>, result: &[T], result_desc: Option<MemoryRegionDesc>, dest_slice: &RemoteMemAddrSliceMut<T>, context: &mut TriggeredContext) -> (r: AtomicCall)
        ensures
            r == (AtomicCall::CompareAtomic { ep: self.ep_fid(), count: buf@.len() as usize, desc: owned_desc_value(desc), compare_desc: owned_desc_value(compare_desc), result_desc: owned_desc_value(result_desc), dest_addr: FI_ADDR_UNSPEC, addr: dest_slice.mem_address_spec(), key: dest_slice.key_spec(), datatype: T::fi_datatype().raw_value(), op: CompareAtomicOp::Cswap.raw_value(), context: old(context)@ }),
            *final(context) == *old(context),
    {
        self.compare_atomic_swap_triggered(buf, desc, compare, compare_desc, result, result_desc, dest_slice.mem_address(), dest_slice.key(), context)
    }

    fn compare_atomic_swap_ne_mr_slice_triggered<T: AsFiType>(&self, buf: &[T], desc: Option<MemoryRegionDesc>, compare: &[T], compare_desc: Option<MemoryRegionDesc>, result: &[T], result_desc: Option<MemoryRegionDesc>, dest_slice: &RemoteMemAddrSliceMut<T>, context: &mut TriggeredContext) -> (r: AtomicCall)
        ensures
            r == (AtomicCall::CompareAtomic { ep: self.ep_fid(), count: buf@.len() as usize, desc: owned_desc_value(desc), compare_desc: owned_desc_value(compare_desc), result_desc: owned_desc_value(result_desc), dest_addr: FI_ADDR_UNSPEC, addr: dest_slice.mem_address_spec(), key: dest_slice.key_spec(), datatype: T::fi_datatype().raw_value(), op: CompareAtomicOp::CswapNe.raw_value(), context: old(context)@ }),
            *final(context) == *old(context),
    {
        self.compare_atomic_swap_ne_triggered(buf, desc, compare, compare_desc, result, result_desc, dest_slice.mem_address(), dest_slice.key(), context)
    }

    fn compare_atomic_swap_le_mr_slice_triggered<T: AsFiType>(&self, buf: &[T], desc: Option<MemoryRegionDesc>, compare: &[T], compare_desc: Option<MemoryRegionDesc>, result: &[T], result_desc: Option<MemoryRegionDesc>, dest_slice: &RemoteMemAddrSliceMut<T>, context: &mut TriggeredContext) -> (r: AtomicCall)
        ensures
            r == (AtomicCall::CompareAtomic { ep: self.ep_fid(), count: buf@.len() as usize, desc: owned_desc_value(desc), compare_desc: owned_desc_value(compare_desc), result_desc: owned_desc_value(result_desc), dest_addr: FI_ADDR_UNSPEC, addr: dest_slice.mem_address_spec(), key: dest_slice.key_spec(), datatype: T::fi_datatype().raw_value(), op: CompareAtomicOp::CswapLe.raw_value(), context: old(context)@ }),
            *final(context) == *old(context),
    {
        self.compare_atomic_swap_le_triggered(buf, desc, compare, compare_desc, result, result_desc, dest_slice.mem_address(), dest_slice.key(), context)
    }

    fn compare_atomic_swap_lt_mr_slice_triggered<T: AsFiType>(&self, buf: &[T], desc: Option<MemoryRegionDesc>, compare: &[T], compare_desc: Option<MemoryRegionDesc>, result: &[T], result_desc: Option<MemoryRegionDesc>, dest_slice: &RemoteMemAddrSliceMut<T>, context: &mut TriggeredContext) -> (r: AtomicCall)
        ensures
            r == (AtomicCall::CompareAtomic { ep: self.ep_fid(), count: buf@.len() as usize, desc: owned_desc_value(desc), compare_desc: owned_desc_value(compare_desc), result_desc: owned_desc_value(result_desc), dest_addr: FI_ADDR_UNSPEC, addr: dest_slice.mem_address_spec(), key: dest_slice.key_spec(), datatype: T::fi_datatype().raw_value(), op: CompareAtomicOp::CswapLt.raw_value(), context: old(context)@ }),
            *final(context) == *old(context),
    {
        self.compare_atomic_swap_lt_triggered(buf, desc, compare, compare_desc, result, result_desc, dest_slice.mem_address(), dest_slice.key(), context)
    }

    fn compare_atomic_swap_ge_mr_slice_triggered<T: AsFiType>(&self, buf: &[T], desc: Option<MemoryRegionDesc>, compare: &[T], compare_desc: Option<MemoryRegionDesc>, result: &[T], result_desc: Option<MemoryRegionDesc>, dest_slice: &RemoteMemAddrSliceMut<T>, context: &mut TriggeredContext) -> (r: AtomicCall)
        ensures
            r == (AtomicCall::CompareAtomic { ep: self.ep_fid(), count: buf@.len() as usize, desc: owned_desc_value(desc), compare_desc: owned_desc_value(compare_desc), result_desc: owned_desc_value(result_desc), dest_addr: FI_ADDR_UNSPEC, addr: dest_slice.mem_address_spec(), key: dest_slice.key_spec(), datatype: T::fi_datatype().raw_value(), op: CompareAtomicOp::CswapGe.raw_value(), context: old(context)@ }),
            *final(context) == *old(context),
    {
        self.compare_atomic_swap_ge_triggered(buf, desc, compare, compare_desc, result, result_desc, dest_slice.mem_address(), dest_slice.key(), context)
    }

    fn compare_atomic_swap_gt_mr_slice_triggered<T: AsFiType>(&self, buf: &[T], desc: Option<MemoryRegionDesc>, compare: &[T], compare_desc: Option<MemoryRegionDesc>, result: &[T], result_desc: Option<MemoryRegionDesc>, dest_slice: &RemoteMemAddrSliceMut<T>, context: &mut TriggeredContext) -> (r: AtomicCall)
        ensures
            r == (AtomicCall::CompareAtomic { ep: self.ep_fid(), count: buf@.len() as usize, desc: owned_desc_value(desc), compare_desc: owned_desc_value(compare_desc), result_desc: owned_desc_value(result_desc), dest_addr: FI_ADDR_UNSPEC, addr: dest_slice.mem_address_spec(), key: dest_slice.key_spec(), datatype: T::fi_datatype().raw_value(), op: CompareAtomicOp::CswapGt.raw_value(), context: old(context)@ }),
            *final(context) == *old(context),
    {
        self.compare_atomic_swap_gt_triggered(buf, desc, compare, compare_desc, result, result_desc, dest_slice.mem_address(), dest_slice.key(), context)
    }

    fn compare_atomic_mswap_mr_slice_triggered<T: AsFiType>(&self, buf: &[T], desc: Option<MemoryRegionDesc>, compare: &[T], compare_desc: Option<MemoryRegionDesc>, result: &[T], result_desc: Option<MemoryRegionDesc>, dest_slice: &RemoteMemAddrSliceMut<T>, context: &mut TriggeredContext) -> (r: AtomicCall)
        ensures
            r == (AtomicCall::CompareAtomic { ep: self.ep_fid(), count: buf@.len() as usize, desc: owned_desc_value(desc), compare_desc: owned_desc_value(compare_desc), result_desc: owned_desc_value(result_desc), dest_addr: FI_ADDR_UNSPEC, addr: dest_slice.mem_address_spec(), key: dest_slice.key_spec(), datatype: T::fi_datatype().raw_value(), op: CompareAtomicOp::Mswap.raw_value(), context: old(context)@ }),
            *final(context) == *old(context),
    {
        self.compare_atomic_mswap_triggered(buf, desc, compare, compare_desc, result, result_desc, dest_slice.mem_address(), dest_slice.key(), context)
    }

    fn compare_atomicv_swap_mr_slice<T: AsFiType>(&self, ioc: &[Ioc<T>], desc: Option<&[MemoryRegionDesc]>, comparetv: &[Ioc<T>], compare_desc: Option<&[MemoryRegionDesc]>, resultv: &[IocMut<T>], res_desc: Option<&[MemoryRegionDesc]>, dest_slice: &RemoteMemAddrSliceMut<T>) -> (r: AtomicCall)
        ensures
            r == (AtomicCall::CompareAtomicv { ep: self.ep_fid(), count: ioc@.len() as usize, descs: desc is Some, compare_count: comparetv@.len() as usize, compare_descs: compare_desc is Some, result_count: resultv@.len() as usize, result_descs: res_desc is Some, dest_addr: FI_ADDR_UNSPEC, addr: dest_slice.mem_address_spec(), key: dest_slice.key_spec(), datatype: T::fi_datatype().raw_value(), op: CompareAtomicOp::Cswap.raw_value(), context: 0 }),
    {
        self.compare_atomicv_swap(ioc, desc, comparetv, compare_desc, resultv, res_desc, dest_slice.mem_address(), dest_slice.key())
    }

    fn compare_atomicv_swap_ne_mr_slice<T: AsFiType>(&self, ioc: &[Ioc<T>], desc: Option<&[MemoryRegionDesc]>, comparetv: &[Ioc<T>], compare_desc: Option<&[MemoryRegionDesc]>, resultv: &[IocMut<T>], res_desc: Option<&[MemoryRegionDesc]>, dest_slice: &RemoteMemAddrSliceMut<T>) -> (r: AtomicCall)
        ensures
            r == (AtomicCall::CompareAtomicv { ep: self.ep_fid(), count: ioc@.len() as usize, descs: desc is Some, compare_count: comparetv@.len() as usize, compare_descs: compare_desc is Some, result_count: resultv@.len() as usize, result_descs: res_desc is Some, dest_addr: FI_ADDR_UNSPEC, addr: dest_slice.mem_address_spec(), key: dest_slice.key_spec(), datatype: T::fi_datatype().raw_value(), op: CompareAtomicOp::CswapNe.raw_value(), context: 0 }),
    {
        self.compare_atomicv_swap_ne(ioc, desc, comparetv, compare_desc, resultv, res_desc, dest_slice.mem_address(), dest_slice.key())
    }

    fn compare_atomicv_swap_le_mr_slice<T: AsFiType>(&self, ioc: &[Ioc<T>], desc: Option<&[MemoryRegionDesc]>, comparetv: &[Ioc<T>], compare_desc: Option<&[MemoryRegionDesc]>, resultv: &[IocMut<T>], res_desc: Option<&[MemoryRegionDesc]>, dest_slice: &RemoteMemAddrSliceMut<T>) -> (r: AtomicCall)
        ensures
            r == (AtomicCall::CompareAtomicv { ep: self.ep_fid(), count: ioc@.len() as usize, descs: desc is Some, compare_count: comparetv@.len() as usize, compare_descs: compare_desc is Some, result_count: resultv@.len() as usize, result_descs: res_desc is Some, dest_addr: FI_ADDR_UNSPEC, addr: dest_slice.mem_address_spec(), key: dest_slice.key_spec(), datatype: T::fi_datatype().raw_value(), op: CompareAtomicOp::CswapLe.raw_value(), context: 0 }),
    {
        self.compare_atomicv_swap_le(ioc, desc, comparetv, compare_desc, resultv, res_desc, dest_slice.mem_address(), dest_slice.key())
    }

    fn compare_atomicv_swap_lt_mr_slice<T: AsFiType>(&self, ioc: &[Ioc<T>], desc: Option<&[MemoryRegionDesc]>, comparetv: &[Ioc<T>], compare_desc: Option<&[MemoryRegionDesc]>, resultv: &[IocMut<T>], res_desc: Option<&[MemoryRegionDesc]>, dest_slice: &RemoteMemAddrSliceMut<T>) -> (r: AtomicCall)
        ensures
            r == (AtomicCall::CompareAtomicv { ep: self.ep_fid(), count: ioc@.len() as usize, descs: desc is Some, compare_count: comparetv@.len() as usize, compare_descs: compare_desc is Some, result_count: resultv@.len() as usize, result_descs: res_desc is Some, dest_addr: FI_ADDR_UNSPEC, addr: dest_slice.mem_address_spec(), key: dest_slice.key_spec(), datatype: T::fi_datatype().raw_value(), op: CompareAtomicOp::CswapLt.raw_value(), context: 0 }),
    {
        self.compare_atomicv_swap_lt(ioc, desc, comparetv, compare_desc, resultv, res_desc, dest_slice.mem_address(), dest_slice.key())
    }

    fn compare_atomicv_swap_ge_mr_slice<T: AsFiType>(&self, ioc: &[Ioc<T>], desc: Option<&[MemoryRegionDesc]>, comparetv: &[Ioc<T>], compare_desc: Option<&[MemoryRegionDesc]>, resultv: &[IocMut<T>], res_desc: Option<&[MemoryRegionDesc]>, dest_slice: &RemoteMemAddrSliceMut<T>) -> (r: AtomicCall)
        ensures
            r == (AtomicCall::CompareAtomicv { ep: self.ep_fid(), count: ioc@.len() as usize, descs: desc is Some, compare_count: comparetv@.len() as usize, compare_descs: compare_desc is Some, result_count: resultv@.len() as usize, result_descs: res_desc is Some, dest_addr: FI_ADDR_UNSPEC, addr: dest_slice.mem_address_spec(), key: dest_slice.key_spec(), datatype: T::fi_datatype().raw_value(), op: CompareAtomicOp::CswapGe.raw_value(), context: 0 }),
    {
        self.compare_atomicv_swap_ge(ioc, desc, comparetv, compare_desc, resultv, res_desc, dest_slice.mem_address(), dest_slice.key())
    }

    fn compare_atomicv_swap_gt_mr_slice<T: AsFiType>(&self, ioc: &[Ioc<T>], desc: Option<&[MemoryRegionDesc]>, comparetv: &[Ioc<T>], compare_desc: Option<&[MemoryRegionDesc]>, resultv: &[IocMut<T>], res_desc: Option<&[MemoryRegionDesc]>, dest_slice: &RemoteMemAddrSliceMut<T>) -> (r: AtomicCall)
        ensures
            r == (AtomicCall::CompareAtomicv { ep: self.ep_fid(), count: ioc@.len() as usize, descs: desc is Some, compare_count: comparetv@.len() as usize, compare_descs: compare_desc is Some, result_count: resultv@.len() as usize, result_descs: res_desc is Some, dest_addr: FI_ADDR_UNSPEC, addr: dest_slice.mem_address_spec(), key: dest_slice.key_spec(), datatype: T::fi_datatype().raw_value(), op: CompareAtomicOp::CswapGt.raw_value(), context: 0 }),
    {
        self.compare_atomicv_swap_gt(ioc, desc, comparetv, compare_desc, resultv, res_desc, dest_slice.mem_address(), dest_slice.key())
    }

    fn compare_atomicv_mswap_mr_slice<T: AsFiType>(&self, ioc: &[Ioc<T>], desc: Option<&[MemoryRegionDesc]>, comparetv: &[Ioc<T>], compare_desc: Option<&[MemoryRegionDesc]>, resultv: &[IocMut<T>], res_desc: Option<&[MemoryRegionDesc]>, dest_slice: &RemoteMemAddrSliceMut<T>) -> (r: AtomicCall)
        ensures
            r == (AtomicCall::CompareAtomicv { ep: self.ep_fid(), count: ioc@.len() as usize, descs: desc is Some, compare_count: comparetv@.len() as usize, compare_descs: compare_desc is Some, result_count: resultv@.len() as usize, result_descs: res_desc is Some, dest_addr: FI_ADDR_UNSPEC, addr: dest_slice.mem_address_spec(), key: dest_slice.key_spec(), datatype: T::fi_datatype().raw_value(), op: CompareAtomicOp::Mswap.raw_value(), context: 0 }),
    {
        self.compare_atomicv_mswap(ioc, desc, comparetv, compare_desc, resultv, res_desc, dest_slice.mem_address(), dest_slice.key())
    }

    fn compare_atomicv_swap_mr_slice_with_context<T: AsFiType>(&self, ioc: &[Ioc<T>], desc: Option<&[MemoryRegionDesc]>, comparetv: &[Ioc<T>], compare_desc: Option<&[MemoryRegionDesc]>, resultv: &[IocMut<T>], res_desc: Option<&[MemoryRegionDesc]>, dest_slice: &RemoteMemAddrSliceMut<T>, context: &mut Context) -> (r: AtomicCall)
        ensures
            r == (AtomicCall::CompareAtomicv { ep: self.ep_fid(), count: ioc@.len() as usize, descs: desc is Some, compare_count: comparetv@.len() as usize, compare_descs: compare_desc is Some, result_count: resultv@.len() as usize, result_descs: res_desc is Some, dest_addr: FI_ADDR_UNSPEC, addr: dest_slice.mem_address_spec(), key: dest_slice.key_spec(), datatype: T::fi_datatype().raw_value(), op: CompareAtomicOp::Cswap.raw_value(), context: old(context)@ }),
            *final(context) == *old(context),
    {
        self.compare_atomicv_swap_with_context(ioc, desc, comparetv, compare_desc, resultv, res_desc, dest_slice.mem_address(), dest_slice.key(), context)
    }

    fn compare_atomicv_swap_ne_mr_slice_with_context<T: AsFiType>(&self, ioc: &[Ioc<T>], desc: Option<&[MemoryRegionDesc]>, comparetv: &[Ioc<T>], compare_desc: Option<&[MemoryRegionDesc]>, resultv: &[IocMut<T>], res_desc: Option<&[MemoryRegionDesc]>, dest_slice: &RemoteMemAddrSliceMut<T>, context: &mut Context) -> (r: AtomicCall)
        ensures
            r == (AtomicCall::CompareAtomicv { ep: self.ep_fid(), count: ioc@.len() as usize, descs: desc is Some, compare_count: comparetv@.len() as usize, compare_descs: compare_desc is Some, result_count: resultv@.len() as usize, result_descs: res_desc is Some, dest_addr: FI_ADDR_UNSPEC, addr: dest_slice.mem_address_spec(), key: dest_slice.key_spec(), datatype: T::fi_datatype().raw_value(), op: CompareAtomicOp::CswapNe.raw_value(), context: old(context)@ }),
            *final(context) == *old(context),
    {
        self.compare_atomicv_swap_ne_with_context(ioc, desc, comparetv, compare_desc, resultv, res_desc, dest_slice.mem_address(), dest_slice.key(), context)
    }

    fn compare_atomicv_swap_le_mr_slice_with_context<T: AsFiType>(&self, ioc: &[Ioc<T>], desc: Option<&[MemoryRegionDesc]>, comparetv: &[Ioc<T>], compare_desc: Option<&[MemoryRegionDesc]>, resultv: &[IocMut<T>], res_desc: Option<&[MemoryRegionDesc]>, dest_slice: &RemoteMemAddrSliceMut<T>, context: &mut Context) -> (r: AtomicCall)
        ensures
            r == (AtomicCall::CompareAtomicv { ep: self.ep_fid(), count: ioc@.len() as usize, descs: desc is Some, compare_count: comparetv@.len() as usize, compare_descs: compare_desc is Some, result_count: resultv@.len() as usize, result_descs: res_desc is Some, dest_addr: FI_ADDR_UNSPEC, addr: dest_slice.mem_address_spec(), key: dest_slice.key_spec(), datatype: T::fi_datatype().raw_value(), op: CompareAtomicOp::CswapLe.raw_value(), context: old(context)@ }),
            *final(context) == *old(context),
    {
        self.compare_atomicv_swap_le_with_context(ioc, desc, comparetv, compare_desc, resultv, res_desc, dest_slice.mem_address(), dest_slice.key(), context)
    }

    fn compare_atomicv_swap_lt_mr_slice_with_context<T: AsFiType>(&self, ioc: &[Ioc<T>], desc: Option<&[MemoryRegionDesc]>, comparetv: &[Ioc<T>], compare_desc: Option<&[MemoryRegionDesc]>, resultv: &[IocMut<T>], res_desc: Option<&[MemoryRegionDesc]>, dest_slice: &RemoteMemAddrSliceMut<T>, context: &mut Context) -> (r: AtomicCall)
        ensures
            r == (AtomicCall::CompareAtomicv { ep: self.ep_fid(), count: ioc@.len() as usize, descs: desc is Some, compare_count: comparetv@.len() as usize, compare_descs: compare_desc is Some, result_count: resultv@.len() as usize, result_descs: res_desc is Some, dest_addr: FI_ADDR_UNSPEC, addr: dest_slice.mem_address_spec(), key: dest_slice.key_spec(), datatype: T::fi_datatype().raw_value(), op: CompareAtomicOp::CswapLt.raw_value(), context: old(context)@ }),
            *final(context) == *old(context),
    {
        self.compare_atomicv_swap_lt_with_context(ioc, desc, comparetv, compare_desc, resultv, res_desc, dest_slice.mem_address(), dest_slice.key(), context)
    }

    fn compare_atomicv_swap_ge_mr_slice_with_context<T: AsFiType>(&self, ioc: &[Ioc<T>], desc: Option<&[MemoryRegionDesc]>, comparetv: &[Ioc<T>], compare_desc: Option<&[MemoryRegionDesc]>, resultv: &[IocMut<T>], res_desc: Option<&[MemoryRegionDesc]>, dest_slice: &RemoteMemAddrSliceMut<T>, context: &mut Context) -> (r: AtomicCall)
        ensures
            r == (AtomicCall::CompareAtomicv { ep: self.ep_fid(), count: ioc@.len() as usize, descs: desc is Some, compare_count: comparetv@.len() as usize, compare_descs: compare_desc is Some, result_count: resultv@.len() as usize, result_descs: res_desc is Some, dest_addr: FI_ADDR_UNSPEC, addr: dest_slice.mem_address_spec(), key: dest_slice.key_spec(), datatype: T::fi_datatype().raw_value(), op: CompareAtomicOp::CswapGe.raw_value(), context: old(context)@ }),
            *final(context) == *old(context),
    {
        self.compare_atomicv_swap_ge_with_context(ioc, desc, comparetv, compare_desc, resultv, res_desc, dest_slice.mem_address(), dest_slice.key(), context)
    }

    fn compare_atomicv_swap_gt_mr_slice_with_context<T: AsFiType>(&self, ioc: &[Ioc<T>], desc: Option<&[MemoryRegionDesc]>, comparetv: &[Ioc<T>], compare_desc: Option<&[MemoryRegionDesc]>, resultv: &[IocMut<T>], res_desc: Option<&[MemoryRegionDesc]>, dest_slice: &RemoteMemAddrSliceMut<T>, context: &mut Context) -> (r: AtomicCall)
        ensures
            r == (AtomicCall::CompareAtomicv { ep: self.ep_fid(), count: ioc@.len() as usize, descs: desc is Some, compare_count: comparetv@.len() as usize, compare_descs: compare_desc is Some, result_count: resultv@.len() as usize, result_descs: res_desc is Some, dest_addr: FI_ADDR_UNSPEC, addr: dest_slice.mem_address_spec(), key: dest_slice.key_spec(), datatype: T::fi_datatype().raw_value(), op: CompareAtomicOp::CswapGt.raw_value(), context: old(context)@ }),
            *final(context) == *old(context),
    {
        self.compare_atomicv_swap_gt_with_context(ioc, desc, comparetv, compare_desc, resultv, res_desc, dest_slice.mem_address(), dest_slice.key(), context)
    }

    fn compare_atomicv_mswap_mr_slice_with_context<T: AsFiType>(&self, ioc: &[Ioc<T>], desc: Option<&[MemoryRegionDesc]>, comparetv: &[Ioc<T>], compare_desc: Option<&[MemoryRegionDesc]>, resultv: &[IocMut<T>], res_desc: Option<&[MemoryRegionDesc]>, dest_slice: &RemoteMemAddrSliceMut<T>, context: &mut Context) -> (r: AtomicCall)
        ensures
            r == (AtomicCall::CompareAtomicv { ep: self.ep_fid(), count: ioc@.len() as usize, descs: desc is Some, compare_count: comparetv@.len() as usize, compare_descs: compare_desc is Some, result_count: resultv@.len() as usize, result_descs: res_desc is Some, dest_addr: FI_ADDR_UNSPEC, addr: dest_slice.mem_address_spec(), key: dest_slice.key_spec(), datatype: T::fi_datatype().raw_value(), op: CompareAtomicOp::Mswap.raw_value(), context: old(context)@ }),
            *final(context) == *old(context),
    {
        self.compare_atomicv_mswap_with_context(ioc, desc, comparetv, compare_desc, resultv, res_desc, dest_slice.mem_address(), dest_slice.key(), context)
    }

    fn compare_atomicv_swap_mr_slice_triggered<T: AsFiType>(&self, ioc: &[Ioc<T>], desc: Option<&[MemoryRegionDesc]>, comparetv: &[Ioc<T>], compare_desc: Option<&[MemoryRegionDesc]>, resultv: &[IocMut<T>], res_desc: Option<&[MemoryRegionDesc]>, dest_slice: &RemoteMemAddrSliceMut<T>, context: &mut TriggeredContext) -> (r: AtomicCall)
        ensures
            r == (AtomicCall::CompareAtomicv { ep: self.ep_fid(), count: ioc@.len() as usize, descs: desc is Some, compare_count: comparetv@.len() as usize, compare_descs: compare_desc is Some, result_count: resultv@.len() as usize, result_descs: res_desc is Some, dest_addr: FI_ADDR_UNSPEC, addr: dest_slice.mem_address_spec(), key: dest_slice.key_spec(), datatype: T::fi_datatype().raw_value(), op: CompareAtomicOp::Cswap.raw_value(), context: old(context)@ }),
            *final(context) == *old(context),
    {
        self.compare_atomicv_swap_triggered(ioc, desc, comparetv, compare_desc, resultv, res_desc, dest_slice.mem_address(), dest_slice.key(), context)
    }

    fn compare_atomicv_swap_ne_mr_slice_triggered<T: AsFiType>(&self, ioc: &[Ioc<T>], desc: Option<&[MemoryRegionDesc]>, comparetv: &[Ioc<T>], compare_desc: Option<&[MemoryRegionDesc]>, resultv: &[IocMut<T>], res_desc: Option<&[MemoryRegionDesc]>, dest_slice: &RemoteMemAddrSliceMut<T>, context: &mut TriggeredContext) -> (r: AtomicCall)
        ensures
            r == (AtomicCall::CompareAtomicv { ep: self.ep_fid(), count: ioc@.len() as usize, descs: desc is Some, compare_count: comparetv@.len() as usize, compare_descs: compare_desc is Some, result_count: resultv@.len() as usize, result_descs: res_desc is Some, dest_addr: FI_ADDR_UNSPEC, addr: dest_slice.mem_address_spec(), key: dest_slice.key_spec(), datatype: T::fi_datatype().raw_value(), op: CompareAtomicOp::CswapNe.raw_value(), context: old(context)@ }),
            *final(context) == *old(context),
    {
        self.compare_atomicv_swap_ne_triggered(ioc, desc, comparetv, compare_desc, resultv, res_desc, dest_slice.mem_address(), dest_slice.key(), context)
    }

    fn compare_atomicv_swap_le_mr_slice_triggered<T: AsFiType>(&self, ioc: &[Ioc<T>], desc: Option<&[MemoryRegionDesc]>, comparetv: &[Ioc<T>], compare_desc: Option<&[MemoryRegionDesc]>, resultv: &[IocMut<T>], res_desc: Option<&[MemoryRegionDesc]>, dest_slice: &RemoteMemAddrSliceMut<T>, context: &mut TriggeredContext) -> (r: AtomicCall)
        ensures
            r == (AtomicCall::CompareAtomicv { ep: self.ep_fid(), count: ioc@.len() as usize, descs: desc is Some, compare_count: comparetv@.len() as usize, compare_descs: compare_desc is Some, result_count: resultv@.len() as usize, result_descs: res_desc is Some, dest_addr: FI_ADDR_UNSPEC, addr: dest_slice.mem_address_spec(), key: dest_slice.key_spec(), datatype: T::fi_datatype().raw_value(), op: CompareAtomicOp::CswapLe.raw_value(), context: old(context)@ }),
            *final(context) == *old(context),
    {
        self.compare_atomicv_swap_le_triggered(ioc, desc, comparetv, compare_desc, resultv, res_desc, dest_slice.mem_address(), dest_slice.key(), context)
    }

    fn compare_atomicv_swap_lt_mr_slice_triggered<T: AsFiType>(&self, ioc: &[Ioc<T>], desc: Option<&[MemoryRegionDesc]>, comparetv: &[Ioc<T>], compare_desc: Option<&[MemoryRegionDesc]>, resultv: &[IocMut<T>], res_desc: Option<&[MemoryRegionDesc]>, dest_slice: &RemoteMemAddrSliceMut<T>, context: &mut TriggeredContext) -> (r: AtomicCall)
        ensures
            r == (AtomicCall::CompareAtomicv { ep: self.ep_fid(), count: ioc@.len() as usize, descs: desc is Some, compare_count: comparetv@.len() as usize, compare_descs: compare_desc is Some, result_count: resultv@.len() as usize, result_descs: res_desc is Some, dest_addr: FI_ADDR_UNSPEC, addr: dest_slice.mem_address_spec(), key: dest_slice.key_spec(), datatype: T::fi_datatype().raw_value(), op: CompareAtomicOp::CswapLt.raw_value(), context: old(context)@ }),
            *final(context) == *old(context),
    {
        self.compare_atomicv_swap_lt_triggered(ioc, desc, comparetv, compare_desc, resultv, res_desc, dest_slice.mem_address(), dest_slice.key(), context)
    }

    fn compare_atomicv_swap_ge_mr_slice_triggered<T: AsFiType>(&self, ioc: &[Ioc<T>], desc: Option<&[MemoryRegionDesc]>, comparetv: &[Ioc<T>], compare_desc: Option<&[MemoryRegionDesc]>, resultv: &[IocMut<T>], res_desc: Option<&[MemoryRegionDesc]>, dest_slice: &RemoteMemAddrSliceMut<T>, context: &mut TriggeredContext) -> (r: AtomicCall)
        ensures
            r == (AtomicCall::CompareAtomicv { ep: self.ep_fid(), count: ioc@.len() as usize, descs: desc is Some, compare_count: comparetv@.len() as usize, compare_descs: compare_desc is Some, result_count: resultv@.len() as usize, result_descs: res_desc is Some, dest_addr: FI_ADDR_UNSPEC, addr: dest_slice.mem_address_spec(), key: dest_slice.key_spec(), datatype: T::fi_datatype().raw_value(), op: CompareAtomicOp::CswapGe.raw_value(), context: old(context)@ }),
            *final(context) == *old(context),
    {
        self.compare_atomicv_swap_ge_triggered(ioc, desc, comparetv, compare_desc, resultv, res_desc, dest_slice.mem_address(), dest_slice.key(), context)
    }

    fn compare_atomicv_swap_gt_mr_slice_triggered<T: AsFiType>(&self, ioc: &[Ioc<T>], desc: Option<&[MemoryRegionDesc]>, comparetv: &[Ioc<T>], compare_desc: Option<&[MemoryRegionDesc]>, resultv: &[IocMut<T>], res_desc: Option<&[MemoryRegionDesc]>, dest_slice: &RemoteMemAddrSliceMut<T>, context: &mut TriggeredContext) -> (r: AtomicCall)
        ensures
            r == (AtomicCall::CompareAtomicv { ep: self.ep_fid(), count: ioc@.len() as usize, descs: desc is Some, compare_count: comparetv@.len() as usize, compare_descs: compare_desc is Some, result_count: resultv@.len() as usize, result_descs: res_desc is Some, dest_addr: FI_ADDR_UNSPEC, addr: dest_slice.mem_address_spec(), key: dest_slice.key_spec(), datatype: T::fi_datatype().raw_value(), op: CompareAtomicOp::CswapGt.raw_value(), context: old(context)@ }),
            *final(context) == *old(context),
    {
        self.compare_atomicv_swap_gt_triggered(ioc, desc, comparetv, compare_desc, resultv, res_desc, dest_slice.mem_address(), dest_slice.key(), context)
    }

    fn compare_atomicv_mswap_mr_slice_triggered<T: AsFiType>(&self, ioc: &[Ioc<T>], desc: Option<&[MemoryRegionDesc]>, comparetv: &[Ioc<T>], compare_desc: Option<&[MemoryRegionDesc]>, resultv: &[IocMut<T>], res_desc: Option<&[MemoryRegionDesc]>, dest_slice: &RemoteMemAddrSliceMut<T>, context: &mut TriggeredContext) -> (r: AtomicCall)
        ensures
            r == (AtomicCall::CompareAtomicv { ep: self.ep_fid(), count: ioc@.len() as usize, descs: desc is Some, compare_count: comparetv@.len() as usize, compare_descs: compare_desc is Some, result_count: resultv@.len() as usize, result_descs: res_desc is Some, dest_addr: FI_ADDR_UNSPEC, addr: dest_slice.mem_address_spec(), key: dest_slice.key_spec(), datatype: T::fi_datatype().raw_value(), op: CompareAtomicOp::Mswap.raw_value(), context: old(context)@ }),
            *final(context) == *old(context),
    {
        self.compare_atomicv_mswap_triggered(ioc, desc, comparetv, compare_desc, resultv, res_desc, dest_slice.mem_address(), dest_slice.key(), context)
    }

    fn compare_atomicmsg_slice<T: AsFiType>(&self, msg: &MsgRef, comparev: &[Ioc<T>], compare_desc: Option<&[MemoryRegionDesc]>, resultv: &[IocMut<T>], res_desc: Option<&[MemoryRegionDesc]>, options: AtomicMsgOptions) -> (r: AtomicCall)
        ensures
            r == (AtomicCall::CompareAtomicmsg { ep: self.ep_fid(), msg: msg@, compare_count: comparev@.len() as usize, compare_descs: compare_desc is Some, result_count: resultv@.len() as usize, result_descs: res_desc is Some, flags: options@ }),
    {
        self.compare_atomicmsg(msg, comparev, compare_desc, resultv, res_desc, options)
    }
}

impl ConnectedAtomicCASRemoteMemAddrSliceEp for ConnectedEndpoint {}

} // verus!
