use vstd::prelude::*;
use crate::consts::FI_ADDR_UNSPEC;
use crate::ep::{
    addr_value, byte_len, ctx_value, extract_raw_ctx, owned_desc_value, raw_addr_or_unspec, raw_owned_desc, AsEndpointFid,
    ConnectedEndpoint, ConnectedEp, ConnectionlessEndpoint, ConnlessEp, Context, MappedAddress, MemoryRegionDesc, MsgRef,
    TriggeredContext,
};
use crate::flags::{TaggedRecvMsgOptions, TaggedSendMsgOptions};
use crate::mr::{IoVec, IoVecMut, MemoryRegionSlice, MemoryRegionSliceMut};

verus! {

/// The libfabric call a tagged operation makes, with the arguments it passes. Buffers and
/// I/O vectors stay with the caller: a call records their length in bytes (`len`) or their
/// number of elements (`count`), as libfabric expects for that call.
#[derive(Clone, Copy, Debug, PartialEq, Eq, Structural)]
pub enum TaggedCall {
    /// `fi_trecv(ep, buf, len, desc, src_addr, tag, ignore, context)`.
    Trecv { ep: u64, len: usize, desc: u64, src_addr: u64, tag: u64, ignore: u64, context: u64 },
    /// `fi_trecvv(ep, iov, desc, count, src_addr, tag, ignore, context)`.
    Trecvv { ep: u64, count: usize, descs: bool, src_addr: u64, tag: u64, ignore: u64, context: u64 },
    /// `fi_trecvmsg(ep, msg, flags)`.
    Trecvmsg { ep: u64, msg: u64, flags: u64 },
    /// `fi_tsend(ep, buf, len, desc, dest_addr, tag, context)`.
    Tsend { ep: u64, len: usize, desc: u64, dest_addr: u64, tag: u64, context: u64 },
    /// `fi_tsendv(ep, iov, desc, count, dest_addr, tag, context)`.
    Tsendv { ep: u64, count: usize, descs: bool, dest_addr: u64, tag: u64, context: u64 },
    /// `fi_tsendmsg(ep, msg, flags)`.
    Tsendmsg { ep: u64, msg: u64, flags: u64 },
    /// `fi_tsenddata(ep, buf, len, desc, data, dest_addr, tag, context)`.
    Tsenddata { ep: u64, len: usize, desc: u64, data: u64, dest_addr: u64, tag: u64, context: u64 },
    /// `fi_tinject(ep, buf, len, dest_addr, tag)`.
    Tinject { ep: u64, len: usize, dest_addr: u64, tag: u64 },
    /// `fi_tinjectdata(ep, buf, len, data, dest_addr, tag)`.
    Tinjectdata { ep: u64, len: usize, data: u64, dest_addr: u64, tag: u64 },
}

/// Plans the libfabric calls that receive tagged messages on an endpoint.
pub trait TagRecvEpImpl: AsEndpointFid {
    fn trecv_impl<T>(&self, buf: &[T], desc: Option<MemoryRegionDesc>, mapped_addr: Option<&MappedAddress>, tag: u64, ignore: Option<u64>, context: Option<u64>) -> (r: TaggedCall)
        ensures
            r == (TaggedCall::Trecv { ep: self.ep_fid(), len: byte_len(buf), desc: owned_desc_value(desc), src_addr: addr_value(mapped_addr), tag: tag, ignore: ignore.unwrap_or(0), context: ctx_value(context) }),
    {
        let len = core::mem::size_of_val(buf);
        let desc = raw_owned_desc(desc);
        let src_addr = raw_addr_or_unspec(mapped_addr);
        let tag = tag;
        let ignore = ignore.unwrap_or(0);
        let context = extract_raw_ctx(context);
        TaggedCall::Trecv { ep: self.as_raw_typed_fid(), len, desc, src_addr, tag, ignore, context }
    }

    fn trecvv_impl(&self, iov: &[IoVecMut], desc: Option<&[MemoryRegionDesc]>, src_mapped_addr: Option<&MappedAddress>, tag: u64, ignore: Option<u64>, context: Option<u64>) -> (r: TaggedCall)
        ensures
            r == (TaggedCall::Trecvv { ep: self.ep_fid(), count: iov@.len() as usize, descs: desc is Some, src_addr: addr_value(src_mapped_addr), tag: tag, ignore: ignore.unwrap_or(0), context: ctx_value(context) }),
    {
        let count = iov.len();
        let descs = desc.is_some();
        let src_addr = raw_addr_or_unspec(src_mapped_addr);
        let tag = tag;
        let ignore = ignore.unwrap_or(0);
        let context = extract_raw_ctx(context);
        TaggedCall::Trecvv { ep: self.as_raw_typed_fid(), count, descs, src_addr, tag, ignore, context }
    }

    fn trecvmsg_impl(&self, msg: &MsgRef, options: TaggedRecvMsgOptions) -> (r: TaggedCall)
        ensures
            r == (TaggedCall::Trecvmsg { ep: self.ep_fid(), msg: msg@, flags: options@ }),
    {
        let msg = msg.as_raw();
        let flags = options.as_raw();
        TaggedCall::Trecvmsg { ep: self.as_raw_typed_fid(), msg, flags }
    }
}

/// Plans the libfabric calls that send tagged messages from an endpoint.
pub trait TagSendEpImpl: AsEndpointFid {
    fn tsend_impl<T>(&self, buf: &[T], desc: Option<MemoryRegionDesc>, mapped_addr: Option<&MappedAddress>, tag: u64, context: Option<u64>) -> (r: TaggedCall)
        ensures
            r == (TaggedCall::Tsend { ep: self.ep_fid(), len: byte_len(buf), desc: owned_desc_value(desc), dest_addr: addr_value(mapped_addr), tag: tag, context: ctx_value(context) }),
    {
        let len = core::mem::size_of_val(buf);
        let desc = raw_owned_desc(desc);
        let dest_addr = raw_addr_or_unspec(mapped_addr);
        let tag = tag;
        let context = extract_raw_ctx(context);
        TaggedCall::Tsend { ep: self.as_raw_typed_fid(), len, desc, dest_addr, tag, context }
    }

    fn tsendv_impl(&self, iov: &[IoVec], desc: Option<&[MemoryRegionDesc]>, dest_mapped_addr: Option<&MappedAddress>, tag: u64, context: Option<u64>) -> (r: TaggedCall)
        ensures
            r == (TaggedCall::Tsendv { ep: self.ep_fid(), count: iov@.len() as usize, descs: desc is Some, dest_addr: addr_value(dest_mapped_addr), tag: tag, context: ctx_value(context) }),
    {
        let count = iov.len();
        let descs = desc.is_some();
        let dest_addr = raw_addr_or_unspec(dest_mapped_addr);
        let tag = tag;
        let context = extract_raw_ctx(context);
        TaggedCall::Tsendv { ep: self.as_raw_typed_fid(), count, descs, dest_addr, tag, context }
    }

    fn tsendmsg_impl(&self, msg: &MsgRef, options: TaggedSendMsgOptions) -> (r: TaggedCall)
        ensures
            r == (TaggedCall::Tsendmsg { ep: self.ep_fid(), msg: msg@, flags: options@ }),
    {
        let msg = msg.as_raw();
        let flags = options.as_raw();
        TaggedCall::Tsendmsg { ep: self.as_raw_typed_fid(), msg, flags }
    }

    fn tsenddata_impl<T>(&self, buf: &[T], desc: Option<MemoryRegionDesc>, data: u64, mapped_addr: Option<&MappedAddress>, tag: u64, context: Option<u64>) -> (r: TaggedCall)
        ensures
            r == (TaggedCall::Tsenddata { ep: self.ep_fid(), len: byte_len(buf), desc: owned_desc_value(desc), data: data, dest_addr: addr_value(mapped_addr), tag: tag, context: ctx_value(context) }),
    {
        let len = core::mem::size_of_val(buf);
        let desc = raw_owned_desc(desc);
        let data = data;
        let dest_addr = raw_addr_or_unspec(mapped_addr);
        let tag = tag;
        let context = extract_raw_ctx(context);
        TaggedCall::Tsenddata { ep: self.as_raw_typed_fid(), len, desc, data, dest_addr, tag, context }
    }

    fn tinject_impl<T>(&self, buf: &[T], mapped_addr: Option<&MappedAddress>, tag: u64) -> (r: TaggedCall)
        ensures
            r == (TaggedCall::Tinject { ep: self.ep_fid(), len: byte_len(buf), dest_addr: addr_value(mapped_addr), tag: tag }),
    {
        let len = core::mem::size_of_val(buf);
        let dest_addr = raw_addr_or_unspec(mapped_addr);
        let tag = tag;
        TaggedCall::Tinject { ep: self.as_raw_typed_fid(), len, dest_addr, tag }
    }

    fn tinjectdata_impl<T>(&self, buf: &[T], data: u64, mapped_addr: Option<&MappedAddress>, tag: u64) -> (r: TaggedCall)
        ensures
            r == (TaggedCall::Tinjectdata { ep: self.ep_fid(), len: byte_len(buf), data: data, dest_addr: addr_value(mapped_addr), tag: tag }),
    {
        let len = core::mem::size_of_val(buf);
        let data = data;
        let dest_addr = raw_addr_or_unspec(mapped_addr);
        let tag = tag;
        TaggedCall::Tinjectdata { ep: self.as_raw_typed_fid(), len, data, dest_addr, tag }
    }
}

impl TagRecvEpImpl for ConnectionlessEndpoint {}

impl TagRecvEpImpl for ConnectedEndpoint {}

impl TagSendEpImpl for ConnectionlessEndpoint {}

impl TagSendEpImpl for ConnectedEndpoint {}

/// Receiving tagged messages on a connectionless endpoint, from one peer or from any.
pub trait TagRecvEp: TagRecvEpImpl + ConnlessEp {
    fn trecv_from<T>(&self, buf: &[T], desc: Option<MemoryRegionDesc>, mapped_addr: &MappedAddress, tag: u64, ignore: Option<u64>) -> (r: TaggedCall)
        ensures
            r == (TaggedCall::Trecv { ep: self.ep_fid(), len: byte_len(buf), desc: owned_desc_value(desc), src_addr: mapped_addr@, tag: tag, ignore: ignore.unwrap_or(0), context: 0 }),
    {
        self.trecv_impl(buf, desc, Some(mapped_addr), tag, ignore, None)
    }

    fn trecv_from_any<T>(&self, buf: &[T], desc: Option<MemoryRegionDesc>, tag: u64, ignore: Option<u64>) -> (r: TaggedCall)
        ensures
            r == (TaggedCall::Trecv { ep: self.ep_fid(), len: byte_len(buf), desc: owned_desc_value(desc), src_addr: FI_ADDR_UNSPEC, tag: tag, ignore: ignore.unwrap_or(0), context: 0 }),
    {
        self.trecv_impl(buf, desc, None, tag, ignore, None)
    }

    fn trecv_from_with_context<T>(&self, buf: &[T], desc: Option<MemoryRegionDesc>, mapped_addr: &MappedAddress, tag: u64, ignore: Option<u64>, context: &mut Context) -> (r: TaggedCall)
        ensures
            r == (TaggedCall::Trecv { ep: self.ep_fid(), len: byte_len(buf), desc: owned_desc_value(desc), src_addr: mapped_addr@, tag: tag, ignore: ignore.unwrap_or(0), context: old(context)@ }),
            *final(context) == *old(context),
    {
        self.trecv_impl(buf, desc, Some(mapped_addr), tag, ignore, Some(context.inner_mut()))
    }

    fn trecv_from_any_with_context<T>(&self, buf: &[T], desc: Option<MemoryRegionDesc>, tag: u64, ignore: Option<u64>, context: &mut Context) -> (r: TaggedCall)
        ensures
            r == (TaggedCall::Trecv { ep: self.ep_fid(), len: byte_len(buf), desc: owned_desc_value(desc), src_addr: FI_ADDR_UNSPEC, tag: tag, ignore: ignore.unwrap_or(0), context: old(context)@ }),
            *final(context) == *old(context),
    {
        self.trecv_impl(buf, desc, None, tag, ignore, Some(context.inner_mut()))
    }

    fn trecv_from_triggered<T>(&self, buf: &[T], desc: Option<MemoryRegionDesc>, mapped_addr: &MappedAddress, tag: u64, ignore: Option<u64>, context: &mut TriggeredContext) -> (r: TaggedCall)
        ensures
            r == (TaggedCall::Trecv { ep: self.ep_fid(), len: byte_len(buf), desc: owned_desc_value(desc), src_addr: mapped_addr@, tag: tag, ignore: ignore.unwrap_or(0), context: old(context)@ }),
            *final(context) == *old(context),
    {
        self.trecv_impl(buf, desc, Some(mapped_addr), tag, ignore, Some(context.inner_mut()))
    }

    fn trecv_from_any_triggered<T>(&self, buf: &[T], desc: Option<MemoryRegionDesc>, tag: u64, ignore: Option<u64>, context: &mut TriggeredContext) -> (r: TaggedCall)
        ensures
            r == (TaggedCall::Trecv { ep: self.ep_fid(), len: byte_len(buf), desc: owned_desc_value(desc), src_addr: FI_ADDR_UNSPEC, tag: tag, ignore: ignore.unwrap_or(0), context: old(context)@ }),
            *final(context) == *old(context),
    {
        self.trecv_impl(buf, desc, None, tag, ignore, Some(context.inner_mut()))
    }

    fn trecvv_from(&self, iov: &[IoVecMut], desc: Option<&[MemoryRegionDesc]>, src_mapped_addr: &MappedAddress, tag: u64, ignore: Option<u64>) -> (r: TaggedCall)
        ensures
            r == (TaggedCall::Trecvv { ep: self.ep_fid(), count: iov@.len() as usize, descs: desc is Some, src_addr: src_mapped_addr@, tag: tag, ignore: ignore.unwrap_or(0), context: 0 }),
    {
        self.trecvv_impl(iov, desc, Some(src_mapped_addr), tag, ignore, None)
    }

    fn trecvv_from_any(&self, iov: &[IoVecMut], desc: Option<&[MemoryRegionDesc]>, tag: u64, ignore: Option<u64>) -> (r: TaggedCall)
        ensures
            r == (TaggedCall::Trecvv { ep: self.ep_fid(), count: iov@.len() as usize, descs: desc is Some, src_addr: FI_ADDR_UNSPEC, tag: tag, ignore: ignore.unwrap_or(0), context: 0 }),
    {
        self.trecvv_impl(iov, desc, None, tag, ignore, None)
    }

    fn trecvv_from_with_context(&self, iov: &[IoVecMut], desc: Option<&[MemoryRegionDesc]>, src_mapped_addr: &MappedAddress, tag: u64, ignore: Option<u64>, context: &mut Context) -> (r: TaggedCall)
        ensures
            r == (TaggedCall::Trecvv { ep: self.ep_fid(), count: iov@.len() as usize, descs: desc is Some, src_addr: src_mapped_addr@, tag: tag, ignore: ignore.unwrap_or(0), context: old(context)@ }),
            *final(context) == *old(context),
    {
        self.trecvv_impl(iov, desc, Some(src_mapped_addr), tag, ignore, Some(context.inner_mut()))
    }

    fn trecvv_from_any_with_context(&self, iov: &[IoVecMut], desc: Option<&[MemoryRegionDesc]>, tag: u64, ignore: Option<u64>, context: &mut Context) -> (r: TaggedCall)
        ensures
            r == (TaggedCall::Trecvv { ep: self.ep_fid(), count: iov@.len() as usize, descs: desc is Some, src_addr: FI_ADDR_UNSPEC, tag: tag, ignore: ignore.unwrap_or(0), context: old(context)@ }),
            *final(context) == *old(context),
    {
        self.trecvv_impl(iov, desc, None, tag, ignore, Some(context.inner_mut()))
    }

    fn trecvv_from_triggered(&self, iov: &[IoVecMut], desc: Option<&[MemoryRegionDesc]>, src_mapped_addr: &MappedAddress, tag: u64, ignore: Option<u64>, context: &mut TriggeredContext) -> (r: TaggedCall)
        ensures
            r == (TaggedCall::Trecvv { ep: self.ep_fid(), count: iov@.len() as usize, descs: desc is Some, src_addr: src_mapped_addr@, tag: tag, ignore: ignore.unwrap_or(0), context: old(context)@ }),
            *final(context) == *old(context),
    {
        self.trecvv_impl(iov, desc, Some(src_mapped_addr), tag, ignore, Some(context.inner_mut()))
    }

    fn trecvv_from_any_triggered(&self, iov: &[IoVecMut], desc: Option<&[MemoryRegionDesc]>, tag: u64, ignore: Option<u64>, context: &mut TriggeredContext) -> (r: TaggedCall)
        ensures
            r == (TaggedCall::Trecvv { ep: self.ep_fid(), count: iov@.len() as usize, descs: desc is Some, src_addr: FI_ADDR_UNSPEC, tag: tag, ignore: ignore.unwrap_or(0), context: old(context)@ }),
            *final(context) == *old(context),
    {
        self.trecvv_impl(iov, desc, None, tag, ignore, Some(context.inner_mut()))
    }

    fn trecvmsg_from(&self, msg: &MsgRef, options: TaggedRecvMsgOptions) -> (r: TaggedCall)
        ensures
            r == (TaggedCall::Trecvmsg { ep: self.ep_fid(), msg: msg@, flags: options@ }),
    {
        self.trecvmsg_impl(msg, options)
    }
}

impl TagRecvEp for ConnectionlessEndpoint {}

/// Receiving tagged messages on a connected endpoint.
pub trait ConnectedTagRecvEp: TagRecvEpImpl + ConnectedEp {
    fn trecv<T>(&self, buf: &[T], desc: Option<MemoryRegionDesc>, tag: u64, ignore: Option<u64>) -> (r: TaggedCall)
        ensures
            r == (TaggedCall::Trecv { ep: self.ep_fid(), len: byte_len(buf), desc: owned_desc_value(desc), src_addr: FI_ADDR_UNSPEC, tag: tag, ignore: ignore.unwrap_or(0), context: 0 }),
    {
        self.trecv_impl(buf, desc, None, tag, ignore, None)
    }

    fn trecv_with_context<T>(&self, buf: &[T], desc: Option<MemoryRegionDesc>, tag: u64, ignore: Option<u64>, context: &mut Context) -> (r: TaggedCall)
        ensures
            r == (TaggedCall::Trecv { ep: self.ep_fid(), len: byte_len(buf), desc: owned_desc_value(desc), src_addr: FI_ADDR_UNSPEC, tag: tag, ignore: ignore.unwrap_or(0), context: old(context)@ }),
            *final(context) == *old(context),
    {
        self.trecv_impl(buf, desc, None, tag, ignore, Some(context.inner_mut()))
    }

    fn trecv_triggered<T>(&self, buf: &[T], desc: Option<MemoryRegionDesc>, tag: u64, ignore: Option<u64>, context: &mut TriggeredContext) -> (r: TaggedCall)
        ensures
            r == (TaggedCall::Trecv { ep: self.ep_fid(), len: byte_len(buf), desc: owned_desc_value(desc), src_addr: FI_ADDR_UNSPEC, tag: tag, ignore: ignore.unwrap_or(0), context: old(context)@ }),
            *final(context) == *old(context),
    {
        self.trecv_impl(buf, desc, None, tag, ignore, Some(context.inner_mut()))
    }

    fn trecvv(&self, iov: &[IoVecMut], desc: Option<&[MemoryRegionDesc]>, tag: u64, ignore: Option<u64>) -> (r: TaggedCall)
        ensures
            r == (TaggedCall::Trecvv { ep: self.ep_fid(), count: iov@.len() as usize, descs: desc is Some, src_addr: FI_ADDR_UNSPEC, tag: tag, ignore: ignore.unwrap_or(0), context: 0 }),
    {
        self.trecvv_impl(iov, desc, None, tag, ignore, None)
    }

    fn trecvv_with_context(&self, iov: &[IoVecMut], desc: Option<&[MemoryRegionDesc]>, tag: u64, ignore: Option<u64>, context: &mut Context) -> (r: TaggedCall)
        ensures
            r == (TaggedCall::Trecvv { ep: self.ep_fid(), count: iov@.len() as usize, descs: desc is Some, src_addr: FI_ADDR_UNSPEC, tag: tag, ignore: ignore.unwrap_or(0), context: old(context)@ }),
            *final(context) == *old(context),
    {
        self.trecvv_impl(iov, desc, None, tag, ignore, Some(context.inner_mut()))
    }

    fn trecvv_triggered(&self, iov: &[IoVecMut], desc: Option<&[MemoryRegionDesc]>, tag: u64, ignore: Option<u64>, context: &mut TriggeredContext) -> (r: TaggedCall)
        ensures
            r == (TaggedCall::Trecvv { ep: self.ep_fid(), count: iov@.len() as usize, descs: desc is Some, src_addr: FI_ADDR_UNSPEC, tag: tag, ignore: ignore.unwrap_or(0), context: old(context)@ }),
            *final(context) == *old(context),
    {
        self.trecvv_impl(iov, desc, None, tag, ignore, Some(context.inner_mut()))
    }

    fn trecvmsg(&self, msg: &MsgRef, options: TaggedRecvMsgOptions) -> (r: TaggedCall)
        ensures
            r == (TaggedCall::Trecvmsg { ep: self.ep_fid(), msg: msg@, flags: options@ }),
    {
        self.trecvmsg_impl(msg, options)
    }
}

impl ConnectedTagRecvEp for ConnectedEndpoint {}

/// Receiving tagged messages into registered memory on a connectionless endpoint.
pub trait TagRecvEpMrSlice: TagRecvEp {
    fn trecv_mr_slice_from<T>(&self, mr_slice: &MemoryRegionSliceMut<T>, mapped_addr: &MappedAddress, tag: u64, ignore: Option<u64>) -> (r: TaggedCall)
        ensures
            r == (TaggedCall::Trecv { ep: self.ep_fid(), len: byte_len(mr_slice.data()), desc: mr_slice.desc_spec()@, src_addr: mapped_addr@, tag: tag, ignore: ignore.unwrap_or(0), context: 0 }),
    {
        let desc = mr_slice.desc();
        self.trecv_from(mr_slice.as_mut_slice(), Some(desc), mapped_addr, tag, ignore)
    }

    fn trecv_mr_slice_from_with_context<T>(&self, mr_slice: &MemoryRegionSliceMut<T>, mapped_addr: &MappedAddress, tag: u64, ignore: Option<u64>, context: &mut Context) -> (r: TaggedCall)
        ensures
            r == (TaggedCall::Trecv { ep: self.ep_fid(), len: byte_len(mr_slice.data()), desc: mr_slice.desc_spec()@, src_addr: mapped_addr@, tag: tag, ignore: ignore.unwrap_or(0), context: old(context)@ }),
            *final(context) == *old(context),
    {
        let desc = mr_slice.desc();
        self.trecv_from_with_context(mr_slice.as_mut_slice(), Some(desc), mapped_addr, tag, ignore, context)
    }

    fn trecv_mr_slice_from_triggered<T>(&self, mr_slice: &MemoryRegionSliceMut<T>, mapped_addr: &MappedAddress, tag: u64, ignore: Option<u64>, context: &mut TriggeredContext) -> (r: TaggedCall)
        ensures
            r == (TaggedCall::Trecv { ep: self.ep_fid(), len: byte_len(mr_slice.data()), desc: mr_slice.desc_spec()@, src_addr: mapped_addr@, tag: tag, ignore: ignore.unwrap_or(0), context: old(context)@ }),
            *final(context) == *old(context),
    {
        let desc = mr_slice.desc();
        self.trecv_from_triggered(mr_slice.as_mut_slice(), Some(desc), mapped_addr, tag, ignore, context)
    }

    fn trecv_mr_slice_from_any<T>(&self, mr_slice: &MemoryRegionSliceMut<T>, tag: u64, ignore: Option<u64>) -> (r: TaggedCall)
        ensures
            r == (TaggedCall::Trecv { ep: self.ep_fid(), len: byte_len(mr_slice.data()), desc: mr_slice.desc_spec()@, src_addr: FI_ADDR_UNSPEC, tag: tag, ignore: ignore.unwrap_or(0), context: 0 }),
    {
        let desc = mr_slice.desc();
        self.trecv_from_any(mr_slice.as_mut_slice(), Some(desc), tag, ignore)
    }

    fn trecv_mr_slice_from_any_with_context<T>(&self, mr_slice: &MemoryRegionSliceMut<T>, tag: u64, ignore: Option<u64>, context: &mut Context) -> (r: TaggedCall)
        ensures
            r == (TaggedCall::Trecv { ep: self.ep_fid(), len: byte_len(mr_slice.data()), desc: mr_slice.desc_spec()@, src_addr: FI_ADDR_UNSPEC, tag: tag, ignore: ignore.unwrap_or(0), context: old(context)@ }),
            *final(context) == *old(context),
    {
        let desc = mr_slice.desc();
        self.trecv_from_any_with_context(mr_slice.as_mut_slice(), Some(desc), tag, ignore, context)
    }

    fn trecv_mr_slice_from_any_triggered<T>(&self, mr_slice: &MemoryRegionSliceMut<T>, tag: u64, ignore: Option<u64>, context: &mut TriggeredContext) -> (r: TaggedCall)
        ensures
            r == (TaggedCall::Trecv { ep: self.ep_fid(), len: byte_len(mr_slice.data()), desc: mr_slice.desc_spec()@, src_addr: FI_ADDR_UNSPEC, tag: tag, ignore: ignore.unwrap_or(0), context: old(context)@ }),
            *final(context) == *old(context),
    {
        let desc = mr_slice.desc();
        self.trecv_from_any_triggered(mr_slice.as_mut_slice(), Some(desc), tag, ignore, context)
    }
}

impl TagRecvEpMrSlice for ConnectionlessEndpoint {}

/// Receiving tagged messages into registered memory on a connected endpoint.
pub trait ConnectedTagRecvEpMrSlice: ConnectedTagRecvEp {
    fn trecv_mr_slice<T>(&self, mr_slice: &MemoryRegionSliceMut<T>, tag: u64, ignore: Option<u64>) -> (r: TaggedCall)
        ensures
            r == (TaggedCall::Trecv { ep: self.ep_fid(), len: byte_len(mr_slice.data()), desc: mr_slice.desc_spec()@, src_addr: FI_ADDR_UNSPEC, tag: tag, ignore: ignore.unwrap_or(0), context: 0 }),
    {
        let desc = mr_slice.desc();
        self.trecv(mr_slice.as_mut_slice(), Some(desc), tag, ignore)
    }

    fn trecv_mr_slice_with_context<T>(&self, mr_slice: &MemoryRegionSliceMut<T>, context: &mut Context, tag: u64, ignore: Option<u64>) -> (r: TaggedCall)
        ensures
            r == (TaggedCall::Trecv { ep: self.ep_fid(), len: byte_len(mr_slice.data()), desc: mr_slice.desc_spec()@, src_addr: FI_ADDR_UNSPEC, tag: tag, ignore: ignore.unwrap_or(0), context: old(context)@ }),
            *final(context) == *old(context),
    {
        let desc = mr_slice.desc();
        self.trecv_with_context(mr_slice.as_mut_slice(), Some(desc), tag, ignore, context)
    }

    fn trecv_mr_slice_triggered<T>(&self, mr_slice: &MemoryRegionSliceMut<T>, context: &mut TriggeredContext, tag: u64, ignore: Option<u64>) -> (r: TaggedCall)
        ensures
            r == (TaggedCall::Trecv { ep: self.ep_fid(), len: byte_len(mr_slice.data()), desc: mr_slice.desc_spec()@, src_addr: FI_ADDR_UNSPEC, tag: tag, ignore: ignore.unwrap_or(0), context: old(context)@ }),
            *final(context) == *old(context),
    {
        let desc = mr_slice.desc();
        self.trecv_triggered(mr_slice.as_mut_slice(), Some(desc), tag, ignore, context)
    }
}

impl ConnectedTagRecvEpMrSlice for ConnectedEndpoint {}

/// Sending tagged messages from a connectionless endpoint to a given peer.
pub trait TagSendEp: TagSendEpImpl + ConnlessEp {
    fn tsend_to<T>(&self, buf: &[T], desc: Option<MemoryRegionDesc>, mapped_addr: &MappedAddress, tag: u64) -> (r: TaggedCall)
        ensures
            r == (TaggedCall::Tsend { ep: self.ep_fid(), len: byte_len(buf), desc: owned_desc_value(desc), dest_addr: mapped_addr@, tag: tag, context: 0 }),
    {
        self.tsend_impl(buf, desc, Some(mapped_addr), tag, None)
    }

    fn tsend_to_with_context<T>(&self, buf: &[T], desc: Option<MemoryRegionDesc>, mapped_addr: &MappedAddress, tag: u64, context: &mut Context) -> (r: TaggedCall)
        ensures
            r == (TaggedCall::Tsend { ep: self.ep_fid(), len: byte_len(buf), desc: owned_desc_value(desc), dest_addr: mapped_addr@, tag: tag, context: old(context)@ }),
            *final(context) == *old(context),
    {
        self.tsend_impl(buf, desc, Some(mapped_addr), tag, Some(context.inner_mut()))
    }

    fn tsend_to_triggered<T>(&self, buf: &[T], desc: Option<MemoryRegionDesc>, mapped_addr: &MappedAddress, tag: u64, context: &mut TriggeredContext) -> (r: TaggedCall)
        ensures
            r == (TaggedCall::Tsend { ep: self.ep_fid(), len: byte_len(buf), desc: owned_desc_value(desc), dest_addr: mapped_addr@, tag: tag, context: old(context)@ }),
            *final(context) == *old(context),
    {
        self.tsend_impl(buf, desc, Some(mapped_addr), tag, Some(context.inner_mut()))
    }

    fn tsendv_to(&self, iov: &[IoVec], desc: Option<&[MemoryRegionDesc]>, dest_mapped_addr: &MappedAddress, tag: u64) -> (r: TaggedCall)
        ensures
            r == (TaggedCall::Tsendv { ep: self.ep_fid(), count: iov@.len() as usize, descs: desc is Some, dest_addr: dest_mapped_addr@, tag: tag, context: 0 }),
    {
        self.tsendv_impl(iov, desc, Some(dest_mapped_addr), tag, None)
    }

    fn tsendv_to_with_context(&self, iov: &[IoVec], desc: Option<&[MemoryRegionDesc]>, dest_mapped_addr: &MappedAddress, tag: u64, context: &mut Context) -> (r: TaggedCall)
        ensures
            r == (TaggedCall::Tsendv { ep: self.ep_fid(), count: iov@.len() as usize, descs: desc is Some, dest_addr: dest_mapped_addr@, tag: tag, context: old(context)@ }),
            *final(context) == *old(context),
    {
        self.tsendv_impl(iov, desc, Some(dest_mapped_addr), tag, Some(context.inner_mut()))
    }

    fn tsendv_to_triggered(&self, iov: &[IoVec], desc: Option<&[MemoryRegionDesc]>, dest_mapped_addr: &MappedAddress, tag: u64, context: &mut TriggeredContext) -> (r: TaggedCall)
        ensures
            r == (TaggedCall::Tsendv { ep: self.ep_fid(), count: iov@.len() as usize, descs: desc is Some, dest_addr: dest_mapped_addr@, tag: tag, context: old(context)@ }),
            *final(context) == *old(context),
    {
        self.tsendv_impl(iov, desc, Some(dest_mapped_addr), tag, Some(context.inner_mut()))
    }

    fn tsenddata_to<T>(&self, buf: &[T], desc: Option<MemoryRegionDesc>, data: u64, mapped_addr: &MappedAddress, tag: u64) -> (r: TaggedCall)
        ensures
            r == (TaggedCall::Tsenddata { ep: self.ep_fid(), len: byte_len(buf), desc: owned_desc_value(desc), data: data, dest_addr: mapped_addr@, tag: tag, context: 0 }),
    {
        self.tsenddata_impl(buf, desc, data, Some(mapped_addr), tag, None)
    }

    fn tsenddata_to_with_context<T>(&self, buf: &[T], desc: Option<MemoryRegionDesc>, data: u64, mapped_addr: &MappedAddress, tag: u64, context: &mut Context) -> (r: TaggedCall)
        ensures
            r == (TaggedCall::Tsenddata { ep: self.ep_fid(), len: byte_len(buf), desc: owned_desc_value(desc), data: data, dest_addr: mapped_addr@, tag: tag, context: old(context)@ }),
            *final(context) == *old(context),
    {
        self.tsenddata_impl(buf, desc, data, Some(mapped_addr), tag, Some(context.inner_mut()))
    }

    fn tsenddata_to_triggered<T>(&self, buf: &[T], desc: Option<MemoryRegionDesc>, data: u64, mapped_addr: &MappedAddress, tag: u64, context: &mut TriggeredContext) -> (r: TaggedCall)
        ensures
            r == (TaggedCall::Tsenddata { ep: self.ep_fid(), len: byte_len(buf), desc: owned_desc_value(desc), data: data, dest_addr: mapped_addr@, tag: tag, context: old(context)@ }),
            *final(context) == *old(context),
    {
        self.tsenddata_impl(buf, desc, data, Some(mapped_addr), tag, Some(context.inner_mut()))
    }

    fn tinject_to<T>(&self, buf: &[T], mapped_addr: &MappedAddress, tag: u64) -> (r: TaggedCall)
        ensures
            r == (TaggedCall::Tinject { ep: self.ep_fid(), len: byte_len(buf), dest_addr: mapped_addr@, tag: tag }),
    {
        self.tinject_impl(buf, Some(mapped_addr), tag)
    }

    fn tinjectdata_to<T>(&self, buf: &[T], data: u64, mapped_addr: &MappedAddress, tag: u64) -> (r: TaggedCall)
        ensures
            r == (TaggedCall::Tinjectdata { ep: self.ep_fid(), len: byte_len(buf), data: data, dest_addr: mapped_addr@, tag: tag }),
    {
        self.tinjectdata_impl(buf, data, Some(mapped_addr), tag)
    }

    fn tsendmsg_to(&self, msg: &MsgRef, options: TaggedSendMsgOptions) -> (r: TaggedCall)
        ensures
            r == (TaggedCall::Tsendmsg { ep: self.ep_fid(), msg: msg@, flags: options@ }),
    {
        self.tsendmsg_impl(msg, options)
    }
}

impl TagSendEp for ConnectionlessEndpoint {}

/// Sending tagged messages on a connected endpoint.
pub trait ConnectedTagSendEp: TagSendEpImpl + ConnectedEp {
    fn tsend<T>(&self, buf: &[T], desc: Option<MemoryRegionDesc>, tag: u64) -> (r: TaggedCall)
        ensures
            r == (TaggedCall::Tsend { ep: self.ep_fid(), len: byte_len(buf), desc: owned_desc_value(desc), dest_addr: FI_ADDR_UNSPEC, tag: tag, context: 0 }),
    {
        self.tsend_impl(buf, desc, None, tag, None)
    }

    fn tsend_with_context<T>(&self, buf: &[T], desc: Option<MemoryRegionDesc>, tag: u64, context: &mut Context) -> (r: TaggedCall)
        ensures
            r == (TaggedCall::Tsend { ep: self.ep_fid(), len: byte_len(buf), desc: owned_desc_value(desc), dest_addr: FI_ADDR_UNSPEC, tag: tag, context: old(context)@ }),
            *final(context) == *old(context),
    {
        self.tsend_impl(buf, desc, None, tag, Some(context.inner_mut()))
    }

    fn tsend_triggered<T>(&self, buf: &[T], desc: Option<MemoryRegionDesc>, tag: u64, context: &mut TriggeredContext) -> (r: TaggedCall)
        ensures
            r == (TaggedCall::Tsend { ep: self.ep_fid(), len: byte_len(buf), desc: owned_desc_value(desc), dest_addr: FI_ADDR_UNSPEC, tag: tag, context: old(context)@ }),
            *final(context) == *old(context),
    {
        self.tsend_impl(buf, desc, None, tag, Some(context.inner_mut()))
    }

    fn tsendv(&self, iov: &[IoVec], desc: Option<&[MemoryRegionDesc]>, tag: u64) -> (r: TaggedCall)
        ensures
            r == (TaggedCall::Tsendv { ep: self.ep_fid(), count: iov@.len() as usize, descs: desc is Some, dest_addr: FI_ADDR_UNSPEC, tag: tag, context: 0 }),
    {
        self.tsendv_impl(iov, desc, None, tag, None)
    }

    fn tsendv_with_context(&self, iov: &[IoVec], desc: Option<&[MemoryRegionDesc]>, tag: u64, context: &mut Context) -> (r: TaggedCall)
        ensures
            r == (TaggedCall::Tsendv { ep: self.ep_fid(), count: iov@.len() as usize, descs: desc is Some, dest_addr: FI_ADDR_UNSPEC, tag: tag, context: old(context)@ }),
            *final(context) == *old(context),
    {
        self.tsendv_impl(iov, desc, None, tag, Some(context.inner_mut()))
    }

    fn tsendv_triggered(&self, iov: &[IoVec], desc: Option<&[MemoryRegionDesc]>, tag: u64, context: &mut TriggeredContext) -> (r: TaggedCall)
        ensures
            r == (TaggedCall::Tsendv { ep: self.ep_fid(), count: iov@.len() as usize, descs: desc is Some, dest_addr: FI_ADDR_UNSPEC, tag: tag, context: old(context)@ }),
            *final(context) == *old(context),
    {
        self.tsendv_impl(iov, desc, None, tag, Some(context.inner_mut()))
    }

    fn tsenddata<T>(&self, buf: &[T], desc: Option<MemoryRegionDesc>, data: u64, tag: u64) -> (r: TaggedCall)
        ensures
            r == (TaggedCall::Tsenddata { ep: self.ep_fid(), len: byte_len(buf), desc: owned_desc_value(desc), data: data, dest_addr: FI_ADDR_UNSPEC, tag: tag, context: 0 }),
    {
        self.tsenddata_impl(buf, desc, data, None, tag, None)
    }

    fn tsenddata_with_context<T>(&self, buf: &[T], desc: Option<MemoryRegionDesc>, data: u64, tag: u64, context: &mut Context) -> (r: TaggedCall)
        ensures
            r == (TaggedCall::Tsenddata { ep: self.ep_fid(), len: byte_len(buf), desc: owned_desc_value(desc), data: data, dest_addr: FI_ADDR_UNSPEC, tag: tag, context: old(context)@ }),
            *final(context) == *old(context),
    {
        self.tsenddata_impl(buf, desc, data, None, tag, Some(context.inner_mut()))
    }

    fn tsenddata_triggered<T>(&self, buf: &[T], desc: Option<MemoryRegionDesc>, data: u64, tag: u64, context: &mut TriggeredContext) -> (r: TaggedCall)
        ensures
            r == (TaggedCall::Tsenddata { ep: self.ep_fid(), len: byte_len(buf), desc: owned_desc_value(desc), data: data, dest_addr: FI_ADDR_UNSPEC, tag: tag, context: old(context)@ }),
            *final(context) == *old(context),
    {
        self.tsenddata_impl(buf, desc, data, None, tag, Some(context.inner_mut()))
    }

    fn tinject<T>(&self, buf: &[T], tag: u64) -> (r: TaggedCall)
        ensures
            r == (TaggedCall::Tinject { ep: self.ep_fid(), len: byte_len(buf), dest_addr: FI_ADDR_UNSPEC, tag: tag }),
    {
        self.tinject_impl(buf, None, tag)
    }

    fn tinjectdata<T>(&self, buf: &[T], data: u64, tag: u64) -> (r: TaggedCall)
        ensures
            r == (TaggedCall::Tinjectdata { ep: self.ep_fid(), len: byte_len(buf), data: data, dest_addr: FI_ADDR_UNSPEC, tag: tag }),
    {
        self.tinjectdata_impl(buf, data, None, tag)
    }

    fn tsendmsg(&self, msg: &MsgRef, options: TaggedSendMsgOptions) -> (r: TaggedCall)
        ensures
            r == (TaggedCall::Tsendmsg { ep: self.ep_fid(), msg: msg@, flags: options@ }),
    {
        self.tsendmsg_impl(msg, options)
    }
}

impl ConnectedTagSendEp for ConnectedEndpoint {}

/// Sending tagged messages out of registered memory from a connectionless endpoint.
pub trait TagSendEpMrSlice: TagSendEp {
    fn tsend_mr_slice_to<T>(&self, mr_slice: &MemoryRegionSlice<T>, mapped_addr: &MappedAddress, tag: u64) -> (r: TaggedCall)
        ensures
            r == (TaggedCall::Tsend { ep: self.ep_fid(), len: byte_len(mr_slice.data()), desc: mr_slice.desc_spec()@, dest_addr: mapped_addr@, tag: tag, context: 0 }),
    {
        self.tsend_to(mr_slice.as_slice(), Some(mr_slice.desc()), mapped_addr, tag)
    }

    fn tsend_mr_slice_to_with_context<T>(&self, mr_slice: &MemoryRegionSlice<T>, mapped_addr: &MappedAddress, tag: u64, context: &mut Context) -> (r: TaggedCall)
        ensures
            r == (TaggedCall::Tsend { ep: self.ep_fid(), len: byte_len(mr_slice.data()), desc: mr_slice.desc_spec()@, dest_addr: mapped_addr@, tag: tag, context: old(context)@ }),
            *final(context) == *old(context),
    {
        self.tsend_to_with_context(mr_slice.as_slice(), Some(mr_slice.desc()), mapped_addr, tag, context)
    }

    fn tsend_mr_slice_to_triggered<T>(&self, mr_slice: &MemoryRegionSlice<T>, mapped_addr: &MappedAddress, tag: u64, context: &mut TriggeredContext) -> (r: TaggedCall)
        ensures
            r == (TaggedCall::Tsend { ep: self.ep_fid(), len: byte_len(mr_slice.data()), desc: mr_slice.desc_spec()@, dest_addr: mapped_addr@, tag: tag, context: old(context)@ }),
            *final(context) == *old(context),
    {
        self.tsend_to_triggered(mr_slice.as_slice(), Some(mr_slice.desc()), mapped_addr, tag, context)
    }

    fn tsenddata_mr_slice_to<T>(&self, mr_slice: &MemoryRegionSlice<T>, data: u64, mapped_addr: &MappedAddress, tag: u64) -> (r: TaggedCall)
        ensures
            r == (TaggedCall::Tsenddata { ep: self.ep_fid(), len: byte_len(mr_slice.data()), desc: mr_slice.desc_spec()@, data: data, dest_addr: mapped_addr@, tag: tag, context: 0 }),
    {
        self.tsenddata_to(mr_slice.as_slice(), Some(mr_slice.desc()), data, mapped_addr, tag)
    }

    fn tsenddata_mr_slice_to_with_context<T>(&self, mr_slice: &MemoryRegionSlice<T>, data: u64, mapped_addr: &MappedAddress, tag: u64, context: &mut Context) -> (r: TaggedCall)
        ensures
            r == (TaggedCall::Tsenddata { ep: self.ep_fid(), len: byte_len(mr_slice.data()), desc: mr_slice.desc_spec()@, data: data, dest_addr: mapped_addr@, tag: tag, context: old(context)@ }),
            *final(context) == *old(context),
    {
        self.tsenddata_to_with_context(mr_slice.as_slice(), Some(mr_slice.desc()), data, mapped_addr, tag, context)
    }

    fn tsenddata_mr_slice_to_triggered<T>(&self, mr_slice: &MemoryRegionSlice<T>, data: u64, mapped_addr: &MappedAddress, tag: u64, context: &mut TriggeredContext) -> (r: TaggedCall)
        ensures
            r == (TaggedCall::Tsenddata { ep: self.ep_fid(), len: byte_len(mr_slice.data()), desc: mr_slice.desc_spec()@, data: data, dest_addr: mapped_addr@, tag: tag, context: old(context)@ }),
            *final(context) == *old(context),
    {
        self.tsenddata_to_triggered(mr_slice.as_slice(), Some(mr_slice.desc()), data, mapped_addr, tag, context)
    }

    fn tinject_mr_slice_to<T>(&self, mr_slice: &MemoryRegionSlice<T>, mapped_addr: &MappedAddress, tag: u64) -> (r: TaggedCall)
        ensures
            r == (TaggedCall::Tinject { ep: self.ep_fid(), len: byte_len(mr_slice.data()), dest_addr: mapped_addr@, tag: tag }),
    {
        self.tinject_to(mr_slice.as_slice(), mapped_addr, tag)
    }

    fn tinjectdata_mr_slice_to<T>(&self, mr_slice: &MemoryRegionSlice<T>, data: u64, mapped_addr: &MappedAddress, tag: u64) -> (r: TaggedCall)
        ensures
            r == (TaggedCall::Tinjectdata { ep: self.ep_fid(), len: byte_len(mr_slice.data()), data: data, dest_addr: mapped_addr@, tag: tag }),
    {
        self.tinjectdata_to(mr_slice.as_slice(), data, mapped_addr, tag)
    }
}

impl TagSendEpMrSlice for ConnectionlessEndpoint {}

/// Sending tagged messages out of registered memory on a connected endpoint.
pub trait ConnectedTagSendEpMrSlice: ConnectedTagSendEp {
    fn tsend_mr_slice<T>(&self, mr_slice: &MemoryRegionSlice<T>, tag: u64) -> (r: TaggedCall)
        ensures
            r == (TaggedCall::Tsend { ep: self.ep_fid(), len: byte_len(mr_slice.data()), desc: mr_slice.desc_spec()@, dest_addr: FI_ADDR_UNSPEC, tag: tag, context: 0 }),
    {
        self.tsend(mr_slice.as_slice(), Some(mr_slice.desc()), tag)
    }

    fn tsend_mr_slice_with_context<T>(&self, mr_slice: &MemoryRegionSlice<T>, tag: u64, context: &mut Context) -> (r: TaggedCall)
        ensures
            r == (TaggedCall::Tsend { ep: self.ep_fid(), len: byte_len(mr_slice.data()), desc: mr_slice.desc_spec()@, dest_addr: FI_ADDR_UNSPEC, tag: tag, context: old(context)@ }),
            *final(context) == *old(context),
    {
        self.tsend_with_context(mr_slice.as_slice(), Some(mr_slice.desc()), tag, context)
    }

    fn tsend_mr_slice_triggered<T>(&self, mr_slice: &MemoryRegionSlice<T>, tag: u64, context: &mut TriggeredContext) -> (r: TaggedCall)
        ensures
            r == (TaggedCall::Tsend { ep: self.ep_fid(), len: byte_len(mr_slice.data()), desc: mr_slice.desc_spec()@, dest_addr: FI_ADDR_UNSPEC, tag: tag, context: old(context)@ }),
            *final(context) == *old(context),
    {
        self.tsend_triggered(mr_slice.as_slice(), Some(mr_slice.desc()), tag, context)
    }

    fn tinject_mr_slice<T>(&self, mr_slice: &MemoryRegionSlice<T>, tag: u64) -> (r: TaggedCall)
        ensures
            r == (TaggedCall::Tinject { ep: self.ep_fid(), len: byte_len(mr_slice.data()), dest_addr: FI_ADDR_UNSPEC, tag: tag }),
    {
        self.tinject(mr_slice.as_slice(), tag)
    }

    fn tinjectdata_mr_slice<T>(&self, mr_slice: &MemoryRegionSlice<T>, data: u64, tag: u64) -> (r: TaggedCall)
        ensures
            r == (TaggedCall::Tinjectdata { ep: self.ep_fid(), len: byte_len(mr_slice.data()), data: data, dest_addr: FI_ADDR_UNSPEC, tag: tag }),
    {
        self.tinjectdata(mr_slice.as_slice(), data, tag)
    }

    fn tsenddata_mr_slice<T>(&self, mr_slice: &MemoryRegionSlice<T>, data: u64, tag: u64) -> (r: TaggedCall)
        ensures
            r == (TaggedCall::Tsenddata { ep: self.ep_fid(), len: byte_len(mr_slice.data()), desc: mr_slice.desc_spec()@, data: data, dest_addr: FI_ADDR_UNSPEC, tag: tag, context: 0 }),
    {
        self.tsenddata(mr_slice.as_slice(), Some(mr_slice.desc()), data, tag)
    }

    fn tsenddata_mr_slice_with_context<T>(&self, mr_slice: &MemoryRegionSlice<T>, data: u64, tag: u64, context: &mut Context) -> (r: TaggedCall)
        ensures
            r == (TaggedCall::Tsenddata { ep: self.ep_fid(), len: byte_len(mr_slice.data()), desc: mr_slice.desc_spec()@, data: data, dest_addr: FI_ADDR_UNSPEC, tag: tag, context: old(context)@ }),
            *final(context) == *old(context),
    {
        self.tsenddata_with_context(mr_slice.as_slice(), Some(mr_slice.desc()), data, tag, context)
    }

    fn tsenddata_mr_slice_triggered<T>(&self, mr_slice: &MemoryRegionSlice<T>, data: u64, tag: u64, context: &mut TriggeredContext) -> (r: TaggedCall)
        ensures
            r == (TaggedCall::Tsenddata { ep: self.ep_fid(), len: byte_len(mr_slice.data()), desc: mr_slice.desc_spec()@, data: data, dest_addr: FI_ADDR_UNSPEC, tag: tag, context: old(context)@ }),
            *final(context) == *old(context),
    {
        self.tsenddata_triggered(mr_slice.as_slice(), Some(mr_slice.desc()), data, tag, context)
    }
}

impl ConnectedTagSendEpMrSlice for ConnectedEndpoint {}

} // verus!
