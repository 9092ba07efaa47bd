use vstd::prelude::*;
use crate::ep::{
    addr_value, byte_len, ctx_value, desc_value, extract_raw_ctx, raw_addr_or_unspec, raw_desc, AsEndpointFid,
    ConnectedEndpoint, ConnectedEp, ConnectionlessEndpoint, ConnlessEp, Context, MappedAddress, MemoryRegionDesc,
    MsgRef, TriggeredContext,
};
use crate::consts::FI_ADDR_UNSPEC;
use crate::flags::{RecvMsgOptions, SendMsgOptions};
use crate::mr::{IoVec, IoVecMut};

verus! {

/// The libfabric call an operation makes, with the arguments it passes. Buffers and
/// I/O vectors stay with the caller: a call records their length in bytes (`len`) or
/// their number of elements (`count`), as libfabric expects for that call.
#[derive(Clone, Copy, Debug, PartialEq, Eq, Structural)]
pub enum MsgCall {
    /// `fi_recv(ep, buf, len, desc, src_addr, context)`.
    Recv { ep: u64, len: usize, desc: u64, src_addr: u64, context: u64 },
    /// `fi_recvv(ep, iov, desc, count, src_addr, context)`.
    Recvv { ep: u64, count: usize, descs: bool, src_addr: u64, context: u64 },
    /// `fi_recvmsg(ep, msg, flags)`.
    Recvmsg { ep: u64, msg: u64, flags: u64 },
    /// `fi_send(ep, buf, len, desc, dest_addr, context)`.
    Send { ep: u64, len: usize, desc: u64, dest_addr: u64, context: u64 },
    /// `fi_sendv(ep, iov, desc, count, dest_addr, context)`.
    Sendv { ep: u64, count: usize, descs: bool, dest_addr: u64, context: u64 },
    /// `fi_sendmsg(ep, msg, flags)`.
    Sendmsg { ep: u64, msg: u64, flags: u64 },
    /// `fi_senddata(ep, buf, len, desc, data, dest_addr, context)`.
    Senddata { ep: u64, len: usize, desc: u64, data: u64, dest_addr: u64, context: u64 },
    /// `fi_inject(ep, buf, len, dest_addr)`.
    Inject { ep: u64, len: usize, dest_addr: u64 },
    /// `fi_injectdata(ep, buf, len, data, dest_addr)`.
    Injectdata { ep: u64, len: usize, data: u64, dest_addr: u64 },
}

/// Plans the libfabric calls of untagged messages on an endpoint.
pub trait MsgEpImpl: AsEndpointFid {
    fn recv_impl<T>(&self, buf: &[T], desc: Option<&MemoryRegionDesc>, mapped_addr: Option<&MappedAddress>, context: Option<u64>) -> (r: MsgCall)
        ensures
            r == (MsgCall::Recv { ep: self.ep_fid(), len: byte_len(buf), desc: desc_value(desc), src_addr: addr_value(mapped_addr), context: ctx_value(context) }),
    {
        let len = core::mem::size_of_val(buf);
        let desc = raw_desc(desc);
        let src_addr = raw_addr_or_unspec(mapped_addr);
        let context = extract_raw_ctx(context);
        MsgCall::Recv { ep: self.as_raw_typed_fid(), len, desc, src_addr, context }
    }

    fn recvv_impl(&self, iov: &[IoVecMut], desc: Option<&[MemoryRegionDesc]>, mapped_addr: Option<&MappedAddress>, context: Option<u64>) -> (r: MsgCall)
        ensures
            r == (MsgCall::Recvv { ep: self.ep_fid(), count: iov@.len() as usize, descs: desc is Some, src_addr: addr_value(mapped_addr), context: ctx_value(context) }),
    {
        let count = iov.len();
        let descs = desc.is_some();
        let src_addr = raw_addr_or_unspec(mapped_addr);
        let context = extract_raw_ctx(context);
        MsgCall::Recvv { ep: self.as_raw_typed_fid(), count, descs, src_addr, context }
    }

    fn recvmsg_impl(&self, msg: &MsgRef, options: RecvMsgOptions) -> (r: MsgCall)
        ensures
            r == (MsgCall::Recvmsg { ep: self.ep_fid(), msg: msg@, flags: options@ }),
    {
        let msg = msg.as_raw();
        let flags = options.as_raw();
        MsgCall::Recvmsg { ep: self.as_raw_typed_fid(), msg, flags }
    }

    fn sendv_impl(&self, iov: &[IoVec], desc: Option<&[MemoryRegionDesc]>, mapped_addr: Option<&MappedAddress>, context: Option<u64>) -> (r: MsgCall)
        ensures
            r == (MsgCall::Sendv { ep: self.ep_fid(), count: iov@.len() as usize, descs: desc is Some, dest_addr: addr_value(mapped_addr), context: ctx_value(context) }),
    {
        let count = iov.len();
        let descs = desc.is_some();
        let dest_addr = raw_addr_or_unspec(mapped_addr);
        let context = extract_raw_ctx(context);
        MsgCall::Sendv { ep: self.as_raw_typed_fid(), count, descs, dest_addr, context }
    }

    fn send_impl<T>(&self, buf: &[T], desc: Option<&MemoryRegionDesc>, mapped_addr: Option<&MappedAddress>, context: Option<u64>) -> (r: MsgCall)
        ensures
            r == (MsgCall::Send { ep: self.ep_fid(), len: byte_len(buf), desc: desc_value(desc), dest_addr: addr_value(mapped_addr), context: ctx_value(context) }),
    {
        let len = core::mem::size_of_val(buf);
        let desc = raw_desc(desc);
        let dest_addr = raw_addr_or_unspec(mapped_addr);
        let context = extract_raw_ctx(context);
        MsgCall::Send { ep: self.as_raw_typed_fid(), len, desc, dest_addr, context }
    }

    fn sendmsg_impl(&self, msg: &MsgRef, options: SendMsgOptions) -> (r: MsgCall)
        ensures
            r == (MsgCall::Sendmsg { ep: self.ep_fid(), msg: msg@, flags: options@ }),
    {
        let msg = msg.as_raw();
        let flags = options.as_raw();
        MsgCall::Sendmsg { ep: self.as_raw_typed_fid(), msg, flags }
    }

    fn senddata_impl<T>(&self, buf: &[T], desc: Option<&MemoryRegionDesc>, data: u64, mapped_addr: Option<&MappedAddress>, context: Option<u64>) -> (r: MsgCall)
        ensures
            r == (MsgCall::Senddata { ep: self.ep_fid(), len: byte_len(buf), desc: desc_value(desc), data: data, dest_addr: addr_value(mapped_addr), context: ctx_value(context) }),
    {
        let len = core::mem::size_of_val(buf);
        let desc = raw_desc(desc);
        let data = data;
        let dest_addr = raw_addr_or_unspec(mapped_addr);
        let context = extract_raw_ctx(context);
        MsgCall::Senddata { ep: self.as_raw_typed_fid(), len, desc, data, dest_addr, context }
    }

    fn inject_impl<T>(&self, buf: &[T], mapped_addr: Option<&MappedAddress>) -> (r: MsgCall)
        ensures
            r == (MsgCall::Inject { ep: self.ep_fid(), len: byte_len(buf), dest_addr: addr_value(mapped_addr) }),
    {
        let len = core::mem::size_of_val(buf);
        let dest_addr = raw_addr_or_unspec(mapped_addr);
        MsgCall::Inject { ep: self.as_raw_typed_fid(), len, dest_addr }
    }

    fn injectdata_impl<T>(&self, buf: &[T], data: u64, mapped_addr: Option<&MappedAddress>) -> (r: MsgCall)
        ensures
            r == (MsgCall::Injectdata { ep: self.ep_fid(), len: byte_len(buf), data: data, dest_addr: addr_value(mapped_addr) }),
    {
        let len = core::mem::size_of_val(buf);
        let data = data;
        let dest_addr = raw_addr_or_unspec(mapped_addr);
        MsgCall::Injectdata { ep: self.as_raw_typed_fid(), len, data, dest_addr }
    }
}

/// Receiving messages on a connected endpoint.
pub trait ConnectedRecvEp: MsgEpImpl + ConnectedEp {
    fn recv<T>(&self, buf: &[T], desc: Option<&MemoryRegionDesc>) -> (r: MsgCall)
        ensures
            r == (MsgCall::Recv { ep: self.ep_fid(), len: byte_len(buf), desc: desc_value(desc), src_addr: FI_ADDR_UNSPEC, context: 0 }),
    {
        self.recv_impl(buf, desc, None, None)
    }

    fn recv_with_context<T>(&self, buf: &[T], desc: Option<&MemoryRegionDesc>, context: &mut Context) -> (r: MsgCall)
        ensures
            r == (MsgCall::Recv { ep: self.ep_fid(), len: byte_len(buf), desc: desc_value(desc), src_addr: FI_ADDR_UNSPEC, context: old(context)@ }),
            *final(context) == *old(context),
    {
        self.recv_impl(buf, desc, None, Some(context.inner_mut()))
    }

    fn recv_triggered<T>(&self, buf: &[T], desc: Option<&MemoryRegionDesc>, context: &mut TriggeredContext) -> (r: MsgCall)
        ensures
            r == (MsgCall::Recv { ep: self.ep_fid(), len: byte_len(buf), desc: desc_value(desc), src_addr: FI_ADDR_UNSPEC, context: old(context)@ }),
            *final(context) == *old(context),
    {
        self.recv_impl(buf, desc, None, Some(context.inner_mut()))
    }

    fn recvv(&self, iov: &[IoVecMut], desc: Option<&[MemoryRegionDesc]>) -> (r: MsgCall)
        ensures
            r == (MsgCall::Recvv { ep: self.ep_fid(), count: iov@.len() as usize, descs: desc is Some, src_addr: FI_ADDR_UNSPEC, context: 0 }),
    {
        self.recvv_impl(iov, desc, None, None)
    }

    fn recvv_with_context(&self, iov: &[IoVecMut], desc: Option<&[MemoryRegionDesc]>, context: &mut Context) -> (r: MsgCall)
        ensures
            r == (MsgCall::Recvv { ep: self.ep_fid(), count: iov@.len() as usize, descs: desc is Some, src_addr: FI_ADDR_UNSPEC, context: old(context)@ }),
            *final(context) == *old(context),
    {
        self.recvv_impl(iov, desc, None, Some(context.inner_mut()))
    }

    fn recvv_triggered(&self, iov: &[IoVecMut], desc: Option<&[MemoryRegionDesc]>, context: &mut TriggeredContext) -> (r: MsgCall)
        ensures
            r == (MsgCall::Recvv { ep: self.ep_fid(), count: iov@.len() as usize, descs: desc is Some, src_addr: FI_ADDR_UNSPEC, context: old(context)@ }),
            *final(context) == *old(context),
    {
        self.recvv_impl(iov, desc, None, Some(context.inner_mut()))
    }

    fn recvmsg(&self, msg: &MsgRef, options: RecvMsgOptions) -> (r: MsgCall)
        ensures
            r == (MsgCall::Recvmsg { ep: self.ep_fid(), msg: msg@, flags: options@ }),
    {
        self.recvmsg_impl(msg, options)
    }
}

impl ConnectedRecvEp for ConnectedEndpoint {}

/// Receiving messages on a connectionless endpoint, from one peer or from any.
pub trait RecvEp: MsgEpImpl + ConnlessEp {
    fn recv_from<T>(&self, buf: &[T], desc: Option<&MemoryRegionDesc>, mapped_addr: &MappedAddress) -> (r: MsgCall)
        ensures
            r == (MsgCall::Recv { ep: self.ep_fid(), len: byte_len(buf), desc: desc_value(desc), src_addr: mapped_addr@, context: 0 }),
    {
        self.recv_impl(buf, desc, Some(mapped_addr), None)
    }

    fn recv_from_with_context<T>(&self, buf: &[T], desc: Option<&MemoryRegionDesc>, mapped_addr: &MappedAddress, context: &mut Context) -> (r: MsgCall)
        ensures
            r == (MsgCall::Recv { ep: self.ep_fid(), len: byte_len(buf), desc: desc_value(desc), src_addr: mapped_addr@, context: old(context)@ }),
            *final(context) == *old(context),
    {
        self.recv_impl(buf, desc, Some(mapped_addr), Some(context.inner_mut()))
    }

    fn recv_from_triggered<T>(&self, buf: &[T], desc: Option<&MemoryRegionDesc>, mapped_addr: &MappedAddress, context: &mut TriggeredContext) -> (r: MsgCall)
        ensures
            r == (MsgCall::Recv { ep: self.ep_fid(), len: byte_len(buf), desc: desc_value(desc), src_addr: mapped_addr@, context: old(context)@ }),
            *final(context) == *old(context),
    {
        self.recv_impl(buf, desc, Some(mapped_addr), Some(context.inner_mut()))
    }

    fn recvv_from(&self, iov: &[IoVecMut], desc: Option<&[MemoryRegionDesc]>, mapped_addr: &MappedAddress) -> (r: MsgCall)
        ensures
            r == (MsgCall::Recvv { ep: self.ep_fid(), count: iov@.len() as usize, descs: desc is Some, src_addr: mapped_addr@, context: 0 }),
    {
        self.recvv_impl(iov, desc, Some(mapped_addr), None)
    }

    fn recvv_from_with_context(&self, iov: &[IoVecMut], desc: Option<&[MemoryRegionDesc]>, mapped_addr: &MappedAddress, context: &mut Context) -> (r: MsgCall)
        ensures
            r == (MsgCall::Recvv { ep: self.ep_fid(), count: iov@.len() as usize, descs: desc is Some, src_addr: mapped_addr@, context: old(context)@ }),
            *final(context) == *old(context),
    {
        self.recvv_impl(iov, desc, Some(mapped_addr), Some(context.inner_mut()))
    }

    fn recvv_from_triggered(&self, iov: &[IoVecMut], desc: Option<&[MemoryRegionDesc]>, mapped_addr: &MappedAddress, context: &mut TriggeredContext) -> (r: MsgCall)
        ensures
            r == (MsgCall::Recvv { ep: self.ep_fid(), count: iov@.len() as usize, descs: desc is Some, src_addr: mapped_addr@, context: old(context)@ }),
            *final(context) == *old(context),
    {
        self.recvv_impl(iov, desc, Some(mapped_addr), Some(context.inner_mut()))
    }

    fn recv_from_any<T>(&self, buf: &[T], desc: Option<&MemoryRegionDesc>) -> (r: MsgCall)
        ensures
            r == (MsgCall::Recv { ep: self.ep_fid(), len: byte_len(buf), desc: desc_value(desc), src_addr: FI_ADDR_UNSPEC, context: 0 }),
    {
        self.recv_impl(buf, desc, None, None)
    }

    fn recv_from_any_with_context<T>(&self, buf: &[T], desc: Option<&MemoryRegionDesc>, context: &mut Context) -> (r: MsgCall)
        ensures
            r == (MsgCall::Recv { ep: self.ep_fid(), len: byte_len(buf), desc: desc_value(desc), src_addr: FI_ADDR_UNSPEC, context: old(context)@ }),
            *final(context) == *old(context),
    {
        self.recv_impl(buf, desc, None, Some(context.inner_mut()))
    }

    fn recvv_from_any(&self, iov: &[IoVecMut], desc: Option<&[MemoryRegionDesc]>) -> (r: MsgCall)
        ensures
            r == (MsgCall::Recvv { ep: self.ep_fid(), count: iov@.len() as usize, descs: desc is Some, src_addr: FI_ADDR_UNSPEC, context: 0 }),
    {
        self.recvv_impl(iov, desc, None, None)
    }

    fn recvv_from_any_with_context(&self, iov: &[IoVecMut], desc: Option<&[MemoryRegionDesc]>, context: &mut Context) -> (r: MsgCall)
        ensures
            r == (MsgCall::Recvv { ep: self.ep_fid(), count: iov@.len() as usize, descs: desc is Some, src_addr: FI_ADDR_UNSPEC, context: old(context)@ }),
            *final(context) == *old(context),
    {
        self.recvv_impl(iov, desc, None, Some(context.inner_mut()))
    }

    fn recv_from_any_triggered<T>(&self, buf: &[T], desc: Option<&MemoryRegionDesc>, context: &mut TriggeredContext) -> (r: MsgCall)
        ensures
            r == (MsgCall::Recv { ep: self.ep_fid(), len: byte_len(buf), desc: desc_value(desc), src_addr: FI_ADDR_UNSPEC, context: old(context)@ }),
            *final(context) == *old(context),
    {
        self.recv_impl(buf, desc, None, Some(context.inner_mut()))
    }

    fn recvv_from_any_triggered(&self, iov: &[IoVecMut], desc: Option<&[MemoryRegionDesc]>, context: &mut TriggeredContext) -> (r: MsgCall)
        ensures
            r == (MsgCall::Recvv { ep: self.ep_fid(), count: iov@.len() as usize, descs: desc is Some, src_addr: FI_ADDR_UNSPEC, context: old(context)@ }),
            *final(context) == *old(context),
    {
        self.recvv_impl(iov, desc, None, Some(context.inner_mut()))
    }

    fn recvmsg_from(&self, msg: &MsgRef, options: RecvMsgOptions) -> (r: MsgCall)
        ensures
            r == (MsgCall::Recvmsg { ep: self.ep_fid(), msg: msg@, flags: options@ }),
    {
        self.recvmsg_impl(msg, options)
    }
}

impl RecvEp for ConnectionlessEndpoint {}

/// Sending messages from a connectionless endpoint to a given peer.
pub trait SendEp: MsgEpImpl + ConnlessEp {
    fn sendv_to(&self, iov: &[IoVec], desc: Option<&[MemoryRegionDesc]>, mapped_addr: &MappedAddress) -> (r: MsgCall)
        ensures
            r == (MsgCall::Sendv { ep: self.ep_fid(), count: iov@.len() as usize, descs: desc is Some, dest_addr: mapped_addr@, context: 0 }),
    {
        self.sendv_impl(iov, desc, Some(mapped_addr), None)
    }

    fn sendv_to_with_context(&self, iov: &[IoVec], desc: Option<&[MemoryRegionDesc]>, mapped_addr: &MappedAddress, context: &mut Context) -> (r: MsgCall)
        ensures
            r == (MsgCall::Sendv { ep: self.ep_fid(), count: iov@.len() as usize, descs: desc is Some, dest_addr: mapped_addr@, context: old(context)@ }),
            *final(context) == *old(context),
    {
        self.sendv_impl(iov, desc, Some(mapped_addr), Some(context.inner_mut()))
    }

    fn sendv_to_triggered(&self, iov: &[IoVec], desc: Option<&[MemoryRegionDesc]>, mapped_addr: &MappedAddress, context: &mut TriggeredContext) -> (r: MsgCall)
        ensures
            r == (MsgCall::Sendv { ep: self.ep_fid(), count: iov@.len() as usize, descs: desc is Some, dest_addr: mapped_addr@, context: old(context)@ }),
            *final(context) == *old(context),
    {
        self.sendv_impl(iov, desc, Some(mapped_addr), Some(context.inner_mut()))
    }

    fn send_to<T>(&self, buf: &[T], desc: Option<&MemoryRegionDesc>, mapped_addr: &MappedAddress) -> (r: MsgCall)
        ensures
            r == (MsgCall::Send { ep: self.ep_fid(), len: byte_len(buf), desc: desc_value(desc), dest_addr: mapped_addr@, context: 0 }),
    {
        self.send_impl(buf, desc, Some(mapped_addr), None)
    }

    fn send_to_with_context<T>(&self, buf: &[T], desc: Option<&MemoryRegionDesc>, mapped_addr: &MappedAddress, context: &mut Context) -> (r: MsgCall)
        ensures
            r == (MsgCall::Send { ep: self.ep_fid(), len: byte_len(buf), desc: desc_value(desc), dest_addr: mapped_addr@, context: old(context)@ }),
            *final(context) == *old(context),
    {
        self.send_impl(buf, desc, Some(mapped_addr), Some(context.inner_mut()))
    }

    fn send_to_triggered<T>(&self, buf: &[T], desc: Option<&MemoryRegionDesc>, mapped_addr: &MappedAddress, context: &mut TriggeredContext) -> (r: MsgCall)
        ensures
            r == (MsgCall::Send { ep: self.ep_fid(), len: byte_len(buf), desc: desc_value(desc), dest_addr: mapped_addr@, context: old(context)@ }),
            *final(context) == *old(context),
    {
        self.send_impl(buf, desc, Some(mapped_addr), Some(context.inner_mut()))
    }

    fn sendmsg_to(&self, msg: &MsgRef, options: SendMsgOptions) -> (r: MsgCall)
        ensures
            r == (MsgCall::Sendmsg { ep: self.ep_fid(), msg: msg@, flags: options@ }),
    {
        self.sendmsg_impl(msg, options)
    }

    fn senddata_to<T>(&self, buf: &[T], desc: Option<&MemoryRegionDesc>, data: u64, mapped_addr: &MappedAddress) -> (r: MsgCall)
        ensures
            r == (MsgCall::Senddata { ep: self.ep_fid(), len: byte_len(buf), desc: desc_value(desc), data: data, dest_addr: mapped_addr@, context: 0 }),
    {
        self.senddata_impl(buf, desc, data, Some(mapped_addr), None)
    }

    fn senddata_to_with_context<T>(&self, buf: &[T], desc: Option<&MemoryRegionDesc>, data: u64, mapped_addr: &MappedAddress, context: &mut Context) -> (r: MsgCall)
        ensures
            r == (MsgCall::Senddata { ep: self.ep_fid(), len: byte_len(buf), desc: desc_value(desc), data: data, dest_addr: mapped_addr@, context: old(context)@ }),
            *final(context) == *old(context),
    {
        self.senddata_impl(buf, desc, data, Some(mapped_addr), Some(context.inner_mut()))
    }

    fn senddata_to_triggered<T>(&self, buf: &[T], desc: Option<&MemoryRegionDesc>, data: u64, mapped_addr: &MappedAddress, context: &mut TriggeredContext) -> (r: MsgCall)
        ensures
            r == (MsgCall::Senddata { ep: self.ep_fid(), len: byte_len(buf), desc: desc_value(desc), data: data, dest_addr: mapped_addr@, context: old(context)@ }),
            *final(context) == *old(context),
    {
        self.senddata_impl(buf, desc, data, Some(mapped_addr), Some(context.inner_mut()))
    }

    fn inject_to<T>(&self, buf: &[T], mapped_addr: &MappedAddress) -> (r: MsgCall)
        ensures
            r == (MsgCall::Inject { ep: self.ep_fid(), len: byte_len(buf), dest_addr: mapped_addr@ }),
    {
        self.inject_impl(buf, Some(mapped_addr))
    }

    fn injectdata_to<T>(&self, buf: &[T], data: u64, mapped_addr: &MappedAddress) -> (r: MsgCall)
        ensures
            r == (MsgCall::Injectdata { ep: self.ep_fid(), len: byte_len(buf), data: data, dest_addr: mapped_addr@ }),
    {
        self.injectdata_impl(buf, data, Some(mapped_addr))
    }
}

impl SendEp for ConnectionlessEndpoint {}

/// Sending messages on a connected endpoint.
pub trait ConnectedSendEp: MsgEpImpl + ConnectedEp {
    fn sendv(&self, iov: &[IoVec], desc: Option<&[MemoryRegionDesc]>) -> (r: MsgCall)
        ensures
            r == (MsgCall::Sendv { ep: self.ep_fid(), count: iov@.len() as usize, descs: desc is Some, dest_addr: FI_ADDR_UNSPEC, context: 0 }),
    {
        self.sendv_impl(iov, desc, None, None)
    }

    fn sendv_with_context(&self, iov: &[IoVec], desc: Option<&[MemoryRegionDesc]>, context: &mut Context) -> (r: MsgCall)
        ensures
            r == (MsgCall::Sendv { ep: self.ep_fid(), count: iov@.len() as usize, descs: desc is Some, dest_addr: FI_ADDR_UNSPEC, context: old(context)@ }),
            *final(context) == *old(context),
    {
        self.sendv_impl(iov, desc, None, Some(context.inner_mut()))
    }

    fn sendv_triggered(&self, iov: &[IoVec], desc: Option<&[MemoryRegionDesc]>, context: &mut TriggeredContext) -> (r: MsgCall)
        ensures
            r == (MsgCall::Sendv { ep: self.ep_fid(), count: iov@.len() as usize, descs: desc is Some, dest_addr: FI_ADDR_UNSPEC, context: old(context)@ }),
            *final(context) == *old(context),
    {
        self.sendv_impl(iov, desc, None, Some(context.inner_mut()))
    }

    fn send<T>(&self, buf: &[T], desc: Option<&MemoryRegionDesc>) -> (r: MsgCall)
        ensures
            r == (MsgCall::Send { ep: self.ep_fid(), len: byte_len(buf), desc: desc_value(desc), dest_addr: FI_ADDR_UNSPEC, context: 0 }),
    {
        self.send_impl(buf, desc, None, None)
    }

    fn send_with_context<T>(&self, buf: &[T], desc: Option<&MemoryRegionDesc>, context: &mut Context) -> (r: MsgCall)
        ensures
            r == (MsgCall::Send { ep: self.ep_fid(), len: byte_len(buf), desc: desc_value(desc), dest_addr: FI_ADDR_UNSPEC, context: old(context)@ }),
            *final(context) == *old(context),
    {
        self.send_impl(buf, desc, None, Some(context.inner_mut()))
    }

    fn send_triggered<T>(&self, buf: &[T], desc: Option<&MemoryRegionDesc>, context: &mut TriggeredContext) -> (r: MsgCall)
        ensures
            r == (MsgCall::Send { ep: self.ep_fid(), len: byte_len(buf), desc: desc_value(desc), dest_addr: FI_ADDR_UNSPEC, context: old(context)@ }),
            *final(context) == *old(context),
    {
        self.send_impl(buf, desc, None, Some(context.inner_mut()))
    }

    fn sendmsg(&self, msg: &MsgRef, options: SendMsgOptions) -> (r: MsgCall)
        ensures
            r == (MsgCall::Sendmsg { ep: self.ep_fid(), msg: msg@, flags: options@ }),
    {
        self.sendmsg_impl(msg, options)
    }

    fn senddata<T>(&self, buf: &[T], desc: Option<&MemoryRegionDesc>, data: u64) -> (r: MsgCall)
        ensures
            r == (MsgCall::Senddata { ep: self.ep_fid(), len: byte_len(buf), desc: desc_value(desc), data: data, dest_addr: FI_ADDR_UNSPEC, context: 0 }),
    {
        self.senddata_impl(buf, desc, data, None, None)
    }

    fn senddata_with_context<T>(&self, buf: &[T], desc: Option<&MemoryRegionDesc>, data: u64, context: &mut Context) -> (r: MsgCall)
        ensures
            r == (MsgCall::Senddata { ep: self.ep_fid(), len: byte_len(buf), desc: desc_value(desc), data: data, dest_addr: FI_ADDR_UNSPEC, context: old(context)@ }),
            *final(context) == *old(context),
    {
        self.senddata_impl(buf, desc, data, None, Some(context.inner_mut()))
    }

    fn senddata_triggered<T>(&self, buf: &[T], desc: Option<&MemoryRegionDesc>, data: u64, context: &mut TriggeredContext) -> (r: MsgCall)
        ensures
            r == (MsgCall::Senddata { ep: self.ep_fid(), len: byte_len(buf), desc: desc_value(desc), data: data, dest_addr: FI_ADDR_UNSPEC, context: old(context)@ }),
            *final(context) == *old(context),
    {
        self.senddata_impl(buf, desc, data, None, Some(context.inner_mut()))
    }

    fn inject<T>(&self, buf: &[T]) -> (r: MsgCall)
        ensures
            r == (MsgCall::Inject { ep: self.ep_fid(), len: byte_len(buf), dest_addr: FI_ADDR_UNSPEC }),
    {
        self.inject_impl(buf, None)
    }

    fn injectdata<T>(&self, buf: &[T], data: u64) -> (r: MsgCall)
        ensures
            r == (MsgCall::Injectdata { ep: self.ep_fid(), len: byte_len(buf), data: data, dest_addr: FI_ADDR_UNSPEC }),
    {
        self.injectdata_impl(buf, data, None)
    }
}

impl ConnectedSendEp for ConnectedEndpoint {}

impl MsgEpImpl for ConnectedEndpoint {}

impl MsgEpImpl for ConnectionlessEndpoint {}

} // verus!
