use vstd::prelude::*;
use crate::consts::FI_ADDR_UNSPEC;
use crate::ep::{
    addr_value, byte_len, ctx_value, extract_raw_ctx, raw_addr_or_unspec, AsEndpointFid, ConnectedEndpoint,
    ConnectionlessEndpoint, Context, MappedAddress, MemoryRegionDesc, MsgRef,
};
use crate::flags::{ReadMsgOptions, WriteMsgOptions};
use crate::mr::{IoVec, MappedMemoryRegionKey};

verus! {

/// The libfabric call a remote memory access makes, with the arguments it passes. Buffers,
/// I/O vectors and descriptor arrays stay with the caller: a call records the length of a
/// buffer in bytes (`len`) or the number of entries of an I/O vector (`count`).
#[derive(Clone, Copy, Debug, PartialEq, Eq, Structural)]
pub enum RmaCall {
    /// `fi_read(ep, buf, len, desc, src_addr, addr, key, context)`.
    Read { ep: u64, len: usize, desc: u64, src_addr: u64, addr: u64, key: u64, context: u64 },
    /// `fi_readv(ep, iov, desc, count, src_addr, addr, key, context)`.
    Readv { ep: u64, count: usize, src_addr: u64, addr: u64, key: u64, context: u64 },
    /// `fi_readmsg(ep, msg, flags)`.
    Readmsg { ep: u64, msg: u64, flags: u64 },
    /// `fi_write(ep, buf, len, desc, dest_addr, addr, key, context)`.
    Write { ep: u64, len: usize, desc: u64, dest_addr: u64, addr: u64, key: u64, context: u64 },
    /// `fi_inject_write(ep, buf, len, dest_addr, addr, key)`.
    InjectWrite { ep: u64, len: usize, dest_addr: u64, addr: u64, key: u64 },
    /// `fi_writev(ep, iov, desc, count, dest_addr, addr, key, context)`.
    Writev { ep: u64, count: usize, dest_addr: u64, addr: u64, key: u64, context: u64 },
    /// `fi_writedata(ep, buf, len, desc, data, dest_addr, addr, key, context)`.
    Writedata { ep: u64, len: usize, desc: u64, data: u64, dest_addr: u64, addr: u64, key: u64, context: u64 },
    /// `fi_inject_writedata(ep, buf, len, data, dest_addr, addr, key)`.
    InjectWritedata { ep: u64, len: usize, data: u64, dest_addr: u64, addr: u64, key: u64 },
    /// `fi_writemsg(ep, msg, flags)`.
    Writemsg { ep: u64, msg: u64, flags: u64 },
}

/// Plans the libfabric calls that read a peer's memory.
pub trait ReadEpImpl: AsEndpointFid {
    fn read_impl<T>(&self, buf: &[T], desc: &MemoryRegionDesc, src_addr: Option<&MappedAddress>, mem_addr: u64, mapped_key: &MappedMemoryRegionKey, context: Option<u64>) -> (r: RmaCall)
        ensures
            r == (RmaCall::Read { ep: self.ep_fid(), len: byte_len(buf), desc: desc@, src_addr: addr_value(src_addr), addr: mem_addr, key: mapped_key@, context: ctx_value(context) }),
    {
        let len = core::mem::size_of_val(buf);
        let desc = desc.as_raw();
        let src_addr = raw_addr_or_unspec(src_addr);
        let addr = mem_addr;
        let key = mapped_key.key();
        let context = extract_raw_ctx(context);
        RmaCall::Read { ep: self.as_raw_typed_fid(), len, desc, src_addr, addr, key, context }
    }

    fn readv_impl(&self, iov: &[IoVec], desc: &[MemoryRegionDesc], src_addr: Option<&MappedAddress>, mem_addr: u64, mapped_key: &MappedMemoryRegionKey, context: Option<u64>) -> (r: RmaCall)
        ensures
            r == (RmaCall::Readv { ep: self.ep_fid(), count: iov@.len() as usize, src_addr: addr_value(src_addr), addr: mem_addr, key: mapped_key@, context: ctx_value(context) }),
    {
        let count = iov.len();
        let src_addr = raw_addr_or_unspec(src_addr);
        let addr = mem_addr;
        let key = mapped_key.key();
        let context = extract_raw_ctx(context);
        RmaCall::Readv { ep: self.as_raw_typed_fid(), count, src_addr, addr, key, context }
    }

    fn readmsg_impl(&self, msg: &MsgRef, options: ReadMsgOptions) -> (r: RmaCall)
        ensures
            r == (RmaCall::Readmsg { ep: self.ep_fid(), msg: msg@, flags: options@ }),
    {
        let msg = msg.as_raw();
        let flags = options.as_raw();
        RmaCall::Readmsg { ep: self.as_raw_typed_fid(), msg, flags }
    }
}

/// Plans the libfabric calls that write a peer's memory.
pub trait WriteEpImpl: AsEndpointFid {
    fn write_impl<T>(&self, buf: &[T], desc: &MemoryRegionDesc, dest_addr: Option<&MappedAddress>, mem_addr: u64, mapped_key: &MappedMemoryRegionKey, context: Option<u64>) -> (r: RmaCall)
        ensures
            r == (RmaCall::Write { ep: self.ep_fid(), len: byte_len(buf), desc: desc@, dest_addr: addr_value(dest_addr), addr: mem_addr, key: mapped_key@, context: ctx_value(context) }),
    {
        let len = core::mem::size_of_val(buf);
        let desc = desc.as_raw();
        let dest_addr = raw_addr_or_unspec(dest_addr);
        let addr = mem_addr;
        let key = mapped_key.key();
        let context = extract_raw_ctx(context);
        RmaCall::Write { ep: self.as_raw_typed_fid(), len, desc, dest_addr, addr, key, context }
    }

    fn inject_write_impl<T>(&self, buf: &[T], dest_addr: Option<&MappedAddress>, mem_addr: u64, mapped_key: &MappedMemoryRegionKey) -> (r: RmaCall)
        ensures
            r == (RmaCall::InjectWrite { ep: self.ep_fid(), len: byte_len(buf), dest_addr: addr_value(dest_addr), addr: mem_addr, key: mapped_key@ }),
    {
        let len = core::mem::size_of_val(buf);
        let dest_addr = raw_addr_or_unspec(dest_addr);
        let addr = mem_addr;
        let key = mapped_key.key();
        RmaCall::InjectWrite { ep: self.as_raw_typed_fid(), len, dest_addr, addr, key }
    }

    fn writev_impl(&self, iov: &[IoVec], desc: &[MemoryRegionDesc], dest_addr: Option<&MappedAddress>, mem_addr: u64, mapped_key: &MappedMemoryRegionKey, context: Option<u64>) -> (r: RmaCall)
        ensures
            r == (RmaCall::Writev { ep: self.ep_fid(), count: iov@.len() as usize, dest_addr: addr_value(dest_addr), addr: mem_addr, key: mapped_key@, context: ctx_value(context) }),
    {
        let count = iov.len();
        let dest_addr = raw_addr_or_unspec(dest_addr);
        let addr = mem_addr;
        let key = mapped_key.key();
        let context = extract_raw_ctx(context);
        RmaCall::Writev { ep: self.as_raw_typed_fid(), count, dest_addr, addr, key, context }
    }

    fn writedata_impl<T>(&self, buf: &[T], desc: &MemoryRegionDesc, data: u64, dest_addr: Option<&MappedAddress>, mem_addr: u64, mapped_key: &MappedMemoryRegionKey, context: Option<u64>) -> (r: RmaCall)
        ensures
            r == (RmaCall::Writedata { ep: self.ep_fid(), len: byte_len(buf), desc: desc@, data: data, dest_addr: addr_value(dest_addr), addr: mem_addr, key: mapped_key@, context: ctx_value(context) }),
    {
        let len = core::mem::size_of_val(buf);
        let desc = desc.as_raw();
        let data = data;
        let dest_addr = raw_addr_or_unspec(dest_addr);
        let addr = mem_addr;
        let key = mapped_key.key();
        let context = extract_raw_ctx(context);
        RmaCall::Writedata { ep: self.as_raw_typed_fid(), len, desc, data, dest_addr, addr, key, context }
    }

    fn inject_writedata_impl<T>(&self, buf: &[T], data: u64, dest_addr: Option<&MappedAddress>, mem_addr: u64, mapped_key: &MappedMemoryRegionKey) -> (r: RmaCall)
        ensures
            r == (RmaCall::InjectWritedata { ep: self.ep_fid(), len: byte_len(buf), data: data, dest_addr: addr_value(dest_addr), addr: mem_addr, key: mapped_key@ }),
    {
        let len = core::mem::size_of_val(buf);
        let data = data;
        let dest_addr = raw_addr_or_unspec(dest_addr);
        let addr = mem_addr;
        let key = mapped_key.key();
        RmaCall::InjectWritedata { ep: self.as_raw_typed_fid(), len, data, dest_addr, addr, key }
    }

    fn writemsg_impl(&self, msg: &MsgRef, options: WriteMsgOptions) -> (r: RmaCall)
        ensures
            r == (RmaCall::Writemsg { ep: self.ep_fid(), msg: msg@, flags: options@ }),
    {
        let msg = msg.as_raw();
        let flags = options.as_raw();
        RmaCall::Writemsg { ep: self.as_raw_typed_fid(), msg, flags }
    }
}

impl ReadEpImpl for ConnectionlessEndpoint {}

impl ReadEpImpl for ConnectedEndpoint {}

impl WriteEpImpl for ConnectionlessEndpoint {}

impl WriteEpImpl for ConnectedEndpoint {}

/// Remote reads of a peer's memory.
pub trait ReadEp: ReadEpImpl {
    fn read_from<T>(&self, buf: &[T], desc: &MemoryRegionDesc, src_addr: &MappedAddress, mem_addr: u64, mapped_key: &MappedMemoryRegionKey) -> (r: RmaCall)
        ensures
            r == (RmaCall::Read { ep: self.ep_fid(), len: byte_len(buf), desc: desc@, src_addr: src_addr@, addr: mem_addr, key: mapped_key@, context: 0 }),
    {
        self.read_impl(buf, desc, Some(src_addr), mem_addr, mapped_key, None)
    }

    fn read_from_with_context<T>(&self, buf: &[T], desc: &MemoryRegionDesc, src_addr: &MappedAddress, mem_addr: u64, mapped_key: &MappedMemoryRegionKey, context: &mut Context) -> (r: RmaCall)
        ensures
            r == (RmaCall::Read { ep: self.ep_fid(), len: byte_len(buf), desc: desc@, src_addr: src_addr@, addr: mem_addr, key: mapped_key@, context: old(context)@ }),
            *final(context) == *old(context),
    {
        self.read_impl(buf, desc, Some(src_addr), mem_addr, mapped_key, Some(context.inner_mut()))
    }

    fn read<T>(&self, buf: &[T], desc: &MemoryRegionDesc, mem_addr: u64, mapped_key: &MappedMemoryRegionKey) -> (r: RmaCall)
        ensures
            r == (RmaCall::Read { ep: self.ep_fid(), len: byte_len(buf), desc: desc@, src_addr: FI_ADDR_UNSPEC, addr: mem_addr, key: mapped_key@, context: 0 }),
    {
        self.read_impl(buf, desc, None, mem_addr, mapped_key, None)
    }

    fn read_with_context<T>(&self, buf: &[T], desc: &MemoryRegionDesc, mem_addr: u64, mapped_key: &MappedMemoryRegionKey, context: &mut Context) -> (r: RmaCall)
        ensures
            r == (RmaCall::Read { ep: self.ep_fid(), len: byte_len(buf), desc: desc@, src_addr: FI_ADDR_UNSPEC, addr: mem_addr, key: mapped_key@, context: old(context)@ }),
            *final(context) == *old(context),
    {
        self.read_impl(buf, desc, None, mem_addr, mapped_key, Some(context.inner_mut()))
    }

    fn readv_from(&self, iov: &[IoVec], desc: &[MemoryRegionDesc], src_addr: &MappedAddress, mem_addr: u64, mapped_key: &MappedMemoryRegionKey) -> (r: RmaCall)
        ensures
            r == (RmaCall::Readv { ep: self.ep_fid(), count: iov@.len() as usize, src_addr: src_addr@, addr: mem_addr, key: mapped_key@, context: 0 }),
    {
        self.readv_impl(iov, desc, Some(src_addr), mem_addr, mapped_key, None)
    }

    fn readv_from_with_context(&self, iov: &[IoVec], desc: &[MemoryRegionDesc], src_addr: &MappedAddress, mem_addr: u64, mapped_key: &MappedMemoryRegionKey, context: &mut Context) -> (r: RmaCall)
        ensures
            r == (RmaCall::Readv { ep: self.ep_fid(), count: iov@.len() as usize, src_addr: src_addr@, addr: mem_addr, key: mapped_key@, context: old(context)@ }),
            *final(context) == *old(context),
    {
        self.readv_impl(iov, desc, Some(src_addr), mem_addr, mapped_key, Some(context.inner_mut()))
    }

    fn readv(&self, iov: &[IoVec], desc: &[MemoryRegionDesc], mem_addr: u64, mapped_key: &MappedMemoryRegionKey) -> (r: RmaCall)
        ensures
            r == (RmaCall::Readv { ep: self.ep_fid(), count: iov@.len() as usize, src_addr: FI_ADDR_UNSPEC, addr: mem_addr, key: mapped_key@, context: 0 }),
    {
        self.readv_impl(iov, desc, None, mem_addr, mapped_key, None)
    }

    fn readv_with_context(&self, iov: &[IoVec], desc: &[MemoryRegionDesc], mem_addr: u64, mapped_key: &MappedMemoryRegionKey, context: &mut Context) -> (r: RmaCall)
        ensures
            r == (RmaCall::Readv { ep: self.ep_fid(), count: iov@.len() as usize, src_addr: FI_ADDR_UNSPEC, addr: mem_addr, key: mapped_key@, context: old(context)@ }),
            *final(context) == *old(context),
    {
        self.readv_impl(iov, desc, None, mem_addr, mapped_key, Some(context.inner_mut()))
    }

    fn readmsg(&self, msg: &MsgRef, options: ReadMsgOptions) -> (r: RmaCall)
        ensures
            r == (RmaCall::Readmsg { ep: self.ep_fid(), msg: msg@, flags: options@ }),
    {
        self.readmsg_impl(msg, options)
    }
}

impl ReadEp for ConnectionlessEndpoint {}

impl ReadEp for ConnectedEndpoint {}

/// Remote writes to a peer's memory.
pub trait WriteEp: WriteEpImpl {
    fn write_to<T>(&self, buf: &[T], desc: &MemoryRegionDesc, dest_addr: &MappedAddress, mem_addr: u64, mapped_key: &MappedMemoryRegionKey) -> (r: RmaCall)
        ensures
            r == (RmaCall::Write { ep: self.ep_fid(), len: byte_len(buf), desc: desc@, dest_addr: dest_addr@, addr: mem_addr, key: mapped_key@, context: 0 }),
    {
        self.write_impl(buf, desc, Some(dest_addr), mem_addr, mapped_key, None)
    }

    fn write_to_with_context<T>(&self, buf: &[T], desc: &MemoryRegionDesc, dest_addr: &MappedAddress, mem_addr: u64, mapped_key: &MappedMemoryRegionKey, context: &mut Context) -> (r: RmaCall)
        ensures
            r == (RmaCall::Write { ep: self.ep_fid(), len: byte_len(buf), desc: desc@, dest_addr: dest_addr@, addr: mem_addr, key: mapped_key@, context: old(context)@ }),
            *final(context) == *old(context),
    {
        self.write_impl(buf, desc, Some(dest_addr), mem_addr, mapped_key, Some(context.inner_mut()))
    }

    fn write<T>(&self, buf: &[T], desc: &MemoryRegionDesc, mem_addr: u64, mapped_key: &MappedMemoryRegionKey) -> (r: RmaCall)
        ensures
            r == (RmaCall::Write { ep: self.ep_fid(), len: byte_len(buf), desc: desc@, dest_addr: FI_ADDR_UNSPEC, addr: mem_addr, key: mapped_key@, context: 0 }),
    {
        self.write_impl(buf, desc, None, mem_addr, mapped_key, None)
    }

    fn write_with_context<T>(&self, buf: &[T], desc: &MemoryRegionDesc, mem_addr: u64, mapped_key: &MappedMemoryRegionKey, context: &mut Context) -> (r: RmaCall)
        ensures
            r == (RmaCall::Write { ep: self.ep_fid(), len: byte_len(buf), desc: desc@, dest_addr: FI_ADDR_UNSPEC, addr: mem_addr, key: mapped_key@, context: old(context)@ }),
            *final(context) == *old(context),
    {
        self.write_impl(buf, desc, None, mem_addr, mapped_key, Some(context.inner_mut()))
    }

    fn inject_write_to<T>(&self, buf: &[T], dest_addr: &MappedAddress, mem_addr: u64, mapped_key: &MappedMemoryRegionKey) -> (r: RmaCall)
        ensures
            r == (RmaCall::InjectWrite { ep: self.ep_fid(), len: byte_len(buf), dest_addr: dest_addr@, addr: mem_addr, key: mapped_key@ }),
    {
        self.inject_write_impl(buf, Some(dest_addr), mem_addr, mapped_key)
    }

    fn inject_write<T>(&self, buf: &[T], mem_addr: u64, mapped_key: &MappedMemoryRegionKey) -> (r: RmaCall)
        ensures
            r == (RmaCall::InjectWrite { ep: self.ep_fid(), len: byte_len(buf), dest_addr: FI_ADDR_UNSPEC, addr: mem_addr, key: mapped_key@ }),
    {
        self.inject_write_impl(buf, None, mem_addr, mapped_key)
    }

    fn writev_to(&self, iov: &[IoVec], desc: &[MemoryRegionDesc], dest_addr: &MappedAddress, mem_addr: u64, mapped_key: &MappedMemoryRegionKey) -> (r: RmaCall)
        ensures
            r == (RmaCall::Writev { ep: self.ep_fid(), count: iov@.len() as usize, dest_addr: dest_addr@, addr: mem_addr, key: mapped_key@, context: 0 }),
    {
        self.writev_impl(iov, desc, Some(dest_addr), mem_addr, mapped_key, None)
    }

    fn writev_to_with_context(&self, iov: &[IoVec], desc: &[MemoryRegionDesc], dest_addr: &MappedAddress, mem_addr: u64, mapped_key: &MappedMemoryRegionKey, context: &mut Context) -> (r: RmaCall)
        ensures
            r == (RmaCall::Writev { ep: self.ep_fid(), count: iov@.len() as usize, dest_addr: dest_addr@, addr: mem_addr, key: mapped_key@, context: old(context)@ }),
            *final(context) == *old(context),
    {
        self.writev_impl(iov, desc, Some(dest_addr), mem_addr, mapped_key, Some(context.inner_mut()))
    }

    fn writev(&self, iov: &[IoVec], desc: &[MemoryRegionDesc], mem_addr: u64, mapped_key: &MappedMemoryRegionKey) -> (r: RmaCall)
        ensures
            r == (RmaCall::Writev { ep: self.ep_fid(), count: iov@.len() as usize, dest_addr: FI_ADDR_UNSPEC, addr: mem_addr, key: mapped_key@, context: 0 }),
    {
        self.writev_impl(iov, desc, None, mem_addr, mapped_key, None)
    }

    fn writev_with_context(&self, iov: &[IoVec], desc: &[MemoryRegionDesc], mem_addr: u64, mapped_key: &MappedMemoryRegionKey, context: &mut Context) -> (r: RmaCall)
        ensures
            r == (RmaCall::Writev { ep: self.ep_fid(), count: iov@.len() as usize, dest_addr: FI_ADDR_UNSPEC, addr: mem_addr, key: mapped_key@, context: old(context)@ }),
            *final(context) == *old(context),
    {
        self.writev_impl(iov, desc, None, mem_addr, mapped_key, Some(context.inner_mut()))
    }

    fn writedata_to<T>(&self, buf: &[T], desc: &MemoryRegionDesc, data: u64, dest_addr: &MappedAddress, mem_addr: u64, mapped_key: &MappedMemoryRegionKey) -> (r: RmaCall)
        ensures
            r == (RmaCall::Writedata { ep: self.ep_fid(), len: byte_len(buf), desc: desc@, data: data, dest_addr: dest_addr@, addr: mem_addr, key: mapped_key@, context: 0 }),
    {
        self.writedata_impl(buf, desc, data, Some(dest_addr), mem_addr, mapped_key, None)
    }

    fn writedata_to_with_context<T>(&self, buf: &[T], desc: &MemoryRegionDesc, data: u64, dest_addr: &MappedAddress, mem_addr: u64, mapped_key: &MappedMemoryRegionKey, context: &mut Context) -> (r: RmaCall)
        ensures
            r == (RmaCall::Writedata { ep: self.ep_fid(), len: byte_len(buf), desc: desc@, data: data, dest_addr: dest_addr@, addr: mem_addr, key: mapped_key@, context: old(context)@ }),
            *final(context) == *old(context),
    {
        self.writedata_impl(buf, desc, data, Some(dest_addr), mem_addr, mapped_key, Some(context.inner_mut()))
    }

    fn writedata<T>(&self, buf: &[T], desc: &MemoryRegionDesc, data: u64, mem_addr: u64, mapped_key: &MappedMemoryRegionKey) -> (r: RmaCall)
        ensures
            r == (RmaCall::Writedata { ep: self.ep_fid(), len: byte_len(buf), desc: desc@, data: data, dest_addr: FI_ADDR_UNSPEC, addr: mem_addr, key: mapped_key@, context: 0 }),
    {
        self.writedata_impl(buf, desc, data, None, mem_addr, mapped_key, None)
    }

    fn writedata_with_context<T>(&self, buf: &[T], desc: &MemoryRegionDesc, data: u64, mem_addr: u64, mapped_key: &MappedMemoryRegionKey, context: &mut Context) -> (r: RmaCall)
        ensures
            r == (RmaCall::Writedata { ep: self.ep_fid(), len: byte_len(buf), desc: desc@, data: data, dest_addr: FI_ADDR_UNSPEC, addr: mem_addr, key: mapped_key@, context: old(context)@ }),
            *final(context) == *old(context),
    {
        self.writedata_impl(buf, desc, data, None, mem_addr, mapped_key, Some(context.inner_mut()))
    }

    fn inject_writedata_to<T>(&self, buf: &[T], data: u64, dest_addr: &MappedAddress, mem_addr: u64, mapped_key: &MappedMemoryRegionKey) -> (r: RmaCall)
        ensures
            r == (RmaCall::InjectWritedata { ep: self.ep_fid(), len: byte_len(buf), data: data, dest_addr: dest_addr@, addr: mem_addr, key: mapped_key@ }),
    {
        self.inject_writedata_impl(buf, data, Some(dest_addr), mem_addr, mapped_key)
    }

    fn inject_writedata<T>(&self, buf: &[T], data: u64, mem_addr: u64, mapped_key: &MappedMemoryRegionKey) -> (r: RmaCall)
        ensures
            r == (RmaCall::InjectWritedata { ep: self.ep_fid(), len: byte_len(buf), data: data, dest_addr: FI_ADDR_UNSPEC, addr: mem_addr, key: mapped_key@ }),
    {
        self.inject_writedata_impl(buf, data, None, mem_addr, mapped_key)
    }

    fn writemsg(&self, msg: &MsgRef, options: WriteMsgOptions) -> (r: RmaCall)
        ensures
            r == (RmaCall::Writemsg { ep: self.ep_fid(), msg: msg@, flags: options@ }),
    {
        self.writemsg_impl(msg, options)
    }
}

impl WriteEp for ConnectionlessEndpoint {}

impl WriteEp for ConnectedEndpoint {}

/// Endpoints that both read and write remote memory.
pub trait ReadWriteEp: ReadEp + WriteEp {}

impl ReadWriteEp for ConnectionlessEndpoint {}

impl ReadWriteEp for ConnectedEndpoint {}

} // verus!
