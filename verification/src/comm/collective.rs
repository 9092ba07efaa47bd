use vstd::prelude::*;
use crate::datatype::AsFiType;
use crate::enums::CollAtomicOp;
use crate::ep::{
    addr_value, ctx_value, desc_value, extract_raw_ctx, raw_addr_or_unspec, raw_desc, AsEndpointFid, ConnectedEndpoint,
    ConnectionlessEndpoint, Context, MappedAddress, MemoryRegionDesc, TriggeredContext,
};
use crate::flags::CollectiveOptions;
use crate::mr::MultiCastGroup;

verus! {

/// The libfabric call a collective operation makes, with the arguments it passes. Buffers
/// stay with the caller: a call records the number of elements of the source buffer
/// (`count`), as libfabric expects.
#[derive(Clone, Copy, Debug, PartialEq, Eq, Structural)]
pub enum CollCall {
    /// `fi_barrier(ep, coll_addr, context)`.
    Barrier { ep: u64, coll_addr: u64, context: u64 },
    /// `fi_barrier2(ep, coll_addr, flags, context)`.
    Barrier2 { ep: u64, coll_addr: u64, flags: u64, context: u64 },
    /// `fi_broadcast(ep, buf, count, desc, coll_addr, root_addr, datatype, flags, context)`.
    Broadcast { ep: u64, count: usize, desc: u64, coll_addr: u64, root_addr: u64, datatype: u32, flags: u64, context: u64 },
    /// `fi_alltoall(ep, buf, count, desc, result, result_desc, coll_addr, datatype, flags, context)`.
    Alltoall { ep: u64, count: usize, desc: u64, result_desc: u64, coll_addr: u64, datatype: u32, flags: u64, context: u64 },
    /// `fi_allgather(ep, buf, count, desc, result, result_desc, coll_addr, datatype, flags, context)`.
    Allgather { ep: u64, count: usize, desc: u64, result_desc: u64, coll_addr: u64, datatype: u32, flags: u64, context: u64 },
    /// `fi_allreduce(ep, buf, count, desc, result, result_desc, coll_addr, datatype, op, flags, context)`.
    Allreduce { ep: u64, count: usize, desc: u64, result_desc: u64, coll_addr: u64, datatype: u32, op: u32, flags: u64, context: u64 },
    /// `fi_reduce_scatter(ep, buf, count, desc, result, result_desc, coll_addr, datatype, op, flags, context)`.
    ReduceScatter { ep: u64, count: usize, desc: u64, result_desc: u64, coll_addr: u64, datatype: u32, op: u32, flags: u64, context: u64 },
    /// `fi_reduce(ep, buf, count, desc, result, result_desc, coll_addr, root_addr, datatype, op, flags, context)`.
    Reduce { ep: u64, count: usize, desc: u64, result_desc: u64, coll_addr: u64, root_addr: u64, datatype: u32, op: u32, flags: u64, context: u64 },
    /// `fi_scatter(ep, buf, count, desc, result, result_desc, coll_addr, root_addr, datatype, flags, context)`.
    Scatter { ep: u64, count: usize, desc: u64, result_desc: u64, coll_addr: u64, root_addr: u64, datatype: u32, flags: u64, context: u64 },
    /// `fi_gather(ep, buf, count, desc, result, result_desc, coll_addr, root_addr, datatype, flags, context)`.
    Gather { ep: u64, count: usize, desc: u64, result_desc: u64, coll_addr: u64, root_addr: u64, datatype: u32, flags: u64, context: u64 },
}

/// Plans the libfabric calls of collective operations on an endpoint.
pub trait CollectiveEpImpl: AsEndpointFid {
    /// A barrier across the group: `fi_barrier` without options, `fi_barrier2` with the
    /// flags of the given options.
    fn barrier_impl(&self, mc_group: &MultiCastGroup, context: Option<u64>, options: Option<CollectiveOptions>) -> (r: CollCall)
        ensures
            options is None ==> r == (CollCall::Barrier { ep: self.ep_fid(), coll_addr: mc_group@, context: ctx_value(context) }),
            options matches Some(opt) ==> r == (CollCall::Barrier2 {
                ep: self.ep_fid(),
                coll_addr: mc_group@,
                flags: opt@,
                context: ctx_value(context),
            }),
    {
        let ctx = extract_raw_ctx(context);
        if let Some(opt) = options {
            CollCall::Barrier2 { ep: self.as_raw_typed_fid(), coll_addr: mc_group.raw_addr(), flags: opt.as_raw(), context: ctx }
        } else {
            CollCall::Barrier { ep: self.as_raw_typed_fid(), coll_addr: mc_group.raw_addr(), context: ctx }
        }
    }

    fn broadcast_impl<T: AsFiType>(&self, buf: &[T], desc: Option<&MemoryRegionDesc>, mc_group: &MultiCastGroup, root_mapped_addr: Option<&MappedAddress>, options: CollectiveOptions, context: Option<u64>) -> (r: CollCall)
        ensures
            r == (CollCall::Broadcast { ep: self.ep_fid(), count: buf@.len() as usize, desc: desc_value(desc), coll_addr: mc_group@, root_addr: addr_value(root_mapped_addr), datatype: T::fi_datatype().raw_value(), flags: options@, context: ctx_value(context) }),
    {
        let count = buf.len();
        let desc = raw_desc(desc);
        let coll_addr = mc_group.raw_addr();
        let root_addr = raw_addr_or_unspec(root_mapped_addr);
        let datatype = T::as_fi_datatype().as_raw();
        let flags = options.as_raw();
        let context = extract_raw_ctx(context);
        CollCall::Broadcast { ep: self.as_raw_typed_fid(), count, desc, coll_addr, root_addr, datatype, flags, context }
    }

    fn alltoall_impl<T: AsFiType>(&self, buf: &[T], desc: Option<&MemoryRegionDesc>, result: &[T], result_desc: Option<&MemoryRegionDesc>, mc_group: &MultiCastGroup, options: CollectiveOptions, context: Option<u64>) -> (r: CollCall)
        ensures
            r == (CollCall::Alltoall { ep: self.ep_fid(), count: buf@.len() as usize, desc: desc_value(desc), result_desc: desc_value(result_desc), coll_addr: mc_group@, datatype: T::fi_datatype().raw_value(), flags: options@, context: ctx_value(context) }),
    {
        let count = buf.len();
        let desc = raw_desc(desc);
        let result_desc = raw_desc(result_desc);
        let coll_addr = mc_group.raw_addr();
        let datatype = T::as_fi_datatype().as_raw();
        let flags = options.as_raw();
        let context = extract_raw_ctx(context);
        CollCall::Alltoall { ep: self.as_raw_typed_fid(), count, desc, result_desc, coll_addr, datatype, flags, context }
    }

    fn allgather_impl<T: AsFiType>(&self, buf: &[T], desc: Option<&MemoryRegionDesc>, result: &[T], result_desc: Option<&MemoryRegionDesc>, mc_group: &MultiCastGroup, options: CollectiveOptions, context: Option<u64>) -> (r: CollCall)
        ensures
            r == (CollCall::Allgather { ep: self.ep_fid(), count: buf@.len() as usize, desc: desc_value(desc), result_desc: desc_value(result_desc), coll_addr: mc_group@, datatype: T::fi_datatype().raw_value(), flags: options@, context: ctx_value(context) }),
    {
        let count = buf.len();
        let desc = raw_desc(desc);
        let result_desc = raw_desc(result_desc);
        let coll_addr = mc_group.raw_addr();
        let datatype = T::as_fi_datatype().as_raw();
        let flags = options.as_raw();
        let context = extract_raw_ctx(context);
        CollCall::Allgather { ep: self.as_raw_typed_fid(), count, desc, result_desc, coll_addr, datatype, flags, context }
    }

    fn allreduce_impl<T: AsFiType>(&self, buf: &[T], desc: Option<&MemoryRegionDesc>, result: &[T], result_desc: Option<&MemoryRegionDesc>, mc_group: &MultiCastGroup, op: CollAtomicOp, options: CollectiveOptions, context: Option<u64>) -> (r: CollCall)
        ensures
            r == (CollCall::Allreduce { ep: self.ep_fid(), count: buf@.len() as usize, desc: desc_value(desc), result_desc: desc_value(result_desc), coll_addr: mc_group@, datatype: T::fi_datatype().raw_value(), op: op.raw_value(), flags: options@, context: ctx_value(context) }),
    {
        let count = buf.len();
        let desc = raw_desc(desc);
        let result_desc = raw_desc(result_desc);
        let coll_addr = mc_group.raw_addr();
        let datatype = T::as_fi_datatype().as_raw();
        let op = op.as_raw();
        let flags = options.as_raw();
        let context = extract_raw_ctx(context);
        CollCall::Allreduce { ep: self.as_raw_typed_fid(), count, desc, result_desc, coll_addr, datatype, op, flags, context }
    }

    fn reduce_scatter_impl<T: AsFiType>(&self, buf: &[T], desc: Option<&MemoryRegionDesc>, result: &[T], result_desc: Option<&MemoryRegionDesc>, mc_group: &MultiCastGroup, op: CollAtomicOp, options: CollectiveOptions, context: Option<u64>) -> (r: CollCall)
        ensures
            r == (CollCall::ReduceScatter { ep: self.ep_fid(), count: buf@.len() as usize, desc: desc_value(desc), result_desc: desc_value(result_desc), coll_addr: mc_group@, datatype: T::fi_datatype().raw_value(), op: op.raw_value(), flags: options@, context: ctx_value(context) }),
    {
        let count = buf.len();
        let desc = raw_desc(desc);
        let result_desc = raw_desc(result_desc);
        let coll_addr = mc_group.raw_addr();
        let datatype = T::as_fi_datatype().as_raw();
        let op = op.as_raw();
        let flags = options.as_raw();
        let context = extract_raw_ctx(context);
        CollCall::ReduceScatter { ep: self.as_raw_typed_fid(), count, desc, result_desc, coll_addr, datatype, op, flags, context }
    }

    fn reduce_impl<T: AsFiType>(&self, buf: &[T], desc: Option<&MemoryRegionDesc>, result: &[T], result_desc: Option<&MemoryRegionDesc>, mc_group: &MultiCastGroup, root_mapped_addr: Option<&MappedAddress>, op: CollAtomicOp, options: CollectiveOptions, context: Option<u64>) -> (r: CollCall)
        ensures
            r == (CollCall::Reduce { ep: self.ep_fid(), count: buf@.len() as usize, desc: desc_value(desc), result_desc: desc_value(result_desc), coll_addr: mc_group@, root_addr: addr_value(root_mapped_addr), datatype: T::fi_datatype().raw_value(), op: op.raw_value(), flags: options@, context: ctx_value(context) }),
    {
        let count = buf.len();
        let desc = raw_desc(desc);
        let result_desc = raw_desc(result_desc);
        let coll_addr = mc_group.raw_addr();
        let root_addr = raw_addr_or_unspec(root_mapped_addr);
        let datatype = T::as_fi_datatype().as_raw();
        let op = op.as_raw();
        let flags = options.as_raw();
        let context = extract_raw_ctx(context);
        CollCall::Reduce { ep: self.as_raw_typed_fid(), count, desc, result_desc, coll_addr, root_addr, datatype, op, flags, context }
    }

    fn scatter_impl<T: AsFiType>(&self, buf: &[T], desc: Option<&MemoryRegionDesc>, result: &[T], result_desc: Option<&MemoryRegionDesc>, mc_group: &MultiCastGroup, root_mapped_addr: Option<&MappedAddress>, options: CollectiveOptions, context: Option<u64>) -> (r: CollCall)
        ensures
            r == (CollCall::Scatter { ep: self.ep_fid(), count: buf@.len() as usize, desc: desc_value(desc), result_desc: desc_value(result_desc), coll_addr: mc_group@, root_addr: addr_value(root_mapped_addr), datatype: T::fi_datatype().raw_value(), flags: options@, context: ctx_value(context) }),
    {
        let count = buf.len();
        let desc = raw_desc(desc);
        let result_desc = raw_desc(result_desc);
        let coll_addr = mc_group.raw_addr();
        let root_addr = raw_addr_or_unspec(root_mapped_addr);
        let datatype = T::as_fi_datatype().as_raw();
        let flags = options.as_raw();
        let context = extract_raw_ctx(context);
        CollCall::Scatter { ep: self.as_raw_typed_fid(), count, desc, result_desc, coll_addr, root_addr, datatype, flags, context }
    }

    fn gather_impl<T: AsFiType>(&self, buf: &[T], desc: Option<&MemoryRegionDesc>, result: &[T], result_desc: Option<&MemoryRegionDesc>, mc_group: &MultiCastGroup, root_mapped_addr: Option<&MappedAddress>, options: CollectiveOptions, context: Option<u64>) -> (r: CollCall)
        ensures
            r == (CollCall::Gather { ep: self.ep_fid(), count: buf@.len() as usize, desc: desc_value(desc), result_desc: desc_value(result_desc), coll_addr: mc_group@, root_addr: addr_value(root_mapped_addr), datatype: T::fi_datatype().raw_value(), flags: options@, context: ctx_value(context) }),
    {
        let count = buf.len();
        let desc = raw_desc(desc);
        let result_desc = raw_desc(result_desc);
        let coll_addr = mc_group.raw_addr();
        let root_addr = raw_addr_or_unspec(root_mapped_addr);
        let datatype = T::as_fi_datatype().as_raw();
        let flags = options.as_raw();
        let context = extract_raw_ctx(context);
        CollCall::Gather { ep: self.as_raw_typed_fid(), count, desc, result_desc, coll_addr, root_addr, datatype, flags, context }
    }
}

impl CollectiveEpImpl for ConnectedEndpoint {}

impl CollectiveEpImpl for ConnectionlessEndpoint {}

/// Collective operations across the members of a multicast group.
pub trait CollectiveEp: CollectiveEpImpl {
    fn barrier(&self, mc_group: &MultiCastGroup) -> (r: CollCall)
        ensures
            r == (CollCall::Barrier { ep: self.ep_fid(), coll_addr: mc_group@, context: 0 }),
    {
        self.barrier_impl(mc_group, None, None)
    }

    fn barrier_with_options(&self, mc_group: &MultiCastGroup, options: CollectiveOptions) -> (r: CollCall)
        ensures
            r == (CollCall::Barrier2 { ep: self.ep_fid(), coll_addr: mc_group@, flags: options@, context: 0 }),
    {
        self.barrier_impl(mc_group, None, Some(options))
    }

    fn barrier_with_context(&self, mc_group: &MultiCastGroup, context: &mut Context) -> (r: CollCall)
        ensures
            r == (CollCall::Barrier { ep: self.ep_fid(), coll_addr: mc_group@, context: old(context)@ }),
            *final(context) == *old(context),
    {
        self.barrier_impl(mc_group, Some(context.inner_mut()), None)
    }

    fn barrier_triggered(&self, mc_group: &MultiCastGroup, context: &mut TriggeredContext) -> (r: CollCall)
        ensures
            r == (CollCall::Barrier { ep: self.ep_fid(), coll_addr: mc_group@, context: old(context)@ }),
            *final(context) == *old(context),
    {
        self.barrier_impl(mc_group, Some(context.inner_mut()), None)
    }

    fn barrier_with_context_with_options(&self, mc_group: &MultiCastGroup, options: CollectiveOptions, context: &mut Context) -> (r: CollCall)
        ensures
            r == (CollCall::Barrier2 { ep: self.ep_fid(), coll_addr: mc_group@, flags: options@, context: old(context)@ }),
            *final(context) == *old(context),
    {
        self.barrier_impl(mc_group, Some(context.inner_mut()), Some(options))
    }

    fn barrier_triggered_with_options(&self, mc_group: &MultiCastGroup, options: CollectiveOptions, context: &mut TriggeredContext) -> (r: CollCall)
        ensures
            r == (CollCall::Barrier2 { ep: self.ep_fid(), coll_addr: mc_group@, flags: options@, context: old(context)@ }),
            *final(context) == *old(context),
    {
        self.barrier_impl(mc_group, Some(context.inner_mut()), Some(options))
    }

    fn broadcast<T: AsFiType>(&self, buf: &[T], desc: Option<&MemoryRegionDesc>, mc_group: &MultiCastGroup, root_mapped_addr: &MappedAddress, options: CollectiveOptions) -> (r: CollCall)
        ensures
            r == (CollCall::Broadcast { ep: self.ep_fid(), count: buf@.len() as usize, desc: desc_value(desc), coll_addr: mc_group@, root_addr: root_mapped_addr@, datatype: T::fi_datatype().raw_value(), flags: options@, context: 0 }),
    {
        self.broadcast_impl(buf, desc, mc_group, Some(root_mapped_addr), options, None)
    }

    fn broadcast_with_context<T: AsFiType>(&self, buf: &[T], desc: Option<&MemoryRegionDesc>, mc_group: &MultiCastGroup, root_mapped_addr: &MappedAddress, options: CollectiveOptions, context: &mut Context) -> (r: CollCall)
        ensures
            r == (CollCall::Broadcast { ep: self.ep_fid(), count: buf@.len() as usize, desc: desc_value(desc), coll_addr: mc_group@, root_addr: root_mapped_addr@, datatype: T::fi_datatype().raw_value(), flags: options@, context: old(context)@ }),
            *final(context) == *old(context),
    {
        self.broadcast_impl(buf, desc, mc_group, Some(root_mapped_addr), options, Some(context.inner_mut()))
    }

    fn broadcast_triggered<T: AsFiType>(&self, buf: &[T], desc: Option<&MemoryRegionDesc>, mc_group: &MultiCastGroup, root_mapped_addr: &MappedAddress, options: CollectiveOptions, context: &mut TriggeredContext) -> (r: CollCall)
        ensures
            r == (CollCall::Broadcast { ep: self.ep_fid(), count: buf@.len() as usize, desc: desc_value(desc), coll_addr: mc_group@, root_addr: root_mapped_addr@, datatype: T::fi_datatype().raw_value(), flags: options@, context: old(context)@ }),
            *final(context) == *old(context),
    {
        self.broadcast_impl(buf, desc, mc_group, Some(root_mapped_addr), options, Some(context.inner_mut()))
    }

    fn alltoall<T: AsFiType>(&self, buf: &[T], desc: Option<&MemoryRegionDesc>, result: &[T], result_desc: Option<&MemoryRegionDesc>, mc_group: &MultiCastGroup, options: CollectiveOptions) -> (r: CollCall)
        ensures
            r == (CollCall::Alltoall { ep: self.ep_fid(), count: buf@.len() as usize, desc: desc_value(desc), result_desc: desc_value(result_desc), coll_addr: mc_group@, datatype: T::fi_datatype().raw_value(), flags: options@, context: 0 }),
    {
        self.alltoall_impl(buf, desc, result, result_desc, mc_group, options, None)
    }

    fn alltoall_with_context<T: AsFiType>(&self, buf: &[T], desc: Option<&MemoryRegionDesc>, result: &[T], result_desc: Option<&MemoryRegionDesc>, mc_group: &MultiCastGroup, options: CollectiveOptions, context: &mut Context) -> (r: CollCall)
        ensures
            r == (CollCall::Alltoall { ep: self.ep_fid(), count: buf@.len() as usize, desc: desc_value(desc), result_desc: desc_value(result_desc), coll_addr: mc_group@, datatype: T::fi_datatype().raw_value(), flags: options@, context: old(context)@ }),
            *final(context) == *old(context),
    {
        self.alltoall_impl(buf, desc, result, result_desc, mc_group, options, Some(context.inner_mut()))
    }

    fn alltoall_triggered<T: AsFiType>(&self, buf: &[T], desc: Option<&MemoryRegionDesc>, result: &[T], result_desc: Option<&MemoryRegionDesc>, mc_group: &MultiCastGroup, options: CollectiveOptions, context: &mut TriggeredContext) -> (r: CollCall)
        ensures
            r == (CollCall::Alltoall { ep: self.ep_fid(), count: buf@.len() as usize, desc: desc_value(desc), result_desc: desc_value(result_desc), coll_addr: mc_group@, datatype: T::fi_datatype().raw_value(), flags: options@, context: old(context)@ }),
            *final(context) == *old(context),
    {
        self.alltoall_impl(buf, desc, result, result_desc, mc_group, options, Some(context.inner_mut()))
    }

    fn allreduce<T: AsFiType>(&self, buf: &[T], desc: Option<&MemoryRegionDesc>, result: &[T], result_desc: Option<&MemoryRegionDesc>, mc_group: &MultiCastGroup, op: CollAtomicOp, options: CollectiveOptions) -> (r: CollCall)
        ensures
            r == (CollCall::Allreduce { ep: self.ep_fid(), count: buf@.len() as usize, desc: desc_value(desc), result_desc: desc_value(result_desc), coll_addr: mc_group@, datatype: T::fi_datatype().raw_value(), op: op.raw_value(), flags: options@, context: 0 }),
    {
        self.allreduce_impl(buf, desc, result, result_desc, mc_group, op, options, None)
    }

    fn allreduce_with_context<T: AsFiType>(&self, buf: &[T], desc: Option<&MemoryRegionDesc>, result: &[T], result_desc: Option<&MemoryRegionDesc>, mc_group: &MultiCastGroup, op: CollAtomicOp, options: CollectiveOptions, context: &mut Context) -> (r: CollCall)
        ensures
            r == (CollCall::Allreduce { ep: self.ep_fid(), count: buf@.len() as usize, desc: desc_value(desc), result_desc: desc_value(result_desc), coll_addr: mc_group@, datatype: T::fi_datatype().raw_value(), op: op.raw_value(), flags: options@, context: old(context)@ }),
            *final(context) == *old(context),
    {
        self.allreduce_impl(buf, desc, result, result_desc, mc_group, op, options, Some(context.inner_mut()))
    }

    fn allreduce_triggered<T: AsFiType>(&self, buf: &[T], desc: Option<&MemoryRegionDesc>, result: &[T], result_desc: Option<&MemoryRegionDesc>, mc_group: &MultiCastGroup, op: CollAtomicOp, options: CollectiveOptions, context: &mut TriggeredContext) -> (r: CollCall)
        ensures
            r == (CollCall::Allreduce { ep: self.ep_fid(), count: buf@.len() as usize, desc: desc_value(desc), result_desc: desc_value(result_desc), coll_addr: mc_group@, datatype: T::fi_datatype().raw_value(), op: op.raw_value(), flags: options@, context: old(context)@ }),
            *final(context) == *old(context),
    {
        self.allreduce_impl(buf, desc, result, result_desc, mc_group, op, options, Some(context.inner_mut()))
    }

    fn allgather<T: AsFiType>(&self, buf: &[T], desc: Option<&MemoryRegionDesc>, result: &[T], result_desc: Option<&MemoryRegionDesc>, mc_group: &MultiCastGroup, options: CollectiveOptions) -> (r: CollCall)
        ensures
            r == (CollCall::Allgather { ep: self.ep_fid(), count: buf@.len() as usize, desc: desc_value(desc), result_desc: desc_value(result_desc), coll_addr: mc_group@, datatype: T::fi_datatype().raw_value(), flags: options@, context: 0 }),
    {
        self.allgather_impl(buf, desc, result, result_desc, mc_group, options, None)
    }

    fn allgather_with_context<T: AsFiType>(&self, buf: &[T], desc: Option<&MemoryRegionDesc>, result: &[T], result_desc: Option<&MemoryRegionDesc>, mc_group: &MultiCastGroup, options: CollectiveOptions, context: &mut Context) -> (r: CollCall)
        ensures
            r == (CollCall::Allgather { ep: self.ep_fid(), count: buf@.len() as usize, desc: desc_value(desc), result_desc: desc_value(result_desc), coll_addr: mc_group@, datatype: T::fi_datatype().raw_value(), flags: options@, context: old(context)@ }),
            *final(context) == *old(context),
    {
        self.allgather_impl(buf, desc, result, result_desc, mc_group, options, Some(context.inner_mut()))
    }

    fn allgather_triggered<T: AsFiType>(&self, buf: &[T], desc: Option<&MemoryRegionDesc>, result: &[T], result_desc: Option<&MemoryRegionDesc>, mc_group: &MultiCastGroup, options: CollectiveOptions, context: &mut TriggeredContext) -> (r: CollCall)
        ensures
            r == (CollCall::Allgather { ep: self.ep_fid(), count: buf@.len() as usize, desc: desc_value(desc), result_desc: desc_value(result_desc), coll_addr: mc_group@, datatype: T::fi_datatype().raw_value(), flags: options@, context: old(context)@ }),
            *final(context) == *old(context),
    {
        self.allgather_impl(buf, desc, result, result_desc, mc_group, options, Some(context.inner_mut()))
    }

    fn reduce_scatter<T: AsFiType>(&self, buf: &[T], desc: Option<&MemoryRegionDesc>, result: &[T], result_desc: Option<&MemoryRegionDesc>, mc_group: &MultiCastGroup, op: CollAtomicOp, options: CollectiveOptions) -> (r: CollCall)
        ensures
            r == (CollCall::ReduceScatter { ep: self.ep_fid(), count: buf@.len() as usize, desc: desc_value(desc), result_desc: desc_value(result_desc), coll_addr: mc_group@, datatype: T::fi_datatype().raw_value(), op: op.raw_value(), flags: options@, context: 0 }),
    {
        self.reduce_scatter_impl(buf, desc, result, result_desc, mc_group, op, options, None)
    }

    fn reduce_scatter_with_context<T: AsFiType>(&self, buf: &[T], desc: Option<&MemoryRegionDesc>, result: &[T], result_desc: Option<&MemoryRegionDesc>, mc_group: &MultiCastGroup, op: CollAtomicOp, options: CollectiveOptions, context: &mut Context) -> (r: CollCall)
        ensures
            r == (CollCall::ReduceScatter { ep: self.ep_fid(), count: buf@.len() as usize, desc: desc_value(desc), result_desc: desc_value(result_desc), coll_addr: mc_group@, datatype: T::fi_datatype().raw_value(), op: op.raw_value(), flags: options@, context: old(context)@ }),
            *final(context) == *old(context),
    {
        self.reduce_scatter_impl(buf, desc, result, result_desc, mc_group, op, options, Some(context.inner_mut()))
    }

    fn reduce_scatter_triggered<T: AsFiType>(&self, buf: &[T], desc: Option<&MemoryRegionDesc>, result: &[T], result_desc: Option<&MemoryRegionDesc>, mc_group: &MultiCastGroup, op: CollAtomicOp, options: CollectiveOptions, context: &mut TriggeredContext) -> (r: CollCall)
        ensures
            r == (CollCall::ReduceScatter { ep: self.ep_fid(), count: buf@.len() as usize, desc: desc_value(desc), result_desc: desc_value(result_desc), coll_addr: mc_group@, datatype: T::fi_datatype().raw_value(), op: op.raw_value(), flags: options@, context: old(context)@ }),
            *final(context) == *old(context),
    {
        self.reduce_scatter_impl(buf, desc, result, result_desc, mc_group, op, options, Some(context.inner_mut()))
    }

    fn reduce<T: AsFiType>(&self, buf: &[T], desc: Option<&MemoryRegionDesc>, result: &[T], result_desc: Option<&MemoryRegionDesc>, mc_group: &MultiCastGroup, root_mapped_addr: &MappedAddress, op: CollAtomicOp, options: CollectiveOptions) -> (r: CollCall)
        ensures
            r == (CollCall::Reduce { ep: self.ep_fid(), count: buf@.len() as usize, desc: desc_value(desc), result_desc: desc_value(result_desc), coll_addr: mc_group@, root_addr: root_mapped_addr@, datatype: T::fi_datatype().raw_value(), op: op.raw_value(), flags: options@, context: 0 }),
    {
        self.reduce_impl(buf, desc, result, result_desc, mc_group, Some(root_mapped_addr), op, options, None)
    }

    fn reduce_with_context<T: AsFiType>(&self, buf: &[T], desc: Option<&MemoryRegionDesc>, result: &[T], result_desc: Option<&MemoryRegionDesc>, mc_group: &MultiCastGroup, root_mapped_addr: &MappedAddress, op: CollAtomicOp, options: CollectiveOptions, context: &mut Context) -> (r: CollCall)
        ensures
            r == (CollCall::Reduce { ep: self.ep_fid(), count: buf@.len() as usize, desc: desc_value(desc), result_desc: desc_value(result_desc), coll_addr: mc_group@, root_addr: root_mapped_addr@, datatype: T::fi_datatype().raw_value(), op: op.raw_value(), flags: options@, context: old(context)@ }),
            *final(context) == *old(context),
    {
        self.reduce_impl(buf, desc, result, result_desc, mc_group, Some(root_mapped_addr), op, options, Some(context.inner_mut()))
    }

    fn reduce_triggered<T: AsFiType>(&self, buf: &[T], desc: Option<&MemoryRegionDesc>, result: &[T], result_desc: Option<&MemoryRegionDesc>, mc_group: &MultiCastGroup, root_mapped_addr: &MappedAddress, op: CollAtomicOp, options: CollectiveOptions, context: &mut TriggeredContext) -> (r: CollCall)
        ensures
            r == (CollCall::Reduce { ep: self.ep_fid(), count: buf@.len() as usize, desc: desc_value(desc), result_desc: desc_value(result_desc), coll_addr: mc_group@, root_addr: root_mapped_addr@, datatype: T::fi_datatype().raw_value(), op: op.raw_value(), flags: options@, context: old(context)@ }),
            *final(context) == *old(context),
    {
        self.reduce_impl(buf, desc, result, result_desc, mc_group, Some(root_mapped_addr), op, options, Some(context.inner_mut()))
    }

    fn scatter<T: AsFiType>(&self, buf: &[T], desc: Option<&MemoryRegionDesc>, result: &[T], result_desc: Option<&MemoryRegionDesc>, mc_group: &MultiCastGroup, root_mapped_addr: &MappedAddress, options: CollectiveOptions) -> (r: CollCall)
        ensures
            r == (CollCall::Scatter { ep: self.ep_fid(), count: buf@.len() as usize, desc: desc_value(desc), result_desc: desc_value(result_desc), coll_addr: mc_group@, root_addr: root_mapped_addr@, datatype: T::fi_datatype().raw_value(), flags: options@, context: 0 }),
    {
        self.scatter_impl(buf, desc, result, result_desc, mc_group, Some(root_mapped_addr), options, None)
    }

    fn scatter_with_context<T: AsFiType>(&self, buf: &[T], desc: Option<&MemoryRegionDesc>, result: &[T], result_desc: Option<&MemoryRegionDesc>, mc_group: &MultiCastGroup, root_mapped_addr: &MappedAddress, options: CollectiveOptions, context: &mut Context) -> (r: CollCall)
        ensures
            r == (CollCall::Scatter { ep: self.ep_fid(), count: buf@.len() as usize, desc: desc_value(desc), result_desc: desc_value(result_desc), coll_addr: mc_group@, root_addr: root_mapped_addr@, datatype: T::fi_datatype().raw_value(), flags: options@, context: old(context)@ }),
            *final(context) == *old(context),
    {
        self.scatter_impl(buf, desc, result, result_desc, mc_group, Some(root_mapped_addr), options, Some(context.inner_mut()))
    }

    fn scatter_triggered<T: AsFiType>(&self, buf: &[T], desc: Option<&MemoryRegionDesc>, result: &[T], result_desc: Option<&MemoryRegionDesc>, mc_group: &MultiCastGroup, root_mapped_addr: &MappedAddress, options: CollectiveOptions, context: &mut TriggeredContext) -> (r: CollCall)
        ensures
            r == (CollCall::Scatter { ep: self.ep_fid(), count: buf@.len() as usize, desc: desc_value(desc), result_desc: desc_value(result_desc), coll_addr: mc_group@, root_addr: root_mapped_addr@, datatype: T::fi_datatype().raw_value(), flags: options@, context: old(context)@ }),
            *final(context) == *old(context),
    {
        self.scatter_impl(buf, desc, result, result_desc, mc_group, Some(root_mapped_addr), options, Some(context.inner_mut()))
    }

    fn gather<T: AsFiType>(&self, buf: &[T], desc: Option<&MemoryRegionDesc>, result: &[T], result_desc: Option<&MemoryRegionDesc>, mc_group: &MultiCastGroup, root_mapped_addr: &MappedAddress, options: CollectiveOptions) -> (r: CollCall)
        ensures
            r == (CollCall::Gather { ep: self.ep_fid(), count: buf@.len() as usize, desc: desc_value(desc), result_desc: desc_value(result_desc), coll_addr: mc_group@, root_addr: root_mapped_addr@, datatype: T::fi_datatype().raw_value(), flags: options@, context: 0 }),
    {
        self.gather_impl(buf, desc, result, result_desc, mc_group, Some(root_mapped_addr), options, None)
    }

    fn gather_with_context<T: AsFiType>(&self, buf: &[T], desc: Option<&MemoryRegionDesc>, result: &[T], result_desc: Option<&MemoryRegionDesc>, mc_group: &MultiCastGroup, root_mapped_addr: &MappedAddress, options: CollectiveOptions, context: &mut Context) -> (r: CollCall)
        ensures
            r == (CollCall::Gather { ep: self.ep_fid(), count: buf@.len() as usize, desc: desc_value(desc), result_desc: desc_value(result_desc), coll_addr: mc_group@, root_addr: root_mapped_addr@, datatype: T::fi_datatype().raw_value(), flags: options@, context: old(context)@ }),
            *final(context) == *old(context),
    {
        self.gather_impl(buf, desc, result, result_desc, mc_group, Some(root_mapped_addr), options, Some(context.inner_mut()))
    }

    fn gather_triggered<T: AsFiType>(&self, buf: &[T], desc: Option<&MemoryRegionDesc>, result: &[T], result_desc: Option<&MemoryRegionDesc>, mc_group: &MultiCastGroup, root_mapped_addr: &MappedAddress, options: CollectiveOptions, context: &mut TriggeredContext) -> (r: CollCall)
        ensures
            r == (CollCall::Gather { ep: self.ep_fid(), count: buf@.len() as usize, desc: desc_value(desc), result_desc: desc_value(result_desc), coll_addr: mc_group@, root_addr: root_mapped_addr@, datatype: T::fi_datatype().raw_value(), flags: options@, context: old(context)@ }),
            *final(context) == *old(context),
    {
        self.gather_impl(buf, desc, result, result_desc, mc_group, Some(root_mapped_addr), options, Some(context.inner_mut()))
    }
}

impl CollectiveEp for ConnectedEndpoint {}

impl CollectiveEp for ConnectionlessEndpoint {}

} // verus!
