use vstd::prelude::*;
use crate::consts::FI_ADDR_UNSPEC;

verus! {

/// An address inserted in an address vector, as libfabric's `fi_addr_t`.
#[derive(Clone, Copy, Debug, PartialEq, Eq, Structural)]
pub struct MappedAddress {
    pub(crate) raw: u64,
}

impl View for MappedAddress {
    type V = u64;

    closed spec fn view(&self) -> u64 {
        self.raw
    }
}

impl MappedAddress {
    pub fn from_raw_addr(raw: u64) -> (r: Self)
        ensures
            r@ == raw,
    {
        MappedAddress { raw }
    }

    pub fn raw_addr(&self) -> (r: u64)
        ensures
            r == self@,
    {
        self.raw
    }
}

/// The local descriptor of a registered memory region, as libfabric's `void *desc`.
#[derive(Clone, Copy, Debug, PartialEq, Eq, Structural)]
pub struct MemoryRegionDesc {
    pub(crate) raw: u64,
}

impl View for MemoryRegionDesc {
    type V = u64;

    closed spec fn view(&self) -> u64 {
        self.raw
    }
}

impl MemoryRegionDesc {
    pub fn from_raw(raw: u64) -> (r: Self)
        ensures
            r@ == raw,
    {
        MemoryRegionDesc { raw }
    }

    pub fn as_raw(&self) -> (r: u64)
        ensures
            r == self@,
    {
        self.raw
    }
}

/// The descriptor a call passes for an optional region: its raw value, or NULL (0).
pub open spec fn desc_value(desc: Option<&MemoryRegionDesc>) -> u64 {
    match desc {
        Some(d) => d@,
        None => 0,
    }
}

/// The raw descriptor of an optional region, NULL (0) when there is none.
pub fn raw_desc(desc: Option<&MemoryRegionDesc>) -> (r: u64)
    ensures
        r == desc_value(desc),
{
    match desc {
        Some(d) => d.as_raw(),
        None => 0,
    }
}

/// The descriptor a call passes for an optional region held by value: its raw value, or
/// NULL (0).
pub open spec fn owned_desc_value(desc: Option<MemoryRegionDesc>) -> u64 {
    match desc {
        Some(d) => d@,
        None => 0,
    }
}

/// The raw descriptor of an optional region held by value, NULL (0) when there is none.
pub fn raw_owned_desc(desc: Option<MemoryRegionDesc>) -> (r: u64)
    ensures
        r == owned_desc_value(desc),
{
    match desc {
        Some(d) => d.as_raw(),
        None => 0,
    }
}

/// A user context passed with an operation and reported back in its completion. It is named
/// by its address.
#[derive(Clone, Copy, Debug, PartialEq, Eq, Structural)]
pub struct Context {
    pub(crate) raw: u64,
}

impl View for Context {
    type V = u64;

    closed spec fn view(&self) -> u64 {
        self.raw
    }
}

impl Context {
    pub fn from_raw(raw: u64) -> (r: Self)
        ensures
            r@ == raw,
    {
        Context { raw }
    }

    pub fn as_raw(&self) -> (r: u64)
        ensures
            r == self@,
    {
        self.raw
    }

    pub fn inner_mut(&mut self) -> (r: u64)
        ensures
            r == old(self)@,
            *final(self) == *old(self),
    {
        self.raw
    }
}

/// The context of a triggered operation, named by its address.
#[derive(Clone, Copy, Debug, PartialEq, Eq, Structural)]
pub struct TriggeredContext {
    pub(crate) raw: u64,
}

impl View for TriggeredContext {
    type V = u64;

    closed spec fn view(&self) -> u64 {
        self.raw
    }
}

impl TriggeredContext {
    pub fn from_raw(raw: u64) -> (r: Self)
        ensures
            r@ == raw,
    {
        TriggeredContext { raw }
    }

    pub fn inner_mut(&mut self) -> (r: u64)
        ensures
            r == old(self)@,
            *final(self) == *old(self),
    {
        self.raw
    }
}

/// A message description (`struct fi_msg` and its kin) that the caller has laid out,
/// named by its address.
#[derive(Clone, Copy, Debug, PartialEq, Eq, Structural)]
pub struct MsgRef {
    pub(crate) raw: u64,
}

impl View for MsgRef {
    type V = u64;

    closed spec fn view(&self) -> u64 {
        self.raw
    }
}

impl MsgRef {
    pub fn from_raw(raw: u64) -> (r: Self)
        ensures
            r@ == raw,
    {
        MsgRef { raw }
    }

    pub fn as_raw(&self) -> (r: u64)
        ensures
            r == self@,
    {
        self.raw
    }
}

/// The address a call is directed to: the given one, or `FI_ADDR_UNSPEC` when there is none.
pub open spec fn addr_value(addr: Option<&MappedAddress>) -> u64 {
    match addr {
        Some(a) => a@,
        None => FI_ADDR_UNSPEC,
    }
}

/// The context a call passes: the given one, or NULL (0) when there is none.
pub open spec fn ctx_value(context: Option<u64>) -> u64 {
    match context {
        Some(c) => c,
        None => 0,
    }
}

/// The context a call passes: the given one, or NULL when there is none.
pub fn extract_raw_ctx(context: Option<u64>) -> (r: u64)
    ensures
        r == ctx_value(context),
{
    if let Some(ctx) = context {
        ctx
    } else {
        0
    }
}

/// The raw address and context of a call: the given address or `FI_ADDR_UNSPEC`, and the
/// given context or NULL.
pub fn extract_raw_addr_and_ctx(mapped_addr: Option<&MappedAddress>, context: Option<u64>) -> (r: (u64, u64))
    ensures
        r.0 == addr_value(mapped_addr),
        r.1 == ctx_value(context),
{
    let ctx = if let Some(ctx) = context {
        ctx
    } else {
        0
    };
    let raw_addr = if let Some(addr) = mapped_addr {
        addr.raw_addr()
    } else {
        FI_ADDR_UNSPEC
    };
    (raw_addr, ctx)
}

/// The address of an optional target: the given address or `FI_ADDR_UNSPEC`.
pub fn raw_addr_or_unspec(mapped_addr: Option<&MappedAddress>) -> (r: u64)
    ensures
        r == addr_value(mapped_addr),
{
    if let Some(addr) = mapped_addr {
        addr.raw_addr()
    } else {
        FI_ADDR_UNSPEC
    }
}

/// The number of bytes a buffer spans, as `size_of_val` measures it.
pub open spec fn byte_len<T>(buf: &[T]) -> usize {
    vstd::layout::size_of_val_as_usize::<[T]>(buf)
}

/// The address of an endpoint in its provider's format, as raw bytes.
#[derive(Clone, Debug)]
pub struct Address {
    pub(crate) address: Vec<u8>,
}

impl View for Address {
    type V = Seq<u8>;

    closed spec fn view(&self) -> Seq<u8> {
        self.address@
    }
}

impl Address {
    pub fn from_bytes(bytes: Vec<u8>) -> (r: Self)
        ensures
            r@ == bytes@,
    {
        Address { address: bytes }
    }

    pub fn as_bytes(&self) -> (r: &[u8])
        ensures
            r@ == self@,
    {
        self.address.as_slice()
    }
}

/// Anything that is an endpoint of the fabric, named by its handle.
pub trait AsEndpointFid {
    spec fn ep_fid(&self) -> u64;

    fn as_raw_typed_fid(&self) -> (r: u64)
        ensures
            r == self.ep_fid(),
    ;
}

/// Marks the endpoints that are connected to a single peer.
pub trait ConnectedEp {}

/// Marks the connectionless endpoints, which address each operation.
pub trait ConnlessEp {}

/// The endpoint state of a connected endpoint.
pub struct Connected;

/// The endpoint state of an enabled connectionless endpoint.
pub struct Connectionless;

/// The endpoint state of an enabled connection-oriented endpoint that is not yet connected.
pub struct Unconnected;

/// The endpoint state of a connection-oriented endpoint that is not yet enabled.
pub struct UninitUnconnected;

/// The endpoint state of a connectionless endpoint that is not yet enabled.
pub struct UninitConnectionless;

/// An endpoint in state `STATE`, named by its fabric handle.
pub struct EndpointBase<STATE> {
    pub(crate) fid: u64,
    pub(crate) state: core::marker::PhantomData<STATE>,
}

impl<STATE> EndpointBase<STATE> {
    pub fn from_raw_fid(fid: u64) -> (r: Self)
        ensures
            r.ep_fid() == fid,
    {
        EndpointBase { fid, state: core::marker::PhantomData }
    }
}

impl<STATE> AsEndpointFid for EndpointBase<STATE> {
    closed spec fn ep_fid(&self) -> u64 {
        self.fid
    }

    fn as_raw_typed_fid(&self) -> (r: u64) {
        self.fid
    }
}

impl ConnectedEp for EndpointBase<Connected> {}

impl ConnlessEp for EndpointBase<Connectionless> {}

/// A connection-oriented endpoint that is in the connected state.
pub type ConnectedEndpoint = EndpointBase<Connected>;

/// A connectionless endpoint that is enabled and ready for use.
pub type ConnectionlessEndpoint = EndpointBase<Connectionless>;

/// A connection-oriented endpoint that is enabled but not yet connected.
pub type UnconnectedEndpoint = EndpointBase<Unconnected>;

/// A connection-oriented endpoint that is not yet enabled.
pub type UninitUnconnectedEndpoint = EndpointBase<UninitUnconnected>;

/// A connectionless endpoint that is not yet enabled.
pub type UninitConnectionlessEndpoint = EndpointBase<UninitConnectionless>;

} // verus!
