use vstd::prelude::*;
use crate::consts::{FI_ALLGATHER_SET, FI_ALLREDUCE_SET, FI_ALLTOALL_SET, FI_ASYNC_IOV, FI_ATOMIC, FI_AUTH_KEY, FI_AV_USER_ID, FI_BARRIER_SET, FI_BROADCAST_SET, FI_BUFFERED_RECV, FI_CLAIM, FI_COLLECTIVE, FI_COMMIT_COMPLETE, FI_COMPLETION, FI_CONTEXT, FI_CONTEXT2, FI_DELIVERY_COMPLETE, FI_DIRECTED_RECV, FI_DISCARD, FI_FENCE, FI_GATHER_SET, FI_HMEM_DEVICE_ONLY, FI_HMEM_HOST_ALLOC, FI_INJECT, FI_INJECT_COMPLETE, FI_LOCAL_COMM, FI_LOCAL_MR, FI_MATCH_COMPLETE, FI_MORE, FI_MR_ALLOCATED, FI_MR_BASIC, FI_MR_COLLECTIVE, FI_MR_ENDPOINT, FI_MR_HMEM, FI_MR_LOCAL, FI_MR_MMU_NOTIFY, FI_MR_PROV_KEY, FI_MR_RAW, FI_MR_RMA_EVENT, FI_MR_SCALABLE, FI_MR_UNSPEC, FI_MR_VIRT_ADDR, FI_MSG, FI_MSG_PREFIX, FI_MULTICAST, FI_MULTI_RECV, FI_NOTIFY_FLAGS_ONLY, FI_PEEK, FI_READ, FI_RECV, FI_REDUCE_SCATTER_SET, FI_REDUCE_SET, FI_REMOTE_COMM, FI_REMOTE_CQ_DATA, FI_REMOTE_READ, FI_REMOTE_WRITE, FI_RESTRICTED_COMP, FI_RMA, FI_RMA_EVENT, FI_RMA_PMEM, FI_RX_CQ_DATA, FI_SCATTER_SET, FI_SEND, FI_SHARED_AV, FI_SYNC_ERR, FI_TAGGED, FI_TRANSMIT, FI_TRANSMIT_COMPLETE, FI_UNIVERSE, FI_WRITE};

verus! {

/// Whether any bit of `flag` is raised in `bits`.
pub open spec fn has_flag_u64(bits: u64, flag: u64) -> bool {
    bits & flag != 0
}

/// Whether any bit of `flag` is raised in `bits`.
pub open spec fn has_flag_u32(bits: u32, flag: u32) -> bool {
    bits & flag != 0
}

/// Raising a non-empty flag makes it present, and leaves every flag that shares no bit with
/// it as it was.
pub proof fn law_raise_flag_u64(bits: u64, flag: u64, other: u64)
    by (bit_vector)
    requires
        flag != 0,
    ensures
        has_flag_u64(bits | flag, flag),
        flag & other == 0 ==> has_flag_u64(bits | flag, other) == has_flag_u64(bits, other),
{
}

/// Raising a non-empty flag makes it present, and leaves every flag that shares no bit with
/// it as it was.
pub proof fn law_raise_flag_u32(bits: u32, flag: u32, other: u32)
    by (bit_vector)
    requires
        flag != 0,
    ensures
        has_flag_u32(bits | flag, flag),
        flag & other == 0 ==> has_flag_u32(bits | flag, other) == has_flag_u32(bits, other),
{
}

/// Raising a flag twice is the same as raising it once, and raising two flags gives the same
/// set in either order.
pub proof fn law_raise_idempotent_commutative_u64(bits: u64, f: u64, g: u64)
    by (bit_vector)
    ensures
        (bits | f) | f == bits | f,
        (bits | f) | g == (bits | g) | f,
{
}

/// Raising a flag twice is the same as raising it once, and raising two flags gives the same
/// set in either order.
pub proof fn law_raise_idempotent_commutative_u32(bits: u32, f: u32, g: u32)
    by (bit_vector)
    ensures
        (bits | f) | f == bits | f,
        (bits | f) | g == (bits | g) | f,
{
}

/// In an empty set no flag is present; in a full set every non-empty flag is.
pub proof fn law_empty_and_full_u64(flag: u64)
    by (bit_vector)
    ensures
        !has_flag_u64(0, flag),
        flag != 0 ==> has_flag_u64(u64::MAX, flag),
{
}

/// Inverting twice gives the set back, and inverting turns a single-bit flag off exactly when
/// it was on.
pub proof fn law_invert_u32(bits: u32, flag: u32)
    by (bit_vector)
    ensures
        !(!bits) == bits,
        flag != 0 && flag & ((flag - 1) as u32) == 0 ==> has_flag_u32(!bits, flag) == !has_flag_u32(bits, flag),
{
}

/// Represents the mode flags for an endpoint, domain, or fabric.
/// 
/// Corresponds to `mode` field in different structs in libfabric.
#[derive(Clone, Copy, Debug)]
pub struct Mode {
    c_flags: u64,
}

impl View for Mode {
    type V = u64;

    closed spec fn view(&self) -> u64 {
        self.c_flags
    }
}

impl Mode {
    /// A set with no flag raised.
    pub fn new() -> (r: Self)
        ensures
            r@ == 0,
    {
        Self { c_flags: 0 }
    }

    pub fn from_raw(value: u64) -> (r: Self)
        ensures
            r@ == value,
    {
        Self { c_flags: value }
    }

    pub fn as_raw(&self) -> (r: u64)
        ensures
            r == self@,
    {
        self.c_flags
    }

    /// A set with every flag raised.
    pub fn all() -> (r: Self)
        ensures
            r@ == u64::MAX,
    {
        assert(!0u64 == u64::MAX) by (bit_vector);
        Self { c_flags: !0u64 }
    }

    pub fn context(self) -> (r: Self)
        ensures
            r@ == self@ | (FI_CONTEXT),
    {
        Self { c_flags: self.c_flags | FI_CONTEXT }
    }

    pub fn is_context(&self) -> (r: bool)
        ensures
            r == has_flag_u64(self@, FI_CONTEXT),
    {
        self.c_flags & FI_CONTEXT != 0
    }

    pub fn msg_prefix(self) -> (r: Self)
        ensures
            r@ == self@ | (FI_MSG_PREFIX),
    {
        Self { c_flags: self.c_flags | FI_MSG_PREFIX }
    }

    pub fn is_msg_prefix(&self) -> (r: bool)
        ensures
            r == has_flag_u64(self@, FI_MSG_PREFIX),
    {
        self.c_flags & FI_MSG_PREFIX != 0
    }

    pub fn async_iov(self) -> (r: Self)
        ensures
            r@ == self@ | (FI_ASYNC_IOV),
    {
        Self { c_flags: self.c_flags | FI_ASYNC_IOV }
    }

    pub fn is_async_iov(&self) -> (r: bool)
        ensures
            r == has_flag_u64(self@, FI_ASYNC_IOV),
    {
        self.c_flags & FI_ASYNC_IOV != 0
    }

    pub fn rx_cq_data(self) -> (r: Self)
        ensures
            r@ == self@ | (FI_RX_CQ_DATA),
    {
        Self { c_flags: self.c_flags | FI_RX_CQ_DATA }
    }

    pub fn is_rx_cq_data(&self) -> (r: bool)
        ensures
            r == has_flag_u64(self@, FI_RX_CQ_DATA),
    {
        self.c_flags & FI_RX_CQ_DATA != 0
    }

    pub fn local_mr(self) -> (r: Self)
        ensures
            r@ == self@ | (FI_LOCAL_MR),
    {
        Self { c_flags: self.c_flags | FI_LOCAL_MR }
    }

    pub fn is_local_mr(&self) -> (r: bool)
        ensures
            r == has_flag_u64(self@, FI_LOCAL_MR),
    {
        self.c_flags & FI_LOCAL_MR != 0
    }

    /// Deprecated by libfabric.
    pub fn notify_flags_only(self) -> (r: Self)
        ensures
            r@ == self@ | (FI_NOTIFY_FLAGS_ONLY),
    {
        Self { c_flags: self.c_flags | FI_NOTIFY_FLAGS_ONLY }
    }

    /// Deprecated by libfabric.
    pub fn is_notify_flags_only(&self) -> (r: bool)
        ensures
            r == has_flag_u64(self@, FI_NOTIFY_FLAGS_ONLY),
    {
        self.c_flags & FI_NOTIFY_FLAGS_ONLY != 0
    }

    /// Deprecated by libfabric.
    pub fn restricted_comp(self) -> (r: Self)
        ensures
            r@ == self@ | (FI_RESTRICTED_COMP),
    {
        Self { c_flags: self.c_flags | FI_RESTRICTED_COMP }
    }

    /// Deprecated by libfabric.
    pub fn is_restricted_comp(&self) -> (r: bool)
        ensures
            r == has_flag_u64(self@, FI_RESTRICTED_COMP),
    {
        self.c_flags & FI_RESTRICTED_COMP != 0
    }

    pub fn context2(self) -> (r: Self)
        ensures
            r@ == self@ | (FI_CONTEXT2),
    {
        Self { c_flags: self.c_flags | FI_CONTEXT2 }
    }

    pub fn is_context2(&self) -> (r: bool)
        ensures
            r == has_flag_u64(self@, FI_CONTEXT2),
    {
        self.c_flags & FI_CONTEXT2 != 0
    }

    pub fn buffered_recv(self) -> (r: Self)
        ensures
            r@ == self@ | (FI_BUFFERED_RECV),
    {
        Self { c_flags: self.c_flags | FI_BUFFERED_RECV }
    }

    pub fn is_buffered_recv(&self) -> (r: bool)
        ensures
            r == has_flag_u64(self@, FI_BUFFERED_RECV),
    {
        self.c_flags & FI_BUFFERED_RECV != 0
    }

}

impl From<Mode> for u64 {
    fn from(val: Mode) -> (r: u64) {
        val.c_flags
    }
}

impl vstd::std_specs::convert::FromSpecImpl<Mode> for u64 {
    open spec fn obeys_from_spec() -> bool {
        true
    }

    open spec fn from_spec(val: Mode) -> u64 {
        val@
    }
}

impl Default for Mode {
    fn default() -> (r: Self)
        ensures
            r@ == 0,
    {
        Self::new()
    }
}

/// The flags of a memory registration mode, one for each setter of [MrMode].
#[derive(Clone, Copy, Debug, PartialEq, Eq, Structural)]
pub enum MrModeFlag {
    Basic,
    Scalable,
    Local,
    Raw,
    VirtAddr,
    Allocated,
    ProvKey,
    MmuNotify,
    RmaEvent,
    Endpoint,
    Hmem,
    Collective,
}

impl MrModeFlag {
    /// The `FI_MR_` bit of the flag.
    pub open spec fn bit(self) -> u32 {
        match self {
            MrModeFlag::Basic => FI_MR_BASIC,
            MrModeFlag::Scalable => FI_MR_SCALABLE,
            MrModeFlag::Local => FI_MR_LOCAL,
            MrModeFlag::Raw => FI_MR_RAW,
            MrModeFlag::VirtAddr => FI_MR_VIRT_ADDR,
            MrModeFlag::Allocated => FI_MR_ALLOCATED,
            MrModeFlag::ProvKey => FI_MR_PROV_KEY,
            MrModeFlag::MmuNotify => FI_MR_MMU_NOTIFY,
            MrModeFlag::RmaEvent => FI_MR_RMA_EVENT,
            MrModeFlag::Endpoint => FI_MR_ENDPOINT,
            MrModeFlag::Hmem => FI_MR_HMEM,
            MrModeFlag::Collective => FI_MR_COLLECTIVE,
        }
    }
}

/// The mode `bits` with the flag `f` raised: what the setter of `f` makes of it.
pub open spec fn mr_mode_raised(bits: u32, f: MrModeFlag) -> u32 {
    bits | f.bit()
}

/// The setters of a memory registration mode commute and are idempotent: for any mode `m`
/// and flags `f` and `g`, raising `f` then `g` gives the same mode as raising `g` then `f`,
/// and raising `f` twice gives the same mode as raising it once. Each setter only adds its
/// own bit.
pub proof fn law_mr_mode_setters(m: MrMode, f: MrModeFlag, g: MrModeFlag)
    ensures
        mr_mode_raised(mr_mode_raised(m@, f), g) == mr_mode_raised(mr_mode_raised(m@, g), f),
        mr_mode_raised(mr_mode_raised(m@, f), f) == mr_mode_raised(m@, f),
        mr_mode_raised(m@, f) & !f.bit() == m@ & !f.bit(),
        has_flag_u32(mr_mode_raised(m@, f), f.bit()),
{
    let bits = m@;
    let fb = f.bit();
    let gb = g.bit();
    law_raise_idempotent_commutative_u32(bits, fb, gb);
    assert((bits | fb) & !fb == bits & !fb) by (bit_vector);
    assert((bits | fb) & fb == fb) by (bit_vector);
}

/// Memory registration mode flags.
/// 
/// Corresponds to `FI_MR_` values in libfabric.
#[derive(Clone, Copy, Debug)]
pub struct MrMode {
    c_flags: u32,
}

impl View for MrMode {
    type V = u32;

    closed spec fn view(&self) -> u32 {
        self.c_flags
    }
}

impl MrMode {
    /// A set with no flag raised.
    pub fn new() -> (r: Self)
        ensures
            r@ == 0,
    {
        Self { c_flags: 0 }
    }

    pub fn from_raw(value: u32) -> (r: Self)
        ensures
            r@ == value,
    {
        Self { c_flags: value }
    }

    /// Whether no mode at all is requested (`FI_MR_UNSPEC`).
    pub fn is_unspec(&self) -> (r: bool)
        ensures
            r == (self@ == FI_MR_UNSPEC),
    {
        self.c_flags == FI_MR_UNSPEC
    }

    /// Flips every bit of the mode.
    pub fn inverse(self) -> (r: Self)
        ensures
            r@ == !self@,
    {
        Self { c_flags: !self.c_flags }
    }

    pub fn basic(self) -> (r: Self)
        ensures
            r@ == self@ | (FI_MR_BASIC),
            r@ == mr_mode_raised(self@, MrModeFlag::Basic),
    {
        Self { c_flags: self.c_flags | FI_MR_BASIC }
    }

    pub fn is_basic(&self) -> (r: bool)
        ensures
            r == has_flag_u32(self@, FI_MR_BASIC),
    {
        self.c_flags & FI_MR_BASIC != 0
    }

    pub fn scalable(self) -> (r: Self)
        ensures
            r@ == self@ | (FI_MR_SCALABLE),
            r@ == mr_mode_raised(self@, MrModeFlag::Scalable),
    {
        Self { c_flags: self.c_flags | FI_MR_SCALABLE }
    }

    pub fn is_scalable(&self) -> (r: bool)
        ensures
            r == has_flag_u32(self@, FI_MR_SCALABLE),
    {
        self.c_flags & FI_MR_SCALABLE != 0
    }

    pub fn local(self) -> (r: Self)
        ensures
            r@ == self@ | (FI_MR_LOCAL),
            r@ == mr_mode_raised(self@, MrModeFlag::Local),
    {
        Self { c_flags: self.c_flags | FI_MR_LOCAL }
    }

    pub fn is_local(&self) -> (r: bool)
        ensures
            r == has_flag_u32(self@, FI_MR_LOCAL),
    {
        self.c_flags & FI_MR_LOCAL != 0
    }

    pub fn raw(self) -> (r: Self)
        ensures
            r@ == self@ | (FI_MR_RAW),
            r@ == mr_mode_raised(self@, MrModeFlag::Raw),
    {
        Self { c_flags: self.c_flags | FI_MR_RAW }
    }

    pub fn is_raw(&self) -> (r: bool)
        ensures
            r == has_flag_u32(self@, FI_MR_RAW),
    {
        self.c_flags & FI_MR_RAW != 0
    }

    pub fn virt_addr(self) -> (r: Self)
        ensures
            r@ == self@ | (FI_MR_VIRT_ADDR),
            r@ == mr_mode_raised(self@, MrModeFlag::VirtAddr),
    {
        Self { c_flags: self.c_flags | FI_MR_VIRT_ADDR }
    }

    pub fn is_virt_addr(&self) -> (r: bool)
        ensures
            r == has_flag_u32(self@, FI_MR_VIRT_ADDR),
    {
        self.c_flags & FI_MR_VIRT_ADDR != 0
    }

    pub fn allocated(self) -> (r: Self)
        ensures
            r@ == self@ | (FI_MR_ALLOCATED),
            r@ == mr_mode_raised(self@, MrModeFlag::Allocated),
    {
        Self { c_flags: self.c_flags | FI_MR_ALLOCATED }
    }

    pub fn is_allocated(&self) -> (r: bool)
        ensures
            r == has_flag_u32(self@, FI_MR_ALLOCATED),
    {
        self.c_flags & FI_MR_ALLOCATED != 0
    }

    pub fn prov_key(self) -> (r: Self)
        ensures
            r@ == self@ | (FI_MR_PROV_KEY),
            r@ == mr_mode_raised(self@, MrModeFlag::ProvKey),
    {
        Self { c_flags: self.c_flags | FI_MR_PROV_KEY }
    }

    pub fn is_prov_key(&self) -> (r: bool)
        ensures
            r == has_flag_u32(self@, FI_MR_PROV_KEY),
    {
        self.c_flags & FI_MR_PROV_KEY != 0
    }

    pub fn mmu_notify(self) -> (r: Self)
        ensures
            r@ == self@ | (FI_MR_MMU_NOTIFY),
            r@ == mr_mode_raised(self@, MrModeFlag::MmuNotify),
    {
        Self { c_flags: self.c_flags | FI_MR_MMU_NOTIFY }
    }

    pub fn is_mmu_notify(&self) -> (r: bool)
        ensures
            r == has_flag_u32(self@, FI_MR_MMU_NOTIFY),
    {
        self.c_flags & FI_MR_MMU_NOTIFY != 0
    }

    pub fn rma_event(self) -> (r: Self)
        ensures
            r@ == self@ | (FI_MR_RMA_EVENT),
            r@ == mr_mode_raised(self@, MrModeFlag::RmaEvent),
    {
        Self { c_flags: self.c_flags | FI_MR_RMA_EVENT }
    }

    pub fn is_rma_event(&self) -> (r: bool)
        ensures
            r == has_flag_u32(self@, FI_MR_RMA_EVENT),
    {
        self.c_flags & FI_MR_RMA_EVENT != 0
    }

    pub fn endpoint(self) -> (r: Self)
        ensures
            r@ == self@ | (FI_MR_ENDPOINT),
            r@ == mr_mode_raised(self@, MrModeFlag::Endpoint),
    {
        Self { c_flags: self.c_flags | FI_MR_ENDPOINT }
    }

    pub fn is_endpoint(&self) -> (r: bool)
        ensures
            r == has_flag_u32(self@, FI_MR_ENDPOINT),
    {
        self.c_flags & FI_MR_ENDPOINT != 0
    }

    pub fn hmem(self) -> (r: Self)
        ensures
            r@ == self@ | (FI_MR_HMEM),
            r@ == mr_mode_raised(self@, MrModeFlag::Hmem),
    {
        Self { c_flags: self.c_flags | FI_MR_HMEM }
    }

    pub fn is_hmem(&self) -> (r: bool)
        ensures
            r == has_flag_u32(self@, FI_MR_HMEM),
    {
        self.c_flags & FI_MR_HMEM != 0
    }

    pub fn collective(self) -> (r: Self)
        ensures
            r@ == self@ | (FI_MR_COLLECTIVE),
            r@ == mr_mode_raised(self@, MrModeFlag::Collective),
    {
        Self { c_flags: self.c_flags | FI_MR_COLLECTIVE }
    }

    pub fn is_collective(&self) -> (r: bool)
        ensures
            r == has_flag_u32(self@, FI_MR_COLLECTIVE),
    {
        self.c_flags & FI_MR_COLLECTIVE != 0
    }

    pub fn as_raw(&self) -> (r: u32)
        ensures
            r == self@,
    {
        self.c_flags
    }

}

impl Default for MrMode {
    fn default() -> (r: Self)
        ensures
            r@ == 0,
    {
        Self::new()
    }
}

/// Memory registration options.
#[derive(Clone, Copy, Debug)]
pub struct MrRegOpt {
    c_flags: u64,
}

impl View for MrRegOpt {
    type V = u64;

    closed spec fn view(&self) -> u64 {
        self.c_flags
    }
}

impl MrRegOpt {
    /// A set with no flag raised.
    pub fn new() -> (r: Self)
        ensures
            r@ == 0,
    {
        Self { c_flags: 0 }
    }

    pub fn from_raw(value: u64) -> (r: Self)
        ensures
            r@ == value,
    {
        Self { c_flags: value }
    }

    pub fn as_raw(&self) -> (r: u64)
        ensures
            r == self@,
    {
        self.c_flags
    }

    pub fn rma_event(self) -> (r: Self)
        ensures
            r@ == self@ | (FI_RMA_EVENT),
    {
        Self { c_flags: self.c_flags | FI_RMA_EVENT }
    }

    pub fn is_rma_event(&self) -> (r: bool)
        ensures
            r == has_flag_u64(self@, FI_RMA_EVENT),
    {
        self.c_flags & FI_RMA_EVENT != 0
    }

    pub fn rma_pmem(self) -> (r: Self)
        ensures
            r@ == self@ | (FI_RMA_PMEM),
    {
        Self { c_flags: self.c_flags | FI_RMA_PMEM }
    }

    pub fn is_rma_pmem(&self) -> (r: bool)
        ensures
            r == has_flag_u64(self@, FI_RMA_PMEM),
    {
        self.c_flags & FI_RMA_PMEM != 0
    }

    pub fn hmem_device_only(self) -> (r: Self)
        ensures
            r@ == self@ | (FI_HMEM_DEVICE_ONLY),
    {
        Self { c_flags: self.c_flags | FI_HMEM_DEVICE_ONLY }
    }

    pub fn is_hmem_device_only(&self) -> (r: bool)
        ensures
            r == has_flag_u64(self@, FI_HMEM_DEVICE_ONLY),
    {
        self.c_flags & FI_HMEM_DEVICE_ONLY != 0
    }

    pub fn hmem_host_alloc(self) -> (r: Self)
        ensures
            r@ == self@ | (FI_HMEM_HOST_ALLOC),
    {
        Self { c_flags: self.c_flags | FI_HMEM_HOST_ALLOC }
    }

    pub fn is_hmem_host_alloc(&self) -> (r: bool)
        ensures
            r == has_flag_u64(self@, FI_HMEM_HOST_ALLOC),
    {
        self.c_flags & FI_HMEM_HOST_ALLOC != 0
    }

}

impl Default for MrRegOpt {
    fn default() -> (r: Self)
        ensures
            r@ == 0,
    {
        Self::new()
    }
}

/// Memory registration access flags.
#[derive(Clone, Copy, Debug)]
pub struct MrAccess {
    c_flags: u32,
}

impl View for MrAccess {
    type V = u32;

    closed spec fn view(&self) -> u32 {
        self.c_flags
    }
}

impl MrAccess {
    /// A set with no flag raised.
    pub fn new() -> (r: Self)
        ensures
            r@ == 0,
    {
        Self { c_flags: 0 }
    }

    pub fn from_raw(value: u32) -> (r: Self)
        ensures
            r@ == value,
    {
        Self { c_flags: value }
    }

    pub fn send(self) -> (r: Self)
        ensures
            r@ == self@ | (FI_SEND),
    {
        Self { c_flags: self.c_flags | FI_SEND }
    }

    pub fn is_send(&self) -> (r: bool)
        ensures
            r == has_flag_u32(self@, FI_SEND),
    {
        self.c_flags & FI_SEND != 0
    }

    pub fn recv(self) -> (r: Self)
        ensures
            r@ == self@ | (FI_RECV),
    {
        Self { c_flags: self.c_flags | FI_RECV }
    }

    pub fn is_recv(&self) -> (r: bool)
        ensures
            r == has_flag_u32(self@, FI_RECV),
    {
        self.c_flags & FI_RECV != 0
    }

    pub fn read(self) -> (r: Self)
        ensures
            r@ == self@ | (FI_READ),
    {
        Self { c_flags: self.c_flags | FI_READ }
    }

    pub fn is_read(&self) -> (r: bool)
        ensures
            r == has_flag_u32(self@, FI_READ),
    {
        self.c_flags & FI_READ != 0
    }

    pub fn write(self) -> (r: Self)
        ensures
            r@ == self@ | (FI_WRITE),
    {
        Self { c_flags: self.c_flags | FI_WRITE }
    }

    pub fn is_write(&self) -> (r: bool)
        ensures
            r == has_flag_u32(self@, FI_WRITE),
    {
        self.c_flags & FI_WRITE != 0
    }

    pub fn remote_read(self) -> (r: Self)
        ensures
            r@ == self@ | (FI_REMOTE_READ),
    {
        Self { c_flags: self.c_flags | FI_REMOTE_READ }
    }

    pub fn is_remote_read(&self) -> (r: bool)
        ensures
            r == has_flag_u32(self@, FI_REMOTE_READ),
    {
        self.c_flags & FI_REMOTE_READ != 0
    }

    pub fn remote_write(self) -> (r: Self)
        ensures
            r@ == self@ | (FI_REMOTE_WRITE),
    {
        Self { c_flags: self.c_flags | FI_REMOTE_WRITE }
    }

    pub fn is_remote_write(&self) -> (r: bool)
        ensures
            r == has_flag_u32(self@, FI_REMOTE_WRITE),
    {
        self.c_flags & FI_REMOTE_WRITE != 0
    }

    pub fn collective(self) -> (r: Self)
        ensures
            r@ == self@ | (FI_COLLECTIVE),
    {
        Self { c_flags: self.c_flags | FI_COLLECTIVE }
    }

    pub fn is_collective(&self) -> (r: bool)
        ensures
            r == has_flag_u32(self@, FI_COLLECTIVE),
    {
        self.c_flags & FI_COLLECTIVE != 0
    }

    pub fn as_raw(&self) -> (r: u32)
        ensures
            r == self@,
    {
        self.c_flags
    }

}

impl Default for MrAccess {
    fn default() -> (r: Self)
        ensures
            r@ == 0,
    {
        Self::new()
    }
}

/// Address vector options.
#[derive(Clone, Copy, Debug)]
pub struct AVOptions {
    c_flags: u64,
}

impl View for AVOptions {
    type V = u64;

    closed spec fn view(&self) -> u64 {
        self.c_flags
    }
}

impl AVOptions {
    /// Create a new [AVOptions] object with the default configuration.
    /// A set with no flag raised.
    pub fn new() -> (r: Self)
        ensures
            r@ == 0,
    {
        Self { c_flags: 0 }
    }

    /// Hint to the provider that more insertion requests will follow, allowing the provider to aggregate insertion requests if desired.
    /// 
    /// Corresponds to setting the bitflag `FI_MORE`.
    pub fn more(self) -> (r: Self)
        ensures
            r@ == self@ | (FI_MORE as u64),
    {
        Self { c_flags: self.c_flags | FI_MORE as u64 }
    }

    /// Check if the `FI_MORE` bitflag is set.
    pub fn is_more(&self) -> (r: bool)
        ensures
            r == has_flag_u64(self@, FI_MORE as u64),
    {
        self.c_flags & FI_MORE as u64 != 0
    }

    /// This flag applies to synchronous insertions only, and is used to retrieve error details of failed insertions.
    /// 
    /// Corresponds to setting the bitflag `FI_SYNC_ERR`.
    pub fn sync_err(self) -> (r: Self)
        ensures
            r@ == self@ | (FI_SYNC_ERR),
    {
        Self { c_flags: self.c_flags | FI_SYNC_ERR }
    }

    /// Check if the `FI_SYNC_ERR` bitflag is set.
    pub fn is_sync_err(&self) -> (r: bool)
        ensures
            r == has_flag_u64(self@, FI_SYNC_ERR),
    {
        self.c_flags & FI_SYNC_ERR != 0
    }

    pub fn user_id(self) -> (r: Self)
        ensures
            r@ == self@ | (FI_AV_USER_ID),
    {
        Self { c_flags: self.c_flags | FI_AV_USER_ID }
    }

    pub fn is_user_id(&self) -> (r: bool)
        ensures
            r == has_flag_u64(self@, FI_AV_USER_ID),
    {
        self.c_flags & FI_AV_USER_ID != 0
    }

    pub fn as_raw(&self) -> (r: u64)
        ensures
            r == self@,
    {
        self.c_flags
    }

}

impl Default for AVOptions {
    fn default() -> (r: Self)
        ensures
            r@ == 0,
    {
        Self::new()
    }
}

/// Transfer attribute flags of a transmit or receive context.
#[derive(Clone, Copy, Debug)]
pub struct TransferOptions {
    c_flags: u32,
}

impl View for TransferOptions {
    type V = u32;

    closed spec fn view(&self) -> u32 {
        self.c_flags
    }
}

impl TransferOptions {
    /// A set with no flag raised.
    pub fn new() -> (r: Self)
        ensures
            r@ == 0,
    {
        Self { c_flags: 0 }
    }

    pub fn from_raw(value: u32) -> (r: Self)
        ensures
            r@ == value,
    {
        Self { c_flags: value }
    }

    pub fn transmit(self) -> (r: Self)
        ensures
            r@ == self@ | (FI_TRANSMIT),
    {
        Self { c_flags: self.c_flags | FI_TRANSMIT }
    }

    pub fn recv(self) -> (r: Self)
        ensures
            r@ == self@ | (FI_RECV),
    {
        Self { c_flags: self.c_flags | FI_RECV }
    }

    pub fn commit_complete(self) -> (r: Self)
        ensures
            r@ == self@ | (FI_COMMIT_COMPLETE),
    {
        Self { c_flags: self.c_flags | FI_COMMIT_COMPLETE }
    }

    pub fn is_commit_complete(&self) -> (r: bool)
        ensures
            r == has_flag_u32(self@, FI_COMMIT_COMPLETE),
    {
        self.c_flags & FI_COMMIT_COMPLETE != 0
    }

    pub fn completion(self) -> (r: Self)
        ensures
            r@ == self@ | (FI_COMPLETION),
    {
        Self { c_flags: self.c_flags | FI_COMPLETION }
    }

    pub fn is_completion(&self) -> (r: bool)
        ensures
            r == has_flag_u32(self@, FI_COMPLETION),
    {
        self.c_flags & FI_COMPLETION != 0
    }

    pub fn delivery_complete(self) -> (r: Self)
        ensures
            r@ == self@ | (FI_DELIVERY_COMPLETE),
    {
        Self { c_flags: self.c_flags | FI_DELIVERY_COMPLETE }
    }

    pub fn is_delivery_complete(&self) -> (r: bool)
        ensures
            r == has_flag_u32(self@, FI_DELIVERY_COMPLETE),
    {
        self.c_flags & FI_DELIVERY_COMPLETE != 0
    }

    pub fn inject(self) -> (r: Self)
        ensures
            r@ == self@ | (FI_INJECT),
    {
        Self { c_flags: self.c_flags | FI_INJECT }
    }

    pub fn is_inject(&self) -> (r: bool)
        ensures
            r == has_flag_u32(self@, FI_INJECT),
    {
        self.c_flags & FI_INJECT != 0
    }

    pub fn inject_complete(self) -> (r: Self)
        ensures
            r@ == self@ | (FI_INJECT_COMPLETE),
    {
        Self { c_flags: self.c_flags | FI_INJECT_COMPLETE }
    }

    pub fn is_inject_complete(&self) -> (r: bool)
        ensures
            r == has_flag_u32(self@, FI_INJECT_COMPLETE),
    {
        self.c_flags & FI_INJECT_COMPLETE != 0
    }

    pub fn multicast(self) -> (r: Self)
        ensures
            r@ == self@ | (FI_MULTICAST),
    {
        Self { c_flags: self.c_flags | FI_MULTICAST }
    }

    pub fn is_multicast(&self) -> (r: bool)
        ensures
            r == has_flag_u32(self@, FI_MULTICAST),
    {
        self.c_flags & FI_MULTICAST != 0
    }

    pub fn multi_recv(self) -> (r: Self)
        ensures
            r@ == self@ | (FI_MULTI_RECV),
    {
        Self { c_flags: self.c_flags | FI_MULTI_RECV }
    }

    pub fn is_multi_recv(&self) -> (r: bool)
        ensures
            r == has_flag_u32(self@, FI_MULTI_RECV),
    {
        self.c_flags & FI_MULTI_RECV != 0
    }

    pub fn transmit_complete(self) -> (r: Self)
        ensures
            r@ == self@ | (FI_TRANSMIT_COMPLETE),
    {
        Self { c_flags: self.c_flags | FI_TRANSMIT_COMPLETE }
    }

    pub fn is_transmit_complete(&self) -> (r: bool)
        ensures
            r == has_flag_u32(self@, FI_TRANSMIT_COMPLETE),
    {
        self.c_flags & FI_TRANSMIT_COMPLETE != 0
    }

    pub fn as_raw(&self) -> (r: u32)
        ensures
            r == self@,
    {
        self.c_flags
    }

}

impl Default for TransferOptions {
    fn default() -> (r: Self)
        ensures
            r@ == 0,
    {
        Self::new()
    }
}

/// Domain capability flags.
#[derive(Clone, Debug)]
pub struct DomainCaps {
    c_flags: u64,
}

impl View for DomainCaps {
    type V = u64;

    closed spec fn view(&self) -> u64 {
        self.c_flags
    }
}

impl DomainCaps {
    /// A set with no flag raised.
    pub fn new() -> (r: Self)
        ensures
            r@ == 0,
    {
        Self { c_flags: 0 }
    }

    pub fn from_raw(value: u64) -> (r: Self)
        ensures
            r@ == value,
    {
        Self { c_flags: value }
    }

    pub fn as_raw(&self) -> (r: u64)
        ensures
            r == self@,
    {
        self.c_flags
    }

    pub fn directed_recv(self) -> (r: Self)
        ensures
            r@ == self@ | (FI_DIRECTED_RECV),
    {
        Self { c_flags: self.c_flags | FI_DIRECTED_RECV }
    }

    pub fn is_directed_recv(&self) -> (r: bool)
        ensures
            r == has_flag_u64(self@, FI_DIRECTED_RECV),
    {
        self.c_flags & FI_DIRECTED_RECV != 0
    }

    pub fn av_user_id(self) -> (r: Self)
        ensures
            r@ == self@ | (FI_AV_USER_ID),
    {
        Self { c_flags: self.c_flags | FI_AV_USER_ID }
    }

    pub fn is_av_user_id(&self) -> (r: bool)
        ensures
            r == has_flag_u64(self@, FI_AV_USER_ID),
    {
        self.c_flags & FI_AV_USER_ID != 0
    }

    pub fn local_comm(self) -> (r: Self)
        ensures
            r@ == self@ | (FI_LOCAL_COMM),
    {
        Self { c_flags: self.c_flags | FI_LOCAL_COMM }
    }

    pub fn is_local_comm(&self) -> (r: bool)
        ensures
            r == has_flag_u64(self@, FI_LOCAL_COMM),
    {
        self.c_flags & FI_LOCAL_COMM != 0
    }

    pub fn remote_comm(self) -> (r: Self)
        ensures
            r@ == self@ | (FI_REMOTE_COMM),
    {
        Self { c_flags: self.c_flags | FI_REMOTE_COMM }
    }

    pub fn is_remote_comm(&self) -> (r: bool)
        ensures
            r == has_flag_u64(self@, FI_REMOTE_COMM),
    {
        self.c_flags & FI_REMOTE_COMM != 0
    }

    pub fn shared_av(self) -> (r: Self)
        ensures
            r@ == self@ | (FI_SHARED_AV),
    {
        Self { c_flags: self.c_flags | FI_SHARED_AV }
    }

    pub fn is_shared_av(&self) -> (r: bool)
        ensures
            r == has_flag_u64(self@, FI_SHARED_AV),
    {
        self.c_flags & FI_SHARED_AV != 0
    }

}

impl From<DomainCaps> for u64 {
    fn from(val: DomainCaps) -> (r: u64) {
        val.c_flags
    }
}

impl vstd::std_specs::convert::FromSpecImpl<DomainCaps> for u64 {
    open spec fn obeys_from_spec() -> bool {
        true
    }

    open spec fn from_spec(val: DomainCaps) -> u64 {
        val@
    }
}

/// Completion flags for operations.
#[derive(Clone, Copy, Debug)]
pub struct CompletionFlags {
    c_flags: u64,
}

impl View for CompletionFlags {
    type V = u64;

    closed spec fn view(&self) -> u64 {
        self.c_flags
    }
}

impl CompletionFlags {
    pub fn from_raw(value: u64) -> (r: Self)
        ensures
            r@ == value,
    {
        Self { c_flags: value }
    }

    pub fn is_send(&self) -> (r: bool)
        ensures
            r == has_flag_u64(self@, FI_SEND as u64),
    {
        self.c_flags & FI_SEND as u64 != 0
    }

    pub fn is_recv(&self) -> (r: bool)
        ensures
            r == has_flag_u64(self@, FI_RECV as u64),
    {
        self.c_flags & FI_RECV as u64 != 0
    }

    pub fn is_rma(&self) -> (r: bool)
        ensures
            r == has_flag_u64(self@, FI_RMA as u64),
    {
        self.c_flags & FI_RMA as u64 != 0
    }

    pub fn is_atomic(&self) -> (r: bool)
        ensures
            r == has_flag_u64(self@, FI_ATOMIC as u64),
    {
        self.c_flags & FI_ATOMIC as u64 != 0
    }

    pub fn is_msg(&self) -> (r: bool)
        ensures
            r == has_flag_u64(self@, FI_MSG as u64),
    {
        self.c_flags & FI_MSG as u64 != 0
    }

    pub fn is_tagged(&self) -> (r: bool)
        ensures
            r == has_flag_u64(self@, FI_TAGGED as u64),
    {
        self.c_flags & FI_TAGGED as u64 != 0
    }

    pub fn is_multicast(&self) -> (r: bool)
        ensures
            r == has_flag_u64(self@, FI_MULTICAST as u64),
    {
        self.c_flags & FI_MULTICAST as u64 != 0
    }

    pub fn is_read(&self) -> (r: bool)
        ensures
            r == has_flag_u64(self@, FI_READ as u64),
    {
        self.c_flags & FI_READ as u64 != 0
    }

    pub fn is_write(&self) -> (r: bool)
        ensures
            r == has_flag_u64(self@, FI_WRITE as u64),
    {
        self.c_flags & FI_WRITE as u64 != 0
    }

    pub fn is_remote_read(&self) -> (r: bool)
        ensures
            r == has_flag_u64(self@, FI_REMOTE_READ as u64),
    {
        self.c_flags & FI_REMOTE_READ as u64 != 0
    }

    pub fn is_remote_write(&self) -> (r: bool)
        ensures
            r == has_flag_u64(self@, FI_REMOTE_WRITE as u64),
    {
        self.c_flags & FI_REMOTE_WRITE as u64 != 0
    }

    pub fn is_remote_cq_data(&self) -> (r: bool)
        ensures
            r == has_flag_u64(self@, FI_REMOTE_CQ_DATA as u64),
    {
        self.c_flags & FI_REMOTE_CQ_DATA as u64 != 0
    }

    pub fn is_multi_recv(&self) -> (r: bool)
        ensures
            r == has_flag_u64(self@, FI_MULTI_RECV as u64),
    {
        self.c_flags & FI_MULTI_RECV as u64 != 0
    }

    pub fn is_more(&self) -> (r: bool)
        ensures
            r == has_flag_u64(self@, FI_MORE as u64),
    {
        self.c_flags & FI_MORE as u64 != 0
    }

    pub fn is_claim(&self) -> (r: bool)
        ensures
            r == has_flag_u64(self@, FI_CLAIM),
    {
        self.c_flags & FI_CLAIM != 0
    }

}

/// Address vector set options.
#[derive(Clone, Copy, Debug)]
pub struct AVSetOptions {
    c_flags: u64,
}

impl View for AVSetOptions {
    type V = u64;

    closed spec fn view(&self) -> u64 {
        self.c_flags
    }
}

impl AVSetOptions {
    /// A set with no flag raised.
    pub fn new() -> (r: Self)
        ensures
            r@ == 0,
    {
        Self { c_flags: 0 }
    }

    pub fn as_raw(&self) -> (r: u64)
        ensures
            r == self@,
    {
        self.c_flags
    }

    pub fn universe(self) -> (r: Self)
        ensures
            r@ == self@ | (FI_UNIVERSE),
    {
        Self { c_flags: self.c_flags | FI_UNIVERSE }
    }

    pub fn is_universe(&self) -> (r: bool)
        ensures
            r == has_flag_u64(self@, FI_UNIVERSE),
    {
        self.c_flags & FI_UNIVERSE != 0
    }

    pub fn barrier_set(self) -> (r: Self)
        ensures
            r@ == self@ | (FI_BARRIER_SET),
    {
        Self { c_flags: self.c_flags | FI_BARRIER_SET }
    }

    pub fn is_barrier_set(&self) -> (r: bool)
        ensures
            r == has_flag_u64(self@, FI_BARRIER_SET),
    {
        self.c_flags & FI_BARRIER_SET != 0
    }

    pub fn broadcast_set(self) -> (r: Self)
        ensures
            r@ == self@ | (FI_BROADCAST_SET),
    {
        Self { c_flags: self.c_flags | FI_BROADCAST_SET }
    }

    pub fn is_broadcast_set(&self) -> (r: bool)
        ensures
            r == has_flag_u64(self@, FI_BROADCAST_SET),
    {
        self.c_flags & FI_BROADCAST_SET != 0
    }

    pub fn alltoall_set(self) -> (r: Self)
        ensures
            r@ == self@ | (FI_ALLTOALL_SET),
    {
        Self { c_flags: self.c_flags | FI_ALLTOALL_SET }
    }

    pub fn is_alltoall_set(&self) -> (r: bool)
        ensures
            r == has_flag_u64(self@, FI_ALLTOALL_SET),
    {
        self.c_flags & FI_ALLTOALL_SET != 0
    }

    pub fn allreduce_set(self) -> (r: Self)
        ensures
            r@ == self@ | (FI_ALLREDUCE_SET),
    {
        Self { c_flags: self.c_flags | FI_ALLREDUCE_SET }
    }

    pub fn is_allreduce_set(&self) -> (r: bool)
        ensures
            r == has_flag_u64(self@, FI_ALLREDUCE_SET),
    {
        self.c_flags & FI_ALLREDUCE_SET != 0
    }

    pub fn allgather_set(self) -> (r: Self)
        ensures
            r@ == self@ | (FI_ALLGATHER_SET),
    {
        Self { c_flags: self.c_flags | FI_ALLGATHER_SET }
    }

    pub fn is_allgather_set(&self) -> (r: bool)
        ensures
            r == has_flag_u64(self@, FI_ALLGATHER_SET),
    {
        self.c_flags & FI_ALLGATHER_SET != 0
    }

    pub fn reduce_scatter_set(self) -> (r: Self)
        ensures
            r@ == self@ | (FI_REDUCE_SCATTER_SET),
    {
        Self { c_flags: self.c_flags | FI_REDUCE_SCATTER_SET }
    }

    pub fn is_reduce_scatter_set(&self) -> (r: bool)
        ensures
            r == has_flag_u64(self@, FI_REDUCE_SCATTER_SET),
    {
        self.c_flags & FI_REDUCE_SCATTER_SET != 0
    }

    pub fn reduce_set(self) -> (r: Self)
        ensures
            r@ == self@ | (FI_REDUCE_SET),
    {
        Self { c_flags: self.c_flags | FI_REDUCE_SET }
    }

    pub fn is_reduce_set(&self) -> (r: bool)
        ensures
            r == has_flag_u64(self@, FI_REDUCE_SET),
    {
        self.c_flags & FI_REDUCE_SET != 0
    }

    pub fn scatter_set(self) -> (r: Self)
        ensures
            r@ == self@ | (FI_SCATTER_SET),
    {
        Self { c_flags: self.c_flags | FI_SCATTER_SET }
    }

    pub fn is_scatter_set(&self) -> (r: bool)
        ensures
            r == has_flag_u64(self@, FI_SCATTER_SET),
    {
        self.c_flags & FI_SCATTER_SET != 0
    }

    pub fn gather_set(self) -> (r: Self)
        ensures
            r@ == self@ | (FI_GATHER_SET),
    {
        Self { c_flags: self.c_flags | FI_GATHER_SET }
    }

    pub fn is_gather_set(&self) -> (r: bool)
        ensures
            r == has_flag_u64(self@, FI_GATHER_SET),
    {
        self.c_flags & FI_GATHER_SET != 0
    }

}

impl Default for AVSetOptions {
    fn default() -> (r: Self)
        ensures
            r@ == 0,
    {
        Self::new()
    }
}

/// Options for joining a multicast group.
#[derive(Clone, Copy, Debug)]
pub struct JoinOptions {
    c_flags: u64,
}

impl View for JoinOptions {
    type V = u64;

    closed spec fn view(&self) -> u64 {
        self.c_flags
    }
}

impl JoinOptions {
    /// A set with no flag raised.
    pub fn new() -> (r: Self)
        ensures
            r@ == 0,
    {
        Self { c_flags: 0 }
    }

    pub fn as_raw(&self) -> (r: u64)
        ensures
            r == self@,
    {
        self.c_flags
    }

    pub fn send(self) -> (r: Self)
        ensures
            r@ == self@ | (FI_SEND as u64),
    {
        Self { c_flags: self.c_flags | FI_SEND as u64 }
    }

    pub fn is_send(&self) -> (r: bool)
        ensures
            r == has_flag_u64(self@, FI_SEND as u64),
    {
        self.c_flags & FI_SEND as u64 != 0
    }

    /// Raises the same bit as [JoinOptions::send] (`FI_SEND`).
    pub fn receive(self) -> (r: Self)
        ensures
            r@ == self@ | (FI_SEND as u64),
    {
        Self { c_flags: self.c_flags | FI_SEND as u64 }
    }

    /// Queries the same bit as [JoinOptions::is_send] (`FI_SEND`).
    pub fn is_receive(&self) -> (r: bool)
        ensures
            r == has_flag_u64(self@, FI_SEND as u64),
    {
        self.c_flags & FI_SEND as u64 != 0
    }

}

impl Default for JoinOptions {
    fn default() -> (r: Self)
        ensures
            r@ == 0,
    {
        Self::new()
    }
}

/// Per-operation flags of a data transfer. The six parameters record whether the
/// operation transmits, is a message call, targets remote memory, carries remote CQ data,
/// is tagged, or is atomic; each combination admits its own set of flags.
#[derive(Clone, Copy)]
pub struct TferOptions<const OUT: bool, const MSG: bool, const RMA: bool, const DATA: bool, const TAGGED: bool, const ATOMIC: bool> {
    c_flags: u64,
}

impl<const OUT: bool, const MSG: bool, const RMA: bool, const DATA: bool, const TAGGED: bool, const ATOMIC: bool> View for TferOptions<OUT, MSG, RMA, DATA, TAGGED, ATOMIC> {
    type V = u64;

    closed spec fn view(&self) -> u64 {
        self.c_flags
    }
}

impl<const OUT: bool, const MSG: bool, const RMA: bool, const DATA: bool, const TAGGED: bool, const ATOMIC: bool> TferOptions<OUT, MSG, RMA, DATA, TAGGED, ATOMIC> {
    /// A set with no flag raised.
    pub fn new() -> (r: Self)
        ensures
            r@ == 0,
    {
        Self { c_flags: 0 }
    }

    pub fn as_raw(&self) -> (r: u64)
        ensures
            r == self@,
    {
        self.c_flags
    }

    pub fn completion(self) -> (r: Self)
        ensures
            r@ == self@ | (FI_COMPLETION as u64),
    {
        Self { c_flags: self.c_flags | FI_COMPLETION as u64 }
    }

    pub fn is_completion(&self) -> (r: bool)
        ensures
            r == has_flag_u64(self@, FI_COMPLETION as u64),
    {
        self.c_flags & FI_COMPLETION as u64 != 0
    }

    pub fn more(self) -> (r: Self)
        ensures
            r@ == self@ | (FI_MORE as u64),
    {
        Self { c_flags: self.c_flags | FI_MORE as u64 }
    }

    pub fn is_more(&self) -> (r: bool)
        ensures
            r == has_flag_u64(self@, FI_MORE as u64),
    {
        self.c_flags & FI_MORE as u64 != 0
    }

}

impl<const OUT: bool, const MSG: bool, const RMA: bool, const DATA: bool, const TAGGED: bool, const ATOMIC: bool> Default for TferOptions<OUT, MSG, RMA, DATA, TAGGED, ATOMIC> {
    fn default() -> (r: Self)
        ensures
            r@ == 0,
    {
        Self::new()
    }
}

/// All atomic transfers.
impl<const OUT: bool, const MSG: bool> TferOptions<OUT, MSG, false, false, false, true> {
    pub fn tagged(self) -> (r: Self)
        ensures
            r@ == self@ | (FI_TAGGED as u64),
    {
        Self { c_flags: self.c_flags | FI_TAGGED as u64 }
    }

    pub fn is_tagged(&self) -> (r: bool)
        ensures
            r == has_flag_u64(self@, FI_TAGGED as u64),
    {
        self.c_flags & FI_TAGGED as u64 != 0
    }

}

/// All atomic message transfers.
impl<const OUT: bool> TferOptions<OUT, true, false, false, false, true> {
    pub fn inject(self) -> (r: Self)
        ensures
            r@ == self@ | (FI_INJECT as u64),
    {
        Self { c_flags: self.c_flags | FI_INJECT as u64 }
    }

    pub fn is_inject(&self) -> (r: bool)
        ensures
            r == has_flag_u64(self@, FI_INJECT as u64),
    {
        self.c_flags & FI_INJECT as u64 != 0
    }

}

/// All transmits.
impl<const MSG: bool, const RMA: bool, const DATA: bool, const TAGGED: bool, const ATOMIC: bool> TferOptions<true, MSG, RMA, DATA, TAGGED, ATOMIC> {
    pub fn fence(self) -> (r: Self)
        ensures
            r@ == self@ | (FI_FENCE as u64),
    {
        Self { c_flags: self.c_flags | FI_FENCE as u64 }
    }

    pub fn is_fence(&self) -> (r: bool)
        ensures
            r == has_flag_u64(self@, FI_FENCE as u64),
    {
        self.c_flags & FI_FENCE as u64 != 0
    }

}

/// Message transmits other than atomics.
impl<const RMA: bool, const DATA: bool, const TAGGED: bool> TferOptions<true, true, RMA, DATA, TAGGED, false> {
    pub fn remote_cq_data(self) -> (r: Self)
        ensures
            r@ == self@ | (FI_REMOTE_CQ_DATA as u64),
    {
        Self { c_flags: self.c_flags | FI_REMOTE_CQ_DATA as u64 }
    }

    pub fn is_remote_cq_data(&self) -> (r: bool)
        ensures
            r == has_flag_u64(self@, FI_REMOTE_CQ_DATA as u64),
    {
        self.c_flags & FI_REMOTE_CQ_DATA as u64 != 0
    }

}

/// Message transmits without remote CQ data.
impl<const RMA: bool, const TAGGED: bool> TferOptions<true, true, RMA, false, TAGGED, false> {
    pub fn inject(self) -> (r: Self)
        ensures
            r@ == self@ | (FI_INJECT as u64),
    {
        Self { c_flags: self.c_flags | FI_INJECT as u64 }
    }

    pub fn is_inject(&self) -> (r: bool)
        ensures
            r == has_flag_u64(self@, FI_INJECT as u64),
    {
        self.c_flags & FI_INJECT as u64 != 0
    }

    pub fn inject_complete(self) -> (r: Self)
        ensures
            r@ == self@ | (FI_INJECT_COMPLETE as u64),
    {
        Self { c_flags: self.c_flags | FI_INJECT_COMPLETE as u64 }
    }

    pub fn is_inject_complete(&self) -> (r: bool)
        ensures
            r == has_flag_u64(self@, FI_INJECT_COMPLETE as u64),
    {
        self.c_flags & FI_INJECT_COMPLETE as u64 != 0
    }

    pub fn transmit_complete(self) -> (r: Self)
        ensures
            r@ == self@ | (FI_TRANSMIT_COMPLETE as u64),
    {
        Self { c_flags: self.c_flags | FI_TRANSMIT_COMPLETE as u64 }
    }

    pub fn is_transmit_complete(&self) -> (r: bool)
        ensures
            r == has_flag_u64(self@, FI_TRANSMIT_COMPLETE as u64),
    {
        self.c_flags & FI_TRANSMIT_COMPLETE as u64 != 0
    }

    pub fn delivery_complete(self) -> (r: Self)
        ensures
            r@ == self@ | (FI_DELIVERY_COMPLETE as u64),
    {
        Self { c_flags: self.c_flags | FI_DELIVERY_COMPLETE as u64 }
    }

    pub fn is_delivery_complete(&self) -> (r: bool)
        ensures
            r == has_flag_u64(self@, FI_DELIVERY_COMPLETE as u64),
    {
        self.c_flags & FI_DELIVERY_COMPLETE as u64 != 0
    }

}

/// Tagged message transmits without remote CQ data.
impl TferOptions<true, true, false, false, true, false> {
    pub fn match_complete(self) -> (r: Self)
        ensures
            r@ == self@ | (FI_MATCH_COMPLETE as u64),
    {
        Self { c_flags: self.c_flags | FI_MATCH_COMPLETE as u64 }
    }

    pub fn is_match_complete(&self) -> (r: bool)
        ensures
            r == has_flag_u64(self@, FI_MATCH_COMPLETE as u64),
    {
        self.c_flags & FI_MATCH_COMPLETE as u64 != 0
    }

}

/// Remote memory message transmits without remote CQ data.
impl TferOptions<true, true, true, false, false, false> {
    pub fn commit_complete(self) -> (r: Self)
        ensures
            r@ == self@ | (FI_COMMIT_COMPLETE as u64),
    {
        Self { c_flags: self.c_flags | FI_COMMIT_COMPLETE as u64 }
    }

    pub fn is_commit_complete(&self) -> (r: bool)
        ensures
            r == has_flag_u64(self@, FI_COMMIT_COMPLETE as u64),
    {
        self.c_flags & FI_COMMIT_COMPLETE as u64 != 0
    }

}

/// Transmits that are neither remote memory nor tagged.
impl<const MSG: bool, const DATA: bool> TferOptions<true, MSG, false, DATA, false, false> {
    pub fn multicast(self) -> (r: Self)
        ensures
            r@ == self@ | (FI_MULTICAST as u64),
    {
        Self { c_flags: self.c_flags | FI_MULTICAST as u64 }
    }

    pub fn is_multicast(&self) -> (r: bool)
        ensures
            r == has_flag_u64(self@, FI_MULTICAST as u64),
    {
        self.c_flags & FI_MULTICAST as u64 != 0
    }

}

/// Posted receives.
impl<const MSG: bool> TferOptions<false, MSG, false, false, false, false> {
    pub fn claim(self) -> (r: Self)
        ensures
            r@ == self@ | (FI_CLAIM),
    {
        Self { c_flags: self.c_flags | FI_CLAIM }
    }

    pub fn is_claim(&self) -> (r: bool)
        ensures
            r == has_flag_u64(self@, FI_CLAIM),
    {
        self.c_flags & FI_CLAIM != 0
    }

    pub fn discard(self) -> (r: Self)
        ensures
            r@ == self@ | (FI_DISCARD),
    {
        Self { c_flags: self.c_flags | FI_DISCARD }
    }

    pub fn is_discard(&self) -> (r: bool)
        ensures
            r == has_flag_u64(self@, FI_DISCARD),
    {
        self.c_flags & FI_DISCARD != 0
    }

    pub fn multi_recv(self) -> (r: Self)
        ensures
            r@ == self@ | (FI_MULTI_RECV as u64),
    {
        Self { c_flags: self.c_flags | FI_MULTI_RECV as u64 }
    }

    pub fn is_multi_recv(&self) -> (r: bool)
        ensures
            r == has_flag_u64(self@, FI_MULTI_RECV as u64),
    {
        self.c_flags & FI_MULTI_RECV as u64 != 0
    }

    pub fn auth_key(self) -> (r: Self)
        ensures
            r@ == self@ | (FI_AUTH_KEY),
    {
        Self { c_flags: self.c_flags | FI_AUTH_KEY }
    }

    pub fn is_auth_key(&self) -> (r: bool)
        ensures
            r == has_flag_u64(self@, FI_AUTH_KEY),
    {
        self.c_flags & FI_AUTH_KEY != 0
    }

}

/// Tagged posted receives.
impl TferOptions<false, true, false, false, true, false> {
    pub fn peek(self) -> (r: Self)
        ensures
            r@ == self@ | (FI_PEEK as u64),
    {
        Self { c_flags: self.c_flags | FI_PEEK as u64 }
    }

    pub fn is_peek(&self) -> (r: bool)
        ensures
            r == has_flag_u64(self@, FI_PEEK as u64),
    {
        self.c_flags & FI_PEEK as u64 != 0
    }

    pub fn claim(self) -> (r: Self)
        ensures
            r@ == self@ | (FI_CLAIM),
    {
        Self { c_flags: self.c_flags | FI_CLAIM }
    }

    pub fn is_claim(&self) -> (r: bool)
        ensures
            r == has_flag_u64(self@, FI_CLAIM),
    {
        self.c_flags & FI_CLAIM != 0
    }

    pub fn discard(self) -> (r: Self)
        ensures
            r@ == self@ | (FI_DISCARD),
    {
        Self { c_flags: self.c_flags | FI_DISCARD }
    }

    pub fn is_discard(&self) -> (r: bool)
        ensures
            r == has_flag_u64(self@, FI_DISCARD),
    {
        self.c_flags & FI_DISCARD != 0
    }

}

/// Send message options
pub type SendMsgOptions = TferOptions<true, true, false, false, false, false>;

/// Tagged send message options
pub type TaggedSendMsgOptions = TferOptions<true, true, false, false, true, false>;

/// Write message options
pub type WriteMsgOptions = TferOptions<true, true, true, false, false, false>;

/// Receive message options
pub type RecvMsgOptions = TferOptions<false, true, false, false, false, false>;

/// Tagged receive message options
pub type TaggedRecvMsgOptions = TferOptions<false, true, false, false, true, false>;

/// Read message options
pub type ReadMsgOptions = TferOptions<false, true, true, false, false, false>;

/// Atomic message options
pub type AtomicMsgOptions = TferOptions<true, true, false, false, false, true>;

/// Atomic fetch message options
pub type AtomicFetchMsgOptions = TferOptions<true, true, false, false, false, true>;

/// Collective message options
pub type CollectiveOptions = TferOptions<true, true, false, false, false, true>;

} // verus!
