use vstd::prelude::*;
use crate::consts::{FI_ADDR_NOTAVAIL, FI_AFFINITY, FI_WAIT_FD, FI_WAIT_MUTEX_COND, FI_WAIT_UNSPEC};
use crate::enums::{CqFormat, WaitCond, WaitObj};
use crate::ep::Context;
use crate::error::Error;
use crate::flags::CompletionFlags;

verus! {

//================== Completion entries ==================//

/// Marker for the entry layouts a completion queue can report.
pub trait EntryFormat: Clone {}

/// `fi_cq_entry`: the operation context only. Addresses are carried as integers.
#[derive(Clone, Copy, Debug, PartialEq, Eq, Structural)]
pub struct CtxEntry {
    pub op_context: u64,
}

/// `fi_cq_msg_entry`: context, completion flags and length.
#[derive(Clone, Copy, Debug, PartialEq, Eq, Structural)]
pub struct MsgEntry {
    pub op_context: u64,
    pub flags: u64,
    pub len: usize,
}

/// `fi_cq_data_entry`: as [MsgEntry], with the receive buffer and remote CQ data.
#[derive(Clone, Copy, Debug, PartialEq, Eq, Structural)]
pub struct DataEntry {
    pub op_context: u64,
    pub flags: u64,
    pub len: usize,
    pub buf: u64,
    pub data: u64,
}

/// `fi_cq_tagged_entry`: as [DataEntry], with the message tag.
#[derive(Clone, Copy, Debug, PartialEq, Eq, Structural)]
pub struct TaggedEntry {
    pub op_context: u64,
    pub flags: u64,
    pub len: usize,
    pub buf: u64,
    pub data: u64,
    pub tag: u64,
}

/// The entry of a queue whose format is left to the provider: it carries nothing.
#[derive(Clone, Copy, Debug, PartialEq, Eq, Structural)]
pub struct UnspecEntry;

impl EntryFormat for CtxEntry {}

impl EntryFormat for MsgEntry {}

impl EntryFormat for DataEntry {}

impl EntryFormat for TaggedEntry {}

impl EntryFormat for UnspecEntry {}

/// One completion, in the layout `Format` of its queue.
#[derive(Clone, Copy, Debug)]
pub struct CompletionEntry<Format> {
    pub(crate) c_entry: Format,
}

impl<Format> View for CompletionEntry<Format> {
    type V = Format;

    closed spec fn view(&self) -> Format {
        self.c_entry
    }
}

impl<Format> CompletionEntry<Format> {
    /// An entry holding the raw completion `c_entry`.
    pub fn from_raw(c_entry: Format) -> (r: Self)
        ensures
            r@ == c_entry,
    {
        Self { c_entry }
    }
}

impl CompletionEntry<UnspecEntry> {
    pub fn new() -> (r: Self)
        ensures
            r@ == UnspecEntry,
    {
        Self { c_entry: UnspecEntry }
    }
}

impl CompletionEntry<CtxEntry> {
    /// An entry with a null context.
    pub fn new() -> (r: Self)
        ensures
            r@ == (CtxEntry { op_context: 0 }),
    {
        Self { c_entry: CtxEntry { op_context: 0 } }
    }

    /// Whether the entry completes the operation posted with the context `ctx`.
    pub fn is_op_context_equal(&self, ctx: &Context) -> (r: bool)
        ensures
            r == (self@.op_context == ctx@),
    {
        self.c_entry.op_context == ctx.as_raw()
    }
}

impl CompletionEntry<MsgEntry> {
    /// An entry with a null context, no flags and no length.
    pub fn new() -> (r: Self)
        ensures
            r@ == (MsgEntry { op_context: 0, flags: 0, len: 0 }),
    {
        Self { c_entry: MsgEntry { op_context: 0, flags: 0, len: 0 } }
    }

    /// Whether the entry completes the operation posted with the context `ctx`.
    pub fn is_op_context_equal(&self, ctx: &Context) -> (r: bool)
        ensures
            r == (self@.op_context == ctx@),
    {
        self.c_entry.op_context == ctx.as_raw()
    }

    /// Returns the completion flags related to this completion entry
    ///
    /// Corresponds to accessing the `fi_cq_msg_entry::flags` field.
    pub fn flags(&self) -> (r: CompletionFlags)
        ensures
            r@ == self@.flags,
    {
        CompletionFlags::from_raw(self.c_entry.flags)
    }
}

impl CompletionEntry<DataEntry> {
    /// An entry with a null context and buffer and all counts at zero.
    pub fn new() -> (r: Self)
        ensures
            r@ == (DataEntry { op_context: 0, flags: 0, len: 0, buf: 0, data: 0 }),
    {
        Self { c_entry: DataEntry { op_context: 0, flags: 0, len: 0, buf: 0, data: 0 } }
    }

    /// Whether the entry completes the operation posted with the context `ctx`.
    pub fn is_op_context_equal(&self, ctx: &Context) -> (r: bool)
        ensures
            r == (self@.op_context == ctx@),
    {
        self.c_entry.op_context == ctx.as_raw()
    }

    /// Returns the completion flags related to this completion entry
    ///
    /// Corresponds to accessing the `fi_cq_data_entry::flags` field.
    pub fn flags(&self) -> (r: CompletionFlags)
        ensures
            r@ == self@.flags,
    {
        CompletionFlags::from_raw(self.c_entry.flags)
    }

    /// Returns the remote completion data.
    ///
    /// Corresponds to accessing the `fi_cq_data_entry::data` field.
    pub fn data(&self) -> (r: u64)
        ensures
            r == self@.data,
    {
        self.c_entry.data
    }
}

impl CompletionEntry<TaggedEntry> {
    /// An entry with a null context and buffer and all counts at zero.
    pub fn new() -> (r: Self)
        ensures
            r@ == (TaggedEntry { op_context: 0, flags: 0, len: 0, buf: 0, data: 0, tag: 0 }),
    {
        Self { c_entry: TaggedEntry { op_context: 0, flags: 0, len: 0, buf: 0, data: 0, tag: 0 } }
    }

    /// Whether the entry completes the operation posted with the context `ctx`.
    pub fn is_op_context_equal(&self, ctx: &Context) -> (r: bool)
        ensures
            r == (self@.op_context == ctx@),
    {
        self.c_entry.op_context == ctx.as_raw()
    }

    /// Returns the completion flags related to this completion entry
    ///
    /// Corresponds to accessing the `fi_cq_tagged_entry::flags` field.
    pub fn flags(&self) -> (r: CompletionFlags)
        ensures
            r@ == self@.flags,
    {
        CompletionFlags::from_raw(self.c_entry.flags)
    }

    /// Returns the remote completion data.
    ///
    /// Corresponds to accessing the `fi_cq_tagged_entry::data` field.
    pub fn data(&self) -> (r: u64)
        ensures
            r == self@.data,
    {
        self.c_entry.data
    }

    /// Returns the tag of the message associated with the completion.
    ///
    /// Corresponds to accessing the `fi_cq_tagged_entry::tag` field.
    pub fn tag(&self) -> (r: u64)
        ensures
            r == self@.tag,
    {
        self.c_entry.tag
    }
}

impl Default for CompletionEntry<UnspecEntry> {
    fn default() -> (r: Self)
        ensures
            r@ == UnspecEntry,
    {
        Self::new()
    }
}

impl Default for CompletionEntry<CtxEntry> {
    fn default() -> (r: Self)
        ensures
            r@ == (CtxEntry { op_context: 0 }),
    {
        Self::new()
    }
}

impl Default for CompletionEntry<MsgEntry> {
    fn default() -> (r: Self)
        ensures
            r@ == (MsgEntry { op_context: 0, flags: 0, len: 0 }),
    {
        Self::new()
    }
}

impl Default for CompletionEntry<DataEntry> {
    fn default() -> (r: Self)
        ensures
            r@ == (DataEntry { op_context: 0, flags: 0, len: 0, buf: 0, data: 0 }),
    {
        Self::new()
    }
}

impl Default for CompletionEntry<TaggedEntry> {
    fn default() -> (r: Self)
        ensures
            r@ == (TaggedEntry { op_context: 0, flags: 0, len: 0, buf: 0, data: 0, tag: 0 }),
    {
        Self::new()
    }
}

/// Completions read from a queue, in the layout of its format.
#[derive(Clone)]
pub enum Completion {
    Unspec(Vec<CompletionEntry<CtxEntry>>),
    Ctx(Vec<CompletionEntry<CtxEntry>>),
    Msg(Vec<CompletionEntry<MsgEntry>>),
    Data(Vec<CompletionEntry<DataEntry>>),
    Tagged(Vec<CompletionEntry<TaggedEntry>>),
}

impl Completion {
    /// The number of completions held.
    pub open spec fn count(self) -> nat {
        match self {
            Completion::Unspec(v) => v@.len(),
            Completion::Ctx(v) => v@.len(),
            Completion::Msg(v) => v@.len(),
            Completion::Data(v) => v@.len(),
            Completion::Tagged(v) => v@.len(),
        }
    }

    /// The format whose entries the buffer holds.
    pub open spec fn format(self) -> CqFormat {
        match self {
            Completion::Unspec(_) => CqFormat::Unspec,
            Completion::Ctx(_) => CqFormat::Context,
            Completion::Msg(_) => CqFormat::Msg,
            Completion::Data(_) => CqFormat::Data,
            Completion::Tagged(_) => CqFormat::Tagged,
        }
    }

    /// An empty buffer for entries of `format`, with room for `capacity` entries.
    pub fn empty(format: CqFormat, capacity: usize) -> (r: Completion)
        ensures
            r.format() == format,
            r.count() == 0,
    {
        match format {
            CqFormat::Unspec => Completion::Unspec(Vec::with_capacity(capacity)),
            CqFormat::Context => Completion::Ctx(Vec::with_capacity(capacity)),
            CqFormat::Msg => Completion::Msg(Vec::with_capacity(capacity)),
            CqFormat::Tagged => Completion::Tagged(Vec::with_capacity(capacity)),
            CqFormat::Data => Completion::Data(Vec::with_capacity(capacity)),
        }
    }

    /// An empty buffer for the entries of a queue opened with the raw format `format`, with
    /// room for `capacity` entries. The format must be one that libfabric defines.
    pub fn for_format(format: u32, capacity: usize) -> (r: Completion)
        requires
            CqFormat::decode(format) is Some,
        ensures
            Some(r.format()) == CqFormat::decode(format),
            r.count() == 0,
    {
        Completion::empty(CqFormat::from_raw(format), capacity)
    }
}

/// A single completion, in the layout of its queue's format.
pub enum SingleCompletion {
    Unspec(CompletionEntry<CtxEntry>),
    Ctx(CompletionEntry<CtxEntry>),
    Msg(CompletionEntry<MsgEntry>),
    Data(CompletionEntry<DataEntry>),
    Tagged(CompletionEntry<TaggedEntry>),
}

//================== Completion errors ==================//

/// `fi_cq_err_entry`: the fields of a completion error. Addresses are carried as integers.
#[derive(Clone, Copy, Debug, PartialEq, Eq, Structural)]
pub struct CqErrEntry {
    pub op_context: u64,
    pub flags: u64,
    pub len: usize,
    pub buf: u64,
    pub data: u64,
    pub tag: u64,
    pub olen: usize,
    pub err: i32,
    pub prov_errno: i32,
    pub err_data: u64,
    pub err_data_size: usize,
}

/// A `CompletionError` represents an error associated with a completion entry.
#[derive(Clone, Copy, Debug)]
pub struct CompletionError {
    pub(crate) c_err: CqErrEntry,
}

impl View for CompletionError {
    type V = CqErrEntry;

    closed spec fn view(&self) -> CqErrEntry {
        self.c_err
    }
}

/// The error entry with every field zero or null.
pub open spec fn empty_err_entry() -> CqErrEntry {
    CqErrEntry {
        op_context: 0,
        flags: 0,
        len: 0,
        buf: 0,
        data: 0,
        tag: 0,
        olen: 0,
        err: 0,
        prov_errno: 0,
        err_data: 0,
        err_data_size: 0,
    }
}

impl CompletionError {
    /// An error entry with every field zero or null.
    pub fn new() -> (r: Self)
        ensures
            r@ == empty_err_entry(),
    {
        CompletionError {
            c_err: CqErrEntry {
                op_context: 0,
                flags: 0,
                len: 0,
                buf: 0,
                data: 0,
                tag: 0,
                olen: 0,
                err: 0,
                prov_errno: 0,
                err_data: 0,
                err_data_size: 0,
            },
        }
    }

    /// An error entry holding the raw fields `c_err`.
    pub fn from_raw(c_err: CqErrEntry) -> (r: Self)
        ensures
            r@ == c_err,
    {
        CompletionError { c_err }
    }

    /// Returns the provider error code
    ///
    /// Corresponds to access the `fi_cq_err_entry::prov_errno` field.
    pub fn prov_errno(&self) -> (r: i32)
        ensures
            r == self@.prov_errno,
    {
        self.c_err.prov_errno
    }

    /// Returns the completion flags related to this completion error entry
    ///
    /// Corresponds to accessing the `fi_cq_err_entry::flags` field.
    pub fn flags(&self) -> (r: CompletionFlags)
        ensures
            r@ == self@.flags,
    {
        CompletionFlags::from_raw(self.c_err.flags)
    }

    /// Returns the remote completion error data.
    ///
    /// Corresponds to accessing the `fi_cq_err_entry::data` field.
    pub fn data(&self) -> (r: u64)
        ensures
            r == self@.data,
    {
        self.c_err.data
    }

    /// Returns the tag of the message associated with the completion error.
    ///
    /// Corresponds to accessing the `fi_cq_err_entry::tag` field.
    pub fn tag(&self) -> (r: u64)
        ensures
            r == self@.tag,
    {
        self.c_err.tag
    }

    /// Returns the overflow length of the completion error entry.
    ///
    /// Corresponds to accessing the `fi_cq_err_entry::olen` field.
    pub fn overflow_length(&self) -> (r: usize)
        ensures
            r == self@.olen,
    {
        self.c_err.olen
    }

    /// Returns the generic error related to this CompletionError
    ///
    /// Corresponds to accessing the `fi_cq_err_entry::err` field.
    pub fn error(&self) -> (r: Error)
        ensures
            r.c_err == self@.err as u32,
    {
        Error::from_err_code(self.c_err.err as u32)
    }

    /// Whether the error belongs to the operation posted with the context `ctx`.
    pub fn is_op_context_equal(&self, ctx: &Context) -> (r: bool)
        ensures
            r == (self@.op_context == ctx@),
    {
        self.c_err.op_context == ctx.as_raw()
    }

    pub(crate) fn err_data(&self) -> (r: u64)
        ensures
            r == self@.err_data,
    {
        self.c_err.err_data
    }

    pub(crate) fn err_data_size(&self) -> (r: usize)
        ensures
            r == self@.err_data_size,
    {
        self.c_err.err_data_size
    }
}

impl Default for CompletionError {
    fn default() -> (r: Self)
        ensures
            r@ == empty_err_entry(),
    {
        Self::new()
    }
}

//================== CompletionQueue Attribute (fi_cq_attr) ==================//

/// `fi_cq_attr`: the attributes a completion queue is opened with. The wait set is named by
/// its fabric handle (0 for none).
#[derive(Clone, Copy, Debug, PartialEq, Eq, Structural)]
pub struct CompletionQueueAttr {
    pub size: usize,
    pub flags: u64,
    pub format: u32,
    pub wait_obj: u32,
    pub signaling_vector: i32,
    pub wait_cond: u32,
    pub wait_set: u64,
}

impl CompletionQueueAttr {
    /// What an attribute holds before any request: provider-chosen size, format and wait
    /// object, no flags, signaling vector 0, no wait condition and no wait set.
    pub open spec fn initial() -> CompletionQueueAttr {
        CompletionQueueAttr {
            size: 0,
            flags: 0,
            format: CqFormat::Unspec.raw_value(),
            wait_obj: WaitObj::Unspec.raw_value(),
            signaling_vector: 0,
            wait_cond: WaitCond::CondNone.raw_value(),
            wait_set: 0,
        }
    }

    /// Whether the attribute's format and wait condition are encodings libfabric defines.
    pub open spec fn well_formed(self) -> bool {
        &&& CqFormat::decode(self.format) is Some
        &&& WaitCond::decode(self.wait_cond) is Some
    }

    pub fn new() -> (r: Self)
        ensures
            r == Self::initial(),
    {
        CompletionQueueAttr {
            size: 0,
            flags: 0,
            format: CqFormat::Unspec.as_raw(),
            wait_obj: WaitObj::Unspec.as_raw(),
            signaling_vector: 0,
            wait_cond: WaitCond::CondNone.as_raw(),
            wait_set: 0,
        }
    }

    pub fn size(&mut self, size: usize)
        ensures
            *final(self) == (CompletionQueueAttr { size, ..*old(self) }),
    {
        self.size = size;
    }

    pub fn format(&mut self, format: CqFormat)
        ensures
            *final(self) == (CompletionQueueAttr { format: format.raw_value(), ..*old(self) }),
    {
        self.format = format.as_raw();
    }

    /// Sets the wait object; a wait set also records the set's handle.
    pub fn wait_obj(&mut self, wait_obj: WaitObj)
        ensures
            final(self).wait_obj == wait_obj.raw_value(),
            final(self).wait_set == (match wait_obj {
                WaitObj::WaitSet(set) => set,
                _ => old(self).wait_set,
            }),
            final(self).size == old(self).size,
            final(self).flags == old(self).flags,
            final(self).format == old(self).format,
            final(self).signaling_vector == old(self).signaling_vector,
            final(self).wait_cond == old(self).wait_cond,
    {
        if let WaitObj::WaitSet(wait_set) = wait_obj {
            self.wait_set = wait_set;
        }
        self.wait_obj = wait_obj.as_raw();
    }

    /// Requests the signaling vector `signaling_vector`, which raises `FI_AFFINITY`.
    pub fn signaling_vector(&mut self, signaling_vector: i32)
        ensures
            *final(self) == (CompletionQueueAttr {
                flags: old(self).flags | (FI_AFFINITY as u64),
                signaling_vector,
                ..*old(self)
            }),
    {
        self.flags = self.flags | FI_AFFINITY as u64;
        self.signaling_vector = signaling_vector;
    }

    pub fn wait_cond(&mut self, wait_cond: WaitCond)
        ensures
            *final(self) == (CompletionQueueAttr { wait_cond: wait_cond.raw_value(), ..*old(self) }),
    {
        self.wait_cond = wait_cond.as_raw();
    }
}

impl Default for CompletionQueueAttr {
    fn default() -> (r: Self)
        ensures
            r == Self::initial(),
    {
        Self::new()
    }
}

//================== CompletionQueue Builder ==================//

/// Builder for a completion queue.
///
/// The three parameters record whether the queue has a wait object (`WAIT`), whether that
/// object can be retrieved (`RETRIEVE`), and whether it is a file descriptor (`FD`). The
/// context is named by its address.
pub struct CompletionQueueBuilder<const WAIT: bool, const RETRIEVE: bool, const FD: bool> {
    cq_attr: CompletionQueueAttr,
    ctx: Option<u64>,
    default_buff_size: usize,
}

impl<const WAIT: bool, const RETRIEVE: bool, const FD: bool> CompletionQueueBuilder<WAIT, RETRIEVE, FD> {
    /// The attributes requested so far.
    pub closed spec fn attr_spec(&self) -> CompletionQueueAttr {
        self.cq_attr
    }

    /// The context requested so far.
    pub closed spec fn ctx_spec(&self) -> Option<u64> {
        self.ctx
    }

    /// The number of entries the read buffer starts with room for.
    pub closed spec fn buff_size_spec(&self) -> usize {
        self.default_buff_size
    }
}

impl CompletionQueueBuilder<true, false, false> {
    /// Initiates the creation of a new completion queue: the initial attributes, no context,
    /// and a read buffer with room for 10 entries.
    pub fn new() -> (r: CompletionQueueBuilder<true, false, false>)
        ensures
            r.attr_spec() == CompletionQueueAttr::initial(),
            r.ctx_spec() is None,
            r.buff_size_spec() == 10,
    {
        Self { cq_attr: CompletionQueueAttr::new(), ctx: None, default_buff_size: 10 }
    }
}

impl Default for CompletionQueueBuilder<true, false, false> {
    fn default() -> (r: Self)
        ensures
            r.attr_spec() == CompletionQueueAttr::initial(),
            r.ctx_spec() is None,
            r.buff_size_spec() == 10,
    {
        Self::new()
    }
}

impl<const WAIT: bool, const RETRIEVE: bool, const FD: bool> CompletionQueueBuilder<WAIT, RETRIEVE, FD> {
    /// Specifies the minimum size of a completion queue.
    ///
    /// Corresponds to setting the field `fi_cq_attr::size` to `size`.
    pub fn size(self, size: usize) -> (r: Self)
        ensures
            r.attr_spec() == (CompletionQueueAttr { size, ..self.attr_spec() }),
            r.ctx_spec() == self.ctx_spec(),
            r.buff_size_spec() == self.buff_size_spec(),
    {
        let mut cq_attr = self.cq_attr;
        cq_attr.size(size);
        Self { cq_attr, ctx: self.ctx, default_buff_size: self.default_buff_size }
    }

    /// Requests the signaling vector `signaling_vector` (which also raises `FI_AFFINITY`).
    pub fn signaling_vector(self, signaling_vector: i32) -> (r: Self)
        ensures
            r.attr_spec() == (CompletionQueueAttr {
                flags: self.attr_spec().flags | (FI_AFFINITY as u64),
                signaling_vector,
                ..self.attr_spec()
            }),
            r.ctx_spec() == self.ctx_spec(),
            r.buff_size_spec() == self.buff_size_spec(),
    {
        let mut cq_attr = self.cq_attr;
        cq_attr.signaling_vector(signaling_vector);
        Self { cq_attr, ctx: self.ctx, default_buff_size: self.default_buff_size }
    }

    /// Specificies the completion `format`
    ///
    /// Corresponds to setting the field `fi_cq_attr::format`.
    pub fn format(self, format: CqFormat) -> (r: Self)
        ensures
            r.attr_spec() == (CompletionQueueAttr { format: format.raw_value(), ..self.attr_spec() }),
            r.ctx_spec() == self.ctx_spec(),
            r.buff_size_spec() == self.buff_size_spec(),
    {
        let mut cq_attr = self.cq_attr;
        cq_attr.format(format);
        Self { cq_attr, ctx: self.ctx, default_buff_size: self.default_buff_size }
    }

    /// Sets the number of entries the read buffer starts with room for.
    pub fn default_buff_size(self, default_buff_size: usize) -> (r: Self)
        ensures
            r.attr_spec() == self.attr_spec(),
            r.ctx_spec() == self.ctx_spec(),
            r.buff_size_spec() == default_buff_size,
    {
        Self { cq_attr: self.cq_attr, ctx: self.ctx, default_buff_size }
    }

    /// Sets the underlying low-level waiting object to none.
    ///
    /// Corresponds to setting `fi_cq_attr::wait_obj` to `FI_WAIT_NONE`.
    pub fn wait_none(self) -> (r: CompletionQueueBuilder<false, false, false>)
        ensures
            r.attr_spec() == (CompletionQueueAttr { wait_obj: WaitObj::NoWait.raw_value(), ..self.attr_spec() }),
            r.ctx_spec() == self.ctx_spec(),
            r.buff_size_spec() == self.buff_size_spec(),
    {
        let mut cq_attr = self.cq_attr;
        cq_attr.wait_obj(WaitObj::NoWait);
        CompletionQueueBuilder { cq_attr, ctx: self.ctx, default_buff_size: self.default_buff_size }
    }

    /// Sets the underlying low-level waiting object to FD.
    ///
    /// Corresponds to setting `fi_cq_attr::wait_obj` to `FI_WAIT_FD`.
    pub fn wait_fd(self) -> (r: CompletionQueueBuilder<true, true, true>)
        ensures
            r.attr_spec() == (CompletionQueueAttr { wait_obj: WaitObj::Fd.raw_value(), ..self.attr_spec() }),
            r.ctx_spec() == self.ctx_spec(),
            r.buff_size_spec() == self.buff_size_spec(),
    {
        let mut cq_attr = self.cq_attr;
        cq_attr.wait_obj(WaitObj::Fd);
        CompletionQueueBuilder { cq_attr, ctx: self.ctx, default_buff_size: self.default_buff_size }
    }

    /// Sets the underlying low-level waiting object to the wait set with handle `set`.
    ///
    /// Corresponds to setting `fi_cq_attr::wait_obj` to `FI_WAIT_SET` and `fi_cq_attr::wait_set` to `set`.
    pub fn wait_set(self, set: u64) -> (r: CompletionQueueBuilder<true, false, false>)
        ensures
            r.attr_spec() == (CompletionQueueAttr {
                wait_obj: WaitObj::WaitSet(set).raw_value(),
                wait_set: set,
                ..self.attr_spec()
            }),
            r.ctx_spec() == self.ctx_spec(),
            r.buff_size_spec() == self.buff_size_spec(),
    {
        let mut cq_attr = self.cq_attr;
        cq_attr.wait_obj(WaitObj::WaitSet(set));
        CompletionQueueBuilder { cq_attr, ctx: self.ctx, default_buff_size: self.default_buff_size }
    }

    /// Sets the underlying low-level waiting object to Mutex+Conditional.
    ///
    /// Corresponds to setting `fi_cq_attr::wait_obj` to `FI_WAIT_MUTEX_COND`.
    pub fn wait_mutex(self) -> (r: CompletionQueueBuilder<true, true, false>)
        ensures
            r.attr_spec() == (CompletionQueueAttr { wait_obj: WaitObj::MutexCond.raw_value(), ..self.attr_spec() }),
            r.ctx_spec() == self.ctx_spec(),
            r.buff_size_spec() == self.buff_size_spec(),
    {
        let mut cq_attr = self.cq_attr;
        cq_attr.wait_obj(WaitObj::MutexCond);
        CompletionQueueBuilder { cq_attr, ctx: self.ctx, default_buff_size: self.default_buff_size }
    }

    /// Indicates that the queue will wait without a wait object but instead yield on every wait.
    ///
    /// Corresponds to setting `fi_cq_attr::wait_obj` to `FI_WAIT_YIELD`.
    pub fn wait_yield(self) -> (r: CompletionQueueBuilder<true, false, false>)
        ensures
            r.attr_spec() == (CompletionQueueAttr { wait_obj: WaitObj::Yield.raw_value(), ..self.attr_spec() }),
            r.ctx_spec() == self.ctx_spec(),
            r.buff_size_spec() == self.buff_size_spec(),
    {
        let mut cq_attr = self.cq_attr;
        cq_attr.wait_obj(WaitObj::Yield);
        CompletionQueueBuilder { cq_attr, ctx: self.ctx, default_buff_size: self.default_buff_size }
    }

    /// Enables blocking reads to only 'wake up' after the number of completions in their
    /// field `cond` is satisfied.
    ///
    /// Corresponds to setting `fi_cq_attr::wait_cond` to `FI_CQ_COND_THRESHOLD`.
    pub fn enable_wait_cond(self) -> (r: Self)
        ensures
            r.attr_spec() == (CompletionQueueAttr { wait_cond: WaitCond::Threshold.raw_value(), ..self.attr_spec() }),
            r.ctx_spec() == self.ctx_spec(),
            r.buff_size_spec() == self.buff_size_spec(),
    {
        let mut cq_attr = self.cq_attr;
        cq_attr.wait_cond(WaitCond::Threshold);
        Self { cq_attr, ctx: self.ctx, default_buff_size: self.default_buff_size }
    }

    /// Sets the context (named by its address) to be passed to the queue.
    ///
    /// Corresponds to passing a non-NULL `context` value to `fi_cq_open`.
    pub fn context(self, ctx: u64) -> (r: Self)
        ensures
            r.attr_spec() == self.attr_spec(),
            r.ctx_spec() == Some(ctx),
            r.buff_size_spec() == self.buff_size_spec(),
    {
        Self { cq_attr: self.cq_attr, ctx: Some(ctx), default_buff_size: self.default_buff_size }
    }

    /// The attributes to pass to `fi_cq_open`.
    pub fn attr(&self) -> (r: CompletionQueueAttr)
        ensures
            r == self.attr_spec(),
    {
        self.cq_attr
    }

    /// The context to pass to `fi_cq_open` (`None` for NULL).
    pub fn ctx(&self) -> (r: Option<u64>)
        ensures
            r == self.ctx_spec(),
    {
        self.ctx
    }

    /// Constructs the completion queue from the outcome of `fi_cq_open` on this builder's
    /// attributes and context: `err` is what the call returned and `c_cq` the handle it
    /// wrote. A non-zero `err` is the negated error number.
    pub fn build(self, domain: u64, err: i32, c_cq: u64) -> (r: Result<CompletionQueue<CompletionQueueImpl<WAIT, RETRIEVE, FD>>, Error>)
        requires
            err == 0 ==> CqFormat::decode(self.attr_spec().format) is Some,
            err <= 0,
            err > i32::MIN,
        ensures
            err != 0 ==> r == Err::<CompletionQueue<CompletionQueueImpl<WAIT, RETRIEVE, FD>>, Error>(Error { c_err: (-err) as u32 }),
            err == 0 ==> (r matches Ok(cq) && cq@.opened_with(domain, self.attr_spec(), c_cq, self.buff_size_spec())),
    {
        let inner = CompletionQueueImpl::new(domain, self.cq_attr, err, c_cq, self.default_buff_size);
        match inner {
            Ok(inner) => Ok(CompletionQueueBase { inner }),
            Err(e) => Err(e),
        }
    }
}

//================== CompletionQueue ==================//

/// The state the library keeps for an open completion queue: its fabric handle, the format
/// of its entries and the capacity of the buffers completions are read into, its wait
/// object, and the domain it was opened on.
pub struct CompletionQueueImpl<const WAIT: bool, const RETRIEVE: bool, const FD: bool> {
    pub(crate) c_cq: u64,
    pub(crate) format: CqFormat,
    pub(crate) buff_size: usize,
    pub(crate) wait_obj: Option<u32>,
    pub(crate) domain: u64,
}

impl<const WAIT: bool, const RETRIEVE: bool, const FD: bool> CompletionQueueImpl<WAIT, RETRIEVE, FD> {
    /// The queue is the one `fi_cq_open` returned as `c_cq` on `domain` with `attr`: its
    /// entries are in the layout of the requested format, its read buffers have room for
    /// `buff_size` entries, and it remembers the requested wait object.
    pub open spec fn opened_with(self, domain: u64, attr: CompletionQueueAttr, c_cq: u64, buff_size: usize) -> bool {
        &&& self.handle() == c_cq
        &&& self.domain_spec() == domain
        &&& self.wait_obj_spec() == Some(attr.wait_obj)
        &&& Some(self.buffer_format()) == CqFormat::decode(attr.format)
        &&& self.buffer_size() == buff_size
    }

    /// The fabric handle of the queue.
    pub closed spec fn handle(self) -> u64 {
        self.c_cq
    }

    /// The domain the queue was opened on.
    pub closed spec fn domain_spec(self) -> u64 {
        self.domain
    }

    /// The wait object the queue was opened with.
    pub closed spec fn wait_obj_spec(self) -> Option<u32> {
        self.wait_obj
    }

    /// The layout of the entries the queue reports.
    pub closed spec fn buffer_format(self) -> CqFormat {
        self.format
    }

    /// How many entries a read buffer of the queue has room for.
    pub closed spec fn buffer_size(self) -> usize {
        self.buff_size
    }

    /// Builds the queue's state from the outcome of `fi_cq_open`: a non-zero `err` is the
    /// negated error number; otherwise `c_cq` is the new queue's handle, and the requested
    /// format must be one libfabric defines.
    pub fn new(domain: u64, attr: CompletionQueueAttr, err: i32, c_cq: u64, default_buff_size: usize) -> (r: Result<Self, Error>)
        requires
            err == 0 ==> CqFormat::decode(attr.format) is Some,
            err <= 0,
            err > i32::MIN,
        ensures
            err != 0 ==> r == Err::<Self, Error>(Error { c_err: (-err) as u32 }),
            err == 0 ==> (r matches Ok(cq) && cq.opened_with(domain, attr, c_cq, default_buff_size)),
    {
        if err != 0 {
            Err(Error::from_err_code((-err) as u32))
        } else {
            Ok(Self {
                c_cq,
                wait_obj: Some(attr.wait_obj),
                domain,
                format: CqFormat::from_raw(attr.format),
                buff_size: default_buff_size,
            })
        }
    }

    pub fn as_raw_fid(&self) -> (r: u64)
        ensures
            r == self.handle(),
    {
        self.c_cq
    }
}

/// An open completion queue.
pub struct CompletionQueueBase<CQ> {
    pub(crate) inner: CQ,
}

impl<CQ> View for CompletionQueueBase<CQ> {
    type V = CQ;

    closed spec fn view(&self) -> CQ {
        self.inner
    }
}

/// An open completion queue.
pub type CompletionQueue<T> = CompletionQueueBase<T>;

/// The libfabric call a read from a completion queue makes, with the arguments it passes.
/// The entry buffer stays with the caller.
#[derive(Clone, Copy, Debug, PartialEq, Eq, Structural)]
pub enum CqCall {
    /// `fi_cq_read(cq, buf, count)`.
    Read { cq: u64, count: usize },
    /// `fi_cq_readfrom(cq, buf, count, &src_addr)`.
    ReadFrom { cq: u64, count: usize },
    /// `fi_cq_readerr(cq, &err_entry, flags)`.
    ReadErr { cq: u64, flags: u64 },
    /// `fi_cq_sread(cq, buf, count, cond, timeout)`.
    Sread { cq: u64, count: usize, cond: usize, timeout: i32 },
    /// `fi_cq_sreadfrom(cq, buf, count, &src_addr, cond, timeout)`.
    SreadFrom { cq: u64, count: usize, cond: usize, timeout: i32 },
    /// `fi_cq_signal(cq)`.
    Signal { cq: u64 },
    /// `fi_control(cq, FI_GETWAIT, arg)`, with `arg` a file descriptor or a mutex and
    /// condition pair as `kind` says.
    GetWait { cq: u64, kind: WaitObjectQuery },
}

impl<const WAIT: bool, const RETRIEVE: bool, const FD: bool> CompletionQueueBase<CompletionQueueImpl<WAIT, RETRIEVE, FD>> {
    pub fn as_raw_fid(&self) -> (r: u64)
        ensures
            r == self@.handle(),
    {
        self.inner.as_raw_fid()
    }

    /// An empty buffer to read completions into: in the queue's format, with room for the
    /// queue's buffer size.
    pub fn entry_buffer(&self) -> (r: Completion)
        ensures
            r.format() == self@.buffer_format(),
            r.count() == 0,
    {
        Completion::empty(self.inner.format, self.inner.buff_size)
    }

    /// The call that reads up to `count` completions.
    pub fn read_call(&self, count: usize) -> (r: CqCall)
        ensures
            r == (CqCall::Read { cq: self@.handle(), count }),
    {
        CqCall::Read { cq: self.inner.as_raw_fid(), count }
    }

    /// Reads up to `count` completions, from what `fi_cq_read` returned (`err`) and the
    /// entries it wrote, in the queue's layout.
    pub fn read(&self, count: usize, err: isize, entries: Completion) -> (r: Result<Completion, Error>)
        requires
            err > isize::MIN,
            err < 0 ==> -err <= u32::MAX,
            err >= 0 ==> entries.count() == err && err <= count && entries.format() == self@.buffer_format(),
        ensures
            err < 0 ==> r == Err::<Completion, Error>(Error { c_err: (-err) as u32 }),
            err >= 0 ==> r == Ok::<Completion, Error>(entries),
    {
        match read_count(err) {
            Err(e) => Err(e),
            Ok(_) => Ok(entries),
        }
    }

    /// The call that reads up to `count` completions with their source address.
    pub fn readfrom_call(&self, count: usize) -> (r: CqCall)
        ensures
            r == (CqCall::ReadFrom { cq: self@.handle(), count }),
    {
        CqCall::ReadFrom { cq: self.inner.as_raw_fid(), count }
    }

    /// Reads up to `count` completions with their source address, from what
    /// `fi_cq_readfrom` returned, the entries it wrote and the address it wrote
    /// (`FI_ADDR_NOTAVAIL` for none).
    pub fn readfrom(&self, count: usize, err: isize, entries: Completion, address: u64) -> (r: Result<(Completion, Option<u64>), Error>)
        requires
            err > isize::MIN,
            err < 0 ==> -err <= u32::MAX,
            err >= 0 ==> entries.count() == err && err <= count && entries.format() == self@.buffer_format(),
        ensures
            err < 0 ==> r == Err::<(Completion, Option<u64>), Error>(Error { c_err: (-err) as u32 }),
            err >= 0 && address == FI_ADDR_NOTAVAIL ==> r == Ok::<(Completion, Option<u64>), Error>((entries, None)),
            err >= 0 && address != FI_ADDR_NOTAVAIL ==> r == Ok::<(Completion, Option<u64>), Error>((entries, Some(address))),
    {
        match readfrom_result(err, address) {
            Err(e) => Err(e),
            Ok(addr) => Ok((entries, addr)),
        }
    }

    /// The call that reads one error completion.
    pub fn readerr_call(&self, flags: u64) -> (r: CqCall)
        ensures
            r == (CqCall::ReadErr { cq: self@.handle(), flags }),
    {
        CqCall::ReadErr { cq: self.inner.as_raw_fid(), flags }
    }

    /// Reads one error completion, from what `fi_cq_readerr` returned and the entry it wrote.
    pub fn readerr(&self, flags: u64, ret: isize, entry: CqErrEntry) -> (r: Result<CompletionError, Error>)
        requires
            ret > isize::MIN,
            ret < 0 ==> -ret <= u32::MAX,
        ensures
            ret < 0 ==> r == Err::<CompletionError, Error>(Error { c_err: (-ret) as u32 }),
            ret >= 0 ==> (r matches Ok(e) && e@ == entry),
    {
        if ret < 0 {
            Err(Error::from_err_code((-ret) as u32))
        } else {
            Ok(CompletionError::from_raw(entry))
        }
    }
}

impl<const RETRIEVE: bool, const FD: bool> CompletionQueueBase<CompletionQueueImpl<true, RETRIEVE, FD>> {
    /// The call that blocks until `count` completions (or the threshold `cond`) are
    /// available, or `timeout` milliseconds pass.
    pub fn sread_call(&self, count: usize, cond: usize, timeout: i32) -> (r: CqCall)
        ensures
            r == (CqCall::Sread { cq: self@.handle(), count, cond, timeout }),
    {
        CqCall::Sread { cq: self.inner.as_raw_fid(), count, cond, timeout }
    }

    /// Blocking read of up to `count` completions, from what `fi_cq_sread` returned and the
    /// entries it wrote.
    pub fn sread_with_cond(&self, count: usize, err: isize, entries: Completion) -> (r: Result<Completion, Error>)
        requires
            err > isize::MIN,
            err < 0 ==> -err <= u32::MAX,
            err >= 0 ==> entries.count() == err && err <= count && entries.format() == self@.buffer_format(),
        ensures
            err < 0 ==> r == Err::<Completion, Error>(Error { c_err: (-err) as u32 }),
            err >= 0 ==> r == Ok::<Completion, Error>(entries),
    {
        match sread_result(err) {
            Err(e) => Err(e),
            Ok(()) => Ok(entries),
        }
    }

    /// [CompletionQueueBase::sread_with_cond] with no threshold (`cond` = 0).
    pub fn sread(&self, count: usize, err: isize, entries: Completion) -> (r: Result<Completion, Error>)
        requires
            err > isize::MIN,
            err < 0 ==> -err <= u32::MAX,
            err >= 0 ==> entries.count() == err && err <= count && entries.format() == self@.buffer_format(),
        ensures
            err < 0 ==> r == Err::<Completion, Error>(Error { c_err: (-err) as u32 }),
            err >= 0 ==> r == Ok::<Completion, Error>(entries),
    {
        self.sread_with_cond(count, err, entries)
    }

    /// The blocking read that also reports the source address.
    pub fn sreadfrom_call(&self, count: usize, cond: usize, timeout: i32) -> (r: CqCall)
        ensures
            r == (CqCall::SreadFrom { cq: self@.handle(), count, cond, timeout }),
    {
        CqCall::SreadFrom { cq: self.inner.as_raw_fid(), count, cond, timeout }
    }

    /// Blocking read with the source address, from what `fi_cq_sreadfrom` returned for a
    /// call with a threshold, the entries it wrote and the address it wrote.
    pub fn sreadfrom_with_cond(&self, count: usize, err: isize, entries: Completion, address: u64) -> (r: Result<(Completion, Option<u64>), Error>)
        requires
            err > isize::MIN,
            err < 0 ==> -err <= u32::MAX,
            err >= 0 ==> entries.count() == err && err <= count && entries.format() == self@.buffer_format(),
        ensures
            err < 0 ==> r == Err::<(Completion, Option<u64>), Error>(Error { c_err: (-err) as u32 }),
            err >= 0 && address == FI_ADDR_NOTAVAIL ==> r == Ok::<(Completion, Option<u64>), Error>((entries, None)),
            err >= 0 && address != FI_ADDR_NOTAVAIL ==> r == Ok::<(Completion, Option<u64>), Error>((entries, Some(address))),
    {
        match readfrom_result(err, address) {
            Err(e) => Err(e),
            Ok(addr) => Ok((entries, addr)),
        }
    }

    /// [CompletionQueueBase::sreadfrom_with_cond] with no threshold (`cond` = 0).
    pub fn sreadfrom(&self, count: usize, err: isize, entries: Completion, address: u64) -> (r: Result<(Completion, Option<u64>), Error>)
        requires
            err > isize::MIN,
            err < 0 ==> -err <= u32::MAX,
            err >= 0 ==> entries.count() == err && err <= count && entries.format() == self@.buffer_format(),
        ensures
            err < 0 ==> r == Err::<(Completion, Option<u64>), Error>(Error { c_err: (-err) as u32 }),
            err >= 0 && address == FI_ADDR_NOTAVAIL ==> r == Ok::<(Completion, Option<u64>), Error>((entries, None)),
            err >= 0 && address != FI_ADDR_NOTAVAIL ==> r == Ok::<(Completion, Option<u64>), Error>((entries, Some(address))),
    {
        self.sreadfrom_with_cond(count, err, entries, address)
    }

    /// The call that unblocks the threads waiting on the queue.
    pub fn signal_call(&self) -> (r: CqCall)
        ensures
            r == (CqCall::Signal { cq: self@.handle() }),
    {
        CqCall::Signal { cq: self.inner.as_raw_fid() }
    }

    /// Unblocks the threads waiting on the queue, from what `fi_cq_signal` returned.
    pub fn signal(&self, err: i32) -> (r: Result<(), Error>)
        requires
            err <= 0,
            err > i32::MIN,
        ensures
            err == 0 ==> r == Ok::<(), Error>(()),
            err != 0 ==> r == Err::<(), Error>(Error { c_err: (-err) as u32 }),
    {
        signal_result(err)
    }
}

impl<const WAIT: bool, const FD: bool> CompletionQueueBase<CompletionQueueImpl<WAIT, true, FD>> {
    /// How the queue's wait object is retrieved. Queues whose wait object can be retrieved
    /// were opened with a file descriptor, a mutex and condition, or an unspecified one.
    pub fn wait_object_kind(&self) -> (r: WaitObjectQuery)
        requires
            self@.wait_obj_spec() == Some(FI_WAIT_FD) || self@.wait_obj_spec() == Some(FI_WAIT_MUTEX_COND)
                || self@.wait_obj_spec() == Some(FI_WAIT_UNSPEC),
        ensures
            self@.wait_obj_spec() == Some(FI_WAIT_FD) ==> r == WaitObjectQuery::Fd,
            self@.wait_obj_spec() == Some(FI_WAIT_MUTEX_COND) ==> r == WaitObjectQuery::MutexCond,
            self@.wait_obj_spec() == Some(FI_WAIT_UNSPEC) ==> r == WaitObjectQuery::Unspec,
    {
        wait_object_query(self.inner.wait_obj)
    }

    /// The call that retrieves the wait object: `fi_control(cq, FI_GETWAIT, arg)` into a file
    /// descriptor or a mutex and condition pair, or no call for an unspecified one.
    pub fn wait_object_call(&self) -> (r: Option<CqCall>)
        requires
            self@.wait_obj_spec() == Some(FI_WAIT_FD) || self@.wait_obj_spec() == Some(FI_WAIT_MUTEX_COND)
                || self@.wait_obj_spec() == Some(FI_WAIT_UNSPEC),
        ensures
            self@.wait_obj_spec() == Some(FI_WAIT_FD) ==> r == Some(CqCall::GetWait { cq: self@.handle(), kind: WaitObjectQuery::Fd }),
            self@.wait_obj_spec() == Some(FI_WAIT_MUTEX_COND) ==> r == Some(CqCall::GetWait { cq: self@.handle(), kind: WaitObjectQuery::MutexCond }),
            self@.wait_obj_spec() == Some(FI_WAIT_UNSPEC) ==> r is None,
    {
        match wait_object_query(self.inner.wait_obj) {
            WaitObjectQuery::Unspec => None,
            kind => Some(CqCall::GetWait { cq: self.inner.as_raw_fid(), kind }),
        }
    }

    /// Retrieves the queue's wait object, from what the call of
    /// [CompletionQueueBase::wait_object_call] returned (`err`) and wrote: the file
    /// descriptor `fd`, or the addresses of the mutex and condition. A queue with an
    /// unspecified wait object makes no call and reports `Unspec`.
    pub fn wait_object(&self, err: i32, fd: i32, mutex: u64, cond: u64) -> (r: Result<WaitObjType, Error>)
        requires
            self@.wait_obj_spec() == Some(FI_WAIT_FD) || self@.wait_obj_spec() == Some(FI_WAIT_MUTEX_COND)
                || self@.wait_obj_spec() == Some(FI_WAIT_UNSPEC),
            err > i32::MIN,
        ensures
            self@.wait_obj_spec() == Some(FI_WAIT_UNSPEC) ==> r == Ok::<WaitObjType, Error>(WaitObjType::Unspec),
            self@.wait_obj_spec() != Some(FI_WAIT_UNSPEC) && err < 0 ==> r == Err::<WaitObjType, Error>(Error { c_err: (-err) as u32 }),
            self@.wait_obj_spec() == Some(FI_WAIT_FD) && err >= 0 ==> r == Ok::<WaitObjType, Error>(WaitObjType::Fd(fd)),
            self@.wait_obj_spec() == Some(FI_WAIT_MUTEX_COND) && err >= 0 ==> r == Ok::<WaitObjType, Error>(WaitObjType::MutexCond(mutex, cond)),
    {
        wait_object_result(wait_object_query(self.inner.wait_obj), err, fd, mutex, cond)
    }
}

//================== Reading completions ==================//

/// Interprets what `fi_cq_read` / `fi_cq_readfrom` returned: a negative value is the negated
/// error number, anything else the number of completions read.
pub fn read_count(err: isize) -> (r: Result<usize, Error>)
    requires
        err > isize::MIN,
        err < 0 ==> -err <= u32::MAX,
    ensures
        err < 0 ==> r == Err::<usize, Error>(Error { c_err: (-err) as u32 }),
        err >= 0 ==> r == Ok::<usize, Error>(err as usize),
{
    if err < 0 {
        Err(Error::from_err_code((-err) as u32))
    } else {
        Ok(err as usize)
    }
}

/// Interprets what a blocking read (`fi_cq_sread`) returned: a negative value is the negated
/// error number; otherwise the read succeeded.
pub fn sread_result(err: isize) -> (r: Result<(), Error>)
    requires
        err > isize::MIN,
        err < 0 ==> -err <= u32::MAX,
    ensures
        err < 0 ==> r == Err::<(), Error>(Error { c_err: (-err) as u32 }),
        err >= 0 ==> r == Ok::<(), Error>(()),
{
    if err < 0 {
        Err(Error::from_err_code((-err) as u32))
    } else {
        Ok(())
    }
}

/// The source address a `readfrom` call reported, or `None` when the provider had none
/// (`FI_ADDR_NOTAVAIL`).
pub fn source_address(address: u64) -> (r: Option<u64>)
    ensures
        address == FI_ADDR_NOTAVAIL ==> r is None,
        address != FI_ADDR_NOTAVAIL ==> r == Some(address),
{
    if address == FI_ADDR_NOTAVAIL {
        None
    } else {
        Some(address)
    }
}

/// Interprets what `fi_cq_readfrom` / `fi_cq_sreadfrom` returned together with the address
/// it wrote: the error when the call failed, the source address otherwise.
pub fn readfrom_result(err: isize, address: u64) -> (r: Result<Option<u64>, Error>)
    requires
        err > isize::MIN,
        err < 0 ==> -err <= u32::MAX,
    ensures
        err < 0 ==> r == Err::<Option<u64>, Error>(Error { c_err: (-err) as u32 }),
        err >= 0 && address == FI_ADDR_NOTAVAIL ==> r == Ok::<Option<u64>, Error>(None),
        err >= 0 && address != FI_ADDR_NOTAVAIL ==> r == Ok::<Option<u64>, Error>(Some(address)),
{
    let address = source_address(address);
    if err < 0 {
        Err(Error::from_err_code((-err) as u32))
    } else {
        Ok(address)
    }
}

/// Interprets what `fi_cq_signal` returned: zero is success, anything else the negated error
/// number.
pub fn signal_result(err: i32) -> (r: Result<(), Error>)
    requires
        err <= 0,
        err > i32::MIN,
    ensures
        err == 0 ==> r == Ok::<(), Error>(()),
        err != 0 ==> r == Err::<(), Error>(Error { c_err: (-err) as u32 }),
{
    if err != 0 {
        Err(Error::from_err_code((-err) as u32))
    } else {
        Ok(())
    }
}

/// How the wait object of a queue is retrieved.
#[derive(Clone, Copy, Debug, PartialEq, Eq, Structural)]
pub enum WaitObjectQuery {
    /// Ask `fi_control(FI_GETWAIT)` for a file descriptor.
    Fd,
    /// Ask `fi_control(FI_GETWAIT)` for a mutex and condition pair.
    MutexCond,
    /// The provider chose the wait object; there is nothing to retrieve.
    Unspec,
}

/// The wait object of a completion queue as `fi_control(FI_GETWAIT)` delivers it. The mutex
/// and the condition are named by their addresses.
#[derive(Clone, Copy, Debug, PartialEq, Eq, Structural)]
pub enum WaitObjType {
    MutexCond(u64, u64),
    Fd(i32),
    Unspec,
}

/// The wait object of a counter, event queue or wait set as `fi_control(FI_GETWAIT)`
/// delivers it. The mutex, the condition and the poll descriptors are named by their
/// addresses.
#[derive(Clone, Copy, Debug, PartialEq, Eq, Structural)]
pub enum WaitObjType2 {
    MutexCond(u64, u64),
    Fd(i32),
    PollFd { change_index: u64, nfds: usize, fds: u64 },
    Yield,
    Unspec,
}

/// Interprets the retrieval of a wait object of kind `kind`: nothing is asked for an
/// unspecified one; otherwise a negative `err` is the negated error number, and success
/// delivers the file descriptor `fd` or the mutex and condition it wrote.
pub fn wait_object_result(kind: WaitObjectQuery, err: i32, fd: i32, mutex: u64, cond: u64) -> (r: Result<WaitObjType, Error>)
    requires
        err > i32::MIN,
    ensures
        kind == WaitObjectQuery::Unspec ==> r == Ok::<WaitObjType, Error>(WaitObjType::Unspec),
        kind != WaitObjectQuery::Unspec && err < 0 ==> r == Err::<WaitObjType, Error>(Error { c_err: (-err) as u32 }),
        kind == WaitObjectQuery::Fd && err >= 0 ==> r == Ok::<WaitObjType, Error>(WaitObjType::Fd(fd)),
        kind == WaitObjectQuery::MutexCond && err >= 0 ==> r == Ok::<WaitObjType, Error>(WaitObjType::MutexCond(mutex, cond)),
{
    match kind {
        WaitObjectQuery::Unspec => Ok(WaitObjType::Unspec),
        WaitObjectQuery::Fd => if err < 0 {
            Err(Error::from_err_code((-err) as u32))
        } else {
            Ok(WaitObjType::Fd(fd))
        },
        WaitObjectQuery::MutexCond => if err < 0 {
            Err(Error::from_err_code((-err) as u32))
        } else {
            Ok(WaitObjType::MutexCond(mutex, cond))
        },
    }
}

/// Decides how to retrieve the wait object a queue was opened with. Only queues with a file
/// descriptor, a mutex and condition, or an unspecified wait object have one to retrieve.
pub fn wait_object_query(wait_obj: Option<u32>) -> (r: WaitObjectQuery)
    requires
        wait_obj == Some(FI_WAIT_FD) || wait_obj == Some(FI_WAIT_MUTEX_COND) || wait_obj == Some(FI_WAIT_UNSPEC),
    ensures
        wait_obj == Some(FI_WAIT_FD) ==> r == WaitObjectQuery::Fd,
        wait_obj == Some(FI_WAIT_MUTEX_COND) ==> r == WaitObjectQuery::MutexCond,
        wait_obj == Some(FI_WAIT_UNSPEC) ==> r == WaitObjectQuery::Unspec,
{
    let wait = match wait_obj {
        Some(w) => w,
        None => 0,
    };
    if wait == FI_WAIT_FD {
        WaitObjectQuery::Fd
    } else if wait == FI_WAIT_MUTEX_COND {
        WaitObjectQuery::MutexCond
    } else {
        WaitObjectQuery::Unspec
    }
}

} // verus!
