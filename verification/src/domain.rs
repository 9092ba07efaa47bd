use vstd::prelude::*;
use crate::consts::{FI_PEER, FI_REG_MR, FI_SCATTER};
use crate::datatype::AsFiType;
use crate::enums::{AddressVectorType, AtomicOperation, CollAtomicOp, CollectiveOp, Progress, ResourceMgmt, Threading, TrafficClass};
use crate::error::Error;
use crate::flags::{DomainCaps, Mode, MrMode};

verus! {

/// The event-queue marker of a domain that is bound to no event queue.
pub struct NoEventQueue {}

//================== Domain attribute ==================//

/// The raw fields of an `fi_domain_attr` as libfabric reports them, with the name and the
/// authentication key already copied out (`None` when the key pointer is null). The domain is
/// named by its handle.
#[derive(Clone, Debug)]
pub struct RawDomainAttr {
    pub domain: u64,
    pub name: String,
    pub threading: u32,
    pub control_progress: u32,
    pub data_progress: u32,
    pub resource_mgmt: u32,
    pub av_type: u32,
    pub mr_mode: i32,
    pub mr_key_size: usize,
    pub cq_data_size: usize,
    pub cq_cnt: usize,
    pub ep_cnt: usize,
    pub tx_ctx_cnt: usize,
    pub rx_ctx_cnt: usize,
    pub max_ep_tx_ctx: usize,
    pub max_ep_rx_ctx: usize,
    pub max_ep_stx_ctx: usize,
    pub max_ep_srx_ctx: usize,
    pub cntr_cnt: usize,
    pub mr_iov_limit: usize,
    pub caps: u64,
    pub mode: u64,
    pub auth_key: Option<Vec<u8>>,
    pub max_err_data: usize,
    pub mr_cnt: usize,
    pub tclass: u32,
    pub max_ep_auth_key: usize,
}

impl RawDomainAttr {
    /// Every enumerated field holds an encoding that libfabric defines.
    pub open spec fn well_formed(&self) -> bool {
        &&& Threading::decode(self.threading) is Some
        &&& Progress::decode(self.control_progress) is Some
        &&& Progress::decode(self.data_progress) is Some
        &&& ResourceMgmt::decode(self.resource_mgmt) is Some
        &&& AddressVectorType::decode(self.av_type) is Some
        &&& TrafficClass::decode(self.tclass) is Some
    }
}

/// Represents a read-only version of the a `fi_info`'s `fi_domain_attr` field returned by
/// a call to `fi_getinfo()`
#[derive(Clone, Debug)]
pub struct DomainAttr {
    domain_id: u64,
    name: String,
    threading: Threading,
    control_progress: Progress,
    data_progress: Progress,
    resource_mgmt: ResourceMgmt,
    av_type: AddressVectorType,
    mr_mode: MrMode,
    mr_key_size: usize,
    cq_data_size: usize,
    cq_cnt: usize,
    ep_cnt: usize,
    tx_ctx_cnt: usize,
    rx_ctx_cnt: usize,
    max_ep_tx_ctx: usize,
    max_ep_rx_ctx: usize,
    max_ep_stx_ctx: usize,
    max_ep_srx_ctx: usize,
    cntr_cnt: usize,
    mr_iov_limit: usize,
    caps: DomainCaps,
    mode: Mode,
    auth_key: Option<Vec<u8>>,
    max_err_data: usize,
    mr_cnt: usize,
    traffic_class: TrafficClass,
    max_ep_auth_key: usize,
}

impl DomainAttr {
    /// The attribute decoded from `raw`: every enumerated field is decoded, the memory
    /// registration mode reinterpreted as unsigned, and every other field kept as it is.
    pub open spec fn decodes(self, raw: RawDomainAttr) -> bool {
        &&& self.decodes_all_but_traffic_class(raw)
        &&& Some(self.traffic_class_spec()) == TrafficClass::decode(raw.tclass)
    }

    /// Every field but the traffic class is decoded from `raw` as [DomainAttr::decodes] says.
    pub open spec fn decodes_all_but_traffic_class(self, raw: RawDomainAttr) -> bool {
        &&& self.domain_id_spec() == raw.domain
        &&& self.name_spec() == raw.name@
        &&& Some(self.threading_spec()) == Threading::decode(raw.threading)
        &&& Some(self.control_progress_spec()) == Progress::decode(raw.control_progress)
        &&& Some(self.data_progress_spec()) == Progress::decode(raw.data_progress)
        &&& Some(self.resource_mgmt_spec()) == ResourceMgmt::decode(raw.resource_mgmt)
        &&& Some(self.av_type_spec()) == AddressVectorType::decode(raw.av_type)
        &&& self.mr_mode_spec()@ == raw.mr_mode as u32
        &&& self.counts_spec() == seq![
            raw.mr_key_size, raw.cq_data_size, raw.cq_cnt, raw.ep_cnt, raw.tx_ctx_cnt,
            raw.rx_ctx_cnt, raw.max_ep_tx_ctx, raw.max_ep_rx_ctx, raw.max_ep_stx_ctx,
            raw.max_ep_srx_ctx, raw.cntr_cnt, raw.mr_iov_limit, raw.max_err_data, raw.mr_cnt,
            raw.max_ep_auth_key,
        ]
        &&& self.caps_spec()@ == raw.caps
        &&& self.mode_spec()@ == raw.mode
        &&& self.auth_key_spec() == (match raw.auth_key {
            Some(k) => Some(k@),
            None => None,
        })
    }

    pub closed spec fn domain_id_spec(self) -> u64 {
        self.domain_id
    }

    pub closed spec fn name_spec(self) -> Seq<char> {
        self.name@
    }

    pub closed spec fn threading_spec(self) -> Threading {
        self.threading
    }

    pub closed spec fn control_progress_spec(self) -> Progress {
        self.control_progress
    }

    pub closed spec fn data_progress_spec(self) -> Progress {
        self.data_progress
    }

    pub closed spec fn resource_mgmt_spec(self) -> ResourceMgmt {
        self.resource_mgmt
    }

    pub closed spec fn av_type_spec(self) -> AddressVectorType {
        self.av_type
    }

    pub closed spec fn mr_mode_spec(self) -> MrMode {
        self.mr_mode
    }

    /// The counts and sizes, in the order of the fields of `fi_domain_attr`: key size, CQ
    /// data size, CQ count, endpoint count, transmit and receive context counts, the four
    /// per-endpoint context maxima, counter count, IOV limit, error data size, MR count and
    /// the per-endpoint authentication key maximum.
    pub closed spec fn counts_spec(self) -> Seq<usize> {
        seq![
            self.mr_key_size, self.cq_data_size, self.cq_cnt, self.ep_cnt, self.tx_ctx_cnt,
            self.rx_ctx_cnt, self.max_ep_tx_ctx, self.max_ep_rx_ctx, self.max_ep_stx_ctx,
            self.max_ep_srx_ctx, self.cntr_cnt, self.mr_iov_limit, self.max_err_data, self.mr_cnt,
            self.max_ep_auth_key,
        ]
    }

    pub closed spec fn caps_spec(self) -> DomainCaps {
        self.caps
    }

    pub closed spec fn mode_spec(self) -> Mode {
        self.mode
    }

    pub closed spec fn auth_key_spec(self) -> Option<Seq<u8>> {
        match self.auth_key {
            Some(k) => Some(k@),
            None => None,
        }
    }

    pub closed spec fn traffic_class_spec(self) -> TrafficClass {
        self.traffic_class
    }

    /// Decodes the attribute libfabric reported. Every enumerated field must hold an
    /// encoding libfabric defines.
    pub fn from_raw(raw: RawDomainAttr) -> (r: Self)
        requires
            raw.well_formed(),
        ensures
            r.decodes(raw),
    {
        let ghost raw0 = raw;
        let r = DomainAttr {
            domain_id: raw.domain,
            name: raw.name,
            threading: Threading::from_raw(raw.threading),
            control_progress: Progress::from_raw(raw.control_progress),
            data_progress: Progress::from_raw(raw.data_progress),
            resource_mgmt: ResourceMgmt::from_raw(raw.resource_mgmt),
            av_type: AddressVectorType::from_raw(raw.av_type),
            mr_mode: MrMode::from_raw(raw.mr_mode as u32),
            mr_key_size: raw.mr_key_size,
            cq_data_size: raw.cq_data_size,
            cq_cnt: raw.cq_cnt,
            ep_cnt: raw.ep_cnt,
            tx_ctx_cnt: raw.tx_ctx_cnt,
            rx_ctx_cnt: raw.rx_ctx_cnt,
            max_ep_tx_ctx: raw.max_ep_tx_ctx,
            max_ep_rx_ctx: raw.max_ep_rx_ctx,
            max_ep_stx_ctx: raw.max_ep_stx_ctx,
            max_ep_srx_ctx: raw.max_ep_srx_ctx,
            cntr_cnt: raw.cntr_cnt,
            mr_iov_limit: raw.mr_iov_limit,
            caps: DomainCaps::from_raw(raw.caps),
            mode: Mode::from_raw(raw.mode),
            auth_key: raw.auth_key,
            max_err_data: raw.max_err_data,
            mr_cnt: raw.mr_cnt,
            traffic_class: TrafficClass::from_raw(raw.tclass),
            max_ep_auth_key: raw.max_ep_auth_key,
        };
        assert(r.counts_spec() =~= seq![
            raw0.mr_key_size, raw0.cq_data_size, raw0.cq_cnt, raw0.ep_cnt, raw0.tx_ctx_cnt,
            raw0.rx_ctx_cnt, raw0.max_ep_tx_ctx, raw0.max_ep_rx_ctx, raw0.max_ep_stx_ctx,
            raw0.max_ep_srx_ctx, raw0.cntr_cnt, raw0.mr_iov_limit, raw0.max_err_data, raw0.mr_cnt,
            raw0.max_ep_auth_key,
        ]);
        r
    }

    /// Encodes the attribute back into the fields of an `fi_domain_attr`: every enumerated
    /// field by its libfabric encoding, the memory registration mode as the signed integer of
    /// the C field, and every other field as it is. Decoding the result gives this attribute
    /// back, unless its traffic class is `BestEffort`, whose encoding libfabric shares with
    /// `Label` (an attribute decoded by [DomainAttr::from_raw] never holds `BestEffort`).
    pub fn to_raw(&self) -> (r: RawDomainAttr)
        ensures
            r.well_formed(),
            r.tclass == self.traffic_class_spec().raw_value(),
            self.decodes_all_but_traffic_class(r),
            self.traffic_class_spec() != TrafficClass::BestEffort ==> self.decodes(r),
    {
        let auth_key = match &self.auth_key {
            Some(k) => {
                let c = k.clone();
                assert(c@ =~= k@);
                Some(c)
            },
            None => None,
        };
        let mr_mode = self.mr_mode.as_raw();
        let signed_mr_mode = #[verifier::truncate] (mr_mode as i32);
        assert(signed_mr_mode as u32 == mr_mode) by (bit_vector)
            requires
                signed_mr_mode == mr_mode as i32,
        ;
        let r = RawDomainAttr {
            domain: self.domain_id,
            name: self.name.clone(),
            threading: self.threading.as_raw(),
            control_progress: self.control_progress.as_raw(),
            data_progress: self.data_progress.as_raw(),
            resource_mgmt: self.resource_mgmt.as_raw(),
            av_type: self.av_type.as_raw(),
            mr_mode: signed_mr_mode,
            mr_key_size: self.mr_key_size,
            cq_data_size: self.cq_data_size,
            cq_cnt: self.cq_cnt,
            ep_cnt: self.ep_cnt,
            tx_ctx_cnt: self.tx_ctx_cnt,
            rx_ctx_cnt: self.rx_ctx_cnt,
            max_ep_tx_ctx: self.max_ep_tx_ctx,
            max_ep_rx_ctx: self.max_ep_rx_ctx,
            max_ep_stx_ctx: self.max_ep_stx_ctx,
            max_ep_srx_ctx: self.max_ep_srx_ctx,
            cntr_cnt: self.cntr_cnt,
            mr_iov_limit: self.mr_iov_limit,
            caps: self.caps.as_raw(),
            mode: self.mode.as_raw(),
            auth_key,
            max_err_data: self.max_err_data,
            mr_cnt: self.mr_cnt,
            tclass: self.traffic_class.as_raw(),
            max_ep_auth_key: self.max_ep_auth_key,
        };
        proof {
            self.threading.law_decode_raw_value();
            self.control_progress.law_decode_raw_value();
            self.data_progress.law_decode_raw_value();
            self.resource_mgmt.law_decode_raw_value();
            self.av_type.law_decode_raw_value();
            if self.traffic_class != TrafficClass::BestEffort {
                self.traffic_class.law_decode_raw_value();
            }
            assert(self.counts_spec() =~= seq![
                r.mr_key_size, r.cq_data_size, r.cq_cnt, r.ep_cnt, r.tx_ctx_cnt,
                r.rx_ctx_cnt, r.max_ep_tx_ctx, r.max_ep_rx_ctx, r.max_ep_stx_ctx,
                r.max_ep_srx_ctx, r.cntr_cnt, r.mr_iov_limit, r.max_err_data, r.mr_cnt,
                r.max_ep_auth_key,
            ]);
        }
        r
    }

    /// Returns the domain ID.
    ///
    /// Corresponds to accessing the `fi_domain_attr::domain` field.
    pub fn domain_id(&self) -> (r: u64)
        ensures
            r == self.domain_id_spec(),
    {
        self.domain_id
    }

    /// Returns the name of the domain.
    ///
    /// Corresponds to accessing the `fi_domain_attr::name` field.
    pub fn name(&self) -> (r: &str)
        ensures
            r@ == self.name_spec(),
    {
        self.name.as_str()
    }

    /// Returns the threading model used by the domain.
    pub fn threading(&self) -> (r: &Threading)
        ensures
            *r == self.threading_spec(),
    {
        &self.threading
    }

    /// Returns the progress model used for control operations in the domain.
    pub fn control_progress(&self) -> (r: &Progress)
        ensures
            *r == self.control_progress_spec(),
    {
        &self.control_progress
    }

    /// Returns the progress model used for data operations in the domain.
    pub fn data_progress(&self) -> (r: &Progress)
        ensures
            *r == self.data_progress_spec(),
    {
        &self.data_progress
    }

    /// Returns the resource management model used by the domain.
    pub fn resource_mgmt(&self) -> (r: &ResourceMgmt)
        ensures
            *r == self.resource_mgmt_spec(),
    {
        &self.resource_mgmt
    }

    /// Returns the address vector type used by the domain.
    pub fn av_type(&self) -> (r: &AddressVectorType)
        ensures
            *r == self.av_type_spec(),
    {
        &self.av_type
    }

    /// Returns the memory registration mode used by the domain.
    pub fn mr_mode(&self) -> (r: &MrMode)
        ensures
            r@ == self.mr_mode_spec()@,
    {
        &self.mr_mode
    }

    /// Returns the size of the memory registration key used by the domain.
    pub fn mr_key_size(&self) -> (r: usize)
        ensures
            r == self.counts_spec()[0],
    {
        self.mr_key_size
    }

    /// Returns the size of the completion queue data used by the domain.
    pub fn cq_data_size(&self) -> (r: usize)
        ensures
            r == self.counts_spec()[1],
    {
        self.cq_data_size
    }

    /// Returns the number of completion queues supported by the domain.
    pub fn cq_cnt(&self) -> (r: usize)
        ensures
            r == self.counts_spec()[2],
    {
        self.cq_cnt
    }

    /// Returns the number of endpoints supported by the domain.
    pub fn ep_cnt(&self) -> (r: usize)
        ensures
            r == self.counts_spec()[3],
    {
        self.ep_cnt
    }

    /// Returns the number of transmit contexts supported by the domain.
    pub fn tx_ctx_cnt(&self) -> (r: usize)
        ensures
            r == self.counts_spec()[4],
    {
        self.tx_ctx_cnt
    }

    /// Returns the number of receive contexts supported by the domain.
    pub fn rx_ctx_cnt(&self) -> (r: usize)
        ensures
            r == self.counts_spec()[5],
    {
        self.rx_ctx_cnt
    }

    /// Returns the maximum number of transmit contexts per endpoint supported by the domain.
    pub fn max_ep_tx_ctx(&self) -> (r: usize)
        ensures
            r == self.counts_spec()[6],
    {
        self.max_ep_tx_ctx
    }

    /// Returns the maximum number of receive contexts per endpoint supported by the domain.
    pub fn max_ep_rx_ctx(&self) -> (r: usize)
        ensures
            r == self.counts_spec()[7],
    {
        self.max_ep_rx_ctx
    }

    /// Returns the maximum number of shared transmit contexts per endpoint supported by the domain.
    pub fn max_ep_stx_ctx(&self) -> (r: usize)
        ensures
            r == self.counts_spec()[8],
    {
        self.max_ep_stx_ctx
    }

    /// Returns the maximum number of shared receive contexts per endpoint supported by the domain.
    pub fn max_ep_srx_ctx(&self) -> (r: usize)
        ensures
            r == self.counts_spec()[9],
    {
        self.max_ep_srx_ctx
    }

    /// Returns the number of counters supported by the domain.
    pub fn cntr_cnt(&self) -> (r: usize)
        ensures
            r == self.counts_spec()[10],
    {
        self.cntr_cnt
    }

    /// Returns the maximum number of memory regions that can be registered.
    pub fn mr_iov_limit(&self) -> (r: usize)
        ensures
            r == self.counts_spec()[11],
    {
        self.mr_iov_limit
    }

    /// Returns the maximum size of error data that can be reported.
    pub fn max_err_data(&self) -> (r: usize)
        ensures
            r == self.counts_spec()[12],
    {
        self.max_err_data
    }

    pub fn mr_cnt(&self) -> (r: usize)
        ensures
            r == self.counts_spec()[13],
    {
        self.mr_cnt
    }

    /// Returns the capabilities supported by the domain.
    pub fn caps(&self) -> (r: &DomainCaps)
        ensures
            r@ == self.caps_spec()@,
    {
        &self.caps
    }

    /// Returns the operational modes supported by the domain.
    pub fn mode(&self) -> (r: &Mode)
        ensures
            r@ == self.mode_spec()@,
    {
        &self.mode
    }

    /// Returns the authentication key used by the domain, if any.
    pub fn auth_key(&self) -> (r: &Option<Vec<u8>>)
        ensures
            self.auth_key_spec() == (match *r {
                Some(k) => Some(k@),
                None => None,
            }),
    {
        &self.auth_key
    }

    /// Return the traffic class used by the domain.
    pub fn traffic_class(&self) -> (r: &TrafficClass)
        ensures
            *r == self.traffic_class_spec(),
    {
        &self.traffic_class
    }
}

//================== Attributes of queries ==================//

/// `fi_atomic_attr`: what a provider reports of an atomic operation on a data type.
#[derive(Clone, Copy, Debug, PartialEq, Eq, Structural)]
pub struct AtomicAttr {
    pub count: usize,
    pub size: usize,
}

impl AtomicAttr {
    /// An attribute for the provider to fill in, with count and size zero.
    pub fn new() -> (r: Self)
        ensures
            r == (AtomicAttr { count: 0, size: 0 }),
    {
        AtomicAttr { count: 0, size: 0 }
    }
}

/// `fi_collective_attr` for a collective on values of type `T`: the operation and data type
/// asked about, and what the provider reports of them (the attributes of the data type, the
/// largest group and the mode bits).
#[derive(Debug)]
pub struct CollectiveAttr<T> {
    pub op: u32,
    pub datatype: u32,
    pub datatype_attr: AtomicAttr,
    pub max_members: usize,
    pub mode: u64,
    pub marker: core::marker::PhantomData<T>,
}

impl<T: AsFiType> CollectiveAttr<T> {
    /// A query for values of type `T`, with operation 0, no members and no mode bits.
    pub fn new() -> (r: Self)
        ensures
            r.op == 0,
            r.datatype == T::fi_datatype().raw_value(),
            r.datatype_attr == (AtomicAttr { count: 0, size: 0 }),
            r.max_members == 0,
            r.mode == 0,
    {
        CollectiveAttr {
            op: 0,
            datatype: T::as_fi_datatype().as_raw(),
            datatype_attr: AtomicAttr { count: 0, size: 0 },
            max_members: 0,
            mode: 0,
            marker: core::marker::PhantomData,
        }
    }

    pub fn op(self, op: &CollAtomicOp) -> (r: Self)
        ensures
            r == (CollectiveAttr { op: op.raw_value(), ..self }),
    {
        CollectiveAttr { op: op.as_raw(), ..self }
    }

    pub fn max_members(self, members: usize) -> (r: Self)
        ensures
            r == (CollectiveAttr { max_members: members, ..self }),
    {
        CollectiveAttr { max_members: members, ..self }
    }
}

impl<T: AsFiType> Default for CollectiveAttr<T> {
    fn default() -> (r: Self)
        ensures
            r.op == 0,
            r.datatype == T::fi_datatype().raw_value(),
            r.datatype_attr == (AtomicAttr { count: 0, size: 0 }),
            r.max_members == 0,
            r.mode == 0,
    {
        Self::new()
    }
}

/// The outcome of a collective query: on success the provider's answer is written into
/// `attr`; on failure `attr` is unchanged and the error is returned.
fn collective_query_outcome<T>(
    attr: &mut CollectiveAttr<T>,
    err: i32,
    datatype_attr: AtomicAttr,
    max_members: usize,
    mode: u64,
) -> (r: Result<bool, Error>)
    requires
        err <= 0,
        err > i32::MIN,
    ensures
        err == 0 ==> r == Ok::<bool, Error>(true) && *final(attr) == (CollectiveAttr {
            datatype_attr,
            max_members,
            mode,
            ..*old(attr)
        }),
        err != 0 ==> r == Err::<bool, Error>(Error { c_err: (-err) as u32 }) && *final(attr) == *old(attr),
{
    if err != 0 {
        Err(Error::from_err_code((-err) as u32))
    } else {
        attr.datatype_attr = datatype_attr;
        attr.max_members = max_members;
        attr.mode = mode;
        Ok(true)
    }
}

//================== Domain ==================//

/// How a domain is opened, with the context the call receives (by address; `None` passes a
/// null context): `fi_domain`; `fi_domain2` with the given flags; or `fi_domain2` with the
/// given flags and, as its context, a `fi_peer_domain_context` laid out from `peer`.
#[derive(Clone, Copy, Debug, PartialEq, Eq, Structural)]
pub enum DomainOpenCall {
    Domain { context: Option<u64> },
    Domain2 { flags: u64, context: Option<u64> },
    PeerDomain { flags: u64, peer: PeerDomainCtx },
}

/// Chooses the open call for a domain without a peer: `fi_domain` without flags, `fi_domain2`
/// with them; either receives `context`.
pub fn domain_open_call(flags: u64, context: Option<u64>) -> (r: DomainOpenCall)
    ensures
        flags == 0 ==> r == (DomainOpenCall::Domain { context }),
        flags != 0 ==> r == (DomainOpenCall::Domain2 { flags, context }),
{
    if flags == 0 {
        DomainOpenCall::Domain { context }
    } else {
        DomainOpenCall::Domain2 { flags, context }
    }
}

/// An open domain. `EQ` records whether an event queue may be bound to it; the bound queue is
/// named by its handle, together with whether memory registration reports through it.
pub struct DomainBase<EQ> {
    pub(crate) c_domain: u64,
    pub(crate) fabric: u64,
    pub(crate) mr_mode: MrMode,
    pub(crate) mr_key_size: usize,
    pub(crate) eq: Option<(u64, bool)>,
    pub(crate) marker: core::marker::PhantomData<EQ>,
}

/// A Domain without an associated EventQueue
pub type Domain = DomainBase<NoEventQueue>;

/// The marker of a domain that an event queue is bound to.
pub struct BoundEventQueue {}

/// A Domain with an associated EventQueue
pub type BoundDomain = DomainBase<BoundEventQueue>;

/// The libfabric call a query or key operation on a domain makes, with its arguments.
#[derive(Clone, Copy, Debug, PartialEq, Eq, Structural)]
pub enum DomainCall {
    /// `fi_query_atomic(domain, datatype, op, attr, flags)`.
    QueryAtomic { domain: u64, datatype: u32, op: u32, flags: u64 },
    /// `fi_query_collective(domain, coll, attr, flags)`.
    QueryCollective { domain: u64, coll: u32, flags: u64 },
    /// `fi_mr_map_raw(domain, base_addr, raw_key, key_size, &key, flags)`.
    MapRaw { domain: u64, base_addr: u64, key_size: usize, flags: u64 },
    /// `fi_mr_unmap_key(domain, key)`.
    UnmapKey { domain: u64, key: u64 },
    /// `fi_domain_bind(domain, eq, flags)`.
    Bind { domain: u64, eq: u64, flags: u64 },
}

/// A memory region key as a provider gives it: a plain key, or raw bytes that must be
/// mapped against a base address before use.
#[derive(Clone, Debug)]
pub enum OwnedMemoryRegionKey {
    Key(u64),
    RawKey(Vec<u8>, u64),
}

/// The outcome of preparing a key: already usable, or to be mapped by the given call.
#[derive(Clone, Copy, Debug, PartialEq, Eq, Structural)]
pub enum MapRawStep {
    Mapped(u64),
    Call(DomainCall),
}

impl<EQ> DomainBase<EQ> {
    pub closed spec fn handle(self) -> u64 {
        self.c_domain
    }

    pub closed spec fn fabric_spec(self) -> u64 {
        self.fabric
    }

    pub closed spec fn mr_mode_spec(self) -> MrMode {
        self.mr_mode
    }

    pub closed spec fn mr_key_size_spec(self) -> usize {
        self.mr_key_size
    }

    /// The event queue bound to the domain, with whether registrations report through it.
    pub closed spec fn bound_eq(self) -> Option<(u64, bool)> {
        self.eq
    }

    /// Builds the domain from the outcome of its open call on `fabric` (see
    /// [domain_open_call]): a non-zero `err` is the negated error number; otherwise `c_domain`
    /// is the new domain's handle. The domain keeps the registration mode and key size of
    /// `domain_attr` and starts with no event queue.
    pub fn new(fabric: u64, domain_attr: &DomainAttr, err: i32, c_domain: u64) -> (r: Result<Self, Error>)
        requires
            err <= 0,
            err > i32::MIN,
        ensures
            err != 0 ==> r == Err::<Self, Error>(Error { c_err: (-err) as u32 }),
            err == 0 ==> (r matches Ok(d) && d.handle() == c_domain && d.fabric_spec() == fabric
                && d.mr_mode_spec()@ == domain_attr.mr_mode_spec()@
                && d.mr_key_size_spec() == domain_attr.counts_spec()[0]
                && d.bound_eq() is None),
    {
        if err != 0 {
            Err(Error::from_err_code((-err) as u32))
        } else {
            Ok(DomainBase {
                c_domain,
                fabric,
                mr_mode: *domain_attr.mr_mode(),
                mr_key_size: domain_attr.mr_key_size(),
                eq: None,
                marker: core::marker::PhantomData,
            })
        }
    }

    pub fn as_raw_typed_fid(&self) -> (r: u64)
        ensures
            r == self.handle(),
    {
        self.c_domain
    }

    pub fn mr_mode(&self) -> (r: MrMode)
        ensures
            r@ == self.mr_mode_spec()@,
    {
        self.mr_mode
    }

    pub fn mr_key_size(&self) -> (r: usize)
        ensures
            r == self.mr_key_size_spec(),
    {
        self.mr_key_size
    }

    /// The call that asks whether the provider supports `op` on values of type `T` with
    /// `flags`.
    pub fn query_atomic_call<T: AsFiType, O: AtomicOperation>(&self, op: &O, flags: u64) -> (r: DomainCall)
        ensures
            r == (DomainCall::QueryAtomic {
                domain: self.handle(),
                datatype: T::fi_datatype().raw_value(),
                op: op.op_value(),
                flags,
            }),
    {
        DomainCall::QueryAtomic { domain: self.c_domain, datatype: T::as_fi_datatype().as_raw(), op: op.as_raw(), flags }
    }

    /// Indicates if a provider supports a specific atomic operation, from what
    /// `fi_query_atomic` returned for [DomainBase::query_atomic_call]: zero when it does.
    pub fn query_atomic(&self, attr: AtomicAttr, err: isize) -> (r: Result<(), Error>)
        requires
            err <= 0,
            -err <= u32::MAX,
            err > isize::MIN,
        ensures
            err == 0 ==> r == Ok::<(), Error>(()),
            err != 0 ==> r == Err::<(), Error>(Error { c_err: (-err) as u32 }),
    {
        crate::error::check_error(err)
    }

    /// The call that asks which collective operations the provider supports (`flags` = 0).
    pub fn query_collective_call(&self, coll: CollectiveOp) -> (r: DomainCall)
        ensures
            r == (DomainCall::QueryCollective { domain: self.handle(), coll: coll.raw_value(), flags: 0 }),
    {
        DomainCall::QueryCollective { domain: self.c_domain, coll: coll.as_raw(), flags: 0 }
    }

    /// The call that asks about the reduce-scatter form of a collective (`flags` =
    /// `FI_SCATTER`).
    pub fn query_collective_scatter_call(&self, coll: CollectiveOp) -> (r: DomainCall)
        ensures
            r == (DomainCall::QueryCollective {
                domain: self.handle(),
                coll: coll.raw_value(),
                flags: FI_SCATTER as u64,
            }),
    {
        DomainCall::QueryCollective { domain: self.c_domain, coll: coll.as_raw(), flags: FI_SCATTER as u64 }
    }

    /// Returns information about which collective operations are supported by a provider,
    /// from what `fi_query_collective` returned for [DomainBase::query_collective_call]:
    /// `true` on success. On success the attribute takes what the provider wrote into it (the
    /// attributes of the data type, the largest group and the mode bits); on failure it is
    /// left as it was.
    pub fn query_collective<T: AsFiType>(
        &self,
        coll: CollectiveOp,
        attr: &mut CollectiveAttr<T>,
        err: i32,
        datatype_attr: AtomicAttr,
        max_members: usize,
        mode: u64,
    ) -> (r: Result<bool, Error>)
        requires
            err <= 0,
            err > i32::MIN,
        ensures
            err == 0 ==> r == Ok::<bool, Error>(true) && *final(attr) == (CollectiveAttr {
                datatype_attr,
                max_members,
                mode,
                ..*old(attr)
            }),
            err != 0 ==> r == Err::<bool, Error>(Error { c_err: (-err) as u32 }) && *final(attr) == *old(attr),
    {
        collective_query_outcome(attr, err, datatype_attr, max_members, mode)
    }

    /// Requests attribute information on the reduce-scatter collective operation, from what
    /// `fi_query_collective` returned for [DomainBase::query_collective_scatter_call]: `true`
    /// on success, with the attribute updated as for [DomainBase::query_collective].
    pub fn query_collective_scatter<T: AsFiType>(
        &self,
        coll: CollectiveOp,
        attr: &mut CollectiveAttr<T>,
        err: i32,
        datatype_attr: AtomicAttr,
        max_members: usize,
        mode: u64,
    ) -> (r: Result<bool, Error>)
        requires
            err <= 0,
            err > i32::MIN,
        ensures
            err == 0 ==> r == Ok::<bool, Error>(true) && *final(attr) == (CollectiveAttr {
                datatype_attr,
                max_members,
                mode,
                ..*old(attr)
            }),
            err != 0 ==> r == Err::<bool, Error>(Error { c_err: (-err) as u32 }) && *final(attr) == *old(attr),
    {
        collective_query_outcome(attr, err, datatype_attr, max_members, mode)
    }

    /// Prepares a memory region key: a plain key is used as it is; raw bytes are mapped by
    /// `fi_mr_map_raw` against their base address, with the given flags.
    pub fn map_raw(&self, mr_key: &OwnedMemoryRegionKey, flags: u64) -> (r: MapRawStep)
        ensures
            *mr_key matches OwnedMemoryRegionKey::Key(k) ==> r == MapRawStep::Mapped(k),
            *mr_key matches OwnedMemoryRegionKey::RawKey(bytes, base) ==> r == MapRawStep::Call(DomainCall::MapRaw {
                domain: self.handle(),
                base_addr: base,
                key_size: bytes@.len() as usize,
                flags,
            }),
    {
        match mr_key {
            OwnedMemoryRegionKey::Key(simple_key) => MapRawStep::Mapped(*simple_key),
            OwnedMemoryRegionKey::RawKey(raw_key, base) => MapRawStep::Call(DomainCall::MapRaw {
                domain: self.c_domain,
                base_addr: *base,
                key_size: raw_key.len(),
                flags,
            }),
        }
    }

    /// The call that releases a mapped key.
    pub fn unmap_key_call(&self, key: u64) -> (r: DomainCall)
        ensures
            r == (DomainCall::UnmapKey { domain: self.handle(), key }),
    {
        DomainCall::UnmapKey { domain: self.c_domain, key }
    }

    /// Releases a mapped key, from what `fi_mr_unmap_key` returned for
    /// [DomainBase::unmap_key_call].
    pub fn unmap_key(&self, key: u64, err: i32) -> (r: Result<(), Error>)
        requires
            err <= 0,
            err > i32::MIN,
        ensures
            err == 0 ==> r == Ok::<(), Error>(()),
            err != 0 ==> r == Err::<(), Error>(Error { c_err: (-err) as u32 }),
    {
        crate::error::check_error(err as isize)
    }
}

/// Interprets what `fi_mr_map_raw` returned together with the key it wrote.
pub fn mapped_key_result(err: i32, mapped_key: u64) -> (r: Result<u64, Error>)
    requires
        err <= 0,
        err > i32::MIN,
    ensures
        err == 0 ==> r == Ok::<u64, Error>(mapped_key),
        err != 0 ==> r == Err::<u64, Error>(Error { c_err: (-err) as u32 }),
{
    if err != 0 {
        Err(Error::from_err_code((-err) as u32))
    } else {
        Ok(mapped_key)
    }
}

impl BoundDomain {
    /// The flags of `fi_domain_bind`: `FI_REG_MR` when registrations should complete
    /// asynchronously through the event queue, none otherwise.
    pub fn bind_call(&self, eq: u64, async_mem_reg: bool) -> (r: DomainCall)
        ensures
            r == (DomainCall::Bind {
                domain: self.handle(),
                eq,
                flags: if async_mem_reg { FI_REG_MR } else { 0 },
            }),
    {
        DomainCall::Bind { domain: self.c_domain, eq, flags: if async_mem_reg { FI_REG_MR } else { 0 } }
    }

    /// Associates an event queue with the domain, from what `fi_domain_bind` returned for
    /// [BoundDomain::bind_call]. A domain is bound at most once.
    pub fn bind_eq(&mut self, eq: u64, async_mem_reg: bool, err: i32) -> (r: Result<(), Error>)
        requires
            err <= 0,
            err > i32::MIN,
            err == 0 ==> old(self).bound_eq() is None,
        ensures
            err != 0 ==> r == Err::<(), Error>(Error { c_err: (-err) as u32 })
                && final(self).bound_eq() == old(self).bound_eq(),
            err == 0 ==> r == Ok::<(), Error>(()) && final(self).bound_eq() == Some((eq, async_mem_reg)),
            final(self).handle() == old(self).handle(),
            final(self).fabric_spec() == old(self).fabric_spec(),
            final(self).mr_mode_spec() == old(self).mr_mode_spec(),
            final(self).mr_key_size_spec() == old(self).mr_key_size_spec(),
    {
        if err != 0 {
            Err(Error::from_err_code((-err) as u32))
        } else {
            self.eq = Some((eq, async_mem_reg));
            Ok(())
        }
    }
}

/// Corresponds to `fi_peer_domain_context` in libfabric: the domain (by handle) a peer domain
/// shares, and the size of the context.
#[derive(Clone, Copy, Debug, PartialEq, Eq, Structural)]
pub struct PeerDomainCtx {
    pub domain: u64,
    pub size: usize,
}

impl PeerDomainCtx {
    pub fn new<EQ>(size: usize, domain: &DomainBase<EQ>) -> (r: Self)
        ensures
            r == (PeerDomainCtx { domain: domain.handle(), size }),
    {
        PeerDomainCtx { domain: domain.c_domain, size }
    }
}

/// Builder for a domain on the fabric with handle `fabric`. The context is named by its
/// address.
pub struct DomainBuilder {
    pub(crate) fabric: u64,
    pub(crate) ctx: Option<u64>,
    pub(crate) peer_ctx: Option<PeerDomainCtx>,
    pub(crate) flags: u64,
}

impl DomainBuilder {
    pub closed spec fn fabric_spec(self) -> u64 {
        self.fabric
    }

    pub closed spec fn ctx_spec(self) -> Option<u64> {
        self.ctx
    }

    pub closed spec fn peer_ctx_spec(self) -> Option<PeerDomainCtx> {
        self.peer_ctx
    }

    pub closed spec fn flags_spec(self) -> u64 {
        self.flags
    }

    /// Initiates the creation of a new domain on `fabric`: no flags, no context.
    pub fn new(fabric: u64) -> (r: DomainBuilder)
        ensures
            r.fabric_spec() == fabric,
            r.flags_spec() == 0,
            r.ctx_spec() is None,
            r.peer_ctx_spec() is None,
    {
        DomainBuilder { fabric, flags: 0, ctx: None, peer_ctx: None }
    }

    /// Initiates the creation of a peer domain on `fabric`: flag `FI_PEER`, with the peer
    /// context as the context of `fi_domain2`.
    pub fn new_with_peer(fabric: u64, peer_ctx: PeerDomainCtx) -> (r: DomainBuilder)
        ensures
            r.fabric_spec() == fabric,
            r.flags_spec() == FI_PEER,
            r.ctx_spec() is None,
            r.peer_ctx_spec() == Some(peer_ctx),
    {
        DomainBuilder { fabric, flags: FI_PEER, ctx: None, peer_ctx: Some(peer_ctx) }
    }

    /// Sets the context to be passed to the domain.
    pub fn context(self, ctx: u64) -> (r: DomainBuilder)
        ensures
            r.fabric_spec() == self.fabric_spec(),
            r.flags_spec() == self.flags_spec(),
            r.ctx_spec() == Some(ctx),
            r.peer_ctx_spec() == self.peer_ctx_spec(),
    {
        DomainBuilder { fabric: self.fabric, flags: self.flags, ctx: Some(ctx), peer_ctx: self.peer_ctx }
    }

    /// The call that opens the domain. A peer domain is opened by `fi_domain2` with the
    /// builder's flags and the peer context as its context; any other domain by
    /// [domain_open_call] with the context set by [DomainBuilder::context].
    pub fn open_call(&self) -> (r: DomainOpenCall)
        ensures
            self.peer_ctx_spec() matches Some(p) ==> r == (DomainOpenCall::PeerDomain { flags: self.flags_spec(), peer: p }),
            self.peer_ctx_spec() is None && self.flags_spec() == 0 ==> r == (DomainOpenCall::Domain {
                context: self.ctx_spec(),
            }),
            self.peer_ctx_spec() is None && self.flags_spec() != 0 ==> r == (DomainOpenCall::Domain2 {
                flags: self.flags_spec(),
                context: self.ctx_spec(),
            }),
    {
        match self.peer_ctx {
            Some(peer) => DomainOpenCall::PeerDomain { flags: self.flags, peer },
            None => domain_open_call(self.flags, self.ctx),
        }
    }

    /// Constructs the domain from the outcome of [DomainBuilder::open_call] (see
    /// [DomainBase::new]).
    pub fn build(self, domain_attr: &DomainAttr, err: i32, c_domain: u64) -> (r: Result<Domain, Error>)
        requires
            err <= 0,
            err > i32::MIN,
        ensures
            err != 0 ==> r == Err::<Domain, Error>(Error { c_err: (-err) as u32 }),
            err == 0 ==> (r matches Ok(d) && d.handle() == c_domain && d.fabric_spec() == self.fabric_spec()
                && d.mr_mode_spec()@ == domain_attr.mr_mode_spec()@
                && d.mr_key_size_spec() == domain_attr.counts_spec()[0]
                && d.bound_eq() is None),
    {
        DomainBase::new(self.fabric, domain_attr, err, c_domain)
    }

    /// Constructs the domain and binds the event queue `eq` to it, from the outcomes of the
    /// open call (`open_err`, `c_domain`) and of `fi_domain_bind` (`bind_err`). The bind is
    /// only made when the open succeeded.
    pub fn build_and_bind(self, domain_attr: &DomainAttr, open_err: i32, c_domain: u64, eq: u64, async_mem_reg: bool, bind_err: i32) -> (r: Result<BoundDomain, Error>)
        requires
            open_err <= 0,
            open_err > i32::MIN,
            bind_err <= 0,
            bind_err > i32::MIN,
        ensures
            open_err != 0 ==> r == Err::<BoundDomain, Error>(Error { c_err: (-open_err) as u32 }),
            open_err == 0 && bind_err != 0 ==> r == Err::<BoundDomain, Error>(Error { c_err: (-bind_err) as u32 }),
            open_err == 0 && bind_err == 0 ==> (r matches Ok(d) && d.handle() == c_domain
                && d.fabric_spec() == self.fabric_spec()
                && d.bound_eq() == Some((eq, async_mem_reg))),
    {
        let mut domain = match BoundDomain::new(self.fabric, domain_attr, open_err, c_domain) {
            Ok(d) => d,
            Err(e) => return Err(e),
        };
        match domain.bind_eq(eq, async_mem_reg, bind_err) {
            Ok(()) => Ok(domain),
            Err(e) => Err(e),
        }
    }
}

} // verus!
