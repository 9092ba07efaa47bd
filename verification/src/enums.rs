use vstd::prelude::*;
use crate::consts::{FI_HMEM_CUDA, FI_HMEM_NEURON, FI_HMEM_ROCR, FI_HMEM_SYNAPSEAI, FI_HMEM_SYSTEM,
    FI_HMEM_ZE, FI_TRIGGER_THRESHOLD, FI_TRIGGER_XPU, FI_WAIT_NONE, FI_WAIT_SET, FI_ADDR_BGQ, FI_ADDR_CXI, FI_ADDR_EFA, FI_ADDR_GNI, FI_ADDR_IB_UD,
    FI_ADDR_MLX, FI_ADDR_OPX, FI_ADDR_PSMX, FI_ADDR_PSMX2, FI_ADDR_PSMX3, FI_ADDR_STR, FI_ADDR_UCX,
    FI_ALIAS, FI_ALLGATHER, FI_ALLREDUCE, FI_ALLTOALL, FI_ATOMIC_READ, FI_ATOMIC_WRITE,
    FI_AUTH_KEY, FI_AV_MAP, FI_AV_TABLE, FI_AV_UNSPEC, FI_BACKLOG, FI_BAND, FI_BARRIER, FI_BOR,
    FI_BROADCAST, FI_BXOR, FI_CANCEL_WORK, FI_CNTR_EVENTS_BYTES, FI_CNTR_EVENTS_COMP,
    FI_CQ_COND_NONE, FI_CQ_COND_THRESHOLD, FI_CQ_FORMAT_CONTEXT, FI_CQ_FORMAT_DATA,
    FI_CQ_FORMAT_MSG, FI_CQ_FORMAT_TAGGED, FI_CQ_FORMAT_UNSPEC, FI_CSWAP, FI_CSWAP_GE, FI_CSWAP_GT,
    FI_CSWAP_LE, FI_CSWAP_LT, FI_CSWAP_NE, FI_DATATYPE_LAST, FI_DOUBLE, FI_DOUBLE_COMPLEX, FI_DUP,
    FI_ENABLE, FI_EP_DGRAM, FI_EP_MSG, FI_EP_RDM, FI_EP_UNSPEC, FI_EXPORT_FID, FI_FLOAT,
    FI_FLOAT_COMPLEX, FI_FLUSH_WORK, FI_FORMAT_UNSPEC, FI_GATHER, FI_GETFIDFLAG, FI_GETOPSFLAG,
    FI_GETWAIT, FI_GETWAITOBJ, FI_GET_RAW_MR, FI_GET_VAL, FI_HMEM_P2P_DISABLED,
    FI_HMEM_P2P_ENABLED, FI_HMEM_P2P_PREFERRED, FI_HMEM_P2P_REQUIRED, FI_INT128, FI_INT16,
    FI_INT32, FI_INT64, FI_INT8, FI_LAND, FI_LONG_DOUBLE, FI_LONG_DOUBLE_COMPLEX, FI_LOR, FI_LXOR,
    FI_MAP_RAW_MR, FI_MAX, FI_MIN, FI_MSWAP, FI_NOOP, FI_OPT_BUFFERED_LIMIT, FI_OPT_BUFFERED_MIN,
    FI_OPT_CM_DATA_SIZE, FI_OPT_CUDA_API_PERMITTED, FI_OPT_ENDPOINT, FI_OPT_FI_HMEM_P2P,
    FI_OPT_MIN_MULTI_RECV, FI_OPT_RECV_BUF_SIZE, FI_OPT_RX_SIZE, FI_OPT_SEND_BUF_SIZE,
    FI_OPT_TX_SIZE, FI_OPT_XPU_TRIGGER, FI_PARAM_BOOL, FI_PARAM_INT, FI_PARAM_SIZE_T,
    FI_PARAM_STRING, FI_PROD, FI_PROGRESS_AUTO, FI_PROGRESS_MANUAL, FI_PROGRESS_UNSPEC,
    FI_PROTO_COLL, FI_PROTO_CXI, FI_PROTO_CXI_RNR, FI_PROTO_EFA, FI_PROTO_GNI, FI_PROTO_IB_RDM,
    FI_PROTO_IB_UD, FI_PROTO_IWARP, FI_PROTO_IWARP_RDM, FI_PROTO_MLX, FI_PROTO_MRAIL, FI_PROTO_MXM,
    FI_PROTO_NETWORKDIRECT, FI_PROTO_OPX, FI_PROTO_PSMX, FI_PROTO_PSMX2, FI_PROTO_PSMX3,
    FI_PROTO_RDMA_CM_IB_RC, FI_PROTO_RDMA_CM_IB_XRC, FI_PROTO_RSTREAM, FI_PROTO_RXD, FI_PROTO_RXM,
    FI_PROTO_RXM_TCP, FI_PROTO_SHM, FI_PROTO_SM2, FI_PROTO_SOCK_TCP, FI_PROTO_UCX, FI_PROTO_UDP,
    FI_PROTO_UNSPEC, FI_PROTO_XNET, FI_QUEUE_WORK, FI_REDUCE, FI_REDUCE_SCATTER, FI_REFRESH,
    FI_RM_DISABLED, FI_RM_ENABLED, FI_RM_UNSPEC, FI_SCATTER, FI_SETFIDFLAG, FI_SETOPSFLAG,
    FI_SET_VAL, FI_SOCKADDR, FI_SOCKADDR_IB, FI_SOCKADDR_IN, FI_SOCKADDR_IN6, FI_SUM,
    FI_TC_BEST_EFFORT, FI_TC_BULK_DATA, FI_TC_DEDICATED_ACCESS, FI_TC_DSCP, FI_TC_LABEL,
    FI_TC_LOW_LATENCY, FI_TC_NETWORK_CTRL, FI_TC_SCAVENGER, FI_TC_UNSPEC, FI_THREAD_COMPLETION,
    FI_THREAD_DOMAIN, FI_THREAD_ENDPOINT, FI_THREAD_FID, FI_THREAD_SAFE, FI_THREAD_UNSPEC,
    FI_TYPE_ADDR_FORMAT, FI_TYPE_ATOMIC_OP, FI_TYPE_ATOMIC_TYPE, FI_TYPE_AV_ATTR, FI_TYPE_AV_TYPE,
    FI_TYPE_CAPS, FI_TYPE_CNTR_ATTR, FI_TYPE_COLLECTIVE_OP, FI_TYPE_CQ_ATTR, FI_TYPE_CQ_ERR_ENTRY,
    FI_TYPE_CQ_EVENT_FLAGS, FI_TYPE_CQ_FORMAT, FI_TYPE_DOMAIN_ATTR, FI_TYPE_EP_ATTR,
    FI_TYPE_EP_TYPE, FI_TYPE_EQ_EVENT, FI_TYPE_FABRIC_ATTR, FI_TYPE_FID, FI_TYPE_HMEM_IFACE,
    FI_TYPE_INFO, FI_TYPE_LOG_LEVEL, FI_TYPE_LOG_SUBSYS, FI_TYPE_MODE, FI_TYPE_MR_ATTR,
    FI_TYPE_MR_MODE, FI_TYPE_MSG_ORDER, FI_TYPE_OP_FLAGS, FI_TYPE_OP_TYPE, FI_TYPE_PROGRESS,
    FI_TYPE_PROTOCOL, FI_TYPE_RX_ATTR, FI_TYPE_THREADING, FI_TYPE_TX_ATTR, FI_TYPE_VERSION,
    FI_UINT128, FI_UINT16, FI_UINT32, FI_UINT64, FI_UINT8, FI_UNMAP_KEY, FI_VOID, FI_WAIT_FD,
    FI_WAIT_MUTEX_COND, FI_WAIT_POLLFD, FI_WAIT_UNSPEC, FI_WAIT_YIELD};

verus! {

/// A traffic class for network packets.
#[derive(Clone, Copy, Debug, PartialEq, Eq, Structural)]
pub enum Dscp {
    CS0,
    CS1,
    CS2,
    CS3,
    CS4,
    CS5,
    CS6,
    CS7,
    AF11,
    AF12,
    AF13,
    AF21,
    AF22,
    AF23,
    AF31,
    AF32,
    AF33,
    AF41,
    AF42,
    AF43,
    EF,
    VoiceAdmit,
    LowerEffort,
}

impl Dscp {
    /// The libfabric encoding of each variant.
    pub open spec fn raw_value(self) -> u8 {
        match self {
            Dscp::CS0 => 0u8,
            Dscp::CS1 => 8u8,
            Dscp::CS2 => 16u8,
            Dscp::CS3 => 24u8,
            Dscp::CS4 => 32u8,
            Dscp::CS5 => 40u8,
            Dscp::CS6 => 48u8,
            Dscp::CS7 => 56u8,
            Dscp::AF11 => 10u8,
            Dscp::AF12 => 12u8,
            Dscp::AF13 => 14u8,
            Dscp::AF21 => 18u8,
            Dscp::AF22 => 20u8,
            Dscp::AF23 => 22u8,
            Dscp::AF31 => 26u8,
            Dscp::AF32 => 28u8,
            Dscp::AF33 => 30u8,
            Dscp::AF41 => 34u8,
            Dscp::AF42 => 36u8,
            Dscp::AF43 => 38u8,
            Dscp::EF => 46u8,
            Dscp::VoiceAdmit => 44u8,
            Dscp::LowerEffort => 1u8,
        }
    }

    /// The first variant, in declaration order, whose encoding is `value`.
    pub open spec fn decode(value: u8) -> Option<Dscp> {
        if value == 0u8 {
            Some(Dscp::CS0)
        } else if value == 8u8 {
            Some(Dscp::CS1)
        } else if value == 16u8 {
            Some(Dscp::CS2)
        } else if value == 24u8 {
            Some(Dscp::CS3)
        } else if value == 32u8 {
            Some(Dscp::CS4)
        } else if value == 40u8 {
            Some(Dscp::CS5)
        } else if value == 48u8 {
            Some(Dscp::CS6)
        } else if value == 56u8 {
            Some(Dscp::CS7)
        } else if value == 10u8 {
            Some(Dscp::AF11)
        } else if value == 12u8 {
            Some(Dscp::AF12)
        } else if value == 14u8 {
            Some(Dscp::AF13)
        } else if value == 18u8 {
            Some(Dscp::AF21)
        } else if value == 20u8 {
            Some(Dscp::AF22)
        } else if value == 22u8 {
            Some(Dscp::AF23)
        } else if value == 26u8 {
            Some(Dscp::AF31)
        } else if value == 28u8 {
            Some(Dscp::AF32)
        } else if value == 30u8 {
            Some(Dscp::AF33)
        } else if value == 34u8 {
            Some(Dscp::AF41)
        } else if value == 36u8 {
            Some(Dscp::AF42)
        } else if value == 38u8 {
            Some(Dscp::AF43)
        } else if value == 46u8 {
            Some(Dscp::EF)
        } else if value == 44u8 {
            Some(Dscp::VoiceAdmit)
        } else if value == 1u8 {
            Some(Dscp::LowerEffort)
        } else {
            None
        }
    }

    pub fn as_raw(&self) -> (r: u8)
        ensures
            r == self.raw_value(),
    {
        match self {
            Dscp::CS0 => 0u8,
            Dscp::CS1 => 8u8,
            Dscp::CS2 => 16u8,
            Dscp::CS3 => 24u8,
            Dscp::CS4 => 32u8,
            Dscp::CS5 => 40u8,
            Dscp::CS6 => 48u8,
            Dscp::CS7 => 56u8,
            Dscp::AF11 => 10u8,
            Dscp::AF12 => 12u8,
            Dscp::AF13 => 14u8,
            Dscp::AF21 => 18u8,
            Dscp::AF22 => 20u8,
            Dscp::AF23 => 22u8,
            Dscp::AF31 => 26u8,
            Dscp::AF32 => 28u8,
            Dscp::AF33 => 30u8,
            Dscp::AF41 => 34u8,
            Dscp::AF42 => 36u8,
            Dscp::AF43 => 38u8,
            Dscp::EF => 46u8,
            Dscp::VoiceAdmit => 44u8,
            Dscp::LowerEffort => 1u8,
        }
    }

    /// Decodes `value`; only encodings of some variant are accepted.
    pub fn from_raw(value: u8) -> (r: Dscp)
        requires
            Dscp::decode(value) is Some,
        ensures
            Dscp::decode(value) == Some(r),
    {
        if value == 0u8 {
            Dscp::CS0
        } else if value == 8u8 {
            Dscp::CS1
        } else if value == 16u8 {
            Dscp::CS2
        } else if value == 24u8 {
            Dscp::CS3
        } else if value == 32u8 {
            Dscp::CS4
        } else if value == 40u8 {
            Dscp::CS5
        } else if value == 48u8 {
            Dscp::CS6
        } else if value == 56u8 {
            Dscp::CS7
        } else if value == 10u8 {
            Dscp::AF11
        } else if value == 12u8 {
            Dscp::AF12
        } else if value == 14u8 {
            Dscp::AF13
        } else if value == 18u8 {
            Dscp::AF21
        } else if value == 20u8 {
            Dscp::AF22
        } else if value == 22u8 {
            Dscp::AF23
        } else if value == 26u8 {
            Dscp::AF31
        } else if value == 28u8 {
            Dscp::AF32
        } else if value == 30u8 {
            Dscp::AF33
        } else if value == 34u8 {
            Dscp::AF41
        } else if value == 36u8 {
            Dscp::AF42
        } else if value == 38u8 {
            Dscp::AF43
        } else if value == 46u8 {
            Dscp::EF
        } else if value == 44u8 {
            Dscp::VoiceAdmit
        } else {
            Dscp::LowerEffort
        }
    }

    /// Decodes `value`, or gives `None` when it encodes no variant.
    pub fn try_from_raw(value: u8) -> (r: Option<Dscp>)
        ensures
            r == Dscp::decode(value),
    {
        if value == 0u8 {
            Some(Dscp::CS0)
        } else if value == 8u8 {
            Some(Dscp::CS1)
        } else if value == 16u8 {
            Some(Dscp::CS2)
        } else if value == 24u8 {
            Some(Dscp::CS3)
        } else if value == 32u8 {
            Some(Dscp::CS4)
        } else if value == 40u8 {
            Some(Dscp::CS5)
        } else if value == 48u8 {
            Some(Dscp::CS6)
        } else if value == 56u8 {
            Some(Dscp::CS7)
        } else if value == 10u8 {
            Some(Dscp::AF11)
        } else if value == 12u8 {
            Some(Dscp::AF12)
        } else if value == 14u8 {
            Some(Dscp::AF13)
        } else if value == 18u8 {
            Some(Dscp::AF21)
        } else if value == 20u8 {
            Some(Dscp::AF22)
        } else if value == 22u8 {
            Some(Dscp::AF23)
        } else if value == 26u8 {
            Some(Dscp::AF31)
        } else if value == 28u8 {
            Some(Dscp::AF32)
        } else if value == 30u8 {
            Some(Dscp::AF33)
        } else if value == 34u8 {
            Some(Dscp::AF41)
        } else if value == 36u8 {
            Some(Dscp::AF42)
        } else if value == 38u8 {
            Some(Dscp::AF43)
        } else if value == 46u8 {
            Some(Dscp::EF)
        } else if value == 44u8 {
            Some(Dscp::VoiceAdmit)
        } else if value == 1u8 {
            Some(Dscp::LowerEffort)
        } else {
            None
        }
    }

    /// Decoding the encoding of a variant gives that variant back.
    pub proof fn law_decode_raw_value(self)
        ensures
            Dscp::decode(self.raw_value()) == Some(self),
    {
    }

    /// Whatever decodes is encoded back to the same value.
    pub proof fn law_raw_value_decode(value: u8)
        requires
            Dscp::decode(value) is Some,
        ensures
            Dscp::decode(value).unwrap().raw_value() == value,
    {
    }
}

/// An enumeration of atomic operations.
#[derive(Clone, Copy, Debug, PartialEq, Eq, Structural)]
pub enum AtomicOp {
    Min,
    Max,
    Sum,
    Prod,
    Lor,
    Land,
    Bor,
    Band,
    Lxor,
    Bxor,
    AtomicWrite,
}

impl AtomicOp {
    /// The libfabric encoding of each variant.
    pub open spec fn raw_value(self) -> u32 {
        match self {
            AtomicOp::Min => FI_MIN,
            AtomicOp::Max => FI_MAX,
            AtomicOp::Sum => FI_SUM,
            AtomicOp::Prod => FI_PROD,
            AtomicOp::Lor => FI_LOR,
            AtomicOp::Land => FI_LAND,
            AtomicOp::Bor => FI_BOR,
            AtomicOp::Band => FI_BAND,
            AtomicOp::Lxor => FI_LXOR,
            AtomicOp::Bxor => FI_BXOR,
            AtomicOp::AtomicWrite => FI_ATOMIC_WRITE,
        }
    }

    /// The first variant, in declaration order, whose encoding is `value`.
    pub open spec fn decode(value: u32) -> Option<AtomicOp> {
        if value == FI_MIN {
            Some(AtomicOp::Min)
        } else if value == FI_MAX {
            Some(AtomicOp::Max)
        } else if value == FI_SUM {
            Some(AtomicOp::Sum)
        } else if value == FI_PROD {
            Some(AtomicOp::Prod)
        } else if value == FI_LOR {
            Some(AtomicOp::Lor)
        } else if value == FI_LAND {
            Some(AtomicOp::Land)
        } else if value == FI_BOR {
            Some(AtomicOp::Bor)
        } else if value == FI_BAND {
            Some(AtomicOp::Band)
        } else if value == FI_LXOR {
            Some(AtomicOp::Lxor)
        } else if value == FI_BXOR {
            Some(AtomicOp::Bxor)
        } else if value == FI_ATOMIC_WRITE {
            Some(AtomicOp::AtomicWrite)
        } else {
            None
        }
    }

    pub fn as_raw(&self) -> (r: u32)
        ensures
            r == self.raw_value(),
    {
        match self {
            AtomicOp::Min => FI_MIN,
            AtomicOp::Max => FI_MAX,
            AtomicOp::Sum => FI_SUM,
            AtomicOp::Prod => FI_PROD,
            AtomicOp::Lor => FI_LOR,
            AtomicOp::Land => FI_LAND,
            AtomicOp::Bor => FI_BOR,
            AtomicOp::Band => FI_BAND,
            AtomicOp::Lxor => FI_LXOR,
            AtomicOp::Bxor => FI_BXOR,
            AtomicOp::AtomicWrite => FI_ATOMIC_WRITE,
        }
    }

    /// Decodes `value`; only encodings of some variant are accepted.
    pub fn from_raw(value: u32) -> (r: AtomicOp)
        requires
            AtomicOp::decode(value) is Some,
        ensures
            AtomicOp::decode(value) == Some(r),
    {
        if value == FI_MIN {
            AtomicOp::Min
        } else if value == FI_MAX {
            AtomicOp::Max
        } else if value == FI_SUM {
            AtomicOp::Sum
        } else if value == FI_PROD {
            AtomicOp::Prod
        } else if value == FI_LOR {
            AtomicOp::Lor
        } else if value == FI_LAND {
            AtomicOp::Land
        } else if value == FI_BOR {
            AtomicOp::Bor
        } else if value == FI_BAND {
            AtomicOp::Band
        } else if value == FI_LXOR {
            AtomicOp::Lxor
        } else if value == FI_BXOR {
            AtomicOp::Bxor
        } else {
            AtomicOp::AtomicWrite
        }
    }

    /// Decodes `value`, or gives `None` when it encodes no variant.
    pub fn try_from_raw(value: u32) -> (r: Option<AtomicOp>)
        ensures
            r == AtomicOp::decode(value),
    {
        if value == FI_MIN {
            Some(AtomicOp::Min)
        } else if value == FI_MAX {
            Some(AtomicOp::Max)
        } else if value == FI_SUM {
            Some(AtomicOp::Sum)
        } else if value == FI_PROD {
            Some(AtomicOp::Prod)
        } else if value == FI_LOR {
            Some(AtomicOp::Lor)
        } else if value == FI_LAND {
            Some(AtomicOp::Land)
        } else if value == FI_BOR {
            Some(AtomicOp::Bor)
        } else if value == FI_BAND {
            Some(AtomicOp::Band)
        } else if value == FI_LXOR {
            Some(AtomicOp::Lxor)
        } else if value == FI_BXOR {
            Some(AtomicOp::Bxor)
        } else if value == FI_ATOMIC_WRITE {
            Some(AtomicOp::AtomicWrite)
        } else {
            None
        }
    }

    /// Decoding the encoding of a variant gives that variant back.
    pub proof fn law_decode_raw_value(self)
        ensures
            AtomicOp::decode(self.raw_value()) == Some(self),
    {
    }

    /// Whatever decodes is encoded back to the same value.
    pub proof fn law_raw_value_decode(value: u32)
        requires
            AtomicOp::decode(value) is Some,
        ensures
            AtomicOp::decode(value).unwrap().raw_value() == value,
    {
    }
}

/// An enumeration of fetch-and-operate atomic operations.
#[derive(Clone, Copy, Debug, PartialEq, Eq, Structural)]
pub enum FetchAtomicOp {
    Min,
    Max,
    Sum,
    Prod,
    Lor,
    Land,
    Bor,
    Band,
    Lxor,
    Bxor,
    AtomicRead,
    AtomicWrite,
}

impl FetchAtomicOp {
    /// The libfabric encoding of each variant.
    pub open spec fn raw_value(self) -> u32 {
        match self {
            FetchAtomicOp::Min => FI_MIN,
            FetchAtomicOp::Max => FI_MAX,
            FetchAtomicOp::Sum => FI_SUM,
            FetchAtomicOp::Prod => FI_PROD,
            FetchAtomicOp::Lor => FI_LOR,
            FetchAtomicOp::Land => FI_LAND,
            FetchAtomicOp::Bor => FI_BOR,
            FetchAtomicOp::Band => FI_BAND,
            FetchAtomicOp::Lxor => FI_LXOR,
            FetchAtomicOp::Bxor => FI_BXOR,
            FetchAtomicOp::AtomicRead => FI_ATOMIC_READ,
            FetchAtomicOp::AtomicWrite => FI_ATOMIC_WRITE,
        }
    }

    /// The first variant, in declaration order, whose encoding is `value`.
    pub open spec fn decode(value: u32) -> Option<FetchAtomicOp> {
        if value == FI_MIN {
            Some(FetchAtomicOp::Min)
        } else if value == FI_MAX {
            Some(FetchAtomicOp::Max)
        } else if value == FI_SUM {
            Some(FetchAtomicOp::Sum)
        } else if value == FI_PROD {
            Some(FetchAtomicOp::Prod)
        } else if value == FI_LOR {
            Some(FetchAtomicOp::Lor)
        } else if value == FI_LAND {
            Some(FetchAtomicOp::Land)
        } else if value == FI_BOR {
            Some(FetchAtomicOp::Bor)
        } else if value == FI_BAND {
            Some(FetchAtomicOp::Band)
        } else if value == FI_LXOR {
            Some(FetchAtomicOp::Lxor)
        } else if value == FI_BXOR {
            Some(FetchAtomicOp::Bxor)
        } else if value == FI_ATOMIC_READ {
            Some(FetchAtomicOp::AtomicRead)
        } else if value == FI_ATOMIC_WRITE {
            Some(FetchAtomicOp::AtomicWrite)
        } else {
            None
        }
    }

    pub fn as_raw(&self) -> (r: u32)
        ensures
            r == self.raw_value(),
    {
        match self {
            FetchAtomicOp::Min => FI_MIN,
            FetchAtomicOp::Max => FI_MAX,
            FetchAtomicOp::Sum => FI_SUM,
            FetchAtomicOp::Prod => FI_PROD,
            FetchAtomicOp::Lor => FI_LOR,
            FetchAtomicOp::Land => FI_LAND,
            FetchAtomicOp::Bor => FI_BOR,
            FetchAtomicOp::Band => FI_BAND,
            FetchAtomicOp::Lxor => FI_LXOR,
            FetchAtomicOp::Bxor => FI_BXOR,
            FetchAtomicOp::AtomicRead => FI_ATOMIC_READ,
            FetchAtomicOp::AtomicWrite => FI_ATOMIC_WRITE,
        }
    }

    /// Decodes `value`; only encodings of some variant are accepted.
    pub fn from_raw(value: u32) -> (r: FetchAtomicOp)
        requires
            FetchAtomicOp::decode(value) is Some,
        ensures
            FetchAtomicOp::decode(value) == Some(r),
    {
        if value == FI_MIN {
            FetchAtomicOp::Min
        } else if value == FI_MAX {
            FetchAtomicOp::Max
        } else if value == FI_SUM {
            FetchAtomicOp::Sum
        } else if value == FI_PROD {
            FetchAtomicOp::Prod
        } else if value == FI_LOR {
            FetchAtomicOp::Lor
        } else if value == FI_LAND {
            FetchAtomicOp::Land
        } else if value == FI_BOR {
            FetchAtomicOp::Bor
        } else if value == FI_BAND {
            FetchAtomicOp::Band
        } else if value == FI_LXOR {
            FetchAtomicOp::Lxor
        } else if value == FI_BXOR {
            FetchAtomicOp::Bxor
        } else if value == FI_ATOMIC_READ {
            FetchAtomicOp::AtomicRead
        } else {
            FetchAtomicOp::AtomicWrite
        }
    }

    /// Decodes `value`, or gives `None` when it encodes no variant.
    pub fn try_from_raw(value: u32) -> (r: Option<FetchAtomicOp>)
        ensures
            r == FetchAtomicOp::decode(value),
    {
        if value == FI_MIN {
            Some(FetchAtomicOp::Min)
        } else if value == FI_MAX {
            Some(FetchAtomicOp::Max)
        } else if value == FI_SUM {
            Some(FetchAtomicOp::Sum)
        } else if value == FI_PROD {
            Some(FetchAtomicOp::Prod)
        } else if value == FI_LOR {
            Some(FetchAtomicOp::Lor)
        } else if value == FI_LAND {
            Some(FetchAtomicOp::Land)
        } else if value == FI_BOR {
            Some(FetchAtomicOp::Bor)
        } else if value == FI_BAND {
            Some(FetchAtomicOp::Band)
        } else if value == FI_LXOR {
            Some(FetchAtomicOp::Lxor)
        } else if value == FI_BXOR {
            Some(FetchAtomicOp::Bxor)
        } else if value == FI_ATOMIC_READ {
            Some(FetchAtomicOp::AtomicRead)
        } else if value == FI_ATOMIC_WRITE {
            Some(FetchAtomicOp::AtomicWrite)
        } else {
            None
        }
    }

    /// Decoding the encoding of a variant gives that variant back.
    pub proof fn law_decode_raw_value(self)
        ensures
            FetchAtomicOp::decode(self.raw_value()) == Some(self),
    {
    }

    /// Whatever decodes is encoded back to the same value.
    pub proof fn law_raw_value_decode(value: u32)
        requires
            FetchAtomicOp::decode(value) is Some,
        ensures
            FetchAtomicOp::decode(value).unwrap().raw_value() == value,
    {
    }
}

/// An enumeration of compare-and-swap atomic operations.
#[derive(Clone, Copy, Debug, PartialEq, Eq, Structural)]
pub enum CompareAtomicOp {
    Cswap,
    CswapNe,
    CswapLe,
    CswapLt,
    CswapGe,
    CswapGt,
    Mswap,
}

impl CompareAtomicOp {
    /// The libfabric encoding of each variant.
    pub open spec fn raw_value(self) -> u32 {
        match self {
            CompareAtomicOp::Cswap => FI_CSWAP,
            CompareAtomicOp::CswapNe => FI_CSWAP_NE,
            CompareAtomicOp::CswapLe => FI_CSWAP_LE,
            CompareAtomicOp::CswapLt => FI_CSWAP_LT,
            CompareAtomicOp::CswapGe => FI_CSWAP_GE,
            CompareAtomicOp::CswapGt => FI_CSWAP_GT,
            CompareAtomicOp::Mswap => FI_MSWAP,
        }
    }

    /// The first variant, in declaration order, whose encoding is `value`.
    pub open spec fn decode(value: u32) -> Option<CompareAtomicOp> {
        if value == FI_CSWAP {
            Some(CompareAtomicOp::Cswap)
        } else if value == FI_CSWAP_NE {
            Some(CompareAtomicOp::CswapNe)
        } else if value == FI_CSWAP_LE {
            Some(CompareAtomicOp::CswapLe)
        } else if value == FI_CSWAP_LT {
            Some(CompareAtomicOp::CswapLt)
        } else if value == FI_CSWAP_GE {
            Some(CompareAtomicOp::CswapGe)
        } else if value == FI_CSWAP_GT {
            Some(CompareAtomicOp::CswapGt)
        } else if value == FI_MSWAP {
            Some(CompareAtomicOp::Mswap)
        } else {
            None
        }
    }

    pub fn as_raw(&self) -> (r: u32)
        ensures
            r == self.raw_value(),
    {
        match self {
            CompareAtomicOp::Cswap => FI_CSWAP,
            CompareAtomicOp::CswapNe => FI_CSWAP_NE,
            CompareAtomicOp::CswapLe => FI_CSWAP_LE,
            CompareAtomicOp::CswapLt => FI_CSWAP_LT,
            CompareAtomicOp::CswapGe => FI_CSWAP_GE,
            CompareAtomicOp::CswapGt => FI_CSWAP_GT,
            CompareAtomicOp::Mswap => FI_MSWAP,
        }
    }

    /// Decodes `value`; only encodings of some variant are accepted.
    pub fn from_raw(value: u32) -> (r: CompareAtomicOp)
        requires
            CompareAtomicOp::decode(value) is Some,
        ensures
            CompareAtomicOp::decode(value) == Some(r),
    {
        if value == FI_CSWAP {
            CompareAtomicOp::Cswap
        } else if value == FI_CSWAP_NE {
            CompareAtomicOp::CswapNe
        } else if value == FI_CSWAP_LE {
            CompareAtomicOp::CswapLe
        } else if value == FI_CSWAP_LT {
            CompareAtomicOp::CswapLt
        } else if value == FI_CSWAP_GE {
            CompareAtomicOp::CswapGe
        } else if value == FI_CSWAP_GT {
            CompareAtomicOp::CswapGt
        } else {
            CompareAtomicOp::Mswap
        }
    }

    /// Decodes `value`, or gives `None` when it encodes no variant.
    pub fn try_from_raw(value: u32) -> (r: Option<CompareAtomicOp>)
        ensures
            r == CompareAtomicOp::decode(value),
    {
        if value == FI_CSWAP {
            Some(CompareAtomicOp::Cswap)
        } else if value == FI_CSWAP_NE {
            Some(CompareAtomicOp::CswapNe)
        } else if value == FI_CSWAP_LE {
            Some(CompareAtomicOp::CswapLe)
        } else if value == FI_CSWAP_LT {
            Some(CompareAtomicOp::CswapLt)
        } else if value == FI_CSWAP_GE {
            Some(CompareAtomicOp::CswapGe)
        } else if value == FI_CSWAP_GT {
            Some(CompareAtomicOp::CswapGt)
        } else if value == FI_MSWAP {
            Some(CompareAtomicOp::Mswap)
        } else {
            None
        }
    }

    /// Decoding the encoding of a variant gives that variant back.
    pub proof fn law_decode_raw_value(self)
        ensures
            CompareAtomicOp::decode(self.raw_value()) == Some(self),
    {
    }

    /// Whatever decodes is encoded back to the same value.
    pub proof fn law_raw_value_decode(value: u32)
        requires
            CompareAtomicOp::decode(value) is Some,
        ensures
            CompareAtomicOp::decode(value).unwrap().raw_value() == value,
    {
    }
}

/// An enumeration of collective atomic operations. Can be the operation of a reduce for example
#[derive(Clone, Copy, Debug, PartialEq, Eq, Structural)]
pub enum CollAtomicOp {
    Min,
    Max,
    Sum,
    Prod,
    Lor,
    Land,
    Bor,
    Band,
    Lxor,
    Bxor,
    AtomicWrite,
    AtomicRead,
    Noop,
}

impl CollAtomicOp {
    /// The libfabric encoding of each variant.
    pub open spec fn raw_value(self) -> u32 {
        match self {
            CollAtomicOp::Min => FI_MIN,
            CollAtomicOp::Max => FI_MAX,
            CollAtomicOp::Sum => FI_SUM,
            CollAtomicOp::Prod => FI_PROD,
            CollAtomicOp::Lor => FI_LOR,
            CollAtomicOp::Land => FI_LAND,
            CollAtomicOp::Bor => FI_BOR,
            CollAtomicOp::Band => FI_BAND,
            CollAtomicOp::Lxor => FI_LXOR,
            CollAtomicOp::Bxor => FI_BXOR,
            CollAtomicOp::AtomicWrite => FI_ATOMIC_WRITE,
            CollAtomicOp::AtomicRead => FI_ATOMIC_READ,
            CollAtomicOp::Noop => FI_NOOP,
        }
    }

    /// The first variant, in declaration order, whose encoding is `value`.
    pub open spec fn decode(value: u32) -> Option<CollAtomicOp> {
        if value == FI_MIN {
            Some(CollAtomicOp::Min)
        } else if value == FI_MAX {
            Some(CollAtomicOp::Max)
        } else if value == FI_SUM {
            Some(CollAtomicOp::Sum)
        } else if value == FI_PROD {
            Some(CollAtomicOp::Prod)
        } else if value == FI_LOR {
            Some(CollAtomicOp::Lor)
        } else if value == FI_LAND {
            Some(CollAtomicOp::Land)
        } else if value == FI_BOR {
            Some(CollAtomicOp::Bor)
        } else if value == FI_BAND {
            Some(CollAtomicOp::Band)
        } else if value == FI_LXOR {
            Some(CollAtomicOp::Lxor)
        } else if value == FI_BXOR {
            Some(CollAtomicOp::Bxor)
        } else if value == FI_ATOMIC_WRITE {
            Some(CollAtomicOp::AtomicWrite)
        } else if value == FI_ATOMIC_READ {
            Some(CollAtomicOp::AtomicRead)
        } else if value == FI_NOOP {
            Some(CollAtomicOp::Noop)
        } else {
            None
        }
    }

    pub fn as_raw(&self) -> (r: u32)
        ensures
            r == self.raw_value(),
    {
        match self {
            CollAtomicOp::Min => FI_MIN,
            CollAtomicOp::Max => FI_MAX,
            CollAtomicOp::Sum => FI_SUM,
            CollAtomicOp::Prod => FI_PROD,
            CollAtomicOp::Lor => FI_LOR,
            CollAtomicOp::Land => FI_LAND,
            CollAtomicOp::Bor => FI_BOR,
            CollAtomicOp::Band => FI_BAND,
            CollAtomicOp::Lxor => FI_LXOR,
            CollAtomicOp::Bxor => FI_BXOR,
            CollAtomicOp::AtomicWrite => FI_ATOMIC_WRITE,
            CollAtomicOp::AtomicRead => FI_ATOMIC_READ,
            CollAtomicOp::Noop => FI_NOOP,
        }
    }

    /// Decodes `value`; only encodings of some variant are accepted.
    pub fn from_raw(value: u32) -> (r: CollAtomicOp)
        requires
            CollAtomicOp::decode(value) is Some,
        ensures
            CollAtomicOp::decode(value) == Some(r),
    {
        if value == FI_MIN {
            CollAtomicOp::Min
        } else if value == FI_MAX {
            CollAtomicOp::Max
        } else if value == FI_SUM {
            CollAtomicOp::Sum
        } else if value == FI_PROD {
            CollAtomicOp::Prod
        } else if value == FI_LOR {
            CollAtomicOp::Lor
        } else if value == FI_LAND {
            CollAtomicOp::Land
        } else if value == FI_BOR {
            CollAtomicOp::Bor
        } else if value == FI_BAND {
            CollAtomicOp::Band
        } else if value == FI_LXOR {
            CollAtomicOp::Lxor
        } else if value == FI_BXOR {
            CollAtomicOp::Bxor
        } else if value == FI_ATOMIC_WRITE {
            CollAtomicOp::AtomicWrite
        } else if value == FI_ATOMIC_READ {
            CollAtomicOp::AtomicRead
        } else {
            CollAtomicOp::Noop
        }
    }

    /// Decodes `value`, or gives `None` when it encodes no variant.
    pub fn try_from_raw(value: u32) -> (r: Option<CollAtomicOp>)
        ensures
            r == CollAtomicOp::decode(value),
    {
        if value == FI_MIN {
            Some(CollAtomicOp::Min)
        } else if value == FI_MAX {
            Some(CollAtomicOp::Max)
        } else if value == FI_SUM {
            Some(CollAtomicOp::Sum)
        } else if value == FI_PROD {
            Some(CollAtomicOp::Prod)
        } else if value == FI_LOR {
            Some(CollAtomicOp::Lor)
        } else if value == FI_LAND {
            Some(CollAtomicOp::Land)
        } else if value == FI_BOR {
            Some(CollAtomicOp::Bor)
        } else if value == FI_BAND {
            Some(CollAtomicOp::Band)
        } else if value == FI_LXOR {
            Some(CollAtomicOp::Lxor)
        } else if value == FI_BXOR {
            Some(CollAtomicOp::Bxor)
        } else if value == FI_ATOMIC_WRITE {
            Some(CollAtomicOp::AtomicWrite)
        } else if value == FI_ATOMIC_READ {
            Some(CollAtomicOp::AtomicRead)
        } else if value == FI_NOOP {
            Some(CollAtomicOp::Noop)
        } else {
            None
        }
    }

    /// Decoding the encoding of a variant gives that variant back.
    pub proof fn law_decode_raw_value(self)
        ensures
            CollAtomicOp::decode(self.raw_value()) == Some(self),
    {
    }

    /// Whatever decodes is encoded back to the same value.
    pub proof fn law_raw_value_decode(value: u32)
        requires
            CollAtomicOp::decode(value) is Some,
        ensures
            CollAtomicOp::decode(value).unwrap().raw_value() == value,
    {
    }
}

/// An enumeration of collective operations.
#[derive(Clone, Copy, Debug, PartialEq, Eq, Structural)]
pub enum CollectiveOp {
    Barrier,
    Broadcast,
    AllToAll,
    AllReduce,
    AllGather,
    ReduceScatter,
    Reduce,
    Scatter,
    Gather,
}

impl CollectiveOp {
    /// The libfabric encoding of each variant.
    pub open spec fn raw_value(self) -> u32 {
        match self {
            CollectiveOp::Barrier => FI_BARRIER,
            CollectiveOp::Broadcast => FI_BROADCAST,
            CollectiveOp::AllToAll => FI_ALLTOALL,
            CollectiveOp::AllReduce => FI_ALLREDUCE,
            CollectiveOp::AllGather => FI_ALLGATHER,
            CollectiveOp::ReduceScatter => FI_REDUCE_SCATTER,
            CollectiveOp::Reduce => FI_REDUCE,
            CollectiveOp::Scatter => FI_SCATTER,
            CollectiveOp::Gather => FI_GATHER,
        }
    }

    /// The first variant, in declaration order, whose encoding is `value`.
    pub open spec fn decode(value: u32) -> Option<CollectiveOp> {
        if value == FI_BARRIER {
            Some(CollectiveOp::Barrier)
        } else if value == FI_BROADCAST {
            Some(CollectiveOp::Broadcast)
        } else if value == FI_ALLTOALL {
            Some(CollectiveOp::AllToAll)
        } else if value == FI_ALLREDUCE {
            Some(CollectiveOp::AllReduce)
        } else if value == FI_ALLGATHER {
            Some(CollectiveOp::AllGather)
        } else if value == FI_REDUCE_SCATTER {
            Some(CollectiveOp::ReduceScatter)
        } else if value == FI_REDUCE {
            Some(CollectiveOp::Reduce)
        } else if value == FI_SCATTER {
            Some(CollectiveOp::Scatter)
        } else if value == FI_GATHER {
            Some(CollectiveOp::Gather)
        } else {
            None
        }
    }

    pub fn as_raw(&self) -> (r: u32)
        ensures
            r == self.raw_value(),
    {
        match self {
            CollectiveOp::Barrier => FI_BARRIER,
            CollectiveOp::Broadcast => FI_BROADCAST,
            CollectiveOp::AllToAll => FI_ALLTOALL,
            CollectiveOp::AllReduce => FI_ALLREDUCE,
            CollectiveOp::AllGather => FI_ALLGATHER,
            CollectiveOp::ReduceScatter => FI_REDUCE_SCATTER,
            CollectiveOp::Reduce => FI_REDUCE,
            CollectiveOp::Scatter => FI_SCATTER,
            CollectiveOp::Gather => FI_GATHER,
        }
    }

    /// Decodes `value`; only encodings of some variant are accepted.
    pub fn from_raw(value: u32) -> (r: CollectiveOp)
        requires
            CollectiveOp::decode(value) is Some,
        ensures
            CollectiveOp::decode(value) == Some(r),
    {
        if value == FI_BARRIER {
            CollectiveOp::Barrier
        } else if value == FI_BROADCAST {
            CollectiveOp::Broadcast
        } else if value == FI_ALLTOALL {
            CollectiveOp::AllToAll
        } else if value == FI_ALLREDUCE {
            CollectiveOp::AllReduce
        } else if value == FI_ALLGATHER {
            CollectiveOp::AllGather
        } else if value == FI_REDUCE_SCATTER {
            CollectiveOp::ReduceScatter
        } else if value == FI_REDUCE {
            CollectiveOp::Reduce
        } else if value == FI_SCATTER {
            CollectiveOp::Scatter
        } else {
            CollectiveOp::Gather
        }
    }

    /// Decodes `value`, or gives `None` when it encodes no variant.
    pub fn try_from_raw(value: u32) -> (r: Option<CollectiveOp>)
        ensures
            r == CollectiveOp::decode(value),
    {
        if value == FI_BARRIER {
            Some(CollectiveOp::Barrier)
        } else if value == FI_BROADCAST {
            Some(CollectiveOp::Broadcast)
        } else if value == FI_ALLTOALL {
            Some(CollectiveOp::AllToAll)
        } else if value == FI_ALLREDUCE {
            Some(CollectiveOp::AllReduce)
        } else if value == FI_ALLGATHER {
            Some(CollectiveOp::AllGather)
        } else if value == FI_REDUCE_SCATTER {
            Some(CollectiveOp::ReduceScatter)
        } else if value == FI_REDUCE {
            Some(CollectiveOp::Reduce)
        } else if value == FI_SCATTER {
            Some(CollectiveOp::Scatter)
        } else if value == FI_GATHER {
            Some(CollectiveOp::Gather)
        } else {
            None
        }
    }

    /// Decoding the encoding of a variant gives that variant back.
    pub proof fn law_decode_raw_value(self)
        ensures
            CollectiveOp::decode(self.raw_value()) == Some(self),
    {
    }

    /// Whatever decodes is encoded back to the same value.
    pub proof fn law_raw_value_decode(value: u32)
        requires
            CollectiveOp::decode(value) is Some,
        ensures
            CollectiveOp::decode(value).unwrap().raw_value() == value,
    {
    }
}

/// An enumeration of completion queue formats.
#[derive(Clone, Copy, Debug, PartialEq, Eq, Structural)]
pub enum CqFormat {
    Unspec,
    Context,
    Msg,
    Data,
    Tagged,
}

impl CqFormat {
    /// The libfabric encoding of each variant.
    pub open spec fn raw_value(self) -> u32 {
        match self {
            CqFormat::Unspec => FI_CQ_FORMAT_UNSPEC,
            CqFormat::Context => FI_CQ_FORMAT_CONTEXT,
            CqFormat::Msg => FI_CQ_FORMAT_MSG,
            CqFormat::Data => FI_CQ_FORMAT_DATA,
            CqFormat::Tagged => FI_CQ_FORMAT_TAGGED,
        }
    }

    /// The first variant, in declaration order, whose encoding is `value`.
    pub open spec fn decode(value: u32) -> Option<CqFormat> {
        if value == FI_CQ_FORMAT_UNSPEC {
            Some(CqFormat::Unspec)
        } else if value == FI_CQ_FORMAT_CONTEXT {
            Some(CqFormat::Context)
        } else if value == FI_CQ_FORMAT_MSG {
            Some(CqFormat::Msg)
        } else if value == FI_CQ_FORMAT_DATA {
            Some(CqFormat::Data)
        } else if value == FI_CQ_FORMAT_TAGGED {
            Some(CqFormat::Tagged)
        } else {
            None
        }
    }

    pub fn as_raw(&self) -> (r: u32)
        ensures
            r == self.raw_value(),
    {
        match self {
            CqFormat::Unspec => FI_CQ_FORMAT_UNSPEC,
            CqFormat::Context => FI_CQ_FORMAT_CONTEXT,
            CqFormat::Msg => FI_CQ_FORMAT_MSG,
            CqFormat::Data => FI_CQ_FORMAT_DATA,
            CqFormat::Tagged => FI_CQ_FORMAT_TAGGED,
        }
    }

    /// Decodes `value`; only encodings of some variant are accepted.
    pub fn from_raw(value: u32) -> (r: CqFormat)
        requires
            CqFormat::decode(value) is Some,
        ensures
            CqFormat::decode(value) == Some(r),
    {
        if value == FI_CQ_FORMAT_UNSPEC {
            CqFormat::Unspec
        } else if value == FI_CQ_FORMAT_CONTEXT {
            CqFormat::Context
        } else if value == FI_CQ_FORMAT_MSG {
            CqFormat::Msg
        } else if value == FI_CQ_FORMAT_DATA {
            CqFormat::Data
        } else {
            CqFormat::Tagged
        }
    }

    /// Decodes `value`, or gives `None` when it encodes no variant.
    pub fn try_from_raw(value: u32) -> (r: Option<CqFormat>)
        ensures
            r == CqFormat::decode(value),
    {
        if value == FI_CQ_FORMAT_UNSPEC {
            Some(CqFormat::Unspec)
        } else if value == FI_CQ_FORMAT_CONTEXT {
            Some(CqFormat::Context)
        } else if value == FI_CQ_FORMAT_MSG {
            Some(CqFormat::Msg)
        } else if value == FI_CQ_FORMAT_DATA {
            Some(CqFormat::Data)
        } else if value == FI_CQ_FORMAT_TAGGED {
            Some(CqFormat::Tagged)
        } else {
            None
        }
    }

    /// Decoding the encoding of a variant gives that variant back.
    pub proof fn law_decode_raw_value(self)
        ensures
            CqFormat::decode(self.raw_value()) == Some(self),
    {
    }

    /// Whatever decodes is encoded back to the same value.
    pub proof fn law_raw_value_decode(value: u32)
        requires
            CqFormat::decode(value) is Some,
        ensures
            CqFormat::decode(value).unwrap().raw_value() == value,
    {
    }
}

/// An enumeration of primitive data types.
/// Corresponds to `fi_datatype` in libfabric.
#[derive(Clone, Copy, Debug, PartialEq, Eq, Structural)]
pub enum DataType {
    Int8,
    Uint8,
    Int16,
    Uint16,
    Int32,
    Uint32,
    Int64,
    Uint64,
    Float,
    Double,
    FloatComplex,
    DoubleComplex,
    LongDouble,
    LongDoubleComplex,
    DatatypeLast,
    Int128,
    Uint28,
    Void,
}

impl DataType {
    /// The libfabric encoding of each variant.
    pub open spec fn raw_value(self) -> u32 {
        match self {
            DataType::Int8 => FI_INT8,
            DataType::Uint8 => FI_UINT8,
            DataType::Int16 => FI_INT16,
            DataType::Uint16 => FI_UINT16,
            DataType::Int32 => FI_INT32,
            DataType::Uint32 => FI_UINT32,
            DataType::Int64 => FI_INT64,
            DataType::Uint64 => FI_UINT64,
            DataType::Float => FI_FLOAT,
            DataType::Double => FI_DOUBLE,
            DataType::FloatComplex => FI_FLOAT_COMPLEX,
            DataType::DoubleComplex => FI_DOUBLE_COMPLEX,
            DataType::LongDouble => FI_LONG_DOUBLE,
            DataType::LongDoubleComplex => FI_LONG_DOUBLE_COMPLEX,
            DataType::DatatypeLast => FI_DATATYPE_LAST,
            DataType::Int128 => FI_INT128,
            DataType::Uint28 => FI_UINT128,
            DataType::Void => FI_VOID,
        }
    }

    /// The first variant, in declaration order, whose encoding is `value`.
    pub open spec fn decode(value: u32) -> Option<DataType> {
        if value == FI_INT8 {
            Some(DataType::Int8)
        } else if value == FI_UINT8 {
            Some(DataType::Uint8)
        } else if value == FI_INT16 {
            Some(DataType::Int16)
        } else if value == FI_UINT16 {
            Some(DataType::Uint16)
        } else if value == FI_INT32 {
            Some(DataType::Int32)
        } else if value == FI_UINT32 {
            Some(DataType::Uint32)
        } else if value == FI_INT64 {
            Some(DataType::Int64)
        } else if value == FI_UINT64 {
            Some(DataType::Uint64)
        } else if value == FI_FLOAT {
            Some(DataType::Float)
        } else if value == FI_DOUBLE {
            Some(DataType::Double)
        } else if value == FI_FLOAT_COMPLEX {
            Some(DataType::FloatComplex)
        } else if value == FI_DOUBLE_COMPLEX {
            Some(DataType::DoubleComplex)
        } else if value == FI_LONG_DOUBLE {
            Some(DataType::LongDouble)
        } else if value == FI_LONG_DOUBLE_COMPLEX {
            Some(DataType::LongDoubleComplex)
        } else if value == FI_DATATYPE_LAST {
            Some(DataType::DatatypeLast)
        } else if value == FI_INT128 {
            Some(DataType::Int128)
        } else if value == FI_UINT128 {
            Some(DataType::Uint28)
        } else if value == FI_VOID {
            Some(DataType::Void)
        } else {
            None
        }
    }

    pub fn as_raw(&self) -> (r: u32)
        ensures
            r == self.raw_value(),
    {
        match self {
            DataType::Int8 => FI_INT8,
            DataType::Uint8 => FI_UINT8,
            DataType::Int16 => FI_INT16,
            DataType::Uint16 => FI_UINT16,
            DataType::Int32 => FI_INT32,
            DataType::Uint32 => FI_UINT32,
            DataType::Int64 => FI_INT64,
            DataType::Uint64 => FI_UINT64,
            DataType::Float => FI_FLOAT,
            DataType::Double => FI_DOUBLE,
            DataType::FloatComplex => FI_FLOAT_COMPLEX,
            DataType::DoubleComplex => FI_DOUBLE_COMPLEX,
            DataType::LongDouble => FI_LONG_DOUBLE,
            DataType::LongDoubleComplex => FI_LONG_DOUBLE_COMPLEX,
            DataType::DatatypeLast => FI_DATATYPE_LAST,
            DataType::Int128 => FI_INT128,
            DataType::Uint28 => FI_UINT128,
            DataType::Void => FI_VOID,
        }
    }

    /// Decodes `value`; only encodings of some variant are accepted.
    pub fn from_raw(value: u32) -> (r: DataType)
        requires
            DataType::decode(value) is Some,
        ensures
            DataType::decode(value) == Some(r),
    {
        if value == FI_INT8 {
            DataType::Int8
        } else if value == FI_UINT8 {
            DataType::Uint8
        } else if value == FI_INT16 {
            DataType::Int16
        } else if value == FI_UINT16 {
            DataType::Uint16
        } else if value == FI_INT32 {
            DataType::Int32
        } else if value == FI_UINT32 {
            DataType::Uint32
        } else if value == FI_INT64 {
            DataType::Int64
        } else if value == FI_UINT64 {
            DataType::Uint64
        } else if value == FI_FLOAT {
            DataType::Float
        } else if value == FI_DOUBLE {
            DataType::Double
        } else if value == FI_FLOAT_COMPLEX {
            DataType::FloatComplex
        } else if value == FI_DOUBLE_COMPLEX {
            DataType::DoubleComplex
        } else if value == FI_LONG_DOUBLE {
            DataType::LongDouble
        } else if value == FI_LONG_DOUBLE_COMPLEX {
            DataType::LongDoubleComplex
        } else if value == FI_DATATYPE_LAST {
            DataType::DatatypeLast
        } else if value == FI_INT128 {
            DataType::Int128
        } else if value == FI_UINT128 {
            DataType::Uint28
        } else {
            DataType::Void
        }
    }

    /// Decodes `value`, or gives `None` when it encodes no variant.
    pub fn try_from_raw(value: u32) -> (r: Option<DataType>)
        ensures
            r == DataType::decode(value),
    {
        if value == FI_INT8 {
            Some(DataType::Int8)
        } else if value == FI_UINT8 {
            Some(DataType::Uint8)
        } else if value == FI_INT16 {
            Some(DataType::Int16)
        } else if value == FI_UINT16 {
            Some(DataType::Uint16)
        } else if value == FI_INT32 {
            Some(DataType::Int32)
        } else if value == FI_UINT32 {
            Some(DataType::Uint32)
        } else if value == FI_INT64 {
            Some(DataType::Int64)
        } else if value == FI_UINT64 {
            Some(DataType::Uint64)
        } else if value == FI_FLOAT {
            Some(DataType::Float)
        } else if value == FI_DOUBLE {
            Some(DataType::Double)
        } else if value == FI_FLOAT_COMPLEX {
            Some(DataType::FloatComplex)
        } else if value == FI_DOUBLE_COMPLEX {
            Some(DataType::DoubleComplex)
        } else if value == FI_LONG_DOUBLE {
            Some(DataType::LongDouble)
        } else if value == FI_LONG_DOUBLE_COMPLEX {
            Some(DataType::LongDoubleComplex)
        } else if value == FI_DATATYPE_LAST {
            Some(DataType::DatatypeLast)
        } else if value == FI_INT128 {
            Some(DataType::Int128)
        } else if value == FI_UINT128 {
            Some(DataType::Uint28)
        } else if value == FI_VOID {
            Some(DataType::Void)
        } else {
            None
        }
    }

    /// Decoding the encoding of a variant gives that variant back, for every variant
    /// but `Int128` (same encoding as `DatatypeLast`).
    pub proof fn law_decode_raw_value(self)
        requires
            self != DataType::Int128,
        ensures
            DataType::decode(self.raw_value()) == Some(self),
    {
    }

    /// Whatever decodes is encoded back to the same value.
    pub proof fn law_raw_value_decode(value: u32)
        requires
            DataType::decode(value) is Some,
        ensures
            DataType::decode(value).unwrap().raw_value() == value,
    {
    }
}

/// An enumeration of type.
/// Corresponds to `fi_type` in libfabric.
#[derive(Clone, Copy, Debug, PartialEq, Eq, Structural)]
pub enum Type {
    Info,
    EpType,
    Caps,
    OpFlags,
    AddrFormat,
    TxAttr,
    RxAttr,
    EpAttr,
    DomainAttr,
    FabricAttr,
    Threading,
    Progress,
    Protocol,
    MsgOrder,
    Mode,
    AvType,
    AtomicType,
    AtomicOp,
    Version,
    EqEvent,
    CqEventFlags,
    MrMode,
    OpType,
    Fid,
    CollectiveOp,
    HmemIface,
    CqFormat,
    LogLevel,
    LogSubsys,
    AvAttr,
    CqAttr,
    MrAttr,
    CntrAttr,
    CqErrEntry,
}

impl Type {
    /// The libfabric encoding of each variant.
    pub open spec fn raw_value(self) -> u32 {
        match self {
            Type::Info => FI_TYPE_INFO,
            Type::EpType => FI_TYPE_EP_TYPE,
            Type::Caps => FI_TYPE_CAPS,
            Type::OpFlags => FI_TYPE_OP_FLAGS,
            Type::AddrFormat => FI_TYPE_ADDR_FORMAT,
            Type::TxAttr => FI_TYPE_TX_ATTR,
            Type::RxAttr => FI_TYPE_RX_ATTR,
            Type::EpAttr => FI_TYPE_EP_ATTR,
            Type::DomainAttr => FI_TYPE_DOMAIN_ATTR,
            Type::FabricAttr => FI_TYPE_FABRIC_ATTR,
            Type::Threading => FI_TYPE_THREADING,
            Type::Progress => FI_TYPE_PROGRESS,
            Type::Protocol => FI_TYPE_PROTOCOL,
            Type::MsgOrder => FI_TYPE_MSG_ORDER,
            Type::Mode => FI_TYPE_MODE,
            Type::AvType => FI_TYPE_AV_TYPE,
            Type::AtomicType => FI_TYPE_ATOMIC_TYPE,
            Type::AtomicOp => FI_TYPE_ATOMIC_OP,
            Type::Version => FI_TYPE_VERSION,
            Type::EqEvent => FI_TYPE_EQ_EVENT,
            Type::CqEventFlags => FI_TYPE_CQ_EVENT_FLAGS,
            Type::MrMode => FI_TYPE_MR_MODE,
            Type::OpType => FI_TYPE_OP_TYPE,
            Type::Fid => FI_TYPE_FID,
            Type::CollectiveOp => FI_TYPE_COLLECTIVE_OP,
            Type::HmemIface => FI_TYPE_HMEM_IFACE,
            Type::CqFormat => FI_TYPE_CQ_FORMAT,
            Type::LogLevel => FI_TYPE_LOG_LEVEL,
            Type::LogSubsys => FI_TYPE_LOG_SUBSYS,
            Type::AvAttr => FI_TYPE_AV_ATTR,
            Type::CqAttr => FI_TYPE_CQ_ATTR,
            Type::MrAttr => FI_TYPE_MR_ATTR,
            Type::CntrAttr => FI_TYPE_CNTR_ATTR,
            Type::CqErrEntry => FI_TYPE_CQ_ERR_ENTRY,
        }
    }

    /// The first variant, in declaration order, whose encoding is `value`.
    pub open spec fn decode(value: u32) -> Option<Type> {
        if value == FI_TYPE_INFO {
            Some(Type::Info)
        } else if value == FI_TYPE_EP_TYPE {
            Some(Type::EpType)
        } else if value == FI_TYPE_CAPS {
            Some(Type::Caps)
        } else if value == FI_TYPE_OP_FLAGS {
            Some(Type::OpFlags)
        } else if value == FI_TYPE_ADDR_FORMAT {
            Some(Type::AddrFormat)
        } else if value == FI_TYPE_TX_ATTR {
            Some(Type::TxAttr)
        } else if value == FI_TYPE_RX_ATTR {
            Some(Type::RxAttr)
        } else if value == FI_TYPE_EP_ATTR {
            Some(Type::EpAttr)
        } else if value == FI_TYPE_DOMAIN_ATTR {
            Some(Type::DomainAttr)
        } else if value == FI_TYPE_FABRIC_ATTR {
            Some(Type::FabricAttr)
        } else if value == FI_TYPE_THREADING {
            Some(Type::Threading)
        } else if value == FI_TYPE_PROGRESS {
            Some(Type::Progress)
        } else if value == FI_TYPE_PROTOCOL {
            Some(Type::Protocol)
        } else if value == FI_TYPE_MSG_ORDER {
            Some(Type::MsgOrder)
        } else if value == FI_TYPE_MODE {
            Some(Type::Mode)
        } else if value == FI_TYPE_AV_TYPE {
            Some(Type::AvType)
        } else if value == FI_TYPE_ATOMIC_TYPE {
            Some(Type::AtomicType)
        } else if value == FI_TYPE_ATOMIC_OP {
            Some(Type::AtomicOp)
        } else if value == FI_TYPE_VERSION {
            Some(Type::Version)
        } else if value == FI_TYPE_EQ_EVENT {
            Some(Type::EqEvent)
        } else if value == FI_TYPE_CQ_EVENT_FLAGS {
            Some(Type::CqEventFlags)
        } else if value == FI_TYPE_MR_MODE {
            Some(Type::MrMode)
        } else if value == FI_TYPE_OP_TYPE {
            Some(Type::OpType)
        } else if value == FI_TYPE_FID {
            Some(Type::Fid)
        } else if value == FI_TYPE_COLLECTIVE_OP {
            Some(Type::CollectiveOp)
        } else if value == FI_TYPE_HMEM_IFACE {
            Some(Type::HmemIface)
        } else if value == FI_TYPE_CQ_FORMAT {
            Some(Type::CqFormat)
        } else if value == FI_TYPE_LOG_LEVEL {
            Some(Type::LogLevel)
        } else if value == FI_TYPE_LOG_SUBSYS {
            Some(Type::LogSubsys)
        } else if value == FI_TYPE_AV_ATTR {
            Some(Type::AvAttr)
        } else if value == FI_TYPE_CQ_ATTR {
            Some(Type::CqAttr)
        } else if value == FI_TYPE_MR_ATTR {
            Some(Type::MrAttr)
        } else if value == FI_TYPE_CNTR_ATTR {
            Some(Type::CntrAttr)
        } else if value == FI_TYPE_CQ_ERR_ENTRY {
            Some(Type::CqErrEntry)
        } else {
            None
        }
    }

    pub fn as_raw(&self) -> (r: u32)
        ensures
            r == self.raw_value(),
    {
        match self {
            Type::Info => FI_TYPE_INFO,
            Type::EpType => FI_TYPE_EP_TYPE,
            Type::Caps => FI_TYPE_CAPS,
            Type::OpFlags => FI_TYPE_OP_FLAGS,
            Type::AddrFormat => FI_TYPE_ADDR_FORMAT,
            Type::TxAttr => FI_TYPE_TX_ATTR,
            Type::RxAttr => FI_TYPE_RX_ATTR,
            Type::EpAttr => FI_TYPE_EP_ATTR,
            Type::DomainAttr => FI_TYPE_DOMAIN_ATTR,
            Type::FabricAttr => FI_TYPE_FABRIC_ATTR,
            Type::Threading => FI_TYPE_THREADING,
            Type::Progress => FI_TYPE_PROGRESS,
            Type::Protocol => FI_TYPE_PROTOCOL,
            Type::MsgOrder => FI_TYPE_MSG_ORDER,
            Type::Mode => FI_TYPE_MODE,
            Type::AvType => FI_TYPE_AV_TYPE,
            Type::AtomicType => FI_TYPE_ATOMIC_TYPE,
            Type::AtomicOp => FI_TYPE_ATOMIC_OP,
            Type::Version => FI_TYPE_VERSION,
            Type::EqEvent => FI_TYPE_EQ_EVENT,
            Type::CqEventFlags => FI_TYPE_CQ_EVENT_FLAGS,
            Type::MrMode => FI_TYPE_MR_MODE,
            Type::OpType => FI_TYPE_OP_TYPE,
            Type::Fid => FI_TYPE_FID,
            Type::CollectiveOp => FI_TYPE_COLLECTIVE_OP,
            Type::HmemIface => FI_TYPE_HMEM_IFACE,
            Type::CqFormat => FI_TYPE_CQ_FORMAT,
            Type::LogLevel => FI_TYPE_LOG_LEVEL,
            Type::LogSubsys => FI_TYPE_LOG_SUBSYS,
            Type::AvAttr => FI_TYPE_AV_ATTR,
            Type::CqAttr => FI_TYPE_CQ_ATTR,
            Type::MrAttr => FI_TYPE_MR_ATTR,
            Type::CntrAttr => FI_TYPE_CNTR_ATTR,
            Type::CqErrEntry => FI_TYPE_CQ_ERR_ENTRY,
        }
    }

    /// Decodes `value`; only encodings of some variant are accepted.
    pub fn from_raw(value: u32) -> (r: Type)
        requires
            Type::decode(value) is Some,
        ensures
            Type::decode(value) == Some(r),
    {
        if value == FI_TYPE_INFO {
            Type::Info
        } else if value == FI_TYPE_EP_TYPE {
            Type::EpType
        } else if value == FI_TYPE_CAPS {
            Type::Caps
        } else if value == FI_TYPE_OP_FLAGS {
            Type::OpFlags
        } else if value == FI_TYPE_ADDR_FORMAT {
            Type::AddrFormat
        } else if value == FI_TYPE_TX_ATTR {
            Type::TxAttr
        } else if value == FI_TYPE_RX_ATTR {
            Type::RxAttr
        } else if value == FI_TYPE_EP_ATTR {
            Type::EpAttr
        } else if value == FI_TYPE_DOMAIN_ATTR {
            Type::DomainAttr
        } else if value == FI_TYPE_FABRIC_ATTR {
            Type::FabricAttr
        } else if value == FI_TYPE_THREADING {
            Type::Threading
        } else if value == FI_TYPE_PROGRESS {
            Type::Progress
        } else if value == FI_TYPE_PROTOCOL {
            Type::Protocol
        } else if value == FI_TYPE_MSG_ORDER {
            Type::MsgOrder
        } else if value == FI_TYPE_MODE {
            Type::Mode
        } else if value == FI_TYPE_AV_TYPE {
            Type::AvType
        } else if value == FI_TYPE_ATOMIC_TYPE {
            Type::AtomicType
        } else if value == FI_TYPE_ATOMIC_OP {
            Type::AtomicOp
        } else if value == FI_TYPE_VERSION {
            Type::Version
        } else if value == FI_TYPE_EQ_EVENT {
            Type::EqEvent
        } else if value == FI_TYPE_CQ_EVENT_FLAGS {
            Type::CqEventFlags
        } else if value == FI_TYPE_MR_MODE {
            Type::MrMode
        } else if value == FI_TYPE_OP_TYPE {
            Type::OpType
        } else if value == FI_TYPE_FID {
            Type::Fid
        } else if value == FI_TYPE_COLLECTIVE_OP {
            Type::CollectiveOp
        } else if value == FI_TYPE_HMEM_IFACE {
            Type::HmemIface
        } else if value == FI_TYPE_CQ_FORMAT {
            Type::CqFormat
        } else if value == FI_TYPE_LOG_LEVEL {
            Type::LogLevel
        } else if value == FI_TYPE_LOG_SUBSYS {
            Type::LogSubsys
        } else if value == FI_TYPE_AV_ATTR {
            Type::AvAttr
        } else if value == FI_TYPE_CQ_ATTR {
            Type::CqAttr
        } else if value == FI_TYPE_MR_ATTR {
            Type::MrAttr
        } else if value == FI_TYPE_CNTR_ATTR {
            Type::CntrAttr
        } else {
            Type::CqErrEntry
        }
    }

    /// Decodes `value`, or gives `None` when it encodes no variant.
    pub fn try_from_raw(value: u32) -> (r: Option<Type>)
        ensures
            r == Type::decode(value),
    {
        if value == FI_TYPE_INFO {
            Some(Type::Info)
        } else if value == FI_TYPE_EP_TYPE {
            Some(Type::EpType)
        } else if value == FI_TYPE_CAPS {
            Some(Type::Caps)
        } else if value == FI_TYPE_OP_FLAGS {
            Some(Type::OpFlags)
        } else if value == FI_TYPE_ADDR_FORMAT {
            Some(Type::AddrFormat)
        } else if value == FI_TYPE_TX_ATTR {
            Some(Type::TxAttr)
        } else if value == FI_TYPE_RX_ATTR {
            Some(Type::RxAttr)
        } else if value == FI_TYPE_EP_ATTR {
            Some(Type::EpAttr)
        } else if value == FI_TYPE_DOMAIN_ATTR {
            Some(Type::DomainAttr)
        } else if value == FI_TYPE_FABRIC_ATTR {
            Some(Type::FabricAttr)
        } else if value == FI_TYPE_THREADING {
            Some(Type::Threading)
        } else if value == FI_TYPE_PROGRESS {
            Some(Type::Progress)
        } else if value == FI_TYPE_PROTOCOL {
            Some(Type::Protocol)
        } else if value == FI_TYPE_MSG_ORDER {
            Some(Type::MsgOrder)
        } else if value == FI_TYPE_MODE {
            Some(Type::Mode)
        } else if value == FI_TYPE_AV_TYPE {
            Some(Type::AvType)
        } else if value == FI_TYPE_ATOMIC_TYPE {
            Some(Type::AtomicType)
        } else if value == FI_TYPE_ATOMIC_OP {
            Some(Type::AtomicOp)
        } else if value == FI_TYPE_VERSION {
            Some(Type::Version)
        } else if value == FI_TYPE_EQ_EVENT {
            Some(Type::EqEvent)
        } else if value == FI_TYPE_CQ_EVENT_FLAGS {
            Some(Type::CqEventFlags)
        } else if value == FI_TYPE_MR_MODE {
            Some(Type::MrMode)
        } else if value == FI_TYPE_OP_TYPE {
            Some(Type::OpType)
        } else if value == FI_TYPE_FID {
            Some(Type::Fid)
        } else if value == FI_TYPE_COLLECTIVE_OP {
            Some(Type::CollectiveOp)
        } else if value == FI_TYPE_HMEM_IFACE {
            Some(Type::HmemIface)
        } else if value == FI_TYPE_CQ_FORMAT {
            Some(Type::CqFormat)
        } else if value == FI_TYPE_LOG_LEVEL {
            Some(Type::LogLevel)
        } else if value == FI_TYPE_LOG_SUBSYS {
            Some(Type::LogSubsys)
        } else if value == FI_TYPE_AV_ATTR {
            Some(Type::AvAttr)
        } else if value == FI_TYPE_CQ_ATTR {
            Some(Type::CqAttr)
        } else if value == FI_TYPE_MR_ATTR {
            Some(Type::MrAttr)
        } else if value == FI_TYPE_CNTR_ATTR {
            Some(Type::CntrAttr)
        } else if value == FI_TYPE_CQ_ERR_ENTRY {
            Some(Type::CqErrEntry)
        } else {
            None
        }
    }

    /// Decoding the encoding of a variant gives that variant back.
    pub proof fn law_decode_raw_value(self)
        ensures
            Type::decode(self.raw_value()) == Some(self),
    {
    }

    /// Whatever decodes is encoded back to the same value.
    pub proof fn law_raw_value_decode(value: u32)
        requires
            Type::decode(value) is Some,
        ensures
            Type::decode(value).unwrap().raw_value() == value,
    {
    }
}

/// A wait object kind as reported back by libfabric.
#[derive(Clone, Copy, Debug, PartialEq, Eq, Structural)]
pub enum WaitObj2 {
    Unspec,
    Fd,
    MutexCond,
    Yield,
    PollFd,
}

impl WaitObj2 {
    /// The libfabric encoding of each variant.
    pub open spec fn raw_value(self) -> u32 {
        match self {
            WaitObj2::Unspec => FI_WAIT_UNSPEC,
            WaitObj2::Fd => FI_WAIT_FD,
            WaitObj2::MutexCond => FI_WAIT_MUTEX_COND,
            WaitObj2::Yield => FI_WAIT_YIELD,
            WaitObj2::PollFd => FI_WAIT_POLLFD,
        }
    }

    /// The first variant, in declaration order, whose encoding is `value`.
    pub open spec fn decode(value: u32) -> Option<WaitObj2> {
        if value == FI_WAIT_UNSPEC {
            Some(WaitObj2::Unspec)
        } else if value == FI_WAIT_FD {
            Some(WaitObj2::Fd)
        } else if value == FI_WAIT_MUTEX_COND {
            Some(WaitObj2::MutexCond)
        } else if value == FI_WAIT_YIELD {
            Some(WaitObj2::Yield)
        } else if value == FI_WAIT_POLLFD {
            Some(WaitObj2::PollFd)
        } else {
            None
        }
    }

    pub fn as_raw(&self) -> (r: u32)
        ensures
            r == self.raw_value(),
    {
        match self {
            WaitObj2::Unspec => FI_WAIT_UNSPEC,
            WaitObj2::Fd => FI_WAIT_FD,
            WaitObj2::MutexCond => FI_WAIT_MUTEX_COND,
            WaitObj2::Yield => FI_WAIT_YIELD,
            WaitObj2::PollFd => FI_WAIT_POLLFD,
        }
    }

    /// Decodes `value`; only encodings of some variant are accepted.
    pub fn from_raw(value: u32) -> (r: WaitObj2)
        requires
            WaitObj2::decode(value) is Some,
        ensures
            WaitObj2::decode(value) == Some(r),
    {
        if value == FI_WAIT_UNSPEC {
            WaitObj2::Unspec
        } else if value == FI_WAIT_FD {
            WaitObj2::Fd
        } else if value == FI_WAIT_MUTEX_COND {
            WaitObj2::MutexCond
        } else if value == FI_WAIT_YIELD {
            WaitObj2::Yield
        } else {
            WaitObj2::PollFd
        }
    }

    /// Decodes `value`, or gives `None` when it encodes no variant.
    pub fn try_from_raw(value: u32) -> (r: Option<WaitObj2>)
        ensures
            r == WaitObj2::decode(value),
    {
        if value == FI_WAIT_UNSPEC {
            Some(WaitObj2::Unspec)
        } else if value == FI_WAIT_FD {
            Some(WaitObj2::Fd)
        } else if value == FI_WAIT_MUTEX_COND {
            Some(WaitObj2::MutexCond)
        } else if value == FI_WAIT_YIELD {
            Some(WaitObj2::Yield)
        } else if value == FI_WAIT_POLLFD {
            Some(WaitObj2::PollFd)
        } else {
            None
        }
    }

    /// Decoding the encoding of a variant gives that variant back.
    pub proof fn law_decode_raw_value(self)
        ensures
            WaitObj2::decode(self.raw_value()) == Some(self),
    {
    }

    /// Whatever decodes is encoded back to the same value.
    pub proof fn law_raw_value_decode(value: u32)
        requires
            WaitObj2::decode(value) is Some,
        ensures
            WaitObj2::decode(value).unwrap().raw_value() == value,
    {
    }
}

/// An enumeration of wait conditions for completion queues.
#[derive(Clone, Copy, Debug, PartialEq, Eq, Structural)]
pub enum WaitCond {
    CondNone,
    Threshold,
}

impl WaitCond {
    /// The libfabric encoding of each variant.
    pub open spec fn raw_value(self) -> u32 {
        match self {
            WaitCond::CondNone => FI_CQ_COND_NONE,
            WaitCond::Threshold => FI_CQ_COND_THRESHOLD,
        }
    }

    /// The first variant, in declaration order, whose encoding is `value`.
    pub open spec fn decode(value: u32) -> Option<WaitCond> {
        if value == FI_CQ_COND_NONE {
            Some(WaitCond::CondNone)
        } else if value == FI_CQ_COND_THRESHOLD {
            Some(WaitCond::Threshold)
        } else {
            None
        }
    }

    pub fn as_raw(&self) -> (r: u32)
        ensures
            r == self.raw_value(),
    {
        match self {
            WaitCond::CondNone => FI_CQ_COND_NONE,
            WaitCond::Threshold => FI_CQ_COND_THRESHOLD,
        }
    }

    /// Decodes `value`; only encodings of some variant are accepted.
    pub fn from_raw(value: u32) -> (r: WaitCond)
        requires
            WaitCond::decode(value) is Some,
        ensures
            WaitCond::decode(value) == Some(r),
    {
        if value == FI_CQ_COND_NONE {
            WaitCond::CondNone
        } else {
            WaitCond::Threshold
        }
    }

    /// Decodes `value`, or gives `None` when it encodes no variant.
    pub fn try_from_raw(value: u32) -> (r: Option<WaitCond>)
        ensures
            r == WaitCond::decode(value),
    {
        if value == FI_CQ_COND_NONE {
            Some(WaitCond::CondNone)
        } else if value == FI_CQ_COND_THRESHOLD {
            Some(WaitCond::Threshold)
        } else {
            None
        }
    }

    /// Decoding the encoding of a variant gives that variant back.
    pub proof fn law_decode_raw_value(self)
        ensures
            WaitCond::decode(self.raw_value()) == Some(self),
    {
    }

    /// Whatever decodes is encoded back to the same value.
    pub proof fn law_raw_value_decode(value: u32)
        requires
            WaitCond::decode(value) is Some,
        ensures
            WaitCond::decode(value).unwrap().raw_value() == value,
    {
    }
}

/// An enumeration of endpoint options.
/// Corresponds to `FI_OPT_` values in libfabric.
#[derive(Clone, Copy, Debug, PartialEq, Eq, Structural)]
pub enum EndpointOptName {
    MinMultiRecv,
    CmDataSize,
    BufferedMin,
    BufferedLimit,
    SendBufSize,
    RecvBufSize,
    TxSize,
    RxSize,
    FiHmemP2p,
    XpuTrigger,
    CudaApiPermitted,
}

impl EndpointOptName {
    /// The libfabric encoding of each variant.
    pub open spec fn raw_value(self) -> u32 {
        match self {
            EndpointOptName::MinMultiRecv => FI_OPT_MIN_MULTI_RECV,
            EndpointOptName::CmDataSize => FI_OPT_CM_DATA_SIZE,
            EndpointOptName::BufferedMin => FI_OPT_BUFFERED_MIN,
            EndpointOptName::BufferedLimit => FI_OPT_BUFFERED_LIMIT,
            EndpointOptName::SendBufSize => FI_OPT_SEND_BUF_SIZE,
            EndpointOptName::RecvBufSize => FI_OPT_RECV_BUF_SIZE,
            EndpointOptName::TxSize => FI_OPT_TX_SIZE,
            EndpointOptName::RxSize => FI_OPT_RX_SIZE,
            EndpointOptName::FiHmemP2p => FI_OPT_FI_HMEM_P2P,
            EndpointOptName::XpuTrigger => FI_OPT_XPU_TRIGGER,
            EndpointOptName::CudaApiPermitted => FI_OPT_CUDA_API_PERMITTED,
        }
    }

    /// The first variant, in declaration order, whose encoding is `value`.
    pub open spec fn decode(value: u32) -> Option<EndpointOptName> {
        if value == FI_OPT_MIN_MULTI_RECV {
            Some(EndpointOptName::MinMultiRecv)
        } else if value == FI_OPT_CM_DATA_SIZE {
            Some(EndpointOptName::CmDataSize)
        } else if value == FI_OPT_BUFFERED_MIN {
            Some(EndpointOptName::BufferedMin)
        } else if value == FI_OPT_BUFFERED_LIMIT {
            Some(EndpointOptName::BufferedLimit)
        } else if value == FI_OPT_SEND_BUF_SIZE {
            Some(EndpointOptName::SendBufSize)
        } else if value == FI_OPT_RECV_BUF_SIZE {
            Some(EndpointOptName::RecvBufSize)
        } else if value == FI_OPT_TX_SIZE {
            Some(EndpointOptName::TxSize)
        } else if value == FI_OPT_RX_SIZE {
            Some(EndpointOptName::RxSize)
        } else if value == FI_OPT_FI_HMEM_P2P {
            Some(EndpointOptName::FiHmemP2p)
        } else if value == FI_OPT_XPU_TRIGGER {
            Some(EndpointOptName::XpuTrigger)
        } else if value == FI_OPT_CUDA_API_PERMITTED {
            Some(EndpointOptName::CudaApiPermitted)
        } else {
            None
        }
    }

    pub fn as_raw(&self) -> (r: u32)
        ensures
            r == self.raw_value(),
    {
        match self {
            EndpointOptName::MinMultiRecv => FI_OPT_MIN_MULTI_RECV,
            EndpointOptName::CmDataSize => FI_OPT_CM_DATA_SIZE,
            EndpointOptName::BufferedMin => FI_OPT_BUFFERED_MIN,
            EndpointOptName::BufferedLimit => FI_OPT_BUFFERED_LIMIT,
            EndpointOptName::SendBufSize => FI_OPT_SEND_BUF_SIZE,
            EndpointOptName::RecvBufSize => FI_OPT_RECV_BUF_SIZE,
            EndpointOptName::TxSize => FI_OPT_TX_SIZE,
            EndpointOptName::RxSize => FI_OPT_RX_SIZE,
            EndpointOptName::FiHmemP2p => FI_OPT_FI_HMEM_P2P,
            EndpointOptName::XpuTrigger => FI_OPT_XPU_TRIGGER,
            EndpointOptName::CudaApiPermitted => FI_OPT_CUDA_API_PERMITTED,
        }
    }

    /// Decodes `value`; only encodings of some variant are accepted.
    pub fn from_raw(value: u32) -> (r: EndpointOptName)
        requires
            EndpointOptName::decode(value) is Some,
        ensures
            EndpointOptName::decode(value) == Some(r),
    {
        if value == FI_OPT_MIN_MULTI_RECV {
            EndpointOptName::MinMultiRecv
        } else if value == FI_OPT_CM_DATA_SIZE {
            EndpointOptName::CmDataSize
        } else if value == FI_OPT_BUFFERED_MIN {
            EndpointOptName::BufferedMin
        } else if value == FI_OPT_BUFFERED_LIMIT {
            EndpointOptName::BufferedLimit
        } else if value == FI_OPT_SEND_BUF_SIZE {
            EndpointOptName::SendBufSize
        } else if value == FI_OPT_RECV_BUF_SIZE {
            EndpointOptName::RecvBufSize
        } else if value == FI_OPT_TX_SIZE {
            EndpointOptName::TxSize
        } else if value == FI_OPT_RX_SIZE {
            EndpointOptName::RxSize
        } else if value == FI_OPT_FI_HMEM_P2P {
            EndpointOptName::FiHmemP2p
        } else if value == FI_OPT_XPU_TRIGGER {
            EndpointOptName::XpuTrigger
        } else {
            EndpointOptName::CudaApiPermitted
        }
    }

    /// Decodes `value`, or gives `None` when it encodes no variant.
    pub fn try_from_raw(value: u32) -> (r: Option<EndpointOptName>)
        ensures
            r == EndpointOptName::decode(value),
    {
        if value == FI_OPT_MIN_MULTI_RECV {
            Some(EndpointOptName::MinMultiRecv)
        } else if value == FI_OPT_CM_DATA_SIZE {
            Some(EndpointOptName::CmDataSize)
        } else if value == FI_OPT_BUFFERED_MIN {
            Some(EndpointOptName::BufferedMin)
        } else if value == FI_OPT_BUFFERED_LIMIT {
            Some(EndpointOptName::BufferedLimit)
        } else if value == FI_OPT_SEND_BUF_SIZE {
            Some(EndpointOptName::SendBufSize)
        } else if value == FI_OPT_RECV_BUF_SIZE {
            Some(EndpointOptName::RecvBufSize)
        } else if value == FI_OPT_TX_SIZE {
            Some(EndpointOptName::TxSize)
        } else if value == FI_OPT_RX_SIZE {
            Some(EndpointOptName::RxSize)
        } else if value == FI_OPT_FI_HMEM_P2P {
            Some(EndpointOptName::FiHmemP2p)
        } else if value == FI_OPT_XPU_TRIGGER {
            Some(EndpointOptName::XpuTrigger)
        } else if value == FI_OPT_CUDA_API_PERMITTED {
            Some(EndpointOptName::CudaApiPermitted)
        } else {
            None
        }
    }

    /// Decoding the encoding of a variant gives that variant back.
    pub proof fn law_decode_raw_value(self)
        ensures
            EndpointOptName::decode(self.raw_value()) == Some(self),
    {
    }

    /// Whatever decodes is encoded back to the same value.
    pub proof fn law_raw_value_decode(value: u32)
        requires
            EndpointOptName::decode(value) is Some,
        ensures
            EndpointOptName::decode(value).unwrap().raw_value() == value,
    {
    }
}

/// An enumeration of endpoint option levels.
///
/// Corresponds to `FI_OPT_ENDPOINT` in libfabric.
#[derive(Clone, Copy, Debug, PartialEq, Eq, Structural)]
pub enum EndpointOptLevel {
    Endpoint,
}

impl EndpointOptLevel {
    /// The libfabric encoding of each variant.
    pub open spec fn raw_value(self) -> u32 {
        match self {
            EndpointOptLevel::Endpoint => FI_OPT_ENDPOINT,
        }
    }

    /// The first variant, in declaration order, whose encoding is `value`.
    pub open spec fn decode(value: u32) -> Option<EndpointOptLevel> {
        if value == FI_OPT_ENDPOINT {
            Some(EndpointOptLevel::Endpoint)
        } else {
            None
        }
    }

    pub fn as_raw(&self) -> (r: u32)
        ensures
            r == self.raw_value(),
    {
        match self {
            EndpointOptLevel::Endpoint => FI_OPT_ENDPOINT,
        }
    }

    /// Decodes `value`; only encodings of some variant are accepted.
    pub fn from_raw(value: u32) -> (r: EndpointOptLevel)
        requires
            EndpointOptLevel::decode(value) is Some,
        ensures
            EndpointOptLevel::decode(value) == Some(r),
    {
        {
            EndpointOptLevel::Endpoint
        }
    }

    /// Decodes `value`, or gives `None` when it encodes no variant.
    pub fn try_from_raw(value: u32) -> (r: Option<EndpointOptLevel>)
        ensures
            r == EndpointOptLevel::decode(value),
    {
        if value == FI_OPT_ENDPOINT {
            Some(EndpointOptLevel::Endpoint)
        } else {
            None
        }
    }

    /// Decoding the encoding of a variant gives that variant back.
    pub proof fn law_decode_raw_value(self)
        ensures
            EndpointOptLevel::decode(self.raw_value()) == Some(self),
    {
    }

    /// Whatever decodes is encoded back to the same value.
    pub proof fn law_raw_value_decode(value: u32)
        requires
            EndpointOptLevel::decode(value) is Some,
        ensures
            EndpointOptLevel::decode(value).unwrap().raw_value() == value,
    {
    }
}

/// An enumeration of endpoint types.
///
/// Corresponds to `fi_ep_type` in libfabric.
#[derive(Clone, Copy, Debug, PartialEq, Eq, Structural)]
pub enum EndpointType {
    Unspec,
    Msg,
    Dgram,
    Rdm,
}

impl EndpointType {
    /// The libfabric encoding of each variant.
    pub open spec fn raw_value(self) -> u32 {
        match self {
            EndpointType::Unspec => FI_EP_UNSPEC,
            EndpointType::Msg => FI_EP_MSG,
            EndpointType::Dgram => FI_EP_DGRAM,
            EndpointType::Rdm => FI_EP_RDM,
        }
    }

    /// The first variant, in declaration order, whose encoding is `value`.
    pub open spec fn decode(value: u32) -> Option<EndpointType> {
        if value == FI_EP_UNSPEC {
            Some(EndpointType::Unspec)
        } else if value == FI_EP_MSG {
            Some(EndpointType::Msg)
        } else if value == FI_EP_DGRAM {
            Some(EndpointType::Dgram)
        } else if value == FI_EP_RDM {
            Some(EndpointType::Rdm)
        } else {
            None
        }
    }

    pub fn as_raw(&self) -> (r: u32)
        ensures
            r == self.raw_value(),
    {
        match self {
            EndpointType::Unspec => FI_EP_UNSPEC,
            EndpointType::Msg => FI_EP_MSG,
            EndpointType::Dgram => FI_EP_DGRAM,
            EndpointType::Rdm => FI_EP_RDM,
        }
    }

    /// Decodes `value`; only encodings of some variant are accepted.
    pub fn from_raw(value: u32) -> (r: EndpointType)
        requires
            EndpointType::decode(value) is Some,
        ensures
            EndpointType::decode(value) == Some(r),
    {
        if value == FI_EP_UNSPEC {
            EndpointType::Unspec
        } else if value == FI_EP_MSG {
            EndpointType::Msg
        } else if value == FI_EP_DGRAM {
            EndpointType::Dgram
        } else {
            EndpointType::Rdm
        }
    }

    /// Decodes `value`, or gives `None` when it encodes no variant.
    pub fn try_from_raw(value: u32) -> (r: Option<EndpointType>)
        ensures
            r == EndpointType::decode(value),
    {
        if value == FI_EP_UNSPEC {
            Some(EndpointType::Unspec)
        } else if value == FI_EP_MSG {
            Some(EndpointType::Msg)
        } else if value == FI_EP_DGRAM {
            Some(EndpointType::Dgram)
        } else if value == FI_EP_RDM {
            Some(EndpointType::Rdm)
        } else {
            None
        }
    }

    /// Decoding the encoding of a variant gives that variant back.
    pub proof fn law_decode_raw_value(self)
        ensures
            EndpointType::decode(self.raw_value()) == Some(self),
    {
    }

    /// Whatever decodes is encoded back to the same value.
    pub proof fn law_raw_value_decode(value: u32)
        requires
            EndpointType::decode(value) is Some,
        ensures
            EndpointType::decode(value).unwrap().raw_value() == value,
    {
    }
}

/// An enumeration of host memory peer-to-peer support levels.
///
/// Corresponds to `FI_HMEM_P2P_` values in libfabric.
#[derive(Clone, Copy, Debug, PartialEq, Eq, Structural)]
pub enum HmemP2p {
    Enabled,
    Required,
    Preferred,
    Disabled,
}

impl HmemP2p {
    /// The libfabric encoding of each variant.
    pub open spec fn raw_value(self) -> u32 {
        match self {
            HmemP2p::Enabled => FI_HMEM_P2P_ENABLED,
            HmemP2p::Required => FI_HMEM_P2P_REQUIRED,
            HmemP2p::Preferred => FI_HMEM_P2P_PREFERRED,
            HmemP2p::Disabled => FI_HMEM_P2P_DISABLED,
        }
    }

    /// The first variant, in declaration order, whose encoding is `value`.
    pub open spec fn decode(value: u32) -> Option<HmemP2p> {
        if value == FI_HMEM_P2P_ENABLED {
            Some(HmemP2p::Enabled)
        } else if value == FI_HMEM_P2P_REQUIRED {
            Some(HmemP2p::Required)
        } else if value == FI_HMEM_P2P_PREFERRED {
            Some(HmemP2p::Preferred)
        } else if value == FI_HMEM_P2P_DISABLED {
            Some(HmemP2p::Disabled)
        } else {
            None
        }
    }

    pub fn as_raw(&self) -> (r: u32)
        ensures
            r == self.raw_value(),
    {
        match self {
            HmemP2p::Enabled => FI_HMEM_P2P_ENABLED,
            HmemP2p::Required => FI_HMEM_P2P_REQUIRED,
            HmemP2p::Preferred => FI_HMEM_P2P_PREFERRED,
            HmemP2p::Disabled => FI_HMEM_P2P_DISABLED,
        }
    }

    /// Decodes `value`; only encodings of some variant are accepted.
    pub fn from_raw(value: u32) -> (r: HmemP2p)
        requires
            HmemP2p::decode(value) is Some,
        ensures
            HmemP2p::decode(value) == Some(r),
    {
        if value == FI_HMEM_P2P_ENABLED {
            HmemP2p::Enabled
        } else if value == FI_HMEM_P2P_REQUIRED {
            HmemP2p::Required
        } else if value == FI_HMEM_P2P_PREFERRED {
            HmemP2p::Preferred
        } else {
            HmemP2p::Disabled
        }
    }

    /// Decodes `value`, or gives `None` when it encodes no variant.
    pub fn try_from_raw(value: u32) -> (r: Option<HmemP2p>)
        ensures
            r == HmemP2p::decode(value),
    {
        if value == FI_HMEM_P2P_ENABLED {
            Some(HmemP2p::Enabled)
        } else if value == FI_HMEM_P2P_REQUIRED {
            Some(HmemP2p::Required)
        } else if value == FI_HMEM_P2P_PREFERRED {
            Some(HmemP2p::Preferred)
        } else if value == FI_HMEM_P2P_DISABLED {
            Some(HmemP2p::Disabled)
        } else {
            None
        }
    }

    /// Decoding the encoding of a variant gives that variant back.
    pub proof fn law_decode_raw_value(self)
        ensures
            HmemP2p::decode(self.raw_value()) == Some(self),
    {
    }

    /// Whatever decodes is encoded back to the same value.
    pub proof fn law_raw_value_decode(value: u32)
        requires
            HmemP2p::decode(value) is Some,
        ensures
            HmemP2p::decode(value).unwrap().raw_value() == value,
    {
    }
}

/// An enumeration of `fi_control` commands.
#[derive(Clone, Copy, Debug, PartialEq, Eq, Structural)]
pub enum ControlOpt {
    GetFidFlag,
    SetFidFlag,
    GetOpsFlag,
    SetOpsFlag,
    Alias,
    GetWait,
    Enable,
    Backlog,
    GetRawMr,
    MapRawMr,
    UnmapKey,
    QueueWork,
    CancelWork,
    FlushWork,
    Refresh,
    Dup,
    GetWaitObj,
    GetVal,
    SetVal,
    ExportFid,
}

impl ControlOpt {
    /// The libfabric encoding of each variant.
    pub open spec fn raw_value(self) -> u32 {
        match self {
            ControlOpt::GetFidFlag => FI_GETFIDFLAG,
            ControlOpt::SetFidFlag => FI_SETFIDFLAG,
            ControlOpt::GetOpsFlag => FI_GETOPSFLAG,
            ControlOpt::SetOpsFlag => FI_SETOPSFLAG,
            ControlOpt::Alias => FI_ALIAS,
            ControlOpt::GetWait => FI_GETWAIT,
            ControlOpt::Enable => FI_ENABLE,
            ControlOpt::Backlog => FI_BACKLOG,
            ControlOpt::GetRawMr => FI_GET_RAW_MR,
            ControlOpt::MapRawMr => FI_MAP_RAW_MR,
            ControlOpt::UnmapKey => FI_UNMAP_KEY,
            ControlOpt::QueueWork => FI_QUEUE_WORK,
            ControlOpt::CancelWork => FI_CANCEL_WORK,
            ControlOpt::FlushWork => FI_FLUSH_WORK,
            ControlOpt::Refresh => FI_REFRESH,
            ControlOpt::Dup => FI_DUP,
            ControlOpt::GetWaitObj => FI_GETWAITOBJ,
            ControlOpt::GetVal => FI_GET_VAL,
            ControlOpt::SetVal => FI_SET_VAL,
            ControlOpt::ExportFid => FI_EXPORT_FID,
        }
    }

    /// The first variant, in declaration order, whose encoding is `value`.
    pub open spec fn decode(value: u32) -> Option<ControlOpt> {
        if value == FI_GETFIDFLAG {
            Some(ControlOpt::GetFidFlag)
        } else if value == FI_SETFIDFLAG {
            Some(ControlOpt::SetFidFlag)
        } else if value == FI_GETOPSFLAG {
            Some(ControlOpt::GetOpsFlag)
        } else if value == FI_SETOPSFLAG {
            Some(ControlOpt::SetOpsFlag)
        } else if value == FI_ALIAS {
            Some(ControlOpt::Alias)
        } else if value == FI_GETWAIT {
            Some(ControlOpt::GetWait)
        } else if value == FI_ENABLE {
            Some(ControlOpt::Enable)
        } else if value == FI_BACKLOG {
            Some(ControlOpt::Backlog)
        } else if value == FI_GET_RAW_MR {
            Some(ControlOpt::GetRawMr)
        } else if value == FI_MAP_RAW_MR {
            Some(ControlOpt::MapRawMr)
        } else if value == FI_UNMAP_KEY {
            Some(ControlOpt::UnmapKey)
        } else if value == FI_QUEUE_WORK {
            Some(ControlOpt::QueueWork)
        } else if value == FI_CANCEL_WORK {
            Some(ControlOpt::CancelWork)
        } else if value == FI_FLUSH_WORK {
            Some(ControlOpt::FlushWork)
        } else if value == FI_REFRESH {
            Some(ControlOpt::Refresh)
        } else if value == FI_DUP {
            Some(ControlOpt::Dup)
        } else if value == FI_GETWAITOBJ {
            Some(ControlOpt::GetWaitObj)
        } else if value == FI_GET_VAL {
            Some(ControlOpt::GetVal)
        } else if value == FI_SET_VAL {
            Some(ControlOpt::SetVal)
        } else if value == FI_EXPORT_FID {
            Some(ControlOpt::ExportFid)
        } else {
            None
        }
    }

    pub fn as_raw(&self) -> (r: u32)
        ensures
            r == self.raw_value(),
    {
        match self {
            ControlOpt::GetFidFlag => FI_GETFIDFLAG,
            ControlOpt::SetFidFlag => FI_SETFIDFLAG,
            ControlOpt::GetOpsFlag => FI_GETOPSFLAG,
            ControlOpt::SetOpsFlag => FI_SETOPSFLAG,
            ControlOpt::Alias => FI_ALIAS,
            ControlOpt::GetWait => FI_GETWAIT,
            ControlOpt::Enable => FI_ENABLE,
            ControlOpt::Backlog => FI_BACKLOG,
            ControlOpt::GetRawMr => FI_GET_RAW_MR,
            ControlOpt::MapRawMr => FI_MAP_RAW_MR,
            ControlOpt::UnmapKey => FI_UNMAP_KEY,
            ControlOpt::QueueWork => FI_QUEUE_WORK,
            ControlOpt::CancelWork => FI_CANCEL_WORK,
            ControlOpt::FlushWork => FI_FLUSH_WORK,
            ControlOpt::Refresh => FI_REFRESH,
            ControlOpt::Dup => FI_DUP,
            ControlOpt::GetWaitObj => FI_GETWAITOBJ,
            ControlOpt::GetVal => FI_GET_VAL,
            ControlOpt::SetVal => FI_SET_VAL,
            ControlOpt::ExportFid => FI_EXPORT_FID,
        }
    }

    /// Decodes `value`; only encodings of some variant are accepted.
    pub fn from_raw(value: u32) -> (r: ControlOpt)
        requires
            ControlOpt::decode(value) is Some,
        ensures
            ControlOpt::decode(value) == Some(r),
    {
        if value == FI_GETFIDFLAG {
            ControlOpt::GetFidFlag
        } else if value == FI_SETFIDFLAG {
            ControlOpt::SetFidFlag
        } else if value == FI_GETOPSFLAG {
            ControlOpt::GetOpsFlag
        } else if value == FI_SETOPSFLAG {
            ControlOpt::SetOpsFlag
        } else if value == FI_ALIAS {
            ControlOpt::Alias
        } else if value == FI_GETWAIT {
            ControlOpt::GetWait
        } else if value == FI_ENABLE {
            ControlOpt::Enable
        } else if value == FI_BACKLOG {
            ControlOpt::Backlog
        } else if value == FI_GET_RAW_MR {
            ControlOpt::GetRawMr
        } else if value == FI_MAP_RAW_MR {
            ControlOpt::MapRawMr
        } else if value == FI_UNMAP_KEY {
            ControlOpt::UnmapKey
        } else if value == FI_QUEUE_WORK {
            ControlOpt::QueueWork
        } else if value == FI_CANCEL_WORK {
            ControlOpt::CancelWork
        } else if value == FI_FLUSH_WORK {
            ControlOpt::FlushWork
        } else if value == FI_REFRESH {
            ControlOpt::Refresh
        } else if value == FI_DUP {
            ControlOpt::Dup
        } else if value == FI_GETWAITOBJ {
            ControlOpt::GetWaitObj
        } else if value == FI_GET_VAL {
            ControlOpt::GetVal
        } else if value == FI_SET_VAL {
            ControlOpt::SetVal
        } else {
            ControlOpt::ExportFid
        }
    }

    /// Decodes `value`, or gives `None` when it encodes no variant.
    pub fn try_from_raw(value: u32) -> (r: Option<ControlOpt>)
        ensures
            r == ControlOpt::decode(value),
    {
        if value == FI_GETFIDFLAG {
            Some(ControlOpt::GetFidFlag)
        } else if value == FI_SETFIDFLAG {
            Some(ControlOpt::SetFidFlag)
        } else if value == FI_GETOPSFLAG {
            Some(ControlOpt::GetOpsFlag)
        } else if value == FI_SETOPSFLAG {
            Some(ControlOpt::SetOpsFlag)
        } else if value == FI_ALIAS {
            Some(ControlOpt::Alias)
        } else if value == FI_GETWAIT {
            Some(ControlOpt::GetWait)
        } else if value == FI_ENABLE {
            Some(ControlOpt::Enable)
        } else if value == FI_BACKLOG {
            Some(ControlOpt::Backlog)
        } else if value == FI_GET_RAW_MR {
            Some(ControlOpt::GetRawMr)
        } else if value == FI_MAP_RAW_MR {
            Some(ControlOpt::MapRawMr)
        } else if value == FI_UNMAP_KEY {
            Some(ControlOpt::UnmapKey)
        } else if value == FI_QUEUE_WORK {
            Some(ControlOpt::QueueWork)
        } else if value == FI_CANCEL_WORK {
            Some(ControlOpt::CancelWork)
        } else if value == FI_FLUSH_WORK {
            Some(ControlOpt::FlushWork)
        } else if value == FI_REFRESH {
            Some(ControlOpt::Refresh)
        } else if value == FI_DUP {
            Some(ControlOpt::Dup)
        } else if value == FI_GETWAITOBJ {
            Some(ControlOpt::GetWaitObj)
        } else if value == FI_GET_VAL {
            Some(ControlOpt::GetVal)
        } else if value == FI_SET_VAL {
            Some(ControlOpt::SetVal)
        } else if value == FI_EXPORT_FID {
            Some(ControlOpt::ExportFid)
        } else {
            None
        }
    }

    /// Decoding the encoding of a variant gives that variant back.
    pub proof fn law_decode_raw_value(self)
        ensures
            ControlOpt::decode(self.raw_value()) == Some(self),
    {
    }

    /// Whatever decodes is encoded back to the same value.
    pub proof fn law_raw_value_decode(value: u32)
        requires
            ControlOpt::decode(value) is Some,
        ensures
            ControlOpt::decode(value).unwrap().raw_value() == value,
    {
    }
}

/// An enumeration of address vector types.
#[derive(Clone, Copy, Debug, PartialEq, Eq, Structural)]
pub enum AddressVectorType {
    Unspec,
    AvMap,
    Table,
}

impl AddressVectorType {
    /// The libfabric encoding of each variant.
    pub open spec fn raw_value(self) -> u32 {
        match self {
            AddressVectorType::Unspec => FI_AV_UNSPEC,
            AddressVectorType::AvMap => FI_AV_MAP,
            AddressVectorType::Table => FI_AV_TABLE,
        }
    }

    /// The first variant, in declaration order, whose encoding is `value`.
    pub open spec fn decode(value: u32) -> Option<AddressVectorType> {
        if value == FI_AV_UNSPEC {
            Some(AddressVectorType::Unspec)
        } else if value == FI_AV_MAP {
            Some(AddressVectorType::AvMap)
        } else if value == FI_AV_TABLE {
            Some(AddressVectorType::Table)
        } else {
            None
        }
    }

    pub fn as_raw(&self) -> (r: u32)
        ensures
            r == self.raw_value(),
    {
        match self {
            AddressVectorType::Unspec => FI_AV_UNSPEC,
            AddressVectorType::AvMap => FI_AV_MAP,
            AddressVectorType::Table => FI_AV_TABLE,
        }
    }

    /// Decodes `value`; only encodings of some variant are accepted.
    pub fn from_raw(value: u32) -> (r: AddressVectorType)
        requires
            AddressVectorType::decode(value) is Some,
        ensures
            AddressVectorType::decode(value) == Some(r),
    {
        if value == FI_AV_UNSPEC {
            AddressVectorType::Unspec
        } else if value == FI_AV_MAP {
            AddressVectorType::AvMap
        } else {
            AddressVectorType::Table
        }
    }

    /// Decodes `value`, or gives `None` when it encodes no variant.
    pub fn try_from_raw(value: u32) -> (r: Option<AddressVectorType>)
        ensures
            r == AddressVectorType::decode(value),
    {
        if value == FI_AV_UNSPEC {
            Some(AddressVectorType::Unspec)
        } else if value == FI_AV_MAP {
            Some(AddressVectorType::AvMap)
        } else if value == FI_AV_TABLE {
            Some(AddressVectorType::Table)
        } else {
            None
        }
    }

    /// Decoding the encoding of a variant gives that variant back.
    pub proof fn law_decode_raw_value(self)
        ensures
            AddressVectorType::decode(self.raw_value()) == Some(self),
    {
    }

    /// Whatever decodes is encoded back to the same value.
    pub proof fn law_raw_value_decode(value: u32)
        requires
            AddressVectorType::decode(value) is Some,
        ensures
            AddressVectorType::decode(value).unwrap().raw_value() == value,
    {
    }
}

/// An enumeration of authentication key types.
#[derive(Clone, Copy, Debug, PartialEq, Eq, Structural)]
pub enum UserId {
    AuthKey,
}

impl UserId {
    /// The libfabric encoding of each variant.
    pub open spec fn raw_value(self) -> u64 {
        match self {
            UserId::AuthKey => FI_AUTH_KEY,
        }
    }

    /// The first variant, in declaration order, whose encoding is `value`.
    pub open spec fn decode(value: u64) -> Option<UserId> {
        if value == FI_AUTH_KEY {
            Some(UserId::AuthKey)
        } else {
            None
        }
    }

    pub fn as_raw(&self) -> (r: u64)
        ensures
            r == self.raw_value(),
    {
        match self {
            UserId::AuthKey => FI_AUTH_KEY,
        }
    }

    /// Decodes `value`; only encodings of some variant are accepted.
    pub fn from_raw(value: u64) -> (r: UserId)
        requires
            UserId::decode(value) is Some,
        ensures
            UserId::decode(value) == Some(r),
    {
        {
            UserId::AuthKey
        }
    }

    /// Decodes `value`, or gives `None` when it encodes no variant.
    pub fn try_from_raw(value: u64) -> (r: Option<UserId>)
        ensures
            r == UserId::decode(value),
    {
        if value == FI_AUTH_KEY {
            Some(UserId::AuthKey)
        } else {
            None
        }
    }

    /// Decoding the encoding of a variant gives that variant back.
    pub proof fn law_decode_raw_value(self)
        ensures
            UserId::decode(self.raw_value()) == Some(self),
    {
    }

    /// Whatever decodes is encoded back to the same value.
    pub proof fn law_raw_value_decode(value: u64)
        requires
            UserId::decode(value) is Some,
        ensures
            UserId::decode(value).unwrap().raw_value() == value,
    {
    }
}

/// An enumeration of progress modes.
#[derive(Clone, Copy, Debug, PartialEq, Eq, Structural)]
pub enum Progress {
    Unspec,
    Auto,
    Manual,
}

impl Progress {
    /// The libfabric encoding of each variant.
    pub open spec fn raw_value(self) -> u32 {
        match self {
            Progress::Unspec => FI_PROGRESS_UNSPEC,
            Progress::Auto => FI_PROGRESS_AUTO,
            Progress::Manual => FI_PROGRESS_MANUAL,
        }
    }

    /// The first variant, in declaration order, whose encoding is `value`.
    pub open spec fn decode(value: u32) -> Option<Progress> {
        if value == FI_PROGRESS_UNSPEC {
            Some(Progress::Unspec)
        } else if value == FI_PROGRESS_AUTO {
            Some(Progress::Auto)
        } else if value == FI_PROGRESS_MANUAL {
            Some(Progress::Manual)
        } else {
            None
        }
    }

    pub fn as_raw(&self) -> (r: u32)
        ensures
            r == self.raw_value(),
    {
        match self {
            Progress::Unspec => FI_PROGRESS_UNSPEC,
            Progress::Auto => FI_PROGRESS_AUTO,
            Progress::Manual => FI_PROGRESS_MANUAL,
        }
    }

    /// Decodes `value`; only encodings of some variant are accepted.
    pub fn from_raw(value: u32) -> (r: Progress)
        requires
            Progress::decode(value) is Some,
        ensures
            Progress::decode(value) == Some(r),
    {
        if value == FI_PROGRESS_UNSPEC {
            Progress::Unspec
        } else if value == FI_PROGRESS_AUTO {
            Progress::Auto
        } else {
            Progress::Manual
        }
    }

    /// Decodes `value`, or gives `None` when it encodes no variant.
    pub fn try_from_raw(value: u32) -> (r: Option<Progress>)
        ensures
            r == Progress::decode(value),
    {
        if value == FI_PROGRESS_UNSPEC {
            Some(Progress::Unspec)
        } else if value == FI_PROGRESS_AUTO {
            Some(Progress::Auto)
        } else if value == FI_PROGRESS_MANUAL {
            Some(Progress::Manual)
        } else {
            None
        }
    }

    /// Decoding the encoding of a variant gives that variant back.
    pub proof fn law_decode_raw_value(self)
        ensures
            Progress::decode(self.raw_value()) == Some(self),
    {
    }

    /// Whatever decodes is encoded back to the same value.
    pub proof fn law_raw_value_decode(value: u32)
        requires
            Progress::decode(value) is Some,
        ensures
            Progress::decode(value).unwrap().raw_value() == value,
    {
    }
}

/// An enumeration of threading models.
#[derive(Clone, Copy, Debug, PartialEq, Eq, Structural)]
pub enum Threading {
    Unspec,
    Safe,
    Fid,
    Domain,
    Completion,
    Endpoint,
}

impl Threading {
    /// The libfabric encoding of each variant.
    pub open spec fn raw_value(self) -> u32 {
        match self {
            Threading::Unspec => FI_THREAD_UNSPEC,
            Threading::Safe => FI_THREAD_SAFE,
            Threading::Fid => FI_THREAD_FID,
            Threading::Domain => FI_THREAD_DOMAIN,
            Threading::Completion => FI_THREAD_COMPLETION,
            Threading::Endpoint => FI_THREAD_ENDPOINT,
        }
    }

    /// The first variant, in declaration order, whose encoding is `value`.
    pub open spec fn decode(value: u32) -> Option<Threading> {
        if value == FI_THREAD_UNSPEC {
            Some(Threading::Unspec)
        } else if value == FI_THREAD_SAFE {
            Some(Threading::Safe)
        } else if value == FI_THREAD_FID {
            Some(Threading::Fid)
        } else if value == FI_THREAD_DOMAIN {
            Some(Threading::Domain)
        } else if value == FI_THREAD_COMPLETION {
            Some(Threading::Completion)
        } else if value == FI_THREAD_ENDPOINT {
            Some(Threading::Endpoint)
        } else {
            None
        }
    }

    pub fn as_raw(&self) -> (r: u32)
        ensures
            r == self.raw_value(),
    {
        match self {
            Threading::Unspec => FI_THREAD_UNSPEC,
            Threading::Safe => FI_THREAD_SAFE,
            Threading::Fid => FI_THREAD_FID,
            Threading::Domain => FI_THREAD_DOMAIN,
            Threading::Completion => FI_THREAD_COMPLETION,
            Threading::Endpoint => FI_THREAD_ENDPOINT,
        }
    }

    /// Decodes `value`; only encodings of some variant are accepted.
    pub fn from_raw(value: u32) -> (r: Threading)
        requires
            Threading::decode(value) is Some,
        ensures
            Threading::decode(value) == Some(r),
    {
        if value == FI_THREAD_UNSPEC {
            Threading::Unspec
        } else if value == FI_THREAD_SAFE {
            Threading::Safe
        } else if value == FI_THREAD_FID {
            Threading::Fid
        } else if value == FI_THREAD_DOMAIN {
            Threading::Domain
        } else if value == FI_THREAD_COMPLETION {
            Threading::Completion
        } else {
            Threading::Endpoint
        }
    }

    /// Decodes `value`, or gives `None` when it encodes no variant.
    pub fn try_from_raw(value: u32) -> (r: Option<Threading>)
        ensures
            r == Threading::decode(value),
    {
        if value == FI_THREAD_UNSPEC {
            Some(Threading::Unspec)
        } else if value == FI_THREAD_SAFE {
            Some(Threading::Safe)
        } else if value == FI_THREAD_FID {
            Some(Threading::Fid)
        } else if value == FI_THREAD_DOMAIN {
            Some(Threading::Domain)
        } else if value == FI_THREAD_COMPLETION {
            Some(Threading::Completion)
        } else if value == FI_THREAD_ENDPOINT {
            Some(Threading::Endpoint)
        } else {
            None
        }
    }

    /// Decoding the encoding of a variant gives that variant back.
    pub proof fn law_decode_raw_value(self)
        ensures
            Threading::decode(self.raw_value()) == Some(self),
    {
    }

    /// Whatever decodes is encoded back to the same value.
    pub proof fn law_raw_value_decode(value: u32)
        requires
            Threading::decode(value) is Some,
        ensures
            Threading::decode(value).unwrap().raw_value() == value,
    {
    }
}

/// An enumeration of resource management modes.
#[derive(Clone, Copy, Debug, PartialEq, Eq, Structural)]
pub enum ResourceMgmt {
    Unspec,
    Disabled,
    Enabled,
}

impl ResourceMgmt {
    /// The libfabric encoding of each variant.
    pub open spec fn raw_value(self) -> u32 {
        match self {
            ResourceMgmt::Unspec => FI_RM_UNSPEC,
            ResourceMgmt::Disabled => FI_RM_DISABLED,
            ResourceMgmt::Enabled => FI_RM_ENABLED,
        }
    }

    /// The first variant, in declaration order, whose encoding is `value`.
    pub open spec fn decode(value: u32) -> Option<ResourceMgmt> {
        if value == FI_RM_UNSPEC {
            Some(ResourceMgmt::Unspec)
        } else if value == FI_RM_DISABLED {
            Some(ResourceMgmt::Disabled)
        } else if value == FI_RM_ENABLED {
            Some(ResourceMgmt::Enabled)
        } else {
            None
        }
    }

    pub fn as_raw(&self) -> (r: u32)
        ensures
            r == self.raw_value(),
    {
        match self {
            ResourceMgmt::Unspec => FI_RM_UNSPEC,
            ResourceMgmt::Disabled => FI_RM_DISABLED,
            ResourceMgmt::Enabled => FI_RM_ENABLED,
        }
    }

    /// Decodes `value`; only encodings of some variant are accepted.
    pub fn from_raw(value: u32) -> (r: ResourceMgmt)
        requires
            ResourceMgmt::decode(value) is Some,
        ensures
            ResourceMgmt::decode(value) == Some(r),
    {
        if value == FI_RM_UNSPEC {
            ResourceMgmt::Unspec
        } else if value == FI_RM_DISABLED {
            ResourceMgmt::Disabled
        } else {
            ResourceMgmt::Enabled
        }
    }

    /// Decodes `value`, or gives `None` when it encodes no variant.
    pub fn try_from_raw(value: u32) -> (r: Option<ResourceMgmt>)
        ensures
            r == ResourceMgmt::decode(value),
    {
        if value == FI_RM_UNSPEC {
            Some(ResourceMgmt::Unspec)
        } else if value == FI_RM_DISABLED {
            Some(ResourceMgmt::Disabled)
        } else if value == FI_RM_ENABLED {
            Some(ResourceMgmt::Enabled)
        } else {
            None
        }
    }

    /// Decoding the encoding of a variant gives that variant back.
    pub proof fn law_decode_raw_value(self)
        ensures
            ResourceMgmt::decode(self.raw_value()) == Some(self),
    {
    }

    /// Whatever decodes is encoded back to the same value.
    pub proof fn law_raw_value_decode(value: u32)
        requires
            ResourceMgmt::decode(value) is Some,
        ensures
            ResourceMgmt::decode(value).unwrap().raw_value() == value,
    {
    }
}

/// An enumeration of counter event types.
#[derive(Clone, Copy, Debug, PartialEq, Eq, Structural)]
pub enum CounterEvents {
    Comp,
    Bytes,
}

impl CounterEvents {
    /// The libfabric encoding of each variant.
    pub open spec fn raw_value(self) -> u32 {
        match self {
            CounterEvents::Comp => FI_CNTR_EVENTS_COMP,
            CounterEvents::Bytes => FI_CNTR_EVENTS_BYTES,
        }
    }

    /// The first variant, in declaration order, whose encoding is `value`.
    pub open spec fn decode(value: u32) -> Option<CounterEvents> {
        if value == FI_CNTR_EVENTS_COMP {
            Some(CounterEvents::Comp)
        } else if value == FI_CNTR_EVENTS_BYTES {
            Some(CounterEvents::Bytes)
        } else {
            None
        }
    }

    pub fn as_raw(&self) -> (r: u32)
        ensures
            r == self.raw_value(),
    {
        match self {
            CounterEvents::Comp => FI_CNTR_EVENTS_COMP,
            CounterEvents::Bytes => FI_CNTR_EVENTS_BYTES,
        }
    }

    /// Decodes `value`; only encodings of some variant are accepted.
    pub fn from_raw(value: u32) -> (r: CounterEvents)
        requires
            CounterEvents::decode(value) is Some,
        ensures
            CounterEvents::decode(value) == Some(r),
    {
        if value == FI_CNTR_EVENTS_COMP {
            CounterEvents::Comp
        } else {
            CounterEvents::Bytes
        }
    }

    /// Decodes `value`, or gives `None` when it encodes no variant.
    pub fn try_from_raw(value: u32) -> (r: Option<CounterEvents>)
        ensures
            r == CounterEvents::decode(value),
    {
        if value == FI_CNTR_EVENTS_COMP {
            Some(CounterEvents::Comp)
        } else if value == FI_CNTR_EVENTS_BYTES {
            Some(CounterEvents::Bytes)
        } else {
            None
        }
    }

    /// Decoding the encoding of a variant gives that variant back.
    pub proof fn law_decode_raw_value(self)
        ensures
            CounterEvents::decode(self.raw_value()) == Some(self),
    {
    }

    /// Whatever decodes is encoded back to the same value.
    pub proof fn law_raw_value_decode(value: u32)
        requires
            CounterEvents::decode(value) is Some,
        ensures
            CounterEvents::decode(value).unwrap().raw_value() == value,
    {
    }
}

/// An enumeration of traffic classes for network packets.
#[derive(Clone, Copy, Debug, PartialEq, Eq, Structural)]
pub enum TrafficClass {
    Unspec,
    Dscp,
    Label,
    BestEffort,
    LowLatency,
    DedicatedAccess,
    BulkData,
    Scavenger,
    NetworkCtrl,
}

impl TrafficClass {
    /// The libfabric encoding of each variant.
    pub open spec fn raw_value(self) -> u32 {
        match self {
            TrafficClass::Unspec => FI_TC_UNSPEC,
            TrafficClass::Dscp => FI_TC_DSCP,
            TrafficClass::Label => FI_TC_LABEL,
            TrafficClass::BestEffort => FI_TC_BEST_EFFORT,
            TrafficClass::LowLatency => FI_TC_LOW_LATENCY,
            TrafficClass::DedicatedAccess => FI_TC_DEDICATED_ACCESS,
            TrafficClass::BulkData => FI_TC_BULK_DATA,
            TrafficClass::Scavenger => FI_TC_SCAVENGER,
            TrafficClass::NetworkCtrl => FI_TC_NETWORK_CTRL,
        }
    }

    /// The first variant, in declaration order, whose encoding is `value`.
    pub open spec fn decode(value: u32) -> Option<TrafficClass> {
        if value == FI_TC_UNSPEC {
            Some(TrafficClass::Unspec)
        } else if value == FI_TC_DSCP {
            Some(TrafficClass::Dscp)
        } else if value == FI_TC_LABEL {
            Some(TrafficClass::Label)
        } else if value == FI_TC_BEST_EFFORT {
            Some(TrafficClass::BestEffort)
        } else if value == FI_TC_LOW_LATENCY {
            Some(TrafficClass::LowLatency)
        } else if value == FI_TC_DEDICATED_ACCESS {
            Some(TrafficClass::DedicatedAccess)
        } else if value == FI_TC_BULK_DATA {
            Some(TrafficClass::BulkData)
        } else if value == FI_TC_SCAVENGER {
            Some(TrafficClass::Scavenger)
        } else if value == FI_TC_NETWORK_CTRL {
            Some(TrafficClass::NetworkCtrl)
        } else {
            None
        }
    }

    pub fn as_raw(&self) -> (r: u32)
        ensures
            r == self.raw_value(),
    {
        match self {
            TrafficClass::Unspec => FI_TC_UNSPEC,
            TrafficClass::Dscp => FI_TC_DSCP,
            TrafficClass::Label => FI_TC_LABEL,
            TrafficClass::BestEffort => FI_TC_BEST_EFFORT,
            TrafficClass::LowLatency => FI_TC_LOW_LATENCY,
            TrafficClass::DedicatedAccess => FI_TC_DEDICATED_ACCESS,
            TrafficClass::BulkData => FI_TC_BULK_DATA,
            TrafficClass::Scavenger => FI_TC_SCAVENGER,
            TrafficClass::NetworkCtrl => FI_TC_NETWORK_CTRL,
        }
    }

    /// Decodes `value`; only encodings of some variant are accepted.
    pub fn from_raw(value: u32) -> (r: TrafficClass)
        requires
            TrafficClass::decode(value) is Some,
        ensures
            TrafficClass::decode(value) == Some(r),
    {
        if value == FI_TC_UNSPEC {
            TrafficClass::Unspec
        } else if value == FI_TC_DSCP {
            TrafficClass::Dscp
        } else if value == FI_TC_LABEL {
            TrafficClass::Label
        } else if value == FI_TC_BEST_EFFORT {
            TrafficClass::BestEffort
        } else if value == FI_TC_LOW_LATENCY {
            TrafficClass::LowLatency
        } else if value == FI_TC_DEDICATED_ACCESS {
            TrafficClass::DedicatedAccess
        } else if value == FI_TC_BULK_DATA {
            TrafficClass::BulkData
        } else if value == FI_TC_SCAVENGER {
            TrafficClass::Scavenger
        } else {
            TrafficClass::NetworkCtrl
        }
    }

    /// Decodes `value`, or gives `None` when it encodes no variant.
    pub fn try_from_raw(value: u32) -> (r: Option<TrafficClass>)
        ensures
            r == TrafficClass::decode(value),
    {
        if value == FI_TC_UNSPEC {
            Some(TrafficClass::Unspec)
        } else if value == FI_TC_DSCP {
            Some(TrafficClass::Dscp)
        } else if value == FI_TC_LABEL {
            Some(TrafficClass::Label)
        } else if value == FI_TC_BEST_EFFORT {
            Some(TrafficClass::BestEffort)
        } else if value == FI_TC_LOW_LATENCY {
            Some(TrafficClass::LowLatency)
        } else if value == FI_TC_DEDICATED_ACCESS {
            Some(TrafficClass::DedicatedAccess)
        } else if value == FI_TC_BULK_DATA {
            Some(TrafficClass::BulkData)
        } else if value == FI_TC_SCAVENGER {
            Some(TrafficClass::Scavenger)
        } else if value == FI_TC_NETWORK_CTRL {
            Some(TrafficClass::NetworkCtrl)
        } else {
            None
        }
    }

    /// Decoding the encoding of a variant gives that variant back, for every variant
    /// but `BestEffort` (same encoding as `Label`).
    pub proof fn law_decode_raw_value(self)
        requires
            self != TrafficClass::BestEffort,
        ensures
            TrafficClass::decode(self.raw_value()) == Some(self),
    {
    }

    /// Whatever decodes is encoded back to the same value.
    pub proof fn law_raw_value_decode(value: u32)
        requires
            TrafficClass::decode(value) is Some,
        ensures
            TrafficClass::decode(value).unwrap().raw_value() == value,
    {
    }
}

/// An enumeration of address formats.
#[derive(Clone, Copy, Debug, PartialEq, Eq, Structural)]
pub enum AddressFormat {
    Unspec,
    SockAddr,
    SockaddrIn,
    SockaddrIn6,
    SockaddrIb,
    Psmx,
    Gni,
    Bgq,
    Mlx,
    Str,
    Psmx2,
    IbUd,
    Efa,
    Psmx3,
    Opx,
    Cxi,
    Ucx,
}

impl AddressFormat {
    /// The libfabric encoding of each variant.
    pub open spec fn raw_value(self) -> u32 {
        match self {
            AddressFormat::Unspec => FI_FORMAT_UNSPEC,
            AddressFormat::SockAddr => FI_SOCKADDR,
            AddressFormat::SockaddrIn => FI_SOCKADDR_IN,
            AddressFormat::SockaddrIn6 => FI_SOCKADDR_IN6,
            AddressFormat::SockaddrIb => FI_SOCKADDR_IB,
            AddressFormat::Psmx => FI_ADDR_PSMX,
            AddressFormat::Gni => FI_ADDR_GNI,
            AddressFormat::Bgq => FI_ADDR_BGQ,
            AddressFormat::Mlx => FI_ADDR_MLX,
            AddressFormat::Str => FI_ADDR_STR,
            AddressFormat::Psmx2 => FI_ADDR_PSMX2,
            AddressFormat::IbUd => FI_ADDR_IB_UD,
            AddressFormat::Efa => FI_ADDR_EFA,
            AddressFormat::Psmx3 => FI_ADDR_PSMX3,
            AddressFormat::Opx => FI_ADDR_OPX,
            AddressFormat::Cxi => FI_ADDR_CXI,
            AddressFormat::Ucx => FI_ADDR_UCX,
        }
    }

    /// The first variant, in declaration order, whose encoding is `value`.
    pub open spec fn decode(value: u32) -> Option<AddressFormat> {
        if value == FI_FORMAT_UNSPEC {
            Some(AddressFormat::Unspec)
        } else if value == FI_SOCKADDR {
            Some(AddressFormat::SockAddr)
        } else if value == FI_SOCKADDR_IN {
            Some(AddressFormat::SockaddrIn)
        } else if value == FI_SOCKADDR_IN6 {
            Some(AddressFormat::SockaddrIn6)
        } else if value == FI_SOCKADDR_IB {
            Some(AddressFormat::SockaddrIb)
        } else if value == FI_ADDR_PSMX {
            Some(AddressFormat::Psmx)
        } else if value == FI_ADDR_GNI {
            Some(AddressFormat::Gni)
        } else if value == FI_ADDR_BGQ {
            Some(AddressFormat::Bgq)
        } else if value == FI_ADDR_MLX {
            Some(AddressFormat::Mlx)
        } else if value == FI_ADDR_STR {
            Some(AddressFormat::Str)
        } else if value == FI_ADDR_PSMX2 {
            Some(AddressFormat::Psmx2)
        } else if value == FI_ADDR_IB_UD {
            Some(AddressFormat::IbUd)
        } else if value == FI_ADDR_EFA {
            Some(AddressFormat::Efa)
        } else if value == FI_ADDR_PSMX3 {
            Some(AddressFormat::Psmx3)
        } else if value == FI_ADDR_OPX {
            Some(AddressFormat::Opx)
        } else if value == FI_ADDR_CXI {
            Some(AddressFormat::Cxi)
        } else if value == FI_ADDR_UCX {
            Some(AddressFormat::Ucx)
        } else {
            None
        }
    }

    pub fn as_raw(&self) -> (r: u32)
        ensures
            r == self.raw_value(),
    {
        match self {
            AddressFormat::Unspec => FI_FORMAT_UNSPEC,
            AddressFormat::SockAddr => FI_SOCKADDR,
            AddressFormat::SockaddrIn => FI_SOCKADDR_IN,
            AddressFormat::SockaddrIn6 => FI_SOCKADDR_IN6,
            AddressFormat::SockaddrIb => FI_SOCKADDR_IB,
            AddressFormat::Psmx => FI_ADDR_PSMX,
            AddressFormat::Gni => FI_ADDR_GNI,
            AddressFormat::Bgq => FI_ADDR_BGQ,
            AddressFormat::Mlx => FI_ADDR_MLX,
            AddressFormat::Str => FI_ADDR_STR,
            AddressFormat::Psmx2 => FI_ADDR_PSMX2,
            AddressFormat::IbUd => FI_ADDR_IB_UD,
            AddressFormat::Efa => FI_ADDR_EFA,
            AddressFormat::Psmx3 => FI_ADDR_PSMX3,
            AddressFormat::Opx => FI_ADDR_OPX,
            AddressFormat::Cxi => FI_ADDR_CXI,
            AddressFormat::Ucx => FI_ADDR_UCX,
        }
    }

    /// Decodes `value`; only encodings of some variant are accepted.
    pub fn from_raw(value: u32) -> (r: AddressFormat)
        requires
            AddressFormat::decode(value) is Some,
        ensures
            AddressFormat::decode(value) == Some(r),
    {
        if value == FI_FORMAT_UNSPEC {
            AddressFormat::Unspec
        } else if value == FI_SOCKADDR {
            AddressFormat::SockAddr
        } else if value == FI_SOCKADDR_IN {
            AddressFormat::SockaddrIn
        } else if value == FI_SOCKADDR_IN6 {
            AddressFormat::SockaddrIn6
        } else if value == FI_SOCKADDR_IB {
            AddressFormat::SockaddrIb
        } else if value == FI_ADDR_PSMX {
            AddressFormat::Psmx
        } else if value == FI_ADDR_GNI {
            AddressFormat::Gni
        } else if value == FI_ADDR_BGQ {
            AddressFormat::Bgq
        } else if value == FI_ADDR_MLX {
            AddressFormat::Mlx
        } else if value == FI_ADDR_STR {
            AddressFormat::Str
        } else if value == FI_ADDR_PSMX2 {
            AddressFormat::Psmx2
        } else if value == FI_ADDR_IB_UD {
            AddressFormat::IbUd
        } else if value == FI_ADDR_EFA {
            AddressFormat::Efa
        } else if value == FI_ADDR_PSMX3 {
            AddressFormat::Psmx3
        } else if value == FI_ADDR_OPX {
            AddressFormat::Opx
        } else if value == FI_ADDR_CXI {
            AddressFormat::Cxi
        } else {
            AddressFormat::Ucx
        }
    }

    /// Decodes `value`, or gives `None` when it encodes no variant.
    pub fn try_from_raw(value: u32) -> (r: Option<AddressFormat>)
        ensures
            r == AddressFormat::decode(value),
    {
        if value == FI_FORMAT_UNSPEC {
            Some(AddressFormat::Unspec)
        } else if value == FI_SOCKADDR {
            Some(AddressFormat::SockAddr)
        } else if value == FI_SOCKADDR_IN {
            Some(AddressFormat::SockaddrIn)
        } else if value == FI_SOCKADDR_IN6 {
            Some(AddressFormat::SockaddrIn6)
        } else if value == FI_SOCKADDR_IB {
            Some(AddressFormat::SockaddrIb)
        } else if value == FI_ADDR_PSMX {
            Some(AddressFormat::Psmx)
        } else if value == FI_ADDR_GNI {
            Some(AddressFormat::Gni)
        } else if value == FI_ADDR_BGQ {
            Some(AddressFormat::Bgq)
        } else if value == FI_ADDR_MLX {
            Some(AddressFormat::Mlx)
        } else if value == FI_ADDR_STR {
            Some(AddressFormat::Str)
        } else if value == FI_ADDR_PSMX2 {
            Some(AddressFormat::Psmx2)
        } else if value == FI_ADDR_IB_UD {
            Some(AddressFormat::IbUd)
        } else if value == FI_ADDR_EFA {
            Some(AddressFormat::Efa)
        } else if value == FI_ADDR_PSMX3 {
            Some(AddressFormat::Psmx3)
        } else if value == FI_ADDR_OPX {
            Some(AddressFormat::Opx)
        } else if value == FI_ADDR_CXI {
            Some(AddressFormat::Cxi)
        } else if value == FI_ADDR_UCX {
            Some(AddressFormat::Ucx)
        } else {
            None
        }
    }

    /// Decoding the encoding of a variant gives that variant back.
    pub proof fn law_decode_raw_value(self)
        ensures
            AddressFormat::decode(self.raw_value()) == Some(self),
    {
    }

    /// Whatever decodes is encoded back to the same value.
    pub proof fn law_raw_value_decode(value: u32)
        requires
            AddressFormat::decode(value) is Some,
        ensures
            AddressFormat::decode(value).unwrap().raw_value() == value,
    {
    }
}

/// An enumeration of parameter types.
#[derive(Clone, Copy, Debug, PartialEq, Eq, Structural)]
pub enum ParamType {
    String,
    Int,
    Bool,
    SizeT,
}

impl ParamType {
    /// The libfabric encoding of each variant.
    pub open spec fn raw_value(self) -> u32 {
        match self {
            ParamType::String => FI_PARAM_STRING,
            ParamType::Int => FI_PARAM_INT,
            ParamType::Bool => FI_PARAM_BOOL,
            ParamType::SizeT => FI_PARAM_SIZE_T,
        }
    }

    /// The first variant, in declaration order, whose encoding is `value`.
    pub open spec fn decode(value: u32) -> Option<ParamType> {
        if value == FI_PARAM_STRING {
            Some(ParamType::String)
        } else if value == FI_PARAM_INT {
            Some(ParamType::Int)
        } else if value == FI_PARAM_BOOL {
            Some(ParamType::Bool)
        } else if value == FI_PARAM_SIZE_T {
            Some(ParamType::SizeT)
        } else {
            None
        }
    }

    pub fn as_raw(&self) -> (r: u32)
        ensures
            r == self.raw_value(),
    {
        match self {
            ParamType::String => FI_PARAM_STRING,
            ParamType::Int => FI_PARAM_INT,
            ParamType::Bool => FI_PARAM_BOOL,
            ParamType::SizeT => FI_PARAM_SIZE_T,
        }
    }

    /// Decodes `value`; only encodings of some variant are accepted.
    pub fn from_raw(value: u32) -> (r: ParamType)
        requires
            ParamType::decode(value) is Some,
        ensures
            ParamType::decode(value) == Some(r),
    {
        if value == FI_PARAM_STRING {
            ParamType::String
        } else if value == FI_PARAM_INT {
            ParamType::Int
        } else if value == FI_PARAM_BOOL {
            ParamType::Bool
        } else {
            ParamType::SizeT
        }
    }

    /// Decodes `value`, or gives `None` when it encodes no variant.
    pub fn try_from_raw(value: u32) -> (r: Option<ParamType>)
        ensures
            r == ParamType::decode(value),
    {
        if value == FI_PARAM_STRING {
            Some(ParamType::String)
        } else if value == FI_PARAM_INT {
            Some(ParamType::Int)
        } else if value == FI_PARAM_BOOL {
            Some(ParamType::Bool)
        } else if value == FI_PARAM_SIZE_T {
            Some(ParamType::SizeT)
        } else {
            None
        }
    }

    /// Decoding the encoding of a variant gives that variant back.
    pub proof fn law_decode_raw_value(self)
        ensures
            ParamType::decode(self.raw_value()) == Some(self),
    {
    }

    /// Whatever decodes is encoded back to the same value.
    pub proof fn law_raw_value_decode(value: u32)
        requires
            ParamType::decode(value) is Some,
        ensures
            ParamType::decode(value).unwrap().raw_value() == value,
    {
    }
}

/// An enumeration of protocol types.
#[derive(Clone, Copy, Debug, PartialEq, Eq, Structural)]
pub enum Protocol {
    Unspec,
    RdmaCmIbRc,
    Iwarp,
    IbUd,
    Psmx,
    Udp,
    SockTcp,
    Mxm,
    IwarpRdm,
    IbRdm,
    Gni,
    Rxm,
    Rxd,
    Mlx,
    NetworkDirect,
    Psmx2,
    Shm,
    Mrail,
    Rstream,
    RdmaCmIbXrc,
    Efa,
    Psmx3,
    RxmTcp,
    Opx,
    Cxi,
    CxiRnNR,
    Xnet,
    Coll,
    Ucx,
    Sm2,
}

impl Protocol {
    /// The libfabric encoding of each variant.
    pub open spec fn raw_value(self) -> u32 {
        match self {
            Protocol::Unspec => FI_PROTO_UNSPEC,
            Protocol::RdmaCmIbRc => FI_PROTO_RDMA_CM_IB_RC,
            Protocol::Iwarp => FI_PROTO_IWARP,
            Protocol::IbUd => FI_PROTO_IB_UD,
            Protocol::Psmx => FI_PROTO_PSMX,
            Protocol::Udp => FI_PROTO_UDP,
            Protocol::SockTcp => FI_PROTO_SOCK_TCP,
            Protocol::Mxm => FI_PROTO_MXM,
            Protocol::IwarpRdm => FI_PROTO_IWARP_RDM,
            Protocol::IbRdm => FI_PROTO_IB_RDM,
            Protocol::Gni => FI_PROTO_GNI,
            Protocol::Rxm => FI_PROTO_RXM,
            Protocol::Rxd => FI_PROTO_RXD,
            Protocol::Mlx => FI_PROTO_MLX,
            Protocol::NetworkDirect => FI_PROTO_NETWORKDIRECT,
            Protocol::Psmx2 => FI_PROTO_PSMX2,
            Protocol::Shm => FI_PROTO_SHM,
            Protocol::Mrail => FI_PROTO_MRAIL,
            Protocol::Rstream => FI_PROTO_RSTREAM,
            Protocol::RdmaCmIbXrc => FI_PROTO_RDMA_CM_IB_XRC,
            Protocol::Efa => FI_PROTO_EFA,
            Protocol::Psmx3 => FI_PROTO_PSMX3,
            Protocol::RxmTcp => FI_PROTO_RXM_TCP,
            Protocol::Opx => FI_PROTO_OPX,
            Protocol::Cxi => FI_PROTO_CXI,
            Protocol::CxiRnNR => FI_PROTO_CXI_RNR,
            Protocol::Xnet => FI_PROTO_XNET,
            Protocol::Coll => FI_PROTO_COLL,
            Protocol::Ucx => FI_PROTO_UCX,
            Protocol::Sm2 => FI_PROTO_SM2,
        }
    }

    /// The first variant, in declaration order, whose encoding is `value`.
    pub open spec fn decode(value: u32) -> Option<Protocol> {
        if value == FI_PROTO_UNSPEC {
            Some(Protocol::Unspec)
        } else if value == FI_PROTO_RDMA_CM_IB_RC {
            Some(Protocol::RdmaCmIbRc)
        } else if value == FI_PROTO_IWARP {
            Some(Protocol::Iwarp)
        } else if value == FI_PROTO_IB_UD {
            Some(Protocol::IbUd)
        } else if value == FI_PROTO_PSMX {
            Some(Protocol::Psmx)
        } else if value == FI_PROTO_UDP {
            Some(Protocol::Udp)
        } else if value == FI_PROTO_SOCK_TCP {
            Some(Protocol::SockTcp)
        } else if value == FI_PROTO_MXM {
            Some(Protocol::Mxm)
        } else if value == FI_PROTO_IWARP_RDM {
            Some(Protocol::IwarpRdm)
        } else if value == FI_PROTO_IB_RDM {
            Some(Protocol::IbRdm)
        } else if value == FI_PROTO_GNI {
            Some(Protocol::Gni)
        } else if value == FI_PROTO_RXM {
            Some(Protocol::Rxm)
        } else if value == FI_PROTO_RXD {
            Some(Protocol::Rxd)
        } else if value == FI_PROTO_MLX {
            Some(Protocol::Mlx)
        } else if value == FI_PROTO_NETWORKDIRECT {
            Some(Protocol::NetworkDirect)
        } else if value == FI_PROTO_PSMX2 {
            Some(Protocol::Psmx2)
        } else if value == FI_PROTO_SHM {
            Some(Protocol::Shm)
        } else if value == FI_PROTO_MRAIL {
            Some(Protocol::Mrail)
        } else if value == FI_PROTO_RSTREAM {
            Some(Protocol::Rstream)
        } else if value == FI_PROTO_RDMA_CM_IB_XRC {
            Some(Protocol::RdmaCmIbXrc)
        } else if value == FI_PROTO_EFA {
            Some(Protocol::Efa)
        } else if value == FI_PROTO_PSMX3 {
            Some(Protocol::Psmx3)
        } else if value == FI_PROTO_RXM_TCP {
            Some(Protocol::RxmTcp)
        } else if value == FI_PROTO_OPX {
            Some(Protocol::Opx)
        } else if value == FI_PROTO_CXI {
            Some(Protocol::Cxi)
        } else if value == FI_PROTO_CXI_RNR {
            Some(Protocol::CxiRnNR)
        } else if value == FI_PROTO_XNET {
            Some(Protocol::Xnet)
        } else if value == FI_PROTO_COLL {
            Some(Protocol::Coll)
        } else if value == FI_PROTO_UCX {
            Some(Protocol::Ucx)
        } else if value == FI_PROTO_SM2 {
            Some(Protocol::Sm2)
        } else {
            None
        }
    }

    pub fn as_raw(&self) -> (r: u32)
        ensures
            r == self.raw_value(),
    {
        match self {
            Protocol::Unspec => FI_PROTO_UNSPEC,
            Protocol::RdmaCmIbRc => FI_PROTO_RDMA_CM_IB_RC,
            Protocol::Iwarp => FI_PROTO_IWARP,
            Protocol::IbUd => FI_PROTO_IB_UD,
            Protocol::Psmx => FI_PROTO_PSMX,
            Protocol::Udp => FI_PROTO_UDP,
            Protocol::SockTcp => FI_PROTO_SOCK_TCP,
            Protocol::Mxm => FI_PROTO_MXM,
            Protocol::IwarpRdm => FI_PROTO_IWARP_RDM,
            Protocol::IbRdm => FI_PROTO_IB_RDM,
            Protocol::Gni => FI_PROTO_GNI,
            Protocol::Rxm => FI_PROTO_RXM,
            Protocol::Rxd => FI_PROTO_RXD,
            Protocol::Mlx => FI_PROTO_MLX,
            Protocol::NetworkDirect => FI_PROTO_NETWORKDIRECT,
            Protocol::Psmx2 => FI_PROTO_PSMX2,
            Protocol::Shm => FI_PROTO_SHM,
            Protocol::Mrail => FI_PROTO_MRAIL,
            Protocol::Rstream => FI_PROTO_RSTREAM,
            Protocol::RdmaCmIbXrc => FI_PROTO_RDMA_CM_IB_XRC,
            Protocol::Efa => FI_PROTO_EFA,
            Protocol::Psmx3 => FI_PROTO_PSMX3,
            Protocol::RxmTcp => FI_PROTO_RXM_TCP,
            Protocol::Opx => FI_PROTO_OPX,
            Protocol::Cxi => FI_PROTO_CXI,
            Protocol::CxiRnNR => FI_PROTO_CXI_RNR,
            Protocol::Xnet => FI_PROTO_XNET,
            Protocol::Coll => FI_PROTO_COLL,
            Protocol::Ucx => FI_PROTO_UCX,
            Protocol::Sm2 => FI_PROTO_SM2,
        }
    }

    /// Decodes `value`; only encodings of some variant are accepted.
    pub fn from_raw(value: u32) -> (r: Protocol)
        requires
            Protocol::decode(value) is Some,
        ensures
            Protocol::decode(value) == Some(r),
    {
        if value == FI_PROTO_UNSPEC {
            Protocol::Unspec
        } else if value == FI_PROTO_RDMA_CM_IB_RC {
            Protocol::RdmaCmIbRc
        } else if value == FI_PROTO_IWARP {
            Protocol::Iwarp
        } else if value == FI_PROTO_IB_UD {
            Protocol::IbUd
        } else if value == FI_PROTO_PSMX {
            Protocol::Psmx
        } else if value == FI_PROTO_UDP {
            Protocol::Udp
        } else if value == FI_PROTO_SOCK_TCP {
            Protocol::SockTcp
        } else if value == FI_PROTO_MXM {
            Protocol::Mxm
        } else if value == FI_PROTO_IWARP_RDM {
            Protocol::IwarpRdm
        } else if value == FI_PROTO_IB_RDM {
            Protocol::IbRdm
        } else if value == FI_PROTO_GNI {
            Protocol::Gni
        } else if value == FI_PROTO_RXM {
            Protocol::Rxm
        } else if value == FI_PROTO_RXD {
            Protocol::Rxd
        } else if value == FI_PROTO_MLX {
            Protocol::Mlx
        } else if value == FI_PROTO_NETWORKDIRECT {
            Protocol::NetworkDirect
        } else if value == FI_PROTO_PSMX2 {
            Protocol::Psmx2
        } else if value == FI_PROTO_SHM {
            Protocol::Shm
        } else if value == FI_PROTO_MRAIL {
            Protocol::Mrail
        } else if value == FI_PROTO_RSTREAM {
            Protocol::Rstream
        } else if value == FI_PROTO_RDMA_CM_IB_XRC {
            Protocol::RdmaCmIbXrc
        } else if value == FI_PROTO_EFA {
            Protocol::Efa
        } else if value == FI_PROTO_PSMX3 {
            Protocol::Psmx3
        } else if value == FI_PROTO_RXM_TCP {
            Protocol::RxmTcp
        } else if value == FI_PROTO_OPX {
            Protocol::Opx
        } else if value == FI_PROTO_CXI {
            Protocol::Cxi
        } else if value == FI_PROTO_CXI_RNR {
            Protocol::CxiRnNR
        } else if value == FI_PROTO_XNET {
            Protocol::Xnet
        } else if value == FI_PROTO_COLL {
            Protocol::Coll
        } else if value == FI_PROTO_UCX {
            Protocol::Ucx
        } else {
            Protocol::Sm2
        }
    }

    /// Decodes `value`, or gives `None` when it encodes no variant.
    pub fn try_from_raw(value: u32) -> (r: Option<Protocol>)
        ensures
            r == Protocol::decode(value),
    {
        if value == FI_PROTO_UNSPEC {
            Some(Protocol::Unspec)
        } else if value == FI_PROTO_RDMA_CM_IB_RC {
            Some(Protocol::RdmaCmIbRc)
        } else if value == FI_PROTO_IWARP {
            Some(Protocol::Iwarp)
        } else if value == FI_PROTO_IB_UD {
            Some(Protocol::IbUd)
        } else if value == FI_PROTO_PSMX {
            Some(Protocol::Psmx)
        } else if value == FI_PROTO_UDP {
            Some(Protocol::Udp)
        } else if value == FI_PROTO_SOCK_TCP {
            Some(Protocol::SockTcp)
        } else if value == FI_PROTO_MXM {
            Some(Protocol::Mxm)
        } else if value == FI_PROTO_IWARP_RDM {
            Some(Protocol::IwarpRdm)
        } else if value == FI_PROTO_IB_RDM {
            Some(Protocol::IbRdm)
        } else if value == FI_PROTO_GNI {
            Some(Protocol::Gni)
        } else if value == FI_PROTO_RXM {
            Some(Protocol::Rxm)
        } else if value == FI_PROTO_RXD {
            Some(Protocol::Rxd)
        } else if value == FI_PROTO_MLX {
            Some(Protocol::Mlx)
        } else if value == FI_PROTO_NETWORKDIRECT {
            Some(Protocol::NetworkDirect)
        } else if value == FI_PROTO_PSMX2 {
            Some(Protocol::Psmx2)
        } else if value == FI_PROTO_SHM {
            Some(Protocol::Shm)
        } else if value == FI_PROTO_MRAIL {
            Some(Protocol::Mrail)
        } else if value == FI_PROTO_RSTREAM {
            Some(Protocol::Rstream)
        } else if value == FI_PROTO_RDMA_CM_IB_XRC {
            Some(Protocol::RdmaCmIbXrc)
        } else if value == FI_PROTO_EFA {
            Some(Protocol::Efa)
        } else if value == FI_PROTO_PSMX3 {
            Some(Protocol::Psmx3)
        } else if value == FI_PROTO_RXM_TCP {
            Some(Protocol::RxmTcp)
        } else if value == FI_PROTO_OPX {
            Some(Protocol::Opx)
        } else if value == FI_PROTO_CXI {
            Some(Protocol::Cxi)
        } else if value == FI_PROTO_CXI_RNR {
            Some(Protocol::CxiRnNR)
        } else if value == FI_PROTO_XNET {
            Some(Protocol::Xnet)
        } else if value == FI_PROTO_COLL {
            Some(Protocol::Coll)
        } else if value == FI_PROTO_UCX {
            Some(Protocol::Ucx)
        } else if value == FI_PROTO_SM2 {
            Some(Protocol::Sm2)
        } else {
            None
        }
    }

    /// Decoding the encoding of a variant gives that variant back.
    pub proof fn law_decode_raw_value(self)
        ensures
            Protocol::decode(self.raw_value()) == Some(self),
    {
    }

    /// Whatever decodes is encoded back to the same value.
    pub proof fn law_raw_value_decode(value: u32)
        requires
            Protocol::decode(value) is Some,
        ensures
            Protocol::decode(value).unwrap().raw_value() == value,
    {
    }
}

/// A trait for atomic operations that can be converted to their raw representation.
///
/// Used as a bound for functions that accept atomic operations.
pub trait AtomicOperation {
    /// The libfabric encoding of the operation.
    spec fn op_value(&self) -> u32;

    fn as_raw(&self) -> (r: u32)
        ensures
            r == self.op_value(),
    ;
}

impl AtomicOperation for AtomicOp {
    open spec fn op_value(&self) -> u32 {
        self.raw_value()
    }

    fn as_raw(&self) -> (r: u32) {
        AtomicOp::as_raw(self)
    }
}

impl AtomicOperation for FetchAtomicOp {
    open spec fn op_value(&self) -> u32 {
        self.raw_value()
    }

    fn as_raw(&self) -> (r: u32) {
        FetchAtomicOp::as_raw(self)
    }
}

impl AtomicOperation for CompareAtomicOp {
    open spec fn op_value(&self) -> u32 {
        self.raw_value()
    }

    fn as_raw(&self) -> (r: u32) {
        CompareAtomicOp::as_raw(self)
    }
}

/// A profile data type, which can be either a primitive data type or a defined type.
pub enum ProfileDataType {
    Primitive(DataType),
    Defined(Type),
}

/// An enumeration of wait object kinds. A wait set is named by its fabric handle.
#[derive(Clone, Copy, Debug, PartialEq, Eq, Structural)]
pub enum WaitObj {
    NoWait,
    Unspec,
    WaitSet(u64),
    Fd,
    MutexCond,
    Yield,
    PollFd,
}

impl WaitObj {
    /// The libfabric encoding of the wait object kind.
    pub open spec fn raw_value(self) -> u32 {
        match self {
            WaitObj::NoWait => FI_WAIT_NONE,
            WaitObj::Unspec => FI_WAIT_UNSPEC,
            WaitObj::WaitSet(_) => FI_WAIT_SET,
            WaitObj::Fd => FI_WAIT_FD,
            WaitObj::MutexCond => FI_WAIT_MUTEX_COND,
            WaitObj::Yield => FI_WAIT_YIELD,
            WaitObj::PollFd => FI_WAIT_POLLFD,
        }
    }

    pub fn as_raw(&self) -> (r: u32)
        ensures
            r == self.raw_value(),
    {
        match self {
            WaitObj::NoWait => FI_WAIT_NONE,
            WaitObj::Unspec => FI_WAIT_UNSPEC,
            WaitObj::WaitSet(_) => FI_WAIT_SET,
            WaitObj::Fd => FI_WAIT_FD,
            WaitObj::MutexCond => FI_WAIT_MUTEX_COND,
            WaitObj::Yield => FI_WAIT_YIELD,
            WaitObj::PollFd => FI_WAIT_POLLFD,
        }
    }
}

/// An enumeration of memory registration interfaces.
#[derive(Clone, Copy, Debug, PartialEq, Eq, Structural)]
pub enum HmemIface {
    System,
    Cuda(i32),
    Rocr(i32),
    Ze(i32, i32),
    Neuron(i32),
    SynapseAi(i32),
}

impl HmemIface {
    /// The libfabric encoding of the interface (the device ids are carried separately).
    pub open spec fn raw_value(self) -> u32 {
        match self {
            HmemIface::System => FI_HMEM_SYSTEM,
            HmemIface::Cuda(_) => FI_HMEM_CUDA,
            HmemIface::Rocr(_) => FI_HMEM_ROCR,
            HmemIface::Ze(_, _) => FI_HMEM_ZE,
            HmemIface::Neuron(_) => FI_HMEM_NEURON,
            HmemIface::SynapseAi(_) => FI_HMEM_SYNAPSEAI,
        }
    }

    /// The interface encoded by `value`, with the device ids that apply to it.
    pub open spec fn decode(value: u32, id: i32, additional_id: i32) -> Option<HmemIface> {
        if value == FI_HMEM_SYSTEM {
            Some(HmemIface::System)
        } else if value == FI_HMEM_CUDA {
            Some(HmemIface::Cuda(id))
        } else if value == FI_HMEM_ROCR {
            Some(HmemIface::Rocr(id))
        } else if value == FI_HMEM_ZE {
            Some(HmemIface::Ze(id, additional_id))
        } else if value == FI_HMEM_NEURON {
            Some(HmemIface::Neuron(id))
        } else if value == FI_HMEM_SYNAPSEAI {
            Some(HmemIface::SynapseAi(id))
        } else {
            None
        }
    }

    pub fn as_raw(&self) -> (r: u32)
        ensures
            r == self.raw_value(),
    {
        match self {
            HmemIface::System => FI_HMEM_SYSTEM,
            HmemIface::Cuda(_) => FI_HMEM_CUDA,
            HmemIface::Rocr(_) => FI_HMEM_ROCR,
            HmemIface::Ze(_, _) => FI_HMEM_ZE,
            HmemIface::Neuron(_) => FI_HMEM_NEURON,
            HmemIface::SynapseAi(_) => FI_HMEM_SYNAPSEAI,
        }
    }

    /// Decodes an interface; only the encodings of an interface are accepted.
    pub fn from_raw(value: u32, id: i32, additional_id: i32) -> (r: HmemIface)
        requires
            HmemIface::decode(value, id, additional_id) is Some,
        ensures
            HmemIface::decode(value, id, additional_id) == Some(r),
    {
        if value == FI_HMEM_SYSTEM {
            HmemIface::System
        } else if value == FI_HMEM_CUDA {
            HmemIface::Cuda(id)
        } else if value == FI_HMEM_ROCR {
            HmemIface::Rocr(id)
        } else if value == FI_HMEM_ZE {
            HmemIface::Ze(id, additional_id)
        } else if value == FI_HMEM_NEURON {
            HmemIface::Neuron(id)
        } else {
            HmemIface::SynapseAi(id)
        }
    }

    /// The device id that travels with the interface (0 for system memory).
    pub open spec fn device_id(self) -> i32 {
        match self {
            HmemIface::System => 0,
            HmemIface::Cuda(id) => id,
            HmemIface::Rocr(id) => id,
            HmemIface::Ze(id, _) => id,
            HmemIface::Neuron(id) => id,
            HmemIface::SynapseAi(id) => id,
        }
    }

    /// Decoding an interface's encoding with its own device ids gives it back.
    pub proof fn law_decode_raw_value(self, additional_id: i32)
        requires
            self matches HmemIface::Ze(_, extra) ==> extra == additional_id,
        ensures
            HmemIface::decode(self.raw_value(), self.device_id(), additional_id) == Some(self),
    {
    }
}

/// A counter threshold that releases a triggered operation. The counter is named by its
/// fabric handle.
#[derive(Clone, Copy, Debug, PartialEq, Eq, Structural)]
pub struct TriggerThreshold {
    pub cntr: u64,
    pub threshold: usize,
}

/// A device-side trigger.
#[derive(Clone, Copy, Debug, PartialEq, Eq, Structural)]
pub struct TriggerXpu {
    pub count: i32,
    pub iface: HmemIface,
}

/// An enumeration of trigger events.
#[derive(Clone, Copy, Debug, PartialEq, Eq, Structural)]
pub enum TriggerEvent {
    Threshold(TriggerThreshold),
    Xpu(TriggerXpu),
}

impl TriggerEvent {
    /// The libfabric encoding of the event kind.
    pub open spec fn raw_value(self) -> u32 {
        match self {
            TriggerEvent::Threshold(_) => FI_TRIGGER_THRESHOLD,
            TriggerEvent::Xpu(_) => FI_TRIGGER_XPU,
        }
    }

    /// The event kind as libfabric encodes it; the payload is the variant's own data.
    pub fn as_raw(&self) -> (r: u32)
        ensures
            r == self.raw_value(),
    {
        match self {
            TriggerEvent::Threshold(_) => FI_TRIGGER_THRESHOLD,
            TriggerEvent::Xpu(_) => FI_TRIGGER_XPU,
        }
    }

    /// The event kind for a `struct fi_triggered_context2`, which encodes it as
    /// [TriggerEvent::as_raw] does.
    pub fn as_raw2(&self) -> (r: u32)
        ensures
            r == self.raw_value(),
    {
        self.as_raw()
    }
}

/// `fi_tc_dscp_set`: the traffic class that carries a DSCP value.
pub open spec fn tc_dscp_set(dscp: u8) -> u32 {
    (dscp as u32) | FI_TC_DSCP
}

/// `fi_tc_dscp_get`: the DSCP value carried by a traffic class, or 0 when it carries none.
pub open spec fn tc_dscp_get(tclass: u32) -> u8 {
    if tclass & FI_TC_DSCP != 0 {
        tclass as u8
    } else {
        0
    }
}

/// A traffic class built from a DSCP value carries that value back: `fi_tc_dscp_get` undoes
/// `fi_tc_dscp_set`.
pub proof fn law_dscp_set_get(dscp: u8)
    ensures
        tc_dscp_get(tc_dscp_set(dscp)) == dscp,
{
    assert(((dscp as u32) | 0x100u32) & 0x100u32 != 0) by (bit_vector);
    assert((((dscp as u32) | 0x100u32) as u8) == dscp) by (bit_vector);
}

impl Dscp {
    /// The DSCP value of a traffic class, as `fi_tc_dscp_get` extracts it.
    pub fn from_traffic_class(tc: TrafficClass) -> (r: Dscp)
        ensures
            Dscp::decode(tc_dscp_get(tc.raw_value())) == Some(r),
            r == Dscp::CS0,
    {
        let raw = tc.as_raw();
        assert(tc_dscp_get(raw) == 0) by {
            assert(0u32 & 0x100u32 == 0) by (bit_vector);
            assert(0x100u32 & 0x100u32 != 0) by (bit_vector);
            assert(0x200u32 & 0x100u32 == 0) by (bit_vector);
            assert(0x201u32 & 0x100u32 == 0) by (bit_vector);
            assert(0x202u32 & 0x100u32 == 0) by (bit_vector);
            assert(0x203u32 & 0x100u32 == 0) by (bit_vector);
            assert(0x204u32 & 0x100u32 == 0) by (bit_vector);
            assert(0x205u32 & 0x100u32 == 0) by (bit_vector);
            assert(0x100u32 as u8 == 0) by (bit_vector);
        }
        let dscp: u8 = if raw & FI_TC_DSCP != 0 {
            raw as u8
        } else {
            0
        };
        Dscp::from_raw(dscp)
    }
}

impl From<TrafficClass> for Dscp {
    fn from(tc: TrafficClass) -> (r: Dscp) {
        Dscp::from_traffic_class(tc)
    }
}

impl vstd::std_specs::convert::FromSpecImpl<TrafficClass> for Dscp {
    open spec fn obeys_from_spec() -> bool {
        true
    }

    open spec fn from_spec(tc: TrafficClass) -> Dscp {
        match Dscp::decode(tc_dscp_get(tc.raw_value())) {
            Some(d) => d,
            None => Dscp::CS0,
        }
    }
}

impl TrafficClass {
    /// The traffic class that `fi_tc_dscp_set` builds for a DSCP value. Only `CS0` (value 0)
    /// gives an encoding that is a listed traffic class (`Dscp`); any other value would not
    /// decode.
    pub fn from_dscp(dscp: Dscp) -> (r: TrafficClass)
        requires
            TrafficClass::decode(tc_dscp_set(dscp.raw_value())) is Some,
        ensures
            TrafficClass::decode(tc_dscp_set(dscp.raw_value())) == Some(r),
    {
        let raw = (dscp.as_raw() as u32) | FI_TC_DSCP;
        TrafficClass::from_raw(raw)
    }
}

} // verus!
