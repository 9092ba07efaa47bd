use vstd::prelude::*;

verus! {

// Address formats and reserved addresses.
pub const FI_ADDR_BGQ: u32 = 7;
pub const FI_ADDR_CXI: u32 = 15;
pub const FI_ADDR_EFA: u32 = 12;
pub const FI_ADDR_GNI: u32 = 6;
pub const FI_ADDR_IB_UD: u32 = 11;
pub const FI_ADDR_MLX: u32 = 8;
pub const FI_ADDR_OPX: u32 = 14;
pub const FI_ADDR_PSMX: u32 = 5;
pub const FI_ADDR_PSMX2: u32 = 10;
pub const FI_ADDR_PSMX3: u32 = 13;
pub const FI_ADDR_STR: u32 = 9;
pub const FI_ADDR_UCX: u32 = 16;
pub const FI_FORMAT_UNSPEC: u32 = 0;
pub const FI_SOCKADDR: u32 = 1;
pub const FI_SOCKADDR_IB: u32 = 4;
pub const FI_SOCKADDR_IN: u32 = 2;
pub const FI_SOCKADDR_IN6: u32 = 3;
pub const FI_ADDR_UNSPEC: u64 = 0xffffffffffffffff;
pub const FI_ADDR_NOTAVAIL: u64 = 0xffffffffffffffff;

// Capability, mode and operation flag bits.
pub const FI_AFFINITY: u32 = 0x20000000;
pub const FI_ALLGATHER_SET: u64 = 0x100000000000;
pub const FI_ALLREDUCE_SET: u64 = 0x80000000000;
pub const FI_ALLTOALL_SET: u64 = 0x40000000000;
pub const FI_ASYNC_IOV: u64 = 0x200000000000000;
pub const FI_ATOMIC: u32 = 16;
pub const FI_AUTH_KEY: u64 = 0x200000000000000;
pub const FI_AV_USER_ID: u64 = 0x20000000000;
pub const FI_BARRIER_SET: u64 = 0x10000000000;
pub const FI_BROADCAST_SET: u64 = 0x20000000000;
pub const FI_BUFFERED_RECV: u64 = 0x8000000000000;
pub const FI_CLAIM: u64 = 0x800000000000000;
pub const FI_COLLECTIVE: u32 = 64;
pub const FI_COMMIT_COMPLETE: u32 = 0x40000000;
pub const FI_COMPLETION: u32 = 0x1000000;
pub const FI_CONTEXT: u64 = 0x800000000000000;
pub const FI_CONTEXT2: u64 = 0x10000000000000;
pub const FI_DELIVERY_COMPLETE: u32 = 0x10000000;
pub const FI_DIRECTED_RECV: u64 = 0x800000000000000;
pub const FI_DISCARD: u64 = 0x400000000000000;
pub const FI_FENCE: u32 = 0x200000;
pub const FI_GATHER_SET: u64 = 0x1000000000000;
pub const FI_HMEM_DEVICE_ONLY: u64 = 0x400000000000;
pub const FI_HMEM_HOST_ALLOC: u64 = 0x200000000000;
pub const FI_INJECT: u32 = 0x2000000;
pub const FI_INJECT_COMPLETE: u32 = 0x4000000;
pub const FI_LOCAL_COMM: u64 = 0x8000000000000;
pub const FI_LOCAL_MR: u64 = 0x80000000000000;
pub const FI_MATCH_COMPLETE: u32 = 0x80000000;
pub const FI_MORE: u32 = 0x40000;
pub const FI_MSG: u32 = 2;
pub const FI_MSG_PREFIX: u64 = 0x400000000000000;
pub const FI_MULTICAST: u32 = 32;
pub const FI_MULTI_RECV: u32 = 0x10000;
pub const FI_NOTIFY_FLAGS_ONLY: u64 = 0x40000000000000;
pub const FI_PEEK: u32 = 0x80000;
pub const FI_PEER: u64 = 0x80000000000;
pub const FI_READ: u32 = 0x100;
pub const FI_RECV: u32 = 0x400;
pub const FI_REDUCE_SCATTER_SET: u64 = 0x200000000000;
pub const FI_REDUCE_SET: u64 = 0x400000000000;
pub const FI_REG_MR: u64 = 0x800000000000000;
pub const FI_REMOTE_COMM: u64 = 0x10000000000000;
pub const FI_REMOTE_CQ_DATA: u32 = 0x20000;
pub const FI_REMOTE_READ: u32 = 0x1000;
pub const FI_REMOTE_WRITE: u32 = 0x2000;
pub const FI_RESTRICTED_COMP: u64 = 0x20000000000000;
pub const FI_RMA: u32 = 4;
pub const FI_RMA_EVENT: u64 = 0x100000000000000;
pub const FI_RMA_PMEM: u64 = 0x2000000000000;
pub const FI_RX_CQ_DATA: u64 = 0x100000000000000;
pub const FI_SCATTER_SET: u64 = 0x800000000000;
pub const FI_SEND: u32 = 0x800;
pub const FI_TRANSMIT: u32 = FI_SEND;
pub const FI_SHARED_AV: u64 = 0x20000000000000;
pub const FI_SYNC_ERR: u64 = 0x400000000000000;
pub const FI_TAGGED: u32 = 8;
pub const FI_TRANSMIT_COMPLETE: u32 = 0x8000000;
pub const FI_UNIVERSE: u64 = 0x1000000000000000;
pub const FI_WRITE: u32 = 0x200;

// Commands of `fi_control`.
pub const FI_ALIAS: u32 = 4;
pub const FI_BACKLOG: u32 = 7;
pub const FI_CANCEL_WORK: u32 = 12;
pub const FI_DUP: u32 = 15;
pub const FI_ENABLE: u32 = 6;
pub const FI_EXPORT_FID: u32 = 19;
pub const FI_FLUSH_WORK: u32 = 13;
pub const FI_GETFIDFLAG: u32 = 0;
pub const FI_GETOPSFLAG: u32 = 2;
pub const FI_GETWAIT: u32 = 5;
pub const FI_GETWAITOBJ: u32 = 16;
pub const FI_GET_RAW_MR: u32 = 8;
pub const FI_GET_VAL: u32 = 17;
pub const FI_MAP_RAW_MR: u32 = 9;
pub const FI_QUEUE_WORK: u32 = 11;
pub const FI_REFRESH: u32 = 14;
pub const FI_SETFIDFLAG: u32 = 1;
pub const FI_SETOPSFLAG: u32 = 3;
pub const FI_SET_VAL: u32 = 18;
pub const FI_UNMAP_KEY: u32 = 10;

// Collective operations (`fi_collective_op`).
pub const FI_ALLGATHER: u32 = 4;
pub const FI_ALLREDUCE: u32 = 3;
pub const FI_ALLTOALL: u32 = 2;
pub const FI_BARRIER: u32 = 0;
pub const FI_BROADCAST: u32 = 1;
pub const FI_GATHER: u32 = 8;
pub const FI_REDUCE: u32 = 6;
pub const FI_REDUCE_SCATTER: u32 = 5;
pub const FI_SCATTER: u32 = 7;

// Atomic and collective reduction operations (`fi_op`).
pub const FI_ATOMIC_READ: u32 = 10;
pub const FI_ATOMIC_WRITE: u32 = 11;
pub const FI_BAND: u32 = 7;
pub const FI_BOR: u32 = 6;
pub const FI_BXOR: u32 = 9;
pub const FI_CSWAP: u32 = 12;
pub const FI_CSWAP_GE: u32 = 16;
pub const FI_CSWAP_GT: u32 = 17;
pub const FI_CSWAP_LE: u32 = 14;
pub const FI_CSWAP_LT: u32 = 15;
pub const FI_CSWAP_NE: u32 = 13;
pub const FI_LAND: u32 = 5;
pub const FI_LOR: u32 = 4;
pub const FI_LXOR: u32 = 8;
pub const FI_MAX: u32 = 1;
pub const FI_MIN: u32 = 0;
pub const FI_MSWAP: u32 = 18;
pub const FI_NOOP: u32 = 0x100;
pub const FI_PROD: u32 = 3;
pub const FI_SUM: u32 = 2;

// Address vector types.
pub const FI_AV_MAP: u32 = 1;
pub const FI_AV_TABLE: u32 = 2;
pub const FI_AV_UNSPEC: u32 = 0;

// Counter events.
pub const FI_CNTR_EVENTS_BYTES: u32 = 1;
pub const FI_CNTR_EVENTS_COMP: u32 = 0;

// Completion queue formats and wait conditions.
pub const FI_CQ_COND_NONE: u32 = 0;
pub const FI_CQ_COND_THRESHOLD: u32 = 1;
pub const FI_CQ_FORMAT_CONTEXT: u32 = 1;
pub const FI_CQ_FORMAT_DATA: u32 = 3;
pub const FI_CQ_FORMAT_MSG: u32 = 2;
pub const FI_CQ_FORMAT_TAGGED: u32 = 4;
pub const FI_CQ_FORMAT_UNSPEC: u32 = 0;

// Data types (`fi_datatype`).
pub const FI_DATATYPE_LAST: u32 = 14;
pub const FI_DOUBLE: u32 = 9;
pub const FI_DOUBLE_COMPLEX: u32 = 11;
pub const FI_FLOAT: u32 = 8;
pub const FI_FLOAT_COMPLEX: u32 = 10;
pub const FI_INT128: u32 = 14;
pub const FI_INT16: u32 = 2;
pub const FI_INT32: u32 = 4;
pub const FI_INT64: u32 = 6;
pub const FI_INT8: u32 = 0;
pub const FI_LONG_DOUBLE: u32 = 12;
pub const FI_LONG_DOUBLE_COMPLEX: u32 = 13;
pub const FI_UINT128: u32 = 15;
pub const FI_UINT16: u32 = 3;
pub const FI_UINT32: u32 = 5;
pub const FI_UINT64: u32 = 7;
pub const FI_UINT8: u32 = 1;
pub const FI_VOID: u32 = 0x100;

// Endpoint types.
pub const FI_EP_DGRAM: u32 = 2;
pub const FI_EP_MSG: u32 = 1;
pub const FI_EP_RDM: u32 = 3;
pub const FI_EP_UNSPEC: u32 = 0;

// Error numbers.
pub const FI_ETOOSMALL: u32 = 0x101;

// Device memory interfaces (`fi_hmem_iface`).
pub const FI_HMEM_CUDA: u32 = 1;
pub const FI_HMEM_NEURON: u32 = 4;
pub const FI_HMEM_ROCR: u32 = 2;
pub const FI_HMEM_SYNAPSEAI: u32 = 5;
pub const FI_HMEM_SYSTEM: u32 = 0;
pub const FI_HMEM_ZE: u32 = 3;

// Peer-to-peer policies of device memory.
pub const FI_HMEM_P2P_DISABLED: u32 = 3;
pub const FI_HMEM_P2P_ENABLED: u32 = 0;
pub const FI_HMEM_P2P_PREFERRED: u32 = 2;
pub const FI_HMEM_P2P_REQUIRED: u32 = 1;

// Memory registration modes.
pub const FI_MR_ALLOCATED: u32 = 32;
pub const FI_MR_BASIC: u32 = 1;
pub const FI_MR_COLLECTIVE: u32 = 0x800;
pub const FI_MR_ENDPOINT: u32 = 0x200;
pub const FI_MR_HMEM: u32 = 0x400;
pub const FI_MR_LOCAL: u32 = 4;
pub const FI_MR_MMU_NOTIFY: u32 = 128;
pub const FI_MR_PROV_KEY: u32 = 64;
pub const FI_MR_RAW: u32 = 8;
pub const FI_MR_RMA_EVENT: u32 = 0x100;
pub const FI_MR_SCALABLE: u32 = 2;
pub const FI_MR_UNSPEC: u32 = 0;
pub const FI_MR_VIRT_ADDR: u32 = 16;

// Endpoint option names and levels.
pub const FI_OPT_BUFFERED_LIMIT: u32 = 3;
pub const FI_OPT_BUFFERED_MIN: u32 = 2;
pub const FI_OPT_CM_DATA_SIZE: u32 = 1;
pub const FI_OPT_CUDA_API_PERMITTED: u32 = 10;
pub const FI_OPT_ENDPOINT: u32 = 0;
pub const FI_OPT_FI_HMEM_P2P: u32 = 8;
pub const FI_OPT_MIN_MULTI_RECV: u32 = 0;
pub const FI_OPT_RECV_BUF_SIZE: u32 = 5;
pub const FI_OPT_RX_SIZE: u32 = 7;
pub const FI_OPT_SEND_BUF_SIZE: u32 = 4;
pub const FI_OPT_TX_SIZE: u32 = 6;
pub const FI_OPT_XPU_TRIGGER: u32 = 9;

// Parameter types.
pub const FI_PARAM_BOOL: u32 = 2;
pub const FI_PARAM_INT: u32 = 1;
pub const FI_PARAM_SIZE_T: u32 = 3;
pub const FI_PARAM_STRING: u32 = 0;

// Progress models.
pub const FI_PROGRESS_AUTO: u32 = 1;
pub const FI_PROGRESS_MANUAL: u32 = 2;
pub const FI_PROGRESS_UNSPEC: u32 = 0;

// Endpoint protocols.
pub const FI_PROTO_COLL: u32 = 26;
pub const FI_PROTO_CXI: u32 = 24;
pub const FI_PROTO_CXI_RNR: u32 = 29;
pub const FI_PROTO_EFA: u32 = 20;
pub const FI_PROTO_GNI: u32 = 10;
pub const FI_PROTO_IB_RDM: u32 = 9;
pub const FI_PROTO_IB_UD: u32 = 3;
pub const FI_PROTO_IWARP: u32 = 2;
pub const FI_PROTO_IWARP_RDM: u32 = 8;
pub const FI_PROTO_MLX: u32 = 13;
pub const FI_PROTO_MRAIL: u32 = 17;
pub const FI_PROTO_MXM: u32 = 7;
pub const FI_PROTO_NETWORKDIRECT: u32 = 14;
pub const FI_PROTO_OPX: u32 = 23;
pub const FI_PROTO_PSMX: u32 = 4;
pub const FI_PROTO_PSMX2: u32 = 15;
pub const FI_PROTO_PSMX3: u32 = 21;
pub const FI_PROTO_RDMA_CM_IB_RC: u32 = 1;
pub const FI_PROTO_RDMA_CM_IB_XRC: u32 = 19;
pub const FI_PROTO_RSTREAM: u32 = 18;
pub const FI_PROTO_RXD: u32 = 12;
pub const FI_PROTO_RXM: u32 = 11;
pub const FI_PROTO_RXM_TCP: u32 = 22;
pub const FI_PROTO_SHM: u32 = 16;
pub const FI_PROTO_SM2: u32 = 28;
pub const FI_PROTO_SOCK_TCP: u32 = 6;
pub const FI_PROTO_UCX: u32 = 27;
pub const FI_PROTO_UDP: u32 = 5;
pub const FI_PROTO_UNSPEC: u32 = 0;
pub const FI_PROTO_XNET: u32 = 25;

// Resource management.
pub const FI_RM_DISABLED: u32 = 1;
pub const FI_RM_ENABLED: u32 = 2;
pub const FI_RM_UNSPEC: u32 = 0;

// Traffic classes.
pub const FI_TC_BEST_EFFORT: u32 = 0x200;
pub const FI_TC_BULK_DATA: u32 = 0x203;
pub const FI_TC_DEDICATED_ACCESS: u32 = 0x202;
pub const FI_TC_DSCP: u32 = 0x100;
pub const FI_TC_LABEL: u32 = 0x200;
pub const FI_TC_LOW_LATENCY: u32 = 0x201;
pub const FI_TC_NETWORK_CTRL: u32 = 0x205;
pub const FI_TC_SCAVENGER: u32 = 0x204;
pub const FI_TC_UNSPEC: u32 = 0;

// Threading models.
pub const FI_THREAD_COMPLETION: u32 = 4;
pub const FI_THREAD_DOMAIN: u32 = 3;
pub const FI_THREAD_ENDPOINT: u32 = 5;
pub const FI_THREAD_FID: u32 = 2;
pub const FI_THREAD_SAFE: u32 = 1;
pub const FI_THREAD_UNSPEC: u32 = 0;

// Trigger events.
pub const FI_TRIGGER_THRESHOLD: u32 = 0;
pub const FI_TRIGGER_XPU: u32 = 1;

// Type tags (`fi_type`).
pub const FI_TYPE_ADDR_FORMAT: u32 = 4;
pub const FI_TYPE_ATOMIC_OP: u32 = 17;
pub const FI_TYPE_ATOMIC_TYPE: u32 = 16;
pub const FI_TYPE_AV_ATTR: u32 = 29;
pub const FI_TYPE_AV_TYPE: u32 = 15;
pub const FI_TYPE_CAPS: u32 = 2;
pub const FI_TYPE_CNTR_ATTR: u32 = 32;
pub const FI_TYPE_COLLECTIVE_OP: u32 = 24;
pub const FI_TYPE_CQ_ATTR: u32 = 30;
pub const FI_TYPE_CQ_ERR_ENTRY: u32 = 33;
pub const FI_TYPE_CQ_EVENT_FLAGS: u32 = 20;
pub const FI_TYPE_CQ_FORMAT: u32 = 26;
pub const FI_TYPE_DOMAIN_ATTR: u32 = 8;
pub const FI_TYPE_EP_ATTR: u32 = 7;
pub const FI_TYPE_EP_TYPE: u32 = 1;
pub const FI_TYPE_EQ_EVENT: u32 = 19;
pub const FI_TYPE_FABRIC_ATTR: u32 = 9;
pub const FI_TYPE_FID: u32 = 23;
pub const FI_TYPE_HMEM_IFACE: u32 = 25;
pub const FI_TYPE_INFO: u32 = 0;
pub const FI_TYPE_LOG_LEVEL: u32 = 27;
pub const FI_TYPE_LOG_SUBSYS: u32 = 28;
pub const FI_TYPE_MODE: u32 = 14;
pub const FI_TYPE_MR_ATTR: u32 = 31;
pub const FI_TYPE_MR_MODE: u32 = 21;
pub const FI_TYPE_MSG_ORDER: u32 = 13;
pub const FI_TYPE_OP_FLAGS: u32 = 3;
pub const FI_TYPE_OP_TYPE: u32 = 22;
pub const FI_TYPE_PROGRESS: u32 = 11;
pub const FI_TYPE_PROTOCOL: u32 = 12;
pub const FI_TYPE_RX_ATTR: u32 = 6;
pub const FI_TYPE_THREADING: u32 = 10;
pub const FI_TYPE_TX_ATTR: u32 = 5;
pub const FI_TYPE_VERSION: u32 = 18;

// Wait object kinds.
pub const FI_WAIT_FD: u32 = 3;
pub const FI_WAIT_MUTEX_COND: u32 = 4;
pub const FI_WAIT_NONE: u32 = 0;
pub const FI_WAIT_POLLFD: u32 = 6;
pub const FI_WAIT_SET: u32 = 2;
pub const FI_WAIT_UNSPEC: u32 = 1;
pub const FI_WAIT_YIELD: u32 = 5;

} // verus!
