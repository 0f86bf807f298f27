//! Numeric values of the `libibverbs` ABI that the library reads and writes.
use vstd::prelude::*;

verus! {

/// `IBV_ACCESS_LOCAL_WRITE`.
pub const IBV_ACCESS_LOCAL_WRITE: u32 = 1;
/// `IBV_ACCESS_REMOTE_WRITE`.
pub const IBV_ACCESS_REMOTE_WRITE: u32 = 2;
/// `IBV_ACCESS_REMOTE_READ`.
pub const IBV_ACCESS_REMOTE_READ: u32 = 4;
/// `IBV_ACCESS_REMOTE_ATOMIC`.
pub const IBV_ACCESS_REMOTE_ATOMIC: u32 = 8;
/// `IBV_ACCESS_MW_BIND`.
pub const IBV_ACCESS_MW_BIND: u32 = 16;
/// `IBV_ACCESS_ZERO_BASED`.
pub const IBV_ACCESS_ZERO_BASED: u32 = 32;
/// `IBV_ACCESS_ON_DEMAND`.
pub const IBV_ACCESS_ON_DEMAND: u32 = 64;

} // verus!

verus! {

/// `IBV_WR_RDMA_WRITE`.
pub const IBV_WR_RDMA_WRITE: u32 = 0;
/// `IBV_WR_RDMA_WRITE_WITH_IMM`.
pub const IBV_WR_RDMA_WRITE_WITH_IMM: u32 = 1;
/// `IBV_WR_SEND`.
pub const IBV_WR_SEND: u32 = 2;
/// `IBV_WR_SEND_WITH_IMM`.
pub const IBV_WR_SEND_WITH_IMM: u32 = 3;
/// `IBV_WR_RDMA_READ`.
pub const IBV_WR_RDMA_READ: u32 = 4;
/// `IBV_WR_ATOMIC_CMP_AND_SWP`.
pub const IBV_WR_ATOMIC_CMP_AND_SWP: u32 = 5;
/// `IBV_WR_ATOMIC_FETCH_AND_ADD`.
pub const IBV_WR_ATOMIC_FETCH_AND_ADD: u32 = 6;

/// `IBV_SEND_FENCE`.
pub const IBV_SEND_FENCE: u32 = 1;
/// `IBV_SEND_SIGNALED`.
pub const IBV_SEND_SIGNALED: u32 = 2;
/// `IBV_SEND_SOLICITED`.
pub const IBV_SEND_SOLICITED: u32 = 4;
/// `IBV_SEND_INLINE`.
pub const IBV_SEND_INLINE: u32 = 8;

/// `IBV_WC_WITH_IMM`, the work completion flag that marks immediate data.
pub const IBV_WC_WITH_IMM: u32 = 2;

/// `IBV_WC_SEND`.
pub const IBV_WC_SEND: u32 = 0;
/// `IBV_WC_RDMA_WRITE`.
pub const IBV_WC_RDMA_WRITE: u32 = 1;
/// `IBV_WC_RDMA_READ`.
pub const IBV_WC_RDMA_READ: u32 = 2;
/// `IBV_WC_COMP_SWAP`.
pub const IBV_WC_COMP_SWAP: u32 = 3;
/// `IBV_WC_FETCH_ADD`.
pub const IBV_WC_FETCH_ADD: u32 = 4;
/// `IBV_WC_BIND_MW`.
pub const IBV_WC_BIND_MW: u32 = 5;
/// `IBV_WC_RECV`.
pub const IBV_WC_RECV: u32 = 128;
/// `IBV_WC_RECV_RDMA_WITH_IMM`.
pub const IBV_WC_RECV_RDMA_WITH_IMM: u32 = 129;

/// `IBV_QPT_RC`.
pub const IBV_QPT_RC: u32 = 2;
/// `IBV_QPT_UC`.
pub const IBV_QPT_UC: u32 = 3;
/// `IBV_QPT_UD`.
pub const IBV_QPT_UD: u32 = 4;
/// `IBV_QPT_XRC`.
pub const IBV_QPT_XRC: u32 = 5;
/// `IBV_QPT_RAW_PACKET`.
pub const IBV_QPT_RAW_PACKET: u32 = 8;
/// `IBV_QPT_XRC_SEND`.
pub const IBV_QPT_XRC_SEND: u32 = 9;
/// `IBV_QPT_XRC_RECV`.
pub const IBV_QPT_XRC_RECV: u32 = 10;
/// `IBV_EXP_QPT_DC_INI`.
pub const IBV_EXP_QPT_DC_INI: u32 = 32;
/// `IBV_QPT_DRIVER`.
pub const IBV_QPT_DRIVER: u32 = 0xff;

/// `IBV_QPS_RESET`.
pub const IBV_QPS_RESET: u32 = 0;
/// `IBV_QPS_INIT`.
pub const IBV_QPS_INIT: u32 = 1;
/// `IBV_QPS_RTR`.
pub const IBV_QPS_RTR: u32 = 2;
/// `IBV_QPS_RTS`.
pub const IBV_QPS_RTS: u32 = 3;
/// `IBV_QPS_SQD`.
pub const IBV_QPS_SQD: u32 = 4;
/// `IBV_QPS_SQE`.
pub const IBV_QPS_SQE: u32 = 5;
/// `IBV_QPS_ERR`.
pub const IBV_QPS_ERR: u32 = 6;
/// `IBV_QPS_UNKNOWN`.
pub const IBV_QPS_UNKNOWN: u32 = 7;

/// `IBV_QP_STATE`.
pub const IBV_QP_STATE: u32 = 1;
/// `IBV_QP_CUR_STATE`.
pub const IBV_QP_CUR_STATE: u32 = 2;
/// `IBV_QP_EN_SQD_ASYNC_NOTIFY`.
pub const IBV_QP_EN_SQD_ASYNC_NOTIFY: u32 = 4;
/// `IBV_QP_ACCESS_FLAGS`.
pub const IBV_QP_ACCESS_FLAGS: u32 = 8;
/// `IBV_QP_PKEY_INDEX`.
pub const IBV_QP_PKEY_INDEX: u32 = 16;
/// `IBV_QP_PORT`.
pub const IBV_QP_PORT: u32 = 32;
/// `IBV_QP_QKEY`.
pub const IBV_QP_QKEY: u32 = 64;
/// `IBV_QP_AV`.
pub const IBV_QP_AV: u32 = 128;
/// `IBV_QP_PATH_MTU`.
pub const IBV_QP_PATH_MTU: u32 = 256;
/// `IBV_QP_TIMEOUT`.
pub const IBV_QP_TIMEOUT: u32 = 512;
/// `IBV_QP_RETRY_CNT`.
pub const IBV_QP_RETRY_CNT: u32 = 1024;
/// `IBV_QP_RNR_RETRY`.
pub const IBV_QP_RNR_RETRY: u32 = 2048;
/// `IBV_QP_RQ_PSN`.
pub const IBV_QP_RQ_PSN: u32 = 4096;
/// `IBV_QP_MAX_QP_RD_ATOMIC`.
pub const IBV_QP_MAX_QP_RD_ATOMIC: u32 = 8192;
/// `IBV_QP_ALT_PATH`.
pub const IBV_QP_ALT_PATH: u32 = 16384;
/// `IBV_QP_MIN_RNR_TIMER`.
pub const IBV_QP_MIN_RNR_TIMER: u32 = 32768;
/// `IBV_QP_SQ_PSN`.
pub const IBV_QP_SQ_PSN: u32 = 65536;
/// `IBV_QP_MAX_DEST_RD_ATOMIC`.
pub const IBV_QP_MAX_DEST_RD_ATOMIC: u32 = 131072;
/// `IBV_QP_PATH_MIG_STATE`.
pub const IBV_QP_PATH_MIG_STATE: u32 = 262144;
/// `IBV_QP_CAP`.
pub const IBV_QP_CAP: u32 = 524288;
/// `IBV_QP_DEST_QPN`.
pub const IBV_QP_DEST_QPN: u32 = 1048576;

/// `IBV_PORT_NOP`.
pub const IBV_PORT_NOP: u32 = 0;
/// `IBV_PORT_DOWN`.
pub const IBV_PORT_DOWN: u32 = 1;
/// `IBV_PORT_INIT`.
pub const IBV_PORT_INIT: u32 = 2;
/// `IBV_PORT_ARMED`.
pub const IBV_PORT_ARMED: u32 = 3;
/// `IBV_PORT_ACTIVE`.
pub const IBV_PORT_ACTIVE: u32 = 4;
/// `IBV_PORT_ACTIVE_DEFER`.
pub const IBV_PORT_ACTIVE_DEFER: u32 = 5;

/// `IBV_MTU_256`.
pub const IBV_MTU_256: u32 = 1;
/// `IBV_MTU_512`.
pub const IBV_MTU_512: u32 = 2;
/// `IBV_MTU_1024`.
pub const IBV_MTU_1024: u32 = 3;
/// `IBV_MTU_2048`.
pub const IBV_MTU_2048: u32 = 4;
/// `IBV_MTU_4096`.
pub const IBV_MTU_4096: u32 = 5;

/// `IBV_LINK_LAYER_UNSPECIFIED`.
pub const IBV_LINK_LAYER_UNSPECIFIED: u8 = 0;
/// `IBV_LINK_LAYER_INFINIBAND`.
pub const IBV_LINK_LAYER_INFINIBAND: u8 = 1;
/// `IBV_LINK_LAYER_ETHERNET`.
pub const IBV_LINK_LAYER_ETHERNET: u8 = 2;

/// `EFAULT` on Linux.
pub const EFAULT: i32 = 14;
/// `ENOMEM` on Linux.
pub const ENOMEM: i32 = 12;
/// `EINVAL` on Linux.
pub const EINVAL: i32 = 22;

/// `IBV_GID_TYPE_IB`.
pub const IBV_GID_TYPE_IB: u32 = 0;
/// `IBV_GID_TYPE_ROCE_V1`.
pub const IBV_GID_TYPE_ROCE_V1: u32 = 1;
/// `IBV_GID_TYPE_ROCE_V2`.
pub const IBV_GID_TYPE_ROCE_V2: u32 = 2;

} // verus!
