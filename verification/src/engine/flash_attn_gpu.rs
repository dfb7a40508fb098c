//! Errors of the GPU flash-attention kernels.

use vstd::prelude::*;
use crate::text::concat2;

verus! {

/// Flash Attention GPU Error.
#[derive(Debug, Clone, PartialEq, Eq)]
pub enum FlashAttnGpuError {
    InsufficientComputeCapability,
    AllocationFailed(String),
    KernelLaunchFailed(String),
    NotSupported,
    InvalidParams(String),
}

impl FlashAttnGpuError {
    /// The text the error displays.
    pub open spec fn spec_message(&self) -> Seq<char> {
        match self {
            FlashAttnGpuError::InsufficientComputeCapability => "Flash Attention requires compute capability 8.0+"@,
            FlashAttnGpuError::AllocationFailed(s) => "GPU memory allocation failed: "@ + s@,
            FlashAttnGpuError::KernelLaunchFailed(s) => "Kernel launch failed: "@ + s@,
            FlashAttnGpuError::NotSupported => "Flash Attention not supported on this device"@,
            FlashAttnGpuError::InvalidParams(s) => "Invalid attention parameters: "@ + s@,
        }
    }

    /// Human-readable description of the error.
    pub fn message(&self) -> (r: String)
        ensures
            r@ == self.spec_message(),
    {
        match self {
            FlashAttnGpuError::InsufficientComputeCapability => "Flash Attention requires compute capability 8.0+".to_owned(),
            FlashAttnGpuError::AllocationFailed(s) => concat2("GPU memory allocation failed: ", s.as_str()),
            FlashAttnGpuError::KernelLaunchFailed(s) => concat2("Kernel launch failed: ", s.as_str()),
            FlashAttnGpuError::NotSupported => "Flash Attention not supported on this device".to_owned(),
            FlashAttnGpuError::InvalidParams(s) => concat2("Invalid attention parameters: ", s.as_str()),
        }
    }
}

/// Bytes of device memory a flash-attention pass needs: the query, key
/// and value tensors and the output in half precision, and the softmax
/// log-sum-exp in single precision.
pub open spec fn attention_memory(batch: nat, seq_len: nat, num_heads: nat, num_kv_heads: nat, head_dim: nat) -> nat {
    batch * seq_len * (num_heads + 2 * num_kv_heads) * head_dim * 2 + batch * seq_len * num_heads
        * head_dim * 2 + batch * num_heads * seq_len * 4
}

/// Every partial product and sum of [`attention_memory`], taken in the
/// order the computation takes them, fits in `usize`.
pub open spec fn attention_memory_fits(batch: nat, seq_len: nat, num_heads: nat, num_kv_heads: nat, head_dim: nat) -> bool {
    let heads = num_heads + 2 * num_kv_heads;
    let qkv = batch * seq_len * heads * head_dim * 2;
    let out = batch * seq_len * num_heads * head_dim * 2;
    let lse = batch * num_heads * seq_len * 4;
    &&& 2 * num_kv_heads <= usize::MAX
    &&& heads <= usize::MAX
    &&& batch * seq_len <= usize::MAX
    &&& batch * seq_len * heads <= usize::MAX
    &&& batch * seq_len * heads * head_dim <= usize::MAX
    &&& qkv <= usize::MAX
    &&& batch * seq_len * num_heads <= usize::MAX
    &&& batch * seq_len * num_heads * head_dim <= usize::MAX
    &&& out <= usize::MAX
    &&& batch * num_heads <= usize::MAX
    &&& batch * num_heads * seq_len <= usize::MAX
    &&& lse <= usize::MAX
    &&& qkv + out <= usize::MAX
    &&& qkv + out + lse <= usize::MAX
}

/// Memory required for one attention pass over `batch` sequences, in bytes.
pub fn attention_memory_required(
    batch: usize,
    seq_len: usize,
    num_heads: usize,
    num_kv_heads: usize,
    head_dim: usize,
) -> (r: usize)
    requires
        attention_memory_fits(batch as nat, seq_len as nat, num_heads as nat, num_kv_heads as nat, head_dim as nat),
    ensures
        r == attention_memory(batch as nat, seq_len as nat, num_heads as nat, num_kv_heads as nat, head_dim as nat),
{
    let qkv_size = batch * seq_len * (num_heads + 2 * num_kv_heads) * head_dim * 2;
    let output_size = batch * seq_len * num_heads * head_dim * 2;
    let lse_size = batch * num_heads * seq_len * 4;
    qkv_size + output_size + lse_size
}

/// Memory required for one attention pass, or `None` when the arithmetic
/// would pass the largest `usize` at some step.
pub fn checked_attention_memory(
    batch: usize,
    seq_len: usize,
    num_heads: usize,
    num_kv_heads: usize,
    head_dim: usize,
) -> (r: Option<usize>)
    ensures
        r is Some <==> attention_memory_fits(
            batch as nat,
            seq_len as nat,
            num_heads as nat,
            num_kv_heads as nat,
            head_dim as nat,
        ),
        r matches Some(v) ==> v == attention_memory(
            batch as nat,
            seq_len as nat,
            num_heads as nat,
            num_kv_heads as nat,
            head_dim as nat,
        ),
{
    let kv2 = match num_kv_heads.checked_mul(2) {
        Some(v) => v,
        None => return None,
    };
    let heads = match num_heads.checked_add(kv2) {
        Some(v) => v,
        None => return None,
    };
    let bs = match batch.checked_mul(seq_len) {
        Some(v) => v,
        None => return None,
    };
    let bsh = match bs.checked_mul(heads) {
        Some(v) => v,
        None => return None,
    };
    let bshd = match bsh.checked_mul(head_dim) {
        Some(v) => v,
        None => return None,
    };
    let qkv = match bshd.checked_mul(2) {
        Some(v) => v,
        None => return None,
    };
    let bsn = match bs.checked_mul(num_heads) {
        Some(v) => v,
        None => return None,
    };
    let bsnd = match bsn.checked_mul(head_dim) {
        Some(v) => v,
        None => return None,
    };
    let out = match bsnd.checked_mul(2) {
        Some(v) => v,
        None => return None,
    };
    let bn = match batch.checked_mul(num_heads) {
        Some(v) => v,
        None => return None,
    };
    let bns = match bn.checked_mul(seq_len) {
        Some(v) => v,
        None => return None,
    };
    let lse = match bns.checked_mul(4) {
        Some(v) => v,
        None => return None,
    };
    let qo = match qkv.checked_add(out) {
        Some(v) => v,
        None => return None,
    };
    qo.checked_add(lse)
}

/// Number of blocks of `block_size` that cover a sequence: the ceiling of
/// `seq_len / block_size`.
pub fn attention_num_blocks(seq_len: usize, block_size: usize) -> (r: usize)
    requires
        block_size > 0,
        seq_len + block_size <= usize::MAX,
    ensures
        r == (seq_len + block_size - 1) / (block_size as int),
        r * block_size >= seq_len,
        r == 0 || (r - 1) * block_size < seq_len,
{
    let r = (seq_len + block_size - 1) / block_size;
    proof {
        let n = seq_len + block_size - 1;
        assert(r * block_size >= seq_len && (r == 0 || (r - 1) * block_size < seq_len)) by (nonlinear_arith)
            requires
                block_size > 0,
                r == n / (block_size as int),
                n == seq_len + block_size - 1,
        ;
    }
    r
}

} // verus!
