//! Placement of experts on devices and the load statistics of a routing.

use vstd::prelude::*;

verus! {

/// Device assignment for an expert.
#[derive(Debug, Clone, Copy, PartialEq, Eq, Structural)]
pub struct ExpertDeviceAssignment {
    /// Expert index.
    pub expert_idx: usize,
    /// Device ID (GPU index or CPU=-1).
    pub device_id: i32,
    /// Memory offset on device.
    pub memory_offset: usize,
}

/// Device id that stands for the CPU.
pub const CPU_DEVICE_ID: i32 = -1;

/// Every expert on the CPU: expert `i` gets assignment `i`, at offset 0.
pub fn cpu_assignments(num_experts: usize) -> (r: Vec<ExpertDeviceAssignment>)
    ensures
        r@.len() == num_experts,
        forall|i: int|
            0 <= i < num_experts ==> #[trigger] r@[i] == (ExpertDeviceAssignment {
                expert_idx: i as usize,
                device_id: CPU_DEVICE_ID,
                memory_offset: 0,
            }),
{
    let mut out: Vec<ExpertDeviceAssignment> = Vec::with_capacity(num_experts);
    let mut i: usize = 0;
    while i < num_experts
        invariant
            i <= num_experts,
            out@.len() == i,
            forall|j: int|
                0 <= j < i ==> #[trigger] out@[j] == (ExpertDeviceAssignment {
                    expert_idx: j as usize,
                    device_id: CPU_DEVICE_ID,
                    memory_offset: 0,
                }),
        decreases num_experts - i,
    {
        out.push(ExpertDeviceAssignment { expert_idx: i, device_id: CPU_DEVICE_ID, memory_offset: 0 });
        i = i + 1;
    }
    out
}

/// The first assignment of expert `expert_idx`, if there is one.
pub fn find_assignment(assignments: &[ExpertDeviceAssignment], expert_idx: usize) -> (r: Option<
    &ExpertDeviceAssignment,
>)
    ensures
        r is None <==> forall|i: int|
            0 <= i < assignments@.len() ==> (#[trigger] assignments@[i]).expert_idx != expert_idx,
        r matches Some(a) ==> exists|i: int|
            0 <= i < assignments@.len() && #[trigger] assignments@[i] == *a && a.expert_idx
                == expert_idx && forall|j: int|
                0 <= j < i ==> (#[trigger] assignments@[j]).expert_idx != expert_idx,
{
    let n = assignments.len();
    let mut i: usize = 0;
    while i < n
        invariant
            n == assignments@.len(),
            i <= n,
            forall|j: int| 0 <= j < i ==> (#[trigger] assignments@[j]).expert_idx != expert_idx,
        decreases n - i,
    {
        if assignments[i].expert_idx == expert_idx {
            return Some(&assignments[i]);
        }
        i = i + 1;
    }
    None
}

/// Sum of the loads.
pub open spec fn load_total(load: Seq<u32>) -> int
    decreases load.len(),
{
    if load.len() == 0 {
        0
    } else {
        load_total(load.drop_last()) + load.last()
    }
}

/// Total, largest and smallest load per expert of a routing (0, 0, 0 when
/// there are no experts). The total must fit in 32 bits.
pub fn load_bounds(load: &[u32]) -> (r: (u32, u32, u32))
    requires
        load_total(load@) <= u32::MAX,
    ensures
        r.0 == load_total(load@),
        load@.len() == 0 ==> r.1 == 0 && r.2 == 0,
        load@.len() > 0 ==> {
            &&& forall|i: int| 0 <= i < load@.len() ==> r.2 <= #[trigger] load@[i] <= r.1
            &&& exists|i: int| 0 <= i < load@.len() && #[trigger] load@[i] == r.1
            &&& exists|i: int| 0 <= i < load@.len() && #[trigger] load@[i] == r.2
        },
{
    let n = load.len();
    if n == 0 {
        return (0, 0, 0);
    }
    let mut total: u32 = 0;
    let mut hi: u32 = load[0];
    let mut lo: u32 = load[0];
    let mut i: usize = 0;
    while i < n
        invariant
            n == load@.len(),
            n > 0,
            i <= n,
            load_total(load@) <= u32::MAX,
            total == load_total(load@.take(i as int)),
            forall|j: int| 0 <= j < i ==> lo <= #[trigger] load@[j] <= hi,
            exists|j: int| 0 <= j < n && #[trigger] load@[j] == hi,
            exists|j: int| 0 <= j < n && #[trigger] load@[j] == lo,
        decreases n - i,
    {
        proof {
            assert(load@.take(i + 1).drop_last() =~= load@.take(i as int));
            lemma_load_total_prefix(load@, i + 1);
        }
        total = total + load[i];
        if load[i] > hi {
            hi = load[i];
        }
        if load[i] < lo {
            lo = load[i];
        }
        i = i + 1;
    }
    assert(load@.take(n as int) =~= load@);
    (total, hi, lo)
}

/// [`load_bounds`] of a routing whose total may pass 32 bits: `None` when
/// it does.
pub fn checked_load_bounds(load: &[u32]) -> (r: Option<(u32, u32, u32)>)
    ensures
        r is Some <==> load_total(load@) <= u32::MAX,
        r matches Some(b) ==> {
            &&& b.0 == load_total(load@)
            &&& load@.len() == 0 ==> b.1 == 0 && b.2 == 0
            &&& load@.len() > 0 ==> {
                &&& forall|i: int| 0 <= i < load@.len() ==> b.2 <= #[trigger] load@[i] <= b.1
                &&& exists|i: int| 0 <= i < load@.len() && #[trigger] load@[i] == b.1
                &&& exists|i: int| 0 <= i < load@.len() && #[trigger] load@[i] == b.2
            }
        },
{
    let n = load.len();
    let mut total: u32 = 0;
    let mut i: usize = 0;
    while i < n
        invariant
            n == load@.len(),
            i <= n,
            total == load_total(load@.take(i as int)),
        decreases n - i,
    {
        proof {
            assert(load@.take(i + 1).drop_last() =~= load@.take(i as int));
            lemma_load_total_prefix(load@, i + 1);
        }
        match total.checked_add(load[i]) {
            Some(t) => {
                total = t;
            },
            None => {
                return None;
            },
        }
        i = i + 1;
    }
    assert(load@.take(n as int) =~= load@);
    Some(load_bounds(load))
}

/// A prefix carries no more load than the whole.
proof fn lemma_load_total_prefix(load: Seq<u32>, i: int)
    requires
        0 <= i <= load.len(),
    ensures
        0 <= load_total(load.take(i)) <= load_total(load),
    decreases load.len(),
{
    if load.len() > 0 {
        if i == load.len() {
            assert(load.take(i) =~= load);
            lemma_load_total_prefix(load.drop_last(), i - 1);
            assert(load.drop_last().take(i - 1) =~= load.drop_last());
        } else {
            lemma_load_total_prefix(load.drop_last(), i);
            assert(load.drop_last().take(i) =~= load.take(i));
        }
    }
}

} // verus!
