//! Resource sizing: vCPU count, CPU affinity flattening, and RAM selection.
//!
//! The virtual machine gets one vCPU per core across all supplied core
//! groups, is pinned to exactly those cores, and is given either the
//! explicitly requested amount of RAM or 80% of the host's total RAM,
//! capped at a hard ceiling.

use vstd::prelude::*;

verus! {

/// Hard ceiling for automatically sized guest RAM, in MiB (32 GiB).
pub const RAM_CEILING_MIB: u64 = 32768;

/// Total number of cores across all groups.
pub open spec fn spec_total_cores(groups: Seq<Seq<u32>>) -> int
    decreases groups.len(),
{
    if groups.len() == 0 {
        0
    } else {
        spec_total_cores(groups.drop_last()) + groups.last().len()
    }
}

/// All cores of all groups, in group order.
pub open spec fn spec_flat_cores(groups: Seq<Seq<u32>>) -> Seq<u32>
    decreases groups.len(),
{
    if groups.len() == 0 {
        Seq::empty()
    } else {
        spec_flat_cores(groups.drop_last()) + groups.last()
    }
}

/// Automatic RAM sizing: 80% of the host total, capped at the ceiling.
pub open spec fn spec_auto_ram_mib(total_mib: u64) -> int {
    if (total_mib * 4) / 5 >= RAM_CEILING_MIB {
        RAM_CEILING_MIB as int
    } else {
        (total_mib * 4) / 5
    }
}

/// RAM for the guest: the explicit request when given, otherwise the
/// automatic sizing from the host total.
pub open spec fn spec_ram_mib(explicit: Option<u32>, total_mib: u64) -> int {
    match explicit {
        Some(m) => m as int,
        None => spec_auto_ram_mib(total_mib),
    }
}

proof fn lemma_prefix_cores_le(s: Seq<Seq<u32>>, i: int)
    requires
        0 <= i <= s.len(),
    ensures
        spec_total_cores(s.subrange(0, i)) <= spec_total_cores(s),
    decreases s.len() - i,
{
    if i == s.len() {
        assert(s.subrange(0, i) =~= s);
    } else {
        assert(s.subrange(0, i + 1).drop_last() =~= s.subrange(0, i));
        assert(s.subrange(0, i + 1).last() == s[i]);
        lemma_prefix_cores_le(s, i + 1);
    }
}

/// The flattened affinity list has exactly one entry per core, so pinning
/// to it covers exactly as many cores as the guest has vCPUs.
pub proof fn lemma_affinity_covers_vcpus(groups: Seq<Seq<u32>>)
    ensures
        spec_flat_cores(groups).len() == spec_total_cores(groups),
    decreases groups.len(),
{
    if groups.len() > 0 {
        lemma_affinity_covers_vcpus(groups.drop_last());
    }
}

/// vCPU count: the total number of cores across all supplied groups.
/// The hypervisor takes the count as a single byte, so the caller checks
/// that the total fits before asking for a configuration.
pub fn vcpu_count(groups: &Vec<Vec<u32>>) -> (n: u8)
    requires
        spec_total_cores(groups.deep_view()) <= 255,
    ensures
        n as int == spec_total_cores(groups.deep_view()),
{
    let ghost gv = groups.deep_view();
    let mut acc: usize = 0;
    let mut i: usize = 0;
    while i < groups.len()
        invariant
            0 <= i <= groups.len(),
            gv == groups.deep_view(),
            gv.len() == groups.len(),
            forall|k: int| 0 <= k < gv.len() ==> gv[k] == groups@[k].deep_view(),
            acc == spec_total_cores(gv.subrange(0, i as int)),
            spec_total_cores(gv) <= 255,
        decreases groups.len() - i,
    {
        proof {
            lemma_prefix_cores_le(gv, i + 1);
            assert(gv.subrange(0, i + 1).drop_last() =~= gv.subrange(0, i as int));
            assert(gv.subrange(0, i + 1).last() == gv[i as int]);
        }
        acc = acc + groups[i].len();
        i = i + 1;
    }
    proof {
        assert(gv.subrange(0, groups.len() as int) =~= gv);
    }
    acc as u8
}

/// The affinity list: every core of every group, in group order.
pub fn flatten_cores(groups: &Vec<Vec<u32>>) -> (r: Vec<u32>)
    ensures
        r@ == spec_flat_cores(groups.deep_view()),
{
    let ghost gv = groups.deep_view();
    let mut r: Vec<u32> = Vec::new();
    let mut i: usize = 0;
    while i < groups.len()
        invariant
            0 <= i <= groups.len(),
            gv == groups.deep_view(),
            gv.len() == groups.len(),
            forall|k: int| 0 <= k < gv.len() ==> gv[k] == groups@[k].deep_view(),
            r@ == spec_flat_cores(gv.subrange(0, i as int)),
        decreases groups.len() - i,
    {
        let group = &groups[i];
        let mut j: usize = 0;
        while j < group.len()
            invariant
                0 <= j <= group.len(),
                0 <= i < groups.len(),
                gv == groups.deep_view(),
                gv.len() == groups.len(),
                forall|k: int| 0 <= k < gv.len() ==> gv[k] == groups@[k].deep_view(),
                group == &groups@[i as int],
                r@ == spec_flat_cores(gv.subrange(0, i as int)) + gv[i as int].subrange(
                    0,
                    j as int,
                ),
            decreases group.len() - j,
        {
            r.push(group[j]);
            proof {
                assert(gv[i as int].subrange(0, j + 1) =~= gv[i as int].subrange(0, j as int).push(
                    gv[i as int][j as int],
                ));
                assert(gv[i as int][j as int] == group@[j as int]);
            }
            j = j + 1;
        }
        proof {
            assert(gv.subrange(0, i + 1).drop_last() =~= gv.subrange(0, i as int));
            assert(gv.subrange(0, i + 1).last() == gv[i as int]);
            assert(gv[i as int].subrange(0, gv[i as int].len() as int) =~= gv[i as int]);
        }
        i = i + 1;
    }
    proof {
        assert(gv.subrange(0, groups.len() as int) =~= gv);
    }
    r
}

/// RAM in MiB for the guest: the explicit request when given, otherwise
/// 80% of the host total, capped at [`RAM_CEILING_MIB`].
pub fn ram_size_mib(explicit: Option<u32>, total_mib: u64) -> (r: u32)
    ensures
        r as int == spec_ram_mib(explicit, total_mib),
{
    match explicit {
        Some(m) => m,
        None => {
            if total_mib >= 40960 {
                assert((total_mib * 4) / 5 >= RAM_CEILING_MIB);
                32768
            } else {
                ((total_mib * 4) / 5) as u32
            }
        },
    }
}

} // verus!
