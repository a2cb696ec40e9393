//! Disk image selection: which read-only filesystem images the microVM
//! attaches.
//!
//! An explicit selection is taken exactly as given, and a missing path in
//! it is an error: an explicit choice implies a strict expectation. With
//! no explicit selection, a fixed allow-list of default image paths is
//! filtered to the ones that exist, in their declared order; nothing is
//! discovered by scanning directories. The caller probes the filesystem
//! and hands each candidate in with its existence flag.

use vstd::prelude::*;
use vstd::string::StringExecFns;
use crate::text::views_of;

verus! {

/// A candidate image path together with whether it exists on the host.
pub struct ProbedPath {
    pub path: String,
    pub exists: bool,
}

/// Why disk selection failed.
#[derive(Clone, Copy, PartialEq, Eq, Structural, Debug)]
pub enum DiskError {
    /// The explicitly selected image at this position does not exist.
    MissingImage { index: usize },
}

/// All candidates exist.
pub open spec fn spec_all_exist(s: Seq<ProbedPath>) -> bool {
    forall|i: int| 0 <= i < s.len() ==> s[i].exists
}

/// The paths of all candidates, in order.
pub open spec fn spec_paths(s: Seq<ProbedPath>) -> Seq<Seq<char>> {
    s.map_values(|p: ProbedPath| p.path@)
}

/// The paths of the candidates that exist, in order.
pub open spec fn spec_existing_paths(s: Seq<ProbedPath>) -> Seq<Seq<char>>
    decreases s.len(),
{
    if s.len() == 0 {
        Seq::empty()
    } else if s.last().exists {
        spec_existing_paths(s.drop_last()).push(s.last().path@)
    } else {
        spec_existing_paths(s.drop_last())
    }
}

/// The fixed allow-list of default image paths, in declaration order:
/// the emulation root filesystem, then the graphics driver overlay.
pub fn default_image_paths() -> (r: Vec<String>)
    ensures
        r@.len() == 2,
        r@[0]@ == "/usr/share/fex-emu/RootFS/default.erofs"@,
        r@[1]@ == "/usr/share/fex-emu/overlays/mesa.erofs"@,
{
    let mut r: Vec<String> = Vec::new();
    r.push(String::from_str("/usr/share/fex-emu/RootFS/default.erofs"));
    r.push(String::from_str("/usr/share/fex-emu/overlays/mesa.erofs"));
    r
}

/// Selects the images to attach.
///
/// With a non-empty explicit selection the result is exactly those paths,
/// or the position of the first missing one as an error. With no explicit
/// selection the result is the default candidates that exist, in order,
/// and never an error.
pub fn select_disks(explicit: &Vec<ProbedPath>, defaults: &Vec<ProbedPath>) -> (r: Result<
    Vec<String>,
    DiskError,
>)
    ensures
        explicit@.len() > 0 && spec_all_exist(explicit@) ==> (r matches Ok(v) && views_of(v@)
            == spec_paths(explicit@)),
        explicit@.len() > 0 && !spec_all_exist(explicit@) ==> (r matches Err(e) && (e
            matches DiskError::MissingImage { index } && 0 <= index < explicit@.len()
            && !explicit@[index as int].exists && (forall|j: int|
            0 <= j < index ==> explicit@[j].exists))),
        explicit@.len() == 0 ==> (r matches Ok(v) && views_of(v@) == spec_existing_paths(
            defaults@,
        )),
{
    if explicit.len() > 0 {
        let mut i: usize = 0;
        while i < explicit.len()
            invariant
                0 <= i <= explicit@.len(),
                forall|j: int| 0 <= j < i ==> explicit@[j].exists,
            decreases explicit@.len() - i,
        {
            if !explicit[i].exists {
                return Err(DiskError::MissingImage { index: i });
            }
            i = i + 1;
        }
        let mut v: Vec<String> = Vec::new();
        let mut k: usize = 0;
        while k < explicit.len()
            invariant
                0 <= k <= explicit@.len(),
                views_of(v@) == spec_paths(explicit@.subrange(0, k as int)),
            decreases explicit@.len() - k,
        {
            let p = explicit[k].path.clone();
            let ghost vpre = v@;
            v.push(p);
            proof {
                crate::text::lemma_views_of_push(vpre, v@.last());
                assert(spec_paths(explicit@.subrange(0, k + 1)) =~= spec_paths(
                    explicit@.subrange(0, k as int),
                ).push(explicit@[k as int].path@));
                assert(views_of(v@) =~= spec_paths(explicit@.subrange(0, k + 1)));
            }
            k = k + 1;
        }
        proof {
            assert(explicit@.subrange(0, explicit@.len() as int) =~= explicit@);
        }
        Ok(v)
    } else {
        let mut v: Vec<String> = Vec::new();
        let mut k: usize = 0;
        while k < defaults.len()
            invariant
                0 <= k <= defaults@.len(),
                views_of(v@) == spec_existing_paths(defaults@.subrange(0, k as int)),
            decreases defaults@.len() - k,
        {
            proof {
                assert(defaults@.subrange(0, k + 1).drop_last() =~= defaults@.subrange(
                    0,
                    k as int,
                ));
                assert(defaults@.subrange(0, k + 1).last() == defaults@[k as int]);
            }
            if defaults[k].exists {
                let p = defaults[k].path.clone();
                let ghost vpre = v@;
                v.push(p);
                proof {
                    crate::text::lemma_views_of_push(vpre, v@.last());
                    assert(views_of(v@) =~= spec_existing_paths(defaults@.subrange(0, k + 1)));
                }
            } else {
                proof {
                    assert(views_of(v@) =~= spec_existing_paths(defaults@.subrange(0, k + 1)));
                }
            }
            k = k + 1;
        }
        proof {
            assert(defaults@.subrange(0, defaults@.len() as int) =~= defaults@);
        }
        Ok(v)
    }
}

} // verus!
