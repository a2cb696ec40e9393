//! The guest mount-namespace bootstrap plan.
//!
//! Inside the guest, early at boot, a fixed sequence of mount operations
//! composes the emulation root filesystem and an isolated view of host
//! resources. This module computes that sequence as a value; the caller
//! executes it in order. The order carries the design's guarantees: the
//! runtime tmpfs comes before any directory made inside it, the
//! resolv.conf replacement is a clone-and-move rather than a write to the
//! target, and the host-root bind mount is taken before the only mutation
//! that follows it.

use vstd::prelude::*;
use vstd::string::StringExecFns;
use crate::text::views_of;

verus! {

/// One operation of the bootstrap sequence, in caller-executable form.
pub enum MountOp {
    /// Mount a private no-exec/no-suid tmpfs over `dir`.
    Tmpfs { dir: String },
    /// Create `dir` (world-readable, user-writable), which must succeed.
    MakeDir { dir: String },
    /// Mount the read-only image on `device` under `dir`.
    MountImage { device: String, dir: String },
    /// Mount an overlay with the given mount options at `dir`.
    MountOverlay { dir: String, options: String },
    /// Create a symbolic link at `link` pointing to `target`.
    Symlink { target: String, link: String },
    /// Create `path` holding exactly `contents`.
    WriteFile { path: String, contents: String },
    /// Create `path` empty, truncating an existing file.
    TruncateFile { path: String },
    /// Clone the mount at `source` and move the clone over `dest`.
    CloneMove { source: String, dest: String },
    /// Mount the binary-format-interpretation filesystem at `dir`.
    MountBinfmt { dir: String },
    /// Create `dir` and any missing parents.
    MakeDirAll { dir: String },
    /// Bind-mount `source` onto `dest`.
    BindMount { source: String, dest: String },
}

/// The mathematical shape of one operation: the same variants over
/// character sequences.
pub enum OpView {
    Tmpfs { dir: Seq<char> },
    MakeDir { dir: Seq<char> },
    MountImage { device: Seq<char>, dir: Seq<char> },
    MountOverlay { dir: Seq<char>, options: Seq<char> },
    Symlink { target: Seq<char>, link: Seq<char> },
    WriteFile { path: Seq<char>, contents: Seq<char> },
    TruncateFile { path: Seq<char> },
    CloneMove { source: Seq<char>, dest: Seq<char> },
    MountBinfmt { dir: Seq<char> },
    MakeDirAll { dir: Seq<char> },
    BindMount { source: Seq<char>, dest: Seq<char> },
}

impl View for MountOp {
    type V = OpView;

    open spec fn view(&self) -> OpView {
        match self {
            MountOp::Tmpfs { dir } => OpView::Tmpfs { dir: dir@ },
            MountOp::MakeDir { dir } => OpView::MakeDir { dir: dir@ },
            MountOp::MountImage { device, dir } => OpView::MountImage {
                device: device@,
                dir: dir@,
            },
            MountOp::MountOverlay { dir, options } => OpView::MountOverlay {
                dir: dir@,
                options: options@,
            },
            MountOp::Symlink { target, link } => OpView::Symlink {
                target: target@,
                link: link@,
            },
            MountOp::WriteFile { path, contents } => OpView::WriteFile {
                path: path@,
                contents: contents@,
            },
            MountOp::TruncateFile { path } => OpView::TruncateFile { path: path@ },
            MountOp::CloneMove { source, dest } => OpView::CloneMove {
                source: source@,
                dest: dest@,
            },
            MountOp::MountBinfmt { dir } => OpView::MountBinfmt { dir: dir@ },
            MountOp::MakeDirAll { dir } => OpView::MakeDirAll { dir: dir@ },
            MountOp::BindMount { source, dest } => OpView::BindMount {
                source: source@,
                dest: dest@,
            },
        }
    }
}

/// The shapes of a sequence of operations.
pub open spec fn ops_view(s: Seq<MountOp>) -> Seq<OpView> {
    s.map_values(|op: MountOp| op@)
}

proof fn lemma_ops_view_push(s: Seq<MountOp>, op: MountOp)
    ensures
        ops_view(s.push(op)) =~= ops_view(s).push(op@),
{
    assert forall|i: int| 0 <= i < s.len() + 1 implies ops_view(s.push(op))[i] == ops_view(
        s,
    ).push(op@)[i] by {
        if i < s.len() {
            assert(s.push(op)[i] == s[i]);
        } else {
            assert(s.push(op)[i] == op);
        }
    }
}

/// A guest block device name: `vd` followed by anything.
pub open spec fn spec_vd_name(s: Seq<char>) -> bool {
    s.len() >= 2 && s[0] == 'v' && s[1] == 'd'
}

/// The names among `names` that are guest block devices, in order.
pub open spec fn spec_vd_names(names: Seq<Seq<char>>) -> Seq<Seq<char>>
    decreases names.len(),
{
    if names.len() == 0 {
        Seq::empty()
    } else if spec_vd_name(names.last()) {
        spec_vd_names(names.drop_last()).push(names.last())
    } else {
        spec_vd_names(names.drop_last())
    }
}

/// The per-device mount directory for a device name.
pub open spec fn spec_mount_dir(name: Seq<char>) -> Seq<char> {
    "/run/fex-emu/"@ + name
}

/// The device node path for a device name.
pub open spec fn spec_dev_path(name: Seq<char>) -> Seq<char> {
    "/dev/"@ + name
}

/// The per-device mount directories, in order.
pub open spec fn spec_mount_dirs(names: Seq<Seq<char>>) -> Seq<Seq<char>> {
    names.map_values(|n: Seq<char>| spec_mount_dir(n))
}

/// For each device, create its directory and mount its image there.
pub open spec fn spec_image_ops(vds: Seq<Seq<char>>) -> Seq<OpView>
    decreases vds.len(),
{
    if vds.len() == 0 {
        Seq::empty()
    } else {
        spec_image_ops(vds.drop_last()) + seq![
            (OpView::MakeDir { dir: spec_mount_dir(vds.last()) }),
            (OpView::MountImage {
                device: spec_dev_path(vds.last()),
                dir: spec_mount_dir(vds.last()),
            }),
        ]
    }
}

/// The mount directories joined for the overlay's lower-directory option,
/// in reverse discovery order: the last-discovered directory comes first.
pub open spec fn spec_rev_join(dirs: Seq<Seq<char>>) -> Seq<char>
    decreases dirs.len(),
{
    if dirs.len() == 0 {
        Seq::empty()
    } else if dirs.len() == 1 {
        dirs[0]
    } else {
        spec_rev_join(dirs.drop_first()) + ":"@ + dirs[0]
    }
}

/// How the discovered image mounts are composed into one root: two or
/// more are stacked by an overlay whose lower directories are in reverse
/// discovery order; exactly one is exposed directly by a symbolic link;
/// none means no composition at all.
pub open spec fn spec_compose_ops(dirs: Seq<Seq<char>>) -> Seq<OpView> {
    if dirs.len() >= 2 {
        seq![
            (OpView::MakeDir { dir: "/run/fex-emu/rootfs"@ }),
            (OpView::MountOverlay {
                dir: "/run/fex-emu/rootfs"@,
                options: "lowerdir="@ + spec_rev_join(dirs),
            }),
        ]
    } else if dirs.len() == 1 {
        seq![(OpView::Symlink { target: dirs[0], link: "/run/fex-emu/rootfs"@ })]
    } else {
        Seq::empty()
    }
}

/// The minimal emulation configuration: point the emulation layer's root
/// filesystem at the composed root, shadowing any baked-in configuration.
pub open spec fn spec_fex_config_text() -> Seq<char> {
    "{\"Config\":{\"RootFS\":\"/run/fex-emu/rootfs\"}}\n"@
}

/// For each emulation-config directory present on the guest image,
/// shadow it with a private tmpfs and write the redirecting configuration.
pub open spec fn spec_share_ops(share_exists: bool, local_share_exists: bool) -> Seq<OpView> {
    (if share_exists {
        seq![
            (OpView::Tmpfs { dir: "/usr/share/fex-emu"@ }),
            (OpView::WriteFile {
                path: "/usr/share/fex-emu/Config.json"@,
                contents: spec_fex_config_text(),
            }),
        ]
    } else {
        Seq::empty()
    }) + (if local_share_exists {
        seq![
            (OpView::Tmpfs { dir: "/usr/local/share/fex-emu"@ }),
            (OpView::WriteFile {
                path: "/usr/local/share/fex-emu/Config.json"@,
                contents: spec_fex_config_text(),
            }),
        ]
    } else {
        Seq::empty()
    })
}

/// The whole tolerant emulation-rootfs stage.
pub open spec fn spec_fex_ops(
    names: Seq<Seq<char>>,
    share_exists: bool,
    local_share_exists: bool,
) -> Seq<OpView> {
    seq![(OpView::MakeDir { dir: "/run/fex-emu/"@ })] + spec_image_ops(spec_vd_names(names))
        + spec_compose_ops(spec_mount_dirs(spec_vd_names(names))) + spec_share_ops(
        share_exists,
        local_share_exists,
    )
}

/// The unconditional tail of the bootstrap: resolv.conf replacement by
/// clone-and-move, binary-format registration, the host-root snapshot,
/// and (only if the guest image has the well-known X11 socket directory)
/// a tmpfs shadowing it — strictly after the snapshot.
pub open spec fn spec_final_ops(x11_exists: bool) -> Seq<OpView> {
    seq![
        (OpView::TruncateFile { path: "/tmp/resolv.conf"@ }),
        (OpView::CloneMove { source: "/tmp/resolv.conf"@, dest: "/etc/resolv.conf"@ }),
        (OpView::MountBinfmt { dir: "/proc/sys/fs/binfmt_misc"@ }),
        (OpView::MakeDirAll { dir: "/run/krun-host"@ }),
        (OpView::BindMount { source: "/"@, dest: "/run/krun-host"@ }),
    ] + (if x11_exists {
        seq![(OpView::Tmpfs { dir: "/tmp/.X11-unix"@ })]
    } else {
        Seq::empty()
    })
}

/// The full bootstrap, in execution order.
pub open spec fn spec_full_plan(
    names: Seq<Seq<char>>,
    share_exists: bool,
    local_share_exists: bool,
    x11_exists: bool,
) -> Seq<OpView> {
    seq![(OpView::Tmpfs { dir: "/var/run"@ })] + spec_fex_ops(
        names,
        share_exists,
        local_share_exists,
    ) + spec_final_ops(x11_exists)
}

/// The path at which an operation creates, replaces or shadows content.
pub open spec fn op_target(op: OpView) -> Seq<char> {
    match op {
        OpView::Tmpfs { dir } => dir,
        OpView::MakeDir { dir } => dir,
        OpView::MountImage { device: _, dir } => dir,
        OpView::MountOverlay { dir, options: _ } => dir,
        OpView::Symlink { target: _, link } => link,
        OpView::WriteFile { path, contents: _ } => path,
        OpView::TruncateFile { path } => path,
        OpView::CloneMove { source: _, dest } => dest,
        OpView::MountBinfmt { dir } => dir,
        OpView::MakeDirAll { dir } => dir,
        OpView::BindMount { source: _, dest } => dest,
    }
}

proof fn lemma_image_ops_shape(vds: Seq<Seq<char>>)
    ensures
        forall|k: int|
            0 <= k < spec_image_ops(vds).len() ==> (spec_image_ops(vds)[k] is MakeDir
                || spec_image_ops(vds)[k] is MountImage),
        forall|k: int|
            0 <= k < spec_image_ops(vds).len() ==> op_target(spec_image_ops(vds)[k])
                == "/run/fex-emu/"@ + vds[k / 2],
    decreases vds.len(),
{
    if vds.len() > 0 {
        lemma_image_ops_shape(vds.drop_last());
        assert forall|k: int| 0 <= k < spec_image_ops(vds).len() implies (spec_image_ops(
            vds,
        )[k] is MakeDir || spec_image_ops(vds)[k] is MountImage) && op_target(
            spec_image_ops(vds)[k],
        ) == "/run/fex-emu/"@ + vds[k / 2] by {
            let pre = spec_image_ops(vds.drop_last());
            lemma_image_ops_len(vds.drop_last());
            if k < pre.len() {
                assert(spec_image_ops(vds)[k] == pre[k]);
                assert(k / 2 < vds.len() - 1);
                assert(vds.drop_last()[k / 2] == vds[k / 2]);
            } else {
                assert(k / 2 == vds.len() - 1);
            }
        }
    }
}

proof fn lemma_image_ops_len(vds: Seq<Seq<char>>)
    ensures
        spec_image_ops(vds).len() == 2 * vds.len(),
    decreases vds.len(),
{
    if vds.len() > 0 {
        lemma_image_ops_len(vds.drop_last());
    }
}

/// The replacement of `/etc/resolv.conf` is atomic for an observer of
/// that path: no operation anywhere in the plan writes or truncates the
/// path itself. A fresh clone source is created first (under `/tmp`) and
/// the only operation targeting the path is the move of that clone's
/// mount, which switches the path from the old file to the new one in
/// one step.
pub proof fn lemma_resolv_replacement_atomic(
    names: Seq<Seq<char>>,
    share_exists: bool,
    local_share_exists: bool,
    x11_exists: bool,
)
    ensures
        forall|k: int|
            0 <= k < spec_full_plan(names, share_exists, local_share_exists, x11_exists).len()
                && op_target(
                spec_full_plan(names, share_exists, local_share_exists, x11_exists)[k],
            ) == "/etc/resolv.conf"@ ==> spec_full_plan(
                names,
                share_exists,
                local_share_exists,
                x11_exists,
            )[k] == (OpView::CloneMove {
                source: "/tmp/resolv.conf"@,
                dest: "/etc/resolv.conf"@,
            }),
        spec_full_plan(names, share_exists, local_share_exists, x11_exists)[1 + spec_fex_ops(
            names,
            share_exists,
            local_share_exists,
        ).len() as int] == (OpView::TruncateFile { path: "/tmp/resolv.conf"@ }),
        spec_full_plan(names, share_exists, local_share_exists, x11_exists)[2 + spec_fex_ops(
            names,
            share_exists,
            local_share_exists,
        ).len() as int] == (OpView::CloneMove {
            source: "/tmp/resolv.conf"@,
            dest: "/etc/resolv.conf"@,
        }),
{
    reveal_strlit("/etc/resolv.conf");
    reveal_strlit("/tmp/resolv.conf");
    reveal_strlit("/var/run");
    reveal_strlit("/run/fex-emu/");
    reveal_strlit("/run/fex-emu/rootfs");
    reveal_strlit("/usr/share/fex-emu");
    reveal_strlit("/usr/share/fex-emu/Config.json");
    reveal_strlit("/usr/local/share/fex-emu");
    reveal_strlit("/usr/local/share/fex-emu/Config.json");
    reveal_strlit("/proc/sys/fs/binfmt_misc");
    reveal_strlit("/run/krun-host");
    reveal_strlit("/tmp/.X11-unix");
    let plan = spec_full_plan(names, share_exists, local_share_exists, x11_exists);
    let fex = spec_fex_ops(names, share_exists, local_share_exists);
    let fin = spec_final_ops(x11_exists);
    let vds = spec_vd_names(names);
    let image = spec_image_ops(vds);
    let compose = spec_compose_ops(spec_mount_dirs(vds));
    let share = spec_share_ops(share_exists, local_share_exists);
    lemma_image_ops_shape(vds);
    lemma_image_ops_len(vds);
    assert forall|k: int|
        0 <= k < plan.len() && op_target(plan[k]) == "/etc/resolv.conf"@ implies plan[k] == (
    OpView::CloneMove { source: "/tmp/resolv.conf"@, dest: "/etc/resolv.conf"@ }) by {
        assert("/etc/resolv.conf"@.len() == 16);
        assert("/etc/resolv.conf"@[1] == 'e');
        if k == 0 {
            assert(op_target(plan[0]) == "/var/run"@);
            assert("/var/run"@.len() == 8);
        } else if k < 1 + fex.len() {
            let m = k - 1;
            assert(plan[k] == fex[m]);
            if m == 0 {
                assert(op_target(fex[0]) == "/run/fex-emu/"@);
                assert("/run/fex-emu/"@.len() == 13);
            } else if m < 1 + image.len() {
                assert(fex[m] == image[m - 1]);
                assert(op_target(image[m - 1]) == "/run/fex-emu/"@ + vds[(m - 1) / 2]);
                assert(("/run/fex-emu/"@ + vds[(m - 1) / 2])[1] == 'r');
            } else if m < 1 + image.len() + compose.len() {
                let c = m - 1 - image.len();
                assert(fex[m] == compose[c]);
                assert("/run/fex-emu/rootfs"@.len() == 19);
                if spec_mount_dirs(vds).len() >= 2 {
                    assert(op_target(compose[c]) == "/run/fex-emu/rootfs"@);
                } else {
                    assert(spec_mount_dirs(vds).len() == 1);
                    assert(op_target(compose[c]) == "/run/fex-emu/rootfs"@);
                }
            } else {
                let s = m - 1 - image.len() - compose.len();
                assert(fex[m] == share[s]);
                assert("/usr/share/fex-emu"@.len() == 18);
                assert("/usr/share/fex-emu/Config.json"@.len() == 30);
                assert("/usr/local/share/fex-emu"@.len() == 24);
                assert("/usr/local/share/fex-emu/Config.json"@.len() == 36);
            }
        } else {
            let m = k - 1 - fex.len();
            assert(plan[k] == fin[m]);
            if m == 0 {
                assert(op_target(fin[0]) == "/tmp/resolv.conf"@);
                assert("/tmp/resolv.conf"@[1] == 't');
            } else if m == 1 {
                assert(fin[1] == (OpView::CloneMove {
                    source: "/tmp/resolv.conf"@,
                    dest: "/etc/resolv.conf"@,
                }));
            } else {
                assert("/proc/sys/fs/binfmt_misc"@.len() == 24);
                assert("/run/krun-host"@.len() == 14);
                assert("/tmp/.X11-unix"@.len() == 14);
            }
        }
    }
    assert(plan[1 + fex.len() as int] == fin[0]);
    assert(plan[2 + fex.len() as int] == fin[1]);
}

/// The host-root snapshot is taken before the only mutation that follows
/// it: after the bind mount of `/` onto the introspection path, the sole
/// remaining operation (present only when the guest image has the X11
/// socket directory) is the tmpfs shadowing that directory — so nothing
/// mounted afterwards can appear inside the snapshot.
pub proof fn lemma_host_snapshot_before_later_mutation(
    names: Seq<Seq<char>>,
    share_exists: bool,
    local_share_exists: bool,
    x11_exists: bool,
)
    ensures
        spec_full_plan(names, share_exists, local_share_exists, x11_exists)[5 + spec_fex_ops(
            names,
            share_exists,
            local_share_exists,
        ).len() as int] == (OpView::BindMount { source: "/"@, dest: "/run/krun-host"@ }),
        forall|j: int|
            5 + spec_fex_ops(names, share_exists, local_share_exists).len() < j < spec_full_plan(
                names,
                share_exists,
                local_share_exists,
                x11_exists,
            ).len() ==> spec_full_plan(names, share_exists, local_share_exists, x11_exists)[j]
                == (OpView::Tmpfs { dir: "/tmp/.X11-unix"@ }),
{
    let plan = spec_full_plan(names, share_exists, local_share_exists, x11_exists);
    let fex = spec_fex_ops(names, share_exists, local_share_exists);
    let fin = spec_final_ops(x11_exists);
    assert(plan[5 + fex.len() as int] == fin[4]);
    assert forall|j: int| 5 + fex.len() < j < plan.len() implies plan[j] == (OpView::Tmpfs {
        dir: "/tmp/.X11-unix"@,
    }) by {
        assert(plan[j] == fin[j - 1 - fex.len()]);
        assert(j - 1 - fex.len() == 5);
    }
}

/// With exactly one discovered image, the composition degrades to a
/// symbolic link: the stage contains no overlay mount at all, and exposes
/// the single image's mount directory directly as the root.
pub proof fn lemma_single_image_symlink(
    names: Seq<Seq<char>>,
    share_exists: bool,
    local_share_exists: bool,
)
    requires
        spec_vd_names(names).len() == 1,
    ensures
        forall|k: int|
            0 <= k < spec_fex_ops(names, share_exists, local_share_exists).len() ==> !(
            spec_fex_ops(names, share_exists, local_share_exists)[k] is MountOverlay),
        spec_fex_ops(names, share_exists, local_share_exists)[1 + spec_image_ops(
            spec_vd_names(names),
        ).len() as int] == (OpView::Symlink {
            target: spec_mount_dir(spec_vd_names(names)[0]),
            link: "/run/fex-emu/rootfs"@,
        }),
{
    let fex = spec_fex_ops(names, share_exists, local_share_exists);
    let vds = spec_vd_names(names);
    let image = spec_image_ops(vds);
    let compose = spec_compose_ops(spec_mount_dirs(vds));
    let share = spec_share_ops(share_exists, local_share_exists);
    lemma_image_ops_shape(vds);
    lemma_image_ops_len(vds);
    assert(spec_mount_dirs(vds).len() == 1);
    assert(compose == seq![
        (OpView::Symlink { target: spec_mount_dir(vds[0]), link: "/run/fex-emu/rootfs"@ }),
    ]);
    assert(fex[1 + image.len() as int] == compose[0]);
    assert forall|k: int| 0 <= k < fex.len() implies !(fex[k] is MountOverlay) by {
        if k == 0 {
        } else if k < 1 + image.len() {
            assert(fex[k] == image[k - 1]);
        } else if k < 1 + image.len() + compose.len() {
            assert(fex[k] == compose[k - 1 - image.len()]);
        } else {
            assert(fex[k] == share[k - 1 - image.len() - compose.len()]);
        }
    }
}

/// The overlay's lower-directory list reverses the discovery order: for
/// any three directories discovered in order, the third is listed first
/// and the first last.
pub proof fn lemma_lowerdir_reverses_discovery(d0: Seq<char>, d1: Seq<char>, d2: Seq<char>)
    ensures
        spec_rev_join(seq![d0, d1, d2]) == d2 + ":"@ + d1 + ":"@ + d0,
{
    let s = seq![d0, d1, d2];
    assert(s.drop_first() =~= seq![d1, d2]);
    assert(seq![d1, d2].drop_first() =~= seq![d2]);
    assert(spec_rev_join(seq![d2]) == d2);
    assert(spec_rev_join(seq![d1, d2]) == d2 + ":"@ + d1);
    assert(spec_rev_join(s) == (d2 + ":"@ + d1) + ":"@ + d0);
    assert((d2 + ":"@ + d1) + ":"@ + d0 =~= d2 + ":"@ + d1 + ":"@ + d0);
}

/// Whether a directory entry name denotes a guest block device.
pub fn has_vd_prefix(name: &str) -> (r: bool)
    ensures
        r == spec_vd_name(name@),
{
    proof {
        reveal_strlit("v");
        reveal_strlit("d");
    }
    if name.unicode_len() < 2 {
        return false;
    }
    let c0 = name.get_char(0);
    let c1 = name.get_char(1);
    c0 == 'v' && c1 == 'd'
}

/// The overlay mount options listing the lower directories in reverse
/// discovery order.
pub fn lowerdir_options(dirs: &Vec<String>) -> (r: String)
    requires
        dirs@.len() >= 1,
    ensures
        r@ == "lowerdir="@ + spec_rev_join(views_of(dirs@)),
{
    let ghost dv = views_of(dirs@);
    let mut r = String::from_str("lowerdir=");
    let mut i: usize = dirs.len() - 1;
    r.append(dirs[i].as_str());
    proof {
        assert(dv[i as int] == dirs@[i as int]@);
        assert(dv.subrange(i as int, dv.len() as int).len() == 1);
        assert(dv.subrange(i as int, dv.len() as int)[0] == dv[i as int]);
    }
    while i > 0
        invariant
            dirs@.len() >= 1,
            dv == views_of(dirs@),
            dv.len() == dirs@.len(),
            0 <= i < dirs@.len(),
            r@ == "lowerdir="@ + spec_rev_join(dv.subrange(i as int, dv.len() as int)),
        decreases i,
    {
        r.append(":");
        r.append(dirs[i - 1].as_str());
        proof {
            assert(dv[i - 1] == dirs@[i - 1]@);
            assert(dv.subrange(i - 1, dv.len() as int).drop_first() =~= dv.subrange(
                i as int,
                dv.len() as int,
            ));
            assert(dv.subrange(i - 1, dv.len() as int)[0] == dv[i - 1]);
            assert(dv.subrange(i - 1, dv.len() as int).len() >= 2);
        }
        i = i - 1;
    }
    proof {
        assert(dv.subrange(0, dv.len() as int) =~= dv);
    }
    r
}

/// The tolerant emulation-rootfs stage as an operation sequence: mount
/// every guest block device's image, compose the mounts into one root,
/// and shadow each emulation-config directory that exists.
pub fn fex_rootfs_plan(
    device_names: &Vec<String>,
    share_exists: bool,
    local_share_exists: bool,
) -> (r: Vec<MountOp>)
    ensures
        ops_view(r@) == spec_fex_ops(views_of(device_names@), share_exists, local_share_exists),
{
    let ghost nv = views_of(device_names@);
    let mut ops: Vec<MountOp> = Vec::new();
    let ghost o0 = ops@;
    ops.push(MountOp::MakeDir { dir: String::from_str("/run/fex-emu/") });
    proof {
        lemma_ops_view_push(o0, ops@.last());
        assert(ops_view(o0) =~= Seq::<OpView>::empty());
        assert(ops_view(ops@) =~= seq![(OpView::MakeDir { dir: "/run/fex-emu/"@ })]);
    }
    let mut dirs: Vec<String> = Vec::new();
    let mut i: usize = 0;
    while i < device_names.len()
        invariant
            0 <= i <= device_names@.len(),
            nv == views_of(device_names@),
            nv.len() == device_names@.len(),
            views_of(dirs@) == spec_mount_dirs(spec_vd_names(nv.subrange(0, i as int))),
            ops_view(ops@) == seq![(OpView::MakeDir { dir: "/run/fex-emu/"@ })] + spec_image_ops(
                spec_vd_names(nv.subrange(0, i as int)),
            ),
        decreases device_names@.len() - i,
    {
        proof {
            assert(nv.subrange(0, i + 1).drop_last() =~= nv.subrange(0, i as int));
            assert(nv.subrange(0, i + 1).last() == nv[i as int]);
            assert(nv[i as int] == device_names@[i as int]@);
        }
        let name = &device_names[i];
        if has_vd_prefix(name.as_str()) {
            let mut dir = String::from_str("/run/fex-emu/");
            dir.append(name.as_str());
            let mut dev = String::from_str("/dev/");
            dev.append(name.as_str());
            let ghost vds_pre = spec_vd_names(nv.subrange(0, i as int));
            let ghost o1 = ops@;
            ops.push(MountOp::MakeDir { dir: dir.clone() });
            proof {
                lemma_ops_view_push(o1, ops@.last());
            }
            let ghost o2 = ops@;
            ops.push(MountOp::MountImage { device: dev, dir: dir.clone() });
            proof {
                lemma_ops_view_push(o2, ops@.last());
            }
            let ghost d1 = dirs@;
            dirs.push(dir);
            proof {
                crate::text::lemma_views_of_push(d1, dirs@.last());
                let vds = spec_vd_names(nv.subrange(0, i + 1));
                assert(vds == vds_pre.push(nv[i as int]));
                assert(vds.drop_last() =~= vds_pre);
                assert(spec_image_ops(vds) == spec_image_ops(vds_pre) + seq![
                    (OpView::MakeDir { dir: spec_mount_dir(nv[i as int]) }),
                    (OpView::MountImage {
                        device: spec_dev_path(nv[i as int]),
                        dir: spec_mount_dir(nv[i as int]),
                    }),
                ]);
                assert(ops_view(ops@) =~= seq![(OpView::MakeDir { dir: "/run/fex-emu/"@ })]
                    + spec_image_ops(vds));
                assert(spec_mount_dirs(vds) =~= spec_mount_dirs(vds_pre).push(
                    spec_mount_dir(nv[i as int]),
                ));
                assert(views_of(dirs@) =~= spec_mount_dirs(vds));
            }
        } else {
            proof {
                assert(spec_vd_names(nv.subrange(0, i + 1)) == spec_vd_names(
                    nv.subrange(0, i as int),
                ));
            }
        }
        i = i + 1;
    }
    proof {
        assert(nv.subrange(0, nv.len() as int) =~= nv);
    }
    let ghost vds = spec_vd_names(nv);
    let ghost mdirs = spec_mount_dirs(vds);
    proof {
        assert(views_of(dirs@).len() == dirs@.len());
        assert(mdirs.len() == dirs@.len());
    }
    if dirs.len() >= 2 {
        let opts = lowerdir_options(&dirs);
        let ghost o3 = ops@;
        ops.push(MountOp::MakeDir { dir: String::from_str("/run/fex-emu/rootfs") });
        proof {
            lemma_ops_view_push(o3, ops@.last());
        }
        let ghost o4 = ops@;
        ops.push(
            MountOp::MountOverlay {
                dir: String::from_str("/run/fex-emu/rootfs"),
                options: opts,
            },
        );
        proof {
            lemma_ops_view_push(o4, ops@.last());
            assert(views_of(dirs@) == mdirs);
            assert(ops_view(ops@) =~= seq![(OpView::MakeDir { dir: "/run/fex-emu/"@ })]
                + spec_image_ops(vds) + spec_compose_ops(mdirs));
        }
    } else if dirs.len() == 1 {
        let target = dirs[0].clone();
        let ghost o3 = ops@;
        ops.push(MountOp::Symlink { target, link: String::from_str("/run/fex-emu/rootfs") });
        proof {
            lemma_ops_view_push(o3, ops@.last());
            assert(views_of(dirs@)[0] == dirs@[0]@);
            assert(ops_view(ops@) =~= seq![(OpView::MakeDir { dir: "/run/fex-emu/"@ })]
                + spec_image_ops(vds) + spec_compose_ops(mdirs));
        }
    } else {
        proof {
            assert(spec_compose_ops(mdirs) =~= Seq::<OpView>::empty());
            assert(ops_view(ops@) =~= seq![(OpView::MakeDir { dir: "/run/fex-emu/"@ })]
                + spec_image_ops(vds) + spec_compose_ops(mdirs));
        }
    }
    let ghost before_shares = ops_view(ops@);
    if share_exists {
        let ghost o5 = ops@;
        ops.push(MountOp::Tmpfs { dir: String::from_str("/usr/share/fex-emu") });
        proof {
            lemma_ops_view_push(o5, ops@.last());
        }
        let ghost o6 = ops@;
        ops.push(
            MountOp::WriteFile {
                path: String::from_str("/usr/share/fex-emu/Config.json"),
                contents: String::from_str("{\"Config\":{\"RootFS\":\"/run/fex-emu/rootfs\"}}\n"),
            },
        );
        proof {
            lemma_ops_view_push(o6, ops@.last());
        }
    }
    let ghost after_first = ops_view(ops@);
    proof {
        if share_exists {
            assert(after_first =~= before_shares + seq![
                (OpView::Tmpfs { dir: "/usr/share/fex-emu"@ }),
                (OpView::WriteFile {
                    path: "/usr/share/fex-emu/Config.json"@,
                    contents: spec_fex_config_text(),
                }),
            ]);
        }
    }
    if local_share_exists {
        let ghost o7 = ops@;
        ops.push(MountOp::Tmpfs { dir: String::from_str("/usr/local/share/fex-emu") });
        proof {
            lemma_ops_view_push(o7, ops@.last());
        }
        let ghost o8 = ops@;
        ops.push(
            MountOp::WriteFile {
                path: String::from_str("/usr/local/share/fex-emu/Config.json"),
                contents: String::from_str("{\"Config\":{\"RootFS\":\"/run/fex-emu/rootfs\"}}\n"),
            },
        );
        proof {
            lemma_ops_view_push(o8, ops@.last());
        }
    }
    proof {
        if local_share_exists {
            assert(ops_view(ops@) =~= after_first + seq![
                (OpView::Tmpfs { dir: "/usr/local/share/fex-emu"@ }),
                (OpView::WriteFile {
                    path: "/usr/local/share/fex-emu/Config.json"@,
                    contents: spec_fex_config_text(),
                }),
            ]);
        }
        assert(ops_view(ops@) =~= spec_fex_ops(nv, share_exists, local_share_exists));
    }
    ops
}

/// The bootstrap in three stages: the runtime tmpfs (fatal on failure),
/// the tolerant emulation-rootfs stage (logged and skipped on failure),
/// and the unconditional tail (each operation must succeed once reached).
pub struct BootstrapPlan {
    pub runtime_tmpfs: MountOp,
    pub fex_ops: Vec<MountOp>,
    pub final_ops: Vec<MountOp>,
}

impl BootstrapPlan {
    /// The whole sequence in execution order.
    pub open spec fn spec_ops(self) -> Seq<OpView> {
        seq![self.runtime_tmpfs@] + ops_view(self.fex_ops@) + ops_view(self.final_ops@)
    }
}

/// Computes the whole bootstrap plan from what the caller observed:
/// the names under the device directory, whether each emulation-config
/// directory exists, and whether the X11 socket directory exists.
pub fn bootstrap_plan(
    device_names: &Vec<String>,
    share_exists: bool,
    local_share_exists: bool,
    x11_exists: bool,
) -> (r: BootstrapPlan)
    ensures
        r.runtime_tmpfs@ == (OpView::Tmpfs { dir: "/var/run"@ }),
        ops_view(r.fex_ops@) == spec_fex_ops(
            views_of(device_names@),
            share_exists,
            local_share_exists,
        ),
        ops_view(r.final_ops@) == spec_final_ops(x11_exists),
        r.spec_ops() == spec_full_plan(
            views_of(device_names@),
            share_exists,
            local_share_exists,
            x11_exists,
        ),
{
    let fex_ops = fex_rootfs_plan(device_names, share_exists, local_share_exists);
    let mut final_ops: Vec<MountOp> = Vec::new();
    let ghost f0 = final_ops@;
    final_ops.push(MountOp::TruncateFile { path: String::from_str("/tmp/resolv.conf") });
    proof {
        lemma_ops_view_push(f0, final_ops@.last());
        assert(ops_view(f0) =~= Seq::<OpView>::empty());
    }
    let ghost f1 = final_ops@;
    final_ops.push(
        MountOp::CloneMove {
            source: String::from_str("/tmp/resolv.conf"),
            dest: String::from_str("/etc/resolv.conf"),
        },
    );
    proof {
        lemma_ops_view_push(f1, final_ops@.last());
    }
    let ghost f2 = final_ops@;
    final_ops.push(MountOp::MountBinfmt { dir: String::from_str("/proc/sys/fs/binfmt_misc") });
    proof {
        lemma_ops_view_push(f2, final_ops@.last());
    }
    let ghost f3 = final_ops@;
    final_ops.push(MountOp::MakeDirAll { dir: String::from_str("/run/krun-host") });
    proof {
        lemma_ops_view_push(f3, final_ops@.last());
    }
    let ghost f4 = final_ops@;
    final_ops.push(
        MountOp::BindMount {
            source: String::from_str("/"),
            dest: String::from_str("/run/krun-host"),
        },
    );
    proof {
        lemma_ops_view_push(f4, final_ops@.last());
    }
    if x11_exists {
        let ghost f5 = final_ops@;
        final_ops.push(MountOp::Tmpfs { dir: String::from_str("/tmp/.X11-unix") });
        proof {
            lemma_ops_view_push(f5, final_ops@.last());
        }
    }
    proof {
        assert(ops_view(final_ops@) =~= spec_final_ops(x11_exists));
    }
    let r = BootstrapPlan {
        runtime_tmpfs: MountOp::Tmpfs { dir: String::from_str("/var/run") },
        fex_ops,
        final_ops,
    };
    proof {
        assert(r.spec_ops() =~= spec_full_plan(
            views_of(device_names@),
            share_exists,
            local_share_exists,
            x11_exists,
        ));
    }
    r
}

} // verus!
