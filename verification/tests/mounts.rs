use krun::mount::{bootstrap_plan, fex_rootfs_plan, has_vd_prefix, lowerdir_options, MountOp};

fn full_plan(ops: &krun::mount::BootstrapPlan) -> Vec<&MountOp> {
    let mut all: Vec<&MountOp> = vec![&ops.runtime_tmpfs];
    all.extend(ops.fex_ops.iter());
    all.extend(ops.final_ops.iter());
    all
}

fn strings(v: &[&str]) -> Vec<String> {
    v.iter().map(|s| s.to_string()).collect()
}

#[test]
fn vd_prefix_detection() {
    assert!(has_vd_prefix("vda"));
    assert!(has_vd_prefix("vd0"));
    assert!(has_vd_prefix("vd"));
    assert!(!has_vd_prefix("v"));
    assert!(!has_vd_prefix("sr0"));
    assert!(!has_vd_prefix(""));
}

#[test]
fn lowerdir_reverses_discovery_order() {
    let dirs = strings(&["/run/fex-emu/vd0", "/run/fex-emu/vd1", "/run/fex-emu/vd2"]);
    assert_eq!(
        lowerdir_options(&dirs),
        "lowerdir=/run/fex-emu/vd2:/run/fex-emu/vd1:/run/fex-emu/vd0"
    );
}

#[test]
fn lowerdir_single_dir() {
    assert_eq!(lowerdir_options(&strings(&["/a"])), "lowerdir=/a");
}

#[test]
fn fex_plan_three_devices_overlays_in_reverse() {
    let names = strings(&["vd0", "vd1", "vd2", "sr0"]);
    let ops = fex_rootfs_plan(&names, false, false);
    // Base directory, then one MakeDir + one image mount per vd device.
    assert!(matches!(&ops[0], MountOp::MakeDir { dir } if dir.as_str() == "/run/fex-emu/"));
    assert!(matches!(&ops[1], MountOp::MakeDir { dir } if dir.as_str() == "/run/fex-emu/vd0"));
    assert!(
        matches!(&ops[2], MountOp::MountImage { device, dir } if device.as_str() == "/dev/vd0" && dir.as_str() == "/run/fex-emu/vd0")
    );
    assert!(
        matches!(&ops[6], MountOp::MountImage { device, dir } if device.as_str() == "/dev/vd2" && dir.as_str() == "/run/fex-emu/vd2")
    );
    // The non-device name is filtered out; composition follows.
    assert!(matches!(&ops[7], MountOp::MakeDir { dir } if dir.as_str() == "/run/fex-emu/rootfs"));
    match &ops[8] {
        MountOp::MountOverlay { dir, options } => {
            assert_eq!(dir, "/run/fex-emu/rootfs");
            assert_eq!(
                options,
                "lowerdir=/run/fex-emu/vd2:/run/fex-emu/vd1:/run/fex-emu/vd0"
            );
        },
        _ => panic!("expected overlay mount"),
    }
    assert_eq!(ops.len(), 9);
}

#[test]
fn fex_plan_single_device_symlinks() {
    let ops = fex_rootfs_plan(&strings(&["vda"]), false, false);
    assert!(ops.iter().all(|op| !matches!(op, MountOp::MountOverlay { .. })));
    assert!(ops.iter().any(|op| matches!(
        op,
        MountOp::Symlink { target, link }
            if target.as_str() == "/run/fex-emu/vda" && link.as_str() == "/run/fex-emu/rootfs"
    )));
}

#[test]
fn fex_plan_no_devices_no_composition() {
    let ops = fex_rootfs_plan(&strings(&["sr0"]), false, false);
    assert_eq!(ops.len(), 1);
    assert!(matches!(&ops[0], MountOp::MakeDir { dir } if dir.as_str() == "/run/fex-emu/"));
}

#[test]
fn fex_plan_shadows_existing_config_dirs() {
    let ops = fex_rootfs_plan(&strings(&[]), true, true);
    let expected = "{\"Config\":{\"RootFS\":\"/run/fex-emu/rootfs\"}}\n";
    assert!(matches!(&ops[1], MountOp::Tmpfs { dir } if dir.as_str() == "/usr/share/fex-emu"));
    assert!(matches!(
        &ops[2],
        MountOp::WriteFile { path, contents }
            if path.as_str() == "/usr/share/fex-emu/Config.json" && contents == expected
    ));
    assert!(matches!(&ops[3], MountOp::Tmpfs { dir } if dir.as_str() == "/usr/local/share/fex-emu"));
    assert!(matches!(
        &ops[4],
        MountOp::WriteFile { path, contents }
            if path.as_str() == "/usr/local/share/fex-emu/Config.json" && contents == expected
    ));
}

#[test]
fn bootstrap_starts_with_runtime_tmpfs() {
    let plan = bootstrap_plan(&strings(&["vda"]), true, false, true);
    assert!(matches!(&plan.runtime_tmpfs, MountOp::Tmpfs { dir } if dir.as_str() == "/var/run"));
}

#[test]
fn resolv_conf_replaced_by_clone_and_move() {
    let plan = bootstrap_plan(&strings(&["vda", "vdb"]), true, true, true);
    let all = full_plan(&plan);
    // No operation writes or truncates the target path itself; the only
    // operation aimed at it is the move of the clone.
    for op in &all {
        match op {
            MountOp::WriteFile { path, .. } | MountOp::TruncateFile { path } => {
                assert_ne!(path, "/etc/resolv.conf");
            },
            MountOp::CloneMove { source, dest } => {
                assert_eq!(source, "/tmp/resolv.conf");
                assert_eq!(dest, "/etc/resolv.conf");
            },
            _ => {},
        }
    }
    let trunc = all
        .iter()
        .position(|op| matches!(op, MountOp::TruncateFile { path } if path.as_str() == "/tmp/resolv.conf"))
        .unwrap();
    let mv = all
        .iter()
        .position(|op| matches!(op, MountOp::CloneMove { .. }))
        .unwrap();
    assert!(trunc < mv);
}

#[test]
fn host_root_snapshot_before_x11_shadow() {
    let plan = bootstrap_plan(&strings(&["vda"]), false, false, true);
    let all = full_plan(&plan);
    let bind = all
        .iter()
        .position(|op| matches!(op, MountOp::BindMount { source, dest } if source.as_str() == "/" && dest.as_str() == "/run/krun-host"))
        .unwrap();
    let x11 = all
        .iter()
        .position(|op| matches!(op, MountOp::Tmpfs { dir } if dir.as_str() == "/tmp/.X11-unix"))
        .unwrap();
    assert!(bind < x11);
    // Nothing else follows the snapshot.
    assert_eq!(x11, all.len() - 1);
    assert_eq!(bind, all.len() - 2);
}

#[test]
fn no_x11_directory_no_shadow() {
    let plan = bootstrap_plan(&strings(&[]), false, false, false);
    let all = full_plan(&plan);
    assert!(all.iter().all(|op| !matches!(op, MountOp::Tmpfs { dir } if dir.as_str() == "/tmp/.X11-unix")));
    assert!(matches!(
        all.last().unwrap(),
        MountOp::BindMount { source, dest } if source.as_str() == "/" && dest.as_str() == "/run/krun-host"
    ));
}

#[test]
fn binfmt_registration_present() {
    let plan = bootstrap_plan(&strings(&[]), false, false, false);
    assert!(plan.final_ops.iter().any(|op| matches!(
        op,
        MountOp::MountBinfmt { dir } if dir.as_str() == "/proc/sys/fs/binfmt_misc"
    )));
}
