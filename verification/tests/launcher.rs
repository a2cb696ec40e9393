use krun::decimal::u32_to_dec;
use krun::disks::{default_image_paths, select_disks, DiskError, ProbedPath};
use krun::guestconfig::{config_env_var, config_json, env_lines, guest_args, KrunBaseConfig, KrunConfig};
use krun::launch::{
    attempt_decision, coordinate_outcome, lock_file_name, AttemptDecision, AttemptEvent,
    CoordError, LaunchRequest, LaunchResult,
};
use krun::sizing::{flatten_cores, ram_size_mib, vcpu_count};
use krun::vmconfig::{
    default_gpu_flags, hidpipe_socket_path, hv_result, parse_display, pulse_socket_path,
    running_as_root, vsock_attachments, x11_socket_path, VmConfig,
};

#[test]
fn vcpu_count_totals_all_groups() {
    let groups = vec![vec![0u32, 1], vec![2, 3, 4]];
    assert_eq!(vcpu_count(&groups), 5);
    assert_eq!(flatten_cores(&groups), vec![0, 1, 2, 3, 4]);
}

#[test]
fn vcpu_count_single_group() {
    assert_eq!(vcpu_count(&vec![vec![7u32]]), 1);
    assert_eq!(vcpu_count(&vec![]), 0);
}

#[test]
fn ram_explicit_wins() {
    assert_eq!(ram_size_mib(Some(1234), 16384), 1234);
}

#[test]
fn ram_auto_is_80_percent_of_16_gib() {
    // 80% of 16384 MiB, below the ceiling.
    assert_eq!(ram_size_mib(None, 16384), 13107);
}

#[test]
fn ram_auto_hits_ceiling_at_64_gib() {
    assert_eq!(ram_size_mib(None, 65536), 32768);
}

#[test]
fn ram_auto_ceiling_boundary() {
    assert_eq!(ram_size_mib(None, 40960), 32768);
    assert_eq!(ram_size_mib(None, 40959), 32767);
}

#[test]
fn attempt_decision_table() {
    assert_eq!(attempt_decision(AttemptEvent::Acquired, false), AttemptDecision::Owner);
    assert_eq!(attempt_decision(AttemptEvent::Acquired, true), AttemptDecision::Owner);
    assert_eq!(attempt_decision(AttemptEvent::HeldDelivered, false), AttemptDecision::Forwarded);
    assert_eq!(attempt_decision(AttemptEvent::HeldVanished, false), AttemptDecision::Retry);
    assert_eq!(
        attempt_decision(AttemptEvent::HeldVanished, true),
        AttemptDecision::Fail { error: CoordError::ForwardFailed }
    );
    assert_eq!(
        attempt_decision(AttemptEvent::LockIoError, false),
        AttemptDecision::Fail { error: CoordError::LockFile }
    );
}

#[test]
fn two_racing_requests_one_owner() {
    // The OS lock admits one holder; the loser's forward is delivered.
    let a = attempt_decision(AttemptEvent::Acquired, false);
    let b = attempt_decision(AttemptEvent::HeldDelivered, false);
    assert_eq!(
        (a == AttemptDecision::Owner) as u32 + (b == AttemptDecision::Owner) as u32,
        1
    );
    assert_eq!(b, AttemptDecision::Forwarded);
}

#[test]
fn coordinate_outcome_owner_keeps_request() {
    let req = LaunchRequest {
        command: "steam".to_string(),
        command_args: vec!["-silent".to_string()],
        env: vec![("HOME".to_string(), "/home/u".to_string())],
        control_port: 3334,
    };
    match coordinate_outcome(req, AttemptDecision::Owner) {
        Ok(LaunchResult::LockAcquired { command, command_args, env }) => {
            assert_eq!(command, "steam");
            assert_eq!(command_args, vec!["-silent".to_string()]);
            assert_eq!(env, vec![("HOME".to_string(), "/home/u".to_string())]);
        },
        _ => panic!("expected LockAcquired"),
    }
}

#[test]
fn coordinate_outcome_forwarded_exits() {
    let req = LaunchRequest {
        command: "x".to_string(),
        command_args: vec![],
        env: vec![],
        control_port: 1,
    };
    assert!(matches!(
        coordinate_outcome(req, AttemptDecision::Forwarded),
        Ok(LaunchResult::LaunchRequested)
    ));
}

#[test]
fn coordinate_outcome_failure_surfaces_error() {
    let req = LaunchRequest {
        command: "x".to_string(),
        command_args: vec![],
        env: vec![],
        control_port: 1,
    };
    assert_eq!(
        coordinate_outcome(req, AttemptDecision::Fail { error: CoordError::LockFile })
            .err()
            .unwrap(),
        CoordError::LockFile
    );
}

#[test]
fn lock_file_name_from_port() {
    assert_eq!(lock_file_name(3334), "krun-3334.lock");
}

#[test]
fn decimal_rendering() {
    assert_eq!(u32_to_dec(0), "0");
    assert_eq!(u32_to_dec(1234), "1234");
    assert_eq!(u32_to_dec(u32::MAX), "4294967295");
}

fn probed(path: &str, exists: bool) -> ProbedPath {
    ProbedPath { path: path.to_string(), exists }
}

#[test]
fn explicit_disk_missing_fails() {
    let explicit = vec![probed("/a.erofs", true), probed("/b.erofs", false)];
    let defaults = vec![];
    assert_eq!(
        select_disks(&explicit, &defaults),
        Err(DiskError::MissingImage { index: 1 })
    );
}

#[test]
fn explicit_disks_used_exactly() {
    let explicit = vec![probed("/b.erofs", true), probed("/a.erofs", true)];
    let defaults = vec![probed("/ignored.erofs", true)];
    assert_eq!(
        select_disks(&explicit, &defaults).unwrap(),
        vec!["/b.erofs".to_string(), "/a.erofs".to_string()]
    );
}

#[test]
fn default_disks_filtered_in_declared_order() {
    let names = default_image_paths();
    assert_eq!(
        names,
        vec![
            "/usr/share/fex-emu/RootFS/default.erofs".to_string(),
            "/usr/share/fex-emu/overlays/mesa.erofs".to_string(),
        ]
    );
    let both = vec![probed(&names[0], true), probed(&names[1], true)];
    assert_eq!(select_disks(&vec![], &both).unwrap(), names);
    let second_only = vec![probed(&names[0], false), probed(&names[1], true)];
    assert_eq!(
        select_disks(&vec![], &second_only).unwrap(),
        vec![names[1].clone()]
    );
    let none = vec![probed(&names[0], false), probed(&names[1], false)];
    assert_eq!(select_disks(&vec![], &none).unwrap(), Vec::<String>::new());
}

#[test]
fn gpu_flags_fixed_capability_set() {
    // EGL (1) | thread sync (2) | async fence (256) | DRM (1024).
    assert_eq!(default_gpu_flags(), 1283);
}

#[test]
fn root_identity_rejected() {
    assert!(running_as_root(0, 1000));
    assert!(running_as_root(1000, 0));
    assert!(!running_as_root(1000, 1000));
}

#[test]
fn hv_result_maps_negative_to_errno() {
    assert_eq!(hv_result(0), Ok(0));
    assert_eq!(hv_result(7), Ok(7));
    assert_eq!(hv_result(-22), Err(22));
    assert_eq!(hv_result(i32::MIN), Err(2147483648));
}

#[test]
fn display_parsing_local_only() {
    assert_eq!(parse_display(":0").unwrap(), "0");
    assert_eq!(parse_display(":10").unwrap(), "10");
    assert!(parse_display("localhost:0").is_none());
    assert!(parse_display("").is_none());
}

#[test]
fn candidate_socket_paths() {
    assert_eq!(x11_socket_path(&"0".to_string()), "/tmp/.X11-unix/X0");
    assert_eq!(pulse_socket_path("/run/user/1000"), "/run/user/1000/pulse/native");
    assert_eq!(hidpipe_socket_path("/run/user/1000"), "/run/user/1000/hidpipe");
}

#[test]
fn vsock_attachment_order_and_presence() {
    let r = vsock_attachments(
        Some("/run/user/1000/pulse/native".to_string()),
        None,
        Some("/tmp/.X11-unix/X0".to_string()),
    );
    assert_eq!(
        r,
        vec![
            (3333, "/run/user/1000/pulse/native".to_string()),
            (6000, "/tmp/.X11-unix/X0".to_string()),
        ]
    );
    assert_eq!(vsock_attachments(None, None, None), vec![]);
}

#[test]
fn vm_config_builds_to_complete() {
    let mut cfg = VmConfig::new();
    assert!(!cfg.is_complete());
    cfg.set_log_level(0);
    cfg.set_vm_size(5, 13107);
    cfg.set_cpu_affinity(vec![0, 1, 2, 3, 4]);
    cfg.set_root("/".to_string());
    cfg.set_gpu_flags(default_gpu_flags());
    cfg.set_net_fd(7);
    cfg.add_ro_disk("/usr/share/fex-emu/RootFS/default.erofs".to_string());
    cfg.add_vsock_port(3333, "/run/user/1000/pulse/native".to_string());
    cfg.set_workdir("/home/u".to_string());
    assert!(!cfg.is_complete());
    cfg.set_argv(vec!["krun-guest".to_string()]);
    cfg.set_env_line("KRUN_CONFIG=/tmp/cfg".to_string());
    assert!(cfg.is_complete());
    assert_eq!(cfg.disks.len(), 1);
    assert_eq!(cfg.disks[0].label, cfg.disks[0].path);
    assert!(cfg.disks[0].read_only);
    assert_eq!(cfg.vsock_ports.len(), 1);
}

#[test]
fn config_json_plain_values() {
    let cfg = KrunBaseConfig {
        config: KrunConfig {
            args: vec!["a".to_string(), "b".to_string()],
            envs: vec!["K=V".to_string()],
        },
    };
    assert_eq!(config_json(&cfg), "{\"Config\":{\"Cmd\":[\"a\",\"b\"],\"Env\":[\"K=V\"]}}");
}

#[test]
fn config_json_escapes_contents() {
    let cfg = KrunBaseConfig {
        config: KrunConfig {
            args: vec!["he\"llo\\world".to_string()],
            envs: vec![],
        },
    };
    let s = config_json(&cfg);
    assert_eq!(s, "{\"Config\":{\"Cmd\":[\"he\\\"llo\\\\world\"],\"Env\":[]}}");
    // The document round-trips through a JSON parser.
    let v: serde_json::Value = serde_json::from_str(&s).unwrap();
    assert_eq!(v["Config"]["Cmd"][0], "he\"llo\\world");
    assert_eq!(v["Config"]["Env"].as_array().unwrap().len(), 0);
}

#[test]
fn config_json_empty_lists() {
    let cfg = KrunBaseConfig {
        config: KrunConfig { args: vec![], envs: vec![] },
    };
    assert_eq!(config_json(&cfg), "{\"Config\":{\"Cmd\":[],\"Env\":[]}}");
}

#[test]
fn env_lines_append_server_port() {
    let env = vec![("A".to_string(), "1".to_string()), ("B".to_string(), "x y".to_string())];
    assert_eq!(
        env_lines(&env, 7777),
        vec!["A=1".to_string(), "B=x y".to_string(), "KRUN_SERVER_PORT=7777".to_string()]
    );
}

#[test]
fn config_env_var_names_payload_file() {
    assert_eq!(config_env_var(&"/tmp/cfg123".to_string()), "KRUN_CONFIG=/tmp/cfg123");
}

#[test]
fn guest_args_identity_chain() {
    let r = guest_args(
        "/usr/bin/krun-guest".to_string(),
        "alice".to_string(),
        1000,
        1001,
        "/usr/bin/krun-server".to_string(),
        "steam".to_string(),
        &vec!["-silent".to_string()],
    );
    assert_eq!(
        r,
        vec![
            "/usr/bin/krun-guest".to_string(),
            "alice".to_string(),
            "1000".to_string(),
            "1001".to_string(),
            "/usr/bin/krun-server".to_string(),
            "steam".to_string(),
            "-silent".to_string(),
        ]
    );
}
