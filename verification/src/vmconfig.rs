//! Assembly of the hypervisor configuration.
//!
//! The configuration is accumulated as a write-once value: every aspect
//! is set exactly once, and only a complete configuration may be handed
//! to the irrevocable start-and-enter call. The caller drives the
//! hypervisor's foreign interface from the finished value; the decisions
//! about what goes into it — capability flags, optional passthrough
//! sockets, display parsing, error-code mapping — are made here.

use vstd::prelude::*;
use vstd::string::StringExecFns;

verus! {

/// Graphics capability bit: render via EGL.
pub const GPU_USE_EGL: u32 = 1;

/// Graphics capability bit: synchronize render threads.
pub const GPU_THREAD_SYNC: u32 = 2;

/// Graphics capability bit: deliver fence completions asynchronously.
pub const GPU_ASYNC_FENCE_CB: u32 = 256;

/// Graphics capability bit: native context (DRM) support.
pub const GPU_DRM: u32 = 1024;

/// Guest vsock port for the audio socket.
pub const VSOCK_PULSE_PORT: u32 = 3333;

/// Guest vsock port for the input pipe socket.
pub const VSOCK_HIDPIPE_PORT: u32 = 3334;

/// Guest vsock port for the forwarded X11 display socket.
pub const VSOCK_X11_PORT: u32 = 6000;

/// One disk attachment.
pub struct DiskImage {
    pub label: String,
    pub path: String,
    pub read_only: bool,
}

/// The write-once microVM configuration. Every aspect must be set before
/// the start-and-enter hand-off; the optional attachments (disks, vsock
/// ports) may legitimately stay empty.
pub struct VmConfig {
    pub log_level: Option<u32>,
    pub vcpus: Option<u8>,
    pub ram_mib: Option<u32>,
    pub cpu_affinity: Option<Vec<u32>>,
    pub root_path: Option<String>,
    pub gpu_flags: Option<u32>,
    pub net_fd: Option<i32>,
    pub vsock_ports: Vec<(u32, String)>,
    pub disks: Vec<DiskImage>,
    pub workdir: Option<String>,
    pub argv: Option<Vec<String>>,
    pub env_line: Option<String>,
}

impl VmConfig {
    /// Every mandatory aspect has been set.
    pub open spec fn complete(self) -> bool {
        &&& self.log_level is Some
        &&& self.vcpus is Some
        &&& self.ram_mib is Some
        &&& self.cpu_affinity is Some
        &&& self.root_path is Some
        &&& self.gpu_flags is Some
        &&& self.net_fd is Some
        &&& self.workdir is Some
        &&& self.argv is Some
        &&& self.env_line is Some
    }

    /// An empty configuration: nothing set, no attachments.
    pub fn new() -> (r: VmConfig)
        ensures
            r.log_level is None,
            r.vcpus is None,
            r.ram_mib is None,
            r.cpu_affinity is None,
            r.root_path is None,
            r.gpu_flags is None,
            r.net_fd is None,
            r.vsock_ports@ == Seq::<(u32, String)>::empty(),
            r.disks@ == Seq::<DiskImage>::empty(),
            r.workdir is None,
            r.argv is None,
            r.env_line is None,
    {
        VmConfig {
            log_level: None,
            vcpus: None,
            ram_mib: None,
            cpu_affinity: None,
            root_path: None,
            gpu_flags: None,
            net_fd: None,
            vsock_ports: Vec::new(),
            disks: Vec::new(),
            workdir: None,
            argv: None,
            env_line: None,
        }
    }

    /// Sets the hypervisor log level, once.
    pub fn set_log_level(&mut self, level: u32)
        requires
            old(self).log_level is None,
        ensures
            *final(self) == (VmConfig { log_level: Some(level), ..*old(self) }),
    {
        self.log_level = Some(level);
    }

    /// Sets the vCPU count and RAM size, once, together: the hypervisor
    /// takes them in one call.
    pub fn set_vm_size(&mut self, vcpus: u8, ram_mib: u32)
        requires
            old(self).vcpus is None,
            old(self).ram_mib is None,
        ensures
            *final(self) == (VmConfig {
                vcpus: Some(vcpus),
                ram_mib: Some(ram_mib),
                ..*old(self)
            }),
    {
        self.vcpus = Some(vcpus);
        self.ram_mib = Some(ram_mib);
    }

    /// Sets the CPU affinity list, once.
    pub fn set_cpu_affinity(&mut self, cores: Vec<u32>)
        requires
            old(self).cpu_affinity is None,
        ensures
            *final(self) == (VmConfig { cpu_affinity: Some(cores), ..*old(self) }),
    {
        self.cpu_affinity = Some(cores);
    }

    /// Sets the root path, once.
    pub fn set_root(&mut self, path: String)
        requires
            old(self).root_path is None,
        ensures
            *final(self) == (VmConfig { root_path: Some(path), ..*old(self) }),
    {
        self.root_path = Some(path);
    }

    /// Sets the graphics capability flags, once.
    pub fn set_gpu_flags(&mut self, flags: u32)
        requires
            old(self).gpu_flags is None,
        ensures
            *final(self) == (VmConfig { gpu_flags: Some(flags), ..*old(self) }),
    {
        self.gpu_flags = Some(flags);
    }

    /// Records the network backend descriptor, once. Ownership of the
    /// descriptor passes to the hypervisor at the configuration call; the
    /// caller must not close it afterwards.
    pub fn set_net_fd(&mut self, fd: i32)
        requires
            old(self).net_fd is None,
        ensures
            *final(self) == (VmConfig { net_fd: Some(fd), ..*old(self) }),
    {
        self.net_fd = Some(fd);
    }

    /// Appends one read-only disk attachment, labelled by its own path.
    pub fn add_ro_disk(&mut self, path: String)
        ensures
            final(self).disks@.len() == old(self).disks@.len() + 1,
            final(self).disks@.last().label == path,
            final(self).disks@.last().path == path,
            final(self).disks@.last().read_only == true,
            forall|i: int|
                0 <= i < old(self).disks@.len() ==> final(self).disks@[i] == old(self).disks@[i],
            *final(self) == (VmConfig { disks: final(self).disks, ..*old(self) }),
    {
        let label = path.clone();
        self.disks.push(DiskImage { label, path, read_only: true });
    }

    /// Appends one guest-port to host-socket vsock mapping.
    pub fn add_vsock_port(&mut self, port: u32, socket_path: String)
        ensures
            final(self).vsock_ports@ == old(self).vsock_ports@.push((port, socket_path)),
            *final(self) == (VmConfig { vsock_ports: final(self).vsock_ports, ..*old(self) }),
    {
        self.vsock_ports.push((port, socket_path));
    }

    /// Sets the guest working directory, once.
    pub fn set_workdir(&mut self, path: String)
        requires
            old(self).workdir is None,
        ensures
            *final(self) == (VmConfig { workdir: Some(path), ..*old(self) }),
    {
        self.workdir = Some(path);
    }

    /// Sets the guest argv chain, once.
    pub fn set_argv(&mut self, argv: Vec<String>)
        requires
            old(self).argv is None,
        ensures
            *final(self) == (VmConfig { argv: Some(argv), ..*old(self) }),
    {
        self.argv = Some(argv);
    }

    /// Sets the single guest environment line, once.
    pub fn set_env_line(&mut self, line: String)
        requires
            old(self).env_line is None,
        ensures
            *final(self) == (VmConfig { env_line: Some(line), ..*old(self) }),
    {
        self.env_line = Some(line);
    }

    /// Whether the configuration is ready for the irrevocable
    /// start-and-enter call: the caller must check this before handing
    /// the value to the hypervisor.
    pub fn is_complete(&self) -> (r: bool)
        ensures
            r == self.complete(),
    {
        self.log_level.is_some() && self.vcpus.is_some() && self.ram_mib.is_some()
            && self.cpu_affinity.is_some() && self.root_path.is_some() && self.gpu_flags.is_some()
            && self.net_fd.is_some() && self.workdir.is_some() && self.argv.is_some()
            && self.env_line.is_some()
    }
}

/// The fixed graphics capability set: EGL, DRM native contexts, threaded
/// synchronization and asynchronous fence callbacks. There is no
/// capability negotiation.
pub fn default_gpu_flags() -> (r: u32)
    ensures
        r == (GPU_USE_EGL | GPU_THREAD_SYNC | GPU_ASYNC_FENCE_CB | GPU_DRM),
{
    GPU_USE_EGL | GPU_THREAD_SYNC | GPU_ASYNC_FENCE_CB | GPU_DRM
}

/// Launching as the root identity is rejected, whether real or effective.
pub fn running_as_root(uid: u32, euid: u32) -> (r: bool)
    ensures
        r == (uid == 0 || euid == 0),
{
    uid == 0 || euid == 0
}

/// Maps a hypervisor configuration-call return value: a negative value
/// carries a system error code as its magnitude, anything else is
/// success.
pub fn hv_result(ret: i32) -> (r: Result<u32, u32>)
    ensures
        ret >= 0 ==> r == Ok::<u32, u32>(ret as u32),
        ret < 0 ==> r == Err::<u32, u32>((-(ret as int)) as u32),
{
    if ret >= 0 {
        Ok(ret as u32)
    } else {
        let wide: i64 = ret as i64;
        Err((-wide) as u32)
    }
}

/// A local display designation: a display value that begins with `:`
/// names a display socket on this host; anything else (a remote display)
/// is not forwarded. The result is the display number text after the
/// colon.
pub fn parse_display(display: &str) -> (r: Option<String>)
    ensures
        r is Some <==> display@.len() >= 1 && display@[0] == ':',
        r matches Some(rest) ==> rest@ == display@.subrange(1, display@.len() as int),
{
    proof {
        reveal_strlit(":");
    }
    let n = display.unicode_len();
    if n < 1 {
        return None;
    }
    if display.get_char(0) == ':' {
        Some(String::from_str(display.substring_char(1, n)))
    } else {
        None
    }
}

/// The host X11 socket path for a display number: the well-known socket
/// directory plus `X` followed by the number.
pub fn x11_socket_path(display_num: &String) -> (r: String)
    ensures
        r@ == "/tmp/.X11-unix/X"@ + display_num@,
{
    let mut r = String::from_str("/tmp/.X11-unix/X");
    r.append(display_num.as_str());
    r
}

/// The audio socket path inside a runtime directory.
pub fn pulse_socket_path(runtime_dir: &str) -> (r: String)
    ensures
        r@ == runtime_dir@ + "/pulse/native"@,
{
    let mut r = String::from_str(runtime_dir);
    r.append("/pulse/native");
    r
}

/// The input pipe socket path inside a runtime directory.
pub fn hidpipe_socket_path(runtime_dir: &str) -> (r: String)
    ensures
        r@ == runtime_dir@ + "/hidpipe"@,
{
    let mut r = String::from_str(runtime_dir);
    r.append("/hidpipe");
    r
}

/// The passthrough sockets to attach, in fixed order: audio, input, X11.
/// A candidate is attached exactly when its host socket exists (`Some`);
/// absence means the feature is unavailable this session, not an error.
pub open spec fn spec_vsock_attachments(
    pulse: Option<String>,
    hidpipe: Option<String>,
    x11: Option<String>,
) -> Seq<(u32, String)> {
    (match pulse {
        Some(p) => seq![(VSOCK_PULSE_PORT, p)],
        None => Seq::empty(),
    }) + (match hidpipe {
        Some(h) => seq![(VSOCK_HIDPIPE_PORT, h)],
        None => Seq::empty(),
    }) + (match x11 {
        Some(x) => seq![(VSOCK_X11_PORT, x)],
        None => Seq::empty(),
    })
}

/// Builds the vsock attachment list from the candidate sockets that
/// exist on the host.
pub fn vsock_attachments(
    pulse: Option<String>,
    hidpipe: Option<String>,
    x11: Option<String>,
) -> (r: Vec<(u32, String)>)
    ensures
        r@ == spec_vsock_attachments(pulse, hidpipe, x11),
{
    let ghost gp = pulse;
    let ghost gh = hidpipe;
    let ghost gx = x11;
    let mut r: Vec<(u32, String)> = Vec::new();
    match pulse {
        Some(p) => r.push((VSOCK_PULSE_PORT, p)),
        None => (),
    }
    match hidpipe {
        Some(h) => r.push((VSOCK_HIDPIPE_PORT, h)),
        None => (),
    }
    match x11 {
        Some(x) => r.push((VSOCK_X11_PORT, x)),
        None => (),
    }
    proof {
        assert(r@ =~= spec_vsock_attachments(gp, gh, gx));
    }
    r
}

} // verus!
