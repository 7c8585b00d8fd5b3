use docker_to_uefi_bootable_image::cmd::Cmd;
use docker_to_uefi_bootable_image::flavor::Flavor;
use docker_to_uefi_bootable_image::pipeline::{Config, Event, Phase, Pipeline};
use docker_to_uefi_bootable_image::step::{Resource, Step};

fn alpine_config() -> Config {
    Config {
        image_name: "alpine:latest".to_string(),
        output_file: "/tmp/out.img".to_string(),
        disk_size_gb: 1,
        root_passwd: None,
        extra_packages: Vec::new(),
        flavor: Flavor::Alpine,
        working_dir: "/work".to_string(),
    }
}

fn debian_config(extra_packages: Vec<String>) -> Config {
    Config {
        image_name: "debian:12".to_string(),
        output_file: "/tmp/out.img".to_string(),
        disk_size_gb: 8,
        root_passwd: Some("hunter2".to_string()),
        extra_packages,
        flavor: Flavor::Debian,
        working_dir: "/work".to_string(),
    }
}

fn step(p: &mut Pipeline, ev: Event) -> Vec<Step> {
    p.advance(ev).expect("the machine rejected an expected event")
}

fn blkid_output(uuid: &str) -> Vec<u8> {
    format!("DEVNAME=/dev/loop0p3\nUUID={}\nTYPE=ext4\n", uuid).into_bytes()
}

/// Runs a whole Alpine pipeline against canned tool outputs and returns
/// every emitted step in order.
fn run_alpine(cfg: Config) -> Vec<Step> {
    let mut p = Pipeline::new(cfg).expect("valid configuration");
    let mut steps = step(&mut p, Event::Begin);
    steps.extend(step(&mut p, Event::Output(b"/dev/loop0\n".to_vec())));
    steps.extend(step(
        &mut p,
        Event::Output(b"grub-efi\nmkinitfs\nalpine-conf\nlinux-lts\nbusybox\n".to_vec()),
    ));
    steps.extend(step(&mut p, Event::Output(blkid_output("aaaa-root"))));
    steps.extend(step(&mut p, Event::Output(blkid_output("BBBB-EFI1"))));
    steps.extend(step(&mut p, Event::Entries(vec!["6.6.0-lts".to_string()])));
    assert!(matches!(p.phase(), Phase::Done));
    steps
}

/// Runs a whole Debian pipeline against canned tool outputs.
fn run_debian(cfg: Config) -> Vec<Step> {
    let mut p = Pipeline::new(cfg).expect("valid configuration");
    let mut steps = step(&mut p, Event::Begin);
    steps.extend(step(&mut p, Event::Output(b"/dev/loop7\n".to_vec())));
    steps.extend(step(&mut p, Event::Output(blkid_output("cccc-root"))));
    steps.extend(step(&mut p, Event::Output(blkid_output("DDDD-EFI1"))));
    assert!(matches!(p.phase(), Phase::Done));
    steps
}

fn commands(steps: &[Step]) -> Vec<&Cmd> {
    steps
        .iter()
        .filter_map(|s| match s {
            Step::Run(c) => Some(c),
            Step::RunCapture(c) => Some(c),
            Step::PipeStdin { cmd, .. } => Some(cmd),
            _ => None,
        })
        .collect()
}

#[test]
fn alpine_small_disk_scenario() {
    // size 1 GB, Alpine, no extra packages, generated password
    let steps = run_alpine(alpine_config());

    // the backing file is one binary gigabyte
    let sparse = steps
        .iter()
        .find_map(|s| match s {
            Step::CreateSparseFile { path, size_bytes } => Some((path.clone(), *size_bytes)),
            _ => None,
        })
        .expect("a sparse backing file is created");
    assert_eq!(sparse.0, "/work/output.img");
    assert_eq!(sparse.1, 1024 * 1024 * 1024);

    // the partitions follow the fixed GPT scheme
    let cmds = commands(&steps);
    let sgdisk: Vec<&&Cmd> = cmds.iter().filter(|c| c.program == "sgdisk").collect();
    assert_eq!(sgdisk.len(), 3);
    assert_eq!(
        sgdisk[0].args,
        vec![
            "-n",
            "1:2048:4095",
            "-c",
            "1:\"BIOS Boot Partition\"",
            "-t",
            "1:ef02",
            "/dev/loop0"
        ]
    );
    assert_eq!(
        sgdisk[1].args,
        vec![
            "-n",
            "2:4096:413695",
            "-c",
            "2:\"EFI System Partition\"",
            "-t",
            "2:ef00",
            "/dev/loop0"
        ]
    );
    assert_eq!(sgdisk[2].args, vec!["-n", "3:413696:", "/dev/loop0"]);

    // the fstab has three lines: root, EFI, tmpfs
    let fstab = steps
        .iter()
        .find_map(|s| match s {
            Step::WriteFile { path, lines } if path == "/work/mnt/etc/fstab" => Some(lines.clone()),
            _ => None,
        })
        .expect("an fstab is written");
    assert_eq!(fstab.len(), 3);
    assert_eq!(fstab[0], "UUID=aaaa-root / ext4 errors=remount-ro 0 1");
    assert_eq!(fstab[1], "UUID=BBBB-EFI1 /boot/efi vfat defaults 0 2");
    assert_eq!(fstab[2], "tmpfs /tmp tmpfs defaults 0 0");
    assert!(fstab[0].starts_with("UUID="));
    assert!(fstab[1].starts_with("UUID="));

    // a non-empty generated root password is reported to the operator
    let report = steps
        .iter()
        .find_map(|s| match s {
            Step::Print { text } if text.starts_with("> set root password as ") => {
                Some(text.clone())
            }
            _ => None,
        })
        .expect("the password is reported");
    let password = &report["> set root password as ".len()..];
    assert_eq!(password.len(), 16);
    assert!(password.chars().all(|c| c.is_ascii_alphanumeric()));
}

#[test]
fn debian_extra_packages_reach_the_install_step() {
    // flavor Debian with extra packages vim and curl
    let steps = run_debian(debian_config(vec!["vim".to_string(), "curl".to_string()]));
    let cmds = commands(&steps);
    let installs: Vec<&&Cmd> = cmds
        .iter()
        .filter(|c| {
            c.program == "chroot" && c.args.len() >= 3 && c.args[1] == "apt" && c.args[2] == "install"
        })
        .collect();
    assert_eq!(installs.len(), 2);
    // the base install names the Debian kernel package
    assert_eq!(
        installs[0].args,
        vec![
            "/work/mnt",
            "apt",
            "install",
            "-y",
            "linux-image-amd64",
            "systemd-sysv",
            "grub2-common",
            "grub-efi-amd64-bin",
            "initramfs-tools"
        ]
    );
    // the extra install receives exactly the two extra package names
    assert_eq!(
        installs[1].args,
        vec!["/work/mnt", "apt", "install", "-y", "vim", "curl"]
    );
}

#[test]
fn debian_without_extras_installs_once() {
    let steps = run_debian(debian_config(Vec::new()));
    let cmds = commands(&steps);
    let installs: Vec<&&Cmd> = cmds
        .iter()
        .filter(|c| {
            c.program == "chroot" && c.args.len() >= 3 && c.args[1] == "apt" && c.args[2] == "install"
        })
        .collect();
    assert_eq!(installs.len(), 1);
}

#[test]
fn teardown_is_exact_reverse_of_acquisition() {
    for steps in [run_debian(debian_config(Vec::new())), run_alpine(alpine_config())] {
        let mut acquired: Vec<Resource> = Vec::new();
        let mut released: Vec<Resource> = Vec::new();
        for s in &steps {
            match s {
                Step::Acquire(r) => acquired.push(clone_resource(r)),
                Step::Release(r) => released.push(clone_resource(r)),
                _ => {}
            }
        }
        assert!(!acquired.is_empty());
        let mut expected = acquired;
        expected.reverse();
        assert_eq!(
            released.iter().map(describe).collect::<Vec<String>>(),
            expected.iter().map(describe).collect::<Vec<String>>()
        );
    }
}

fn clone_resource(r: &Resource) -> Resource {
    match r {
        Resource::LoopDevice { path } => Resource::LoopDevice { path: path.clone() },
        Resource::MountPoint { dest } => Resource::MountPoint { dest: dest.clone() },
        Resource::BindMount { dest } => Resource::BindMount { dest: dest.clone() },
        Resource::ServiceGuard { root, services } => Resource::ServiceGuard {
            root: root.clone(),
            services: services.clone(),
        },
    }
}

fn describe(r: &Resource) -> String {
    match r {
        Resource::LoopDevice { path } => format!("loop {}", path),
        Resource::MountPoint { dest } => format!("mount {}", dest),
        Resource::BindMount { dest } => format!("bind {}", dest),
        Resource::ServiceGuard { root, services } => format!("guard {} {:?}", root, services),
    }
}

#[test]
fn detach_runs_only_after_every_unmount() {
    // the instrumented executor: the recorded command order shows every
    // unmount strictly before the loop device's detach
    for steps in [run_debian(debian_config(Vec::new())), run_alpine(alpine_config())] {
        let cmds = commands(&steps);
        let detach_at = cmds
            .iter()
            .position(|c| c.program == "losetup" && c.args.first().map(|a| a.as_str()) == Some("-d"))
            .expect("the loop device is detached");
        let mount_positions: Vec<usize> = cmds
            .iter()
            .enumerate()
            .filter(|(_, c)| c.program == "mount")
            .map(|(i, _)| i)
            .collect();
        let umount_positions: Vec<usize> = cmds
            .iter()
            .enumerate()
            .filter(|(_, c)| c.program == "umount")
            .map(|(i, _)| i)
            .collect();
        assert_eq!(mount_positions.len(), 5);
        assert_eq!(umount_positions.len(), 5);
        assert!(umount_positions.iter().all(|&u| u < detach_at));
        // unmount destinations are the exact reverse of mount destinations
        let mount_dests: Vec<&String> = cmds
            .iter()
            .filter(|c| c.program == "mount")
            .map(|c| c.args.last().unwrap())
            .collect();
        let umount_dests: Vec<&String> = cmds
            .iter()
            .filter(|c| c.program == "umount")
            .map(|c| c.args.last().unwrap())
            .collect();
        let mut expected = mount_dests;
        expected.reverse();
        assert_eq!(umount_dests, expected);
        // a sync runs immediately before each unmount
        for (i, c) in cmds.iter().enumerate() {
            if c.program == "umount" {
                assert_eq!(cmds[i - 1].program, "sync");
            }
        }
    }
}

#[test]
fn alpine_guard_stops_services_before_unmounts() {
    let steps = run_alpine(alpine_config());
    let cmds = commands(&steps);
    let stop_positions: Vec<usize> = cmds
        .iter()
        .enumerate()
        .filter(|(_, c)| {
            c.program == "chroot" && c.args.get(1).map(|a| a.as_str()) == Some("rc-service")
        })
        .map(|(i, _)| i)
        .collect();
    assert_eq!(stop_positions.len(), 2);
    let first_umount = cmds
        .iter()
        .position(|c| c.program == "umount")
        .expect("unmounts happen");
    assert!(stop_positions.iter().all(|&p| p < first_umount));
}

#[test]
fn alpine_kernel_version_check_gates_initramfs() {
    // zero directories: a fatal precondition violation
    let mut p = Pipeline::new(alpine_config()).unwrap();
    step(&mut p, Event::Begin);
    step(&mut p, Event::Output(b"/dev/loop0\n".to_vec()));
    step(
        &mut p,
        Event::Output(b"grub-efi\nmkinitfs\nalpine-conf\nlinux-lts\n".to_vec()),
    );
    step(&mut p, Event::Output(blkid_output("aaaa-root")));
    step(&mut p, Event::Output(blkid_output("BBBB-EFI1")));
    let err = p.advance(Event::Entries(Vec::new())).unwrap_err();
    assert_eq!(
        err.message(),
        "precondition violated: incorrect number of kernel vers"
    );

    // two directories: also fatal
    let mut p = Pipeline::new(alpine_config()).unwrap();
    step(&mut p, Event::Begin);
    step(&mut p, Event::Output(b"/dev/loop0\n".to_vec()));
    step(
        &mut p,
        Event::Output(b"grub-efi\nmkinitfs\nalpine-conf\nlinux-lts\n".to_vec()),
    );
    step(&mut p, Event::Output(blkid_output("aaaa-root")));
    step(&mut p, Event::Output(blkid_output("BBBB-EFI1")));
    let err = p
        .advance(Event::Entries(vec!["6.6.0".to_string(), "6.7.0".to_string()]))
        .unwrap_err();
    assert_eq!(
        err.message(),
        "precondition violated: incorrect number of kernel vers"
    );

    // exactly one: the run proceeds to the initramfs rebuild
    let mut p = Pipeline::new(alpine_config()).unwrap();
    step(&mut p, Event::Begin);
    step(&mut p, Event::Output(b"/dev/loop0\n".to_vec()));
    step(
        &mut p,
        Event::Output(b"grub-efi\nmkinitfs\nalpine-conf\nlinux-lts\n".to_vec()),
    );
    step(&mut p, Event::Output(blkid_output("aaaa-root")));
    step(&mut p, Event::Output(blkid_output("BBBB-EFI1")));
    let steps = step(&mut p, Event::Entries(vec!["6.6.0-lts".to_string()]));
    let cmds = commands(&steps);
    let mkinitfs = cmds
        .iter()
        .find(|c| c.program == "chroot" && c.args.get(1).map(|a| a.as_str()) == Some("mkinitfs"))
        .expect("the initramfs is rebuilt");
    assert_eq!(mkinitfs.args.last().unwrap(), "6.6.0-lts");
    assert!(matches!(p.phase(), Phase::Done));
}

#[test]
fn missing_persisted_package_aborts_the_alpine_run() {
    let mut p = Pipeline::new(alpine_config()).unwrap();
    step(&mut p, Event::Begin);
    step(&mut p, Event::Output(b"/dev/loop0\n".to_vec()));
    // the read-back lacks linux-lts
    let err = p
        .advance(Event::Output(b"grub-efi\nmkinitfs\nalpine-conf\n".to_vec()))
        .unwrap_err();
    assert_eq!(
        err.message(),
        "precondition violated: declared packages did not persist"
    );
}

#[test]
fn unparsable_loop_device_report_is_rejected() {
    let mut p = Pipeline::new(alpine_config()).unwrap();
    step(&mut p, Event::Begin);
    let err = p.advance(Event::Output(b"\n".to_vec())).unwrap_err();
    assert_eq!(
        err.message(),
        "could not acquire resource: no loop device path in the attach report"
    );
}

#[test]
fn probe_without_uuid_field_is_rejected() {
    let mut p = Pipeline::new(debian_config(Vec::new())).unwrap();
    step(&mut p, Event::Begin);
    step(&mut p, Event::Output(b"/dev/loop0\n".to_vec()));
    let err = p
        .advance(Event::Output(b"DEVNAME=/dev/loop0p3\nTYPE=ext4\n".to_vec()))
        .unwrap_err();
    assert_eq!(
        err.message(),
        "precondition violated: no UUID field in the probe report"
    );
}

#[test]
fn zero_disk_size_is_rejected_before_any_resource() {
    let mut cfg = debian_config(Vec::new());
    cfg.disk_size_gb = 0;
    let err = Pipeline::new(cfg).unwrap_err();
    assert_eq!(err.message(), "bad argument: disk size out of range");
}

#[test]
fn supplied_password_is_used_verbatim() {
    let steps = run_debian(debian_config(Vec::new()));
    let passwd = steps
        .iter()
        .find_map(|s| match s {
            Step::PipeStdin { cmd, lines } if cmd.args.get(1).map(|a| a.as_str()) == Some("passwd") => {
                Some(lines.clone())
            }
            _ => None,
        })
        .expect("the password is piped to the password changer");
    assert_eq!(passwd, vec!["hunter2", "hunter2"]);
}

#[test]
fn unexpected_event_leaves_the_machine_unchanged() {
    let mut p = Pipeline::new(debian_config(Vec::new())).unwrap();
    let err = p.advance(Event::Entries(Vec::new())).unwrap_err();
    assert_eq!(
        err.message(),
        "precondition violated: unexpected event for this phase"
    );
    assert!(matches!(p.phase(), Phase::Start));
}

#[test]
fn setup_alpine_runs_with_efi_selected() {
    let steps = run_alpine(alpine_config());
    let setup = commands(&steps)
        .into_iter()
        .find(|c| c.args.get(1).map(|a| a.as_str()) == Some("setup-alpine"))
        .expect("the quick-setup tool runs");
    assert_eq!(setup.program, "chroot");
    assert_eq!(
        setup.args,
        vec!["/work/mnt", "setup-alpine", "-q", "-f", "/answers"]
    );
    assert_eq!(setup.env.len(), 1);
    assert_eq!(setup.env[0].name, "USE_EFI");
    assert_eq!(setup.env[0].value, "1");
}

#[test]
fn final_image_is_copied_to_the_output_path() {
    let steps = run_debian(debian_config(Vec::new()));
    let copy = steps
        .iter()
        .filter_map(|s| match s {
            Step::CopyFile { src, dest } => Some((src.clone(), dest.clone())),
            _ => None,
        })
        .last()
        .expect("the image is copied out");
    assert_eq!(copy.0, "/work/output.img");
    assert_eq!(copy.1, "/tmp/out.img");
}

#[test]
fn abort_releases_everything_held_in_reverse() {
    let mut p = Pipeline::new(alpine_config()).unwrap();
    step(&mut p, Event::Begin);
    let steps = step(&mut p, Event::Output(b"/dev/loop0\n".to_vec()));
    let acquired: Vec<&Resource> = steps
        .iter()
        .filter_map(|s| match s {
            Step::Acquire(r) => Some(r),
            _ => None,
        })
        .collect();
    assert_eq!(acquired.len(), 7);
    let cleanup = p.abort_steps();
    assert!(matches!(p.phase(), Phase::Done));
    let released: Vec<String> = cleanup
        .iter()
        .filter_map(|s| match s {
            Step::Release(r) => Some(describe(r)),
            _ => None,
        })
        .collect();
    let mut expected: Vec<String> = acquired.iter().map(|r| describe(r)).collect();
    expected.reverse();
    assert_eq!(released, expected);
    // aborting again releases nothing further
    assert!(p.abort_steps().is_empty());
}
