use docker_to_uefi_bootable_image::bootconfig::{choose_root_password, fstab_lines, grub_defaults_lines};
use docker_to_uefi_bootable_image::devices::{LoopbackDevice, LoopbackDisk, Mount, PartitionedLoopbackDisk};
use docker_to_uefi_bootable_image::errors::{classify_outcome, ExecOutcome, PipelineError};
use docker_to_uefi_bootable_image::flavor::{kernel_package, packages_persisted, parse_flavor,
    select_kernel_version, Flavor};
use docker_to_uefi_bootable_image::partition::{format_cmd, FsKind};
use docker_to_uefi_bootable_image::step::{Resource, Step};
use docker_to_uefi_bootable_image::resources::ResourceStack;
use docker_to_uefi_bootable_image::text::{filter_uuid_lines, output_stderr_string,
    output_stdout_string, parse_blkid_uuid, split_lines, u64_to_string};
use docker_to_uefi_bootable_image::unpack::{fresh_container_name, unpacked_entry_names};

#[test]
fn stdout_decoding_strips_one_trailing_newline() {
    assert_eq!(output_stdout_string(&b"/dev/loop3\n".to_vec()), "/dev/loop3");
    assert_eq!(output_stdout_string(&b"/dev/loop3".to_vec()), "/dev/loop3");
    assert_eq!(output_stdout_string(&b"a\n\n".to_vec()), "a\n");
    assert_eq!(output_stdout_string(&Vec::new()), "");
    assert_eq!(output_stderr_string(&b"oops\n".to_vec()), "oops");
}

#[test]
fn uuid_filter_keeps_exactly_the_uuid_lines() {
    let text = "DEVNAME=/dev/nvme0n1p1\nUUID=D466-DF85\nTYPE=vfat".to_string();
    assert_eq!(filter_uuid_lines(&text), "UUID=D466-DF85");
    assert_eq!(filter_uuid_lines(&"".to_string()), "");
    assert_eq!(filter_uuid_lines(&"TYPE=ext4\nLABEL=root".to_string()), "");
    // a line that merely contains the field elsewhere is not kept
    assert_eq!(filter_uuid_lines(&"PARTUUID=1234".to_string()), "");
    // several matching lines are kept in order, concatenated as one field
    assert_eq!(
        filter_uuid_lines(&"UUID=a\nTYPE=x\nUUID=b".to_string()),
        "UUID=aUUID=b"
    );
    let raw = b"DEVNAME=/dev/nvme0n1p1\nUUID=D466-DF85\nTYPE=vfat\n".to_vec();
    assert_eq!(parse_blkid_uuid(&raw), "UUID=D466-DF85");
}

#[test]
fn lines_split_like_the_shell_expects() {
    let lines = split_lines(&"a\nbb\n".to_string());
    assert_eq!(lines, vec!["a", "bb", ""]);
    assert_eq!(split_lines(&"".to_string()), vec![""]);
    assert_eq!(split_lines(&"one".to_string()), vec!["one"]);
}

#[test]
fn decimal_rendering_is_exact() {
    assert_eq!(u64_to_string(0), "0");
    assert_eq!(u64_to_string(9), "9");
    assert_eq!(u64_to_string(10), "10");
    assert_eq!(u64_to_string(413696), "413696");
    assert_eq!(u64_to_string(u64::MAX), "18446744073709551615");
}

#[test]
fn flavor_selector_parsing() {
    assert!(matches!(parse_flavor(&"debian".to_string()), Ok(Flavor::Debian)));
    assert!(matches!(parse_flavor(&"ubuntu".to_string()), Ok(Flavor::Ubuntu)));
    assert!(matches!(parse_flavor(&"alpine".to_string()), Ok(Flavor::Alpine)));
    let err = parse_flavor(&"gentoo".to_string()).unwrap_err();
    assert_eq!(err.message(), "bad argument: flavor not supported!");
}

#[test]
fn kernel_package_per_flavor() {
    assert_eq!(kernel_package(Flavor::Debian), "linux-image-amd64");
    assert_eq!(kernel_package(Flavor::Ubuntu), "linux-image-generic");
    assert_eq!(kernel_package(Flavor::Alpine), "linux-lts");
}

#[test]
fn kernel_version_selection() {
    assert_eq!(
        select_kernel_version(&vec!["6.6.0-lts".to_string()]).unwrap(),
        "6.6.0-lts"
    );
    assert!(select_kernel_version(&Vec::new()).is_err());
    assert!(select_kernel_version(&vec!["a".to_string(), "b".to_string()]).is_err());
}

#[test]
fn package_persistence_check() {
    let installed = vec!["grub-efi".to_string(), "linux-lts".to_string(), "busybox".to_string()];
    assert!(packages_persisted(
        &vec!["grub-efi".to_string(), "linux-lts".to_string()],
        &installed
    ));
    assert!(!packages_persisted(&vec!["mkinitfs".to_string()], &installed));
    assert!(packages_persisted(&Vec::new(), &installed));
}

#[test]
fn command_outcome_classification() {
    let ok = classify_outcome(
        &"ls".to_string(),
        ExecOutcome { success: true, stdout: b"hi\n".to_vec(), stderr: Vec::new() },
    );
    assert_eq!(ok.unwrap(), b"hi\n".to_vec());

    let err = classify_outcome(
        &"sgdisk".to_string(),
        ExecOutcome { success: false, stdout: Vec::new(), stderr: b"no such device\n".to_vec() },
    )
    .unwrap_err();
    assert!(matches!(&err, PipelineError::Execution { .. }));
    assert_eq!(err.message(), "command failed: sgdisk\nno such device");
}

#[test]
fn loop_device_parses_the_attach_report() {
    let dev = LoopbackDevice::new(&b"/dev/loop5\n".to_vec()).unwrap();
    assert_eq!(dev.path(), "/dev/loop5");
    let detach = dev.detach_cmd();
    assert_eq!(detach.program, "losetup");
    assert_eq!(detach.args, vec!["-d", "/dev/loop5"]);
    assert!(LoopbackDevice::new(&b"\n".to_vec()).is_err());
    assert!(LoopbackDevice::new(&Vec::new()).is_err());
}

#[test]
fn mount_handles_carry_their_commands() {
    let (m, cmds) = Mount::new("/dev/loop0p3".to_string(), "/work/mnt".to_string());
    assert_eq!(m.dest(), "/work/mnt");
    assert_eq!(cmds.len(), 2);
    assert_eq!(cmds[0].program, "mkdir");
    assert_eq!(cmds[0].args, vec!["-p", "/work/mnt"]);
    assert_eq!(cmds[1].program, "mount");
    assert_eq!(cmds[1].args, vec!["/dev/loop0p3", "/work/mnt"]);

    let (b, bcmds) = Mount::bind("/dev".to_string(), "/work/mnt/dev".to_string());
    assert_eq!(b.dest(), "/work/mnt/dev");
    assert_eq!(bcmds[1].args, vec!["--bind", "/dev", "/work/mnt/dev"]);

    let rel = m.release_cmds();
    assert_eq!(rel[0].program, "sync");
    assert_eq!(rel[1].program, "umount");
    assert_eq!(rel[1].args, vec!["/work/mnt"]);
}

#[test]
fn partitioned_disk_applies_the_fixed_scheme() {
    let steps = LoopbackDisk::create_steps(&"/work".to_string(), 2);
    assert!(matches!(&steps[0], Step::CreateSparseFile { size_bytes, .. } if *size_bytes == 2 * 1024 * 1024 * 1024));
    let disk = LoopbackDisk::new("/work".to_string(), 2, &b"/dev/loop1\n".to_vec()).unwrap();
    assert_eq!(disk.path(), "/dev/loop1");
    assert_eq!(disk.img_path(), "/work/output.img");
    let (pd, cmds) = PartitionedLoopbackDisk::from(disk);
    assert_eq!(pd.path(), "/dev/loop1");
    assert_eq!(pd.img_path(), "/work/output.img");
    assert_eq!(pd.working_dir(), "/work");
    assert_eq!(cmds.len(), 4);
    assert_eq!(cmds[0].program, "sgdisk");
    assert_eq!(
        cmds[0].args,
        vec!["-n", "1:2048:4095", "-c", "1:\"BIOS Boot Partition\"", "-t", "1:ef02", "/dev/loop1"]
    );
    assert_eq!(cmds[2].args, vec!["-n", "3:413696:", "/dev/loop1"]);
    assert_eq!(cmds[3].program, "partprobe");
    assert_eq!(cmds[3].args, vec!["/dev/loop1"]);
}

#[test]
fn resource_stack_releases_in_reverse() {
    let mut stack = ResourceStack::new();
    stack.acquire(Resource::LoopDevice { path: "/dev/loop0".to_string() });
    stack.acquire(Resource::MountPoint { dest: "/mnt".to_string() });
    stack.acquire(Resource::BindMount { dest: "/mnt/dev".to_string() });
    assert_eq!(stack.len(), 3);
    let steps = stack.teardown_steps();
    assert_eq!(stack.len(), 0);
    let released: Vec<String> = steps
        .iter()
        .filter_map(|s| match s {
            Step::Release(Resource::LoopDevice { path }) => Some(path.clone()),
            Step::Release(Resource::MountPoint { dest }) => Some(dest.clone()),
            Step::Release(Resource::BindMount { dest }) => Some(dest.clone()),
            _ => None,
        })
        .collect();
    assert_eq!(released, vec!["/mnt/dev", "/mnt", "/dev/loop0"]);
}

#[test]
fn fstab_has_one_line_per_persisted_partition() {
    let root = "UUID=aaaa".to_string();
    let efi = "UUID=bbbb".to_string();
    let swap = Some("UUID=cccc".to_string());
    let plain = fstab_lines(&root, &efi, &None, Flavor::Debian);
    assert_eq!(plain.len(), 2);
    let with_swap = fstab_lines(&root, &efi, &swap, Flavor::Ubuntu);
    assert_eq!(with_swap.len(), 3);
    assert_eq!(with_swap[2], "UUID=cccc none swap sw 0 0");
    let alpine = fstab_lines(&root, &efi, &None, Flavor::Alpine);
    assert_eq!(alpine.len(), 3);
    assert!(alpine[0].starts_with("UUID="));
    assert!(alpine[1].starts_with("UUID="));
    assert_eq!(alpine[2], "tmpfs /tmp tmpfs defaults 0 0");
    let alpine_swap = fstab_lines(&root, &efi, &swap, Flavor::Alpine);
    assert_eq!(alpine_swap.len(), 4);
    assert!(alpine_swap[0..3].iter().all(|l| l.starts_with("UUID=")));
}

#[test]
fn grub_defaults_differ_by_flavor() {
    let deb = grub_defaults_lines(&"UUID=aaaa".to_string(), Flavor::Debian);
    assert_eq!(deb[0], "GRUB_DEVICE=UUID=aaaa");
    assert_eq!(deb[1], "GRUB_TERMINAL=\"serial console\"");
    assert!(deb[2].contains("init=/lib/systemd/systemd-bootchart"));
    let alp = grub_defaults_lines(&"UUID=aaaa".to_string(), Flavor::Alpine);
    assert!(alp[2].contains("modules=sd-mod,usb-storage,nvme,ext4"));
    assert!(alp[2].contains("rootfstype=ext4"));
}

#[test]
fn password_choice() {
    let supplied = choose_root_password(&Some("s3cret".to_string()));
    assert_eq!(supplied, "s3cret");
    let generated = choose_root_password(&None);
    assert_eq!(generated.len(), 16);
    assert!(generated.chars().all(|c| c.is_ascii_alphanumeric()));
    let other = choose_root_password(&None);
    assert_eq!(other.len(), 16);
}

#[test]
fn container_names_are_fresh_identifiers() {
    let a = fresh_container_name();
    let b = fresh_container_name();
    assert_eq!(a.len(), 36);
    assert!(a.chars().all(|c| c.is_ascii_hexdigit() && !c.is_ascii_uppercase() || c == '-'));
    assert_ne!(a, b);
}

#[test]
fn unpack_round_trip_preserves_top_level_entries() {
    // the root already holds "boot" (the EFI mount point) and the archive
    // carries it too: exactly the archive's entries remain
    let existing = vec!["boot".to_string()];
    let archive = vec!["bin".to_string(), "boot".to_string(), "etc".to_string(), "usr".to_string()];
    let after = unpacked_entry_names(&existing, &archive);
    assert_eq!(after, archive);
    assert_eq!(after.len(), 4);

    // an entry the archive does not carry stays behind
    let after = unpacked_entry_names(&vec!["lost+found".to_string()], &archive);
    assert_eq!(after.len(), 5);
    assert_eq!(after[4], "lost+found");

    // unpacking into an empty root gives exactly the archive
    let after = unpacked_entry_names(&Vec::new(), &archive);
    assert_eq!(after, archive);
}

#[test]
fn formatter_invocations_per_filesystem() {
    let dev = "/dev/loop0p2".to_string();
    let vfat = format_cmd(FsKind::Vfat32, &dev);
    assert_eq!(vfat.program, "mkfs.vfat");
    assert_eq!(vfat.args, vec!["-F", "32", "/dev/loop0p2"]);
    let ext4 = format_cmd(FsKind::Ext4, &dev);
    assert_eq!(ext4.program, "mkfs.ext4");
    assert_eq!(ext4.args, vec!["/dev/loop0p2"]);
    let swap = format_cmd(FsKind::Swap, &dev);
    assert_eq!(swap.program, "mkswap");
    assert_eq!(swap.args, vec!["/dev/loop0p2"]);
}
