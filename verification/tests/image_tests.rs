use grubimage::artifacts::{artifacts_from_output, build_command_line};
use grubimage::config::read_config;
use grubimage::image::{
    grub_cfg_contents, image_file_name, image_paths_for_executable, staging_outcome, tool_outcome,
    Grubimage, ImageError, PlanError,
};
use grubimage::metadata::{
    find_package_for_binary, Builder, PackageInfo, ProjectMetadata, TargetInfo,
};
use grubimage::paths::{file_stem, join_path, parent_dir};

fn kernel_workspace() -> ProjectMetadata {
    ProjectMetadata {
        packages: vec![
            PackageInfo {
                name: "helper".to_string(),
                manifest_path: "/ws/helper/Cargo.toml".to_string(),
                targets: vec![TargetInfo {
                    name: "helper".to_string(),
                    kinds: vec!["lib".to_string()],
                }],
            },
            PackageInfo {
                name: "kernel".to_string(),
                manifest_path: "/ws/kernel/Cargo.toml".to_string(),
                targets: vec![TargetInfo {
                    name: "kernel".to_string(),
                    kinds: vec!["bin".to_string()],
                }],
            },
        ],
    }
}

#[test]
fn image_paths_follow_the_executable() {
    let paths = image_paths_for_executable("/target/debug/kernel").expect("paths derive");
    assert_eq!(paths.out_dir, "/target/debug");
    assert_eq!(paths.bin_name, "kernel");
    assert_eq!(paths.iso_dir, "/target/debug/isofiles");
    assert_eq!(paths.image_path, "/target/debug/grubimage-kernel.iso");
}

#[test]
fn executable_without_parent_is_rejected() {
    assert_eq!(
        image_paths_for_executable("kernel"),
        Err(PlanError::NoParent)
    );
}

#[test]
fn executable_without_file_stem_is_rejected() {
    assert_eq!(
        image_paths_for_executable("/target/debug/"),
        Err(PlanError::NoFileStem)
    );
}

#[test]
fn image_file_name_is_deterministic() {
    assert_eq!(image_file_name("kernel"), "grubimage-kernel.iso");
}

#[test]
fn grub_cfg_names_the_binary() {
    let cfg = grub_cfg_contents("kernel");
    assert_eq!(
        cfg,
        "set timeout=0\nset default=0\n\nmenuentry \"kernel\" {\n    multiboot2 /boot/kernel.bin\n    boot\n}\n"
    );
}

#[test]
fn staging_reflects_the_latest_binary_only() {
    let mut builder = Builder::new("/ws/Cargo.toml".to_string());
    let first = builder.create_grubimage(&Grubimage {
        kernel_manifest: "/ws/kernel/Cargo.toml",
        bin_path: "/target/debug/first",
        output_bin_path: "/target/debug/grubimage-first.iso",
        quiet: false,
        release: false,
        iso_dir_path: "/target/debug/isofiles",
        bin_name: "first",
    });
    let second = builder.create_grubimage(&Grubimage {
        kernel_manifest: "/ws/kernel/Cargo.toml",
        bin_path: "/target/debug/second",
        output_bin_path: "/target/debug/grubimage-second.iso",
        quiet: false,
        release: false,
        iso_dir_path: "/target/debug/isofiles",
        bin_name: "second",
    });
    assert_eq!(first.grub_cfg_path, second.grub_cfg_path);
    assert!(second.grub_cfg_contents.contains("\"second\""));
    assert!(!second.grub_cfg_contents.contains("first"));
}

#[test]
fn image_plan_stages_kernel_and_configuration() {
    let mut builder = Builder::new("/ws/Cargo.toml".to_string());
    let plan = builder.create_grubimage(&Grubimage {
        kernel_manifest: "/ws/kernel/Cargo.toml",
        bin_path: "/target/debug/kernel",
        output_bin_path: "/target/debug/grubimage-kernel.iso",
        quiet: true,
        release: false,
        iso_dir_path: "/target/debug/isofiles",
        bin_name: "kernel",
    });
    assert_eq!(plan.staging_dir, "/target/debug/isofiles");
    assert_eq!(plan.boot_dir, "/target/debug/isofiles/boot");
    assert_eq!(plan.grub_dir, "/target/debug/isofiles/boot/grub");
    assert_eq!(plan.kernel_target_path, "/target/debug/isofiles/boot/kernel.bin");
    assert_eq!(plan.kernel_source_path, "/target/debug/kernel");
    assert_eq!(plan.grub_cfg_path, "/target/debug/isofiles/boot/grub/grub.cfg");
    assert_eq!(plan.grub_cfg_contents, grub_cfg_contents("kernel"));
    assert_eq!(plan.output_path, "/target/debug/grubimage-kernel.iso");
    assert_eq!(
        plan.command,
        vec![
            "grub-mkrescue".to_string(),
            "-o".to_string(),
            "/target/debug/grubimage-kernel.iso".to_string(),
            "/target/debug/isofiles".to_string()
        ]
    );
    assert!(plan.quiet);
}

#[test]
fn locator_finds_the_owning_package() {
    let md = kernel_workspace();
    let owner = find_package_for_binary(&md, "kernel").expect("kernel is owned");
    assert_eq!(owner.name, "kernel");
    assert_eq!(owner.manifest_path, "/ws/kernel/Cargo.toml");
}

#[test]
fn locator_reports_a_missing_binary_as_none() {
    let md = kernel_workspace();
    assert!(find_package_for_binary(&md, "absent").is_none());
}

#[test]
fn locator_ignores_non_binary_targets() {
    let md = kernel_workspace();
    assert!(find_package_for_binary(&md, "helper").is_none());
}

#[test]
fn builder_keeps_its_manifest_path() {
    let builder = Builder::new("/ws/Cargo.toml".to_string());
    assert_eq!(builder.manifest_path(), "/ws/Cargo.toml");
}

#[test]
fn path_helpers_split_as_documented() {
    assert_eq!(parent_dir("/a/b/c"), Some("/a/b".to_string()));
    assert_eq!(parent_dir("c"), None);
    assert_eq!(file_stem("/a/b.tar.gz"), Some("b.tar".to_string()));
    assert_eq!(file_stem("/a/.hidden"), Some(".hidden".to_string()));
    assert_eq!(file_stem("/a/"), None);
    assert_eq!(file_stem("/a/kernel"), Some("kernel".to_string()));
    assert_eq!(join_path("", "x"), "x");
    assert_eq!(join_path("/a", "x"), "/a/x");
}

#[test]
fn defaults_build_and_image_compose_end_to_end() {
    let manifest = "[package]\nname = \"kernel\"\nversion = \"0.1.0\"\n";
    let config = read_config(manifest).expect("defaults apply");
    assert_eq!(
        build_command_line(&config, &Vec::new(), false),
        vec!["build".to_string()]
    );
    let stdout = b"{\"executable\":\"/target/debug/kernel\"}\n".to_vec();
    let artifacts = artifacts_from_output(stdout).expect("one executable");
    assert_eq!(artifacts, vec!["/target/debug/kernel".to_string()]);
    let md = kernel_workspace();
    let owner = find_package_for_binary(&md, "kernel").expect("owner found");
    assert_eq!(owner.manifest_path, "/ws/kernel/Cargo.toml");
    let paths = image_paths_for_executable(&artifacts[0]).expect("paths derive");
    assert_eq!(paths.image_path, "/target/debug/grubimage-kernel.iso");
    let mut builder = Builder::new(owner.manifest_path.clone());
    let plan = builder.create_grubimage(&Grubimage {
        kernel_manifest: &owner.manifest_path,
        bin_path: &artifacts[0],
        output_bin_path: &paths.image_path,
        quiet: false,
        release: false,
        iso_dir_path: &paths.iso_dir,
        bin_name: &paths.bin_name,
    });
    assert_eq!(plan.output_path, "/target/debug/grubimage-kernel.iso");
}

#[test]
fn executable_under_the_root_stages_beside_it() {
    let paths = image_paths_for_executable("/kernel").expect("paths derive");
    assert_eq!(paths.out_dir, "/");
    assert_eq!(paths.bin_name, "kernel");
    assert_eq!(paths.iso_dir, "/isofiles");
    assert_eq!(paths.image_path, "/grubimage-kernel.iso");
}

#[test]
fn root_parent_and_join_follow_the_root() {
    assert_eq!(parent_dir("/kernel"), Some("/".to_string()));
    assert_eq!(join_path("/", "x"), "/x");
}

#[test]
fn staging_failure_and_tool_failure_are_told_apart() {
    assert_eq!(staging_outcome(Ok(())), Ok(()));
    match staging_outcome(Err("copying the kernel binary: denied".to_string())) {
        Err(ImageError::StagingFailed(m)) => {
            assert_eq!(m, "copying the kernel binary: denied");
        }
        other => panic!("expected StagingFailed, got {:?}", other),
    }
    assert_eq!(tool_outcome(Ok(true)), Ok(()));
    match tool_outcome(Ok(false)) {
        Err(ImageError::ToolFailed(m)) => assert_eq!(m, "exited with a non-zero status"),
        other => panic!("expected ToolFailed, got {:?}", other),
    }
    match tool_outcome(Err("failed to start: not found".to_string())) {
        Err(ImageError::ToolFailed(m)) => {
            assert_eq!(m, "failed to start: not found");
            assert_eq!(
                ImageError::ToolFailed(m).message(),
                "image-creation tool failed: failed to start: not found"
            );
        }
        other => panic!("expected ToolFailed, got {:?}", other),
    }
}
