//! Planning the bootable disk image: the staging layout and the invocation
//! of the image-creation tool.
//!
//! Image creation stages a directory holding the kernel binary under
//! `boot/kernel.bin` and a generated bootloader configuration under
//! `boot/grub/grub.cfg`, then runs the image tool against that directory.
//! The plan is a pure function of the request: staging a second request
//! yields a configuration naming only the second binary, so a staging
//! directory that is replaced (never merged) with a plan's files holds no
//! stale boot entry.

use crate::config::views_of_strings;
use crate::metadata::Builder;
use crate::paths::{
    file_stem, join_path, parent_dir, spec_file_stem, spec_join_path, spec_parent_dir,
};
use vstd::prelude::*;

verus! {

/// A request to create a bootable image.
pub struct Grubimage<'a> {
    /// Path to the kernel's manifest.
    pub kernel_manifest: &'a str,
    /// Path to the kernel binary.
    pub bin_path: &'a str,
    /// Path of the image to produce.
    pub output_bin_path: &'a str,
    /// Disable logging.
    pub quiet: bool,
    /// Use a release build.
    pub release: bool,
    /// The staging directory.
    pub iso_dir_path: &'a str,
    /// The binary's name, used as the boot entry's label.
    pub bin_name: &'a str,
}

/// Everything the image-creation step does, stated ahead of doing it: which
/// files the staging directory holds afterwards (it is replaced, never
/// merged), and which command produces the image.
#[derive(Debug, Clone, PartialEq)]
pub struct ImagePlan {
    /// The staging directory, replaced wholesale by this plan's files.
    pub staging_dir: String,
    /// The `boot` directory inside the staging directory.
    pub boot_dir: String,
    /// The `boot/grub` directory inside the staging directory.
    pub grub_dir: String,
    /// Where the kernel binary is copied to.
    pub kernel_target_path: String,
    /// The kernel binary that is copied.
    pub kernel_source_path: String,
    /// Where the generated bootloader configuration is written.
    pub grub_cfg_path: String,
    /// The generated bootloader configuration.
    pub grub_cfg_contents: String,
    /// The path of the produced image.
    pub output_path: String,
    /// The image-creation command to run against the staging directory.
    pub command: Vec<String>,
    /// Whether output to stdout is suppressed.
    pub quiet: bool,
}

/// The text before the boot entry's label in a generated configuration.
pub open spec fn grub_cfg_prefix() -> Seq<char> {
    "set timeout=0\nset default=0\n\nmenuentry \""@
}

/// The text after the boot entry's label in a generated configuration.
pub open spec fn grub_cfg_suffix() -> Seq<char> {
    "\" {\n    multiboot2 /boot/kernel.bin\n    boot\n}\n"@
}

/// The generated bootloader configuration: one boot entry, labelled with the
/// binary's name, that boots the staged kernel.
pub open spec fn spec_grub_cfg(bin_name: Seq<char>) -> Seq<char> {
    grub_cfg_prefix() + bin_name + grub_cfg_suffix()
}

/// The file name of the image produced for a binary.
pub open spec fn spec_image_file_name(bin_name: Seq<char>) -> Seq<char> {
    "grubimage-"@ + bin_name + ".iso"@
}

/// Two requests with different binary names generate different bootloader
/// configurations: the configuration names its own binary only, so staging
/// a second binary leaves no entry of the first.
pub proof fn lemma_grub_cfg_injective(n1: Seq<char>, n2: Seq<char>)
    requires
        spec_grub_cfg(n1) == spec_grub_cfg(n2),
    ensures
        n1 == n2,
{
    let a = grub_cfg_prefix();
    let b = grub_cfg_suffix();
    assert(spec_grub_cfg(n1).len() == a.len() + n1.len() + b.len());
    assert(spec_grub_cfg(n2).len() == a.len() + n2.len() + b.len());
    assert(n1.len() == n2.len());
    assert forall|i: int| 0 <= i < n1.len() implies n1[i] == n2[i] by {
        assert(spec_grub_cfg(n1)[a.len() + i] == n1[i]);
        assert(spec_grub_cfg(n2)[a.len() + i] == n2[i]);
    }
    assert(n1 =~= n2);
}

/// Generates the bootloader configuration for a binary name.
pub fn grub_cfg_contents(bin_name: &str) -> (r: String)
    ensures
        r@ == spec_grub_cfg(bin_name@),
{
    let mut out = "set timeout=0\nset default=0\n\nmenuentry \"".to_owned();
    out.append(bin_name);
    out.append("\" {\n    multiboot2 /boot/kernel.bin\n    boot\n}\n");
    out
}

/// The file name of the image produced for a binary.
pub fn image_file_name(bin_name: &str) -> (r: String)
    ensures
        r@ == spec_image_file_name(bin_name@),
{
    let mut out = "grubimage-".to_owned();
    out.append(bin_name);
    out.append(".iso");
    out
}

impl Builder {
    /// Plans the creation of a bootable image for a request: the staging
    /// directory's layout (the kernel binary under `boot/kernel.bin` and the
    /// generated configuration under `boot/grub/grub.cfg`) and the
    /// image-creation command that places the image at the request's output
    /// path. The staging directory is to be replaced with exactly the
    /// planned files before the command runs.
    pub fn create_grubimage(&mut self, args: &Grubimage<'_>) -> (r: ImagePlan)
        ensures
            *final(self) == *old(self),
            r.staging_dir@ == args.iso_dir_path@,
            r.boot_dir@ == spec_join_path(args.iso_dir_path@, "boot"@),
            r.grub_dir@ == spec_join_path(
                spec_join_path(args.iso_dir_path@, "boot"@),
                "grub"@,
            ),
            r.kernel_target_path@ == spec_join_path(
                spec_join_path(args.iso_dir_path@, "boot"@),
                "kernel.bin"@,
            ),
            r.kernel_source_path@ == args.bin_path@,
            r.grub_cfg_path@ == spec_join_path(
                spec_join_path(spec_join_path(args.iso_dir_path@, "boot"@), "grub"@),
                "grub.cfg"@,
            ),
            r.grub_cfg_contents@ == spec_grub_cfg(args.bin_name@),
            r.output_path@ == args.output_bin_path@,
            views_of_strings(r.command@) == seq![
                "grub-mkrescue"@,
                "-o"@,
                args.output_bin_path@,
                args.iso_dir_path@,
            ],
            r.quiet == args.quiet,
    {
        let boot_dir = join_path(args.iso_dir_path, "boot");
        let grub_dir = join_path(boot_dir.as_str(), "grub");
        let kernel_target_path = join_path(boot_dir.as_str(), "kernel.bin");
        let grub_cfg_path = join_path(grub_dir.as_str(), "grub.cfg");
        let command = vec![
            "grub-mkrescue".to_owned(),
            "-o".to_owned(),
            args.output_bin_path.to_owned(),
            args.iso_dir_path.to_owned(),
        ];
        proof {
            assert(views_of_strings(command@) =~= seq![
                "grub-mkrescue"@,
                "-o"@,
                args.output_bin_path@,
                args.iso_dir_path@,
            ]);
        }
        ImagePlan {
            staging_dir: args.iso_dir_path.to_owned(),
            boot_dir,
            grub_dir,
            kernel_target_path,
            kernel_source_path: args.bin_path.to_owned(),
            grub_cfg_path,
            grub_cfg_contents: grub_cfg_contents(args.bin_name),
            output_path: args.output_bin_path.to_owned(),
            command,
            quiet: args.quiet,
        }
    }
}

/// Why image creation failed: a staging failure and a failure of the
/// external image tool are told apart.
#[derive(Debug, Clone, PartialEq)]
pub enum ImageError {
    /// Populating the staging directory failed; carries the I/O error's
    /// text.
    StagingFailed(String),
    /// The image-creation tool could not run or exited with a non-zero
    /// status; carries the failure's text.
    ToolFailed(String),
}

impl ImageError {
    /// The error as a line of text naming which step failed.
    pub fn message(&self) -> (r: String)
        ensures
            match self {
                ImageError::StagingFailed(m) => r@ == "failed to stage the bootable image: "@
                    + m@,
                ImageError::ToolFailed(m) => r@ == "image-creation tool failed: "@ + m@,
            },
    {
        match self {
            ImageError::StagingFailed(m) => {
                let mut out = "failed to stage the bootable image: ".to_owned();
                out.append(m.as_str());
                out
            },
            ImageError::ToolFailed(m) => {
                let mut out = "image-creation tool failed: ".to_owned();
                out.append(m.as_str());
                out
            },
        }
    }
}

/// Decides what the staging step yields: an I/O failure while populating the
/// staging directory is an [`ImageError::StagingFailed`], and only on
/// success is the image tool to be run at all.
pub fn staging_outcome(staging: Result<(), String>) -> (r: Result<(), ImageError>)
    ensures
        staging matches Err(m) ==> r == Err::<(), ImageError>(ImageError::StagingFailed(m)),
        staging is Ok ==> r == Ok::<(), ImageError>(()),
{
    match staging {
        Ok(()) => Ok(()),
        Err(m) => Err(ImageError::StagingFailed(m)),
    }
}

/// Decides what the image tool's run yields: a spawn failure or a non-zero
/// exit is an [`ImageError::ToolFailed`]; only a zero exit has produced the
/// image at the plan's output path.
pub fn tool_outcome(tool: Result<bool, String>) -> (r: Result<(), ImageError>)
    ensures
        tool matches Err(m) ==> r == Err::<(), ImageError>(ImageError::ToolFailed(m)),
        tool == Ok::<bool, String>(false) ==> (r matches Err(ImageError::ToolFailed(m)) && m@
            == "exited with a non-zero status"@),
        tool == Ok::<bool, String>(true) ==> r == Ok::<(), ImageError>(()),
{
    match tool {
        Err(m) => Err(ImageError::ToolFailed(m)),
        Ok(false) => Err(ImageError::ToolFailed("exited with a non-zero status".to_owned())),
        Ok(true) => Ok(()),
    }
}

/// The paths one discovered executable gives rise to: where it was built,
/// its name, the staging directory beside it, and the image's path.
#[derive(Debug, Clone, PartialEq)]
pub struct ImageRequestPaths {
    /// The directory the executable lies in.
    pub out_dir: String,
    /// The executable's file name without its extension: the binary's name.
    pub bin_name: String,
    /// The staging directory, `isofiles` beside the executable.
    pub iso_dir: String,
    /// The image's path, named after the binary, beside the executable.
    pub image_path: String,
}

/// Why no image can be planned for an executable path.
#[derive(Debug, Clone, PartialEq)]
pub enum PlanError {
    /// The executable's path has no parent directory.
    NoParent,
    /// The executable's path has no file stem.
    NoFileStem,
}

/// Derives the per-executable paths: the build output directory is the
/// executable's parent, the binary name its file stem, the staging
/// directory `isofiles` in the output directory, and the image
/// `grubimage-<name>.iso` there too. An executable without a parent or
/// without a file stem is rejected.
pub fn image_paths_for_executable(executable: &str) -> (r: Result<ImageRequestPaths, PlanError>)
    ensures
        spec_parent_dir(executable@) is None ==> r == Err::<ImageRequestPaths, PlanError>(
            PlanError::NoParent,
        ),
        spec_parent_dir(executable@) is Some && spec_file_stem(executable@) is None ==> r == Err::<
            ImageRequestPaths,
            PlanError,
        >(PlanError::NoFileStem),
        spec_parent_dir(executable@) is Some && spec_file_stem(executable@) is Some ==> (r matches
        Ok(p) && {
            let dir = spec_parent_dir(executable@)->Some_0;
            let stem = spec_file_stem(executable@)->Some_0;
            &&& p.out_dir@ == dir
            &&& p.bin_name@ == stem
            &&& p.iso_dir@ == spec_join_path(dir, "isofiles"@)
            &&& p.image_path@ == spec_join_path(dir, spec_image_file_name(stem))
        }),
{
    let out_dir = match parent_dir(executable) {
        None => {
            return Err(PlanError::NoParent);
        },
        Some(d) => d,
    };
    let bin_name = match file_stem(executable) {
        None => {
            return Err(PlanError::NoFileStem);
        },
        Some(s) => s,
    };
    let iso_dir = join_path(out_dir.as_str(), "isofiles");
    let file = image_file_name(bin_name.as_str());
    let image_path = join_path(out_dir.as_str(), file.as_str());
    Ok(ImageRequestPaths { out_dir, bin_name, iso_dir, image_path })
}

} // verus!
