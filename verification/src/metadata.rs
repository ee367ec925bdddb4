//! The workspace's package graph and the lookup of the package that owns a
//! binary.
//!
//! The metadata query is expensive, so a [`Builder`] fetches it once, on
//! first use, and keeps it for its lifetime. A binary's owning package is
//! the first one whose target list has a binary-kind target of that name;
//! the owner's manifest, not the manifest given on the command line, governs
//! the later steps, since the two differ in a workspace.

use crate::text::str_eq;
use vstd::prelude::*;

verus! {

/// One build target of a package.
#[derive(Debug, Clone, PartialEq)]
pub struct TargetInfo {
    /// The target's name.
    pub name: String,
    /// The target's kinds, `bin` among them for a binary.
    pub kinds: Vec<String>,
}

/// One package of the workspace.
#[derive(Debug, Clone, PartialEq)]
pub struct PackageInfo {
    /// The package's name.
    pub name: String,
    /// The path of the package's manifest.
    pub manifest_path: String,
    /// The package's build targets.
    pub targets: Vec<TargetInfo>,
}

/// The package graph of the workspace.
#[derive(Debug, Clone, PartialEq)]
pub struct ProjectMetadata {
    /// Every package of the workspace.
    pub packages: Vec<PackageInfo>,
}

/// The package that owns a requested binary: its name and its manifest path.
#[derive(Debug, Clone, PartialEq)]
pub struct KernelPackage {
    /// The owning package's name.
    pub name: String,
    /// The path of the owning package's manifest.
    pub manifest_path: String,
}

/// The metadata query failed to run or returned malformed data; carries the
/// query's error text.
#[derive(Debug, Clone, PartialEq)]
pub struct MetadataError {
    /// The query's error text.
    pub message: String,
}

/// Whether a target is a binary of the given name.
pub open spec fn target_is_bin_named(t: TargetInfo, name: Seq<char>) -> bool {
    t.name@ == name && exists|k: int| 0 <= k < t.kinds@.len() && t.kinds@[k]@ == "bin"@
}

/// Whether a package has a binary target of the given name.
pub open spec fn package_owns_bin(p: PackageInfo, name: Seq<char>) -> bool {
    exists|t: int| 0 <= t < p.targets@.len() && target_is_bin_named(p.targets@[t], name)
}

/// Whether a lookup result is right for a metadata and a binary name: `None`
/// exactly when no package owns the binary, and otherwise the name and
/// manifest path of the first package that does.
pub open spec fn owner_lookup_matches(
    md: ProjectMetadata,
    name: Seq<char>,
    r: Option<KernelPackage>,
) -> bool {
    match r {
        None => forall|p: int|
            0 <= p < md.packages@.len() ==> !package_owns_bin(md.packages@[p], name),
        Some(kp) => exists|p: int|
            {
                &&& 0 <= p < md.packages@.len()
                &&& package_owns_bin(#[trigger] md.packages@[p], name)
                &&& (forall|q: int| 0 <= q < p ==> !package_owns_bin(md.packages@[q], name))
                &&& kp.name@ == md.packages@[p].name@
                &&& kp.manifest_path@ == md.packages@[p].manifest_path@
            },
    }
}

/// Whether a target has the kind `bin`.
fn target_has_bin_kind(t: &TargetInfo) -> (r: bool)
    ensures
        r == exists|k: int| 0 <= k < t.kinds@.len() && t.kinds@[k]@ == "bin"@,
{
    let mut k: usize = 0;
    while k < t.kinds.len()
        invariant
            k <= t.kinds@.len(),
            forall|j: int| 0 <= j < k ==> t.kinds@[j]@ != "bin"@,
        decreases t.kinds@.len() - k,
    {
        if str_eq(t.kinds[k].as_str(), "bin") {
            return true;
        }
        k = k + 1;
    }
    false
}

/// Whether a package has a binary target of the given name, as
/// [`package_owns_bin`] states.
fn package_has_bin(p: &PackageInfo, name: &str) -> (r: bool)
    ensures
        r == package_owns_bin(*p, name@),
{
    let mut t: usize = 0;
    while t < p.targets.len()
        invariant
            t <= p.targets@.len(),
            forall|j: int| 0 <= j < t ==> !target_is_bin_named(p.targets@[j], name@),
        decreases p.targets@.len() - t,
    {
        let target = &p.targets[t];
        if str_eq(target.name.as_str(), name) && target_has_bin_kind(target) {
            assert(target_is_bin_named(p.targets@[t as int], name@));
            return true;
        }
        t = t + 1;
    }
    false
}

/// The first package of the metadata that owns a binary of the given name,
/// or `None` when no package does.
pub fn find_package_for_binary(md: &ProjectMetadata, name: &str) -> (r: Option<KernelPackage>)
    ensures
        owner_lookup_matches(*md, name@, r),
{
    let mut p: usize = 0;
    while p < md.packages.len()
        invariant
            p <= md.packages@.len(),
            forall|j: int| 0 <= j < p ==> !package_owns_bin(md.packages@[j], name@),
        decreases md.packages@.len() - p,
    {
        let package = &md.packages[p];
        if package_has_bin(package, name) {
            return Some(
                KernelPackage {
                    name: package.name.clone(),
                    manifest_path: package.manifest_path.clone(),
                },
            );
        }
        p = p + 1;
    }
    None
}

/// Relies on `cargo_metadata::MetadataCommand` (`new`, `manifest_path`,
/// `exec`): queries the build system for the workspace's package graph and
/// moves each package's name, manifest path, and targets (each with its name
/// and its kinds' names) into the library's model. The error text comes from
/// the `Display` of `cargo_metadata::Error`.
#[verifier::external_body]
fn fetch_project_metadata(manifest_path: &str) -> (r: Result<ProjectMetadata, MetadataError>) {
    let md = match cargo_metadata::MetadataCommand::new().manifest_path(manifest_path).exec() {
        Ok(md) => md,
        Err(e) => return Err(MetadataError { message: format!("{}", e) }),
    };
    Ok(ProjectMetadata {
        packages: md.packages.into_iter().map(|p| PackageInfo {
            name: p.name.to_string(),
            manifest_path: p.manifest_path.into_string(),
            targets: p.targets.into_iter().map(|t| TargetInfo {
                name: t.name,
                kinds: t.kind.into_iter().map(|k| k.to_string()).collect(),
            }).collect(),
        }).collect(),
    })
}

/// Builds the kernel and creates a bootable disk image with it.
///
/// Owns the manifest path the command was invoked for and the lazily
/// fetched, cached [`ProjectMetadata`].
pub struct Builder {
    manifest_path: String,
    project_metadata: Option<ProjectMetadata>,
}

impl Builder {
    /// The manifest path the builder was created for.
    pub closed spec fn manifest(self) -> Seq<char> {
        self.manifest_path@
    }

    /// The cached metadata, when it was fetched already.
    pub closed spec fn cached(self) -> Option<ProjectMetadata> {
        self.project_metadata
    }

    /// Creates a builder for the project at the given manifest path.
    ///
    /// The metadata is not fetched yet: it is queried on first use.
    pub fn new(manifest_path: String) -> (r: Builder)
        ensures
            r.manifest() == manifest_path@,
            r.cached() is None,
    {
        Builder { manifest_path, project_metadata: None }
    }

    /// The path to the manifest of the project.
    pub fn manifest_path(&self) -> (r: &str)
        ensures
            r@ == self.manifest(),
    {
        self.manifest_path.as_str()
    }

    /// Makes sure the metadata is cached: fetches it on the first call, and
    /// leaves an already cached value untouched, so the expensive query runs
    /// at most once per builder.
    fn ensure_metadata(&mut self) -> (r: Result<(), MetadataError>)
        ensures
            final(self).manifest() == old(self).manifest(),
            old(self).cached() is Some ==> *final(self) == *old(self) && r is Ok,
            r is Ok ==> final(self).cached() is Some,
            r is Err ==> *final(self) == *old(self),
    {
        if self.project_metadata.is_some() {
            return Ok(());
        }
        match fetch_project_metadata(self.manifest_path.as_str()) {
            Ok(md) => {
                self.project_metadata = Some(md);
                Ok(())
            },
            Err(e) => Err(e),
        }
    }

    /// The metadata package that has a binary target of the given name, or
    /// `None` when no package has one — the caller must treat that as
    /// "binary not found" and fail explicitly.
    ///
    /// Fetches the metadata on first use; a cached value is reused and the
    /// lookup then cannot fail.
    pub fn kernel_package_for_bin(&mut self, kernel_bin_name: &str) -> (r: Result<
        Option<KernelPackage>,
        MetadataError,
    >)
        ensures
            final(self).manifest() == old(self).manifest(),
            old(self).cached() is Some ==> final(self).cached() == old(self).cached() && r is Ok,
            r is Ok ==> final(self).cached() is Some && owner_lookup_matches(
                final(self).cached()->Some_0,
                kernel_bin_name@,
                r->Ok_0,
            ),
            r is Err ==> *final(self) == *old(self),
    {
        match self.ensure_metadata() {
            Ok(()) => {},
            Err(e) => {
                return Err(e);
            },
        }
        match &self.project_metadata {
            Some(md) => Ok(find_package_for_binary(md, kernel_bin_name)),
            None => {
                proof {
                    assert(false);
                }
                Err(MetadataError { message: String::new() })
            },
        }
    }
}

} // verus!
