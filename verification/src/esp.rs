//! ESP path resolution and naming.
//!
//! Three pieces live here, leaves first:
//!
//! * `EfiFallback` — the closed set of supported firmware architectures and
//!   the fixed file names firmware and systemd-boot mandate for each.
//! * `nixos_path` — flattens a store path (after at most one level of
//!   symlink indirection, handed in as plain data) into a single
//!   FAT-compatible file name.
//! * `EspPaths` — composes the two with the generation identity into the
//!   full, fixed set of destination paths under an ESP root.
//!
//! The library performs no I/O of its own: a caller on a live filesystem
//! reads each symlink target once (one level, deliberately not a full
//! canonicalization) and passes it in the `Generation` snapshot.

use vstd::prelude::*;

use crate::errors::ConfigurationError;
use crate::errors::ConfigurationErrorView;
use crate::errors::EspError;
use crate::errors::EspErrorView;
use crate::errors::PathError;
use crate::errors::PathErrorView;
use crate::strutil::spec_decimal;
use crate::strutil::spec_join;
use crate::strutil::spec_last_slash;
use crate::strutil::spec_starts_with;

verus! {

/// A firmware architecture with fixed fallback and systemd-boot file names.
///
/// The `Arm` variant exists with its documented file names, but no
/// architecture identifier currently routes to it.
#[derive(Clone, Copy, PartialEq, Eq, Structural, Debug)]
#[non_exhaustive]
pub enum EfiFallback {
    X86,
    Arm,
    AArch64,
}

/// The firmware fallback file name mandated for each architecture.
pub open spec fn spec_fallback_filename(f: EfiFallback) -> Seq<char> {
    match f {
        EfiFallback::X86 => "BOOTX64.EFI"@,
        EfiFallback::Arm => "BOOTARM.EFI"@,
        EfiFallback::AArch64 => "BOOTAA64.EFI"@,
    }
}

/// The systemd-boot-branded file name mandated for each architecture.
pub open spec fn spec_systemd_filename(f: EfiFallback) -> Seq<char> {
    match f {
        EfiFallback::X86 => "systemd-bootx64.efi"@,
        EfiFallback::Arm => "systemd-bootarm.efi"@,
        EfiFallback::AArch64 => "systemd-bootaa64.efi"@,
    }
}

/// The architecture a system identifier routes to, if any. No identifier
/// routes to `Arm`.
pub open spec fn spec_arch_of(system_double: Seq<char>) -> Option<EfiFallback> {
    if system_double == "x86_64-linux"@ {
        Some(EfiFallback::X86)
    } else if system_double == "aarch64-linux"@ {
        Some(EfiFallback::AArch64)
    } else {
        None
    }
}

impl EfiFallback {
    /// The firmware fallback file name for this architecture.
    pub fn as_str(&self) -> (r: &'static str)
        ensures
            r@ == spec_fallback_filename(*self),
    {
        match self {
            Self::X86 => "BOOTX64.EFI",
            Self::Arm => "BOOTARM.EFI",
            Self::AArch64 => "BOOTAA64.EFI",
        }
    }

    /// The systemd-boot file name for this architecture.
    pub fn as_systemd_filename(&self) -> (r: &'static str)
        ensures
            r@ == spec_systemd_filename(*self),
    {
        match self {
            Self::X86 => "systemd-bootx64.efi",
            Self::Arm => "systemd-bootarm.efi",
            Self::AArch64 => "systemd-bootaa64.efi",
        }
    }

    /// Route an architecture identifier to its firmware file names.
    ///
    /// Exactly the recognized identifiers succeed; anything else fails with
    /// a `ConfigurationError` carrying the identifier — firmware boot
    /// depends on exact mandated names, so defaulting is forbidden.
    pub fn from_system_double(system_double: &str) -> (r: Result<EfiFallback, ConfigurationError>)
        ensures
            match r {
                Ok(f) => spec_arch_of(system_double@) == Some(f),
                Err(e) => spec_arch_of(system_double@) is None && e@
                    == ConfigurationErrorView::UnrecognizedArchitecture(system_double@),
            },
    {
        if crate::strutil::str_eq(system_double, "x86_64-linux") {
            Ok(EfiFallback::X86)
        } else if crate::strutil::str_eq(system_double, "aarch64-linux") {
            Ok(EfiFallback::AArch64)
        } else {
            Err(ConfigurationError::UnrecognizedArchitecture(system_double.to_owned()))
        }
    }
}

/// View of an optional borrowed string.
pub open spec fn opt_str_view(o: Option<&str>) -> Option<Seq<char>> {
    match o {
        Some(s) => Some(s@),
        None => None,
    }
}

/// View of an optional owned string.
pub open spec fn opt_string_view(o: &Option<String>) -> Option<Seq<char>> {
    match o {
        Some(s) => Some(s@),
        None => None,
    }
}

/// The physical path a store path stands for: its one-level symlink target
/// when it is a symlink, the path itself otherwise.
pub open spec fn spec_resolved(path: Seq<char>, link_target: Option<Seq<char>>) -> Seq<char> {
    match link_target {
        Some(t) => t,
        None => path,
    }
}

/// The parent directory of a path: everything before the last `/`. A path
/// without a separator has no parent.
pub open spec fn spec_parent(s: Seq<char>) -> Option<Seq<char>> {
    match spec_last_slash(s) {
        Some(i) => Some(s.subrange(0, i)),
        None => None,
    }
}

/// Strip the fixed store root from a directory path. The match is exact or
/// on a whole path component: a directory merely sharing the prefix's
/// characters does not count as inside the store.
pub open spec fn spec_strip_store(p: Seq<char>) -> Option<Seq<char>> {
    if p == "/nix/store"@ {
        Some(Seq::<char>::empty())
    } else if spec_starts_with(p, "/nix/store/"@) {
        Some(p.subrange("/nix/store/"@.len() as int, p.len() as int))
    } else {
        None
    }
}

/// The flattened ESP file name built from a stripped parent directory and
/// an artifact name. Any separators left in `stripped` are kept verbatim.
pub open spec fn spec_flat_name(stripped: Seq<char>, name: Seq<char>) -> Seq<char> {
    stripped + "-"@ + name + ".efi"@
}

/// What `nixos_path` returns for each input.
pub open spec fn spec_nixos_path(
    path: Seq<char>,
    link_target: Option<Seq<char>>,
    name: Seq<char>,
) -> Result<Seq<char>, PathErrorView> {
    let resolved = spec_resolved(path, link_target);
    match spec_parent(resolved) {
        None => Err(PathErrorView::MissingParent(resolved)),
        Some(parent) => match spec_strip_store(parent) {
            None => Err(PathErrorView::OutsideStore(path)),
            Some(stripped) => Ok(spec_flat_name(stripped, name)),
        },
    }
}

/// Flatten a store path into an ESP-safe file name.
///
/// `link_target` is what a one-level symlink dereference of `path`
/// returned, or `None` when `path` is not a symlink; the caller reads it
/// once, and deliberately does not canonicalize further. The parent
/// directory of the resolved path must lie under the store root; its
/// remainder, the artifact name and the `.efi` suffix form one flat name,
/// so that generations sharing a subtree cannot collide on the ESP.
pub fn nixos_path(path: &str, link_target: Option<&str>, name: &str) -> (r: Result<
    String,
    PathError,
>)
    ensures
        match r {
            Ok(s) => spec_nixos_path(path@, opt_str_view(link_target), name@) == Ok::<
                Seq<char>,
                PathErrorView,
            >(s@),
            Err(e) => spec_nixos_path(path@, opt_str_view(link_target), name@) == Err::<
                Seq<char>,
                PathErrorView,
            >(e@),
        },
{
    let resolved: &str = match link_target {
        Some(t) => t,
        None => path,
    };
    let i = match crate::strutil::rfind_slash(resolved) {
        Some(i) => i,
        None => {
            return Err(PathError::MissingParent(resolved.to_owned()));
        },
    };
    let parent = resolved.substring_char(0, i);
    let mut out: String;
    if crate::strutil::str_eq(parent, "/nix/store") {
        out = String::new();
    } else if crate::strutil::str_starts_with(parent, "/nix/store/") {
        proof {
            reveal_strlit("/nix/store/");
        }
        let pl = parent.unicode_len();
        out = parent.substring_char(11, pl).to_owned();
    } else {
        return Err(PathError::OutsideStore(path.to_owned()));
    }
    out.append("-");
    out.append(name);
    out.append(".efi");
    Ok(out)
}

/// Law: path resolution is idempotent. Resolving the same
/// (path, link target, artifact name) input again yields the identical
/// outcome, success or failure.
pub proof fn lemma_nixos_path_idempotent(
    path: Seq<char>,
    link_target: Option<Seq<char>>,
    name: Seq<char>,
    r1: Result<Seq<char>, PathErrorView>,
    r2: Result<Seq<char>, PathErrorView>,
)
    requires
        r1 == spec_nixos_path(path, link_target, name),
        r2 == spec_nixos_path(path, link_target, name),
    ensures
        r1 == r2,
{
}

/// The boot-relevant slice of a generation's bootspec, snapshotted as plain
/// data. The two `link_target` fields carry what a one-level symlink
/// dereference of the corresponding path returned (`None` when the path is
/// not a symlink); the caller reads them once before building the snapshot.
pub struct BootSpec {
    pub kernel: String,
    pub kernel_link_target: Option<String>,
    pub initrd: Option<String>,
    pub initrd_link_target: Option<String>,
    pub system: String,
}

/// Mathematical image of a `BootSpec`.
pub struct BootSpecView {
    pub kernel: Seq<char>,
    pub kernel_link_target: Option<Seq<char>>,
    pub initrd: Option<Seq<char>>,
    pub initrd_link_target: Option<Seq<char>>,
    pub system: Seq<char>,
}

impl View for BootSpec {
    type V = BootSpecView;

    open spec fn view(&self) -> BootSpecView {
        BootSpecView {
            kernel: self.kernel@,
            kernel_link_target: opt_string_view(&self.kernel_link_target),
            initrd: opt_string_view(&self.initrd),
            initrd_link_target: opt_string_view(&self.initrd_link_target),
            system: self.system@,
        }
    }
}

/// A generation snapshot: ordinal number, optional specialisation name and
/// bootspec. Immutable for the duration of path computation.
pub struct Generation {
    pub version: u64,
    pub specialisation_name: Option<String>,
    pub bootspec: BootSpec,
}

/// Mathematical image of a `Generation`.
pub struct GenerationView {
    pub version: nat,
    pub specialisation_name: Option<Seq<char>>,
    pub bootspec: BootSpecView,
}

impl View for Generation {
    type V = GenerationView;

    open spec fn view(&self) -> GenerationView {
        GenerationView {
            version: self.version as nat,
            specialisation_name: opt_string_view(&self.specialisation_name),
            bootspec: self.bootspec@,
        }
    }
}

/// The stub image file name for a generation: its ordinal number, and the
/// specialisation name when the generation carries one.
pub open spec fn spec_generation_path(
    version: nat,
    specialisation_name: Option<Seq<char>>,
) -> Seq<char> {
    match specialisation_name {
        None => "nixos-generation-"@ + spec_decimal(version) + ".efi"@,
        Some(s) => "nixos-generation-"@ + spec_decimal(version) + "-specialisation-"@ + s
            + ".efi"@,
    }
}

/// The file name of the generation's stub image.
pub fn generation_path(generation: &Generation) -> (r: String)
    ensures
        r@ == spec_generation_path(
            generation.version as nat,
            opt_string_view(&generation.specialisation_name),
        ),
{
    let mut out = "nixos-generation-".to_owned();
    let version = crate::strutil::decimal_text(generation.version);
    out.append(version.as_str());
    match &generation.specialisation_name {
        Some(s) => {
            out.append("-specialisation-");
            out.append(s.as_str());
        },
        None => {},
    }
    out.append(".efi");
    out
}

/// The fixed set of destination paths under an ESP root for one
/// generation. Every field is a pure function of the ESP root and the
/// generation snapshot, fixed at construction and never mutated.
#[derive(Debug)]
pub struct EspPaths {
    pub esp: String,
    pub nixos: String,
    pub kernel: String,
    pub initrd: String,
    pub linux: String,
    pub lanzaboote_image: String,
    pub efi_fallback_dir: String,
    pub efi_fallback: String,
    pub systemd: String,
    pub systemd_boot: String,
}

/// Mathematical image of `EspPaths`.
pub struct EspPathsView {
    pub esp: Seq<char>,
    pub nixos: Seq<char>,
    pub kernel: Seq<char>,
    pub initrd: Seq<char>,
    pub linux: Seq<char>,
    pub lanzaboote_image: Seq<char>,
    pub efi_fallback_dir: Seq<char>,
    pub efi_fallback: Seq<char>,
    pub systemd: Seq<char>,
    pub systemd_boot: Seq<char>,
}

impl View for EspPaths {
    type V = EspPathsView;

    open spec fn view(&self) -> EspPathsView {
        EspPathsView {
            esp: self.esp@,
            nixos: self.nixos@,
            kernel: self.kernel@,
            initrd: self.initrd@,
            linux: self.linux@,
            lanzaboote_image: self.lanzaboote_image@,
            efi_fallback_dir: self.efi_fallback_dir@,
            efi_fallback: self.efi_fallback@,
            systemd: self.systemd@,
            systemd_boot: self.systemd_boot@,
        }
    }
}

/// What `EspPaths::new` returns for each ESP root and generation snapshot.
/// Failures are checked in a fixed order: the architecture identifier
/// first, then the kernel path, then the presence of an initrd, then the
/// initrd path.
pub open spec fn spec_esp_paths(esp: Seq<char>, g: GenerationView) -> Result<
    EspPathsView,
    EspErrorView,
> {
    match spec_arch_of(g.bootspec.system) {
        None => Err(
            EspErrorView::Configuration(
                ConfigurationErrorView::UnrecognizedArchitecture(g.bootspec.system),
            ),
        ),
        Some(arch) => match spec_nixos_path(
            g.bootspec.kernel,
            g.bootspec.kernel_link_target,
            "bzImage"@,
        ) {
            Err(pe) => Err(EspErrorView::Path(pe)),
            Ok(kernel_name) => match g.bootspec.initrd {
                None => Err(EspErrorView::Configuration(ConfigurationErrorView::MissingInitrd)),
                Some(initrd_path) => match spec_nixos_path(
                    initrd_path,
                    g.bootspec.initrd_link_target,
                    "initrd"@,
                ) {
                    Err(pe) => Err(EspErrorView::Path(pe)),
                    Ok(initrd_name) => Ok(
                        EspPathsView {
                            esp: esp,
                            nixos: spec_join(esp, "EFI/nixos"@),
                            kernel: spec_join(spec_join(esp, "EFI/nixos"@), kernel_name),
                            initrd: spec_join(spec_join(esp, "EFI/nixos"@), initrd_name),
                            linux: spec_join(esp, "EFI/Linux"@),
                            lanzaboote_image: spec_join(
                                spec_join(esp, "EFI/Linux"@),
                                spec_generation_path(g.version, g.specialisation_name),
                            ),
                            efi_fallback_dir: spec_join(esp, "EFI/BOOT"@),
                            efi_fallback: spec_join(
                                spec_join(esp, "EFI/BOOT"@),
                                spec_fallback_filename(arch),
                            ),
                            systemd: spec_join(esp, "EFI/systemd"@),
                            systemd_boot: spec_join(
                                spec_join(esp, "EFI/systemd"@),
                                spec_systemd_filename(arch),
                            ),
                        },
                    ),
                },
            },
        },
    }
}

/// Borrow the string inside an optional owned string.
fn opt_as_str(o: &Option<String>) -> (r: Option<&str>)
    ensures
        opt_str_view(r) == opt_string_view(o),
{
    match o {
        Some(s) => Some(s.as_str()),
        None => None,
    }
}

impl EspPaths {
    /// Compute the full set of destination paths for one generation, in one
    /// pass and without touching the filesystem.
    pub fn new(esp: &str, generation: &Generation) -> (r: Result<EspPaths, EspError>)
        ensures
            match r {
                Ok(p) => spec_esp_paths(esp@, generation@) == Ok::<EspPathsView, EspErrorView>(p@),
                Err(e) => spec_esp_paths(esp@, generation@) == Err::<EspPathsView, EspErrorView>(
                    e@,
                ),
            },
    {
        let esp_nixos = crate::strutil::join(esp, "EFI/nixos");
        let esp_linux = crate::strutil::join(esp, "EFI/Linux");
        let esp_systemd = crate::strutil::join(esp, "EFI/systemd");
        let esp_efi_fallback_dir = crate::strutil::join(esp, "EFI/BOOT");

        let arch = match EfiFallback::from_system_double(generation.bootspec.system.as_str()) {
            Ok(f) => f,
            Err(e) => {
                return Err(EspError::Configuration(e));
            },
        };
        let kernel_name = match nixos_path(
            generation.bootspec.kernel.as_str(),
            opt_as_str(&generation.bootspec.kernel_link_target),
            "bzImage",
        ) {
            Ok(s) => s,
            Err(e) => {
                return Err(EspError::Path(e));
            },
        };
        let initrd = match &generation.bootspec.initrd {
            Some(p) => p,
            None => {
                return Err(EspError::Configuration(ConfigurationError::MissingInitrd));
            },
        };
        let initrd_name = match nixos_path(
            initrd.as_str(),
            opt_as_str(&generation.bootspec.initrd_link_target),
            "initrd",
        ) {
            Ok(s) => s,
            Err(e) => {
                return Err(EspError::Path(e));
            },
        };
        let stub_name = generation_path(generation);

        Ok(
            EspPaths {
                esp: esp.to_owned(),
                nixos: esp_nixos.clone(),
                kernel: crate::strutil::join(esp_nixos.as_str(), kernel_name.as_str()),
                initrd: crate::strutil::join(esp_nixos.as_str(), initrd_name.as_str()),
                linux: esp_linux.clone(),
                lanzaboote_image: crate::strutil::join(esp_linux.as_str(), stub_name.as_str()),
                efi_fallback_dir: esp_efi_fallback_dir.clone(),
                efi_fallback: crate::strutil::join(esp_efi_fallback_dir.as_str(), arch.as_str()),
                systemd: esp_systemd.clone(),
                systemd_boot: crate::strutil::join(
                    esp_systemd.as_str(),
                    arch.as_systemd_filename(),
                ),
            },
        )
    }
}

/// Law: layout construction is idempotent. Identical inputs yield
/// identical paths, success or failure.
pub proof fn lemma_esp_paths_idempotent(
    esp: Seq<char>,
    g: GenerationView,
    r1: Result<EspPathsView, EspErrorView>,
    r2: Result<EspPathsView, EspErrorView>,
)
    requires
        r1 == spec_esp_paths(esp, g),
        r2 == spec_esp_paths(esp, g),
    ensures
        r1 == r2,
{
}

} // verus!
