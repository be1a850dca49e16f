//! The settings aggregate: package types, build artifacts, the sparse
//! user-declared bundle settings, the project metadata they are resolved
//! against, and the read-only queries the packaging backends consume.

use vstd::prelude::*;
use vstd::string::StrSliceExecFns;
use vstd::string::StringExecFns;
use crate::category::AppCategory;
use crate::error::BundleError;
use crate::resolver::{ResolverPhase, ResourcePaths};
use crate::strutil::{clone_strings, concat_str, path_join, str_eq};

verus! {

/// A native packaging format.
#[derive(Clone, Copy, Debug, Eq, PartialEq, Structural)]
pub enum PackageType {
    OsxBundle,
    WindowsMsi,
    Deb,
}

/// The short command-line token of a package type.
pub open spec fn spec_short_name(t: PackageType) -> Seq<char> {
    match t {
        PackageType::Deb => "deb"@,
        PackageType::WindowsMsi => "msi"@,
        PackageType::OsxBundle => "osx"@,
    }
}

/// The package type a short token names, if any.
pub open spec fn spec_from_short_name(s: Seq<char>) -> Option<PackageType> {
    if s == "deb"@ {
        Some(PackageType::Deb)
    } else if s == "msi"@ {
        Some(PackageType::WindowsMsi)
    } else if s == "osx"@ {
        Some(PackageType::OsxBundle)
    } else {
        None
    }
}

impl PackageType {
    /// The package type a short token names, if any.
    pub fn from_short_name(name: &str) -> (r: Option<PackageType>)
        ensures
            r == spec_from_short_name(name@),
    {
        if str_eq(name, "deb") {
            Some(PackageType::Deb)
        } else if str_eq(name, "msi") {
            Some(PackageType::WindowsMsi)
        } else if str_eq(name, "osx") {
            Some(PackageType::OsxBundle)
        } else {
            None
        }
    }

    /// The short token of this package type.
    pub fn short_name(&self) -> (r: &'static str)
        ensures
            r@ == spec_short_name(*self),
    {
        match *self {
            PackageType::Deb => "deb",
            PackageType::WindowsMsi => "msi",
            PackageType::OsxBundle => "osx",
        }
    }

    /// Every defined package type, in its fixed order.
    pub fn all() -> (r: Vec<PackageType>)
        ensures
            r@ == seq![PackageType::Deb, PackageType::WindowsMsi, PackageType::OsxBundle],
    {
        let mut v: Vec<PackageType> = Vec::new();
        v.push(PackageType::Deb);
        v.push(PackageType::WindowsMsi);
        v.push(PackageType::OsxBundle);
        proof {
            assert(v@ =~= seq![
                PackageType::Deb,
                PackageType::WindowsMsi,
                PackageType::OsxBundle,
            ]);
        }
        v
    }
}

/// Round trip: the short token of a package type names that package
/// type again.  Together with `lemma_short_name_complete` this makes
/// the short-name mapping a bijection over the defined variants.
pub proof fn lemma_short_name_round_trip(t: PackageType)
    ensures
        spec_from_short_name(spec_short_name(t)) == Some(t),
{
    reveal_strlit("deb");
    reveal_strlit("msi");
    reveal_strlit("osx");
    assert("deb"@[0] == 'd');
    assert("msi"@[0] == 'm');
    assert("osx"@[0] == 'o');
    match t {
        PackageType::Deb => {
            assert(spec_from_short_name("deb"@) == Some(PackageType::Deb));
        },
        PackageType::WindowsMsi => {
            assert("msi"@ != "deb"@);
            assert(spec_from_short_name("msi"@) == Some(PackageType::WindowsMsi));
        },
        PackageType::OsxBundle => {
            assert("osx"@ != "deb"@);
            assert("osx"@ != "msi"@);
            assert(spec_from_short_name("osx"@) == Some(PackageType::OsxBundle));
        },
    }
}

/// Round trip, the other way: a short token that names a package type
/// is that package type's short token.
pub proof fn lemma_short_name_complete(s: Seq<char>)
    ensures
        spec_from_short_name(s) matches Some(t) ==> spec_short_name(t) == s,
{
}

/// Which compiled artifact is bundled: the project's main binary, or a
/// named secondary binary target.
#[derive(Clone, Debug, PartialEq, Eq)]
pub enum BuildArtifact {
    Main,
    Bin(String),
}

/// The sparse, user-declared bundle metadata.  Every field is optional:
/// an absent field means "fall back to a build-system-derived default",
/// never "empty".
#[derive(Clone, Debug)]
pub struct BundleSettings {
    pub name: Option<String>,
    pub identifier: Option<String>,
    pub icon: Option<Vec<String>>,
    pub version: Option<String>,
    pub resources: Option<Vec<String>>,
    pub copyright: Option<String>,
    pub category: Option<AppCategory>,
    pub short_description: Option<String>,
    pub long_description: Option<String>,
    pub linux_mime_types: Option<Vec<String>>,
    pub linux_exec_args: Option<String>,
    pub linux_use_terminal: Option<bool>,
    pub deb_depends: Option<Vec<String>>,
    pub osx_frameworks: Option<Vec<String>>,
    pub osx_minimum_system_version: Option<String>,
    pub osx_url_schemes: Option<Vec<String>>,
}

/// One package of the workspace, as the build system's metadata query
/// reports it, with its optional bundle-metadata section already
/// deserialized.
#[derive(Clone, Debug)]
pub struct PackageInfo {
    pub name: String,
    pub version: String,
    pub authors: Vec<String>,
    pub homepage: Option<String>,
    pub description: Option<String>,
    pub bundle: Option<BundleSettings>,
}

/// The workspace, as the build system's metadata query reports it: its
/// member packages and the index of the root package, when one exists.
#[derive(Clone, Debug)]
pub struct WorkspaceInfo {
    pub members: Vec<PackageInfo>,
    pub root: Option<usize>,
}

impl WorkspaceInfo {
    /// The root index, when present, names a member.
    pub open spec fn wf(self) -> bool {
        match self.root {
            Some(i) => i < self.members.len(),
            None => true,
        }
    }
}

/// The target platform of a cross-compiled bundle: the target triple
/// and the operating-system name the triple resolves to.
#[derive(Clone, Debug)]
pub struct TargetPlatform {
    pub triple: String,
    pub os: String,
}

/// The view of an optional string.
pub open spec fn view_opt(o: Option<String>) -> Option<Seq<char>> {
    match o {
        Some(s) => Some(s@),
        None => None,
    }
}

/// The index of the first workspace member, at or after `i`, that
/// declares a bundle-metadata section.
pub open spec fn first_bundle_index(members: Seq<PackageInfo>, i: int) -> Option<int>
    decreases members.len() - i,
{
    if i < 0 || i >= members.len() {
        None
    } else if members[i].bundle is Some {
        Some(i)
    } else {
        first_bundle_index(members, i + 1)
    }
}

/// When none of the first `i` members declares a bundle section, the
/// scan of the whole list equals the scan from `i` on.
proof fn lemma_first_bundle_prefix(members: Seq<PackageInfo>, i: int)
    requires
        0 <= i <= members.len(),
        forall|j: int| 0 <= j < i ==> (#[trigger] members[j].bundle) is None,
    ensures
        first_bundle_index(members, 0) == first_bundle_index(members, i),
    decreases i,
{
    if i > 0 {
        lemma_first_bundle_prefix(members, i - 1);
    }
}

/// The member the settings are resolved against: the first member with
/// a bundle section, else the workspace's root package, else none.
pub open spec fn spec_selected_package(ws: WorkspaceInfo) -> Option<int> {
    match first_bundle_index(ws.members@, 0) {
        Some(j) => Some(j),
        None => match ws.root {
            Some(i) => Some(i as int),
            None => None,
        },
    }
}

/// The bundle settings with every field absent.
pub open spec fn spec_default_bundle() -> BundleSettings {
    BundleSettings {
        name: None,
        identifier: None,
        icon: None,
        version: None,
        resources: None,
        copyright: None,
        category: None,
        short_description: None,
        long_description: None,
        linux_mime_types: None,
        linux_exec_args: None,
        linux_use_terminal: None,
        deb_depends: None,
        osx_frameworks: None,
        osx_minimum_system_version: None,
        osx_url_schemes: None,
    }
}

/// The output directory: the build system's artifact directory when the
/// query succeeded, else the conventional `target` directory under the
/// project, nested under the target triple when cross-compiling, then
/// under the build profile.
pub open spec fn spec_target_dir(
    project_dir: Seq<char>,
    cargo_target_dir: Option<Seq<char>>,
    triple: Option<Seq<char>>,
    profile: Seq<char>,
) -> Seq<char> {
    let base = match cargo_target_dir {
        Some(d) => d,
        None => project_dir + "/"@ + "target"@,
    };
    let with_triple = match triple {
        Some(t) => base + "/"@ + t,
        None => base,
    };
    with_triple + "/"@ + profile
}

/// The aggregate root: the resolved, immutable settings of one bundling
/// invocation.
#[derive(Clone, Debug)]
pub struct Settings {
    package: PackageInfo,
    package_type: Option<PackageType>,
    target: Option<TargetPlatform>,
    features: Option<String>,
    project_out_directory: String,
    build_artifact: BuildArtifact,
    profile: String,
    binary_path: String,
    binary_name: String,
    bundle_settings: BundleSettings,
    host_os: String,
    host_arch: String,
}

impl Settings {
    /// The resolved package's name.
    pub closed spec fn spec_package_name(self) -> Seq<char> {
        self.package.name@
    }

    /// The resolved package's version string.
    pub closed spec fn spec_package_version(self) -> Seq<char> {
        self.package.version@
    }

    /// The resolved package's authors.
    pub closed spec fn spec_authors(self) -> Seq<Seq<char>> {
        self.package.authors.deep_view()
    }

    /// The resolved package's home page, if declared.
    pub closed spec fn spec_homepage(self) -> Option<Seq<char>> {
        view_opt(self.package.homepage)
    }

    /// The resolved package's description, if declared.
    pub closed spec fn spec_package_description(self) -> Option<Seq<char>> {
        view_opt(self.package.description)
    }

    /// The explicit package-type override, if one was requested.
    pub closed spec fn spec_package_type(self) -> Option<PackageType> {
        self.package_type
    }

    /// The target triple, when cross-compiling.
    pub closed spec fn spec_target_triple(self) -> Option<Seq<char>> {
        match self.target {
            Some(t) => Some(t.triple@),
            None => None,
        }
    }

    /// The target operating system, when cross-compiling.
    pub closed spec fn spec_target_os(self) -> Option<Seq<char>> {
        match self.target {
            Some(t) => Some(t.os@),
            None => None,
        }
    }

    /// The feature-flag string, if one was requested.
    pub closed spec fn spec_features(self) -> Option<Seq<char>> {
        view_opt(self.features)
    }

    /// The resolved output directory.
    pub closed spec fn spec_out_dir(self) -> Seq<char> {
        self.project_out_directory@
    }

    /// The artifact being bundled.
    pub closed spec fn spec_build_artifact(self) -> BuildArtifact {
        self.build_artifact
    }

    /// The build profile name.
    pub closed spec fn spec_profile(self) -> Seq<char> {
        self.profile@
    }

    /// The resolved path of the binary being bundled.
    pub closed spec fn spec_binary_path(self) -> Seq<char> {
        self.binary_path@
    }

    /// The file name of the binary being bundled.
    pub closed spec fn spec_binary_name(self) -> Seq<char> {
        self.binary_name@
    }

    /// The user-declared bundle settings.
    pub closed spec fn spec_bundle(self) -> BundleSettings {
        self.bundle_settings
    }

    /// The host operating-system name.
    pub closed spec fn spec_host_os(self) -> Seq<char> {
        self.host_os@
    }

    /// The host architecture name.
    pub closed spec fn spec_host_arch(self) -> Seq<char> {
        self.host_arch@
    }

    /// The operating system the bundle targets: the cross-compilation
    /// target's, else the host's.
    pub open spec fn spec_effective_os(self) -> Seq<char> {
        match self.spec_target_os() {
            Some(os) => os,
            None => self.spec_host_os(),
        }
    }

    /// Scans the workspace members, in order, for one carrying a
    /// bundle-metadata section.  Returns that member's index and
    /// `false`; or, when none declares one, the root package's index
    /// and `true` (the caller warns and falls back to default bundle
    /// settings); or a configuration error when no root package can be
    /// identified at all.
    pub fn find_bundle_package(ws: &WorkspaceInfo) -> (r: Result<(usize, bool), BundleError>)
        requires
            ws.wf(),
        ensures
            (match first_bundle_index(ws.members@, 0) {
                Some(j) => r matches Ok(p) && p.0 == j && p.1 == false,
                None => match ws.root {
                    Some(i) => r matches Ok(p) && p.0 == i && p.1 == true,
                    None => r matches Err(e) && e matches BundleError::Config(m) && m@
                        == "unable to find root package"@,
                },
            }),
            r matches Ok(p) ==> p.0 < ws.members@.len(),
    {
        let n = ws.members.len();
        let mut i: usize = 0;
        while i < n
            invariant
                i <= n,
                n == ws.members@.len(),
                forall|j: int| 0 <= j < i ==> (#[trigger] ws.members@[j].bundle) is None,
            decreases n - i,
        {
            if ws.members[i].bundle.is_some() {
                proof {
                    lemma_first_bundle_prefix(ws.members@, i as int);
                }
                return Ok((i, false));
            }
            i = i + 1;
        }
        proof {
            lemma_first_bundle_prefix(ws.members@, n as int);
        }
        match ws.root {
            Some(root) => Ok((root, true)),
            None => Err(BundleError::Config("unable to find root package".to_owned())),
        }
    }

    /// Computes the output directory from the build system's artifact
    /// directory query, the project directory, the optional target
    /// triple and the build profile.
    fn get_target_dir(
        project_dir: &str,
        cargo_target_dir: Option<String>,
        target: &Option<TargetPlatform>,
        profile: &str,
    ) -> (r: String)
        ensures
            r@ == spec_target_dir(
                project_dir@,
                view_opt(cargo_target_dir),
                match *target {
                    Some(t) => Some(t.triple@),
                    None => None,
                },
                profile@,
            ),
    {
        let base = match cargo_target_dir {
            Some(d) => d,
            None => path_join(project_dir, "target"),
        };
        let with_triple = match target {
            Some(t) => path_join(base.as_str(), t.triple.as_str()),
            None => base,
        };
        path_join(with_triple.as_str(), profile)
    }

    /// Assembles the settings of one bundling invocation from the
    /// resolved build facts.  The caller has already triggered the
    /// release build, read the workspace metadata and determined the
    /// binary name; this constructor selects the bundle package,
    /// resolves the output directory and computes the binary path.
    /// Fails exactly when the workspace has neither a member with a
    /// bundle section nor an identifiable root package.
    pub fn new(
        current_dir: &str,
        host_os: String,
        host_arch: String,
        binary_name: String,
        cargo_target_dir: Option<String>,
        package_type: Option<PackageType>,
        target: Option<TargetPlatform>,
        features: Option<String>,
        workspace: WorkspaceInfo,
    ) -> (r: Result<Settings, BundleError>)
        requires
            workspace.wf(),
        ensures
            r is Ok <==> spec_selected_package(workspace) is Some,
            r matches Err(e) ==> e matches BundleError::Config(m) && m@
                == "unable to find root package"@,
            r matches Ok(s) ==> spec_selected_package(workspace) matches Some(j) && {
                let pkg = workspace.members@[j];
                &&& s.spec_package_name() == pkg.name@
                &&& s.spec_package_version() == pkg.version@
                &&& s.spec_authors() == pkg.authors.deep_view()
                &&& s.spec_homepage() == view_opt(pkg.homepage)
                &&& s.spec_package_description() == view_opt(pkg.description)
                &&& (match pkg.bundle {
                    Some(b) => s.spec_bundle() == b,
                    None => s.spec_bundle() == spec_default_bundle(),
                })
                &&& s.spec_out_dir() == spec_target_dir(
                    current_dir@,
                    view_opt(cargo_target_dir),
                    match target {
                        Some(t) => Some(t.triple@),
                        None => None,
                    },
                    "release"@,
                )
                &&& s.spec_binary_path() == s.spec_out_dir() + "/"@ + binary_name@
                &&& s.spec_binary_name() == binary_name@
                &&& s.spec_profile() == "release"@
                &&& s.spec_package_type() == package_type
                &&& s.spec_target_triple() == (match target {
                    Some(t) => Some(t.triple@),
                    None => None,
                })
                &&& s.spec_target_os() == (match target {
                    Some(t) => Some(t.os@),
                    None => None,
                })
                &&& s.spec_features() == view_opt(features)
                &&& s.spec_build_artifact() == BuildArtifact::Main
                &&& s.spec_host_os() == host_os@
                &&& s.spec_host_arch() == host_arch@
            },
    {
        let sel: usize = match Self::find_bundle_package(&workspace) {
            Ok((i, _)) => i,
            Err(e) => {
                return Err(e);
            },
        };
        let mut members = workspace.members;
        let package = members.remove(sel);
        let PackageInfo { name, version, authors, homepage, description, bundle } = package;
        let bundle_settings = match bundle {
            Some(b) => b,
            None => BundleSettings::default(),
        };
        let target_dir = Self::get_target_dir(current_dir, cargo_target_dir, &target, "release");
        let binary_path = path_join(target_dir.as_str(), binary_name.as_str());
        Ok(
            Settings {
                package: PackageInfo { name, version, authors, homepage, description, bundle: None },
                package_type,
                target,
                features,
                project_out_directory: target_dir,
                build_artifact: BuildArtifact::Main,
                profile: "release".to_owned(),
                binary_path,
                binary_name,
                bundle_settings,
                host_os,
                host_arch,
            },
        )
    }

    /// The directory where the bundle is placed.
    pub fn project_out_directory(&self) -> (r: &str)
        ensures
            r@ == self.spec_out_dir(),
    {
        self.project_out_directory.as_str()
    }

    /// The architecture the binary is built for.
    pub fn binary_arch(&self) -> (r: &str)
        ensures
            r@ == self.spec_host_arch(),
    {
        self.host_arch.as_str()
    }

    /// The file name of the binary being bundled.
    pub fn binary_name(&self) -> (r: &str)
        ensures
            r@ == self.spec_binary_name(),
    {
        self.binary_name.as_str()
    }

    /// The path to the binary being bundled.
    pub fn binary_path(&self) -> (r: &str)
        ensures
            r@ == self.spec_binary_path(),
    {
        self.binary_path.as_str()
    }

    /// The package types to produce: the explicit override when one was
    /// requested; otherwise the native package type of the effective
    /// operating system.  Fails, and never returns an empty list, when
    /// that operating system has no native package type.
    pub fn package_types(&self) -> (r: Result<Vec<PackageType>, BundleError>)
        ensures
            self.spec_package_type() matches Some(t) ==> r matches Ok(v) && v@ == seq![t],
            self.spec_package_type() is None ==> ({
                let os = self.spec_effective_os();
                &&& os == "macos"@ ==> (r matches Ok(v) && v@ == seq![PackageType::OsxBundle])
                &&& os == "linux"@ ==> (r matches Ok(v) && v@ == seq![PackageType::Deb])
                &&& os == "windows"@ ==> (r matches Ok(v) && v@ == seq![
                    PackageType::WindowsMsi,
                ])
                &&& (os != "macos"@ && os != "linux"@ && os != "windows"@) ==> (r matches Err(
                    e,
                ) && e matches BundleError::UnsupportedOs(m) && m@ == os)
            }),
            r matches Ok(v) ==> v@.len() == 1,
            r is Err <==> self.spec_package_type() is None && self.spec_effective_os()
                != "macos"@ && self.spec_effective_os() != "linux"@ && self.spec_effective_os()
                != "windows"@,
    {
        proof {
            reveal_strlit("macos");
            reveal_strlit("linux");
            reveal_strlit("windows");
            assert("macos"@[0] == 'm');
            assert("linux"@[0] == 'l');
            assert("windows"@[0] == 'w');
            assert("macos"@ != "linux"@);
            assert("macos"@ != "windows"@);
            assert("linux"@ != "windows"@);
        }
        match self.package_type {
            Some(t) => {
                let mut v: Vec<PackageType> = Vec::new();
                v.push(t);
                proof {
                    assert(v@ =~= seq![t]);
                }
                Ok(v)
            },
            None => {
                let os: &str = match &self.target {
                    Some(t) => t.os.as_str(),
                    None => self.host_os.as_str(),
                };
                if str_eq(os, "macos") {
                    let mut v: Vec<PackageType> = Vec::new();
                    v.push(PackageType::OsxBundle);
                    proof {
                        assert(v@ =~= seq![PackageType::OsxBundle]);
                    }
                    Ok(v)
                } else if str_eq(os, "linux") {
                    let mut v: Vec<PackageType> = Vec::new();
                    v.push(PackageType::Deb);
                    proof {
                        assert(v@ =~= seq![PackageType::Deb]);
                    }
                    Ok(v)
                } else if str_eq(os, "windows") {
                    let mut v: Vec<PackageType> = Vec::new();
                    v.push(PackageType::WindowsMsi);
                    proof {
                        assert(v@ =~= seq![PackageType::WindowsMsi]);
                    }
                    Ok(v)
                } else {
                    Err(BundleError::UnsupportedOs(os.to_owned()))
                }
            },
        }
    }

    /// The target triple, when cross-compiling; `None` when the bundle
    /// targets the host environment.
    pub fn target_triple(&self) -> (r: Option<&str>)
        ensures
            r is Some <==> self.spec_target_triple() is Some,
            r matches Some(s) ==> self.spec_target_triple() matches Some(t) && s@ == t,
    {
        match &self.target {
            Some(t) => Some(t.triple.as_str()),
            None => None,
        }
    }

    /// The feature-flag string, if one was requested.
    pub fn features(&self) -> (r: Option<&str>)
        ensures
            r is Some <==> self.spec_features() is Some,
            r matches Some(s) ==> self.spec_features() matches Some(t) && s@ == t,
    {
        match &self.features {
            Some(f) => Some(f.as_str()),
            None => None,
        }
    }

    /// The artifact being bundled.
    pub fn build_artifact(&self) -> (r: &BuildArtifact)
        ensures
            *r == self.spec_build_artifact(),
    {
        &self.build_artifact
    }

    /// The build profile name.
    pub fn build_profile(&self) -> (r: &str)
        ensures
            r@ == self.spec_profile(),
    {
        self.profile.as_str()
    }

    /// The bundle's name: the user-declared name, else the package name.
    pub fn bundle_name(&self) -> (r: &str)
        ensures
            r@ == (match self.spec_bundle().name {
                Some(n) => n@,
                None => self.spec_package_name(),
            }),
    {
        match &self.bundle_settings.name {
            Some(n) => n.as_str(),
            None => self.package.name.as_str(),
        }
    }

    /// The bundle's identifier: the user-declared identifier; else, for
    /// a named secondary binary, `<bin-name>.<package-name>`; else the
    /// empty string for the main artifact.
    pub fn bundle_identifier(&self) -> (r: String)
        ensures
            r@ == (match self.spec_bundle().identifier {
                Some(id) => id@,
                None => match self.spec_build_artifact() {
                    BuildArtifact::Main => Seq::<char>::empty(),
                    BuildArtifact::Bin(name) => name@ + "."@ + self.spec_package_name(),
                },
            }),
    {
        match &self.bundle_settings.identifier {
            Some(id) => id.clone(),
            None => match &self.build_artifact {
                BuildArtifact::Main => String::new(),
                BuildArtifact::Bin(name) => {
                    let head = concat_str(name.as_str(), ".");
                    concat_str(head.as_str(), self.package.name.as_str())
                },
            },
        }
    }

    /// A cursor over the declared icon patterns; icons never recurse
    /// into matched directories.
    pub fn icon_files(&self) -> (r: ResourcePaths)
        ensures
            r.patterns() == (match self.spec_bundle().icon {
                Some(v) => v.deep_view(),
                None => Seq::<Seq<char>>::empty(),
            }),
            r.allow_walk() == false,
            r.idx() == 0,
            r.phase() is Patterns,
            r.wf(),
    {
        let patterns: Vec<String> = match &self.bundle_settings.icon {
            Some(v) => clone_strings(v),
            None => Vec::new(),
        };
        proof {
            match self.spec_bundle().icon {
                Some(v) => {
                    assert(patterns.deep_view() =~= v.deep_view());
                },
                None => {
                    assert(patterns.deep_view() =~= Seq::<Seq<char>>::empty());
                },
            }
        }
        ResourcePaths::new(patterns, false)
    }

    /// A cursor over the declared resource patterns; resources may
    /// recurse into matched directories.
    pub fn resource_files(&self) -> (r: ResourcePaths)
        ensures
            r.patterns() == (match self.spec_bundle().resources {
                Some(v) => v.deep_view(),
                None => Seq::<Seq<char>>::empty(),
            }),
            r.allow_walk() == true,
            r.idx() == 0,
            r.phase() is Patterns,
            r.wf(),
    {
        let patterns: Vec<String> = match &self.bundle_settings.resources {
            Some(v) => clone_strings(v),
            None => Vec::new(),
        };
        proof {
            match self.spec_bundle().resources {
                Some(v) => {
                    assert(patterns.deep_view() =~= v.deep_view());
                },
                None => {
                    assert(patterns.deep_view() =~= Seq::<Seq<char>>::empty());
                },
            }
        }
        ResourcePaths::new(patterns, true)
    }

    /// The bundle's version: the user-declared version, else the
    /// package version.
    pub fn version_string(&self) -> (r: &str)
        ensures
            r@ == (match self.spec_bundle().version {
                Some(v) => v@,
                None => self.spec_package_version(),
            }),
    {
        match &self.bundle_settings.version {
            Some(v) => v.as_str(),
            None => self.package.version.as_str(),
        }
    }

    /// The declared copyright notice, if any.
    pub fn copyright_string(&self) -> (r: Option<&str>)
        ensures
            r is Some <==> self.spec_bundle().copyright is Some,
            r matches Some(s) ==> self.spec_bundle().copyright matches Some(c) && s@ == c@,
    {
        match &self.bundle_settings.copyright {
            Some(c) => Some(c.as_str()),
            None => None,
        }
    }

    /// The package's authors.
    pub fn author_names(&self) -> (r: &Vec<String>)
        ensures
            r.deep_view() == self.spec_authors(),
    {
        &self.package.authors
    }

    /// The authors joined with `", "`, or `None` when there are none.
    pub fn authors_comma_separated(&self) -> (r: Option<String>)
        ensures
            r is None <==> self.spec_authors().len() == 0,
            r matches Some(s) ==> s@ == spec_comma_join(self.spec_authors()),
    {
        let n = self.package.authors.len();
        if n == 0 {
            return None;
        }
        let mut s: String = self.package.authors[0].clone();
        proof {
            assert(self.spec_authors().subrange(0, 1)[0] == self.spec_authors()[0]);
            assert(s@ == spec_comma_join(self.spec_authors().subrange(0, 1)));
        }
        let mut i: usize = 1;
        while i < n
            invariant
                1 <= i <= n,
                n == self.package.authors@.len(),
                self.spec_authors().len() == n,
                s@ == spec_comma_join(self.spec_authors().subrange(0, i as int)),
            decreases n - i,
        {
            s.append(", ");
            s.append(self.package.authors[i].as_str());
            i = i + 1;
            proof {
                let a = self.spec_authors();
                let t = a.subrange(0, i as int);
                assert(t.drop_last() =~= a.subrange(0, i - 1));
                assert(t.last() == a[i - 1]);
            }
        }
        proof {
            assert(self.spec_authors().subrange(0, n as int) =~= self.spec_authors());
        }
        Some(s)
    }

    /// The declared home page, else the empty string.
    pub fn homepage_url(&self) -> (r: &str)
        ensures
            r@ == (match self.spec_homepage() {
                Some(h) => h,
                None => Seq::<char>::empty(),
            }),
    {
        proof {
            reveal_strlit("");
            assert(""@ =~= Seq::<char>::empty());
        }
        match &self.package.homepage {
            Some(h) => h.as_str(),
            None => "",
        }
    }

    /// The already-classified application category, if one was declared.
    pub fn app_category(&self) -> (r: Option<AppCategory>)
        ensures
            r == self.spec_bundle().category,
    {
        self.bundle_settings.category
    }

    /// The short description: the user-declared one, else the package
    /// description, else the empty string.
    pub fn short_description(&self) -> (r: &str)
        ensures
            r@ == (match self.spec_bundle().short_description {
                Some(d) => d@,
                None => match self.spec_package_description() {
                    Some(d) => d,
                    None => Seq::<char>::empty(),
                },
            }),
    {
        proof {
            reveal_strlit("");
            assert(""@ =~= Seq::<char>::empty());
        }
        match &self.bundle_settings.short_description {
            Some(d) => d.as_str(),
            None => match &self.package.description {
                Some(d) => d.as_str(),
                None => "",
            },
        }
    }

    /// The declared long description, if any.
    pub fn long_description(&self) -> (r: Option<&str>)
        ensures
            r is Some <==> self.spec_bundle().long_description is Some,
            r matches Some(s) ==> self.spec_bundle().long_description matches Some(d) && s@
                == d@,
    {
        match &self.bundle_settings.long_description {
            Some(d) => Some(d.as_str()),
            None => None,
        }
    }

    /// The declared Debian package dependencies, or none.
    pub fn debian_dependencies(&self) -> (r: Vec<String>)
        ensures
            r.deep_view() == (match self.spec_bundle().deb_depends {
                Some(v) => v.deep_view(),
                None => Seq::<Seq<char>>::empty(),
            }),
    {
        match &self.bundle_settings.deb_depends {
            Some(v) => {
                let r = clone_strings(v);
                proof {
                    assert(r.deep_view() =~= v.deep_view());
                }
                r
            },
            None => {
                let r: Vec<String> = Vec::new();
                proof {
                    assert(r.deep_view() =~= Seq::<Seq<char>>::empty());
                }
                r
            },
        }
    }

    /// The declared Linux MIME types, or none.
    pub fn linux_mime_types(&self) -> (r: Vec<String>)
        ensures
            r.deep_view() == (match self.spec_bundle().linux_mime_types {
                Some(v) => v.deep_view(),
                None => Seq::<Seq<char>>::empty(),
            }),
    {
        match &self.bundle_settings.linux_mime_types {
            Some(v) => {
                let r = clone_strings(v);
                proof {
                    assert(r.deep_view() =~= v.deep_view());
                }
                r
            },
            None => {
                let r: Vec<String> = Vec::new();
                proof {
                    assert(r.deep_view() =~= Seq::<Seq<char>>::empty());
                }
                r
            },
        }
    }

    /// Whether the Linux desktop entry asks for a terminal.
    pub fn linux_use_terminal(&self) -> (r: Option<bool>)
        ensures
            r == self.spec_bundle().linux_use_terminal,
    {
        self.bundle_settings.linux_use_terminal
    }

    /// The declared extra arguments of the Linux desktop entry, if any.
    pub fn linux_exec_args(&self) -> (r: Option<&str>)
        ensures
            r is Some <==> self.spec_bundle().linux_exec_args is Some,
            r matches Some(s) ==> self.spec_bundle().linux_exec_args matches Some(a) && s@
                == a@,
    {
        match &self.bundle_settings.linux_exec_args {
            Some(a) => Some(a.as_str()),
            None => None,
        }
    }

    /// The declared macOS frameworks, or none.
    pub fn osx_frameworks(&self) -> (r: Vec<String>)
        ensures
            r.deep_view() == (match self.spec_bundle().osx_frameworks {
                Some(v) => v.deep_view(),
                None => Seq::<Seq<char>>::empty(),
            }),
    {
        match &self.bundle_settings.osx_frameworks {
            Some(v) => {
                let r = clone_strings(v);
                proof {
                    assert(r.deep_view() =~= v.deep_view());
                }
                r
            },
            None => {
                let r: Vec<String> = Vec::new();
                proof {
                    assert(r.deep_view() =~= Seq::<Seq<char>>::empty());
                }
                r
            },
        }
    }

    /// The declared minimum macOS version, if any.
    pub fn osx_minimum_system_version(&self) -> (r: Option<&str>)
        ensures
            r is Some <==> self.spec_bundle().osx_minimum_system_version is Some,
            r matches Some(s) ==> self.spec_bundle().osx_minimum_system_version matches Some(
                v,
            ) && s@ == v@,
    {
        match &self.bundle_settings.osx_minimum_system_version {
            Some(v) => Some(v.as_str()),
            None => None,
        }
    }

    /// The declared macOS URL schemes, or none.
    pub fn osx_url_schemes(&self) -> (r: Vec<String>)
        ensures
            r.deep_view() == (match self.spec_bundle().osx_url_schemes {
                Some(v) => v.deep_view(),
                None => Seq::<Seq<char>>::empty(),
            }),
    {
        match &self.bundle_settings.osx_url_schemes {
            Some(v) => {
                let r = clone_strings(v);
                proof {
                    assert(r.deep_view() =~= v.deep_view());
                }
                r
            },
            None => {
                let r: Vec<String> = Vec::new();
                proof {
                    assert(r.deep_view() =~= Seq::<Seq<char>>::empty());
                }
                r
            },
        }
    }
}

/// The authors joined with a comma and a space.
pub open spec fn spec_comma_join(a: Seq<Seq<char>>) -> Seq<char>
    decreases a.len(),
{
    if a.len() == 0 {
        Seq::empty()
    } else if a.len() == 1 {
        a[0]
    } else {
        spec_comma_join(a.drop_last()) + ", "@ + a.last()
    }
}

impl Default for BundleSettings {
    /// The bundle settings with every field absent.
    fn default() -> (r: BundleSettings)
        ensures
            r == spec_default_bundle(),
    {
        BundleSettings {
            name: None,
            identifier: None,
            icon: None,
            version: None,
            resources: None,
            copyright: None,
            category: None,
            short_description: None,
            long_description: None,
            linux_mime_types: None,
            linux_exec_args: None,
            linux_use_terminal: None,
            deb_depends: None,
            osx_frameworks: None,
            osx_minimum_system_version: None,
            osx_url_schemes: None,
        }
    }
}

} // verus!
