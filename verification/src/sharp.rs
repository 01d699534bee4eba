//! SHARP executables and model weights: where they come from, how large they
//! are and where they are kept under the data directory.

use vstd::prelude::*;
use crate::models::{sharp_dir_of, get_sharp_dir, ModelInfo, ModelProvider, ModelType};
use crate::paths::{join, join_path, opt_view};
use crate::text::{concat_str, has_prefix, has_suffix, str_eq};

verus! {

/// Where the SHARP executable archives are published.
pub const SHARP_DIST_REPO: &'static str = "https://github.com/spacedriveapp/ml-sharp-dist/releases/latest/download";

/// Where the SHARP model weights are published.
pub const SHARP_MODEL_URL: &'static str = "https://ml-site.cdn-apple.com/models/sharp/sharp_2572gikvuh.pt";

/// One mebibyte.
pub const MIB: u64 = 1048576;

/// The platform-specific builds of the SHARP executable.
#[derive(Debug, Clone, Copy, PartialEq, Eq, Structural)]
pub enum SharpExecutable {
    MacOSArm64,
    MacOSX64,
    WindowsX64,
    LinuxX64,
}

/// The build for a target, named by operating system and architecture as
/// Rust names them (`macos`, `windows`, `linux`; `aarch64`, `x86_64`).
pub open spec fn platform_for(os: Seq<char>, arch: Seq<char>) -> Option<SharpExecutable> {
    if os == "macos"@ && arch == "aarch64"@ {
        Some(SharpExecutable::MacOSArm64)
    } else if os == "macos"@ && arch == "x86_64"@ {
        Some(SharpExecutable::MacOSX64)
    } else if os == "windows"@ && arch == "x86_64"@ {
        Some(SharpExecutable::WindowsX64)
    } else if os == "linux"@ && arch == "x86_64"@ {
        Some(SharpExecutable::LinuxX64)
    } else {
        None
    }
}

impl SharpExecutable {
    pub open spec fn filename_spec(self) -> Seq<char> {
        match self {
            SharpExecutable::WindowsX64 => "sharp.exe"@,
            _ => "sharp"@,
        }
    }

    pub open spec fn archive_name_spec(self) -> Seq<char> {
        match self {
            SharpExecutable::MacOSArm64 => "sharp-macos-arm64.tar.gz"@,
            SharpExecutable::MacOSX64 => "sharp-macos-x64.tar.gz"@,
            SharpExecutable::WindowsX64 => "sharp-windows-x64.zip"@,
            SharpExecutable::LinuxX64 => "sharp-linux-x64.tar.gz"@,
        }
    }

    pub open spec fn download_url_spec(self) -> Seq<char> {
        SHARP_DIST_REPO@ + "/"@ + self.archive_name_spec()
    }

    pub open spec fn size_bytes_spec(self) -> int {
        match self {
            SharpExecutable::MacOSArm64 => 700 * MIB,
            SharpExecutable::MacOSX64 => 750 * MIB,
            SharpExecutable::WindowsX64 => 800 * MIB,
            SharpExecutable::LinuxX64 => 700 * MIB,
        }
    }

    pub open spec fn id_spec(self) -> Seq<char> {
        match self {
            SharpExecutable::MacOSArm64 => "sharp-exec-macos-arm64"@,
            SharpExecutable::MacOSX64 => "sharp-exec-macos-x64"@,
            SharpExecutable::WindowsX64 => "sharp-exec-windows-x64"@,
            SharpExecutable::LinuxX64 => "sharp-exec-linux-x64"@,
        }
    }

    /// The build that runs on the given target, if one is published.
    pub fn current_platform(target_os: &str, target_arch: &str) -> (r: Option<SharpExecutable>)
        ensures
            r == platform_for(target_os@, target_arch@),
    {
        let mac = str_eq(target_os, "macos");
        let win = str_eq(target_os, "windows");
        let linux = str_eq(target_os, "linux");
        let arm = str_eq(target_arch, "aarch64");
        let x64 = str_eq(target_arch, "x86_64");
        if mac && arm {
            Some(SharpExecutable::MacOSArm64)
        } else if mac && x64 {
            Some(SharpExecutable::MacOSX64)
        } else if win && x64 {
            Some(SharpExecutable::WindowsX64)
        } else if linux && x64 {
            Some(SharpExecutable::LinuxX64)
        } else {
            None
        }
    }

    /// The name of the executable file.
    pub fn filename(&self) -> (r: &'static str)
        ensures
            r@ == self.filename_spec(),
    {
        match self {
            SharpExecutable::MacOSArm64 | SharpExecutable::MacOSX64 | SharpExecutable::LinuxX64 => "sharp",
            SharpExecutable::WindowsX64 => "sharp.exe",
        }
    }

    /// The name of the published archive that holds the executable.
    pub fn archive_name(&self) -> (r: &'static str)
        ensures
            r@ == self.archive_name_spec(),
    {
        match self {
            SharpExecutable::MacOSArm64 => "sharp-macos-arm64.tar.gz",
            SharpExecutable::MacOSX64 => "sharp-macos-x64.tar.gz",
            SharpExecutable::WindowsX64 => "sharp-windows-x64.zip",
            SharpExecutable::LinuxX64 => "sharp-linux-x64.tar.gz",
        }
    }

    /// Where the archive is downloaded from.
    pub fn download_url(&self) -> (r: String)
        ensures
            r@ == self.download_url_spec(),
    {
        let mut r = concat_str(SHARP_DIST_REPO, "/");
        r.append(self.archive_name());
        r
    }

    /// The expected download size in bytes.
    pub fn size_bytes(&self) -> (r: u64)
        ensures
            r == self.size_bytes_spec(),
    {
        match self {
            SharpExecutable::MacOSArm64 => 700 * MIB,
            SharpExecutable::MacOSX64 => 750 * MIB,
            SharpExecutable::WindowsX64 => 800 * MIB,
            SharpExecutable::LinuxX64 => 700 * MIB,
        }
    }

    /// The model identifier under which the build is downloaded.
    pub fn id(&self) -> (r: &'static str)
        ensures
            r@ == self.id_spec(),
    {
        match self {
            SharpExecutable::MacOSArm64 => "sharp-exec-macos-arm64",
            SharpExecutable::MacOSX64 => "sharp-exec-macos-x64",
            SharpExecutable::WindowsX64 => "sharp-exec-windows-x64",
            SharpExecutable::LinuxX64 => "sharp-exec-linux-x64",
        }
    }
}

/// Builds are published for exactly four targets: macOS on `aarch64` and
/// `x86_64`, and Windows and Linux on `x86_64`; every other target has none.
pub proof fn law_platform_targets(os: Seq<char>, arch: Seq<char>)
    ensures
        (platform_for(os, arch) == Some(SharpExecutable::MacOSArm64)) <==> (os == "macos"@ && arch
            == "aarch64"@),
        (platform_for(os, arch) == Some(SharpExecutable::MacOSX64)) <==> (os == "macos"@ && arch
            == "x86_64"@),
        (platform_for(os, arch) == Some(SharpExecutable::WindowsX64)) <==> (os == "windows"@ && arch
            == "x86_64"@),
        (platform_for(os, arch) == Some(SharpExecutable::LinuxX64)) <==> (os == "linux"@ && arch
            == "x86_64"@),
        platform_for(os, arch) is None <==> !((os == "macos"@ && (arch == "aarch64"@ || arch
            == "x86_64"@)) || ((os == "windows"@ || os == "linux"@) && arch == "x86_64"@)),
{
    reveal_strlit("macos");
    reveal_strlit("windows");
    reveal_strlit("linux");
    reveal_strlit("aarch64");
    reveal_strlit("x86_64");
    assert("macos"@[0] != "windows"@[0]);
    assert("macos"@[0] != "linux"@[0]);
    assert("windows"@[0] != "linux"@[0]);
    assert("aarch64"@[0] != "x86_64"@[0]);
}

/// Every build is known by an identifier starting with `sharp-exec-`, and
/// builds that differ have identifiers that differ; the Windows build's
/// executable is `sharp.exe` in a zip archive, the others' is `sharp` in a
/// gzip'd tar archive; the builds weigh 700, 750, 800 and 700 MiB.
pub proof fn law_executable_builds(p: SharpExecutable, q: SharpExecutable)
    ensures
        has_prefix(p.id_spec(), "sharp-exec-"@),
        p != q ==> p.id_spec() != q.id_spec(),
        p.filename_spec() == if p == SharpExecutable::WindowsX64 {
            "sharp.exe"@
        } else {
            "sharp"@
        },
        has_suffix(p.archive_name_spec(), if p == SharpExecutable::WindowsX64 {
            ".zip"@
        } else {
            ".tar.gz"@
        }),
        p.size_bytes_spec() == match p {
            SharpExecutable::MacOSArm64 => 734003200int,
            SharpExecutable::MacOSX64 => 786432000int,
            SharpExecutable::WindowsX64 => 838860800int,
            SharpExecutable::LinuxX64 => 734003200int,
        },
{
    reveal_strlit("sharp-exec-");
    reveal_strlit("sharp-exec-macos-arm64");
    reveal_strlit("sharp-exec-macos-x64");
    reveal_strlit("sharp-exec-windows-x64");
    reveal_strlit("sharp-exec-linux-x64");
    reveal_strlit("sharp-macos-arm64.tar.gz");
    reveal_strlit("sharp-macos-x64.tar.gz");
    reveal_strlit("sharp-windows-x64.zip");
    reveal_strlit("sharp-linux-x64.tar.gz");
    reveal_strlit(".zip");
    reveal_strlit(".tar.gz");
    let i = p.id_spec();
    assert(i.subrange(0, 11) =~= "sharp-exec-"@);
    let j = q.id_spec();
    if p != q {
        assert(i != j) by {
            if i.len() == j.len() {
                if i[11] == j[11] {
                    assert(i[17] != j[17]);
                }
            }
        }
    }
    let a = p.archive_name_spec();
    let n = a.len() as int;
    if p == SharpExecutable::WindowsX64 {
        assert(a.subrange(n - 4, n) =~= ".zip"@);
    } else {
        assert(a.subrange(n - 7, n) =~= ".tar.gz"@);
    }
}

/// Every build is downloaded from the dist repository, under its own
/// archive name after a slash: its URL starts with the repository and a
/// slash and ends with the archive name, and builds that differ have
/// archive names and download URLs that differ.
pub proof fn law_download_urls(p: SharpExecutable, q: SharpExecutable)
    ensures
        has_prefix(p.download_url_spec(), SHARP_DIST_REPO@ + "/"@),
        has_suffix(p.download_url_spec(), p.archive_name_spec()),
        p.download_url_spec().len() == SHARP_DIST_REPO@.len() + 1 + p.archive_name_spec().len(),
        p != q ==> p.archive_name_spec() != q.archive_name_spec(),
        p != q ==> p.download_url_spec() != q.download_url_spec(),
{
    reveal_strlit("/");
    reveal_strlit("sharp-macos-arm64.tar.gz");
    reveal_strlit("sharp-macos-x64.tar.gz");
    reveal_strlit("sharp-windows-x64.zip");
    reveal_strlit("sharp-linux-x64.tar.gz");
    let head = SHARP_DIST_REPO@ + "/"@;
    let u = p.download_url_spec();
    let a = p.archive_name_spec();
    assert(u.subrange(0, head.len() as int) =~= head);
    assert(u.subrange(u.len() - a.len(), u.len() as int) =~= a);
    let b = q.archive_name_spec();
    if p != q {
        assert(a != b) by {
            if a.len() == b.len() {
                if a[6] == b[6] {
                    assert(a[12] != b[12]);
                }
            }
        }
        let v = q.download_url_spec();
        if u == v {
            assert(u.subrange(head.len() as int, u.len() as int) =~= a);
            assert(v.subrange(head.len() as int, v.len() as int) =~= b);
        }
    }
}

/// The SHARP model weights.
pub struct SharpModel;

impl SharpModel {
    pub const FILENAME: &'static str = "sharp_2572gikvuh.pt";

    pub const ID: &'static str = "sharp-model";

    pub open spec fn size_bytes_spec() -> int {
        450 * MIB
    }

    /// Where the weights are downloaded from.
    pub fn download_url() -> (r: &'static str)
        ensures
            r@ == SHARP_MODEL_URL@,
    {
        SHARP_MODEL_URL
    }

    /// The expected size of the weights in bytes.
    pub fn size_bytes() -> (r: u64)
        ensures
            r == Self::size_bytes_spec(),
    {
        450 * MIB
    }
}

/// `actual` and `expected` differ by less than a twentieth of `expected`.
pub open spec fn within_tolerance(actual: int, expected: int) -> bool {
    (if actual >= expected {
        actual - expected
    } else {
        expected - actual
    }) < expected / 20
}

/// `info` describes the executable built for `p`.
pub open spec fn describes_executable(info: ModelInfo, p: SharpExecutable, downloaded: bool) -> bool {
    &&& info.id@ == p.id_spec()
    &&& info.name@ == "SHARP Executable ("@ + p.archive_name_spec() + ")"@
    &&& info.model_type == ModelType::Sharp
    &&& info.size_bytes == p.size_bytes_spec()
    &&& info.provider matches ModelProvider::GitHub { owner, repo } && owner@ == "spacedriveapp"@
        && repo@ == "ml-sharp-dist"@
    &&& info.filename@ == p.filename_spec()
    &&& info.downloaded == downloaded
    &&& info.description matches Some(d) && d@ == "Standalone SHARP executable with bundled dependencies"@
}

/// `info` describes the SHARP model weights.
pub open spec fn describes_model(info: ModelInfo, downloaded: bool) -> bool {
    &&& info.id@ == SharpModel::ID@
    &&& info.name@ == "SHARP Model Weights"@
    &&& info.model_type == ModelType::Sharp
    &&& info.size_bytes == SharpModel::size_bytes_spec()
    &&& info.provider matches ModelProvider::Direct { url } && url@ == SHARP_MODEL_URL@
    &&& info.filename@ == SharpModel::FILENAME@
    &&& info.downloaded == downloaded
    &&& info.description matches Some(d) && d@ == "Pre-trained SHARP model for view synthesis"@
}

/// The model weights pass as downloaded exactly when their size lies
/// strictly between 448266240 and 495452160 bytes: 450 MiB give or take
/// less than a twentieth.
pub proof fn law_model_size_tolerance(actual: int)
    ensures
        within_tolerance(actual, SharpModel::size_bytes_spec()) <==> 448266240 < actual < 495452160,
        SharpModel::size_bytes_spec() == 471859200,
{
}

/// Locates the SHARP components under a data directory.
pub struct SharpManager {
    sharp_dir: String,
    platform: Option<SharpExecutable>,
}

impl SharpManager {
    /// The directory that holds the SHARP components.
    pub closed spec fn dir(&self) -> Seq<char> {
        self.sharp_dir@
    }

    /// The build of the executable this manager looks for.
    pub closed spec fn target(&self) -> Option<SharpExecutable> {
        self.platform
    }

    /// A manager for the components under `data_dir`, on a machine for which
    /// `platform` is the build of the executable (`None`: none is published).
    pub fn new(data_dir: &str, platform: Option<SharpExecutable>) -> (r: Self)
        ensures
            r.dir() == sharp_dir_of(data_dir@),
            r.target() == platform,
    {
        SharpManager { sharp_dir: get_sharp_dir(data_dir), platform }
    }

    /// Where the executable for this platform is kept.
    pub fn get_executable_path(&self) -> (r: Option<String>)
        ensures
            opt_view(r) == match self.target() {
                Some(p) => Some(join(self.dir(), p.filename_spec())),
                None => None,
            },
    {
        match self.platform {
            Some(p) => Some(join_path(self.sharp_dir.as_str(), p.filename())),
            None => None,
        }
    }

    /// Where the model weights are kept.
    pub fn get_model_path(&self) -> (r: String)
        ensures
            r@ == join(self.dir(), SharpModel::FILENAME@),
    {
        join_path(self.sharp_dir.as_str(), SharpModel::FILENAME)
    }

    /// The SHARP components, the executable for this platform (when one is
    /// published) and then the model weights, with their download status.
    pub fn component_list(&self, executable_downloaded: bool, model_downloaded: bool) -> (r: Vec<ModelInfo>)
        ensures
            r@.len() == if self.target() is Some { 2int } else { 1int },
            self.target() matches Some(p) ==> describes_executable(r@[0], p, executable_downloaded),
            describes_model(r@.last(), model_downloaded),
    {
        let mut components: Vec<ModelInfo> = Vec::new();
        if let Some(platform) = self.platform {
            let mut name = String::from_str("SHARP Executable (");
            name.append(platform.archive_name());
            name.append(")");
            components.push(
                ModelInfo {
                    id: String::from_str(platform.id()),
                    name,
                    model_type: ModelType::Sharp,
                    size_bytes: platform.size_bytes(),
                    provider: ModelProvider::GitHub {
                        owner: String::from_str("spacedriveapp"),
                        repo: String::from_str("ml-sharp-dist"),
                    },
                    filename: String::from_str(platform.filename()),
                    downloaded: executable_downloaded,
                    description: Some(
                        String::from_str("Standalone SHARP executable with bundled dependencies"),
                    ),
                },
            );
        }
        components.push(
            ModelInfo {
                id: String::from_str(SharpModel::ID),
                name: String::from_str("SHARP Model Weights"),
                model_type: ModelType::Sharp,
                size_bytes: SharpModel::size_bytes(),
                provider: ModelProvider::Direct { url: String::from_str(SharpModel::download_url()) },
                filename: String::from_str(SharpModel::FILENAME),
                downloaded: model_downloaded,
                description: Some(String::from_str("Pre-trained SHARP model for view synthesis")),
            },
        );
        components
    }

    /// Whether weights of `actual` bytes pass as the downloaded model: within
    /// five percent of the expected size.
    pub fn model_size_matches(actual: u64) -> (r: bool)
        ensures
            r == within_tolerance(actual as int, SharpModel::size_bytes_spec()),
    {
        let expected = SharpModel::size_bytes();
        let tolerance = expected / 20;
        let diff = if actual >= expected {
            actual - expected
        } else {
            expected - actual
        };
        diff < tolerance
    }
}

} // verus!
