use sd_models::models::{ModelProvider, ModelType};
use sd_models::sharp::{SharpExecutable, SharpManager, SharpModel};

const ALL: [SharpExecutable; 4] = [
    SharpExecutable::MacOSArm64,
    SharpExecutable::MacOSX64,
    SharpExecutable::WindowsX64,
    SharpExecutable::LinuxX64,
];

#[test]
fn platforms_by_target() {
    assert_eq!(SharpExecutable::current_platform("macos", "aarch64"), Some(SharpExecutable::MacOSArm64));
    assert_eq!(SharpExecutable::current_platform("macos", "x86_64"), Some(SharpExecutable::MacOSX64));
    assert_eq!(SharpExecutable::current_platform("windows", "x86_64"), Some(SharpExecutable::WindowsX64));
    assert_eq!(SharpExecutable::current_platform("linux", "x86_64"), Some(SharpExecutable::LinuxX64));
}

#[test]
fn platforms_without_build() {
    assert_eq!(SharpExecutable::current_platform("linux", "aarch64"), None);
    assert_eq!(SharpExecutable::current_platform("windows", "aarch64"), None);
    assert_eq!(SharpExecutable::current_platform("freebsd", "x86_64"), None);
}

#[test]
fn executable_filenames() {
    assert_eq!(SharpExecutable::MacOSArm64.filename(), "sharp");
    assert_eq!(SharpExecutable::MacOSX64.filename(), "sharp");
    assert_eq!(SharpExecutable::LinuxX64.filename(), "sharp");
    assert_eq!(SharpExecutable::WindowsX64.filename(), "sharp.exe");
}

#[test]
fn executable_archives_and_urls() {
    assert_eq!(SharpExecutable::MacOSArm64.archive_name(), "sharp-macos-arm64.tar.gz");
    assert_eq!(SharpExecutable::MacOSX64.archive_name(), "sharp-macos-x64.tar.gz");
    assert_eq!(SharpExecutable::WindowsX64.archive_name(), "sharp-windows-x64.zip");
    assert_eq!(SharpExecutable::LinuxX64.archive_name(), "sharp-linux-x64.tar.gz");
    assert_eq!(
        SharpExecutable::LinuxX64.download_url(),
        "https://github.com/spacedriveapp/ml-sharp-dist/releases/latest/download/sharp-linux-x64.tar.gz"
    );
    assert_eq!(
        SharpExecutable::WindowsX64.download_url(),
        "https://github.com/spacedriveapp/ml-sharp-dist/releases/latest/download/sharp-windows-x64.zip"
    );
}

#[test]
fn executable_sizes() {
    assert_eq!(SharpExecutable::MacOSArm64.size_bytes(), 734_003_200);
    assert_eq!(SharpExecutable::MacOSX64.size_bytes(), 786_432_000);
    assert_eq!(SharpExecutable::WindowsX64.size_bytes(), 838_860_800);
    assert_eq!(SharpExecutable::LinuxX64.size_bytes(), 734_003_200);
}

#[test]
fn executable_ids() {
    assert_eq!(SharpExecutable::MacOSArm64.id(), "sharp-exec-macos-arm64");
    assert_eq!(SharpExecutable::MacOSX64.id(), "sharp-exec-macos-x64");
    assert_eq!(SharpExecutable::WindowsX64.id(), "sharp-exec-windows-x64");
    assert_eq!(SharpExecutable::LinuxX64.id(), "sharp-exec-linux-x64");
    for p in ALL {
        assert!(p.id().starts_with("sharp-exec-"));
    }
}

#[test]
fn sharp_model_facts() {
    assert_eq!(SharpModel::FILENAME, "sharp_2572gikvuh.pt");
    assert_eq!(SharpModel::ID, "sharp-model");
    assert_eq!(SharpModel::download_url(), "https://ml-site.cdn-apple.com/models/sharp/sharp_2572gikvuh.pt");
    assert_eq!(SharpModel::size_bytes(), 471_859_200);
}

#[test]
fn manager_paths() {
    let m = SharpManager::new("/data", Some(SharpExecutable::LinuxX64));
    assert_eq!(m.get_executable_path(), Some("/data/models/sharp/sharp".to_string()));
    assert_eq!(m.get_model_path(), "/data/models/sharp/sharp_2572gikvuh.pt");
    let w = SharpManager::new("C:/data/", Some(SharpExecutable::WindowsX64));
    assert_eq!(w.get_executable_path(), Some("C:/data/models/sharp/sharp.exe".to_string()));
    let none = SharpManager::new("/data", None);
    assert_eq!(none.get_executable_path(), None);
    assert_eq!(none.get_model_path(), "/data/models/sharp/sharp_2572gikvuh.pt");
}

#[test]
fn model_size_tolerance() {
    let expected = SharpModel::size_bytes();
    let tolerance = expected / 20;
    assert!(SharpManager::model_size_matches(expected));
    assert!(SharpManager::model_size_matches(expected + tolerance - 1));
    assert!(SharpManager::model_size_matches(expected - tolerance + 1));
    assert!(!SharpManager::model_size_matches(expected + tolerance));
    assert!(!SharpManager::model_size_matches(expected - tolerance));
    assert!(!SharpManager::model_size_matches(0));
    assert!(!SharpManager::model_size_matches(u64::MAX));
}

#[test]
fn components_with_executable() {
    let m = SharpManager::new("/data", Some(SharpExecutable::MacOSArm64));
    let c = m.component_list(true, false);
    assert_eq!(c.len(), 2);
    assert_eq!(c[0].id, "sharp-exec-macos-arm64");
    assert_eq!(c[0].name, "SHARP Executable (sharp-macos-arm64.tar.gz)");
    assert_eq!(c[0].model_type, ModelType::Sharp);
    assert_eq!(c[0].size_bytes, 700 * 1024 * 1024);
    match &c[0].provider {
        ModelProvider::GitHub { owner, repo } => {
            assert_eq!(owner, "spacedriveapp");
            assert_eq!(repo, "ml-sharp-dist");
        }
        _ => panic!("executable should come from GitHub"),
    }
    assert_eq!(c[0].filename, "sharp");
    assert!(c[0].downloaded);
    assert_eq!(c[0].description.as_deref(), Some("Standalone SHARP executable with bundled dependencies"));
    assert_eq!(c[1].id, "sharp-model");
    assert_eq!(c[1].name, "SHARP Model Weights");
    assert!(!c[1].downloaded);
    match &c[1].provider {
        ModelProvider::Direct { url } => {
            assert_eq!(url, "https://ml-site.cdn-apple.com/models/sharp/sharp_2572gikvuh.pt")
        }
        _ => panic!("weights should come from a direct URL"),
    }
    assert_eq!(c[1].filename, "sharp_2572gikvuh.pt");
    assert_eq!(c[1].size_bytes, 450 * 1024 * 1024);
    assert_eq!(c[1].description.as_deref(), Some("Pre-trained SHARP model for view synthesis"));
}

#[test]
fn components_without_executable() {
    let m = SharpManager::new("/data", None);
    let c = m.component_list(true, true);
    assert_eq!(c.len(), 1);
    assert_eq!(c[0].id, "sharp-model");
    assert!(c[0].downloaded);
}
