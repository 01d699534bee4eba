use sd_models::download::{
    archive_kind, is_tar_executable_entry, is_zip_executable_entry, ArchiveKind, DownloadError,
    DownloadPhase, DownloadSource, InitPlan, JobAction, ModelDownloadConfig, ModelDownloadJob,
    ModelDownloadOutput, VerifyAction, CHECKPOINT_INTERVAL,
};
use sd_models::models::WhisperModel;
use sd_models::sharp::SharpExecutable;

fn whisper(name: &str, file: &str) -> WhisperModel {
    WhisperModel {
        name: name.to_string(),
        id: format!("whisper-{name}"),
        display_name: format!("Whisper {name}"),
        filename: file.to_string(),
        download_url: format!("https://example.invalid/{file}"),
        size_bytes: 148_000_000,
    }
}

fn catalog() -> Vec<WhisperModel> {
    vec![whisper("tiny", "ggml-tiny.bin"), whisper("base", "ggml-base.bin")]
}

fn plan(job: &ModelDownloadJob, platform: Option<SharpExecutable>) -> Result<InitPlan, DownloadError> {
    job.plan_initialize(platform, &catalog())
}

fn downloading_sharp_model() -> ModelDownloadJob {
    let mut job = ModelDownloadJob::for_sharp_model("/data".to_string());
    let p = plan(&job, None).ok().unwrap();
    job.finish_initialize(p);
    job.advance_phase();
    job
}

fn assert_fresh(job: &ModelDownloadJob, id: &str, dir: &str) {
    assert_eq!(job.config.model_id, id);
    assert_eq!(job.config.data_dir, dir);
    assert_eq!(job.state.phase, DownloadPhase::Initializing);
    assert_eq!(job.state.model_id, id);
    assert_eq!(job.state.download_url, "");
    assert_eq!(job.state.target_path, "");
    assert_eq!(job.state.temp_path, "");
    assert_eq!(job.state.total_bytes, 0);
    assert_eq!(job.state.downloaded_bytes, 0);
}

#[test]
fn new_job_is_fresh() {
    let job = ModelDownloadJob::new(ModelDownloadConfig {
        model_id: "whisper-base".to_string(),
        data_dir: "/data".to_string(),
    });
    assert_fresh(&job, "whisper-base", "/data");
    assert_eq!(job.next_action(), JobAction::Initialize);
}

#[test]
fn job_constructors() {
    assert_fresh(&ModelDownloadJob::for_sharp_model("/d".to_string()), "sharp-model", "/d");
    assert_fresh(&ModelDownloadJob::for_whisper_model(whisper("base", "ggml-base.bin"), "/d".to_string()), "whisper-base", "/d");
    let exec = ModelDownloadJob::for_sharp_executable(Some(SharpExecutable::MacOSX64), "/d".to_string());
    assert_fresh(exec.as_ref().unwrap(), "sharp-exec-macos-x64", "/d");
    assert!(ModelDownloadJob::for_sharp_executable(None, "/d".to_string()).is_none());
}

#[test]
fn plan_for_executable() {
    let job = ModelDownloadJob::for_sharp_executable(Some(SharpExecutable::LinuxX64), "/data".to_string()).unwrap();
    let p = plan(&job, Some(SharpExecutable::LinuxX64)).ok().unwrap();
    assert!(matches!(p.source, DownloadSource::SharpExecutable(SharpExecutable::LinuxX64)));
    assert_eq!(p.dir, "/data/models/sharp");
    assert_eq!(p.download_url, "https://github.com/spacedriveapp/ml-sharp-dist/releases/latest/download/sharp-linux-x64.tar.gz");
    assert_eq!(p.target_path, "/data/models/sharp/sharp");
    assert_eq!(p.temp_path, "/data/models/sharp/sharp.tmp");
    assert_eq!(p.total_bytes, 700 * 1024 * 1024);
}

#[test]
fn executable_id_uses_this_machines_build() {
    let job = ModelDownloadJob::for_sharp_executable(Some(SharpExecutable::WindowsX64), "/data".to_string()).unwrap();
    let p = plan(&job, Some(SharpExecutable::LinuxX64)).ok().unwrap();
    assert_eq!(p.target_path, "/data/models/sharp/sharp");
    let w = plan(&job, Some(SharpExecutable::WindowsX64)).ok().unwrap();
    assert_eq!(w.target_path, "/data/models/sharp/sharp.exe");
    assert_eq!(w.temp_path, "/data/models/sharp/sharp.exe.tmp");
}

#[test]
fn plan_for_executable_on_unsupported_platform() {
    let job = ModelDownloadJob::new(ModelDownloadConfig {
        model_id: "sharp-exec-linux-x64".to_string(),
        data_dir: "/data".to_string(),
    });
    let e = plan(&job, None).err().unwrap();
    assert!(matches!(e, DownloadError::UnsupportedPlatform));
    assert_eq!(e.message(), "Unsupported platform for SHARP");
}

#[test]
fn plan_for_sharp_model() {
    let job = ModelDownloadJob::for_sharp_model("/data".to_string());
    let p = plan(&job, None).ok().unwrap();
    assert!(matches!(p.source, DownloadSource::SharpModel));
    assert_eq!(p.dir, "/data/models/sharp");
    assert_eq!(p.download_url, "https://ml-site.cdn-apple.com/models/sharp/sharp_2572gikvuh.pt");
    assert_eq!(p.target_path, "/data/models/sharp/sharp_2572gikvuh.pt");
    assert_eq!(p.temp_path, "/data/models/sharp/sharp_2572gikvuh.tmp");
    assert_eq!(p.total_bytes, 450 * 1024 * 1024);
}

#[test]
fn plan_for_whisper_model() {
    let job = ModelDownloadJob::for_whisper_model(whisper("base", "ggml-base.bin"), "/data".to_string());
    let p = plan(&job, None).ok().unwrap();
    match &p.source {
        DownloadSource::Whisper { display_name } => assert_eq!(display_name, "Whisper base"),
        _ => panic!("a whisper model"),
    }
    assert_eq!(p.dir, "/data/models/whisper");
    assert_eq!(p.download_url, "https://example.invalid/ggml-base.bin");
    assert_eq!(p.target_path, "/data/models/whisper/ggml-base.bin");
    assert_eq!(p.temp_path, "/data/models/whisper/ggml-base.tmp");
    assert_eq!(p.total_bytes, 148_000_000);
}

#[test]
fn whisper_prefix_is_taken_out_everywhere() {
    for id in ["tiny", "whisper-tiny", "whisper-whisper-tiny"] {
        let job = ModelDownloadJob::new(ModelDownloadConfig { model_id: id.to_string(), data_dir: "/d".to_string() });
        let p = plan(&job, None).ok().unwrap();
        assert_eq!(p.target_path, "/d/models/whisper/ggml-tiny.bin", "{id}");
    }
    // One pass, left to right: what the removal brings together stays.
    let job = ModelDownloadJob::new(ModelDownloadConfig {
        model_id: "whiwhisper-sper-tiny".to_string(),
        data_dir: "/d".to_string(),
    });
    assert!(matches!(plan(&job, None), Err(DownloadError::UnknownModelId(_))));
}

#[test]
fn unknown_model() {
    let job = ModelDownloadJob::new(ModelDownloadConfig { model_id: "whisper-huge".to_string(), data_dir: "/d".to_string() });
    let e = plan(&job, Some(SharpExecutable::LinuxX64)).err().unwrap();
    match &e {
        DownloadError::UnknownModelId(id) => assert_eq!(id, "whisper-huge"),
        _ => panic!("unknown model"),
    }
    assert_eq!(e.message(), "Unknown model ID: whisper-huge");
    let job = ModelDownloadJob::new(ModelDownloadConfig { model_id: "sharp-models".to_string(), data_dir: "/d".to_string() });
    assert!(matches!(plan(&job, None), Err(DownloadError::UnknownModelId(_))));
}

#[test]
fn phases_in_order() {
    let mut job = ModelDownloadJob::for_sharp_model("/data".to_string());
    let p = plan(&job, None).ok().unwrap();
    job.finish_initialize(p);
    assert_eq!(job.state.phase, DownloadPhase::Initializing);
    job.advance_phase();
    assert_eq!(job.state.phase, DownloadPhase::Downloading);
    assert_eq!(job.next_action(), JobAction::Download);
    assert_eq!(job.state.target_path, "/data/models/sharp/sharp_2572gikvuh.pt");
    assert_eq!(job.state.temp_path, "/data/models/sharp/sharp_2572gikvuh.tmp");
    assert_eq!(job.state.total_bytes, 450 * 1024 * 1024);
    job.advance_phase();
    assert_eq!(job.next_action(), JobAction::Verify);
    job.advance_phase();
    assert_eq!(job.next_action(), JobAction::Finish);
    let out = job.output();
    assert_eq!(out.model_id, "sharp-model");
    assert_eq!(out.path, "/data/models/sharp/sharp_2572gikvuh.pt");
    assert_eq!(out.size_bytes, 450 * 1024 * 1024);
    assert_eq!(out.size_mb(), 450);
}

#[test]
fn content_length_overrides_expected_size() {
    let mut job = downloading_sharp_model();
    job.begin_download(None);
    assert_eq!(job.state.total_bytes, 450 * 1024 * 1024);
    job.begin_download(Some(12345));
    assert_eq!(job.state.total_bytes, 12345);
    job.begin_download(None);
    assert_eq!(job.state.total_bytes, 12345);
}

#[test]
fn chunks_are_counted_and_checkpointed() {
    let mut job = downloading_sharp_model();
    assert!(!job.record_chunk(CHECKPOINT_INTERVAL, 0));
    assert_eq!(job.state.downloaded_bytes, CHECKPOINT_INTERVAL);
    assert!(job.record_chunk(1, 0));
    assert_eq!(job.state.downloaded_bytes, CHECKPOINT_INTERVAL + 1);
    let last = job.state.downloaded_bytes;
    assert!(!job.record_chunk(100, last));
    assert_eq!(job.state.downloaded_bytes, CHECKPOINT_INTERVAL + 101);
    assert_eq!(CHECKPOINT_INTERVAL, 10 * 1024 * 1024);
}

#[test]
fn verify_by_kind_of_url() {
    let mut job = ModelDownloadJob::for_sharp_model("/d".to_string());
    for (url, action) in [
        ("https://x/a.tar.gz", VerifyAction::ExtractArchive),
        ("https://x/a.zip", VerifyAction::ExtractArchive),
        ("https://x/a.pt", VerifyAction::CheckSize),
        ("https://x/a.gz", VerifyAction::CheckSize),
        ("", VerifyAction::CheckSize),
    ] {
        job.state.download_url = url.to_string();
        assert_eq!(job.verify_action(), action, "{url}");
    }
}

#[test]
fn size_check() {
    let mut job = ModelDownloadJob::for_sharp_model("/d".to_string());
    job.state.total_bytes = 100;
    assert!(job.check_downloaded_size(100).is_ok());
    let e = job.check_downloaded_size(99).err().unwrap();
    assert!(matches!(e, DownloadError::SizeMismatch { expected: 100, actual: 99 }));
    assert_eq!(e.message(), "Downloaded file size mismatch: expected 100 bytes, got 99 bytes");
}

#[test]
fn output_size_in_mebibytes() {
    let out = ModelDownloadOutput { model_id: "m".to_string(), path: "p".to_string(), size_bytes: 3 * 1024 * 1024 - 1 };
    assert_eq!(out.size_mb(), 2);
}

#[test]
fn archive_kinds() {
    assert_eq!(archive_kind("https://x/sharp-windows-x64.zip"), ArchiveKind::Zip);
    assert_eq!(archive_kind("https://x/sharp-linux-x64.tar.gz"), ArchiveKind::TarGz);
    assert_eq!(archive_kind("https://x/zip"), ArchiveKind::TarGz);
    for p in [
        SharpExecutable::MacOSArm64,
        SharpExecutable::MacOSX64,
        SharpExecutable::WindowsX64,
        SharpExecutable::LinuxX64,
    ] {
        let expected = if p == SharpExecutable::WindowsX64 { ArchiveKind::Zip } else { ArchiveKind::TarGz };
        assert_eq!(archive_kind(&p.download_url()), expected);
    }
}

#[test]
fn windows_download_is_read_as_zip() {
    let mut job = ModelDownloadJob::for_sharp_executable(Some(SharpExecutable::WindowsX64), "/d".to_string()).unwrap();
    let p = plan(&job, Some(SharpExecutable::WindowsX64)).ok().unwrap();
    job.finish_initialize(p);
    assert_eq!(job.state.temp_path, "/d/models/sharp/sharp.exe.tmp");
    assert_eq!(archive_kind(&job.state.download_url), ArchiveKind::Zip);
}


#[test]
fn executable_entries() {
    assert!(is_zip_executable_entry("dist/sharp.exe"));
    assert!(is_zip_executable_entry("sharp"));
    assert!(is_zip_executable_entry("bin/notsharp"));
    assert!(!is_zip_executable_entry("sharp/README"));
    assert!(is_tar_executable_entry("dist/sharp"));
    assert!(is_tar_executable_entry("./sharp"));
    assert!(!is_tar_executable_entry("dist/sharp.exe"));
    assert!(!is_tar_executable_entry("bin/notsharp"));
    assert!(is_tar_executable_entry("dist/sharp/"));
}

#[test]
fn executables_are_extracted_and_weights_size_checked() {
    for p in [
        SharpExecutable::MacOSArm64,
        SharpExecutable::MacOSX64,
        SharpExecutable::WindowsX64,
        SharpExecutable::LinuxX64,
    ] {
        let mut job = ModelDownloadJob::for_sharp_executable(Some(p), "/data".to_string()).unwrap();
        let plan = job.plan_initialize(Some(p), &Vec::new()).ok().unwrap();
        assert_ne!(plan.temp_path, plan.target_path);
        job.finish_initialize(plan);
        assert_eq!(job.verify_action(), VerifyAction::ExtractArchive);
    }
    let mut job = ModelDownloadJob::for_sharp_model("/data".to_string());
    let plan = job.plan_initialize(None, &Vec::new()).ok().unwrap();
    assert_ne!(plan.temp_path, plan.target_path);
    job.finish_initialize(plan);
    assert_eq!(job.verify_action(), VerifyAction::CheckSize);
}
