//! The model download job: what it downloads, where it puts the file, how it
//! counts bytes, and the order of its phases.  The network and file work is
//! done by the caller, which hands each outcome back to the job.

use vstd::prelude::*;
use crate::models::{
    find_whisper_model, get_sharp_dir, get_whisper_models_dir, sharp_dir_of, whisper_dir_of,
    whisper_lookup, WhisperModel,
};
use crate::paths::{
    file_name, file_name_of, is_plain_name, join, join_path, last_index_of,
    law_file_name_of_joined_name, law_with_extension_of_joined_name, lemma_joined_name_bounds,
    with_extension, with_extension_of,
};
use crate::sharp::{SharpExecutable, SharpModel, SHARP_MODEL_URL};
use crate::text::{
    concat_str, decimal, decimal_string, has_prefix, has_suffix, lemma_replace_all_absent, occurs_in,
    replace_all, replace_str, str_eq, str_ends_with, str_starts_with,
};

verus! {

/// Bytes downloaded between two checkpoints of the job.
pub const CHECKPOINT_INTERVAL: u64 = 10 * 1024 * 1024;

/// Which model to download, and the data directory to keep it in.
pub struct ModelDownloadConfig {
    pub model_id: String,
    pub data_dir: String,
}

/// The phases of a download, in the order the job goes through them.
#[derive(Debug, Clone, Copy, PartialEq, Eq, Structural)]
pub enum DownloadPhase {
    Initializing,
    Downloading,
    Verifying,
    Complete,
}

/// What the job has found out and done so far.
pub struct ModelDownloadState {
    pub phase: DownloadPhase,
    pub model_id: String,
    pub download_url: String,
    pub target_path: String,
    pub temp_path: String,
    pub total_bytes: u64,
    pub downloaded_bytes: u64,
}

/// A resumable job that downloads one model.
pub struct ModelDownloadJob {
    pub config: ModelDownloadConfig,
    pub state: ModelDownloadState,
}

/// What a finished job reports.
pub struct ModelDownloadOutput {
    pub model_id: String,
    pub path: String,
    pub size_bytes: u64,
}

/// Why a job fails.
pub enum DownloadError {
    /// A SHARP executable was asked for on a platform without a build.
    UnsupportedPlatform,
    /// The model identifier names no known model.
    UnknownModelId(String),
    /// The downloaded file does not have the expected size.
    SizeMismatch { expected: u64, actual: u64 },
}

/// What is being downloaded.
pub enum DownloadSource {
    SharpExecutable(SharpExecutable),
    SharpModel,
    Whisper { display_name: String },
}

/// What initialisation settles: the directory to create, where to download
/// from, where the file goes, where it is written meanwhile, and its size.
pub struct InitPlan {
    pub source: DownloadSource,
    pub dir: String,
    pub download_url: String,
    pub target_path: String,
    pub temp_path: String,
    pub total_bytes: u64,
}

/// What is being downloaded, as a value of the specification.
pub enum SourceView {
    SharpExecutable(SharpExecutable),
    SharpModel,
    Whisper(Seq<char>),
}

/// An initialisation plan as a value of the specification.
pub struct PlanView {
    pub source: SourceView,
    pub dir: Seq<char>,
    pub download_url: Seq<char>,
    pub target_path: Seq<char>,
    pub temp_path: Seq<char>,
    pub total_bytes: int,
}

/// How initialisation ends.
pub enum InitOutcome {
    Planned(PlanView),
    UnsupportedPlatform,
    UnknownModel,
}

impl View for DownloadSource {
    type V = SourceView;

    open spec fn view(&self) -> SourceView {
        match self {
            DownloadSource::SharpExecutable(p) => SourceView::SharpExecutable(*p),
            DownloadSource::SharpModel => SourceView::SharpModel,
            DownloadSource::Whisper { display_name } => SourceView::Whisper(display_name@),
        }
    }
}

impl View for InitPlan {
    type V = PlanView;

    open spec fn view(&self) -> PlanView {
        PlanView {
            source: self.source@,
            dir: self.dir@,
            download_url: self.download_url@,
            target_path: self.target_path@,
            temp_path: self.temp_path@,
            total_bytes: self.total_bytes as int,
        }
    }
}

/// The plan for a SHARP executable build.
pub open spec fn executable_plan(data_dir: Seq<char>, p: SharpExecutable) -> PlanView {
    let dir = sharp_dir_of(data_dir);
    PlanView {
        source: SourceView::SharpExecutable(p),
        dir: dir,
        download_url: p.download_url_spec(),
        target_path: join(dir, p.filename_spec()),
        temp_path: join(dir, p.filename_spec() + ".tmp"@),
        total_bytes: p.size_bytes_spec(),
    }
}

/// The plan for the SHARP model weights.
pub open spec fn sharp_model_plan(data_dir: Seq<char>) -> PlanView {
    let dir = sharp_dir_of(data_dir);
    let target = join(dir, SharpModel::FILENAME@);
    PlanView {
        source: SourceView::SharpModel,
        dir: dir,
        download_url: SHARP_MODEL_URL@,
        target_path: target,
        temp_path: with_extension(target, "tmp"@),
        total_bytes: SharpModel::size_bytes_spec(),
    }
}

/// The plan for a Whisper model.
pub open spec fn whisper_plan(data_dir: Seq<char>, w: WhisperModel) -> PlanView {
    let dir = whisper_dir_of(data_dir);
    let target = join(dir, w.filename@);
    PlanView {
        source: SourceView::Whisper(w.display_name@),
        dir: dir,
        download_url: w.download_url@,
        target_path: target,
        temp_path: with_extension(target, "tmp"@),
        total_bytes: w.size_bytes as int,
    }
}

/// The Whisper size name a model identifier stands for.
pub open spec fn whisper_name_of(model_id: Seq<char>) -> Seq<char> {
    replace_all(model_id, "whisper-"@, ""@)
}

/// How initialisation ends for a model identifier: identifiers that start
/// with `sharp-exec-` download the executable built for `platform`, the SHARP
/// model identifier downloads the weights, and any other identifier is looked
/// up in the Whisper `catalog` with every `whisper-` taken out of it.
pub open spec fn initialize_outcome(
    model_id: Seq<char>,
    data_dir: Seq<char>,
    platform: Option<SharpExecutable>,
    catalog: Seq<WhisperModel>,
) -> InitOutcome {
    if has_prefix(model_id, "sharp-exec-"@) {
        match platform {
            Some(p) => InitOutcome::Planned(executable_plan(data_dir, p)),
            None => InitOutcome::UnsupportedPlatform,
        }
    } else if model_id == SharpModel::ID@ {
        InitOutcome::Planned(sharp_model_plan(data_dir))
    } else {
        match whisper_lookup(catalog, whisper_name_of(model_id)) {
            Some(w) => InitOutcome::Planned(whisper_plan(data_dir, w)),
            None => InitOutcome::UnknownModel,
        }
    }
}

/// The step the job takes next.
#[derive(Debug, Clone, Copy, PartialEq, Eq, Structural)]
pub enum JobAction {
    Initialize,
    Download,
    Verify,
    Finish,
}

/// The step taken in each phase.
pub open spec fn action_for(phase: DownloadPhase) -> JobAction {
    match phase {
        DownloadPhase::Initializing => JobAction::Initialize,
        DownloadPhase::Downloading => JobAction::Download,
        DownloadPhase::Verifying => JobAction::Verify,
        DownloadPhase::Complete => JobAction::Finish,
    }
}

/// The position of a phase in the order the job goes through them.
pub open spec fn phase_rank(phase: DownloadPhase) -> int {
    match phase {
        DownloadPhase::Initializing => 0,
        DownloadPhase::Downloading => 1,
        DownloadPhase::Verifying => 2,
        DownloadPhase::Complete => 3,
    }
}

/// The phase that follows a phase once its step is done; a complete job
/// stays complete.
pub open spec fn next_phase(phase: DownloadPhase) -> DownloadPhase {
    match phase {
        DownloadPhase::Initializing => DownloadPhase::Downloading,
        DownloadPhase::Downloading => DownloadPhase::Verifying,
        DownloadPhase::Verifying => DownloadPhase::Complete,
        DownloadPhase::Complete => DownloadPhase::Complete,
    }
}

/// Phases only move forward: each step leads to the phase ranked one
/// higher, a complete job stays complete, and the step of every phase is
/// the one taken in it, the step of the complete phase being to finish.
pub proof fn law_phases_move_forward(phase: DownloadPhase)
    ensures
        phase != DownloadPhase::Complete ==> phase_rank(next_phase(phase)) == phase_rank(phase) + 1,
        phase == DownloadPhase::Complete ==> next_phase(phase) == phase,
        phase_rank(next_phase(phase)) >= phase_rank(phase),
        0 <= phase_rank(phase) <= 3,
        (action_for(phase) == JobAction::Finish) == (phase == DownloadPhase::Complete),
        phase_rank(phase) == 0 <==> phase == DownloadPhase::Initializing,
{
}

/// How a finished download is checked.
#[derive(Debug, Clone, Copy, PartialEq, Eq, Structural)]
pub enum VerifyAction {
    /// The download is an archive: the executable is extracted from it.
    ExtractArchive,
    /// The download is the file itself: its size is checked and it is moved
    /// into place.
    CheckSize,
}

/// A URL names an archive when it ends in `.tar.gz` or `.zip`.
pub open spec fn is_archive_url(url: Seq<char>) -> bool {
    has_suffix(url, ".tar.gz"@) || has_suffix(url, ".zip"@)
}

/// The archive formats an executable comes in.
#[derive(Debug, Clone, Copy, PartialEq, Eq, Structural)]
pub enum ArchiveKind {
    Zip,
    TarGz,
}

impl ModelDownloadJob {
    /// The job has not started: it is initialising, knows nothing of the
    /// download yet, and is for `model_id` under `data_dir`.
    pub open spec fn is_fresh(&self, model_id: Seq<char>, data_dir: Seq<char>) -> bool {
        &&& self.config.model_id@ == model_id
        &&& self.config.data_dir@ == data_dir
        &&& self.state.phase == DownloadPhase::Initializing
        &&& self.state.model_id@ == model_id
        &&& self.state.download_url@ == Seq::<char>::empty()
        &&& self.state.target_path@ == Seq::<char>::empty()
        &&& self.state.temp_path@ == Seq::<char>::empty()
        &&& self.state.total_bytes == 0
        &&& self.state.downloaded_bytes == 0
    }

    /// Everything but the phase is as in `other`.
    pub open spec fn same_but_phase(&self, other: &Self) -> bool {
        &&& self.config == other.config
        &&& self.state.model_id == other.state.model_id
        &&& self.state.download_url == other.state.download_url
        &&& self.state.target_path == other.state.target_path
        &&& self.state.temp_path == other.state.temp_path
        &&& self.state.total_bytes == other.state.total_bytes
        &&& self.state.downloaded_bytes == other.state.downloaded_bytes
    }

    /// A job that has not started.
    pub fn new(config: ModelDownloadConfig) -> (r: Self)
        ensures
            r.is_fresh(config.model_id@, config.data_dir@),
            r.config == config,
    {
        ModelDownloadJob {
            state: ModelDownloadState {
                phase: DownloadPhase::Initializing,
                model_id: config.model_id.clone(),
                download_url: String::new(),
                target_path: String::new(),
                temp_path: String::new(),
                total_bytes: 0,
                downloaded_bytes: 0,
            },
            config,
        }
    }

    /// A job that downloads the Whisper model `model`.
    pub fn for_whisper_model(model: WhisperModel, data_dir: String) -> (r: Self)
        ensures
            r.is_fresh(model.id@, data_dir@),
    {
        Self::new(ModelDownloadConfig { model_id: model.id, data_dir })
    }

    /// A job that downloads the SHARP executable built for `platform`, if
    /// there is one.
    pub fn for_sharp_executable(platform: Option<SharpExecutable>, data_dir: String) -> (r: Option<Self>)
        ensures
            match platform {
                Some(p) => r matches Some(j) && j.is_fresh(p.id_spec(), data_dir@),
                None => r is None,
            },
    {
        match platform {
            Some(p) => Some(
                Self::new(ModelDownloadConfig { model_id: String::from_str(p.id()), data_dir }),
            ),
            None => None,
        }
    }

    /// A job that downloads the SHARP model weights.
    pub fn for_sharp_model(data_dir: String) -> (r: Self)
        ensures
            r.is_fresh(SharpModel::ID@, data_dir@),
    {
        Self::new(
            ModelDownloadConfig { model_id: String::from_str(SharpModel::ID), data_dir },
        )
    }

    /// Settles what to download and where, from the model identifier and
    /// data directory of the job, the SHARP build of this machine and the
    /// published Whisper models.
    pub fn plan_initialize(&self, platform: Option<SharpExecutable>, catalog: &Vec<WhisperModel>) -> (r: Result<InitPlan, DownloadError>)
        ensures
            match initialize_outcome(self.config.model_id@, self.config.data_dir@, platform, catalog@) {
                InitOutcome::Planned(v) => r matches Ok(plan) && plan@ == v,
                InitOutcome::UnsupportedPlatform => r matches Err(DownloadError::UnsupportedPlatform),
                InitOutcome::UnknownModel => r matches Err(DownloadError::UnknownModelId(id)) && id@
                    == self.config.model_id@,
            },
    {
        let id = self.config.model_id.as_str();
        let data_dir = self.config.data_dir.as_str();
        if str_starts_with(id, "sharp-exec-") {
            return match platform {
                Some(p) => {
                    let dir = get_sharp_dir(data_dir);
                    let temp_name = concat_str(p.filename(), ".tmp");
                    let target_path = join_path(dir.as_str(), p.filename());
                    let temp_path = join_path(dir.as_str(), temp_name.as_str());
                    Ok(
                        InitPlan {
                            source: DownloadSource::SharpExecutable(p),
                            download_url: p.download_url(),
                            target_path,
                            temp_path,
                            total_bytes: p.size_bytes(),
                            dir,
                        },
                    )
                },
                None => Err(DownloadError::UnsupportedPlatform),
            };
        }
        if str_eq(id, SharpModel::ID) {
            let dir = get_sharp_dir(data_dir);
            let target_path = join_path(dir.as_str(), SharpModel::FILENAME);
            let temp_path = with_extension_of(target_path.as_str(), "tmp");
            return Ok(
                InitPlan {
                    source: DownloadSource::SharpModel,
                    download_url: String::from_str(SharpModel::download_url()),
                    target_path,
                    temp_path,
                    total_bytes: SharpModel::size_bytes(),
                    dir,
                },
            );
        }
        let name = replace_str(id, "whisper-", "");
        match find_whisper_model(catalog, name.as_str()) {
            Some(w) => {
                let dir = get_whisper_models_dir(data_dir);
                let target_path = join_path(dir.as_str(), w.filename.as_str());
                let temp_path = with_extension_of(target_path.as_str(), "tmp");
                Ok(
                    InitPlan {
                        source: DownloadSource::Whisper { display_name: w.display_name.clone() },
                        download_url: w.download_url.clone(),
                        target_path,
                        temp_path,
                        total_bytes: w.size_bytes,
                        dir,
                    },
                )
            },
            None => Err(DownloadError::UnknownModelId(self.config.model_id.clone())),
        }
    }

    /// Records a settled plan: the job now knows what to download and where.
    /// Its phase is left as it is.
    pub fn finish_initialize(&mut self, plan: InitPlan)
        requires
            old(self).state.phase == DownloadPhase::Initializing,
        ensures
            final(self).config == old(self).config,
            final(self).state.phase == old(self).state.phase,
            final(self).state.model_id == old(self).state.model_id,
            final(self).state.download_url@ == plan.download_url@,
            final(self).state.target_path@ == plan.target_path@,
            final(self).state.temp_path@ == plan.temp_path@,
            final(self).state.total_bytes == plan.total_bytes,
            final(self).state.downloaded_bytes == old(self).state.downloaded_bytes,
    {
        self.state.download_url = plan.download_url;
        self.state.target_path = plan.target_path;
        self.state.temp_path = plan.temp_path;
        self.state.total_bytes = plan.total_bytes;
    }

    /// The server answered: when it gave a content length, that is the size
    /// now expected.
    pub fn begin_download(&mut self, content_length: Option<u64>)
        requires
            old(self).state.phase == DownloadPhase::Downloading,
        ensures
            final(self).state.total_bytes == match content_length {
                Some(n) => n,
                None => old(self).state.total_bytes,
            },
            final(self).state.phase == old(self).state.phase,
            final(self).config == old(self).config,
            final(self).state.model_id == old(self).state.model_id,
            final(self).state.download_url == old(self).state.download_url,
            final(self).state.target_path == old(self).state.target_path,
            final(self).state.temp_path == old(self).state.temp_path,
            final(self).state.downloaded_bytes == old(self).state.downloaded_bytes,
    {
        if let Some(n) = content_length {
            self.state.total_bytes = n;
        }
    }

    /// A chunk of `chunk_len` bytes was written.  Returns whether a
    /// checkpoint is due: more than `CHECKPOINT_INTERVAL` bytes have arrived
    /// since the last one, taken when `last_checkpoint` bytes had arrived.
    pub fn record_chunk(&mut self, chunk_len: u64, last_checkpoint: u64) -> (checkpoint: bool)
        requires
            old(self).state.phase == DownloadPhase::Downloading,
            old(self).state.downloaded_bytes + chunk_len <= u64::MAX,
            last_checkpoint <= old(self).state.downloaded_bytes,
        ensures
            final(self).state.downloaded_bytes == old(self).state.downloaded_bytes + chunk_len,
            checkpoint == (final(self).state.downloaded_bytes - last_checkpoint > CHECKPOINT_INTERVAL),
            final(self).state.phase == old(self).state.phase,
            final(self).config == old(self).config,
            final(self).state.model_id == old(self).state.model_id,
            final(self).state.download_url == old(self).state.download_url,
            final(self).state.target_path == old(self).state.target_path,
            final(self).state.temp_path == old(self).state.temp_path,
            final(self).state.total_bytes == old(self).state.total_bytes,
    {
        self.state.downloaded_bytes = self.state.downloaded_bytes + chunk_len;
        self.state.downloaded_bytes - last_checkpoint > CHECKPOINT_INTERVAL
    }

    /// How the downloaded file is checked: archives are extracted, other
    /// files have their size checked.
    pub fn verify_action(&self) -> (r: VerifyAction)
        ensures
            r == if is_archive_url(self.state.download_url@) {
                VerifyAction::ExtractArchive
            } else {
                VerifyAction::CheckSize
            },
    {
        let url = self.state.download_url.as_str();
        if str_ends_with(url, ".tar.gz") || str_ends_with(url, ".zip") {
            VerifyAction::ExtractArchive
        } else {
            VerifyAction::CheckSize
        }
    }

    /// Whether a downloaded file of `actual` bytes has the expected size.
    pub fn check_downloaded_size(&self, actual: u64) -> (r: Result<(), DownloadError>)
        ensures
            r is Ok <==> actual == self.state.total_bytes,
            r matches Err(e) ==> e == (DownloadError::SizeMismatch {
                expected: self.state.total_bytes,
                actual,
            }),
    {
        if actual != self.state.total_bytes {
            Err(DownloadError::SizeMismatch { expected: self.state.total_bytes, actual })
        } else {
            Ok(())
        }
    }

    /// The step of the current phase has been done: the job moves on to the
    /// next phase, and nothing else changes.
    pub fn advance_phase(&mut self)
        requires
            old(self).state.phase != DownloadPhase::Complete,
        ensures
            final(self).state.phase == next_phase(old(self).state.phase),
            final(self).same_but_phase(old(self)),
    {
        self.state.phase = match self.state.phase {
            DownloadPhase::Initializing => DownloadPhase::Downloading,
            DownloadPhase::Downloading => DownloadPhase::Verifying,
            DownloadPhase::Verifying => DownloadPhase::Complete,
            DownloadPhase::Complete => DownloadPhase::Complete,
        };
    }

    /// What the job reports: the model, the path of the file and its size.
    pub fn output(&self) -> (r: ModelDownloadOutput)
        ensures
            r.model_id@ == self.state.model_id@,
            r.path@ == self.state.target_path@,
            r.size_bytes == self.state.total_bytes,
    {
        ModelDownloadOutput {
            model_id: self.state.model_id.clone(),
            path: self.state.target_path.clone(),
            size_bytes: self.state.total_bytes,
        }
    }

    /// The step this job takes next.
    pub fn next_action(&self) -> (r: JobAction)
        ensures
            r == action_for(self.state.phase),
    {
        match self.state.phase {
            DownloadPhase::Initializing => JobAction::Initialize,
            DownloadPhase::Downloading => JobAction::Download,
            DownloadPhase::Verifying => JobAction::Verify,
            DownloadPhase::Complete => JobAction::Finish,
        }
    }
}

impl ModelDownloadOutput {
    /// The size in whole mebibytes.
    pub fn size_mb(&self) -> (r: u64)
        ensures
            r == self.size_bytes / 1024 / 1024,
    {
        self.size_bytes / 1024 / 1024
    }
}

impl DownloadError {
    /// The message the error is reported with.
    pub open spec fn message_spec(&self) -> Seq<char> {
        match self {
            DownloadError::UnsupportedPlatform => "Unsupported platform for SHARP"@,
            DownloadError::UnknownModelId(id) => "Unknown model ID: "@ + id@,
            DownloadError::SizeMismatch { expected, actual } => "Downloaded file size mismatch: expected "@
                + decimal(*expected as nat) + " bytes, got "@ + decimal(*actual as nat) + " bytes"@,
        }
    }

    /// The message the error is reported with.
    pub fn message(&self) -> (r: String)
        ensures
            r@ == self.message_spec(),
    {
        match self {
            DownloadError::UnsupportedPlatform => String::from_str("Unsupported platform for SHARP"),
            DownloadError::UnknownModelId(id) => concat_str("Unknown model ID: ", id.as_str()),
            DownloadError::SizeMismatch { expected, actual } => {
                let mut r = String::from_str("Downloaded file size mismatch: expected ");
                r.append(decimal_string(*expected).as_str());
                r.append(" bytes, got ");
                r.append(decimal_string(*actual).as_str());
                r.append(" bytes");
                r
            },
        }
    }
}

/// The format of a downloaded archive, told by the URL it was downloaded
/// from: a zip archive when it ends in `.zip`, gzip'd tar otherwise.
pub fn archive_kind(download_url: &str) -> (r: ArchiveKind)
    ensures
        (r == ArchiveKind::Zip) == has_suffix(download_url@, ".zip"@),
{
    if str_ends_with(download_url, ".zip") {
        ArchiveKind::Zip
    } else {
        ArchiveKind::TarGz
    }
}

/// A download counts as an archive exactly when its URL ends in `.tar.gz`
/// or `.zip`; a URL ending in neither, such as a Whisper model's `.bin` or
/// the SHARP weights' `.pt`, names a file whose size is checked.
pub proof fn law_archive_urls(url: Seq<char>)
    ensures
        is_archive_url(url) <==> (has_suffix(url, ".tar.gz"@) || has_suffix(url, ".zip"@)),
        has_suffix(url, ".bin"@) ==> !is_archive_url(url),
        has_suffix(url, ".pt"@) ==> !is_archive_url(url),
{
    reveal_strlit(".tar.gz");
    reveal_strlit(".zip");
    reveal_strlit(".bin");
    reveal_strlit(".pt");
    let l = url.len() as int;
    if has_suffix(url, ".tar.gz"@) {
        assert(url[l - 1] == url.subrange(l - 7, l)[6]);
    }
    if has_suffix(url, ".zip"@) {
        assert(url[l - 1] == url.subrange(l - 4, l)[3]);
    }
    if has_suffix(url, ".bin"@) {
        assert(url[l - 1] == url.subrange(l - 4, l)[3]);
    }
    if has_suffix(url, ".pt"@) {
        assert(url[l - 1] == url.subrange(l - 3, l)[2]);
    }
}

/// A zip entry is the SHARP executable exactly when its name ends in
/// `sharp.exe` or `sharp`; a directory entry, whose name ends in a slash,
/// never is.
pub proof fn law_zip_executable_names(name: Seq<char>)
    ensures
        is_zip_executable_name(name) <==> (has_suffix(name, "sharp.exe"@) || has_suffix(name, "sharp"@)),
        name.len() > 0 && name.last() == '/' ==> !is_zip_executable_name(name),
{
    reveal_strlit("sharp.exe");
    reveal_strlit("sharp");
    let l = name.len() as int;
    if has_suffix(name, "sharp.exe"@) {
        assert(name[l - 1] == name.subrange(l - 9, l)[8]);
    }
    if has_suffix(name, "sharp"@) {
        assert(name[l - 1] == name.subrange(l - 5, l)[4]);
    }
}

/// A zip entry of this name is the SHARP executable.
pub open spec fn is_zip_executable_name(name: Seq<char>) -> bool {
    has_suffix(name, "sharp.exe"@) || has_suffix(name, "sharp"@)
}

/// Whether a zip entry of this name is the SHARP executable.
pub fn is_zip_executable_entry(name: &str) -> (r: bool)
    ensures
        r == is_zip_executable_name(name@),
{
    str_ends_with(name, "sharp.exe") || str_ends_with(name, "sharp")
}

/// Whether a tar entry at this path is the SHARP executable.
pub fn is_tar_executable_entry(path: &str) -> (r: bool)
    ensures
        r == (file_name(path@) == Some("sharp"@)),
{
    match file_name_of(path) {
        Some(name) => str_eq(name.as_str(), "sharp"),
        None => false,
    }
}

proof fn lemma_joined_lengths(base: Seq<char>, a: Seq<char>, b: Seq<char>)
    requires
        a.len() > 0 && a[0] != '/',
        b.len() > 0 && b[0] != '/',
    ensures
        join(base, a).len() - a.len() == join(base, b).len() - b.len(),
{
}

proof fn lemma_plain_sharp_names()
    ensures
        is_plain_name(SharpModel::FILENAME@),
        is_plain_name("sharp"@),
        is_plain_name("sharp.exe"@),
        is_plain_name("sharp.tmp"@),
        is_plain_name("sharp.exe.tmp"@),
        with_extension(SharpModel::FILENAME@, "tmp"@) == "sharp_2572gikvuh.tmp"@,
{
    reveal_strlit("sharp_2572gikvuh.pt");
    reveal_strlit("sharp_2572gikvuh.tmp");
    reveal_strlit("sharp");
    reveal_strlit("sharp.exe");
    reveal_strlit("sharp.tmp");
    reveal_strlit("sharp.exe.tmp");
    reveal_strlit("tmp");
    let f = SharpModel::FILENAME@;
    lemma_joined_name_bounds(Seq::<char>::empty(), f);
    assert(join(Seq::<char>::empty(), f) == f);
    assert(f.len() == 19);
    assert(f[16] == '.');
    assert(last_index_of(f, '.', 0, 17) == 16);
    assert(f[17] != '.');
    assert(last_index_of(f, '.', 0, 18) == 16);
    assert(f[18] != '.');
    assert(last_index_of(f, '.', 0, 19) == 16);
    assert(with_extension(f, "tmp"@) =~= "sharp_2572gikvuh.tmp"@);
}

/// The job for the SHARP model weights downloads them to the path the SHARP
/// manager looks for them at, through a temporary file beside it whose
/// extension is `tmp`, and checks the download by its size since the weights
/// are no archive.
pub proof fn law_sharp_model_plan(data_dir: Seq<char>, platform: Option<SharpExecutable>, catalog: Seq<WhisperModel>)
    ensures
        initialize_outcome(SharpModel::ID@, data_dir, platform, catalog) == InitOutcome::Planned(
            sharp_model_plan(data_dir),
        ),
        sharp_model_plan(data_dir).target_path == join(sharp_dir_of(data_dir), SharpModel::FILENAME@),
        sharp_model_plan(data_dir).temp_path == join(sharp_dir_of(data_dir), "sharp_2572gikvuh.tmp"@),
        sharp_model_plan(data_dir).temp_path != sharp_model_plan(data_dir).target_path,
        sharp_model_plan(data_dir).download_url == SHARP_MODEL_URL@,
        sharp_model_plan(data_dir).total_bytes == 471859200,
        sharp_model_plan(data_dir).source == SourceView::SharpModel,
        !is_archive_url(SHARP_MODEL_URL@),
{
    reveal_strlit("sharp-model");
    reveal_strlit("sharp-exec-");
    reveal_strlit("sharp_2572gikvuh.tmp");
    reveal_strlit("sharp_2572gikvuh.pt");
    reveal_strlit("https://ml-site.cdn-apple.com/models/sharp/sharp_2572gikvuh.pt");
    reveal_strlit(".tar.gz");
    reveal_strlit(".zip");
    assert(SharpModel::ID@[6] != "sharp-exec-"@[6]);
    lemma_plain_sharp_names();
    let dir = sharp_dir_of(data_dir);
    law_with_extension_of_joined_name(dir, SharpModel::FILENAME@, "tmp"@);
    lemma_joined_lengths(dir, SharpModel::FILENAME@, "sharp_2572gikvuh.tmp"@);
    let url = SHARP_MODEL_URL@;
    assert(url.subrange(url.len() - 7, url.len() as int)[6] != ".tar.gz"@[6]);
    assert(url.subrange(url.len() - 4, url.len() as int)[3] != ".zip"@[3]);
}

/// The job for a SHARP executable build downloads, on that platform, the
/// build's archive, which is extracted to the path the SHARP manager looks
/// for the executable at; the archive is written meanwhile to another file
/// beside it.  The Windows build comes as a zip archive, the others as
/// gzip'd tar.  On a platform without a build it fails.
pub proof fn law_executable_plan(p: SharpExecutable, data_dir: Seq<char>, catalog: Seq<WhisperModel>)
    ensures
        initialize_outcome(p.id_spec(), data_dir, Some(p), catalog) == InitOutcome::Planned(
            executable_plan(data_dir, p),
        ),
        initialize_outcome(p.id_spec(), data_dir, None, catalog) == InitOutcome::UnsupportedPlatform,
        executable_plan(data_dir, p).target_path == join(sharp_dir_of(data_dir), p.filename_spec()),
        file_name(executable_plan(data_dir, p).target_path) == Some(p.filename_spec()),
        executable_plan(data_dir, p).temp_path != executable_plan(data_dir, p).target_path,
        is_archive_url(executable_plan(data_dir, p).download_url),
        has_suffix(executable_plan(data_dir, p).download_url, ".zip"@) == (p == SharpExecutable::WindowsX64),
        executable_plan(data_dir, p).temp_path == executable_plan(data_dir, p).target_path + ".tmp"@,
        executable_plan(data_dir, p).dir == sharp_dir_of(data_dir),
        executable_plan(data_dir, p).download_url == p.download_url_spec(),
        executable_plan(data_dir, p).total_bytes == p.size_bytes_spec(),
        executable_plan(data_dir, p).source == SourceView::SharpExecutable(p),
{
    reveal_strlit("sharp-exec-");
    reveal_strlit("sharp-exec-macos-arm64");
    reveal_strlit("sharp-exec-macos-x64");
    reveal_strlit("sharp-exec-windows-x64");
    reveal_strlit("sharp-exec-linux-x64");
    reveal_strlit("sharp-macos-arm64.tar.gz");
    reveal_strlit("sharp-macos-x64.tar.gz");
    reveal_strlit("sharp-windows-x64.zip");
    reveal_strlit("sharp-linux-x64.tar.gz");
    reveal_strlit(".tar.gz");
    reveal_strlit(".zip");
    reveal_strlit(".tmp");
    reveal_strlit("sharp");
    reveal_strlit("sharp.exe");
    reveal_strlit("sharp.tmp");
    reveal_strlit("sharp.exe.tmp");
    let id = p.id_spec();
    assert(id.subrange(0, 11) =~= "sharp-exec-"@);
    lemma_plain_sharp_names();
    let dir = sharp_dir_of(data_dir);
    let f = p.filename_spec();
    assert(f + ".tmp"@ == "sharp.tmp"@ || f + ".tmp"@ == "sharp.exe.tmp"@) by {
        assert("sharp"@ + ".tmp"@ =~= "sharp.tmp"@);
        assert("sharp.exe"@ + ".tmp"@ =~= "sharp.exe.tmp"@);
    }
    law_file_name_of_joined_name(dir, f);
    lemma_joined_lengths(dir, f, f + ".tmp"@);
    assert(join(dir, f + ".tmp"@) =~= join(dir, f) + ".tmp"@);
    let a = p.archive_name_spec();
    let url = p.download_url_spec();
    let n = a.len() as int;
    assert(url.subrange(url.len() - 4, url.len() as int) =~= a.subrange(n - 4, n));
    assert(url.subrange(url.len() - 7, url.len() as int) =~= a.subrange(n - 7, n));
    if p == SharpExecutable::WindowsX64 {
        assert(a.subrange(n - 4, n) =~= ".zip"@);
    } else {
        assert(a.subrange(n - 7, n) =~= ".tar.gz"@);
        assert(a.subrange(n - 4, n)[0] != ".zip"@[0]);
    }
}

proof fn lemma_whisper_lookup_name(catalog: Seq<WhisperModel>, name: Seq<char>)
    ensures
        whisper_lookup(catalog, name) matches Some(w) ==> w.name@ == name,
    decreases catalog.len(),
{
    if catalog.len() > 0 && catalog[0].name@ != name {
        lemma_whisper_lookup_name(catalog.drop_first(), name);
    }
}

/// A Whisper model is downloaded under the identifier `whisper-` followed by
/// the name it is known by, as published in the catalog: from its URL, to
/// its file name in the Whisper model directory, through a file beside it
/// whose extension is `tmp`, expecting its published size.
pub proof fn law_whisper_plan(
    name: Seq<char>,
    data_dir: Seq<char>,
    platform: Option<SharpExecutable>,
    catalog: Seq<WhisperModel>,
)
    requires
        !occurs_in(name, "whisper-"@),
        whisper_lookup(catalog, name) is Some,
    ensures
        initialize_outcome("whisper-"@ + name, data_dir, platform, catalog) == InitOutcome::Planned(
            whisper_plan(data_dir, whisper_lookup(catalog, name)->0),
        ),
        whisper_lookup(catalog, name)->0.name@ == name,
        ({
            let w = whisper_lookup(catalog, name)->0;
            let plan = whisper_plan(data_dir, w);
            &&& plan.dir == whisper_dir_of(data_dir)
            &&& plan.download_url == w.download_url@
            &&& plan.target_path == join(whisper_dir_of(data_dir), w.filename@)
            &&& plan.temp_path == with_extension(plan.target_path, "tmp"@)
            &&& plan.total_bytes == w.size_bytes
            &&& plan.source == SourceView::Whisper(w.display_name@)
        }),
{
    lemma_whisper_lookup_name(catalog, name);
    reveal_strlit("whisper-");
    reveal_strlit("sharp-exec-");
    reveal_strlit("sharp-model");
    reveal_strlit("");
    let id = "whisper-"@ + name;
    assert(id[0] == 'w');
    if id.len() >= 11 {
        assert(id.subrange(0, 11)[0] != "sharp-exec-"@[0]);
    }
    assert(id != SharpModel::ID@) by {
        assert(SharpModel::ID@[0] == 's');
    }
    assert(id.subrange(0, 8) =~= "whisper-"@);
    assert(id.subrange(8, id.len() as int) =~= name);
    lemma_replace_all_absent(name, "whisper-"@, ""@);
    assert(whisper_name_of(id) =~= name);
}

} // verus!
