use anime_organizer::batch::{FallbackMode, Summary, Verdict};
use anime_organizer::error::{AppError, IoFailure};
use anime_organizer::organizer::{
    FileOrganizer, FsAction, FsOutcome, OperationMode, Platform, Step, Transfer,
};
use anime_organizer::parser::AnimeFileInfo;
use std::collections::{BTreeMap, BTreeSet};

/// A filesystem in memory: the directories that exist, the files with what
/// they hold, and the requests that are set to fail.
struct Disk {
    dirs: BTreeSet<String>,
    files: BTreeMap<String, String>,
    failing: Vec<(FsAction, IoFailure)>,
    platform: Platform,
    log: Vec<FsAction>,
    printed: Vec<String>,
}

fn join(base: &str, part: &str) -> String {
    format!("{}/{}", base, part)
}

fn not_found() -> IoFailure {
    IoFailure { code: Some(2), permission_denied: false, message: "not found".to_string() }
}

impl Disk {
    fn new() -> Disk {
        Disk {
            dirs: BTreeSet::new(),
            files: BTreeMap::new(),
            failing: Vec::new(),
            platform: Platform::Unix,
            log: Vec::new(),
            printed: Vec::new(),
        }
    }

    fn create_dir_all(&mut self, path: &str) {
        let mut at = String::new();
        for part in path.split('/').filter(|part| !part.is_empty()) {
            if !at.is_empty() || path.starts_with('/') {
                at.push('/');
            }
            at.push_str(part);
            self.dirs.insert(at.clone());
        }
    }

    fn holds(&self, path: &str) -> bool {
        self.files.contains_key(path) || self.dirs.contains(path)
    }

    fn put(&mut self, from: &str, to: &str, keep: bool) -> FsOutcome {
        let content = match self.files.get(from) {
            Some(content) => content.clone(),
            None => return FsOutcome::Failed(not_found()),
        };
        if !keep {
            self.files.remove(from);
        }
        self.files.insert(to.to_string(), content);
        FsOutcome::Done
    }

    fn remove(&mut self, path: &str) -> FsOutcome {
        match self.files.remove(path) {
            Some(_) => FsOutcome::Done,
            None => FsOutcome::Failed(not_found()),
        }
    }

    fn perform(&mut self, transfer: &Transfer, action: FsAction) -> FsOutcome {
        self.log.push(action);
        if let Some(at) = self.failing.iter().position(|(failing, _)| *failing == action) {
            return FsOutcome::Failed(self.failing.remove(at).1);
        }
        let directory = join(&transfer.target_root, &transfer.directory);
        let target = join(&directory, &transfer.file_name);
        match action {
            FsAction::Report => {
                self.printed.push(FileOrganizer::dry_run_line(&transfer.source, &target));
                FsOutcome::Done
            }
            FsAction::CreateTargetDir => {
                self.create_dir_all(&directory);
                FsOutcome::Done
            }
            FsAction::ProbeTarget => {
                if self.holds(&target) {
                    FsOutcome::Found
                } else {
                    FsOutcome::Missing
                }
            }
            FsAction::RemoveTarget => self.remove(&target),
            FsAction::RenameSource => self.put(&transfer.source, &target, false),
            FsAction::CopySource => self.put(&transfer.source, &target, true),
            FsAction::RemoveSource => self.remove(&transfer.source),
            FsAction::LinkSource => self.put(&transfer.source, &target, true),
        }
    }

    fn organize(
        &mut self,
        anime_file: &AnimeFileInfo,
        target_root: &str,
        mode: OperationMode,
        dry_run: bool,
    ) -> Result<(), AppError> {
        let mut transfer =
            FileOrganizer::organize(anime_file, target_root, mode, dry_run, self.platform);
        loop {
            let action = match &transfer.step {
                Step::Perform(action) => *action,
                Step::Finish(result) => return result.clone(),
            };
            let outcome = self.perform(&transfer, action);
            transfer = transfer.advance(outcome);
        }
    }

    fn create_test_file(&mut self, dir: &str, filename: &str, content: &str) -> String {
        let file_path = join(dir, filename);
        self.create_dir_all(dir);
        self.files.insert(file_path.clone(), content.to_string());
        file_path
    }
}

fn create_test_anime_info(source_path: &str) -> AnimeFileInfo {
    AnimeFileInfo {
        publisher: "ANi".to_string(),
        anime_name: "测试".to_string(),
        episode: "01".to_string(),
        tags: "[1080P]".to_string(),
        extension: ".mp4".to_string(),
        original_path: source_path.to_string(),
    }
}

fn failure(code: Option<i32>, permission_denied: bool) -> IoFailure {
    IoFailure { code, permission_denied, message: "failed".to_string() }
}

#[test]
fn test_organize_move_mode() {
    let mut disk = Disk::new();
    let source_file = disk.create_test_file("/source", "test.mp4", "test content");
    disk.create_dir_all("/target");
    let anime_info = create_test_anime_info(&source_file);

    let result = disk.organize(&anime_info, "/target", OperationMode::Move, false);

    assert!(result.is_ok());
    let expected_path = join(&join("/target", "测试"), "01 [1080P].mp4");
    assert!(disk.holds(&expected_path));
    assert!(!disk.holds(&source_file));
    assert_eq!(disk.files[&expected_path], "test content");
}

#[test]
fn test_organize_copy_mode() {
    let mut disk = Disk::new();
    let source_file = disk.create_test_file("/source", "test.mp4", "test content");
    disk.create_dir_all("/target");
    let anime_info = create_test_anime_info(&source_file);

    let result = disk.organize(&anime_info, "/target", OperationMode::Copy, false);

    assert!(result.is_ok());
    let expected_path = join(&join("/target", "测试"), "01 [1080P].mp4");
    assert!(disk.holds(&expected_path));
    assert!(disk.holds(&source_file));
    assert_eq!(disk.files[&expected_path], "test content");
    assert_eq!(disk.files[&source_file], "test content");
}

#[test]
fn test_organize_dry_run_does_not_modify_files() {
    let mut disk = Disk::new();
    let source_file = disk.create_test_file("/source", "test.mp4", "test content");
    disk.create_dir_all("/target");
    let anime_info = create_test_anime_info(&source_file);

    let result = disk.organize(&anime_info, "/target", OperationMode::Move, true);

    assert!(result.is_ok());
    assert!(disk.holds(&source_file));
    assert!(!disk.holds(&join("/target", "测试")));
}

#[test]
fn test_organize_creates_target_directory() {
    let mut disk = Disk::new();
    let source_file = disk.create_test_file("/source", "test.mp4", "test content");
    disk.create_dir_all("/target");
    let nested_target = join(&join("/target", "sub"), "dir");
    let anime_info = create_test_anime_info(&source_file);

    let result = disk.organize(&anime_info, &nested_target, OperationMode::Copy, false);

    assert!(result.is_ok());
    assert!(disk.holds(&join(&nested_target, "测试")));
}

#[test]
fn test_organize_overwrites_existing_file() {
    let mut disk = Disk::new();
    let source_file = disk.create_test_file("/source", "test.mp4", "new content");
    disk.create_dir_all("/target");
    let anime_info = create_test_anime_info(&source_file);

    let target_anime_dir = join("/target", "测试");
    disk.create_test_file(&target_anime_dir, "01 [1080P].mp4", "old content");

    let result = disk.organize(&anime_info, "/target", OperationMode::Copy, false);

    assert!(result.is_ok());
    let expected_path = join(&join("/target", "测试"), "01 [1080P].mp4");
    assert_eq!(disk.files[&expected_path], "new content");
}

#[test]
fn test_operation_mode_display() {
    assert_eq!(OperationMode::Move.to_string(), "move");
    assert_eq!(OperationMode::Copy.to_string(), "copy");
    assert_eq!(OperationMode::Link.to_string(), "link");
}

#[test]
fn test_operation_mode_default() {
    assert_eq!(OperationMode::default(), OperationMode::Move);
}

#[test]
fn organize_names_the_destination() {
    let info = create_test_anime_info("/downloads/[ANi] 测试 - 01 [1080P].mp4");
    let transfer =
        FileOrganizer::organize(&info, "/anime", OperationMode::Link, false, Platform::Windows);

    assert_eq!(transfer.source, "/downloads/[ANi] 测试 - 01 [1080P].mp4");
    assert_eq!(transfer.target_root, "/anime");
    assert_eq!(transfer.directory, "测试");
    assert_eq!(transfer.file_name, "01 [1080P].mp4");
    assert_eq!(transfer.mode, OperationMode::Link);
    assert_eq!(transfer.platform, Platform::Windows);
    assert_eq!(transfer.step, Step::Perform(FsAction::CreateTargetDir));
}

#[test]
fn dry_run_requests_only_the_report() {
    let mut disk = Disk::new();
    let source_file = disk.create_test_file("/source", "test.mp4", "test content");
    let anime_info = create_test_anime_info(&source_file);

    for mode in [OperationMode::Move, OperationMode::Copy, OperationMode::Link] {
        disk.log.clear();
        disk.printed.clear();
        assert_eq!(disk.organize(&anime_info, "/target", mode, true), Ok(()));
        assert_eq!(disk.log, vec![FsAction::Report]);
        assert_eq!(
            disk.printed,
            vec!["[DRY-RUN] /source/test.mp4 -> /target/测试/01 [1080P].mp4".to_string()]
        );
    }
    assert_eq!(disk.files.len(), 1);
    assert!(!disk.holds("/target"));
}

#[test]
fn dry_run_ends_well_whatever_is_answered() {
    let next = FileOrganizer::next_step(
        Platform::Unix,
        OperationMode::Link,
        FsAction::Report,
        FsOutcome::Failed(failure(Some(5), false)),
    );
    assert_eq!(next, Step::Finish(Ok(())));
}

#[test]
fn move_on_one_filesystem_is_a_rename() {
    let mut disk = Disk::new();
    let source_file = disk.create_test_file("/source", "test.mp4", "test content");
    let anime_info = create_test_anime_info(&source_file);

    assert_eq!(disk.organize(&anime_info, "/target", OperationMode::Move, false), Ok(()));
    assert_eq!(
        disk.log,
        vec![FsAction::CreateTargetDir, FsAction::ProbeTarget, FsAction::RenameSource]
    );
}

#[test]
fn move_falls_back_to_copy_and_delete() {
    let mut disk = Disk::new();
    let source_file = disk.create_test_file("/source", "test.mp4", "test content");
    let anime_info = create_test_anime_info(&source_file);
    disk.failing.push((FsAction::RenameSource, failure(Some(18), false)));

    assert_eq!(disk.organize(&anime_info, "/target", OperationMode::Move, false), Ok(()));
    assert_eq!(
        disk.log,
        vec![
            FsAction::CreateTargetDir,
            FsAction::ProbeTarget,
            FsAction::RenameSource,
            FsAction::CopySource,
            FsAction::RemoveSource,
        ]
    );
    assert_eq!(disk.files["/target/测试/01 [1080P].mp4"], "test content");
    assert!(!disk.holds(&source_file));
}

#[test]
fn move_reports_a_source_that_could_not_be_deleted() {
    let mut disk = Disk::new();
    let source_file = disk.create_test_file("/source", "test.mp4", "test content");
    let anime_info = create_test_anime_info(&source_file);
    disk.failing.push((FsAction::RenameSource, failure(Some(18), false)));
    disk.failing.push((FsAction::RemoveSource, failure(Some(13), true)));

    let result = disk.organize(&anime_info, "/target", OperationMode::Move, false);

    assert_eq!(result, Err(AppError::Io(failure(Some(13), true))));
    assert_eq!(disk.files["/target/测试/01 [1080P].mp4"], "test content");
    assert!(disk.holds(&source_file));
}

#[test]
fn move_reports_a_failed_fallback_copy() {
    let mut disk = Disk::new();
    let source_file = disk.create_test_file("/source", "test.mp4", "test content");
    let anime_info = create_test_anime_info(&source_file);
    disk.failing.push((FsAction::RenameSource, failure(Some(18), false)));
    disk.failing.push((FsAction::CopySource, failure(Some(28), false)));

    let result = disk.organize(&anime_info, "/target", OperationMode::Move, false);

    assert_eq!(result, Err(AppError::Io(failure(Some(28), false))));
    assert_eq!(disk.log.last(), Some(&FsAction::CopySource));
    assert!(disk.holds(&source_file));
}

#[test]
fn copy_leaves_the_source_alone_when_it_fails() {
    let mut disk = Disk::new();
    let source_file = disk.create_test_file("/source", "test.mp4", "test content");
    let anime_info = create_test_anime_info(&source_file);
    disk.failing.push((FsAction::CopySource, failure(Some(28), false)));

    let result = disk.organize(&anime_info, "/target", OperationMode::Copy, false);

    assert_eq!(result, Err(AppError::Io(failure(Some(28), false))));
    assert_eq!(
        disk.log,
        vec![FsAction::CreateTargetDir, FsAction::ProbeTarget, FsAction::CopySource]
    );
    assert_eq!(disk.files[&source_file], "test content");
}

#[test]
fn existing_destination_is_removed_first() {
    let mut disk = Disk::new();
    let source_file = disk.create_test_file("/source", "test.mp4", "new content");
    disk.create_test_file("/target/测试", "01 [1080P].mp4", "old content");
    let anime_info = create_test_anime_info(&source_file);

    assert_eq!(disk.organize(&anime_info, "/target", OperationMode::Link, false), Ok(()));
    assert_eq!(
        disk.log,
        vec![
            FsAction::CreateTargetDir,
            FsAction::ProbeTarget,
            FsAction::RemoveTarget,
            FsAction::LinkSource,
        ]
    );
    assert_eq!(disk.files["/target/测试/01 [1080P].mp4"], "new content");
    assert_eq!(disk.files[&source_file], "new content");
}

#[test]
fn failed_directory_creation_ends_the_transfer() {
    let mut disk = Disk::new();
    let source_file = disk.create_test_file("/source", "test.mp4", "test content");
    let anime_info = create_test_anime_info(&source_file);
    disk.failing.push((FsAction::CreateTargetDir, failure(Some(13), true)));

    let result = disk.organize(&anime_info, "/target", OperationMode::Copy, false);

    assert_eq!(result, Err(AppError::Io(failure(Some(13), true))));
    assert_eq!(disk.log, vec![FsAction::CreateTargetDir]);
}

#[test]
fn failed_removal_of_the_destination_ends_the_transfer() {
    let mut disk = Disk::new();
    let source_file = disk.create_test_file("/source", "test.mp4", "new content");
    disk.create_test_file("/target/测试", "01 [1080P].mp4", "old content");
    let anime_info = create_test_anime_info(&source_file);
    disk.failing.push((FsAction::RemoveTarget, failure(Some(13), true)));

    let result = disk.organize(&anime_info, "/target", OperationMode::Move, false);

    assert_eq!(result, Err(AppError::Io(failure(Some(13), true))));
    assert_eq!(disk.files["/target/测试/01 [1080P].mp4"], "old content");
    assert!(disk.holds(&source_file));
}

#[test]
fn link_across_devices_is_classified() {
    for (platform, code) in [(Platform::Unix, 18), (Platform::Windows, 17)] {
        let mut disk = Disk::new();
        disk.platform = platform;
        let source_file = disk.create_test_file("/source", "test.mp4", "test content");
        let anime_info = create_test_anime_info(&source_file);
        disk.failing.push((FsAction::LinkSource, failure(Some(code), false)));

        let result = disk.organize(&anime_info, "/target", OperationMode::Link, false);

        assert_eq!(result, Err(AppError::CrossDeviceLink));
        assert_eq!(disk.log.last(), Some(&FsAction::LinkSource));
        assert!(!disk.holds("/target/测试/01 [1080P].mp4"));
    }
}

#[test]
fn link_that_fails_with_another_platforms_code_is_an_io_failure() {
    for (platform, code) in [(Platform::Unix, 17), (Platform::Windows, 18)] {
        let mut disk = Disk::new();
        disk.platform = platform;
        let source_file = disk.create_test_file("/source", "test.mp4", "test content");
        let anime_info = create_test_anime_info(&source_file);
        disk.failing.push((FsAction::LinkSource, failure(Some(code), false)));

        let result = disk.organize(&anime_info, "/target", OperationMode::Link, false);

        assert_eq!(result, Err(AppError::Io(failure(Some(code), false))));
        assert_eq!(disk.log.last(), Some(&FsAction::LinkSource));
        assert!(disk.holds(&source_file));
    }
}

#[test]
fn link_without_permission_is_unsupported() {
    let mut disk = Disk::new();
    let source_file = disk.create_test_file("/source", "test.mp4", "test content");
    let anime_info = create_test_anime_info(&source_file);
    disk.failing.push((FsAction::LinkSource, failure(Some(1), true)));

    let result = disk.organize(&anime_info, "/target", OperationMode::Link, false);

    assert_eq!(result, Err(AppError::HardLinkNotSupported));
    assert_eq!(disk.log.last(), Some(&FsAction::LinkSource));
    assert!(disk.holds(&source_file));
}

#[test]
fn link_that_fails_otherwise_reports_the_failure() {
    let mut disk = Disk::new();
    let anime_info = create_test_anime_info("/source/missing.mp4");

    let result = disk.organize(&anime_info, "/target", OperationMode::Link, false);

    assert_eq!(result, Err(AppError::Io(not_found())));
    assert!(!disk.holds("/target/测试/01 [1080P].mp4"));
}

#[test]
fn classify_link_failure_names_each_kind() {
    let unix = Platform::Unix;
    assert_eq!(
        FileOrganizer::classify_link_failure(unix, failure(Some(18), false)),
        AppError::CrossDeviceLink
    );
    assert_eq!(
        FileOrganizer::classify_link_failure(unix, failure(Some(18), true)),
        AppError::CrossDeviceLink
    );
    assert_eq!(
        FileOrganizer::classify_link_failure(unix, failure(Some(1), true)),
        AppError::HardLinkNotSupported
    );
    assert_eq!(
        FileOrganizer::classify_link_failure(unix, failure(None, true)),
        AppError::HardLinkNotSupported
    );
    assert_eq!(
        FileOrganizer::classify_link_failure(unix, failure(Some(2), false)),
        AppError::Io(failure(Some(2), false))
    );
    assert_eq!(
        FileOrganizer::classify_link_failure(unix, failure(None, false)),
        AppError::Io(failure(None, false))
    );
}

#[test]
fn classify_link_failure_reads_the_platforms_own_code() {
    let windows = Platform::Windows;
    assert_eq!(
        FileOrganizer::classify_link_failure(windows, failure(Some(17), false)),
        AppError::CrossDeviceLink
    );
    assert_eq!(
        FileOrganizer::classify_link_failure(windows, failure(Some(18), false)),
        AppError::Io(failure(Some(18), false))
    );
    assert_eq!(
        FileOrganizer::classify_link_failure(windows, failure(Some(18), true)),
        AppError::HardLinkNotSupported
    );
    assert_eq!(
        FileOrganizer::classify_link_failure(Platform::Unix, failure(Some(17), false)),
        AppError::Io(failure(Some(17), false))
    );
    assert_eq!(
        FileOrganizer::classify_link_failure(Platform::Unix, failure(Some(17), true)),
        AppError::HardLinkNotSupported
    );
}

#[test]
fn cross_device_code_is_the_platforms() {
    assert_eq!(Platform::Unix.cross_device_code(), 18);
    assert_eq!(Platform::Windows.cross_device_code(), 17);
}

#[test]
fn existing_destination_is_no_reason_to_fall_back() {
    let exists = FileOrganizer::classify_link_failure(Platform::Unix, failure(Some(17), false));
    let mut summary = Summary::new();
    let verdict =
        summary.settle(OperationMode::Link, Some(FallbackMode::Copy), false, Err(exists));
    assert_eq!(verdict, Verdict::Failed(AppError::Io(failure(Some(17), false))));
    assert_eq!(summary, Summary { processed: 1, succeeded: 0, failed: 1 });
}

#[test]
fn transfer_action_follows_the_mode() {
    assert_eq!(FileOrganizer::transfer_action(OperationMode::Move), FsAction::RenameSource);
    assert_eq!(FileOrganizer::transfer_action(OperationMode::Copy), FsAction::CopySource);
    assert_eq!(FileOrganizer::transfer_action(OperationMode::Link), FsAction::LinkSource);
}

#[test]
fn finished_transfer_stays_finished() {
    let info = create_test_anime_info("/source/test.mp4");
    let transfer =
        FileOrganizer::organize(&info, "/target", OperationMode::Copy, true, Platform::Unix);
    let transfer = transfer.advance(FsOutcome::Done);
    assert_eq!(transfer.step, Step::Finish(Ok(())));
    let transfer = transfer.advance(FsOutcome::Failed(failure(Some(5), false)));
    assert_eq!(transfer.step, Step::Finish(Ok(())));
    assert_eq!(transfer.file_name, "01 [1080P].mp4");
}

#[test]
fn every_transfer_ends_within_six_requests() {
    let modes = [OperationMode::Move, OperationMode::Copy, OperationMode::Link];
    for mode in modes {
        for answers in 0..4u32.pow(6) {
            let info = create_test_anime_info("/source/test.mp4");
            let mut transfer =
                FileOrganizer::organize(&info, "/target", mode, false, Platform::Unix);
            let mut requests = 0;
            let mut rest = answers;
            while let Step::Perform(_) = transfer.step {
                let outcome = match rest % 4 {
                    0 => FsOutcome::Done,
                    1 => FsOutcome::Found,
                    2 => FsOutcome::Missing,
                    _ => FsOutcome::Failed(failure(Some(5), false)),
                };
                rest /= 4;
                transfer = transfer.advance(outcome);
                requests += 1;
                assert!(requests <= 6);
            }
        }
    }
}
