use package_installer::failure::InstallFailure;
use package_installer::format::package_extension;
use package_installer::pipeline::{Event, Next, Phase, Pipeline, Reaction, Setting};
use package_installer::progress::InstallProgress;
use package_installer::registry::{registry_plan, Reg};
use package_installer::shortcut::{shortcut_plan, ShortCut};

fn reg() -> Reg {
    Reg {
        display_name: String::from("Demo"),
        display_version: String::from("1.0"),
        publisher: String::from("Acme"),
        install_location: String::from("C:\\Demo"),
        uninstall_string: String::from("C:\\Demo\\un.exe"),
    }
}

fn short_cut() -> ShortCut {
    ShortCut {
        target_path: String::from("C:\\Demo\\demo.exe"),
        shortcut_name: String::from("Demo"),
        working_dir: String::from("C:\\Demo"),
        description: String::from("Demo"),
    }
}

fn zip_run(setting: Option<Setting>) -> Pipeline {
    Pipeline::new(String::from("zip"), setting)
}

fn go_on(next: Next) -> Reaction {
    Reaction { progress: None, failure: None, remove_save_file: false, next }
}

fn failed(failure: InstallFailure) -> Reaction {
    Reaction { progress: None, failure: Some(failure), remove_save_file: true, next: Next::Stop }
}

fn completed() -> Reaction {
    Reaction {
        progress: Some(InstallProgress { progress: 100 }),
        failure: None,
        remove_save_file: true,
        next: Next::Stop,
    }
}

fn idle() -> Reaction {
    go_on(Next::Nothing)
}

fn streaming(total: Option<u64>, extension: &str, setting: Option<Setting>) -> Pipeline {
    let mut p = Pipeline::new(String::from(extension), setting);
    assert_eq!(p.step(Event::FetchStarted { content_length: total }), go_on(Next::CreateSaveFile));
    assert_eq!(p.step(Event::SaveFileCreated), go_on(Next::ReadChunk));
    assert_eq!(p.phase, Phase::Streaming);
    p
}

fn extracting(setting: Option<Setting>) -> Pipeline {
    let mut p = streaming(Some(10), "zip", setting);
    p.step(Event::StreamEnded);
    assert_eq!(p.step(Event::ArchiveOpened), go_on(Next::Extract));
    assert_eq!(p.phase, Phase::Extracting);
    p
}

#[test]
fn new_run_awaits_the_response() {
    let p = zip_run(None);
    assert_eq!(p.phase, Phase::Fetching);
    assert_eq!(p.reg, None);
    assert_eq!(p.short_cut, None);
    let q = zip_run(Some(Setting { reg: Some(reg()), short_cut: None }));
    assert_eq!(q.reg, Some(reg()));
    assert_eq!(q.short_cut, None);
}

#[test]
fn failed_request_ends_the_run() {
    let mut p = zip_run(None);
    assert_eq!(p.step(Event::FetchFailed), failed(InstallFailure::FetchFailed));
    assert_eq!(p.phase, Phase::Failed);
}

#[test]
fn save_file_that_cannot_be_created_ends_the_run() {
    let mut p = zip_run(None);
    p.step(Event::FetchStarted { content_length: Some(1) });
    assert_eq!(
        p.step(Event::SaveFileNotCreated { reason: String::from("denied") }),
        failed(InstallFailure::SaveFileNotCreated { reason: String::from("denied") })
    );
    assert_eq!(p.phase, Phase::Failed);
}

#[test]
fn chunks_raise_the_progress_step_by_step() {
    let mut p = streaming(Some(200), "zip", None);
    let first = p.step(Event::ChunkStored { len: 100 });
    assert_eq!(
        first,
        Reaction {
            progress: Some(InstallProgress { progress: 50 }),
            failure: None,
            remove_save_file: false,
            next: Next::ReadChunk,
        }
    );
    assert_eq!(p.step(Event::ChunkStored { len: 1 }), go_on(Next::ReadChunk));
    assert_eq!(p.step(Event::ChunkStored { len: 1 }).progress, Some(InstallProgress { progress: 51 }));
    assert_eq!(p.step(Event::ChunkStored { len: 98 }).progress, Some(InstallProgress { progress: 98 }));
    assert_eq!(p.step(Event::ChunkStored { len: 50 }), go_on(Next::ReadChunk));
    assert_eq!(p.tracker.downloaded, 250);
}

#[test]
fn chunk_that_cannot_be_stored_ends_the_run() {
    let mut p = streaming(Some(200), "zip", None);
    assert_eq!(
        p.step(Event::ChunkNotStored { reason: String::from("disk full") }),
        failed(InstallFailure::WriteFailed { reason: String::from("disk full") })
    );
}

#[test]
fn broken_stream_ends_the_run() {
    let mut p = streaming(Some(200), "zip", None);
    p.step(Event::ChunkStored { len: 20 });
    assert_eq!(
        p.step(Event::StreamBroken { reason: String::from("reset") }),
        failed(InstallFailure::StreamInterrupted { reason: String::from("reset") })
    );
    assert_eq!(p.phase, Phase::Failed);
}

#[test]
fn end_of_stream_announces_ninety_nine_and_opens_the_package() {
    let mut p = streaming(Some(200), "zip", None);
    p.step(Event::ChunkStored { len: 200 });
    assert_eq!(
        p.step(Event::StreamEnded),
        Reaction {
            progress: Some(InstallProgress { progress: 99 }),
            failure: None,
            remove_save_file: false,
            next: Next::OpenArchive,
        }
    );
    assert_eq!(p.phase, Phase::Opening);
}

#[test]
fn other_format_is_refused_after_the_download() {
    let mut p = streaming(Some(200), &package_extension("/tmp/PKG.TAR"), None);
    p.step(Event::ChunkStored { len: 200 });
    let got = p.step(Event::StreamEnded);
    assert_eq!(
        got,
        Reaction {
            progress: Some(InstallProgress { progress: 99 }),
            failure: Some(InstallFailure::UnsupportedFormat { extension: String::from("tar") }),
            remove_save_file: true,
            next: Next::Stop,
        }
    );
    assert_eq!(got.failure.unwrap().message(), "Unsupported file ext: tar");
    assert_eq!(p.phase, Phase::Failed);
    assert_eq!(p.step(Event::ArchiveOpened), idle());
    assert_eq!(p.step(Event::Extracted), idle());
}

#[test]
fn missing_extension_is_refused_after_the_download() {
    let mut p = streaming(None, &package_extension("/tmp/pkg"), None);
    let got = p.step(Event::StreamEnded);
    assert_eq!(
        got.failure,
        Some(InstallFailure::UnsupportedFormat { extension: String::new() })
    );
    assert_eq!(got.next, Next::Stop);
}

#[test]
fn upper_case_extension_is_accepted() {
    let mut p = streaming(None, &package_extension("/tmp/PKG.ZIP"), None);
    assert_eq!(p.step(Event::StreamEnded).next, Next::OpenArchive);
}

#[test]
fn unknown_length_streams_in_silence_and_goes_on() {
    let mut p = streaming(None, "zip", None);
    for _ in 0..20 {
        assert_eq!(p.step(Event::ChunkStored { len: 4096 }), go_on(Next::ReadChunk));
    }
    assert_eq!(p.step(Event::StreamEnded).progress, Some(InstallProgress { progress: 99 }));
    assert_eq!(p.step(Event::ArchiveOpened), go_on(Next::Extract));
    assert_eq!(p.step(Event::Extracted), completed());
    assert_eq!(p.phase, Phase::Finished);
}

#[test]
fn zero_length_streams_in_silence_and_goes_on() {
    let mut p = streaming(Some(0), "zip", None);
    assert_eq!(p.step(Event::ChunkStored { len: 1 }), go_on(Next::ReadChunk));
    assert_eq!(p.step(Event::StreamEnded).next, Next::OpenArchive);
}

#[test]
fn package_that_cannot_be_opened_ends_the_run() {
    let mut p = streaming(Some(10), "zip", None);
    p.step(Event::StreamEnded);
    assert_eq!(
        p.step(Event::ArchiveNotOpened { reason: String::from("gone") }),
        failed(InstallFailure::ArchiveNotOpened { reason: String::from("gone") })
    );
}

#[test]
fn failed_extraction_ends_the_run() {
    let mut p = extracting(Some(Setting { reg: Some(reg()), short_cut: Some(short_cut()) }));
    assert_eq!(
        p.step(Event::ExtractionFailed { reason: String::from("bad entry") }),
        failed(InstallFailure::ExtractionFailed { reason: String::from("bad entry") })
    );
    assert_eq!(p.step(Event::RegistryWritten), idle());
}

#[test]
fn run_without_settings_completes_after_extraction() {
    let mut p = extracting(None);
    assert_eq!(p.step(Event::Extracted), completed());
    let mut q = extracting(Some(Setting { reg: None, short_cut: None }));
    assert_eq!(q.step(Event::Extracted), completed());
}

#[test]
fn registry_is_written_before_the_shortcut() {
    let mut p = extracting(Some(Setting { reg: Some(reg()), short_cut: Some(short_cut()) }));
    assert_eq!(p.step(Event::Extracted), go_on(Next::WriteRegistry(registry_plan(&reg()))));
    assert_eq!(p.phase, Phase::Registering);
    assert_eq!(
        p.step(Event::RegistryWritten),
        go_on(Next::CreateShortcut(shortcut_plan(&short_cut())))
    );
    assert_eq!(p.phase, Phase::Linking);
    assert_eq!(p.step(Event::ShortcutCreated), completed());
    assert_eq!(p.phase, Phase::Finished);
}

#[test]
fn registry_alone_is_written_and_no_shortcut_made() {
    let mut p = extracting(Some(Setting { reg: Some(reg()), short_cut: None }));
    assert_eq!(p.step(Event::Extracted), go_on(Next::WriteRegistry(registry_plan(&reg()))));
    assert_eq!(p.step(Event::RegistryWritten), completed());
}

#[test]
fn shortcut_alone_is_made_and_no_registry_written() {
    let mut p = extracting(Some(Setting { reg: None, short_cut: Some(short_cut()) }));
    assert_eq!(
        p.step(Event::Extracted),
        go_on(Next::CreateShortcut(shortcut_plan(&short_cut())))
    );
    assert_eq!(p.step(Event::ShortcutCreated), completed());
}

#[test]
fn registry_failure_ends_the_run_before_the_shortcut() {
    let mut p = extracting(Some(Setting { reg: Some(reg()), short_cut: Some(short_cut()) }));
    p.step(Event::Extracted);
    assert_eq!(
        p.step(Event::RegistryNotWritten { reason: String::from("access denied") }),
        failed(InstallFailure::RegistryWriteFailed { reason: String::from("access denied") })
    );
    assert_eq!(p.step(Event::ShortcutCreated), idle());
    assert_eq!(p.phase, Phase::Failed);
}

#[test]
fn shortcut_failure_ends_the_run_without_completion() {
    let mut p = extracting(Some(Setting { reg: None, short_cut: Some(short_cut()) }));
    p.step(Event::Extracted);
    assert_eq!(
        p.step(Event::ShortcutNotCreated { reason: String::from("no desktop") }),
        failed(InstallFailure::ShortcutCreationFailed { reason: String::from("no desktop") })
    );
}

#[test]
fn report_out_of_turn_changes_nothing() {
    let mut p = zip_run(None);
    assert_eq!(p.step(Event::ChunkStored { len: 5 }), idle());
    assert_eq!(p.step(Event::StreamEnded), idle());
    assert_eq!(p.step(Event::Extracted), idle());
    assert_eq!(p.phase, Phase::Fetching);
    assert_eq!(p.tracker.downloaded, 0);
    let mut q = streaming(Some(10), "zip", None);
    assert_eq!(q.step(Event::FetchFailed), idle());
    assert_eq!(q.step(Event::ShortcutCreated), idle());
    assert_eq!(q.phase, Phase::Streaming);
}

#[test]
fn finished_run_answers_nothing_more() {
    let mut p = extracting(None);
    p.step(Event::Extracted);
    assert_eq!(p.step(Event::Extracted), idle());
    assert_eq!(p.step(Event::FetchFailed), idle());
    assert_eq!(p.phase, Phase::Finished);
}

#[test]
fn run_reports_at_most_one_failure() {
    let mut p = streaming(Some(10), "zip", None);
    let mut failures = 0;
    let reports = vec![
        Event::StreamBroken { reason: String::from("a") },
        Event::StreamBroken { reason: String::from("b") },
        Event::ChunkNotStored { reason: String::from("c") },
        Event::FetchFailed,
        Event::ExtractionFailed { reason: String::from("d") },
    ];
    for report in reports {
        let got = p.step(report);
        if got.failure.is_some() {
            failures += 1;
            assert!(got.remove_save_file);
            assert_eq!(got.next, Next::Stop);
        }
    }
    assert_eq!(failures, 1);
}

#[test]
fn progress_of_a_whole_run_strictly_increases() {
    let mut p = Pipeline::new(
        String::from("zip"),
        Some(Setting { reg: Some(reg()), short_cut: Some(short_cut()) }),
    );
    let mut reports = vec![Event::FetchStarted { content_length: Some(1000) }, Event::SaveFileCreated];
    for _ in 0..125 {
        reports.push(Event::ChunkStored { len: 8 });
    }
    reports.push(Event::StreamEnded);
    reports.push(Event::ArchiveOpened);
    reports.push(Event::Extracted);
    reports.push(Event::RegistryWritten);
    reports.push(Event::ShortcutCreated);
    let mut seen: Vec<u32> = Vec::new();
    for report in reports {
        if let Some(p) = p.step(report).progress {
            seen.push(p.progress);
        }
    }
    for pair in seen.windows(2) {
        assert!(pair[0] < pair[1]);
    }
    assert_eq!(seen.len(), 100);
    assert_eq!(seen[0], 1);
    assert_eq!(seen[97], 98);
    assert_eq!(seen[98], 99);
    assert_eq!(seen[99], 100);
}

#[test]
fn run_for_a_package_looks_at_the_extension_of_its_save_path() {
    let p = Pipeline::for_package("/tmp/PKG.ZIP", None);
    assert_eq!(p, Pipeline::new(String::from("zip"), None));
    let q = Pipeline::for_package(
        "/tmp/PKG.TAR",
        Some(Setting { reg: Some(reg()), short_cut: None }),
    );
    assert_eq!(q.extension, "tar");
    assert_eq!(q.phase, Phase::Fetching);
    assert_eq!(q.reg, Some(reg()));
    assert_eq!(q.short_cut, None);
    let r = Pipeline::for_package("/tmp/pkg", None);
    assert_eq!(r.extension, "");
}

#[test]
fn run_for_a_package_of_another_format_is_refused() {
    let mut p = Pipeline::for_package("/tmp/PKG.TAR", None);
    p.step(Event::FetchStarted { content_length: None });
    p.step(Event::SaveFileCreated);
    let got = p.step(Event::StreamEnded);
    assert_eq!(got.progress, Some(InstallProgress { progress: 99 }));
    assert_eq!(got.failure.unwrap().message(), "Unsupported file ext: tar");
    assert_eq!(got.next, Next::Stop);
}
