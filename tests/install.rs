use protonup_cachyos::{
    choose_install_root, detect_arch, ends_with, find_payload, install_name_of,
    install_root_candidates, join_path, prune_targets, select_asset, starts_with, Action,
    EntryInfo, Event, InstallError, MicroarchTag, Outcome, Release, ReleaseAsset, Run, Stage,
};

const V3_URL: &str =
    "https://github.com/CachyOS/proton-cachyos/releases/download/t/proton-cachyos-10.0-20250601-slr-x86_64_v3.tar.xz";
const BASE_URL: &str =
    "https://github.com/CachyOS/proton-cachyos/releases/download/t/proton-cachyos-10.0-20250601-slr-x86_64.tar.xz";

fn release(urls: &[&str]) -> Release {
    Release {
        tag_name: "cachyos-10.0-20250601-slr".to_string(),
        assets: urls
            .iter()
            .map(|u| ReleaseAsset { browser_download_url: u.to_string() })
            .collect(),
    }
}

fn entry(name: &str, is_dir: bool) -> EntryInfo {
    EntryInfo { name: name.to_string(), is_dir }
}

fn names(entries: &[EntryInfo], picked: &[usize]) -> Vec<String> {
    picked.iter().map(|i| entries[*i].name.clone()).collect()
}

#[test]
fn detect_all_v3_features() {
    let report = b"processor\t: 0\nflags\t\t: fpu sse2 avx2 bmi1 bmi2 fma\nbugs\t: none\n";
    assert_eq!(detect_arch(Some(&report[..])), MicroarchTag::V3);
}

#[test]
fn detect_missing_one_feature() {
    let report = b"processor\t: 0\nflags\t\t: fpu sse2 avx2 bmi1 fma\n";
    assert_eq!(detect_arch(Some(&report[..])), MicroarchTag::Baseline);
}

#[test]
fn detect_absent_report() {
    assert_eq!(detect_arch(None), MicroarchTag::Baseline);
}

#[test]
fn detect_no_flags_line() {
    let report = b"processor\t: 0\nmodel name\t: avx2 bmi1 bmi2 fma\n";
    assert_eq!(detect_arch(Some(&report[..])), MicroarchTag::Baseline);
}

#[test]
fn detect_only_first_flags_line_counts() {
    let report = b"flags\t: sse2\nflags\t: avx2 bmi1 bmi2 fma\n";
    assert_eq!(detect_arch(Some(&report[..])), MicroarchTag::Baseline);
    let report = b"flags\t: avx2 bmi1 bmi2 fma\nflags\t: sse2\n";
    assert_eq!(detect_arch(Some(&report[..])), MicroarchTag::V3);
}

#[test]
fn detect_features_on_other_lines_do_not_count() {
    let report = b"flags\t: avx2 bmi1\nmore\t: bmi2 fma\n";
    assert_eq!(detect_arch(Some(&report[..])), MicroarchTag::Baseline);
}

#[test]
fn detect_last_line_without_newline() {
    let report = b"cpu\t: x\r\nflags\t: fma bmi2 bmi1 avx2";
    assert_eq!(detect_arch(Some(&report[..])), MicroarchTag::V3);
}

#[test]
fn detect_fma4_is_not_fma() {
    let report = b"flags\t\t: fpu avx2 bmi1 bmi2 fma4\n";
    assert_eq!(detect_arch(Some(&report[..])), MicroarchTag::Baseline);
}

#[test]
fn detect_flags_must_be_whole_words() {
    let report = b"flags\t: xavx2 bmi1 bmi2 fma\n";
    assert_eq!(detect_arch(Some(&report[..])), MicroarchTag::Baseline);
    let report = b"flags\t: avx2 bmi1_x bmi2 fma\n";
    assert_eq!(detect_arch(Some(&report[..])), MicroarchTag::Baseline);
}

#[test]
fn detect_flag_separators() {
    let report = b"flags:avx2\tbmi1 bmi2 fma\r\n";
    assert_eq!(detect_arch(Some(&report[..])), MicroarchTag::V3);
}

#[test]
fn new_run_waits_only_for_user_id() {
    let run = Run::new();
    assert!(run.accepts_event(&Event::Euid(0)));
    assert!(!run.accepts_event(&Event::Home(Some("/h".to_string()))));
    assert!(!run.accepts_event(&Event::CpuInfo(None)));
}

#[test]
fn detect_empty_report() {
    assert_eq!(detect_arch(Some(&b""[..])), MicroarchTag::Baseline);
}

#[test]
fn select_v3_asset() {
    let rel = release(&[BASE_URL, V3_URL]);
    assert_eq!(select_asset(&rel, MicroarchTag::V3), Ok(V3_URL.to_string()));
}

#[test]
fn select_baseline_asset() {
    let rel = release(&[V3_URL, BASE_URL]);
    assert_eq!(select_asset(&rel, MicroarchTag::Baseline), Ok(BASE_URL.to_string()));
}

#[test]
fn select_baseline_with_only_v3_assets() {
    let rel = release(&[V3_URL, "https://x/proton-cachyos-9-x86_64_v3.tar.xz"]);
    assert_eq!(select_asset(&rel, MicroarchTag::Baseline), Err(InstallError::NoMatchingAsset));
}

#[test]
fn select_from_no_assets() {
    let rel = release(&[]);
    assert_eq!(select_asset(&rel, MicroarchTag::V3), Err(InstallError::NoMatchingAsset));
}

#[test]
fn select_first_in_feed_order() {
    let rel = release(&["https://a/one-x86_64_v3.tar.xz", "https://b/two-x86_64_v3.tar.xz"]);
    assert_eq!(
        select_asset(&rel, MicroarchTag::V3),
        Ok("https://a/one-x86_64_v3.tar.xz".to_string())
    );
}

#[test]
fn install_name_strips_path_and_extension() {
    assert_eq!(
        install_name_of(V3_URL),
        Some("proton-cachyos-10.0-20250601-slr-x86_64_v3".to_string())
    );
    assert_eq!(install_name_of("pkg.tar.xz"), Some("pkg".to_string()));
}

#[test]
fn install_name_needs_archive_extension() {
    assert_eq!(install_name_of("https://x/pkg.zip"), None);
    assert_eq!(install_name_of("https://x/pkg.tar.xz/"), None);
}

#[test]
fn root_candidates_below_home() {
    let c = install_root_candidates("/home/u");
    assert_eq!(
        c,
        vec![
            "/home/u/.steam/root/compatibilitytools.d".to_string(),
            "/home/u/.local/share/Steam/compatibilitytools.d".to_string(),
        ]
    );
}

#[test]
fn root_choice_prefers_existing() {
    assert_eq!(choose_install_root(&vec![false, true]), 1);
    assert_eq!(choose_install_root(&vec![true, true]), 0);
    assert_eq!(choose_install_root(&vec![false, false]), 0);
}

#[test]
fn payload_is_first_proton_directory() {
    let entries = vec![
        entry("README", false),
        entry("proton-file", false),
        entry("other", true),
        entry("proton-cachyos-10", true),
        entry("proton-x", true),
    ];
    assert_eq!(find_payload(&entries), Some(3));
}

#[test]
fn payload_missing() {
    let entries = vec![entry("files", true), entry("proton-x", false)];
    assert_eq!(find_payload(&entries), None);
    assert_eq!(find_payload(&vec![]), None);
}

#[test]
fn prune_removes_only_superseded_versions() {
    let entries = vec![
        entry("proton-cachyos-1", true),
        entry("other-thing", true),
        entry("proton-cachyos-X", true),
        entry("proton-cachyos-2", true),
        entry("proton-cachyos-3", false),
        entry("proton-ge-9", true),
    ];
    let picked = prune_targets(&entries, "proton-cachyos-X");
    assert_eq!(picked, vec![0, 3]);
    assert_eq!(names(&entries, &picked), vec!["proton-cachyos-1", "proton-cachyos-2"]);
}

#[test]
fn prune_nothing_when_only_current() {
    let entries = vec![entry("proton-cachyos-X", true), entry("other-thing", true)];
    assert!(prune_targets(&entries, "proton-cachyos-X").is_empty());
}

#[test]
fn text_helpers() {
    assert!(starts_with("proton-cachyos-1", "proton-"));
    assert!(!starts_with("pro", "proton-"));
    assert!(ends_with("a-x86_64.tar.xz", "x86_64.tar.xz"));
    assert!(!ends_with("a-x86_64_v3.tar.xz", "x86_64.tar.xz"));
    assert_eq!(join_path("/r", "n"), "/r/n");
}

/// Drives a run to the stage that waits for the release metadata.
fn run_to_metadata(cpu: &[u8]) -> Run {
    let mut run = Run::new();
    assert!(matches!(run.step(Event::Euid(1000)), Action::ReadHome));
    match run.step(Event::Home(Some("/home/u".to_string()))) {
        Action::ProbeRoots(c) => assert_eq!(c.len(), 2),
        _ => panic!("expected a probe"),
    }
    match run.step(Event::RootsExist(vec![false, true])) {
        Action::CreateRoot(r) => assert_eq!(r, "/home/u/.local/share/Steam/compatibilitytools.d"),
        _ => panic!("expected a create"),
    }
    assert!(matches!(run.step(Event::RootCreated(true)), Action::ReadCpuInfo));
    match run.step(Event::CpuInfo(Some(cpu.to_vec()))) {
        Action::FetchMetadata(url, ua) => {
            assert_eq!(url, "https://api.github.com/repos/CachyOS/proton-cachyos/releases/latest");
            assert_eq!(ua, "protonup-cachyos");
        }
        _ => panic!("expected a fetch"),
    }
    run
}

const V3_CPU: &[u8] = b"flags : avx2 bmi1 bmi2 fma\n";

/// Drives a run to the stage that waits to learn whether the target exists.
fn run_to_installed_check() -> Run {
    let mut run = run_to_metadata(V3_CPU);
    assert_eq!(run.tag, MicroarchTag::V3);
    match run.step(Event::Metadata(Ok(release(&[BASE_URL, V3_URL])))) {
        Action::CheckInstalled(p) => assert_eq!(
            p,
            "/home/u/.local/share/Steam/compatibilitytools.d/proton-cachyos-10.0-20250601-slr-x86_64_v3"
        ),
        _ => panic!("expected a check"),
    }
    run
}

#[test]
fn superuser_is_refused_first() {
    let mut run = Run::new();
    assert!(matches!(run.step(Event::Euid(0)), Action::Fail(InstallError::Privilege)));
    assert_eq!(run.stage, Stage::Failed);
    assert!(!run.accepts_event(&Event::Home(Some("/root".to_string()))));
}

#[test]
fn missing_home_is_config_error() {
    let mut run = Run::new();
    run.step(Event::Euid(1000));
    assert!(matches!(run.step(Event::Home(None)), Action::Fail(InstallError::Config)));
}

#[test]
fn root_creation_failure() {
    let mut run = Run::new();
    run.step(Event::Euid(1000));
    run.step(Event::Home(Some("/h".to_string())));
    run.step(Event::RootsExist(vec![false, false]));
    assert_eq!(run.root, "/h/.steam/root/compatibilitytools.d");
    assert!(matches!(run.step(Event::RootCreated(false)), Action::Fail(InstallError::Filesystem)));
}

#[test]
fn metadata_errors_pass_through() {
    let mut run = run_to_metadata(b"");
    assert!(matches!(run.step(Event::Metadata(Err(InstallError::Network))), Action::Fail(InstallError::Network)));
    let mut run = run_to_metadata(b"");
    assert!(matches!(run.step(Event::Metadata(Err(InstallError::Parse))), Action::Fail(InstallError::Parse)));
}

#[test]
fn run_without_matching_asset() {
    let mut run = run_to_metadata(b"flags : sse2\n");
    assert_eq!(run.tag, MicroarchTag::Baseline);
    assert!(matches!(
        run.step(Event::Metadata(Ok(release(&[V3_URL])))),
        Action::Fail(InstallError::NoMatchingAsset)
    ));
}

#[test]
fn already_installed_run_downloads_nothing() {
    let mut run = run_to_installed_check();
    assert!(matches!(run.step(Event::Installed(true)), Action::Finish(Outcome::AlreadyInstalled)));
    assert_eq!(run.stage, Stage::Done);
    assert!(!run.accepts_event(&Event::Downloaded(Some(vec![1]))));
}

#[test]
fn download_failure() {
    let mut run = run_to_installed_check();
    run.step(Event::Installed(false));
    assert!(matches!(run.step(Event::Downloaded(None)), Action::Fail(InstallError::Download)));
}

#[test]
fn interrupted_extraction_never_moves() {
    let mut run = run_to_installed_check();
    run.step(Event::Installed(false));
    assert!(matches!(run.step(Event::Downloaded(Some(vec![0xfd, 0x37]))), Action::Extract(_)));
    assert!(matches!(run.step(Event::Extracted(false)), Action::Fail(InstallError::Archive)));
    assert_eq!(run.stage, Stage::Failed);
    assert!(!run.accepts_event(&Event::ScratchListed(Some(vec![entry("proton-x", true)]))));
    assert!(!run.accepts_event(&Event::Moved(true)));
}

#[test]
fn layout_failure() {
    let mut run = run_to_installed_check();
    run.step(Event::Installed(false));
    run.step(Event::Downloaded(Some(vec![1])));
    run.step(Event::Extracted(true));
    assert!(matches!(
        run.step(Event::ScratchListed(Some(vec![entry("junk", true)]))),
        Action::Fail(InstallError::Layout)
    ));
}

#[test]
fn move_failure() {
    let mut run = run_to_installed_check();
    run.step(Event::Installed(false));
    run.step(Event::Downloaded(Some(vec![1])));
    run.step(Event::Extracted(true));
    run.step(Event::ScratchListed(Some(vec![entry("proton-cachyos-new", true)])));
    assert!(matches!(run.step(Event::Moved(false)), Action::Fail(InstallError::InstallMove)));
}

#[test]
fn scratch_listing_failure() {
    let mut run = run_to_installed_check();
    run.step(Event::Installed(false));
    run.step(Event::Downloaded(Some(vec![1])));
    run.step(Event::Extracted(true));
    assert!(matches!(run.step(Event::ScratchListed(None)), Action::Fail(InstallError::Filesystem)));
}

#[test]
fn full_install_moves_then_prunes() {
    let mut run = run_to_installed_check();
    match run.step(Event::Installed(false)) {
        Action::Download(u) => assert_eq!(u, V3_URL),
        _ => panic!("expected a download"),
    }
    match run.step(Event::Downloaded(Some(vec![7, 8]))) {
        Action::Extract(d) => assert_eq!(d, vec![7, 8]),
        _ => panic!("expected an extraction"),
    }
    assert!(matches!(run.step(Event::Extracted(true)), Action::ListScratch));
    match run.step(Event::ScratchListed(Some(vec![entry("x", false), entry("proton-cachyos-new", true)]))) {
        Action::Move(from, to) => {
            assert_eq!(from, "proton-cachyos-new");
            assert_eq!(to, run.target);
            assert_eq!(to, join_path(&run.root, &run.name));
        }
        _ => panic!("expected a move"),
    }
    match run.step(Event::Moved(true)) {
        Action::ListRoot(r) => assert_eq!(r, run.root),
        _ => panic!("expected a listing"),
    }
    let listing = vec![
        entry("proton-cachyos-10.0-20250601-slr-x86_64_v3", true),
        entry("proton-cachyos-9.0-20250101-slr-x86_64_v3", true),
        entry("other-thing", true),
    ];
    match run.step(Event::RootListed(Some(listing))) {
        Action::Prune(n) => assert_eq!(n, vec!["proton-cachyos-9.0-20250101-slr-x86_64_v3"]),
        _ => panic!("expected pruning"),
    }
    assert!(matches!(run.step(Event::Pruned), Action::Finish(Outcome::Installed)));
    assert_eq!(run.stage, Stage::Done);
}

#[test]
fn unlisted_root_still_succeeds() {
    let mut run = run_to_installed_check();
    run.step(Event::Installed(false));
    run.step(Event::Downloaded(Some(vec![1])));
    run.step(Event::Extracted(true));
    run.step(Event::ScratchListed(Some(vec![entry("proton-cachyos-new", true)])));
    run.step(Event::Moved(true));
    assert!(matches!(run.step(Event::RootListed(None)), Action::Finish(Outcome::Installed)));
}

#[test]
fn installed_check_path_is_move_target() {
    let run = run_to_installed_check();
    assert_eq!(run.target, join_path(&run.root, &run.name));
    assert_eq!(run.name, "proton-cachyos-10.0-20250601-slr-x86_64_v3");
}
