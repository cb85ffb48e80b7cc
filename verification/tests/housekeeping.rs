use pawn_appetit::error::Error;
use pawn_appetit::files::{archive_kind, download_progress, ArchiveKind, DownloadProgress, FileMetadata};
use pawn_appetit::packages::{known_package_manager, package_manager, PackageManager, PackageManagerResult};
use pawn_appetit::puzzle::{Puzzle, PuzzleCache, PuzzleDatabaseInfo};
use pawn_appetit::startup::{
    get_engine_config, hash_fallback, hash_request, kill_engines, retry_delay, EngineConfig,
    Handshake,
};
use pawn_appetit::telemetry::{country_code, country_from_locale, InitialRunPlan, TelemetryConfig};
use pawn_appetit::types::{push_log, AnalysisCacheKey, EngineLog};

fn strings(items: &[&str]) -> Vec<String> {
    items.iter().map(|s| s.to_string()).collect()
}

fn puzzle(id: i32) -> Puzzle {
    Puzzle {
        id,
        fen: "8/8/8/8/8/8/8/K1k5 w - - 0 1".to_string(),
        moves: "a1a2".to_string(),
        rating: 1500,
        rating_deviation: 80,
        popularity: 90,
        nb_plays: 1000,
    }
}

#[test]
fn a_new_cache_is_empty() {
    let cache = PuzzleCache::new();
    assert!(cache.cache.is_empty());
    assert_eq!(cache.counter, 0);
    assert_eq!(cache.cache_size, 20);
    assert!(cache.random);
    assert_eq!(PuzzleCache::new().with_cache_size(5).cache_size, 5);
}

#[test]
fn a_cache_hands_out_its_puzzles_in_order() {
    let mut cache = PuzzleCache::new().with_cache_size(3);
    assert_eq!(cache.get_next_puzzle(), None);
    assert!(cache.needs_reload(1000, 2000, true));
    cache.refill(vec![puzzle(1), puzzle(2)], 1000, 2000, true);
    assert!(!cache.needs_reload(1000, 2000, true));
    assert!(cache.needs_reload(1000, 2001, true));
    assert!(cache.needs_reload(999, 2000, true));
    assert!(cache.needs_reload(1000, 2000, false));
    assert_eq!(cache.get_next_puzzle().map(|p| p.id), Some(1));
    assert_eq!(cache.get_next_puzzle().map(|p| p.id), Some(2));
    assert_eq!(cache.get_next_puzzle(), None);
    assert_eq!(cache.counter, 2);
    assert!(!cache.needs_reload(1000, 2000, true));
}

#[test]
fn a_cache_is_loaded_anew_when_it_is_used_up() {
    let mut cache = PuzzleCache::new().with_cache_size(2);
    cache.refill(vec![puzzle(1), puzzle(2)], 0, 3000, false);
    cache.get_next_puzzle();
    assert!(!cache.needs_reload(0, 3000, false));
    cache.get_next_puzzle();
    assert!(cache.needs_reload(0, 3000, false));
    cache.refill(vec![puzzle(3)], 0, 3000, false);
    assert_eq!(cache.counter, 0);
    assert_eq!(cache.get_next_puzzle().map(|p| p.id), Some(3));
}

#[test]
fn a_puzzle_database_is_described() {
    let info = PuzzleDatabaseInfo::describe("lichess.db3".to_string(), "/data/lichess.db3".to_string(), 4_000_000, 123_456);
    assert_eq!(info.title, "lichess.db3");
    assert_eq!(info.path, "/data/lichess.db3");
    assert_eq!(info.description, "");
    assert_eq!(info.puzzle_count, 4_000_000);
    assert_eq!(info.storage_size, 123_456);
    let huge = PuzzleDatabaseInfo::describe(String::new(), String::new(), 4_294_967_297, 4_294_967_295);
    assert_eq!(huge.puzzle_count, 1);
    assert_eq!(huge.storage_size, -1);
}

#[test]
fn file_times_keep_their_low_32_bits() {
    assert_eq!(FileMetadata::from_seconds(1_700_000_000), FileMetadata { last_modified: 1_700_000_000 });
    assert_eq!(FileMetadata::from_seconds(4_294_967_296 + 7).last_modified, 7);
}

#[test]
fn archives_are_told_by_their_ending() {
    assert_eq!(archive_kind("https://example.org/engine.zip"), ArchiveKind::Zip);
    assert_eq!(archive_kind("https://example.org/engine.tar"), ArchiveKind::Tar);
    assert_eq!(archive_kind("https://example.org/engine.tar.gz"), ArchiveKind::Plain);
    assert_eq!(archive_kind("zip"), ArchiveKind::Plain);
    assert_eq!(archive_kind(".zip"), ArchiveKind::Zip);
    assert_eq!(archive_kind(""), ArchiveKind::Plain);
}

#[test]
fn download_progress_in_hundredths_of_a_percent() {
    assert_eq!(download_progress(0, Some(200)), Some(0));
    assert_eq!(download_progress(50, Some(200)), Some(2500));
    assert_eq!(download_progress(200, Some(200)), Some(10000));
    assert_eq!(download_progress(300, Some(200)), Some(10000));
    assert_eq!(download_progress(1, Some(3)), Some(3333));
    assert_eq!(download_progress(5, Some(0)), Some(10000));
    assert_eq!(download_progress(5, None), None);
    assert_eq!(download_progress(u64::MAX - 1, Some(u64::MAX)), Some(9999));
    let report = DownloadProgress::during("d1".to_string(), 1, Some(4));
    assert_eq!(report, DownloadProgress { progress: Some(2500), id: "d1".to_string(), finished: false });
    let done = DownloadProgress::done("d1".to_string());
    assert_eq!(done, DownloadProgress { progress: Some(10000), id: "d1".to_string(), finished: true });
}

#[test]
fn package_managers_are_known_by_name() {
    assert_eq!(package_manager(&"brew".to_string()), Some(PackageManager::Brew));
    assert_eq!(package_manager(&"apt".to_string()), Some(PackageManager::Apt));
    assert_eq!(package_manager(&"dnf".to_string()), Some(PackageManager::Dnf));
    assert_eq!(package_manager(&"pacman".to_string()), Some(PackageManager::Pacman));
    assert_eq!(package_manager(&"Brew".to_string()), None);
    assert_eq!(
        known_package_manager(&"yum".to_string()),
        Err(Error::PackageManager("Unsupported package manager".to_string()))
    );
    assert_eq!(known_package_manager(&"apt".to_string()), Ok(PackageManager::Apt));
}

#[test]
fn package_manager_commands() {
    assert_eq!(PackageManager::Brew.install_command("stockfish"), strings(&["brew", "install", "stockfish"]));
    assert_eq!(PackageManager::Apt.install_command("stockfish"), strings(&["sudo", "apt", "install", "-y", "stockfish"]));
    assert_eq!(PackageManager::Dnf.install_command("stockfish"), strings(&["sudo", "dnf", "install", "-y", "stockfish"]));
    assert_eq!(PackageManager::Pacman.install_command("stockfish"), strings(&["sudo", "pacman", "-S", "--noconfirm", "stockfish"]));
    assert_eq!(PackageManager::Brew.query_command("stockfish"), strings(&["brew", "list", "stockfish"]));
    assert_eq!(PackageManager::Apt.query_command("stockfish"), strings(&["dpkg", "-l", "stockfish"]));
    assert_eq!(PackageManager::Dnf.query_command("stockfish"), strings(&["dnf", "list", "installed", "stockfish"]));
    assert_eq!(PackageManager::Pacman.query_command("stockfish"), strings(&["pacman", "-Q", "stockfish"]));
    assert_eq!(PackageManager::Pacman.probe_command(), strings(&["pacman", "--version"]));
    let result = PackageManagerResult { success: true, stdout: "ok".to_string(), stderr: String::new() };
    assert!(result.success);
}

#[test]
fn telemetry_is_on_by_default() {
    let config = TelemetryConfig::default();
    assert!(config.enabled);
    assert!(!config.initial_run_completed);
}

#[test]
fn the_first_run_is_reported_once() {
    let mut config = TelemetryConfig::default();
    assert_eq!(config.handle_initial_run_telemetry(), InitialRunPlan { track: true, store: true });
    assert!(config.initial_run_completed);
    assert_eq!(config.handle_initial_run_telemetry(), InitialRunPlan { track: false, store: false });
    let mut off = TelemetryConfig::default();
    off.set_enabled(false);
    assert_eq!(off.handle_initial_run_telemetry(), InitialRunPlan { track: false, store: true });
    assert!(off.initial_run_completed);
    assert!(!off.enabled);
    let mut marked = TelemetryConfig::default();
    marked.mark_initial_run_completed();
    assert!(marked.initial_run_completed && marked.enabled);
}

#[test]
fn the_country_of_a_locale() {
    assert_eq!(country_from_locale("en_US.UTF-8"), Some("US".to_string()));
    assert_eq!(country_from_locale("de_DE"), Some("DE".to_string()));
    assert_eq!(country_from_locale("sr_RS_latin.UTF-8"), Some("RS".to_string()));
    assert_eq!(country_from_locale("C"), None);
    assert_eq!(country_from_locale("en_us.UTF-8"), None);
    assert_eq!(country_from_locale("en.UTF_8"), None);
    assert_eq!(country_from_locale("en_USA"), None);
    assert_eq!(country_from_locale(""), None);
    assert_eq!(country_from_locale("_"), None);
    assert!(country_code("FR"));
    assert!(!country_code("fr"));
    assert!(!country_code("F"));
    assert!(!country_code("FRA"));
}

#[test]
fn the_opening_dialogue() {
    let (mut state, first) = Handshake::begin();
    assert_eq!(first, "uci\n");
    assert_eq!(state.on_line("id name Stockfish 16"), None);
    assert_eq!(state.on_line("readyok"), None);
    assert_eq!(state, Handshake::AwaitUciOk);
    assert_eq!(state.on_line("uciok"), Some("isready\n".to_string()));
    assert_eq!(state, Handshake::AwaitReadyOk);
    assert!(!state.is_ready());
    assert_eq!(state.on_line("uciok"), None);
    assert_eq!(state.on_line(" readyok "), None);
    assert!(state.is_ready());
    assert_eq!(state.on_line("readyok"), None);
    assert_eq!(state, Handshake::Ready);
}

#[test]
fn starting_an_engine_is_tried_three_times() {
    assert_eq!(retry_delay(0), Some(0));
    assert_eq!(retry_delay(1), Some(100));
    assert_eq!(retry_delay(2), Some(200));
    assert_eq!(retry_delay(3), None);
    assert_eq!(retry_delay(u32::MAX), None);
}

#[test]
fn the_hash_table_is_halved_down_to_sixteen() {
    assert_eq!(hash_fallback(1024), Some(512));
    assert_eq!(hash_fallback(33), Some(16));
    assert_eq!(hash_fallback(32), Some(16));
    assert_eq!(hash_fallback(17), Some(16));
    assert_eq!(hash_fallback(16), None);
    assert_eq!(hash_fallback(0), None);
}

#[test]
fn what_an_engine_says_of_itself() {
    let lines = strings(&[
        "Stockfish 16 by the Stockfish developers",
        "id name Stockfish 16",
        "id author the Stockfish developers",
        "option name Hash type spin default 16 min 1 max 33554432",
        "option name Ponder type check default false",
        "uciok",
        "option name Late type check default false",
    ]);
    assert_eq!(
        get_engine_config(&lines, Some("stockfish")),
        EngineConfig {
            name: "Stockfish 16".to_string(),
            options: strings(&[
                "name Hash type spin default 16 min 1 max 33554432",
                "name Ponder type check default false",
            ]),
        }
    );
}

#[test]
fn an_engine_without_a_name_is_named_after_its_file() {
    let lines = strings(&["option name Hash type spin", "uciok"]);
    assert_eq!(get_engine_config(&lines, Some("lc0")).name, "lc0");
    assert_eq!(get_engine_config(&lines, None).name, "Unknown Engine");
    assert_eq!(get_engine_config(&vec![], None), EngineConfig { name: "Unknown Engine".to_string(), options: vec![] });
}

#[test]
fn the_sessions_of_a_tab() {
    let tabs = strings(&["tab-1", "tab-10", "tab-2", "other", "tab-1", "1", "10"]);
    assert_eq!(kill_engines(&tabs, "tab-1"), vec![0, 4]);
    assert_eq!(kill_engines(&tabs, "tab-10"), vec![1]);
    assert_eq!(kill_engines(&tabs, "1"), vec![5]);
    assert_eq!(kill_engines(&tabs, "tab-"), Vec::<usize>::new());
    assert_eq!(kill_engines(&tabs, ""), Vec::<usize>::new());
    assert_eq!(kill_engines(&tabs, "tab-100"), Vec::<usize>::new());
    assert_eq!(kill_engines(&vec![], "tab-1"), Vec::<usize>::new());
}

#[test]
fn errors_have_a_message() {
    assert_eq!(Error::EngineTimeout.message(), "Engine timeout");
    assert_eq!(Error::EngineCrashed("exit 1".to_string()).message(), "Engine crashed: exit 1");
    assert_eq!(Error::EngineUnresponsive.message(), "Engine unresponsive");
    assert_eq!(Error::EngineCommunication("broken pipe".to_string()).message(), "Engine communication error: broken pipe");
    assert_eq!(Error::InvalidEngineState("game is over".to_string()).message(), "Invalid engine state: game is over");
    assert_eq!(Error::InvalidMultiPvValue("x".to_string()).message(), "Invalid MultiPV value: x");
    assert_eq!(Error::HashAllocationFailed.message(), "Hash allocation failed");
    assert_eq!(Error::NoMovesFound.message(), "No moves found");
    assert_eq!(Error::InvalidPosition.message(), "Invalid position");
    assert_eq!(Error::IllegalMove.message(), "Illegal move");
    assert_eq!(Error::MissingReferenceDatabase.message(), "Missing reference database");
    assert_eq!(Error::NoStdin.message(), "No stdin");
    assert_eq!(Error::NoStdout.message(), "No stdout");
    assert_eq!(Error::NoPuzzles.message(), "No puzzles");
    assert_eq!(Error::PackageManager("x".to_string()).message(), "Package manager error: x");
}

#[test]
fn cache_keys_compare_by_their_parts() {
    let key = AnalysisCacheKey { tab: "t".to_string(), fen: "f".to_string(), engine: "e".to_string(), multipv: 2 };
    assert_eq!(key.clone(), key);
    assert_ne!(AnalysisCacheKey { multipv: 3, ..key.clone() }, key);
}

#[test]
fn a_full_record_drops_its_oldest_entries() {
    let mut logs: Vec<EngineLog> = Vec::new();
    for i in 0..10000 {
        push_log(&mut logs, EngineLog::Engine(format!("line {}", i)));
    }
    assert_eq!(logs.len(), 10000);
    assert_eq!(logs[0], EngineLog::Engine("line 0".to_string()));
    push_log(&mut logs, EngineLog::Gui("stop\n".to_string()));
    assert_eq!(logs.len(), 5002);
    assert_eq!(logs[0], EngineLog::Gui("log truncated\n".to_string()));
    assert_eq!(logs[1], EngineLog::Engine("line 5000".to_string()));
    assert_eq!(logs[5000], EngineLog::Engine("line 9999".to_string()));
    assert_eq!(logs[5001], EngineLog::Gui("stop\n".to_string()));
    push_log(&mut logs, EngineLog::Engine("later".to_string()));
    assert_eq!(logs.len(), 5003);
}

#[test]
fn a_command_that_sets_the_hash_table_is_told() {
    assert_eq!(hash_request("setoption name Hash value 1024\n"), Some(1024));
    assert_eq!(hash_request("setoption name Hash value 0"), Some(0));
    assert_eq!(hash_request("setoption name Hash value big\n"), None);
    assert_eq!(hash_request("setoption name Hash value 1 2\n"), None);
    assert_eq!(hash_request("setoption name Threads value 8\n"), None);
    assert_eq!(hash_request("setoption name hash value 8\n"), None);
    assert_eq!(hash_request("go depth 20\n"), None);
    assert_eq!(hash_request(""), None);
}
