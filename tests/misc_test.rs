use transparent_classroom_photos_grabber_rs::cache::{entry_is_fresh, serve_entry, CacheConfig, CacheData, Stamp};
use transparent_classroom_photos_grabber_rs::cli::{
    truncate_title, Cli, Commands, ConfigArgs, DownloadArgs, SetupArgs, Task,
};

#[test]
fn cache_default_is_an_hour() {
    let c = CacheConfig::default();
    assert_eq!(c.max_age_secs, 3600);
    assert!(c.create_dirs);
}

#[test]
fn cache_freshness() {
    let c = CacheConfig { max_age_secs: 60, create_dirs: false };
    let at = |secs: u64, nanos: u32| Stamp { secs, nanos };
    assert!(entry_is_fresh(at(100, 0), at(160, 0), c));
    assert!(!entry_is_fresh(at(100, 0), at(160, 1), c));
    assert!(!entry_is_fresh(at(200, 0), at(100, 0), c));
    assert!(entry_is_fresh(at(100, 5), at(100, 5), c));
    let data = CacheData { timestamp: at(10, 0), payload: 7u32 };
    assert_eq!(serve_entry(data.clone(), at(20, 0), c).map(|d| d.payload), Some(7));
    assert!(serve_entry(data, at(1000, 0), c).is_none());
}

#[test]
fn commands_become_tasks() {
    let cli = Cli { command: None, output: None, dry_run: true, verbose: false };
    assert_eq!(cli.task(), Task::Download { output: "./photos".to_string(), dry_run: true });
    let cli = Cli {
        command: Some(Commands::Download(DownloadArgs { output: None, dry_run: false })),
        output: Some("/tmp/out".to_string()),
        dry_run: false,
        verbose: true,
    };
    assert_eq!(cli.task(), Task::Download { output: "/tmp/out".to_string(), dry_run: false });
    let cli = Cli {
        command: Some(Commands::Download(DownloadArgs { output: Some("/a".to_string()), dry_run: true })),
        output: Some("/b".to_string()),
        dry_run: false,
        verbose: false,
    };
    assert_eq!(cli.task(), Task::Download { output: "/a".to_string(), dry_run: true });
    let cli = Cli { command: Some(Commands::Setup(SetupArgs { force: true })), output: None, dry_run: false, verbose: false };
    assert_eq!(cli.task(), Task::Setup { force: true });
    let cli = Cli { command: Some(Commands::Config(ConfigArgs { path: true })), output: None, dry_run: false, verbose: false };
    assert_eq!(cli.task(), Task::ShowConfig { path_only: true });
}

#[test]
fn titles_are_shortened_for_display() {
    assert_eq!(truncate_title("short", 10), "short");
    assert_eq!(truncate_title("exactly10!", 10), "exactly10!");
    assert_eq!(truncate_title("a rather long title", 10), "a rathe...");
    assert_eq!(truncate_title("abcdef", 2), "...");
}
