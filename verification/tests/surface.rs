use focus::blocking_message::generate_blocking_message;
use focus::cli::{Cli, Commands, StartBlockArgs, select_command};
use focus::config::{BlockConfig, Config};
use focus::os_backend::get_hosts_path;
use focus::websites::Websites;

#[test]
fn blocking_message_names_time_and_task() {
    let time = "25m".to_string();
    let task = "writing".to_string();
    assert_eq!(
        generate_blocking_message(&time, Some(&task)),
        "Blocked websites for 25m for task: writing"
    );
    assert_eq!(generate_blocking_message(&time, None), "Blocked websites for 25m");
}

#[test]
fn hosts_path_is_the_unix_path() {
    assert_eq!(get_hosts_path(), "/etc/hosts");
}

#[test]
fn select_command_picks_the_subcommand() {
    let cli = Cli {
        command: Some(Commands::Reset),
        time: None,
        task: None,
    };
    assert!(matches!(select_command(cli), Ok(Commands::Reset)));

    let cli = Cli {
        command: Some(Commands::Start(StartBlockArgs {
            time_string: "5m".to_string(),
            task: None,
        })),
        time: None,
        task: None,
    };
    match select_command(cli) {
        Ok(Commands::Start(args)) => assert_eq!(args.time_string, "5m"),
        _ => panic!("expected the start command"),
    }

    let none = Cli { command: None, time: Some("5m".to_string()), task: None };
    assert_eq!(select_command(none).unwrap_err(), "No commands provided!");
}

#[test]
fn config_values_hold_the_list_path() {
    let b = BlockConfig::new("/home/user/websites.txt".to_string());
    assert_eq!(b.website_list_path, "/home/user/websites.txt");
    let c = Config::new("/home/user/websites.txt".to_string());
    assert_eq!(c.website_list_path, "/home/user/websites.txt");
}

#[test]
fn websites_computes_blocking_content() {
    let w = Websites::new(
        "/etc/hosts".to_string(),
        "/tmp/hosts_backup".to_string(),
        "example.com\n".to_string(),
    );
    assert_eq!(w.hosts_path, "/etc/hosts");
    assert_eq!(w.backup_path, "/tmp/hosts_backup");
    let out = w.blocked_hosts_content("127.0.0.1 localhost\n");
    assert_eq!(
        out,
        "127.0.0.1 localhost\n\n# ========== Temp Hosts =========\n127.0.0.1\texample.com\n# ========== Temp Hosts ========="
    );
}
