use renix::config::Config;
use renix::hosts::{Connection, HostConfig};
use renix::rebuild::{
    chunk_signals_completion, failure_message, process_error_message, success_message,
    RebuildCommand,
};
use renix::session::RebuildOperation;

fn cmd(
    op: RebuildOperation,
    flake: Option<&str>,
    name: &str,
    conn: Connection,
    extra: &[&str],
) -> RebuildCommand {
    RebuildCommand::new(
        op,
        flake.map(|s| s.to_string()),
        name.to_string(),
        conn,
        extra.iter().map(|s| s.to_string()).collect(),
        80,
        24,
    )
}

#[test]
fn build_args_local_with_flake() {
    let c = cmd(
        RebuildOperation::Switch,
        Some("/etc/nixos"),
        "athena",
        Connection::Local,
        &["--impure"],
    );
    assert_eq!(
        c.build_args(),
        vec![
            "switch".to_string(),
            "--flake".to_string(),
            "/etc/nixos#athena".to_string(),
            "--sudo".to_string(),
            "--impure".to_string(),
        ]
    );
}

#[test]
fn build_args_remote_uses_remote_sudo() {
    let c = cmd(
        RebuildOperation::Boot,
        None,
        "server",
        Connection::Remote("admin@server".to_string()),
        &[],
    );
    assert_eq!(
        c.build_args(),
        vec![
            "boot".to_string(),
            "--target-host".to_string(),
            "admin@server".to_string(),
            "--use-remote-sudo".to_string(),
        ]
    );
}

#[test]
fn build_args_unconfigured_adds_no_target() {
    let c = cmd(
        RebuildOperation::DryBuild,
        None,
        "mystery",
        Connection::Unconfigured,
        &[],
    );
    assert_eq!(c.build_args(), vec!["dry-build".to_string()]);
}

#[test]
fn completion_messages_carry_their_sentinels() {
    let ok = success_message();
    assert_eq!(
        String::from_utf8(ok.clone()).unwrap(),
        "\n\u{2713} Build completed successfully!\n"
    );
    assert!(chunk_signals_completion(&ok));

    let fail = failure_message(17);
    assert_eq!(
        String::from_utf8(fail.clone()).unwrap(),
        "\n\u{2717} Build failed with exit code: 17\n"
    );
    assert!(chunk_signals_completion(&fail));

    let err = process_error_message("spawn failed");
    assert_eq!(
        String::from_utf8(err.clone()).unwrap(),
        "\n\u{2717} Process error: spawn failed\n"
    );
    assert!(chunk_signals_completion(&err));
}

#[test]
fn sentinel_detection_is_substring_based() {
    assert!(chunk_signals_completion(
        b"noise before Build completed successfully! and after"
    ));
    assert!(chunk_signals_completion(b"Process error: oh no"));
    assert!(!chunk_signals_completion(b"Build complete"));
    assert!(!chunk_signals_completion(b""));
    assert!(!chunk_signals_completion(b"ordinary compiler output\n"));
    // Bytes that are not valid text around the sentinel do not hide it.
    assert!(chunk_signals_completion(
        b"\xff\xfeBuild failed with exit code: 3"
    ));
}

#[test]
fn connection_display_and_configured() {
    assert_eq!(Connection::Local.display(), "localhost");
    assert_eq!(
        Connection::Remote("root@box".to_string()).display(),
        "root@box"
    );
    assert_eq!(Connection::Unconfigured.display(), "[]");
    assert!(Connection::Local.is_configured());
    assert!(Connection::Remote("x".to_string()).is_configured());
    assert!(!Connection::Unconfigured.is_configured());
}

#[test]
fn host_config_constructors() {
    let u = HostConfig::unconfigured();
    assert!(matches!(u.connection, Connection::Unconfigured));
    assert!(u.extra_args.is_empty());
    let l = HostConfig::local();
    assert!(matches!(l.connection, Connection::Local));
    assert!(l.extra_args.is_empty());
}

#[test]
fn merge_discovered_assigns_connections() {
    let mut c = Config::default();
    let mut known = HostConfig::local();
    known.extra_args.push("--keep".to_string());
    c.set_host("athena".to_string(), known);
    c.merge_discovered_configs(
        vec![
            "athena".to_string(),
            "remote-server".to_string(),
            "zeus".to_string(),
        ],
        "zeus",
    );
    let names: Vec<&str> = c.hosts.iter().map(|h| h.0.as_str()).collect();
    assert_eq!(names, vec!["athena", "remote-server", "zeus"]);
    // A known host keeps its entry untouched.
    assert!(matches!(c.hosts[0].1.connection, Connection::Local));
    assert_eq!(c.hosts[0].1.extra_args, vec!["--keep".to_string()]);
    // A new name matching the hostname becomes local, others unconfigured.
    assert!(matches!(c.hosts[1].1.connection, Connection::Unconfigured));
    assert!(matches!(c.hosts[2].1.connection, Connection::Local));
}

#[test]
fn set_host_replaces_in_place() {
    let mut c = Config::default();
    c.set_host("b".to_string(), HostConfig::unconfigured());
    c.set_host("a".to_string(), HostConfig::unconfigured());
    c.set_host("b".to_string(), HostConfig::local());
    assert_eq!(c.hosts.len(), 2);
    assert_eq!(c.hosts[0].0, "a");
    assert_eq!(c.hosts[1].0, "b");
    assert!(matches!(c.hosts[1].1.connection, Connection::Local));
}

#[test]
fn find_host_by_name() {
    let mut c = Config::default();
    c.set_host("alpha".to_string(), HostConfig::local());
    c.set_host("beta".to_string(), HostConfig::unconfigured());
    assert_eq!(c.find_host("alpha"), Some(0));
    assert_eq!(c.find_host("beta"), Some(1));
    assert_eq!(c.find_host("gamma"), None);
}

#[test]
fn default_config_is_empty() {
    let c = Config::default();
    assert!(c.flake_path.is_none());
    assert!(c.extra_args.is_empty());
    assert!(c.hosts.is_empty());
}
