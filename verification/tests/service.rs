use pidisk::config::ConnectionConfig;
use pidisk::error::ServiceError;
use pidisk::outcome::{classify_failure, command_result, output_result, CommandReport, RemoteFailure};
use pidisk::service::{Service, SessionStep};

#[derive(Debug, PartialEq, Eq)]
struct Link(u32);

fn config(host: &str, port: u16, user: &str, root: &str, trash: &str) -> ConnectionConfig {
    ConnectionConfig {
        host: host.to_string(),
        port,
        username: user.to_string(),
        password: "secret".to_string(),
        root_dir: root.to_string(),
        trash_dir: trash.to_string(),
    }
}

fn sample() -> ConnectionConfig {
    config("h", 22, "u", "/r", "/r/Bin")
}

fn printed(output: &str) -> Result<CommandReport, RemoteFailure> {
    Ok(CommandReport { status: 0, output: output.to_string() })
}

fn ended(status: i32, output: &str) -> Result<CommandReport, RemoteFailure> {
    Ok(CommandReport { status, output: output.to_string() })
}

fn failed(cause: &str) -> Result<CommandReport, RemoteFailure> {
    Err(RemoteFailure::Failed(cause.to_string()))
}

fn lost(cause: &str) -> Result<CommandReport, RemoteFailure> {
    Err(RemoteFailure::SessionLost(cause.to_string()))
}

fn service_in(cwd: &str) -> Service<Link> {
    let mut service: Service<Link> = Service::new(sample());
    let listing = format!("{}\n", cwd);
    service.finish_navigate(cwd, printed(&listing)).unwrap();
    assert_eq!(service.current_dir(), cwd);
    service
}

#[test]
fn new_service_starts_at_the_root_without_a_session() {
    let service: Service<Link> = Service::new(sample());
    assert_eq!(service.current_dir(), "/r");
    assert!(service.session().is_none());
    assert_eq!(service.get_settings(), &sample());
}

#[test]
fn first_use_asks_for_a_connection() {
    let service: Service<Link> = Service::new(sample());
    match service.ensure_session() {
        Ok(SessionStep::Connect(request)) => {
            assert_eq!(request.address, "h:22");
            assert_eq!(request.username, "u");
            assert_eq!(request.password, "secret");
        }
        other => panic!("no connection was asked for: {:?}", other),
    }
}

#[test]
fn no_connection_is_asked_for_with_an_incomplete_configuration() {
    let incomplete = [
        config("", 22, "u", "/r", "/r/Bin"),
        config("h", 0, "u", "/r", "/r/Bin"),
        config("h", 22, "", "/r", "/r/Bin"),
        config("", 0, "", "/r", "/r/Bin"),
    ];
    for c in incomplete {
        assert!(!c.is_valid());
        let service: Service<Link> = Service::new(c);
        assert_eq!(service.ensure_session(), Err(ServiceError::ConfigRejected));
        assert!(service.session().is_none());
    }
}

#[test]
fn directories_play_no_part_in_the_rejection() {
    let relative = [
        config("h", 22, "u", "r", "/r/Bin"),
        config("h", 22, "u", "/r", "Bin"),
        config("h", 22, "u", "", ""),
        config("h", 22, "u", "~/r", "./Bin"),
    ];
    for c in relative {
        assert!(c.is_valid());
        let service: Service<Link> = Service::new(c);
        assert!(matches!(service.ensure_session(), Ok(SessionStep::Connect(_))));
    }
}

#[test]
fn connection_is_stored_whatever_the_directories_are() {
    let mut service: Service<Link> = Service::new(config("h", 22, "u", "r", "Bin"));
    assert_eq!(service.finish_session(Ok(Link(1))), Ok(()));
    assert_eq!(service.ensure_session(), Ok(SessionStep::Reuse));
    assert_eq!(service.session(), Some(&Link(1)));
}

#[test]
fn session_is_reused_once_stored() {
    let mut service: Service<Link> = Service::new(sample());
    assert_eq!(service.finish_session(Ok(Link(1))), Ok(()));
    assert_eq!(service.session(), Some(&Link(1)));
    assert_eq!(service.ensure_session(), Ok(SessionStep::Reuse));
    assert_eq!(service.ensure_session(), Ok(SessionStep::Reuse));
    assert_eq!(service.session(), Some(&Link(1)));
}

#[test]
fn live_session_is_not_replaced_by_a_later_connection() {
    let mut service: Service<Link> = Service::new(sample());
    service.finish_session(Ok(Link(1))).unwrap();
    assert_eq!(service.finish_session(Ok(Link(2))), Ok(()));
    assert_eq!(service.session(), Some(&Link(1)));
}

#[test]
fn failed_connection_leaves_no_session() {
    let mut service: Service<Link> = Service::new(sample());
    let result = service.finish_session(Err("connection refused".to_string()));
    assert_eq!(result, Err(ServiceError::Connection("connection refused".to_string())));
    assert!(service.session().is_none());
    assert!(matches!(service.ensure_session(), Ok(SessionStep::Connect(_))));
    assert_eq!(service.current_dir(), "/r");
}

#[test]
fn reconnect_rejects_incomplete_configuration() {
    let service: Service<Link> = Service::new(sample());
    let no_host = config("", 22, "u", "/r", "/r/Bin");
    let no_port = config("h", 0, "u", "/r", "/r/Bin");
    let no_user = config("h", 22, "", "/r", "/r/Bin");
    assert_eq!(service.reconnect(&no_host), Err(ServiceError::ConfigRejected));
    assert_eq!(service.reconnect(&no_port), Err(ServiceError::ConfigRejected));
    assert_eq!(service.reconnect(&no_user), Err(ServiceError::ConfigRejected));
    assert!(sample().is_valid());
}

#[test]
fn reconnect_with_relative_directories() {
    let mut service: Service<Link> = Service::new(config("h", 22, "u", "r", "Bin"));
    service.finish_session(Ok(Link(1))).unwrap();
    let trial = service.get_settings().with_credentials(
        "example.org".to_string(),
        2222,
        "me".to_string(),
        "pw".to_string(),
    );
    assert_eq!(service.reconnect(&trial).unwrap().address, "example.org:2222");
    let failing = trial.duplicate();
    assert_eq!(
        service.finish_reconnect(failing, Err("refused".to_string())),
        Err(ServiceError::Connection("refused".to_string()))
    );
    assert_eq!(service.session(), Some(&Link(1)));
    assert_eq!(service.finish_reconnect(trial, Ok(Link(2))), Ok(()));
    assert_eq!(service.session(), Some(&Link(2)));
    let stored = service.get_settings();
    assert_eq!(stored.host, "example.org");
    assert_eq!(stored.port, 2222);
    assert_eq!(stored.username, "me");
    assert_eq!(stored.password, "pw");
    assert_eq!(stored.root_dir, "r");
    assert_eq!(stored.trash_dir, "Bin");
    assert_eq!(service.current_dir(), "r");
}

#[test]
fn reconnect_asks_for_a_connection_with_the_new_configuration() {
    let service: Service<Link> = Service::new(sample());
    let other = config("example.org", 2222, "me", "/data", "/data/.trash");
    let request = service.reconnect(&other).unwrap();
    assert_eq!(request.address, "example.org:2222");
    assert_eq!(request.username, "me");
    assert_eq!(request.password, "secret");
}

#[test]
fn empty_password_is_accepted() {
    let service: Service<Link> = Service::new(sample());
    let mut other = sample();
    other.password = String::new();
    assert!(service.reconnect(&other).is_ok());
}

#[test]
fn successful_reconnect_replaces_configuration_session_and_directory() {
    let mut service = service_in("/r/docs");
    service.finish_session(Ok(Link(1))).unwrap();
    let other = config("example.org", 2222, "me", "/data", "/data/.trash");
    let stored = config("example.org", 2222, "me", "/data", "/data/.trash");
    assert_eq!(service.finish_reconnect(other, Ok(Link(2))), Ok(()));
    assert_eq!(service.get_settings(), &stored);
    assert_eq!(service.session(), Some(&Link(2)));
    assert_eq!(service.current_dir(), "/data");
}

#[test]
fn reconnect_mends_a_configuration_that_was_not_valid() {
    let mut service: Service<Link> = Service::new(config("", 0, "", "/r", "/r/Bin"));
    assert_eq!(service.ensure_session(), Err(ServiceError::ConfigRejected));
    let trial = service.get_settings().with_credentials(
        "h".to_string(),
        22,
        "u".to_string(),
        "secret".to_string(),
    );
    assert!(service.reconnect(&trial).is_ok());
    assert_eq!(service.finish_reconnect(trial, Ok(Link(3))), Ok(()));
    assert_eq!(service.get_settings(), &sample());
    assert_eq!(service.ensure_session(), Ok(SessionStep::Reuse));
}

#[test]
fn failed_reconnect_changes_nothing() {
    let mut service = service_in("/r/docs");
    service.finish_session(Ok(Link(1))).unwrap();
    let other = config("example.org", 2222, "me", "/data", "/data/.trash");
    let result = service.finish_reconnect(other, Err("Authentication failed".to_string()));
    assert_eq!(result, Err(ServiceError::Connection("Authentication failed".to_string())));
    assert_eq!(service.get_settings(), &sample());
    assert_eq!(service.session(), Some(&Link(1)));
    assert_eq!(service.current_dir(), "/r/docs");
}

#[test]
fn failed_reconnect_without_a_session_stores_none() {
    let mut service: Service<Link> = Service::new(sample());
    let other = config("example.org", 2222, "me", "/data", "/data/.trash");
    assert!(service.finish_reconnect(other, Err("timeout".to_string())).is_err());
    assert!(service.session().is_none());
    assert_eq!(service.get_settings(), &sample());
}

#[test]
fn rejected_configuration_is_not_stored_even_with_a_session() {
    let mut service = service_in("/r/docs");
    service.finish_session(Ok(Link(1))).unwrap();
    let other = config("", 22, "u", "/data", "/data/.trash");
    assert_eq!(service.finish_reconnect(other, Ok(Link(2))), Err(ServiceError::ConfigRejected));
    assert_eq!(service.get_settings(), &sample());
    assert_eq!(service.session(), Some(&Link(1)));
    assert_eq!(service.current_dir(), "/r/docs");
}

#[test]
fn with_credentials_keeps_the_directories() {
    let trial = sample().with_credentials(
        "example.org".to_string(),
        2222,
        "me".to_string(),
        "pw".to_string(),
    );
    let mut expected = config("example.org", 2222, "me", "/r", "/r/Bin");
    expected.password = "pw".to_string();
    assert_eq!(trial, expected);
    assert_eq!(sample().duplicate(), sample());
}

#[test]
fn navigate_to_root_keeps_listing_order() {
    let mut service: Service<Link> = Service::new(sample());
    let command = service.navigate("/r");
    assert_eq!(command.text, "cd '/r' && pwd && ls -1");
    let (path, entries) =
        service.finish_navigate("/r", printed("/r\nzeta\nalpha\nBin\nalpha\n")).unwrap();
    assert_eq!(path, "/r");
    assert_eq!(entries, vec!["zeta", "alpha", "Bin", "alpha"]);
    assert_eq!(service.current_dir(), "/r");
}

#[test]
fn navigate_takes_the_reported_path_not_the_input() {
    let mut service: Service<Link> = Service::new(sample());
    let (path, entries) =
        service.finish_navigate("link", printed("/mnt/disk/real\nfile\n")).unwrap();
    assert_eq!(path, "/mnt/disk/real");
    assert_eq!(entries, vec!["file"]);
    assert_eq!(service.current_dir(), "/mnt/disk/real");
}

#[test]
fn navigate_into_an_empty_directory() {
    let mut service: Service<Link> = Service::new(sample());
    let (path, entries) = service.finish_navigate("/r/empty", printed("/r/empty\n")).unwrap();
    assert_eq!(path, "/r/empty");
    assert!(entries.is_empty());
    assert_eq!(service.current_dir(), "/r/empty");
}

#[test]
fn navigate_without_output_keeps_the_working_directory() {
    let mut service = service_in("/r/docs");
    let (path, entries) = service.finish_navigate("/somewhere", printed("")).unwrap();
    assert_eq!(path, "/somewhere");
    assert!(entries.is_empty());
    assert_eq!(service.current_dir(), "/r/docs");
}

#[test]
fn navigate_to_a_missing_path_fails_and_keeps_the_working_directory() {
    let mut service = service_in("/r/docs");
    let result = service.finish_navigate("/missing", ended(1, ""));
    assert_eq!(
        result,
        Err(ServiceError::RemoteCommand("the remote command ended with status 1".to_string()))
    );
    assert_eq!(service.current_dir(), "/r/docs");
}

#[test]
fn navigate_follows_a_printed_path_whatever_the_status() {
    let mut service = service_in("/r/docs");
    let result = service.finish_navigate("/r/locked", ended(2, "/r/locked\n"));
    assert_eq!(result, Ok(("/r/locked".to_string(), vec![])));
    assert_eq!(service.current_dir(), "/r/locked");
    let result = service.finish_navigate("x", ended(1, "/r/half\na\nb\n"));
    assert_eq!(result, Ok(("/r/half".to_string(), vec!["a".to_string(), "b".to_string()])));
    assert_eq!(service.current_dir(), "/r/half");
}

#[test]
fn failed_navigate_keeps_the_working_directory() {
    let mut service = service_in("/r/docs");
    let result = service.finish_navigate("/x", failed("channel closed"));
    assert_eq!(result, Err(ServiceError::RemoteCommand("channel closed".to_string())));
    assert_eq!(service.current_dir(), "/r/docs");
}

#[test]
fn navigate_on_a_lost_session_is_a_connection_error() {
    let mut service = service_in("/r/docs");
    service.finish_session(Ok(Link(1))).unwrap();
    let result = service.finish_navigate("/x", lost("socket disconnected"));
    assert_eq!(result, Err(ServiceError::Connection("socket disconnected".to_string())));
    assert_eq!(service.current_dir(), "/r/docs");
    assert_eq!(service.session(), Some(&Link(1)));
}

#[test]
fn navigate_changes_neither_configuration_nor_session() {
    let mut service: Service<Link> = Service::new(sample());
    service.finish_session(Ok(Link(7))).unwrap();
    service.finish_navigate("/r/a", printed("/r/a\n")).unwrap();
    assert_eq!(service.get_settings(), &sample());
    assert_eq!(service.session(), Some(&Link(7)));
}

#[test]
fn create_directory_works_in_the_working_directory() {
    let service = service_in("/r/docs");
    assert_eq!(service.create_directory("new").text, "cd '/r/docs' && mkdir './new'");
}

#[test]
fn move_resolves_relative_paths() {
    let service = service_in("/root/PIdisk");
    let command = service.move_entry("foo.txt", "bar.txt");
    assert_eq!(
        command.text,
        "sh -lc 'mv '\\''/root/PIdisk/foo.txt'\\'' '\\''/root/PIdisk/bar.txt'\\'''"
    );
}

#[test]
fn move_keeps_absolute_paths() {
    let service = service_in("/root/PIdisk");
    let command = service.move_entry("/tmp/foo.txt", "sub/foo.txt");
    assert_eq!(
        command.text,
        "sh -lc 'mv '\\''/tmp/foo.txt'\\'' '\\''/root/PIdisk/sub/foo.txt'\\'''"
    );
}

#[test]
fn delete_outside_the_trash_moves_into_it() {
    let service = service_in("/r/docs");
    let plan = service.delete("old.txt");
    assert_eq!(plan.ensure_trash.text, "mkdir -p '/r/Bin'");
    assert!(!plan.permanent);
    assert_eq!(
        plan.dispose.text,
        "sh -lc 'cd '\\''/r/docs'\\'' && mv '\\''/r/docs/old.txt'\\'' '\\''/r/Bin'\\'''"
    );
    assert!(!plan.dispose.text.contains("rm "));
}

#[test]
fn delete_inside_the_trash_removes_for_good() {
    let service = service_in("/r/Bin");
    let plan = service.delete("old.txt");
    assert_eq!(plan.ensure_trash.text, "mkdir -p '/r/Bin'");
    assert!(plan.permanent);
    assert_eq!(plan.dispose.text, "sh -lc 'cd '\\''/r/Bin'\\'' && rm -rf '\\''./old.txt'\\'''");
}

#[test]
fn delete_compares_the_directories_as_texts() {
    let service = service_in("/r/Bin/");
    assert!(!service.delete("x").permanent);
    let service = service_in("/r/Bin/sub");
    assert!(!service.delete("x").permanent);
}

#[test]
fn delete_goes_on_once_the_trash_is_there() {
    let service = service_in("/r/docs");
    let expected = service.delete("old.txt").dispose;
    let next = Service::<Link>::dispose_after(service.delete("old.txt"), printed(""));
    assert_eq!(next, Ok(expected));
}

#[test]
fn delete_stops_where_the_trash_cannot_be_made() {
    let service = service_in("/r/docs");
    let next = Service::<Link>::dispose_after(service.delete("old.txt"), ended(1, ""));
    assert_eq!(
        next,
        Err(ServiceError::RemoteCommand("the remote command ended with status 1".to_string()))
    );
    let next = Service::<Link>::dispose_after(service.delete("old.txt"), failed("exec failed"));
    assert_eq!(next, Err(ServiceError::RemoteCommand("exec failed".to_string())));
    let next = Service::<Link>::dispose_after(service.delete("old.txt"), lost("gone"));
    assert_eq!(next, Err(ServiceError::Connection("gone".to_string())));
}

#[test]
fn empty_trash_does_not_depend_on_the_working_directory() {
    let at_root: Service<Link> = Service::new(sample());
    let elsewhere = service_in("/r/docs/deep");
    let in_trash = service_in("/r/Bin");
    assert_eq!(at_root.empty_trash().text, "cd '/r/Bin' && rm -rf ./* ./.[!.]* ./..?*");
    assert_eq!(elsewhere.empty_trash(), at_root.empty_trash());
    assert_eq!(in_trash.empty_trash(), at_root.empty_trash());
}

#[test]
fn disk_usage_reports_on_the_working_directory() {
    let service = service_in("/r/docs");
    let command = service.disk_usage();
    assert_eq!(command.text, "cd '/r/docs' && df -h .");
    assert!(command.read_output);
    assert!(command.wait_close);
}

#[test]
fn rename_works_in_the_working_directory() {
    let service = service_in("/r/docs");
    assert_eq!(
        service.rename("a", "b").text,
        "sh -lc 'cd '\\''/r/docs'\\'' && mv '\\''./a'\\'' '\\''./b'\\'''"
    );
}

#[test]
fn rename_never_reads_a_name_from_the_root() {
    let service = service_in("/r/docs");
    assert_eq!(
        service.rename("/etc/passwd", "/tmp/x").text,
        "sh -lc 'cd '\\''/r/docs'\\'' && mv '\\''.//etc/passwd'\\'' '\\''.//tmp/x'\\'''"
    );
}

#[test]
fn command_succeeds_with_status_zero_only() {
    assert_eq!(command_result(printed("")), Ok(()));
    assert_eq!(command_result(printed("noise")), Ok(()));
    assert_eq!(
        command_result(ended(1, "")),
        Err(ServiceError::RemoteCommand("the remote command ended with status 1".to_string()))
    );
    assert_eq!(
        command_result(ended(-1, "")),
        Err(ServiceError::RemoteCommand("the remote command ended with status -1".to_string()))
    );
    assert_eq!(
        command_result(ended(127, "sh: not found")),
        Err(ServiceError::RemoteCommand("the remote command ended with status 127".to_string()))
    );
}

#[test]
fn command_results_keep_the_cause() {
    assert_eq!(
        command_result(failed("no such file")),
        Err(ServiceError::RemoteCommand("no such file".to_string()))
    );
    assert_eq!(command_result(lost("gone")), Err(ServiceError::Connection("gone".to_string())));
    let report = "Filesystem Size Used Avail Use% Mounted on\n/dev/sda1 50G 20G 30G 40% /\n";
    assert_eq!(output_result(printed(report)), Ok(report.to_string()));
    assert_eq!(
        output_result(ended(1, report)),
        Err(ServiceError::RemoteCommand("the remote command ended with status 1".to_string()))
    );
    assert_eq!(
        output_result(failed("eof")),
        Err(ServiceError::RemoteCommand("eof".to_string()))
    );
    assert_eq!(output_result(lost("gone")), Err(ServiceError::Connection("gone".to_string())));
}

#[test]
fn socket_failures_mean_a_lost_session() {
    for code in [-7, -13, -30, -43, -45] {
        assert_eq!(
            classify_failure(Some(code), "x".to_string()),
            RemoteFailure::SessionLost("x".to_string())
        );
    }
    for code in [0, -1, -9, -18, -21, -26, -31, 7] {
        assert_eq!(
            classify_failure(Some(code), "x".to_string()),
            RemoteFailure::Failed("x".to_string())
        );
    }
    assert_eq!(classify_failure(None, "x".to_string()), RemoteFailure::Failed("x".to_string()));
}

#[test]
fn error_messages() {
    assert_eq!(ServiceError::ConfigRejected.message(), "host, port and user name are required");
    assert_eq!(ServiceError::Connection("a".to_string()).message(), "a");
    assert_eq!(ServiceError::RemoteCommand("b".to_string()).message(), "b");
    assert_eq!(ServiceError::Transfer("c".to_string()).message(), "c");
}
