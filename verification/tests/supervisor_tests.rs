use admin_panel::error::{OnlinePollerError, ProxyMessageError, ProxyResponseError};
use admin_panel::supervisor::{
    backup_plan, error_log_content, plan_symlinks, server_launch_args, server_program, DirEntry,
    EntryKind, WorkdirEntry,
};

fn entry(name: &str, kind: EntryKind) -> DirEntry {
    DirEntry { name: String::from(name), kind }
}

#[test]
fn symlink_plan_skips_world_and_links() {
    let entries = vec![
        entry("world", EntryKind::Dir),
        entry("server.properties", EntryKind::File),
        entry("mods", EntryKind::Dir),
        entry("old-link", EntryKind::Link),
        entry("eula.txt", EntryKind::File),
    ];
    let plan = plan_symlinks(&entries);
    let names: Vec<&str> = plan.iter().map(|e| e.name.as_str()).collect();
    assert_eq!(names, vec!["server.properties", "mods", "eula.txt"]);
    assert_eq!(plan[0].kind, EntryKind::File);
    assert_eq!(plan[1].kind, EntryKind::Dir);
}

#[test]
fn symlink_plan_keeps_a_file_named_like_the_world_dir_out() {
    let entries = vec![entry("world", EntryKind::File)];
    assert!(plan_symlinks(&entries).is_empty());
}

fn wentry(name: &str, is_symlink: bool) -> WorkdirEntry {
    WorkdirEntry { name: String::from(name), is_symlink }
}

#[test]
fn backup_plan_moves_new_entries_and_deletes_new_links() {
    let baseline = vec![
        String::from("fabric-server-launcher.jar"),
        String::from("start.sh"),
    ];
    let entries = vec![
        wentry("fabric-server-launcher.jar", false),
        wentry("world", false),
        wentry("mods", true),
        wentry("logs", false),
        wentry("server.properties", true),
    ];
    let plan = backup_plan(&entries, &baseline);
    assert_eq!(plan.move_to_persistent, vec![String::from("world"), String::from("logs")]);
    assert_eq!(
        plan.remove_links,
        vec![String::from("mods"), String::from("server.properties")]
    );
}

#[test]
fn backup_plan_leaves_the_baseline_alone() {
    let baseline = vec![String::from("a"), String::from("b")];
    let entries = vec![wentry("a", false), wentry("b", true)];
    let plan = backup_plan(&entries, &baseline);
    assert!(plan.move_to_persistent.is_empty());
    assert!(plan.remove_links.is_empty());
}

#[test]
fn launch_arguments_are_the_fixed_vector() {
    assert_eq!(server_program(), "java");
    let args = server_launch_args();
    assert_eq!(args.len(), 26);
    assert_eq!(args[0], "-Dlog4j2.formatMsgNoLookups=true");
    assert_eq!(args[3], "-XX:+UseG1GC");
    assert_eq!(args[23], "-jar");
    assert_eq!(args[24], "fabric-server-launcher.jar");
    assert_eq!(args[25], "nogui");
}

#[test]
fn error_log_is_skipped_for_empty_output() {
    assert_eq!(error_log_content(&String::from("exit status: 0"), &String::new()), None);
}

#[test]
fn error_log_holds_status_then_output() {
    let content = error_log_content(
        &String::from("exit status: 1"),
        &String::from("boom"),
    );
    assert_eq!(content, Some(String::from("exit status: 1\nboom\n")));
}

#[test]
fn proxy_error_messages_are_exact() {
    assert_eq!(
        ProxyResponseError::Spam.message(),
        "Sending messages to the server too often"
    );
    assert_eq!(
        ProxyResponseError::McServerConnect(String::from("refused")).message(),
        "Can't connect to MC server: refused"
    );
    assert_eq!(
        ProxyResponseError::McServerAuth(String::from("denied")).message(),
        "Couldn't authenticate to MC server: denied"
    );
    assert_eq!(
        ProxyResponseError::McServerCommand(String::from("broken pipe")).message(),
        "Couldn't send command to MC server: broken pipe"
    );
    assert_eq!(
        ProxyResponseError::ResponseChannelClosed.message(),
        "Response channel from the proxy server to the web layer is closed"
    );
    assert_eq!(
        ProxyResponseError::IncomingChannelClosed.message(),
        "Incoming channel from the web layer is closed"
    );
    assert_eq!(
        ProxyResponseError::McShutdown(String::from("timed out")).message(),
        "Couldn't shutdown MC server: timed out"
    );
    assert!(ProxyResponseError::Spam.is_client_error());
    assert!(!ProxyResponseError::IncomingChannelClosed.is_client_error());
}

#[test]
fn channel_error_messages_are_exact() {
    assert_eq!(
        ProxyMessageError::ChannelClosed.message(),
        "Couldn't send message to Minecraft server"
    );
    assert_eq!(
        ProxyMessageError::IncomingChannelClosed.message(),
        "Couldn't receive response from Minecraft server"
    );
    assert_eq!(
        OnlinePollerError::Create(String::from("no socket")).message(),
        "Couldn't create the watcher: no socket"
    );
}
