use incli::cli::{
    cert_file_name, confirmation, distribution_notice, none_found, Args, Command, Kind, Subject,
};
use incli::project::{run_request, Relay, RelayAction};

fn blank() -> Args {
    Args {
        cmd_add: false,
        cmd_bootstrap: false,
        cmd_build: false,
        cmd_delete: false,
        cmd_host: false,
        cmd_init: false,
        cmd_list: false,
        cmd_payload: false,
        cmd_project: false,
        cmd_run: false,
        cmd_user: false,
        flag_i: None,
        flag_m: None,
        flag_n: None,
        flag_p: None,
        flag_P: None,
        flag_s: false,
        flag_silent: false,
        flag_version: false,
        flag_u: None,
        arg_arg: Vec::new(),
        arg_hostname: String::new(),
        arg_lang: String::new(),
        arg_name: String::new(),
        arg_names: None,
        arg_username: String::new(),
    }
}

#[test]
fn no_words_name_nothing() {
    assert_eq!(blank().kind(), Kind::Nothing);
    assert!(matches!(blank().command(), Command::Nothing));
}

#[test]
fn version_comes_before_everything() {
    let mut args = blank();
    args.flag_version = true;
    args.cmd_run = true;
    args.cmd_host = true;
    args.cmd_add = true;
    assert_eq!(args.kind(), Kind::Version);
    assert!(matches!(args.command(), Command::Version));
}

#[test]
fn run_takes_its_arguments() {
    let mut args = blank();
    args.cmd_run = true;
    args.arg_arg = vec![String::from("web1"), String::from("--fast")];
    match args.command() {
        Command::Run { args } => assert_eq!(args, vec!["web1", "--fast"]),
        _ => panic!("not a run"),
    }
}

#[test]
fn project_and_payload_are_made_by_name_and_language() {
    let mut args = blank();
    args.cmd_project = true;
    args.cmd_init = true;
    args.arg_name = String::from("fleet");
    args.arg_lang = String::from("rust");
    match args.command() {
        Command::ProjectInit { name, lang } => {
            assert_eq!(name, "fleet");
            assert_eq!(lang, "rust");
        }
        _ => panic!("no project"),
    }

    let mut args = blank();
    args.cmd_payload = true;
    args.cmd_init = true;
    args.arg_name = String::from("nginx");
    args.arg_lang = String::from("php");
    match args.command() {
        Command::PayloadInit { name, lang } => {
            assert_eq!(name, "nginx");
            assert_eq!(lang, "php");
        }
        _ => panic!("no payload"),
    }
}

#[test]
fn project_without_init_names_nothing() {
    let mut args = blank();
    args.cmd_project = true;
    assert_eq!(args.kind(), Kind::Nothing);
    let mut args = blank();
    args.cmd_payload = true;
    assert_eq!(args.kind(), Kind::Nothing);
}

#[test]
fn payloads_are_built_by_name_or_all() {
    let mut args = blank();
    args.cmd_payload = true;
    args.cmd_build = true;
    assert!(matches!(args.command(), Command::PayloadBuild { names: None }));

    let mut args = blank();
    args.cmd_payload = true;
    args.cmd_build = true;
    args.arg_names = Some(vec![String::from("nginx")]);
    match args.command() {
        Command::PayloadBuild { names } => assert_eq!(names, Some(vec![String::from("nginx")])),
        _ => panic!("no build"),
    }
}

#[test]
fn host_commands_take_the_host_name() {
    let mut args = blank();
    args.cmd_host = true;
    args.cmd_add = true;
    args.arg_hostname = String::from("web1");
    args.arg_username = String::from("alice");
    match args.command() {
        Command::Add { subject, name, silent } => {
            assert_eq!(subject, Subject::Host);
            assert_eq!(subject.cert_type(), "host");
            assert_eq!(name, "web1");
            assert!(!silent);
        }
        _ => panic!("nothing added"),
    }
}

#[test]
fn user_commands_take_the_user_name() {
    let mut args = blank();
    args.cmd_user = true;
    args.cmd_delete = true;
    args.flag_silent = true;
    args.arg_hostname = String::from("web1");
    args.arg_username = String::from("alice");
    match args.command() {
        Command::Delete { subject, name, silent } => {
            assert_eq!(subject, Subject::User);
            assert_eq!(subject.cert_type(), "user");
            assert_eq!(name, "alice");
            assert!(silent);
        }
        _ => panic!("nothing deleted"),
    }
}

#[test]
fn either_flag_asks_for_silence() {
    for (short, long) in [(true, false), (false, true), (true, true)] {
        let mut args = blank();
        args.cmd_host = true;
        args.cmd_add = true;
        args.flag_s = short;
        args.flag_silent = long;
        assert!(matches!(args.command(), Command::Add { silent: true, .. }));
    }
}

#[test]
fn add_comes_before_delete_before_list_before_bootstrap() {
    let mut args = blank();
    args.cmd_host = true;
    args.cmd_add = true;
    args.cmd_delete = true;
    args.cmd_list = true;
    args.cmd_bootstrap = true;
    assert_eq!(args.kind(), Kind::Add);
    args.cmd_add = false;
    assert_eq!(args.kind(), Kind::Delete);
    args.cmd_delete = false;
    assert_eq!(args.kind(), Kind::List);
    assert!(matches!(args.subject(), Subject::Host));
    args.cmd_list = false;
    assert_eq!(args.kind(), Kind::Bootstrap);
    args.cmd_bootstrap = false;
    assert_eq!(args.kind(), Kind::Nothing);
}

#[test]
fn bootstrap_is_for_hosts_only() {
    let mut args = blank();
    args.cmd_user = true;
    args.cmd_bootstrap = true;
    assert_eq!(args.kind(), Kind::Nothing);
}

#[test]
fn bootstrap_takes_its_flags() {
    let mut args = blank();
    args.cmd_host = true;
    args.cmd_bootstrap = true;
    args.arg_hostname = String::from("web1");
    args.flag_p = Some(2222);
    args.flag_u = Some(String::from("deploy"));
    args.flag_P = Some(String::from("hunter2"));
    args.flag_i = Some(String::from("id_rsa"));
    args.flag_m = Some(String::from("echo pre"));
    args.flag_n = Some(String::from("echo post"));
    match args.command() {
        Command::Bootstrap {
            hostname,
            port,
            username,
            password,
            identity_file,
            preinstall,
            postinstall,
        } => {
            assert_eq!(hostname, "web1");
            assert_eq!(port, Some(2222));
            assert_eq!(username.unwrap(), "deploy");
            assert_eq!(password.unwrap(), "hunter2");
            assert_eq!(identity_file.unwrap(), "id_rsa");
            assert_eq!(preinstall.unwrap(), "echo pre");
            assert_eq!(postinstall.unwrap(), "echo post");
        }
        _ => panic!("no bootstrap"),
    }
}

#[test]
fn confirmation_wants_y_or_n() {
    assert_eq!(confirmation("y\n"), Some(true));
    assert_eq!(confirmation("  y  "), Some(true));
    assert_eq!(confirmation("n\r\n"), Some(false));
    assert_eq!(confirmation("n"), Some(false));
    assert_eq!(confirmation(""), None);
    assert_eq!(confirmation("\n"), None);
    assert_eq!(confirmation("yes\n"), None);
    assert_eq!(confirmation("Y\n"), None);
    assert_eq!(confirmation("y n\n"), None);
}

#[test]
fn notices_are_worded_exactly() {
    assert_eq!(
        distribution_notice("CERT"),
        "Please distribute this certificate securely.

------------------------COPY BELOW THIS LINE-------------------------
CERT
------------------------COPY ABOVE THIS LINE-------------------------"
    );
    assert_eq!(cert_file_name("web1"), "web1.crt");
    assert_eq!(none_found("host"), "No hosts found");
    assert_eq!(none_found("user"), "No users found");
}

#[test]
fn run_request_opens_with_the_verb() {
    assert_eq!(run_request(&Vec::new()), vec!["RUN"]);
    assert_eq!(
        run_request(&vec![String::from("web1"), String::from("-v")]),
        vec!["RUN", "web1", "-v"]
    );
}

#[test]
fn relay_ends_on_ok() {
    let mut relay = Relay::new();
    assert_eq!(relay.receive(b"compiling"), RelayAction::Print);
    assert_eq!(relay.receive(&[0xff, 0xfe]), RelayAction::Print);
    assert_eq!(relay.receive(b"OK"), RelayAction::Stop);
    assert_eq!(relay.exit_code(), 0);
}

#[test]
fn relay_ends_with_the_words_after_err() {
    let mut relay = Relay::new();
    assert_eq!(relay.receive(b"compiling"), RelayAction::Print);
    assert_eq!(relay.receive(b"ERR"), RelayAction::Wait);
    assert!(relay.failed);
    assert_eq!(relay.receive(&[0xff]), RelayAction::Print);
    assert_eq!(relay.receive(b"ERR"), RelayAction::Wait);
    assert_eq!(relay.receive(b"linker failed"), RelayAction::PrintAndStop);
    assert_eq!(relay.exit_code(), 1);
}

#[test]
fn relay_takes_ok_even_after_err() {
    let mut relay = Relay::new();
    assert_eq!(relay.receive(b"ERR"), RelayAction::Wait);
    assert_eq!(relay.receive(b"OK"), RelayAction::Stop);
    assert_eq!(relay.exit_code(), 1);
    assert_eq!(Relay::new().receive(b"ok"), RelayAction::Print);
    assert_eq!(Relay::new().receive(b""), RelayAction::Print);
}
