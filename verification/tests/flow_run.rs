use deploy_flow::error::DeployError;
use deploy_flow::flow::{FlowContainer, FlowDefinition, FlowEngine, FlowStepDefinition};
use deploy_flow::flow_run::{FlowRun, Phase, Reply, Request};
use deploy_flow::hospital_settings::HospitalSettings;
use deploy_flow::template::{ArgValue, FlowArgs, TemplateEvaluator};

const PROBE: &str = "cat /etc/os-release | grep PRETTY_NAME | cut -d '=' -f 2 | tr -d '\"'";

fn settings() -> HospitalSettings {
    HospitalSettings {
        id: "h1".to_string(),
        name: "General".to_string(),
        main_server_ip: "10.0.0.1".to_string(),
        database_server_ip: "10.0.0.2".to_string(),
        redis_server_ip: "10.0.0.3".to_string(),
        minio_server_ip: "10.0.0.4".to_string(),
        report_server_ip: "10.0.0.5".to_string(),
        file_preview_server_ip: "10.0.0.6".to_string(),
        dashboard_server_ip: "10.0.0.7".to_string(),
        big_screen_server_ip: "10.0.0.8".to_string(),
    }
}

fn step(step_type: &str) -> FlowStepDefinition {
    FlowStepDefinition {
        step_type: step_type.to_string(),
        name: "the step".to_string(),
        condition: None,
        command: None,
        package: None,
        source_file_param_name: None,
        source_file: None,
        target_dir: None,
        target_file: None,
    }
}

fn command(text: &str) -> FlowStepDefinition {
    FlowStepDefinition { command: Some(text.to_string()), ..step("runCommand") }
}

fn engine(steps: Vec<FlowStepDefinition>) -> FlowEngine {
    FlowEngine::new(FlowContainer::new(vec![FlowDefinition {
        local: false,
        name: "deploy".to_string(),
        description: String::new(),
        icon: String::new(),
        parameters: Vec::new(),
        steps,
    }]))
}

/// A request as one line of text.
fn show(request: &Request) -> String {
    match request {
        Request::Execute { command } => format!("execute {}", command),
        Request::ExecuteStream { command } => format!("stream {}", command),
        Request::TestCommand { command } => format!("test {}", command),
        Request::ReportStep { index } => format!("step {}", index),
        Request::Render { template, .. } => format!("render {}", template),
        Request::PathExists { path } => format!("exists {}", path),
        Request::FileSize { path } => format!("size {}", path),
        Request::ReadFile { path } => format!("read {}", path),
        Request::ReadText { path } => format!("text {}", path),
        Request::Download { url, target_file } => format!("download {} -> {}", url, target_file),
        Request::Transfer { dir, filename, data } => {
            format!("transfer {} {} {}", dir, filename, String::from_utf8_lossy(data))
        },
        Request::Decompress { archive, target_dir } => format!("decompress {} -> {}", archive, target_dir),
        Request::Finished(Ok(())) => "finished".to_string(),
        Request::Finished(Err(DeployError::FlowExecutionFailed(detail))) => format!("failed {}", detail),
        Request::Finished(Err(DeployError::TemplateError(_))) => "template error".to_string(),
        Request::Finished(Err(other)) => format!("error {:?}", other),
    }
}

/// Hands `reply` to the run, renders what the run then asks to have rendered,
/// and gives the first request that asks for something else.
fn answer(run: &mut FlowRun, reply: Reply) -> Request {
    let mut request = run.advance(reply);
    loop {
        match request {
            Request::Render { template, bindings } => {
                let reply = match TemplateEvaluator::rendered(tera::Tera::one_off(&template, &bindings, false)) {
                    Ok(text) => Reply::Text(text),
                    Err(error) => Reply::Failed(error),
                };
                request = run.advance(reply);
            },
            other => return other,
        }
    }
}

/// Runs the flow of `engine` with `replies` in turn, after the reply to the
/// probe of the operating system, and gives every request made but those to
/// render.
fn run(engine: &FlowEngine, args: FlowArgs, cache_dir: Option<&str>, replies: Vec<Reply>) -> Vec<String> {
    let (mut run, first) = engine.run_flow("deploy", settings(), args, cache_dir.map(|dir| dir.to_string()));
    let mut requests = vec![show(&first)];
    requests.push(show(&answer(&mut run, Reply::Text("Ubuntu 22.04 LTS".to_string()))));
    for reply in replies {
        requests.push(show(&answer(&mut run, reply)));
    }
    requests
}

fn file_args(value: ArgValue) -> FlowArgs {
    let mut args = FlowArgs::new();
    args.insert("files".to_string(), value);
    args
}

#[test]
fn unknown_flow_succeeds_without_effect() {
    let engine = engine(vec![command("echo 1")]);
    let (mut run, first) = engine.run_flow("absent", settings(), FlowArgs::new(), None);
    assert_eq!(show(&first), "finished");
    assert!(run.is_finished());
    assert_eq!(show(&run.advance(Reply::Done)), "failed The flow run is over");
    assert!(run.is_finished());
}

#[test]
fn flow_without_steps_probes_and_finishes() {
    let engine = engine(Vec::new());
    assert_eq!(run(&engine, FlowArgs::new(), None, vec![]), vec![format!("execute {}", PROBE), "finished".to_string()]);
}

#[test]
fn operating_system_is_bound_in_lower_case() {
    let engine = engine(vec![command("echo {{ os }} {{ hs.mainServerIp }} {{ args.tag }}")]);
    let mut args = FlowArgs::new();
    args.insert("tag".to_string(), ArgValue::Text("v1".to_string()));
    let (mut run, _) = engine.run_flow("deploy", settings(), args, None);
    assert!(!run.is_finished());
    assert_eq!(show(&answer(&mut run, Reply::Text("Ubuntu 22.04 LTS\n".to_string()))), "step 0");
    assert_eq!(run.job.context.os, "ubuntu 22.04 lts\n");
    assert_eq!(show(&answer(&mut run, Reply::Done)), "stream echo ubuntu 22.04 lts\n 10.0.0.1 v1");
    assert_eq!(show(&answer(&mut run, Reply::Done)), "finished");
    assert!(run.is_finished());
}

#[test]
fn failed_probe_of_operating_system_ends_run() {
    let engine = engine(vec![command("echo 1")]);
    let (mut run, _) = engine.run_flow("deploy", settings(), FlowArgs::new(), None);
    let request = run.advance(Reply::Failed(DeployError::CommandExecutionTimeout));
    assert!(matches!(request, Request::Finished(Err(DeployError::CommandExecutionTimeout))));
    assert!(run.is_finished());
}

#[test]
fn steps_run_in_order() {
    let engine = engine(vec![command("echo 1"), command("echo 2")]);
    assert_eq!(
        run(&engine, FlowArgs::new(), None, vec![Reply::Done, Reply::Done, Reply::Done, Reply::Done]),
        vec![
            format!("execute {}", PROBE),
            "step 0".to_string(),
            "stream echo 1".to_string(),
            "step 1".to_string(),
            "stream echo 2".to_string(),
            "finished".to_string(),
        ]
    );
}

#[test]
fn unsupported_step_fails_run_after_first_step_and_before_third() {
    let engine = engine(vec![command("touch /tmp/one"), step("bogus"), command("touch /tmp/three")]);
    assert_eq!(
        run(&engine, FlowArgs::new(), None, vec![Reply::Done, Reply::Done, Reply::Done, Reply::Done, Reply::Done]),
        vec![
            format!("execute {}", PROBE),
            "step 0".to_string(),
            "stream touch /tmp/one".to_string(),
            "step 1".to_string(),
            "failed Unsupported step type: bogus".to_string(),
            "failed The flow run is over".to_string(),
            "failed The flow run is over".to_string(),
        ]
    );
}

#[test]
fn step_is_skipped_when_condition_holds() {
    let guarded = FlowStepDefinition { condition: Some("test -f /opt/{{ os }}".to_string()), ..command("install") };
    let engine = engine(vec![guarded, command("after")]);
    assert_eq!(
        run(&engine, FlowArgs::new(), None, vec![Reply::Done, Reply::Flag(true), Reply::Done, Reply::Done]),
        vec![
            format!("execute {}", PROBE),
            "step 0".to_string(),
            "test test -f /opt/ubuntu 22.04 lts".to_string(),
            "step 1".to_string(),
            "stream after".to_string(),
            "finished".to_string(),
        ]
    );
}

#[test]
fn step_runs_when_condition_does_not_hold() {
    let guarded = FlowStepDefinition { condition: Some("test -f /opt/x".to_string()), ..command("install") };
    let engine = engine(vec![guarded]);
    assert_eq!(
        run(&engine, FlowArgs::new(), None, vec![Reply::Done, Reply::Flag(false), Reply::Done]),
        vec![
            format!("execute {}", PROBE),
            "step 0".to_string(),
            "test test -f /opt/x".to_string(),
            "stream install".to_string(),
            "finished".to_string(),
        ]
    );
}

#[test]
fn failing_condition_test_ends_run() {
    let guarded = FlowStepDefinition { condition: Some("true".to_string()), ..command("install") };
    let engine = engine(vec![guarded]);
    let requests = run(
        &engine,
        FlowArgs::new(),
        None,
        vec![Reply::Done, Reply::Failed(DeployError::SshError("channel closed".to_string()))],
    );
    assert_eq!(requests.last().unwrap(), "error SshError(\"channel closed\")");
}

#[test]
fn template_error_ends_run() {
    let guarded = FlowStepDefinition { condition: Some("{{ missing }}".to_string()), ..command("install") };
    assert_eq!(run(&engine(vec![guarded]), FlowArgs::new(), None, vec![Reply::Done]).last().unwrap(), "template error");
    assert_eq!(
        run(&engine(vec![command("{{ missing }}")]), FlowArgs::new(), None, vec![Reply::Done]).last().unwrap(),
        "template error"
    );
}

#[test]
fn command_without_text_fails() {
    assert_eq!(
        run(&engine(vec![step("runCommand")]), FlowArgs::new(), None, vec![Reply::Done]).last().unwrap(),
        "failed No command specified for step the step"
    );
}

#[test]
fn failed_command_ends_run() {
    let engine = engine(vec![command("false"), command("never")]);
    let requests = run(
        &engine,
        FlowArgs::new(),
        None,
        vec![Reply::Done, Reply::Failed(DeployError::CommandExecutionFailed("boom".to_string())), Reply::Done],
    );
    assert_eq!(
        requests[2..],
        [
            "stream false".to_string(),
            "error CommandExecutionFailed(\"boom\")".to_string(),
            "failed The flow run is over".to_string()
        ]
    );
}

#[test]
fn failed_step_report_ends_run() {
    let engine = engine(vec![command("echo")]);
    let requests =
        run(&engine, FlowArgs::new(), None, vec![Reply::Failed(DeployError::TauriError("window gone".to_string()))]);
    assert_eq!(requests.last().unwrap(), "error TauriError(\"window gone\")");
}

#[test]
fn unexpected_reply_ends_run() {
    let engine = engine(vec![command("echo")]);
    assert_eq!(
        run(&engine, FlowArgs::new(), None, vec![Reply::Flag(true)]).last().unwrap(),
        "failed Unexpected reply"
    );
    let (mut started, _) = engine.run_flow("deploy", settings(), FlowArgs::new(), None);
    assert_eq!(show(&started.advance(Reply::Done)), "failed Unexpected reply");
    assert!(started.is_finished());
}

fn download() -> FlowStepDefinition {
    FlowStepDefinition {
        package: Some("docker/{{ os }}".to_string()),
        target_file: Some("docker/{{ os }}.tar.gz".to_string()),
        ..step("downloadPackage")
    }
}

#[test]
fn existing_download_is_not_fetched_again() {
    let engine = engine(vec![download(), download()]);
    let (mut run, _) = engine.run_flow("deploy", settings(), FlowArgs::new(), Some("/cache".to_string()));
    let mut requests = Vec::new();
    for reply in [
        Reply::Text("ubuntu".to_string()),
        Reply::Done,
        Reply::Flag(false),
        Reply::Done,
        Reply::Done,
        Reply::Flag(true),
    ] {
        requests.push(show(&answer(&mut run, reply)));
    }
    assert_eq!(
        requests,
        vec![
            "step 0".to_string(),
            "exists /cache/docker/ubuntu.tar.gz".to_string(),
            "download http://192.168.10.207:5959/packages/docker/ubuntu -> /cache/docker/ubuntu.tar.gz".to_string(),
            "step 1".to_string(),
            "exists /cache/docker/ubuntu.tar.gz".to_string(),
            "finished".to_string(),
        ]
    );
}

#[test]
fn download_needs_cache_dir_target_and_package() {
    assert_eq!(
        run(&engine(vec![download()]), FlowArgs::new(), None, vec![Reply::Done]).last().unwrap(),
        "error Io(\"Cache directory not found\")"
    );
    let no_target = FlowStepDefinition { target_file: None, ..download() };
    assert_eq!(
        run(&engine(vec![no_target]), FlowArgs::new(), Some("/cache"), vec![Reply::Done]).last().unwrap(),
        "failed No target file specified"
    );
    let no_package = FlowStepDefinition { package: None, ..download() };
    assert_eq!(
        run(&engine(vec![no_package]), FlowArgs::new(), Some("/cache"), vec![Reply::Done, Reply::Flag(false)])
            .last()
            .unwrap(),
        "failed No package specified"
    );
    let no_package = FlowStepDefinition { package: None, ..download() };
    assert_eq!(
        run(&engine(vec![no_package]), FlowArgs::new(), Some("/cache"), vec![Reply::Done, Reply::Flag(true)])
            .last()
            .unwrap(),
        "finished"
    );
}

fn package() -> FlowStepDefinition {
    FlowStepDefinition {
        package: Some("service/api.tar.gz".to_string()),
        target_file: Some("/opt/deploy/api.tar.gz".to_string()),
        ..step("transferPackage")
    }
}

fn package_run(size: u64, probe: Reply) -> Vec<String> {
    let engine = engine(vec![package()]);
    let mut requests = run(
        &engine,
        FlowArgs::new(),
        Some("/cache"),
        vec![Reply::Done, Reply::Flag(true), Reply::Size(size), probe, Reply::Bytes(b"bytes".to_vec()), Reply::Done],
    );
    requests.drain(..1);
    requests
}

#[test]
fn one_megabyte_package_is_transferred_whatever_the_remote_size() {
    assert_eq!(
        package_run(1_000_000, Reply::Text("1000".to_string())),
        vec![
            "step 0".to_string(),
            "exists /cache/service/api.tar.gz".to_string(),
            "size /cache/service/api.tar.gz".to_string(),
            "execute du /opt/deploy/api.tar.gz | tr -s ' ' | cut -d ' ' -f 1".to_string(),
            "read /cache/service/api.tar.gz".to_string(),
            "transfer /opt/deploy api.tar.gz bytes".to_string(),
            "finished".to_string(),
        ]
    );
}

#[test]
fn ten_megabyte_package_is_skipped_when_remote_reports_ten_megabytes() {
    assert_eq!(
        package_run(10_000_000, Reply::Text("10000".to_string()))[3..],
        [
            "execute du /opt/deploy/api.tar.gz | tr -s ' ' | cut -d ' ' -f 1".to_string(),
            "finished".to_string(),
            "failed The flow run is over".to_string(),
            "failed The flow run is over".to_string(),
        ]
    );
}

#[test]
fn ten_megabyte_package_is_transferred_when_remote_reports_nothing() {
    assert_eq!(
        package_run(10_000_000, Reply::Text("0".to_string()))[4..],
        ["read /cache/service/api.tar.gz".to_string(), "transfer /opt/deploy api.tar.gz bytes".to_string(), "finished".to_string()]
    );
    assert_eq!(
        package_run(10_000_000, Reply::Failed(DeployError::CommandExecutionFailed("no such file".to_string())))[4..],
        ["read /cache/service/api.tar.gz".to_string(), "transfer /opt/deploy api.tar.gz bytes".to_string(), "finished".to_string()]
    );
    assert_eq!(
        package_run(10_000_000, Reply::Text("10000\n".to_string()))[4],
        "read /cache/service/api.tar.gz".to_string()
    );
}

#[test]
fn missing_package_fails_run() {
    let engine = engine(vec![package()]);
    assert_eq!(
        run(&engine, FlowArgs::new(), Some("/cache"), vec![Reply::Done, Reply::Flag(false)]).last().unwrap(),
        "failed Package not found: service/api.tar.gz"
    );
}

#[test]
fn package_step_needs_its_fields() {
    let no_package = FlowStepDefinition { package: None, ..package() };
    assert_eq!(
        run(&engine(vec![no_package]), FlowArgs::new(), Some("/cache"), vec![Reply::Done]).last().unwrap(),
        "failed No package specified for step the step"
    );
    let no_target = FlowStepDefinition { target_file: None, ..package() };
    assert_eq!(
        run(&engine(vec![no_target]), FlowArgs::new(), Some("/cache"), vec![Reply::Done]).last().unwrap(),
        "failed No target file specified for step the step"
    );
    assert_eq!(
        run(&engine(vec![package()]), FlowArgs::new(), None, vec![Reply::Done]).last().unwrap(),
        "error Io(\"Cache directory not found\")"
    );
}

#[test]
fn package_target_without_file_name_is_invalid_path() {
    let rooted = FlowStepDefinition { target_file: Some("/".to_string()), ..package() };
    assert_eq!(
        run(&engine(vec![rooted]), FlowArgs::new(), Some("/cache"), vec![Reply::Done, Reply::Flag(true)])
            .last()
            .unwrap(),
        "error InvalidPath"
    );
}

#[test]
fn failed_read_of_package_ends_run() {
    let engine = engine(vec![package()]);
    let requests = run(
        &engine,
        FlowArgs::new(),
        Some("/cache"),
        vec![
            Reply::Done,
            Reply::Flag(true),
            Reply::Size(1),
            Reply::Text(String::new()),
            Reply::Failed(DeployError::Io("denied".to_string())),
        ],
    );
    assert_eq!(requests.last().unwrap(), "error Io(\"denied\")");
}

fn config() -> FlowStepDefinition {
    FlowStepDefinition {
        source_file: Some("config/{{ args.app }}/app.conf".to_string()),
        target_file: Some("/etc/{{ args.app }}/app.conf".to_string()),
        ..step("transferConfigFile")
    }
}

fn app_args() -> FlowArgs {
    let mut args = FlowArgs::new();
    args.insert("app".to_string(), ArgValue::Text("nginx".to_string()));
    args
}

#[test]
fn config_file_is_rendered_and_transferred() {
    let engine = engine(vec![config()]);
    assert_eq!(
        run(
            &engine,
            app_args(),
            Some("/cache"),
            vec![
                Reply::Done,
                Reply::Flag(true),
                Reply::Text("server {{ hs.mainServerIp }}; # {{ \"{{ literal }}\" }} é".to_string()),
                Reply::Done,
            ]
        )[2..],
        [
            "exists /cache/config/nginx/app.conf".to_string(),
            "text /cache/config/nginx/app.conf".to_string(),
            "transfer /etc/nginx app.conf server 10.0.0.1; # {{ literal }} é".to_string(),
            "finished".to_string(),
        ]
    );
}

#[test]
fn missing_config_template_fails_run() {
    let engine = engine(vec![config()]);
    assert_eq!(
        run(&engine, app_args(), Some("/cache"), vec![Reply::Done, Reply::Flag(false)]).last().unwrap(),
        "failed Source config file not found: config/nginx/app.conf"
    );
}

#[test]
fn config_step_needs_its_fields() {
    let no_source = FlowStepDefinition { source_file: None, ..config() };
    assert_eq!(
        run(&engine(vec![no_source]), app_args(), Some("/cache"), vec![Reply::Done]).last().unwrap(),
        "failed No source file specified for step the step"
    );
    let no_target = FlowStepDefinition { target_file: None, ..config() };
    assert_eq!(
        run(&engine(vec![no_target]), app_args(), Some("/cache"), vec![Reply::Done]).last().unwrap(),
        "failed No target file specified for step the step"
    );
    assert_eq!(
        run(&engine(vec![config()]), app_args(), None, vec![Reply::Done]).last().unwrap(),
        "error Io(\"Cache directory not found\")"
    );
}

#[test]
fn broken_config_body_is_a_template_error() {
    let engine = engine(vec![config()]);
    assert_eq!(
        run(
            &engine,
            app_args(),
            Some("/cache"),
            vec![Reply::Done, Reply::Flag(true), Reply::Text("{{ nobody }}".to_string())]
        )
        .last()
        .unwrap(),
        "template error"
    );
}

fn files(target_dir: Option<&str>, target_file: Option<&str>) -> FlowStepDefinition {
    FlowStepDefinition {
        source_file_param_name: Some("files".to_string()),
        target_dir: target_dir.map(|dir| dir.to_string()),
        target_file: target_file.map(|file| file.to_string()),
        ..step("transferFile")
    }
}

#[test]
fn single_file_goes_to_target_file() {
    let engine = engine(vec![files(Some("/ignored"), Some("/opt/app/license"))]);
    assert_eq!(
        run(
            &engine,
            file_args(ArgValue::Text("/home/me/license.lic".to_string())),
            None,
            vec![Reply::Done, Reply::Bytes(b"key".to_vec()), Reply::Done]
        )[2..],
        ["read /home/me/license.lic".to_string(), "transfer /opt/app license key".to_string(), "finished".to_string()]
    );
}

#[test]
fn many_files_go_to_target_dir_one_after_another() {
    let engine = engine(vec![files(Some("/opt/app"), None), command("done")]);
    let list = ArgValue::List(vec![
        ArgValue::Text("/home/me/a.txt".to_string()),
        ArgValue::Bool(true),
        ArgValue::Text("/home/me/b.txt".to_string()),
    ]);
    assert_eq!(
        run(
            &engine,
            file_args(list),
            None,
            vec![
                Reply::Done,
                Reply::Bytes(b"A".to_vec()),
                Reply::Done,
                Reply::Bytes(b"B".to_vec()),
                Reply::Done,
                Reply::Done,
            ]
        )[2..],
        [
            "read /home/me/a.txt".to_string(),
            "transfer /opt/app a.txt A".to_string(),
            "read /home/me/b.txt".to_string(),
            "transfer /opt/app b.txt B".to_string(),
            "step 1".to_string(),
            "stream done".to_string(),
        ]
    );
}

#[test]
fn file_keeps_its_path_without_targets() {
    let engine = engine(vec![files(None, None)]);
    assert_eq!(
        run(
            &engine,
            file_args(ArgValue::Text("/home/me/a.txt".to_string())),
            None,
            vec![Reply::Done, Reply::Bytes(Vec::new())]
        )[2..],
        ["read /home/me/a.txt".to_string(), "transfer /home/me a.txt ".to_string()]
    );
}

#[test]
fn file_step_without_argument_does_nothing() {
    let named = engine(vec![files(Some("/opt"), None)]);
    assert_eq!(run(&named, FlowArgs::new(), None, vec![Reply::Done]).last().unwrap(), "finished");
    let unnamed = FlowStepDefinition { source_file_param_name: None, ..files(Some("/opt"), None) };
    assert_eq!(
        run(&engine(vec![unnamed]), file_args(ArgValue::Text("/a".to_string())), None, vec![Reply::Done])
            .last()
            .unwrap(),
        "finished"
    );
    assert_eq!(
        run(&named, file_args(ArgValue::List(Vec::new())), None, vec![Reply::Done]).last().unwrap(),
        "finished"
    );
}

#[test]
fn file_argument_of_other_type_fails_run() {
    let engine = engine(vec![files(Some("/opt"), None)]);
    assert_eq!(
        run(&engine, file_args(ArgValue::Bool(true)), None, vec![Reply::Done]).last().unwrap(),
        "failed Invalid value type for parameter files"
    );
}

#[test]
fn source_without_file_name_fails_after_earlier_files_were_sent() {
    let engine = engine(vec![files(Some("/opt"), None)]);
    let list = ArgValue::List(vec![ArgValue::Text("/home/a".to_string()), ArgValue::Text("/".to_string())]);
    assert_eq!(
        run(&engine, file_args(list), None, vec![Reply::Done, Reply::Bytes(b"A".to_vec()), Reply::Done])[2..],
        [
            "read /home/a".to_string(),
            "transfer /opt a A".to_string(),
            "error InvalidFilename(\"/\")".to_string()
        ]
    );
}

#[test]
fn unreadable_source_fails_before_its_path_is_split() {
    let engine = engine(vec![files(None, Some("/"))]);
    assert_eq!(
        run(
            &engine,
            file_args(ArgValue::Text("/home/a".to_string())),
            None,
            vec![Reply::Done, Reply::Failed(DeployError::Io("unreadable".to_string()))]
        )
        .last()
        .unwrap(),
        "error Io(\"unreadable\")"
    );
    assert_eq!(
        run(
            &engine,
            file_args(ArgValue::Text("/home/a".to_string())),
            None,
            vec![Reply::Done, Reply::Bytes(Vec::new())]
        )
        .last()
        .unwrap(),
        "error InvalidPath"
    );
}

#[test]
fn offline_package_is_unpacked_into_cache() {
    let engine = engine(vec![step("decompressionOfflinePackage")]);
    let mut args = FlowArgs::new();
    args.insert("offline_package".to_string(), ArgValue::Text("/media/offline.tar.gz".to_string()));
    assert_eq!(
        run(&engine, args, Some("/cache"), vec![Reply::Done, Reply::Done])[2..],
        ["decompress /media/offline.tar.gz -> /cache".to_string(), "finished".to_string()]
    );
}

#[test]
fn offline_package_needs_text_argument_and_cache() {
    let engine = engine(vec![step("decompressionOfflinePackage")]);
    assert_eq!(
        run(&engine, FlowArgs::new(), Some("/cache"), vec![Reply::Done]).last().unwrap(),
        "failed No offline package specified"
    );
    let mut args = FlowArgs::new();
    args.insert("offline_package".to_string(), ArgValue::Bool(true));
    assert_eq!(
        run(&engine, args, Some("/cache"), vec![Reply::Done]).last().unwrap(),
        "failed Invalid offline package type"
    );
    let mut args = FlowArgs::new();
    args.insert("offline_package".to_string(), ArgValue::Text("/media/offline.tar.gz".to_string()));
    assert_eq!(run(&engine, args, None, vec![Reply::Done]).last().unwrap(), "error Io(\"Cache directory not found\")");
}

#[test]
fn cursor_moves_with_the_steps() {
    let engine = engine(vec![command("one"), command("two")]);
    let (mut run, _) = engine.run_flow("deploy", settings(), FlowArgs::new(), None);
    assert!(matches!(run.phase, Phase::OsProbe));
    run.advance(Reply::Text(String::new()));
    assert_eq!(run.cursor, 0);
    assert!(matches!(run.phase, Phase::StepAnnounced));
    run.advance(Reply::Done);
    assert_eq!(run.cursor, 0);
    assert!(matches!(run.phase, Phase::RenderCommand));
    run.advance(Reply::Text("one".to_string()));
    assert_eq!(run.cursor, 0);
    assert!(matches!(run.phase, Phase::Completion));
    run.advance(Reply::Done);
    assert_eq!(run.cursor, 1);
    answer(&mut run, Reply::Done);
    run.advance(Reply::Done);
    assert_eq!(run.cursor, 2);
    assert!(matches!(run.phase, Phase::Finished));
}

#[test]
fn command_is_asked_to_be_rendered_against_the_context_and_run_as_rendered() {
    let engine = engine(vec![command("echo {{ os }}")]);
    let mut args = FlowArgs::new();
    args.insert("tag".to_string(), ArgValue::Text("v1".to_string()));
    let (mut run, _) = engine.run_flow("deploy", settings(), args, None);
    run.advance(Reply::Text("Debian".to_string()));
    match run.advance(Reply::Done) {
        Request::Render { template, bindings } => {
            assert_eq!(template, "echo {{ os }}");
            let bound = bindings.into_json();
            assert_eq!(bound["os"], "debian");
            assert_eq!(bound["hs"]["mainServerIp"], "10.0.0.1");
            assert_eq!(bound["args"]["tag"], "v1");
        },
        other => panic!("unexpected request: {}", show(&other)),
    }
    assert_eq!(show(&run.advance(Reply::Text("echo {{ kept }}".to_string()))), "stream echo {{ kept }}");
}

#[test]
fn condition_is_tested_as_rendered() {
    let guarded = FlowStepDefinition { condition: Some("test {{ os }}".to_string()), ..command("install") };
    let engine = engine(vec![guarded]);
    let (mut run, _) = engine.run_flow("deploy", settings(), FlowArgs::new(), None);
    run.advance(Reply::Text(String::new()));
    assert_eq!(show(&run.advance(Reply::Done)), "render test {{ os }}");
    assert_eq!(show(&run.advance(Reply::Text("test rendered".to_string()))), "test test rendered");
    assert_eq!(show(&run.advance(Reply::Flag(false))), "render install");
}

#[test]
fn rendered_configuration_is_sent_as_it_is() {
    let engine = engine(vec![config()]);
    let (mut run, _) = engine.run_flow("deploy", settings(), app_args(), Some("/cache".to_string()));
    let mut requests = Vec::new();
    for reply in [
        Reply::Text(String::new()),
        Reply::Done,
        Reply::Text("config/nginx/app.conf".to_string()),
        Reply::Flag(true),
        Reply::Text("raw {{ hs.name }}".to_string()),
        Reply::Text("rendered {{ literal }}".to_string()),
        Reply::Text("/etc/nginx/app.conf".to_string()),
        Reply::Done,
    ] {
        requests.push(show(&run.advance(reply)));
    }
    assert_eq!(
        requests,
        vec![
            "step 0".to_string(),
            "render config/{{ args.app }}/app.conf".to_string(),
            "exists /cache/config/nginx/app.conf".to_string(),
            "text /cache/config/nginx/app.conf".to_string(),
            "render raw {{ hs.name }}".to_string(),
            "render /etc/{{ args.app }}/app.conf".to_string(),
            "transfer /etc/nginx app.conf rendered {{ literal }}".to_string(),
            "finished".to_string(),
        ]
    );
}

#[test]
fn download_and_package_names_are_used_as_rendered() {
    let engine = engine(vec![download(), package()]);
    let (mut run, _) = engine.run_flow("deploy", settings(), FlowArgs::new(), Some("/cache".to_string()));
    let mut requests = Vec::new();
    for reply in [
        Reply::Text(String::new()),
        Reply::Done,
        Reply::Text("file.tar.gz".to_string()),
        Reply::Flag(false),
        Reply::Text("docker/x".to_string()),
        Reply::Done,
        Reply::Done,
        Reply::Text("pkg".to_string()),
        Reply::Flag(true),
        Reply::Text("/opt/pkg".to_string()),
    ] {
        requests.push(show(&run.advance(reply)));
    }
    assert_eq!(
        requests,
        vec![
            "step 0".to_string(),
            "render docker/{{ os }}.tar.gz".to_string(),
            "exists /cache/file.tar.gz".to_string(),
            "render docker/{{ os }}".to_string(),
            "download http://192.168.10.207:5959/packages/docker/x -> /cache/file.tar.gz".to_string(),
            "step 1".to_string(),
            "render service/api.tar.gz".to_string(),
            "exists /cache/pkg".to_string(),
            "render /opt/deploy/api.tar.gz".to_string(),
            "size /cache/pkg".to_string(),
        ]
    );
}

#[test]
fn failed_rendering_ends_run_with_its_failure() {
    let engine = engine(vec![command("echo")]);
    let (mut run, _) = engine.run_flow("deploy", settings(), FlowArgs::new(), None);
    run.advance(Reply::Text(String::new()));
    run.advance(Reply::Done);
    let failure = TemplateEvaluator::rendered(Err(tera::Error::msg("broken"))).unwrap_err();
    assert_eq!(show(&run.advance(Reply::Failed(failure))), "template error");
    assert!(run.is_finished());
}
