use pendulum_launch::config::{
    CollatorConfig, CollatorNodeConfig, CollatorNodeRelayConfig, ValidatorConfig,
    ValidatorNodeConfig,
};
use pendulum_launch::launcher::{check_log_options, LauncherMode};
use pendulum_launch::node::{BaseNode, Collator, CollatorRelay, Validator};
use pendulum_launch::task::manager::{Action, Event, Phase};
use pendulum_launch::util::port_to_string;
use pendulum_launch::{Config, Error, Launcher, PathBuffer, Task, TaskManager};

fn texts(v: &[&str]) -> Vec<String> {
    v.iter().map(|s| s.to_string()).collect()
}

fn validator(rpc_port: Option<u16>) -> Validator {
    Validator::new(BaseNode::new(
        "validator_node".to_string(),
        PathBuffer::from_text("./bin/polkadot"),
        PathBuffer::from_text("./specs/x.json"),
        None,
        vec![],
        30343,
        9944,
        rpc_port,
    ))
}

fn collator() -> Collator {
    let inner = BaseNode::new(
        "collator_node".to_string(),
        PathBuffer::from_text("./bin/pendulum-collator"),
        PathBuffer::from_text("./specs/para.json"),
        None,
        texts(&["--force-authoring"]),
        30344,
        8844,
        Some(8833),
    );
    let relay = CollatorRelay::new(
        PathBuffer::from_text("./specs/relay.json"),
        Some(texts(&["--execution", "wasm"])),
        30345,
        9955,
        Some(9966),
    );
    Collator::new(inner, relay)
}

fn config(relay_port: u16) -> Config {
    let validator = ValidatorConfig {
        bin: PathBuffer::from_text("./bin/polkadot"),
        dockerfile: None,
        nodes: vec![ValidatorNodeConfig {
            name: "validator_node".to_string(),
            chain: PathBuffer::from_text("./specs/rococo-custom-2-raw.json"),
            args: vec![],
            port: 30343,
            ws_port: 9944,
            rpc_port: None,
        }],
    };
    let collator = CollatorConfig {
        bin: PathBuffer::from_text("./bin/pendulum-collator"),
        dockerfile: None,
        nodes: vec![CollatorNodeConfig {
            name: "collator_node".to_string(),
            chain: PathBuffer::from_text("./specs/rococo-local-parachain-raw.json"),
            args: texts(&["--force-authoring"]),
            port: 30344,
            ws_port: 8844,
            rpc_port: None,
            relay: CollatorNodeRelayConfig {
                chain: PathBuffer::from_text("./specs/rococo-custom-2-raw.json"),
                args: None,
                port: relay_port,
                ws_port: 9955,
                rpc_port: None,
            },
        }],
    };
    Config::new(Some("Pendulum"), Some("xiuxiu"), Some("local"), validator, collator)
}

fn task(name: &str) -> Task {
    Task::new(PathBuffer::from_text(name), texts(&["--x"]), None)
}

#[test]
fn validator_arguments_are_exact() {
    let args = validator(None).build_arguments().unwrap();
    assert_eq!(
        args,
        texts(&[
            "--chain",
            "./specs/x.json",
            "--port",
            "30343",
            "--ws-port",
            "9944",
            "--name",
            "validator_node",
            "--validator"
        ])
    );
}

#[test]
fn validator_rpc_port_goes_before_name() {
    let args = validator(Some(9933)).build_arguments().unwrap();
    assert_eq!(
        args,
        texts(&[
            "--chain",
            "./specs/x.json",
            "--port",
            "30343",
            "--ws-port",
            "9944",
            "--rpc-port",
            "9933",
            "--name",
            "validator_node",
            "--validator"
        ])
    );
}

#[test]
fn collator_arguments_are_exact() {
    let args = collator().build_arguments().unwrap();
    assert_eq!(
        args,
        texts(&[
            "--force-authoring",
            "--chain",
            "./specs/para.json",
            "--port",
            "30344",
            "--ws-port",
            "8844",
            "--rpc-port",
            "8833",
            "--name",
            "collator_node",
            "--collator",
            "--",
            "--chain",
            "./specs/relay.json",
            "--port",
            "30345",
            "--ws-port",
            "9955",
            "--execution",
            "wasm",
            "--rpc-port",
            "9966"
        ])
    );
}

#[test]
fn collator_ports_are_six_in_order() {
    assert_eq!(
        collator().ports(),
        vec![Some(30344), Some(8844), Some(8833), Some(30345), Some(9955), Some(9966)]
    );
    let plain = Collator::new(
        BaseNode::new(
            "c".to_string(),
            PathBuffer::from_text("b"),
            PathBuffer::from_text("s"),
            None,
            vec![],
            1,
            2,
            None,
        ),
        CollatorRelay::new(PathBuffer::from_text("r"), None, 3, 4, None),
    );
    assert_eq!(plain.ports(), vec![Some(1), Some(2), None, Some(3), Some(4), None]);
}

#[test]
fn validator_ports_are_three_in_order() {
    assert_eq!(validator(None).ports(), vec![Some(30343), Some(9944), None]);
}

#[test]
fn happy_path_spawns_and_kills_two_tasks() {
    let launcher = Launcher::new(config(30345), None);
    let (mut m, first) = launcher.run().unwrap();
    assert_eq!(first, Action::InstallHandler);
    assert_eq!(m.tasks().len(), 2);
    assert_eq!(m.step(Event::HandlerInstalled(Ok(()))), Action::Spawn(0));
    assert_eq!(m.step(Event::Spawned(Ok(100))), Action::Spawn(1));
    assert_eq!(m.step(Event::Spawned(Ok(101))), Action::AwaitSignal);
    assert_eq!(m.phase(), Phase::Running);
    assert!(m.tasks().iter().all(|t| t.is_running()));
    assert_eq!(m.step(Event::Signalled), Action::Kill(0));
    assert_eq!(m.step(Event::Killed(Ok(()))), Action::Kill(1));
    assert_eq!(m.step(Event::Killed(Ok(()))), Action::Finish(Ok(())));
    assert_eq!(m.phase(), Phase::Stopped);
    assert!(m.tasks().iter().all(|t| !t.is_running()));
}

#[test]
fn duplicate_port_is_rejected_before_any_task() {
    let launcher = Launcher::new(config(30343), None);
    assert_eq!(launcher.ensure_unique_ports(), Err(Error::PortInUse(30343)));
    assert_eq!(launcher.run().unwrap_err(), Error::PortInUse(30343));
}

#[test]
fn unique_ports_pass() {
    let launcher = Launcher::new(config(30345), None);
    assert_eq!(launcher.ensure_unique_ports(), Ok(()));
}

#[test]
fn duplicate_within_one_node_is_rejected() {
    let v = Validator::new(BaseNode::new(
        "v".to_string(),
        PathBuffer::from_text("b"),
        PathBuffer::from_text("s"),
        None,
        vec![],
        5000,
        6000,
        Some(5000),
    ));
    let launcher = Launcher {
        name: None,
        author: None,
        mode: LauncherMode::Local,
        validators: vec![v],
        collators: vec![],
        log_dir: None,
    };
    assert_eq!(launcher.ensure_unique_ports(), Err(Error::PortInUse(5000)));
}

#[test]
fn first_collision_in_order_is_reported() {
    let mut c = config(9944);
    c.collator.nodes[0].ws_port = 30343;
    let launcher = Launcher::new(c, None);
    // The collator's websocket port collides before its relay's p2p port does.
    assert_eq!(launcher.ensure_unique_ports(), Err(Error::PortInUse(30343)));
}

#[test]
fn kill_before_spawn_is_a_no_op() {
    let mut t = task("a");
    assert_eq!(t.kill(Err(Error::Io("unused".to_string()))), Ok(()));
    assert!(!t.is_running());
    assert_eq!(t.handle(), None);
}

#[test]
fn kill_twice_succeeds_both_times() {
    let mut t = task("a");
    assert_eq!(t.spawn(Ok(42)), Ok(()));
    assert_eq!(t.handle(), Some(42));
    assert_eq!(t.kill(Ok(())), Ok(()));
    assert_eq!(t.kill(Ok(())), Ok(()));
    assert_eq!(t.handle(), None);
}

#[test]
fn failed_kill_keeps_the_handle() {
    let mut t = task("a");
    t.spawn(Ok(7)).unwrap();
    let e = Error::Io("denied".to_string());
    assert_eq!(t.kill(Err(e.clone())), Err(e));
    assert_eq!(t.handle(), Some(7));
}

#[test]
fn failed_spawn_records_nothing() {
    let mut t = task("a");
    let e = Error::Io("not found".to_string());
    assert_eq!(t.spawn(Err(e.clone())), Err(e));
    assert!(!t.is_running());
}

#[test]
fn failed_start_rolls_back_spawned_tasks_in_order() {
    let mut m = TaskManager::new(vec![task("a"), task("b"), task("c")]);
    assert_eq!(m.run(), Action::InstallHandler);
    assert_eq!(m.step(Event::HandlerInstalled(Ok(()))), Action::Spawn(0));
    assert_eq!(m.step(Event::Spawned(Ok(10))), Action::Spawn(1));
    assert_eq!(m.step(Event::Spawned(Ok(11))), Action::Spawn(2));
    let e = Error::Io("no such file".to_string());
    assert_eq!(m.step(Event::Spawned(Err(e.clone()))), Action::Kill(0));
    assert_eq!(m.phase(), Phase::RollingBack);
    assert_eq!(m.step(Event::Killed(Ok(()))), Action::Kill(1));
    assert_eq!(m.step(Event::Killed(Ok(()))), Action::Finish(Err(e)));
    assert!(m.tasks().iter().all(|t| !t.is_running()));
}

#[test]
fn failed_first_spawn_stops_without_kills() {
    let mut m = TaskManager::new(vec![task("a"), task("b")]);
    m.run();
    assert_eq!(m.step(Event::HandlerInstalled(Ok(()))), Action::Spawn(0));
    let e = Error::Io("denied".to_string());
    assert_eq!(m.step(Event::Spawned(Err(e.clone()))), Action::Finish(Err(e)));
    assert_eq!(m.phase(), Phase::Stopped);
}

#[test]
fn rollback_reports_the_spawn_error_even_when_a_kill_fails() {
    let mut m = TaskManager::new(vec![task("a"), task("b"), task("c")]);
    m.run();
    m.step(Event::HandlerInstalled(Ok(())));
    m.step(Event::Spawned(Ok(1)));
    m.step(Event::Spawned(Ok(2)));
    let e = Error::Io("spawn".to_string());
    assert_eq!(m.step(Event::Spawned(Err(e.clone()))), Action::Kill(0));
    assert_eq!(m.step(Event::Killed(Err(Error::Io("kill".to_string())))), Action::Kill(1));
    assert_eq!(m.step(Event::Killed(Ok(()))), Action::Finish(Err(e)));
    assert!(m.tasks()[0].is_running());
    assert!(!m.tasks()[1].is_running());
}

#[test]
fn shutdown_kills_every_task_in_order_and_reports_first_error() {
    let mut m = TaskManager::new(vec![task("a"), task("b"), task("c")]);
    m.run();
    m.step(Event::HandlerInstalled(Ok(())));
    m.step(Event::Spawned(Ok(1)));
    m.step(Event::Spawned(Ok(2)));
    assert_eq!(m.step(Event::Spawned(Ok(3))), Action::AwaitSignal);
    assert_eq!(m.step(Event::Signalled), Action::Kill(0));
    let first = Error::Io("first".to_string());
    assert_eq!(m.step(Event::Killed(Err(first.clone()))), Action::Kill(1));
    assert_eq!(m.step(Event::Killed(Err(Error::Io("second".to_string())))), Action::Kill(2));
    assert_eq!(m.step(Event::Killed(Ok(()))), Action::Finish(Err(first)));
    assert!(!m.tasks()[2].is_running());
}

#[test]
fn handler_failure_stops_before_any_spawn() {
    let mut m = TaskManager::new(vec![task("a")]);
    m.run();
    let e = Error::Ctrlc("busy".to_string());
    assert_eq!(m.step(Event::HandlerInstalled(Err(e.clone()))), Action::Finish(Err(e)));
}

#[test]
fn empty_launch_waits_then_stops() {
    let mut m = TaskManager::new(vec![]);
    m.run();
    assert_eq!(m.step(Event::HandlerInstalled(Ok(()))), Action::AwaitSignal);
    assert_eq!(m.step(Event::Signalled), Action::Finish(Ok(())));
}

#[test]
fn tasks_carry_program_arguments_and_log_file() {
    let launcher = Launcher::new(config(30345), Some(PathBuffer::from_text("/tmp/logs")));
    let tasks = launcher.generate_tasks().unwrap();
    assert_eq!(tasks.len(), 2);
    assert_eq!(tasks[0].program().to_string(), Ok("./bin/polkadot".to_string()));
    assert_eq!(
        tasks[0].log_file().as_ref().unwrap().to_string(),
        Ok("/tmp/logs/validator_node.log".to_string())
    );
    assert_eq!(tasks[1].program().to_string(), Ok("./bin/pendulum-collator".to_string()));
    assert_eq!(tasks[1].args()[0], "--force-authoring");
    assert_eq!(tasks[1].args().last().unwrap(), "9955");
    let quiet = Launcher::new(config(30345), None);
    assert!(quiet.generate_tasks().unwrap()[0].log_file().is_none());
}

#[test]
fn invalid_chain_path_is_reported() {
    let v = Validator::new(BaseNode::new(
        "v".to_string(),
        PathBuffer::from_text("b"),
        PathBuffer { bytes: vec![0x2f, 0xff, 0xfe] },
        None,
        vec![],
        1,
        2,
        None,
    ));
    assert_eq!(v.build_arguments(), Err(Error::InvalidPath));
    assert_eq!(v.specs(), Err(Error::InvalidPath));
    assert!(v.create_task(&None).is_err());
}

#[test]
fn path_text_and_join() {
    let p = PathBuffer::from_text("/var/log");
    assert_eq!(p.to_str(), Some("/var/log"));
    assert_eq!(p.join("a.log").to_string(), Ok("/var/log/a.log".to_string()));
    assert_eq!(PathBuffer::from_text("/var/").join("a.log").to_string(), Ok("/var/a.log".to_string()));
    assert_eq!(p.join("/abs").to_string(), Ok("/abs".to_string()));
    assert_eq!(PathBuffer::from_text("").join("a").to_string(), Ok("a".to_string()));
    let bad = PathBuffer { bytes: vec![0xc3] };
    assert_eq!(bad.to_str(), None);
    assert_eq!(bad.to_string(), Err(Error::InvalidPath));
    assert_eq!(pendulum_launch::util::path_to_string(&bad), Err(Error::InvalidPath));
    assert!(PathBuffer::maybe_from(None).is_none());
    assert_eq!(PathBuffer::maybe_from(Some("x")).unwrap().bytes, b"x".to_vec());
}

#[test]
fn decimal_port_text() {
    assert_eq!(port_to_string(0), "0");
    assert_eq!(port_to_string(7), "7");
    assert_eq!(port_to_string(30343), "30343");
    assert_eq!(port_to_string(65535), "65535");
}

#[test]
fn generated_name_joins_binary_and_port() {
    assert_eq!(pendulum_launch::util::get_name("polkadot", 9944), "polkadot-9944");
}

#[test]
fn log_name_and_dockerfile() {
    let v = validator(None);
    assert_eq!(v.as_base().get_log_name(), Ok("validator_node.log".to_string()));
    assert_eq!(v.docker_file(), Ok("Dockerfile".to_string()));
    let with = BaseNode::new(
        "n".to_string(),
        PathBuffer::from_text("b"),
        PathBuffer::from_text("s"),
        Some(PathBuffer::from_text("docker/Node.Dockerfile")),
        vec![],
        1,
        2,
        None,
    );
    assert_eq!(with.docker_file(), Ok("docker/Node.Dockerfile".to_string()));
}

#[test]
fn specs_list_chain_paths() {
    assert_eq!(validator(None).specs(), Ok(texts(&["./specs/x.json"])));
    assert_eq!(collator().specs(), Ok(texts(&["./specs/para.json", "./specs/relay.json"])));
}

#[test]
fn mode_names_ignore_case() {
    assert_eq!(LauncherMode::from_mode(&Some("TestNet".to_string())), LauncherMode::TestNet);
    assert_eq!(LauncherMode::from_mode(&Some("LOCAL".to_string())), LauncherMode::Local);
    assert_eq!(LauncherMode::from_mode(&Some("mainnet".to_string())), LauncherMode::Local);
    assert_eq!(LauncherMode::from_mode(&None), LauncherMode::Local);
    assert_eq!(LauncherMode::from_lowercase("testnet"), LauncherMode::TestNet);
    assert_eq!(LauncherMode::from_lowercase("TestNet"), LauncherMode::Local);
    assert_eq!(LauncherMode::default(), LauncherMode::Local);
}

#[test]
fn launcher_takes_configuration() {
    let mut c = config(30345);
    c.mode = Some("TESTNET".to_string());
    let launcher = Launcher::new(c, None);
    assert_eq!(launcher.name.as_deref(), Some("Pendulum"));
    assert_eq!(launcher.author.as_deref(), Some("xiuxiu"));
    assert_eq!(launcher.mode, LauncherMode::TestNet);
    assert_eq!(launcher.validators.len(), 1);
    assert_eq!(launcher.collators.len(), 1);
    assert_eq!(launcher.collators[0].name(), "collator_node");
}

#[test]
fn configuration_port_check() {
    assert_eq!(config(30343).ensure_unique_ports(), Err(Error::PortInUse(30343)));
    assert_eq!(config(30345).ensure_unique_ports(), Ok(()));
}

#[test]
fn quiet_and_log_exclude_each_other() {
    let dir = Some(PathBuffer::from_text("/tmp/logs"));
    assert!(matches!(check_log_options(true, &dir), Err(Error::ProcessFailed(_))));
    assert_eq!(check_log_options(false, &dir), Ok(()));
    assert_eq!(check_log_options(true, &None), Ok(()));
    assert_eq!(check_log_options(false, &None), Ok(()));
}
