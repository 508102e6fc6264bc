use pendulum_launch::launcher::LauncherMode;
use pendulum_launch::node::{join_words, BaseNode, Collator, CollatorRelay, Validator};
use pendulum_launch::sub_command::{set_para_id, GenerateDocker};
use pendulum_launch::util::{project_dir, project_root};
use pendulum_launch::{Error, Launcher, PathBuffer};

fn words(v: &[&str]) -> Vec<String> {
    v.iter().map(|s| s.to_string()).collect()
}

fn validator(name: &str, chain: &str, port: u16, ws_port: u16) -> Validator {
    Validator::new(BaseNode::new(
        name.to_string(),
        PathBuffer::from_text("./bin/polkadot"),
        PathBuffer::from_text(chain),
        None,
        vec![],
        port,
        ws_port,
        None,
    ))
}

fn collator() -> Collator {
    Collator::new(
        BaseNode::new(
            "collator_node".to_string(),
            PathBuffer::from_text("./bin/collator"),
            PathBuffer::from_text("./specs/para.json"),
            Some(PathBuffer::from_text("Collator.Dockerfile")),
            words(&["--force-authoring"]),
            30344,
            8844,
            None,
        ),
        CollatorRelay::new(PathBuffer::from_text("./specs/x.json"), None, 30345, 9955, Some(9933)),
    )
}

fn launcher(validators: Vec<Validator>, collators: Vec<Collator>, name: Option<&str>) -> Launcher {
    Launcher {
        name: name.map(str::to_string),
        author: None,
        mode: LauncherMode::Local,
        validators,
        collators,
        log_dir: None,
    }
}

#[test]
fn compose_file_for_one_validator() {
    let l = launcher(vec![validator("validator_node", "./specs/x.json", 30343, 9944)], vec![], None);
    let g = GenerateDocker::new(l, "/out".to_string(), false);
    assert_eq!(g.name, "pendulum-launch");
    let expected = "version: \"3.2\"\n\nservices:\n  validator_node:\n    container_name: validator_node\n    image: pendulumchain/pendulum:latest\n    build:\n      context: .\n      dockerfile: Dockerfile\n    ports:\n      - \"30343:30343\"\n      - \"9944:9944\"\n    restart: on-failure\n    command: ./bin/polkadot --chain ./specs/x.json --port 30343 --ws-port 9944 --name validator_node --validator";
    assert_eq!(g.generate_contents(), Ok(expected.to_string()));
}

#[test]
fn compose_file_with_shared_volume() {
    let l = launcher(vec![], vec![collator()], Some("net"));
    let g = GenerateDocker::new(l, "/out".to_string(), true);
    assert_eq!(g.name, "net");
    let expected = "version: \"3.2\"\n\nservices:\n  collator_node:\n    container_name: collator_node\n    image: pendulumchain/pendulum:latest\n    build:\n      context: .\n      dockerfile: Collator.Dockerfile\n    ports:\n      - \"30344:30344\"\n      - \"8844:8844\"\n      - \"30345:30345\"\n      - \"9955:9955\"\n      - \"9933:9933\"\n    volumes:\n      - net:/specs\n    restart: on-failure\n    command: ./bin/collator --force-authoring --chain ./specs/para.json --port 30344 --ws-port 8844 --name collator_node --mount collator_node:/specs --collator -- --chain ./specs/x.json --port 30345 --ws-port 9955 --rpc-port 9933";
    assert_eq!(g.generate_contents(), Ok(expected.to_string()));
}

#[test]
fn compose_file_reports_invalid_paths() {
    let bad = Validator::new(BaseNode::new(
        "v".to_string(),
        PathBuffer { bytes: vec![0xff] },
        PathBuffer::from_text("s"),
        None,
        vec![],
        1,
        2,
        None,
    ));
    let g = GenerateDocker::new(launcher(vec![bad], vec![], None), "/out".to_string(), false);
    assert_eq!(g.generate_contents(), Err(Error::InvalidPath));
}

#[test]
fn unique_specs_keep_first_occurrences() {
    let l = launcher(
        vec![
            validator("a", "./specs/x.json", 1, 2),
            validator("b", "./specs/y.json", 3, 4),
            validator("c", "./specs/x.json", 5, 6),
        ],
        vec![collator()],
        None,
    );
    let g = GenerateDocker::new(l, "/out".to_string(), false);
    assert_eq!(
        g.get_unique_specs(),
        Ok(words(&["./specs/x.json", "./specs/y.json", "./specs/para.json"]))
    );
}

#[test]
fn external_commands() {
    let v = validator("validator_node", "./specs/x.json", 30343, 9944);
    assert_eq!(
        v.as_command_external(false),
        Ok("./bin/polkadot --chain ./specs/x.json --port 30343 --ws-port 9944 --name validator_node --validator".to_string())
    );
    assert_eq!(
        v.as_base().as_command_external(true),
        Ok("./bin/polkadot --chain ./specs/x.json --port 30343 --ws-port 9944 --name validator_node --mount validator_node:/specs".to_string())
    );
    assert_eq!(
        collator().as_command_external(false),
        Ok("./bin/collator --force-authoring --chain ./specs/para.json --port 30344 --ws-port 8844 --name collator_node --collator -- --chain ./specs/x.json --port 30345 --ws-port 9955 --rpc-port 9933".to_string())
    );
}

#[test]
fn words_join_with_single_spaces() {
    assert_eq!(join_words(&words(&[])), "");
    assert_eq!(join_words(&words(&["a"])), "a");
    assert_eq!(join_words(&words(&["a", "bc", ""])), "a bc ");
}

#[test]
fn project_directory_of_manifest() {
    assert_eq!(project_dir("/home/me/project/Cargo.toml"), "/home/me/project");
    assert_eq!(project_dir("/home/me/project"), "/home/me/project");
    assert_eq!(project_dir("relative/dir/Cargo.toml"), "/dir");
    assert_eq!(project_dir(""), "");
    assert_eq!(project_dir("/a/Cargo.toml/b"), "/a/b");
}

#[test]
fn project_root_from_cargo_output() {
    assert_eq!(
        project_root("{\"root\":\"/home/me/project/Cargo.toml\"}"),
        Ok("/home/me/project".to_string())
    );
    assert!(matches!(project_root("not json"), Err(Error::ParseJson(_))));
    assert!(matches!(project_root("{}"), Err(Error::ProcessFailed(_))));
    assert!(matches!(project_root("{\"root\": 3}"), Err(Error::ProcessFailed(_))));
}

#[test]
fn para_id_is_set() {
    let spec = set_para_id(b"{\"name\":\"x\",\"para_id\":1000}".to_vec(), 2000).unwrap();
    assert_eq!(spec["para_id"].as_u32(), Some(2000));
    assert_eq!(spec["name"].as_str(), Some("x"));
}

#[test]
fn para_id_errors() {
    assert!(matches!(set_para_id(vec![0xff, 0xfe], 1), Err(Error::FromUtf8(_))));
    assert!(matches!(set_para_id(b"{".to_vec(), 1), Err(Error::ParseJson(_))));
    assert_eq!(
        set_para_id(b"{\"para_id\":\"x\"}".to_vec(), 1).unwrap_err(),
        Error::InvalidJsonValue("para_id".to_string())
    );
    assert_eq!(
        set_para_id(b"{}".to_vec(), 1).unwrap_err(),
        Error::InvalidJsonValue("para_id".to_string())
    );
}
