use std::path::PathBuf;

use woosh_viewer::config::{
    connection_config_contents, explicit_config, initial_settings, parse_file_config, FileOutcome,
    LiveConnection, SidecarSettings, Startup, ViewerConfig,
};
use woosh_viewer::http::ControlEndpoint;
use woosh_viewer::task::can_stop_navigation;

#[test]
fn live_connection_uses_robot_control_and_local_rerun() {
    let connection = SidecarSettings::from_input("robot", 8008, 9876)
        .unwrap()
        .connection();

    assert_eq!(
        connection.control_endpoint(),
        ControlEndpoint {
            host: "robot".to_owned(),
            port: 8008,
        }
    );
    assert_eq!(connection.rerun_url(), "rerun+http://127.0.0.1:9876/proxy");
}

#[test]
fn settings_reject_urls_and_zero_ports() {
    assert!(SidecarSettings::from_input("", 8008, 9876).is_err());
    assert!(SidecarSettings::from_input("http://robot", 8008, 9876).is_err());
    assert!(SidecarSettings::from_input("robot", 0, 9876).is_err());
    assert!(SidecarSettings::from_input("robot", 8008, 0).is_err());
}

#[test]
fn saved_connection_round_trips_as_viewer_config() {
    let settings = SidecarSettings::from_input("192.168.4.38", 8008, 9876).unwrap();
    let contents = connection_config_contents(&settings).unwrap();
    let config = parse_file_config(&contents, "").unwrap();

    assert_eq!(config.robot_ip.as_deref(), Some("192.168.4.38"));
    assert_eq!(config.robot_port, Some(8008));
    assert_eq!(config.rerun_port, Some(9876));
    assert!(config.rerun_url.is_none());
}

#[test]
fn stop_button_requires_an_active_navigation() {
    assert!(!can_stop_navigation(true, false, false));
    assert!(!can_stop_navigation(false, true, false));
    assert!(!can_stop_navigation(true, true, true));
    assert!(can_stop_navigation(true, true, false));
}

fn args(list: &[&str]) -> Vec<String> {
    list.iter().map(|s| (*s).to_owned()).collect()
}

fn contents(text: &str) -> FileOutcome {
    FileOutcome::Contents {
        text: text.to_owned(),
        complaint: "complaint".to_owned(),
    }
}

fn start(list: &[&str]) -> Result<Startup, String> {
    ViewerConfig::new(PathBuf::from("woosh-viewer.toml")).parse(&args(list))
}

#[test]
fn input_is_trimmed_and_checked() {
    let settings = SidecarSettings::from_input("  192.168.4.38\t", 8008, 9876).unwrap();
    assert_eq!(settings.robot_ip, "192.168.4.38");
    let again = SidecarSettings::from_input(&settings.robot_ip, 8008, 9876).unwrap();
    assert_eq!(again, settings);
    assert_eq!(
        SidecarSettings::from_input(" ", 8008, 9876).unwrap_err(),
        "机器人 IP / 主机名不能为空"
    );
    assert_eq!(
        SidecarSettings::from_input("a b", 8008, 9876).unwrap_err(),
        "机器人地址只填写 IP 或主机名，不要包含 http://、端口或路径"
    );
    assert_eq!(
        SidecarSettings::from_input("robot/x", 0, 9876).unwrap_err(),
        "机器人地址只填写 IP 或主机名，不要包含 http://、端口或路径"
    );
    assert_eq!(
        SidecarSettings::from_input("robot", 0, 9876).unwrap_err(),
        "端口必须在 1–65535 之间"
    );
}

#[test]
fn a_configuration_without_a_file_has_the_usual_ports() {
    let config = ViewerConfig::new(PathBuf::from("x"));
    assert_eq!(config.robot_ip, "");
    assert_eq!(config.robot_port, 8008);
    assert_eq!(config.rerun_port, 9876);
    assert_eq!(config.rerun_url(), "rerun+http://127.0.0.1:9876/proxy");
    assert!(initial_settings(&config).unwrap().is_none());
}

#[test]
fn a_file_is_taken_over() {
    let file = "robot_ip = \"robot\"\nrerun_port = 1234\nrerun_url = \"rerun://x\"\n";
    let config = ViewerConfig::new(PathBuf::from("x"))
        .from_file("f", contents(file), true)
        .unwrap();
    assert_eq!(config.robot_ip, "robot");
    assert_eq!(config.robot_port, 8008);
    assert_eq!(config.rerun_port, 1234);
    assert_eq!(config.rerun_url(), "rerun://x");
    let settings = initial_settings(&config).unwrap().unwrap();
    assert_eq!(settings.robot_ip, "robot");
    assert_eq!(LiveConnection::from_config(&config), settings.connection());
}

#[test]
fn files_with_mistakes_are_refused() {
    let read = |text: &str| {
        ViewerConfig::new(PathBuf::from("x")).from_file(
            "f",
            contents(text),
            false,
        )
    };
    assert!(read("robot_ip = 5").is_err());
    assert!(read("robot_port = 65536").is_err());
    assert!(read("robot_port = -1").is_err());
    assert!(read("robot_port = \"8008\"").is_err());
    assert!(read("rerun_port = 1.5").is_err());
    assert!(read("rerun_url = [1]").is_err());
    assert!(read("control_port = 8010").is_err());
    assert!(read("robot_ip = ").unwrap_err().starts_with("配置文件 f 格式错误："));
    assert!(read("").is_ok());
    assert_eq!(
        read("control_port = 8010").unwrap_err(),
        "配置文件 f 格式错误：complaint"
    );
    assert_eq!(
        read("robot_port = -1").unwrap_err(),
        "配置文件 f 格式错误：complaint"
    );
    assert_eq!(read("x = ").unwrap_err(), "配置文件 f 格式错误：complaint");
    assert_eq!(
        read("robot_port = 18446744073709551615").unwrap_err(),
        "配置文件 f 格式错误：complaint"
    );
}

#[test]
fn a_file_that_was_asked_for_has_to_be_there() {
    let missing = |required| {
        ViewerConfig::new(PathBuf::from("x")).from_file("f", FileOutcome::Missing, required)
    };
    assert_eq!(missing(true).unwrap_err(), "配置文件不存在：f");
    assert_eq!(missing(false).unwrap().robot_port, 8008);
    let unreadable = ViewerConfig::new(PathBuf::from("x")).from_file(
        "f",
        FileOutcome::Unreadable("denied".to_owned()),
        false,
    );
    assert_eq!(unreadable.unwrap_err(), "无法读取配置文件 f：denied");
}

#[test]
fn odd_names_survive_in_a_saved_file() {
    for name in ["a\"b", "a'b", "a\\b", "机器人", "\u{1}\u{7f}", "'''\"\"\"", "x'''"] {
        let settings = SidecarSettings::from_input(name, 1, 65535).unwrap();
        let contents = connection_config_contents(&settings).unwrap();
        let file = parse_file_config(&contents, "").unwrap();
        assert_eq!(file.robot_ip.as_deref(), Some(name));
        assert_eq!(file.robot_port, Some(1));
        assert_eq!(file.rerun_port, Some(65535));
    }
}

#[test]
fn the_saved_file_has_three_lines() {
    let settings = SidecarSettings::from_input("robot", 8008, 9876).unwrap();
    assert_eq!(
        connection_config_contents(&settings).unwrap(),
        "robot_ip = \"robot\"\nrobot_port = 8008\nrerun_port = 9876\n"
    );
}

#[test]
fn arguments_override_the_file() {
    let file = "robot_ip = \"from-file\"\nrobot_port = 1\nrerun_port = 2\n";
    let config = ViewerConfig::new(PathBuf::from("x"))
        .from_file("f", contents(file), true)
        .unwrap();
    let startup = config.parse(&args(&[
        "--robot-ip",
        "from-flag",
        "--config",
        "f",
        "--rerun-port",
        "3",
        "--rerun-port",
        "4",
        "--screenshot",
        "s.png",
    ]));
    let config = match startup.unwrap() {
        Startup::Run(config) => config,
        Startup::Help => panic!("help"),
    };
    assert_eq!(config.robot_ip, "from-flag");
    assert_eq!(config.robot_port, 1);
    assert_eq!(config.rerun_port, 4);
    assert_eq!(config.screenshot.as_deref(), Some("s.png"));
    assert_eq!(config.config_path, PathBuf::from("x"));
}

#[test]
fn arguments_with_mistakes_are_refused() {
    assert_eq!(start(&["--robot-ip"]).unwrap_err(), "--robot-ip 缺少参数");
    assert_eq!(start(&["--robot-port", "x"]).unwrap_err(), "--robot-port 必须是有效端口");
    assert_eq!(start(&["--rerun-port", "70000"]).unwrap_err(), "--rerun-port 必须是有效端口");
    assert_eq!(start(&["--fast"]).unwrap_err(), "未知参数：--fast");
    assert!(matches!(start(&["-h", "--fast"]), Ok(Startup::Help)));
    assert!(matches!(start(&["--help"]), Ok(Startup::Help)));
    assert!(matches!(start(&["--rerun-url", "-h"]), Ok(Startup::Run(_))));
}

#[test]
fn the_file_that_arguments_ask_for() {
    assert_eq!(explicit_config(&args(&[])).unwrap(), None);
    assert_eq!(
        explicit_config(&args(&["-h", "--config", "a", "--config", "b"])).unwrap().as_deref(),
        Some("a")
    );
    assert_eq!(explicit_config(&args(&["--config"])).unwrap_err(), "--config 缺少参数");
}

#[test]
fn only_a_valid_address_is_connected_to_at_the_start() {
    let mut config = ViewerConfig::new(PathBuf::from("x"));
    config.robot_ip = "http://robot".to_owned();
    assert!(initial_settings(&config).is_err());
    config.robot_ip = "  ".to_owned();
    assert!(initial_settings(&config).unwrap().is_none());
}
