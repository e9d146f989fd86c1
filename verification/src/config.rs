//! What the viewer connects to: the command line, the configuration file and the
//! operator's input.

use std::path::PathBuf;
use vstd::prelude::*;
use vstd::string::*;

use crate::http::{text_result, ControlEndpoint, EndpointView};
use crate::text::{
    chars_of, decimal, decimal_text, is_white, opt_text, parse_u16, same_text, texts, trim_text,
    trimmed, u16_of,
};
use crate::toml_file::{
    all_known, is_bare, is_plain, item_view, read_table, read_view, table_view, toml_parse,
    toml_print, write_table, written_well, TomlItem, TomlItemView,
};

verus! {

/// The port of the robot's service, unless another is given.
pub const ROBOT_PORT: u16 = 8008;

/// The port of the local recording stream, unless another is given.
pub const RERUN_PORT: u16 = 9876;

/// What the viewer is started with.
#[derive(Debug)]
pub struct ViewerConfig {
    pub robot_ip: String,
    pub robot_port: u16,
    pub rerun_port: u16,
    pub rerun_url: Option<String>,
    pub screenshot: Option<String>,
    pub config_path: PathBuf,
}

pub struct ConfigView {
    pub robot_ip: Seq<char>,
    pub robot_port: u16,
    pub rerun_port: u16,
    pub rerun_url: Option<Seq<char>>,
    pub screenshot: Option<Seq<char>>,
    pub config_path: PathBuf,
}

impl View for ViewerConfig {
    type V = ConfigView;

    open spec fn view(&self) -> ConfigView {
        ConfigView {
            robot_ip: self.robot_ip@,
            robot_port: self.robot_port,
            rerun_port: self.rerun_port,
            rerun_url: opt_text(self.rerun_url),
            screenshot: opt_text(self.screenshot),
            config_path: self.config_path,
        }
    }
}

/// The configuration without a file and without arguments.
pub open spec fn initial_config(config_path: PathBuf) -> ConfigView {
    ConfigView {
        robot_ip: Seq::empty(),
        robot_port: ROBOT_PORT,
        rerun_port: RERUN_PORT,
        rerun_url: None,
        screenshot: None,
        config_path,
    }
}

/// The address of the local recording stream.
pub open spec fn local_stream(port: u16) -> Seq<char> {
    "rerun+http://127.0.0.1:"@ + decimal(port as nat) + "/proxy"@
}

/// The stream that is shown.
pub open spec fn shown_stream(c: ConfigView) -> Seq<char> {
    match c.rerun_url {
        Some(url) => url,
        None => local_stream(c.rerun_port),
    }
}

fn local_stream_url(port: u16) -> (r: String)
    ensures
        r@ == local_stream(port),
{
    let number = decimal_text(port as u64);
    "rerun+http://127.0.0.1:".to_owned().concat(number.as_str()).concat("/proxy")
}

impl ViewerConfig {
    /// The configuration without a file and without arguments.
    pub fn new(config_path: PathBuf) -> (r: ViewerConfig)
        ensures
            r@ == initial_config(config_path),
    {
        ViewerConfig {
            robot_ip: String::new(),
            robot_port: ROBOT_PORT,
            rerun_port: RERUN_PORT,
            rerun_url: None,
            screenshot: None,
            config_path,
        }
    }

    /// The stream that is shown: the one that was given, or the local one.
    pub fn rerun_url(&self) -> (r: String)
        ensures
            r@ == shown_stream(self@),
    {
        match &self.rerun_url {
            Some(url) => url.clone(),
            None => local_stream_url(self.rerun_port),
        }
    }

    /// Takes over what a configuration file says.
    pub fn with_file(self, file: FileConfig) -> (r: ViewerConfig)
        ensures
            r@ == config_with_file(self@, file@),
    {
        let mut config = self;
        match file.robot_ip {
            Some(robot_ip) => {
                config.robot_ip = robot_ip;
            },
            None => {},
        }
        match file.robot_port {
            Some(port) => {
                config.robot_port = port;
            },
            None => {},
        }
        match file.rerun_port {
            Some(port) => {
                config.rerun_port = port;
            },
            None => {},
        }
        config.rerun_url = file.rerun_url;
        config
    }
}

/// The contents of a configuration file.
#[derive(Debug)]
pub struct FileConfig {
    pub robot_ip: Option<String>,
    pub robot_port: Option<u16>,
    pub rerun_port: Option<u16>,
    pub rerun_url: Option<String>,
}

pub struct FileView {
    pub robot_ip: Option<Seq<char>>,
    pub robot_port: Option<u16>,
    pub rerun_port: Option<u16>,
    pub rerun_url: Option<Seq<char>>,
}

impl View for FileConfig {
    type V = FileView;

    open spec fn view(&self) -> FileView {
        FileView {
            robot_ip: opt_text(self.robot_ip),
            robot_port: self.robot_port,
            rerun_port: self.rerun_port,
            rerun_url: opt_text(self.rerun_url),
        }
    }
}

pub open spec fn empty_file() -> FileView {
    FileView { robot_ip: None, robot_port: None, rerun_port: None, rerun_url: None }
}

/// A configuration in which what a file names is replaced.
pub open spec fn config_with_file(c: ConfigView, f: FileView) -> ConfigView {
    ConfigView {
        robot_ip: match f.robot_ip {
            Some(ip) => ip,
            None => c.robot_ip,
        },
        robot_port: match f.robot_port {
            Some(port) => port,
            None => c.robot_port,
        },
        rerun_port: match f.rerun_port {
            Some(port) => port,
            None => c.rerun_port,
        },
        rerun_url: f.rerun_url,
        ..c
    }
}

/// A text that a value of a file is.
pub open spec fn item_text(item: Option<TomlItemView>) -> Option<Seq<char>> {
    match item {
        Some(TomlItemView::Text(s)) => Some(s),
        _ => None,
    }
}

/// A port that a value of a file is.
pub open spec fn item_port(item: Option<TomlItemView>) -> Option<u16> {
    match item {
        Some(TomlItemView::Integer(n)) => if 0 <= n <= u16::MAX {
            Some(n as u16)
        } else {
            None
        },
        _ => None,
    }
}

/// A file in which one more name has its value, if the name has a meaning and the value
/// is of its type.
pub open spec fn file_with(f: FileView, name: Seq<char>, item: Option<TomlItemView>) -> Option<
    FileView,
> {
    if name == "robot_ip"@ {
        match item_text(item) {
            Some(s) => Some(FileView { robot_ip: Some(s), ..f }),
            None => None,
        }
    } else if name == "robot_port"@ {
        match item_port(item) {
            Some(port) => Some(FileView { robot_port: Some(port), ..f }),
            None => None,
        }
    } else if name == "rerun_port"@ {
        match item_port(item) {
            Some(port) => Some(FileView { rerun_port: Some(port), ..f }),
            None => None,
        }
    } else if name == "rerun_url"@ {
        match item_text(item) {
            Some(s) => Some(FileView { rerun_url: Some(s), ..f }),
            None => None,
        }
    } else {
        None
    }
}

/// The file that a table makes up, if all its names have a meaning and all its values
/// are of the types that belong to them.
pub open spec fn file_of(entries: Seq<(Seq<char>, Option<TomlItemView>)>) -> Option<FileView>
    decreases entries.len(),
{
    if entries.len() == 0 {
        Some(empty_file())
    } else {
        match file_of(entries.drop_last()) {
            Some(f) => file_with(f, entries.last().0, entries.last().1),
            None => None,
        }
    }
}

/// The file that a text makes up, if it does.
pub open spec fn file_read(text: Seq<char>) -> Option<FileView> {
    match toml_parse(text) {
        Some(entries) => file_of(entries),
        None => None,
    }
}

/// What the text of a file makes up, or the complaint about it, where it makes up none.
pub open spec fn file_in(text: Seq<char>, complaint: Seq<char>) -> Result<FileView, Seq<char>> {
    match file_read(text) {
        Some(file) => Ok(file),
        None => Err(complaint),
    }
}

pub open spec fn file_result(r: Result<FileConfig, String>) -> Result<FileView, Seq<char>> {
    match r {
        Ok(file) => Ok(file@),
        Err(message) => Err(message@),
    }
}

pub open spec fn opt_file(o: Option<FileConfig>) -> Option<FileView> {
    match o {
        Some(file) => Some(file@),
        None => None,
    }
}

/// Takes the value of one more name into a file.
fn add_to_file(file: FileConfig, name: &str, item: Option<TomlItem>) -> (r: Option<FileConfig>)
    ensures
        opt_file(r) == file_with(file@, name@, item_view(item)),
{
    let mut file = file;
    if same_text(name, "robot_ip") {
        match item {
            Some(TomlItem::Text(s)) => {
                file.robot_ip = Some(s);
            },
            _ => {
                return None;
            },
        }
    } else if same_text(name, "robot_port") {
        match port_of(&item) {
            Some(port) => {
                file.robot_port = Some(port);
            },
            None => {
                return None;
            },
        }
    } else if same_text(name, "rerun_port") {
        match port_of(&item) {
            Some(port) => {
                file.rerun_port = Some(port);
            },
            None => {
                return None;
            },
        }
    } else if same_text(name, "rerun_url") {
        match item {
            Some(TomlItem::Text(s)) => {
                file.rerun_url = Some(s);
            },
            _ => {
                return None;
            },
        }
    } else {
        return None;
    }
    Some(file)
}

fn port_of(item: &Option<TomlItem>) -> (r: Option<u16>)
    ensures
        r == item_port(item_view(*item)),
{
    match item {
        Some(TomlItem::Integer(n)) => {
            let n: i64 = *n;
            if 0 <= n && n <= 65535 {
                Some(n as u16)
            } else {
                None
            }
        },
        _ => None,
    }
}

/// Makes a file of a table.
pub fn file_from_table(entries: Vec<(String, Option<TomlItem>)>) -> (r: Option<FileConfig>)
    ensures
        opt_file(r) == file_of(read_view(entries@)),
{
    let ghost views = read_view(entries@);
    let mut rest = entries;
    let mut file = FileConfig { robot_ip: None, robot_port: None, rerun_port: None, rerun_url: None };
    let ghost mut done: int = 0;
    while rest.len() > 0
        invariant
            0 <= done,
            views == read_view(entries@),
            done + rest@.len() == views.len(),
            read_view(rest@) == views.skip(done),
            file_of(views.take(done)) == Some(file@),
        decreases rest.len(),
    {
        let ghost before = rest@;
        let (name, item) = rest.remove(0);
        assert(read_view(before)[0] == views[done]);
        assert(read_view(rest@) == read_view(before).drop_first());
        assert(views.take(done + 1).drop_last() == views.take(done));
        match add_to_file(file, name.as_str(), item) {
            Some(next) => {
                file = next;
            },
            None => {
                proof {
                    lemma_refusal_stays(views, done + 1);
                }
                return None;
            },
        }
        proof {
            done = done + 1;
            assert(read_view(rest@) == views.skip(done));
        }
    }
    assert(views.take(done) == views);
    Some(file)
}

proof fn lemma_refusal_stays(entries: Seq<(Seq<char>, Option<TomlItemView>)>, n: int)
    requires
        0 <= n <= entries.len(),
        file_of(entries.take(n)) is None,
    ensures
        file_of(entries) is None,
    decreases entries.len(),
{
    if n == entries.len() {
        assert(entries.take(n) == entries);
    } else {
        assert(entries.drop_last().take(n) == entries.take(n));
        lemma_refusal_stays(entries.drop_last(), n);
    }
}

/// Reads the text of a configuration file. The complaint is handed on where the text is
/// no TOML, or holds a wrong name or value.
pub fn parse_file_config(contents: &str, complaint: &str) -> (r: Result<FileConfig, String>)
    ensures
        file_result(r) == file_in(contents@, complaint@),
{
    match read_table(contents) {
        Some(entries) => match file_from_table(entries) {
            Some(file) => Ok(file),
            None => Err(complaint.to_owned()),
        },
        None => Err(complaint.to_owned()),
    }
}

/// What came of looking at a configuration file.
#[derive(Debug)]
pub enum FileOutcome {
    Missing,
    Unreadable(String),
    /// The file's text. Whether it is a configuration is decided here; the complaint
    /// about one that is none points to the place in the text, and is what `toml` says
    /// when it reads the text into fields of the right types.
    Contents { text: String, complaint: String },
}

pub open spec fn config_result(r: Result<ViewerConfig, String>) -> Result<ConfigView, Seq<char>> {
    match r {
        Ok(config) => Ok(config@),
        Err(message) => Err(message@),
    }
}

/// The configuration with a file that was read, or what is wrong with it.
pub open spec fn config_from(
    c: ConfigView,
    path: Seq<char>,
    parsed: Result<FileView, Seq<char>>,
) -> Result<ConfigView, Seq<char>> {
    match parsed {
        Ok(file) => Ok(config_with_file(c, file)),
        Err(message) => Err("配置文件 "@ + path + " 格式错误："@ + message),
    }
}

/// The configuration after looking at a file, or what is wrong with the file.
pub open spec fn config_after(
    c: ConfigView,
    path: Seq<char>,
    outcome: FileOutcome,
    required: bool,
) -> Result<ConfigView, Seq<char>> {
    match outcome {
        FileOutcome::Missing => if required {
            Err("配置文件不存在："@ + path)
        } else {
            Ok(c)
        },
        FileOutcome::Unreadable(message) => Err("无法读取配置文件 "@ + path + "："@ + message@),
        FileOutcome::Contents { text, complaint } => config_from(
            c,
            path,
            file_in(text@, complaint@),
        ),
    }
}

impl ViewerConfig {
    /// Takes over a configuration file. A file that was asked for has to be there.
    pub fn from_file(
        self,
        path: &str,
        outcome: FileOutcome,
        required: bool,
    ) -> (r: Result<ViewerConfig, String>)
        ensures
            config_result(r) == config_after(self@, path@, outcome, required),
    {
        match outcome {
            FileOutcome::Missing => if required {
                Err("配置文件不存在：".to_owned().concat(path))
            } else {
                Ok(self)
            },
            FileOutcome::Unreadable(message) => Err(
                "无法读取配置文件 ".to_owned().concat(path).concat("：").concat(message.as_str()),
            ),
            FileOutcome::Contents { text, complaint } => {
                let parsed = parse_file_config(text.as_str(), complaint.as_str());
                self.from_parsed(path, parsed)
            },
        }
    }

    /// Takes over a configuration file that was read.
    pub fn from_parsed(self, path: &str, parsed: Result<FileConfig, String>) -> (r: Result<
        ViewerConfig,
        String,
    >)
        ensures
            config_result(r) == config_from(self@, path@, file_result(parsed)),
    {
        match parsed {
            Ok(file) => Ok(self.with_file(file)),
            Err(message) => Err(
                "配置文件 ".to_owned().concat(path).concat(" 格式错误：").concat(message.as_str()),
            ),
        }
    }
}

/// The first place from `from` on where an argument asks for a configuration file.
pub open spec fn config_flag(args: Seq<Seq<char>>, from: int) -> Option<int>
    decreases args.len() - from,
{
    if from >= args.len() {
        None
    } else if args[from] == "--config"@ {
        Some(from)
    } else {
        config_flag(args, from + 1)
    }
}

/// The configuration file that the arguments ask for.
pub open spec fn requested_file(args: Seq<Seq<char>>) -> Result<Option<Seq<char>>, Seq<char>> {
    match config_flag(args, 0) {
        None => Ok(None),
        Some(i) => if i + 1 < args.len() {
            Ok(Some(args[i + 1]))
        } else {
            Err("--config 缺少参数"@)
        },
    }
}

pub open spec fn opt_result(r: Result<Option<String>, String>) -> Result<
    Option<Seq<char>>,
    Seq<char>,
> {
    match r {
        Ok(o) => Ok(opt_text(o)),
        Err(message) => Err(message@),
    }
}

/// Finds the configuration file that the arguments ask for.
pub fn explicit_config(args: &Vec<String>) -> (r: Result<Option<String>, String>)
    ensures
        opt_result(r) == requested_file(texts(args@)),
{
    let ghost views = texts(args@);
    let total = args.len();
    let mut i: usize = 0;
    while i < total
        invariant
            i <= total,
            total == args@.len(),
            views == texts(args@),
            config_flag(views, 0) == config_flag(views, i as int),
        decreases total - i,
    {
        assert(views[i as int] == args@[i as int]@);
        if same_text(args[i].as_str(), "--config") {
            if i + 1 < total {
                assert(views[i + 1] == args@[i + 1]@);
                return Ok(Some(args[i + 1].clone()));
            } else {
                return Err("--config 缺少参数".to_owned());
            }
        }
        i = i + 1;
    }
    Ok(None)
}

/// What the arguments come to.
#[derive(Debug)]
pub enum Startup {
    Run(ViewerConfig),
    Help,
}

pub enum StartupView {
    Run(ConfigView),
    Help,
}

pub open spec fn startup_result(r: Result<Startup, String>) -> Result<StartupView, Seq<char>> {
    match r {
        Ok(Startup::Run(config)) => Ok(StartupView::Run(config@)),
        Ok(Startup::Help) => Ok(StartupView::Help),
        Err(message) => Err(message@),
    }
}

/// Whether an argument is followed by a value.
pub open spec fn takes_value(flag: Seq<char>) -> bool {
    ||| flag == "--config"@
    ||| flag == "--robot-ip"@
    ||| flag == "--robot-port"@
    ||| flag == "--rerun-port"@
    ||| flag == "--rerun-url"@
    ||| flag == "--screenshot"@
}

/// A configuration in which an argument has its value, or what is wrong with it.
pub open spec fn config_with_flag(c: ConfigView, flag: Seq<char>, value: Seq<char>) -> Result<
    ConfigView,
    Seq<char>,
> {
    if flag == "--robot-ip"@ {
        Ok(ConfigView { robot_ip: value, ..c })
    } else if flag == "--robot-port"@ {
        match u16_of(value) {
            Some(port) => Ok(ConfigView { robot_port: port, ..c }),
            None => Err("--robot-port 必须是有效端口"@),
        }
    } else if flag == "--rerun-port"@ {
        match u16_of(value) {
            Some(port) => Ok(ConfigView { rerun_port: port, ..c }),
            None => Err("--rerun-port 必须是有效端口"@),
        }
    } else if flag == "--rerun-url"@ {
        Ok(ConfigView { rerun_url: Some(value), ..c })
    } else if flag == "--screenshot"@ {
        Ok(ConfigView { screenshot: Some(value), ..c })
    } else {
        Ok(c)
    }
}

/// What the arguments from `i` on make of a configuration. The first error counts, and
/// a question for help ends the matter.
pub open spec fn startup_from(c: ConfigView, args: Seq<Seq<char>>, i: int) -> Result<
    StartupView,
    Seq<char>,
>
    decreases args.len() - i,
{
    if i >= args.len() {
        Ok(StartupView::Run(c))
    } else if takes_value(args[i]) {
        if i + 1 >= args.len() {
            Err(args[i] + " 缺少参数"@)
        } else {
            match config_with_flag(c, args[i], args[i + 1]) {
                Ok(next) => startup_from(next, args, i + 2),
                Err(message) => Err(message),
            }
        }
    } else if args[i] == "--help"@ || args[i] == "-h"@ {
        Ok(StartupView::Help)
    } else {
        Err("未知参数："@ + args[i])
    }
}

impl ViewerConfig {
    fn with_flag(self, flag: &str, value: &str) -> (r: Result<ViewerConfig, String>)
        ensures
            config_result(r) == config_with_flag(self@, flag@, value@),
    {
        let mut config = self;
        if same_text(flag, "--robot-ip") {
            config.robot_ip = value.to_owned();
        } else if same_text(flag, "--robot-port") {
            match parse_u16(value) {
                Some(port) => {
                    config.robot_port = port;
                },
                None => {
                    return Err("--robot-port 必须是有效端口".to_owned());
                },
            }
        } else if same_text(flag, "--rerun-port") {
            match parse_u16(value) {
                Some(port) => {
                    config.rerun_port = port;
                },
                None => {
                    return Err("--rerun-port 必须是有效端口".to_owned());
                },
            }
        } else if same_text(flag, "--rerun-url") {
            config.rerun_url = Some(value.to_owned());
        } else if same_text(flag, "--screenshot") {
            config.screenshot = Some(value.to_owned());
        }
        Ok(config)
    }

    /// Takes over the command line.
    pub fn parse(self, args: &Vec<String>) -> (r: Result<Startup, String>)
        ensures
            startup_result(r) == startup_from(self@, texts(args@), 0),
    {
        let ghost start = self@;
        let ghost views = texts(args@);
        let mut config = self;
        let total = args.len();
        let mut i: usize = 0;
        while i < total
            invariant
                i <= total,
                total == args@.len(),
                start == self@,
                views == texts(args@),
                startup_from(start, views, 0) == startup_from(config@, views, i as int),
            decreases total - i,
        {
            let flag = args[i].as_str();
            assert(views[i as int] == flag@);
            if same_text(flag, "--config") || same_text(flag, "--robot-ip") || same_text(
                flag,
                "--robot-port",
            ) || same_text(flag, "--rerun-port") || same_text(flag, "--rerun-url") || same_text(
                flag,
                "--screenshot",
            ) {
                if total - i < 2 {
                    return Err(flag.to_owned().concat(" 缺少参数"));
                }
                assert(views[i + 1] == args@[i + 1]@);
                match config.with_flag(flag, args[i + 1].as_str()) {
                    Ok(next) => {
                        config = next;
                    },
                    Err(message) => {
                        return Err(message);
                    },
                }
                i = i + 2;
            } else if same_text(flag, "--help") || same_text(flag, "-h") {
                return Ok(Startup::Help);
            } else {
                return Err("未知参数：".to_owned().concat(flag));
            }
        }
        Ok(Startup::Run(config))
    }
}

/// The robot that is shown, and the port of the local stream.
#[derive(Debug, PartialEq, Eq)]
pub struct LiveConnection {
    pub robot_ip: String,
    pub robot_port: u16,
    pub rerun_port: u16,
}

/// An address and the ports, checked.
#[derive(Debug, PartialEq, Eq)]
pub struct SidecarSettings {
    pub robot_ip: String,
    pub robot_port: u16,
    pub rerun_port: u16,
}

/// An address and the ports.
pub struct AddressView {
    pub robot_ip: Seq<char>,
    pub robot_port: u16,
    pub rerun_port: u16,
}

impl View for LiveConnection {
    type V = AddressView;

    open spec fn view(&self) -> AddressView {
        AddressView {
            robot_ip: self.robot_ip@,
            robot_port: self.robot_port,
            rerun_port: self.rerun_port,
        }
    }
}

impl View for SidecarSettings {
    type V = AddressView;

    open spec fn view(&self) -> AddressView {
        AddressView {
            robot_ip: self.robot_ip@,
            robot_port: self.robot_port,
            rerun_port: self.rerun_port,
        }
    }
}

impl AddressView {
    /// The address is a name without white space and without a slash, and the ports
    /// are ports.
    pub open spec fn valid(self) -> bool {
        &&& self.robot_ip.len() > 0
        &&& !self.robot_ip.contains('/')
        &&& forall|i: int| 0 <= i < self.robot_ip.len() ==> !is_white(#[trigger] self.robot_ip[i])
        &&& self.robot_port != 0
        &&& self.rerun_port != 0
    }
}

/// The address and the ports of a configuration.
pub open spec fn configured_address(c: ConfigView) -> AddressView {
    AddressView { robot_ip: c.robot_ip, robot_port: c.robot_port, rerun_port: c.rerun_port }
}

/// Where commands go: to the robot itself.
pub open spec fn endpoint_of(a: AddressView) -> EndpointView {
    EndpointView { host: a.robot_ip, port: a.robot_port }
}

impl LiveConnection {
    pub fn from_config(config: &ViewerConfig) -> (r: LiveConnection)
        ensures
            r@ == configured_address(config@),
    {
        LiveConnection {
            robot_ip: config.robot_ip.clone(),
            robot_port: config.robot_port,
            rerun_port: config.rerun_port,
        }
    }

    /// Commands go to the robot itself.
    pub fn control_endpoint(&self) -> (r: ControlEndpoint)
        ensures
            r@ == endpoint_of(self@),
    {
        ControlEndpoint { host: self.robot_ip.clone(), port: self.robot_port }
    }

    /// What is shown comes from the local stream.
    pub fn rerun_url(&self) -> (r: String)
        ensures
            r@ == local_stream(self@.rerun_port),
    {
        local_stream_url(self.rerun_port)
    }
}

pub open spec fn address_result(r: Result<SidecarSettings, String>) -> Result<
    AddressView,
    Seq<char>,
> {
    match r {
        Ok(settings) => Ok(settings@),
        Err(message) => Err(message@),
    }
}

/// Whether a text holds a slash or white space.
pub open spec fn is_no_host(s: Seq<char>) -> bool {
    exists|i: int| 0 <= i < s.len() && (#[trigger] s[i] == '/' || is_white(s[i]))
}

/// What an operator's input comes to: white space around the address does not count; a
/// URL, a path or an address of several words is none, and 0 is no port.
pub open spec fn settings_of(robot_ip: Seq<char>, robot_port: u16, rerun_port: u16) -> Result<
    AddressView,
    Seq<char>,
> {
    let host = trimmed(robot_ip);
    if host.len() == 0 {
        Err("机器人 IP / 主机名不能为空"@)
    } else if is_no_host(host) {
        Err("机器人地址只填写 IP 或主机名，不要包含 http://、端口或路径"@)
    } else if robot_port == 0 || rerun_port == 0 {
        Err("端口必须在 1–65535 之间"@)
    } else {
        Ok(AddressView { robot_ip: host, robot_port, rerun_port })
    }
}

fn has_slash_or_white(s: &str) -> (r: bool)
    ensures
        r == is_no_host(s@),
{
    let v = chars_of(s);
    let mut i: usize = 0;
    while i < v.len()
        invariant
            i <= v@.len(),
            v@ == s@,
            forall|j: int| 0 <= j < i ==> !(#[trigger] v@[j] == '/' || is_white(v@[j])),
        decreases v.len() - i,
    {
        if v[i] == '/' || v[i].is_whitespace() {
            assert(s@[i as int] == '/' || is_white(s@[i as int]));
            return true;
        }
        i = i + 1;
    }
    false
}

impl SidecarSettings {
    pub fn from_config(config: &ViewerConfig) -> (r: Result<SidecarSettings, String>)
        ensures
            address_result(r) == settings_of(
                config@.robot_ip,
                config@.robot_port,
                config@.rerun_port,
            ),
    {
        SidecarSettings::from_input(config.robot_ip.as_str(), config.robot_port, config.rerun_port)
    }

    /// Checks what an operator put in.
    pub fn from_input(robot_ip: &str, robot_port: u16, rerun_port: u16) -> (r: Result<
        SidecarSettings,
        String,
    >)
        ensures
            address_result(r) == settings_of(robot_ip@, robot_port, rerun_port),
            r matches Ok(settings) ==> settings@.valid(),
    {
        let host = trim_text(robot_ip);
        if host.as_str().is_empty() {
            return Err("机器人 IP / 主机名不能为空".to_owned());
        }
        if has_slash_or_white(host.as_str()) {
            return Err("机器人地址只填写 IP 或主机名，不要包含 http://、端口或路径".to_owned());
        }
        if robot_port == 0 || rerun_port == 0 {
            return Err("端口必须在 1–65535 之间".to_owned());
        }
        Ok(SidecarSettings { robot_ip: host, robot_port, rerun_port })
    }

    pub fn connection(&self) -> (r: LiveConnection)
        ensures
            r@ == self@,
    {
        LiveConnection {
            robot_ip: self.robot_ip.clone(),
            robot_port: self.robot_port,
            rerun_port: self.rerun_port,
        }
    }

    /// A copy of the settings.
    pub fn duplicate(&self) -> (r: SidecarSettings)
        ensures
            r@ == self@,
    {
        SidecarSettings {
            robot_ip: self.robot_ip.clone(),
            robot_port: self.robot_port,
            rerun_port: self.rerun_port,
        }
    }
}

pub open spec fn start_result(r: Result<Option<SidecarSettings>, String>) -> Result<
    Option<AddressView>,
    Seq<char>,
> {
    match r {
        Ok(Some(settings)) => Ok(Some(settings@)),
        Ok(None) => Ok(None),
        Err(message) => Err(message@),
    }
}

/// What to connect to at the start, if anything.
pub open spec fn start_address(c: ConfigView) -> Result<Option<AddressView>, Seq<char>> {
    if trimmed(c.robot_ip).len() == 0 {
        Ok(None)
    } else {
        match settings_of(c.robot_ip, c.robot_port, c.rerun_port) {
            Ok(settings) => Ok(Some(settings)),
            Err(message) => Err(message),
        }
    }
}

/// Decides what to connect to at the start: nothing, where no address is configured.
pub fn initial_settings(config: &ViewerConfig) -> (r: Result<Option<SidecarSettings>, String>)
    ensures
        start_result(r) == start_address(config@),
{
    if trim_text(config.robot_ip.as_str()).as_str().is_empty() {
        Ok(None)
    } else {
        match SidecarSettings::from_config(config) {
            Ok(settings) => Ok(Some(settings)),
            Err(message) => Err(message),
        }
    }
}

/// The table in which a connection is saved.
pub open spec fn saved_table(a: AddressView) -> Seq<(Seq<char>, TomlItemView)> {
    seq![
        ("robot_ip"@, TomlItemView::Text(a.robot_ip)),
        ("robot_port"@, TomlItemView::Integer(a.robot_port as i64)),
        ("rerun_port"@, TomlItemView::Integer(a.rerun_port as i64)),
    ]
}

/// The contents of the file in which a connection is saved, or why there are none.
pub open spec fn saved_contents(a: AddressView) -> Result<Seq<char>, Seq<char>> {
    match toml_print(saved_table(a)) {
        Ok(text) => Ok(text),
        Err(message) => Err("无法生成配置："@ + message),
    }
}

/// The contents of the file in which a connection is saved.
pub fn connection_config_contents(settings: &SidecarSettings) -> (r: Result<String, String>)
    ensures
        text_result(r) == saved_contents(settings@),
        settings@.valid() ==> (r matches Ok(text) && file_read(text@) == Some(
            saved_file(settings@),
        )),
{
    let mut entries: Vec<(String, TomlItem)> = Vec::new();
    entries.push(("robot_ip".to_owned(), TomlItem::Text(settings.robot_ip.clone())));
    entries.push(("robot_port".to_owned(), TomlItem::Integer(settings.robot_port as i64)));
    entries.push(("rerun_port".to_owned(), TomlItem::Integer(settings.rerun_port as i64)));
    assert(table_view(entries@) == saved_table(settings@));
    proof {
        if settings@.valid() {
            lemma_saved_table_is_plain(settings@);
            lemma_saved_table_is_file(settings@);
        }
    }
    match write_table(entries) {
        Ok(text) => Ok(text),
        Err(message) => Err("无法生成配置：".to_owned().concat(message.as_str())),
    }
}

/// What a file with a saved connection says.
pub open spec fn saved_file(a: AddressView) -> FileView {
    FileView {
        robot_ip: Some(a.robot_ip),
        robot_port: Some(a.robot_port),
        rerun_port: Some(a.rerun_port),
        rerun_url: None,
    }
}

proof fn lemma_names()
    ensures
        "robot_ip"@ == seq!['r', 'o', 'b', 'o', 't', '_', 'i', 'p'],
        "robot_port"@ == seq!['r', 'o', 'b', 'o', 't', '_', 'p', 'o', 'r', 't'],
        "rerun_port"@ == seq!['r', 'e', 'r', 'u', 'n', '_', 'p', 'o', 'r', 't'],
        "robot_ip"@ != "robot_port"@,
        "robot_ip"@ != "rerun_port"@,
        "robot_port"@ != "rerun_port"@,
{
    reveal_strlit("robot_ip");
    reveal_strlit("robot_port");
    reveal_strlit("rerun_port");
    assert("robot_port"@[1] != "rerun_port"@[1]);
    assert("robot_ip"@.len() != "robot_port"@.len());
}

proof fn lemma_saved_table_is_plain(a: AddressView)
    requires
        a.valid(),
    ensures
        is_plain(saved_table(a)),
{
    lemma_names();
    let entries = saved_table(a);
    assert forall|i: int, k: int|
        0 <= i < entries.len() && 0 <= k < entries[i].0.len() implies is_bare(
        #[trigger] entries[i].0[k],
    ) by {
        assert(i == 0 || i == 1 || i == 2);
    }
}

proof fn lemma_saved_table_is_file(a: AddressView)
    ensures
        file_of(all_known(saved_table(a))) == Some(saved_file(a)),
{
    lemma_names();
    let entries = all_known(saved_table(a));
    let two = entries.drop_last();
    let one = two.drop_last();
    assert(one.drop_last().len() == 0);
    assert(file_of(one.drop_last()) == Some(empty_file()));
    assert(one.last() == entries[0]);
    assert(file_of(one) == Some(
        FileView { robot_ip: Some(a.robot_ip), ..empty_file() },
    ));
    assert(two.last() == entries[1]);
    assert(file_of(two) == Some(
        FileView {
            robot_ip: Some(a.robot_ip),
            robot_port: Some(a.robot_port),
            ..empty_file()
        },
    ));
    assert(entries.last() == entries[2]);
}

proof fn lemma_trimmed_keeps(s: Seq<char>)
    requires
        forall|i: int| 0 <= i < s.len() ==> !is_white(#[trigger] s[i]),
    ensures
        trimmed(s) == s,
{
}

/// Settings that are accepted have an address that is a host, and ports that are ports.
pub proof fn law_accepted_settings_are_valid(robot_ip: Seq<char>, robot_port: u16, rerun_port: u16)
    ensures
        settings_of(robot_ip, robot_port, rerun_port) matches Ok(a) ==> a.valid(),
{
    let host = trimmed(robot_ip);
    if !is_no_host(host) {
        assert forall|i: int| 0 <= i < host.len() implies host[i] != '/' && !is_white(
            #[trigger] host[i],
        ) by {
            if host[i] == '/' || is_white(host[i]) {
                assert(is_no_host(host));
            }
        }
    }
}

/// Settings that were accepted are accepted again, unchanged.
pub proof fn law_accepted_settings_stay(a: AddressView)
    requires
        a.valid(),
    ensures
        settings_of(a.robot_ip, a.robot_port, a.rerun_port) == Ok::<AddressView, Seq<char>>(a),
{
    lemma_trimmed_keeps(a.robot_ip);
    assert(!is_no_host(a.robot_ip)) by {
        if is_no_host(a.robot_ip) {
            let i = choose|i: int|
                0 <= i < a.robot_ip.len() && (#[trigger] a.robot_ip[i] == '/' || is_white(
                    a.robot_ip[i],
                ));
            assert(a.robot_ip.contains('/'));
        }
    }
}

/// A connection that was saved is the one that the viewer connects to at its next start
/// without arguments. `text` is a file's contents as they were saved.
pub proof fn law_saved_connection_is_used(a: AddressView, text: Seq<char>, config_path: PathBuf)
    requires
        a.valid(),
        written_well(Ok(text), saved_table(a)),
    ensures
        file_read(text) == Some(saved_file(a)),
        startup_from(
            config_with_file(initial_config(config_path), saved_file(a)),
            Seq::empty(),
            0,
        ) matches Ok(StartupView::Run(c)) && settings_of(c.robot_ip, c.robot_port, c.rerun_port)
            == Ok::<AddressView, Seq<char>>(a) && c.rerun_url is None,
{
    lemma_saved_table_is_plain(a);
    lemma_saved_table_is_file(a);
    law_accepted_settings_stay(a);
}

/// Whether the arguments from `i` on name a flag.
pub open spec fn names_flag(args: Seq<Seq<char>>, i: int, flag: Seq<char>) -> bool
    decreases args.len() - i,
{
    i + 1 < args.len() && (args[i] == flag || names_flag(args, i + 2, flag))
}

/// Command-line flags override the configuration file: what a flag names does not
/// depend on the file, and what no flag names is as the file has it.
pub proof fn law_flags_override_the_file(c: ConfigView, d: ConfigView, args: Seq<Seq<char>>, i: int)
    requires
        0 <= i,
        startup_from(c, args, i) matches Ok(StartupView::Run(_)),
    ensures
        startup_from(d, args, i) matches Ok(StartupView::Run(_)),
        ({
            let x = startup_from(c, args, i)->Ok_0->Run_0;
            let y = startup_from(d, args, i)->Ok_0->Run_0;
            &&& if names_flag(args, i, "--robot-ip"@) {
                x.robot_ip == y.robot_ip
            } else {
                x.robot_ip == c.robot_ip
            }
            &&& if names_flag(args, i, "--robot-port"@) {
                x.robot_port == y.robot_port
            } else {
                x.robot_port == c.robot_port
            }
            &&& if names_flag(args, i, "--rerun-port"@) {
                x.rerun_port == y.rerun_port
            } else {
                x.rerun_port == c.rerun_port
            }
            &&& if names_flag(args, i, "--rerun-url"@) {
                x.rerun_url == y.rerun_url
            } else {
                x.rerun_url == c.rerun_url
            }
            &&& if names_flag(args, i, "--screenshot"@) {
                x.screenshot == y.screenshot
            } else {
                x.screenshot == c.screenshot
            }
        }),
    decreases args.len() - i,
{
    if i < args.len() {
        assert(takes_value(args[i]));
        lemma_flags_differ();
        let c1 = config_with_flag(c, args[i], args[i + 1])->Ok_0;
        let d1 = config_with_flag(d, args[i], args[i + 1])->Ok_0;
        law_flags_override_the_file(c1, d1, args, i + 2);
        law_flags_override_the_file(d1, c1, args, i + 2);
    }
}

proof fn lemma_flags_differ()
    ensures
        "--robot-ip"@ != "--robot-port"@,
        "--robot-ip"@ != "--rerun-port"@,
        "--robot-ip"@ != "--rerun-url"@,
        "--robot-ip"@ != "--screenshot"@,
        "--robot-port"@ != "--rerun-port"@,
        "--robot-port"@ != "--rerun-url"@,
        "--robot-port"@ != "--screenshot"@,
        "--rerun-port"@ != "--rerun-url"@,
        "--rerun-port"@ != "--screenshot"@,
        "--rerun-url"@ != "--screenshot"@,
{
    reveal_strlit("--robot-ip");
    reveal_strlit("--robot-port");
    reveal_strlit("--rerun-port");
    reveal_strlit("--rerun-url");
    reveal_strlit("--screenshot");
    assert("--robot-ip"@.len() == 10);
    assert("--robot-port"@.len() == 12);
    assert("--rerun-port"@.len() == 12);
    assert("--rerun-url"@.len() == 11);
    assert("--screenshot"@.len() == 12);
    assert("--robot-port"@[3] == 'o');
    assert("--rerun-port"@[3] == 'e');
    assert("--screenshot"@[3] == 'c');
}

/// Without a file and without arguments there is no address, the robot's port is 8008
/// and that of the local stream 9876, and the local stream is shown.
pub proof fn law_defaults(config_path: PathBuf)
    ensures
        ({
            let c = initial_config(config_path);
            &&& c.robot_ip.len() == 0 && c.robot_port == 8008 && c.rerun_port == 9876
            &&& c.rerun_url is None && c.screenshot is None && c.config_path == config_path
            &&& start_address(c) == Ok::<Option<AddressView>, Seq<char>>(None)
        }),
{
}

/// The stream that is shown is the one that was given, and else the one on this computer
/// at the local port.
pub proof fn law_the_shown_stream(c: ConfigView)
    ensures
        c.rerun_url matches Some(url) ==> shown_stream(c) == url,
        c.rerun_url is None ==> shown_stream(c) == "rerun+http://127.0.0.1:"@ + decimal(
            c.rerun_port as nat,
        ) + "/proxy"@,
{
}

/// Commands go to the robot's address and port, as they are configured.
pub proof fn law_commands_go_to_the_robot(c: ConfigView)
    ensures
        endpoint_of(configured_address(c)).host == c.robot_ip,
        endpoint_of(configured_address(c)).port == c.robot_port,
        configured_address(c).rerun_port == c.rerun_port,
{
}

proof fn lemma_file_names_differ()
    ensures
        "robot_ip"@ != "robot_port"@,
        "robot_ip"@ != "rerun_port"@,
        "robot_ip"@ != "rerun_url"@,
        "robot_port"@ != "rerun_port"@,
        "robot_port"@ != "rerun_url"@,
        "rerun_port"@ != "rerun_url"@,
{
    lemma_names();
    reveal_strlit("rerun_url");
    assert("rerun_url"@.len() == 9 && "robot_ip"@.len() == 8);
    assert("robot_port"@.len() == 10 && "rerun_port"@.len() == 10);
}

/// A file names the robot's address by the text `robot_ip`, the ports by the whole
/// numbers `robot_port` and `rerun_port`, and the stream by the text `rerun_url`. Any
/// other name, a value of another type, and a number that is no port spoil the file.
pub proof fn law_files_are_read(
    entries: Seq<(Seq<char>, Option<TomlItemView>)>,
    name: Seq<char>,
    item: Option<TomlItemView>,
    f: FileView,
)
    requires
        file_of(entries) == Some(f),
    ensures
        ({
            let read = file_of(entries.push((name, item)));
            &&& name == "robot_ip"@ ==> read == match item {
                Some(TomlItemView::Text(ip)) => Some(FileView { robot_ip: Some(ip), ..f }),
                _ => None,
            }
            &&& name == "rerun_url"@ ==> read == match item {
                Some(TomlItemView::Text(url)) => Some(FileView { rerun_url: Some(url), ..f }),
                _ => None,
            }
            &&& name == "robot_port"@ ==> {
                &&& item matches Some(TomlItemView::Integer(n)) ==> (0 <= n <= 65535 ==> read
                    == Some(FileView { robot_port: Some(n as u16), ..f }))
                &&& !(item matches Some(TomlItemView::Integer(n)) && 0 <= n <= 65535)
                    ==> read is None
            }
            &&& name == "rerun_port"@ ==> {
                &&& item matches Some(TomlItemView::Integer(n)) ==> (0 <= n <= 65535 ==> read
                    == Some(FileView { rerun_port: Some(n as u16), ..f }))
                &&& !(item matches Some(TomlItemView::Integer(n)) && 0 <= n <= 65535)
                    ==> read is None
            }
            &&& name != "robot_ip"@ && name != "robot_port"@ && name != "rerun_port"@ && name
                != "rerun_url"@ ==> read is None
        }),
{
    lemma_file_names_differ();
    let more = entries.push((name, item));
    assert(more.drop_last() == entries);
    assert(more.last() == (name, item));
}

/// An empty file names nothing, and a file that is spoilt stays so whatever follows.
pub proof fn law_spoilt_files_stay_so(
    entries: Seq<(Seq<char>, Option<TomlItemView>)>,
    more: (Seq<char>, Option<TomlItemView>),
)
    ensures
        file_of(Seq::empty()) matches Some(f) && f.robot_ip is None && f.robot_port is None
            && f.rerun_port is None && f.rerun_url is None,
        file_of(entries) is None ==> file_of(entries.push(more)) is None,
{
    assert(entries.push(more).drop_last() == entries);
}

/// What a file names is taken over, and what it does not name stays, but for the stream:
/// without a name for it the local one is shown.
pub proof fn law_files_are_taken_over(c: ConfigView, f: FileView)
    ensures
        ({
            let d = config_with_file(c, f);
            &&& f.robot_ip matches Some(ip) ==> d.robot_ip == ip
            &&& f.robot_ip is None ==> d.robot_ip == c.robot_ip
            &&& f.robot_port matches Some(port) ==> d.robot_port == port
            &&& f.robot_port is None ==> d.robot_port == c.robot_port
            &&& f.rerun_port matches Some(port) ==> d.rerun_port == port
            &&& f.rerun_port is None ==> d.rerun_port == c.rerun_port
            &&& d.rerun_url == f.rerun_url
            &&& d.screenshot == c.screenshot && d.config_path == c.config_path
        }),
{
}

/// A file that is not there matters only where it was asked for. One that cannot be read
/// or is no configuration is an error that names the file, and one that is a
/// configuration is taken over.
pub proof fn law_files_are_looked_at(
    c: ConfigView,
    path: Seq<char>,
    outcome: FileOutcome,
    required: bool,
)
    ensures
        outcome is Missing && required ==> config_after(c, path, outcome, required) == Err::<
            ConfigView,
            Seq<char>,
        >("配置文件不存在："@ + path),
        outcome is Missing && !required ==> config_after(c, path, outcome, required) == Ok::<
            ConfigView,
            Seq<char>,
        >(c),
        outcome matches FileOutcome::Unreadable(message) ==> config_after(
            c,
            path,
            outcome,
            required,
        ) == Err::<ConfigView, Seq<char>>("无法读取配置文件 "@ + path + "："@ + message@),
        outcome matches FileOutcome::Contents { text, complaint } ==> {
            &&& toml_parse(text@) matches Some(entries) ==> (file_of(entries) matches Some(f)
                ==> config_after(c, path, outcome, required) == Ok::<ConfigView, Seq<char>>(
                config_with_file(c, f),
            ))
            &&& !(toml_parse(text@) matches Some(entries) && file_of(entries) is Some)
                ==> config_after(c, path, outcome, required) == Err::<ConfigView, Seq<char>>(
                "配置文件 "@ + path + " 格式错误："@ + complaint@,
            )
        },
{
}

/// What a flag of the command line does: it gives its field the value behind it, a port
/// only where the value is one, and leaves all other fields as they are. `--config` only
/// names the file.
pub proof fn law_flags_set_their_fields(c: ConfigView, args: Seq<Seq<char>>, i: int)
    requires
        0 <= i,
        i + 1 < args.len(),
    ensures
        ({
            let value = args[i + 1];
            let all = startup_from(c, args, i);
            &&& args[i] == "--config"@ ==> all == startup_from(c, args, i + 2)
            &&& args[i] == "--robot-ip"@ ==> all == startup_from(
                ConfigView { robot_ip: value, ..c },
                args,
                i + 2,
            )
            &&& args[i] == "--rerun-url"@ ==> all == startup_from(
                ConfigView { rerun_url: Some(value), ..c },
                args,
                i + 2,
            )
            &&& args[i] == "--screenshot"@ ==> all == startup_from(
                ConfigView { screenshot: Some(value), ..c },
                args,
                i + 2,
            )
            &&& args[i] == "--robot-port"@ ==> {
                &&& u16_of(value) matches Some(port) ==> all == startup_from(
                    ConfigView { robot_port: port, ..c },
                    args,
                    i + 2,
                )
                &&& u16_of(value) is None ==> all == Err::<StartupView, Seq<char>>(
                    "--robot-port 必须是有效端口"@,
                )
            }
            &&& args[i] == "--rerun-port"@ ==> {
                &&& u16_of(value) matches Some(port) ==> all == startup_from(
                    ConfigView { rerun_port: port, ..c },
                    args,
                    i + 2,
                )
                &&& u16_of(value) is None ==> all == Err::<StartupView, Seq<char>>(
                    "--rerun-port 必须是有效端口"@,
                )
            }
        }),
{
    lemma_flags_differ();
    reveal_strlit("--config");
    reveal_strlit("--robot-ip");
    reveal_strlit("--robot-port");
    reveal_strlit("--rerun-port");
    reveal_strlit("--rerun-url");
    reveal_strlit("--screenshot");
    assert("--config"@.len() == 8);
}

/// The command line is read to its end, unless it asks for help, holds a word that is no
/// flag, or lacks the value of its last flag.
pub proof fn law_command_lines_end(c: ConfigView, args: Seq<Seq<char>>, i: int)
    requires
        0 <= i <= args.len(),
    ensures
        i == args.len() ==> startup_from(c, args, i) == Ok::<StartupView, Seq<char>>(
            StartupView::Run(c),
        ),
        i < args.len() && (args[i] == "--help"@ || args[i] == "-h"@) ==> startup_from(c, args, i)
            == Ok::<StartupView, Seq<char>>(StartupView::Help),
        ({
            let flags = seq![
                "--config"@,
                "--robot-ip"@,
                "--robot-port"@,
                "--rerun-port"@,
                "--rerun-url"@,
                "--screenshot"@,
            ];
            &&& i == args.len() - 1 && flags.contains(args[i]) ==> startup_from(c, args, i) == Err::<
                StartupView,
                Seq<char>,
            >(args[i] + " 缺少参数"@)
            &&& i < args.len() && !flags.contains(args[i]) && args[i] != "--help"@ && args[i]
                != "-h"@ ==> startup_from(c, args, i) == Err::<StartupView, Seq<char>>(
                "未知参数："@ + args[i],
            )
        }),
{
    let flags = seq![
        "--config"@,
        "--robot-ip"@,
        "--robot-port"@,
        "--rerun-port"@,
        "--rerun-url"@,
        "--screenshot"@,
    ];
    assert(flags[0] == "--config"@);
    assert(flags[1] == "--robot-ip"@);
    assert(flags[2] == "--robot-port"@);
    assert(flags[3] == "--rerun-port"@);
    assert(flags[4] == "--rerun-url"@);
    assert(flags[5] == "--screenshot"@);
    reveal_strlit("--help");
    reveal_strlit("-h");
    reveal_strlit("--config");
    reveal_strlit("--robot-ip");
    reveal_strlit("--robot-port");
    reveal_strlit("--rerun-port");
    reveal_strlit("--rerun-url");
    reveal_strlit("--screenshot");
    assert("--help"@.len() == 6 && "-h"@.len() == 2);
    assert("--config"@.len() == 8 && "--robot-ip"@.len() == 10 && "--robot-port"@.len() == 12);
    assert("--rerun-port"@.len() == 12 && "--rerun-url"@.len() == 11 && "--screenshot"@.len()
        == 12);
    if i < args.len() {
        assert(takes_value(args[i]) <==> flags.contains(args[i]));
    }
}

/// The file that is asked for is the one behind the first `--config`, which must not be
/// the last word. Without one no file is asked for.
pub proof fn law_files_are_asked_for(args: Seq<Seq<char>>, i: int)
    ensures
        (0 <= i < args.len() && args[i] == "--config"@ && forall|j: int|
            0 <= j < i ==> #[trigger] args[j] != "--config"@) ==> requested_file(args) == if i + 1
            < args.len() {
            Ok::<Option<Seq<char>>, Seq<char>>(Some(args[i + 1]))
        } else {
            Err("--config 缺少参数"@)
        },
        !args.contains("--config"@) ==> requested_file(args) == Ok::<Option<Seq<char>>, Seq<char>>(
            None,
        ),
{
    if 0 <= i < args.len() && args[i] == "--config"@ && forall|j: int|
        0 <= j < i ==> #[trigger] args[j] != "--config"@ {
        lemma_config_flag_found(args, 0, i);
    }
    if !args.contains("--config"@) {
        lemma_no_config_flag(args, 0);
    }
}

proof fn lemma_config_flag_found(args: Seq<Seq<char>>, from: int, i: int)
    requires
        0 <= from <= i < args.len(),
        args[i] == "--config"@,
        forall|j: int| from <= j < i ==> #[trigger] args[j] != "--config"@,
    ensures
        config_flag(args, from) == Some(i),
    decreases i - from,
{
    if from < i {
        lemma_config_flag_found(args, from + 1, i);
    }
}

proof fn lemma_no_config_flag(args: Seq<Seq<char>>, from: int)
    requires
        0 <= from,
        !args.contains("--config"@),
    ensures
        config_flag(args, from) is None,
    decreases args.len() - from,
{
    if from < args.len() {
        assert(args[from] != "--config"@) by {
            if args[from] == "--config"@ {
                assert(args.contains("--config"@));
            }
        }
        lemma_no_config_flag(args, from + 1);
    }
}

/// What an operator puts in is accepted where the address, without the white space around
/// it, is not empty and holds neither a slash nor white space, and both ports are not
/// zero. Then the address and both ports are taken over as they are; and else the first
/// of these that is not so is told.
pub proof fn law_input_is_checked(robot_ip: Seq<char>, robot_port: u16, rerun_port: u16)
    ensures
        ({
            let host = trimmed(robot_ip);
            let plain = forall|i: int|
                0 <= i < host.len() ==> #[trigger] host[i] != '/' && !is_white(host[i]);
            let checked = settings_of(robot_ip, robot_port, rerun_port);
            &&& checked is Ok <==> host.len() > 0 && plain && robot_port > 0 && rerun_port > 0
            &&& checked matches Ok(a) ==> a.robot_ip == host && a.robot_port == robot_port
                && a.rerun_port == rerun_port
            &&& host.len() == 0 ==> checked == Err::<AddressView, Seq<char>>(
                "机器人 IP / 主机名不能为空"@,
            )
            &&& host.len() > 0 && !plain ==> checked == Err::<AddressView, Seq<char>>(
                "机器人地址只填写 IP 或主机名，不要包含 http://、端口或路径"@,
            )
            &&& host.len() > 0 && plain && (robot_port == 0 || rerun_port == 0) ==> checked
                == Err::<AddressView, Seq<char>>("端口必须在 1–65535 之间"@)
        }),
{
    let host = trimmed(robot_ip);
    if is_no_host(host) {
        let i = choose|i: int| 0 <= i < host.len() && (#[trigger] host[i] == '/' || is_white(host[i]));
        assert(host[i] == '/' || is_white(host[i]));
    } else {
        assert forall|i: int| 0 <= i < host.len() implies #[trigger] host[i] != '/' && !is_white(
            host[i],
        ) by {
            if host[i] == '/' || is_white(host[i]) {
                assert(is_no_host(host));
            }
        }
    }
}

/// At the start the viewer connects to the configured address, or to nothing where there
/// is none; an address that is no host is an error.
pub proof fn law_the_start_uses_the_configuration(c: ConfigView)
    ensures
        trimmed(c.robot_ip).len() == 0 ==> start_address(c) == Ok::<
            Option<AddressView>,
            Seq<char>,
        >(None),
        trimmed(c.robot_ip).len() > 0 ==> {
            &&& settings_of(c.robot_ip, c.robot_port, c.rerun_port) matches Ok(a) ==> start_address(
                c,
            ) == Ok::<Option<AddressView>, Seq<char>>(Some(a))
            &&& settings_of(c.robot_ip, c.robot_port, c.rerun_port) matches Err(message)
                ==> start_address(c) == Err::<Option<AddressView>, Seq<char>>(message)
        },
{
}

/// A connection is saved under these names: the address as a text, the ports as whole
/// numbers. What cannot be written is an error with the reason.
pub proof fn law_connections_are_saved(a: AddressView)
    ensures
        saved_table(a) == seq![
            ("robot_ip"@, TomlItemView::Text(a.robot_ip)),
            ("robot_port"@, TomlItemView::Integer(a.robot_port as i64)),
            ("rerun_port"@, TomlItemView::Integer(a.rerun_port as i64)),
        ],
        toml_print(saved_table(a)) matches Ok(text) ==> saved_contents(a) == Ok::<
            Seq<char>,
            Seq<char>,
        >(text),
        toml_print(saved_table(a)) matches Err(message) ==> saved_contents(a) == Err::<
            Seq<char>,
            Seq<char>,
        >("无法生成配置："@ + message),
{
}

} // verus!
