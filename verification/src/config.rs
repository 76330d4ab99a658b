//! The dashboard's configuration tree and its built-in default. Reading and
//! writing the configuration file is I/O and stays with the surrounding
//! process; the tree itself and the default values live here.

use vstd::prelude::*;

verus! {

/// The client-connection endpoint settings.
#[derive(Clone, Debug)]
pub struct WebSocketConfig {
    pub enabled: bool,
    pub path: String,
    pub heartbeat_interval: u64,
    pub max_frame_size: usize,
    pub max_connections: u32,
}

/// Where and how much to log.
#[derive(Clone, Debug)]
pub struct LogConfig {
    pub file_path: String,
    pub level: String,
}

/// The TCP proxy and its rules.
#[derive(Clone, Debug)]
pub struct TcpProxyConfig {
    pub enable: bool,
    pub port: u16,
    pub rules: Vec<TcpProxyRule>,
}

/// One TCP forwarding rule.
#[derive(Clone, Debug)]
pub struct TcpProxyRule {
    pub local_port: u16,
    pub remote_addresses: Vec<String>,
    pub pattern: Option<String>,
}

/// The HTTP proxy and its rules.
#[derive(Clone, Debug)]
pub struct ProxyConfig {
    pub enable: bool,
    pub rules: Vec<ProxyRule>,
}

/// One HTTP forwarding rule.
#[derive(Clone, Debug)]
pub struct ProxyRule {
    pub path_prefix: String,
    pub target_url: String,
    pub pattern: Option<String>,
}

/// The whole configuration tree.
#[derive(Clone, Debug)]
pub struct Config {
    pub server: ServerConfig,
    pub static_files: StaticFilesConfig,
    pub scheduled_task: ScheduledTaskConfig,
    pub proxy: ProxyConfig,
    pub websocket: WebSocketConfig,
    pub log: LogConfig,
    pub tcp_proxy: TcpProxyConfig,
}

/// The HTTP server settings.
#[derive(Clone, Debug)]
pub struct ServerConfig {
    pub port: u16,
    pub host: String,
    pub database_path: String,
    pub enable: bool,
}

/// Where static files are served from.
#[derive(Clone, Debug)]
pub struct StaticFilesConfig {
    pub root_dir: String,
    pub allowed_extensions: String,
}

/// The scheduled-task settings.
#[derive(Clone, Debug)]
pub struct ScheduledTaskConfig {
    pub enable: bool,
    pub task_1: TaskConfig,
}

/// One scheduled task.
#[derive(Clone, Debug)]
pub struct TaskConfig {
    pub cron_expression: String,
    pub description: String,
}

impl Config {
    /// The built-in default configuration.
    pub fn default() -> (r: Config)
        ensures
            r.server.port == 8000,
            r.server.host@ == "127.0.0.1"@,
            r.server.database_path@ == "./db/rsts.db"@,
            r.server.enable,
            r.static_files.root_dir@ == "./static"@,
            r.static_files.allowed_extensions@ == "html,css,js,png"@,
            r.scheduled_task.enable,
            r.scheduled_task.task_1.cron_expression@ == "* * * * *"@,
            r.proxy.enable,
            r.proxy.rules@.len() == 1,
            r.proxy.rules@[0].path_prefix@ == "/api/remote"@,
            r.proxy.rules@[0].target_url@ == "http://127.0.0.1:9000"@,
            r.proxy.rules@[0].pattern is None,
            r.websocket.enabled,
            r.websocket.path@ == "/ws"@,
            r.websocket.heartbeat_interval == 5,
            r.websocket.max_frame_size == 65536,
            r.websocket.max_connections == 100,
            r.log.file_path@ == "logs.log"@,
            r.log.level@ == "info"@,
            !r.tcp_proxy.enable,
            r.tcp_proxy.port == 8080,
            r.tcp_proxy.rules@.len() == 1,
            r.tcp_proxy.rules@[0].local_port == 8080,
            r.tcp_proxy.rules@[0].remote_addresses@.len() == 1,
            r.tcp_proxy.rules@[0].remote_addresses@[0]@ == "127.0.0.1:9001"@,
            r.tcp_proxy.rules@[0].pattern is None,
    {
        let mut proxy_rules: Vec<ProxyRule> = Vec::new();
        proxy_rules.push(
            ProxyRule {
                path_prefix: String::from_str("/api/remote"),
                target_url: String::from_str("http://127.0.0.1:9000"),
                pattern: None,
            },
        );
        let mut remote_addresses: Vec<String> = Vec::new();
        remote_addresses.push(String::from_str("127.0.0.1:9001"));
        let mut tcp_rules: Vec<TcpProxyRule> = Vec::new();
        tcp_rules.push(TcpProxyRule { local_port: 8080, remote_addresses, pattern: None });
        Config {
            server: ServerConfig {
                port: 8000,
                host: String::from_str("127.0.0.1"),
                database_path: String::from_str("./db/rsts.db"),
                enable: true,
            },
            static_files: StaticFilesConfig {
                root_dir: String::from_str("./static"),
                allowed_extensions: String::from_str("html,css,js,png"),
            },
            scheduled_task: ScheduledTaskConfig {
                enable: true,
                task_1: TaskConfig {
                    cron_expression: String::from_str("* * * * *"),
                    description: String::from_str("每分钟执行一次的示例任务"),
                },
            },
            proxy: ProxyConfig { enable: true, rules: proxy_rules },
            websocket: WebSocketConfig {
                enabled: true,
                path: String::from_str("/ws"),
                heartbeat_interval: 5,
                max_frame_size: 65536,
                max_connections: 100,
            },
            log: LogConfig {
                file_path: String::from_str("logs.log"),
                level: String::from_str("info"),
            },
            tcp_proxy: TcpProxyConfig { enable: false, port: 8080, rules: tcp_rules },
        }
    }
}

} // verus!
