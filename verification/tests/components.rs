use pty_relay::auth_middleware::{AuthMiddleware, bearer_token};
use pty_relay::config::{Config, TcpProxyConfig, TcpProxyRule};
use pty_relay::login_handler::build_user_info;
use pty_relay::pg_to_csv::{CsvExportOptions, CsvRowScanner, PgExportJsonParams,
    build_dsn_from_json, build_table_full};
use pty_relay::proxy_http::{InterceptorRule, ProxyMiddleware};
use pty_relay::protocol::disconnected_frame;
use pty_relay::proxy_tcp::TcpProxyServer;
use pty_relay::session::Session;
use pty_relay::template_engine::render_with_includes;
use pty_relay::ssh_client::{SshClient, SshError};

#[test]
fn default_config_values() {
    let c = Config::default();
    assert_eq!(c.server.port, 8000);
    assert_eq!(c.server.host, "127.0.0.1");
    assert_eq!(c.static_files.root_dir, "./static");
    assert_eq!(c.websocket.heartbeat_interval, 5);
    assert_eq!(c.websocket.max_frame_size, 65536);
    assert!(!c.tcp_proxy.enable);
    assert_eq!(c.tcp_proxy.rules.len(), 1);
    assert_eq!(c.tcp_proxy.rules[0].remote_addresses[0], "127.0.0.1:9001");
    assert_eq!(c.proxy.rules[0].path_prefix, "/api/remote");
}

#[test]
fn tcp_proxy_finds_rule_by_port() {
    let config = TcpProxyConfig {
        enable: true,
        port: 8080,
        rules: vec![
            TcpProxyRule {
                local_port: 9001,
                remote_addresses: vec![String::from("a:1"), String::from("b:2")],
                pattern: None,
            },
            TcpProxyRule {
                local_port: 9002,
                remote_addresses: vec![String::from("c:3")],
                pattern: Some(String::from("x")),
            },
        ],
    };
    let mut proxy = TcpProxyServer::new(config);
    let rule = proxy.should_forward(9002).expect("rule");
    assert_eq!(rule.remote_addresses, vec![String::from("c:3")]);
    assert!(proxy.should_forward(1234).is_none());
    assert_eq!(proxy.pick_target(0), "a:1");
    assert_eq!(proxy.pick_target(0), "b:2");
    assert_eq!(proxy.pick_target(0), "a:1");
}

#[test]
fn http_proxy_matches_prefix_and_pattern() {
    let mw = ProxyMiddleware::new();
    assert_eq!(mw.forward_depth, 0);
    assert_eq!(mw.max_forward_depth, 5);
    let rules = vec![
        InterceptorRule {
            path_prefix: String::from("/api"),
            target_url: String::from("http://backend"),
            pattern: String::from("^/api/[0-9]+$"),
        },
        InterceptorRule {
            path_prefix: String::from("/static"),
            target_url: String::from("http://files"),
            pattern: String::new(),
        },
    ];
    let hit = mw.should_forward("/api/123", &rules).expect("rule");
    assert_eq!(hit.target_url, "http://backend");
    assert!(mw.should_forward("/api/abc", &rules).is_none());
    let hit = mw.should_forward("/static/logo.png", &rules).expect("rule");
    assert_eq!(hit.target_url, "http://files");
    assert!(mw.should_forward("/other", &rules).is_none());
}

#[test]
fn ssh_client_lifecycle() {
    let mut c = SshClient::new();
    let creds = pty_relay::ssh_client::SshCredentials {
        hostname: String::from("h"),
        port: 22,
        username: String::from("u"),
        password: String::from("p"),
    };
    assert!(c.connect(creds).is_ok());
    let out = c.execute_command("ls").unwrap();
    assert_eq!(out, "模拟执行命令: ls");
    assert!(c.create_sftp().is_ok());
    assert!(c.upload_file("a", "b").is_ok());
    assert!(c.download_file("a", "b").is_ok());
    assert!(c.list_directory("/").unwrap().is_empty());
    assert!(c.disconnect().is_ok());
}

#[test]
fn ssh_error_messages() {
    assert_eq!(
        SshError::ConnectionError(String::from("refused")).message(),
        "连接错误: refused"
    );
    assert_eq!(SshError::AuthFailed(String::from("denied")).message(), "认证失败: denied");
    assert_eq!(SshError::FileError(String::from("gone")).message(), "文件操作错误: gone");
    assert_eq!(SshError::Unknown.message(), "未知错误");
}

fn base_params() -> PgExportJsonParams {
    PgExportJsonParams {
        host: String::from("localhost"),
        port: String::from("15432"),
        username: String::from("gaussdb"),
        password: String::from("pw"),
        dbname: String::from("db1"),
        table_name: String::from("t1"),
        current_schema: None,
        output_file_path: String::from("/tmp/out.csv"),
        gzip: None,
        buf_size_bytes: None,
        partitions: None,
        rows_per_query: None,
        sslmode: None,
        connect_timeout: None,
        hostaddr: None,
        dsn: None,
    }
}

#[test]
fn dsn_is_built_from_parts() {
    let p = base_params();
    assert_eq!(
        build_dsn_from_json(&p),
        "host=localhost hostaddr=127.0.0.1 port=15432 user=gaussdb password=pw dbname=db1 \
         sslmode=disable connect_timeout=10"
    );
    let mut p2 = base_params();
    p2.host = String::from("db.example.net");
    p2.sslmode = Some(String::from("require"));
    p2.connect_timeout = Some(3);
    assert_eq!(
        build_dsn_from_json(&p2),
        "host=db.example.net port=15432 user=gaussdb password=pw dbname=db1 sslmode=require \
         connect_timeout=3"
    );
    let mut p3 = base_params();
    p3.dsn = Some(String::from("host=x port=1"));
    assert_eq!(build_dsn_from_json(&p3), "host=x port=1");
}

#[test]
fn table_reference_is_quoted_with_schema() {
    let mut p = base_params();
    assert_eq!(build_table_full(&p), "t1");
    p.current_schema = Some(String::from("public"));
    assert_eq!(build_table_full(&p), "\"public\".\"t1\"");
}

#[test]
fn csv_options_default() {
    let o = CsvExportOptions::default();
    assert!(!o.gzip);
    assert_eq!(o.buf_size_bytes, 32 << 20);
    assert_eq!(o.partitions, 1);
    assert!(o.rows_per_query.is_none());
}

#[test]
fn csv_scanner_counts_rows_across_quotes_and_chunks() {
    let mut sc = CsvRowScanner::default();
    assert_eq!(sc.count_rows_chunk(b"a,b\nc,\"d\ne\"\nf"), 2);
    let mut sc2 = CsvRowScanner::default();
    assert_eq!(sc2.count_rows_chunk(b"a,\"one \"\" quote\n"), 0);
    assert_eq!(sc2.count_rows_chunk(b"still inside\"\nx\n"), 2);
}

#[test]
fn user_info_roles_follow_name() {
    let info = build_user_info(7, "alice");
    assert_eq!(info.user_id, "7");
    assert_eq!(info.user_name, "alice");
    assert_eq!(info.roles, vec![String::from("R_USER")]);
    assert!(info.buttons.is_empty());
    let info = build_user_info(-3, "Admin");
    assert_eq!(info.user_id, "-3");
    assert_eq!(info.roles, vec![String::from("R_USER"), String::from("R_SUPER")]);
}

#[test]
fn bearer_tokens_are_extracted() {
    let _mw = AuthMiddleware::new();
    assert_eq!(bearer_token("Bearer abc.def"), "abc.def");
    assert_eq!(bearer_token("Basic abc"), "");
    assert_eq!(bearer_token(""), "");
    assert_eq!(bearer_token("Bearer "), "");
}

#[test]
fn templates_expand_includes() {
    let files = vec![
        (
            String::from("index.html"),
            String::from("<html><rsp:include page=\"header\" /><p>body</p></html>"),
        ),
        (String::from("header.html"), String::from("<h1>title</h1>")),
    ];
    let out = render_with_includes(&files, "index.html").unwrap();
    assert_eq!(out, "<html><h1>title</h1><p>body</p></html>");
}

#[test]
fn templates_tolerate_missing_and_cyclic_includes() {
    let files = vec![
        (
            String::from("a.html"),
            String::from("A[<rsp:include page='b' />][<rsp:include page='missing' />]"),
        ),
        (String::from("b.html"), String::from("B<rsp:include page=\"a.html\" />")),
    ];
    let out = render_with_includes(&files, "a.html").unwrap();
    // the cycle back to the already-rendered page contributes nothing, and
    // so does the missing page
    assert_eq!(out, "A[B][]");
    assert!(render_with_includes(&files, "absent.html").is_err());
}

#[test]
fn binary_frames_decode_like_text() {
    let mut s = Session::new(0);
    let step = s.handle_binary(&b"{\"type\":\"disconnect\"}".to_vec());
    assert_eq!(step.frames, vec![disconnected_frame()]);
}
