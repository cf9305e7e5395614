use rust_chat::cli::{Cli, Command, DEFAULT_PORT};

fn server() -> Command {
    Command::Server { port: 9000, username: "server".to_string() }
}

fn client() -> Command {
    Command::Client { host: "example.org".to_string(), port: 65535, username: "bob".to_string() }
}

#[test]
fn default_port_is_9000() {
    assert_eq!(DEFAULT_PORT, 9000);
}

#[test]
fn server_listens_on_every_interface() {
    assert_eq!(server().address(), "0.0.0.0:9000");
    assert_eq!(Command::Server { port: 0, username: String::new() }.address(), "0.0.0.0:0");
}

#[test]
fn client_dials_host_and_port() {
    assert_eq!(client().address(), "example.org:65535");
}

#[test]
fn banners_name_port_and_user() {
    assert_eq!(server().banner(), "Starting server on port: 9000 as 'server'");
    assert_eq!(client().banner(), "Connecting to host: example.org on port: 65535 as 'bob'");
}

#[test]
fn failures_name_the_address() {
    assert_eq!(server().failure(), "Failed to bind TCP Listener to address: 0.0.0.0:9000");
    assert_eq!(client().failure(), "Failed to connect to: example.org:65535");
}

#[test]
fn username_is_the_display_name() {
    assert_eq!(server().username(), "server");
    assert_eq!(client().username(), "bob");
    let cli = Cli { command: client() };
    assert_eq!(cli.command.username(), "bob");
}
