use muxr_core::herdr::backend::HerdrBackend;
use muxr_core::herdr::paths::{
    default_config_dir, derive_wire_socket_path, resolve_api_socket_path,
    resolve_api_socket_path_inner, HerdrEnv, HerdrSocketPaths,
};

#[test]
fn api_socket_uses_env_override_when_set() {
    let path = resolve_api_socket_path_inner(
        Some("/run/user/1000/herdr-custom.sock"),
        "/home/u/.config/herdr",
    );
    assert_eq!(path, "/run/user/1000/herdr-custom.sock");
}

#[test]
fn api_socket_falls_back_to_config_dir_default() {
    let path = resolve_api_socket_path_inner(None, "/home/u/.config/herdr");
    assert_eq!(path, "/home/u/.config/herdr/herdr.sock");
}

#[test]
fn empty_env_override_is_ignored() {
    let path = resolve_api_socket_path_inner(Some(""), "/home/u/.config/herdr");
    assert_eq!(path, "/home/u/.config/herdr/herdr.sock");
}

#[test]
fn wire_socket_derived_from_dot_sock_api_path() {
    let wire = derive_wire_socket_path("/home/u/.config/herdr/herdr.sock");
    assert_eq!(wire, "/home/u/.config/herdr/herdr-client.sock");
}

#[test]
fn wire_socket_derived_from_custom_override_path() {
    let wire = derive_wire_socket_path("/run/user/1000/herdr-custom.sock");
    assert_eq!(wire, "/run/user/1000/herdr-custom-client.sock");
}

#[test]
fn wire_socket_derived_when_api_has_no_sock_extension() {
    let wire = derive_wire_socket_path("/tmp/custom-api");
    assert_eq!(wire, "/tmp/custom-api-client.sock");
}

#[test]
fn socket_pair_from_api_socket_derives_wire_sibling() {
    let pair = HerdrSocketPaths::from_api_socket("/srv/herdr/herdr.sock");
    assert_eq!(pair.api, "/srv/herdr/herdr.sock");
    assert_eq!(pair.wire, "/srv/herdr/herdr-client.sock");
}

fn env(
    socket_path: Option<&str>,
    xdg: Option<&str>,
    home: Option<&str>,
) -> HerdrEnv {
    HerdrEnv {
        socket_path: socket_path.map(|s| s.to_string()),
        xdg_config_home: xdg.map(|s| s.to_string()),
        home: home.map(|s| s.to_string()),
        temp_dir: "/tmp".to_string(),
    }
}

#[test]
fn config_dir_prefers_xdg_then_home_then_temp() {
    assert_eq!(default_config_dir(&env(None, Some("/x"), Some("/h"))), "/x/herdr");
    assert_eq!(default_config_dir(&env(None, Some(""), Some("/h"))), "/h/.config/herdr");
    assert_eq!(default_config_dir(&env(None, None, None)), "/tmp/herdr");
}

#[test]
fn resolved_pair_follows_the_environment() {
    let e = env(None, None, Some("/home/u"));
    assert_eq!(resolve_api_socket_path(&e), "/home/u/.config/herdr/herdr.sock");
    let pair = HerdrSocketPaths::resolve(&env(Some("/run/h.sock"), None, Some("/home/u")));
    assert_eq!(pair.api, "/run/h.sock");
    assert_eq!(pair.wire, "/run/h-client.sock");
    let b = HerdrBackend::from_env(&e);
    assert_eq!(b.paths().wire, "/home/u/.config/herdr/herdr-client.sock");
}
