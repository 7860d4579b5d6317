use app_forge_kit::config::provider::ResolvedPath;
use app_forge_kit::config::Provider;

#[test]
fn default_path_is_relative() {
    match Provider::new().resolve_path() {
        ResolvedPath::Canonicalize(p) => assert_eq!(p, "./config.toml"),
        ResolvedPath::AsIs(_) => panic!("./config.toml is relative"),
    }
    match Provider::default().resolve_path() {
        ResolvedPath::Canonicalize(p) => assert_eq!(p, "./config.toml"),
        ResolvedPath::AsIs(_) => panic!("./config.toml is relative"),
    }
}

#[test]
fn absolute_path_is_kept() {
    match Provider::new().with_path("/etc/service.toml").resolve_path() {
        ResolvedPath::AsIs(p) => assert_eq!(p, "/etc/service.toml"),
        ResolvedPath::Canonicalize(_) => panic!("absolute"),
    }
    match Provider::new().with_path("conf/x.toml").resolve_path() {
        ResolvedPath::Canonicalize(p) => assert_eq!(p, "conf/x.toml"),
        ResolvedPath::AsIs(_) => panic!("relative"),
    }
}
