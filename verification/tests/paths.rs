use simple_cd::paths::{
    child_path, config_root, is_compose_descriptor, is_template, render_target, Layout,
};

#[test]
fn standard_layout_has_the_fixed_roots() {
    let layout = Layout::standard();
    assert_eq!(layout.checkouts, "/etc/simple-cd/checkouts");
    assert_eq!(layout.staging, "/etc/simple-cd/conf");
}

#[test]
fn directories_are_keyed_by_identity() {
    let layout = Layout::standard();
    assert_eq!(layout.checkout_dir("api-42"), "/etc/simple-cd/checkouts/api-42");
    assert_eq!(layout.staging_dir("api-42"), "/etc/simple-cd/conf/api-42");
    let other = Layout { checkouts: "/tmp/c".to_string(), staging: "/tmp/s".to_string() };
    assert_eq!(other.checkout_dir("x-1"), "/tmp/c/x-1");
    assert_eq!(other.staging_dir("x-1"), "/tmp/s/x-1");
}

#[test]
fn child_path_joins_with_one_separator() {
    assert_eq!(child_path("/a/b", "c"), "/a/b/c");
    assert_eq!(child_path("", "c"), "/c");
    assert_eq!(child_path("/a", ""), "/a/");
}

#[test]
fn config_root_is_conf_under_the_checkout() {
    assert_eq!(config_root("/co/api-1", &None), "/co/api-1/conf");
}

#[test]
fn config_root_is_conf_under_the_subdirectory() {
    assert_eq!(config_root("/co/api-1", &Some("deploy".to_string())), "/co/api-1/deploy/conf");
    assert_eq!(config_root("/co/api-1", &Some("a/b".to_string())), "/co/api-1/a/b/conf");
    assert_eq!(config_root("/co/api-1", &Some("".to_string())), "/co/api-1//conf");
}

#[test]
fn compose_descriptors_are_known_by_the_end_of_the_path() {
    assert!(is_compose_descriptor("/s/api-1/docker-compose.yaml"));
    assert!(is_compose_descriptor("/s/api-1/docker-compose.yml"));
    assert!(is_compose_descriptor("docker-compose.yml"));
    assert!(is_compose_descriptor("/s/api-1/sub/docker-compose.yaml"));
    assert!(!is_compose_descriptor("/s/api-1/docker-compose.yaml.template"));
    assert!(!is_compose_descriptor("/s/api-1/docker-compose.json"));
    assert!(!is_compose_descriptor("/s/api-1/compose.yaml"));
    assert!(!is_compose_descriptor(""));
}

#[test]
fn templates_are_known_by_their_marker() {
    assert!(is_template("/s/api-1/app.env.template"));
    assert!(is_template(".template"));
    assert!(!is_template("/s/api-1/app.env"));
    assert!(!is_template("/s/api-1/app.template.env"));
    assert!(!is_template(""));
}

#[test]
fn render_target_strips_the_marker() {
    assert_eq!(render_target("/s/api-1/app.env.template"), Some("/s/api-1/app.env".to_string()));
    assert_eq!(render_target(".template"), Some("".to_string()));
}

#[test]
fn render_target_strips_the_marker_at_the_end_only() {
    assert_eq!(
        render_target("/s/x.template.d/app.template"),
        Some("/s/x.template.d/app".to_string())
    );
    assert_eq!(render_target("/s/a.template.template"), Some("/s/a.template".to_string()));
}

#[test]
fn render_target_is_none_for_other_files() {
    assert_eq!(render_target("/s/api-1/app.env"), None);
    assert_eq!(render_target("/s/api-1/docker-compose.yaml"), None);
    assert_eq!(render_target(""), None);
}
