use simple_cd::command::{
    clone_command, compose_down, compose_up, image_removal, substitution_script,
};

fn strings(items: &[&str]) -> Vec<String> {
    items.iter().map(|s| s.to_string()).collect()
}

#[test]
fn clone_command_is_git_clone() {
    let c = clone_command("https://example/repo.git", "/co/api-1");
    assert_eq!(c.program, "git");
    assert_eq!(c.args, strings(&["clone", "https://example/repo.git", "/co/api-1"]));
}

#[test]
fn compose_down_names_the_file() {
    let c = compose_down("/s/api-1/docker-compose.yaml");
    assert_eq!(c.program, "docker");
    assert_eq!(c.args, strings(&["compose", "-f", "/s/api-1/docker-compose.yaml", "down"]));
}

#[test]
fn compose_up_is_detached() {
    let c = compose_up("/s/api-1/docker-compose.yml");
    assert_eq!(c.program, "docker");
    assert_eq!(c.args, strings(&["compose", "-f", "/s/api-1/docker-compose.yml", "up", "-d"]));
}

#[test]
fn image_removal_lists_every_image_then_forces() {
    let c = image_removal(&strings(&["myimg:old", "other:1"]));
    assert_eq!(c.program, "docker");
    assert_eq!(c.args, strings(&["image", "rm", "myimg:old", "other:1", "--force"]));
}

#[test]
fn image_removal_of_one_image() {
    let c = image_removal(&strings(&["myimg:old"]));
    assert_eq!(c.args, strings(&["image", "rm", "myimg:old", "--force"]));
}

#[test]
fn image_removal_of_no_image() {
    let c = image_removal(&Vec::new());
    assert_eq!(c.program, "docker");
    assert_eq!(c.args, strings(&["image", "rm", "--force"]));
}

#[test]
fn substitution_script_redirects_through_envsubst() {
    assert_eq!(
        substitution_script("/s/api-1/app.env.template", "/s/api-1/app.env"),
        "envsubst < /s/api-1/app.env.template > /s/api-1/app.env"
    );
}
