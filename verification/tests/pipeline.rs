use simple_cd::error::DeployError;
use simple_cd::identity::get_project_name;
use simple_cd::paths::Layout;
use simple_cd::pipeline::{Action, Awaiting, Deployment, Event};
use simple_cd::request::DeployRequest;
use simple_cd::walk::Listed;
use std::collections::BTreeMap;

/// A host made of a map from paths to files (`Some(content)`) and
/// directories (`None`), which records what it was asked to do.
struct Host {
    files: BTreeMap<String, Option<String>>,
    repository: Vec<(String, String)>,
    log: Vec<String>,
    failing: Vec<String>,
}

impl Host {
    fn new(repository: &[(&str, &str)]) -> Host {
        Host {
            files: BTreeMap::new(),
            repository: repository.iter().map(|(p, c)| (p.to_string(), c.to_string())).collect(),
            log: Vec::new(),
            failing: Vec::new(),
        }
    }

    fn failing_on(mut self, prefix: &str) -> Host {
        self.failing.push(prefix.to_string());
        self
    }

    fn make_dirs(&mut self, path: &str) {
        let mut at = String::new();
        for segment in path.split('/').skip(1) {
            at.push('/');
            at.push_str(segment);
            self.files.entry(at.clone()).or_insert(None);
        }
    }

    fn write(&mut self, path: &str, content: &str) {
        if let Some(at) = path.rfind('/') {
            self.make_dirs(&path[..at]);
        }
        self.files.insert(path.to_string(), Some(content.to_string()));
    }

    fn is_dir(&self, path: &str) -> bool {
        matches!(self.files.get(path), Some(None))
    }

    fn list(&self, dir: &str) -> Vec<Listed> {
        let prefix = format!("{}/", dir);
        let mut listing = Vec::new();
        for (path, node) in &self.files {
            if let Some(name) = path.strip_prefix(&prefix) {
                if !name.contains('/') {
                    listing.push(Listed { name: name.to_string(), is_dir: node.is_none() });
                }
            }
        }
        listing
    }

    fn names(&self, dir: &str) -> Vec<String> {
        self.list(dir).into_iter().map(|l| l.name).collect()
    }

    fn perform(&mut self, action: &Action) -> Event {
        let line = match action {
            Action::Run(c) => format!("{} {}", c.program, c.args.join(" ")),
            Action::Shell(s) => format!("sh {}", s),
            Action::CreateDirectory(d) => format!("mkdir {}", d),
            Action::List(d) => format!("ls {}", d),
            Action::Copy { from, to } => format!("cp {} {}", from, to),
            Action::RemoveFile(f) => format!("rm {}", f),
            Action::RemoveTree(d) => format!("rmtree {}", d),
            Action::Succeed(_) | Action::Fail(_) | Action::Idle => {
                panic!("nothing to perform")
            }
        };
        self.log.push(line.clone());
        if self.failing.iter().any(|p| line.starts_with(p.as_str())) {
            return Event::Failed;
        }
        match action {
            Action::Run(c) if c.program == "git" => {
                let dest = c.args[2].clone();
                self.make_dirs(&dest);
                for (path, content) in self.repository.clone() {
                    self.write(&format!("{}/{}", dest, path), &content);
                }
                Event::Succeeded
            }
            Action::Run(_) => Event::Succeeded,
            Action::Shell(s) => {
                let rest = s.strip_prefix("envsubst < ").unwrap();
                let (input, output) = rest.split_once(" > ").unwrap();
                match self.files.get(input).cloned() {
                    Some(Some(content)) => {
                        self.write(output, &content.replace("$GREETING", "hello"));
                        Event::Succeeded
                    }
                    _ => Event::Failed,
                }
            }
            Action::CreateDirectory(d) => {
                self.make_dirs(d);
                Event::Succeeded
            }
            Action::List(d) => {
                if self.is_dir(d) {
                    Event::Listing(self.list(d))
                } else {
                    Event::Missing
                }
            }
            Action::Copy { from, to } => match self.files.get(from).cloned() {
                Some(Some(content)) => {
                    self.write(to, &content);
                    Event::Succeeded
                }
                _ => Event::Failed,
            },
            Action::RemoveFile(f) => match self.files.remove(f) {
                Some(Some(_)) => Event::Succeeded,
                _ => Event::Failed,
            },
            Action::RemoveTree(d) => {
                if !self.is_dir(d) {
                    return Event::Failed;
                }
                let prefix = format!("{}/", d);
                self.files.retain(|p, _| p != d && !p.starts_with(&prefix));
                Event::Succeeded
            }
            Action::Succeed(_) | Action::Fail(_) | Action::Idle => Event::Failed,
        }
    }

    fn deploy(&mut self, request: &DeployRequest, secret: &str) -> Result<String, DeployError> {
        let (mut deployment, mut action) = Deployment::begin(request, secret, &layout());
        for _ in 0..10000 {
            match action {
                Action::Succeed(confirmation) => {
                    assert!(deployment.is_over());
                    return Ok(confirmation);
                }
                Action::Fail(error) => {
                    assert!(deployment.is_over());
                    return Err(error);
                }
                Action::Idle => panic!("idle before an answer"),
                other => {
                    let event = self.perform(&other);
                    action = deployment.advance(event);
                }
            }
        }
        panic!("the deployment does not end")
    }

    fn position(&self, prefix: &str) -> Option<usize> {
        self.log.iter().position(|l| l.starts_with(prefix))
    }

    fn count(&self, prefix: &str) -> usize {
        self.log.iter().filter(|l| l.starts_with(prefix)).count()
    }
}

fn layout() -> Layout {
    Layout { checkouts: "/cd/checkouts".to_string(), staging: "/cd/conf".to_string() }
}

fn request(token: &str) -> DeployRequest {
    DeployRequest {
        giturl: "https://example/repo.git".to_string(),
        name: "api".to_string(),
        downdir: None,
        token: token.to_string(),
        invalidate_images: None,
    }
}

fn api_repository() -> Vec<(&'static str, &'static str)> {
    vec![
        ("conf/docker-compose.yaml", "services: {}"),
        ("conf/app.env.template", "GREETING=$GREETING"),
        ("README", "read me"),
    ]
}

fn sorted(mut v: Vec<String>) -> Vec<String> {
    v.sort();
    v
}

#[test]
fn deploy_stages_renders_and_starts() {
    let mut host = Host::new(&api_repository());
    let r = request("T");
    let id = get_project_name(&r);
    let staging = format!("/cd/conf/{}", id);
    let checkout = format!("/cd/checkouts/{}", id);
    let answer = host.deploy(&r, "T");
    assert_eq!(answer.ok(), Some(format!("Successfully started deployed project: {}", id)));
    assert_eq!(
        sorted(host.names(&staging)),
        vec!["app.env".to_string(), "docker-compose.yaml".to_string()]
    );
    assert_eq!(
        host.files.get(&format!("{}/app.env", staging)),
        Some(&Some("GREETING=hello".to_string()))
    );
    assert_eq!(host.count(&format!("docker compose -f {}/docker-compose.yaml up -d", staging)), 1);
    assert_eq!(host.count("docker compose"), 1);
    assert!(!host.files.contains_key(&checkout));
    assert!(host.files.keys().all(|p| !p.starts_with(&checkout)));
}

#[test]
fn deploy_asks_for_each_step_in_order() {
    let mut host = Host::new(&[("conf/docker-compose.yaml", "services: {}")]);
    let r = request("T");
    let id = get_project_name(&r);
    let s = format!("/cd/conf/{}", id);
    let c = format!("/cd/checkouts/{}", id);
    assert!(host.deploy(&r, "T").is_ok());
    let expected = vec![
        format!("git clone https://example/repo.git {}", c),
        format!("mkdir {}", s),
        format!("ls {}", s),
        format!("ls {}/conf", c),
        format!("cp {}/conf/docker-compose.yaml {}/docker-compose.yaml", c, s),
        format!("ls {}", s),
        format!("ls {}", s),
        format!("docker compose -f {}/docker-compose.yaml up -d", s),
        format!("rmtree {}", c),
    ];
    assert_eq!(host.log, expected);
}

#[test]
fn wrong_token_is_rejected_before_any_action() {
    let mut host = Host::new(&api_repository());
    let answer = host.deploy(&request("wrong"), "T");
    assert!(matches!(answer, Err(DeployError::Unauthorized)));
    assert!(host.log.is_empty());
    assert!(host.files.is_empty());
}

#[test]
fn rejected_deployment_stays_idle() {
    let (mut deployment, action) = Deployment::begin(&request("wrong"), "T", &layout());
    assert!(matches!(action, Action::Fail(DeployError::Unauthorized)));
    assert!(deployment.is_over());
    assert!(matches!(deployment.advance(Event::Succeeded), Action::Idle));
    assert!(matches!(deployment.advance(Event::Listing(Vec::new())), Action::Idle));
    assert!(matches!(deployment.advance(Event::Failed), Action::Idle));
    assert!(deployment.is_over());
}

#[test]
fn token_is_compared_exactly() {
    let mut host = Host::new(&api_repository());
    assert!(matches!(host.deploy(&request("t"), "T"), Err(DeployError::Unauthorized)));
    assert!(matches!(host.deploy(&request("T "), "T"), Err(DeployError::Unauthorized)));
    assert!(matches!(host.deploy(&request(""), "T"), Err(DeployError::Unauthorized)));
    assert!(host.log.is_empty());
    assert!(host.deploy(&request(""), "").is_ok());
}

#[test]
fn images_are_removed_by_force_before_the_start() {
    let mut host = Host::new(&api_repository());
    let mut r = request("T");
    r.invalidate_images = Some(vec!["myimg:old".to_string()]);
    assert!(host.deploy(&r, "T").is_ok());
    let removal = host.position("docker image rm myimg:old --force").unwrap();
    let start = host.position("docker compose -f").unwrap();
    assert!(host.log[start].ends_with(" up -d"));
    assert!(removal < start);
    assert_eq!(host.count("docker image rm"), 1);
}

#[test]
fn images_are_removed_after_the_old_instance_is_stopped() {
    let mut host = Host::new(&api_repository());
    let mut r = request("T");
    r.invalidate_images = Some(vec!["myimg:old".to_string(), "b:2".to_string()]);
    assert!(host.deploy(&r, "T").is_ok());
    host.log.clear();
    assert!(host.deploy(&r, "T").is_ok());
    let id = get_project_name(&r);
    let down =
        host.position(&format!("docker compose -f /cd/conf/{}/docker-compose.yaml down", id)).unwrap();
    let removal = host.position("docker image rm myimg:old b:2 --force").unwrap();
    let up =
        host.position(&format!("docker compose -f /cd/conf/{}/docker-compose.yaml up -d", id)).unwrap();
    assert!(down < removal);
    assert!(removal < up);
}

#[test]
fn failed_image_removal_starts_nothing() {
    let mut host = Host::new(&api_repository()).failing_on("docker image rm");
    let mut r = request("T");
    r.invalidate_images = Some(vec!["myimg:old".to_string()]);
    match host.deploy(&r, "T") {
        Err(DeployError::ImageInvalidation { images }) => {
            assert_eq!(images, vec!["myimg:old".to_string()])
        }
        _ => panic!("the removal failed and the deployment did not say so"),
    }
    assert_eq!(host.count("docker compose"), 0);
    assert_eq!(host.count("rmtree"), 0);
}

#[test]
fn no_image_removal_without_a_list() {
    let mut host = Host::new(&api_repository());
    assert!(host.deploy(&request("T"), "T").is_ok());
    assert_eq!(host.count("docker image"), 0);
}

#[test]
fn empty_image_list_is_still_removed() {
    let mut host = Host::new(&api_repository());
    let mut r = request("T");
    r.invalidate_images = Some(Vec::new());
    assert!(host.deploy(&r, "T").is_ok());
    assert_eq!(host.count("docker image rm --force"), 1);
}

#[test]
fn redeploy_leaves_rendered_files_only() {
    let mut host = Host::new(&api_repository());
    let r = request("T");
    let staging = format!("/cd/conf/{}", get_project_name(&r));
    for _ in 0..3 {
        assert!(host.deploy(&r, "T").is_ok());
        assert_eq!(
            sorted(host.names(&staging)),
            vec!["app.env".to_string(), "docker-compose.yaml".to_string()]
        );
        assert!(host.files.keys().all(|p| !p.ends_with(".template")));
    }
}

#[test]
fn redeploy_stops_what_was_staged() {
    let mut host = Host::new(&api_repository());
    let r = request("T");
    let staging = format!("/cd/conf/{}", get_project_name(&r));
    assert!(host.deploy(&r, "T").is_ok());
    assert_eq!(host.count("docker compose"), 1);
    host.log.clear();
    assert!(host.deploy(&r, "T").is_ok());
    let down = host.position(&format!("docker compose -f {}/docker-compose.yaml down", staging));
    let copy = host.position("cp ");
    let up = host.position(&format!("docker compose -f {}/docker-compose.yaml up -d", staging));
    assert!(down.is_some() && copy.is_some() && up.is_some());
    assert!(down < copy);
    assert!(copy < up);
    assert_eq!(host.count("docker compose"), 2);
}

#[test]
fn first_deploy_stops_nothing() {
    let mut host = Host::new(&api_repository());
    assert!(host.deploy(&request("T"), "T").is_ok());
    assert_eq!(host.log.iter().filter(|l| l.ends_with(" down")).count(), 0);
}

#[test]
fn stop_walk_over_a_missing_directory_takes_no_action() {
    let (mut deployment, _) = Deployment::begin(&request("T"), "T", &layout());
    let id = get_project_name(&request("T"));
    assert!(matches!(deployment.advance(Event::Succeeded), Action::CreateDirectory(_)));
    match deployment.advance(Event::Succeeded) {
        Action::List(d) => assert_eq!(d, format!("/cd/conf/{}", id)),
        _ => panic!("the stop walk did not begin"),
    }
    match deployment.advance(Event::Missing) {
        Action::List(d) => assert_eq!(d, format!("/cd/checkouts/{}/conf", id)),
        _ => panic!("the walk over a missing directory did not end at once"),
    }
    assert!(matches!(deployment.awaiting, Awaiting::Source));
}

#[test]
fn nested_source_files_are_not_staged() {
    let mut host = Host::new(&[
        ("conf/docker-compose.yaml", "services: {}"),
        ("conf/top.txt", "top"),
        ("other/elsewhere.txt", "x"),
    ]);
    let r = request("T");
    let id = get_project_name(&r);
    assert!(host.deploy(&r, "T").is_ok());
    assert_eq!(
        sorted(host.names(&format!("/cd/conf/{}", id))),
        vec!["docker-compose.yaml".to_string(), "top.txt".to_string()]
    );
    assert_eq!(host.count("cp "), 2);
}

#[test]
fn nested_source_directory_is_passed_over() {
    let mut host = Host::new(&[
        ("conf/a.txt", "a"),
        ("conf/nested/inner.txt", "inner"),
        ("conf/z.txt", "z"),
    ]);
    let r = request("T");
    let id = get_project_name(&r);
    assert!(host.deploy(&r, "T").is_ok());
    let staging = format!("/cd/conf/{}", id);
    assert_eq!(sorted(host.names(&staging)), vec!["a.txt".to_string(), "z.txt".to_string()]);
    assert!(host.files.keys().all(|p| !p.starts_with(&staging) || !p.ends_with("inner.txt")));
    assert!(!host.files.contains_key(&format!("{}/nested", staging)));
    assert_eq!(host.count("cp "), 2);
    assert_eq!(host.count(&format!("cp /cd/checkouts/{}/conf/nested", id)), 0);
    assert_eq!(host.count(&format!("ls /cd/checkouts/{}/conf/nested", id)), 0);
}

#[test]
fn only_the_immediate_files_of_the_config_root_are_copied() {
    let mut host = Host::new(&[("conf/a.yaml", "a"), ("conf/nested/b.yaml", "b")]);
    let r = request("T");
    let staging = format!("/cd/conf/{}", get_project_name(&r));
    assert!(host.deploy(&r, "T").is_ok());
    assert!(host.files.contains_key(&format!("{}/a.yaml", staging)));
    assert!(!host.files.contains_key(&format!("{}/nested", staging)));
    assert!(!host.files.contains_key(&format!("{}/nested/b.yaml", staging)));
    assert!(!host.files.contains_key(&format!("{}/b.yaml", staging)));
    assert_eq!(host.names(&staging), vec!["a.yaml".to_string()]);
}

#[test]
fn config_root_of_directories_only_stages_nothing() {
    let mut host = Host::new(&[("conf/one/x.txt", "x"), ("conf/two/y.txt", "y")]);
    let r = request("T");
    let staging = format!("/cd/conf/{}", get_project_name(&r));
    assert!(host.deploy(&r, "T").is_ok());
    assert!(host.names(&staging).is_empty());
    assert_eq!(host.count("cp "), 0);
}

#[test]
fn source_listing_with_a_directory_first_copies_the_files_in_order() {
    let listed = |name: &str, is_dir: bool| Listed { name: name.to_string(), is_dir };
    let (mut deployment, _) = Deployment::begin(&request("T"), "T", &layout());
    let id = get_project_name(&request("T"));
    deployment.advance(Event::Succeeded);
    deployment.advance(Event::Succeeded);
    deployment.advance(Event::Missing);
    assert!(matches!(deployment.awaiting, Awaiting::Source));
    let listing = vec![listed("d", true), listed("b", false), listed("e", true), listed("a", false)];
    match deployment.advance(Event::Listing(listing)) {
        Action::Copy { from, to } => {
            assert_eq!(from, format!("/cd/checkouts/{}/conf/b", id));
            assert_eq!(to, format!("/cd/conf/{}/b", id));
        }
        _ => panic!("the first file was not copied"),
    }
    assert_eq!(deployment.copies, vec!["a".to_string()]);
    match deployment.advance(Event::Succeeded) {
        Action::Copy { from, to } => {
            assert_eq!(from, format!("/cd/checkouts/{}/conf/a", id));
            assert_eq!(to, format!("/cd/conf/{}/a", id));
        }
        _ => panic!("the second file was not copied"),
    }
    match deployment.advance(Event::Succeeded) {
        Action::List(d) => assert_eq!(d, format!("/cd/conf/{}", id)),
        _ => panic!("the rendering did not begin"),
    }
}

#[test]
fn subdirectory_selects_the_config_root() {
    let mut host = Host::new(&[
        ("conf/docker-compose.yaml", "root"),
        ("svc/conf/docker-compose.yml", "svc"),
    ]);
    let mut r = request("T");
    r.downdir = Some("svc".to_string());
    let id = get_project_name(&r);
    assert!(host.deploy(&r, "T").is_ok());
    let staging = format!("/cd/conf/{}", id);
    assert_eq!(host.names(&staging), vec!["docker-compose.yml".to_string()]);
    assert_eq!(host.count(&format!("docker compose -f {}/docker-compose.yml up -d", staging)), 1);
}

#[test]
fn templates_in_staged_subdirectories_are_rendered() {
    let mut host = Host::new(&[("conf/docker-compose.yaml", "services: {}")]);
    let r = request("T");
    let staging = format!("/cd/conf/{}", get_project_name(&r));
    host.write(&format!("{}/sub/deep/x.conf.template", staging), "v=$GREETING");
    host.write(&format!("{}/sub/docker-compose.yml", staging), "services: {}");
    assert!(host.deploy(&r, "T").is_ok());
    assert_eq!(
        host.files.get(&format!("{}/sub/deep/x.conf", staging)),
        Some(&Some("v=hello".to_string()))
    );
    assert!(!host.files.contains_key(&format!("{}/sub/deep/x.conf.template", staging)));
    assert_eq!(host.count(&format!("docker compose -f {}/sub/docker-compose.yml down", staging)), 1);
    assert_eq!(host.count(&format!("docker compose -f {}/sub/docker-compose.yml up -d", staging)), 1);
    assert_eq!(host.log.iter().filter(|l| l.ends_with(" up -d")).count(), 2);
}

#[test]
fn failed_clone_ends_the_deployment() {
    let mut host = Host::new(&api_repository()).failing_on("git clone");
    match host.deploy(&request("T"), "T") {
        Err(DeployError::Clone { giturl }) => assert_eq!(giturl, "https://example/repo.git"),
        _ => panic!("the clone failed and the deployment did not say so"),
    }
    assert_eq!(host.log.len(), 1);
}

#[test]
fn failed_staging_directory_ends_the_deployment() {
    let mut host = Host::new(&api_repository()).failing_on("mkdir");
    let r = request("T");
    match host.deploy(&r, "T") {
        Err(DeployError::Copy { file }) => {
            assert_eq!(file, format!("/cd/conf/{}", get_project_name(&r)))
        }
        _ => panic!("the staging directory failed and the deployment did not say so"),
    }
    assert_eq!(host.log.len(), 2);
}

#[test]
fn missing_config_root_ends_the_deployment() {
    let mut host = Host::new(&[("README", "no conf here")]);
    let r = request("T");
    match host.deploy(&r, "T") {
        Err(DeployError::Copy { file }) => {
            assert_eq!(file, format!("/cd/checkouts/{}/conf", get_project_name(&r)))
        }
        _ => panic!("a missing config root was staged"),
    }
    assert_eq!(host.count("docker"), 0);
}

#[test]
fn failed_enumeration_ends_the_deployment() {
    let r = request("T");
    let staging = format!("/cd/conf/{}", get_project_name(&r));
    let mut host = Host::new(&api_repository()).failing_on(&format!("ls {}/locked", staging));
    host.write(&format!("{}/locked/docker-compose.yaml", staging), "services: {}");
    match host.deploy(&r, "T") {
        Err(DeployError::Traversal { directory }) => {
            assert_eq!(directory, format!("{}/locked", staging))
        }
        _ => panic!("the enumeration failed and the deployment did not say so"),
    }
    assert_eq!(host.count("cp "), 0);
}

#[test]
fn failed_copy_names_the_file_and_keeps_earlier_copies() {
    let r = request("T");
    let id = get_project_name(&r);
    let mut host = Host::new(&[("conf/a.txt", "a"), ("conf/b.txt", "b"), ("conf/c.txt", "c")])
        .failing_on(&format!("cp /cd/checkouts/{}/conf/b.txt", id));
    match host.deploy(&r, "T") {
        Err(DeployError::Copy { file }) => {
            assert_eq!(file, format!("/cd/checkouts/{}/conf/b.txt", id))
        }
        _ => panic!("the copy failed and the deployment did not say so"),
    }
    assert_eq!(host.names(&format!("/cd/conf/{}", id)), vec!["a.txt".to_string()]);
    assert_eq!(host.count("cp "), 2);
}

#[test]
fn failed_substitution_names_the_template_and_starts_nothing() {
    let mut host = Host::new(&api_repository()).failing_on("sh envsubst");
    let r = request("T");
    let staging = format!("/cd/conf/{}", get_project_name(&r));
    match host.deploy(&r, "T") {
        Err(DeployError::Substitution { file }) => {
            assert_eq!(file, format!("{}/app.env.template", staging))
        }
        _ => panic!("the rendering failed and the deployment did not say so"),
    }
    assert_eq!(host.count("docker"), 0);
    assert!(host.files.contains_key(&format!("{}/app.env.template", staging)));
}

#[test]
fn failed_template_removal_leaves_both_files() {
    let mut host = Host::new(&api_repository()).failing_on("rm ");
    let r = request("T");
    let staging = format!("/cd/conf/{}", get_project_name(&r));
    match host.deploy(&r, "T") {
        Err(DeployError::Removal { file }) => {
            assert_eq!(file, format!("{}/app.env.template", staging))
        }
        _ => panic!("the removal failed and the deployment did not say so"),
    }
    assert!(host.files.contains_key(&format!("{}/app.env.template", staging)));
    assert!(host.files.contains_key(&format!("{}/app.env", staging)));
    assert_eq!(host.count("docker"), 0);
}

#[test]
fn failed_cleanup_fails_the_request_after_the_start() {
    let mut host = Host::new(&api_repository()).failing_on("rmtree");
    let r = request("T");
    let id = get_project_name(&r);
    match host.deploy(&r, "T") {
        Err(DeployError::Cleanup { directory }) => {
            assert_eq!(directory, format!("/cd/checkouts/{}", id))
        }
        _ => panic!("the cleanup failed and the deployment did not say so"),
    }
    assert_eq!(host.log.iter().filter(|l| l.ends_with(" up -d")).count(), 1);
    assert!(host.files.contains_key(&format!("/cd/checkouts/{}", id)));
}

#[test]
fn failed_bring_down_ends_the_deployment() {
    let mut host = Host::new(&api_repository());
    let r = request("T");
    let staging = format!("/cd/conf/{}", get_project_name(&r));
    assert!(host.deploy(&r, "T").is_ok());
    let mut host = Host { failing: vec!["docker compose".to_string()], ..host };
    host.log.clear();
    match host.deploy(&r, "T") {
        Err(DeployError::Stop { file }) => {
            assert_eq!(file, format!("{}/docker-compose.yaml", staging))
        }
        _ => panic!("the bring-down failed and the deployment did not say so"),
    }
    assert_eq!(host.count("docker compose"), 1);
    assert_eq!(host.count("cp "), 0);
    assert_eq!(host.count("rmtree"), 0);
}

#[test]
fn failed_bring_up_ends_the_deployment_without_a_confirmation() {
    let mut host = Host::new(&api_repository()).failing_on("docker compose");
    let r = request("T");
    let staging = format!("/cd/conf/{}", get_project_name(&r));
    match host.deploy(&r, "T") {
        Err(DeployError::Start { file }) => {
            assert_eq!(file, format!("{}/docker-compose.yaml", staging))
        }
        _ => panic!("the bring-up failed and the deployment did not say so"),
    }
    assert_eq!(host.log.iter().filter(|l| l.ends_with(" up -d")).count(), 1);
    assert_eq!(host.count("rmtree"), 0);
}

#[test]
fn bring_up_answered_with_failure_is_never_confirmed() {
    let listed = |name: &str| Listed { name: name.to_string(), is_dir: false };
    let (mut deployment, _) = Deployment::begin(&request("T"), "T", &layout());
    deployment.advance(Event::Succeeded);
    deployment.advance(Event::Succeeded);
    deployment.advance(Event::Missing);
    deployment.advance(Event::Listing(Vec::new()));
    deployment.advance(Event::Listing(Vec::new()));
    match deployment.advance(Event::Listing(vec![listed("docker-compose.yml")])) {
        Action::Run(c) => assert_eq!(c.args.last().map(|a| a.as_str()), Some("-d")),
        _ => panic!("the descriptor was not brought up"),
    }
    assert!(matches!(deployment.awaiting, Awaiting::Starting { .. }));
    assert!(matches!(deployment.advance(Event::Failed), Action::Fail(DeployError::Start { .. })));
    assert!(deployment.is_over());
    assert!(matches!(deployment.advance(Event::Succeeded), Action::Idle));
}

#[test]
fn two_projects_with_one_name_are_staged_apart() {
    let mut host = Host::new(&api_repository());
    let a = request("T");
    let mut b = request("T");
    b.giturl = "https://example/other.git".to_string();
    assert!(host.deploy(&a, "T").is_ok());
    assert!(host.deploy(&b, "T").is_ok());
    let ida = get_project_name(&a);
    let idb = get_project_name(&b);
    assert_ne!(ida, idb);
    assert!(host.is_dir(&format!("/cd/conf/{}", ida)));
    assert!(host.is_dir(&format!("/cd/conf/{}", idb)));
    assert_eq!(host.log.iter().filter(|l| l.ends_with(" down")).count(), 0);
}

#[test]
fn begin_as_uses_the_given_identity() {
    let (deployment, action) =
        Deployment::begin_as(&request("T"), "T", &Layout::standard(), "api-7".to_string());
    match action {
        Action::Run(c) => {
            assert_eq!(c.program, "git");
            assert_eq!(
                c.args,
                vec![
                    "clone".to_string(),
                    "https://example/repo.git".to_string(),
                    "/etc/simple-cd/checkouts/api-7".to_string()
                ]
            );
        }
        _ => panic!("the deployment did not begin with the clone"),
    }
    assert!(!deployment.is_over());
    assert_eq!(deployment.plan.identity, "api-7");
    assert_eq!(deployment.plan.checkout, "/etc/simple-cd/checkouts/api-7");
    assert_eq!(deployment.plan.staging, "/etc/simple-cd/conf/api-7");
    assert_eq!(deployment.plan.source, "/etc/simple-cd/checkouts/api-7/conf");
    assert_eq!(deployment.plan.giturl, "https://example/repo.git");
    assert_eq!(deployment.plan.images, None);
}

#[test]
fn doubly_marked_template_is_rendered_once() {
    let mut host = Host::new(&[("conf/a.template.template", "v=$GREETING")]);
    let r = request("T");
    let staging = format!("/cd/conf/{}", get_project_name(&r));
    assert!(host.deploy(&r, "T").is_ok());
    assert_eq!(host.names(&staging), vec!["a.template".to_string()]);
    assert_eq!(host.count("sh envsubst"), 1);
    assert_eq!(
        host.log.iter().filter(|l| l.starts_with("sh ")).cloned().collect::<Vec<String>>(),
        vec![format!("sh envsubst < {0}/a.template.template > {0}/a.template", staging)]
    );
}

#[test]
fn second_render_walk_renders_nothing() {
    let mut host = Host::new(&[("conf/docker-compose.yaml", "services: {}")]);
    let r = request("T");
    let staging = format!("/cd/conf/{}", get_project_name(&r));
    host.write(&format!("{}/sub/x.conf.template", staging), "v=$GREETING");
    assert!(host.deploy(&r, "T").is_ok());
    assert_eq!(host.count("sh envsubst"), 1);
    let before = host.files.clone();
    host.log.clear();
    assert!(host.deploy(&r, "T").is_ok());
    assert_eq!(host.count("sh envsubst"), 0);
    assert_eq!(host.count("rm "), 0);
    assert_eq!(host.files, before);
}
