use cube::container::{
    advance_job, begin_run, begin_stop, ContainerConfig, DockerOp, DockerResult, JobStage, OpReply,
    RestartPolicyName,
};

#[test]
fn default_config() {
    let c = ContainerConfig::default();
    assert_eq!(c.name, None);
    assert!(!c.attach_stdin);
    assert!(c.attach_stdout);
    assert!(c.attach_stderr);
    assert_eq!(c.exposed_ports, None);
    assert!(c.cmd.is_empty());
    assert_eq!(c.image, "");
    assert_eq!(c.nano_cpus, 500_000_000);
    assert_eq!(c.memory, 512 * 1024 * 1024);
    assert_eq!(c.disk, 10 * 1024 * 1024 * 1024);
    assert!(c.env.is_empty());
    assert_eq!(c.restart_policy, "no");
}

#[test]
fn builders_set_one_thing_each() {
    let c = ContainerConfig::new("postgres:16".to_string(), "test-container-1".to_string())
        .with_env(vec!["POSTGRES_USER=cube".to_string(), "POSTGRES_PASSWORD=secret".to_string()])
        .with_cmd(vec!["sleep".to_string(), "5".to_string()])
        .with_resources(250_000_000, 1024)
        .with_restart_policy("always".to_string());
    assert_eq!(c.image, "postgres:16");
    assert_eq!(c.name, Some("test-container-1".to_string()));
    assert_eq!(c.env, vec!["POSTGRES_USER=cube".to_string(), "POSTGRES_PASSWORD=secret".to_string()]);
    assert_eq!(c.cmd, vec!["sleep".to_string(), "5".to_string()]);
    assert_eq!(c.nano_cpus, 250_000_000);
    assert_eq!(c.memory, 1024);
    assert_eq!(c.disk, 10 * 1024 * 1024 * 1024);
    assert_eq!(c.restart_policy, "always");
}

#[test]
fn exposed_ports_keep_their_order() {
    let c = ContainerConfig::new("i".to_string(), "n".to_string());
    let c = c.with_exposed_port("80/tcp");
    assert_eq!(c.exposed_ports, Some(vec!["80/tcp".to_string()]));
    let c = c.with_exposed_port("443/tcp").with_exposed_port("80/tcp");
    assert_eq!(
        c.exposed_ports,
        Some(vec!["80/tcp".to_string(), "443/tcp".to_string(), "80/tcp".to_string()])
    );
}

#[test]
fn results() {
    let s = DockerResult::success("start", "abc123");
    assert!(s.is_success());
    assert_eq!(s.action, "start");
    assert_eq!(s.container_id, "abc123");
    assert_eq!(s.result, "success");
    let f = DockerResult::failure("pull", "no such image".to_string());
    assert!(!f.is_success());
    assert_eq!(f.action, "pull");
    assert_eq!(f.container_id, "");
    assert_eq!(f.result, "failure");
    assert_eq!(f.error, Some("no such image".to_string()));
}

#[test]
fn create_spec_leaves_out_empty_lists() {
    let c = ContainerConfig::new("alpine".to_string(), "box".to_string())
        .with_restart_policy("on-failure".to_string());
    let s = c.create_spec();
    assert_eq!(s.name, Some("box".to_string()));
    assert_eq!(s.image, "alpine");
    assert_eq!(s.cmd, None);
    assert_eq!(s.env, None);
    assert!(!s.tty);
    assert!(s.publish_all_ports);
    assert_eq!(s.restart_policy, RestartPolicyName::OnFailure);
    assert_eq!(s.maximum_retry_count, None);
    assert_eq!(s.platform, "");
    assert_eq!(s.memory, 512 * 1024 * 1024);
    assert_eq!(s.nano_cpus, 500_000_000);
    let c = c.with_cmd(vec!["ls".to_string()]).with_env(vec!["A=1".to_string()]);
    let s = c.create_spec();
    assert_eq!(s.cmd, Some(vec!["ls".to_string()]));
    assert_eq!(s.env, Some(vec!["A=1".to_string()]));
}

fn finished(op: DockerOp) -> DockerResult {
    match op {
        DockerOp::Finished { result } => result,
        other => panic!("expected the end of the job, got {:?}", other),
    }
}

#[test]
fn run_job_succeeds_on_the_created_container() {
    let c = ContainerConfig::new("alpine".to_string(), "box".to_string());
    let (stage, op) = begin_run(&c);
    assert!(matches!(op, DockerOp::PullImage { ref image } if image == "alpine"));
    let (stage, op) = advance_job(&c, stage, OpReply::Done);
    assert!(matches!(op, DockerOp::CreateContainer { .. }));
    let (stage, op) = advance_job(&c, stage, OpReply::Created { id: "c1".to_string() });
    assert!(matches!(op, DockerOp::StartContainer { ref id } if id == "c1"));
    let (stage, op) = advance_job(&c, stage, OpReply::Done);
    assert!(matches!(op, DockerOp::FetchLogs { ref id, ref options } if id == "c1" && !options.follow && options.stdout && options.stderr && !options.timestamps && options.since == 0 && options.until == 0 && options.tail.is_empty()));
    let (stage, op) = advance_job(&c, stage, OpReply::Failed { message: "logs broke".to_string() });
    assert!(matches!(stage, JobStage::Done));
    let r = finished(op);
    assert!(r.is_success());
    assert_eq!(r.action, "start");
    assert_eq!(r.container_id, "c1");
}

#[test]
fn run_job_reports_the_failing_step() {
    let c = ContainerConfig::new("alpine".to_string(), "box".to_string());
    let (stage, _) = begin_run(&c);
    let (_, op) = advance_job(&c, stage, OpReply::Failed { message: "pull denied".to_string() });
    let r = finished(op);
    assert_eq!(r.action, "pull");
    assert_eq!(r.error, Some("pull denied".to_string()));

    let (stage, _) = begin_run(&c);
    let (stage, _) = advance_job(&c, stage, OpReply::Done);
    let (_, op) = advance_job(&c, stage, OpReply::Failed { message: "conflict".to_string() });
    let r = finished(op);
    assert_eq!(r.action, "create");
    assert_eq!(r.result, "failure");

    let (stage, _) = begin_run(&c);
    let (stage, _) = advance_job(&c, stage, OpReply::Done);
    let (stage, _) = advance_job(&c, stage, OpReply::Created { id: "c2".to_string() });
    let (_, op) = advance_job(&c, stage, OpReply::Failed { message: "port taken".to_string() });
    let r = finished(op);
    assert_eq!(r.action, "start");
    assert_eq!(r.error, Some("port taken".to_string()));
    assert_eq!(r.container_id, "");
}

#[test]
fn stop_job() {
    let c = ContainerConfig::new("alpine".to_string(), "box".to_string());
    let (stage, op) = begin_stop(&"c9".to_string());
    assert!(matches!(op, DockerOp::StopContainer { ref id, ref options } if id == "c9" && options.signal.is_none() && options.timeout_secs.is_none()));
    let (stage, op) = advance_job(&c, stage, OpReply::Done);
    assert!(matches!(op, DockerOp::RemoveContainer { ref id, options } if id == "c9" && options.remove_volumes && !options.force && !options.link));
    let (_, op) = advance_job(&c, stage, OpReply::Done);
    let r = finished(op);
    assert!(r.is_success());
    assert_eq!(r.action, "stop");
    assert_eq!(r.container_id, "c9");

    let (stage, _) = begin_stop(&"c9".to_string());
    let (_, op) = advance_job(&c, stage, OpReply::Failed { message: "not running".to_string() });
    assert_eq!(finished(op).action, "stop");

    let (stage, _) = begin_stop(&"c9".to_string());
    let (stage, _) = advance_job(&c, stage, OpReply::Done);
    let (_, op) = advance_job(&c, stage, OpReply::Failed { message: "in use".to_string() });
    let r = finished(op);
    assert_eq!(r.action, "remove");
    assert_eq!(r.error, Some("in use".to_string()));
}
