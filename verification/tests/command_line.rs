use cube::cli::{parse_env_var, RunContainerParams};

#[test]
fn env_entries_split_at_the_first_equals() {
    assert_eq!(parse_env_var("KEY=VALUE"), Ok(("KEY".to_string(), "VALUE".to_string())));
    assert_eq!(parse_env_var("A=b=c"), Ok(("A".to_string(), "b=c".to_string())));
    assert_eq!(parse_env_var("=x"), Ok((String::new(), "x".to_string())));
    assert_eq!(parse_env_var("EMPTY="), Ok(("EMPTY".to_string(), String::new())));
    assert_eq!(parse_env_var("ключ=значение"), Ok(("ключ".to_string(), "значение".to_string())));
}

#[test]
fn env_entries_without_equals_are_refused() {
    assert_eq!(
        parse_env_var("NOVALUE"),
        Err("Переменная окружения должна быть в формате KEY=VALUE: NOVALUE".to_string())
    );
    assert_eq!(
        parse_env_var(""),
        Err("Переменная окружения должна быть в формате KEY=VALUE: ".to_string())
    );
}

#[test]
fn written_entries_parse_back() {
    let entry = format!("{}={}", "USER", "a=b");
    assert_eq!(parse_env_var(&entry), Ok(("USER".to_string(), "a=b".to_string())));
}

fn params() -> RunContainerParams {
    RunContainerParams {
        image: "postgres:16".to_string(),
        name: "test-container".to_string(),
        env: vec![],
        command: None,
        nano_cpus: 500_000_000,
        memory_mb: 512,
        restart_policy: "no".to_string(),
        ports: vec![],
    }
}

#[test]
fn run_request_with_defaults() {
    let c = params().into_config();
    assert_eq!(c.image, "postgres:16");
    assert_eq!(c.name, Some("test-container".to_string()));
    assert_eq!(c.memory, 512 * 1024 * 1024);
    assert_eq!(c.nano_cpus, 500_000_000);
    assert_eq!(c.restart_policy, "no");
    assert!(c.env.is_empty());
    assert!(c.cmd.is_empty());
    assert_eq!(c.exposed_ports, None);
}

#[test]
fn run_request_with_everything() {
    let mut p = params();
    p.env = vec![("A".to_string(), "1".to_string()), ("B".to_string(), "x=y".to_string())];
    p.command = Some(vec!["echo".to_string(), "hi".to_string()]);
    p.nano_cpus = 2_000_000_000;
    p.memory_mb = 3;
    p.restart_policy = "unless-stopped".to_string();
    p.ports = vec!["80/tcp".to_string(), "5432/tcp".to_string()];
    let c = p.into_config();
    assert_eq!(c.env, vec!["A=1".to_string(), "B=x=y".to_string()]);
    assert_eq!(c.cmd, vec!["echo".to_string(), "hi".to_string()]);
    assert_eq!(c.nano_cpus, 2_000_000_000);
    assert_eq!(c.memory, 3 * 1024 * 1024);
    assert_eq!(c.restart_policy, "unless-stopped");
    assert_eq!(c.exposed_ports, Some(vec!["80/tcp".to_string(), "5432/tcp".to_string()]));
}

#[test]
fn empty_command_is_left_out() {
    let mut p = params();
    p.command = Some(vec![]);
    assert!(p.into_config().cmd.is_empty());
}
