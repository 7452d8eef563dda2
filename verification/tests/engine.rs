use tab_runner::engine::{
    check_docker_available, engine_at, engine_on_search_path, engine_request, info_arguments,
    DaemonProbe, EngineRequest,
};

#[test]
fn an_empty_or_blank_path_means_the_search_path() {
    assert_eq!(engine_request(""), EngineRequest::OnSearchPath);
    assert_eq!(engine_request("   "), EngineRequest::OnSearchPath);
    assert_eq!(engine_request("\t\n"), EngineRequest::OnSearchPath);
}

#[test]
fn a_path_is_used_without_the_space_around_it() {
    assert_eq!(
        engine_request("  /usr/local/bin/docker \n"),
        EngineRequest::At("/usr/local/bin/docker".to_string())
    );
    assert_eq!(engine_request("docker"), EngineRequest::At("docker".to_string()));
    assert_eq!(
        engine_request("/opt/my tools/docker"),
        EngineRequest::At("/opt/my tools/docker".to_string())
    );
}

#[test]
fn what_the_search_path_holds_decides() {
    assert_eq!(
        engine_on_search_path(Some("/usr/bin/docker".to_string()), Some("/usr/bin:/bin")),
        Ok("/usr/bin/docker".to_string())
    );
    assert_eq!(
        engine_on_search_path(None, Some("/usr/bin:/bin")),
        Err("Docker is not installed or not found in PATH: /usr/bin:/bin".to_string())
    );
}

#[test]
fn a_search_path_that_cannot_be_read_is_an_error_and_no_panic() {
    assert_eq!(
        engine_on_search_path(None, None),
        Err("Docker is not installed or not found, and PATH cannot be read".to_string())
    );
    assert_eq!(
        engine_on_search_path(Some("/usr/bin/docker".to_string()), None),
        Ok("/usr/bin/docker".to_string())
    );
}

#[test]
fn a_path_that_leads_nowhere_is_an_error() {
    assert_eq!(engine_at("/x/docker".to_string(), true), Ok("/x/docker".to_string()));
    assert_eq!(
        engine_at("/x/docker".to_string(), false),
        Err("Docker executable not found at: /x/docker".to_string())
    );
}

#[test]
fn the_daemon_must_answer_with_success() {
    let engine = || "/usr/bin/docker".to_string();
    assert_eq!(
        check_docker_available(engine(), &DaemonProbe::Answered { success: true }),
        Ok(engine())
    );
    assert_eq!(
        check_docker_available(engine(), &DaemonProbe::Answered { success: false }),
        Err("Docker daemon is not running".to_string())
    );
    assert_eq!(
        check_docker_available(engine(), &DaemonProbe::NotRun("permission denied".to_string())),
        Err("Failed to check Docker status: permission denied".to_string())
    );
    assert_eq!(info_arguments(), vec!["info"]);
}
