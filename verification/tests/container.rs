use palworld_bridge::{
    get_palworld_docker_container, matches_identity, start_docker_container,
    stop_docker_container, ContainerIsRunning, ContainerSummary, Error,
};

const IMAGE: &str = "thijsvanloef/palworld-server-docker:latest";
const NAME: &str = "/palworld-server";

fn container(id: &str, image: Option<&str>, names: Option<Vec<&str>>, state: Option<&str>) -> ContainerSummary {
    ContainerSummary {
        id: Some(id.to_string()),
        names: names.map(|names| names.into_iter().map(|name| name.to_string()).collect()),
        image: image.map(|image| image.to_string()),
        state: state.map(|state| state.to_string()),
    }
}

fn managed(id: &str, state: Option<&str>) -> ContainerSummary {
    container(id, Some(IMAGE), Some(vec![NAME]), state)
}

fn other(id: &str) -> ContainerSummary {
    container(id, Some("postgres:16"), Some(vec!["/db"]), Some("running"))
}

#[test]
fn running_state_is_running() {
    assert!(managed("a", Some("running")).is_running());
}

#[test]
fn every_other_state_is_not_running() {
    for state in ["created", "exited", "restarting", "paused", "dead", "removing", "unknown", ""] {
        assert!(!managed("a", Some(state)).is_running(), "state {state:?}");
    }
}

#[test]
fn running_is_matched_letter_for_letter() {
    for state in ["Running", "RUNNING", " running", "running ", "runnin", "running\n", "runnıng"] {
        assert!(!managed("a", Some(state)).is_running(), "state {state:?}");
    }
}

#[test]
fn missing_state_is_not_running() {
    assert!(!managed("a", None).is_running());
}

#[test]
fn identity_needs_image_and_name() {
    assert!(matches_identity(&managed("a", None)));
    assert!(!matches_identity(&container("a", Some(IMAGE), Some(vec!["/other"]), None)));
    assert!(!matches_identity(&container("a", Some("other:latest"), Some(vec![NAME]), None)));
    assert!(!matches_identity(&container("a", None, Some(vec![NAME]), None)));
    assert!(!matches_identity(&container("a", Some(IMAGE), None, None)));
    assert!(!matches_identity(&container("a", Some(IMAGE), Some(vec![]), None)));
}

#[test]
fn identity_is_exact() {
    assert!(!matches_identity(&container("a", Some(IMAGE), Some(vec!["palworld-server"]), None)));
    assert!(!matches_identity(&container("a", Some(IMAGE), Some(vec!["/palworld-server-2"]), None)));
    assert!(!matches_identity(&container(
        "a",
        Some("thijsvanloef/palworld-server-docker"),
        Some(vec![NAME]),
        None
    )));
    assert!(!matches_identity(&container(
        "a",
        Some("thijsvanloef/palworld-server-docker:v1"),
        Some(vec![NAME]),
        None
    )));
}

#[test]
fn identity_accepts_the_name_among_others() {
    assert!(matches_identity(&container("a", Some(IMAGE), Some(vec!["/alias", NAME, "/x"]), None)));
}

#[test]
fn exactly_one_match_is_found() {
    let listing = vec![other("1"), managed("2", Some("exited")), other("3")];
    let found = get_palworld_docker_container(listing);
    assert_eq!(found, Ok(managed("2", Some("exited"))));
}

#[test]
fn single_container_listing_is_found() {
    assert_eq!(
        get_palworld_docker_container(vec![managed("only", Some("running"))]),
        Ok(managed("only", Some("running")))
    );
}

#[test]
fn no_match_is_not_found() {
    assert_eq!(
        get_palworld_docker_container(vec![other("1"), other("2")]),
        Err(Error::TargetNotFound)
    );
}

#[test]
fn empty_listing_is_not_found() {
    assert_eq!(get_palworld_docker_container(vec![]), Err(Error::TargetNotFound));
}

#[test]
fn two_matches_are_ambiguous() {
    let listing = vec![managed("1", Some("running")), other("2"), managed("3", Some("exited"))];
    assert_eq!(get_palworld_docker_container(listing), Err(Error::TargetAmbiguous));
}

#[test]
fn three_matches_are_ambiguous() {
    let listing = vec![managed("1", None), managed("2", None), managed("3", None)];
    assert_eq!(get_palworld_docker_container(listing), Err(Error::TargetAmbiguous));
}

#[test]
fn equal_twins_are_ambiguous() {
    let listing = vec![managed("1", None), managed("1", None)];
    assert_eq!(get_palworld_docker_container(listing), Err(Error::TargetAmbiguous));
}

#[test]
fn missing_and_ambiguous_differ() {
    let none = get_palworld_docker_container(vec![]);
    let many = get_palworld_docker_container(vec![managed("1", None), managed("2", None)]);
    assert_ne!(none, many);
}

#[test]
fn start_keeps_the_cause() {
    assert_eq!(start_docker_container(Ok(())), Ok(()));
    assert_eq!(
        start_docker_container(Err("port is already allocated".to_string())),
        Err(Error::StartFailed("port is already allocated".to_string()))
    );
}

#[test]
fn stop_keeps_the_cause() {
    assert_eq!(stop_docker_container(Ok(())), Ok(()));
    assert_eq!(
        stop_docker_container(Err("no such container".to_string())),
        Err(Error::StopFailed("no such container".to_string()))
    );
}

#[test]
fn every_error_has_its_message() {
    assert_eq!(Error::TargetNotFound.message(), "No container found");
    assert_eq!(Error::TargetAmbiguous.message(), "More than one container found");
    assert_eq!(Error::NotRunning.message(), "Container not running");
    assert_eq!(Error::NoResponse.message(), "No rcon response");
    assert_eq!(
        Error::RuntimeExecFailed("socket closed".to_string()).message(),
        "Container runtime failed: socket closed"
    );
    assert_eq!(
        Error::StartFailed("no memory".to_string()).message(),
        "Failed to start container: no memory"
    );
    assert_eq!(
        Error::StopFailed("busy".to_string()).message(),
        "Failed to stop container: busy"
    );
    assert_eq!(Error::InvalidOutputEncoding.message(), "Command output is not valid UTF-8");
    assert_eq!(
        Error::HostMetricsFailed("free: not found".to_string()).message(),
        "Failed to read host memory: free: not found"
    );
    assert_eq!(Error::UnexpectedEvent.message(), "Unexpected event");
}
