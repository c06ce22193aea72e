use injesh::engine::{
    build_request, check_engine_parent, check_status, encode_request_path, find_supervisor,
    first_child_pid, inspect_request, list_request, numeric_pids, parent_pid, parse_response,
    resolve_token, short_id, Container, DockerGraphDriverData, DockerdResponse, Resolution,
};
use injesh::error::Error;

fn data() -> DockerGraphDriverData {
    DockerGraphDriverData {
        lower_dir: "/var/lib/docker/overlay2/l1/diff".to_string(),
        upper_dir: "/var/lib/docker/overlay2/abc/diff".to_string(),
        merged_dir: "/var/lib/docker/overlay2/abc/merged".to_string(),
        work_dir: "/var/lib/docker/overlay2/abc/work".to_string(),
    }
}

const FULL_ID: &str = "abcdef0123456789abcdef0123456789abcdef0123456789abcdef0123456789";

#[test]
fn container_id_is_twelve_lower_hex() {
    let c = Container::new(FULL_ID, 4242, "overlay2", &data()).unwrap();
    assert_eq!(c.container_id(), "abcdef012345");
    assert_eq!(c.container_id().len(), 12);
    assert_eq!(c.pid(), 4242);
    assert_eq!(c.lowerdir(), "/var/lib/docker/overlay2/l1/diff");
    assert_eq!(c.upperdir(), "/var/lib/docker/overlay2/abc/diff");
    assert_eq!(c.mergeddir(), "/var/lib/docker/overlay2/abc/merged");
    assert_eq!(c.workdir(), "/var/lib/docker/overlay2/abc/work");
}

#[test]
fn container_id_rejects_names() {
    assert!(matches!(Container::new("my-container", 1, "overlay2", &data()), Err(Error::ContainerNotFound)));
    assert!(matches!(short_id("ABCDEF0123456789"), Err(Error::ContainerNotFound)));
    assert!(matches!(short_id("abcdef01234"), Err(Error::ContainerNotFound)));
    assert_eq!(short_id("0123456789abcdef").unwrap(), "0123456789ab");
}

#[test]
fn non_overlay2_target_is_refused() {
    assert!(matches!(Container::new(FULL_ID, 1, "btrfs", &data()), Err(Error::GraphDriverNotOverlay2)));
    assert!(matches!(Container::new("not-hex", 1, "devicemapper", &data()), Err(Error::GraphDriverNotOverlay2)));
}

#[test]
fn update_pid_keeps_the_rest() {
    let mut c = Container::new(FULL_ID, 10, "overlay2", &data()).unwrap();
    assert_eq!(c.update_pid(20), 20);
    assert_eq!(c.pid(), 20);
    assert_eq!(c.container_id(), "abcdef012345");
}

#[test]
fn restart_and_inspect_requests() {
    let c = Container::new(FULL_ID, 10, "overlay2", &data()).unwrap();
    assert_eq!(
        c.restart(),
        "POST /containers/abcdef012345/restart HTTP/1.1\r\nHost: localhost\r\nConnection: close\r\n\r\n"
    );
    assert_eq!(
        inspect_request("abcdef012345"),
        "GET /containers/abcdef012345/json HTTP/1.1\r\nHost: localhost\r\nConnection: close\r\n\r\n"
    );
}

#[test]
fn query_is_form_encoded() {
    assert_eq!(
        encode_request_path("/containers/json", r#"all=true&filters={"name": ["web"]}"#).unwrap(),
        "/containers/json?all=true&filters=%7B%22name%22%3A+%5B%22web%22%5D%7D"
    );
    assert_eq!(encode_request_path("/p", "a=b*-._~").unwrap(), "/p?a=b*-._%7E");
    assert_eq!(encode_request_path("/p", "novalue"), Err(Error::InvalidParameter));
    assert_eq!(encode_request_path("/p", "a=1&b"), Err(Error::InvalidParameter));
    assert_eq!(
        list_request("web").unwrap(),
        "GET /containers/json?all=true&filters=%7B%22name%22%3A+%5B%22web%22%5D%7D HTTP/1.1\r\nHost: localhost\r\nConnection: close\r\n\r\n"
    );
    assert_eq!(build_request("GET", "/x", Some("k=v v")).unwrap(), "GET /x?k=v+v HTTP/1.1\r\nHost: localhost\r\nConnection: close\r\n\r\n");
}

#[test]
fn response_codes() {
    assert!(matches!(DockerdResponse::new(200), DockerdResponse::NoError));
    assert!(matches!(DockerdResponse::new(204), DockerdResponse::NoError));
    assert!(matches!(DockerdResponse::new(404), DockerdResponse::NoSuchContainer));
    assert!(matches!(DockerdResponse::new(500), DockerdResponse::ServerError));
    assert!(matches!(DockerdResponse::new(409), DockerdResponse::NotFound));
    assert_eq!(check_status(404, ""), Err(Error::ContainerNotFound));
    assert_eq!(check_status(500, ""), Err(Error::ApiServerError));
    assert_eq!(check_status(204, ""), Ok(()));
    assert_eq!(check_status(409, r#"{"message":"is not running"}"#), Err(Error::ApiResponseError("is not running".to_string())));
    assert_eq!(check_status(418, "teapot"), Err(Error::InvalidResponse));
}

#[test]
fn engine_404_and_500() {
    let r404 = "HTTP/1.1 404 Not Found\r\nContent-Type: application/json\r\n\r\n{\"message\":\"No such container: x\"}\n";
    assert_eq!(parse_response(r404), Err(Error::ContainerNotFound));
    let r500 = "HTTP/1.1 500 Internal Server Error\r\nContent-Length: 2\r\n\r\n{}";
    assert_eq!(parse_response(r500), Err(Error::ApiServerError));
}

#[test]
fn response_body_is_wrapped() {
    let ok = "HTTP/1.1 200 OK\r\nContent-Type: application/json\r\n\r\n[{\"Id\":\"abc\"}]\n";
    assert_eq!(parse_response(ok).unwrap(), "{\"containers\":[{\"Id\":\"abc\"}]}");
    let chunked = "HTTP/1.1 200 OK\r\nTransfer-Encoding: chunked\r\n\r\n1f\r\n{\"Id\":\"abc\"}\n\r\n0\r\n";
    assert_eq!(parse_response(chunked).unwrap(), "{\"containers\":{\"Id\":\"abc\"}}");
    let conflict = "HTTP/1.1 409 Conflict\r\n\r\n{\"message\":\"busy\"}";
    assert_eq!(parse_response(conflict), Err(Error::ApiResponseError("busy".to_string())));
    assert_eq!(parse_response("garbage"), Err(Error::InvalidResponse));
    assert_eq!(parse_response("not http\r\n\r\nbody"), Err(Error::InvalidResponse));
}

#[test]
fn name_lookup_needs_exactly_one_match() {
    assert_eq!(Container::convert_name_to_id(&vec![FULL_ID.to_string()]).unwrap(), "abcdef012345");
    assert_eq!(Container::convert_name_to_id(&vec![]), Err(Error::ContainerNotFound));
    assert_eq!(
        Container::convert_name_to_id(&vec![FULL_ID.to_string(), FULL_ID.to_string()]),
        Err(Error::ContainerNotFound)
    );
}

#[test]
fn pid_discovery() {
    let names: Vec<String> = ["1", "self", "uptime", "4242", "77"].iter().map(|s| s.to_string()).collect();
    assert_eq!(numeric_pids(&names), vec![1, 4242, 77]);
    let procs = vec![
        (1u32, "/sbin/init\0".to_string()),
        (77u32, "containerd-shim-runc-v2\0-namespace\0moby\0-id\0ffff00001111\0".to_string()),
        (4242u32, "containerd-shim-runc-v2\0-namespace\0moby\0-id\0abcdef012345\0-address\0/run/containerd.sock\0".to_string()),
    ];
    let supervisor = find_supervisor(&procs, "abcdef012345").unwrap();
    assert_eq!(supervisor, 4242);
    assert_eq!(first_child_pid("98765 ").unwrap(), 98765);
    assert_eq!(first_child_pid("98765 98770 ").unwrap(), 98765);
    assert_eq!(first_child_pid(""), Err(Error::ContainerProcessNotFound));
    assert_eq!(first_child_pid("x "), Err(Error::InvalidPid));
    assert_eq!(find_supervisor(&procs, "000000000000"), Err(Error::ContainerProcessNotFound));
}

#[test]
fn newest_supervisor_wins() {
    let procs = vec![
        (300u32, "shim\0-id\0abcdef012345\0".to_string()),
        (900u32, "shim\0-id\0abcdef012345\0".to_string()),
        (500u32, "shim\0-id\0abcdef012345\0".to_string()),
    ];
    assert_eq!(find_supervisor(&procs, "abcdef012345").unwrap(), 900);
}

#[test]
fn parent_pid_and_engine_check() {
    assert_eq!(parent_pid("98765 (sleep) S 4242 98765 98765 0 -1\n").unwrap(), 4242);
    assert_eq!(parent_pid("1 (x) S"), Err(Error::InvalidPid));
    assert_eq!(check_engine_parent("containerd-shim\0-namespace\0moby\0"), Ok(()));
    assert_eq!(check_engine_parent("bash\0"), Err(Error::InvalidPid));
}

#[test]
fn restart_by_name() {
    assert_eq!(
        Container::restart_from_name(&vec![FULL_ID.to_string()]).unwrap(),
        "POST /containers/abcdef012345/restart HTTP/1.1\r\nHost: localhost\r\nConnection: close\r\n\r\n"
    );
    assert_eq!(Container::restart_from_name(&vec![]), Err(Error::ContainerNotFound));
}

#[test]
fn restart_answers() {
    let c = Container::new(FULL_ID, 10, "overlay2", &data()).unwrap();
    assert_eq!(c.restart_outcome("HTTP/1.1 204 No Content\r\n\r\n"), Ok(()));
    assert_eq!(c.restart_outcome("HTTP/1.1 404 Not Found\r\n\r\n{\"message\":\"No such container\"}"), Err(Error::ContainerNotFound));
    assert_eq!(c.restart_outcome("HTTP/1.1 500 Internal Server Error\r\n\r\n{}"), Err(Error::ApiServerError));
    assert_eq!(c.restart_outcome("HTTP/1.1 302 Found\r\n\r\n"), Err(Error::InvalidResponse));
}

#[test]
fn token_resolution() {
    assert!(matches!(resolve_token("abcdef012345", Ok(77)), Resolution::ById(id, 77) if id == "abcdef012345"));
    assert!(matches!(resolve_token("web", Err(Error::ContainerProcessNotFound)), Resolution::ByName(n) if n == "web"));
}
