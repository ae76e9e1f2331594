use dockers::codec::StringMap;
use dockers::containers::ContainerConfig;
use dockers::docker::info::Info;
use dockers::docker::{
    confirm_reply, confirm_response, decode_reply, decode_response, expect_status,
    get_response_from_api_static, invalid_api_resp, join_path, request_body, Client,
    DockerApiError,
    FixedAnswer, JsonError, Method, Response, TransportError,
};
use dockers::images::Source;
use dockers::json::Json;
use dockers::{Container, Image};
use std::cell::RefCell;

/// What a daemon was asked.
#[derive(Debug, Clone)]
struct Asked {
    path: String,
    method: Method,
    body: Option<String>,
}

/// A daemon that gives one canned answer and remembers what it was asked.
struct Daemon {
    status: usize,
    body: String,
    asked: RefCell<Vec<Asked>>,
}

impl Daemon {
    fn answering(status: usize, body: &str) -> Daemon {
        Daemon { status, body: body.to_owned(), asked: RefCell::new(Vec::new()) }
    }

    fn last(&self) -> Asked {
        self.asked.borrow().last().unwrap().clone()
    }

    fn count(&self) -> usize {
        self.asked.borrow().len()
    }
}

impl Client for Daemon {
    fn request(&self, api_endpoint: &str, method: Method, body: Option<&str>) -> Result<Response, TransportError> {
        self.asked.borrow_mut().push(Asked {
            path: api_endpoint.to_owned(),
            method,
            body: body.map(|b| b.to_owned()),
        });
        Ok(Response { status_code: self.status, body: self.body.clone() })
    }
}

impl Info for Daemon {}

/// A daemon that cannot be reached.
struct Unreachable;

impl Client for Unreachable {
    fn request(&self, _: &str, _: Method, _: Option<&str>) -> Result<Response, TransportError> {
        Err(TransportError::Connection("connection refused".to_owned()))
    }
}

impl Info for Unreachable {}

/// A daemon that answers like a container engine: a list, a creation, a removal.
struct Engine;

impl Client for Engine {
    fn request(&self, api_endpoint: &str, method: Method, _: Option<&str>) -> Result<Response, TransportError> {
        let (status_code, body) = match method {
            Method::GET => (200, "[]"),
            Method::POST if api_endpoint.starts_with("/containers/create") => {
                (201, "{\"Id\":\"e90e34656806\",\"Warnings\":[]}")
            }
            Method::POST => (204, ""),
            Method::DELETE => (204, ""),
        };
        Ok(Response { status_code, body: body.to_owned() })
    }
}

fn map(pairs: &[(&str, &str)]) -> StringMap {
    let mut map = StringMap::new();
    for (name, value) in pairs {
        map.insert((*name).to_owned(), (*value).to_owned());
    }
    map
}

fn response(status_code: usize, body: &str) -> Response {
    Response { status_code, body: body.to_owned() }
}

fn assert_invalid(e: DockerApiError, status: usize, body: &str) {
    match e {
        DockerApiError::InvalidApiResponseError(s, b) => {
            assert_eq!(s, status);
            assert_eq!(b, body);
        }
        other => panic!("not an invalid response: {:?}", other),
    }
}

#[test]
fn test() {
    let all_containers = Container::list(&Engine).unwrap();
    println!("{:?}", all_containers);

    let res = Container::new(None, Some("debian:jessie".to_owned()))
        .create(&Engine, Some("my_cont_test".to_owned()), None)
        .unwrap();
    println!("{:?}", res);

    let deleted = res.remove(&Engine).unwrap();
    println!("Container deleted: {:?}", deleted);
}

#[test]
fn create_with_config() {
    let img = "debian:jessie".to_owned();
    let mut published_ports = StringMap::new();

    published_ports.insert("22/tcp".to_owned(), "0.0.0.0".to_owned());

    let container_conf = ContainerConfig {
        Image: img.clone(),
        ExposedPorts: Some(published_ports),
        ..Default::default()
    };

    let container = Container::new(None, Some(img))
        .create(&Engine, Some("my_cont_test_port".to_owned()), Some(container_conf))
        .unwrap();

    let deleted = container.remove(&Engine).unwrap();
    println!("Container deleted: {:?}", deleted);
}

#[test]
fn list_of_nothing_is_empty() {
    let daemon = Daemon::answering(200, "[]");
    let containers = Container::list(&daemon).unwrap();
    assert!(containers.is_empty());
    let asked = daemon.last();
    assert_eq!(asked.path, "/containers/json?all=true&size=true");
    assert_eq!(asked.method, Method::GET);
    assert_eq!(asked.body, None);
    assert_eq!(daemon.count(), 1);
}

#[test]
fn created_container_has_the_daemons_identity() {
    let daemon = Daemon::answering(201, "{\"Id\":\"abc123\"}");
    let container = Container::new(None, Some("debian:jessie".to_owned()))
        .create(&daemon, Some("my_cont_test".to_owned()), None)
        .unwrap();
    assert_eq!(container.Id, "abc123");
    assert_eq!(container.Image, "");
    assert!(container.Names.is_empty());
    assert!(container.Labels.is_none());
    let asked = daemon.last();
    assert_eq!(asked.path, "/containers/create?name=my_cont_test");
    assert_eq!(asked.method, Method::POST);
    assert_eq!(
        asked.body.as_deref(),
        Some(
            "{\"Image\":\"debian:jessie\",\"Cmd\":[],\"Hostname\":\"\",\"Domainname\":\"\",\
             \"User\":\"\",\"AttachStdin\":false,\"AttachStdout\":false,\"AttachStderr\":false,\
             \"Tty\":false,\"OpenStdin\":false,\"StdinOnce\":false,\"Env\":[],\"Entrypoint\":null,\
             \"Labels\":null,\"WorkingDir\":\"\",\"NetworkingDisabled\":false,\"MacAddress\":\"\",\
             \"ExposedPorts\":null}"
        )
    );
    assert_eq!(daemon.count(), 1);
}

#[test]
fn create_without_name_asks_with_an_empty_name() {
    let daemon = Daemon::answering(201, "{\"Id\":\"abc123\",\"Warnings\":[]}");
    let container = Container::new(None, None).create(&daemon, None, None).unwrap();
    assert_eq!(container.Id, "abc123");
    assert_eq!(daemon.last().path, "/containers/create?name=");
    assert_eq!(Container::create_params(None), "?name=");
    assert_eq!(Container::create_params(Some("a b".to_owned())), "?name=a b");
}

#[test]
fn removal_of_unknown_container_carries_the_daemons_text() {
    let daemon = Daemon::answering(404, "{\"message\":\"no such container\"}");
    let e = Container::new(Some("gone".to_owned()), None).remove(&daemon).unwrap_err();
    assert_invalid(e, 404, "{\"message\":\"no such container\"}");
    let asked = daemon.last();
    assert_eq!(asked.path, "/containers/gone");
    assert_eq!(asked.method, Method::DELETE);
    assert_eq!(asked.body, None);
}

#[test]
fn start_is_confirmed_whatever_the_body() {
    let daemon = Daemon::answering(204, "");
    let container = Container::new(Some("abc123".to_owned()), None);
    assert_eq!(container.start(&daemon).unwrap(), "Operation start run correctly");
    let asked = daemon.last();
    assert_eq!(asked.path, "/containers/abc123/start");
    assert_eq!(asked.method, Method::POST);
    assert_eq!(asked.body, None);
    let daemon = Daemon::answering(204, "{\"anything\":true}");
    assert_eq!(container.start(&daemon).unwrap(), "Operation start run correctly");
    assert_eq!(
        Container::action_result(response(204, "not even JSON"), "start").unwrap(),
        "Operation start run correctly"
    );
}

#[test]
fn every_action_has_its_endpoint_and_confirmation() {
    let container = Container::new(Some("c1".to_owned()), None);
    let daemon = Daemon::answering(204, "");
    assert_eq!(container.stop(&daemon).unwrap(), "Operation stop run correctly");
    assert_eq!(daemon.last().path, "/containers/c1/stop");
    assert_eq!(container.restart(&daemon).unwrap(), "Operation restart run correctly");
    assert_eq!(daemon.last().path, "/containers/c1/restart");
    assert_eq!(container.kill(&daemon).unwrap(), "Operation kill run correctly");
    assert_eq!(daemon.last().path, "/containers/c1/kill");
    assert_eq!(container.pause(&daemon).unwrap(), "Operation pause run correctly");
    assert_eq!(daemon.last().path, "/containers/c1/pause");
    assert_eq!(container.unpause(&daemon).unwrap(), "Operation unpause run correctly");
    assert_eq!(daemon.last().path, "/containers/c1/unpause");
    assert_eq!(container.container_action(&daemon, "top").unwrap(), "Operation top run correctly");
    assert_eq!(daemon.last().path, "/containers/c1/top");
    assert_eq!(daemon.last().method, Method::POST);
    assert_eq!(daemon.count(), 6);
    assert_eq!(container.action_endpoint("wait"), "/containers/c1/wait");
}

#[test]
fn action_on_another_status_is_an_invalid_response() {
    let container = Container::new(Some("c1".to_owned()), None);
    for status in [0usize, 200, 201, 203, 205, 304, 404, 409, 500] {
        let daemon = Daemon::answering(status, "{\"message\":\"no\"}");
        assert_invalid(container.start(&daemon).unwrap_err(), status, "{\"message\":\"no\"}");
        assert_invalid(container.stop(&daemon).unwrap_err(), status, "{\"message\":\"no\"}");
        assert_invalid(container.restart(&daemon).unwrap_err(), status, "{\"message\":\"no\"}");
        assert_invalid(container.kill(&daemon).unwrap_err(), status, "{\"message\":\"no\"}");
        assert_invalid(container.pause(&daemon).unwrap_err(), status, "{\"message\":\"no\"}");
        assert_invalid(container.unpause(&daemon).unwrap_err(), status, "{\"message\":\"no\"}");
    }
}

#[test]
fn remove_is_confirmed_on_204_only() {
    let daemon = Daemon::answering(204, "");
    let said = Container::new(Some("c1".to_owned()), None).remove(&daemon).unwrap();
    assert_eq!(said, "Container deleted correctly");
    let daemon = Daemon::answering(200, "");
    let e = Container::new(Some("c1".to_owned()), None).remove(&daemon).unwrap_err();
    assert_invalid(e, 200, "");
    assert_eq!(Container::remove_result(response(204, "x")).unwrap(), "Container deleted correctly");
    assert_eq!(Container::new(Some("c1".to_owned()), None).remove_endpoint(), "/containers/c1");
}

#[test]
fn create_on_another_status_is_an_invalid_response() {
    for status in [0usize, 200, 204, 400, 404, 409, 500] {
        let daemon = Daemon::answering(status, "{\"Id\":\"abc123\"}");
        let e = Container::new(None, Some("x".to_owned())).create(&daemon, None, None).unwrap_err();
        assert_invalid(e, status, "{\"Id\":\"abc123\"}");
    }
}

#[test]
fn list_on_another_status_is_an_invalid_response() {
    for status in [0usize, 201, 204, 400, 500] {
        let daemon = Daemon::answering(status, "[]");
        assert_invalid(Container::list(&daemon).unwrap_err(), status, "[]");
        assert_invalid(Image::list(&daemon).unwrap_err(), status, "[]");
        let e = Image { Id: "i".to_owned(), ..Default::default() }.remove(&daemon).unwrap_err();
        assert_invalid(e, status, "[]");
    }
}

#[test]
fn body_of_another_shape_is_a_deserialization_error() {
    let daemon = Daemon::answering(200, "{\"not\":\"a list\"}");
    assert!(matches!(
        Container::list(&daemon),
        Err(DockerApiError::JsonDeserializationError(JsonError::UnexpectedShape))
    ));
    let daemon = Daemon::answering(201, "[1,2]");
    assert!(matches!(
        Container::new(None, None).create(&daemon, None, None),
        Err(DockerApiError::JsonDeserializationError(JsonError::UnexpectedShape))
    ));
    let daemon = Daemon::answering(201, "{\"Id\":12}");
    assert!(matches!(
        Container::new(None, None).create(&daemon, None, None),
        Err(DockerApiError::JsonDeserializationError(JsonError::UnexpectedShape))
    ));
}

#[test]
fn body_that_is_no_json_is_a_deserialization_error() {
    let daemon = Daemon::answering(200, "");
    assert!(matches!(
        Container::list(&daemon),
        Err(DockerApiError::JsonDeserializationError(JsonError::Syntax(_)))
    ));
    let daemon = Daemon::answering(201, "{\"Id\":\"abc123\"");
    assert!(matches!(
        Container::new(None, None).create(&daemon, None, None),
        Err(DockerApiError::JsonDeserializationError(JsonError::Syntax(_)))
    ));
    assert!(matches!(
        decode_response::<Vec<Container>>(response(200, "[] []"), 200),
        Err(DockerApiError::JsonDeserializationError(JsonError::Syntax(_)))
    ));
}

#[test]
fn unreachable_daemon_is_a_transport_error() {
    let container = Container::new(Some("c1".to_owned()), Some("img".to_owned()));
    assert!(matches!(
        Container::list(&Unreachable),
        Err(DockerApiError::TransportError(TransportError::Connection(_)))
    ));
    assert!(matches!(
        container.create(&Unreachable, None, None),
        Err(DockerApiError::TransportError(TransportError::Connection(_)))
    ));
    assert!(matches!(
        container.start(&Unreachable),
        Err(DockerApiError::TransportError(TransportError::Connection(_)))
    ));
    assert!(matches!(
        Image::pull(&Unreachable, "node".to_owned(), None),
        Err(DockerApiError::TransportError(TransportError::Connection(_)))
    ));
    assert!(matches!(
        Image::list(&Unreachable),
        Err(DockerApiError::TransportError(TransportError::Connection(_)))
    ));
    match container.remove(&Unreachable) {
        Err(DockerApiError::TransportError(TransportError::Connection(text))) => {
            assert_eq!(text, "connection refused")
        }
        other => panic!("not a transport error: {:?}", other),
    }
}

#[test]
fn configuration_without_image_takes_the_containers() {
    let container = Container::new(None, Some("debian:jessie".to_owned()));
    let given = ContainerConfig {
        Hostname: "box".to_owned(),
        Tty: true,
        Cmd: vec!["sh".to_owned(), "-c".to_owned()],
        ..Default::default()
    };
    let resolved = container.resolve_config(Some(given));
    assert_eq!(resolved.Image, "debian:jessie");
    assert_eq!(resolved.Hostname, "box");
    assert!(resolved.Tty);
    assert_eq!(resolved.Cmd, vec!["sh".to_owned(), "-c".to_owned()]);
    assert_eq!(resolved.User, "");
    assert!(!resolved.AttachStdin);
    assert!(resolved.Entrypoint.is_none());
}

#[test]
fn configuration_with_image_keeps_it() {
    let container = Container::new(None, Some("debian:jessie".to_owned()));
    let given = ContainerConfig {
        Image: "alpine:3".to_owned(),
        Env: vec!["A=1".to_owned()],
        Entrypoint: Some("/bin/sh".to_owned()),
        ..Default::default()
    };
    let resolved = container.resolve_config(Some(given));
    assert_eq!(resolved.Image, "alpine:3");
    assert_eq!(resolved.Env, vec!["A=1".to_owned()]);
    assert_eq!(resolved.Entrypoint.as_deref(), Some("/bin/sh"));
}

#[test]
fn no_configuration_is_the_default_with_the_containers_image() {
    let container = Container::new(Some("id".to_owned()), Some("debian:jessie".to_owned()));
    let resolved = container.resolve_config(None);
    assert_eq!(resolved.Image, "debian:jessie");
    assert!(resolved.Cmd.is_empty());
    assert_eq!(resolved.Hostname, "");
    assert!(resolved.Labels.is_none());
    let resolved = Container::new(None, None).resolve_config(None);
    assert_eq!(resolved.Image, "");
}

#[test]
fn create_sends_the_resolved_configuration() {
    let daemon = Daemon::answering(201, "{\"Id\":\"abc123\"}");
    let given = ContainerConfig {
        Cmd: vec!["echo".to_owned(), "say \"hi\"".to_owned()],
        Labels: Some(map(&[("tier", "db")])),
        Entrypoint: Some("/entry".to_owned()),
        NetworkingDisabled: true,
        ..Default::default()
    };
    Container::new(None, Some("debian:jessie".to_owned()))
        .create(&daemon, Some("n".to_owned()), Some(given))
        .unwrap();
    assert_eq!(
        daemon.last().body.as_deref(),
        Some(
            "{\"Image\":\"debian:jessie\",\"Cmd\":[\"echo\",\"say \\\"hi\\\"\"],\"Hostname\":\"\",\
             \"Domainname\":\"\",\"User\":\"\",\"AttachStdin\":false,\"AttachStdout\":false,\
             \"AttachStderr\":false,\"Tty\":false,\"OpenStdin\":false,\"StdinOnce\":false,\
             \"Env\":[],\"Entrypoint\":\"/entry\",\"Labels\":{\"tier\":\"db\"},\"WorkingDir\":\"\",\
             \"NetworkingDisabled\":true,\"MacAddress\":\"\",\"ExposedPorts\":null}"
        )
    );
    let given = ContainerConfig { Image: "alpine".to_owned(), ..Default::default() };
    let body = Container::new(None, Some("debian:jessie".to_owned())).create_body(Some(given)).unwrap();
    assert!(body.starts_with("{\"Image\":\"alpine\","));
}

#[test]
fn new_container_knows_what_it_is_given() {
    let container = Container::new(None, None);
    assert_eq!(container.Id, "");
    assert_eq!(container.Image, "");
    let container = Container::new(Some("abc".to_owned()), Some("node".to_owned()));
    assert_eq!(container.Id, "abc");
    assert_eq!(container.Image, "node");
    assert_eq!(container.ImageID, "");
    assert_eq!(container.Command, "");
    assert_eq!(container.State, "");
    assert_eq!(container.Status, "");
    assert!(container.Names.is_empty());
    assert!(container.Ports.is_empty());
    assert!(container.Mounts.is_empty());
    assert!(container.Labels.is_none());
    assert_eq!(container.SizeRw, None);
    assert_eq!(container.SizeRootFs, 0);
    assert_eq!(container.HostConfig.NetworkMode, "");
}

#[test]
fn image_is_pulled_with_its_tag() {
    let daemon = Daemon::answering(200, "{\"status\":\"Pulling\"}");
    let image = Image::pull(&daemon, "rabbitmq".to_owned(), None).unwrap();
    assert_eq!(image.Id, "rabbitmq");
    assert_eq!(image.ParentId, "");
    assert_eq!(image.Created, 0);
    assert!(image.RepoTags.is_none());
    let asked = daemon.last();
    assert_eq!(asked.path, "/images/create?fromImage=rabbitmq&tag=latest");
    assert_eq!(asked.method, Method::POST);
    assert_eq!(asked.body, None);
    let image = Image::pull(&daemon, "node".to_owned(), Some("18".to_owned())).unwrap();
    assert_eq!(image.Id, "node");
    assert_eq!(daemon.last().path, "/images/create?fromImage=node&tag=18");
}

#[test]
fn image_is_created_from_each_source() {
    let daemon = Daemon::answering(200, "");
    Image::create(&daemon, Source::Src, "http://x/a.tar".to_owned(), None).unwrap();
    assert_eq!(daemon.last().path, "/images/create?fromSrc=http://x/a.tar&tag=latest");
    Image::create(&daemon, Source::Repo, "r".to_owned(), Some("t".to_owned())).unwrap();
    assert_eq!(daemon.last().path, "/images/create?repo=r&tag=t");
    assert_eq!(Image::create_params(Source::Image, "a", Some(String::new())), "?fromImage=a&tag=");
}

#[test]
fn image_creation_on_another_status_is_an_invalid_response() {
    for status in [0usize, 201, 204, 404, 500] {
        let daemon = Daemon::answering(status, "{\"message\":\"not found\"}");
        let e = Image::pull(&daemon, "nothing".to_owned(), None).unwrap_err();
        assert_invalid(e, status, "{\"message\":\"not found\"}");
    }
    let e = Image::create_result(response(404, "no"), "x".to_owned()).unwrap_err();
    assert_invalid(e, 404, "no");
}

#[test]
fn images_are_listed() {
    let daemon = Daemon::answering(
        200,
        "[{\"Id\":\"sha256:1\",\"ParentId\":\"\",\"RepoTags\":[\"a:1\",\"a:latest\"],\
         \"RepoDigests\":null,\"Created\":1500000000,\"Size\":10,\"VirtualSize\":10,\
         \"SharedSize\":-1,\"Labels\":{},\"Containers\":-1},{\"Id\":\"sha256:2\"}]",
    );
    let images = Image::list(&daemon).unwrap();
    assert_eq!(images.len(), 2);
    assert_eq!(images[0].Id, "sha256:1");
    assert_eq!(images[0].RepoTags, Some(vec!["a:1".to_owned(), "a:latest".to_owned()]));
    assert_eq!(images[0].RepoDigests, None);
    assert_eq!(images[0].Created, 1500000000);
    assert_eq!(images[0].SharedSize, -1);
    assert_eq!(images[0].Containers, -1);
    assert_eq!(images[0].Labels.as_ref().unwrap().len(), 0);
    assert_eq!(images[1].Id, "sha256:2");
    assert_eq!(images[1].Size, 0);
    let asked = daemon.last();
    assert_eq!(asked.path, "/images/json");
    assert_eq!(asked.method, Method::GET);
}

#[test]
fn image_removal_lists_its_effects() {
    let daemon =
        Daemon::answering(200, "[{\"Untagged\":\"a:latest\"},{\"Deleted\":\"sha256:1\"},{}]");
    let image = Image { Id: "a".to_owned(), ..Default::default() };
    assert_eq!(image.remove_endpoint(), "/images/a");
    let effects = image.remove(&daemon).unwrap();
    assert_eq!(effects.len(), 3);
    assert_eq!(effects[0].Untagged.as_deref(), Some("a:latest"));
    assert_eq!(effects[0].Deleted, None);
    assert_eq!(effects[1].Untagged, None);
    assert_eq!(effects[1].Deleted.as_deref(), Some("sha256:1"));
    assert_eq!(effects[2].Untagged, None);
    let asked = daemon.last();
    assert_eq!(asked.path, "/images/a");
    assert_eq!(asked.method, Method::DELETE);
}

#[test]
fn info_is_the_body_whatever_the_status() {
    let daemon = Daemon::answering(200, "{\"Containers\":3}");
    assert_eq!(daemon.get_info(), Ok("{\"Containers\":3}".to_owned()));
    let asked = daemon.last();
    assert_eq!(asked.path, "/info");
    assert_eq!(asked.method, Method::GET);
    let daemon = Daemon::answering(500, "oops");
    assert_eq!(daemon.get_info(), Ok("oops".to_owned()));
    assert_eq!(Unreachable.get_info(), Err("connection refused".to_owned()));
}

#[test]
fn endpoint_and_query_are_joined() {
    assert_eq!(join_path("/containers/json", Some("?all=true")), "/containers/json?all=true");
    assert_eq!(join_path("/info", None), "/info");
    assert_eq!(join_path("", Some("")), "");
    let daemon = Daemon::answering(200, "x");
    let res = get_response_from_api_static(&daemon, "/a", Method::POST, Some("?b=c"), Some("d")).unwrap();
    assert_eq!(res.status_code, 200);
    assert_eq!(res.body, "x");
    let asked = daemon.last();
    assert_eq!(asked.path, "/a?b=c");
    assert_eq!(asked.method, Method::POST);
    assert_eq!(asked.body.as_deref(), Some("d"));
    let res = daemon.get_response_from_api("/e", Method::DELETE, None, None).unwrap();
    assert_eq!(res.body, "x");
    assert_eq!(daemon.last().path, "/e");
    assert!(matches!(
        get_response_from_api_static(&Unreachable, "/a", Method::GET, None, None),
        Err(DockerApiError::TransportError(TransportError::Connection(_)))
    ));
}

#[test]
fn status_is_held_against_the_expected_one() {
    assert_eq!(expect_status(response(200, "body"), 200).unwrap(), "body");
    assert_invalid(expect_status(response(201, "body"), 200).unwrap_err(), 201, "body");
    assert_invalid(expect_status(response(0, ""), 200).unwrap_err(), 0, "");
    assert_invalid(invalid_api_resp(response(418, "teapot")), 418, "teapot");
    assert_eq!(confirm_response(response(204, "ignored"), 204, "done").unwrap(), "done");
    assert_invalid(confirm_response(response(200, "kept"), 204, "done").unwrap_err(), 200, "kept");
}

#[test]
fn api_errors_have_messages() {
    assert_eq!(invalid_api_resp(response(404, "no such container")).message(), "no such container");
    assert_eq!(
        DockerApiError::JsonDeserializationError(JsonError::UnexpectedShape).message(),
        "the body is not the expected record"
    );
    let e = decode_response::<Container>(response(201, "{"), 201).unwrap_err();
    assert_eq!(e.message(), "the body is not JSON");
    assert_eq!(
        DockerApiError::TransportError(TransportError::NoStatus).message(),
        "the response has no status line"
    );
}

#[test]
fn fixed_answer_is_given_to_every_request() {
    let daemon = FixedAnswer { status_code: 200, body: "[]".to_owned() };
    let res = daemon.request("/anything", Method::DELETE, Some("body")).unwrap();
    assert_eq!(res.status_code, 200);
    assert_eq!(res.body, "[]");
    assert!(Container::list(&daemon).unwrap().is_empty());
    assert!(Image::list(&daemon).unwrap().is_empty());
    assert_eq!(daemon.get_info(), Ok("[]".to_owned()));
    let daemon = FixedAnswer { status_code: 201, body: "{\"Id\":\"abc123\"}".to_owned() };
    let container = Container::new(None, Some("x".to_owned())).create(&daemon, None, None).unwrap();
    assert_eq!(container.Id, "abc123");
    let daemon =
        FixedAnswer { status_code: 404, body: "{\"message\":\"no such container\"}".to_owned() };
    assert_invalid(container.remove(&daemon).unwrap_err(), 404, "{\"message\":\"no such container\"}");
    let daemon = FixedAnswer { status_code: 204, body: String::new() };
    let container = Container::new(Some("abc123".to_owned()), None);
    assert_eq!(container.start(&daemon).unwrap(), "Operation start run correctly");
}

#[test]
fn failed_exchange_is_handed_on() {
    let failed = || Err(DockerApiError::TransportError(TransportError::NoStatus));
    assert!(matches!(
        confirm_reply(failed(), 204, "done"),
        Err(DockerApiError::TransportError(TransportError::NoStatus))
    ));
    assert!(matches!(
        decode_reply::<Container>(failed(), 201),
        Err(DockerApiError::TransportError(TransportError::NoStatus))
    ));
    assert_eq!(confirm_reply(Ok(response(204, "")), 204, "done").unwrap(), "done");
    assert_eq!(decode_reply::<Container>(Ok(response(201, "{\"Id\":\"a\"}")), 201).unwrap().Id, "a");
    assert_invalid(confirm_reply(Ok(response(500, "x")), 204, "done").unwrap_err(), 500, "x");
}

#[test]
fn request_body_is_the_documents_text() {
    let document = Json::Array(vec![Json::Text("a".to_owned()), Json::NegInt(-1)]);
    assert_eq!(request_body(&document).unwrap(), "[\"a\",-1]");
    let e = request_body(&Json::Real("not a number".to_owned())).unwrap_err();
    assert!(matches!(e, DockerApiError::JsonSerializationError(JsonError::Syntax(_))));
    assert_eq!(e.message(), "the request body cannot be written");
}
