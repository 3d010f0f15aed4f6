use http_server::connection_step;
use http_server::Handler;
use http_server::handle_request;
use http_server::write_step;
use http_server::Method;
use http_server::ReadOutcome;
use http_server::Request;
use http_server::Response;
use http_server::Server;
use http_server::Step;

type HandlerFn = fn(&Request) -> Response;

fn ok_hello(_req: &Request) -> Response {
    Response::new(200, b"hello".to_vec())
}

fn ok_items(_req: &Request) -> Response {
    Response::new(200, b"items".to_vec())
}

fn created_items(_req: &Request) -> Response {
    Response::new(201, b"created".to_vec())
}

fn echo(req: &Request) -> Response {
    Response::new(200, req.body.clone())
}

fn second_get(_req: &Request) -> Response {
    Response::new(200, b"second".to_vec())
}

fn request(method: Method, uri: &str, body: &[u8]) -> Request {
    Request::new(method, uri.to_owned(), body.to_vec())
}

#[test]
fn registered_pair_reaches_its_handler() {
    let mut server: Server<HandlerFn> = Server::new("127.0.0.1:8080", 5);
    let route = server.at("/hello");
    route.get(&mut server, ok_hello);

    let resp = handle_request(&server.routes, &request(Method::Get, "/hello", b""));
    assert_eq!(resp.status, 200);
    assert_eq!(resp.body, b"hello".to_vec());
}

#[test]
fn unknown_uri_yields_404() {
    let mut server: Server<HandlerFn> = Server::new("127.0.0.1:8080", 5);
    let route = server.at("/hello");
    route.get(&mut server, ok_hello);

    let resp = handle_request(&server.routes, &request(Method::Delete, "/unknown", b""));
    assert_eq!(resp.status, 404);
    assert!(resp.body.is_empty());
}

#[test]
fn unknown_method_on_known_uri_yields_405() {
    let mut server: Server<HandlerFn> = Server::new("127.0.0.1:8080", 5);
    let route = server.at("/echo");
    route.post(&mut server, echo);

    let resp = handle_request(&server.routes, &request(Method::Get, "/echo", b""));
    assert_eq!(resp.status, 405);
    assert!(resp.body.is_empty());
}

#[test]
fn post_echo_returns_the_body() {
    let mut server: Server<HandlerFn> = Server::new("127.0.0.1:8080", 5);
    let route = server.at("/echo");
    route.post(&mut server, echo);

    let resp = handle_request(&server.routes, &request(Method::Post, "/echo", b"hi"));
    assert_eq!(resp.status, 200);
    assert_eq!(resp.body, b"hi".to_vec());
}

#[test]
fn same_uri_different_methods_dispatch_independently() {
    let mut server: Server<HandlerFn> = Server::new("127.0.0.1:8080", 5);
    let route = server.at("/items");
    route.get(&mut server, ok_items).post(&mut server, created_items);

    let got = handle_request(&server.routes, &request(Method::Get, "/items", b""));
    assert_eq!(got.status, 200);
    assert_eq!(got.body, b"items".to_vec());

    let posted = handle_request(&server.routes, &request(Method::Post, "/items", b""));
    assert_eq!(posted.status, 201);
    assert_eq!(posted.body, b"created".to_vec());
}

#[test]
fn first_registered_handler_wins_on_duplicate_method() {
    let mut server: Server<HandlerFn> = Server::new("127.0.0.1:8080", 5);
    let route = server.at("/hello");
    route.get(&mut server, ok_hello).get(&mut server, second_get);

    let resp = handle_request(&server.routes, &request(Method::Get, "/hello", b""));
    assert_eq!(resp.body, b"hello".to_vec());
}

#[test]
fn registering_again_keeps_existing_handlers() {
    let mut server: Server<HandlerFn> = Server::new("127.0.0.1:8080", 5);
    let route = server.at("/hello");
    route.get(&mut server, ok_hello);
    // A second `at` on the same URI must find the entry, not replace it.
    let route = server.at("/hello");
    route.post(&mut server, echo);

    let got = handle_request(&server.routes, &request(Method::Get, "/hello", b""));
    assert_eq!(got.body, b"hello".to_vec());
    let posted = handle_request(&server.routes, &request(Method::Post, "/hello", b"x"));
    assert_eq!(posted.body, b"x".to_vec());
}

#[test]
fn connection_stays_usable_after_405() {
    let mut server: Server<HandlerFn> = Server::new("127.0.0.1:8080", 5);
    let route = server.at("/echo");
    route.post(&mut server, echo);

    let first = connection_step(
        &server.routes,
        ReadOutcome::Request(request(Method::Get, "/echo", b"")),
    );
    match first {
        Step::Respond(resp) => assert_eq!(resp.status, 405),
        _ => panic!("a 405 must be answered, not close the connection"),
    }

    // The same connection serves the next request.
    let second = connection_step(
        &server.routes,
        ReadOutcome::Request(request(Method::Post, "/echo", b"again")),
    );
    match second {
        Step::Respond(resp) => {
            assert_eq!(resp.status, 200);
            assert_eq!(resp.body, b"again".to_vec());
        },
        _ => panic!("the connection must stay usable after a 405"),
    }
}

#[test]
fn idle_timeout_closes_silently() {
    let mut server: Server<HandlerFn> = Server::new("127.0.0.1:8080", 5);
    let route = server.at("/hello");
    route.get(&mut server, ok_hello);

    match connection_step(&server.routes, ReadOutcome::TimedOut) {
        Step::Close { log_failure } => assert!(!log_failure),
        _ => panic!("an idle timeout must close without a response"),
    }
}

#[test]
fn read_failure_closes_logged() {
    let mut server: Server<HandlerFn> = Server::new("127.0.0.1:8080", 5);
    let route = server.at("/hello");
    route.get(&mut server, ok_hello);

    match connection_step(&server.routes, ReadOutcome::Failed) {
        Step::Close { log_failure } => assert!(log_failure),
        _ => panic!("a read failure must close the connection"),
    }
}

#[test]
fn write_outcome_decides_the_loop() {
    assert!(matches!(write_step(true), Step::ReadNext));
    match write_step(false) {
        Step::Close { log_failure } => assert!(log_failure),
        _ => panic!("a write failure must close the connection"),
    }
}

#[test]
fn server_keeps_its_configuration() {
    let server: Server<HandlerFn> = Server::new("192.168.0.1:9000", 42);
    assert_eq!(server.address, "192.168.0.1:9000".to_owned());
    assert_eq!(server.timeout, 42);
}

fn answer_get(_req: &Request) -> Response {
    Response::new(200, b"get".to_vec())
}

fn answer_head(_req: &Request) -> Response {
    Response::new(200, b"head".to_vec())
}

fn answer_put(_req: &Request) -> Response {
    Response::new(200, b"put".to_vec())
}

fn answer_delete(_req: &Request) -> Response {
    Response::new(200, b"delete".to_vec())
}

fn answer_trace(_req: &Request) -> Response {
    Response::new(200, b"trace".to_vec())
}

fn answer_options(_req: &Request) -> Response {
    Response::new(200, b"options".to_vec())
}

fn answer_connect(_req: &Request) -> Response {
    Response::new(200, b"connect".to_vec())
}

fn answer_patch(_req: &Request) -> Response {
    Response::new(200, b"patch".to_vec())
}

fn answer_post(_req: &Request) -> Response {
    Response::new(200, b"post".to_vec())
}

#[test]
fn every_method_builder_registers_its_own_handler() {
    let mut server: Server<HandlerFn> = Server::new("127.0.0.1:8080", 5);
    let route = server.at("/all");
    route
        .get(&mut server, answer_get)
        .head(&mut server, answer_head)
        .post(&mut server, answer_post)
        .put(&mut server, answer_put)
        .delete(&mut server, answer_delete)
        .trace(&mut server, answer_trace)
        .options(&mut server, answer_options)
        .connect(&mut server, answer_connect)
        .patch(&mut server, answer_patch);

    let cases: Vec<(Method, &[u8])> = vec![
        (Method::Get, b"get"),
        (Method::Head, b"head"),
        (Method::Post, b"post"),
        (Method::Put, b"put"),
        (Method::Delete, b"delete"),
        (Method::Trace, b"trace"),
        (Method::Options, b"options"),
        (Method::Connect, b"connect"),
        (Method::Patch, b"patch"),
    ];
    for (method, body) in cases {
        let resp = handle_request(&server.routes, &request(method, "/all", b""));
        assert_eq!(resp.status, 200);
        assert_eq!(resp.body, body.to_vec());
    }
}

#[test]
fn empty_table_answers_404() {
    let server: Server<HandlerFn> = Server::new("127.0.0.1:8080", 5);
    let resp = handle_request(&server.routes, &request(Method::Get, "/", b""));
    assert_eq!(resp.status, 404);
}

#[test]
fn registering_one_uri_leaves_others_alone() {
    let mut server: Server<HandlerFn> = Server::new("127.0.0.1:8080", 5);
    let a = server.at("/a");
    a.get(&mut server, ok_hello);
    let b = server.at("/b");
    b.post(&mut server, echo);

    // /b knows nothing of /a's GET handler.
    let resp = handle_request(&server.routes, &request(Method::Get, "/b", b""));
    assert_eq!(resp.status, 405);
    // /a still answers as before.
    let resp = handle_request(&server.routes, &request(Method::Get, "/a", b""));
    assert_eq!(resp.body, b"hello".to_vec());
}

#[test]
fn handler_carries_its_method_and_function() {
    let handler: Handler<HandlerFn> = Handler::new(Method::Post, echo);
    assert_eq!(*handler.method(), Method::Post);
    let resp = handler.run(&request(Method::Post, "/echo", b"abc"));
    assert_eq!(resp.body, b"abc".to_vec());
}
