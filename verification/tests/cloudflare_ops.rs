use zone_update::Config;
use zone_update::RecordType;
use zone_update::cloudflare::Auth;
use zone_update::cloudflare::Cloudflare;
use zone_update::cloudflare::OpState;
use zone_update::errors::Error;
use zone_update::http::HttpRequest;
use zone_update::http::HttpResponse;
use zone_update::http::Method;
use zone_update::ipv4::Ipv4Addr;
use zone_update::op::Action;
use zone_update::op::Op;
use zone_update::op::a_record_result;
use zone_update::op::txt_record_result;

/// An in-memory Cloudflare look-alike: one zone, and the records the
/// driven operations created.
struct MockUpstream {
    records: Vec<(String, String, String, String)>,  // id, full name, type tag, content
    next_id: u64,
    zone_fetches: u32,
    mutations: u32,
}

impl MockUpstream {
    fn new() -> MockUpstream {
        MockUpstream { records: Vec::new(), next_id: 1, zone_fetches: 0, mutations: 0 }
    }

    fn with_records(records: Vec<(String, String, String, String)>) -> MockUpstream {
        MockUpstream { records, next_id: 1000, zone_fetches: 0, mutations: 0 }
    }

    fn respond(&mut self, req: &HttpRequest) -> HttpResponse {
        assert!(matches!(req.method, Method::Get));
        if let Some(pos) = req.url.find("/zones?name=") {
            let _domain = &req.url[pos + "/zones?name=".len()..];
            self.zone_fetches += 1;
            return HttpResponse {
                status: 200,
                body: "{\"success\":true,\"result\":[{\"id\":\"zone1\",\"name\":\"example.com\"}]}"
                    .to_string(),
            };
        }
        let pos = req.url.find("/dns_records?name=").expect("a lookup URL");
        let name = &req.url[pos + "/dns_records?name=".len()..];
        let mut entries: Vec<String> = Vec::new();
        for (id, full, tag, content) in &self.records {
            if full == name {
                let mut obj = serde_json::Map::new();
                obj.insert("id".to_string(), serde_json::Value::String(id.clone()));
                obj.insert("name".to_string(), serde_json::Value::String(full.clone()));
                obj.insert("ttl".to_string(), serde_json::Value::from(300u64));
                obj.insert("type".to_string(), serde_json::Value::String(tag.clone()));
                obj.insert("content".to_string(), serde_json::Value::String(content.clone()));
                entries.push(serde_json::Value::Object(obj).to_string());
            }
        }
        let body = format!("{{\"success\":true,\"result\":[{}]}}", entries.join(","));
        HttpResponse { status: 200, body }
    }

    fn apply(&mut self, req: &HttpRequest) -> HttpResponse {
        self.mutations += 1;
        match req.method {
            Method::Post => {
                let body: serde_json::Value =
                    serde_json::from_str(req.body.as_ref().expect("a create body")).unwrap();
                let id = format!("rec{}", self.next_id);
                self.next_id += 1;
                self.records.push((
                    id,
                    body.get("name").unwrap().as_str().unwrap().to_string(),
                    body.get("type").unwrap().as_str().unwrap().to_string(),
                    body.get("content").unwrap().as_str().unwrap().to_string(),
                ));
            },
            Method::Put => {
                let rec_id = req.url.rsplit('/').next().unwrap().to_string();
                let body: serde_json::Value =
                    serde_json::from_str(req.body.as_ref().expect("an update body")).unwrap();
                for (id, _, _, content) in self.records.iter_mut() {
                    if *id == rec_id {
                        *content = body.get("content").unwrap().as_str().unwrap().to_string();
                    }
                }
            },
            Method::Delete => {
                let rec_id = req.url.rsplit('/').next().unwrap().to_string();
                self.records.retain(|(id, _, _, _)| *id != rec_id);
            },
            _ => panic!("unexpected mutation method"),
        }
        HttpResponse { status: 200, body: String::new() }
    }
}

/// Run one operation to completion against the mock.
fn drive(client: &mut Cloudflare, upstream: &mut MockUpstream, op: Op) -> Result<
    Option<String>,
    Error,
> {
    let mut st = OpState::Start;
    let mut event: Option<HttpResponse> = None;
    for _ in 0..8 {
        let (st2, action) = client.op_step(&op, st, event);
        st = st2;
        match action {
            Action::Query(req) => {
                event = Some(upstream.respond(&req));
            },
            Action::Mutate(req) => {
                event = Some(upstream.apply(&req));
            },
            Action::Done(r) => {
                return r;
            },
        }
    }
    panic!("operation did not finish");
}

fn client(dry_run: bool) -> Cloudflare {
    let config = Config { domain: "example.com".to_string(), dry_run };
    let auth = Auth { key: "SECRET-REDACTED".to_string() };
    Cloudflare::new(config, auth)
}

#[test]
fn cloudflare_a_record_crud() {
    let mut upstream = MockUpstream::new();
    let mut cf = client(false);

    let ip = Ipv4Addr::new(10, 9, 8, 7);
    drive(&mut cf, &mut upstream, Op::create_a_record("abcxyz", &ip)).unwrap();
    let cur = drive(&mut cf, &mut upstream, Op::get_a_record("abcxyz")).unwrap();
    assert_eq!(Ok(Some(ip)), a_record_result(cur).map_err(|_| ()));

    let ip2 = Ipv4Addr::new(10, 1, 2, 3);
    drive(&mut cf, &mut upstream, Op::update_a_record("abcxyz", &ip2)).unwrap();
    let cur = drive(&mut cf, &mut upstream, Op::get_a_record("abcxyz")).unwrap();
    assert_eq!(Ok(Some(ip2)), a_record_result(cur).map_err(|_| ()));

    drive(&mut cf, &mut upstream, Op::delete_a_record("abcxyz")).unwrap();
    let cur = drive(&mut cf, &mut upstream, Op::get_a_record("abcxyz")).unwrap();
    assert_eq!(None, cur);
}

#[test]
fn cloudflare_txt_round_trip() {
    let mut upstream = MockUpstream::new();
    let mut cf = client(false);

    let txt = "a text reference".to_string();
    drive(&mut cf, &mut upstream, Op::create_txt_record("h", &txt)).unwrap();
    // The stored value carries the quote convention upstream.
    assert_eq!("\"a text reference\"", upstream.records[0].3);
    let cur = drive(&mut cf, &mut upstream, Op::get_txt_record("h")).unwrap();
    assert_eq!(Some(txt), txt_record_result(cur));

    let txt2 = "another text reference".to_string();
    drive(&mut cf, &mut upstream, Op::update_txt_record("h", &txt2)).unwrap();
    let cur = drive(&mut cf, &mut upstream, Op::get_txt_record("h")).unwrap();
    assert_eq!(Some(txt2), txt_record_result(cur));

    drive(&mut cf, &mut upstream, Op::delete_txt_record("h")).unwrap();
    let cur = drive(&mut cf, &mut upstream, Op::get_txt_record("h")).unwrap();
    assert_eq!(None, txt_record_result(cur));
}

#[test]
fn cloudflare_not_found_is_not_an_error() {
    let mut upstream = MockUpstream::new();
    let mut cf = client(false);
    let cur = drive(&mut cf, &mut upstream, Op::get_record(RecordType::A, "nothere"));
    assert_eq!(Ok(None), cur.map_err(|_| ()));
}

#[test]
fn cloudflare_two_records_is_unexpected() {
    let mut upstream = MockUpstream::with_records(vec![
        ("r1".to_string(), "dup.example.com".to_string(), "A".to_string(), "1.1.1.1".to_string()),
        ("r2".to_string(), "dup.example.com".to_string(), "A".to_string(), "2.2.2.2".to_string()),
    ]);
    let mut cf = client(false);
    match drive(&mut cf, &mut upstream, Op::get_record(RecordType::A, "dup")) {
        Err(Error::UnexpectedRecord(_)) => (),
        _ => panic!("two matching records must be an unexpected-record error"),
    }
}

#[test]
fn cloudflare_dry_run_suppresses_mutation() {
    let mut upstream = MockUpstream::new();
    let mut cf = client(true);

    let ip = Ipv4Addr::new(1, 1, 1, 1);
    assert!(drive(&mut cf, &mut upstream, Op::create_a_record("host", &ip)).is_ok());
    assert!(drive(&mut cf, &mut upstream, Op::update_a_record("host", &ip)).is_ok());
    assert!(drive(&mut cf, &mut upstream, Op::delete_a_record("host")).is_ok());
    assert_eq!(0, upstream.mutations);
    let cur = drive(&mut cf, &mut upstream, Op::get_a_record("host")).unwrap();
    assert_eq!(None, cur);
}

#[test]
fn cloudflare_zone_is_resolved_once() {
    let mut upstream = MockUpstream::new();
    let mut cf = client(false);
    for _ in 0..5 {
        drive(&mut cf, &mut upstream, Op::get_record(RecordType::A, "host")).unwrap();
    }
    assert_eq!(1, upstream.zone_fetches);
}
