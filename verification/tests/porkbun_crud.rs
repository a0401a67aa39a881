use zone_update::Config;
use zone_update::errors::Error;
use zone_update::http::HttpRequest;
use zone_update::http::HttpResponse;
use zone_update::ipv4::Ipv4Addr;
use zone_update::op::Action;
use zone_update::op::Op;
use zone_update::op::a_record_result;
use zone_update::op::txt_record_result;
use zone_update::porkbun::Auth;
use zone_update::porkbun::OpState;
use zone_update::porkbun::Porkbun;

/// An in-memory Porkbun look-alike: the records the driven operations
/// created, addressed by host and type, with string identifiers.
struct MockUpstream {
    records: Vec<(String, String, String, String)>,  // id, host, type tag, content
    next_id: u64,
    mutations: u32,
}

impl MockUpstream {
    fn new() -> MockUpstream {
        MockUpstream { records: Vec::new(), next_id: 106926659, mutations: 0 }
    }

    fn respond(&mut self, req: &HttpRequest) -> HttpResponse {
        let pos = req.url.find("/retrieveByNameType/").expect("a retrieve URL");
        let rest = &req.url[pos + "/retrieveByNameType/".len()..];
        let mut parts = rest.split('/');
        let _domain = parts.next().unwrap();
        let tag = parts.next().unwrap();
        let host = parts.next().unwrap();
        let mut entries: Vec<String> = Vec::new();
        for (id, h, t, content) in &self.records {
            if h == host && t == tag {
                let mut obj = serde_json::Map::new();
                obj.insert("id".to_string(), serde_json::Value::String(id.clone()));
                obj.insert("name".to_string(), serde_json::Value::String(h.clone()));
                obj.insert("type".to_string(), serde_json::Value::String(t.clone()));
                obj.insert("content".to_string(), serde_json::Value::String(content.clone()));
                entries.push(serde_json::Value::Object(obj).to_string());
            }
        }
        let body = format!("{{\"records\":[{}]}}", entries.join(","));
        HttpResponse { status: 200, body }
    }

    fn apply(&mut self, req: &HttpRequest) -> HttpResponse {
        self.mutations += 1;
        if req.url.contains("/create/") {
            let body: serde_json::Value =
                serde_json::from_str(req.body.as_ref().expect("a create body")).unwrap();
            let id = self.next_id.to_string();
            self.next_id += 1;
            self.records.push((
                id,
                body.get("name").unwrap().as_str().unwrap().to_string(),
                body.get("type").unwrap().as_str().unwrap().to_string(),
                body.get("content").unwrap().as_str().unwrap().to_string(),
            ));
        } else if req.url.contains("/edit/") {
            let rec_id = req.url.rsplit('/').next().unwrap().to_string();
            let body: serde_json::Value =
                serde_json::from_str(req.body.as_ref().expect("an edit body")).unwrap();
            for (id, _, _, content) in self.records.iter_mut() {
                if *id == rec_id {
                    *content = body.get("content").unwrap().as_str().unwrap().to_string();
                }
            }
        } else if req.url.contains("/delete/") {
            let rec_id = req.url.rsplit('/').next().unwrap().to_string();
            self.records.retain(|(id, _, _, _)| *id != rec_id);
        } else {
            panic!("unexpected mutation URL");
        }
        HttpResponse { status: 200, body: "{\"status\":\"SUCCESS\"}".to_string() }
    }
}

/// Run one operation to completion against the mock.
fn drive(client: &Porkbun, upstream: &mut MockUpstream, op: Op) -> Result<Option<String>, Error> {
    let mut st = OpState::Start;
    let mut event: Option<HttpResponse> = None;
    for _ in 0..8 {
        let (st2, action) = client.op_step(&op, st, event);
        st = st2;
        match action {
            Action::Query(req) => {
                event = Some(upstream.respond(&req));
            },
            Action::Mutate(req) => {
                event = Some(upstream.apply(&req));
            },
            Action::Done(r) => {
                return r;
            },
        }
    }
    panic!("operation did not finish");
}

fn client(dry_run: bool) -> Porkbun {
    Porkbun::new(
        Config { domain: "example.com".to_string(), dry_run },
        Auth { key: "SECRET-REDACTED".to_string(), secret: "SECRET-REDACTED".to_string() },
    )
}

#[test]
fn porkbun_a_record_crud() {
    let mut upstream = MockUpstream::new();
    let p = client(false);

    let ip = Ipv4Addr::new(1, 1, 1, 1);
    drive(&p, &mut upstream, Op::create_a_record("host", &ip)).unwrap();
    let cur = drive(&p, &mut upstream, Op::get_a_record("host")).unwrap();
    assert_eq!(Ok(Some(ip)), a_record_result(cur).map_err(|_| ()));

    let ip2 = Ipv4Addr::new(2, 2, 2, 2);
    drive(&p, &mut upstream, Op::update_a_record("host", &ip2)).unwrap();
    let cur = drive(&p, &mut upstream, Op::get_a_record("host")).unwrap();
    assert_eq!(Ok(Some(ip2)), a_record_result(cur).map_err(|_| ()));

    drive(&p, &mut upstream, Op::delete_a_record("host")).unwrap();
    let cur = drive(&p, &mut upstream, Op::get_a_record("host")).unwrap();
    assert_eq!(None, cur);
}

#[test]
fn porkbun_txt_crud() {
    let mut upstream = MockUpstream::new();
    let p = client(false);

    let txt = "a text reference".to_string();
    drive(&p, &mut upstream, Op::create_txt_record("h", &txt)).unwrap();
    assert_eq!("\"a text reference\"", upstream.records[0].3);
    let cur = drive(&p, &mut upstream, Op::get_txt_record("h")).unwrap();
    assert_eq!(Some(txt), txt_record_result(cur));

    drive(&p, &mut upstream, Op::delete_txt_record("h")).unwrap();
    let cur = drive(&p, &mut upstream, Op::get_txt_record("h")).unwrap();
    assert_eq!(None, txt_record_result(cur));
}

#[test]
fn porkbun_dry_run_suppresses_mutation() {
    let mut upstream = MockUpstream::new();
    let p = client(true);
    let ip = Ipv4Addr::new(1, 1, 1, 1);
    assert!(drive(&p, &mut upstream, Op::create_a_record("host", &ip)).is_ok());
    assert!(drive(&p, &mut upstream, Op::update_a_record("host", &ip)).is_ok());
    assert!(drive(&p, &mut upstream, Op::delete_a_record("host")).is_ok());
    assert_eq!(0, upstream.mutations);
    let cur = drive(&p, &mut upstream, Op::get_a_record("host")).unwrap();
    assert_eq!(None, cur);
}
