use netatmo_connect::{check_response, Error, HttpResponse};

fn response(status: u16, body: &str) -> HttpResponse {
    HttpResponse { status, body: body.to_string() }
}

#[test]
fn success_statuses_pass_unmodified() {
    for status in [200u16, 201, 204, 250, 299] {
        let r = check_response(response(status, "{\"ok\":true}")).unwrap();
        assert_eq!(r.status, status);
        assert_eq!(r.body, "{\"ok\":true}");
    }
}

#[test]
fn other_statuses_fail_with_status_and_body() {
    for status in [0u16, 100, 199, 300, 302, 401, 404, 500, 503, u16::MAX] {
        match check_response(response(status, "denied")) {
            Err(Error::RequestFailed { status: s, body }) => {
                assert_eq!(s, status);
                assert_eq!(body, "denied");
            }
            other => panic!("unexpected {:?}", other),
        }
    }
}

#[test]
fn failure_with_empty_body_reports_status() {
    match check_response(response(403, "")) {
        Err(Error::RequestFailed { status, body }) => {
            assert_eq!(status, 403);
            assert_eq!(body, "");
        }
        other => panic!("unexpected {:?}", other),
    }
}
