use kimai::client::{
    activities_request, api_url, begin_record_request, check_response, current_user_request,
    customers_request, get_headers, projects_request, timesheet_request, ApiRequest,
    AUTH_TOKEN_HEADER, AUTH_USER_HEADER,
};
use kimai::config::{secret_from_output, Config, ConfigFile, SecretSource};
use kimai::datetime::{CivilDate, ClockTime, LocalStamp, NaiveStamp};
use kimai::error::KimaiError;
use kimai::model::{join_tags, NewTimesheetRecord};

fn config() -> Config {
    Config::new(
        "https://kimai.example.org".to_string(),
        "alice".to_string(),
        "s3cret".to_string(),
    )
}

fn query_pairs(r: &ApiRequest) -> Vec<(String, String)> {
    r.query.clone().unwrap()
}

fn file(password: Option<&str>, pass_path: Option<&str>) -> ConfigFile {
    ConfigFile {
        host: "https://h".to_string(),
        user: "u".to_string(),
        password: password.map(|p| p.to_string()),
        pass_path: pass_path.map(|p| p.to_string()),
    }
}

#[test]
fn no_secret_is_a_configuration_error() {
    match file(None, None).secret_source() {
        Err(KimaiError::Config(m)) => assert_eq!(m, "No password given in config!"),
        _ => panic!("expected a configuration error"),
    }
}

#[test]
fn password_is_used_verbatim() {
    match file(Some(" pw "), Some("store/entry")).secret_source() {
        Ok(SecretSource::Password(p)) => assert_eq!(p, " pw "),
        _ => panic!("expected the password"),
    }
}

#[test]
fn pass_path_is_looked_up() {
    match file(None, Some("store/entry")).secret_source() {
        Ok(SecretSource::PassPath(p)) => assert_eq!(p, "store/entry"),
        _ => panic!("expected the secret-store entry"),
    }
}

#[test]
fn lookup_output_is_trimmed() {
    let out = b"  hunter2 \n".to_vec();
    assert_eq!(secret_from_output(true, &out).unwrap(), "hunter2");
    let out = "\u{3000}gr\u{fc}n\t\r\n".as_bytes().to_vec();
    assert_eq!(secret_from_output(true, &out).unwrap(), "gr\u{fc}n");
}

#[test]
fn lookup_output_not_utf8_is_an_encoding_error() {
    let out = vec![0x66, 0xff, 0x66];
    assert!(matches!(secret_from_output(true, &out), Err(KimaiError::Utf8(_))));
}

#[test]
fn failed_lookup_is_an_io_error() {
    let out = b"secret".to_vec();
    assert!(matches!(secret_from_output(false, &out), Err(KimaiError::IO(_))));
}

#[test]
fn not_found_is_an_api_error_with_the_body() {
    match check_response(404, "not found".to_string()) {
        Err(KimaiError::Api(m)) => assert_eq!(m, "not found"),
        _ => panic!("expected an API error"),
    }
}

#[test]
fn created_passes_the_body_on() {
    let body = "{\"id\":1}".to_string();
    assert_eq!(check_response(201, body.clone()).unwrap(), body);
    assert!(check_response(200, String::new()).is_ok());
    assert!(check_response(299, String::new()).is_ok());
    assert!(check_response(300, String::new()).is_err());
    assert!(check_response(199, String::new()).is_err());
    assert!(check_response(500, String::new()).is_err());
}

#[test]
fn headers_carry_user_and_token() {
    let h = get_headers(&config()).unwrap();
    assert_eq!(h.len(), 2);
    assert_eq!(h.get(AUTH_USER_HEADER).unwrap().as_bytes(), b"alice");
    assert_eq!(h.get(AUTH_TOKEN_HEADER).unwrap().as_bytes(), b"s3cret");
    assert_eq!(AUTH_USER_HEADER, "x-auth-user");
    assert_eq!(AUTH_TOKEN_HEADER, "x-auth-token");
}

#[test]
fn headers_take_text_beyond_ascii() {
    let c = Config::new("h".to_string(), "j\u{f6}rg".to_string(), "a b\tc".to_string());
    let h = get_headers(&c).unwrap();
    assert_eq!(h.get(AUTH_USER_HEADER).unwrap().as_bytes(), "j\u{f6}rg".as_bytes());
}

#[test]
fn control_characters_fail_header_construction() {
    let c = Config::new("h".to_string(), "alice".to_string(), "bad\nsecret".to_string());
    assert!(matches!(get_headers(&c), Err(KimaiError::Config(_))));
    let c = Config::new("h".to_string(), "al\u{7f}ice".to_string(), "ok".to_string());
    assert!(matches!(get_headers(&c), Err(KimaiError::Config(_))));
}

#[test]
fn url_joins_host_and_endpoint() {
    assert_eq!(api_url(&"https://h".to_string(), "api/customers"), "https://h/api/customers");
}

#[test]
fn customers_request_with_and_without_term() {
    let r = customers_request(&config(), Some("acme".to_string()));
    assert_eq!(r.url, "https://kimai.example.org/api/customers");
    assert_eq!(query_pairs(&r), vec![("term".to_string(), "acme".to_string())]);
    assert!(customers_request(&config(), None).query.is_none());
}

#[test]
fn projects_and_activities_requests() {
    let r = projects_request(&config(), Some(vec![3, 7, 12]), None);
    assert_eq!(r.url, "https://kimai.example.org/api/projects");
    assert_eq!(query_pairs(&r), vec![("customers".to_string(), "3,7,12".to_string())]);
    let r = activities_request(&config(), Some(vec![1]), Some("x".to_string()));
    assert_eq!(r.url, "https://kimai.example.org/api/activities");
    assert_eq!(
        query_pairs(&r),
        vec![("projects".to_string(), "1".to_string()), ("term".to_string(), "x".to_string())]
    );
}

#[test]
fn timesheet_request_filters() {
    let r = timesheet_request(&config(), Some(2), None, Some(vec![5, 6]), Some(vec![]));
    assert_eq!(r.url, "https://kimai.example.org/api/timesheets");
    assert_eq!(
        query_pairs(&r),
        vec![("user".to_string(), "2".to_string()), ("projects".to_string(), "5,6".to_string())]
    );
    assert!(timesheet_request(&config(), None, None, None, None).query.is_none());
}

#[test]
fn user_and_new_record_requests() {
    let r = current_user_request(&config());
    assert_eq!(r.url, "https://kimai.example.org/api/users/me");
    assert!(r.query.is_none());
    let r = begin_record_request(&config());
    assert_eq!(r.url, "https://kimai.example.org/api/timesheets");
    assert!(r.query.is_none());
}

#[test]
fn new_record_joins_tags_and_drops_the_zone() {
    let begin = LocalStamp {
        local: NaiveStamp {
            date: CivilDate { year: 2024, month: 3, day: 1 },
            time: ClockTime { hour: 9, minute: 30, second: 0, nanosecond: 0 },
        },
        offset_seconds: -18000,
    };
    let r = NewTimesheetRecord::new(
        4,
        9,
        begin,
        Some("work".to_string()),
        Some(vec!["a".to_string(), "b c".to_string(), "d".to_string()]),
    );
    assert_eq!(r.project, 4);
    assert_eq!(r.activity, 9);
    assert_eq!(r.begin, begin.local);
    assert_eq!(r.description.as_deref(), Some("work"));
    assert_eq!(r.tags.as_deref(), Some("a,b c,d"));
    let r = NewTimesheetRecord::new(4, 9, begin, None, None);
    assert!(r.tags.is_none());
    assert!(r.description.is_none());
}

#[test]
fn tags_join_edges() {
    assert_eq!(join_tags(&vec![]), "");
    assert_eq!(join_tags(&vec!["only".to_string()]), "only");
    assert_eq!(join_tags(&vec!["a,b".to_string(), "c".to_string()]), "a,b,c");
}

#[test]
fn error_messages_have_their_label() {
    assert_eq!(KimaiError::Api("not found".to_string()).message(), "API Error: not found");
    assert_eq!(KimaiError::Config("x".to_string()).message(), "Config Error: x");
    assert_eq!(KimaiError::IO("y".to_string()).message(), "IO Error: y");
    assert_eq!(KimaiError::Utf8("z".to_string()).message(), "UTF-8 Error: z");
    assert_eq!(KimaiError::Toml("t".to_string()).message(), "TOML Error: t");
    assert_eq!(KimaiError::Reqwest("r".to_string()).message(), "Reqwest Error: r");
    assert_eq!(KimaiError::Decode("s".to_string()).message(), "Decode Error: s");
    assert_eq!(
        KimaiError::ChronoParse("c".to_string()).message(),
        "Chrono Parser Error: c"
    );
    assert_eq!(
        KimaiError::XdgBaseDirectories("d".to_string()).message(),
        "XDG BaseDirectories Error: d"
    );
    assert_eq!(KimaiError::Other("o".to_string()).message(), "Error: o");
}
