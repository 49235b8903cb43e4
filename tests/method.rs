use rtsp::error::Error;
use rtsp::method::Method;

#[test]
fn method_direction() {
    assert!(!Method::Redirect.is_c_to_s());
    assert!(Method::Redirect.is_s_to_c());
    assert!(Method::Play.is_c_to_s());
    assert!(!Method::Play.is_s_to_c());
    let ext = Method::Extension("FOO".to_string());
    assert!(ext.is_c_to_s());
    assert!(ext.is_s_to_c());
}

#[test]
fn method_direction_table() {
    let both = [Method::Options, Method::Announce, Method::GetParameter, Method::SetParameter];
    for m in both.iter() {
        assert!(m.is_c_to_s());
        assert!(m.is_s_to_c());
    }
    let client_only = [
        Method::Describe,
        Method::Setup,
        Method::Play,
        Method::Pause,
        Method::Record,
        Method::Teardown,
    ];
    for m in client_only.iter() {
        assert!(m.is_c_to_s());
        assert!(!m.is_s_to_c());
    }
}

#[test]
fn method_parse() {
    assert!(matches!(Method::parse(""), Err(Error::Method)));
    assert_eq!(Method::parse("FOO").unwrap(), Method::Extension("FOO".to_string()));
    assert_eq!(Method::parse("PLAY").unwrap(), Method::Play);
    assert_eq!(Method::parse("GET_PARAMETER").unwrap(), Method::GetParameter);
    assert_eq!(Method::parse("play").unwrap(), Method::Extension("play".to_string()));
    assert_eq!(Method::parse(" PLAY").unwrap(), Method::Extension(" PLAY".to_string()));
}

#[test]
fn method_from_str() {
    let m: Method = "TEARDOWN".parse().unwrap();
    assert_eq!(m, Method::Teardown);
    let e: Result<Method, Error> = "".parse();
    assert!(e.is_err());
}

#[test]
fn method_tokens() {
    assert_eq!(Method::SetParameter.to_token(), "SET_PARAMETER");
    assert_eq!(Method::Options.to_string(), "OPTIONS");
    assert_eq!(Method::Extension("x-Vendor".to_string()).to_token(), "x-Vendor");
    assert_eq!(Method::Redirect.as_ref(), "REDIRECT");
    let names = [
        "OPTIONS", "DESCRIBE", "SETUP", "PLAY", "PAUSE", "RECORD", "ANNOUNCE", "TEARDOWN",
        "GET_PARAMETER", "SET_PARAMETER", "REDIRECT",
    ];
    for n in names.iter() {
        let m = Method::parse(n).unwrap();
        assert!(!matches!(m, Method::Extension(_)));
        assert_eq!(m.to_token(), *n);
    }
}

#[test]
fn method_default_is_options() {
    assert_eq!(Method::default(), Method::Options);
}
