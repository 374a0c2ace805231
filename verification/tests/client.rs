use wmi_json::client::{
    get_system_info, quick_query, Asking, ConnectFailure, Encoding, OneShot, Opening, WmiClient,
    WmiClientConfig, DEFAULT_NAMESPACE, PROBE_QUERY, SYSTEM_INFO_QUERY,
};
use wmi_json::error::{ErrorKind, Language, Step, WmiError};
use wmi_json::json::{JsonNumber, JsonValue};
use wmi_json::record::Record;
use wmi_json::variant::Variant;

fn open(namespace: Option<&str>) -> WmiClient {
    let config = WmiClientConfig { namespace: namespace.map(str::to_string), timeout: None };
    WmiClient::new(Some(config)).connected(Ok(())).expect("an open session")
}

#[test]
fn constants_have_their_texts() {
    assert_eq!(DEFAULT_NAMESPACE, "root/cimv2");
    assert_eq!(PROBE_QUERY, "SELECT * FROM __Namespace WHERE Name = 'default'");
    assert_eq!(SYSTEM_INFO_QUERY, "SELECT * FROM Win32_ComputerSystem");
}

#[test]
fn session_without_configuration_uses_the_default_namespace() {
    assert_eq!(WmiClient::new(None), Opening { namespace: "root/cimv2".to_string() });
    let config = WmiClientConfig { namespace: None, timeout: Some(30) };
    assert_eq!(WmiClient::new(Some(config)), Opening { namespace: "root/cimv2".to_string() });
}

#[test]
fn session_uses_the_configured_namespace() {
    let config = WmiClientConfig { namespace: Some("root/wmi".to_string()), timeout: None };
    let opening = WmiClient::new(Some(config));
    assert_eq!(opening.namespace, "root/wmi");
    let client = opening.connected(Ok(())).unwrap();
    assert_eq!(client.get_namespace(), "root/wmi");
}

#[test]
fn failed_initialization_is_a_connection_error() {
    let reply = Err(ConnectFailure::Initialize("0x80010106".to_string()));
    assert_eq!(
        WmiClient::new(None).connected(reply),
        Err(WmiError {
            kind: ErrorKind::Connection,
            message: "初始化COM失败: 0x80010106".to_string(),
        })
    );
}

#[test]
fn unreachable_namespace_is_a_connection_error() {
    let config = WmiClientConfig { namespace: Some("root/nowhere".to_string()), timeout: None };
    let reply = Err(ConnectFailure::Connect("invalid namespace".to_string()));
    assert_eq!(
        WmiClient::new(Some(config)).connected(reply),
        Err(WmiError {
            kind: ErrorKind::Connection,
            message: "创建WMI连接失败: invalid namespace".to_string(),
        })
    );
}

#[test]
fn query_text_is_handed_on_unchanged() {
    let client = open(None);
    let text = "  select  *  FROM Win32_Process where Name = \"a'b\"  ";
    assert_eq!(
        client.query(text.to_string()),
        Asking { wql: text.to_string(), language: Language::Chinese }
    );
}

#[test]
fn answered_query_gives_projected_rows() {
    let mut record = Record::new();
    record.insert("Name".to_string(), Variant::String("default".to_string()));
    record.insert("Id".to_string(), Variant::I4(-4));
    let encoding = open(None).query("SELECT * FROM X".to_string()).answered(Ok(vec![record]));
    assert_eq!(
        encoding,
        Ok(Encoding {
            rows: vec![JsonValue::Object(vec![
                ("Name".to_string(), JsonValue::String("default".to_string())),
                ("Id".to_string(), JsonValue::Number(JsonNumber::NegInt(-4))),
            ])],
            language: Language::Chinese,
        })
    );
}

#[test]
fn query_without_records_asks_for_an_empty_array() {
    let encoding = open(None).query("SELECT * FROM X".to_string()).answered(Ok(vec![])).unwrap();
    assert_eq!(encoding.rows, vec![]);
    assert_eq!(encoding.encoded(Ok("[]".to_string())), Ok("[]".to_string()));
}

#[test]
fn failed_query_is_a_query_error() {
    let client = open(None);
    let result = client.query("SELECT".to_string()).answered(Err("invalid query".to_string()));
    assert_eq!(
        result,
        Err(WmiError { kind: ErrorKind::Query, message: "查询失败: invalid query".to_string() })
    );
    let again = client.query("SELECT * FROM X".to_string()).answered(Ok(vec![]));
    assert!(again.is_ok());
    assert_eq!(client.get_namespace(), "root/cimv2");
}

#[test]
fn encoded_text_is_the_result() {
    let encoding = Encoding { rows: vec![], language: Language::Chinese };
    assert_eq!(encoding.encoded(Ok("[{\"a\":1}]".to_string())), Ok("[{\"a\":1}]".to_string()));
}

#[test]
fn failed_encoding_is_a_serialization_error() {
    let encoding = Encoding { rows: vec![], language: Language::Chinese };
    assert_eq!(
        encoding.encoded(Err("key must be a string".to_string())),
        Err(WmiError {
            kind: ErrorKind::Serialization,
            message: "JSON序列化失败: key must be a string".to_string(),
        })
    );
    let encoding = Encoding { rows: vec![], language: Language::English };
    assert_eq!(
        encoding.encoded(Err("key must be a string".to_string())),
        Err(WmiError {
            kind: ErrorKind::Serialization,
            message: "JSON serialization failed: key must be a string".to_string(),
        })
    );
}

#[test]
fn probe_asks_the_sentinel_query() {
    assert_eq!(
        open(None).probe(),
        Asking {
            wql: "SELECT * FROM __Namespace WHERE Name = 'default'".to_string(),
            language: Language::Chinese,
        }
    );
}

#[test]
fn test_connection_is_true_after_a_working_probe() {
    let client = open(None);
    let outcome = client.probe().answered(Ok(vec![])).unwrap().encoded(Ok("[]".to_string()));
    assert!(client.test_connection(&outcome));
}

#[test]
fn test_connection_is_false_after_a_failing_probe() {
    let client = open(None);
    let outcome = match client.probe().answered(Err("access denied".to_string())) {
        Ok(encoding) => encoding.encoded(Ok("[]".to_string())),
        Err(error) => Err(error),
    };
    assert!(outcome.is_err());
    assert!(!client.test_connection(&outcome));
    let outcome = client.probe().answered(Ok(vec![])).unwrap().encoded(Err("full".to_string()));
    assert!(!client.test_connection(&outcome));
}

#[test]
fn quick_query_uses_the_given_namespace() {
    assert_eq!(
        quick_query("SELECT * FROM X".to_string(), Some("root/wmi".to_string())),
        OneShot {
            namespace: Some("root/wmi".to_string()),
            wql: "SELECT * FROM X".to_string(),
            language: Language::Chinese,
        }
    );
}

#[test]
fn quick_query_uses_the_default_namespace() {
    assert_eq!(
        quick_query("SELECT * FROM X".to_string(), None),
        OneShot {
            namespace: Some("root/cimv2".to_string()),
            wql: "SELECT * FROM X".to_string(),
            language: Language::Chinese,
        }
    );
}

#[test]
fn quick_query_on_missing_namespace_is_a_connection_error() {
    let shot = quick_query("SELECT * FROM X".to_string(), Some("root/nowhere".to_string()));
    let result = shot.connected(Err(ConnectFailure::Connect("invalid namespace".to_string())));
    let error = result.unwrap_err();
    assert_eq!(error.kind, ErrorKind::Connection);
    assert_ne!(error.kind, ErrorKind::Query);
    assert_eq!(error.message, "创建WMI连接失败: invalid namespace");
}

#[test]
fn quick_query_runs_its_query_once_connected() {
    let shot = quick_query("SELECT * FROM X".to_string(), None);
    assert_eq!(
        shot.connected(Ok(())),
        Ok(Asking { wql: "SELECT * FROM X".to_string(), language: Language::Chinese })
    );
}

#[test]
fn system_info_asks_for_the_computer_system() {
    let shot = get_system_info();
    assert_eq!(
        shot,
        OneShot {
            namespace: None,
            wql: "SELECT * FROM Win32_ComputerSystem".to_string(),
            language: Language::English,
        }
    );
    assert_eq!(
        shot.connected(Ok(())),
        Ok(Asking {
            wql: "SELECT * FROM Win32_ComputerSystem".to_string(),
            language: Language::English,
        })
    );
}

#[test]
fn system_info_failures_are_reported_in_english() {
    assert_eq!(
        get_system_info().connected(Err(ConnectFailure::Initialize("e1".to_string()))),
        Err(WmiError {
            kind: ErrorKind::Connection,
            message: "Failed to initialize COM: e1".to_string(),
        })
    );
    assert_eq!(
        get_system_info().connected(Err(ConnectFailure::Connect("e2".to_string()))),
        Err(WmiError {
            kind: ErrorKind::Connection,
            message: "Failed to create WMI connection: e2".to_string(),
        })
    );
    let asking = get_system_info().connected(Ok(())).unwrap();
    assert_eq!(
        asking.answered(Err("e3".to_string())),
        Err(WmiError { kind: ErrorKind::Query, message: "Query failed: e3".to_string() })
    );
}

#[test]
fn every_step_has_its_message() {
    let cases = [
        (Step::Initialize, Language::Chinese, ErrorKind::Connection, "初始化COM失败: x"),
        (Step::Connect, Language::Chinese, ErrorKind::Connection, "创建WMI连接失败: x"),
        (Step::Query, Language::Chinese, ErrorKind::Query, "查询失败: x"),
        (Step::Serialize, Language::Chinese, ErrorKind::Serialization, "JSON序列化失败: x"),
        (Step::Initialize, Language::English, ErrorKind::Connection, "Failed to initialize COM: x"),
        (Step::Connect, Language::English, ErrorKind::Connection, "Failed to create WMI connection: x"),
        (Step::Query, Language::English, ErrorKind::Query, "Query failed: x"),
        (Step::Serialize, Language::English, ErrorKind::Serialization, "JSON serialization failed: x"),
    ];
    for (step, language, kind, message) in cases {
        assert_eq!(WmiError::at(step, language, "x"), WmiError { kind, message: message.to_string() });
    }
    assert_eq!(WmiError::at(Step::Query, Language::English, "").message, "Query failed: ");
}
