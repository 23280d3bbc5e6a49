use piso_config::doc::ValueKind;
use piso_config::schema::{ConfigError, DocNumber, Duration};
use piso_config::{Config, DocValue};

fn full_doc() -> String {
    r#"
          [ui]
          size_step=5
          default_size=50
          min_button_press=300
          button_long_press=2000
          sort_drives=true

          [system]
          auto_fstrim=true

          [user]
          name="piso"
          password="password"

          [[drive]]
          name="Drive1"
          newname="My Name"

          [[drive]]
          name="Drive2"
          newname="Other Drive"

          [[wifi.client]]
          ssid="home-ap"
          password="faz"

          [[wifi.client]]
          ssid="test"
          password="foobar"

          [pins]
          up_input=21
          down_input=16
          select_input=20
          dc_pin=24
          rst_pin=25

          [wifi.ap]
          ssid="piso"
          password="piso"
        "#
    .to_string()
}

#[test]
fn load_test() {
    let toml_str = full_doc();
    let _: Config = Config::load(&toml_str).unwrap();
}

#[test]
fn load_with_no_wifi_client() {
    let toml_str = r#"
          [ui]
          size_step=4.2
          default_size=50
          min_button_press=300
          button_long_press=2000

          [user]
          name="piso"
          password="password"

          [wifi.ap]
          ssid="piso"
          password="piso"

          [pins]
          up_input=21
          down_input=16
          select_input=20
          dc_pin=24
          rst_pin=25
        "#;

    let _: Config = Config::load(toml_str).unwrap();
}

#[test]
fn full_document_field_values() {
    let c = Config::load(&full_doc()).unwrap();
    assert_eq!(c.user.name, "piso");
    assert_eq!(c.user.password, "password");
    assert_eq!(c.wifi.ap.ssid, "piso");
    assert_eq!(c.wifi.ap.password, "piso");
    let clients = c.wifi.client.unwrap();
    assert_eq!(clients.len(), 2);
    assert_eq!(clients[0].ssid, "home-ap");
    assert_eq!(clients[0].password, "faz");
    assert_eq!(clients[1].ssid, "test");
    assert_eq!(clients[1].password, "foobar");
    assert_eq!(c.ui.size_step, DocNumber::Int(5));
    assert_eq!(c.ui.default_size, DocNumber::Int(50));
    assert_eq!(c.ui.min_button_press.as_millis(), 300);
    assert_eq!(c.ui.button_long_press.as_millis(), 2000);
    assert_eq!(c.ui.sort_drives, Some(true));
    let drives = c.drive.unwrap();
    assert_eq!(drives.len(), 2);
    assert_eq!(drives[0].name, "Drive1");
    assert_eq!(drives[0].newname, "My Name");
    assert_eq!(drives[1].name, "Drive2");
    assert_eq!(drives[1].newname, "Other Drive");
    assert_eq!(c.system.unwrap().auto_fstrim, Some(true));
    assert_eq!(c.pins.up_input, 21);
    assert_eq!(c.pins.down_input, 16);
    assert_eq!(c.pins.select_input, 20);
    assert_eq!(c.pins.dc_pin, 24);
    assert_eq!(c.pins.rst_pin, 25);
}

#[test]
fn optional_fields_stay_unset() {
    let toml_str = r#"
          [ui]
          size_step=5
          default_size=50
          min_button_press=300
          button_long_press=2000

          [user]
          name="piso"
          password="password"

          [wifi.ap]
          ssid="piso"
          password="piso"

          [pins]
          up_input=21
          down_input=16
          select_input=20
          dc_pin=24
          rst_pin=25
        "#;
    let c = Config::load(toml_str).unwrap();
    assert!(c.wifi.client.is_none());
    assert!(c.drive.is_none());
    assert!(c.system.is_none());
    assert!(c.ui.sort_drives.is_none());
}

#[test]
fn system_present_without_auto_fstrim() {
    let toml_str = r#"
          [ui]
          size_step=5
          default_size=50
          min_button_press=300
          button_long_press=2000

          [user]
          name="piso"
          password="password"

          [wifi.ap]
          ssid="piso"
          password="piso"

          [system]

          [pins]
          up_input=21
          down_input=16
          select_input=20
          dc_pin=24
          rst_pin=25
        "#;
    let c = Config::load(toml_str).unwrap();
    let sys = c.system.unwrap();
    assert_eq!(sys.auto_fstrim, None);
}

#[test]
fn duration_round_trip_300ms() {
    let d = Duration::from_millis(300);
    assert_eq!(d.as_millis(), 300);
    assert_eq!(d.millis, 300);
}

#[test]
fn size_step_accepts_float_and_integer() {
    let float_doc = full_doc().replace("size_step=5", "size_step=4.2");
    let c = Config::load(&float_doc).unwrap();
    assert_eq!(c.ui.size_step, DocNumber::Float((4.2f64).to_bits()));

    let c = Config::load(&full_doc()).unwrap();
    assert_eq!(c.ui.size_step, DocNumber::Int(5));
}

#[test]
fn missing_user_section() {
    let toml_str = r#"
          [ui]
          size_step=5
          default_size=50
          min_button_press=300
          button_long_press=2000

          [wifi.ap]
          ssid="piso"
          password="piso"

          [pins]
          up_input=21
          down_input=16
          select_input=20
          dc_pin=24
          rst_pin=25
        "#;
    let e = Config::load(toml_str).unwrap_err();
    assert_eq!(e, ConfigError::MissingField("user".to_string()));
}

#[test]
fn missing_wifi_ap() {
    let toml_str = r#"
          [ui]
          size_step=5
          default_size=50
          min_button_press=300
          button_long_press=2000

          [user]
          name="piso"
          password="password"

          [[wifi.client]]
          ssid="home-ap"
          password="faz"

          [pins]
          up_input=21
          down_input=16
          select_input=20
          dc_pin=24
          rst_pin=25
        "#;
    let e = Config::load(toml_str).unwrap_err();
    assert_eq!(e, ConfigError::MissingField("wifi.ap".to_string()));
}

#[test]
fn missing_wifi_section() {
    let toml_str = r#"
          [ui]
          size_step=5
          default_size=50
          min_button_press=300
          button_long_press=2000

          [user]
          name="piso"
          password="password"

          [pins]
          up_input=21
          down_input=16
          select_input=20
          dc_pin=24
          rst_pin=25
        "#;
    let e = Config::load(toml_str).unwrap_err();
    assert_eq!(e, ConfigError::MissingField("wifi".to_string()));
}

#[test]
fn missing_ui_section() {
    let toml_str = r#"
          [user]
          name="piso"
          password="password"

          [wifi.ap]
          ssid="piso"
          password="piso"

          [pins]
          up_input=21
          down_input=16
          select_input=20
          dc_pin=24
          rst_pin=25
        "#;
    let e = Config::load(toml_str).unwrap_err();
    assert_eq!(e, ConfigError::MissingField("ui".to_string()));
}

#[test]
fn missing_ui_fields() {
    let base = full_doc();
    let e = Config::load(&base.replace("size_step=5", "")).unwrap_err();
    assert_eq!(e, ConfigError::MissingField("ui.size_step".to_string()));
    let e = Config::load(&base.replace("default_size=50", "")).unwrap_err();
    assert_eq!(e, ConfigError::MissingField("ui.default_size".to_string()));
    let e = Config::load(&base.replace("min_button_press=300", "")).unwrap_err();
    assert_eq!(e, ConfigError::MissingField("ui.min_button_press".to_string()));
    let e = Config::load(&base.replace("button_long_press=2000", "")).unwrap_err();
    assert_eq!(e, ConfigError::MissingField("ui.button_long_press".to_string()));
}

#[test]
fn missing_each_pin() {
    let base = full_doc();
    for (line, path) in [
        ("up_input=21", "pins.up_input"),
        ("down_input=16", "pins.down_input"),
        ("select_input=20", "pins.select_input"),
        ("dc_pin=24", "pins.dc_pin"),
        ("rst_pin=25", "pins.rst_pin"),
    ] {
        let e = Config::load(&base.replace(line, "")).unwrap_err();
        assert_eq!(e, ConfigError::MissingField(path.to_string()));
    }
}

#[test]
fn string_for_up_input_is_type_mismatch() {
    let doc = full_doc().replace("up_input=21", "up_input=\"twenty-one\"");
    let e = Config::load(&doc).unwrap_err();
    assert_eq!(
        e,
        ConfigError::TypeMismatch {
            path: "pins.up_input".to_string(),
            expected: ValueKind::UInt,
            actual: ValueKind::Str,
        }
    );
}

#[test]
fn negative_millis_is_type_mismatch() {
    let doc = full_doc().replace("min_button_press=300", "min_button_press=-1");
    let e = Config::load(&doc).unwrap_err();
    assert_eq!(
        e,
        ConfigError::TypeMismatch {
            path: "ui.min_button_press".to_string(),
            expected: ValueKind::UInt,
            actual: ValueKind::Int,
        }
    );
}

#[test]
fn string_for_size_step_is_type_mismatch() {
    let doc = full_doc().replace("size_step=5", "size_step=\"big\"");
    let e = Config::load(&doc).unwrap_err();
    assert_eq!(
        e,
        ConfigError::TypeMismatch {
            path: "ui.size_step".to_string(),
            expected: ValueKind::Num,
            actual: ValueKind::Str,
        }
    );
}

#[test]
fn datetime_where_string_expected() {
    let doc = full_doc().replace("name=\"piso\"", "name=1979-05-27T07:32:00Z");
    let e = Config::load(&doc).unwrap_err();
    assert_eq!(
        e,
        ConfigError::TypeMismatch {
            path: "user.name".to_string(),
            expected: ValueKind::Str,
            actual: ValueKind::Datetime,
        }
    );
}

#[test]
fn drive_entry_must_be_table() {
    let toml_str = r#"
          drive = [ 1 ]

          [ui]
          size_step=5
          default_size=50
          min_button_press=300
          button_long_press=2000

          [user]
          name="piso"
          password="password"

          [wifi.ap]
          ssid="piso"
          password="piso"

          [pins]
          up_input=21
          down_input=16
          select_input=20
          dc_pin=24
          rst_pin=25
        "#;
    let e = Config::load(toml_str).unwrap_err();
    assert_eq!(
        e,
        ConfigError::TypeMismatch {
            path: "drive".to_string(),
            expected: ValueKind::Table,
            actual: ValueKind::Int,
        }
    );
}

#[test]
fn empty_client_list_is_not_absent() {
    let toml_str = r#"
          [ui]
          size_step=5
          default_size=50
          min_button_press=300
          button_long_press=2000

          [user]
          name="piso"
          password="password"

          [wifi]
          client = []

          [wifi.ap]
          ssid="piso"
          password="piso"

          [pins]
          up_input=21
          down_input=16
          select_input=20
          dc_pin=24
          rst_pin=25
        "#;
    let c = Config::load(toml_str).unwrap();
    let clients = c.wifi.client.expect("configured empty, not absent");
    assert_eq!(clients.len(), 0);
}

#[test]
fn malformed_document() {
    let e = Config::load("this is [not valid toml").unwrap_err();
    assert!(matches!(e, ConfigError::MalformedDocument(_)));
}

#[test]
fn non_table_document_value() {
    let e = Config::from_doc(&DocValue::Int(5)).unwrap_err();
    assert_eq!(
        e,
        ConfigError::TypeMismatch {
            path: "".to_string(),
            expected: ValueKind::Table,
            actual: ValueKind::Int,
        }
    );
}

#[test]
fn from_doc_on_hand_built_table() {
    let doc = DocValue::Table(vec![
        (
            "user".to_string(),
            DocValue::Table(vec![
                ("name".to_string(), DocValue::Str("piso".to_string())),
                ("password".to_string(), DocValue::Str("pw".to_string())),
            ]),
        ),
        (
            "wifi".to_string(),
            DocValue::Table(vec![(
                "ap".to_string(),
                DocValue::Table(vec![
                    ("ssid".to_string(), DocValue::Str("net".to_string())),
                    ("password".to_string(), DocValue::Str("key".to_string())),
                ]),
            )]),
        ),
        (
            "ui".to_string(),
            DocValue::Table(vec![
                ("size_step".to_string(), DocValue::Int(5)),
                ("default_size".to_string(), DocValue::Int(50)),
                ("min_button_press".to_string(), DocValue::Int(300)),
                ("button_long_press".to_string(), DocValue::Int(2000)),
            ]),
        ),
        (
            "pins".to_string(),
            DocValue::Table(vec![
                ("up_input".to_string(), DocValue::Int(21)),
                ("down_input".to_string(), DocValue::Int(16)),
                ("select_input".to_string(), DocValue::Int(20)),
                ("dc_pin".to_string(), DocValue::Int(24)),
                ("rst_pin".to_string(), DocValue::Int(25)),
            ]),
        ),
    ]);
    let c = Config::from_doc(&doc).unwrap();
    assert_eq!(c.user.name, "piso");
    assert_eq!(c.ui.min_button_press, Duration::from_millis(300));
    assert!(c.drive.is_none());
    assert!(c.system.is_none());
}

#[test]
fn drive_order_is_preserved() {
    let c = Config::load(&full_doc()).unwrap();
    let drives = c.drive.unwrap();
    assert_eq!(
        (drives[0].name.as_str(), drives[0].newname.as_str()),
        ("Drive1", "My Name")
    );
    assert_eq!(
        (drives[1].name.as_str(), drives[1].newname.as_str()),
        ("Drive2", "Other Drive")
    );
}

#[test]
fn unknown_fields_are_ignored() {
    let doc = full_doc().replace("[system]", "unknown_extra=\"hello\"\n[system]");
    let c = Config::load(&doc).unwrap();
    assert_eq!(c.user.name, "piso");
}
