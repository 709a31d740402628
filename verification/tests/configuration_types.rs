use gc_input_viewer::configuration::json_config::JsonConfig;
use gc_input_viewer::configuration::static_config::StaticConfig;
use gc_input_viewer::configuration::{
    AnalogConf, Configuration, ImageConf, InputSource, ThemeConfiguration,
};
use gc_input_viewer::error::Error;

fn small_theme() -> ThemeConfiguration {
    ThemeConfiguration {
        size: (640, 480),
        background: ImageConf { path: String::from("bg.png"), dst: (0, 0), size: None },
        a: Some(ImageConf { path: String::from("a.png"), dst: (10, -20), size: Some((32, 32)) }),
        b: None,
        x: None,
        y: None,
        up: None,
        down: None,
        left: None,
        right: None,
        start: None,
        analog: Some(AnalogConf {
            image: ImageConf { path: String::from("stick.png"), dst: (5, 5), size: None },
            range: (12, -12),
        }),
        c: None,
        l_analog: None,
        r_analog: None,
        l_digital: None,
        r_digital: None,
        z: None,
    }
}

#[test]
fn static_config_hands_back_its_contents() {
    let conf = Configuration {
        theme: small_theme(),
        theme_path: String::from("themes/classic"),
        input: InputSource::Serial(String::from("/dev/ttyUSB0")),
    };
    let mut source = StaticConfig { conf, base: String::from("themes/classic") };
    let read = source.read_config();
    assert_eq!(read.theme_path, "themes/classic");
    match read.input {
        InputSource::Serial(path) => assert_eq!(path, "/dev/ttyUSB0"),
        _ => panic!("the input selection must survive the copy"),
    }
    assert_eq!(read.theme.size, (640, 480));
    assert_eq!(read.theme.background.path, "bg.png");
    let a = read.theme.a.expect("the A sprite was configured");
    assert_eq!(a.dst, (10, -20));
    assert_eq!(a.size, Some((32, 32)));
    let analog = read.theme.analog.expect("the stick overlay was configured");
    assert_eq!(analog.range, (12, -12));
    assert_eq!(source.get_path_base(), "themes/classic");
    // Reading is non-destructive: the same contents come back again.
    let again = source.read_config();
    assert_eq!(again.theme_path, "themes/classic");
}

#[test]
fn json_config_keeps_base_and_reader() {
    let document = String::from("{\"theme_path\":\"t.yaml\"}");
    let config = JsonConfig::from_read(String::from("conf/dir"), document.clone());
    assert_eq!(config.get_path_base(), "conf/dir");
    assert_eq!(config.into_read(), document);
}

#[test]
fn error_messages_name_each_failure() {
    let errors = [
        Error::IoFailure,
        Error::MalformedRecord,
        Error::ReplayDecode,
        Error::ProcessNotFound,
        Error::ProcessDetached,
        Error::ProcessReadFailure,
    ];
    for e in errors.iter() {
        assert!(!e.message().is_empty());
    }
    assert_eq!(Error::MalformedRecord.message(), "malformed serial record");
    assert_eq!(Error::ReplayDecode, Error::ReplayDecode);
    assert_ne!(Error::IoFailure, Error::ProcessDetached);
}
