use dart::config::{validate_name, EncodeConfig, SourceConfig, SourceType};
use dart::config_wizard::{
    default_device_name, default_stream_name, generate_rtsp_config, generate_v4l2_config,
    RtspConfig, V4l2Config, V4l2Resolution,
};

fn first_source(table: &toml::Table) -> &toml::Value {
    &table["sources"].as_array().unwrap()[0]
}

fn text_of<'a>(value: &'a toml::Value, key: &str) -> Option<&'a str> {
    value.get(key).and_then(|v| v.as_str())
}

fn number_of(value: &toml::Value, key: &str) -> Option<i64> {
    value.get(key).and_then(|v| v.as_integer())
}

/// Reads a source out of a parsed configuration file, field by field.
fn source_from(value: &toml::Value) -> SourceConfig {
    let number = |key: &str| number_of(value, key).map(|n| n as u32);
    let text = |key: &str| text_of(value, key).map(|s| s.to_string());
    SourceConfig {
        name: text("name").unwrap(),
        source_type: match text_of(value, "type") {
            Some("v4l2") => SourceType::V4l2,
            Some("rtsp") => SourceType::Rtsp,
            other => panic!("unexpected type {:?}", other),
        },
        device: text("device"),
        width: number("width"),
        height: number("height"),
        framerate: number("framerate"),
        format: text("format"),
        url: text("url"),
        username: text("username"),
        password: text("password"),
        latency: number("latency"),
        transcode: value.get("transcode").and_then(|v| v.as_bool()).unwrap_or(false),
        encode: value.get("encode").map(|encode| {
            let defaults = EncodeConfig::default();
            EncodeConfig {
                bitrate: number_of(encode, "bitrate").map(|n| n as u32).unwrap_or(defaults.bitrate),
                keyframe_interval: number_of(encode, "keyframe_interval")
                    .map(|n| n as u32)
                    .unwrap_or(defaults.keyframe_interval),
                preset: text_of(encode, "preset").map(|s| s.to_string()).unwrap_or(defaults.preset),
                tune: text_of(encode, "tune").map(|s| s.to_string()).unwrap_or(defaults.tune),
            }
        }),
        auth: None,
        fallback: text("fallback"),
        reconnect_interval: number_of(value, "reconnect_interval").map(|n| n as u64).unwrap_or(10),
    }
}

#[test]
fn capture_configuration_is_toml_that_validates() {
    let resolution = V4l2Resolution { width: 1280, height: 720, framerates: vec![30] };
    let mut config = V4l2Config::new(
        default_device_name("HD Pro Webcam C920"),
        "/dev/video0".to_string(),
        &resolution,
        30,
        1800,
    );
    config.format = Some("UYVY".to_string());
    let table: toml::Table = generate_v4l2_config(&config).parse().unwrap();

    assert_eq!(number_of(&table["server"], "rtsp_port"), Some(8554));
    assert_eq!(text_of(&table["server"], "bind_address"), Some("0.0.0.0"));
    assert_eq!(table["sources"].as_array().unwrap().len(), 1);
    let source = first_source(&table);
    assert_eq!(text_of(source, "name"), Some("hd"));
    assert_eq!(text_of(source, "type"), Some("v4l2"));
    assert_eq!(text_of(source, "device"), Some("/dev/video0"));
    assert_eq!(text_of(source, "format"), Some("UYVY"));
    assert_eq!(number_of(source, "width"), Some(1280));
    assert_eq!(number_of(source, "height"), Some(720));
    assert_eq!(number_of(source, "framerate"), Some(30));
    assert_eq!(number_of(&source["encode"], "bitrate"), Some(1800));
    assert_eq!(text_of(&source["encode"], "preset"), Some("veryfast"));
    assert_eq!(text_of(&source["encode"], "tune"), Some("zerolatency"));

    let read = source_from(source);
    assert_eq!(read.validate(), Ok(()));
    assert_eq!(read.encode_config().bitrate, 1800);
}

#[test]
fn remote_configuration_is_toml_that_validates() {
    let url = "rtsp://192.168.1.10:554/stream1";
    let name = default_stream_name(url);
    assert_eq!(validate_name(&name), Ok(()));

    let config = RtspConfig::new(name.clone(), url.to_string(), false, None);
    let table: toml::Table = generate_rtsp_config(&config).parse().unwrap();
    let source = first_source(&table);
    assert_eq!(text_of(source, "name"), Some("192-168-1-10"));
    assert_eq!(text_of(source, "type"), Some("rtsp"));
    assert_eq!(text_of(source, "url"), Some(url));
    assert_eq!(number_of(source, "latency"), Some(200));
    assert!(source.get("transcode").is_none());
    assert!(source.get("encode").is_none());
    assert_eq!(source_from(source).validate(), Ok(()));

    let config = RtspConfig::new(name, url.to_string(), true, Some(900));
    let table: toml::Table = generate_rtsp_config(&config).parse().unwrap();
    let source = first_source(&table);
    assert_eq!(source.get("transcode").and_then(|v| v.as_bool()), Some(true));
    assert_eq!(number_of(&source["encode"], "bitrate"), Some(900));
    let read = source_from(source);
    assert_eq!(read.validate(), Ok(()));
    assert!(read.transcode);
}

#[test]
fn minimal_configuration_is_read_and_validates() {
    let text = r#"
        [server]
        rtsp_port = 8554

        [[sources]]
        name = "cam1"
        type = "v4l2"
        device = "/dev/video0"

        [sources.encode]
        bitrate = 2000000
    "#;
    let table: toml::Table = text.parse().unwrap();
    assert_eq!(number_of(&table["server"], "rtsp_port"), Some(8554));
    assert_eq!(table["sources"].as_array().unwrap().len(), 1);
    let source = source_from(first_source(&table));
    assert_eq!(source.name, "cam1");
    assert_eq!(source.validate(), Ok(()));
    let encode = source.encode_config();
    assert_eq!(encode.bitrate, 2000000);
    assert_eq!(encode.keyframe_interval, 60);
    assert_eq!(encode.preset, "veryfast");
    assert_eq!(
        dart::sources::build_mpp_h265_encoder_string(&encode),
        "mpph265enc bps=2000000000 gop=60"
    );
}
