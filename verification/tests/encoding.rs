use stat_client::encode::{encode_binary, encode_json, encode_record};
use stat_client::model::{DynamicMetrics, IpInfo, StatRequest, SysInfo};

fn empty_record() -> StatRequest {
    StatRequest {
        name: String::new(),
        gid: String::new(),
        alias: String::new(),
        frame: String::new(),
        online4: false,
        online6: false,
        vnstat: false,
        weight: 0,
        notify: false,
        version: String::new(),
        latest_ts: 0,
        host_type: String::new(),
        location: String::new(),
        metrics: DynamicMetrics {
            cpu_percent: 0,
            network_rx: 0,
            network_tx: 0,
            ping_ct: 0,
            ping_cm: 0,
            ping_cu: 0,
            time_ct: 0,
            time_cm: 0,
            time_cu: 0,
        },
        ip_info: None,
        sys_info: None,
    }
}

fn full_record() -> StatRequest {
    StatRequest {
        name: "node-1".to_string(),
        gid: "g1".to_string(),
        alias: "edge \"box\"\\1".to_string(),
        frame: "data".to_string(),
        online4: true,
        online6: false,
        vnstat: true,
        weight: 12345,
        notify: true,
        version: "1.2.3".to_string(),
        latest_ts: 1700000300,
        host_type: "kvm".to_string(),
        location: "ams\n2".to_string(),
        metrics: DynamicMetrics {
            cpu_percent: 37,
            network_rx: 1048576,
            network_tx: 2048,
            ping_ct: 1,
            ping_cm: 2,
            ping_cu: 100,
            time_ct: 12,
            time_cm: 250,
            time_cu: 999,
        },
        ip_info: Some(IpInfo {
            query: "203.0.113.9".to_string(),
            country: "NL".to_string(),
            isp: "ExampleNet".to_string(),
        }),
        sys_info: Some(SysInfo {
            host_name: "host-a".to_string(),
            os_name: "linux".to_string(),
            version: "6.1".to_string(),
        }),
    }
}

#[test]
fn binary_empty_record_exact_bytes() {
    let got = encode_binary(&empty_record());
    let expected: Vec<u8> = vec![
        0x0A, 0x00, // name: empty
        0x12, 0x00, // gid: empty
        0x1A, 0x00, // alias: empty
        0x22, 0x00, // frame: empty
        0x28, 0x00, // online4: false
        0x30, 0x00, // online6: false
        0x38, 0x00, // vnstat: false
        0x40, 0x00, // weight: 0
        0x48, 0x00, // notify: false
        0x52, 0x00, // version: empty
        0x58, 0x00, // latest_ts: 0
        0x62, 0x00, // host_type: empty
        0x6A, 0x00, // location: empty
        0x72, 0x12, // metrics block, 18 bytes
        0x08, 0x00, 0x10, 0x00, 0x18, 0x00, 0x20, 0x00, 0x28, 0x00, 0x30, 0x00, 0x38, 0x00, 0x40,
        0x00, 0x48, 0x00,
    ];
    assert_eq!(got, expected);
}

#[test]
fn binary_varints_and_strings_exact_bytes() {
    let mut rec = empty_record();
    rec.name = "ab".to_string();
    rec.latest_ts = 300;
    rec.online4 = true;
    let got = encode_binary(&rec);
    let expected: Vec<u8> = vec![
        0x0A, 0x02, 0x61, 0x62, // name: "ab"
        0x12, 0x00, 0x1A, 0x00, 0x22, 0x00, // gid, alias, frame: empty
        0x28, 0x01, // online4: true
        0x30, 0x00, 0x38, 0x00, 0x40, 0x00, 0x48, 0x00, 0x52, 0x00, // up to version
        0x58, 0xAC, 0x02, // latest_ts: 300 = 0b10_0101100
        0x62, 0x00, 0x6A, 0x00, // host_type, location
        0x72, 0x12, 0x08, 0x00, 0x10, 0x00, 0x18, 0x00, 0x20, 0x00, 0x28, 0x00, 0x30, 0x00, 0x38,
        0x00, 0x40, 0x00, 0x48, 0x00,
    ];
    assert_eq!(got, expected);
}

#[test]
fn binary_optional_blocks_present() {
    let rec = full_record();
    let bytes = encode_binary(&rec);
    // IP-info block: tag 15, then its three string fields
    let ip_body: Vec<u8> = {
        let mut b = vec![0x0A, 0x0B];
        b.extend_from_slice(b"203.0.113.9");
        b.extend_from_slice(&[0x12, 0x02]);
        b.extend_from_slice(b"NL");
        b.extend_from_slice(&[0x1A, 0x0A]);
        b.extend_from_slice(b"ExampleNet");
        b
    };
    let mut ip_field = vec![0x7A, ip_body.len() as u8];
    ip_field.extend_from_slice(&ip_body);
    assert!(
        bytes.windows(ip_field.len()).any(|w| w == ip_field.as_slice()),
        "IP-info block missing from the binary encoding"
    );
    // system-descriptor block: field 16, two-byte tag
    let sys_body: Vec<u8> = {
        let mut b = vec![0x0A, 0x06];
        b.extend_from_slice(b"host-a");
        b.extend_from_slice(&[0x12, 0x05]);
        b.extend_from_slice(b"linux");
        b.extend_from_slice(&[0x1A, 0x03]);
        b.extend_from_slice(b"6.1");
        b
    };
    let mut sys_field = vec![0x82, 0x01, sys_body.len() as u8];
    sys_field.extend_from_slice(&sys_body);
    assert!(bytes.ends_with(&sys_field));
}

#[test]
fn json_is_valid_and_round_trips_fields() {
    let rec = full_record();
    let s = encode_json(&rec);
    let v: serde_json::Value = serde_json::from_str(&s).expect("encoder must emit valid JSON");
    assert_eq!(v["name"], "node-1");
    assert_eq!(v["gid"], "g1");
    // escaping of quote, backslash and newline survives a JSON parse
    assert_eq!(v["alias"], "edge \"box\"\\1");
    assert_eq!(v["location"], "ams\n2");
    assert_eq!(v["frame"], "data");
    assert_eq!(v["online4"], true);
    assert_eq!(v["online6"], false);
    assert_eq!(v["vnstat"], true);
    assert_eq!(v["weight"], 12345);
    assert_eq!(v["notify"], true);
    assert_eq!(v["version"], "1.2.3");
    assert_eq!(v["latest_ts"], 1700000300u64);
    assert_eq!(v["type"], "kvm");
    assert_eq!(v["metrics"]["cpu"], 37);
    assert_eq!(v["metrics"]["network_rx"], 1048576);
    assert_eq!(v["metrics"]["time_cu"], 999);
    assert_eq!(v["ip_info"]["query"], "203.0.113.9");
    assert_eq!(v["ip_info"]["country"], "NL");
    assert_eq!(v["sys_info"]["host_name"], "host-a");
    assert_eq!(v["sys_info"]["version"], "6.1");
}

#[test]
fn json_absent_aux_is_null() {
    let s = encode_json(&empty_record());
    let v: serde_json::Value = serde_json::from_str(&s).unwrap();
    assert!(v["ip_info"].is_null());
    assert!(v["sys_info"].is_null());
    assert_eq!(v["name"], "");
    assert_eq!(v["weight"], 0);
}

#[test]
fn json_largest_weight_survives() {
    let mut rec = empty_record();
    rec.weight = u64::MAX;
    let s = encode_json(&rec);
    let v: serde_json::Value = serde_json::from_str(&s).unwrap();
    assert_eq!(v["weight"], u64::MAX);
}

#[test]
fn encoding_and_content_type_always_pair_up() {
    let rec = full_record();
    let (body_json, ct_json) = encode_record(&rec, true);
    assert_eq!(ct_json, "application/json");
    assert_eq!(body_json, encode_json(&rec).into_bytes());
    let (body_bin, ct_bin) = encode_record(&rec, false);
    assert_eq!(ct_bin, "application/octet-stream");
    assert_eq!(body_bin, encode_binary(&rec));
    // the two pairs are never mixed: the media types differ
    assert_ne!(ct_json, ct_bin);
}
