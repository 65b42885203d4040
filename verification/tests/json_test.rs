//! Tests for the JSON rendering: the document parses, carries every public
//! field faithfully, and deserializing reconstructs equal values.

use cpufetch::cpu::flags::X86Features;
use cpufetch::cpu::info::CpuInfo;
use cpufetch::cpu::info::FeatureSet;
use cpufetch::cpu::info::Frequency;
use cpufetch::cpu::info::Vendor;
use cpufetch::cpu::info::Version;
use cpufetch::printer::json::json_bytes;

fn sample_info() -> CpuInfo {
    CpuInfo {
        vendor: Vendor::Intel,
        brand_string: "Mock Intel CPU @ 3.6GHz".to_string(),
        version: Version { family: 6, model: 0x55, stepping: 2 },
        physical_cores: 4,
        logical_cores: 8,
        frequency: Frequency {
            base: Some(1800),
            max: None,
            current: Some(2000),
        },
        cache_sizes: [Some(32), Some(32), Some(512), None],
        features: FeatureSet::X86(X86Features::from_bits(
            X86Features::SSE | X86Features::SSE2,
        )),
    }
}

#[test]
fn test_json_fields_faithful() {
    let info = sample_info();
    let text = String::from_utf8(json_bytes(&info)).expect("JSON must be valid UTF-8");
    let v: serde_json::Value = serde_json::from_str(&text).expect("JSON must parse");

    assert_eq!(v["vendor"], "Intel");
    assert_eq!(v["model"], "Mock Intel CPU @ 3.6GHz");
    assert_eq!(v["cores"]["physical"], 4);
    assert_eq!(v["cores"]["logical"], 8);
    assert_eq!(v["cache"]["l1i"], 32);
    assert_eq!(v["cache"]["l1d"], 32);
    assert_eq!(v["cache"]["l2"], 512);
    assert!(v["cache"]["l3"].is_null());
    assert_eq!(v["frequency"]["base"], 1800);
    assert_eq!(v["frequency"]["current"], 2000);
    assert!(v["frequency"]["max"].is_null());
    assert_eq!(v["features"]["arch"], "x86");
    assert_eq!(
        v["features"]["bits"],
        X86Features::SSE | X86Features::SSE2
    );
}

#[test]
fn test_json_round_trip_reconstructs_snapshot() {
    let info = sample_info();
    let text = String::from_utf8(json_bytes(&info)).expect("JSON must be valid UTF-8");
    let v: serde_json::Value = serde_json::from_str(&text).expect("JSON must parse");

    let opt = |x: &serde_json::Value| -> Option<u32> {
        x.as_u64().map(|n| u32::try_from(n).unwrap())
    };
    let rebuilt = CpuInfo {
        vendor: match v["vendor"].as_str().unwrap() {
            "Intel" => Vendor::Intel,
            "AMD" => Vendor::AMD,
            "ARM" => Vendor::ARM,
            "Apple" => Vendor::Apple,
            _ => Vendor::Unknown(String::new()),
        },
        brand_string: v["model"].as_str().unwrap().to_string(),
        version: info.version,
        physical_cores: opt(&v["cores"]["physical"]).unwrap(),
        logical_cores: opt(&v["cores"]["logical"]).unwrap(),
        frequency: Frequency {
            base: opt(&v["frequency"]["base"]),
            max: opt(&v["frequency"]["max"]),
            current: opt(&v["frequency"]["current"]),
        },
        cache_sizes: [
            opt(&v["cache"]["l1i"]),
            opt(&v["cache"]["l1d"]),
            opt(&v["cache"]["l2"]),
            opt(&v["cache"]["l3"]),
        ],
        features: FeatureSet::X86(X86Features::from_bits(
            v["features"]["bits"].as_u64().unwrap(),
        )),
    };

    assert_eq!(rebuilt.vendor, info.vendor);
    assert_eq!(rebuilt.brand_string, info.brand_string);
    assert_eq!(rebuilt.physical_cores, info.physical_cores);
    assert_eq!(rebuilt.logical_cores, info.logical_cores);
    assert_eq!(rebuilt.frequency, info.frequency);
    assert_eq!(rebuilt.cache_sizes, info.cache_sizes);
    assert_eq!(rebuilt.features, info.features);
}

#[test]
fn test_json_escapes_model_string() {
    let mut info = sample_info();
    info.brand_string = "He said \"hi\" \\ bye".to_string();
    let text = String::from_utf8(json_bytes(&info)).expect("JSON must be valid UTF-8");
    let v: serde_json::Value = serde_json::from_str(&text).expect("escaped JSON must parse");
    assert_eq!(v["model"], "He said \"hi\" \\ bye");
}

#[test]
fn test_json_arm_feature_tag() {
    let mut info = sample_info();
    info.vendor = Vendor::ARM;
    info.features = FeatureSet::Arm(cpufetch::cpu::flags::ArmFeatures::from_bits(5));
    let text = String::from_utf8(json_bytes(&info)).expect("JSON must be valid UTF-8");
    let v: serde_json::Value = serde_json::from_str(&text).expect("JSON must parse");
    assert_eq!(v["vendor"], "ARM");
    assert_eq!(v["features"]["arch"], "arm");
    assert_eq!(v["features"]["bits"], 5);
}

#[test]
fn test_json_of_live_detection() {
    let info = CpuInfo::new().expect("Failed to detect CPU");
    let text = String::from_utf8(json_bytes(&info)).expect("JSON must be valid UTF-8");
    let v: serde_json::Value = serde_json::from_str(&text).expect("JSON must parse");
    assert_eq!(v["model"], info.brand_string.as_str());
    assert_eq!(v["cores"]["logical"], info.logical_cores);
}
