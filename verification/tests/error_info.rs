use base64::Engine;
use error_code::app_code::{AppCodeParse, AppCodeParseError};
use error_code::fingerprint::fingerprint;
use error_code::generator::{generate, render, GeneratedImpl};
use error_code::metadata::{validate, GenError, TypeData, TypeMetadata, VariantMetadata};
use error_code::{ErrorInfo, ToErrorInfo};
use std::collections::hash_map::DefaultHasher;
use std::hash::Hasher;

fn variant(ident: &str, short_code: &str, app_code: &str, client_msg: &str) -> VariantMetadata {
    VariantMetadata {
        ident: ident.to_string(),
        short_code: short_code.to_string(),
        app_code: app_code.to_string(),
        client_msg: client_msg.to_string(),
    }
}

fn my_error_metadata() -> TypeMetadata {
    TypeMetadata {
        ident: "MyError".to_string(),
        app_code_type: "u16".to_string(),
        prefix: "01".to_string(),
        data: TypeData::Variants(vec![
            variant("InvalidCommand", "IC", "400", ""),
            variant("InvalidArgument", "IA", "400", "friendly msg"),
            variant("RespError", "RE", "500", ""),
        ]),
    }
}

enum MyError {
    InvalidCommand(String),
    InvalidArgument(String),
    RespError(String),
}

impl MyError {
    fn server_text(&self) -> String {
        match self {
            MyError::InvalidCommand(s) => format!("Invalid command: {}", s),
            MyError::InvalidArgument(s) => format!("Invalid argument: {}", s),
            MyError::RespError(s) => format!("{}", s),
        }
    }
}

impl ToErrorInfo for MyError {
    type T = u16;

    fn to_error_info(&self) -> Result<ErrorInfo<u16>, AppCodeParseError> {
        match self {
            MyError::InvalidCommand(_) => ErrorInfo::new("400", "01IC", "", self.server_text()),
            MyError::InvalidArgument(_) => {
                ErrorInfo::new("400", "01IA", "friendly msg", self.server_text())
            }
            MyError::RespError(_) => ErrorInfo::new("500", "01RE", "", self.server_text()),
        }
    }
}

#[test]
fn fingerprint_is_deterministic() {
    let a = fingerprint("Invalid command: foo");
    let b = fingerprint("Invalid command: foo");
    assert_eq!(a, b);
}

#[test]
fn fingerprint_shape_is_constant() {
    for msg in ["", "x", "Invalid argument: x", "db timeout on shard 7"] {
        let fp = fingerprint(msg);
        assert_eq!(fp.len(), 11);
        assert!(fp
            .chars()
            .all(|c| c.is_ascii_alphanumeric() || c == '-' || c == '_'));
    }
}

#[test]
fn fingerprint_matches_hash_then_encode() {
    let msg = "Invalid argument: x";
    let mut hasher = DefaultHasher::new();
    hasher.write(msg.as_bytes());
    let expected =
        base64::engine::general_purpose::URL_SAFE_NO_PAD.encode(hasher.finish().to_be_bytes());
    assert_eq!(fingerprint(msg), expected);
}

#[test]
fn fingerprints_differ_for_these_messages() {
    assert_ne!(fingerprint("db timeout on shard 7"), fingerprint("db timeout on shard 8"));
}

#[test]
fn client_msg_falls_back_to_server_msg_when_empty() {
    let info = ErrorInfo::<u16>::from_parts(400, "01IC", "", "Invalid command: foo".to_string());
    assert_eq!(info.client_msg(), "Invalid command: foo");
}

#[test]
fn client_msg_returns_declared_message_when_nonempty() {
    let info =
        ErrorInfo::<u16>::from_parts(400, "01IA", "friendly msg", "Invalid argument: x".to_string());
    assert_eq!(info.client_msg(), "friendly msg");
}

#[test]
fn renderings_have_the_documented_shape() {
    let info =
        ErrorInfo::<u16>::from_parts(400, "01IA", "friendly msg", "Invalid argument: x".to_string());
    let fp = fingerprint("Invalid argument: x");
    assert_eq!(
        info.client_rendering(),
        format!("[01IA-{}] friendly msg", fp)
    );
    assert_eq!(
        info.server_rendering(),
        format!("[01IA-{}] Invalid argument: x", fp)
    );
}

#[test]
fn client_rendering_leaks_nothing_from_the_server_msg() {
    let info = ErrorInfo::<u16>::from_parts(
        503,
        "01DB",
        "service temporarily unavailable",
        "db timeout on shard 7".to_string(),
    );
    let client = info.client_rendering();
    assert!(!client.contains("shard 7"));
    assert!(client.contains("service temporarily unavailable"));
    assert!(info.server_rendering().contains("db timeout on shard 7"));
}

#[test]
fn new_parses_the_app_code() {
    let info =
        ErrorInfo::<u16>::new("400", "01IA", "friendly msg", "Invalid argument: x".to_string())
            .unwrap();
    assert_eq!(info.app_code, 400);
    assert_eq!(info.code, "01IA");
    assert_eq!(info.server_msg, "Invalid argument: x");
}

#[test]
fn new_propagates_a_parse_failure() {
    let r = ErrorInfo::<u16>::new("not-a-number", "01IA", "", "msg".to_string());
    let e = r.err().unwrap();
    assert_eq!(e.input, "not-a-number");
}

#[test]
fn u16_parse_accepts_plain_decimals() {
    assert_eq!(u16::parse_app_code("400").unwrap(), 400);
    assert_eq!(u16::parse_app_code("0").unwrap(), 0);
    assert_eq!(u16::parse_app_code("65535").unwrap(), 65535);
}

#[test]
fn u16_parse_rejects_empty_overflowing_and_nondigit_text() {
    assert_eq!(u16::parse_app_code("").err().unwrap().input, "");
    assert_eq!(u16::parse_app_code("65536").err().unwrap().input, "65536");
    assert_eq!(u16::parse_app_code("70000").err().unwrap().input, "70000");
    assert_eq!(u16::parse_app_code("4x0").err().unwrap().input, "4x0");
    assert_eq!(u16::parse_app_code("-1").err().unwrap().input, "-1");
}

#[test]
fn to_error_info_uses_prefixed_codes_for_every_variant() {
    let cases = [
        (MyError::InvalidCommand("foo".to_string()), "01IC"),
        (MyError::InvalidArgument("x".to_string()), "01IA"),
        (MyError::RespError("bad utf8".to_string()), "01RE"),
    ];
    for (err, code) in cases {
        assert_eq!(err.to_error_info().unwrap().code, code);
    }
}

#[test]
fn end_to_end_invalid_argument() {
    let err = MyError::InvalidArgument("x".to_string());
    let info = err.to_error_info().unwrap();
    assert_eq!(info.code, "01IA");
    assert_eq!(info.client_msg(), "friendly msg");
    assert_eq!(info.app_code, 400);
    assert_eq!(info.server_msg, "Invalid argument: x");
    assert_eq!(info.fingerprint.len(), 11);
    assert_eq!(info.fingerprint, fingerprint("Invalid argument: x"));
}

#[test]
fn validate_accepts_the_example_metadata() {
    assert!(validate(&my_error_metadata()).is_ok());
}

#[test]
fn generate_maps_each_variant_to_its_prefixed_code() {
    let g = generate(&my_error_metadata()).unwrap();
    assert_eq!(g.type_ident, "MyError");
    assert_eq!(g.app_code_type, "u16");
    assert_eq!(g.arms.len(), 3);
    assert_eq!(g.arms[0].code, "01IC");
    assert_eq!(g.arms[1].code, "01IA");
    assert_eq!(g.arms[2].code, "01RE");
    assert_eq!(g.arms[1].variant_ident, "InvalidArgument");
    assert_eq!(g.arms[1].app_code, "400");
    assert_eq!(g.arms[1].client_msg, "friendly msg");
}

#[test]
fn generate_rejects_a_duplicate_short_code() {
    let meta = TypeMetadata {
        ident: "MyError".to_string(),
        app_code_type: "u16".to_string(),
        prefix: "01".to_string(),
        data: TypeData::Variants(vec![
            variant("InvalidCommand", "IC", "400", ""),
            variant("AlsoInvalid", "IC", "400", ""),
        ]),
    };
    match generate(&meta) {
        Err(GenError::DuplicateShortCode {
            first_index,
            index,
            variant,
        }) => {
            assert_eq!(first_index, 0);
            assert_eq!(index, 1);
            assert_eq!(variant, "AlsoInvalid");
            let e = GenError::DuplicateShortCode {
                first_index,
                index,
                variant,
            };
            assert_eq!(e.message(), "duplicate short code on variant AlsoInvalid");
        }
        _ => panic!("duplicate short code was not rejected"),
    }
}

#[test]
fn generate_rejects_an_empty_short_code() {
    let meta = TypeMetadata {
        ident: "MyError".to_string(),
        app_code_type: "u16".to_string(),
        prefix: "01".to_string(),
        data: TypeData::Variants(vec![variant("Nameless", "", "400", "")]),
    };
    match generate(&meta) {
        Err(GenError::EmptyShortCode { index, variant }) => {
            assert_eq!(index, 0);
            assert_eq!(variant, "Nameless");
            let e = GenError::EmptyShortCode { index, variant };
            assert_eq!(e.message(), "empty short code on variant Nameless");
        }
        _ => panic!("empty short code was not rejected"),
    }
}

#[test]
fn generate_rejects_a_record_type_with_a_descriptive_error() {
    let meta = TypeMetadata {
        ident: "NotAnEnum".to_string(),
        app_code_type: "u16".to_string(),
        prefix: "01".to_string(),
        data: TypeData::Record,
    };
    match generate(&meta) {
        Err(e) => {
            assert!(matches!(e, GenError::NotClosedSet));
            assert_eq!(e.message(), "only closed-set error types are supported");
        }
        Ok(_) => panic!("a record type was accepted"),
    }
}

#[test]
fn render_emits_one_arm_per_variant_and_no_catch_all() {
    let g = generate(&my_error_metadata()).unwrap();
    let text = render(&g);
    assert_eq!(text.matches("=>").count(), 3);
    assert!(text.contains("impl ToErrorInfo for MyError"));
    assert!(text.contains("type T = u16;"));
    assert!(text.contains(
        "MyError::InvalidArgument(_) => ErrorInfo::new(\"400\", \"01IA\", \"friendly msg\", format!(\"{}\", self)),"
    ));
    assert!(!text.contains("_ =>"));
}

#[test]
fn render_of_a_single_variant_is_exact() {
    let g = GeneratedImpl {
        type_ident: "MyError".to_string(),
        app_code_type: "u16".to_string(),
        arms: vec![error_code::generator::GeneratedArm {
            variant_ident: "InvalidArgument".to_string(),
            code: "01IA".to_string(),
            app_code: "400".to_string(),
            client_msg: "friendly msg".to_string(),
        }],
    };
    let expected = "impl ToErrorInfo for MyError {\n    type T = u16;\n\n    fn to_error_info(&self) -> Result<ErrorInfo<Self::T>, AppCodeParseError> {\n        match self {\n            MyError::InvalidArgument(_) => ErrorInfo::new(\"400\", \"01IA\", \"friendly msg\", format!(\"{}\", self)),\n        }\n    }\n}\n";
    assert_eq!(render(&g), expected);
}
