use velmora_desktop::error::AppError;
use velmora_desktop::json::Json;
use velmora_desktop::session::{AuthState, TOKEN_KEY};
use velmora_desktop::store::{
    get_setting, read_string_setting, set_setting, write_string_setting, Edit, StorePlan,
    SETTINGS_FILE, STORE_FILE,
};
use velmora_desktop::text::{concat2, decimal_string};

fn text(s: &str) -> serde_json::Value {
    serde_json::Value::String(s.to_string())
}

#[test]
fn memory_comes_before_disk() {
    let mut state = AuthState::default();
    let kept = Json::Text("disque".to_string());
    assert_eq!(state.read_token(None), None);
    assert!(!state.is_logged_in(None));
    assert_eq!(state.read_token(Some(&kept)), Some("disque".to_string()));
    assert!(state.is_logged_in(Some(&kept)));
    state.save_token("memoire");
    assert_eq!(state.read_token(Some(&kept)), Some("memoire".to_string()));
}

#[test]
fn a_kept_token_that_is_no_string_counts_for_nothing() {
    let state = AuthState::default();
    assert_eq!(state.read_token(Some(&Json::Bool(true))), None);
    assert_eq!(state.read_token(Some(&Json::Null)), None);
}

#[test]
fn a_saved_token_is_read_back_after_a_restart() {
    let mut state = AuthState::default();
    let plan = state.save_token("jeton");
    assert_eq!(
        plan,
        StorePlan {
            file: STORE_FILE.to_string(),
            edits: vec![Edit::Put { key: TOKEN_KEY.to_string(), value: text("jeton") }],
            strict: true,
        }
    );
    let written = match &plan.edits[0] {
        Edit::Put { value, .. } => Json::from_value(value.clone()),
        Edit::Delete { .. } => unreachable!(),
    };
    let restarted = AuthState::default();
    assert_eq!(restarted.read_token(Some(&written)), Some("jeton".to_string()));
}

#[test]
fn a_cleared_token_is_gone() {
    let mut state = AuthState::default();
    state.save_token("jeton");
    let plan = state.clear_token();
    assert_eq!(
        plan,
        StorePlan {
            file: "velmora.json".to_string(),
            edits: vec![Edit::Delete { key: "auth_token".to_string() }],
            strict: false,
        }
    );
    assert!(!state.is_logged_in(None));
}

#[test]
fn only_strict_plans_report_faults() {
    let strict = AuthState::default().save_token("t");
    let lenient = AuthState::default().clear_token();
    assert_eq!(
        strict.settle(Some("disque plein".to_string())),
        Err(AppError::Internal("disque plein".to_string()))
    );
    assert_eq!(strict.settle(None), Ok(()));
    assert_eq!(lenient.settle(Some("disque plein".to_string())), Ok(()));
}

#[test]
fn settings_read_back_and_default_to_null() {
    assert_eq!(get_setting(None), serde_json::Value::Null);
    assert_eq!(get_setting(Some(text("v"))), text("v"));
    assert_eq!(
        set_setting("volume".to_string(), serde_json::Value::from(3)),
        StorePlan {
            file: SETTINGS_FILE.to_string(),
            edits: vec![Edit::Put {
                key: "volume".to_string(),
                value: serde_json::Value::from(3)
            }],
            strict: true,
        }
    );
}

#[test]
fn a_fraction_reads_back_digit_for_digit() {
    let half = serde_json::from_str::<serde_json::Value>("{\"volume\": [0.125, -3.5]}").unwrap();
    let plan = set_setting("son".to_string(), half.clone());
    let kept = match plan.edits.into_iter().next() {
        Some(Edit::Put { value, .. }) => value,
        _ => unreachable!(),
    };
    assert_eq!(get_setting(Some(kept)), half);
}

#[test]
fn string_settings_are_written_without_complaint() {
    let plan = write_string_setting("clef", "valeur");
    assert_eq!(plan.file, "velmora.json");
    assert!(!plan.strict);
    assert_eq!(
        plan.edits,
        vec![Edit::Put { key: "clef".to_string(), value: text("valeur") }]
    );
    assert_eq!(
        read_string_setting(Some(&Json::Text("valeur".to_string()))),
        Some("valeur".to_string())
    );
    assert_eq!(read_string_setting(None), None);
    assert_eq!(read_string_setting(Some(&Json::Bool(false))), None);
}

#[test]
fn error_messages() {
    assert_eq!(AppError::Network("coupure".to_string()).message(), "réseau : coupure");
    assert_eq!(AppError::Unauthenticated.message(), "non authentifié");
    assert_eq!(AppError::InvalidCredentials.message(), "identifiants invalides");
    assert_eq!(
        AppError::Unexpected("HTTP 500".to_string()).message(),
        "réponse inattendue du serveur : HTTP 500"
    );
    assert_eq!(AppError::Internal("panne".to_string()).message(), "erreur interne : panne");
}

#[test]
fn decimal_rendering() {
    assert_eq!(decimal_string(0), "0");
    assert_eq!(decimal_string(7), "7");
    assert_eq!(decimal_string(10), "10");
    assert_eq!(decimal_string(4_294_967_295), "4294967295");
    assert_eq!(decimal_string(u64::MAX), "18446744073709551615");
    assert_eq!(concat2("a", "b"), "ab");
}
