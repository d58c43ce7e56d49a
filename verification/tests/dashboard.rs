use rs_pool::http::{
    authorized, credentials_in, first_step, is_let_in, load_password_hash, next_step,
    redirect_location, status_dashboard_json, token_of, StartupStep,
};
use rs_pool::state::{pack_relays, PoolState};
use serde_json::{Number, Value};

fn text(s: &str) -> Option<String> {
    Some(s.to_string())
}

#[test]
fn status_json_includes_relays_and_temps() {
    let mut state = PoolState::default();
    state.commanded.relays = pack_relays([true, false, false, false, false, false, true, false]);
    state.measured.relay_status = Some(pack_relays([
        false, true, false, false, false, false, false, false,
    ]));
    state.measured.pool_temp = Number::from_f64(72.5);
    let v = status_dashboard_json(&state);
    assert_eq!(v["commanded_relays"]["r1"], true);
    assert_eq!(v["commanded_relays"]["r7"], true);
    assert_eq!(v["measured_relays"]["r2"], true);
    assert_eq!(v["pool_temp"], 72.5);
    assert!(v.get("mqtt_connected").is_none());
}

#[test]
fn dashboard_members() {
    let mut state = PoolState::default();
    state.measured.ip = "10.0.0.2".to_string();
    state.measured.air_temp = 81;
    state.update_pump = true;
    let v = status_dashboard_json(&state);
    let object = v.as_object().unwrap();
    assert_eq!(object.len(), 15);
    assert_eq!(v["ip"], "10.0.0.2");
    assert_eq!(v["mode"], 0);
    assert_eq!(v["set_speed"], 0);
    assert_eq!(v["set_spa_temp"], 104);
    assert_eq!(v["set_pool_temp"], 70);
    assert_eq!(v["rpm"], 0);
    assert_eq!(v["watt"], 0);
    assert_eq!(v["air_temp"], 81.0);
    assert_eq!(v["spa_temp"], Value::Null);
    assert_eq!(v["pool_temp"], Value::Null);
    assert_eq!(v["commanded_relays"].as_object().unwrap().len(), 8);
    assert_eq!(v["commanded_relays"]["r8"], false);
    assert_eq!(v["measured_relays"], Value::Null);
    assert_eq!(v["update_pump"], true);
    assert_eq!(v["update_relays"], false);
    assert_eq!(v["water_temp_settling"], false);
}

#[test]
fn load_password_hash_parses_web_line() {
    let hash = bcrypt::hash("test", 4).unwrap();
    let loaded = load_password_hash(&format!("web:{hash}\n")).unwrap();
    assert_eq!(loaded, hash);
    assert!(bcrypt::verify("test", &loaded).unwrap());
}

#[test]
fn password_file_comments_and_blank_lines() {
    let raw = "\r\n# comment\n   \n\t# indented\n  web:a:b  \r\nweb:other\n";
    assert_eq!(load_password_hash(raw).unwrap(), "a:b");
    assert_eq!(load_password_hash("web:x").unwrap(), "x");
}

#[test]
fn password_file_errors() {
    assert_eq!(load_password_hash("").unwrap_err(), "auth file is empty");
    assert_eq!(load_password_hash("\n # only\n").unwrap_err(), "auth file is empty");
    assert_eq!(
        load_password_hash("web\nweb:x").unwrap_err(),
        "auth line must be user:hash"
    );
    assert_eq!(
        load_password_hash("root:x").unwrap_err(),
        "expected username web, found root"
    );
    assert_eq!(load_password_hash("web:\n").unwrap_err(), "empty password hash");
}

#[test]
fn basic_credentials_are_checked() {
    let hash = bcrypt::hash("pa:ss", 4).unwrap();
    // web:pa:ss
    assert!(authorized(&text("Basic d2ViOnBhOnNz"), &hash));
    assert!(authorized(&text("Basic   d2ViOnBhOnNz  "), &hash));
    // web:other
    assert!(!authorized(&text("Basic d2ViOm90aGVy"), &hash));
    // root:pa:ss
    assert!(!authorized(&text("Basic cm9vdDpwYTpzcw=="), &hash));
    // webpass, without a colon
    assert!(!authorized(&text("Basic d2VicGFzcw=="), &hash));
    // not UTF-8
    assert!(!authorized(&text("Basic //79"), &hash));
    // not Base64
    assert!(!authorized(&text("Basic d2ViOnBhOnNz!"), &hash));
    assert!(!authorized(&text("basic d2ViOnBhOnNz"), &hash));
    assert!(!authorized(&text("Bearer d2ViOnBhOnNz"), &hash));
    assert!(!authorized(&text(""), &hash));
    assert!(!authorized(&None, &hash));
    assert!(!authorized(&text("Basic d2ViOnBhOnNz"), "no hash"));
    assert!(!authorized(&text("Basic d2ViOnBhOnNz"), ""));
}

#[test]
fn header_parts() {
    assert_eq!(token_of(&text("Basic  abc ")), text("abc"));
    assert_eq!(token_of(&text("Digest abc")), None);
    assert_eq!(token_of(&None), None);
    assert_eq!(
        credentials_in(Some(b"web:a:b".to_vec())),
        Some(("web".to_string(), "a:b".to_string()))
    );
    assert_eq!(credentials_in(Some(b"web".to_vec())), None);
    assert_eq!(credentials_in(Some(vec![0xFF, b':'])), None);
    assert_eq!(credentials_in(None), None);
    assert!(is_let_in("web", Some(true)));
    assert!(!is_let_in("web", Some(false)));
    assert!(!is_let_in("web", None));
    assert!(!is_let_in("root", Some(true)));
}

#[test]
fn redirects_lead_to_tls() {
    assert_eq!(
        redirect_location(&text("pool.local"), &text("/api/logs?limit=3")),
        "https://pool.local/api/logs?limit=3"
    );
    assert_eq!(
        redirect_location(&text("pool.local:80"), &None),
        "https://pool.local/"
    );
    assert_eq!(
        redirect_location(&text("pool.local:8080"), &text("/")),
        "https://pool.local:8080/"
    );
    assert_eq!(redirect_location(&None, &text("/x")), "https://localhost/x");
}

#[test]
fn startup_steps() {
    assert_eq!(first_step(false), StartupStep::Stop);
    let mut step = first_step(true);
    let mut seen = Vec::new();
    while step != StartupStep::Stop {
        seen.push(step);
        step = next_step(step, step != StartupStep::InstallCrypto);
    }
    assert_eq!(
        seen,
        [
            StartupStep::InstallCrypto,
            StartupStep::LoadAuth,
            StartupStep::LoadTls,
            StartupStep::ParseHttpBind,
            StartupStep::ParseHttpsBind,
            StartupStep::Serve,
        ]
    );
    for failing in &seen[1..] {
        assert_eq!(next_step(*failing, false), StartupStep::Stop);
    }
}
