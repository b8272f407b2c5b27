use bot_engine::account_repository::{
    extract_accounts_payload, Account, AccountRepositoryError, DbAttribute, DbItem, DbTable,
};
use bot_engine::engine::{ActionsProtection, Captcha};
use bot_engine::vpn::{Vpn, VpnCredentials};

fn item(attrs: &[(&str, Option<&str>)]) -> DbItem {
    DbItem {
        attributes: attrs
            .iter()
            .map(|(k, t)| DbAttribute { key: k.to_string(), text: t.map(|s| s.to_string()) })
            .collect(),
    }
}

#[test]
fn extract_reports_missing_answer() {
    assert_eq!(
        extract_accounts_payload(&None),
        Err(AccountRepositoryError::EmptyResponseForDomain)
    );
}

#[test]
fn extract_reports_missing_table_or_data() {
    assert_eq!(extract_accounts_payload(&Some(vec![])), Err(AccountRepositoryError::NoData));

    let other = DbTable { name: "users".to_string(), items: vec![item(&[("data", Some("x"))])] };
    assert_eq!(extract_accounts_payload(&Some(vec![other])), Err(AccountRepositoryError::NoData));

    let empty = DbTable { name: "accounts".to_string(), items: vec![] };
    assert_eq!(extract_accounts_payload(&Some(vec![empty])), Err(AccountRepositoryError::NoData));

    let no_data_attr =
        DbTable { name: "accounts".to_string(), items: vec![item(&[("domain", Some("d"))])] };
    assert_eq!(
        extract_accounts_payload(&Some(vec![no_data_attr])),
        Err(AccountRepositoryError::NoData)
    );

    let data_without_text =
        DbTable { name: "accounts".to_string(), items: vec![item(&[("data", None)])] };
    assert_eq!(
        extract_accounts_payload(&Some(vec![data_without_text])),
        Err(AccountRepositoryError::NoData)
    );
}

#[test]
fn extract_returns_payload_of_last_item_with_data() {
    let table = DbTable {
        name: "accounts".to_string(),
        items: vec![
            item(&[("data", Some("[old]"))]),
            item(&[("other", Some("z"))]),
            item(&[("domain", Some("d")), ("data", Some("[new]"))]),
        ],
    };
    assert_eq!(extract_accounts_payload(&Some(vec![table])), Ok("[new]".to_string()));
}

#[test]
fn stored_account_lifecycle() {
    let mut account = Account::new("u1".to_string(), "p1".to_string());
    assert_eq!(account.nickname, "u1");
    assert_eq!(account.password, "p1");
    assert!(account.voted_at.is_none());
    assert!(!account.disabled);
    assert!(account.can_vote());

    account.voted_now();
    assert!(account.voted_at.is_some());
    assert!(account.can_vote());

    account.disable();
    assert!(account.disabled);
    assert!(!account.can_vote());
}

#[test]
fn engine_account_param_map() {
    let account =
        bot_engine::engine::Account::new("mail@example.net".to_string(), "secret".to_string());
    assert_eq!(
        account.get_param_map(),
        vec![
            ("user_name".to_string(), "mail@example.net".to_string()),
            ("user_password".to_string(), "secret".to_string()),
        ]
    );
}

#[test]
fn actions_protection_defaults_to_no_captcha() {
    let protection = ActionsProtection::default();
    assert_eq!(protection.login, Captcha::NONE);
    assert_eq!(protection.vote, Captcha::NONE);
}

#[test]
fn vpn_connects_to_loopback() {
    let credentials = VpnCredentials::new("mail@example.net".to_string(), "pw".to_string());
    assert_eq!(credentials.preferred_zone, "FR");
    let vpn = Vpn::new(credentials).expect("vpn construction cannot fail");
    assert_eq!(vpn.connect(), Ok("127.0.0.1".to_string()));
}
