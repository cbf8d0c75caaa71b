use deploy_smoke::endpoints::{
    batch_result_url, batch_upload_url, report_url, single_result_url, single_upload_url,
};
use deploy_smoke::env::EnvTypes;

#[test]
fn tokens_of_each_environment() {
    assert_eq!(EnvTypes::Sit.as_str(), "sit");
    assert_eq!(EnvTypes::Uat.as_str(), "uat");
    assert_eq!(EnvTypes::Prd.as_str(), "prd");
    assert_eq!(EnvTypes::Wst.as_str(), "wst");
}

#[test]
fn no_switch_selects_production() {
    assert_eq!(EnvTypes::from_flags(false, false, false, false), EnvTypes::Prd);
    assert_eq!(EnvTypes::from_flags(false, false, false, false).as_str(), "prd");
}

#[test]
fn each_switch_alone_selects_its_environment() {
    assert_eq!(EnvTypes::from_flags(true, false, false, false), EnvTypes::Sit);
    assert_eq!(EnvTypes::from_flags(false, true, false, false), EnvTypes::Wst);
    assert_eq!(EnvTypes::from_flags(false, false, true, false), EnvTypes::Uat);
    assert_eq!(EnvTypes::from_flags(false, false, false, true), EnvTypes::Prd);
}

#[test]
fn later_switch_wins() {
    assert_eq!(EnvTypes::from_flags(true, false, true, false), EnvTypes::Uat);
    assert_eq!(EnvTypes::from_flags(true, false, true, true), EnvTypes::Prd);
    assert_eq!(EnvTypes::from_flags(true, true, true, true), EnvTypes::Wst);
    assert_eq!(EnvTypes::from_flags(false, true, false, true), EnvTypes::Wst);
}

#[test]
fn addresses_carry_the_token() {
    assert_eq!(single_upload_url(EnvTypes::Uat), "https://uat");
    assert_eq!(batch_upload_url(EnvTypes::Sit), "https://sit");
    assert_eq!(batch_result_url(EnvTypes::Wst), "https://wst");
    assert_eq!(single_result_url(EnvTypes::Prd, "img-42"), "https://prdimg-42");
    assert_eq!(report_url(EnvTypes::Uat, "abc"), "https://uatabc");
}
