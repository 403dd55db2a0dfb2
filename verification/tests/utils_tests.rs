use telegram_tdlib::types::get_premium_state::GetPremiumState;
use telegram_tdlib::utils::{split_string, trim_blank};

#[test]
fn request_extra_is_a_hyphenated_identifier() {
    let request = GetPremiumState::builder().build();
    let extra = request.extra.expect("builders tag requests with a correlation id");
    assert_eq!(extra.chars().count(), 36);
    assert_eq!(extra.chars().filter(|c| *c == '-').count(), 4);
}

#[test]
fn trim_blank_strips_both_ends_only() {
    assert_eq!(trim_blank("  hello world \n"), "hello world");
    assert_eq!(trim_blank("\t\r\n"), "");
    assert_eq!(trim_blank(""), "");
    assert_eq!(trim_blank("inner  space"), "inner  space");
}

#[test]
fn split_string_splits_at_the_first_separator() {
    assert_eq!(
        split_string("John , Smith", ','),
        Some((String::from("John"), String::from("Smith")))
    );
    assert_eq!(
        split_string("a,b,c", ','),
        Some((String::from("a"), String::from("b,c")))
    );
    assert_eq!(split_string("no separator here", ','), None);
    assert_eq!(
        split_string(",leading", ','),
        Some((String::new(), String::from("leading")))
    );
}
