use modbot::routes::InteractionRoute;
use modbot::pagination::{
    button_page, clamp_page, pager_page, modal_page, next_page, page_token, previous_page, token_page,
};

#[test]
fn page_clamps() {
    assert_eq!(next_page(4, 4), 4);
    assert_eq!(next_page(2, 4), 3);
    assert_eq!(previous_page(0, 4), 0);
    assert_eq!(previous_page(3, 4), 2);
    assert_eq!(modal_page("99", 2, 4), 4);
    assert_eq!(modal_page("-1", 2, 4), 2);
    assert_eq!(modal_page("abc", 2, 4), 2);
    assert_eq!(modal_page(" 3 ", 0, 4), 3);
    assert_eq!(modal_page("", 1, 4), 1);
}

#[test]
fn shrunk_content_reclamps() {
    assert_eq!(clamp_page(9, 4), 4);
    assert_eq!(clamp_page(3, 4), 3);
    assert_eq!(next_page(9, 4), 4);
    assert_eq!(previous_page(9, 4), 4);
}

#[test]
fn tokens_carry_pages() {
    assert_eq!(page_token(false, "help", 3), "pg:help:3");
    assert_eq!(page_token(true, "permissions:12", 0), "pgm:permissions:12:0");
    assert_eq!(token_page("pg:help:3"), Some(3));
    assert_eq!(token_page(&page_token(true, "permissions:12", 250)), Some(250));
    assert_eq!(token_page("pg:help"), None);
    assert_eq!(token_page("pg:help:"), None);
    assert_eq!(token_page("17"), Some(17));
}

#[test]
fn modal_fallback_reclamps_shrunk_page() {
    assert_eq!(modal_page("abc", 9, 4), 4);
    assert_eq!(modal_page("", u64::MAX, 4), 4);
    assert_eq!(modal_page("-1", 7, 4), 4);
    assert_eq!(modal_page("2", 9, 4), 2);
}

#[test]
fn buttons_step_from_token_page() {
    assert_eq!(button_page("pg:pagetest:next:2", 4), Some(3));
    assert_eq!(button_page("pg:pagetest:next:4", 4), Some(4));
    assert_eq!(button_page("pg:pagetest:prev:2", 4), Some(1));
    assert_eq!(button_page("pg:pagetest:prev:0", 4), Some(0));
    assert_eq!(button_page("pg:pagetest:prev:9", 4), Some(4));
    assert_eq!(button_page("pg:pagetest:next:18446744073709551615", 4), Some(4));
    assert_eq!(button_page("pg:help:3", 2), Some(2));
    assert_eq!(button_page("pg:help:xprev:1", 4), Some(2));
    assert_eq!(button_page("pg:help", 4), None);
}

#[test]
fn pager_decides_page_per_route() {
    assert_eq!(pager_page(InteractionRoute::PagetestButtons, "pg:pagetest:next:3", ""), Some(4));
    assert_eq!(pager_page(InteractionRoute::PagetestButtons, "pg:pagetest:prev:0", ""), Some(0));
    assert_eq!(pager_page(InteractionRoute::PagetestModal, "pgm:pagetest:2", "99"), Some(4));
    assert_eq!(pager_page(InteractionRoute::PagetestModal, "pgm:pagetest:2", "-1"), Some(2));
    assert_eq!(pager_page(InteractionRoute::PagetestModal, "pgm:pagetest:9", "abc"), Some(4));
    assert_eq!(pager_page(InteractionRoute::HelpButtons, "pg:help:next:1", ""), Some(2));
    assert_eq!(pager_page(InteractionRoute::HelpButtons, "pg:help:next:2", ""), Some(2));
    assert_eq!(pager_page(InteractionRoute::HelpModal, "pgm:help:0", "1"), Some(1));
    assert_eq!(pager_page(InteractionRoute::PermissionsButtons, "pg:permissions:5:next:1", ""), None);
    assert_eq!(pager_page(InteractionRoute::PagetestButtons, "pg:pagetest", ""), None);
}
