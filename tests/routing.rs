use modbot::routes::{
    route_event, route_interaction, InteractionKind, InteractionRoute, PagerFeature,
};

#[test]
fn routes_each_table_entry() {
    assert_eq!(route_interaction("pg:permissions:42"), Some(InteractionRoute::PermissionsButtons));
    assert_eq!(route_interaction("pg:help"), Some(InteractionRoute::HelpButtons));
    assert_eq!(route_interaction("pg:help:3"), Some(InteractionRoute::HelpButtons));
    assert_eq!(route_interaction("pg:pagetest:1"), Some(InteractionRoute::PagetestButtons));
    assert_eq!(route_interaction("pgm:permissions:42"), Some(InteractionRoute::PermissionsModal));
    assert_eq!(route_interaction("pgm:help"), Some(InteractionRoute::HelpModal));
    assert_eq!(route_interaction("pgm:pagetest:0"), Some(InteractionRoute::PagetestModal));
}

#[test]
fn unmatched_tokens_have_no_route() {
    assert_eq!(route_interaction(""), None);
    assert_eq!(route_interaction("pg:other:1"), None);
    assert_eq!(route_interaction("pg:permissions"), None);
    assert_eq!(route_interaction("pgm:pagetest"), None);
    assert_eq!(route_interaction("xpg:help"), None);
}

#[test]
fn broader_prefix_matches_longer_tokens() {
    // "pg:help" has no trailing separator, so longer features starting with it match it.
    assert_eq!(route_interaction("pg:helpdesk:2"), Some(InteractionRoute::HelpButtons));
    // The modal namespace is not shadowed by the component namespace.
    assert_eq!(route_interaction("pgm:help:2"), Some(InteractionRoute::HelpModal));
}

#[test]
fn only_component_and_modal_events_route() {
    assert_eq!(
        route_event(InteractionKind::MessageComponent, "pg:help:1"),
        Some(InteractionRoute::HelpButtons)
    );
    assert_eq!(
        route_event(InteractionKind::ModalSubmit, "pgm:pagetest:2"),
        Some(InteractionRoute::PagetestModal)
    );
    assert_eq!(route_event(InteractionKind::Other, "pg:help:1"), None);
    assert_eq!(route_event(InteractionKind::ModalSubmit, "zz"), None);
}

#[test]
fn routes_name_their_feature() {
    assert_eq!(InteractionRoute::HelpButtons.feature(), PagerFeature::Help);
    assert_eq!(InteractionRoute::HelpModal.feature(), PagerFeature::Help);
    assert_eq!(InteractionRoute::PagetestModal.feature(), PagerFeature::Pagetest);
    assert_eq!(InteractionRoute::PermissionsButtons.feature(), PagerFeature::Permissions);
    assert!(InteractionRoute::PagetestModal.is_modal());
    assert!(!InteractionRoute::PagetestButtons.is_modal());
    assert!(InteractionRoute::PermissionsModal.is_modal());
}
