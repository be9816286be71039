use storekit::RenewalState;

#[test]
fn known_renewal_states_round_trip() {
    let cases = [
        ("subscribed", RenewalState::Subscribed),
        ("expired", RenewalState::Expired),
        ("inBillingRetryPeriod", RenewalState::InBillingRetryPeriod),
        ("inGracePeriod", RenewalState::InGracePeriod),
        ("revoked", RenewalState::Revoked),
    ];

    for (raw, state) in cases {
        assert_eq!(RenewalState::from_raw(raw), state);
        assert_eq!(state.as_str(), raw);
    }
}

#[test]
fn unknown_renewal_state_is_preserved() {
    let state = RenewalState::from_raw("paused");

    assert_eq!(state, RenewalState::Unknown("paused".into()));
    assert_eq!(state.as_str(), "paused");
}

#[test]
fn renewal_state_matching_is_case_sensitive() {
    let state = RenewalState::from_raw("Subscribed");
    assert_eq!(state, RenewalState::Unknown("Subscribed".into()));
    assert_eq!(state.as_str(), "Subscribed");
}

#[test]
fn renewal_state_localized_description_key_names_the_raw_value() {
    assert_eq!(
        RenewalState::InGracePeriod.localized_description_key(),
        ("renewalState", "inGracePeriod")
    );
}
