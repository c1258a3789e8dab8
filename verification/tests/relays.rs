use iroh_bridge::keys::{endpoint_secret, pick_secret, EndpointId};
use iroh_bridge::relays::{
    choose_relays, partition_relays, prepare_endpoint, setup_endpoint, RelayChoice,
};

fn strings(list: &[&str]) -> Vec<String> {
    list.iter().map(|s| s.to_string()).collect()
}

fn custom_urls(choice: &RelayChoice) -> Vec<String> {
    match choice {
        RelayChoice::Preset => panic!("no custom relays"),
        RelayChoice::Custom(map) => {
            let urls: Vec<iroh::RelayUrl> = map.urls();
            urls.iter().map(|url| url.to_string()).collect()
        }
    }
}

#[test]
fn partition_follows_the_outcomes() {
    let urls = strings(&["one", "two", "three"]);
    let outcomes = vec![
        Ok("ONE".to_string()),
        Err("bad".to_string()),
        Ok("THREE".to_string()),
    ];
    let partition = partition_relays(&urls, &outcomes);
    assert_eq!(partition.accepted, strings(&["one", "three"]));
    assert_eq!(partition.rejected.len(), 1);
    assert_eq!(partition.rejected[0].url, "two");
    assert_eq!(partition.rejected[0].reason, "bad");
}

#[test]
fn urls_that_parse_become_custom_relays() {
    let urls = strings(&["https://b.example.org", "https://a.example.org/"]);
    let (choice, rejected) = choose_relays(&urls);
    assert_eq!(
        custom_urls(&choice),
        strings(&["https://a.example.org/", "https://b.example.org/"])
    );
    assert!(rejected.is_empty());
}

#[test]
fn custom_relays_offer_address_discovery_at_the_default_port() {
    let (choice, _) = choose_relays(&strings(&["https://relay.example.org"]));
    match choice {
        RelayChoice::Preset => panic!("no custom relays"),
        RelayChoice::Custom(map) => {
            let url = "https://relay.example.org".parse::<iroh::RelayUrl>().unwrap();
            let config = map.get(&url).unwrap();
            assert_eq!(config.url, url);
            assert_eq!(config.quic.as_ref().unwrap().port, 7842);
            assert!(config.auth_token.is_none());
        }
    }
}

#[test]
fn urls_that_do_not_parse_are_skipped() {
    let urls = strings(&["", "https://relay.example.org", "not a url"]);
    let (choice, rejected) = choose_relays(&urls);
    assert_eq!(custom_urls(&choice), strings(&["https://relay.example.org/"]));
    assert_eq!(rejected.len(), 2);
    assert_eq!(rejected[0].url, "");
    assert_eq!(rejected[1].url, "not a url");
    assert_eq!(rejected[0].reason, "Failed to parse relay URL");
    assert_eq!(rejected[1].reason, "Failed to parse relay URL");
}

#[test]
fn spellings_of_one_url_are_one_relay() {
    let urls = strings(&["https://relay.example.org", "HTTPS://relay.example.org/"]);
    let (choice, _) = choose_relays(&urls);
    assert_eq!(custom_urls(&choice), strings(&["https://relay.example.org/"]));
}

#[test]
fn order_of_the_urls_does_not_matter() {
    let (one, _) = choose_relays(&strings(&["https://a.org", "https://b.org"]));
    let (two, _) = choose_relays(&strings(&["https://b.org", "https://a.org", "https://b.org"]));
    assert_eq!(custom_urls(&one), custom_urls(&two));
}

#[test]
fn without_a_url_that_parses_the_preset_stays() {
    let (choice, rejected) = choose_relays(&Vec::new());
    assert!(matches!(choice, RelayChoice::Preset));
    assert!(rejected.is_empty());
    let (choice, rejected) = choose_relays(&strings(&["nowhere"]));
    assert!(matches!(choice, RelayChoice::Preset));
    assert_eq!(rejected.len(), 1);
}

#[test]
fn configured_secret_key_is_used() {
    let setup = prepare_endpoint(Some([7; 32]), Vec::new());
    assert_eq!(setup.secret_key, [7; 32]);
    assert_eq!(setup.endpoint_id, EndpointId::of_secret(&[7; 32]));
    let public = iroh::SecretKey::from_bytes(&[7; 32]).public();
    assert_eq!(&setup.endpoint_id.to_bytes(), public.as_bytes());
    assert!(matches!(setup.relays, RelayChoice::Preset));
    assert!(setup.rejected.is_empty());
}

#[test]
fn fresh_key_counts_only_where_none_is_configured() {
    assert_eq!(pick_secret(Some([7; 32]), [8; 32]), [7; 32]);
    assert_eq!(pick_secret(None, [8; 32]), [8; 32]);
    assert_eq!(endpoint_secret(Some([7; 32])), [7; 32]);
    let one = setup_endpoint(pick_secret(None, [8; 32]), &Vec::new());
    let two = setup_endpoint(pick_secret(None, [9; 32]), &strings(&["nowhere"]));
    assert_eq!(one.endpoint_id, EndpointId::of_secret(&[8; 32]));
    assert_ne!(one.endpoint_id, two.endpoint_id);
    assert_eq!(two.rejected.len(), 1);
    let three = setup_endpoint(pick_secret(Some([8; 32]), [9; 32]), &Vec::new());
    assert_eq!(one.endpoint_id, three.endpoint_id);
}

#[test]
fn without_a_secret_key_every_setup_has_its_own() {
    let one = prepare_endpoint(None, Vec::new());
    let two = prepare_endpoint(None, Vec::new());
    assert_ne!(one.secret_key, two.secret_key);
    assert_ne!(one.endpoint_id, two.endpoint_id);
    assert_eq!(one.endpoint_id, EndpointId::of_secret(&one.secret_key));
}
