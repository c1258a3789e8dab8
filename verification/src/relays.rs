//! What an endpoint is bound with: its secret key and the relays it may use.

use std::sync::Arc;

use vstd::prelude::*;

use crate::keys::{endpoint_secret, picked_secret, public_key_bytes, EndpointId};

verus! {

/// The relay map of iroh, known by its entries only. Maps are made and filled below and nowhere
/// else, so that the lock inside is never poisoned.
#[verifier::external_type_specification]
#[verifier::external_body]
pub struct ExRelayMap(iroh::RelayMap);

/// The relays of a map: the text of each URL, with the port of its QUIC address discovery and its
/// authorization token, where it has them.
pub uninterp spec fn relay_entries(map: iroh::RelayMap) -> Map<
    Seq<char>,
    (Option<u16>, Option<Seq<char>>),
>;

/// The entries of a map without relays.
pub open spec fn no_relays() -> Map<Seq<char>, (Option<u16>, Option<Seq<char>>)> {
    Map::empty()
}

/// The normalized text of the URL that `iroh::RelayUrl` parses from a text, if it does.
pub uninterp spec fn relay_url_text(text: Seq<char>) -> Option<Seq<char>>;

/// The port at which a relay offers QUIC address discovery unless it is told otherwise.
pub const RELAY_QUIC_PORT: u16 = 7842;

/// A relay as it is without a configuration of its own: address discovery at the default port, and
/// no authorization token.
pub open spec fn default_relay() -> (Option<u16>, Option<Seq<char>>) {
    (Some(RELAY_QUIC_PORT), None)
}

/// Why a relay URL is rejected.
pub open spec fn bad_relay_reason() -> Seq<char> {
    "Failed to parse relay URL"@
}

/// Parses an `iroh::RelayUrl` and renders it: whether that succeeds, and with which text, depends
/// on the argument alone. The error's text is always the same.
#[verifier::external_body]
fn parse_relay_url(text: &str) -> (url: Result<String, String>)
    ensures
        match url {
            Ok(normalized) => relay_url_text(text@) == Some(normalized@),
            Err(reason) => relay_url_text(text@) is None && reason@ == bad_relay_reason(),
        },
{
    text.parse::<iroh::RelayUrl>().map(|url| url.to_string()).map_err(|e| e.to_string())
}

/// Calls `iroh::RelayMap::empty`: a map without relays.
#[verifier::external_body]
fn empty_relay_map() -> (map: iroh::RelayMap)
    ensures
        relay_entries(map) == no_relays(),
{
    iroh::RelayMap::empty()
}

/// Calls `iroh::RelayMap::insert` with the relay at a URL and its default configuration, which
/// has QUIC address discovery at the default port and no authorization token. The relay joins the
/// map, in place of one with the same normalized URL.
#[verifier::external_body]
fn insert_relay(map: &mut iroh::RelayMap, text: &str)
    requires
        relay_url_text(text@) is Some,
    ensures
        relay_entries(*final(map)) == relay_entries(*old(map)).insert(
            relay_url_text(text@)->0,
            default_relay(),
        ),
{
    if let Ok(url) = text.parse::<iroh::RelayUrl>() {
        map.insert(url.clone(), Arc::new(iroh::RelayConfig::from(url)));
    }
}

/// Calls `iroh::RelayMap::is_empty`: whether the map has no relays.
#[verifier::external_body]
fn relay_map_is_empty(map: &iroh::RelayMap) -> (empty: bool)
    ensures
        empty <==> relay_entries(*map) == no_relays(),
{
    map.is_empty()
}

/// A relay URL that could not be parsed, and why.
#[derive(Debug, Clone)]
pub struct RejectedRelay {
    pub url: String,
    pub reason: String,
}

/// The configured relay URLs, sorted out.
#[derive(Debug, Clone)]
pub struct RelayPartition {
    /// Those that were parsed, as they were configured.
    pub accepted: Vec<String>,
    /// The others.
    pub rejected: Vec<RejectedRelay>,
}

/// The relays of an endpoint.
pub enum RelayChoice {
    /// Those of the preset.
    Preset,
    /// These and no others.
    Custom(iroh::RelayMap),
}

/// The texts in a list.
pub open spec fn texts(list: Seq<String>) -> Seq<Seq<char>> {
    list.map_values(|s: String| s@)
}

/// Two lists with the same texts have them in the same places.
pub(crate) proof fn lemma_texts_elementwise(list: Seq<String>, other: Seq<String>)
    requires
        texts(list) == texts(other),
    ensures
        list.len() == other.len(),
        forall|i: int| 0 <= i < other.len() ==> (#[trigger] list[i])@ == other[i]@,
{
    assert(texts(list).len() == list.len());
    assert(texts(other).len() == other.len());
    assert forall|i: int| 0 <= i < other.len() implies (#[trigger] list[i])@ == other[i]@ by {
        assert(texts(list)[i] == list[i]@);
        assert(texts(other)[i] == other[i]@);
    }
}

/// A copy of a list of texts.
pub(crate) fn copy_texts(list: &Vec<String>) -> (copy: Vec<String>)
    ensures
        texts(copy@) == texts(list@),
{
    let mut copy: Vec<String> = Vec::new();
    for i in 0..list.len()
        invariant
            texts(copy@) == texts(list@).take(i as int),
    {
        let ghost before = copy@;
        copy.push(list[i].clone());
        assert(texts(copy@) =~= texts(before).push(list@[i as int]@));
        assert(texts(list@).take(i + 1) =~= texts(list@).take(i as int).push(list@[i as int]@));
    }
    assert(texts(list@).take(list@.len() as int) =~= texts(list@));
    copy
}

/// The URLs and reasons in a list of rejected relays.
pub open spec fn rejections(list: Seq<RejectedRelay>) -> Seq<(Seq<char>, Seq<char>)> {
    list.map_values(|r: RejectedRelay| (r.url@, r.reason@))
}

/// The URLs that were parsed, in order.
pub open spec fn accepted_urls(
    urls: Seq<Seq<char>>,
    outcomes: Seq<Result<String, String>>,
) -> Seq<Seq<char>>
    decreases urls.len(),
{
    if urls.len() == 0 {
        Seq::empty()
    } else {
        let rest = accepted_urls(urls.drop_last(), outcomes.drop_last());
        if outcomes.last() is Ok {
            rest.push(urls.last())
        } else {
            rest
        }
    }
}

/// The URLs that were not parsed, in order, each with the reason.
pub open spec fn rejected_urls(
    urls: Seq<Seq<char>>,
    outcomes: Seq<Result<String, String>>,
) -> Seq<(Seq<char>, Seq<char>)>
    decreases urls.len(),
{
    if urls.len() == 0 {
        Seq::empty()
    } else {
        let rest = rejected_urls(urls.drop_last(), outcomes.drop_last());
        match outcomes.last() {
            Ok(_) => rest,
            Err(reason) => rest.push((urls.last(), reason@)),
        }
    }
}

/// The relays that a list of URLs stands for: the URLs that parse, whatever their order and
/// however often they occur, each without a configuration of its own.
pub open spec fn custom_relays(urls: Seq<Seq<char>>) -> Map<
    Seq<char>,
    (Option<u16>, Option<Seq<char>>),
> {
    Map::new(
        |url: Seq<char>|
            exists|i: int|
                0 <= i < urls.len() && #[trigger] relay_url_text(urls[i]) == Some(url),
        |url: Seq<char>| default_relay(),
    )
}

/// The URLs in a list that do not parse, in order.
pub open spec fn unparsed_urls(urls: Seq<Seq<char>>) -> Seq<Seq<char>> {
    urls.filter(|url: Seq<char>| relay_url_text(url) is None)
}

/// The URLs in a list that are rejected, in order, each with the reason.
pub open spec fn rejected_relays(urls: Seq<Seq<char>>) -> Seq<(Seq<char>, Seq<char>)> {
    unparsed_urls(urls).map_values(|url: Seq<char>| (url, bad_relay_reason()))
}

/// Whether `outcome` is what parsing a URL comes to.
pub open spec fn parse_outcome(url: Seq<char>, outcome: Result<String, String>) -> bool {
    match outcome {
        Ok(text) => relay_url_text(url) == Some(text@),
        Err(reason) => relay_url_text(url) is None && reason@ == bad_relay_reason(),
    }
}

/// Whether some URL in a list parses.
pub open spec fn some_relay(urls: Seq<Seq<char>>) -> bool {
    exists|i: int| 0 <= i < urls.len() && #[trigger] relay_url_text(urls[i]) is Some
}

/// Sorts out relay URLs by what became of parsing them, one outcome for each URL.
pub fn partition_relays(urls: &Vec<String>, outcomes: &Vec<Result<String, String>>) -> (partition:
    RelayPartition)
    requires
        urls@.len() == outcomes@.len(),
    ensures
        texts(partition.accepted@) == accepted_urls(texts(urls@), outcomes@),
        rejections(partition.rejected@) == rejected_urls(texts(urls@), outcomes@),
{
    let mut accepted: Vec<String> = Vec::new();
    let mut rejected: Vec<RejectedRelay> = Vec::new();
    for i in 0..urls.len()
        invariant
            urls@.len() == outcomes@.len(),
            texts(accepted@) == accepted_urls(
                texts(urls@).take(i as int),
                outcomes@.take(i as int),
            ),
            rejections(rejected@) == rejected_urls(
                texts(urls@).take(i as int),
                outcomes@.take(i as int),
            ),
    {
        let ghost accepted_before = accepted@;
        let ghost rejected_before = rejected@;
        proof {
            assert(texts(urls@).take(i + 1).drop_last() =~= texts(urls@).take(i as int));
            assert(outcomes@.take(i + 1).drop_last() =~= outcomes@.take(i as int));
        }
        match &outcomes[i] {
            Ok(_) => {
                accepted.push(urls[i].clone());
                assert(texts(accepted@) =~= texts(accepted_before).push(urls@[i as int]@));
            },
            Err(reason) => {
                rejected.push(RejectedRelay { url: urls[i].clone(), reason: reason.clone() });
                assert(rejections(rejected@) =~= rejections(rejected_before).push(
                    (urls@[i as int]@, reason@),
                ));
            },
        }
    }
    proof {
        assert(texts(urls@).take(urls@.len() as int) =~= texts(urls@));
        assert(outcomes@.take(urls@.len() as int) =~= outcomes@);
    }
    RelayPartition { accepted, rejected }
}

/// One more URL adds its relay if it parses, and nothing otherwise.
proof fn lemma_custom_relays_push(urls: Seq<Seq<char>>, url: Seq<char>)
    ensures
        custom_relays(urls.push(url)) == match relay_url_text(url) {
            Some(text) => custom_relays(urls).insert(text, default_relay()),
            None => custom_relays(urls),
        },
{
    let more = urls.push(url);
    assert(relay_url_text(more[urls.len() as int]) == relay_url_text(url));
    assert forall|text: Seq<char>| custom_relays(urls).dom().contains(text) implies custom_relays(
        more,
    ).dom().contains(text) by {
        let i = choose|i: int|
            0 <= i < urls.len() && #[trigger] relay_url_text(urls[i]) == Some(text);
        assert(relay_url_text(more[i]) == Some(text));
    }
    match relay_url_text(url) {
        Some(text) => {
            assert(custom_relays(more) =~= custom_relays(urls).insert(text, default_relay()));
        },
        None => {
            assert(custom_relays(more) =~= custom_relays(urls));
        },
    }
}

/// Outcomes that follow the parser accept the URLs that parse and reject the others.
proof fn lemma_partition_follows_parser(
    urls: Seq<Seq<char>>,
    outcomes: Seq<Result<String, String>>,
)
    requires
        urls.len() == outcomes.len(),
        forall|i: int| 0 <= i < urls.len() ==> parse_outcome(urls[i], #[trigger] outcomes[i]),
    ensures
        forall|i: int|
            0 <= i < accepted_urls(urls, outcomes).len() ==> relay_url_text(
                #[trigger] accepted_urls(urls, outcomes)[i],
            ) is Some,
        custom_relays(accepted_urls(urls, outcomes)) == custom_relays(urls),
        rejected_urls(urls, outcomes) == rejected_relays(urls),
    decreases urls.len(),
{
    reveal_with_fuel(Seq::filter, 2);
    if urls.len() == 0 {
        assert(rejected_urls(urls, outcomes) =~= rejected_relays(urls));
        assert(accepted_urls(urls, outcomes) =~= urls);
    } else {
        let n = urls.len() - 1;
        lemma_partition_follows_parser(urls.drop_last(), outcomes.drop_last());
        assert(urls =~= urls.drop_last().push(urls.last()));
        lemma_custom_relays_push(urls.drop_last(), urls.last());
        lemma_custom_relays_push(
            accepted_urls(urls.drop_last(), outcomes.drop_last()),
            urls.last(),
        );
        assert(parse_outcome(urls[n], outcomes[n]));
        assert(rejected_urls(urls, outcomes) =~= rejected_relays(urls));
    }
}

/// The relays that the accepted URLs stand for.
fn relay_map_of(accepted: &Vec<String>) -> (map: iroh::RelayMap)
    requires
        forall|i: int|
            0 <= i < accepted@.len() ==> relay_url_text((#[trigger] accepted@[i])@) is Some,
    ensures
        relay_entries(map) == custom_relays(texts(accepted@)),
{
    let mut map = empty_relay_map();
    assert(relay_entries(map) =~= custom_relays(texts(accepted@).take(0)));
    for i in 0..accepted.len()
        invariant
            forall|i: int|
                0 <= i < accepted@.len() ==> relay_url_text((#[trigger] accepted@[i])@) is Some,
            relay_entries(map) == custom_relays(texts(accepted@).take(i as int)),
    {
        proof {
            lemma_custom_relays_push(texts(accepted@).take(i as int), accepted@[i as int]@);
            assert(texts(accepted@).take(i + 1) =~= texts(accepted@).take(i as int).push(
                accepted@[i as int]@,
            ));
        }
        insert_relay(&mut map, accepted[i].as_str());
    }
    assert(texts(accepted@).take(accepted@.len() as int) =~= texts(accepted@));
    map
}

/// What becomes of each relay URL when it is parsed.
fn parse_relay_urls(urls: &Vec<String>) -> (outcomes: Vec<Result<String, String>>)
    ensures
        outcomes@.len() == urls@.len(),
        forall|i: int| 0 <= i < urls@.len() ==> parse_outcome(urls@[i]@, #[trigger] outcomes@[i]),
{
    let mut outcomes: Vec<Result<String, String>> = Vec::new();
    for i in 0..urls.len()
        invariant
            outcomes@.len() == i,
            forall|j: int| 0 <= j < i ==> parse_outcome(urls@[j]@, #[trigger] outcomes@[j]),
    {
        outcomes.push(parse_relay_url(urls[i].as_str()));
    }
    outcomes
}

/// Picks the relays of an endpoint: the configured URLs that parse, or those of the preset where
/// there are none. URLs that do not parse are skipped, and handed back with the reason.
pub fn choose_relays(relay_urls: &Vec<String>) -> (chosen: (RelayChoice, Vec<RejectedRelay>))
    ensures
        match chosen.0 {
            RelayChoice::Preset => !some_relay(texts(relay_urls@)),
            RelayChoice::Custom(map) => some_relay(texts(relay_urls@)) && relay_entries(map)
                == custom_relays(texts(relay_urls@)),
        },
        rejections(chosen.1@) == rejected_relays(texts(relay_urls@)),
{
    let ghost urls = texts(relay_urls@);
    let outcomes = parse_relay_urls(relay_urls);
    let partition = partition_relays(relay_urls, &outcomes);
    proof {
        assert forall|i: int| 0 <= i < urls.len() implies parse_outcome(
            urls[i],
            #[trigger] outcomes@[i],
        ) by {
            assert(urls[i] == relay_urls@[i]@);
        }
        lemma_partition_follows_parser(urls, outcomes@);
        custom_relays_need_a_url_that_parses(urls);
        assert forall|i: int| 0 <= i < partition.accepted@.len() implies relay_url_text(
            (#[trigger] partition.accepted@[i])@,
        ) is Some by {
            assert(texts(partition.accepted@)[i] == partition.accepted@[i]@);
        }
    }
    let map = relay_map_of(&partition.accepted);
    if relay_map_is_empty(&map) {
        (RelayChoice::Preset, partition.rejected)
    } else {
        (RelayChoice::Custom(map), partition.rejected)
    }
}

/// Law: there are custom relays exactly where some URL parses.
pub proof fn custom_relays_need_a_url_that_parses(urls: Seq<Seq<char>>)
    ensures
        some_relay(urls) <==> custom_relays(urls) != no_relays(),
{
    if some_relay(urls) {
        let i = choose|i: int| 0 <= i < urls.len() && #[trigger] relay_url_text(urls[i]) is Some;
        assert(custom_relays(urls).dom().contains(relay_url_text(urls[i])->0));
        assert(!no_relays().dom().contains(relay_url_text(urls[i])->0));
    } else {
        assert(custom_relays(urls) =~= no_relays());
    }
}

/// Law: a URL that does not parse changes nothing, wherever it stands.
pub proof fn unparsed_url_changes_nothing(
    before: Seq<Seq<char>>,
    url: Seq<char>,
    after: Seq<Seq<char>>,
)
    requires
        relay_url_text(url) is None,
    ensures
        custom_relays(before.push(url) + after) == custom_relays(before + after),
        some_relay(before.push(url) + after) == some_relay(before + after),
{
    let with_url = before.push(url) + after;
    let without = before + after;
    assert forall|text: Seq<char>|
        custom_relays(with_url).dom().contains(text) implies custom_relays(
        without,
    ).dom().contains(text) by {
        let i = choose|i: int|
            0 <= i < with_url.len() && #[trigger] relay_url_text(with_url[i]) == Some(text);
        let j = if i < before.len() { i } else { i - 1 };
        assert(relay_url_text(without[j]) == Some(text));
    }
    assert forall|text: Seq<char>|
        custom_relays(without).dom().contains(text) implies custom_relays(
        with_url,
    ).dom().contains(text) by {
        let i = choose|i: int|
            0 <= i < without.len() && #[trigger] relay_url_text(without[i]) == Some(text);
        let j = if i < before.len() { i } else { i + 1 };
        assert(relay_url_text(with_url[j]) == Some(text));
    }
    assert(custom_relays(with_url) =~= custom_relays(without));
    custom_relays_need_a_url_that_parses(with_url);
    custom_relays_need_a_url_that_parses(without);
}

/// Law: neither the order of the URLs nor their repetition matters.
pub proof fn relay_order_does_not_matter(urls: Seq<Seq<char>>, others: Seq<Seq<char>>)
    requires
        urls.to_set() == others.to_set(),
    ensures
        custom_relays(urls) == custom_relays(others),
        some_relay(urls) == some_relay(others),
{
    assert forall|text: Seq<char>| custom_relays(urls).dom().contains(text) implies custom_relays(
        others,
    ).dom().contains(text) by {
        let i = choose|i: int|
            0 <= i < urls.len() && #[trigger] relay_url_text(urls[i]) == Some(text);
        assert(urls.to_set().contains(urls[i]));
        let j = choose|j: int| 0 <= j < others.len() && others[j] == urls[i];
        assert(relay_url_text(others[j]) == Some(text));
    }
    assert forall|text: Seq<char>| custom_relays(others).dom().contains(text) implies custom_relays(
        urls,
    ).dom().contains(text) by {
        let i = choose|i: int|
            0 <= i < others.len() && #[trigger] relay_url_text(others[i]) == Some(text);
        assert(others.to_set().contains(others[i]));
        let j = choose|j: int| 0 <= j < urls.len() && urls[j] == others[i];
        assert(relay_url_text(urls[j]) == Some(text));
    }
    assert(custom_relays(urls) =~= custom_relays(others));
    custom_relays_need_a_url_that_parses(urls);
    custom_relays_need_a_url_that_parses(others);
}

/// What an endpoint is bound with.
pub struct EndpointSetup {
    pub secret_key: [u8; 32],
    /// The identifier that the secret key gives the endpoint.
    pub endpoint_id: EndpointId,
    pub relays: RelayChoice,
    /// The relay URLs that were skipped.
    pub rejected: Vec<RejectedRelay>,
}

/// Whether `setup` is what an endpoint with this secret key and these relay URLs is bound with.
pub open spec fn is_setup_of(
    secret_key: [u8; 32],
    relay_urls: Seq<Seq<char>>,
    setup: EndpointSetup,
) -> bool {
    &&& setup.secret_key == secret_key
    &&& setup.endpoint_id@ == public_key_bytes(secret_key@)
    &&& match setup.relays {
        RelayChoice::Preset => !some_relay(relay_urls),
        RelayChoice::Custom(map) => some_relay(relay_urls) && relay_entries(map) == custom_relays(
            relay_urls,
        ),
    }
    &&& rejections(setup.rejected@) == rejected_relays(relay_urls)
}

/// What an endpoint with this secret key is bound with: the key, the identifier that it gives, and
/// the relays of the configured URLs, or those of the preset.
pub fn setup_endpoint(secret_key: [u8; 32], relay_urls: &Vec<String>) -> (setup: EndpointSetup)
    ensures
        is_setup_of(secret_key, texts(relay_urls@), setup),
{
    let (relays, rejected) = choose_relays(relay_urls);
    let endpoint_id = EndpointId::of_secret(&secret_key);
    EndpointSetup { secret_key, endpoint_id, relays, rejected }
}

/// Prepares an endpoint: the configured secret key, or a fresh one, and the relays of the
/// configured URLs, or those of the preset.
pub fn prepare_endpoint(secret_key: Option<[u8; 32]>, relay_urls: Vec<String>) -> (setup:
    EndpointSetup)
    ensures
        secret_key matches Some(bytes) ==> setup.secret_key == bytes,
        is_setup_of(setup.secret_key, texts(relay_urls@), setup),
{
    setup_endpoint(endpoint_secret(secret_key), &relay_urls)
}

/// Law: an endpoint without a configured key has the identity of the key that was drawn for it.
/// Where two drawn keys have different public keys, the two endpoints have different identifiers.
pub proof fn ephemeral_identity_is_that_of_the_drawn_key(
    fresh: [u8; 32],
    relay_urls: Seq<Seq<char>>,
    setup: EndpointSetup,
    other_fresh: [u8; 32],
    other_urls: Seq<Seq<char>>,
    other: EndpointSetup,
)
    requires
        is_setup_of(picked_secret(None, fresh), relay_urls, setup),
        is_setup_of(picked_secret(None, other_fresh), other_urls, other),
    ensures
        setup.endpoint_id@ == public_key_bytes(fresh@),
        public_key_bytes(fresh@) != public_key_bytes(other_fresh@) ==> setup.endpoint_id@
            != other.endpoint_id@,
{
}

/// Law: an endpoint with a configured key keeps its identity, whatever key is drawn and whatever
/// relays it uses.
pub proof fn configured_identity_does_not_change(
    configured: [u8; 32],
    fresh: [u8; 32],
    relay_urls: Seq<Seq<char>>,
    setup: EndpointSetup,
    other_fresh: [u8; 32],
    other_urls: Seq<Seq<char>>,
    other: EndpointSetup,
)
    requires
        is_setup_of(picked_secret(Some(configured), fresh), relay_urls, setup),
        is_setup_of(picked_secret(Some(configured), other_fresh), other_urls, other),
    ensures
        setup.endpoint_id@ == other.endpoint_id@,
        setup.secret_key == other.secret_key,
{
}

/// Law: custom relays are used exactly where some URL parses. Then every URL that parses has its
/// relay, with address discovery at the default port and without a token, and no other relay is
/// used.
pub proof fn setup_uses_every_relay_that_parses(
    secret_key: [u8; 32],
    relay_urls: Seq<Seq<char>>,
    setup: EndpointSetup,
)
    requires
        is_setup_of(secret_key, relay_urls, setup),
    ensures
        (exists|i: int|
            0 <= i < relay_urls.len() && #[trigger] relay_url_text(relay_urls[i]) is Some)
            <==> setup.relays is Custom,
        setup.relays matches RelayChoice::Custom(map) ==> forall|i: int|
            0 <= i < relay_urls.len() && #[trigger] relay_url_text(relay_urls[i]) is Some
                ==> relay_entries(map).dom().contains(relay_url_text(relay_urls[i])->0),
        setup.relays matches RelayChoice::Custom(map) ==> forall|url: Seq<char>| #[trigger]
            relay_entries(map).dom().contains(url) ==> relay_entries(map)[url] == (
            Some(7842u16),
            None::<Seq<char>>,
        ) && exists|i: int|
                0 <= i < relay_urls.len() && #[trigger] relay_url_text(relay_urls[i]) == Some(url),
{
    if let RelayChoice::Custom(map) = setup.relays {
        assert forall|i: int|
            0 <= i < relay_urls.len() && #[trigger] relay_url_text(
                relay_urls[i],
            ) is Some implies relay_entries(map).dom().contains(
            relay_url_text(relay_urls[i])->0,
        ) by {
            assert(custom_relays(relay_urls).dom().contains(relay_url_text(relay_urls[i])->0));
        }
    }
}

/// Law: an endpoint is bound with the key that it is set up for, and has the id of that key.
pub proof fn setup_keeps_the_key(
    secret_key: [u8; 32],
    relay_urls: Seq<Seq<char>>,
    setup: EndpointSetup,
)
    requires
        is_setup_of(secret_key, relay_urls, setup),
    ensures
        setup.secret_key == secret_key,
        setup.endpoint_id@ == public_key_bytes(secret_key@),
{
}

/// Law: two setups for the same key and URLs agree.
pub proof fn setup_is_determined(
    secret_key: [u8; 32],
    relay_urls: Seq<Seq<char>>,
    a: EndpointSetup,
    b: EndpointSetup,
)
    requires
        is_setup_of(secret_key, relay_urls, a),
        is_setup_of(secret_key, relay_urls, b),
    ensures
        a.secret_key == b.secret_key,
        a.endpoint_id@ == b.endpoint_id@,
        rejections(a.rejected@) == rejections(b.rejected@),
        match (a.relays, b.relays) {
            (RelayChoice::Preset, RelayChoice::Preset) => true,
            (RelayChoice::Custom(x), RelayChoice::Custom(y)) => relay_entries(x)
                == relay_entries(y),
            _ => false,
        },
{
}

/// Law: every URL that does not parse is handed back, in order, with the reason, and no other is.
pub proof fn every_url_that_does_not_parse_is_handed_back(urls: Seq<Seq<char>>, url: Seq<char>)
    ensures
        rejected_relays(Seq::empty()).len() == 0,
        rejected_relays(urls.push(url)) == match relay_url_text(url) {
            Some(_) => rejected_relays(urls),
            None => rejected_relays(urls).push((url, "Failed to parse relay URL"@)),
        },
{
    reveal_with_fuel(Seq::filter, 2);
    assert(urls.push(url).drop_last() =~= urls);
    assert(rejected_relays(urls.push(url)) =~= match relay_url_text(url) {
        Some(_) => rejected_relays(urls),
        None => rejected_relays(urls).push((url, bad_relay_reason())),
    });
}

/// Law: what was skipped is told in the setup: as many rejected relays as URLs that do not parse,
/// each a configured URL.
pub proof fn setup_tells_what_was_skipped(
    secret_key: [u8; 32],
    relay_urls: Seq<Seq<char>>,
    setup: EndpointSetup,
)
    requires
        is_setup_of(secret_key, relay_urls, setup),
    ensures
        rejections(setup.rejected@) == rejected_relays(relay_urls),
        setup.rejected@.len() == rejected_relays(relay_urls).len(),
        forall|i: int|
            0 <= i < setup.rejected@.len() ==> (#[trigger] setup.rejected@[i]).reason@
                == "Failed to parse relay URL"@ && relay_url_text(setup.rejected@[i].url@) is None
                && relay_urls.contains(setup.rejected@[i].url@),
{
    let unparsed = unparsed_urls(relay_urls);
    let bad = |url: Seq<char>| relay_url_text(url) is None;
    assert(rejections(setup.rejected@).len() == setup.rejected@.len());
    assert forall|i: int| 0 <= i < setup.rejected@.len() implies (
    #[trigger] setup.rejected@[i]).reason@ == "Failed to parse relay URL"@ && relay_url_text(
        setup.rejected@[i].url@,
    ) is None && relay_urls.contains(setup.rejected@[i].url@) by {
        assert(rejections(setup.rejected@)[i] == (
            setup.rejected@[i].url@,
            setup.rejected@[i].reason@,
        ));
        assert(rejected_relays(relay_urls)[i] == (unparsed[i], bad_relay_reason()));
        relay_urls.lemma_filter_contains_rev(bad, unparsed[i]);
        relay_urls.lemma_filter_pred(bad, i);
    }
}

/// Law: sorting out goes URL by URL, in order. Each one is accepted or rejected, by what became of
/// parsing it and nothing else, and a rejected one keeps its reason.
pub proof fn each_url_is_sorted_by_its_outcome(
    urls: Seq<Seq<char>>,
    outcomes: Seq<Result<String, String>>,
    url: Seq<char>,
    outcome: Result<String, String>,
)
    requires
        urls.len() == outcomes.len(),
    ensures
        accepted_urls(Seq::empty(), Seq::empty()).len() == 0,
        rejected_urls(Seq::empty(), Seq::empty()).len() == 0,
        accepted_urls(urls.push(url), outcomes.push(outcome)) == match outcome {
            Ok(_) => accepted_urls(urls, outcomes).push(url),
            Err(_) => accepted_urls(urls, outcomes),
        },
        rejected_urls(urls.push(url), outcomes.push(outcome)) == match outcome {
            Ok(_) => rejected_urls(urls, outcomes),
            Err(reason) => rejected_urls(urls, outcomes).push((url, reason@)),
        },
{
    assert(urls.push(url).drop_last() =~= urls);
    assert(outcomes.push(outcome).drop_last() =~= outcomes);
}

/// Law: no URL is lost in sorting out.
pub proof fn no_url_is_lost(urls: Seq<Seq<char>>, outcomes: Seq<Result<String, String>>)
    requires
        urls.len() == outcomes.len(),
    ensures
        accepted_urls(urls, outcomes).len() + rejected_urls(urls, outcomes).len() == urls.len(),
    decreases urls.len(),
{
    if urls.len() > 0 {
        no_url_is_lost(urls.drop_last(), outcomes.drop_last());
    }
}

} // verus!
