//! Include and Exclude filters over the attributes of candidate devices.

use vstd::prelude::*;
use vstd::string::*;
use crate::discovery::discovery_utils::OnvifQuery;
use crate::discovery::discovery_utils::QueryError;
use crate::discovery::discovery_utils::pair_view;
use crate::discovery::discovery_utils::texts_view;
use crate::discovery::discovery_utils::ONVIF_DEVICE_IP_ADDRESS_LABEL_ID;
use crate::discovery::discovery_utils::ONVIF_DEVICE_MAC_ADDRESS_LABEL_ID;
use crate::discovery::discovery_utils::ONVIF_DEVICE_SERVICE_URL_LABEL_ID;
use crate::models::device::Device;
use crate::models::device::DeviceView;
use crate::models::device::Properties;
use crate::models::device::device_views;
use crate::models::request::FilterList;
use crate::models::request::FilterListView;
use crate::models::request::FilterType;
use crate::models::request::OnvifDiscoveryDetails;
use crate::models::request::OnvifDiscoveryDetailsView;
use crate::text::is_substring;
use crate::text::str_contains;

verus! {

/// `pattern` is a substring of at least one of `values`.
pub open spec fn occurs_in_any(pattern: Seq<char>, values: Seq<Seq<char>>) -> bool {
    exists|j: int| 0 <= j < values.len() && is_substring(pattern, #[trigger] values[j])
}

/// At least one of `items` is a substring of at least one of `values`.
pub open spec fn any_item_occurs(items: Seq<Seq<char>>, values: Seq<Seq<char>>) -> bool {
    exists|i: int| 0 <= i < items.len() && occurs_in_any(#[trigger] items[i], values)
}

/// Whether a filter list turns away a candidate whose attribute has `values`.
/// No list lets every candidate through; an Include list turns away what
/// matches none of its items; an Exclude list turns away what matches any.
pub open spec fn rejects(list: Option<FilterListView>, values: Seq<Seq<char>>) -> bool {
    match list {
        None => false,
        Some(l) => match l.action {
            FilterType::Include => !any_item_occurs(l.items, values),
            FilterType::Exclude => any_item_occurs(l.items, values),
        },
    }
}

fn occurs(pattern: &str, values: &[String]) -> (found: bool)
    ensures
        found == occurs_in_any(pattern@, values.deep_view()),
{
    let mut j: usize = 0;
    while j < values.len()
        invariant
            j <= values@.len(),
            forall|k: int| 0 <= k < j ==> !is_substring(pattern@, (#[trigger] values@[k])@),
        decreases values@.len() - j,
    {
        if str_contains(values[j].as_str(), pattern) {
            assert(is_substring(pattern@, values.deep_view()[j as int]));
            return true;
        }
        j = j + 1;
    }
    assert forall|k: int| 0 <= k < values.deep_view().len() implies !is_substring(
        pattern@,
        #[trigger] values.deep_view()[k],
    ) by {
        assert(values.deep_view()[k] == values@[k]@);
    }
    false
}

/// Decides whether a candidate is turned away: `true` means that the filter
/// rejects the candidate with these attribute values.
pub fn execute_filter(filter_list: Option<&FilterList>, filter_against: &[String]) -> (rejected:
    bool)
    ensures
        rejected == rejects(
            match filter_list {
                Some(l) => Some(l@),
                None => None,
            },
            filter_against.deep_view(),
        ),
        filter_list is None ==> !rejected,
        filter_list matches Some(l) ==> (l.action == FilterType::Include && l.items@.len() == 0
            ==> rejected),
        filter_list matches Some(l) ==> (l.action == FilterType::Exclude ==> (rejected
            <==> any_item_occurs(l@.items, filter_against.deep_view()))),
{
    match filter_list {
        None => false,
        Some(list) => {
            let mut matched = false;
            let mut i: usize = 0;
            while i < list.items.len()
                invariant
                    i <= list.items@.len(),
                    matched <==> exists|k: int|
                        0 <= k < i && occurs_in_any(
                            #[trigger] list.items.deep_view()[k],
                            filter_against.deep_view(),
                        ),
                decreases list.items@.len() - i,
            {
                if occurs(list.items[i].as_str(), filter_against) {
                    assert(list.items.deep_view()[i as int] == list.items@[i as int]@);
                    matched = true;
                }
                i = i + 1;
            }
            assert(matched <==> any_item_occurs(list@.items, filter_against.deep_view()));
            match list.action {
                FilterType::Include => !matched,
                FilterType::Exclude => matched,
            }
        },
    }
}

/// The device reported for a candidate at `url` that answered with `ip` and
/// `mac`.
pub open spec fn device_of(url: Seq<char>, ip: Seq<char>, mac: Seq<char>) -> DeviceView {
    DeviceView {
        id: ip + "-"@ + mac,
        properties: Map::<Seq<char>, Seq<char>>::empty().insert(
            ONVIF_DEVICE_SERVICE_URL_LABEL_ID@,
            url,
        ).insert(ONVIF_DEVICE_IP_ADDRESS_LABEL_ID@, ip).insert(
            ONVIF_DEVICE_MAC_ADDRESS_LABEL_ID@,
            mac,
        ),
        mounts: Seq::empty(),
        device_specs: Seq::empty(),
    }
}

/// Neither the IP filter nor the MAC filter turns the candidate away.
pub open spec fn addresses_pass(
    config: OnvifDiscoveryDetailsView,
    ip: Seq<char>,
    mac: Seq<char>,
) -> bool {
    !rejects(config.ip_addresses, seq![ip]) && !rejects(config.mac_addresses, seq![mac])
}

/// The scopes filter does not turn the candidate away.
pub open spec fn scopes_pass(config: OnvifDiscoveryDetailsView, scopes: Seq<Seq<char>>) -> bool {
    !rejects(config.scopes, scopes)
}

/// What a camera answered when it was interrogated: its addresses, and its
/// scopes where it was asked for them.
pub struct Answers {
    pub addresses: Result<(Seq<char>, Seq<char>), QueryError>,
    pub scopes: Option<Result<Seq<Seq<char>>, QueryError>>,
}

/// Whether a camera with these addresses is asked for its scopes: it
/// answered, and neither the IP nor the MAC filter turns it away.
pub open spec fn asks_scopes(
    config: OnvifDiscoveryDetailsView,
    addresses: Result<(Seq<char>, Seq<char>), QueryError>,
) -> bool {
    addresses matches Ok((ip, mac)) && addresses_pass(config, ip, mac)
}

/// The device that a candidate at `url` yields: none where a query failed or
/// a filter turns the candidate away.
pub open spec fn outcome(
    config: OnvifDiscoveryDetailsView,
    url: Seq<char>,
    answers: Answers,
) -> Option<DeviceView> {
    match answers.addresses {
        Err(_) => None,
        Ok((ip, mac)) => match answers.scopes {
            Some(Ok(scopes)) => if addresses_pass(config, ip, mac) && scopes_pass(config, scopes) {
                Some(device_of(url, ip, mac))
            } else {
                None
            },
            _ => None,
        },
    }
}

/// `answers` is what `query` gave for the candidate at `url`: its addresses,
/// and its scopes exactly where the addresses called for that question.
pub open spec fn gave<Q: OnvifQuery>(
    query: &Q,
    config: OnvifDiscoveryDetailsView,
    url: Seq<char>,
    answers: Answers,
) -> bool {
    &&& query.reports_ip_and_mac(url, answers.addresses)
    &&& answers.scopes is Some <==> asks_scopes(config, answers.addresses)
    &&& answers.scopes matches Some(scopes) ==> query.reports_scopes(url, scopes)
}

/// The devices that the candidates yield, in the order of the candidates.
pub open spec fn emitted(
    config: OnvifDiscoveryDetailsView,
    urls: Seq<Seq<char>>,
    answers: Seq<Answers>,
) -> Seq<DeviceView>
    decreases urls.len(),
{
    if urls.len() == 0 || answers.len() != urls.len() {
        Seq::empty()
    } else {
        let before = emitted(config, urls.drop_last(), answers.drop_last());
        match outcome(config, urls.last(), answers.last()) {
            Some(device) => before.push(device),
            None => before,
        }
    }
}

/// `devices` is what the candidates `urls` yield under `config`, given what
/// `query` answered for each.
pub open spec fn filtered<Q: OnvifQuery>(
    query: &Q,
    config: OnvifDiscoveryDetailsView,
    urls: Seq<Seq<char>>,
    devices: Seq<DeviceView>,
) -> bool {
    exists|answers: Seq<Answers>|
        {
            &&& answers.len() == urls.len()
            &&& forall|i: int|
                0 <= i < urls.len() ==> gave(query, config, urls[i], #[trigger] answers[i])
            &&& devices == emitted(config, urls, answers)
        }
}

/// One more candidate adds its device, if it yields one.
pub proof fn lemma_emitted_step(
    config: OnvifDiscoveryDetailsView,
    urls: Seq<Seq<char>>,
    answers: Seq<Answers>,
    url: Seq<char>,
    answer: Answers,
)
    requires
        answers.len() == urls.len(),
    ensures
        emitted(config, urls.push(url), answers.push(answer)) == (match outcome(
            config,
            url,
            answer,
        ) {
            Some(device) => emitted(config, urls, answers).push(device),
            None => emitted(config, urls, answers),
        }),
{
    assert(urls.push(url).drop_last() == urls);
    assert(answers.push(answer).drop_last() == answers);
}

/// No more devices come out than candidates go in.
pub proof fn lemma_emitted_len(
    config: OnvifDiscoveryDetailsView,
    urls: Seq<Seq<char>>,
    answers: Seq<Answers>,
)
    ensures
        emitted(config, urls, answers).len() <= urls.len(),
    decreases urls.len(),
{
    if urls.len() > 0 && answers.len() == urls.len() {
        lemma_emitted_len(config, urls.drop_last(), answers.drop_last());
    }
}

/// Each device that comes out was yielded by a candidate, and the devices
/// come in the order of their candidates.
pub proof fn lemma_emitted_in_order(
    config: OnvifDiscoveryDetailsView,
    urls: Seq<Seq<char>>,
    answers: Seq<Answers>,
) -> (picks: Seq<int>)
    requires
        answers.len() == urls.len(),
    ensures
        picks.len() == emitted(config, urls, answers).len(),
        forall|k: int| 0 <= k < picks.len() ==> 0 <= #[trigger] picks[k] < urls.len(),
        forall|a: int, b: int|
            0 <= a < b < picks.len() ==> #[trigger] picks[a] < #[trigger] picks[b],
        forall|k: int|
            0 <= k < picks.len() ==> outcome(
                config,
                urls[#[trigger] picks[k]],
                answers[picks[k]],
            ) == Some(emitted(config, urls, answers)[k]),
    decreases urls.len(),
{
    if urls.len() == 0 {
        Seq::empty()
    } else {
        let before = lemma_emitted_in_order(config, urls.drop_last(), answers.drop_last());
        match outcome(config, urls.last(), answers.last()) {
            Some(device) => before.push(urls.len() - 1),
            None => before,
        }
    }
}

/// Where a filter lets nothing through, no candidate yields a device,
/// whatever it answers.
pub proof fn lemma_nothing_admitted(
    config: OnvifDiscoveryDetailsView,
    urls: Seq<Seq<char>>,
    answers: Seq<Answers>,
)
    requires
        admits_nothing(config.ip_addresses) || admits_nothing(config.mac_addresses)
            || admits_nothing(config.scopes),
    ensures
        emitted(config, urls, answers).len() == 0,
    decreases urls.len(),
{
    if urls.len() > 0 && answers.len() == urls.len() {
        lemma_nothing_admitted(config, urls.drop_last(), answers.drop_last());
    }
}

/// Without any filter, every candidate that answers both questions yields
/// its device.
pub proof fn lemma_unfiltered_candidate_passes(
    config: OnvifDiscoveryDetailsView,
    url: Seq<char>,
    ip: Seq<char>,
    mac: Seq<char>,
    scopes: Seq<Seq<char>>,
)
    requires
        config.ip_addresses is None,
        config.mac_addresses is None,
        config.scopes is None,
    ensures
        outcome(config, url, Answers { addresses: Ok((ip, mac)), scopes: Some(Ok(scopes)) })
            == Some(device_of(url, ip, mac)),
{
}

/// A candidate whose IP address contains an item of an Exclude list yields
/// no device, and is not asked for its scopes.
pub proof fn lemma_excluded_address_is_skipped(
    config: OnvifDiscoveryDetailsView,
    url: Seq<char>,
    answers: Answers,
    i: int,
)
    requires
        config.ip_addresses is Some,
        config.ip_addresses->Some_0.action == FilterType::Exclude,
        0 <= i < config.ip_addresses->Some_0.items.len(),
        answers.addresses is Ok,
        is_substring(config.ip_addresses->Some_0.items[i], answers.addresses->Ok_0.0),
    ensures
        outcome(config, url, answers) is None,
        !asks_scopes(config, answers.addresses),
{
    let list = config.ip_addresses->Some_0;
    let ip = answers.addresses->Ok_0.0;
    assert(seq![ip][0] == ip);
    assert(occurs_in_any(list.items[i], seq![ip]));
}

/// A filter list that lets no candidate through: Include with no items.
pub open spec fn admits_nothing(list: Option<FilterListView>) -> bool {
    list matches Some(l) && l.action == FilterType::Include && l.items.len() == 0
}

/// Whether the IP and MAC filters both let the candidate through.
pub fn passes_address_filters(config: &OnvifDiscoveryDetails, ip: &String, mac: &String) -> (pass:
    bool)
    ensures
        pass == addresses_pass(config@, ip@, mac@),
{
    let ip_address_as_vec = vec![ip.clone()];
    assert(ip_address_as_vec.deep_view() =~= seq![ip@]);
    if execute_filter(config.ip_addresses.as_ref(), ip_address_as_vec.as_slice()) {
        return false;
    }
    let mac_address_as_vec = vec![mac.clone()];
    assert(mac_address_as_vec.deep_view() =~= seq![mac@]);
    !execute_filter(config.mac_addresses.as_ref(), mac_address_as_vec.as_slice())
}

/// Whether the scopes filter lets a candidate with these scopes through.
pub fn passes_scope_filter(config: &OnvifDiscoveryDetails, scopes: &Vec<String>) -> (pass: bool)
    ensures
        pass == scopes_pass(config@, scopes.deep_view()),
{
    !execute_filter(config.scopes.as_ref(), scopes.as_slice())
}

/// The device reported for the candidate at `url` with these addresses.
pub fn new_device(url: &str, ip: String, mac: String) -> (device: Device)
    ensures
        device@ == device_of(url@, ip@, mac@),
{
    let mut id = ip.clone();
    id.append("-");
    id.append(mac.as_str());
    let mut properties = Properties::new();
    properties.insert(
        String::from_str(ONVIF_DEVICE_SERVICE_URL_LABEL_ID),
        String::from_str(url),
    );
    properties.insert(String::from_str(ONVIF_DEVICE_IP_ADDRESS_LABEL_ID), ip);
    properties.insert(String::from_str(ONVIF_DEVICE_MAC_ADDRESS_LABEL_ID), mac);
    let device = Device { id, properties, mounts: Vec::new(), device_specs: Vec::new() };
    assert(device@.mounts =~= Seq::empty());
    assert(device@.device_specs =~= Seq::empty());
    device
}

/// Interrogates each candidate and reports those that pass every filter, in
/// the order of the candidates. A candidate that fails to answer is left out;
/// one that the IP or MAC filter turns away is not asked for its scopes.
pub fn apply_filters<Q: OnvifQuery>(
    discovery_handler_config: &OnvifDiscoveryDetails,
    device_service_uris: Vec<String>,
    onvif_query: &Q,
) -> (result: Result<Vec<Device>, QueryError>)
    ensures
        result matches Ok(devices) && filtered(
            onvif_query,
            discovery_handler_config@,
            device_service_uris.deep_view(),
            device_views(devices@),
        ) && devices@.len() <= device_service_uris@.len() && (admits_nothing(
            discovery_handler_config@.ip_addresses,
        ) || admits_nothing(discovery_handler_config@.mac_addresses) || admits_nothing(
            discovery_handler_config@.scopes,
        ) ==> devices@.len() == 0),
{
    let ghost config = discovery_handler_config@;
    let ghost urls = device_service_uris.deep_view();
    let mut result: Vec<Device> = Vec::new();
    let ghost mut answers: Seq<Answers> = Seq::empty();
    let mut i: usize = 0;
    assert(urls.take(0) =~= Seq::empty());
    assert(device_views(result@) =~= Seq::empty());
    while i < device_service_uris.len()
        invariant
            i <= device_service_uris@.len(),
            config == discovery_handler_config@,
            urls == device_service_uris.deep_view(),
            answers.len() == i,
            forall|k: int| 0 <= k < i ==> gave(onvif_query, config, urls[k], #[trigger] answers[k]),
            device_views(result@) == emitted(config, urls.take(i as int), answers),
        decreases device_service_uris@.len() - i,
    {
        let device_service_url = &device_service_uris[i];
        let ghost url = urls[i as int];
        let ghost before = answers;
        assert(url == device_service_url@);
        assert(urls.take(i + 1) == urls.take(i as int).push(url));
        let addresses = onvif_query.get_device_ip_and_mac_address(device_service_url.as_str());
        let ghost unasked = Answers { addresses: pair_view(addresses), scopes: None };
        i = i + 1;
        let (ip_address, mac_address) = match addresses {
            Ok(ip_and_mac) => ip_and_mac,
            Err(_) => {
                proof {
                    answers = before.push(unasked);
                    lemma_emitted_step(config, urls.take(i - 1), before, url, unasked);
                }
                continue ;
            },
        };
        if !passes_address_filters(discovery_handler_config, &ip_address, &mac_address) {
            proof {
                answers = before.push(unasked);
                lemma_emitted_step(config, urls.take(i - 1), before, url, unasked);
            }
            continue ;
        }
        let scopes = onvif_query.get_device_scopes(device_service_url.as_str());
        let ghost asked = Answers { addresses: unasked.addresses, scopes: Some(texts_view(scopes)) };
        proof {
            answers = before.push(asked);
            lemma_emitted_step(config, urls.take(i - 1), before, url, asked);
        }
        let device_scopes = match scopes {
            Ok(scopes) => scopes,
            Err(_) => {
                continue ;
            },
        };
        if !passes_scope_filter(discovery_handler_config, &device_scopes) {
            continue ;
        }
        let ghost listed = device_views(result@);
        let device = new_device(device_service_url.as_str(), ip_address, mac_address);
        result.push(device);
        assert(device_views(result@) =~= listed.push(device@));
    }
    proof {
        assert(urls.take(i as int) == urls);
        lemma_emitted_len(config, urls, answers);
        if admits_nothing(config.ip_addresses) || admits_nothing(config.mac_addresses)
            || admits_nothing(config.scopes) {
            lemma_nothing_admitted(config, urls, answers);
        }
    }
    Ok(result)
}

/// An Include list without items turns every candidate away.
pub proof fn lemma_empty_include_rejects(list: Option<FilterListView>, values: Seq<Seq<char>>)
    ensures
        admits_nothing(list) ==> rejects(list, values),
{
}

/// Without a list, every candidate passes.
pub proof fn lemma_absent_list_passes(values: Seq<Seq<char>>)
    ensures
        !rejects(None, values),
{
}

/// An Exclude list turns a candidate away as soon as one of its items occurs
/// in one of the candidate's values.
pub proof fn lemma_exclude_rejects_on_match(
    list: FilterListView,
    values: Seq<Seq<char>>,
    i: int,
    j: int,
)
    requires
        list.action == FilterType::Exclude,
        0 <= i < list.items.len(),
        0 <= j < values.len(),
        is_substring(list.items[i], values[j]),
    ensures
        rejects(Some(list), values),
{
    assert(occurs_in_any(list.items[i], values));
}

/// An Exclude list lets a candidate through when none of its items occurs in
/// any of the candidate's values.
pub proof fn lemma_exclude_passes_without_match(list: FilterListView, values: Seq<Seq<char>>)
    requires
        list.action == FilterType::Exclude,
        forall|i: int, j: int|
            0 <= i < list.items.len() && 0 <= j < values.len() ==> !is_substring(
                #[trigger] list.items[i],
                #[trigger] values[j],
            ),
    ensures
        !rejects(Some(list), values),
{
}

} // verus!
