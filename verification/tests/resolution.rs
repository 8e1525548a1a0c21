//! End-to-end resolution scenarios: a small in-memory registry stands in
//! for the container engine, and a driver mirrors the adapter loop around
//! the library's decision functions.

use nss_docker_ng::classify::classify;
use nss_docker_ng::get_docker_uri;
use nss_docker_ng::locate::locate_after_direct;
use nss_docker_ng::locate::locate_after_parent;
use nss_docker_ng::locate::LocateStep;
use nss_docker_ng::model::AddressFamily;
use nss_docker_ng::model::ContainerRecord;
use nss_docker_ng::model::HostResponse;
use nss_docker_ng::model::Ipv4Address;
use nss_docker_ng::model::NetworkAttachment;
use nss_docker_ng::model::ResolveError;
use nss_docker_ng::model::ResolvedHost;
use nss_docker_ng::resolve::resolve_record;
use nss_docker_ng::resolve::to_response;
use nss_docker_ng::subdomains_allowed_label;
use nss_docker_ng::suffix;

fn s(x: &str) -> String {
    x.to_string()
}

fn record(
    id: Option<&str>,
    name: Option<&str>,
    mode: Option<&str>,
    labels: &[(&str, &str)],
    networks: Option<&[(&str, Option<&str>)]>,
) -> ContainerRecord {
    ContainerRecord {
        id: id.map(s),
        name: name.map(s),
        network_mode: mode.map(s),
        labels: labels.iter().map(|(k, v)| (s(k), s(v))).collect(),
        networks: networks.map(|ns| {
            ns.iter()
                .map(|(k, ip)| (s(k), NetworkAttachment { ip_address: ip.map(s) }))
                .collect()
        }),
    }
}

fn ip(a: u8, b: u8, c: u8, d: u8) -> Ipv4Address {
    Ipv4Address { a, b, c, d }
}

/// The mock registry used by `test_get_host_by_name`, one entry per
/// scenario the resolver distinguishes.
fn registry(token: &str) -> Option<ContainerRecord> {
    let allow = subdomains_allowed_label();
    match token {
        "sunny-default-bridge" => Some(record(
            Some("c0ffeec0ffee"),
            Some("/sunny-default-bridge"),
            Some("default"),
            &[],
            Some(&[("bridge", Some("172.29.0.2"))]),
        )),
        "sunny-default-bridge-container-subdomains-allowed" => Some(record(
            Some("c0ffeec0ffee"),
            Some("/sunny-default-bridge-container-subdomains-allowed"),
            Some("default"),
            &[(allow, "true")],
            Some(&[("bridge", Some("172.29.0.2"))]),
        )),
        "rainy-no-name" => Some(record(
            Some("c0ffeec0ffee"),
            None,
            Some("bridge"),
            &[],
            Some(&[("bridge", Some("172.29.0.2"))]),
        )),
        "rainy-no-network-mode" => Some(record(
            Some("c0ffeec0ffee"),
            Some("/rainy-no-network-mode"),
            None,
            &[],
            Some(&[("bridge", Some("172.29.0.2"))]),
        )),
        "rainy-network-mode-none" => Some(record(
            Some("c0ffeec0ffee"),
            Some("/rainy-network-mode-none"),
            Some("none"),
            &[],
            Some(&[("bridge", Some("172.29.0.2"))]),
        )),
        "rainy-network-mode-host" => Some(record(
            Some("c0ffeec0ffee"),
            Some("/rainy-network-mode-host"),
            Some("host"),
            &[],
            Some(&[("bridge", Some("172.29.0.2"))]),
        )),
        "rainy-network-mode-container" => Some(record(
            Some("c0ffeec0ffee"),
            Some("/rainy-network-mode-container"),
            Some("container:xyz"),
            &[],
            Some(&[("bridge", Some("172.29.0.2"))]),
        )),
        "rainy-zero-networks" => Some(record(
            Some("c0ffeec0ffee"),
            Some("/rainy-zero-networks"),
            Some("bridge"),
            &[],
            Some(&[]),
        )),
        "rainy-no-networks" => Some(record(
            Some("c0ffeec0ffee"),
            Some("/rainy-no-networks"),
            Some("bridge"),
            &[],
            None,
        )),
        "rainy-network-not-exists" => Some(record(
            Some("c0ffeec0ffee"),
            Some("/rainy-network-not-exists"),
            Some("does-not-exist"),
            &[],
            Some(&[("bridge", Some("172.29.0.2"))]),
        )),
        "rainy-ip-address-empty" => Some(record(
            Some("c0ffeec0ffee"),
            Some("/rainy-ip-address-empty"),
            Some("bridge"),
            &[],
            Some(&[("bridge", Some(""))]),
        )),
        "rainy-no-ip-address" => Some(record(
            Some("c0ffeec0ffee"),
            Some("/rainy-no-ip-address"),
            Some("bridge"),
            &[],
            Some(&[("bridge", None)]),
        )),
        "rainy-unparseable-ip-address" => Some(record(
            Some("c0ffeec0ffee"),
            Some("/rainy-unparseable-ip-address"),
            Some("bridge"),
            &[],
            Some(&[("bridge", Some("172.29.0.666"))]),
        )),
        "rainy-no-id" => Some(record(
            None,
            Some("/rainy-no-id"),
            Some("bridge"),
            &[],
            Some(&[("bridge", Some("172.29.0.2"))]),
        )),
        _ => None,
    }
}

/// Mirrors the adapter loop: classify, look up, delegate at most once,
/// resolve, and map to the host vocabulary.
fn get_host_by_name<F>(lookup: F, query: &str, family: AddressFamily) -> HostResponse
where
    F: Fn(&str) -> Option<ContainerRecord>,
{
    let token = match classify(query, family) {
        Some(t) => t,
        None => return HostResponse::NotFound,
    };
    let rec = match locate_after_direct(&token, lookup(&token)) {
        LocateStep::Done(Some(rec)) => rec,
        LocateStep::Done(None) => return HostResponse::NotFound,
        LocateStep::TryParent(parent) => match locate_after_parent(lookup(&parent)) {
            Some(rec) => rec,
            None => return HostResponse::NotFound,
        },
    };
    to_response(resolve_record(rec, &token))
}

fn success(name: &str, aliases: &[&str], addr: Ipv4Address) -> HostResponse {
    HostResponse::Success(ResolvedHost {
        name: s(name),
        addresses: vec![addr],
        aliases: aliases.iter().map(|a| s(a)).collect(),
    })
}

#[test]
fn test_get_host_by_name() {
    let r = |q: &str, f: AddressFamily| get_host_by_name(registry, q, f);

    assert_eq!(r(".foo", AddressFamily::IPv4), HostResponse::NotFound);
    assert_eq!(r("foo.docker", AddressFamily::IPv6), HostResponse::NotFound);
    assert_eq!(r(".docker", AddressFamily::IPv4), HostResponse::NotFound);

    assert_eq!(
        r("sunny-default-bridge.docker", AddressFamily::IPv4),
        success(
            "sunny-default-bridge.docker",
            &["c0ffeec0ffee.docker"],
            ip(172, 29, 0, 2)
        )
    );

    assert_eq!(
        r(
            "sunny-default-bridge-container-subdomains-allowed.docker",
            AddressFamily::IPv4
        ),
        success(
            "sunny-default-bridge-container-subdomains-allowed.docker",
            &["c0ffeec0ffee.docker"],
            ip(172, 29, 0, 2)
        )
    );

    assert_eq!(
        r(
            "mega.very.sunny-default-bridge-container-subdomains-allowed.docker",
            AddressFamily::IPv4
        ),
        success(
            "sunny-default-bridge-container-subdomains-allowed.docker",
            &[
                "c0ffeec0ffee.docker",
                "mega.very.sunny-default-bridge-container-subdomains-allowed.docker"
            ],
            ip(172, 29, 0, 2)
        )
    );

    assert_eq!(r("rainy-404.docker", AddressFamily::IPv4), HostResponse::NotFound);
    assert_eq!(r("rainy-no-name.docker", AddressFamily::IPv4), HostResponse::Unavail);
    assert_eq!(
        r("rainy-no-network-mode.docker", AddressFamily::IPv4),
        HostResponse::Unavail
    );
    assert_eq!(
        r("rainy-network-mode-none.docker", AddressFamily::IPv4),
        HostResponse::NotFound
    );
    assert_eq!(
        r("rainy-network-mode-host.docker", AddressFamily::IPv4),
        HostResponse::NotFound
    );
    assert_eq!(
        r("rainy-network-mode-container.docker", AddressFamily::IPv4),
        HostResponse::NotFound
    );
    assert_eq!(
        r("rainy-zero-networks.docker", AddressFamily::IPv4),
        HostResponse::Unavail
    );
    assert_eq!(
        r("rainy-no-networks.docker", AddressFamily::IPv4),
        HostResponse::Unavail
    );
    assert_eq!(
        r("rainy-network-not-exists.docker", AddressFamily::IPv4),
        HostResponse::Unavail
    );
    assert_eq!(
        r("rainy-ip-address-empty.docker", AddressFamily::IPv4),
        HostResponse::Unavail
    );
    assert_eq!(
        r("rainy-no-ip-address.docker", AddressFamily::IPv4),
        HostResponse::Unavail
    );
    assert_eq!(
        r("rainy-unparseable-ip-address.docker", AddressFamily::IPv4),
        HostResponse::Unavail
    );
    assert_eq!(r("rainy-no-id.docker", AddressFamily::IPv4), HostResponse::Unavail);
}

#[test]
fn out_of_scope_queries_never_reach_the_registry() {
    let untouchable = |t: &str| -> Option<ContainerRecord> {
        panic!("registry contacted for '{}'", t);
    };
    // wrong suffix
    assert_eq!(
        get_host_by_name(untouchable, "alpha.dockerx", AddressFamily::IPv4),
        HostResponse::NotFound
    );
    assert_eq!(
        get_host_by_name(untouchable, "alpha", AddressFamily::IPv4),
        HostResponse::NotFound
    );
    // suffix alone, and shorter than the suffix
    assert_eq!(
        get_host_by_name(untouchable, ".docker", AddressFamily::IPv4),
        HostResponse::NotFound
    );
    assert_eq!(
        get_host_by_name(untouchable, "ocker", AddressFamily::IPv4),
        HostResponse::NotFound
    );
    assert_eq!(
        get_host_by_name(untouchable, "", AddressFamily::IPv4),
        HostResponse::NotFound
    );
    // case matters: no normalization is performed
    assert_eq!(
        get_host_by_name(untouchable, "ALPHA.DOCKER", AddressFamily::IPv4),
        HostResponse::NotFound
    );
    // non-IPv4 families
    assert_eq!(
        get_host_by_name(untouchable, "alpha.docker", AddressFamily::IPv6),
        HostResponse::NotFound
    );
    assert_eq!(
        get_host_by_name(untouchable, "alpha.docker", AddressFamily::Unspecified),
        HostResponse::NotFound
    );
}

#[test]
fn direct_match_resolves_to_own_identity() {
    let reg = |t: &str| -> Option<ContainerRecord> {
        if t == "alpha" {
            Some(record(
                Some("0123456789abcdef"),
                Some("/alpha"),
                Some("bridge"),
                &[],
                Some(&[("bridge", Some("172.29.0.2"))]),
            ))
        } else {
            None
        }
    };
    assert_eq!(
        get_host_by_name(reg, "alpha.docker", AddressFamily::IPv4),
        success("alpha.docker", &["0123456789ab.docker"], ip(172, 29, 0, 2))
    );
}

#[test]
fn delegation_requires_opt_in() {
    let alpha = |label: Option<(&str, &str)>| {
        let label: Option<(String, String)> = label.map(|(k, v)| (s(k), s(v)));
        move |t: &str| -> Option<ContainerRecord> {
            if t == "alpha" {
                let labels: Vec<(&str, &str)> =
                    label.iter().map(|(k, v)| (k.as_str(), v.as_str())).collect();
                Some(record(
                    Some("0123456789abcdef"),
                    Some("/alpha"),
                    Some("bridge"),
                    &labels,
                    Some(&[("bridge", Some("172.29.0.2"))]),
                ))
            } else {
                None
            }
        }
    };
    let allow = subdomains_allowed_label();

    // no label at all: not found
    assert_eq!(
        get_host_by_name(alpha(None), "sub.alpha.docker", AddressFamily::IPv4),
        HostResponse::NotFound
    );
    // label present but not an accepted value
    for bad in ["false", "TRUE", "yes", "", "0", "1 "] {
        assert_eq!(
            get_host_by_name(alpha(Some((allow, bad))), "sub.alpha.docker", AddressFamily::IPv4),
            HostResponse::NotFound,
            "value {:?} must not enable delegation",
            bad
        );
    }
    // each accepted spelling enables delegation
    for good in ["true", "True", "1"] {
        assert_eq!(
            get_host_by_name(alpha(Some((allow, good))), "sub.alpha.docker", AddressFamily::IPv4),
            success(
                "alpha.docker",
                &["0123456789ab.docker", "sub.alpha.docker"],
                ip(172, 29, 0, 2)
            ),
            "value {:?} must enable delegation",
            good
        );
    }
}

#[test]
fn delegation_tries_only_the_final_label() {
    // Both "very.sub" and "sub" exist and opt in; only "sub" may be used.
    let allow = subdomains_allowed_label();
    let reg = |t: &str| -> Option<ContainerRecord> {
        match t {
            "very.sub" => Some(record(
                Some("aaaaaaaaaaaa"),
                Some("/very.sub"),
                Some("bridge"),
                &[(allow, "true")],
                Some(&[("bridge", Some("10.0.0.1"))]),
            )),
            "sub" => Some(record(
                Some("bbbbbbbbbbbb"),
                Some("/sub"),
                Some("bridge"),
                &[(allow, "true")],
                Some(&[("bridge", Some("10.0.0.2"))]),
            )),
            _ => None,
        }
    };
    assert_eq!(
        get_host_by_name(reg, "mega.very.sub.docker", AddressFamily::IPv4),
        success(
            "sub.docker",
            &["bbbbbbbbbbbb.docker", "mega.very.sub.docker"],
            ip(10, 0, 0, 2)
        )
    );
}

#[test]
fn modes_without_address_yield_not_found() {
    for mode in ["none", "host", "container:xyz", "container:"] {
        let rec = record(
            Some("c0ffeec0ffee"),
            Some("/quiet"),
            Some(mode),
            &[],
            Some(&[("bridge", Some("172.29.0.2"))]),
        );
        assert_eq!(
            resolve_record(rec, "quiet"),
            Ok(None),
            "mode {:?} must yield no address and no error",
            mode
        );
    }
}

#[test]
fn default_mode_substitutes_bridge() {
    // no "default" entry: the "bridge" entry is used
    let rec = record(
        Some("c0ffeec0ffee"),
        Some("/subst"),
        Some("default"),
        &[],
        Some(&[("bridge", Some("10.1.2.3"))]),
    );
    let got = resolve_record(rec, "subst").unwrap().unwrap();
    assert_eq!(got.addresses, vec![ip(10, 1, 2, 3)]);

    // a literal "default" entry wins over "bridge"
    let rec = record(
        Some("c0ffeec0ffee"),
        Some("/subst"),
        Some("default"),
        &[],
        Some(&[("default", Some("10.9.9.9")), ("bridge", Some("10.1.2.3"))]),
    );
    let got = resolve_record(rec, "subst").unwrap().unwrap();
    assert_eq!(got.addresses, vec![ip(10, 9, 9, 9)]);

    // neither entry: "network not found" for the substituted key
    let rec = record(
        Some("c0ffeec0ffee"),
        Some("/subst"),
        Some("default"),
        &[],
        Some(&[("other", Some("10.1.2.3"))]),
    );
    assert_eq!(
        resolve_record(rec, "subst"),
        Err(ResolveError::NetworkNotFound(s("bridge")))
    );
}

#[test]
fn address_failures_are_distinct_but_uniformly_unavailable() {
    let with_ip = |ipa: Option<&str>| {
        record(
            Some("c0ffeec0ffee"),
            Some("/addr"),
            Some("bridge"),
            &[],
            Some(&[("bridge", ipa)]),
        )
    };
    let missing = resolve_record(with_ip(None), "addr");
    let empty = resolve_record(with_ip(Some("")), "addr");
    let garbled = resolve_record(with_ip(Some("172.29.0.666")), "addr");
    assert_eq!(missing, Err(ResolveError::MissingIpAddress));
    assert_eq!(empty, Err(ResolveError::EmptyIpAddress));
    assert_eq!(
        garbled,
        Err(ResolveError::UnparseableIpAddress(s("172.29.0.666")))
    );
    for r in [missing, empty, garbled] {
        assert_eq!(to_response(r), HostResponse::Unavail);
    }
}

#[test]
fn empty_networks_distinct_from_missing_key() {
    let zero = record(
        Some("c0ffeec0ffee"),
        Some("/nets"),
        Some("bridge"),
        &[],
        Some(&[]),
    );
    let absent = record(Some("c0ffeec0ffee"), Some("/nets"), Some("bridge"), &[], None);
    let missing_key = record(
        Some("c0ffeec0ffee"),
        Some("/nets"),
        Some("elsewhere"),
        &[],
        Some(&[("bridge", Some("172.29.0.2"))]),
    );
    assert_eq!(resolve_record(zero, "nets"), Err(ResolveError::NetworksEmpty));
    assert_eq!(resolve_record(absent, "nets"), Err(ResolveError::NetworksAbsent));
    assert_eq!(
        resolve_record(missing_key, "nets"),
        Err(ResolveError::NetworkNotFound(s("elsewhere")))
    );
}

#[test]
fn identity_failures() {
    let no_id = record(
        None,
        Some("/ident"),
        Some("bridge"),
        &[],
        Some(&[("bridge", Some("172.29.0.2"))]),
    );
    assert_eq!(resolve_record(no_id, "ident"), Err(ResolveError::MissingId));

    let short_id = record(
        Some("c0ffee"),
        Some("/ident"),
        Some("bridge"),
        &[],
        Some(&[("bridge", Some("172.29.0.2"))]),
    );
    assert_eq!(resolve_record(short_id, "ident"), Err(ResolveError::IdTooShort));

    let no_name = record(
        Some("c0ffeec0ffee"),
        None,
        Some("bridge"),
        &[],
        Some(&[("bridge", Some("172.29.0.2"))]),
    );
    assert_eq!(resolve_record(no_name, "ident"), Err(ResolveError::MissingName));
}

#[test]
fn missing_network_mode_is_its_own_failure() {
    let rec = record(
        Some("c0ffeec0ffee"),
        Some("/modeless"),
        None,
        &[],
        Some(&[("bridge", Some("172.29.0.2"))]),
    );
    let res = resolve_record(rec, "modeless");
    assert_eq!(res, Err(ResolveError::MissingNetworkMode));
    assert_eq!(to_response(res), HostResponse::Unavail);
}

#[test]
fn direct_match_beats_delegation() {
    // "a.b" exists on its own; "b" exists and even opts in. The direct
    // record is authoritative, so no delegation may happen.
    let allow = subdomains_allowed_label();
    let reg = |t: &str| -> Option<ContainerRecord> {
        match t {
            "a.b" => Some(record(
                Some("cccccccccccc"),
                Some("/a.b"),
                Some("bridge"),
                &[],
                Some(&[("bridge", Some("10.0.0.3"))]),
            )),
            "b" => Some(record(
                Some("dddddddddddd"),
                Some("/b"),
                Some("bridge"),
                &[(allow, "true")],
                Some(&[("bridge", Some("10.0.0.4"))]),
            )),
            _ => None,
        }
    };
    assert_eq!(
        get_host_by_name(reg, "a.b.docker", AddressFamily::IPv4),
        success("a.b.docker", &["cccccccccccc.docker"], ip(10, 0, 0, 3))
    );
}

#[test]
fn token_ending_in_dot_yields_empty_parent_candidate() {
    // "alpha." is not a container; its final label is the empty string,
    // which the registry will not know either: not found, no error.
    let reg = |t: &str| -> Option<ContainerRecord> {
        assert!(t == "alpha." || t == "", "unexpected lookup of {:?}", t);
        None
    };
    assert_eq!(
        get_host_by_name(reg, "alpha..docker", AddressFamily::IPv4),
        HostResponse::NotFound
    );
}

#[test]
fn name_without_leading_slash_is_kept_as_is() {
    let rec = record(
        Some("c0ffeec0ffee"),
        Some("plain"),
        Some("bridge"),
        &[],
        Some(&[("bridge", Some("172.29.0.2"))]),
    );
    assert_eq!(
        to_response(resolve_record(rec, "plain")),
        success("plain.docker", &["c0ffeec0ffee.docker"], ip(172, 29, 0, 2))
    );
}

#[test]
fn constants_are_fixed() {
    assert_eq!(get_docker_uri(), "unix:///var/run/docker.sock");
    assert_eq!(suffix(), ".docker");
    assert_eq!(
        subdomains_allowed_label(),
        "com.github.petski.nss-docker-ng.container-subdomains-allowed"
    );
}
