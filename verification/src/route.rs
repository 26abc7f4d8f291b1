//! The host router: given a parsed request and the ordered
//! configuration group bound to the accepting port, pick the one
//! virtual host that must answer, or signal that none can.

use vstd::prelude::*;

use crate::bytes_util::{bytes_eq, ends_with};
use crate::config::{ConfigView, ServerConfig};
use crate::dec::{dec_digits, u64_to_dec};
use crate::request::{lookup, Request};

verus! {

/// The host name with a trailing `:<port>` removed, when the port
/// matches the group's listening port; otherwise unchanged.
pub open spec fn strip_port(host: Seq<u8>, listen: int) -> Seq<u8>
    recommends
        listen >= 0,
{
    let suffix = seq![58u8] + dec_digits(listen as nat);
    if host.len() >= suffix.len() && host.skip(host.len() - suffix.len()) == suffix {
        host.take(host.len() - suffix.len())
    } else {
        host
    }
}

/// True when `c` names `host` among its aliases.
pub open spec fn config_matches(c: ConfigView, host: Seq<u8>) -> bool {
    match c.hosts {
        Some(aliases) => exists|i: int| 0 <= i < aliases.len() && aliases[i] == host,
        None => false,
    }
}

/// True when `c` is a default (catch-all) host.
pub open spec fn config_is_default(c: ConfigView) -> bool {
    c.hosts is None
}

/// The least index of a configuration whose aliases name `host`, or
/// `-1`.
pub open spec fn first_alias_match(configs: Seq<ConfigView>, host: Seq<u8>) -> int
    decreases configs.len(),
{
    if configs.len() == 0 {
        -1
    } else if config_matches(configs[0], host) {
        0
    } else {
        let r = first_alias_match(configs.skip(1), host);
        if r < 0 {
            -1
        } else {
            r + 1
        }
    }
}

/// The least index of a default configuration, or `-1`.
pub open spec fn first_default(configs: Seq<ConfigView>) -> int
    decreases configs.len(),
{
    if configs.len() == 0 {
        -1
    } else if config_is_default(configs[0]) {
        0
    } else {
        let r = first_default(configs.skip(1));
        if r < 0 {
            -1
        } else {
            r + 1
        }
    }
}

pub proof fn lemma_first_alias_match(configs: Seq<ConfigView>, host: Seq<u8>)
    ensures
        ({
            let r = first_alias_match(configs, host);
            &&& r >= 0 ==> 0 <= r < configs.len() && config_matches(configs[r], host) && (
            forall|j: int| 0 <= j < r ==> !config_matches(configs[j], host))
            &&& r < 0 ==> forall|j: int| 0 <= j < configs.len() ==> !config_matches(
                configs[j],
                host,
            )
        }),
    decreases configs.len(),
{
    if configs.len() == 0 {
    } else if config_matches(configs[0], host) {
    } else {
        lemma_first_alias_match(configs.skip(1), host);
        let t = configs.skip(1);
        let r = first_alias_match(t, host);
        if r >= 0 {
            assert(t[r] == configs[r + 1]);
            assert forall|j: int| 0 <= j < r + 1 implies !config_matches(configs[j], host) by {
                if j > 0 {
                    assert(t[j - 1] == configs[j]);
                }
            }
        } else {
            assert forall|j: int| 0 <= j < configs.len() implies !config_matches(
                configs[j],
                host,
            ) by {
                if j > 0 {
                    assert(t[j - 1] == configs[j]);
                }
            }
        }
    }
}

pub proof fn lemma_first_default(configs: Seq<ConfigView>)
    ensures
        ({
            let r = first_default(configs);
            &&& r >= 0 ==> 0 <= r < configs.len() && config_is_default(configs[r]) && (forall|
                j: int,
            | 0 <= j < r ==> !config_is_default(configs[j]))
            &&& r < 0 ==> forall|j: int| 0 <= j < configs.len() ==> !config_is_default(configs[j])
        }),
    decreases configs.len(),
{
    if configs.len() == 0 {
    } else if config_is_default(configs[0]) {
    } else {
        lemma_first_default(configs.skip(1));
        let t = configs.skip(1);
        let r = first_default(t);
        if r >= 0 {
            assert(t[r] == configs[r + 1]);
            assert forall|j: int| 0 <= j < r + 1 implies !config_is_default(configs[j]) by {
                if j > 0 {
                    assert(t[j - 1] == configs[j]);
                }
            }
        } else {
            assert forall|j: int| 0 <= j < configs.len() implies !config_is_default(
                configs[j],
            ) by {
                if j > 0 {
                    assert(t[j - 1] == configs[j]);
                }
            }
        }
    }
}

/// How routing ended: the chosen configuration (and whether a `host`
/// header was present at all), no alias and no default for a named
/// host, or no `host` header and no default to fall back on.
pub enum RouteOutcome {
    Found { index: usize, host_present: bool },
    NoMatch,
    NoHost,
}

/// What routing must yield for a request carrying `host` (after port
/// stripping): the first alias match wins, then the first default.
pub open spec fn route_spec(configs: Seq<ConfigView>, host: Option<Seq<u8>>, listen: int) -> RouteOutcome {
    match host {
        Some(h) => {
            let stripped = strip_port(h, listen);
            let a = first_alias_match(configs, stripped);
            if a >= 0 {
                RouteOutcome::Found { index: a as usize, host_present: true }
            } else {
                let d = first_default(configs);
                if d >= 0 {
                    RouteOutcome::Found { index: d as usize, host_present: true }
                } else {
                    RouteOutcome::NoMatch
                }
            }
        },
        None => {
            let d = first_default(configs);
            if d >= 0 {
                RouteOutcome::Found { index: d as usize, host_present: false }
            } else {
                RouteOutcome::NoHost
            }
        },
    }
}

/// Strips a trailing `:<listen>` from a host header value.
pub fn strip_host_port(host: &Vec<u8>, listen: i64) -> (r: Vec<u8>)
    requires
        0 <= listen,
    ensures
        r@ == strip_port(host@, listen as int),
{
    let mut suffix: Vec<u8> = vec![58];
    let digits = u64_to_dec(listen as u64);
    crate::bytes_util::push_bytes(&mut suffix, digits.as_slice());
    proof {
        assert(suffix@ =~= seq![58u8] + dec_digits(listen as nat));
    }
    if ends_with(host.as_slice(), suffix.as_slice()) {
        let r = vstd::slice::slice_to_vec(
            vstd::slice::slice_subrange(host.as_slice(), 0, host.len() - suffix.len()),
        );
        proof {
            assert(r@ =~= host@.take(host@.len() - suffix@.len()));
        }
        r
    } else {
        host.clone()
    }
}

/// Routes a request to the one configuration of its group that must
/// answer it, scanning aliases first and falling back on the group's
/// default host, exactly as `route_spec` says.
#[verifier::loop_isolation(false)]
pub fn route(req: &Request, configs: &Vec<ServerConfig>) -> (r: RouteOutcome)
    requires
        configs@.len() >= 1,
        0 <= configs@[0]@.listen,
    ensures
        r == route_spec(
            configs.deep_view(),
            lookup(req@.headers, seq![104u8, 111u8, 115u8, 116u8]),
            configs@[0]@.listen,
        ),
        r matches RouteOutcome::Found { index, .. } ==> index < configs@.len(),
{
    let ghost cvs = configs.deep_view();
    proof {
        assert(cvs.len() == configs@.len());
    }
    // "host"
    let host_key: Vec<u8> = vec![104, 111, 115, 116];
    let listen = configs[0].listen;
    match req.header(host_key.as_slice()) {
        Some(h) => {
            let stripped = strip_host_port(h, listen);
            let ghost target = strip_port(h@, listen as int);
            proof {
                lemma_first_alias_match(cvs, target);
            }
            let ghost a = first_alias_match(cvs, target);
            let mut i: usize = 0;
            while i < configs.len()
                invariant
                    i <= configs@.len(),
                    cvs == configs.deep_view(),
                    cvs.len() == configs@.len(),
                    stripped@ == target,
                    forall|j: int| 0 <= j < i ==> !config_matches(cvs[j], target),
                decreases configs@.len() - i,
            {
                proof {
                    assert(cvs[i as int] == configs@[i as int].deep_view());
                }
                match &configs[i].hosts {
                    Some(aliases) => {
                        let mut k: usize = 0;
                        while k < aliases.len()
                            invariant
                                k <= aliases@.len(),
                                forall|m: int| 0 <= m < k ==> aliases@[m]@ != stripped@,
                            decreases aliases@.len() - k,
                        {
                            if bytes_eq(aliases[k].as_slice(), stripped.as_slice()) {
                                proof {
                                    let ghost av = configs@[i as int].hosts.deep_view();
                                    assert(configs@[i as int].hosts is Some);
                                    assert(av is Some);
                                    assert(av.unwrap()[k as int] == aliases@[k as int].deep_view());
                                    assert(aliases@[k as int].deep_view() =~= aliases@[k as int]@);
                                    assert(config_matches(cvs[i as int], target));
                                    lemma_first_alias_match(cvs, target);
                                    let r = first_alias_match(cvs, target);
                                    if r < 0 {
                                        assert(false);
                                    } else if r < i as int {
                                        assert(config_matches(cvs[r], target));
                                        assert(false);
                                    } else if r > i as int {
                                        assert(false);
                                    }
                                }
                                return RouteOutcome::Found { index: i, host_present: true };
                            }
                            k += 1;
                        }
                        proof {
                            let ghost av = configs@[i as int].hosts.deep_view();
                            assert(av is Some);
                            assert forall|m: int|
                                0 <= m < av.unwrap().len() implies av.unwrap()[m] != target by {
                                assert(av.unwrap()[m] == aliases@[m].deep_view());
                                assert(aliases@[m].deep_view() =~= aliases@[m]@);
                            }
                            assert(!config_matches(cvs[i as int], target));
                        }
                    },
                    None => {
                        proof {
                            assert(!config_matches(cvs[i as int], target));
                        }
                    },
                }
                i += 1;
            }
            proof {
                if a >= 0 {
                    assert(config_matches(cvs[a], target));
                    assert(false);
                }
            }
            // no alias matched: fall back on the default host
            match find_default(configs) {
                Some(d) => RouteOutcome::Found { index: d, host_present: true },
                None => RouteOutcome::NoMatch,
            }
        },
        None => {
            match find_default(configs) {
                Some(d) => RouteOutcome::Found { index: d, host_present: false },
                None => RouteOutcome::NoHost,
            }
        },
    }
}

/// The first configuration with no alias set, scanned in declaration
/// order.
fn find_default(configs: &Vec<ServerConfig>) -> (r: Option<usize>)
    ensures
        ({
            let d = first_default(configs.deep_view());
            match r {
                Some(i) => d == i as int && i < configs@.len(),
                None => d < 0,
            }
        }),
{
    let ghost cvs = configs.deep_view();
    proof {
        assert(cvs.len() == configs@.len());
        lemma_first_default(cvs);
    }
    let mut i: usize = 0;
    while i < configs.len()
        invariant
            i <= configs@.len(),
            cvs == configs.deep_view(),
            cvs.len() == configs@.len(),
            forall|j: int| 0 <= j < i ==> !config_is_default(cvs[j]),
        decreases configs@.len() - i,
    {
        proof {
            assert(cvs[i as int] == configs@[i as int].deep_view());
        }
        let is_default = match &configs[i].hosts {
            None => true,
            Some(_) => false,
        };
        if is_default {
            proof {
                lemma_first_default(cvs);
                let d = first_default(cvs);
                if d < 0 {
                    assert(config_is_default(cvs[i as int]));
                    assert(false);
                } else if d < i as int {
                    assert(config_is_default(cvs[d]));
                    assert(false);
                } else if d > i as int {
                    assert(config_is_default(cvs[i as int]));
                    assert(false);
                }
            }
            return Some(i);
        }
        i += 1;
    }
    proof {
        lemma_first_default(cvs);
        let d = first_default(cvs);
        if d >= 0 {
            assert(config_is_default(cvs[d]));
            assert(false);
        }
    }
    None
}

} // verus!
