use vstd::prelude::*;
use ipnetwork::IpNetworkError;
use crate::error::ConfigParseError;

verus! {

/// The greatest prefix length of an IPv4 network.
pub const MAX_PREFIX: u8 = 32;

/// An IPv4 network: an address, as a 32-bit number with the first octet
/// most significant, and a prefix length of at most 32. The address is kept
/// as given; bits beyond the prefix are not cleared.
#[derive(Debug, PartialEq, Eq, Clone, Copy, Hash, PartialOrd, Ord, Structural)]
pub struct Ipv4Network {
    addr: u32,
    prefix: u8,
}

/// What a network holds.
pub struct NetworkView {
    pub addr: u32,
    pub prefix: u8,
}

impl View for Ipv4Network {
    type V = NetworkView;

    closed spec fn view(&self) -> NetworkView {
        NetworkView { addr: self.addr, prefix: self.prefix }
    }
}

/// The error with which the outside parser rejects a text.
#[verifier::external_type_specification]
#[verifier::external_body]
pub struct ExIpNetworkError(ipnetwork::IpNetworkError);

/// The address and prefix length that a text in CIDR notation stands for,
/// where it stands for any.
pub uninterp spec fn cidr_of(text: Seq<char>) -> Option<(u32, u8)>;

/// Parses a text in CIDR notation. Rests on `ipnetwork::Ipv4Network`'s
/// `FromStr`, with `ip` and `prefix` to read the result: the outcome is a
/// function of the text alone.
#[verifier::external_body]
fn parse_cidr(text: &str) -> (r: Result<(u32, u8), IpNetworkError>)
    ensures
        match r {
            Ok(parts) => cidr_of(text@) == Some(parts),
            Err(_) => cidr_of(text@) is None,
        },
{
    match text.parse::<ipnetwork::Ipv4Network>() {
        Ok(network) => Ok((u32::from(network.ip()), network.prefix())),
        Err(e) => Err(e),
    }
}

/// The networks among `destinations` that are `network`, in order. An
/// entry that is no IPv4 destination is passed over.
pub open spec fn matching(destinations: Seq<Option<(u32, u8)>>, network: NetworkView) -> Seq<
    NetworkView,
>
    decreases destinations.len(),
{
    if destinations.len() == 0 {
        Seq::empty()
    } else {
        let rest = matching(destinations.drop_last(), network);
        if destinations.last() == Some((network.addr, network.prefix)) {
            rest.push(network)
        } else {
            rest
        }
    }
}

/// Whether an entry is a destination with a prefix length over 32.
pub open spec fn is_invalid(destination: Option<(u32, u8)>) -> bool {
    destination matches Some(d) && d.1 > 32
}

/// Whether some entry of `destinations` has a prefix length over 32.
pub open spec fn has_invalid_prefix(destinations: Seq<Option<(u32, u8)>>) -> bool {
    exists|i: int| 0 <= i < destinations.len() && is_invalid(#[trigger] destinations[i])
}

/// The network that parsed parts stand for: the parts of a text that was
/// no network stand for none, and a prefix length over 32 for none.
pub open spec fn network_of(parsed: Option<(u32, u8)>) -> Result<NetworkView, ConfigParseError> {
    match parsed {
        Some(p) => if p.1 <= 32 {
            Ok(NetworkView { addr: p.0, prefix: p.1 })
        } else {
            Err(ConfigParseError::InvalidPrefix)
        },
        None => Err(ConfigParseError::InvalidNetwork),
    }
}

/// The views of a sequence of networks, in order.
pub open spec fn network_views(networks: Seq<Ipv4Network>) -> Seq<NetworkView> {
    networks.map_values(|n: Ipv4Network| n@)
}

impl Ipv4Network {
    #[verifier::type_invariant]
    spec fn inv(self) -> bool {
        self.prefix <= 32
    }

    /// The network of this address and prefix length; an error where the
    /// prefix length is over 32.
    pub fn new(addr: u32, prefix: u8) -> (r: Result<Ipv4Network, ConfigParseError>)
        ensures
            match r {
                Ok(n) => network_of(Some((addr, prefix))) == Ok::<NetworkView, ConfigParseError>(
                    n@,
                ),
                Err(e) => network_of(Some((addr, prefix))) == Err::<NetworkView, ConfigParseError>(
                    e,
                ),
            },
    {
        if prefix > MAX_PREFIX {
            Err(ConfigParseError::InvalidPrefix)
        } else {
            Ok(Ipv4Network { addr, prefix })
        }
    }

    /// The network that the parts of a parsed text stand for.
    pub fn from_parsed(parsed: Option<(u32, u8)>) -> (r: Result<Ipv4Network, ConfigParseError>)
        ensures
            match r {
                Ok(n) => network_of(parsed) == Ok::<NetworkView, ConfigParseError>(n@),
                Err(e) => network_of(parsed) == Err::<NetworkView, ConfigParseError>(e),
            },
    {
        match parsed {
            Some((addr, prefix)) => Ipv4Network::new(addr, prefix),
            None => Err(ConfigParseError::InvalidNetwork),
        }
    }

    /// Reads a network in CIDR notation, such as `10.200.100.0/24`.
    pub fn from_str(s: &str) -> (r: Result<Ipv4Network, ConfigParseError>)
        ensures
            match r {
                Ok(n) => network_of(cidr_of(s@)) == Ok::<NetworkView, ConfigParseError>(n@),
                Err(e) => network_of(cidr_of(s@)) == Err::<NetworkView, ConfigParseError>(e),
            },
    {
        let parsed = match parse_cidr(s) {
            Ok(parts) => Some(parts),
            Err(_) => None,
        };
        Ipv4Network::from_parsed(parsed)
    }

    pub fn ip(&self) -> (r: u32)
        ensures
            r == self@.addr,
    {
        self.addr
    }

    pub fn prefix(&self) -> (r: u8)
        ensures
            r == self@.prefix,
            r <= 32,
    {
        proof {
            use_type_invariant(self);
        }
        self.prefix
    }

    /// Whether two networks have the same address and prefix length.
    pub fn same_as(&self, other: &Ipv4Network) -> (r: bool)
        ensures
            r == (self@ == other@),
    {
        self.addr == other.addr && self.prefix == other.prefix
    }
}

/// Picks out of the destinations of a routing table those that are
/// `network`. An entry without an IPv4 destination is passed over; one
/// with a prefix length over 32 fails the whole lookup.
pub fn select_routes(destinations: &[Option<(u32, u8)>], network: Ipv4Network) -> (r: Result<
    Vec<Ipv4Network>,
    ConfigParseError,
>)
    ensures
        r is Err <==> has_invalid_prefix(destinations@),
        r matches Err(e) ==> e == ConfigParseError::InvalidPrefix,
        r matches Ok(found) ==> network_views(found@) == matching(destinations@, network@),
{
    let mut results: Vec<Ipv4Network> = Vec::new();
    let mut i: usize = 0;
    assert(destinations@.take(0) =~= Seq::empty());
    while i < destinations.len()
        invariant
            i <= destinations@.len(),
            !has_invalid_prefix(destinations@.take(i as int)),
            network_views(results@) == matching(destinations@.take(i as int), network@),
        decreases destinations@.len() - i,
    {
        let ghost before = destinations@.take(i as int);
        let ghost now = destinations@.take(i + 1);
        assert(now.drop_last() =~= before);
        assert(now.last() == destinations@[i as int]);
        match destinations[i] {
            Some((addr, prefix)) => {
                let destination = match Ipv4Network::new(addr, prefix) {
                    Ok(d) => d,
                    Err(e) => {
                        assert(is_invalid(destinations@[i as int]));
                        return Err(e);
                    },
                };
                if destination.same_as(&network) {
                    results.push(destination);
                    assert(network_views(results@) =~= matching(before, network@).push(
                        network@,
                    ));
                }
            },
            None => {},
        }
        assert(!has_invalid_prefix(now)) by {
            if has_invalid_prefix(now) {
                let k = choose|k: int| 0 <= k < now.len() && is_invalid(#[trigger] now[k]);
                if k < i {
                    assert(before[k] == now[k]);
                }
            }
        }
        i += 1;
    }
    assert(destinations@.take(i as int) =~= destinations@);
    Ok(results)
}

/// Every network that a lookup finds is the network that was asked for.
pub proof fn lemma_matching_all_equal(destinations: Seq<Option<(u32, u8)>>, network: NetworkView)
    ensures
        matching(destinations, network).len() <= destinations.len(),
        forall|i: int|
            0 <= i < matching(destinations, network).len() ==> matching(destinations, network)[i]
                == network,
    decreases destinations.len(),
{
    if destinations.len() > 0 {
        lemma_matching_all_equal(destinations.drop_last(), network);
    }
}

} // verus!
