use vstd::prelude::*;
use crate::text::str_eq;

verus! {

/// A named blockchain network variant. Each variant carries, as pure
/// functions of the tag, every concrete parameter needed to operate
/// against that network.
#[derive(Copy, Clone, Debug, PartialEq, Eq, Structural)]
pub enum Chain {
    Mainnet,
    Testnet,
    Signet,
    Regtest,
}

/// Error returned when a textual network name matches no known network
/// or alias.
#[derive(Copy, Clone, Debug, PartialEq, Eq, Structural)]
pub struct UnknownNetwork;

/// Consensus-rules identity type of the decoding layer
/// (`bitcoin::Network`), declared so that it can stand in signatures.
#[verifier::external_type_specification]
pub struct ExNetwork(bitcoin::Network);

/// A fully decoded block (`bitcoin::Block`), declared opaquely: the
/// library carries such values through without reading them.
#[verifier::external_type_specification]
#[verifier::external_body]
pub struct ExBlock(bitcoin::Block);

/// An output script (`bitcoin::Script`), declared opaquely.
#[verifier::external_type_specification]
#[verifier::external_body]
pub struct ExScript(bitcoin::Script);

/// A human-displayable address (`bitcoin::util::address::Address`),
/// declared opaquely.
#[verifier::external_type_specification]
#[verifier::external_body]
pub struct ExAddress(bitcoin::util::address::Address);

/// The address codec's error type (`bitcoin::util::address::Error`),
/// declared opaquely.
#[verifier::external_type_specification]
#[verifier::external_body]
pub struct ExAddressError(bitcoin::util::address::Error);

/// Whether an output script matches a recognized address template under
/// the given network's encoding rules, so that an address can be derived
/// from it. A function of its arguments alone; the address itself stays
/// unnamed, as the type is opaque.
pub uninterp spec fn addr_decodes(script: bitcoin::Script, network: bitcoin::Network) -> bool;

/// Relies on bitcoin::util::address::Address::from_script: derives an
/// address from an output script under the given network's encoding
/// rules. Success depends on the script and network alone: it returns an
/// address exactly when the script matches a recognized address template,
/// and a decode error otherwise.
pub assume_specification[ bitcoin::util::address::Address::from_script ](
    script: &bitcoin::Script,
    network: bitcoin::Network,
) -> (r: Result<bitcoin::util::address::Address, bitcoin::util::address::Error>)
    ensures
        r is Ok <==> addr_decodes(*script, network),
;

/// The numeric value a character denotes as a hexadecimal digit, if any.
/// Both upper and lower case digits count.
pub open spec fn hex_val(c: char) -> Option<u8> {
    let n = c as u32;
    if 65 <= n && n <= 70 {
        Some((n - 55) as u8)
    } else if 97 <= n && n <= 102 {
        Some((n - 87) as u8)
    } else if 48 <= n && n <= 57 {
        Some((n - 48) as u8)
    } else {
        None
    }
}

/// What decoding a hexadecimal string yields: one byte for each pair of
/// hex digits, and nothing when the length is odd or a character is not
/// a hex digit.
pub open spec fn hex_decode_spec(s: Seq<char>) -> Option<Seq<u8>>
    decreases s.len(),
{
    if s.len() % 2 != 0 {
        None
    } else if s.len() == 0 {
        Some(Seq::<u8>::empty())
    } else {
        match (hex_val(s[0]), hex_val(s[1])) {
            (Some(hi), Some(lo)) => match hex_decode_spec(s.skip(2)) {
                Some(rest) => Some(seq![(hi * 16 + lo) as u8] + rest),
                None => None,
            },
            _ => None,
        }
    }
}

/// The numeric value a character denotes as a hexadecimal digit, if any.
fn hex_digit_val(c: char) -> (r: Option<u8>)
    ensures
        r == hex_val(c),
{
    let n = c as u32;
    if 65 <= n && n <= 70 {
        Some((n - 55) as u8)
    } else if 97 <= n && n <= 102 {
        Some((n - 87) as u8)
    } else if 48 <= n && n <= 57 {
        Some((n - 48) as u8)
    } else {
        None
    }
}

/// Decodes a hexadecimal string: one byte for each pair of digits, and
/// nothing when the length is odd or a character is not a hex digit.
fn hex_decode(s: &str) -> (r: Option<Vec<u8>>)
    ensures
        r is Some <==> hex_decode_spec(s@) is Some,
        r matches Some(v) ==> hex_decode_spec(s@) == Some(v@),
{
    let n = s.unicode_len();
    if n % 2 != 0 {
        return None;
    }
    let mut out: Vec<u8> = Vec::new();
    let mut i: usize = 0;
    proof {
        assert(s@.skip(0) =~= s@);
        if hex_decode_spec(s@) is Some {
            assert(hex_decode_spec(s@)->0 =~= out@ + hex_decode_spec(s@)->0);
        }
    }
    while i < n
        invariant
            i <= n,
            i % 2 == 0,
            n % 2 == 0,
            n == s@.len(),
            hex_decode_spec(s@) is Some <==> hex_decode_spec(s@.skip(i as int)) is Some,
            hex_decode_spec(s@) matches Some(all) ==> (hex_decode_spec(s@.skip(i as int))
                matches Some(rest) && all == out@ + rest),
        decreases n - i,
    {
        let ghost sub = s@.skip(i as int);
        let hi = s.get_char(i);
        let lo = s.get_char(i + 1);
        proof {
            assert(sub[0] == hi && sub[1] == lo);
            assert(sub.skip(2) =~= s@.skip(i + 2));
        }
        match (hex_digit_val(hi), hex_digit_val(lo)) {
            (Some(h), Some(l)) => {
                assert(h < 16 && l < 16);
                let ghost pre = out@;
                out.push(h * 16 + l);
                proof {
                    assert(out@ =~= pre + seq![(h * 16 + l) as u8]);
                    if hex_decode_spec(s@) matches Some(all) {
                        assert(hex_decode_spec(sub) matches Some(rest) && rest == seq![(h * 16
                            + l) as u8] + hex_decode_spec(s@.skip(i + 2))->0);
                        assert(pre + (seq![(h * 16 + l) as u8] + hex_decode_spec(
                            s@.skip(i + 2),
                        )->0) =~= out@ + hex_decode_spec(s@.skip(i + 2))->0);
                    }
                }
                i += 2;
            },
            _ => {
                return None;
            },
        }
    }
    proof {
        assert(s@.skip(n as int) =~= Seq::<char>::empty());
        assert(hex_decode_spec(Seq::<char>::empty()) == Some(Seq::<u8>::empty()));
        if hex_decode_spec(s@) is Some {
            assert(hex_decode_spec(s@)->0 =~= out@);
        }
    }
    Some(out)
}

/// Whether a byte buffer deserializes as a consensus-serialized block,
/// consuming the whole buffer. A function of the bytes alone; what the
/// block holds stays unnamed, as the type is opaque.
pub uninterp spec fn deser_block_ok(data: Seq<u8>) -> bool;

/// Relies on bitcoin::consensus::deserialize: decodes a byte buffer as a
/// consensus-serialized block, and fails on malformed input or when the
/// buffer is not consumed entirely. Success depends on the bytes alone;
/// the block itself is an opaque value, so nothing more is stated.
#[verifier::external_body]
fn deserialize_block(data: &Vec<u8>) -> (r: Option<bitcoin::Block>)
    ensures
        r is Some <==> deser_block_ok(data@),
{
    bitcoin::consensus::deserialize::<bitcoin::Block>(data.as_slice()).ok()
}

/// The stable lowercase identifier of a network, used both for display and
/// as its serialization key.
pub open spec fn chain_name(c: Chain) -> Seq<char> {
    match c {
        Chain::Mainnet => "mainnet"@,
        Chain::Testnet => "testnet"@,
        Chain::Signet => "signet"@,
        Chain::Regtest => "regtest"@,
    }
}

/// The relative path segment appended to a base data directory so that
/// networks coexist without collision. Empty for `Mainnet`.
pub open spec fn chain_dir_suffix(c: Chain) -> Seq<char> {
    match c {
        Chain::Mainnet => Seq::<char>::empty(),
        Chain::Testnet => "testnet3"@,
        Chain::Signet => "signet"@,
        Chain::Regtest => "regtest"@,
    }
}

/// The consensus-rules identity that the decoding layer uses for each
/// network.
pub open spec fn network_of(c: Chain) -> bitcoin::Network {
    match c {
        Chain::Mainnet => bitcoin::Network::Bitcoin,
        Chain::Testnet => bitcoin::Network::Testnet,
        Chain::Signet => bitcoin::Network::Signet,
        Chain::Regtest => bitcoin::Network::Regtest,
    }
}

/// The embedded canonical hex representation of each network's genesis
/// block.
pub open spec fn genesis_hex_of(c: Chain) -> Seq<char> {
    match c {
        Chain::Mainnet => "010000000000000000000000000000000000000000000000000000000000000000000000450f8ab5cade1c53c2ef36d655076fd0a114378cc54678073b966dff820459e40c845f67f0ff0f1ef98901000101000000010000000000000000000000000000000000000000000000000000000000000000ffffffff3704ffff001d01042f4e617364617120746f20416464204d6963726f537472617465677920746f20746865204e617331303020496e646578ffffffff010058850c0200000043410404721c4861d9047841a25fb469f98ba09e8c9134a4e0ebfb5c84f5e6969e35911d39e492dc2dda8dc84983059672cb11794bfd08d591b67b2e15cf6b074b32f0ac00000000"@,
        Chain::Testnet => "010000000000000000000000000000000000000000000000000000000000000000000000450f8ab5cade1c53c2ef36d655076fd0a114378cc54678073b966dff820459e40c845f67f0ff0f1ef98901000101000000010000000000000000000000000000000000000000000000000000000000000000ffffffff3704ffff001d01042f4e617364617120746f20416464204d6963726f537472617465677920746f20746865204e617331303020496e646578ffffffff010058850c0200000043410404721c4861d9047841a25fb469f98ba09e8c9134a4e0ebfb5c84f5e6969e35911d39e492dc2dda8dc84983059672cb11794bfd08d591b67b2e15cf6b074b32f0ac00000000"@,
        Chain::Signet => "010000000000000000000000000000000000000000000000000000000000000000000000450f8ab5cade1c53c2ef36d655076fd0a114378cc54678073b966dff820459e40c845f67f0ff0f1ef98901000101000000010000000000000000000000000000000000000000000000000000000000000000ffffffff3704ffff001d01042f4e617364617120746f20416464204d6963726f537472617465677920746f20746865204e617331303020496e646578ffffffff010058850c0200000043410404721c4861d9047841a25fb469f98ba09e8c9134a4e0ebfb5c84f5e6969e35911d39e492dc2dda8dc84983059672cb11794bfd08d591b67b2e15cf6b074b32f0ac00000000"@,
        Chain::Regtest => "010000000000000000000000000000000000000000000000000000000000000000000000450f8ab5cade1c53c2ef36d655076fd0a114378cc54678073b966dff820459e40c845f67f0ff0f1ef98901000101000000010000000000000000000000000000000000000000000000000000000000000000ffffffff3704ffff001d01042f4e617364617120746f20416464204d6963726f537472617465677920746f20746865204e617331303020496e646578ffffffff010058850c0200000043410404721c4861d9047841a25fb469f98ba09e8c9134a4e0ebfb5c84f5e6969e35911d39e492dc2dda8dc84983059672cb11794bfd08d591b67b2e15cf6b074b32f0ac00000000"@,
    }
}

/// Which network a textual selector names: each canonical name, plus the
/// historical aliases `main` and `test`; anything else is unknown.
pub open spec fn resolve_spec(s: Seq<char>) -> Result<Chain, UnknownNetwork> {
    if s == "mainnet"@ || s == "main"@ {
        Ok(Chain::Mainnet)
    } else if s == "testnet"@ || s == "test"@ {
        Ok(Chain::Testnet)
    } else if s == "signet"@ {
        Ok(Chain::Signet)
    } else if s == "regtest"@ {
        Ok(Chain::Regtest)
    } else {
        Err(UnknownNetwork)
    }
}

impl Default for Chain {
    /// The network assumed when none is selected.
    fn default() -> (r: Self)
        ensures
            r == Chain::Mainnet,
    {
        Chain::Mainnet
    }
}

impl Chain {
    /// Looks a network up by its textual name. Accepts the canonical names
    /// and the historical aliases `main` and `test`; rejects every other
    /// string with `UnknownNetwork`.
    pub fn resolve(s: &str) -> (r: Result<Chain, UnknownNetwork>)
        ensures
            r == resolve_spec(s@),
    {
        if str_eq(s, "mainnet") || str_eq(s, "main") {
            Ok(Chain::Mainnet)
        } else if str_eq(s, "testnet") || str_eq(s, "test") {
            Ok(Chain::Testnet)
        } else if str_eq(s, "signet") {
            Ok(Chain::Signet)
        } else if str_eq(s, "regtest") {
            Ok(Chain::Regtest)
        } else {
            Err(UnknownNetwork)
        }
    }

    /// Stable lowercase name of this network, for display and as its
    /// serialization key.
    pub fn display(self) -> (r: String)
        ensures
            r@ == chain_name(self),
    {
        match self {
            Chain::Mainnet => String::from_str("mainnet"),
            Chain::Testnet => String::from_str("testnet"),
            Chain::Signet => String::from_str("signet"),
            Chain::Regtest => String::from_str("regtest"),
        }
    }

    /// The relative path segment that keeps this network's state apart
    /// from the other networks' under a shared base directory. Empty for
    /// `Mainnet`.
    pub fn dir_suffix(self) -> (r: String)
        ensures
            r@ == chain_dir_suffix(self),
    {
        match self {
            Chain::Mainnet => String::new(),
            Chain::Testnet => String::from_str("testnet3"),
            Chain::Signet => String::from_str("signet"),
            Chain::Regtest => String::from_str("regtest"),
        }
    }

    /// Where this network keeps its state under a base data directory:
    /// the base itself for `Mainnet`, else the base joined with the
    /// network's directory suffix. Purely a path computation; no
    /// filesystem access occurs.
    pub fn join_with_data_dir(self, data_dir: &str) -> (r: String)
        ensures
            self == Chain::Mainnet ==> r@ == data_dir@,
            self != Chain::Mainnet ==> r@ == data_dir@ + "/"@ + chain_dir_suffix(self),
    {
        match self {
            Chain::Mainnet => data_dir.to_owned(),
            Chain::Testnet => {
                let mut s = data_dir.to_owned();
                s.append("/");
                s.append("testnet3");
                s
            },
            Chain::Signet => {
                let mut s = data_dir.to_owned();
                s.append("/");
                s.append("signet");
                s
            },
            Chain::Regtest => {
                let mut s = data_dir.to_owned();
                s.append("/");
                s.append("regtest");
                s
            },
        }
    }

    /// The consensus-rules identity used by the transaction and block
    /// decoding layer for this network.
    pub fn network(self) -> (r: bitcoin::Network)
        ensures
            r == network_of(self),
    {
        match self {
            Chain::Mainnet => bitcoin::Network::Bitcoin,
            Chain::Testnet => bitcoin::Network::Testnet,
            Chain::Signet => bitcoin::Network::Signet,
            Chain::Regtest => bitcoin::Network::Regtest,
        }
    }

    /// The fully decoded first block of this network, reconstructed from
    /// its embedded canonical hex representation. `None` indicates that
    /// the embedded data is corrupted — a configuration-integrity fault
    /// of the build itself, never a user-input problem — and the caller
    /// should abort. Success is decided by the embedded data alone, so
    /// every call on one variant agrees.
    pub fn genesis_block(self) -> (r: Option<bitcoin::Block>)
        ensures
            r is Some <==> (hex_decode_spec(genesis_hex_of(self)) matches Some(b)
                && deser_block_ok(b)),
    {
        let genesis_hex: &str = match self {
            Chain::Mainnet => "010000000000000000000000000000000000000000000000000000000000000000000000450f8ab5cade1c53c2ef36d655076fd0a114378cc54678073b966dff820459e40c845f67f0ff0f1ef98901000101000000010000000000000000000000000000000000000000000000000000000000000000ffffffff3704ffff001d01042f4e617364617120746f20416464204d6963726f537472617465677920746f20746865204e617331303020496e646578ffffffff010058850c0200000043410404721c4861d9047841a25fb469f98ba09e8c9134a4e0ebfb5c84f5e6969e35911d39e492dc2dda8dc84983059672cb11794bfd08d591b67b2e15cf6b074b32f0ac00000000",
            Chain::Testnet => "010000000000000000000000000000000000000000000000000000000000000000000000450f8ab5cade1c53c2ef36d655076fd0a114378cc54678073b966dff820459e40c845f67f0ff0f1ef98901000101000000010000000000000000000000000000000000000000000000000000000000000000ffffffff3704ffff001d01042f4e617364617120746f20416464204d6963726f537472617465677920746f20746865204e617331303020496e646578ffffffff010058850c0200000043410404721c4861d9047841a25fb469f98ba09e8c9134a4e0ebfb5c84f5e6969e35911d39e492dc2dda8dc84983059672cb11794bfd08d591b67b2e15cf6b074b32f0ac00000000",
            Chain::Signet => "010000000000000000000000000000000000000000000000000000000000000000000000450f8ab5cade1c53c2ef36d655076fd0a114378cc54678073b966dff820459e40c845f67f0ff0f1ef98901000101000000010000000000000000000000000000000000000000000000000000000000000000ffffffff3704ffff001d01042f4e617364617120746f20416464204d6963726f537472617465677920746f20746865204e617331303020496e646578ffffffff010058850c0200000043410404721c4861d9047841a25fb469f98ba09e8c9134a4e0ebfb5c84f5e6969e35911d39e492dc2dda8dc84983059672cb11794bfd08d591b67b2e15cf6b074b32f0ac00000000",
            Chain::Regtest => "010000000000000000000000000000000000000000000000000000000000000000000000450f8ab5cade1c53c2ef36d655076fd0a114378cc54678073b966dff820459e40c845f67f0ff0f1ef98901000101000000010000000000000000000000000000000000000000000000000000000000000000ffffffff3704ffff001d01042f4e617364617120746f20416464204d6963726f537472617465677920746f20746865204e617331303020496e646578ffffffff010058850c0200000043410404721c4861d9047841a25fb469f98ba09e8c9134a4e0ebfb5c84f5e6969e35911d39e492dc2dda8dc84983059672cb11794bfd08d591b67b2e15cf6b074b32f0ac00000000",
        };

        proof {
            assert(genesis_hex@ == genesis_hex_of(self));
        }
        match hex_decode(genesis_hex) {
            Some(bytes) => deserialize_block(&bytes),
            None => None,
        }
    }

    /// A human-displayable address for an output script under this
    /// network's address-encoding rules. Returns an address exactly when
    /// the script matches a recognized address template, and a decode
    /// error otherwise — an expected, recoverable condition.
    pub fn address_from_script(self, script: &bitcoin::Script) -> (r: Result<
        bitcoin::util::address::Address,
        bitcoin::util::address::Error,
    >)
        ensures
            r is Ok <==> addr_decodes(*script, network_of(self)),
    {
        bitcoin::util::address::Address::from_script(script, self.network())
    }

    /// Default network-transport port used to reach a node for this network.
    pub fn default_rpc_port(self) -> (r: u16)
        ensures
            r == match self {
                Chain::Mainnet => 33864u16,
                Chain::Testnet => 44863u16,
                Chain::Signet => 38332u16,
                Chain::Regtest => 18332u16,
            },
    {
        match self {
            Chain::Mainnet => 33864,
            Chain::Testnet => 44863,
            Chain::Signet => 38332,
            Chain::Regtest => 18332,
        }
    }

    /// Optional cap on inscription payload size; currently unset for every
    /// network. An explicit extension point, not dead code.
    pub fn inscription_content_size_limit(self) -> (r: Option<usize>)
        ensures
            r is None,
    {
        match self {
            Chain::Mainnet | Chain::Regtest => None,
            Chain::Testnet | Chain::Signet => None,
        }
    }

    /// Block height at which inscriptions become recognized.
    pub fn first_inscription_height(self) -> (r: u32)
        ensures
            r == 0,
    {
        match self {
            Chain::Mainnet => 0,
            Chain::Testnet => 0,
            Chain::Signet => 0,
            Chain::Regtest => 0,
        }
    }

    /// Block height at which dunes become recognized.
    pub fn first_dune_height(self) -> (r: u32)
        ensures
            r == 0,
    {
        match self {
            Chain::Mainnet => 0,
            Chain::Testnet => 0,
            Chain::Signet => 0,
            Chain::Regtest => 0,
        }
    }
}

/// Round trip: a network's display name, parsed back as a network
/// selector, yields the same network, for every variant.
pub proof fn lemma_display_round_trip(c: Chain)
    ensures
        resolve_spec(chain_name(c)) == Ok::<Chain, UnknownNetwork>(c),
{
    reveal_strlit("mainnet");
    reveal_strlit("main");
    reveal_strlit("testnet");
    reveal_strlit("test");
    reveal_strlit("signet");
    reveal_strlit("regtest");
    match c {
        Chain::Mainnet => {
        },
        Chain::Testnet => {
            assert("testnet"@[0] != "mainnet"@[0]);
            assert("testnet"@.len() != "main"@.len());
        },
        Chain::Signet => {
            assert("signet"@.len() != "mainnet"@.len());
            assert("signet"@.len() != "main"@.len());
            assert("signet"@.len() != "testnet"@.len());
            assert("signet"@.len() != "test"@.len());
        },
        Chain::Regtest => {
            assert("regtest"@[0] != "mainnet"@[0]);
            assert("regtest"@.len() != "main"@.len());
            assert("regtest"@[0] != "testnet"@[0]);
            assert("regtest"@.len() != "test"@.len());
            assert("regtest"@.len() != "signet"@.len());
        },
    }
}

} // verus!
