//! Chain identifiers: the networks this client knows by name, or a bare id.
use vstd::prelude::*;
use vstd::string::StringExecFns;
use crate::forkid::{be_bytes, push_be_bytes};
use crate::text::{upper_of, uppercase, str_equals, parsed_u64, parse_u64, decimal_text, u64_text};

verus! {

pub const MAINNET_ID: u64 = 70047;
pub const DEVNET_ID: u64 = 70048;
pub const TESTNET_ID: u64 = 70049;

/// The id of the legacy test network whose headers are exempt from the
/// extra-data limit before the merge.
pub const LEGACY_EXTRA_DATA_EXEMPT_ID: u64 = 5;

/// The networks known by name.
#[derive(Clone, Copy, Debug, PartialEq, Eq, Hash, Structural)]
pub enum SymphonyChains {
    Mainnet,
    Devnet,
    Testnet,
}

/// Why a value names none of the known networks.
#[derive(Clone, Copy, Debug, PartialEq, Eq, Structural)]
pub enum SymphonyChainError {
    UnrecognizedChainId,
    UnrecognizedStr,
}

impl SymphonyChains {
    pub open spec fn spec_id(self) -> u64 {
        match self {
            SymphonyChains::Mainnet => MAINNET_ID,
            SymphonyChains::Devnet => DEVNET_ID,
            SymphonyChains::Testnet => TESTNET_ID,
        }
    }

    /// The upper-case name of the network.
    pub open spec fn spec_name(self) -> Seq<char> {
        match self {
            SymphonyChains::Mainnet => "MAINNET"@,
            SymphonyChains::Devnet => "DEVNET"@,
            SymphonyChains::Testnet => "TESTNET"@,
        }
    }

    /// How the network is displayed.
    pub open spec fn spec_display(self) -> Seq<char> {
        match self {
            SymphonyChains::Mainnet => "symphony-mainnet"@,
            SymphonyChains::Devnet => "symphony-devnet"@,
            SymphonyChains::Testnet => "symphony-testnet"@,
        }
    }

    pub fn id(&self) -> (r: u64)
        ensures
            r == self.spec_id(),
    {
        match self {
            SymphonyChains::Mainnet => MAINNET_ID,
            SymphonyChains::Devnet => DEVNET_ID,
            SymphonyChains::Testnet => TESTNET_ID,
        }
    }

    /// The network with the given id.
    pub fn try_from_id(value: u64) -> (r: Result<SymphonyChains, SymphonyChainError>)
        ensures
            r matches Ok(c) ==> c.spec_id() == value,
            r matches Err(e) ==> e == SymphonyChainError::UnrecognizedChainId
                && value != MAINNET_ID && value != DEVNET_ID && value != TESTNET_ID,
    {
        if value == MAINNET_ID {
            Ok(SymphonyChains::Mainnet)
        } else if value == DEVNET_ID {
            Ok(SymphonyChains::Devnet)
        } else if value == TESTNET_ID {
            Ok(SymphonyChains::Testnet)
        } else {
            Err(SymphonyChainError::UnrecognizedChainId)
        }
    }

    /// The network whose upper-case name is exactly `upper`.
    pub fn from_uppercase_name(upper: &str) -> (r: Result<SymphonyChains, SymphonyChainError>)
        ensures
            r matches Ok(c) ==> c.spec_name() == upper@,
            r matches Err(e) ==> e == SymphonyChainError::UnrecognizedStr
                && forall|c: SymphonyChains| c.spec_name() != upper@,
    {
        if str_equals(upper, "MAINNET") {
            Ok(SymphonyChains::Mainnet)
        } else if str_equals(upper, "DEVNET") {
            Ok(SymphonyChains::Devnet)
        } else if str_equals(upper, "TESTNET") {
            Ok(SymphonyChains::Testnet)
        } else {
            Err(SymphonyChainError::UnrecognizedStr)
        }
    }

    /// The network named `value`, in any case.
    pub fn try_from_str(value: &str) -> (r: Result<SymphonyChains, SymphonyChainError>)
        ensures
            r matches Ok(c) ==> c.spec_name() == upper_of(value@),
            r matches Err(e) ==> e == SymphonyChainError::UnrecognizedStr
                && forall|c: SymphonyChains| c.spec_name() != upper_of(value@),
    {
        let upper = uppercase(value);
        SymphonyChains::from_uppercase_name(upper.as_str())
    }

    /// The display form, `symphony-` and the lower-case name.
    pub fn to_string(&self) -> (r: String)
        ensures
            r@ == self.spec_display(),
    {
        let s = match self {
            SymphonyChains::Mainnet => "symphony-mainnet",
            SymphonyChains::Devnet => "symphony-devnet",
            SymphonyChains::Testnet => "symphony-testnet",
        };
        <String as StringExecFns>::from_str(s)
    }
}

/// The name that ethers' chain table gives an id, if it lists it.
pub uninterp spec fn ethers_chain_name(id: u64) -> Option<Seq<char>>;

/// Relies on `ethers_core::types::Chain`'s `TryFrom<u64>` and `Display`: the
/// name of a well-known chain id, `None` for an id it does not list.
#[verifier::external_body]
fn ethers_name_of(id: u64) -> (r: Option<String>)
    ensures
        r is None <==> ethers_chain_name(id) is None,
        r matches Some(s) ==> ethers_chain_name(id) == Some(s@),
{
    ethers_core::types::Chain::try_from(id).ok().map(|c| c.to_string())
}

/// Either a named network or a bare chain id.
#[derive(Clone, Copy, Debug, PartialEq, Eq, Hash, Structural)]
pub enum Chain {
    Named(SymphonyChains),
    Id(u64),
}

/// The number of bytes of the big-endian form of `v` without leading zeros.
pub open spec fn byte_len(v: u64) -> nat {
    if v == 0 {
        0
    } else if v < 0x100 {
        1
    } else if v < 0x1_0000 {
        2
    } else if v < 0x100_0000 {
        3
    } else if v < 0x1_0000_0000 {
        4
    } else if v < 0x100_0000_0000 {
        5
    } else if v < 0x1_0000_0000_0000 {
        6
    } else if v < 0x100_0000_0000_0000 {
        7
    } else {
        8
    }
}

/// The length of the recursive-length-prefix encoding of an integer: one byte
/// below `0x80` (zero is the empty string, `0x80`), else a prefix byte and the
/// big-endian bytes.
pub open spec fn rlp_int_len(v: u64) -> nat {
    if v < 0x80 {
        1
    } else {
        1 + byte_len(v)
    }
}

impl Chain {
    pub open spec fn spec_id(self) -> u64 {
        match self {
            Chain::Named(c) => c.spec_id(),
            Chain::Id(id) => id,
        }
    }

    /// How the chain is displayed: a named network by its name, a bare id by
    /// the name in ethers' chain table, else by its decimal digits.
    pub open spec fn spec_display(self) -> Seq<char> {
        match self {
            Chain::Named(c) => c.spec_display(),
            Chain::Id(id) => match ethers_chain_name(id) {
                Some(name) => name,
                None => decimal_text(id as nat),
            },
        }
    }

    pub fn mainnet() -> (r: Chain)
        ensures
            r == Chain::Named(SymphonyChains::Mainnet),
    {
        Chain::Named(SymphonyChains::Mainnet)
    }

    pub fn devnet() -> (r: Chain)
        ensures
            r == Chain::Named(SymphonyChains::Devnet),
    {
        Chain::Named(SymphonyChains::Devnet)
    }

    pub fn testnet() -> (r: Chain)
        ensures
            r == Chain::Named(SymphonyChains::Testnet),
    {
        Chain::Named(SymphonyChains::Testnet)
    }

    /// The numeric id of the chain.
    pub fn id(&self) -> (r: u64)
        ensures
            r == self.spec_id(),
    {
        match self {
            Chain::Named(chain) => chain.id(),
            Chain::Id(id) => *id,
        }
    }

    /// The chain of an id: the named network where one has that id.
    pub fn from_id(id: u64) -> (r: Chain)
        ensures
            r.spec_id() == id,
            (r is Named) <==> (id == MAINNET_ID || id == DEVNET_ID || id == TESTNET_ID),
    {
        match SymphonyChains::try_from_id(id) {
            Ok(x) => Chain::Named(x),
            Err(_) => Chain::Id(id),
        }
    }

    /// Reads a chain: a known network's name in any case, else a decimal id.
    pub fn from_str(s: &str) -> (r: Result<Chain, String>)
        ensures
            (exists|c: SymphonyChains| c.spec_name() == upper_of(s@)) ==> (r matches Ok(Chain::Named(
                c,
            )) && c.spec_name() == upper_of(s@)),
            (forall|c: SymphonyChains| c.spec_name() != upper_of(s@)) ==> match parsed_u64(s@) {
                Some(n) => r == Ok::<Chain, String>(Chain::Id(n)),
                None => r matches Err(e) && e@ == "Expected known chain or integer, found: "@
                    + s@,
            },
    {
        match SymphonyChains::try_from_str(s) {
            Ok(chain) => Ok(Chain::Named(chain)),
            Err(_) => match parse_u64(s) {
                Some(n) => Ok(Chain::Id(n)),
                None => {
                    let msg = <String as StringExecFns>::from_str(
                        "Expected known chain or integer, found: ",
                    );
                    Err(msg.concat(s))
                },
            },
        }
    }

    /// The display form of the chain.
    pub fn to_string(&self) -> (r: String)
        ensures
            r@ == self.spec_display(),
    {
        match self {
            Chain::Named(chain) => chain.to_string(),
            Chain::Id(id) => match ethers_name_of(*id) {
                Some(name) => name,
                None => u64_text(*id),
            },
        }
    }

    /// The length of the chain id's recursive-length-prefix encoding.
    pub fn length(&self) -> (r: usize)
        ensures
            r as nat == rlp_int_len(self.spec_id()),
    {
        let v = self.id();
        if v < 0x80 {
            1
        } else if v < 0x100 {
            2
        } else if v < 0x1_0000 {
            3
        } else if v < 0x100_0000 {
            4
        } else if v < 0x1_0000_0000 {
            5
        } else if v < 0x100_0000_0000 {
            6
        } else if v < 0x1_0000_0000_0000 {
            7
        } else if v < 0x100_0000_0000_0000 {
            8
        } else {
            9
        }
    }
}

/// The names of the networks with a public DNS node list.
pub open spec fn has_dns_list(name: Seq<char>) -> bool {
    name == "mainnet"@ || name == "goerli"@ || name == "sepolia"@ || name == "ropsten"@
        || name == "rinkeby"@
}

/// The address of the public DNS node list of the network `name`.
pub open spec fn dns_list_address(name: Seq<char>) -> Seq<char> {
    "enrtree://AKA3AM6LPBYEUDMVNU3BSVQJ5AD45Y7YPOHJLEF6W26QOE4VTUDPE@all."@ + name
        + ".ethdisco.net"@
}

/// The recursive-length-prefix encoding of an integer: the integer itself
/// below `0x80` (zero is the empty string, `0x80`), else `0x80` plus the
/// length, then the big-endian bytes without leading zeros.
pub open spec fn rlp_int(v: u64) -> Seq<u8> {
    if v == 0 {
        seq![0x80u8]
    } else if v < 0x80 {
        seq![v as u8]
    } else {
        seq![(0x80 + byte_len(v)) as u8] + be_bytes(v).subrange(8 - byte_len(v), 8)
    }
}

impl Chain {
    /// The address of the public DNS node list of the chain, for the
    /// well-known networks that publish one.
    pub fn public_dns_network_protocol(self) -> (r: Option<String>)
        ensures
            r is Some <==> (ethers_chain_name(self.spec_id()) matches Some(name) && has_dns_list(
                name,
            )),
            r matches Some(s) ==> s@ == dns_list_address(ethers_chain_name(self.spec_id())->Some_0),
    {
        let name = match ethers_name_of(self.id()) {
            Some(n) => n,
            None => {
                return None;
            },
        };
        let n = name.as_str();
        if str_equals(n, "mainnet") || str_equals(n, "goerli") || str_equals(n, "sepolia")
            || str_equals(n, "ropsten") || str_equals(n, "rinkeby") {
            let prefix = <String as StringExecFns>::from_str(
                "enrtree://AKA3AM6LPBYEUDMVNU3BSVQJ5AD45Y7YPOHJLEF6W26QOE4VTUDPE@all.",
            );
            Some(prefix.concat(n).concat(".ethdisco.net"))
        } else {
            None
        }
    }

    /// Appends the recursive-length-prefix encoding of the chain id to `out`.
    pub fn encode(&self, out: &mut Vec<u8>)
        ensures
            final(out)@ == old(out)@ + rlp_int(self.spec_id()),
    {
        let v = self.id();
        if v == 0 {
            out.push(0x80);
            assert(final(out)@ =~= old(out)@ + rlp_int(v));
            return;
        }
        if v < 0x80 {
            out.push(v as u8);
            assert(final(out)@ =~= old(out)@ + rlp_int(v));
            return;
        }
        let len: usize = self.length() - 1;
        let mut bytes: Vec<u8> = Vec::new();
        push_be_bytes(&mut bytes, v);
        out.push((0x80 + len) as u8);
        let ghost start = out@;
        assert(len as nat == byte_len(v) && 1 <= len <= 8);
        assert(be_bytes(v).len() == 8);
        let mut i: usize = 8 - len;
        while i < 8
            invariant
                1 <= len <= 8,
                len as nat == byte_len(v),
                be_bytes(v).len() == 8,
                8 - len <= i <= 8,
                bytes@ == be_bytes(v),
                out@ == start + be_bytes(v).subrange(8 - len, i as int),
            decreases 8 - i,
        {
            out.push(bytes[i]);
            i = i + 1;
            assert(out@ =~= start + be_bytes(v).subrange(8 - len, i as int));
        }
        assert(final(out)@ =~= old(out)@ + rlp_int(v));
    }
}

impl Default for Chain {
    fn default() -> (r: Chain)
        ensures
            r == Chain::Named(SymphonyChains::Mainnet),
    {
        Chain::Named(SymphonyChains::Mainnet)
    }
}

} // verus!
