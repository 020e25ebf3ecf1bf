use vstd::prelude::*;

verus! {

/// A network, identified by its numeric chain id.
#[derive(Clone, Copy, Debug, PartialEq, Eq, Structural)]
pub enum Chain {
    EthereumMainnet,
    EthereumRopstenTestNetwork,
    EthereumRinkebyTestNetwork,
    EthereumKovanTestNetwork,
    EthereumGoerliTestNetwork,
    PolygonMainnet,
    Other(u32),
}

/// The native token of a network.
#[derive(Clone, Copy, Debug, PartialEq, Eq, Structural)]
pub enum Token {
    Ether,
    Matic,
    Other,
}

/// The chain that a numeric id stands for.
pub open spec fn chain_of_id(id: u32) -> Chain {
    if id == 1 {
        Chain::EthereumMainnet
    } else if id == 3 {
        Chain::EthereumRopstenTestNetwork
    } else if id == 4 {
        Chain::EthereumRinkebyTestNetwork
    } else if id == 5 {
        Chain::EthereumGoerliTestNetwork
    } else if id == 42 {
        Chain::EthereumKovanTestNetwork
    } else if id == 137 {
        Chain::PolygonMainnet
    } else {
        Chain::Other(id)
    }
}

/// Whether a chain id is one of the networks known by name.
pub open spec fn is_known_id(id: u32) -> bool {
    id == 1 || id == 3 || id == 4 || id == 5 || id == 42 || id == 137
}

/// Whether a chain belongs to the Ethereum family of networks.
pub open spec fn is_ethereum(c: Chain) -> bool {
    match c {
        Chain::EthereumMainnet
        | Chain::EthereumRopstenTestNetwork
        | Chain::EthereumRinkebyTestNetwork
        | Chain::EthereumKovanTestNetwork
        | Chain::EthereumGoerliTestNetwork => true,
        _ => false,
    }
}

/// The native token of a chain.
pub open spec fn token_of(c: Chain) -> Token {
    if is_ethereum(c) {
        Token::Ether
    } else if c == Chain::PolygonMainnet {
        Token::Matic
    } else {
        Token::Other
    }
}

/// The character of a decimal digit.
pub open spec fn digit_char(d: nat) -> char {
    if d == 0 {
        '0'
    } else if d == 1 {
        '1'
    } else if d == 2 {
        '2'
    } else if d == 3 {
        '3'
    } else if d == 4 {
        '4'
    } else if d == 5 {
        '5'
    } else if d == 6 {
        '6'
    } else if d == 7 {
        '7'
    } else if d == 8 {
        '8'
    } else {
        '9'
    }
}

/// The decimal notation of a natural number, without leading zeros.
pub open spec fn decimal(n: nat) -> Seq<char>
    decreases n,
{
    if n < 10 {
        seq![digit_char(n)]
    } else {
        decimal(n / 10).push(digit_char(n % 10))
    }
}

/// The human-readable name of a chain.
pub open spec fn chain_name(c: Chain) -> Seq<char> {
    match c {
        Chain::EthereumMainnet => "Ethereum Mainnet"@,
        Chain::EthereumRopstenTestNetwork => "Ethereum Ropsten Testnet"@,
        Chain::EthereumRinkebyTestNetwork => "Ethereum Rinkeby Testnet"@,
        Chain::EthereumKovanTestNetwork => "Ethereum Kovan Testnet"@,
        Chain::EthereumGoerliTestNetwork => "Ethereum Goerli Testnet"@,
        Chain::PolygonMainnet => "Polygon Mainnet"@,
        Chain::Other(id) => "Other Network ("@ + decimal(id as nat) + ")"@,
    }
}

/// The display symbol of a token.
pub open spec fn token_symbol(t: Token) -> Seq<char> {
    match t {
        Token::Ether => "ETH"@,
        Token::Matic => "MATIC"@,
        Token::Other => ""@,
    }
}

/// Maps a numeric chain id to its chain; ids outside the known table give
/// `Chain::Other` carrying the id.
pub fn identify(id: u32) -> (r: Chain)
    ensures
        r == chain_of_id(id),
        is_known_id(id) <==> !(r is Other),
{
    match id {
        1 => Chain::EthereumMainnet,
        3 => Chain::EthereumRopstenTestNetwork,
        4 => Chain::EthereumRinkebyTestNetwork,
        5 => Chain::EthereumGoerliTestNetwork,
        42 => Chain::EthereumKovanTestNetwork,
        137 => Chain::PolygonMainnet,
        _ => Chain::Other(id),
    }
}

/// Maps a decoded chain id to its chain; an id that does not fit in 32 bits
/// names no chain.
pub fn to_chain(chain_id: u128) -> (r: Option<Chain>)
    ensures
        chain_id <= u32::MAX ==> r == Some(chain_of_id(chain_id as u32)),
        chain_id > u32::MAX ==> r is None,
{
    if chain_id <= 0xffff_ffff {
        Some(identify(chain_id as u32))
    } else {
        None
    }
}

/// A single decimal digit as text.
fn digit_text(d: u32) -> (r: &'static str)
    requires
        d < 10,
    ensures
        r@ == seq![digit_char(d as nat)],
{
    match d {
        0 => {
            proof { reveal_strlit("0"); }
            "0"
        },
        1 => {
            proof { reveal_strlit("1"); }
            "1"
        },
        2 => {
            proof { reveal_strlit("2"); }
            "2"
        },
        3 => {
            proof { reveal_strlit("3"); }
            "3"
        },
        4 => {
            proof { reveal_strlit("4"); }
            "4"
        },
        5 => {
            proof { reveal_strlit("5"); }
            "5"
        },
        6 => {
            proof { reveal_strlit("6"); }
            "6"
        },
        7 => {
            proof { reveal_strlit("7"); }
            "7"
        },
        8 => {
            proof { reveal_strlit("8"); }
            "8"
        },
        _ => {
            proof { reveal_strlit("9"); }
            "9"
        },
    }
}

/// The decimal notation of `n`.
pub fn decimal_text(n: u32) -> (r: String)
    ensures
        r@ == decimal(n as nat),
    decreases n,
{
    if n < 10 {
        String::from_str(digit_text(n))
    } else {
        let high = decimal_text(n / 10);
        high.concat(digit_text(n % 10))
    }
}

impl Chain {
    /// The native token of this chain.
    pub fn token(&self) -> (r: Token)
        ensures
            r == token_of(*self),
            is_ethereum(*self) ==> r == Token::Ether,
            *self == Chain::PolygonMainnet ==> r == Token::Matic,
            self is Other ==> r == Token::Other,
    {
        match self {
            Chain::EthereumMainnet
            | Chain::EthereumRopstenTestNetwork
            | Chain::EthereumRinkebyTestNetwork
            | Chain::EthereumKovanTestNetwork
            | Chain::EthereumGoerliTestNetwork => Token::Ether,
            Chain::PolygonMainnet => Token::Matic,
            Chain::Other(_) => Token::Other,
        }
    }

    /// The human-readable name of this chain.
    pub fn name(&self) -> (r: String)
        ensures
            r@ == chain_name(*self),
    {
        match self {
            Chain::EthereumMainnet => String::from_str("Ethereum Mainnet"),
            Chain::EthereumRopstenTestNetwork => String::from_str("Ethereum Ropsten Testnet"),
            Chain::EthereumRinkebyTestNetwork => String::from_str("Ethereum Rinkeby Testnet"),
            Chain::EthereumKovanTestNetwork => String::from_str("Ethereum Kovan Testnet"),
            Chain::EthereumGoerliTestNetwork => String::from_str("Ethereum Goerli Testnet"),
            Chain::PolygonMainnet => String::from_str("Polygon Mainnet"),
            Chain::Other(id) => {
                let text = String::from_str("Other Network (");
                let text = text.concat(decimal_text(*id).as_str());
                text.concat(")")
            },
        }
    }
}

impl Token {
    /// The display symbol of this token; empty for an unnamed token.
    pub fn symbol(&self) -> (r: String)
        ensures
            r@ == token_symbol(*self),
    {
        match self {
            Token::Ether => String::from_str("ETH"),
            Token::Matic => String::from_str("MATIC"),
            Token::Other => String::from_str(""),
        }
    }
}

/// Every id outside the known table maps to `Chain::Other` with that id, and
/// the name of that chain is `Other Network (<id>)` with the id in decimal.
pub proof fn lemma_unknown_id_named(id: u32)
    requires
        !is_known_id(id),
    ensures
        chain_of_id(id) == Chain::Other(id),
        chain_name(chain_of_id(id)) == "Other Network ("@ + decimal(id as nat) + ")"@,
{
}

/// The token of a chain depends on its family alone: every Ethereum network
/// has Ether, Polygon has Matic, and any other network has no named token.
pub proof fn lemma_token_by_family(c: Chain)
    ensures
        is_ethereum(c) ==> token_of(c) == Token::Ether,
        c == Chain::PolygonMainnet ==> token_of(c) == Token::Matic,
        c is Other ==> token_of(c) == Token::Other,
{
}

} // verus!
