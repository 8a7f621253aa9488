//! The connector to a constant-product exchange on an EVM chain: what it
//! checks before it quotes or swaps, and the transaction a swap is sent as.

use vstd::prelude::*;
use crate::numeric::U256;
use crate::signer::Address;

verus! {

/// Why the connector refused or failed.
#[derive(Debug, PartialEq, Eq)]
pub enum EvmConnectorError {
    /// The token, given as `0x` and its address in hexadecimal, is not on the
    /// connector's safelist.
    TokenNotSafelisted(String),
    RouterNotSupported(String),
    Provider(String),
}

/// What an `EvmConnectorError` holds.
pub enum EvmConnectorErrorModel {
    TokenNotSafelisted(Seq<char>),
    RouterNotSupported(Seq<char>),
    Provider(Seq<char>),
}

impl View for EvmConnectorError {
    type V = EvmConnectorErrorModel;

    open spec fn view(&self) -> EvmConnectorErrorModel {
        match self {
            EvmConnectorError::TokenNotSafelisted(token) => EvmConnectorErrorModel::TokenNotSafelisted(
                token@,
            ),
            EvmConnectorError::RouterNotSupported(router) => EvmConnectorErrorModel::RouterNotSupported(
                router@,
            ),
            EvmConnectorError::Provider(cause) => EvmConnectorErrorModel::Provider(cause@),
        }
    }
}

impl EvmConnectorError {
    /// The text of the error.
    pub fn message(&self) -> (text: String)
        ensures
            text@ == match self@ {
                EvmConnectorErrorModel::TokenNotSafelisted(token) => "token not safelisted: "@
                    + token,
                EvmConnectorErrorModel::RouterNotSupported(router) => "router not supported: "@
                    + router,
                EvmConnectorErrorModel::Provider(cause) => "provider error: "@ + cause,
            },
    {
        match self {
            EvmConnectorError::TokenNotSafelisted(token) => String::from_str(
                "token not safelisted: ",
            ).concat(token.as_str()),
            EvmConnectorError::RouterNotSupported(router) => String::from_str(
                "router not supported: ",
            ).concat(router.as_str()),
            EvmConnectorError::Provider(cause) => String::from_str("provider error: ").concat(
                cause.as_str(),
            ),
        }
    }
}

/// The character of a hexadecimal digit, in lowercase.
pub open spec fn hex_char(d: nat) -> char {
    if d == 0 {
        '0'
    } else if d == 1 {
        '1'
    } else if d == 2 {
        '2'
    } else if d == 3 {
        '3'
    } else if d == 4 {
        '4'
    } else if d == 5 {
        '5'
    } else if d == 6 {
        '6'
    } else if d == 7 {
        '7'
    } else if d == 8 {
        '8'
    } else if d == 9 {
        '9'
    } else if d == 10 {
        'a'
    } else if d == 11 {
        'b'
    } else if d == 12 {
        'c'
    } else if d == 13 {
        'd'
    } else if d == 14 {
        'e'
    } else {
        'f'
    }
}

/// The bytes in hexadecimal, two digits each.
pub open spec fn hex_of(bytes: Seq<u8>) -> Seq<char>
    decreases bytes.len(),
{
    if bytes.len() == 0 {
        Seq::empty()
    } else {
        hex_of(bytes.drop_last()).push(hex_char(bytes.last() as nat / 16)).push(
            hex_char(bytes.last() as nat % 16),
        )
    }
}

/// An address as it is written: `0x` and forty hexadecimal digits.
pub open spec fn address_text(address: Seq<u8>) -> Seq<char> {
    "0x"@ + hex_of(address)
}

fn hex_digit(d: u8) -> (text: &'static str)
    requires
        d < 16,
    ensures
        text@ == seq![hex_char(d as nat)],
{
    proof {
        reveal_strlit("0");
        reveal_strlit("1");
        reveal_strlit("2");
        reveal_strlit("3");
        reveal_strlit("4");
        reveal_strlit("5");
        reveal_strlit("6");
        reveal_strlit("7");
        reveal_strlit("8");
        reveal_strlit("9");
        reveal_strlit("a");
        reveal_strlit("b");
        reveal_strlit("c");
        reveal_strlit("d");
        reveal_strlit("e");
        reveal_strlit("f");
    }
    let text: &'static str = if d == 0 {
        "0"
    } else if d == 1 {
        "1"
    } else if d == 2 {
        "2"
    } else if d == 3 {
        "3"
    } else if d == 4 {
        "4"
    } else if d == 5 {
        "5"
    } else if d == 6 {
        "6"
    } else if d == 7 {
        "7"
    } else if d == 8 {
        "8"
    } else if d == 9 {
        "9"
    } else if d == 10 {
        "a"
    } else if d == 11 {
        "b"
    } else if d == 12 {
        "c"
    } else if d == 13 {
        "d"
    } else if d == 14 {
        "e"
    } else {
        "f"
    };
    assert(text@ =~= seq![hex_char(d as nat)]);
    text
}

/// The address as it is written.
pub fn address_hex(address: &Address) -> (text: String)
    ensures
        text@ == address_text(address@),
{
    let mut text: String = String::from_str("0x");
    let mut i: usize = 0;
    assert(address@.take(0) =~= Seq::empty());
    assert("0x"@ + hex_of(address@.take(0)) =~= "0x"@);
    while i < 20
        invariant
            i <= 20,
            address@.len() == 20,
            text@ == "0x"@ + hex_of(address@.take(i as int)),
        decreases 20 - i,
    {
        let byte: u8 = address.bytes[i];
        let ghost before = text@;
        let ghost prefix = address@.take(i + 1);
        assert(prefix.drop_last() =~= address@.take(i as int));
        assert(prefix.last() == byte);
        text.append(hex_digit(byte / 16));
        text.append(hex_digit(byte % 16));
        assert(text@ =~= "0x"@ + hex_of(prefix));
        i += 1;
    }
    assert(address@.take(20) =~= address@);
    text
}

/// What a swap is made of.
#[derive(Clone, Copy, Debug, PartialEq, Eq)]
pub struct SwapParams {
    pub router: Address,
    pub token_in: Address,
    pub token_out: Address,
    pub amount_in: U256,
    pub min_out: U256,
    pub deadline: U256,
}

/// The transaction that a swap is sent as.
#[derive(Debug, PartialEq, Eq)]
pub struct SwapTransaction {
    pub from: Address,
    pub to: Address,
    pub value: U256,
    pub data: Vec<u8>,
}

/// What a connector to an exchange offers; both operations are refused for a
/// token that is not on the connector's safelist.
pub trait DexConnector {
    /// The amount of `token_out` that `amount_in` of `token_in` buys.
    fn quote(&self, token_in: Address, token_out: Address, amount_in: U256) -> Result<
        U256,
        EvmConnectorError,
    >;

    /// The transaction that performs the swap for the wallet at `sender`.
    fn execute_swap(&self, sender: Address, params: SwapParams) -> Result<
        SwapTransaction,
        EvmConnectorError,
    >;
}

/// The connector to a Uniswap V2 router.
pub struct UniswapV2Connector {
    pub safelist: Vec<Address>,
}

/// Whether `token` is among `safelist`.
pub open spec fn safelisted(safelist: Seq<Address>, token: Seq<u8>) -> bool {
    exists|i: int| 0 <= i < safelist.len() && #[trigger] safelist[i]@ == token
}

/// The result of the check of one token.
pub open spec fn safelist_check(safelist: Seq<Address>, token: Seq<u8>) -> Result<
    (),
    EvmConnectorErrorModel,
> {
    if safelisted(safelist, token) {
        Ok(())
    } else {
        Err(EvmConnectorErrorModel::TokenNotSafelisted(address_text(token)))
    }
}

/// The result of the check of the two tokens of a pair, the one given first.
pub open spec fn pair_check(safelist: Seq<Address>, token_in: Seq<u8>, token_out: Seq<u8>) -> Result<
    (),
    EvmConnectorErrorModel,
> {
    match safelist_check(safelist, token_in) {
        Ok(_) => safelist_check(safelist, token_out),
        Err(e) => Err(e),
    }
}

/// The views of the result of a check.
pub open spec fn check_view(r: Result<(), EvmConnectorError>) -> Result<(), EvmConnectorErrorModel> {
    match r {
        Ok(_) => Ok(()),
        Err(e) => Err(e@),
    }
}

impl UniswapV2Connector {
    /// A connector that trades the tokens of `safelist` and no others.
    pub fn new(safelist: Vec<Address>) -> (connector: UniswapV2Connector)
        ensures
            connector.safelist@ == safelist@,
    {
        UniswapV2Connector { safelist }
    }

    /// Passes a token that is on the safelist, and refuses any other.
    pub fn ensure_safelisted(&self, token: Address) -> (r: Result<(), EvmConnectorError>)
        ensures
            check_view(r) == safelist_check(self.safelist@, token@),
    {
        let n: usize = self.safelist.len();
        let mut i: usize = 0;
        while i < n
            invariant
                i <= n,
                n == self.safelist@.len(),
                forall|j: int| 0 <= j < i ==> self.safelist@[j]@ != token@,
            decreases n - i,
        {
            if self.safelist[i].same(&token) {
                return Ok(());
            }
            i += 1;
        }
        Err(EvmConnectorError::TokenNotSafelisted(address_hex(&token)))
    }

    fn ensure_pair(&self, token_in: Address, token_out: Address) -> (r: Result<
        (),
        EvmConnectorError,
    >)
        ensures
            check_view(r) == pair_check(self.safelist@, token_in@, token_out@),
    {
        match self.ensure_safelisted(token_in) {
            Ok(_) => self.ensure_safelisted(token_out),
            Err(e) => Err(e),
        }
    }
}

impl DexConnector for UniswapV2Connector {
    /// Quotes one for one: the amount that goes in is the amount that comes out.
    fn quote(&self, token_in: Address, token_out: Address, amount_in: U256) -> (r: Result<
        U256,
        EvmConnectorError,
    >)
        ensures
            match r {
                Ok(amount) => amount == amount_in && pair_check(
                    self.safelist@,
                    token_in@,
                    token_out@,
                ) is Ok,
                Err(e) => pair_check(self.safelist@, token_in@, token_out@) == Err::<
                    (),
                    EvmConnectorErrorModel,
                >(e@),
            },
    {
        match self.ensure_pair(token_in, token_out) {
            Ok(_) => Ok(amount_in),
            Err(e) => Err(e),
        }
    }

    /// The swap as a call of the router from `sender`, without value and
    /// without data.
    fn execute_swap(&self, sender: Address, params: SwapParams) -> (r: Result<
        SwapTransaction,
        EvmConnectorError,
    >)
        ensures
            match r {
                Ok(tx) => {
                    &&& pair_check(self.safelist@, params.token_in@, params.token_out@) is Ok
                    &&& tx.from == sender
                    &&& tx.to == params.router
                    &&& tx.value@ == seq![0u64, 0u64, 0u64, 0u64]
                    &&& tx.data@.len() == 0
                },
                Err(e) => pair_check(self.safelist@, params.token_in@, params.token_out@) == Err::<
                    (),
                    EvmConnectorErrorModel,
                >(e@),
            },
    {
        match self.ensure_pair(params.token_in, params.token_out) {
            Ok(_) => Ok(
                SwapTransaction {
                    from: sender,
                    to: params.router,
                    value: U256::zero(),
                    data: Vec::new(),
                },
            ),
            Err(e) => Err(e),
        }
    }
}

} // verus!
