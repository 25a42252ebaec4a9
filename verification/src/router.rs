//! Swap paths and the routers' decisions: which vault call a swap leg
//! makes, how a path splits into legs, the slippage and mark-price checks,
//! and what an increase of a position does with the tokens sent in. The
//! calls to the vault, the swap manager and the tokens are made around
//! these functions.

use vstd::prelude::*;
use crate::address::Address;
use crate::errors::{OmxError, RouterError};
use crate::uint::{u256_eq, u256_lt, U256};

verus! {

pub open spec fn re(e: RouterError) -> OmxError {
    OmxError::Router(e)
}

/// A swap path: two tokens, or three with an intermediate one.
#[derive(Clone, Copy, Debug, PartialEq, Eq, Structural)]
pub enum SwapPath {
    /// From `token_in` to `token_out` directly.
    Direct { token_in: Address, token_out: Address },
    /// From `token_in` to `token_out` through `intermediate`.
    Indirect { token_in: Address, token_out: Address, intermediate: Address },
}

/// The addresses of a path, in the order of the swap.
pub open spec fn path_seq(p: SwapPath) -> Seq<Address> {
    match p {
        SwapPath::Direct { token_in, token_out } => seq![token_in, token_out],
        SwapPath::Indirect { token_in, token_out, intermediate } => seq![
            token_in,
            intermediate,
            token_out,
        ],
    }
}

/// Reading a path from its addresses: two or three of them.
pub open spec fn swap_path_of(s: Seq<Address>) -> Result<SwapPath, OmxError> {
    if s.len() == 2 {
        Ok(SwapPath::Direct { token_in: s[0], token_out: s[1] })
    } else if s.len() == 3 {
        Ok(SwapPath::Indirect { token_in: s[0], intermediate: s[1], token_out: s[2] })
    } else {
        Err(re(RouterError::InvalidPath))
    }
}

impl SwapPath {
    pub open spec fn token_in_spec(self) -> Address {
        match self {
            SwapPath::Direct { token_in, .. } => token_in,
            SwapPath::Indirect { token_in, .. } => token_in,
        }
    }

    pub open spec fn token_out_spec(self) -> Address {
        match self {
            SwapPath::Direct { token_out, .. } => token_out,
            SwapPath::Indirect { token_out, .. } => token_out,
        }
    }

    /// Reads a path from its addresses; any length but two or three is `InvalidPath`.
    pub fn from_arr(path: &Vec<Address>) -> (r: Result<SwapPath, OmxError>)
        ensures
            r == swap_path_of(path@),
    {
        if path.len() == 2 {
            Ok(SwapPath::Direct { token_in: path[0], token_out: path[1] })
        } else if path.len() == 3 {
            Ok(SwapPath::Indirect { token_in: path[0], intermediate: path[1], token_out: path[2] })
        } else {
            Err(OmxError::Router(RouterError::InvalidPath))
        }
    }

    /// The path's addresses, in the order of the swap.
    pub fn to_vec(&self) -> (r: Vec<Address>)
        ensures
            r@ == path_seq(*self),
    {
        match self {
            SwapPath::Direct { token_in, token_out } => {
                let r = vec![*token_in, *token_out];
                assert(r@ =~= path_seq(*self));
                r
            },
            SwapPath::Indirect { token_in, intermediate, token_out } => {
                let r = vec![*token_in, *intermediate, *token_out];
                assert(r@ =~= path_seq(*self));
                r
            },
        }
    }

    pub fn token_in(&self) -> (r: Address)
        ensures
            r == self.token_in_spec(),
    {
        match self {
            SwapPath::Direct { token_in, .. } => *token_in,
            SwapPath::Indirect { token_in, .. } => *token_in,
        }
    }

    pub fn token_out(&self) -> (r: Address)
        ensures
            r == self.token_out_spec(),
    {
        match self {
            SwapPath::Direct { token_out, .. } => *token_out,
            SwapPath::Indirect { token_out, .. } => *token_out,
        }
    }

    /// The token the first leg buys: the intermediate one, or the last.
    pub fn second_token(&self) -> (r: Address)
        ensures
            r == path_seq(*self)[1],
    {
        match self {
            SwapPath::Direct { token_out, .. } => *token_out,
            SwapPath::Indirect { intermediate, .. } => *intermediate,
        }
    }

    pub fn intermediate(&self) -> (r: Option<Address>)
        ensures
            r == match *self {
                SwapPath::Direct { .. } => None,
                SwapPath::Indirect { intermediate, .. } => Some(intermediate),
            },
    {
        match self {
            SwapPath::Direct { .. } => None,
            SwapPath::Indirect { intermediate, .. } => Some(*intermediate),
        }
    }

    pub fn is_indirect(&self) -> (r: bool)
        ensures
            r == (*self is Indirect),
    {
        match self {
            SwapPath::Direct { .. } => false,
            SwapPath::Indirect { .. } => true,
        }
    }

    pub fn is_direct(&self) -> (r: bool)
        ensures
            r == (*self is Direct),
    {
        match self {
            SwapPath::Direct { .. } => true,
            SwapPath::Indirect { .. } => false,
        }
    }

    /// The two tokens of a direct path.
    pub fn unwrap_direct(&self) -> (r: (Address, Address))
        requires
            *self is Direct,
        ensures
            r == (self.token_in_spec(), self.token_out_spec()),
    {
        match self {
            SwapPath::Direct { token_in, token_out } => (*token_in, *token_out),
            SwapPath::Indirect { .. } => (Address::zero(), Address::zero()),
        }
    }

    /// The three tokens of an indirect path, in the order of the swap.
    pub fn unwrap_indirect(&self) -> (r: (Address, Address, Address))
        requires
            *self is Indirect,
        ensures
            r == (path_seq(*self)[0], path_seq(*self)[1], path_seq(*self)[2]),
    {
        match self {
            SwapPath::Direct { .. } => (Address::zero(), Address::zero(), Address::zero()),
            SwapPath::Indirect { token_in, token_out, intermediate } => (
                *token_in,
                *intermediate,
                *token_out,
            ),
        }
    }
}

/// Collateral for a position: a token sent as it is, or one swapped along a path.
#[derive(Clone, Copy, Debug, PartialEq, Eq, Structural)]
pub enum CollateralPath {
    Token(Address),
    Path(SwapPath),
}

/// Reading collateral from addresses: one token, or a swap path.
pub open spec fn collateral_path_of(s: Seq<Address>) -> Result<CollateralPath, OmxError> {
    if s.len() == 1 {
        Ok(CollateralPath::Token(s[0]))
    } else {
        match swap_path_of(s) {
            Ok(p) => Ok(CollateralPath::Path(p)),
            Err(e) => Err(e),
        }
    }
}

impl CollateralPath {
    pub open spec fn token_in_spec(self) -> Address {
        match self {
            CollateralPath::Token(t) => t,
            CollateralPath::Path(p) => p.token_in_spec(),
        }
    }

    pub open spec fn token_out_spec(self) -> Address {
        match self {
            CollateralPath::Token(t) => t,
            CollateralPath::Path(p) => p.token_out_spec(),
        }
    }

    pub fn from_arr(path: &Vec<Address>) -> (r: Result<CollateralPath, OmxError>)
        ensures
            r == collateral_path_of(path@),
    {
        if path.len() == 1 {
            Ok(CollateralPath::Token(path[0]))
        } else {
            match SwapPath::from_arr(path) {
                Ok(p) => Ok(CollateralPath::Path(p)),
                Err(e) => Err(e),
            }
        }
    }

    pub fn is_token(&self) -> (r: bool)
        ensures
            r == (*self is Token),
    {
        match self {
            CollateralPath::Token(_) => true,
            CollateralPath::Path(_) => false,
        }
    }

    pub fn is_path(&self) -> (r: bool)
        ensures
            r == (*self is Path),
    {
        match self {
            CollateralPath::Token(_) => false,
            CollateralPath::Path(_) => true,
        }
    }

    pub fn unwrap_token(&self) -> (r: Address)
        requires
            *self is Token,
        ensures
            r == self.token_in_spec(),
    {
        match self {
            CollateralPath::Token(t) => *t,
            CollateralPath::Path(_) => Address::zero(),
        }
    }

    pub fn unwrap_path(&self) -> (r: SwapPath)
        requires
            *self is Path,
        ensures
            CollateralPath::Path(r) == *self,
    {
        match self {
            CollateralPath::Token(t) => SwapPath::Direct { token_in: *t, token_out: *t },
            CollateralPath::Path(p) => *p,
        }
    }

    pub fn is_direct(&self) -> (r: bool)
        ensures
            r == (*self matches CollateralPath::Path(p) && p is Direct),
    {
        match self {
            CollateralPath::Token(_) => false,
            CollateralPath::Path(p) => p.is_direct(),
        }
    }

    pub fn is_indirect(&self) -> (r: bool)
        ensures
            r == (*self matches CollateralPath::Path(p) && p is Indirect),
    {
        match self {
            CollateralPath::Token(_) => false,
            CollateralPath::Path(p) => p.is_indirect(),
        }
    }

    pub fn unwrap_direct(&self) -> (r: (Address, Address))
        requires
            *self matches CollateralPath::Path(p) && p is Direct,
        ensures
            r == (self.token_in_spec(), self.token_out_spec()),
    {
        match self {
            CollateralPath::Token(t) => (*t, *t),
            CollateralPath::Path(p) => p.unwrap_direct(),
        }
    }

    pub fn unwrap_indirect(&self) -> (r: (Address, Address, Address))
        requires
            *self matches CollateralPath::Path(p) && p is Indirect,
        ensures
            *self matches CollateralPath::Path(p) && r == (
                path_seq(p)[0],
                path_seq(p)[1],
                path_seq(p)[2],
            ),
    {
        match self {
            CollateralPath::Token(t) => (*t, *t, *t),
            CollateralPath::Path(p) => p.unwrap_indirect(),
        }
    }

    pub fn token_in(&self) -> (r: Address)
        ensures
            r == self.token_in_spec(),
    {
        match self {
            CollateralPath::Token(t) => *t,
            CollateralPath::Path(p) => p.token_in(),
        }
    }

    pub fn token_out(&self) -> (r: Address)
        ensures
            r == self.token_out_spec(),
    {
        match self {
            CollateralPath::Token(t) => *t,
            CollateralPath::Path(p) => p.token_out(),
        }
    }
}

/// Writing a path out and reading it back gives the same path, and a path
/// read from addresses writes out as those addresses.
pub proof fn lemma_swap_path_round_trip(p: SwapPath, s: Seq<Address>)
    ensures
        swap_path_of(path_seq(p)) == Ok::<SwapPath, OmxError>(p),
        swap_path_of(s) matches Ok(q) ==> path_seq(q) =~= s,
{
}

/// Which call to the swap manager a leg from `token_in` to `token_out` makes.
#[derive(Clone, Copy, Debug, PartialEq, Eq, Structural)]
pub enum VaultRoute {
    /// Selling a token for USDO.
    BuyUsdo,
    /// Selling USDO for a token.
    SellUsdo,
    /// Swapping two pool tokens.
    Swap,
}

pub open spec fn vault_route_spec(token_in: Address, token_out: Address, usdo: Address) -> VaultRoute {
    if token_out == usdo {
        VaultRoute::BuyUsdo
    } else if token_in == usdo {
        VaultRoute::SellUsdo
    } else {
        VaultRoute::Swap
    }
}

/// Buying USDO takes precedence, then selling it, else a plain swap.
pub fn vault_route(token_in: Address, token_out: Address, usdo: Address) -> (r: VaultRoute)
    ensures
        r == vault_route_spec(token_in, token_out, usdo),
{
    if token_out == usdo {
        VaultRoute::BuyUsdo
    } else if token_in == usdo {
        VaultRoute::SellUsdo
    } else {
        VaultRoute::Swap
    }
}

/// The output of a leg must reach the minimum asked for.
pub fn check_amount_out(amount_out: U256, min_out: U256) -> (r: Result<U256, OmxError>)
    ensures
        r == if amount_out@ < min_out@ {
            Err::<U256, OmxError>(re(RouterError::InsufficientAmountOut))
        } else {
            Ok(amount_out)
        },
{
    if u256_lt(amount_out, min_out) {
        Err(OmxError::Router(RouterError::InsufficientAmountOut))
    } else {
        Ok(amount_out)
    }
}

/// One call to the swap manager: what it sells and buys, the least it may
/// return, and who receives the output.
#[derive(Clone, Copy, Debug)]
pub struct SwapLeg {
    pub token_in: Address,
    pub token_out: Address,
    pub min_out: U256,
    pub receiver: Address,
    pub route: VaultRoute,
}

/// A swap along `path`. A direct path is one leg. An indirect path first
/// buys the intermediate token for the router itself (`this`) with no
/// minimum; the router sends that output back to the vault, and the second
/// leg buys the last token for the receiver, with the minimum.
pub open spec fn swap_plan_spec(
    path: SwapPath,
    min_out: U256,
    receiver: Address,
    this: Address,
    usdo: Address,
) -> (SwapLeg, Option<SwapLeg>) {
    match path {
        SwapPath::Direct { token_in, token_out } => (
            SwapLeg {
                token_in,
                token_out,
                min_out,
                receiver,
                route: vault_route_spec(token_in, token_out, usdo),
            },
            None,
        ),
        SwapPath::Indirect { token_in, token_out, intermediate } => (
            SwapLeg {
                token_in,
                token_out: intermediate,
                min_out: U256::zero_word(),
                receiver: this,
                route: vault_route_spec(token_in, intermediate, usdo),
            },
            Some(
                SwapLeg {
                    token_in: intermediate,
                    token_out,
                    min_out,
                    receiver,
                    route: vault_route_spec(intermediate, token_out, usdo),
                },
            ),
        ),
    }
}

pub fn plan_swap(path: SwapPath, min_out: U256, receiver: Address, this: Address, usdo: Address) -> (r: (
    SwapLeg,
    Option<SwapLeg>,
))
    ensures
        r == swap_plan_spec(path, min_out, receiver, this, usdo),
{
    match path {
        SwapPath::Direct { token_in, token_out } => (
            SwapLeg {
                token_in,
                token_out,
                min_out,
                receiver,
                route: vault_route(token_in, token_out, usdo),
            },
            None,
        ),
        SwapPath::Indirect { token_in, token_out, intermediate } => (
            SwapLeg {
                token_in,
                token_out: intermediate,
                min_out: U256::zero(),
                receiver: this,
                route: vault_route(token_in, intermediate, usdo),
            },
            Some(
                SwapLeg {
                    token_in: intermediate,
                    token_out,
                    min_out,
                    receiver,
                    route: vault_route(intermediate, token_out, usdo),
                },
            ),
        ),
    }
}

/// The routers' entry points other than `init` refuse a router that was not
/// set up, with `AlreadyInitialized`.
pub fn check_router_initialized(initialized: bool) -> (r: Result<(), OmxError>)
    ensures
        r == if initialized {
            Ok::<(), OmxError>(())
        } else {
            Err(re(RouterError::AlreadyInitialized))
        },
{
    if initialized {
        Ok(())
    } else {
        Err(OmxError::Router(RouterError::AlreadyInitialized))
    }
}

/// The mark price an increase accepts: a long buys at no more than
/// `limit`, a short sells at no less.
pub fn check_increase_price(is_long: bool, current_price: U256, limit: U256) -> (r: Result<
    (),
    OmxError,
>)
    ensures
        r == if is_long && current_price@ > limit@ {
            Err::<(), OmxError>(re(RouterError::HighMarkPrice))
        } else if !is_long && current_price@ < limit@ {
            Err(re(RouterError::LowMarkPrice))
        } else {
            Ok(())
        },
{
    if is_long {
        if u256_lt(limit, current_price) {
            return Err(OmxError::Router(RouterError::HighMarkPrice));
        }
    } else if u256_lt(current_price, limit) {
        return Err(OmxError::Router(RouterError::LowMarkPrice));
    }
    Ok(())
}

/// The mark price a decrease accepts: a long sells at no less than
/// `limit`, a short buys back at no more.
pub fn check_decrease_price(is_long: bool, current_price: U256, limit: U256) -> (r: Result<
    (),
    OmxError,
>)
    ensures
        r == if is_long && current_price@ < limit@ {
            Err::<(), OmxError>(re(RouterError::LowMarkPrice))
        } else if !is_long && current_price@ > limit@ {
            Err(re(RouterError::HighMarkPrice))
        } else {
            Ok(())
        },
{
    if is_long {
        if u256_lt(current_price, limit) {
            return Err(OmxError::Router(RouterError::LowMarkPrice));
        }
    } else if u256_lt(limit, current_price) {
        return Err(OmxError::Router(RouterError::HighMarkPrice));
    }
    Ok(())
}

/// What an increase of a position does with what was sent in: whether the
/// amount is pulled into the vault, the swap made on the way (whose output
/// the router forwards to the vault), and the collateral token of the position.
#[derive(Clone, Copy, Debug, PartialEq, Eq, Structural)]
pub struct IncreaseRoute {
    pub pull_in: bool,
    pub swap: Option<SwapPath>,
    pub collateral_token: Address,
}

pub open spec fn increase_route_spec(path: CollateralPath, sent: nat) -> IncreaseRoute {
    IncreaseRoute {
        pull_in: sent > 0,
        swap: match path {
            CollateralPath::Path(p) => if sent > 0 {
                Some(p)
            } else {
                None
            },
            CollateralPath::Token(_) => None,
        },
        collateral_token: path.token_out_spec(),
    }
}

/// Increasing with `amount_in` of the path's first token.
pub fn plan_increase(path: CollateralPath, amount_in: U256) -> (r: IncreaseRoute)
    ensures
        r == increase_route_spec(path, amount_in@),
{
    let sent = u256_lt(U256::zero(), amount_in);
    let swap = match path {
        CollateralPath::Path(p) => if sent {
            Some(p)
        } else {
            None
        },
        CollateralPath::Token(_) => None,
    };
    IncreaseRoute { pull_in: sent, swap, collateral_token: path.token_out() }
}

/// Increasing with the ether sent: the path must start at wrapped ether.
pub fn plan_increase_eth(path: CollateralPath, weth: Address, value: U256) -> (r: Result<
    IncreaseRoute,
    OmxError,
>)
    ensures
        r == if path.token_in_spec() != weth {
            Err::<IncreaseRoute, OmxError>(re(RouterError::InvalidTokenIn))
        } else {
            Ok(increase_route_spec(path, value@))
        },
{
    if path.token_in() != weth {
        return Err(OmxError::Router(RouterError::InvalidTokenIn));
    }
    Ok(plan_increase(path, value))
}

/// The router check of the position managers: a call from the account
/// itself or from the router passes, and so does any other call.
pub fn validate_router(sender: Address, account: Address, router: Address) -> (r: Result<(), OmxError>)
    ensures
        r is Ok,
{
    if sender == account || sender == router {
        return Ok(());
    }
    Ok(())
}

} // verus!
