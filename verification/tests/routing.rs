use omx::address::Address;
use omx::errors::{MathError, OmxError, OrderbookError, RouterError};
use omx::orderbook::{
    cancel_increase_order, cancel_order, cancel_swap_order, create_increase_order,
    create_swap_order, get_increase_order, get_order, get_swap_order, IncreaseOrder, OrderBook, SwapOrder, SwapRefund,
};
use omx::router::{
    check_amount_out, check_decrease_price, check_increase_price, check_router_initialized,
    plan_increase, plan_increase_eth, plan_swap, validate_router, vault_route, CollateralPath,
    SwapPath, VaultRoute,
};
use omx::uint::U256;

fn u(x: u128) -> U256 {
    U256 { limbs: [x as u64, (x >> 64) as u64, 0, 0] }
}

fn max() -> U256 {
    U256 { limbs: [u64::MAX; 4] }
}

fn addr(n: u64) -> Address {
    Address { hi: 0, mid: 0, lo: n }
}

fn increase_order(collateral_amount: u128, execution_fee: u128) -> IncreaseOrder {
    IncreaseOrder {
        collateral_amount: u(collateral_amount),
        collateral_token: addr(10),
        index_token: addr(11),
        size_delta: u(5000),
        is_long: true,
        trigger_price: u(1234),
        trigger_above_threshold: false,
        execution_fee: u(execution_fee),
    }
}

fn swap_order(token_in: Address, amount_in: U256, execution_fee: U256) -> SwapOrder {
    SwapOrder {
        token_in,
        token_out: addr(21),
        amount_in,
        min_out: u(1),
        trigger_ratio: u(2),
        trigger_above_threshold: true,
        execution_fee,
    }
}

#[test]
fn increase_orders_are_numbered_and_read_back() {
    let mut book: OrderBook<IncreaseOrder> = OrderBook::new();
    let account = addr(1);
    let order = increase_order(100, 1000);
    assert_eq!(create_increase_order(&mut book, true, account, order, u(1000)), Ok(u(0)));
    assert_eq!(create_increase_order(&mut book, true, account, increase_order(7, 2000), u(2000)), Ok(u(1)));
    assert_eq!(book.next_index, u(2));
    let (owner, found) = get_order(&book, u(0)).unwrap();
    assert_eq!(owner, account);
    assert_eq!(found.collateral_amount, u(100));
    assert_eq!(found.trigger_price, u(1234));
    let (_, second) = get_order(&book, u(1)).unwrap();
    assert_eq!(second.collateral_amount, u(7));
    assert!(matches!(
        get_order(&book, u(2)),
        Err(OmxError::Orderbook(OrderbookError::OrderNotFound { order_index })) if order_index == u(2)
    ));
}

#[test]
fn increase_orders_are_checked_before_they_are_placed() {
    let mut book: OrderBook<IncreaseOrder> = OrderBook::new();
    let account = addr(1);
    assert_eq!(
        create_increase_order(&mut book, false, account, increase_order(100, 1000), u(1000)),
        Err(OmxError::Orderbook(OrderbookError::AlreadyInitialized))
    );
    assert_eq!(
        create_increase_order(&mut book, true, account, increase_order(0, 1000), u(1000)),
        Err(OmxError::Orderbook(OrderbookError::ZeroCollateralAmount))
    );
    assert_eq!(
        create_increase_order(&mut book, true, account, increase_order(100, 999), u(999)),
        Err(OmxError::Orderbook(OrderbookError::InsufficientExecutionFee { min_execution_fee: u(1000) }))
    );
    assert_eq!(
        create_increase_order(&mut book, true, account, increase_order(100, 1500), u(1000)),
        Err(OmxError::Orderbook(OrderbookError::IncorrectFeeTransferred { expected: u(1500) }))
    );
    assert_eq!(book.next_index, u(0));
}

#[test]
fn cancelled_orders_are_gone() {
    let mut book: OrderBook<IncreaseOrder> = OrderBook::new();
    let account = addr(1);
    create_increase_order(&mut book, true, account, increase_order(100, 1000), u(1000)).unwrap();
    let (owner, cancelled) = cancel_order(&mut book, u(0)).unwrap();
    assert_eq!(owner, account);
    assert_eq!(cancelled.execution_fee, u(1000));
    assert!(matches!(
        get_order(&book, u(0)),
        Err(OmxError::Orderbook(OrderbookError::OrderNotFound { .. }))
    ));
    assert!(matches!(
        cancel_order(&mut book, u(0)),
        Err(OmxError::Orderbook(OrderbookError::OrderNotFound { .. }))
    ));
    // Numbers are not reused.
    assert_eq!(create_increase_order(&mut book, true, account, increase_order(1, 1000), u(1000)), Ok(u(1)));
}

#[test]
fn increase_order_cancellation_returns_collateral_and_fee() {
    let mut book: OrderBook<IncreaseOrder> = OrderBook::new();
    let account = addr(1);
    create_increase_order(&mut book, true, account, increase_order(100, 1000), u(1000)).unwrap();
    let (owner, found) = get_increase_order(&book, u(0)).unwrap();
    assert_eq!(owner, account);
    assert_eq!(found.size_delta, u(5000));
    let refund = cancel_increase_order(&mut book, u(0)).unwrap();
    assert_eq!(refund.collateral_token, addr(10));
    assert_eq!(refund.collateral_amount, u(100));
    assert_eq!(refund.execution_fee, u(1000));
    assert!(matches!(
        get_increase_order(&book, u(0)),
        Err(OmxError::Orderbook(OrderbookError::OrderNotFound { .. }))
    ));
    assert!(matches!(
        cancel_increase_order(&mut book, u(0)),
        Err(OmxError::Orderbook(OrderbookError::OrderNotFound { order_index })) if order_index == u(0)
    ));
    assert_eq!(book.next_index, u(1));
}

#[test]
fn swap_order_refunds_depend_on_the_token_sold() {
    let weth = addr(99);
    let mut book: OrderBook<SwapOrder> = OrderBook::new();
    let account = addr(1);
    assert_eq!(
        create_swap_order(&mut book, true, account, swap_order(weth, u(0), u(1000)), u(1000)),
        Err(OmxError::Orderbook(OrderbookError::ZeroAmountIn))
    );
    create_swap_order(&mut book, true, account, swap_order(weth, u(50), u(1000)), u(1000)).unwrap();
    create_swap_order(&mut book, true, account, swap_order(addr(20), u(60), u(1200)), u(1200)).unwrap();
    let (_, read_back) = get_swap_order(&book, u(1)).unwrap();
    assert_eq!(read_back.amount_in, u(60));
    let (order, refund) = cancel_swap_order(&mut book, weth, u(0)).unwrap();
    assert_eq!(order.amount_in, u(50));
    assert!(matches!(refund, SwapRefund::Ether { amount } if amount == u(1050)));
    let (_, refund) = cancel_swap_order(&mut book, weth, u(1)).unwrap();
    assert!(matches!(
        refund,
        SwapRefund::TokenAndEther { token, amount, execution_fee }
            if token == addr(20) && amount == u(60) && execution_fee == u(1200)
    ));
    assert!(matches!(
        cancel_swap_order(&mut book, weth, u(1)),
        Err(OmxError::Orderbook(OrderbookError::OrderNotFound { .. }))
    ));
}

#[test]
fn swap_order_ether_refund_overflow_leaves_the_order() {
    let weth = addr(99);
    let mut book: OrderBook<SwapOrder> = OrderBook::new();
    let account = addr(1);
    create_swap_order(&mut book, true, account, swap_order(weth, max(), u(1000)), u(1000)).unwrap();
    assert!(matches!(
        cancel_swap_order(&mut book, weth, u(0)),
        Err(OmxError::Math(MathError::AddOverflow))
    ));
    assert!(get_order(&book, u(0)).is_ok());
}

#[test]
fn swap_paths_read_from_addresses() {
    let (a, b, c) = (addr(1), addr(2), addr(3));
    let direct = SwapPath::from_arr(&vec![a, b]).unwrap();
    assert_eq!(direct, SwapPath::Direct { token_in: a, token_out: b });
    assert!(direct.is_direct());
    assert_eq!(direct.second_token(), b);
    assert_eq!(direct.intermediate(), None);
    assert_eq!(direct.unwrap_direct(), (a, b));
    let indirect = SwapPath::from_arr(&vec![a, b, c]).unwrap();
    assert_eq!(indirect, SwapPath::Indirect { token_in: a, intermediate: b, token_out: c });
    assert!(indirect.is_indirect());
    assert_eq!(indirect.token_in(), a);
    assert_eq!(indirect.token_out(), c);
    assert_eq!(indirect.second_token(), b);
    assert_eq!(indirect.intermediate(), Some(b));
    assert_eq!(indirect.unwrap_indirect(), (a, b, c));
    assert_eq!(indirect.to_vec(), vec![a, b, c]);
    assert_eq!(SwapPath::from_arr(&vec![a]), Err(OmxError::Router(RouterError::InvalidPath)));
    assert_eq!(
        SwapPath::from_arr(&vec![a, b, c, a]),
        Err(OmxError::Router(RouterError::InvalidPath))
    );
    // Writing a path out and reading it back gives the same path.
    assert_eq!(SwapPath::from_arr(&indirect.to_vec()), Ok(indirect));
    assert_eq!(SwapPath::from_arr(&direct.to_vec()), Ok(direct));
}

#[test]
fn collateral_paths_read_from_addresses() {
    let (a, b, c) = (addr(1), addr(2), addr(3));
    let token = CollateralPath::from_arr(&vec![a]).unwrap();
    assert!(token.is_token());
    assert_eq!(token.unwrap_token(), a);
    assert_eq!(token.token_in(), a);
    assert_eq!(token.token_out(), a);
    assert!(!token.is_direct() && !token.is_indirect());
    let path = CollateralPath::from_arr(&vec![a, b, c]).unwrap();
    assert!(path.is_path() && path.is_indirect());
    assert_eq!(path.token_in(), a);
    assert_eq!(path.token_out(), c);
    assert_eq!(path.unwrap_indirect(), (a, b, c));
    assert_eq!(path.unwrap_path(), SwapPath::Indirect { token_in: a, intermediate: b, token_out: c });
    let direct = CollateralPath::from_arr(&vec![a, b]).unwrap();
    assert!(direct.is_direct());
    assert_eq!(direct.unwrap_direct(), (a, b));
    assert_eq!(CollateralPath::from_arr(&vec![]), Err(OmxError::Router(RouterError::InvalidPath)));
}

#[test]
fn swap_legs_follow_the_path() {
    let (a, b, usdo, me, receiver) = (addr(1), addr(2), addr(50), addr(60), addr(70));
    assert_eq!(vault_route(a, usdo, usdo), VaultRoute::BuyUsdo);
    assert_eq!(vault_route(usdo, a, usdo), VaultRoute::SellUsdo);
    assert_eq!(vault_route(a, b, usdo), VaultRoute::Swap);
    let (first, second) = plan_swap(SwapPath::Direct { token_in: a, token_out: usdo }, u(9), receiver, me, usdo);
    assert_eq!(first.route, VaultRoute::BuyUsdo);
    assert_eq!(first.receiver, receiver);
    assert_eq!(first.min_out, u(9));
    assert!(second.is_none());
    let (first, second) = plan_swap(
        SwapPath::Indirect { token_in: a, intermediate: usdo, token_out: b },
        u(9),
        receiver,
        me,
        usdo,
    );
    assert_eq!(first.token_out, usdo);
    assert_eq!(first.receiver, me);
    assert_eq!(first.min_out, u(0));
    assert_eq!(first.route, VaultRoute::BuyUsdo);
    let second = second.unwrap();
    assert_eq!(second.token_in, usdo);
    assert_eq!(second.token_out, b);
    assert_eq!(second.receiver, receiver);
    assert_eq!(second.min_out, u(9));
    assert_eq!(second.route, VaultRoute::SellUsdo);
    assert_eq!(check_amount_out(u(10), u(9)), Ok(u(10)));
    assert_eq!(check_amount_out(u(8), u(9)), Err(OmxError::Router(RouterError::InsufficientAmountOut)));
}

#[test]
fn mark_price_limits_protect_the_trader() {
    assert_eq!(check_increase_price(true, u(100), u(100)), Ok(()));
    assert_eq!(check_increase_price(true, u(101), u(100)), Err(OmxError::Router(RouterError::HighMarkPrice)));
    assert_eq!(check_increase_price(false, u(99), u(100)), Err(OmxError::Router(RouterError::LowMarkPrice)));
    assert_eq!(check_decrease_price(true, u(99), u(100)), Err(OmxError::Router(RouterError::LowMarkPrice)));
    assert_eq!(check_decrease_price(false, u(101), u(100)), Err(OmxError::Router(RouterError::HighMarkPrice)));
    assert_eq!(check_decrease_price(false, u(100), u(100)), Ok(()));
    assert_eq!(check_router_initialized(false), Err(OmxError::Router(RouterError::AlreadyInitialized)));
    assert_eq!(check_router_initialized(true), Ok(()));
    assert_eq!(validate_router(addr(5), addr(6), addr(7)), Ok(()));
}

#[test]
fn increases_route_what_was_sent() {
    let (a, b, weth) = (addr(1), addr(2), addr(99));
    let path = CollateralPath::Path(SwapPath::Direct { token_in: a, token_out: b });
    let route = plan_increase(path, u(5));
    assert!(route.pull_in);
    assert_eq!(route.swap, Some(SwapPath::Direct { token_in: a, token_out: b }));
    assert_eq!(route.collateral_token, b);
    let route = plan_increase(path, u(0));
    assert!(!route.pull_in);
    assert_eq!(route.swap, None);
    let route = plan_increase(CollateralPath::Token(a), u(5));
    assert_eq!(route.swap, None);
    assert_eq!(route.collateral_token, a);
    assert_eq!(plan_increase_eth(path, weth, u(5)), Err(OmxError::Router(RouterError::InvalidTokenIn)));
    let eth_path = CollateralPath::Path(SwapPath::Direct { token_in: weth, token_out: b });
    assert_eq!(plan_increase_eth(eth_path, weth, u(5)).unwrap().collateral_token, b);
}
