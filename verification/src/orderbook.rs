//! The order books: each account's pending orders, numbered from 0 upwards,
//! with the checks made when an order is placed and the refunds owed when
//! it is cancelled. Pulling the tokens in and paying refunds out are calls
//! to other contracts, made around these functions.

use vstd::prelude::*;
use crate::address::Address;
use crate::constants::{min_execution_fee, min_execution_fee_value, min_execution_fee_word};
use crate::errors::{MathError, OmxError, OrderbookError};
use crate::safe_math::{add_spec, rv, safe_add};
use crate::uint::{u256_eq, u256_lt, u256_max, U256};

verus! {

/// One numbered order of an account. A cancelled order keeps its slot with
/// the zero address as its account, as a deleted storage entry reads.
#[derive(Clone, Copy, Debug)]
pub struct OrderSlot<O> {
    pub index: U256,
    pub account: Address,
    pub order: O,
}

/// The orders one account has placed, and the number its next order gets.
pub struct OrderBook<O> {
    pub next_index: U256,
    pub slots: Vec<OrderSlot<O>>,
}

/// The last slot written for number `index`, if any.
pub open spec fn slot_in<O>(s: Seq<OrderSlot<O>>, index: nat) -> Option<OrderSlot<O>>
    decreases s.len(),
{
    if s.len() == 0 {
        None
    } else if s.last().index@ == index {
        Some(s.last())
    } else {
        slot_in(s.drop_last(), index)
    }
}

/// The live order numbered `index`: written, and not cancelled.
pub open spec fn order_at<O>(s: Seq<OrderSlot<O>>, index: nat) -> Option<(Address, O)> {
    match slot_in(s, index) {
        Some(slot) => if slot.account.is_zero_spec() {
            None
        } else {
            Some((slot.account, slot.order))
        },
        None => None,
    }
}

/// An order book as the next number and the live orders by number.
pub struct OrderBookV<O> {
    pub next_index: nat,
    pub orders: Map<nat, (Address, O)>,
}

impl<O> View for OrderBook<O> {
    type V = OrderBookV<O>;

    open spec fn view(&self) -> OrderBookV<O> {
        OrderBookV {
            next_index: self.next_index@,
            orders: Map::new(
                |i: nat| order_at(self.slots@, i) is Some,
                |i: nat| order_at(self.slots@, i).unwrap(),
            ),
        }
    }
}

proof fn lemma_slot_absent<O>(s: Seq<OrderSlot<O>>, index: nat)
    requires
        forall|j: int| 0 <= j < s.len() ==> s[j].index@ != index,
    ensures
        slot_in(s, index) is None,
    decreases s.len(),
{
    if s.len() > 0 {
        lemma_slot_absent(s.drop_last(), index);
    }
}

proof fn lemma_slot_last_match<O>(s: Seq<OrderSlot<O>>, k: int)
    requires
        0 <= k < s.len(),
        forall|j: int| k < j < s.len() ==> s[j].index@ != s[k].index@,
    ensures
        slot_in(s, s[k].index@) == Some(s[k]),
    decreases s.len(),
{
    if k < s.len() - 1 {
        lemma_slot_last_match(s.drop_last(), k);
    }
}

proof fn lemma_slot_update<O>(s: Seq<OrderSlot<O>>, k: int, e: OrderSlot<O>, i: nat)
    requires
        0 <= k < s.len(),
        s[k].index@ == e.index@,
        forall|j: int| k < j < s.len() ==> s[j].index@ != e.index@,
    ensures
        slot_in(s.update(k, e), i) == if i == e.index@ {
            Some(e)
        } else {
            slot_in(s, i)
        },
    decreases s.len(),
{
    if k == s.len() - 1 {
        assert(s.update(k, e).drop_last() =~= s.drop_last());
    } else {
        assert(s.update(k, e).drop_last() =~= s.drop_last().update(k, e));
        lemma_slot_update(s.drop_last(), k, e, i);
    }
}

/// The position of the last slot for number `index`, if any.
fn find_slot<O>(slots: &Vec<OrderSlot<O>>, index: U256) -> (r: Option<usize>)
    ensures
        match r {
            Some(k) => {
                &&& k < slots.len()
                &&& slots@[k as int].index@ == index@
                &&& forall|j: int| k < j < slots.len() ==> slots@[j].index@ != index@
            },
            None => forall|j: int| 0 <= j < slots.len() ==> slots@[j].index@ != index@,
        },
{
    let mut k: usize = slots.len();
    while k > 0
        invariant
            k <= slots.len(),
            forall|j: int| k <= j < slots.len() ==> slots@[j].index@ != index@,
        decreases k,
    {
        k = k - 1;
        if u256_eq(slots[k].index, index) {
            return Some(k);
        }
    }
    None
}

impl<O: Copy> OrderBook<O> {
    /// An account that has placed no order yet.
    pub fn new() -> (r: OrderBook<O>)
        ensures
            r@.next_index == 0,
            r@.orders =~= Map::<nat, (Address, O)>::empty(),
    {
        let r = OrderBook { next_index: U256::zero(), slots: Vec::new() };
        assert(r@.orders =~= Map::<nat, (Address, O)>::empty());
        r
    }

    /// The live order numbered `index`, if any.
    pub fn lookup(&self, index: U256) -> (r: Option<(Address, O)>)
        ensures
            r == order_at(self.slots@, index@),
    {
        match find_slot(&self.slots, index) {
            Some(k) => {
                proof {
                    lemma_slot_last_match(self.slots@, k as int);
                }
                let slot = self.slots[k];
                if slot.account.is_zero() {
                    None
                } else {
                    Some((slot.account, slot.order))
                }
            },
            None => {
                proof {
                    lemma_slot_absent(self.slots@, index@);
                }
                None
            },
        }
    }

    /// Writes the slot for number `index`.
    fn write_slot(&mut self, index: U256, account: Address, order: O)
        ensures
            final(self).next_index == old(self).next_index,
            forall|i: nat|
                #![trigger order_at(final(self).slots@, i)]
                order_at(final(self).slots@, i) == if i == index@ {
                    if account.is_zero_spec() {
                        None
                    } else {
                        Some((account, order))
                    }
                } else {
                    order_at(old(self).slots@, i)
                },
    {
        let e = OrderSlot { index, account, order };
        let ghost s = self.slots@;
        match find_slot(&self.slots, index) {
            Some(k) => {
                proof {
                    assert forall|i: nat| #![auto]
                        slot_in(s.update(k as int, e), i) == if i == index@ {
                            Some(e)
                        } else {
                            slot_in(s, i)
                        } by {
                        lemma_slot_update(s, k as int, e, i);
                    }
                }
                self.slots.set(k, e);
                assert(self.slots@ == s.update(k as int, e));
            },
            None => {
                proof {
                    assert forall|i: nat| #![auto]
                        slot_in(s.push(e), i) == if i == index@ {
                            Some(e)
                        } else {
                            slot_in(s, i)
                        } by {
                        assert(s.push(e).drop_last() =~= s);
                    }
                }
                self.slots.push(e);
                assert(self.slots@ == s.push(e));
            },
        }
    }
}

/// Placing an order: it gets the next number, which then moves up by one.
pub open spec fn create_order_spec<O>(v: OrderBookV<O>, account: Address, order: O) -> Result<
    OrderBookV<O>,
    OmxError,
> {
    if v.next_index + 1 > u256_max() {
        Err(OmxError::Math(MathError::AddOverflow))
    } else {
        Ok(
            OrderBookV {
                next_index: v.next_index + 1,
                orders: if account.is_zero_spec() {
                    v.orders.remove(v.next_index)
                } else {
                    v.orders.insert(v.next_index, (account, order))
                },
            },
        )
    }
}

/// Records `order` under the account's next number and returns that number.
pub fn create_order<O: Copy>(book: &mut OrderBook<O>, account: Address, order: O) -> (r: Result<
    U256,
    OmxError,
>)
    ensures
        match create_order_spec(old(book)@, account, order) {
            Ok(v) => r matches Ok(index) && index@ == old(book)@.next_index && final(book)@ == v,
            Err(e) => r == Err::<U256, OmxError>(e) && final(book)@ == old(book)@,
        },
{
    let index = book.next_index;
    let next = match safe_add(index, U256::from_u64(1)) {
        Ok(n) => n,
        Err(e) => return Err(e),
    };
    let ghost before = book@;
    book.write_slot(index, account, order);
    book.next_index = next;
    proof {
        let w = create_order_spec(before, account, order).unwrap();
        assert(book@.orders =~= w.orders);
    }
    Ok(index)
}

/// The live order numbered `order_index`, or `OrderNotFound`.
pub fn get_order<O: Copy>(book: &OrderBook<O>, order_index: U256) -> (r: Result<
    (Address, O),
    OmxError,
>)
    ensures
        match r {
            Ok(o) => book@.orders.contains_key(order_index@) && o == book@.orders[order_index@],
            Err(e) => !book@.orders.contains_key(order_index@) && e == OmxError::Orderbook(
                OrderbookError::OrderNotFound { order_index },
            ),
        },
{
    match book.lookup(order_index) {
        Some(o) => Ok(o),
        None => Err(OmxError::Orderbook(OrderbookError::OrderNotFound { order_index })),
    }
}

/// Cancels the order numbered `order_index` and hands it back, or fails
/// with `OrderNotFound`, leaving the book as it was.
pub fn cancel_order<O: Copy>(book: &mut OrderBook<O>, order_index: U256) -> (r: Result<
    (Address, O),
    OmxError,
>)
    ensures
        match r {
            Ok(o) => {
                &&& old(book)@.orders.contains_key(order_index@)
                &&& o == old(book)@.orders[order_index@]
                &&& final(book)@.next_index == old(book)@.next_index
                &&& final(book)@.orders == old(book)@.orders.remove(order_index@)
            },
            Err(e) => {
                &&& !old(book)@.orders.contains_key(order_index@)
                &&& e == OmxError::Orderbook(OrderbookError::OrderNotFound { order_index })
                &&& final(book)@ == old(book)@
            },
        },
{
    let found = match book.lookup(order_index) {
        Some(o) => o,
        None => return Err(OmxError::Orderbook(OrderbookError::OrderNotFound { order_index })),
    };
    let ghost before = book@;
    book.write_slot(order_index, Address::zero(), found.1);
    assert(book@.orders =~= before.orders.remove(order_index@));
    Ok(found)
}

/// An order to open or grow a position once the index price crosses the trigger.
#[derive(Clone, Copy, Debug)]
pub struct IncreaseOrder {
    pub collateral_amount: U256,
    pub collateral_token: Address,
    pub index_token: Address,
    pub size_delta: U256,
    pub is_long: bool,
    pub trigger_price: U256,
    pub trigger_above_threshold: bool,
    pub execution_fee: U256,
}

/// An order to swap once the price ratio crosses the trigger.
#[derive(Clone, Copy, Debug)]
pub struct SwapOrder {
    pub token_in: Address,
    pub token_out: Address,
    pub amount_in: U256,
    pub min_out: U256,
    pub trigger_ratio: U256,
    pub trigger_above_threshold: bool,
    pub execution_fee: U256,
}

/// The execution fee an order must carry, and the ether sent with it must
/// match it. (An uninitialised book is refused with `AlreadyInitialized`.)
pub open spec fn fee_checks(initialized: bool, execution_fee: nat, value: U256, execution_fee_word: U256) -> Result<
    (),
    OmxError,
> {
    if execution_fee < min_execution_fee_value() {
        Err(
            OmxError::Orderbook(
                OrderbookError::InsufficientExecutionFee { min_execution_fee: min_execution_fee_word() },
            ),
        )
    } else if value@ != execution_fee {
        Err(OmxError::Orderbook(OrderbookError::IncorrectFeeTransferred { expected: execution_fee_word }))
    } else {
        Ok(())
    }
}

/// The checks made before an increase order is placed.
pub open spec fn increase_order_checks(initialized: bool, order: IncreaseOrder, value: U256) -> Result<
    (),
    OmxError,
> {
    if !initialized {
        Err(OmxError::Orderbook(OrderbookError::AlreadyInitialized))
    } else if order.collateral_amount@ == 0 {
        Err(OmxError::Orderbook(OrderbookError::ZeroCollateralAmount))
    } else {
        fee_checks(initialized, order.execution_fee@, value, order.execution_fee)
    }
}

/// The checks made before a swap order is placed.
pub open spec fn swap_order_checks(initialized: bool, order: SwapOrder, value: U256) -> Result<
    (),
    OmxError,
> {
    if !initialized {
        Err(OmxError::Orderbook(OrderbookError::AlreadyInitialized))
    } else if order.amount_in@ == 0 {
        Err(OmxError::Orderbook(OrderbookError::ZeroAmountIn))
    } else {
        fee_checks(initialized, order.execution_fee@, value, order.execution_fee)
    }
}

fn check_fee(execution_fee: U256, value: U256) -> (r: Result<(), OmxError>)
    ensures
        r == fee_checks(true, execution_fee@, value, execution_fee),
{
    if u256_lt(execution_fee, min_execution_fee()) {
        return Err(
            OmxError::Orderbook(
                OrderbookError::InsufficientExecutionFee { min_execution_fee: min_execution_fee() },
            ),
        );
    }
    if !u256_eq(value, execution_fee) {
        return Err(OmxError::Orderbook(OrderbookError::IncorrectFeeTransferred { expected: execution_fee }));
    }
    Ok(())
}

/// Places an increase order for `account`, which sent `value` in ether with
/// it; returns the order's number. The collateral is pulled in by the caller.
pub fn create_increase_order(
    book: &mut OrderBook<IncreaseOrder>,
    initialized: bool,
    account: Address,
    order: IncreaseOrder,
    value: U256,
) -> (r: Result<U256, OmxError>)
    ensures
        match increase_order_checks(initialized, order, value) {
            Err(e) => r == Err::<U256, OmxError>(e) && final(book)@ == old(book)@,
            Ok(_) => match create_order_spec(old(book)@, account, order) {
                Ok(v) => r matches Ok(index) && index@ == old(book)@.next_index && final(book)@
                    == v,
                Err(e) => r == Err::<U256, OmxError>(e) && final(book)@ == old(book)@,
            },
        },
{
    if !initialized {
        return Err(OmxError::Orderbook(OrderbookError::AlreadyInitialized));
    }
    if u256_eq(order.collateral_amount, U256::zero()) {
        return Err(OmxError::Orderbook(OrderbookError::ZeroCollateralAmount));
    }
    check_fee(order.execution_fee, value)?;
    create_order(book, account, order)
}

/// Places a swap order for `account`, which sent `value` in ether with it;
/// returns the order's number. The tokens are pulled in by the caller.
pub fn create_swap_order(
    book: &mut OrderBook<SwapOrder>,
    initialized: bool,
    account: Address,
    order: SwapOrder,
    value: U256,
) -> (r: Result<U256, OmxError>)
    ensures
        match swap_order_checks(initialized, order, value) {
            Err(e) => r == Err::<U256, OmxError>(e) && final(book)@ == old(book)@,
            Ok(_) => match create_order_spec(old(book)@, account, order) {
                Ok(v) => r matches Ok(index) && index@ == old(book)@.next_index && final(book)@
                    == v,
                Err(e) => r == Err::<U256, OmxError>(e) && final(book)@ == old(book)@,
            },
        },
{
    if !initialized {
        return Err(OmxError::Orderbook(OrderbookError::AlreadyInitialized));
    }
    if u256_eq(order.amount_in, U256::zero()) {
        return Err(OmxError::Orderbook(OrderbookError::ZeroAmountIn));
    }
    check_fee(order.execution_fee, value)?;
    create_order(book, account, order)
}

/// What cancelling a swap order pays back to the account.
#[derive(Clone, Copy, Debug)]
pub enum SwapRefund {
    /// The order sold wrapped ether: the amount in and the fee go back as ether.
    Ether { amount: U256 },
    /// The amount in goes back in its token, the fee as ether.
    TokenAndEther { token: Address, amount: U256, execution_fee: U256 },
}

/// Cancels the swap order numbered `order_index` and works out the refund.
/// Nothing changes when the order is missing or the ether refund overflows.
pub fn cancel_swap_order(book: &mut OrderBook<SwapOrder>, weth: Address, order_index: U256) -> (r:
    Result<(SwapOrder, SwapRefund), OmxError>)
    ensures
        !old(book)@.orders.contains_key(order_index@) ==> r == Err::<(SwapOrder, SwapRefund), OmxError>(
            OmxError::Orderbook(OrderbookError::OrderNotFound { order_index }),
        ) && final(book)@ == old(book)@,
        old(book)@.orders.contains_key(order_index@) ==> {
            let o = old(book)@.orders[order_index@].1;
            if o.token_in == weth {
                match add_spec(o.execution_fee@, o.amount_in@) {
                    Ok(total) => r matches Ok((order, SwapRefund::Ether { amount })) && order == o
                        && amount@ == total && final(book)@.orders == old(book)@.orders.remove(
                        order_index@,
                    ) && final(book)@.next_index == old(book)@.next_index,
                    Err(e) => r == Err::<(SwapOrder, SwapRefund), OmxError>(e) && final(book)@
                        == old(book)@,
                }
            } else {
                &&& r matches Ok(
                    (order, SwapRefund::TokenAndEther { token, amount, execution_fee }),
                )
                &&& order == o && token == o.token_in && amount == o.amount_in && execution_fee
                    == o.execution_fee
                &&& final(book)@.orders == old(book)@.orders.remove(order_index@)
                &&& final(book)@.next_index == old(book)@.next_index
            }
        },
{
    let (_, o) = match book.lookup(order_index) {
        Some(found) => found,
        None => return Err(OmxError::Orderbook(OrderbookError::OrderNotFound { order_index })),
    };
    let refund = if o.token_in == weth {
        match safe_add(o.execution_fee, o.amount_in) {
            Ok(amount) => SwapRefund::Ether { amount },
            Err(e) => return Err(e),
        }
    } else {
        SwapRefund::TokenAndEther {
            token: o.token_in,
            amount: o.amount_in,
            execution_fee: o.execution_fee,
        }
    };
    cancel_order(book, order_index)?;
    Ok((o, refund))
}

/// `get_increase_order`: the account and the increase order numbered
/// `order_index`, or `OrderNotFound`.
pub fn get_increase_order(book: &OrderBook<IncreaseOrder>, order_index: U256) -> (r: Result<
    (Address, IncreaseOrder),
    OmxError,
>)
    ensures
        r == (if book@.orders.contains_key(order_index@) {
            Ok(book@.orders[order_index@])
        } else {
            Err(OmxError::Orderbook(OrderbookError::OrderNotFound { order_index }))
        }),
{
    get_order(book, order_index)
}

/// `get_swap_order`: the account and the swap order numbered `order_index`,
/// or `OrderNotFound`.
pub fn get_swap_order(book: &OrderBook<SwapOrder>, order_index: U256) -> (r: Result<
    (Address, SwapOrder),
    OmxError,
>)
    ensures
        r == (if book@.orders.contains_key(order_index@) {
            Ok(book@.orders[order_index@])
        } else {
            Err(OmxError::Orderbook(OrderbookError::OrderNotFound { order_index }))
        }),
{
    get_order(book, order_index)
}

/// Cancels the increase order numbered `order_index` and hands it back: its
/// collateral goes back in `collateral_token` and its execution fee as
/// ether. Nothing changes when the order is missing.
pub fn cancel_increase_order(book: &mut OrderBook<IncreaseOrder>, order_index: U256) -> (r: Result<
    IncreaseOrder,
    OmxError,
>)
    ensures
        !old(book)@.orders.contains_key(order_index@) ==> r == Err::<IncreaseOrder, OmxError>(
            OmxError::Orderbook(OrderbookError::OrderNotFound { order_index }),
        ) && final(book)@ == old(book)@,
        old(book)@.orders.contains_key(order_index@) ==> {
            &&& r == Ok::<IncreaseOrder, OmxError>(old(book)@.orders[order_index@].1)
            &&& final(book)@.orders == old(book)@.orders.remove(order_index@)
            &&& final(book)@.next_index == old(book)@.next_index
        },
{
    let (_, order) = cancel_order(book, order_index)?;
    Ok(order)
}

/// A placed order can be read back under the number it got, no other
/// order changes, and the next order gets the following number.
pub proof fn lemma_create_then_get<O>(v: OrderBookV<O>, account: Address, order: O)
    requires
        create_order_spec(v, account, order) is Ok,
        !account.is_zero_spec(),
    ensures
        ({
            let w = create_order_spec(v, account, order).unwrap();
            &&& w.orders.contains_key(v.next_index)
            &&& w.orders[v.next_index] == (account, order)
            &&& w.next_index == v.next_index + 1
            &&& forall|i: nat| i != v.next_index ==> #[trigger] w.orders.contains_key(i)
                == v.orders.contains_key(i)
            &&& forall|i: nat|
                i != v.next_index && v.orders.contains_key(i) ==> #[trigger] w.orders[i]
                    == v.orders[i]
        }),
{
}

/// An order is found until it is cancelled, and not after.
pub proof fn lemma_cancel_then_not_found<O>(v: OrderBookV<O>, index: nat)
    requires
        v.orders.contains_key(index),
    ensures
        !v.orders.remove(index).contains_key(index),
        forall|i: nat| i != index ==> #[trigger] v.orders.remove(index).contains_key(i)
            == v.orders.contains_key(i),
{
}

/// An increase order that passes the checks (a set-up book, some
/// collateral, at least the minimum execution fee, and that fee sent along)
/// is placed: it reads back under the number the book gave it, with the
/// account that placed it, the next order gets the following number, and no
/// other order changes.
pub proof fn lemma_increase_order_placed(
    v: OrderBookV<IncreaseOrder>,
    account: Address,
    order: IncreaseOrder,
    value: U256,
)
    requires
        order.collateral_amount@ > 0,
        order.execution_fee@ >= min_execution_fee_value(),
        value@ == order.execution_fee@,
        v.next_index + 1 <= u256_max(),
        !account.is_zero_spec(),
    ensures
        increase_order_checks(true, order, value) is Ok,
        ({
            let w = create_order_spec(v, account, order).unwrap();
            &&& create_order_spec(v, account, order) is Ok
            &&& w.orders.contains_key(v.next_index)
            &&& w.orders[v.next_index] == (account, order)
            &&& w.next_index == v.next_index + 1
            &&& forall|i: nat| i != v.next_index ==> #[trigger] w.orders.contains_key(i)
                == v.orders.contains_key(i)
            &&& forall|i: nat|
                i != v.next_index && v.orders.contains_key(i) ==> #[trigger] w.orders[i]
                    == v.orders[i]
        }),
{
    lemma_create_then_get(v, account, order);
}

} // verus!
