//! The cart aggregate: a mutable in-progress retail transaction. It owns
//! shopping-list lines, attached physically-tagged units, payments and
//! discount state, recomputes its cached totals after every mutation, and
//! on closing is validated and turned into an immutable purchase record.
//!
//! The totals model is stated over mathematical sums of the line and tag
//! sequences; `state_ok` collects the machine bounds under which every
//! recomputation stays in range, and `totals_current` says that the cached
//! totals equal what the calculator would produce from the current state.

use vstd::prelude::*;
use crate::clock::{now_ts, today_start_ts, DAY_SECONDS};
use crate::errors::CartError;
use crate::ids::new_id;
use crate::rounding::{rdiv, round_huf, spec_round_huf, lemma_rdiv_range, lemma_round_huf_nearest};
use crate::sums::{
    lemma_seq_sum_le_pointwise, lemma_seq_sum_nonneg, lemma_seq_sum_push, lemma_seq_sum_take_all,
    lemma_seq_sum_take_le, lemma_seq_sum_take_step, lemma_take_of_push, seq_sum,
};
use crate::vat::{spec_vat_multiply, str_eq, vat_multiply, lemma_vat_multiply_ge_net};
pub use crate::vat::VAT;
use crate::purchase::{purchase_from_cart, Purchase};

verus! {

/// A percentage discount agreement applied to the whole cart.
#[derive(Clone, Copy, Debug, PartialEq, Eq, Structural)]
pub struct Commitment {
    pub commitment_id: u128,
    pub commitment_percentage: u32,
}

impl Commitment {
    pub fn new(commitment_id: u128, commitment_percentage: u32) -> (r: Self)
        ensures
            r.commitment_id == commitment_id,
            r.commitment_percentage == commitment_percentage,
    {
        Self { commitment_id, commitment_percentage }
    }
}

/// Levels a loyalty card can have.
#[derive(Clone, Copy, Debug, PartialEq, Eq, Structural)]
pub enum LoyaltyLevel {
    L1,
    L2,
}

/// The text form of a loyalty level.
pub open spec fn spec_loyalty_level_code(l: LoyaltyLevel) -> Seq<char> {
    match l {
        LoyaltyLevel::L1 => "L1"@,
        LoyaltyLevel::L2 => "L2"@,
    }
}

/// Which loyalty level a piece of text denotes, if any.
pub open spec fn spec_loyalty_level_from_str(s: Seq<char>) -> Option<LoyaltyLevel> {
    if s == "L1"@ || s == "l1"@ {
        Some(LoyaltyLevel::L1)
    } else if s == "L2"@ || s == "l2"@ {
        Some(LoyaltyLevel::L2)
    } else {
        None
    }
}

impl LoyaltyLevel {
    /// Parse the text form of a loyalty level; unknown text is rejected.
    pub fn from_str(s: &str) -> (r: Result<Self, String>)
        ensures
            (r is Ok) == (spec_loyalty_level_from_str(s@) is Some),
            r matches Ok(l) ==> spec_loyalty_level_from_str(s@) == Some(l),
            r matches Err(m) ==> m@ == "unknown loyalty card level, expected L1 or L2"@,
    {
        if str_eq(s, "l1") || str_eq(s, "L1") {
            Ok(LoyaltyLevel::L1)
        } else if str_eq(s, "l2") || str_eq(s, "L2") {
            Ok(LoyaltyLevel::L2)
        } else {
            Err("unknown loyalty card level, expected L1 or L2".to_owned())
        }
    }

    /// The text form of this loyalty level.
    pub fn to_string(&self) -> (r: String)
        ensures
            r@ == spec_loyalty_level_code(*self),
    {
        match self {
            LoyaltyLevel::L1 => "L1".to_owned(),
            LoyaltyLevel::L2 => "L2".to_owned(),
        }
    }
}

/// A loyalty card attached to the cart; at most one per cart.
#[derive(Clone, Debug)]
pub struct LoyaltyCard {
    pub account_id: u128,
    pub card_id: String,
    pub level: LoyaltyLevel,
}

impl LoyaltyCard {
    pub fn new(account_id: u128, card_id: String, level: LoyaltyLevel) -> (r: Self)
        ensures
            r.account_id == account_id,
            r.card_id == card_id,
            r.level == level,
    {
        Self { account_id, card_id, level }
    }
}

/// One loyalty-point burn, keyed by a unique transaction id; the signed
/// point amount counts against the cart as a discount.
#[derive(Clone, Copy, Debug)]
pub struct LoyaltyTransaction {
    pub loyalty_account_id: u128,
    pub transaction_id: u128,
    pub burned_points: i32,
    pub created_at: i64,
}

/// Receipt or invoice.
#[derive(Clone, Copy, Debug, PartialEq, Eq, Structural)]
pub enum DocumentKind {
    Receipt,
    Invoice,
}

/// The billing party, required when the cart closes as an invoice.
#[derive(Clone, Debug)]
pub struct Customer {
    pub id: u32,
    pub name: String,
    pub zip: String,
    pub location: String,
    pub street: String,
    pub tax_number: String,
}

/// How the cart is settled; only cash payments are cash-rounded, and a
/// transfer implies a 30-day due date.
#[derive(Clone, Copy, Debug, PartialEq, Eq, Structural)]
pub enum PaymentKind {
    Cash,
    Card,
    Transfer,
}

/// One settlement record.
#[derive(Clone, Debug)]
pub struct Payment {
    pub payment_id: String,
    pub amount: i32,
}

/// What a physically tagged unit stands for: a catalog item sold by
/// quantity, or a derived (opened) product priced as a whole.
#[derive(Clone, Copy, Debug, PartialEq, Eq, Structural)]
pub enum UplKind {
    Sku { sku: u32, piece: u32 },
    DerivedProduct { product_id: u32, amount: u32 },
}

/// A physically tagged unit ("unique product label") attached to the cart.
#[derive(Clone, Debug)]
pub struct UplInfoObject {
    pub upl_id: String,
    pub kind: UplKind,
    pub name: String,
    pub retail_net_price: u32,
    pub vat: VAT,
    pub retail_gross_price: u32,
    pub procurement_net_price: u32,
    pub best_before: Option<i64>,
    pub depreciated: bool,
}

impl UplInfoObject {
    /// The net price this tag contributes: unit price times piece for a
    /// catalog unit, the flat price for a derived product.
    pub open spec fn spec_price_net(&self) -> int {
        match self.kind {
            UplKind::Sku { sku, piece } => self.retail_net_price * piece,
            UplKind::DerivedProduct { product_id, amount } => self.retail_net_price as int,
        }
    }

    /// The gross price this tag contributes.
    pub open spec fn spec_price_gross(&self) -> int {
        match self.kind {
            UplKind::Sku { sku, piece } => self.retail_gross_price * piece,
            UplKind::DerivedProduct { product_id, amount } => self.retail_gross_price as int,
        }
    }

    /// The piece count this tag carries; a derived product counts as one.
    pub open spec fn spec_piece(&self) -> int {
        match self.kind {
            UplKind::Sku { sku, piece } => piece as int,
            UplKind::DerivedProduct { product_id, amount } => 1,
        }
    }

    /// The catalog code, when the tag is a catalog unit.
    pub fn get_sku(&self) -> (r: Option<u32>)
        ensures
            r == (match self.kind {
                UplKind::Sku { sku, piece } => Some(sku),
                UplKind::DerivedProduct { product_id, amount } => None::<u32>,
            }),
    {
        match self.kind {
            UplKind::Sku { sku, piece: _ } => Some(sku),
            UplKind::DerivedProduct { product_id: _, amount: _ } => None,
        }
    }

    /// The product id, when the tag is a derived product.
    pub fn get_product_id(&self) -> (r: Option<u32>)
        ensures
            r == (match self.kind {
                UplKind::Sku { sku, piece } => None::<u32>,
                UplKind::DerivedProduct { product_id, amount } => Some(product_id),
            }),
    {
        match self.kind {
            UplKind::Sku { sku: _, piece: _ } => None,
            UplKind::DerivedProduct { product_id, amount: _ } => Some(product_id),
        }
    }

    /// The net price contributed by this tag.
    pub fn get_price_net(&self) -> (r: u32)
        requires
            self.spec_price_net() <= u32::MAX,
        ensures
            r == self.spec_price_net(),
    {
        match self.kind {
            UplKind::Sku { sku: _, piece } => {
                let p: u64 = (self.retail_net_price as u64) * (piece as u64);
                p as u32
            },
            UplKind::DerivedProduct { product_id: _, amount: _ } => self.retail_net_price,
        }
    }

    /// The gross price contributed by this tag.
    pub fn get_price_gross(&self) -> (r: u32)
        requires
            self.spec_price_gross() <= u32::MAX,
        ensures
            r == self.spec_price_gross(),
    {
        match self.kind {
            UplKind::Sku { sku: _, piece } => {
                let p: u64 = (self.retail_gross_price as u64) * (piece as u64);
                p as u32
            },
            UplKind::DerivedProduct { product_id: _, amount: _ } => self.retail_gross_price,
        }
    }

    /// The VAT content of this tag's price.
    pub fn get_price_vat(&self) -> (r: u32)
        requires
            self.spec_price_net() <= u32::MAX,
            self.spec_price_gross() <= u32::MAX,
            self.spec_price_net() <= self.spec_price_gross(),
        ensures
            r == self.spec_price_gross() - self.spec_price_net(),
    {
        self.get_price_gross() - self.get_price_net()
    }

    /// The piece count this tag carries.
    pub fn get_piece(&self) -> (r: u32)
        ensures
            r == self.spec_piece(),
    {
        match self.kind {
            UplKind::Sku { sku: _, piece } => piece,
            UplKind::DerivedProduct { product_id: _, amount: _ } => 1,
        }
    }
}

/// One shopping-list line: a catalog item sold by quantity, with cached
/// unit and total prices.
#[derive(Clone, Debug)]
pub struct ListItem {
    pub sku: u32,
    pub name: String,
    pub piece: u32,
    pub vat: VAT,
    pub unit_price_net: u32,
    pub unit_price_vat: u32,
    pub unit_price_gross: u32,
    pub total_price_net: u32,
    pub total_price_vat: u32,
    pub total_price_gross: u32,
}

impl ListItem {
    /// The line a fresh construction yields: totals derived from piece,
    /// unit net price and the VAT multiplier.
    pub open spec fn spec_new(
        sku: u32,
        name: String,
        piece: u32,
        vat: VAT,
        unit_net: u32,
        unit_gross: u32,
    ) -> ListItem {
        ListItem {
            sku,
            name,
            piece,
            vat,
            unit_price_net: unit_net,
            unit_price_vat: ((unit_gross - unit_net) as u32),
            unit_price_gross: unit_gross,
            total_price_net: ((piece * unit_net) as u32),
            total_price_vat: ((spec_vat_multiply(piece * unit_net, vat) - piece * unit_net)
                as u32),
            total_price_gross: (spec_vat_multiply(piece * unit_net, vat) as u32),
        }
    }

    /// The machine bounds under which a fresh construction stays in range.
    pub open spec fn new_fits(piece: u32, vat: VAT, unit_net: u32, unit_gross: u32) -> bool {
        &&& unit_net <= unit_gross
        &&& piece * unit_net <= u32::MAX
        &&& spec_vat_multiply(piece * unit_net, vat) <= u32::MAX
    }

    /// Build a line from its quantities and unit prices; the totals are
    /// derived on the spot.
    pub fn new(
        sku: u32,
        name: String,
        piece: u32,
        vat: VAT,
        unit_price_net: u32,
        unit_price_gross: u32,
    ) -> (r: ListItem)
        requires
            Self::new_fits(piece, vat, unit_price_net, unit_price_gross),
        ensures
            r == Self::spec_new(sku, name, piece, vat, unit_price_net, unit_price_gross),
    {
        let total_net = unit_price_net * piece;
        let total_gross = vat_multiply(total_net, vat);
        proof {
            lemma_vat_multiply_ge_net(total_net as int, vat);
        }
        ListItem {
            sku,
            name,
            piece,
            vat,
            unit_price_net,
            unit_price_vat: unit_price_gross - unit_price_net,
            unit_price_gross,
            total_price_net: total_net,
            total_price_vat: total_gross - total_net,
            total_price_gross: total_gross,
        }
    }

    /// The line after its piece count is replaced: totals rederived, unit
    /// prices kept.
    pub open spec fn spec_update_piece(li: ListItem, piece: u32) -> ListItem {
        ListItem {
            piece,
            total_price_net: ((piece * li.unit_price_net) as u32),
            total_price_vat: ((spec_vat_multiply(piece * li.unit_price_net, li.vat) - piece
                * li.unit_price_net) as u32),
            total_price_gross: (spec_vat_multiply(piece * li.unit_price_net, li.vat) as u32),
            ..li
        }
    }

    /// The machine bounds under which replacing the piece count stays in
    /// range.
    pub open spec fn update_fits(li: ListItem, piece: u32) -> bool {
        &&& piece * li.unit_price_net <= u32::MAX
        &&& spec_vat_multiply(piece * li.unit_price_net, li.vat) <= u32::MAX
    }

    /// Replace the piece count and rederive the line totals.
    pub fn update_piece(&mut self, piece: u32)
        requires
            Self::update_fits(*old(self), piece),
        ensures
            *final(self) == Self::spec_update_piece(*old(self), piece),
    {
        self.piece = piece;
        let total_net = self.unit_price_net * piece;
        let total_gross = vat_multiply(total_net, self.vat);
        proof {
            lemma_vat_multiply_ge_net(total_net as int, self.vat);
        }
        self.total_price_net = total_net;
        self.total_price_gross = total_gross;
        self.total_price_vat = total_gross - total_net;
    }

    /// Add pieces on top of the current count and rederive the totals.
    pub fn update_add_piece(&mut self, plus_piece: u32)
        requires
            old(self).piece + plus_piece <= u32::MAX,
            Self::update_fits(*old(self), ((old(self).piece + plus_piece) as u32)),
        ensures
            *final(self) == Self::spec_update_piece(
                *old(self),
                ((old(self).piece + plus_piece) as u32),
            ),
    {
        let p = self.piece + plus_piece;
        self.update_piece(p);
    }

    /// Replace the whole line.
    pub fn replace(&mut self, new_item: ListItem)
        ensures
            *final(self) == new_item,
    {
        *self = new_item;
    }
}

// ---------------------------------------------------------------------
// The totals model: sums over the line and tag sequences.
// ---------------------------------------------------------------------

/// The value a shopping-list line contributes to the net items total.
pub open spec fn list_net_fn() -> spec_fn(ListItem) -> int {
    |li: ListItem| li.total_price_net as int
}

/// The value a shopping-list line contributes to the gross items total.
pub open spec fn list_gross_fn() -> spec_fn(ListItem) -> int {
    |li: ListItem| li.total_price_gross as int
}

/// The net price a tag contributes.
pub open spec fn upl_net_fn() -> spec_fn(UplInfoObject) -> int {
    |u: UplInfoObject| u.spec_price_net()
}

/// The gross price a tag contributes.
pub open spec fn upl_gross_fn() -> spec_fn(UplInfoObject) -> int {
    |u: UplInfoObject| u.spec_price_gross()
}

/// The procurement net price a tag carries.
pub open spec fn upl_proc_fn() -> spec_fn(UplInfoObject) -> int {
    |u: UplInfoObject| u.procurement_net_price as int
}

/// The piece count a tag carries.
pub open spec fn upl_piece_fn() -> spec_fn(UplInfoObject) -> int {
    |u: UplInfoObject| u.spec_piece()
}

/// The piece count a tag contributes to one catalog code: its pieces when
/// it is a catalog unit of that code, nothing otherwise.
pub open spec fn upl_piece_for_fn(sku: u32) -> spec_fn(UplInfoObject) -> int {
    |u: UplInfoObject|
        match u.kind {
            UplKind::Sku { sku: s2, piece } => if s2 == sku {
                piece as int
            } else {
                0
            },
            UplKind::DerivedProduct { product_id, amount } => 0,
        }
}

/// The signed amount a payment contributes.
pub open spec fn payment_fn() -> spec_fn(Payment) -> int {
    |p: Payment| p.amount as int
}

/// The signed points a burn transaction contributes.
pub open spec fn burned_fn() -> spec_fn(LoyaltyTransaction) -> int {
    |t: LoyaltyTransaction| t.burned_points as int
}

pub open spec fn sum_list_net(s: Seq<ListItem>) -> int {
    seq_sum(s, list_net_fn())
}

pub open spec fn sum_list_gross(s: Seq<ListItem>) -> int {
    seq_sum(s, list_gross_fn())
}

pub open spec fn sum_upl_net(s: Seq<UplInfoObject>) -> int {
    seq_sum(s, upl_net_fn())
}

pub open spec fn sum_upl_gross(s: Seq<UplInfoObject>) -> int {
    seq_sum(s, upl_gross_fn())
}

pub open spec fn sum_upl_proc(s: Seq<UplInfoObject>) -> int {
    seq_sum(s, upl_proc_fn())
}

pub open spec fn sum_upl_piece(s: Seq<UplInfoObject>) -> int {
    seq_sum(s, upl_piece_fn())
}

/// Pieces backed by healthy tags for one catalog code.
pub open spec fn sum_upl_piece_for(s: Seq<UplInfoObject>, sku: u32) -> int {
    seq_sum(s, upl_piece_for_fn(sku))
}

pub open spec fn sum_payments(s: Seq<Payment>) -> int {
    seq_sum(s, payment_fn())
}

pub open spec fn sum_burned(s: Seq<LoyaltyTransaction>) -> int {
    seq_sum(s, burned_fn())
}

/// Net items total: shopping-list lines plus unique tags.
pub open spec fn items_net_of(list: Seq<ListItem>, unique: Seq<UplInfoObject>) -> int {
    sum_list_net(list) + sum_upl_net(unique)
}

/// Gross items total: shopping-list lines plus unique tags.
pub open spec fn items_gross_of(list: Seq<ListItem>, unique: Seq<UplInfoObject>) -> int {
    sum_list_gross(list) + sum_upl_gross(unique)
}

/// The discount value a commitment grants on a gross items total.
pub open spec fn discount_of(com: Option<Commitment>, items_gross: int) -> int {
    match com {
        Some(c) => rdiv(items_gross * c.commitment_percentage, 100),
        None => 0,
    }
}

/// The burned-points balance: the sum of all burn deltas, floored at zero.
pub open spec fn balance_of(burned: Seq<LoyaltyTransaction>) -> int {
    if sum_burned(burned) > 0 {
        sum_burned(burned)
    } else {
        0
    }
}

/// Total gross: items total less the commitment discount and the burned
/// points.
pub open spec fn total_gross_of(
    list: Seq<ListItem>,
    unique: Seq<UplInfoObject>,
    com: Option<Commitment>,
    burned: Seq<LoyaltyTransaction>,
) -> int {
    items_gross_of(list, unique) - discount_of(com, items_gross_of(list, unique)) - balance_of(
        burned,
    )
}

/// Total net: items net total less the deduction converted to a net amount
/// on a fixed 27 percent VAT basis.
pub open spec fn total_net_of(
    list: Seq<ListItem>,
    unique: Seq<UplInfoObject>,
    com: Option<Commitment>,
    burned: Seq<LoyaltyTransaction>,
) -> int {
    items_net_of(list, unique) - rdiv(
        100 * (discount_of(com, items_gross_of(list, unique)) + balance_of(burned)),
        127,
    )
}

/// Total VAT: the difference of gross and net totals.
pub open spec fn total_vat_of(
    list: Seq<ListItem>,
    unique: Seq<UplInfoObject>,
    com: Option<Commitment>,
    burned: Seq<LoyaltyTransaction>,
) -> int {
    total_gross_of(list, unique, com, burned) - total_net_of(list, unique, com, burned)
}

/// The payable amount: the gross total, cash-rounded when the cart is paid
/// in cash.
pub open spec fn payable_of(
    list: Seq<ListItem>,
    unique: Seq<UplInfoObject>,
    com: Option<Commitment>,
    burned: Seq<LoyaltyTransaction>,
    kind: PaymentKind,
) -> int {
    if kind is Cash {
        spec_round_huf(total_gross_of(list, unique, com, burned))
    } else {
        total_gross_of(list, unique, com, burned)
    }
}

/// No two shopping-list lines share a catalog code.
pub open spec fn sku_unique(list: Seq<ListItem>) -> bool {
    forall|i: int, j: int|
        0 <= i < j < list.len() ==> #[trigger] list[i].sku != #[trigger] list[j].sku
}

/// The machine bounds under which the totals calculator stays in range on
/// this state, together with the structural invariants of the cart.
pub open spec fn state_ok(
    list: Seq<ListItem>,
    upls_sku: Seq<UplInfoObject>,
    unique: Seq<UplInfoObject>,
    com: Option<Commitment>,
    burned: Seq<LoyaltyTransaction>,
    payments: Seq<Payment>,
) -> bool {
    let n = items_net_of(list, unique);
    let g = items_gross_of(list, unique);
    let d = discount_of(com, g) + balance_of(burned);
    &&& n <= i32::MAX - 2
    &&& g <= i32::MAX - 2
    &&& (com matches Some(c) ==> c.commitment_percentage <= 100)
    &&& forall|i: int|
        0 <= i <= burned.len() ==> 0 <= #[trigger] sum_burned(burned.take(i)) <= u32::MAX
    &&& d <= g
    &&& rdiv(100 * d, 127) <= n
    &&& n - rdiv(100 * d, 127) <= g - d
    &&& forall|i: int|
        0 <= i <= payments.len() ==> i32::MIN <= #[trigger] sum_payments(payments.take(i))
            <= i32::MAX
    &&& sum_upl_piece(upls_sku) <= u32::MAX
    &&& sum_upl_proc(upls_sku) + sum_upl_proc(unique) <= i32::MAX
    &&& sku_unique(list)
}

// ---------------------------------------------------------------------
// Helper lemmas about the model.
// ---------------------------------------------------------------------

/// A tag's prices and piece count are non-negative.
pub proof fn lemma_upl_nonneg(u: UplInfoObject)
    ensures
        u.spec_price_net() >= 0,
        u.spec_price_gross() >= 0,
        u.spec_piece() >= 0,
{
    match u.kind {
        UplKind::Sku { sku, piece } => {
            assert(u.retail_net_price * piece >= 0) by (nonlinear_arith);
            assert(u.retail_gross_price * piece >= 0) by (nonlinear_arith);
        },
        UplKind::DerivedProduct { product_id, amount } => {},
    }
}

/// Every line value, tag value, procurement price and piece count in the
/// model is non-negative.
pub proof fn lemma_model_fns_nonneg(list: Seq<ListItem>, upls: Seq<UplInfoObject>)
    ensures
        forall|i: int| 0 <= i < list.len() ==> list_net_fn()(#[trigger] list[i]) >= 0,
        forall|i: int| 0 <= i < list.len() ==> list_gross_fn()(#[trigger] list[i]) >= 0,
        forall|i: int| 0 <= i < upls.len() ==> upl_net_fn()(#[trigger] upls[i]) >= 0,
        forall|i: int| 0 <= i < upls.len() ==> upl_gross_fn()(#[trigger] upls[i]) >= 0,
        forall|i: int| 0 <= i < upls.len() ==> upl_proc_fn()(#[trigger] upls[i]) >= 0,
        forall|i: int| 0 <= i < upls.len() ==> upl_piece_fn()(#[trigger] upls[i]) >= 0,
{
    assert forall|i: int| 0 <= i < upls.len() implies upl_net_fn()(#[trigger] upls[i]) >= 0
        && upl_gross_fn()(upls[i]) >= 0 && upl_piece_fn()(upls[i]) >= 0 by {
        lemma_upl_nonneg(upls[i]);
    }
}

/// The four item sums are non-negative.
pub proof fn lemma_sums_nonneg(list: Seq<ListItem>, upls: Seq<UplInfoObject>)
    ensures
        sum_list_net(list) >= 0,
        sum_list_gross(list) >= 0,
        sum_upl_net(upls) >= 0,
        sum_upl_gross(upls) >= 0,
        sum_upl_proc(upls) >= 0,
        sum_upl_piece(upls) >= 0,
{
    lemma_model_fns_nonneg(list, upls);
    lemma_seq_sum_nonneg(list, list_net_fn());
    lemma_seq_sum_nonneg(list, list_gross_fn());
    lemma_seq_sum_nonneg(upls, upl_net_fn());
    lemma_seq_sum_nonneg(upls, upl_gross_fn());
    lemma_seq_sum_nonneg(upls, upl_proc_fn());
    lemma_seq_sum_nonneg(upls, upl_piece_fn());
}

/// A commitment of at most 100 percent grants at most the gross total.
pub proof fn lemma_discount_le_gross(g: int, pct: int)
    requires
        g >= 0,
        0 <= pct <= 100,
    ensures
        0 <= rdiv(g * pct, 100) <= g,
{
    let q = (2 * (g * pct) + 100) / 200;
    assert(0 <= q <= g) by (nonlinear_arith)
        requires
            g >= 0,
            0 <= pct <= 100,
            q == (2 * (g * pct) + 100) / 200,
    ;
}

// ---------------------------------------------------------------------
// Exec summation helpers.
// ---------------------------------------------------------------------

/// Sum the cached net totals of the shopping-list lines.
fn sum_list_net_exec(v: &Vec<ListItem>) -> (r: u32)
    requires
        sum_list_net(v@) <= u32::MAX,
    ensures
        r == sum_list_net(v@),
{
    let mut total: u32 = 0;
    let mut i: usize = 0;
    while i < v.len()
        invariant
            0 <= i <= v@.len(),
            sum_list_net(v@) <= u32::MAX,
            total == seq_sum(v@.take(i as int), list_net_fn()),
        decreases v@.len() - i,
    {
        proof {
            lemma_model_fns_nonneg(v@, Seq::empty());
            lemma_seq_sum_take_step(v@, list_net_fn(), i as int);
            lemma_seq_sum_take_le(v@, list_net_fn(), i as int + 1);
            lemma_model_fns_nonneg(v@.take(i as int), Seq::empty());
            lemma_seq_sum_nonneg(v@.take(i as int), list_net_fn());
        }
        total = total + v[i].total_price_net;
        i = i + 1;
    }
    proof {
        lemma_seq_sum_take_all(v@, list_net_fn());
    }
    total
}

/// Sum the cached gross totals of the shopping-list lines.
fn sum_list_gross_exec(v: &Vec<ListItem>) -> (r: u32)
    requires
        sum_list_gross(v@) <= u32::MAX,
    ensures
        r == sum_list_gross(v@),
{
    let mut total: u32 = 0;
    let mut i: usize = 0;
    while i < v.len()
        invariant
            0 <= i <= v@.len(),
            sum_list_gross(v@) <= u32::MAX,
            total == seq_sum(v@.take(i as int), list_gross_fn()),
        decreases v@.len() - i,
    {
        proof {
            lemma_model_fns_nonneg(v@, Seq::empty());
            lemma_seq_sum_take_step(v@, list_gross_fn(), i as int);
            lemma_seq_sum_take_le(v@, list_gross_fn(), i as int + 1);
            lemma_model_fns_nonneg(v@.take(i as int), Seq::empty());
            lemma_seq_sum_nonneg(v@.take(i as int), list_gross_fn());
        }
        total = total + v[i].total_price_gross;
        i = i + 1;
    }
    proof {
        lemma_seq_sum_take_all(v@, list_gross_fn());
    }
    total
}

/// Sum the net prices the unique tags contribute.
fn sum_upl_net_exec(v: &Vec<UplInfoObject>) -> (r: u32)
    requires
        sum_upl_net(v@) <= u32::MAX,
    ensures
        r == sum_upl_net(v@),
{
    let mut total: u32 = 0;
    let mut i: usize = 0;
    while i < v.len()
        invariant
            0 <= i <= v@.len(),
            sum_upl_net(v@) <= u32::MAX,
            total == seq_sum(v@.take(i as int), upl_net_fn()),
        decreases v@.len() - i,
    {
        proof {
            lemma_model_fns_nonneg(Seq::empty(), v@);
            lemma_seq_sum_take_step(v@, upl_net_fn(), i as int);
            lemma_seq_sum_take_le(v@, upl_net_fn(), i as int + 1);
            lemma_model_fns_nonneg(Seq::empty(), v@.take(i as int));
            lemma_seq_sum_nonneg(v@.take(i as int), upl_net_fn());
        }
        let p: u64 = match v[i].kind {
            UplKind::Sku { sku: _, piece } => (v[i].retail_net_price as u64) * (piece as u64),
            UplKind::DerivedProduct { product_id: _, amount: _ } => v[i].retail_net_price as u64,
        };
        total = total + (p as u32);
        i = i + 1;
    }
    proof {
        lemma_seq_sum_take_all(v@, upl_net_fn());
    }
    total
}

/// Sum the gross prices the unique tags contribute.
fn sum_upl_gross_exec(v: &Vec<UplInfoObject>) -> (r: u32)
    requires
        sum_upl_gross(v@) <= u32::MAX,
    ensures
        r == sum_upl_gross(v@),
{
    let mut total: u32 = 0;
    let mut i: usize = 0;
    while i < v.len()
        invariant
            0 <= i <= v@.len(),
            sum_upl_gross(v@) <= u32::MAX,
            total == seq_sum(v@.take(i as int), upl_gross_fn()),
        decreases v@.len() - i,
    {
        proof {
            lemma_model_fns_nonneg(Seq::empty(), v@);
            lemma_seq_sum_take_step(v@, upl_gross_fn(), i as int);
            lemma_seq_sum_take_le(v@, upl_gross_fn(), i as int + 1);
            lemma_model_fns_nonneg(Seq::empty(), v@.take(i as int));
            lemma_seq_sum_nonneg(v@.take(i as int), upl_gross_fn());
        }
        let p: u64 = match v[i].kind {
            UplKind::Sku { sku: _, piece } => (v[i].retail_gross_price as u64) * (piece as u64),
            UplKind::DerivedProduct { product_id: _, amount: _ } => v[i].retail_gross_price as u64,
        };
        total = total + (p as u32);
        i = i + 1;
    }
    proof {
        lemma_seq_sum_take_all(v@, upl_gross_fn());
    }
    total
}

/// Sum the procurement net prices across a tag collection.
fn sum_upl_proc_exec(v: &Vec<UplInfoObject>) -> (r: u32)
    requires
        sum_upl_proc(v@) <= u32::MAX,
    ensures
        r == sum_upl_proc(v@),
{
    let mut total: u32 = 0;
    let mut i: usize = 0;
    while i < v.len()
        invariant
            0 <= i <= v@.len(),
            sum_upl_proc(v@) <= u32::MAX,
            total == seq_sum(v@.take(i as int), upl_proc_fn()),
        decreases v@.len() - i,
    {
        proof {
            lemma_model_fns_nonneg(Seq::empty(), v@);
            lemma_seq_sum_take_step(v@, upl_proc_fn(), i as int);
            lemma_seq_sum_take_le(v@, upl_proc_fn(), i as int + 1);
            lemma_model_fns_nonneg(Seq::empty(), v@.take(i as int));
            lemma_seq_sum_nonneg(v@.take(i as int), upl_proc_fn());
        }
        total = total + v[i].procurement_net_price;
        i = i + 1;
    }
    proof {
        lemma_seq_sum_take_all(v@, upl_proc_fn());
    }
    total
}

/// Sum the pieces that healthy tags of one catalog code back.
fn sum_upl_piece_for_exec(v: &Vec<UplInfoObject>, sku: u32) -> (r: u32)
    requires
        sum_upl_piece(v@) <= u32::MAX,
    ensures
        r == sum_upl_piece_for(v@, sku),
{
    proof {
        lemma_model_fns_nonneg(Seq::empty(), v@);
        assert(forall|i: int|
            0 <= i < v@.len() ==> upl_piece_for_fn(sku)(#[trigger] v@[i]) <= upl_piece_fn()(
                v@[i],
            ));
        assert(forall|i: int|
            0 <= i < v@.len() ==> upl_piece_for_fn(sku)(#[trigger] v@[i]) >= 0);
        lemma_seq_sum_le_pointwise(v@, upl_piece_for_fn(sku), upl_piece_fn());
    }
    let mut total: u32 = 0;
    let mut i: usize = 0;
    while i < v.len()
        invariant
            0 <= i <= v@.len(),
            sum_upl_piece_for(v@, sku) <= u32::MAX,
            forall|j: int| 0 <= j < v@.len() ==> upl_piece_for_fn(sku)(#[trigger] v@[j]) >= 0,
            total == seq_sum(v@.take(i as int), upl_piece_for_fn(sku)),
        decreases v@.len() - i,
    {
        proof {
            lemma_seq_sum_take_step(v@, upl_piece_for_fn(sku), i as int);
            lemma_seq_sum_take_le(v@, upl_piece_for_fn(sku), i as int + 1);
            lemma_seq_sum_nonneg(v@.take(i as int), upl_piece_for_fn(sku));
        }
        let add: u32 = match v[i].kind {
            UplKind::Sku { sku: s2, piece } => if s2 == sku {
                piece
            } else {
                0
            },
            UplKind::DerivedProduct { product_id: _, amount: _ } => 0,
        };
        total = total + add;
        i = i + 1;
    }
    proof {
        lemma_seq_sum_take_all(v@, upl_piece_for_fn(sku));
    }
    total
}

/// Sum the signed payment amounts; every running sum stays within `i32`.
fn sum_payments_exec(v: &Vec<Payment>) -> (r: i32)
    requires
        forall|i: int|
            0 <= i <= v@.len() ==> i32::MIN <= #[trigger] sum_payments(v@.take(i)) <= i32::MAX,
    ensures
        r == sum_payments(v@),
{
    let mut total: i32 = 0;
    let mut i: usize = 0;
    while i < v.len()
        invariant
            0 <= i <= v@.len(),
            forall|j: int|
                0 <= j <= v@.len() ==> i32::MIN <= #[trigger] sum_payments(v@.take(j))
                    <= i32::MAX,
            total == seq_sum(v@.take(i as int), payment_fn()),
        decreases v@.len() - i,
    {
        proof {
            lemma_seq_sum_take_step(v@, payment_fn(), i as int);
            assert(sum_payments(v@.take(i as int + 1)) == total + v@[i as int].amount);
        }
        total = total + v[i].amount;
        i = i + 1;
    }
    proof {
        lemma_seq_sum_take_all(v@, payment_fn());
    }
    total
}

// ---------------------------------------------------------------------
// Transition functions: what each list or tag mutation does to the state.
// ---------------------------------------------------------------------

/// Whether some shopping-list line carries this catalog code.
pub open spec fn has_sku(list: Seq<ListItem>, sku: u32) -> bool {
    exists|i: int| 0 <= i < list.len() && (#[trigger] list[i]).sku == sku
}

/// The shopping list after upserting a line: an existing line of the same
/// catalog code is fully replaced, otherwise the line is appended.
pub open spec fn upsert_item(list: Seq<ListItem>, item: ListItem) -> Seq<ListItem> {
    if has_sku(list, item.sku) {
        Seq::new(
            list.len(),
            |i: int|
                if list[i].sku == item.sku {
                    item
                } else {
                    list[i]
                },
        )
    } else {
        list.push(item)
    }
}

/// The shopping list after one line's piece count is replaced.
pub open spec fn set_piece_seq(list: Seq<ListItem>, sku: u32, piece: u32) -> Seq<ListItem> {
    Seq::new(
        list.len(),
        |i: int|
            if list[i].sku == sku {
                ListItem::spec_update_piece(list[i], piece)
            } else {
                list[i]
            },
    )
}

/// The shopping list after removing every line of one catalog code.
pub open spec fn remove_sku_seq(list: Seq<ListItem>, sku: u32) -> Seq<ListItem>
    decreases list.len(),
{
    if list.len() == 0 {
        Seq::empty()
    } else if list.last().sku != sku {
        remove_sku_seq(list.drop_last(), sku).push(list.last())
    } else {
        remove_sku_seq(list.drop_last(), sku)
    }
}

/// Whether some tag in the collection carries this tag id.
pub open spec fn upl_id_present(s: Seq<UplInfoObject>, id: Seq<char>) -> bool {
    exists|i: int| 0 <= i < s.len() && (#[trigger] s[i]).upl_id@ == id
}

/// The tag collection after removing every tag of one id.
pub open spec fn remove_upl_seq(s: Seq<UplInfoObject>, id: Seq<char>) -> Seq<UplInfoObject>
    decreases s.len(),
{
    if s.len() == 0 {
        Seq::empty()
    } else if s.last().upl_id@ != id {
        remove_upl_seq(s.drop_last(), id).push(s.last())
    } else {
        remove_upl_seq(s.drop_last(), id)
    }
}

/// A healthy catalog-unit tag: one that backs a shopping-list quantity.
pub open spec fn upl_is_healthy_sku(u: UplInfoObject) -> bool {
    u.kind is Sku && !u.depreciated
}

/// The shopping list after attaching a tag: a healthy catalog-unit tag
/// folds its pieces into the matching line, or opens a new line priced
/// from the tag; any other tag leaves the list alone.
pub open spec fn add_upl_list(list: Seq<ListItem>, u: UplInfoObject) -> Seq<ListItem> {
    match u.kind {
        UplKind::Sku { sku, piece } => {
            if u.depreciated {
                list
            } else if has_sku(list, sku) {
                Seq::new(
                    list.len(),
                    |i: int|
                        if list[i].sku == sku {
                            ListItem::spec_update_piece(
                                list[i],
                                ((list[i].piece + piece) as u32),
                            )
                        } else {
                            list[i]
                        },
                )
            } else {
                list.push(
                    ListItem::spec_new(
                        sku,
                        u.name,
                        piece,
                        u.vat,
                        u.retail_net_price,
                        u.retail_gross_price,
                    ),
                )
            }
        },
        UplKind::DerivedProduct { product_id, amount } => list,
    }
}

/// The healthy-tag collection after attaching a tag.
pub open spec fn add_upl_sku_upls(s: Seq<UplInfoObject>, u: UplInfoObject) -> Seq<
    UplInfoObject,
> {
    if upl_is_healthy_sku(u) {
        s.push(u)
    } else {
        s
    }
}

/// The unique-tag collection after attaching a tag.
pub open spec fn add_upl_unique(s: Seq<UplInfoObject>, u: UplInfoObject) -> Seq<UplInfoObject> {
    if upl_is_healthy_sku(u) {
        s
    } else {
        s.push(u)
    }
}

/// The machine bounds the shopping-list fold of a healthy tag needs: the
/// grown piece count and the rederived totals of the one affected line
/// stay in range.
pub open spec fn add_upl_list_fits(list: Seq<ListItem>, u: UplInfoObject) -> bool {
    match u.kind {
        UplKind::Sku { sku, piece } => {
            if u.depreciated {
                true
            } else if has_sku(list, sku) {
                forall|i: int|
                    0 <= i < list.len() && (#[trigger] list[i]).sku == sku ==> {
                        &&& list[i].piece + piece <= u32::MAX
                        &&& ListItem::update_fits(list[i], ((list[i].piece + piece) as u32))
                    }
            } else {
                ListItem::new_fits(piece, u.vat, u.retail_net_price, u.retail_gross_price)
            }
        },
        UplKind::DerivedProduct { product_id, amount } => true,
    }
}

/// Whether some burn transaction carries this transaction id.
pub open spec fn txn_present(s: Seq<LoyaltyTransaction>, txn: u128) -> bool {
    exists|i: int| 0 <= i < s.len() && (#[trigger] s[i]).transaction_id == txn
}

/// Whether some tag in the collection is a catalog unit of this code.
pub open spec fn upl_has_sku(s: Seq<UplInfoObject>, sku: u32) -> bool {
    exists|i: int|
        0 <= i < s.len() && (match (#[trigger] s[i]).kind {
            UplKind::Sku { sku: s2, piece: _ } => s2 == sku,
            UplKind::DerivedProduct { product_id: _, amount: _ } => false,
        })
}

// ---------------------------------------------------------------------
// Exec search helpers.
// ---------------------------------------------------------------------

/// Find the first shopping-list line of one catalog code.
fn find_sku_pos(v: &Vec<ListItem>, sku: u32) -> (r: Option<usize>)
    ensures
        match r {
            Some(p) => p < v@.len() && v@[p as int].sku == sku && (forall|j: int|
                0 <= j < p ==> (#[trigger] v@[j]).sku != sku),
            None => forall|j: int| 0 <= j < v@.len() ==> (#[trigger] v@[j]).sku != sku,
        },
        (r is Some) == has_sku(v@, sku),
{
    let mut i: usize = 0;
    while i < v.len()
        invariant
            0 <= i <= v@.len(),
            forall|j: int| 0 <= j < i ==> (#[trigger] v@[j]).sku != sku,
        decreases v@.len() - i,
    {
        if v[i].sku == sku {
            return Some(i);
        }
        i = i + 1;
    }
    None
}

/// Whether some tag in the collection carries this tag id.
fn contains_upl_id(v: &Vec<UplInfoObject>, id: &String) -> (r: bool)
    ensures
        r == upl_id_present(v@, id@),
{
    let mut i: usize = 0;
    while i < v.len()
        invariant
            0 <= i <= v@.len(),
            forall|j: int| 0 <= j < i ==> (#[trigger] v@[j]).upl_id@ != id@,
        decreases v@.len() - i,
    {
        if v[i].upl_id == *id {
            return true;
        }
        i = i + 1;
    }
    false
}

/// Whether some tag in the collection is a catalog unit of this code.
fn contains_upl_sku(v: &Vec<UplInfoObject>, sku: u32) -> (r: bool)
    ensures
        r == upl_has_sku(v@, sku),
{
    let mut i: usize = 0;
    while i < v.len()
        invariant
            0 <= i <= v@.len(),
            forall|j: int|
                0 <= j < i ==> (match (#[trigger] v@[j]).kind {
                    UplKind::Sku { sku: s2, piece: _ } => s2 != sku,
                    UplKind::DerivedProduct { product_id: _, amount: _ } => true,
                }),
        decreases v@.len() - i,
    {
        match v[i].kind {
            UplKind::Sku { sku: s2, piece: _ } => {
                if s2 == sku {
                    return true;
                }
            },
            UplKind::DerivedProduct { product_id: _, amount: _ } => {},
        }
        i = i + 1;
    }
    false
}

/// Keep only the shopping-list lines whose catalog code differs.
fn retain_not_sku(v: &mut Vec<ListItem>, sku: u32)
    ensures
        final(v)@ == remove_sku_seq(old(v)@, sku),
{
    let ghost orig = v@;
    let ghost mut j: int = 0;
    let mut kept: Vec<ListItem> = Vec::new();
    while v.len() > 0
        invariant
            0 <= j <= orig.len(),
            v@ == orig.skip(j),
            kept@ == remove_sku_seq(orig.take(j), sku),
        decreases v@.len(),
    {
        let it = v.remove(0);
        proof {
            assert(orig.skip(j).remove(0) =~= orig.skip(j + 1));
            assert(it == orig[j]);
            assert(orig.take(j + 1).drop_last() =~= orig.take(j));
            assert(orig.take(j + 1).last() == orig[j]);
        }
        if it.sku != sku {
            kept.push(it);
        }
        proof {
            j = j + 1;
        }
    }
    proof {
        assert(orig.take(orig.len() as int) =~= orig);
    }
    *v = kept;
}

/// Keep only the tags whose id differs.
fn retain_not_upl_id(v: &mut Vec<UplInfoObject>, id: &String)
    ensures
        final(v)@ == remove_upl_seq(old(v)@, id@),
{
    let ghost orig = v@;
    let ghost mut j: int = 0;
    let mut kept: Vec<UplInfoObject> = Vec::new();
    while v.len() > 0
        invariant
            0 <= j <= orig.len(),
            v@ == orig.skip(j),
            kept@ == remove_upl_seq(orig.take(j), id@),
        decreases v@.len(),
    {
        let it = v.remove(0);
        proof {
            assert(orig.skip(j).remove(0) =~= orig.skip(j + 1));
            assert(it == orig[j]);
            assert(orig.take(j + 1).drop_last() =~= orig.take(j));
            assert(orig.take(j + 1).last() == orig[j]);
        }
        if !(it.upl_id == *id) {
            kept.push(it);
        }
        proof {
            j = j + 1;
        }
    }
    proof {
        assert(orig.take(orig.len() as int) =~= orig);
    }
    *v = kept;
}

/// A mutable in-progress retail transaction.
#[derive(Clone, Debug)]
pub struct Cart {
    /// Identifier of a prior cart this one restores, if any.
    pub ancestor: Option<u128>,
    /// Unique identifier, assigned at creation.
    pub id: u128,
    /// The billing party, required to close as an invoice.
    pub customer: Option<Customer>,
    /// Applied discount agreement.
    pub commitment: Option<Commitment>,
    /// Cached value the commitment currently grants.
    pub commitment_discount_value: u32,
    /// Applied loyalty card; at most one.
    pub loyalty_card: Option<LoyaltyCard>,
    /// Shopping-list lines, keyed by catalog code.
    pub shopping_list: Vec<ListItem>,
    /// Healthy tagged units backing shopping-list quantities.
    pub upls_sku: Vec<UplInfoObject>,
    /// Depreciated or derived tagged units, each a priced line of its own.
    pub upls_unique: Vec<UplInfoObject>,
    /// Cached net total, in HUF.
    pub total_net: u32,
    /// Cached VAT total.
    pub total_vat: u32,
    /// Cached gross total, in HUF.
    pub total_gross: u32,
    /// Receipt or invoice.
    pub document_kind: DocumentKind,
    /// How the cart is settled.
    pub payment_kind: PaymentKind,
    /// Settlement records.
    pub payments: Vec<Payment>,
    /// Loyalty-point burns, keyed by transaction id.
    pub burned_points: Vec<LoyaltyTransaction>,
    /// Cached payable amount: the gross total, cash-rounded for cash.
    pub payable: i32,
    /// Shop assistant.
    pub owner_uid: u32,
    /// Where the cart physically is, if anywhere.
    pub store_id: Option<u32>,
    /// Completion date, seconds since the Unix epoch.
    pub date_completion: i64,
    /// Payment due date, seconds since the Unix epoch.
    pub payment_duedate: i64,
    /// Who created the cart.
    pub created_by: u32,
    /// When the cart was created, seconds since the Unix epoch.
    pub created_at: i64,
}

impl Cart {
    /// Net items total of the current state.
    pub open spec fn items_total_net_spec(&self) -> int {
        items_net_of(self.shopping_list@, self.upls_unique@)
    }

    /// Gross items total of the current state.
    pub open spec fn items_total_gross_spec(&self) -> int {
        items_gross_of(self.shopping_list@, self.upls_unique@)
    }

    /// The discount the commitment currently grants.
    pub open spec fn discount_value_spec(&self) -> int {
        discount_of(self.commitment, self.items_total_gross_spec())
    }

    /// The burned-points balance of the current state.
    pub open spec fn burned_balance_spec(&self) -> int {
        balance_of(self.burned_points@)
    }

    /// What the calculator would produce as the net total.
    pub open spec fn total_net_spec(&self) -> int {
        total_net_of(self.shopping_list@, self.upls_unique@, self.commitment, self.burned_points@)
    }

    /// What the calculator would produce as the gross total.
    pub open spec fn total_gross_spec(&self) -> int {
        total_gross_of(
            self.shopping_list@,
            self.upls_unique@,
            self.commitment,
            self.burned_points@,
        )
    }

    /// What the calculator would produce as the VAT total.
    pub open spec fn total_vat_spec(&self) -> int {
        total_vat_of(self.shopping_list@, self.upls_unique@, self.commitment, self.burned_points@)
    }

    /// What the calculator would produce as the payable amount.
    pub open spec fn payable_spec(&self) -> int {
        payable_of(
            self.shopping_list@,
            self.upls_unique@,
            self.commitment,
            self.burned_points@,
            self.payment_kind,
        )
    }

    /// The cart's state is within the calculator's machine bounds and keeps
    /// its structural invariants.
    pub open spec fn wf(&self) -> bool {
        state_ok(
            self.shopping_list@,
            self.upls_sku@,
            self.upls_unique@,
            self.commitment,
            self.burned_points@,
            self.payments@,
        )
    }

    /// The cached totals equal what the calculator would produce from the
    /// current state.
    pub open spec fn totals_current(&self) -> bool {
        &&& self.total_net == self.total_net_spec()
        &&& self.total_vat == self.total_vat_spec()
        &&& self.total_gross == self.total_gross_spec()
        &&& self.payable == self.payable_spec()
        &&& self.commitment_discount_value == self.discount_value_spec()
    }

    /// The cart's identifier.
    pub fn get_id(&self) -> (r: u128)
        ensures
            r == self.id,
    {
        self.id
    }

    /// Create a fresh, empty, open cart. Its identifier is drawn at random
    /// and its dates are read from the clock.
    pub fn new(owner_uid: u32, store_id: Option<u32>, created_by: u32) -> (r: Cart)
        ensures
            r.ancestor is None,
            r.customer is None,
            r.commitment is None,
            r.commitment_discount_value == 0,
            r.loyalty_card is None,
            r.shopping_list@ =~= Seq::<ListItem>::empty(),
            r.upls_sku@ =~= Seq::<UplInfoObject>::empty(),
            r.upls_unique@ =~= Seq::<UplInfoObject>::empty(),
            r.total_net == 0,
            r.total_vat == 0,
            r.total_gross == 0,
            r.document_kind is Receipt,
            r.payment_kind is Cash,
            r.payments@ =~= Seq::<Payment>::empty(),
            r.burned_points@ =~= Seq::<LoyaltyTransaction>::empty(),
            r.payable == 0,
            r.owner_uid == owner_uid,
            r.store_id == store_id,
            r.date_completion == r.payment_duedate,
            r.created_by == created_by,
            r.wf(),
            r.totals_current(),
    {
        let today = today_start_ts();
        let r = Cart {
            ancestor: None,
            id: new_id(),
            customer: None,
            commitment: None,
            commitment_discount_value: 0,
            loyalty_card: None,
            shopping_list: Vec::new(),
            upls_sku: Vec::new(),
            upls_unique: Vec::new(),
            total_net: 0,
            total_vat: 0,
            total_gross: 0,
            document_kind: DocumentKind::Receipt,
            payment_kind: PaymentKind::Cash,
            payments: Vec::new(),
            burned_points: Vec::new(),
            payable: 0,
            owner_uid,
            store_id,
            date_completion: today,
            payment_duedate: today,
            created_by,
            created_at: now_ts(),
        };
        proof {
            assert(sum_list_net(r.shopping_list@) == 0);
            assert(sum_list_gross(r.shopping_list@) == 0);
            assert(sum_upl_net(r.upls_unique@) == 0);
            assert(sum_upl_gross(r.upls_unique@) == 0);
            assert(sum_upl_piece(r.upls_sku@) == 0);
            assert(sum_upl_proc(r.upls_sku@) == 0);
            assert(sum_upl_proc(r.upls_unique@) == 0);
            assert(sum_burned(r.burned_points@) == 0);
            lemma_rdiv_range(0, 127);
            assert forall|i: int| 0 <= i <= r.burned_points@.len() implies 0 <= #[trigger]
                sum_burned(r.burned_points@.take(i)) <= u32::MAX by {
                assert(r.burned_points@.take(i) =~= Seq::<LoyaltyTransaction>::empty());
            }
            assert forall|i: int| 0 <= i <= r.payments@.len() implies i32::MIN <= #[trigger]
                sum_payments(r.payments@.take(i)) <= i32::MAX by {
                assert(r.payments@.take(i) =~= Seq::<Payment>::empty());
            }
        }
        r
    }

    /// Attach a billing party, or detach it with `None`.
    pub fn add_customer(&mut self, customer: Option<Customer>)
        ensures
            *final(self) == (Cart { customer, ..*old(self) }),
    {
        self.customer = customer;
    }

    /// Set whether the cart closes as a receipt or an invoice.
    pub fn set_document(&mut self, document_kind: DocumentKind)
        ensures
            *final(self) == (Cart { document_kind, ..*old(self) }),
    {
        self.document_kind = document_kind;
    }

    /// Set the shop assistant.
    pub fn set_owner(&mut self, owner_uid: u32)
        ensures
            *final(self) == (Cart { owner_uid, ..*old(self) }),
    {
        self.owner_uid = owner_uid;
    }

    /// Set where the cart physically is.
    pub fn set_store_id(&mut self, store_id: Option<u32>)
        ensures
            *final(self) == (Cart { store_id, ..*old(self) }),
    {
        self.store_id = store_id;
    }

    /// Record one settlement. The running payment total must stay within
    /// the machine's range.
    pub fn add_payment(&mut self, payment: Payment)
        requires
            i32::MIN <= sum_payments(old(self).payments@) + payment.amount <= i32::MAX,
        ensures
            *final(self) == (Cart { payments: final(self).payments, ..*old(self) }),
            final(self).payments@ == old(self).payments@.push(payment),
            old(self).wf() ==> final(self).wf(),
    {
        proof {
            let s = self.payments@;
            lemma_seq_sum_push(s, payment_fn(), payment);
            assert forall|i: int| 0 <= i <= s.push(payment).len() implies sum_payments(
                #[trigger] s.push(payment).take(i),
            ) == (if i <= s.len() {
                sum_payments(s.take(i))
            } else {
                sum_payments(s) + payment.amount
            }) by {
                if i <= s.len() {
                    lemma_take_of_push(s, payment, i);
                } else {
                    assert(s.push(payment).take(i) =~= s.push(payment));
                }
            }
        }
        self.payments.push(payment);
    }

    /// The sum of the recorded payments.
    pub fn get_payment_total(&self) -> (r: i32)
        requires
            forall|i: int|
                0 <= i <= self.payments@.len() ==> i32::MIN <= #[trigger] sum_payments(
                    self.payments@.take(i),
                ) <= i32::MAX,
        ensures
            r == sum_payments(self.payments@),
    {
        sum_payments_exec(&self.payments)
    }

    /// The cached payable amount.
    pub fn get_payable(&self) -> (r: i32)
        ensures
            r == self.payable,
    {
        self.payable
    }

    /// What remains to pay: the payable amount less the payments.
    pub fn get_balance(&self) -> (r: i32)
        requires
            forall|i: int|
                0 <= i <= self.payments@.len() ==> i32::MIN <= #[trigger] sum_payments(
                    self.payments@.take(i),
                ) <= i32::MAX,
            i32::MIN <= self.payable - sum_payments(self.payments@) <= i32::MAX,
        ensures
            r == self.payable - sum_payments(self.payments@),
    {
        let total = self.get_payment_total();
        self.payable - total
    }

    /// Net items total: shopping-list lines plus unique tags.
    pub fn get_items_total_net(&self) -> (r: u32)
        requires
            self.items_total_net_spec() <= u32::MAX,
        ensures
            r == self.items_total_net_spec(),
    {
        proof {
            lemma_sums_nonneg(self.shopping_list@, self.upls_unique@);
        }
        let a = sum_list_net_exec(&self.shopping_list);
        let b = sum_upl_net_exec(&self.upls_unique);
        a + b
    }

    /// Gross items total: shopping-list lines plus unique tags.
    pub fn get_items_total_gross(&self) -> (r: u32)
        requires
            self.items_total_gross_spec() <= u32::MAX,
        ensures
            r == self.items_total_gross_spec(),
    {
        proof {
            lemma_sums_nonneg(self.shopping_list@, self.upls_unique@);
        }
        let a = sum_list_gross_exec(&self.shopping_list);
        let b = sum_upl_gross_exec(&self.upls_unique);
        a + b
    }

    /// VAT content of the items total.
    pub fn get_items_total_vat(&self) -> (r: u32)
        requires
            self.items_total_gross_spec() <= u32::MAX,
            self.items_total_net_spec() <= self.items_total_gross_spec(),
        ensures
            r == self.items_total_gross_spec() - self.items_total_net_spec(),
    {
        proof {
            lemma_sums_nonneg(self.shopping_list@, self.upls_unique@);
        }
        self.get_items_total_gross() - self.get_items_total_net()
    }

    /// The discount the commitment currently grants: the committed
    /// percentage of the gross items total, rounded to the nearest forint.
    pub fn get_commitment_discount_value(&self) -> (r: u32)
        requires
            self.items_total_gross_spec() <= u32::MAX,
            self.commitment matches Some(c) ==> c.commitment_percentage <= 100,
        ensures
            r == self.discount_value_spec(),
    {
        match self.commitment {
            Some(c) => {
                let g = self.get_items_total_gross();
                proof {
                    assert((g as int) * (c.commitment_percentage as int) <= 429_496_729_500int)
                        by (nonlinear_arith)
                        requires
                            0 <= g <= 4_294_967_295int,
                            0 <= c.commitment_percentage <= 100,
                    ;
                }
                let x: u64 = (g as u64) * (c.commitment_percentage as u64);
                let q: u64 = (2 * x + 100) / 200;
                proof {
                    lemma_discount_le_gross(g as int, c.commitment_percentage as int);
                }
                q as u32
            },
            None => 0,
        }
    }

    /// The burned-points balance: the sum of all burn deltas, floored at
    /// zero.
    pub fn get_burned_points_balance(&self) -> (r: u32)
        requires
            forall|i: int|
                0 <= i <= self.burned_points@.len() ==> 0 <= #[trigger] sum_burned(
                    self.burned_points@.take(i),
                ) <= u32::MAX,
        ensures
            r == self.burned_balance_spec(),
    {
        proof {
            let s = self.burned_points@;
            assert(0 <= sum_burned(s.take(s.len() as int)) <= u32::MAX);
            lemma_seq_sum_take_all(s, burned_fn());
        }
        let s = sum_burned_exec(&self.burned_points);
        if s > 0 {
            s as u32
        } else {
            0
        }
    }

    /// Net profit: the cached net total less the procurement prices of
    /// every attached tag.
    pub fn get_profit_net(&self) -> (r: i32)
        requires
            sum_upl_proc(self.upls_sku@) + sum_upl_proc(self.upls_unique@) <= i32::MAX,
            self.total_net <= i32::MAX,
        ensures
            r == self.total_net - (sum_upl_proc(self.upls_sku@) + sum_upl_proc(
                self.upls_unique@,
            )),
    {
        proof {
            lemma_sums_nonneg(self.shopping_list@, self.upls_sku@);
            lemma_sums_nonneg(self.shopping_list@, self.upls_unique@);
        }
        let a = sum_upl_proc_exec(&self.upls_sku);
        let b = sum_upl_proc_exec(&self.upls_unique);
        let procs = a + b;
        (self.total_net as i32) - (procs as i32)
    }

    /// Recompute every cached total from the current state. This is the
    /// one designated calculator, run at the end of every mutation.
    pub fn calculate_totals(&mut self)
        requires
            old(self).wf(),
        ensures
            *final(self) == (Cart {
                total_net: final(self).total_net,
                total_vat: final(self).total_vat,
                total_gross: final(self).total_gross,
                payable: final(self).payable,
                commitment_discount_value: final(self).commitment_discount_value,
                ..*old(self)
            }),
            final(self).totals_current(),
            final(self).wf(),
    {
        proof {
            lemma_sums_nonneg(self.shopping_list@, self.upls_unique@);
        }
        let items_net = self.get_items_total_net();
        let items_gross = self.get_items_total_gross();
        let discount = self.get_commitment_discount_value();
        let balance = self.get_burned_points_balance();
        let deduction = discount + balance;
        let x: u64 = 100 * (deduction as u64);
        let q: u64 = (2 * x + 127) / 254;
        proof {
            lemma_rdiv_range(x as int, 127);
        }
        let net_ded = q as u32;
        self.total_net = items_net - net_ded;
        self.total_gross = items_gross - deduction;
        self.total_vat = self.total_gross - self.total_net;
        match self.payment_kind {
            PaymentKind::Cash => {
                proof {
                    lemma_round_huf_nearest(self.total_gross as int);
                }
                self.payable = round_huf(self.total_gross as i32);
            },
            PaymentKind::Card => {
                self.payable = self.total_gross as i32;
            },
            PaymentKind::Transfer => {
                self.payable = self.total_gross as i32;
            },
        }
        self.commitment_discount_value = discount;
    }

    /// Set how the cart is settled. The payment due date is re-read from
    /// the clock: today for cash and card, thirty days ahead for a
    /// transfer; cash rounding of the payable amount follows the new kind.
    pub fn set_payment(&mut self, payment_kind: PaymentKind)
        requires
            old(self).wf(),
        ensures
            *final(self) == (Cart {
                payment_kind,
                payment_duedate: final(self).payment_duedate,
                total_net: final(self).total_net,
                total_vat: final(self).total_vat,
                total_gross: final(self).total_gross,
                payable: final(self).payable,
                commitment_discount_value: final(self).commitment_discount_value,
                ..*old(self)
            }),
            final(self).totals_current(),
            final(self).wf(),
    {
        match payment_kind {
            PaymentKind::Transfer => {
                self.payment_duedate = today_start_ts() + 30 * DAY_SECONDS;
            },
            PaymentKind::Cash => {
                self.payment_duedate = today_start_ts();
            },
            PaymentKind::Card => {
                self.payment_duedate = today_start_ts();
            },
        }
        self.payment_kind = payment_kind;
        self.calculate_totals();
    }

    /// Upsert a shopping-list line: an existing line of the same catalog
    /// code is fully replaced (not merged), otherwise a new line is
    /// appended. Totals are recomputed.
    pub fn add_sku(
        &mut self,
        sku: u32,
        piece: u32,
        name: String,
        vat: VAT,
        unit_retail_price_net: u32,
        unit_retail_price_gross: u32,
    )
        requires
            old(self).wf(),
            ListItem::new_fits(piece, vat, unit_retail_price_net, unit_retail_price_gross),
            state_ok(
                upsert_item(
                    old(self).shopping_list@,
                    ListItem::spec_new(
                        sku,
                        name,
                        piece,
                        vat,
                        unit_retail_price_net,
                        unit_retail_price_gross,
                    ),
                ),
                old(self).upls_sku@,
                old(self).upls_unique@,
                old(self).commitment,
                old(self).burned_points@,
                old(self).payments@,
            ),
        ensures
            *final(self) == (Cart {
                shopping_list: final(self).shopping_list,
                total_net: final(self).total_net,
                total_vat: final(self).total_vat,
                total_gross: final(self).total_gross,
                payable: final(self).payable,
                commitment_discount_value: final(self).commitment_discount_value,
                ..*old(self)
            }),
            final(self).shopping_list@ == upsert_item(
                old(self).shopping_list@,
                ListItem::spec_new(
                    sku,
                    name,
                    piece,
                    vat,
                    unit_retail_price_net,
                    unit_retail_price_gross,
                ),
            ),
            final(self).wf(),
            final(self).totals_current(),
    {
        let new_item = ListItem::new(
            sku,
            name,
            piece,
            vat,
            unit_retail_price_net,
            unit_retail_price_gross,
        );
        match find_sku_pos(&self.shopping_list, sku) {
            Some(p) => {
                let mut it = self.shopping_list.remove(p);
                it.replace(new_item);
                self.shopping_list.insert(p, it);
                proof {
                    assert(self.shopping_list@ =~= upsert_item(
                        old(self).shopping_list@,
                        ListItem::spec_new(
                            sku,
                            name,
                            piece,
                            vat,
                            unit_retail_price_net,
                            unit_retail_price_gross,
                        ),
                    ));
                }
            },
            None => {
                self.shopping_list.push(new_item);
            },
        }
        self.calculate_totals();
    }

    /// Remove a shopping-list line. Fails while any healthy tag still
    /// references the catalog code: tags must be detached first.
    pub fn remove_sku(&mut self, sku: u32) -> (r: Result<(), CartError>)
        requires
            old(self).wf(),
            !upl_has_sku(old(self).upls_sku@, sku) ==> state_ok(
                remove_sku_seq(old(self).shopping_list@, sku),
                old(self).upls_sku@,
                old(self).upls_unique@,
                old(self).commitment,
                old(self).burned_points@,
                old(self).payments@,
            ),
        ensures
            (r is Ok) == !upl_has_sku(old(self).upls_sku@, sku),
            r is Err ==> *final(self) == *old(self) && (r matches Err(e) && e is Conflict),
            r is Ok ==> {
                &&& *final(self) == (Cart {
                    shopping_list: final(self).shopping_list,
                    total_net: final(self).total_net,
                    total_vat: final(self).total_vat,
                    total_gross: final(self).total_gross,
                    payable: final(self).payable,
                    commitment_discount_value: final(self).commitment_discount_value,
                    ..*old(self)
                })
                &&& final(self).shopping_list@ == remove_sku_seq(old(self).shopping_list@, sku)
                &&& final(self).wf()
                &&& final(self).totals_current()
            },
    {
        if contains_upl_sku(&self.upls_sku, sku) {
            return Err(
                CartError::Conflict(
                    "the catalog code still has tagged units in the cart".to_owned(),
                ),
            );
        }
        retain_not_sku(&mut self.shopping_list, sku);
        self.calculate_totals();
        Ok(())
    }

    /// Replace the piece count of a shopping-list line and recompute the
    /// totals. Fails when the catalog code is absent.
    pub fn set_sku_piece(&mut self, sku: u32, piece: u32) -> (r: Result<(), CartError>)
        requires
            old(self).wf(),
            has_sku(old(self).shopping_list@, sku) ==> {
                &&& forall|i: int|
                    0 <= i < old(self).shopping_list@.len() && (#[trigger] old(
                        self,
                    ).shopping_list@[i]).sku == sku ==> ListItem::update_fits(
                        old(self).shopping_list@[i],
                        piece,
                    )
                &&& state_ok(
                    set_piece_seq(old(self).shopping_list@, sku, piece),
                    old(self).upls_sku@,
                    old(self).upls_unique@,
                    old(self).commitment,
                    old(self).burned_points@,
                    old(self).payments@,
                )
            },
        ensures
            (r is Ok) == has_sku(old(self).shopping_list@, sku),
            r is Err ==> *final(self) == *old(self) && (r matches Err(e) && e is NotFound),
            r is Ok ==> {
                &&& *final(self) == (Cart {
                    shopping_list: final(self).shopping_list,
                    total_net: final(self).total_net,
                    total_vat: final(self).total_vat,
                    total_gross: final(self).total_gross,
                    payable: final(self).payable,
                    commitment_discount_value: final(self).commitment_discount_value,
                    ..*old(self)
                })
                &&& final(self).shopping_list@ == set_piece_seq(
                    old(self).shopping_list@,
                    sku,
                    piece,
                )
                &&& final(self).wf()
                &&& final(self).totals_current()
            },
    {
        match find_sku_pos(&self.shopping_list, sku) {
            Some(p) => {
                let mut it = self.shopping_list.remove(p);
                it.update_piece(piece);
                self.shopping_list.insert(p, it);
                proof {
                    assert(self.shopping_list@ =~= set_piece_seq(
                        old(self).shopping_list@,
                        sku,
                        piece,
                    ));
                }
                self.calculate_totals();
                Ok(())
            },
            None => Err(CartError::NotFound("the catalog code is not in the cart".to_owned())),
        }
    }

    /// Attach a physically tagged unit. Fails when the tag id is already
    /// in the cart. A healthy catalog-unit tag joins the healthy
    /// collection and folds its pieces into the matching shopping-list
    /// line, opening the line when absent; a depreciated or derived tag
    /// joins the unique collection as a priced line of its own. Totals are
    /// recomputed.
    pub fn add_upl(&mut self, upl: UplInfoObject) -> (r: Result<(), CartError>)
        requires
            old(self).wf(),
            !(upl_id_present(old(self).upls_sku@, upl.upl_id@) || upl_id_present(
                old(self).upls_unique@,
                upl.upl_id@,
            )) ==> {
                &&& add_upl_list_fits(old(self).shopping_list@, upl)
                &&& state_ok(
                    add_upl_list(old(self).shopping_list@, upl),
                    add_upl_sku_upls(old(self).upls_sku@, upl),
                    add_upl_unique(old(self).upls_unique@, upl),
                    old(self).commitment,
                    old(self).burned_points@,
                    old(self).payments@,
                )
            },
        ensures
            (r is Ok) == !(upl_id_present(old(self).upls_sku@, upl.upl_id@) || upl_id_present(
                old(self).upls_unique@,
                upl.upl_id@,
            )),
            r is Err ==> *final(self) == *old(self) && (r matches Err(e) && e is Conflict),
            r is Ok ==> {
                &&& *final(self) == (Cart {
                    shopping_list: final(self).shopping_list,
                    upls_sku: final(self).upls_sku,
                    upls_unique: final(self).upls_unique,
                    total_net: final(self).total_net,
                    total_vat: final(self).total_vat,
                    total_gross: final(self).total_gross,
                    payable: final(self).payable,
                    commitment_discount_value: final(self).commitment_discount_value,
                    ..*old(self)
                })
                &&& final(self).shopping_list@ == add_upl_list(old(self).shopping_list@, upl)
                &&& final(self).upls_sku@ == add_upl_sku_upls(old(self).upls_sku@, upl)
                &&& final(self).upls_unique@ == add_upl_unique(old(self).upls_unique@, upl)
                &&& final(self).wf()
                &&& final(self).totals_current()
            },
    {
        if contains_upl_id(&self.upls_sku, &upl.upl_id) || contains_upl_id(
            &self.upls_unique,
            &upl.upl_id,
        ) {
            return Err(CartError::Conflict("the tag is already in the cart".to_owned()));
        }
        match upl.kind {
            UplKind::Sku { sku, piece } => {
                if upl.depreciated {
                    self.upls_unique.push(upl);
                } else {
                    let name2 = upl.name.clone();
                    let vat2 = upl.vat;
                    let net2 = upl.retail_net_price;
                    let gross2 = upl.retail_gross_price;
                    self.upls_sku.push(upl);
                    match find_sku_pos(&self.shopping_list, sku) {
                        Some(p) => {
                            let mut it = self.shopping_list.remove(p);
                            it.update_add_piece(piece);
                            self.shopping_list.insert(p, it);
                            proof {
                                assert(self.shopping_list@ =~= add_upl_list(
                                    old(self).shopping_list@,
                                    upl,
                                ));
                            }
                        },
                        None => {
                            self.shopping_list.push(
                                ListItem::new(sku, name2, piece, vat2, net2, gross2),
                            );
                        },
                    }
                }
            },
            UplKind::DerivedProduct { product_id: _, amount: _ } => {
                self.upls_unique.push(upl);
            },
        }
        self.calculate_totals();
        Ok(())
    }

    /// Detach a tag from whichever collection holds it; absence is a
    /// no-op. The shopping-list piece count is deliberately left alone, so
    /// a resulting mismatch stays for `close_cart` to catch. Totals are
    /// recomputed.
    pub fn remove_upl(&mut self, upl_id: String) -> (r: Result<(), CartError>)
        requires
            old(self).wf(),
            state_ok(
                old(self).shopping_list@,
                remove_upl_seq(old(self).upls_sku@, upl_id@),
                remove_upl_seq(old(self).upls_unique@, upl_id@),
                old(self).commitment,
                old(self).burned_points@,
                old(self).payments@,
            ),
        ensures
            r is Ok,
            *final(self) == (Cart {
                upls_sku: final(self).upls_sku,
                upls_unique: final(self).upls_unique,
                total_net: final(self).total_net,
                total_vat: final(self).total_vat,
                total_gross: final(self).total_gross,
                payable: final(self).payable,
                commitment_discount_value: final(self).commitment_discount_value,
                ..*old(self)
            }),
            final(self).upls_sku@ == remove_upl_seq(old(self).upls_sku@, upl_id@),
            final(self).upls_unique@ == remove_upl_seq(old(self).upls_unique@, upl_id@),
            final(self).wf(),
            final(self).totals_current(),
    {
        retain_not_upl_id(&mut self.upls_sku, &upl_id);
        retain_not_upl_id(&mut self.upls_unique, &upl_id);
        self.calculate_totals();
        Ok(())
    }

    /// Attach a loyalty card. Fails when one is already attached.
    pub fn add_loyalty_card(
        &mut self,
        account_id: u128,
        card_id: String,
        loyalty_level: LoyaltyLevel,
    ) -> (r: Result<(), CartError>)
        ensures
            (r is Ok) == (old(self).loyalty_card is None),
            r is Err ==> *final(self) == *old(self) && (r matches Err(e) && e is Conflict),
            r is Ok ==> *final(self) == (Cart {
                loyalty_card: Some(
                    (LoyaltyCard { account_id, card_id, level: loyalty_level }),
                ),
                ..*old(self)
            }),
    {
        match self.loyalty_card {
            Some(_) => Err(
                CartError::Conflict(
                    "a loyalty card is already attached, detach it first".to_owned(),
                ),
            ),
            None => {
                self.loyalty_card = Some(LoyaltyCard::new(account_id, card_id, loyalty_level));
                Ok(())
            },
        }
    }

    /// Detach the loyalty card. Fails when none is attached, or while the
    /// burned-points balance is not exactly zero.
    pub fn remove_loyalty_card(&mut self) -> (r: Result<(), CartError>)
        requires
            forall|i: int|
                0 <= i <= old(self).burned_points@.len() ==> 0 <= #[trigger] sum_burned(
                    old(self).burned_points@.take(i),
                ) <= u32::MAX,
        ensures
            (r is Ok) == (old(self).loyalty_card is Some && old(self).burned_balance_spec()
                == 0),
            old(self).loyalty_card is None ==> *final(self) == *old(self) && (r matches Err(e)
                && e is NotFound),
            old(self).loyalty_card is Some && old(self).burned_balance_spec() != 0
                ==> *final(self) == *old(self) && (r matches Err(e) && e is Conflict),
            r is Ok ==> *final(self) == (Cart { loyalty_card: None, ..*old(self) }),
    {
        if self.loyalty_card.is_none() {
            return Err(
                CartError::NotFound("no loyalty card is attached to the cart".to_owned()),
            );
        }
        let bal = self.get_burned_points_balance();
        if bal == 0 {
            self.loyalty_card = None;
            Ok(())
        } else {
            Err(
                CartError::Conflict(
                    "the burned points balance must be zero before the card can go".to_owned(),
                ),
            )
        }
    }

    /// Burn loyalty points under a unique transaction id. Fails when a
    /// negative delta would drive the balance below zero, or when the
    /// transaction id was already recorded. Totals are recomputed.
    pub fn burn_points(
        &mut self,
        loyalty_account_id: u128,
        transaction_id: u128,
        points_to_burn: i32,
    ) -> (r: Result<(), CartError>)
        requires
            old(self).wf(),
            (!txn_present(old(self).burned_points@, transaction_id) && (points_to_burn >= 0
                || old(self).burned_balance_spec() >= -(points_to_burn as int))) ==> {
                let s2 = sum_burned(old(self).burned_points@) + points_to_burn;
                let g = old(self).items_total_gross_spec();
                let n = old(self).items_total_net_spec();
                let d = discount_of(old(self).commitment, g) + (if s2 > 0 {
                    s2
                } else {
                    0
                });
                &&& s2 <= u32::MAX
                &&& d <= g
                &&& rdiv(100 * d, 127) <= n
                &&& n - rdiv(100 * d, 127) <= g - d
            },
        ensures
            (r is Ok) == (!(points_to_burn < 0 && old(self).burned_balance_spec() < -(
            points_to_burn as int)) && !txn_present(old(self).burned_points@, transaction_id)),
            points_to_burn < 0 && old(self).burned_balance_spec() < -(points_to_burn as int)
                ==> *final(self) == *old(self) && (r matches Err(e) && e is Conflict),
            !(points_to_burn < 0 && old(self).burned_balance_spec() < -(points_to_burn as int))
                && txn_present(old(self).burned_points@, transaction_id) ==> *final(self)
                == *old(self) && (r matches Err(e) && e is Conflict),
            r is Ok ==> {
                &&& *final(self) == (Cart {
                    burned_points: final(self).burned_points,
                    total_net: final(self).total_net,
                    total_vat: final(self).total_vat,
                    total_gross: final(self).total_gross,
                    payable: final(self).payable,
                    commitment_discount_value: final(self).commitment_discount_value,
                    ..*old(self)
                })
                &&& final(self).burned_points@ == old(self).burned_points@.push(
                    final(self).burned_points@.last(),
                )
                &&& final(self).burned_points@.last().loyalty_account_id == loyalty_account_id
                &&& final(self).burned_points@.last().transaction_id == transaction_id
                &&& final(self).burned_points@.last().burned_points == points_to_burn
                &&& final(self).wf()
                &&& final(self).totals_current()
            },
    {
        if points_to_burn < 0 {
            let bal = self.get_burned_points_balance();
            if (bal as i64) < -(points_to_burn as i64) {
                return Err(
                    CartError::Conflict(
                        "more points would leave the cart than were burned into it".to_owned(),
                    ),
                );
            }
        }
        if contains_txn(&self.burned_points, transaction_id) {
            return Err(
                CartError::Conflict(
                    "the transaction is already among the burned points".to_owned(),
                ),
            );
        }
        let t = LoyaltyTransaction {
            loyalty_account_id,
            transaction_id,
            burned_points: points_to_burn,
            created_at: now_ts(),
        };
        proof {
            let s = self.burned_points@;
            lemma_seq_sum_push(s, burned_fn(), t);
            assert(0 <= sum_burned(s.take(s.len() as int)) <= u32::MAX);
            lemma_seq_sum_take_all(s, burned_fn());
            assert forall|i: int| 0 <= i <= s.push(t).len() implies 0 <= #[trigger] sum_burned(
                s.push(t).take(i),
            ) <= u32::MAX by {
                if i <= s.len() {
                    lemma_take_of_push(s, t, i);
                } else {
                    assert(s.push(t).take(i) =~= s.push(t));
                }
            }
        }
        self.burned_points.push(t);
        self.calculate_totals();
        Ok(())
    }

    /// Attach a commitment: a percentage discount agreement, replacing any
    /// prior one. Totals are recomputed.
    pub fn add_commitment(&mut self, commitment_id: u128, commitment_percentage: u32) -> (r:
        Result<(), CartError>)
        requires
            old(self).wf(),
            commitment_percentage <= 100,
            state_ok(
                old(self).shopping_list@,
                old(self).upls_sku@,
                old(self).upls_unique@,
                Some((Commitment { commitment_id, commitment_percentage })),
                old(self).burned_points@,
                old(self).payments@,
            ),
        ensures
            r is Ok,
            *final(self) == (Cart {
                commitment: Some((Commitment { commitment_id, commitment_percentage })),
                total_net: final(self).total_net,
                total_vat: final(self).total_vat,
                total_gross: final(self).total_gross,
                payable: final(self).payable,
                commitment_discount_value: final(self).commitment_discount_value,
                ..*old(self)
            }),
            final(self).wf(),
            final(self).totals_current(),
    {
        let new_commitment = Commitment::new(commitment_id, commitment_percentage);
        self.commitment = Some(new_commitment);
        self.calculate_totals();
        Ok(())
    }

    /// Detach the commitment and recompute the totals. Fails when none is
    /// attached.
    pub fn remove_commitment(&mut self) -> (r: Result<(), CartError>)
        requires
            old(self).wf(),
            old(self).commitment is Some ==> state_ok(
                old(self).shopping_list@,
                old(self).upls_sku@,
                old(self).upls_unique@,
                None::<Commitment>,
                old(self).burned_points@,
                old(self).payments@,
            ),
        ensures
            (r is Ok) == (old(self).commitment is Some),
            r is Err ==> *final(self) == *old(self) && (r matches Err(e) && e is NotFound),
            r is Ok ==> {
                &&& *final(self) == (Cart {
                    commitment: None,
                    total_net: final(self).total_net,
                    total_vat: final(self).total_vat,
                    total_gross: final(self).total_gross,
                    payable: final(self).payable,
                    commitment_discount_value: final(self).commitment_discount_value,
                    ..*old(self)
                })
                &&& final(self).wf()
                &&& final(self).totals_current()
            },
    {
        if self.commitment.is_none() {
            return Err(
                CartError::NotFound("no commitment is attached to the cart".to_owned()),
            );
        }
        self.commitment = None;
        self.calculate_totals();
        Ok(())
    }

    /// An invoice-kind cart must have a billing party attached.
    pub open spec fn close_invoice_ok(&self) -> bool {
        self.document_kind is Invoice ==> self.customer is Some
    }

    /// Every shopping-list line's piece count equals the pieces its
    /// healthy tags back.
    pub open spec fn close_quantities_ok(&self) -> bool {
        forall|i: int|
            0 <= i < self.shopping_list@.len() ==> (#[trigger] self.shopping_list@[i]).piece
                == sum_upl_piece_for(self.upls_sku@, self.shopping_list@[i].sku)
    }

    /// The cached net, VAT and gross totals equal what the calculator
    /// would produce from the current state.
    pub open spec fn close_totals_ok(&self) -> bool {
        &&& self.total_net == self.total_net_spec()
        &&& self.total_vat == self.total_vat_spec()
        &&& self.total_gross == self.total_gross_spec()
    }

    /// Cash and card carts must be settled to the forint; a transfer may
    /// only close as an invoice.
    pub open spec fn close_payment_ok(&self) -> bool {
        match self.payment_kind {
            PaymentKind::Cash => self.payable - sum_payments(self.payments@) == 0,
            PaymentKind::Card => self.payable - sum_payments(self.payments@) == 0,
            PaymentKind::Transfer => self.document_kind is Invoice,
        }
    }

    /// All four close-time gates.
    pub open spec fn close_ok(&self) -> bool {
        &&& self.close_invoice_ok()
        &&& self.close_quantities_ok()
        &&& self.close_totals_ok()
        &&& self.close_payment_ok()
    }

    /// The terminal validation gate. Re-verifies, in order: an invoice has
    /// a customer; every line's piece count is exactly backed by healthy
    /// tags; the cached totals match a fresh recomputation; and the
    /// payment rule of the chosen kind holds. The first failure wins and
    /// leaves the cart untouched. On success the cart is frozen into the
    /// purchase record it becomes; the caller is responsible for storing
    /// the record and discarding the cart.
    pub fn close_cart(&self) -> (r: Result<Purchase, CartError>)
        requires
            self.wf(),
            self.payment_kind is Transfer ==> i32::MIN <= self.payable - sum_payments(
                self.payments@,
            ) <= i32::MAX,
        ensures
            (r is Ok) == self.close_ok(),
            r matches Ok(p) ==> purchase_from_cart(p, *self),
            !self.close_invoice_ok() ==> (r matches Err(e) && e matches CartError::Rejected(m)
                && m@ == "invoice requires customer"@),
            self.close_invoice_ok() && !self.close_quantities_ok() ==> (r matches Err(e)
                && e matches CartError::Rejected(m) && m@ == "sku/tag quantity mismatch"@),
            self.close_invoice_ok() && self.close_quantities_ok() && !self.close_totals_ok()
                ==> (r matches Err(e) && e matches CartError::Rejected(m) && m@
                == "totals inconsistent"@),
            self.close_invoice_ok() && self.close_quantities_ok() && self.close_totals_ok()
                && !self.close_payment_ok() ==> (r matches Err(e) && e matches
                CartError::Rejected(m) && m@ == (match self.payment_kind {
                PaymentKind::Cash => "cash payment is not settled"@,
                PaymentKind::Card => "card payment is not settled"@,
                PaymentKind::Transfer => "a transfer requires an invoice"@,
            })),
    {
        match self.document_kind {
            DocumentKind::Invoice => {
                if self.customer.is_none() {
                    return Err(CartError::Rejected("invoice requires customer".to_owned()));
                }
            },
            DocumentKind::Receipt => {},
        }
        let mut i: usize = 0;
        while i < self.shopping_list.len()
            invariant
                0 <= i <= self.shopping_list@.len(),
                self.wf(),
                self.close_invoice_ok(),
                forall|j: int|
                    0 <= j < i ==> (#[trigger] self.shopping_list@[j]).piece
                        == sum_upl_piece_for(self.upls_sku@, self.shopping_list@[j].sku),
            decreases self.shopping_list@.len() - i,
        {
            let backed = sum_upl_piece_for_exec(&self.upls_sku, self.shopping_list[i].sku);
            if self.shopping_list[i].piece != backed {
                return Err(CartError::Rejected("sku/tag quantity mismatch".to_owned()));
            }
            i = i + 1;
        }
        proof {
            lemma_sums_nonneg(self.shopping_list@, self.upls_unique@);
        }
        let items_net = self.get_items_total_net();
        let items_gross = self.get_items_total_gross();
        let discount = self.get_commitment_discount_value();
        let balance = self.get_burned_points_balance();
        let deduction = discount + balance;
        let x: u64 = 100 * (deduction as u64);
        let q: u64 = (2 * x + 127) / 254;
        proof {
            lemma_rdiv_range(x as int, 127);
        }
        let tn = items_net - (q as u32);
        let tg = items_gross - deduction;
        let tv = tg - tn;
        if tn != self.total_net || tv != self.total_vat || tg != self.total_gross {
            return Err(CartError::Rejected("totals inconsistent".to_owned()));
        }
        match self.payment_kind {
            PaymentKind::Cash => {
                let paid = self.get_payment_total();
                if (self.payable as i64) - (paid as i64) != 0 {
                    return Err(
                        CartError::Rejected("cash payment is not settled".to_owned()),
                    );
                }
            },
            PaymentKind::Card => {
                let paid = self.get_payment_total();
                if (self.payable as i64) - (paid as i64) != 0 {
                    return Err(
                        CartError::Rejected("card payment is not settled".to_owned()),
                    );
                }
            },
            PaymentKind::Transfer => {
                match self.document_kind {
                    DocumentKind::Receipt => {
                        return Err(
                            CartError::Rejected("a transfer requires an invoice".to_owned()),
                        );
                    },
                    DocumentKind::Invoice => {},
                }
            },
        }
        Ok(Purchase::from_cart(self))
    }
}

/// After every totals recomputation the cached gross total is exactly the
/// items total less the commitment discount and the burned-points
/// balance.
pub proof fn lemma_total_gross_equation(c: Cart)
    requires
        c.totals_current(),
    ensures
        c.total_gross == c.items_total_gross_spec() - c.discount_value_spec()
            - c.burned_balance_spec(),
{
}

/// Removing a tag id that a collection does not hold changes nothing.
pub proof fn lemma_remove_upl_fresh(s: Seq<UplInfoObject>, id: Seq<char>)
    requires
        !upl_id_present(s, id),
    ensures
        remove_upl_seq(s, id) == s,
    decreases s.len(),
{
    if s.len() > 0 {
        assert(s[s.len() - 1] == s.last());
        assert forall|i: int| 0 <= i < s.drop_last().len() implies (#[trigger] s.drop_last()[
            i
        ]).upl_id@ != id by {
            assert(s.drop_last()[i] == s[i]);
        }
        lemma_remove_upl_fresh(s.drop_last(), id);
        assert(remove_upl_seq(s, id) =~= s);
    } else {
        assert(remove_upl_seq(s, id) =~= s);
    }
}

/// Detaching a tag does not restore the shopping-list piece count that
/// attaching it folded in. After a healthy catalog-unit tag with a
/// non-zero piece count is added to a line whose count its healthy tags
/// exactly back, and the same tag id is removed again, the line's count
/// exceeds its backed count, so the quantity gate of `close_cart` rejects
/// the cart until the caller adjusts the piece explicitly.
pub proof fn lemma_remove_after_add_leaves_mismatch(
    list: Seq<ListItem>,
    upls: Seq<UplInfoObject>,
    u: UplInfoObject,
    sku: u32,
    piece: u32,
    i: int,
)
    requires
        u.kind == (UplKind::Sku { sku, piece }),
        !u.depreciated,
        piece > 0,
        !upl_id_present(upls, u.upl_id@),
        0 <= i < list.len(),
        list[i].sku == sku,
        list[i].piece + piece <= u32::MAX,
        list[i].piece == sum_upl_piece_for(upls, sku),
    ensures
        add_upl_list(list, u)[i].piece == list[i].piece + piece,
        remove_upl_seq(add_upl_sku_upls(upls, u), u.upl_id@) == upls,
        add_upl_list(list, u)[i].piece != sum_upl_piece_for(
            remove_upl_seq(add_upl_sku_upls(upls, u), u.upl_id@),
            add_upl_list(list, u)[i].sku,
        ),
{
    assert(has_sku(list, sku));
    let list1 = add_upl_list(list, u);
    assert(list1[i] == ListItem::spec_update_piece(list[i], ((list[i].piece + piece) as u32)));
    let upls1 = add_upl_sku_upls(upls, u);
    assert(upls1 == upls.push(u));
    assert(upls1.last().upl_id@ == u.upl_id@);
    assert(upls1.drop_last() =~= upls);
    lemma_remove_upl_fresh(upls, u.upl_id@);
    assert(remove_upl_seq(upls1, u.upl_id@) == upls);
}

/// A recorded burn stays recorded: its transaction id is present in the
/// grown sequence, so a second burn under the same id meets the duplicate
/// gate of `burn_points`.
pub proof fn lemma_burned_txn_present(s: Seq<LoyaltyTransaction>, t: LoyaltyTransaction)
    ensures
        txn_present(s.push(t), t.transaction_id),
{
    assert(s.push(t)[s.len() as int] == t);
}

/// Whether some burn transaction carries this transaction id.
fn contains_txn(v: &Vec<LoyaltyTransaction>, txn: u128) -> (r: bool)
    ensures
        r == txn_present(v@, txn),
{
    let mut i: usize = 0;
    while i < v.len()
        invariant
            0 <= i <= v@.len(),
            forall|j: int| 0 <= j < i ==> (#[trigger] v@[j]).transaction_id != txn,
        decreases v@.len() - i,
    {
        if v[i].transaction_id == txn {
            return true;
        }
        i = i + 1;
    }
    false
}

impl Default for Commitment {
    fn default() -> (r: Self)
        ensures
            r.commitment_id == 0,
            r.commitment_percentage == 0,
    {
        Self { commitment_id: 0, commitment_percentage: 0 }
    }
}

impl Default for LoyaltyLevel {
    fn default() -> (r: Self)
        ensures
            r == LoyaltyLevel::L1,
    {
        LoyaltyLevel::L1
    }
}

impl Default for LoyaltyCard {
    fn default() -> (r: Self)
        ensures
            r.account_id == 0,
            r.card_id@ == Seq::<char>::empty(),
            r.level == LoyaltyLevel::L1,
    {
        Self { account_id: 0, card_id: String::new(), level: LoyaltyLevel::L1 }
    }
}

impl Default for LoyaltyTransaction {
    /// Zeroed identifiers and points; the creation time is read from the
    /// clock.
    fn default() -> (r: Self)
        ensures
            r.loyalty_account_id == 0,
            r.transaction_id == 0,
            r.burned_points == 0,
    {
        Self { loyalty_account_id: 0, transaction_id: 0, burned_points: 0, created_at: now_ts() }
    }
}

impl Default for DocumentKind {
    fn default() -> (r: Self)
        ensures
            r == DocumentKind::Receipt,
    {
        DocumentKind::Receipt
    }
}

impl Default for PaymentKind {
    fn default() -> (r: Self)
        ensures
            r == PaymentKind::Cash,
    {
        PaymentKind::Cash
    }
}

impl Default for Customer {
    fn default() -> (r: Self)
        ensures
            r.id == 0,
            r.name@ == Seq::<char>::empty(),
            r.zip@ == Seq::<char>::empty(),
            r.location@ == Seq::<char>::empty(),
            r.street@ == Seq::<char>::empty(),
            r.tax_number@ == Seq::<char>::empty(),
    {
        Self {
            id: 0,
            name: String::new(),
            zip: String::new(),
            location: String::new(),
            street: String::new(),
            tax_number: String::new(),
        }
    }
}

impl Default for Payment {
    fn default() -> (r: Self)
        ensures
            r.payment_id@ == Seq::<char>::empty(),
            r.amount == 0,
    {
        Self { payment_id: String::new(), amount: 0 }
    }
}

impl Default for UplKind {
    fn default() -> (r: Self)
        ensures
            r == (UplKind::Sku { sku: 0, piece: 0 }),
    {
        UplKind::Sku { sku: 0, piece: 0 }
    }
}

impl Default for UplInfoObject {
    fn default() -> (r: Self)
        ensures
            r.upl_id@ == Seq::<char>::empty(),
            r.kind == (UplKind::Sku { sku: 0, piece: 0 }),
            r.name@ == Seq::<char>::empty(),
            r.retail_net_price == 0,
            r.vat == VAT::_27,
            r.retail_gross_price == 0,
            r.procurement_net_price == 0,
            r.best_before is None,
            !r.depreciated,
    {
        Self {
            upl_id: String::new(),
            kind: UplKind::Sku { sku: 0, piece: 0 },
            name: String::new(),
            retail_net_price: 0,
            vat: VAT::_27,
            retail_gross_price: 0,
            procurement_net_price: 0,
            best_before: None,
            depreciated: false,
        }
    }
}

impl Default for ListItem {
    fn default() -> (r: Self)
        ensures
            r.sku == 0,
            r.name@ == Seq::<char>::empty(),
            r.piece == 0,
            r.vat == VAT::_27,
            r.unit_price_net == 0,
            r.unit_price_vat == 0,
            r.unit_price_gross == 0,
            r.total_price_net == 0,
            r.total_price_vat == 0,
            r.total_price_gross == 0,
    {
        Self {
            sku: 0,
            name: String::new(),
            piece: 0,
            vat: VAT::_27,
            unit_price_net: 0,
            unit_price_vat: 0,
            unit_price_gross: 0,
            total_price_net: 0,
            total_price_vat: 0,
            total_price_gross: 0,
        }
    }
}

impl Default for Cart {
    /// An empty open cart with the nil identifier; the dates are read from
    /// the clock.
    fn default() -> (r: Self)
        ensures
            r.id == 0,
            r.ancestor is None,
            r.customer is None,
            r.commitment is None,
            r.loyalty_card is None,
            r.shopping_list@ =~= Seq::<ListItem>::empty(),
            r.upls_sku@ =~= Seq::<UplInfoObject>::empty(),
            r.upls_unique@ =~= Seq::<UplInfoObject>::empty(),
            r.payments@ =~= Seq::<Payment>::empty(),
            r.burned_points@ =~= Seq::<LoyaltyTransaction>::empty(),
            r.total_net == 0,
            r.total_vat == 0,
            r.total_gross == 0,
            r.payable == 0,
            r.commitment_discount_value == 0,
            r.document_kind is Receipt,
            r.payment_kind is Cash,
            r.owner_uid == 0,
            r.store_id is None,
            r.created_by == 0,
            r.wf(),
            r.totals_current(),
    {
        let mut c = Cart::new(0, None, 0);
        c.id = 0;
        c
    }
}

/// Sum the signed burn deltas; every running sum stays within the burned
/// bounds.
fn sum_burned_exec(v: &Vec<LoyaltyTransaction>) -> (r: i64)
    requires
        forall|i: int|
            0 <= i <= v@.len() ==> 0 <= #[trigger] sum_burned(v@.take(i)) <= u32::MAX,
    ensures
        r == sum_burned(v@),
{
    let mut total: i64 = 0;
    let mut i: usize = 0;
    while i < v.len()
        invariant
            0 <= i <= v@.len(),
            forall|j: int|
                0 <= j <= v@.len() ==> 0 <= #[trigger] sum_burned(v@.take(j)) <= u32::MAX,
            total == seq_sum(v@.take(i as int), burned_fn()),
        decreases v@.len() - i,
    {
        proof {
            lemma_seq_sum_take_step(v@, burned_fn(), i as int);
            assert(sum_burned(v@.take(i as int + 1)) == total + v@[i as int].burned_points);
        }
        total = total + (v[i].burned_points as i64);
        i = i + 1;
    }
    proof {
        lemma_seq_sum_take_all(v@, burned_fn());
    }
    total
}

} // verus!
