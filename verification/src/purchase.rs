//! The immutable purchase record a successfully closed cart becomes. Its
//! item ledger flattens the shopping-list lines and the unique tags into
//! one sequence tagged by item kind; balance and net profit are frozen at
//! close time. After creation the record only ever gains an invoice
//! reference or a loyalty summary.

use vstd::prelude::*;
use crate::cart;
use crate::clock::{now_ts, today_start_ts};
use crate::cart::{balance_of, sum_payments, sum_upl_proc, lemma_sums_nonneg, lemma_model_fns_nonneg};
use crate::errors::CartError;
use crate::sums::{
    lemma_seq_sum_nonneg, lemma_seq_sum_take_le, lemma_seq_sum_take_step, seq_sum,
};
use crate::vat::spec_vat_code;

verus! {

/// Receipt or invoice.
#[derive(Clone, Copy, Debug, PartialEq, Eq, Structural)]
pub enum DocumentKind {
    Receipt,
    Invoice,
}

/// The billing party frozen into the record.
#[derive(Clone, Debug)]
pub struct Customer {
    pub id: u32,
    pub name: String,
    pub zip: String,
    pub location: String,
    pub street: String,
    pub tax_number: String,
}

/// How the purchase was settled.
#[derive(Clone, Copy, Debug, PartialEq, Eq, Structural)]
pub enum PaymentKind {
    Cash,
    Card,
    Transfer,
}

/// One settlement record.
#[derive(Clone, Debug)]
pub struct Payment {
    pub payment_id: String,
    pub amount: i32,
}

/// What kind of item a ledger entry is.
#[derive(Clone, Copy, Debug, PartialEq, Eq, Structural)]
pub enum ItemKind {
    Sku,
    SkuDepreciated,
    DerivedProduct,
}

/// One entry of the flattened item ledger.
#[derive(Clone, Debug)]
pub struct Item {
    pub kind: ItemKind,
    pub product_id: u32,
    pub name: String,
    pub piece: u32,
    pub retail_price_net: u32,
    pub vat: String,
    pub retail_price_gross: u32,
    pub total_retail_price_net: u32,
    pub total_retail_price_gross: u32,
}

/// What a tagged unit stood for.
#[derive(Clone, Copy, Debug, PartialEq, Eq, Structural)]
pub enum UplKind {
    Sku { sku: u32, piece: u32 },
    DerivedProduct { product_id: u32, amount: u32 },
}

/// A tagged unit as frozen into the record; the VAT code is kept as text.
#[derive(Clone, Debug)]
pub struct UplInfoObject {
    pub upl_id: String,
    pub kind: UplKind,
    pub name: String,
    pub retail_net_price: u32,
    pub vat: String,
    pub retail_gross_price: u32,
    pub procurement_net_price: u32,
    pub best_before: Option<i64>,
    pub depreciated: bool,
}

/// The discount agreement frozen into the record.
#[derive(Clone, Copy, Debug, PartialEq, Eq, Structural)]
pub struct Commitment {
    pub commitment_id: u128,
    pub commitment_percentage: u32,
}

/// Levels a loyalty card can have.
#[derive(Clone, Copy, Debug, PartialEq, Eq, Structural)]
pub enum LoyaltyLevel {
    L1,
    L2,
}

/// The loyalty card frozen into the record, with the summary balances the
/// loyalty service reconciles after the purchase.
#[derive(Clone, Debug)]
pub struct LoyaltyCard {
    pub account_id: u128,
    pub card_id: String,
    pub level: LoyaltyLevel,
    pub balance_opening: i32,
    pub burned_points: i32,
    pub earned_points: i32,
    pub balance_closing: i32,
}

/// One loyalty-point burn frozen into the record.
#[derive(Clone, Copy, Debug)]
pub struct LoyaltyTransaction {
    pub loyalty_account_id: u128,
    pub transaction_id: u128,
    pub burned_points: i32,
    pub created_at: i64,
}

/// An immutable finalized transaction record.
#[derive(Clone, Debug)]
pub struct Purchase {
    /// Identifier, carried over from the cart.
    pub id: u128,
    /// The billing party, if one was attached.
    pub customer: Option<Customer>,
    /// The applied discount agreement, if any.
    pub commitment: Option<Commitment>,
    /// The discount value the agreement granted.
    pub commitment_discount_value: u32,
    /// The applied loyalty card, if any.
    pub loyalty_card: Option<LoyaltyCard>,
    /// The flattened item ledger: shopping-list lines, then unique tags.
    pub items: Vec<Item>,
    /// Every tag that participated: healthy ones, then unique ones.
    pub upl_info_objects: Vec<UplInfoObject>,
    /// Net total, in HUF.
    pub total_net: u32,
    /// VAT total.
    pub total_vat: u32,
    /// Gross total, in HUF.
    pub total_gross: u32,
    /// Receipt or invoice.
    pub document_kind: DocumentKind,
    /// How the purchase was settled.
    pub payment_kind: PaymentKind,
    /// Settlement records.
    pub payments: Vec<Payment>,
    /// Loyalty-point burns.
    pub burned_points: Vec<LoyaltyTransaction>,
    /// Total burned loyalty points, as a gross discount.
    pub burned_loyalty_points: u32,
    /// Payable amount frozen at close.
    pub payable: i32,
    /// Payment balance frozen at close.
    pub balance: i32,
    /// Net profit frozen at close.
    pub profit_net: i32,
    /// Shop assistant.
    pub owner_uid: u32,
    /// Where the cart physically was, if anywhere.
    pub store_id: Option<u32>,
    /// Completion date, seconds since the Unix epoch.
    pub date_completion: i64,
    /// Payment due date, seconds since the Unix epoch.
    pub payment_duedate: i64,
    /// The purchase this one replaces, when it restores an earlier one.
    pub restored: Option<u128>,
    /// Invoice reference, attached after the fact.
    pub invoice: Option<String>,
    /// Storno invoice reference, attached after the fact.
    pub storno_invoice: Option<String>,
    /// Who created the originating cart.
    pub created_by: u32,
    /// When the originating cart was created.
    pub created_at: i64,
}

// ---------------------------------------------------------------------
// How cart values map into the record.
// ---------------------------------------------------------------------

pub open spec fn doc_kind_of(d: cart::DocumentKind) -> DocumentKind {
    match d {
        cart::DocumentKind::Receipt => DocumentKind::Receipt,
        cart::DocumentKind::Invoice => DocumentKind::Invoice,
    }
}

pub open spec fn payment_kind_of(k: cart::PaymentKind) -> PaymentKind {
    match k {
        cart::PaymentKind::Cash => PaymentKind::Cash,
        cart::PaymentKind::Card => PaymentKind::Card,
        cart::PaymentKind::Transfer => PaymentKind::Transfer,
    }
}

pub open spec fn customer_of(c: cart::Customer) -> Customer {
    Customer {
        id: c.id,
        name: c.name,
        zip: c.zip,
        location: c.location,
        street: c.street,
        tax_number: c.tax_number,
    }
}

pub open spec fn commitment_of(c: cart::Commitment) -> Commitment {
    Commitment {
        commitment_id: c.commitment_id,
        commitment_percentage: c.commitment_percentage,
    }
}

pub open spec fn loyalty_level_of(l: cart::LoyaltyLevel) -> LoyaltyLevel {
    match l {
        cart::LoyaltyLevel::L1 => LoyaltyLevel::L1,
        cart::LoyaltyLevel::L2 => LoyaltyLevel::L2,
    }
}

/// The card is frozen with empty summary balances; the loyalty service
/// fills them in afterwards.
pub open spec fn loyalty_card_of(c: cart::LoyaltyCard) -> LoyaltyCard {
    LoyaltyCard {
        account_id: c.account_id,
        card_id: c.card_id,
        level: loyalty_level_of(c.level),
        balance_opening: 0,
        burned_points: 0,
        earned_points: 0,
        balance_closing: 0,
    }
}

pub open spec fn payment_of(p: cart::Payment) -> Payment {
    Payment { payment_id: p.payment_id, amount: p.amount }
}

pub open spec fn transaction_of(t: cart::LoyaltyTransaction) -> LoyaltyTransaction {
    LoyaltyTransaction {
        loyalty_account_id: t.loyalty_account_id,
        transaction_id: t.transaction_id,
        burned_points: t.burned_points,
        created_at: t.created_at,
    }
}

pub open spec fn upl_kind_of(k: cart::UplKind) -> UplKind {
    match k {
        cart::UplKind::Sku { sku, piece } => UplKind::Sku { sku, piece },
        cart::UplKind::DerivedProduct { product_id, amount } => UplKind::DerivedProduct {
            product_id,
            amount,
        },
    }
}

/// A frozen tag carries the same data as the cart's, with the VAT code as
/// text.
pub open spec fn upl_matches(pu: UplInfoObject, u: cart::UplInfoObject) -> bool {
    &&& pu.upl_id == u.upl_id
    &&& pu.kind == upl_kind_of(u.kind)
    &&& pu.name == u.name
    &&& pu.retail_net_price == u.retail_net_price
    &&& pu.vat@ == spec_vat_code(u.vat)
    &&& pu.retail_gross_price == u.retail_gross_price
    &&& pu.procurement_net_price == u.procurement_net_price
    &&& pu.best_before == u.best_before
    &&& pu.depreciated == u.depreciated
}

/// A ledger entry made of a shopping-list line: a plain catalog item.
pub open spec fn item_from_line(it: Item, li: cart::ListItem) -> bool {
    &&& it.kind == ItemKind::Sku
    &&& it.product_id == 0
    &&& it.name == li.name
    &&& it.piece == li.piece
    &&& it.retail_price_net == li.unit_price_net
    &&& it.vat@ == spec_vat_code(li.vat)
    &&& it.retail_price_gross == li.unit_price_gross
    &&& it.total_retail_price_net == li.total_price_net
    &&& it.total_retail_price_gross == li.total_price_gross
}

/// The ledger kind a unique tag maps to: a depreciated catalog unit keeps
/// its identity, a derived product stays a derived product.
pub open spec fn item_kind_of_upl(u: cart::UplInfoObject) -> ItemKind {
    match u.kind {
        cart::UplKind::Sku { sku, piece } => if u.depreciated {
            ItemKind::SkuDepreciated
        } else {
            ItemKind::Sku
        },
        cart::UplKind::DerivedProduct { product_id, amount } => ItemKind::DerivedProduct,
    }
}

/// The product id a unique tag contributes to its ledger entry.
pub open spec fn item_product_id_of_upl(u: cart::UplInfoObject) -> u32 {
    match u.kind {
        cart::UplKind::Sku { sku, piece } => 0,
        cart::UplKind::DerivedProduct { product_id, amount } => product_id,
    }
}

/// A ledger entry made of a unique tag.
pub open spec fn item_from_upl(it: Item, u: cart::UplInfoObject) -> bool {
    &&& it.kind == item_kind_of_upl(u)
    &&& it.product_id == item_product_id_of_upl(u)
    &&& it.name == u.name
    &&& it.piece == u.spec_piece()
    &&& it.retail_price_net == u.retail_net_price
    &&& it.vat@ == spec_vat_code(u.vat)
    &&& it.retail_price_gross == u.retail_gross_price
    &&& it.total_retail_price_net == u.spec_price_net()
    &&& it.total_retail_price_gross == u.spec_price_gross()
}

/// The whole record a cart freezes into: every financial field carried
/// over, the item ledger flattened (shopping-list lines first, then unique
/// tags), every tag kept, balance and profit computed from the cart, and
/// provenance taken from the cart's ancestor.
pub open spec fn purchase_from_cart(p: Purchase, c: cart::Cart) -> bool {
    &&& p.id == c.id
    &&& p.customer == (match c.customer {
        Some(cc) => Some(customer_of(cc)),
        None => None::<Customer>,
    })
    &&& p.commitment == (match c.commitment {
        Some(cm) => Some(commitment_of(cm)),
        None => None::<Commitment>,
    })
    &&& p.commitment_discount_value == c.commitment_discount_value
    &&& p.loyalty_card == (match c.loyalty_card {
        Some(lc) => Some(loyalty_card_of(lc)),
        None => None::<LoyaltyCard>,
    })
    &&& p.items@.len() == c.shopping_list@.len() + c.upls_unique@.len()
    &&& forall|i: int|
        0 <= i < c.shopping_list@.len() ==> item_from_line(
            #[trigger] p.items@[i],
            c.shopping_list@[i],
        )
    &&& forall|i: int|
        0 <= i < c.upls_unique@.len() ==> item_from_upl(
            #[trigger] p.items@[c.shopping_list@.len() + i],
            c.upls_unique@[i],
        )
    &&& p.upl_info_objects@.len() == c.upls_sku@.len() + c.upls_unique@.len()
    &&& forall|i: int|
        0 <= i < c.upls_sku@.len() ==> upl_matches(
            #[trigger] p.upl_info_objects@[i],
            c.upls_sku@[i],
        )
    &&& forall|i: int|
        0 <= i < c.upls_unique@.len() ==> upl_matches(
            #[trigger] p.upl_info_objects@[c.upls_sku@.len() + i],
            c.upls_unique@[i],
        )
    &&& p.total_net == c.total_net
    &&& p.total_vat == c.total_vat
    &&& p.total_gross == c.total_gross
    &&& p.document_kind == doc_kind_of(c.document_kind)
    &&& p.payment_kind == payment_kind_of(c.payment_kind)
    &&& p.payments@.len() == c.payments@.len()
    &&& forall|i: int|
        0 <= i < c.payments@.len() ==> #[trigger] p.payments@[i] == payment_of(c.payments@[i])
    &&& p.burned_points@.len() == c.burned_points@.len()
    &&& forall|i: int|
        0 <= i < c.burned_points@.len() ==> #[trigger] p.burned_points@[i] == transaction_of(
            c.burned_points@[i],
        )
    &&& p.burned_loyalty_points == balance_of(c.burned_points@)
    &&& p.payable == c.payable
    &&& p.balance == c.payable - sum_payments(c.payments@)
    &&& p.profit_net == c.total_net - (sum_upl_proc(c.upls_sku@) + sum_upl_proc(
        c.upls_unique@,
    ))
    &&& p.owner_uid == c.owner_uid
    &&& p.store_id == c.store_id
    &&& p.date_completion == c.date_completion
    &&& p.payment_duedate == c.payment_duedate
    &&& p.restored == c.ancestor
    &&& p.invoice is None
    &&& p.storno_invoice is None
    &&& p.created_by == c.created_by
    &&& p.created_at == c.created_at
}

/// Freeze a ledger entry out of one unique tag.
fn item_of_upl(u: &cart::UplInfoObject) -> (r: Item)
    requires
        u.spec_price_net() <= u32::MAX,
        u.spec_price_gross() <= u32::MAX,
    ensures
        item_from_upl(r, *u),
{
    let kind = match u.kind {
        cart::UplKind::Sku { sku: _, piece: _ } => {
            if u.depreciated {
                ItemKind::SkuDepreciated
            } else {
                ItemKind::Sku
            }
        },
        cart::UplKind::DerivedProduct { product_id: _, amount: _ } => ItemKind::DerivedProduct,
    };
    let product_id = match u.kind {
        cart::UplKind::Sku { sku: _, piece: _ } => 0,
        cart::UplKind::DerivedProduct { product_id, amount: _ } => product_id,
    };
    Item {
        kind,
        product_id,
        name: u.name.clone(),
        piece: u.get_piece(),
        retail_price_net: u.retail_net_price,
        vat: u.vat.to_string(),
        retail_price_gross: u.retail_gross_price,
        total_retail_price_net: u.get_price_net(),
        total_retail_price_gross: u.get_price_gross(),
    }
}

/// Freeze one tag into the record's form.
fn upl_of_upl(u: &cart::UplInfoObject) -> (r: UplInfoObject)
    ensures
        upl_matches(r, *u),
{
    UplInfoObject {
        upl_id: u.upl_id.clone(),
        kind: match u.kind {
            cart::UplKind::Sku { sku, piece } => UplKind::Sku { sku, piece },
            cart::UplKind::DerivedProduct { product_id, amount } => UplKind::DerivedProduct {
                product_id,
                amount,
            },
        },
        name: u.name.clone(),
        retail_net_price: u.retail_net_price,
        vat: u.vat.to_string(),
        retail_gross_price: u.retail_gross_price,
        procurement_net_price: u.procurement_net_price,
        best_before: u.best_before,
        depreciated: u.depreciated,
    }
}

impl Purchase {
    /// The record's identifier.
    pub fn get_id(&self) -> (r: u128)
        ensures
            r == self.id,
    {
        self.id
    }

    /// Freeze a cart into its purchase record. The caller has validated
    /// the cart; this only flattens and copies.
    pub fn from_cart(c: &cart::Cart) -> (r: Purchase)
        requires
            c.wf(),
            c.total_net <= i32::MAX,
            i32::MIN <= c.payable - sum_payments(c.payments@) <= i32::MAX,
        ensures
            purchase_from_cart(r, *c),
    {
        proof {
            lemma_sums_nonneg(c.shopping_list@, c.upls_unique@);
            lemma_sums_nonneg(c.shopping_list@, c.upls_sku@);
        }
        let mut items: Vec<Item> = Vec::new();
        let mut i: usize = 0;
        while i < c.shopping_list.len()
            invariant
                0 <= i <= c.shopping_list@.len(),
                items@.len() == i,
                forall|j: int|
                    0 <= j < i ==> item_from_line(#[trigger] items@[j], c.shopping_list@[j]),
            decreases c.shopping_list@.len() - i,
        {
            let li = &c.shopping_list[i];
            items.push(
                Item {
                    kind: ItemKind::Sku,
                    product_id: 0,
                    name: li.name.clone(),
                    piece: li.piece,
                    retail_price_net: li.unit_price_net,
                    vat: li.vat.to_string(),
                    retail_price_gross: li.unit_price_gross,
                    total_retail_price_net: li.total_price_net,
                    total_retail_price_gross: li.total_price_gross,
                },
            );
            i = i + 1;
        }
        let ghost n_lines = c.shopping_list@.len();
        let mut i: usize = 0;
        while i < c.upls_unique.len()
            invariant
                0 <= i <= c.upls_unique@.len(),
                items@.len() == n_lines + i,
                c.wf(),
                n_lines == c.shopping_list@.len(),
                forall|j: int|
                    0 <= j < n_lines ==> item_from_line(
                        #[trigger] items@[j],
                        c.shopping_list@[j],
                    ),
                forall|j: int|
                    0 <= j < i ==> item_from_upl(
                        #[trigger] items@[n_lines + j],
                        c.upls_unique@[j],
                    ),
            decreases c.upls_unique@.len() - i,
        {
            proof {
                let s = c.upls_unique@;
                lemma_model_fns_nonneg(c.shopping_list@, s);
                lemma_sums_nonneg(c.shopping_list@, s);
                lemma_sums_nonneg(c.shopping_list@.take(0), s.take(i as int));
                lemma_seq_sum_take_step(s, cart::upl_net_fn(), i as int);
                lemma_seq_sum_take_le(s, cart::upl_net_fn(), i as int + 1);
                lemma_seq_sum_nonneg(s.take(i as int), cart::upl_net_fn());
                lemma_seq_sum_take_step(s, cart::upl_gross_fn(), i as int);
                lemma_seq_sum_take_le(s, cart::upl_gross_fn(), i as int + 1);
                lemma_seq_sum_nonneg(s.take(i as int), cart::upl_gross_fn());
            }
            items.push(item_of_upl(&c.upls_unique[i]));
            i = i + 1;
        }
        let mut upls: Vec<UplInfoObject> = Vec::new();
        let mut i: usize = 0;
        while i < c.upls_sku.len()
            invariant
                0 <= i <= c.upls_sku@.len(),
                upls@.len() == i,
                forall|j: int|
                    0 <= j < i ==> upl_matches(#[trigger] upls@[j], c.upls_sku@[j]),
            decreases c.upls_sku@.len() - i,
        {
            upls.push(upl_of_upl(&c.upls_sku[i]));
            i = i + 1;
        }
        let ghost n_sku = c.upls_sku@.len();
        let mut i: usize = 0;
        while i < c.upls_unique.len()
            invariant
                0 <= i <= c.upls_unique@.len(),
                upls@.len() == n_sku + i,
                n_sku == c.upls_sku@.len(),
                forall|j: int|
                    0 <= j < n_sku ==> upl_matches(#[trigger] upls@[j], c.upls_sku@[j]),
                forall|j: int|
                    0 <= j < i ==> upl_matches(#[trigger] upls@[n_sku + j], c.upls_unique@[j]),
            decreases c.upls_unique@.len() - i,
        {
            upls.push(upl_of_upl(&c.upls_unique[i]));
            i = i + 1;
        }
        let mut payments: Vec<Payment> = Vec::new();
        let mut i: usize = 0;
        while i < c.payments.len()
            invariant
                0 <= i <= c.payments@.len(),
                payments@.len() == i,
                forall|j: int|
                    0 <= j < i ==> #[trigger] payments@[j] == payment_of(c.payments@[j]),
            decreases c.payments@.len() - i,
        {
            payments.push(
                Payment {
                    payment_id: c.payments[i].payment_id.clone(),
                    amount: c.payments[i].amount,
                },
            );
            i = i + 1;
        }
        let mut burned: Vec<LoyaltyTransaction> = Vec::new();
        let mut i: usize = 0;
        while i < c.burned_points.len()
            invariant
                0 <= i <= c.burned_points@.len(),
                burned@.len() == i,
                forall|j: int|
                    0 <= j < i ==> #[trigger] burned@[j] == transaction_of(c.burned_points@[j]),
            decreases c.burned_points@.len() - i,
        {
            burned.push(
                LoyaltyTransaction {
                    loyalty_account_id: c.burned_points[i].loyalty_account_id,
                    transaction_id: c.burned_points[i].transaction_id,
                    burned_points: c.burned_points[i].burned_points,
                    created_at: c.burned_points[i].created_at,
                },
            );
            i = i + 1;
        }
        let customer = match &c.customer {
            Some(cc) => Some(
                Customer {
                    id: cc.id,
                    name: cc.name.clone(),
                    zip: cc.zip.clone(),
                    location: cc.location.clone(),
                    street: cc.street.clone(),
                    tax_number: cc.tax_number.clone(),
                },
            ),
            None => None,
        };
        let commitment = match c.commitment {
            Some(cm) => Some(
                Commitment {
                    commitment_id: cm.commitment_id,
                    commitment_percentage: cm.commitment_percentage,
                },
            ),
            None => None,
        };
        let loyalty_card = match &c.loyalty_card {
            Some(lc) => Some(
                LoyaltyCard {
                    account_id: lc.account_id,
                    card_id: lc.card_id.clone(),
                    level: match lc.level {
                        cart::LoyaltyLevel::L1 => LoyaltyLevel::L1,
                        cart::LoyaltyLevel::L2 => LoyaltyLevel::L2,
                    },
                    balance_opening: 0,
                    burned_points: 0,
                    earned_points: 0,
                    balance_closing: 0,
                },
            ),
            None => None,
        };
        let burned_loyalty_points = c.get_burned_points_balance();
        let balance = c.get_balance();
        let profit_net = c.get_profit_net();
        Purchase {
            id: c.id,
            customer,
            commitment,
            commitment_discount_value: c.commitment_discount_value,
            loyalty_card,
            items,
            upl_info_objects: upls,
            total_net: c.total_net,
            total_vat: c.total_vat,
            total_gross: c.total_gross,
            document_kind: match c.document_kind {
                cart::DocumentKind::Receipt => DocumentKind::Receipt,
                cart::DocumentKind::Invoice => DocumentKind::Invoice,
            },
            payment_kind: match c.payment_kind {
                cart::PaymentKind::Cash => PaymentKind::Cash,
                cart::PaymentKind::Card => PaymentKind::Card,
                cart::PaymentKind::Transfer => PaymentKind::Transfer,
            },
            payments,
            burned_points: burned,
            burned_loyalty_points,
            payable: c.payable,
            balance,
            profit_net,
            owner_uid: c.owner_uid,
            store_id: c.store_id,
            date_completion: c.date_completion,
            payment_duedate: c.payment_duedate,
            restored: c.ancestor,
            invoice: None,
            storno_invoice: None,
            created_by: c.created_by,
            created_at: c.created_at,
        }
    }

    /// Attach the invoice reference issued for this purchase. Fails when
    /// one is already attached.
    pub fn set_invoice_id(&mut self, invoice_id: String) -> (r: Result<(), CartError>)
        ensures
            (r is Ok) == (old(self).invoice is None),
            r is Err ==> *final(self) == *old(self) && (r matches Err(e) && e is Conflict),
            r is Ok ==> *final(self) == (Purchase { invoice: Some(invoice_id), ..*old(self) }),
    {
        match self.invoice {
            Some(_) => Err(
                CartError::Conflict("the purchase already has an invoice".to_owned()),
            ),
            None => {
                self.invoice = Some(invoice_id);
                Ok(())
            },
        }
    }

    /// Record the loyalty service's summary on the frozen card. Fails when
    /// no card was attached, or when the summary's burned points disagree
    /// with what the purchase recorded.
    pub fn set_loyalty_summary(
        &mut self,
        balance_opening: i32,
        burned_points: i32,
        earned_points: i32,
        balance_closing: i32,
    ) -> (r: Result<(), CartError>)
        requires
            old(self).burned_loyalty_points <= i32::MAX,
        ensures
            (r is Ok) == (old(self).loyalty_card is Some && old(self).burned_loyalty_points
                == burned_points),
            old(self).loyalty_card is None ==> *final(self) == *old(self) && (r matches Err(e)
                && e is NotFound),
            old(self).loyalty_card is Some && old(self).burned_loyalty_points != burned_points
                ==> *final(self) == *old(self) && (r matches Err(e) && e is Conflict),
            r is Ok ==> {
                &&& final(self).loyalty_card matches Some(lc)
                &&& old(self).loyalty_card matches Some(lc0)
                &&& lc == (LoyaltyCard {
                    balance_opening,
                    burned_points,
                    earned_points,
                    balance_closing,
                    ..lc0
                })
                &&& *final(self) == (Purchase {
                    loyalty_card: final(self).loyalty_card,
                    ..*old(self)
                })
            },
    {
        if self.loyalty_card.is_none() {
            return Err(
                CartError::NotFound("the purchase has no loyalty card attached".to_owned()),
            );
        }
        if burned_points < 0 || self.burned_loyalty_points != (burned_points as u32) {
            return Err(
                CartError::Conflict(
                    "the summary's burned points disagree with the purchase".to_owned(),
                ),
            );
        }
        let updated = match &self.loyalty_card {
            Some(lc) => LoyaltyCard {
                account_id: lc.account_id,
                card_id: lc.card_id.clone(),
                level: lc.level,
                balance_opening,
                burned_points,
                earned_points,
                balance_closing,
            },
            None => {
                return Err(
                    CartError::NotFound(
                        "the purchase has no loyalty card attached".to_owned(),
                    ),
                );
            },
        };
        self.loyalty_card = Some(updated);
        Ok(())
    }
}

impl Default for DocumentKind {
    fn default() -> (r: Self)
        ensures
            r == DocumentKind::Receipt,
    {
        DocumentKind::Receipt
    }
}

impl Default for PaymentKind {
    fn default() -> (r: Self)
        ensures
            r == PaymentKind::Cash,
    {
        PaymentKind::Cash
    }
}

impl Default for Customer {
    fn default() -> (r: Self)
        ensures
            r.id == 0,
            r.name@ == Seq::<char>::empty(),
            r.zip@ == Seq::<char>::empty(),
            r.location@ == Seq::<char>::empty(),
            r.street@ == Seq::<char>::empty(),
            r.tax_number@ == Seq::<char>::empty(),
    {
        Self {
            id: 0,
            name: String::new(),
            zip: String::new(),
            location: String::new(),
            street: String::new(),
            tax_number: String::new(),
        }
    }
}

impl Default for Payment {
    fn default() -> (r: Self)
        ensures
            r.payment_id@ == Seq::<char>::empty(),
            r.amount == 0,
    {
        Self { payment_id: String::new(), amount: 0 }
    }
}

impl Default for ItemKind {
    fn default() -> (r: Self)
        ensures
            r == ItemKind::Sku,
    {
        ItemKind::Sku
    }
}

impl Default for Item {
    fn default() -> (r: Self)
        ensures
            r.kind == ItemKind::Sku,
            r.product_id == 0,
            r.name@ == Seq::<char>::empty(),
            r.piece == 0,
            r.retail_price_net == 0,
            r.vat@ == Seq::<char>::empty(),
            r.retail_price_gross == 0,
            r.total_retail_price_net == 0,
            r.total_retail_price_gross == 0,
    {
        Self {
            kind: ItemKind::Sku,
            product_id: 0,
            name: String::new(),
            piece: 0,
            retail_price_net: 0,
            vat: String::new(),
            retail_price_gross: 0,
            total_retail_price_net: 0,
            total_retail_price_gross: 0,
        }
    }
}

impl Default for UplKind {
    fn default() -> (r: Self)
        ensures
            r == (UplKind::Sku { sku: 0, piece: 0 }),
    {
        UplKind::Sku { sku: 0, piece: 0 }
    }
}

impl Default for UplInfoObject {
    fn default() -> (r: Self)
        ensures
            r.upl_id@ == Seq::<char>::empty(),
            r.kind == (UplKind::Sku { sku: 0, piece: 0 }),
            r.name@ == Seq::<char>::empty(),
            r.retail_net_price == 0,
            r.vat@ == Seq::<char>::empty(),
            r.retail_gross_price == 0,
            r.procurement_net_price == 0,
            r.best_before is None,
            !r.depreciated,
    {
        Self {
            upl_id: String::new(),
            kind: UplKind::Sku { sku: 0, piece: 0 },
            name: String::new(),
            retail_net_price: 0,
            vat: String::new(),
            retail_gross_price: 0,
            procurement_net_price: 0,
            best_before: None,
            depreciated: false,
        }
    }
}

impl Default for Commitment {
    fn default() -> (r: Self)
        ensures
            r.commitment_id == 0,
            r.commitment_percentage == 0,
    {
        Self { commitment_id: 0, commitment_percentage: 0 }
    }
}

impl Default for LoyaltyLevel {
    fn default() -> (r: Self)
        ensures
            r == LoyaltyLevel::L1,
    {
        LoyaltyLevel::L1
    }
}

impl Default for LoyaltyCard {
    fn default() -> (r: Self)
        ensures
            r.account_id == 0,
            r.card_id@ == Seq::<char>::empty(),
            r.level == LoyaltyLevel::L1,
            r.balance_opening == 0,
            r.burned_points == 0,
            r.earned_points == 0,
            r.balance_closing == 0,
    {
        Self {
            account_id: 0,
            card_id: String::new(),
            level: LoyaltyLevel::L1,
            balance_opening: 0,
            burned_points: 0,
            earned_points: 0,
            balance_closing: 0,
        }
    }
}

impl Default for LoyaltyTransaction {
    /// Zeroed identifiers and points; the creation time is read from the
    /// clock.
    fn default() -> (r: Self)
        ensures
            r.loyalty_account_id == 0,
            r.transaction_id == 0,
            r.burned_points == 0,
    {
        Self {
            loyalty_account_id: 0,
            transaction_id: 0,
            burned_points: 0,
            created_at: now_ts(),
        }
    }
}

impl Default for Purchase {
    /// An empty record under the nil identifier; the dates are read from
    /// the clock.
    fn default() -> (r: Self)
        ensures
            r.id == 0,
            r.customer is None,
            r.commitment is None,
            r.commitment_discount_value == 0,
            r.loyalty_card is None,
            r.items@ =~= Seq::<Item>::empty(),
            r.upl_info_objects@ =~= Seq::<UplInfoObject>::empty(),
            r.total_net == 0,
            r.total_vat == 0,
            r.total_gross == 0,
            r.document_kind == DocumentKind::Receipt,
            r.payment_kind == PaymentKind::Cash,
            r.payments@ =~= Seq::<Payment>::empty(),
            r.burned_points@ =~= Seq::<LoyaltyTransaction>::empty(),
            r.burned_loyalty_points == 0,
            r.payable == 0,
            r.balance == 0,
            r.profit_net == 0,
            r.owner_uid == 0,
            r.store_id is None,
            r.restored is None,
            r.invoice is None,
            r.storno_invoice is None,
            r.created_by == 0,
    {
        let today = today_start_ts();
        Self {
            id: 0,
            customer: None,
            commitment: None,
            commitment_discount_value: 0,
            loyalty_card: None,
            items: Vec::new(),
            upl_info_objects: Vec::new(),
            total_net: 0,
            total_vat: 0,
            total_gross: 0,
            document_kind: DocumentKind::Receipt,
            payment_kind: PaymentKind::Cash,
            payments: Vec::new(),
            burned_points: Vec::new(),
            burned_loyalty_points: 0,
            payable: 0,
            balance: 0,
            profit_net: 0,
            owner_uid: 0,
            store_id: None,
            date_completion: today,
            payment_duedate: today,
            restored: None,
            invoice: None,
            storno_invoice: None,
            created_by: 0,
            created_at: now_ts(),
        }
    }
}

} // verus!
