//! The layout of the shop screen.
use crate::gfx::{Point, CHAR_HEIGHT, CHAR_WIDTH, WIDTH};
use crate::machine::shop::{items_below, label_of, price_of, Purchase, Shop};
use crate::machine::Campaign;
use vstd::prelude::*;

verus! {

/// The margin around the shop's text.
pub const PADDING: i32 = 30;

/// The position of `text_len` characters set flush with the right margin,
/// on the line of `point`.
pub open spec fn right_aligned(point: Point, text_len: int) -> Point {
    Point { x: (WIDTH - PADDING - CHAR_WIDTH * text_len) as i32, y: point.y }
}

/// Where `text_len` characters go to end at the right margin, on the line of
/// `point`.
pub fn align_right(point: Point, text_len: usize) -> (p: Point)
    requires
        text_len <= 100_000_000,
    ensures
        p == right_aligned(point, text_len as int),
{
    let width: i32 = CHAR_WIDTH as i32 * text_len as i32;
    Point { x: WIDTH as i32 - PADDING - width, y: point.y }
}

/// One item offered: its label at the left margin, and its price on the
/// next line, in green where the funds cover it and red where not.
#[derive(Debug, Clone, Copy)]
pub struct ItemRow {
    pub label: &'static str,
    pub label_at: Point,
    pub price: u16,
    pub affordable: bool,
    /// The line of the price, which is set flush right.
    pub price_y: i32,
}

/// The shop screen: a title with the funds beside it, the items, and how to
/// leave.
#[derive(Debug)]
pub struct ShopLayout {
    pub title_at: Point,
    /// The line of the funds, which are set flush right.
    pub funds_y: i32,
    pub funds: u16,
    pub items: Vec<ItemRow>,
    pub exit_at: Point,
}

/// The line below the title of the `k`-th item's label.
pub open spec fn label_y(k: int) -> int {
    PADDING + 2 * CHAR_HEIGHT + 2 * CHAR_HEIGHT * k
}

/// A set holds at most as many single items as there are items looked at.
pub proof fn lemma_items_below_len(bits: u128, n: nat)
    ensures
        items_below(bits, n).len() <= n,
    decreases n,
{
    if n > 0 {
        lemma_items_below_len(bits, (n - 1) as nat);
    }
}

/// Lay out the shop for a campaign with `campaign.money` to spend: item `k`
/// of the shop's items (in the order of their bits) gets its label two
/// lines per item below the title, and the exit hint follows two lines
/// after the last price.
pub fn render(shop: &Shop, campaign: &Campaign) -> (l: ShopLayout)
    ensures
        l.title_at == (Point { x: PADDING, y: PADDING }),
        l.funds_y == PADDING,
        l.funds == campaign.money,
        l.items@.len() == items_below(shop.items.spec_bits(), 7).len(),
        forall|k: int| 0 <= k < l.items@.len() ==> {
            let bits = items_below(shop.items.spec_bits(), 7)[k];
            let row = #[trigger] l.items@[k];
            &&& row.label@ == label_of(bits)
            &&& row.label_at == (Point { x: PADDING, y: label_y(k) as i32 })
            &&& row.price == price_of(bits)
            &&& row.affordable == (campaign.money >= price_of(bits))
            &&& row.price_y == label_y(k) + CHAR_HEIGHT
        },
        l.exit_at == (Point {
            x: PADDING,
            y: (label_y(l.items@.len() as int) + CHAR_HEIGHT) as i32,
        }),
{
    let money = campaign.money();
    let items = shop.items.iter();
    proof {
        lemma_items_below_len(shop.items.spec_bits(), 7);
        assert(items@.len() == items_below(shop.items.spec_bits(), 7).len()) by {
            assert(items@.map_values(|p: Purchase| p.spec_bits()).len() == items@.len());
        }
    }
    let mut rows: Vec<ItemRow> = Vec::new();
    let mut y: i32 = PADDING + 13;
    let mut k: usize = 0;
    while k < items.len()
        invariant
            k <= items@.len(),
            items@.len() <= 7,
            items@.map_values(|p: Purchase| p.spec_bits()) == items_below(shop.items.spec_bits(), 7),
            y == label_y(k as int) - CHAR_HEIGHT,
            money == campaign.money,
            rows@.len() == k,
            forall|j: int| 0 <= j < k ==> {
                let bits = items_below(shop.items.spec_bits(), 7)[j];
                let row = #[trigger] rows@[j];
                &&& row.label@ == label_of(bits)
                &&& row.label_at == (Point { x: PADDING, y: label_y(j) as i32 })
                &&& row.price == price_of(bits)
                &&& row.affordable == (money >= price_of(bits))
                &&& row.price_y == label_y(j) + CHAR_HEIGHT
            },
        decreases items@.len() - k,
    {
        let item = &items[k];
        assert(item.spec_bits() == items_below(shop.items.spec_bits(), 7)[k as int]) by {
            assert(items@.map_values(|p: Purchase| p.spec_bits())[k as int] == items@[k as int].spec_bits());
        }
        y = y + 13;
        let label_at = Point { x: PADDING, y };
        let price = item.price();
        y = y + 13;
        rows.push(ItemRow { label: item.label(), label_at, price, affordable: money >= price, price_y: y });
        k = k + 1;
    }
    let exit_at = Point { x: PADDING, y: y + 26 };
    ShopLayout { title_at: Point { x: PADDING, y: PADDING }, funds_y: PADDING, funds: money, items: rows, exit_at }
}

} // verus!
