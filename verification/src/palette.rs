//! Packed colours and the Drill & Blast product palette.
use crate::ids::DelayProductId;
use vstd::prelude::*;

verus! {

/// A colour in four bytes whose components are already multiplied by its alpha.
#[derive(Clone, Copy, Debug, PartialEq, Eq, Hash, Structural)]
pub struct PackedColor {
    pub r: u8,
    pub g: u8,
    pub b: u8,
    pub a: u8,
}

/// A colour in four bytes as it is stored: components beside their alpha.
#[derive(Clone, Copy, Debug, PartialEq, Eq, Hash, Structural)]
pub struct StoredColor {
    pub r: u8,
    pub g: u8,
    pub b: u8,
    pub a: u8,
}

/// A component scaled by an alpha, in rounded 255ths.
pub open spec fn scaled_component(component: u8, alpha: u8) -> int {
    let p = component * alpha + 128;
    (p + p / 256) / 256
}

/// A stored colour with its alpha multiplied in: nothing where it is fully
/// transparent, itself where it is opaque.
pub open spec fn premultiplied(color: StoredColor) -> PackedColor {
    if color.a == 0 {
        PackedColor { r: 0, g: 0, b: 0, a: 0 }
    } else if color.a == 255 {
        PackedColor { r: color.r, g: color.g, b: color.b, a: 255 }
    } else {
        PackedColor {
            r: scaled_component(color.r, color.a) as u8,
            g: scaled_component(color.g, color.a) as u8,
            b: scaled_component(color.b, color.a) as u8,
            a: color.a,
        }
    }
}

/// The bytes that `egui::Color32::to_srgba_unmultiplied` gives for a colour.
pub uninterp spec fn unmultiplied_bytes(r: u8, g: u8, b: u8, a: u8) -> (u8, u8, u8, u8);

/// `egui::Color32::from_rgba_unmultiplied`: the colour with its alpha multiplied
/// in. A transparent colour becomes transparent black, an opaque one keeps its
/// components, and every other component is scaled with rounding.
#[verifier::external_body]
pub(crate) fn premultiply(color: StoredColor) -> (r: PackedColor)
    ensures
        r == premultiplied(color),
{
    let packed = egui::Color32::from_rgba_unmultiplied(color.r, color.g, color.b, color.a).to_array();
    PackedColor { r: packed[0], g: packed[1], b: packed[2], a: packed[3] }
}

/// `egui::Color32::to_srgba_unmultiplied`: the colour with its alpha divided
/// out. The result is a function of the four bytes. The alpha is kept, and so
/// are the components of a transparent and of an opaque colour; how the other
/// components round is left to the name.
#[verifier::external_body]
pub(crate) fn unmultiply(color: PackedColor) -> (r: StoredColor)
    ensures
        (r.r, r.g, r.b, r.a) == unmultiplied_bytes(color.r, color.g, color.b, color.a),
        r.a == color.a,
        color.a == 0 || color.a == 255 ==> r.r == color.r && r.g == color.g && r.b == color.b,
{
    let bytes = egui::Color32::from_rgba_premultiplied(color.r, color.g, color.b, color.a).to_srgba_unmultiplied();
    StoredColor { r: bytes[0], g: bytes[1], b: bytes[2], a: bytes[3] }
}

/// A product as the config file holds it: everything but the identity, which is
/// handed out afresh each run.
#[derive(Clone, Debug, PartialEq)]
pub struct StoredDelayProduct {
    pub delay_ms: u32,
    pub name: String,
    pub color: StoredColor,
}

/// One product of the palette: a firing delay in milliseconds, the name it is
/// ordered by, and the colour a tie-in is drawn in.
#[derive(Clone, Debug, PartialEq)]
pub struct DelayProduct {
    pub id: DelayProductId,
    pub delay_ms: u32,
    pub name: String,
    pub color: PackedColor,
}

impl DelayProduct {
    /// The product that a stored one becomes under an identity.
    pub open spec fn is_from(self, stored: StoredDelayProduct, id: int) -> bool {
        &&& self.id.0 == id
        &&& self.delay_ms == stored.delay_ms
        &&& self.name@ == stored.name@
        &&& self.color == premultiplied(stored.color)
    }

    /// This product comes before another in the palette: a shorter delay, or the
    /// same delay and an earlier identity.
    pub open spec fn precedes(self, other: DelayProduct) -> bool {
        self.delay_ms < other.delay_ms || (self.delay_ms == other.delay_ms && self.id.0 < other.id.0)
    }

    /// The stored form: delay and name as they are, the alpha divided out of
    /// the colour.
    pub open spec fn stores_as(self, stored: StoredDelayProduct) -> bool {
        let color = stored.color;
        &&& stored.delay_ms == self.delay_ms
        &&& stored.name@ == self.name@
        &&& (color.r, color.g, color.b, color.a) == unmultiplied_bytes(self.color.r, self.color.g, self.color.b, self.color.a)
        &&& color.a == self.color.a
        &&& self.color.a == 0 || self.color.a == 255 ==> color.r == self.color.r && color.g == self.color.g && color.b
            == self.color.b
    }

    pub fn to_stored(&self) -> (r: StoredDelayProduct)
        ensures
            self.stores_as(r),
    {
        StoredDelayProduct { delay_ms: self.delay_ms, name: self.name.clone(), color: unmultiply(self.color) }
    }
}

/// A palette is laid out by delay, products of one delay in the order in which
/// they were added.
pub open spec fn in_palette_order(products: Seq<DelayProduct>) -> bool {
    forall|i: int, j: int| 0 <= i < j < products.len() ==> (#[trigger] products[i]).precedes(#[trigger] products[j])
}

/// The palette that stored products become: one product for each, under the
/// identity of its place in the store, in palette order.
pub open spec fn is_palette_of(products: Seq<DelayProduct>, stored: Seq<StoredDelayProduct>) -> bool {
    &&& products.len() == stored.len()
    &&& in_palette_order(products)
    &&& forall|i: int|
        0 <= i < products.len() ==> (#[trigger] products[i]).id.0 < stored.len() && products[i].is_from(
            stored[products[i].id.0 as int],
            products[i].id.0 as int,
        )
}

/// Put a product where the palette order wants it, behind every product of its
/// own delay.
fn insert_in_order(products: &mut Vec<DelayProduct>, product: DelayProduct)
    requires
        in_palette_order(old(products)@),
        forall|i: int| 0 <= i < old(products)@.len() ==> (#[trigger] old(products)@[i]).id.0 < product.id.0,
    ensures
        in_palette_order(final(products)@),
        exists|at: int| 0 <= at <= old(products)@.len() && final(products)@ == old(products)@.insert(at, product),
{
    let ghost before = products@;
    let mut at: usize = products.len();
    while at > 0 && products[at - 1].delay_ms > product.delay_ms
        invariant
            at <= products@.len(),
            products@ == before,
            forall|k: int| at <= k < products@.len() ==> (#[trigger] products@[k]).delay_ms > product.delay_ms,
        decreases at,
    {
        at = at - 1;
    }
    products.insert(at, product);
    proof {
        let after = products@;
        assert(after == before.insert(at as int, product));
        assert forall|i: int, j: int| 0 <= i < j < after.len() implies (#[trigger] after[i]).precedes(#[trigger] after[j]) by {
            if j < at {
                assert(after[i] == before[i] && after[j] == before[j]);
            } else if j == at {
                assert(after[i] == before[i]);
                if i + 1 < at {
                    assert(before[i].precedes(before[at - 1]));
                }
            } else if i < at {
                assert(after[i] == before[i] && after[j] == before[j - 1]);
            } else if i == at {
                assert(after[j] == before[j - 1]);
            } else {
                assert(after[i] == before[i - 1] && after[j] == before[j - 1]);
            }
        }
    }
}

/// Stored products as the palette holds them: identities handed out in order,
/// and the whole palette sorted by delay, which is the order it is read in.
pub fn delay_products_from_stored(stored: &Vec<StoredDelayProduct>) -> (r: Vec<DelayProduct>)
    ensures
        is_palette_of(r@, stored@),
{
    let mut products: Vec<DelayProduct> = Vec::new();
    let mut i: usize = 0;
    while i < stored.len()
        invariant
            i <= stored@.len(),
            products@.len() == i,
            in_palette_order(products@),
            forall|k: int|
                0 <= k < products@.len() ==> (#[trigger] products@[k]).id.0 < i && products@[k].is_from(
                    stored@[products@[k].id.0 as int],
                    products@[k].id.0 as int,
                ),
        decreases stored@.len() - i,
    {
        let entry = &stored[i];
        let product = DelayProduct {
            id: DelayProductId(i as u64),
            delay_ms: entry.delay_ms,
            name: entry.name.clone(),
            color: premultiply(entry.color),
        };
        let ghost before = products@;
        let ghost added = product;
        insert_in_order(&mut products, product);
        proof {
            let at = choose|at: int| 0 <= at <= before.len() && products@ == before.insert(at, added);
            assert forall|k: int| 0 <= k < products@.len() implies (#[trigger] products@[k]).id.0 < i + 1 && products@[k].is_from(
                stored@[products@[k].id.0 as int],
                products@[k].id.0 as int,
            ) by {
                if k < at {
                    assert(products@[k] == before[k]);
                } else if k > at {
                    assert(products@[k] == before[k - 1]);
                } else {
                    assert(products@[k] == added);
                }
            }
        }
        i = i + 1;
    }
    products
}

/// The palette a fresh installation starts with, from the products it ships.
pub fn builtin_delay_products(shipped: &Vec<StoredDelayProduct>) -> (r: Vec<DelayProduct>)
    ensures
        is_palette_of(r@, shipped@),
{
    delay_products_from_stored(shipped)
}

/// The palette holds a stored product under an identity.
pub open spec fn has_place(products: Seq<DelayProduct>, stored: StoredDelayProduct, id: int) -> bool {
    exists|i: int| 0 <= i < products.len() && #[trigger] products[i].is_from(stored, id)
}

/// No two products of a palette share an identity, and every stored product has
/// its place in it.
pub proof fn palette_holds_every_product_once(products: Seq<DelayProduct>, stored: Seq<StoredDelayProduct>)
    requires
        is_palette_of(products, stored),
    ensures
        forall|i: int, j: int| 0 <= i < j < products.len() ==> (#[trigger] products[i]).id != (#[trigger] products[j]).id,
        forall|k: int| 0 <= k < stored.len() ==> #[trigger] has_place(products, stored[k], k),
{
    let ids = products.map_values(|product: DelayProduct| product.id.0 as int);
    let places = Set::new(|k: int| 0 <= k < stored.len());
    assert forall|i: int, j: int| 0 <= i < j < products.len() implies (#[trigger] products[i]).id != (#[trigger] products[j]).id by {
        if products[i].id == products[j].id {
            assert(products[i].is_from(stored[products[i].id.0 as int], products[i].id.0 as int));
            assert(products[j].is_from(stored[products[j].id.0 as int], products[j].id.0 as int));
            assert(products[i].precedes(products[j]));
        }
    }
    assert(ids.no_duplicates()) by {
        assert forall|i: int, j: int| 0 <= i < ids.len() && 0 <= j < ids.len() && i != j implies ids[i] != ids[j] by {
            if i < j {
                assert(products[i].id != products[j].id);
            } else {
                assert(products[j].id != products[i].id);
            }
        }
    }
    ids.unique_seq_to_set();
    vstd::set_lib::lemma_int_range(0, stored.len() as int);
    assert(places =~= vstd::set_lib::set_int_range(0, stored.len() as int));
    assert(ids.to_set().subset_of(places)) by {
        assert forall|x: int| ids.to_set().contains(x) implies places.contains(x) by {
            let i = choose|i: int| 0 <= i < ids.len() && ids[i] == x;
            assert(products[i].id.0 < stored.len());
        }
    }
    vstd::set_lib::lemma_subset_equality(ids.to_set(), places);
    assert forall|k: int| 0 <= k < stored.len() implies #[trigger] has_place(products, stored[k], k) by {
        assert(places.contains(k));
        assert(ids.to_set().contains(k));
        let i = choose|i: int| 0 <= i < ids.len() && ids[i] == k;
        assert(products[i].is_from(stored[k], k));
    }
}

/// The store determines its palette.
pub proof fn palette_is_determined(first: Seq<DelayProduct>, second: Seq<DelayProduct>, stored: Seq<StoredDelayProduct>)
    requires
        is_palette_of(first, stored),
        is_palette_of(second, stored),
    ensures
        forall|i: int| 0 <= i < first.len() ==> (#[trigger] first[i]).id == second[i].id && first[i].is_from(
            stored[second[i].id.0 as int],
            second[i].id.0 as int,
        ),
{
    assert forall|i: int| 0 <= i < first.len() implies (#[trigger] first[i]).id == second[i].id && first[i].is_from(
        stored[second[i].id.0 as int],
        second[i].id.0 as int,
    ) by {
        lemma_palettes_agree_up_to(first, second, stored, i + 1);
    }
}

/// Two palettes of one store agree on their first `count` places.
proof fn lemma_palettes_agree_up_to(first: Seq<DelayProduct>, second: Seq<DelayProduct>, stored: Seq<StoredDelayProduct>, count: int)
    requires
        is_palette_of(first, stored),
        is_palette_of(second, stored),
        0 <= count <= first.len(),
    ensures
        forall|i: int| 0 <= i < count ==> (#[trigger] first[i]).id == second[i].id,
    decreases count,
{
    if count > 0 {
        let last = count - 1;
        lemma_palettes_agree_up_to(first, second, stored, last);
        palette_holds_every_product_once(first, stored);
        palette_holds_every_product_once(second, stored);
        let a = first[last];
        let b = second[last];
        let a_stored = stored[a.id.0 as int];
        let b_stored = stored[b.id.0 as int];
        assert(has_place(second, stored[a.id.0 as int], a.id.0 as int));
        assert(has_place(first, stored[b.id.0 as int], b.id.0 as int));
        let p = choose|p: int| 0 <= p < second.len() && #[trigger] second[p].is_from(a_stored, a.id.0 as int);
        let q = choose|q: int| 0 <= q < first.len() && #[trigger] first[q].is_from(b_stored, b.id.0 as int);
        assert(a.is_from(a_stored, a.id.0 as int));
        assert(b.is_from(b_stored, b.id.0 as int));
        if p < last {
            assert(first[p].id == second[p].id);
            assert(false);
        }
        if q < last {
            assert(first[q].id == second[q].id);
            assert(false);
        }
        if p > last && q > last {
            assert(second[last].precedes(second[p]));
            assert(first[last].precedes(first[q]));
            assert(false);
        }
    }
}

/// Storing an opaque product and reading it back gives the product, up to the
/// identity it is handed.
pub proof fn opaque_product_round_trips(product: DelayProduct, stored: StoredDelayProduct, again: DelayProduct)
    requires
        product.color.a == 255,
        product.stores_as(stored),
        again.is_from(stored, again.id.0 as int),
    ensures
        again.delay_ms == product.delay_ms,
        again.name@ == product.name@,
        again.color == product.color,
{
}

/// Scaling by an alpha rounds to the nearest: the result times 255 is off from the component
/// times the alpha by no more than half of 255. Nothing stays nothing, full stays full, and a
/// component never grows.
pub proof fn scaling_rounds_to_the_nearest(component: u8, alpha: u8)
    ensures
        -255 <= 2 * (scaled_component(component, alpha) * 255 - component * alpha) <= 255,
        0 <= scaled_component(component, alpha) <= component,
        scaled_component(component, 0) == 0,
        scaled_component(0, alpha) == 0,
        scaled_component(component, 255) == component,
{
    let c = component as int;
    let a = alpha as int;
    let n = c * a;
    assert(0 <= n <= 255 * c) by (nonlinear_arith)
        requires
            n == c * a,
            0 <= c,
            0 <= a <= 255,
    ;
    let p = n + 128;
    let q = p / 256;
    let r = p % 256;
    assert(p == 256 * q + r && 0 <= r < 256);
    let s = (p + q) / 256;
    let t = (p + q) % 256;
    assert(p + q == 256 * s + t && 0 <= t < 256);
    assert(scaled_component(component, alpha) == s);
    assert(257 * q + r == 256 * s + t);
    assert(q == s || q == s + 1 || q + 1 == s);
    assert(component * 0 == 0);
    assert(0 * alpha == 0);
    assert(component * 255 == 255 * c);
    assert(c <= 255);
}

/// A transparent colour is nothing, an opaque one is itself, and any other keeps its alpha and
/// has each component scaled by it.
pub proof fn premultiplied_colours_keep_their_alpha(color: StoredColor)
    ensures
        premultiplied(color).a == color.a,
        color.a == 255 ==> premultiplied(color).r == color.r && premultiplied(color).g == color.g && premultiplied(color).b == color.b,
        color.a == 0 ==> premultiplied(color).r == 0 && premultiplied(color).g == 0 && premultiplied(color).b == 0,
        premultiplied(color).r == scaled_component(color.r, color.a),
        premultiplied(color).g == scaled_component(color.g, color.a),
        premultiplied(color).b == scaled_component(color.b, color.a),
{
    scaling_rounds_to_the_nearest(color.r, color.a);
    scaling_rounds_to_the_nearest(color.g, color.a);
    scaling_rounds_to_the_nearest(color.b, color.a);
}

/// Of two products the one with the shorter delay comes first, and of two with the same delay
/// the one that was added first; every two products are in one order or the other.
pub proof fn products_go_by_delay(a: DelayProduct, b: DelayProduct, c: DelayProduct)
    ensures
        a.delay_ms < b.delay_ms ==> a.precedes(b) && !b.precedes(a),
        a.delay_ms == b.delay_ms ==> (a.precedes(b) <==> a.id.0 < b.id.0),
        !a.precedes(a),
        a.id != b.id ==> a.precedes(b) != b.precedes(a),
        a.precedes(b) && b.precedes(c) ==> a.precedes(c),
{
}

/// A palette is read by rising delay, products of one delay in the order of the store, and
/// each has the delay, the name and the colour that it was stored with.
pub proof fn palettes_rise_by_delay(products: Seq<DelayProduct>, stored: Seq<StoredDelayProduct>, first: int, second: int)
    requires
        is_palette_of(products, stored),
        0 <= first < second < products.len(),
    ensures
        products[first].delay_ms <= products[second].delay_ms,
        products[first].delay_ms == products[second].delay_ms ==> products[first].id.0 < products[second].id.0,
        products[first].id.0 < stored.len(),
        ({
            let entry = stored[products[first].id.0 as int];
            products[first].delay_ms == entry.delay_ms && products[first].name@ == entry.name@ && products[first].color == premultiplied(
                entry.color,
            )
        }),
        products.len() == stored.len(),
{
    assert(products[first].precedes(products[second]));
}

/// What is stored of a product is its delay, its name and its colour with the alpha taken out,
/// the alpha itself as it is.
pub proof fn stored_products_keep_what_they_are(product: DelayProduct, stored: StoredDelayProduct)
    requires
        product.stores_as(stored),
    ensures
        stored.delay_ms == product.delay_ms,
        stored.name@ == product.name@,
        stored.color.a == product.color.a,
{
}

} // verus!
