//! UI components: the widget capability contract, the container and the
//! layout resolver.

pub mod table;

use vstd::prelude::*;
use vstd::arithmetic::div_mod::{
    lemma_div_nonincreasing, lemma_div_pos_is_pos, lemma_fundamental_div_mod,
    lemma_mod_division_less_than_divisor,
};
use vstd::arithmetic::mul::lemma_mul_inequality;

verus! {

/// Position specifies the type of positioning used for an element.
///
/// It is declared placement intent; the layout resolver does not consume it
/// yet.
#[derive(Clone, Copy, PartialEq, Eq, Structural, Debug)]
pub enum Position {
    /// The element is placed relative to the screen.
    Absolute,
    /// The element is placed relative to the container element.
    Relative,
}

/// Size represents a dimension hint with a unit.
#[derive(Clone, Copy, PartialEq, Eq, Structural, Debug)]
pub enum Size {
    /// Compute the size automatically: share the space left by the fixed
    /// siblings equally among the Auto siblings.
    Auto,
    /// A size, given in character cells.
    Chars(u8),
    /// A size, given as a percentage of the container's resolved dimension.
    /// Values above 100 are treated as 100 by the resolver.
    Percents(u8),
}

/// A layout is a way to display the UI elements in a container.
#[derive(Clone, Copy, PartialEq, Eq, Structural, Debug)]
pub enum Layout {
    /// Left to right: each child consumes a slice of the container's width
    /// and receives its full height.
    Horizontal,
    /// Top to bottom: each child consumes a slice of the container's height
    /// and receives its full width.
    Vertical,
    /// Exactly one child, selected by the active-tab index, is visible at a
    /// time; every child occupies the container's full box.
    Tabbed,
}

/// The concrete rectangle assigned to one child by the layout resolver,
/// together with whether the child is eligible for painting.
#[derive(Clone, Copy, PartialEq, Eq, Structural, Debug)]
pub struct ChildRect {
    /// Horizontal offset of the child's top-left corner.
    pub x: u32,
    /// Vertical offset of the child's top-left corner.
    pub y: u32,
    /// Resolved width, in character cells.
    pub width: u16,
    /// Resolved height, in character cells.
    pub height: u16,
    /// Whether the renderer may paint this child. Under a Tabbed layout only
    /// the active child is visible; under the other layouts every child is.
    pub visible: bool,
}

/// A percentage hint above 100 is saturated to 100, so that a percentage
/// allocation never exceeds the dimension it is taken from.
pub open spec fn clamp_percent(p: u8) -> int {
    if p <= 100 {
        p as int
    } else {
        100
    }
}

/// The cells a child with a fixed hint takes from an available dimension:
/// a Chars(n) child takes n cells, clamped to the available dimension; a
/// Percents(p) child takes p percent of the available dimension, rounded
/// down; an Auto child takes nothing at this stage.
pub open spec fn fixed_span(s: Size, avail: int) -> int {
    match s {
        Size::Auto => 0,
        Size::Chars(n) => if n as int <= avail {
            n as int
        } else {
            avail
        },
        Size::Percents(p) => avail * clamp_percent(p) / 100,
    }
}

/// Sum of the fixed allocations of a sequence of size hints.
pub open spec fn sum_fixed(sizes: Seq<Size>, avail: int) -> int
    decreases sizes.len(),
{
    if sizes.len() == 0 {
        0
    } else {
        sum_fixed(sizes.drop_last(), avail) + fixed_span(sizes.last(), avail)
    }
}

/// How many of the size hints are Auto.
pub open spec fn count_auto(sizes: Seq<Size>) -> int
    decreases sizes.len(),
{
    if sizes.len() == 0 {
        0
    } else {
        count_auto(sizes.drop_last()) + if sizes.last() is Auto {
            1int
        } else {
            0int
        }
    }
}

/// The space left for the Auto children once the fixed children are served:
/// the available dimension minus the fixed allocations, floored at zero.
pub open spec fn auto_pool(sizes: Seq<Size>, avail: int) -> int {
    if sum_fixed(sizes, avail) <= avail {
        avail - sum_fixed(sizes, avail)
    } else {
        0
    }
}

/// The share of the pool given to the k-th Auto child (k counted among the
/// Auto children only): the pool divided equally, with the earliest children
/// receiving the one-cell remainder.
pub open spec fn auto_share(pool: int, n_auto: int, k: int) -> int {
    pool / n_auto + if k < pool % n_auto {
        1int
    } else {
        0int
    }
}

/// The cells allotted to child i along the divided axis.
pub open spec fn child_span(sizes: Seq<Size>, avail: int, i: int) -> int {
    if sizes[i] is Auto {
        auto_share(auto_pool(sizes, avail), count_auto(sizes), count_auto(sizes.take(i)))
    } else {
        fixed_span(sizes[i], avail)
    }
}

/// Sum of the spans of the children before child i along the divided axis.
pub open spec fn span_prefix(sizes: Seq<Size>, avail: int, i: int) -> int
    decreases i,
{
    if i <= 0 {
        0
    } else {
        span_prefix(sizes, avail, i - 1) + child_span(sizes, avail, i - 1)
    }
}

/// Sum of the spans of all children along the divided axis.
pub open spec fn span_total(sizes: Seq<Size>, avail: int) -> int {
    span_prefix(sizes, avail, sizes.len() as int)
}

/// An offset saturated to the range of u32.
pub open spec fn cap_u32(x: int) -> int {
    if x > u32::MAX {
        u32::MAX as int
    } else {
        x
    }
}

/// A running sum of fixed spans, capped just past the largest dimension:
/// once the sum passes every possible dimension its exact value no longer
/// matters, the Auto pool is empty either way.
spec fn sum_cap(x: int) -> int {
    if x <= 0x10000 {
        x
    } else {
        0x10000
    }
}

/// The UIElement trait contains the capability contract implemented by all
/// UI elements (e.g. Table, Container).
///
/// Every accessor is total. Every mutator is total, and leaves the element
/// dirty: the dirty flag is cleared only by `set_updated(false)`, which the
/// external renderer calls after it has repainted the element.
pub trait UIElement: Sized {
    /// The z index, in specifications.
    spec fn spec_z_index(&self) -> u8;

    /// The title, in specifications.
    spec fn spec_title(&self) -> Seq<char>;

    /// The width hint, in specifications.
    spec fn spec_width(&self) -> Size;

    /// The height hint, in specifications.
    spec fn spec_height(&self) -> Size;

    /// The dirty flag, in specifications.
    spec fn spec_updated(&self) -> bool;

    /// The vertical border character, in specifications.
    spec fn spec_border_vertical(&self) -> char;

    /// The horizontal border character, in specifications.
    spec fn spec_border_horizontal(&self) -> char;

    /// The intersection border character, in specifications.
    spec fn spec_border_intersect(&self) -> char;

    /// The vertical padding, in specifications.
    spec fn spec_padding_vertical(&self) -> u8;

    /// The horizontal padding, in specifications.
    spec fn spec_padding_horizontal(&self) -> u8;

    /// Returns the z index of the UI element.
    ///
    /// Elements with a greater z index are printed after the ones with a
    /// lower index. This way, it's possible for an element to be printed
    /// above the others (e.g. Popup).
    fn z_index(&self) -> (r: u8)
        ensures
            r == self.spec_z_index(),
    ;

    /// Sets the z index of the element. It does not cascade to children.
    fn set_z_index(&mut self, z_index: u8)
        ensures
            final(self).spec_z_index() == z_index,
            final(self).spec_updated(),
            final(self).spec_title() == old(self).spec_title(),
            final(self).spec_width() == old(self).spec_width(),
            final(self).spec_height() == old(self).spec_height(),
            final(self).spec_border_vertical() == old(self).spec_border_vertical(),
            final(self).spec_border_horizontal() == old(self).spec_border_horizontal(),
            final(self).spec_border_intersect() == old(self).spec_border_intersect(),
            final(self).spec_padding_vertical() == old(self).spec_padding_vertical(),
            final(self).spec_padding_horizontal() == old(self).spec_padding_horizontal(),
    ;

    /// Returns the title of the UI element.
    fn title(&self) -> (r: &str)
        ensures
            r@ == self.spec_title(),
    ;

    /// Sets the title.
    fn set_title(&mut self, title: &str)
        ensures
            final(self).spec_title() == title@,
            final(self).spec_updated(),
            final(self).spec_z_index() == old(self).spec_z_index(),
            final(self).spec_width() == old(self).spec_width(),
            final(self).spec_height() == old(self).spec_height(),
            final(self).spec_border_vertical() == old(self).spec_border_vertical(),
            final(self).spec_border_horizontal() == old(self).spec_border_horizontal(),
            final(self).spec_border_intersect() == old(self).spec_border_intersect(),
            final(self).spec_padding_vertical() == old(self).spec_padding_vertical(),
            final(self).spec_padding_horizontal() == old(self).spec_padding_horizontal(),
    ;

    /// Returns the width of the element.
    fn width(&self) -> (r: Size)
        ensures
            r == self.spec_width(),
    ;

    /// Sets the width. No recomputation happens until the layout resolver
    /// runs.
    fn set_width(&mut self, width: Size)
        ensures
            final(self).spec_width() == width,
            final(self).spec_updated(),
            final(self).spec_z_index() == old(self).spec_z_index(),
            final(self).spec_title() == old(self).spec_title(),
            final(self).spec_height() == old(self).spec_height(),
            final(self).spec_border_vertical() == old(self).spec_border_vertical(),
            final(self).spec_border_horizontal() == old(self).spec_border_horizontal(),
            final(self).spec_border_intersect() == old(self).spec_border_intersect(),
            final(self).spec_padding_vertical() == old(self).spec_padding_vertical(),
            final(self).spec_padding_horizontal() == old(self).spec_padding_horizontal(),
    ;

    /// Returns the height of the element.
    fn height(&self) -> (r: Size)
        ensures
            r == self.spec_height(),
    ;

    /// Sets the height. No recomputation happens until the layout resolver
    /// runs.
    fn set_height(&mut self, height: Size)
        ensures
            final(self).spec_height() == height,
            final(self).spec_updated(),
            final(self).spec_z_index() == old(self).spec_z_index(),
            final(self).spec_title() == old(self).spec_title(),
            final(self).spec_width() == old(self).spec_width(),
            final(self).spec_border_vertical() == old(self).spec_border_vertical(),
            final(self).spec_border_horizontal() == old(self).spec_border_horizontal(),
            final(self).spec_border_intersect() == old(self).spec_border_intersect(),
            final(self).spec_padding_vertical() == old(self).spec_padding_vertical(),
            final(self).spec_padding_horizontal() == old(self).spec_padding_horizontal(),
    ;

    /// Returns whether the element has been updated and needs to be redrawn.
    fn updated(&self) -> (r: bool)
        ensures
            r == self.spec_updated(),
    ;

    /// Changes the update state of the element. Only the external renderer,
    /// after completing a repaint, should clear the flag.
    fn set_updated(&mut self, updated: bool)
        ensures
            final(self).spec_updated() == updated,
            final(self).spec_z_index() == old(self).spec_z_index(),
            final(self).spec_title() == old(self).spec_title(),
            final(self).spec_width() == old(self).spec_width(),
            final(self).spec_height() == old(self).spec_height(),
            final(self).spec_border_vertical() == old(self).spec_border_vertical(),
            final(self).spec_border_horizontal() == old(self).spec_border_horizontal(),
            final(self).spec_border_intersect() == old(self).spec_border_intersect(),
            final(self).spec_padding_vertical() == old(self).spec_padding_vertical(),
            final(self).spec_padding_horizontal() == old(self).spec_padding_horizontal(),
    ;

    /// Returns the vertical border character.
    fn border_vertical(&self) -> (r: char)
        ensures
            r == self.spec_border_vertical(),
    ;

    /// Returns the horizontal border character.
    fn border_horizontal(&self) -> (r: char)
        ensures
            r == self.spec_border_horizontal(),
    ;

    /// Returns the intersection border character.
    fn border_intersect(&self) -> (r: char)
        ensures
            r == self.spec_border_intersect(),
    ;

    /// Returns the vertical padding.
    fn padding_vertical(&self) -> (r: u8)
        ensures
            r == self.spec_padding_vertical(),
    ;

    /// Returns the horizontal padding.
    fn padding_horizontal(&self) -> (r: u8)
        ensures
            r == self.spec_padding_horizontal(),
    ;
}

/// A fixed span is between zero and the available dimension: Chars is
/// clamped and a (saturated) percentage of the dimension cannot exceed it.
proof fn lemma_fixed_span_bounds(s: Size, avail: int)
    requires
        avail >= 0,
    ensures
        0 <= fixed_span(s, avail) <= avail,
{
    match s {
        Size::Auto => {},
        Size::Chars(n) => {},
        Size::Percents(p) => {
            let q = clamp_percent(p);
            assert(0 <= avail * q / 100 <= avail) by (nonlinear_arith)
                requires
                    avail >= 0,
                    0 <= q <= 100,
            ;
        },
    }
}

/// The sum of the fixed spans is never negative.
proof fn lemma_sum_fixed_nonneg(sizes: Seq<Size>, avail: int)
    requires
        avail >= 0,
    ensures
        sum_fixed(sizes, avail) >= 0,
    decreases sizes.len(),
{
    if sizes.len() > 0 {
        lemma_sum_fixed_nonneg(sizes.drop_last(), avail);
        lemma_fixed_span_bounds(sizes.last(), avail);
    }
}

/// Extending a prefix by one hint adds that hint's fixed span and, when the
/// hint is Auto, one more Auto child.
proof fn lemma_take_step(sizes: Seq<Size>, avail: int, i: int)
    requires
        0 <= i < sizes.len(),
    ensures
        sum_fixed(sizes.take(i + 1), avail) == sum_fixed(sizes.take(i), avail) + fixed_span(
            sizes[i],
            avail,
        ),
        count_auto(sizes.take(i + 1)) == count_auto(sizes.take(i)) + (if sizes[i] is Auto {
            1int
        } else {
            0int
        }),
{
    assert(sizes.take(i + 1).drop_last() =~= sizes.take(i));
    assert(sizes.take(i + 1).last() == sizes[i]);
}

/// There are between zero and `sizes.len()` Auto hints.
proof fn lemma_count_auto_bounds(sizes: Seq<Size>)
    ensures
        0 <= count_auto(sizes) <= sizes.len(),
    decreases sizes.len(),
{
    if sizes.len() > 0 {
        lemma_count_auto_bounds(sizes.drop_last());
    }
}

/// A prefix holds no more Auto hints than the whole sequence; strictly
/// fewer when the hint right after the prefix is itself Auto.
proof fn lemma_count_take_le(sizes: Seq<Size>, i: int)
    requires
        0 <= i <= sizes.len(),
    ensures
        count_auto(sizes.take(i)) <= count_auto(sizes),
        i < sizes.len() && sizes[i] is Auto ==> count_auto(sizes.take(i)) < count_auto(sizes),
    decreases sizes.len(),
{
    if i == sizes.len() {
        assert(sizes.take(i) =~= sizes);
    } else {
        let s2 = sizes.drop_last();
        assert(sizes.take(i) =~= s2.take(i));
        if i < s2.len() {
            lemma_count_take_le(s2, i);
        } else {
            assert(s2.take(i) =~= s2);
        }
    }
}

/// An Auto share is between zero and the whole pool.
proof fn lemma_auto_share_bounds(pool: int, n_auto: int, k: int)
    requires
        pool >= 0,
        n_auto >= 1,
        k >= 0,
    ensures
        0 <= auto_share(pool, n_auto, k) <= pool,
{
    let base = pool / n_auto;
    let rem = pool % n_auto;
    lemma_div_pos_is_pos(pool, n_auto);
    lemma_fundamental_div_mod(pool, n_auto);
    lemma_mod_division_less_than_divisor(pool, n_auto);
    lemma_mul_inequality(1, n_auto, base);
    assert(base <= n_auto * base);
}

/// Every child's span is between zero and the available dimension.
proof fn lemma_child_span_bounds(sizes: Seq<Size>, avail: int, i: int)
    requires
        avail >= 0,
        0 <= i < sizes.len(),
    ensures
        0 <= child_span(sizes, avail, i) <= avail,
{
    if sizes[i] is Auto {
        lemma_sum_fixed_nonneg(sizes, avail);
        lemma_count_take_le(sizes, i);
        lemma_count_auto_bounds(sizes.take(i));
        lemma_auto_share_bounds(auto_pool(sizes, avail), count_auto(sizes), count_auto(sizes.take(i)));
    } else {
        lemma_fixed_span_bounds(sizes[i], avail);
    }
}

/// With only Auto hints there are no fixed allocations.
proof fn lemma_sum_fixed_all_auto(sizes: Seq<Size>, avail: int)
    requires
        forall|i: int| 0 <= i < sizes.len() ==> sizes[i] is Auto,
    ensures
        sum_fixed(sizes, avail) == 0,
    decreases sizes.len(),
{
    if sizes.len() > 0 {
        lemma_sum_fixed_all_auto(sizes.drop_last(), avail);
    }
}

/// With only Auto hints every child counts as Auto.
proof fn lemma_count_all_auto(sizes: Seq<Size>)
    requires
        forall|i: int| 0 <= i < sizes.len() ==> sizes[i] is Auto,
    ensures
        count_auto(sizes) == sizes.len(),
    decreases sizes.len(),
{
    if sizes.len() > 0 {
        lemma_count_all_auto(sizes.drop_last());
    }
}

/// With only Auto hints, the first i spans sum to i shares of the equal
/// division plus the remainder cells already handed out.
proof fn lemma_prefix_all_auto(sizes: Seq<Size>, avail: int, i: int)
    requires
        avail >= 0,
        sizes.len() > 0,
        0 <= i <= sizes.len(),
        forall|j: int| 0 <= j < sizes.len() ==> sizes[j] is Auto,
    ensures
        span_prefix(sizes, avail, i) == i * (avail / sizes.len() as int) + (if i <= avail % (
        sizes.len() as int) {
            i
        } else {
            avail % (sizes.len() as int)
        }),
    decreases i,
{
    let n = sizes.len() as int;
    let base = avail / n;
    let rem = avail % n;
    lemma_sum_fixed_all_auto(sizes, avail);
    lemma_count_all_auto(sizes);
    if i == 0 {
        assert(0int * base == 0) by (nonlinear_arith);
    } else {
        lemma_prefix_all_auto(sizes, avail, i - 1);
        lemma_count_all_auto(sizes.take(i - 1));
        assert(count_auto(sizes.take(i - 1)) == i - 1);
        assert(child_span(sizes, avail, i - 1) == base + if i - 1 < rem {
            1int
        } else {
            0int
        });
        assert(i * base == (i - 1) * base + base) by (nonlinear_arith);
    }
}

/// With only Auto children the available dimension is shared exactly: no
/// cell is lost or double-counted, the spans sum to the dimension, and any
/// two spans differ by at most one cell.
pub proof fn lemma_auto_children_share_exactly(sizes: Seq<Size>, avail: int)
    requires
        avail >= 0,
        sizes.len() > 0,
        forall|i: int| 0 <= i < sizes.len() ==> sizes[i] is Auto,
    ensures
        span_total(sizes, avail) == avail,
        forall|i: int, j: int|
            0 <= i < sizes.len() && 0 <= j < sizes.len() ==> child_span(sizes, avail, i)
                <= child_span(sizes, avail, j) + 1,
{
    let n = sizes.len() as int;
    lemma_prefix_all_auto(sizes, avail, n);
    lemma_fundamental_div_mod(avail, n);
    lemma_mod_division_less_than_divisor(avail, n);
    assert(n * (avail / n) == (avail / n) * n) by (nonlinear_arith);
    assert(span_total(sizes, avail) == avail);
    lemma_sum_fixed_all_auto(sizes, avail);
    lemma_count_all_auto(sizes);
    assert forall|i: int, j: int|
        0 <= i < sizes.len() && 0 <= j < sizes.len() implies child_span(sizes, avail, i)
        <= child_span(sizes, avail, j) + 1 by {
        lemma_count_all_auto(sizes.take(i));
        lemma_count_all_auto(sizes.take(j));
    }
}

/// A Percents(p) child with p at most 100 is allotted exactly
/// floor(avail * p / 100) cells, computed against the container's
/// dimension, not against the space remaining after its siblings.
pub proof fn lemma_percent_span(sizes: Seq<Size>, avail: int, i: int, p: u8)
    requires
        avail >= 0,
        0 <= i < sizes.len(),
        sizes[i] == Size::Percents(p),
        p <= 100,
    ensures
        child_span(sizes, avail, i) == avail * p / 100,
{
}

/// A Chars(n) child is allotted exactly n cells, clamped to the available
/// dimension.
pub proof fn lemma_chars_span(sizes: Seq<Size>, avail: int, i: int, n: u8)
    requires
        avail >= 0,
        0 <= i < sizes.len(),
        sizes[i] == Size::Chars(n),
    ensures
        child_span(sizes, avail, i) == if n as int <= avail {
            n as int
        } else {
            avail
        },
{
}

/// The space handed to the Auto children is the available dimension minus
/// the fixed allocations, floored at zero: it is never negative.
pub proof fn lemma_auto_pool_never_negative(sizes: Seq<Size>, avail: int)
    ensures
        auto_pool(sizes, avail) >= 0,
        sum_fixed(sizes, avail) <= avail ==> auto_pool(sizes, avail) == avail - sum_fixed(
            sizes,
            avail,
        ),
{
}

/// The declared fixed demands of a sequence of hints, in hundredths of a
/// cell: a Chars(n) child asks for n cells, a Percents(p) child for p
/// hundredths of the available dimension.
pub open spec fn demand_hundredths(sizes: Seq<Size>, avail: int) -> int
    decreases sizes.len(),
{
    if sizes.len() == 0 {
        0
    } else {
        demand_hundredths(sizes.drop_last(), avail) + match sizes.last() {
            Size::Auto => 0int,
            Size::Chars(n) => 100 * n as int,
            Size::Percents(p) => avail * clamp_percent(p),
        }
    }
}

/// When the declared fixed demands fit into the available dimension, the
/// computed fixed allocations fit as well: their sum never exceeds it.
pub proof fn lemma_fixed_demands_fit(sizes: Seq<Size>, avail: int)
    requires
        avail >= 0,
        demand_hundredths(sizes, avail) <= 100 * avail,
    ensures
        sum_fixed(sizes, avail) <= avail,
{
    lemma_sum_fixed_le_demand(sizes, avail);
}

/// One hundred times the fixed allocations never exceeds the declared
/// demands in hundredths.
proof fn lemma_sum_fixed_le_demand(sizes: Seq<Size>, avail: int)
    requires
        avail >= 0,
    ensures
        100 * sum_fixed(sizes, avail) <= demand_hundredths(sizes, avail),
        demand_hundredths(sizes, avail) >= 0,
    decreases sizes.len(),
{
    if sizes.len() > 0 {
        lemma_sum_fixed_le_demand(sizes.drop_last(), avail);
        match sizes.last() {
            Size::Auto => {},
            Size::Chars(n) => {},
            Size::Percents(p) => {
                let q = clamp_percent(p);
                assert(100 * (avail * q / 100) <= avail * q && avail * q >= 0) by (nonlinear_arith)
                    requires
                        avail >= 0,
                        0 <= q <= 100,
                ;
            },
        }
    }
}

/// The cells a child with the given hint takes from the available
/// dimension before the Auto children are served.
fn fixed_cells(s: Size, avail: u16) -> (r: u16)
    ensures
        r as int == fixed_span(s, avail as int),
{
    match s {
        Size::Auto => 0,
        Size::Chars(c) => if (c as u16) <= avail {
            c as u16
        } else {
            avail
        },
        Size::Percents(p) => {
            let q: u32 = if p <= 100 {
                p as u32
            } else {
                100
            };
            proof {
                assert((avail as u32) * q <= 6553500 && ((avail as u32) * q) / 100
                    <= avail as u32) by (nonlinear_arith)
                    requires
                        q <= 100,
                ;
            }
            (((avail as u32) * q) / 100) as u16
        },
    }
}

/// Resolving twice with identical inputs and no intervening mutation
/// yields identical geometry: the container's resolution is a function of
/// the container and the available box alone.
pub proof fn lemma_resolve_idempotent(
    c: &Container,
    aw: u16,
    ah: u16,
    r1: Seq<ChildRect>,
    r2: Seq<ChildRect>,
)
    requires
        r1.len() == c.elements@.len(),
        forall|i: int| 0 <= i < r1.len() ==> r1[i] == c.resolved_child(aw as int, ah as int, i),
        r2.len() == c.elements@.len(),
        forall|i: int| 0 <= i < r2.len() ==> r2[i] == c.resolved_child(aw as int, ah as int, i),
    ensures
        r1 == r2,
{
    assert(r1 =~= r2);
}

/// Under a Tabbed layout every child resolves to the container's full box,
/// and exactly the child at the active index is visible: the others are
/// excluded from the paint order.
pub proof fn lemma_tabbed_active_full_box(c: &Container, aw: u16, ah: u16, i: int)
    requires
        c.layout is Tabbed,
        0 <= i < c.elements@.len(),
    ensures
        c.resolved_child(aw as int, ah as int, i).width == aw,
        c.resolved_child(aw as int, ah as int, i).height == ah,
        c.resolved_child(aw as int, ah as int, i).visible <==> i == c.active_tab as int,
{
}

/// A Percents(p) child of a Horizontal container, with p in the 0 to 100
/// range the data model gives Percents, resolves to a width of exactly
/// floor(aw * p / 100) cells: the share is computed against the
/// container's full dimension, not against the space remaining after its
/// siblings, and rounded down to a whole cell. Mirrored for the height of
/// a Vertical container's child.
pub proof fn lemma_percent_child_resolved(c: &Container, aw: u16, ah: u16, i: int, p: u8)
    requires
        0 <= i < c.elements@.len(),
        p <= 100,
    ensures
        c.layout is Horizontal && c.elements@[i].spec_width() == Size::Percents(p)
            ==> c.resolved_child(aw as int, ah as int, i).width == aw as int * p / 100,
        c.layout is Vertical && c.elements@[i].spec_height() == Size::Percents(p)
            ==> c.resolved_child(aw as int, ah as int, i).height == ah as int * p / 100,
{
    if c.layout is Horizontal && c.elements@[i].spec_width() == Size::Percents(p) {
        assert(c.widths()[i] == Size::Percents(p));
        lemma_percent_span(c.widths(), aw as int, i, p);
        lemma_child_span_bounds(c.widths(), aw as int, i);
    }
    if c.layout is Vertical && c.elements@[i].spec_height() == Size::Percents(p) {
        assert(c.heights()[i] == Size::Percents(p));
        lemma_percent_span(c.heights(), ah as int, i, p);
        lemma_child_span_bounds(c.heights(), ah as int, i);
    }
}

/// Any renderable node: a closed set of widget kinds implementing the shared
/// capability contract.
pub enum Widget {
    /// A leaf widget holding tabular data.
    Table(table::Table),
    /// A nested container, enabling trees of arbitrary depth.
    Container(Container),
}

/// What every capability mutator of a widget preserves: the widget's kind,
/// and the wrapped element's state beyond the capability fields — a table
/// keeps its headers, data and pagination; a container keeps its children,
/// layout and active tab.
pub open spec fn same_inner(pre: Widget, post: Widget) -> bool {
    match (pre, post) {
        (Widget::Table(t0), Widget::Table(t1)) => t1.headers == t0.headers && t1.data == t0.data
            && t1.current_page == t0.current_page && t1.items_by_page == t0.items_by_page,
        (Widget::Container(c0), Widget::Container(c1)) => c1.elements == c0.elements && c1.layout
            == c0.layout && c1.active_tab == c0.active_tab,
        _ => false,
    }
}

/// A container for UI elements.
///
/// A container exclusively owns its children: they are moved in at
/// construction, never aliased. The order of `elements` is the paint and
/// layout order.
pub struct Container {
    /// The z index of the element.
    pub z_index: u8,
    /// The title of the container.
    pub title: String,
    /// The width of the container.
    pub width: Size,
    /// The height of the container.
    pub height: Size,
    /// Whether the container has been updated.
    pub updated: bool,
    /// The character to display in vertical border.
    /// Example: |
    pub border_vertical: char,
    /// The character to display in horizontal border.
    /// Example: -
    pub border_horizontal: char,
    /// The character to display in border intersection.
    /// Example: +
    pub border_intersect: char,
    /// The vertical space between the border and the text inside the
    /// container.
    pub padding_vertical: u8,
    /// The horizontal space between the border and the text inside the
    /// container.
    pub padding_horizontal: u8,
    /// The layout.
    ///
    /// The elements will be displayed using this layout.
    pub layout: Layout,
    /// The UI elements to display.
    pub elements: Vec<Widget>,
    /// The child visible under a Tabbed layout. An out-of-range index
    /// leaves no child visible; no bound is enforced at set time.
    pub active_tab: usize,
}

impl Container {
    /// Creates a new Container.
    ///
    /// # Parameters
    /// - elements: the UI elements to store. The value is moved, to avoid
    ///   cloning.
    /// - layout: the layout of the container.
    pub fn new(elements: Vec<Widget>, layout: Layout) -> (r: Container)
        ensures
            r.z_index == 0,
            r.title@ == Seq::<char>::empty(),
            r.width is Auto,
            r.height is Auto,
            r.updated,
            r.border_vertical == ' ',
            r.border_horizontal == ' ',
            r.border_intersect == ' ',
            r.padding_vertical == 0,
            r.padding_horizontal == 0,
            r.layout == layout,
            r.elements@ == elements@,
            r.active_tab == 0,
    {
        Container {
            z_index: 0,
            title: String::new(),
            width: Size::Auto,
            height: Size::Auto,
            updated: true,
            border_vertical: ' ',
            border_horizontal: ' ',
            border_intersect: ' ',
            padding_vertical: 0,
            padding_horizontal: 0,
            layout,
            elements,
            active_tab: 0,
        }
    }

    /// Returns the index of the child visible under a Tabbed layout.
    pub fn active_tab(&self) -> (r: usize)
        ensures
            r == self.active_tab,
    {
        self.active_tab
    }

    /// Selects the child visible under a Tabbed layout. No bound is
    /// enforced: an out-of-range index leaves no child visible.
    pub fn set_active_tab(&mut self, active_tab: usize)
        ensures
            final(self).active_tab == active_tab,
            final(self).updated,
            final(self).z_index == old(self).z_index,
            final(self).title == old(self).title,
            final(self).width == old(self).width,
            final(self).height == old(self).height,
            final(self).border_vertical == old(self).border_vertical,
            final(self).border_horizontal == old(self).border_horizontal,
            final(self).border_intersect == old(self).border_intersect,
            final(self).padding_vertical == old(self).padding_vertical,
            final(self).padding_horizontal == old(self).padding_horizontal,
            final(self).layout == old(self).layout,
            final(self).elements == old(self).elements,
    {
        self.active_tab = active_tab;
        self.updated = true;
    }

    /// The children's width hints, in sequence order.
    pub open spec fn widths(&self) -> Seq<Size> {
        self.elements@.map(|i: int, w: Widget| w.spec_width())
    }

    /// The children's height hints, in sequence order.
    pub open spec fn heights(&self) -> Seq<Size> {
        self.elements@.map(|i: int, w: Widget| w.spec_height())
    }

    /// The horizontal inset of the container's content: one border cell
    /// plus the horizontal padding.
    pub open spec fn inset_x(&self) -> int {
        1 + self.padding_horizontal as int
    }

    /// The vertical inset of the container's content: one border cell plus
    /// the vertical padding.
    pub open spec fn inset_y(&self) -> int {
        1 + self.padding_vertical as int
    }

    /// The rectangle that `resolve` assigns to child i when the container's
    /// resolved box offers `aw` by `ah` cells to its children.
    pub open spec fn resolved_child(&self, aw: int, ah: int, i: int) -> ChildRect {
        match self.layout {
            Layout::Horizontal => ChildRect {
                x: cap_u32(self.inset_x() + span_prefix(self.widths(), aw, i)) as u32,
                y: self.inset_y() as u32,
                width: child_span(self.widths(), aw, i) as u16,
                height: ah as u16,
                visible: true,
            },
            Layout::Vertical => ChildRect {
                x: self.inset_x() as u32,
                y: cap_u32(self.inset_y() + span_prefix(self.heights(), ah, i)) as u32,
                width: aw as u16,
                height: child_span(self.heights(), ah, i) as u16,
                visible: true,
            },
            Layout::Tabbed => ChildRect {
                x: self.inset_x() as u32,
                y: self.inset_y() as u32,
                width: aw as u16,
                height: ah as u16,
                visible: i == self.active_tab as int,
            },
        }
    }

    /// Resolves the geometry of every direct child, given the box of
    /// `available_width` by `available_height` cells that the container
    /// offers its children.
    ///
    /// Under Horizontal the width is divided: Chars and Percents children
    /// are served first (Chars clamped to the dimension, Percents as a
    /// rounded-down share of the whole dimension), and what remains,
    /// floored at zero, is split equally among the Auto children, earlier
    /// children receiving the one-cell remainder; every child receives the
    /// full height. Vertical is the mirror image. Under Tabbed every child
    /// receives the full box and only the active child is visible.
    ///
    /// Offsets accumulate in sequence order along the divided axis,
    /// starting at the container's inset: one border cell plus its padding.
    /// Resolving mutates nothing: in particular it clears no dirty flag.
    /// A container with no children resolves to no rectangles, and zero
    /// available space allocates zero cells to every child.
    pub fn resolve(&self, available_width: u16, available_height: u16) -> (rects: Vec<ChildRect>)
        ensures
            rects@.len() == self.elements@.len(),
            forall|i: int|
                0 <= i < rects@.len() ==> rects@[i] == self.resolved_child(
                    available_width as int,
                    available_height as int,
                    i,
                ),
    {
        match self.layout {
            Layout::Horizontal => self.resolve_axis(available_width, available_height, true),
            Layout::Vertical => self.resolve_axis(available_width, available_height, false),
            Layout::Tabbed => self.resolve_tabbed(available_width, available_height),
        }
    }

    /// Resolves a Tabbed container: every child gets the full box, and
    /// exactly the active child is visible.
    fn resolve_tabbed(&self, available_width: u16, available_height: u16) -> (rects: Vec<
        ChildRect,
    >)
        requires
            self.layout is Tabbed,
        ensures
            rects@.len() == self.elements@.len(),
            forall|i: int|
                0 <= i < rects@.len() ==> rects@[i] == self.resolved_child(
                    available_width as int,
                    available_height as int,
                    i,
                ),
    {
        let x0: u32 = 1 + self.padding_horizontal as u32;
        let y0: u32 = 1 + self.padding_vertical as u32;
        let n = self.elements.len();
        let mut rects: Vec<ChildRect> = Vec::new();
        let mut i: usize = 0;
        while i < n
            invariant
                n == self.elements@.len(),
                self.layout is Tabbed,
                x0 == self.inset_x(),
                y0 == self.inset_y(),
                i <= n,
                rects@.len() == i,
                forall|j: int|
                    0 <= j < i ==> rects@[j] == self.resolved_child(
                        available_width as int,
                        available_height as int,
                        j,
                    ),
            decreases n - i,
        {
            rects.push(
                ChildRect {
                    x: x0,
                    y: y0,
                    width: available_width,
                    height: available_height,
                    visible: i == self.active_tab,
                },
            );
            i += 1;
        }
        rects
    }

    /// Resolves a Horizontal (or, mirrored, a Vertical) container: divides
    /// one axis among the children by their size hints and hands every
    /// child the full cross axis.
    fn resolve_axis(&self, available_width: u16, available_height: u16, horizontal: bool) -> (rects:
        Vec<ChildRect>)
        requires
            horizontal ==> self.layout is Horizontal,
            !horizontal ==> self.layout is Vertical,
        ensures
            rects@.len() == self.elements@.len(),
            forall|i: int|
                0 <= i < rects@.len() ==> rects@[i] == self.resolved_child(
                    available_width as int,
                    available_height as int,
                    i,
                ),
    {
        let avail: u16 = if horizontal {
            available_width
        } else {
            available_height
        };
        let ghost sizes = if horizontal {
            self.widths()
        } else {
            self.heights()
        };
        let n = self.elements.len();

        // First pass: how much the fixed children take (summed with a cap
        // just past the dimension, so that huge demands cannot overflow),
        // and how many children are Auto.
        let mut fixed_capped: u32 = 0;
        let mut autos: usize = 0;
        let mut i: usize = 0;
        while i < n
            invariant
                n == self.elements@.len(),
                sizes == if horizontal {
                    self.widths()
                } else {
                    self.heights()
                },
                sizes.len() == n,
                avail == if horizontal {
                    available_width
                } else {
                    available_height
                },
                i <= n,
                autos as int == count_auto(sizes.take(i as int)),
                autos <= i,
                fixed_capped as int == sum_cap(sum_fixed(sizes.take(i as int), avail as int)),
            decreases n - i,
        {
            let w: &Widget = &self.elements[i];
            let s: Size = if horizontal {
                w.width()
            } else {
                w.height()
            };
            proof {
                assert(sizes[i as int] == s);
                lemma_take_step(sizes, avail as int, i as int);
                lemma_fixed_span_bounds(s, avail as int);
                lemma_sum_fixed_nonneg(sizes.take(i as int), avail as int);
            }
            let fs: u16 = fixed_cells(s, avail);
            let sum = fixed_capped + (fs as u32);
            fixed_capped = if sum > 0x10000 {
                0x10000
            } else {
                sum
            };
            if let Size::Auto = s {
                autos += 1;
            }
            i += 1;
        }
        proof {
            assert(sizes.take(n as int) =~= sizes);
            lemma_sum_fixed_nonneg(sizes, avail as int);
        }

        // The pool for the Auto children, its equal share, and the number
        // of earlier Auto children that receive one extra cell.
        let pool: u16 = if fixed_capped >= avail as u32 {
            0
        } else {
            avail - (fixed_capped as u16)
        };
        proof {
            assert(pool as int == auto_pool(sizes, avail as int));
        }
        let mut base: u16 = 0;
        let mut rem: usize = 0;
        if autos > 0 {
            proof {
                lemma_div_pos_is_pos(pool as int, autos as int);
                lemma_div_nonincreasing(pool as int, autos as int);
                lemma_mod_division_less_than_divisor(pool as int, autos as int);
            }
            base = ((pool as usize) / autos) as u16;
            rem = (pool as usize) % autos;
        }

        // Second pass: allot each child its span and accumulate offsets
        // along the divided axis, saturated at the offset type's range.
        let cross: u32 = 1 + (if horizontal {
            self.padding_vertical
        } else {
            self.padding_horizontal
        }) as u32;
        let ghost inset = if horizontal {
            self.inset_x()
        } else {
            self.inset_y()
        };
        let mut offset: u32 = 1 + (if horizontal {
            self.padding_horizontal
        } else {
            self.padding_vertical
        }) as u32;
        let mut rects: Vec<ChildRect> = Vec::new();
        let mut k: usize = 0;
        let mut i: usize = 0;
        while i < n
            invariant
                n == self.elements@.len(),
                sizes == if horizontal {
                    self.widths()
                } else {
                    self.heights()
                },
                sizes.len() == n,
                avail == if horizontal {
                    available_width
                } else {
                    available_height
                },
                horizontal ==> self.layout is Horizontal,
                !horizontal ==> self.layout is Vertical,
                autos as int == count_auto(sizes),
                pool as int == auto_pool(sizes, avail as int),
                autos > 0 ==> base as int == pool as int / autos as int && rem as int == pool as int
                    % autos as int,
                cross as int == if horizontal {
                    self.inset_y()
                } else {
                    self.inset_x()
                },
                inset == if horizontal {
                    self.inset_x()
                } else {
                    self.inset_y()
                },
                i <= n,
                rects@.len() == i,
                forall|j: int|
                    0 <= j < i ==> rects@[j] == self.resolved_child(
                        available_width as int,
                        available_height as int,
                        j,
                    ),
                k as int == count_auto(sizes.take(i as int)),
                k <= i,
                span_prefix(sizes, avail as int, i as int) >= 0,
                offset as int == cap_u32(inset + span_prefix(sizes, avail as int, i as int)),
            decreases n - i,
        {
            let w: &Widget = &self.elements[i];
            let s: Size = if horizontal {
                w.width()
            } else {
                w.height()
            };
            proof {
                assert(sizes[i as int] == s);
                lemma_take_step(sizes, avail as int, i as int);
                lemma_child_span_bounds(sizes, avail as int, i as int);
            }
            let span: u16 = match s {
                Size::Auto => {
                    proof {
                        lemma_count_take_le(sizes, i as int);
                        lemma_count_auto_bounds(sizes.take(i as int));
                        lemma_div_pos_is_pos(pool as int, autos as int);
                        lemma_fundamental_div_mod(pool as int, autos as int);
                        lemma_mod_division_less_than_divisor(pool as int, autos as int);
                        lemma_mul_inequality(1, autos as int, base as int);
                        assert(base as int <= autos as int * base as int);
                    }
                    let extra: u16 = if k < rem {
                        1
                    } else {
                        0
                    };
                    k += 1;
                    base + extra
                },
                _ => fixed_cells(s, avail),
            };
            if horizontal {
                rects.push(
                    ChildRect {
                        x: offset,
                        y: cross,
                        width: span,
                        height: available_height,
                        visible: true,
                    },
                );
            } else {
                rects.push(
                    ChildRect {
                        x: cross,
                        y: offset,
                        width: available_width,
                        height: span,
                        visible: true,
                    },
                );
            }
            proof {
                assert(span as int == child_span(sizes, avail as int, i as int));
                assert(rects@[i as int] == self.resolved_child(
                    available_width as int,
                    available_height as int,
                    i as int,
                ));
            }
            let sp32 = span as u32;
            offset = if offset > u32::MAX - sp32 {
                u32::MAX
            } else {
                offset + sp32
            };
            i += 1;
        }
        rects
    }
}

impl UIElement for Container {
    open spec fn spec_z_index(&self) -> u8 {
        self.z_index
    }

    open spec fn spec_title(&self) -> Seq<char> {
        self.title@
    }

    open spec fn spec_width(&self) -> Size {
        self.width
    }

    open spec fn spec_height(&self) -> Size {
        self.height
    }

    open spec fn spec_updated(&self) -> bool {
        self.updated
    }

    open spec fn spec_border_vertical(&self) -> char {
        self.border_vertical
    }

    open spec fn spec_border_horizontal(&self) -> char {
        self.border_horizontal
    }

    open spec fn spec_border_intersect(&self) -> char {
        self.border_intersect
    }

    open spec fn spec_padding_vertical(&self) -> u8 {
        self.padding_vertical
    }

    open spec fn spec_padding_horizontal(&self) -> u8 {
        self.padding_horizontal
    }

    /// Returns the z index.
    fn z_index(&self) -> (r: u8) {
        self.z_index
    }

    /// Sets the z index. It does not cascade: the children, their own z
    /// indices included, the layout and the active tab are untouched.
    fn set_z_index(&mut self, z_index: u8)
        ensures
            final(self).elements == old(self).elements,
            final(self).layout == old(self).layout,
            final(self).active_tab == old(self).active_tab,
    {
        self.z_index = z_index;
        self.updated = true;
    }

    /// Returns the title of the container.
    fn title(&self) -> (r: &str) {
        self.title.as_str()
    }

    /// Sets the title. The children, the layout and the active tab are
    /// untouched.
    fn set_title(&mut self, title: &str)
        ensures
            final(self).elements == old(self).elements,
            final(self).layout == old(self).layout,
            final(self).active_tab == old(self).active_tab,
    {
        self.title = title.to_string();
        self.updated = true;
    }

    /// Returns the width of the container.
    fn width(&self) -> (r: Size) {
        self.width
    }

    /// Sets the width. The children, the layout and the active tab are
    /// untouched.
    fn set_width(&mut self, width: Size)
        ensures
            final(self).elements == old(self).elements,
            final(self).layout == old(self).layout,
            final(self).active_tab == old(self).active_tab,
    {
        self.width = width;
        self.updated = true;
    }

    /// Returns the height of the container.
    fn height(&self) -> (r: Size) {
        self.height
    }

    /// Sets the height. The children, the layout and the active tab are
    /// untouched.
    fn set_height(&mut self, height: Size)
        ensures
            final(self).elements == old(self).elements,
            final(self).layout == old(self).layout,
            final(self).active_tab == old(self).active_tab,
    {
        self.height = height;
        self.updated = true;
    }

    /// Returns whether the container has been updated and needs to be
    /// redrawn.
    fn updated(&self) -> (r: bool) {
        self.updated
    }

    /// Changes the state of the element. Nothing else changes: no child
    /// widget is touched, and the layout and the active tab survive.
    fn set_updated(&mut self, updated: bool)
        ensures
            final(self).elements == old(self).elements,
            final(self).layout == old(self).layout,
            final(self).active_tab == old(self).active_tab,
    {
        self.updated = updated;
    }

    /// Returns the vertical border character.
    fn border_vertical(&self) -> (r: char) {
        self.border_vertical
    }

    /// Returns the horizontal border character.
    fn border_horizontal(&self) -> (r: char) {
        self.border_horizontal
    }

    /// Returns the intersection border character.
    fn border_intersect(&self) -> (r: char) {
        self.border_intersect
    }

    /// Returns the vertical padding.
    fn padding_vertical(&self) -> (r: u8) {
        self.padding_vertical
    }

    /// Returns the horizontal padding.
    fn padding_horizontal(&self) -> (r: u8) {
        self.padding_horizontal
    }
}

impl UIElement for Widget {
    open spec fn spec_z_index(&self) -> u8 {
        match self {
            Widget::Table(t) => t.spec_z_index(),
            Widget::Container(c) => c.spec_z_index(),
        }
    }

    open spec fn spec_title(&self) -> Seq<char> {
        match self {
            Widget::Table(t) => t.spec_title(),
            Widget::Container(c) => c.spec_title(),
        }
    }

    open spec fn spec_width(&self) -> Size {
        match self {
            Widget::Table(t) => t.spec_width(),
            Widget::Container(c) => c.spec_width(),
        }
    }

    open spec fn spec_height(&self) -> Size {
        match self {
            Widget::Table(t) => t.spec_height(),
            Widget::Container(c) => c.spec_height(),
        }
    }

    open spec fn spec_updated(&self) -> bool {
        match self {
            Widget::Table(t) => t.spec_updated(),
            Widget::Container(c) => c.spec_updated(),
        }
    }

    open spec fn spec_border_vertical(&self) -> char {
        match self {
            Widget::Table(t) => t.spec_border_vertical(),
            Widget::Container(c) => c.spec_border_vertical(),
        }
    }

    open spec fn spec_border_horizontal(&self) -> char {
        match self {
            Widget::Table(t) => t.spec_border_horizontal(),
            Widget::Container(c) => c.spec_border_horizontal(),
        }
    }

    open spec fn spec_border_intersect(&self) -> char {
        match self {
            Widget::Table(t) => t.spec_border_intersect(),
            Widget::Container(c) => c.spec_border_intersect(),
        }
    }

    open spec fn spec_padding_vertical(&self) -> u8 {
        match self {
            Widget::Table(t) => t.spec_padding_vertical(),
            Widget::Container(c) => c.spec_padding_vertical(),
        }
    }

    open spec fn spec_padding_horizontal(&self) -> u8 {
        match self {
            Widget::Table(t) => t.spec_padding_horizontal(),
            Widget::Container(c) => c.spec_padding_horizontal(),
        }
    }

    /// Returns the z index of the wrapped element.
    fn z_index(&self) -> (r: u8) {
        match self {
            Widget::Table(t) => t.z_index(),
            Widget::Container(c) => c.z_index(),
        }
    }

    /// Sets the z index of the wrapped element.
    fn set_z_index(&mut self, z_index: u8)
        ensures
            same_inner(*old(self), *final(self)),
    {
        match self {
            Widget::Table(t) => t.set_z_index(z_index),
            Widget::Container(c) => c.set_z_index(z_index),
        }
    }

    /// Returns the title of the wrapped element.
    fn title(&self) -> (r: &str) {
        match self {
            Widget::Table(t) => t.title(),
            Widget::Container(c) => c.title(),
        }
    }

    /// Sets the title of the wrapped element.
    fn set_title(&mut self, title: &str)
        ensures
            same_inner(*old(self), *final(self)),
    {
        match self {
            Widget::Table(t) => t.set_title(title),
            Widget::Container(c) => c.set_title(title),
        }
    }

    /// Returns the width of the wrapped element.
    fn width(&self) -> (r: Size) {
        match self {
            Widget::Table(t) => t.width(),
            Widget::Container(c) => c.width(),
        }
    }

    /// Sets the width of the wrapped element.
    fn set_width(&mut self, width: Size)
        ensures
            same_inner(*old(self), *final(self)),
    {
        match self {
            Widget::Table(t) => t.set_width(width),
            Widget::Container(c) => c.set_width(width),
        }
    }

    /// Returns the height of the wrapped element.
    fn height(&self) -> (r: Size) {
        match self {
            Widget::Table(t) => t.height(),
            Widget::Container(c) => c.height(),
        }
    }

    /// Sets the height of the wrapped element.
    fn set_height(&mut self, height: Size)
        ensures
            same_inner(*old(self), *final(self)),
    {
        match self {
            Widget::Table(t) => t.set_height(height),
            Widget::Container(c) => c.set_height(height),
        }
    }

    /// Returns whether the wrapped element needs to be redrawn.
    fn updated(&self) -> (r: bool) {
        match self {
            Widget::Table(t) => t.updated(),
            Widget::Container(c) => c.updated(),
        }
    }

    /// Changes the update state of the wrapped element.
    fn set_updated(&mut self, updated: bool)
        ensures
            same_inner(*old(self), *final(self)),
    {
        match self {
            Widget::Table(t) => t.set_updated(updated),
            Widget::Container(c) => c.set_updated(updated),
        }
    }

    /// Returns the vertical border character of the wrapped element.
    fn border_vertical(&self) -> (r: char) {
        match self {
            Widget::Table(t) => t.border_vertical(),
            Widget::Container(c) => c.border_vertical(),
        }
    }

    /// Returns the horizontal border character of the wrapped element.
    fn border_horizontal(&self) -> (r: char) {
        match self {
            Widget::Table(t) => t.border_horizontal(),
            Widget::Container(c) => c.border_horizontal(),
        }
    }

    /// Returns the intersection border character of the wrapped element.
    fn border_intersect(&self) -> (r: char) {
        match self {
            Widget::Table(t) => t.border_intersect(),
            Widget::Container(c) => c.border_intersect(),
        }
    }

    /// Returns the vertical padding of the wrapped element.
    fn padding_vertical(&self) -> (r: u8) {
        match self {
            Widget::Table(t) => t.padding_vertical(),
            Widget::Container(c) => c.padding_vertical(),
        }
    }

    /// Returns the horizontal padding of the wrapped element.
    fn padding_horizontal(&self) -> (r: u8) {
        match self {
            Widget::Table(t) => t.padding_horizontal(),
            Widget::Container(c) => c.padding_horizontal(),
        }
    }
}

} // verus!
