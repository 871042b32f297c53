//! Dividing a solid into benches and flitches.
use crate::command::UiCommand;
use crate::ids::SolidId;
use crate::lists::copied;
use crate::model::{BenchInterval, BenchingPlan, FlitchStyle, SolidEdit};
use crate::number::{Pair64, Real64};
use crate::ordering::{is_sorted_form, sort_falling, Ranked};
use crate::state::planning::{BenchSelection, PlanningState};
use crate::text::{key, literal, literal1, literal2, literal3, named, Arg, Text};
use vstd::prelude::*;

verus! {

/// What a flitch position is called: the ends are named, the rest counted.
#[verifier::allow_in_spec]
pub fn flitch_position_label(position: usize, count: usize) -> (r: Text)
    requires
        position < usize::MAX,
    returns
        (if position == 0 {
            literal("Top flitch")
        } else if position + 1 == count {
            literal("Bottom flitch")
        } else {
            literal1("Flitch %index%", named("index", Arg::Count((position + 1) as usize)))
        }),
{
    if position == 0 {
        literal("Top flitch")
    } else if position + 1 == count {
        literal("Bottom flitch")
    } else {
        literal1("Flitch %index%", named("index", Arg::Count(position + 1)))
    }
}

impl BenchInterval {
    /// The same range with the same heights and styles, down to another base.
    pub open spec fn is_split_of(self, interval: BenchInterval, base: Real64) -> bool {
        &&& self.base == base
        &&& self.bench == interval.bench
        &&& self.flitch == interval.flitch
        &&& self.styles@ == interval.styles@
    }

    /// What is wrong with the flitch height, given how many flitches go into a bench and
    /// whether they go evenly.
    pub fn flitch_warning(&self, flitches_across: Real64, divides: bool) -> (r: Option<Text>)
        ensures
            r == (if (Real64 { bits: crate::constants::ZERO }).lt_number(self.flitch) && (Real64 {
                bits: crate::constants::SIXTY_FOUR,
            }).lt_number(flitches_across) {
                Some(key("planning-too-many-flitches"))
            } else if !divides {
                Some(
                    literal2(
                        "A %bench% m bench is not a whole number of %flitch% m flitches",
                        named("bench", Arg::Fixed { value: self.bench, decimals: 2 }),
                        named("flitch", Arg::Fixed { value: self.flitch, decimals: 2 }),
                    ),
                )
            } else {
                None
            }),
    {
        let zero = Real64 { bits: crate::constants::ZERO };
        let most = Real64 { bits: crate::constants::SIXTY_FOUR };
        if zero.less(self.flitch) && most.less(flitches_across) {
            Some(key("planning-too-many-flitches"))
        } else if !divides {
            Some(
                literal2(
                    "A %bench% m bench is not a whole number of %flitch% m flitches",
                    named("bench", Arg::Fixed { value: self.bench, decimals: 2 }),
                    named("flitch", Arg::Fixed { value: self.flitch, decimals: 2 }),
                ),
            )
        } else {
            None
        }
    }

    /// Fit the styles to as many flitches as a bench now has: positions that survive keep
    /// what they were given, new ones take the default for where they sit. Whether anything
    /// changed.
    pub fn settle_styles(&mut self, defaults: &Vec<FlitchStyle>) -> (r: bool)
        ensures
            r == (old(self).styles@.len() != defaults@.len()),
            final(self).styles@ == fitted_styles(old(self).styles@, defaults@),
            final(self).base == old(self).base,
            final(self).bench == old(self).bench,
            final(self).flitch == old(self).flitch,
    {
        if self.styles.len() == defaults.len() {
            assert(self.styles@ =~= fitted_styles(self.styles@, defaults@));
            return false;
        }
        let mut styles: Vec<FlitchStyle> = Vec::new();
        let mut i: usize = 0;
        while i < defaults.len()
            invariant
                i <= defaults@.len(),
                styles@ == fitted_styles(self.styles@, defaults@).take(i as int),
            decreases defaults@.len() - i,
        {
            if i < self.styles.len() {
                styles.push(self.styles[i]);
            } else {
                styles.push(defaults[i]);
            }
            i = i + 1;
            assert(styles@ =~= fitted_styles(self.styles@, defaults@).take(i as int));
        }
        assert(fitted_styles(self.styles@, defaults@).take(i as int) =~= fitted_styles(self.styles@, defaults@));
        self.styles = styles;
        true
    }
}

/// The styles of as many positions as there are defaults.
pub open spec fn fitted_styles(styles: Seq<FlitchStyle>, defaults: Seq<FlitchStyle>) -> Seq<FlitchStyle> {
    Seq::new(
        defaults.len(),
        |position: int| if position < styles.len() {
            styles[position]
        } else {
            defaults[position]
        },
    )
}

/// Fitting the styles again changes nothing, and a position that is dropped and comes
/// back takes its default.
pub proof fn fitted_styles_stay(styles: Seq<FlitchStyle>, defaults: Seq<FlitchStyle>, fewer: Seq<FlitchStyle>, position: int)
    requires
        0 <= position < defaults.len(),
    ensures
        fitted_styles(fitted_styles(styles, defaults), defaults) == fitted_styles(styles, defaults),
        position >= fewer.len() ==> fitted_styles(fitted_styles(styles, fewer), defaults)[position] == defaults[position],
{
    assert(fitted_styles(fitted_styles(styles, defaults), defaults) =~= fitted_styles(styles, defaults));
}

/// A bench of a plan, as it is listed.
#[derive(Clone, Debug)]
pub struct Bench {
    pub base: Real64,
    pub top: Real64,
    pub height: Real64,
    /// Top down.
    pub flitches: Vec<Flitch>,
}

#[derive(Clone, Copy, Debug, PartialEq, Eq, Structural)]
pub struct Flitch {
    pub base: Real64,
    pub top: Real64,
}

/// A slice that can be picked, and what its row says.
#[derive(Clone, Debug, PartialEq)]
pub struct BenchRow {
    pub slice: BenchSelection,
    pub label: Text,
}

/// Some of the solid lies in a slice. `occupied` is the extent of the solid, drawn in by a
/// little at both ends; without one every slice counts.
pub open spec fn holds_solid(occupied: Option<Pair64>, base: Real64, top: Real64) -> bool {
    match occupied {
        Some(extent) => extent.x.lt_number(top) && base.lt_number(extent.y),
        None => true,
    }
}

fn slice_holds_solid(occupied: Option<Pair64>, base: Real64, top: Real64) -> (r: bool)
    ensures
        r == holds_solid(occupied, base, top),
{
    match occupied {
        Some(extent) => extent.x.less(top) && base.less(extent.y),
        None => true,
    }
}

impl Bench {
    pub open spec fn spec_row(self) -> BenchRow {
        BenchRow {
            slice: BenchSelection { base: self.base, top: self.top, is_flitch: false },
            label: literal3(
                "%base% → %top% (%height% m)",
                named("base", Arg::Fixed { value: self.base, decimals: 2 }),
                named("top", Arg::Fixed { value: self.top, decimals: 2 }),
                named("height", Arg::Fixed { value: self.height, decimals: 2 }),
            ),
        }
    }

    fn row(&self) -> (r: BenchRow)
        ensures
            r == self.spec_row(),
    {
        BenchRow {
            slice: BenchSelection { base: self.base, top: self.top, is_flitch: false },
            label: literal3(
                "%base% → %top% (%height% m)",
                named("base", Arg::Fixed { value: self.base, decimals: 2 }),
                named("top", Arg::Fixed { value: self.top, decimals: 2 }),
                named("height", Arg::Fixed { value: self.height, decimals: 2 }),
            ),
        }
    }
}

impl Flitch {
    pub open spec fn spec_row(self) -> BenchRow {
        BenchRow {
            slice: BenchSelection { base: self.base, top: self.top, is_flitch: true },
            label: literal2(
                "    %base% → %top%",
                named("base", Arg::Fixed { value: self.base, decimals: 2 }),
                named("top", Arg::Fixed { value: self.top, decimals: 2 }),
            ),
        }
    }

    fn row(&self) -> (r: BenchRow)
        ensures
            r == self.spec_row(),
    {
        BenchRow {
            slice: BenchSelection { base: self.base, top: self.top, is_flitch: true },
            label: literal2(
                "    %base% → %top%",
                named("base", Arg::Fixed { value: self.base, decimals: 2 }),
                named("top", Arg::Fixed { value: self.top, decimals: 2 }),
            ),
        }
    }
}

/// The rows of some flitches, bottom up.
pub open spec fn flitch_rows(flitches: Seq<Flitch>, occupied: Option<Pair64>) -> Seq<BenchRow>
    decreases flitches.len(),
{
    if flitches.len() == 0 {
        Seq::empty()
    } else if holds_solid(occupied, flitches.last().base, flitches.last().top) {
        seq![flitches.last().spec_row()] + flitch_rows(flitches.drop_last(), occupied)
    } else {
        flitch_rows(flitches.drop_last(), occupied)
    }
}

/// The rows of some benches, bottom up, each with its flitches underneath it. Only slices
/// that hold some of the solid are listed.
pub open spec fn bench_rows(benches: Seq<Bench>, occupied: Option<Pair64>) -> Seq<BenchRow>
    decreases benches.len(),
{
    if benches.len() == 0 {
        Seq::empty()
    } else if holds_solid(occupied, benches.last().base, benches.last().top) {
        seq![benches.last().spec_row()] + flitch_rows(benches.last().flitches@, occupied) + bench_rows(benches.drop_last(), occupied)
    } else {
        bench_rows(benches.drop_last(), occupied)
    }
}

fn push_flitch_rows(rows: &mut Vec<BenchRow>, flitches: &Vec<Flitch>, occupied: Option<Pair64>)
    ensures
        final(rows)@ == old(rows)@ + flitch_rows(flitches@, occupied),
{
    let mut i: usize = flitches.len();
    assert(flitches@.take(i as int) =~= flitches@);
    while i > 0
        invariant
            i <= flitches@.len(),
            rows@ + flitch_rows(flitches@.take(i as int), occupied) == old(rows)@ + flitch_rows(flitches@, occupied),
        decreases i,
    {
        let ghost before = rows@;
        i = i - 1;
        let flitch = &flitches[i];
        assert(flitches@.take(i + 1).drop_last() =~= flitches@.take(i as int));
        if slice_holds_solid(occupied, flitch.base, flitch.top) {
            rows.push(flitch.row());
            assert(rows@ + flitch_rows(flitches@.take(i as int), occupied) =~= before + flitch_rows(flitches@.take(i + 1), occupied));
        }
    }
    assert(rows@ =~= old(rows)@ + flitch_rows(flitches@, occupied));
}

/// The rows of the results list.
pub fn result_rows(benches: &Vec<Bench>, occupied: Option<Pair64>) -> (r: Vec<BenchRow>)
    ensures
        r@ == bench_rows(benches@, occupied),
{
    let mut rows: Vec<BenchRow> = Vec::new();
    let mut i: usize = benches.len();
    assert(benches@.take(i as int) =~= benches@);
    assert(rows@ + bench_rows(benches@, occupied) =~= bench_rows(benches@, occupied));
    while i > 0
        invariant
            i <= benches@.len(),
            rows@ + bench_rows(benches@.take(i as int), occupied) == bench_rows(benches@, occupied),
        decreases i,
    {
        let ghost before = rows@;
        i = i - 1;
        let bench = &benches[i];
        assert(benches@.take(i + 1).drop_last() =~= benches@.take(i as int));
        if slice_holds_solid(occupied, bench.base, bench.top) {
            rows.push(bench.row());
            push_flitch_rows(&mut rows, &bench.flitches, occupied);
            assert(rows@ + bench_rows(benches@.take(i as int), occupied) =~= before + bench_rows(benches@.take(i + 1), occupied));
        }
    }
    assert(rows@ =~= bench_rows(benches@, occupied));
    rows
}

/// What the results list says where it is empty.
pub fn empty_note(plan: &BenchingPlan) -> (r: Text)
    ensures
        r == (if plan.intervals@.len() == 0 {
            literal("No benches yet - add a range")
        } else {
            literal("No bench holds any of this solid")
        }),
{
    if plan.intervals.len() == 0 {
        literal("No benches yet - add a range")
    } else {
        literal("No bench holds any of this solid")
    }
}

/// Without an extent to compare with, every bench and every flitch is listed.
pub proof fn every_slice_is_listed_without_extent(benches: Seq<Bench>, bench: int, flitch: int)
    requires
        0 <= bench < benches.len(),
    ensures
        bench_rows(benches, None).contains(benches[bench].spec_row()),
        0 <= flitch < benches[bench].flitches@.len() ==> bench_rows(benches, None).contains(benches[bench].flitches@[flitch].spec_row()),
    decreases benches.len(),
{
    let last = benches.last();
    let head = seq![last.spec_row()];
    let middle = flitch_rows(last.flitches@, None);
    let rest = bench_rows(benches.drop_last(), None);
    let all = head + middle + rest;
    assert(bench_rows(benches, None) == all);
    if bench == benches.len() - 1 {
        assert(all[0] == last.spec_row());
        if 0 <= flitch < last.flitches@.len() {
            lemma_flitch_listed(last.flitches@, flitch);
            let k = choose|k: int| 0 <= k < middle.len() && middle[k] == last.flitches@[flitch].spec_row();
            assert(all[1 + k] == middle[k]);
        }
    } else {
        every_slice_is_listed_without_extent(benches.drop_last(), bench, flitch);
        let k = choose|k: int| 0 <= k < rest.len() && rest[k] == benches[bench].spec_row();
        assert(all[1 + middle.len() + k] == rest[k]);
        if 0 <= flitch < benches[bench].flitches@.len() {
            let l = choose|l: int| 0 <= l < rest.len() && rest[l] == benches[bench].flitches@[flitch].spec_row();
            assert(all[1 + middle.len() + l] == rest[l]);
        }
    }
}

proof fn lemma_flitch_listed(flitches: Seq<Flitch>, flitch: int)
    requires
        0 <= flitch < flitches.len(),
    ensures
        flitch_rows(flitches, None).contains(flitches[flitch].spec_row()),
    decreases flitches.len(),
{
    let rows = flitch_rows(flitches, None);
    let rest = flitch_rows(flitches.drop_last(), None);
    assert(rows == seq![flitches.last().spec_row()] + rest);
    if flitch == flitches.len() - 1 {
        assert(rows[0] == flitches.last().spec_row());
    } else {
        lemma_flitch_listed(flitches.drop_last(), flitch);
        let k = choose|k: int| 0 <= k < rest.len() && rest[k] == flitches[flitch].spec_row();
        assert(rows[1 + k] == rest[k]);
    }
}

/// The same slice, its bounds compared as numbers.
pub open spec fn same_slice(a: Option<BenchSelection>, b: BenchSelection) -> bool {
    match a {
        Some(a) => a.base.eq_number(b.base) && a.top.eq_number(b.top) && a.is_flitch == b.is_flitch,
        None => false,
    }
}

impl PlanningState {
    /// Whether a row of the results is the one that is picked.
    pub fn slice_selected(&self, slice: BenchSelection) -> (r: bool)
        ensures
            r == same_slice(self.selected_bench, slice),
    {
        match self.selected_bench {
            Some(selected) => selected.base.equals(slice.base) && selected.top.equals(slice.top) && selected.is_flitch == slice.is_flitch,
            None => false,
        }
    }

    /// Pick a slice, or let go of the one that is picked.
    pub fn click_slice(&mut self, slice: BenchSelection)
        ensures
            *final(self) == (PlanningState {
                selected_bench: if same_slice(old(self).selected_bench, slice) {
                    None
                } else {
                    Some(slice)
                },
                ..*old(self)
            }),
    {
        if self.slice_selected(slice) {
            self.selected_bench = None;
        } else {
            self.selected_bench = Some(slice);
        }
    }
}

impl BenchingPlan {
    /// Where a range begins: at the base of the one above it, or at the top.
    pub open spec fn spec_above(self, index: int) -> Real64 {
        if index == 0 {
            self.top
        } else {
            self.intervals@[index - 1].base
        }
    }

    pub fn above(&self, index: usize) -> (r: Real64)
        requires
            index <= self.intervals@.len(),
        ensures
            r == self.spec_above(index as int),
    {
        if index == 0 {
            self.top
        } else {
            self.intervals[index - 1].base
        }
    }

    /// Where the lowest range ends, from which a new one goes down.
    pub fn lowest(&self) -> (r: Real64)
        ensures
            r == self.spec_above(self.intervals@.len() as int),
    {
        self.above(self.intervals.len())
    }

    /// Split a range at `split`. Both parts have the heights and styles of the whole, which
    /// is what a reader then adjusts.
    pub fn split_range(&mut self, index: usize, split: Real64)
        requires
            index < old(self).intervals@.len(),
        ensures
            final(self).top == old(self).top,
            final(self).intervals@.len() == old(self).intervals@.len() + 1,
            final(self).intervals@[index as int].is_split_of(old(self).intervals@[index as int], split),
            final(self).intervals@.remove(index as int) == old(self).intervals@,
    {
        let interval = &self.intervals[index];
        let upper = BenchInterval {
            base: split,
            bench: interval.bench,
            flitch: interval.flitch,
            styles: copied(&interval.styles),
        };
        self.intervals.insert(index, upper);
        assert(self.intervals@.remove(index as int) =~= old(self).intervals@);
    }

    /// Take a range out.
    pub fn delete_range(&mut self, index: usize)
        requires
            index < old(self).intervals@.len(),
        ensures
            final(self).top == old(self).top,
            final(self).intervals@ == old(self).intervals@.remove(index as int),
    {
        let _removed = self.intervals.remove(index);
    }

    /// Add a range below the others, with given heights and no styles yet.
    pub fn add_range(&mut self, base: Real64, bench: Real64, flitch: Real64)
        ensures
            final(self).top == old(self).top,
            final(self).intervals@.len() == old(self).intervals@.len() + 1,
            final(self).intervals@.drop_last() == old(self).intervals@,
            ({
                let added = final(self).intervals@.last();
                &&& added.base == base
                &&& added.bench == bench
                &&& added.flitch == flitch
                &&& added.styles@.len() == 0
            }),
    {
        self.intervals.push(BenchInterval { base, bench, flitch, styles: Vec::new() });
        assert(self.intervals@.drop_last() =~= old(self).intervals@);
    }
}

/// Ranges are listed by their bases.
impl Ranked for BenchInterval {
    open spec fn rank(self) -> int {
        self.base.total_rank()
    }

    fn ranks_below(&self, other: &BenchInterval) -> (r: bool) {
        self.base.is_before(other.base)
    }
}

/// Take a frame of the benching step: a plan that changed is written back, its ranges top
/// down. Nothing is written without a solid.
pub fn finish_benching(solid: Option<SolidId>, plan: BenchingPlan, changed: bool, commands: &mut Vec<UiCommand>)
    ensures
        solid is Some && changed ==> {
            &&& final(commands)@.len() == old(commands)@.len() + 1
            &&& final(commands)@.drop_last() == old(commands)@
            &&& final(commands)@.last() matches UiCommand::UpdateSolid { solid: id, edit } && id == solid->0 && (edit
                matches SolidEdit::Benching(written) && written.top == plan.top && is_sorted_form(written.intervals@, plan.intervals@))
        },
        !(solid is Some && changed) ==> final(commands)@ == old(commands)@,
{
    if let Some(solid) = solid {
        if changed {
            let mut plan = plan;
            sort_falling(&mut plan.intervals);
            commands.push(UiCommand::UpdateSolid { solid, edit: SolidEdit::Benching(plan) });
            assert(commands@.drop_last() =~= old(commands)@);
        }
    }
}

/// A slice holds some of the solid exactly where the two overlap: where some elevation lies
/// inside both. So it does wherever it lies within the extent of the solid or the extent
/// within it, and never where they only touch.
pub proof fn slices_hold_the_solid_where_they_overlap(extent: Pair64, base: Real64, top: Real64, between: Real64)
    requires
        base.lt_number(top),
        extent.x.lt_number(extent.y),
    ensures
        base.lt_number(between) && between.lt_number(top) && extent.x.lt_number(between) && between.lt_number(extent.y) ==> holds_solid(
            Some(extent),
            base,
            top,
        ),
        extent.x.le_number(base) && top.le_number(extent.y) ==> holds_solid(Some(extent), base, top),
        base.le_number(extent.x) && extent.y.le_number(top) ==> holds_solid(Some(extent), base, top),
        top.le_number(extent.x) || extent.y.le_number(base) ==> !holds_solid(Some(extent), base, top),
        base.finite() && top.finite() && extent.x.finite() && extent.y.finite() ==> (holds_solid(Some(extent), base, top) <==> {
            let low = if base.value() < extent.x.value() { extent.x.value() } else { base.value() };
            let high = if top.value() < extent.y.value() { top.value() } else { extent.y.value() };
            low < high
        }),
        holds_solid(None, base, top),
{
    if base.finite() && top.finite() && extent.x.finite() && extent.y.finite() {
        crate::number::finite_doubles_compare_as_numbers(base, top);
        crate::number::finite_doubles_compare_as_numbers(extent.x, extent.y);
        crate::number::finite_doubles_compare_as_numbers(extent.x, top);
        crate::number::finite_doubles_compare_as_numbers(base, extent.y);
    }
}

/// The results list a bench exactly where it overlaps the solid, and a flitch of a listed
/// bench exactly where the flitch does.
pub proof fn overlapping_slices_are_listed(benches: Seq<Bench>, occupied: Option<Pair64>, bench: int, flitch: int)
    requires
        0 <= bench < benches.len(),
    ensures
        holds_solid(occupied, benches[bench].base, benches[bench].top) <==> bench_rows(benches, occupied).contains(
            benches[bench].spec_row(),
        ),
        holds_solid(occupied, benches[bench].base, benches[bench].top) && 0 <= flitch < benches[bench].flitches@.len() && holds_solid(
            occupied,
            benches[bench].flitches@[flitch].base,
            benches[bench].flitches@[flitch].top,
        ) ==> bench_rows(benches, occupied).contains(benches[bench].flitches@[flitch].spec_row()),
{
    lemma_bench_listed(benches, occupied, bench, flitch);
    let rows = bench_rows(benches, occupied);
    if rows.contains(benches[bench].spec_row()) {
        let k = choose|k: int| 0 <= k < rows.len() && rows[k] == benches[bench].spec_row();
        lemma_rows_overlap(benches, occupied, k);
    }
}

/// Every row of the results overlaps the solid and is a bench of the plan or a flitch of
/// one.
pub proof fn listed_slices_overlap(benches: Seq<Bench>, occupied: Option<Pair64>, row: int)
    requires
        0 <= row < bench_rows(benches, occupied).len(),
    ensures
        ({
            let slice = bench_rows(benches, occupied)[row].slice;
            &&& holds_solid(occupied, slice.base, slice.top)
            &&& exists|bench: int|
                0 <= bench < benches.len() && {
                    ||| !slice.is_flitch && (#[trigger] benches[bench]).base == slice.base && benches[bench].top == slice.top
                    ||| slice.is_flitch && benches[bench].flitches@.contains(Flitch { base: slice.base, top: slice.top })
                }
        }),
{
    lemma_rows_overlap(benches, occupied, row);
}

proof fn lemma_bench_listed(benches: Seq<Bench>, occupied: Option<Pair64>, bench: int, flitch: int)
    requires
        0 <= bench < benches.len(),
    ensures
        holds_solid(occupied, benches[bench].base, benches[bench].top) ==> bench_rows(benches, occupied).contains(
            benches[bench].spec_row(),
        ),
        holds_solid(occupied, benches[bench].base, benches[bench].top) && 0 <= flitch < benches[bench].flitches@.len() && holds_solid(
            occupied,
            benches[bench].flitches@[flitch].base,
            benches[bench].flitches@[flitch].top,
        ) ==> bench_rows(benches, occupied).contains(benches[bench].flitches@[flitch].spec_row()),
    decreases benches.len(),
{
    let last = benches.last();
    let head = seq![last.spec_row()];
    let middle = flitch_rows(last.flitches@, occupied);
    let rest = bench_rows(benches.drop_last(), occupied);
    let all = bench_rows(benches, occupied);
    let shown = holds_solid(occupied, benches[bench].base, benches[bench].top);
    if bench == benches.len() - 1 {
        if shown {
            assert(all[0] == last.spec_row());
            if 0 <= flitch < last.flitches@.len() && holds_solid(occupied, last.flitches@[flitch].base, last.flitches@[flitch].top) {
                lemma_flitch_overlaps(last.flitches@, occupied, flitch);
                let k = choose|k: int| 0 <= k < middle.len() && middle[k] == last.flitches@[flitch].spec_row();
                assert(all[1 + k] == middle[k]);
            }
        }
    } else {
        lemma_bench_listed(benches.drop_last(), occupied, bench, flitch);
        let skipped = all.len() - rest.len();
        assert(all.skip(skipped) =~= rest);
        if shown {
            let k = choose|k: int| 0 <= k < rest.len() && rest[k] == benches[bench].spec_row();
            assert(all[skipped + k] == rest[k]);
            if 0 <= flitch < benches[bench].flitches@.len() && holds_solid(
                occupied,
                benches[bench].flitches@[flitch].base,
                benches[bench].flitches@[flitch].top,
            ) {
                let l = choose|l: int| 0 <= l < rest.len() && rest[l] == benches[bench].flitches@[flitch].spec_row();
                assert(all[skipped + l] == rest[l]);
            }
        }
    }
}

proof fn lemma_flitch_overlaps(flitches: Seq<Flitch>, occupied: Option<Pair64>, flitch: int)
    requires
        0 <= flitch < flitches.len(),
        holds_solid(occupied, flitches[flitch].base, flitches[flitch].top),
    ensures
        flitch_rows(flitches, occupied).contains(flitches[flitch].spec_row()),
    decreases flitches.len(),
{
    let rows = flitch_rows(flitches, occupied);
    let rest = flitch_rows(flitches.drop_last(), occupied);
    if flitch == flitches.len() - 1 {
        assert(rows[0] == flitches.last().spec_row());
    } else {
        lemma_flitch_overlaps(flitches.drop_last(), occupied, flitch);
        let k = choose|k: int| 0 <= k < rest.len() && rest[k] == flitches[flitch].spec_row();
        let skipped = rows.len() - rest.len();
        assert(rows.skip(skipped) =~= rest);
        assert(rows[skipped + k] == rest[k]);
    }
}

proof fn lemma_rows_overlap(benches: Seq<Bench>, occupied: Option<Pair64>, row: int)
    requires
        0 <= row < bench_rows(benches, occupied).len(),
    ensures
        ({
            let slice = bench_rows(benches, occupied)[row].slice;
            &&& holds_solid(occupied, slice.base, slice.top)
            &&& exists|bench: int|
                0 <= bench < benches.len() && {
                    ||| !slice.is_flitch && (#[trigger] benches[bench]).base == slice.base && benches[bench].top == slice.top
                    ||| slice.is_flitch && benches[bench].flitches@.contains(Flitch { base: slice.base, top: slice.top })
                }
        }),
    decreases benches.len(),
{
    let last = benches.last();
    let middle = flitch_rows(last.flitches@, occupied);
    let rest = bench_rows(benches.drop_last(), occupied);
    let all = bench_rows(benches, occupied);
    let skipped = all.len() - rest.len();
    if row >= skipped {
        assert(all.skip(skipped) =~= rest);
        assert(all[row] == rest[row - skipped]);
        lemma_rows_overlap(benches.drop_last(), occupied, row - skipped);
        let slice = all[row].slice;
        let bench = choose|bench: int|
            0 <= bench < benches.drop_last().len() && {
                ||| !slice.is_flitch && (#[trigger] benches.drop_last()[bench]).base == slice.base && benches.drop_last()[bench].top == slice.top
                ||| slice.is_flitch && benches.drop_last()[bench].flitches@.contains(Flitch { base: slice.base, top: slice.top })
            };
        assert(benches[bench] == benches.drop_last()[bench]);
    } else if row == 0 {
        assert(all[0] == last.spec_row());
        assert(benches[benches.len() - 1] == last);
    } else {
        assert(all[row] == middle[row - 1]);
        lemma_flitch_rows_overlap(last.flitches@, occupied, row - 1);
        assert(benches[benches.len() - 1] == last);
    }
}

proof fn lemma_flitch_rows_overlap(flitches: Seq<Flitch>, occupied: Option<Pair64>, row: int)
    requires
        0 <= row < flitch_rows(flitches, occupied).len(),
    ensures
        ({
            let slice = flitch_rows(flitches, occupied)[row].slice;
            &&& holds_solid(occupied, slice.base, slice.top)
            &&& slice.is_flitch
            &&& flitches.contains(Flitch { base: slice.base, top: slice.top })
        }),
    decreases flitches.len(),
{
    let rows = flitch_rows(flitches, occupied);
    let rest = flitch_rows(flitches.drop_last(), occupied);
    let skipped = rows.len() - rest.len();
    if row >= skipped {
        assert(rows.skip(skipped) =~= rest);
        assert(rows[row] == rest[row - skipped]);
        lemma_flitch_rows_overlap(flitches.drop_last(), occupied, row - skipped);
        let slice = rows[row].slice;
        let flitch = Flitch { base: slice.base, top: slice.top };
        let k = choose|k: int| 0 <= k < flitches.drop_last().len() && flitches.drop_last()[k] == flitch;
        assert(flitches[k] == flitch);
    } else {
        assert(rows[row] == flitches.last().spec_row());
        assert(flitches[flitches.len() - 1] == flitches.last());
    }
}

/// The results run bottom up: what is below in the plan is above in the list. Each bench has
/// its flitches right after it, and the slices of one bench do not mix with those of
/// another.
pub proof fn results_run_bottom_up(upper: Seq<Bench>, lower: Seq<Bench>, bench: Bench, occupied: Option<Pair64>)
    ensures
        bench_rows(upper + lower, occupied) == bench_rows(lower, occupied) + bench_rows(upper, occupied),
        holds_solid(occupied, bench.base, bench.top) ==> {
            &&& bench_rows(seq![bench], occupied).len() == 1 + flitch_rows(bench.flitches@, occupied).len()
            &&& bench_rows(seq![bench], occupied)[0] == bench.spec_row()
            &&& bench_rows(seq![bench], occupied).skip(1) == flitch_rows(bench.flitches@, occupied)
        },
        !holds_solid(occupied, bench.base, bench.top) ==> bench_rows(seq![bench], occupied).len() == 0,
    decreases lower.len(),
{
    let one = seq![bench];
    assert(one.drop_last() =~= Seq::<Bench>::empty());
    assert(bench_rows(one.drop_last(), occupied).len() == 0);
    if holds_solid(occupied, bench.base, bench.top) {
        assert(bench_rows(one, occupied).skip(1) =~= flitch_rows(bench.flitches@, occupied));
    }
    if lower.len() == 0 {
        assert(upper + lower =~= upper);
        assert(bench_rows(lower, occupied) + bench_rows(upper, occupied) =~= bench_rows(upper, occupied));
    } else {
        results_run_bottom_up(upper, lower.drop_last(), bench, occupied);
        assert((upper + lower).drop_last() =~= upper + lower.drop_last());
        assert((upper + lower).last() == lower.last());
        assert(bench_rows(upper + lower, occupied) =~= bench_rows(lower, occupied) + bench_rows(upper, occupied));
    }
}

/// So do the flitches of a bench.
pub proof fn flitches_run_bottom_up(upper: Seq<Flitch>, lower: Seq<Flitch>, flitch: Flitch, occupied: Option<Pair64>)
    ensures
        flitch_rows(upper + lower, occupied) == flitch_rows(lower, occupied) + flitch_rows(upper, occupied),
        flitch_rows(seq![flitch], occupied) == (if holds_solid(occupied, flitch.base, flitch.top) {
            seq![flitch.spec_row()]
        } else {
            Seq::empty()
        }),
    decreases lower.len(),
{
    let one = seq![flitch];
    assert(one.drop_last() =~= Seq::<Flitch>::empty());
    assert(flitch_rows(one.drop_last(), occupied).len() == 0);
    assert(flitch_rows(one, occupied) =~= (if holds_solid(occupied, flitch.base, flitch.top) {
        seq![flitch.spec_row()]
    } else {
        Seq::empty()
    }));
    if lower.len() == 0 {
        assert(upper + lower =~= upper);
        assert(flitch_rows(lower, occupied) + flitch_rows(upper, occupied) =~= flitch_rows(upper, occupied));
    } else {
        flitches_run_bottom_up(upper, lower.drop_last(), flitch, occupied);
        assert((upper + lower).drop_last() =~= upper + lower.drop_last());
        assert((upper + lower).last() == lower.last());
        assert(flitch_rows(upper + lower, occupied) =~= flitch_rows(lower, occupied) + flitch_rows(upper, occupied));
    }
}

/// A row picks the slice that it names, and tells a bench from a flitch of the same range.
pub proof fn rows_pick_their_slice(bench: Bench, flitch: Flitch)
    ensures
        bench.spec_row().slice.base == bench.base && bench.spec_row().slice.top == bench.top && !bench.spec_row().slice.is_flitch,
        flitch.spec_row().slice.base == flitch.base && flitch.spec_row().slice.top == flitch.top && flitch.spec_row().slice.is_flitch,
        bench.spec_row().label == literal3(
            "%base% → %top% (%height% m)",
            named("base", Arg::Fixed { value: bench.base, decimals: 2 }),
            named("top", Arg::Fixed { value: bench.top, decimals: 2 }),
            named("height", Arg::Fixed { value: bench.height, decimals: 2 }),
        ),
{
}

/// A picked slice is told from any other, and its own row always lights up. Two clicks on
/// the same slice let it go again.
pub proof fn picked_slices_are_told_apart(slice: BenchSelection, other: BenchSelection)
    requires
        !slice.base.nan(),
        !slice.top.nan(),
    ensures
        same_slice(Some(slice), slice),
        same_slice(Some(slice), other) == same_slice(Some(other), slice),
        same_slice(Some(slice), other) ==> slice.is_flitch == other.is_flitch && slice.base.eq_number(other.base) && slice.top.eq_number(
            other.top,
        ),
        slice.is_flitch != other.is_flitch || slice.base.lt_number(other.base) || other.base.lt_number(slice.base)
            || slice.top.lt_number(other.top) || other.top.lt_number(slice.top) ==> !same_slice(Some(slice), other),
        !same_slice(None, slice),
{
}

/// Positions that survive keep their style, those that are new take their default, and there
/// are as many as there are flitches.
pub proof fn surviving_positions_keep_their_style(styles: Seq<FlitchStyle>, defaults: Seq<FlitchStyle>, position: int)
    requires
        0 <= position < defaults.len(),
    ensures
        fitted_styles(styles, defaults).len() == defaults.len(),
        position < styles.len() ==> fitted_styles(styles, defaults)[position] == styles[position],
        position >= styles.len() ==> fitted_styles(styles, defaults)[position] == defaults[position],
{
}

/// The ranges of a plan hang together: the first begins at the top of the plan, and every
/// other one where the one above it ends.
pub proof fn ranges_hang_together(plan: BenchingPlan, index: int)
    requires
        0 <= index < plan.intervals@.len(),
    ensures
        plan.spec_above(0) == plan.top,
        plan.spec_above(index + 1) == plan.intervals@[index].base,
{
}

/// Splitting a range leaves every bench height as it was on either side of the split, and
/// only the new range ends there.
pub proof fn splits_keep_their_heights(upper: BenchInterval, interval: BenchInterval, split: Real64)
    requires
        upper.is_split_of(interval, split),
    ensures
        upper.base == split,
        upper.bench == interval.bench,
        upper.flitch == interval.flitch,
        upper.styles@ == interval.styles@,
{
}

/// The plan is written back with its ranges top down: the highest base first, and ranges of
/// the same base in the order in which they were.
pub proof fn written_ranges_run_top_down(written: Seq<BenchInterval>, given: Seq<BenchInterval>, upper: int, lower: int)
    requires
        is_sorted_form(written, given),
        0 <= upper < lower < written.len(),
    ensures
        !written[upper].base.precedes(written[lower].base),
        !written[upper].base.lt_number(written[lower].base),
        written.len() == given.len(),
{
    crate::ordering::sorted_form_has_every_entry(written, given);
    if written[upper].base.lt_number(written[lower].base) {
        crate::number::less_numbers_come_before(written[upper].base, written[lower].base);
    }
}

/// Whatever has an elevation in common with the solid is listed: a bench with an elevation
/// strictly inside both, and a flitch of it likewise.
pub proof fn shared_elevations_are_listed(benches: Seq<Bench>, extent: Pair64, bench: int, flitch: int, between: Real64)
    requires
        0 <= bench < benches.len(),
        benches[bench].base.lt_number(between),
        between.lt_number(benches[bench].top),
        extent.x.lt_number(between),
        between.lt_number(extent.y),
    ensures
        bench_rows(benches, Some(extent)).contains(benches[bench].spec_row()),
        0 <= flitch < benches[bench].flitches@.len() && benches[bench].flitches@[flitch].base.lt_number(between) && between.lt_number(
            benches[bench].flitches@[flitch].top,
        ) ==> bench_rows(benches, Some(extent)).contains(benches[bench].flitches@[flitch].spec_row()),
{
    overlapping_slices_are_listed(benches, Some(extent), bench, flitch);
}

} // verus!
