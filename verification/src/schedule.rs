//! The harmonic schedule: how many terms each animation loop draws, and how
//! fast it runs.
//!
//! A schedule is described by ranges. While the count of terms lies in
//! `[from, to)` of a range, the loop runs at that range's speed and the next
//! loop draws `step` terms more. Between two ranges the count jumps to the
//! start of the next one. The last loop draws no more terms than there are.

use vstd::prelude::*;

verus! {

/// No schedule has more loops than this.
pub const LOOP_LIMIT: usize = 10000;

/// One range of a schedule. The speed is a decimal number, kept as written.
#[derive(Clone, Debug)]
pub struct HarmonicRange {
    pub from: usize,
    pub step: usize,
    pub to: usize,
    pub speed: String,
}

/// The ranges of a schedule, in the order in which they apply.
#[derive(Clone, Debug)]
pub struct HarmonicSteps {
    pub ranges: Vec<HarmonicRange>,
}

/// One loop of the animation: how many terms it draws and how fast it runs.
#[derive(Clone, Debug)]
pub struct ScheduleEntry {
    pub harmonics: usize,
    pub speed: String,
}

/// What a `ScheduleEntry` stands for.
pub ghost struct ScheduleEntryText {
    pub harmonics: int,
    pub speed: Seq<char>,
}

impl View for ScheduleEntry {
    type V = ScheduleEntryText;

    open spec fn view(&self) -> ScheduleEntryText {
        ScheduleEntryText { harmonics: self.harmonics as int, speed: self.speed@ }
    }
}

/// What each entry of `entries` stands for.
pub open spec fn entry_texts(entries: Seq<ScheduleEntry>) -> Seq<ScheduleEntryText> {
    Seq::new(entries.len(), |i: int| entries[i]@)
}

/// Whether the count `i` lies in the range `r`.
pub open spec fn covers(r: HarmonicRange, i: int) -> bool {
    r.from <= i < r.to
}

/// The first range at or after index `k` that covers the count `i`.
pub open spec fn active_from(ranges: Seq<HarmonicRange>, i: int, k: int) -> Option<int>
    decreases ranges.len() - k,
{
    if k < 0 || k >= ranges.len() {
        None
    } else if covers(ranges[k], i) {
        Some(k)
    } else {
        active_from(ranges, i, k + 1)
    }
}

/// The first range that covers the count `i`.
pub open spec fn active_range(ranges: Seq<HarmonicRange>, i: int) -> Option<int> {
    active_from(ranges, i, 0)
}

/// Whether the count `i` lies between range `k` and the range after it.
pub open spec fn in_gap(ranges: Seq<HarmonicRange>, i: int, k: int) -> bool {
    0 <= k && k + 1 < ranges.len() && ranges[k].to <= i < ranges[k + 1].from
}

/// The first index at or after `k` of a range such that the count `i` lies
/// between that range and the next.
pub open spec fn gap_from(ranges: Seq<HarmonicRange>, i: int, k: int) -> Option<int>
    decreases ranges.len() - k,
{
    if k < 0 || k + 1 >= ranges.len() {
        None
    } else if in_gap(ranges, i, k) {
        Some(k)
    } else {
        gap_from(ranges, i, k + 1)
    }
}

/// The speed of a loop that draws `i` terms: that of the range that covers
/// `i`, and 1 where none does.
pub open spec fn speed_at(ranges: Seq<HarmonicRange>, i: int) -> Seq<char> {
    match active_range(ranges, i) {
        Some(k) => ranges[k].speed@,
        None => seq!['1'],
    }
}

/// The count that follows `i`: one step further inside a range, the start
/// of the next range from a gap, and nothing beyond the ranges.
pub open spec fn next_count(ranges: Seq<HarmonicRange>, i: int) -> Option<int> {
    match active_range(ranges, i) {
        Some(k) => Some(i + ranges[k].step),
        None => match gap_from(ranges, i, 0) {
            Some(k) => Some(ranges[k + 1].from as int),
            None => None,
        },
    }
}

/// The smaller of two numbers.
pub open spec fn smaller(a: int, b: int) -> int {
    if a <= b {
        a
    } else {
        b
    }
}

/// The loop that the count `i` gives under the cap `cap`.
pub open spec fn entry_at(ranges: Seq<HarmonicRange>, cap: int, i: int) -> ScheduleEntryText {
    ScheduleEntryText { harmonics: smaller(i, cap), speed: speed_at(ranges, i) }
}

/// The loops from the count `i` on, at most `fuel` of them. The walk ends
/// with the first count that reaches `cap`, or where no count follows.
pub open spec fn walk(ranges: Seq<HarmonicRange>, cap: int, i: int, fuel: nat) -> Seq<
    ScheduleEntryText,
>
    decreases fuel,
{
    if fuel == 0 {
        Seq::empty()
    } else if i >= cap {
        seq![entry_at(ranges, cap, i)]
    } else {
        match next_count(ranges, i) {
            Some(j) => seq![entry_at(ranges, cap, i)] + walk(ranges, cap, j, (fuel - 1) as nat),
            None => seq![entry_at(ranges, cap, i)],
        }
    }
}

/// The count of the first loop: where the first range starts, and 1 without
/// ranges.
pub open spec fn first_count(ranges: Seq<HarmonicRange>) -> int {
    if ranges.len() == 0 {
        1
    } else {
        ranges[0].from as int
    }
}

/// The schedule that `ranges` describe when `cap` terms are available.
pub open spec fn schedule_of(ranges: Seq<HarmonicRange>, cap: int) -> Seq<ScheduleEntryText> {
    walk(ranges, cap, first_count(ranges), LOOP_LIMIT as nat)
}

fn find_active(ranges: &Vec<HarmonicRange>, i: usize) -> (r: Option<usize>)
    ensures
        match r {
            Some(k) => active_range(ranges@, i as int) == Some(k as int) && k < ranges.len(),
            None => active_range(ranges@, i as int) is None,
        },
{
    let mut k: usize = 0;
    while k < ranges.len()
        invariant
            k <= ranges.len(),
            active_range(ranges@, i as int) == active_from(ranges@, i as int, k as int),
        decreases ranges.len() - k,
    {
        if ranges[k].from <= i && i < ranges[k].to {
            return Some(k);
        }
        k += 1;
    }
    None
}

fn find_gap(ranges: &Vec<HarmonicRange>, i: usize) -> (r: Option<usize>)
    ensures
        match r {
            Some(k) => gap_from(ranges@, i as int, 0) == Some(k as int) && k + 1 < ranges.len(),
            None => gap_from(ranges@, i as int, 0) is None,
        },
{
    let mut k: usize = 0;
    while k < ranges.len() && k + 1 < ranges.len()
        invariant
            k <= ranges.len(),
            gap_from(ranges@, i as int, 0) == gap_from(ranges@, i as int, k as int),
        decreases ranges.len() - k,
    {
        if ranges[k].to <= i && i < ranges[k + 1].from {
            return Some(k);
        }
        k += 1;
    }
    None
}

/// No range covers a count that no machine number can hold.
pub proof fn lemma_no_range_beyond(ranges: Seq<HarmonicRange>, i: int, k: int)
    requires
        i > usize::MAX,
    ensures
        active_from(ranges, i, k) is None,
    decreases ranges.len() - k,
{
    if 0 <= k < ranges.len() {
        lemma_no_range_beyond(ranges, i, k + 1);
    }
}

fn default_speed() -> (s: String)
    ensures
        s@ == seq!['1'],
{
    let mut s = String::new();
    s.push('1');
    assert(s@ =~= seq!['1']);
    s
}

/// The number of terms that a loop can draw at most: no more than the
/// settings allow, and no more than there are.
pub fn harmonics_cap(max_harmonics: usize, coefficients: usize) -> (cap: usize)
    ensures
        cap == smaller(max_harmonics as int, coefficients as int),
{
    if max_harmonics <= coefficients {
        max_harmonics
    } else {
        coefficients
    }
}

/// Builds the schedule that `steps` describe when `cap` terms are available.
pub fn build_schedule(steps: &HarmonicSteps, cap: usize) -> (out: Vec<ScheduleEntry>)
    ensures
        entry_texts(out@) == schedule_of(steps.ranges@, cap as int),
        1 <= out.len() <= LOOP_LIMIT,
{
    proof {
        lemma_schedule_final_count(steps.ranges@, cap as int);
    }
    let ranges = &steps.ranges;
    let mut out: Vec<ScheduleEntry> = Vec::new();
    let mut i: usize = if ranges.len() == 0 {
        1
    } else {
        ranges[0].from
    };
    assert(entry_texts(out@) + walk(ranges@, cap as int, i as int, LOOP_LIMIT as nat)
        =~= schedule_of(ranges@, cap as int));
    while out.len() < LOOP_LIMIT
        invariant
            out.len() <= LOOP_LIMIT,
            ranges@ == steps.ranges@,
            schedule_of(ranges@, cap as int) == entry_texts(out@) + walk(
                ranges@,
                cap as int,
                i as int,
                (LOOP_LIMIT - out.len()) as nat,
            ),
        decreases LOOP_LIMIT - out.len(),
    {
        let ghost before = out@;
        let ghost fuel = (LOOP_LIMIT - out.len()) as nat;
        let active = find_active(ranges, i);
        let speed = match active {
            Some(k) => ranges[k].speed.clone(),
            None => default_speed(),
        };
        let harmonics = if i <= cap {
            i
        } else {
            cap
        };
        let entry = ScheduleEntry { harmonics, speed };
        out.push(entry);
        assert(entry@ == entry_at(ranges@, cap as int, i as int));
        assert(entry_texts(out@) =~= entry_texts(before) + seq![entry@]);
        if i >= cap {
            return out;
        }
        let next: Option<usize> = match active {
            Some(k) => i.checked_add(ranges[k].step),
            None => match find_gap(ranges, i) {
                Some(k) => Some(ranges[k + 1].from),
                None => {
                    return out;
                },
            },
        };
        match next {
            Some(j) => {
                assert(next_count(ranges@, i as int) == Some(j as int));
                assert(entry_texts(before) + (seq![entry@] + walk(
                    ranges@,
                    cap as int,
                    j as int,
                    (fuel - 1) as nat,
                )) =~= entry_texts(out@) + walk(ranges@, cap as int, j as int, (fuel - 1) as nat));
                i = j;
            },
            None => {
                // The next count is beyond every machine number, and so beyond the cap.
                let ghost j = i + ranges@[active->Some_0 as int].step;
                proof {
                    assert(next_count(ranges@, i as int) == Some(j));
                    lemma_no_range_beyond(ranges@, j, 0);
                }
                if out.len() < LOOP_LIMIT {
                    let ghost mid = out@;
                    let last = ScheduleEntry { harmonics: cap, speed: default_speed() };
                    out.push(last);
                    proof {
                        assert(last@ == entry_at(ranges@, cap as int, j));
                        assert(walk(ranges@, cap as int, j, (fuel - 1) as nat) =~= seq![last@]);
                        assert(entry_texts(out@) =~= entry_texts(mid) + seq![last@]);
                        assert(entry_texts(before) + (seq![entry@] + seq![last@]) =~= entry_texts(
                            out@,
                        ));
                    }
                } else {
                    proof {
                        assert(walk(ranges@, cap as int, j, (fuel - 1) as nat) =~= Seq::<
                            ScheduleEntryText,
                        >::empty());
                        assert(entry_texts(before) + (seq![entry@] + Seq::<
                            ScheduleEntryText,
                        >::empty()) =~= entry_texts(out@));
                    }
                }
                return out;
            },
        }
    }
    proof {
        assert(entry_texts(out@) + Seq::<ScheduleEntryText>::empty() =~= entry_texts(out@));
    }
    out
}

/// Whether the walk from the count `i` comes to a count of at least `cap`
/// within `fuel` loops.
pub open spec fn reaches_cap(ranges: Seq<HarmonicRange>, cap: int, i: int, fuel: nat) -> bool
    decreases fuel,
{
    fuel > 0 && (i >= cap || match next_count(ranges, i) {
        Some(j) => reaches_cap(ranges, cap, j, (fuel - 1) as nat),
        None => false,
    })
}

/// Whether the schedule of `ranges` comes to `cap` terms before it ends.
pub open spec fn schedule_reaches_cap(ranges: Seq<HarmonicRange>, cap: int) -> bool {
    reaches_cap(ranges, cap, first_count(ranges), LOOP_LIMIT as nat)
}

/// Whether every range is non-empty and ends before the next one starts.
pub open spec fn ranges_ordered(ranges: Seq<HarmonicRange>) -> bool {
    &&& forall|k: int| 0 <= k < ranges.len() ==> (#[trigger] ranges[k]).from < ranges[k].to
    &&& forall|k: int|
        0 <= k && k + 1 < ranges.len() ==> (#[trigger] ranges[k]).to <= ranges[k + 1].from
}

/// Whether every range moves on by at least one term per loop.
pub open spec fn steps_positive(ranges: Seq<HarmonicRange>) -> bool {
    forall|k: int| 0 <= k < ranges.len() ==> (#[trigger] ranges[k]).step >= 1
}

/// A walk has at most `fuel` loops, and at least one if it may have any.
pub proof fn lemma_walk_len(ranges: Seq<HarmonicRange>, cap: int, i: int, fuel: nat)
    ensures
        walk(ranges, cap, i, fuel).len() <= fuel,
        fuel > 0 ==> walk(ranges, cap, i, fuel).len() >= 1,
    decreases fuel,
{
    if fuel > 0 && i < cap {
        match next_count(ranges, i) {
            Some(j) => {
                lemma_walk_len(ranges, cap, j, (fuel - 1) as nat);
            },
            None => {},
        }
    }
}

/// The last loop of a walk draws `cap` terms exactly when the walk reaches
/// the cap.
pub proof fn lemma_walk_last(ranges: Seq<HarmonicRange>, cap: int, i: int, fuel: nat)
    requires
        fuel > 0,
    ensures
        walk(ranges, cap, i, fuel).len() >= 1,
        walk(ranges, cap, i, fuel).last().harmonics == cap <==> reaches_cap(
            ranges,
            cap,
            i,
            fuel,
        ),
    decreases fuel,
{
    lemma_walk_len(ranges, cap, i, fuel);
    if i < cap {
        match next_count(ranges, i) {
            Some(j) => {
                let rest = walk(ranges, cap, j, (fuel - 1) as nat);
                lemma_walk_len(ranges, cap, j, (fuel - 1) as nat);
                if fuel - 1 > 0 {
                    lemma_walk_last(ranges, cap, j, (fuel - 1) as nat);
                    assert((seq![entry_at(ranges, cap, i)] + rest).last() == rest.last());
                } else {
                    assert(seq![entry_at(ranges, cap, i)] + rest =~= seq![
                        entry_at(ranges, cap, i),
                    ]);
                }
            },
            None => {},
        }
    }
}

/// Every schedule has at least one loop and at most `LOOP_LIMIT`, and its
/// last loop draws `cap` terms exactly when the walk over the ranges comes
/// to the cap before it ends.
pub proof fn lemma_schedule_final_count(ranges: Seq<HarmonicRange>, cap: int)
    ensures
        1 <= schedule_of(ranges, cap).len() <= LOOP_LIMIT,
        schedule_of(ranges, cap).last().harmonics == cap <==> schedule_reaches_cap(ranges, cap),
{
    lemma_walk_len(ranges, cap, first_count(ranges), LOOP_LIMIT as nat);
    lemma_walk_last(ranges, cap, first_count(ranges), LOOP_LIMIT as nat);
}

proof fn lemma_uncovered(ranges: Seq<HarmonicRange>, i: int, k: int)
    requires
        0 <= k,
        active_from(ranges, i, k) is None,
    ensures
        forall|m: int| k <= m < ranges.len() ==> !covers(#[trigger] ranges[m], i),
    decreases ranges.len() - k,
{
    if k < ranges.len() {
        lemma_uncovered(ranges, i, k + 1);
    }
}

proof fn lemma_gap_found(ranges: Seq<HarmonicRange>, i: int, k: int)
    requires
        ranges_ordered(ranges),
        0 <= k < ranges.len(),
        ranges[k].from <= i < ranges.last().to,
        active_range(ranges, i) is None,
        gap_from(ranges, i, 0) == gap_from(ranges, i, k),
    ensures
        gap_from(ranges, i, 0) is Some,
        in_gap(ranges, i, gap_from(ranges, i, 0)->Some_0),
    decreases ranges.len() - k,
{
    lemma_uncovered(ranges, i, 0);
    assert(!covers(ranges[k], i));
    if k + 1 < ranges.len() {
        if !in_gap(ranges, i, k) {
            lemma_gap_found(ranges, i, k + 1);
        }
    }
}

proof fn lemma_walk_reaches(ranges: Seq<HarmonicRange>, cap: int, i: int, fuel: nat)
    requires
        ranges_ordered(ranges),
        steps_positive(ranges),
        ranges.len() == 0 ==> i >= cap,
        ranges.len() > 0 ==> ranges[0].from <= i && cap <= ranges.last().to,
        fuel >= 1,
        fuel > cap - i,
    ensures
        reaches_cap(ranges, cap, i, fuel),
    decreases fuel,
{
    if i < cap {
        match active_range(ranges, i) {
            Some(k) => {
                lemma_active_in_bounds(ranges, i, 0);
                lemma_walk_reaches(ranges, cap, i + ranges[k].step, (fuel - 1) as nat);
            },
            None => {
                lemma_gap_found(ranges, i, 0);
                let g = gap_from(ranges, i, 0)->Some_0;
                lemma_walk_reaches(ranges, cap, ranges[g + 1].from as int, (fuel - 1) as nat);
            },
        }
    }
}

proof fn lemma_active_in_bounds(ranges: Seq<HarmonicRange>, i: int, k: int)
    requires
        0 <= k,
        active_from(ranges, i, k) is Some,
    ensures
        k <= active_from(ranges, i, k)->Some_0 < ranges.len(),
        covers(ranges[active_from(ranges, i, k)->Some_0], i),
    decreases ranges.len() - k,
{
    if k < ranges.len() && !covers(ranges[k], i) {
        lemma_active_in_bounds(ranges, i, k + 1);
    }
}

/// Where the ranges are in order, every range moves on, the cap is not
/// beyond the last range (not beyond the single loop of an empty
/// description), and the cap is fewer than `LOOP_LIMIT` terms away from the
/// first count, the schedule comes to the cap: its last loop draws `cap`
/// terms.
pub proof fn lemma_ordered_schedule_reaches_cap(ranges: Seq<HarmonicRange>, cap: int)
    requires
        ranges_ordered(ranges),
        steps_positive(ranges),
        ranges.len() == 0 ==> cap <= 1,
        ranges.len() > 0 ==> cap <= ranges.last().to,
        cap - first_count(ranges) < LOOP_LIMIT,
    ensures
        schedule_reaches_cap(ranges, cap),
        schedule_of(ranges, cap).last().harmonics == cap,
{
    lemma_walk_reaches(ranges, cap, first_count(ranges), LOOP_LIMIT as nat);
    lemma_schedule_final_count(ranges, cap);
}

} // verus!
