use vstd::prelude::*;
use anchor_lang::prelude::Pubkey;
use crate::errors::DexError;
use crate::pool::{MAX_TICK, MIN_TICK};
use vstd::arithmetic::div_mod::{
    lemma_fundamental_div_mod, lemma_fundamental_div_mod_converse, lemma_mod_bound,
};

verus! {

/// Number of tick slots held by one page of the tick ledger.
pub const TICKS_PER_ARRAY: usize = 88;

/// Liquidity accumulator of a single tick boundary.
#[derive(Debug, Clone, Copy, PartialEq, Eq, Structural)]
pub struct TickInfo {
    pub initialized: bool,
    pub liquidity: u128,
}

/// State `(initialized, liquidity)` of a tick after an additive update by `delta`.
pub open spec fn tick_after(initialized: bool, liquidity: int, delta: int) -> (bool, int) {
    (initialized || liquidity == 0, liquidity + delta)
}

/// State of a fresh tick after the deposits `ds`, in order.
pub open spec fn tick_after_all(ds: Seq<int>) -> (bool, int)
    decreases ds.len(),
{
    if ds.len() == 0 {
        (false, 0)
    } else {
        let prev = tick_after_all(ds.drop_last());
        tick_after(prev.0, prev.1, ds.last())
    }
}

/// Sum of a sequence of amounts.
pub open spec fn sum_of(ds: Seq<int>) -> int
    decreases ds.len(),
{
    if ds.len() == 0 {
        0
    } else {
        sum_of(ds.drop_last()) + ds.last()
    }
}

/// Every amount of `ds` is positive.
pub open spec fn all_positive(ds: Seq<int>) -> bool {
    forall|i: int| 0 <= i < ds.len() ==> ds[i] > 0
}

/// A tick that receives only positive deposits becomes initialized on the
/// first one and stays so: after any number of deposits it is initialized
/// exactly when at least one deposit was made, and its liquidity is their sum.
pub proof fn lemma_initialized_once(ds: Seq<int>)
    requires
        all_positive(ds),
    ensures
        tick_after_all(ds).0 == (ds.len() > 0),
        tick_after_all(ds).1 == sum_of(ds),
        sum_of(ds) >= ds.len(),
    decreases ds.len(),
{
    if ds.len() > 0 {
        let prefix = ds.drop_last();
        assert forall|i: int| 0 <= i < prefix.len() implies prefix[i] > 0 by {
            assert(prefix[i] == ds[i]);
        }
        lemma_initialized_once(prefix);
    }
}

/// The same law read along the sequence: before the first deposit the tick is
/// uninitialized, and after every later prefix of deposits it is initialized.
pub proof fn lemma_initialized_along(ds: Seq<int>)
    requires
        all_positive(ds),
    ensures
        forall|k: int|
            0 <= k <= ds.len() ==> #[trigger] tick_after_all(ds.take(k)).0 == (k > 0),
{
    assert forall|k: int| 0 <= k <= ds.len() implies #[trigger] tick_after_all(ds.take(k)).0 == (
    k > 0) by {
        let p = ds.take(k);
        assert forall|i: int| 0 <= i < p.len() implies p[i] > 0 by {
            assert(p[i] == ds[i]);
        }
        lemma_initialized_once(p);
    }
}

impl TickInfo {
    /// A slot that has never held liquidity.
    pub fn new() -> (r: TickInfo)
        ensures
            !r.initialized,
            r.liquidity == 0,
    {
        TickInfo { initialized: false, liquidity: 0 }
    }

    /// Adds `liquidity_delta` to the accumulator and marks the tick initialized
    /// when it held no liquidity before. On overflow nothing changes.
    pub fn update(&mut self, liquidity_delta: u128) -> (r: Result<(), DexError>)
        ensures
            old(self).liquidity + liquidity_delta > u128::MAX ==> r == Err::<(), DexError>(
                DexError::LiquidityOverflow,
            ) && *final(self) == *old(self),
            old(self).liquidity + liquidity_delta <= u128::MAX ==> r is Ok && (
            final(self).initialized,
            final(self).liquidity as int,
            ) == tick_after(
                old(self).initialized,
                old(self).liquidity as int,
                liquidity_delta as int,
            ),
    {
        let liquidity_before = self.liquidity;
        match liquidity_before.checked_add(liquidity_delta) {
            None => Err(DexError::LiquidityOverflow),
            Some(liquidity_after) => {
                if liquidity_before == 0 {
                    self.initialized = true;
                }
                self.liquidity = liquidity_after;
                Ok(())
            },
        }
    }
}

/// Quotient and remainder of a division by a positive divisor.
pub proof fn lemma_div_parts(x: int, d: int)
    requires
        d > 0,
    ensures
        x == d * (x / d) + x % d,
        0 <= x % d < d,
{
    lemma_fundamental_div_mod(x, d);
    lemma_mod_bound(x, d);
}

/// Width in ticks of one page for the given spacing.
pub open spec fn array_span(tick_spacing: int) -> int {
    tick_spacing * TICKS_PER_ARRAY as int
}

/// Starting tick of the page that holds `tick` (floor division).
pub open spec fn page_start(tick: int, tick_spacing: int) -> int {
    (tick / array_span(tick_spacing)) * array_span(tick_spacing)
}

/// Offset of `tick` inside the page that starts at `start`.
pub open spec fn page_offset(start: int, tick: int, tick_spacing: int) -> int {
    (tick - start) / tick_spacing
}

/// `tick` is a slot of the page that starts at `start`.
pub open spec fn serves(start: int, tick: int, tick_spacing: int) -> bool {
    &&& tick_spacing > 0
    &&& start <= tick
    &&& (tick - start) % tick_spacing == 0
    &&& page_offset(start, tick, tick_spacing) < TICKS_PER_ARRAY as int
}

/// The page that `page_start` picks holds `tick`: it starts at or below it and
/// ends above it, and its start is a multiple of the page width.
pub proof fn lemma_page_start_bounds(tick: int, tick_spacing: int)
    requires
        tick_spacing > 0,
    ensures
        page_start(tick, tick_spacing) <= tick < page_start(tick, tick_spacing) + array_span(
            tick_spacing,
        ),
        page_start(tick, tick_spacing) % array_span(tick_spacing) == 0,
{
    let sp = array_span(tick_spacing);
    assert(sp > 0) by (nonlinear_arith)
        requires
            sp == tick_spacing * 88,
            tick_spacing > 0,
    ;
    let q = tick / sp;
    lemma_div_parts(tick, sp);
    assert(q * sp == sp * q) by (nonlinear_arith);
    lemma_fundamental_div_mod_converse(q * sp, sp, q, 0);
}

/// Round trip of page indexing: for a tick aligned to the spacing, the page
/// that `page_start` picks holds it, and the tick sits at
/// `page_start + page_offset * tick_spacing`.
pub proof fn lemma_locate_round_trip(tick: int, tick_spacing: int)
    requires
        tick_spacing > 0,
        tick % tick_spacing == 0,
    ensures
        serves(page_start(tick, tick_spacing), tick, tick_spacing),
        page_start(tick, tick_spacing) + page_offset(page_start(tick, tick_spacing), tick, tick_spacing)
            * tick_spacing == tick,
{
    let s = tick_spacing;
    let sp = array_span(s);
    let start = page_start(tick, s);
    lemma_page_start_bounds(tick, s);
    lemma_div_parts(tick, s);
    let k = tick / s;
    let q = tick / sp;
    let m = tick - start;
    let j = k - 88 * q;
    assert(m == j * s) by (nonlinear_arith)
        requires
            tick == s * k,
            start == q * sp,
            sp == s * 88,
            m == tick - start,
            j == k - 88 * q,
    ;
    lemma_fundamental_div_mod_converse(m, s, j, 0);
    assert(j < 88) by (nonlinear_arith)
        requires
            m == j * s,
            m < sp,
            sp == s * 88,
            s > 0,
    ;
}

/// Ticks of one page share its start: any tick from a page's start up to its
/// end is placed in that same page.
pub proof fn lemma_same_page(t1: int, t2: int, tick_spacing: int)
    requires
        tick_spacing > 0,
        page_start(t1, tick_spacing) <= t2 < page_start(t1, tick_spacing) + array_span(tick_spacing),
    ensures
        page_start(t2, tick_spacing) == page_start(t1, tick_spacing),
{
    let sp = array_span(tick_spacing);
    lemma_page_start_bounds(t1, tick_spacing);
    let q = t1 / sp;
    lemma_fundamental_div_mod_converse(t2, sp, q, t2 - q * sp);
}

/// Adjacent pages: one page width further, the page start moves by exactly
/// one page width.
pub proof fn lemma_adjacent_pages(tick: int, tick_spacing: int)
    requires
        tick_spacing > 0,
    ensures
        page_start(tick + array_span(tick_spacing), tick_spacing) == page_start(tick, tick_spacing)
            + array_span(tick_spacing),
{
    let sp = array_span(tick_spacing);
    lemma_page_start_bounds(tick, tick_spacing);
    let q = tick / sp;
    let m = tick - q * sp;
    assert((q + 1) * sp == q * sp + sp) by (nonlinear_arith);
    lemma_fundamental_div_mod_converse(tick + sp, sp, q + 1, m);
}

/// A page of the tick ledger.
pub struct TickArray {
    pub starting_tick_index: i32,
    pub pool: Pubkey,
    pub ticks: Vec<TickInfo>,
}

impl TickArray {
    /// The page holds exactly one slot per tick of its span.
    pub open spec fn wf(&self) -> bool {
        self.ticks@.len() == TICKS_PER_ARRAY
    }

    /// A new page for `pool` starting at `starting_tick_index`, every slot empty.
    pub fn new(pool: Pubkey, starting_tick_index: i32) -> (r: TickArray)
        ensures
            r.wf(),
            r.pool == pool,
            r.starting_tick_index == starting_tick_index,
            forall|i: int| 0 <= i < TICKS_PER_ARRAY ==> r.ticks@[i] == (TickInfo { initialized: false, liquidity: 0 }),
    {
        let mut ticks: Vec<TickInfo> = Vec::new();
        let mut i: usize = 0;
        while i < TICKS_PER_ARRAY
            invariant
                i <= TICKS_PER_ARRAY,
                ticks@.len() == i,
                forall|j: int| 0 <= j < i ==> ticks@[j] == (TickInfo { initialized: false, liquidity: 0 }),
            decreases TICKS_PER_ARRAY - i,
        {
            ticks.push(TickInfo::new());
            i = i + 1;
        }
        TickArray { starting_tick_index, pool, ticks }
    }

    /// Starting tick of the page that holds `tick_index`.
    pub fn get_starting_index(tick_index: i32, tick_spacing: u16) -> (r: i32)
        requires
            tick_spacing > 0,
            MIN_TICK <= tick_index <= MAX_TICK,
        ensures
            r == page_start(tick_index as int, tick_spacing as int),
    {
        let span: i32 = tick_spacing as i32 * TICKS_PER_ARRAY as i32;
        proof {
            let t = tick_index as int;
            let sp = span as int;
            let q = t / sp;
            assert(TICKS_PER_ARRAY as i32 == 88);
            assert(sp == tick_spacing as int * 88);
            assert(sp == array_span(tick_spacing as int));
            assert(1 <= sp <= 65535 * 88);
            lemma_page_start_bounds(t, tick_spacing as int);
            assert(q * sp == page_start(t, tick_spacing as int));
            assert(i32::MIN <= q <= i32::MAX) by (nonlinear_arith)
                requires
                    sp >= 1,
                    i32::MIN <= q * sp <= i32::MAX,
            ;
        }
        let q = tick_index.checked_div_euclid(span).unwrap();
        q * span
    }

    /// Page start and in-page offset of a tick aligned to the spacing.
    pub fn locate(tick_index: i32, tick_spacing: u16) -> (r: (i32, usize))
        requires
            tick_spacing > 0,
            tick_index as int % tick_spacing as int == 0,
            MIN_TICK <= tick_index <= MAX_TICK,
        ensures
            r.0 == page_start(tick_index as int, tick_spacing as int),
            r.1 as int == page_offset(r.0 as int, tick_index as int, tick_spacing as int),
            r.1 < TICKS_PER_ARRAY,
            r.0 + r.1 * tick_spacing == tick_index,
    {
        let start = Self::get_starting_index(tick_index, tick_spacing);
        proof {
            lemma_locate_round_trip(tick_index as int, tick_spacing as int);
        }
        let diff: i32 = tick_index - start;
        (start, (diff / tick_spacing as i32) as usize)
    }

    /// Offset of `tick_index` inside this page.
    pub fn offset_for_tick(&self, tick_index: i32, tick_spacing: u16) -> (r: usize)
        requires
            serves(self.starting_tick_index as int, tick_index as int, tick_spacing as int),
        ensures
            r as int == page_offset(self.starting_tick_index as int, tick_index as int, tick_spacing as int),
            r < TICKS_PER_ARRAY,
    {
        proof {
            let x = tick_index as int - self.starting_tick_index as int;
            let s = tick_spacing as int;
            lemma_div_parts(x, s);
            assert(x < TICKS_PER_ARRAY as int * s) by (nonlinear_arith)
                requires
                    x == s * (x / s) + x % s,
                    0 <= x % s < s,
                    x / s < TICKS_PER_ARRAY as int,
            ;
        }
        let diff: i32 = tick_index - self.starting_tick_index;
        (diff / tick_spacing as i32) as usize
    }

    /// The slot of `tick_index`.
    pub fn info_for_tick(&self, tick_index: i32, tick_spacing: u16) -> (r: &TickInfo)
        requires
            self.wf(),
            serves(self.starting_tick_index as int, tick_index as int, tick_spacing as int),
        ensures
            *r == self.ticks@[page_offset(self.starting_tick_index as int, tick_index as int, tick_spacing as int)],
    {
        let offset = self.offset_for_tick(tick_index, tick_spacing);
        &self.ticks[offset]
    }

    /// The slot of `tick_index`, for update in place.
    pub fn info_for_tick_mutable(&mut self, tick_index: i32, tick_spacing: u16) -> (r: &mut TickInfo)
        requires
            old(self).wf(),
            serves(old(self).starting_tick_index as int, tick_index as int, tick_spacing as int),
        ensures
            *r == old(self).ticks@[page_offset(old(self).starting_tick_index as int, tick_index as int, tick_spacing as int)],
            final(self).wf(),
            final(self).starting_tick_index == old(self).starting_tick_index,
            final(self).pool == old(self).pool,
            final(self).ticks@ == old(self).ticks@.update(
                page_offset(old(self).starting_tick_index as int, tick_index as int, tick_spacing as int),
                *final(r),
            ),
    {
        let offset = self.offset_for_tick(tick_index, tick_spacing);
        &mut self.ticks[offset]
    }
}

} // verus!
