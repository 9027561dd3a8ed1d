//! The rectangular region layout solver.
use vstd::arithmetic::div_mod::lemma_fundamental_div_mod;
use vstd::prelude::*;

verus! {

/// A region of terminal cells: origin `(x, y)`, size `width × height`.
#[derive(Clone, Copy, Debug, PartialEq, Eq, Structural)]
pub struct Rect {
    pub x: u16,
    pub y: u16,
    pub width: u16,
    pub height: u16,
}

/// The axis along which a region is divided.
#[derive(Clone, Copy, Debug, PartialEq, Eq, Structural)]
pub enum Direction {
    /// Children are laid out left to right; each constraint consumes width.
    Horizontal,
    /// Children are laid out top to bottom; each constraint consumes height.
    Vertical,
}

/// A sizing rule for one child along the split axis.
#[derive(Clone, Copy, Debug, PartialEq, Eq, Structural)]
pub enum Constraint {
    /// A share of the usable length, in percent (values above 100 count as 100).
    Percentage(u16),
    /// An exact length; it never grows.
    Fixed(u16),
    /// At least this length, plus a share of any leftover space.
    Min(u16),
    /// At most this length.
    Max(u16),
}

/// `min(a, b)` over integers.
pub open spec fn min_int(a: int, b: int) -> int {
    if a <= b {
        a
    } else {
        b
    }
}

/// The length left of `len` after taking `margin` off both ends, floored at 0.
pub open spec fn shrunk(len: int, margin: int) -> int {
    if len >= 2 * margin {
        len - 2 * margin
    } else {
        0
    }
}

/// The region left inside `r` once a margin of `margin` cells is taken off
/// every side. The origin moves by the margin, but never past the far edge.
pub open spec fn inset(r: Rect, margin: u16) -> Rect {
    Rect {
        x: (r.x + min_int(margin as int, r.width as int)) as u16,
        y: (r.y + min_int(margin as int, r.height as int)) as u16,
        width: shrunk(r.width as int, margin as int) as u16,
        height: shrunk(r.height as int, margin as int) as u16,
    }
}

/// Where `r` starts along `d`.
pub open spec fn main_start(r: Rect, d: Direction) -> int {
    match d {
        Direction::Horizontal => r.x as int,
        Direction::Vertical => r.y as int,
    }
}

/// How long `r` is along `d`.
pub open spec fn main_len(r: Rect, d: Direction) -> int {
    match d {
        Direction::Horizontal => r.width as int,
        Direction::Vertical => r.height as int,
    }
}

/// Where `r` starts across `d`.
pub open spec fn cross_start(r: Rect, d: Direction) -> int {
    match d {
        Direction::Horizontal => r.y as int,
        Direction::Vertical => r.x as int,
    }
}

/// How long `r` is across `d`.
pub open spec fn cross_len(r: Rect, d: Direction) -> int {
    match d {
        Direction::Horizontal => r.height as int,
        Direction::Vertical => r.width as int,
    }
}

impl Rect {
    /// The right and bottom edges are themselves cell coordinates.
    pub open spec fn wf(self) -> bool {
        &&& self.x + self.width <= u16::MAX
        &&& self.y + self.height <= u16::MAX
    }

    /// The region left once `margin` cells are taken off every side.
    pub fn inner(&self, margin: u16) -> (r: Rect)
        requires
            self.wf(),
        ensures
            r == inset(*self, margin),
            r.wf(),
    {
        let dx = if margin <= self.width {
            margin
        } else {
            self.width
        };
        let dy = if margin <= self.height {
            margin
        } else {
            self.height
        };
        let width = if self.width / 2 >= margin {
            self.width - 2 * margin
        } else {
            0
        };
        let height = if self.height / 2 >= margin {
            self.height - 2 * margin
        } else {
            0
        };
        Rect { x: self.x + dx, y: self.y + dy, width, height }
    }
}

/// The percentage a `Percentage(p)` constraint stands for, capped at 100.
pub open spec fn capped_percent(p: u16) -> int {
    if p <= 100 {
        p as int
    } else {
        100
    }
}

/// The length `c` asks for, against a usable length `l`, before the
/// constraints are fitted together.
pub open spec fn base_len(c: Constraint, l: int) -> int {
    match c {
        Constraint::Percentage(p) => l * capped_percent(p) / 100,
        Constraint::Fixed(n) => min_int(n as int, l),
        Constraint::Min(n) => min_int(n as int, l),
        Constraint::Max(n) => min_int(n as int, l),
    }
}

/// Whether `c` takes a share of leftover space. `Fixed` never grows, and a
/// `Max` already stands at its cap whenever space is left over.
pub open spec fn grows(c: Constraint) -> bool {
    c is Percentage || c is Min
}

/// The sum of the base lengths of the first `n` constraints.
pub open spec fn base_sum(cs: Seq<Constraint>, l: int, n: int) -> int
    decreases n,
{
    if n <= 0 {
        0
    } else {
        base_sum(cs, l, n - 1) + base_len(cs[n - 1], l)
    }
}

/// The length of constraint `i` once the base lengths are fitted into `l`:
/// where they over-subscribe it, the last constraints lose space first.
pub open spec fn fitted_len(cs: Seq<Constraint>, l: int, i: int) -> int {
    min_int(base_len(cs[i], l), l - min_int(l, base_sum(cs, l, i)))
}

/// The space that the base lengths leave unused.
pub open spec fn leftover(cs: Seq<Constraint>, l: int) -> int {
    l - min_int(l, base_sum(cs, l, cs.len() as int))
}

/// How many of the first `n` constraints take a share of leftover space.
pub open spec fn growers(cs: Seq<Constraint>, n: int) -> int
    decreases n,
{
    if n <= 0 {
        0
    } else {
        growers(cs, n - 1) + if grows(cs[n - 1]) {
            1int
        } else {
            0int
        }
    }
}

/// The share of leftover space that goes to constraint `i`: the leftover is
/// handed out one cell at a time to the growing constraints in order, so each
/// gets the same amount and the first ones one cell more where it does not
/// divide evenly.
pub open spec fn bonus(cs: Seq<Constraint>, l: int, i: int) -> int {
    let k = growers(cs, cs.len() as int);
    let r = leftover(cs, l);
    if grows(cs[i]) && k > 0 {
        r / k + if growers(cs, i) < r % k {
            1int
        } else {
            0int
        }
    } else {
        0
    }
}

/// The final length of constraint `i` along the split axis.
pub open spec fn resolved_len(cs: Seq<Constraint>, l: int, i: int) -> int {
    fitted_len(cs, l, i) + bonus(cs, l, i)
}

/// Where child `i` starts, relative to the start of the usable area.
pub open spec fn offset(cs: Seq<Constraint>, l: int, i: int) -> int
    decreases i,
{
    if i <= 0 {
        0
    } else {
        offset(cs, l, i - 1) + resolved_len(cs, l, i - 1)
    }
}

/// Child `i` of `parent` split along `d` with margin `m`: it starts where the
/// previous one ends, has its resolved length along the axis, and spans the
/// whole usable area across it.
pub open spec fn child(parent: Rect, d: Direction, m: u16, cs: Seq<Constraint>, i: int) -> Rect {
    let a = inset(parent, m);
    let l = main_len(a, d);
    let start = main_start(a, d) + offset(cs, l, i);
    let len = resolved_len(cs, l, i);
    match d {
        Direction::Horizontal => Rect { x: start as u16, y: a.y, width: len as u16, height: a.height },
        Direction::Vertical => Rect { x: a.x, y: start as u16, width: a.width, height: len as u16 },
    }
}

/// The children of `parent` split along `d` with margin `m` by `cs`, one per
/// constraint, in order.
pub open spec fn layout(parent: Rect, d: Direction, m: u16, cs: Seq<Constraint>) -> Seq<Rect> {
    Seq::new(cs.len(), |i: int| child(parent, d, m, cs, i))
}

/// What the base lengths and shares add up to over the first `n` children.
spec fn offset_closed_form(cs: Seq<Constraint>, l: int, n: int) -> int {
    let k = growers(cs, cs.len() as int);
    let r = leftover(cs, l);
    let g = growers(cs, n);
    min_int(l, base_sum(cs, l, n)) + if k > 0 {
        g * (r / k) + min_int(g, r % k)
    } else {
        0
    }
}

proof fn lemma_base_len_bounds(c: Constraint, l: int)
    requires
        l >= 0,
    ensures
        0 <= base_len(c, l) <= l,
{
    if let Constraint::Percentage(p) = c {
        let q = capped_percent(p);
        assert(0 <= l * q / 100 <= l) by (nonlinear_arith)
            requires
                0 <= q <= 100,
                l >= 0,
        ;
    }
}

proof fn lemma_base_sum_mono(cs: Seq<Constraint>, l: int, i: int, j: int)
    requires
        l >= 0,
        0 <= i <= j <= cs.len(),
    ensures
        0 <= base_sum(cs, l, i) <= base_sum(cs, l, j),
    decreases j, i,
{
    if j > i {
        lemma_base_sum_mono(cs, l, i, j - 1);
        lemma_base_len_bounds(cs[j - 1], l);
    } else if i > 0 {
        lemma_base_sum_mono(cs, l, 0, i);
    }
}

proof fn lemma_growers_bounds(cs: Seq<Constraint>, i: int, j: int)
    requires
        0 <= i <= j <= cs.len(),
    ensures
        0 <= growers(cs, i) <= growers(cs, j),
        growers(cs, j) - growers(cs, i) <= j - i,
    decreases j, i,
{
    if j > i {
        lemma_growers_bounds(cs, i, j - 1);
    } else if i > 0 {
        lemma_growers_bounds(cs, 0, i);
    }
}

proof fn lemma_leftover_bounds(cs: Seq<Constraint>, l: int)
    requires
        l >= 0,
    ensures
        0 <= leftover(cs, l) <= l,
        leftover(cs, l) > 0 ==> base_sum(cs, l, cs.len() as int) < l,
{
    lemma_base_sum_mono(cs, l, 0, cs.len() as int);
}

proof fn lemma_resolved_bounds(cs: Seq<Constraint>, l: int, i: int)
    requires
        l >= 0,
        0 <= i < cs.len(),
    ensures
        0 <= fitted_len(cs, l, i),
        0 <= bonus(cs, l, i),
        0 <= resolved_len(cs, l, i),
{
    lemma_base_len_bounds(cs[i], l);
    lemma_leftover_bounds(cs, l);
    let k = growers(cs, cs.len() as int);
    let r = leftover(cs, l);
    if k > 0 {
        assert(r / k >= 0) by (nonlinear_arith)
            requires
                r >= 0,
                k > 0,
        ;
    }
}

proof fn lemma_offset_closed_form(cs: Seq<Constraint>, l: int, n: int)
    requires
        l >= 0,
        0 <= n <= cs.len(),
    ensures
        offset(cs, l, n) == offset_closed_form(cs, l, n),
    decreases n,
{
    if n > 0 {
        lemma_offset_closed_form(cs, l, n - 1);
        lemma_base_len_bounds(cs[n - 1], l);
        lemma_base_sum_mono(cs, l, 0, n - 1);
        let k = growers(cs, cs.len() as int);
        let r = leftover(cs, l);
        let g = growers(cs, n - 1);
        let q = r / k;
        if k > 0 && grows(cs[n - 1]) {
            assert((g + 1) * q == g * q + q) by (nonlinear_arith);
        }
    }
}

/// Over all children, the base lengths and shares add up to the usable
/// length when some constraint grows, and to no more than it otherwise.
proof fn lemma_offset_total(cs: Seq<Constraint>, l: int)
    requires
        l >= 0,
    ensures
        offset(cs, l, cs.len() as int) <= l,
        growers(cs, cs.len() as int) > 0 ==> offset(cs, l, cs.len() as int) == l,
        growers(cs, cs.len() as int) == 0 ==> offset(cs, l, cs.len() as int) == min_int(
            l,
            base_sum(cs, l, cs.len() as int),
        ),
{
    let n = cs.len() as int;
    lemma_offset_closed_form(cs, l, n);
    lemma_leftover_bounds(cs, l);
    let k = growers(cs, n);
    let r = leftover(cs, l);
    if k > 0 {
        lemma_fundamental_div_mod(r, k);
        assert(0 <= r % k < k) by (nonlinear_arith)
            requires
                k > 0,
                r >= 0,
        ;
    }
}

proof fn lemma_offset_mono(cs: Seq<Constraint>, l: int, i: int, j: int)
    requires
        l >= 0,
        0 <= i <= j <= cs.len(),
    ensures
        0 <= offset(cs, l, i) <= offset(cs, l, j),
    decreases j, i,
{
    if j > i {
        lemma_offset_mono(cs, l, i, j - 1);
        lemma_resolved_bounds(cs, l, j - 1);
    } else if i > 0 {
        lemma_offset_mono(cs, l, 0, i);
    }
}

/// Every child ends within the usable length.
proof fn lemma_child_fits(cs: Seq<Constraint>, l: int, i: int)
    requires
        l >= 0,
        0 <= i < cs.len(),
    ensures
        0 <= offset(cs, l, i),
        0 <= resolved_len(cs, l, i),
        offset(cs, l, i) + resolved_len(cs, l, i) <= l,
{
    lemma_offset_mono(cs, l, 0, i);
    lemma_offset_mono(cs, l, i + 1, cs.len() as int);
    lemma_resolved_bounds(cs, l, i);
    lemma_offset_total(cs, l);
}

fn length_along(r: Rect, d: Direction) -> (n: u16)
    ensures
        n == main_len(r, d),
{
    match d {
        Direction::Horizontal => r.width,
        Direction::Vertical => r.height,
    }
}

fn start_along(r: Rect, d: Direction) -> (n: u16)
    ensures
        n == main_start(r, d),
{
    match d {
        Direction::Horizontal => r.x,
        Direction::Vertical => r.y,
    }
}

fn base_length(c: Constraint, l: u16) -> (n: u16)
    ensures
        n == base_len(c, l as int),
{
    proof {
        lemma_base_len_bounds(c, l as int);
    }
    match c {
        Constraint::Percentage(p) => {
            let q: u32 = if p <= 100 {
                p as u32
            } else {
                100
            };
            assert(l as u32 * q <= 65535 * 100) by (nonlinear_arith)
                requires
                    q <= 100,
                    l <= 65535,
            ;
            ((l as u32 * q) / 100) as u16
        },
        Constraint::Fixed(n) | Constraint::Min(n) | Constraint::Max(n) => {
            if n <= l {
                n
            } else {
                l
            }
        },
    }
}

fn takes_leftover(c: Constraint) -> (b: bool)
    ensures
        b == grows(c),
{
    match c {
        Constraint::Percentage(_) | Constraint::Min(_) => true,
        Constraint::Fixed(_) | Constraint::Max(_) => false,
    }
}

/// Splits `parent` along `direction` into one child per constraint, in
/// order, after taking `margin` cells off every side.
///
/// Each constraint first asks for its base length against the usable length
/// `l`. Where the requests exceed `l`, the last children give up space first;
/// where they fall short, the leftover goes one cell at a time, in order, to
/// the `Percentage` and `Min` children. The children then follow one another
/// from the start of the usable area, each spanning it across the axis.
pub fn split(parent: Rect, direction: Direction, margin: u16, constraints: &[Constraint]) -> (r: Vec<Rect>)
    requires
        parent.wf(),
    ensures
        r@ == layout(parent, direction, margin, constraints@),
        forall|i: int| 0 <= i < r@.len() ==> (#[trigger] r@[i]).wf(),
{
    let ghost cs = constraints@;
    let area = parent.inner(margin);
    let l = length_along(area, direction);
    let n = constraints.len();
    let ghost li = l as int;

    let mut fitted: Vec<u16> = Vec::new();
    let mut used: u16 = 0;
    let mut k: usize = 0;
    let mut i: usize = 0;
    while i < n
        invariant
            n == cs.len(),
            cs == constraints@,
            li == l,
            0 <= i <= n,
            fitted@.len() == i,
            forall|j: int| 0 <= j < i ==> fitted@[j] == fitted_len(cs, li, j),
            used == min_int(li, base_sum(cs, li, i as int)),
            k == growers(cs, i as int),
            k <= i,
        decreases n - i,
    {
        let c = constraints[i];
        let b = base_length(c, l);
        let room = l - used;
        let f = if b <= room {
            b
        } else {
            room
        };
        proof {
            lemma_base_sum_mono(cs, li, 0, i as int);
            lemma_growers_bounds(cs, 0, i as int + 1);
            assert(base_sum(cs, li, i as int + 1) == base_sum(cs, li, i as int) + b);
        }
        fitted.push(f);
        used = used + f;
        if takes_leftover(c) {
            k = k + 1;
        }
        i = i + 1;
    }
    let spare = l - used;
    let ghost rest = spare as int;
    assert(rest == leftover(cs, li));

    let mut rects: Vec<Rect> = Vec::new();
    let start = start_along(area, direction);
    let mut pos: u16 = start;
    let mut rank: usize = 0;
    let mut i: usize = 0;
    while i < n
        invariant
            n == cs.len(),
            cs == constraints@,
            li == l,
            area == inset(parent, margin),
            area.wf(),
            li == main_len(area, direction),
            start == main_start(area, direction),
            fitted@.len() == n,
            forall|j: int| 0 <= j < n ==> fitted@[j] == fitted_len(cs, li, j),
            k == growers(cs, n as int),
            rest == leftover(cs, li),
            rest == spare,
            0 <= i <= n,
            rank == growers(cs, i as int),
            pos == start + offset(cs, li, i as int),
            rects@.len() == i,
            forall|j: int| 0 <= j < i ==> rects@[j] == child(parent, direction, margin, cs, j),
        decreases n - i,
    {
        let c = constraints[i];
        proof {
            lemma_child_fits(cs, li, i as int);
            lemma_growers_bounds(cs, i as int, i as int + 1);
            lemma_growers_bounds(cs, i as int + 1, n as int);
            lemma_leftover_bounds(cs, li);
        }
        let grow = takes_leftover(c);
        let extra: u16 = if grow && k > 0 {
            let whole = spare as usize / k;
            let part = spare as usize % k;
            assert(whole <= spare) by (nonlinear_arith)
                requires
                    whole == spare as int / k as int,
                    k > 0,
                    spare >= 0,
            ;
            assert(bonus(cs, li, i as int) == whole + if rank < part {
                1int
            } else {
                0int
            });
            if rank < part {
                (whole + 1) as u16
            } else {
                whole as u16
            }
        } else {
            0
        };
        let len = fitted[i] + extra;
        let rect = match direction {
            Direction::Horizontal => Rect { x: pos, y: area.y, width: len, height: area.height },
            Direction::Vertical => Rect { x: area.x, y: pos, width: area.width, height: len },
        };
        rects.push(rect);
        pos = pos + len;
        if grow {
            rank = rank + 1;
        }
        i = i + 1;
    }
    assert(rects@ =~= layout(parent, direction, margin, cs));
    proof {
        lemma_layout_wf(parent, direction, margin, cs);
    }
    rects
}

/// Every child lies inside the usable area of its parent, so it is itself a
/// valid parent for a further split.
pub proof fn lemma_layout_wf(parent: Rect, d: Direction, m: u16, cs: Seq<Constraint>)
    requires
        parent.wf(),
    ensures
        forall|i: int| 0 <= i < cs.len() ==> (#[trigger] layout(parent, d, m, cs)[i]).wf(),
{
    assert forall|i: int| 0 <= i < cs.len() implies (#[trigger] layout(parent, d, m, cs)[i]).wf() by {
        lemma_inset_wf(parent, m);
        lemma_child_fits(cs, main_len(inset(parent, m), d), i);
    }
}

/// The sum of the lengths along `d` of the first `n` rectangles of `rs`.
pub open spec fn lengths_sum(rs: Seq<Rect>, d: Direction, n: int) -> int
    decreases n,
{
    if n <= 0 {
        0
    } else {
        lengths_sum(rs, d, n - 1) + main_len(rs[n - 1], d)
    }
}

/// The larger of `a` and 0.
pub open spec fn non_negative(a: int) -> int {
    if a >= 0 {
        a
    } else {
        0
    }
}

proof fn lemma_inset_wf(parent: Rect, m: u16)
    requires
        parent.wf(),
    ensures
        inset(parent, m).wf(),
        main_start(inset(parent, m), Direction::Horizontal) + main_len(
            inset(parent, m),
            Direction::Horizontal,
        ) <= u16::MAX,
        main_start(inset(parent, m), Direction::Vertical) + main_len(
            inset(parent, m),
            Direction::Vertical,
        ) <= u16::MAX,
{
}

proof fn lemma_child_geometry(parent: Rect, d: Direction, m: u16, cs: Seq<Constraint>, i: int)
    requires
        parent.wf(),
        0 <= i < cs.len(),
    ensures
        ({
            let a = inset(parent, m);
            let l = main_len(a, d);
            let c = layout(parent, d, m, cs)[i];
            &&& main_start(c, d) == main_start(a, d) + offset(cs, l, i)
            &&& main_len(c, d) == resolved_len(cs, l, i)
            &&& cross_start(c, d) == cross_start(a, d)
            &&& cross_len(c, d) == cross_len(a, d)
        }),
{
    let a = inset(parent, m);
    lemma_inset_wf(parent, m);
    lemma_child_fits(cs, main_len(a, d), i);
}

proof fn lemma_lengths_sum_offset(parent: Rect, d: Direction, m: u16, cs: Seq<Constraint>, n: int)
    requires
        parent.wf(),
        0 <= n <= cs.len(),
    ensures
        lengths_sum(layout(parent, d, m, cs), d, n) == offset(cs, main_len(inset(parent, m), d), n),
    decreases n,
{
    if n > 0 {
        lemma_lengths_sum_offset(parent, d, m, cs, n - 1);
        lemma_child_geometry(parent, d, m, cs, n - 1);
    }
}

/// The children's lengths along the split axis add up to no more than the
/// usable length of the parent, and to exactly that length when some
/// constraint is a `Percentage` or a `Min`.
pub proof fn lemma_lengths_fit(parent: Rect, d: Direction, m: u16, cs: Seq<Constraint>)
    requires
        parent.wf(),
    ensures
        lengths_sum(layout(parent, d, m, cs), d, cs.len() as int) <= main_len(inset(parent, m), d),
        (exists|i: int| 0 <= i < cs.len() && grows(#[trigger] cs[i])) ==> lengths_sum(
            layout(parent, d, m, cs),
            d,
            cs.len() as int,
        ) == main_len(inset(parent, m), d),
{
    let l = main_len(inset(parent, m), d);
    lemma_lengths_sum_offset(parent, d, m, cs, cs.len() as int);
    lemma_offset_total(cs, l);
    if exists|i: int| 0 <= i < cs.len() && grows(#[trigger] cs[i]) {
        let i = choose|i: int| 0 <= i < cs.len() && grows(#[trigger] cs[i]);
        lemma_growers_bounds(cs, 0, i);
        lemma_growers_bounds(cs, i + 1, cs.len() as int);
    }
}

/// The children follow one another along the split axis in input order: the
/// first starts at the start of the usable area, each next one where the one
/// before it ends, so no two overlap.
pub proof fn lemma_contiguous(parent: Rect, d: Direction, m: u16, cs: Seq<Constraint>)
    requires
        parent.wf(),
    ensures
        ({
            let rs = layout(parent, d, m, cs);
            &&& rs.len() == cs.len()
            &&& rs.len() > 0 ==> main_start(rs[0], d) == main_start(inset(parent, m), d)
            &&& forall|i: int|
                0 < i < rs.len() ==> #[trigger] main_start(rs[i], d) == main_start(rs[i - 1], d)
                    + main_len(rs[i - 1], d)
            &&& forall|i: int, j: int|
                0 <= i < j < rs.len() ==> main_start(#[trigger] rs[i], d) + main_len(rs[i], d)
                    <= main_start(#[trigger] rs[j], d)
        }),
{
    let rs = layout(parent, d, m, cs);
    let a = inset(parent, m);
    let l = main_len(a, d);
    if cs.len() > 0 {
        lemma_child_geometry(parent, d, m, cs, 0);
    }
    assert forall|i: int| 0 < i < rs.len() implies #[trigger] main_start(rs[i], d) == main_start(
        rs[i - 1],
        d,
    ) + main_len(rs[i - 1], d) by {
        lemma_child_geometry(parent, d, m, cs, i);
        lemma_child_geometry(parent, d, m, cs, i - 1);
    }
    assert forall|i: int, j: int| 0 <= i < j < rs.len() implies main_start(#[trigger] rs[i], d)
        + main_len(rs[i], d) <= main_start(#[trigger] rs[j], d) by {
        lemma_child_geometry(parent, d, m, cs, i);
        lemma_child_geometry(parent, d, m, cs, j);
        lemma_offset_mono(cs, l, i + 1, j);
    }
}

/// Every child spans the whole usable area across the split axis.
pub proof fn lemma_full_cross(parent: Rect, d: Direction, m: u16, cs: Seq<Constraint>)
    requires
        parent.wf(),
    ensures
        forall|i: int|
            0 <= i < cs.len() ==> {
                &&& cross_start(#[trigger] layout(parent, d, m, cs)[i], d) == cross_start(
                    inset(parent, m),
                    d,
                )
                &&& cross_len(layout(parent, d, m, cs)[i], d) == cross_len(inset(parent, m), d)
            },
{
    assert forall|i: int| 0 <= i < cs.len() implies {
        &&& cross_start(#[trigger] layout(parent, d, m, cs)[i], d) == cross_start(
            inset(parent, m),
            d,
        )
        &&& cross_len(layout(parent, d, m, cs)[i], d) == cross_len(inset(parent, m), d)
    } by {
        lemma_child_geometry(parent, d, m, cs, i);
    }
}

/// A `Percentage(0)` child gets no length when the base lengths leave no
/// space over (otherwise it takes its share of the leftover like any other
/// percentage).
pub proof fn lemma_zero_percent(parent: Rect, d: Direction, m: u16, cs: Seq<Constraint>, i: int)
    requires
        parent.wf(),
        0 <= i < cs.len(),
        cs[i] == Constraint::Percentage(0),
        base_sum(cs, main_len(inset(parent, m), d), cs.len() as int) >= main_len(inset(parent, m), d),
    ensures
        main_len(layout(parent, d, m, cs)[i], d) == 0,
{
    let l = main_len(inset(parent, m), d);
    lemma_child_geometry(parent, d, m, cs, i);
    lemma_base_len_bounds(cs[i], l);
    lemma_base_sum_mono(cs, l, 0, i);
    lemma_leftover_bounds(cs, l);
    lemma_growers_bounds(cs, 0, i);
    assert(l * 0 == 0);
    assert(leftover(cs, l) == 0);
    let k = growers(cs, cs.len() as int);
    if k > 0 {
        assert(0int / k == 0 && 0int % k == 0) by (nonlinear_arith)
            requires
                k > 0,
        ;
    }
}

/// A single `Percentage(100)` with no margin takes the parent's whole
/// length along the split axis.
pub proof fn lemma_full_percent(parent: Rect, d: Direction)
    requires
        parent.wf(),
    ensures
        layout(parent, d, 0, seq![Constraint::Percentage(100)]).len() == 1,
        main_len(layout(parent, d, 0, seq![Constraint::Percentage(100)])[0], d) == main_len(
            parent,
            d,
        ),
{
    let cs = seq![Constraint::Percentage(100)];
    let l = main_len(parent, d);
    lemma_child_geometry(parent, d, 0, cs, 0);
    assert(inset(parent, 0) == parent);
    assert((l * 100) / 100 == l) by (nonlinear_arith)
        requires
            l >= 0,
    ;
    assert(base_len(cs[0], l) == l);
    assert(base_sum(cs, l, 1) == l);
    assert(base_sum(cs, l, 0) == 0);
    assert(leftover(cs, l) == 0);
    assert(growers(cs, 1) == 1);
    assert(growers(cs, 0) == 0);
}

/// A margin of `m` leaves a usable area of `max(0, W − 2m) × max(0, H − 2m)`
/// whose origin is shifted by `(m, m)` where the margin fits in the parent;
/// every child spans that area across the split axis, and the first child
/// starts at its origin.
pub proof fn lemma_margin(parent: Rect, d: Direction, m: u16, cs: Seq<Constraint>)
    requires
        parent.wf(),
    ensures
        inset(parent, m).width == non_negative(parent.width - 2 * m),
        inset(parent, m).height == non_negative(parent.height - 2 * m),
        m <= parent.width ==> inset(parent, m).x == parent.x + m,
        m <= parent.height ==> inset(parent, m).y == parent.y + m,
        forall|i: int|
            0 <= i < cs.len() ==> cross_len(#[trigger] layout(parent, d, m, cs)[i], d) == cross_len(
                inset(parent, m),
                d,
            ),
        cs.len() > 0 ==> main_start(layout(parent, d, m, cs)[0], d) == main_start(inset(parent, m), d),
{
    lemma_full_cross(parent, d, m, cs);
    lemma_contiguous(parent, d, m, cs);
}

/// When the parent has no length along the split axis, every child has no
/// length along it either and sits at the start of the usable area.
pub proof fn lemma_zero_parent(parent: Rect, d: Direction, m: u16, cs: Seq<Constraint>)
    requires
        parent.wf(),
        main_len(parent, d) == 0,
    ensures
        forall|i: int|
            0 <= i < cs.len() ==> {
                &&& main_len(#[trigger] layout(parent, d, m, cs)[i], d) == 0
                &&& main_start(layout(parent, d, m, cs)[i], d) == main_start(inset(parent, m), d)
            },
{
    let l = main_len(inset(parent, m), d);
    assert(l == 0);
    assert forall|i: int| 0 <= i < cs.len() implies {
        &&& main_len(#[trigger] layout(parent, d, m, cs)[i], d) == 0
        &&& main_start(layout(parent, d, m, cs)[i], d) == main_start(inset(parent, m), d)
    } by {
        lemma_child_geometry(parent, d, m, cs, i);
        lemma_child_fits(cs, l, i);
    }
}

} // verus!
