//! The memory layout of a task.
use vstd::prelude::*;

verus! {

use vstd::arithmetic::power2::is_pow2;
use vstd::layout::{align_of, size_of, valid_layout};

/// The least multiple of `align` that is not less than `n`.
pub open spec fn round_up(n: int, align: int) -> int {
    if n % align == 0 {
        n
    } else {
        n + align - n % align
    }
}

/// The greater of two numbers.
pub open spec fn greater(a: int, b: int) -> int {
    if a >= b {
        a
    } else {
        b
    }
}

/// A block of memory of this size and alignment can be allocated: the alignment is a power of two,
/// and the size, rounded up to the alignment, is not too large.
pub open spec fn allocatable(size: int, align: int) -> bool {
    is_pow2(align) && size <= isize::MAX - (align - 1)
}

/// The size and the alignment of a block of memory.
#[derive(Debug, Clone, Copy, PartialEq, Eq, Structural)]
pub struct Layout {
    pub size: usize,
    pub align: usize,
}

/// Memory layout of a task.
///
/// This struct contains the following information:
///
/// 1. How to allocate and deallocate the task.
/// 2. How to access the fields inside the task.
#[derive(Debug, Clone, Copy, PartialEq, Eq, Structural)]
pub struct TaskLayout {
    /// Memory layout of the whole task.
    pub layout: Layout,
    /// Offset into the task at which the schedule function is stored.
    pub offset_s: usize,
    /// Offset into the task at which the future is stored.
    pub offset_f: usize,
    /// Offset into the task at which the output is stored.
    pub offset_r: usize,
}

/// Of two powers of two, the smaller one divides the greater one.
proof fn lemma_divides(a: int, b: int)
    requires
        is_pow2(a),
        is_pow2(b),
        a <= b,
    ensures
        a > 0,
        b % a == 0,
    decreases b,
{
    reveal(is_pow2);
    if a == 1 {
    } else {
        lemma_divides(a / 2, b / 2);
        assert(b % a == 0) by (nonlinear_arith)
            requires
                a > 0,
                a % 2 == 0,
                b % 2 == 0,
                a / 2 > 0,
                (b / 2) % (a / 2) == 0,
        {
            let q = (b / 2) / (a / 2);
            assert(b / 2 == (a / 2) * q);
            assert(b == a * q);
        }
    }
}

/// A multiple of a number is a multiple of each of its divisors.
proof fn lemma_multiple(n: int, b: int, a: int)
    requires
        a > 0,
        b > 0,
        n % b == 0,
        b % a == 0,
    ensures
        n % a == 0,
{
    assert(n % a == 0) by (nonlinear_arith)
        requires
            a > 0,
            b > 0,
            n % b == 0,
            b % a == 0,
    {
        let p = n / b;
        let q = b / a;
        assert(n == b * p);
        assert(b == a * q);
        assert(n == a * (q * p));
    }
}

/// The largest size that goes with an alignment falls short of the largest number by the
/// alignment less one.
proof fn lemma_largest_size(align: int)
    requires
        is_pow2(align),
        align <= usize::MAX,
    ensures
        (isize::MAX as int) % align == align - 1,
{
    let top = isize::MAX + 1;
    assert(top == 0x8000_0000 || top == 0x8000_0000_0000_0000);
    assert(is_pow2(top)) by {
        reveal_with_fuel(is_pow2, 64);
    }
    if align > top {
        lemma_divides(top, align);
        assert(align == top * (align / top)) by (nonlinear_arith)
            requires
                top > 0,
                align % top == 0,
        ;
        assert(align / top >= 2) by (nonlinear_arith)
            requires
                top > 0,
                align > top,
                align == top * (align / top),
        ;
        assert(align >= 2 * top) by (nonlinear_arith)
            requires
                top > 0,
                align == top * (align / top),
                align / top >= 2,
        ;
    }
    lemma_divides(align, top);
    assert((top - 1) % align == align - 1) by (nonlinear_arith)
        requires
            align > 0,
            top % align == 0,
    {
        let q = top / align;
        assert(top == align * q);
        assert(top - 1 == align * (q - 1) + (align - 1));
    }
}

/// Rounding up gives a multiple, and gives less than one unit more.
proof fn lemma_round_up(n: int, align: int)
    requires
        align > 0,
    ensures
        round_up(n, align) % align == 0,
        n <= round_up(n, align) < n + align,
{
    if n % align != 0 {
        assert((n + align - n % align) % align == 0) by (nonlinear_arith)
            requires
                align > 0,
        {
            let q = n / align;
            assert(n == align * q + n % align);
            assert(n + align - n % align == align * (q + 1));
        }
    }
}

impl Layout {
    /// A block of memory of this layout can be allocated.
    pub open spec fn valid(self) -> bool {
        allocatable(self.size as int, self.align as int)
    }

    /// Where `other` comes to lie behind a block of this layout.
    pub open spec fn offset(self, other: Layout) -> int {
        round_up(self.size as int, other.align as int)
    }

    /// The two blocks, one behind the other, can be allocated together.
    pub open spec fn fits(self, other: Layout) -> bool {
        allocatable(
            self.offset(other) + other.size,
            greater(self.align as int, other.align as int),
        )
    }

    /// This block followed by `other`, with the padding between them.
    pub open spec fn followed_by(self, other: Layout) -> Layout {
        Layout {
            size: (self.offset(other) + other.size) as usize,
            align: greater(self.align as int, other.align as int) as usize,
        }
    }

    /// A block that can hold either of two.
    pub open spec fn or(self, other: Layout) -> Layout {
        Layout {
            size: greater(self.size as int, other.size as int) as usize,
            align: greater(self.align as int, other.align as int) as usize,
        }
    }

    /// Returns the layout of a type.
    pub fn new<T>() -> (layout: Layout)
        ensures
            layout.size == size_of::<T>(),
            layout.align == align_of::<T>(),
            layout.valid(),
    {
        vstd::layout::layout_for_type_is_valid::<T>();
        let layout = Layout { size: core::mem::size_of::<T>(), align: core::mem::align_of::<T>() };
        proof {
            assert(valid_layout(layout.size, layout.align));
            lemma_largest_size(layout.align as int);
        }
        layout
    }

    /// Returns the layout of a block that can hold either of two.
    pub fn union(self, other: Layout) -> (layout: Layout)
        ensures
            layout == self.or(other),
    {
        Layout { size: max(self.size, other.size), align: max(self.align, other.align) }
    }

    /// Returns the layout of this block followed by another one, and the offset of the latter.
    ///
    /// There is padding between the two as far as the alignment of the latter needs it, but none
    /// at the end. Returns `None` if the block would be too large.
    pub fn extend(self, other: Layout) -> (extended: Option<(Layout, usize)>)
        requires
            self.valid(),
            is_pow2(other.align as int),
        ensures
            extended is Some <==> self.fits(other),
            extended matches Some((layout, offset)) ==> {
                &&& offset == self.offset(other)
                &&& layout == self.followed_by(other)
                &&& layout.size == offset + other.size
            },
    {
        proof {
            reveal(is_pow2);
            lemma_round_up(self.size as int, other.align as int);
        }
        let rest: usize = self.size % other.align;
        let padding: usize = if rest == 0 {
            0
        } else {
            other.align - rest
        };
        let align: usize = max(self.align, other.align);
        let offset: usize = match self.size.checked_add(padding) {
            Some(offset) => offset,
            None => {
                return None;
            },
        };
        let size: usize = match offset.checked_add(other.size) {
            Some(size) => size,
            None => {
                return None;
            },
        };
        if align - 1 > isize::MAX as usize || size > isize::MAX as usize - (align - 1) {
            return None;
        }
        Some((Layout { size, align }, offset))
    }
}

/// Returns the greater of two numbers.
fn max(a: usize, b: usize) -> (m: usize)
    ensures
        m == greater(a as int, b as int),
{
    if a > b {
        a
    } else {
        b
    }
}

/// A field of this layout lies in the block at a proper place.
pub open spec fn lies_in(field: Layout, offset: int, block: Layout) -> bool {
    &&& offset % field.align as int == 0
    &&& block.align % field.align == 0
    &&& offset + field.size <= block.size
}

/// This is the memory layout of a task with a header, a schedule function, a future and an output
/// of these layouts. There is none exactly if the task would be too large.
///
/// The schedule function follows the header, and the future follows the schedule function. The
/// output takes the place of the future. Each field lies in the task at a proper place, and no two
/// of them overlap but for the future and the output.
pub open spec fn laid_out(
    task: Option<TaskLayout>,
    header: Layout,
    schedule: Layout,
    future: Layout,
    output: Layout,
) -> bool {
    let front = header.followed_by(schedule);
    let either = future.or(output);
    &&& task is Some <==> header.fits(schedule) && front.fits(either)
    &&& task matches Some(t) ==> {
        &&& t.offset_s == header.offset(schedule)
        &&& t.offset_f == front.offset(either)
        &&& t.offset_r == t.offset_f
        &&& t.layout == front.followed_by(either)
        &&& t.layout.valid()
        &&& lies_in(header, 0, t.layout)
        &&& lies_in(schedule, t.offset_s as int, t.layout)
        &&& lies_in(future, t.offset_f as int, t.layout)
        &&& lies_in(output, t.offset_r as int, t.layout)
        &&& header.size <= t.offset_s
        &&& t.offset_s + schedule.size <= t.offset_f
    }
}

/// Computes the memory layout for a task from the layouts of its header, of its schedule function,
/// of its future and of its output.
///
/// The output takes the place of the future. Returns `None` if the task would be too large.
pub fn task_layout(
    header: Layout,
    schedule: Layout,
    future: Layout,
    output: Layout,
) -> (task: Option<TaskLayout>)
    requires
        header.valid(),
        schedule.valid(),
        future.valid(),
        output.valid(),
    ensures
        laid_out(task, header, schedule, future, output),
{
    // Compute the layout for either the future or its output.
    let either = future.union(output);
    // Compute the layout for the header followed by the schedule function and either of these.
    let (layout, offset_s) = match header.extend(schedule) {
        Some(extended) => extended,
        None => {
            return None;
        },
    };
    let (layout, offset_union) = match layout.extend(either) {
        Some(extended) => extended,
        None => {
            return None;
        },
    };
    proof {
        let (h, s, f, r) = (
            header.align as int,
            schedule.align as int,
            future.align as int,
            output.align as int,
        );
        let (e, l) = (either.align as int, layout.align as int);
        reveal(is_pow2);
        lemma_round_up(header.size as int, s);
        lemma_round_up(header.followed_by(schedule).size as int, e);
        lemma_divides(h, l);
        lemma_divides(s, l);
        lemma_divides(f, l);
        lemma_divides(r, l);
        lemma_divides(f, e);
        lemma_divides(r, e);
        lemma_multiple(offset_union as int, e, f);
        lemma_multiple(offset_union as int, e, r);
    }
    Some(TaskLayout { layout, offset_s, offset_f: offset_union, offset_r: offset_union })
}

/// The layout of a type.
pub open spec fn layout_of<T>() -> Layout {
    Layout { size: size_of::<T>() as usize, align: align_of::<T>() as usize }
}

/// Computes the memory layout for a task with a header `H`, a schedule function `S`, a future `F`
/// and an output `R`.
pub fn eval_task_layout<H, S, F, R>() -> (task: Option<TaskLayout>)
    ensures
        laid_out(task, layout_of::<H>(), layout_of::<S>(), layout_of::<F>(), layout_of::<R>()),
{
    task_layout(Layout::new::<H>(), Layout::new::<S>(), Layout::new::<F>(), Layout::new::<R>())
}

/// `m` is the least multiple of `align` that is not less than `n`.
pub open spec fn is_least_multiple(m: int, n: int, align: int) -> bool {
    m % align == 0 && n <= m < n + align
}

/// There is only one least multiple.
proof fn lemma_least_multiple(m: int, n: int, align: int)
    requires
        align > 0,
        is_least_multiple(m, n, align),
    ensures
        m == round_up(n, align),
{
    lemma_round_up(n, align);
    let o = round_up(n, align);
    assert(m == o) by (nonlinear_arith)
        requires
            align > 0,
            m % align == 0,
            o % align == 0,
            n <= m < n + align,
            n <= o < n + align,
    {
        let p = m / align;
        let q = o / align;
        assert(m == align * p);
        assert(o == align * q);
        if p > q {
            assert(align * p >= align * (q + 1));
        }
        if q > p {
            assert(align * q >= align * (p + 1));
        }
    }
}

/// The layout of a type has its size and its alignment.
pub proof fn law_layout_is_of_type<T>(layout: Layout)
    requires
        call_ensures(Layout::new::<T>, (), layout),
    ensures
        layout.size == size_of::<T>(),
        layout.align == align_of::<T>(),
{
}

/// A layout is valid exactly if its alignment is a power of two, and its size, rounded up to that,
/// can be allocated. The layout of a type always is.
pub proof fn law_valid_layout_can_be_allocated<T>(layout: Layout, of_type: Layout)
    requires
        call_ensures(Layout::new::<T>, (), of_type),
    ensures
        layout.valid() <==> is_pow2(layout.align as int) && layout.size + (layout.align - 1)
            <= isize::MAX,
        of_type.valid(),
{
}

/// A block that can hold either of two is as large as the larger one, and aligned as the more
/// strictly aligned one.
pub proof fn law_union_holds_either(a: Layout, b: Layout, either: Layout)
    requires
        call_ensures(Layout::union, (a, b), either),
    ensures
        either.size >= a.size && either.size >= b.size,
        either.size == a.size || either.size == b.size,
        either.align >= a.align && either.align >= b.align,
        either.align == a.align || either.align == b.align,
{
}

/// A block that is put behind another one lies at the least multiple of its alignment, and the two
/// together end where it ends. That fails exactly if they could not be allocated together.
pub proof fn law_extended_block_is_packed(
    a: Layout,
    b: Layout,
    at: int,
    extended: Option<(Layout, usize)>,
)
    requires
        a.valid(),
        is_pow2(b.align as int),
        is_least_multiple(at, a.size as int, b.align as int),
        call_ensures(Layout::extend, (a, b), extended),
    ensures
        ({
            let align = if a.align >= b.align {
                a.align
            } else {
                b.align
            };
            &&& extended is Some <==> at + b.size + (align - 1) <= isize::MAX
            &&& extended matches Some((layout, offset)) ==> {
                &&& offset == at
                &&& layout.size == at + b.size
                &&& layout.align == align
            }
        }),
{
    reveal(is_pow2);
    lemma_least_multiple(at, a.size as int, b.align as int);
}

/// The fields of a task follow each other as closely as their alignments allow: the header, the
/// schedule function, and the future, whose place the output takes. The task is as large as that,
/// and aligned as its most strictly aligned field. It has no layout exactly if it could not be
/// allocated.
pub proof fn law_task_is_packed(
    header: Layout,
    schedule: Layout,
    future: Layout,
    output: Layout,
    at_schedule: int,
    at_future: int,
    task: Option<TaskLayout>,
)
    requires
        header.valid(),
        schedule.valid(),
        future.valid(),
        output.valid(),
        is_least_multiple(at_schedule, header.size as int, schedule.align as int),
        is_least_multiple(
            at_future,
            at_schedule + schedule.size,
            greater(future.align as int, output.align as int),
        ),
        call_ensures(task_layout, (header, schedule, future, output), task),
    ensures
        ({
            let size = at_future + greater(future.size as int, output.size as int);
            let align = greater(
                greater(header.align as int, schedule.align as int),
                greater(future.align as int, output.align as int),
            );
            &&& task is Some <==> size + (align - 1) <= isize::MAX
            &&& task matches Some(t) ==> {
                &&& t.offset_s == at_schedule
                &&& t.offset_f == at_future
                &&& t.offset_r == at_future
                &&& t.layout.size == size
                &&& t.layout.align == align
                &&& t.layout.valid()
            }
        }),
{
    reveal(is_pow2);
    let either = future.or(output);
    lemma_least_multiple(at_schedule, header.size as int, schedule.align as int);
    lemma_round_up(header.size as int, schedule.align as int);
    let front = header.followed_by(schedule);
    if header.fits(schedule) {
        assert(front.size == at_schedule + schedule.size);
    }
    lemma_least_multiple(at_future, at_schedule + schedule.size, either.align as int);
}

/// The greater of two numbers is one of them, and not less than either.
pub proof fn law_greater_is_maximum(a: int, b: int)
    ensures
        greater(a, b) >= a && greater(a, b) >= b,
        greater(a, b) == a || greater(a, b) == b,
{
}

/// The layout of a task with these types is that of a task with fields of their layouts.
pub proof fn law_task_layout_is_of_types<H, S, F, R>(
    header: Layout,
    schedule: Layout,
    future: Layout,
    output: Layout,
    task: Option<TaskLayout>,
    of_types: Option<TaskLayout>,
)
    requires
        call_ensures(Layout::new::<H>, (), header),
        call_ensures(Layout::new::<S>, (), schedule),
        call_ensures(Layout::new::<F>, (), future),
        call_ensures(Layout::new::<R>, (), output),
        call_ensures(task_layout, (header, schedule, future, output), task),
        call_ensures(eval_task_layout::<H, S, F, R>, (), of_types),
    ensures
        of_types == task,
{
}

} // verus!
