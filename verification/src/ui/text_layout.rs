//! Stacking the lines of a label: where each shaped line goes, and how big
//! the label's text is.

use vstd::prelude::*;

verus! {

/// The running state of stacking lines: the top of the next line, the height
/// of the last shaped line, and the width and height of the text so far.
pub struct LineStack {
    pub y: int,
    pub line_height: int,
    pub width: int,
    pub height: int,
    /// The top of each shaped line.
    pub tops: Seq<int>,
}

/// Stack one more line: `None` for an empty line, which moves down by the
/// height of the last shaped line without adding to the text's height;
/// `Some((w, h))` for a shaped line of that size.
pub open spec fn stack_line(s: LineStack, line: Option<(i32, i32)>) -> LineStack {
    match line {
        None => LineStack { y: s.y + s.line_height, ..s },
        Some((w, h)) => LineStack {
            y: s.y + h,
            line_height: h as int,
            width: if s.width >= w { s.width } else { w as int },
            height: s.height + h,
            tops: s.tops.push(s.y),
        },
    }
}

/// The lines stacked in order, from the top at zero.
pub open spec fn stack_lines(lines: Seq<Option<(i32, i32)>>) -> LineStack
    decreases lines.len(),
{
    if lines.len() == 0 {
        LineStack { y: 0, line_height: 0, width: 0, height: 0, tops: Seq::empty() }
    } else {
        stack_line(stack_lines(lines.drop_last()), lines.last())
    }
}

/// No shaped line has a negative size.
pub open spec fn sizes_nonnegative(lines: Seq<Option<(i32, i32)>>) -> bool {
    forall|i: int|
        0 <= i < lines.len() ==> match #[trigger] lines[i] {
            Some((w, h)) => w >= 0 && h >= 0,
            None => true,
        }
}

/// Stacking never moves up, and the height never exceeds the distance moved.
proof fn lemma_stack_grows(lines: Seq<Option<(i32, i32)>>)
    requires
        sizes_nonnegative(lines),
    ensures
        0 <= stack_lines(lines).height <= stack_lines(lines).y,
        0 <= stack_lines(lines).line_height,
        0 <= stack_lines(lines).width,
        stack_lines(lines).width <= i32::MAX,
        forall|i: int| 0 <= i < stack_lines(lines).tops.len() ==> 0 <= #[trigger] stack_lines(lines).tops[i] <= stack_lines(lines).y,
        stack_lines(lines).tops.len() <= lines.len(),
    decreases lines.len(),
{
    if lines.len() > 0 {
        let prev = lines.drop_last();
        assert(sizes_nonnegative(prev)) by {
            assert forall|i: int| 0 <= i < prev.len() implies match #[trigger] prev[i] {
                Some((w, h)) => w >= 0 && h >= 0,
                None => true,
            } by {
                assert(prev[i] == lines[i]);
            }
        }
        lemma_stack_grows(prev);
        assert(lines.last() == lines[lines.len() - 1]);
    }
}

/// Stacking the lines of a prefix moves down no further than stacking all.
proof fn lemma_prefix_y_below(lines: Seq<Option<(i32, i32)>>, k: int)
    requires
        sizes_nonnegative(lines),
        0 <= k <= lines.len(),
    ensures
        stack_lines(lines.take(k)).y <= stack_lines(lines).y,
    decreases lines.len() - k,
{
    if k < lines.len() {
        lemma_prefix_y_below(lines, k + 1);
        assert(lines.take(k + 1).drop_last() =~= lines.take(k));
        assert(sizes_nonnegative(lines.take(k + 1))) by {
            assert forall|i: int| 0 <= i < k + 1 implies match #[trigger] lines.take(k + 1)[i] {
                Some((w, h)) => w >= 0 && h >= 0,
                None => true,
            } by {
                assert(lines.take(k + 1)[i] == lines[i]);
            }
        }
        lemma_stack_grows(lines.take(k + 1));
        lemma_stack_grows(lines.take(k));
        assert(lines.take(k + 1).last() == lines[k]);
    } else {
        assert(lines.take(k) =~= lines);
    }
}

/// Stack the lines of a label. `lines` holds, for each line, `None` when it
/// is empty or the size of the shaped line. Returns the top of each shaped
/// line and the width and height of the text.
pub fn label_lines(lines: &Vec<Option<(i32, i32)>>) -> (r: (Vec<i32>, i32, i32))
    requires
        sizes_nonnegative(lines@),
        stack_lines(lines@).y <= i32::MAX,
    ensures
        r.0@.len() == stack_lines(lines@).tops.len(),
        forall|i: int| 0 <= i < r.0@.len() ==> r.0@[i] == #[trigger] stack_lines(lines@).tops[i],
        r.1 == stack_lines(lines@).width,
        r.2 == stack_lines(lines@).height,
{
    let mut tops: Vec<i32> = Vec::new();
    let mut y: i32 = 0;
    let mut line_height: i32 = 0;
    let mut w: i32 = 0;
    let mut h: i32 = 0;
    let mut k: usize = 0;
    while k < lines.len()
        invariant
            k <= lines.len(),
            sizes_nonnegative(lines@),
            stack_lines(lines@).y <= i32::MAX,
            y == stack_lines(lines@.take(k as int)).y,
            line_height == stack_lines(lines@.take(k as int)).line_height,
            w == stack_lines(lines@.take(k as int)).width,
            h == stack_lines(lines@.take(k as int)).height,
            tops@.len() == stack_lines(lines@.take(k as int)).tops.len(),
            forall|i: int| 0 <= i < tops@.len() ==> tops@[i] == #[trigger] stack_lines(lines@.take(k as int)).tops[i],
        decreases lines.len() - k,
    {
        proof {
            assert(lines@.take(k + 1).drop_last() =~= lines@.take(k as int));
            assert(lines@.take(k + 1).last() == lines@[k as int]);
            assert(sizes_nonnegative(lines@.take(k + 1))) by {
                assert forall|i: int| 0 <= i < k + 1 implies match #[trigger] lines@.take(k + 1)[i] {
                    Some((w, h)) => w >= 0 && h >= 0,
                    None => true,
                } by {
                    assert(lines@.take(k + 1)[i] == lines@[i]);
                }
            }
            lemma_prefix_y_below(lines@, k + 1);
            lemma_stack_grows(lines@.take(k + 1));
            lemma_stack_grows(lines@.take(k as int));
        }
        match lines[k] {
            None => {
                y = y + line_height;
            },
            Some((lw, lh)) => {
                tops.push(y);
                y = y + lh;
                line_height = lh;
                if lw > w {
                    w = lw;
                }
                h = h + lh;
            },
        }
        k += 1;
    }
    proof {
        assert(lines@.take(lines.len() as int) =~= lines@);
    }
    (tops, w, h)
}

} // verus!
