//! Lexical path algebra: splitting a path into its directory and name,
//! cutting it into segments, and resolving `.` and `..` without touching the
//! filesystem. Both `/` and `\` separate segments; rendered paths use `/`.

use vstd::prelude::*;
use crate::text::{from_chars, to_chars};

verus! {

/// A character that separates two segments of a path.
pub open spec fn is_separator(c: char) -> bool {
    c == '/' || c == '\\'
}

/// Length of the directory prefix of `p`: everything up to and including the
/// last separator, or nothing when `p` holds no separator.
pub open spec fn dir_len(p: Seq<char>) -> nat
    decreases p.len(),
{
    if p.len() == 0 {
        0
    } else if is_separator(p.last()) {
        p.len()
    } else {
        dir_len(p.drop_last())
    }
}

/// The directory prefix of `p`, trailing separator included.
pub open spec fn dir_prefix(p: Seq<char>) -> Seq<char> {
    p.take(dir_len(p) as int)
}

/// The name of `p`: what follows its last separator.
pub open spec fn file_name(p: Seq<char>) -> Seq<char> {
    p.skip(dir_len(p) as int)
}

/// A path splits into parent and name when its name is not empty.
pub open spec fn has_file_name(p: Seq<char>) -> bool {
    file_name(p).len() > 0
}

/// The parent directory of `p` without its trailing separator; the root keeps
/// its separator.
pub open spec fn parent_dir(p: Seq<char>) -> Seq<char> {
    if dir_len(p) <= 1 {
        p.take(dir_len(p) as int)
    } else {
        p.take(dir_len(p) - 1)
    }
}

/// A path is absolute when it begins with a separator.
pub open spec fn is_absolute(p: Seq<char>) -> bool {
    p.len() > 0 && is_separator(p[0])
}

/// The segment `.`, which names the directory it stands in.
pub open spec fn is_dot(seg: Seq<char>) -> bool {
    seg.len() == 1 && seg[0] == '.'
}

/// The segment `..`, which names the parent directory.
pub open spec fn is_dotdot(seg: Seq<char>) -> bool {
    seg.len() == 2 && seg[0] == '.' && seg[1] == '.'
}

/// The non-empty segments of `p`, in order.
pub open spec fn segments(p: Seq<char>) -> Seq<Seq<char>>
    decreases p.len(),
{
    let k = dir_len(p) as int;
    if p.len() == 0 {
        Seq::empty()
    } else {
        let earlier = if 0 < k <= p.len() {
            segments(p.take(k - 1))
        } else {
            Seq::empty()
        };
        if k >= p.len() {
            earlier
        } else {
            earlier.push(p.skip(k))
        }
    }
}

/// The segments of `p` that a separator has already closed.
pub open spec fn closed_segments(p: Seq<char>) -> Seq<Seq<char>> {
    let k = dir_len(p) as int;
    if 0 < k <= p.len() {
        segments(p.take(k - 1))
    } else {
        Seq::empty()
    }
}

/// One segment applied to the stack of segments walked so far.
pub open spec fn step(absolute: bool, stack: Seq<Seq<char>>, seg: Seq<char>) -> Seq<Seq<char>> {
    if is_dot(seg) {
        stack
    } else if is_dotdot(seg) {
        if stack.len() > 0 && !is_dotdot(stack.last()) {
            stack.drop_last()
        } else if absolute {
            stack
        } else {
            stack.push(seg)
        }
    } else {
        stack.push(seg)
    }
}

/// The segments `segs` applied to `stack` from first to last.
pub open spec fn walk(absolute: bool, stack: Seq<Seq<char>>, segs: Seq<Seq<char>>) -> Seq<
    Seq<char>,
>
    decreases segs.len(),
{
    if segs.len() == 0 {
        stack
    } else {
        step(absolute, walk(absolute, stack, segs.drop_last()), segs.last())
    }
}

/// The segments joined by `/`.
pub open spec fn join(segs: Seq<Seq<char>>) -> Seq<char>
    decreases segs.len(),
{
    if segs.len() == 0 {
        Seq::empty()
    } else if segs.len() == 1 {
        segs[0]
    } else {
        join(segs.drop_last()) + seq!['/'] + segs.last()
    }
}

/// The path that a stack of segments stands for. The empty relative path is
/// written `.`, the root `/`.
pub open spec fn render(absolute: bool, segs: Seq<Seq<char>>) -> Seq<char> {
    if absolute {
        seq!['/'] + join(segs)
    } else if segs.len() == 0 {
        seq!['.']
    } else {
        join(segs)
    }
}

/// `p` with `.` segments, empty segments and resolvable `..` segments removed.
pub open spec fn normalized(p: Seq<char>) -> Seq<char> {
    render(is_absolute(p), walk(is_absolute(p), Seq::empty(), segments(p)))
}

/// The normalized path reached from directory `dir` by following `rel`.
pub open spec fn resolved_against(dir: Seq<char>, rel: Seq<char>) -> Seq<char> {
    let a = is_absolute(dir);
    render(a, walk(a, walk(a, Seq::empty(), segments(dir)), segments(rel)))
}

/// The entry `name` inside the directory with normalized path `p`.
pub open spec fn child_of(p: Seq<char>, name: Seq<char>) -> Seq<char> {
    if p =~= seq!['.'] {
        name
    } else if p =~= seq!['/'] {
        p + name
    } else {
        p + seq!['/'] + name
    }
}

/// A segment that can name a directory entry: not empty, no separator inside,
/// and neither `.` nor `..`.
pub open spec fn is_plain_name(name: Seq<char>) -> bool {
    &&& name.len() > 0
    &&& !is_dot(name)
    &&& !is_dotdot(name)
    &&& forall|i: int| 0 <= i < name.len() ==> !is_separator(#[trigger] name[i])
}

/// The views of a vector of segments.
pub open spec fn seg_views(v: Seq<Vec<char>>) -> Seq<Seq<char>> {
    Seq::new(v.len(), |i: int| v[i]@)
}

/// What `dir_len` returns is the one position that a separator precedes and
/// no separator follows.
pub proof fn lemma_dir_len(p: Seq<char>)
    ensures
        dir_len(p) <= p.len(),
        dir_len(p) > 0 ==> is_separator(p[dir_len(p) - 1]),
        forall|j: int| dir_len(p) <= j < p.len() ==> !is_separator(#[trigger] p[j]),
    decreases p.len(),
{
    if p.len() > 0 && !is_separator(p.last()) {
        let q = p.drop_last();
        lemma_dir_len(q);
        assert forall|j: int| dir_len(p) <= j < p.len() implies !is_separator(#[trigger] p[j]) by {
            if j < q.len() {
                assert(p[j] == q[j]);
            }
        }
    }
}

/// Any position that a separator precedes and no separator follows is
/// `dir_len`.
pub proof fn lemma_dir_len_unique(p: Seq<char>, k: int)
    requires
        0 <= k <= p.len(),
        k > 0 ==> is_separator(p[k - 1]),
        forall|j: int| k <= j < p.len() ==> !is_separator(#[trigger] p[j]),
    ensures
        dir_len(p) == k,
    decreases p.len(),
{
    if p.len() > 0 && !is_separator(p.last()) {
        lemma_dir_len_unique(p.drop_last(), k);
    }
}

/// Appending a character that is no separator leaves the directory prefix as
/// it was; appending a separator closes the path.
pub proof fn lemma_dir_len_push(p: Seq<char>, c: char)
    ensures
        is_separator(c) ==> dir_len(p.push(c)) == p.len() + 1,
        !is_separator(c) ==> dir_len(p.push(c)) == dir_len(p),
{
    assert(p.push(c).drop_last() =~= p);
}

/// The segments of a path are its closed segments followed by the name, when
/// there is one.
pub proof fn lemma_segments_unfold(p: Seq<char>)
    ensures
        segments(p) == if file_name(p).len() == 0 {
            closed_segments(p)
        } else {
            closed_segments(p).push(file_name(p))
        },
{
    lemma_dir_len(p);
}

/// Every segment is non-empty and free of separators.
pub proof fn lemma_segments_plain(p: Seq<char>)
    ensures
        forall|i: int|
            0 <= i < segments(p).len() ==> (#[trigger] segments(p)[i]).len() > 0 && forall|j: int|
                0 <= j < segments(p)[i].len() ==> !is_separator(#[trigger] segments(p)[i][j]),
    decreases p.len(),
{
    lemma_dir_len(p);
    let k = dir_len(p) as int;
    if p.len() > 0 {
        if 0 < k {
            lemma_segments_plain(p.take(k - 1));
        }
        let name = p.skip(k);
        assert forall|i: int| 0 <= i < segments(p).len() implies (#[trigger] segments(p)[i]).len()
            > 0 && forall|j: int|
            0 <= j < segments(p)[i].len() ==> !is_separator(#[trigger] segments(p)[i][j]) by {
            if k < p.len() && i == segments(p).len() - 1 {
                assert(segments(p)[i] == name);
                assert forall|j: int| 0 <= j < name.len() implies !is_separator(
                    #[trigger] name[j],
                ) by {
                    assert(name[j] == p[k + j]);
                }
            } else {
                assert(segments(p)[i] == segments(p.take(k - 1))[i]);
            }
        }
    }
}

/// A stack in which every segment is non-empty, free of separators and not
/// the segment `.`.
pub open spec fn is_tidy(stack: Seq<Seq<char>>) -> bool {
    forall|i: int|
        0 <= i < stack.len() ==> (#[trigger] stack[i]).len() > 0 && !is_dot(stack[i]) && forall|
            j: int,
        |
            0 <= j < stack[i].len() ==> !is_separator(#[trigger] stack[i][j])
}

/// Walking the segments of a path over a tidy stack leaves a tidy stack.
pub proof fn lemma_walk_tidy(absolute: bool, stack: Seq<Seq<char>>, segs: Seq<Seq<char>>)
    requires
        is_tidy(stack),
        forall|i: int|
            0 <= i < segs.len() ==> (#[trigger] segs[i]).len() > 0 && forall|j: int|
                0 <= j < segs[i].len() ==> !is_separator(#[trigger] segs[i][j]),
    ensures
        is_tidy(walk(absolute, stack, segs)),
    decreases segs.len(),
{
    if segs.len() > 0 {
        let before = walk(absolute, stack, segs.drop_last());
        assert forall|i: int| 0 <= i < segs.drop_last().len() implies (
        #[trigger] segs.drop_last()[i]).len() > 0 && forall|j: int|
            0 <= j < segs.drop_last()[i].len() ==> !is_separator(
                #[trigger] segs.drop_last()[i][j],
            ) by {
            assert(segs.drop_last()[i] == segs[i]);
        }
        lemma_walk_tidy(absolute, stack, segs.drop_last());
        let seg = segs.last();
        let after = step(absolute, before, seg);
        assert forall|i: int| 0 <= i < after.len() implies (#[trigger] after[i]).len() > 0
            && !is_dot(after[i]) && forall|j: int|
            0 <= j < after[i].len() ==> !is_separator(#[trigger] after[i][j]) by {
            if i < before.len() {
                assert(after[i] == before[i]);
            } else {
                assert(after[i] == seg);
            }
        }
    }
}

/// Pushing a plain name onto a tidy stack renders as the child of what the
/// stack rendered before.
pub proof fn lemma_render_push(absolute: bool, segs: Seq<Seq<char>>, name: Seq<char>)
    requires
        is_tidy(segs),
        is_plain_name(name),
    ensures
        render(absolute, segs.push(name)) == child_of(render(absolute, segs), name),
{
    let pushed = segs.push(name);
    assert(pushed.drop_last() =~= segs);
    assert(pushed.last() == name);
    let p = render(absolute, segs);
    if segs.len() == 0 {
        assert(join(pushed) == name);
        if absolute {
            assert(p =~= seq!['/']);
            assert(p[0] != '.');
            assert(render(absolute, pushed) =~= child_of(p, name));
        } else {
            assert(render(absolute, pushed) =~= child_of(p, name));
        }
    } else {
        assert(join(pushed) == join(segs) + seq!['/'] + name);
        if segs.len() == 1 {
            assert(join(segs) == segs[0]);
            assert(segs[0].len() > 0);
            assert(!is_dot(segs[0]));
            assert(!is_separator(segs[0][0]));
        } else {
            assert(join(segs).len() >= 2);
        }
        if absolute {
            assert(p.len() >= 2);
            assert(render(absolute, pushed) =~= child_of(p, name));
        } else {
            assert(p == join(segs));
            if p.len() == 1 {
                assert(p[0] != '.');
                assert(p[0] != '/');
            }
            assert(render(absolute, pushed) =~= child_of(p, name));
        }
    }
}

/// Following `rel` and then a plain name reaches the child of that name in
/// the directory that `rel` reaches.
pub proof fn lemma_resolved_child(dir: Seq<char>, rel: Seq<char>, name: Seq<char>)
    requires
        is_plain_name(name),
    ensures
        resolved_against(dir, rel + seq!['/'] + name) == child_of(
            resolved_against(dir, rel),
            name,
        ),
{
    let a = is_absolute(dir);
    let base = walk(a, Seq::empty(), segments(dir));
    let segs = segments(rel);
    lemma_segments_append(rel, name);
    lemma_segments_plain(dir);
    lemma_segments_plain(rel);
    lemma_walk_tidy(a, Seq::empty(), segments(dir));
    lemma_walk_tidy(a, base, segs);
    let reached = walk(a, base, segs);
    assert(segs.push(name).drop_last() =~= segs);
    assert(walk(a, base, segs.push(name)) == step(a, reached, name));
    assert(step(a, reached, name) == reached.push(name));
    lemma_render_push(a, reached, name);
}

/// A segment as a walk meets it: not empty and free of separators.
pub open spec fn is_segment(seg: Seq<char>) -> bool {
    seg.len() > 0 && forall|j: int| 0 <= j < seg.len() ==> !is_separator(#[trigger] seg[j])
}

/// A stack in normal form: tidy, with `..` only where nothing can resolve
/// it, which is nowhere in an absolute path and only at the front of a
/// relative one.
pub open spec fn is_normal(absolute: bool, stack: Seq<Seq<char>>) -> bool {
    &&& is_tidy(stack)
    &&& absolute ==> forall|i: int| 0 <= i < stack.len() ==> !is_dotdot(#[trigger] stack[i])
    &&& forall|i: int, j: int|
        0 <= i < j < stack.len() && is_dotdot(#[trigger] stack[j]) ==> is_dotdot(
            #[trigger] stack[i],
        )
}

/// One step keeps a stack in normal form.
pub proof fn lemma_step_normal(absolute: bool, stack: Seq<Seq<char>>, seg: Seq<char>)
    requires
        is_normal(absolute, stack),
        is_segment(seg),
    ensures
        is_normal(absolute, step(absolute, stack, seg)),
{
    let after = step(absolute, stack, seg);
    assert forall|i: int| 0 <= i < after.len() implies (#[trigger] after[i]).len() > 0 && !is_dot(
        after[i],
    ) && forall|j: int| 0 <= j < after[i].len() ==> !is_separator(#[trigger] after[i][j]) by {
        if i < stack.len() {
            assert(after[i] == stack[i]);
        } else {
            assert(after[i] == seg);
        }
    }
    if absolute {
        assert forall|i: int| 0 <= i < after.len() implies !is_dotdot(#[trigger] after[i]) by {
            if i < stack.len() {
                assert(after[i] == stack[i]);
            } else {
                assert(after[i] == seg);
                if is_dotdot(seg) && stack.len() > 0 {
                    assert(!is_dotdot(stack[stack.len() - 1]));
                }
            }
        }
    }
    assert forall|i: int, j: int|
        0 <= i < j < after.len() && is_dotdot(#[trigger] after[j]) implies is_dotdot(
        #[trigger] after[i],
    ) by {
        assert(after[i] == stack[i]);
        if j < stack.len() {
            assert(after[j] == stack[j]);
        } else {
            assert(after[j] == seg);
            assert(is_dotdot(stack[stack.len() - 1]));
            if i < stack.len() - 1 {
                assert(is_dotdot(stack[i]));
            }
        }
    }
}

/// A walk keeps a stack in normal form.
pub proof fn lemma_walk_normal(absolute: bool, stack: Seq<Seq<char>>, segs: Seq<Seq<char>>)
    requires
        is_normal(absolute, stack),
        forall|i: int| 0 <= i < segs.len() ==> is_segment(#[trigger] segs[i]),
    ensures
        is_normal(absolute, walk(absolute, stack, segs)),
    decreases segs.len(),
{
    if segs.len() > 0 {
        assert forall|i: int| 0 <= i < segs.drop_last().len() implies is_segment(
            #[trigger] segs.drop_last()[i],
        ) by {
            assert(segs.drop_last()[i] == segs[i]);
        }
        lemma_walk_normal(absolute, stack, segs.drop_last());
        lemma_step_normal(absolute, walk(absolute, stack, segs.drop_last()), segs.last());
    }
}

/// Walking a stack in normal form from nothing gives the stack back.
pub proof fn lemma_walk_of_normal(absolute: bool, stack: Seq<Seq<char>>)
    requires
        is_normal(absolute, stack),
    ensures
        walk(absolute, Seq::empty(), stack) == stack,
    decreases stack.len(),
{
    if stack.len() > 0 {
        let earlier = stack.drop_last();
        assert forall|i: int| 0 <= i < earlier.len() implies #[trigger] earlier[i] == stack[i] by {}
        assert(is_normal(absolute, earlier));
        lemma_walk_of_normal(absolute, earlier);
        let last = stack.last();
        assert(last == stack[stack.len() - 1]);
        if is_dotdot(last) && earlier.len() > 0 {
            assert(is_dotdot(stack[earlier.len() - 1]));
            assert(earlier.last() == stack[earlier.len() - 1]);
        }
        assert(step(absolute, earlier, last) =~= stack);
    } else {
        assert(stack =~= Seq::<Seq<char>>::empty());
    }
}

/// The segments of a path that a separator and a segment are appended to are
/// the segments of the path followed by that segment.
pub proof fn lemma_segments_append(rel: Seq<char>, seg: Seq<char>)
    requires
        is_segment(seg),
    ensures
        segments(rel + seq!['/'] + seg) == segments(rel).push(seg),
{
    let p = rel + seq!['/'] + seg;
    let k = rel.len() + 1;
    assert(p[k - 1] == '/');
    assert forall|j: int| k <= j < p.len() implies !is_separator(#[trigger] p[j]) by {
        assert(p[j] == seg[j - k]);
    }
    lemma_dir_len_unique(p, k as int);
    assert(p.take(k - 1) =~= rel);
    assert(p.skip(k as int) =~= seg);
}

/// A single segment is the only segment of the path that it spells.
pub proof fn lemma_segments_single(seg: Seq<char>)
    requires
        is_segment(seg),
    ensures
        segments(seg) == seq![seg],
{
    lemma_dir_len_unique(seg, 0);
    assert(seg.skip(0) =~= seg);
    assert(segments(seg) =~= seq![seg]);
}

/// Cutting what a tidy stack joins to gives the stack back.
pub proof fn lemma_segments_of_join(stack: Seq<Seq<char>>)
    requires
        is_tidy(stack),
    ensures
        segments(join(stack)) == stack,
    decreases stack.len(),
{
    if stack.len() == 0 {
        assert(stack =~= Seq::<Seq<char>>::empty());
    } else if stack.len() == 1 {
        assert(is_segment(stack[0]));
        lemma_segments_single(stack[0]);
        assert(stack =~= seq![stack[0]]);
    } else {
        let earlier = stack.drop_last();
        assert forall|i: int| 0 <= i < earlier.len() implies #[trigger] earlier[i] == stack[i] by {}
        assert(is_tidy(earlier));
        lemma_segments_of_join(earlier);
        assert(stack.last() == stack[stack.len() - 1]);
        assert(is_segment(stack.last()));
        lemma_segments_append(join(earlier), stack.last());
        assert(earlier.push(stack.last()) =~= stack);
    }
}

/// A separator before a path adds no segment.
pub proof fn lemma_segments_after_separator(p: Seq<char>)
    ensures
        segments(seq!['/'] + p) == segments(p),
    decreases p.len(),
{
    let q = seq!['/'] + p;
    lemma_dir_len(p);
    let k = dir_len(p) as int;
    let none = Seq::<char>::empty();
    assert(segments(none) == Seq::<Seq<char>>::empty());
    assert(q[0] == '/');
    assert forall|j: int| k + 1 <= j < q.len() implies !is_separator(#[trigger] q[j]) by {
        assert(q[j] == p[j - 1]);
    }
    if k > 0 {
        assert(q[k] == p[k - 1]);
    }
    lemma_dir_len_unique(q, k + 1);
    assert(dir_len(q) == k + 1);
    assert(q.skip(k + 1) =~= p.skip(k));
    let before: Seq<Seq<char>> = if k > 0 {
        segments(p.take(k - 1))
    } else {
        Seq::empty()
    };
    if k > 0 {
        assert(q.take(k) =~= seq!['/'] + p.take(k - 1));
        lemma_segments_after_separator(p.take(k - 1));
        assert(segments(q.take(k)) == before);
    } else {
        assert(q.take(0) =~= none);
        assert(segments(q.take(k)) == before);
    }
    assert(segments(q) == if k + 1 >= q.len() {
        before
    } else {
        before.push(q.skip(k + 1))
    });
    if p.len() == 0 {
        assert(segments(p) == Seq::<Seq<char>>::empty());
    } else {
        assert(segments(p) == if k >= p.len() {
            before
        } else {
            before.push(p.skip(k))
        });
    }
}

/// A path in normal form is its own normal form: rendering a stack in
/// normal form and normalizing what was rendered changes nothing.
pub proof fn lemma_render_is_normal(absolute: bool, stack: Seq<Seq<char>>)
    requires
        is_normal(absolute, stack),
    ensures
        normalized(render(absolute, stack)) == render(absolute, stack),
{
    let p = render(absolute, stack);
    lemma_walk_of_normal(absolute, stack);
    if absolute {
        assert(p[0] == '/');
        lemma_segments_after_separator(join(stack));
        lemma_segments_of_join(stack);
    } else if stack.len() == 0 {
        assert(p =~= seq!['.']);
        assert(is_segment(p));
        lemma_segments_single(p);
        assert(seq![p].drop_last() =~= Seq::<Seq<char>>::empty());
        assert(walk(false, Seq::empty(), seq![p]) == step(false, Seq::empty(), p));
        assert(stack =~= Seq::<Seq<char>>::empty());
    } else {
        lemma_segments_of_join(stack);
        assert(stack[0].len() > 0);
        assert(!is_separator(stack[0][0]));
        lemma_join_starts(stack);
    }
}

/// What a non-empty stack joins to begins like its first segment.
pub proof fn lemma_join_starts(stack: Seq<Seq<char>>)
    requires
        stack.len() > 0,
        stack[0].len() > 0,
    ensures
        join(stack).len() > 0,
        join(stack)[0] == stack[0][0],
    decreases stack.len(),
{
    if stack.len() > 1 {
        let earlier = stack.drop_last();
        assert(earlier[0] == stack[0]);
        lemma_join_starts(earlier);
    }
}

/// Normalizing twice is normalizing once.
pub proof fn lemma_normalize_idempotent(p: Seq<char>)
    ensures
        normalized(normalized(p)) == normalized(p),
{
    let a = is_absolute(p);
    lemma_segments_plain(p);
    lemma_walk_normal(a, Seq::empty(), segments(p));
    lemma_render_is_normal(a, walk(a, Seq::empty(), segments(p)));
}

/// What a relative request resolves to is in normal form: normalizing it
/// changes nothing, so one file has one key however the request spells it.
pub proof fn lemma_resolved_is_normal(dir: Seq<char>, rel: Seq<char>)
    ensures
        normalized(resolved_against(dir, rel)) == resolved_against(dir, rel),
{
    let a = is_absolute(dir);
    lemma_segments_plain(dir);
    lemma_segments_plain(rel);
    lemma_walk_normal(a, Seq::empty(), segments(dir));
    lemma_walk_normal(a, walk(a, Seq::empty(), segments(dir)), segments(rel));
    lemma_render_is_normal(a, walk(a, walk(a, Seq::empty(), segments(dir)), segments(rel)));
}

/// Whether `c` separates segments.
fn is_sep(c: char) -> (yes: bool)
    ensures
        yes == is_separator(c),
{
    c == '/' || c == '\\'
}

/// Length of the directory prefix of `p`.
pub(crate) fn parent_len(p: &Vec<char>) -> (k: usize)
    ensures
        k == dir_len(p@),
        k <= p.len(),
{
    let mut i: usize = p.len();
    while i > 0
        invariant
            i <= p.len(),
            forall|j: int| i <= j < p.len() ==> !is_separator(#[trigger] p@[j]),
        decreases i,
    {
        if is_sep(p[i - 1]) {
            proof {
                lemma_dir_len_unique(p@, i as int);
            }
            return i;
        }
        i -= 1;
    }
    proof {
        lemma_dir_len_unique(p@, 0);
    }
    0
}

/// Applies one segment to the stack.
fn apply_segment(absolute: bool, stack: &mut Vec<Vec<char>>, seg: Vec<char>)
    ensures
        seg_views(final(stack)@) == step(absolute, seg_views(old(stack)@), seg@),
{
    let n = stack.len();
    if seg.len() == 1 && seg[0] == '.' {
    } else if seg.len() == 2 && seg[0] == '.' && seg[1] == '.' {
        let top_is_dotdot = n > 0 && stack[n - 1].len() == 2 && stack[n - 1][0] == '.' && stack[n
            - 1][1] == '.';
        if n > 0 && !top_is_dotdot {
            stack.pop();
            assert(seg_views(stack@) =~= seg_views(old(stack)@).drop_last());
        } else if absolute {
        } else {
            stack.push(seg);
            assert(seg_views(stack@) =~= seg_views(old(stack)@).push(seg@));
        }
    } else {
        stack.push(seg);
        assert(seg_views(stack@) =~= seg_views(old(stack)@).push(seg@));
    }
}

/// Walks the segments of `p` over `stack`.
fn walk_path(absolute: bool, stack: Vec<Vec<char>>, p: &Vec<char>) -> (out: Vec<Vec<char>>)
    ensures
        seg_views(out@) == walk(absolute, seg_views(stack@), segments(p@)),
{
    let mut out = stack;
    let mut cur: Vec<char> = Vec::new();
    let mut i: usize = 0;
    while i < p.len()
        invariant
            i <= p.len(),
            seg_views(out@) == walk(
                absolute,
                seg_views(stack@),
                closed_segments(p@.take(i as int)),
            ),
            cur@ == file_name(p@.take(i as int)),
        decreases p.len() - i,
    {
        let c = p[i];
        proof {
            let q = p@.take(i as int);
            assert(p@.take(i + 1) =~= q.push(c));
            lemma_dir_len_push(q, c);
            lemma_dir_len(q);
            lemma_segments_unfold(q);
            if is_separator(c) {
                assert(q.push(c).take(i as int) =~= q);
                assert(file_name(q.push(c)) =~= Seq::<char>::empty());
                assert(closed_segments(q.push(c)) == segments(q));
                if cur@.len() > 0 {
                    let cs = closed_segments(q);
                    assert(cs.push(cur@).drop_last() =~= cs);
                }
            } else {
                let k = dir_len(q) as int;
                assert(file_name(q.push(c)) =~= file_name(q).push(c));
                if 0 < k {
                    assert(q.push(c).take(k - 1) =~= q.take(k - 1));
                }
            }
        }
        if is_sep(c) {
            if cur.len() > 0 {
                apply_segment(absolute, &mut out, cur);
            }
            cur = Vec::new();
        } else {
            cur.push(c);
        }
        i += 1;
    }
    proof {
        assert(p@.take(p.len() as int) =~= p@);
        lemma_segments_unfold(p@);
        if cur@.len() > 0 {
            let cs = closed_segments(p@);
            assert(cs.push(cur@).drop_last() =~= cs);
        }
    }
    if cur.len() > 0 {
        apply_segment(absolute, &mut out, cur);
    }
    out
}

/// Writes a stack of segments out as a path.
fn render_path(absolute: bool, segs: &Vec<Vec<char>>) -> (out: Vec<char>)
    ensures
        out@ == render(absolute, seg_views(segs@)),
{
    let mut out: Vec<char> = Vec::new();
    if absolute {
        out.push('/');
    } else if segs.len() == 0 {
        out.push('.');
        assert(out@ =~= seq!['.']);
        return out;
    }
    let ghost lead: Seq<char> = out@;
    let ghost views = seg_views(segs@);
    let mut i: usize = 0;
    while i < segs.len()
        invariant
            i <= segs.len(),
            views == seg_views(segs@),
            out@ == lead + join(views.take(i as int)),
        decreases segs.len() - i,
    {
        if i > 0 {
            out.push('/');
        }
        let seg = &segs[i];
        let ghost before = out@;
        let mut j: usize = 0;
        while j < seg.len()
            invariant
                j <= seg.len(),
                out@ == before + seg@.take(j as int),
            decreases seg.len() - j,
        {
            out.push(seg[j]);
            j += 1;
            assert(out@ =~= before + seg@.take(j as int));
        }
        proof {
            assert(seg@.take(seg.len() as int) =~= seg@);
            let t = views.take(i + 1);
            assert(t.drop_last() =~= views.take(i as int));
            assert(t.last() == seg@);
            if i == 0 {
                assert(views.take(0).len() == 0);
                assert(out@ =~= lead + join(t));
            } else {
                assert(out@ =~= lead + join(t));
            }
        }
        i += 1;
    }
    proof {
        assert(views.take(segs.len() as int) =~= views);
        if absolute {
            assert(lead =~= seq!['/']);
        } else {
            assert(lead =~= Seq::<char>::empty());
            assert(out@ =~= join(views));
        }
    }
    out
}

/// Normalizes `p` lexically.
pub fn normalize(p: &str) -> (out: String)
    ensures
        out@ == normalized(p@),
{
    let chars = to_chars(p);
    let absolute = chars.len() > 0 && is_sep(chars[0]);
    let stack = walk_path(absolute, Vec::new(), &chars);
    proof {
        assert(seg_views(Seq::<Vec<char>>::empty()) =~= Seq::<Seq<char>>::empty());
    }
    let rendered = render_path(absolute, &stack);
    from_chars(&rendered)
}

/// Follows `rel` from the directory `dir` and normalizes the result; whether
/// the result is absolute is decided by `dir` alone.
pub fn resolve_against(dir: &str, rel: &str) -> (out: String)
    ensures
        out@ == resolved_against(dir@, rel@),
{
    let d = to_chars(dir);
    let r = to_chars(rel);
    let absolute = d.len() > 0 && is_sep(d[0]);
    proof {
        assert(seg_views(Seq::<Vec<char>>::empty()) =~= Seq::<Seq<char>>::empty());
    }
    let base = walk_path(absolute, Vec::new(), &d);
    let stack = walk_path(absolute, base, &r);
    let rendered = render_path(absolute, &stack);
    from_chars(&rendered)
}

/// The parent directory of `p`, when `p` splits into a parent and a name.
pub fn parent_of(p: &str) -> (out: Option<String>)
    ensures
        out is Some <==> has_file_name(p@),
        out matches Some(dir) ==> dir@ == parent_dir(p@),
{
    let chars = to_chars(p);
    let k = parent_len(&chars);
    if k == chars.len() {
        return None;
    }
    let end = if k <= 1 {
        k
    } else {
        k - 1
    };
    let dir = p.substring_char(0, end);
    proof {
        assert(p@.subrange(0, end as int) =~= p@.take(end as int));
    }
    Some(String::from_str(dir))
}

/// The directory prefix of `p`, trailing separator included, when `p` splits
/// into a parent and a name.
pub fn directory_of(p: &str) -> (out: Option<String>)
    ensures
        out is Some <==> has_file_name(p@),
        out matches Some(dir) ==> dir@ == dir_prefix(p@),
{
    let chars = to_chars(p);
    let k = parent_len(&chars);
    if k == chars.len() {
        return None;
    }
    let dir = p.substring_char(0, k);
    proof {
        assert(p@.subrange(0, k as int) =~= p@.take(k as int));
    }
    Some(String::from_str(dir))
}

/// The name of `p`: what follows its last separator.
pub fn name_of(p: &str) -> (out: String)
    ensures
        out@ == file_name(p@),
{
    let chars = to_chars(p);
    let k = parent_len(&chars);
    let name = p.substring_char(k, chars.len());
    proof {
        assert(p@.subrange(k as int, p@.len() as int) =~= p@.skip(k as int));
    }
    String::from_str(name)
}

/// The entry `name` inside the directory with normalized path `p`.
pub fn child_path(p: &str, name: &str) -> (out: String)
    ensures
        out@ == child_of(p@, name@),
{
    let chars = to_chars(p);
    if chars.len() == 1 && chars[0] == '.' {
        assert(p@ =~= seq!['.']);
        String::from_str(name)
    } else if chars.len() == 1 && chars[0] == '/' {
        assert(p@ =~= seq!['/']);
        let mut out = String::from_str(p);
        out.append(name);
        out
    } else {
        let mut out = String::from_str(p);
        out.push('/');
        out.append(name);
        proof {
            assert(out@ =~= p@ + seq!['/'] + name@);
            if p@ =~= seq!['.'] {
                assert(chars@[0] == '.');
            }
            if p@ =~= seq!['/'] {
                assert(chars@[0] == '/');
            }
        }
        out
    }
}

} // verus!
