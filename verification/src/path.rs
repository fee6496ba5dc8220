//! Path segments: one drawing command (a case-sensitive letter of the
//! standard path mini-language) with its fixed-arity integer operands,
//! and the compacted serialization of a segment list into the `d`
//! attribute.

use vstd::prelude::*;

verus! {

/// The mathematical view of one path segment.
pub struct SegView {
    pub cmd: Seq<char>,
    pub coords: Seq<i64>,
}

/// One path drawing command with its operands.
#[derive(Debug, Clone)]
pub struct PathSegment {
    pub command: String,
    pub coords: Vec<i64>,
}

impl View for PathSegment {
    type V = SegView;

    closed spec fn view(&self) -> SegView {
        SegView { cmd: self.command@, coords: self.coords@ }
    }
}

/// The coordinates of one segment joined by single spaces.
pub open spec fn coords_str(cs: Seq<i64>) -> Seq<char>
    decreases cs.len(),
{
    if cs.len() == 0 {
        Seq::empty()
    } else if cs.len() == 1 {
        int_str(cs[0] as int)
    } else {
        coords_str(cs.drop_last()) + " "@ + int_str(cs.last() as int)
    }
}

/// One step of the compacted rendering: how `acc` grows when the next
/// segment follows one whose command was `last`. A repeated command
/// letter is omitted and the coordinates are joined on with a single
/// space; a new letter is appended directly (after a separating space
/// when something has been emitted already), followed by its
/// coordinates.
pub open spec fn path_str_step(acc: Seq<char>, last: Seq<char>, s: SegView) -> Seq<char> {
    if s.cmd == last {
        acc + " "@ + coords_str(s.coords)
    } else {
        (if acc.len() > 0 {
            acc + " "@
        } else {
            acc
        }) + s.cmd + coords_str(s.coords)
    }
}

/// The compacted rendering of the remaining segments, given what has
/// been emitted so far and the previous command letter.
pub open spec fn path_str_from(segs: Seq<SegView>, last: Seq<char>, acc: Seq<char>) -> Seq<char>
    decreases segs.len(),
{
    if segs.len() == 0 {
        acc
    } else {
        path_str_from(segs.drop_first(), segs[0].cmd, path_str_step(acc, last, segs[0]))
    }
}

/// The compacted rendering of a whole segment list.
pub open spec fn path_str(segs: Seq<SegView>) -> Seq<char> {
    path_str_from(segs, Seq::empty(), Seq::empty())
}

use crate::attrs::attr_set;
use crate::attrs::set_key;
use crate::element::child_added;
use crate::element::Element;
use crate::element::ElemView;
use crate::element::new_elem;
use crate::element::with_attr;
use crate::numfmt::dec_str;
use crate::numfmt::int_str;
use crate::numfmt::i64_to_string;
use crate::numfmt::u128_to_string;

/// The segment list of an element, empty when the element has no path
/// data yet.
pub open spec fn segs_of(e: ElemView) -> Seq<SegView> {
    match e.segs {
        Option::None => Seq::empty(),
        Option::Some(s) => s,
    }
}

/// The element after one segment is appended: the segment list grows
/// by one, and the `d` attribute is re-rendered when this is the very
/// first segment or when eager re-rendering is switched on.
pub open spec fn seg_appended(e: ElemView, cmd: Seq<char>, coords: Seq<i64>) -> ElemView {
    let ns = segs_of(e).push(SegView { cmd, coords });
    let e1 = ElemView { segs: Option::Some(ns), ..e };
    if ns.len() == 1 || e.auto_redraw {
        ElemView { attrs: set_key(e1.attrs, "d"@, path_str(ns)), ..e1 }
    } else {
        e1
    }
}

/// The element with its `d` attribute re-rendered from its segments.
pub open spec fn redrawn(e: ElemView) -> ElemView {
    ElemView { attrs: set_key(e.attrs, "d"@, path_str(segs_of(e))), ..e }
}

/// The element after the segment at `i` is removed: a no-op when the
/// index is out of range, else the shorter list re-rendered into `d`.
pub open spec fn seg_removed(e: ElemView, i: int) -> ElemView {
    match e.segs {
        Option::Some(s) => if 0 <= i < s.len() {
            redrawn(ElemView { segs: Option::Some(s.remove(i)), ..e })
        } else {
            e
        },
        Option::None => e,
    }
}

/// The element after the segment at `i` is replaced: a no-op when the
/// index is out of range, else the new list re-rendered into `d`.
pub open spec fn seg_replaced(e: ElemView, i: int, s2: SegView) -> ElemView {
    match e.segs {
        Option::Some(s) => if 0 <= i < s.len() {
            redrawn(ElemView { segs: Option::Some(s.update(i, s2)), ..e })
        } else {
            e
        },
        Option::None => e,
    }
}

/// The element with its segment list emptied (where one exists) and
/// its `d` attribute reset to the empty string.
pub open spec fn path_cleared(e: ElemView) -> ElemView {
    ElemView {
        segs: match e.segs {
            Option::None => Option::None,
            Option::Some(_) => Option::Some(Seq::empty()),
        },
        attrs: set_key(e.attrs, "d"@, ""@),
        ..e
    }
}

/// Two consecutive segments sharing one command letter compact into a
/// single letter followed by both coordinate lists, space-joined.
pub proof fn lemma_path_str_pair_same(s1: SegView, s2: SegView)
    requires
        s2.cmd == s1.cmd,
        s1.cmd.len() > 0,
    ensures
        path_str(seq![s1, s2]) == s1.cmd + coords_str(s1.coords) + " "@ + coords_str(s2.coords),
{
    let ss = seq![s1, s2];
    let a1 = path_str_step(Seq::empty(), Seq::empty(), s1);
    let a2 = path_str_step(a1, s1.cmd, s2);
    assert(ss[0] == s1);
    assert(ss.drop_first() =~= seq![s2]);
    assert(seq![s2][0] == s2);
    assert(seq![s2].drop_first() =~= Seq::<SegView>::empty());
    assert(path_str_from(Seq::<SegView>::empty(), s2.cmd, a2) == a2);
    assert(path_str_from(seq![s2], s1.cmd, a1) == a2);
    assert(path_str(ss) == a2);
    assert(a1 =~= s1.cmd + coords_str(s1.coords));
    assert(a2 =~= s1.cmd + coords_str(s1.coords) + " "@ + coords_str(s2.coords));
}

/// Three consecutive segments whose neighbours differ in command
/// letter keep each letter, the pieces separated by single spaces.
pub proof fn lemma_path_str_triple_distinct(s1: SegView, s2: SegView, s3: SegView)
    requires
        s1.cmd.len() > 0,
        s2.cmd != s1.cmd,
        s3.cmd != s2.cmd,
    ensures
        path_str(seq![s1, s2, s3]) == s1.cmd + coords_str(s1.coords) + " "@ + s2.cmd + coords_str(
            s2.coords,
        ) + " "@ + s3.cmd + coords_str(s3.coords),
{
    let ss = seq![s1, s2, s3];
    let a1 = path_str_step(Seq::empty(), Seq::empty(), s1);
    let a2 = path_str_step(a1, s1.cmd, s2);
    let a3 = path_str_step(a2, s2.cmd, s3);
    assert(ss[0] == s1);
    assert(ss.drop_first() =~= seq![s2, s3]);
    assert(seq![s2, s3][0] == s2);
    assert(seq![s2, s3].drop_first() =~= seq![s3]);
    assert(seq![s3][0] == s3);
    assert(seq![s3].drop_first() =~= Seq::<SegView>::empty());
    assert(path_str_from(Seq::<SegView>::empty(), s3.cmd, a3) == a3);
    assert(path_str_from(seq![s3], s2.cmd, a2) == a3);
    assert(path_str_from(seq![s2, s3], s1.cmd, a1) == a3);
    assert(path_str(ss) == a3);
    assert(a1 =~= s1.cmd + coords_str(s1.coords));
    assert(a1.len() > 0);
    assert(a2 =~= s1.cmd + coords_str(s1.coords) + " "@ + s2.cmd + coords_str(s2.coords));
    assert(a2.len() > 0);
    assert(a3 =~= s1.cmd + coords_str(s1.coords) + " "@ + s2.cmd + coords_str(s2.coords) + " "@
        + s3.cmd + coords_str(s3.coords));
}

/// Removing a segment at a valid index shortens the list by exactly
/// one and re-renders the `d` attribute to the compacted rendering of
/// the remaining segments; at an invalid index, and on an element
/// without path data, nothing changes.
pub proof fn lemma_remove_segment_effect(e: ElemView, i: int)
    ensures
        (e.segs is Some && 0 <= i < segs_of(e).len()) ==> {
            let e2 = seg_removed(e, i);
            &&& segs_of(e2).len() == segs_of(e).len() - 1
            &&& segs_of(e2) == segs_of(e).remove(i)
            &&& crate::attrs::get_key(e2.attrs, "d"@) == Some(path_str(segs_of(e).remove(i)))
            &&& e2.tag == e.tag
            &&& e2.children == e.children
        },
        !(e.segs is Some && 0 <= i < segs_of(e).len()) ==> seg_removed(e, i) == e,
{
    if e.segs is Some && 0 <= i < segs_of(e).len() {
        let e2 = seg_removed(e, i);
        crate::attrs::lemma_set_key_get(
            ElemView { segs: Option::Some(segs_of(e).remove(i)), ..e }.attrs,
            "d"@,
            path_str(segs_of(e).remove(i)),
        );
    }
}

/// Renders the coordinates of one segment, space-separated.
pub(crate) fn render_coords(cs: &Vec<i64>) -> (r: String)
    ensures
        r@ == coords_str(cs@),
{
    let mut out = String::new();
    let mut i: usize = 0;
    while i < cs.len()
        invariant
            i <= cs.len(),
            out@ == coords_str(cs@.take(i as int)),
        decreases cs.len() - i,
    {
        if i > 0 {
            out.append(" ");
        }
        let n = i64_to_string(cs[i]);
        out.append(n.as_str());
        proof {
            assert(cs@.take(i as int + 1).drop_last() =~= cs@.take(i as int));
            assert(cs@.take(i as int + 1).last() == cs@[i as int]);
            if i == 0 {
                assert(coords_str(cs@.take(1)) == int_str(cs@[0] as int));
                assert(Seq::<char>::empty() + int_str(cs@[0] as int) =~= int_str(cs@[0] as int));
            }
        }
        i = i + 1;
    }
    proof {
        assert(cs@.take(cs.len() as int) =~= cs@);
    }
    out
}

#[allow(non_snake_case)]
impl Element {
    /// Renders the compacted path data of this element's segments; an
    /// element without path data renders as the empty string.
    fn build_path_string(&self) -> (r: String)
        ensures
            r@ == path_str(segs_of(self@)),
    {
        broadcast use crate::element::lemma_view_unfold;

        match &self.path_segments {
            Option::None => String::new(),
            Option::Some(v) => {
                let ghost sv = segs_of(self@);
                let mut out = String::new();
                let mut last = String::new();
                proof {
                    assert(sv.skip(0) =~= sv);
                }
                let mut i: usize = 0;
                while i < v.len()
                    invariant
                        i <= v.len(),
                        sv == v@.map_values(|s: PathSegment| s@),
                        sv.len() == v.len(),
                        path_str_from(sv.skip(i as int), last@, out@) == path_str(sv),
                    decreases v.len() - i,
                {
                    proof {
                        assert(sv.skip(i as int)[0] == sv[i as int]);
                        assert(sv.skip(i as int).drop_first() =~= sv.skip(i as int + 1));
                    }
                    let seg = &v[i];
                    let cs = render_coords(&seg.coords);
                    let ghost out0 = out@;
                    if seg.command == last {
                        out.append(" ");
                        out.append(cs.as_str());
                    } else {
                        if !out.as_str().is_empty() {
                            out.append(" ");
                        }
                        out.append(seg.command.as_str());
                        out.append(cs.as_str());
                    }
                    proof {
                        assert(out@ =~= path_str_step(out0, last@, sv[i as int]));
                    }
                    last = seg.command.clone();
                    i = i + 1;
                }
                proof {
                    assert(sv.skip(v.len() as int) =~= Seq::<SegView>::empty());
                }
                out
            },
        }
    }

    /// Appends one segment, re-rendering the `d` attribute when this
    /// is the first segment or eager re-rendering is on.
    fn add_segment(&mut self, command: &str, coords: Vec<i64>) -> (r: &mut Element)
        ensures
            r@ == seg_appended(old(self)@, command@, coords@),
            *final(self) == *final(r),
    {
        let seg = PathSegment { command: command.to_owned(), coords };
        broadcast use crate::element::lemma_view_unfold;

        let mut v: Vec<PathSegment> = match self.path_segments.take() {
            Option::Some(v) => v,
            Option::None => Vec::new(),
        };
        v.push(seg);
        let first = v.len() == 1;
        proof {
            assert(v@.map_values(|s: PathSegment| s@) =~= segs_of(old(self)@).push(
                SegView { cmd: command@, coords: coords@ },
            ));
        }
        self.path_segments = Option::Some(v);
        if first || self.auto_redraw {
            let d = self.build_path_string();
            attr_set(&mut self.attrs, "d", d.as_str());
        }
        self
    }

    /// Move to an absolute position.
    pub fn M(&mut self, x: i64, y: i64) -> (r: &mut Element)
        ensures
            r@ == seg_appended(old(self)@, "M"@, seq![x, y]),
            *final(self) == *final(r),
    {
        self.add_segment("M", vec![x, y])
    }

    /// Move by a relative offset.
    pub fn m(&mut self, dx: i64, dy: i64) -> (r: &mut Element)
        ensures
            r@ == seg_appended(old(self)@, "m"@, seq![dx, dy]),
            *final(self) == *final(r),
    {
        self.add_segment("m", vec![dx, dy])
    }

    /// Line to an absolute position.
    pub fn L(&mut self, x: i64, y: i64) -> (r: &mut Element)
        ensures
            r@ == seg_appended(old(self)@, "L"@, seq![x, y]),
            *final(self) == *final(r),
    {
        self.add_segment("L", vec![x, y])
    }

    /// Line by a relative offset.
    pub fn l(&mut self, dx: i64, dy: i64) -> (r: &mut Element)
        ensures
            r@ == seg_appended(old(self)@, "l"@, seq![dx, dy]),
            *final(self) == *final(r),
    {
        self.add_segment("l", vec![dx, dy])
    }

    /// Horizontal line to an absolute x.
    pub fn H(&mut self, x: i64) -> (r: &mut Element)
        ensures
            r@ == seg_appended(old(self)@, "H"@, seq![x]),
            *final(self) == *final(r),
    {
        let mut c: Vec<i64> = Vec::new();
        c.push(x);
        proof {
            assert(c@ =~= seq![x]);
        }
        self.add_segment("H", c)
    }

    /// Horizontal line by a relative offset.
    pub fn h(&mut self, dx: i64) -> (r: &mut Element)
        ensures
            r@ == seg_appended(old(self)@, "h"@, seq![dx]),
            *final(self) == *final(r),
    {
        let mut c: Vec<i64> = Vec::new();
        c.push(dx);
        proof {
            assert(c@ =~= seq![dx]);
        }
        self.add_segment("h", c)
    }

    /// Vertical line to an absolute y.
    pub fn V(&mut self, y: i64) -> (r: &mut Element)
        ensures
            r@ == seg_appended(old(self)@, "V"@, seq![y]),
            *final(self) == *final(r),
    {
        let mut c: Vec<i64> = Vec::new();
        c.push(y);
        proof {
            assert(c@ =~= seq![y]);
        }
        self.add_segment("V", c)
    }

    /// Vertical line by a relative offset.
    pub fn v(&mut self, dy: i64) -> (r: &mut Element)
        ensures
            r@ == seg_appended(old(self)@, "v"@, seq![dy]),
            *final(self) == *final(r),
    {
        let mut c: Vec<i64> = Vec::new();
        c.push(dy);
        proof {
            assert(c@ =~= seq![dy]);
        }
        self.add_segment("v", c)
    }

    /// Cubic Bezier curve to an absolute position.
    pub fn C(&mut self, c1x: i64, c1y: i64, c2x: i64, c2y: i64, x: i64, y: i64) -> (r:
        &mut Element)
        ensures
            r@ == seg_appended(old(self)@, "C"@, seq![c1x, c1y, c2x, c2y, x, y]),
            *final(self) == *final(r),
    {
        self.add_segment("C", vec![c1x, c1y, c2x, c2y, x, y])
    }

    /// Cubic Bezier curve by relative offsets.
    pub fn c(&mut self, dc1x: i64, dc1y: i64, dc2x: i64, dc2y: i64, dx: i64, dy: i64) -> (r:
        &mut Element)
        ensures
            r@ == seg_appended(old(self)@, "c"@, seq![dc1x, dc1y, dc2x, dc2y, dx, dy]),
            *final(self) == *final(r),
    {
        self.add_segment("c", vec![dc1x, dc1y, dc2x, dc2y, dx, dy])
    }

    /// Smooth cubic Bezier curve to an absolute position.
    pub fn S(&mut self, c2x: i64, c2y: i64, x: i64, y: i64) -> (r: &mut Element)
        ensures
            r@ == seg_appended(old(self)@, "S"@, seq![c2x, c2y, x, y]),
            *final(self) == *final(r),
    {
        self.add_segment("S", vec![c2x, c2y, x, y])
    }

    /// Smooth cubic Bezier curve by relative offsets.
    pub fn s(&mut self, dc2x: i64, dc2y: i64, dx: i64, dy: i64) -> (r: &mut Element)
        ensures
            r@ == seg_appended(old(self)@, "s"@, seq![dc2x, dc2y, dx, dy]),
            *final(self) == *final(r),
    {
        self.add_segment("s", vec![dc2x, dc2y, dx, dy])
    }

    /// Quadratic Bezier curve to an absolute position.
    pub fn Q(&mut self, cx: i64, cy: i64, x: i64, y: i64) -> (r: &mut Element)
        ensures
            r@ == seg_appended(old(self)@, "Q"@, seq![cx, cy, x, y]),
            *final(self) == *final(r),
    {
        self.add_segment("Q", vec![cx, cy, x, y])
    }

    /// Quadratic Bezier curve by relative offsets.
    pub fn q(&mut self, dcx: i64, dcy: i64, dx: i64, dy: i64) -> (r: &mut Element)
        ensures
            r@ == seg_appended(old(self)@, "q"@, seq![dcx, dcy, dx, dy]),
            *final(self) == *final(r),
    {
        self.add_segment("q", vec![dcx, dcy, dx, dy])
    }

    /// Smooth quadratic Bezier curve to an absolute position.
    pub fn T(&mut self, x: i64, y: i64) -> (r: &mut Element)
        ensures
            r@ == seg_appended(old(self)@, "T"@, seq![x, y]),
            *final(self) == *final(r),
    {
        self.add_segment("T", vec![x, y])
    }

    /// Smooth quadratic Bezier curve by relative offsets.
    pub fn t(&mut self, dx: i64, dy: i64) -> (r: &mut Element)
        ensures
            r@ == seg_appended(old(self)@, "t"@, seq![dx, dy]),
            *final(self) == *final(r),
    {
        self.add_segment("t", vec![dx, dy])
    }

    /// Elliptical arc to an absolute position. The two flags are
    /// conceptually 0 or 1 but are not range-checked, as the caller is
    /// responsible for geometrically sensible arguments.
    pub fn A(
        &mut self,
        rx: i64,
        ry: i64,
        x_axis_rotation: i64,
        large_arc_flag: i32,
        sweep_flag: i32,
        x: i64,
        y: i64,
    ) -> (r: &mut Element)
        ensures
            r@ == seg_appended(
                old(self)@,
                "A"@,
                seq![
                    rx,
                    ry,
                    x_axis_rotation,
                    large_arc_flag as i64,
                    sweep_flag as i64,
                    x,
                    y,
                ],
            ),
            *final(self) == *final(r),
    {
        self.add_segment(
            "A",
            vec![rx, ry, x_axis_rotation, large_arc_flag as i64, sweep_flag as i64, x, y],
        )
    }

    /// Elliptical arc by relative offsets.
    pub fn a(
        &mut self,
        rx: i64,
        ry: i64,
        x_axis_rotation: i64,
        large_arc_flag: i32,
        sweep_flag: i32,
        dx: i64,
        dy: i64,
    ) -> (r: &mut Element)
        ensures
            r@ == seg_appended(
                old(self)@,
                "a"@,
                seq![
                    rx,
                    ry,
                    x_axis_rotation,
                    large_arc_flag as i64,
                    sweep_flag as i64,
                    dx,
                    dy,
                ],
            ),
            *final(self) == *final(r),
    {
        self.add_segment(
            "a",
            vec![rx, ry, x_axis_rotation, large_arc_flag as i64, sweep_flag as i64, dx, dy],
        )
    }

    /// Close the current subpath.
    pub fn Z(&mut self) -> (r: &mut Element)
        ensures
            r@ == seg_appended(old(self)@, "Z"@, Seq::empty()),
            *final(self) == *final(r),
    {
        let c: Vec<i64> = Vec::new();
        proof {
            assert(c@ =~= Seq::<i64>::empty());
        }
        self.add_segment("Z", c)
    }

    /// Empties the segment list and resets the `d` attribute.
    pub fn clear_path(&mut self) -> (r: &mut Element)
        ensures
            r@ == path_cleared(old(self)@),
            *final(self) == *final(r),
    {
        broadcast use crate::element::lemma_view_unfold;

        match self.path_segments.take() {
            Option::Some(mut v) => {
                v.clear();
                proof {
                    assert(v@.map_values(|s: PathSegment| s@) =~= Seq::<SegView>::empty());
                }
                self.path_segments = Option::Some(v);
            },
            Option::None => {},
        }
        attr_set(&mut self.attrs, "d", "");
        self
    }

    /// The number of accumulated segments.
    pub fn get_segment_count(&self) -> (r: usize)
        ensures
            r == segs_of(self@).len(),
    {
        broadcast use crate::element::lemma_view_unfold;

        match &self.path_segments {
            Option::None => 0,
            Option::Some(v) => v.len(),
        }
    }

    /// The segment at an index, absent when the index is out of range.
    pub fn get_segment(&self, index: usize) -> (r: Option<&PathSegment>)
        ensures
            match r {
                Option::Some(s) => index < segs_of(self@).len() && s@ == segs_of(self@)[index as int],
                Option::None => index >= segs_of(self@).len(),
            },
    {
        broadcast use crate::element::lemma_view_unfold;

        match &self.path_segments {
            Option::None => Option::None,
            Option::Some(v) => {
                if index < v.len() {
                    Option::Some(&v[index])
                } else {
                    Option::None
                }
            },
        }
    }

    /// Removes the segment at an index and re-renders the `d`
    /// attribute; a no-op when the index is out of range.
    pub fn remove_segment(&mut self, index: usize) -> (r: &mut Element)
        ensures
            r@ == seg_removed(old(self)@, index as int),
            *final(self) == *final(r),
    {
        broadcast use crate::element::lemma_view_unfold;

        match self.path_segments.take() {
            Option::None => {},
            Option::Some(mut v) => {
                if index < v.len() {
                    v.remove(index);
                    proof {
                        assert(v@.map_values(|s: PathSegment| s@) =~= segs_of(old(self)@).remove(
                            index as int,
                        ));
                    }
                    self.path_segments = Option::Some(v);
                    let d = self.build_path_string();
                    attr_set(&mut self.attrs, "d", d.as_str());
                } else {
                    self.path_segments = Option::Some(v);
                }
            },
        }
        self
    }

    /// Replaces the segment at an index and re-renders the `d`
    /// attribute; a no-op when the index is out of range.
    pub fn replace_segment(&mut self, index: usize, segment: PathSegment) -> (r: &mut Element)
        ensures
            r@ == seg_replaced(old(self)@, index as int, segment@),
            *final(self) == *final(r),
    {
        broadcast use crate::element::lemma_view_unfold;

        match self.path_segments.take() {
            Option::None => {},
            Option::Some(mut v) => {
                if index < v.len() {
                    let ghost s2 = segment@;
                    v.set(index, segment);
                    proof {
                        assert(v@.map_values(|s: PathSegment| s@) =~= segs_of(old(self)@).update(
                            index as int,
                            s2,
                        ));
                    }
                    self.path_segments = Option::Some(v);
                    let d = self.build_path_string();
                    attr_set(&mut self.attrs, "d", d.as_str());
                } else {
                    self.path_segments = Option::Some(v);
                }
            },
        }
        self
    }

    /// Re-renders the `d` attribute from the current segments.
    pub fn redraw(&mut self) -> (r: &mut Element)
        ensures
            r@ == redrawn(old(self)@),
            *final(self) == *final(r),
    {
        broadcast use crate::element::lemma_view_unfold;

        let d = self.build_path_string();
        attr_set(&mut self.attrs, "d", d.as_str());
        self
    }

    /// Switches eager re-rendering on or off: when off, appends after
    /// the first segment batch without refreshing the `d` attribute
    /// until `redraw` or a mutating segment operation runs.
    pub fn update(&mut self, auto_redraw: bool) -> (r: &mut Element)
        ensures
            r@ == (ElemView { auto_redraw: auto_redraw, ..old(self)@ }),
            *final(self) == *final(r),
    {
        broadcast use crate::element::lemma_view_unfold;

        self.auto_redraw = auto_redraw;
        self
    }

    /// A rough path length: one hundred units for each segment.
    fn calculate_path_length(&self) -> (r: u128)
        ensures
            r == segs_of(self@).len() * 100,
    {
        broadcast use crate::element::lemma_view_unfold;

        match &self.path_segments {
            Option::None => 0,
            Option::Some(v) => (v.len() as u128) * 100,
        }
    }

    /// Prepares a drawing animation: sets the stroke dash pattern and
    /// offset from the approximate path length and animates the offset
    /// down to zero over the given duration. The delay and easing are
    /// not yet interpreted.
    pub fn draw_animated(&mut self, duration: u32, _delay: u32, _easing: &str) -> (r:
        &mut Element)
        ensures
            ({
                let l = dec_str((segs_of(old(self)@).len() * 100) as nat);
                r@ == child_added(
                    with_attr(
                        with_attr(old(self)@, "stroke-dasharray"@, l + " "@ + l),
                        "stroke-dashoffset"@,
                        l,
                    ),
                    new_elem(
                        "animate"@,
                        seq![
                            ("attributeName"@, "stroke-dashoffset"@),
                            ("from"@, l),
                            ("to"@, "0"@),
                            ("dur"@, dec_str(duration as nat) + "s"@),
                            ("repeatCount"@, "indefinite"@),
                        ],
                    ),
                )
            }),
            *final(self) == *final(r),
    {
        let len = self.calculate_path_length();
        let ls = u128_to_string(len);
        let mut dash = ls.clone();
        dash.append(" ");
        dash.append(ls.as_str());
        self.set_attr("stroke-dasharray", dash.as_str());
        self.set_attr("stroke-dashoffset", ls.as_str());
        self.animate_attr("stroke-dashoffset", ls.as_str(), "0", duration)
    }
}

} // verus!
