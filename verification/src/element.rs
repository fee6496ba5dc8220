//! One node of the document tree: a tag name, an attribute list, an
//! ordered list of owned child elements, and (for path elements) the
//! accumulated path segments.
//!
//! Construction is fluent: a method that creates a child appends it to
//! the parent and returns a mutable handle to the new child; a setter
//! mutates in place and returns the same handle, so calls chain.

use vstd::prelude::*;

use crate::attrs::attr_get;
use crate::attrs::attr_set;
use crate::attrs::attrs_markup;
use crate::attrs::get_key;
use crate::attrs::pairs_view;
use crate::attrs::set_key;
use crate::attrs::text_of;
use crate::numfmt::dec_str;
use crate::numfmt::int_str;
use crate::numfmt::i64_to_string;
use crate::numfmt::u128_to_string;
use crate::path::PathSegment;
use crate::path::SegView;

verus! {

/// The mathematical view of an element: every field as a ghost value,
/// children recursively.
pub struct ElemView {
    pub tag: Seq<char>,
    pub attrs: Seq<(Seq<char>, Seq<char>)>,
    pub children: Seq<ElemView>,
    pub segs: Option<Seq<SegView>>,
    pub auto_redraw: bool,
}

/// An element of the document tree.
pub struct Element {
    pub(crate) tag: String,
    pub(crate) attrs: Vec<(String, String)>,
    pub(crate) children: Vec<Element>,
    pub(crate) path_segments: Option<Vec<PathSegment>>,
    pub(crate) auto_redraw: bool,
}

/// The views of a list of elements, in order.
pub open(crate) spec fn elems_view(s: Seq<Element>) -> Seq<ElemView>
    decreases s,
{
    if s.len() == 0 {
        Seq::empty()
    } else {
        seq![elem_view(s[0])] + elems_view(s.drop_first())
    }
}

/// The view of one element.
pub open(crate) spec fn elem_view(e: Element) -> ElemView
    decreases e,
{
    ElemView {
        tag: e.tag@,
        attrs: pairs_view(e.attrs@),
        children: elems_view(e.children@),
        segs: match e.path_segments {
            Option::None => Option::None,
            Option::Some(v) => Option::Some(v@.map_values(|s: PathSegment| s@)),
        },
        auto_redraw: e.auto_redraw,
    }
}

impl View for Element {
    type V = ElemView;

    closed spec fn view(&self) -> ElemView {
        elem_view(*self)
    }
}

/// Within the crate, `e@` may be unfolded to `elem_view(e)`.
pub(crate) broadcast proof fn lemma_view_unfold(e: Element)
    ensures
        #[trigger] e@ == elem_view(e),
{
}

pub(crate) broadcast proof fn lemma_elems_view_index(s: Seq<Element>)
    ensures
        (#[trigger] elems_view(s)).len() == s.len(),
        forall|i: int| 0 <= i < s.len() ==> elems_view(s)[i] == elem_view(s[i]),
    decreases s,
{
    if s.len() > 0 {
        lemma_elems_view_index(s.drop_first());
        assert forall|i: int| 0 <= i < s.len() implies elems_view(s)[i] == elem_view(s[i]) by {
            if i > 0 {
                assert(elems_view(s)[i] == elems_view(s.drop_first())[i - 1]);
                assert(s.drop_first()[i - 1] == s[i]);
            }
        }
    }
}

pub(crate) proof fn lemma_elems_view_push(s: Seq<Element>, e: Element)
    ensures
        elems_view(s.push(e)) == elems_view(s).push(elem_view(e)),
{
    lemma_elems_view_index(s.push(e));
    lemma_elems_view_index(s);
    assert(elems_view(s.push(e)) =~= elems_view(s).push(elem_view(e)));
}

/// A freshly created element: a tag, its initial attributes, no
/// children, no path data.
pub open spec fn new_elem(tag: Seq<char>, attrs: Seq<(Seq<char>, Seq<char>)>) -> ElemView {
    ElemView { tag, attrs, children: Seq::empty(), segs: Option::None, auto_redraw: false }
}

/// The element with one more child at the end.
pub open spec fn child_added(parent: ElemView, child: ElemView) -> ElemView {
    ElemView { children: parent.children.push(child), ..parent }
}

/// The element with one attribute set or overwritten.
pub open spec fn with_attr(e: ElemView, k: Seq<char>, v: Seq<char>) -> ElemView {
    ElemView { attrs: set_key(e.attrs, k, v), ..e }
}

/// Last write wins, other keys untouched: after an attribute is set,
/// that name reads back as the value just written, and every other
/// name reads as it did before.
pub proof fn lemma_with_attr_get(e: ElemView, k: Seq<char>, v: Seq<char>, k2: Seq<char>)
    ensures
        get_key(with_attr(e, k, v).attrs, k) == Some(v),
        k2 != k ==> get_key(with_attr(e, k, v).attrs, k2) == get_key(e.attrs, k2),
{
    crate::attrs::lemma_set_key_get(e.attrs, k, v);
    if k2 != k {
        crate::attrs::lemma_set_key_other(e.attrs, k, v, k2);
    }
}

/// The serialization of one element: `<tag attrs.../>` when it has
/// neither children nor (for a `text` element) text content, else an
/// open tag, the text content, the children in order, and a close tag.
pub open spec fn elem_ser(v: ElemView) -> Seq<char>
    decreases v,
{
    let a = attrs_markup(v.attrs);
    let t = text_of(v.attrs);
    if v.children.len() > 0 || (v.tag == "text"@ && t.len() > 0) {
        "<"@ + v.tag + a + ">"@ + t + elems_ser(v.children) + "</"@ + v.tag + ">"@
    } else {
        "<"@ + v.tag + a + "/>"@
    }
}

/// The concatenated serializations of a list of elements.
pub open spec fn elems_ser(cs: Seq<ElemView>) -> Seq<char>
    decreases cs,
{
    if cs.len() == 0 {
        Seq::empty()
    } else {
        elem_ser(cs[0]) + elems_ser(cs.drop_first())
    }
}

impl Element {
    /// Serializes this element and, recursively, its children.
    pub fn to_string(&self) -> (r: String)
        ensures
            r@ == elem_ser(self@),
        decreases *self,
    {
        let (attrs_s, text) = crate::attrs::render_attrs(&self.attrs);
        let tt: String = "text".to_owned();
        let mut out = String::new();
        out.append("<");
        out.append(self.tag.as_str());
        out.append(attrs_s.as_str());
        if self.children.len() > 0 || (self.tag == tt && !text.as_str().is_empty()) {
            out.append(">");
            out.append(text.as_str());
            let ghost cs = self@.children;
            proof {
                lemma_elems_view_index(self.children@);
            }
            let ghost base = out@;
            proof {
                assert(cs.skip(0) =~= cs);
                assert(base + elems_ser(cs) =~= base + elems_ser(cs.skip(0)));
            }
            let mut i: usize = 0;
            while i < self.children.len()
                invariant
                    i <= self.children.len(),
                    cs == elems_view(self.children@),
                    cs.len() == self.children.len(),
                    forall|j: int| 0 <= j < cs.len() ==> cs[j] == elem_view(self.children@[j]),
                    out@ + elems_ser(cs.skip(i as int)) == base + elems_ser(cs),
                decreases self.children.len() - i,
            {
                proof {
                    assert(cs.skip(i as int)[0] == cs[i as int]);
                    assert(cs.skip(i as int).drop_first() =~= cs.skip(i as int + 1));
                }
                let child = &self.children[i];
                let s = child.to_string();
                out.append(s.as_str());
                proof {
                    assert(out@ + elems_ser(cs.skip(i as int + 1)) =~= base + elems_ser(cs));
                }
                i = i + 1;
            }
            proof {
                assert(cs.skip(self.children.len() as int) =~= Seq::<ElemView>::empty());
                assert(out@ + elems_ser(cs.skip(self.children.len() as int)) =~= out@);
            }
            out.append("</");
            out.append(self.tag.as_str());
            out.append(">");
            proof {
                assert(out@ =~= elem_ser(self@));
            }
        } else {
            out.append("/>");
            proof {
                assert(out@ =~= elem_ser(self@));
            }
        }
        out
    }

    /// Appends a new child with the given tag and initial attributes
    /// and hands back the mutable handle to it.
    pub fn add_child(&mut self, tag: &str, attributes: Vec<(String, String)>) -> (r: &mut Element)
        ensures
            r@ == new_elem(tag@, pairs_view(attributes@)),
            final(self)@ == child_added(old(self)@, final(r)@),
    {
        let ghost attrs0 = attributes@;
        let e = Element {
            tag: tag.to_owned(),
            attrs: attributes,
            children: Vec::new(),
            path_segments: Option::None,
            auto_redraw: false,
        };
        proof {
            assert(elem_view(e) == new_elem(tag@, pairs_view(attrs0)));
        }
        self.children.push(e);
        let n = self.children.len() - 1;
        let r = &mut self.children[n];
        proof {
            lemma_elems_view_index(old(self).children@);
            lemma_elems_view_push(old(self).children@, e);
            assert(old(self).children@.push(e).update(n as int, *final(r)) =~= old(
                self,
            ).children@.push(*final(r)));
            lemma_elems_view_push(old(self).children@, *final(r));
        }
        r
    }

    /// Sets or overwrites one attribute.
    pub fn set_attr(&mut self, name: &str, value: &str) -> (r: &mut Element)
        ensures
            r@ == with_attr(old(self)@, name@, value@),
            *final(self) == *final(r),
    {
        attr_set(&mut self.attrs, name, value);
        self
    }

    /// Reads an attribute back.
    pub fn attr(&self, name: &str) -> (r: Option<&String>)
        ensures
            match r {
                Some(v) => get_key(self@.attrs, name@) == Some(v@),
                None => get_key(self@.attrs, name@) is None,
            },
    {
        attr_get(&self.attrs, name)
    }

    /// Appends a `rect` child of the given size.
    pub fn rect(&mut self, width: u32, height: u32) -> (r: &mut Element)
        ensures
            r@ == new_elem(
                "rect"@,
                seq![("width"@, dec_str(width as nat)), ("height"@, dec_str(height as nat))],
            ),
            final(self)@ == child_added(old(self)@, final(r)@),
    {
        let mut a: Vec<(String, String)> = Vec::new();
        a.push(("width".to_owned(), u128_to_string(width as u128)));
        a.push(("height".to_owned(), u128_to_string(height as u128)));
        proof {
            assert(pairs_view(a@) =~= seq![
                ("width"@, dec_str(width as nat)),
                ("height"@, dec_str(height as nat)),
            ]);
        }
        self.add_child("rect", a)
    }

    /// Appends a `circle` child of the given radius.
    pub fn circle(&mut self, radius: u32) -> (r: &mut Element)
        ensures
            r@ == new_elem("circle"@, seq![("r"@, dec_str(radius as nat))]),
            final(self)@ == child_added(old(self)@, final(r)@),
    {
        let mut a: Vec<(String, String)> = Vec::new();
        a.push(("r".to_owned(), u128_to_string(radius as u128)));
        proof {
            assert(pairs_view(a@) =~= seq![("r"@, dec_str(radius as nat))]);
        }
        self.add_child("circle", a)
    }

    /// Appends a `linearGradient` child with the given id.
    pub fn linear_gradient(&mut self, id: &str) -> (r: &mut Element)
        ensures
            r@ == new_elem("linearGradient"@, seq![("id"@, id@)]),
            final(self)@ == child_added(old(self)@, final(r)@),
    {
        let mut a: Vec<(String, String)> = Vec::new();
        a.push(("id".to_owned(), id.to_owned()));
        proof {
            assert(pairs_view(a@) =~= seq![("id"@, id@)]);
        }
        self.add_child("linearGradient", a)
    }

    /// Appends a gradient `stop` child at the given offset and color.
    pub fn stop(&mut self, offset: &str, color: &str) -> (r: &mut Element)
        ensures
            r@ == new_elem("stop"@, seq![("offset"@, offset@), ("stop-color"@, color@)]),
            final(self)@ == child_added(old(self)@, final(r)@),
    {
        let mut a: Vec<(String, String)> = Vec::new();
        a.push(("offset".to_owned(), offset.to_owned()));
        a.push(("stop-color".to_owned(), color.to_owned()));
        proof {
            assert(pairs_view(a@) =~= seq![("offset"@, offset@), ("stop-color"@, color@)]);
        }
        self.add_child("stop", a)
    }

    /// Appends an `ellipse` child with the given radii.
    pub fn ellipse(&mut self, rx: u32, ry: u32) -> (r: &mut Element)
        ensures
            r@ == new_elem(
                "ellipse"@,
                seq![("rx"@, dec_str(rx as nat)), ("ry"@, dec_str(ry as nat))],
            ),
            final(self)@ == child_added(old(self)@, final(r)@),
    {
        let mut a: Vec<(String, String)> = Vec::new();
        a.push(("rx".to_owned(), u128_to_string(rx as u128)));
        a.push(("ry".to_owned(), u128_to_string(ry as u128)));
        proof {
            assert(pairs_view(a@) =~= seq![
                ("rx"@, dec_str(rx as nat)),
                ("ry"@, dec_str(ry as nat)),
            ]);
        }
        self.add_child("ellipse", a)
    }

    /// Appends a `line` child between the two endpoints.
    pub fn line(&mut self, x1: i32, y1: i32, x2: i32, y2: i32) -> (r: &mut Element)
        ensures
            r@ == new_elem(
                "line"@,
                seq![
                    ("x1"@, int_str(x1 as int)),
                    ("y1"@, int_str(y1 as int)),
                    ("x2"@, int_str(x2 as int)),
                    ("y2"@, int_str(y2 as int)),
                ],
            ),
            final(self)@ == child_added(old(self)@, final(r)@),
    {
        let mut a: Vec<(String, String)> = Vec::new();
        a.push(("x1".to_owned(), i64_to_string(x1 as i64)));
        a.push(("y1".to_owned(), i64_to_string(y1 as i64)));
        a.push(("x2".to_owned(), i64_to_string(x2 as i64)));
        a.push(("y2".to_owned(), i64_to_string(y2 as i64)));
        proof {
            assert(pairs_view(a@) =~= seq![
                ("x1"@, int_str(x1 as int)),
                ("y1"@, int_str(y1 as int)),
                ("x2"@, int_str(x2 as int)),
                ("y2"@, int_str(y2 as int)),
            ]);
        }
        self.add_child("line", a)
    }

    /// Appends a `path` child with the given path data.
    pub fn path(&mut self, d: &str) -> (r: &mut Element)
        ensures
            r@ == new_elem("path"@, seq![("d"@, d@)]),
            final(self)@ == child_added(old(self)@, final(r)@),
    {
        let mut a: Vec<(String, String)> = Vec::new();
        a.push(("d".to_owned(), d.to_owned()));
        proof {
            assert(pairs_view(a@) =~= seq![("d"@, d@)]);
        }
        self.add_child("path", a)
    }

    /// Appends a `polygon` child with the given points string.
    pub fn polygon(&mut self, points: &str) -> (r: &mut Element)
        ensures
            r@ == new_elem("polygon"@, seq![("points"@, points@)]),
            final(self)@ == child_added(old(self)@, final(r)@),
    {
        let mut a: Vec<(String, String)> = Vec::new();
        a.push(("points".to_owned(), points.to_owned()));
        proof {
            assert(pairs_view(a@) =~= seq![("points"@, points@)]);
        }
        self.add_child("polygon", a)
    }

    /// Appends a `polyline` child with the given points string.
    pub fn polyline(&mut self, points: &str) -> (r: &mut Element)
        ensures
            r@ == new_elem("polyline"@, seq![("points"@, points@)]),
            final(self)@ == child_added(old(self)@, final(r)@),
    {
        let mut a: Vec<(String, String)> = Vec::new();
        a.push(("points".to_owned(), points.to_owned()));
        proof {
            assert(pairs_view(a@) =~= seq![("points"@, points@)]);
        }
        self.add_child("polyline", a)
    }

    /// Appends a `text` child carrying the given text content.
    pub fn text(&mut self, content: &str) -> (r: &mut Element)
        ensures
            r@ == new_elem("text"@, seq![("text-content"@, content@)]),
            final(self)@ == child_added(old(self)@, final(r)@),
    {
        let mut a: Vec<(String, String)> = Vec::new();
        a.push(("text-content".to_owned(), content.to_owned()));
        proof {
            assert(pairs_view(a@) =~= seq![("text-content"@, content@)]);
        }
        self.add_child("text", a)
    }

    /// Appends a `g` (group) child.
    pub fn group(&mut self) -> (r: &mut Element)
        ensures
            r@ == new_elem("g"@, Seq::empty()),
            final(self)@ == child_added(old(self)@, final(r)@),
    {
        let a: Vec<(String, String)> = Vec::new();
        proof {
            assert(pairs_view(a@) =~= Seq::<(Seq<char>, Seq<char>)>::empty());
        }
        self.add_child("g", a)
    }

    /// Appends a `tspan` child carrying the given text content.
    pub fn tspan(&mut self, content: &str) -> (r: &mut Element)
        ensures
            r@ == new_elem("tspan"@, seq![("text-content"@, content@)]),
            final(self)@ == child_added(old(self)@, final(r)@),
    {
        let mut a: Vec<(String, String)> = Vec::new();
        a.push(("text-content".to_owned(), content.to_owned()));
        proof {
            assert(pairs_view(a@) =~= seq![("text-content"@, content@)]);
        }
        self.add_child("tspan", a)
    }

    /// Appends a `textPath` child referring to the given path id.
    pub fn text_path(&mut self, path_id: &str, content: &str) -> (r: &mut Element)
        ensures
            r@ == new_elem(
                "textPath"@,
                seq![("href"@, "#"@ + path_id@), ("text-content"@, content@)],
            ),
            final(self)@ == child_added(old(self)@, final(r)@),
    {
        let mut href: String = "#".to_owned();
        href.append(path_id);
        let mut a: Vec<(String, String)> = Vec::new();
        a.push(("href".to_owned(), href));
        a.push(("text-content".to_owned(), content.to_owned()));
        proof {
            assert(pairs_view(a@) =~= seq![
                ("href"@, "#"@ + path_id@),
                ("text-content"@, content@),
            ]);
        }
        self.add_child("textPath", a)
    }

    /// Appends an `image` child with the given source and size.
    pub fn image(&mut self, href: &str, width: u32, height: u32) -> (r: &mut Element)
        ensures
            r@ == new_elem(
                "image"@,
                seq![
                    ("href"@, href@),
                    ("width"@, dec_str(width as nat)),
                    ("height"@, dec_str(height as nat)),
                ],
            ),
            final(self)@ == child_added(old(self)@, final(r)@),
    {
        let mut a: Vec<(String, String)> = Vec::new();
        a.push(("href".to_owned(), href.to_owned()));
        a.push(("width".to_owned(), u128_to_string(width as u128)));
        a.push(("height".to_owned(), u128_to_string(height as u128)));
        proof {
            assert(pairs_view(a@) =~= seq![
                ("href"@, href@),
                ("width"@, dec_str(width as nat)),
                ("height"@, dec_str(height as nat)),
            ]);
        }
        self.add_child("image", a)
    }

    /// Appends a `use` child referring to the given id.
    pub fn use_element(&mut self, href: &str) -> (r: &mut Element)
        ensures
            r@ == new_elem("use"@, seq![("href"@, "#"@ + href@)]),
            final(self)@ == child_added(old(self)@, final(r)@),
    {
        let mut h: String = "#".to_owned();
        h.append(href);
        let mut a: Vec<(String, String)> = Vec::new();
        a.push(("href".to_owned(), h));
        proof {
            assert(pairs_view(a@) =~= seq![("href"@, "#"@ + href@)]);
        }
        self.add_child("use", a)
    }

    /// Appends a `symbol` child with the given id.
    pub fn symbol(&mut self, id: &str) -> (r: &mut Element)
        ensures
            r@ == new_elem("symbol"@, seq![("id"@, id@)]),
            final(self)@ == child_added(old(self)@, final(r)@),
    {
        let mut a: Vec<(String, String)> = Vec::new();
        a.push(("id".to_owned(), id.to_owned()));
        proof {
            assert(pairs_view(a@) =~= seq![("id"@, id@)]);
        }
        self.add_child("symbol", a)
    }

    /// Appends an `animate` child with the given duration, in seconds,
    /// and hands the same element back.
    pub fn animate(&mut self, duration: u32) -> (r: &mut Element)
        ensures
            r@ == child_added(
                old(self)@,
                new_elem("animate"@, seq![("dur"@, dec_str(duration as nat) + "s"@)]),
            ),
            *final(self) == *final(r),
    {
        let mut d = u128_to_string(duration as u128);
        d.append("s");
        let mut a: Vec<(String, String)> = Vec::new();
        a.push(("dur".to_owned(), d));
        proof {
            assert(pairs_view(a@) =~= seq![("dur"@, dec_str(duration as nat) + "s"@)]);
        }
        self.add_child("animate", a);
        self
    }

    /// Appends an `animate` child interpolating one attribute from one
    /// value to another over the given duration, repeating forever,
    /// and hands the same element back.
    pub fn animate_attr(&mut self, attr: &str, from: &str, to: &str, duration: u32) -> (r:
        &mut Element)
        ensures
            r@ == child_added(
                old(self)@,
                new_elem(
                    "animate"@,
                    seq![
                        ("attributeName"@, attr@),
                        ("from"@, from@),
                        ("to"@, to@),
                        ("dur"@, dec_str(duration as nat) + "s"@),
                        ("repeatCount"@, "indefinite"@),
                    ],
                ),
            ),
            *final(self) == *final(r),
    {
        let mut d = u128_to_string(duration as u128);
        d.append("s");
        let mut a: Vec<(String, String)> = Vec::new();
        a.push(("attributeName".to_owned(), attr.to_owned()));
        a.push(("from".to_owned(), from.to_owned()));
        a.push(("to".to_owned(), to.to_owned()));
        a.push(("dur".to_owned(), d));
        a.push(("repeatCount".to_owned(), "indefinite".to_owned()));
        proof {
            assert(pairs_view(a@) =~= seq![
                ("attributeName"@, attr@),
                ("from"@, from@),
                ("to"@, to@),
                ("dur"@, dec_str(duration as nat) + "s"@),
                ("repeatCount"@, "indefinite"@),
            ]);
        }
        self.add_child("animate", a);
        self
    }

    /// Sets the `onclick` handler text.
    pub fn on_click(&mut self, handler: &str) -> (r: &mut Element)
        ensures
            r@ == with_attr(old(self)@, "onclick"@, handler@),
            *final(self) == *final(r),
    {
        self.set_attr("onclick", handler)
    }

    /// Sets the `onmouseover` handler text.
    pub fn on_hover(&mut self, handler: &str) -> (r: &mut Element)
        ensures
            r@ == with_attr(old(self)@, "onmouseover"@, handler@),
            *final(self) == *final(r),
    {
        self.set_attr("onmouseover", handler)
    }

    /// Sets the `class` attribute, replacing any previous value.
    pub fn class(&mut self, class_name: &str) -> (r: &mut Element)
        ensures
            r@ == with_attr(old(self)@, "class"@, class_name@),
            *final(self) == *final(r),
    {
        self.set_attr("class", class_name)
    }

    /// Sets the inline `style` attribute.
    pub fn style(&mut self, style: &str) -> (r: &mut Element)
        ensures
            r@ == with_attr(old(self)@, "style"@, style@),
            *final(self) == *final(r),
    {
        self.set_attr("style", style)
    }

    /// Points the `mask` attribute at the mask with the given id.
    pub fn mask(&mut self, mask_id: &str) -> (r: &mut Element)
        ensures
            r@ == with_attr(old(self)@, "mask"@, "url(#"@ + mask_id@ + ")"@),
            *final(self) == *final(r),
    {
        let mut v: String = "url(#".to_owned();
        v.append(mask_id);
        v.append(")");
        self.set_attr("mask", v.as_str())
    }

    /// Points the `clip-path` attribute at the clip path with the
    /// given id.
    pub fn clip_path(&mut self, clip_id: &str) -> (r: &mut Element)
        ensures
            r@ == with_attr(old(self)@, "clip-path"@, "url(#"@ + clip_id@ + ")"@),
            *final(self) == *final(r),
    {
        let mut v: String = "url(#".to_owned();
        v.append(clip_id);
        v.append(")");
        self.set_attr("clip-path", v.as_str())
    }

    /// Sets the element id.
    pub fn id(&mut self, id: &str) -> (r: &mut Element)
        ensures
            r@ == with_attr(old(self)@, "id"@, id@),
            *final(self) == *final(r),
    {
        self.set_attr("id", id)
    }

    /// Sets the font family.
    pub fn font_family(&mut self, family: &str) -> (r: &mut Element)
        ensures
            r@ == with_attr(old(self)@, "font-family"@, family@),
            *final(self) == *final(r),
    {
        self.set_attr("font-family", family)
    }

    /// Sets the font size.
    pub fn font_size(&mut self, size: u32) -> (r: &mut Element)
        ensures
            r@ == with_attr(old(self)@, "font-size"@, dec_str(size as nat)),
            *final(self) == *final(r),
    {
        let v = u128_to_string(size as u128);
        self.set_attr("font-size", v.as_str())
    }

    /// Sets the font weight.
    pub fn font_weight(&mut self, weight: &str) -> (r: &mut Element)
        ensures
            r@ == with_attr(old(self)@, "font-weight"@, weight@),
            *final(self) == *final(r),
    {
        self.set_attr("font-weight", weight)
    }

    /// Sets the font style.
    pub fn font_style(&mut self, style: &str) -> (r: &mut Element)
        ensures
            r@ == with_attr(old(self)@, "font-style"@, style@),
            *final(self) == *final(r),
    {
        self.set_attr("font-style", style)
    }

    /// Sets the text anchor.
    pub fn text_anchor(&mut self, anchor: &str) -> (r: &mut Element)
        ensures
            r@ == with_attr(old(self)@, "text-anchor"@, anchor@),
            *final(self) == *final(r),
    {
        self.set_attr("text-anchor", anchor)
    }

    /// Sets the horizontal offset `dx`.
    pub fn dx(&mut self, value: i64) -> (r: &mut Element)
        ensures
            r@ == with_attr(old(self)@, "dx"@, int_str(value as int)),
            *final(self) == *final(r),
    {
        let v = i64_to_string(value);
        self.set_attr("dx", v.as_str())
    }

    /// Sets the vertical offset `dy`.
    pub fn dy(&mut self, value: i64) -> (r: &mut Element)
        ensures
            r@ == with_attr(old(self)@, "dy"@, int_str(value as int)),
            *final(self) == *final(r),
    {
        let v = i64_to_string(value);
        self.set_attr("dy", v.as_str())
    }

    /// Points `marker-start` at the marker with the given id.
    pub fn marker_start(&mut self, marker_id: &str) -> (r: &mut Element)
        ensures
            r@ == with_attr(old(self)@, "marker-start"@, "url(#"@ + marker_id@ + ")"@),
            *final(self) == *final(r),
    {
        let mut v: String = "url(#".to_owned();
        v.append(marker_id);
        v.append(")");
        self.set_attr("marker-start", v.as_str())
    }

    /// Points `marker-mid` at the marker with the given id.
    pub fn marker_mid(&mut self, marker_id: &str) -> (r: &mut Element)
        ensures
            r@ == with_attr(old(self)@, "marker-mid"@, "url(#"@ + marker_id@ + ")"@),
            *final(self) == *final(r),
    {
        let mut v: String = "url(#".to_owned();
        v.append(marker_id);
        v.append(")");
        self.set_attr("marker-mid", v.as_str())
    }

    /// Points `marker-end` at the marker with the given id.
    pub fn marker_end(&mut self, marker_id: &str) -> (r: &mut Element)
        ensures
            r@ == with_attr(old(self)@, "marker-end"@, "url(#"@ + marker_id@ + ")"@),
            *final(self) == *final(r),
    {
        let mut v: String = "url(#".to_owned();
        v.append(marker_id);
        v.append(")");
        self.set_attr("marker-end", v.as_str())
    }

    /// Sets the fill color.
    pub fn fill(&mut self, color: &str) -> (r: &mut Element)
        ensures
            r@ == with_attr(old(self)@, "fill"@, color@),
            *final(self) == *final(r),
    {
        self.set_attr("fill", color)
    }

    /// Sets the stroke color.
    pub fn stroke(&mut self, color: &str) -> (r: &mut Element)
        ensures
            r@ == with_attr(old(self)@, "stroke"@, color@),
            *final(self) == *final(r),
    {
        self.set_attr("stroke", color)
    }

    /// Sets the stroke width.
    pub fn stroke_width(&mut self, width: u32) -> (r: &mut Element)
        ensures
            r@ == with_attr(old(self)@, "stroke-width"@, dec_str(width as nat)),
            *final(self) == *final(r),
    {
        let v = u128_to_string(width as u128);
        self.set_attr("stroke-width", v.as_str())
    }

    /// Sets the opacity. Fractional opacities can be set through
    /// `set_attr` with the exact value text.
    pub fn opacity(&mut self, value: i64) -> (r: &mut Element)
        ensures
            r@ == with_attr(old(self)@, "opacity"@, int_str(value as int)),
            *final(self) == *final(r),
    {
        let v = i64_to_string(value);
        self.set_attr("opacity", v.as_str())
    }

    /// Sets the position attributes `x` and `y`.
    pub fn move_to(&mut self, x: i32, y: i32) -> (r: &mut Element)
        ensures
            r@ == with_attr(
                with_attr(old(self)@, "x"@, int_str(x as int)),
                "y"@,
                int_str(y as int),
            ),
            *final(self) == *final(r),
    {
        let xs = i64_to_string(x as i64);
        let ys = i64_to_string(y as i64);
        self.set_attr("x", xs.as_str());
        self.set_attr("y", ys.as_str())
    }

    /// Sets the center attributes `cx` and `cy`.
    pub fn center(&mut self, x: i32, y: i32) -> (r: &mut Element)
        ensures
            r@ == with_attr(
                with_attr(old(self)@, "cx"@, int_str(x as int)),
                "cy"@,
                int_str(y as int),
            ),
            *final(self) == *final(r),
    {
        let xs = i64_to_string(x as i64);
        let ys = i64_to_string(y as i64);
        self.set_attr("cx", xs.as_str());
        self.set_attr("cy", ys.as_str())
    }

    /// Sets the size attributes `width` and `height`.
    pub fn size(&mut self, width: u32, height: u32) -> (r: &mut Element)
        ensures
            r@ == with_attr(
                with_attr(old(self)@, "width"@, dec_str(width as nat)),
                "height"@,
                dec_str(height as nat),
            ),
            *final(self) == *final(r),
    {
        let ws = u128_to_string(width as u128);
        let hs = u128_to_string(height as u128);
        self.set_attr("width", ws.as_str());
        self.set_attr("height", hs.as_str())
    }

    /// Sets the `transform` attribute, replacing any previous value.
    /// The transform helpers below overwrite rather than compose; a
    /// combined transform is passed here as one string.
    pub fn transform(&mut self, transform: &str) -> (r: &mut Element)
        ensures
            r@ == with_attr(old(self)@, "transform"@, transform@),
            *final(self) == *final(r),
    {
        self.set_attr("transform", transform)
    }

    /// Replaces the transform with a rotation.
    pub fn rotate(&mut self, angle: i64) -> (r: &mut Element)
        ensures
            r@ == with_attr(old(self)@, "transform"@, "rotate("@ + int_str(angle as int) + ")"@),
            *final(self) == *final(r),
    {
        let mut v: String = "rotate(".to_owned();
        v.append(i64_to_string(angle).as_str());
        v.append(")");
        self.set_attr("transform", v.as_str())
    }

    /// Replaces the transform with a scale.
    pub fn scale(&mut self, x: i64, y: i64) -> (r: &mut Element)
        ensures
            r@ == with_attr(
                old(self)@,
                "transform"@,
                "scale("@ + int_str(x as int) + ", "@ + int_str(y as int) + ")"@,
            ),
            *final(self) == *final(r),
    {
        let mut v: String = "scale(".to_owned();
        v.append(i64_to_string(x).as_str());
        v.append(", ");
        v.append(i64_to_string(y).as_str());
        v.append(")");
        self.set_attr("transform", v.as_str())
    }

    /// Replaces the transform with a translation.
    pub fn translate(&mut self, x: i64, y: i64) -> (r: &mut Element)
        ensures
            r@ == with_attr(
                old(self)@,
                "transform"@,
                "translate("@ + int_str(x as int) + ", "@ + int_str(y as int) + ")"@,
            ),
            *final(self) == *final(r),
    {
        let mut v: String = "translate(".to_owned();
        v.append(i64_to_string(x).as_str());
        v.append(", ");
        v.append(i64_to_string(y).as_str());
        v.append(")");
        self.set_attr("transform", v.as_str())
    }

    /// Replaces the transform with a mirroring along the `x` or `y`
    /// axis, or `both`; any other axis name leaves the element
    /// unchanged.
    pub fn flip(&mut self, axis: &str) -> (r: &mut Element)
        ensures
            r@ == (if axis@ == "x"@ {
                with_attr(old(self)@, "transform"@, "scale(-1, 1)"@)
            } else if axis@ == "y"@ {
                with_attr(old(self)@, "transform"@, "scale(1, -1)"@)
            } else if axis@ == "both"@ {
                with_attr(old(self)@, "transform"@, "scale(-1, -1)"@)
            } else {
                old(self)@
            }),
            *final(self) == *final(r),
    {
        let ax: String = axis.to_owned();
        if ax == "x".to_owned() {
            self.set_attr("transform", "scale(-1, 1)")
        } else if ax == "y".to_owned() {
            self.set_attr("transform", "scale(1, -1)")
        } else if ax == "both".to_owned() {
            self.set_attr("transform", "scale(-1, -1)")
        } else {
            self
        }
    }

    /// Replaces the transform with a skew along both axes.
    pub fn skew(&mut self, x: i64, y: i64) -> (r: &mut Element)
        ensures
            r@ == with_attr(
                old(self)@,
                "transform"@,
                "skewX("@ + int_str(x as int) + ") skewY("@ + int_str(y as int) + ")"@,
            ),
            *final(self) == *final(r),
    {
        let mut v: String = "skewX(".to_owned();
        v.append(i64_to_string(x).as_str());
        v.append(") skewY(");
        v.append(i64_to_string(y).as_str());
        v.append(")");
        self.set_attr("transform", v.as_str())
    }

    /// Replaces the transform with a horizontal skew.
    pub fn skew_x(&mut self, angle: i64) -> (r: &mut Element)
        ensures
            r@ == with_attr(old(self)@, "transform"@, "skewX("@ + int_str(angle as int) + ")"@),
            *final(self) == *final(r),
    {
        let mut v: String = "skewX(".to_owned();
        v.append(i64_to_string(angle).as_str());
        v.append(")");
        self.set_attr("transform", v.as_str())
    }

    /// Replaces the transform with a vertical skew.
    pub fn skew_y(&mut self, angle: i64) -> (r: &mut Element)
        ensures
            r@ == with_attr(old(self)@, "transform"@, "skewY("@ + int_str(angle as int) + ")"@),
            *final(self) == *final(r),
    {
        let mut v: String = "skewY(".to_owned();
        v.append(i64_to_string(angle).as_str());
        v.append(")");
        self.set_attr("transform", v.as_str())
    }
}

} // verus!
