//! The document: fixed width and height, an optional viewport
//! rectangle, and an ordered list of owned top-level elements, with
//! serialization to the full markup string.

use vstd::prelude::*;

use crate::attrs::pairs_view;
use crate::element::Element;
use crate::element::ElemView;
use crate::element::elem_ser;
use crate::element::elem_view;
use crate::element::elems_view;
use crate::element::lemma_elems_view_index;
use crate::element::lemma_elems_view_push;
use crate::element::new_elem;
use crate::numfmt::dec_str;
use crate::numfmt::int_str;
use crate::numfmt::i64_to_string;
use crate::numfmt::u128_to_string;

verus! {

broadcast use crate::element::lemma_view_unfold;

/// The mathematical view of a document.
pub struct SvgView {
    pub width: u32,
    pub height: u32,
    pub viewbox: Option<(i64, i64, i64, i64)>,
    pub elements: Seq<ElemView>,
}

/// An SVG document under construction.
pub struct Svg {
    pub(crate) width: u32,
    pub(crate) height: u32,
    pub(crate) viewbox: Option<(i64, i64, i64, i64)>,
    pub(crate) elements: Vec<Element>,
}

/// The view of a document.
pub open(crate) spec fn svg_view(s: Svg) -> SvgView {
    SvgView {
        width: s.width,
        height: s.height,
        viewbox: s.viewbox,
        elements: elems_view(s.elements@),
    }
}

impl View for Svg {
    type V = SvgView;

    closed spec fn view(&self) -> SvgView {
        svg_view(*self)
    }
}

/// The serialization of the top-level elements: each one indented by
/// two spaces and followed by a newline.
pub open spec fn tops_ser(es: Seq<ElemView>) -> Seq<char>
    decreases es,
{
    if es.len() == 0 {
        Seq::empty()
    } else {
        "  "@ + elem_ser(es[0]) + "\n"@ + tops_ser(es.drop_first())
    }
}

/// The markup of the optional `viewBox` attribute.
pub open spec fn viewbox_markup(b: Option<(i64, i64, i64, i64)>) -> Seq<char> {
    match b {
        Option::None => Seq::empty(),
        Option::Some(q) => " viewBox=\""@ + int_str(q.0 as int) + " "@ + int_str(q.1 as int)
            + " "@ + int_str(q.2 as int) + " "@ + int_str(q.3 as int) + "\""@,
    }
}

/// The serialization of a whole document: the root tag with its width,
/// height, optional viewport and the fixed namespace declaration, the
/// top-level elements, and the closing root tag.
pub open spec fn svg_ser(v: SvgView) -> Seq<char> {
    "<svg width=\""@ + dec_str(v.width as nat) + "\" height=\""@ + dec_str(v.height as nat)
        + "\""@ + viewbox_markup(v.viewbox) + " xmlns=\"http://www.w3.org/2000/svg\">\n"@
        + tops_ser(v.elements) + "</svg>"@
}

impl Svg {
    /// A new, empty document of the given size.
    pub fn new(width: u32, height: u32) -> (r: Svg)
        ensures
            r@ == (SvgView { width, height, viewbox: Option::None, elements: Seq::empty() }),
    {
        let r = Svg { width, height, viewbox: Option::None, elements: Vec::new() };
        proof {
            assert(r@.elements =~= Seq::<ElemView>::empty());
        }
        r
    }

    /// Sets the viewport rectangle mapping user space to the declared
    /// size.
    pub fn viewbox(&mut self, x: i64, y: i64, width: i64, height: i64) -> (r: &mut Svg)
        ensures
            r@ == (SvgView { viewbox: Option::Some((x, y, width, height)), ..old(self)@ }),
            *final(self) == *final(r),
    {
        self.viewbox = Option::Some((x, y, width, height));
        self
    }

    /// Appends a new top-level element and hands back the mutable
    /// handle to it.
    fn add_element(&mut self, tag: &str, attributes: Vec<(String, String)>) -> (r: &mut Element)
        ensures
            r@ == new_elem(tag@, pairs_view(attributes@)),
            final(self)@ == (SvgView {
                elements: old(self)@.elements.push(final(r)@),
                ..old(self)@
            }),
    {
        let ghost attrs0 = attributes@;
        let e = Element {
            tag: tag.to_owned(),
            attrs: attributes,
            children: Vec::new(),
            path_segments: Option::None,
            auto_redraw: false,
        };
        proof {
            assert(elem_view(e) == new_elem(tag@, pairs_view(attrs0)));
        }
        self.elements.push(e);
        let n = self.elements.len() - 1;
        let r = &mut self.elements[n];
        proof {
            lemma_elems_view_index(old(self).elements@);
            lemma_elems_view_push(old(self).elements@, e);
            assert(old(self).elements@.push(e).update(n as int, *final(r)) =~= old(
                self,
            ).elements@.push(*final(r)));
            lemma_elems_view_push(old(self).elements@, *final(r));
        }
        r
    }

    /// Serializes the whole document.
    pub fn to_string(&self) -> (r: String)
        ensures
            r@ == svg_ser(self@),
    {
        let mut out: String = "<svg width=\"".to_owned();
        out.append(u128_to_string(self.width as u128).as_str());
        out.append("\" height=\"");
        out.append(u128_to_string(self.height as u128).as_str());
        out.append("\"");
        match self.viewbox {
            Option::None => {},
            Option::Some((x, y, w, h)) => {
                out.append(" viewBox=\"");
                out.append(i64_to_string(x).as_str());
                out.append(" ");
                out.append(i64_to_string(y).as_str());
                out.append(" ");
                out.append(i64_to_string(w).as_str());
                out.append(" ");
                out.append(i64_to_string(h).as_str());
                out.append("\"");
            },
        }
        out.append(" xmlns=\"http://www.w3.org/2000/svg\">\n");
        let ghost es = self@.elements;
        proof {
            lemma_elems_view_index(self.elements@);
        }
        let ghost base = out@;
        proof {
            assert(es.skip(0) =~= es);
            assert(base + tops_ser(es) =~= base + tops_ser(es.skip(0)));
        }
        let mut i: usize = 0;
        while i < self.elements.len()
            invariant
                i <= self.elements.len(),
                es == elems_view(self.elements@),
                es.len() == self.elements.len(),
                forall|j: int| 0 <= j < es.len() ==> es[j] == elem_view(self.elements@[j]),
                out@ + tops_ser(es.skip(i as int)) == base + tops_ser(es),
            decreases self.elements.len() - i,
        {
            proof {
                assert(es.skip(i as int)[0] == es[i as int]);
                assert(es.skip(i as int).drop_first() =~= es.skip(i as int + 1));
            }
            out.append("  ");
            let s = self.elements[i].to_string();
            out.append(s.as_str());
            out.append("\n");
            proof {
                assert(out@ + tops_ser(es.skip(i as int + 1)) =~= base + tops_ser(es));
            }
            i = i + 1;
        }
        proof {
            assert(es.skip(self.elements.len() as int) =~= Seq::<ElemView>::empty());
            assert(out@ + tops_ser(es.skip(self.elements.len() as int)) =~= out@);
        }
        out.append("</svg>");
        proof {
            assert(out@ =~= svg_ser(self@));
        }
        out
    }

    /// Appends a `rect` element of the given size.
    pub fn rect(&mut self, width: u32, height: u32) -> (r: &mut Element)
        ensures
            r@ == new_elem(
                "rect"@,
                seq![("width"@, dec_str(width as nat)), ("height"@, dec_str(height as nat))],
            ),
            final(self)@ == (SvgView {
                elements: old(self)@.elements.push(final(r)@),
                ..old(self)@
            }),
    {
        let mut a: Vec<(String, String)> = Vec::new();
        a.push(("width".to_owned(), u128_to_string(width as u128)));
        a.push(("height".to_owned(), u128_to_string(height as u128)));
        proof {
            assert(pairs_view(a@) =~= seq![
                ("width"@, dec_str(width as nat)),
                ("height"@, dec_str(height as nat)),
            ]);
        }
        self.add_element("rect", a)
    }

    /// Appends a `circle` element of the given radius.
    pub fn circle(&mut self, radius: u32) -> (r: &mut Element)
        ensures
            r@ == new_elem("circle"@, seq![("r"@, dec_str(radius as nat))]),
            final(self)@ == (SvgView {
                elements: old(self)@.elements.push(final(r)@),
                ..old(self)@
            }),
    {
        let mut a: Vec<(String, String)> = Vec::new();
        a.push(("r".to_owned(), u128_to_string(radius as u128)));
        proof {
            assert(pairs_view(a@) =~= seq![("r"@, dec_str(radius as nat))]);
        }
        self.add_element("circle", a)
    }

    /// Appends an `ellipse` element with the given radii.
    pub fn ellipse(&mut self, rx: u32, ry: u32) -> (r: &mut Element)
        ensures
            r@ == new_elem(
                "ellipse"@,
                seq![("rx"@, dec_str(rx as nat)), ("ry"@, dec_str(ry as nat))],
            ),
            final(self)@ == (SvgView {
                elements: old(self)@.elements.push(final(r)@),
                ..old(self)@
            }),
    {
        let mut a: Vec<(String, String)> = Vec::new();
        a.push(("rx".to_owned(), u128_to_string(rx as u128)));
        a.push(("ry".to_owned(), u128_to_string(ry as u128)));
        proof {
            assert(pairs_view(a@) =~= seq![
                ("rx"@, dec_str(rx as nat)),
                ("ry"@, dec_str(ry as nat)),
            ]);
        }
        self.add_element("ellipse", a)
    }

    /// Appends a `line` element between the two endpoints.
    pub fn line(&mut self, x1: u32, y1: u32, x2: u32, y2: u32) -> (r: &mut Element)
        ensures
            r@ == new_elem(
                "line"@,
                seq![
                    ("x1"@, dec_str(x1 as nat)),
                    ("y1"@, dec_str(y1 as nat)),
                    ("x2"@, dec_str(x2 as nat)),
                    ("y2"@, dec_str(y2 as nat)),
                ],
            ),
            final(self)@ == (SvgView {
                elements: old(self)@.elements.push(final(r)@),
                ..old(self)@
            }),
    {
        let mut a: Vec<(String, String)> = Vec::new();
        a.push(("x1".to_owned(), u128_to_string(x1 as u128)));
        a.push(("y1".to_owned(), u128_to_string(y1 as u128)));
        a.push(("x2".to_owned(), u128_to_string(x2 as u128)));
        a.push(("y2".to_owned(), u128_to_string(y2 as u128)));
        proof {
            assert(pairs_view(a@) =~= seq![
                ("x1"@, dec_str(x1 as nat)),
                ("y1"@, dec_str(y1 as nat)),
                ("x2"@, dec_str(x2 as nat)),
                ("y2"@, dec_str(y2 as nat)),
            ]);
        }
        self.add_element("line", a)
    }

    /// Appends a `path` element with the given path data.
    pub fn path(&mut self, d: &str) -> (r: &mut Element)
        ensures
            r@ == new_elem("path"@, seq![("d"@, d@)]),
            final(self)@ == (SvgView {
                elements: old(self)@.elements.push(final(r)@),
                ..old(self)@
            }),
    {
        let mut a: Vec<(String, String)> = Vec::new();
        a.push(("d".to_owned(), d.to_owned()));
        proof {
            assert(pairs_view(a@) =~= seq![("d"@, d@)]);
        }
        self.add_element("path", a)
    }

    /// Appends a `text` element carrying the given text content.
    pub fn text(&mut self, content: &str) -> (r: &mut Element)
        ensures
            r@ == new_elem("text"@, seq![("text-content"@, content@)]),
            final(self)@ == (SvgView {
                elements: old(self)@.elements.push(final(r)@),
                ..old(self)@
            }),
    {
        let mut a: Vec<(String, String)> = Vec::new();
        a.push(("text-content".to_owned(), content.to_owned()));
        proof {
            assert(pairs_view(a@) =~= seq![("text-content"@, content@)]);
        }
        self.add_element("text", a)
    }

    /// Appends a `g` (group) element.
    pub fn group(&mut self) -> (r: &mut Element)
        ensures
            r@ == new_elem("g"@, Seq::empty()),
            final(self)@ == (SvgView {
                elements: old(self)@.elements.push(final(r)@),
                ..old(self)@
            }),
    {
        let a: Vec<(String, String)> = Vec::new();
        proof {
            assert(pairs_view(a@) =~= Seq::<(Seq<char>, Seq<char>)>::empty());
        }
        self.add_element("g", a)
    }

    /// Appends a `polyline` element with the given points string.
    pub fn polyline(&mut self, points: &str) -> (r: &mut Element)
        ensures
            r@ == new_elem("polyline"@, seq![("points"@, points@)]),
            final(self)@ == (SvgView {
                elements: old(self)@.elements.push(final(r)@),
                ..old(self)@
            }),
    {
        let mut a: Vec<(String, String)> = Vec::new();
        a.push(("points".to_owned(), points.to_owned()));
        proof {
            assert(pairs_view(a@) =~= seq![("points"@, points@)]);
        }
        self.add_element("polyline", a)
    }

    /// Appends a `polygon` element with the given points string.
    pub fn polygon(&mut self, points: &str) -> (r: &mut Element)
        ensures
            r@ == new_elem("polygon"@, seq![("points"@, points@)]),
            final(self)@ == (SvgView {
                elements: old(self)@.elements.push(final(r)@),
                ..old(self)@
            }),
    {
        let mut a: Vec<(String, String)> = Vec::new();
        a.push(("points".to_owned(), points.to_owned()));
        proof {
            assert(pairs_view(a@) =~= seq![("points"@, points@)]);
        }
        self.add_element("polygon", a)
    }

    /// Appends a `defs` container element.
    pub fn defs(&mut self) -> (r: &mut Element)
        ensures
            r@ == new_elem("defs"@, Seq::empty()),
            final(self)@ == (SvgView {
                elements: old(self)@.elements.push(final(r)@),
                ..old(self)@
            }),
    {
        let a: Vec<(String, String)> = Vec::new();
        proof {
            assert(pairs_view(a@) =~= Seq::<(Seq<char>, Seq<char>)>::empty());
        }
        self.add_element("defs", a)
    }

    /// Appends a `mask` element with the given id.
    pub fn mask(&mut self, id: &str) -> (r: &mut Element)
        ensures
            r@ == new_elem("mask"@, seq![("id"@, id@)]),
            final(self)@ == (SvgView {
                elements: old(self)@.elements.push(final(r)@),
                ..old(self)@
            }),
    {
        let mut a: Vec<(String, String)> = Vec::new();
        a.push(("id".to_owned(), id.to_owned()));
        proof {
            assert(pairs_view(a@) =~= seq![("id"@, id@)]);
        }
        self.add_element("mask", a)
    }

    /// Appends a `clipPath` element with the given id.
    pub fn clip_path(&mut self, id: &str) -> (r: &mut Element)
        ensures
            r@ == new_elem("clipPath"@, seq![("id"@, id@)]),
            final(self)@ == (SvgView {
                elements: old(self)@.elements.push(final(r)@),
                ..old(self)@
            }),
    {
        let mut a: Vec<(String, String)> = Vec::new();
        a.push(("id".to_owned(), id.to_owned()));
        proof {
            assert(pairs_view(a@) =~= seq![("id"@, id@)]);
        }
        self.add_element("clipPath", a)
    }

    /// Appends a `style` element carrying the given CSS text.
    pub fn style_element(&mut self, css: &str) -> (r: &mut Element)
        ensures
            r@ == new_elem("style"@, seq![("text-content"@, css@)]),
            final(self)@ == (SvgView {
                elements: old(self)@.elements.push(final(r)@),
                ..old(self)@
            }),
    {
        let mut a: Vec<(String, String)> = Vec::new();
        a.push(("text-content".to_owned(), css.to_owned()));
        proof {
            assert(pairs_view(a@) =~= seq![("text-content"@, css@)]);
        }
        self.add_element("style", a)
    }

    /// Appends an `image` element with the given source and size.
    pub fn image(&mut self, href: &str, width: u32, height: u32) -> (r: &mut Element)
        ensures
            r@ == new_elem(
                "image"@,
                seq![
                    ("href"@, href@),
                    ("width"@, dec_str(width as nat)),
                    ("height"@, dec_str(height as nat)),
                ],
            ),
            final(self)@ == (SvgView {
                elements: old(self)@.elements.push(final(r)@),
                ..old(self)@
            }),
    {
        let mut a: Vec<(String, String)> = Vec::new();
        a.push(("href".to_owned(), href.to_owned()));
        a.push(("width".to_owned(), u128_to_string(width as u128)));
        a.push(("height".to_owned(), u128_to_string(height as u128)));
        proof {
            assert(pairs_view(a@) =~= seq![
                ("href"@, href@),
                ("width"@, dec_str(width as nat)),
                ("height"@, dec_str(height as nat)),
            ]);
        }
        self.add_element("image", a)
    }

    /// Appends a `use` element referring to the given id.
    pub fn use_element(&mut self, href: &str) -> (r: &mut Element)
        ensures
            r@ == new_elem("use"@, seq![("href"@, "#"@ + href@)]),
            final(self)@ == (SvgView {
                elements: old(self)@.elements.push(final(r)@),
                ..old(self)@
            }),
    {
        let mut h: String = "#".to_owned();
        h.append(href);
        let mut a: Vec<(String, String)> = Vec::new();
        a.push(("href".to_owned(), h));
        proof {
            assert(pairs_view(a@) =~= seq![("href"@, "#"@ + href@)]);
        }
        self.add_element("use", a)
    }

    /// Appends a `marker` element of the given id and size, with the
    /// reference point at the origin and automatic orientation.
    pub fn marker(&mut self, id: &str, width: u32, height: u32) -> (r: &mut Element)
        ensures
            r@ == new_elem(
                "marker"@,
                seq![
                    ("id"@, id@),
                    ("markerWidth"@, dec_str(width as nat)),
                    ("markerHeight"@, dec_str(height as nat)),
                    ("refX"@, "0"@),
                    ("refY"@, "0"@),
                    ("orient"@, "auto"@),
                ],
            ),
            final(self)@ == (SvgView {
                elements: old(self)@.elements.push(final(r)@),
                ..old(self)@
            }),
    {
        let mut a: Vec<(String, String)> = Vec::new();
        a.push(("id".to_owned(), id.to_owned()));
        a.push(("markerWidth".to_owned(), u128_to_string(width as u128)));
        a.push(("markerHeight".to_owned(), u128_to_string(height as u128)));
        a.push(("refX".to_owned(), "0".to_owned()));
        a.push(("refY".to_owned(), "0".to_owned()));
        a.push(("orient".to_owned(), "auto".to_owned()));
        proof {
            assert(pairs_view(a@) =~= seq![
                ("id"@, id@),
                ("markerWidth"@, dec_str(width as nat)),
                ("markerHeight"@, dec_str(height as nat)),
                ("refX"@, "0"@),
                ("refY"@, "0"@),
                ("orient"@, "auto"@),
            ]);
        }
        self.add_element("marker", a)
    }

    /// Appends a `pattern` element of the given id and tile size, in
    /// user-space units.
    pub fn pattern(&mut self, id: &str, width: u32, height: u32) -> (r: &mut Element)
        ensures
            r@ == new_elem(
                "pattern"@,
                seq![
                    ("id"@, id@),
                    ("width"@, dec_str(width as nat)),
                    ("height"@, dec_str(height as nat)),
                    ("patternUnits"@, "userSpaceOnUse"@),
                ],
            ),
            final(self)@ == (SvgView {
                elements: old(self)@.elements.push(final(r)@),
                ..old(self)@
            }),
    {
        let mut a: Vec<(String, String)> = Vec::new();
        a.push(("id".to_owned(), id.to_owned()));
        a.push(("width".to_owned(), u128_to_string(width as u128)));
        a.push(("height".to_owned(), u128_to_string(height as u128)));
        a.push(("patternUnits".to_owned(), "userSpaceOnUse".to_owned()));
        proof {
            assert(pairs_view(a@) =~= seq![
                ("id"@, id@),
                ("width"@, dec_str(width as nat)),
                ("height"@, dec_str(height as nat)),
                ("patternUnits"@, "userSpaceOnUse"@),
            ]);
        }
        self.add_element("pattern", a)
    }

    /// Appends a `symbol` element with the given id.
    pub fn symbol(&mut self, id: &str) -> (r: &mut Element)
        ensures
            r@ == new_elem("symbol"@, seq![("id"@, id@)]),
            final(self)@ == (SvgView {
                elements: old(self)@.elements.push(final(r)@),
                ..old(self)@
            }),
    {
        let mut a: Vec<(String, String)> = Vec::new();
        a.push(("id".to_owned(), id.to_owned()));
        proof {
            assert(pairs_view(a@) =~= seq![("id"@, id@)]);
        }
        self.add_element("symbol", a)
    }

    /// Appends a `foreignObject` element of the given size.
    pub fn foreign_object(&mut self, width: u32, height: u32) -> (r: &mut Element)
        ensures
            r@ == new_elem(
                "foreignObject"@,
                seq![("width"@, dec_str(width as nat)), ("height"@, dec_str(height as nat))],
            ),
            final(self)@ == (SvgView {
                elements: old(self)@.elements.push(final(r)@),
                ..old(self)@
            }),
    {
        let mut a: Vec<(String, String)> = Vec::new();
        a.push(("width".to_owned(), u128_to_string(width as u128)));
        a.push(("height".to_owned(), u128_to_string(height as u128)));
        proof {
            assert(pairs_view(a@) =~= seq![
                ("width"@, dec_str(width as nat)),
                ("height"@, dec_str(height as nat)),
            ]);
        }
        self.add_element("foreignObject", a)
    }

    /// Appends an `a` (link) element with the given target.
    pub fn link(&mut self, href: &str) -> (r: &mut Element)
        ensures
            r@ == new_elem("a"@, seq![("href"@, href@)]),
            final(self)@ == (SvgView {
                elements: old(self)@.elements.push(final(r)@),
                ..old(self)@
            }),
    {
        let mut a: Vec<(String, String)> = Vec::new();
        a.push(("href".to_owned(), href.to_owned()));
        proof {
            assert(pairs_view(a@) =~= seq![("href"@, href@)]);
        }
        self.add_element("a", a)
    }
}

} // verus!
