//! Class-list and inline-style management of elements: token-based
//! membership, append, removal and toggling of class names, and the
//! show/hide convenience built on the `style` attribute.
//!
//! The class list is a plain token list: appending does not
//! deduplicate, and removal filters by exact token match.

use vstd::prelude::*;

use crate::attrs::attr_get;
use crate::attrs::attr_remove;
use crate::attrs::get_key;
use crate::attrs::remove_key;
use crate::element::Element;
use crate::element::ElemView;
use crate::element::with_attr;
use crate::textops::contains_sub;
use crate::textops::filter_ne;
use crate::textops::join_sp;
use crate::textops::replace_all;
use crate::textops::split_ws;
use crate::textops::trim_sp;
use crate::textops::any_token_eq;
use crate::textops::contains_str;
use crate::textops::filter_tokens;
use crate::textops::join_tokens;
use crate::textops::replace_str;
use crate::textops::split_tokens;
use crate::textops::trim_str;

verus! {

/// Whether the element's class list holds the given token.
pub open spec fn has_class_of(e: ElemView, name: Seq<char>) -> bool {
    match get_key(e.attrs, "class"@) {
        Option::None => false,
        Option::Some(c) => split_ws(c).contains(name),
    }
}

/// The element with the token appended to its class list, space
/// separated; an empty or absent list becomes just the token.
pub open spec fn class_added(e: ElemView, name: Seq<char>) -> ElemView {
    let cur = match get_key(e.attrs, "class"@) {
        Option::None => Seq::<char>::empty(),
        Option::Some(c) => c,
    };
    if cur.len() == 0 {
        with_attr(e, "class"@, name)
    } else {
        with_attr(e, "class"@, cur + " "@ + name)
    }
}

/// The element with every occurrence of the token filtered out of its
/// class list; the `class` attribute disappears when nothing is left.
pub open spec fn class_removed(e: ElemView, name: Seq<char>) -> ElemView {
    match get_key(e.attrs, "class"@) {
        Option::None => e,
        Option::Some(c) => {
            let ts = filter_ne(split_ws(c), name);
            if ts.len() == 0 {
                ElemView { attrs: remove_key(e.attrs, "class"@), ..e }
            } else {
                with_attr(e, "class"@, join_sp(ts))
            }
        },
    }
}

/// The element with `display: none` stripped from its inline style
/// and the result trimmed; the `style` attribute disappears when
/// nothing is left.
pub open spec fn style_shown(e: ElemView) -> ElemView {
    let cur = match get_key(e.attrs, "style"@) {
        Option::None => Seq::<char>::empty(),
        Option::Some(c) => c,
    };
    let ns = trim_sp(replace_all(cur, "display: none"@, Seq::empty()));
    if ns.len() == 0 {
        ElemView { attrs: remove_key(e.attrs, "style"@), ..e }
    } else {
        with_attr(e, "style"@, ns)
    }
}

/// Whether the element is visible: its inline style does not mention
/// `display: none`.
pub open spec fn visible_of(e: ElemView) -> bool {
    match get_key(e.attrs, "style"@) {
        Option::None => true,
        Option::Some(c) => !contains_sub(c, "display: none"@),
    }
}

impl Element {
    /// Whether the class list holds the given token.
    pub fn has_class(&self, class_name: &str) -> (r: bool)
        ensures
            r == has_class_of(self@, class_name@),
    {
        broadcast use crate::element::lemma_view_unfold;

        match attr_get(&self.attrs, "class") {
            Option::None => false,
            Option::Some(v) => {
                let ts = split_tokens(v.as_str());
                any_token_eq(&ts, class_name)
            },
        }
    }

    /// Appends a token to the class list. Duplicates are kept: the
    /// list is a plain token list, not a set.
    pub fn add_class(&mut self, class_name: &str) -> (r: &mut Element)
        ensures
            r@ == class_added(old(self)@, class_name@),
            *final(self) == *final(r),
    {
        broadcast use crate::element::lemma_view_unfold;

        let cur: String = match attr_get(&self.attrs, "class") {
            Option::None => String::new(),
            Option::Some(v) => v.clone(),
        };
        if cur.as_str().is_empty() {
            self.set_attr("class", class_name)
        } else {
            let mut nc = cur;
            nc.append(" ");
            nc.append(class_name);
            self.set_attr("class", nc.as_str())
        }
    }

    /// Removes every occurrence of a token from the class list,
    /// dropping the `class` attribute when the list ends up empty.
    pub fn remove_class(&mut self, class_name: &str) -> (r: &mut Element)
        ensures
            r@ == class_removed(old(self)@, class_name@),
            *final(self) == *final(r),
    {
        broadcast use crate::element::lemma_view_unfold;

        let cur: Option<String> = match attr_get(&self.attrs, "class") {
            Option::None => Option::None,
            Option::Some(v) => Option::Some(v.clone()),
        };
        match cur {
            Option::None => self,
            Option::Some(c) => {
                let ts = split_tokens(c.as_str());
                let kept = filter_tokens(ts, class_name);
                if kept.len() == 0 {
                    proof {
                        assert(filter_ne(split_ws(c@), class_name@).len() == 0);
                    }
                    attr_remove(&mut self.attrs, "class");
                    self
                } else {
                    let j = join_tokens(&kept);
                    self.set_attr("class", j.as_str())
                }
            },
        }
    }

    /// Removes the token when present, else appends it.
    pub fn toggle_class(&mut self, class_name: &str) -> (r: &mut Element)
        ensures
            r@ == (if has_class_of(old(self)@, class_name@) {
                class_removed(old(self)@, class_name@)
            } else {
                class_added(old(self)@, class_name@)
            }),
            *final(self) == *final(r),
    {
        if self.has_class(class_name) {
            self.remove_class(class_name)
        } else {
            self.add_class(class_name)
        }
    }

    /// Hides the element through its inline style.
    pub fn hide_element(&mut self) -> (r: &mut Element)
        ensures
            r@ == with_attr(old(self)@, "style"@, "display: none"@),
            *final(self) == *final(r),
    {
        self.style("display: none")
    }

    /// Undoes `hide_element`: strips `display: none` from the style,
    /// dropping the `style` attribute when nothing else is left.
    pub fn show(&mut self) -> (r: &mut Element)
        ensures
            r@ == style_shown(old(self)@),
            *final(self) == *final(r),
    {
        broadcast use crate::element::lemma_view_unfold;

        let cur: String = match attr_get(&self.attrs, "style") {
            Option::None => String::new(),
            Option::Some(v) => v.clone(),
        };
        let replaced = replace_str(cur.as_str(), "display: none", "");
        let trimmed = trim_str(replaced.as_str());
        proof {
            reveal_strlit("");
            assert(""@ =~= Seq::<char>::empty());
        }
        if trimmed.as_str().is_empty() {
            attr_remove(&mut self.attrs, "style");
            self
        } else {
            self.set_attr("style", trimmed.as_str())
        }
    }

    /// Whether the element is visible (no `display: none` in its
    /// inline style).
    pub fn visible(&self) -> (r: bool)
        ensures
            r == visible_of(self@),
    {
        broadcast use crate::element::lemma_view_unfold;

        match attr_get(&self.attrs, "style") {
            Option::None => true,
            Option::Some(v) => !contains_str(v.as_str(), "display: none"),
        }
    }
}

} // verus!
