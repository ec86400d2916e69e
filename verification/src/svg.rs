//! The markup encoder: one tag with its attributes and optional body.
//!
//! An attribute whose name or value is the empty string is omitted from the
//! tag entirely; this single rule is how every optional style becomes
//! conditional without per-attribute branching.

use vstd::prelude::*;
use crate::decimal::{spec_tenths_text, format_tenths};

verus! {

/// The text one attribute contributes to a tag: nothing when its name or
/// value is empty, else ` name="value"`.
pub open spec fn spec_attr_text(k: Seq<char>, v: Seq<char>) -> Seq<char> {
    if k.len() == 0 || v.len() == 0 {
        Seq::<char>::empty()
    } else {
        seq![' '] + k + seq!['=', '"'] + v + seq!['"']
    }
}

/// The text a whole attribute list contributes, in order.
pub open spec fn spec_attrs_text(attrs: Seq<(Seq<char>, Seq<char>)>) -> Seq<char>
    decreases attrs.len(),
{
    if attrs.len() == 0 {
        Seq::<char>::empty()
    } else {
        spec_attrs_text(attrs.drop_last()) + spec_attr_text(attrs.last().0, attrs.last().1)
    }
}

/// The view of an executable attribute list.
pub open spec fn spec_view_attrs(attrs: Seq<(String, String)>) -> Seq<(Seq<char>, Seq<char>)> {
    attrs.map_values(|p: (String, String)| (p.0@, p.1@))
}

/// The text of one tag: `<tag attrs>\nbody\n</tag>` with a body,
/// `<tag attrs/>` without one.
pub open spec fn spec_tag_text(
    tag: Seq<char>,
    attrs: Seq<(Seq<char>, Seq<char>)>,
    data: Option<Seq<char>>,
) -> Seq<char> {
    let head = seq!['<'] + tag + spec_attrs_text(attrs);
    match data {
        Some(d) => head + seq!['>', '\n'] + d + seq!['\n', '<', '/'] + tag + seq!['>'],
        None => head + seq!['/', '>'],
    }
}

/// One markup tag: its name, its attributes in emission order, and its
/// optional body.
pub struct SVGTag {
    pub tag: String,
    pub attrs: Vec<(String, String)>,
    pub data: Option<String>,
}

impl SVGTag {
    /// The text this tag renders to.
    pub open spec fn spec_text(self) -> Seq<char> {
        spec_tag_text(
            self.tag@,
            spec_view_attrs(self.attrs@),
            match self.data {
                Some(d) => Some(d@),
                None => None,
            },
        )
    }

    /// A tag with a body.
    pub fn new(tag: &str, data: String, attrs: Vec<(String, String)>) -> (t: SVGTag)
        ensures
            t.tag@ == tag@,
            t.attrs == attrs,
            t.data == Some(data),
    {
        SVGTag { tag: tag.to_owned(), attrs, data: Some(data) }
    }

    /// A tag without a body.
    pub fn leaf(tag: &str, attrs: Vec<(String, String)>) -> (t: SVGTag)
        ensures
            t.tag@ == tag@,
            t.attrs == attrs,
            t.data is None,
    {
        SVGTag { tag: tag.to_owned(), attrs, data: None }
    }

    /// Renders this tag, omitting every attribute whose name or value is
    /// empty.
    pub fn text(&self) -> (s: String)
        ensures
            s@ == self.spec_text(),
    {
        let mut s = String::new();
        proof {
            reveal_strlit("<");
            reveal_strlit(" ");
            reveal_strlit("=\"");
            reveal_strlit("\"");
            reveal_strlit(">\n");
            reveal_strlit("\n</");
            reveal_strlit(">");
            reveal_strlit("/>");
        }
        s.append("<");
        s.append(self.tag.as_str());
        let n = self.attrs.len();
        let mut i: usize = 0;
        while i < n
            invariant
                i <= n,
                n == self.attrs.len(),
                s@ == seq!['<'] + self.tag@ + spec_attrs_text(
                    spec_view_attrs(self.attrs@).take(i as int),
                ),
            decreases n - i,
        {
            let ghost pre = spec_view_attrs(self.attrs@).take(i as int);
            let ghost cur = spec_view_attrs(self.attrs@).take(i + 1 as int);
            proof {
                reveal_strlit(" ");
                reveal_strlit("=\"");
                reveal_strlit("\"");
                assert(cur.drop_last() =~= pre);
                assert(cur.last() == spec_view_attrs(self.attrs@)[i as int]);
                assert(spec_view_attrs(self.attrs@)[i as int] == (
                    self.attrs@[i as int].0@,
                    self.attrs@[i as int].1@,
                ));
                assert(spec_attrs_text(cur) == spec_attrs_text(pre) + spec_attr_text(
                    self.attrs@[i as int].0@,
                    self.attrs@[i as int].1@,
                ));
            }
            let k = &self.attrs[i].0;
            let v = &self.attrs[i].1;
            if !k.as_str().is_empty() && !v.as_str().is_empty() {
                s.append(" ");
                s.append(k.as_str());
                s.append("=\"");
                s.append(v.as_str());
                s.append("\"");
                proof {
                    assert(spec_attr_text(k@, v@) == seq![' '] + k@ + seq!['=', '"'] + v@
                        + seq!['"']);
                    assert(s@ =~= seq!['<'] + self.tag@ + spec_attrs_text(pre) + spec_attr_text(
                        k@,
                        v@,
                    ));
                }
            } else {
                proof {
                    assert(spec_attr_text(k@, v@) == Seq::<char>::empty());
                }
            }
            proof {
                assert(s@ =~= seq!['<'] + self.tag@ + spec_attrs_text(cur));
            }
            i = i + 1;
        }
        proof {
            assert(spec_view_attrs(self.attrs@).take(n as int) =~= spec_view_attrs(self.attrs@));
        }
        match &self.data {
            Some(d) => {
                s.append(">\n");
                s.append(d.as_str());
                s.append("\n</");
                s.append(self.tag.as_str());
                s.append(">");
            },
            None => {
                s.append("/>");
            },
        }
        assert(s@ =~= self.spec_text());
        s
    }
}

/// The text of the document envelope around the accumulated fragments.
pub open spec fn spec_document_text(width: int, height: int, data: Seq<char>) -> Seq<char> {
    spec_tag_text(
        "svg"@,
        seq![
            ("width"@, spec_tenths_text(width)),
            ("height"@, spec_tenths_text(height)),
            ("viewBox"@, "0 0 "@ + spec_tenths_text(width) + seq![' '] + spec_tenths_text(height)),
            ("xmlns"@, "http://www.w3.org/2000/svg"@),
        ],
        Some(data),
    )
}

/// Wraps accumulated fragment text in one document envelope carrying the
/// width, height and view box.
pub fn generate_svg(width: i64, height: i64, data: String) -> (s: String)
    requires
        width > i64::MIN,
        height > i64::MIN,
    ensures
        s@ == spec_document_text(width as int, height as int, data@),
{
    let w_text = format_tenths(width);
    let h_text = format_tenths(height);
    let mut view_box = String::new();
    proof {
        reveal_strlit("0 0 ");
        reveal_strlit(" ");
    }
    view_box.append("0 0 ");
    view_box.append(w_text.as_str());
    view_box.append(" ");
    view_box.append(h_text.as_str());
    let mut attrs: Vec<(String, String)> = Vec::new();
    proof {
        reveal_strlit("width");
        reveal_strlit("height");
        reveal_strlit("viewBox");
        reveal_strlit("xmlns");
        reveal_strlit("http://www.w3.org/2000/svg");
        reveal_strlit("svg");
    }
    attrs.push(("width".to_owned(), w_text));
    attrs.push(("height".to_owned(), h_text));
    attrs.push(("viewBox".to_owned(), view_box));
    attrs.push(("xmlns".to_owned(), "http://www.w3.org/2000/svg".to_owned()));
    let tag = SVGTag::new("svg", data, attrs);
    let s = tag.text();
    proof {
        assert(spec_view_attrs(tag.attrs@) =~~= seq![
            ("width"@, spec_tenths_text(width as int)),
            ("height"@, spec_tenths_text(height as int)),
            (
                "viewBox"@,
                "0 0 "@ + spec_tenths_text(width as int) + seq![' ']
                    + spec_tenths_text(height as int),
            ),
            ("xmlns"@, "http://www.w3.org/2000/svg"@),
        ]);
        assert(s@ =~= spec_document_text(width as int, height as int, data@));
    }
    s
}

} // verus!
