//! Links: named URLs, bare or with metadata, and their `links` object.
use vstd::prelude::*;
use crate::text::json_string;
use crate::text::json_string_of;
use crate::text::joined;
use crate::text::lemma_joined_push;

verus! {

/// A link with metadata: `{"href": ..., "meta": ...}`. The metadata may have
/// any shape, so it is held as the JSON text it serializes to.
pub struct LinkObject {
    pub href: String,
    pub meta: String,
}

impl LinkObject {
    /// A link object with the given `href` and metadata text.
    pub fn new(href: String, meta: String) -> (r: LinkObject)
        ensures
            r.href == href,
            r.meta == meta,
    {
        LinkObject { href, meta }
    }
}

/// One entry of a `links` object: a key with a bare URL, or a key with a
/// link object.
pub enum LinksObject {
    Url(String, String),
    Object(String, LinkObject),
}

/// The name under which applications usually refer to a links entry.
pub type Link = LinksObject;

/// A type whose resources carry links. The default is no links, and then no
/// `links` member appears anywhere. The links of a single resource are the
/// links of its document; those of a list are given with the list. Keys are
/// written as given and in order: a key given twice is written twice.
///
/// An implementation promises that `get_links` is a function of the value,
/// `spec_links`; a type without links returns an empty list.
pub trait Linkify {
    /// The links of the value. Generic code knows them only as what
    /// `get_links` returns; they are not given here.
    closed spec fn spec_links(&self) -> Seq<LinksObject> {
        arbitrary()
    }

    /// The links of this resource, in the order they are written.
    fn get_links(&self) -> (r: Vec<LinksObject>)
        ensures
            r@ == self.spec_links(),
    ;
}

/// The JSON text of a link object.
pub open spec fn link_object_text(o: LinkObject) -> Seq<char> {
    "{\"href\":"@ + json_string_of(o.href@) + ",\"meta\":"@ + o.meta@ + "}"@
}

/// The member that a links entry adds to a `links` object.
pub open spec fn link_member_text(l: LinksObject) -> Seq<char> {
    match l {
        LinksObject::Url(key, url) => json_string_of(key@) + ":"@ + json_string_of(url@),
        LinksObject::Object(key, o) => json_string_of(key@) + ":"@ + link_object_text(o),
    }
}

/// The `links` object: one member per entry, in the order of the entries.
/// An empty list is written as `null`, never as an empty object; documents
/// leave the member out instead.
pub open spec fn links_text(links: Seq<LinksObject>) -> Seq<char> {
    if links.len() == 0 {
        "null"@
    } else {
        "{"@ + joined(links.map_values(|l: LinksObject| link_member_text(l))) + "}"@
    }
}

/// Writes the member of one links entry.
pub fn link_member(l: &LinksObject) -> (r: String)
    ensures
        r@ == link_member_text(*l),
{
    match l {
        LinksObject::Url(key, url) => {
            let mut out = json_string(key.as_str());
            out.append(":");
            let u = json_string(url.as_str());
            out.append(u.as_str());
            out
        },
        LinksObject::Object(key, o) => {
            let mut out = json_string(key.as_str());
            out.append(":");
            out.append("{\"href\":");
            let h = json_string(o.href.as_str());
            out.append(h.as_str());
            out.append(",\"meta\":");
            out.append(o.meta.as_str());
            out.append("}");
            proof {
                assert(out@ =~= link_member_text(*l));
            }
            out
        },
    }
}

/// Serializes a list of links as the `links` object, keys in list order.
pub struct LinksSerialize<'a>(pub &'a Vec<LinksObject>);

impl<'a> LinksSerialize<'a> {
    /// The `links` object of the list.
    pub fn serialize(&self) -> (r: String)
        ensures
            r@ == links_text(self.0@),
    {
        let links = self.0;
        if links.len() == 0 {
            let mut none = String::new();
            none.append("null");
            return none;
        }
        let ghost parts = links@.map_values(|l: LinksObject| link_member_text(l));
        let mut out = String::new();
        out.append("{");
        let mut i: usize = 0;
        while i < links.len()
            invariant
                i <= links.len(),
                parts == links@.map_values(|l: LinksObject| link_member_text(l)),
                out@ == "{"@ + joined(parts.take(i as int)),
            decreases links.len() - i,
        {
            proof {
                lemma_joined_push(parts, i as int);
            }
            if i > 0 {
                out.append(",");
            }
            let m = link_member(&links[i]);
            out.append(m.as_str());
            i = i + 1;
        }
        out.append("}");
        proof {
            assert(parts.take(links.len() as int) =~= parts);
        }
        out
    }
}

/// Two links, a bare URL under `self` and then a link object under
/// `something`, make a `links` object with those two members in that order:
/// the URL as a string, the link object with its `href` and `meta`.
pub proof fn lemma_two_links(self_key: String, url: String, other_key: String, link: LinkObject)
    requires
        self_key@ == "self"@,
        other_key@ == "something"@,
    ensures
        links_text(seq![LinksObject::Url(self_key, url), LinksObject::Object(other_key, link)])
            == "{"@ + (json_string_of("self"@) + ":"@ + json_string_of(url@)) + ","@ + (
        json_string_of("something"@) + ":"@ + ("{\"href\":"@ + json_string_of(link.href@)
            + ",\"meta\":"@ + link.meta@ + "}"@)) + "}"@,
{
    let links = seq![LinksObject::Url(self_key, url), LinksObject::Object(other_key, link)];
    let parts = links.map_values(|l: LinksObject| link_member_text(l));
    assert(parts.len() == 2);
    assert(parts.drop_last().len() == 1);
    assert(joined(parts.drop_last()) == parts[0]);
    assert(joined(parts) == parts[0] + ","@ + parts[1]);
}

} // verus!
