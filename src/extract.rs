use vstd::prelude::*;
use crate::types::{meta_type, opt_view, OgType, WebData, WebDataView};

verus! {

/// The views of the attribute values read from the elements that a selector matched,
/// in document order; `None` where an element lacks the attribute.
pub open spec fn found_view(v: Seq<Option<String>>) -> Seq<Option<Seq<char>>> {
    v.map_values(|o: Option<String>| opt_view(o))
}

/// The value read from the first matched element; absent when nothing matched.
pub open spec fn first_found(s: Seq<Option<Seq<char>>>) -> Option<Seq<char>> {
    if s.len() == 0 {
        None
    } else {
        s[0]
    }
}

/// The values that were present, in order.
pub open spec fn present(s: Seq<Option<Seq<char>>>) -> Seq<Seq<char>>
    decreases s.len(),
{
    if s.len() == 0 {
        Seq::empty()
    } else {
        let rest = present(s.drop_last());
        match s.last() {
            Some(x) => rest.push(x),
            None => rest,
        }
    }
}

/// The accent colour: absent when no element matched, else the first element's value,
/// empty where it has none.
pub open spec fn colour_found(s: Seq<Option<Seq<char>>>) -> Option<Seq<char>> {
    if s.len() == 0 {
        None
    } else {
        match s[0] {
            Some(c) => Some(c),
            None => Some(Seq::empty()),
        }
    }
}

/// The media type named by the first matched element; a website when there is none.
pub open spec fn kind_found(s: Seq<Option<Seq<char>>>) -> OgType {
    match first_found(s) {
        Some(t) => meta_type(t),
        None => OgType::Website,
    }
}

/// The record made of a title and the values found for each metadata selector.
pub open spec fn record_of(
    title: Seq<char>,
    descriptions: Seq<Option<Seq<char>>>,
    kinds: Seq<Option<Seq<char>>>,
    image: Option<Seq<char>>,
    authors: Seq<Option<Seq<char>>>,
    colours: Seq<Option<Seq<char>>>,
) -> WebDataView {
    WebDataView {
        title,
        kind: kind_found(kinds),
        description: first_found(descriptions),
        image,
        author: present(authors),
        colour: colour_found(colours),
    }
}

fn clone_opt(o: &Option<String>) -> (r: Option<String>)
    ensures
        opt_view(r) == opt_view(*o),
{
    match o {
        Some(s) => Some(s.clone()),
        None => None,
    }
}

/// The value of the first matched element; absent, never an error, when nothing matched.
pub fn first_attribute(found: &Vec<Option<String>>) -> (r: Option<String>)
    ensures
        opt_view(r) == first_found(found_view(found@)),
        found@.len() == 0 ==> r.is_none(),
{
    if found.len() == 0 {
        None
    } else {
        clone_opt(&found[0])
    }
}

/// The values of all matched elements that have one, in document order.
pub fn present_attributes(found: &Vec<Option<String>>) -> (r: Vec<String>)
    ensures
        r@.map_values(|a: String| a@) == present(found_view(found@)),
        found@.len() == 0 ==> r@.len() == 0,
{
    let mut r: Vec<String> = Vec::new();
    let mut i: usize = 0;
    while i < found.len()
        invariant
            i <= found@.len(),
            r@.map_values(|a: String| a@) == present(found_view(found@).subrange(0, i as int)),
        decreases found@.len() - i,
    {
        let ghost before = r@;
        proof {
            let s = found_view(found@);
            assert(s.subrange(0, i + 1).drop_last() =~= s.subrange(0, i as int));
        }
        match &found[i] {
            Some(v) => {
                r.push(v.clone());
                assert(r@.map_values(|a: String| a@) =~= before.map_values(|a: String| a@).push(
                    v@,
                ));
            },
            None => {},
        }
        i = i + 1;
    }
    assert(found_view(found@).subrange(0, found@.len() as int) =~= found_view(found@));
    r
}

/// The accent colour read from the matched theme-colour elements: absent, not an
/// error, when the page has none.
pub fn accent_colour(found: &Vec<Option<String>>) -> (r: Option<String>)
    ensures
        opt_view(r) == colour_found(found_view(found@)),
        found@.len() == 0 ==> r.is_none(),
{
    if found.len() == 0 {
        None
    } else {
        match &found[0] {
            Some(c) => Some(c.clone()),
            None => Some(String::new()),
        }
    }
}

/// The media type read from the matched `og:type` elements.
pub fn media_type(found: &Vec<Option<String>>) -> (r: OgType)
    ensures
        r == kind_found(found_view(found@)),
{
    if found.len() == 0 {
        OgType::Website
    } else {
        match &found[0] {
            Some(t) => OgType::from_meta(t.as_str()),
            None => OgType::Website,
        }
    }
}

/// Whether every read of an attribute succeeded.
pub open spec fn all_read(reads: Seq<Option<Option<String>>>) -> bool {
    forall|i: int| 0 <= i < reads.len() ==> #[trigger] reads[i] is Some
}

/// The attribute values of a batch of reads issued together, where `None` marks a
/// failed read: the values where all succeeded, else nothing, so that a failed batch
/// leaves the field empty.
pub fn settle_reads(reads: &Vec<Option<Option<String>>>) -> (r: Vec<Option<String>>)
    ensures
        all_read(reads@) ==> r@.len() == reads@.len() && forall|i: int|
            0 <= i < r@.len() ==> opt_view(#[trigger] r@[i]) == opt_view(reads@[i]->0),
        !all_read(reads@) ==> r@.len() == 0,
{
    let mut r: Vec<Option<String>> = Vec::new();
    let mut i: usize = 0;
    while i < reads.len()
        invariant
            i <= reads@.len(),
            r@.len() == i,
            forall|j: int| 0 <= j < i ==> #[trigger] reads@[j] is Some,
            forall|j: int| 0 <= j < i ==> opt_view(#[trigger] r@[j]) == opt_view(reads@[j]->0),
        decreases reads@.len() - i,
    {
        match &reads[i] {
            Some(v) => r.push(clone_opt(v)),
            None => return Vec::new(),
        }
        i = i + 1;
    }
    r
}

/// The attribute values of reads issued one by one, where `None` marks a failed read:
/// a failed read counts as an absent value.
pub fn reads_or_absent(reads: &Vec<Option<Option<String>>>) -> (r: Vec<Option<String>>)
    ensures
        r@.len() == reads@.len(),
        forall|i: int|
            0 <= i < r@.len() ==> opt_view(#[trigger] r@[i]) == match reads@[i] {
                Some(v) => opt_view(v),
                None => None,
            },
{
    let mut r: Vec<Option<String>> = Vec::new();
    let mut i: usize = 0;
    while i < reads.len()
        invariant
            i <= reads@.len(),
            r@.len() == i,
            forall|j: int|
                0 <= j < i ==> opt_view(#[trigger] r@[j]) == match reads@[j] {
                    Some(v) => opt_view(v),
                    None => None,
                },
        decreases reads@.len() - i,
    {
        match &reads[i] {
            Some(v) => r.push(clone_opt(v)),
            None => r.push(None),
        }
        i = i + 1;
    }
    r
}

/// Builds the record of a page from its title, its resolved image and the values
/// that the description, type, author and theme-colour selectors found.
pub fn web_data_from(
    title: String,
    descriptions: &Vec<Option<String>>,
    kinds: &Vec<Option<String>>,
    image: Option<String>,
    authors: &Vec<Option<String>>,
    colours: &Vec<Option<String>>,
) -> (r: WebData)
    ensures
        r@ == record_of(
            title@,
            found_view(descriptions@),
            found_view(kinds@),
            opt_view(image),
            found_view(authors@),
            found_view(colours@),
        ),
{
    WebData {
        title,
        kind: media_type(kinds),
        description: first_attribute(descriptions),
        image,
        author: present_attributes(authors),
        colour: accent_colour(colours),
    }
}

} // verus!
