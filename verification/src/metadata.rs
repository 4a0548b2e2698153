//! Normalization of the loosely-typed track metadata a player exposes.
//!
//! A player's property bag may lack entries, hold non-text values, or hold an
//! artist list of mixed shapes. Normalization always produces two populated
//! text fields, substituting a sentinel for anything missing, malformed or
//! empty.

use vstd::prelude::*;
use vstd::string::StringExecFns;

verus! {

/// One value of a player's property bag, reduced to the shapes the
/// normalization rules distinguish: a text value, an ordered list of values,
/// or anything else.
#[derive(Debug)]
pub enum PropValue {
    Text(String),
    List(Vec<PropValue>),
    Other,
}

/// The two property-bag entries the menu reads: the track title and the
/// artist value, each possibly absent.
#[derive(Debug)]
pub struct PropertyBag {
    pub title: Option<PropValue>,
    pub artist: Option<PropValue>,
}

/// Normalized track metadata: both fields are always populated, with the
/// sentinel text standing in for anything missing, malformed or empty.
#[derive(Debug)]
pub struct TrackMetadata {
    pub title: String,
    pub artist: String,
}

impl TrackMetadata {
    /// Both fields are populated: normalization never leaves one empty.
    pub open spec fn wf(&self) -> bool {
        self.title@.len() > 0 && self.artist@.len() > 0
    }
}

/// The sentinel text substituted for a missing, malformed or empty field.
pub open spec fn not_available() -> Seq<char> {
    "Not available"@
}

/// The separator placed between the artists of a joined artist list.
pub open spec fn artist_separator() -> Seq<char> {
    ", "@
}

/// The normalized title of a property bag: a present, non-empty text value is
/// kept as it is; an absent bag, an absent entry, a non-text value or empty
/// text becomes the sentinel.
pub open spec fn normalized_title(bag: Option<PropertyBag>) -> Seq<char> {
    match bag {
        Option::Some(b) => match b.title {
            Option::Some(PropValue::Text(t)) => if t@.len() == 0 {
                not_available()
            } else {
                t@
            },
            _ => not_available(),
        },
        Option::None => not_available(),
    }
}

/// The text elements of an artist list, in source order; elements that are
/// not text values do not contribute.
pub open spec fn text_parts(items: Seq<PropValue>) -> Seq<Seq<char>>
    decreases items.len(),
{
    if items.len() == 0 {
        Seq::empty()
    } else {
        match items.last() {
            PropValue::Text(t) => text_parts(items.drop_last()).push(t@),
            _ => text_parts(items.drop_last()),
        }
    }
}

/// The parts joined with the separator, in order.
pub open spec fn join_with(parts: Seq<Seq<char>>, sep: Seq<char>) -> Seq<char>
    decreases parts.len(),
{
    if parts.len() == 0 {
        Seq::empty()
    } else if parts.len() == 1 {
        parts[0]
    } else {
        join_with(parts.drop_last(), sep) + sep + parts.last()
    }
}

/// The text an artist list contributes before the empty-text fallback: its
/// text elements joined with the separator.
pub open spec fn joined_artist(items: Seq<PropValue>) -> Seq<char> {
    join_with(text_parts(items), artist_separator())
}

/// The normalized artist of a property bag: the joined text elements of a
/// list value, unless the join is empty; everything else becomes the
/// sentinel.
pub open spec fn normalized_artist(bag: Option<PropertyBag>) -> Seq<char> {
    match bag {
        Option::Some(b) => match b.artist {
            Option::Some(PropValue::List(items)) => if joined_artist(items@).len() == 0 {
                not_available()
            } else {
                joined_artist(items@)
            },
            _ => not_available(),
        },
        Option::None => not_available(),
    }
}

/// The sentinel text as an owned value.
pub fn not_available_text() -> (r: String)
    ensures
        r@ == not_available(),
{
    "Not available".to_owned()
}

proof fn lemma_text_parts_take_step(items: Seq<PropValue>, k: int)
    requires
        0 <= k < items.len(),
    ensures
        text_parts(items.take(k + 1)) == (match items[k] {
            PropValue::Text(t) => text_parts(items.take(k)).push(t@),
            _ => text_parts(items.take(k)),
        }),
{
    let pre = items.take(k + 1);
    assert(pre.drop_last() =~= items.take(k));
    assert(pre.last() == items[k]);
}

proof fn lemma_join_with_push(parts: Seq<Seq<char>>, sep: Seq<char>, p: Seq<char>)
    ensures
        join_with(parts.push(p), sep) == (if parts.len() == 0 {
            p
        } else {
            join_with(parts, sep) + sep + p
        }),
{
    let whole = parts.push(p);
    if parts.len() == 0 {
        assert(whole[0] == p);
    } else {
        assert(whole.drop_last() =~= parts);
        assert(whole.last() == p);
    }
}

/// Join the text elements of an artist list with ", ", in source order.
pub fn join_text_items(items: &Vec<PropValue>) -> (r: String)
    ensures
        r@ == joined_artist(items@),
{
    let mut joined = String::new();
    let mut count: usize = 0;
    let mut k: usize = 0;
    while k < items.len()
        invariant
            k <= items@.len(),
            count <= k,
            count as int == text_parts(items@.take(k as int)).len(),
            joined@ == join_with(text_parts(items@.take(k as int)), artist_separator()),
        decreases items@.len() - k,
    {
        proof {
            lemma_text_parts_take_step(items@, k as int);
        }
        match &items[k] {
            PropValue::Text(t) => {
                proof {
                    lemma_join_with_push(
                        text_parts(items@.take(k as int)),
                        artist_separator(),
                        t@,
                    );
                }
                if count > 0 {
                    joined.append(", ");
                } else {
                    assert(joined@ =~= Seq::<char>::empty());
                }
                joined.append(t.as_str());
                proof {
                    if count == 0 {
                        assert(Seq::<char>::empty() + t@ =~= t@);
                    }
                }
                count = count + 1;
            },
            _ => {},
        }
        k = k + 1;
    }
    proof {
        assert(items@.take(items@.len() as int) =~= items@);
    }
    joined
}

/// Normalize a player's property bag (absent entirely when the bag could not
/// be read) into fully-populated track metadata.
///
/// Title: a present, non-empty text value is kept; anything else becomes the
/// sentinel. Artist: the text elements of a list value are joined with ", "
/// in source order (a one-element list is that element itself); an empty
/// join, or any non-list value, becomes the sentinel.
pub fn normalize_metadata(bag: &Option<PropertyBag>) -> (m: TrackMetadata)
    ensures
        m.title@ == normalized_title(*bag),
        m.artist@ == normalized_artist(*bag),
        m.wf(),
{
    proof {
        lemma_normalized_fields_nonempty(*bag);
    }
    let title: String = match bag {
        Option::Some(b) => match &b.title {
            Option::Some(PropValue::Text(t)) => if t.as_str().is_empty() {
                not_available_text()
            } else {
                t.clone()
            },
            _ => not_available_text(),
        },
        Option::None => not_available_text(),
    };
    let artist: String = match bag {
        Option::Some(b) => match &b.artist {
            Option::Some(PropValue::List(items)) => {
                let joined = join_text_items(items);
                if joined.as_str().is_empty() {
                    not_available_text()
                } else {
                    joined
                }
            },
            _ => not_available_text(),
        },
        Option::None => not_available_text(),
    };
    TrackMetadata { title, artist }
}

/// Law: a property bag without a title entry normalizes its title to the
/// sentinel text.
pub proof fn lemma_missing_title_sentinel(bag: PropertyBag)
    requires
        bag.title is None,
    ensures
        normalized_title(Option::Some(bag)) == not_available(),
{
}

/// Law: an artist value that is a one-element list holding non-empty text
/// normalizes to exactly that text.
pub proof fn lemma_single_artist_text(title: Option<PropValue>, items: Vec<PropValue>, t: String)
    requires
        items@.len() == 1,
        items@[0] == PropValue::Text(t),
        t@.len() > 0,
    ensures
        normalized_artist(
            Option::Some((PropertyBag { title, artist: Option::Some(PropValue::List(items)) })),
        ) == t@,
{
    assert(items@.drop_last() =~= Seq::<PropValue>::empty());
    assert(text_parts(Seq::<PropValue>::empty()) =~= Seq::<Seq<char>>::empty());
    assert(items@.last() == PropValue::Text(t));
    assert(text_parts(items@) =~= Seq::<Seq<char>>::empty().push(t@));
}

proof fn lemma_text_parts_all_text(items: Seq<PropValue>)
    requires
        forall|i: int| 0 <= i < items.len() ==> items[i] is Text,
    ensures
        text_parts(items).len() == items.len(),
        forall|i: int| 0 <= i < items.len() ==> text_parts(items)[i] == (items[i]->Text_0)@,
    decreases items.len(),
{
    if items.len() > 0 {
        lemma_text_parts_all_text(items.drop_last());
    }
}

/// Law: an artist value that is a list of two or more text elements
/// normalizes to the element texts joined with ", " in source order.
pub proof fn lemma_multi_artist_join(title: Option<PropValue>, items: Vec<PropValue>)
    requires
        items@.len() >= 2,
        forall|i: int| 0 <= i < items@.len() ==> items@[i] is Text,
    ensures
        text_parts(items@).len() == items@.len(),
        forall|i: int| 0 <= i < items@.len() ==> text_parts(items@)[i] == (items@[i]->Text_0)@,
        normalized_artist(
            Option::Some((PropertyBag { title, artist: Option::Some(PropValue::List(items)) })),
        ) == join_with(text_parts(items@), artist_separator()),
{
    lemma_text_parts_all_text(items@);
    reveal_strlit(", ");
    assert(joined_artist(items@).len() >= artist_separator().len());
}

/// Law: normalization never produces an empty field — in particular an
/// artist list whose texts join to the empty text is replaced by the
/// sentinel, never left blank.
pub proof fn lemma_normalized_fields_nonempty(bag: Option<PropertyBag>)
    ensures
        normalized_title(bag).len() > 0,
        normalized_artist(bag).len() > 0,
{
    reveal_strlit("Not available");
}

} // verus!
