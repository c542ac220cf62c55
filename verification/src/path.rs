//! The path classifier: tells from a request path which fix-ups apply.

use crate::deprecation::{Deprecation, Deprecation20241130, DeprecationView};
use vstd::prelude::*;

verus! {

/// `String::push` appends one character.
pub assume_specification[ std::string::String::push ](s: &mut std::string::String, ch: char)
    ensures
        final(s)@ == old(s)@.push(ch),
;

/// The pieces of `text` between the occurrences of `sep`. There is one piece
/// more than there are separators, so the empty text has one empty piece.
pub open spec fn split(text: Seq<char>, sep: char) -> Seq<Seq<char>>
    decreases text.len(),
{
    if text.len() == 0 {
        seq![Seq::empty()]
    } else {
        let before = split(text.drop_last(), sep);
        if text.last() == sep {
            before.push(Seq::empty())
        } else {
            before.drop_last().push(before.last().push(text.last()))
        }
    }
}

/// The contents of a list of character vectors.
pub open spec fn texts(parts: Seq<Vec<char>>) -> Seq<Seq<char>> {
    parts.map_values(|p: Vec<char>| p@)
}

/// Splits a path on `/`.
pub fn split_path(path: &str) -> (parts: Vec<Vec<char>>)
    ensures
        texts(parts@) == split(path@, '/'),
{
    let mut parts: Vec<Vec<char>> = Vec::new();
    let mut current: Vec<char> = Vec::new();
    for c in it: path.chars()
        invariant
            it.seq() == path@,
            texts(parts@).push(current@) == split(path@.take(it.index()), '/'),
    {
        assert(path@.take(it.index() + 1).drop_last() =~= path@.take(it.index()));
        if c == '/' {
            parts.push(current);
            current = Vec::new();
        } else {
            current.push(c);
        }
    }
    assert(path@.take(path@.len() as int) =~= path@);
    parts.push(current);
    parts
}

/// Tells whether a path segment is exactly the given literal.
pub fn is_literal(segment: &Vec<char>, literal: &str) -> (same: bool)
    ensures
        same == (segment@ == literal@),
{
    let n: usize = segment.len();
    let mut i: usize = 0;
    for c in it: literal.chars()
        invariant
            it.seq() == literal@,
            i == it.index(),
            n == segment@.len(),
            i <= n,
            segment@.take(i as int) == literal@.take(i as int),
    {
        if i >= n || segment[i] != c {
            return false;
        }
        i = i + 1;
    }
    assert(literal@.take(i as int) =~= literal@);
    if i == n {
        assert(segment@.take(i as int) =~= segment@);
        true
    } else {
        false
    }
}

/// The text that a vector of characters spells.
pub fn text_of(chars: &Vec<char>) -> (text: String)
    ensures
        text@ == chars@,
{
    let mut text = String::new();
    let n: usize = chars.len();
    let mut i: usize = 0;
    while i < n
        invariant
            i <= n,
            n == chars@.len(),
            text@ == chars@.take(i as int),
        decreases n - i,
    {
        text.push(chars[i]);
        i = i + 1;
    }
    text
}

/// The texts of a list of strings.
pub open spec fn strings(values: Seq<String>) -> Seq<Seq<char>> {
    values.map_values(|v: String| v@)
}

/// What a signature asks of one segment of a path.
pub enum SegmentRule {
    /// The segment is exactly this text.
    Literal(&'static str),
    /// The segment is any text; a match captures it.
    Variable,
}

/// A declarative matcher for request paths: one rule for each segment that a
/// matching path has.
pub struct PathSignature {
    pub rules: Vec<SegmentRule>,
}

/// Whether the segments meet the rules: there are as many segments as rules,
/// and every literal stands in its place.
pub open spec fn accepts(rules: Seq<SegmentRule>, parts: Seq<Seq<char>>) -> bool {
    &&& parts.len() == rules.len()
    &&& forall|i: int|
        0 <= i < rules.len() ==> (#[trigger] rules[i] matches SegmentRule::Literal(text)
            ==> parts[i] == text@)
}

/// The segments that stand at the variable positions among the first `n`
/// rules, in order.
pub open spec fn captured(rules: Seq<SegmentRule>, parts: Seq<Seq<char>>, n: int) -> Seq<
    Seq<char>,
>
    decreases n,
{
    if n <= 0 {
        Seq::empty()
    } else {
        let before = captured(rules, parts, n - 1);
        match rules[n - 1] {
            SegmentRule::Variable => before.push(parts[n - 1]),
            SegmentRule::Literal(_) => before,
        }
    }
}

impl PathSignature {
    /// Matches the segments of a path against the signature and hands out
    /// the captured segments.
    pub fn capture(&self, parts: &Vec<Vec<char>>) -> (r: Option<Vec<String>>)
        ensures
            match r {
                Some(values) => {
                    &&& accepts(self.rules@, texts(parts@))
                    &&& strings(values@) == captured(
                        self.rules@,
                        texts(parts@),
                        self.rules@.len() as int,
                    )
                },
                None => !accepts(self.rules@, texts(parts@)),
            },
    {
        let n: usize = self.rules.len();
        if parts.len() != n {
            return None;
        }
        let mut values: Vec<String> = Vec::new();
        let mut i: usize = 0;
        while i < n
            invariant
                i <= n,
                n == self.rules@.len(),
                n == parts@.len(),
                forall|j: int|
                    0 <= j < i ==> (#[trigger] self.rules@[j] matches SegmentRule::Literal(text)
                        ==> texts(parts@)[j] == text@),
                strings(values@) == captured(self.rules@, texts(parts@), i as int),
            decreases n - i,
        {
            match &self.rules[i] {
                SegmentRule::Literal(text) => {
                    if !is_literal(&parts[i], text) {
                        return None;
                    }
                },
                SegmentRule::Variable => {
                    let value = text_of(&parts[i]);
                    values.push(value);
                },
            }
            i = i + 1;
        }
        Some(values)
    }
}

/// The rules of the one signature known, `/client/v4/zones/{zone_id}/dns_records`:
/// six segments, of which the first is empty because the path starts with a
/// separator, and the fifth is the zone identifier.
pub open spec fn dns_records_rules() -> Seq<SegmentRule> {
    seq![
        SegmentRule::Literal(""),
        SegmentRule::Literal("client"),
        SegmentRule::Literal("v4"),
        SegmentRule::Literal("zones"),
        SegmentRule::Variable,
        SegmentRule::Literal("dns_records"),
    ]
}

/// The signature of a zone's DNS listing.
pub fn dns_records_signature() -> (signature: PathSignature)
    ensures
        signature.rules@ == dns_records_rules(),
{
    let mut rules: Vec<SegmentRule> = Vec::new();
    rules.push(SegmentRule::Literal(""));
    rules.push(SegmentRule::Literal("client"));
    rules.push(SegmentRule::Literal("v4"));
    rules.push(SegmentRule::Literal("zones"));
    rules.push(SegmentRule::Variable);
    rules.push(SegmentRule::Literal("dns_records"));
    PathSignature { rules }
}

/// The fix-up that a path asks for, if any: the path splits into the six
/// segments of the DNS listing's signature, and the fifth is the zone.
pub open spec fn validated(path: Seq<char>) -> Option<DeprecationView> {
    let parts = split(path, '/');
    if parts.len() == 6 && parts[0] == ""@ && parts[1] == "client"@ && parts[2] == "v4"@
        && parts[3] == "zones"@ && parts[5] == "dns_records"@ {
        Some(DeprecationView::D2024_11_30 { zone_id: parts[4] })
    } else {
        None
    }
}

/// Matches a request path against the signature of the DNS listing.
pub fn path_validate(path: &str) -> (r: Option<Deprecation>)
    ensures
        match r {
            Some(d) => validated(path@) == Some(d@),
            None => validated(path@) is None,
        },
{
    let parts = split_path(path);
    let signature = dns_records_signature();
    proof {
        reveal_with_fuel(captured, 7);
    }
    match signature.capture(&parts) {
        Some(mut values) => {
            assert(strings(values@).len() == 1);
            assert(strings(values@)[0] == values@[0]@);
            match values.pop() {
                Some(zone_id) => Some(Deprecation::D2024_11_30(Deprecation20241130 { zone_id })),
                None => None,
            }
        },
        None => None,
    }
}

/// The fix-ups that a path asks for, in the order in which the signatures are
/// tried.
pub open spec fn classified(path: Seq<char>) -> Seq<DeprecationView> {
    match validated(path) {
        Some(d) => seq![d],
        None => Seq::empty(),
    }
}

/// Tells which fix-ups apply to a request path. No path is an error: one that
/// matches no signature has no fix-ups.
pub fn classify(path: &str) -> (r: Vec<Deprecation>)
    ensures
        crate::deprecation::views(r@) == classified(path@),
{
    let mut found: Vec<Deprecation> = Vec::new();
    if let Some(d) = path_validate(path) {
        found.push(d);
    }
    found
}

/// The text that is made of the pieces with `sep` between them.
pub open spec fn join(parts: Seq<Seq<char>>, sep: char) -> Seq<char>
    decreases parts.len(),
{
    if parts.len() == 0 {
        Seq::empty()
    } else if parts.len() == 1 {
        parts[0]
    } else {
        join(parts.drop_last(), sep).push(sep) + parts.last()
    }
}

/// A text splits into at least one piece, no piece holds the separator, and
/// the pieces joined give the text again.
pub proof fn lemma_join_undoes_split(text: Seq<char>, sep: char)
    ensures
        split(text, sep).len() >= 1,
        forall|i: int|
            0 <= i < split(text, sep).len() ==> !(#[trigger] split(text, sep)[i]).contains(sep),
        join(split(text, sep), sep) == text,
    decreases text.len(),
{
    if text.len() > 0 {
        let before = split(text.drop_last(), sep);
        lemma_join_undoes_split(text.drop_last(), sep);
        let parts = split(text, sep);
        if text.last() == sep {
            assert(parts.drop_last() =~= before);
        } else if before.len() > 1 {
            assert(parts.drop_last() =~= before.drop_last());
            assert(join(parts, sep) =~= join(before, sep).push(text.last()));
        }
    }
}

/// A text that does not hold the separator is its own single piece.
pub proof fn lemma_split_without_separator(text: Seq<char>, sep: char)
    requires
        !text.contains(sep),
    ensures
        split(text, sep) == seq![text],
    decreases text.len(),
{
    if text.len() == 0 {
        assert(text =~= Seq::<char>::empty());
    } else {
        lemma_split_without_separator(text.drop_last(), sep);
        assert(text.drop_last().push(text.last()) =~= text);
    }
}

/// The pieces of two texts with a separator between them are the pieces of
/// the first followed by the pieces of the second.
pub proof fn lemma_split_at_separator(head: Seq<char>, tail: Seq<char>, sep: char)
    ensures
        split(head.push(sep) + tail, sep) == split(head, sep) + split(tail, sep),
    decreases tail.len(),
{
    let text = head.push(sep) + tail;
    if tail.len() == 0 {
        assert(text.drop_last() =~= head);
    } else {
        lemma_split_at_separator(head, tail.drop_last(), sep);
        lemma_join_undoes_split(tail.drop_last(), sep);
        assert(text.drop_last() =~= head.push(sep) + tail.drop_last());
    }
}

/// Pieces that do not hold the separator are what their joined text splits
/// into.
pub proof fn lemma_split_undoes_join(parts: Seq<Seq<char>>, sep: char)
    requires
        parts.len() >= 1,
        forall|i: int| 0 <= i < parts.len() ==> !(#[trigger] parts[i]).contains(sep),
    ensures
        split(join(parts, sep), sep) == parts,
    decreases parts.len(),
{
    if parts.len() == 1 {
        lemma_split_without_separator(parts[0], sep);
    } else {
        lemma_split_undoes_join(parts.drop_last(), sep);
        lemma_split_at_separator(join(parts.drop_last(), sep), parts.last(), sep);
        lemma_split_without_separator(parts.last(), sep);
    }
}

/// The paths that ask for the fix-up of 2024-11-30 are exactly those that
/// read `/client/v4/zones/`, a zone identifier without a separator in it,
/// and `/dns_records`; the fix-up carries that zone identifier.
pub proof fn lemma_dns_listing_paths(path: Seq<char>, zone_id: Seq<char>)
    ensures
        validated(path) == Some(DeprecationView::D2024_11_30 { zone_id }) <==> (path
            == "/client/v4/zones/"@ + zone_id + "/dns_records"@ && !zone_id.contains('/')),
{
    reveal_strlit("");
    reveal_strlit("client");
    reveal_strlit("v4");
    reveal_strlit("zones");
    reveal_strlit("dns_records");
    reveal_strlit("/client/v4/zones/");
    reveal_strlit("/dns_records");
    let parts = seq![""@, "client"@, "v4"@, "zones"@, zone_id, "dns_records"@];
    let spelled = "/client/v4/zones/"@ + zone_id + "/dns_records"@;
    assert(join(parts, '/') =~= spelled) by {
        reveal_with_fuel(join, 7);
    }
    if path == spelled && !zone_id.contains('/') {
        lemma_split_undoes_join(parts, '/');
    }
    if validated(path) == Some(DeprecationView::D2024_11_30 { zone_id }) {
        lemma_join_undoes_split(path, '/');
        assert(split(path, '/') =~= parts);
    }
}

} // verus!
