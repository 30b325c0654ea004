//! Label resolution: the pure part of the bridge. A span's label is computed
//! once, at creation time, from the configured description key, the span's
//! own name, its string-valued attributes and its ancestor count. The label
//! is `|`, one dash per ancestor, then the description; a span whose
//! description resolves to the empty string gets no label at all.

use vstd::prelude::*;

verus! {

/// The indentation for a span with `depth` ancestors: `depth` dash characters.
pub open spec fn dashes(depth: nat) -> Seq<char>
    decreases depth,
{
    if depth == 0 {
        Seq::empty()
    } else {
        dashes((depth - 1) as nat).push('-')
    }
}

/// The value carried by the last attribute named `key`, or the empty
/// sequence when no attribute matches. The last match wins, mirroring a
/// recorder that overwrites its slot on every matching field.
pub open spec fn attr_value(attrs: Seq<(Seq<char>, Seq<char>)>, key: Seq<char>) -> Seq<char>
    decreases attrs.len(),
{
    if attrs.len() == 0 {
        Seq::empty()
    } else if attrs.last().0 == key {
        attrs.last().1
    } else {
        attr_value(attrs.drop_last(), key)
    }
}

/// The view of an attribute list: each name/value pair as character sequences.
pub open spec fn pairs_view(attrs: Seq<(String, String)>) -> Seq<(Seq<char>, Seq<char>)> {
    attrs.map_values(|p: (String, String)| (p.0@, p.1@))
}

/// The resolved description of a span: the designated attribute's value when
/// a key is configured and the value is non-empty, otherwise the span's name.
pub open spec fn description_of(
    key: Seq<char>,
    name: Seq<char>,
    attrs: Seq<(Seq<char>, Seq<char>)>,
) -> Seq<char> {
    if key.len() == 0 {
        name
    } else {
        let v = attr_value(attrs, key);
        if v.len() == 0 {
            name
        } else {
            v
        }
    }
}

/// The label of a span: a pipe, `depth` dashes, then the description; no
/// label when the description is empty.
pub open spec fn label_of(
    key: Seq<char>,
    name: Seq<char>,
    attrs: Seq<(Seq<char>, Seq<char>)>,
    depth: nat,
) -> Option<Seq<char>> {
    let d = description_of(key, name, attrs);
    if d.len() == 0 {
        None
    } else {
        Some(seq!['|'] + dashes(depth) + d)
    }
}

/// The indentation for depth `d` is exactly `d` dash characters.
pub proof fn lemma_dashes(depth: nat)
    ensures
        dashes(depth).len() == depth,
        forall|i: int| 0 <= i < depth ==> dashes(depth)[i] == '-',
    decreases depth,
{
    if depth > 0 {
        lemma_dashes((depth - 1) as nat);
    }
}

/// A configured, non-empty designated-attribute value is the description
/// verbatim, whatever the span's name.
pub proof fn lemma_description_from_attr(
    key: Seq<char>,
    name: Seq<char>,
    attrs: Seq<(Seq<char>, Seq<char>)>,
)
    requires
        key.len() > 0,
        attr_value(attrs, key).len() > 0,
    ensures
        description_of(key, name, attrs) == attr_value(attrs, key),
{
}

/// With no key configured, or an absent or empty designated-attribute value,
/// the description is the span's name.
pub proof fn lemma_description_from_name(
    key: Seq<char>,
    name: Seq<char>,
    attrs: Seq<(Seq<char>, Seq<char>)>,
)
    requires
        key.len() == 0 || attr_value(attrs, key).len() == 0,
    ensures
        description_of(key, name, attrs) == name,
{
}

/// An empty description yields no label, at any depth.
pub proof fn lemma_empty_description_no_label(
    key: Seq<char>,
    name: Seq<char>,
    attrs: Seq<(Seq<char>, Seq<char>)>,
    depth: nat,
)
    requires
        description_of(key, name, attrs).len() == 0,
    ensures
        label_of(key, name, attrs, depth) is None,
{
}

/// A label, when there is one, starts with a pipe, carries exactly `depth`
/// dashes after it, and ends with the description.
pub proof fn lemma_label_shape(
    key: Seq<char>,
    name: Seq<char>,
    attrs: Seq<(Seq<char>, Seq<char>)>,
    depth: nat,
)
    requires
        label_of(key, name, attrs, depth) is Some,
    ensures
        ({
            let l = label_of(key, name, attrs, depth)->Some_0;
            let d = description_of(key, name, attrs);
            &&& l.len() == 1 + depth + d.len()
            &&& l[0] == '|'
            &&& forall|i: int| 1 <= i < 1 + depth ==> l[i] == '-'
            &&& l.skip(1 + depth as int) =~= d
        }),
{
    lemma_dashes(depth);
    let l = label_of(key, name, attrs, depth)->Some_0;
    let d = description_of(key, name, attrs);
    assert(l.skip(1 + depth as int) =~= d);
}

/// Build the indentation string: `depth` dashes.
fn indent(depth: usize) -> (r: String)
    ensures
        r@ == dashes(depth as nat),
{
    let mut s = String::new();
    let mut i: usize = 0;
    while i < depth
        invariant
            i <= depth,
            s@ == dashes(i as nat),
        decreases depth - i,
    {
        s.append("-");
        proof {
            reveal_strlit("-");
            assert(s@ =~= dashes((i + 1) as nat));
        }
        i = i + 1;
    }
    s
}

/// The value of the last attribute named `key`, or the empty string.
fn attr_lookup(attrs: &Vec<(String, String)>, key: &String) -> (r: String)
    ensures
        r@ == attr_value(pairs_view(attrs@), key@),
{
    let mut v = String::new();
    let mut i: usize = 0;
    while i < attrs.len()
        invariant
            i <= attrs.len(),
            v@ == attr_value(pairs_view(attrs@.take(i as int)), key@),
        decreases attrs.len() - i,
    {
        proof {
            assert(pairs_view(attrs@.take(i + 1)).drop_last() =~= pairs_view(
                attrs@.take(i as int),
            ));
            assert(pairs_view(attrs@.take(i + 1)).last() == (attrs@[i as int].0@, attrs@[
                i as int
            ].1@));
        }
        if attrs[i].0.eq(key) {
            v = attrs[i].1.clone();
        }
        i = i + 1;
    }
    proof {
        assert(attrs@.take(attrs@.len() as int) =~= attrs@);
    }
    v
}

/// Resolve a span's description: the designated attribute when configured
/// and non-empty, otherwise the span's name. Never fails; an empty result
/// means the span stays inert.
pub fn resolve_description(key: &String, name: &String, attrs: &Vec<(String, String)>) -> (r:
    String)
    ensures
        r@ == description_of(key@, name@, pairs_view(attrs@)),
{
    if key.as_str().is_empty() {
        name.clone()
    } else {
        let v = attr_lookup(attrs, key);
        if v.as_str().is_empty() {
            name.clone()
        } else {
            v
        }
    }
}

/// Compute a span's label: `|`, one dash per ancestor, then the resolved
/// description; `None` when the description is empty.
pub fn make_label(key: &String, name: &String, attrs: &Vec<(String, String)>, depth: usize) -> (r:
    Option<String>)
    ensures
        ({
            let l = label_of(key@, name@, pairs_view(attrs@), depth as nat);
            match r {
                Some(s) => l == Some(s@),
                None => l is None,
            }
        }),
{
    let d = resolve_description(key, name, attrs);
    if d.as_str().is_empty() {
        None
    } else {
        let mut s = String::from_str("|");
        s.append(indent(depth).as_str());
        s.append(d.as_str());
        proof {
            reveal_strlit("|");
            assert(s@ =~= seq!['|'] + dashes(depth as nat) + d@);
        }
        Some(s)
    }
}

} // verus!
