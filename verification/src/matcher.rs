//! Recognising the tracker among discovered peripherals by its advertised name.

use vstd::prelude::*;

verus! {

/// Product string that the tracker's advertised local name contains.
pub const TARGET_NAME: &'static str = "ID107Plus HR";

/// What a peripheral advertises of itself, as far as the matcher reads it.
#[derive(Debug, Clone, PartialEq, Eq)]
pub struct PeripheralProperties {
    /// The advertised local name, if the peripheral advertises one.
    pub local_name: Option<String>,
}

/// Whether `needle` stands in `hay` at position `at`.
pub open spec fn occurs_at(hay: Seq<char>, needle: Seq<char>, at: int) -> bool {
    &&& 0 <= at
    &&& at + needle.len() <= hay.len()
    &&& hay.subrange(at, at + needle.len()) == needle
}

/// Whether `needle` is a contiguous part of `hay`.
pub open spec fn contains(hay: Seq<char>, needle: Seq<char>) -> bool {
    exists|at: int| occurs_at(hay, needle, at)
}

/// Whether a peripheral with these properties is the tracker: it advertises
/// a local name, and the name contains [`TARGET_NAME`].
pub open spec fn is_tracker_spec(properties: Option<&PeripheralProperties>) -> bool {
    match properties {
        Some(known) => match known.local_name {
            Some(name) => contains(name@, TARGET_NAME@),
            None => false,
        },
        None => false,
    }
}

/// The characters of a string, in order.
pub fn chars_of(text: &str) -> (chars: Vec<char>)
    ensures
        chars@ == text@,
{
    let mut chars: Vec<char> = Vec::new();
    for c in it: text.chars()
        invariant
            chars@ == it.seq().take(it.index()),
    {
        chars.push(c);
    }
    chars
}

/// Compares `needle` with the part of `hay` that starts at `at`.
pub fn matches_at(hay: &[char], needle: &[char], at: usize) -> (matched: bool)
    requires
        at + needle.len() <= hay.len(),
    ensures
        matched == occurs_at(hay@, needle@, at as int),
{
    let mut k: usize = 0;
    while k < needle.len()
        invariant
            k <= needle.len(),
            at + needle.len() <= hay.len(),
            forall|j: int| 0 <= j < k ==> hay@[at + j] == needle@[j],
        decreases needle.len() - k,
    {
        if hay[at + k] != needle[k] {
            assert(hay@.subrange(at as int, at + needle@.len())[k as int] != needle@[k as int]);
            return false;
        }
        k += 1;
    }
    assert(hay@.subrange(at as int, at + needle@.len()) =~= needle@);
    true
}

/// Searches `hay` for `needle`.
pub fn contains_chars(hay: &[char], needle: &[char]) -> (found: bool)
    ensures
        found == contains(hay@, needle@),
{
    if needle.len() > hay.len() {
        return false;
    }
    let last: usize = hay.len() - needle.len();
    let mut at: usize = 0;
    loop
        invariant
            last == hay.len() - needle.len(),
            at <= last,
            forall|i: int| 0 <= i < at ==> !occurs_at(hay@, needle@, i),
        decreases last - at,
    {
        if matches_at(hay, needle, at) {
            return true;
        }
        if at == last {
            return false;
        }
        at += 1;
    }
}

/// Whether an advertised local name contains [`TARGET_NAME`].
pub fn name_matches(name: &str) -> (matched: bool)
    ensures
        matched == contains(name@, TARGET_NAME@),
{
    let hay = chars_of(name);
    let needle = chars_of(TARGET_NAME);
    contains_chars(hay.as_slice(), needle.as_slice())
}

/// Decides whether a discovered peripheral is the tracker.
///
/// A peripheral whose properties are not known, or that advertises no local
/// name, is not the tracker.
pub fn is_tracker(properties: Option<&PeripheralProperties>) -> (matched: bool)
    ensures
        matched == is_tracker_spec(properties),
{
    match properties {
        Some(p) => match &p.local_name {
            Some(name) => name_matches(name.as_str()),
            None => false,
        },
        None => false,
    }
}

/// A peripheral is the tracker exactly when it advertises a name and the
/// name contains [`TARGET_NAME`]: one whose properties are unknown, one that
/// advertises no name and one that advertises the empty name are not.
pub proof fn tracker_is_known_by_name(properties: Option<&PeripheralProperties>)
    ensures
        is_tracker_spec(properties) <==> (properties matches Some(known)
            && known.local_name matches Some(name) && contains(name@, TARGET_NAME@)),
        properties is None ==> !is_tracker_spec(properties),
        properties matches Some(known) && known.local_name is None ==> !is_tracker_spec(
            properties,
        ),
        properties matches Some(known) && known.local_name matches Some(name) && name@.len() == 0
            ==> !is_tracker_spec(properties),
{
    match properties {
        Some(known) => match known.local_name {
            Some(name) => {
                if name@.len() == 0 {
                    shorter_name_does_not_match(name@);
                }
            },
            None => {},
        },
        None => {},
    }
}

/// A name that is shorter than [`TARGET_NAME`] does not contain it.
pub proof fn shorter_name_does_not_match(name: Seq<char>)
    requires
        name.len() < 12,
    ensures
        TARGET_NAME@.len() == 12,
        !contains(name, TARGET_NAME@),
{
    reveal_strlit("ID107Plus HR");
}

/// A name contains [`TARGET_NAME`] wherever it stands in it: at the start,
/// at the end or in the middle.
pub proof fn name_around_target_matches(before: Seq<char>, after: Seq<char>)
    ensures
        contains(before + TARGET_NAME@ + after, TARGET_NAME@),
{
    let name = before + TARGET_NAME@ + after;
    let at = before.len() as int;
    assert(name.subrange(at, at + TARGET_NAME@.len()) =~= TARGET_NAME@);
    assert(occurs_at(name, TARGET_NAME@, at));
}

} // verus!
