//! Looking controls up by id or by tag.
use vstd::prelude::*;

verus! {

/// What a control is known by: its id and, if it has one, its tag.
#[derive(Debug)]
pub struct ControlKey {
    pub id: u64,
    pub tag: Option<String>,
}

/// How a control is looked for.
#[derive(Debug)]
pub enum FindBy {
    Id(u64),
    Tag(String),
}

/// Whether a control known by `key` is the one looked for: by id, the ids
/// are equal; by tag, the control has a tag and it is the same text.
pub open spec fn key_matches(key: ControlKey, by: FindBy) -> bool {
    match by {
        FindBy::Id(id) => key.id == id,
        FindBy::Tag(tag) => match key.tag {
            Some(t) => t@ == tag@,
            None => false,
        },
    }
}

/// Tells whether the control known by `key` is the one looked for.
pub fn is_match(key: &ControlKey, by: &FindBy) -> (r: bool)
    ensures
        r == key_matches(*key, *by),
{
    match by {
        FindBy::Id(id) => key.id == *id,
        FindBy::Tag(tag) => match &key.tag {
            Some(t) => *t == *tag,
            None => false,
        },
    }
}

/// The first control from index `from` on that is the one looked for, if any.
pub fn first_match_from(keys: &Vec<ControlKey>, by: &FindBy, from: usize) -> (r: Option<usize>)
    ensures
        match r {
            Some(i) => from <= i < keys@.len() && key_matches(keys@[i as int], *by) && forall|
                j: int,
            |
                from <= j < i ==> !key_matches(#[trigger] keys@[j], *by),
            None => forall|j: int| from <= j < keys@.len() ==> !key_matches(#[trigger] keys@[j], *by),
        },
{
    let mut i: usize = from;
    if from >= keys.len() {
        return None;
    }
    while i < keys.len()
        invariant
            from <= i,
            forall|j: int| from <= j < i && j < keys@.len() ==> !key_matches(#[trigger] keys@[j], *by),
        decreases keys@.len() - i,
    {
        if is_match(&keys[i], by) {
            return Some(i);
        }
        i = i + 1;
    }
    None
}

} // verus!
