//! Stem and extension of a file name.
//!
//! The split is the one that the standard library documents for
//! `Path::extension` and `Path::file_stem`: a name is cut at its final dot,
//! unless it has none or its only dot comes first.

use vstd::prelude::*;

verus! {

/// The extension of a file name: what follows the final dot.
///
/// A name without a dot has none, and neither has a name whose only dot is its
/// first character. A name that ends in a dot has the empty extension.
pub open spec fn name_extension(name: Seq<char>) -> Option<Seq<char>> {
    match name.index_of_last('.') {
        Some(dot) => if dot > 0 {
            Some(name.skip(dot + 1))
        } else {
            None
        },
        None => None,
    }
}

/// The stem of a file name: what precedes the final dot, or the whole name
/// where `name_extension` is `None`.
pub open spec fn name_stem(name: Seq<char>) -> Seq<char> {
    match name.index_of_last('.') {
        Some(dot) => if dot > 0 {
            name.take(dot)
        } else {
            name
        },
        None => name,
    }
}

/// Whether `dot` is the place of the final dot of `name`.
pub open spec fn is_final_dot(name: Seq<char>, dot: int) -> bool {
    &&& 0 <= dot < name.len()
    &&& name[dot] == '.'
    &&& forall|later: int| dot < later < name.len() ==> name[later] != '.'
}

/// A dot with no dot after it is the one that `index_of_last` finds.
pub proof fn lemma_final_dot(name: Seq<char>, dot: int)
    requires
        is_final_dot(name, dot),
    ensures
        name.index_of_last('.') == Some(dot),
{
    name.index_of_last_ensures('.');
    assert(name.contains('.'));
}

/// A name without any dot has no final dot.
pub proof fn lemma_no_dot(name: Seq<char>)
    requires
        forall|at: int| 0 <= at < name.len() ==> name[at] != '.',
    ensures
        name.index_of_last('.') is None,
{
    name.index_of_last_ensures('.');
}

/// A non-empty base, a dot and an extension free of dots form a name with
/// exactly that stem and that extension.
pub proof fn lemma_split_of_joined(base: Seq<char>, extension: Seq<char>)
    requires
        base.len() > 0,
        !extension.contains('.'),
    ensures
        name_stem(base + seq!['.'] + extension) == base,
        name_extension(base + seq!['.'] + extension) == Some(extension),
{
    let name = base + seq!['.'] + extension;
    let dot = base.len() as int;
    assert forall|later: int| dot < later < name.len() implies name[later] != '.' by {
        assert(name[later] == extension[later - dot - 1]);
    }
    lemma_final_dot(name, dot);
    assert(name.take(dot) =~= base);
    assert(name.skip(dot + 1) =~= extension);
}

/// Finds the final dot of a name, counted in characters.
fn find_final_dot(name: &str) -> (found: Option<usize>)
    ensures
        found is Some ==> found->0 < name@.len(),
        match found {
            Some(dot) => name@.index_of_last('.') == Some(dot as int),
            None => name@.index_of_last('.') is None,
        },
{
    let length = name.unicode_len();
    let mut found: Option<usize> = None;
    let mut index: usize = 0;
    for c in it: name.chars()
        invariant
            index == it.index(),
            it.seq() == name@,
            length == name@.len(),
            match found {
                Some(dot) => is_final_dot(name@.take(index as int), dot as int),
                None => forall|at: int| 0 <= at < index ==> name@[at] != '.',
            },
    {
        if c == '.' {
            found = Some(index);
        }
        index = index + 1;
    }
    proof {
        assert(name@.take(index as int) =~= name@);
        match found {
            Some(dot) => lemma_final_dot(name@, dot as int),
            None => lemma_no_dot(name@),
        }
    }
    found
}

/// The extension of a file name, by the rule of `name_extension`.
pub fn extension_of(name: &str) -> (extension: Option<String>)
    ensures
        match extension {
            Some(text) => name_extension(name@) == Some(text@),
            None => name_extension(name@) is None,
        },
{
    match find_final_dot(name) {
        Some(dot) => {
            if dot > 0 {
                let length = name.unicode_len();
                let tail = name.substring_char(dot + 1, length);
                proof {
                    assert(name@.subrange(dot + 1, length as int) =~= name@.skip(dot + 1));
                }
                Some(tail.to_owned())
            } else {
                None
            }
        },
        None => None,
    }
}

/// The stem of a file name, by the rule of `name_stem`.
pub fn stem_of(name: &str) -> (stem: String)
    ensures
        stem@ == name_stem(name@),
{
    match find_final_dot(name) {
        Some(dot) => {
            if dot > 0 {
                let head = name.substring_char(0, dot);
                proof {
                    assert(name@.subrange(0, dot as int) =~= name@.take(dot as int));
                }
                head.to_owned()
            } else {
                name.to_owned()
            }
        },
        None => name.to_owned(),
    }
}

} // verus!
