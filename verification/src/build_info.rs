//! Descriptions of the build: the packages it was built with and the
//! features it was built with.
use vstd::prelude::*;

verus! {

/// The items of `parts` in order, with `sep` between each two of them.
pub open spec fn joined(parts: Seq<Seq<char>>, sep: Seq<char>) -> Seq<char>
    decreases parts.len(),
{
    if parts.len() == 0 {
        Seq::empty()
    } else if parts.len() == 1 {
        parts[0]
    } else {
        joined(parts.drop_last(), sep) + sep + parts.last()
    }
}

/// A package as the build describes it: its name, a space, its version.
pub open spec fn dependency_text(dep: (&str, &str)) -> Seq<char> {
    dep.0@ + " "@ + dep.1@
}

/// The packages the program was built with: each as "name version",
/// separated by ", ".
pub fn get_dependencies_string(dependencies: &[(&str, &str)]) -> (r: String)
    ensures
        r@ == joined(dependencies@.map_values(|d: (&str, &str)| dependency_text(d)), ", "@),
{
    let ghost texts = dependencies@.map_values(|d: (&str, &str)| dependency_text(d));
    let mut out = String::new();
    let mut i: usize = 0;
    while i < dependencies.len()
        invariant
            i <= dependencies@.len(),
            texts == dependencies@.map_values(|d: (&str, &str)| dependency_text(d)),
            out@ == joined(texts.subrange(0, i as int), ", "@),
        decreases dependencies@.len() - i,
    {
        let (name, version) = dependencies[i];
        if i > 0 {
            out.append(", ");
        }
        out.append(name);
        out.append(" ");
        out.append(version);
        proof {
            let prefix = texts.subrange(0, i + 1);
            assert(prefix.drop_last() == texts.subrange(0, i as int));
            assert(prefix.last() == dependency_text(dependencies@[i as int]));
            if i == 0 {
                assert(out@ == prefix[0]);
            }
        }
        i = i + 1;
    }
    assert(texts.subrange(0, dependencies@.len() as int) == texts);
    out
}

/// The features the program was built with, separated by ", ".
pub fn get_features_string(features: &[&str]) -> (r: String)
    ensures
        r@ == joined(features@.map_values(|f: &str| f@), ", "@),
{
    let ghost texts = features@.map_values(|f: &str| f@);
    let mut out = String::new();
    let mut i: usize = 0;
    while i < features.len()
        invariant
            i <= features@.len(),
            texts == features@.map_values(|f: &str| f@),
            out@ == joined(texts.subrange(0, i as int), ", "@),
        decreases features@.len() - i,
    {
        if i > 0 {
            out.append(", ");
        }
        out.append(features[i]);
        proof {
            let prefix = texts.subrange(0, i + 1);
            assert(prefix.drop_last() == texts.subrange(0, i as int));
            if i == 0 {
                assert(out@ == prefix[0]);
            }
        }
        i = i + 1;
    }
    assert(texts.subrange(0, features@.len() as int) == texts);
    out
}

} // verus!
