//! Deriving the type-declaration packages to install from dependency names.

use vstd::prelude::*;
use crate::manifest::texts;

verus! {

/// The namespace under which type-declaration packages are published.
pub open spec fn types_prefix() -> Seq<char> {
    seq!['@', 't', 'y', 'p', 'e', 's', '/']
}

/// A name already in the type-declaration namespace.
pub open spec fn is_typed(name: Seq<char>) -> bool {
    types_prefix().is_prefix_of(name)
}

/// The type-declaration package that belongs to a package.
pub open spec fn type_package_of(name: Seq<char>) -> Seq<char> {
    types_prefix() + name
}

/// The install list of a sequence of dependency names: each name outside the
/// type-declaration namespace, in order, mapped to its type-declaration package.
pub open spec fn install_names(names: Seq<Seq<char>>) -> Seq<Seq<char>> {
    names.filter(|n: Seq<char>| !is_typed(n)).map_values(|n: Seq<char>| type_package_of(n))
}

/// Whether a name lies in the type-declaration namespace.
pub fn is_type_package(name: &str) -> (r: bool)
    ensures
        r == is_typed(name@),
{
    let prefix: &str = "@types/";
    proof {
        reveal_strlit("@types/");
    }
    assert(prefix@ =~= types_prefix());
    let n: usize = name.unicode_len();
    if n < 7 {
        return false;
    }
    let mut i: usize = 0;
    while i < 7
        invariant
            i <= 7,
            n == name@.len(),
            7 <= n,
            prefix@ == types_prefix(),
            forall|j: int| 0 <= j < i ==> name@[j] == types_prefix()[j],
        decreases 7 - i,
    {
        if name.get_char(i) != prefix.get_char(i) {
            return false;
        }
        i = i + 1;
    }
    assert(name@.subrange(0, 7) =~= types_prefix());
    true
}

/// The type-declaration package name for a package: the namespace prefix
/// followed by the name.
pub fn type_package_name(name: &str) -> (r: String)
    ensures
        r@ == type_package_of(name@),
{
    let prefix: &str = "@types/";
    proof {
        reveal_strlit("@types/");
    }
    assert(prefix@ =~= types_prefix());
    let mut r = String::from_str(prefix);
    r.append(name);
    r
}

/// The install list: every collected name outside the type-declaration
/// namespace, in order, turned into its type-declaration package name.
pub fn install_list(names: &Vec<String>) -> (r: Vec<String>)
    ensures
        texts(r@) == install_names(texts(names@)),
{
    let mut out: Vec<String> = Vec::new();
    let mut i: usize = 0;
    proof {
        reveal(Seq::filter);
        assert(texts(names@.take(0)) =~= Seq::<Seq<char>>::empty());
        assert(install_names(Seq::empty()) =~= Seq::<Seq<char>>::empty());
        assert(texts(out@) =~= Seq::<Seq<char>>::empty());
    }
    while i < names.len()
        invariant
            i <= names@.len(),
            texts(out@) == install_names(texts(names@.take(i as int))),
        decreases names@.len() - i,
    {
        let ghost before = out@;
        let ghost seen = texts(names@.take(i as int));
        let ghost next = texts(names@.take(i + 1));
        proof {
            reveal(Seq::filter);
            assert(names@.take(i + 1) =~= names@.take(i as int).push(names@[i as int]));
            assert(next =~= seen.push(names@[i as int]@));
            assert(next.drop_last() =~= seen);
        }
        let name = names[i].as_str();
        if !is_type_package(name) {
            let p = type_package_name(name);
            out.push(p);
            proof {
                let pred = |n: Seq<char>| !is_typed(n);
                let f = |n: Seq<char>| type_package_of(n);
                assert(next.filter(pred) == seen.filter(pred).push(name@));
                assert(texts(out@) =~= texts(before).push(p@));
                assert(install_names(next) =~= seen.filter(pred).map_values(f).push(f(name@)));
            }
        } else {
            proof {
                let pred = |n: Seq<char>| !is_typed(n);
                assert(next.filter(pred) == seen.filter(pred));
            }
        }
        i = i + 1;
    }
    assert(names@.take(names@.len() as int) =~= names@);
    out
}

} // verus!
