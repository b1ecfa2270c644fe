//! The set of verbs a resource supports, as reported by server discovery.

use crate::text::str_eq;
use vstd::prelude::*;

verus! {

broadcast use vstd::string::group_string_axioms;

/// Operations that are supported on the resource.
///
/// The eight standard verbs are independent flags; every verb name the
/// server reports that is not one of the eight is kept verbatim, in
/// input order, in `other`, so capability introspection never loses
/// information.
#[derive(Debug, Clone)]
pub struct Operations {
    /// Object can be created
    pub create: bool,
    /// Single object can be queried
    pub get: bool,
    /// Multiple objects can be queried
    pub list: bool,
    /// A watch can be started
    pub watch: bool,
    /// A single object can be deleted
    pub delete: bool,
    /// Multiple objects can be deleted
    pub delete_collection: bool,
    /// Object can be updated
    pub update: bool,
    /// Object can be patched
    pub patch: bool,
    /// All other verbs
    pub other: Vec<String>,
}

/// Whether `v` is one of the eight standard verb names.
pub open spec fn known_verb(v: Seq<char>) -> bool {
    ||| v == "create"@
    ||| v == "get"@
    ||| v == "list"@
    ||| v == "watch"@
    ||| v == "delete"@
    ||| v == "deletecollection"@
    ||| v == "update"@
    ||| v == "patch"@
}

/// The subsequence of `verbs` that are not standard verb names, in input
/// order.
pub open spec fn other_verbs(verbs: Seq<Seq<char>>) -> Seq<Seq<char>> {
    verbs.filter(|v: Seq<char>| !known_verb(v))
}

/// The `Operations` value that folding `verbs` produces: each flag is set
/// exactly when the corresponding verb name occurs, and the unrecognized
/// names are kept in input order.
pub open spec fn ops_of_verbs(ops: Operations, verbs: Seq<Seq<char>>) -> bool {
    &&& ops.create == verbs.contains("create"@)
    &&& ops.get == verbs.contains("get"@)
    &&& ops.list == verbs.contains("list"@)
    &&& ops.watch == verbs.contains("watch"@)
    &&& ops.delete == verbs.contains("delete"@)
    &&& ops.delete_collection == verbs.contains("deletecollection"@)
    &&& ops.update == verbs.contains("update"@)
    &&& ops.patch == verbs.contains("patch"@)
    &&& ops.other.deep_view() == other_verbs(verbs)
}

/// Every flag false and no other verbs: the zero value a verb fold starts
/// from.
pub open spec fn ops_empty(ops: Operations) -> bool {
    ops_of_verbs(ops, Seq::empty())
}

impl Operations {
    /// Returns empty `Operations`
    pub fn empty() -> (r: Operations)
        ensures
            ops_empty(r),
    {
        let r = Operations {
            create: false,
            get: false,
            list: false,
            watch: false,
            delete: false,
            delete_collection: false,
            update: false,
            patch: false,
            other: Vec::new(),
        };
        proof {
            reveal(Seq::filter);
            assert(r.other.deep_view() =~= other_verbs(Seq::empty()));
        }
        r
    }

    /// Folds a raw verb list into an `Operations` value.
    ///
    /// Each string is matched case-sensitively against the eight known
    /// verb names; every non-matching string is appended, in input order,
    /// to `other`. No verb is both recognized and kept in `other`.
    pub fn from_verb_list(verbs: &Vec<String>) -> (r: Operations)
        ensures
            ops_of_verbs(r, verbs.deep_view()),
    {
        let mut ops = Operations::empty();
        let ghost all = verbs.deep_view();
        let mut i: usize = 0;
        proof {
            assert(all.take(0) =~= Seq::<Seq<char>>::empty());
        }
        while i < verbs.len()
            invariant
                i <= verbs.len(),
                all == verbs.deep_view(),
                all.len() == verbs.len(),
                forall|j: int| 0 <= j < all.len() ==> all[j] == verbs[j]@,
                ops_of_verbs(ops, all.take(i as int)),
            decreases verbs.len() - i,
        {
            let verb = &verbs[i];
            proof {
                reveal_strlit("create");
                reveal_strlit("get");
                reveal_strlit("list");
                reveal_strlit("watch");
                reveal_strlit("delete");
                reveal_strlit("deletecollection");
                reveal_strlit("update");
                reveal_strlit("patch");
                lemma_verb_literals();
                lemma_take_one_more(all, i as int, verb@);
            }
            if str_eq(verb.as_str(), "create") {
                ops.create = true;
            } else if str_eq(verb.as_str(), "get") {
                ops.get = true;
            } else if str_eq(verb.as_str(), "list") {
                ops.list = true;
            } else if str_eq(verb.as_str(), "watch") {
                ops.watch = true;
            } else if str_eq(verb.as_str(), "delete") {
                ops.delete = true;
            } else if str_eq(verb.as_str(), "deletecollection") {
                ops.delete_collection = true;
            } else if str_eq(verb.as_str(), "update") {
                ops.update = true;
            } else if str_eq(verb.as_str(), "patch") {
                ops.patch = true;
            } else {
                ops.other.push(verb.clone());
                proof {
                    assert(ops.other.deep_view() =~= other_verbs(all.take(i as int)).push(verb@));
                }
            }
            i += 1;
        }
        proof {
            assert(all.take(verbs.len() as int) =~= all);
        }
        ops
    }
}

/// The standard verb names of equal length differ in their first
/// character.
proof fn lemma_verb_literals()
    ensures
        "create"@ != "delete"@,
        "create"@ != "update"@,
        "delete"@ != "update"@,
        "watch"@ != "patch"@,
{
    reveal_strlit("create");
    reveal_strlit("delete");
    reveal_strlit("update");
    reveal_strlit("watch");
    reveal_strlit("patch");
    assert("create"@[0] == 'c');
    assert("delete"@[0] == 'd');
    assert("update"@[0] == 'u');
    assert("watch"@[0] == 'w');
    assert("patch"@[0] == 'p');
}

/// How membership and the unrecognized-verb subsequence change when one
/// more element of `s` is taken.
proof fn lemma_take_one_more(s: Seq<Seq<char>>, i: int, x: Seq<char>)
    requires
        0 <= i < s.len(),
        s[i] == x,
    ensures
        forall|v: Seq<char>| #[trigger]
            s.take(i + 1).contains(v) <==> (s.take(i).contains(v) || v == x),
        s.take(i + 1).contains("create"@) == (s.take(i).contains("create"@) || x == "create"@),
        s.take(i + 1).contains("get"@) == (s.take(i).contains("get"@) || x == "get"@),
        s.take(i + 1).contains("list"@) == (s.take(i).contains("list"@) || x == "list"@),
        s.take(i + 1).contains("watch"@) == (s.take(i).contains("watch"@) || x == "watch"@),
        s.take(i + 1).contains("delete"@) == (s.take(i).contains("delete"@) || x == "delete"@),
        s.take(i + 1).contains("deletecollection"@) == (s.take(i).contains("deletecollection"@)
            || x == "deletecollection"@),
        s.take(i + 1).contains("update"@) == (s.take(i).contains("update"@) || x == "update"@),
        s.take(i + 1).contains("patch"@) == (s.take(i).contains("patch"@) || x == "patch"@),
        known_verb(x) ==> other_verbs(s.take(i + 1)) == other_verbs(s.take(i)),
        !known_verb(x) ==> other_verbs(s.take(i + 1)) == other_verbs(s.take(i)).push(x),
{
    reveal(Seq::filter);
    assert(s.take(i + 1).drop_last() =~= s.take(i));
    assert(s.take(i + 1).last() == x);
    assert forall|v: Seq<char>| #[trigger] s.take(i + 1).contains(v) implies (s.take(i).contains(v)
        || v == x) by {
        let k = choose|k: int| 0 <= k < s.take(i + 1).len() && #[trigger] s.take(i + 1)[k] == v;
        if k < i {
            assert(s.take(i)[k] == v);
        }
    }
    assert forall|v: Seq<char>| s.take(i).contains(v) implies #[trigger] s.take(i + 1).contains(
        v,
    ) by {
        let k = choose|k: int| 0 <= k < s.take(i).len() && #[trigger] s.take(i)[k] == v;
        assert(s.take(i + 1)[k] == v);
    }
    assert(s.take(i + 1)[i] == x);
    assert(s.take(i + 1).contains(x));
}

} // verus!
