//! Resolution of raw server discovery data into nested resource details.

use crate::capability::{ops_of_verbs, Operations};
use crate::resource::{
    api_version_consistent, group_of_gv, slash_count, version_of_gv, ApiResource,
    ApiResourceRecord, Scope,
};
use crate::text::{str_eq, str_has_proper_prefix};
use vstd::prelude::*;
use vstd::string::*;

verus! {

broadcast use vstd::string::group_string_axioms;

/// The flat resource list the server reports for one group-version.
/// Subresources appear as records named `"parent/segment"`.
#[derive(Debug, Clone)]
pub struct ApiResourceList {
    /// The group-version the list was served under.
    pub group_version: String,
    /// The records, in server order.
    pub resources: Vec<ApiResourceRecord>,
}

/// Why discovery resolution failed.
#[derive(Debug, Clone, Copy, PartialEq, Eq, Structural)]
pub enum DiscoveryError {
    /// The target name is absent from the supplied list; legitimate when
    /// the caller's cached discovery data is stale.
    NotFound,
}

/// A resolved subresource: its descriptor and its own detail.
#[derive(Debug)]
pub struct SubResource {
    /// Descriptor of the subresource; its plural name is the path
    /// segment after the parent's name.
    pub resource: ApiResource,
    /// Detail of the subresource, recursively resolved.
    pub extras: ApiResourceExtras,
}

/// Contains additional, detailed information about an API resource.
#[derive(Debug)]
pub struct ApiResourceExtras {
    /// Scope of the resource
    pub scope: Scope,
    /// Available subresources. Please note that returned ApiResources
    /// are not standalone resources. Their name will be of form
    /// `subresource_name`, not `resource_name/subresource_name`.
    pub subresources: Vec<SubResource>,
    /// Supported operations on this resource
    pub operations: Operations,
}

/// The index of the first record named `name`, if any.
pub open spec fn record_index(rs: Seq<ApiResourceRecord>, name: Seq<char>) -> Option<int> {
    rs.map_values(|r: ApiResourceRecord| r.name@).index_of_first(name)
}

/// Whether `n` extends `prefix` by at least one character.
pub open spec fn proper_prefix(n: Seq<char>, prefix: Seq<char>) -> bool {
    n.len() > prefix.len() && n.take(prefix.len() as int) == prefix
}

/// The indices of the records whose name extends `prefix`, in list
/// order.
pub open spec fn sub_indices(rs: Seq<ApiResourceRecord>, prefix: Seq<char>) -> Seq<int>
    decreases rs.len(),
{
    if rs.len() == 0 {
        Seq::empty()
    } else if proper_prefix(rs.last().name@, prefix) {
        sub_indices(rs.drop_last(), prefix).push(rs.len() - 1)
    } else {
        sub_indices(rs.drop_last(), prefix)
    }
}

/// What a child descriptor built for a subresource record holds: every
/// field as the record constructor derives it, except the plural name,
/// which is the path segment after the parent's name.
pub open spec fn sub_descriptor_of(
    ar: ApiResource,
    rec: ApiResourceRecord,
    gv: Seq<char>,
    prefix: Seq<char>,
) -> bool {
    &&& ar.group@ == match rec.group {
        Some(g) => g@,
        None => group_of_gv(gv),
    }
    &&& ar.version@ == match rec.version {
        Some(v) => v@,
        None => version_of_gv(gv),
    }
    &&& api_version_consistent(ar)
    &&& ar.kind@ == rec.kind@
    &&& ar.plural_name@ == rec.name@.skip(prefix.len() as int)
    &&& ar.scope == (if rec.namespaced {
        Scope::Namespaced
    } else {
        Scope::Cluster
    })
    &&& ar.subresources.deep_view() == Seq::<Seq<char>>::empty()
    &&& ops_of_verbs(ar.operations, rec.verbs.deep_view())
}

/// What it means for `e` to be the resolution of `name` against the
/// record list `rs` served under group-version `gv`: scope and verbs
/// come from the first record named `name`, and there is one child
/// pair, in list order, for every record that extends `name` by
/// `"/segment"`, recursively resolved.
pub open spec fn resolves(
    rs: Seq<ApiResourceRecord>,
    gv: Seq<char>,
    name: Seq<char>,
    e: ApiResourceExtras,
) -> bool
    decreases e,
{
    let subs = sub_indices(rs, name + "/"@);
    &&& record_index(rs, name) is Some
    &&& {
        let j = record_index(rs, name)->Some_0;
        &&& e.scope == (if rs[j].namespaced {
            Scope::Namespaced
        } else {
            Scope::Cluster
        })
        &&& ops_of_verbs(e.operations, rs[j].verbs.deep_view())
    }
    &&& e.subresources.len() == subs.len()
    &&& forall|i: int|
        0 <= i < subs.len() ==> {
            &&& sub_descriptor_of((#[trigger] e.subresources@[i]).resource, rs[subs[i]], gv, name + "/"@)
            &&& resolves(rs, gv, rs[subs[i]].name@, e.subresources@[i].extras)
        }
}

/// The length of the longest record name in the list; the measure the
/// recursive resolution shrinks toward.
pub open spec fn longest_name(rs: Seq<ApiResourceRecord>) -> int
    decreases rs.len(),
{
    if rs.len() == 0 {
        0
    } else {
        let rest = longest_name(rs.drop_last());
        if rs.last().name@.len() > rest {
            rs.last().name@.len() as int
        } else {
            rest
        }
    }
}

proof fn lemma_longest_name(rs: Seq<ApiResourceRecord>, k: int)
    requires
        0 <= k < rs.len(),
    ensures
        rs[k].name@.len() <= longest_name(rs),
        longest_name(rs) >= 0,
    decreases rs.len(),
{
    if k == rs.len() - 1 {
        if rs.len() > 1 {
            lemma_longest_name(rs.drop_last(), 0);
        }
    } else {
        lemma_longest_name(rs.drop_last(), k);
        assert(rs.drop_last()[k] == rs[k]);
    }
}

/// How the subresource index sequence grows when one more record is
/// taken, and what its entries satisfy.
proof fn lemma_sub_indices_take(rs: Seq<ApiResourceRecord>, prefix: Seq<char>, k: int)
    requires
        0 <= k < rs.len(),
    ensures
        proper_prefix(rs[k].name@, prefix) ==> sub_indices(rs.take(k + 1), prefix) == sub_indices(
            rs.take(k),
            prefix,
        ).push(k),
        !proper_prefix(rs[k].name@, prefix) ==> sub_indices(rs.take(k + 1), prefix) == sub_indices(
            rs.take(k),
            prefix,
        ),
{
    assert(rs.take(k + 1).drop_last() =~= rs.take(k));
    assert(rs.take(k + 1).last() == rs[k]);
}

impl ApiResourceExtras {
    /// Creates ApiResourceExtras from a discovery list: scope and verbs
    /// of the record named `name`, plus one recursively resolved child
    /// pair per `"{name}/segment"` record, in list order.
    ///
    /// Fails with [`DiscoveryError::NotFound`] when the list holds no
    /// record named `name`: the name should come from a prior listing
    /// of the same group-version, so this is a staleness signal, never
    /// silently defaulted. A record whose name is exactly `"{name}/"`
    /// names no segment and is skipped: that is the self-reference
    /// guard the recursion needs to terminate.
    pub fn from_apiresourcelist(list: &ApiResourceList, name: &str) -> (r: Result<
        ApiResourceExtras,
        DiscoveryError,
    >)
        requires
            slash_count(list.group_version@) <= 1,
        ensures
            match r {
                Ok(e) => resolves(list.resources@, list.group_version@, name@, e),
                Err(err) => err == DiscoveryError::NotFound && record_index(
                    list.resources@,
                    name@,
                ) is None,
            },
        decreases longest_name(list.resources@) + 1 - name@.len(),
    {
        let ghost rs = list.resources@;
        let n = list.resources.len();
        let mut jopt: Option<usize> = None;
        let mut k: usize = 0;
        while k < n
            invariant
                k <= n,
                n == rs.len(),
                rs == list.resources@,
                match jopt {
                    Some(j) => j < k && rs[j as int].name@ == name@ && forall|l: int|
                        0 <= l < j ==> rs[l].name@ != name@,
                    None => forall|l: int| 0 <= l < k ==> rs[l].name@ != name@,
                },
            decreases n - k,
        {
            if jopt.is_none() && str_eq(list.resources[k].name.as_str(), name) {
                jopt = Some(k);
            }
            k += 1;
        }
        proof {
            rs.map_values(|r: ApiResourceRecord| r.name@).index_of_first_ensures(name@);
        }
        let j = match jopt {
            Some(j) => j,
            None => {
                proof {
                    if record_index(rs, name@) is Some {
                        let f = record_index(rs, name@)->Some_0;
                        assert(rs.map_values(|r: ApiResourceRecord| r.name@)[f] == rs[f].name@);
                    }
                }
                return Err(DiscoveryError::NotFound);
            },
        };
        proof {
            let f = record_index(rs, name@)->Some_0;
            assert(rs.map_values(|r: ApiResourceRecord| r.name@)[j as int] == rs[j as int].name@);
            assert(record_index(rs, name@) is Some);
            if f < j as int {
                assert(rs.map_values(|r: ApiResourceRecord| r.name@)[f] == rs[f].name@);
            }
            if f > j as int {
                assert(rs.map_values(|r: ApiResourceRecord| r.name@)[j as int] != name@);
            }
            assert(f == j as int);
        }
        let rec = &list.resources[j];
        let scope = if rec.namespaced {
            Scope::Namespaced
        } else {
            Scope::Cluster
        };
        let operations = Operations::from_verb_list(&rec.verbs);
        let prefix = name.to_owned().concat("/");
        let ghost p = name@ + "/"@;
        proof {
            lemma_longest_name(rs, j as int);
        }
        let mut subresources: Vec<SubResource> = Vec::new();
        let mut k: usize = 0;
        proof {
            assert(rs.take(0) =~= Seq::<ApiResourceRecord>::empty());
        }
        while k < n
            invariant
                k <= n,
                n == rs.len(),
                rs == list.resources@,
                prefix@ == p,
                p == name@ + "/"@,
                slash_count(list.group_version@) <= 1,
                longest_name(rs) + 1 - name@.len() == longest_name(list.resources@) + 1
                    - name@.len(),
                name@.len() <= longest_name(rs),
                subresources.len() == sub_indices(rs.take(k as int), p).len(),
                forall|i: int|
                    0 <= i < sub_indices(rs.take(k as int), p).len() ==> {
                        &&& sub_descriptor_of(
                            (#[trigger] subresources@[i]).resource,
                            rs[sub_indices(rs.take(k as int), p)[i]],
                            list.group_version@,
                            p,
                        )
                        &&& resolves(
                            rs,
                            list.group_version@,
                            rs[sub_indices(rs.take(k as int), p)[i]].name@,
                            subresources@[i].extras,
                        )
                    },
            decreases n - k,
        {
            let res = &list.resources[k];
            proof {
                reveal_strlit("/");
                lemma_sub_indices_take(rs, p, k as int);
            }
            if str_has_proper_prefix(res.name.as_str(), prefix.as_str()) {
                let res_len = res.name.as_str().unicode_len();
                let prefix_len = prefix.as_str().unicode_len();
                let seg = res.name.as_str().substring_char(prefix_len, res_len);
                let mut ar = ApiResource::from_apiresource(res, list.group_version.as_str());
                ar.plural_name = seg.to_owned();
                proof {
                    lemma_longest_name(rs, k as int);
                }
                let extra = match ApiResourceExtras::from_apiresourcelist(
                    list,
                    res.name.as_str(),
                ) {
                    Ok(e) => e,
                    Err(_) => {
                        proof {
                            rs.map_values(|r: ApiResourceRecord| r.name@).index_of_first_ensures(
                                res.name@,
                            );
                            assert(rs.map_values(|r: ApiResourceRecord| r.name@)[k as int]
                                == rs[k as int].name@);
                            assert(rs.map_values(|r: ApiResourceRecord| r.name@).contains(
                                res.name@,
                            ));
                        }
                        vstd::pervasive::unreached()
                    },
                };
                subresources.push(SubResource { resource: ar, extras: extra });
                proof {
                    let subs1 = sub_indices(rs.take(k + 1 as int), p);
                    assert(subs1 == sub_indices(rs.take(k as int), p).push(k as int));
                    assert forall|i: int| 0 <= i < subs1.len() implies {
                        &&& sub_descriptor_of(
                            (#[trigger] subresources@[i]).resource,
                            rs[subs1[i]],
                            list.group_version@,
                            p,
                        )
                        &&& resolves(
                            rs,
                            list.group_version@,
                            rs[subs1[i]].name@,
                            subresources@[i].extras,
                        )
                    } by {
                        if i < subs1.len() - 1 {
                            assert(subs1[i] == sub_indices(rs.take(k as int), p)[i]);
                        } else {
                            assert(subs1[i] == k as int);
                        }
                    }
                }
            }
            k += 1;
        }
        proof {
            assert(rs.take(n as int) =~= rs);
        }
        let result = ApiResourceExtras { scope, subresources, operations };
        proof {
            assert(resolves(rs, list.group_version@, name@, result));
        }
        Ok(result)
    }
}

} // verus!
